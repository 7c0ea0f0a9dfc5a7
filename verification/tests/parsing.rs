use scenario_runner::interaction::command::{
    decode_hex, parse_commands, Command, Destination, ParseError, RawCommand, RawDestination,
    RawSendable, Sendable,
};

fn raw_connection(
    send: Option<RawSendable>,
    expect_prefix: Option<&str>,
    expect_exact: Option<&str>,
    timeout: Option<u64>,
    delay: Option<u64>,
) -> RawCommand {
    RawCommand {
        command: RawDestination::Connection {
            send,
            expect_prefix: expect_prefix.map(|s| Vec::from(s.as_bytes())),
            expect_exact: expect_exact.map(|s| Vec::from(s.as_bytes())),
            timeout,
            delay,
        },
        description: None,
    }
}

fn text(data: &str) -> Option<RawSendable> {
    Some(RawSendable::Text {
        data: Vec::from(data.as_bytes()),
    })
}

fn hex(data: &str) -> Option<RawSendable> {
    Some(RawSendable::Hex {
        data: Vec::from(data.as_bytes()),
    })
}

#[test]
fn parse_scenario_single_pass() {
    let raws = vec![raw_connection(
        text("Hello"),
        Some("This is the fixed sentence that always"),
        Some("This is the fixed sentence that always appears"),
        Some(240),
        Some(0),
    )];

    let result = parse_commands(raws).expect("Failed to parse scenario");
    let assert_command = Command {
        command: Destination::Connection {
            send: Sendable::Text {
                data: Vec::from("Hello"),
            },
            expect_prefix: Vec::from("This is the fixed sentence that always"),
            expect_exact: Vec::from("This is the fixed sentence that always appears"),
            timeout: 240,
            delay: 0,
        },
        description: None,
    };

    assert_eq!(result[0], assert_command, "Failed to parse scenario");
}

#[test]
fn parse_scenario_multiple_pass() {
    let raws = vec![
        raw_connection(
            text("Hello"),
            Some("This is the fixed sentence that always"),
            Some("This is the fixed sentence that always appears"),
            Some(240),
            Some(0),
        ),
        raw_connection(
            hex("deadbeef"),
            Some("This is the fixed sentence that always"),
            Some("This is the fixed sentence that always appears"),
            Some(240),
            Some(0),
        ),
    ];

    let result = parse_commands(raws).expect("Failed to parse scenario");
    let assert_text_command = Command {
        command: Destination::Connection {
            send: Sendable::Text {
                data: Vec::from("Hello"),
            },
            expect_prefix: Vec::from("This is the fixed sentence that always"),
            expect_exact: Vec::from("This is the fixed sentence that always appears"),
            timeout: 240,
            delay: 0,
        },
        description: None,
    };
    let assert_hex_command = Command {
        command: Destination::Connection {
            send: Sendable::Hex {
                data: vec![0xde, 0xad, 0xbe, 0xef],
            },
            expect_prefix: Vec::from("This is the fixed sentence that always"),
            expect_exact: Vec::from("This is the fixed sentence that always appears"),
            timeout: 240,
            delay: 0,
        },
        description: None,
    };

    assert_eq!(result[0], assert_text_command, "Failed to parse scenario");
    assert_eq!(result[1], assert_hex_command, "Failed to parse scenario");
}

#[test]
fn parse_scenario_invalid_command() {
    let raws = vec![
        raw_connection(
            text("Hello"),
            Some("This is the fixed sentence that always"),
            Some("This is the fixed sentence that always appears"),
            Some(240),
            Some(0),
        ),
        raw_connection(
            hex("deadbeef"),
            Some("This is the fixed sentence that always"),
            None,
            Some(240),
            Some(0),
        ),
    ];

    let result = parse_commands(raws);
    assert!(result.is_err(), "Somehow the JSON was actually valid");
}

#[test]
fn parse_fails_with_field_mismatch() {
    let raws = vec![raw_connection(text("x"), Some("a"), None, Some(1), None)];
    assert_eq!(parse_commands(raws), Err(ParseError::FieldMismatch));
}

#[test]
fn parse_fails_with_invalid_hex() {
    let raws = vec![raw_connection(hex("xyz"), None, None, None, None)];
    assert_eq!(parse_commands(raws), Err(ParseError::InvalidHex));
}

#[test]
fn parse_reports_first_error() {
    // A field mismatch in the first command wins over a hex error later.
    let raws = vec![
        raw_connection(text("x"), None, Some("a"), None, None),
        raw_connection(hex("zz"), None, None, None, None),
    ];
    assert_eq!(parse_commands(raws), Err(ParseError::FieldMismatch));
}

#[test]
fn parse_commands_idempotent() {
    let build = || {
        vec![
            raw_connection(hex("00ff10"), Some("Ack"), Some("Ack!"), Some(5), Some(1)),
            raw_connection(None, None, None, None, None),
        ]
    };
    let first = parse_commands(build()).expect("first parse failed");
    let second = parse_commands(build()).expect("second parse failed");
    assert_eq!(first, second);
}

#[test]
fn parse_absent_send_defaults_to_empty_text() {
    let result = parse_commands(vec![raw_connection(None, None, None, None, None)])
        .expect("parse failed");
    assert_eq!(
        result[0],
        Command {
            command: Destination::Connection {
                send: Sendable::Text { data: Vec::new() },
                expect_prefix: Vec::new(),
                expect_exact: Vec::new(),
                timeout: 0,
                delay: 0,
            },
            description: None,
        }
    );
}

#[test]
fn decode_hex_lower_and_upper() {
    assert_eq!(
        decode_hex(b"deadBEEF"),
        Ok(vec![0xde, 0xad, 0xbe, 0xef])
    );
}

#[test]
fn decode_hex_empty() {
    assert_eq!(decode_hex(b""), Ok(Vec::new()));
}

#[test]
fn decode_hex_odd_length_fails() {
    assert_eq!(decode_hex(b"abc"), Err(ParseError::InvalidHex));
}

#[test]
fn decode_hex_bad_digit_fails() {
    assert_eq!(decode_hex(b"0g"), Err(ParseError::InvalidHex));
}

#[test]
fn validate_joint_presence() {
    let all = raw_connection(None, Some("a"), Some("b"), Some(1), None);
    let none = raw_connection(None, None, None, None, None);
    let partial = raw_connection(None, Some("a"), Some("b"), None, None);
    assert!(all.validate().is_ok());
    assert!(none.validate().is_ok());
    assert_eq!(partial.validate(), Err(ParseError::FieldMismatch));
}

#[test]
fn parse_keeps_the_description() {
    let raws = vec![RawCommand {
        command: RawDestination::Connection {
            send: None,
            expect_prefix: None,
            expect_exact: None,
            timeout: None,
            delay: None,
        },
        description: Some(String::from("a note for the operator")),
    }];
    let result = parse_commands(raws).expect("parse failed");
    assert_eq!(
        result[0].description,
        Some(String::from("a note for the operator"))
    );
}

#[test]
fn validate_rejects_empty_reply_fields() {
    // Present but empty or zero is neither jointly given nor jointly
    // absent.
    let empty_prefix = raw_connection(None, Some(""), Some("b"), Some(1), None);
    let empty_exact = raw_connection(None, Some("a"), Some(""), Some(1), None);
    let zero_timeout = raw_connection(None, Some("a"), Some("b"), Some(0), None);
    assert_eq!(empty_prefix.validate(), Err(ParseError::FieldMismatch));
    assert_eq!(empty_exact.validate(), Err(ParseError::FieldMismatch));
    assert_eq!(zero_timeout.validate(), Err(ParseError::FieldMismatch));
}

#[test]
fn parse_fails_on_present_but_empty_expectation() {
    let raws = vec![raw_connection(text("x"), Some(""), Some("b"), Some(1), None)];
    assert_eq!(parse_commands(raws), Err(ParseError::FieldMismatch));
}
