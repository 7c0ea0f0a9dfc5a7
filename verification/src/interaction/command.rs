//! Commands: the unit of work a scenario replays against the device.
//!
//! A raw command is the plain shape read out of a scenario file; it is
//! validated (`expect_prefix`, `expect_exact` and `timeout` must be jointly
//! present or jointly absent) and converted into a [`Command`], decoding hex
//! payloads along the way.

use vstd::prelude::*;

verus! {

/// Why a raw command was rejected.
#[derive(Clone, Copy, Debug, PartialEq, Eq, Structural)]
pub enum ParseError {
    /// `expect_prefix`, `expect_exact` and `timeout` were not jointly
    /// present or jointly absent.
    FieldMismatch,
    /// A hex payload was not an even-length string of hex digits.
    InvalidHex,
}

/// Value of one hex digit, or `None` for any other byte.
pub open spec fn hex_digit_value(c: u8) -> Option<u8> {
    if 0x30 <= c && c <= 0x39 {
        Some((c - 0x30) as u8)
    } else if 0x61 <= c && c <= 0x66 {
        Some((c - 0x61 + 10) as u8)
    } else if 0x41 <= c && c <= 0x46 {
        Some((c - 0x41 + 10) as u8)
    } else {
        None
    }
}

/// Bytes denoted by a hex string, or `None` if the string has odd length or
/// holds a byte that is not a hex digit.
pub open spec fn spec_hex_decode(s: Seq<u8>) -> Option<Seq<u8>>
    decreases s.len(),
{
    if s.len() == 0 {
        Some(Seq::empty())
    } else if s.len() == 1 {
        None
    } else {
        match (hex_digit_value(s[0]), hex_digit_value(s[1])) {
            (Some(hi), Some(lo)) => match spec_hex_decode(s.skip(2)) {
                Some(rest) => Some(seq![(hi * 16 + lo) as u8] + rest),
                None => None,
            },
            _ => None,
        }
    }
}

/// Exec mirror of [`hex_digit_value`].
fn hex_digit(c: u8) -> (r: Option<u8>)
    ensures
        r == hex_digit_value(c),
        r matches Some(v) ==> v < 16,
{
    if 0x30 <= c && c <= 0x39 {
        Some(c - 0x30)
    } else if 0x61 <= c && c <= 0x66 {
        Some(c - 0x61 + 10)
    } else if 0x41 <= c && c <= 0x46 {
        Some(c - 0x41 + 10)
    } else {
        None
    }
}

/// Payload of a command as written in a scenario file: either a hex string
/// still to be decoded, or literal text, both carried as raw bytes.
#[derive(Debug, PartialEq)]
pub enum RawSendable {
    Hex { data: Vec<u8> },
    Text { data: Vec<u8> },
}

/// The untyped shape of a command's `destination`-tagged body, with every
/// optional field still optional.
#[derive(Debug, PartialEq)]
pub enum RawDestination {
    Connection {
        send: Option<RawSendable>,
        expect_prefix: Option<Vec<u8>>,
        expect_exact: Option<Vec<u8>>,
        timeout: Option<u64>,
        delay: Option<u64>,
    },
}

/// One entry of a scenario file before validation and conversion.
#[derive(Debug, PartialEq)]
pub struct RawCommand {
    pub command: RawDestination,
    pub description: Option<String>,
}

/// Payload ready to be written to the transport.
#[derive(Debug, PartialEq)]
pub enum Sendable {
    Hex { data: Vec<u8> },
    Text { data: Vec<u8> },
}

/// A validated command body: payload, expected reply and its time bounds.
/// `timeout` and `delay` are in seconds.
#[derive(Debug, PartialEq)]
pub enum Destination {
    Connection {
        send: Sendable,
        expect_prefix: Vec<u8>,
        expect_exact: Vec<u8>,
        timeout: u64,
        delay: u64,
    },
}

/// One unit of scenario work: a send, an optional bounded wait for a reply,
/// and a free-form description.
#[derive(Debug, PartialEq)]
pub struct Command {
    pub command: Destination,
    pub description: Option<String>,
}

/// Mathematical shape of a [`Sendable`].
pub enum SendableView {
    Hex { data: Seq<u8> },
    Text { data: Seq<u8> },
}

/// Mathematical shape of a [`Command`].
pub struct CommandView {
    pub send: SendableView,
    pub expect_prefix: Seq<u8>,
    pub expect_exact: Seq<u8>,
    pub timeout: u64,
    pub delay: u64,
    pub description: Option<Seq<char>>,
}

impl SendableView {
    /// The bytes this payload puts on the wire, whichever way it was
    /// written.
    pub open spec fn bytes(self) -> Seq<u8> {
        match self {
            SendableView::Hex { data } => data,
            SendableView::Text { data } => data,
        }
    }
}

impl View for Sendable {
    type V = SendableView;

    open spec fn view(&self) -> SendableView {
        match self {
            Sendable::Hex { data } => SendableView::Hex { data: data@ },
            Sendable::Text { data } => SendableView::Text { data: data@ },
        }
    }
}

impl Sendable {
    /// The bytes this payload writes to the transport, hex already
    /// decoded.
    pub fn into_data(self) -> (r: Vec<u8>)
        ensures
            r@ == self@.bytes(),
    {
        match self {
            Sendable::Hex { data } => data,
            Sendable::Text { data } => data,
        }
    }
}

impl View for Command {
    type V = CommandView;

    open spec fn view(&self) -> CommandView {
        match self.command {
            Destination::Connection { send, expect_prefix, expect_exact, timeout, delay } => CommandView {
                send: send@,
                expect_prefix: expect_prefix@,
                expect_exact: expect_exact@,
                timeout: timeout,
                delay: delay,
                description: match self.description {
                    Some(d) => Some(d@),
                    None => None,
                },
            },
        }
    }
}

impl RawCommand {
    /// Whether `expect_prefix`, `expect_exact` and `timeout` are jointly
    /// given — all three present, the replies non-empty and the timeout
    /// non-zero — or jointly absent.
    pub open spec fn spec_fields_consistent(&self) -> bool {
        match self.command {
            RawDestination::Connection { expect_prefix, expect_exact, timeout, .. } => {
                match (expect_prefix, expect_exact, timeout) {
                    (Some(p), Some(e), Some(t)) => p@.len() > 0 && e@.len() > 0 && t > 0,
                    (None, None, None) => true,
                    _ => false,
                }
            },
        }
    }

    /// Rejects a raw command whose reply fields are only partially given:
    /// an empty expected reply or a zero timeout counts as not given.
    pub fn validate(&self) -> (r: Result<(), ParseError>)
        ensures
            r is Ok <==> self.spec_fields_consistent(),
            r is Err ==> r == Err::<(), ParseError>(ParseError::FieldMismatch),
    {
        match &self.command {
            RawDestination::Connection { expect_prefix, expect_exact, timeout, .. } => {
                match (expect_prefix, expect_exact, timeout) {
                    (Some(p), Some(e), Some(t)) => if p.len() > 0 && e.len() > 0 && *t > 0 {
                        Ok(())
                    } else {
                        Err(ParseError::FieldMismatch)
                    },
                    (None, None, None) => Ok(()),
                    _ => Err(ParseError::FieldMismatch),
                }
            },
        }
    }
}

/// Whether the payload of a raw command fails hex decoding.
pub open spec fn spec_send_invalid(raw: &RawCommand) -> bool {
    match raw.command {
        RawDestination::Connection { send, .. } => match send {
            Some(RawSendable::Hex { data }) => spec_hex_decode(data@) is None,
            _ => false,
        },
    }
}

/// The command a raw command converts to; meaningful only when
/// [`spec_send_invalid`] is false.
pub open spec fn spec_command_of(raw: &RawCommand) -> CommandView {
    match raw.command {
        RawDestination::Connection { send, expect_prefix, expect_exact, timeout, delay } => CommandView {
            send: match send {
                Some(RawSendable::Hex { data }) => SendableView::Hex {
                    data: match spec_hex_decode(data@) {
                        Some(bytes) => bytes,
                        None => Seq::empty(),
                    },
                },
                Some(RawSendable::Text { data }) => SendableView::Text { data: data@ },
                None => SendableView::Text { data: Seq::empty() },
            },
            expect_prefix: match expect_prefix {
                Some(p) => p@,
                None => Seq::empty(),
            },
            expect_exact: match expect_exact {
                Some(e) => e@,
                None => Seq::empty(),
            },
            timeout: match timeout {
                Some(t) => t,
                None => 0,
            },
            delay: match delay {
                Some(d) => d,
                None => 0,
            },
            description: match raw.description {
                Some(d) => Some(d@),
                None => None,
            },
        },
    }
}

impl Sendable {
    /// Decodes a raw payload, turning a hex string into its bytes and text
    /// into its raw bytes.
    pub fn try_from(value: RawSendable) -> (r: Result<Sendable, ParseError>)
        ensures
            match r {
                Ok(s) => match value {
                    RawSendable::Hex { data } => spec_hex_decode(data@) matches Some(bytes)
                        && s@ == (SendableView::Hex { data: bytes }),
                    RawSendable::Text { data } => s@ == (SendableView::Text { data: data@ }),
                },
                Err(e) => e == ParseError::InvalidHex && (value matches RawSendable::Hex { data }
                    && spec_hex_decode(data@) is None),
            },
    {
        match value {
            RawSendable::Hex { data } => {
                let bytes = decode_hex(data.as_slice())?;
                Ok(Sendable::Hex { data: bytes })
            },
            RawSendable::Text { data } => Ok(Sendable::Text { data }),
        }
    }
}

impl Command {
    /// Converts a raw command, filling every absent field with its empty or
    /// zero default.  The joint-presence rule is [`RawCommand::validate`]'s
    /// business, not this function's.
    pub fn try_from(value: RawCommand) -> (r: Result<Command, ParseError>)
        ensures
            match r {
                Ok(c) => !spec_send_invalid(&value) && c@ == spec_command_of(&value),
                Err(e) => spec_send_invalid(&value) && e == ParseError::InvalidHex,
            },
    {
        let RawCommand { command, description } = value;
        match command {
            RawDestination::Connection { send, expect_prefix, expect_exact, timeout, delay } => {
                let sendable = match send {
                    Some(raw_send) => Sendable::try_from(raw_send)?,
                    None => Sendable::Text { data: Vec::new() },
                };
                Ok(
                    Command {
                        command: Destination::Connection {
                            send: sendable,
                            expect_prefix: match expect_prefix {
                                Some(p) => p,
                                None => Vec::new(),
                            },
                            expect_exact: match expect_exact {
                                Some(e) => e,
                                None => Vec::new(),
                            },
                            timeout: match timeout {
                                Some(t) => t,
                                None => 0,
                            },
                            delay: match delay {
                                Some(d) => d,
                                None => 0,
                            },
                        },
                        description,
                    },
                )
            },
        }
    }
}

/// Why a whole raw command is rejected by parsing, or `None` if it parses.
pub open spec fn spec_raw_error(raw: &RawCommand) -> Option<ParseError> {
    if !raw.spec_fields_consistent() {
        Some(ParseError::FieldMismatch)
    } else if spec_send_invalid(raw) {
        Some(ParseError::InvalidHex)
    } else {
        None
    }
}

/// The error of the first raw command that is rejected, in file order, or
/// `None` when every command parses.
pub open spec fn spec_first_error(raws: Seq<RawCommand>) -> Option<ParseError>
    decreases raws.len(),
{
    if raws.len() == 0 {
        None
    } else if spec_raw_error(&raws[0]) is Some {
        spec_raw_error(&raws[0])
    } else {
        spec_first_error(raws.skip(1))
    }
}

/// Everything [`parse_commands`] promises of its result: success happens
/// exactly when no raw command is rejected, and then each command is the
/// conversion of its raw counterpart; failure carries the first error.
pub open spec fn spec_parse_post(raws: Seq<RawCommand>, r: Result<Vec<Command>, ParseError>) -> bool {
    match r {
        Ok(cmds) => spec_first_error(raws) is None && cmds@.len() == raws.len() && forall|i: int|
            0 <= i < raws.len() ==> spec_raw_error(&raws[i]) is None && #[trigger] cmds@[i]@
                == spec_command_of(&raws[i]),
        Err(e) => spec_first_error(raws) == Some(e),
    }
}

/// Parsing is a function of the raw commands alone: any two results the
/// parsing contract admits for the same raw list are structurally
/// identical — they succeed or fail together, fail with the same error,
/// and agree on every command produced.
pub proof fn lemma_parse_deterministic(
    raws: Seq<RawCommand>,
    r1: Result<Vec<Command>, ParseError>,
    r2: Result<Vec<Command>, ParseError>,
)
    requires
        spec_parse_post(raws, r1),
        spec_parse_post(raws, r2),
    ensures
        match (r1, r2) {
            (Ok(c1), Ok(c2)) => c1@.len() == c2@.len() && forall|i: int|
                0 <= i < c1@.len() ==> #[trigger] c1@[i]@ == c2@[i]@,
            (Err(e1), Err(e2)) => e1 == e2,
            _ => false,
        },
{
}

/// Validates and converts a scenario's raw commands in order, stopping at
/// the first invalid one.
#[verifier::loop_isolation(false)]
pub fn parse_commands(raws: Vec<RawCommand>) -> (r: Result<Vec<Command>, ParseError>)
    ensures
        spec_parse_post(raws@, r),
{
    let ghost raws_view = raws@;
    let mut processed: Vec<Command> = Vec::new();
    let mut remaining = raws;
    proof {
        assert(raws_view.skip(0) =~= raws_view);
    }
    while remaining.len() > 0
        invariant
            processed@.len() + remaining@.len() == raws_view.len(),
            forall|i: int|
                0 <= i < remaining@.len() ==> remaining@[i] == raws_view[processed@.len() + i],
            forall|i: int|
                0 <= i < processed@.len() ==> spec_raw_error(&raws_view[i]) is None
                    && processed@[i]@ == spec_command_of(&raws_view[i]),
            spec_first_error(raws_view) == spec_first_error(
                raws_view.skip(processed@.len() as int),
            ),
        decreases remaining@.len(),
    {
        let raw = remaining.remove(0);
        let ghost pos = processed@.len() as int;
        proof {
            assert(raw == raws_view[pos]);
            assert(raws_view.skip(pos)[0] == raws_view[pos]);
            assert(raws_view.skip(pos).skip(1) =~= raws_view.skip(pos + 1));
        }
        match raw.validate() {
            Ok(()) => {},
            Err(e) => {
                return Err(e);
            },
        }
        let cmd = match Command::try_from(raw) {
            Ok(c) => c,
            Err(e) => {
                return Err(e);
            },
        };
        processed.push(cmd);
    }
    proof {
        assert(raws_view.skip(raws_view.len() as int) =~= Seq::<RawCommand>::empty());
    }
    Ok(processed)
}

/// Decodes an even-length hex string into its bytes.
pub fn decode_hex(data: &[u8]) -> (r: Result<Vec<u8>, ParseError>)
    ensures
        match r {
            Ok(bytes) => spec_hex_decode(data@) == Some(bytes@),
            Err(e) => spec_hex_decode(data@) is None && e == ParseError::InvalidHex,
        },
{
    let mut out: Vec<u8> = Vec::new();
    let mut i: usize = 0;
    proof {
        assert(data@.skip(0) =~= data@);
        assert forall|rest: Seq<u8>|
            spec_hex_decode(data@.skip(0)) == Some(rest) implies spec_hex_decode(data@) == Some(
            out@ + rest,
        ) by {
            assert(out@ + rest =~= rest);
        }
    }
    while i < data.len()
        invariant
            i % 2 == 0,
            i <= data.len(),
            forall|rest: Seq<u8>|
                spec_hex_decode(data@.skip(i as int)) == Some(rest) ==> spec_hex_decode(data@)
                    == Some(out@ + rest),
            spec_hex_decode(data@.skip(i as int)) is None ==> spec_hex_decode(data@) is None,
        decreases data.len() - i,
    {
        if i + 1 == data.len() {
            assert(data@.skip(i as int).len() == 1);
            return Err(ParseError::InvalidHex);
        }
        let hi = match hex_digit(data[i]) {
            Some(v) => v,
            None => {
                assert(data@.skip(i as int)[0] == data@[i as int]);
                return Err(ParseError::InvalidHex);
            },
        };
        let lo = match hex_digit(data[i + 1]) {
            Some(v) => v,
            None => {
                assert(data@.skip(i as int)[0] == data@[i as int]);
                assert(data@.skip(i as int)[1] == data@[i + 1]);
                return Err(ParseError::InvalidHex);
            },
        };
        proof {
            assert(data@.skip(i as int)[0] == data@[i as int]);
            assert(data@.skip(i as int)[1] == data@[i + 1]);
            assert(data@.skip(i as int).skip(2) =~= data@.skip(i + 2));
        }
        let ghost old_out = out@;
        out.push(hi * 16 + lo);
        proof {
            assert forall|rest: Seq<u8>|
                spec_hex_decode(data@.skip(i + 2)) == Some(rest) implies spec_hex_decode(data@)
                == Some(out@ + rest) by {
                assert(spec_hex_decode(data@.skip(i as int)) == Some(
                    seq![(hi * 16 + lo) as u8] + rest,
                ));
                assert(old_out + (seq![(hi * 16 + lo) as u8] + rest) =~= out@ + rest);
            }
        }
        i = i + 2;
    }
    assert(data@.skip(i as int) =~= Seq::<u8>::empty());
    assert(out@ + Seq::<u8>::empty() =~= out@);
    Ok(out)
}

} // verus!
