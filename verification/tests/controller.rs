use scenario_runner::threads::controller::{Controller, Identifier};
use scenario_runner::threads::itc::Event;

#[test]
fn endpoints_are_cross_wired() {
    let mut hub = Controller::new();
    let handler_end = hub
        .take_endpoint(Identifier::Handler)
        .expect("handler endpoint missing");
    let runner_end = hub
        .take_endpoint(Identifier::Runner)
        .expect("runner endpoint missing");

    handler_end
        .send(Event::StartStream, "runner".to_string())
        .expect("Failed to send across the pair");
    let received = runner_end
        .receive_timeout(2000)
        .expect("The runner end received nothing");
    assert!(matches!(received.event, Event::StartStream));
    assert_eq!(received.origin, "handler".to_string());
    assert_eq!(received.destination, "runner".to_string());

    runner_end
        .send(Event::ReceiveError, "handler".to_string())
        .expect("Failed to send back across the pair");
    let received = handler_end
        .receive_timeout(2000)
        .expect("The handler end received nothing");
    assert!(matches!(received.event, Event::ReceiveError));
    assert_eq!(received.origin, "runner".to_string());
}

#[test]
fn endpoint_is_taken_only_once() {
    let mut hub = Controller::new();
    assert!(hub.take_endpoint(Identifier::Handler).is_some());
    assert!(hub.take_endpoint(Identifier::Handler).is_none());
    assert!(hub.take_endpoint(Identifier::Runner).is_some());
    assert!(hub.take_endpoint(Identifier::Runner).is_none());
}
