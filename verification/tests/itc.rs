use scenario_runner::threads::itc::{Endpoints, Event, Message};

fn setup() -> Endpoints {
    let (tx, rx) = crossbeam::channel::unbounded();
    Endpoints::new("unit".to_string(), tx, rx)
}

#[test]
fn itc_send_all_multiple_pass() {
    let channels = setup();
    let data_to_send = vec![Event::StopRunning, Event::StopRunning];

    channels
        .send_all(data_to_send, "unit".to_string())
        .expect("Failed to send multiple messages");
    let messages = channels
        .try_receive_all()
        .expect("Failed to receive multiple messages");
    assert_eq!(messages.len(), 2);
}

#[test]
fn itc_try_receive_all_single_pass() {
    let channels = setup();
    let data_to_send = Event::StopRunning;

    channels
        .send(data_to_send, "unit".to_string())
        .expect("Failed to send single message");
    let message = channels
        .try_receive_all()
        .expect("Failed to receive single message");
    assert_eq!(message.len(), 1);
}

#[test]
fn itc_try_receive_all_multiple_pass() {
    let channels = setup();
    let data_to_send = vec![Event::StopRunning, Event::StopRunning];

    channels
        .send_all(data_to_send, "unit".to_string())
        .expect("Failed to send multiple messages");
    let messages = channels
        .try_receive_all()
        .expect("Failed to receive multiple messages");
    assert_eq!(messages.len(), 2);
}

#[test]
fn itc_try_receive_all_nothing_pass() {
    let channels = setup();
    let result = channels.try_receive_all();

    assert!(result.is_ok(), "Failed to fail at receiving data");
}

#[test]
fn itc_receive_timeout_timed_out_fail() {
    let channels = setup();
    let result = channels.receive_timeout(2000);

    assert!(result.is_err(), "Failed to timeout");
}

#[test]
fn itc_receive_timeout_pass() {
    let channels = setup();
    channels
        .send(Event::StopRunning, "unit".to_string())
        .expect("Failed to send message");

    let result = channels.receive_timeout(2000);

    assert!(result.is_ok(), "Failed to get message");
}

#[test]
fn itc_send_pass() {
    let channels = setup();
    channels
        .send(Event::StopRunning, "unit".to_string())
        .expect("Failed to send message");

    let result = channels
        .receive_timeout(2000)
        .expect("Failed to receive message");

    assert_eq!(
        result,
        Message {
            origin: channels.get_source(),
            event: Event::StopRunning,
            destination: "unit".to_string()
        }
    );
}

#[test]
fn cloned_channels_reach_the_same_queue() {
    let channels = setup();
    let (tx, rx) = channels.get_channels();

    tx.send(Message {
        origin: "clone".to_string(),
        destination: "unit".to_string(),
        event: Event::StartStream,
    })
    .expect("Failed to send on the cloned sender");

    let received = rx.recv().expect("The cloned receiver got nothing");
    assert_eq!(received.origin, "clone".to_string());
    assert!(matches!(received.event, Event::StartStream));
}
