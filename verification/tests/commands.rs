use jett_studio::commands::{expect_value, BridgeError, Session};

#[test]
fn error_messages() {
    assert_eq!(BridgeError::AlreadyConnected.message(), "Already connected");
    assert_eq!(BridgeError::NotConnected.message(), "SimConnect not connected");
    assert_eq!(BridgeError::NoValueReceived.message(), "No value received");
}

#[test]
fn fresh_session_refuses_commands() {
    let session: Session<u32> = Session::new();
    assert!(!session.is_connected());
    assert_eq!(session.route(), Err(BridgeError::NotConnected));
    assert_eq!(session.check_connect(), Ok(()));
}

#[test]
fn connecting_twice_is_refused() {
    let mut session: Session<u32> = Session::new();
    assert_eq!(session.check_connect(), Ok(()));
    session.attach(7);
    assert!(session.is_connected());
    assert_eq!(session.check_connect(), Err(BridgeError::AlreadyConnected));
    assert_eq!(
        session.check_connect().map_err(|e| e.message()),
        Err("Already connected".to_string())
    );
}

#[test]
fn commands_go_on_the_attached_link() {
    let mut session: Session<u32> = Session::new();
    session.attach(42);
    assert_eq!(session.route(), Ok(&42));
}

#[test]
fn disconnect_hands_back_the_link_once() {
    let mut session: Session<u32> = Session::new();
    session.attach(5);
    assert_eq!(session.detach(), Some(5));
    assert!(!session.is_connected());
    assert_eq!(session.detach(), None);
    assert_eq!(session.route(), Err(BridgeError::NotConnected));
    assert_eq!(session.check_connect(), Ok(()));
}

#[test]
fn reconnect_after_disconnect() {
    let mut session: Session<u32> = Session::new();
    session.attach(1);
    session.detach();
    assert_eq!(session.check_connect(), Ok(()));
    session.attach(2);
    assert_eq!(session.route(), Ok(&2));
}

#[test]
fn one_shot_read_without_value_is_an_error() {
    assert_eq!(expect_value(Some(12.5f64)), Ok(12.5));
    assert_eq!(expect_value::<f64>(None), Err(BridgeError::NoValueReceived));
    assert_eq!(
        expect_value::<f64>(None).map_err(|e| e.message()),
        Err("No value received".to_string())
    );
}
