use moksha_mint::error::{BackendFault, LightningError};
use moksha_mint::lnd::LndLightning;
use moksha_mint::rpc::RoundTrip;

#[test]
fn only_an_unsent_request_is_known_to_have_changed_nothing() {
    assert!(!BackendFault::NotSent.may_have_taken_effect());
    assert!(BackendFault::NoResponse.may_have_taken_effect());
    assert!(BackendFault::NodeError.may_have_taken_effect());
}

#[test]
fn failures_before_sending_leave_nothing_open() {
    assert!(!LightningError::ConnectError.may_have_taken_effect());
    assert!(!LightningError::DecodeInvoice.may_have_taken_effect());
    assert!(!LightningError::InvalidAmount.may_have_taken_effect());
    assert!(!LightningError::Backend(BackendFault::NotSent).may_have_taken_effect());
}

#[test]
fn failures_after_sending_leave_the_outcome_open() {
    assert!(LightningError::Backend(BackendFault::NoResponse).may_have_taken_effect());
    assert!(LightningError::Backend(BackendFault::NodeError).may_have_taken_effect());
}

#[test]
fn answer_of_a_round_trip_is_handed_on() {
    assert_eq!(RoundTrip::Answered(42u8).answer(), Ok(42));
    assert_eq!(RoundTrip::Answered("pong").answer(), Ok("pong"));
}

#[test]
fn fault_of_a_round_trip_is_a_backend_error() {
    assert_eq!(
        RoundTrip::<u8>::NotSent.answer(),
        Err(LightningError::Backend(BackendFault::NotSent))
    );
    assert_eq!(
        RoundTrip::<u8>::NoResponse.answer(),
        Err(LightningError::Backend(BackendFault::NoResponse))
    );
    assert_eq!(
        RoundTrip::<u8>::NodeError.answer(),
        Err(LightningError::Backend(BackendFault::NodeError))
    );
}

#[test]
fn failed_connection_makes_no_backend() {
    let attempt: Result<u32, &str> = Err("connection refused");
    assert_eq!(LndLightning::new(attempt).err(), Some(LightningError::ConnectError));
    let attempt: Result<u32, ()> = Err(());
    assert!(LndLightning::new(attempt).is_err());
}

#[test]
fn backend_is_made_around_the_session() {
    let attempt: Result<u32, &str> = Ok(7);
    let backend = LndLightning::new(attempt).ok().unwrap();
    assert_eq!(*backend.session(), 7);
}

#[test]
fn error_status_of_the_node_is_an_error_of_the_node() {
    assert_eq!(RoundTrip::<u8>::failed(true), RoundTrip::NodeError);
    assert_eq!(
        RoundTrip::<u8>::failed(true).answer(),
        Err(LightningError::Backend(BackendFault::NodeError))
    );
}

#[test]
fn error_status_of_the_transport_leaves_the_outcome_unknown() {
    assert_eq!(RoundTrip::<u8>::failed(false), RoundTrip::NoResponse);
    let error = RoundTrip::<u8>::failed(false).answer().unwrap_err();
    assert_eq!(error, LightningError::Backend(BackendFault::NoResponse));
    assert!(error.may_have_taken_effect());
}
