use robust_modbus::context::RobustContext;
use robust_modbus::endpoint::pick_endpoint;
use robust_modbus::error::LinkError;
use robust_modbus::retry::{AfterAttempt, AfterConnect, AfterReconnect, Attempting, Connecting, RetryPolicy};

#[test]
fn standard_policies() {
    let connect = RobustContext::retry_strategy_connect();
    let command = RobustContext::retry_strategy_command();
    assert_eq!(connect, RetryPolicy { attempts: 3, base_delay_ms: 10 });
    assert_eq!(command, RetryPolicy { attempts: 3, base_delay_ms: 10 });
}

#[test]
fn first_success_is_returned() {
    let a = Attempting::start(RobustContext::retry_strategy_command());
    assert_eq!(a.attempt_count(), 1);
    match a.attempted(Ok::<Vec<u16>, LinkError>(vec![1, 2, 3, 4])) {
        AfterAttempt::Return(r) => assert_eq!(r, Ok(vec![1, 2, 3, 4])),
        AfterAttempt::Reconnect(_) => panic!("a success ends the call"),
    }
}

#[test]
fn gives_up_after_three_attempts_with_last_error() {
    let errors = [LinkError::NotYetConnected, LinkError::Transport, LinkError::Exception(4)];
    let mut a = Attempting::start(RobustContext::retry_strategy_command());
    let mut attempts = 0u32;
    let mut reconnects = 0u32;
    let mut result = None;
    for e in errors {
        attempts += 1;
        assert_eq!(a.attempt_count(), attempts);
        let r = match a.attempted(Err::<(), LinkError>(e)) {
            AfterAttempt::Reconnect(r) => r,
            AfterAttempt::Return(_) => panic!("a failure leads to a reconnection"),
        };
        reconnects += 1;
        assert_eq!(r.failure(), e);
        assert_eq!(r.attempt_count(), attempts);
        match r.reconnected() {
            AfterReconnect::Retry(w) => {
                assert_eq!(w.attempt_count(), attempts);
                a = w.waited();
            }
            AfterReconnect::GiveUp(last) => {
                result = Some(last);
                break;
            }
        }
    }
    assert_eq!(attempts, 3);
    assert_eq!(reconnects, 3);
    assert_eq!(result, Some(LinkError::Exception(4)));
}

#[test]
fn zero_attempt_policy_still_tries_once() {
    let a = Attempting::start(RetryPolicy { attempts: 0, base_delay_ms: 10 });
    let r = match a.attempted(Err::<(), LinkError>(LinkError::Transport)) {
        AfterAttempt::Reconnect(r) => r,
        AfterAttempt::Return(_) => panic!("a failure leads to a reconnection"),
    };
    assert!(matches!(r.reconnected(), AfterReconnect::GiveUp(LinkError::Transport)));
}

#[test]
fn connecting_stops_on_success() {
    let c = Connecting::start(RobustContext::retry_strategy_connect());
    assert_eq!(c.attempt_count(), 1);
    assert!(matches!(c.attempted(Ok(())), AfterConnect::Done(Ok(()))));
}

#[test]
fn connecting_tries_three_times() {
    let mut c = Connecting::start(RobustContext::retry_strategy_connect());
    let mut attempts = 1u32;
    loop {
        match c.attempted(Err(LinkError::AddressResolution)) {
            AfterConnect::Again(next) => {
                attempts += 1;
                assert_eq!(next.attempt_count(), attempts);
                c = next;
            }
            AfterConnect::Done(r) => {
                assert_eq!(r, Err(LinkError::AddressResolution));
                break;
            }
        }
    }
    assert_eq!(attempts, 3);
}

#[test]
fn connecting_succeeds_on_second_attempt() {
    let c = Connecting::start(RobustContext::retry_strategy_connect());
    let c = match c.attempted(Err(LinkError::Transport)) {
        AfterConnect::Again(next) => next,
        AfterConnect::Done(_) => panic!("attempts remain"),
    };
    assert_eq!(c.attempt_count(), 2);
    assert!(matches!(c.attempted(Ok(())), AfterConnect::Done(Ok(()))));
}

#[test]
fn no_candidate_is_a_resolution_error() {
    assert_eq!(pick_endpoint(Vec::<u32>::new()), Err(LinkError::AddressResolution));
}

#[test]
fn first_candidate_is_chosen() {
    assert_eq!(pick_endpoint(vec![502u32, 503, 504]), Ok(502));
    assert_eq!(pick_endpoint(vec!["10.0.0.7:502"]), Ok("10.0.0.7:502"));
}
