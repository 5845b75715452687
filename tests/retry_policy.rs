use dbs_cli::action::{ActionError, CallError, Payload};
use dbs_cli::retry::{RetryState, Verdict, REQUEST_RETRY, RETRY_BACKOFF_MS};

fn not_ready() -> Result<Payload, CallError> {
    Err(CallError::Rejected(ActionError::NotReady))
}

#[test]
fn policy_constants() {
    assert_eq!(REQUEST_RETRY, 500);
    assert_eq!(RETRY_BACKOFF_MS, 10);
}

#[test]
fn succeeds_after_k_not_ready_replies() {
    for k in [0u32, 1, 7, 499] {
        let mut st = RetryState::new();
        let mut attempts = 0u32;
        loop {
            attempts += 1;
            let reply = if attempts <= k { not_ready() } else { Ok(Payload::Empty) };
            match st.observe(reply) {
                Verdict::Again => continue,
                Verdict::Settled(r) => {
                    assert_eq!(r, Ok(Payload::Empty));
                    break;
                }
            }
        }
        assert_eq!(attempts, k + 1);
    }
}

#[test]
fn gives_up_after_exactly_500_attempts() {
    let mut st = RetryState::new();
    let mut attempts = 0u32;
    let result = loop {
        attempts += 1;
        if let Verdict::Settled(r) = st.observe(not_ready()) {
            break r;
        }
    };
    assert_eq!(attempts, 500);
    assert_eq!(result, Err(CallError::RetriesExhausted));
}

#[test]
fn final_errors_are_not_retried() {
    let mut st = RetryState::new();
    let v = st.observe(Err(CallError::Rejected(ActionError::Other("x".to_string()))));
    assert_eq!(v, Verdict::Settled(Err(CallError::Rejected(ActionError::Other("x".to_string())))));
    assert_eq!(st.attempts, 0);
    let v = st.observe(Err(CallError::ChannelClosed));
    assert_eq!(v, Verdict::Settled(Err(CallError::ChannelClosed)));
}
