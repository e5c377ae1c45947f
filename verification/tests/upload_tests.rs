use rbxsync::errors::SyncError;
use rbxsync::json::PollRaw;
use rbxsync::upload::{PollStep, UploadPoller, MAX_POLL_ATTEMPTS};

fn pending() -> PollRaw {
    PollRaw { done: false, asset_id: None, error_message: None }
}

#[test]
fn poll_succeeds_on_done_with_id() {
    let mut poller = UploadPoller::new();
    let raw = PollRaw { done: true, asset_id: Some(777), error_message: None };
    assert!(matches!(poller.step(raw), PollStep::Done(777)));
}

#[test]
fn poll_fails_on_embedded_error() {
    let mut poller = UploadPoller::new();
    let raw = PollRaw {
        done: true,
        asset_id: None,
        error_message: Some("moderation rejected".to_string()),
    };
    match poller.step(raw) {
        PollStep::Fail(SyncError::UploadFailed(m)) => assert_eq!(m, "moderation rejected"),
        _ => panic!("expected an upload failure"),
    }
}

#[test]
fn poll_fails_on_done_without_id() {
    let mut poller = UploadPoller::new();
    let raw = PollRaw { done: true, asset_id: None, error_message: None };
    match poller.step(raw) {
        PollStep::Fail(SyncError::UploadFailed(m)) => {
            assert_eq!(m, "operation completed but returned no asset identifier")
        },
        _ => panic!("expected an upload failure"),
    }
}

#[test]
fn poll_continues_while_attempts_remain() {
    let mut poller = UploadPoller::new();
    for _ in 0..MAX_POLL_ATTEMPTS - 1 {
        assert!(matches!(poller.step(pending()), PollStep::Again));
    }
    // the last attempt without completion times out
    assert!(matches!(poller.step(pending()), PollStep::Fail(SyncError::UploadTimeout)));
}

#[test]
fn poll_can_succeed_on_last_attempt() {
    let mut poller = UploadPoller::new();
    for _ in 0..MAX_POLL_ATTEMPTS - 1 {
        assert!(matches!(poller.step(pending()), PollStep::Again));
    }
    let raw = PollRaw { done: true, asset_id: Some(5), error_message: None };
    assert!(matches!(poller.step(raw), PollStep::Done(5)));
}
