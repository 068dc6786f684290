use burnchain_sync::burnchain::Burnchain;
use burnchain_sync::errors::BurnchainError;
use burnchain_sync::thread_join::JoinOutcome;

#[test]
fn join_success() {
    let outcome: JoinOutcome<Result<u32, BurnchainError>> = JoinOutcome::Finished(Ok(42));

    let result = Burnchain::handle_thread_join(outcome, "test");

    assert!(result.is_ok());
    assert_eq!(result.unwrap(), 42);
}

#[test]
fn join_returns_error() {
    let outcome: JoinOutcome<Result<u32, BurnchainError>> =
        JoinOutcome::Finished(Err(BurnchainError::DownloadError));

    let result = Burnchain::handle_thread_join(outcome, "test");

    assert!(result.is_err());
    match result {
        Err(BurnchainError::DownloadError) => {}
        _ => panic!("Expected DownloadError"),
    }
}

#[test]
fn join_panics() {
    // a worker that panicked produced no result at all
    let outcome: JoinOutcome<Result<u32, BurnchainError>> = JoinOutcome::Panicked;

    let result = Burnchain::handle_thread_join(outcome, "test");

    assert!(result.is_err());
    match result {
        Err(BurnchainError::ThreadChannelError) => {}
        _ => panic!("Expected ThreadChannelError"),
    }
}

#[test]
fn join_with_delay() {
    // a worker that took its time before finishing still yields its value
    let outcome: JoinOutcome<Result<u32, BurnchainError>> = JoinOutcome::Finished(Ok(42));

    let result = Burnchain::handle_thread_join(outcome, "test");

    assert!(result.is_ok());
    assert_eq!(result.unwrap(), 42);
}
