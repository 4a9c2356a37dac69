use semaphore::{
    deadline, post_step, timedwait_step, trywait_step, value_step, wait_step, ErrorCodes, Failure,
    InitStep, Lifecycle, Mode, NoToken, Overflow, Step,
};

fn codes() -> ErrorCodes {
    ErrorCodes::native()
}

fn ok() -> Result<(), Failure> {
    Ok(())
}

fn err(f: Failure) -> Result<(), Failure> {
    Err(f)
}

#[test]
fn native_codes_are_libc_constants() {
    let c = codes();
    assert_eq!(c.interrupted, libc::EINTR);
    assert_eq!(c.would_block, libc::EAGAIN);
    assert_eq!(c.timed_out, libc::ETIMEDOUT);
    assert_eq!(c.overflow, libc::EOVERFLOW);
}

#[test]
fn classify_each_error_number() {
    let c = codes();
    assert_eq!(c.classify(libc::EINTR), Failure::Interrupted);
    assert_eq!(c.classify(libc::EAGAIN), Failure::WouldBlock);
    assert_eq!(c.classify(libc::ETIMEDOUT), Failure::TimedOut);
    assert_eq!(c.classify(libc::EOVERFLOW), Failure::CountOverflow);
    assert_eq!(c.classify(libc::EINVAL), Failure::Other(libc::EINVAL));
}

#[test]
fn classify_with_custom_codes() {
    let c = ErrorCodes { interrupted: 1, would_block: 2, timed_out: 3, overflow: 4 };
    assert_eq!(c.classify(3), Failure::TimedOut);
    assert_eq!(c.classify(9), Failure::Other(9));
}

#[test]
fn classify_with_negative_codes() {
    let c = ErrorCodes { interrupted: -4, would_block: -11, timed_out: -110, overflow: -75 };
    assert_eq!(c.classify(-4), Failure::Interrupted);
    assert_eq!(c.classify(-75), Failure::CountOverflow);
    assert_eq!(c.reply(-1, -11), Err(Failure::WouldBlock));
    assert_eq!(c.classify(4), Failure::Other(4));
}

#[test]
fn reply_reads_return_code_first() {
    let c = codes();
    assert_eq!(c.reply(0, libc::EINTR), Ok(()));
    assert_eq!(c.reply(-1, libc::EINTR), Err(Failure::Interrupted));
    assert_eq!(c.reply(-1, libc::EAGAIN), Err(Failure::WouldBlock));
}

#[test]
fn wait_retries_only_on_signal() {
    assert_eq!(wait_step(ok()), Step::Done(()));
    assert_eq!(wait_step(err(Failure::Interrupted)), Step::Retry);
    assert_eq!(wait_step(err(Failure::WouldBlock)), Step::Abort);
    assert_eq!(wait_step(err(Failure::Other(22))), Step::Abort);
}

#[test]
fn trywait_maps_zero_count_to_no_token() {
    assert_eq!(trywait_step(ok()), Step::Done(Ok(())));
    assert_eq!(trywait_step(err(Failure::Interrupted)), Step::Retry);
    assert_eq!(trywait_step(err(Failure::WouldBlock)), Step::Done(Err(NoToken)));
    assert_eq!(trywait_step(err(Failure::TimedOut)), Step::Abort);
    assert_eq!(trywait_step(err(Failure::Other(22))), Step::Abort);
}

#[test]
fn timedwait_maps_timeout_to_no_token() {
    assert_eq!(timedwait_step(ok()), Step::Done(Ok(())));
    assert_eq!(timedwait_step(err(Failure::Interrupted)), Step::Retry);
    assert_eq!(timedwait_step(err(Failure::TimedOut)), Step::Done(Err(NoToken)));
    assert_eq!(timedwait_step(err(Failure::WouldBlock)), Step::Abort);
    assert_eq!(timedwait_step(err(Failure::Other(22))), Step::Abort);
}

#[test]
fn post_maps_full_count_to_overflow() {
    assert_eq!(post_step(ok()), Step::Done(Ok(())));
    assert_eq!(post_step(err(Failure::CountOverflow)), Step::Done(Err(Overflow)));
    assert_eq!(post_step(err(Failure::Interrupted)), Step::Abort);
    assert_eq!(post_step(err(Failure::Other(22))), Step::Abort);
}

#[test]
fn value_is_reported_only_after_success() {
    assert_eq!(value_step(0, 7), Some(7));
    assert_eq!(value_step(0, 0), Some(0));
    assert_eq!(value_step(-1, 7), None);
}

#[test]
fn lifecycle_tag_follows_init_and_teardown() {
    let mut life = Lifecycle::new();
    assert_eq!(life.current(), Mode::Uninitialized);
    assert!(!life.needs_teardown());
    assert_eq!(life.record_init(0), InitStep::Ready);
    assert_eq!(life.current(), Mode::Anonymous);
    assert!(life.needs_teardown());
    assert!(life.record_teardown(0));
    assert_eq!(life.current(), Mode::Uninitialized);
}

#[test]
fn failed_init_owes_no_teardown() {
    let mut life = Lifecycle::new();
    assert_eq!(life.record_init(-1), InitStep::Failed);
    assert_eq!(life.current(), Mode::Uninitialized);
    assert!(!life.needs_teardown());

    let mut odd = Lifecycle::new();
    assert_eq!(odd.record_init(3), InitStep::Abort);
    assert!(!odd.needs_teardown());
}

#[test]
fn failed_teardown_keeps_tag() {
    let mut life = Lifecycle::new();
    life.record_init(0);
    assert!(!life.record_teardown(-1));
    assert_eq!(life.current(), Mode::Anonymous);
}

#[test]
fn deadline_keeps_seconds_and_nanoseconds() {
    let t = deadline(1_700_000_000, 250_000_000);
    assert_eq!(t.secs, 1_700_000_000);
    assert_eq!(t.nanos, 250_000_000);
    let edge = deadline(i64::MAX as u64, 999_999_999);
    assert_eq!(edge.secs, i64::MAX);
    assert_eq!(edge.nanos, 999_999_999);
    let epoch = deadline(0, 0);
    assert_eq!((epoch.secs, epoch.nanos), (0, 0));
}

#[test]
fn error_messages() {
    assert_eq!(NoToken.message(), "No token available");
    assert_eq!(Overflow.message(), "Overflow of a semaphore");
}

// Construct with count 1, wait, read 0, try and find no token, release, read 1:
// the decisions on what the primitive reports at each call.
#[test]
fn end_to_end_count_one() {
    let c = codes();
    let mut life = Lifecycle::new();
    assert_eq!(life.record_init(0), InitStep::Ready);
    assert_eq!(value_step(0, 1), Some(1));
    assert_eq!(wait_step(c.reply(0, 0)), Step::Done(()));
    assert_eq!(value_step(0, 0), Some(0));
    assert_eq!(trywait_step(c.reply(-1, libc::EAGAIN)), Step::Done(Err(NoToken)));
    assert_eq!(post_step(c.reply(0, 0)), Step::Done(Ok(())));
    assert_eq!(value_step(0, 1), Some(1));
    assert!(life.record_teardown(0));
}

// A release at the largest count is reported as overflow, not retried.
#[test]
fn release_at_maximum_overflows() {
    let c = codes();
    assert_eq!(post_step(c.reply(-1, libc::EOVERFLOW)), Step::Done(Err(Overflow)));
}

// A zero count refuses a non-blocking acquire; after a release it succeeds.
#[test]
fn trywait_zero_then_release() {
    let c = codes();
    assert_eq!(trywait_step(c.reply(-1, libc::EAGAIN)), Step::Done(Err(NoToken)));
    assert_eq!(post_step(c.reply(0, 0)), Step::Done(Ok(())));
    assert_eq!(trywait_step(c.reply(0, 0)), Step::Done(Ok(())));
    assert_eq!(value_step(0, 0), Some(0));
}

// A deadline that passes on a zero count gives no token; signals before it retry.
#[test]
fn deadline_expiry_gives_no_token() {
    let c = codes();
    assert_eq!(timedwait_step(c.reply(-1, libc::EINTR)), Step::Retry);
    assert_eq!(timedwait_step(c.reply(-1, libc::ETIMEDOUT)), Step::Done(Err(NoToken)));
}
