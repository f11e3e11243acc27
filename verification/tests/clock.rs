use coderunner::clock::timestamp_from;
use coderunner::domain::Timestamp;

#[test]
fn instants_after_the_epoch() {
    assert_eq!(timestamp_from(Ok((5, 7))), Timestamp { seconds: 5, nanos: 7 });
    assert_eq!(timestamp_from(Ok((0, 0))), Timestamp { seconds: 0, nanos: 0 });
    assert_eq!(timestamp_from(Ok((u64::MAX, 1))), Timestamp { seconds: i64::MAX, nanos: 1 });
}

#[test]
fn instants_before_the_epoch() {
    assert_eq!(timestamp_from(Err((5, 0))), Timestamp { seconds: -5, nanos: 0 });
    assert_eq!(timestamp_from(Err((5, 250_000_000))), Timestamp { seconds: -6, nanos: 750_000_000 });
    assert_eq!(timestamp_from(Err((0, 1))), Timestamp { seconds: -1, nanos: 999_999_999 });
}
