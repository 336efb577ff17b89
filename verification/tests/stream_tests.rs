use curve_launchpad::error::CustomError;
use curve_launchpad::identity::Address;
use curve_launchpad::stream::{StreamSchedule, StreamType};
use curve_launchpad::vesting::TokensReleased;

#[test]
fn initialize_starts_at_the_creation_time() {
    let s = StreamSchedule::initialize(StreamType::Linear, 5, 60, 1_000);
    assert_eq!(s.stream_type, StreamType::Linear);
    assert_eq!(s.rate, 5);
    assert_eq!(s.interval, 60);
    assert_eq!(s.last_update_time, 1_000);
    assert_eq!(s.total_streamed, 0);
}

#[test]
fn streamable_amount_counts_whole_intervals() {
    let s = StreamSchedule::initialize(StreamType::Linear, 5, 60, 1_000);
    assert_eq!(s.streamable_amount(1_000), Ok(0));
    assert_eq!(s.streamable_amount(1_059), Ok(0));
    assert_eq!(s.streamable_amount(1_060), Ok(5));
    assert_eq!(s.streamable_amount(1_179), Ok(10));
    assert_eq!(s.streamable_amount(1_180), Ok(15));
}

#[test]
fn streamable_amount_has_no_formula_for_the_other_kinds() {
    for kind in [StreamType::Exponential, StreamType::Custom] {
        let s = StreamSchedule::initialize(kind, 5, 60, 1_000);
        assert_eq!(s.streamable_amount(2_000), Err(CustomError::InvalidStreamRate));
        assert_eq!(s.streamable_amount(0), Err(CustomError::InvalidStreamRate));
    }
}

#[test]
fn streamable_amount_fails_where_time_runs_backwards() {
    let s = StreamSchedule::initialize(StreamType::Linear, 5, 60, 1_000);
    assert_eq!(s.streamable_amount(999), Err(CustomError::CalculationError));
}

#[test]
fn streamable_amount_fails_without_a_positive_interval() {
    let s = StreamSchedule::initialize(StreamType::Linear, 5, 0, 1_000);
    assert_eq!(s.streamable_amount(2_000), Err(CustomError::CalculationError));
    let t = StreamSchedule::initialize(StreamType::Linear, 5, -60, 1_000);
    assert_eq!(t.streamable_amount(2_000), Err(CustomError::CalculationError));
}

#[test]
fn streamable_amount_fails_on_overflow() {
    let s = StreamSchedule::initialize(StreamType::Linear, u64::MAX, 1, 0);
    assert_eq!(s.streamable_amount(1), Ok(u64::MAX));
    assert_eq!(s.streamable_amount(2), Err(CustomError::CalculationError));
    let t = StreamSchedule::initialize(StreamType::Linear, 1, 1, i64::MIN);
    assert_eq!(t.streamable_amount(i64::MAX), Ok(u64::MAX));
}

#[test]
fn checkpoint_commits_and_returns_the_amount() {
    let mut s = StreamSchedule::initialize(StreamType::Linear, 5, 60, 1_000);
    assert_eq!(s.checkpoint(1_130), Ok(10));
    assert_eq!(s.total_streamed, 10);
    assert_eq!(s.last_update_time, 1_130);
    assert_eq!(s.checkpoint(1_130), Ok(0));
    assert_eq!(s.checkpoint(1_189), Ok(0));
    assert_eq!(s.last_update_time, 1_189);
    assert_eq!(s.checkpoint(1_249), Ok(5));
    assert_eq!(s.total_streamed, 15);
    assert_eq!(s.rate, 5);
    assert_eq!(s.interval, 60);
}

#[test]
fn checkpoint_fails_without_a_change() {
    let mut s = StreamSchedule::initialize(StreamType::Linear, 5, 60, 1_000);
    assert_eq!(s.checkpoint(900), Err(CustomError::CalculationError));
    assert_eq!(s, StreamSchedule::initialize(StreamType::Linear, 5, 60, 1_000));
    let mut e = StreamSchedule::initialize(StreamType::Exponential, 5, 60, 1_000);
    assert_eq!(e.checkpoint(2_000), Err(CustomError::InvalidStreamRate));
    assert_eq!(e.last_update_time, 1_000);
}

#[test]
fn checkpoint_fails_where_the_total_overflows() {
    let mut s = StreamSchedule::initialize(StreamType::Linear, u64::MAX, 1, 0);
    assert_eq!(s.checkpoint(1), Ok(u64::MAX));
    assert_eq!(s.checkpoint(2), Err(CustomError::CalculationError));
    assert_eq!(s.total_streamed, u64::MAX);
    assert_eq!(s.last_update_time, 1);
}

#[test]
fn checkpoint_for_records_the_release() {
    let who = Address { bytes: [6; 32] };
    let mut s = StreamSchedule::initialize(StreamType::Linear, 5, 60, 1_000);
    assert_eq!(
        s.checkpoint_for(who, 1_130),
        Ok(TokensReleased { beneficiary: who, amount: 10, timestamp: 1_130 })
    );
    assert_eq!(s.total_streamed, 10);
    assert_eq!(s.last_update_time, 1_130);
    let before = s;
    assert_eq!(s.checkpoint_for(who, 1_000), Err(CustomError::CalculationError));
    assert_eq!(s, before);
}
