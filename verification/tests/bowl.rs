use oats::bowl::{
    biding_time_conditions, get_time_millis, oat_of_drawn, reading_of, wait_step, Bowl,
    BowlError, GenerationBehavior, WrappedBowl, SPIN_LIMIT,
};
use oats::oat::{InvalidOatError, Oat};
use std::time::{Duration, SystemTime};

/// Test function for generating Oat values using a WrappedBowl with normal generation behavior.
#[test]
fn test_wrapped_bowl_generate() {
    // Create a WrappedBowl instance with node id 1 and normal generation behavior
    let wrapped_bowl: WrappedBowl = WrappedBowl::of(1, GenerationBehavior::Normal, None).unwrap();
    test_wrapped_bowl_generate_definition(wrapped_bowl)
}

/// Test function for generating Oat values using a WrappedBowl with lazy generation behavior.
#[test]
fn test_wrapped_bowl_generate_lazy() {
    // Create a WrappedBowl instance with node id 1 and lazy generation behavior
    let wrapped_bowl: WrappedBowl = WrappedBowl::of(1, GenerationBehavior::Lazy, None).unwrap();
    test_wrapped_bowl_generate_definition(wrapped_bowl)
}

/// Test function for creating a Bowl with Realtime generation behavior and generating Oat values.
#[test]
fn test_bowl_new_seq_realtime() {
    let mut bowl: Bowl = Bowl::of(1, GenerationBehavior::Realtime, None).unwrap();

    // Generate 10 Oat values with the Realtime generation behavior mode
    let oats: Vec<u16> = (0..10).map(|_| bowl.new_seq().unwrap()).collect();

    // Check that the sequence numbers of the Oat values are increasing
    assert!(oats.windows(2).all(|window| window[0] < window[1]));
}

/// Test function for generating Oat values using a WrappedBowl.
fn test_wrapped_bowl_generate_definition(wrapped_bowl: WrappedBowl) {
    // Generate 10 Oat values
    let oats: Vec<Oat> = (0..4095).map(|_| wrapped_bowl.generate().unwrap()).collect();

    // Check that the Oat values have the correct node id
    assert!(oats.iter().all(|oat| oat.node() == 1));

    // Check that the Oat values have increasing sequence numbers
    assert!(oats
        .windows(2)
        .all(|window| window[0].seq() < window[1].seq()));

    // Check if seq restarts
    let oat = wrapped_bowl.generate().unwrap();
    assert_eq!(oat.seq(), 0);
    assert_eq!(oat.node(), 1);
    assert!(oat.timestamp() > oats.last().unwrap().timestamp())
}

#[test]
fn new_bowl_starts_at_seq_zero() {
    let bowl = Bowl::starting_at(9, GenerationBehavior::Normal, None, 1_000);
    assert_eq!(bowl.node(), 9);
    assert_eq!(bowl.mode(), GenerationBehavior::Normal);
    assert_eq!(bowl.current_seq(), 0);
    assert_eq!(bowl.last_timestamp(), 1_000);
}

#[test]
fn lazy_keeps_timestamp_within_a_batch() {
    let mut bowl = Bowl::starting_at(1, GenerationBehavior::Lazy, None, 500);
    for expected in 1..=4095u16 {
        assert_eq!(bowl.advance(123_456), Ok(expected));
        assert_eq!(bowl.last_timestamp(), 500);
    }
}

#[test]
fn lazy_adds_one_millisecond_on_wraparound() {
    let mut bowl = Bowl::starting_at(1, GenerationBehavior::Lazy, None, 500);
    for _ in 0..4095 {
        bowl.advance(0).unwrap();
    }
    assert_eq!(bowl.advance(999_999), Ok(0));
    assert_eq!(bowl.last_timestamp(), 501);
    assert_eq!(bowl.advance(999_999), Ok(1));
    assert_eq!(bowl.last_timestamp(), 501);
}

#[test]
fn lazy_is_exhausted_at_the_last_timestamp() {
    let mut bowl = Bowl::starting_at(1, GenerationBehavior::Lazy, None, u64::MAX);
    for _ in 0..4095 {
        bowl.advance(0).unwrap();
    }
    assert_eq!(bowl.advance(0), Err(BowlError::TimestampOverflow));
    assert_eq!(bowl.new_seq(), Err(BowlError::TimestampOverflow));
    assert_eq!(bowl.draw(), Err(BowlError::TimestampOverflow));
    assert_eq!(bowl.current_seq(), 4095);
    assert_eq!(bowl.last_timestamp(), u64::MAX);
}

#[test]
fn normal_ignores_the_clock_within_a_batch() {
    let mut bowl = Bowl::starting_at(1, GenerationBehavior::Normal, None, 500);
    assert_eq!(bowl.advance(700), Ok(1));
    assert_eq!(bowl.last_timestamp(), 500);
    assert_eq!(bowl.advance(100), Ok(2));
    assert_eq!(bowl.last_timestamp(), 500);
}

#[test]
fn normal_takes_the_clock_on_wraparound() {
    let mut bowl = Bowl::starting_at(1, GenerationBehavior::Normal, None, 500);
    for _ in 0..4095 {
        bowl.advance(500).unwrap();
    }
    assert!(!bowl.must_wait(777));
    assert_eq!(bowl.advance(777), Ok(0));
    assert_eq!(bowl.last_timestamp(), 777);
}

#[test]
fn normal_waits_when_the_batch_is_used_up_within_one_millisecond() {
    let mut bowl = Bowl::starting_at(1, GenerationBehavior::Normal, None, 500);
    assert!(!bowl.must_wait(500));
    for _ in 0..4095 {
        bowl.advance(500).unwrap();
    }
    assert!(bowl.must_wait(500));
    assert!(!bowl.must_wait(501));
    assert_eq!(bowl.advance(500), Err(BowlError::ClockStalled));
    assert_eq!(bowl.current_seq(), 4095);
    assert_eq!(bowl.last_timestamp(), 500);
}

#[test]
fn normal_follows_a_clock_that_went_back() {
    let mut bowl = Bowl::starting_at(1, GenerationBehavior::Normal, None, 100);
    for _ in 0..4095 {
        bowl.advance(100).unwrap();
    }
    assert_eq!(bowl.advance(99), Ok(0));
    assert_eq!(bowl.last_timestamp(), 99);
}

#[test]
fn realtime_counts_up_while_the_clock_stands() {
    let mut bowl = Bowl::starting_at(1, GenerationBehavior::Realtime, None, 500);
    assert_eq!(bowl.advance(500), Ok(1));
    assert_eq!(bowl.advance(500), Ok(2));
    assert_eq!(bowl.last_timestamp(), 500);
}

#[test]
fn realtime_starts_again_when_the_clock_moves() {
    let mut bowl = Bowl::starting_at(1, GenerationBehavior::Realtime, None, 500);
    assert_eq!(bowl.advance(500), Ok(1));
    assert_eq!(bowl.advance(501), Ok(0));
    assert_eq!(bowl.last_timestamp(), 501);
    assert_eq!(bowl.advance(501), Ok(1));
    assert_eq!(bowl.advance(499), Ok(0));
    assert_eq!(bowl.last_timestamp(), 499);
}

#[test]
fn realtime_waits_after_4096_identifiers_in_one_millisecond() {
    let mut bowl = Bowl::starting_at(1, GenerationBehavior::Realtime, None, 500);
    for _ in 0..4095 {
        bowl.advance(500).unwrap();
    }
    assert!(bowl.must_wait(500));
    assert_eq!(bowl.advance(500), Err(BowlError::ClockStalled));
    assert_eq!(bowl.advance(502), Ok(0));
    assert_eq!(bowl.last_timestamp(), 502);
}

#[test]
fn lazy_never_waits() {
    let mut bowl = Bowl::starting_at(1, GenerationBehavior::Lazy, None, 500);
    for _ in 0..4095 {
        bowl.advance(500).unwrap();
    }
    assert!(!bowl.must_wait(500));
}

#[test]
fn every_step_moves_on_in_order() {
    for mode in [
        GenerationBehavior::Lazy,
        GenerationBehavior::Normal,
        GenerationBehavior::Realtime,
    ] {
        let mut bowl = Bowl::starting_at(1, mode, None, 10);
        let mut last = (bowl.last_timestamp(), bowl.current_seq());
        let mut clock = 10u64;
        for step in 0..10_000u64 {
            if step % 1500 == 0 {
                clock += 1;
            }
            if bowl.must_wait(clock) {
                clock += 1;
            }
            bowl.advance(clock).unwrap();
            let now = (bowl.last_timestamp(), bowl.current_seq());
            assert!(now > last);
            last = now;
        }
    }
}

#[test]
fn new_seq_counts_up_from_one() {
    let mut bowl = Bowl::of(3, GenerationBehavior::Lazy, None).unwrap();
    let start = bowl.last_timestamp();
    assert_eq!(bowl.new_seq(), Ok(1));
    assert_eq!(bowl.new_seq(), Ok(2));
    assert_eq!(bowl.last_timestamp(), start);
}

#[test]
fn new_seq_waits_for_the_clock_on_wraparound() {
    let mut bowl = Bowl::of(3, GenerationBehavior::Normal, None).unwrap();
    let mut last = bowl.last_timestamp();
    for round in 0..3 {
        for expected in 1..=4095u16 {
            assert_eq!(bowl.new_seq(), Ok(expected), "round {}", round);
            assert_eq!(bowl.last_timestamp(), last);
        }
        assert_eq!(bowl.new_seq(), Ok(0));
        assert!(bowl.last_timestamp() > last);
        last = bowl.last_timestamp();
    }
}

#[test]
fn a_clock_before_the_epoch_is_an_error() {
    let later = SystemTime::now() + Duration::from_secs(3600);
    assert_eq!(get_time_millis(Some(later)), Err(BowlError::ClockBeforeEpoch));
    assert_eq!(
        Bowl::of(1, GenerationBehavior::Normal, Some(later)).err(),
        Some(BowlError::ClockBeforeEpoch)
    );
    assert_eq!(
        WrappedBowl::of(1, GenerationBehavior::Normal, Some(later)).err(),
        Some(BowlError::ClockBeforeEpoch)
    );
    assert_eq!(biding_time_conditions(0, Some(later)), Err(BowlError::ClockBeforeEpoch));
    let mut bowl = Bowl::starting_at(1, GenerationBehavior::Lazy, Some(later), 5);
    assert_eq!(bowl.new_seq(), Err(BowlError::ClockBeforeEpoch));
    assert_eq!(bowl.current_seq(), 0);
    assert_eq!(bowl.last_timestamp(), 5);
}

#[test]
fn the_clock_counts_from_the_epoch() {
    let since_1970 = get_time_millis(None).unwrap();
    // 2020-01-01 in milliseconds
    assert!(since_1970 > 1_577_836_800_000);
    let an_hour_ago = SystemTime::now() - Duration::from_secs(3600);
    let since_then = get_time_millis(Some(an_hour_ago)).unwrap();
    assert!(since_then >= 3_600_000);
    assert!(since_then < 3_600_000 + 60_000);
}

#[test]
fn the_clock_reading_keeps_the_low_64_bits() {
    assert_eq!(reading_of(Some(0)), Ok(0));
    assert_eq!(reading_of(Some(1_671_800_400_000)), Ok(1_671_800_400_000));
    assert_eq!(reading_of(Some(u64::MAX as u128)), Ok(u64::MAX));
    assert_eq!(reading_of(Some(u64::MAX as u128 + 8)), Ok(7));
    assert_eq!(reading_of(None), Err(BowlError::ClockBeforeEpoch));
}

#[test]
fn biding_returns_a_later_time() {
    let now = get_time_millis(None).unwrap();
    let later = biding_time_conditions(now, None).unwrap();
    assert!(later > now);
    assert_eq!(SPIN_LIMIT, u64::MAX);
}

#[test]
fn a_handle_issues_what_its_bowl_steps_to() {
    let handle = WrappedBowl::holding(Bowl::starting_at(42, GenerationBehavior::Lazy, None, 77));
    let first = handle.generate().unwrap();
    assert_eq!((first.node(), first.seq(), first.timestamp()), (42, 1, 77));
    let second = handle.clone().generate().unwrap();
    assert_eq!((second.node(), second.seq(), second.timestamp()), (42, 2, 77));
    assert_eq!(first.to_bytes(), [42, 0x01, 0xD0, 0x04, 0, 0, 0, 0, 0]);
}

#[test]
fn a_handle_refuses_a_timestamp_of_more_than_44_bits() {
    let handle =
        WrappedBowl::holding(Bowl::starting_at(1, GenerationBehavior::Lazy, None, 1 << 44));
    assert_eq!(
        handle.generate().err(),
        Some(BowlError::InvalidOat(InvalidOatError::TimestampOutOfRange(1 << 44)))
    );
    // the bowl made its step all the same
    assert_eq!(
        handle.generate().err(),
        Some(BowlError::InvalidOat(InvalidOatError::TimestampOutOfRange(1 << 44)))
    );
    let handle =
        WrappedBowl::holding(Bowl::starting_at(1, GenerationBehavior::Lazy, None, (1 << 44) - 1));
    assert_eq!(handle.generate().unwrap().timestamp(), (1 << 44) - 1);
}

#[test]
fn a_draw_gives_the_node_and_the_step() {
    let mut bowl = Bowl::starting_at(42, GenerationBehavior::Lazy, None, 77);
    assert_eq!(bowl.draw(), Ok((42, 1, 77)));
    assert_eq!(bowl.draw(), Ok((42, 2, 77)));
    assert_eq!(bowl.current_seq(), 2);
    for _ in 0..4093 {
        bowl.draw().unwrap();
    }
    assert_eq!(bowl.draw(), Ok((42, 0, 78)));
}

#[test]
fn what_was_drawn_becomes_an_identifier() {
    let oat = oat_of_drawn(Ok((1, 3, 1671800400_000))).unwrap();
    assert_eq!(oat.to_bytes(), [1, 0x03, 0x0, 0x88, 0x1A, 0xF1, 0x53, 0x18, 0x0]);
    assert_eq!(
        oat_of_drawn(Ok((1, 3, 1 << 44))).err(),
        Some(BowlError::InvalidOat(InvalidOatError::TimestampOutOfRange(1 << 44)))
    );
    assert_eq!(
        oat_of_drawn(Ok((1, 4096, 5))).err(),
        Some(BowlError::InvalidOat(InvalidOatError::SeqOutOfRange(4096)))
    );
    for e in [
        BowlError::ClockBeforeEpoch,
        BowlError::ClockStalled,
        BowlError::TimestampOverflow,
        BowlError::LockPoisoned,
    ] {
        assert_eq!(oat_of_drawn(Err(e)).err(), Some(e));
    }
}

#[test]
fn the_wait_ends_with_a_later_reading() {
    assert_eq!(wait_step(501, 500, 0), Some(Ok(501)));
    assert_eq!(wait_step(u64::MAX, 500, 7), Some(Ok(u64::MAX)));
    assert_eq!(wait_step(501, 500, u64::MAX - 1), Some(Ok(501)));
    assert_eq!(wait_step(1, 0, u64::MAX), Some(Ok(1)));
}

#[test]
fn the_wait_goes_on_while_the_clock_stands_or_lags() {
    assert_eq!(wait_step(500, 500, 0), None);
    assert_eq!(wait_step(499, 500, 0), None);
    assert_eq!(wait_step(0, u64::MAX, 12), None);
    assert_eq!(wait_step(500, 500, u64::MAX - 2), None);
}

#[test]
fn the_wait_gives_up_after_the_last_reading() {
    assert_eq!(wait_step(500, 500, SPIN_LIMIT - 1), Some(Err(BowlError::ClockStalled)));
    assert_eq!(wait_step(3, 500, SPIN_LIMIT - 1), Some(Err(BowlError::ClockStalled)));
    assert_eq!(wait_step(500, 500, u64::MAX), Some(Err(BowlError::ClockStalled)));
}
