use crate::clock::unix_epoch;
use crate::lock::{held_value, lock_around, made_around};
use crate::oat::{outcome_view, InvalidOatError, Oat, OatView, SEQ_LIMIT};
use std::hint::spin_loop;
use std::sync::{Arc, Mutex};
use std::time::SystemTime;
use vstd::prelude::*;

verus! {

/// Defines the behavior of generating new Oats
#[derive(Debug, Copy, Clone, Ord, PartialOrd, Eq, PartialEq)]
pub enum GenerationBehavior {
    /// This option takes the current timestamp and increments seq id until it overflows and adds one to the timestamp.
    Lazy,
    /// This is the default mode, it maintains the current timestamp like lazy until there are no free seq id's left, then it syncs the timestamp to the current time.
    Normal,
    /// As long as there is no significant time change, the seq id will be incremented. If there is a time change, the seq id is reset and the new time is used.
    Realtime,
}

/// Why no identifier could be issued.
#[derive(Debug, Copy, Clone, Eq, PartialEq)]
pub enum BowlError {
    /// The clock shows a time before the epoch.
    ClockBeforeEpoch,
    /// The clock was asked [`SPIN_LIMIT`] times and never showed a time
    /// after the last timestamp.
    ClockStalled,
    /// A lazy bowl has counted its timestamp up to the last value of 64
    /// bits.
    TimestampOverflow,
    /// A holder of the lock panicked, so the state under it is not to be
    /// trusted.
    LockPoisoned,
    /// The bowl made its step, but what it stepped to is no identifier:
    /// the timestamp has more than 44 bits.
    InvalidOat(InvalidOatError),
}

/// How often the clock is asked before waiting for it is given up.
pub const SPIN_LIMIT: u64 = 0xffff_ffff_ffff_ffff;

/// What a [`Bowl`] is.
pub struct BowlView {
    pub mode: GenerationBehavior,
    pub node: u8,
    pub epoch: Option<SystemTime>,
    pub seq: u16,
    pub timestamp: u64,
}

impl BowlView {
    /// The sequence number has 12 bits.
    pub open spec fn wf(self) -> bool {
        self.seq < SEQ_LIMIT
    }

    /// The sequence number after this one: it starts again at 0 after 4095.
    pub open spec fn next_seq(self) -> u16 {
        ((self.seq + 1) % (SEQ_LIMIT as int)) as u16
    }

    /// Whether the next sequence number starts again at 0.
    pub open spec fn wraps(self) -> bool {
        self.next_seq() == 0
    }

    /// Whether the bowl has to wait for the clock before it can go on where
    /// the clock reads `now`: all sequence numbers of the last timestamp
    /// are used, and the clock still shows that timestamp. A lazy bowl
    /// never waits.
    pub open spec fn must_wait(self, now: u64) -> bool {
        &&& self.mode != GenerationBehavior::Lazy
        &&& self.wraps()
        &&& now == self.timestamp
    }

    /// Whether a lazy bowl has counted its timestamp up to the last value
    /// of 64 bits and used all of its sequence numbers.
    pub open spec fn exhausted(self) -> bool {
        &&& self.mode == GenerationBehavior::Lazy
        &&& self.wraps()
        &&& self.timestamp == u64::MAX
    }

    /// The state after one step where the clock reads `reading`.
    ///
    /// A lazy bowl does not look at the clock: it counts its timestamp up
    /// by one when the sequence number starts again. A normal bowl keeps
    /// its timestamp until the sequence number starts again, and then takes
    /// the clock's. A realtime bowl keeps its timestamp while the clock
    /// shows it, and else takes the clock's and starts the sequence number
    /// again.
    pub open spec fn advance(self, reading: u64) -> BowlView {
        match self.mode {
            GenerationBehavior::Lazy => BowlView {
                seq: self.next_seq(),
                timestamp: if self.wraps() {
                    (self.timestamp + 1) as u64
                } else {
                    self.timestamp
                },
                ..self
            },
            GenerationBehavior::Normal => BowlView {
                seq: self.next_seq(),
                timestamp: if self.wraps() {
                    reading
                } else {
                    self.timestamp
                },
                ..self
            },
            GenerationBehavior::Realtime => if reading == self.timestamp {
                BowlView { seq: self.next_seq(), ..self }
            } else {
                BowlView { seq: 0, timestamp: reading, ..self }
            },
        }
    }

    /// Whether the bowl can make a step where the clock reads `reading`: it
    /// is not exhausted and need not wait.
    pub open spec fn allows(self, reading: u64) -> bool {
        !self.exhausted() && !self.must_wait(reading)
    }

    /// Whether one step can lead from this state to `post`: there is a
    /// reading of the clock that the bowl allows and that takes it there.
    pub open spec fn steps_to(self, post: BowlView) -> bool {
        exists|reading: u64| self.allows(reading) && post == #[trigger] self.advance(reading)
    }

    /// The state after one step for each of `readings`, in order.
    pub open spec fn run(self, readings: Seq<u64>) -> BowlView
        decreases readings.len(),
    {
        if readings.len() == 0 {
            self
        } else {
            self.run(readings.drop_last()).advance(readings.last())
        }
    }

    /// Whether the bowl allows every step of [`BowlView::run`] on
    /// `readings`.
    pub open spec fn allows_run(self, readings: Seq<u64>) -> bool {
        forall|i: int|
            0 <= i < readings.len() ==> (#[trigger] self.run(readings.take(i))).allows(readings[i])
    }

    /// Whether no reading of `readings` lies behind the timestamp that the
    /// bowl has when it meets the reading. A lazy bowl does not look at the
    /// clock, so nothing is asked of its readings.
    pub open spec fn never_behind(self, readings: Seq<u64>) -> bool {
        self.mode != GenerationBehavior::Lazy ==> forall|i: int|
            0 <= i < readings.len() ==> readings[i] >= (#[trigger] self.run(
                readings.take(i),
            )).timestamp
    }

    /// Whether the readings of `readings` never go back, and start at or
    /// after the bowl's timestamp.
    pub open spec fn rising_clock(self, readings: Seq<u64>) -> bool {
        &&& readings.len() > 0 ==> readings[0] >= self.timestamp
        &&& forall|i: int, j: int| 0 <= i <= j < readings.len() ==> readings[i] <= readings[j]
    }

    /// The identifier that is built of the state: of its node, its sequence
    /// number and its timestamp.
    pub open spec fn oat(self) -> Result<OatView, InvalidOatError> {
        OatView::of(self.node, self.seq, self.timestamp)
    }

    /// The place of the state in the order of identifiers: the timestamp
    /// first, the sequence number second.
    pub open spec fn order(self) -> int {
        self.timestamp * (SEQ_LIMIT as int) + self.seq
    }
}

/// The Bowl is used for generating Oat values in a unified way.
#[derive(Debug, Clone, Copy)]
pub struct Bowl {
    mode: GenerationBehavior,
    node: u8,
    epoch: Option<SystemTime>,
    current_seq: u16,  // max 12 bits
    last_timestamp: u64,  // max 44 bits in an identifier
}

impl View for Bowl {
    type V = BowlView;

    closed spec fn view(&self) -> BowlView {
        BowlView {
            mode: self.mode,
            node: self.node,
            epoch: self.epoch,
            seq: self.current_seq,
            timestamp: self.last_timestamp,
        }
    }
}

impl Bowl {
    #[verifier::type_invariant]
    spec fn seq_in_range(self) -> bool {
        self.current_seq < SEQ_LIMIT
    }

    /// A bowl for `node` that starts at the clock's present reading.
    pub fn of(node: u8, mode: GenerationBehavior, epoch: Option<SystemTime>) -> (r: Result<
        Bowl,
        BowlError,
    >)
        ensures
            r matches Ok(bowl) ==> bowl@ == Bowl::starting_view(node, mode, epoch, bowl@.timestamp),
            r matches Err(e) ==> e == BowlError::ClockBeforeEpoch,
    {
        match get_time_millis(epoch) {
            Ok(now) => Ok(Bowl::starting_at(node, mode, epoch, now)),
            Err(e) => Err(e),
        }
    }

    /// The state of a new bowl whose clock reads `now`.
    pub open spec fn starting_view(
        node: u8,
        mode: GenerationBehavior,
        epoch: Option<SystemTime>,
        now: u64,
    ) -> BowlView {
        BowlView { mode, node, epoch, seq: 0, timestamp: now }
    }

    /// A bowl for `node` that starts at the reading `now`.
    pub fn starting_at(
        node: u8,
        mode: GenerationBehavior,
        epoch: Option<SystemTime>,
        now: u64,
    ) -> (bowl: Bowl)
        ensures
            bowl@ == Bowl::starting_view(node, mode, epoch, now),
    {
        Bowl { mode, node, epoch, current_seq: 0, last_timestamp: now }
    }

    /// The policy of the bowl.
    pub fn mode(&self) -> (r: GenerationBehavior)
        ensures
            r == self@.mode,
    {
        self.mode
    }

    /// The node of the bowl.
    pub fn node(&self) -> (r: u8)
        ensures
            r == self@.node,
    {
        self.node
    }

    /// The sequence number that was issued last.
    pub fn current_seq(&self) -> (r: u16)
        ensures
            r == self@.seq,
            self@.wf(),
    {
        proof {
            use_type_invariant(self);
        }
        self.current_seq
    }

    /// The timestamp that was issued last.
    pub fn last_timestamp(&self) -> (r: u64)
        ensures
            r == self@.timestamp,
    {
        self.last_timestamp
    }

    /// Whether the bowl has to wait for the clock to pass its timestamp
    /// before it can go on, where the clock reads `now`.
    pub fn must_wait(&self, now: u64) -> (r: bool)
        ensures
            r == self@.must_wait(now),
    {
        proof {
            use_type_invariant(self);
        }
        match self.mode {
            GenerationBehavior::Lazy => false,
            _ => self.current_seq == SEQ_LIMIT - 1 && now == self.last_timestamp,
        }
    }

    /// One step of the bowl where the clock reads `reading`: the next
    /// sequence number, and the timestamp as the policy keeps it. Nothing
    /// changes where no step can be made: where a lazy bowl is exhausted,
    /// and where the bowl has to wait for the clock first.
    pub fn advance(&mut self, reading: u64) -> (r: Result<u16, BowlError>)
        ensures
            final(self)@.wf(),
            old(self)@.exhausted() ==> r == Err::<u16, _>(BowlError::TimestampOverflow)
                && final(self)@ == old(self)@,
            old(self)@.must_wait(reading) ==> r == Err::<u16, _>(BowlError::ClockStalled)
                && final(self)@ == old(self)@,
            old(self)@.allows(reading) ==> r == Ok::<u16, BowlError>(final(self)@.seq)
                && final(self)@ == old(self)@.advance(reading),
    {
        proof {
            use_type_invariant(&*self);
        }
        let next: u16 = (self.current_seq + 1) % SEQ_LIMIT;
        match self.mode {
            GenerationBehavior::Lazy => {
                if next == 0 {
                    if self.last_timestamp == u64::MAX {
                        return Err(BowlError::TimestampOverflow);
                    }
                    self.last_timestamp += 1;
                }
                self.current_seq = next;
            },
            GenerationBehavior::Normal => {
                // The timestamp follows the clock once in 4096 ids.
                if next == 0 {
                    if reading == self.last_timestamp {
                        return Err(BowlError::ClockStalled);
                    }
                    self.last_timestamp = reading;
                }
                self.current_seq = next;
            },
            GenerationBehavior::Realtime => {
                if reading == self.last_timestamp {
                    if next == 0 {
                        return Err(BowlError::ClockStalled);
                    }
                    self.current_seq = next;
                } else {
                    self.last_timestamp = reading;
                    self.current_seq = 0;
                }
            },
        }
        Ok(self.current_seq)
    }

    /// Issues the next sequence number: reads the clock, waits for it where
    /// the policy asks for that, and makes one step.
    pub fn new_seq(&mut self) -> (r: Result<u16, BowlError>)
        ensures
            final(self)@.wf(),
            r matches Ok(seq) ==> old(self)@.steps_to(final(self)@) && seq == final(self)@.seq,
            r matches Err(e) ==> final(self)@ == old(self)@ && match e {
                BowlError::ClockBeforeEpoch => true,
                BowlError::ClockStalled => old(self)@.wraps() && old(self)@.mode
                    != GenerationBehavior::Lazy,
                BowlError::TimestampOverflow => old(self)@.exhausted(),
                BowlError::LockPoisoned => false,
                BowlError::InvalidOat(_) => false,
            },
            old(self)@.exhausted() ==> r is Err,
    {
        proof {
            use_type_invariant(&*self);
        }
        let now: u64 = match get_time_millis(self.epoch) {
            Ok(now) => now,
            Err(e) => { return Err(e); },
        };
        let reading: u64 = if self.must_wait(now) {
            match biding_time_conditions(self.last_timestamp, self.epoch) {
                Ok(later) => later,
                Err(e) => { return Err(e); },
            }
        } else {
            now
        };
        self.advance(reading)
    }

    /// What a holder of the bowl takes from it for the next identifier: it
    /// lets the bowl issue the next sequence number, and gives the node,
    /// that sequence number and the timestamp that goes with it.
    pub fn draw(&mut self) -> (r: Result<(u8, u16, u64), BowlError>)
        ensures
            final(self)@.wf(),
            r matches Ok(drawn) ==> old(self)@.steps_to(final(self)@) && drawn == (
                final(self)@.node,
                final(self)@.seq,
                final(self)@.timestamp,
            ),
            r matches Err(e) ==> final(self)@ == old(self)@ && match e {
                BowlError::ClockBeforeEpoch => true,
                BowlError::ClockStalled => old(self)@.wraps() && old(self)@.mode
                    != GenerationBehavior::Lazy,
                BowlError::TimestampOverflow => old(self)@.exhausted(),
                BowlError::LockPoisoned => false,
                BowlError::InvalidOat(_) => false,
            },
            old(self)@.exhausted() ==> r is Err,
    {
        let node: u8 = self.node;
        match self.new_seq() {
            Ok(seq) => Ok((node, seq, self.last_timestamp)),
            Err(e) => Err(e),
        }
    }
}

/// The WrappedBowl is a thread-safe wrapper around the Bowl.
#[derive(Debug, Clone)]
pub struct WrappedBowl(Arc<Mutex<Bowl>>);

impl WrappedBowl {
    /// Creates a new WrappedBowl instance with the given node id, generation behavior mode and optional epoch.
    pub fn of(node: u8, mode: GenerationBehavior, epoch: Option<SystemTime>)
        -> (r: Result<WrappedBowl, BowlError>)
        ensures
            r matches Ok(handle) ==> handle.made_for(node, mode, epoch),
            r matches Err(e) ==> e == BowlError::ClockBeforeEpoch,
    {
        match Bowl::of(node, mode, epoch) {
            Ok(bowl) => Ok(WrappedBowl::holding(bowl)),
            Err(e) => Err(e),
        }
    }

    /// A handle that shares `bowl` among its clones: `bowl` is put under a
    /// new lock.
    pub fn holding(bowl: Bowl) -> (handle: WrappedBowl)
        ensures
            handle.made_around() == bowl@,
    {
        WrappedBowl(Arc::new(lock_around(bowl)))
    }

    /// Generates a new Oat value: takes the lock, draws from the bowl,
    /// gives the lock back and builds the identifier of what was drawn.
    ///
    /// Other holders may have moved the bowl on, so its state is not known
    /// here: [`Bowl::draw`] and [`oat_of_drawn`] say what is issued from a
    /// given state. Whatever the state: an identifier has no bit above its
    /// timestamp, and a refused one had too wide a timestamp.
    pub fn generate(&self) -> (r: Result<Oat, BowlError>)
        ensures
            r matches Ok(oat) ==> oat@.canonical(),
            r matches Err(BowlError::InvalidOat(e)) ==> e is TimestampOutOfRange,
    {
        let drawn: Result<(u8, u16, u64), BowlError> = match self.0.lock() {
            Ok(mut held) => held_value(&mut held).draw(),
            Err(_) => Err(BowlError::LockPoisoned),
        };
        oat_of_drawn(drawn)
    }
}

/// What is issued for what was drawn from a bowl: the identifier of the
/// node, the sequence number and the timestamp where they are one, and else
/// the reason why they are none. A failed draw is handed on.
pub open spec fn issued(drawn: Result<(u8, u16, u64), BowlError>) -> Result<OatView, BowlError> {
    match drawn {
        Ok((node, seq, timestamp)) => match OatView::of(node, seq, timestamp) {
            Ok(oat) => Ok(oat),
            Err(e) => Err(BowlError::InvalidOat(e)),
        },
        Err(e) => Err(e),
    }
}

/// Builds the identifier of what was drawn from a bowl.
pub fn oat_of_drawn(drawn: Result<(u8, u16, u64), BowlError>) -> (r: Result<Oat, BowlError>)
    ensures
        outcome_view(r) == issued(drawn),
{
    match drawn {
        Ok((node, seq, timestamp)) => match Oat::of(node, seq, timestamp) {
            Ok(oat) => Ok(oat),
            Err(e) => Err(BowlError::InvalidOat(e)),
        },
        Err(e) => Err(e),
    }
}

/// What the clock reads where `elapsed` milliseconds lie between the epoch
/// and now, or where, with `None`, now lies before the epoch: the low 64
/// bits of the count.
pub fn reading_of(elapsed: Option<u128>) -> (r: Result<u64, BowlError>)
    ensures
        r == match elapsed {
            Some(millis) => Ok::<u64, BowlError>((millis % 0x1_0000_0000_0000_0000) as u64),
            None => Err::<u64, _>(BowlError::ClockBeforeEpoch),
        },
{
    match elapsed {
        Some(millis) => {
            let low: u128 = millis & 0xffff_ffff_ffff_ffff;
            assert(low == millis % 0x1_0000_0000_0000_0000) by (bit_vector)
                requires
                    low == millis & 0xffff_ffff_ffff_ffff,
            ;
            Ok(low as u64)
        },
        None => Err(BowlError::ClockBeforeEpoch),
    }
}

/// The milliseconds from `epoch`, or from the Unix epoch where there is
/// none, to the clock's present reading.
pub fn get_time_millis(epoch: Option<SystemTime>) -> (r: Result<u64, BowlError>)
    ensures
        r matches Err(e) ==> e == BowlError::ClockBeforeEpoch,
{
    let base: SystemTime = match epoch {
        Some(epoch) => epoch,
        None => unix_epoch(),
    };
    match SystemTime::now().duration_since(base) {
        Ok(elapsed) => reading_of(Some(elapsed.as_millis())),
        Err(_) => reading_of(None),
    }
}

/// What the wait for the clock does with the reading `latest`, where it
/// waits for a time after `last_time_millis` and has asked the clock
/// `asked` times before: it ends with the reading if that is later, gives
/// up if that was the last time it asks, and else goes on, with `None`.
pub open spec fn waited(latest: u64, last_time_millis: u64, asked: u64) -> Option<
    Result<u64, BowlError>,
> {
    if latest > last_time_millis {
        Some(Ok(latest))
    } else if asked + 1 >= SPIN_LIMIT {
        Some(Err(BowlError::ClockStalled))
    } else {
        None
    }
}

/// One turn of the wait for the clock: what follows from the reading
/// `latest`.
pub fn wait_step(latest: u64, last_time_millis: u64, asked: u64) -> (r: Option<
    Result<u64, BowlError>,
>)
    ensures
        r == waited(latest, last_time_millis, asked),
{
    if latest > last_time_millis {
        Some(Ok(latest))
    } else if asked >= SPIN_LIMIT - 1 {
        Some(Err(BowlError::ClockStalled))
    } else {
        None
    }
}

/// Constantly refreshing the latest milliseconds by busy waiting, until the
/// clock shows a time after `last_time_millis`. The clock is asked at most
/// [`SPIN_LIMIT`] times; [`wait_step`] says what each reading leads to.
pub fn biding_time_conditions(last_time_millis: u64, epoch: Option<SystemTime>) -> (r: Result<
    u64,
    BowlError,
>)
    ensures
        r matches Ok(latest) ==> latest > last_time_millis,
        r matches Err(e) ==> e == BowlError::ClockBeforeEpoch || e == BowlError::ClockStalled,
{
    let mut asked: u64 = 0;
    loop
        invariant
            asked < SPIN_LIMIT,
        decreases SPIN_LIMIT - asked,
    {
        let latest: u64 = match get_time_millis(epoch) {
            Ok(latest) => latest,
            Err(e) => { return Err(e); },
        };
        match wait_step(latest, last_time_millis, asked) {
            Some(outcome) => { return outcome; },
            None => {},
        }
        spin_loop();
        asked += 1;
    }
}

impl WrappedBowl {
    /// The state of the bowl that the handle was made around: what was put
    /// under its lock when the lock was new. The clones of a handle share
    /// the lock. Every identifier that is generated moves the bowl on from
    /// there.
    pub closed spec fn made_around(&self) -> BowlView {
        made_around(*self.0)
    }

    /// Whether the handle was made around a new bowl for `node` with the
    /// policy `mode` and the epoch `epoch`: one that has issued no sequence
    /// number yet. Its timestamp is what the clock read.
    pub open spec fn made_for(
        &self,
        node: u8,
        mode: GenerationBehavior,
        epoch: Option<SystemTime>,
    ) -> bool {
        self.made_around() == Bowl::starting_view(node, mode, epoch, self.made_around().timestamp)
    }
}

/// Within a batch, a lazy or a normal bowl counts the sequence number up by
/// one and keeps its timestamp, whatever the clock reads.
pub proof fn lemma_step_within_batch(pre: BowlView, reading: u64)
    requires
        pre.wf(),
        pre.mode != GenerationBehavior::Realtime,
        !pre.wraps(),
    ensures
        pre.allows(reading),
        pre.advance(reading).seq == pre.seq + 1,
        pre.advance(reading).timestamp == pre.timestamp,
        pre.advance(reading).wf(),
{
}

/// Identifiers issued one after the other by a lazy or a normal bowl,
/// without the sequence number starting again, have strictly increasing
/// sequence numbers and one timestamp: after `i` steps the sequence number
/// is `i` more than at the start, whatever the clock read.
pub proof fn lemma_batch_counts_up(pre: BowlView, readings: Seq<u64>)
    requires
        pre.wf(),
        pre.mode != GenerationBehavior::Realtime,
        pre.seq + readings.len() < SEQ_LIMIT,
    ensures
        pre.allows_run(readings),
        pre.run(readings).seq == pre.seq + readings.len(),
        pre.run(readings).timestamp == pre.timestamp,
        pre.run(readings).mode == pre.mode,
        pre.run(readings).node == pre.node,
        forall|i: int, j: int|
            0 <= i < j <= readings.len() ==> (#[trigger] pre.run(readings.take(i))).seq < (
            #[trigger] pre.run(readings.take(j))).seq,
        forall|i: int|
            0 <= i <= readings.len() ==> (#[trigger] pre.run(readings.take(i))).timestamp
                == pre.timestamp,
{
    assert(readings.take(readings.len() as int) =~= readings);
    assert forall|i: int| 0 <= i <= readings.len() implies (#[trigger] pre.run(
        readings.take(i),
    )).seq == pre.seq + i && pre.run(readings.take(i)).timestamp == pre.timestamp && pre.run(
        readings.take(i),
    ).mode == pre.mode && pre.run(readings.take(i)).node == pre.node by {
        lemma_prefix_counts_up(pre, readings, i);
    }
}

proof fn lemma_prefix_counts_up(pre: BowlView, readings: Seq<u64>, i: int)
    requires
        pre.wf(),
        pre.mode != GenerationBehavior::Realtime,
        pre.seq + readings.len() < SEQ_LIMIT,
        0 <= i <= readings.len(),
    ensures
        pre.run(readings.take(i)).seq == pre.seq + i,
        pre.run(readings.take(i)).timestamp == pre.timestamp,
        pre.run(readings.take(i)).mode == pre.mode,
        pre.run(readings.take(i)).node == pre.node,
    decreases i,
{
    let prefix = readings.take(i);
    if i > 0 {
        assert(prefix.drop_last() =~= readings.take(i - 1));
        lemma_prefix_counts_up(pre, readings, i - 1);
        lemma_step_within_batch(pre.run(readings.take(i - 1)), prefix.last());
    }
}

/// Where the sequence number starts again, the timestamp goes up: the step
/// after sequence number 4095 gives sequence number 0 and a later
/// timestamp, if the clock is not read behind the bowl's timestamp. A lazy
/// bowl does not read the clock, so for it nothing is asked of the reading.
pub proof fn lemma_wraparound_moves_on(pre: BowlView, reading: u64)
    requires
        pre.wf(),
        pre.seq == SEQ_LIMIT - 1,
        pre.allows(reading),
        pre.mode != GenerationBehavior::Lazy ==> reading >= pre.timestamp,
    ensures
        pre.advance(reading).seq == 0,
        pre.advance(reading).timestamp > pre.timestamp,
{
}

/// The 4096th identifier of a new bowl: after 4095 steps of a lazy or a
/// normal bowl that started at sequence number 0, one more step gives
/// sequence number 0 and a timestamp after that of all the 4095 before, if
/// the clock is not read behind it.
pub proof fn lemma_batch_then_wraparound(pre: BowlView, readings: Seq<u64>, reading: u64)
    requires
        pre.wf(),
        pre.mode != GenerationBehavior::Realtime,
        pre.seq == 0,
        readings.len() == SEQ_LIMIT - 1,
        pre.run(readings).allows(reading),
        pre.mode != GenerationBehavior::Lazy ==> reading >= pre.timestamp,
    ensures
        pre.allows_run(readings.push(reading)),
        pre.run(readings.push(reading)).seq == 0,
        pre.run(readings.push(reading)).timestamp > pre.timestamp,
        forall|i: int|
            0 <= i <= readings.len() ==> (#[trigger] pre.run(readings.take(i))).timestamp
                < pre.run(readings.push(reading)).timestamp,
{
    let all = readings.push(reading);
    lemma_batch_counts_up(pre, readings);
    assert(all.drop_last() =~= readings);
    lemma_wraparound_moves_on(pre.run(readings), reading);
    assert forall|i: int| 0 <= i < all.len() implies (#[trigger] pre.run(all.take(i))).allows(
        all[i],
    ) by {
        if i < readings.len() {
            assert(all.take(i) =~= readings.take(i));
        } else {
            assert(all.take(i) =~= readings);
        }
    }
}

/// Every step takes the bowl further in the order of identifiers, if the
/// clock is not read behind the bowl's timestamp.
pub proof fn lemma_step_moves_on(pre: BowlView, reading: u64)
    requires
        pre.wf(),
        pre.allows(reading),
        pre.mode != GenerationBehavior::Lazy ==> reading >= pre.timestamp,
    ensures
        pre.advance(reading).wf(),
        pre.advance(reading).mode == pre.mode,
        pre.advance(reading).order() > pre.order(),
{
}

/// The steps that one bowl makes one after the other, under any policy,
/// give pairs of timestamp and sequence number in strictly increasing
/// order, so no pair comes twice, if the clock is never read behind the
/// bowl's timestamp.
pub proof fn lemma_run_in_order(pre: BowlView, readings: Seq<u64>, i: int, j: int)
    requires
        pre.wf(),
        pre.allows_run(readings),
        pre.never_behind(readings),
        0 <= i < j <= readings.len(),
    ensures
        pre.run(readings.take(i)).order() < pre.run(readings.take(j)).order(),
        pre.run(readings.take(j)).wf(),
        pre.run(readings.take(j)).mode == pre.mode,
    decreases j,
{
    let before = pre.run(readings.take(j - 1));
    assert(readings.take(j).drop_last() =~= readings.take(j - 1));
    assert(readings.take(j).last() == readings[j - 1]);
    if j - 1 > 0 {
        lemma_run_in_order(pre, readings, 0, j - 1);
    } else {
        assert(readings.take(0) =~= Seq::<u64>::empty());
    }
    if i < j - 1 {
        lemma_run_in_order(pre, readings, i, j - 1);
    }
    assert(before.allows(readings[j - 1]));
    lemma_step_moves_on(before, readings[j - 1]);
}

/// A clock whose readings never go back is never read behind the bowl's
/// timestamp: a bowl that looks at the clock has its timestamp from an
/// earlier reading.
pub proof fn lemma_rising_clock_is_never_behind(pre: BowlView, readings: Seq<u64>)
    requires
        pre.rising_clock(readings),
    ensures
        pre.never_behind(readings),
{
    if pre.mode != GenerationBehavior::Lazy {
        assert forall|i: int| 0 <= i < readings.len() implies readings[i] >= (#[trigger] pre.run(
            readings.take(i),
        )).timestamp by {
            lemma_timestamp_is_a_reading(pre, readings, i);
        }
    }
}

proof fn lemma_timestamp_is_a_reading(pre: BowlView, readings: Seq<u64>, i: int)
    requires
        pre.rising_clock(readings),
        pre.mode != GenerationBehavior::Lazy,
        0 <= i < readings.len(),
    ensures
        pre.run(readings.take(i)).timestamp <= readings[i],
        pre.run(readings.take(i)).mode == pre.mode,
    decreases i,
{
    if i == 0 {
        assert(readings.take(0) =~= Seq::<u64>::empty());
    } else {
        assert(readings.take(i).drop_last() =~= readings.take(i - 1));
        assert(readings.take(i).last() == readings[i - 1]);
        lemma_timestamp_is_a_reading(pre, readings, i - 1);
    }
}

/// No identifier comes twice from one bowl, in whatever order its holders
/// take their turns: of the steps that the bowl makes one after the other
/// under a clock that is never read behind its timestamp, no two give the
/// same pair of timestamp and sequence number, and the identifiers that are
/// built of two of them differ.
pub proof fn lemma_identifiers_differ(pre: BowlView, readings: Seq<u64>, i: int, j: int)
    requires
        pre.wf(),
        pre.allows_run(readings),
        pre.never_behind(readings),
        0 <= i < j <= readings.len(),
    ensures
        ({
            let first = pre.run(readings.take(i));
            let second = pre.run(readings.take(j));
            &&& first.timestamp != second.timestamp || first.seq != second.seq
            &&& first.oat() matches Ok(a) ==> (second.oat() matches Ok(b) ==> a != b && a.luid
                < b.luid)
        }),
{
    let first = pre.run(readings.take(i));
    let second = pre.run(readings.take(j));
    lemma_run_in_order(pre, readings, i, j);
    assert(first.order() < second.order());
    if first.oat() is Ok && second.oat() is Ok {
        assert(first.oat()->Ok_0.luid == first.order());
        assert(second.oat()->Ok_0.luid == second.order());
    }
}

} // verus!
