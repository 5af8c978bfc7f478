//! The bounded broadcast bus that carries readings from the acquisition
//! loop to every consumer.
//!
//! The bus keeps, for each consumer, the readings that were published
//! since the consumer subscribed and that it has not taken yet: its
//! backlog. A reading is accepted only while no backlog is full, so the
//! slowest consumer holds the producer back and no consumer misses a
//! reading.

use crate::sensor_reading::PlantowerFrame;
use embassy_sync::blocking_mutex::raw::CriticalSectionRawMutex;
use embassy_sync::pubsub::PubSubChannel;
use embassy_sync::pubsub::Subscriber;
use vstd::prelude::*;

verus! {

/// Number of readings the bus holds for its slowest consumer.
pub const BUS_CAPACITY: usize = 4;

/// Number of consumers that can subscribe.
pub const BUS_CONSUMERS: usize = 2;

/// Number of publisher handles the channel has room for.
pub const BUS_PRODUCERS: usize = 1;

/// An `embassy_sync::pubsub::PubSubChannel` together with the
/// subscribers that were created on it, in the order of their creation.
/// Both are private and are reached only through `channel_open`,
/// `channel_subscribe`, `channel_try_publish` and `channel_try_next`,
/// which never drop a subscriber, never clear the channel and never
/// publish without regard to its capacity. So no subscriber ever lags,
/// and the channel's queue holds exactly the readings that its slowest
/// subscriber has not received yet.
#[verifier::external_body]
pub struct BusChannel {
    channel: &'static PubSubChannel<
        CriticalSectionRawMutex,
        PlantowerFrame,
        BUS_CAPACITY,
        BUS_CONSUMERS,
        BUS_PRODUCERS,
    >,
    subscribers: Vec<
        Subscriber<
            'static,
            CriticalSectionRawMutex,
            PlantowerFrame,
            BUS_CAPACITY,
            BUS_CONSUMERS,
            BUS_PRODUCERS,
        >,
    >,
}

/// For each subscriber, in the order of subscription, the readings that
/// the channel still holds for it, oldest first.
pub uninterp spec fn channel_backlogs(channel: BusChannel) -> Seq<Seq<PlantowerFrame>>;

/// No backlog is full, so the bus accepts a reading.
pub open spec fn accepts(backlogs: Seq<Seq<PlantowerFrame>>) -> bool {
    forall|i: int| 0 <= i < backlogs.len() ==> (#[trigger] backlogs[i]).len() < BUS_CAPACITY
}

/// The backlogs once `reading` has been accepted: it is the newest entry
/// of each.
pub open spec fn after_publish(
    backlogs: Seq<Seq<PlantowerFrame>>,
    reading: PlantowerFrame,
) -> Seq<Seq<PlantowerFrame>> {
    Seq::new(backlogs.len(), |i: int| backlogs[i].push(reading))
}

/// The backlogs after an attempt to publish `reading`: a bus that does
/// not accept it is left as it was.
pub open spec fn publish_step(
    backlogs: Seq<Seq<PlantowerFrame>>,
    reading: PlantowerFrame,
) -> Seq<Seq<PlantowerFrame>> {
    if accepts(backlogs) {
        after_publish(backlogs, reading)
    } else {
        backlogs
    }
}

/// Consumer `consumer` exists and has a reading waiting.
pub open spec fn has_next(backlogs: Seq<Seq<PlantowerFrame>>, consumer: int) -> bool {
    0 <= consumer < backlogs.len() && backlogs[consumer].len() > 0
}

/// What consumer `consumer` gets when it asks for its next reading: the
/// oldest of its backlog.
pub open spec fn next_reading(
    backlogs: Seq<Seq<PlantowerFrame>>,
    consumer: int,
) -> Option<PlantowerFrame> {
    if has_next(backlogs, consumer) {
        Some(backlogs[consumer].first())
    } else {
        None
    }
}

/// The backlogs after consumer `consumer` asked for its next reading:
/// only its own backlog changes, and loses its oldest entry.
pub open spec fn take_step(
    backlogs: Seq<Seq<PlantowerFrame>>,
    consumer: int,
) -> Seq<Seq<PlantowerFrame>> {
    if has_next(backlogs, consumer) {
        backlogs.update(consumer, backlogs[consumer].drop_first())
    } else {
        backlogs
    }
}

/// There are no more consumers than the bus admits, and no backlog
/// exceeds the capacity.
pub open spec fn within_bounds(backlogs: Seq<Seq<PlantowerFrame>>) -> bool {
    &&& backlogs.len() <= BUS_CONSUMERS
    &&& forall|i: int| 0 <= i < backlogs.len() ==> (#[trigger] backlogs[i]).len() <= BUS_CAPACITY
}

/// Makes a channel with `PubSubChannel::new`, which returns a channel
/// with an empty queue and no subscribers, on storage that lives as long
/// as the process.
#[verifier::external_body]
fn channel_open() -> (channel: BusChannel)
    ensures
        channel_backlogs(channel) == Seq::<Seq<PlantowerFrame>>::empty(),
{
    BusChannel { channel: Box::leak(Box::new(PubSubChannel::new())), subscribers: Vec::new() }
}

/// Adds a subscriber with `PubSubChannel::subscriber`. That call fails
/// when `BUS_CONSUMERS` subscribers exist; otherwise the new subscriber
/// starts at the channel's next message, so that nothing waits for it,
/// and the others are not touched. The result is the new subscriber's
/// place in the order of subscription.
#[verifier::external_body]
fn channel_subscribe(channel: &mut BusChannel) -> (consumer: Option<usize>)
    ensures
        channel_backlogs(*old(channel)).len() < BUS_CONSUMERS ==> consumer == Some(
            channel_backlogs(*old(channel)).len() as usize,
        ) && channel_backlogs(*final(channel)) == channel_backlogs(*old(channel)).push(
            Seq::empty(),
        ),
        channel_backlogs(*old(channel)).len() >= BUS_CONSUMERS ==> consumer is None
            && channel_backlogs(*final(channel)) == channel_backlogs(*old(channel)),
    no_unwind
{
    match channel.channel.subscriber() {
        Ok(subscriber) => {
            let consumer = channel.subscribers.len();
            channel.subscribers.push(subscriber);
            Some(consumer)
        },
        Err(_) => None,
    }
}

/// Offers a reading with `ImmediatePublisher::try_publish`. Without
/// subscribers that call returns `Ok` and keeps nothing. With
/// subscribers it returns the reading as an error, and changes nothing,
/// when the queue holds `BUS_CAPACITY` readings, which it does exactly
/// when the slowest subscriber has that many waiting; otherwise it puts
/// the reading at the end of the queue, where every subscriber will
/// find it after those that already wait for it.
#[verifier::external_body]
fn channel_try_publish(channel: &mut BusChannel, reading: PlantowerFrame) -> (accepted: bool)
    ensures
        accepted == accepts(channel_backlogs(*old(channel))),
        channel_backlogs(*final(channel)) == publish_step(channel_backlogs(*old(channel)), reading),
    no_unwind
{
    channel.channel.immediate_publisher().try_publish(reading).is_ok()
}

/// Asks the subscriber at place `consumer`, if there is one, for its
/// next reading with `Subscriber::try_next_message_pure`. That call
/// returns the oldest reading that the subscriber has not received yet
/// and moves the subscriber past it, or returns `None` and changes
/// nothing when the subscriber has received them all. No other
/// subscriber is touched.
#[verifier::external_body]
fn channel_try_next(channel: &mut BusChannel, consumer: usize) -> (reading: Option<PlantowerFrame>)
    ensures
        reading == next_reading(channel_backlogs(*old(channel)), consumer as int),
        channel_backlogs(*final(channel)) == take_step(
            channel_backlogs(*old(channel)),
            consumer as int,
        ),
    no_unwind
{
    channel.subscribers.get_mut(consumer)?.try_next_message_pure()
}

/// The telemetry bus: one producer offers readings, and every consumer
/// that has subscribed is handed each accepted reading once, in the
/// order of acceptance. Its view is the sequence of the consumers'
/// backlogs.
pub struct TelemetryBus {
    channel: BusChannel,
}

impl View for TelemetryBus {
    type V = Seq<Seq<PlantowerFrame>>;

    closed spec fn view(&self) -> Seq<Seq<PlantowerFrame>> {
        channel_backlogs(self.channel)
    }
}

impl TelemetryBus {
    #[verifier::type_invariant]
    spec fn stays_within_bounds(self) -> bool {
        within_bounds(self@)
    }

    /// A bus without consumers.
    pub fn new() -> (bus: Self)
        ensures
            bus@ == Seq::<Seq<PlantowerFrame>>::empty(),
    {
        TelemetryBus { channel: channel_open() }
    }

    /// Admits one more consumer, if the bus has room for it, and returns
    /// its number: consumers are numbered from zero in the order in which
    /// they subscribe. The consumer starts with an empty backlog: it gets
    /// the readings that are published from now on.
    pub fn subscribe(&mut self) -> (consumer: Option<usize>)
        ensures
            old(self)@.len() < BUS_CONSUMERS ==> consumer == Some(old(self)@.len() as usize)
                && final(self)@ == old(self)@.push(Seq::empty()),
            old(self)@.len() >= BUS_CONSUMERS ==> consumer is None && final(self)@ == old(self)@,
            within_bounds(final(self)@),
    {
        proof {
            use_type_invariant(&*self);
        }
        channel_subscribe(&mut self.channel)
    }

    /// Offers `reading` to the bus. The bus accepts it, and adds it to
    /// every backlog, unless some consumer's backlog is full; then the
    /// bus is unchanged and the producer has to wait for that consumer.
    /// A bus without consumers accepts every reading and keeps none.
    pub fn publish(&mut self, reading: PlantowerFrame) -> (accepted: bool)
        ensures
            accepted == accepts(old(self)@),
            final(self)@ == publish_step(old(self)@, reading),
            within_bounds(final(self)@),
    {
        proof {
            use_type_invariant(&*self);
        }
        channel_try_publish(&mut self.channel, reading)
    }

    /// Hands consumer `consumer` its next reading, the oldest of its
    /// backlog, if it has one waiting. Nothing changes for the other
    /// consumers, nor when there is no such consumer.
    pub fn next(&mut self, consumer: usize) -> (reading: Option<PlantowerFrame>)
        ensures
            reading == next_reading(old(self)@, consumer as int),
            final(self)@ == take_step(old(self)@, consumer as int),
            within_bounds(final(self)@),
    {
        proof {
            use_type_invariant(&*self);
        }
        channel_try_next(&mut self.channel, consumer)
    }
}

/// The backlogs of `consumers` consumers that have just subscribed.
pub open spec fn fresh_backlogs(consumers: nat) -> Seq<Seq<PlantowerFrame>> {
    Seq::new(consumers, |i: int| Seq::empty())
}

/// The backlogs after the readings of `readings` were offered one after
/// the other, with no consumer taking any.
pub open spec fn publish_all(
    backlogs: Seq<Seq<PlantowerFrame>>,
    readings: Seq<PlantowerFrame>,
) -> Seq<Seq<PlantowerFrame>>
    decreases readings.len(),
{
    if readings.len() == 0 {
        backlogs
    } else {
        publish_step(publish_all(backlogs, readings.drop_last()), readings.last())
    }
}

/// The backlogs after each of the first `upto` consumers took one
/// reading.
pub open spec fn take_each(backlogs: Seq<Seq<PlantowerFrame>>, upto: nat) -> Seq<
    Seq<PlantowerFrame>,
>
    decreases upto,
{
    if upto == 0 {
        backlogs
    } else {
        take_step(take_each(backlogs, (upto - 1) as nat), upto - 1)
    }
}

/// One operation on the bus.
pub enum BusOp {
    /// A consumer asks to be admitted.
    Subscribe,
    /// The producer offers a reading.
    Publish(PlantowerFrame),
    /// The consumer with this number asks for its next reading.
    Take(int),
}

/// A bus together with the record of what it accepted, of what it handed
/// to each consumer and of when each consumer subscribed.
pub struct BusHistory {
    pub backlogs: Seq<Seq<PlantowerFrame>>,
    /// The readings that the bus accepted, in the order of acceptance.
    pub accepted: Seq<PlantowerFrame>,
    /// For each consumer, the readings it was handed, in that order.
    pub delivered: Seq<Seq<PlantowerFrame>>,
    /// For each consumer, how many readings the bus had accepted when the
    /// consumer subscribed.
    pub joined_at: Seq<nat>,
}

impl BusHistory {
    /// A bus on which `consumers` consumers have subscribed and nothing
    /// has been published yet.
    pub open spec fn start(consumers: nat) -> BusHistory {
        BusHistory {
            backlogs: fresh_backlogs(consumers),
            accepted: Seq::empty(),
            delivered: Seq::new(consumers, |i: int| Seq::empty()),
            joined_at: Seq::new(consumers, |i: int| 0nat),
        }
    }

    /// The history after `op`, which `TelemetryBus::subscribe`,
    /// `TelemetryBus::publish` or `TelemetryBus::next` performs on the
    /// backlogs.
    pub open spec fn after(self, op: BusOp) -> BusHistory {
        match op {
            BusOp::Subscribe => if self.backlogs.len() < BUS_CONSUMERS {
                BusHistory {
                    backlogs: self.backlogs.push(Seq::empty()),
                    delivered: self.delivered.push(Seq::empty()),
                    joined_at: self.joined_at.push(self.accepted.len()),
                    ..self
                }
            } else {
                self
            },
            BusOp::Publish(reading) => if accepts(self.backlogs) {
                BusHistory {
                    backlogs: publish_step(self.backlogs, reading),
                    accepted: self.accepted.push(reading),
                    ..self
                }
            } else {
                self
            },
            BusOp::Take(consumer) => match next_reading(self.backlogs, consumer) {
                Some(reading) => BusHistory {
                    backlogs: take_step(self.backlogs, consumer),
                    delivered: self.delivered.update(
                        consumer,
                        self.delivered[consumer].push(reading),
                    ),
                    ..self
                },
                None => self,
            },
        }
    }

    /// The history after the operations of `ops`, first to last.
    pub open spec fn after_all(self, ops: Seq<BusOp>) -> BusHistory
        decreases ops.len(),
    {
        if ops.len() == 0 {
            self
        } else {
            self.after_all(ops.drop_last()).after(ops.last())
        }
    }

    /// What consumer `consumer` has been handed, followed by what waits
    /// for it.
    pub open spec fn seen_then_waiting(self, consumer: int) -> Seq<PlantowerFrame> {
        self.delivered[consumer] + self.backlogs[consumer]
    }

    /// The readings that the bus accepted since consumer `consumer`
    /// subscribed.
    pub open spec fn accepted_since_joining(self, consumer: int) -> Seq<PlantowerFrame> {
        self.accepted.skip(self.joined_at[consumer] as int)
    }

    /// Every consumer has been handed, or has waiting for it, exactly the
    /// readings that the bus accepted since it subscribed, in the order
    /// of their acceptance, and no backlog exceeds the capacity.
    pub open spec fn loses_nothing(self) -> bool {
        &&& self.delivered.len() == self.backlogs.len()
        &&& self.joined_at.len() == self.backlogs.len()
        &&& forall|i: int|
            0 <= i < self.backlogs.len() ==> (#[trigger] self.joined_at[i]) <= self.accepted.len()
        &&& forall|i: int|
            0 <= i < self.backlogs.len() ==> #[trigger] self.seen_then_waiting(i)
                == self.accepted_since_joining(i)
        &&& forall|i: int|
            0 <= i < self.backlogs.len() ==> (#[trigger] self.backlogs[i]).len() <= BUS_CAPACITY
    }

    /// The first `consumers` consumers subscribed before anything was
    /// published.
    pub open spec fn joined_at_the_start(self, consumers: nat) -> bool {
        &&& consumers <= self.joined_at.len()
        &&& forall|i: int| 0 <= i < consumers ==> (#[trigger] self.joined_at[i]) == 0
    }
}

/// No operation of the bus takes the backlogs out of their bounds.
pub proof fn lemma_backlogs_stay_within_bounds(
    backlogs: Seq<Seq<PlantowerFrame>>,
    reading: PlantowerFrame,
    consumer: int,
)
    requires
        within_bounds(backlogs),
    ensures
        within_bounds(publish_step(backlogs, reading)),
        within_bounds(take_step(backlogs, consumer)),
        backlogs.len() < BUS_CONSUMERS ==> within_bounds(backlogs.push(Seq::empty())),
{
}

/// One step of a history that loses nothing loses nothing, and does not
/// change when a consumer subscribed.
proof fn lemma_step_loses_nothing(history: BusHistory, consumers: nat, op: BusOp)
    requires
        history.loses_nothing(),
        history.joined_at_the_start(consumers),
    ensures
        history.after(op).loses_nothing(),
        history.after(op).joined_at_the_start(consumers),
{
    let next = history.after(op);
    assert forall|i: int| 0 <= i < next.backlogs.len() implies #[trigger] next.seen_then_waiting(
        i,
    ) == next.accepted_since_joining(i) by {
        if i < history.backlogs.len() {
            assert(history.seen_then_waiting(i) == history.accepted_since_joining(i));
            assert(history.joined_at[i] <= history.accepted.len());
        }
        match op {
            BusOp::Subscribe => {
                assert(next.seen_then_waiting(i) =~= next.accepted_since_joining(i));
            },
            BusOp::Publish(reading) => {
                if accepts(history.backlogs) {
                    assert(next.seen_then_waiting(i) =~= history.seen_then_waiting(i).push(
                        reading,
                    ));
                    assert(next.accepted_since_joining(i) =~= history.accepted_since_joining(
                        i,
                    ).push(reading));
                }
            },
            BusOp::Take(consumer) => {
                assert(next.seen_then_waiting(i) =~= history.seen_then_waiting(i));
            },
        }
    }
}

/// Whatever is done on the bus, in whatever order, no consumer misses a
/// reading or gets one twice or out of order: at every moment what a
/// consumer has been handed, followed by what waits for it, is the
/// sequence of the readings that the bus accepted since the consumer
/// subscribed.
pub proof fn lemma_bus_loses_nothing(consumers: nat, ops: Seq<BusOp>)
    ensures
        BusHistory::start(consumers).after_all(ops).loses_nothing(),
        BusHistory::start(consumers).after_all(ops).joined_at_the_start(consumers),
    decreases ops.len(),
{
    let start = BusHistory::start(consumers);
    if ops.len() == 0 {
        assert forall|i: int| 0 <= i < consumers implies #[trigger] start.seen_then_waiting(i)
            == start.accepted_since_joining(i) by {
            assert(start.seen_then_waiting(i) =~= start.accepted_since_joining(i));
        }
    } else {
        lemma_bus_loses_nothing(consumers, ops.drop_last());
        lemma_step_loses_nothing(start.after_all(ops.drop_last()), consumers, ops.last());
    }
}

/// Consumers that subscribed before anything was published are each
/// handed every accepted reading, in the order of acceptance, however the
/// publishing and the taking interleave and however far one consumer
/// falls behind another. What such a consumer has been handed is always
/// a prefix of the accepted readings, and is all of them once its backlog
/// is empty.
pub proof fn lemma_consumers_see_all_readings_in_order(
    consumers: nat,
    ops: Seq<BusOp>,
    consumer: int,
)
    requires
        0 <= consumer < consumers,
    ensures
        ({
            let history = BusHistory::start(consumers).after_all(ops);
            &&& history.seen_then_waiting(consumer) == history.accepted
            &&& history.delivered[consumer] == history.accepted.take(
                history.delivered[consumer].len() as int,
            )
            &&& history.backlogs[consumer].len() == 0 ==> history.delivered[consumer]
                == history.accepted
            &&& history.backlogs[consumer].len() <= BUS_CAPACITY
        }),
{
    let history = BusHistory::start(consumers).after_all(ops);
    lemma_bus_loses_nothing(consumers, ops);
    assert(history.joined_at[consumer] == 0);
    assert(history.seen_then_waiting(consumer) == history.accepted_since_joining(consumer));
    assert(history.accepted_since_joining(consumer) =~= history.accepted);
    assert(history.delivered[consumer] =~= history.accepted.take(
        history.delivered[consumer].len() as int,
    ));
}

/// A consumer that subscribes later is handed the readings that are
/// accepted after it subscribed, and none of the earlier ones.
pub proof fn lemma_late_consumers_start_at_the_tail(
    consumers: nat,
    ops: Seq<BusOp>,
    consumer: int,
)
    requires
        0 <= consumer < BusHistory::start(consumers).after_all(ops).backlogs.len(),
    ensures
        ({
            let history = BusHistory::start(consumers).after_all(ops);
            &&& history.joined_at[consumer] <= history.accepted.len()
            &&& history.seen_then_waiting(consumer) == history.accepted.skip(
                history.joined_at[consumer] as int,
            )
        }),
{
    let history = BusHistory::start(consumers).after_all(ops);
    lemma_bus_loses_nothing(consumers, ops);
    assert(history.seen_then_waiting(consumer) == history.accepted_since_joining(consumer));
}

/// Readings that are published onto fresh backlogs while no consumer
/// takes any are all accepted as long as there are no more of them than
/// the capacity, and each backlog then holds all of them.
pub proof fn lemma_fresh_bus_fills_up(consumers: nat, readings: Seq<PlantowerFrame>)
    requires
        readings.len() <= BUS_CAPACITY,
    ensures
        publish_all(fresh_backlogs(consumers), readings) == Seq::new(consumers, |i: int| readings),
    decreases readings.len(),
{
    let filled = publish_all(fresh_backlogs(consumers), readings);
    if readings.len() == 0 {
        assert(readings =~= Seq::<PlantowerFrame>::empty());
    } else {
        let before = publish_all(fresh_backlogs(consumers), readings.drop_last());
        lemma_fresh_bus_fills_up(consumers, readings.drop_last());
        assert forall|i: int| 0 <= i < consumers implies filled[i] == readings by {
            assert(before[i].push(readings.last()) =~= readings);
        }
    }
}

/// With every consumer idle, a bus of capacity C accepts C readings and
/// refuses the next one, which leaves it unchanged. One consumer taking
/// a reading makes room exactly when it is the only consumer; once every
/// consumer has taken one, the bus accepts again.
pub proof fn lemma_full_bus_holds_producer_back(consumers: nat, readings: Seq<PlantowerFrame>)
    requires
        consumers >= 1,
        readings.len() == BUS_CAPACITY + 1,
    ensures
        ({
            let filled = publish_all(fresh_backlogs(consumers), readings.take(BUS_CAPACITY as int));
            &&& filled == Seq::new(consumers, |i: int| readings.take(BUS_CAPACITY as int))
            &&& !accepts(filled)
            &&& publish_step(filled, readings[BUS_CAPACITY as int]) == filled
            &&& forall|c: int|
                0 <= c < consumers ==> (#[trigger] accepts(take_step(filled, c)) <==> consumers
                    == 1)
            &&& accepts(take_each(filled, consumers))
        }),
{
    let first = readings.take(BUS_CAPACITY as int);
    let filled = publish_all(fresh_backlogs(consumers), first);
    lemma_fresh_bus_fills_up(consumers, first);
    assert(filled[0].len() == BUS_CAPACITY);
    assert forall|c: int| 0 <= c < consumers implies (#[trigger] accepts(take_step(filled, c))
        <==> consumers == 1) by {
        if consumers > 1 {
            let other = if c == 0 {
                1int
            } else {
                0int
            };
            assert(take_step(filled, c)[other].len() == BUS_CAPACITY);
        }
    }
    lemma_take_each_drains(filled, consumers, consumers);
}

/// After each of the first `upto` consumers of full backlogs took one
/// reading, those consumers have room for one more and the others are as
/// they were.
proof fn lemma_take_each_drains(backlogs: Seq<Seq<PlantowerFrame>>, consumers: nat, upto: nat)
    requires
        backlogs.len() == consumers,
        upto <= consumers,
        forall|i: int| 0 <= i < consumers ==> (#[trigger] backlogs[i]).len() == BUS_CAPACITY,
    ensures
        take_each(backlogs, upto).len() == consumers,
        forall|i: int|
            0 <= i < upto ==> (#[trigger] take_each(backlogs, upto)[i]).len() == BUS_CAPACITY - 1,
        forall|i: int|
            upto <= i < consumers ==> (#[trigger] take_each(backlogs, upto)[i]).len()
                == BUS_CAPACITY,
    decreases upto,
{
    if upto > 0 {
        lemma_take_each_drains(backlogs, consumers, (upto - 1) as nat);
    }
}

} // verus!
