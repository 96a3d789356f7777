//! The weighing loop: wait for the load cell, read the weight, wait again, read the
//! raw value behind it, broadcast both, rest, start over.
//!
//! The loop is a state machine. A [`Pending`] state is what the scale is busy with;
//! [`Pending::request`] says what the board has to do for it, and [`Pending::next`]
//! takes the board's [`Reply`] to the state that follows.

use vstd::prelude::*;
use crate::bthome::{setup_ble_advertising, Advertisement};
#[allow(unused_imports)]
use crate::bthome::{
    advertisement_bytes, scan_response_bytes, AdvertisingKind, AdvertisingParameters,
    ADVERTISE_TIMEOUT_MS,
};

verus! {

/// Counts of the load cell per kilogram.
pub const COUNTS_PER_KG: u32 = 57156;

/// How many readings the zero point is averaged over.
pub const TARE_SAMPLES: usize = 5;

/// How long to wait before the load cell is asked again whether it is ready.
pub const BACKOFF_MS: u64 = 10;

/// How long to rest between two rounds.
pub const REST_MS: u64 = 5000;

/// The battery level that is broadcast: it is not measured.
pub const BATTERY_PCT: u8 = 90;

/// Where a single reading of the load cell stands.
#[derive(Clone, Copy, Debug, PartialEq, Eq, Structural)]
pub enum Poll {
    /// Asking whether a reading is ready.
    Check,
    /// Waiting before asking again.
    Backoff,
    /// Reading.
    Read,
}

/// What the scale is busy with.
#[derive(Clone, Copy, Debug, PartialEq, Eq, Structural)]
pub enum Pending {
    /// Getting the weight.
    Scaled { poll: Poll },
    /// Getting the raw reading, with the weight at hand.
    Raw { poll: Poll, weight_converted: u16 },
    /// Broadcasting both.
    Broadcast { weight_converted: u16, weight_raw: i32 },
    /// Resting before the next round.
    Rest,
}

/// What the board has to do.
pub enum Request {
    /// Ask the load cell whether a reading is ready.
    PollReady,
    /// Read the weight, in hundredths of a kilogram.
    ReadScaled,
    /// Read the raw value.
    ReadRaw,
    /// Let so many milliseconds pass.
    Sleep { ms: u64 },
    /// Broadcast until the advertisement ends by itself or its time is up.
    Advertise { advertisement: Advertisement },
}

/// What the board reports.
#[derive(Clone, Copy, Debug, PartialEq, Eq, Structural)]
pub enum Reply {
    /// Whether a reading is ready.
    Ready { ready: bool },
    /// The weight in hundredths of a kilogram, unless the load cell failed.
    Scaled { weight_converted: Option<u16> },
    /// The raw reading, unless the load cell failed.
    Raw { weight_raw: Option<i32> },
    /// The time has passed.
    Elapsed,
    /// The broadcast is over, however it ended.
    Advertised,
}

/// The reply is one to what the state asks for.
pub open spec fn answers(pending: Pending, reply: Reply) -> bool {
    match pending {
        Pending::Scaled { poll: Poll::Check } | Pending::Raw { poll: Poll::Check, .. } => reply
            is Ready,
        Pending::Scaled { poll: Poll::Backoff } | Pending::Raw { poll: Poll::Backoff, .. } => reply
            is Elapsed,
        Pending::Scaled { poll: Poll::Read } => reply is Scaled,
        Pending::Raw { poll: Poll::Read, .. } => reply is Raw,
        Pending::Broadcast { .. } => reply is Advertised,
        Pending::Rest => reply is Elapsed,
    }
}

/// The reply is of the kind that the request asks for.
pub open spec fn replies_to(request: Request, reply: Reply) -> bool {
    match request {
        Request::PollReady => reply is Ready,
        Request::ReadScaled => reply is Scaled,
        Request::ReadRaw => reply is Raw,
        Request::Sleep { .. } => reply is Elapsed,
        Request::Advertise { .. } => reply is Advertised,
    }
}

/// Where a reading stands after an answer that is not the reading itself.
pub open spec fn poll_after(reply: Reply) -> Poll {
    match reply {
        Reply::Ready { ready } => if ready {
            Poll::Read
        } else {
            Poll::Backoff
        },
        _ => Poll::Check,
    }
}

/// The state that follows a reply. One that does not answer changes nothing; a failed
/// reading ends the round.
pub open spec fn follows(pending: Pending, reply: Reply) -> Pending {
    if !answers(pending, reply) {
        pending
    } else {
        match (pending, reply) {
            (
                Pending::Scaled { .. },
                Reply::Scaled { weight_converted: Some(weight_converted) },
            ) => Pending::Raw { poll: Poll::Check, weight_converted },
            (Pending::Scaled { .. }, Reply::Scaled { weight_converted: None }) => Pending::Rest,
            (Pending::Scaled { .. }, _) => Pending::Scaled { poll: poll_after(reply) },
            (
                Pending::Raw { weight_converted, .. },
                Reply::Raw { weight_raw: Some(weight_raw) },
            ) => Pending::Broadcast { weight_converted, weight_raw },
            (Pending::Raw { .. }, Reply::Raw { weight_raw: None }) => Pending::Rest,
            (Pending::Raw { weight_converted, .. }, _) => Pending::Raw {
                poll: poll_after(reply),
                weight_converted,
            },
            (Pending::Broadcast { .. }, _) => Pending::Rest,
            (Pending::Rest, _) => Pending::Scaled { poll: Poll::Check },
        }
    }
}

/// The state that follows replies, one after the other.
pub open spec fn follows_all(pending: Pending, replies: Seq<Reply>) -> Pending
    decreases replies.len(),
{
    if replies.len() == 0 {
        pending
    } else {
        follows(follows_all(pending, replies.drop_last()), replies.last())
    }
}

/// The state in which the scale starts.
pub open spec fn first() -> Pending {
    Pending::Scaled { poll: Poll::Check }
}

impl Poll {
    /// Where a reading stands once the load cell has said whether it is ready: read if
    /// it is, else wait before asking again.
    fn checked(ready: bool) -> (poll: Poll)
        ensures
            poll == poll_after(Reply::Ready { ready }),
    {
        if ready {
            Poll::Read
        } else {
            Poll::Backoff
        }
    }
}

/// Getting the weight: the state that follows a reply.
pub fn read_weight(poll: Poll, reply: Reply) -> (next: Pending)
    ensures
        next == follows(Pending::Scaled { poll }, reply),
{
    match (poll, reply) {
        (Poll::Check, Reply::Ready { ready }) => Pending::Scaled { poll: Poll::checked(ready) },
        (Poll::Backoff, Reply::Elapsed) => Pending::Scaled { poll: Poll::Check },
        (Poll::Read, Reply::Scaled { weight_converted: Some(weight_converted) }) => Pending::Raw {
            poll: Poll::Check,
            weight_converted,
        },
        (Poll::Read, Reply::Scaled { weight_converted: None }) => Pending::Rest,
        _ => Pending::Scaled { poll },
    }
}

/// Getting the raw reading behind a weight: the state that follows a reply.
pub fn read_weight_raw(poll: Poll, weight_converted: u16, reply: Reply) -> (next: Pending)
    ensures
        next == follows(Pending::Raw { poll, weight_converted }, reply),
{
    match (poll, reply) {
        (Poll::Check, Reply::Ready { ready }) => Pending::Raw {
            poll: Poll::checked(ready),
            weight_converted,
        },
        (Poll::Backoff, Reply::Elapsed) => Pending::Raw { poll: Poll::Check, weight_converted },
        (Poll::Read, Reply::Raw { weight_raw: Some(weight_raw) }) => Pending::Broadcast {
            weight_converted,
            weight_raw,
        },
        (Poll::Read, Reply::Raw { weight_raw: None }) => Pending::Rest,
        _ => Pending::Raw { poll, weight_converted },
    }
}

impl Pending {
    /// The start of the first round.
    pub fn start() -> (pending: Self)
        ensures
            pending == first(),
    {
        Pending::Scaled { poll: Poll::Check }
    }

    /// What the board has to do now.
    pub fn request(self) -> (request: Request)
        ensures
            match self {
                Pending::Scaled { poll: Poll::Check } | Pending::Raw { poll: Poll::Check, .. } =>
                    request == Request::PollReady,
                Pending::Scaled { poll: Poll::Backoff } | Pending::Raw { poll: Poll::Backoff, .. } =>
                    request == (Request::Sleep { ms: BACKOFF_MS }),
                Pending::Scaled { poll: Poll::Read } => request == Request::ReadScaled,
                Pending::Raw { poll: Poll::Read, .. } => request == Request::ReadRaw,
                Pending::Broadcast { weight_converted, weight_raw } => {
                    &&& request is Advertise
                    &&& request->advertisement.kind
                        == AdvertisingKind::NonconnectableScannableUndirected
                    &&& request->advertisement.parameters == AdvertisingParameters::StackDefault
                    &&& request->advertisement.adv_data@ == advertisement_bytes(
                        weight_converted,
                        weight_raw,
                        BATTERY_PCT,
                    )
                    &&& request->advertisement.scan_data@ == scan_response_bytes()
                    &&& request->advertisement.timeout_ms == ADVERTISE_TIMEOUT_MS
                },
                Pending::Rest => request == (Request::Sleep { ms: REST_MS }),
            },
            forall|reply: Reply| #[trigger] answers(self, reply) <==> replies_to(request, reply),
    {
        match self {
            Pending::Scaled { poll: Poll::Check } => Request::PollReady,
            Pending::Raw { poll: Poll::Check, .. } => Request::PollReady,
            Pending::Scaled { poll: Poll::Backoff } => Request::Sleep { ms: BACKOFF_MS },
            Pending::Raw { poll: Poll::Backoff, .. } => Request::Sleep { ms: BACKOFF_MS },
            Pending::Scaled { poll: Poll::Read } => Request::ReadScaled,
            Pending::Raw { poll: Poll::Read, .. } => Request::ReadRaw,
            Pending::Broadcast { weight_converted, weight_raw } => Request::Advertise {
                advertisement: setup_ble_advertising(weight_converted, weight_raw, BATTERY_PCT),
            },
            Pending::Rest => Request::Sleep { ms: REST_MS },
        }
    }

    /// The state that follows the board's reply.
    pub fn next(self, reply: Reply) -> (next: Self)
        ensures
            next == follows(self, reply),
    {
        match (self, reply) {
            (Pending::Scaled { poll }, _) => read_weight(poll, reply),
            (Pending::Raw { poll, weight_converted }, _) => read_weight_raw(
                poll,
                weight_converted,
                reply,
            ),
            (Pending::Broadcast { .. }, Reply::Advertised) => Pending::Rest,
            (Pending::Rest, Reply::Elapsed) => Pending::Scaled { poll: Poll::Check },
            _ => self,
        }
    }
}

/// Replies in two parts lead where the parts lead one after the other.
pub proof fn law_replies_compose(pending: Pending, earlier: Seq<Reply>, later: Seq<Reply>)
    ensures
        follows_all(pending, earlier + later) == follows_all(follows_all(pending, earlier), later),
    decreases later.len(),
{
    if later.len() == 0 {
        assert(earlier + later =~= earlier);
    } else {
        law_replies_compose(pending, earlier, later.drop_last());
        assert((earlier + later).drop_last() =~= earlier + later.drop_last());
        assert((earlier + later).last() == later.last());
    }
}

/// The scale never stays where it is on an answer, and always on anything else.
pub proof fn law_every_answer_moves_on(pending: Pending, reply: Reply)
    ensures
        follows(pending, reply) != pending <==> answers(pending, reply),
{
}

/// A round only ever starts out of a rest: no reading, failed or not, and no broadcast
/// leads straight into the next round.
pub proof fn law_rounds_start_out_of_a_rest(pending: Pending, reply: Reply)
    requires
        follows(pending, reply) is Scaled,
        !(pending is Scaled),
    ensures
        pending == Pending::Rest,
        reply == Reply::Elapsed,
        follows(pending, reply) == first(),
{
}

/// Being told so many times to wait, and having waited.
pub open spec fn waits(times: nat) -> Seq<Reply>
    decreases times,
{
    if times == 0 {
        Seq::empty()
    } else {
        waits((times - 1) as nat) + seq![Reply::Ready { ready: false }, Reply::Elapsed]
    }
}

/// However often the load cell is not ready, the scale is back to asking it.
proof fn lemma_waits_return(pending: Pending, times: nat)
    requires
        (pending is Scaled && pending->Scaled_poll == Poll::Check) || (pending is Raw
            && pending->Raw_poll == Poll::Check),
    ensures
        follows_all(pending, waits(times)) == pending,
    decreases times,
{
    if times > 0 {
        let before = waits((times - 1) as nat);
        let last = seq![Reply::Ready { ready: false }, Reply::Elapsed];
        lemma_waits_return(pending, (times - 1) as nat);
        law_replies_compose(pending, before, last);
        lemma_two(pending, last[0], last[1]);
    }
}

proof fn lemma_two(pending: Pending, one: Reply, two: Reply)
    ensures
        follows_all(pending, seq![one, two]) == follows(follows(pending, one), two),
{
    let both = seq![one, two];
    assert(both.drop_last() =~= seq![one]);
    assert(seq![one].drop_last() =~= Seq::empty());
    reveal_with_fuel(follows_all, 3);
}

/// The replies up to a raw reading: however often the load cell makes the scale wait, it
/// gives a weight, and then `last` when it is asked for the raw reading.
pub open spec fn readings(
    waits_scaled: nat,
    weight_converted: u16,
    waits_raw: nat,
    last: Reply,
) -> Seq<Reply> {
    waits(waits_scaled) + seq![
        Reply::Ready { ready: true },
        Reply::Scaled { weight_converted: Some(weight_converted) },
    ] + waits(waits_raw) + seq![Reply::Ready { ready: true }, last]
}

/// Those replies lead to where `last` leads from the raw reading.
proof fn lemma_readings(waits_scaled: nat, weight_converted: u16, waits_raw: nat, last: Reply)
    ensures
        follows_all(first(), readings(waits_scaled, weight_converted, waits_raw, last)) == follows(
            Pending::Raw { poll: Poll::Read, weight_converted },
            last,
        ),
{
    let scaled = seq![
        Reply::Ready { ready: true },
        Reply::Scaled { weight_converted: Some(weight_converted) },
    ];
    let raw = seq![Reply::Ready { ready: true }, last];
    let weighed = Pending::Raw { poll: Poll::Check, weight_converted };
    let one = waits(waits_scaled);
    let two = one + scaled;
    lemma_waits_return(first(), waits_scaled);
    law_replies_compose(first(), one, scaled);
    lemma_two(first(), scaled[0], scaled[1]);
    lemma_waits_return(weighed, waits_raw);
    law_replies_compose(first(), two, waits(waits_raw));
    law_replies_compose(first(), two + waits(waits_raw), raw);
    lemma_two(weighed, raw[0], raw[1]);
}

/// A whole round, however often the load cell makes the scale wait: the weight and the
/// raw reading that it gives are the ones that are broadcast, and after the rest the
/// next round starts.
pub proof fn law_round(
    waits_scaled: nat,
    weight_converted: u16,
    waits_raw: nat,
    weight_raw: i32,
)
    ensures
        ({
            let replies = readings(
                waits_scaled,
                weight_converted,
                waits_raw,
                Reply::Raw { weight_raw: Some(weight_raw) },
            );
            &&& follows_all(first(), replies) == (Pending::Broadcast {
                weight_converted,
                weight_raw,
            })
            &&& follows_all(first(), replies + seq![Reply::Advertised, Reply::Elapsed]) == first()
        }),
{
    let last = Reply::Raw { weight_raw: Some(weight_raw) };
    let end = seq![Reply::Advertised, Reply::Elapsed];
    lemma_readings(waits_scaled, weight_converted, waits_raw, last);
    law_replies_compose(
        first(),
        readings(waits_scaled, weight_converted, waits_raw, last),
        end,
    );
    lemma_two(Pending::Broadcast { weight_converted, weight_raw }, end[0], end[1]);
}

/// A round in which a reading fails, the weight or the raw one: nothing is broadcast, the
/// scale rests and starts over.
pub proof fn law_failed_round(waits_scaled: nat, weight_converted: u16, waits_raw: nat)
    ensures
        ({
            let failed_scaled = waits(waits_scaled) + seq![
                Reply::Ready { ready: true },
                Reply::Scaled { weight_converted: None },
            ];
            let failed_raw = readings(
                waits_scaled,
                weight_converted,
                waits_raw,
                Reply::Raw { weight_raw: None },
            );
            &&& follows_all(first(), failed_scaled) == Pending::Rest
            &&& follows_all(first(), failed_raw) == Pending::Rest
            &&& follows_all(Pending::Rest, seq![Reply::Elapsed]) == first()
        }),
{
    let failed = seq![Reply::Ready { ready: true }, Reply::Scaled { weight_converted: None }];
    lemma_waits_return(first(), waits_scaled);
    law_replies_compose(first(), waits(waits_scaled), failed);
    lemma_two(first(), failed[0], failed[1]);
    lemma_readings(waits_scaled, weight_converted, waits_raw, Reply::Raw { weight_raw: None });
    assert(seq![Reply::Elapsed].drop_last() =~= Seq::empty());
    reveal_with_fuel(follows_all, 2);
}

/// The state after the first `n` replies.
pub open spec fn state_at(replies: Seq<Reply>, n: int) -> Pending {
    follows_all(first(), replies.take(n))
}

/// Up to the last reply the states are those of the replies before it.
proof fn lemma_states_of_prefix(replies: Seq<Reply>)
    requires
        replies.len() > 0,
    ensures
        forall|k: int|
            0 <= k < replies.len() ==> #[trigger] state_at(replies, k) == state_at(
                replies.drop_last(),
                k,
            ),
        state_at(replies, replies.len() - 1) == follows_all(first(), replies.drop_last()),
        state_at(replies, replies.len() as int) == follows_all(first(), replies),
{
    let earlier = replies.drop_last();
    assert forall|k: int| 0 <= k < replies.len() implies #[trigger] state_at(replies, k)
        == state_at(earlier, k) by {
        assert(replies.take(k) =~= earlier.take(k));
    }
    assert(replies.take(replies.len() - 1) =~= earlier);
    assert(replies.take(replies.len() as int) =~= replies);
}

/// The weight at hand is the one that reply `i` gave, when the scale had asked for it, and
/// the scale has been busy with the raw reading behind it up to reply `until`.
pub open spec fn weighed_at(replies: Seq<Reply>, i: int, until: int, weight_converted: u16) -> bool {
    &&& 0 <= i < until <= replies.len()
    &&& state_at(replies, i) == (Pending::Scaled { poll: Poll::Read })
    &&& replies[i] == (Reply::Scaled { weight_converted: Some(weight_converted) })
    &&& forall|k: int|
        i < k <= until ==> (#[trigger] state_at(replies, k)) is Raw && state_at(
            replies,
            k,
        )->Raw_weight_converted == weight_converted
}

/// Whatever the board replies, a broadcast carries a weight that the load cell gave when it
/// was asked for the weight, and the raw reading that it gave next, in the same round.
pub proof fn law_broadcasts_carry_what_was_read(replies: Seq<Reply>)
    ensures
        match follows_all(first(), replies) {
            Pending::Broadcast { weight_converted, weight_raw } => exists|i: int, j: int|
                {
                    &&& #[trigger] weighed_at(replies, i, j, weight_converted)
                    &&& j < replies.len()
                    &&& replies[j] == (Reply::Raw { weight_raw: Some(weight_raw) })
                    &&& state_at(replies, j) == (Pending::Raw {
                        poll: Poll::Read,
                        weight_converted,
                    })
                },
            Pending::Raw { weight_converted, .. } => exists|i: int|
                #[trigger] weighed_at(replies, i, replies.len() as int, weight_converted),
            _ => true,
        },
    decreases replies.len(),
{
    if replies.len() > 0 {
        let earlier = replies.drop_last();
        let n = earlier.len() as int;
        law_broadcasts_carry_what_was_read(earlier);
        lemma_states_of_prefix(replies);
        match follows_all(first(), earlier) {
            Pending::Scaled { .. } => {
                match follows_all(first(), replies) {
                    Pending::Raw { weight_converted, .. } => {
                        assert(weighed_at(replies, n, n + 1, weight_converted));
                    },
                    _ => {},
                }
            },
            Pending::Raw { weight_converted, .. } => {
                let i = choose|i: int| #[trigger] weighed_at(earlier, i, n, weight_converted);
                assert(state_at(replies, i) == state_at(earlier, i));
                assert(weighed_at(replies, i, n, weight_converted));
                match follows_all(first(), replies) {
                    Pending::Raw { weight_converted: same, .. } => {
                        assert(weighed_at(replies, i, n + 1, same));
                    },
                    Pending::Broadcast { weight_converted: same, weight_raw } => {
                        assert(weighed_at(replies, i, n, same));
                        assert(replies[n] == (Reply::Raw { weight_raw: Some(weight_raw) }));
                    },
                    _ => {},
                }
            },
            Pending::Broadcast { weight_converted, weight_raw } => {
                let (i, j) = choose|i: int, j: int|
                    {
                        &&& #[trigger] weighed_at(earlier, i, j, weight_converted)
                        &&& j < earlier.len()
                        &&& earlier[j] == (Reply::Raw { weight_raw: Some(weight_raw) })
                        &&& state_at(earlier, j) == (Pending::Raw {
                            poll: Poll::Read,
                            weight_converted,
                        })
                    };
                assert(state_at(replies, i) == state_at(earlier, i));
                assert(state_at(replies, j) == state_at(earlier, j));
                assert(weighed_at(replies, i, j, weight_converted));
            },
            Pending::Rest => {},
        }
    }
}

/// The scale is about to read the load cell.
pub open spec fn reading(pending: Pending) -> bool {
    ||| pending == (Pending::Scaled { poll: Poll::Read })
    ||| (pending is Raw && pending->Raw_poll == Poll::Read)
}

/// Reply `i` said that a reading is ready, and the scale has been about to take it since.
pub open spec fn ready_since(replies: Seq<Reply>, i: int) -> bool {
    &&& 0 <= i < replies.len()
    &&& answers(state_at(replies, i), replies[i])
    &&& replies[i] == (Reply::Ready { ready: true })
    &&& forall|k: int|
        i < k <= replies.len() ==> (#[trigger] state_at(replies, k)) == follows_all(
            first(),
            replies,
        )
}

/// Whatever the board replies, the load cell is only read after it has said that it is
/// ready, and nothing is done in between.
pub proof fn law_reads_only_when_ready(replies: Seq<Reply>)
    ensures
        reading(follows_all(first(), replies)) ==> exists|i: int| #[trigger]
            ready_since(replies, i),
    decreases replies.len(),
{
    if replies.len() > 0 && reading(follows_all(first(), replies)) {
        let earlier = replies.drop_last();
        let n = earlier.len() as int;
        law_reads_only_when_ready(earlier);
        lemma_states_of_prefix(replies);
        if reading(follows_all(first(), earlier)) {
            let i = choose|i: int| #[trigger] ready_since(earlier, i);
            assert(state_at(replies, i) == state_at(earlier, i));
            assert(ready_since(replies, i));
        } else {
            assert(ready_since(replies, n));
        }
    }
}

/// Asked whether it is ready, the load cell decides alone: if it is, it is read, if not, it is asked
/// again after a wait. That goes for both readings, and for every weight that is at hand.
pub proof fn law_readiness_decides(weight_converted: u16)
    ensures
        follows(Pending::Scaled { poll: Poll::Check }, Reply::Ready { ready: true }) == (
        Pending::Scaled { poll: Poll::Read }),
        follows(Pending::Scaled { poll: Poll::Check }, Reply::Ready { ready: false }) == (
        Pending::Scaled { poll: Poll::Backoff }),
        follows(Pending::Scaled { poll: Poll::Backoff }, Reply::Elapsed) == (Pending::Scaled {
            poll: Poll::Check,
        }),
        follows(
            Pending::Raw { poll: Poll::Check, weight_converted },
            Reply::Ready { ready: true },
        ) == (Pending::Raw { poll: Poll::Read, weight_converted }),
        follows(
            Pending::Raw { poll: Poll::Check, weight_converted },
            Reply::Ready { ready: false },
        ) == (Pending::Raw { poll: Poll::Backoff, weight_converted }),
        follows(Pending::Raw { poll: Poll::Backoff, weight_converted }, Reply::Elapsed) == (
        Pending::Raw { poll: Poll::Check, weight_converted }),
{
}

/// Every weight and every raw reading is taken over as it is, whatever its value; a failed reading
/// leads to a rest, and so does the end of every broadcast.
pub proof fn law_readings_are_taken_over(weight_converted: u16, weight_raw: i32)
    ensures
        follows(
            Pending::Scaled { poll: Poll::Read },
            Reply::Scaled { weight_converted: Some(weight_converted) },
        ) == (Pending::Raw { poll: Poll::Check, weight_converted }),
        follows(
            Pending::Scaled { poll: Poll::Read },
            Reply::Scaled { weight_converted: None },
        ) == Pending::Rest,
        follows(
            Pending::Raw { poll: Poll::Read, weight_converted },
            Reply::Raw { weight_raw: Some(weight_raw) },
        ) == (Pending::Broadcast { weight_converted, weight_raw }),
        follows(
            Pending::Raw { poll: Poll::Read, weight_converted },
            Reply::Raw { weight_raw: None },
        ) == Pending::Rest,
        follows(
            Pending::Broadcast { weight_converted, weight_raw },
            Reply::Advertised,
        ) == Pending::Rest,
        follows(Pending::Rest, Reply::Elapsed) == (Pending::Scaled { poll: Poll::Check }),
{
}

/// A reply moves the scale on only where the scale is waiting for that kind of reply.
pub proof fn law_stray_replies_change_nothing(pending: Pending, reply: Reply)
    requires
        follows(pending, reply) != pending,
    ensures
        reply is Ready ==> (pending is Scaled && pending->Scaled_poll == Poll::Check) || (
        pending is Raw && pending->Raw_poll == Poll::Check),
        reply is Scaled ==> pending == (Pending::Scaled { poll: Poll::Read }),
        reply is Raw ==> pending is Raw && pending->Raw_poll == Poll::Read,
        reply is Elapsed ==> pending == Pending::Rest || (pending is Scaled && pending->Scaled_poll
            == Poll::Backoff) || (pending is Raw && pending->Raw_poll == Poll::Backoff),
        reply is Advertised ==> pending is Broadcast,
{
}

/// The weight at hand is never changed: it is kept, broadcast as it is, or given up for a rest.
pub proof fn law_weight_at_hand_is_kept(poll: Poll, weight_converted: u16, reply: Reply)
    ensures
        match follows(Pending::Raw { poll, weight_converted }, reply) {
            Pending::Scaled { .. } => false,
            Pending::Raw { weight_converted: kept, .. } => kept == weight_converted,
            Pending::Broadcast { weight_converted: sent, weight_raw } => sent == weight_converted
                && reply == (Reply::Raw { weight_raw: Some(weight_raw) }),
            Pending::Rest => reply == (Reply::Raw { weight_raw: None }),
        },
{
}

/// Replies are taken one by one, in their order.
pub proof fn law_replies_one_by_one(pending: Pending, earlier: Seq<Reply>, last: Reply)
    ensures
        follows_all(pending, Seq::empty()) == pending,
        follows_all(pending, earlier.push(last)) == follows(follows_all(pending, earlier), last),
{
    assert(earlier.push(last).drop_last() =~= earlier);
}

/// Being told to wait, and having waited, in turn.
pub proof fn law_waits_alternate(times: nat, k: nat)
    requires
        k < times,
    ensures
        waits(times).len() == 2 * times,
        waits(times)[2 * k as int] == (Reply::Ready { ready: false }),
        waits(times)[2 * k as int + 1] == Reply::Elapsed,
    decreases times,
{
    let before = (times - 1) as nat;
    reveal_with_fuel(waits, 2);
    if before > 0 {
        law_waits_alternate(before, if k < before { k } else { 0 });
    }
}

} // verus!
