//! The simulated link, its random numbers, and what the decoder is told.
use vstd::prelude::*;

use crate::engine::codec::{frame_buffer, DecodeStep, ExpectedLoss};
use crate::engine::jitter::Pop;
use crate::engine::lcg::step;
use crate::engine::netsim::{Flight, NetSim};
use crate::engine::resample::is_identity;

verus! {

/// The random numbers are those of the linear generator modulo two to the power of
/// 64 with Knuth's multiplier.
pub proof fn draws_follow_the_generator(x: u64, r: u64)
    requires
        call_ensures(step, (x,), r),
    ensures
        r == (x * 6_364_136_223_846_793_005 + 1_442_695_040_888_963_407) % 0x1_0000_0000_0000_0000,
{
}

/// A packet that is sent is lost or on its way, never both: lost, it counts as such
/// and nothing changes on the way; else it joins those on the way under its number,
/// and is due after the link's delay and, at most, its jitter. A link without loss
/// loses nothing, and one that loses everything delivers nothing. A packet that is
/// on its way stays on it.
#[verifier::rlimit(50)]
pub proof fn a_sent_packet_is_lost_or_on_its_way(seq: u64, packet: Vec<u8>, now: u64)
    ensures
        forall|net: &mut NetSim|
            {
                &&& #[trigger] call_ensures(NetSim::send, (net, seq, packet, now), ())
                &&& (*net)@.inv()
                &&& (*net)@.jitter_us < 0x20_0000_0000_0000
                &&& now + (*net)@.base_delay_us + (*net)@.jitter_us <= u64::MAX
            } ==> {
                let (before, after) = ((*net)@, final(net)@);
                let lost = after.dropped == before.dropped + 1;
                &&& after.sent == before.sent + 1
                &&& lost || after.dropped == before.dropped
                &&& before.loss == 0 ==> !lost
                &&& before.loss >= 0x20_0000_0000_0000 ==> lost
                &&& after.delivered == before.delivered && after.reordered == before.reordered
                &&& after.last == before.last && after.loss == before.loss
                &&& lost ==> after.queue == before.queue
                &&& !lost ==> exists|f: Flight|
                    {
                        &&& final(net)@.queue.to_multiset()
                            == #[trigger] (*net)@.queue.to_multiset().insert(f)
                        &&& f.seq == seq && f.packet == packet@
                        &&& now + before.base_delay_us <= f.deliver_at_us <= now
                            + before.base_delay_us + before.jitter_us
                    }
            },
{
    assert forall|net: &mut NetSim|
        {
            &&& #[trigger] call_ensures(NetSim::send, (net, seq, packet, now), ())
            &&& (*net)@.inv()
            &&& (*net)@.jitter_us < 0x20_0000_0000_0000
            &&& now + (*net)@.base_delay_us + (*net)@.jitter_us <= u64::MAX
        } implies {
        let (before, after) = ((*net)@, final(net)@);
        let lost = after.dropped == before.dropped + 1;
        &&& after.sent == before.sent + 1
        &&& lost || after.dropped == before.dropped
        &&& before.loss == 0 ==> !lost
        &&& before.loss >= 0x20_0000_0000_0000 ==> lost
        &&& after.delivered == before.delivered && after.reordered == before.reordered
        &&& after.last == before.last && after.loss == before.loss
        &&& lost ==> after.queue == before.queue
        &&& !lost ==> exists|f: Flight|
            {
                &&& final(net)@.queue.to_multiset() == #[trigger] (
                *net)@.queue.to_multiset().insert(f)
                &&& f.seq == seq && f.packet == packet@
                &&& now + before.base_delay_us <= f.deliver_at_us <= now + before.base_delay_us
                    + before.jitter_us
            }
    } by {
        let (before, after) = ((*net)@, final(net)@);
        if before.loses_next() {
            crate::engine::netsim::the_order_of_arrival_is_unique(before.queue, after.queue);
        } else {
            let f = before.next_flight(seq, packet@, now);
            let first = crate::engine::lcg::successor(before.rng);
            let second = crate::engine::lcg::successor(first);
            crate::engine::netsim::extra_delay_is_bounded(
                crate::engine::netsim::draw(second),
                before.jitter_us,
            );
            assert(after.queue.to_multiset() == before.queue.to_multiset().insert(f));
        }
    }
}

proof fn lemma_overtaken(last: Option<u64>, packets: Seq<Flight>)
    ensures
        ({
            let (n, top) = crate::engine::netsim::overtaken(last, packets);
            &&& n <= packets.len()
            &&& packets.len() == 0 ==> top == last
            &&& packets.len() > 0 || last is Some ==> top is Some
            &&& last is Some ==> last->0 <= top->0
            &&& forall|i: int| 0 <= i < packets.len() ==> (#[trigger] packets[i]).seq <= top->0
            &&& top is Some && top != last ==> exists|i: int|
                0 <= i < packets.len() && (#[trigger] packets[i]).seq == top->0
            &&& (forall|i: int, j: int|
                0 <= i < j < packets.len() ==> (#[trigger] packets[i]).seq <= (
                #[trigger] packets[j]).seq) && (last is Some && packets.len() > 0 ==> last->0
                <= packets[0].seq) ==> n == 0
            &&& (exists|i: int|
                0 <= i < packets.len() && last is Some && (#[trigger] packets[i]).seq < last->0)
                ==> n > 0
        }),
    decreases packets.len(),
{
    if packets.len() > 0 {
        let less = packets.drop_last();
        lemma_overtaken(last, less);
        let (n, before) = crate::engine::netsim::overtaken(last, less);
        let (m, top) = crate::engine::netsim::overtaken(last, packets);
        assert forall|i: int| 0 <= i < packets.len() implies (#[trigger] packets[i]).seq
            <= top->0 by {
            if i < less.len() {
                assert(less[i] == packets[i]);
            }
        }
        if top is Some && top != last {
            if top == before && before != last {
                let i = choose|i: int| 0 <= i < less.len() && (#[trigger] less[i]).seq == before->0;
                assert(packets[i].seq == top->0);
            } else {
                assert(packets[packets.len() - 1].seq == top->0);
            }
        }
        if (forall|i: int, j: int|
            0 <= i < j < packets.len() ==> (#[trigger] packets[i]).seq <= (#[trigger] packets[j]).seq)
            && (last is Some ==> last->0 <= packets[0].seq) {
            assert forall|i: int, j: int| 0 <= i < j < less.len() implies (#[trigger] less[i]).seq
                <= (#[trigger] less[j]).seq by {
                assert(packets[i].seq <= packets[j].seq);
            }
            if less.len() > 0 {
                assert(less[0] == packets[0]);
                if before != last {
                    let i = choose|i: int|
                        0 <= i < less.len() && (#[trigger] less[i]).seq == before->0;
                    assert(packets[i].seq <= packets[packets.len() - 1].seq);
                } else {
                    assert(packets[0].seq <= packets[packets.len() - 1].seq);
                }
            }
        }
        if exists|i: int|
            0 <= i < packets.len() && last is Some && (#[trigger] packets[i]).seq < last->0 {
            let i = choose|i: int|
                0 <= i < packets.len() && last is Some && (#[trigger] packets[i]).seq < last->0;
            if i < less.len() {
                assert(less[i].seq < last->0);
            }
        }
    }
}

/// Chance on the link comes from the generator alone: a packet is lost where the first
/// draw, cut to 53 bits, is below the link's loss; else it is late by the share of the
/// jitter that the second draw gives. The seed alone settles where the draws begin.
#[verifier::rlimit(50)]
pub proof fn chance_on_the_link_is_drawn(seq: u64, packet: Vec<u8>, now: u64, seed: u64)
    ensures
        forall|net: &mut NetSim|
            {
                &&& #[trigger] call_ensures(NetSim::send, (net, seq, packet, now), ())
                &&& (*net)@.inv()
                &&& (*net)@.jitter_us < 0x20_0000_0000_0000
                &&& now + (*net)@.base_delay_us + (*net)@.jitter_us <= u64::MAX
            } ==> {
                let (before, after) = ((*net)@, final(net)@);
                let first = drawn_after(before.rng);
                let second = drawn_after(first);
                let lost = first / 2048 < before.loss;
                &&& after.dropped == before.dropped + if lost {
                    1nat
                } else {
                    0
                }
                &&& after.rng == if lost || before.jitter_us == 0 {
                    first
                } else {
                    second
                }
                &&& !lost ==> exists|f: Flight|
                    {
                        let due = now + before.base_delay_us;
                        let share = (second / 2048) * before.jitter_us;
                        &&& final(net)@.queue.to_multiset()
                            == #[trigger] (*net)@.queue.to_multiset().insert(f)
                        &&& before.jitter_us == 0 ==> f.deliver_at_us == due
                        &&& share - 0x40_0000_0000_0000 < (f.deliver_at_us - due)
                            * 0x20_0000_0000_0000 <= share + 0x20_0000_0000_0000
                    }
            },
        forall|loss: u64, delay: u64, jitter: u64, net: NetSim| #[trigger]
            call_ensures(NetSim::new, (seed, loss, delay, jitter), net) ==> net@.rng == (seed
                * 2_862_933_555_777_941_757 + 3_037_000_493) % 0x1_0000_0000_0000_0000,
{
    assert forall|net: &mut NetSim|
        {
            &&& #[trigger] call_ensures(NetSim::send, (net, seq, packet, now), ())
            &&& (*net)@.inv()
            &&& (*net)@.jitter_us < 0x20_0000_0000_0000
            &&& now + (*net)@.base_delay_us + (*net)@.jitter_us <= u64::MAX
            &&& !(drawn_after((*net)@.rng) / 2048 < (*net)@.loss)
        } implies exists|f: Flight|
        {
            let before = (*net)@;
            let second = drawn_after(drawn_after(before.rng));
            let due = now + before.base_delay_us;
            let share = (second / 2048) * before.jitter_us;
            &&& final(net)@.queue.to_multiset() == #[trigger] (*net)@.queue.to_multiset().insert(f)
            &&& before.jitter_us == 0 ==> f.deliver_at_us == due
            &&& share - 0x40_0000_0000_0000 < (f.deliver_at_us - due) * 0x20_0000_0000_0000 <= share
                + 0x20_0000_0000_0000
        } by {
        let before = (*net)@;
        let f = before.next_flight(seq, packet@, now);
        let second = drawn_after(drawn_after(before.rng));
        let d = crate::engine::netsim::draw(second);
        crate::engine::netsim::extra_delay_is_bounded(d, before.jitter_us);
        crate::engine::netsim::extra_delay_is_the_drawn_share(d, before.jitter_us);
        assert(final(net)@.queue.to_multiset() == (*net)@.queue.to_multiset().insert(f));
    }
}

/// The number that the generator draws after another.
pub open spec fn drawn_after(x: u64) -> u64 {
    ((x * 6_364_136_223_846_793_005 + 1_442_695_040_888_963_407) % 0x1_0000_0000_0000_0000) as u64
}

/// What is on its way stands in the order in which it is due, and at the same time by
/// its number; what comes out comes from the front.
pub proof fn packets_come_out_when_they_are_due(now: u64, out: Vec<(u64, Vec<u8>)>, i: int, j: int)
    ensures
        forall|net: &mut NetSim|
            {
                &&& #[trigger] call_ensures(NetSim::poll, (net, now), out)
                &&& (*net)@.inv()
                &&& 0 <= i < j < (*net)@.queue.len()
            } ==> {
                let (x, y) = ((*net)@.queue[i], (*net)@.queue[j]);
                &&& x.deliver_at_us <= y.deliver_at_us
                &&& x.deliver_at_us == y.deliver_at_us ==> x.seq <= y.seq
                &&& j < out@.len() ==> out@[i].0 == x.seq && out@[j].0 == y.seq
            },
{
    assert forall|net: &mut NetSim|
        {
            &&& #[trigger] call_ensures(NetSim::poll, (net, now), out)
            &&& (*net)@.inv()
            &&& 0 <= i < j < (*net)@.queue.len()
        } implies {
        let (x, y) = ((*net)@.queue[i], (*net)@.queue[j]);
        &&& x.deliver_at_us <= y.deliver_at_us
        &&& x.deliver_at_us == y.deliver_at_us ==> x.seq <= y.seq
        &&& j < out@.len() ==> out@[i].0 == x.seq && out@[j].0 == y.seq
    } by {
        assert((*net)@.queue[i].le((*net)@.queue[j]));
        crate::engine::netsim::what_is_due_arrives((*net)@.queue, now);
    }
}

/// What is due comes out, and nothing else: everything that comes out was due, in the
/// order in which it was on its way; what stays is due later. What comes out counts as
/// delivered. Packets that come out in the order of their numbers are not reordered;
/// one that comes after a higher number is.
#[verifier::rlimit(50)]
pub proof fn what_is_due_comes_out(now: u64, out: Vec<(u64, Vec<u8>)>)
    ensures
        forall|net: &mut NetSim|
            {
                &&& #[trigger] call_ensures(NetSim::poll, (net, now), out)
                &&& (*net)@.inv()
            } ==> {
                let (before, after) = ((*net)@, final(net)@);
                let n = out@.len();
                &&& n <= before.queue.len()
                &&& after.queue == before.queue.skip(n as int)
                &&& forall|i: int|
                    0 <= i < n ==> {
                        &&& (#[trigger] out@[i]).0 == before.queue[i].seq
                        &&& out@[i].1@ == before.queue[i].packet
                        &&& before.queue[i].deliver_at_us <= now
                    }
                &&& forall|i: int|
                    0 <= i < after.queue.len() ==> (#[trigger] after.queue[i]).deliver_at_us > now
                &&& after.delivered == before.delivered + n
                &&& after.sent == before.sent && after.dropped == before.dropped
                &&& before.reordered <= after.reordered <= before.reordered + n
                &&& (forall|i: int, j: int|
                    0 <= i < j < n ==> (#[trigger] out@[i]).0 <= (#[trigger] out@[j]).0) && (
                before.last is Some && n > 0 ==> before.last->0 <= out@[0].0) ==> after.reordered
                    == before.reordered
                &&& (exists|i: int|
                    0 <= i < n && before.last is Some && (#[trigger] out@[i]).0 < before.last->0)
                    ==> after.reordered > before.reordered
                &&& forall|i: int| 0 <= i < n ==> after.last is Some && (#[trigger] out@[i]).0
                    <= after.last->0
            },
{
    assert forall|net: &mut NetSim|
        {
            &&& #[trigger] call_ensures(NetSim::poll, (net, now), out)
            &&& (*net)@.inv()
        } implies {
        let (before, after) = ((*net)@, final(net)@);
        let n = out@.len();
        &&& n <= before.queue.len()
        &&& after.queue == before.queue.skip(n as int)
        &&& forall|i: int|
            0 <= i < n ==> {
                &&& (#[trigger] out@[i]).0 == before.queue[i].seq
                &&& out@[i].1@ == before.queue[i].packet
                &&& before.queue[i].deliver_at_us <= now
            }
        &&& forall|i: int|
            0 <= i < after.queue.len() ==> (#[trigger] after.queue[i]).deliver_at_us > now
        &&& after.delivered == before.delivered + n
        &&& after.sent == before.sent && after.dropped == before.dropped
        &&& before.reordered <= after.reordered <= before.reordered + n
        &&& (forall|i: int, j: int|
            0 <= i < j < n ==> (#[trigger] out@[i]).0 <= (#[trigger] out@[j]).0) && (
        before.last is Some && n > 0 ==> before.last->0 <= out@[0].0) ==> after.reordered
            == before.reordered
        &&& (exists|i: int|
            0 <= i < n && before.last is Some && (#[trigger] out@[i]).0 < before.last->0)
            ==> after.reordered > before.reordered
        &&& forall|i: int| 0 <= i < n ==> after.last is Some && (#[trigger] out@[i]).0
            <= after.last->0
    } by {
        let (before, after) = ((*net)@, final(net)@);
        let n = out@.len() as int;
        crate::engine::netsim::what_is_due_arrives(before.queue, now);
        let came = before.queue.take(n);
        lemma_overtaken(before.last, came);
        assert forall|i: int| 0 <= i < n implies (#[trigger] out@[i]).0 == came[i].seq && came[i]
            == before.queue[i] by {}
        assert forall|i: int| 0 <= i < after.queue.len() implies (
        #[trigger] after.queue[i]).deliver_at_us > now by {
            assert(after.queue[i] == before.queue[n + i]);
            assert(before.queue[n + i].deliver_at_us > now);
        }
        if forall|i: int, j: int|
            0 <= i < j < n ==> (#[trigger] out@[i]).0 <= (#[trigger] out@[j]).0 {
            assert forall|i: int, j: int| 0 <= i < j < came.len() implies (#[trigger] came[i]).seq
                <= (#[trigger] came[j]).seq by {
                assert(out@[i].0 <= out@[j].0);
            }
            if n > 0 {
                assert(out@[0].0 == came[0].seq);
            }
        }
        if exists|i: int|
            0 <= i < n && before.last is Some && (#[trigger] out@[i]).0 < before.last->0 {
            let i = choose|i: int|
                0 <= i < n && before.last is Some && (#[trigger] out@[i]).0 < before.last->0;
            assert(came[i].seq < before.last->0);
        }
        assert forall|i: int| 0 <= i < n implies after.last is Some && (#[trigger] out@[i]).0
            <= after.last->0 by {
            assert(came[i].seq == out@[i].0);
        }
    }
}

/// A new link carries nothing and has counted nothing; a perfect one neither loses nor
/// jitters. What a link says of itself is what it has counted.
pub proof fn a_new_link_is_empty(
    seed: u64,
    loss: u64,
    delay: u64,
    jitter: u64,
    net: NetSim,
    perfect: NetSim,
)
    requires
        call_ensures(NetSim::new, (seed, loss, delay, jitter), net),
        call_ensures(NetSim::perfect, (delay,), perfect),
    ensures
        net@.loss == loss && net@.base_delay_us == delay && net@.jitter_us == jitter,
        net@.queue.len() == 0 && net@.sent == 0 && net@.dropped == 0 && net@.delivered == 0,
        net@.reordered == 0 && net@.last is None,
        perfect@.loss == 0 && perfect@.jitter_us == 0 && perfect@.base_delay_us == delay,
        perfect@.queue.len() == 0 && perfect@.sent == 0 && perfect@.dropped == 0,
        perfect@.delivered == 0 && perfect@.reordered == 0 && perfect@.last is None,
        forall|n: usize| #[trigger]
            call_ensures(NetSim::in_flight, (&net,), n) ==> n == net@.queue.len(),
        forall|n: u64| #[trigger] call_ensures(NetSim::sent, (&net,), n) ==> n == net@.sent,
        forall|n: u64| #[trigger] call_ensures(NetSim::dropped, (&net,), n) ==> n == net@.dropped,
        forall|n: u64| #[trigger]
            call_ensures(NetSim::delivered, (&net,), n) ==> n == net@.delivered,
        forall|n: u64| #[trigger]
            call_ensures(NetSim::reordered, (&net,), n) ==> n == net@.reordered,
{
}

/// The loss that the encoder prepares for is the reported one, but no more than
/// thirty percent; it is set anew only where it changes.
pub proof fn the_encoder_prepares_for_the_reported_loss(pct: i64, r: Option<u8>, e: ExpectedLoss)
    requires
        call_ensures(ExpectedLoss::new, (), e),
    ensures
        e.pct == 5,
        forall|n: u8| #[trigger] call_ensures(ExpectedLoss::expected_loss, (&e,), n) ==> n == e.pct,
        forall|x: &mut ExpectedLoss| #[trigger]
            call_ensures(ExpectedLoss::set_expected_loss, (x, pct), r) ==> {
                &&& 0 <= pct <= 30 ==> final(x).pct == pct
                &&& pct < 0 ==> final(x).pct == 0
                &&& pct > 30 ==> final(x).pct == 30
                &&& final(x).pct == (*x).pct ==> r is None
                &&& final(x).pct != (*x).pct ==> r == Some(final(x).pct)
            },
{
}

/// A packet is decoded; the packet after a missing one rebuilds it; what is lost is
/// concealed; and while the buffer fills, the decoder waits.
pub proof fn the_decoder_does_what_the_buffer_gives(popped: Pop, r: DecodeStep)
    requires
        call_ensures(DecodeStep::of, (popped,), r),
    ensures
        popped matches Pop::Packet(p) ==> (r matches DecodeStep::Decode(q) && q@ == p@),
        popped matches Pop::LostRecoverable(p) ==> (r matches DecodeStep::DecodeFec(q) && q@ == p@),
        popped is Lost ==> r is Conceal,
        popped is Filling ==> r is Wait,
{
}

/// A frame is 480 samples of silence until it is decoded into.
pub proof fn a_frame_starts_silent(r: Vec<i16>)
    requires
        call_ensures(frame_buffer, (), r),
    ensures
        r@.len() == 480,
        forall|i: int| 0 <= i < r@.len() ==> #[trigger] r@[i] == 0,
{
}

/// Two rates that are the same need no conversion, and no others do without.
pub proof fn only_equal_rates_need_no_conversion(from_rate: u32, to_rate: u32, r: bool)
    requires
        call_ensures(is_identity, (from_rate, to_rate), r),
    ensures
        r <==> from_rate == to_rate,
{
}

} // verus!
