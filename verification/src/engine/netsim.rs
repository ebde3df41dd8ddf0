//! Deterministic network impairment, for driving the engine in tests.
//!
//! `tc netem` is the real instrument, but it needs two machines and a Linux
//! kernel. This gives the same three defects (loss, variable delay, and the
//! reordering that variable delay produces on its own) from a seeded
//! generator, so a failure is reproducible and an eight-hour run takes seconds.
use vstd::prelude::*;

use crate::engine::lcg::{affine_step, step};

verus! {

/// Two to the 53rd: the draws are whole multiples of one part in so many.
pub const PARTS: u64 = 0x20_0000_0000_0000;

/// A draw: the upper 53 bits of a generator state.
pub open spec fn draw(state: u64) -> u64 {
    state / 2048
}

/// The spacing of numbers with 53 significant bits around `p`.
pub open spec fn spacing(p: nat) -> nat
    decreases p,
{
    if p < PARTS {
        1
    } else {
        2 * spacing(p / 2)
    }
}

/// `p` rounded to 53 significant bits, to the nearest, ties to the even one.
pub open spec fn rounded(p: nat) -> nat {
    let u = spacing(p);
    let q = p / u;
    let r = p % u;
    if 2 * r < u || (2 * r == u && q % 2 == 0) {
        q * u
    } else {
        (q + 1) * u
    }
}

/// The extra delay that a draw gives under a jitter bound: the draw's share of
/// the bound, computed in double precision and cut to whole microseconds.
pub open spec fn extra_delay(draw: u64, jitter_us: u64) -> nat {
    if jitter_us == 0 {
        0
    } else {
        let exact = rounded(draw as nat * rounded(jitter_us as nat)) / PARTS as nat;
        if exact > u64::MAX {
            u64::MAX as nat
        } else {
            exact
        }
    }
}

proof fn lemma_spacing(p: nat)
    ensures
        spacing(p) >= 1,
        p >= PARTS ==> spacing(p) * 0x10_0000_0000_0000 <= p,
        spacing(p) <= p || p < PARTS,
    decreases p,
{
    if p >= PARTS {
        lemma_spacing(p / 2);
    }
}

/// The extra delay never exceeds the jitter bound (the bound in double
/// precision, where it has more than 53 significant bits).
pub proof fn extra_delay_is_bounded(draw: u64, jitter_us: u64)
    requires
        draw < PARTS,
    ensures
        extra_delay(draw, jitter_us) <= rounded(jitter_us as nat),
        jitter_us < PARTS ==> rounded(jitter_us as nat) == jitter_us,
{
    let j = rounded(jitter_us as nat);
    if jitter_us < PARTS {
        assert(spacing(jitter_us as nat) == 1);
        assert(j == (jitter_us as nat / 1) * 1);
    }
    let p = draw as nat * j;
    lemma_spacing(p);
    let u = spacing(p);
    let (q, r) = (p / u, p % u);
    assert(p == q * u + r && r < u) by {
        vstd::arithmetic::div_mod::lemma_fundamental_div_mod(p as int, u as int);
        assert(u * q == q * u) by (nonlinear_arith);
    }
    assert((q + 1) * u == q * u + u) by (nonlinear_arith);
    assert(p + j <= PARTS * j) by (nonlinear_arith)
        requires
            p == draw as nat * j,
            draw + 1 <= PARTS,
    ;
    if p >= PARTS {
        assert(rounded(p) <= PARTS * j);
    } else {
        assert(rounded(p) == p);
    }
    assert(rounded(p) / PARTS as nat <= j) by {
        vstd::arithmetic::div_mod::lemma_div_is_ordered(
            rounded(p) as int,
            (PARTS * j) as int,
            PARTS as int,
        );
        vstd::arithmetic::div_mod::lemma_div_multiples_vanish(j as int, PARTS as int);
    }
}

/// The extra delay is the drawn share of the jitter bound, to the nearest
/// microsecond or two that double precision leaves.
pub proof fn extra_delay_is_the_drawn_share(draw: u64, jitter_us: u64)
    requires
        draw < PARTS,
        jitter_us < PARTS,
    ensures
        draw * jitter_us - 2 * PARTS < extra_delay(draw, jitter_us) * PARTS <= draw * jitter_us
            + PARTS,
{
    extra_delay_is_bounded(draw, jitter_us);
    let d = draw as nat;
    let j = jitter_us as nat;
    if j > 0 {
        let p = d * j;
        lemma_spacing(p);
        let u = spacing(p);
        let (q, r) = (p / u, p % u);
        assert(p == q * u + r && r < u) by {
            vstd::arithmetic::div_mod::lemma_fundamental_div_mod(p as int, u as int);
            assert(u * q == q * u) by (nonlinear_arith);
        }
        assert((q + 1) * u == q * u + u) by (nonlinear_arith);
        assert(p <= PARTS * PARTS) by (nonlinear_arith)
            requires
                p == d * j,
                d <= PARTS,
                j <= PARTS,
        ;
        if p >= PARTS {
            assert(u * 0x10_0000_0000_0000 <= PARTS * PARTS);
            assert(u <= 2 * PARTS) by (nonlinear_arith)
                requires
                    u * 0x10_0000_0000_0000 <= PARTS * PARTS,
                    PARTS == 0x20_0000_0000_0000u64,
            ;
        } else {
            assert(rounded(p) == p);
        }
        let x = rounded(p);
        assert(p - PARTS <= x <= p + PARTS);
        let e = x / PARTS as nat;
        vstd::arithmetic::div_mod::lemma_fundamental_div_mod(x as int, PARTS as int);
        assert(x == e * PARTS + x % PARTS as nat) by {
            assert(PARTS as int * (x as int / PARTS as int) == e * PARTS) by (nonlinear_arith)
                requires
                    e == x as int / PARTS as int,
            ;
        }
        assert(e <= j);
    } else {
        assert(draw * jitter_us == 0) by (nonlinear_arith)
            requires
                jitter_us == 0,
        ;
    }
}

/// Rounds to 53 significant bits.
fn round(p: u128) -> (r: u128)
    requires
        p <= 0x4000_0000_0000_0000_0000_0000_0000_0000,
    ensures
        r == rounded(p as nat),
{
    let mut u: u128 = 1;
    let mut t: u128 = p;
    while t >= PARTS as u128
        invariant
            u >= 1,
            u * t <= p,
            p <= 0x4000_0000_0000_0000_0000_0000_0000_0000,
            spacing(p as nat) == u * spacing(t as nat),
        decreases t,
    {
        assert(2 * u <= p && 2 * u * (t / 2) <= p) by (nonlinear_arith)
            requires
                u * t <= p,
                u >= 1,
                t >= 2,
        ;
        assert(u * (2 * spacing((t / 2) as nat)) == (2 * u) * spacing((t / 2) as nat))
            by (nonlinear_arith);
        t = t / 2;
        u = 2 * u;
    }
    assert(u * 1 == u);
    let q: u128 = p / u;
    let r: u128 = p % u;
    proof {
        vstd::arithmetic::div_mod::lemma_fundamental_div_mod(p as int, u as int);
        assert(u * q == q * u) by (nonlinear_arith);
        assert((q + 1) * u == q * u + u) by (nonlinear_arith);
        lemma_spacing(p as nat);
    }
    if 2 * r < u || (2 * r == u && q % 2 == 0) {
        q * u
    } else {
        (q + 1) * u
    }
}

/// A packet on its way.
pub struct Flight {
    pub deliver_at_us: u64,
    pub seq: u64,
    pub packet: Seq<u8>,
}

/// One run of bytes does not come after another in dictionary order.
pub open spec fn bytes_le(a: Seq<u8>, b: Seq<u8>) -> bool
    decreases a.len(),
{
    if a.len() == 0 {
        true
    } else if b.len() == 0 {
        false
    } else {
        a[0] < b[0] || (a[0] == b[0] && bytes_le(a.drop_first(), b.drop_first()))
    }
}

impl Flight {
    /// This packet does not arrive after the other: the time decides, then the
    /// number, then the bytes.
    pub open spec fn le(self, other: Flight) -> bool {
        self.deliver_at_us < other.deliver_at_us || (self.deliver_at_us == other.deliver_at_us && (
        self.seq < other.seq || (self.seq == other.seq && bytes_le(self.packet, other.packet))))
    }
}

/// Packets in the order of their arrival.
pub open spec fn in_order(s: Seq<Flight>) -> bool {
    forall|i: int, j: int| 0 <= i < j < s.len() ==> s[i].le(s[j])
}

proof fn lemma_bytes_le_total(a: Seq<u8>, b: Seq<u8>)
    ensures
        bytes_le(a, b) || bytes_le(b, a),
    decreases a.len(),
{
    if a.len() > 0 && b.len() > 0 && a[0] == b[0] {
        lemma_bytes_le_total(a.drop_first(), b.drop_first());
    }
}

proof fn lemma_bytes_le_trans(a: Seq<u8>, b: Seq<u8>, c: Seq<u8>)
    requires
        bytes_le(a, b),
        bytes_le(b, c),
    ensures
        bytes_le(a, c),
    decreases a.len(),
{
    if a.len() > 0 && b.len() > 0 && c.len() > 0 && a[0] == b[0] && b[0] == c[0] {
        lemma_bytes_le_trans(a.drop_first(), b.drop_first(), c.drop_first());
    }
}

proof fn lemma_bytes_le_antisymmetric(a: Seq<u8>, b: Seq<u8>)
    requires
        bytes_le(a, b),
        bytes_le(b, a),
    ensures
        a == b,
    decreases a.len(),
{
    if a.len() > 0 && b.len() > 0 {
        lemma_bytes_le_antisymmetric(a.drop_first(), b.drop_first());
        assert(a =~= seq![a[0]] + a.drop_first());
        assert(b =~= seq![b[0]] + b.drop_first());
    } else {
        assert(a =~= b);
    }
}

proof fn lemma_le_total(a: Flight, b: Flight)
    ensures
        a.le(b) || b.le(a),
{
    lemma_bytes_le_total(a.packet, b.packet);
}

proof fn lemma_le_trans(a: Flight, b: Flight, c: Flight)
    requires
        a.le(b),
        b.le(c),
    ensures
        a.le(c),
{
    if bytes_le(a.packet, b.packet) && bytes_le(b.packet, c.packet) {
        lemma_bytes_le_trans(a.packet, b.packet, c.packet);
    }
}

#[derive(Debug)]
struct Queued {
    deliver_at_us: u64,
    seq: u64,
    packet: Vec<u8>,
}

impl View for Queued {
    type V = Flight;

    closed spec fn view(&self) -> Flight {
        Flight { deliver_at_us: self.deliver_at_us, seq: self.seq, packet: self.packet@ }
    }
}

fn bytes_not_after(a: &Vec<u8>, b: &Vec<u8>) -> (r: bool)
    ensures
        r == bytes_le(a@, b@),
{
    let mut i: usize = 0;
    assert(a@.skip(0) == a@ && b@.skip(0) == b@);
    while i < a.len()
        invariant
            i <= a@.len(),
            i <= b@.len(),
            bytes_le(a@, b@) == bytes_le(a@.skip(i as int), b@.skip(i as int)),
        decreases a@.len() - i,
    {
        if i >= b.len() {
            return false;
        }
        if a[i] != b[i] {
            return a[i] < b[i];
        }
        assert(a@.skip(i as int).drop_first() == a@.skip(i + 1));
        assert(b@.skip(i as int).drop_first() == b@.skip(i + 1));
        i += 1;
    }
    true
}

fn not_after(a: &Queued, b: &Queued) -> (r: bool)
    ensures
        r == a@.le(b@),
{
    if a.deliver_at_us != b.deliver_at_us {
        a.deliver_at_us < b.deliver_at_us
    } else if a.seq != b.seq {
        a.seq < b.seq
    } else {
        bytes_not_after(&a.packet, &b.packet)
    }
}

/// The state of a simulated link.
#[verifier::ext_equal]
pub struct NetView {
    /// The generator.
    pub rng: u64,
    /// A draw below this loses the packet.
    pub loss: u64,
    pub base_delay_us: u64,
    pub jitter_us: u64,
    /// What is on its way, in the order of arrival.
    pub queue: Seq<Flight>,
    pub sent: nat,
    pub dropped: nat,
    pub delivered: nat,
    pub reordered: nat,
    /// The highest number delivered so far.
    pub last: Option<u64>,
}

/// How many of the packets arrive after one with a higher number, when the
/// highest number so far is `last`; and the highest number then.
pub open spec fn overtaken(last: Option<u64>, packets: Seq<Flight>) -> (nat, Option<u64>)
    decreases packets.len(),
{
    if packets.len() == 0 {
        (0, last)
    } else {
        let (n, before) = overtaken(last, packets.drop_last());
        let seq = packets.last().seq;
        match before {
            None => (n, Some(seq)),
            Some(l) => if seq < l {
                (n + 1, Some(l))
            } else {
                (n, Some(seq))
            },
        }
    }
}

/// How many packets at the front of the queue have arrived by `now_us`.
pub open spec fn arrived(queue: Seq<Flight>, now_us: u64) -> nat
    decreases queue.len(),
{
    if queue.len() == 0 || queue[0].deliver_at_us > now_us {
        0
    } else {
        1 + arrived(queue.drop_first(), now_us)
    }
}

impl NetView {
    /// Every packet sent was dropped or delivered or is on its way.
    pub open spec fn inv(self) -> bool {
        &&& in_order(self.queue)
        &&& self.sent == self.dropped + self.delivered + self.queue.len()
        &&& self.reordered <= self.delivered
    }

    /// Whether the next packet sent is lost.
    pub open spec fn loses_next(self) -> bool {
        draw(crate::engine::lcg::successor(self.rng)) < self.loss
    }

    /// The state of the generator after the next packet was sent.
    pub open spec fn next_rng(self) -> u64 {
        let first = crate::engine::lcg::successor(self.rng);
        if self.loses_next() || self.jitter_us == 0 {
            first
        } else {
            crate::engine::lcg::successor(first)
        }
    }

    /// The next packet sent, on its way.
    pub open spec fn next_flight(self, seq: u64, packet: Seq<u8>, now_us: u64) -> Flight {
        let first = crate::engine::lcg::successor(self.rng);
        let extra = extra_delay(draw(crate::engine::lcg::successor(first)), self.jitter_us);
        Flight { deliver_at_us: (now_us + self.base_delay_us + extra) as u64, seq, packet }
    }
}

#[derive(Debug)]
pub struct NetSim {
    rng: u64,
    loss: u64,
    base_delay_us: u64,
    jitter_us: u64,
    queue: Vec<Queued>,
    pub sent: u64,
    pub dropped: u64,
    pub delivered: u64,
    pub reordered: u64,
    last_delivered_seq: Option<u64>,
}

impl View for NetSim {
    type V = NetView;

    closed spec fn view(&self) -> NetView {
        NetView {
            rng: self.rng,
            loss: self.loss,
            base_delay_us: self.base_delay_us,
            jitter_us: self.jitter_us,
            queue: self.queue@.map_values(|q: Queued| q@),
            sent: self.sent as nat,
            dropped: self.dropped as nat,
            delivered: self.delivered as nat,
            reordered: self.reordered as nat,
            last: self.last_delivered_seq,
        }
    }
}

impl NetSim {
    /// A link that loses a packet when a draw of 53 bits is below `loss`, delays
    /// every other by `base_delay_us`, and by up to `jitter_us` on top.
    pub fn new(seed: u64, loss: u64, base_delay_us: u64, jitter_us: u64) -> (r: Self)
        ensures
            r@.inv(),
            r@ == (NetView {
                rng: crate::engine::lcg::affine(
                    seed,
                    2_862_933_555_777_941_757,
                    3_037_000_493,
                ),
                loss,
                base_delay_us,
                jitter_us,
                queue: Seq::empty(),
                sent: 0,
                dropped: 0,
                delivered: 0,
                reordered: 0,
                last: None,
            }),
    {
        let r = NetSim {
            rng: affine_step(seed, 2_862_933_555_777_941_757, 3_037_000_493),
            loss,
            base_delay_us,
            jitter_us,
            queue: Vec::new(),
            sent: 0,
            dropped: 0,
            delivered: 0,
            reordered: 0,
            last_delivered_seq: None,
        };
        assert(r@.queue =~= Seq::empty());
        r
    }

    /// A perfect link: no loss, no jitter, fixed delay.
    pub fn perfect(base_delay_us: u64) -> (r: Self)
        ensures
            r@.inv(),
            r@.loss == 0,
            r@.jitter_us == 0,
            r@.base_delay_us == base_delay_us,
            r@.queue == Seq::<Flight>::empty(),
            r@.rng == crate::engine::lcg::affine(1, 2_862_933_555_777_941_757, 3_037_000_493),
            r@.sent == 0 && r@.dropped == 0 && r@.delivered == 0 && r@.reordered == 0,
            r@.last is None,
    {
        Self::new(1, 0, base_delay_us, 0)
    }

    pub fn send(&mut self, seq: u64, packet: Vec<u8>, now_us: u64)
        requires
            old(self)@.inv(),
            old(self)@.sent < u64::MAX,
            now_us + old(self)@.base_delay_us + rounded(old(self)@.jitter_us as nat) <= u64::MAX,
        ensures
            final(self)@.inv(),
            final(self)@ == (NetView {
                rng: old(self)@.next_rng(),
                sent: old(self)@.sent + 1,
                dropped: old(self)@.dropped + if old(self)@.loses_next() {
                    1nat
                } else {
                    0
                },
                queue: final(self)@.queue,
                ..old(self)@
            }),
            in_order(final(self)@.queue),
            final(self)@.queue.to_multiset() == if old(self)@.loses_next() {
                old(self)@.queue.to_multiset()
            } else {
                old(self)@.queue.to_multiset().insert(
                    old(self)@.next_flight(seq, packet@, now_us),
                )
            },
    {
        broadcast use vstd::seq_lib::group_to_multiset_ensures;

        let ghost before = self@.queue;
        self.sent += 1;
        self.rng = step(self.rng);
        if self.rng / 2048 < self.loss {
            self.dropped += 1;
            assert(self@.queue =~= before);
            return;
        }
        let ghost first = self.rng;
        proof {
            let d = draw(crate::engine::lcg::successor(first));
            extra_delay_is_bounded(d, self.jitter_us);
        }
        let extra: u64 = if self.jitter_us == 0 {
            0
        } else {
            self.rng = step(self.rng);
            share(self.rng / 2048, self.jitter_us)
        };
        let q = Queued { deliver_at_us: now_us + self.base_delay_us + extra, seq, packet };
        let ghost flight = q@;
        let mut at: usize = self.queue.len();
        assert(self@.queue =~= before);
        while at > 0 && !not_after(&self.queue[at - 1], &q)
            invariant
                at <= self.queue@.len(),
                self@.queue == before,
                in_order(before),
                q@ == flight,
                forall|j: int| at <= j < before.len() ==> !before[j].le(flight),
            decreases at,
        {
            assert(before[at - 1] == self.queue@[at - 1]@);
            at -= 1;
        }
        proof {
            assert forall|i: int| 0 <= i < at implies before[i].le(flight) by {
                assert(before[at - 1] == self.queue@[at - 1]@);
                if i < at - 1 {
                    lemma_le_trans(before[i], before[at - 1], flight);
                }
            }
            assert forall|j: int| at <= j < before.len() implies flight.le(before[j]) by {
                lemma_le_total(before[j], flight);
            }
        }
        self.queue.insert(at, q);
        assert(self@.queue =~= before.insert(at as int, flight));
        assert(in_order(self@.queue));
    }

    /// Everything whose delivery time has arrived, in the order it arrives,
    /// which is not send order whenever jitter exceeds the packet interval.
    pub fn poll(&mut self, now_us: u64) -> (out: Vec<(u64, Vec<u8>)>)
        requires
            old(self)@.inv(),
        ensures
            final(self)@.inv(),
            ({
                let n = arrived(old(self)@.queue, now_us);
                let came = old(self)@.queue.take(n as int);
                let (more, last) = overtaken(old(self)@.last, came);
                &&& out@.len() == n
                &&& forall|i: int|
                    0 <= i < n ==> (#[trigger] out@[i]).0 == came[i].seq && out@[i].1@
                        == came[i].packet
                &&& final(self)@ == (NetView {
                    queue: old(self)@.queue.skip(n as int),
                    delivered: old(self)@.delivered + n,
                    reordered: old(self)@.reordered + more,
                    last,
                    ..old(self)@
                })
            }),
    {
        let ghost queue = self@.queue;
        let mut n: usize = 0;
        let mut out: Vec<(u64, Vec<u8>)> = Vec::new();
        let mut last: Option<u64> = self.last_delivered_seq;
        let mut more: u64 = 0;
        proof {
            assert(queue.skip(0) =~= queue);
            assert(queue.take(0) =~= Seq::empty());
        }
        while n < self.queue.len() && self.queue[n].deliver_at_us <= now_us
            invariant
                n <= queue.len() == self.queue@.len(),
                self@ == old(self)@,
                self@.inv(),
                self@.queue == queue,
                arrived(queue, now_us) == n + arrived(queue.skip(n as int), now_us),
                out@.len() == n,
                forall|i: int|
                    0 <= i < n ==> (#[trigger] out@[i]).0 == queue[i].seq && out@[i].1@
                        == queue[i].packet,
                (more as nat, last) == overtaken(old(self)@.last, queue.take(n as int)),
                more <= n,
            decreases queue.len() - n,
        {
            let ghost rest = queue.skip(n as int);
            assert(rest[0] == self.queue@[n as int]@);
            assert(rest.drop_first() =~= queue.skip(n + 1));
            assert(queue.take(n + 1).drop_last() =~= queue.take(n as int));
            assert(queue.take(n + 1).last() == queue[n as int]);
            let seq: u64 = self.queue[n].seq;
            match last {
                None => {
                    last = Some(seq);
                },
                Some(l) => {
                    if seq < l {
                        more += 1;
                    } else {
                        last = Some(seq);
                    }
                },
            }
            let packet: Vec<u8> = self.queue[n].packet.clone();
            out.push((seq, packet));
            n += 1;
        }
        proof {
            let rest = queue.skip(n as int);
            if n < queue.len() {
                assert(rest[0] == self.queue@[n as int]@);
            }
            assert(arrived(rest, now_us) == 0);
        }
        let rest: Vec<Queued> = self.queue.split_off(n);
        self.queue = rest;
        self.delivered += n as u64;
        self.reordered += more;
        self.last_delivered_seq = last;
        proof {
            assert(self@.queue =~= queue.skip(n as int));
            assert forall|i: int, j: int| 0 <= i < j < self@.queue.len() implies self@.queue[i].le(
                self@.queue[j],
            ) by {
                assert(queue[i + n].le(queue[j + n]));
            }
        }
        out
    }

    /// How many packets were sent.
    pub fn sent(&self) -> (r: u64)
        ensures
            r == self@.sent,
    {
        self.sent
    }

    /// How many of them were lost.
    pub fn dropped(&self) -> (r: u64)
        ensures
            r == self@.dropped,
    {
        self.dropped
    }

    /// How many of them arrived.
    pub fn delivered(&self) -> (r: u64)
        ensures
            r == self@.delivered,
    {
        self.delivered
    }

    /// How many arrived after a later one.
    pub fn reordered(&self) -> (r: u64)
        ensures
            r == self@.reordered,
    {
        self.reordered
    }

    /// How many packets are on their way.
    pub fn in_flight(&self) -> (r: usize)
        ensures
            r == self@.queue.len(),
    {
        self.queue.len()
    }
}

/// The draw's share of the jitter bound.
fn share(draw: u64, jitter_us: u64) -> (r: u64)
    requires
        draw < PARTS,
        jitter_us > 0,
    ensures
        r == extra_delay(draw, jitter_us),
{
    let j: u128 = round(jitter_us as u128);
    proof {
        lemma_spacing(jitter_us as nat);
        let (p, u) = (jitter_us as nat, spacing(jitter_us as nat));
        vstd::arithmetic::div_mod::lemma_fundamental_div_mod(p as int, u as int);
        assert((p / u + 1) * u == u * (p / u) + u) by (nonlinear_arith);
        assert((p / u) * u == u * (p / u)) by (nonlinear_arith);
        assert(j <= 2 * p);
        assert(draw * j <= 0x20_0000_0000_0000 * 0x2_0000_0000_0000_0000) by (nonlinear_arith)
            requires
                draw <= 0x20_0000_0000_0000,
                j <= 0x2_0000_0000_0000_0000,
        ;
    }
    let exact: u128 = round(draw as u128 * j) / PARTS as u128;
    if exact > u64::MAX as u128 {
        u64::MAX
    } else {
        exact as u64
    }
}

/// A perfect link loses nothing and delivers a packet exactly the fixed delay
/// after it was sent.
pub proof fn a_perfect_link_only_delays(v: NetView, seq: u64, packet: Seq<u8>, now_us: u64)
    requires
        v.loss == 0,
        v.jitter_us == 0,
        now_us + v.base_delay_us <= u64::MAX,
    ensures
        !v.loses_next(),
        v.next_flight(seq, packet, now_us).deliver_at_us == now_us + v.base_delay_us,
{
}

/// What arrives by a time is exactly what is due by then.
pub proof fn what_is_due_arrives(queue: Seq<Flight>, now_us: u64)
    requires
        in_order(queue),
    ensures
        arrived(queue, now_us) <= queue.len(),
        forall|i: int|
            0 <= i < queue.len() ==> (#[trigger] queue[i].deliver_at_us <= now_us <==> i < arrived(
                queue,
                now_us,
            )),
    decreases queue.len(),
{
    if queue.len() > 0 && queue[0].deliver_at_us <= now_us {
        let rest = queue.drop_first();
        assert forall|i: int, j: int| 0 <= i < j < rest.len() implies rest[i].le(rest[j]) by {
            assert(queue[i + 1].le(queue[j + 1]));
        }
        what_is_due_arrives(rest, now_us);
        assert forall|i: int| 0 <= i < queue.len() implies (#[trigger] queue[i].deliver_at_us
            <= now_us <==> i < arrived(queue, now_us)) by {
            if i > 0 {
                assert(rest[i - 1] == queue[i]);
                assert(rest[i - 1].deliver_at_us <= now_us <==> i - 1 < arrived(rest, now_us));
            }
        }
    } else {
        assert forall|i: int| 0 <= i < queue.len() implies queue[i].deliver_at_us > now_us by {
            if i > 0 {
                assert(queue[0].le(queue[i]));
            }
        }
    }
}

/// The order of arrival is settled by what is on its way: two queues in order
/// that hold the same packets are the same.
pub proof fn the_order_of_arrival_is_unique(a: Seq<Flight>, b: Seq<Flight>)
    requires
        in_order(a),
        in_order(b),
        a.to_multiset() == b.to_multiset(),
    ensures
        a == b,
    decreases a.len(),
{
    broadcast use vstd::seq_lib::group_to_multiset_ensures;

    assert(a.len() == a.to_multiset().len() && b.len() == b.to_multiset().len());
    if a.len() > 0 {
        let (x, y) = (a[0], b[0]);
        assert(a.to_multiset().contains(x));
        assert(b.contains(x));
        assert(b.to_multiset().contains(y));
        assert(a.contains(y));
        let i = choose|i: int| 0 <= i < b.len() && b[i] == x;
        let j = choose|j: int| 0 <= j < a.len() && a[j] == y;
        if i > 0 && j > 0 {
            assert(b[0].le(b[i]));
            assert(a[0].le(a[j]));
            lemma_bytes_le_antisymmetric(x.packet, y.packet);
        }
        assert(x == y);
        assert(a.remove(0) =~= a.drop_first());
        assert(b.remove(0) =~= b.drop_first());
        assert forall|i: int, j: int| 0 <= i < j < a.drop_first().len() implies a.drop_first()[i].le(
            a.drop_first()[j],
        ) by {
            assert(a[i + 1].le(a[j + 1]));
        }
        assert forall|i: int, j: int| 0 <= i < j < b.drop_first().len() implies b.drop_first()[i].le(
            b.drop_first()[j],
        ) by {
            assert(b[i + 1].le(b[j + 1]));
        }
        the_order_of_arrival_is_unique(a.drop_first(), b.drop_first());
        assert(a =~= seq![x] + a.drop_first());
        assert(b =~= seq![y] + b.drop_first());
    } else {
        assert(a =~= b);
    }
}

} // verus!
