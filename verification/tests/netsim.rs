use micbridge::engine::jitter::{JitterBuffer, Pop};
use micbridge::engine::netsim::NetSim;
use micbridge::engine::resample::is_identity;

const FRAME_US: u64 = 10_000;

/// A percentage of loss as a count of parts of 2^53.
fn parts(pct: f64) -> u64 {
    (pct / 100.0 * 9_007_199_254_740_992.0).ceil() as u64
}

fn us(ms: f64) -> u64 {
    (ms * 1000.0) as u64
}

#[test]
fn a_perfect_link_delivers_everything_in_order_after_the_delay() {
    let mut net = NetSim::perfect(us(5.0));
    for seq in 0..10u64 {
        net.send(seq, vec![seq as u8], seq * 10_000);
    }
    assert!(net.poll(4_000).is_empty(), "too early");
    let got = net.poll(200_000);
    assert_eq!(got.len(), 10);
    assert!(got.windows(2).all(|w| w[0].0 < w[1].0));
    assert_eq!(net.dropped, 0);
    assert_eq!(net.reordered, 0);
}

#[test]
fn loss_rate_lands_near_the_requested_figure() {
    let mut net = NetSim::new(42, parts(5.0), us(1.0), 0);
    for seq in 0..20_000u64 {
        net.send(seq, vec![0], seq * 10_000);
    }
    let rate = net.dropped as f64 * 100.0 / net.sent as f64;
    assert!((rate - 5.0).abs() < 0.6, "loss {rate:.2}%");
}

#[test]
fn jitter_beyond_the_packet_interval_reorders() {
    // 30 ms of jitter on a 10 ms packet spacing has to overtake.
    let mut net = NetSim::new(7, 0, us(5.0), us(30.0));
    for seq in 0..500u64 {
        net.send(seq, vec![0], seq * 10_000);
    }
    let mut order = Vec::new();
    for t in 0..600u64 {
        order.extend(net.poll(t * 10_000).into_iter().map(|(s, _)| s));
    }
    assert_eq!(order.len(), 500);
    assert!(net.reordered > 20, "reordered: {}", net.reordered);
}

#[test]
fn the_same_seed_gives_the_same_link() {
    let run = || {
        let mut net = NetSim::new(99, parts(3.0), us(2.0), us(8.0));
        for seq in 0..2_000u64 {
            net.send(seq, vec![0], seq * 10_000);
        }
        (net.dropped, net.reordered)
    };
    assert_eq!(run(), run());
}

/// A plain generator in floating point, to hold the integer one against.
struct Plain {
    state: u64,
}

impl Plain {
    fn next(&mut self) -> f64 {
        self.state = self
            .state
            .wrapping_mul(6_364_136_223_846_793_005)
            .wrapping_add(1_442_695_040_888_963_407);
        (self.state >> 11) as f64 / (1u64 << 53) as f64
    }
}

#[test]
fn the_link_follows_the_generator_to_the_microsecond() {
    for (seed, pct, jitter_ms) in [(1u64, 2.0f64, 4.0f64), (2024, 7.5, 25.0), (77, 0.0, 33.3)] {
        let mut net = NetSim::new(seed, parts(pct), us(2.0), us(jitter_ms));
        let mut plain = Plain { state: plain_seed(seed) };
        let mut dropped = 0u64;
        let mut due: Vec<(u64, u64)> = Vec::new();
        for seq in 0..300u64 {
            let now = seq * FRAME_US;
            net.send(seq, vec![seq as u8], now);
            if plain.next() < pct / 100.0 {
                dropped += 1;
                continue;
            }
            let extra = (plain.next() * us(jitter_ms) as f64) as u64;
            due.push((now + us(2.0) + extra, seq));
        }
        assert_eq!(net.dropped, dropped, "seed {seed}");
        due.sort();
        let got: Vec<u64> = net.poll(u64::MAX).into_iter().map(|(s, _)| s).collect();
        let want: Vec<u64> = due.iter().map(|d| d.1).collect();
        assert_eq!(got, want, "seed {seed}");
        assert_eq!(net.in_flight(), 0);
        assert_eq!(net.sent, net.dropped + net.delivered);
    }
}

fn plain_seed(seed: u64) -> u64 {
    seed.wrapping_mul(2_862_933_555_777_941_757)
        .wrapping_add(3_037_000_493)
}

/// Ships frames over a link into a jitter buffer, one consumed per period.
fn run_link(seconds: u64, net: &mut NetSim, target: usize) -> (u64, JitterBuffer) {
    let mut jb = JitterBuffer::new(target, 40);
    let mut out = 0u64;
    for i in 0..seconds * 100 {
        let now = i * FRAME_US;
        net.send(i, vec![i as u8], now);
        for (s, p) in net.poll(now) {
            jb.push(s, p);
        }
        if jb.pop() != Pop::Filling {
            out += 1;
        }
    }
    (out, jb)
}

#[test]
fn a_clean_link_hands_out_every_packet() {
    let mut net = NetSim::perfect(us(1.0));
    let (out, jb) = run_link(30, &mut net, 3);
    assert_eq!(jb.stalls, 0);
    assert_eq!(jb.lost, 0);
    assert!(out > 2_900, "{out} frames came out");
}

#[test]
fn isolated_losses_leave_their_successor() {
    let mut net = NetSim::new(2024, parts(2.0), us(2.0), us(4.0));
    let (out, jb) = run_link(60, &mut net, 3);
    let pct = jb.lost as f64 * 100.0 / out as f64;
    assert!((pct - 2.0).abs() < 1.0, "{pct:.2}% lost");
    assert!(jb.recovered > (jb.lost - jb.recovered) * 4);
    assert_eq!(jb.stalls, 0);
}

#[test]
fn the_cushion_takes_reordering_in() {
    // 25 ms of jitter on 10 ms spacing: packets routinely overtake each other.
    let mut net = NetSim::new(7, 0, us(5.0), us(25.0));
    let (out, jb) = run_link(30, &mut net, 4);
    assert!(net.reordered > 100, "reordered: {}", net.reordered);
    assert!((jb.lost as f64) * 100.0 / (out as f64) < 1.0);
}

#[test]
fn only_equal_rates_need_no_resampling() {
    assert!(is_identity(48_000, 48_000));
    assert!(!is_identity(44_100, 48_000));
}
