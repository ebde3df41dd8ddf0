use micbridge::engine::codec::{frame_buffer, DecodeStep, ExpectedLoss};
use micbridge::engine::jitter::{AdaptiveTarget, JitterBuffer, Pop};

const SECOND: u64 = 1_000_000_000;
const MILLI: u64 = 1_000_000;

fn pkt(v: u8) -> Vec<u8> {
    vec![v; 4]
}

#[test]
fn holds_back_until_target_is_reached() {
    let mut jb = JitterBuffer::new(3, 10);
    jb.push(0, pkt(0));
    assert_eq!(jb.pop(), Pop::Filling);
    jb.push(1, pkt(1));
    assert_eq!(jb.pop(), Pop::Filling);
    jb.push(2, pkt(2));
    assert_eq!(jb.pop(), Pop::Packet(pkt(0)));
    assert_eq!(jb.pop(), Pop::Packet(pkt(1)));
}

#[test]
fn reorders_within_the_cushion() {
    let mut jb = JitterBuffer::new(3, 10);
    jb.push(0, pkt(0));
    jb.push(2, pkt(2));
    jb.push(1, pkt(1));
    assert_eq!(jb.pop(), Pop::Packet(pkt(0)));
    assert_eq!(jb.pop(), Pop::Packet(pkt(1)));
    assert_eq!(jb.pop(), Pop::Packet(pkt(2)));
    assert_eq!(jb.lost, 0);
}

#[test]
fn a_hole_with_its_successor_present_is_recoverable() {
    let mut jb = JitterBuffer::new(2, 10);
    jb.push(0, pkt(0));
    jb.push(2, pkt(2));
    assert_eq!(jb.pop(), Pop::Packet(pkt(0)));
    // Frame 1 is missing but frame 2 is here: FEC can rebuild it.
    assert_eq!(jb.pop(), Pop::LostRecoverable(pkt(2)));
    // The successor is still delivered for its own slot.
    assert_eq!(jb.pop(), Pop::Packet(pkt(2)));
    assert_eq!(jb.lost, 1);
    assert_eq!(jb.recovered, 1);
}

#[test]
fn a_hole_without_a_successor_falls_back_to_concealment() {
    let mut jb = JitterBuffer::new(2, 10);
    jb.push(0, pkt(0));
    jb.push(3, pkt(3));
    assert_eq!(jb.pop(), Pop::Packet(pkt(0)));
    assert_eq!(
        jb.pop(),
        Pop::Lost,
        "frame 2 is missing too, there is nothing to rebuild frame 1 from"
    );
    assert_eq!(jb.pop(), Pop::LostRecoverable(pkt(3)));
    assert_eq!(jb.recovered, 1);
}

#[test]
fn a_packet_that_arrives_after_its_slot_is_counted_late() {
    let mut jb = JitterBuffer::new(2, 10);
    jb.push(0, pkt(0));
    jb.push(2, pkt(2));
    jb.pop();
    jb.pop();
    jb.push(1, pkt(1));
    assert_eq!(jb.late, 1);
}

#[test]
fn caps_latency_by_dropping_the_oldest() {
    let mut jb = JitterBuffer::new(2, 4);
    for i in 0..8 {
        jb.push(i, pkt(i as u8));
    }
    assert_eq!(jb.depth(), 4);
    assert_eq!(jb.dropped_overflow, 4);
    assert_eq!(jb.pop(), Pop::Packet(pkt(6)));
    assert_eq!(jb.trimmed, 2);
}

#[test]
fn prefill_overshoot_is_shed_before_the_first_sample() {
    let mut jb = JitterBuffer::new(3, 40);
    for i in 0..10 {
        jb.push(i, pkt(i as u8));
    }
    assert_eq!(jb.pop(), Pop::Packet(pkt(7)));
    assert_eq!(jb.trimmed, 7);
    assert_eq!(jb.depth(), 2);
    assert_eq!(jb.lost, 0, "trimming is no loss");
}

#[test]
fn trimming_after_priming_skips_ahead_without_counting_losses() {
    let mut jb = JitterBuffer::new(3, 40);
    for i in 0..4 {
        jb.push(i, pkt(i as u8));
    }
    assert_eq!(jb.pop(), Pop::Packet(pkt(1)), "the prefill trims to the target");

    // The card starts up: before the pipeline was full, ten more flowed in.
    for i in 4..14 {
        jb.push(i, pkt(i as u8));
    }
    assert_eq!(jb.trim_to_target(), 9);
    assert_eq!(jb.depth(), 3);
    assert_eq!(jb.pop(), Pop::Packet(pkt(11)), "we play the freshest, not the old");
    assert_eq!(jb.lost, 0, "a skip is no loss");
}

#[test]
fn trimming_a_buffer_at_target_does_nothing() {
    let mut jb = JitterBuffer::new(3, 40);
    for i in 0..3 {
        jb.push(i, pkt(i as u8));
    }
    jb.pop();
    let before = jb.depth();
    assert_eq!(jb.trim_to_target(), 0);
    assert_eq!(jb.depth(), before);
}

#[test]
fn recovers_after_the_stream_stalls() {
    let mut jb = JitterBuffer::new(2, 10);
    jb.push(0, pkt(0));
    jb.push(1, pkt(1));
    jb.pop();
    jb.pop();
    assert_eq!(jb.pop(), Pop::Filling);
    assert_eq!(jb.stalls, 1);
    assert!(!jb.playing());
    jb.push(2, pkt(2));
    jb.push(3, pkt(3));
    assert_eq!(jb.pop(), Pop::Packet(pkt(2)));
}

#[test]
fn moving_the_target_does_not_disturb_what_is_queued() {
    let mut jb = JitterBuffer::new(3, 20);
    for i in 0..6 {
        jb.push(i, pkt(i as u8));
    }
    jb.pop(); // trims to the target, then plays
    let before = jb.depth();
    jb.set_target_frames(2);
    assert_eq!(jb.depth(), before, "a change of the target throws nothing away");
}

#[test]
fn adaptive_target_grows_at_once_and_shrinks_slowly() {
    let t0 = 5 * SECOND;
    let mut a = AdaptiveTarget::new(3, 2, 12, t0).with_settle(10 * SECOND);

    assert!(!a.tick(t0), "a fresh counter does not shorten at once");
    a.on_late(t0);
    assert_eq!(a.frames(), 5, "a late packet raises it immediately");

    let mut now = t0;
    for expected in [4, 3, 2] {
        now += 10 * SECOND;
        assert!(a.tick(now));
        assert_eq!(a.frames(), expected);
    }
    now += 60 * SECOND;
    assert!(!a.tick(now), "we do not go below the minimum");
    assert_eq!(a.frames(), 2);
}

#[test]
fn a_burst_of_lateness_cannot_slam_the_target_to_the_ceiling() {
    let t0 = 5 * SECOND;
    let mut a = AdaptiveTarget::new(3, 2, 20, t0);
    // Fifty late packets inside one millisecond is one event, not fifty.
    for i in 0..50 {
        a.on_late(t0 + i * 20_000);
    }
    assert_eq!(a.frames(), 5, "one burst is to raise once");

    // Trouble that keeps coming does keep raising it, just not per packet.
    a.on_late(t0 + 600 * MILLI);
    assert_eq!(a.frames(), 7);
}

#[test]
fn repeated_trouble_holds_the_cushion_even_between_growths() {
    let t0 = 5 * SECOND;
    let mut a = AdaptiveTarget::new(3, 2, 20, t0).with_settle(SECOND);
    a.on_late(t0);
    // Inside the growth cooldown, but the clean spell still restarts.
    a.on_late(t0 + 100 * MILLI);
    assert!(
        !a.tick(t0 + 1_050 * MILLI),
        "the second counts from the last trouble, not from the last growth"
    );
}

#[test]
fn adaptive_target_respects_its_ceiling() {
    let mut t = 5 * SECOND;
    let mut a = AdaptiveTarget::new(3, 2, 6, t);
    for _ in 0..10 {
        a.on_late(t);
        t += SECOND;
    }
    assert_eq!(a.frames(), 6);
}

#[test]
fn a_burst_of_lateness_widens_the_cushion_then_it_narrows_again() {
    let t0 = 5 * SECOND;
    let mut target = AdaptiveTarget::new(3, 2, 12, t0).with_settle(5 * SECOND);
    let mut jb = JitterBuffer::new(target.frames(), 40);

    // A bad couple of seconds on the Wi-Fi: packets keep arriving too late.
    for i in 0..4 {
        target.on_late(t0 + i * 600 * MILLI);
    }
    jb.set_target_frames(target.frames());
    assert_eq!(jb.target_frames(), 11);

    // Then it calms down and the cushion is given back, one frame at a time.
    let mut now = t0 + 2 * SECOND;
    for _ in 0..20 {
        now += 5 * SECOND;
        if target.tick(now) {
            jb.set_target_frames(target.frames());
        }
    }
    assert_eq!(jb.target_frames(), 2, "a quiet link goes back to the minimum");
}

#[test]
fn the_same_drift_uncorrected_would_ruin_the_session() {
    let mut depth = 30.0_f64;
    for _ in 0..(8.0 * 3600.0 / 0.02) as usize {
        depth += 1000.0 * 30e-6 * 0.02;
    }
    assert!(
        depth > 800.0,
        "without a controller +30 ppm adds nearly a second, it came to {depth:.0} ms"
    );
}

#[test]
fn a_slot_that_went_by_stays_gone() {
    let mut jb = JitterBuffer::new(1, 10);
    jb.push(5, pkt(5));
    assert_eq!(jb.pop(), Pop::Packet(pkt(5)));
    jb.push(5, pkt(6));
    assert_eq!(jb.depth(), 0);
    assert_eq!(jb.late, 1);
}

#[test]
fn trimming_keeps_the_newest() {
    let mut jb = JitterBuffer::new(2, 20);
    for i in 0..10 {
        jb.push(i, pkt(i as u8));
    }
    assert_eq!(jb.trim_to(4), 6);
    assert_eq!(jb.depth(), 4);
    assert_eq!(jb.pop(), Pop::Packet(pkt(6)), "and the oldest of them goes out first");
    assert_eq!(jb.late(), 0);
    assert_eq!(jb.lost(), 0);
    assert_eq!(jb.pushed(), 10);
    assert_eq!(jb.stalls(), 0);
}

#[test]
fn going_back_to_the_start_forgets_the_trouble() {
    let mut a = AdaptiveTarget::new(3, 2, 12, 0);
    a.on_late(SECOND);
    assert_eq!(a.frames(), 5);
    a.reset(3, 2 * SECOND);
    assert_eq!(a.frames(), 3);
}

#[test]
fn expected_loss_is_clamped_and_only_pushed_on_change() {
    let mut enc = ExpectedLoss::new();
    enc.set_expected_loss(-5);
    assert_eq!(enc.expected_loss(), 0);
    enc.set_expected_loss(90);
    assert_eq!(enc.expected_loss(), 30);
    assert_eq!(enc.set_expected_loss(45), None, "nothing changed");
    assert_eq!(enc.set_expected_loss(7), Some(7));
}

#[test]
fn each_pop_has_its_decoding() {
    assert_eq!(DecodeStep::of(Pop::Packet(pkt(1))), DecodeStep::Decode(pkt(1)));
    assert_eq!(
        DecodeStep::of(Pop::LostRecoverable(pkt(2))),
        DecodeStep::DecodeFec(pkt(2))
    );
    assert_eq!(DecodeStep::of(Pop::Lost), DecodeStep::Conceal);
    assert_eq!(DecodeStep::of(Pop::Filling), DecodeStep::Wait);
    assert_eq!(frame_buffer(), vec![0i16; 480]);
}

#[test]
fn a_full_prefilling_buffer_does_not_mind_the_order() {
    let drained = |order: [u64; 4]| {
        let mut jb = JitterBuffer::new(2, 2);
        for seq in order {
            jb.push(seq, vec![seq as u8]);
        }
        assert_eq!(jb.dropped_overflow(), 2);
        (jb.pop(), jb.pop(), jb.pop())
    };
    let in_order = drained([5, 6, 7, 8]);
    assert_eq!(
        in_order,
        (Pop::Packet(vec![7]), Pop::Packet(vec![8]), Pop::Filling)
    );
    assert_eq!(drained([5, 6, 8, 7]), in_order);
    assert_eq!(drained([8, 7, 5, 6]), in_order);
}

#[test]
fn every_packet_is_accounted_for() {
    let mut jb = JitterBuffer::new(2, 3);
    for seq in [10, 11, 12, 13] {
        jb.push(seq, vec![seq as u8]);
    }
    assert_eq!(jb.pop(), Pop::Packet(vec![12]));
    jb.push(11, vec![11]);
    jb.push(15, vec![15]);
    assert_eq!(jb.pop(), Pop::Packet(vec![13]));
    assert_eq!(jb.pop(), Pop::LostRecoverable(vec![15]));
    assert_eq!(
        (jb.pushed(), jb.popped(), jb.late(), jb.dropped_overflow(), jb.trimmed()),
        (6, 2, 1, 1, 1)
    );
    assert_eq!((jb.lost(), jb.recovered(), jb.stalls()), (1, 1, 0));
    let settled = jb.popped() + jb.late() + jb.dropped_overflow() + jb.trimmed();
    assert_eq!(jb.depth() as u64 + settled, jb.pushed());
}
