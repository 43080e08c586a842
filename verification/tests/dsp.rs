use audio_plugins::dsp::calibration::{Calibration, CalibrationSource, Side};
use audio_plugins::dsp::calibration::Side::{Left, Right};
use audio_plugins::dsp::itd::{ItdDelay, ITD_CAPACITY};
use audio_plugins::dsp::pink_noise::{PinkNoise, PINK_NOISE_SEED};

fn xorshift(mut x: u64) -> u64 {
    x ^= x << 13;
    x ^= x >> 7;
    x ^= x << 17;
    x
}

#[test]
fn white_noise_follows_xorshift() {
    let mut n = PinkNoise::new([0.0f64; 6]);
    let mut expect = PINK_NOISE_SEED;
    for _ in 0..1000 {
        expect = xorshift(expect);
        let w = n.white();
        assert_eq!(w, expect);
        assert_ne!(w, 0);
    }
}

#[test]
fn noise_reset_keeps_generator() {
    let mut a = PinkNoise::new(1u8);
    let mut b = PinkNoise::new(1u8);
    a.white();
    b.white();
    a.filter = 9;
    a.reset(0);
    assert_eq!(a.filter, 0);
    assert_eq!(a.white(), b.white());
}

#[test]
fn intermittent_clock_alternates() {
    let mut c = Calibration::new((), 3);
    let sides: Vec<Side> = (0..12).map(|_| c.advance_intermittent()).collect();
    assert_eq!(sides, vec![Left, Left, Right, Right, Right, Left, Left, Left, Right, Right, Right, Left]);
    assert_eq!(c.phase, 0);
    c.reset(());
    assert_eq!(c.phase, 0);
    assert_eq!(c.half_period, 3);
}

#[test]
fn calibration_sources() {
    let mut c = Calibration::new((), 2);
    assert_eq!(c.next_source(0), CalibrationSource::Input);
    assert_eq!(c.next_source(1), CalibrationSource::Noise(Side::Left));
    assert_eq!(c.phase, 0);
    assert_eq!(c.next_source(2), CalibrationSource::Noise(Side::Left));
    assert_eq!(c.next_source(2), CalibrationSource::Noise(Side::Right));
    assert_eq!(c.next_source(2), CalibrationSource::Noise(Side::Right));
    assert_eq!(c.next_source(2), CalibrationSource::Noise(Side::Left));
    assert_eq!(c.next_source(5), CalibrationSource::Input);
    assert_eq!(c.phase, 0);
}

#[test]
fn delay_line_reads_back_history() {
    let mut d = ItdDelay::new(0i32);
    assert_eq!(d.write_ptr(), 0);
    for i in 1..=10 {
        let (t0, t1) = d.process((i, -i), 0);
        assert_eq!(t0, (i, -i));
        assert_eq!(t1, (i - 1, -(i - 1)));
    }
    let (t0, t1) = d.process((11, -11), 3);
    assert_eq!(t0, (8, -8));
    assert_eq!(t1, (7, -7));
    let (t0, _) = d.process((12, -12), 20);
    assert_eq!(t0, (0, 0));
    assert_eq!(d.write_ptr(), 12);
}

#[test]
fn delay_line_wraps_around() {
    let mut d = ItdDelay::new(0u32);
    for i in 0..(ITD_CAPACITY as u32 + 5) {
        d.process((i, i), 0);
    }
    assert_eq!(d.write_ptr(), 5);
    let top = ITD_CAPACITY as u32 + 5;
    let (t0, t1) = d.process((top, top), 6);
    assert_eq!(t0, (top - 6, top - 6));
    assert_eq!(t1, (top - 7, top - 7));
    d.reset(9);
    assert_eq!(d.write_ptr(), 0);
    assert_eq!(d.process((1, 1), 1).0, (9, 9));
}
