use nes_apu::dmc::Dmc;
use nes_apu::envelope::Envelope;
use nes_apu::frame_counter::FrameCounter;
use nes_apu::length_counter::LengthCounter;
use nes_apu::noise::Noise;
use nes_apu::pulse::{Pulse, DUTY_SEQUENCE};
use nes_apu::sweep::SweepPolarity;
use nes_apu::triangle::Triangle;

fn audible(duty_select: u8, duty_phase: u8) -> Pulse {
    let mut p = Pulse::new(SweepPolarity::OnesComplement);
    p.duty_select = duty_select;
    p.duty_phase = duty_phase;
    p.envelope.constant_volume = true;
    p.envelope.period = 11;
    p.envelope.decay_counter = 4;
    p.length_counter.counter = 1;
    p.sweep.timer = 8;
    p.sweep.period = 0x7FF;
    p
}

#[test]
fn duty_table_shapes() {
    let high: Vec<Vec<usize>> = (0..4)
        .map(|select| (0..8).filter(|phase| DUTY_SEQUENCE[select * 8 + phase]).collect())
        .collect();
    assert_eq!(high[0], vec![7]);
    assert_eq!(high[1], vec![6, 7]);
    assert_eq!(high[2], vec![4, 5, 6, 7]);
    assert_eq!(high[3], vec![0, 1, 2, 3, 4, 5]);
}

#[test]
fn pulse_starts_silent() {
    let p = Pulse::new(SweepPolarity::TwosComplement);
    assert_eq!(p.duty_select, 0);
    assert_eq!(p.duty_phase, 0);
    assert_eq!(p.envelope, Envelope::new());
    assert_eq!(p.length_counter, LengthCounter::new());
    assert_eq!(p.sweep.polarity, SweepPolarity::TwosComplement);
    assert_eq!(p.output(), 0);
}

#[test]
fn pulse_output_follows_the_waveform() {
    for select in 0..4u8 {
        for phase in 0..8u8 {
            let expected = if DUTY_SEQUENCE[(select * 8 + phase) as usize] { 11 } else { 0 };
            assert_eq!(audible(select, phase).output(), expected);
        }
    }
}

#[test]
fn pulse_output_uses_the_decay_level_without_constant_volume() {
    let mut p = audible(2, 4);
    p.envelope.constant_volume = false;
    assert_eq!(p.output(), 4);
}

#[test]
fn pulse_is_silent_when_the_length_counter_is_empty() {
    let mut p = audible(2, 4);
    assert_eq!(p.output(), 11);
    p.length_counter.counter = 0;
    assert_eq!(p.output(), 0);
}

#[test]
fn pulse_is_silent_when_the_timer_is_under_eight() {
    let mut p = audible(2, 4);
    p.sweep.timer = 7;
    assert_eq!(p.output(), 0);
}

#[test]
fn pulse_is_silent_when_the_period_leaves_eleven_bits() {
    let mut p = audible(2, 4);
    p.sweep.period = 0x800;
    assert_eq!(p.output(), 0);
    p.sweep.period = 0xFFFF;
    assert_eq!(p.output(), 0);
}

#[test]
fn pulse_set_dlcv_decodes_the_register() {
    let mut p = Pulse::new(SweepPolarity::OnesComplement);
    p.set_dlcv(0x87);
    assert_eq!(p.duty_select, 2);
    assert!(p.length_counter.enabled);
    assert!(!p.envelope.loop_flag);
    assert!(!p.envelope.constant_volume);
    assert_eq!(p.envelope.period, 7);
    p.set_dlcv(0xFF);
    assert_eq!(p.duty_select, 3);
    assert!(!p.length_counter.enabled);
    assert!(p.envelope.loop_flag);
    assert!(p.envelope.constant_volume);
    assert_eq!(p.envelope.period, 15);
    p.set_dlcv(0x40);
    assert_eq!(p.duty_select, 1);
    assert_eq!(p.envelope.period, 0);
}

#[test]
fn pulse_set_epns_loads_the_sweep() {
    let mut p = Pulse::new(SweepPolarity::OnesComplement);
    p.set_epns(0xA9);
    assert!(p.sweep.enabled);
    assert_eq!(p.sweep.period, 2);
    assert!(p.sweep.negate);
    assert_eq!(p.sweep.shift, 1);
    assert!(p.sweep.reload);
}

#[test]
fn pulse_timer_writes_keep_the_other_bits() {
    let mut p = Pulse::new(SweepPolarity::OnesComplement);
    p.sweep.timer = 0xABCD;
    p.set_t(0x12);
    assert_eq!(p.sweep.timer, 0xAB12);
    p.set_lt(0xFD);
    assert_eq!(p.sweep.timer, 0xAD12);
    p.set_lt(0x00);
    assert_eq!(p.sweep.timer, 0xA812);
}

#[test]
fn pulse_set_lt_restarts_the_waveform_and_loads_the_length() {
    let mut p = Pulse::new(SweepPolarity::OnesComplement);
    p.duty_phase = 5;
    p.set_lt(0x08);
    assert_eq!(p.duty_phase, 0);
    assert_eq!(p.length_counter.counter, 254);
    assert_eq!(p.sweep.timer, 0);
    p.set_lt(0xFB);
    assert_eq!(p.length_counter.counter, 30);
    assert_eq!(p.sweep.timer, 0x300);
    p.length_counter.enabled = false;
    p.set_lt(0x00);
    assert_eq!(p.length_counter.counter, 30);
}

#[test]
fn pulse_clock_counts_the_timer_then_steps_the_phase() {
    let mut p = Pulse::new(SweepPolarity::OnesComplement);
    p.sweep.timer = 2;
    p.sweep.period = 3;
    p.duty_phase = 6;
    p.clock();
    assert_eq!((p.sweep.timer, p.duty_phase), (1, 6));
    p.clock();
    assert_eq!((p.sweep.timer, p.duty_phase), (0, 6));
    p.clock();
    assert_eq!((p.sweep.timer, p.duty_phase), (3, 7));
    for _ in 0..4 {
        p.clock();
    }
    assert_eq!((p.sweep.timer, p.duty_phase), (3, 0));
}

#[test]
fn pulse_frame_clock_steps_all_three_units() {
    let mut p = Pulse::new(SweepPolarity::OnesComplement);
    p.length_counter.counter = 10;
    p.envelope.start = true;
    p.envelope.period = 6;
    p.sweep.load(0x80);
    p.sweep.timer = 0x40;
    p.frame_clock();
    assert_eq!(p.length_counter.counter, 9);
    assert_eq!((p.envelope.start, p.envelope.decay_counter, p.envelope.step), (false, 15, 6));
    assert_eq!((p.sweep.counter, p.sweep.reload, p.sweep.period), (1, false, 0));
    p.frame_clock();
    assert_eq!(p.length_counter.counter, 8);
    assert_eq!((p.envelope.decay_counter, p.envelope.step), (15, 5));
    assert_eq!((p.sweep.counter, p.sweep.period), (1, 0x40));
}

#[test]
fn triangle_registers() {
    let mut t = Triangle::new();
    assert_eq!(
        t,
        Triangle {
            counter_control: false,
            counter_reload: 0,
            timer: 0,
            length_counter: LengthCounter::new(),
        }
    );
    t.set_c(0xD5);
    assert!(t.counter_control);
    assert!(!t.length_counter.enabled);
    assert_eq!(t.counter_reload, 0x55);
    t.set_c(0x7F);
    assert!(!t.counter_control);
    assert!(t.length_counter.enabled);
    assert_eq!(t.counter_reload, 0x7F);
    t.set_tl(0xFE);
    assert_eq!(t.timer, 0x0FE);
    t.set_l(0x1D);
    assert_eq!(t.timer, 0x5FE);
    assert_eq!(t.length_counter.counter, 2);
    t.set_tl(0x01);
    assert_eq!(t.timer, 0x501);
}

#[test]
fn noise_registers() {
    let mut n = Noise::new();
    assert_eq!(
        n,
        Noise {
            constant_volume: false,
            volume: 0,
            loop_noise: false,
            noise_period: 0,
            length_counter: LengthCounter::new(),
        }
    );
    n.set_lcn(0x3A);
    assert!(!n.length_counter.enabled);
    assert!(n.constant_volume);
    assert_eq!(n.volume, 10);
    n.set_lcn(0x05);
    assert!(n.length_counter.enabled);
    assert!(!n.constant_volume);
    assert_eq!(n.volume, 5);
    n.set_lp(0x8C);
    assert!(n.loop_noise);
    assert_eq!(n.noise_period, 12);
    n.set_l(0x20);
    assert_eq!(n.length_counter.counter, 40);
    n.set_enabled(false);
    assert_eq!(n.length_counter, LengthCounter { enabled: false, counter: 0 });
    assert_eq!((n.constant_volume, n.volume), (false, 5));
    assert_eq!((n.loop_noise, n.noise_period), (true, 12));
    n.set_enabled(true);
    assert_eq!(n.length_counter, LengthCounter { enabled: true, counter: 0 });
    assert_eq!(n.volume, 5);
}

#[test]
fn dmc_registers() {
    let mut d = Dmc::new();
    assert_eq!(
        d,
        Dmc {
            irq_enable: false,
            loop_sample: false,
            frequency_index: 0,
            direct_load: 0,
            sample_address: 0,
            sample_length: 0,
        }
    );
    d.set_ilf(0xCE);
    assert!(d.irq_enable);
    assert!(d.loop_sample);
    assert_eq!(d.frequency_index, 14);
    d.set_ilf(0x31);
    assert!(!d.irq_enable);
    assert!(!d.loop_sample);
    assert_eq!(d.frequency_index, 1);
    d.set_d(0xFF);
    assert_eq!(d.direct_load, 0x7F);
    d.set_a(0x00);
    assert_eq!(d.sample_address, 0xC000);
    d.set_a(0x01);
    assert_eq!(d.sample_address, 0xC040);
    d.set_a(0xFF);
    assert_eq!(d.sample_address, 0xFFC0);
    d.set_l(0x00);
    assert_eq!(d.sample_length, 1);
    d.set_l(0x02);
    assert_eq!(d.sample_length, 0x21);
    d.set_l(0xFF);
    assert_eq!(d.sample_length, 0xFF1);
}

#[test]
fn frame_counter_register() {
    let mut fc = FrameCounter::new();
    assert_eq!(fc, FrameCounter { mode: false, irq_inhibit: true });
    let mut irq = true;
    fc.set_mi(0x80, &mut irq);
    assert_eq!(fc, FrameCounter { mode: true, irq_inhibit: false });
    assert!(irq);
    fc.set_mi(0x40, &mut irq);
    assert_eq!(fc, FrameCounter { mode: false, irq_inhibit: true });
    assert!(!irq);
    irq = true;
    fc.set_mi(0x00, &mut irq);
    assert_eq!(fc, FrameCounter { mode: false, irq_inhibit: false });
    assert!(irq);
    fc.set_mi(0xC0, &mut irq);
    assert_eq!(fc, FrameCounter { mode: true, irq_inhibit: true });
    assert!(!irq);
    fc.set_mi(0xFF, &mut irq);
    assert_eq!(fc, FrameCounter { mode: true, irq_inhibit: true });
    assert!(!irq);
}
