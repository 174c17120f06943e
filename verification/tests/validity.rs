use nes_apu::apu::Apu;
use nes_apu::debug::Perf;
use nes_apu::dmc::Dmc;
use nes_apu::envelope::Envelope;
use nes_apu::noise::Noise;
use nes_apu::pulse::Pulse;
use nes_apu::sweep::{Sweep, SweepPolarity};
use nes_apu::triangle::Triangle;

#[test]
fn power_on_states_are_well_formed() {
    assert!(Envelope::new().is_well_formed());
    assert!(Sweep::new(SweepPolarity::OnesComplement).is_well_formed());
    assert!(Pulse::new(SweepPolarity::TwosComplement).is_well_formed());
    assert!(Triangle::new().is_well_formed());
    assert!(Noise::new().is_well_formed());
    assert!(Dmc::new().is_well_formed());
    assert!(Apu::new().is_well_formed());
}

#[test]
fn envelope_levels_are_four_bits() {
    let mut e = Envelope::new();
    e.period = 15;
    e.step = 15;
    e.decay_counter = 15;
    assert!(e.is_well_formed());
    assert!(!Envelope { period: 16, ..e }.is_well_formed());
    assert!(!Envelope { step: 16, ..e }.is_well_formed());
    assert!(!Envelope { decay_counter: 16, ..e }.is_well_formed());
}

#[test]
fn sweep_shift_is_three_bits() {
    let mut s = Sweep::new(SweepPolarity::OnesComplement);
    s.shift = 7;
    s.period = 0xFFFF;
    s.timer = 0xFFFF;
    s.counter = 0xFFFF;
    assert!(s.is_well_formed());
    s.shift = 8;
    assert!(!s.is_well_formed());
}

#[test]
fn pulse_duty_fields_are_bounded() {
    let mut p = Pulse::new(SweepPolarity::OnesComplement);
    p.duty_select = 3;
    p.duty_phase = 7;
    assert!(p.is_well_formed());
    assert!(!Pulse { duty_select: 4, ..p }.is_well_formed());
    assert!(!Pulse { duty_phase: 8, ..p }.is_well_formed());
    let mut q = p;
    q.envelope.period = 16;
    assert!(!q.is_well_formed());
    let mut q = p;
    q.sweep.shift = 8;
    assert!(!q.is_well_formed());
}

#[test]
fn register_models_are_bounded() {
    let t = Triangle { counter_reload: 0x7F, timer: 0x7FF, ..Triangle::new() };
    assert!(t.is_well_formed());
    assert!(!Triangle { counter_reload: 0x80, ..t }.is_well_formed());
    assert!(!Triangle { timer: 0x800, ..t }.is_well_formed());
    let n = Noise { volume: 15, noise_period: 15, ..Noise::new() };
    assert!(n.is_well_formed());
    assert!(!Noise { volume: 16, ..n }.is_well_formed());
    assert!(!Noise { noise_period: 16, ..n }.is_well_formed());
    let d = Dmc { frequency_index: 15, direct_load: 0x7F, ..Dmc::new() };
    assert!(d.is_well_formed());
    assert!(!Dmc { frequency_index: 16, ..d }.is_well_formed());
    assert!(!Dmc { direct_load: 0x80, ..d }.is_well_formed());
}

#[test]
fn sound_unit_needs_each_pulse_on_its_own_polarity() {
    let apu = Apu::new();
    assert!(Apu { sample_counter: 39, ..apu }.is_well_formed());
    assert!(!Apu { sample_counter: 40, ..apu }.is_well_formed());
    assert!(!Apu { pulse_1: apu.pulse_2, ..apu }.is_well_formed());
    assert!(!Apu { pulse_2: apu.pulse_1, ..apu }.is_well_formed());
    let mut bad = apu;
    bad.triangle.timer = 0x800;
    assert!(!bad.is_well_formed());
    let mut bad = apu;
    bad.noise.volume = 16;
    assert!(!bad.is_well_formed());
    let mut bad = apu;
    bad.dmc.direct_load = 0x80;
    assert!(!bad.is_well_formed());
    let mut bad = apu;
    bad.pulse_2.duty_phase = 8;
    assert!(!bad.is_well_formed());
}

#[test]
fn registers_and_cycles_keep_the_unit_well_formed() {
    let mut apu = Apu::new();
    let mut irq = false;
    let mut state: u32 = 7;
    for _ in 0..50_000 {
        state = state.wrapping_mul(1_664_525).wrapping_add(1_013_904_223);
        if state & 0x0300 == 0 {
            let addr = 0x4000 + ((state >> 16) & 0x1F) as u16;
            apu.apu_write_reg(addr, (state >> 24) as u8, &mut irq);
        } else if state & 0xFF00 == 0x0100 {
            apu.apu_read_status(&mut irq);
        } else {
            apu.apu_tick();
        }
        assert!(apu.is_well_formed());
    }
}

#[test]
fn perf_room_for_one_more_frame() {
    let p = Perf { window_active: false, measuring: true, total_frame_time: 10, total_frames: 3 };
    assert!(p.has_room_for(0));
    assert!(p.has_room_for(u128::MAX - 10));
    assert!(!p.has_room_for(u128::MAX - 9));
    let full = Perf { total_frames: u64::MAX, ..p };
    assert!(!full.has_room_for(0));
    let last = Perf { total_frames: u64::MAX - 1, ..p };
    assert!(last.has_room_for(1));
}
