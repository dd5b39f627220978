use reaclick::music_theory::TimeSignature;
use reaclick::reaclick::click::{Channel, Click};
use reaclick::reaclick::data::Playhead;
use reaclick::reaclick::oscillator::{Oscillator, Phase};
use reaclick::reaclick::plugin::ReaClick;
use reaclick::reaclick::render::{render_click, write_frame};

fn sine(phase: Phase) -> f32 {
    ((phase.numerator as f64 / phase.denominator as f64) * std::f64::consts::TAU).sin() as f32
}

fn expected(frequency: u64, sample_rate: u64, start: u64, frame: u64) -> f32 {
    let numerator = (start + frame * frequency) % sample_rate;
    ((numerator as f64 / sample_rate as f64) * std::f64::consts::TAU).sin() as f32
}

fn playhead(top: i32, bottom: i32, offset: i64) -> Playhead {
    Playhead {
        tempo: 120_000,
        bar_number: 1,
        bar_start_pos_crotchets: 0,
        pos_crotchets: offset,
        time_signature: TimeSignature::make(top, bottom).unwrap(),
    }
}

fn engine(sample_rate: u32) -> ReaClick {
    let mut engine = ReaClick::new();
    assert!(engine.initialize(sample_rate, None, 512));
    engine
}

#[test]
fn write_frame_follows_the_routing() {
    let mut buffer = vec![vec![0; 4]; 3];
    write_frame(&mut buffer, Channel::Left, 1, 7);
    assert_eq!(buffer, vec![vec![0, 7, 0, 0], vec![0; 4], vec![0; 4]]);
    write_frame(&mut buffer, Channel::Right, 2, 8);
    assert_eq!(buffer, vec![vec![0, 7, 0, 0], vec![0, 0, 8, 0], vec![0; 4]]);
    write_frame(&mut buffer, Channel::Both, 3, 9);
    assert_eq!(buffer, vec![vec![0, 7, 0, 9], vec![0, 0, 8, 9], vec![0; 4]]);
}

#[test]
fn write_frame_passes_over_what_the_block_lacks() {
    let mut mono = vec![vec![0; 2]];
    write_frame(&mut mono, Channel::Right, 0, 5);
    assert_eq!(mono, vec![vec![0, 0]]);
    write_frame(&mut mono, Channel::Both, 1, 5);
    assert_eq!(mono, vec![vec![0, 5]]);
    write_frame(&mut mono, Channel::Left, 2, 5);
    assert_eq!(mono, vec![vec![0, 5]]);
    let mut none: Vec<Vec<i32>> = Vec::new();
    write_frame(&mut none, Channel::Both, 0, 5);
    assert!(none.is_empty());
    let mut ragged = vec![vec![0; 3], vec![0; 1]];
    write_frame(&mut ragged, Channel::Both, 2, 5);
    assert_eq!(ragged, vec![vec![0, 0, 5], vec![0]]);
}

#[test]
fn render_click_hands_each_frame_its_phase() {
    let mut oscillator = Oscillator::new(1_000);
    let mut buffer = vec![vec![Phase { numerator: 9, denominator: 9 }; 6]; 2];
    let click = Click { channel: Channel::Both, frequency: 300, length: 120 };
    render_click(&mut oscillator, click, 5, &|phase: Phase| phase, &mut buffer);
    let at = |numerator: u64| Phase { numerator, denominator: 1_000 };
    let untouched = Phase { numerator: 9, denominator: 9 };
    let channel = vec![at(0), at(300), at(600), at(900), at(200), untouched];
    assert_eq!(buffer, vec![channel.clone(), channel]);
    assert_eq!(oscillator.phase(), at(500));
}

#[test]
fn render_click_of_no_frames_changes_nothing() {
    let mut oscillator = Oscillator::new(1_000);
    oscillator.next_sample(123);
    let mut buffer = vec![vec![1.0_f32; 4]; 2];
    render_click(&mut oscillator, Click::normal(), 0, &sine, &mut buffer);
    assert_eq!(buffer, vec![vec![1.0_f32; 4]; 2]);
    assert_eq!(oscillator.phase(), Phase { numerator: 123, denominator: 1_000 });
}

#[test]
fn accent_goes_to_the_right_channel() {
    let mut engine = engine(48_000);
    let mut buffer = vec![vec![9.0_f32; 64]; 2];
    engine.write_samples(&playhead(4, 4, 0), 64, &sine, &mut buffer);
    assert_eq!(buffer[0], vec![9.0_f32; 64]);
    for frame in 0..64 {
        assert_eq!(buffer[1][frame], expected(400, 48_000, 0, frame as u64));
    }
    assert_eq!(engine.phase(), Phase { numerator: 64 * 400, denominator: 48_000 });
}

#[test]
fn subaccent_goes_to_the_left_channel() {
    let mut engine = engine(48_000);
    let mut buffer = vec![vec![9.0_f32; 64]; 2];
    engine.write_samples(&playhead(4, 4, 2 * 960 + 10), 64, &sine, &mut buffer);
    for frame in 0..64 {
        assert_eq!(buffer[0][frame], expected(800, 48_000, 0, frame as u64));
    }
    assert_eq!(buffer[1], vec![9.0_f32; 64]);
    assert_eq!(engine.phase(), Phase { numerator: (64 * 800) % 48_000, denominator: 48_000 });
}

#[test]
fn normal_click_goes_to_both_channels_and_no_further() {
    let mut engine = engine(44_100);
    let mut buffer = vec![vec![9.0_f32; 32]; 4];
    engine.write_samples(&playhead(4, 4, 960 + 120), 32, &sine, &mut buffer);
    for frame in 0..32 {
        assert_eq!(buffer[0][frame], expected(1_600, 44_100, 0, frame as u64));
        assert_eq!(buffer[1][frame], buffer[0][frame]);
    }
    assert_eq!(buffer[2], vec![9.0_f32; 32]);
    assert_eq!(buffer[3], vec![9.0_f32; 32]);
}

#[test]
fn a_mono_block_hears_left_and_both() {
    let mut engine = engine(48_000);
    let mut buffer = vec![vec![9.0_f32; 16]];
    engine.write_samples(&playhead(4, 4, 0), 16, &sine, &mut buffer);
    assert_eq!(buffer, vec![vec![9.0_f32; 16]]);
    assert_eq!(engine.phase().numerator, 16 * 400);
    engine.write_samples(&playhead(4, 4, 960), 16, &sine, &mut buffer);
    for frame in 0..16 {
        assert_eq!(buffer[0][frame], expected(1_600, 48_000, 16 * 400, frame as u64));
    }
}

#[test]
fn a_silent_playhead_leaves_block_and_oscillator_alone() {
    let mut engine = engine(48_000);
    let mut buffer = vec![vec![0.25_f32; 64]; 2];
    engine.write_samples(&playhead(4, 4, 0), 64, &sine, &mut buffer);
    let before = buffer.clone();
    let phase = engine.phase();
    engine.write_samples(&playhead(4, 4, 500), 64, &sine, &mut buffer);
    assert_eq!(buffer, before);
    assert_eq!(engine.phase(), phase);
}

#[test]
fn half_a_crotchet_into_four_eight_block_and_phase_stay() {
    let mut engine = engine(48_000);
    let mut buffer = vec![vec![0.5_f32; 2]; 2];
    engine.write_samples(&playhead(4, 8, 480), 2, &sine, &mut buffer);
    assert_eq!(buffer, vec![vec![0.5_f32; 2]; 2]);
    assert_eq!(engine.phase(), Phase { numerator: 0, denominator: 48_000 });
}

#[test]
fn half_a_crotchet_into_six_four_the_second_beat_is_rendered() {
    let mut engine = engine(48_000);
    let mut buffer = vec![vec![0.5_f32; 2]; 2];
    engine.write_samples(&playhead(6, 4, 480), 2, &sine, &mut buffer);
    for frame in 0..2 {
        assert_eq!(buffer[0][frame], expected(1_600, 48_000, 0, frame as u64));
        assert_eq!(buffer[1][frame], buffer[0][frame]);
    }
    assert_eq!(engine.phase(), Phase { numerator: 3_200, denominator: 48_000 });
}

#[test]
fn the_whole_block_sounds_even_where_the_click_ends_within_it() {
    let mut engine = engine(48_000);
    let mut buffer = vec![vec![9.0_f32; 48_000]; 2];
    engine.write_samples(&playhead(4, 4, 120), 48_000, &sine, &mut buffer);
    assert!(buffer[1].iter().enumerate().all(|(frame, &sample)| {
        sample == expected(400, 48_000, 0, frame as u64)
    }));
    assert_eq!(engine.phase().numerator, 0);
}

#[test]
fn phase_runs_on_from_block_to_block_and_from_click_to_click() {
    let mut engine = engine(48_000);
    let mut whole = vec![vec![0.0_f32; 96]; 2];
    engine.write_samples(&playhead(4, 4, 0), 96, &sine, &mut whole);

    let mut split_engine = self::engine(48_000);
    let mut first = vec![vec![0.0_f32; 40]; 2];
    let mut second = vec![vec![0.0_f32; 56]; 2];
    split_engine.write_samples(&playhead(4, 4, 0), 40, &sine, &mut first);
    split_engine.write_samples(&playhead(4, 4, 1), 56, &sine, &mut second);
    assert_eq!(whole[1][..40], first[1][..]);
    assert_eq!(whole[1][40..], second[1][..]);
    assert_eq!(engine.phase(), split_engine.phase());

    let at = split_engine.phase().numerator;
    let mut next = vec![vec![0.0_f32; 8]; 2];
    split_engine.write_samples(&playhead(4, 4, 960), 8, &sine, &mut next);
    for frame in 0..8 {
        assert_eq!(next[0][frame], expected(1_600, 48_000, at, frame as u64));
    }
}

#[test]
fn frames_beyond_the_block_are_passed_over() {
    let mut engine = engine(48_000);
    let mut buffer = vec![vec![9.0_f32; 4], vec![9.0_f32; 2]];
    engine.write_samples(&playhead(4, 4, 960), 6, &sine, &mut buffer);
    for frame in 0..4 {
        assert_eq!(buffer[0][frame], expected(1_600, 48_000, 0, frame as u64));
    }
    for frame in 0..2 {
        assert_eq!(buffer[1][frame], expected(1_600, 48_000, 0, frame as u64));
    }
    assert_eq!(buffer[0].len(), 4);
    assert_eq!(buffer[1].len(), 2);
    assert_eq!(engine.phase().numerator, 6 * 1_600);
}

#[test]
fn calculate_sine_is_the_tone_at_the_phase() {
    let mut engine = engine(44_100);
    for call in 0..100u64 {
        let sample = engine.calculate_sine(440, &sine);
        assert_eq!(sample, expected(440, 44_100, 0, call));
    }
    assert_eq!(engine.phase(), Phase { numerator: 44_000, denominator: 44_100 });
}

#[test]
fn an_engine_in_tune_has_room_for_every_block() {
    let engine = engine(48_000);
    assert!(engine.can_process(0));
    assert!(engine.can_process(1 << 20));
    assert!(engine.can_process(usize::MAX));
}

#[test]
fn an_engine_out_of_tune_has_room_while_its_phase_has() {
    let engine = ReaClick::new();
    assert!(engine.can_process(0));
    assert!(engine.can_process(1 << 20));
    assert!(engine.can_process((u64::MAX / 1_600) as usize));
    assert!(!engine.can_process((u64::MAX / 1_600) as usize + 1));
    assert!(!engine.can_process(usize::MAX));
    let slow = self::engine(1_000);
    assert!(slow.can_process((u64::MAX / 1_600) as usize));
    assert!(!slow.can_process((u64::MAX / 1_600) as usize + 1));
}

#[test]
fn a_very_long_silent_block_needs_no_room() {
    let mut engine = ReaClick::new();
    let mut buffer = vec![vec![0.5_f32; 4]; 2];
    assert!(!engine.can_process(usize::MAX));
    engine.write_samples(&playhead(4, 4, 500), usize::MAX, &sine, &mut buffer);
    assert_eq!(buffer, vec![vec![0.5_f32; 4]; 2]);
    assert_eq!(engine.phase(), Phase { numerator: 0, denominator: 0 });
}
