use lsdj_ripper::clock::{Advance, CYCLES_PER_SECOND, ticks_for_deciseconds};
use lsdj_ripper::keys::Key;
use lsdj_ripper::save::{SaveError, SaveKind, classify};
use lsdj_ripper::script::{Action, actions_for, load_script, plan};
use lsdj_ripper::sink::Player;

#[test]
fn tick_conversion_rounds_to_nearest() {
    // 0.1 s: 419430.4 ticks rounds down.
    assert_eq!(ticks_for_deciseconds(1), 419430);
    // A whole second needs no rounding.
    assert_eq!(ticks_for_deciseconds(10), CYCLES_PER_SECOND);
    assert_eq!(ticks_for_deciseconds(0), 0);
    // 2 s and 3 s, exact multiples of the rate.
    assert_eq!(ticks_for_deciseconds(20), 2 * CYCLES_PER_SECOND);
    assert_eq!(ticks_for_deciseconds(30), 3 * CYCLES_PER_SECOND);
    // 0.3 s: 1258291.2 ticks rounds down; 0.5 s: 2097152 exactly.
    assert_eq!(ticks_for_deciseconds(3), 1258291);
    assert_eq!(ticks_for_deciseconds(5), 2097152);
}

#[test]
fn advance_accumulates_until_target() {
    let mut w = Advance::new(10);
    assert!(!w.done());
    w.record(4);
    assert!(!w.done());
    w.record(4);
    assert!(!w.done());
    w.record(7);
    // 15 ticks: target reached, overshoot 5 < the last step's 7.
    assert!(w.done());
    assert_eq!(w.elapsed(), 15);
    assert!(w.elapsed() <= 10 + u64::from(w.last_step()));
}

#[test]
fn advance_zero_target_is_immediately_done() {
    let w = Advance::new(0);
    assert!(w.done());
}

#[test]
fn one_second_of_recording_is_one_clock_rate_of_ticks() {
    // A fixed step size that divides the rate: the wait ends exactly on
    // target, no overshoot.
    let mut w = Advance::new(CYCLES_PER_SECOND);
    let mut total: u64 = 0;
    while !w.done() {
        w.record(65536);
        total += 65536;
    }
    assert_eq!(total, CYCLES_PER_SECOND);
}

#[test]
fn classify_recognizes_both_extensions() {
    assert_eq!(classify(&b"song.sav".to_vec()), Ok(SaveKind::RawSave));
    assert_eq!(classify(&b"song.lsdsng".to_vec()), Ok(SaveKind::CompressedSong));
    assert_eq!(classify(&b".lsdsng".to_vec()), Ok(SaveKind::CompressedSong));
}

#[test]
fn classify_rejects_unrecognized_extensions() {
    assert_eq!(
        classify(&b"song.txt".to_vec()),
        Err(SaveError::UnrecognizedExtension)
    );
    assert_eq!(classify(&b"sav".to_vec()), Err(SaveError::UnrecognizedExtension));
    assert_eq!(classify(&b"".to_vec()), Err(SaveError::UnrecognizedExtension));
    assert_eq!(
        classify(&b"song.lsdsng.bak".to_vec()),
        Err(SaveError::UnrecognizedExtension)
    );
}

#[test]
fn raw_save_plan_bypasses_the_load_script() {
    let steps = plan(&SaveKind::RawSave, 120);
    let actions = actions_for(&steps);
    assert_eq!(
        actions,
        vec![
            Action::Run(83886080), // 20 s boot wait
            Action::Press(Key::Start),
            Action::Run(419430), // 0.1 s
            Action::Release(Key::Start),
            Action::Run(503316480), // 120 s recording
        ]
    );
}

#[test]
fn compressed_song_plan_runs_the_load_script_exactly_once() {
    let steps = plan(&SaveKind::CompressedSong, 1);
    let actions = actions_for(&steps);
    let t1: u64 = 419430; // 0.1 s
    let t10: u64 = 4194304; // 1 s
    let expected = vec![
        Action::Run(83886080), // 20 s boot wait
        // The load script, once:
        Action::Press(Key::Select),
        Action::Press(Key::Up),
        Action::Run(t1),
        Action::Release(Key::Select),
        Action::Release(Key::Up),
        Action::Run(t10),
        Action::Press(Key::Down),
        Action::Run(12582912), // 3 s
        Action::Release(Key::Down),
        Action::Press(Key::A),
        Action::Run(t1),
        Action::Release(Key::A),
        Action::Run(t10),
        Action::Press(Key::A),
        Action::Run(t1),
        Action::Release(Key::A),
        Action::Press(Key::Up),
        Action::Run(20971520), // 5 s
        Action::Release(Key::Up),
        Action::Run(t10),
        Action::Press(Key::A),
        Action::Run(t1),
        Action::Release(Key::A),
        Action::Run(t10),
        Action::Press(Key::Left),
        Action::Run(t1),
        Action::Release(Key::Left),
        Action::Press(Key::A),
        Action::Run(t1),
        Action::Release(Key::A),
        Action::Run(41943040), // 10 s settle
        // Start playback and record:
        Action::Press(Key::Start),
        Action::Run(t1),
        Action::Release(Key::Start),
        Action::Run(t10), // 1 s recording
    ];
    assert_eq!(actions, expected);
}

#[test]
fn load_script_has_thirteen_steps() {
    let steps = load_script();
    assert_eq!(steps.len(), 13);
}

#[test]
fn recording_wait_is_the_plan_tail() {
    let steps = plan(&SaveKind::CompressedSong, 7);
    let actions = actions_for(&steps);
    assert_eq!(
        actions.last().copied(),
        Some(Action::Run(7 * CYCLES_PER_SECOND))
    );
}

#[test]
fn sink_interleaves_and_keeps_every_sample() {
    let mut p = Player::new("out.wav".to_string(), 48000);
    assert_eq!(p.samples_rate(), 48000);
    assert!(!p.underflowed());
    p.play(&vec![1, 2, 3], &vec![-1, -2, -3]);
    p.play(&vec![7], &vec![8]);
    let (path, rate, samples) = p.finalize();
    assert_eq!(path, "out.wav");
    assert_eq!(rate, 48000);
    assert_eq!(samples, vec![1, -1, 2, -2, 3, -3, 7, 8]);
}

#[test]
fn boxed_sink_behaves_like_a_plain_one() {
    let mut p = Player::boxed_new("boxed.wav".to_string(), 44100);
    assert_eq!(p.samples_rate(), 44100);
    p.play(&vec![11, 12], &vec![13, 14]);
    let (path, rate, samples) = (*p).finalize();
    assert_eq!(path, "boxed.wav");
    assert_eq!(rate, 44100);
    assert_eq!(samples, vec![11, 13, 12, 14]);
}

#[test]
fn sink_pairs_stop_at_the_shorter_channel() {
    let mut p = Player::new("o.wav".to_string(), 44100);
    p.play(&vec![5, 6, 7], &vec![9]);
    let (_, _, samples) = p.finalize();
    assert_eq!(samples, vec![5, 9]);
}

#[test]
fn teardown_serializes_the_partial_buffer_after_an_interrupted_run() {
    // A run that fails mid-recording still surrenders everything captured
    // so far: feed some frames, hit an error, and tear down once.
    let mut p = Player::new("partial.wav".to_string(), 48000);
    let mut delivered = 0u32;
    let mut failed = false;
    for i in 0..10 {
        if i == 6 {
            // Forced failure: no more frames arrive after this point.
            failed = true;
            break;
        }
        p.play(&vec![i as i16], &vec![-(i as i16)]);
        delivered += 1;
    }
    assert!(failed);
    assert_eq!(delivered, 6);
    let (_, _, samples) = p.finalize();
    // All six frames received before the failure are present, none dropped.
    assert_eq!(samples, vec![0, 0, 1, -1, 2, -2, 3, -3, 4, -4, 5, -5]);
}
