use std::str::FromStr;

use lsdj_ripper::run::prepare_run;
use lsdj_ripper::save::{SaveError, SaveKind, build_save_image, save_image_from_container};
use lsdj_ripper::script::Action;
use lsdj_ripper::sink::Player;

#[test]
fn raw_save_image_is_taken_verbatim() {
    let bytes: Vec<u8> = vec![0xAA, 0xBB, 0xCC, 0xDD];
    let img = build_save_image(&SaveKind::RawSave, bytes.clone()).unwrap();
    assert_eq!(img, bytes);
}

#[test]
fn truncated_container_is_malformed() {
    let bytes: Vec<u8> = vec![0x41, 0x42, 0x43];
    assert_eq!(
        save_image_from_container(&bytes),
        Err(SaveError::MalformedContainer)
    );
    assert_eq!(
        build_save_image(&SaveKind::CompressedSong, bytes),
        Err(SaveError::MalformedContainer)
    );
}

#[test]
fn short_song_container_is_malformed_not_fatal() {
    // A container that parses — eight allowed name bytes and a version —
    // whose block data ends the song immediately: the end-of-file command
    // (0xE0 0xFF) before a full song's worth of bytes has been produced.
    let mut bytes: Vec<u8> = b"AAAAAAAA".to_vec();
    bytes.push(0); // version
    bytes.push(0xE0); // command byte
    bytes.push(0xFF); // end-of-file
    assert_eq!(
        save_image_from_container(&bytes),
        Err(SaveError::MalformedContainer)
    );
}

#[test]
fn truncated_block_data_is_malformed() {
    // The block data announces a run-length pair but ends before the
    // repeat count arrives.
    let mut bytes: Vec<u8> = b"SONG".to_vec();
    bytes.extend_from_slice(&[0, 0, 0, 0]); // name padding
    bytes.push(1); // version
    bytes.push(0xC0); // run-length marker
    bytes.push(0x11); // the byte to repeat; the count is missing
    assert_eq!(
        save_image_from_container(&bytes),
        Err(SaveError::MalformedContainer)
    );
}

#[test]
fn invalid_name_byte_is_malformed() {
    // A lower-case letter is not allowed in a song name.
    let mut bytes: Vec<u8> = b"aaaaaaaa".to_vec();
    bytes.push(0);
    bytes.push(0xE0);
    bytes.push(0xFF);
    assert_eq!(
        save_image_from_container(&bytes),
        Err(SaveError::MalformedContainer)
    );
}

#[test]
fn compressed_container_becomes_a_full_save_image() {
    // Build a genuine single-song container around the default song, then
    // feed its bytes through the loader.
    let name = lsdj::name::Name::<8>::from_str("EMPTY").unwrap();
    let song = lsdj::song::SongMemory::new();
    let sng = lsdj::lsdsng::LsdSng::from_song(name, 0, &song).unwrap();
    let mut bytes: Vec<u8> = Vec::new();
    sng.to_writer(&mut bytes).unwrap();

    let img = save_image_from_container(&bytes).expect("a valid container decompresses");
    assert_eq!(img.len(), 131072);
    // The working-memory slot at the head of the image holds the song.
    let mut expected_head: Vec<u8> = Vec::new();
    song.to_writer(&mut expected_head).unwrap();
    assert_eq!(&img[..0x8000], &expected_head[..]);
}

#[test]
fn prepared_raw_save_run_keeps_the_image_and_skips_the_script() {
    let input: Vec<u8> = vec![1, 2, 3, 4];
    let (image, actions) = prepare_run(&b"song.sav".to_vec(), input.clone(), 2).unwrap();
    assert_eq!(image, input);
    assert_eq!(
        actions,
        vec![
            Action::Run(83886080),
            Action::Press(lsdj_ripper::keys::Key::Start),
            Action::Run(419430),
            Action::Release(lsdj_ripper::keys::Key::Start),
            Action::Run(8388608), // 2 s recording
        ]
    );
}

#[test]
fn prepared_run_rejects_bad_inputs_before_anything_runs() {
    assert_eq!(
        prepare_run(&b"song.txt".to_vec(), vec![1, 2, 3], 1),
        Err(SaveError::UnrecognizedExtension)
    );
    assert_eq!(
        prepare_run(&b"song.lsdsng".to_vec(), vec![1, 2, 3], 1),
        Err(SaveError::MalformedContainer)
    );
}

#[test]
fn quantization_rounds_to_the_nearest_representable_sample() {
    // The fixed-point conversion the capture path applies before samples
    // reach the sink: scale by the 16-bit maximum, clamp, round.
    let floats: Vec<f32> = vec![0.0, 1.0, -1.0, 0.5, -2.0, 0.25];
    let converted: wavers::Samples<i16> = wavers::Samples::from(floats).convert();
    let quantized: Vec<i16> = converted.as_ref().to_vec();
    assert_eq!(quantized, vec![0, 32767, -32767, 16384, -32768, 8192]);
}

#[test]
fn quantized_frames_round_trip_through_the_sink() {
    // N known frames in, exactly N interleaved quantized frames out.
    let left: Vec<f32> = vec![0.0, 0.5, 1.0];
    let right: Vec<f32> = vec![-1.0, 0.25, -2.0];
    let lq: Vec<i16> = wavers::Samples::from(left).convert::<i16>().as_ref().to_vec();
    let rq: Vec<i16> = wavers::Samples::from(right).convert::<i16>().as_ref().to_vec();

    let mut p = Player::new("rt.wav".to_string(), 48000);
    p.play(&lq, &rq);
    let (_, rate, samples) = p.finalize();
    assert_eq!(rate, 48000);
    assert_eq!(samples, vec![0, -32767, 16384, 8192, 32767, -32768]);
}
