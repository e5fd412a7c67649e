use kircast_audio::codec::{AudioFormat, CodecKind, ConfigError};
use kircast_audio::session::{AudioPacket, Command, FfMpegAudio, SessionState};

#[test]
fn new_session_is_idle() {
    let (session, _rx) = FfMpegAudio::new();
    assert_eq!(session.state(), SessionState::Idle);
}

#[test]
fn samples_per_frame_is_recorded() {
    let (mut session, _rx) = FfMpegAudio::new();
    session.set_samples_per_frame(352);
    assert_eq!(session.state(), SessionState::Idle);
}

#[test]
fn start_with_supported_format_runs() {
    let (mut session, _rx) = FfMpegAudio::new();
    let config = session.start(AudioFormat::AacLc44100_2).unwrap();
    assert_eq!(session.state(), SessionState::Running);
    assert_eq!(config.kind, CodecKind::AacLc);
    assert_eq!(config.sample_rate, 44100);
    assert_eq!(config.channels, 2);
    assert_eq!(config.extradata, vec![0x12, 0x10]);
}

#[test]
fn start_with_alac_decodes_the_magic_cookie() {
    let (mut session, _rx) = FfMpegAudio::new();
    let config = session.start(AudioFormat::Alac44100_16_2).unwrap();
    assert_eq!(config.kind, CodecKind::Alac);
    assert_eq!(config.extradata.len(), 36);
    assert_eq!(config.high_watermark, 14700);
}

#[test]
fn start_with_unsupported_format_stays_idle() {
    let (mut session, _rx) = FfMpegAudio::new();
    let err = session.start(AudioFormat::Pcm44100_16_2).unwrap_err();
    assert_eq!(err, ConfigError::UnsupportedCodec);
    assert_eq!(session.state(), SessionState::Idle);
    let err = session.start(AudioFormat::Opus48000_2).unwrap_err();
    assert_eq!(err, ConfigError::UnsupportedCodec);
    assert_eq!(session.state(), SessionState::Idle);
}

#[test]
fn commands_arrive_in_submission_order() {
    let (mut session, rx) = FfMpegAudio::new();
    session.start(AudioFormat::AacLc44100_2).unwrap();
    session
        .push_buffer(AudioPacket { data: vec![1, 2, 3], timestamp: 10 })
        .unwrap();
    session.set_volume(750).unwrap();
    session
        .push_buffer(AudioPacket { data: vec![4, 5], timestamp: 11 })
        .unwrap();
    session.stop();
    assert_eq!(session.state(), SessionState::Stopping);

    match rx.recv().unwrap() {
        Command::Packet(p) => {
            assert_eq!(p.data, vec![1, 2, 3]);
            assert_eq!(p.timestamp, 10);
        }
        _ => panic!("expected the first packet"),
    }
    match rx.recv().unwrap() {
        Command::SetVolume(gain) => assert_eq!(gain, 750),
        _ => panic!("expected the volume change"),
    }
    match rx.recv().unwrap() {
        Command::Packet(p) => {
            assert_eq!(p.data, vec![4, 5]);
            assert_eq!(p.timestamp, 11);
        }
        _ => panic!("expected the second packet"),
    }
    match rx.recv().unwrap() {
        Command::End => {}
        _ => panic!("expected the end mark"),
    }
}

#[test]
fn worker_exit_returns_the_session_to_idle() {
    let (mut session, rx) = FfMpegAudio::new();
    session.start(AudioFormat::AacLc44100_2).unwrap();
    session.stop();
    drop(rx);
    session.worker_exited();
    assert_eq!(session.state(), SessionState::Idle);
    // the session may be configured again
    session.start(AudioFormat::Alac44100_16_2).unwrap();
    assert_eq!(session.state(), SessionState::Running);
}

#[test]
fn disconnected_channel_is_an_implicit_stop() {
    let (mut session, rx) = FfMpegAudio::new();
    session.start(AudioFormat::AacLc44100_2).unwrap();
    drop(rx);
    let err = session.push_buffer(AudioPacket { data: vec![1], timestamp: 0 });
    assert!(err.is_err());
    assert_eq!(session.state(), SessionState::Stopping);
}

#[test]
fn disconnected_channel_fails_volume_changes_too() {
    let (mut session, rx) = FfMpegAudio::new();
    session.start(AudioFormat::AacLc44100_2).unwrap();
    drop(rx);
    let err = session.set_volume(500);
    assert!(err.is_err());
    assert_eq!(session.state(), SessionState::Stopping);
}
