use kircast_audio::codec::{configure, CodecKind};
use kircast_audio::engine::{AudioEvent, Engine};
use kircast_audio::ring::{RingBuffer, PLAYBACK_BUFFER_CAPACITY, SILENCE};
use kircast_audio::volume::GAIN_UNIT;

fn engine_44100_stereo_aac() -> Engine {
    let config = configure(CodecKind::AacLc, "1210", 44100, 2).unwrap();
    Engine::new(config.rate_control())
}

#[test]
fn quiet_buffer_keeps_nominal_rate() {
    let mut engine = engine_44100_stereo_aac();
    let mut rb = RingBuffer::new(PLAYBACK_BUFFER_CAPACITY);
    engine.set_gain(GAIN_UNIT);
    let samples = vec![100i16; 1000];
    let accepted = engine.process_frame(&mut rb, &samples);
    assert_eq!(accepted, 1000);
    assert_eq!(engine.rate.rate(), 44100);
    assert_eq!(rb.len(), 1000);
}

#[test]
fn sustained_backlog_raises_rate_after_high_watermark() {
    // nominal_rate=44100, channel_count=2, high_watermark=7350,
    // low_watermark=3675; 50 frames of 1000 samples, no consumption
    let config = configure(CodecKind::AacLc, "1210", 44100, 2).unwrap();
    assert_eq!(config.high_watermark, 7350);
    assert_eq!(config.low_watermark, 3675);
    let mut engine = Engine::new(config.rate_control());
    engine.set_gain(GAIN_UNIT);
    let mut rb = RingBuffer::new(PLAYBACK_BUFFER_CAPACITY);
    let frame = vec![100i16; 1000];
    for _ in 0..8 {
        engine.process_frame(&mut rb, &frame);
    }
    // 8000 samples buffered, but every occupancy read so far was <= 7350
    assert_eq!(rb.len(), 8000);
    assert_eq!(engine.rate.rate(), 44100);
    // the next frame reads 8000 > 7350 and the rate steps up
    engine.process_frame(&mut rb, &frame);
    assert_eq!(engine.rate.rate(), 44102);
    for _ in 9..50 {
        engine.process_frame(&mut rb, &frame);
    }
    // one step of 2 Hz for each of the frames 9..=50
    assert_eq!(engine.rate.rate(), 44100 + 42 * 2);
    assert!(engine.rate.rate() > 44100);
    assert_eq!(rb.len(), 50000);
}

#[test]
fn frames_are_scaled_by_the_gain_in_effect() {
    let mut engine = engine_44100_stereo_aac();
    let mut rb = RingBuffer::new(16);
    engine.set_gain(500);
    engine.process_frame(&mut rb, &[1000, -1000]);
    engine.set_gain(GAIN_UNIT);
    engine.process_frame(&mut rb, &[1000, -1000]);
    let mut out = vec![0i16; 4];
    assert_eq!(rb.pop_slice(&mut out), 4);
    assert_eq!(out, vec![500, -500, 1000, -1000]);
}

#[test]
fn volume_change_orders_between_frames() {
    // Frame(a), Volume(v), Frame(b): a reflects the prior gain, b reflects v
    let mut engine = engine_44100_stereo_aac();
    engine.set_gain(GAIN_UNIT);
    let mut rb = RingBuffer::new(64);
    let events = vec![
        AudioEvent::Frame(vec![1000, 2000]),
        AudioEvent::Volume(700),
        AudioEvent::Frame(vec![1000, 2000]),
    ];
    engine.run_events(&mut rb, &events);
    assert!(!engine.stopped);
    assert_eq!(engine.gain_milli, 700);
    let mut out = vec![0i16; 4];
    assert_eq!(rb.pop_slice(&mut out), 4);
    assert_eq!(out, vec![1000, 2000, 700, 1400]);
}

#[test]
fn end_mark_processes_prior_frames_and_stops() {
    // Frame(a), End, Frame(b): a is fully processed, b is drained unplayed
    let mut engine = engine_44100_stereo_aac();
    engine.set_gain(GAIN_UNIT);
    let mut rb = RingBuffer::new(64);
    let events = vec![
        AudioEvent::Frame(vec![11, 22, 33]),
        AudioEvent::End,
        AudioEvent::Frame(vec![44, 55]),
    ];
    engine.run_events(&mut rb, &events);
    assert!(engine.stopped);
    assert_eq!(rb.len(), 3);
    let mut out = vec![0i16; 3];
    rb.pop_slice(&mut out);
    assert_eq!(out, vec![11, 22, 33]);
}

#[test]
fn overfull_buffer_drops_newest_excess_per_frame() {
    let mut engine = engine_44100_stereo_aac();
    engine.set_gain(GAIN_UNIT);
    let mut rb = RingBuffer::new(8);
    let accepted = engine.process_frame(&mut rb, &[1, 2, 3, 4, 5, 6, 7, 8, 9]);
    assert_eq!(accepted, 7);
    assert_eq!(rb.len(), 7);
}

#[test]
fn sink_pops_and_pads_after_engine_push() {
    let mut engine = engine_44100_stereo_aac();
    engine.set_gain(GAIN_UNIT);
    let mut rb = RingBuffer::new(PLAYBACK_BUFFER_CAPACITY);
    engine.process_frame(&mut rb, &[7, 8, 9]);
    let mut device_buffer = vec![1i16; 6];
    let filled = rb.pop_silence_padded(&mut device_buffer);
    assert_eq!(filled, 3);
    assert_eq!(device_buffer, vec![7, 8, 9, SILENCE, SILENCE, SILENCE]);
}
