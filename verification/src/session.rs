//! Session controller: lifecycle and the ordered command channel.
//!
//! One session owns an unbounded channel multiplexing compressed audio
//! packets with control events (volume, end-of-stream) into the decode
//! worker.  Because every command travels over the single channel, a
//! volume change or stop is applied strictly after all audio queued before
//! it and strictly before audio queued after it.  The controller walks the
//! lifecycle `Idle -> Starting -> Running -> Stopping -> Idle`; only
//! configuration failures and an explicit stop end a session.

use crate::codec::AudioFormat;
use crate::codec::CodecKind;
use crate::codec::ConfigError;
use crate::codec::DecoderConfig;
use crate::codec::codec_supported;
use crate::codec::configure;
use crate::codec::default_config_hex;
use crate::codec::spec_default_blob;
use crate::codec::hex_bytes;
use vstd::prelude::*;

verus! {

/// Relies on crossbeam_channel::Sender: the sending half of a channel,
/// opaque to the verifier.
#[verifier::external_type_specification]
#[verifier::external_body]
#[verifier::reject_recursive_types(T)]
pub struct ExSender<T>(crossbeam::channel::Sender<T>);

/// Relies on crossbeam_channel::Receiver: the receiving half of a channel,
/// opaque to the verifier; the decode worker outside this crate drains it.
#[verifier::external_type_specification]
#[verifier::external_body]
#[verifier::reject_recursive_types(T)]
pub struct ExReceiver<T>(crossbeam::channel::Receiver<T>);

/// One compressed frame from the stream source, with its source timestamp.
pub struct AudioPacket {
    pub data: Vec<u8>,
    pub timestamp: u32,
}

/// A command multiplexed onto the session's ordered channel.
pub enum Command {
    /// A compressed audio frame to decode and play.
    Packet(AudioPacket),
    /// A volume change, in thousandths of unit gain.
    SetVolume(u32),
    /// End of stream: the worker drains and exits.
    End,
}

#[derive(Clone, Copy, Debug, PartialEq, Eq, Structural)]
pub enum SessionState {
    Idle,
    Starting,
    Running,
    Stopping,
}

/// The command channel disconnected unexpectedly: the worker is gone, and
/// the session treats it as an implicit stop.
#[derive(Clone, Copy, Debug, PartialEq, Eq, Structural)]
pub struct ChannelClosed;

/// Relies on crossbeam_channel::unbounded: creates the sending and
/// receiving halves of one unbounded FIFO channel.
#[verifier::external_body]
fn channel_unbounded() -> (crossbeam::channel::Sender<Command>, crossbeam::channel::Receiver<
    Command,
>) {
    crossbeam::channel::unbounded()
}

/// Relies on crossbeam Sender::send: on an unbounded channel it never
/// blocks; it fails only when all receivers are gone, handing the
/// undelivered message back.
#[verifier::external_body]
fn send_command(tx: &crossbeam::channel::Sender<Command>, cmd: Command) -> (r: Result<
    (),
    Command,
>)
    ensures
        r matches Err(c) ==> c == cmd,
{
    match tx.send(cmd) {
        Ok(()) => Ok(()),
        Err(crossbeam::channel::SendError(c)) => Err(c),
    }
}

/// Session controller for the audio half of the pipeline.  The decode
/// worker and device output run outside this crate; they drain the
/// receiving half of the command channel.
pub struct FfMpegAudio {
    tx: crossbeam::channel::Sender<Command>,
    state: SessionState,
    samples_per_frame: u64,
}

impl FfMpegAudio {
    pub closed spec fn spec_state(&self) -> SessionState {
        self.state
    }

    pub closed spec fn spec_samples_per_frame(&self) -> u64 {
        self.samples_per_frame
    }

    /// A fresh controller wrapping the sending half of a new command
    /// channel; the receiving half is handed to the decode worker.  The
    /// session starts idle.
    pub fn new() -> (r: (FfMpegAudio, crossbeam::channel::Receiver<Command>))
        ensures
            r.0.spec_state() == SessionState::Idle,
            r.0.spec_samples_per_frame() == 0,
    {
        let (tx, rx) = channel_unbounded();
        (FfMpegAudio { tx, state: SessionState::Idle, samples_per_frame: 0 }, rx)
    }

    pub fn state(&self) -> (r: SessionState)
        ensures
            r == self.spec_state(),
    {
        self.state
    }

    /// Records the negotiated nominal per-frame sample count.
    pub fn set_samples_per_frame(&mut self, samples_per_frame: u64)
        ensures
            final(self).spec_samples_per_frame() == samples_per_frame,
            final(self).spec_state() == old(self).spec_state(),
    {
        self.samples_per_frame = samples_per_frame;
    }

    /// Configures the codec adapter for a negotiated format and moves the
    /// session from idle toward running.  On success the caller builds the
    /// external decoder from the returned configuration, spawns the decode
    /// worker on the receiving half of the channel, and the session is
    /// running; a configuration failure leaves the session idle.
    pub fn start(&mut self, format: AudioFormat) -> (r: Result<DecoderConfig, ConfigError>)
        requires
            old(self).spec_state() == SessionState::Idle,
        ensures
            final(self).spec_samples_per_frame() == old(self).spec_samples_per_frame(),
            !codec_supported(format.spec_codec_kind()) ==> r == Err::<DecoderConfig, ConfigError>(
                ConfigError::UnsupportedCodec,
            ) && final(self).spec_state() == SessionState::Idle,
            codec_supported(format.spec_codec_kind()) ==> r is Ok && final(self).spec_state()
                == SessionState::Running,
            r matches Ok(c) ==> {
                &&& c.wf()
                &&& c.kind == format.spec_codec_kind()
                &&& c.sample_rate == format.spec_rate()
                &&& c.channels == format.spec_channels()
                &&& c.extradata@ == hex_bytes(spec_default_blob(format.spec_codec_kind()))
            },
    {
        let kind = format.codec_kind();
        match kind {
            CodecKind::Pcm => {
                return Err(ConfigError::UnsupportedCodec);
            },
            CodecKind::Opus => {
                return Err(ConfigError::UnsupportedCodec);
            },
            _ => {},
        }
        self.state = SessionState::Starting;
        let (rate, channels) = format.rate_channel();
        let blob = default_config_hex(kind);
        match configure(kind, blob, rate, channels) {
            Ok(config) => {
                self.state = SessionState::Running;
                Ok(config)
            },
            Err(e) => {
                self.state = SessionState::Idle;
                Err(e)
            },
        }
    }

    /// Queues one compressed frame behind everything already queued.  A
    /// disconnected channel means the worker is gone: the session treats
    /// it as an implicit stop.
    pub fn push_buffer(&mut self, packet: AudioPacket) -> (r: Result<(), ChannelClosed>)
        requires
            old(self).spec_state() == SessionState::Running,
        ensures
            final(self).spec_samples_per_frame() == old(self).spec_samples_per_frame(),
            r is Ok ==> final(self).spec_state() == SessionState::Running,
            r is Err ==> final(self).spec_state() == SessionState::Stopping,
    {
        match send_command(&self.tx, Command::Packet(packet)) {
            Ok(()) => Ok(()),
            Err(_) => {
                self.state = SessionState::Stopping;
                Err(ChannelClosed)
            },
        }
    }

    /// Queues a volume change; it applies strictly after all audio queued
    /// before it and strictly before audio queued after it.
    pub fn set_volume(&mut self, gain_milli: u32) -> (r: Result<(), ChannelClosed>)
        requires
            old(self).spec_state() == SessionState::Running,
        ensures
            final(self).spec_samples_per_frame() == old(self).spec_samples_per_frame(),
            r is Ok ==> final(self).spec_state() == SessionState::Running,
            r is Err ==> final(self).spec_state() == SessionState::Stopping,
    {
        match send_command(&self.tx, Command::SetVolume(gain_milli)) {
            Ok(()) => Ok(()),
            Err(_) => {
                self.state = SessionState::Stopping;
                Err(ChannelClosed)
            },
        }
    }

    /// Queues the end-of-stream mark behind all previously queued packets;
    /// the worker processes them first, then drains and exits.
    pub fn stop(&mut self)
        requires
            old(self).spec_state() == SessionState::Running,
        ensures
            final(self).spec_samples_per_frame() == old(self).spec_samples_per_frame(),
            final(self).spec_state() == SessionState::Stopping,
    {
        let _ = send_command(&self.tx, Command::End);
        self.state = SessionState::Stopping;
    }

    /// Acknowledges that the decode worker has exited cleanly; the session
    /// is idle again and may be reconfigured.
    pub fn worker_exited(&mut self)
        requires
            old(self).spec_state() == SessionState::Stopping,
        ensures
            final(self).spec_samples_per_frame() == old(self).spec_samples_per_frame(),
            final(self).spec_state() == SessionState::Idle,
    {
        self.state = SessionState::Idle;
    }
}

} // verus!
