//! Decode-side engine: per-frame rate control, volume scaling, and the
//! ordered processing of worker events.
//!
//! The decode worker owns one [`Engine`].  For every decoded frame it runs
//! one rate-control evaluation against the ring buffer occupancy read just
//! before the push, scales the samples by the current volume gain, and
//! pushes them; volume changes and the end-of-stream mark are applied
//! strictly in arrival order between frames.  The [`run_model`] spec
//! function is the mathematical account of that loop, and the laws at the
//! bottom pin down the ordering guarantees.

use crate::rate::RateControl;
use crate::ring::RingBuffer;
use crate::ring::accepted_of;
use crate::ring::push_result;
use crate::volume::DEFAULT_GAIN_MILLI;
use crate::volume::scale_samples;
use crate::volume::scaled_frame;
use vstd::prelude::*;

verus! {

/// One unit of work for the decode worker, after decoding: a decoded PCM
/// frame, a volume change, or the end-of-stream mark.
pub enum AudioEvent {
    Frame(Vec<i16>),
    Volume(u32),
    End,
}

/// Decode-side engine state: the drift-compensating rate controller, the
/// volume gain in thousandths, and whether the end mark has been seen.
pub struct Engine {
    pub rate: RateControl,
    pub gain_milli: u32,
    pub stopped: bool,
}

/// Mathematical state of the worker: engine state plus the ring buffer
/// contents it feeds.
#[verifier::ext_equal]
pub struct EngineModel {
    pub gain: u32,
    pub rate: RateControl,
    pub buffer: Seq<i16>,
    pub stopped: bool,
}

/// Effect of one event on the worker state: a frame runs one rate-control
/// evaluation at the pre-push occupancy, is scaled by the current gain and
/// pushed (dropping any excess); a volume change replaces the gain; the
/// end mark stops the worker.
pub open spec fn step_model(m: EngineModel, cap: int, e: AudioEvent) -> EngineModel {
    match e {
        AudioEvent::Frame(v) => EngineModel {
            rate: RateControl { rate: m.rate.next_rate(m.buffer.len() as int) as u32, ..m.rate },
            buffer: push_result(m.buffer, cap, scaled_frame(v@, m.gain as int)),
            ..m
        },
        AudioEvent::Volume(g) => EngineModel { gain: g, ..m },
        AudioEvent::End => EngineModel { stopped: true, ..m },
    }
}

/// Worker state after processing events strictly in arrival order; once
/// the end mark has been seen, remaining events are drained with no
/// further audio work.
pub open spec fn run_model(m: EngineModel, cap: int, evts: Seq<AudioEvent>) -> EngineModel
    decreases evts.len(),
{
    if evts.len() == 0 || m.stopped {
        m
    } else {
        run_model(step_model(m, cap, evts[0]), cap, evts.drop_first())
    }
}

impl Engine {
    pub open spec fn wf(&self) -> bool {
        self.rate.wf()
    }

    /// The worker state this engine is in, over the given buffer contents.
    pub open spec fn model(&self, buffer: Seq<i16>) -> EngineModel {
        EngineModel { gain: self.gain_milli, rate: self.rate, buffer, stopped: self.stopped }
    }

    /// A fresh engine for one session, at the codec's nominal rate and the
    /// default volume gain.
    pub fn new(rate: RateControl) -> (r: Engine)
        requires
            rate.wf(),
        ensures
            r.wf(),
            r.rate == rate,
            r.gain_milli == DEFAULT_GAIN_MILLI,
            !r.stopped,
    {
        Engine { rate, gain_milli: DEFAULT_GAIN_MILLI, stopped: false }
    }

    /// Processes one decoded, format-normalized frame: evaluates the rate
    /// controller at the occupancy read just before the push, scales the
    /// samples by the current gain, and pushes them, dropping exactly the
    /// excess once the buffer is full.  Returns how many samples the
    /// buffer accepted.
    pub fn process_frame(&mut self, rb: &mut RingBuffer, samples: &[i16]) -> (accepted: usize)
        requires
            old(self).wf(),
            old(rb).wf(),
        ensures
            final(self).wf(),
            final(rb).wf(),
            final(rb).capacity() == old(rb).capacity(),
            final(self).gain_milli == old(self).gain_milli,
            final(self).stopped == old(self).stopped,
            final(self).rate.same_config(&old(self).rate),
            final(self).rate.spec_rate() == old(self).rate.next_rate(old(rb)@.len() as int),
            final(rb)@ =~= push_result(
                old(rb)@,
                old(rb).capacity(),
                scaled_frame(samples@, old(self).gain_milli as int),
            ),
            accepted == accepted_of(
                old(rb)@,
                old(rb).capacity(),
                scaled_frame(samples@, old(self).gain_milli as int),
            ),
    {
        let occupancy = rb.len();
        self.rate.adjust(occupancy);
        let scaled = scale_samples(samples, self.gain_milli);
        rb.push_slice(scaled.as_slice())
    }

    /// Applies a volume change; it takes effect from the next frame on.
    pub fn set_gain(&mut self, gain_milli: u32)
        requires
            old(self).wf(),
        ensures
            final(self).wf(),
            final(self).gain_milli == gain_milli,
            final(self).rate == old(self).rate,
            final(self).stopped == old(self).stopped,
    {
        self.gain_milli = gain_milli;
    }

    /// Marks the end of the stream: no further audio work follows.
    pub fn mark_stopped(&mut self)
        requires
            old(self).wf(),
        ensures
            final(self).wf(),
            final(self).stopped,
            final(self).rate == old(self).rate,
            final(self).gain_milli == old(self).gain_milli,
    {
        self.stopped = true;
    }

    /// Processes one event; the caller drains the queue without calling
    /// this once the end mark has been seen.
    pub fn on_event(&mut self, rb: &mut RingBuffer, e: &AudioEvent)
        requires
            old(self).wf(),
            old(rb).wf(),
            !old(self).stopped,
        ensures
            final(self).wf(),
            final(rb).wf(),
            final(rb).capacity() == old(rb).capacity(),
            final(self).model(final(rb)@) =~= step_model(
                old(self).model(old(rb)@),
                old(rb).capacity(),
                *e,
            ),
    {
        match e {
            AudioEvent::Frame(v) => {
                self.process_frame(rb, v.as_slice());
            },
            AudioEvent::Volume(g) => {
                self.set_gain(*g);
            },
            AudioEvent::End => {
                self.mark_stopped();
            },
        }
    }

    /// The worker receive loop over an already-queued event sequence:
    /// events are processed strictly in arrival order, and everything
    /// after the end mark is drained without further audio work.
    #[verifier::loop_isolation(false)]
    pub fn run_events(&mut self, rb: &mut RingBuffer, evts: &Vec<AudioEvent>)
        requires
            old(self).wf(),
            old(rb).wf(),
        ensures
            final(self).wf(),
            final(rb).wf(),
            final(rb).capacity() == old(rb).capacity(),
            final(self).model(final(rb)@) =~= run_model(
                old(self).model(old(rb)@),
                old(rb).capacity(),
                evts@,
            ),
    {
        let ghost m0 = self.model(rb@);
        let ghost cap = rb.capacity();
        proof {
            assert(evts@.skip(0) =~= evts@);
        }
        let mut i: usize = 0;
        while i < evts.len() && !self.stopped
            invariant
                i <= evts@.len(),
                self.wf(),
                rb.wf(),
                rb.capacity() == cap,
                run_model(m0, cap, evts@) =~= run_model(
                    self.model(rb@),
                    cap,
                    evts@.skip(i as int),
                ),
            decreases evts@.len() - i,
        {
            proof {
                assert(evts@.skip(i as int)[0] == evts@[i as int]);
                assert(evts@.skip(i as int).drop_first() =~= evts@.skip(i as int + 1));
            }
            self.on_event(rb, &evts[i]);
            i = i + 1;
        }
    }
}

/// Command-ordering law: for the event sequence frame `a`, volume change
/// `v`, frame `b`, processed in order from a non-stopped state with an
/// empty buffer of sufficient capacity, the buffer afterwards holds `a`
/// scaled by the gain in effect before the change, followed by `b` scaled
/// by `v`.
pub proof fn lemma_volume_ordering(m: EngineModel, cap: int, a: Vec<i16>, v: u32, b: Vec<i16>)
    requires
        !m.stopped,
        m.buffer =~= Seq::<i16>::empty(),
        a@.len() + b@.len() <= cap - 1,
    ensures
        run_model(
            m,
            cap,
            seq![AudioEvent::Frame(a), AudioEvent::Volume(v), AudioEvent::Frame(b)],
        ).buffer =~= scaled_frame(a@, m.gain as int) + scaled_frame(b@, v as int),
{
    let evts = seq![AudioEvent::Frame(a), AudioEvent::Volume(v), AudioEvent::Frame(b)];
    let sa = scaled_frame(a@, m.gain as int);
    let sb = scaled_frame(b@, v as int);
    let m1 = step_model(m, cap, evts[0]);
    assert(m1.buffer =~= sa) by {
        assert(sa.take(sa.len() as int) =~= sa);
    }
    let m2 = step_model(m1, cap, evts[1]);
    let m3 = step_model(m2, cap, evts[2]);
    assert(m3.buffer =~= sa + sb) by {
        assert(sb.take(sb.len() as int) =~= sb);
    }
    assert(evts.drop_first()[0] == evts[1]);
    assert(evts.drop_first().drop_first()[0] == evts[2]);
    assert(run_model(m, cap, evts) == run_model(m1, cap, evts.drop_first()));
    assert(run_model(m1, cap, evts.drop_first()) == run_model(
        m2,
        cap,
        evts.drop_first().drop_first(),
    ));
    assert(run_model(m2, cap, evts.drop_first().drop_first()) == run_model(
        m3,
        cap,
        evts.drop_first().drop_first().drop_first(),
    ));
    assert(evts.drop_first().drop_first().drop_first().len() == 0);
}

/// Stop-ordering law: an end mark submitted after a batch of events is
/// processed only after every one of them — the worker state at exit is
/// exactly the state after the whole batch, marked stopped, and events
/// queued after the end mark contribute nothing.
pub proof fn lemma_stop_ordering(
    m: EngineModel,
    cap: int,
    pre: Seq<AudioEvent>,
    post: Seq<AudioEvent>,
)
    requires
        !m.stopped,
        forall|i: int| 0 <= i < pre.len() ==> !(#[trigger] pre[i] is End),
    ensures
        run_model(m, cap, pre + seq![AudioEvent::End] + post) =~= (EngineModel {
            stopped: true,
            ..run_model(m, cap, pre)
        }),
    decreases pre.len(),
{
    let evts = pre + seq![AudioEvent::End] + post;
    if pre.len() == 0 {
        assert(evts[0] is End);
        let m1 = step_model(m, cap, evts[0]);
        assert(m1 =~= (EngineModel { stopped: true, ..m }));
        assert(run_model(m1, cap, evts.drop_first()) == m1);
    } else {
        let e0 = pre[0];
        assert(evts[0] == e0);
        let m1 = step_model(m, cap, e0);
        assert(!m1.stopped);
        lemma_stop_ordering(m1, cap, pre.drop_first(), post);
        assert(evts.drop_first() =~= pre.drop_first() + seq![AudioEvent::End] + post);
    }
}

} // verus!
