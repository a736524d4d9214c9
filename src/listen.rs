//! The listening state machine: it turns a stream of audio frames into
//! recorded utterances, armed by the wake word and ended by silence or by a
//! maximum duration.
use vstd::prelude::*;

verus! {

#[derive(Clone, Copy, Debug, PartialEq, Eq, Structural)]
pub enum ListenState {
    /// Waiting for the wake word.
    Idle,
    /// Wake word heard; waiting for speech to start.
    Listening,
    /// Accumulating the utterance.
    Recording,
}

/// Settings of the listening state machine.
#[derive(Clone, Copy, Debug)]
pub struct ListenConfig {
    /// Samples per second of the frames.
    pub sample_rate: u64,
    /// Root-mean-square level, in sample units, at or above which a frame
    /// counts as speech whatever the voice-activity classifier says.
    pub rms_threshold: u64,
    /// Consecutive silence that ends an utterance, in milliseconds.
    pub silence_duration_ms: u64,
    /// Longest utterance, in milliseconds.
    pub max_utterance_ms: u64,
}

/// What the caller must do after a frame.
pub enum ListenAction {
    /// Nothing.
    Continue,
    /// The wake word was heard: tell the user that the assistant listens.
    WakeDetected,
    /// An utterance ended: hand its samples to speech recognition.
    UtteranceReady(Vec<i16>),
}

/// The abstract state of a listener.
pub struct ListenView {
    pub cfg: ListenConfig,
    pub state: ListenState,
    pub samples: Seq<i16>,
    /// Samples in the current run of silent frames.
    pub silent_samples: u64,
    /// When recording started, in milliseconds.
    pub start_ms: u64,
    pub saw_post_wake_speech: bool,
}

pub struct Listener {
    cfg: ListenConfig,
    state: ListenState,
    samples: Vec<i16>,
    silent_samples: u64,
    start_ms: u64,
    saw_post_wake_speech: bool,
}

impl View for Listener {
    type V = ListenView;

    closed spec fn view(&self) -> ListenView {
        ListenView {
            cfg: self.cfg,
            state: self.state,
            samples: self.samples@,
            silent_samples: self.silent_samples,
            start_ms: self.start_ms,
            saw_post_wake_speech: self.saw_post_wake_speech,
        }
    }
}

/// The sum of the squares of the samples.
pub open spec fn sum_sq(s: Seq<i16>) -> int
    decreases s.len(),
{
    if s.len() == 0 {
        0
    } else {
        sum_sq(s.drop_last()) + s.last() * s.last()
    }
}

/// Outside recording nothing is buffered, and a recording always follows
/// speech heard after the wake word.
pub open spec fn listen_wf(v: ListenView) -> bool {
    &&& v.state != ListenState::Recording ==> v.samples.len() == 0
    &&& v.state == ListenState::Recording ==> v.saw_post_wake_speech
}

/// Whether a frame's root-mean-square level reaches `threshold`:
/// `sqrt(sum_sq / n) >= threshold`, written without the root.
pub open spec fn loud(frame: Seq<i16>, threshold: u64) -> bool {
    frame.len() > 0 && sum_sq(frame) >= frame.len() * threshold * threshold
}

/// The speech decision for a frame: the classifier's verdict or the energy
/// fallback.
pub open spec fn is_speech_frame(cfg: ListenConfig, frame: Seq<i16>, vad_speech: bool) -> bool {
    vad_speech || loud(frame, cfg.rms_threshold)
}

/// A listener with nothing buffered in `state`.
pub open spec fn fresh(cfg: ListenConfig, state: ListenState) -> ListenView {
    ListenView {
        cfg,
        state,
        samples: Seq::empty(),
        silent_samples: 0,
        start_ms: 0,
        saw_post_wake_speech: false,
    }
}

/// Whether accumulated silence reaches the configured duration.
pub open spec fn silence_reached(cfg: ListenConfig, silent_samples: u64) -> bool {
    silent_samples * 1000 >= cfg.silence_duration_ms * cfg.sample_rate
}

/// Time since `start`, in milliseconds; none if the clock went back.
pub open spec fn elapsed_ms(start: u64, now: u64) -> int {
    if now >= start {
        now - start
    } else {
        0
    }
}

/// Silence after a frame of `n` samples: reset by speech, else grown by the
/// frame (saturating).
pub open spec fn next_silence(silent: u64, n: nat, speech: bool) -> u64 {
    if speech {
        0
    } else if silent + n > u64::MAX {
        u64::MAX
    } else {
        (silent + n) as u64
    }
}

/// Whether the utterance ends on this frame.
pub open spec fn utterance_ends(v: ListenView, silent: u64, now: u64) -> bool {
    silence_reached(v.cfg, silent) || elapsed_ms(v.start_ms, now) >= v.cfg.max_utterance_ms
}

/// The listener after `frame`, and the action, given the wake-word verdict
/// `wake` and the speech decision `speech` for that frame.
pub open spec fn step_spec(
    v: ListenView,
    frame: Seq<i16>,
    wake: bool,
    speech: bool,
    now: u64,
    v2: ListenView,
    a: ListenAction,
) -> bool {
    match v.state {
        ListenState::Idle => if wake {
            v2 == fresh(v.cfg, ListenState::Listening) && a is WakeDetected
        } else {
            v2 == v && a is Continue
        },
        ListenState::Listening => if wake {
            v2 == fresh(v.cfg, ListenState::Listening) && a is WakeDetected
        } else if speech {
            v2 == ListenView {
                cfg: v.cfg,
                state: ListenState::Recording,
                samples: frame,
                silent_samples: 0,
                start_ms: now,
                saw_post_wake_speech: true,
            } && a is Continue
        } else {
            v2 == v && a is Continue
        },
        ListenState::Recording => {
            let buf = v.samples + frame;
            let silent = next_silence(v.silent_samples, frame.len(), speech);
            if utterance_ends(v, silent, now) {
                v2 == fresh(v.cfg, ListenState::Idle) && if v.saw_post_wake_speech && buf.len()
                    > 0 {
                    a matches ListenAction::UtteranceReady(u) && u@ == buf
                } else {
                    a is Continue
                }
            } else {
                v2 == ListenView { samples: buf, silent_samples: silent, ..v } && a is Continue
            }
        },
    }
}

/// Whether the frame's root-mean-square level reaches `threshold` sample
/// units.
pub fn is_loud(frame: &[i16], threshold: u64) -> (r: bool)
    ensures
        r == loud(frame@, threshold),
{
    let n = frame.len();
    let mut sum: u128 = 0;
    let mut i: usize = 0;
    while i < n
        invariant
            i <= n == frame@.len(),
            sum == sum_sq(frame@.take(i as int)),
            sum <= i * 0x4000_0000,
        decreases n - i,
    {
        let x = frame[i] as i32;
        assert(frame@.take(i + 1).drop_last() == frame@.take(i as int));
        assert(0 <= x * x <= 0x4000_0000) by (nonlinear_arith)
            requires
                -32768 <= x <= 32767,
        ;
        let sq = (x * x) as u128;
        assert(sum + sq <= (i + 1) * 0x4000_0000);
        sum = sum + sq;
        i = i + 1;
    }
    assert(frame@.take(n as int) == frame@);
    if n == 0 {
        return false;
    }
    if threshold > 0x1_0000 {
        // a level above the largest sample is never reached
        assert(n * threshold * threshold > n * 0x4000_0000) by (nonlinear_arith)
            requires
                threshold > 0x1_0000,
                n > 0,
        ;
        return false;
    }
    assert(n * threshold * threshold <= n * 0x1_0000_0000) by (nonlinear_arith)
        requires
            threshold <= 0x1_0000,
    ;
    assert(n * 0x1_0000_0000 <= 0x1_0000_0000_0000_0000_0000_0000);
    assert(threshold * threshold <= 0x1_0000_0000) by (nonlinear_arith)
        requires
            threshold <= 0x1_0000,
    ;
    let t2 = (threshold as u128) * (threshold as u128);
    assert(t2 <= 0x1_0000_0000) by (nonlinear_arith)
        requires
            t2 == threshold * threshold,
            threshold <= 0x1_0000,
    ;
    assert((n as u128) * t2 <= n * 0x1_0000_0000) by (nonlinear_arith)
        requires
            t2 <= 0x1_0000_0000,
    ;
    assert((n as u128) * t2 == n * threshold * threshold) by (nonlinear_arith)
        requires
            t2 == threshold * threshold,
    ;
    let bound = (n as u128) * t2;
    sum >= bound
}

/// Appends `frame` to `buf`.
fn append_frame(buf: &mut Vec<i16>, frame: &[i16])
    ensures
        final(buf)@ == old(buf)@ + frame@,
{
    let mut i: usize = 0;
    while i < frame.len()
        invariant
            i <= frame@.len(),
            buf@ == old(buf)@ + frame@.take(i as int),
        decreases frame@.len() - i,
    {
        buf.push(frame[i]);
        assert(frame@.take(i + 1) == frame@.take(i as int).push(frame@[i as int]));
        i = i + 1;
    }
    assert(frame@.take(frame@.len() as int) == frame@);
}

impl Listener {
    /// A listener waiting for the wake word.
    pub fn new(cfg: ListenConfig) -> (r: Self)
        ensures
            r@ == fresh(cfg, ListenState::Idle),
            listen_wf(r@),
    {
        Listener {
            cfg,
            state: ListenState::Idle,
            samples: Vec::new(),
            silent_samples: 0,
            start_ms: 0,
            saw_post_wake_speech: false,
        }
    }

    pub fn state(&self) -> (r: ListenState)
        ensures
            r == self@.state,
    {
        self.state
    }

    /// Number of samples buffered for the current utterance.
    pub fn buffered(&self) -> (r: usize)
        ensures
            r == self@.samples.len(),
    {
        self.samples.len()
    }

    fn reset(&mut self, state: ListenState)
        ensures
            final(self)@ == fresh(old(self)@.cfg, state),
    {
        self.state = state;
        self.samples = Vec::new();
        self.silent_samples = 0;
        self.start_ms = 0;
        self.saw_post_wake_speech = false;
    }

    /// Takes one frame, with the wake-word detector's verdict `wake` and the
    /// voice-activity classifier's verdict `vad_speech` on it, at `now_ms`.
    pub fn on_frame(&mut self, frame: &[i16], wake: bool, vad_speech: bool, now_ms: u64) -> (r:
        ListenAction)
        ensures
            step_spec(
                old(self)@,
                frame@,
                wake,
                is_speech_frame(old(self)@.cfg, frame@, vad_speech),
                now_ms,
                final(self)@,
                r,
            ),
            listen_wf(old(self)@) ==> listen_wf(final(self)@),
    {
        match self.state {
            ListenState::Idle => {
                if wake {
                    self.reset(ListenState::Listening);
                    ListenAction::WakeDetected
                } else {
                    ListenAction::Continue
                }
            },
            ListenState::Listening => {
                if wake {
                    self.reset(ListenState::Listening);
                    return ListenAction::WakeDetected;
                }
                if vad_speech || is_loud(frame, self.cfg.rms_threshold) {
                    self.state = ListenState::Recording;
                    self.samples = Vec::new();
                    append_frame(&mut self.samples, frame);
                    self.silent_samples = 0;
                    self.start_ms = now_ms;
                    self.saw_post_wake_speech = true;
                    assert(Seq::<i16>::empty() + frame@ == frame@);
                }
                ListenAction::Continue
            },
            ListenState::Recording => {
                append_frame(&mut self.samples, frame);
                let speech = vad_speech || is_loud(frame, self.cfg.rms_threshold);
                if speech {
                    self.silent_samples = 0;
                } else {
                    self.silent_samples = self.silent_samples.saturating_add(frame.len() as u64);
                }
                let dur = self.cfg.silence_duration_ms as u128;
                let rate = self.cfg.sample_rate as u128;
                assert(dur * rate <= 0xFFFF_FFFF_FFFF_FFFF * 0xFFFF_FFFF_FFFF_FFFF) by (
                nonlinear_arith)
                    requires
                        dur <= 0xFFFF_FFFF_FFFF_FFFF,
                        rate <= 0xFFFF_FFFF_FFFF_FFFF,
                ;
                let silence_done = (self.silent_samples as u128) * 1000 >= dur * rate;
                let elapsed: u64 = if now_ms >= self.start_ms {
                    now_ms - self.start_ms
                } else {
                    0
                };
                if silence_done || elapsed >= self.cfg.max_utterance_ms {
                    let action = if self.saw_post_wake_speech && self.samples.len() > 0 {
                        let mut utterance: Vec<i16> = Vec::new();
                        std::mem::swap(&mut utterance, &mut self.samples);
                        ListenAction::UtteranceReady(utterance)
                    } else {
                        ListenAction::Continue
                    };
                    self.reset(ListenState::Idle);
                    action
                } else {
                    ListenAction::Continue
                }
            },
        }
    }
}

/// While idle, a frame without the wake word changes nothing: the listener
/// stays idle, with an empty buffer, and asks for nothing.
pub proof fn lemma_idle_without_wake_stays_idle(
    v: ListenView,
    frame: Seq<i16>,
    speech: bool,
    now: u64,
    v2: ListenView,
    a: ListenAction,
)
    requires
        listen_wf(v),
        v.state == ListenState::Idle,
        step_spec(v, frame, false, speech, now, v2, a),
    ensures
        v2.state == ListenState::Idle,
        v2.samples.len() == 0,
        a is Continue,
{
}

/// The frame on which the wake word is heard is never buffered: the listener
/// is armed with an empty buffer.
pub proof fn lemma_wake_frame_not_recorded(
    v: ListenView,
    frame: Seq<i16>,
    speech: bool,
    now: u64,
    v2: ListenView,
    a: ListenAction,
)
    requires
        v.state != ListenState::Recording,
        step_spec(v, frame, true, speech, now, v2, a),
    ensures
        v2.state == ListenState::Listening,
        v2.samples.len() == 0,
        a is WakeDetected,
{
}

/// While recording, the utterance ends on a frame exactly when the silence
/// accumulated with that frame reaches the silence duration or the time since
/// recording started reaches the maximum; then the buffer is emptied and the
/// listener is idle again, whether or not an utterance was handed on.
pub proof fn lemma_utterance_end(
    v: ListenView,
    frame: Seq<i16>,
    wake: bool,
    speech: bool,
    now: u64,
    v2: ListenView,
    a: ListenAction,
)
    requires
        v.state == ListenState::Recording,
        step_spec(v, frame, wake, speech, now, v2, a),
    ensures
        (v2.state == ListenState::Idle) == (silence_reached(
            v.cfg,
            next_silence(v.silent_samples, frame.len(), speech),
        ) || elapsed_ms(v.start_ms, now) >= v.cfg.max_utterance_ms),
        v2.state == ListenState::Idle ==> v2.samples.len() == 0,
        v2.state != ListenState::Idle ==> v2.state == ListenState::Recording && v2.samples
            == v.samples + frame,
{
}

} // verus!
