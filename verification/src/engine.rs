//! The state of one limiter and the steps that process a chunk.
//!
//! Processing a chunk takes two calls. `push_waveform` moves the chunk into the
//! window. The caller then measures the RMS level of the window and forms the
//! quotient of threshold and level and the product of gain and decay factor;
//! `update_gain` decides from these what the gain of the chunk is. The caller
//! scales the chunk by that gain.

use crate::config::{Coefficients, LimiterParameters};
use crate::envelope::{
    candidate_gain, gain_after, gain_in_range, is_limiting, lemma_gain_stays_in_range, next_gain,
    spec_is_limiting, update_stays_positive, Measurement,
};
use crate::ieee::{lt, ONE, ZERO};
use crate::window::{capacity_supported, newest, Window};
use vstd::prelude::*;

verus! {

/// What an engine is, to its users. Levels and gains are binary64 bit patterns.
pub struct EngineView {
    pub samplerate: usize,
    pub chunksize: usize,
    /// The samples in the RMS window, oldest first.
    pub window: Seq<u64>,
    /// The size of the RMS window.
    pub capacity: nat,
    pub threshold_voltage_ratio: u64,
    pub decay_per_chunk: u64,
    pub current_gain: u64,
}

impl EngineView {
    /// A fresh engine: nothing in the window, no limiting yet.
    pub open spec fn initial(
        conf: LimiterParameters,
        chunksize: usize,
        samplerate: usize,
        derived: Coefficients,
    ) -> EngineView {
        EngineView {
            samplerate,
            chunksize,
            window: Seq::<u64>::empty(),
            capacity: conf.rms_samples as nat,
            threshold_voltage_ratio: derived.spec_threshold_voltage_ratio(),
            decay_per_chunk: derived.spec_decay_per_chunk(),
            current_gain: ONE,
        }
    }

    /// The engine after a chunk has gone into the window: the window holds the
    /// newest samples of its old contents followed by the chunk.
    pub open spec fn after_waveform(self, waveform: Seq<u64>) -> EngineView {
        EngineView { window: newest(self.window + waveform, self.capacity), ..self }
    }

    /// The engine after the gain has followed the measurement of a chunk.
    pub open spec fn after_gain_update(self, m: Measurement) -> EngineView {
        EngineView { current_gain: gain_after(self.current_gain, m), ..self }
    }

    /// The engine after its configuration was replaced: the factors are the new
    /// ones, the gain is the old one, and the window starts over, empty, if and
    /// only if its size changes.
    pub open spec fn after_parameters(
        self,
        conf: LimiterParameters,
        derived: Coefficients,
    ) -> EngineView {
        if conf.rms_samples == self.capacity {
            EngineView {
                threshold_voltage_ratio: derived.spec_threshold_voltage_ratio(),
                decay_per_chunk: derived.spec_decay_per_chunk(),
                ..self
            }
        } else {
            EngineView {
                threshold_voltage_ratio: derived.spec_threshold_voltage_ratio(),
                decay_per_chunk: derived.spec_decay_per_chunk(),
                window: Seq::<u64>::empty(),
                capacity: conf.rms_samples as nat,
                ..self
            }
        }
    }
}

/// What a named limiter is, to its users.
pub struct LimiterView {
    pub name: Seq<char>,
    pub state: EngineView,
}

/// A new window size makes the limiter forget: right after the update the gain
/// is what it was and the window is empty, so after the next chunk the window
/// holds samples of that chunk only.
pub proof fn lemma_resize_forgets_history(
    before: EngineView,
    conf: LimiterParameters,
    derived: Coefficients,
    waveform: Seq<u64>,
)
    requires
        conf.rms_samples != before.capacity,
    ensures
        before.after_parameters(conf, derived).current_gain == before.current_gain,
        before.after_parameters(conf, derived).window == Seq::<u64>::empty(),
        before.after_parameters(conf, derived).after_waveform(waveform).window == newest(
            waveform,
            conf.rms_samples as nat,
        ),
{
}

/// The gain is in `(0.0, 1.0]` in every state: a fresh engine has a gain of
/// one, a chunk that goes into the window and a change of configuration leave
/// the gain alone, and a gain update keeps it in that range as long as what
/// the measurement makes the gain is above zero.
pub proof fn lemma_gain_always_in_range(
    before: EngineView,
    conf: LimiterParameters,
    chunksize: usize,
    samplerate: usize,
    derived: Coefficients,
    waveform: Seq<u64>,
    m: Measurement,
)
    requires
        gain_in_range(before.current_gain),
        update_stays_positive(before.current_gain, m),
    ensures
        gain_in_range(EngineView::initial(conf, chunksize, samplerate, derived).current_gain),
        gain_in_range(before.after_waveform(waveform).current_gain),
        gain_in_range(before.after_parameters(conf, derived).current_gain),
        gain_in_range(before.after_gain_update(m).current_gain),
{
    lemma_gain_stays_in_range(before.current_gain, m);
}

/// The state that a limiter carries from chunk to chunk.
pub struct Engine {
    samplerate: usize,
    chunksize: usize,
    window: Window,
    threshold_voltage_ratio: u64,
    decay_per_chunk: u64,
    current_gain: u64,
}

impl View for Engine {
    type V = EngineView;

    closed spec fn view(&self) -> EngineView {
        EngineView {
            samplerate: self.samplerate,
            chunksize: self.chunksize,
            window: self.window@.samples,
            capacity: self.window@.capacity,
            threshold_voltage_ratio: self.threshold_voltage_ratio,
            decay_per_chunk: self.decay_per_chunk,
            current_gain: self.current_gain,
        }
    }
}

impl Engine {
    /// The engine's invariant: its window is in order and neither factor is
    /// below zero.
    pub closed spec fn wf(&self) -> bool {
        &&& self.window.wf()
        &&& !lt(self.threshold_voltage_ratio, ZERO)
        &&& !lt(self.decay_per_chunk, ZERO)
    }

    /// What the invariant says of the view: the window has room for a sample
    /// and never holds more than its size, and neither factor is below zero.
    pub proof fn lemma_wf(&self)
        requires
            self.wf(),
        ensures
            0 < self@.capacity,
            self@.window.len() <= self@.capacity,
            !lt(self@.threshold_voltage_ratio, ZERO),
            !lt(self@.decay_per_chunk, ZERO),
    {
        self.window.lemma_within_capacity();
    }

    /// An engine for chunks of `chunksize` samples at `samplerate`, with an
    /// empty window of `conf.rms_samples` samples and a gain of one.
    pub fn new(
        conf: &LimiterParameters,
        chunksize: usize,
        samplerate: usize,
        derived: Coefficients,
    ) -> (engine: Engine)
        requires
            capacity_supported(conf.rms_samples),
        ensures
            engine.wf(),
            engine@ == EngineView::initial(*conf, chunksize, samplerate, derived),
    {
        Engine {
            samplerate,
            chunksize,
            window: Window::new(conf.rms_samples),
            threshold_voltage_ratio: derived.threshold_voltage_ratio(),
            decay_per_chunk: derived.decay_per_chunk(),
            current_gain: ONE,
        }
    }

    pub fn samplerate(&self) -> (n: usize)
        ensures
            n == self@.samplerate,
    {
        self.samplerate
    }

    pub fn chunksize(&self) -> (n: usize)
        ensures
            n == self@.chunksize,
    {
        self.chunksize
    }

    pub fn threshold_voltage_ratio(&self) -> (ratio: u64)
        ensures
            ratio == self@.threshold_voltage_ratio,
    {
        self.threshold_voltage_ratio
    }

    pub fn decay_per_chunk(&self) -> (ratio: u64)
        ensures
            ratio == self@.decay_per_chunk,
    {
        self.decay_per_chunk
    }

    pub fn current_gain(&self) -> (gain: u64)
        ensures
            gain == self@.current_gain,
    {
        self.current_gain
    }

    /// The size of the RMS window.
    pub fn window_capacity(&self) -> (n: usize)
        ensures
            n == self@.capacity,
    {
        self.window.capacity()
    }

    /// The number of samples in the RMS window.
    pub fn window_len(&self) -> (n: usize)
        ensures
            n == self@.window.len(),
    {
        self.window.len()
    }

    /// The sample at place `index` of the RMS window, counted from the oldest.
    pub fn window_sample(&self, index: usize) -> (sample: u64)
        requires
            index < self@.window.len(),
        ensures
            sample == self@.window[index as int],
    {
        self.window.get(index)
    }

    /// A copy of the RMS window, oldest sample first.
    pub fn window_samples(&self) -> (samples: Vec<u64>)
        ensures
            samples@ == self@.window,
    {
        self.window.to_vec()
    }

    /// Moves a chunk into the RMS window, sample by sample.
    pub fn push_waveform(&mut self, waveform: &[u64])
        requires
            old(self).wf(),
        ensures
            final(self).wf(),
            final(self)@ == old(self)@.after_waveform(waveform@),
    {
        self.window.extend(waveform);
    }

    /// Lets the gain follow the level of the window, as `m` has it. Returns
    /// whether the new gain attenuates.
    pub fn update_gain(&mut self, m: Measurement) -> (limiting: bool)
        requires
            old(self).wf(),
        ensures
            final(self).wf(),
            final(self)@ == old(self)@.after_gain_update(m),
            limiting == spec_is_limiting(final(self)@.current_gain),
            gain_in_range(old(self)@.current_gain) ==> (gain_in_range(final(self)@.current_gain)
                <==> update_stays_positive(old(self)@.current_gain, m)),
    {
        let candidate: u64 = candidate_gain(m.rms, m.ratio);
        self.current_gain = next_gain(self.current_gain, candidate, m.released);
        is_limiting(self.current_gain)
    }

    /// Replaces the configuration. The two factors are replaced, the gain is
    /// kept, and the window is made anew, empty, if its size changes.
    pub fn update_parameters(&mut self, conf: &LimiterParameters, derived: Coefficients)
        requires
            old(self).wf(),
            capacity_supported(conf.rms_samples),
        ensures
            final(self).wf(),
            final(self)@ == old(self)@.after_parameters(*conf, derived),
    {
        self.threshold_voltage_ratio = derived.threshold_voltage_ratio();
        self.decay_per_chunk = derived.decay_per_chunk();
        if self.window.capacity() != conf.rms_samples {
            self.window = Window::new(conf.rms_samples);
        }
    }
}

} // verus!
