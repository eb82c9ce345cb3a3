//! The limiter, as the filter kind `Limiter` of a pipeline.

use crate::config::{
    config_valid, Coefficients, ConfigError, Fault, Filter, LimiterParameters,
};
use crate::engine::{Engine, EngineView, LimiterView};
use crate::envelope::{gain_in_range, spec_is_limiting, update_stays_positive, Measurement};
use crate::ieee::{check_negative32, lt, ZERO};
use crate::window::capacity_supported;
use vstd::prelude::*;

verus! {

/// A limiter on one channel of a signal.
pub struct Limiter {
    pub name: String,
    engine: Engine,
}

impl View for Limiter {
    type V = LimiterView;

    closed spec fn view(&self) -> LimiterView {
        LimiterView { name: self.name@, state: self.engine@ }
    }
}

impl Limiter {
    /// The limiter's invariant, which is its engine's.
    pub closed spec fn wf(&self) -> bool {
        self.engine.wf()
    }

    /// What the invariant says of the view: the window has room for a sample
    /// and never holds more than its size, and neither factor is below zero.
    pub proof fn lemma_wf(&self)
        requires
            self.wf(),
        ensures
            0 < self@.state.capacity,
            self@.state.window.len() <= self@.state.capacity,
            !lt(self@.state.threshold_voltage_ratio, ZERO),
            !lt(self@.state.decay_per_chunk, ZERO),
    {
        self.engine.lemma_wf();
    }

    /// A limiter named `name` for chunks of `chunksize` samples at
    /// `samplerate`. `derived` holds the two factors that follow from `conf`.
    /// The window is empty and nothing is limited yet.
    pub fn from_config(
        name: String,
        conf: LimiterParameters,
        chunksize: usize,
        samplerate: usize,
        derived: Coefficients,
    ) -> (limiter: Self)
        requires
            capacity_supported(conf.rms_samples),
        ensures
            limiter.wf(),
            limiter@.name == name@,
            limiter@.state == EngineView::initial(conf, chunksize, samplerate, derived),
    {
        Limiter { name, engine: Engine::new(&conf, chunksize, samplerate, derived) }
    }

    pub fn name(&self) -> (name: String)
        ensures
            name@ == self@.name,
    {
        self.name.clone()
    }

    /// The state of the limiter, to read.
    pub fn engine(&self) -> (engine: &Engine)
        ensures
            engine.wf() == self.wf(),
            engine@ == self@.state,
    {
        &self.engine
    }

    /// First half of processing a chunk: the chunk goes into the RMS window.
    pub fn push_waveform(&mut self, waveform: &[u64])
        requires
            old(self).wf(),
        ensures
            final(self).wf(),
            final(self)@.name == old(self)@.name,
            final(self)@.state == old(self)@.state.after_waveform(waveform@),
    {
        self.engine.push_waveform(waveform);
    }

    /// Second half of processing a chunk: the gain follows the level of the
    /// window, as `m` has it. Returns whether the chunk is attenuated.
    pub fn update_gain(&mut self, m: Measurement) -> (limiting: bool)
        requires
            old(self).wf(),
        ensures
            final(self).wf(),
            final(self)@.name == old(self)@.name,
            final(self)@.state == old(self)@.state.after_gain_update(m),
            limiting == spec_is_limiting(final(self)@.state.current_gain),
            gain_in_range(old(self)@.state.current_gain) ==> (gain_in_range(
                final(self)@.state.current_gain,
            ) <==> update_stays_positive(old(self)@.state.current_gain, m)),
    {
        self.engine.update_gain(m)
    }

    /// Replaces the configuration by that of `conf`, with `derived` holding the
    /// factors that follow from it. A configuration of another kind of filter
    /// is refused, and nothing changes.
    pub fn update_parameters(&mut self, conf: Filter, derived: Coefficients) -> (r: Result<
        (),
        Fault,
    >)
        requires
            old(self).wf(),
            conf matches Filter::Limiter { parameters } ==> capacity_supported(
                parameters.rms_samples,
            ),
        ensures
            final(self).wf(),
            final(self)@.name == old(self)@.name,
            match conf {
                Filter::Limiter { parameters } => r == Ok::<(), Fault>(()) && final(self)@.state
                    == old(self)@.state.after_parameters(parameters, derived),
                _ => r == Err::<(), Fault>(Fault::InvalidConfigChange) && final(self)@.state
                    == old(self)@.state,
            },
    {
        match conf {
            Filter::Limiter { parameters } => {
                self.engine.update_parameters(&parameters, derived);
                Ok(())
            },
            _ => Err(Fault::InvalidConfigChange),
        }
    }
}

/// Validates the configuration of a `Limiter`: every release rate is accepted
/// but one below zero.
pub fn validate_config(conf: &LimiterParameters) -> (r: Result<(), ConfigError>)
    ensures
        r == (if config_valid(*conf) {
            Ok::<(), ConfigError>(())
        } else {
            Err::<(), ConfigError>(ConfigError::NegativeDecay)
        }),
{
    if check_negative32(conf.decay) {
        return Err(ConfigError::NegativeDecay);
    }
    Ok(())
}

} // verus!
