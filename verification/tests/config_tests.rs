use audio_limiter::config::{Coefficients, ConfigError, LimiterParameters};
use audio_limiter::limiter;
use audio_limiter::rms_limiter;

fn conf(decay: f32) -> LimiterParameters {
    LimiterParameters { threshold: (-6.0f32).to_bits(), decay: decay.to_bits(), rms_samples: 512 }
}

#[test]
fn validation_accepts_decay_of_zero_and_above() {
    for decay in [0.0f32, 1e-30, 0.5, 20.0, 1e30, f32::MAX, f32::INFINITY] {
        assert_eq!(limiter::validate_config(&conf(decay)), Ok(()));
        assert_eq!(rms_limiter::validate_config(&conf(decay)), Ok(()));
    }
}

#[test]
fn validation_refuses_negative_decay() {
    for decay in [-1e-40f32, -1e-30, -0.5, -20.0, f32::MIN, f32::NEG_INFINITY] {
        assert_eq!(limiter::validate_config(&conf(decay)), Err(ConfigError::NegativeDecay));
        assert_eq!(rms_limiter::validate_config(&conf(decay)), Err(ConfigError::NegativeDecay));
    }
}

#[test]
fn validation_compares_as_the_hardware_does() {
    // neither -0.0 nor a NaN is below zero
    for decay in [-0.0f32, f32::NAN, -f32::NAN] {
        assert_eq!(limiter::validate_config(&conf(decay)), Ok(()));
        assert_eq!(rms_limiter::validate_config(&conf(decay)), Ok(()));
    }
}

#[test]
fn validation_ignores_the_other_fields() {
    let c = LimiterParameters { threshold: f32::NAN.to_bits(), decay: 3.0f32.to_bits(), rms_samples: 0 };
    assert_eq!(limiter::validate_config(&c), Ok(()));
    let c = LimiterParameters { threshold: 40.0f32.to_bits(), decay: (-3.0f32).to_bits(), rms_samples: 7 };
    assert_eq!(limiter::validate_config(&c), Err(ConfigError::NegativeDecay));
}

#[test]
fn config_error_message() {
    assert_eq!(ConfigError::NegativeDecay.message(), "Decay (dB/s) cannot be negative");
}

#[test]
fn coefficients_hold_what_is_not_negative() {
    let c = Coefficients::new(0.5f64.to_bits(), 1.05f64.to_bits()).unwrap();
    assert_eq!(c.threshold_voltage_ratio(), 0.5f64.to_bits());
    assert_eq!(c.decay_per_chunk(), 1.05f64.to_bits());
    assert!(Coefficients::new(0.0f64.to_bits(), 0.0f64.to_bits()).is_some());
    assert!(Coefficients::new((-0.0f64).to_bits(), 1.0f64.to_bits()).is_some());
    assert!(Coefficients::new(f64::INFINITY.to_bits(), f64::NAN.to_bits()).is_some());
}

#[test]
fn coefficients_refuse_negative_factors() {
    assert!(Coefficients::new((-0.5f64).to_bits(), 1.05f64.to_bits()).is_none());
    assert!(Coefficients::new(0.5f64.to_bits(), (-1e-300f64).to_bits()).is_none());
    assert!(Coefficients::new(f64::NEG_INFINITY.to_bits(), 1.0f64.to_bits()).is_none());
}
