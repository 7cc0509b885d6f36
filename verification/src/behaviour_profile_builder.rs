use vstd::prelude::*;

verus! {

/// Minimum number of behaviour samples required before a statistically
/// meaningful profile can be produced.
pub const MINIMUM_SAMPLE_COUNT: usize = 30;

/// Stateless builder responsible for transforming behaviour samples into
/// statistical summaries. It contains no persistence logic.
#[derive(Debug, Default)]
pub struct BehaviourProfileBuilder;

#[derive(Debug, Clone, Copy, PartialEq, Eq, Structural)]
pub enum BehaviourProfileBuildError {
    InsufficientSamples { required: usize, actual: usize },
}

impl BehaviourProfileBuilder {
    /// The admission rule of profile building: at least
    /// `MINIMUM_SAMPLE_COUNT` samples, otherwise the error reports the
    /// required and the actual count.
    pub fn ensure_enough_samples(sample_count: usize) -> (result: Result<
        (),
        BehaviourProfileBuildError,
    >)
        ensures
            sample_count >= MINIMUM_SAMPLE_COUNT ==> result is Ok,
            sample_count < MINIMUM_SAMPLE_COUNT ==> result == Err::<(), BehaviourProfileBuildError>(
                BehaviourProfileBuildError::InsufficientSamples {
                    required: MINIMUM_SAMPLE_COUNT,
                    actual: sample_count,
                },
            ),
    {
        if sample_count < MINIMUM_SAMPLE_COUNT {
            return Err(
                BehaviourProfileBuildError::InsufficientSamples {
                    required: MINIMUM_SAMPLE_COUNT,
                    actual: sample_count,
                },
            );
        }
        Ok(())
    }
}

} // verus!
