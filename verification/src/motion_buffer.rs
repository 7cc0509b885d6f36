use vstd::prelude::*;

use std::collections::VecDeque;

verus! {

/// Number of interpreted IMU samples retained for motion evidence.
///
/// Five samples provide a small rolling history that smooths transient
/// spikes without introducing noticeable latency.
pub const MOTION_WINDOW_SIZE: usize = 5;

/// The retained window after `sample` arrives: the oldest sample is
/// dropped once the window is full, then `sample` is appended.
pub open spec fn window_after_push<S>(window: Seq<S>, sample: S) -> Seq<S> {
    if window.len() == MOTION_WINDOW_SIZE {
        window.drop_first().push(sample)
    } else {
        window.push(sample)
    }
}

/// The window retained after pushing every sample of `arrivals`, in order,
/// into `window`.
pub open spec fn window_after_pushes<S>(window: Seq<S>, arrivals: Seq<S>) -> Seq<S>
    decreases arrivals.len(),
{
    if arrivals.len() == 0 {
        window
    } else {
        window_after_push(window_after_pushes(window, arrivals.drop_last()), arrivals.last())
    }
}

/// Rolling buffer of interpreted motion samples, oldest first, holding at
/// most `MOTION_WINDOW_SIZE` of them.
#[derive(Debug)]
pub struct MotionBuffer<S> {
    samples: VecDeque<S>,
}

impl<S> View for MotionBuffer<S> {
    type V = Seq<S>;

    closed spec fn view(&self) -> Seq<S> {
        self.samples@
    }
}

impl<S> MotionBuffer<S> {
    #[verifier::type_invariant]
    spec fn window_is_bounded(self) -> bool {
        self.samples@.len() <= MOTION_WINDOW_SIZE
    }

    pub fn new() -> (buffer: MotionBuffer<S>)
        ensures
            buffer@ == Seq::<S>::empty(),
    {
        MotionBuffer { samples: VecDeque::with_capacity(MOTION_WINDOW_SIZE) }
    }

    /// Add one interpreted IMU sample, evicting the oldest one when the
    /// window is already full.
    pub fn push(&mut self, sample: S)
        ensures
            final(self)@ == window_after_push(old(self)@, sample),
            final(self)@.len() <= MOTION_WINDOW_SIZE,
            final(self)@.last() == sample,
    {
        proof {
            use_type_invariant(&*self);
        }
        let mut samples = VecDeque::new();
        std::mem::swap(&mut samples, &mut self.samples);
        if samples.len() == MOTION_WINDOW_SIZE {
            let _evicted = samples.pop_front();
        }
        samples.push_back(sample);
        self.samples = samples;
    }

    /// Returns true once the buffer has reached the configured rolling
    /// window size.
    pub fn is_full(&self) -> (full: bool)
        ensures
            full == (self@.len() == MOTION_WINDOW_SIZE),
    {
        self.samples.len() == MOTION_WINDOW_SIZE
    }

    pub fn len(&self) -> (count: usize)
        ensures
            count == self@.len(),
            count <= MOTION_WINDOW_SIZE,
    {
        proof {
            use_type_invariant(self);
        }
        self.samples.len()
    }

    pub fn is_empty(&self) -> (empty: bool)
        ensures
            empty == (self@.len() == 0),
    {
        self.samples.len() == 0
    }

    /// The retained sample at `index`, counting from the oldest.
    pub fn sample(&self, index: usize) -> (sample: &S)
        requires
            index < self@.len(),
        ensures
            *sample == self@[index as int],
    {
        &self.samples[index]
    }
}

/// Whether rolling evidence counts as sustained motion: at least 60% of
/// the `sample_count` samples (`motion_samples / sample_count >= 3/5`)
/// indicated motion.
pub fn is_sustained_motion(motion_samples: usize, sample_count: usize) -> (sustained: bool)
    requires
        motion_samples <= sample_count <= MOTION_WINDOW_SIZE,
    ensures
        sustained == (5 * motion_samples >= 3 * sample_count),
{
    5 * motion_samples >= 3 * sample_count
}

/// A rolling window never exceeds its capacity, always ends with the
/// newest sample, and retains exactly the newest arrivals in arrival order:
/// after any sequence of pushes into an empty window, the window is the
/// last `min(n, MOTION_WINDOW_SIZE)` samples pushed.
pub proof fn lemma_window_keeps_newest_samples<S>(arrivals: Seq<S>)
    ensures
        window_after_pushes(Seq::<S>::empty(), arrivals) =~= arrivals.subrange(
            if arrivals.len() > MOTION_WINDOW_SIZE {
                arrivals.len() - MOTION_WINDOW_SIZE
            } else {
                0
            },
            arrivals.len() as int,
        ),
        window_after_pushes(Seq::<S>::empty(), arrivals).len() <= MOTION_WINDOW_SIZE,
        arrivals.len() > 0 ==> window_after_pushes(Seq::<S>::empty(), arrivals).last()
            == arrivals.last(),
    decreases arrivals.len(),
{
    if arrivals.len() > 0 {
        lemma_window_keeps_newest_samples(arrivals.drop_last());
        let prefix = arrivals.drop_last();
        let previous = window_after_pushes(Seq::<S>::empty(), prefix);
        let start: int = if prefix.len() > MOTION_WINDOW_SIZE {
            prefix.len() - MOTION_WINDOW_SIZE
        } else {
            0
        };
        assert(previous =~= prefix.subrange(start, prefix.len() as int));
        let new_start: int = if arrivals.len() > MOTION_WINDOW_SIZE {
            arrivals.len() - MOTION_WINDOW_SIZE
        } else {
            0
        };
        if previous.len() == MOTION_WINDOW_SIZE {
            assert(previous.drop_first().push(arrivals.last()) =~= arrivals.subrange(
                new_start,
                arrivals.len() as int,
            ));
        } else {
            assert(previous.push(arrivals.last()) =~= arrivals.subrange(
                new_start,
                arrivals.len() as int,
            ));
        }
    }
}

} // verus!
