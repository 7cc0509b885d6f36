use vstd::prelude::*;

use crate::motion_buffer::{MOTION_WINDOW_SIZE, MotionBuffer, window_after_push};
use crate::text::str_eq;

verus! {

/// The rolling motion history of one device.
#[derive(Debug)]
struct DeviceMotionHistory<S> {
    device_code: String,
    buffer: MotionBuffer<S>,
}

/// Device codes of the histories, in storage order.
spec fn device_codes<S>(histories: Seq<DeviceMotionHistory<S>>) -> Seq<Seq<char>> {
    Seq::new(histories.len(), |i: int| histories[i].device_code@)
}

/// The histories as a map from device code to retained window.
spec fn history_map<S>(histories: Seq<DeviceMotionHistory<S>>) -> Map<Seq<char>, Seq<S>> {
    Map::new(
        |code: Seq<char>| device_codes(histories).contains(code),
        |code: Seq<char>| histories[device_codes(histories).index_of(code)].buffer@,
    )
}

/// The window a device had before a new sample: empty for a new device.
pub open spec fn prior_window<S>(windows: Map<Seq<char>, Seq<S>>, device_code: Seq<char>) -> Seq<S> {
    if windows.contains_key(device_code) {
        windows[device_code]
    } else {
        Seq::empty()
    }
}

/// Manages independent rolling motion histories for multiple devices.
///
/// Every device receives its own `MotionBuffer` so telemetry arriving from
/// different devices cannot affect another device's evidence. The view maps
/// each tracked device code to its retained window.
#[derive(Debug)]
pub struct MotionTracker<S> {
    histories: Vec<DeviceMotionHistory<S>>,
}

impl<S> View for MotionTracker<S> {
    type V = Map<Seq<char>, Seq<S>>;

    closed spec fn view(&self) -> Map<Seq<char>, Seq<S>> {
        history_map(self.histories@)
    }
}

/// With distinct codes, the code stored at `i` is found at `i`.
proof fn lemma_code_index<S>(histories: Seq<DeviceMotionHistory<S>>, i: int)
    requires
        device_codes(histories).no_duplicates(),
        0 <= i < histories.len(),
    ensures
        device_codes(histories).contains(histories[i].device_code@),
        device_codes(histories).index_of(histories[i].device_code@) == i,
{
    let codes = device_codes(histories);
    assert(codes[i] == histories[i].device_code@);
    assert(codes.contains(codes[i]));
    let j = codes.index_of(codes[i]);
    assert(0 <= j < codes.len() && codes[j] == codes[i]);
}

/// The tracked device codes are exactly the stored codes: finitely many,
/// and as many as there are histories when no code repeats.
proof fn lemma_history_domain<S>(histories: Seq<DeviceMotionHistory<S>>)
    ensures
        history_map(histories).dom() == device_codes(histories).to_set(),
        history_map(histories).dom().finite(),
        device_codes(histories).no_duplicates() ==> history_map(histories).dom().len()
            == histories.len(),
{
    let codes = device_codes(histories);
    assert(history_map(histories).dom() =~= codes.to_set());
    vstd::seq_lib::seq_to_set_is_finite(codes);
    if codes.no_duplicates() {
        codes.unique_seq_to_set();
    }
}

/// Every tracker holds finitely many device histories.
pub proof fn lemma_tracked_devices_are_finite<S>(tracker: MotionTracker<S>)
    ensures
        tracker@.dom().finite(),
{
    lemma_history_domain(tracker.histories@);
}

impl<S> MotionTracker<S> {
    #[verifier::type_invariant]
    spec fn codes_are_distinct(self) -> bool {
        device_codes(self.histories@).no_duplicates()
    }

    /// Creates an empty fleet-wide motion tracker.
    pub fn new() -> (tracker: MotionTracker<S>)
        ensures
            tracker@ == Map::<Seq<char>, Seq<S>>::empty(),
            tracker@.dom().finite(),
    {
        let tracker = MotionTracker { histories: Vec::new() };
        assert(tracker@ =~= Map::<Seq<char>, Seq<S>>::empty());
        tracker
    }

    /// Position of the history of `device_code`, if it is tracked.
    fn find(&self, device_code: &str) -> (found: Option<usize>)
        ensures
            match found {
                Some(i) => i < self.histories@.len() && self.histories@[i as int].device_code@
                    == device_code@,
                None => !device_codes(self.histories@).contains(device_code@),
            },
    {
        let mut index: usize = 0;
        while index < self.histories.len()
            invariant
                index <= self.histories@.len(),
                forall|j: int| 0 <= j < index ==> self.histories@[j].device_code@ != device_code@,
            decreases self.histories@.len() - index,
        {
            if str_eq(self.histories[index].device_code.as_str(), device_code) {
                return Some(index);
            }
            index = index + 1;
        }
        let ghost codes = device_codes(self.histories@);
        assert forall|j: int| 0 <= j < codes.len() implies codes[j] != device_code@ by {
            assert(codes[j] == self.histories@[j].device_code@);
        }
        None
    }

    /// Adds a new interpreted motion sample to the device's rolling
    /// buffer, creating the buffer when the device has not previously
    /// submitted a sample. No other device's history changes.
    pub fn update(&mut self, device_code: String, sample: S)
        ensures
            final(self)@ == windows_after_update(old(self)@, device_code@, sample),
            final(self)@.dom().finite(),
            final(self)@.dom().len() == old(self)@.dom().len() + if old(self)@.contains_key(
                device_code@,
            ) {
                0int
            } else {
                1int
            },
    {
        proof {
            use_type_invariant(&*self);
        }
        let found = self.find(device_code.as_str());
        let ghost old_histories = self.histories@;
        let ghost old_codes = device_codes(old_histories);
        let mut histories: Vec<DeviceMotionHistory<S>> = Vec::new();
        std::mem::swap(&mut histories, &mut self.histories);
        match found {
            Some(i) => {
                let mut history = histories.remove(i);
                history.buffer.push(sample);
                histories.insert(i, history);
                proof {
                    let new_histories = histories@;
                    assert(device_codes(new_histories) =~= old_codes);
                    lemma_code_index(old_histories, i as int);
                    let m_old = history_map(old_histories);
                    let m_new = history_map(new_histories);
                    let expected = m_old.insert(
                        device_code@,
                        window_after_push(prior_window(m_old, device_code@), sample),
                    );
                    assert forall|code: Seq<char>| #[trigger] m_new.contains_key(code) implies m_new[code]
                        == expected[code] by {
                        let k = old_codes.index_of(code);
                        assert(0 <= k < old_codes.len() && old_codes[k] == code);
                        lemma_code_index(old_histories, k);
                        if k != i as int {
                            assert(new_histories[k] == old_histories[k]);
                        }
                    }
                    assert(m_new =~= expected);
                }
            },
            None => {
                let mut buffer = MotionBuffer::new();
                buffer.push(sample);
                let ghost code_view = device_code@;
                histories.push(DeviceMotionHistory { device_code, buffer });
                proof {
                    let new_histories = histories@;
                    let new_codes = device_codes(new_histories);
                    assert(new_codes =~= old_codes.push(code_view));
                    assert forall|a: int, b: int|
                        0 <= a < new_codes.len() && 0 <= b < new_codes.len() && a != b implies new_codes[a]
                        != new_codes[b] by {
                        if a < old_codes.len() && b < old_codes.len() {
                        } else if a == old_codes.len() {
                            assert(new_codes[b] == old_codes[b]);
                        } else {
                            assert(new_codes[a] == old_codes[a]);
                        }
                    }
                    let m_old = history_map(old_histories);
                    let m_new = history_map(new_histories);
                    let expected = m_old.insert(
                        code_view,
                        window_after_push(prior_window(m_old, code_view), sample),
                    );
                    let last = old_histories.len() as int;
                    lemma_code_index(new_histories, last);
                    assert forall|code: Seq<char>| #[trigger] expected.contains_key(code) implies m_new.contains_key(code) by {
                        if code != code_view {
                            let k = old_codes.index_of(code);
                            assert(0 <= k < old_codes.len() && old_codes[k] == code);
                            assert(new_codes[k] == code);
                        }
                    }
                    assert forall|code: Seq<char>| #[trigger] m_new.contains_key(code) implies expected.contains_key(code) && m_new[code]
                        == expected[code] by {
                        let k = new_codes.index_of(code);
                        assert(0 <= k < new_codes.len() && new_codes[k] == code);
                        lemma_code_index(new_histories, k);
                        if k != last {
                            assert(old_codes[k] == code);
                            lemma_code_index(old_histories, k);
                            assert(new_histories[k] == old_histories[k]);
                        }
                    }
                    assert(m_new =~= expected);
                }
            },
        }
        self.histories = histories;
        proof {
            use_type_invariant(&*self);
            lemma_history_domain(old_histories);
            lemma_history_domain(self.histories@);
        }
    }

    /// The rolling history of a device, if it has one.
    pub fn buffer(&self, device_code: &str) -> (buffer: Option<&MotionBuffer<S>>)
        ensures
            match buffer {
                Some(b) => self@.contains_key(device_code@) && b@ == self@[device_code@],
                None => !self@.contains_key(device_code@),
            },
    {
        proof {
            use_type_invariant(self);
        }
        match self.find(device_code) {
            Some(i) => {
                proof {
                    lemma_code_index(self.histories@, i as int);
                }
                Some(&self.histories[i].buffer)
            },
            None => None,
        }
    }

    /// Number of motion samples currently retained for a device; a device
    /// without a history has zero.
    pub fn sample_count(&self, device_code: &str) -> (count: usize)
        ensures
            count == prior_window(self@, device_code@).len(),
            count <= MOTION_WINDOW_SIZE,
    {
        match self.buffer(device_code) {
            Some(b) => b.len(),
            None => 0,
        }
    }

    /// True when the device has accumulated a complete rolling window.
    pub fn has_full_window(&self, device_code: &str) -> (full: bool)
        ensures
            full == (self@.contains_key(device_code@) && self@[device_code@].len()
                == MOTION_WINDOW_SIZE),
    {
        match self.buffer(device_code) {
            Some(b) => b.is_full(),
            None => false,
        }
    }

    /// True when motion history currently exists for the device.
    pub fn contains_device(&self, device_code: &str) -> (contains: bool)
        ensures
            contains == self@.contains_key(device_code@),
    {
        self.buffer(device_code).is_some()
    }

    /// Number of devices that currently have an in-memory motion history.
    pub fn device_count(&self) -> (count: usize)
        ensures
            count == self@.dom().len(),
    {
        proof {
            use_type_invariant(self);
            let codes = device_codes(self.histories@);
            codes.unique_seq_to_set();
            assert(self@.dom() =~= codes.to_set());
        }
        self.histories.len()
    }

    /// Removes the rolling motion history of one device; returns true when
    /// a history existed and was removed.
    pub fn remove_device(&mut self, device_code: &str) -> (removed: bool)
        ensures
            removed == old(self)@.contains_key(device_code@),
            final(self)@ == old(self)@.remove(device_code@),
            final(self)@.dom().finite(),
            final(self)@.dom().len() == old(self)@.dom().len() - if removed {
                1int
            } else {
                0int
            },
    {
        proof {
            use_type_invariant(&*self);
            lemma_history_domain(self.histories@);
        }
        let found = self.find(device_code);
        match found {
            Some(i) => {
                let ghost old_histories = self.histories@;
                let ghost old_codes = device_codes(old_histories);
                let mut histories: Vec<DeviceMotionHistory<S>> = Vec::new();
                std::mem::swap(&mut histories, &mut self.histories);
                let _removed = histories.remove(i);
                proof {
                    let new_histories = histories@;
                    let new_codes = device_codes(new_histories);
                    lemma_code_index(old_histories, i as int);
                    assert(new_codes =~= old_codes.remove(i as int));
                    assert forall|a: int, b: int|
                        0 <= a < new_codes.len() && 0 <= b < new_codes.len() && a != b implies new_codes[a]
                        != new_codes[b] by {
                        let oa = if a < i { a } else { a + 1 };
                        let ob = if b < i { b } else { b + 1 };
                        assert(new_codes[a] == old_codes[oa]);
                        assert(new_codes[b] == old_codes[ob]);
                    }
                    let m_old = history_map(old_histories);
                    let m_new = history_map(new_histories);
                    let expected = m_old.remove(device_code@);
                    assert forall|code: Seq<char>| #[trigger] expected.contains_key(code) implies m_new.contains_key(code) && m_new[code] == expected[code] by {
                        let k = old_codes.index_of(code);
                        assert(0 <= k < old_codes.len() && old_codes[k] == code);
                        lemma_code_index(old_histories, k);
                        assert(k != i);
                        let nk = if k < i { k } else { k - 1 };
                        assert(new_codes[nk] == code);
                        lemma_code_index(new_histories, nk);
                        assert(new_histories[nk] == old_histories[k]);
                    }
                    assert forall|code: Seq<char>| #[trigger] m_new.contains_key(code) implies expected.contains_key(code) by {
                        let k = new_codes.index_of(code);
                        assert(0 <= k < new_codes.len() && new_codes[k] == code);
                        let ok = if k < i { k } else { k + 1 };
                        assert(old_codes[ok] == code);
                        assert(ok != i as int);
                    }
                    assert(m_new =~= expected);
                }
                self.histories = histories;
                proof {
                    use_type_invariant(&*self);
                    lemma_history_domain(self.histories@);
                }
                true
            },
            None => {
                assert(old(self)@.remove(device_code@) =~= old(self)@);
                false
            },
        }
    }

    /// Removes motion history for every device.
    pub fn clear(&mut self)
        ensures
            final(self)@ == Map::<Seq<char>, Seq<S>>::empty(),
            final(self)@.dom().finite(),
    {
        self.histories = Vec::new();
        assert(self@ =~= Map::<Seq<char>, Seq<S>>::empty());
    }

    /// True when no device motion histories are retained.
    pub fn is_empty(&self) -> (empty: bool)
        ensures
            empty == (self@.dom().len() == 0),
    {
        self.device_count() == 0
    }
}

/// The windows after `sample` arrives for `device_code`, as `update` leaves them.
pub open spec fn windows_after_update<S>(
    windows: Map<Seq<char>, Seq<S>>,
    device_code: Seq<char>,
    sample: S,
) -> Map<Seq<char>, Seq<S>> {
    windows.insert(device_code, window_after_push(prior_window(windows, device_code), sample))
}

/// Telemetry of one device never affects another device's evidence: an
/// update leaves every other device's window, and whether it is tracked,
/// unchanged; the updated device's window ends with the new sample and
/// grows by one until it holds `MOTION_WINDOW_SIZE` samples.
pub proof fn lemma_update_isolates_devices<S>(
    windows: Map<Seq<char>, Seq<S>>,
    device_code: Seq<char>,
    other_code: Seq<char>,
    sample: S,
)
    requires
        device_code != other_code,
        prior_window(windows, device_code).len() <= MOTION_WINDOW_SIZE,
    ensures
        prior_window(windows_after_update(windows, device_code, sample), other_code)
            == prior_window(windows, other_code),
        windows_after_update(windows, device_code, sample).contains_key(other_code)
            == windows.contains_key(other_code),
        windows_after_update(windows, device_code, sample).contains_key(device_code),
        prior_window(windows_after_update(windows, device_code, sample), device_code).last()
            == sample,
        prior_window(windows_after_update(windows, device_code, sample), device_code).len() == if prior_window(
            windows,
            device_code,
        ).len() == MOTION_WINDOW_SIZE {
            MOTION_WINDOW_SIZE as int
        } else {
            prior_window(windows, device_code).len() + 1 as int
        },
{
}

} // verus!
