//! Timelines: the authored script of one story branch, and its validation.

use vstd::prelude::*;
use vstd::string::*;
use crate::timecode::{parse_time_range, range_seconds, time_range};

verus! {

/// Nanoseconds in one second.
pub const NANOS_PER_SECOND: u128 = 1_000_000_000;

/// The shortest time a beat stays on screen, in nanoseconds: a beat whose
/// range is empty still dwells for a hundredth of a second.
pub const MIN_DWELL_NANOS: u128 = 10_000_000;

/// One beat of a timeline.
#[derive(Debug)]
pub struct Frame {
    /// Position of the beat in its timeline, counted from one.
    pub index: usize,
    /// The beat's time range, such as `00:00-00:06`.
    pub time: String,
    pub camera: String,
    pub lighting: String,
    /// Free notes; empty where the author gave none.
    pub notes: String,
}

/// A title and its beats, in order.
#[derive(Debug)]
pub struct Timeline {
    pub title: String,
    pub frames: Vec<Frame>,
}

/// The two checks that validation makes of every beat, in the order in
/// which it makes them: the first is made of all beats before the second is
/// made of any.
#[derive(Debug, Clone, Copy, PartialEq, Eq, Structural)]
pub enum Check {
    /// The beat carries its position, counted from one, as its index.
    Index,
    /// The beat's range ends after it starts.
    Range,
}

/// Why a timeline was refused.
#[derive(Debug)]
pub enum TimelineError {
    /// The timeline's source could not be read.
    Source { cause: String },
    /// The text could not be decoded into a title and beats.
    Decode { cause: String },
    /// The title is empty.
    EmptyTitle,
    /// There is no beat.
    NoFrames,
    /// The beat at `position`, counted from one, carries `index` where it
    /// should carry `position`.
    IndexMismatch { position: usize, index: usize },
    /// The range of the beat with this index does not end after it starts.
    NonPositiveDuration { index: usize, time: String },
}

/// A beat as plain values.
pub struct FrameView {
    pub index: nat,
    pub time: Seq<char>,
    pub camera: Seq<char>,
    pub lighting: Seq<char>,
    pub notes: Seq<char>,
}

/// A timeline as plain values.
pub struct TimelineView {
    pub title: Seq<char>,
    pub frames: Seq<FrameView>,
}

/// A refusal as plain values.
pub enum TimelineErrorView {
    Source { cause: Seq<char> },
    Decode { cause: Seq<char> },
    EmptyTitle,
    NoFrames,
    IndexMismatch { position: nat, index: nat },
    NonPositiveDuration { index: nat, time: Seq<char> },
}

impl View for Frame {
    type V = FrameView;

    open spec fn view(&self) -> FrameView {
        FrameView {
            index: self.index as nat,
            time: self.time@,
            camera: self.camera@,
            lighting: self.lighting@,
            notes: self.notes@,
        }
    }
}

impl View for Timeline {
    type V = TimelineView;

    open spec fn view(&self) -> TimelineView {
        TimelineView {
            title: self.title@,
            frames: Seq::new(self.frames@.len(), |i: int| self.frames@[i]@),
        }
    }
}

impl View for TimelineError {
    type V = TimelineErrorView;

    open spec fn view(&self) -> TimelineErrorView {
        match self {
            TimelineError::Source { cause } => TimelineErrorView::Source { cause: cause@ },
            TimelineError::Decode { cause } => TimelineErrorView::Decode { cause: cause@ },
            TimelineError::EmptyTitle => TimelineErrorView::EmptyTitle,
            TimelineError::NoFrames => TimelineErrorView::NoFrames,
            TimelineError::IndexMismatch { position, index } => TimelineErrorView::IndexMismatch {
                position: *position as nat,
                index: *index as nat,
            },
            TimelineError::NonPositiveDuration { index, time } => {
                TimelineErrorView::NonPositiveDuration { index: *index as nat, time: time@ }
            },
        }
    }
}

impl FrameView {
    /// The beat's duration in whole seconds; zero where its range does not
    /// end after it starts.
    pub open spec fn seconds(self) -> nat {
        range_seconds(self.time)
    }

    /// What `check` finds wrong with this beat, if anything. `position` is
    /// the beat's place in its timeline, counted from one: the first beat
    /// is at position 1.
    pub open spec fn violation(self, check: Check, position: nat) -> Option<TimelineErrorView> {
        match check {
            Check::Index => if self.index != position {
                Some(TimelineErrorView::IndexMismatch { position, index: self.index })
            } else {
                None
            },
            Check::Range => if time_range(self.time).1 <= time_range(self.time).0 {
                Some(TimelineErrorView::NonPositiveDuration { index: self.index, time: self.time })
            } else {
                None
            },
        }
    }
}

impl TimelineView {
    /// What `check` finds wrong with the first beat it finds fault with,
    /// going in order through the beats from the one after the first
    /// `skipped`.
    pub open spec fn first_failing(self, check: Check, skipped: nat) -> Option<TimelineErrorView>
        decreases self.frames.len() - skipped,
    {
        if skipped >= self.frames.len() {
            None
        } else if self.frames[skipped as int].violation(check, skipped + 1).is_some() {
            self.frames[skipped as int].violation(check, skipped + 1)
        } else {
            self.first_failing(check, skipped + 1)
        }
    }

    /// What is wrong with the timeline, if anything. The checks run in
    /// this order and the first to fail decides: the title is not empty;
    /// there is a beat; every beat, in order, carries its position as its
    /// index; and only then, every beat, in order, ends after it starts.
    /// So an index out of place anywhere is reported before a bad range
    /// anywhere.
    pub open spec fn first_violation(self) -> Option<TimelineErrorView> {
        if self.title.len() == 0 {
            Some(TimelineErrorView::EmptyTitle)
        } else if self.frames.len() == 0 {
            Some(TimelineErrorView::NoFrames)
        } else if self.first_failing(Check::Index, 0).is_some() {
            self.first_failing(Check::Index, 0)
        } else {
            self.first_failing(Check::Range, 0)
        }
    }

    /// A timeline is valid when it has a title and at least one beat, and
    /// each beat carries its position, counted from one, as its index (the
    /// beat at `frames[i]` carries `i + 1`), and ends after it starts.
    pub open spec fn valid(self) -> bool {
        &&& self.title.len() > 0
        &&& self.frames.len() > 0
        &&& forall|i: int|
            0 <= i < self.frames.len() ==> (#[trigger] self.frames[i]).index == i + 1
                && self.frames[i].seconds() > 0
    }

    /// The duration of the beat at `idx` in whole seconds; zero where there
    /// is no such beat.
    pub open spec fn frame_seconds(self, idx: int) -> nat {
        if 0 <= idx < self.frames.len() {
            self.frames[idx].seconds()
        } else {
            0
        }
    }

    /// How long the beat at `idx` stays on screen, in nanoseconds: its
    /// duration, but no less than the shortest dwell; zero where there is no
    /// such beat.
    pub open spec fn dwell_nanos(self, idx: int) -> nat {
        if 0 <= idx < self.frames.len() {
            let nanos = self.frames[idx].seconds() * NANOS_PER_SECOND as nat;
            if nanos < MIN_DWELL_NANOS {
                MIN_DWELL_NANOS as nat
            } else {
                nanos
            }
        } else {
            0
        }
    }

    /// The time the beats before `upto` take together, in seconds.
    pub open spec fn seconds_before(self, upto: int) -> nat
        decreases upto,
    {
        if upto <= 0 {
            0
        } else {
            self.seconds_before(upto - 1) + self.frame_seconds(upto - 1)
        }
    }

    /// The time all beats take together, in seconds.
    pub open spec fn total_seconds(self) -> nat {
        self.seconds_before(self.frames.len() as int)
    }
}

/// A check finds nothing exactly when no beat fails it, and what it finds
/// is the failure of the first beat that fails it.
pub proof fn lemma_first_failing(t: TimelineView, check: Check, skipped: nat)
    requires
        skipped <= t.frames.len(),
    ensures
        t.first_failing(check, skipped).is_none() <==> forall|i: int|
            skipped <= i < t.frames.len() ==> (#[trigger] t.frames[i]).violation(
                check,
                (i + 1) as nat,
            ).is_none(),
        t.first_failing(check, skipped).is_some() ==> exists|k: int|
            skipped <= k < t.frames.len() && (#[trigger] t.frames[k]).violation(
                check,
                (k + 1) as nat,
            ) == t.first_failing(check, skipped) && forall|j: int|
                skipped <= j < k ==> (#[trigger] t.frames[j]).violation(
                    check,
                    (j + 1) as nat,
                ).is_none(),
    decreases t.frames.len() - skipped,
{
    if skipped < t.frames.len() {
        lemma_first_failing(t, check, skipped + 1);
        if t.frames[skipped as int].violation(check, skipped + 1).is_some() {
            assert(skipped <= skipped < t.frames.len() && t.frames[skipped as int].violation(
                check,
                (skipped + 1) as nat,
            ) == t.first_failing(check, skipped));
        } else if t.first_failing(check, skipped).is_some() {
            let k = choose|k: int|
                skipped + 1 <= k < t.frames.len() && (#[trigger] t.frames[k]).violation(
                    check,
                    (k + 1) as nat,
                ) == t.first_failing(check, skipped + 1) && forall|j: int|
                    skipped + 1 <= j < k ==> (#[trigger] t.frames[j]).violation(
                        check,
                        (j + 1) as nat,
                    ).is_none();
            assert forall|j: int| skipped <= j < k implies (#[trigger] t.frames[j]).violation(
                check,
                (j + 1) as nat,
            ).is_none() by {
                if j > skipped {
                }
            }
        }
    }
}

/// A timeline without a violation is valid, and a valid one has none.
pub proof fn lemma_valid_iff_no_violation(t: TimelineView)
    ensures
        t.valid() <==> t.first_violation().is_none(),
{
    lemma_first_failing(t, Check::Index, 0);
    lemma_first_failing(t, Check::Range, 0);
    if t.first_violation().is_none() {
        assert forall|i: int| 0 <= i < t.frames.len() implies (#[trigger] t.frames[i]).index == i
            + 1 && t.frames[i].seconds() > 0 by {
            assert(t.frames[i].violation(Check::Index, (i + 1) as nat).is_none());
            assert(t.frames[i].violation(Check::Range, (i + 1) as nat).is_none());
        }
    }
    if t.valid() {
        assert forall|i: int| 0 <= i < t.frames.len() implies (#[trigger] t.frames[i]).violation(
            Check::Index,
            (i + 1) as nat,
        ).is_none() by {
            assert(t.frames[i].index == i + 1 && t.frames[i].seconds() > 0);
        }
        assert forall|i: int| 0 <= i < t.frames.len() implies (#[trigger] t.frames[i]).violation(
            Check::Range,
            (i + 1) as nat,
        ).is_none() by {
            assert(t.frames[i].index == i + 1 && t.frames[i].seconds() > 0);
        }
    }
}

/// An index out of place is reported whatever the ranges are: where some
/// beat does not carry its position, the violation is the index mismatch
/// of the first such beat, with its position counted from one.
pub proof fn lemma_index_before_range(t: TimelineView, k: int)
    requires
        t.title.len() > 0,
        0 <= k < t.frames.len(),
        t.frames[k].index != k + 1,
        forall|j: int| 0 <= j < k ==> (#[trigger] t.frames[j]).index == j + 1,
    ensures
        t.first_violation() == Some(
            TimelineErrorView::IndexMismatch { position: (k + 1) as nat, index: t.frames[k].index },
        ),
{
    lemma_first_failing(t, Check::Index, 0);
    assert(t.frames[k].violation(Check::Index, (k + 1) as nat).is_some());
    let found = choose|f: int|
        0 <= f < t.frames.len() && (#[trigger] t.frames[f]).violation(
            Check::Index,
            (f + 1) as nat,
        ) == t.first_failing(Check::Index, 0) && forall|j: int|
            0 <= j < f ==> (#[trigger] t.frames[j]).violation(Check::Index, (j + 1) as nat).is_none();
    if found < k {
        assert(t.frames[found].index == found + 1);
    }
    if found > k {
        assert(t.frames[k].violation(Check::Index, (k + 1) as nat).is_none());
    }
}

impl Clone for Frame {
    fn clone(&self) -> (copy: Frame)
        ensures
            copy@ == self@,
    {
        Frame {
            index: self.index,
            time: self.time.clone(),
            camera: self.camera.clone(),
            lighting: self.lighting.clone(),
            notes: self.notes.clone(),
        }
    }
}

impl Clone for Timeline {
    fn clone(&self) -> (copy: Timeline)
        ensures
            copy@ == self@,
    {
        let mut frames: Vec<Frame> = Vec::new();
        let mut i: usize = 0;
        while i < self.frames.len()
            invariant
                i <= self.frames.len(),
                frames.len() == i,
                forall|j: int| 0 <= j < i ==> (#[trigger] frames@[j])@ == self.frames@[j]@,
            decreases self.frames.len() - i,
        {
            frames.push(self.frames[i].clone());
            i += 1;
        }
        let copy = Timeline { title: self.title.clone(), frames };
        assert(copy@.frames =~= self@.frames);
        copy
    }
}

impl Timeline {
    /// The duration of the beat at `idx` in whole seconds. Zero where its
    /// range does not end after it starts, and where there is no such beat.
    pub fn frame_duration_secs(&self, idx: usize) -> (seconds: u64)
        ensures
            seconds == self@.frame_seconds(idx as int),
    {
        if idx < self.frames.len() {
            let (start, end) = parse_time_range(self.frames[idx].time.as_str());
            if end > start {
                end - start
            } else {
                0
            }
        } else {
            0
        }
    }

    /// How long the beat at `idx` stays on screen, in nanoseconds.
    pub fn frame_dwell_nanos(&self, idx: usize) -> (nanos: u128)
        ensures
            nanos == self@.dwell_nanos(idx as int),
    {
        if idx < self.frames.len() {
            let seconds: u128 = self.frame_duration_secs(idx) as u128;
            let nanos: u128 = seconds * NANOS_PER_SECOND;
            if nanos < MIN_DWELL_NANOS {
                MIN_DWELL_NANOS
            } else {
                nanos
            }
        } else {
            0
        }
    }
}

/// What `check` finds wrong with the first beat it finds fault with, going
/// through the beats in order.
pub fn first_failing_beat(t: &Timeline, check: Check) -> (found: Option<TimelineError>)
    ensures
        match found {
            Some(e) => t@.first_failing(check, 0) == Some(e@),
            None => t@.first_failing(check, 0).is_none(),
        },
{
    let mut i: usize = 0;
    while i < t.frames.len()
        invariant
            i <= t.frames.len(),
            t@.first_failing(check, 0) == t@.first_failing(check, i as nat),
        decreases t.frames.len() - i,
    {
        let frame = &t.frames[i];
        assert(t@.frames[i as int] == frame@);
        match check {
            Check::Index => {
                if frame.index != i + 1 {
                    return Some(
                        TimelineError::IndexMismatch { position: i + 1, index: frame.index },
                    );
                }
            },
            Check::Range => {
                let (start, end) = parse_time_range(frame.time.as_str());
                if end <= start {
                    return Some(
                        TimelineError::NonPositiveDuration {
                            index: frame.index,
                            time: frame.time.clone(),
                        },
                    );
                }
            },
        }
        i += 1;
    }
    None
}

/// Checks a timeline and reports the first violation. The checks run in
/// this order: the title is not empty; there is a beat; every beat, in
/// order, carries its position, counted from one, as its index; and only
/// once all indices are in place, every beat, in order, ends after it
/// starts.
pub fn validate_timeline(t: &Timeline) -> (checked: Result<(), TimelineError>)
    ensures
        checked.is_ok() <==> t@.valid(),
        match checked {
            Ok(_) => t@.first_violation().is_none(),
            Err(e) => t@.first_violation() == Some(e@),
        },
{
    proof {
        lemma_valid_iff_no_violation(t@);
    }
    if t.title.as_str().unicode_len() == 0 {
        return Err(TimelineError::EmptyTitle);
    }
    if t.frames.len() == 0 {
        return Err(TimelineError::NoFrames);
    }
    match first_failing_beat(t, Check::Index) {
        Some(mismatch) => {
            return Err(mismatch);
        },
        None => {},
    }
    match first_failing_beat(t, Check::Range) {
        Some(bad_range) => Err(bad_range),
        None => Ok(()),
    }
}

/// Finishes loading a timeline whose text has been decoded: a decoding
/// failure is passed on with its cause, a decoded timeline is validated and
/// handed back whole or not at all.
pub fn load_decoded_timeline(decoded: Result<Timeline, String>) -> (loaded: Result<
    Timeline,
    TimelineError,
>)
    ensures
        match decoded {
            Err(cause) => loaded matches Err(e) && e@ == (TimelineErrorView::Decode {
                cause: cause@,
            }),
            Ok(t) => match t@.first_violation() {
                None => loaded == Ok::<Timeline, TimelineError>(t) && t@.valid(),
                Some(violation) => loaded matches Err(e) && e@ == violation,
            },
        },
{
    match decoded {
        Err(cause) => Err(TimelineError::Decode { cause }),
        Ok(t) => match validate_timeline(&t) {
            Ok(_) => Ok(t),
            Err(e) => Err(e),
        },
    }
}

} // verus!
