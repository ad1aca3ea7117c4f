//! Playback state for one model: the active clip, the current time, and
//! the play and loop flags.
//!
//! Advancing adds the frame delta to the current time, then wraps it
//! modulo the clip's duration when looping, or clamps it at the duration
//! otherwise.

use vstd::prelude::*;

use crate::animation::Animation;
use crate::fixed::TIME_MAX;

verus! {

/// Playback state: which clip plays, where in it, and how.
#[derive(Clone, Copy, PartialEq, Eq, Structural, Debug)]
pub struct AnimationControl {
    /// Index of the active clip, `None` when none is selected.
    pub active: Option<usize>,
    /// Current playback time.
    pub time: i64,
    /// Whether `advance` moves time forward.
    pub playing: bool,
    /// Whether time wraps at the clip's duration rather than clamping.
    pub looping: bool,
}

/// A model's clips together with their playback state.
pub struct Animations {
    pub clips: Vec<Animation>,
    pub control: AnimationControl,
}

/// The playback time after one advance: wrap modulo the duration when
/// looping (0 for an all-constant clip of duration 0), clamp at the
/// duration otherwise.
pub open spec fn spec_advance_time(t: int, delta: int, dur: int, looping: bool) -> int
    recommends
        0 <= t,
        0 <= delta,
        0 <= dur,
{
    let s = t + delta;
    if looping {
        if dur > 0 {
            s % dur
        } else {
            0
        }
    } else {
        if s > dur {
            dur
        } else {
            s
        }
    }
}

impl Animations {
    /// Every clip well formed, the active index in range, the time inside
    /// `[0, TIME_MAX]`.
    pub open spec fn wf(self) -> bool {
        &&& forall|k: int| 0 <= k < self.clips@.len() ==> (#[trigger] self.clips@[k]).wf()
        &&& match self.control.active {
            Some(i) => i < self.clips@.len(),
            None => true,
        }
        &&& 0 <= self.control.time <= TIME_MAX
    }

    /// Create playback state over a set of clips: nothing selected,
    /// paused at time zero, looping.
    pub fn new(clips: Vec<Animation>) -> (r: Animations)
        requires
            forall|k: int| 0 <= k < clips@.len() ==> (#[trigger] clips@[k]).wf(),
        ensures
            r.clips == clips,
            r.control == (AnimationControl { active: None, time: 0, playing: false, looping: true }),
            r.wf(),
    {
        Animations {
            clips,
            control: AnimationControl { active: None, time: 0, playing: false, looping: true },
        }
    }

    /// Advance playback by a frame delta, wrapping or clamping at the
    /// active clip's duration.  Paused playback, or playback with no clip
    /// selected, does not move.
    pub fn advance(&mut self, delta: i64)
        requires
            old(self).wf(),
            0 <= delta <= TIME_MAX,
        ensures
            final(self).wf(),
            final(self).clips == old(self).clips,
            final(self).control.active == old(self).control.active,
            final(self).control.playing == old(self).control.playing,
            final(self).control.looping == old(self).control.looping,
            match old(self).control.active {
                Some(i) => final(self).control.time as int == if old(self).control.playing {
                    spec_advance_time(
                        old(self).control.time as int,
                        delta as int,
                        old(self).clips@[i as int].duration as int,
                        old(self).control.looping,
                    )
                } else {
                    old(self).control.time as int
                },
                None => final(self).control.time == old(self).control.time,
            },
    {
        if !self.control.playing {
            return ;
        }
        let active = self.control.active;
        match active {
            None => {},
            Some(i) => {
                let dur = self.clips[i].duration;
                let s = self.control.time + delta;
                if self.control.looping {
                    if dur > 0 {
                        self.control.time = s % dur;
                    } else {
                        self.control.time = 0;
                    }
                } else {
                    if s > dur {
                        self.control.time = dur;
                    } else {
                        self.control.time = s;
                    }
                }
            },
        }
    }

    /// Start or pause playback.
    pub fn set_playing(&mut self, playing: bool)
        requires
            old(self).wf(),
        ensures
            final(self).wf(),
            final(self).clips == old(self).clips,
            final(self).control == (AnimationControl { playing, ..old(self).control }),
    {
        self.control.playing = playing;
    }

    /// Choose between wrapping and clamping at the clip's end.
    pub fn set_looping(&mut self, looping: bool)
        requires
            old(self).wf(),
        ensures
            final(self).wf(),
            final(self).clips == old(self).clips,
            final(self).control == (AnimationControl { looping, ..old(self).control }),
    {
        self.control.looping = looping;
    }

    /// Switch to the clip at `index` and rewind to time zero.  Fails, and
    /// changes nothing, exactly when `index` is out of range.
    pub fn select_clip(&mut self, index: usize) -> (ok: bool)
        requires
            old(self).wf(),
        ensures
            final(self).wf(),
            final(self).clips == old(self).clips,
            ok <==> (index as int) < old(self).clips@.len(),
            ok ==> final(self).control == (AnimationControl {
                active: Some(index),
                time: 0,
                ..old(self).control
            }),
            !ok ==> final(self).control == old(self).control,
    {
        if index < self.clips.len() {
            self.control.active = Some(index);
            self.control.time = 0;
            true
        } else {
            false
        }
    }

    /// Switch to the first clip named `name` and rewind to time zero.
    /// Fails, and changes nothing, exactly when no clip bears the name.
    pub fn select_clip_named(&mut self, name: &String) -> (ok: bool)
        requires
            old(self).wf(),
        ensures
            final(self).wf(),
            final(self).clips == old(self).clips,
            ok <==> spec_find_clip(old(self).clips@, name@, 0) < old(self).clips@.len(),
            ok ==> final(self).control == (AnimationControl {
                active: Some(spec_find_clip(old(self).clips@, name@, 0) as usize),
                time: 0,
                ..old(self).control
            }),
            !ok ==> final(self).control == old(self).control,
    {
        let n = self.clips.len();
        let mut i: usize = 0;
        while i < n && !self.clips[i].name.eq(name)
            invariant
                n == self.clips@.len(),
                0 <= i <= n,
                spec_find_clip(self.clips@, name@, 0) == spec_find_clip(
                    self.clips@,
                    name@,
                    i as int,
                ),
            decreases n - i,
        {
            i = i + 1;
        }
        if i < n {
            self.control.active = Some(i);
            self.control.time = 0;
            true
        } else {
            false
        }
    }

    /// The active clip, when one is selected.
    pub fn active_clip(&self) -> (r: Option<&Animation>)
        requires
            self.wf(),
        ensures
            match self.control.active {
                Some(i) => r matches Some(a) && *a == self.clips@[i as int],
                None => r is None,
            },
    {
        match self.control.active {
            Some(i) => Some(&self.clips[i]),
            None => None,
        }
    }
}

/// The first clip named `name`, scanning from `j`; the clip list's length
/// when none bears the name.
pub open spec fn spec_find_clip(clips: Seq<Animation>, name: Seq<char>, j: int) -> int
    recommends
        0 <= j <= clips.len(),
    decreases clips.len() - j,
{
    if j >= clips.len() {
        clips.len() as int
    } else if clips[j].name@ == name {
        j
    } else {
        spec_find_clip(clips, name, j + 1)
    }
}

/// Looping playback never leaves `[0, duration)`, however far time is
/// advanced.
pub proof fn lemma_loop_stays_in_bounds(t: int, delta: int, dur: int)
    requires
        0 <= t,
        0 <= delta,
        dur > 0,
    ensures
        0 <= spec_advance_time(t, delta, dur, true) < dur,
{
    vstd::arithmetic::div_mod::lemma_mod_bound(t + delta, dur);
}

/// Repeated advances accumulate: advancing by `d1` and then by `d2` wraps
/// to exactly where one advance by `d1 + d2` wraps, so cumulative time
/// beyond the duration lands on the cumulative time modulo the duration.
pub proof fn lemma_loop_accumulates(t: int, d1: int, d2: int, dur: int)
    requires
        0 <= t,
        0 <= d1,
        0 <= d2,
        dur > 0,
    ensures
        spec_advance_time(spec_advance_time(t, d1, dur, true), d2, dur, true)
            == spec_advance_time(t, d1 + d2, dur, true),
{
    let a = t + d1;
    vstd::arithmetic::div_mod::lemma_add_mod_noop(a, d2, dur);
    vstd::arithmetic::div_mod::lemma_mod_twice(a, dur);
    vstd::arithmetic::div_mod::lemma_add_mod_noop(a % dur, d2, dur);
    vstd::arithmetic::div_mod::lemma_mod_twice(d2, dur);
}

} // verus!
