//! Keyframe channels and time-based sampling.
//!
//! A channel is a strictly time-increasing keyframe sequence for one
//! transform component of one node.  Sampling clamps to the first and last
//! keyframes, holds the prior value in step mode, interpolates linearly
//! otherwise, and takes the shorter arc between rotation keyframes.

use vstd::prelude::*;

use crate::fixed::{
    clamp128, div_trunc128, in_range, lemma_div_trunc_shrinks, lemma_mul_bound, spec_clamp,
    spec_div_trunc, FX_MAX, TIME_MAX,
};
use crate::math::{quat_dot128, quat_neg, spec_quat_dot, spec_quat_neg, spec_quat_sum, Quat, Vec3};

verus! {

/// How values between two keyframes are produced.
#[derive(Clone, Copy, PartialEq, Eq, Structural, Debug)]
pub enum Interpolation {
    /// Interpolate between the bracketing keyframes.
    Linear,
    /// Hold the prior keyframe's value.
    Step,
}

/// A keyframe timeline of vectors (translation or scale).
#[derive(Clone, Debug)]
pub struct Vec3Channel {
    pub times: Vec<i64>,
    pub values: Vec<Vec3>,
    pub mode: Interpolation,
}

/// A keyframe timeline of rotations.
#[derive(Clone, Debug)]
pub struct QuatChannel {
    pub times: Vec<i64>,
    pub values: Vec<Quat>,
    pub mode: Interpolation,
}

/// A well-formed keyframe time sequence: non-empty, inside `[0, TIME_MAX]`
/// and strictly increasing.
pub open spec fn spec_times_wf(ts: Seq<i64>) -> bool {
    &&& ts.len() >= 1
    &&& forall|k: int| 0 <= k < ts.len() ==> 0 <= #[trigger] ts[k] <= TIME_MAX
    &&& forall|k: int| 0 <= k && k + 1 < ts.len() ==> #[trigger] ts[k] < ts[k + 1]
}

impl Vec3Channel {
    /// Matching non-empty timelines, times well formed, values in range.
    pub open spec fn wf(self) -> bool {
        &&& spec_times_wf(self.times@)
        &&& self.values@.len() == self.times@.len()
        &&& forall|k: int| 0 <= k < self.values@.len() ==> (#[trigger] self.values@[k]).wf()
    }
}

impl QuatChannel {
    /// Matching non-empty timelines, times well formed, values in range.
    pub open spec fn wf(self) -> bool {
        &&& spec_times_wf(self.times@)
        &&& self.values@.len() == self.times@.len()
        &&& forall|k: int| 0 <= k < self.values@.len() ==> (#[trigger] self.values@[k]).wf()
    }
}

/// Index of the keyframe bracketing `t` from the left, scanning from `j`:
/// the first `i >= j` with `t < ts[i + 1]`, or the last index.
pub open spec fn spec_bracket(ts: Seq<i64>, t: i64, j: int) -> int
    recommends
        0 <= j < ts.len(),
    decreases ts.len() - j,
{
    if j + 1 >= ts.len() || t < ts[j + 1] {
        j
    } else {
        spec_bracket(ts, t, j + 1)
    }
}

/// The bracketing index lies left of `t` and, when it has a successor,
/// `t` lies before that successor's time.
pub proof fn lemma_bracket_props(ts: Seq<i64>, t: i64, j: int)
    requires
        0 <= j < ts.len(),
        ts[j] <= t,
    ensures
        j <= spec_bracket(ts, t, j) < ts.len(),
        ts[spec_bracket(ts, t, j)] <= t,
        spec_bracket(ts, t, j) + 1 < ts.len() ==> t < ts[spec_bracket(ts, t, j) + 1],
    decreases ts.len() - j,
{
    if !(j + 1 >= ts.len() || t < ts[j + 1]) {
        lemma_bracket_props(ts, t, j + 1);
    }
}

/// Linear interpolation of one scalar: `v0 + (v1 - v0) * num / den`,
/// truncating toward zero and saturating.
pub open spec fn spec_lerp(v0: int, v1: int, num: int, den: int) -> int
    recommends
        den > 0,
{
    spec_clamp(v0 + spec_div_trunc((v1 - v0) * num, den))
}

/// Componentwise linear interpolation of vectors.
pub open spec fn spec_vec3_lerp(a: Vec3, b: Vec3, num: int, den: int) -> Vec3 {
    Vec3 {
        x: spec_lerp(a.x as int, b.x as int, num, den) as i64,
        y: spec_lerp(a.y as int, b.y as int, num, den) as i64,
        z: spec_lerp(a.z as int, b.z as int, num, den) as i64,
    }
}

/// Componentwise linear interpolation of quaternions, no arc choice.
pub open spec fn spec_quat_lerp(a: Quat, b: Quat, num: int, den: int) -> Quat {
    Quat {
        x: spec_lerp(a.x as int, b.x as int, num, den) as i64,
        y: spec_lerp(a.y as int, b.y as int, num, den) as i64,
        z: spec_lerp(a.z as int, b.z as int, num, den) as i64,
        w: spec_lerp(a.w as int, b.w as int, num, den) as i64,
    }
}

/// Rotation interpolation: the second keyframe is negated first when the
/// two lie more than a quarter turn apart in quaternion space, so the
/// shorter arc is taken.
pub open spec fn spec_quat_interp(a: Quat, b: Quat, num: int, den: int) -> Quat {
    if spec_quat_dot(a, b) < 0 {
        spec_quat_lerp(a, spec_quat_neg(b), num, den)
    } else {
        spec_quat_lerp(a, b, num, den)
    }
}

/// The sampled value of a vector channel at time `t`.
pub open spec fn spec_sample_vec3(ch: Vec3Channel, t: i64) -> Vec3
    recommends
        ch.wf(),
{
    let ts = ch.times@;
    let vs = ch.values@;
    if t <= ts[0] {
        vs[0]
    } else if ts[ts.len() - 1] <= t {
        vs[ts.len() - 1]
    } else {
        let i = spec_bracket(ts, t, 0);
        match ch.mode {
            Interpolation::Step => vs[i],
            Interpolation::Linear => spec_vec3_lerp(
                vs[i],
                vs[i + 1],
                t - ts[i],
                ts[i + 1] - ts[i],
            ),
        }
    }
}

/// The sampled value of a rotation channel at time `t`.
pub open spec fn spec_sample_quat(ch: QuatChannel, t: i64) -> Quat
    recommends
        ch.wf(),
{
    let ts = ch.times@;
    let vs = ch.values@;
    if t <= ts[0] {
        vs[0]
    } else if ts[ts.len() - 1] <= t {
        vs[ts.len() - 1]
    } else {
        let i = spec_bracket(ts, t, 0);
        match ch.mode {
            Interpolation::Step => vs[i],
            Interpolation::Linear => spec_quat_interp(
                vs[i],
                vs[i + 1],
                t - ts[i],
                ts[i + 1] - ts[i],
            ),
        }
    }
}

/// Find the bracketing keyframe index by a forward scan.
fn find_bracket(times: &Vec<i64>, t: i64) -> (i: usize)
    requires
        times@.len() >= 1,
    ensures
        i as int == spec_bracket(times@, t, 0),
        0 <= i < times@.len(),
{
    let n = times.len();
    let mut i: usize = 0;
    while i + 1 < n && times[i + 1] <= t
        invariant
            n == times@.len(),
            0 <= i < n,
            spec_bracket(times@, t, 0) == spec_bracket(times@, t, i as int),
        decreases times@.len() - i,
    {
        i = i + 1;
    }
    i
}

/// Interpolate one scalar.
fn fx_lerp(v0: i64, v1: i64, num: i64, den: i64) -> (r: i64)
    requires
        in_range(v0 as int),
        in_range(v1 as int),
        0 <= num <= den,
        0 < den <= TIME_MAX,
    ensures
        r as int == spec_lerp(v0 as int, v1 as int, num as int, den as int),
        in_range(r as int),
{
    let d: i128 = (v1 as i128) - (v0 as i128);
    proof {
        lemma_mul_bound(d as int, num as int, 0x1000000000000 as int);
    }
    let p: i128 = d * (num as i128);
    let q: i128 = div_trunc128(p, den as i128);
    proof {
        lemma_div_trunc_shrinks(p as int, den as int);
    }
    clamp128((v0 as i128) + q)
}

/// Sample a vector channel at time `t`.
pub fn sample_vec3(ch: &Vec3Channel, t: i64) -> (v: Vec3)
    requires
        ch.wf(),
    ensures
        v == spec_sample_vec3(*ch, t),
        v.wf(),
{
    let n = ch.times.len();
    if t <= ch.times[0] {
        ch.values[0]
    } else if ch.times[n - 1] <= t {
        ch.values[n - 1]
    } else {
        let i = find_bracket(&ch.times, t);
        proof {
            lemma_bracket_props(ch.times@, t, 0);
        }
        match ch.mode {
            Interpolation::Step => ch.values[i],
            Interpolation::Linear => {
                let t0 = ch.times[i];
                let t1 = ch.times[i + 1];
                let a = ch.values[i];
                let b = ch.values[i + 1];
                Vec3 {
                    x: fx_lerp(a.x, b.x, t - t0, t1 - t0),
                    y: fx_lerp(a.y, b.y, t - t0, t1 - t0),
                    z: fx_lerp(a.z, b.z, t - t0, t1 - t0),
                }
            },
        }
    }
}

/// Sample a rotation channel at time `t`, taking the shorter arc.
pub fn sample_quat(ch: &QuatChannel, t: i64) -> (v: Quat)
    requires
        ch.wf(),
    ensures
        v == spec_sample_quat(*ch, t),
        v.wf(),
{
    let n = ch.times.len();
    if t <= ch.times[0] {
        ch.values[0]
    } else if ch.times[n - 1] <= t {
        ch.values[n - 1]
    } else {
        let i = find_bracket(&ch.times, t);
        proof {
            lemma_bracket_props(ch.times@, t, 0);
        }
        match ch.mode {
            Interpolation::Step => ch.values[i],
            Interpolation::Linear => {
                let t0 = ch.times[i];
                let t1 = ch.times[i + 1];
                let a = ch.values[i];
                let braw = ch.values[i + 1];
                let b = if quat_dot128(&a, &braw) < 0 {
                    quat_neg(&braw)
                } else {
                    braw
                };
                Quat {
                    x: fx_lerp(a.x, b.x, t - t0, t1 - t0),
                    y: fx_lerp(a.y, b.y, t - t0, t1 - t0),
                    z: fx_lerp(a.z, b.z, t - t0, t1 - t0),
                    w: fx_lerp(a.w, b.w, t - t0, t1 - t0),
                }
            },
        }
    }
}

/// A channel with a single keyframe yields that keyframe's value at every
/// time, exactly.
pub proof fn lemma_single_keyframe_vec3(ch: Vec3Channel, t: i64)
    requires
        ch.wf(),
        ch.times@.len() == 1,
    ensures
        spec_sample_vec3(ch, t) == ch.values@[0],
{
}

/// A rotation channel with a single keyframe yields that keyframe's value
/// at every time, exactly.
pub proof fn lemma_single_keyframe_quat(ch: QuatChannel, t: i64)
    requires
        ch.wf(),
        ch.times@.len() == 1,
    ensures
        spec_sample_quat(ch, t) == ch.values@[0],
{
}

/// The load-time failure: scene data that violates a structural invariant
/// is refused at construction, so sampling and traversal never fail.
#[derive(Clone, Copy, PartialEq, Eq, Structural, Debug)]
pub enum LoadError {
    InvalidSceneData,
}

/// The sampled override for one node: only the channels the clip drives.
#[derive(Clone, Copy, PartialEq, Eq, Structural, Debug)]
pub struct AnimationTransform {
    pub translation: Option<Vec3>,
    pub rotation: Option<Quat>,
    pub scale: Option<Vec3>,
}

impl AnimationTransform {
    /// All present components inside the scalar range.
    pub open spec fn wf(self) -> bool {
        &&& match self.translation {
            Some(v) => v.wf(),
            None => true,
        }
        &&& match self.rotation {
            Some(q) => q.wf(),
            None => true,
        }
        &&& match self.scale {
            Some(v) => v.wf(),
            None => true,
        }
    }
}

/// The up-to-three channels a clip drives on one node.
#[derive(Clone, Debug)]
pub struct NodeChannels {
    /// The target node's index in the scene's node list.
    pub node: usize,
    pub translation: Option<Vec3Channel>,
    pub rotation: Option<QuatChannel>,
    pub scale: Option<Vec3Channel>,
}

impl NodeChannels {
    /// Every present channel well formed.
    pub open spec fn wf(self) -> bool {
        &&& match self.translation {
            Some(c) => c.wf(),
            None => true,
        }
        &&& match self.rotation {
            Some(c) => c.wf(),
            None => true,
        }
        &&& match self.scale {
            Some(c) => c.wf(),
            None => true,
        }
    }
}

/// The last keyframe time over the present channels of one node, 0 when
/// none is present.
pub open spec fn spec_channel_end(c: NodeChannels) -> int
    recommends
        c.wf(),
{
    let a = match c.translation {
        Some(ch) => ch.times@[ch.times@.len() - 1] as int,
        None => 0,
    };
    let b = match c.rotation {
        Some(ch) => ch.times@[ch.times@.len() - 1] as int,
        None => 0,
    };
    let d = match c.scale {
        Some(ch) => ch.times@[ch.times@.len() - 1] as int,
        None => 0,
    };
    let m = if a >= b {
        a
    } else {
        b
    };
    if m >= d {
        m
    } else {
        d
    }
}

/// The clip duration over the first `i` node-channel entries: the largest
/// last keyframe time.
pub open spec fn spec_duration_prefix(s: Seq<NodeChannels>, i: int) -> int
    recommends
        0 <= i <= s.len(),
    decreases i,
{
    if i <= 0 {
        0
    } else {
        let r = spec_duration_prefix(s, i - 1);
        let e = spec_channel_end(s[i - 1]);
        if e > r {
            e
        } else {
            r
        }
    }
}

/// Every entry of a clip's channel list well formed.
pub open spec fn spec_channels_wf(s: Seq<NodeChannels>) -> bool {
    forall|k: int| 0 <= k < s.len() ==> (#[trigger] s[k]).wf()
}

/// A named animation clip: per target node, up to three keyframe channels.
#[derive(Clone, Debug)]
pub struct Animation {
    pub name: String,
    pub channels: Vec<NodeChannels>,
    /// The largest last keyframe time over all channels.
    pub duration: i64,
}

impl Animation {
    /// Channels well formed and the duration their largest end time.
    pub open spec fn wf(self) -> bool {
        &&& spec_channels_wf(self.channels@)
        &&& self.duration as int == spec_duration_prefix(
            self.channels@,
            self.channels@.len() as int,
        )
        &&& 0 <= self.duration <= TIME_MAX
    }

    /// Validate parsed clip data and compute the clip's duration.
    ///
    /// Succeeds exactly when every channel is well formed: matching
    /// non-empty timelines, strictly increasing times inside
    /// `[0, TIME_MAX]`, values inside the scalar range.
    pub fn new(name: String, channels: Vec<NodeChannels>) -> (r: Result<Animation, LoadError>)
        ensures
            r is Ok <==> spec_channels_wf(channels@),
            r matches Ok(a) ==> a.name == name && a.channels == channels && a.wf(),
    {
        let n = channels.len();
        let mut duration: i64 = 0;
        let mut i: usize = 0;
        while i < n
            invariant
                n == channels@.len(),
                0 <= i <= n,
                forall|k: int| 0 <= k < i ==> (#[trigger] channels@[k]).wf(),
                duration as int == spec_duration_prefix(channels@, i as int),
                0 <= duration <= TIME_MAX,
            decreases n - i,
        {
            let c = &channels[i];
            if !check_node_channels(c) {
                return Err(LoadError::InvalidSceneData);
            }
            let e = channel_end(c);
            if e > duration {
                duration = e;
            }
            i = i + 1;
        }
        Ok(Animation { name, channels, duration })
    }
}

/// Check a keyframe time sequence.
fn check_times(ts: &Vec<i64>) -> (b: bool)
    ensures
        b == spec_times_wf(ts@),
{
    let n = ts.len();
    if n == 0 {
        return false;
    }
    let mut i: usize = 0;
    while i < n
        invariant
            n == ts@.len(),
            0 <= i <= n,
            forall|k: int| 0 <= k < i ==> 0 <= #[trigger] ts@[k] <= TIME_MAX,
            forall|k: int| 0 <= k < i && k + 1 < n ==> #[trigger] ts@[k] < ts@[k + 1],
        decreases n - i,
    {
        if ts[i] < 0 || ts[i] > TIME_MAX {
            return false;
        }
        if i + 1 < n && ts[i + 1] <= ts[i] {
            return false;
        }
        i = i + 1;
    }
    true
}

/// Check a vector channel.
fn check_vec3_channel(ch: &Vec3Channel) -> (b: bool)
    ensures
        b == ch.wf(),
{
    if !check_times(&ch.times) {
        return false;
    }
    let n = ch.values.len();
    if n != ch.times.len() {
        return false;
    }
    let mut i: usize = 0;
    while i < n
        invariant
            n == ch.values@.len(),
            0 <= i <= n,
            forall|k: int| 0 <= k < i ==> (#[trigger] ch.values@[k]).wf(),
        decreases n - i,
    {
        let v = &ch.values[i];
        if v.x < -FX_MAX || v.x > FX_MAX || v.y < -FX_MAX || v.y > FX_MAX || v.z < -FX_MAX
            || v.z > FX_MAX {
            return false;
        }
        i = i + 1;
    }
    true
}

/// Check a rotation channel.
fn check_quat_channel(ch: &QuatChannel) -> (b: bool)
    ensures
        b == ch.wf(),
{
    if !check_times(&ch.times) {
        return false;
    }
    let n = ch.values.len();
    if n != ch.times.len() {
        return false;
    }
    let mut i: usize = 0;
    while i < n
        invariant
            n == ch.values@.len(),
            0 <= i <= n,
            forall|k: int| 0 <= k < i ==> (#[trigger] ch.values@[k]).wf(),
        decreases n - i,
    {
        let v = &ch.values[i];
        if v.x < -FX_MAX || v.x > FX_MAX || v.y < -FX_MAX || v.y > FX_MAX || v.z < -FX_MAX
            || v.z > FX_MAX || v.w < -FX_MAX || v.w > FX_MAX {
            return false;
        }
        i = i + 1;
    }
    true
}

/// Check one node's channel set.
fn check_node_channels(c: &NodeChannels) -> (b: bool)
    ensures
        b == c.wf(),
{
    let t_ok = match &c.translation {
        Some(ch) => check_vec3_channel(ch),
        None => true,
    };
    let r_ok = match &c.rotation {
        Some(ch) => check_quat_channel(ch),
        None => true,
    };
    let s_ok = match &c.scale {
        Some(ch) => check_vec3_channel(ch),
        None => true,
    };
    t_ok && r_ok && s_ok
}

/// The last keyframe time of one node's channel set.
fn channel_end(c: &NodeChannels) -> (e: i64)
    requires
        c.wf(),
    ensures
        e as int == spec_channel_end(*c),
        0 <= e <= TIME_MAX,
{
    let a = match &c.translation {
        Some(ch) => ch.times[ch.times.len() - 1],
        None => 0,
    };
    let b = match &c.rotation {
        Some(ch) => ch.times[ch.times.len() - 1],
        None => 0,
    };
    let d = match &c.scale {
        Some(ch) => ch.times[ch.times.len() - 1],
        None => 0,
    };
    let m = if a >= b {
        a
    } else {
        b
    };
    if m >= d {
        m
    } else {
        d
    }
}

/// Check a fully built clip: channels well formed and the stored duration
/// their largest end time.
pub fn check_animation(a: &Animation) -> (b: bool)
    ensures
        b == a.wf(),
{
    let n = a.channels.len();
    let mut duration: i64 = 0;
    let mut i: usize = 0;
    while i < n
        invariant
            n == a.channels@.len(),
            0 <= i <= n,
            forall|k: int| 0 <= k < i ==> (#[trigger] a.channels@[k]).wf(),
            duration as int == spec_duration_prefix(a.channels@, i as int),
            0 <= duration <= TIME_MAX,
        decreases n - i,
    {
        let c = &a.channels[i];
        if !check_node_channels(c) {
            return false;
        }
        let e = channel_end(c);
        if e > duration {
            duration = e;
        }
        i = i + 1;
    }
    duration == a.duration
}

/// The first channel entry targeting `node`, scanning from `j`; the list's
/// length when none does.
pub open spec fn spec_find_channels(s: Seq<NodeChannels>, node: int, j: int) -> int
    recommends
        0 <= j <= s.len(),
    decreases s.len() - j,
{
    if j >= s.len() {
        s.len() as int
    } else if s[j].node == node {
        j
    } else {
        spec_find_channels(s, node, j + 1)
    }
}

/// The override a clip yields for one node at time `t`: each driven
/// channel sampled, each undriven component absent.
pub open spec fn spec_sample_channels(c: NodeChannels, t: i64) -> AnimationTransform {
    AnimationTransform {
        translation: match c.translation {
            Some(ch) => Some(spec_sample_vec3(ch, t)),
            None => None,
        },
        rotation: match c.rotation {
            Some(ch) => Some(spec_sample_quat(ch, t)),
            None => None,
        },
        scale: match c.scale {
            Some(ch) => Some(spec_sample_vec3(ch, t)),
            None => None,
        },
    }
}

/// What a clip yields for one node at time `t`: `None` when the clip does
/// not animate the node at all.
pub open spec fn spec_sample_node(a: Animation, node: int, t: i64) -> Option<AnimationTransform>
    recommends
        a.wf(),
{
    let i = spec_find_channels(a.channels@, node, 0);
    if i < a.channels@.len() {
        Some(spec_sample_channels(a.channels@[i], t))
    } else {
        None
    }
}

impl Animation {
    /// Sample this clip for one node at time `t`.
    pub fn sample_node(&self, node: usize, t: i64) -> (r: Option<AnimationTransform>)
        requires
            self.wf(),
        ensures
            r == spec_sample_node(*self, node as int, t),
            r matches Some(o) ==> o.wf(),
    {
        let n = self.channels.len();
        let mut i: usize = 0;
        while i < n && self.channels[i].node != node
            invariant
                n == self.channels@.len(),
                0 <= i <= n,
                spec_find_channels(self.channels@, node as int, 0) == spec_find_channels(
                    self.channels@,
                    node as int,
                    i as int,
                ),
            decreases n - i,
        {
            i = i + 1;
        }
        if i == n {
            return None;
        }
        let c = &self.channels[i];
        Some(
            AnimationTransform {
                translation: match &c.translation {
                    Some(ch) => Some(sample_vec3(ch, t)),
                    None => None,
                },
                rotation: match &c.rotation {
                    Some(ch) => Some(sample_quat(ch, t)),
                    None => None,
                },
                scale: match &c.scale {
                    Some(ch) => Some(sample_vec3(ch, t)),
                    None => None,
                },
            },
        )
    }
}

/// Strictly increasing adjacent keyframe times increase over any distance.
pub proof fn lemma_times_increase(ts: Seq<i64>, i: int, j: int)
    requires
        forall|k: int| 0 <= k && k + 1 < ts.len() ==> #[trigger] ts[k] < ts[k + 1],
        0 <= i <= j < ts.len(),
    ensures
        ts[i] <= ts[j],
        i < j ==> ts[i] < ts[j],
    decreases j - i,
{
    if i < j {
        lemma_times_increase(ts, i + 1, j);
    }
}

/// Sampling exactly at the first keyframe's time yields the first value,
/// and at the last keyframe's time the last value, with no interpolation
/// artifact.
pub proof fn lemma_sample_at_ends_vec3(ch: Vec3Channel)
    requires
        ch.wf(),
    ensures
        spec_sample_vec3(ch, ch.times@[0]) == ch.values@[0],
        spec_sample_vec3(ch, ch.times@[ch.times@.len() - 1]) == ch.values@[ch.times@.len() - 1],
{
    lemma_times_increase(ch.times@, 0, ch.times@.len() - 1);
}

/// Sampling a rotation channel exactly at the first or last keyframe's
/// time yields that keyframe's value, with no interpolation artifact.
pub proof fn lemma_sample_at_ends_quat(ch: QuatChannel)
    requires
        ch.wf(),
    ensures
        spec_sample_quat(ch, ch.times@[0]) == ch.values@[0],
        spec_sample_quat(ch, ch.times@[ch.times@.len() - 1]) == ch.values@[ch.times@.len() - 1],
{
    lemma_times_increase(ch.times@, 0, ch.times@.len() - 1);
}

/// The unnormalized halfway point of rotation interpolation, `q0 + q1`, is
/// equally aligned with both endpoints when they have equal norms (as unit
/// keyframes do): its dot product with each endpoint is the same, so its
/// angular distance to each is the same.
pub proof fn lemma_midpoint_equidistant(q0: Quat, q1: Quat)
    requires
        q0.wf(),
        q1.wf(),
        spec_quat_dot(q0, q0) == spec_quat_dot(q1, q1),
    ensures
        spec_quat_dot(q0, spec_quat_sum(q0, q1)) == spec_quat_dot(q1, spec_quat_sum(q0, q1)),
{
    let ax = q0.x as int;
    let ay = q0.y as int;
    let az = q0.z as int;
    let aw = q0.w as int;
    let bx = q1.x as int;
    let by = q1.y as int;
    let bz = q1.z as int;
    let bw = q1.w as int;
    let m = spec_quat_sum(q0, q1);
    assert(m.x as int == ax + bx);
    assert(m.y as int == ay + by);
    assert(m.z as int == az + bz);
    assert(m.w as int == aw + bw);
    assert(ax * (ax + bx) + ay * (ay + by) + az * (az + bz) + aw * (aw + bw) == bx * (ax + bx)
        + by * (ay + by) + bz * (az + bz) + bw * (aw + bw)) by (nonlinear_arith)
        requires
            ax * ax + ay * ay + az * az + aw * aw == bx * bx + by * by + bz * bz + bw * bw,
    ;
}

/// When two rotation keyframes lie more than a quarter turn apart in
/// quaternion space, interpolation proceeds exactly as if the second were
/// negated: the shorter arc is taken.
pub proof fn lemma_shortest_path(a: Quat, b: Quat, num: int, den: int)
    requires
        spec_quat_dot(a, b) < 0,
    ensures
        spec_quat_interp(a, b, num, den) == spec_quat_lerp(a, spec_quat_neg(b), num, den),
{
}

} // verus!
