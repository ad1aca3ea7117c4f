//! The scene: a node arena, skeleton bindings, and the per-frame
//! evaluator.
//!
//! Nodes are stored parent-before-child, so the hierarchy is acyclic and
//! finite by construction and one forward pass accumulates every world
//! matrix.  Skin matrices are computed from the accumulated worlds
//! strictly afterwards, since joints may live anywhere in the tree.

use vstd::prelude::*;

use crate::animation::{
    check_animation, spec_sample_node, Animation, AnimationTransform, LoadError,
};
use crate::fixed::TIME_MAX;
use crate::math::{mat_in_range, quat_in_range, spec_mat_identity, spec_mat_mul, vec3_in_range, Mat4};
use crate::playback::{AnimationControl, Animations};
use crate::transform::{spec_to_matrix, Transform};

verus! {

/// One bone of a skin: the node acting as the bone, and the matrix that
/// takes mesh bind space into the bone's local bind space.
#[derive(Clone, Copy, PartialEq, Eq, Structural, Debug)]
pub struct Joint {
    pub node_index: usize,
    pub inverse_bind: Mat4,
}

/// The skeleton binding of one node: the ordered joint list, whose order
/// fixes each joint's slot in the skinning-matrix array, plus the
/// skeleton root.
#[derive(Clone, Debug)]
pub struct Joints {
    pub joints: Vec<Joint>,
    pub skeleton_root: usize,
}

impl Joints {
    /// Every joint refers to an existing node and carries an in-range
    /// inverse-bind matrix.
    pub open spec fn wf(self, node_count: int) -> bool {
        &&& forall|k: int|
            0 <= k < self.joints@.len() ==> ((#[trigger] self.joints@[k]).node_index as int)
                < node_count && self.joints@[k].inverse_bind.wf()
        &&& (self.skeleton_root as int) < node_count
    }
}

/// One scene node: a local transform under an optional parent, an
/// optional mesh reference, and an optional skeleton binding.
#[derive(Clone, Debug)]
pub struct Node {
    pub name: String,
    /// Index of the parent node; `None` for a top-level node, whose
    /// parent is the model's own transform.
    pub parent: Option<usize>,
    pub local: Transform,
    /// Reference into the mesh list held by the rendering collaborator.
    pub mesh: Option<usize>,
    /// Present when this node is the root of a skinned skeleton.
    pub joints: Option<Joints>,
}

impl Node {
    /// Parent stored before child, references in range, transform in
    /// range.
    pub open spec fn wf(self, index: int, node_count: int, mesh_count: int) -> bool {
        &&& match self.parent {
            Some(p) => (p as int) < index,
            None => true,
        }
        &&& self.local.wf()
        &&& match self.mesh {
            Some(m) => (m as int) < mesh_count,
            None => true,
        }
        &&& match self.joints {
            Some(j) => j.wf(node_count),
            None => true,
        }
    }
}

/// The joint list of a node's skeleton binding, empty without one.
pub open spec fn spec_node_joints(n: Node) -> Seq<Joint> {
    match n.joints {
        Some(j) => j.joints@,
        None => Seq::empty(),
    }
}

/// A loaded model: its node arena, its clips with their playback state,
/// and the model-to-world transform above every top-level node.
pub struct Model {
    pub name: String,
    pub nodes: Vec<Node>,
    pub animations: Animations,
    pub transform: Mat4,
    /// How many meshes the rendering collaborator holds for this model;
    /// node mesh references stay below it.
    pub mesh_count: usize,
}

/// Every animation channel of every clip targets an existing node.
pub open spec fn spec_targets_ok(clips: Seq<Animation>, node_count: int) -> bool {
    forall|k: int, c: int|
        0 <= k < clips.len() && 0 <= c < clips[k].channels@.len() ==> ((#[trigger] clips[k].channels@[c]).node as int) < node_count
}

/// Every node well formed at its own index.
pub open spec fn spec_nodes_wf(nodes: Seq<Node>, mesh_count: int) -> bool {
    forall|i: int| 0 <= i < nodes.len() ==> (#[trigger] nodes[i]).wf(i, nodes.len() as int, mesh_count)
}

impl Model {
    /// The structural invariant the loader establishes.
    pub open spec fn wf(self) -> bool {
        &&& spec_nodes_wf(self.nodes@, self.mesh_count as int)
        &&& self.animations.wf()
        &&& spec_targets_ok(self.animations.clips@, self.nodes@.len() as int)
        &&& self.transform.wf()
    }

    /// Build a model from parsed scene data, validating every structural
    /// invariant.  Succeeds exactly when nodes, clips and cross
    /// references are well formed; playback starts unselected, paused at
    /// time zero, looping.
    pub fn new(
        name: String,
        nodes: Vec<Node>,
        clips: Vec<Animation>,
        transform: Mat4,
        mesh_count: usize,
    ) -> (r: Result<Model, LoadError>)
        ensures
            r is Ok <==> spec_nodes_wf(nodes@, mesh_count as int) && (forall|k: int|
                0 <= k < clips@.len() ==> (#[trigger] clips@[k]).wf()) && spec_targets_ok(
                clips@,
                nodes@.len() as int,
            ) && transform.wf(),
            r matches Ok(m) ==> m == (Model {
                name,
                nodes,
                animations: Animations {
                    clips,
                    control: AnimationControl {
                        active: None,
                        time: 0,
                        playing: false,
                        looping: true,
                    },
                },
                transform,
                mesh_count,
            }) && m.wf(),
    {
        if !mat_in_range(&transform) {
            return Err(LoadError::InvalidSceneData);
        }
        if !check_nodes(&nodes, mesh_count) {
            return Err(LoadError::InvalidSceneData);
        }
        if !check_clips(&clips) {
            return Err(LoadError::InvalidSceneData);
        }
        if !check_targets(&clips, nodes.len()) {
            return Err(LoadError::InvalidSceneData);
        }
        Ok(
            Model {
                name,
                nodes,
                animations: Animations::new(clips),
                transform,
                mesh_count,
            },
        )
    }
}

/// Check every node at its own index.
fn check_nodes(nodes: &Vec<Node>, mesh_count: usize) -> (b: bool)
    ensures
        b == spec_nodes_wf(nodes@, mesh_count as int),
{
    let n = nodes.len();
    let mut i: usize = 0;
    while i < n
        invariant
            n == nodes@.len(),
            0 <= i <= n,
            forall|k: int|
                0 <= k < i ==> (#[trigger] nodes@[k]).wf(k, n as int, mesh_count as int),
        decreases n - i,
    {
        let node = &nodes[i];
        let parent_ok = match &node.parent {
            Some(p) => *p < i,
            None => true,
        };
        if !parent_ok {
            return false;
        }
        if !vec3_in_range(&node.local.translation) || !quat_in_range(&node.local.rotation)
            || !vec3_in_range(&node.local.scale) {
            return false;
        }
        let mesh_ok = match &node.mesh {
            Some(m) => *m < mesh_count,
            None => true,
        };
        if !mesh_ok {
            return false;
        }
        match &node.joints {
            Some(js) => {
                if js.skeleton_root >= n {
                    return false;
                }
                let jn = js.joints.len();
                let mut j: usize = 0;
                while j < jn
                    invariant
                        jn == js.joints@.len(),
                        n == nodes@.len(),
                        0 <= i < n,
                        *node == nodes@[i as int],
                        node.joints == Some(*js),
                        0 <= j <= jn,
                        forall|k: int|
                            0 <= k < j ==> ((#[trigger] js.joints@[k]).node_index as int)
                                < n as int && js.joints@[k].inverse_bind.wf(),
                    decreases jn - j,
                {
                    if js.joints[j].node_index >= n {
                        proof {
                            assert(!js.wf(n as int));
                            assert(nodes@[i as int] == *node);
                            assert(node.joints == Some(*js));
                            assert(!nodes@[i as int].wf(i as int, n as int, mesh_count as int));
                        }
                        return false;
                    }
                    if !mat_in_range(&js.joints[j].inverse_bind) {
                        proof {
                            assert(!js.wf(n as int));
                            assert(nodes@[i as int] == *node);
                            assert(node.joints == Some(*js));
                            assert(!nodes@[i as int].wf(i as int, n as int, mesh_count as int));
                        }
                        return false;
                    }
                    j = j + 1;
                }
            },
            None => {},
        }
        i = i + 1;
    }
    true
}

/// Check every clip.
fn check_clips(clips: &Vec<Animation>) -> (b: bool)
    ensures
        b == (forall|k: int| 0 <= k < clips@.len() ==> (#[trigger] clips@[k]).wf()),
{
    let n = clips.len();
    let mut i: usize = 0;
    while i < n
        invariant
            n == clips@.len(),
            0 <= i <= n,
            forall|k: int| 0 <= k < i ==> (#[trigger] clips@[k]).wf(),
        decreases n - i,
    {
        if !check_animation(&clips[i]) {
            return false;
        }
        i = i + 1;
    }
    true
}

/// Check that every channel of every clip targets an existing node.
fn check_targets(clips: &Vec<Animation>, node_count: usize) -> (b: bool)
    ensures
        b == spec_targets_ok(clips@, node_count as int),
{
    let n = clips.len();
    let mut i: usize = 0;
    while i < n
        invariant
            n == clips@.len(),
            0 <= i <= n,
            forall|k: int, c: int|
                0 <= k < i && 0 <= c < clips@[k].channels@.len() ==> ((
                #[trigger] clips@[k].channels@[c]).node as int) < node_count as int,
        decreases n - i,
    {
        let a = &clips[i];
        let cn = a.channels.len();
        let mut c: usize = 0;
        while c < cn
            invariant
                n == clips@.len(),
                0 <= i < n,
                cn == clips@[i as int].channels@.len(),
                a == &clips[i as int],
                0 <= c <= cn,
                forall|k: int, c2: int|
                    0 <= k < i && 0 <= c2 < clips@[k].channels@.len() ==> ((
                    #[trigger] clips@[k].channels@[c2]).node as int) < node_count as int,
                forall|c2: int|
                    0 <= c2 < c ==> ((#[trigger] clips@[i as int].channels@[c2]).node as int)
                        < node_count as int,
            decreases cn - c,
        {
            if a.channels[c].node >= node_count {
                return false;
            }
            c = c + 1;
        }
        i = i + 1;
    }
    true
}

/// The clip playback currently points at, if any.
pub open spec fn spec_active_clip(m: Model) -> Option<Animation> {
    match m.animations.control.active {
        Some(i) => Some(m.animations.clips@[i as int]),
        None => None,
    }
}

/// The animation override for one node at time `t` under the active clip.
pub open spec fn spec_override(clip: Option<Animation>, node: int, t: i64) -> Option<
    AnimationTransform,
> {
    match clip {
        Some(a) => spec_sample_node(a, node, t),
        None => None,
    }
}

/// The node's base transform with the driven channels replaced by the
/// override's values; undriven channels keep the authored value.
pub open spec fn spec_merged(base: Transform, ov: Option<AnimationTransform>) -> Transform {
    match ov {
        None => base,
        Some(o) => Transform {
            translation: match o.translation {
                Some(v) => v,
                None => base.translation,
            },
            rotation: match o.rotation {
                Some(q) => q,
                None => base.rotation,
            },
            scale: match o.scale {
                Some(v) => v,
                None => base.scale,
            },
        },
    }
}

/// The effective local matrix of node `i` at time `t`.
pub open spec fn spec_local_matrix(m: Model, i: int, t: i64) -> Mat4 {
    spec_to_matrix(spec_merged(m.nodes@[i].local, spec_override(spec_active_clip(m), i, t)))
}

/// The world matrix of node `i` at time `t`: the parent's world matrix
/// (the model transform for a top-level node) times the effective local
/// matrix.  Well defined because parents are stored before children.
pub open spec fn spec_world(m: Model, i: int, t: i64) -> Mat4
    recommends
        m.wf(),
        0 <= i < m.nodes@.len(),
    decreases i,
{
    let local = spec_local_matrix(m, i, t);
    match m.nodes@[i].parent {
        None => spec_mat_mul(m.transform, local),
        Some(p) => if 0 <= i && (p as int) < i {
            spec_mat_mul(spec_world(m, p as int, t), local)
        } else {
            spec_mat_mul(m.transform, local)
        },
    }
}

/// The final skinning matrix of one joint at time `t`: the joint node's
/// world matrix times the joint's inverse-bind matrix.
pub open spec fn spec_skin_matrix(m: Model, j: Joint, t: i64) -> Mat4 {
    spec_mat_mul(spec_world(m, j.node_index as int, t), j.inverse_bind)
}

/// The indices below `i` of nodes carrying a skeleton binding, ascending.
pub open spec fn spec_joint_nodes(nodes: Seq<Node>, i: int) -> Seq<int>
    decreases i,
{
    if i <= 0 {
        Seq::empty()
    } else {
        let r = spec_joint_nodes(nodes, i - 1);
        if nodes[i - 1].joints is Some {
            r.push(i - 1)
        } else {
            r
        }
    }
}

/// The skinning-matrix array of one skin: per joint slot `k`, its world
/// matrix times its inverse-bind matrix.
#[derive(Clone, Debug)]
pub struct SkinMatrices {
    /// The node whose skeleton binding produced this array.
    pub node_index: usize,
    /// One matrix per joint, in the skin's fixed joint order.
    pub matrices: Vec<Mat4>,
}

/// One frame's output: a world matrix per node, and a skinning-matrix
/// array per skeleton-binding node, ascending by node index.
pub struct Evaluation {
    pub worlds: Vec<Mat4>,
    pub skins: Vec<SkinMatrices>,
}

/// The world matrices are exactly the accumulated hierarchy transforms.
pub open spec fn spec_worlds_ok(m: Model, t: i64, worlds: Seq<Mat4>) -> bool {
    &&& worlds.len() == m.nodes@.len()
    &&& forall|i: int|
        0 <= i < worlds.len() ==> #[trigger] worlds[i] == spec_world(m, i, t) && worlds[i].wf()
}

/// The skin arrays are exactly the per-joint products, one entry per
/// skeleton-binding node, ascending.
pub open spec fn spec_skins_ok(m: Model, t: i64, skins: Seq<SkinMatrices>) -> bool {
    let jn = spec_joint_nodes(m.nodes@, m.nodes@.len() as int);
    &&& skins.len() == jn.len()
    &&& forall|k: int|
        0 <= k < skins.len() ==> ((#[trigger] skins[k]).node_index as int) == jn[k]
            && skins[k].matrices@.len() == spec_node_joints(m.nodes@[jn[k]]).len()
            && (forall|j: int|
            0 <= j < skins[k].matrices@.len() ==> #[trigger] skins[k].matrices@[j]
                == spec_skin_matrix(m, spec_node_joints(m.nodes@[jn[k]])[j], t))
}

/// Everything `evaluate` promises of one frame's output.
pub open spec fn spec_evaluation_ok(m: Model, out: Evaluation) -> bool {
    &&& spec_worlds_ok(m, m.animations.control.time, out.worlds@)
    &&& spec_skins_ok(m, m.animations.control.time, out.skins@)
}

/// Merge a sampled override onto a node's base transform: driven
/// channels take the sampled value, undriven ones keep the authored one.
fn apply_override(base: &Transform, ov: &Option<AnimationTransform>) -> (r: Transform)
    requires
        base.wf(),
        match ov {
            Some(o) => o.wf(),
            None => true,
        },
    ensures
        r == spec_merged(*base, *ov),
        r.wf(),
{
    match ov {
        None => *base,
        Some(o) => Transform {
            translation: match &o.translation {
                Some(v) => *v,
                None => base.translation,
            },
            rotation: match &o.rotation {
                Some(q) => *q,
                None => base.rotation,
            },
            scale: match &o.scale {
                Some(v) => *v,
                None => base.scale,
            },
        },
    }
}

/// The skinning matrices of one skin, from already accumulated world
/// matrices: per joint slot, the joint node's world matrix times the
/// joint's inverse-bind matrix, in the skin's fixed order.
pub fn skin_matrices(js: &Joints, worlds: &Vec<Mat4>) -> (r: Vec<Mat4>)
    requires
        js.wf(worlds@.len() as int),
        forall|i: int| 0 <= i < worlds@.len() ==> (#[trigger] worlds@[i]).wf(),
    ensures
        r@.len() == js.joints@.len(),
        forall|k: int|
            0 <= k < r@.len() ==> #[trigger] r@[k] == spec_mat_mul(
                worlds@[js.joints@[k].node_index as int],
                js.joints@[k].inverse_bind,
            ) && r@[k].wf(),
{
    let jn = js.joints.len();
    let mut r: Vec<Mat4> = Vec::new();
    let mut k: usize = 0;
    while k < jn
        invariant
            jn == js.joints@.len(),
            js.wf(worlds@.len() as int),
            forall|i: int| 0 <= i < worlds@.len() ==> (#[trigger] worlds@[i]).wf(),
            0 <= k <= jn,
            r@.len() == k,
            forall|q: int|
                0 <= q < k ==> #[trigger] r@[q] == spec_mat_mul(
                    worlds@[js.joints@[q].node_index as int],
                    js.joints@[q].inverse_bind,
                ) && r@[q].wf(),
        decreases jn - k,
    {
        let jt = &js.joints[k];
        let m = worlds[jt.node_index].mul(&jt.inverse_bind);
        r.push(m);
        k = k + 1;
    }
    r
}

/// Evaluate one frame at the current playback time: one forward pass
/// accumulates every node's world matrix, then every skeleton binding's
/// skinning matrices are formed from those worlds.
pub fn evaluate(model: &Model) -> (out: Evaluation)
    requires
        model.wf(),
    ensures
        spec_evaluation_ok(*model, out),
{
    let t = model.animations.control.time;
    let n = model.nodes.len();
    let mut worlds: Vec<Mat4> = Vec::new();
    let mut i: usize = 0;
    while i < n
        invariant
            model.wf(),
            t == model.animations.control.time,
            n == model.nodes@.len(),
            0 <= i <= n,
            worlds@.len() == i,
            forall|q: int|
                0 <= q < i ==> #[trigger] worlds@[q] == spec_world(*model, q, t)
                    && worlds@[q].wf(),
        decreases n - i,
    {
        let node = &model.nodes[i];
        let ov = match model.animations.control.active {
            Some(a) => model.animations.clips[a].sample_node(i, t),
            None => None,
        };
        proof {
            assert(ov == spec_override(spec_active_clip(*model), i as int, t));
        }
        let merged = apply_override(&node.local, &ov);
        let local = merged.to_matrix();
        let world = match &node.parent {
            Some(p) => worlds[*p].mul(&local),
            None => model.transform.mul(&local),
        };
        worlds.push(world);
        i = i + 1;
    }
    let mut skins: Vec<SkinMatrices> = Vec::new();
    let mut s: usize = 0;
    while s < n
        invariant
            model.wf(),
            t == model.animations.control.time,
            n == model.nodes@.len(),
            worlds@.len() == n,
            forall|q: int|
                0 <= q < n ==> #[trigger] worlds@[q] == spec_world(*model, q, t)
                    && worlds@[q].wf(),
            0 <= s <= n,
            skins@.len() == spec_joint_nodes(model.nodes@, s as int).len(),
            forall|k: int|
                0 <= k < skins@.len() ==> ((#[trigger] skins@[k]).node_index as int)
                    == spec_joint_nodes(model.nodes@, s as int)[k] && skins@[k].matrices@.len()
                    == spec_node_joints(
                    model.nodes@[spec_joint_nodes(model.nodes@, s as int)[k]],
                ).len() && (forall|j: int|
                    0 <= j < skins@[k].matrices@.len() ==> #[trigger] skins@[k].matrices@[j]
                        == spec_skin_matrix(
                        *model,
                        spec_node_joints(
                            model.nodes@[spec_joint_nodes(model.nodes@, s as int)[k]],
                        )[j],
                        t,
                    )),
        decreases n - s,
    {
        let node = &model.nodes[s];
        match &node.joints {
            Some(js) => {
                proof {
                    assert(model.nodes@[s as int].wf(
                        s as int,
                        n as int,
                        model.mesh_count as int,
                    ));
                    assert(js.wf(n as int));
                }
                let mats = skin_matrices(js, &worlds);
                proof {
                    assert forall|j: int| 0 <= j < mats@.len() implies #[trigger] mats@[j]
                        == spec_skin_matrix(*model, js.joints@[j], t) by {
                        let idx = js.joints@[j].node_index as int;
                        assert(worlds@[idx] == spec_world(*model, idx, t));
                    };
                    assert(spec_joint_nodes(model.nodes@, s as int + 1) == spec_joint_nodes(
                        model.nodes@,
                        s as int,
                    ).push(s as int));
                }
                skins.push(SkinMatrices { node_index: s, matrices: mats });
            },
            None => {
                proof {
                    assert(spec_joint_nodes(model.nodes@, s as int + 1) == spec_joint_nodes(
                        model.nodes@,
                        s as int,
                    ));
                }
            },
        }
        s = s + 1;
    }
    Evaluation { worlds, skins }
}

impl Model {
    /// Drive one frame: advance playback by the frame's elapsed time,
    /// then evaluate every world matrix and every skinning-matrix array
    /// at the new time.
    pub fn update(&mut self, delta: i64) -> (out: Evaluation)
        requires
            old(self).wf(),
            0 <= delta <= TIME_MAX,
        ensures
            final(self).wf(),
            final(self).name == old(self).name,
            final(self).nodes == old(self).nodes,
            final(self).transform == old(self).transform,
            final(self).mesh_count == old(self).mesh_count,
            final(self).animations.clips == old(self).animations.clips,
            final(self).animations.control.active == old(self).animations.control.active,
            final(self).animations.control.playing == old(self).animations.control.playing,
            final(self).animations.control.looping == old(self).animations.control.looping,
            spec_evaluation_ok(*final(self), out),
    {
        self.animations.advance(delta);
        evaluate(self)
    }
}

/// Hierarchy evaluation is deterministic: any two world-matrix snapshots
/// of the same unmodified model at the same playback time are identical,
/// whatever order they were produced in.
pub proof fn lemma_evaluation_deterministic(m: Model, t: i64, w1: Seq<Mat4>, w2: Seq<Mat4>)
    requires
        spec_worlds_ok(m, t, w1),
        spec_worlds_ok(m, t, w2),
    ensures
        w1 == w2,
{
    assert forall|i: int| 0 <= i < w1.len() implies w1[i] == w2[i] by {
        assert(w1[i] == spec_world(m, i, t));
        assert(w2[i] == spec_world(m, i, t));
    };
    assert(w1 =~= w2);
}

/// Skinning at bind pose is the identity: when every joint's world
/// matrix equals its bind-pose world matrix, and each bind-pose world
/// matrix times that joint's inverse-bind matrix is the identity, every
/// skinning matrix is the identity.
pub proof fn lemma_skin_identity_at_bind_pose(m: Model, js: Joints, binds: Seq<Mat4>, t: i64)
    requires
        binds.len() == js.joints@.len(),
        forall|k: int|
            0 <= k < js.joints@.len() ==> spec_world(
                m,
                (#[trigger] js.joints@[k]).node_index as int,
                t,
            ) == binds[k],
        forall|k: int|
            0 <= k < js.joints@.len() ==> spec_mat_mul(
                binds[k],
                (#[trigger] js.joints@[k]).inverse_bind,
            ) == spec_mat_identity(),
    ensures
        forall|k: int|
            0 <= k < js.joints@.len() ==> spec_skin_matrix(m, #[trigger] js.joints@[k], t)
                == spec_mat_identity(),
{
}

} // verus!
