//! Applying drag gestures to spawned instances.
//!
//! A pointer drag routed to an instance is reinterpreted in the camera's yaw
//! frame, so motion looks grounded from any view angle, and then applied
//! according to the button held:
//!
//! - primary: translation in the ground plane;
//! - secondary: yaw rotation with the horizontal delta and a scale change
//!   with the vertical one, the scale step clamped at tenfold growth;
//! - middle: vertical translation.
//!
//! Each gesture is applied exactly once. A gesture naming an instance that
//! no longer exists is discarded and reported as a warning, never fatal.

use vstd::prelude::*;
use crate::fixed::{Vec3Fx, fx_mul, mul_fx, sat_add, add_sat, min_of, min_i64, lemma_mul_bound,
    DELTA_BOUND, FX_UNIT_BOUND};
use crate::spawn::{InstanceTransform, SceneInstance};

verus! {

/// The pointer button a drag gesture was made with.
#[derive(Clone, Copy, Debug, PartialEq, Eq, Structural)]
pub enum DragButton {
    Primary,
    Secondary,
    Middle,
}

/// A per-frame pointer movement, in thousandths of a pixel.
#[derive(Clone, Copy, Debug, PartialEq, Eq, Structural)]
pub struct DragDelta {
    pub x: i64,
    pub y: i64,
}

/// The camera's yaw frame: the sine and cosine of its yaw, in thousandths.
#[derive(Clone, Copy, Debug, PartialEq, Eq, Structural)]
pub struct YawFrame {
    pub sin: i64,
    pub cos: i64,
}

/// A drag gesture: the instance it targets, the button, and the delta.
#[derive(Clone, Copy, Debug, PartialEq, Eq, Structural)]
pub struct DragGesture {
    pub entity: u64,
    pub button: DragButton,
    pub delta: DragDelta,
}

/// A gesture naming a since-removed instance is discarded with a warning.
#[derive(Clone, Copy, Debug, PartialEq, Eq, Structural)]
pub enum GestureWarning {
    UnknownInstance,
}

/// Ground-plane translation per unit of rotated delta, in thousandths.
pub const TRANSLATE_RATE_X: i64 = 50;

/// Same, for the depth axis.
pub const TRANSLATE_RATE_Z: i64 = 30;

/// Vertical translation per unit of delta, in thousandths.
pub const LIFT_RATE: i64 = 50;

/// Yaw change per unit of horizontal delta, in thousandths.
pub const SPIN_RATE: i64 = 20;

/// Log-scale change per unit of vertical delta, in thousandths.
pub const SCALE_RATE: i64 = 10;

/// The cap on one gesture's log-scale step: the natural logarithm of ten in
/// thousandths, so a single drag multiplies the scale by at most tenfold.
pub const SCALE_STEP_MAX: i64 = 2302;

/// A delta's components lie within the per-gesture bound.
pub open spec fn delta_bounded(d: DragDelta) -> bool {
    &&& -DELTA_BOUND <= d.x <= DELTA_BOUND
    &&& -DELTA_BOUND <= d.y <= DELTA_BOUND
}

/// A yaw frame carries a genuine sine/cosine pair: unit components.
pub open spec fn frame_bounded(f: YawFrame) -> bool {
    &&& -FX_UNIT_BOUND <= f.sin <= FX_UNIT_BOUND
    &&& -FX_UNIT_BOUND <= f.cos <= FX_UNIT_BOUND
}

/// The drag delta rotated into the camera's yaw frame: its component along
/// the frame's ground x axis.
pub open spec fn yaw_frame_dx(d: DragDelta, f: YawFrame) -> int {
    fx_mul(d.x as int, f.cos as int) + fx_mul(d.y as int, f.sin as int)
}

/// Same, along the frame's ground depth axis.
pub open spec fn yaw_frame_dz(d: DragDelta, f: YawFrame) -> int {
    fx_mul(-(d.x as int), f.sin as int) + fx_mul(d.y as int, f.cos as int)
}

/// The transform one gesture leaves, by button:
/// - primary translates in the ground plane by the rotated delta, scaled;
/// - secondary spins with the horizontal delta and adds the clamped scale
///   step — multiplication of the scale, exact in the logarithm;
/// - middle lifts against the vertical delta.
pub open spec fn gesture_result(
    t: InstanceTransform,
    button: DragButton,
    d: DragDelta,
    f: YawFrame,
) -> InstanceTransform {
    match button {
        DragButton::Primary => InstanceTransform {
            position: Vec3Fx {
                x: sat_add(
                    t.position.x as int,
                    fx_mul(yaw_frame_dx(d, f), TRANSLATE_RATE_X as int),
                ) as i64,
                y: t.position.y,
                z: sat_add(
                    t.position.z as int,
                    fx_mul(yaw_frame_dz(d, f), TRANSLATE_RATE_Z as int),
                ) as i64,
            },
            yaw: t.yaw,
            log_scale: t.log_scale,
        },
        DragButton::Secondary => InstanceTransform {
            position: t.position,
            yaw: sat_add(t.yaw as int, fx_mul(d.x as int, SPIN_RATE as int)) as i64,
            log_scale: sat_add(
                t.log_scale as int,
                min_of(fx_mul(-(d.y as int), SCALE_RATE as int), SCALE_STEP_MAX as int),
            ) as i64,
        },
        DragButton::Middle => InstanceTransform {
            position: Vec3Fx {
                x: t.position.x,
                y: sat_add(
                    t.position.y as int,
                    fx_mul(-(d.y as int), LIFT_RATE as int),
                ) as i64,
                z: t.position.z,
            },
            yaw: t.yaw,
            log_scale: t.log_scale,
        },
    }
}

/// Apply one gesture's delta to a transform, exactly once.
pub fn apply_gesture(t: &mut InstanceTransform, button: DragButton, d: DragDelta, f: YawFrame)
    requires
        delta_bounded(d),
        frame_bounded(f),
    ensures
        *final(t) == gesture_result(*old(t), button, d, f),
{
    proof {
        lemma_mul_bound(d.x as int, f.cos as int, DELTA_BOUND as int, FX_UNIT_BOUND as int);
        lemma_mul_bound(d.y as int, f.sin as int, DELTA_BOUND as int, FX_UNIT_BOUND as int);
        lemma_mul_bound(-(d.x as int), f.sin as int, DELTA_BOUND as int, FX_UNIT_BOUND as int);
        lemma_mul_bound(d.y as int, f.cos as int, DELTA_BOUND as int, FX_UNIT_BOUND as int);
    }
    match button {
        DragButton::Primary => {
            let dx = mul_fx(d.x, f.cos) + mul_fx(d.y, f.sin);
            let dz = mul_fx(-d.x, f.sin) + mul_fx(d.y, f.cos);
            t.position.x = add_sat(t.position.x, mul_fx(dx, TRANSLATE_RATE_X));
            t.position.z = add_sat(t.position.z, mul_fx(dz, TRANSLATE_RATE_Z));
        },
        DragButton::Secondary => {
            t.yaw = add_sat(t.yaw, mul_fx(d.x, SPIN_RATE));
            let step = min_i64(mul_fx(-d.y, SCALE_RATE), SCALE_STEP_MAX);
            t.log_scale = add_sat(t.log_scale, step);
        },
        DragButton::Middle => {
            t.position.y = add_sat(t.position.y, mul_fx(-d.y, LIFT_RATE));
        },
    }
}

/// The shared scene of spawned instances.
pub struct SceneStage {
    /// Spawned instances, in spawn order.
    pub instances: Vec<SceneInstance>,
    /// The identity the next spawned instance will take.
    pub next_entity: u64,
}

impl SceneStage {
    /// Well-formedness: instance identities are strictly increasing — every
    /// instance is addressable unambiguously, and the next identity is
    /// fresh.
    pub open spec fn wf(&self) -> bool {
        &&& forall|i: int, j: int|
            0 <= i < j < self.instances@.len() ==> #[trigger] self.instances@[i].entity
                < #[trigger] self.instances@[j].entity
        &&& forall|i: int|
            0 <= i < self.instances@.len() ==> #[trigger] self.instances@[i].entity
                < self.next_entity
    }

    /// Whether an instance with this identity is in the scene.
    pub open spec fn has_entity(&self, entity: u64) -> bool {
        exists|i: int|
            0 <= i < self.instances@.len() && #[trigger] self.instances@[i].entity == entity
    }

    /// The index of the instance with this identity.
    pub open spec fn index_of(&self, entity: u64) -> int {
        choose|i: int|
            0 <= i < self.instances@.len() && #[trigger] self.instances@[i].entity == entity
    }

    /// An empty scene.
    pub fn new() -> (s: SceneStage)
        ensures
            s.wf(),
            s.instances@.len() == 0,
            s.next_entity == 0,
    {
        SceneStage { instances: Vec::new(), next_entity: 0 }
    }

    /// Route one drag gesture to its target instance and apply it exactly
    /// once; every other instance is untouched. A gesture whose target is
    /// gone is discarded and reported as a warning.
    #[verifier::loop_isolation(false)]
    pub fn apply_drag(&mut self, gesture: DragGesture, f: YawFrame) -> (r: Result<
        (),
        GestureWarning,
    >)
        requires
            old(self).wf(),
            delta_bounded(gesture.delta),
            frame_bounded(f),
        ensures
            final(self).wf(),
            final(self).next_entity == old(self).next_entity,
            r is Err <==> !old(self).has_entity(gesture.entity),
            r is Err ==> final(self).instances@ == old(self).instances@,
            r is Ok ==> ({
                let i = old(self).index_of(gesture.entity);
                let inst = old(self).instances@[i];
                final(self).instances@ == old(self).instances@.update(
                    i,
                    (SceneInstance {
                        entity: inst.entity,
                        model_id: inst.model_id,
                        scene: inst.scene,
                        transform: gesture_result(inst.transform, gesture.button, gesture.delta, f),
                        manipulable: inst.manipulable,
                    }),
                )
            }),
    {
        let mut i: usize = 0;
        while i < self.instances.len()
            invariant
                i <= self.instances@.len(),
                self.instances@ == old(self).instances@,
                self.next_entity == old(self).next_entity,
                forall|k: int| 0 <= k < i ==> #[trigger] self.instances@[k].entity != gesture.entity,
            decreases self.instances@.len() - i,
        {
            if self.instances[i].entity == gesture.entity {
                let inst = self.instances[i];
                let mut transform = inst.transform;
                apply_gesture(&mut transform, gesture.button, gesture.delta, f);
                self.instances.set(
                    i,
                    SceneInstance {
                        entity: inst.entity,
                        model_id: inst.model_id,
                        scene: inst.scene,
                        transform,
                        manipulable: inst.manipulable,
                    },
                );
                proof {
                    let j = old(self).index_of(gesture.entity);
                    assert(old(self).instances@[i as int].entity == gesture.entity);
                    assert(0 <= j < old(self).instances@.len() && old(self).instances@[j].entity
                        == gesture.entity);
                    if j != i as int {
                        if j < i as int {
                            assert(old(self).instances@[j].entity != old(
                                self,
                            ).instances@[i as int].entity);
                        } else {
                            assert(old(self).instances@[i as int].entity != old(
                                self,
                            ).instances@[j].entity);
                        }
                    }
                    assert forall|a: int, b: int|
                        0 <= a < b < self.instances@.len() implies #[trigger] self.instances@[a].entity
                        < #[trigger] self.instances@[b].entity by {
                        assert(self.instances@[a].entity == old(self).instances@[a].entity);
                        assert(self.instances@[b].entity == old(self).instances@[b].entity);
                    }
                }
                return Ok(());
            }
            i = i + 1;
        }
        Err(GestureWarning::UnknownInstance)
    }
}

} // verus!
