//! Spawning a model into the scene.
//!
//! A click on a list row places a fresh, manipulable instance of the model
//! in front of the camera: the camera position is pushed along its forward
//! direction by a fixed standoff scaled with the camera's height, the height
//! component is then zeroed so the instance sits on the ground, and the
//! orientation keeps only the camera's yaw — spawned instances are always
//! upright. A model whose visual content offers no scene at all cannot be
//! placed; that is a data-integrity failure of the asset and is reported,
//! never ignored.

use vstd::prelude::*;
use crate::fixed::{Vec3Fx, fx_mul, mul_fx, lemma_mul_bound, vec3_bounded, COORD_BOUND,
    FX_UNIT_BOUND};

verus! {

/// The standoff factor: the camera position is pushed along the forward
/// direction by one and a half times the camera height, in thousandths.
pub const STANDOFF: i64 = 1500;

/// What a model's visual content offers to instantiate: its default scene,
/// if it names one, and the full list of its scenes.
pub struct ModelVisual {
    pub default_scene: Option<u64>,
    pub scenes: Vec<u64>,
}

/// Spawning failures. A model without any scene cannot be represented in
/// the world; the asset itself is broken.
#[derive(Clone, Copy, Debug, PartialEq, Eq, Structural)]
pub enum SpawnError {
    MissingScene,
}

/// A manipulable transform: a position, a yaw-only orientation, and the
/// scale carried logarithmically — zero is unit scale, and the scale a drag
/// multiplies becomes an exact addition here.
#[derive(Clone, Copy, Debug, PartialEq, Eq, Structural)]
pub struct InstanceTransform {
    pub position: Vec3Fx,
    pub yaw: i64,
    pub log_scale: i64,
}

/// The camera state placement depends on: its position, its forward
/// direction (a unit vector), and its yaw.
#[derive(Clone, Copy, Debug, PartialEq, Eq, Structural)]
pub struct CameraPose {
    pub position: Vec3Fx,
    pub look: Vec3Fx,
    pub yaw: i64,
}

/// A camera pose the placement arithmetic accepts: position within the
/// world-coordinate bound and a forward vector of at most unit components.
pub open spec fn camera_bounded(c: CameraPose) -> bool {
    &&& vec3_bounded(c.position)
    &&& -FX_UNIT_BOUND <= c.look.x <= FX_UNIT_BOUND
    &&& -FX_UNIT_BOUND <= c.look.y <= FX_UNIT_BOUND
    &&& -FX_UNIT_BOUND <= c.look.z <= FX_UNIT_BOUND
}

/// A spawned, manipulable copy of a model's visual content.
#[derive(Clone, Copy, Debug, PartialEq, Eq, Structural)]
pub struct SceneInstance {
    /// Identity of this instance in the scene.
    pub entity: u64,
    /// The model it instantiates.
    pub model_id: u64,
    /// The scene of the model that was instantiated.
    pub scene: u64,
    pub transform: InstanceTransform,
    /// Whether drag gestures may edit this instance.
    pub manipulable: bool,
}

/// The scene a spawn instantiates: the model's default scene, or failing
/// that its first scene; nothing when the model has no scene at all.
pub open spec fn chosen_scene(v: &ModelVisual) -> Option<u64> {
    if v.default_scene is Some {
        v.default_scene
    } else if v.scenes@.len() > 0 {
        Some(v.scenes@[0])
    } else {
        None
    }
}

/// One ground-plane component of the spawn position: the camera component
/// pushed back along the forward component scaled by the camera height and
/// the standoff factor.
pub open spec fn grounded(position: int, height: int, look: int) -> int {
    position - fx_mul(fx_mul(height, look), STANDOFF as int)
}

/// Compute the placement of a fresh instance of a model, upright on the
/// ground plane in front of the camera, at unit scale, ready for
/// manipulation. Fails exactly when the model's visual content has no scene
/// to instantiate.
pub fn spawn_instance(model_id: u64, entity: u64, visual: &ModelVisual, camera: &CameraPose) -> (r:
    Result<SceneInstance, SpawnError>)
    requires
        camera_bounded(*camera),
    ensures
        r is Err <==> chosen_scene(visual) is None,
        r matches Ok(inst) ==> {
            &&& inst.entity == entity
            &&& inst.model_id == model_id
            &&& Some(inst.scene) == chosen_scene(visual)
            &&& inst.transform.position.x == grounded(
                camera.position.x as int,
                camera.position.y as int,
                camera.look.x as int,
            )
            &&& inst.transform.position.y == 0
            &&& inst.transform.position.z == grounded(
                camera.position.z as int,
                camera.position.y as int,
                camera.look.z as int,
            )
            &&& inst.transform.yaw == camera.yaw
            &&& inst.transform.log_scale == 0
            &&& inst.manipulable
        },
{
    let scene: u64 = match visual.default_scene {
        Some(s) => s,
        None => {
            if visual.scenes.len() > 0 {
                visual.scenes[0]
            } else {
                return Err(SpawnError::MissingScene);
            }
        },
    };
    proof {
        lemma_mul_bound(
            camera.position.y as int,
            camera.look.x as int,
            COORD_BOUND as int,
            FX_UNIT_BOUND as int,
        );
        lemma_mul_bound(
            camera.position.y as int,
            camera.look.z as int,
            COORD_BOUND as int,
            FX_UNIT_BOUND as int,
        );
    }
    let along_x = mul_fx(camera.position.y, camera.look.x);
    let along_z = mul_fx(camera.position.y, camera.look.z);
    let push_x = mul_fx(along_x, STANDOFF);
    let push_z = mul_fx(along_z, STANDOFF);
    let position = Vec3Fx {
        x: camera.position.x - push_x,
        y: 0,
        z: camera.position.z - push_z,
    };
    Ok(
        SceneInstance {
            entity,
            model_id,
            scene,
            transform: InstanceTransform { position, yaw: camera.yaw, log_scale: 0 },
            manipulable: true,
        },
    )
}

} // verus!
