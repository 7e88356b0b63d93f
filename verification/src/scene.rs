//! Scene composition: the camera, the two registries, and the drawn
//! entities in their registration order.  Entities form a closed set of
//! tagged variants behind one capability interface — advance one frame,
//! then draw — in place of dynamic dispatch: a per-frame update touches the
//! particle fields and nothing else, and the draw pass emits one submission
//! list that follows registration order exactly.

use vstd::prelude::*;

use crate::camera::Camera;
use crate::coords::{SphericalPoint3, Vec3Bits};
use crate::lights::Lights;
use crate::material::Materials;
use crate::mesh::{DrawCall, Mesh};
use crate::snow::{
    MAX_SNOWFLAKES, RotationWords, Snow, Snowflake, spec_snow_instance_words, spec_step_flake,
};

verus! {

/// One drawn entity: a mesh replicated for a fixed instance list, a group
/// of meshes each drawn once, or an animated particle field.
pub enum Model {
    StaticInstance { mesh: Mesh, count: usize },
    StaticMultiMesh { meshes: Vec<Mesh> },
    Particles { snow: Snow },
}

/// An entity's internal invariant: instance counts stay inside the
/// buffer's sizing, and a particle field is well-formed.
pub open spec fn spec_model_wf(m: Model) -> bool {
    match m {
        Model::StaticInstance { mesh, count } => {
            &&& mesh.wf()
            &&& count as int <= mesh.spec_max_instances()
        },
        Model::StaticMultiMesh { meshes: _ } => true,
        Model::Particles { snow } => snow.wf(),
    }
}

/// The draw submissions of one entity, in order.
pub open spec fn spec_model_draw_calls(m: Model) -> Seq<DrawCall> {
    match m {
        Model::StaticInstance { mesh, count } => seq![
            DrawCall {
                index_count: mesh.index_buffer().len() as usize,
                instance_count: count,
                instanced: true,
            },
        ],
        Model::StaticMultiMesh { meshes } => Seq::new(
            meshes@.len(),
            |i: int|
                DrawCall {
                    index_count: meshes@[i].index_buffer().len() as usize,
                    instance_count: 1,
                    instanced: false,
                },
        ),
        Model::Particles { snow } => seq![
            DrawCall {
                index_count: snow.spec_mesh().index_buffer().len() as usize,
                instance_count: MAX_SNOWFLAKES,
                instanced: true,
            },
        ],
    }
}

/// The draw submissions of the first `n` registered entities, in
/// registration order.
pub open spec fn spec_scene_draw_calls(models: Seq<Model>, n: int) -> Seq<DrawCall>
    decreases n,
{
    if n <= 0 {
        Seq::empty()
    } else {
        spec_scene_draw_calls(models, n - 1) + spec_model_draw_calls(models[n - 1])
    }
}

/// How one frame's update pass relates an entity to its successor: a
/// particle field advances every particle to its wrapped candidate state
/// and rewrites its instance buffer whole; every other entity is untouched.
pub open spec fn spec_model_stepped(
    pre: Model,
    post: Model,
    candidates: Seq<Snowflake>,
    rotations: Seq<RotationWords>,
) -> bool {
    match pre {
        Model::Particles { snow: s0 } => match post {
            Model::Particles { snow: s1 } => {
                &&& s1.wf()
                &&& s1.spec_material_word() == s0.spec_material_word()
                &&& s1.flakes().len() == MAX_SNOWFLAKES as int
                &&& forall|k: int|
                    0 <= k < MAX_SNOWFLAKES as int ==> s1.flakes()[k] == spec_step_flake(
                        candidates[k],
                    )
                &&& s1.spec_mesh().vertex_buffer() == s0.spec_mesh().vertex_buffer()
                &&& s1.spec_mesh().index_buffer() == s0.spec_mesh().index_buffer()
                &&& s1.spec_mesh().instance_buffer() == spec_snow_instance_words(
                    s1.flakes(),
                    rotations,
                    s0.spec_material_word(),
                    MAX_SNOWFLAKES as int,
                )
            },
            _ => false,
        },
        _ => post == pre,
    }
}

/// The scene: camera, registries, and the entities in registration order.
pub struct Scene {
    pub camera: Camera,
    pub lights: Lights,
    pub materials: Materials,
    pub models: Vec<Model>,
}

impl Scene {
    /// Every component holds its internal invariant.
    pub open spec fn wf(self) -> bool {
        &&& self.camera.wf()
        &&& self.lights.wf()
        &&& self.materials.wf()
        &&& forall|i: int| 0 <= i < self.models@.len() ==> spec_model_wf(#[trigger] self.models@[i])
    }

    /// A scene with a camera at the given orbit position, empty registries
    /// and no entities.  The surrounding renderer registers the lights,
    /// materials and entities in its fixed order.
    pub fn setup(camera_position: SphericalPoint3, look_at: Vec3Bits) -> (r: Scene)
        ensures
            r.wf(),
            r.camera.spec_position() == camera_position,
            r.camera.spec_look_at() == look_at,
            r.lights.records() == Seq::<crate::lights::Light>::empty(),
            r.materials.records() == Seq::<crate::material::Material>::empty(),
            r.models@.len() == 0,
            forall|j: int| 0 <= j < 144 ==> r.camera.block_bytes()[j] == 0u8,
            forall|j: int| 0 <= j < 272 ==> r.lights.block_bytes()[j] == 0u8,
            forall|j: int| 0 <= j < 4800 ==> r.materials.block_bytes()[j] == 0u8,
    {
        Scene {
            camera: Camera::new(camera_position, look_at),
            lights: Lights::setup(),
            materials: Materials::setup(),
            models: Vec::new(),
        }
    }

    /// Registers an entity at the end of the draw order and returns its
    /// position in that order.
    pub fn add_model(&mut self, m: Model) -> (handle: usize)
        requires
            old(self).wf(),
            spec_model_wf(m),
        ensures
            final(self).wf(),
            handle as int == old(self).models@.len(),
            final(self).models@ == old(self).models@.push(m),
            final(self).camera == old(self).camera,
            final(self).lights == old(self).lights,
            final(self).materials == old(self).materials,
    {
        let handle = self.models.len();
        self.models.push(m);
        handle
    }

    /// One frame's update pass over the entities in registration order:
    /// each particle field advances by the given candidate states and
    /// rotations, every other entity stays exactly as registered.
    pub fn next_frame(&mut self, candidates: &Vec<Snowflake>, rotations: &Vec<RotationWords>)
        requires
            old(self).wf(),
            candidates@.len() == MAX_SNOWFLAKES as int,
            rotations@.len() == MAX_SNOWFLAKES as int,
        ensures
            final(self).wf(),
            final(self).camera == old(self).camera,
            final(self).lights == old(self).lights,
            final(self).materials == old(self).materials,
            final(self).models@.len() == old(self).models@.len(),
            forall|i: int|
                0 <= i < old(self).models@.len() ==> spec_model_stepped(
                    old(self).models@[i],
                    #[trigger] final(self).models@[i],
                    candidates@,
                    rotations@,
                ),
    {
        let ghost pre_models = self.models@;
        let mut updated: Vec<Model> = Vec::new();
        while self.models.len() > 0
            invariant
                old(self).wf(),
                candidates@.len() == MAX_SNOWFLAKES as int,
                rotations@.len() == MAX_SNOWFLAKES as int,
                pre_models == old(self).models@,
                updated@.len() + self.models@.len() == pre_models.len(),
                self.models@ == pre_models.skip(updated@.len() as int),
                self.camera == old(self).camera,
                self.lights == old(self).lights,
                self.materials == old(self).materials,
                forall|k: int|
                    0 <= k < updated@.len() ==> spec_model_stepped(
                        pre_models[k],
                        #[trigger] updated@[k],
                        candidates@,
                        rotations@,
                    ),
                forall|k: int|
                    0 <= k < updated@.len() ==> spec_model_wf(#[trigger] updated@[k]),
            decreases self.models@.len(),
        {
            proof {
                assert(self.models@[0] == pre_models[updated@.len() as int]);
                assert(spec_model_wf(pre_models[updated@.len() as int]));
            }
            let m = self.models.remove(0);
            let stepped = match m {
                Model::Particles { snow } => {
                    let mut snow = snow;
                    snow.next_frame(candidates, rotations);
                    Model::Particles { snow }
                },
                other => other,
            };
            updated.push(stepped);
            proof {
                assert(self.models@ =~= pre_models.skip(updated@.len() as int));
            }
        }
        self.models = updated;
        proof {
            assert(forall|i: int|
                0 <= i < pre_models.len() ==> spec_model_stepped(
                    pre_models[i],
                    #[trigger] self.models@[i],
                    candidates@,
                    rotations@,
                ));
        }
    }

    /// The draw submissions of one entity, in order.
    fn model_draw_calls(m: &Model) -> (r: Vec<DrawCall>)
        requires
            spec_model_wf(*m),
        ensures
            r@ == spec_model_draw_calls(*m),
    {
        match m {
            Model::StaticInstance { mesh, count } => {
                let mut r: Vec<DrawCall> = Vec::new();
                r.push(mesh.draw_instances(*count));
                proof {
                    assert(r@ =~= spec_model_draw_calls(*m));
                }
                r
            },
            Model::StaticMultiMesh { meshes } => {
                let mut r: Vec<DrawCall> = Vec::new();
                let mut i: usize = 0;
                while i < meshes.len()
                    invariant
                        0 <= i <= meshes@.len(),
                        r@.len() == i as int,
                        forall|k: int|
                            0 <= k < i as int ==> r@[k] == (DrawCall {
                                index_count: meshes@[k].index_buffer().len() as usize,
                                instance_count: 1,
                                instanced: false,
                            }),
                    decreases meshes@.len() - i,
                {
                    r.push(meshes[i].draw_single());
                    i = i + 1;
                }
                proof {
                    assert(r@ =~= spec_model_draw_calls(*m));
                }
                r
            },
            Model::Particles { snow } => {
                let mut r: Vec<DrawCall> = Vec::new();
                r.push(snow.draw());
                proof {
                    assert(r@ =~= spec_model_draw_calls(*m));
                }
                r
            },
        }
    }

    /// The frame's draw submissions: every entity's calls, concatenated in
    /// registration order.
    pub fn draw(&self) -> (r: Vec<DrawCall>)
        requires
            self.wf(),
        ensures
            r@ == spec_scene_draw_calls(self.models@, self.models@.len() as int),
    {
        let mut r: Vec<DrawCall> = Vec::new();
        let mut i: usize = 0;
        proof {
            assert(r@ =~= spec_scene_draw_calls(self.models@, 0));
        }
        while i < self.models.len()
            invariant
                0 <= i <= self.models@.len(),
                self.wf(),
                r@ == spec_scene_draw_calls(self.models@, i as int),
            decreases self.models@.len() - i,
        {
            let mut calls = Self::model_draw_calls(&self.models[i]);
            let mut j: usize = 0;
            while j < calls.len()
                invariant
                    0 <= j <= calls@.len(),
                    r@ == spec_scene_draw_calls(self.models@, i as int) + calls@.take(j as int),
                decreases calls@.len() - j,
            {
                r.push(calls[j]);
                proof {
                    assert(r@ =~= spec_scene_draw_calls(self.models@, i as int)
                        + calls@.take(j as int + 1));
                }
                j = j + 1;
            }
            proof {
                assert(calls@.take(calls@.len() as int) =~= calls@);
                assert(r@ =~= spec_scene_draw_calls(self.models@, i as int + 1));
            }
            i = i + 1;
        }
        r
    }
}

} // verus!
