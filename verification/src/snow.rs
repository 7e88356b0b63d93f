//! Particle field: a fixed population of snowflakes, each an independent
//! position and rotation, advanced once per frame.  The renderer draws the
//! per-axis random offsets and performs the float additions (jitter, fall
//! speed, rotation deltas); it hands the summed candidate states here.
//! This module owns the wraparound rule — a particle fallen below the lower
//! vertical bound is lifted to the upper bound, keeping its horizontal
//! position and rotation — and the assembly of the per-instance words that
//! are rewritten into the mesh's instance buffer every frame.

use vstd::prelude::*;

use crate::coords::Vec3Bits;
use crate::mesh::{DrawCall, Mesh};
use crate::model::{Instance, spec_instances_words};

verus! {

/// Bit pattern of the lower vertical bound of the field (the 32-bit float
/// value minus five).
pub const SNOW_Y_MIN_BITS: u32 = 0xC0A0_0000;

/// Bit pattern of the upper vertical bound of the field (the 32-bit float
/// value ten), where a wrapped particle reappears.
pub const SNOW_Y_MAX_BITS: u32 = 0x4120_0000;

/// Bit pattern of the 32-bit float value one, the homogeneous coordinate of
/// a translation column.
pub const ONE_BITS: u32 = 0x3F80_0000;

/// The fixed particle population, chosen once at setup.
pub const MAX_SNOWFLAKES: usize = 5000;

/// The sign bit of a 32-bit float pattern.
pub open spec fn spec_f32_sign(b: u32) -> bool {
    b >= 0x8000_0000
}

/// The magnitude bits (exponent and mantissa) of a 32-bit float pattern:
/// everything below the sign bit.
pub open spec fn spec_f32_mag(b: u32) -> int {
    b as int % 0x8000_0000
}

/// The pattern encodes a NaN: exponent all ones and mantissa nonzero.
pub open spec fn spec_f32_is_nan(b: u32) -> bool {
    spec_f32_mag(b) > 0x7F80_0000
}

/// The IEEE `<` order on two 32-bit float patterns: false when either is
/// NaN, negative zero equal to positive zero, otherwise decided by sign and
/// then by magnitude.
pub open spec fn spec_f32_bits_lt(a: u32, b: u32) -> bool {
    if spec_f32_is_nan(a) || spec_f32_is_nan(b) {
        false
    } else if spec_f32_sign(a) && spec_f32_sign(b) {
        spec_f32_mag(a) > spec_f32_mag(b)
    } else if spec_f32_sign(a) && !spec_f32_sign(b) {
        !(spec_f32_mag(a) == 0 && spec_f32_mag(b) == 0)
    } else if !spec_f32_sign(a) && spec_f32_sign(b) {
        false
    } else {
        spec_f32_mag(a) < spec_f32_mag(b)
    }
}

/// The IEEE `<` order on two 32-bit float patterns.
pub fn f32_bits_lt(a: u32, b: u32) -> (r: bool)
    ensures
        r == spec_f32_bits_lt(a, b),
{
    let mag_a = a % 0x8000_0000;
    let mag_b = b % 0x8000_0000;
    if mag_a > 0x7F80_0000 || mag_b > 0x7F80_0000 {
        false
    } else if a >= 0x8000_0000 && b >= 0x8000_0000 {
        mag_a > mag_b
    } else if a >= 0x8000_0000 {
        !(mag_a == 0 && mag_b == 0)
    } else if b >= 0x8000_0000 {
        false
    } else {
        mag_a < mag_b
    }
}

/// One particle: a position and a rotation of three independent angles, one
/// 32-bit word per component.
#[derive(Clone, Copy, PartialEq, Eq, Structural, Debug)]
pub struct Snowflake {
    pub position: Vec3Bits,
    pub rotation: Vec3Bits,
}

/// One particle after the wraparound rule: a candidate fallen below the
/// lower vertical bound reappears at the upper bound with its horizontal
/// position and rotation kept; any other candidate is kept whole.
pub open spec fn spec_step_flake(candidate: Snowflake) -> Snowflake {
    if spec_f32_bits_lt(candidate.position.y, SNOW_Y_MIN_BITS) {
        Snowflake {
            position: Vec3Bits {
                x: candidate.position.x,
                y: SNOW_Y_MAX_BITS,
                z: candidate.position.z,
            },
            rotation: candidate.rotation,
        }
    } else {
        candidate
    }
}

/// Wraparound changes the vertical coordinate only: a wrapped particle
/// stands at the upper bound with its horizontal position and rotation
/// exactly as the candidate carried them.
pub proof fn lemma_wrap_preserves_lateral_state(candidate: Snowflake)
    requires
        spec_f32_bits_lt(candidate.position.y, SNOW_Y_MIN_BITS),
    ensures
        spec_step_flake(candidate).position.y == SNOW_Y_MAX_BITS,
        spec_step_flake(candidate).position.x == candidate.position.x,
        spec_step_flake(candidate).position.z == candidate.position.z,
        spec_step_flake(candidate).rotation == candidate.rotation,
{
}

/// The nine words of the rotation matrix the renderer derives from a
/// particle's Euler angles: three columns of three components.
#[derive(Clone, Copy, PartialEq, Eq, Structural, Debug)]
pub struct RotationWords {
    pub col0: Vec3Bits,
    pub col1: Vec3Bits,
    pub col2: Vec3Bits,
}

/// The seventeen instance words of one particle: translation composed with
/// rotation — the rotation columns with zero fourth components, the
/// particle position as the translation column with unit fourth component —
/// then the shared material handle word.
pub open spec fn spec_flake_instance_words(
    flake: Snowflake,
    rot: RotationWords,
    material_word: u32,
) -> Seq<u32> {
    seq![
        rot.col0.x, rot.col0.y, rot.col0.z, 0u32,
        rot.col1.x, rot.col1.y, rot.col1.z, 0u32,
        rot.col2.x, rot.col2.y, rot.col2.z, 0u32,
        flake.position.x, flake.position.y, flake.position.z, ONE_BITS,
        material_word,
    ]
}

/// The instance-buffer words of the first `n` particles.
pub open spec fn spec_snow_instance_words(
    flakes: Seq<Snowflake>,
    rots: Seq<RotationWords>,
    material_word: u32,
    n: int,
) -> Seq<u32>
    decreases n,
{
    if n <= 0 {
        Seq::empty()
    } else {
        spec_snow_instance_words(flakes, rots, material_word, n - 1)
            + spec_flake_instance_words(flakes[n - 1], rots[n - 1], material_word)
    }
}

/// The particles' instance-buffer words hold seventeen words per particle.
pub proof fn lemma_snow_instance_words_len(
    flakes: Seq<Snowflake>,
    rots: Seq<RotationWords>,
    material_word: u32,
    n: int,
)
    requires
        0 <= n,
    ensures
        spec_snow_instance_words(flakes, rots, material_word, n).len() == 17 * n,
    decreases n,
{
    if n > 0 {
        lemma_snow_instance_words_len(flakes, rots, material_word, n - 1);
    }
}

/// An instance list whose per-instance words match the particles' images
/// flattens to the particles' instance-buffer words.
pub proof fn lemma_snow_instance_words_agree(
    instances: Seq<Instance>,
    flakes: Seq<Snowflake>,
    rots: Seq<RotationWords>,
    material_word: u32,
    n: int,
)
    requires
        0 <= n,
        instances.len() == n,
        forall|i: int|
            0 <= i < n ==> instances[i].words() == spec_flake_instance_words(
                flakes[i],
                rots[i],
                material_word,
            ),
    ensures
        spec_instances_words(instances) == spec_snow_instance_words(flakes, rots, material_word, n),
    decreases n,
{
    if n > 0 {
        lemma_snow_instance_words_agree(instances.drop_last(), flakes, rots, material_word, n - 1);
    }
}

/// The particle field: its mesh, its population and the shared
/// float-encoded material handle word its instances carry.
pub struct Snow {
    mesh: Mesh,
    snowflakes: Vec<Snowflake>,
    material_id: u32,
}

impl Snow {
    /// The particle states.
    pub closed spec fn flakes(self) -> Seq<Snowflake> {
        self.snowflakes@
    }

    /// The snowflake mesh.
    pub closed spec fn spec_mesh(self) -> Mesh {
        self.mesh
    }

    /// The shared float-encoded material handle word.
    pub closed spec fn spec_material_word(self) -> u32 {
        self.material_id
    }

    /// The population is fixed and the mesh's instance buffer was sized
    /// for exactly that population.
    pub open spec fn wf(self) -> bool {
        &&& self.spec_mesh().wf()
        &&& self.flakes().len() == MAX_SNOWFLAKES as int
        &&& self.spec_mesh().spec_max_instances() == MAX_SNOWFLAKES as int
    }

    /// A particle field over the given initial states — drawn once at setup
    /// by the renderer — and a mesh sized for the population.
    pub fn new(mesh: Mesh, snowflakes: Vec<Snowflake>, material_id: u32) -> (r: Snow)
        requires
            mesh.wf(),
            snowflakes@.len() == MAX_SNOWFLAKES as int,
            mesh.spec_max_instances() == MAX_SNOWFLAKES as int,
        ensures
            r.wf(),
            r.flakes() == snowflakes@,
            r.spec_mesh() == mesh,
            r.spec_material_word() == material_id,
    {
        Snow { mesh, snowflakes, material_id }
    }

    /// The particle states, for the renderer's per-frame derivations.
    pub fn snowflakes(&self) -> (r: &Vec<Snowflake>)
        ensures
            r@ == self.flakes(),
    {
        &self.snowflakes
    }

    /// The mesh, for mirroring its buffers into GPU memory.
    pub fn mesh(&self) -> (r: &Mesh)
        ensures
            *r == self.spec_mesh(),
    {
        &self.mesh
    }

    /// Advances every particle to its candidate next state, applying the
    /// wraparound rule to each: exactly the candidates fallen below the
    /// lower vertical bound are lifted to the upper bound, all other state
    /// is taken from the candidates unchanged.
    pub fn move_snowflakes(&mut self, candidates: &Vec<Snowflake>)
        requires
            old(self).wf(),
            candidates@.len() == MAX_SNOWFLAKES as int,
        ensures
            final(self).wf(),
            final(self).spec_mesh() == old(self).spec_mesh(),
            final(self).spec_material_word() == old(self).spec_material_word(),
            final(self).flakes().len() == MAX_SNOWFLAKES as int,
            forall|i: int|
                0 <= i < MAX_SNOWFLAKES as int ==> final(self).flakes()[i] == spec_step_flake(
                    candidates@[i],
                ),
    {
        let mut i: usize = 0;
        while i < MAX_SNOWFLAKES
            invariant
                0 <= i <= MAX_SNOWFLAKES,
                candidates@.len() == MAX_SNOWFLAKES as int,
                self.snowflakes@.len() == MAX_SNOWFLAKES as int,
                self.mesh == old(self).spec_mesh(),
                self.material_id == old(self).spec_material_word(),
                forall|k: int|
                    0 <= k < i as int ==> self.snowflakes@[k] == spec_step_flake(candidates@[k]),
                forall|k: int|
                    i as int <= k < MAX_SNOWFLAKES as int ==> self.snowflakes@[k] == old(
                        self,
                    ).flakes()[k],
            decreases MAX_SNOWFLAKES - i,
        {
            let c = candidates[i];
            let stepped = if f32_bits_lt(c.position.y, SNOW_Y_MIN_BITS) {
                Snowflake {
                    position: Vec3Bits { x: c.position.x, y: SNOW_Y_MAX_BITS, z: c.position.z },
                    rotation: c.rotation,
                }
            } else {
                c
            };
            self.snowflakes.set(i, stepped);
            i = i + 1;
        }
    }

    /// The per-instance data of the whole population: one instance per
    /// particle, its matrix assembled from the renderer-derived rotation
    /// and the particle's position, all sharing the material handle word.
    pub fn gen_instances(&self, rotations: &Vec<RotationWords>) -> (r: Vec<Instance>)
        requires
            self.wf(),
            rotations@.len() == MAX_SNOWFLAKES as int,
        ensures
            r@.len() == MAX_SNOWFLAKES as int,
            forall|i: int| 0 <= i < MAX_SNOWFLAKES as int ==> r@[i].wf(),
            forall|i: int|
                0 <= i < MAX_SNOWFLAKES as int ==> r@[i].words() == spec_flake_instance_words(
                    self.flakes()[i],
                    rotations@[i],
                    self.spec_material_word(),
                ),
    {
        let mut r: Vec<Instance> = Vec::new();
        let mut i: usize = 0;
        while i < MAX_SNOWFLAKES
            invariant
                0 <= i <= MAX_SNOWFLAKES,
                self.wf(),
                rotations@.len() == MAX_SNOWFLAKES as int,
                r@.len() == i as int,
                forall|k: int| 0 <= k < i as int ==> r@[k].wf(),
                forall|k: int|
                    0 <= k < i as int ==> r@[k].words() == spec_flake_instance_words(
                        self.flakes()[k],
                        rotations@[k],
                        self.spec_material_word(),
                    ),
            decreases MAX_SNOWFLAKES - i,
        {
            let flake = self.snowflakes[i];
            let rot = rotations[i];
            let mut model: Vec<u32> = Vec::new();
            model.push(rot.col0.x);
            model.push(rot.col0.y);
            model.push(rot.col0.z);
            model.push(0u32);
            model.push(rot.col1.x);
            model.push(rot.col1.y);
            model.push(rot.col1.z);
            model.push(0u32);
            model.push(rot.col2.x);
            model.push(rot.col2.y);
            model.push(rot.col2.z);
            model.push(0u32);
            model.push(flake.position.x);
            model.push(flake.position.y);
            model.push(flake.position.z);
            model.push(ONE_BITS);
            let instance = Instance { model, material_id: self.material_id };
            proof {
                assert(instance.words() =~= spec_flake_instance_words(
                    self.flakes()[i as int],
                    rotations@[i as int],
                    self.spec_material_word(),
                ));
            }
            r.push(instance);
            i = i + 1;
        }
        r
    }

    /// One frame of the particle field: every particle advances to its
    /// wrapped candidate state, and the mesh's instance buffer is rewritten
    /// whole with the population's new instance words.
    pub fn next_frame(&mut self, candidates: &Vec<Snowflake>, rotations: &Vec<RotationWords>)
        requires
            old(self).wf(),
            candidates@.len() == MAX_SNOWFLAKES as int,
            rotations@.len() == MAX_SNOWFLAKES as int,
        ensures
            final(self).wf(),
            final(self).spec_material_word() == old(self).spec_material_word(),
            final(self).flakes().len() == MAX_SNOWFLAKES as int,
            forall|i: int|
                0 <= i < MAX_SNOWFLAKES as int ==> final(self).flakes()[i] == spec_step_flake(
                    candidates@[i],
                ),
            final(self).spec_mesh().vertex_buffer() == old(self).spec_mesh().vertex_buffer(),
            final(self).spec_mesh().index_buffer() == old(self).spec_mesh().index_buffer(),
            final(self).spec_mesh().instance_buffer() == spec_snow_instance_words(
                final(self).flakes(),
                rotations@,
                old(self).spec_material_word(),
                MAX_SNOWFLAKES as int,
            ),
            final(self).spec_mesh().instance_buffer().len() == 17 * MAX_SNOWFLAKES as int,
    {
        self.move_snowflakes(candidates);
        let instances = self.gen_instances(rotations);
        proof {
            lemma_snow_instance_words_agree(
                instances@,
                self.flakes(),
                rotations@,
                self.spec_material_word(),
                MAX_SNOWFLAKES as int,
            );
            lemma_snow_instance_words_len(
                self.flakes(),
                rotations@,
                self.spec_material_word(),
                MAX_SNOWFLAKES as int,
            );
        }
        self.mesh.fill_instances_vbo(&instances);
    }

    /// Rewrites the mesh's instance buffer whole from the current particle
    /// states, without advancing them: the setup-time upload, before the
    /// first frame.
    pub fn refresh_instances(&mut self, rotations: &Vec<RotationWords>)
        requires
            old(self).wf(),
            rotations@.len() == MAX_SNOWFLAKES as int,
        ensures
            final(self).wf(),
            final(self).flakes() == old(self).flakes(),
            final(self).spec_material_word() == old(self).spec_material_word(),
            final(self).spec_mesh().vertex_buffer() == old(self).spec_mesh().vertex_buffer(),
            final(self).spec_mesh().index_buffer() == old(self).spec_mesh().index_buffer(),
            final(self).spec_mesh().instance_buffer() == spec_snow_instance_words(
                old(self).flakes(),
                rotations@,
                old(self).spec_material_word(),
                MAX_SNOWFLAKES as int,
            ),
            final(self).spec_mesh().instance_buffer().len() == 17 * MAX_SNOWFLAKES as int,
    {
        let instances = self.gen_instances(rotations);
        proof {
            lemma_snow_instance_words_agree(
                instances@,
                self.flakes(),
                rotations@,
                self.spec_material_word(),
                MAX_SNOWFLAKES as int,
            );
            lemma_snow_instance_words_len(
                self.flakes(),
                rotations@,
                self.spec_material_word(),
                MAX_SNOWFLAKES as int,
            );
        }
        self.mesh.fill_instances_vbo(&instances);
    }

    /// The field's draw submission: one instanced draw of the whole
    /// population.
    pub fn draw(&self) -> (r: DrawCall)
        requires
            self.wf(),
        ensures
            r.index_count as int == self.spec_mesh().index_buffer().len(),
            r.instance_count == MAX_SNOWFLAKES,
            r.instanced,
    {
        self.mesh.draw_instances(MAX_SNOWFLAKES)
    }
}

/// The snowflake mesh's index list: four triangles pairing opposite
/// vertices of the two hexagon sides.
pub fn snowflake_indices() -> (r: Vec<u32>)
    ensures
        r@ == seq![8u32, 4u32, 0u32, 10u32, 6u32, 2u32, 1u32, 5u32, 9u32, 3u32, 7u32, 11u32],
{
    let mut r: Vec<u32> = Vec::new();
    r.push(8);
    r.push(4);
    r.push(0);
    r.push(10);
    r.push(6);
    r.push(2);
    r.push(1);
    r.push(5);
    r.push(9);
    r.push(3);
    r.push(7);
    r.push(11);
    proof {
        assert(r@ =~= seq![8u32, 4u32, 0u32, 10u32, 6u32, 2u32, 1u32, 5u32, 9u32, 3u32, 7u32, 11u32]);
    }
    r
}

} // verus!
