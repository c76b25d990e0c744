use vstd::prelude::*;

verus! {

pub const MAX_MATERIALS: usize = 64;

pub const MAX_SPHERES: usize = 64;

pub const MAX_MESHES: usize = 64;

pub const MAX_VERTICES: usize = 4096;

pub const MAX_INDICES: usize = 16384;

/// 32-bit words in one material record.
pub const MATERIAL_WORDS: usize = 12;

/// 32-bit words in one sphere record.
pub const SPHERE_WORDS: usize = 8;

/// 32-bit words in the scene record: the material and sphere arrays at full
/// capacity, then the sphere count.
pub const SCENE_WORDS: usize = 1281;

/// Material tags as the kernel reads them.
pub const LAMBERTIAN_TAG: u32 = 0;

pub const METAL_TAG: u32 = 1;

pub const DIELECTRIC_TAG: u32 = 2;

pub const EMISSIVE_TAG: u32 = 3;

/// Three 32-bit floats, each held as its IEEE-754 bit pattern: the scene
/// records carry them to the kernel bit for bit.
#[derive(Clone, Copy, Debug, PartialEq, Eq, Structural)]
pub struct Vec3Bits {
    pub x: u32,
    pub y: u32,
    pub z: u32,
}

/// The kernel's material record: the tag four times, the color, then the
/// fuzz, the emission and the index of refraction three times.
#[derive(Clone, Copy, Debug, PartialEq, Eq, Structural)]
pub struct MaterialRaw {
    pub material_type: u32,
    pub color: Vec3Bits,
    pub fuzz: u32,
    pub emission: u32,
    pub ior: u32,
}

impl MaterialRaw {
    /// The record with every word zero, which fills unused slots.
    pub open spec fn zeroed() -> MaterialRaw {
        MaterialRaw {
            material_type: 0,
            color: Vec3Bits { x: 0, y: 0, z: 0 },
            fuzz: 0,
            emission: 0,
            ior: 0,
        }
    }

    pub open spec fn words(self) -> Seq<u32> {
        seq![
            self.material_type,
            self.material_type,
            self.material_type,
            self.material_type,
            self.color.x,
            self.color.y,
            self.color.z,
            self.fuzz,
            self.emission,
            self.ior,
            self.ior,
            self.ior,
        ]
    }

    pub fn empty() -> (r: MaterialRaw)
        ensures
            r == MaterialRaw::zeroed(),
    {
        MaterialRaw {
            material_type: 0,
            color: Vec3Bits { x: 0, y: 0, z: 0 },
            fuzz: 0,
            emission: 0,
            ior: 0,
        }
    }

    /// Appends the record's words to `out`.
    pub fn write_words(&self, out: &mut Vec<u32>)
        ensures
            final(out)@ == old(out)@ + self.words(),
    {
        let t = self.material_type;
        out.push(t);
        out.push(t);
        out.push(t);
        out.push(t);
        out.push(self.color.x);
        out.push(self.color.y);
        out.push(self.color.z);
        out.push(self.fuzz);
        out.push(self.emission);
        out.push(self.ior);
        out.push(self.ior);
        out.push(self.ior);
        assert(out@ =~= old(out)@ + self.words());
    }
}

/// A diffuse material.
#[derive(Clone, Copy, Debug, PartialEq, Eq, Structural)]
pub struct Lambertian {
    pub color: Vec3Bits,
}

impl Lambertian {
    pub fn to_raw(&self) -> (r: MaterialRaw)
        ensures
            r == (MaterialRaw {
                material_type: LAMBERTIAN_TAG,
                color: self.color,
                fuzz: 0,
                emission: 0,
                ior: 0,
            }),
    {
        MaterialRaw { material_type: LAMBERTIAN_TAG, color: self.color, fuzz: 0, emission: 0, ior: 0 }
    }
}

/// A reflective material; `fuzz` blurs its reflections.
#[derive(Clone, Copy, Debug, PartialEq, Eq, Structural)]
pub struct Metal {
    pub color: Vec3Bits,
    pub fuzz: u32,
}

impl Metal {
    pub fn to_raw(&self) -> (r: MaterialRaw)
        ensures
            r == (MaterialRaw {
                material_type: METAL_TAG,
                color: self.color,
                fuzz: self.fuzz,
                emission: 0,
                ior: 0,
            }),
    {
        MaterialRaw {
            material_type: METAL_TAG,
            color: self.color,
            fuzz: self.fuzz,
            emission: 0,
            ior: 0,
        }
    }
}

/// A refractive material with index of refraction `ior`.
#[derive(Clone, Copy, Debug, PartialEq, Eq, Structural)]
pub struct Dielectric {
    pub color: Vec3Bits,
    pub ior: u32,
}

impl Dielectric {
    pub fn to_raw(&self) -> (r: MaterialRaw)
        ensures
            r == (MaterialRaw {
                material_type: DIELECTRIC_TAG,
                color: self.color,
                fuzz: 0,
                emission: 0,
                ior: self.ior,
            }),
    {
        MaterialRaw {
            material_type: DIELECTRIC_TAG,
            color: self.color,
            fuzz: 0,
            emission: 0,
            ior: self.ior,
        }
    }
}

/// A light source emitting its color scaled by `intensity`.
#[derive(Clone, Copy, Debug, PartialEq, Eq, Structural)]
pub struct Emmisive {
    pub color: Vec3Bits,
    pub intensity: u32,
}

impl Emmisive {
    pub fn to_raw(&self) -> (r: MaterialRaw)
        ensures
            r == (MaterialRaw {
                material_type: EMISSIVE_TAG,
                color: self.color,
                fuzz: 0,
                emission: self.intensity,
                ior: 0,
            }),
    {
        MaterialRaw {
            material_type: EMISSIVE_TAG,
            color: self.color,
            fuzz: 0,
            emission: self.intensity,
            ior: 0,
        }
    }
}

#[derive(Clone, Copy, Debug, PartialEq, Eq, Structural)]
pub enum Material {
    Lambertian(Lambertian),
    Dielectric(Dielectric),
    Metal(Metal),
    Emmisive(Emmisive),
}

impl Material {
    pub open spec fn raw(self) -> MaterialRaw {
        match self {
            Material::Lambertian(m) => MaterialRaw {
                material_type: LAMBERTIAN_TAG,
                color: m.color,
                fuzz: 0,
                emission: 0,
                ior: 0,
            },
            Material::Metal(m) => MaterialRaw {
                material_type: METAL_TAG,
                color: m.color,
                fuzz: m.fuzz,
                emission: 0,
                ior: 0,
            },
            Material::Dielectric(m) => MaterialRaw {
                material_type: DIELECTRIC_TAG,
                color: m.color,
                fuzz: 0,
                emission: 0,
                ior: m.ior,
            },
            Material::Emmisive(m) => MaterialRaw {
                material_type: EMISSIVE_TAG,
                color: m.color,
                fuzz: 0,
                emission: m.intensity,
                ior: 0,
            },
        }
    }

    /// The variant's record.
    pub fn to_raw(&self) -> (r: MaterialRaw)
        ensures
            r == self.raw(),
    {
        match self {
            Material::Lambertian(m) => m.to_raw(),
            Material::Metal(m) => m.to_raw(),
            Material::Dielectric(m) => m.to_raw(),
            Material::Emmisive(m) => m.to_raw(),
        }
    }
}

/// A sphere: center, radius and the index of its material.
#[derive(Clone, Copy, Debug, PartialEq, Eq, Structural)]
pub struct Sphere {
    pub position: Vec3Bits,
    pub radius: u32,
    pub material: u32,
}

impl Sphere {
    pub fn new(position: Vec3Bits, radius: u32, material: u32) -> (r: Sphere)
        ensures
            r == (Sphere { position, radius, material }),
    {
        Sphere { position, radius, material }
    }

    pub open spec fn zeroed() -> Sphere {
        Sphere { position: Vec3Bits { x: 0, y: 0, z: 0 }, radius: 0, material: 0 }
    }

    /// The center, the radius, then the material index four times.
    pub open spec fn words(self) -> Seq<u32> {
        seq![
            self.position.x,
            self.position.y,
            self.position.z,
            self.radius,
            self.material,
            self.material,
            self.material,
            self.material,
        ]
    }

    pub fn empty() -> (r: Sphere)
        ensures
            r == Sphere::zeroed(),
    {
        Sphere { position: Vec3Bits { x: 0, y: 0, z: 0 }, radius: 0, material: 0 }
    }

    /// Appends the record's words to `out`.
    pub fn write_words(&self, out: &mut Vec<u32>)
        ensures
            final(out)@ == old(out)@ + self.words(),
    {
        out.push(self.position.x);
        out.push(self.position.y);
        out.push(self.position.z);
        out.push(self.radius);
        out.push(self.material);
        out.push(self.material);
        out.push(self.material);
        out.push(self.material);
        assert(out@ =~= old(out)@ + self.words());
    }
}

/// A mesh vertex: position and normal, each padded with a zero fourth word.
#[derive(Clone, Copy, Debug, PartialEq, Eq, Structural)]
pub struct Vertex {
    pub position: Vec3Bits,
    pub position_w: u32,
    pub normal: Vec3Bits,
    pub normal_w: u32,
}

impl Vertex {
    pub fn new(position: Vec3Bits, normal: Vec3Bits) -> (r: Vertex)
        ensures
            r == (Vertex { position, position_w: 0, normal, normal_w: 0 }),
    {
        Vertex { position, position_w: 0, normal, normal_w: 0 }
    }

    /// A vertex from its two four-word records as they stand.
    pub fn from_raw(position: [u32; 4], normal: [u32; 4]) -> (r: Vertex)
        ensures
            r.position == (Vec3Bits { x: position[0], y: position[1], z: position[2] }),
            r.position_w == position[3],
            r.normal == (Vec3Bits { x: normal[0], y: normal[1], z: normal[2] }),
            r.normal_w == normal[3],
    {
        Vertex {
            position: Vec3Bits { x: position[0], y: position[1], z: position[2] },
            position_w: position[3],
            normal: Vec3Bits { x: normal[0], y: normal[1], z: normal[2] },
            normal_w: normal[3],
        }
    }
}

/// A range of the index array drawn with one material.
#[derive(Clone, Copy, Debug, PartialEq, Eq, Structural)]
pub struct Mesh {
    pub vertex_count: u32,
    pub index_count: u32,
    pub first_index: u32,
    pub material_index: u32,
}

impl Mesh {
    pub fn new(vertex_count: u32, index_count: u32, first_index: u32, material_index: u32) -> (r:
        Mesh)
        ensures
            r == (Mesh { vertex_count, index_count, first_index, material_index }),
    {
        Mesh { vertex_count, index_count, first_index, material_index }
    }
}

/// Why a scene was refused.
#[derive(Clone, Copy, Debug, PartialEq, Eq, Structural)]
pub enum SceneError {
    TooManyMaterials,
    TooManySpheres,
    TooManyVertices,
    TooManyIndices,
    TooManyMeshes,
    /// This sphere names a material slot that the scene does not fill.
    InvalidMaterialIndex { sphere: usize },
}

/// A scene as mathematics: the material records and the geometry.
pub struct SceneModel {
    pub materials: Seq<MaterialRaw>,
    pub spheres: Seq<Sphere>,
    pub vertices: Seq<Vertex>,
    pub indices: Seq<u32>,
    pub meshes: Seq<Mesh>,
}

impl SceneModel {
    /// Every array within its capacity, and every sphere's material index
    /// names one of the scene's materials.
    pub open spec fn wf(self) -> bool {
        &&& self.materials.len() <= MAX_MATERIALS
        &&& self.spheres.len() <= MAX_SPHERES
        &&& self.vertices.len() <= MAX_VERTICES
        &&& self.indices.len() <= MAX_INDICES
        &&& self.meshes.len() <= MAX_MESHES
        &&& forall|i: int|
            0 <= i < self.spheres.len() ==> self.spheres[i].material < self.materials.len()
    }
}

/// The scene that the given lists make: each material by its record.
pub open spec fn scene_of(
    materials: Seq<Material>,
    spheres: Seq<Sphere>,
    vertices: Seq<Vertex>,
    indices: Seq<u32>,
    meshes: Seq<Mesh>,
) -> SceneModel {
    SceneModel {
        materials: materials.map_values(|m: Material| m.raw()),
        spheres,
        vertices,
        indices,
        meshes,
    }
}

pub open spec fn material_slot(ms: Seq<MaterialRaw>, i: int) -> MaterialRaw {
    if 0 <= i < ms.len() {
        ms[i]
    } else {
        MaterialRaw::zeroed()
    }
}

pub open spec fn sphere_slot(ss: Seq<Sphere>, i: int) -> Sphere {
    if 0 <= i < ss.len() {
        ss[i]
    } else {
        Sphere::zeroed()
    }
}

/// The words of the first `n` slots of the material array.
pub open spec fn material_array_words(ms: Seq<MaterialRaw>, n: nat) -> Seq<u32>
    decreases n,
{
    if n == 0 {
        Seq::empty()
    } else {
        material_array_words(ms, (n - 1) as nat) + material_slot(ms, n - 1).words()
    }
}

/// The words of the first `n` slots of the sphere array.
pub open spec fn sphere_array_words(ss: Seq<Sphere>, n: nat) -> Seq<u32>
    decreases n,
{
    if n == 0 {
        Seq::empty()
    } else {
        sphere_array_words(ss, (n - 1) as nat) + sphere_slot(ss, n - 1).words()
    }
}

/// The scene record that the kernel reads: all material slots, all sphere
/// slots, unused ones zero, then the number of spheres.
pub open spec fn scene_words(m: SceneModel) -> Seq<u32> {
    material_array_words(m.materials, MAX_MATERIALS as nat) + sphere_array_words(
        m.spheres,
        MAX_SPHERES as nat,
    ) + seq![m.spheres.len() as u32]
}

proof fn lemma_material_array_len(ms: Seq<MaterialRaw>, n: nat)
    ensures
        material_array_words(ms, n).len() == n * MATERIAL_WORDS,
    decreases n,
{
    if n > 0 {
        lemma_material_array_len(ms, (n - 1) as nat);
    }
}

proof fn lemma_sphere_array_len(ss: Seq<Sphere>, n: nat)
    ensures
        sphere_array_words(ss, n).len() == n * SPHERE_WORDS,
    decreases n,
{
    if n > 0 {
        lemma_sphere_array_len(ss, (n - 1) as nat);
    }
}

proof fn lemma_material_array_slot(ms: Seq<MaterialRaw>, n: nat, i: int, k: int)
    requires
        0 <= i < n,
        0 <= k < MATERIAL_WORDS,
    ensures
        material_array_words(ms, n)[i * MATERIAL_WORDS + k] == material_slot(ms, i).words()[k],
    decreases n,
{
    lemma_material_array_len(ms, (n - 1) as nat);
    if i < n - 1 {
        lemma_material_array_slot(ms, (n - 1) as nat, i, k);
        assert(i * MATERIAL_WORDS + k < (n - 1) * MATERIAL_WORDS) by (nonlinear_arith)
            requires
                i < n - 1,
                0 <= k < MATERIAL_WORDS,
        ;
    } else {
        assert(i * MATERIAL_WORDS == (n - 1) * MATERIAL_WORDS);
    }
}

proof fn lemma_sphere_array_slot(ss: Seq<Sphere>, n: nat, i: int, k: int)
    requires
        0 <= i < n,
        0 <= k < SPHERE_WORDS,
    ensures
        sphere_array_words(ss, n)[i * SPHERE_WORDS + k] == sphere_slot(ss, i).words()[k],
    decreases n,
{
    lemma_sphere_array_len(ss, (n - 1) as nat);
    if i < n - 1 {
        lemma_sphere_array_slot(ss, (n - 1) as nat, i, k);
        assert(i * SPHERE_WORDS + k < (n - 1) * SPHERE_WORDS) by (nonlinear_arith)
            requires
                i < n - 1,
                0 <= k < SPHERE_WORDS,
        ;
    } else {
        assert(i * SPHERE_WORDS == (n - 1) * SPHERE_WORDS);
    }
}

/// The scene record has one fixed shape: material slot `i` holds the `i`-th
/// material's record words, sphere slot `j` the `j`-th sphere's, unused
/// slots are zero, and the last word is the sphere count, at most the
/// capacity.
pub proof fn lemma_scene_record_layout(m: SceneModel)
    requires
        m.wf(),
    ensures
        scene_words(m).len() == SCENE_WORDS,
        scene_words(m)[SCENE_WORDS - 1] == m.spheres.len(),
        scene_words(m)[SCENE_WORDS - 1] <= MAX_SPHERES,
        forall|i: int, k: int|
            0 <= i < MAX_MATERIALS && 0 <= k < MATERIAL_WORDS ==> scene_words(m)[i
                * MATERIAL_WORDS + k] == material_slot(m.materials, i).words()[k],
        forall|j: int, k: int|
            0 <= j < MAX_SPHERES && 0 <= k < SPHERE_WORDS ==> scene_words(m)[MAX_MATERIALS
                * MATERIAL_WORDS + j * SPHERE_WORDS + k] == sphere_slot(m.spheres, j).words()[k],
{
    let mw = material_array_words(m.materials, MAX_MATERIALS as nat);
    let sw = sphere_array_words(m.spheres, MAX_SPHERES as nat);
    lemma_material_array_len(m.materials, MAX_MATERIALS as nat);
    lemma_sphere_array_len(m.spheres, MAX_SPHERES as nat);
    assert forall|i: int, k: int|
        0 <= i < MAX_MATERIALS && 0 <= k < MATERIAL_WORDS implies scene_words(m)[i
            * MATERIAL_WORDS + k] == material_slot(m.materials, i).words()[k] by {
        lemma_material_array_slot(m.materials, MAX_MATERIALS as nat, i, k);
        assert(i * MATERIAL_WORDS + k < MAX_MATERIALS * MATERIAL_WORDS) by (nonlinear_arith)
            requires
                0 <= i < MAX_MATERIALS,
                0 <= k < MATERIAL_WORDS,
        ;
    }
    assert forall|j: int, k: int|
        0 <= j < MAX_SPHERES && 0 <= k < SPHERE_WORDS implies scene_words(m)[MAX_MATERIALS
            * MATERIAL_WORDS + j * SPHERE_WORDS + k] == sphere_slot(m.spheres, j).words()[k] by {
        lemma_sphere_array_slot(m.spheres, MAX_SPHERES as nat, j, k);
        assert(j * SPHERE_WORDS + k < MAX_SPHERES * SPHERE_WORDS) by (nonlinear_arith)
            requires
                0 <= j < MAX_SPHERES,
                0 <= k < SPHERE_WORDS,
        ;
    }
}

/// Serialising the same material and sphere lists twice gives the same
/// record, word for word, whatever the mesh data.
pub proof fn lemma_serialization_deterministic(
    materials: Seq<Material>,
    spheres: Seq<Sphere>,
    vertices1: Seq<Vertex>,
    indices1: Seq<u32>,
    meshes1: Seq<Mesh>,
    vertices2: Seq<Vertex>,
    indices2: Seq<u32>,
    meshes2: Seq<Mesh>,
)
    ensures
        scene_words(scene_of(materials, spheres, vertices1, indices1, meshes1)) == scene_words(
            scene_of(materials, spheres, vertices2, indices2, meshes2),
        ),
{
}

/// A scene, built once and never changed: materials, spheres and meshes.
pub struct Scene {
    materials: Vec<MaterialRaw>,
    spheres: Vec<Sphere>,
    vertices: Vec<Vertex>,
    indices: Vec<u32>,
    meshes: Vec<Mesh>,
}

impl View for Scene {
    type V = SceneModel;

    closed spec fn view(&self) -> SceneModel {
        SceneModel {
            materials: self.materials@,
            spheres: self.spheres@,
            vertices: self.vertices@,
            indices: self.indices@,
            meshes: self.meshes@,
        }
    }
}

impl Scene {
    /// Builds a scene. Refuses, in this order of checks, more materials,
    /// spheres, vertices, indices or meshes than their capacity, then the
    /// first sphere whose material index names no material.
    pub fn new(
        materials: Vec<Material>,
        spheres: Vec<Sphere>,
        vertices: Vec<Vertex>,
        indices: Vec<u32>,
        meshes: Vec<Mesh>,
    ) -> (r: Result<Scene, SceneError>)
        ensures
            materials@.len() > MAX_MATERIALS ==> r == Err::<Scene, SceneError>(
                SceneError::TooManyMaterials,
            ),
            materials@.len() <= MAX_MATERIALS && spheres@.len() > MAX_SPHERES ==> r == Err::<
                Scene,
                SceneError,
            >(SceneError::TooManySpheres),
            materials@.len() <= MAX_MATERIALS && spheres@.len() <= MAX_SPHERES
                && vertices@.len() > MAX_VERTICES ==> r == Err::<Scene, SceneError>(
                SceneError::TooManyVertices,
            ),
            materials@.len() <= MAX_MATERIALS && spheres@.len() <= MAX_SPHERES
                && vertices@.len() <= MAX_VERTICES && indices@.len() > MAX_INDICES ==> r == Err::<
                Scene,
                SceneError,
            >(SceneError::TooManyIndices),
            materials@.len() <= MAX_MATERIALS && spheres@.len() <= MAX_SPHERES
                && vertices@.len() <= MAX_VERTICES && indices@.len() <= MAX_INDICES
                && meshes@.len() > MAX_MESHES ==> r == Err::<Scene, SceneError>(
                SceneError::TooManyMeshes,
            ),
            r matches Err(SceneError::InvalidMaterialIndex { sphere }) ==> {
                &&& sphere < spheres@.len()
                &&& spheres@[sphere as int].material >= materials@.len()
                &&& forall|j: int|
                    0 <= j < sphere ==> spheres@[j].material < materials@.len()
            },
            r is Ok <==> scene_of(materials@, spheres@, vertices@, indices@, meshes@).wf(),
            r matches Ok(scene) ==> scene@ == scene_of(
                materials@,
                spheres@,
                vertices@,
                indices@,
                meshes@,
            ),
    {
        if materials.len() > MAX_MATERIALS {
            return Err(SceneError::TooManyMaterials);
        }
        if spheres.len() > MAX_SPHERES {
            return Err(SceneError::TooManySpheres);
        }
        if vertices.len() > MAX_VERTICES {
            return Err(SceneError::TooManyVertices);
        }
        if indices.len() > MAX_INDICES {
            return Err(SceneError::TooManyIndices);
        }
        if meshes.len() > MAX_MESHES {
            return Err(SceneError::TooManyMeshes);
        }
        let n = materials.len();
        let mut j: usize = 0;
        while j < spheres.len()
            invariant
                j <= spheres@.len(),
                n == materials@.len(),
                materials@.len() <= MAX_MATERIALS,
                spheres@.len() <= MAX_SPHERES,
                vertices@.len() <= MAX_VERTICES,
                indices@.len() <= MAX_INDICES,
                meshes@.len() <= MAX_MESHES,
                forall|k: int| 0 <= k < j ==> spheres@[k].material < n,
            decreases spheres@.len() - j,
        {
            if spheres[j].material as usize >= n {
                return Err(SceneError::InvalidMaterialIndex { sphere: j });
            }
            j = j + 1;
        }
        let mut raw: Vec<MaterialRaw> = Vec::new();
        let mut i: usize = 0;
        while i < n
            invariant
                i <= n,
                n == materials@.len(),
                raw@ =~= materials@.subrange(0, i as int).map_values(|m: Material| m.raw()),
            decreases n - i,
        {
            raw.push(materials[i].to_raw());
            i = i + 1;
        }
        assert(materials@.subrange(0, n as int) =~= materials@);
        Ok(Scene { materials: raw, spheres, vertices, indices, meshes })
    }

    pub fn material_count(&self) -> (r: usize)
        ensures
            r == self@.materials.len(),
    {
        self.materials.len()
    }

    pub fn sphere_count(&self) -> (r: usize)
        ensures
            r == self@.spheres.len(),
    {
        self.spheres.len()
    }

    pub fn mesh_count(&self) -> (r: usize)
        ensures
            r == self@.meshes.len(),
    {
        self.meshes.len()
    }

    /// The scene record, word for word as the kernel reads it.
    pub fn to_words(&self) -> (r: Vec<u32>)
        requires
            self@.wf(),
        ensures
            r@ == scene_words(self@),
            r@.len() == SCENE_WORDS,
    {
        let mut out: Vec<u32> = Vec::new();
        let mut i: usize = 0;
        while i < MAX_MATERIALS
            invariant
                i <= MAX_MATERIALS,
                out@ == material_array_words(self@.materials, i as nat),
            decreases MAX_MATERIALS - i,
        {
            if i < self.materials.len() {
                self.materials[i].write_words(&mut out);
            } else {
                MaterialRaw::empty().write_words(&mut out);
            }
            i = i + 1;
        }
        let mut j: usize = 0;
        while j < MAX_SPHERES
            invariant
                j <= MAX_SPHERES,
                out@ == material_array_words(self@.materials, MAX_MATERIALS as nat)
                    + sphere_array_words(self@.spheres, j as nat),
            decreases MAX_SPHERES - j,
        {
            if j < self.spheres.len() {
                self.spheres[j].write_words(&mut out);
            } else {
                Sphere::empty().write_words(&mut out);
            }
            proof {
                assert(material_array_words(self@.materials, MAX_MATERIALS as nat)
                    + sphere_array_words(self@.spheres, (j + 1) as nat) =~= material_array_words(
                    self@.materials,
                    MAX_MATERIALS as nat,
                ) + sphere_array_words(self@.spheres, j as nat) + sphere_slot(
                    self@.spheres,
                    j as int,
                ).words());
            }
            j = j + 1;
        }
        out.push(self.spheres.len() as u32);
        proof {
            lemma_scene_record_layout(self@);
        }
        out
    }
}

} // verus!
