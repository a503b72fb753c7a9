//! The scene store: geometry and materials, and the byte images of both that
//! are uploaded into GPU buffers.
//!
//! Colours, positions and the other real-valued material and vertex
//! components are kept as the 32-bit words the GPU programs read (IEEE-754
//! single precision); the store never looks inside them. Triangles are four
//! integers: three vertex indices and the index of the triangle's material.

use vstd::prelude::*;
use crate::bytes::{is_memory_image, memory_image};
use crate::resource::{ResourceAllocator, ResourceId};

verus! {

/// Surface class of the material that a generated scene starts with: the
/// word for 2.0.
pub const TEST_MATERIAL_CLASS: u32 = 0x4000_0000;

/// Roughness of the material that a generated scene starts with: the word
/// for 0.5.
pub const TEST_MATERIAL_ROUGHNESS: u32 = 0x3f00_0000;

/// Refraction index of the material that a generated scene starts with: the
/// word for 1.5.
pub const TEST_MATERIAL_IOR: u32 = 0x3fc0_0000;

/// A surface description, in the three four-word rows the GPU programs read.
#[derive(Clone, Copy, PartialEq, Eq, Debug)]
pub struct Material {
    pub albedo_and_mat: [u32; 4],
    pub emission_and_roughness: [u32; 4],
    pub ior: [u32; 4],
}

impl Material {
    /// Word `k` of the material's twelve, row by row.
    pub open spec fn word(&self, k: int) -> u32 {
        if k < 4 {
            self.albedo_and_mat[k]
        } else if k < 8 {
            self.emission_and_roughness[k - 4]
        } else {
            self.ior[k - 8]
        }
    }

    /// Packs the components into rows; the unused words are zero.
    pub fn new(albedo: [u32; 3], emission: [u32; 3], material: u32, roughness: u32, ior: u32) -> (r:
        Material)
        ensures
            r.albedo_and_mat@ == seq![albedo[0], albedo[1], albedo[2], material],
            r.emission_and_roughness@ == seq![emission[0], emission[1], emission[2], roughness],
            r.ior@ == seq![ior, 0u32, 0u32, 0u32],
    {
        let r = Material {
            albedo_and_mat: [albedo[0], albedo[1], albedo[2], material],
            emission_and_roughness: [emission[0], emission[1], emission[2], roughness],
            ior: [ior, 0, 0, 0],
        };
        assert(r.albedo_and_mat@ =~= seq![albedo[0], albedo[1], albedo[2], material]);
        assert(r.emission_and_roughness@ =~= seq![
            emission[0],
            emission[1],
            emission[2],
            roughness,
        ]);
        assert(r.ior@ =~= seq![ior, 0u32, 0u32, 0u32]);
        r
    }
}

impl Default for Material {
    /// The material whose twelve words are zero.
    fn default() -> (r: Material)
        ensures
            forall|k: int| 0 <= k < 12 ==> r.word(k) == 0,
    {
        Material {
            albedo_and_mat: [0, 0, 0, 0],
            emission_and_roughness: [0, 0, 0, 0],
            ior: [0, 0, 0, 0],
        }
    }
}

/// The words of a list of four-word rows, row by row.
pub open spec fn row_words(rows: Seq<[u32; 4]>) -> Seq<u32> {
    Seq::new(4 * rows.len(), |i: int| rows[i / 4][i % 4])
}

/// The words of a list of materials, material by material.
pub open spec fn material_words(materials: Seq<Material>) -> Seq<u32> {
    Seq::new(12 * materials.len(), |i: int| materials[i / 12].word(i % 12))
}

/// Every triangle names a material that exists.
pub open spec fn materials_in_range(tris: Seq<[u32; 4]>, material_count: int) -> bool {
    forall|i: int| 0 <= i < tris.len() ==> (#[trigger] tris[i])[3] < material_count
}

fn flatten_rows(rows: &Vec<[u32; 4]>) -> (words: Vec<u32>)
    ensures
        words@ == row_words(rows@),
{
    let mut words: Vec<u32> = Vec::new();
    let mut i: usize = 0;
    while i < rows.len()
        invariant
            i <= rows.len(),
            words@ == row_words(rows@.take(i as int)),
        decreases rows.len() - i,
    {
        let row = rows[i];
        words.push(row[0]);
        words.push(row[1]);
        words.push(row[2]);
        words.push(row[3]);
        assert(words@ =~= row_words(rows@.take(i + 1)));
        i = i + 1;
    }
    assert(rows@.take(i as int) =~= rows@);
    words
}

fn flatten_materials(materials: &Vec<Material>) -> (words: Vec<u32>)
    ensures
        words@ == material_words(materials@),
{
    let mut words: Vec<u32> = Vec::new();
    let mut i: usize = 0;
    while i < materials.len()
        invariant
            i <= materials.len(),
            words@ == material_words(materials@.take(i as int)),
        decreases materials.len() - i,
    {
        let m = materials[i];
        words.push(m.albedo_and_mat[0]);
        words.push(m.albedo_and_mat[1]);
        words.push(m.albedo_and_mat[2]);
        words.push(m.albedo_and_mat[3]);
        words.push(m.emission_and_roughness[0]);
        words.push(m.emission_and_roughness[1]);
        words.push(m.emission_and_roughness[2]);
        words.push(m.emission_and_roughness[3]);
        words.push(m.ior[0]);
        words.push(m.ior[1]);
        words.push(m.ior[2]);
        words.push(m.ior[3]);
        assert(words@ =~= material_words(materials@.take(i + 1)));
        i = i + 1;
    }
    assert(materials@.take(i as int) =~= materials@);
    words
}

/// A GPU storage buffer together with the bytes it was created with.
#[derive(Debug)]
pub struct StorageBuffer {
    pub id: ResourceId,
    pub contents: Vec<u8>,
}

/// Why a scene edit was turned down.
#[derive(Clone, Copy, PartialEq, Eq, Debug, Structural)]
pub enum SceneError {
    /// A triangle names a material that the materials list does not have.
    MaterialOutOfRange,
}

/// Geometry and materials, with the GPU buffers that mirror them.
///
/// The buffers are never brought up to date behind the caller's back: an edit
/// of the lists leaves them as they were until a rebuild is asked for.
#[derive(Debug)]
pub struct Scene {
    pub materials: Vec<Material>,
    pub vertices: Vec<[u32; 4]>,
    pub tris: Vec<[u32; 4]>,
    pub material_buffer: StorageBuffer,
    pub vertex_buffer: StorageBuffer,
    pub tri_buffer: StorageBuffer,
}

impl Scene {
    /// Every triangle names an existing material, and the three buffers are
    /// distinct allocations.
    pub open spec fn wf(&self) -> bool {
        &&& materials_in_range(self.tris@, self.materials@.len() as int)
        &&& self.material_buffer.id != self.vertex_buffer.id
        &&& self.material_buffer.id != self.tri_buffer.id
        &&& self.vertex_buffer.id != self.tri_buffer.id
    }

    /// The vertex and triangle buffers hold the images of the current lists.
    pub open spec fn geometry_mirrored(&self) -> bool {
        &&& is_memory_image(self.vertex_buffer.contents@, row_words(self.vertices@))
        &&& is_memory_image(self.tri_buffer.contents@, row_words(self.tris@))
    }

    /// The material buffer holds the image of the current materials list.
    pub open spec fn materials_mirrored(&self) -> bool {
        is_memory_image(self.material_buffer.contents@, material_words(self.materials@))
    }

    /// No buffer is out of date.
    pub open spec fn mirrored(&self) -> bool {
        self.geometry_mirrored() && self.materials_mirrored()
    }

    /// A scene of one all-zero material, one all-zero vertex and one triangle
    /// over them, with its buffers.
    pub fn new(alloc: &mut ResourceAllocator) -> (r: Scene)
        requires
            old(alloc).has_room(3),
        ensures
            r.wf(),
            r.mirrored(),
            r.materials@.len() == 1,
            forall|k: int| 0 <= k < 12 ==> r.materials@[0].word(k) == 0,
            r.vertices@.len() == 1,
            r.vertices@[0]@ == seq![0u32, 0u32, 0u32, 0u32],
            r.tris@.len() == 1,
            r.tris@[0]@ == seq![0u32, 0u32, 0u32, 0u32],
            r.material_buffer.id.0 == old(alloc).next(),
            r.vertex_buffer.id.0 == old(alloc).next() + 1,
            r.tri_buffer.id.0 == old(alloc).next() + 2,
            final(alloc).next() == old(alloc).next() + 3,
    {
        let materials: Vec<Material> = vec![Material::default()];
        let vertices: Vec<[u32; 4]> = vec![[0u32, 0u32, 0u32, 0u32]];
        let tris: Vec<[u32; 4]> = vec![[0u32, 0u32, 0u32, 0u32]];
        assert(vertices@[0]@ =~= seq![0u32, 0u32, 0u32, 0u32]);
        assert(tris@[0]@ =~= seq![0u32, 0u32, 0u32, 0u32]);
        let material_buffer = StorageBuffer {
            id: alloc.allocate(),
            contents: memory_image(&flatten_materials(&materials)),
        };
        let vertex_buffer = StorageBuffer {
            id: alloc.allocate(),
            contents: memory_image(&flatten_rows(&vertices)),
        };
        let tri_buffer = StorageBuffer {
            id: alloc.allocate(),
            contents: memory_image(&flatten_rows(&tris)),
        };
        Scene { materials, vertices, tris, material_buffer, vertex_buffer, tri_buffer }
    }

    /// Creates the vertex and triangle buffers anew from the current lists.
    pub fn update_triangle_buffers(&mut self, alloc: &mut ResourceAllocator)
        requires
            old(alloc).has_room(2),
        ensures
            final(self).geometry_mirrored(),
            final(self).vertex_buffer.id.0 == old(alloc).next(),
            final(self).tri_buffer.id.0 == old(alloc).next() + 1,
            final(alloc).next() == old(alloc).next() + 2,
            final(self).materials == old(self).materials,
            final(self).vertices == old(self).vertices,
            final(self).tris == old(self).tris,
            final(self).material_buffer == old(self).material_buffer,
    {
        self.vertex_buffer = StorageBuffer {
            id: alloc.allocate(),
            contents: memory_image(&flatten_rows(&self.vertices)),
        };
        self.tri_buffer = StorageBuffer {
            id: alloc.allocate(),
            contents: memory_image(&flatten_rows(&self.tris)),
        };
    }

    /// Creates the material buffer anew from the current materials list.
    pub fn update_material_buffer(&mut self, alloc: &mut ResourceAllocator)
        requires
            old(alloc).has_room(1),
        ensures
            final(self).materials_mirrored(),
            final(self).material_buffer.id.0 == old(alloc).next(),
            final(alloc).next() == old(alloc).next() + 1,
            final(self).materials == old(self).materials,
            final(self).vertices == old(self).vertices,
            final(self).tris == old(self).tris,
            final(self).vertex_buffer == old(self).vertex_buffer,
            final(self).tri_buffer == old(self).tri_buffer,
    {
        self.material_buffer = StorageBuffer {
            id: alloc.allocate(),
            contents: memory_image(&flatten_materials(&self.materials)),
        };
    }

    /// Adds one triangle to the list and leaves the buffers as they are. A
    /// triangle that names a missing material is turned down.
    pub fn append_primitive(&mut self, tri: [u32; 4]) -> (r: Result<(), SceneError>)
        ensures
            r is Ok <==> tri[3] < old(self).materials@.len(),
            r is Ok ==> final(self).tris@ == old(self).tris@.push(tri),
            r is Err ==> final(self).tris == old(self).tris,
            final(self).materials == old(self).materials,
            final(self).vertices == old(self).vertices,
            final(self).material_buffer == old(self).material_buffer,
            final(self).vertex_buffer == old(self).vertex_buffer,
            final(self).tri_buffer == old(self).tri_buffer,
            old(self).wf() ==> final(self).wf(),
    {
        if (tri[3] as usize) < self.materials.len() {
            self.tris.push(tri);
            Ok(())
        } else {
            Err(SceneError::MaterialOutOfRange)
        }
    }

    /// Swaps in new lists as a whole and creates all three buffers anew from
    /// them. Lists in which a triangle names a missing material are turned
    /// down, and the scene stays as it was.
    pub fn replace_scene(
        &mut self,
        alloc: &mut ResourceAllocator,
        vertices: Vec<[u32; 4]>,
        tris: Vec<[u32; 4]>,
        materials: Vec<Material>,
    ) -> (r: Result<(), SceneError>)
        requires
            old(alloc).has_room(3),
        ensures
            r is Ok <==> materials_in_range(tris@, materials@.len() as int),
            r is Ok ==> {
                &&& final(self).vertices == vertices
                &&& final(self).tris == tris
                &&& final(self).materials == materials
                &&& final(self).mirrored()
                &&& final(self).wf()
                &&& final(self).material_buffer.id.0 == old(alloc).next()
                &&& final(self).vertex_buffer.id.0 == old(alloc).next() + 1
                &&& final(self).tri_buffer.id.0 == old(alloc).next() + 2
                &&& final(alloc).next() == old(alloc).next() + 3
            },
            r is Err ==> *final(self) == *old(self) && *final(alloc) == *old(alloc),
    {
        let mut i: usize = 0;
        while i < tris.len()
            invariant
                i <= tris.len(),
                materials_in_range(tris@.take(i as int), materials@.len() as int),
            decreases tris.len() - i,
        {
            if tris[i][3] as usize >= materials.len() {
                return Err(SceneError::MaterialOutOfRange);
            }
            assert forall|j: int| 0 <= j < i + 1 implies (#[trigger] tris@.take(i + 1)[j])[3]
                < materials@.len() by {
                if j < i {
                    assert(tris@.take(i as int)[j] == tris@[j]);
                }
            }
            i = i + 1;
        }
        assert(tris@.take(i as int) =~= tris@);
        self.vertices = vertices;
        self.tris = tris;
        self.materials = materials;
        self.update_material_buffer(alloc);
        self.update_triangle_buffers(alloc);
        Ok(())
    }

    /// Replaces the scene by the given geometry under one material of the
    /// given colour, the surface class, roughness and refraction index being
    /// the fixed ones of generated scenes, and creates the buffers anew.
    pub fn setup_test_scene(
        &mut self,
        alloc: &mut ResourceAllocator,
        albedo: [u32; 3],
        vertices: Vec<[u32; 4]>,
        tris: Vec<[u32; 4]>,
    ) -> (r: Result<(), SceneError>)
        requires
            old(alloc).has_room(3),
        ensures
            r is Ok <==> materials_in_range(tris@, 1),
            r is Ok ==> {
                &&& final(self).vertices == vertices
                &&& final(self).tris == tris
                &&& final(self).materials@.len() == 1
                &&& final(self).materials@[0].albedo_and_mat@ == seq![
                    albedo[0],
                    albedo[1],
                    albedo[2],
                    TEST_MATERIAL_CLASS,
                ]
                &&& final(self).materials@[0].emission_and_roughness@ == seq![
                    0u32,
                    0u32,
                    0u32,
                    TEST_MATERIAL_ROUGHNESS,
                ]
                &&& final(self).materials@[0].ior@ == seq![TEST_MATERIAL_IOR, 0u32, 0u32, 0u32]
                &&& final(self).mirrored()
                &&& final(self).wf()
                &&& final(self).material_buffer.id.0 == old(alloc).next()
                &&& final(self).vertex_buffer.id.0 == old(alloc).next() + 1
                &&& final(self).tri_buffer.id.0 == old(alloc).next() + 2
                &&& final(alloc).next() == old(alloc).next() + 3
            },
            r is Err ==> *final(self) == *old(self) && *final(alloc) == *old(alloc),
    {
        let material = Material::new(
            albedo,
            [0u32, 0u32, 0u32],
            TEST_MATERIAL_CLASS,
            TEST_MATERIAL_ROUGHNESS,
            TEST_MATERIAL_IOR,
        );
        let materials: Vec<Material> = vec![material];
        self.replace_scene(alloc, vertices, tris, materials)
    }
}

} // verus!
