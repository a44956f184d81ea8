//! Meshes and materials: the vertex layout, and how parsed model data becomes
//! the buffers a GPU draws from.

use vstd::prelude::*;
use crate::words::{cast_words, is_memory_image, lemma_memory_image_of_part};

verus! {

/// How often the vertex stage steps to the next record of a buffer.
#[derive(Clone, Copy, PartialEq, Eq, Structural, Debug)]
pub enum InputStepMode {
    Vertex,
    Instance,
}

/// The type of one vertex attribute.
#[derive(Clone, Copy, PartialEq, Eq, Structural, Debug)]
pub enum VertexFormat {
    /// Two 32-bit floats.
    Float2,
    /// Three 32-bit floats.
    Float3,
}

impl VertexFormat {
    /// Bytes one attribute of this format takes.
    pub open spec fn spec_size(self) -> u64 {
        match self {
            VertexFormat::Float2 => 8,
            VertexFormat::Float3 => 12,
        }
    }

    /// Bytes one attribute of this format takes.
    #[verifier::when_used_as_spec(spec_size)]
    pub fn size(self) -> (bytes: u64)
        ensures
            bytes == self.spec_size(),
    {
        match self {
            VertexFormat::Float2 => 8,
            VertexFormat::Float3 => 12,
        }
    }
}

/// Where one attribute lies inside a vertex record.
#[derive(Clone, Copy, PartialEq, Eq, Structural, Debug)]
pub struct VertexAttributeDescriptor {
    pub offset: u64,
    pub shader_location: u32,
    pub format: VertexFormat,
}

/// The layout of the records of a vertex buffer.
#[derive(Clone, PartialEq, Eq, Debug)]
pub struct VertexBufferDescriptor {
    pub stride: u64,
    pub step_mode: InputStepMode,
    pub attributes: Vec<VertexAttributeDescriptor>,
}

/// The mathematical content of a [`VertexBufferDescriptor`].
pub struct VertexLayout {
    pub stride: u64,
    pub step_mode: InputStepMode,
    pub attributes: Seq<VertexAttributeDescriptor>,
}

impl View for VertexBufferDescriptor {
    type V = VertexLayout;

    open spec fn view(&self) -> VertexLayout {
        VertexLayout {
            stride: self.stride,
            step_mode: self.step_mode,
            attributes: self.attributes@,
        }
    }
}

impl VertexLayout {
    /// The attributes follow one another without gaps, starting at offset
    /// zero, and the stride is where the last one ends.
    pub open spec fn is_packed(self) -> bool {
        &&& forall|i: int|
            0 <= i < self.attributes.len() ==> (#[trigger] self.attributes[i]).offset
                == self.end_of(i - 1)
        &&& self.stride == self.end_of(self.attributes.len() - 1)
    }

    /// The offset just behind attribute `i`; zero for `i` below zero.
    pub open spec fn end_of(self, i: int) -> int
        decreases i + 1,
    {
        if i < 0 || i >= self.attributes.len() {
            0
        } else {
            self.end_of(i - 1) + self.attributes[i].format.spec_size()
        }
    }
}

/// A record type that can say how it lies in a vertex buffer.
pub trait Vertex {
    /// The layout of this record type.
    spec fn layout() -> VertexLayout;

    /// Describes the layout of this record type.
    fn desc() -> (descriptor: VertexBufferDescriptor)
        ensures
            descriptor@ == Self::layout(),
    ;
}

/// One vertex of a mesh.  Each component is the bit pattern of an IEEE-754
/// single; the record is moved and packed, never computed with.
#[derive(Clone, Copy, PartialEq, Eq, Debug)]
pub struct ModelVertex {
    pub position: [u32; 3],
    pub tex_coords: [u32; 2],
    pub normal: [u32; 3],
}

impl ModelVertex {
    /// The eight words of the record in memory order.
    pub open spec fn words(self) -> Seq<u32> {
        self.position@ + self.tex_coords@ + self.normal@
    }
}

impl Vertex for ModelVertex {
    open spec fn layout() -> VertexLayout {
        VertexLayout {
            stride: 32,
            step_mode: InputStepMode::Vertex,
            attributes: seq![
                VertexAttributeDescriptor {
                    offset: 0,
                    shader_location: 0,
                    format: VertexFormat::Float3,
                },
                VertexAttributeDescriptor {
                    offset: 12,
                    shader_location: 1,
                    format: VertexFormat::Float2,
                },
                VertexAttributeDescriptor {
                    offset: 20,
                    shader_location: 2,
                    format: VertexFormat::Float3,
                },
            ],
        }
    }

    fn desc() -> (descriptor: VertexBufferDescriptor) {
        let position = VertexAttributeDescriptor {
            offset: 0,
            shader_location: 0,
            format: VertexFormat::Float3,
        };
        let tex_coords = VertexAttributeDescriptor {
            offset: position.offset + position.format.size(),
            shader_location: 1,
            format: VertexFormat::Float2,
        };
        let normal = VertexAttributeDescriptor {
            offset: tex_coords.offset + tex_coords.format.size(),
            shader_location: 2,
            format: VertexFormat::Float3,
        };
        let stride: u64 = normal.offset + normal.format.size();
        let mut attributes: Vec<VertexAttributeDescriptor> = Vec::new();
        attributes.push(position);
        attributes.push(tex_coords);
        attributes.push(normal);
        let descriptor = VertexBufferDescriptor {
            stride,
            step_mode: InputStepMode::Vertex,
            attributes,
        };
        assert(descriptor@.attributes =~= Self::layout().attributes);
        descriptor
    }
}

/// The layout of [`ModelVertex`] is packed, and its stride is the size of
/// the eight words of a record.
pub proof fn lemma_model_vertex_layout(v: ModelVertex)
    ensures
        ModelVertex::layout().is_packed(),
        ModelVertex::layout().stride == 4 * v.words().len(),
{
    let layout = ModelVertex::layout();
    reveal_with_fuel(VertexLayout::end_of, 4);
    assert(layout.end_of(-1) == 0);
    assert(layout.end_of(0) == 12);
    assert(layout.end_of(1) == 20);
    assert(layout.end_of(2) == 32);
}

/// The geometry of one parsed mesh, as flat arrays.  Positions and normals hold
/// three components per vertex, texture coordinates two; each component is
/// the bit pattern of an IEEE-754 single.
#[derive(Clone, PartialEq, Eq, Debug)]
pub struct ObjMesh {
    pub positions: Vec<u32>,
    pub normals: Vec<u32>,
    pub texcoords: Vec<u32>,
    pub indices: Vec<u32>,
    /// The material the file assigns to the mesh, if it assigns one.
    pub material_id: Option<usize>,
}

/// One parsed mesh with its name.
#[derive(Clone, PartialEq, Eq, Debug)]
pub struct ObjModel {
    pub mesh: ObjMesh,
    pub name: String,
}

/// One parsed material: its name and the file name of its diffuse texture.
#[derive(Clone, PartialEq, Eq, Debug)]
pub struct ObjMaterial {
    pub name: String,
    pub diffuse_texture: String,
}

impl ObjMesh {
    /// The number of vertices: one for every three position components.
    pub open spec fn vertex_count(self) -> nat {
        self.positions@.len() / 3
    }

    /// Texture coordinates and normals are there for every vertex.
    pub open spec fn is_complete(self) -> bool {
        &&& self.texcoords@.len() >= 2 * self.vertex_count()
        &&& self.normals@.len() >= 3 * self.vertex_count()
    }

    /// Vertex `i`, gathered from the three arrays.
    pub open spec fn vertex(self, i: int) -> ModelVertex {
        ModelVertex {
            position: [
                self.positions@[3 * i],
                self.positions@[3 * i + 1],
                self.positions@[3 * i + 2],
            ],
            tex_coords: [self.texcoords@[2 * i], self.texcoords@[2 * i + 1]],
            normal: [self.normals@[3 * i], self.normals@[3 * i + 1], self.normals@[3 * i + 2]],
        }
    }

    /// All vertices in order.
    pub open spec fn vertices(self) -> Seq<ModelVertex> {
        Seq::new(self.vertex_count(), |i: int| self.vertex(i))
    }

    /// Tells whether texture coordinates and normals are there for every
    /// vertex.
    pub fn has_all_attributes(&self) -> (complete: bool)
        ensures
            complete == self.is_complete(),
    {
        let count: usize = self.positions.len() / 3;
        self.texcoords.len() / 2 >= count && self.normals.len() / 3 >= count
    }

    /// Gathers the vertices from the three arrays.
    pub fn interleave(&self) -> (vertices: Vec<ModelVertex>)
        requires
            self.is_complete(),
        ensures
            vertices@ == self.vertices(),
    {
        let count: usize = self.positions.len() / 3;
        let mut vertices: Vec<ModelVertex> = Vec::new();
        let mut i: usize = 0;
        while i < count
            invariant
                count == self.vertex_count(),
                3 * count <= self.positions.len(),
                2 * count <= self.texcoords.len(),
                3 * count <= self.normals.len(),
                i <= count,
                vertices@.len() == i,
                forall|k: int| 0 <= k < i ==> vertices@[k] == self.vertex(k),
            decreases count - i,
        {
            let vertex = ModelVertex {
                position: [
                    self.positions[i * 3],
                    self.positions[i * 3 + 1],
                    self.positions[i * 3 + 2],
                ],
                tex_coords: [self.texcoords[i * 2], self.texcoords[i * 2 + 1]],
                normal: [self.normals[i * 3], self.normals[i * 3 + 1], self.normals[i * 3 + 2]],
            };
            assert(vertex.position@ =~= self.vertex(i as int).position@);
            assert(vertex.tex_coords@ =~= self.vertex(i as int).tex_coords@);
            assert(vertex.normal@ =~= self.vertex(i as int).normal@);
            assert(vertex == self.vertex(i as int));
            vertices.push(vertex);
            i += 1;
        }
        assert(vertices@ =~= self.vertices());
        vertices
    }
}

/// The words of the vertices one record after another.
pub open spec fn packed_words(vertices: Seq<ModelVertex>) -> Seq<u32> {
    Seq::new(8 * vertices.len(), |k: int| vertices[k / 8].words()[k % 8])
}

/// Lays the vertices out as words, one record after another.
pub fn pack_vertices(vertices: &Vec<ModelVertex>) -> (words: Vec<u32>)
    ensures
        words@ == packed_words(vertices@),
{
    let mut words: Vec<u32> = Vec::new();
    let mut i: usize = 0;
    while i < vertices.len()
        invariant
            i <= vertices.len(),
            words@.len() == 8 * i,
            forall|k: int| 0 <= k < 8 * i ==> words@[k] == vertices@[k / 8].words()[k % 8],
        decreases vertices.len() - i,
    {
        let v = vertices[i];
        let ghost before = words@;
        words.push(v.position[0]);
        words.push(v.position[1]);
        words.push(v.position[2]);
        words.push(v.tex_coords[0]);
        words.push(v.tex_coords[1]);
        words.push(v.normal[0]);
        words.push(v.normal[1]);
        words.push(v.normal[2]);
        assert(words@ =~= before + v.words());
        assert forall|k: int| 0 <= k < 8 * (i + 1) implies words@[k] == vertices@[k / 8].words()[k
            % 8] by {
            if k < 8 * i {
                assert(words@[k] == before[k]);
            } else {
                assert(k / 8 == i);
                assert(words@[k] == v.words()[k - 8 * i]);
            }
        }
        i += 1;
    }
    assert(words@ =~= packed_words(vertices@));
    words
}

/// A bind group of the viewer, named rather than held: the GPU object itself
/// belongs to whoever talks to the device.
#[derive(Clone, Copy, PartialEq, Eq, Structural, Debug)]
pub enum BindGroup {
    /// Texture and sampler of the built-in default texture.
    Diffuse,
    /// The camera matrix and the instance matrices.
    Uniform,
    /// Texture and sampler of the material at this position of the model.
    Material(usize),
}

/// What a buffer is bound as.
#[derive(Clone, Copy, PartialEq, Eq, Structural, Debug)]
pub enum BufferUsage {
    Vertex,
    Index,
}

/// A buffer to be created on the GPU with the given contents.  `id` tells
/// buffers of one usage apart.
#[derive(Clone, PartialEq, Eq, Debug)]
pub struct Buffer {
    pub id: usize,
    pub usage: BufferUsage,
    pub contents: Vec<u8>,
}

/// Where the image of a texture is to be read from: a file inside a folder.
#[derive(Clone, PartialEq, Eq, Debug)]
pub struct TextureFile {
    pub folder: String,
    pub file: String,
}

/// A material of a model.
#[derive(Clone, PartialEq, Eq, Debug)]
pub struct Material {
    pub name: String,
    pub diffuse_texture: TextureFile,
    pub bind_group: BindGroup,
}

/// A mesh of a model, ready for upload.
#[derive(Clone, PartialEq, Eq, Debug)]
pub struct Mesh {
    pub name: String,
    pub vertex_buffer: Buffer,
    pub index_buffer: Buffer,
    /// The number of indices to draw.
    pub num_elements: u32,
    /// Position of the mesh's material among the model's materials.
    pub material: usize,
}

/// Meshes and the materials they refer to.
#[derive(Clone, PartialEq, Eq, Debug)]
pub struct Model {
    pub meshes: Vec<Mesh>,
    pub materials: Vec<Material>,
}

/// Why a model could not be put together.
#[derive(Clone, Copy, PartialEq, Eq, Structural, Debug)]
pub enum ModelError {
    /// The model file's path names no containing folder.
    MissingData,
}

impl ModelError {
    /// The error in words.
    pub fn message(&self) -> (text: String)
        ensures
            text@ == "Directory has no parent"@,
    {
        "Directory has no parent".to_owned()
    }
}

/// The element count recorded for `len` indices: `len` cut down to 32 bits.
pub open spec fn element_count(len: nat) -> u32 {
    (len % 0x1_0000_0000) as u32
}

/// The material a mesh uses: the one its file names, else the first.
pub open spec fn material_slot(material_id: Option<usize>) -> usize {
    match material_id {
        Some(id) => id,
        None => 0,
    }
}

impl Material {
    /// This material is what `source` becomes at position `slot` of a model
    /// whose textures lie in `folder`.
    pub open spec fn is_built_from(
        self,
        source: ObjMaterial,
        folder: Seq<char>,
        slot: int,
    ) -> bool {
        &&& self.name@ == source.name@
        &&& self.diffuse_texture.folder@ == folder
        &&& self.diffuse_texture.file@ == source.diffuse_texture@
        &&& self.bind_group == BindGroup::Material(slot as usize)
    }
}

impl Mesh {
    /// This mesh is what `source` becomes at position `slot` of a model.
    pub open spec fn is_built_from(self, source: ObjModel, slot: int) -> bool {
        &&& self.name@ == source.name@
        &&& self.vertex_buffer.id == slot
        &&& self.vertex_buffer.usage == BufferUsage::Vertex
        &&& is_memory_image(packed_words(source.mesh.vertices()), self.vertex_buffer.contents@)
        &&& self.index_buffer.id == slot
        &&& self.index_buffer.usage == BufferUsage::Index
        &&& is_memory_image(source.mesh.indices@, self.index_buffer.contents@)
        &&& self.num_elements == element_count(source.mesh.indices@.len())
        &&& self.material == material_slot(source.mesh.material_id)
    }

    /// Builds the mesh that stands at position `slot` of a model.
    pub fn build(source: &ObjModel, slot: usize) -> (mesh: Mesh)
        requires
            source.mesh.is_complete(),
        ensures
            mesh.is_built_from(*source, slot as int),
    {
        let vertices = source.mesh.interleave();
        let words = pack_vertices(&vertices);
        let vertex_buffer = Buffer {
            id: slot,
            usage: BufferUsage::Vertex,
            contents: cast_words(&words),
        };
        let index_buffer = Buffer {
            id: slot,
            usage: BufferUsage::Index,
            contents: cast_words(&source.mesh.indices),
        };
        let len: u64 = source.mesh.indices.len() as u64;
        let num_elements: u32 = (len % 0x1_0000_0000) as u32;
        let material: usize = match source.mesh.material_id {
            Some(id) => id,
            None => 0,
        };
        Mesh { name: source.name.clone(), vertex_buffer, index_buffer, num_elements, material }
    }
}

impl Model {
    /// This model is what the parsed meshes and materials become when their
    /// textures lie in `folder`.
    pub open spec fn is_loaded_from(
        self,
        obj_models: Seq<ObjModel>,
        obj_materials: Seq<ObjMaterial>,
        folder: Seq<char>,
    ) -> bool {
        &&& self.materials@.len() == obj_materials.len()
        &&& forall|i: int|
            0 <= i < obj_materials.len() ==> (#[trigger] self.materials@[i]).is_built_from(
                obj_materials[i],
                folder,
                i,
            )
        &&& self.meshes@.len() == obj_models.len()
        &&& forall|j: int|
            0 <= j < obj_models.len() ==> (#[trigger] self.meshes@[j]).is_built_from(
                obj_models[j],
                j,
            )
    }

    /// Every mesh names a material that the model has.
    pub open spec fn materials_resolve(self) -> bool {
        forall|j: int|
            0 <= j < self.meshes@.len() ==> (#[trigger] self.meshes@[j]).material
                < self.materials@.len()
    }

    /// Puts a model together from parsed meshes and materials.
    ///
    /// `containing_folder` is the folder of the model file, where its textures
    /// are looked for; without one there is no model.  Every material gets the
    /// bind group named after its position, every mesh its two buffers, its
    /// element count, and the material its file names or else the first.
    pub fn load(
        obj_models: &Vec<ObjModel>,
        obj_materials: &Vec<ObjMaterial>,
        containing_folder: Option<&str>,
    ) -> (result: Result<Model, ModelError>)
        requires
            containing_folder is Some ==> forall|j: int|
                0 <= j < obj_models@.len() ==> (#[trigger] obj_models@[j]).mesh.is_complete(),
        ensures
            containing_folder is None ==> result == Err::<Model, ModelError>(
                ModelError::MissingData,
            ),
            containing_folder matches Some(folder) ==> result is Ok && result->Ok_0.is_loaded_from(
                obj_models@,
                obj_materials@,
                folder@,
            ),
    {
        let folder: &str = match containing_folder {
            Some(folder) => folder,
            None => {
                return Err(ModelError::MissingData);
            },
        };

        let mut materials: Vec<Material> = Vec::new();
        let mut i: usize = 0;
        while i < obj_materials.len()
            invariant
                i <= obj_materials.len(),
                materials@.len() == i,
                forall|k: int|
                    0 <= k < i ==> (#[trigger] materials@[k]).is_built_from(
                        obj_materials@[k],
                        folder@,
                        k,
                    ),
            decreases obj_materials.len() - i,
        {
            let source = &obj_materials[i];
            materials.push(
                Material {
                    name: source.name.clone(),
                    diffuse_texture: TextureFile {
                        folder: folder.to_owned(),
                        file: source.diffuse_texture.clone(),
                    },
                    bind_group: BindGroup::Material(i),
                },
            );
            i += 1;
        }

        let mut meshes: Vec<Mesh> = Vec::new();
        let mut j: usize = 0;
        while j < obj_models.len()
            invariant
                j <= obj_models.len(),
                forall|k: int|
                    0 <= k < obj_models@.len() ==> (#[trigger] obj_models@[k]).mesh.is_complete(),
                meshes@.len() == j,
                forall|k: int|
                    0 <= k < j ==> (#[trigger] meshes@[k]).is_built_from(obj_models@[k], k),
            decreases obj_models.len() - j,
        {
            meshes.push(Mesh::build(&obj_models[j], j));
            j += 1;
        }

        Ok(Model { meshes, materials })
    }

    /// Tells whether every mesh names a material that the model has.
    pub fn has_materials_for_meshes(&self) -> (resolved: bool)
        ensures
            resolved == self.materials_resolve(),
    {
        let mut j: usize = 0;
        while j < self.meshes.len()
            invariant
                j <= self.meshes.len(),
                forall|k: int|
                    0 <= k < j ==> (#[trigger] self.meshes@[k]).material < self.materials@.len(),
            decreases self.meshes.len() - j,
        {
            if self.meshes[j].material >= self.materials.len() {
                return false;
            }
            j += 1;
        }
        true
    }
}

impl Model {
    /// Buffers and bind groups are numbered by position: mesh `j` has the
    /// buffers `j`, material `i` the bind group `Material(i)`.
    pub open spec fn is_numbered_by_position(self) -> bool {
        &&& forall|j: int|
            0 <= j < self.meshes@.len() ==> (#[trigger] self.meshes@[j]).vertex_buffer.id == j
                && self.meshes@[j].index_buffer.id == j
        &&& forall|i: int|
            0 <= i < self.materials@.len() ==> (#[trigger] self.materials@[i]).bind_group
                == BindGroup::Material(i as usize)
    }
}

/// A mesh without faces is a mesh all the same: it has no elements, and its
/// index buffer is empty.
pub proof fn lemma_mesh_without_faces(mesh: Mesh, source: ObjModel, slot: int)
    requires
        mesh.is_built_from(source, slot),
        source.mesh.indices@.len() == 0,
    ensures
        mesh.num_elements == 0,
        mesh.index_buffer.contents@.len() == 0,
{
}

/// A mesh whose file names no material uses the first one.
pub proof fn lemma_unnamed_material_is_first(mesh: Mesh, source: ObjModel, slot: int)
    requires
        mesh.is_built_from(source, slot),
        source.mesh.material_id is None,
    ensures
        mesh.material == 0,
{
}

/// The vertex buffer of a mesh holds one record of the layout's stride for
/// each vertex, and its index buffer four bytes for each index.
pub proof fn lemma_buffer_sizes(mesh: Mesh, source: ObjModel, slot: int)
    requires
        mesh.is_built_from(source, slot),
    ensures
        mesh.vertex_buffer.contents@.len() == ModelVertex::layout().stride
            * source.mesh.vertex_count(),
        mesh.index_buffer.contents@.len() == 4 * source.mesh.indices@.len(),
{
}

impl ModelVertex {
    /// The words of attribute `a` of the record, in the order of the
    /// layout: position, texture coordinates, normal.
    pub open spec fn attribute_words(self, a: int) -> Seq<u32> {
        if a == 0 {
            self.position@
        } else if a == 1 {
            self.tex_coords@
        } else {
            self.normal@
        }
    }
}

/// In a packed vertex buffer every attribute lies where the layout says:
/// attribute `a` of vertex `i` fills the bytes from `i` strides plus the
/// attribute's offset, for the size of its format.
pub proof fn lemma_attributes_lie_at_their_offsets(
    vertices: Seq<ModelVertex>,
    bytes: Seq<u8>,
    i: int,
    a: int,
)
    requires
        is_memory_image(packed_words(vertices), bytes),
        0 <= i < vertices.len(),
        0 <= a < ModelVertex::layout().attributes.len(),
    ensures
        ({
            let layout = ModelVertex::layout();
            let start = layout.stride * i + layout.attributes[a].offset;
            let end = start + layout.attributes[a].format.spec_size();
            &&& 0 <= start <= end <= bytes.len()
            &&& is_memory_image(vertices[i].attribute_words(a), bytes.subrange(start, end))
        }),
{
    let words = packed_words(vertices);
    let vertex = vertices[i];
    let (from, to) = if a == 0 {
        (8 * i, 8 * i + 3)
    } else if a == 1 {
        (8 * i + 3, 8 * i + 5)
    } else {
        (8 * i + 5, 8 * i + 8)
    };
    assert forall|k: int| from <= k < to implies words[k] == vertex.words()[k - 8 * i] by {
        assert(k / 8 == i);
        assert(k % 8 == k - 8 * i);
    }
    assert(words.subrange(from, to) =~= vertex.attribute_words(a));
    lemma_memory_image_of_part(words, bytes, from, to);
}

/// A loaded model is numbered by position.
pub proof fn lemma_loaded_model_is_numbered(
    model: Model,
    obj_models: Seq<ObjModel>,
    obj_materials: Seq<ObjMaterial>,
    folder: Seq<char>,
)
    requires
        model.is_loaded_from(obj_models, obj_materials, folder),
    ensures
        model.is_numbered_by_position(),
{
}

} // verus!
