//! Vertex-attribute layout computation and the models of the buffer objects
//! (vertex array, vertex buffer, index buffer, uniform buffer).
//!
//! The layout computation is the one designed algorithm of the crate: given an
//! ordered list of attribute descriptors it derives each descriptor's byte
//! offset, the common stride, and one describe-attribute call per descriptor.

use vstd::prelude::*;

verus! {

/// Native identifier of the single-precision float element type.
pub const GL_FLOAT: u32 = 0x1406;
/// Native identifier of the 32-bit signed integer element type.
pub const GL_INT: u32 = 0x1404;
/// Native identifier of the signed byte element type.
pub const GL_BYTE: u32 = 0x1400;

/// Semantic element type of one vertex attribute: a scalar, vector or matrix
/// of float, int, or byte.
#[derive(Clone, Copy, Debug, PartialEq, Eq, Structural)]
pub enum VertexAttribType {
    Float,
    Float2,
    Float3,
    Float4,
    Mat3,
    Mat4,
    Int,
    Int2,
    Int3,
    Int4,
    Byte,
}

/// Byte size of one element of the given type.
pub open spec fn attrib_size_spec(vtype: VertexAttribType) -> u32 {
    match vtype {
        VertexAttribType::Float => 4,
        VertexAttribType::Float2 => 8,
        VertexAttribType::Float3 => 12,
        VertexAttribType::Float4 => 16,
        VertexAttribType::Mat3 => 36,
        VertexAttribType::Mat4 => 64,
        VertexAttribType::Int => 4,
        VertexAttribType::Int2 => 8,
        VertexAttribType::Int3 => 12,
        VertexAttribType::Int4 => 16,
        VertexAttribType::Byte => 1,
    }
}

/// Logical component count of one element of the given type.
pub open spec fn attrib_count_spec(vtype: VertexAttribType) -> u32 {
    match vtype {
        VertexAttribType::Float => 1,
        VertexAttribType::Float2 => 2,
        VertexAttribType::Float3 => 3,
        VertexAttribType::Float4 => 4,
        VertexAttribType::Mat3 => 9,
        VertexAttribType::Mat4 => 16,
        VertexAttribType::Int => 1,
        VertexAttribType::Int2 => 2,
        VertexAttribType::Int3 => 3,
        VertexAttribType::Int4 => 4,
        VertexAttribType::Byte => 1,
    }
}

/// Native component type that describes elements of the given type.
pub open spec fn attrib_gl_type_spec(vtype: VertexAttribType) -> u32 {
    match vtype {
        VertexAttribType::Float => GL_FLOAT,
        VertexAttribType::Float2 => GL_FLOAT,
        VertexAttribType::Float3 => GL_FLOAT,
        VertexAttribType::Float4 => GL_FLOAT,
        VertexAttribType::Mat3 => GL_FLOAT,
        VertexAttribType::Mat4 => GL_FLOAT,
        VertexAttribType::Int => GL_INT,
        VertexAttribType::Int2 => GL_INT,
        VertexAttribType::Int3 => GL_INT,
        VertexAttribType::Int4 => GL_INT,
        VertexAttribType::Byte => GL_BYTE,
    }
}

/// Whether the type belongs to the integer category, which must be described
/// through the integer-pointer variant of the describe-attribute call (no
/// implicit conversion to float).
pub open spec fn is_integer_attrib(vtype: VertexAttribType) -> bool {
    match vtype {
        VertexAttribType::Int => true,
        VertexAttribType::Int2 => true,
        VertexAttribType::Int3 => true,
        VertexAttribType::Int4 => true,
        VertexAttribType::Byte => true,
        _ => false,
    }
}

pub fn vertex_attrib_type_size(vtype: &VertexAttribType) -> (r: u32)
    ensures
        r == attrib_size_spec(*vtype),
{
    match vtype {
        VertexAttribType::Float => 4,
        VertexAttribType::Float2 => 4 * 2,
        VertexAttribType::Float3 => 4 * 3,
        VertexAttribType::Float4 => 4 * 4,
        VertexAttribType::Mat3 => 4 * 3 * 3,
        VertexAttribType::Mat4 => 4 * 4 * 4,
        VertexAttribType::Int => 4,
        VertexAttribType::Int2 => 4 * 2,
        VertexAttribType::Int3 => 4 * 3,
        VertexAttribType::Int4 => 4 * 4,
        VertexAttribType::Byte => 1,
    }
}

pub fn vertex_attrib_type_count(vtype: &VertexAttribType) -> (r: u32)
    ensures
        r == attrib_count_spec(*vtype),
{
    match vtype {
        VertexAttribType::Float => 1,
        VertexAttribType::Float2 => 2,
        VertexAttribType::Float3 => 3,
        VertexAttribType::Float4 => 4,
        VertexAttribType::Mat3 => 3 * 3,
        VertexAttribType::Mat4 => 4 * 4,
        VertexAttribType::Int => 1,
        VertexAttribType::Int2 => 2,
        VertexAttribType::Int3 => 3,
        VertexAttribType::Int4 => 4,
        VertexAttribType::Byte => 1,
    }
}

pub fn vertex_attrib_type_gl(vtype: &VertexAttribType) -> (r: u32)
    ensures
        r == attrib_gl_type_spec(*vtype),
        (r == GL_FLOAT) <==> !is_integer_attrib(*vtype),
{
    match vtype {
        VertexAttribType::Float => GL_FLOAT,
        VertexAttribType::Float2 => GL_FLOAT,
        VertexAttribType::Float3 => GL_FLOAT,
        VertexAttribType::Float4 => GL_FLOAT,
        VertexAttribType::Mat3 => GL_FLOAT,
        VertexAttribType::Mat4 => GL_FLOAT,
        VertexAttribType::Int => GL_INT,
        VertexAttribType::Int2 => GL_INT,
        VertexAttribType::Int3 => GL_INT,
        VertexAttribType::Int4 => GL_INT,
        VertexAttribType::Byte => GL_BYTE,
    }
}

/// One vertex attribute of an interleaved vertex record: its element type, a
/// normalize flag, a display name for the end user, and the derived byte size
/// and byte offset.
pub struct VertexAttrib {
    pub size: u32,
    pub offset: u32,
    pub vtype: VertexAttribType,
    pub normalize: bool,
    pub name: String,
}

impl VertexAttrib {
    /// Builds a descriptor for one attribute.  The byte size is derived from
    /// the element type; the offset starts at 0 and is assigned by
    /// [`plan_vertex_attribs`].
    pub fn new(vtype: VertexAttribType, normalize: bool, name: String) -> (r: Self)
        ensures
            r.size == attrib_size_spec(vtype),
            r.offset == 0,
            r.vtype == vtype,
            r.normalize == normalize,
            r.name == name,
    {
        Self { size: vertex_attrib_type_size(&vtype), offset: 0, vtype, normalize, name }
    }
}

/// Sum of the byte sizes of all descriptors in the list.
pub open spec fn total_size_spec(attribs: Seq<VertexAttrib>) -> int
    decreases attribs.len(),
{
    if attribs.len() == 0 {
        0
    } else {
        total_size_spec(attribs.drop_last()) + attribs.last().size
    }
}

/// An empty descriptor list sums to 0: its layout has stride 0 and describes
/// no attribute slot.
pub proof fn lemma_empty_layout()
    ensures
        total_size_spec(Seq::<VertexAttrib>::empty()) == 0,
{
}

/// Adding one descriptor to the end of the list adds its byte size to the sum.
pub proof fn lemma_total_size_take_succ(attribs: Seq<VertexAttrib>, i: int)
    requires
        0 <= i < attribs.len(),
    ensures
        total_size_spec(attribs.take(i + 1)) == total_size_spec(attribs.take(i)) + attribs[i].size,
{
    assert(attribs.take(i + 1).drop_last() =~= attribs.take(i));
    assert(attribs.take(i + 1).last() == attribs[i]);
}

/// The sum over a list is never negative.
pub proof fn lemma_total_size_nonneg(attribs: Seq<VertexAttrib>)
    ensures
        total_size_spec(attribs) >= 0,
    decreases attribs.len(),
{
    if attribs.len() > 0 {
        lemma_total_size_nonneg(attribs.drop_last());
    }
}

/// The sum over a prefix never exceeds the sum over the whole list.
pub proof fn lemma_total_size_take_le(attribs: Seq<VertexAttrib>, i: int)
    requires
        0 <= i <= attribs.len(),
    ensures
        total_size_spec(attribs.take(i)) <= total_size_spec(attribs),
    decreases attribs.len() - i,
{
    if i < attribs.len() {
        lemma_total_size_take_succ(attribs, i);
        lemma_total_size_take_le(attribs, i + 1);
    } else {
        assert(attribs.take(i) =~= attribs);
    }
}

/// One describe-attribute call: which slot it fills, how many components of
/// which native type it reads, whether it must go through the integer-pointer
/// variant, and where its data lies inside a vertex record.
#[derive(Clone, Copy, Debug, PartialEq, Eq, Structural)]
pub struct AttribCommand {
    pub index: u32,
    pub count: u32,
    pub gl_type: u32,
    pub integer_path: bool,
    pub normalize: bool,
    pub stride: u32,
    pub offset: u32,
}

/// The computed interleaved layout: the stride shared by every attribute and
/// one describe-attribute call per descriptor, in input order.  The embedding
/// application performs each call against the currently bound vertex array
/// and then marks the described slot enabled.
pub struct AttribLayout {
    pub stride: u32,
    pub commands: Vec<AttribCommand>,
}

/// Derives the packed interleaved layout of the given descriptors, in input
/// order: descriptor `i` is assigned the byte offset equal to the sum of the
/// byte sizes of the descriptors before it, the stride is the sum of all byte
/// sizes, and one describe-attribute call is produced per descriptor, filling
/// slot `i`.  Integer-category element types are routed to the
/// integer-pointer variant.  An empty list yields stride 0 and no calls.
pub fn plan_vertex_attribs(vertex_attribs: &mut Vec<VertexAttrib>) -> (plan: AttribLayout)
    requires
        old(vertex_attribs)@.len() <= u32::MAX,
        total_size_spec(old(vertex_attribs)@) <= u32::MAX,
    ensures
        plan.stride == total_size_spec(old(vertex_attribs)@),
        plan.commands@.len() == old(vertex_attribs)@.len(),
        final(vertex_attribs)@.len() == old(vertex_attribs)@.len(),
        forall|i: int| 0 <= i < old(vertex_attribs)@.len() ==> {
            let a0 = old(vertex_attribs)@[i];
            let a = #[trigger] final(vertex_attribs)@[i];
            &&& a.offset == total_size_spec(old(vertex_attribs)@.take(i))
            &&& a.size == a0.size
            &&& a.vtype == a0.vtype
            &&& a.normalize == a0.normalize
            &&& a.name == a0.name
        },
        forall|i: int| 0 <= i < old(vertex_attribs)@.len() ==> {
            let a0 = old(vertex_attribs)@[i];
            let c = #[trigger] plan.commands@[i];
            &&& c.index == i
            &&& c.count == attrib_count_spec(a0.vtype)
            &&& c.gl_type == attrib_gl_type_spec(a0.vtype)
            &&& c.integer_path == is_integer_attrib(a0.vtype)
            &&& c.normalize == a0.normalize
            &&& c.stride == plan.stride
            &&& c.offset == total_size_spec(old(vertex_attribs)@.take(i))
        },
{
    let ghost s0 = vertex_attribs@;
    let n = vertex_attribs.len();

    let mut offset: u32 = 0;
    let mut i: usize = 0;
    while i < n
        invariant
            n == s0.len(),
            vertex_attribs@.len() == n,
            0 <= i <= n,
            total_size_spec(s0) <= u32::MAX,
            offset == total_size_spec(s0.take(i as int)),
            forall|j: int| 0 <= j < i ==> {
                let a0 = s0[j];
                let a = #[trigger] vertex_attribs@[j];
                &&& a.offset == total_size_spec(s0.take(j))
                &&& a.size == a0.size
                &&& a.vtype == a0.vtype
                &&& a.normalize == a0.normalize
                &&& a.name == a0.name
            },
            forall|j: int| i <= j < n ==> vertex_attribs@[j] == s0[j],
        decreases n - i,
    {
        proof {
            lemma_total_size_take_succ(s0, i as int);
            lemma_total_size_take_le(s0, i as int + 1);
            lemma_total_size_nonneg(s0.take(i as int));
        }
        let size = vertex_attribs[i].size;
        vertex_attribs[i].offset = offset;
        offset = offset + size;
        i = i + 1;
    }
    proof {
        assert(s0.take(n as int) =~= s0);
    }
    let stride = offset;

    let mut commands: Vec<AttribCommand> = Vec::new();
    let mut k: usize = 0;
    while k < n
        invariant
            n == s0.len(),
            n <= u32::MAX,
            vertex_attribs@.len() == n,
            0 <= k <= n,
            stride == total_size_spec(s0),
            forall|j: int| 0 <= j < n ==> {
                let a0 = s0[j];
                let a = #[trigger] vertex_attribs@[j];
                &&& a.offset == total_size_spec(s0.take(j))
                &&& a.size == a0.size
                &&& a.vtype == a0.vtype
                &&& a.normalize == a0.normalize
                &&& a.name == a0.name
            },
            commands@.len() == k,
            forall|j: int| 0 <= j < k ==> {
                let a0 = s0[j];
                let c = #[trigger] commands@[j];
                &&& c.index == j
                &&& c.count == attrib_count_spec(a0.vtype)
                &&& c.gl_type == attrib_gl_type_spec(a0.vtype)
                &&& c.integer_path == is_integer_attrib(a0.vtype)
                &&& c.normalize == a0.normalize
                &&& c.stride == stride
                &&& c.offset == total_size_spec(s0.take(j))
            },
        decreases n - k,
    {
        let attrib = &vertex_attribs[k];
        let gl_type = vertex_attrib_type_gl(&attrib.vtype);
        let command = AttribCommand {
            index: k as u32,
            count: vertex_attrib_type_count(&attrib.vtype),
            gl_type,
            integer_path: gl_type != GL_FLOAT,
            normalize: attrib.normalize,
            stride,
            offset: attrib.offset,
        };
        commands.push(command);
        k = k + 1;
    }

    AttribLayout { stride, commands }
}

/// Size in bytes of the contents of a vector: element count times element
/// size.
pub fn calc_bytes_size<T>(v: &Vec<T>) -> (r: usize)
    requires
        v@.len() * vstd::layout::size_of::<T>() <= usize::MAX,
    ensures
        r == v@.len() * vstd::layout::size_of::<T>(),
{
    v.len() * core::mem::size_of::<T>()
}

/// Native identifier of the vertex-buffer binding target.
pub const GL_ARRAY_BUFFER: u32 = 0x8892;
/// Native identifier of the index-buffer binding target.
pub const GL_ELEMENT_ARRAY_BUFFER: u32 = 0x8893;
/// Native identifier of the uniform-buffer binding target.
pub const GL_UNIFORM_BUFFER: u32 = 0x8A11;
/// Usage hint for a buffer whose contents are supplied once, at creation.
pub const GL_STATIC_DRAW: u32 = 0x88E4;
/// Usage hint for a buffer whose contents are rewritten later.
pub const GL_DYNAMIC_DRAW: u32 = 0x88E8;

/// Usage hint for a buffer allocation: immutable-usage exactly when initial
/// data is supplied at creation, mutable-usage otherwise.
pub open spec fn buffer_usage_spec(has_initial_data: bool) -> u32 {
    if has_initial_data {
        GL_STATIC_DRAW
    } else {
        GL_DYNAMIC_DRAW
    }
}

pub fn buffer_usage(has_initial_data: bool) -> (r: u32)
    ensures
        r == buffer_usage_spec(has_initial_data),
{
    if has_initial_data {
        GL_STATIC_DRAW
    } else {
        GL_DYNAMIC_DRAW
    }
}

/// One allocate-storage call: the binding target, the byte size to allocate,
/// and the usage hint.
#[derive(Clone, Copy, Debug, PartialEq, Eq, Structural)]
pub struct BufferAlloc {
    pub target: u32,
    pub size: isize,
    pub usage: u32,
}

/// One write-sub-range call: the binding target, the byte offset into the
/// allocation, and the byte size to overwrite.
#[derive(Clone, Copy, Debug, PartialEq, Eq, Structural)]
pub struct BufferWrite {
    pub target: u32,
    pub offset: isize,
    pub size: isize,
}

/// Handle of one vertex-array object.  The native identifier is generated by
/// the driver and handed in by the embedding application.
pub struct VertexArray {
    pub id: u32,
}

impl VertexArray {
    pub fn new(id: u32) -> (r: Self)
        ensures
            r.id == id,
    {
        Self { id }
    }
}

/// Handle of one vertex buffer.
pub struct VertexBuffer {
    pub id: u32,
}

impl VertexBuffer {
    pub fn new(id: u32) -> (r: Self)
        ensures
            r.id == id,
    {
        Self { id }
    }

    /// The allocate-storage call for this buffer: vertex-buffer target, the
    /// given byte size, immutable usage exactly when initial data is supplied.
    pub fn alloc_call(&self, size: isize, has_initial_data: bool) -> (r: BufferAlloc)
        ensures
            r.target == GL_ARRAY_BUFFER,
            r.size == size,
            r.usage == buffer_usage_spec(has_initial_data),
    {
        BufferAlloc { target: GL_ARRAY_BUFFER, size, usage: buffer_usage(has_initial_data) }
    }

    /// The write-sub-range call for this buffer.
    pub fn write_call(&self, size: isize, offset: isize) -> (r: BufferWrite)
        ensures
            r.target == GL_ARRAY_BUFFER,
            r.offset == offset,
            r.size == size,
    {
        BufferWrite { target: GL_ARRAY_BUFFER, offset, size }
    }
}

/// Handle of one index buffer.
pub struct IndexBuffer {
    pub id: u32,
}

impl IndexBuffer {
    pub fn new(id: u32) -> (r: Self)
        ensures
            r.id == id,
    {
        Self { id }
    }

    /// The allocate-storage call for this buffer: index-buffer target, the
    /// given byte size, immutable usage exactly when initial data is supplied.
    pub fn alloc_call(&self, size: isize, has_initial_data: bool) -> (r: BufferAlloc)
        ensures
            r.target == GL_ELEMENT_ARRAY_BUFFER,
            r.size == size,
            r.usage == buffer_usage_spec(has_initial_data),
    {
        BufferAlloc { target: GL_ELEMENT_ARRAY_BUFFER, size, usage: buffer_usage(has_initial_data) }
    }

    /// The write-sub-range call for this buffer.
    pub fn write_call(&self, size: isize, offset: isize) -> (r: BufferWrite)
        ensures
            r.target == GL_ELEMENT_ARRAY_BUFFER,
            r.offset == offset,
            r.size == size,
    {
        BufferWrite { target: GL_ELEMENT_ARRAY_BUFFER, offset, size }
    }
}

/// One bind-to-indexed-binding-point call, which attaches a buffer to a slot
/// of the global uniform-buffer binding namespace.
#[derive(Clone, Copy, Debug, PartialEq, Eq, Structural)]
pub struct BufferBaseBinding {
    pub target: u32,
    pub slot: u32,
    pub id: u32,
}

/// The creation calls of a uniform buffer, in order: first the new buffer is
/// attached to its binding slot (which also binds it to the uniform-buffer
/// target), then its storage is allocated, so that the allocation hits this
/// buffer and not whichever buffer was bound before.
pub struct UniformBufferSetup {
    pub base: BufferBaseBinding,
    pub alloc: BufferAlloc,
}

/// Handle of one uniform buffer together with the binding slot it was created
/// for.  The slot is re-bound before every write, since several uniform
/// buffers share the global binding-point namespace.
pub struct UniforBuffer {
    pub id: u32,
    pub slot: u32,
}

impl UniforBuffer {
    pub fn new(id: u32, binding: u32) -> (r: Self)
        ensures
            r.id == id,
            r.slot == binding,
    {
        Self { id, slot: binding }
    }

    /// The creation plan for this buffer, performed in the order the
    /// [`UniformBufferSetup`] states: attach the buffer to its binding slot
    /// first, then allocate `size` bytes of always-mutable storage (contents
    /// arrive through later writes).
    pub fn setup_calls(&self, size: isize) -> (r: UniformBufferSetup)
        ensures
            r.base.target == GL_UNIFORM_BUFFER,
            r.base.slot == self.slot,
            r.base.id == self.id,
            r.alloc.target == GL_UNIFORM_BUFFER,
            r.alloc.size == size,
            r.alloc.usage == GL_DYNAMIC_DRAW,
    {
        UniformBufferSetup {
            base: self.base_binding(),
            alloc: BufferAlloc { target: GL_UNIFORM_BUFFER, size, usage: GL_DYNAMIC_DRAW },
        }
    }

    /// The call that re-attaches this buffer to its binding slot.
    pub fn base_binding(&self) -> (r: BufferBaseBinding)
        ensures
            r.target == GL_UNIFORM_BUFFER,
            r.slot == self.slot,
            r.id == self.id,
    {
        BufferBaseBinding { target: GL_UNIFORM_BUFFER, slot: self.slot, id: self.id }
    }

    /// The write-sub-range call for this buffer.
    pub fn write_call(&self, size: isize, offset: isize) -> (r: BufferWrite)
        ensures
            r.target == GL_UNIFORM_BUFFER,
            r.offset == offset,
            r.size == size,
    {
        BufferWrite { target: GL_UNIFORM_BUFFER, offset, size }
    }
}

} // verus!
