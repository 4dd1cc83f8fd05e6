//! The records that describe the binary buffer: buffers, buffer views,
//! accessors and the mesh that ties accessors to their roles. Records refer
//! to one another by their position in the document's lists, which only grow.

use vstd::prelude::*;
use crate::extent::Bounds;

verus! {

/// The numeric type of an accessor's components.
#[derive(Clone, Copy, Debug, PartialEq, Eq, Structural)]
pub enum ComponentType {
    U16,
    F32,
}

/// How many components one element of an accessor has.
#[derive(Clone, Copy, Debug, PartialEq, Eq, Structural)]
pub enum Shape {
    Scalar,
    Vec3,
    Vec4,
}

/// What a buffer view is bound as.
#[derive(Clone, Copy, Debug, PartialEq, Eq, Structural)]
pub enum Target {
    ArrayBuffer,
    ElementArrayBuffer,
}

/// How a primitive's vertices are drawn.
#[derive(Clone, Copy, Debug, PartialEq, Eq, Structural)]
pub enum Mode {
    Triangles,
}

/// The role of a per-vertex attribute.
#[derive(Clone, Copy, Debug, PartialEq, Eq, Structural)]
pub enum Semantic {
    Position,
    Color,
    Barycentric,
}

/// Why a layout was refused.
#[derive(Clone, Copy, Debug, PartialEq, Eq, Structural)]
pub enum LayoutError {
    /// There is no vertex to describe.
    NoVertices,
    /// The binary buffer would be longer than a 32-bit length can say.
    TooLarge,
    /// A record refers to a record that does not exist, or reaches past the
    /// end of the byte range it refers to.
    OutOfBounds,
    /// The attribute accessors of a primitive do not hold the same number
    /// of elements.
    CountMismatch,
}

/// The binary blob as a whole.
#[derive(Clone, Copy, Debug, PartialEq, Eq)]
pub struct Buffer {
    pub byte_length: u32,
}

/// A byte range of a buffer, with the distance between elements where the
/// range holds interleaved data.
#[derive(Clone, Copy, Debug, PartialEq, Eq)]
pub struct BufferView {
    pub buffer: u32,
    pub byte_offset: u32,
    pub byte_length: u32,
    pub byte_stride: Option<u32>,
    pub target: Target,
}

/// A typed, counted view into a buffer view.
#[derive(Clone, Copy, Debug, PartialEq, Eq)]
pub struct Accessor {
    pub buffer_view: u32,
    pub byte_offset: u32,
    pub count: u32,
    pub component_type: ComponentType,
    pub shape: Shape,
    pub bounds: Option<Bounds>,
}

/// One drawable unit: an accessor for each attribute, one for the indices,
/// and the draw mode.
#[derive(Clone, Copy, Debug, PartialEq, Eq)]
pub struct Primitive {
    pub position: u32,
    pub color: u32,
    pub barycentric: u32,
    pub indices: u32,
    pub mode: Mode,
}

/// An ordered list of primitives.
#[derive(Clone, Debug, PartialEq, Eq)]
pub struct Mesh {
    pub primitives: Vec<Primitive>,
}

/// The root of the description.
#[derive(Clone, Debug, PartialEq, Eq)]
pub struct Document {
    pub buffers: Vec<Buffer>,
    pub buffer_views: Vec<BufferView>,
    pub accessors: Vec<Accessor>,
    pub meshes: Vec<Mesh>,
}

/// Appends `item` to `list` and returns the position it got, which stays
/// its position for good: lists only grow.
pub fn push_index<T>(list: &mut Vec<T>, item: T) -> (index: u32)
    requires
        old(list)@.len() <= u32::MAX,
    ensures
        index == old(list)@.len(),
        final(list)@ == old(list)@.push(item),
{
    let index = list.len() as u32;
    list.push(item);
    index
}

impl Semantic {
    /// The name under which the attribute is listed in a primitive.
    pub open spec fn spec_name(self) -> Seq<char> {
        match self {
            Semantic::Position => "POSITION"@,
            Semantic::Color => "COLOR_0"@,
            Semantic::Barycentric => "_BARYCENTRIC"@,
        }
    }

    /// The name under which the attribute is listed in a primitive.
    pub fn name(self) -> (s: &'static str)
        ensures
            s@ == self.spec_name(),
    {
        match self {
            Semantic::Position => "POSITION",
            Semantic::Color => "COLOR_0",
            Semantic::Barycentric => "_BARYCENTRIC",
        }
    }
}

impl ComponentType {
    /// Bytes taken by one component.
    pub open spec fn spec_size(self) -> u32 {
        match self {
            ComponentType::U16 => 2,
            ComponentType::F32 => 4,
        }
    }

    /// Bytes taken by one component.
    #[verifier::when_used_as_spec(spec_size)]
    pub fn size(self) -> (n: u32)
        ensures
            n == self.spec_size(),
    {
        match self {
            ComponentType::U16 => 2,
            ComponentType::F32 => 4,
        }
    }
}

impl Shape {
    /// Components in one element.
    pub open spec fn spec_arity(self) -> u32 {
        match self {
            Shape::Scalar => 1,
            Shape::Vec3 => 3,
            Shape::Vec4 => 4,
        }
    }

    /// Components in one element.
    #[verifier::when_used_as_spec(spec_arity)]
    pub fn arity(self) -> (n: u32)
        ensures
            n == self.spec_arity(),
    {
        match self {
            Shape::Scalar => 1,
            Shape::Vec3 => 3,
            Shape::Vec4 => 4,
        }
    }
}

impl BufferView {
    /// The byte just past the view, counted from the start of its buffer.
    pub open spec fn end(self) -> int {
        self.byte_offset + self.byte_length
    }

    /// The view names a buffer of `buffers` and lies inside it.
    pub open spec fn within(self, buffers: Seq<Buffer>) -> bool {
        &&& self.buffer < buffers.len()
        &&& self.end() <= buffers[self.buffer as int].byte_length
    }
}

impl Accessor {
    /// Bytes taken by one element.
    pub open spec fn element_size(self) -> int {
        self.component_type.spec_size() * self.shape.spec_arity()
    }

    /// The accessor's offset plus the bytes of all its elements.
    pub open spec fn extent(self) -> int {
        self.byte_offset + self.element_size() * self.count
    }

    /// The accessor names a view of `views` and its extent fits that view.
    pub open spec fn within(self, views: Seq<BufferView>) -> bool {
        &&& self.buffer_view < views.len()
        &&& self.extent() <= views[self.buffer_view as int].byte_length
    }
}

impl LayoutError {
    /// What went wrong, in words that name the stage.
    pub open spec fn spec_message(self) -> Seq<char> {
        match self {
            LayoutError::NoVertices => "layout: there is no vertex to describe"@,
            LayoutError::TooLarge => "layout: the buffer is longer than 32 bits can say"@,
            LayoutError::OutOfBounds => "layout: a record reaches out of bounds"@,
            LayoutError::CountMismatch => "layout: the attributes differ in their counts"@,
        }
    }

    /// What went wrong, in words that name the stage.
    pub fn message(self) -> (s: &'static str)
        ensures
            s@ == self.spec_message(),
    {
        match self {
            LayoutError::NoVertices => "layout: there is no vertex to describe",
            LayoutError::TooLarge => "layout: the buffer is longer than 32 bits can say",
            LayoutError::OutOfBounds => "layout: a record reaches out of bounds",
            LayoutError::CountMismatch => "layout: the attributes differ in their counts",
        }
    }
}

impl Primitive {
    /// Every accessor that the primitive names is one of `accessors`.
    pub open spec fn resolves(self, accessors: Seq<Accessor>) -> bool {
        &&& self.position < accessors.len()
        &&& self.color < accessors.len()
        &&& self.barycentric < accessors.len()
        &&& self.indices < accessors.len()
    }

    /// The three attribute accessors hold one element per vertex: the same
    /// number each.
    pub open spec fn counts_agree(self, accessors: Seq<Accessor>) -> bool {
        &&& accessors[self.position as int].count == accessors[self.color as int].count
        &&& accessors[self.position as int].count == accessors[self.barycentric as int].count
    }

    /// The primitive names accessors of `accessors` only, and its
    /// attributes agree in their counts.
    pub open spec fn within(self, accessors: Seq<Accessor>) -> bool {
        self.resolves(accessors) && self.counts_agree(accessors)
    }

    /// The accessor that plays the role `semantic`.
    pub open spec fn spec_attribute(self, semantic: Semantic) -> u32 {
        match semantic {
            Semantic::Position => self.position,
            Semantic::Color => self.color,
            Semantic::Barycentric => self.barycentric,
        }
    }

    /// The accessor that plays the role `semantic`.
    #[verifier::when_used_as_spec(spec_attribute)]
    pub fn attribute(self, semantic: Semantic) -> (index: u32)
        ensures
            index == self.spec_attribute(semantic),
    {
        match semantic {
            Semantic::Position => self.position,
            Semantic::Color => self.color,
            Semantic::Barycentric => self.barycentric,
        }
    }
}

impl Mesh {
    /// Every primitive of the mesh names accessors of `accessors` only.
    pub open spec fn within(self, accessors: Seq<Accessor>) -> bool {
        forall|i: int| 0 <= i < self.primitives@.len() ==> (#[trigger] self.primitives@[i]).within(accessors)
    }
}

impl Document {
    /// Every reference in the document names a record that exists, every
    /// view lies inside its buffer, every accessor's extent fits its view,
    /// and every position in a list fits a 32-bit index.
    pub open spec fn wf(self) -> bool {
        &&& self.buffers@.len() <= u32::MAX
        &&& self.buffer_views@.len() <= u32::MAX
        &&& self.accessors@.len() <= u32::MAX
        &&& self.meshes@.len() <= u32::MAX
        &&& forall|i: int|
            0 <= i < self.buffer_views@.len() ==> (#[trigger] self.buffer_views@[i]).within(
                self.buffers@,
            )
        &&& forall|i: int|
            0 <= i < self.accessors@.len() ==> (#[trigger] self.accessors@[i]).within(
                self.buffer_views@,
            )
        &&& forall|i: int|
            0 <= i < self.meshes@.len() ==> (#[trigger] self.meshes@[i]).within(self.accessors@)
    }

    /// A document with no records.
    pub fn new() -> (doc: Document)
        ensures
            doc.wf(),
            doc.buffers@.len() == 0,
            doc.buffer_views@.len() == 0,
            doc.accessors@.len() == 0,
            doc.meshes@.len() == 0,
    {
        Document {
            buffers: Vec::new(),
            buffer_views: Vec::new(),
            accessors: Vec::new(),
            meshes: Vec::new(),
        }
    }

    /// Appends a buffer and returns its index.
    pub fn push_buffer(&mut self, buffer: Buffer) -> (index: u32)
        requires
            old(self).wf(),
            old(self).buffers@.len() < u32::MAX,
        ensures
            final(self).wf(),
            index == old(self).buffers@.len(),
            final(self).buffers@ == old(self).buffers@.push(buffer),
            final(self).buffer_views == old(self).buffer_views,
            final(self).accessors == old(self).accessors,
            final(self).meshes == old(self).meshes,
    {
        push_index(&mut self.buffers, buffer)
    }

    /// Appends a view and returns its index, or refuses it and leaves the
    /// document as it was where the view does not lie inside a buffer of
    /// the document.
    pub fn push_view(&mut self, view: BufferView) -> (r: Result<u32, LayoutError>)
        requires
            old(self).wf(),
            old(self).buffer_views@.len() < u32::MAX,
        ensures
            final(self).wf(),
            view.within(old(self).buffers@) ==> {
                &&& r == Ok::<u32, LayoutError>(old(self).buffer_views@.len() as u32)
                &&& final(self).buffer_views@ == old(self).buffer_views@.push(view)
                &&& final(self).buffers == old(self).buffers
                &&& final(self).accessors == old(self).accessors
                &&& final(self).meshes == old(self).meshes
            },
            !view.within(old(self).buffers@) ==> {
                &&& r == Err::<u32, LayoutError>(LayoutError::OutOfBounds)
                &&& *final(self) == *old(self)
            },
    {
        if view.buffer as usize >= self.buffers.len() {
            return Err(LayoutError::OutOfBounds);
        }
        let end: u64 = view.byte_offset as u64 + view.byte_length as u64;
        if end > self.buffers[view.buffer as usize].byte_length as u64 {
            return Err(LayoutError::OutOfBounds);
        }
        Ok(push_index(&mut self.buffer_views, view))
    }

    /// Appends an accessor and returns its index, or refuses it and leaves
    /// the document as it was where the accessor's extent does not fit a
    /// view of the document.
    pub fn push_accessor(&mut self, accessor: Accessor) -> (r: Result<u32, LayoutError>)
        requires
            old(self).wf(),
            old(self).accessors@.len() < u32::MAX,
        ensures
            final(self).wf(),
            accessor.within(old(self).buffer_views@) ==> {
                &&& r == Ok::<u32, LayoutError>(old(self).accessors@.len() as u32)
                &&& final(self).accessors@ == old(self).accessors@.push(accessor)
                &&& final(self).buffers == old(self).buffers
                &&& final(self).buffer_views == old(self).buffer_views
                &&& final(self).meshes == old(self).meshes
            },
            !accessor.within(old(self).buffer_views@) ==> {
                &&& r == Err::<u32, LayoutError>(LayoutError::OutOfBounds)
                &&& *final(self) == *old(self)
            },
    {
        if accessor.buffer_view as usize >= self.buffer_views.len() {
            return Err(LayoutError::OutOfBounds);
        }
        let size: u64 = accessor.component_type.size() as u64;
        let arity: u64 = accessor.shape.arity() as u64;
        assert(size * arity <= 16) by (nonlinear_arith)
            requires
                0 <= size <= 4,
                0 <= arity <= 4,
        ;
        let element: u64 = size * arity;
        let count: u64 = accessor.count as u64;
        assert(element * count <= 16 * 0xffff_ffff) by (nonlinear_arith)
            requires
                0 <= element <= 16,
                0 <= count <= 0xffff_ffff,
        ;
        let extent: u64 = accessor.byte_offset as u64 + element * count;
        if extent > self.buffer_views[accessor.buffer_view as usize].byte_length as u64 {
            return Err(LayoutError::OutOfBounds);
        }
        Ok(push_index(&mut self.accessors, accessor))
    }

    /// Appends a mesh of one primitive and returns its index, or refuses it
    /// and leaves the document as it was where the primitive names an
    /// accessor that the document does not hold, or attribute accessors of
    /// different counts.
    pub fn push_mesh(&mut self, primitive: Primitive) -> (r: Result<u32, LayoutError>)
        requires
            old(self).wf(),
            old(self).meshes@.len() < u32::MAX,
        ensures
            final(self).wf(),
            primitive.within(old(self).accessors@) ==> {
                &&& r == Ok::<u32, LayoutError>(old(self).meshes@.len() as u32)
                &&& final(self).meshes@.len() == old(self).meshes@.len() + 1
                &&& final(self).meshes@.take(old(self).meshes@.len() as int) == old(self).meshes@
                &&& final(self).meshes@.last().primitives@ == seq![primitive]
                &&& final(self).buffers == old(self).buffers
                &&& final(self).buffer_views == old(self).buffer_views
                &&& final(self).accessors == old(self).accessors
            },
            !primitive.resolves(old(self).accessors@) ==> {
                &&& r == Err::<u32, LayoutError>(LayoutError::OutOfBounds)
                &&& *final(self) == *old(self)
            },
            primitive.resolves(old(self).accessors@) && !primitive.counts_agree(old(self).accessors@)
                ==> {
                &&& r == Err::<u32, LayoutError>(LayoutError::CountMismatch)
                &&& *final(self) == *old(self)
            },
    {
        let n = self.accessors.len();
        if primitive.position as usize >= n || primitive.color as usize >= n
            || primitive.barycentric as usize >= n || primitive.indices as usize >= n {
            return Err(LayoutError::OutOfBounds);
        }
        let count = self.accessors[primitive.position as usize].count;
        if self.accessors[primitive.color as usize].count != count
            || self.accessors[primitive.barycentric as usize].count != count {
            return Err(LayoutError::CountMismatch);
        }
        let mut primitives: Vec<Primitive> = Vec::new();
        primitives.push(primitive);
        assert(primitives@ =~= seq![primitive]);
        let index = push_index(&mut self.meshes, Mesh { primitives });
        assert(self.meshes@.take(old(self).meshes@.len() as int) =~= old(self).meshes@);
        Ok(index)
    }
}

} // verus!
