use vstd::prelude::*;

verus! {

/// Vertices in the one triangle.
pub const VERTEX_COUNT: u32 = 3;

/// Bytes in one coordinate (a 32-bit float).
pub const COORD_BYTES: u32 = 4;

/// Name of the vertex shader's position input.
pub const POSITION_ATTRIBUTE: &'static str = "position";

/// A second name looked up for an attribute location after the program is
/// put in use; the answer is not used. It names the fragment shader's
/// output, not a vertex input, and is kept as it is until someone decides
/// whether the lookup is wanted.
pub const DISCARDED_LOOKUP_NAME: &'static str = "out_color";

/// A call of the geometry upload. The caller keeps the names that the
/// generating calls and the position lookup return and uses them in the
/// calls that follow.
#[derive(Clone, Copy, Debug, PartialEq, Eq, Structural)]
pub enum UploadStep {
    /// Generate one vertex array object.
    GenVertexArray,
    /// Bind the generated vertex array object.
    BindVertexArray,
    /// Generate one buffer object.
    GenBuffer,
    /// Bind the generated buffer as the array buffer.
    BindBuffer,
    /// Fill the array buffer with the triangle, this many bytes, static draw.
    BufferData(u32),
    /// Put the linked program in use.
    UseProgram,
    /// Look up `DISCARDED_LOOKUP_NAME` and drop the answer.
    LookupDiscarded,
    /// Look up the location of `POSITION_ATTRIBUTE`.
    LookupPosition,
    /// Enable the position attribute.
    EnableAttribute,
    /// Describe the position attribute: this many float coordinates per
    /// vertex, not normalized, tightly packed, from offset zero.
    AttributePointer(u32),
}

/// How the uploaded triangle's coordinates are laid out: tightly packed,
/// `components` coordinates per vertex, from offset zero.
#[derive(Clone, Copy, Debug, PartialEq, Eq, Structural)]
pub struct VertexLayout {
    components: u32,
}

impl VertexLayout {
    /// A layout holds two or three coordinates per vertex.
    pub open spec fn wf(&self) -> bool {
        self.spec_components() == 2 || self.spec_components() == 3
    }

    pub closed spec fn spec_components(&self) -> nat {
        self.components as nat
    }

    /// The layout for vertices of `components` coordinates; `None` unless
    /// that is 2 or 3.
    pub fn new(components: u32) -> (r: Option<VertexLayout>)
        ensures
            r is Some <==> (components == 2 || components == 3),
            r matches Some(l) ==> l.wf() && l.spec_components() == components,
    {
        if components == 2 || components == 3 {
            Some(VertexLayout { components })
        } else {
            None
        }
    }

    /// Coordinates per vertex, as the attribute pointer is described with.
    pub fn components(&self) -> (r: u32)
        ensures
            r == self.spec_components(),
    {
        self.components
    }

    /// Coordinates in the whole triangle.
    pub fn coordinate_count(&self) -> (r: u32)
        requires
            self.wf(),
        ensures
            r == VERTEX_COUNT * self.spec_components(),
    {
        VERTEX_COUNT * self.components
    }

    /// Size of the vertex buffer upload, in bytes.
    pub fn buffer_bytes(&self) -> (r: u32)
        requires
            self.wf(),
        ensures
            r == VERTEX_COUNT * self.spec_components() * COORD_BYTES,
    {
        VERTEX_COUNT * self.components * COORD_BYTES
    }
}

/// The calls of the geometry upload, in order.
pub open spec fn upload_spec(layout: VertexLayout) -> Seq<UploadStep> {
    seq![
        UploadStep::GenVertexArray,
        UploadStep::BindVertexArray,
        UploadStep::GenBuffer,
        UploadStep::BindBuffer,
        UploadStep::BufferData(
            (VERTEX_COUNT * layout.spec_components() * COORD_BYTES) as u32,
        ),
        UploadStep::UseProgram,
        UploadStep::LookupDiscarded,
        UploadStep::LookupPosition,
        UploadStep::EnableAttribute,
        UploadStep::AttributePointer(layout.spec_components() as u32),
    ]
}

/// The calls that upload the triangle laid out by `layout` and wire the
/// position attribute to it.
pub fn upload_steps(layout: VertexLayout) -> (r: Vec<UploadStep>)
    requires
        layout.wf(),
    ensures
        r@ == upload_spec(layout),
{
    let r = vec![
        UploadStep::GenVertexArray,
        UploadStep::BindVertexArray,
        UploadStep::GenBuffer,
        UploadStep::BindBuffer,
        UploadStep::BufferData(layout.buffer_bytes()),
        UploadStep::UseProgram,
        UploadStep::LookupDiscarded,
        UploadStep::LookupPosition,
        UploadStep::EnableAttribute,
        UploadStep::AttributePointer(layout.components()),
    ];
    assert(r@ =~= upload_spec(layout));
    r
}

} // verus!
