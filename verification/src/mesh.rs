//! Uploading one mesh to the graphics layer: the shape a mesh must have,
//! and the fixed sequence of commands that creates its vertex array.
//!
//! A mesh is three streams: positions (three values per vertex), colors
//! (four values per vertex) and indices into the vertices. The positions
//! feed attribute location 0 of the shader program, the colors location 4.

use vstd::prelude::*;

verus! {

/// Attribute location of the vertex positions.
pub const POSITION_LOCATION: u32 = 0;

/// Attribute location of the vertex colors.
pub const COLOR_LOCATION: u32 = 4;

/// Values per vertex in the position stream.
pub const POSITION_COMPONENTS: i32 = 3;

/// Values per vertex in the color stream.
pub const COLOR_COMPONENTS: i32 = 4;

/// The identifier of a vertex array on the graphics layer. It stands for
/// the array's position, color and index buffers and its two attribute
/// bindings; it is made once and from then on only bound and drawn.
#[derive(Clone, Copy, Debug, PartialEq, Eq, Structural)]
pub struct VertexArrayHandle {
    pub id: u32,
}

/// One of the three data streams of a mesh.
#[derive(Clone, Copy, Debug, PartialEq, Eq, Structural)]
pub enum MeshStream {
    Positions,
    Colors,
    Indices,
}

/// The binding point a buffer is bound to.
#[derive(Clone, Copy, Debug, PartialEq, Eq, Structural)]
pub enum BufferTarget {
    /// Per-vertex data.
    Array,
    /// Indices into the vertices.
    ElementArray,
}

/// How a stream of per-vertex floating-point values feeds the shader
/// program: tightly packed, from the start of the buffer.
#[derive(Clone, Copy, Debug, PartialEq, Eq, Structural)]
pub struct Attribute {
    pub location: u32,
    pub components: i32,
}

/// One command to the graphics layer. A buffer is named by the stream it
/// holds; every upload is hinted as written once and drawn many times.
#[derive(Clone, Copy, Debug, PartialEq, Eq, Structural)]
pub enum UploadCommand {
    /// Allocate the vertex array.
    CreateVertexArray,
    /// Bind the vertex array.
    BindVertexArray,
    /// Allocate the buffer for `stream`.
    CreateBuffer { stream: MeshStream },
    /// Bind the buffer of `stream` to `target`.
    BindBuffer { target: BufferTarget, stream: MeshStream },
    /// Copy the whole of `stream` into the buffer bound to `target`.
    FillBuffer { target: BufferTarget, stream: MeshStream },
    /// Point the attribute at the buffer bound to the array target, with
    /// the stride left to follow from the component count and no offset.
    PointAttribute { attribute: Attribute },
    /// Switch the attribute at `location` on.
    EnableAttribute { location: u32 },
}

/// The binding point for the buffer of `stream`.
pub open spec fn target_of(stream: MeshStream) -> BufferTarget {
    match stream {
        MeshStream::Positions => BufferTarget::Array,
        MeshStream::Colors => BufferTarget::Array,
        MeshStream::Indices => BufferTarget::ElementArray,
    }
}

/// The attribute that `stream` feeds, if it feeds one.
pub open spec fn attribute_of(stream: MeshStream) -> Option<Attribute> {
    match stream {
        MeshStream::Positions => Some(
            Attribute { location: POSITION_LOCATION, components: POSITION_COMPONENTS },
        ),
        MeshStream::Colors => Some(Attribute { location: COLOR_LOCATION, components: COLOR_COMPONENTS }),
        MeshStream::Indices => None,
    }
}

/// The commands that upload one stream: allocate, bind, fill, and for a
/// stream that feeds an attribute, point the attribute and switch it on.
pub open spec fn stream_commands(stream: MeshStream) -> Seq<UploadCommand> {
    let buffer = seq![
        UploadCommand::CreateBuffer { stream },
        UploadCommand::BindBuffer { target: target_of(stream), stream },
        UploadCommand::FillBuffer { target: target_of(stream), stream },
    ];
    match attribute_of(stream) {
        Some(attribute) => buffer + seq![
            UploadCommand::PointAttribute { attribute },
            UploadCommand::EnableAttribute { location: attribute.location },
        ],
        None => buffer,
    }
}

/// The whole upload: the vertex array first, then positions, colors and
/// indices, in this order.
pub open spec fn upload_sequence() -> Seq<UploadCommand> {
    seq![UploadCommand::CreateVertexArray, UploadCommand::BindVertexArray] + stream_commands(
        MeshStream::Positions,
    ) + stream_commands(MeshStream::Colors) + stream_commands(MeshStream::Indices)
}

/// The shape of a mesh that can be drawn: whole vertices in both
/// per-vertex streams, as many colors as positions, and every index
/// naming a vertex.
pub open spec fn well_formed(position_values: nat, indices: Seq<u32>, color_values: nat) -> bool {
    &&& position_values % 3 == 0
    &&& color_values % 4 == 0
    &&& color_values / 4 == position_values / 3
    &&& forall|i: int| 0 <= i < indices.len() ==> (#[trigger] indices[i] as nat) < position_values / 3
}

/// The binding point for the buffer of `stream`.
pub fn stream_target(stream: MeshStream) -> (target: BufferTarget)
    ensures
        target == target_of(stream),
{
    match stream {
        MeshStream::Indices => BufferTarget::ElementArray,
        _ => BufferTarget::Array,
    }
}

/// The attribute that `stream` feeds, if it feeds one.
pub fn stream_attribute(stream: MeshStream) -> (attribute: Option<Attribute>)
    ensures
        attribute == attribute_of(stream),
{
    match stream {
        MeshStream::Positions => Some(
            Attribute { location: POSITION_LOCATION, components: POSITION_COMPONENTS },
        ),
        MeshStream::Colors => Some(Attribute { location: COLOR_LOCATION, components: COLOR_COMPONENTS }),
        MeshStream::Indices => None,
    }
}

/// Appends the commands that upload `stream`.
fn push_stream(commands: &mut Vec<UploadCommand>, stream: MeshStream)
    ensures
        final(commands)@ == old(commands)@ + stream_commands(stream),
{
    let target = stream_target(stream);
    commands.push(UploadCommand::CreateBuffer { stream });
    commands.push(UploadCommand::BindBuffer { target, stream });
    commands.push(UploadCommand::FillBuffer { target, stream });
    match stream_attribute(stream) {
        Some(attribute) => {
            commands.push(UploadCommand::PointAttribute { attribute });
            commands.push(UploadCommand::EnableAttribute { location: attribute.location });
        },
        None => {},
    }
}

/// The commands that create the vertex array of a mesh, in the order in
/// which the graphics layer must get them. The vertex array that the
/// first command allocates is the handle of the mesh.
///
/// The sequence is the same for every mesh. Nothing here looks at the
/// data: a mesh that is not `well_formed` uploads all the same, and what
/// the graphics layer then draws is not defined.
pub fn upload_commands() -> (commands: Vec<UploadCommand>)
    ensures
        commands@ == upload_sequence(),
{
    let mut commands: Vec<UploadCommand> = Vec::new();
    commands.push(UploadCommand::CreateVertexArray);
    commands.push(UploadCommand::BindVertexArray);
    push_stream(&mut commands, MeshStream::Positions);
    push_stream(&mut commands, MeshStream::Colors);
    push_stream(&mut commands, MeshStream::Indices);
    commands
}

/// Whether a mesh with `position_values` position values,
/// `color_values` color values and these indices has the shape that
/// drawing asks for.
pub fn is_well_formed(position_values: usize, indices: &Vec<u32>, color_values: usize) -> (ok: bool)
    ensures
        ok == well_formed(position_values as nat, indices@, color_values as nat),
{
    if position_values % 3 != 0 || color_values % 4 != 0 {
        return false;
    }
    let vertices = position_values / 3;
    if color_values / 4 != vertices {
        return false;
    }
    let mut i: usize = 0;
    while i < indices.len()
        invariant
            i <= indices@.len(),
            vertices == position_values / 3,
            forall|j: int| 0 <= j < i ==> (#[trigger] indices@[j] as nat) < vertices,
        decreases indices@.len() - i,
    {
        if indices[i] as usize >= vertices {
            return false;
        }
        i += 1;
    }
    true
}

/// The upload is fifteen commands long: it allocates one vertex array
/// and three buffers, fills each buffer once and switches on exactly the
/// two attributes at locations 0 and 4.
pub proof fn lemma_upload_shape()
    ensures
        upload_sequence().len() == 15,
        upload_sequence()[0] == UploadCommand::CreateVertexArray,
        upload_sequence()[1] == UploadCommand::BindVertexArray,
        forall|i: int|
            0 <= i < 15 && #[trigger] upload_sequence()[i] is EnableAttribute ==> (i == 6 && upload_sequence()[i]
                == UploadCommand::EnableAttribute { location: 0 }) || (i == 11 && upload_sequence()[i]
                == UploadCommand::EnableAttribute { location: 4 }),
{
    let s = upload_sequence();
    assert(s =~= seq![
        UploadCommand::CreateVertexArray,
        UploadCommand::BindVertexArray,
        UploadCommand::CreateBuffer { stream: MeshStream::Positions },
        UploadCommand::BindBuffer { target: BufferTarget::Array, stream: MeshStream::Positions },
        UploadCommand::FillBuffer { target: BufferTarget::Array, stream: MeshStream::Positions },
        UploadCommand::PointAttribute { attribute: Attribute { location: 0, components: 3 } },
        UploadCommand::EnableAttribute { location: 0 },
        UploadCommand::CreateBuffer { stream: MeshStream::Colors },
        UploadCommand::BindBuffer { target: BufferTarget::Array, stream: MeshStream::Colors },
        UploadCommand::FillBuffer { target: BufferTarget::Array, stream: MeshStream::Colors },
        UploadCommand::PointAttribute { attribute: Attribute { location: 4, components: 4 } },
        UploadCommand::EnableAttribute { location: 4 },
        UploadCommand::CreateBuffer { stream: MeshStream::Indices },
        UploadCommand::BindBuffer { target: BufferTarget::ElementArray, stream: MeshStream::Indices },
        UploadCommand::FillBuffer { target: BufferTarget::ElementArray, stream: MeshStream::Indices },
    ]);
}

} // verus!
