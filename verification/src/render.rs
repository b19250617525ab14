//! The render thread's side: the fixed order of the steps of a frame,
//! what the held keys do to the camera, and how a pending window size is
//! taken up.

use vstd::prelude::*;
use crate::keys::{Key, PressedKeys};
use crate::mesh::VertexArrayHandle;
use crate::window::{after_ops, consumed, pending, SurfaceSize, WindowOp, WindowSize};

verus! {

/// Location of the transform uniform in the shader program.
pub const TRANSFORM_LOCATION: i32 = 2;

/// One of the values that held keys move, once per frame, by the time
/// that the frame took.
#[derive(Clone, Copy, Debug, PartialEq, Eq, Structural)]
pub enum Channel {
    /// Rotation of the camera about the vertical axis.
    Yaw,
    /// Rotation of the camera about the horizontal axis.
    Pitch,
    TranslateX,
    TranslateY,
    TranslateZ,
}

/// Whether a key adds the frame time to its channel or takes it off.
#[derive(Clone, Copy, Debug, PartialEq, Eq, Structural)]
pub enum Direction {
    Increase,
    Decrease,
}

/// What one held key does in one frame.
#[derive(Clone, Copy, Debug, PartialEq, Eq, Structural)]
pub struct KeyEffect {
    pub channel: Channel,
    pub direction: Direction,
}

/// What `key` does while it is held, if it does anything.
pub open spec fn effect_of(key: Key) -> Option<KeyEffect> {
    match key {
        Key::Left => Some(KeyEffect { channel: Channel::Yaw, direction: Direction::Decrease }),
        Key::Right => Some(KeyEffect { channel: Channel::Yaw, direction: Direction::Increase }),
        Key::Up => Some(KeyEffect { channel: Channel::Pitch, direction: Direction::Decrease }),
        Key::Down => Some(KeyEffect { channel: Channel::Pitch, direction: Direction::Increase }),
        Key::W => Some(KeyEffect { channel: Channel::TranslateZ, direction: Direction::Decrease }),
        Key::S => Some(KeyEffect { channel: Channel::TranslateZ, direction: Direction::Increase }),
        Key::A => Some(KeyEffect { channel: Channel::TranslateX, direction: Direction::Increase }),
        Key::D => Some(KeyEffect { channel: Channel::TranslateX, direction: Direction::Decrease }),
        Key::LShift => Some(KeyEffect { channel: Channel::TranslateY, direction: Direction::Increase }),
        Key::Space => Some(KeyEffect { channel: Channel::TranslateY, direction: Direction::Decrease }),
        _ => None,
    }
}

/// The effects of the held keys, in the order of the keys; a key without
/// an effect adds nothing.
pub open spec fn effects_of(held: Seq<Key>) -> Seq<KeyEffect>
    decreases held.len(),
{
    if held.len() == 0 {
        Seq::empty()
    } else {
        match effect_of(held.last()) {
            Some(effect) => effects_of(held.drop_last()).push(effect),
            None => effects_of(held.drop_last()),
        }
    }
}

/// What `key` does while it is held, if it does anything.
pub fn key_effect(key: Key) -> (effect: Option<KeyEffect>)
    ensures
        effect == effect_of(key),
{
    let (channel, direction) = match key {
        Key::Left => (Channel::Yaw, Direction::Decrease),
        Key::Right => (Channel::Yaw, Direction::Increase),
        Key::Up => (Channel::Pitch, Direction::Decrease),
        Key::Down => (Channel::Pitch, Direction::Increase),
        Key::W => (Channel::TranslateZ, Direction::Decrease),
        Key::S => (Channel::TranslateZ, Direction::Increase),
        Key::A => (Channel::TranslateX, Direction::Increase),
        Key::D => (Channel::TranslateX, Direction::Decrease),
        Key::LShift => (Channel::TranslateY, Direction::Increase),
        Key::Space => (Channel::TranslateY, Direction::Decrease),
        _ => {
            return None;
        },
    };
    Some(KeyEffect { channel, direction })
}

/// The effects that the held keys have in this frame, in the order in
/// which the keys went down.
pub fn frame_effects(keys: &PressedKeys) -> (effects: Vec<KeyEffect>)
    ensures
        effects@ == effects_of(keys@),
{
    let held = keys.as_slice();
    let mut effects: Vec<KeyEffect> = Vec::new();
    let mut i: usize = 0;
    while i < held.len()
        invariant
            i <= held@.len(),
            effects@ == effects_of(held@.take(i as int)),
        decreases held@.len() - i,
    {
        proof {
            assert(held@.take(i + 1).drop_last() == held@.take(i as int));
        }
        match key_effect(held[i]) {
            Some(effect) => {
                effects.push(effect);
            },
            None => {},
        }
        i += 1;
    }
    proof {
        assert(held@.take(held@.len() as int) == held@);
    }
    effects
}

/// The rectangle of the surface that is drawn to.
#[derive(Clone, Copy, Debug, PartialEq, Eq, Structural)]
pub struct Viewport {
    pub x: i32,
    pub y: i32,
    pub width: i32,
    pub height: i32,
}

/// The viewport that covers a surface of `size`: from the origin, with
/// each extent taken over bit for bit into the graphics layer's signed
/// 32-bit integers.
pub open spec fn viewport_for(size: SurfaceSize) -> Viewport {
    Viewport { x: 0, y: 0, width: size.width as i32, height: size.height as i32 }
}

/// The viewport that covers a surface of `size`.
pub fn full_viewport(size: SurfaceSize) -> (viewport: Viewport)
    ensures
        viewport == viewport_for(size),
{
    let width = #[verifier::truncate] (size.width as i32);
    let height = #[verifier::truncate] (size.height as i32);
    Viewport { x: 0, y: 0, width, height }
}

/// What the render thread does when it finds a new window size: the
/// surface takes the size and the viewport covers it.
#[derive(Clone, Copy, Debug, PartialEq, Eq, Structural)]
pub struct SurfaceUpdate {
    pub size: SurfaceSize,
    pub viewport: Viewport,
}

/// What the render thread does about the surface when it looks at the
/// window size cell: where a size is pending, the update for that size.
pub open spec fn update_on_sync(cell: (u32, u32, bool)) -> Option<SurfaceUpdate> {
    match pending(cell) {
        Some(size) => Some(SurfaceUpdate { size, viewport: viewport_for(size) }),
        None => None,
    }
}

/// The size of the surface after the render thread looked at the window
/// size cell: the pending size, or the size it had.
pub open spec fn surface_on_sync(surface: SurfaceSize, cell: (u32, u32, bool)) -> SurfaceSize {
    match pending(cell) {
        Some(size) => size,
        None => surface,
    }
}

/// One step of a frame, with what the step needs to know.
#[derive(Clone, Copy, Debug, PartialEq, Eq, Structural)]
pub enum FrameStep {
    /// Read the clock: the time since the loop began and since the last
    /// frame.
    MeasureTime,
    /// Look at the window size cell and take a pending size up.
    SyncWindow,
    /// Look at the pressed keys and apply their effects.
    ApplyKeys,
    /// Read the mouse motion cell, which empties it.
    ReadMouse,
    /// Work out what the shader program is to be given this frame.
    UpdateUniforms,
    /// Clear the buffers named to the background.
    Clear { color: bool, depth: bool },
    /// Hand the transform to the shader program, at `location`.
    UploadTransform { location: i32 },
    /// Bind `vertex_array` and draw `count` indices of it as triangles.
    Draw { vertex_array: VertexArrayHandle, count: i32 },
    /// Show the frame. This may block until the display is ready.
    Present,
}

/// The place of a step in the frame, from 0.
pub open spec fn ordinal(step: FrameStep) -> nat {
    match step {
        FrameStep::MeasureTime => 0,
        FrameStep::SyncWindow => 1,
        FrameStep::ApplyKeys => 2,
        FrameStep::ReadMouse => 3,
        FrameStep::UpdateUniforms => 4,
        FrameStep::Clear { .. } => 5,
        FrameStep::UploadTransform { .. } => 6,
        FrameStep::Draw { .. } => 7,
        FrameStep::Present => 8,
    }
}

/// The number of steps in a frame.
pub const STEPS_PER_FRAME: u8 = 9;

/// What the render thread knows between steps.
pub struct EngineView {
    /// The size the surface was last given.
    pub surface: SurfaceSize,
    /// The vertex array that every frame draws.
    pub vertex_array: VertexArrayHandle,
    /// The number of indices in that vertex array.
    pub index_count: usize,
    /// The place in the frame of the step that comes next.
    pub next: nat,
}

/// The step at place `at` of a frame, for an engine in state `engine`.
pub open spec fn step_at(engine: EngineView, at: nat) -> FrameStep {
    if at == 0 {
        FrameStep::MeasureTime
    } else if at == 1 {
        FrameStep::SyncWindow
    } else if at == 2 {
        FrameStep::ApplyKeys
    } else if at == 3 {
        FrameStep::ReadMouse
    } else if at == 4 {
        FrameStep::UpdateUniforms
    } else if at == 5 {
        FrameStep::Clear { color: true, depth: true }
    } else if at == 6 {
        FrameStep::UploadTransform { location: TRANSFORM_LOCATION }
    } else if at == 7 {
        FrameStep::Draw { vertex_array: engine.vertex_array, count: engine.index_count as i32 }
    } else {
        FrameStep::Present
    }
}

/// The engine after `steps` steps were handed out.
pub open spec fn after_steps(engine: EngineView, steps: nat) -> EngineView {
    EngineView { next: (engine.next + steps) % 9, ..engine }
}

/// The render thread's bookkeeping: where it stands in the frame, what
/// it draws, and the size of the surface it draws to.
pub struct RenderEngine {
    surface: SurfaceSize,
    vertex_array: VertexArrayHandle,
    index_count: usize,
    next: u8,
}

impl RenderEngine {
    /// What the engine knows.
    pub closed spec fn view(&self) -> EngineView {
        EngineView {
            surface: self.surface,
            vertex_array: self.vertex_array,
            index_count: self.index_count,
            next: self.next as nat,
        }
    }

    /// The engine stands at one of the steps of a frame.
    #[verifier::type_invariant]
    spec fn in_frame(&self) -> bool {
        self.next < STEPS_PER_FRAME
    }

    /// An engine at the start of its first frame, for a surface of
    /// `surface` and a vertex array of `index_count` indices.
    pub fn new(surface: SurfaceSize, vertex_array: VertexArrayHandle, index_count: usize) -> (engine:
        RenderEngine)
        ensures
            engine@ == (EngineView { surface, vertex_array, index_count, next: 0 }),
    {
        RenderEngine { surface, vertex_array, index_count, next: 0 }
    }

    /// The size the surface was last given.
    pub fn surface(&self) -> (surface: SurfaceSize)
        ensures
            surface == self@.surface,
    {
        self.surface
    }

    /// The vertex array that every frame draws.
    pub fn vertex_array(&self) -> (vertex_array: VertexArrayHandle)
        ensures
            vertex_array == self@.vertex_array,
    {
        self.vertex_array
    }

    /// The step that comes next. The steps of a frame come in one fixed
    /// order, and after the last step of a frame comes the first step of
    /// the next.
    pub fn advance(&mut self) -> (step: FrameStep)
        ensures
            step == step_at(old(self)@, old(self)@.next),
            final(self)@ == after_steps(old(self)@, 1),
    {
        proof {
            use_type_invariant(&*self);
        }
        let step = match self.next {
            0 => FrameStep::MeasureTime,
            1 => FrameStep::SyncWindow,
            2 => FrameStep::ApplyKeys,
            3 => FrameStep::ReadMouse,
            4 => FrameStep::UpdateUniforms,
            5 => FrameStep::Clear { color: true, depth: true },
            6 => FrameStep::UploadTransform { location: TRANSFORM_LOCATION },
            7 => {
                let count = #[verifier::truncate] (self.index_count as i32);
                FrameStep::Draw { vertex_array: self.vertex_array, count }
            },
            _ => FrameStep::Present,
        };
        self.next = if self.next + 1 == STEPS_PER_FRAME {
            0
        } else {
            self.next + 1
        };
        step
    }

    /// The look at the window size cell: lowers the cell's flag, and
    /// where a size was pending, takes it as the size of the surface and
    /// says what to do about it.
    pub fn sync_window(&mut self, cell: &mut WindowSize) -> (update: Option<SurfaceUpdate>)
        ensures
            final(cell)@ == consumed(old(cell)@),
            update == update_on_sync(old(cell)@),
            final(self)@ == (EngineView {
                surface: surface_on_sync(old(self)@.surface, old(cell)@),
                ..old(self)@
            }),
    {
        proof {
            use_type_invariant(&*self);
        }
        match cell.consume() {
            Some(size) => {
                self.surface = size;
                Some(SurfaceUpdate { size, viewport: full_viewport(size) })
            },
            None => None,
        }
    }
}

/// However many resizes and looks came before, once the window was
/// resized the render thread's next look gives the surface the size of
/// that last resize, asks for the viewport that covers it, and leaves the
/// cell holding that size with the flag down.
pub proof fn lemma_sync_takes_last_resize(
    surface: SurfaceSize,
    cell: (u32, u32, bool),
    ops: Seq<WindowOp>,
)
    requires
        ops.len() > 0,
        ops.last() is Resize,
    ensures
        ({
            let size = SurfaceSize { width: ops.last()->width, height: ops.last()->height };
            let written = after_ops(cell, ops);
            &&& written == (size.width, size.height, true)
            &&& surface_on_sync(surface, written) == size
            &&& update_on_sync(written) == Some(SurfaceUpdate { size, viewport: viewport_for(size) })
            &&& consumed(written) == (size.width, size.height, false)
        }),
{
}

/// A look that finds nothing pending leaves the surface as it is and asks
/// for nothing, and a second look right after a first never finds
/// anything.
pub proof fn lemma_sync_once(surface: SurfaceSize, cell: (u32, u32, bool))
    ensures
        !cell.2 ==> surface_on_sync(surface, cell) == surface && update_on_sync(cell) is None,
        update_on_sync(consumed(cell)) is None,
        surface_on_sync(surface_on_sync(surface, cell), consumed(cell)) == surface_on_sync(surface, cell),
{
}

/// The steps of a frame stand in the fixed order of their places.
pub proof fn lemma_step_order(engine: EngineView, at: nat)
    requires
        at < 9,
    ensures
        ordinal(step_at(engine, at)) == at,
{
}

/// After nine steps the engine is where it was: every frame is the same
/// nine steps in the same order.
pub proof fn lemma_frame_repeats(engine: EngineView)
    requires
        engine.next < 9,
    ensures
        after_steps(engine, 9) == engine,
        forall|at: nat| step_at(after_steps(engine, 9), at) == step_at(engine, at),
{
}

/// Handing out steps one at a time adds up.
pub proof fn lemma_steps_add(engine: EngineView, first: nat, second: nat)
    ensures
        after_steps(after_steps(engine, first), second) == after_steps(engine, first + second),
{
    assert(((engine.next + first) % 9 + second) % 9 == (engine.next + first + second) % 9) by {
        vstd::arithmetic::div_mod::lemma_add_mod_noop_right(
            second as int,
            (engine.next + first) as int,
            9,
        );
        vstd::arithmetic::div_mod::lemma_add_mod_noop(
            (engine.next + first) as int,
            second as int,
            9,
        );
    }
}

/// An index buffer that the graphics layer's signed integers can count
/// is drawn whole: the draw step names exactly its number of indices.
pub proof fn lemma_draw_covers_index_buffer(engine: EngineView)
    requires
        engine.index_count <= i32::MAX,
    ensures
        step_at(engine, 7) == (FrameStep::Draw {
            vertex_array: engine.vertex_array,
            count: engine.index_count as i32,
        }),
        engine.index_count as i32 == engine.index_count,
{
    let n = engine.index_count;
    assert(n <= 0x7fff_ffffusize ==> (n as i32) as usize == n) by (bit_vector);
    assert(n <= 0x7fff_ffffusize ==> (n as i32) >= 0i32) by (bit_vector);
}

/// A surface that the graphics layer's signed integers can measure gets
/// a viewport of exactly its size.
pub proof fn lemma_viewport_matches(size: SurfaceSize)
    requires
        size.width <= i32::MAX,
        size.height <= i32::MAX,
    ensures
        viewport_for(size).width == size.width,
        viewport_for(size).height == size.height,
{
    let w = size.width;
    let h = size.height;
    assert(w <= 0x7fff_ffffu32 ==> (w as i32) as u32 == w) by (bit_vector);
    assert(h <= 0x7fff_ffffu32 ==> (h as i32) as u32 == h) by (bit_vector);
    assert(w <= 0x7fff_ffffu32 ==> (w as i32) >= 0i32) by (bit_vector);
    assert(h <= 0x7fff_ffffu32 ==> (h as i32) >= 0i32) by (bit_vector);
}

} // verus!
