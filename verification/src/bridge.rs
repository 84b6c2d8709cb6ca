use vstd::prelude::*;

use crate::clip::{Extent, PixelScale};
use crate::commands::{frame_ops, translate, GpuCommand};
use crate::draw_data::{
    count_elements, lists_fit, lists_wf, total_indices, total_vertices, BufferKind, DrawData,
    MAX_INDICES, MAX_VERTICES,
};
use crate::geometry::{
    bytes_held, copies_for, may_replace, plan_buffer, plan_copies, plan_for, required_bytes,
    size_of_element, BufferPlan, CopyRegion, SlotBuffers,
};

verus! {

/// Where the bridge stands in the cycle of a frame.
#[derive(Clone, Copy, Debug, PartialEq, Eq, Structural)]
pub enum FrameState {
    /// No frame has been begun yet.
    Idle,
    /// A frame is open: the GUI is being declared and input is accepted.
    FrameOpen,
    /// The frame's draw data is final and may be drawn.
    FrameClosed,
}

/// Why the bridge refused a call.
#[derive(Clone, Copy, Debug, PartialEq, Eq, Structural)]
pub enum BridgeError {
    /// A frame was begun while another one was still open.
    FrameAlreadyOpen,
    /// A frame was ended, or input was handed in, although no frame was
    /// open.
    FrameNotOpen,
    /// A draw was asked for although no frame was closed.
    FrameNotClosed,
    /// The image slot does not exist.
    InvalidImageSlot,
    /// The frame holds more than [`MAX_VERTICES`] vertices or more than
    /// [`MAX_INDICES`] indices.
    GeometryTooLarge,
    /// A draw command reaches beyond the geometry of its own list.
    MalformedDrawData,
    /// A font texture was reported although the bridge already has one.
    FontTextureExists,
}

/// The font atlas as it lives on the device.
#[derive(Clone, Copy, Debug, PartialEq, Eq, Structural)]
pub struct FontTexture {
    pub width: u32,
    pub height: u32,
}

/// How a call to begin a frame ended.
#[derive(Clone, Copy, Debug, PartialEq, Eq, Structural)]
pub enum FrameStart {
    /// The bridge has no font texture yet and no frame was opened. Once the
    /// texture is made and reported, the frame can be begun again.
    FontTextureRequired,
    /// The frame is open. The GUI library is to build it for a display of
    /// this size, with this many framebuffer pixels per GUI unit.
    Opened { display_size: Extent, framebuffer_scale: PixelScale },
}

/// What the bridge keeps from frame to frame.
pub struct BridgeState {
    pub frame: FrameState,
    pub font_image: Option<FontTexture>,
    /// The geometry buffers of each image slot.
    pub buffers: Seq<SlotBuffers>,
}

impl BridgeState {
    /// A frame is only ever open or closed once the font texture exists.
    pub open spec fn wf(self) -> bool {
        self.frame != FrameState::Idle ==> self.font_image is Some
    }

    /// The state of a new bridge for so many images: idle, without a font
    /// texture, and with no buffer in any image slot.
    pub open spec fn initial(num_of_images: nat) -> BridgeState {
        BridgeState {
            frame: FrameState::Idle,
            font_image: None,
            buffers: Seq::new(num_of_images, |i: int| SlotBuffers { vertex: None, index: None }),
        }
    }

    /// The state with another place in the frame cycle.
    pub open spec fn at(self, frame: FrameState) -> BridgeState {
        BridgeState { frame, font_image: self.font_image, buffers: self.buffers }
    }

    /// What a call to begin a frame for a window of the given size gives,
    /// and the state after it. While a frame is open the call is refused.
    /// Without a font texture no frame is opened and the texture is asked
    /// for. Otherwise the frame is opened for a display of the window's
    /// size, one framebuffer pixel to the GUI unit.
    pub open spec fn begun(self, width: u32, height: u32) -> (
        BridgeState,
        Result<FrameStart, BridgeError>,
    ) {
        if self.frame == FrameState::FrameOpen {
            (self, Err(BridgeError::FrameAlreadyOpen))
        } else if self.font_image is None {
            (self, Ok(FrameStart::FontTextureRequired))
        } else {
            (
                self.at(FrameState::FrameOpen),
                Ok(
                    FrameStart::Opened {
                        display_size: Extent { width, height },
                        framebuffer_scale: PixelScale { x: 1, y: 1 },
                    },
                ),
            )
        }
    }

    /// What a call to end the frame gives, and the state after it: an open
    /// frame is closed, and without an open frame the call is refused.
    pub open spec fn ended(self) -> (BridgeState, Result<(), BridgeError>) {
        if self.frame == FrameState::FrameOpen {
            (self.at(FrameState::FrameClosed), Ok(()))
        } else {
            (self, Err(BridgeError::FrameNotOpen))
        }
    }

    /// What reporting a font texture gives, and the state after it: the
    /// first texture is kept, and any further one is refused.
    pub open spec fn with_font(self, texture: FontTexture) -> (
        BridgeState,
        Result<(), BridgeError>,
    ) {
        if self.font_image is None {
            (
                BridgeState { frame: self.frame, font_image: Some(texture), buffers: self.buffers },
                Ok(()),
            )
        } else {
            (self, Err(BridgeError::FontTextureExists))
        }
    }

    /// Whether a buffer of `size` bytes is taken into an image slot: the
    /// slot has to exist and to hold none or a smaller one.
    pub open spec fn takes_buffer(self, index: usize, kind: BufferKind, size: u64) -> bool {
        index < self.buffers.len() && may_replace(self.buffers[index as int].capacity(kind), size)
    }

    /// The state after a buffer of `size` bytes was reported for an image
    /// slot: it is recorded if it is taken, and else nothing changes.
    pub open spec fn with_buffer(self, index: usize, kind: BufferKind, size: u64) -> BridgeState {
        if self.takes_buffer(index, kind, size) {
            BridgeState {
                frame: self.frame,
                font_image: self.font_image,
                buffers: self.buffers.update(
                    index as int,
                    self.buffers[index as int].with_capacity(kind, size),
                ),
            }
        } else {
            self
        }
    }
}

/// No buffer of any image slot has become smaller, and no slot was added or
/// removed.
pub open spec fn never_shrunk(before: Seq<SlotBuffers>, after: Seq<SlotBuffers>) -> bool {
    &&& after.len() == before.len()
    &&& forall|i: int, kind: BufferKind|
        0 <= i < before.len() ==> bytes_held(#[trigger] after[i].capacity(kind)) >= bytes_held(
            before[i].capacity(kind),
        )
}

/// Everything the renderer has to do to draw one frame into one image.
#[derive(Debug, PartialEq, Eq)]
pub struct DrawPlan {
    /// Whether the slot's vertex buffer stays or is replaced first.
    pub vertex_buffer: BufferPlan,
    /// Whether the slot's index buffer stays or is replaced first.
    pub index_buffer: BufferPlan,
    /// The writes that fill the vertex buffer, one per draw list.
    pub vertex_copies: Vec<CopyRegion>,
    /// The writes that fill the index buffer, one per draw list.
    pub index_copies: Vec<CopyRegion>,
    /// The calls on the command buffer, in order.
    pub commands: Vec<GpuCommand>,
}

impl DrawPlan {
    /// The plan is the one that draws `data` into a slot with these buffers:
    /// each buffer is replaced only if it cannot take the frame's data, the
    /// lists are packed in order, and the calls are those of the frame.
    pub open spec fn carries_out(self, slot: SlotBuffers, data: DrawData) -> bool {
        &&& self.vertex_buffer == plan_for(
            slot.vertex,
            required_bytes(data.draw_lists@, BufferKind::Vertex) as u64,
        )
        &&& self.index_buffer == plan_for(
            slot.index,
            required_bytes(data.draw_lists@, BufferKind::Index) as u64,
        )
        &&& self.vertex_copies@ == copies_for(data.draw_lists@, BufferKind::Vertex)
        &&& self.index_copies@ == copies_for(data.draw_lists@, BufferKind::Index)
        &&& self.commands@ == frame_ops(data)
    }
}

/// What becomes of a request to draw.
pub enum DrawVerdict {
    /// The request is refused.
    Rejected(BridgeError),
    /// There is nothing to draw: no buffer is touched and no call issued.
    Skipped,
    /// The frame is drawn.
    Rendered,
}

/// A frame is empty when its display has no area or it holds no vertices or
/// no indices.
pub open spec fn is_empty_frame(data: DrawData) -> bool {
    ||| data.display_size.width == 0
    ||| data.display_size.height == 0
    ||| total_vertices(data.draw_lists@) == 0
    ||| total_indices(data.draw_lists@) == 0
}

/// Decides a request to draw `data` into image slot `index`.
pub open spec fn draw_verdict(state: BridgeState, index: usize, data: DrawData) -> DrawVerdict {
    if state.frame != FrameState::FrameClosed {
        DrawVerdict::Rejected(BridgeError::FrameNotClosed)
    } else if is_empty_frame(data) {
        DrawVerdict::Skipped
    } else if index >= state.buffers.len() {
        DrawVerdict::Rejected(BridgeError::InvalidImageSlot)
    } else if total_vertices(data.draw_lists@) > MAX_VERTICES || total_indices(data.draw_lists@)
        > MAX_INDICES {
        DrawVerdict::Rejected(BridgeError::GeometryTooLarge)
    } else if !lists_wf(data.draw_lists@) {
        DrawVerdict::Rejected(BridgeError::MalformedDrawData)
    } else {
        DrawVerdict::Rendered
    }
}

/// Whatever is asked of the bridge, a frame is never open or closed without
/// a font texture.
pub proof fn lemma_frames_need_the_font_texture(
    state: BridgeState,
    width: u32,
    height: u32,
    texture: FontTexture,
    index: usize,
    kind: BufferKind,
    size: u64,
)
    requires
        state.wf(),
    ensures
        state.begun(width, height).0.wf(),
        state.ended().0.wf(),
        state.with_font(texture).0.wf(),
        state.with_buffer(index, kind, size).wf(),
        BridgeState::initial(state.buffers.len()).wf(),
{
}

/// Whatever is asked of the bridge, no buffer of any image slot becomes
/// smaller, and only the report of a buffer changes a capacity at all.
pub proof fn lemma_buffers_never_shrink(
    state: BridgeState,
    width: u32,
    height: u32,
    texture: FontTexture,
    index: usize,
    kind: BufferKind,
    size: u64,
)
    ensures
        state.begun(width, height).0.buffers == state.buffers,
        state.ended().0.buffers == state.buffers,
        state.with_font(texture).0.buffers == state.buffers,
        never_shrunk(state.buffers, state.with_buffer(index, kind, size).buffers),
        state.takes_buffer(index, kind, size) ==> state.with_buffer(
            index,
            kind,
            size,
        ).buffers[index as int].capacity(kind) == Some(size),
{
    let after = state.with_buffer(index, kind, size).buffers;
    assert forall|i: int, k: BufferKind| 0 <= i < state.buffers.len() implies bytes_held(
        #[trigger] after[i].capacity(k),
    ) >= bytes_held(state.buffers[i].capacity(k)) by {
        if state.takes_buffer(index, kind, size) && i == index {
            assert(after[i] == state.buffers[i].with_capacity(kind, size));
        } else {
            assert(after[i] == state.buffers[i]);
        }
    }
}

/// Carrying out what a draw plans for a buffer leaves the slot with a buffer
/// that takes the frame: the planned buffer is always taken, and a buffer
/// that is kept was large enough.
pub proof fn lemma_planned_buffer_is_taken(
    state: BridgeState,
    index: usize,
    kind: BufferKind,
    required: u64,
)
    requires
        index < state.buffers.len(),
    ensures
        match plan_for(state.buffers[index as int].capacity(kind), required) {
            BufferPlan::Keep => bytes_held(state.buffers[index as int].capacity(kind)) >= required,
            BufferPlan::Allocate { size } => {
                &&& size == required
                &&& state.takes_buffer(index, kind, size)
                &&& state.with_buffer(index, kind, size).buffers[index as int].capacity(kind)
                    == Some(required)
            },
        },
{
}

/// A frame that is begun and ended right away, with nothing declared in it
/// and so without vertices or indices, is skipped when it is drawn, into
/// whichever image.
pub proof fn lemma_frame_without_geometry_is_skipped(
    state: BridgeState,
    width: u32,
    height: u32,
    index: usize,
    data: DrawData,
)
    requires
        state.frame != FrameState::FrameOpen,
        state.font_image is Some,
        is_empty_frame(data),
    ensures
        state.begun(width, height).1 is Ok,
        state.begun(width, height).0.ended().1 is Ok,
        draw_verdict(state.begun(width, height).0.ended().0, index, data) is Skipped,
{
}

/// A draw is planned only for a closed frame that holds geometry, into an
/// image slot that exists.
pub proof fn lemma_rendered_needs_closed_frame(state: BridgeState, index: usize, data: DrawData)
    requires
        draw_verdict(state, index, data) is Rendered,
    ensures
        state.frame == FrameState::FrameClosed,
        index < state.buffers.len(),
        !is_empty_frame(data),
        0 < total_vertices(data.draw_lists@) <= MAX_VERTICES,
        0 < total_indices(data.draw_lists@) <= MAX_INDICES,
        lists_wf(data.draw_lists@),
{
}

/// The bridge between the GUI library and the renderer and window system.
///
/// It keeps the frame cycle, knows whether the font texture exists, and
/// tracks the capacity of the geometry buffers of every image slot.
pub struct HalaImGui {
    cycle: Lifecycle,
    buffers: Vec<SlotBuffers>,
}

/// The frame cycle together with the font texture that it depends on.
struct Lifecycle {
    frame: FrameState,
    font_image: Option<FontTexture>,
}

impl Lifecycle {
    #[verifier::type_invariant]
    spec fn inv(self) -> bool {
        self.frame != FrameState::Idle ==> self.font_image is Some
    }
}

impl View for HalaImGui {
    type V = BridgeState;

    closed spec fn view(&self) -> BridgeState {
        BridgeState {
            frame: self.cycle.frame,
            font_image: self.cycle.font_image,
            buffers: self.buffers@,
        }
    }
}

impl HalaImGui {
    /// A bridge for a swapchain of `num_of_images` images: idle, without a
    /// font texture, and with no buffer in any image slot.
    pub fn new(num_of_images: usize) -> (bridge: Self)
        ensures
            bridge@ == BridgeState::initial(num_of_images as nat),
    {
        let mut buffers: Vec<SlotBuffers> = Vec::new();
        let mut i: usize = 0;
        while i < num_of_images
            invariant
                0 <= i <= num_of_images,
                buffers@.len() == i,
                forall|k: int|
                    0 <= k < i ==> #[trigger] buffers@[k] == (SlotBuffers {
                        vertex: None,
                        index: None,
                    }),
            decreases num_of_images - i,
        {
            buffers.push(SlotBuffers { vertex: None, index: None });
            i += 1;
        }
        assert(buffers@ =~= BridgeState::initial(num_of_images as nat).buffers);
        HalaImGui { cycle: Lifecycle { frame: FrameState::Idle, font_image: None }, buffers }
    }

    /// Where the bridge stands in the frame cycle. Outside `Idle` the font
    /// texture exists.
    pub fn frame_state(&self) -> (state: FrameState)
        ensures
            state == self@.frame,
            self@.wf(),
    {
        proof {
            use_type_invariant(&self.cycle);
        }
        self.cycle.frame
    }

    /// The font texture, once it has been made.
    pub fn font_image(&self) -> (font: Option<FontTexture>)
        ensures
            font == self@.font_image,
    {
        self.cycle.font_image
    }

    /// The number of image slots.
    pub fn num_of_images(&self) -> (n: usize)
        ensures
            n == self@.buffers.len(),
    {
        self.buffers.len()
    }

    /// The capacity in bytes of a geometry buffer of an image slot; none if
    /// the slot does not exist or has no such buffer yet.
    pub fn buffer_capacity(&self, index: usize, kind: BufferKind) -> (capacity: Option<u64>)
        ensures
            capacity == if index < self@.buffers.len() {
                self@.buffers[index as int].capacity(kind)
            } else {
                None
            },
    {
        if index >= self.buffers.len() {
            return None;
        }
        match kind {
            BufferKind::Vertex => self.buffers[index].vertex,
            BufferKind::Index => self.buffers[index].index,
        }
    }

    /// Begins a frame for a window of the given size, see
    /// [`BridgeState::begun`]. Buffers and font texture are never touched.
    pub fn begin_frame(&mut self, width: u32, height: u32) -> (r: Result<FrameStart, BridgeError>)
        ensures
            final(self)@ == old(self)@.begun(width, height).0,
            r == old(self)@.begun(width, height).1,
    {
        if let FrameState::FrameOpen = self.cycle.frame {
            return Err(BridgeError::FrameAlreadyOpen);
        }
        if self.cycle.font_image.is_none() {
            return Ok(FrameStart::FontTextureRequired);
        }
        self.cycle.frame = FrameState::FrameOpen;
        Ok(
            FrameStart::Opened {
                display_size: Extent { width, height },
                framebuffer_scale: PixelScale { x: 1, y: 1 },
            },
        )
    }

    /// Records the font texture that was made for the bridge, see
    /// [`BridgeState::with_font`]. The bridge holds at most one: a second
    /// one is refused and changes nothing.
    pub fn font_texture_created(&mut self, texture: FontTexture) -> (r: Result<(), BridgeError>)
        ensures
            final(self)@ == old(self)@.with_font(texture).0,
            r == old(self)@.with_font(texture).1,
    {
        if self.cycle.font_image.is_some() {
            return Err(BridgeError::FontTextureExists);
        }
        self.cycle.font_image = Some(texture);
        Ok(())
    }

    /// Ends the open frame: its draw data is final from here on. Refused
    /// unless a frame is open, see [`BridgeState::ended`].
    pub fn end_frame(&mut self) -> (r: Result<(), BridgeError>)
        ensures
            final(self)@ == old(self)@.ended().0,
            r == old(self)@.ended().1,
    {
        proof {
            use_type_invariant(&self.cycle);
        }
        match self.cycle.frame {
            FrameState::FrameOpen => {
                self.cycle.frame = FrameState::FrameClosed;
                Ok(())
            },
            _ => Err(BridgeError::FrameNotOpen),
        }
    }

    /// Plans the drawing of the closed frame's data into the image slot
    /// `index`, see [`draw_verdict`] and [`DrawPlan::carries_out`].
    ///
    /// A frame without vertices or without indices is skipped: nothing is
    /// allocated and nothing is drawn.
    pub fn draw(&self, index: usize, draw_data: &DrawData) -> (r: Result<
        Option<DrawPlan>,
        BridgeError,
    >)
        ensures
            match draw_verdict(self@, index, *draw_data) {
                DrawVerdict::Rejected(e) => r == Err::<Option<DrawPlan>, BridgeError>(e),
                DrawVerdict::Skipped => r == Ok::<Option<DrawPlan>, BridgeError>(None),
                DrawVerdict::Rendered => r matches Ok(Some(plan)) && plan.carries_out(
                    self@.buffers[index as int],
                    *draw_data,
                ),
            },
            total_vertices(draw_data.draw_lists@) == 0 || total_indices(draw_data.draw_lists@)
                == 0 ==> !(r matches Ok(Some(_))),
    {
        match self.cycle.frame {
            FrameState::FrameClosed => {},
            _ => {
                return Err(BridgeError::FrameNotClosed);
            },
        }
        if draw_data.display_size.width == 0 || draw_data.display_size.height == 0 {
            return Ok(None);
        }
        let vertices = count_elements(&draw_data.draw_lists, BufferKind::Vertex);
        let indices = count_elements(&draw_data.draw_lists, BufferKind::Index);
        if let Some(0) = vertices {
            return Ok(None);
        }
        if let Some(0) = indices {
            return Ok(None);
        }
        if index >= self.buffers.len() {
            return Err(BridgeError::InvalidImageSlot);
        }
        let (vertices, indices) = match (vertices, indices) {
            (Some(v), Some(n)) => (v, n),
            _ => {
                return Err(BridgeError::GeometryTooLarge);
            },
        };
        if !lists_fit(&draw_data.draw_lists) {
            return Err(BridgeError::MalformedDrawData);
        }
        let slot = self.buffers[index];
        let vertex_bytes: u64 = vertices as u64 * size_of_element(BufferKind::Vertex);
        let index_bytes: u64 = indices as u64 * size_of_element(BufferKind::Index);
        Ok(
            Some(
                DrawPlan {
                    vertex_buffer: plan_buffer(slot.vertex, vertex_bytes),
                    index_buffer: plan_buffer(slot.index, index_bytes),
                    vertex_copies: plan_copies(&draw_data.draw_lists, BufferKind::Vertex),
                    index_copies: plan_copies(&draw_data.draw_lists, BufferKind::Index),
                    commands: translate(draw_data),
                },
            ),
        )
    }

    /// Records that a buffer of `size` bytes was made for an image slot. It
    /// takes the place of the slot's buffer only if the slot exists and holds
    /// none or a smaller one; the result says whether it did. So the
    /// capacity of a slot never decreases.
    pub fn buffer_created(&mut self, index: usize, kind: BufferKind, size: u64) -> (installed: bool)
        ensures
            installed == old(self)@.takes_buffer(index, kind, size),
            final(self)@ == old(self)@.with_buffer(index, kind, size),
            never_shrunk(old(self)@.buffers, final(self)@.buffers),
    {
        if index >= self.buffers.len() {
            return false;
        }
        let slot = self.buffers[index];
        let held = match kind {
            BufferKind::Vertex => slot.vertex,
            BufferKind::Index => slot.index,
        };
        let grows = match held {
            Some(capacity) => capacity < size,
            None => true,
        };
        if !grows {
            return false;
        }
        let updated = match kind {
            BufferKind::Vertex => SlotBuffers { vertex: Some(size), index: slot.index },
            BufferKind::Index => SlotBuffers { vertex: slot.vertex, index: Some(size) },
        };
        self.buffers.set(index, updated);
        true
    }
}

} // verus!
