use vstd::prelude::*;

use crate::draw_data::{
    element_limit, lemma_total_elements_prefix, total_elements, BufferKind, DrawList,
};

verus! {

/// Bytes of one vertex in device memory: position, texture coordinate and
/// packed colour.
pub const VERTEX_SIZE: u64 = 20;

/// Bytes of one index in device memory.
pub const INDEX_SIZE: u64 = 2;

/// What to do with a geometry buffer before a frame's data is written to it.
#[derive(Clone, Copy, Debug, PartialEq, Eq, Structural)]
pub enum BufferPlan {
    /// The buffer in the slot is large enough and stays.
    Keep,
    /// A new buffer of exactly `size` bytes replaces what the slot holds.
    Allocate { size: u64 },
}

/// The capacities, in bytes, of the buffers that one image slot holds.
#[derive(Clone, Copy, Debug, PartialEq, Eq, Structural)]
pub struct SlotBuffers {
    pub vertex: Option<u64>,
    pub index: Option<u64>,
}

impl SlotBuffers {
    /// The capacity of the buffer of the given kind, if the slot has one.
    pub open spec fn capacity(self, kind: BufferKind) -> Option<u64> {
        match kind {
            BufferKind::Vertex => self.vertex,
            BufferKind::Index => self.index,
        }
    }

    /// The slot with the capacity of one kind set.
    pub open spec fn with_capacity(self, kind: BufferKind, size: u64) -> SlotBuffers {
        match kind {
            BufferKind::Vertex => SlotBuffers { vertex: Some(size), index: self.index },
            BufferKind::Index => SlotBuffers { vertex: self.vertex, index: Some(size) },
        }
    }
}

/// One write of a draw list's data into a geometry buffer.
#[derive(Clone, Copy, Debug, PartialEq, Eq, Structural)]
pub struct CopyRegion {
    /// Position of the draw list whose data is written.
    pub list: usize,
    /// Byte offset in the buffer at which the data starts.
    pub offset: u64,
    /// Bytes written.
    pub size: u64,
}

/// Bytes of one element of the given kind.
pub open spec fn element_size(kind: BufferKind) -> nat {
    match kind {
        BufferKind::Vertex => 20,
        BufferKind::Index => 2,
    }
}

/// Bytes that so many elements of the given kind take.
pub open spec fn element_bytes(kind: BufferKind, count: nat) -> nat {
    count * element_size(kind)
}

/// Bytes that a buffer must hold to take all the lists' data of one kind.
pub open spec fn required_bytes(lists: Seq<DrawList>, kind: BufferKind) -> nat {
    element_bytes(kind, total_elements(lists, kind))
}

/// A missing buffer holds nothing.
pub open spec fn bytes_held(capacity: Option<u64>) -> nat {
    match capacity {
        Some(size) => size as nat,
        None => 0,
    }
}

/// A buffer stays when it exists and holds what is required; otherwise a
/// buffer of exactly the required size replaces it.
pub open spec fn plan_for(capacity: Option<u64>, required: u64) -> BufferPlan {
    match capacity {
        Some(size) if size >= required => BufferPlan::Keep,
        _ => BufferPlan::Allocate { size: required },
    }
}

/// A buffer of `size` bytes may take the place of what a slot holds only if
/// the slot holds none or a smaller one.
pub open spec fn may_replace(capacity: Option<u64>, size: u64) -> bool {
    match capacity {
        Some(held) => held < size,
        None => true,
    }
}

/// The capacity of a slot once a plan has been carried out.
pub open spec fn capacity_after(capacity: Option<u64>, plan: BufferPlan) -> Option<u64> {
    match plan {
        BufferPlan::Keep => capacity,
        BufferPlan::Allocate { size } => if may_replace(capacity, size) {
            Some(size)
        } else {
            capacity
        },
    }
}

/// The capacity of a slot after a run of frames, each with its own
/// requirement and each carried out as planned.
pub open spec fn capacity_after_frames(capacity: Option<u64>, required: Seq<u64>) -> Option<u64>
    decreases required.len(),
{
    if required.len() == 0 {
        capacity
    } else {
        let before = capacity_after_frames(capacity, required.drop_last());
        capacity_after(before, plan_for(before, required.last()))
    }
}

/// Decides whether the buffer of a slot can take `required` bytes.
pub fn plan_buffer(capacity: Option<u64>, required: u64) -> (plan: BufferPlan)
    ensures
        plan == plan_for(capacity, required),
{
    match capacity {
        Some(size) => if size >= required {
            BufferPlan::Keep
        } else {
            BufferPlan::Allocate { size: required }
        },
        None => BufferPlan::Allocate { size: required },
    }
}

/// Carrying out the plan for a requirement never shrinks a slot's buffer and
/// leaves it large enough. A slot that is large enough already is left
/// alone; any other gets a buffer of exactly the required size.
pub proof fn lemma_capacity_never_shrinks(capacity: Option<u64>, required: u64)
    ensures
        bytes_held(capacity_after(capacity, plan_for(capacity, required))) >= bytes_held(capacity),
        bytes_held(capacity_after(capacity, plan_for(capacity, required))) >= required,
        capacity is Some && bytes_held(capacity) >= required ==> {
            &&& plan_for(capacity, required) == BufferPlan::Keep
            &&& capacity_after(capacity, plan_for(capacity, required)) == capacity
        },
        !(capacity is Some && bytes_held(capacity) >= required) ==> {
            &&& plan_for(capacity, required) == BufferPlan::Allocate { size: required }
            &&& capacity_after(capacity, plan_for(capacity, required)) == Some(required)
        },
{
}

/// However the required sizes change from frame to frame, a slot's capacity
/// never decreases, and it covers every requirement seen so far.
pub proof fn lemma_capacity_monotonic_across_frames(capacity: Option<u64>, required: Seq<u64>)
    ensures
        bytes_held(capacity_after_frames(capacity, required)) >= bytes_held(capacity),
        required.len() > 0 ==> bytes_held(capacity_after_frames(capacity, required))
            >= bytes_held(capacity_after_frames(capacity, required.drop_last())),
        forall|k: int|
            0 <= k < required.len() ==> bytes_held(capacity_after_frames(capacity, required))
                >= #[trigger] required[k],
    decreases required.len(),
{
    if required.len() > 0 {
        let earlier = required.drop_last();
        lemma_capacity_monotonic_across_frames(capacity, earlier);
        let before = capacity_after_frames(capacity, earlier);
        lemma_capacity_never_shrinks(before, required.last());
        assert forall|k: int| 0 <= k < required.len() implies bytes_held(
            capacity_after_frames(capacity, required),
        ) >= #[trigger] required[k] by {
            if k < earlier.len() {
                assert(earlier[k] == required[k]);
            }
        }
    }
}

/// Where each list's data of one kind goes in its buffer: one region per
/// list, in list order, each starting where the one before it ends.
pub open spec fn copies_for(lists: Seq<DrawList>, kind: BufferKind) -> Seq<CopyRegion> {
    Seq::new(
        lists.len(),
        |i: int|
            CopyRegion {
                list: i as usize,
                offset: required_bytes(lists.take(i), kind) as u64,
                size: element_bytes(kind, lists[i].count(kind) as nat) as u64,
            },
    )
}

/// `std::mem::size_of` of `imgui::DrawVert`. The GUI library lays a vertex
/// out as two pairs of 32-bit coordinates followed by four colour bytes, so
/// the size is claimed to be 20.
#[verifier::external_body]
fn vertex_size() -> (size: u64)
    ensures
        size == VERTEX_SIZE,
{
    std::mem::size_of::<imgui::DrawVert>() as u64
}

/// `std::mem::size_of` of `imgui::DrawIdx`. The GUI library's indices are
/// unsigned 16-bit integers, so the size is claimed to be 2.
#[verifier::external_body]
fn index_size() -> (size: u64)
    ensures
        size == INDEX_SIZE,
{
    std::mem::size_of::<imgui::DrawIdx>() as u64
}

/// Bytes of one element of the given kind, as the GUI library lays it out.
pub fn size_of_element(kind: BufferKind) -> (size: u64)
    ensures
        size == element_size(kind),
{
    match kind {
        BufferKind::Vertex => vertex_size(),
        BufferKind::Index => index_size(),
    }
}

/// Lays the lists' data of one kind out in one buffer, see [`copies_for`].
pub(crate) fn plan_copies(lists: &Vec<DrawList>, kind: BufferKind) -> (copies: Vec<CopyRegion>)
    requires
        total_elements(lists@, kind) <= element_limit(kind),
    ensures
        copies@ == copies_for(lists@, kind),
{
    let stride = size_of_element(kind);
    let mut copies: Vec<CopyRegion> = Vec::new();
    let mut placed: u64 = 0;
    let mut i: usize = 0;
    while i < lists.len()
        invariant
            0 <= i <= lists.len(),
            stride == element_size(kind),
            total_elements(lists@, kind) <= element_limit(kind),
            placed == total_elements(lists@.take(i as int), kind),
            copies@ == copies_for(lists@, kind).take(i as int),
        decreases lists.len() - i,
    {
        proof {
            lemma_total_elements_prefix(lists@, kind, i as int);
        }
        let count: u64 = match kind {
            BufferKind::Vertex => lists[i].vtx_count as u64,
            BufferKind::Index => lists[i].idx_count as u64,
        };
        copies.push(CopyRegion { list: i, offset: placed * stride, size: count * stride });
        placed = placed + count;
        i += 1;
        assert(copies@ =~= copies_for(lists@, kind).take(i as int));
    }
    assert(copies@ =~= copies_for(lists@, kind));
    copies
}

/// The regions tile the buffer: the first starts at 0, each next one starts
/// where the one before it ends, and the last ends at the size that the
/// frame requires. So no two overlap and none reaches beyond the buffer.
pub proof fn lemma_copies_tile_buffer(lists: Seq<DrawList>, kind: BufferKind)
    requires
        lists.len() <= usize::MAX,
        total_elements(lists, kind) <= element_limit(kind),
    ensures
        copies_for(lists, kind).len() == lists.len(),
        forall|i: int|
            0 <= i < lists.len() ==> {
                let region = #[trigger] copies_for(lists, kind)[i];
                &&& region.list == i
                &&& region.offset == required_bytes(lists.take(i), kind)
                &&& region.offset + region.size == required_bytes(lists.take(i + 1), kind)
                &&& region.offset + region.size <= required_bytes(lists, kind)
            },
        required_bytes(lists.take(0), kind) == 0,
        required_bytes(lists.take(lists.len() as int), kind) == required_bytes(lists, kind),
{
    assert forall|i: int| 0 <= i < lists.len() implies {
        let region = #[trigger] copies_for(lists, kind)[i];
        &&& region.list == i
        &&& region.offset == required_bytes(lists.take(i), kind)
        &&& region.offset + region.size == required_bytes(lists.take(i + 1), kind)
        &&& region.offset + region.size <= required_bytes(lists, kind)
    } by {
        lemma_total_elements_prefix(lists, kind, i);
    }
    assert(lists.take(lists.len() as int) =~= lists);
    assert(lists.take(0).len() == 0);
}

} // verus!
