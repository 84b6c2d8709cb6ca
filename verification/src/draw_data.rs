use vstd::prelude::*;

use crate::clip::{ClipRect, Extent, Offset, PixelScale};

verus! {

/// The most vertices that one frame may hold: the largest vertex offset
/// that an indexed draw can carry.
pub const MAX_VERTICES: usize = 0x7fff_ffff;

/// The most indices that one frame may hold: the largest first index that
/// an indexed draw can carry.
pub const MAX_INDICES: usize = 0xffff_ffff;

/// The two kinds of geometry data, each with a buffer of its own.
#[derive(Clone, Copy, Debug, PartialEq, Eq, Structural)]
pub enum BufferKind {
    Vertex,
    Index,
}

/// One entry of a draw list.
#[derive(Clone, Copy, Debug, PartialEq, Eq)]
pub enum DrawCmd {
    /// A batch of `count` indices, starting `idx_offset` indices into the
    /// list's index data, whose vertices start `vtx_offset` vertices into the
    /// list's vertex data; drawn inside `clip_rect` with texture `texture_id`.
    Elements {
        count: usize,
        clip_rect: ClipRect,
        texture_id: usize,
        vtx_offset: usize,
        idx_offset: usize,
    },
    /// A marker that asks the renderer to set up its state again.
    ResetRenderState,
    /// A callback of the GUI's user that the renderer invokes in place.
    RawCallback,
}

/// The geometry of one render layer: so many vertices, so many indices, and
/// the commands that draw from them.
#[derive(Clone, Debug, PartialEq, Eq)]
pub struct DrawList {
    pub vtx_count: usize,
    pub idx_count: usize,
    pub commands: Vec<DrawCmd>,
}

impl DrawList {
    /// How many vertices, or indices, the list holds.
    pub open spec fn count(self, kind: BufferKind) -> usize {
        match kind {
            BufferKind::Vertex => self.vtx_count,
            BufferKind::Index => self.idx_count,
        }
    }
}

/// What the GUI library hands over for one frame.
#[derive(Clone, Debug, PartialEq, Eq)]
pub struct DrawData {
    /// GUI coordinate of the display's top-left corner.
    pub display_pos: Offset,
    /// Size of the display in GUI units; also the size of the framebuffer.
    pub display_size: Extent,
    /// Framebuffer pixels per GUI unit.
    pub framebuffer_scale: PixelScale,
    pub draw_lists: Vec<DrawList>,
}

/// The number of vertices, or of indices, in all the lists together.
pub open spec fn total_elements(lists: Seq<DrawList>, kind: BufferKind) -> nat
    decreases lists.len(),
{
    if lists.len() == 0 {
        0
    } else {
        total_elements(lists.drop_last(), kind) + lists.last().count(kind) as nat
    }
}

/// The number of vertices in all the lists together.
pub open spec fn total_vertices(lists: Seq<DrawList>) -> nat {
    total_elements(lists, BufferKind::Vertex)
}

/// The number of indices in all the lists together.
pub open spec fn total_indices(lists: Seq<DrawList>) -> nat {
    total_elements(lists, BufferKind::Index)
}

/// A command stays inside the geometry of its own list.
pub open spec fn command_in_list(cmd: DrawCmd, list: DrawList) -> bool {
    match cmd {
        DrawCmd::Elements { count, vtx_offset, idx_offset, .. } => {
            &&& idx_offset + count <= list.idx_count
            &&& vtx_offset <= list.vtx_count
        },
        _ => true,
    }
}

/// Every command of the list stays inside the list's geometry.
pub open spec fn list_wf(list: DrawList) -> bool {
    forall|j: int|
        0 <= j < list.commands@.len() ==> command_in_list(#[trigger] list.commands@[j], list)
}

/// Every list is well formed.
pub open spec fn lists_wf(lists: Seq<DrawList>) -> bool {
    forall|i: int| 0 <= i < lists.len() ==> list_wf(#[trigger] lists[i])
}

/// The elements of the first `n` lists, and those of the list after them,
/// are among the elements of all the lists.
pub proof fn lemma_total_elements_prefix(lists: Seq<DrawList>, kind: BufferKind, n: int)
    requires
        0 <= n <= lists.len(),
    ensures
        total_elements(lists.take(n), kind) <= total_elements(lists, kind),
        n < lists.len() ==> total_elements(lists.take(n + 1), kind) == total_elements(
            lists.take(n),
            kind,
        ) + lists[n].count(kind),
        n < lists.len() ==> total_elements(lists.take(n + 1), kind) <= total_elements(lists, kind),
    decreases lists.len(),
{
    if n == lists.len() {
        assert(lists.take(n) =~= lists);
    } else {
        assert(lists.take(n + 1).drop_last() =~= lists.take(n));
        assert(lists.take(n + 1).last() == lists[n]);
        assert(lists.drop_last().take(n) =~= lists.take(n));
        if n == lists.len() - 1 {
            assert(lists.take(n) =~= lists.drop_last());
            assert(lists.take(n + 1) =~= lists);
        } else {
            assert(lists.drop_last().take(n + 1) =~= lists.take(n + 1));
            lemma_total_elements_prefix(lists.drop_last(), kind, n);
        }
    }
}

/// The most elements of one kind that one frame may hold.
pub open spec fn element_limit(kind: BufferKind) -> usize {
    match kind {
        BufferKind::Vertex => MAX_VERTICES,
        BufferKind::Index => MAX_INDICES,
    }
}

/// A count that fits the frame limit of its kind, or none.
pub open spec fn within_limit(total: nat, kind: BufferKind) -> Option<usize> {
    if total <= element_limit(kind) {
        Some(total as usize)
    } else {
        None
    }
}

fn count_of(list: &DrawList, kind: BufferKind) -> (n: usize)
    ensures
        n == list.count(kind),
{
    match kind {
        BufferKind::Vertex => list.vtx_count,
        BufferKind::Index => list.idx_count,
    }
}

/// Adds up the vertices, or the indices, of the lists; a sum beyond the
/// frame limit of the kind is reported as none.
pub fn count_elements(lists: &Vec<DrawList>, kind: BufferKind) -> (total: Option<usize>)
    ensures
        total == within_limit(total_elements(lists@, kind), kind),
{
    let limit: usize = match kind {
        BufferKind::Vertex => MAX_VERTICES,
        BufferKind::Index => MAX_INDICES,
    };
    let mut total: Option<usize> = Some(0);
    let mut i: usize = 0;
    while i < lists.len()
        invariant
            0 <= i <= lists.len(),
            limit == element_limit(kind),
            total == within_limit(total_elements(lists@.take(i as int), kind), kind),
        decreases lists.len() - i,
    {
        proof {
            lemma_total_elements_prefix(lists@, kind, i as int);
        }
        let count = count_of(&lists[i], kind);
        total =
        match total {
            Some(sum) => if count > limit - sum {
                None
            } else {
                Some(sum + count)
            },
            None => None,
        };
        i += 1;
    }
    proof {
        assert(lists@.take(lists.len() as int) =~= lists@);
    }
    total
}

fn command_fits(cmd: &DrawCmd, list: &DrawList) -> (fits: bool)
    ensures
        fits == command_in_list(*cmd, *list),
{
    match cmd {
        DrawCmd::Elements { count, vtx_offset, idx_offset, .. } => {
            *count <= list.idx_count && *idx_offset <= list.idx_count - *count && *vtx_offset
                <= list.vtx_count
        },
        _ => true,
    }
}

fn list_fits(list: &DrawList) -> (fits: bool)
    ensures
        fits == list_wf(*list),
{
    let mut j: usize = 0;
    while j < list.commands.len()
        invariant
            0 <= j <= list.commands.len(),
            forall|k: int| 0 <= k < j ==> command_in_list(#[trigger] list.commands@[k], *list),
        decreases list.commands.len() - j,
    {
        if !command_fits(&list.commands[j], list) {
            return false;
        }
        j += 1;
    }
    true
}

/// Checks that every command stays inside the geometry of its own list.
pub fn lists_fit(lists: &Vec<DrawList>) -> (fit: bool)
    ensures
        fit == lists_wf(lists@),
{
    let mut i: usize = 0;
    while i < lists.len()
        invariant
            0 <= i <= lists.len(),
            forall|k: int| 0 <= k < i ==> list_wf(#[trigger] lists@[k]),
        decreases lists.len() - i,
    {
        if !list_fits(&lists[i]) {
            return false;
        }
        i += 1;
    }
    true
}

} // verus!
