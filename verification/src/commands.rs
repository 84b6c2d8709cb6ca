use vstd::prelude::*;

use crate::clip::{
    full_scissor, is_degenerate, scissor, scissor_for, Extent, Projection, Scissor,
};
use crate::draw_data::{
    command_in_list, lemma_total_elements_prefix, list_wf, lists_wf, total_indices,
    total_vertices, BufferKind, DrawCmd, DrawData, DrawList, MAX_INDICES, MAX_VERTICES,
};
use crate::geometry::{copies_for, lemma_copies_tile_buffer, INDEX_SIZE, VERTEX_SIZE};
use crate::transform::{display_transform, transform_for, Ratio, Transform};

verus! {

/// Byte offset of the scale among the shader constants.
pub const SCALE_OFFSET: u32 = 0;

/// Byte offset of the translation among the shader constants.
pub const TRANSLATE_OFFSET: u32 = 8;

/// One call on the command buffer of the image that is being drawn.
#[derive(Clone, Copy, Debug, PartialEq, Eq, Structural)]
pub enum GpuCommand {
    /// Bind the GUI pipeline.
    BindPipeline,
    /// Bind the image slot's vertex buffer at the given byte offset.
    BindVertexBuffer { offset: u64 },
    /// Bind the image slot's index buffer, of 16-bit indices, at the given
    /// byte offset.
    BindIndexBuffer { offset: u64 },
    /// Set the viewport to `(0, 0, width, height)` with depth from 0 to 1.
    SetViewport { width: u32, height: u32 },
    /// Write a pair of vertex shader constants at the given byte offset.
    PushConstants { byte_offset: u32, x: Ratio, y: Ratio },
    /// Invoke the user callback that is command `command` of list `list`.
    Callback { list: usize, command: usize },
    /// Set the scissor rectangle.
    SetScissor { scissor: Scissor },
    /// Bind the texture with the given identifier.
    BindTexture { texture_id: usize },
    /// Draw one instance of `index_count` indices from `first_index` on,
    /// each index counted from vertex `vertex_offset`.
    DrawIndexed { index_count: u32, first_index: u32, vertex_offset: i32 },
}

/// How the framebuffer is addressed when the data of a frame is drawn. The
/// framebuffer has the size of the display.
pub open spec fn projection_of(data: DrawData) -> Projection {
    Projection {
        display_pos: data.display_pos,
        framebuffer_scale: data.framebuffer_scale,
        framebuffer_size: data.display_size,
    }
}

/// The calls that one draw command turns into. `list` and `position` say
/// where the command stands; `base_vtx` and `base_idx` are the numbers of
/// vertices and indices in the lists before its own.
///
/// A batch whose clip rectangle is degenerate turns into nothing at all. Any
/// other batch sets its scissor, binds its texture and draws, with its
/// offsets counted from the start of the packed buffers.
pub open spec fn command_ops(
    cmd: DrawCmd,
    p: Projection,
    list: int,
    position: int,
    base_vtx: int,
    base_idx: int,
) -> Seq<GpuCommand> {
    match cmd {
        DrawCmd::ResetRenderState => Seq::empty(),
        DrawCmd::RawCallback => seq![
            GpuCommand::Callback { list: list as usize, command: position as usize },
        ],
        DrawCmd::Elements { count, clip_rect, texture_id, vtx_offset, idx_offset } => {
            match scissor_for(clip_rect, p) {
                None => Seq::empty(),
                Some(scissor) => seq![
                    GpuCommand::SetScissor { scissor },
                    GpuCommand::BindTexture { texture_id },
                    GpuCommand::DrawIndexed {
                        index_count: count as u32,
                        first_index: (base_idx + idx_offset) as u32,
                        vertex_offset: (base_vtx + vtx_offset) as i32,
                    },
                ],
            }
        },
    }
}

/// The calls of the commands of one list, in command order.
pub open spec fn list_ops(
    cmds: Seq<DrawCmd>,
    p: Projection,
    list: int,
    base_vtx: int,
    base_idx: int,
) -> Seq<GpuCommand>
    decreases cmds.len(),
{
    if cmds.len() == 0 {
        Seq::empty()
    } else {
        list_ops(cmds.drop_last(), p, list, base_vtx, base_idx) + command_ops(
            cmds.last(),
            p,
            list,
            cmds.len() - 1,
            base_vtx,
            base_idx,
        )
    }
}

/// The calls of all the lists, in list order. Each list's offsets are
/// counted from the vertices and indices of the lists before it.
pub open spec fn batch_ops(lists: Seq<DrawList>, p: Projection) -> Seq<GpuCommand>
    decreases lists.len(),
{
    if lists.len() == 0 {
        Seq::empty()
    } else {
        batch_ops(lists.drop_last(), p) + list_ops(
            lists.last().commands@,
            p,
            lists.len() - 1,
            total_vertices(lists.drop_last()) as int,
            total_indices(lists.drop_last()) as int,
        )
    }
}

/// The calls that prepare the command buffer for the frame's batches.
pub open spec fn setup_ops(size: Extent, t: Transform) -> Seq<GpuCommand> {
    seq![
        GpuCommand::BindPipeline,
        GpuCommand::BindVertexBuffer { offset: 0 },
        GpuCommand::BindIndexBuffer { offset: 0 },
        GpuCommand::SetViewport { width: size.width, height: size.height },
        GpuCommand::PushConstants { byte_offset: SCALE_OFFSET, x: t.scale_x, y: t.scale_y },
        GpuCommand::PushConstants {
            byte_offset: TRANSLATE_OFFSET,
            x: t.translate_x,
            y: t.translate_y,
        },
    ]
}

/// All the calls of a frame whose display has area: the setup, the batches,
/// and at the end the scissor set back to the whole framebuffer.
pub open spec fn frame_ops(data: DrawData) -> Seq<GpuCommand> {
    setup_ops(data.display_size, transform_for(data.display_pos, data.display_size)->0)
        + batch_ops(data.draw_lists@, projection_of(data)) + seq![
        GpuCommand::SetScissor { scissor: full_scissor(data.display_size) },
    ]
}

/// Every scissor that is set is followed at once by a texture bind and a
/// draw: no scissor is set for nothing and left behind for a later batch.
pub open spec fn scissors_lead_to_draws(ops: Seq<GpuCommand>) -> bool {
    forall|k: int|
        0 <= k < ops.len() && (#[trigger] ops[k]) is SetScissor ==> {
            &&& k + 2 < ops.len()
            &&& ops[k + 1] is BindTexture
            &&& ops[k + 2] is DrawIndexed
        }
}

/// A batch whose clamped clip rectangle has no area issues no call at all:
/// no draw, and no scissor either.
pub proof fn lemma_degenerate_batch_emits_nothing(
    cmd: DrawCmd,
    p: Projection,
    list: int,
    position: int,
    base_vtx: int,
    base_idx: int,
)
    requires
        cmd matches DrawCmd::Elements { clip_rect, .. } && is_degenerate(clip_rect, p),
    ensures
        command_ops(cmd, p, list, position, base_vtx, base_idx) == Seq::<GpuCommand>::empty(),
{
}

proof fn lemma_concat_keeps_pairing(a: Seq<GpuCommand>, b: Seq<GpuCommand>)
    requires
        scissors_lead_to_draws(a),
        scissors_lead_to_draws(b),
    ensures
        scissors_lead_to_draws(a + b),
{
    let ops = a + b;
    assert forall|k: int| 0 <= k < ops.len() && (#[trigger] ops[k]) is SetScissor implies {
        &&& k + 2 < ops.len()
        &&& ops[k + 1] is BindTexture
        &&& ops[k + 2] is DrawIndexed
    } by {
        if k < a.len() {
            assert(a[k] is SetScissor);
        } else {
            assert(b[k - a.len()] is SetScissor);
            assert(ops[k + 1] == b[k + 1 - a.len()]);
            assert(ops[k + 2] == b[k + 2 - a.len()]);
        }
    }
}

proof fn lemma_list_pairs_scissor_with_draw(
    cmds: Seq<DrawCmd>,
    p: Projection,
    list: int,
    base_vtx: int,
    base_idx: int,
)
    ensures
        scissors_lead_to_draws(list_ops(cmds, p, list, base_vtx, base_idx)),
    decreases cmds.len(),
{
    if cmds.len() > 0 {
        lemma_list_pairs_scissor_with_draw(cmds.drop_last(), p, list, base_vtx, base_idx);
        lemma_concat_keeps_pairing(
            list_ops(cmds.drop_last(), p, list, base_vtx, base_idx),
            command_ops(cmds.last(), p, list, cmds.len() - 1, base_vtx, base_idx),
        );
    }
}

/// Among the calls of a frame's batches, whatever the clip rectangles are,
/// every scissor set is followed at once by its texture bind and its draw.
pub proof fn lemma_batches_pair_scissor_with_draw(lists: Seq<DrawList>, p: Projection)
    ensures
        scissors_lead_to_draws(batch_ops(lists, p)),
    decreases lists.len(),
{
    if lists.len() > 0 {
        lemma_batches_pair_scissor_with_draw(lists.drop_last(), p);
        lemma_list_pairs_scissor_with_draw(
            lists.last().commands@,
            p,
            lists.len() - 1,
            total_vertices(lists.drop_last()) as int,
            total_indices(lists.drop_last()) as int,
        );
        lemma_concat_keeps_pairing(
            batch_ops(lists.drop_last(), p),
            list_ops(
                lists.last().commands@,
                p,
                lists.len() - 1,
                total_vertices(lists.drop_last()) as int,
                total_indices(lists.drop_last()) as int,
            ),
        );
    }
}


/// Every draw comes right after the texture bind and the scissor of its own
/// batch: no draw runs under the scissor of another batch.
pub open spec fn draws_follow_scissors(ops: Seq<GpuCommand>) -> bool {
    forall|k: int|
        0 <= k < ops.len() && (#[trigger] ops[k]) is DrawIndexed ==> {
            &&& 2 <= k
            &&& ops[k - 1] is BindTexture
            &&& ops[k - 2] is SetScissor
        }
}

/// How many draws there are among the calls.
pub open spec fn draw_count(ops: Seq<GpuCommand>) -> nat
    decreases ops.len(),
{
    if ops.len() == 0 {
        0
    } else {
        draw_count(ops.drop_last()) + if ops.last() is DrawIndexed {
            1nat
        } else {
            0nat
        }
    }
}

/// A command is visible when it is a batch whose clamped clip rectangle has
/// area.
pub open spec fn is_visible(cmd: DrawCmd, p: Projection) -> bool {
    cmd matches DrawCmd::Elements { clip_rect, .. } && !is_degenerate(clip_rect, p)
}

/// How many of the commands are visible.
pub open spec fn visible_commands(cmds: Seq<DrawCmd>, p: Projection) -> nat
    decreases cmds.len(),
{
    if cmds.len() == 0 {
        0
    } else {
        visible_commands(cmds.drop_last(), p) + if is_visible(cmds.last(), p) {
            1nat
        } else {
            0nat
        }
    }
}

/// How many commands of all the lists are visible.
pub open spec fn visible_batches(lists: Seq<DrawList>, p: Projection) -> nat
    decreases lists.len(),
{
    if lists.len() == 0 {
        0
    } else {
        visible_batches(lists.drop_last(), p) + visible_commands(lists.last().commands@, p)
    }
}

proof fn lemma_concat_keeps_draws_after_scissors(a: Seq<GpuCommand>, b: Seq<GpuCommand>)
    requires
        draws_follow_scissors(a),
        draws_follow_scissors(b),
    ensures
        draws_follow_scissors(a + b),
{
    let ops = a + b;
    assert forall|k: int| 0 <= k < ops.len() && (#[trigger] ops[k]) is DrawIndexed implies {
        &&& 2 <= k
        &&& ops[k - 1] is BindTexture
        &&& ops[k - 2] is SetScissor
    } by {
        if k < a.len() {
            assert(a[k] is DrawIndexed);
            assert(ops[k - 1] == a[k - 1]);
            assert(ops[k - 2] == a[k - 2]);
        } else {
            assert(b[k - a.len()] is DrawIndexed);
            assert(ops[k - 1] == b[k - 1 - a.len()]);
            assert(ops[k - 2] == b[k - 2 - a.len()]);
        }
    }
}

proof fn lemma_draw_count_concat(a: Seq<GpuCommand>, b: Seq<GpuCommand>)
    ensures
        draw_count(a + b) == draw_count(a) + draw_count(b),
    decreases b.len(),
{
    if b.len() == 0 {
        assert(a + b =~= a);
    } else {
        assert((a + b).drop_last() =~= a + b.drop_last());
        assert((a + b).last() == b.last());
        lemma_draw_count_concat(a, b.drop_last());
    }
}

/// One command issues one draw if it is visible and none otherwise, and its
/// draw, if there is one, follows its own scissor and texture bind.
pub proof fn lemma_command_draws_once_if_visible(
    cmd: DrawCmd,
    p: Projection,
    list: int,
    position: int,
    base_vtx: int,
    base_idx: int,
)
    ensures
        draw_count(command_ops(cmd, p, list, position, base_vtx, base_idx)) == if is_visible(
            cmd,
            p,
        ) {
            1nat
        } else {
            0nat
        },
        draws_follow_scissors(command_ops(cmd, p, list, position, base_vtx, base_idx)),
        scissors_lead_to_draws(command_ops(cmd, p, list, position, base_vtx, base_idx)),
{
    let ops = command_ops(cmd, p, list, position, base_vtx, base_idx);
    reveal_with_fuel(draw_count, 4);
    if ops.len() == 3 {
        assert(ops.drop_last().len() == 2);
        assert(ops.drop_last().drop_last().len() == 1);
        assert(ops.drop_last().drop_last().drop_last().len() == 0);
        assert(ops.last() == ops[2]);
        assert(ops.drop_last().last() == ops[1]);
        assert(ops.drop_last().drop_last().last() == ops[0]);
    } else if ops.len() == 1 {
        assert(ops.drop_last().len() == 0);
        assert(ops.last() == ops[0]);
    }
}

proof fn lemma_list_draws_its_visible_commands(
    cmds: Seq<DrawCmd>,
    p: Projection,
    list: int,
    base_vtx: int,
    base_idx: int,
)
    ensures
        draw_count(list_ops(cmds, p, list, base_vtx, base_idx)) == visible_commands(cmds, p),
        draws_follow_scissors(list_ops(cmds, p, list, base_vtx, base_idx)),
    decreases cmds.len(),
{
    if cmds.len() > 0 {
        let before = list_ops(cmds.drop_last(), p, list, base_vtx, base_idx);
        let own = command_ops(cmds.last(), p, list, cmds.len() - 1, base_vtx, base_idx);
        lemma_list_draws_its_visible_commands(cmds.drop_last(), p, list, base_vtx, base_idx);
        lemma_command_draws_once_if_visible(
            cmds.last(),
            p,
            list,
            cmds.len() - 1,
            base_vtx,
            base_idx,
        );
        lemma_draw_count_concat(before, own);
        lemma_concat_keeps_draws_after_scissors(before, own);
    }
}

/// The batches of a frame issue exactly one draw for each visible command,
/// and every draw follows the scissor and the texture bind of its own batch.
pub proof fn lemma_batches_draw_their_visible_commands(lists: Seq<DrawList>, p: Projection)
    ensures
        draw_count(batch_ops(lists, p)) == visible_batches(lists, p),
        draws_follow_scissors(batch_ops(lists, p)),
    decreases lists.len(),
{
    if lists.len() > 0 {
        let before = batch_ops(lists.drop_last(), p);
        let own = list_ops(
            lists.last().commands@,
            p,
            lists.len() - 1,
            total_vertices(lists.drop_last()) as int,
            total_indices(lists.drop_last()) as int,
        );
        lemma_batches_draw_their_visible_commands(lists.drop_last(), p);
        lemma_list_draws_its_visible_commands(
            lists.last().commands@,
            p,
            lists.len() - 1,
            total_vertices(lists.drop_last()) as int,
            total_indices(lists.drop_last()) as int,
        );
        lemma_draw_count_concat(before, own);
        lemma_concat_keeps_draws_after_scissors(before, own);
    }
}

/// All the calls of a frame hold exactly one draw for each visible command;
/// the setup and the final scissor add none. Every draw follows the scissor
/// and the texture bind of its own batch, and the only scissor without a draw
/// is the final one, which covers the whole framebuffer.
pub proof fn lemma_frame_draws_its_visible_commands(data: DrawData)
    requires
        data.display_size.width > 0,
        data.display_size.height > 0,
    ensures
        draw_count(frame_ops(data)) == visible_batches(data.draw_lists@, projection_of(data)),
        draws_follow_scissors(frame_ops(data)),
        forall|k: int|
            0 <= k < frame_ops(data).len() - 1 && (#[trigger] frame_ops(data)[k]) is SetScissor
                ==> frame_ops(data)[k + 1] is BindTexture && frame_ops(data)[k + 2] is DrawIndexed,
{
    let setup = setup_ops(
        data.display_size,
        transform_for(data.display_pos, data.display_size)->0,
    );
    let batches = batch_ops(data.draw_lists@, projection_of(data));
    let reset = seq![GpuCommand::SetScissor { scissor: full_scissor(data.display_size) }];
    let ops = frame_ops(data);
    lemma_batches_draw_their_visible_commands(data.draw_lists@, projection_of(data));
    lemma_batches_pair_scissor_with_draw(data.draw_lists@, projection_of(data));
    assert(draw_count(setup) == 0) by {
        reveal_with_fuel(draw_count, 7);
        let s5 = setup.drop_last();
        let s4 = s5.drop_last();
        let s3 = s4.drop_last();
        let s2 = s3.drop_last();
        let s1 = s2.drop_last();
        assert(s1.drop_last().len() == 0);
        assert(setup.last() == setup[5]);
        assert(s5.last() == setup[4]);
        assert(s4.last() == setup[3]);
        assert(s3.last() == setup[2]);
        assert(s2.last() == setup[1]);
        assert(s1.last() == setup[0]);
    }
    assert(draw_count(reset) == 0) by {
        reveal_with_fuel(draw_count, 2);
        assert(reset.drop_last().len() == 0);
        assert(reset.last() == reset[0]);
    }
    lemma_draw_count_concat(setup, batches);
    lemma_draw_count_concat(setup + batches, reset);
    assert(setup.len() == 6);
    assert forall|k: int| 0 <= k < ops.len() && (#[trigger] ops[k]) is DrawIndexed implies {
        &&& 2 <= k
        &&& ops[k - 1] is BindTexture
        &&& ops[k - 2] is SetScissor
    } by {
        assert(6 <= k < 6 + batches.len());
        assert(batches[k - 6] is DrawIndexed);
        assert(ops[k - 1] == batches[k - 7]);
        assert(ops[k - 2] == batches[k - 8]);
    }
    assert forall|k: int|
        0 <= k < ops.len() - 1 && (#[trigger] ops[k]) is SetScissor implies ops[k + 1]
        is BindTexture && ops[k + 2] is DrawIndexed by {
        assert(6 <= k < 6 + batches.len());
        assert(batches[k - 6] is SetScissor);
        assert(ops[k + 1] == batches[k - 5]);
        assert(ops[k + 2] == batches[k - 4]);
    }
}

/// The calls of the first `n + 1` lists are those of the first `n` lists
/// followed by those of list `n`, whose offsets are counted from the
/// vertices and indices of the lists before it.
pub proof fn lemma_batch_ops_step(lists: Seq<DrawList>, p: Projection, n: int)
    requires
        0 <= n < lists.len(),
    ensures
        batch_ops(lists.take(n + 1), p) == batch_ops(lists.take(n), p) + list_ops(
            lists[n].commands@,
            p,
            n,
            total_vertices(lists.take(n)) as int,
            total_indices(lists.take(n)) as int,
        ),
{
    assert(lists.take(n + 1).drop_last() =~= lists.take(n));
    assert(lists.take(n + 1).last() == lists[n]);
}

/// A draw reads only what was written for its own list: its indices lie in
/// the region of the index buffer that the list's indices were copied to,
/// and its base vertex lies in the region of the vertex buffer that the
/// list's vertices were copied to.
pub proof fn lemma_draw_reads_its_own_list(lists: Seq<DrawList>, p: Projection, i: int, j: int)
    requires
        lists.len() <= usize::MAX,
        total_vertices(lists) <= MAX_VERTICES,
        total_indices(lists) <= MAX_INDICES,
        lists_wf(lists),
        0 <= i < lists.len(),
        0 <= j < lists[i].commands@.len(),
        lists[i].commands@[j] matches DrawCmd::Elements { clip_rect, .. } && !is_degenerate(
            clip_rect,
            p,
        ),
    ensures
        ({
            let ops = command_ops(
                lists[i].commands@[j],
                p,
                i,
                j,
                total_vertices(lists.take(i)) as int,
                total_indices(lists.take(i)) as int,
            );
            let vertices = copies_for(lists, BufferKind::Vertex)[i];
            let indices = copies_for(lists, BufferKind::Index)[i];
            &&& ops.len() == 3
            &&& ops[2] matches GpuCommand::DrawIndexed { index_count, first_index, vertex_offset }
            &&& indices.offset <= first_index * INDEX_SIZE
            &&& (first_index + index_count) * INDEX_SIZE <= indices.offset + indices.size
            &&& vertices.offset <= vertex_offset * VERTEX_SIZE
            &&& vertex_offset * VERTEX_SIZE <= vertices.offset + vertices.size
        }),
{
    lemma_total_elements_prefix(lists, BufferKind::Vertex, i);
    lemma_total_elements_prefix(lists, BufferKind::Index, i);
    lemma_copies_tile_buffer(lists, BufferKind::Vertex);
    lemma_copies_tile_buffer(lists, BufferKind::Index);
    assert(list_wf(lists[i]));
    assert(command_in_list(lists[i].commands@[j], lists[i]));
}

/// The calls of a frame begin with the setup and end with the scissor set
/// back to the whole framebuffer, so that no clip rectangle of the GUI is
/// left behind for whatever is drawn next.
pub proof fn lemma_frame_resets_scissor(data: DrawData)
    requires
        data.display_size.width > 0,
        data.display_size.height > 0,
    ensures
        frame_ops(data).len() >= 7,
        frame_ops(data).take(6) == setup_ops(
            data.display_size,
            transform_for(data.display_pos, data.display_size)->0,
        ),
        frame_ops(data).last() == (GpuCommand::SetScissor {
            scissor: full_scissor(data.display_size),
        }),
        scissors_lead_to_draws(frame_ops(data).subrange(6, frame_ops(data).len() - 1)),
{
    let setup = setup_ops(
        data.display_size,
        transform_for(data.display_pos, data.display_size)->0,
    );
    let batches = batch_ops(data.draw_lists@, projection_of(data));
    lemma_batches_pair_scissor_with_draw(data.draw_lists@, projection_of(data));
    assert(setup.len() == 6);
    assert(frame_ops(data).take(6) =~= setup);
    assert(frame_ops(data).subrange(6, frame_ops(data).len() - 1) =~= batches);
}

fn emit_command(
    out: &mut Vec<GpuCommand>,
    cmd: &DrawCmd,
    p: Projection,
    list: usize,
    position: usize,
    base_vtx: usize,
    base_idx: usize,
    Ghost(owner): Ghost<DrawList>,
)
    requires
        command_in_list(*cmd, owner),
        base_vtx + owner.vtx_count <= MAX_VERTICES,
        base_idx + owner.idx_count <= MAX_INDICES,
    ensures
        final(out)@ == old(out)@ + command_ops(
            *cmd,
            p,
            list as int,
            position as int,
            base_vtx as int,
            base_idx as int,
        ),
{
    match cmd {
        DrawCmd::ResetRenderState => {},
        DrawCmd::RawCallback => {
            out.push(GpuCommand::Callback { list, command: position });
        },
        DrawCmd::Elements { count, clip_rect, texture_id, vtx_offset, idx_offset } => {
            if let Some(scissor) = scissor(*clip_rect, p) {
                out.push(GpuCommand::SetScissor { scissor });
                out.push(GpuCommand::BindTexture { texture_id: *texture_id });
                out.push(
                    GpuCommand::DrawIndexed {
                        index_count: *count as u32,
                        first_index: (base_idx + *idx_offset) as u32,
                        vertex_offset: (base_vtx + *vtx_offset) as i32,
                    },
                );
            }
        },
    }
    assert(out@ =~= old(out)@ + command_ops(
        *cmd,
        p,
        list as int,
        position as int,
        base_vtx as int,
        base_idx as int,
    ));
}

fn emit_list(
    out: &mut Vec<GpuCommand>,
    draw_list: &DrawList,
    p: Projection,
    list: usize,
    base_vtx: usize,
    base_idx: usize,
)
    requires
        list_wf(*draw_list),
        base_vtx + draw_list.vtx_count <= MAX_VERTICES,
        base_idx + draw_list.idx_count <= MAX_INDICES,
    ensures
        final(out)@ == old(out)@ + list_ops(
            draw_list.commands@,
            p,
            list as int,
            base_vtx as int,
            base_idx as int,
        ),
{
    let mut j: usize = 0;
    while j < draw_list.commands.len()
        invariant
            0 <= j <= draw_list.commands.len(),
            list_wf(*draw_list),
            base_vtx + draw_list.vtx_count <= MAX_VERTICES,
            base_idx + draw_list.idx_count <= MAX_INDICES,
            out@ == old(out)@ + list_ops(
                draw_list.commands@.take(j as int),
                p,
                list as int,
                base_vtx as int,
                base_idx as int,
            ),
        decreases draw_list.commands.len() - j,
    {
        proof {
            let next = draw_list.commands@.take(j + 1);
            assert(next.drop_last() =~= draw_list.commands@.take(j as int));
            assert(next.last() == draw_list.commands@[j as int]);
        }
        emit_command(
            out,
            &draw_list.commands[j],
            p,
            list,
            j,
            base_vtx,
            base_idx,
            Ghost(*draw_list),
        );
        j += 1;
        assert(out@ =~= old(out)@ + list_ops(
            draw_list.commands@.take(j as int),
            p,
            list as int,
            base_vtx as int,
            base_idx as int,
        ));
    }
    proof {
        assert(draw_list.commands@.take(draw_list.commands.len() as int) =~= draw_list.commands@);
    }
}

/// Turns the data of a frame into the calls that draw it, see
/// [`frame_ops`].
pub(crate) fn translate(data: &DrawData) -> (ops: Vec<GpuCommand>)
    requires
        data.display_size.width > 0,
        data.display_size.height > 0,
        total_vertices(data.draw_lists@) <= MAX_VERTICES,
        total_indices(data.draw_lists@) <= MAX_INDICES,
        lists_wf(data.draw_lists@),
    ensures
        ops@ == frame_ops(*data),
{
    let p = Projection {
        display_pos: data.display_pos,
        framebuffer_scale: data.framebuffer_scale,
        framebuffer_size: data.display_size,
    };
    let size = data.display_size;
    let t = display_transform(data.display_pos, size).unwrap();
    let mut ops: Vec<GpuCommand> = Vec::new();
    ops.push(GpuCommand::BindPipeline);
    ops.push(GpuCommand::BindVertexBuffer { offset: 0 });
    ops.push(GpuCommand::BindIndexBuffer { offset: 0 });
    ops.push(GpuCommand::SetViewport { width: size.width, height: size.height });
    ops.push(GpuCommand::PushConstants { byte_offset: SCALE_OFFSET, x: t.scale_x, y: t.scale_y });
    ops.push(
        GpuCommand::PushConstants {
            byte_offset: TRANSLATE_OFFSET,
            x: t.translate_x,
            y: t.translate_y,
        },
    );
    assert(ops@ =~= setup_ops(size, t));
    let mut base_vtx: usize = 0;
    let mut base_idx: usize = 0;
    let mut i: usize = 0;
    while i < data.draw_lists.len()
        invariant
            0 <= i <= data.draw_lists.len(),
            p == projection_of(*data),
            total_vertices(data.draw_lists@) <= MAX_VERTICES,
            total_indices(data.draw_lists@) <= MAX_INDICES,
            lists_wf(data.draw_lists@),
            base_vtx == total_vertices(data.draw_lists@.take(i as int)),
            base_idx == total_indices(data.draw_lists@.take(i as int)),
            ops@ == setup_ops(size, t) + batch_ops(data.draw_lists@.take(i as int), p),
        decreases data.draw_lists.len() - i,
    {
        proof {
            lemma_total_elements_prefix(data.draw_lists@, BufferKind::Vertex, i as int);
            lemma_total_elements_prefix(data.draw_lists@, BufferKind::Index, i as int);
            let next = data.draw_lists@.take(i + 1);
            assert(next.drop_last() =~= data.draw_lists@.take(i as int));
            assert(next.last() == data.draw_lists@[i as int]);
        }
        let draw_list = &data.draw_lists[i];
        emit_list(&mut ops, draw_list, p, i, base_vtx, base_idx);
        base_vtx = base_vtx + draw_list.vtx_count;
        base_idx = base_idx + draw_list.idx_count;
        i += 1;
        assert(ops@ =~= setup_ops(size, t) + batch_ops(data.draw_lists@.take(i as int), p));
    }
    proof {
        assert(data.draw_lists@.take(data.draw_lists.len() as int) =~= data.draw_lists@);
    }
    ops.push(
        GpuCommand::SetScissor {
            scissor: Scissor { x: 0, y: 0, width: size.width, height: size.height },
        },
    );
    assert(ops@ =~= frame_ops(*data));
    ops
}

} // verus!
