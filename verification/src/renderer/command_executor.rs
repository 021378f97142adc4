use vstd::prelude::*;

use super::batching::{lemma_ranges_within, Frame};
use super::command_manager::{CommandManager, FrameRecord, InternalCommands};
use super::pipelines::PipelineManager;
use super::sliding_window::{
    draws_from_buffer, instance_passes, lemma_passes_cover_range,
    lemma_resident_range_is_drawn_once, passes, window_after, window_holds, InstancePass, LoadOp,
};
use crate::material::manager::{lemma_prepared_is_lasting, uploads_due, TextureManager, TextureRegistry};
use crate::material::texture::TextureUpload;
use crate::material::InternalHandle;
use crate::Colour;

verus! {

/// One step of the GPU work of a frame.
#[derive(Debug, Clone, Copy, PartialEq, Eq)]
pub enum GpuCall {
    /// Copy the backing texture `backing` into the texture slot of the
    /// shape pipeline.
    BindTexture { backing: InternalHandle },
    /// One pass of the line pipeline.
    RenderLines { pass: InstancePass },
    /// One pass of the shape pipeline, which samples `texture` where there
    /// is one.
    Render2D { pass: InstancePass, texture: Option<InternalHandle> },
    /// One pass of the text pipeline over the sections
    /// `section_start..section_end`.
    RenderSections { section_start: usize, section_end: usize, load_op: LoadOp },
}

/// The GPU work of a frame, in the order in which it is to be done: the
/// texture slot first, then the texture uploads, then the calls.
pub struct FramePlan {
    /// The size with which the texture slot of the shape pipeline is to be
    /// created anew, where it has to be.
    pub recreate_texture_slot: Option<(u32, u32)>,
    /// The backing textures to upload.
    pub texture_uploads: Vec<TextureUpload>,
    /// The uploads of instances and the render passes.
    pub calls: Vec<GpuCall>,
}

/// What the executor knows of the GPU while it walks the batch list.
pub struct GpuState {
    /// The colour that the next pass starts from, where a clear is waiting
    /// for its pass.
    pub clear_colour: Option<Colour>,
    /// The line instances that the line instance buffer holds.
    pub line_instances_on_gpu: Option<(usize, usize)>,
    /// The shape instances that the shape instance buffer holds.
    pub two_d_instances_on_gpu: Option<(usize, usize)>,
    /// The backing texture that the texture slot holds.
    pub bound_texture: Option<InternalHandle>,
}

/// What the first pass of the next batch starts from.
pub open spec fn load_op_for(clear_colour: Option<Colour>) -> LoadOp {
    match clear_colour {
        Some(colour) => LoadOp::Clear(colour),
        None => LoadOp::Load,
    }
}

/// The texture that a shape batch is drawn with: the one it is bound to,
/// where that one is loaded.
pub open spec fn texture_to_draw(texture: Option<InternalHandle>, registry: TextureRegistry) -> Option<
    InternalHandle,
> {
    match texture {
        Some(handle) => if registry.loaded(handle) is Some {
            Some(handle)
        } else {
            None
        },
        None => None,
    }
}

/// One call of the line pipeline for each pass.
pub open spec fn line_calls(passes: Seq<InstancePass>) -> Seq<GpuCall> {
    passes.map_values(|pass: InstancePass| GpuCall::RenderLines { pass })
}

/// One call of the shape pipeline for each pass, sampling `texture`.
pub open spec fn shape_calls(passes: Seq<InstancePass>, texture: Option<InternalHandle>) -> Seq<
    GpuCall,
> {
    passes.map_values(|pass: InstancePass| GpuCall::Render2D { pass, texture })
}

/// The call that copies the texture `drawn` into the texture slot, where
/// there is one to draw with and the slot, which holds `bound`, does not
/// hold it yet.
pub open spec fn bind_calls(drawn: Option<InternalHandle>, bound: Option<InternalHandle>) -> Seq<
    GpuCall,
> {
    if drawn is Some && drawn != bound {
        seq![GpuCall::BindTexture { backing: drawn->0 }]
    } else {
        Seq::empty()
    }
}

/// The GPU calls that the batch list entry `entry` takes, with the GPU in
/// `state`, `record` holding the instances, and `registry` the textures.
pub open spec fn calls_for(
    state: GpuState,
    entry: InternalCommands,
    record: FrameRecord,
    registry: TextureRegistry,
) -> Seq<GpuCall> {
    match entry {
        InternalCommands::DrawLinesBatch { line_instance_start, line_instance_end } => line_calls(
            passes(
                line_instance_start,
                line_instance_end,
                record.line_instances.len() as usize,
                state.line_instances_on_gpu,
                load_op_for(state.clear_colour),
            ),
        ),
        InternalCommands::DrawTwoDBatch { instance_start, instance_end, texture } => bind_calls(
            texture_to_draw(texture, registry),
            state.bound_texture,
        ) + shape_calls(
            passes(
                instance_start,
                instance_end,
                record.two_d_instances.len() as usize,
                state.two_d_instances_on_gpu,
                load_op_for(state.clear_colour),
            ),
            texture_to_draw(texture, registry),
        ),
        InternalCommands::DrawTextBatch { section_start, section_end } => seq![
            GpuCall::RenderSections {
                section_start,
                section_end,
                load_op: load_op_for(state.clear_colour),
            },
        ],
        _ => Seq::empty(),
    }
}

/// The state of the GPU after the calls for `entry`.
pub open spec fn state_after(
    state: GpuState,
    entry: InternalCommands,
    record: FrameRecord,
    registry: TextureRegistry,
) -> GpuState {
    match entry {
        InternalCommands::Clear { colour } => GpuState { clear_colour: Some(colour), ..state },
        InternalCommands::DrawLinesBatch { line_instance_start, line_instance_end } => GpuState {
            clear_colour: None,
            line_instances_on_gpu: window_after(
                line_instance_start,
                line_instance_end,
                record.line_instances.len() as usize,
                state.line_instances_on_gpu,
            ),
            ..state
        },
        InternalCommands::DrawTwoDBatch { instance_start, instance_end, texture } => GpuState {
            clear_colour: None,
            two_d_instances_on_gpu: window_after(
                instance_start,
                instance_end,
                record.two_d_instances.len() as usize,
                state.two_d_instances_on_gpu,
            ),
            bound_texture: if texture_to_draw(texture, registry) is Some {
                texture_to_draw(texture, registry)
            } else {
                state.bound_texture
            },
            ..state
        },
        InternalCommands::DrawTextBatch { .. } => GpuState { clear_colour: None, ..state },
        InternalCommands::Nothing => state,
    }
}

/// A walk over a batch list: the GPU calls it takes, and the state of the
/// GPU after them.
pub struct Walk {
    pub state: GpuState,
    pub calls: Seq<GpuCall>,
}

/// The walk over `commands`, entry by entry, from the GPU in `state`.
pub open spec fn walk(
    state: GpuState,
    commands: Seq<InternalCommands>,
    record: FrameRecord,
    registry: TextureRegistry,
) -> Walk
    decreases commands.len(),
{
    if commands.len() == 0 {
        Walk { state, calls: Seq::empty() }
    } else {
        let earlier = walk(state, commands.drop_last(), record, registry);
        Walk {
            state: state_after(earlier.state, commands.last(), record, registry),
            calls: earlier.calls + calls_for(earlier.state, commands.last(), record, registry),
        }
    }
}

/// Whether `entry`, where it is a batch of lines or shapes, ranges over
/// instances that `record` holds.
pub open spec fn in_range(entry: InternalCommands, record: FrameRecord) -> bool {
    match entry {
        InternalCommands::DrawLinesBatch { line_instance_start, line_instance_end } => {
            line_instance_start <= line_instance_end <= record.line_instances.len() <= usize::MAX
        },
        InternalCommands::DrawTwoDBatch { instance_start, instance_end, .. } => {
            instance_start <= instance_end <= record.two_d_instances.len() <= usize::MAX
        },
        _ => true,
    }
}

/// Whether every batch of `record` ranges over instances that `record`
/// holds.
pub open spec fn drawable(record: FrameRecord) -> bool {
    forall|i: int| 0 <= i < record.commands.len() ==> in_range(#[trigger] record.commands[i], record)
}

/// Checks that every batch of `command_manager` ranges over instances that
/// it holds.
pub fn is_drawable(command_manager: &CommandManager) -> (ok: bool)
    ensures
        ok == drawable(command_manager@),
{
    let commands = command_manager.commands();
    let n_lines = command_manager.n_line_instances();
    let n_shapes = command_manager.n_two_d_instance();
    let mut i: usize = 0;
    while i < commands.len()
        invariant
            0 <= i <= commands@.len(),
            commands@ == command_manager@.commands,
            n_lines == command_manager@.line_instances.len(),
            n_shapes == command_manager@.two_d_instances.len(),
            forall|k: int| 0 <= k < i ==> in_range(#[trigger] commands@[k], command_manager@),
        decreases commands@.len() - i,
    {
        let fits = match commands[i] {
            InternalCommands::DrawLinesBatch { line_instance_start, line_instance_end } => {
                line_instance_start <= line_instance_end && line_instance_end <= n_lines
            },
            InternalCommands::DrawTwoDBatch { instance_start, instance_end, .. } => {
                instance_start <= instance_end && instance_end <= n_shapes
            },
            _ => true,
        };
        if !fits {
            assert(!in_range(command_manager@.commands[i as int], command_manager@));
            return false;
        }
        i += 1;
    }
    true
}

/// Every batch of a well-formed frame ranges over instances that the frame
/// holds.
pub proof fn lemma_well_formed_is_drawable<S>(frame: Frame<S>)
    requires
        frame.wf(),
    ensures
        drawable(frame.record),
{
    assert forall|i: int| 0 <= i < frame.record.commands.len() implies in_range(
        #[trigger] frame.record.commands[i],
        frame.record,
    ) by {
        lemma_ranges_within(frame.record.commands, i);
    }
}

/// The window that the line instance buffer holds after `calls`, where it
/// held `before`: what the last pass of the line pipeline that loaded the
/// buffer has loaded.
pub open spec fn lines_held(calls: Seq<GpuCall>, before: Option<(usize, usize)>) -> Option<
    (usize, usize),
>
    decreases calls.len(),
{
    if calls.len() == 0 {
        before
    } else {
        match calls.last() {
            GpuCall::RenderLines { pass } => if pass.upload is Some {
                pass.upload
            } else {
                lines_held(calls.drop_last(), before)
            },
            _ => lines_held(calls.drop_last(), before),
        }
    }
}

/// The window that the shape instance buffer holds after `calls`, where it
/// held `before`.
pub open spec fn shapes_held(calls: Seq<GpuCall>, before: Option<(usize, usize)>) -> Option<
    (usize, usize),
>
    decreases calls.len(),
{
    if calls.len() == 0 {
        before
    } else {
        match calls.last() {
            GpuCall::Render2D { pass, .. } => if pass.upload is Some {
                pass.upload
            } else {
                shapes_held(calls.drop_last(), before)
            },
            _ => shapes_held(calls.drop_last(), before),
        }
    }
}

/// Whether the call `calls[j]`, where it is a pass over instances, draws
/// only instances that its buffer holds at that point of `calls`, with the
/// GPU in `state` before the first call.
pub open spec fn draws_what_is_held(
    calls: Seq<GpuCall>,
    j: int,
    state: GpuState,
    record: FrameRecord,
) -> bool {
    match calls[j] {
        GpuCall::RenderLines { pass } => draws_from_buffer(
            pass,
            lines_held(calls.take(j), state.line_instances_on_gpu),
            record.line_instances.len() as usize,
        ),
        GpuCall::Render2D { pass, .. } => draws_from_buffer(
            pass,
            shapes_held(calls.take(j), state.two_d_instances_on_gpu),
            record.two_d_instances.len() as usize,
        ),
        _ => true,
    }
}

/// What the buffers hold after two runs of calls is what they hold after
/// the second, having held what they hold after the first.
pub proof fn lemma_held_in_turn(
    first: Seq<GpuCall>,
    second: Seq<GpuCall>,
    before: Option<(usize, usize)>,
)
    ensures
        lines_held(first + second, before) == lines_held(second, lines_held(first, before)),
        shapes_held(first + second, before) == shapes_held(second, shapes_held(first, before)),
    decreases second.len(),
{
    if second.len() == 0 {
        assert(first + second =~= first);
    } else {
        assert((first + second).drop_last() =~= first + second.drop_last());
        assert((first + second).last() == second.last());
        lemma_held_in_turn(first, second.drop_last(), before);
    }
}

/// Calls that are no passes of the line pipeline leave the line instance
/// buffer as it is, and calls that are no passes of the shape pipeline the
/// shape instance buffer.
pub proof fn lemma_held_untouched(calls: Seq<GpuCall>, before: Option<(usize, usize)>)
    ensures
        (forall|j: int| 0 <= j < calls.len() ==> !(#[trigger] calls[j] is RenderLines))
            ==> lines_held(calls, before) == before,
        (forall|j: int| 0 <= j < calls.len() ==> !(#[trigger] calls[j] is Render2D))
            ==> shapes_held(calls, before) == before,
    decreases calls.len(),
{
    if calls.len() > 0 {
        lemma_held_untouched(calls.drop_last(), before);
        assert(forall|j: int|
            0 <= j < calls.drop_last().len() ==> #[trigger] calls.drop_last()[j] == calls[j]);
        if forall|j: int| 0 <= j < calls.len() ==> !(#[trigger] calls[j] is RenderLines) {
            assert(!(calls[calls.len() - 1] is RenderLines));
        }
        if forall|j: int| 0 <= j < calls.len() ==> !(#[trigger] calls[j] is Render2D) {
            assert(!(calls[calls.len() - 1] is Render2D));
        }
    }
}

/// What the line instance buffer holds after the passes of one batch.
proof fn lemma_line_passes_held(ps: Seq<InstancePass>, before: Option<(usize, usize)>)
    requires
        ps.len() >= 1,
        ps.len() == 1 || ps.last().upload is Some,
    ensures
        lines_held(line_calls(ps), before) == if ps.last().upload is Some {
            ps.last().upload
        } else {
            before
        },
        shapes_held(line_calls(ps), before) == before,
{
    let calls = line_calls(ps);
    assert(calls.last() == GpuCall::RenderLines { pass: ps.last() });
    if ps.len() == 1 {
        assert(calls.drop_last() =~= Seq::<GpuCall>::empty());
        assert(lines_held(Seq::<GpuCall>::empty(), before) == before);
    }
    lemma_held_untouched(calls, before);
}

/// What the shape instance buffer holds after the passes of one batch.
proof fn lemma_shape_passes_held(
    ps: Seq<InstancePass>,
    texture: Option<InternalHandle>,
    before: Option<(usize, usize)>,
)
    requires
        ps.len() >= 1,
        ps.len() == 1 || ps.last().upload is Some,
    ensures
        shapes_held(shape_calls(ps, texture), before) == if ps.last().upload is Some {
            ps.last().upload
        } else {
            before
        },
        lines_held(shape_calls(ps, texture), before) == before,
{
    let calls = shape_calls(ps, texture);
    assert(calls.last() == GpuCall::Render2D { pass: ps.last(), texture });
    if ps.len() == 1 {
        assert(calls.drop_last() =~= Seq::<GpuCall>::empty());
        assert(shapes_held(Seq::<GpuCall>::empty(), before) == before);
    }
    lemma_held_untouched(calls, before);
}

/// The passes of a range draw only what the buffer holds, and leave the
/// buffer holding the window that is reported.
proof fn lemma_range_draws_what_is_held(
    start: usize,
    end: usize,
    total: usize,
    on_gpu: Option<(usize, usize)>,
    first_op: LoadOp,
)
    requires
        start <= end <= total,
    ensures
        ({
            let ps = passes(start, end, total, on_gpu, first_op);
            &&& ps.len() >= 1
            &&& ps.len() == 1 || ps.last().upload is Some
            &&& window_after(start, end, total, on_gpu) == if ps.last().upload is Some {
                ps.last().upload
            } else {
                on_gpu
            }
            &&& draws_from_buffer(ps[0], on_gpu, total)
            &&& forall|j: int|
                0 < j < ps.len() ==> (#[trigger] ps[j]).upload is Some && draws_from_buffer(
                    ps[j],
                    None,
                    total,
                )
        }),
{
    if window_holds(on_gpu, start, end) {
        lemma_resident_range_is_drawn_once(start, end, total, on_gpu, first_op);
    } else {
        lemma_passes_cover_range(start, end, total, on_gpu, first_op);
    }
}

/// The calls for one entry of the batch list draw only what their buffers
/// hold, and leave the buffers holding what the executor takes them to hold.
pub proof fn lemma_entry_draws_what_is_held(
    state: GpuState,
    entry: InternalCommands,
    record: FrameRecord,
    registry: TextureRegistry,
)
    requires
        in_range(entry, record),
    ensures
        lines_held(calls_for(state, entry, record, registry), state.line_instances_on_gpu)
            == state_after(state, entry, record, registry).line_instances_on_gpu,
        shapes_held(calls_for(state, entry, record, registry), state.two_d_instances_on_gpu)
            == state_after(state, entry, record, registry).two_d_instances_on_gpu,
        forall|j: int|
            0 <= j < calls_for(state, entry, record, registry).len() ==> draws_what_is_held(
                calls_for(state, entry, record, registry),
                j,
                state,
                record,
            ),
{
    let calls = calls_for(state, entry, record, registry);
    let first_op = load_op_for(state.clear_colour);
    match entry {
        InternalCommands::DrawLinesBatch { line_instance_start, line_instance_end } => {
            let total = record.line_instances.len() as usize;
            let on_gpu = state.line_instances_on_gpu;
            let ps = passes(line_instance_start, line_instance_end, total, on_gpu, first_op);
            lemma_range_draws_what_is_held(
                line_instance_start,
                line_instance_end,
                total,
                on_gpu,
                first_op,
            );
            lemma_line_passes_held(ps, on_gpu);
            lemma_line_passes_held(ps, state.two_d_instances_on_gpu);
            assert forall|j: int| 0 <= j < calls.len() implies draws_what_is_held(
                calls,
                j,
                state,
                record,
            ) by {
                assert(calls[j] == GpuCall::RenderLines { pass: ps[j] });
                if j == 0 {
                    assert(calls.take(0) =~= Seq::<GpuCall>::empty());
                }
            }
        },
        InternalCommands::DrawTwoDBatch { instance_start, instance_end, texture } => {
            let total = record.two_d_instances.len() as usize;
            let on_gpu = state.two_d_instances_on_gpu;
            let ps = passes(instance_start, instance_end, total, on_gpu, first_op);
            let drawn = texture_to_draw(texture, registry);
            let bind = bind_calls(drawn, state.bound_texture);
            let drawing = shape_calls(ps, drawn);
            lemma_range_draws_what_is_held(instance_start, instance_end, total, on_gpu, first_op);
            lemma_held_untouched(bind, on_gpu);
            lemma_held_untouched(bind, state.line_instances_on_gpu);
            lemma_held_in_turn(bind, drawing, on_gpu);
            lemma_held_in_turn(bind, drawing, state.line_instances_on_gpu);
            lemma_shape_passes_held(ps, drawn, on_gpu);
            lemma_shape_passes_held(ps, drawn, state.line_instances_on_gpu);
            assert forall|j: int| 0 <= j < calls.len() implies draws_what_is_held(
                calls,
                j,
                state,
                record,
            ) by {
                if j >= bind.len() {
                    let k = j - bind.len();
                    assert(calls[j] == GpuCall::Render2D { pass: ps[k], texture: drawn });
                    if k == 0 {
                        assert(calls.take(j) =~= bind);
                    }
                }
            }
        },
        _ => {
            lemma_held_untouched(calls, state.line_instances_on_gpu);
            lemma_held_untouched(calls, state.two_d_instances_on_gpu);
        },
    }
}

/// The walk over a batch list whose batches range over instances that
/// there are never draws an instance that is not in its buffer when it is
/// drawn: each pass draws from the window that the pass itself, or the last
/// pass before it that loaded the buffer, has loaded, and never more at
/// once than the buffer holds.
pub proof fn lemma_walk_draws_what_is_held(
    state: GpuState,
    commands: Seq<InternalCommands>,
    record: FrameRecord,
    registry: TextureRegistry,
)
    requires
        forall|i: int| 0 <= i < commands.len() ==> in_range(#[trigger] commands[i], record),
    ensures
        lines_held(walk(state, commands, record, registry).calls, state.line_instances_on_gpu)
            == walk(state, commands, record, registry).state.line_instances_on_gpu,
        shapes_held(walk(state, commands, record, registry).calls, state.two_d_instances_on_gpu)
            == walk(state, commands, record, registry).state.two_d_instances_on_gpu,
        forall|j: int|
            0 <= j < walk(state, commands, record, registry).calls.len() ==> draws_what_is_held(
                walk(state, commands, record, registry).calls,
                j,
                state,
                record,
            ),
    decreases commands.len(),
{
    if commands.len() > 0 {
        let earlier = walk(state, commands.drop_last(), record, registry);
        let entry = commands.last();
        let new = calls_for(earlier.state, entry, record, registry);
        let all = walk(state, commands, record, registry).calls;
        assert(forall|i: int|
            0 <= i < commands.drop_last().len() ==> #[trigger] commands.drop_last()[i] == commands[i]);
        lemma_walk_draws_what_is_held(state, commands.drop_last(), record, registry);
        lemma_entry_draws_what_is_held(earlier.state, entry, record, registry);
        lemma_held_in_turn(earlier.calls, new, state.line_instances_on_gpu);
        lemma_held_in_turn(earlier.calls, new, state.two_d_instances_on_gpu);
        assert(all == earlier.calls + new);
        assert forall|j: int| 0 <= j < all.len() implies draws_what_is_held(all, j, state, record) by {
            if j < earlier.calls.len() {
                assert(all.take(j) =~= earlier.calls.take(j));
                assert(draws_what_is_held(earlier.calls, j, state, record));
            } else {
                let k = j - earlier.calls.len();
                assert(all.take(j) =~= earlier.calls + new.take(k));
                lemma_held_in_turn(earlier.calls, new.take(k), state.line_instances_on_gpu);
                lemma_held_in_turn(earlier.calls, new.take(k), state.two_d_instances_on_gpu);
                assert(draws_what_is_held(new, k, earlier.state, record));
            }
        }
    }
}

/// Walks the batch list of a frame and plans the GPU work that draws it.
pub struct CommandExecutor<'ce> {
    pub command_manager: &'ce CommandManager,
    pub pipeline_manager: &'ce mut PipelineManager,
    pub texture_manager: &'ce mut TextureManager,
    pub clear_colour: Option<Colour>,
    pub line_instances_on_gpu: Option<(usize, usize)>,
    pub two_d_instances_on_gpu: Option<(usize, usize)>,
    pub _three_d_instances_on_gpu: Option<(usize, usize)>,
}

impl<'ce> CommandExecutor<'ce> {
    /// What the executor knows of the GPU.
    pub open spec fn state(&self) -> GpuState {
        GpuState {
            clear_colour: self.clear_colour,
            line_instances_on_gpu: self.line_instances_on_gpu,
            two_d_instances_on_gpu: self.two_d_instances_on_gpu,
            bound_texture: self.pipeline_manager.bound_texture,
        }
    }

    /// The state in which a frame starts: no clear is waiting, and the
    /// instance buffers are taken to hold nothing.
    pub open spec fn fresh(bound_texture: Option<InternalHandle>) -> GpuState {
        GpuState {
            clear_colour: None,
            line_instances_on_gpu: None,
            two_d_instances_on_gpu: None,
            bound_texture,
        }
    }

    /// What the executor knows of the GPU once the texture slot holds every
    /// registered texture: a slot that had to be created anew holds none.
    pub open spec fn state_sized(&self) -> GpuState {
        GpuState {
            bound_texture: self.pipeline_manager.sized_for(
                self.texture_manager@.max_texture_size,
            ).bound_texture,
            ..self.state()
        }
    }

    /// An executor for one frame. It takes nothing to be in the instance
    /// buffers.
    pub fn new(
        command_manager: &'ce CommandManager,
        pipeline_manager: &'ce mut PipelineManager,
        texture_manager: &'ce mut TextureManager,
    ) -> (executor: Self)
        ensures
            executor.command_manager == command_manager,
            *executor.pipeline_manager == *old(pipeline_manager),
            *executor.texture_manager == *old(texture_manager),
            *final(executor.pipeline_manager) == *final(pipeline_manager),
            *final(executor.texture_manager) == *final(texture_manager),
            executor.state() == Self::fresh(old(pipeline_manager).bound_texture),
            executor._three_d_instances_on_gpu is None,
    {
        Self {
            command_manager,
            pipeline_manager,
            texture_manager,
            clear_colour: None,
            line_instances_on_gpu: None,
            two_d_instances_on_gpu: None,
            _three_d_instances_on_gpu: None,
        }
    }

    /// Plans the GPU work of the frame.
    ///
    /// The texture slot of the shape pipeline is made large enough for
    /// every registered texture, and every backing texture that is still
    /// unprepared is handed out for upload and counts as loaded from then
    /// on. Then the batch list is walked in order. A clear waits for the
    /// first pass that follows it. A batch of lines or shapes is drawn in
    /// as few passes as the instance buffer allows, loading the buffer
    /// only where it does not hold what is drawn. A shape batch whose
    /// texture is loaded has that texture copied into the texture slot
    /// first, unless the slot holds it already. A batch of text is one
    /// pass.
    pub fn build_frame(&mut self) -> (plan: FramePlan)
        requires
            drawable(old(self).command_manager@),
            old(self).texture_manager.wf(),
        ensures
            plan.recreate_texture_slot == if old(self).pipeline_manager.outgrown_by(
                old(self).texture_manager@.max_texture_size,
            ) {
                Some(old(self).texture_manager@.max_texture_size)
            } else {
                None
            },
            plan.texture_uploads@ == uploads_due(
                old(self).texture_manager@.textures,
                old(self).texture_manager@.needs_loading,
            ),
            plan.calls@ == walk(
                old(self).state_sized(),
                old(self).command_manager@.commands,
                old(self).command_manager@,
                old(self).texture_manager@.prepared(),
            ).calls,
            final(self).state() == walk(
                old(self).state_sized(),
                old(self).command_manager@.commands,
                old(self).command_manager@,
                old(self).texture_manager@.prepared(),
            ).state,
            final(self).pipeline_manager.texture_size == old(self).pipeline_manager.sized_for(
                old(self).texture_manager@.max_texture_size,
            ).texture_size,
            final(self).texture_manager.wf(),
            final(self).texture_manager@ == old(self).texture_manager@.prepared(),
            final(self).command_manager == old(self).command_manager,
            final(self)._three_d_instances_on_gpu == old(self)._three_d_instances_on_gpu,
            *final(final(self).pipeline_manager) == *final(old(self).pipeline_manager),
            *final(final(self).texture_manager) == *final(old(self).texture_manager),
    {
        let ghost start = old(self).state_sized();
        let ghost record = old(self).command_manager@;
        let ghost registry = old(self).texture_manager@.prepared();

        let required = self.texture_manager.buffer_dimensions_required();
        let recreate = self.pipeline_manager.prepare_buffers(required);
        let recreate_texture_slot = if recreate {
            Some(required)
        } else {
            None
        };

        let texture_uploads = if self.texture_manager.needs_preparing() {
            self.texture_manager.prepare()
        } else {
            proof {
                lemma_prepared_is_lasting(self.texture_manager@);
            }
            Vec::new()
        };

        let command_manager = self.command_manager;
        let commands = command_manager.commands();
        let n_lines = command_manager.n_line_instances();
        let n_shapes = command_manager.n_two_d_instance();
        let mut calls: Vec<GpuCall> = Vec::new();
        let mut i: usize = 0;
        while i < commands.len()
            invariant
                0 <= i <= commands@.len(),
                commands@ == record.commands,
                n_lines == record.line_instances.len(),
                n_shapes == record.two_d_instances.len(),
                drawable(record),
                self.texture_manager.wf(),
                self.texture_manager@ == registry,
                self.command_manager == old(self).command_manager,
                self._three_d_instances_on_gpu == old(self)._three_d_instances_on_gpu,
                self.pipeline_manager.texture_size == start_size(old(self)),
                self.state() == walk(start, commands@.take(i as int), record, registry).state,
                calls@ == walk(start, commands@.take(i as int), record, registry).calls,
                *final(self.pipeline_manager) == *final(old(self).pipeline_manager),
                *final(self.texture_manager) == *final(old(self).texture_manager),
            decreases commands@.len() - i,
        {
            let ghost earlier = walk(start, commands@.take(i as int), record, registry);
            proof {
                let upto = commands@.take(i + 1);
                assert(upto.drop_last() == commands@.take(i as int));
                assert(upto.last() == commands@[i as int]);
            }
            match commands[i] {
                InternalCommands::Clear { colour } => {
                    self.clear_colour = Some(colour);
                },
                InternalCommands::DrawLinesBatch { line_instance_start, line_instance_end } => {
                    let load_op = match self.clear_colour {
                        Some(colour) => LoadOp::Clear(colour),
                        None => LoadOp::Load,
                    };
                    self.clear_colour = None;
                    let mut batch: Vec<InstancePass> = Vec::new();
                    let window = instance_passes(
                        line_instance_start,
                        line_instance_end,
                        n_lines,
                        self.line_instances_on_gpu,
                        load_op,
                        &mut batch,
                    );
                    self.line_instances_on_gpu = window;
                    push_line_passes(&mut calls, &batch);
                },
                InternalCommands::DrawTwoDBatch { instance_start, instance_end, texture } => {
                    let load_op = match self.clear_colour {
                        Some(colour) => LoadOp::Clear(colour),
                        None => LoadOp::Load,
                    };
                    self.clear_colour = None;
                    let texture_for_instances = match texture {
                        Some(texture_handle) => match self.texture_manager.get_texture(
                            &texture_handle,
                        ) {
                            Some(_) => Some(texture_handle),
                            None => None,
                        },
                        None => None,
                    };
                    if let Some(backing) = texture_for_instances {
                        let bound = match self.pipeline_manager.bound_texture {
                            Some(current) => current == backing,
                            None => false,
                        };
                        if !bound {
                            calls.push(GpuCall::BindTexture { backing });
                            self.pipeline_manager.bound_texture = Some(backing);
                        }
                    }
                    let mut batch: Vec<InstancePass> = Vec::new();
                    let window = instance_passes(
                        instance_start,
                        instance_end,
                        n_shapes,
                        self.two_d_instances_on_gpu,
                        load_op,
                        &mut batch,
                    );
                    self.two_d_instances_on_gpu = window;
                    push_shape_passes(&mut calls, &batch, texture_for_instances);
                },
                InternalCommands::DrawTextBatch { section_start, section_end } => {
                    let load_op = match self.clear_colour {
                        Some(colour) => LoadOp::Clear(colour),
                        None => LoadOp::Load,
                    };
                    self.clear_colour = None;
                    calls.push(GpuCall::RenderSections { section_start, section_end, load_op });
                },
                InternalCommands::Nothing => {},
            }
            proof {
                assert(calls@ =~= earlier.calls + calls_for(
                    earlier.state,
                    commands@[i as int],
                    record,
                    registry,
                ));
            }
            i += 1;
        }
        proof {
            assert(commands@.take(i as int) == commands@);
        }
        FramePlan { recreate_texture_slot, texture_uploads, calls }
    }
}

/// The size of the texture slot once it holds every registered texture.
pub open spec fn start_size(executor: &CommandExecutor) -> (u32, u32) {
    executor.pipeline_manager.sized_for(executor.texture_manager@.max_texture_size).texture_size
}

/// Appends one call of the line pipeline for each pass.
fn push_line_passes(calls: &mut Vec<GpuCall>, batch: &Vec<InstancePass>)
    ensures
        final(calls)@ == old(calls)@ + line_calls(batch@),
{
    let mut j: usize = 0;
    while j < batch.len()
        invariant
            0 <= j <= batch@.len(),
            calls@ == old(calls)@ + line_calls(batch@.take(j as int)),
        decreases batch@.len() - j,
    {
        calls.push(GpuCall::RenderLines { pass: batch[j] });
        proof {
            assert(calls@ =~= old(calls)@ + line_calls(batch@.take(j + 1)));
        }
        j += 1;
    }
    proof {
        assert(batch@.take(j as int) == batch@);
    }
}

/// Appends one call of the shape pipeline for each pass.
fn push_shape_passes(
    calls: &mut Vec<GpuCall>,
    batch: &Vec<InstancePass>,
    texture: Option<InternalHandle>,
)
    ensures
        final(calls)@ == old(calls)@ + shape_calls(batch@, texture),
{
    let mut j: usize = 0;
    while j < batch.len()
        invariant
            0 <= j <= batch@.len(),
            calls@ == old(calls)@ + shape_calls(batch@.take(j as int), texture),
        decreases batch@.len() - j,
    {
        calls.push(GpuCall::Render2D { pass: batch[j], texture });
        proof {
            assert(calls@ =~= old(calls)@ + shape_calls(batch@.take(j + 1), texture));
        }
        j += 1;
    }
    proof {
        assert(batch@.take(j as int) == batch@);
    }
}

} // verus!
