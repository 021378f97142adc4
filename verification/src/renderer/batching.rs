//! The rules by which draw commands are gathered into batches, stated over
//! plain sequences, and what follows from them.

use vstd::prelude::*;

use super::command_manager::{FrameRecord, InternalCommands};
use super::instances::{LineInstance, TwoDInstance};
use super::render_commands::{RenderCommand, TwoDDescription};
use super::section_manager::MAX_SECTIONS;
use crate::material::manager::TextureRegistry;
use crate::material::InternalHandle;
use crate::Colour;

verus! {

/// How many line instances the batches of `commands` cover: the end of its
/// last line batch, or 0 where it has none.
pub open spec fn lines_end(commands: Seq<InternalCommands>) -> nat
    decreases commands.len(),
{
    if commands.len() == 0 {
        0
    } else {
        match commands.last() {
            InternalCommands::DrawLinesBatch { line_instance_end, .. } => line_instance_end as nat,
            _ => lines_end(commands.drop_last()),
        }
    }
}

/// How many shape instances the batches of `commands` cover.
pub open spec fn shapes_end(commands: Seq<InternalCommands>) -> nat
    decreases commands.len(),
{
    if commands.len() == 0 {
        0
    } else {
        match commands.last() {
            InternalCommands::DrawTwoDBatch { instance_end, .. } => instance_end as nat,
            _ => shapes_end(commands.drop_last()),
        }
    }
}

/// How many text sections the batches of `commands` cover.
pub open spec fn sections_end(commands: Seq<InternalCommands>) -> nat
    decreases commands.len(),
{
    if commands.len() == 0 {
        0
    } else {
        match commands.last() {
            InternalCommands::DrawTextBatch { section_end, .. } => section_end as nat,
            _ => sections_end(commands.drop_last()),
        }
    }
}

/// Whether `entry` may follow `earlier` in a batch list: a range is not
/// empty and starts where the ranges of its kind have ended so far.
pub open spec fn continues(earlier: Seq<InternalCommands>, entry: InternalCommands) -> bool {
    match entry {
        InternalCommands::DrawLinesBatch { line_instance_start, line_instance_end } => {
            line_instance_start == lines_end(earlier) && line_instance_start < line_instance_end
        },
        InternalCommands::DrawTwoDBatch { instance_start, instance_end, .. } => {
            instance_start == shapes_end(earlier) && instance_start < instance_end
        },
        InternalCommands::DrawTextBatch { section_start, section_end } => {
            section_start == sections_end(earlier) && section_start < section_end
        },
        _ => true,
    }
}

/// The invariant of a batch list: taken in order, the ranges of each kind
/// are non-empty, start at 0 and follow one another without gap or overlap.
pub open spec fn well_batched(commands: Seq<InternalCommands>) -> bool
    decreases commands.len(),
{
    if commands.len() == 0 {
        true
    } else {
        well_batched(commands.drop_last()) && continues(commands.drop_last(), commands.last())
    }
}

/// The batch list after a clear: the clear stands as an entry of its own.
pub open spec fn with_clear(commands: Seq<InternalCommands>, colour: Colour) -> Seq<
    InternalCommands,
> {
    commands.push(InternalCommands::Clear { colour })
}

/// The batch list after the line instance `index` was appended: a trailing
/// line batch grows by one, anything else is followed by a new line batch.
pub open spec fn with_line(commands: Seq<InternalCommands>, index: usize) -> Seq<InternalCommands> {
    if commands.len() > 0 && commands.last() is DrawLinesBatch {
        commands.update(
            commands.len() - 1,
            InternalCommands::DrawLinesBatch {
                line_instance_start: commands.last()->line_instance_start,
                line_instance_end: (commands.last()->line_instance_end + 1) as usize,
            },
        )
    } else {
        commands.push(
            InternalCommands::DrawLinesBatch {
                line_instance_start: index,
                line_instance_end: (index + 1) as usize,
            },
        )
    }
}

/// Whether a shape drawn with `texture` can ride in a batch bound to
/// `bound`: one of the two names no texture, or both name the same.
pub open spec fn compatible(bound: Option<InternalHandle>, texture: Option<InternalHandle>) -> bool {
    bound is None || texture is None || bound == texture
}

/// The texture a batch is bound to after it took in a shape drawn with
/// `texture`: the first texture that any of its shapes named.
pub open spec fn adopted(bound: Option<InternalHandle>, texture: Option<InternalHandle>) -> Option<
    InternalHandle,
> {
    if bound is None {
        texture
    } else {
        bound
    }
}

/// The batch list after the shape instance `index`, drawn with the backing
/// texture `texture`, was appended: a trailing shape batch that is
/// compatible grows by one, anything else is followed by a new shape batch.
pub open spec fn with_shape(
    commands: Seq<InternalCommands>,
    index: usize,
    texture: Option<InternalHandle>,
) -> Seq<InternalCommands> {
    if commands.len() > 0 && commands.last() is DrawTwoDBatch && compatible(
        commands.last()->texture,
        texture,
    ) {
        commands.update(
            commands.len() - 1,
            InternalCommands::DrawTwoDBatch {
                instance_start: commands.last()->instance_start,
                instance_end: (commands.last()->instance_end + 1) as usize,
                texture: adopted(commands.last()->texture, texture),
            },
        )
    } else {
        commands.push(
            InternalCommands::DrawTwoDBatch {
                instance_start: index,
                instance_end: (index + 1) as usize,
                texture,
            },
        )
    }
}

/// The batch list after the text section `index` was stored: a trailing
/// text batch grows by one, anything else is followed by a new text batch.
pub open spec fn with_text(commands: Seq<InternalCommands>, index: usize) -> Seq<InternalCommands> {
    if commands.len() > 0 && commands.last() is DrawTextBatch {
        commands.update(
            commands.len() - 1,
            InternalCommands::DrawTextBatch {
                section_start: commands.last()->section_start,
                section_end: (commands.last()->section_end + 1) as usize,
            },
        )
    } else {
        commands.push(
            InternalCommands::DrawTextBatch {
                section_start: index,
                section_end: (index + 1) as usize,
            },
        )
    }
}

/// A frame in progress: the batch list, the instances and the text
/// sections that its batches range over.
#[verifier::ext_equal]
pub struct Frame<S> {
    pub record: FrameRecord,
    pub sections: Seq<Option<S>>,
}

impl<S> Frame<S> {
    /// The frame in which nothing was drawn yet.
    pub open spec fn empty() -> Frame<S> {
        Frame { record: FrameRecord::empty(), sections: Seq::empty() }
    }

    /// The invariant of a frame: its batch list is well formed and covers
    /// exactly the lines, shapes and sections that the frame holds.
    pub open spec fn wf(self) -> bool {
        &&& well_batched(self.record.commands)
        &&& lines_end(self.record.commands) == self.record.line_instances.len()
        &&& shapes_end(self.record.commands) == self.record.two_d_instances.len()
        &&& sections_end(self.record.commands) == self.sections.len()
        &&& self.sections.len() <= MAX_SECTIONS
        &&& self.fits()
    }

    /// The frame after one more draw command, with textures resolved
    /// through `registry`.
    pub open spec fn after(self, cmd: RenderCommand<S>, registry: TextureRegistry) -> Frame<S> {
        match cmd {
            RenderCommand::Clear(colour) => Frame {
                record: FrameRecord {
                    commands: with_clear(self.record.commands, colour),
                    ..self.record
                },
                ..self
            },
            RenderCommand::DrawLine(desc) => Frame {
                record: FrameRecord {
                    commands: with_line(
                        self.record.commands,
                        self.record.line_instances.len() as usize,
                    ),
                    line_instances: self.record.line_instances.push(LineInstance::of(desc)),
                    ..self.record
                },
                ..self
            },
            RenderCommand::Draw2D(desc) => Frame {
                record: FrameRecord {
                    commands: with_shape(
                        self.record.commands,
                        self.record.two_d_instances.len() as usize,
                        registry.backing_of(desc.texture),
                    ),
                    two_d_instances: self.record.two_d_instances.push(
                        TwoDInstance::of(desc, registry.corners(desc.texture)),
                    ),
                    ..self.record
                },
                ..self
            },
            RenderCommand::DrawText(section) => if self.sections.len() < MAX_SECTIONS {
                Frame {
                    record: FrameRecord {
                        commands: with_text(self.record.commands, self.sections.len() as usize),
                        ..self.record
                    },
                    sections: self.sections.push(Some(section)),
                }
            } else {
                self
            },
        }
    }

    /// The frame after the draw commands `cmds`, taken in order.
    pub open spec fn after_all(self, cmds: Seq<RenderCommand<S>>, registry: TextureRegistry) -> Frame<
        S,
    >
        decreases cmds.len(),
    {
        if cmds.len() == 0 {
            self
        } else {
            self.after_all(cmds.drop_last(), registry).after(cmds.last(), registry)
        }
    }
}

/// What the end markers and the invariant say of a batch list with one
/// more entry.
pub proof fn lemma_pushed(commands: Seq<InternalCommands>, entry: InternalCommands)
    ensures
        well_batched(commands.push(entry)) == (well_batched(commands) && continues(commands, entry)),
        lines_end(commands.push(entry)) == match entry {
            InternalCommands::DrawLinesBatch { line_instance_end, .. } => line_instance_end as nat,
            _ => lines_end(commands),
        },
        shapes_end(commands.push(entry)) == match entry {
            InternalCommands::DrawTwoDBatch { instance_end, .. } => instance_end as nat,
            _ => shapes_end(commands),
        },
        sections_end(commands.push(entry)) == match entry {
            InternalCommands::DrawTextBatch { section_end, .. } => section_end as nat,
            _ => sections_end(commands),
        },
{
    assert(commands.push(entry).drop_last() == commands);
}

/// What the end markers and the invariant say of a batch list whose last
/// entry was replaced.
pub proof fn lemma_last_replaced(commands: Seq<InternalCommands>, entry: InternalCommands)
    requires
        commands.len() > 0,
    ensures
        commands.update(commands.len() - 1, entry) == commands.drop_last().push(entry),
        well_batched(commands.update(commands.len() - 1, entry)) == (well_batched(
            commands.drop_last(),
        ) && continues(commands.drop_last(), entry)),
{
    assert(commands.update(commands.len() - 1, entry) == commands.drop_last().push(entry));
    lemma_pushed(commands.drop_last(), entry);
}

impl<S> Frame<S> {
    /// The instance lists can be indexed by machine integers.
    pub open spec fn fits(self) -> bool {
        &&& self.record.line_instances.len() <= usize::MAX
        &&& self.record.two_d_instances.len() <= usize::MAX
    }
}

/// Filing a draw command keeps a frame well formed, as long as the
/// instance lists stay within what a machine integer can index.
pub proof fn lemma_after_keeps_frame<S>(
    frame: Frame<S>,
    cmd: RenderCommand<S>,
    registry: TextureRegistry,
)
    requires
        frame.wf(),
        frame.after(cmd, registry).fits(),
    ensures
        frame.after(cmd, registry).wf(),
{
    let commands = frame.record.commands;
    let after = frame.after(cmd, registry).record.commands;
    if commands.len() > 0 {
        assert(commands == commands.drop_last().push(commands.last()));
        lemma_pushed(commands.drop_last(), commands.last());
    }
    if after.len() == commands.len() + 1 {
        assert(after == commands.push(after.last()));
        lemma_pushed(commands, after.last());
    } else if after.len() == commands.len() && commands.len() > 0 {
        assert(after == commands.update(commands.len() - 1, after.last()));
        lemma_last_replaced(commands, after.last());
        lemma_pushed(commands.drop_last(), after.last());
    }
}

/// Filing a run of draw commands keeps a frame well formed.
pub proof fn lemma_after_all_keeps_frame<S>(
    frame: Frame<S>,
    cmds: Seq<RenderCommand<S>>,
    registry: TextureRegistry,
)
    requires
        frame.wf(),
        frame.record.line_instances.len() + cmds.len() <= usize::MAX,
        frame.record.two_d_instances.len() + cmds.len() <= usize::MAX,
    ensures
        frame.after_all(cmds, registry).wf(),
        frame.after_all(cmds, registry).record.line_instances.len()
            <= frame.record.line_instances.len() + cmds.len(),
        frame.after_all(cmds, registry).record.two_d_instances.len()
            <= frame.record.two_d_instances.len() + cmds.len(),
    decreases cmds.len(),
{
    if cmds.len() > 0 {
        lemma_after_all_keeps_frame(frame, cmds.drop_last(), registry);
        lemma_after_keeps_frame(frame.after_all(cmds.drop_last(), registry), cmds.last(), registry);
    }
}

/// `cmd` draws a shape, and `registry` resolves the texture it names to
/// `texture`: to `None` where it names none, or one that leads nowhere.
pub open spec fn draws_shape_with<S>(
    cmd: RenderCommand<S>,
    registry: TextureRegistry,
    texture: Option<InternalHandle>,
) -> bool {
    cmd matches RenderCommand::Draw2D(desc) && registry.backing_of(desc.texture) == texture
}

/// Any number of untextured shapes, drawn one after the other into an
/// empty frame, end up in one batch that spans all of them.
pub proof fn lemma_untextured_shapes_share_one_batch<S>(
    cmds: Seq<RenderCommand<S>>,
    registry: TextureRegistry,
)
    requires
        0 < cmds.len() <= usize::MAX,
        forall|i: int| 0 <= i < cmds.len() ==> draws_shape_with(#[trigger] cmds[i], registry, None),
    ensures
        Frame::<S>::empty().after_all(cmds, registry).record.commands == seq![
            InternalCommands::DrawTwoDBatch {
                instance_start: 0,
                instance_end: cmds.len() as usize,
                texture: None,
            },
        ],
        Frame::<S>::empty().after_all(cmds, registry).record.two_d_instances.len() == cmds.len(),
    decreases cmds.len(),
{
    let earlier = Frame::<S>::empty().after_all(cmds.drop_last(), registry);
    let last = cmds.last();
    assert(draws_shape_with(last, registry, None));
    if cmds.len() == 1 {
        assert(earlier == Frame::<S>::empty());
        assert(earlier.after(last, registry).record.commands =~= seq![
            InternalCommands::DrawTwoDBatch { instance_start: 0, instance_end: 1, texture: None },
        ]);
    } else {
        assert forall|i: int| 0 <= i < cmds.drop_last().len() implies draws_shape_with(
            #[trigger] cmds.drop_last()[i],
            registry,
            None,
        ) by {
            assert(cmds.drop_last()[i] == cmds[i]);
        }
        lemma_untextured_shapes_share_one_batch(cmds.drop_last(), registry);
        assert(earlier.after(last, registry).record.commands =~= seq![
            InternalCommands::DrawTwoDBatch {
                instance_start: 0,
                instance_end: cmds.len() as usize,
                texture: None,
            },
        ]);
    }
}

/// Three shapes drawn into an empty frame with the backing textures `a`,
/// `b`, `a`, where `a` and `b` differ, end up in three batches, bound to
/// `a`, `b` and `a`: nothing is merged across a change of texture.
pub proof fn lemma_alternating_textures_split<S>(
    first: RenderCommand<S>,
    second: RenderCommand<S>,
    third: RenderCommand<S>,
    registry: TextureRegistry,
    a: InternalHandle,
    b: InternalHandle,
)
    requires
        a != b,
        draws_shape_with(first, registry, Some(a)),
        draws_shape_with(second, registry, Some(b)),
        draws_shape_with(third, registry, Some(a)),
    ensures
        Frame::<S>::empty().after_all(seq![first, second, third], registry).record.commands == seq![
            InternalCommands::DrawTwoDBatch {
                instance_start: 0,
                instance_end: 1,
                texture: Some(a),
            },
            InternalCommands::DrawTwoDBatch {
                instance_start: 1,
                instance_end: 2,
                texture: Some(b),
            },
            InternalCommands::DrawTwoDBatch {
                instance_start: 2,
                instance_end: 3,
                texture: Some(a),
            },
        ],
{
    let cmds = seq![first, second, third];
    let none = Seq::<RenderCommand<S>>::empty();
    let one = seq![first];
    let two = seq![first, second];
    assert(one.drop_last() =~= none);
    assert(two.drop_last() =~= one);
    assert(cmds.drop_last() =~= two);
    let start = Frame::<S>::empty();
    let f0 = start.after_all(none, registry);
    assert(f0 == start);
    let f1 = start.after_all(one, registry);
    assert(f1 == f0.after(first, registry));
    assert(f1.record.commands =~= seq![
        InternalCommands::DrawTwoDBatch { instance_start: 0, instance_end: 1, texture: Some(a) },
    ]);
    let f2 = start.after_all(two, registry);
    assert(f2 == f1.after(second, registry));
    assert(f2.record.commands =~= seq![
        InternalCommands::DrawTwoDBatch { instance_start: 0, instance_end: 1, texture: Some(a) },
        InternalCommands::DrawTwoDBatch { instance_start: 1, instance_end: 2, texture: Some(b) },
    ]);
    let f3 = start.after_all(cmds, registry);
    assert(f3 == f2.after(third, registry));
    assert(f3.record.commands =~= seq![
        InternalCommands::DrawTwoDBatch { instance_start: 0, instance_end: 1, texture: Some(a) },
        InternalCommands::DrawTwoDBatch { instance_start: 1, instance_end: 2, texture: Some(b) },
        InternalCommands::DrawTwoDBatch { instance_start: 2, instance_end: 3, texture: Some(a) },
    ]);
}

/// A shape drawn with a texture that differs from the one the last batch
/// is bound to opens a new batch, for itself alone, and leaves every
/// earlier batch as it was.
pub proof fn lemma_texture_change_opens_batch<S>(
    frame: Frame<S>,
    cmd: RenderCommand<S>,
    registry: TextureRegistry,
    a: InternalHandle,
    b: InternalHandle,
)
    requires
        frame.wf(),
        frame.after(cmd, registry).fits(),
        frame.record.commands.len() > 0,
        frame.record.commands.last() is DrawTwoDBatch,
        frame.record.commands.last()->texture == Some(a),
        draws_shape_with(cmd, registry, Some(b)),
        a != b,
    ensures
        frame.after(cmd, registry).record.commands == frame.record.commands.push(
            InternalCommands::DrawTwoDBatch {
                instance_start: frame.record.two_d_instances.len() as usize,
                instance_end: (frame.record.two_d_instances.len() + 1) as usize,
                texture: Some(b),
            },
        ),
{
}

/// An untextured shape that follows a shape batch joins that batch: the
/// batch grows by the one instance and stays bound as it was, and no entry
/// is added to the batch list.
pub proof fn lemma_untextured_shape_extends_batch<S>(
    frame: Frame<S>,
    cmd: RenderCommand<S>,
    registry: TextureRegistry,
)
    requires
        frame.wf(),
        frame.after(cmd, registry).fits(),
        frame.record.commands.len() > 0,
        frame.record.commands.last() is DrawTwoDBatch,
        draws_shape_with(cmd, registry, None),
    ensures
        frame.after(cmd, registry).record.commands == frame.record.commands.update(
            frame.record.commands.len() - 1,
            InternalCommands::DrawTwoDBatch {
                instance_start: frame.record.commands.last()->instance_start,
                instance_end: (frame.record.two_d_instances.len() + 1) as usize,
                texture: frame.record.commands.last()->texture,
            },
        ),
        frame.record.commands.last()->instance_end == frame.record.two_d_instances.len(),
{
    let commands = frame.record.commands;
    assert(commands == commands.drop_last().push(commands.last()));
    lemma_pushed(commands.drop_last(), commands.last());
}

/// The colours of the clears in a batch list, in order.
pub open spec fn clears_of(commands: Seq<InternalCommands>) -> Seq<Colour>
    decreases commands.len(),
{
    if commands.len() == 0 {
        Seq::empty()
    } else {
        match commands.last() {
            InternalCommands::Clear { colour } => clears_of(commands.drop_last()).push(colour),
            _ => clears_of(commands.drop_last()),
        }
    }
}

/// The colours of the clears among draw commands, in order.
pub open spec fn clears_in<S>(cmds: Seq<RenderCommand<S>>) -> Seq<Colour>
    decreases cmds.len(),
{
    if cmds.len() == 0 {
        Seq::empty()
    } else {
        match cmds.last() {
            RenderCommand::Clear(colour) => clears_in(cmds.drop_last()).push(colour),
            _ => clears_in(cmds.drop_last()),
        }
    }
}

/// A clear is appended to the batch list as an entry of its own, whatever
/// the list ends in, and touches nothing else in the frame.
pub proof fn lemma_clear_is_appended<S>(frame: Frame<S>, colour: Colour, registry: TextureRegistry)
    ensures
        frame.after(RenderCommand::Clear(colour), registry) == (Frame {
            record: FrameRecord {
                commands: frame.record.commands.push(InternalCommands::Clear { colour }),
                ..frame.record
            },
            ..frame
        }),
{
}

/// No draw command changes a clear that is in the batch list, and none
/// removes an entry: a clear is never merged with what is drawn after it.
pub proof fn lemma_clear_stays<S>(
    frame: Frame<S>,
    cmd: RenderCommand<S>,
    registry: TextureRegistry,
    i: int,
)
    requires
        0 <= i < frame.record.commands.len(),
        frame.record.commands[i] is Clear,
    ensures
        frame.after(cmd, registry).record.commands.len() >= frame.record.commands.len(),
        frame.after(cmd, registry).record.commands[i] == frame.record.commands[i],
{
}

/// However many draw commands follow, a clear stays in the batch list
/// where it was put, as it was put there.
pub proof fn lemma_clear_stays_for_good<S>(
    frame: Frame<S>,
    cmds: Seq<RenderCommand<S>>,
    registry: TextureRegistry,
    i: int,
)
    requires
        0 <= i < frame.record.commands.len(),
        frame.record.commands[i] is Clear,
    ensures
        frame.after_all(cmds, registry).record.commands.len() >= frame.record.commands.len(),
        frame.after_all(cmds, registry).record.commands[i] == frame.record.commands[i],
    decreases cmds.len(),
{
    if cmds.len() > 0 {
        lemma_clear_stays_for_good(frame, cmds.drop_last(), registry, i);
        lemma_clear_stays(frame.after_all(cmds.drop_last(), registry), cmds.last(), registry, i);
    }
}

/// The clears of a batch list are the clears that were drawn, one entry
/// for each, in the order in which they were drawn.
pub proof fn lemma_one_entry_for_each_clear<S>(
    frame: Frame<S>,
    cmds: Seq<RenderCommand<S>>,
    registry: TextureRegistry,
)
    ensures
        clears_of(frame.after_all(cmds, registry).record.commands) == clears_of(
            frame.record.commands,
        ) + clears_in(cmds),
    decreases cmds.len(),
{
    if cmds.len() == 0 {
        assert(clears_of(frame.record.commands) + Seq::<Colour>::empty() =~= clears_of(
            frame.record.commands,
        ));
    } else {
        lemma_one_entry_for_each_clear(frame, cmds.drop_last(), registry);
        let earlier = frame.after_all(cmds.drop_last(), registry);
        let commands = earlier.record.commands;
        let after = earlier.after(cmds.last(), registry).record.commands;
        if after.len() == commands.len() + 1 {
            assert(after.drop_last() == commands);
        } else if after.len() == commands.len() && commands.len() > 0 {
            assert(after.drop_last() == commands.drop_last());
        }
        let single = seq![cmds.last()];
        assert(single.drop_last() =~= Seq::<RenderCommand<S>>::empty());
        assert(clears_in(single.drop_last()) =~= Seq::<Colour>::empty());
        assert(single.last() == cmds.last());
        match cmds.last() {
            RenderCommand::Clear(colour) => {
                assert(clears_in(single) =~= seq![colour]);
                assert(clears_of(after) =~= clears_of(commands) + seq![colour]);
            },
            _ => {
                assert(clears_in(single) =~= Seq::<Colour>::empty());
                assert(clears_of(after) =~= clears_of(commands));
                assert(clears_of(commands) + Seq::<Colour>::empty() =~= clears_of(commands));
            },
        }
        assert(clears_in(cmds) =~= clears_in(cmds.drop_last()) + clears_in(single));
        assert(clears_of(after) =~= clears_of(frame.record.commands) + clears_in(cmds));
    }
}

/// In a well-formed batch list every range is non-empty and ends no later
/// than the ranges of its kind end altogether.
pub proof fn lemma_ranges_within(commands: Seq<InternalCommands>, k: int)
    requires
        well_batched(commands),
        0 <= k < commands.len(),
    ensures
        match commands[k] {
            InternalCommands::DrawLinesBatch { line_instance_start, line_instance_end } => {
                line_instance_start < line_instance_end <= lines_end(commands)
            },
            InternalCommands::DrawTwoDBatch { instance_start, instance_end, .. } => {
                instance_start < instance_end <= shapes_end(commands)
            },
            InternalCommands::DrawTextBatch { section_start, section_end } => {
                section_start < section_end <= sections_end(commands)
            },
            _ => true,
        },
        lines_end(commands.drop_last()) <= lines_end(commands),
        shapes_end(commands.drop_last()) <= shapes_end(commands),
        sections_end(commands.drop_last()) <= sections_end(commands),
    decreases commands.len(),
{
    if k < commands.len() - 1 {
        lemma_ranges_within(commands.drop_last(), k);
        assert(commands.drop_last()[k] == commands[k]);
    }
}

/// The backing textures that the shapes among `cmds` are drawn with: one
/// entry for each shape, in draw order, `None` for an untextured one.
pub open spec fn textures_drawn<S>(cmds: Seq<RenderCommand<S>>, registry: TextureRegistry) -> Seq<
    Option<InternalHandle>,
>
    decreases cmds.len(),
{
    if cmds.len() == 0 {
        Seq::empty()
    } else {
        match cmds.last() {
            RenderCommand::Draw2D(desc) => textures_drawn(cmds.drop_last(), registry).push(
                registry.backing_of(desc.texture),
            ),
            _ => textures_drawn(cmds.drop_last(), registry),
        }
    }
}

/// Whether no shape batch of `commands` spans two textures: each shape in
/// the range of a batch is drawn, by `drawn`, either with no texture or
/// with the texture that the batch is bound to.
pub open spec fn one_texture_each(
    commands: Seq<InternalCommands>,
    drawn: Seq<Option<InternalHandle>>,
) -> bool {
    forall|k: int, i: int|
        0 <= k < commands.len() && (#[trigger] commands[k]) is DrawTwoDBatch
            && commands[k]->instance_start <= i < commands[k]->instance_end && i < drawn.len()
            ==> (#[trigger] drawn[i]) is None || drawn[i] == commands[k]->texture
}

/// Whatever is drawn into an empty frame, no shape batch of the batch list
/// spans two textures.
pub proof fn lemma_batches_hold_one_texture<S>(
    cmds: Seq<RenderCommand<S>>,
    registry: TextureRegistry,
)
    requires
        cmds.len() <= usize::MAX,
    ensures
        Frame::<S>::empty().after_all(cmds, registry).wf(),
        textures_drawn(cmds, registry).len() == Frame::<S>::empty().after_all(
            cmds,
            registry,
        ).record.two_d_instances.len(),
        one_texture_each(
            Frame::<S>::empty().after_all(cmds, registry).record.commands,
            textures_drawn(cmds, registry),
        ),
    decreases cmds.len(),
{
    let start = Frame::<S>::empty();
    lemma_after_all_keeps_frame(start, cmds, registry);
    if cmds.len() > 0 {
        lemma_batches_hold_one_texture(cmds.drop_last(), registry);
        let earlier = start.after_all(cmds.drop_last(), registry);
        let before = earlier.record.commands;
        let drawn_before = textures_drawn(cmds.drop_last(), registry);
        let after = earlier.after(cmds.last(), registry).record.commands;
        let drawn = textures_drawn(cmds, registry);
        let n = drawn_before.len() as int;
        assert forall|k: int, i: int|
            0 <= k < after.len() && (#[trigger] after[k]) is DrawTwoDBatch
                && after[k]->instance_start <= i < after[k]->instance_end && i
                < drawn.len() implies (#[trigger] drawn[i]) is None || drawn[i]
            == after[k]->texture by {
            if k < before.len() {
                lemma_ranges_within(before, k);
                if k < before.len() - 1 {
                    assert(after[k] == before[k]);
                    lemma_ranges_within(before.drop_last(), k);
                    assert(before.drop_last()[k] == before[k]);
                    assert(i < n);
                    assert(drawn[i] == drawn_before[i]);
                } else if after[k] == before[k] {
                    assert(i < n);
                    assert(drawn[i] == drawn_before[i]);
                } else {
                    if i < n {
                        assert(drawn[i] == drawn_before[i]);
                        assert(before[k]->instance_start <= i < before[k]->instance_end);
                    }
                }
            }
        }
    }
}

} // verus!
