use vstd::prelude::*;

use super::batching::{lemma_after_keeps_frame, Frame};
use super::command_manager::{CommandManager, InternalCommands};
use super::instances::{LineInstance, TwoDInstance};
use super::render_commands::RenderCommand;
use super::section_manager::{SectionManager, MAX_SECTIONS};
use super::Renderer;
use crate::material::manager::{TextureManager, TextureRegistry};

verus! {

/// Takes the draw commands of one frame, in draw order, and files each:
/// its instance record into the instance lists, and the instance into the
/// last batch of the batch list where it fits, into a new one where not.
pub struct CommandProcessor<'frame, 'sm, S> {
    pub command_manager: &'frame mut CommandManager,
    pub section_manager: &'sm mut SectionManager<S>,
    pub texture_manager: &'frame mut TextureManager,
}

impl<'frame, 'sm, S> CommandProcessor<'frame, 'sm, S> {
    /// The frame as filed so far.
    pub open spec fn frame(&self) -> Frame<S> {
        Frame { record: self.command_manager@, sections: self.section_manager@ }
    }

    /// The textures that draw commands are resolved against.
    pub open spec fn registry(&self) -> TextureRegistry {
        self.texture_manager@
    }

    /// The invariant of the processor.
    pub open spec fn wf(&self) -> bool {
        &&& self.frame().wf()
        &&& self.section_manager.wf()
        &&& self.texture_manager.wf()
    }

    /// A processor over the three stores of a frame.
    pub fn create(
        command_manager: &'frame mut CommandManager,
        section_manager: &'sm mut SectionManager<S>,
        texture_manager: &'frame mut TextureManager,
    ) -> (processor: Self)
        requires
            (Frame { record: old(command_manager)@, sections: old(section_manager)@ }).wf(),
            old(section_manager).wf(),
            old(texture_manager).wf(),
        ensures
            processor.wf(),
            processor.frame() == (Frame {
                record: old(command_manager)@,
                sections: old(section_manager)@,
            }),
            processor.registry() == old(texture_manager)@,
            *final(processor.command_manager) == *final(command_manager),
            *final(processor.section_manager) == *final(section_manager),
            *final(processor.texture_manager) == *final(texture_manager),
    {
        Self { command_manager, section_manager, texture_manager }
    }

    /// Files one draw command.
    ///
    /// A clear becomes an entry of its own. A line or a shape is appended to
    /// its instance list and joins the last batch where that is a batch of
    /// its kind (and, for a shape, of a compatible texture); otherwise it
    /// opens a new batch. A text section is stored and batched in the same
    /// way, unless the section store is full: then it is dropped and nothing
    /// changes.
    pub fn process_cmd(&mut self, new_cmd: RenderCommand<S>)
        requires
            old(self).wf(),
        ensures
            final(self).wf(),
            final(self).frame() == old(self).frame().after(new_cmd, old(self).registry()),
            final(self).registry() == old(self).registry(),
            *final(final(self).command_manager) == *final(old(self).command_manager),
            *final(final(self).section_manager) == *final(old(self).section_manager),
            *final(final(self).texture_manager) == *final(old(self).texture_manager),
    {
        let ghost before = self.frame();
        let ghost cmd = new_cmd;
        match new_cmd {
            RenderCommand::Clear(colour) => {
                self.command_manager.push_command(InternalCommands::Clear { colour });
            },
            RenderCommand::DrawLine(line_desc) => {
                let new_line_instance = LineInstance::from_description(&line_desc);
                let line_index = self.command_manager.push_line_instance(new_line_instance);
                proof {
                    self.command_manager.lemma_fits();
                }

                let mut new_cmd_needed = true;
                if let Some(InternalCommands::DrawLinesBatch { line_instance_end, .. }) =
                    self.command_manager.last_mut() {
                    *line_instance_end += 1;
                    new_cmd_needed = false;
                }
                if new_cmd_needed {
                    let new_line_batch = InternalCommands::DrawLinesBatch {
                        line_instance_start: line_index,
                        line_instance_end: line_index + 1,
                    };
                    self.command_manager.push_command(new_line_batch);
                }
            },
            RenderCommand::Draw2D(desc) => {
                let texture_coords = if let Some(texture_handle) = desc.texture {
                    self.texture_manager.get_tl_br_coords_for(&texture_handle)
                } else {
                    None
                };
                let corners = match texture_coords {
                    Some(corners) => corners,
                    None => [0, 0, 0, 0],
                };
                let instance = TwoDInstance::from_description(&desc, corners);
                let two_d_index = self.command_manager.push_two_d_instance(instance);
                proof {
                    self.command_manager.lemma_fits();
                }

                let underlying_texture = if let Some(texture_handle) = desc.texture {
                    if let Some(sub_texture) = self.texture_manager.get_sub_texture(
                        &texture_handle,
                    ) {
                        Some(sub_texture.texture)
                    } else {
                        None
                    }
                } else {
                    None
                };

                let mut new_cmd_needed = true;
                if let Some(InternalCommands::DrawTwoDBatch { instance_end, texture, .. }) =
                    self.command_manager.last_mut() {
                    if texture.is_none() {
                        *texture = underlying_texture;
                        *instance_end += 1;
                        new_cmd_needed = false;
                    } else if underlying_texture.is_none() || texture.unwrap()
                        == underlying_texture.unwrap() {
                        *instance_end += 1;
                        new_cmd_needed = false;
                    }
                }
                if new_cmd_needed {
                    let new_2d_batch = InternalCommands::DrawTwoDBatch {
                        instance_start: two_d_index,
                        instance_end: two_d_index + 1,
                        texture: underlying_texture,
                    };
                    self.command_manager.push_command(new_2d_batch);
                }
            },
            RenderCommand::DrawText(section) => {
                if self.section_manager.len() < MAX_SECTIONS {
                    let section_index = self.section_manager.push(section);

                    let mut new_cmd_needed = true;
                    if let Some(InternalCommands::DrawTextBatch { section_end, .. }) =
                        self.command_manager.last_mut() {
                        *section_end += 1;
                        new_cmd_needed = false;
                    }
                    if new_cmd_needed {
                        let new_section_batch = InternalCommands::DrawTextBatch {
                            section_start: section_index,
                            section_end: section_index + 1,
                        };
                        self.command_manager.push_command(new_section_batch);
                    }
                }
            },
        }
        proof {
            assert(self.frame() =~= before.after(cmd, old(self).registry()));
            lemma_after_keeps_frame(before, cmd, old(self).registry());
        }
    }
}

impl<'frame, 'sm, S> Renderer<S> for CommandProcessor<'frame, 'sm, S> {
    open spec fn ready(&self) -> bool {
        self.wf()
    }

    /// Files one draw command, as `process_cmd` does.
    fn add(&mut self, cmd: RenderCommand<S>)
        ensures
            final(self).frame() == old(self).frame().after(cmd, old(self).registry()),
            final(self).registry() == old(self).registry(),
            *final(final(self).command_manager) == *final(old(self).command_manager),
            *final(final(self).section_manager) == *final(old(self).section_manager),
            *final(final(self).texture_manager) == *final(old(self).texture_manager),
    {
        self.process_cmd(cmd);
    }
}

} // verus!
