use vstd::prelude::*;

use super::command_executor::{drawable, walk, CommandExecutor, FramePlan};
use super::command_manager::CommandManager;
use super::pipelines::PipelineManager;
use crate::material::manager::{uploads_due, TextureManager};
use crate::WindowSize;

verus! {

/// The extent that the surface is configured with.
#[derive(Debug, Clone, Copy, PartialEq, Eq, Structural)]
pub struct SurfaceConfiguration {
    pub width: u32,
    pub height: u32,
}

/// What to do after the surface was asked for its next frame.
#[derive(Debug, Clone, Copy, PartialEq, Eq, Structural)]
pub enum FrameAction {
    /// The frame is there: draw into it.
    Render,
    /// Configure the surface anew and ask once more.
    Reconfigure,
    /// The surface gave no frame twice in a row: there is nothing left to
    /// try.
    GiveUp,
}

/// What a `RendererInstance` holds.
pub struct RendererState {
    /// The size of the window.
    pub size: WindowSize,
    /// The configuration of the surface.
    pub config: SurfaceConfiguration,
    /// Whether a frame of the surface is held, to be drawn into.
    pub frame: bool,
    /// Whether the surface was configured anew since it last gave a frame.
    pub reconfigured: bool,
    /// The pipelines.
    pub pipeline_manager: PipelineManager,
}

impl RendererState {
    /// The state after the surface was asked for a frame and gave one, or
    /// gave none.
    pub open spec fn asked(self, acquired: bool) -> RendererState {
        RendererState { frame: acquired, reconfigured: !acquired && !self.reconfigured, ..self }
    }

    /// What to do in that state.
    pub open spec fn action(self, acquired: bool) -> FrameAction {
        if acquired {
            FrameAction::Render
        } else if self.reconfigured {
            FrameAction::GiveUp
        } else {
            FrameAction::Reconfigure
        }
    }

    /// The state after the window took the size `new_size`: the surface is
    /// as large as the window, but at least one pixel each way.
    pub open spec fn resized(self, new_size: WindowSize) -> RendererState {
        RendererState {
            size: new_size,
            config: SurfaceConfiguration {
                width: if new_size.width == 0 {
                    1
                } else {
                    new_size.width
                },
                height: if new_size.height == 0 {
                    1
                } else {
                    new_size.height
                },
            },
            ..self
        }
    }
}

/// The renderer of one window: the size of its window and surface, the
/// frame it draws into, and its pipelines.
pub struct RendererInstance {
    size: WindowSize,
    config: SurfaceConfiguration,
    frame: bool,
    reconfigured: bool,
    pipeline_manager: PipelineManager,
}

impl View for RendererInstance {
    type V = RendererState;

    closed spec fn view(&self) -> RendererState {
        RendererState {
            size: self.size,
            config: self.config,
            frame: self.frame,
            reconfigured: self.reconfigured,
            pipeline_manager: self.pipeline_manager,
        }
    }
}

impl RendererInstance {
    /// A renderer for a window of the size `size`, with the surface
    /// configured to that size, no frame held, and new pipelines.
    pub fn new(size: WindowSize) -> (renderer: Self)
        ensures
            renderer@.size == size,
            renderer@.config == (SurfaceConfiguration { width: size.width, height: size.height }),
            !renderer@.frame,
            !renderer@.reconfigured,
            renderer@.pipeline_manager == (PipelineManager {
                texture_size: (
                    crate::material::manager::INITIAL_TEXTURE_SIZE,
                    crate::material::manager::INITIAL_TEXTURE_SIZE,
                ),
                bound_texture: None,
            }),
    {
        RendererInstance {
            size,
            config: SurfaceConfiguration { width: size.width, height: size.height },
            frame: false,
            reconfigured: false,
            pipeline_manager: PipelineManager::new(),
        }
    }

    /// The size of the window.
    pub fn size(&self) -> (size: WindowSize)
        ensures
            size == self@.size,
    {
        self.size
    }

    /// The configuration of the surface.
    pub fn config(&self) -> (config: SurfaceConfiguration)
        ensures
            config == self@.config,
    {
        self.config
    }

    /// Whether a frame is held.
    pub fn has_frame(&self) -> (held: bool)
        ensures
            held == self@.frame,
    {
        self.frame
    }

    /// The pipelines.
    pub fn pipeline_manager(&self) -> (pipelines: &PipelineManager)
        ensures
            *pipelines == self@.pipeline_manager,
    {
        &self.pipeline_manager
    }

    /// Takes note of what the surface answered when it was asked for its
    /// next frame, and says what to do next. A surface that gives no frame
    /// is configured anew and asked once more; if it gives none then
    /// either, that is the end of it.
    pub fn init_new_frame(&mut self, acquired: bool) -> (action: FrameAction)
        ensures
            action == old(self)@.action(acquired),
            final(self)@ == old(self)@.asked(acquired),
    {
        if acquired {
            self.frame = true;
            self.reconfigured = false;
            FrameAction::Render
        } else if self.reconfigured {
            self.frame = false;
            self.reconfigured = false;
            FrameAction::GiveUp
        } else {
            self.frame = false;
            self.reconfigured = true;
            FrameAction::Reconfigure
        }
    }

    /// Plans the GPU work that draws the batch list of `command_manager`
    /// into the frame that is held, and lets go of the frame. The plan is
    /// that of an executor that takes the instance buffers to hold nothing.
    pub fn build_and_submit(
        &mut self,
        command_manager: &CommandManager,
        texture_manager: &mut TextureManager,
    ) -> (plan: FramePlan)
        requires
            old(self)@.frame,
            drawable(command_manager@),
            old(texture_manager).wf(),
        ensures
            final(self)@ == (RendererState {
                frame: false,
                pipeline_manager: PipelineManager {
                    texture_size: old(self)@.pipeline_manager.sized_for(
                        old(texture_manager)@.max_texture_size,
                    ).texture_size,
                    bound_texture: walk(
                        CommandExecutor::fresh(
                            old(self)@.pipeline_manager.sized_for(
                                old(texture_manager)@.max_texture_size,
                            ).bound_texture,
                        ),
                        command_manager@.commands,
                        command_manager@,
                        old(texture_manager)@.prepared(),
                    ).state.bound_texture,
                },
                ..old(self)@
            }),
            final(texture_manager).wf(),
            final(texture_manager)@ == old(texture_manager)@.prepared(),
            plan.recreate_texture_slot == if old(self)@.pipeline_manager.outgrown_by(
                old(texture_manager)@.max_texture_size,
            ) {
                Some(old(texture_manager)@.max_texture_size)
            } else {
                None
            },
            plan.texture_uploads@ == uploads_due(
                old(texture_manager)@.textures,
                old(texture_manager)@.needs_loading,
            ),
            plan.calls@ == walk(
                CommandExecutor::fresh(
                    old(self)@.pipeline_manager.sized_for(
                        old(texture_manager)@.max_texture_size,
                    ).bound_texture,
                ),
                command_manager@.commands,
                command_manager@,
                old(texture_manager)@.prepared(),
            ).calls,
    {
        let plan = {
            let mut ce = CommandExecutor::new(
                command_manager,
                &mut self.pipeline_manager,
                texture_manager,
            );
            ce.build_frame()
        };
        self.frame = false;
        plan
    }

    /// Takes note of the new size of the window. The surface is to be
    /// configured with the configuration that results.
    pub fn resize(&mut self, new_size: WindowSize)
        ensures
            final(self)@ == old(self)@.resized(new_size),
    {
        self.size = new_size;
        self.config.width = if self.size.width == 0 {
            1
        } else {
            self.size.width
        };
        self.config.height = if self.size.height == 0 {
            1
        } else {
            self.size.height
        };
    }
}

} // verus!
