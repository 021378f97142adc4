//! The path of a draw command: from the application's call, through the
//! batch list, to the plan of GPU work for the frame.

pub mod batching;
pub mod command_executor;
pub mod command_manager;
pub mod command_processor;
pub mod instances;
pub mod pipelines;
pub mod render_commands;
pub mod renderer;
pub mod section_manager;
pub mod sliding_window;

pub use command_executor::{is_drawable, CommandExecutor, FramePlan, GpuCall};
pub use command_manager::{CommandManager, InternalCommands, MAX_INSTANCES};
pub use command_processor::CommandProcessor;
pub use instances::{
    LineInstance, ThreeDInstance, TwoDInstance, VertexAttribute, VertexBufferLayout, VertexFormat,
    VertexStepMode,
};
pub use pipelines::PipelineManager;
pub use renderer::{FrameAction, RendererInstance, SurfaceConfiguration};
pub use render_commands::{LineDescription, RenderCommand, TwoDDescription, TwoDTypes};
pub use section_manager::{SectionManager, MAX_SECTIONS};
pub use sliding_window::{instance_passes, instances_to_load, InstancePass, LoadOp};

use vstd::prelude::*;

verus! {

/// Something that takes draw commands, one at a time, in draw order.
pub trait Renderer<S> {
    /// Whether `self` is in a state to take a command.
    spec fn ready(&self) -> bool;

    fn add(&mut self, cmd: RenderCommand<S>)
        requires
            old(self).ready(),
        ensures
            final(self).ready(),
    ;
}

} // verus!
