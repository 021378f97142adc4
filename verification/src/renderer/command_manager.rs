use vstd::prelude::*;

use super::instances::{LineInstance, ThreeDInstance, TwoDInstance};
use crate::material::InternalHandle;
use crate::Colour;

verus! {

/// The number of instances that the instance lists make room for up front.
/// It is also the number of instances that one GPU instance buffer holds.
pub const MAX_INSTANCES: usize = 500;

/// One entry of the batch list: what one render pass, or one boundary
/// between passes, is made from.
#[derive(Debug, Clone, Copy, PartialEq, Eq)]
pub enum InternalCommands {
    /// The next pass starts from this colour.
    Clear { colour: Colour },
    /// The line instances `line_instance_start..line_instance_end`.
    DrawLinesBatch { line_instance_start: usize, line_instance_end: usize },
    /// The shape instances `instance_start..instance_end`, all drawn with
    /// the backing texture `texture` bound, where there is one.
    DrawTwoDBatch { instance_start: usize, instance_end: usize, texture: Option<InternalHandle> },
    /// The text sections `section_start..section_end`.
    DrawTextBatch { section_start: usize, section_end: usize },
    /// Nothing to do.
    Nothing,
}

/// What a `CommandManager` holds.
#[verifier::ext_equal]
pub struct FrameRecord {
    /// The batch list, in draw order.
    pub commands: Seq<InternalCommands>,
    /// The line instances, in draw order.
    pub line_instances: Seq<LineInstance>,
    /// The shape instances, in draw order.
    pub two_d_instances: Seq<TwoDInstance>,
    /// The geometry instances, in draw order.
    pub three_d_instances: Seq<ThreeDInstance>,
}

impl FrameRecord {
    /// The record of a frame in which nothing was drawn yet.
    pub open spec fn empty() -> FrameRecord {
        FrameRecord {
            commands: Seq::empty(),
            line_instances: Seq::empty(),
            two_d_instances: Seq::empty(),
            three_d_instances: Seq::empty(),
        }
    }
}

/// The batch list of the frame in progress, and the instance records that
/// its batches range over. All of it is thrown away when the next frame
/// starts.
pub struct CommandManager {
    command_list: Vec<InternalCommands>,
    line_instances: Vec<LineInstance>,
    two_d_instance: Vec<TwoDInstance>,
    three_d_instance: Vec<ThreeDInstance>,
}

impl View for CommandManager {
    type V = FrameRecord;

    closed spec fn view(&self) -> FrameRecord {
        FrameRecord {
            commands: self.command_list@,
            line_instances: self.line_instances@,
            two_d_instances: self.two_d_instance@,
            three_d_instances: self.three_d_instance@,
        }
    }
}

impl CommandManager {
    /// The instance lists can be indexed by machine integers.
    pub proof fn lemma_fits(&self)
        ensures
            self@.commands.len() <= usize::MAX,
            self@.line_instances.len() <= usize::MAX,
            self@.two_d_instances.len() <= usize::MAX,
            self@.three_d_instances.len() <= usize::MAX,
    {
        assert(self.command_list@.len() == self.command_list.len());
        assert(self.line_instances@.len() == self.line_instances.len());
        assert(self.two_d_instance@.len() == self.two_d_instance.len());
        assert(self.three_d_instance@.len() == self.three_d_instance.len());
    }

    pub fn new() -> (manager: Self)
        ensures
            manager@ == FrameRecord::empty(),
    {
        Self {
            command_list: Vec::new(),
            line_instances: Vec::with_capacity(MAX_INSTANCES),
            two_d_instance: Vec::with_capacity(MAX_INSTANCES),
            three_d_instance: Vec::with_capacity(MAX_INSTANCES),
        }
    }

    /// The batch list.
    pub fn commands(&self) -> (list: &Vec<InternalCommands>)
        ensures
            list@ == self@.commands,
    {
        &self.command_list
    }

    /// Appends an entry to the batch list.
    pub fn push_command(&mut self, new_cmd: InternalCommands)
        ensures
            final(self)@ == (FrameRecord {
                commands: old(self)@.commands.push(new_cmd),
                ..old(self)@
            }),
    {
        self.command_list.push(new_cmd);
    }

    /// The last entry of the batch list.
    pub fn last(&self) -> (entry: Option<&InternalCommands>)
        ensures
            match entry {
                Some(cmd) => self@.commands.len() > 0 && *cmd == self@.commands.last(),
                None => self@.commands.len() == 0,
            },
    {
        self.command_list.last()
    }

    /// The last entry of the batch list, to be changed in place.
    pub fn last_mut(&mut self) -> (entry: Option<&mut InternalCommands>)
        ensures
            match entry {
                Some(cmd) => {
                    &&& old(self)@.commands.len() > 0
                    &&& *cmd == old(self)@.commands.last()
                    &&& final(self)@ =~= (FrameRecord {
                        commands: old(self)@.commands.update(
                            old(self)@.commands.len() - 1,
                            *final(cmd),
                        ),
                        ..old(self)@
                    })
                },
                None => old(self)@.commands.len() == 0 && final(self)@ =~= old(self)@,
            },
    {
        self.command_list.last_mut()
    }

    /// Appends a line instance and returns its index.
    pub fn push_line_instance(&mut self, line: LineInstance) -> (index: usize)
        ensures
            index == old(self)@.line_instances.len(),
            final(self)@ == (FrameRecord {
                line_instances: old(self)@.line_instances.push(line),
                ..old(self)@
            }),
    {
        self.line_instances.push(line);
        self.line_instances.len() - 1
    }

    pub fn n_line_instances(&self) -> (n: usize)
        ensures
            n == self@.line_instances.len(),
    {
        self.line_instances.len()
    }

    /// The line instances `start_id..end_id`.
    pub fn get_line_instances(&self, start_id: usize, end_id: usize) -> (instances: &[LineInstance])
        requires
            start_id <= end_id <= self@.line_instances.len(),
        ensures
            instances@ == self@.line_instances.subrange(start_id as int, end_id as int),
    {
        &self.line_instances[start_id..end_id]
    }

    /// Appends a shape instance and returns its index.
    pub fn push_two_d_instance(&mut self, instance: TwoDInstance) -> (index: usize)
        ensures
            index == old(self)@.two_d_instances.len(),
            final(self)@ == (FrameRecord {
                two_d_instances: old(self)@.two_d_instances.push(instance),
                ..old(self)@
            }),
    {
        self.two_d_instance.push(instance);
        self.two_d_instance.len() - 1
    }

    pub fn n_two_d_instance(&self) -> (n: usize)
        ensures
            n == self@.two_d_instances.len(),
    {
        self.two_d_instance.len()
    }

    /// The shape instances `start_id..end_id`.
    pub fn get_two_d_instances(&self, start_id: usize, end_id: usize) -> (instances: &[TwoDInstance])
        requires
            start_id <= end_id <= self@.two_d_instances.len(),
        ensures
            instances@ == self@.two_d_instances.subrange(start_id as int, end_id as int),
    {
        &self.two_d_instance[start_id..end_id]
    }

    /// Appends a geometry instance and returns its index.
    pub fn push_geometry_instance(&mut self, instance: ThreeDInstance) -> (index: usize)
        ensures
            index == old(self)@.three_d_instances.len(),
            final(self)@ == (FrameRecord {
                three_d_instances: old(self)@.three_d_instances.push(instance),
                ..old(self)@
            }),
    {
        self.three_d_instance.push(instance);
        self.three_d_instance.len() - 1
    }

    pub fn n_three_d_instance(&self) -> (n: usize)
        ensures
            n == self@.three_d_instances.len(),
    {
        self.three_d_instance.len()
    }

    /// Starts the next frame: forgets the batch list and every instance.
    pub fn clear(&mut self)
        ensures
            final(self)@ == FrameRecord::empty(),
    {
        self.command_list.clear();
        self.line_instances.clear();
        self.two_d_instance.clear();
        self.three_d_instance.clear();
    }
}

} // verus!
