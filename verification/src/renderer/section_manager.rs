use vstd::prelude::*;

verus! {

/// The number of text sections that one frame can hold.
pub const MAX_SECTIONS: usize = 32;

/// The text sections of the frame in progress, in the order in which they
/// were submitted. It holds at most `MAX_SECTIONS`; what is pushed beyond
/// that is dropped.
pub struct SectionManager<S> {
    sections: Vec<Option<S>>,
    current_size: usize,
}

impl<S> View for SectionManager<S> {
    type V = Seq<Option<S>>;

    /// The slots in use, oldest first. A slot holds its section until the
    /// section is taken out to be drawn.
    closed spec fn view(&self) -> Seq<Option<S>> {
        self.sections@.take(self.current_size as int)
    }
}

impl<S> SectionManager<S> {
    /// The invariant that every operation keeps.
    pub closed spec fn wf(&self) -> bool {
        self.sections@.len() == self.current_size <= MAX_SECTIONS
    }

    /// A well-formed store never holds more than `MAX_SECTIONS` slots.
    pub proof fn lemma_bounded(&self)
        requires
            self.wf(),
        ensures
            self@.len() <= MAX_SECTIONS,
    {
    }

    pub fn new() -> (manager: Self)
        ensures
            manager.wf(),
            manager@ == Seq::<Option<S>>::empty(),
    {
        Self { sections: Vec::new(), current_size: 0 }
    }

    /// Stores a section and returns its index. Where the store is full the
    /// section is dropped, nothing changes, and the index returned is 0.
    pub fn push(&mut self, new_section: S) -> (index: usize)
        requires
            old(self).wf(),
        ensures
            final(self).wf(),
            old(self)@.len() < MAX_SECTIONS ==> index == old(self)@.len() && final(self)@ == old(
                self,
            )@.push(Some(new_section)),
            old(self)@.len() >= MAX_SECTIONS ==> index == 0 && final(self)@ == old(self)@,
    {
        let mut index: usize = 0;
        if self.current_size < MAX_SECTIONS {
            self.sections.push(Some(new_section));
            index = self.current_size;
            self.current_size += 1;
        }
        index
    }

    /// The number of slots in use.
    pub fn len(&self) -> (n: usize)
        requires
            self.wf(),
        ensures
            n == self@.len(),
    {
        self.current_size
    }

    /// Takes the sections in the slots `start_id..end_id` out of the store,
    /// to be drawn. The slots stay in use, and empty.
    pub fn get_sections(&mut self, start_id: usize, end_id: usize) -> (taken: Vec<Option<S>>)
        requires
            old(self).wf(),
            start_id <= end_id <= old(self)@.len(),
        ensures
            final(self).wf(),
            taken@ == old(self)@.subrange(start_id as int, end_id as int),
            final(self)@.len() == old(self)@.len(),
            forall|i: int|
                0 <= i < old(self)@.len() ==> #[trigger] final(self)@[i] == if start_id <= i
                    < end_id {
                    None
                } else {
                    old(self)@[i]
                },
    {
        let mut taken: Vec<Option<S>> = Vec::new();
        let mut i: usize = start_id;
        while i < end_id
            invariant
                start_id <= i <= end_id <= self.sections@.len(),
                self.sections@.len() == old(self).sections@.len(),
                self.current_size == old(self).current_size,
                old(self).wf(),
                taken@ == old(self).sections@.subrange(start_id as int, i as int),
                forall|j: int|
                    0 <= j < self.sections@.len() ==> #[trigger] self.sections@[j] == if start_id
                        <= j < i {
                        None
                    } else {
                        old(self).sections@[j]
                    },
            decreases end_id - i,
        {
            let slot = &mut self.sections[i];
            let section = slot.take();
            taken.push(section);
            i += 1;
        }
        taken
    }
}

} // verus!
