//! How a range of instances is drawn through an instance buffer that holds
//! at most `MAX_INSTANCES` of them.

use vstd::prelude::*;

use super::command_manager::MAX_INSTANCES;
use crate::Colour;

verus! {

/// What a render pass does with what is on the screen when it starts.
#[derive(Debug, Clone, Copy, PartialEq, Eq, Structural)]
pub enum LoadOp {
    /// Start from this colour.
    Clear(Colour),
    /// Draw over what is there.
    Load,
}

/// One render pass over instances of one kind.
#[derive(Debug, Clone, Copy, PartialEq, Eq)]
pub struct InstancePass {
    /// The instances to write into the buffer before drawing, from its
    /// first slot on, in place of all it held; `None` where the buffer
    /// already holds what is drawn.
    pub upload: Option<(usize, usize)>,
    /// The first instance to draw.
    pub start: usize,
    /// One past the last instance to draw.
    pub end: usize,
    /// The instance that the first slot of the buffer holds while drawing.
    pub base: usize,
    /// What the pass starts from.
    pub load_op: LoadOp,
}

impl InstancePass {
    /// Whether what is drawn has slots in the buffer that can be counted
    /// in 32 bits: the range starts no earlier than the buffer and is not
    /// inverted, and ends no more than `u32::MAX` slots into the buffer.
    pub open spec fn addressable(self) -> bool {
        self.base <= self.start <= self.end && self.end - self.base <= u32::MAX
    }

    /// The slots of the instance buffer that the pass draws: the first,
    /// and one past the last. `None` where there are no such slots.
    pub fn slots(&self) -> (slots: Option<(u32, u32)>)
        ensures
            slots == if self.addressable() {
                Some(((self.start - self.base) as u32, (self.end - self.base) as u32))
            } else {
                None::<(u32, u32)>
            },
    {
        if self.base <= self.start && self.start <= self.end && self.end - self.base
            <= 0xFFFF_FFFF {
            let first = self.start - self.base;
            let last = self.end - self.base;
            Some((first as u32, last as u32))
        } else {
            None
        }
    }
}

/// Whether the window `on_gpu` holds all of the instances `start..end`.
pub open spec fn window_holds(on_gpu: Option<(usize, usize)>, start: usize, end: usize) -> bool {
    on_gpu matches Some(window) && start >= window.0 && end <= window.1
}

/// The smaller of two numbers.
pub open spec fn least(a: int, b: int) -> int {
    if a <= b {
        a
    } else {
        b
    }
}

/// The window to load for the instances `range`, given the window that is
/// on the GPU and the number of instances there are: none where the window
/// holds the range, else as many instances as the buffer takes, from the
/// first of the range on.
pub open spec fn window_to_load(
    range: (usize, usize),
    on_gpu: Option<(usize, usize)>,
    total: usize,
) -> Option<(usize, usize)> {
    if window_holds(on_gpu, range.0, range.1) {
        None
    } else {
        Some((range.0, least(range.0 + MAX_INSTANCES, total as int) as usize))
    }
}

/// The window that has to be loaded before the instances `range_requested`
/// can be drawn, if any has to be.
pub fn instances_to_load(
    range_requested: (usize, usize),
    on_gpu: Option<(usize, usize)>,
    total_instances: usize,
) -> (window: Option<(usize, usize)>)
    ensures
        window == window_to_load(range_requested, on_gpu, total_instances),
{
    if let Some((on_gpu_start_id, on_gpu_end_id)) = on_gpu {
        if range_requested.0 >= on_gpu_start_id && range_requested.1 <= on_gpu_end_id {
            return None;
        }
    }
    let new_end = if range_requested.0 <= total_instances && total_instances - range_requested.0
        > MAX_INSTANCES {
        range_requested.0 + MAX_INSTANCES
    } else {
        total_instances
    };
    Some((range_requested.0, new_end))
}

/// How many passes it takes to draw `start..end` where the buffer does not
/// hold it: one for each buffer load, and one for an empty range.
pub open spec fn pass_count(start: usize, end: usize) -> int {
    if end <= start {
        1
    } else {
        (end - start + MAX_INSTANCES - 1) / (MAX_INSTANCES as int)
    }
}

/// The `i`-th pass of those that draw `start..end` out of `total` instances
/// where the buffer does not hold the range: it loads the buffer with as
/// many instances as it takes, from instance `start + i * MAX_INSTANCES`
/// on, and draws those of them that are in the range. The first pass
/// starts from `first_op`, the others draw over what is there.
pub open spec fn nth_pass(start: usize, end: usize, total: usize, first_op: LoadOp, i: int) -> InstancePass {
    let from = start + i * MAX_INSTANCES;
    InstancePass {
        upload: Some((from as usize, least(from + MAX_INSTANCES, total as int) as usize)),
        start: from as usize,
        end: least(from + MAX_INSTANCES, end as int) as usize,
        base: from as usize,
        load_op: if i == 0 {
            first_op
        } else {
            LoadOp::Load
        },
    }
}

/// The passes that draw the instances `start..end` out of `total`, given
/// the window `on_gpu` that is in the buffer: a single pass without upload
/// where the window holds the range, else one pass for each buffer load.
pub open spec fn passes(
    start: usize,
    end: usize,
    total: usize,
    on_gpu: Option<(usize, usize)>,
    first_op: LoadOp,
) -> Seq<InstancePass> {
    if window_holds(on_gpu, start, end) {
        seq![
            InstancePass { upload: None, start, end, base: on_gpu.unwrap().0, load_op: first_op },
        ]
    } else {
        Seq::new(
            pass_count(start, end) as nat,
            |i: int| nth_pass(start, end, total, first_op, i),
        )
    }
}

/// The window that is in the buffer after `passes`: the one that was
/// there where it held the range, else the one that the last pass loaded.
pub open spec fn window_after(
    start: usize,
    end: usize,
    total: usize,
    on_gpu: Option<(usize, usize)>,
) -> Option<(usize, usize)> {
    if window_holds(on_gpu, start, end) {
        on_gpu
    } else {
        nth_pass(start, end, total, LoadOp::Load, pass_count(start, end) - 1).upload
    }
}

/// Whether `pass` draws only what the instance buffer holds while it draws,
/// where the buffer held `before` when the pass began: a buffer load is no
/// larger than the buffer and reaches no further than `total`, and what is
/// drawn lies in the window that the first slot of the buffer starts.
pub open spec fn draws_from_buffer(
    pass: InstancePass,
    before: Option<(usize, usize)>,
    total: usize,
) -> bool {
    let held = if pass.upload is Some {
        pass.upload
    } else {
        before
    };
    &&& pass.upload matches Some(window) ==> window.0 <= window.1 <= total && window.1 - window.0
        <= MAX_INSTANCES
    &&& held matches Some(window) && pass.base == window.0 && window.0 <= pass.start <= pass.end
        <= window.1
}

/// A pass that draws from a buffer load draws slots that the buffer has.
pub proof fn lemma_loaded_pass_has_slots(
    pass: InstancePass,
    before: Option<(usize, usize)>,
    total: usize,
)
    requires
        pass.upload is Some,
        draws_from_buffer(pass, before, total),
    ensures
        pass.addressable(),
        pass.end - pass.base <= MAX_INSTANCES,
{
}

/// A range that the window in the buffer holds is drawn in exactly one
/// pass, nothing is loaded for it, and the window stays as it is.
pub proof fn lemma_resident_range_is_drawn_once(
    start: usize,
    end: usize,
    total: usize,
    on_gpu: Option<(usize, usize)>,
    first_op: LoadOp,
)
    requires
        window_holds(on_gpu, start, end),
    ensures
        passes(start, end, total, on_gpu, first_op).len() == 1,
        passes(start, end, total, on_gpu, first_op)[0].upload is None,
        passes(start, end, total, on_gpu, first_op)[0].start == start,
        passes(start, end, total, on_gpu, first_op)[0].end == end,
        passes(start, end, total, on_gpu, first_op)[0].load_op == first_op,
        start <= end ==> draws_from_buffer(passes(start, end, total, on_gpu, first_op)[0], on_gpu, total),
        window_after(start, end, total, on_gpu) == on_gpu,
{
}

/// A range that the window in the buffer does not hold is drawn in one pass
/// for each buffer load. Each pass loads the buffer and draws only what it
/// then holds; the passes draw the range piece by piece, in order, leaving
/// nothing out and drawing nothing twice; only the first starts from
/// `first_op`. Where the range ends with the last instance there is, each
/// pass loads exactly what it draws.
pub proof fn lemma_passes_cover_range(
    start: usize,
    end: usize,
    total: usize,
    on_gpu: Option<(usize, usize)>,
    first_op: LoadOp,
)
    requires
        start <= end <= total,
        !window_holds(on_gpu, start, end),
    ensures
        ({
            let ps = passes(start, end, total, on_gpu, first_op);
            &&& ps.len() == pass_count(start, end) >= 1
            &&& ps[0].start == start
            &&& ps[0].load_op == first_op
            &&& ps.last().end == end
            &&& window_after(start, end, total, on_gpu) == ps.last().upload
            &&& forall|i: int| 0 <= i < ps.len() - 1 ==> (#[trigger] ps[i]).end == ps[i + 1].start
            &&& forall|i: int| 0 < i < ps.len() ==> (#[trigger] ps[i]).load_op == LoadOp::Load
            &&& forall|i: int|
                0 <= i < ps.len() ==> (#[trigger] ps[i]).upload is Some && draws_from_buffer(
                    ps[i],
                    on_gpu,
                    total,
                )
            &&& end == total ==> forall|i: int|
                0 <= i < ps.len() ==> (#[trigger] ps[i]).upload == Some((ps[i].start, ps[i].end))
        }),
{
    let ps = passes(start, end, total, on_gpu, first_op);
    let count = pass_count(start, end);
    if start < end {
        assert((count - 1) * MAX_INSTANCES < end - start <= count * MAX_INSTANCES);
    }
    assert forall|i: int| 0 <= i < ps.len() - 1 implies (#[trigger] ps[i]).end == ps[i + 1].start by {
        assert((i + 1) * MAX_INSTANCES <= (count - 1) * MAX_INSTANCES);
    }
    assert forall|i: int| 0 <= i < ps.len() implies (#[trigger] ps[i]).upload is Some
        && draws_from_buffer(ps[i], on_gpu, total) by {
        assert(i * MAX_INSTANCES <= (count - 1) * MAX_INSTANCES);
        assert(start + i * MAX_INSTANCES <= end);
    }
    if end == total {
        assert forall|i: int| 0 <= i < ps.len() implies (#[trigger] ps[i]).upload == Some(
            (ps[i].start, ps[i].end),
        ) by {
            assert(i * MAX_INSTANCES <= (count - 1) * MAX_INSTANCES);
            assert(start + i * MAX_INSTANCES <= end);
        }
    }
}

/// Plans the passes that draw the instances `start..end` out of
/// `total_instances`, appends them to `plan`, and returns the window that is
/// in the buffer after them.
///
/// As long as the window in the buffer does not hold what is left of the
/// range, the buffer is loaded anew from the first instance that is left,
/// and the part of the range that it then holds is drawn. A range that the
/// window holds from the start is drawn in one pass, and nothing is loaded.
pub fn instance_passes(
    start: usize,
    end: usize,
    total_instances: usize,
    on_gpu: Option<(usize, usize)>,
    first_op: LoadOp,
    plan: &mut Vec<InstancePass>,
) -> (window: Option<(usize, usize)>)
    requires
        start <= end <= total_instances,
    ensures
        final(plan)@ == old(plan)@ + passes(start, end, total_instances, on_gpu, first_op),
        window == window_after(start, end, total_instances, on_gpu),
{
    let ghost wanted = passes(start, end, total_instances, on_gpu, first_op);
    let ghost held = window_holds(on_gpu, start, end);
    let mut window = on_gpu;
    let mut load_start_id = start;
    let mut load_op = first_op;
    let ghost mut i: int = 0;
    loop
        invariant_except_break
            start <= end <= total_instances,
            wanted == passes(start, end, total_instances, on_gpu, first_op),
            held == window_holds(on_gpu, start, end),
            0 <= i < pass_count(start, end),
            load_start_id == start + i * MAX_INSTANCES,
            load_start_id <= end,
            i == 0 ==> load_op == first_op && window == on_gpu,
            i > 0 ==> load_op == LoadOp::Load && !held && !window_holds(window, load_start_id, end),
            plan@ == old(plan)@ + wanted.take(i),
        ensures
            plan@ == old(plan)@ + wanted,
            window == window_after(start, end, total_instances, on_gpu),
        decreases end - load_start_id,
    {
        match instances_to_load((load_start_id, end), window, total_instances) {
            None => {
                let base = match window {
                    Some(loaded) => loaded.0,
                    None => load_start_id,
                };
                plan.push(
                    InstancePass { upload: None, start: load_start_id, end, base, load_op },
                );
                proof {
                    assert(i == 0 && held);
                    assert(plan@ =~= old(plan)@ + wanted);
                }
                break ;
            },
            Some(loaded) => {
                let draw_end = if loaded.1 < end {
                    loaded.1
                } else {
                    end
                };
                window = Some(loaded);
                plan.push(
                    InstancePass {
                        upload: Some(loaded),
                        start: load_start_id,
                        end: draw_end,
                        base: load_start_id,
                        load_op,
                    },
                );
                proof {
                    assert(!held);
                    assert(wanted[i] == nth_pass(start, end, total_instances, first_op, i));
                    assert(plan@ =~= old(plan)@ + wanted.take(i + 1));
                }
                if loaded.1 >= end {
                    proof {
                        assert(i + 1 == pass_count(start, end));
                        assert(wanted.take(i + 1) =~= wanted);
                    }
                    break ;
                }
                load_start_id = loaded.1;
                load_op = LoadOp::Load;
                proof {
                    i = i + 1;
                }
            },
        }
    }
    window
}

} // verus!
