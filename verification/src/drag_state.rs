//! Tracking of user-initiated window move and resize operations.
//!
//! While the mouse drags a window, move and resize events are ignored. The
//! tracker records the operation when the drag starts and hands it back
//! when the mouse is released, so that the caller can re-apply the layout
//! or compute new split ratios.

use vstd::prelude::*;

verus! {

/// The type of drag operation in progress.
#[derive(Debug, Clone, Copy, PartialEq, Eq, Structural)]
pub enum DragOperation {
    /// Window is being moved.
    Move,
    /// Window is being resized.
    Resize,
}

/// The state of the current drag operation, with its details of type `I`.
pub struct DragTracker<I> {
    in_progress: bool,
    drag_sequence: u32,
    current: Option<I>,
}

impl<I> DragTracker<I> {
    /// Whether an operation is in progress.
    pub closed spec fn in_progress_spec(&self) -> bool {
        self.in_progress
    }

    /// The mouse drag sequence recorded when the last operation started.
    pub closed spec fn sequence(&self) -> u32 {
        self.drag_sequence
    }

    /// The details of the current operation.
    pub closed spec fn current_spec(&self) -> Option<I> {
        self.current
    }

    /// A tracker with no operation.
    pub fn new() -> (r: Self)
        ensures
            !r.in_progress_spec(),
            r.sequence() == 0,
            r.current_spec() is None,
    {
        DragTracker { in_progress: false, drag_sequence: 0, current: None }
    }
}

/// `t` tracks the operation `info`, started at mouse drag sequence `drag_sequence`.
pub open spec fn operation_started<I>(t: DragTracker<I>, info: I, drag_sequence: u32) -> bool {
    &&& t.in_progress_spec()
    &&& t.sequence() == drag_sequence
    &&& t.current_spec() == Some(info)
}

/// `after` is `before` with its operation ended: nothing is in progress, and
/// the drag sequence is kept.
pub open spec fn operation_ended<I>(before: DragTracker<I>, after: DragTracker<I>) -> bool {
    &&& !after.in_progress_spec()
    &&& after.current_spec() is None
    &&& after.sequence() == before.sequence()
}

/// Returns whether a drag/resize operation is currently in progress.
pub fn is_operation_in_progress<I>(tracker: &DragTracker<I>) -> (r: bool)
    ensures
        r == tracker.in_progress_spec(),
{
    tracker.in_progress
}

/// Gets the current operation info, if any.
pub fn get_operation<I>(tracker: &DragTracker<I>) -> (r: Option<&I>)
    ensures
        r is Some == tracker.current_spec() is Some,
        r matches Some(i) ==> *i == tracker.current_spec()->0,
{
    tracker.current.as_ref()
}

/// Starts tracking a drag/resize operation.
pub fn start_operation<I>(tracker: &mut DragTracker<I>, info: I, drag_sequence: u32)
    ensures
        operation_started(*final(tracker), info, drag_sequence),
{
    tracker.current = Some(info);
    tracker.drag_sequence = drag_sequence;
    tracker.in_progress = true;
}

/// Clears the current operation without triggering any action.
pub fn cancel_operation<I>(tracker: &mut DragTracker<I>)
    ensures
        operation_ended(*old(tracker), *final(tracker)),
{
    tracker.current = None;
    tracker.in_progress = false;
}

/// Finishes the current operation and returns its info for processing.
///
/// Returns `None` if no operation was in progress.
pub fn finish_operation<I>(tracker: &mut DragTracker<I>) -> (r: Option<I>)
    ensures
        r == old(tracker).current_spec(),
        operation_ended(*old(tracker), *final(tracker)),
{
    let info = tracker.current.take();
    tracker.in_progress = false;
    info
}

/// Gets the drag sequence when the current operation started.
pub fn operation_drag_sequence<I>(tracker: &DragTracker<I>) -> (r: u32)
    ensures
        r == tracker.sequence(),
{
    tracker.drag_sequence
}

/// Ending an operation never resets the drag sequence: after an operation
/// started at `drag_sequence`, any number of cancels and finishes leave
/// `drag_sequence` as the recorded sequence.
pub proof fn law_sequence_survives_ended_operations<I>(
    states: Seq<DragTracker<I>>,
    info: I,
    drag_sequence: u32,
)
    requires
        states.len() > 0,
        operation_started(states[0], info, drag_sequence),
        forall|i: int| 0 <= i < states.len() - 1 ==> #[trigger] operation_ended(states[i], states[i + 1]),
    ensures
        forall|i: int| 0 <= i < states.len() ==> (#[trigger] states[i]).sequence() == drag_sequence,
    decreases states.len(),
{
    if states.len() > 1 {
        let init = states.drop_last();
        assert forall|i: int| 0 <= i < init.len() - 1 implies #[trigger] operation_ended(init[i], init[i + 1]) by {
            assert(init[i] == states[i] && init[i + 1] == states[i + 1]);
            assert(operation_ended(states[i], states[i + 1]));
        }
        law_sequence_survives_ended_operations(init, info, drag_sequence);
        assert forall|i: int| 0 <= i < states.len() implies (#[trigger] states[i]).sequence() == drag_sequence by {
            if i < states.len() - 1 {
                assert(init[i] == states[i]);
            } else {
                let j = i - 1;
                assert(operation_ended(states[j], states[j + 1]));
                assert(init[j] == states[j]);
            }
        }
    }
}

} // verus!
