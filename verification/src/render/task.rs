use vstd::prelude::*;

verus! {

/// What a render task does with a frame once it has been woken.
#[derive(Debug, Clone, Copy, PartialEq, Eq, Structural)]
pub enum FrameWork {
    /// No new frame was published, or it holds nothing.
    Idle,
    /// Draw the drawables, then submit the frame's command buffers after the
    /// drawing's own.
    Render,
    /// Nothing to draw: submit the frame's command buffers alone.
    SubmitCommands,
}

/// The work for a frame: none unless a new one was `published`; drawing
/// when it has drawables; otherwise its command buffers, if any.
pub open spec fn spec_frame_work(published: bool, drawables: nat, command_buffers: nat) -> FrameWork {
    if !published {
        FrameWork::Idle
    } else if drawables > 0 {
        FrameWork::Render
    } else if command_buffers > 0 {
        FrameWork::SubmitCommands
    } else {
        FrameWork::Idle
    }
}

/// Decides the work for a frame of `drawables` drawables and
/// `command_buffers` command buffers, given whether it was newly
/// `published` since the last one.
pub fn frame_work(published: bool, drawables: usize, command_buffers: usize) -> (r: FrameWork)
    ensures
        r == spec_frame_work(published, drawables as nat, command_buffers as nat),
{
    if !published {
        FrameWork::Idle
    } else if drawables != 0 {
        FrameWork::Render
    } else if command_buffers != 0 {
        FrameWork::SubmitCommands
    } else {
        FrameWork::Idle
    }
}

/// Whether a task switched between running on its own thread and on the
/// caller's must change anything: not once it was interrupted, since that
/// would revive it, and not when it already runs the asked way.
pub open spec fn spec_must_switch(interrupted: bool, threaded: bool, to_threaded: bool) -> bool {
    !interrupted && threaded != to_threaded
}

/// Decides whether switching a task to `to_threaded` does anything.
pub fn must_switch(interrupted: bool, threaded: bool, to_threaded: bool) -> (r: bool)
    ensures
        r == spec_must_switch(interrupted, threaded, to_threaded),
{
    if interrupted || threaded == to_threaded {
        false
    } else {
        true
    }
}

/// A render task that stops running on its own thread is interrupted first,
/// so that its thread ends; any other switch leaves it running.
pub open spec fn spec_interrupt_before_switch(threaded: bool, to_threaded: bool) -> bool {
    threaded && !to_threaded
}

/// Decides whether a render task is interrupted before switching to
/// `to_threaded`.
pub fn interrupt_before_switch(threaded: bool, to_threaded: bool) -> (r: bool)
    ensures
        r == spec_interrupt_before_switch(threaded, to_threaded),
{
    threaded && !to_threaded
}

/// A frame with nothing in it is never drawn or submitted.
pub proof fn law_empty_frame_is_idle(published: bool)
    ensures
        spec_frame_work(published, 0, 0) == FrameWork::Idle,
{
}

/// Nothing is drawn or submitted for a frame that was not newly published,
/// whatever it holds. A published frame is drawn exactly when it has
/// drawables, and otherwise its command buffers are submitted exactly when
/// there are any.
pub proof fn law_only_published_frames_are_worked_on(published: bool, drawables: nat, command_buffers: nat)
    ensures
        !published ==> spec_frame_work(published, drawables, command_buffers) == FrameWork::Idle,
        spec_frame_work(published, drawables, command_buffers) == FrameWork::Render <==> (published && drawables
            > 0),
        spec_frame_work(published, drawables, command_buffers) == FrameWork::SubmitCommands <==> (published
            && drawables == 0 && command_buffers > 0),
{
}

/// An interrupted task is never switched: switching would revive it.
pub proof fn law_interrupted_task_never_switches(threaded: bool, to_threaded: bool)
    ensures
        !spec_must_switch(true, threaded, to_threaded),
{
}

/// Asking a task to keep running the way it runs changes nothing.
pub proof fn law_switch_to_same_mode_is_nothing(interrupted: bool, threaded: bool)
    ensures
        !spec_must_switch(interrupted, threaded, threaded),
{
}

/// A render task running on its own thread and asked to run on the caller's
/// is interrupted first; an interrupted task does not switch, so it ends up
/// stopped rather than moved.
pub proof fn law_leaving_the_thread_stops_the_task()
    ensures
        spec_interrupt_before_switch(true, false),
        !spec_must_switch(true, true, false),
{
}

/// Takes a pending configuration change: whether one was asked for since the
/// last frame, which the task then applies; the request is cleared either
/// way.
pub fn take_pending(pending: &mut bool) -> (r: bool)
    ensures
        r == *old(pending),
        !*final(pending),
{
    if *pending {
        *pending = false;
        true
    } else {
        false
    }
}

} // verus!
