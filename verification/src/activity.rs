//! The engine's current focus: nothing, a work session on one task
//! snapshot, or a break.
//!
//! An activity is installed only by the selector and reverts to `Nothing`
//! only through explicit completion; an elapsed countdown by itself never
//! changes state. Extension grows the planned length in place; the start
//! instant is immutable once set.

use vstd::prelude::*;
use crate::task::Task;
use crate::taskwarrior::{CommandLine, Taskwarrior};
use crate::time::Timer;

verus! {

/// What the engine is doing right now. Exactly one variant is active;
/// `Working` holds a point-in-time task snapshot beside its timer.
#[derive(Clone, Debug)]
pub enum Activity {
    Nothing,
    Working { task: Task, timer: Timer },
    OnBreak { timer: Timer },
}

impl Activity {
    /// Well-formedness: whichever timer and snapshot are present are
    /// themselves well-formed.
    pub open spec fn wf(self) -> bool {
        match self {
            Activity::Nothing => true,
            Activity::Working { task, timer } => task.wf() && timer.wf(),
            Activity::OnBreak { timer } => timer.wf(),
        }
    }

    /// The timer of the active session, if one is running.
    pub open spec fn spec_timer(self) -> Option<Timer> {
        match self {
            Activity::Nothing => None,
            Activity::Working { timer, .. } => Some(timer),
            Activity::OnBreak { timer } => Some(timer),
        }
    }

    pub fn is_nothing(&self) -> (b: bool)
        ensures
            b == (*self is Nothing),
    {
        matches!(self, Activity::Nothing)
    }

    pub fn is_break(&self) -> (b: bool)
        ensures
            b == (*self is OnBreak),
    {
        matches!(self, Activity::OnBreak { .. })
    }

    /// The invocation that marks the worked task done, if one is being
    /// worked.
    pub fn mark_done_command(&self, tw: &Taskwarrior) -> (c: Option<CommandLine>)
        ensures
            (c is Some) == (*self is Working),
            c matches Some(cmd) ==> {
                &&& cmd.program@ == tw.binary@
                &&& cmd.args@.len() == 2
                &&& cmd.args@[0]@ == self->Working_task.uuid@
                &&& cmd.args@[1]@ == "done"@
            },
    {
        if let Activity::Working { task, .. } = self {
            Some(tw.mark_done_command(task.uuid.as_str()))
        } else {
            None
        }
    }

    /// Add the original length onto the planned length of the running
    /// session; a no-op for `Nothing`. Each call re-applies the same
    /// original increment, so repeated extension is additive.
    pub fn extend(&mut self)
        requires
            old(self).wf(),
        ensures
            final(self).wf(),
            *old(self) is Nothing ==> *final(self) == *old(self),
            *old(self) is Working ==> *final(self) == (Activity::Working {
                task: (*old(self))->Working_task,
                timer: (*old(self))->Working_timer.spec_extend(),
            }),
            *old(self) is OnBreak ==> *final(self) == (Activity::OnBreak {
                timer: (*old(self))->OnBreak_timer.spec_extend(),
            }),
    {
        match self {
            Activity::Working { timer, .. } => timer.extend(),
            Activity::OnBreak { timer } => timer.extend(),
            Activity::Nothing => {}
        }
    }

    /// The stable identifier of the worked task, if one is being worked:
    /// what a refresh must fetch.
    pub fn refresh_target(&self) -> (t: Option<&String>)
        ensures
            (t is Some) == (*self is Working),
            t matches Some(u) ==> u@ == self->Working_task.uuid@,
    {
        if let Activity::Working { task, .. } = self {
            Some(&task.uuid)
        } else {
            None
        }
    }

    /// Replace the worked task's snapshot with a freshly fetched one,
    /// leaving the timing fields untouched; a no-op unless working.
    pub fn refresh_task(&mut self, fresh: Task)
        requires
            old(self).wf(),
            fresh.wf(),
        ensures
            final(self).wf(),
            *old(self) is Working ==> *final(self) == (Activity::Working {
                task: fresh,
                timer: (*old(self))->Working_timer,
            }),
            !(*old(self) is Working) ==> *final(self) == *old(self),
    {
        if let Activity::Working { task, .. } = self {
            *task = fresh;
        }
    }
}

} // verus!
