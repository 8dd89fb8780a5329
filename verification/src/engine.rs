//! The activity engine: owns the current activity, the single staged
//! interactive command, and the quit flag, and applies every transition.
//!
//! The engine never performs terminal-breaking work itself. Fetching
//! candidates, spawning processes and waiting on events belong to the
//! driver; the engine takes their results as plain values and decides.
//!
//! Known limitation, kept on purpose: an action that stages an interactive
//! command re-selects the next activity before the command has actually
//! run, so the same task can in principle be picked again while its edit is
//! still pending.

use vstd::prelude::*;
use vstd::string::StringExecFns;
use crate::activity::Activity;
use crate::error::RunError;
use crate::select::{select, select_with_roll, selection_ok, selectable};
use crate::task::Task;
use crate::taskwarrior::{coefficient_arg, has_coeff_key, CommandLine, Taskwarrior};
use crate::time::{spec_decimal, u64_to_string, MAX_SECS};

verus! {

/// What urlencoding's `encode` returns for a string: its percent-encoded
/// form, a function of the characters alone.
pub uninterp spec fn url_encoded(s: Seq<char>) -> Seq<char>;

/// Relies on urlencoding's `encode`: percent-encodes every character
/// outside the unreserved set; the result depends on the input characters
/// alone.
#[verifier::external_body]
fn encode_component(s: &str) -> (r: String)
    ensures
        r@ == url_encoded(s@),
{
    urlencoding::encode(s).into_owned()
}

/// The deep link that starts a focus session: the encoded goal text and
/// the remaining whole seconds of the current work session.
pub open spec fn spec_focus_url(goal: Seq<char>, remaining_secs: nat) -> Seq<char> {
    "raycast://focus/start?goal="@ + url_encoded(goal)
        + "&categories=messaging,social,news&duration="@ + spec_decimal(remaining_secs)
}

/// The engine's whole state: the tracker handle, what is being done right
/// now, at most one staged interactive command (a single-slot mailbox the
/// driver drains), and the quit signal.
#[derive(Debug)]
pub struct App {
    pub tw: Taskwarrior,
    pub doing: Activity,
    pub interactive: Option<CommandLine>,
    pub should_quit: bool,
}

impl App {
    /// Well-formedness: the current activity is well-formed.
    pub open spec fn wf(self) -> bool {
        self.doing.wf()
    }

    /// A fresh engine: doing nothing, nothing staged, not quitting.
    pub fn new(tw: Taskwarrior) -> (app: App)
        ensures
            app.wf(),
            app.tw == tw,
            app.doing is Nothing,
            app.interactive is None,
            !app.should_quit,
    {
        App { tw, doing: Activity::Nothing, interactive: None, should_quit: false }
    }

    pub fn should_quit(&self) -> (b: bool)
        ensures
            b == self.should_quit,
    {
        self.should_quit
    }

    /// Ask the main loop to exit.
    pub fn request_quit(&mut self)
        ensures
            *final(self) == (App { should_quit: true, ..*old(self) }),
    {
        self.should_quit = true;
    }

    /// Stage a deferred interactive command. Only one can be pending: a
    /// second request before the first is consumed overwrites it.
    pub fn request_interaction(&mut self, cmd: CommandLine)
        ensures
            *final(self) == (App { interactive: Some(cmd), ..*old(self) }),
    {
        self.interactive = Some(cmd);
    }

    /// Drain the staged interactive command, if any; the slot is empty
    /// afterwards.
    pub fn take_interactive(&mut self) -> (c: Option<CommandLine>)
        ensures
            c == old(self).interactive,
            *final(self) == (App { interactive: None, ..*old(self) }),
    {
        self.interactive.take()
    }

    /// The periodic tick: when nothing is being done, select the next
    /// activity from the supplied candidates and install it; an in-progress
    /// activity is never interrupted. A failed selection leaves the state
    /// unchanged and is reported, and the loop goes on.
    pub fn handle_tick(&mut self, now: i64, tasks: &Vec<Task>) -> (r: Result<(), RunError>)
        requires
            old(self).wf(),
            0 <= now <= MAX_SECS,
            forall|i: int| 0 <= i < tasks@.len() ==> (#[trigger] tasks@[i]).wf(),
        ensures
            final(self).wf(),
            final(self).tw == old(self).tw,
            final(self).interactive == old(self).interactive,
            final(self).should_quit == old(self).should_quit,
            !(old(self).doing is Nothing) ==> *final(self) == *old(self) && r is Ok,
            old(self).doing is Nothing ==> match r {
                Ok(_) => {
                    &&& exists|roll: u8|
                        roll <= 5 && #[trigger] selection_ok(
                            now as int,
                            roll,
                            false,
                            tasks@,
                            Ok(final(self).doing),
                        )
                    &&& !(final(self).doing is Nothing)
                },
                Err(e) => {
                    &&& e is SelectionFailure
                    &&& *final(self) == *old(self)
                    &&& !selectable(tasks@)
                },
            },
    {
        if self.doing.is_nothing() {
            match select(now, false, tasks) {
                Ok(a) => {
                    self.doing = a;
                    Ok(())
                }
                Err(e) => Err(e),
            }
        } else {
            Ok(())
        }
    }

    /// The tick transition for a known roll of the die; what `handle_tick`
    /// does once the die has shown `roll`.
    pub fn handle_tick_with_roll(&mut self, now: i64, roll: u8, tasks: &Vec<Task>) -> (r: Result<
        (),
        RunError,
    >)
        requires
            old(self).wf(),
            0 <= now <= MAX_SECS,
            roll <= 5,
            forall|i: int| 0 <= i < tasks@.len() ==> (#[trigger] tasks@[i]).wf(),
        ensures
            final(self).wf(),
            final(self).tw == old(self).tw,
            final(self).interactive == old(self).interactive,
            final(self).should_quit == old(self).should_quit,
            !(old(self).doing is Nothing) ==> *final(self) == *old(self) && r is Ok,
            old(self).doing is Nothing ==> match r {
                Ok(_) => {
                    &&& selection_ok(now as int, roll, false, tasks@, Ok(final(self).doing))
                    &&& !(final(self).doing is Nothing)
                },
                Err(e) => {
                    &&& e is SelectionFailure
                    &&& *final(self) == *old(self)
                    &&& !selectable(tasks@)
                },
            },
    {
        if self.doing.is_nothing() {
            match select_with_roll(now, roll, false, tasks) {
                Ok(a) => {
                    self.doing = a;
                    Ok(())
                }
                Err(e) => Err(e),
            }
        } else {
            Ok(())
        }
    }

    /// Unconditionally discard the current activity and select a new one,
    /// even mid-interval. No external mutation occurs; a failed selection
    /// leaves the state unchanged. A fresh pick always starts at the call
    /// time, and a break is never followed by a second one.
    pub fn reroll(&mut self, now: i64, tasks: &Vec<Task>) -> (r: Result<(), RunError>)
        requires
            old(self).wf(),
            0 <= now <= MAX_SECS,
            forall|i: int| 0 <= i < tasks@.len() ==> (#[trigger] tasks@[i]).wf(),
        ensures
            final(self).wf(),
            final(self).tw == old(self).tw,
            final(self).interactive == old(self).interactive,
            final(self).should_quit == old(self).should_quit,
            match r {
                Ok(_) => {
                    &&& exists|roll: u8|
                        roll <= 5 && #[trigger] selection_ok(
                            now as int,
                            roll,
                            old(self).doing is OnBreak,
                            tasks@,
                            Ok(final(self).doing),
                        )
                    &&& !(final(self).doing is Nothing)
                    &&& final(self).doing.spec_timer() matches Some(t) && t.started_at == now
                    &&& old(self).doing is OnBreak ==> !(final(self).doing is OnBreak)
                },
                Err(e) => {
                    &&& e is SelectionFailure
                    &&& *final(self) == *old(self)
                    &&& !selectable(tasks@)
                },
            },
    {
        let on_break = self.doing.is_break();
        match select(now, on_break, tasks) {
            Ok(a) => {
                self.doing = a;
                Ok(())
            }
            Err(e) => Err(e),
        }
    }

    /// The reroll transition for a known roll of the die.
    pub fn reroll_with_roll(&mut self, now: i64, roll: u8, tasks: &Vec<Task>) -> (r: Result<
        (),
        RunError,
    >)
        requires
            old(self).wf(),
            0 <= now <= MAX_SECS,
            roll <= 5,
            forall|i: int| 0 <= i < tasks@.len() ==> (#[trigger] tasks@[i]).wf(),
        ensures
            final(self).wf(),
            final(self).tw == old(self).tw,
            final(self).interactive == old(self).interactive,
            final(self).should_quit == old(self).should_quit,
            match r {
                Ok(_) => {
                    &&& selection_ok(
                        now as int,
                        roll,
                        old(self).doing is OnBreak,
                        tasks@,
                        Ok(final(self).doing),
                    )
                    &&& !(final(self).doing is Nothing)
                    &&& final(self).doing.spec_timer() matches Some(t) && t.started_at == now
                },
                Err(e) => {
                    &&& e is SelectionFailure
                    &&& *final(self) == *old(self)
                    &&& !selectable(tasks@)
                },
            },
    {
        let on_break = self.doing.is_break();
        match select_with_roll(now, roll, on_break, tasks) {
            Ok(a) => {
                self.doing = a;
                Ok(())
            }
            Err(e) => Err(e),
        }
    }

    /// The tracker invocation that marks the worked task done, if one is
    /// being worked: the driver runs it to completion before re-selecting,
    /// and a failure terminates the run without installing a new activity.
    pub fn complete_command(&self) -> (c: Option<CommandLine>)
        ensures
            (c is Some) == (self.doing is Working),
            c matches Some(cmd) ==> {
                &&& cmd.program@ == self.tw.binary@
                &&& cmd.args@.len() == 2
                &&& cmd.args@[0]@ == self.doing->Working_task.uuid@
                &&& cmd.args@[1]@ == "done"@
            },
    {
        self.doing.mark_done_command(&self.tw)
    }

    /// Stage an interactive edit of the worked task; a no-op unless
    /// working. Returns whether anything was staged.
    pub fn stage_edit(&mut self) -> (staged: bool)
        requires
            old(self).wf(),
        ensures
            final(self).wf(),
            staged == (old(self).doing is Working),
            !staged ==> *final(self) == *old(self),
            staged ==> *final(self) == (App {
                interactive: final(self).interactive,
                ..*old(self)
            }),
            staged ==> (final(self).interactive matches Some(c) && {
                &&& c.program@ == old(self).tw.binary@
                &&& c.args@.len() == 2
                &&& c.args@[0]@ == old(self).doing->Working_task.uuid@
                &&& c.args@[1]@ == "edit"@
            }),
    {
        let uuid: String = if let Activity::Working { task, .. } = &self.doing {
            task.uuid.clone()
        } else {
            return false;
        };
        let mut args: Vec<String> = Vec::new();
        args.push(uuid);
        args.push("edit".to_owned());
        self.request_interaction(CommandLine { program: self.tw.binary.clone(), args });
        true
    }

    /// Stage a deferral of the worked task — a modify call that waits it
    /// for an hour; a no-op unless working. The driver re-selects after
    /// staging. Returns whether anything was staged.
    pub fn stage_defer(&mut self) -> (staged: bool)
        requires
            old(self).wf(),
        ensures
            final(self).wf(),
            staged == (old(self).doing is Working),
            !staged ==> *final(self) == *old(self),
            staged ==> *final(self) == (App {
                interactive: final(self).interactive,
                ..*old(self)
            }),
            staged ==> (final(self).interactive matches Some(c) && {
                &&& c.program@ == old(self).tw.binary@
                &&& c.args@.len() == 3
                &&& c.args@[0]@ == old(self).doing->Working_task.uuid@
                &&& c.args@[1]@ == "modify"@
                &&& c.args@[2]@ == "wait:1h"@
            }),
    {
        let uuid: String = if let Activity::Working { task, .. } = &self.doing {
            task.uuid.clone()
        } else {
            return false;
        };
        let cmd = self.tw.modify().with_subject(uuid.as_str()).with_mod("wait:1h").command();
        self.request_interaction(cmd);
        true
    }

    /// Stage the external opener for the worked task; a no-op unless
    /// working. Returns whether anything was staged.
    pub fn stage_open(&mut self) -> (staged: bool)
        requires
            old(self).wf(),
        ensures
            final(self).wf(),
            staged == (old(self).doing is Working),
            !staged ==> *final(self) == *old(self),
            staged ==> *final(self) == (App {
                interactive: final(self).interactive,
                ..*old(self)
            }),
            staged ==> (final(self).interactive matches Some(c) && {
                &&& c.program@ == "tw-open"@
                &&& c.args@.len() == 1
                &&& c.args@[0]@ == old(self).doing->Working_task.uuid@
            }),
    {
        let uuid: String = if let Activity::Working { task, .. } = &self.doing {
            task.uuid.clone()
        } else {
            return false;
        };
        let mut args: Vec<String> = Vec::new();
        args.push(uuid);
        self.request_interaction(CommandLine { program: "tw-open".to_owned(), args });
        true
    }

    /// Stage the breakdown tool for the worked task; a no-op unless
    /// working. Returns whether anything was staged.
    pub fn stage_breakdown(&mut self) -> (staged: bool)
        requires
            old(self).wf(),
        ensures
            final(self).wf(),
            staged == (old(self).doing is Working),
            !staged ==> *final(self) == *old(self),
            staged ==> *final(self) == (App {
                interactive: final(self).interactive,
                ..*old(self)
            }),
            staged ==> (final(self).interactive matches Some(c) && {
                &&& c.program@ == "tw-breakdown"@
                &&& c.args@.len() == 2
                &&& c.args@[0]@ == "--seq"@
                &&& c.args@[1]@ == old(self).doing->Working_task.uuid@
            }),
    {
        let uuid: String = if let Activity::Working { task, .. } = &self.doing {
            task.uuid.clone()
        } else {
            return false;
        };
        let mut args: Vec<String> = Vec::new();
        args.push("--seq".to_owned());
        args.push(uuid);
        self.request_interaction(CommandLine { program: "tw-breakdown".to_owned(), args });
        true
    }

    /// The deep link that starts a focus session on the worked task, built
    /// whenever a work session is running with time still remaining.
    pub fn focus_url(&self, now: i64) -> (r: Option<String>)
        requires
            self.wf(),
            0 <= now <= MAX_SECS,
        ensures
            (r is Some) == (self.doing is Working
                && self.doing->Working_timer.spec_remaining(now as int) > 0),
            r matches Some(u) ==> u@ == spec_focus_url(
                self.doing->Working_task.description@,
                self.doing->Working_timer.spec_remaining(now as int) as nat,
            ),
    {
        if let Activity::Working { task, timer } = &self.doing {
            let remaining = timer.remaining(now);
            if remaining > 0 {
                let mut url: String = "raycast://focus/start?goal=".to_owned();
                url.append(encode_component(task.description.as_str()).as_str());
                url.append("&categories=messaging,social,news&duration=");
                url.append(u64_to_string(remaining as u64).as_str());
                proof {
                    assert(url@ =~= spec_focus_url(
                        self.doing->Working_task.description@,
                        self.doing->Working_timer.spec_remaining(now as int) as nat,
                    ));
                }
                Some(url)
            } else {
                None
            }
        } else {
            None
        }
    }

    /// The export invocation that fetches the candidate set: the date- and
    /// dependency-driven urgency coefficients zeroed and the filters set to
    /// ready, non-backlog tasks, so that the sampling weight reflects only
    /// the tracker's residual urgency signal.
    pub fn available_tasks_command(&self) -> (c: CommandLine)
        ensures
            c.program@ == self.tw.binary@,
            c.args@.len() == 7,
            c.args@[0]@ == coefficient_arg("due"@, "0"@),
            c.args@[1]@ == coefficient_arg("age"@, "0"@),
            c.args@[2]@ == coefficient_arg("blocked"@, "0"@),
            c.args@[3]@ == coefficient_arg("blocking"@, "0"@),
            c.args@[4]@ == "jirastatus.not:backlog"@,
            c.args@[5]@ == "+READY"@,
            c.args@[6]@ == "export"@,
    {
        proof {
            reveal_strlit("due");
            reveal_strlit("age");
            reveal_strlit("blocked");
            reveal_strlit("blocking");
            assert("due"@[0] == 'd' && "age"@[0] == 'a');
            assert("due"@.len() == 3 && "age"@.len() == 3);
            assert("blocked"@.len() == 7 && "blocking"@.len() == 8);
        }
        let b0 = self.tw.export();
        let b1 = b0.with_urgency_coefficient("due", "0");
        proof {
            assert(b1.coefficients@[0] == b1.coefficients@.last());
            assert(!has_coeff_key(b1.coefficients@, "age"@));
        }
        let b2 = b1.with_urgency_coefficient("age", "0");
        proof {
            assert(b2.coefficients@[1] == b2.coefficients@.last());
            assert(!has_coeff_key(b2.coefficients@, "blocked"@));
        }
        let b3 = b2.with_urgency_coefficient("blocked", "0");
        proof {
            assert(b3.coefficients@[2] == b3.coefficients@.last());
            assert(!has_coeff_key(b3.coefficients@, "blocking"@));
        }
        let b4 = b3.with_urgency_coefficient("blocking", "0");
        proof {
            assert(b4.coefficients@[3] == b4.coefficients@.last());
        }
        b4.with_filter("jirastatus.not:backlog").with_filter("+READY").command()
    }

    /// The export invocation that re-fetches the worked task's record by
    /// its stable identifier, if a task is being worked.
    pub fn refresh_command(&self) -> (c: Option<CommandLine>)
        ensures
            (c is Some) == (self.doing is Working),
            c matches Some(cmd) ==> {
                &&& cmd.program@ == self.tw.binary@
                &&& cmd.args@.len() == 3
                &&& cmd.args@[0]@ == self.doing->Working_task.uuid@
                &&& cmd.args@[1]@ == "limit:1"@
                &&& cmd.args@[2]@ == "export"@
            },
    {
        if let Activity::Working { task, .. } = &self.doing {
            Some(
                self.tw
                    .export()
                    .with_filter(task.uuid.as_str())
                    .with_filter("limit:1")
                    .command(),
            )
        } else {
            None
        }
    }

    /// The stable identifier a refresh must fetch, if a task is being
    /// worked.
    pub fn refresh_target(&self) -> (t: Option<&String>)
        ensures
            (t is Some) == (self.doing is Working),
            t matches Some(u) ==> u@ == self.doing->Working_task.uuid@,
    {
        self.doing.refresh_target()
    }

    /// Replace the worked task's snapshot with a freshly fetched one,
    /// leaving the timing fields untouched; a no-op unless working.
    pub fn refresh_doing(&mut self, fresh: Task)
        requires
            old(self).wf(),
            fresh.wf(),
        ensures
            final(self).wf(),
            final(self).tw == old(self).tw,
            final(self).interactive == old(self).interactive,
            final(self).should_quit == old(self).should_quit,
            old(self).doing is Working ==> final(self).doing == (Activity::Working {
                task: fresh,
                timer: old(self).doing->Working_timer,
            }),
            !(old(self).doing is Working) ==> *final(self) == *old(self),
    {
        self.doing.refresh_task(fresh);
    }
}

} // verus!
