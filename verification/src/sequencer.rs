//! The start-up sequence of the application.
//!
//! Start-up is strictly linear: the database facility is registered with the
//! application shell, then the logging facility, then the shell's run loop is
//! started. Whatever fails on the way is fatal: there is no retry and no
//! partially started application. The sequencer decides; its caller performs
//! each action and reports how it went.

use vstd::prelude::*;

verus! {

/// The connection string of the application's database: the SQLite file
/// `forge.db`.
pub const DATABASE_URL: &'static str = "sqlite:forge.db";

/// The message under which a failed start-up is reported before the process
/// is aborted.
pub const FATAL_MESSAGE: &'static str = "error while running tauri application";

/// What the sequencer asks of its caller.
#[derive(Clone, Copy, Debug, PartialEq, Eq, Structural)]
pub enum Action {
    /// Register the database facility, configured with [`DATABASE_URL`] and the
    /// schema migrations.
    RegisterDatabase,
    /// Register the logging facility in its default configuration.
    RegisterLogging,
    /// Hand control to the shell's run loop, which returns when the
    /// application ends or could not start.
    RunShell,
    /// The application has run and ended: return to the caller.
    Exit,
    /// Start-up failed: report [`FATAL_MESSAGE`] and abort the process.
    Abort,
}

impl Action {
    /// Whether nothing follows this action.
    pub open spec fn is_terminal(self) -> bool {
        self == Action::Exit || self == Action::Abort
    }

    /// The action that follows `self` once `self` has been carried out with
    /// the given outcome. A terminal action is followed by itself.
    pub open spec fn successor(self, succeeded: bool) -> Action {
        if self.is_terminal() {
            self
        } else if !succeeded {
            Action::Abort
        } else if self == Action::RegisterDatabase {
            Action::RegisterLogging
        } else if self == Action::RegisterLogging {
            Action::RunShell
        } else {
            Action::Exit
        }
    }

    /// The action that start-up begins with.
    pub fn first() -> (action: Action)
        ensures
            action == Action::RegisterDatabase,
    {
        Action::RegisterDatabase
    }

    /// Whether nothing follows this action: the caller leaves its loop.
    pub fn terminal(self) -> (answer: bool)
        ensures
            answer == self.is_terminal(),
    {
        match self {
            Action::Exit | Action::Abort => true,
            Action::RegisterDatabase | Action::RegisterLogging | Action::RunShell => false,
        }
    }

    /// Decides what to do after `self` has been carried out, given whether it
    /// succeeded.
    pub fn next(self, succeeded: bool) -> (action: Action)
        ensures
            action == self.successor(succeeded),
    {
        match self {
            Action::Exit => Action::Exit,
            Action::Abort => Action::Abort,
            Action::RegisterDatabase => if succeeded {
                Action::RegisterLogging
            } else {
                Action::Abort
            },
            Action::RegisterLogging => if succeeded {
                Action::RunShell
            } else {
                Action::Abort
            },
            Action::RunShell => if succeeded {
                Action::Exit
            } else {
                Action::Abort
            },
        }
    }
}

/// The action that is due after the caller has reported `outcomes`, one for
/// each action it carried out, oldest first.
pub open spec fn due(outcomes: Seq<bool>) -> Action
    decreases outcomes.len(),
{
    if outcomes.len() == 0 {
        Action::RegisterDatabase
    } else {
        due(outcomes.drop_last()).successor(outcomes.last())
    }
}

/// Whether the first `n` of the outcomes are all successes.
pub open spec fn all_succeeded(outcomes: Seq<bool>, n: int) -> bool {
    forall|i: int| 0 <= i < n && i < outcomes.len() ==> #[trigger] outcomes[i]
}

/// The start-up sequence in full. Which action is due depends only on how many
/// outcomes were reported and on whether one of the first three was a failure:
/// the database facility comes first, the logging facility after it, the run
/// loop after both, and the end after the run loop has returned; a failure at
/// any of the three aborts, and nothing follows the end or the abort.
pub proof fn lemma_sequence(outcomes: Seq<bool>)
    ensures
        due(outcomes) == if !all_succeeded(outcomes, 3) {
            Action::Abort
        } else if outcomes.len() == 0 {
            Action::RegisterDatabase
        } else if outcomes.len() == 1 {
            Action::RegisterLogging
        } else if outcomes.len() == 2 {
            Action::RunShell
        } else {
            Action::Exit
        },
    decreases outcomes.len(),
{
    if outcomes.len() > 0 {
        let earlier = outcomes.drop_last();
        lemma_sequence(earlier);
        assert(forall|i: int| 0 <= i < earlier.len() ==> earlier[i] == outcomes[i]);
        if !all_succeeded(earlier, 3) {
            let i = choose|i: int| 0 <= i < 3 && i < earlier.len() && !earlier[i];
            assert(!outcomes[i]);
        } else if outcomes.len() <= 3 && !outcomes.last() {
            assert(!outcomes[outcomes.len() - 1]);
        } else {
            assert forall|i: int| 0 <= i < 3 && i < outcomes.len() implies outcomes[i] by {
                if i < earlier.len() {
                    assert(earlier[i]);
                }
            }
        }
    }
}

/// A failed action is fatal: whatever was due, if it was not terminal and it
/// failed, the abort is due next, and stays due whatever is reported after it.
pub proof fn lemma_failure_aborts(outcomes: Seq<bool>, later: Seq<bool>)
    requires
        !due(outcomes).is_terminal(),
    ensures
        due(outcomes.push(false) + later) == Action::Abort,
{
    let reported = outcomes.push(false) + later;
    lemma_sequence(outcomes);
    lemma_sequence(reported);
    let at = outcomes.len() as int;
    assert(at < 3);
    assert(!reported[at]);
}

/// Start-up ends after three reports at the latest, and a terminal action is
/// never replaced by another.
pub proof fn lemma_terminal_stays(outcomes: Seq<bool>, outcome: bool)
    ensures
        outcomes.len() >= 3 ==> due(outcomes).is_terminal(),
        due(outcomes).is_terminal() ==> due(outcomes.push(outcome)) == due(outcomes),
{
    lemma_sequence(outcomes);
    assert(outcomes.push(outcome).drop_last() =~= outcomes);
}

} // verus!
