//! The order in which the server starts, and what a failure on the way means.
//!
//! The host does the work of each stage and reports whether it succeeded;
//! this module decides what comes next. No stage is retried and none is
//! skipped: the first failure ends the process.

use vstd::prelude::*;

verus! {

/// The stages of a start, in the order in which they run.
#[derive(Clone, Copy, Debug, PartialEq, Eq, Structural)]
pub enum Stage {
    /// Open the database.
    ConnectDatabase,
    /// Apply the pending migrations.
    RunMigrations,
    /// Read the site address and the render options.
    LoadConfiguration,
    /// Bind the listening socket.
    BindSocket,
    /// Accept connections until the process ends.
    Serve,
}

/// What the host does after a stage.
#[derive(Clone, Copy, Debug, PartialEq, Eq, Structural)]
pub enum Next {
    /// Go on with this stage.
    Run(Stage),
    /// Give up: the stage named here failed, and the process exits with the
    /// given code, which is never zero.
    Abort { failed: Stage, exit_code: u8 },
    /// The server ran and has shut down in good order.
    Finished,
}

/// The exit code of a process that gave up.
pub const FAILURE_EXIT_CODE: u8 = 101;

/// The position of a stage in the order of a start.
pub open spec fn position(stage: Stage) -> nat {
    match stage {
        Stage::ConnectDatabase => 0,
        Stage::RunMigrations => 1,
        Stage::LoadConfiguration => 2,
        Stage::BindSocket => 3,
        Stage::Serve => 4,
    }
}

/// What follows a stage: after a failure the process gives up; after a
/// success the stage that is next in order runs, and after the last one the
/// start is over.
pub open spec fn next_of(stage: Stage, succeeded: bool) -> Next {
    if !succeeded {
        Next::Abort { failed: stage, exit_code: FAILURE_EXIT_CODE }
    } else {
        match stage {
            Stage::ConnectDatabase => Next::Run(Stage::RunMigrations),
            Stage::RunMigrations => Next::Run(Stage::LoadConfiguration),
            Stage::LoadConfiguration => Next::Run(Stage::BindSocket),
            Stage::BindSocket => Next::Run(Stage::Serve),
            Stage::Serve => Next::Finished,
        }
    }
}

/// How a start ends when it goes on from `stage` and every stage succeeds
/// or fails as `succeeds` says: with the first stage that fails, or finished.
pub open spec fn outcome_from(stage: Stage, succeeds: spec_fn(Stage) -> bool) -> Next
    decreases 5 - position(stage),
{
    match next_of(stage, succeeds(stage)) {
        Next::Run(following) => outcome_from(following, succeeds),
        end => end,
    }
}

/// The stage a start begins with.
pub fn first_stage() -> (stage: Stage)
    ensures
        stage == Stage::ConnectDatabase,
{
    Stage::ConnectDatabase
}

/// Decides what the host does after `stage`, given whether it succeeded.
pub fn next(stage: Stage, succeeded: bool) -> (step: Next)
    ensures
        step == next_of(stage, succeeded),
{
    if !succeeded {
        return Next::Abort { failed: stage, exit_code: FAILURE_EXIT_CODE };
    }
    match stage {
        Stage::ConnectDatabase => Next::Run(Stage::RunMigrations),
        Stage::RunMigrations => Next::Run(Stage::LoadConfiguration),
        Stage::LoadConfiguration => Next::Run(Stage::BindSocket),
        Stage::BindSocket => Next::Run(Stage::Serve),
        Stage::Serve => Next::Finished,
    }
}

/// What the process says when it gives up at `stage`: the stages that touch
/// the database have a message of their own, the others have none.
pub fn failure_message(stage: Stage) -> (message: &'static str)
    ensures
        message@ == failure_message_of(stage),
{
    match stage {
        Stage::ConnectDatabase => "db pool to work",
        Stage::RunMigrations => "could not run SQLx migrations",
        _ => "",
    }
}

/// The message for a failure at each stage.
pub open spec fn failure_message_of(stage: Stage) -> Seq<char> {
    match stage {
        Stage::ConnectDatabase => "db pool to work"@,
        Stage::RunMigrations => "could not run SQLx migrations"@,
        _ => ""@,
    }
}

/// A stage that goes on to another goes on to the one after it in order, so
/// a start makes at most five steps.
pub proof fn lemma_stages_run_in_order(stage: Stage)
    ensures
        next_of(stage, true) matches Next::Run(following) ==> position(following) == position(
            stage,
        ) + 1,
        next_of(stage, true) is Finished <==> stage == Stage::Serve,
{
}

/// A failure is final, whatever the stage: the process gives up at that
/// stage with a code that is not zero.
pub proof fn lemma_failure_aborts(stage: Stage)
    ensures
        next_of(stage, false) == (Next::Abort { failed: stage, exit_code: FAILURE_EXIT_CODE }),
        FAILURE_EXIT_CODE != 0,
{
}

/// A start fails fast. Where the database cannot be opened, or where it can
/// and the migrations fail, the process gives up at that stage with a code
/// that is not zero: it never binds a socket and never serves.
pub proof fn lemma_database_failure_is_fatal(succeeds: spec_fn(Stage) -> bool)
    requires
        !succeeds(Stage::ConnectDatabase) || !succeeds(Stage::RunMigrations),
    ensures
        outcome_from(Stage::ConnectDatabase, succeeds) matches Next::Abort { failed, exit_code }
            && exit_code != 0 && (failed == Stage::ConnectDatabase || failed
            == Stage::RunMigrations),
{
    reveal_with_fuel(outcome_from, 3);
}

/// A start ends finished only if every stage succeeded; else it ends by
/// giving up at the first stage that failed.
pub proof fn lemma_first_failure_decides(succeeds: spec_fn(Stage) -> bool)
    ensures
        outcome_from(Stage::ConnectDatabase, succeeds) is Finished <==> (forall|stage: Stage|
            #[trigger] succeeds(stage)),
        outcome_from(Stage::ConnectDatabase, succeeds) matches Next::Abort { failed, exit_code }
            ==> !succeeds(failed) && exit_code != 0 && (forall|stage: Stage|
            position(stage) < position(failed) ==> #[trigger] succeeds(stage)),
        !(outcome_from(Stage::ConnectDatabase, succeeds) is Run),
{
    reveal_with_fuel(outcome_from, 6);
    if forall|stage: Stage| #[trigger] succeeds(stage) {
        assert(succeeds(Stage::ConnectDatabase));
        assert(succeeds(Stage::RunMigrations));
        assert(succeeds(Stage::LoadConfiguration));
        assert(succeeds(Stage::BindSocket));
        assert(succeeds(Stage::Serve));
    }
}

} // verus!
