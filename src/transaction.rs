//! The agent's safe update transaction, as a state machine. The caller performs
//! the step that `next_step` names (download, verify, back up, extract, swap the
//! service directory, write the version marker, restart, health-check, or one of
//! the compensations) and hands its result to `advance`.
use vstd::prelude::*;

verus! {

/// How a transaction ended.
#[derive(Clone, Copy, Debug, PartialEq, Eq, Structural)]
pub enum Outcome {
    /// Every stage passed; the target version is installed.
    Completed,
    /// A stage before the swap failed; the service directory was not touched.
    Aborted,
    /// A stage from the swap on failed, and the previous state was restored.
    RolledBack,
    /// A stage from the swap on failed, and the restoration failed too.
    RollbackFailed,
}

/// Where a transaction stands.
#[derive(Clone, Copy, Debug, PartialEq, Eq, Structural)]
pub enum Stage {
    Download,
    Verify,
    Backup,
    Extract,
    Swap,
    MarkVersion,
    Restart,
    HealthCheck,
    Restore,
    RestoreMarker,
    RestartRestored,
    Finished(Outcome),
}

/// What the caller must do next.
#[derive(Clone, Copy, Debug, PartialEq, Eq, Structural)]
pub enum Step {
    /// Fetch the artifact's bytes.
    Download,
    /// Check the bytes against the expected checksum.
    VerifyChecksum,
    /// Copy the service directory into a new backup outside it; report
    /// `NothingToBackUp` where the service directory does not exist.
    Backup,
    /// Unpack the archive into a temporary directory, refusing unsafe paths.
    Extract,
    /// Replace the service directory's contents with the extracted tree.
    Swap,
    /// Write the target version into the version marker.
    WriteTargetMarker,
    /// Run the restart command.
    Restart,
    /// Wait the settle delay and run the health check, if one is configured.
    HealthCheck,
    /// Replace the service directory's contents with the backup.
    RestoreBackup,
    /// Remove the service directory, which did not exist before.
    ClearService,
    /// Write the marker's previous contents back unchanged, or remove the
    /// marker where there was none.
    WritePreviousMarker,
    /// Nothing is left to do; report the outcome.
    Report(Outcome),
}

/// The result of one performed step.
#[derive(Clone, Copy, Debug, PartialEq, Eq, Structural)]
pub enum StepResult {
    Done,
    Failed,
    NothingToBackUp,
}

/// The stage that follows a stage, given the step's result. `Failed` before the
/// swap aborts; from the swap on it starts the compensation; a failure in the
/// compensation ends the transaction as a failed rollback.
pub open spec fn next_stage(stage: Stage, verify: bool, result: StepResult) -> Stage {
    let ok = !(result is Failed);
    match stage {
        Stage::Download => if !ok {
            Stage::Finished(Outcome::Aborted)
        } else if verify {
            Stage::Verify
        } else {
            Stage::Backup
        },
        Stage::Verify => if ok { Stage::Backup } else { Stage::Finished(Outcome::Aborted) },
        Stage::Backup => if ok { Stage::Extract } else { Stage::Finished(Outcome::Aborted) },
        Stage::Extract => if ok { Stage::Swap } else { Stage::Finished(Outcome::Aborted) },
        Stage::Swap => if ok { Stage::MarkVersion } else { Stage::Restore },
        Stage::MarkVersion => if ok { Stage::Restart } else { Stage::Restore },
        Stage::Restart => if ok { Stage::HealthCheck } else { Stage::Restore },
        Stage::HealthCheck => if ok { Stage::Finished(Outcome::Completed) } else { Stage::Restore },
        Stage::Restore => if ok { Stage::RestoreMarker } else { Stage::Finished(Outcome::RollbackFailed) },
        Stage::RestoreMarker => if ok {
            Stage::RestartRestored
        } else {
            Stage::Finished(Outcome::RollbackFailed)
        },
        Stage::RestartRestored => if ok {
            Stage::Finished(Outcome::RolledBack)
        } else {
            Stage::Finished(Outcome::RollbackFailed)
        },
        Stage::Finished(o) => Stage::Finished(o),
    }
}

/// Whether a backup exists after a step's result at a stage.
pub open spec fn next_backup_taken(stage: Stage, backup_taken: bool, result: StepResult) -> bool {
    if stage is Backup {
        result is Done
    } else {
        backup_taken
    }
}

/// The step that a stage asks for.
pub open spec fn step_of(stage: Stage, backup_taken: bool) -> Step {
    match stage {
        Stage::Download => Step::Download,
        Stage::Verify => Step::VerifyChecksum,
        Stage::Backup => Step::Backup,
        Stage::Extract => Step::Extract,
        Stage::Swap => Step::Swap,
        Stage::MarkVersion => Step::WriteTargetMarker,
        Stage::Restart => Step::Restart,
        Stage::HealthCheck => Step::HealthCheck,
        Stage::Restore => if backup_taken { Step::RestoreBackup } else { Step::ClearService },
        Stage::RestoreMarker => Step::WritePreviousMarker,
        Stage::RestartRestored => Step::Restart,
        Stage::Finished(o) => Step::Report(o),
    }
}

/// Whether a step writes to the service directory or its version marker.
pub open spec fn touches_service(step: Step) -> bool {
    step is Swap || step is WriteTargetMarker || step is RestoreBackup || step is ClearService
        || step is WritePreviousMarker
}

/// Whether a stage lies between the swap and the end of the health check: the
/// service directory may differ from its previous state there.
pub open spec fn service_modified(stage: Stage) -> bool {
    stage is Swap || stage is MarkVersion || stage is Restart || stage is HealthCheck
}

/// One update transaction: the version it installs, the version that the marker
/// held before (if any) and the marker's exact contents then, whether the bytes
/// are checked against a checksum, and where it stands.
pub struct Transaction {
    pub target: String,
    pub previous: Option<String>,
    pub previous_marker: Option<String>,
    pub verify: bool,
    pub stage: Stage,
    pub backup_taken: bool,
}

impl Transaction {
    /// Starts a transaction: at the download where the bytes are still to be
    /// fetched, else at the checksum check, or at the backup where no checksum is
    /// known.
    pub fn begin(
        target: String,
        previous: Option<String>,
        previous_marker: Option<String>,
        downloaded: bool,
        verify: bool,
    ) -> (r: Transaction)
        ensures
            r.target == target,
            r.previous == previous,
            r.previous_marker == previous_marker,
            r.verify == verify,
            !r.backup_taken,
            r.stage == (if !downloaded {
                Stage::Download
            } else if verify {
                Stage::Verify
            } else {
                Stage::Backup
            }),
    {
        let stage = if !downloaded {
            Stage::Download
        } else if verify {
            Stage::Verify
        } else {
            Stage::Backup
        };
        Transaction { target, previous, previous_marker, verify, stage, backup_taken: false }
    }

    /// The step to perform now.
    pub fn next_step(&self) -> (r: Step)
        ensures
            r == step_of(self.stage, self.backup_taken),
    {
        match self.stage {
            Stage::Download => Step::Download,
            Stage::Verify => Step::VerifyChecksum,
            Stage::Backup => Step::Backup,
            Stage::Extract => Step::Extract,
            Stage::Swap => Step::Swap,
            Stage::MarkVersion => Step::WriteTargetMarker,
            Stage::Restart => Step::Restart,
            Stage::HealthCheck => Step::HealthCheck,
            Stage::Restore => if self.backup_taken {
                Step::RestoreBackup
            } else {
                Step::ClearService
            },
            Stage::RestoreMarker => Step::WritePreviousMarker,
            Stage::RestartRestored => Step::Restart,
            Stage::Finished(o) => Step::Report(o),
        }
    }

    /// Moves on with the result of the step just performed.
    pub fn advance(&mut self, result: StepResult)
        ensures
            final(self).stage == next_stage(old(self).stage, old(self).verify, result),
            final(self).backup_taken == next_backup_taken(old(self).stage, old(self).backup_taken, result),
            final(self).target == old(self).target,
            final(self).previous == old(self).previous,
            final(self).previous_marker == old(self).previous_marker,
            final(self).verify == old(self).verify,
    {
        let ok = !matches!(result, StepResult::Failed);
        if matches!(self.stage, Stage::Backup) {
            self.backup_taken = matches!(result, StepResult::Done);
        }
        self.stage = match self.stage {
            Stage::Download => if !ok {
                Stage::Finished(Outcome::Aborted)
            } else if self.verify {
                Stage::Verify
            } else {
                Stage::Backup
            },
            Stage::Verify => if ok { Stage::Backup } else { Stage::Finished(Outcome::Aborted) },
            Stage::Backup => if ok { Stage::Extract } else { Stage::Finished(Outcome::Aborted) },
            Stage::Extract => if ok { Stage::Swap } else { Stage::Finished(Outcome::Aborted) },
            Stage::Swap => if ok { Stage::MarkVersion } else { Stage::Restore },
            Stage::MarkVersion => if ok { Stage::Restart } else { Stage::Restore },
            Stage::Restart => if ok { Stage::HealthCheck } else { Stage::Restore },
            Stage::HealthCheck => if ok {
                Stage::Finished(Outcome::Completed)
            } else {
                Stage::Restore
            },
            Stage::Restore => if ok {
                Stage::RestoreMarker
            } else {
                Stage::Finished(Outcome::RollbackFailed)
            },
            Stage::RestoreMarker => if ok {
                Stage::RestartRestored
            } else {
                Stage::Finished(Outcome::RollbackFailed)
            },
            Stage::RestartRestored => if ok {
                Stage::Finished(Outcome::RolledBack)
            } else {
                Stage::Finished(Outcome::RollbackFailed)
            },
            Stage::Finished(o) => Stage::Finished(o),
        };
    }

    /// The outcome, once the transaction is finished.
    pub fn outcome(&self) -> (r: Option<Outcome>)
        ensures
            r == (match self.stage {
                Stage::Finished(o) => Some(o),
                _ => None,
            }),
    {
        match self.stage {
            Stage::Finished(o) => Some(o),
            _ => None,
        }
    }
}

/// Whether an outcome counts as a successful update in the agent's report.
pub fn outcome_succeeded(o: Outcome) -> (r: bool)
    ensures
        r == (o is Completed),
{
    matches!(o, Outcome::Completed)
}

/// Whether an outcome was a completed rollback.
pub fn outcome_rolled_back(o: Outcome) -> (r: bool)
    ensures
        r == (o is RolledBack),
{
    matches!(o, Outcome::RolledBack)
}

/// A failure once the service directory has been modified starts the
/// compensation: the backup is put back (or the directory, absent before, is
/// removed), the previous version marker is written back, the service is
/// restarted, and the transaction ends as rolled back.
pub proof fn failure_after_swap_rolls_back(stage: Stage, verify: bool, backup_taken: bool)
    requires
        service_modified(stage),
    ensures
        ({
            let s1 = next_stage(stage, verify, StepResult::Failed);
            let s2 = next_stage(s1, verify, StepResult::Done);
            let s3 = next_stage(s2, verify, StepResult::Done);
            &&& s1 == Stage::Restore
            &&& step_of(s1, backup_taken) == (if backup_taken {
                Step::RestoreBackup
            } else {
                Step::ClearService
            })
            &&& step_of(s2, backup_taken) == Step::WritePreviousMarker
            &&& step_of(s3, backup_taken) == Step::Restart
            &&& next_stage(s3, verify, StepResult::Done) == Stage::Finished(Outcome::RolledBack)
        }),
{
}

/// A failure before the swap aborts, and no stage before the swap asks for a
/// step that writes to the service directory or its marker.
pub proof fn failure_before_swap_leaves_service(stage: Stage, verify: bool, backup_taken: bool)
    requires
        stage is Download || stage is Verify || stage is Backup || stage is Extract,
    ensures
        next_stage(stage, verify, StepResult::Failed) == Stage::Finished(Outcome::Aborted),
        !touches_service(step_of(stage, backup_taken)),
{
}

/// The backup is taken before the service directory is modified: the only way to
/// the swap passes the backup stage, which records whether a backup exists.
pub proof fn backup_precedes_swap(stage: Stage, verify: bool, result: StepResult)
    ensures
        next_stage(stage, verify, result) is Swap ==> stage is Extract,
        next_stage(stage, verify, result) is Extract ==> stage is Backup && !(result is Failed),
{
}

/// A finished transaction stays finished, whatever result is handed in.
pub proof fn finished_is_final(o: Outcome, verify: bool, result: StepResult)
    ensures
        next_stage(Stage::Finished(o), verify, result) == Stage::Finished(o),
{
}

/// The only way to a completed update is a passed health check.
pub proof fn completion_needs_health_check(stage: Stage, verify: bool, result: StepResult)
    requires
        !(stage is Finished),
        next_stage(stage, verify, result) == Stage::Finished(Outcome::Completed),
    ensures
        stage is HealthCheck,
        !(result is Failed),
{
}

/// The stage reached after handing in a sequence of results, one per step.
pub open spec fn run_stage(stage: Stage, verify: bool, results: Seq<StepResult>) -> Stage
    decreases results.len(),
{
    if results.len() == 0 {
        stage
    } else {
        run_stage(next_stage(stage, verify, results[0]), verify, results.drop_first())
    }
}

/// Whether any step asked for along a run writes to the service directory or its
/// marker.
pub open spec fn run_touches_service(stage: Stage, backup_taken: bool, verify: bool, results: Seq<StepResult>) -> bool
    decreases results.len(),
{
    touches_service(step_of(stage, backup_taken)) || (results.len() > 0 && run_touches_service(
        next_stage(stage, verify, results[0]),
        next_backup_taken(stage, backup_taken, results[0]),
        verify,
        results.drop_first(),
    ))
}

/// Whether a stage comes before the swap.
pub open spec fn before_swap(stage: Stage) -> bool {
    stage is Download || stage is Verify || stage is Backup || stage is Extract
}

/// Whether a stage lies at or after the swap, short of an abort.
pub open spec fn past_swap(stage: Stage) -> bool {
    match stage {
        Stage::Finished(o) => o != Outcome::Aborted,
        _ => !before_swap(stage),
    }
}

/// Once the swap is reached, no sequence of results ends the transaction as
/// aborted: it completes, is rolled back, or its rollback fails.
pub proof fn past_swap_never_aborts(stage: Stage, verify: bool, results: Seq<StepResult>)
    requires
        past_swap(stage),
    ensures
        run_stage(stage, verify, results) != Stage::Finished(Outcome::Aborted),
    decreases results.len(),
{
    if results.len() > 0 {
        past_swap_never_aborts(next_stage(stage, verify, results[0]), verify, results.drop_first());
    }
}

/// A transaction that ends aborted never asked for a step that writes to the
/// service directory or its version marker, whatever the results along the way.
pub proof fn aborted_run_leaves_service(stage: Stage, backup_taken: bool, verify: bool, results: Seq<StepResult>)
    requires
        before_swap(stage) || stage == Stage::Finished(Outcome::Aborted),
        run_stage(stage, verify, results) == Stage::Finished(Outcome::Aborted),
    ensures
        !run_touches_service(stage, backup_taken, verify, results),
    decreases results.len(),
{
    if results.len() > 0 {
        let next = next_stage(stage, verify, results[0]);
        if past_swap(next) {
            past_swap_never_aborts(next, verify, results.drop_first());
        } else {
            aborted_run_leaves_service(
                next,
                next_backup_taken(stage, backup_taken, results[0]),
                verify,
                results.drop_first(),
            );
        }
    }
}

} // verus!
