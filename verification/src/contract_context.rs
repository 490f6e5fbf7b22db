use vstd::prelude::*;
use vstd::string::*;

use crate::capability::FileSystemCapability;
use crate::check_catalog;
use crate::check_catalog::CheckSpecification;
use crate::contract_check_id::ContractCheckId;
use crate::contract_check_outcome::ContractCheckOutcome;
use crate::contract_check_outcome::OutcomeView;
use crate::contract_failure::ContractFailure;
use crate::contract_failure::FailureView;
use crate::contract_report::ContractReport;
use crate::contract_report::ReportView;
use crate::contract_run::ContractRun;
use crate::contract_run::RunView;
use crate::file_system_contract::FileSystemContract;
use crate::text::join;
use crate::text::joined;
use crate::text::texts;

verus! {

/// The character of a decimal digit.
pub open spec fn digit_char(digit: nat) -> char {
    if digit == 0 {
        '0'
    } else if digit == 1 {
        '1'
    } else if digit == 2 {
        '2'
    } else if digit == 3 {
        '3'
    } else if digit == 4 {
        '4'
    } else if digit == 5 {
        '5'
    } else if digit == 6 {
        '6'
    } else if digit == 7 {
        '7'
    } else if digit == 8 {
        '8'
    } else {
        '9'
    }
}

/// The decimal text of a number, as Rust prints an unsigned integer.
pub open spec fn decimal(number: nat) -> Seq<char>
    decreases number,
{
    if number < 10 {
        seq![digit_char(number)]
    } else {
        decimal(number / 10) + seq![digit_char(number % 10)]
    }
}

/// Returns the text of one decimal digit.
fn digit_text(digit: u64) -> (text: &'static str)
    requires
        digit < 10,
    ensures
        text@ == seq![digit_char(digit as nat)],
{
    match digit {
        0 => {
            proof {
                reveal_strlit("0");
            }
            "0"
        },
        1 => {
            proof {
                reveal_strlit("1");
            }
            "1"
        },
        2 => {
            proof {
                reveal_strlit("2");
            }
            "2"
        },
        3 => {
            proof {
                reveal_strlit("3");
            }
            "3"
        },
        4 => {
            proof {
                reveal_strlit("4");
            }
            "4"
        },
        5 => {
            proof {
                reveal_strlit("5");
            }
            "5"
        },
        6 => {
            proof {
                reveal_strlit("6");
            }
            "6"
        },
        7 => {
            proof {
                reveal_strlit("7");
            }
            "7"
        },
        8 => {
            proof {
                reveal_strlit("8");
            }
            "8"
        },
        9 => {
            proof {
                reveal_strlit("9");
            }
            "9"
        },
        _ => {
            proof {
                reveal_strlit("9");
            }
            "9"
        },
    }
}

/// Returns the decimal text of a number.
pub fn decimal_string(number: u64) -> (text: String)
    ensures
        text@ == decimal(number as nat),
    decreases number,
{
    if number < 10 {
        String::from_str(digit_text(number))
    } else {
        let mut text = decimal_string(number / 10);
        text.append(digit_text(number % 10));
        text
    }
}

/// A contract label with every `/` turned into `-`.
pub open spec fn dashed(label: Seq<char>) -> Seq<char> {
    Seq::new(label.len(), |i: int| if label[i] == '/' { '-' } else { label[i] })
}

/// Returns a contract label with every `/` turned into `-`.
pub fn dash_separators(label: &str) -> (text: String)
    ensures
        text@ == dashed(label@),
{
    let count = label.unicode_len();
    let mut text = String::new();
    let mut index: usize = 0;
    while index < count
        invariant
            count == label@.len(),
            index <= count,
            text@ == dashed(label@).take(index as int),
        decreases count - index,
    {
        let c = label.get_char(index);
        if c == '/' {
            proof {
                reveal_strlit("-");
            }
            text.append("-");
        } else {
            let piece = label.substring_char(index, index + 1);
            text.append(piece);
        }
        proof {
            assert(text@ =~= dashed(label@).take(index + 1));
        }
        index = index + 1;
    }
    proof {
        assert(dashed(label@).take(count as int) =~= dashed(label@));
    }
    text
}

/// A resource created by a contract phase that cleanup must remove.
pub struct TrackedResource {
    path: String,
    owner_check: String,
    creation_index: u64,
}

/// The abstract content of a tracked resource.
pub struct ResourceView {
    /// The provider path text.
    pub path: Seq<char>,
    /// The phase or check that first recorded the path.
    pub owner: Seq<char>,
    /// The position of the first recording among all recordings.
    pub creation_index: u64,
}

impl View for TrackedResource {
    type V = ResourceView;

    closed spec fn view(&self) -> ResourceView {
        ResourceView { path: self.path@, owner: self.owner_check@, creation_index: self.creation_index }
    }
}

impl TrackedResource {
    /// Returns the provider path text.
    pub fn path(&self) -> (path: &str)
        ensures
            path@ == self@.path,
    {
        self.path.as_str()
    }

    /// Returns the phase or check that first recorded the path.
    pub fn owner_check(&self) -> (owner: &str)
        ensures
            owner@ == self@.owner,
    {
        self.owner_check.as_str()
    }

    /// Returns the position of the first recording.
    pub fn creation_index(&self) -> (index: u64)
        ensures
            index == self@.creation_index,
    {
        self.creation_index
    }
}

/// What one cleanup step observed for the resource being cleaned.
#[derive(Clone, Copy, Debug, PartialEq, Eq, Structural)]
pub enum CleanupEvent {
    /// Inspection reported that the resource does not exist.
    StatMissing,
    /// Inspection failed otherwise.
    StatFailed,
    /// Inspection panicked.
    StatPanicked,
    /// Inspection found the resource.
    StatFound {
        /// Whether the resource is directory-like.
        directory: bool,
    },
    /// Deletion reported that the resource does not exist.
    DeleteMissing,
    /// Deletion failed otherwise.
    DeleteFailed,
    /// Deletion panicked.
    DeletePanicked,
    /// Deletion reported success.
    DeleteSucceeded,
    /// Re-inspection after deletion reported that the resource is gone.
    VerifyMissing,
    /// Re-inspection after deletion found the resource.
    VerifyStillPresent,
    /// Re-inspection after deletion failed otherwise.
    VerifyFailed,
    /// Re-inspection after deletion panicked.
    VerifyPanicked,
}

/// The facade operation a retained cleanup failure belongs to.
#[derive(Clone, Copy, Debug, PartialEq, Eq, Structural)]
pub enum CleanupOperation {
    /// Inspecting the resource.
    Stat,
    /// Deleting the resource or confirming its deletion.
    Delete,
}

/// Why a cleanup step retained the resource.
#[derive(Clone, Copy, Debug, PartialEq, Eq, Structural)]
pub enum CleanupCause {
    /// The facade operation failed.
    FacadeFailed,
    /// The provider panicked.
    ProviderPanicked,
    /// Deletion reported success but the resource still exists.
    StillPresent,
    /// The deletion's outcome could not be confirmed.
    Unverifiable,
}

/// What the cleanup driver does next for the resource being cleaned.
#[derive(Clone, Copy, Debug, PartialEq, Eq, Structural)]
pub enum CleanupAction {
    /// The resource is gone: drop it from the ledger.
    Release,
    /// Delete the directory-like resource.
    DeleteDirectory {
        /// Whether to delete recursively.
        recursive: bool,
    },
    /// Delete the file-like resource.
    DeleteFile,
    /// Inspect the resource again to confirm the deletion.
    Verify,
    /// Record a cleanup failure and keep the resource for a later retry.
    Retain {
        /// The operation that failed.
        operation: CleanupOperation,
        /// Why the resource was kept.
        cause: CleanupCause,
    },
}

impl CleanupOperation {
    /// The operation's name in cleanup diagnostics.
    pub open spec fn name(self) -> Seq<char> {
        match self {
            CleanupOperation::Stat => "stat"@,
            CleanupOperation::Delete => "delete"@,
        }
    }

    /// Returns the operation's name in cleanup diagnostics.
    pub fn as_str(self) -> (name: &'static str)
        ensures
            name@ == self.name(),
    {
        match self {
            CleanupOperation::Stat => "stat",
            CleanupOperation::Delete => "delete",
        }
    }
}

impl CleanupCause {
    /// The cause's text in cleanup diagnostics.
    pub open spec fn text(self) -> Seq<char> {
        match self {
            CleanupCause::FacadeFailed => "facade cleanup operation failed"@,
            CleanupCause::ProviderPanicked => "provider panicked during cleanup"@,
            CleanupCause::StillPresent => "delete reported success but the resource still exists"@,
            CleanupCause::Unverifiable => "delete outcome could not be verified"@,
        }
    }

    /// Returns the cause's text in cleanup diagnostics.
    pub fn message(self) -> (text: &'static str)
        ensures
            text@ == self.text(),
    {
        match self {
            CleanupCause::FacadeFailed => "facade cleanup operation failed",
            CleanupCause::ProviderPanicked => "provider panicked during cleanup",
            CleanupCause::StillPresent => "delete reported success but the resource still exists",
            CleanupCause::Unverifiable => "delete outcome could not be verified",
        }
    }
}

/// The next cleanup step after an observation. Absence, whether reported
/// by inspection, deletion or confirmation, releases the resource; a found
/// resource is deleted (a directory recursively when the provider supports
/// recursive deletion); a successful deletion is confirmed; every failure
/// or panic keeps the resource.
pub open spec fn cleanup_action(event: CleanupEvent, recursive_delete: bool) -> CleanupAction {
    match event {
        CleanupEvent::StatMissing => CleanupAction::Release,
        CleanupEvent::StatFailed => CleanupAction::Retain {
            operation: CleanupOperation::Stat,
            cause: CleanupCause::FacadeFailed,
        },
        CleanupEvent::StatPanicked => CleanupAction::Retain {
            operation: CleanupOperation::Stat,
            cause: CleanupCause::ProviderPanicked,
        },
        CleanupEvent::StatFound { directory } => if directory {
            CleanupAction::DeleteDirectory { recursive: recursive_delete }
        } else {
            CleanupAction::DeleteFile
        },
        CleanupEvent::DeleteMissing => CleanupAction::Release,
        CleanupEvent::DeleteFailed => CleanupAction::Retain {
            operation: CleanupOperation::Delete,
            cause: CleanupCause::FacadeFailed,
        },
        CleanupEvent::DeletePanicked => CleanupAction::Retain {
            operation: CleanupOperation::Delete,
            cause: CleanupCause::ProviderPanicked,
        },
        CleanupEvent::DeleteSucceeded => CleanupAction::Verify,
        CleanupEvent::VerifyMissing => CleanupAction::Release,
        CleanupEvent::VerifyStillPresent => CleanupAction::Retain {
            operation: CleanupOperation::Delete,
            cause: CleanupCause::StillPresent,
        },
        CleanupEvent::VerifyFailed => CleanupAction::Retain {
            operation: CleanupOperation::Delete,
            cause: CleanupCause::Unverifiable,
        },
        CleanupEvent::VerifyPanicked => CleanupAction::Retain {
            operation: CleanupOperation::Delete,
            cause: CleanupCause::ProviderPanicked,
        },
    }
}

/// How a cleanup diagnostic shows the failure's optional path, given the
/// path's own `Debug` rendering: the form `{:?}` gives an `Option`.
pub open spec fn optional_debug(path_debug: Option<Seq<char>>) -> Seq<char> {
    match path_debug {
        Some(inner) => "Some("@ + inner + ")"@,
        None => "None"@,
    }
}

/// The diagnostic of a retained cleanup failure: the operation, the owning
/// check, the optional path in its `Debug` form, and the cause's text.
pub open spec fn cleanup_text(
    operation: CleanupOperation,
    owner: Seq<char>,
    path_debug: Option<Seq<char>>,
    cause: CleanupCause,
) -> Seq<char> {
    "[fs-testkit:cleanup/"@ + operation.name() + "] owner="@ + owner + " path="@ + optional_debug(path_debug) + ": "@
        + cause.text()
}

/// Renders the diagnostic of a retained cleanup failure. `path_debug` is the
/// `Debug` rendering of the facade path the failure concerns, or `None` when
/// the failure concerns no path.
pub fn cleanup_message(operation: CleanupOperation, owner: &str, path_debug: Option<&str>, cause: CleanupCause) -> (text:
    String)
    ensures
        text@ == cleanup_text(
            operation,
            owner@,
            match path_debug {
                Some(inner) => Some(inner@),
                None => None,
            },
            cause,
        ),
{
    let mut text = String::from_str("[fs-testkit:cleanup/");
    text.append(operation.as_str());
    text.append("] owner=");
    text.append(owner);
    text.append(" path=");
    match path_debug {
        Some(inner) => {
            text.append("Some(");
            text.append(inner);
            text.append(")");
        },
        None => text.append("None"),
    }
    text.append(": ");
    text.append(cause.message());
    text
}

/// How fixture teardown ended.
pub enum TeardownResult {
    /// Teardown confirmed its cleanup, or did not run.
    Completed,
    /// Teardown failed with this diagnostic.
    Failed(String),
    /// Teardown panicked.
    Panicked,
}

/// The diagnostic line of a teardown that did not complete.
pub open spec fn teardown_line(result: TeardownResult) -> Option<Seq<char>> {
    match result {
        TeardownResult::Completed => None,
        TeardownResult::Failed(error) => Some("[fs-testkit:cleanup/teardown] "@ + error@),
        TeardownResult::Panicked => Some("[fs-testkit:cleanup/teardown] fixture teardown panicked"@),
    }
}

/// The summary of a cleanup pass: every retained cleanup failure's line,
/// then the teardown's line, joined by `"; "`; `None` when there is none.
pub open spec fn cleanup_summary_text(lines: Seq<Seq<char>>, teardown: Option<Seq<char>>) -> Option<Seq<char>> {
    let all = match teardown {
        Some(line) => lines.push(line),
        None => lines,
    };
    if all.len() == 0 {
        None
    } else {
        Some(joined(all, "; "@))
    }
}

/// Summarises a cleanup pass from its failure lines and how teardown ended;
/// `None` means cleanup and teardown both succeeded.
pub fn cleanup_summary(lines: Vec<String>, teardown: &TeardownResult) -> (summary: Option<String>)
    ensures
        match summary {
            Some(text) => cleanup_summary_text(texts(lines@), teardown_line(*teardown)) == Some(text@),
            None => cleanup_summary_text(texts(lines@), teardown_line(*teardown)) is None,
        },
{
    let ghost given = lines@;
    let mut all = lines;
    match teardown {
        TeardownResult::Completed => {},
        TeardownResult::Failed(error) => {
            let mut line = String::from_str("[fs-testkit:cleanup/teardown] ");
            line.append(error.as_str());
            all.push(line);
            proof {
                assert(texts(all@) =~= texts(given).push(line@));
            }
        },
        TeardownResult::Panicked => {
            let line = String::from_str("[fs-testkit:cleanup/teardown] fixture teardown panicked");
            all.push(line);
            proof {
                assert(texts(all@) =~= texts(given).push(line@));
            }
        },
    }
    if all.len() == 0 {
        None
    } else {
        Some(join(&all, "; "))
    }
}

/// Registers every entry in order.
pub open spec fn registered_all(report: ReportView, entries: Seq<CheckSpecification>) -> ReportView
    decreases entries.len(),
{
    if entries.len() == 0 {
        report
    } else {
        registered_all(report, entries.drop_last()).after_register(entries.last().id, entries.last().capability)
    }
}

/// The abstract content of a suite context.
pub struct ContextView {
    /// Whether the provider can delete resources.
    pub delete_supported: bool,
    /// Whether the provider can delete trees recursively.
    pub recursive_delete_supported: bool,
    /// The unique-name counter.
    pub name_counter: u64,
    /// Resources awaiting cleanup, in creation order.
    pub resources: Seq<ResourceView>,
    /// The label of the phase currently producing diagnostics.
    pub current_contract: Seq<char>,
    /// The session's evidence.
    pub run: RunView,
    /// The last creation index handed out.
    pub resource_index: u64,
}

/// Whether some tracked resource has `path`.
pub open spec fn tracks(resources: Seq<ResourceView>, path: Seq<char>) -> bool {
    exists|i: int| 0 <= i < resources.len() && (#[trigger] resources[i]).path == path
}

/// Adds one, saturating at the largest value.
pub open spec fn saturating_next(value: u64) -> u64 {
    if value == u64::MAX {
        u64::MAX
    } else {
        (value + 1) as u64
    }
}

/// The suite-unique name of `relative` in the current phase.
pub open spec fn relative_in(context: ContextView, relative: Seq<char>) -> Seq<char> {
    dashed(context.current_contract) + "-"@ + decimal(context.name_counter as nat) + "-"@ + relative
}

/// The context after recording `path` for the current phase: a path that is
/// already tracked keeps its first owner.
pub open spec fn with_created(context: ContextView, path: Seq<char>) -> ContextView {
    if tracks(context.resources, path) {
        context
    } else {
        ContextView {
            resources: context.resources.push(
                ResourceView {
                    path,
                    owner: context.current_contract,
                    creation_index: saturating_next(context.resource_index),
                },
            ),
            resource_index: saturating_next(context.resource_index),
            ..context
        }
    }
}

/// The context after recording `outcome` for check `id`.
pub open spec fn with_recorded(
    context: ContextView,
    id: ContractCheckId,
    capability: Option<FileSystemCapability>,
    outcome: OutcomeView,
) -> ContextView {
    ContextView { run: RunView { report: context.run.report.after_record(id, capability, outcome), ..context.run }, ..context }
}

/// The context after starting the phase named `contract`.
pub open spec fn begun(context: ContextView, contract: Seq<char>) -> ContextView {
    ContextView { current_contract: contract, name_counter: saturating_next(context.name_counter), ..context }
}

/// Holds the capability snapshot, report, and cleanup ledger for one run.
pub struct ContractContext {
    delete_supported: bool,
    recursive_delete_supported: bool,
    name_counter: u64,
    resources: Vec<TrackedResource>,
    current_contract: String,
    run: ContractRun,
    resource_index: u64,
}

impl View for ContractContext {
    type V = ContextView;

    closed spec fn view(&self) -> ContextView {
        ContextView {
            delete_supported: self.delete_supported,
            recursive_delete_supported: self.recursive_delete_supported,
            name_counter: self.name_counter,
            resources: self.resources@.map_values(|resource: TrackedResource| resource@),
            current_contract: self.current_contract@,
            run: self.run@,
            resource_index: self.resource_index,
        }
    }
}

impl ContractContext {
    /// Creates context from the provider's deletion capabilities.
    pub fn new(delete_supported: bool, recursive_delete_supported: bool) -> (context: ContractContext)
        ensures
            context@.delete_supported == delete_supported,
            context@.recursive_delete_supported == recursive_delete_supported,
            context@.name_counter == 0,
            context@.resources == Seq::<ResourceView>::empty(),
            context@.current_contract == "initialization"@,
            context@.run == ContractRun::new_view(),
            context@.resource_index == 0,
    {
        let context = ContractContext {
            delete_supported,
            recursive_delete_supported,
            name_counter: 0,
            resources: Vec::new(),
            current_contract: String::from_str("initialization"),
            run: ContractRun::new(),
            resource_index: 0,
        };
        proof {
            assert(context@.resources =~= Seq::<ResourceView>::empty());
        }
        context
    }

    /// Starts a named contract assertion and advances the unique-name
    /// counter.
    pub fn begin(&mut self, contract: &str)
        ensures
            final(self)@ == begun(old(self)@, contract@),
    {
        self.current_contract = String::from_str(contract);
        self.name_counter = self.name_counter.saturating_add(1);
    }

    /// Returns a suite-unique relative name for the current contract phase.
    pub fn relative_name(&self, relative: &str) -> (name: String)
        ensures
            name@ == relative_in(self@, relative@),
    {
        let mut name = dash_separators(self.current_contract.as_str());
        name.append("-");
        let counter = decimal_string(self.name_counter);
        name.append(counter.as_str());
        name.append("-");
        name.append(relative);
        name
    }

    /// Returns the contract currently producing diagnostics.
    pub fn current_contract(&self) -> (contract: &str)
        ensures
            contract@ == self@.current_contract,
    {
        self.current_contract.as_str()
    }

    /// Returns the session's evidence.
    pub fn run(&self) -> (run: &ContractRun)
        ensures
            run@ == self@.run,
    {
        &self.run
    }

    /// Returns the report accumulated by the suite.
    pub fn report(&self) -> (report: &ContractReport)
        ensures
            report@ == self@.run.report,
    {
        self.run.report()
    }

    /// Returns whether some tracked resource has `path`.
    fn is_tracked(&self, path: &String) -> (found: bool)
        ensures
            found == tracks(self@.resources, path@),
    {
        let mut index: usize = 0;
        while index < self.resources.len()
            invariant
                index <= self.resources.len(),
                self@.resources.len() == self.resources.len(),
                forall|j: int| 0 <= j < index ==> (#[trigger] self@.resources[j]).path != path@,
            decreases self.resources.len() - index,
        {
            if self.resources[index].path == *path {
                proof {
                    assert(self@.resources[index as int].path == path@);
                }
                return true;
            }
            index = index + 1;
        }
        false
    }

    /// Records a path with an explicit owner, retaining only the first
    /// owner of a path.
    pub fn record_resource(&mut self, path: String, owner_check: &str)
        ensures
            tracks(old(self)@.resources, path@) ==> final(self)@ == old(self)@,
            !tracks(old(self)@.resources, path@) ==> final(self)@ == (ContextView {
                resources: old(self)@.resources.push(
                    ResourceView {
                        path: path@,
                        owner: owner_check@,
                        creation_index: saturating_next(old(self)@.resource_index),
                    },
                ),
                resource_index: saturating_next(old(self)@.resource_index),
                ..old(self)@
            }),
    {
        if self.is_tracked(&path) {
            return;
        }
        self.resource_index = self.resource_index.saturating_add(1);
        let ghost added = ResourceView {
            path: path@,
            owner: owner_check@,
            creation_index: self.resource_index,
        };
        self.resources.push(
            TrackedResource {
                path,
                owner_check: String::from_str(owner_check),
                creation_index: self.resource_index,
            },
        );
        proof {
            assert(final(self)@.resources =~= old(self)@.resources.push(added));
        }
    }

    /// Records a path with the current phase as its owner.
    pub fn record_created(&mut self, path: String)
        ensures
            final(self)@ == with_created(old(self)@, path@),
    {
        let owner = self.current_contract.clone();
        self.record_resource(path, owner.as_str());
    }

    /// Returns the number of resources awaiting cleanup.
    pub fn resource_count(&self) -> (count: usize)
        ensures
            count == self@.resources.len(),
    {
        self.resources.len()
    }

    /// Returns one resource awaiting cleanup.
    pub fn resource(&self, index: usize) -> (resource: &TrackedResource)
        requires
            index < self@.resources.len(),
        ensures
            resource@ == self@.resources[index as int],
    {
        &self.resources[index]
    }

    /// Returns whether cleanup runs at all: only a provider that can delete
    /// is cleaned.
    pub fn cleanup_enabled(&self) -> (enabled: bool)
        ensures
            enabled == self@.delete_supported,
    {
        self.delete_supported
    }

    /// Decides the next cleanup step after an observation.
    pub fn next_cleanup_action(&self, event: CleanupEvent) -> (action: CleanupAction)
        ensures
            action == cleanup_action(event, self@.recursive_delete_supported),
    {
        match event {
            CleanupEvent::StatMissing => CleanupAction::Release,
            CleanupEvent::StatFailed => CleanupAction::Retain {
                operation: CleanupOperation::Stat,
                cause: CleanupCause::FacadeFailed,
            },
            CleanupEvent::StatPanicked => CleanupAction::Retain {
                operation: CleanupOperation::Stat,
                cause: CleanupCause::ProviderPanicked,
            },
            CleanupEvent::StatFound { directory } => if directory {
                CleanupAction::DeleteDirectory { recursive: self.recursive_delete_supported }
            } else {
                CleanupAction::DeleteFile
            },
            CleanupEvent::DeleteMissing => CleanupAction::Release,
            CleanupEvent::DeleteFailed => CleanupAction::Retain {
                operation: CleanupOperation::Delete,
                cause: CleanupCause::FacadeFailed,
            },
            CleanupEvent::DeletePanicked => CleanupAction::Retain {
                operation: CleanupOperation::Delete,
                cause: CleanupCause::ProviderPanicked,
            },
            CleanupEvent::DeleteSucceeded => CleanupAction::Verify,
            CleanupEvent::VerifyMissing => CleanupAction::Release,
            CleanupEvent::VerifyStillPresent => CleanupAction::Retain {
                operation: CleanupOperation::Delete,
                cause: CleanupCause::StillPresent,
            },
            CleanupEvent::VerifyFailed => CleanupAction::Retain {
                operation: CleanupOperation::Delete,
                cause: CleanupCause::Unverifiable,
            },
            CleanupEvent::VerifyPanicked => CleanupAction::Retain {
                operation: CleanupOperation::Delete,
                cause: CleanupCause::ProviderPanicked,
            },
        }
    }

    /// Drops a resource whose absence was observed; the others keep their
    /// creation order.
    pub fn release_resource(&mut self, index: usize)
        requires
            index < old(self)@.resources.len(),
        ensures
            final(self)@ == (ContextView { resources: old(self)@.resources.remove(index as int), ..old(self)@ }),
    {
        let _ = self.resources.remove(index);
        proof {
            assert(final(self)@.resources =~= old(self)@.resources.remove(index as int));
        }
    }

    /// Saves an observed cleanup failure; the resource stays in the ledger
    /// for a later retry.
    pub fn record_cleanup_failure(&mut self, failure: ContractFailure)
        ensures
            final(self)@ == (ContextView {
                run: RunView {
                    cleanup: crate::cleanup_report::CleanupView {
                        failures: old(self)@.run.cleanup.failures.push(failure@),
                        ..old(self)@.run.cleanup
                    },
                    ..old(self)@.run
                },
                ..old(self)@
            }),
            final(self)@.run.cleanup == crate::cleanup_report::cleanup_after(
                old(self)@.run.cleanup,
                crate::cleanup_report::CleanupStep::Record(failure@),
            ),
    {
        self.run.record_cleanup_failure(failure);
    }

    /// Counts a started cleanup attempt.
    pub fn start_cleanup(&mut self)
        ensures
            final(self)@.run.cleanup.attempts == saturating_usize(old(self)@.run.cleanup.attempts),
            final(self)@.run.cleanup.completed == false,
            final(self)@.run.cleanup.failures == old(self)@.run.cleanup.failures,
            final(self)@ == (ContextView { run: RunView { cleanup: final(self)@.run.cleanup, ..old(self)@.run }, ..old(self)@ }),
            final(self)@.run.cleanup == crate::cleanup_report::cleanup_after(
                old(self)@.run.cleanup,
                crate::cleanup_report::CleanupStep::Start,
            ),
    {
        self.run.start_cleanup();
    }

    /// Marks the latest cleanup attempt as returned.
    pub fn finish_cleanup(&mut self)
        ensures
            final(self)@ == (ContextView {
                run: RunView {
                    cleanup: crate::cleanup_report::CleanupView { completed: true, ..old(self)@.run.cleanup },
                    ..old(self)@.run
                },
                ..old(self)@
            }),
            final(self)@.run.cleanup == crate::cleanup_report::cleanup_after(
                old(self)@.run.cleanup,
                crate::cleanup_report::CleanupStep::Finish,
            ),
    {
        self.run.finish_cleanup();
    }

    /// Records one stable check outcome after its phase has executed.
    pub fn record_check(
        &mut self,
        id: ContractCheckId,
        capability: Option<FileSystemCapability>,
        outcome: ContractCheckOutcome,
    )
        ensures
            final(self)@ == with_recorded(old(self)@, id, capability, outcome@),
    {
        self.run.record_check(id, capability, outcome);
    }

    /// Registers one selected check before it executes.
    pub fn register_check(&mut self, id: ContractCheckId, capability: Option<FileSystemCapability>)
        ensures
            final(self)@ == (ContextView {
                run: RunView { report: old(self)@.run.report.after_register(id, capability), ..old(self)@.run },
                ..old(self)@
            }),
    {
        self.run.register_check(id, capability);
    }

    /// Registers every check the catalog lists for a phase and driver
    /// before the phase executes.
    pub fn prepare_phase(&mut self, contract: FileSystemContract, asynchronous: bool)
        ensures
            final(self)@ == (ContextView {
                run: RunView {
                    report: registered_all(
                        old(self)@.run.report,
                        check_catalog::spec_for_contract(contract, asynchronous),
                    ),
                    ..old(self)@.run
                },
                ..old(self)@
            }),
    {
        let entries = check_catalog::for_contract(contract, asynchronous);
        let ghost start = self@;
        let mut index: usize = 0;
        while index < entries.len()
            invariant
                index <= entries.len(),
                self@ == (ContextView {
                    run: RunView {
                        report: registered_all(start.run.report, entries@.take(index as int)),
                        ..start.run
                    },
                    ..start
                }),
            decreases entries.len() - index,
        {
            let entry = entries[index];
            proof {
                assert(entries@.take(index + 1).drop_last() =~= entries@.take(index as int));
            }
            self.register_check(entry.id, entry.capability);
            index = index + 1;
        }
        proof {
            assert(entries@.take(entries.len() as int) =~= entries@);
        }
    }

    /// Records a failed check without erasing the original typed cause.
    pub fn fail(&mut self, failure: ContractFailure)
        ensures
            final(self)@ == (ContextView {
                run: RunView {
                    report: match failure@.check {
                        Some(id) => old(self)@.run.report.after_record(
                            id,
                            check_catalog::spec_capability(id),
                            crate::contract_check_outcome::OutcomeView::Failed { reason: failure@.message },
                        ),
                        None => old(self)@.run.report,
                    },
                    failures: old(self)@.run.failures.push(failure@),
                    ..old(self)@.run
                },
                ..old(self)@
            }),
    {
        self.run.fail(failure);
    }

    /// Starts the session once; a second start is retained as a failure.
    pub fn begin_session(&mut self) -> (fresh: bool)
        ensures
            fresh == !old(self)@.run.started,
            final(self)@ == (ContextView { run: final(self)@.run, ..old(self)@ }),
            fresh ==> final(self)@.run == (RunView { started: true, ..old(self)@.run }),
            !fresh ==> final(self)@.run == (RunView {
                failures: old(self)@.run.failures.push(
                    FailureView {
                        check: None,
                        message: "session already started; create a fresh fixture for another run"@,
                    },
                ),
                ..old(self)@.run
            }),
    {
        self.run.begin_session()
    }

    /// Appends an execution failure without attributing it to a check.
    pub fn push_failure(&mut self, failure: ContractFailure)
        ensures
            final(self)@ == (ContextView {
                run: RunView { failures: old(self)@.run.failures.push(failure@), ..old(self)@.run },
                ..old(self)@
            }),
    {
        self.run.push_failure(failure);
    }

    /// Marks execution and its cleanup attempt as returned.
    pub fn mark_completed(&mut self)
        ensures
            final(self)@ == (ContextView { run: RunView { completed: true, ..old(self)@.run }, ..old(self)@ }),
    {
        self.run.mark_completed();
    }
}

/// Adds one to a count, saturating at the largest value.
pub open spec fn saturating_usize(value: usize) -> usize {
    if value == usize::MAX {
        usize::MAX
    } else {
        (value + 1) as usize
    }
}

/// Cleanup drops a resource only on evidence of its absence: an
/// observation releases the resource exactly when it reported a missing
/// path, and every failure or panic keeps the resource with a diagnostic.
pub proof fn law_release_only_on_absence(event: CleanupEvent, recursive_delete: bool)
    ensures
        (cleanup_action(event, recursive_delete) is Release) == (event is StatMissing || event is DeleteMissing
            || event is VerifyMissing),
        (event is StatFailed || event is StatPanicked || event is DeleteFailed || event is DeletePanicked
            || event is VerifyStillPresent || event is VerifyFailed || event is VerifyPanicked)
            ==> cleanup_action(event, recursive_delete) is Retain,
{
}

/// A successful deletion is never taken at its word: it is confirmed by a
/// second inspection, and a resource that is still present is kept.
pub proof fn law_deletion_is_confirmed(recursive_delete: bool)
    ensures
        cleanup_action(CleanupEvent::DeleteSucceeded, recursive_delete) == CleanupAction::Verify,
        cleanup_action(CleanupEvent::VerifyStillPresent, recursive_delete) is Retain,
{
}

/// Releasing one resource keeps every other resource in its creation
/// order.
pub proof fn law_release_keeps_order(resources: Seq<ResourceView>, index: int, i: int, j: int)
    requires
        0 <= index < resources.len(),
        0 <= i < j < resources.len() - 1,
    ensures
        resources.remove(index)[i] == resources[if i < index { i } else { i + 1 }],
        resources.remove(index)[j] == resources[if j < index { j } else { j + 1 }],
        (if i < index { i } else { i + 1 }) < (if j < index { j } else { j + 1 }),
{
}

} // verus!
