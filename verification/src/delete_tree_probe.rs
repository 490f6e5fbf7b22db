//! Recursive deletion evidence for the tree deletion check, as a step
//! machine: a tree of two directories and two files, prepared and observed
//! out of band, must be gone entirely after one recursive deletion of its
//! root.
use vstd::prelude::*;
use vstd::string::StringSliceAdditionalSpecFns;

use crate::capability::FileSystemCapability;
use crate::contract_check_id::ContractCheckId;
use crate::contract_check_outcome::ContractCheckOutcome;
use crate::contract_check_outcome::OutcomeView;
use crate::contract_context::ContextView;
use crate::contract_context::ContractContext;
use crate::contract_context::begun;
use crate::contract_context::relative_in;
use crate::contract_context::with_created;
use crate::contract_context::with_recorded;
use crate::fs_facts::ErrorFacts;
use crate::fs_facts::ErrorFactsView;
use crate::fs_facts::ErrorKind;
use crate::fs_facts::OperationKind;
use crate::fs_facts::Presence;
use crate::fs_facts::SeedOutcome;
use crate::fs_facts::SeedView;
use crate::fs_facts::seed_view;
use crate::fs_facts::text_is;
use crate::fs_facts::text_of;

verus! {

/// The number of entries in the prepared tree.
pub const TREE_ENTRIES: usize = 4;

/// The next thing the driver does for the tree deletion check.
#[derive(Debug, PartialEq, Eq)]
pub enum TreeRequest {
    /// Resolve this fixture-relative name to a provider path.
    ResolvePath {
        /// The fixture-relative name.
        name: String,
    },
    /// Ask the fixture to create an empty directory at this name.
    SeedDirectory {
        /// The fixture-relative name.
        name: String,
    },
    /// Ask the fixture to seed a file at this name holding `bytes`.
    SeedFile {
        /// The fixture-relative name.
        name: String,
        /// The bytes to seed.
        bytes: &'static [u8],
    },
    /// Ask the fixture whether `path` exists.
    Exists {
        /// The path.
        path: String,
    },
    /// Delete the directory at `path` recursively through the facade.
    DeleteTree {
        /// The path.
        path: String,
    },
    /// The check was recorded.
    Finish,
    /// The check failed with `message`.
    Fail {
        /// The diagnostic.
        message: &'static str,
        /// Whether the error just answered is attached as the source.
        with_error: bool,
    },
}

/// The abstract form of a tree deletion request.
pub enum TreeRequestView {
    /// Resolve a name.
    ResolvePath { name: Seq<char> },
    /// Create a directory.
    SeedDirectory { name: Seq<char> },
    /// Seed a file.
    SeedFile { name: Seq<char>, bytes: Seq<u8> },
    /// Observe existence.
    Exists { path: Seq<char> },
    /// Delete recursively.
    DeleteTree { path: Seq<char> },
    /// The check was recorded.
    Finish,
    /// The check failed.
    Fail { message: Seq<char>, with_error: bool },
}

impl View for TreeRequest {
    type V = TreeRequestView;

    open spec fn view(&self) -> TreeRequestView {
        match self {
            TreeRequest::ResolvePath { name } => TreeRequestView::ResolvePath { name: name@ },
            TreeRequest::SeedDirectory { name } => TreeRequestView::SeedDirectory { name: name@ },
            TreeRequest::SeedFile { name, bytes } => TreeRequestView::SeedFile { name: name@, bytes: bytes@ },
            TreeRequest::Exists { path } => TreeRequestView::Exists { path: path@ },
            TreeRequest::DeleteTree { path } => TreeRequestView::DeleteTree { path: path@ },
            TreeRequest::Finish => TreeRequestView::Finish,
            TreeRequest::Fail { message, with_error } => TreeRequestView::Fail {
                message: message@,
                with_error: *with_error,
            },
        }
    }
}

/// The answer to the pending tree deletion request.
pub enum TreeEvent {
    /// The resolved path, or `None` when the fixture could not map it.
    Resolved(Option<String>),
    /// The fixture's preparation of an entry answered.
    Seeded(SeedOutcome),
    /// An out-of-band existence observation answered.
    Observed(Presence),
    /// The recursive deletion answered: whether it reported the tree
    /// already missing, or its error.
    Deleted(Result<bool, ErrorFacts>),
}

/// The abstract form of a tree deletion answer.
pub enum TreeEventView {
    /// A resolved path.
    Resolved(Option<Seq<char>>),
    /// A preparation answer.
    Seeded(SeedView),
    /// An existence observation.
    Observed(Presence),
    /// A deletion answer.
    Deleted(Result<bool, ErrorFactsView>),
}

impl View for TreeEvent {
    type V = TreeEventView;

    open spec fn view(&self) -> TreeEventView {
        match self {
            TreeEvent::Resolved(path) => TreeEventView::Resolved(text_of(*path)),
            TreeEvent::Seeded(outcome) => TreeEventView::Seeded(seed_view(*outcome)),
            TreeEvent::Observed(presence) => TreeEventView::Observed(*presence),
            TreeEvent::Deleted(Ok(missing)) => TreeEventView::Deleted(Ok(*missing)),
            TreeEvent::Deleted(Err(error)) => TreeEventView::Deleted(Err(error@)),
        }
    }
}

/// The request the tree deletion check waits on.
#[derive(Clone, Copy, Debug, PartialEq, Eq, Structural)]
pub enum TreeStage {
    /// The root of a deletion that must be rejected is being resolved.
    ResolveRejected,
    /// The deletion that must be rejected runs.
    Rejected,
    /// The fixture prepares the next entry.
    Seed,
    /// Each entry is observed before the deletion.
    Before,
    /// The root is deleted recursively.
    Delete,
    /// Each entry is observed after the deletion.
    After,
    /// The check has finished.
    Finished,
}

/// The abstract state of the tree deletion check.
pub struct TreeView {
    /// The provider identity errors must report.
    pub provider: Seq<char>,
    /// The fixture-relative name of the root.
    pub root_name: Seq<char>,
    /// The root of the rejected deletion, once known.
    pub rejected: Seq<char>,
    /// The prepared entries, root first.
    pub paths: Seq<Seq<char>>,
    /// The entry observed next.
    pub index: nat,
    /// The stage.
    pub stage: TreeStage,
}

/// Drives the tree deletion check.
pub struct DeleteTreeProbe {
    provider: String,
    root_name: String,
    rejected: String,
    paths: Vec<String>,
    index: usize,
    stage: TreeStage,
}

impl View for DeleteTreeProbe {
    type V = TreeView;

    closed spec fn view(&self) -> TreeView {
        TreeView {
            provider: self.provider@,
            root_name: self.root_name@,
            rejected: self.rejected@,
            paths: self.paths@.map_values(|path: String| path@),
            index: self.index as nat,
            stage: self.stage,
        }
    }
}

/// The fixture-relative names of the tree: the root, a nested directory,
/// a child file of the root, and a child file of the nested directory.
pub open spec fn tree_names(root: Seq<char>) -> Seq<Seq<char>> {
    seq![root, root + "/nested"@, root + "/child"@, root + "/nested/child"@]
}

/// The bytes each child file holds.
pub open spec fn child_bytes() -> Seq<u8> {
    "child".spec_bytes()
}

/// The preparation of the entry at `index`: the first two are directories,
/// the others files.
pub open spec fn seed_request(root: Seq<char>, index: int) -> TreeRequestView {
    if index < 2 {
        TreeRequestView::SeedDirectory { name: tree_names(root)[index] }
    } else {
        TreeRequestView::SeedFile { name: tree_names(root)[index], bytes: child_bytes() }
    }
}

/// The capability the tree deletion check is recorded under.
pub open spec fn tree_capability() -> Option<FileSystemCapability> {
    Some(FileSystemCapability::RecursiveDelete)
}

/// The start of the tree deletion check over the suite context: the check's
/// phase begins; without recursive deletion the root of a deletion that
/// must be rejected is resolved, and otherwise the root directory is
/// prepared.
pub open spec fn tree_start(recursive: bool, provider: Seq<char>, ctx: ContextView) -> (
    TreeView,
    ContextView,
    TreeRequestView,
) {
    let ctx = begun(ctx, ContractCheckId::DeleteTree.stable_name());
    let root = relative_in(ctx, "recursive-delete-root"@);
    let p = TreeView {
        provider,
        root_name: root,
        rejected: Seq::empty(),
        paths: Seq::empty(),
        index: 0,
        stage: TreeStage::Finished,
    };
    if !recursive {
        (TreeView { stage: TreeStage::ResolveRejected, ..p }, ctx, TreeRequestView::ResolvePath { name: root })
    } else {
        (TreeView { stage: TreeStage::Seed, ..p }, ctx, seed_request(root, 0))
    }
}

/// The kind of answer a stage waits for.
pub open spec fn tree_answers(stage: TreeStage, event: TreeEventView) -> bool {
    match stage {
        TreeStage::ResolveRejected => event is Resolved,
        TreeStage::Rejected | TreeStage::Delete => event is Deleted,
        TreeStage::Seed => event is Seeded,
        TreeStage::Before | TreeStage::After => event is Observed,
        TreeStage::Finished => false,
    }
}

/// Whether the rejected deletion reports exactly an unmet requirement of
/// recursive deletion on its root, naming the provider.
pub open spec fn recursive_refusal_exact(error: ErrorFactsView, root: Seq<char>, provider: Seq<char>) -> bool {
    &&& error.kind == ErrorKind::RequirementNotMet
    &&& error.operation == OperationKind::Delete
    &&& error.path == Some(root)
    &&& error.provider == Some(provider)
    &&& error.required_capability == tree_capability()
}

/// Whether the probe's state is one the check can be in: the entries
/// prepared so far are the ones seeding counted, and the observed index
/// stays within the tree.
pub open spec fn tree_consistent(p: TreeView) -> bool {
    &&& p.stage == TreeStage::Seed ==> p.paths.len() == p.index && p.index < 4
    &&& (p.stage == TreeStage::Before || p.stage == TreeStage::After) ==> p.paths.len() == 4 && p.index < 4
    &&& p.stage == TreeStage::Delete ==> p.paths.len() == 4
}

/// The transition of the tree deletion check at `p.stage` on `event`.
pub open spec fn tree_step(p: TreeView, ctx: ContextView, event: TreeEventView) -> (
    TreeView,
    ContextView,
    TreeRequestView,
) {
    let done = TreeView { stage: TreeStage::Finished, ..p };
    let fail = |message: Seq<char>, with_error: bool| (done, ctx, TreeRequestView::Fail { message, with_error });
    let record = |outcome: OutcomeView| (
        done,
        with_recorded(ctx, ContractCheckId::DeleteTree, tree_capability(), outcome),
        TreeRequestView::Finish,
    );
    match (p.stage, event) {
        (TreeStage::ResolveRejected, TreeEventView::Resolved(Some(root))) => (
            TreeView { rejected: root, stage: TreeStage::Rejected, ..p },
            ctx,
            TreeRequestView::DeleteTree { path: root },
        ),
        (TreeStage::ResolveRejected, _) => fail("recursive delete path preparation failed"@, true),
        (TreeStage::Rejected, TreeEventView::Deleted(Err(error))) => if recursive_refusal_exact(
            error,
            p.rejected,
            p.provider,
        ) {
            record(OutcomeView::RejectedAsExpected)
        } else {
            fail("delete error context differs"@, true)
        },
        (TreeStage::Rejected, _) => fail("unavailable recursive deletion succeeded"@, false),
        (TreeStage::Seed, TreeEventView::Seeded(SeedView::Supported(path))) => {
            let ctx = with_created(ctx, path);
            let paths = p.paths.push(path);
            if p.index + 1 < 4 {
                (
                    TreeView { paths, index: p.index + 1, ..p },
                    ctx,
                    seed_request(p.root_name, p.index + 1int),
                )
            } else {
                (
                    TreeView { paths, index: 0, stage: TreeStage::Before, ..p },
                    ctx,
                    TreeRequestView::Exists { path: paths[0] },
                )
            }
        },
        (TreeStage::Seed, TreeEventView::Seeded(SeedView::Unsupported)) => record(
            OutcomeView::Unverified {
                reason: if p.index < 2 {
                    "recursive deletion requires independently prepared directories"@
                } else {
                    "recursive deletion requires independently prepared children"@
                },
            },
        ),
        (TreeStage::Seed, _) => fail(
            if p.index < 2 {
                "recursive-delete directory preparation failed"@
            } else {
                "recursive-delete child preparation failed"@
            },
            true,
        ),
        (TreeStage::Before, TreeEventView::Observed(Presence::Present(true))) => if p.index + 1 < 4 {
            (TreeView { index: p.index + 1, ..p }, ctx, TreeRequestView::Exists { path: p.paths[p.index + 1int] })
        } else {
            (TreeView { stage: TreeStage::Delete, ..p }, ctx, TreeRequestView::DeleteTree { path: p.paths[0] })
        },
        (TreeStage::Before, TreeEventView::Observed(Presence::Failed)) => fail(
            "recursive-delete initial observation failed"@,
            true,
        ),
        (TreeStage::Before, _) => fail("recursive-delete seed must independently contain every entry"@, false),
        (TreeStage::Delete, TreeEventView::Deleted(Ok(already_missing))) => if already_missing {
            fail("recursive deletion reported a prepared tree missing"@, false)
        } else {
            (
                TreeView { index: 0, stage: TreeStage::After, ..p },
                ctx,
                TreeRequestView::Exists { path: p.paths[0] },
            )
        },
        (TreeStage::Delete, _) => fail("recursive removal failed"@, true),
        (TreeStage::After, TreeEventView::Observed(Presence::Present(false))) => if p.index + 1 < 4 {
            (TreeView { index: p.index + 1, ..p }, ctx, TreeRequestView::Exists { path: p.paths[p.index + 1int] })
        } else {
            record(OutcomeView::Passed)
        },
        (TreeStage::After, TreeEventView::Observed(Presence::Failed)) => fail(
            "recursive-delete final observation failed"@,
            true,
        ),
        (TreeStage::After, _) => fail("delete/tree: child remained after removal or root remained after removal"@, false),
        (_, _) => (p, ctx, TreeRequestView::Finish),
    }
}

/// Every step keeps the check's state one it can be in.
pub proof fn law_tree_step_stays_consistent(p: TreeView, ctx: ContextView, event: TreeEventView)
    requires
        tree_consistent(p),
        tree_answers(p.stage, event),
    ensures
        tree_consistent(tree_step(p, ctx, event).0),
{
}

/// The tree deletion check passes only on the last of the four absence
/// observations after the deletion, deletes only once every entry was seen
/// present, and observes after the deletion only entries it prepared.
pub proof fn law_tree_passes_only_when_every_entry_is_gone(p: TreeView, ctx: ContextView, event: TreeEventView)
    requires
        tree_consistent(p),
        tree_answers(p.stage, event),
    ensures
        tree_step(p, ctx, event).2 is Finish && p.stage != TreeStage::Rejected && p.stage != TreeStage::Seed ==> p.stage
            == TreeStage::After && p.index == 3 && event == TreeEventView::Observed(Presence::Present(false))
            && tree_step(p, ctx, event).1 == with_recorded(
            ctx,
            ContractCheckId::DeleteTree,
            tree_capability(),
            OutcomeView::Passed,
        ),
        tree_step(p, ctx, event).2 is DeleteTree && p.stage == TreeStage::Before ==> p.index == 3 && event
            == TreeEventView::Observed(Presence::Present(true)),
        p.stage == TreeStage::After && tree_step(p, ctx, event).2 is Exists ==> event == TreeEventView::Observed(
            Presence::Present(false),
        ) && tree_step(p, ctx, event).0.index == p.index + 1,
{
}

impl DeleteTreeProbe {
    /// Starts the tree deletion check in the suite context, given whether
    /// recursive deletion is advertised and the provider identity; returns
    /// the probe with its first request.
    pub fn new(ctx: &mut ContractContext, recursive: bool, provider: String) -> (started: (
        DeleteTreeProbe,
        TreeRequest,
    ))
        ensures
            (started.0@, final(ctx)@, started.1@) == tree_start(recursive, provider@, old(ctx)@),
            tree_consistent(started.0@),
    {
        ctx.begin(ContractCheckId::DeleteTree.as_str());
        let root_name = ctx.relative_name("recursive-delete-root");
        let mut probe = DeleteTreeProbe {
            provider,
            root_name,
            rejected: String::new(),
            paths: Vec::new(),
            index: 0,
            stage: TreeStage::Finished,
        };
        proof {
            assert(probe@.paths =~= Seq::<Seq<char>>::empty());
        }
        if !recursive {
            probe.stage = TreeStage::ResolveRejected;
            let name = probe.root_name.clone();
            (probe, TreeRequest::ResolvePath { name })
        } else {
            probe.stage = TreeStage::Seed;
            let request = probe.seed_request(0);
            (probe, request)
        }
    }

    /// Returns the preparation of the entry at `index`.
    fn seed_request(&self, index: usize) -> (request: TreeRequest)
        requires
            index < 4,
        ensures
            request@ == seed_request(self@.root_name, index as int),
    {
        let mut name = self.root_name.clone();
        if index == 1 {
            name.append("/nested");
        } else if index == 2 {
            name.append("/child");
        } else if index == 3 {
            name.append("/nested/child");
        }
        if index < 2 {
            TreeRequest::SeedDirectory { name }
        } else {
            TreeRequest::SeedFile { name, bytes: "child".as_bytes() }
        }
    }

    /// Returns the request the check waits on.
    pub fn stage(&self) -> (stage: TreeStage)
        ensures
            stage == self@.stage,
    {
        self.stage
    }

    /// Returns whether `event` is the kind of answer the check waits for.
    pub fn expects(&self, event: &TreeEvent) -> (answered: bool)
        ensures
            answered == tree_answers(self@.stage, event@),
    {
        match self.stage {
            TreeStage::ResolveRejected => matches!(event, TreeEvent::Resolved(_)),
            TreeStage::Rejected | TreeStage::Delete => matches!(event, TreeEvent::Deleted(_)),
            TreeStage::Seed => matches!(event, TreeEvent::Seeded(_)),
            TreeStage::Before | TreeStage::After => matches!(event, TreeEvent::Observed(_)),
            TreeStage::Finished => false,
        }
    }

    /// Ends the check with the failure `message`.
    fn fail(&mut self, message: &'static str, with_error: bool) -> (request: TreeRequest)
        ensures
            final(self)@ == (TreeView { stage: TreeStage::Finished, ..old(self)@ }),
            request@ == (TreeRequestView::Fail { message: message@, with_error }),
    {
        self.stage = TreeStage::Finished;
        TreeRequest::Fail { message, with_error }
    }

    /// Ends the check by recording `outcome`.
    fn record(&mut self, ctx: &mut ContractContext, outcome: ContractCheckOutcome) -> (request: TreeRequest)
        ensures
            final(self)@ == (TreeView { stage: TreeStage::Finished, ..old(self)@ }),
            final(ctx)@ == with_recorded(old(ctx)@, ContractCheckId::DeleteTree, tree_capability(), outcome@),
            request@ == TreeRequestView::Finish,
    {
        self.stage = TreeStage::Finished;
        ctx.record_check(ContractCheckId::DeleteTree, Some(FileSystemCapability::RecursiveDelete), outcome);
        TreeRequest::Finish
    }

    /// Takes the answer to the pending request, records what the step
    /// names in the suite context, and returns the next request.
    pub fn advance(&mut self, ctx: &mut ContractContext, event: TreeEvent) -> (request: TreeRequest)
        requires
            tree_consistent(old(self)@),
            tree_answers(old(self)@.stage, event@),
        ensures
            (final(self)@, final(ctx)@, request@) == tree_step(old(self)@, old(ctx)@, event@),
            tree_consistent(final(self)@),
    {
        match self.stage {
            TreeStage::ResolveRejected => match event {
                TreeEvent::Resolved(Some(root)) => {
                    self.rejected = root;
                    self.stage = TreeStage::Rejected;
                    TreeRequest::DeleteTree { path: self.rejected.clone() }
                },
                _ => self.fail("recursive delete path preparation failed", true),
            },
            TreeStage::Rejected => match event {
                TreeEvent::Deleted(Err(error)) => {
                    let operation_ok = match error.operation {
                        OperationKind::Delete => true,
                        _ => false,
                    };
                    let capability_ok = match error.required_capability {
                        Some(FileSystemCapability::RecursiveDelete) => true,
                        _ => false,
                    };
                    let exact = error.kind == ErrorKind::RequirementNotMet && operation_ok && text_is(
                        &error.path,
                        &self.rejected,
                    ) && text_is(&error.provider, &self.provider) && capability_ok;
                    if exact {
                        self.record(ctx, ContractCheckOutcome::RejectedAsExpected)
                    } else {
                        self.fail("delete error context differs", true)
                    }
                },
                _ => self.fail("unavailable recursive deletion succeeded", false),
            },
            TreeStage::Seed => match event {
                TreeEvent::Seeded(SeedOutcome::Supported(path)) => {
                    let ghost seeded = path@;
                    ctx.record_created(path.clone());
                    self.paths.push(path);
                    proof {
                        assert(self@.paths =~= old(self)@.paths.push(seeded));
                    }
                    if self.index + 1 < TREE_ENTRIES {
                        self.index = self.index + 1;
                        self.seed_request(self.index)
                    } else {
                        self.index = 0;
                        self.stage = TreeStage::Before;
                        TreeRequest::Exists { path: self.paths[0].clone() }
                    }
                },
                TreeEvent::Seeded(SeedOutcome::Unsupported) => {
                    let reason = if self.index < 2 {
                        String::from_str("recursive deletion requires independently prepared directories")
                    } else {
                        String::from_str("recursive deletion requires independently prepared children")
                    };
                    self.record(ctx, ContractCheckOutcome::Unverified { reason })
                },
                _ => if self.index < 2 {
                    self.fail("recursive-delete directory preparation failed", true)
                } else {
                    self.fail("recursive-delete child preparation failed", true)
                },
            },
            TreeStage::Before => match event {
                TreeEvent::Observed(Presence::Present(true)) => if self.index + 1 < TREE_ENTRIES {
                    self.index = self.index + 1;
                    TreeRequest::Exists { path: self.paths[self.index].clone() }
                } else {
                    self.stage = TreeStage::Delete;
                    TreeRequest::DeleteTree { path: self.paths[0].clone() }
                },
                TreeEvent::Observed(Presence::Failed) => self.fail("recursive-delete initial observation failed", true),
                _ => self.fail("recursive-delete seed must independently contain every entry", false),
            },
            TreeStage::Delete => match event {
                TreeEvent::Deleted(Ok(already_missing)) => if already_missing {
                    self.fail("recursive deletion reported a prepared tree missing", false)
                } else {
                    self.index = 0;
                    self.stage = TreeStage::After;
                    TreeRequest::Exists { path: self.paths[0].clone() }
                },
                _ => self.fail("recursive removal failed", true),
            },
            TreeStage::After => match event {
                TreeEvent::Observed(Presence::Present(false)) => if self.index + 1 < TREE_ENTRIES {
                    self.index = self.index + 1;
                    TreeRequest::Exists { path: self.paths[self.index].clone() }
                } else {
                    self.record(ctx, ContractCheckOutcome::Passed)
                },
                TreeEvent::Observed(Presence::Failed) => self.fail("recursive-delete final observation failed", true),
                _ => self.fail("delete/tree: child remained after removal or root remained after removal", false),
            },
            TreeStage::Finished => TreeRequest::Finish,
        }
    }
}

} // verus!
