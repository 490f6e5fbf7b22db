//! Directory creation evidence, as a step machine: with the capability, a
//! created directory must be a directory, creating it again must report it
//! existed, and a recursive creation must succeed; without it, creation
//! must be refused with exact context.
use vstd::prelude::*;

use crate::capability::FileSystemCapability;
use crate::contract_check_id::ContractCheckId;
use crate::contract_check_outcome::ContractCheckOutcome;
use crate::contract_check_outcome::OutcomeView;
use crate::contract_context::ContextView;
use crate::contract_context::ContractContext;
use crate::contract_context::begun;
use crate::contract_context::relative_in;
use crate::contract_context::with_created;
use crate::contract_context::with_recorded;
use crate::fs_facts::ErrorFacts;
use crate::fs_facts::ErrorFactsView;
use crate::fs_facts::ErrorKind;
use crate::fs_facts::OperationKind;
use crate::fs_facts::text_is;
use crate::fs_facts::text_of;

verus! {

/// The next thing the driver does for the directory creation checks.
#[derive(Debug, PartialEq, Eq)]
pub enum DirectoryRequest {
    /// Resolve this fixture-relative name to a provider path.
    ResolvePath {
        /// The fixture-relative name.
        name: String,
    },
    /// Create the directory at `path` through the facade.
    CreateDirectory {
        /// The path.
        path: String,
        /// Whether an existing directory is accepted.
        exists_ok: bool,
        /// Whether missing ancestors are created.
        recursive: bool,
    },
    /// Read the metadata of `path` through the facade.
    Stat {
        /// The path.
        path: String,
    },
    /// The checks were recorded.
    Finish,
    /// The checks failed with `message`.
    Fail {
        /// The diagnostic.
        message: &'static str,
        /// Whether the error just answered is attached as the source.
        with_error: bool,
    },
}

/// The abstract form of a directory creation request.
pub enum DirectoryRequestView {
    /// Resolve a name.
    ResolvePath { name: Seq<char> },
    /// Create a directory.
    CreateDirectory { path: Seq<char>, exists_ok: bool, recursive: bool },
    /// Read metadata.
    Stat { path: Seq<char> },
    /// The checks were recorded.
    Finish,
    /// The checks failed.
    Fail { message: Seq<char>, with_error: bool },
}

impl View for DirectoryRequest {
    type V = DirectoryRequestView;

    open spec fn view(&self) -> DirectoryRequestView {
        match self {
            DirectoryRequest::ResolvePath { name } => DirectoryRequestView::ResolvePath { name: name@ },
            DirectoryRequest::CreateDirectory { path, exists_ok, recursive } => DirectoryRequestView::CreateDirectory {
                path: path@,
                exists_ok: *exists_ok,
                recursive: *recursive,
            },
            DirectoryRequest::Stat { path } => DirectoryRequestView::Stat { path: path@ },
            DirectoryRequest::Finish => DirectoryRequestView::Finish,
            DirectoryRequest::Fail { message, with_error } => DirectoryRequestView::Fail {
                message: message@,
                with_error: *with_error,
            },
        }
    }
}

/// What a successful directory creation reported.
#[derive(Clone, Copy, Debug, PartialEq, Eq, Structural)]
pub struct CreatedFacts {
    /// Whether the directory already existed.
    pub already_existed: bool,
    /// How many missing ancestors were created, when reported.
    pub created_ancestors: Option<u64>,
}

/// The answer to the pending directory creation request.
pub enum DirectoryEvent {
    /// The resolved path, or `None` when the fixture could not map it.
    Resolved(Option<String>),
    /// A creation answered.
    Created(Result<CreatedFacts, ErrorFacts>),
    /// A metadata lookup answered: whether the path is directory-like, or
    /// the error.
    Stat(Result<bool, ErrorFacts>),
}

/// The abstract form of a directory creation answer.
pub enum DirectoryEventView {
    /// A resolved path.
    Resolved(Option<Seq<char>>),
    /// A creation answer.
    Created(Result<CreatedFacts, ErrorFactsView>),
    /// A metadata answer.
    Stat(Result<bool, ErrorFactsView>),
}

impl View for DirectoryEvent {
    type V = DirectoryEventView;

    open spec fn view(&self) -> DirectoryEventView {
        match self {
            DirectoryEvent::Resolved(path) => DirectoryEventView::Resolved(text_of(*path)),
            DirectoryEvent::Created(Ok(facts)) => DirectoryEventView::Created(Ok(*facts)),
            DirectoryEvent::Created(Err(error)) => DirectoryEventView::Created(Err(error@)),
            DirectoryEvent::Stat(Ok(directory)) => DirectoryEventView::Stat(Ok(*directory)),
            DirectoryEvent::Stat(Err(error)) => DirectoryEventView::Stat(Err(error@)),
        }
    }
}

/// The request the directory creation checks wait on.
#[derive(Clone, Copy, Debug, PartialEq, Eq, Structural)]
pub enum DirectoryStage {
    /// The directory's path is being resolved.
    Resolve,
    /// A creation that must be refused runs.
    Rejected,
    /// The directory is created.
    Create,
    /// The created directory's metadata is read.
    Stat,
    /// The directory is created again, accepting that it exists.
    Again,
    /// The recursive parent's path is being resolved.
    ResolveParent,
    /// The recursive child's path is being resolved.
    ResolveChild,
    /// The child is created recursively.
    Recursive,
    /// The checks have finished.
    Finished,
}

/// The abstract state of the directory creation checks.
pub struct DirectoryView {
    /// Whether directory creation is advertised.
    pub capable: bool,
    /// The provider identity errors must report.
    pub provider: Seq<char>,
    /// The directory, once known.
    pub path: Seq<char>,
    /// The recursive parent, once known.
    pub parent: Seq<char>,
    /// The stage.
    pub stage: DirectoryStage,
}

/// Drives the directory creation checks.
pub struct CreateDirectoryProbe {
    capable: bool,
    provider: String,
    path: String,
    parent: String,
    stage: DirectoryStage,
}

impl View for CreateDirectoryProbe {
    type V = DirectoryView;

    closed spec fn view(&self) -> DirectoryView {
        DirectoryView {
            capable: self.capable,
            provider: self.provider@,
            path: self.path@,
            parent: self.parent@,
            stage: self.stage,
        }
    }
}

/// The capability both checks are recorded under.
pub open spec fn directory_capability() -> Option<FileSystemCapability> {
    Some(FileSystemCapability::CreateDirectory)
}

/// The context after both checks recorded `outcome`.
pub open spec fn both_recorded(ctx: ContextView, outcome: OutcomeView) -> ContextView {
    with_recorded(
        with_recorded(ctx, ContractCheckId::DirectoryCreate, directory_capability(), outcome),
        ContractCheckId::DirectoryRecursive,
        directory_capability(),
        outcome,
    )
}

/// The start of the directory creation checks over the suite context: the
/// phase begins and the directory's path is resolved.
pub open spec fn directory_start(capable: bool, provider: Seq<char>, ctx: ContextView) -> (
    DirectoryView,
    ContextView,
    DirectoryRequestView,
) {
    let ctx = begun(ctx, "create_directory"@);
    (
        DirectoryView {
            capable,
            provider,
            path: Seq::empty(),
            parent: Seq::empty(),
            stage: DirectoryStage::Resolve,
        },
        ctx,
        DirectoryRequestView::ResolvePath { name: relative_in(ctx, "async-created-directory"@) },
    )
}

/// The kind of answer a stage waits for.
pub open spec fn directory_answers(stage: DirectoryStage, event: DirectoryEventView) -> bool {
    match stage {
        DirectoryStage::Resolve | DirectoryStage::ResolveParent | DirectoryStage::ResolveChild => event is Resolved,
        DirectoryStage::Rejected | DirectoryStage::Create | DirectoryStage::Again | DirectoryStage::Recursive => event is Created,
        DirectoryStage::Stat => event is Stat,
        DirectoryStage::Finished => false,
    }
}

/// Whether an unadvertised creation was refused exactly: an unsupported
/// capability of directory creation on the path, naming the provider.
pub open spec fn creation_refusal_exact(error: ErrorFactsView, path: Seq<char>, provider: Seq<char>) -> bool {
    &&& error.kind == ErrorKind::UnsupportedCapability
    &&& error.operation == OperationKind::CreateDir
    &&& error.path == Some(path)
    &&& error.provider == Some(provider)
}

/// The transition of the directory creation checks at `p.stage` on
/// `event`, in context `ctx` whose current phase names the paths.
pub open spec fn directory_step(p: DirectoryView, ctx: ContextView, event: DirectoryEventView) -> (
    DirectoryView,
    ContextView,
    DirectoryRequestView,
) {
    let done = DirectoryView { stage: DirectoryStage::Finished, ..p };
    let fail = |message: Seq<char>, with_error: bool| (done, ctx, DirectoryRequestView::Fail { message, with_error });
    match (p.stage, event) {
        (DirectoryStage::Resolve, DirectoryEventView::Resolved(Some(path))) => if p.capable {
            (
                DirectoryView { path, stage: DirectoryStage::Create, ..p },
                with_created(ctx, path),
                DirectoryRequestView::CreateDirectory { path, exists_ok: false, recursive: false },
            )
        } else {
            (
                DirectoryView { path, stage: DirectoryStage::Rejected, ..p },
                ctx,
                DirectoryRequestView::CreateDirectory { path, exists_ok: false, recursive: false },
            )
        },
        (DirectoryStage::Resolve, _) => fail("create-directory contract: path preparation failed"@, true),
        (DirectoryStage::Rejected, DirectoryEventView::Created(Err(error))) => if creation_refusal_exact(
            error,
            p.path,
            p.provider,
        ) {
            (done, both_recorded(ctx, OutcomeView::RejectedAsExpected), DirectoryRequestView::Finish)
        } else {
            fail("create-directory contract: error context differs"@, true)
        },
        (DirectoryStage::Rejected, _) => fail("create-directory contract: unadvertised creation succeeded"@, false),
        (DirectoryStage::Create, DirectoryEventView::Created(Ok(_))) => (
            DirectoryView { stage: DirectoryStage::Stat, ..p },
            ctx,
            DirectoryRequestView::Stat { path: p.path },
        ),
        (DirectoryStage::Create, _) => fail("create-directory contract: advertised creation failed"@, true),
        (DirectoryStage::Stat, DirectoryEventView::Stat(Ok(directory))) => if directory {
            (
                DirectoryView { stage: DirectoryStage::Again, ..p },
                ctx,
                DirectoryRequestView::CreateDirectory { path: p.path, exists_ok: true, recursive: false },
            )
        } else {
            fail("create-directory contract: created path is not a directory"@, false)
        },
        (DirectoryStage::Stat, _) => fail("create-directory contract: created path missing"@, true),
        (DirectoryStage::Again, DirectoryEventView::Created(Ok(facts))) => if facts.already_existed {
            (
                DirectoryView { stage: DirectoryStage::ResolveParent, ..p },
                ctx,
                DirectoryRequestView::ResolvePath { name: relative_in(ctx, "async-created-recursive-parent"@) },
            )
        } else {
            fail("create-directory contract: existing directory outcome was not reported"@, false)
        },
        (DirectoryStage::Again, _) => fail("create-directory contract: existing directory was not accepted"@, true),
        (DirectoryStage::ResolveParent, DirectoryEventView::Resolved(Some(parent))) => (
            DirectoryView { parent, stage: DirectoryStage::ResolveChild, ..p },
            ctx,
            DirectoryRequestView::ResolvePath { name: relative_in(ctx, "async-created-recursive-parent/child"@) },
        ),
        (DirectoryStage::ResolveChild, DirectoryEventView::Resolved(Some(child))) => (
            DirectoryView { stage: DirectoryStage::Recursive, ..p },
            with_created(with_created(ctx, p.parent), child),
            DirectoryRequestView::CreateDirectory { path: child, exists_ok: false, recursive: true },
        ),
        (DirectoryStage::ResolveParent, _) | (DirectoryStage::ResolveChild, _) => fail(
            "create-directory contract: path preparation failed"@,
            true,
        ),
        (DirectoryStage::Recursive, DirectoryEventView::Created(Ok(facts))) => if facts.created_ancestors == Some(
            0u64,
        ) {
            fail("create-directory contract: recursive creation reported no created ancestors"@, false)
        } else {
            (done, both_recorded(ctx, OutcomeView::Passed), DirectoryRequestView::Finish)
        },
        (DirectoryStage::Recursive, _) => fail("create-directory contract: recursive creation failed"@, true),
        (_, _) => (p, ctx, DirectoryRequestView::Finish),
    }
}

/// The directory creation checks pass only after a recursive creation
/// that did not report zero created ancestors, and are recorded as
/// rejected only for an exact refusal without the capability; a created
/// directory is created again only once its metadata says it is one.
pub proof fn law_directory_passes_only_on_recursive_creation(
    p: DirectoryView,
    ctx: ContextView,
    event: DirectoryEventView,
)
    requires
        directory_answers(p.stage, event),
    ensures
        directory_step(p, ctx, event).2 is Finish && p.stage != DirectoryStage::Rejected ==> p.stage
            == DirectoryStage::Recursive && (event matches DirectoryEventView::Created(Ok(facts))
            && facts.created_ancestors != Some(0u64)) && directory_step(p, ctx, event).1 == both_recorded(
            ctx,
            OutcomeView::Passed,
        ),
        p.stage == DirectoryStage::Rejected && directory_step(p, ctx, event).2 is Finish ==> (
        event matches DirectoryEventView::Created(Err(error)) && creation_refusal_exact(error, p.path, p.provider)),
        p.stage == DirectoryStage::Stat && directory_step(p, ctx, event).2 is CreateDirectory ==> event
            == DirectoryEventView::Stat(Ok(true)),
{
}

impl CreateDirectoryProbe {
    /// Starts the directory creation checks in the suite context, given
    /// whether creation is advertised and the provider identity; returns the
    /// probe with its first request.
    pub fn new(ctx: &mut ContractContext, capable: bool, provider: String) -> (started: (
        CreateDirectoryProbe,
        DirectoryRequest,
    ))
        ensures
            (started.0@, final(ctx)@, started.1@) == directory_start(capable, provider@, old(ctx)@),
    {
        ctx.begin("create_directory");
        let name = ctx.relative_name("async-created-directory");
        let probe = CreateDirectoryProbe {
            capable,
            provider,
            path: String::new(),
            parent: String::new(),
            stage: DirectoryStage::Resolve,
        };
        (probe, DirectoryRequest::ResolvePath { name })
    }

    /// Returns the request the checks wait on.
    pub fn stage(&self) -> (stage: DirectoryStage)
        ensures
            stage == self@.stage,
    {
        self.stage
    }

    /// Returns whether `event` is the kind of answer the checks wait for.
    pub fn expects(&self, event: &DirectoryEvent) -> (answered: bool)
        ensures
            answered == directory_answers(self@.stage, event@),
    {
        match self.stage {
            DirectoryStage::Resolve | DirectoryStage::ResolveParent | DirectoryStage::ResolveChild => matches!(
                event,
                DirectoryEvent::Resolved(_)
            ),
            DirectoryStage::Rejected | DirectoryStage::Create | DirectoryStage::Again | DirectoryStage::Recursive => matches!(
                event,
                DirectoryEvent::Created(_)
            ),
            DirectoryStage::Stat => matches!(event, DirectoryEvent::Stat(_)),
            DirectoryStage::Finished => false,
        }
    }

    /// Ends the checks with the failure `message`.
    fn fail(&mut self, message: &'static str, with_error: bool) -> (request: DirectoryRequest)
        ensures
            final(self)@ == (DirectoryView { stage: DirectoryStage::Finished, ..old(self)@ }),
            request@ == (DirectoryRequestView::Fail { message: message@, with_error }),
    {
        self.stage = DirectoryStage::Finished;
        DirectoryRequest::Fail { message, with_error }
    }

    /// Ends the checks by recording `outcome` for both.
    fn record_both(&mut self, ctx: &mut ContractContext, passed: bool) -> (request: DirectoryRequest)
        ensures
            final(self)@ == (DirectoryView { stage: DirectoryStage::Finished, ..old(self)@ }),
            final(ctx)@ == both_recorded(
                old(ctx)@,
                if passed {
                    OutcomeView::Passed
                } else {
                    OutcomeView::RejectedAsExpected
                },
            ),
            request@ == DirectoryRequestView::Finish,
    {
        self.stage = DirectoryStage::Finished;
        let capability = Some(FileSystemCapability::CreateDirectory);
        let first = if passed {
            ContractCheckOutcome::Passed
        } else {
            ContractCheckOutcome::RejectedAsExpected
        };
        let second = if passed {
            ContractCheckOutcome::Passed
        } else {
            ContractCheckOutcome::RejectedAsExpected
        };
        ctx.record_check(ContractCheckId::DirectoryCreate, capability, first);
        ctx.record_check(ContractCheckId::DirectoryRecursive, capability, second);
        DirectoryRequest::Finish
    }

    /// Takes the answer to the pending request, records what the step
    /// names in the suite context, and returns the next request.
    pub fn advance(&mut self, ctx: &mut ContractContext, event: DirectoryEvent) -> (request: DirectoryRequest)
        requires
            directory_answers(old(self)@.stage, event@),
        ensures
            (final(self)@, final(ctx)@, request@) == directory_step(old(self)@, old(ctx)@, event@),
    {
        match self.stage {
            DirectoryStage::Resolve => match event {
                DirectoryEvent::Resolved(Some(path)) => {
                    if self.capable {
                        ctx.record_created(path.clone());
                        self.stage = DirectoryStage::Create;
                    } else {
                        self.stage = DirectoryStage::Rejected;
                    }
                    self.path = path;
                    DirectoryRequest::CreateDirectory { path: self.path.clone(), exists_ok: false, recursive: false }
                },
                _ => self.fail("create-directory contract: path preparation failed", true),
            },
            DirectoryStage::Rejected => match event {
                DirectoryEvent::Created(Err(error)) => {
                    let operation_ok = match error.operation {
                        OperationKind::CreateDir => true,
                        _ => false,
                    };
                    let exact = error.kind == ErrorKind::UnsupportedCapability && operation_ok && text_is(
                        &error.path,
                        &self.path,
                    ) && text_is(&error.provider, &self.provider);
                    if exact {
                        self.record_both(ctx, false)
                    } else {
                        self.fail("create-directory contract: error context differs", true)
                    }
                },
                _ => self.fail("create-directory contract: unadvertised creation succeeded", false),
            },
            DirectoryStage::Create => match event {
                DirectoryEvent::Created(Ok(_)) => {
                    self.stage = DirectoryStage::Stat;
                    DirectoryRequest::Stat { path: self.path.clone() }
                },
                _ => self.fail("create-directory contract: advertised creation failed", true),
            },
            DirectoryStage::Stat => match event {
                DirectoryEvent::Stat(Ok(directory)) => if directory {
                    self.stage = DirectoryStage::Again;
                    DirectoryRequest::CreateDirectory { path: self.path.clone(), exists_ok: true, recursive: false }
                } else {
                    self.fail("create-directory contract: created path is not a directory", false)
                },
                _ => self.fail("create-directory contract: created path missing", true),
            },
            DirectoryStage::Again => match event {
                DirectoryEvent::Created(Ok(facts)) => if facts.already_existed {
                    self.stage = DirectoryStage::ResolveParent;
                    let name = ctx.relative_name("async-created-recursive-parent");
                    DirectoryRequest::ResolvePath { name }
                } else {
                    self.fail("create-directory contract: existing directory outcome was not reported", false)
                },
                _ => self.fail("create-directory contract: existing directory was not accepted", true),
            },
            DirectoryStage::ResolveParent => match event {
                DirectoryEvent::Resolved(Some(parent)) => {
                    self.parent = parent;
                    self.stage = DirectoryStage::ResolveChild;
                    let name = ctx.relative_name("async-created-recursive-parent/child");
                    DirectoryRequest::ResolvePath { name }
                },
                _ => self.fail("create-directory contract: path preparation failed", true),
            },
            DirectoryStage::ResolveChild => match event {
                DirectoryEvent::Resolved(Some(child)) => {
                    ctx.record_created(self.parent.clone());
                    ctx.record_created(child.clone());
                    self.stage = DirectoryStage::Recursive;
                    DirectoryRequest::CreateDirectory { path: child, exists_ok: false, recursive: true }
                },
                _ => self.fail("create-directory contract: path preparation failed", true),
            },
            DirectoryStage::Recursive => match event {
                DirectoryEvent::Created(Ok(facts)) => {
                    let none_created = match facts.created_ancestors {
                        Some(count) => count == 0,
                        None => false,
                    };
                    if none_created {
                        self.fail("create-directory contract: recursive creation reported no created ancestors", false)
                    } else {
                        self.record_both(ctx, true)
                    }
                },
                _ => self.fail("create-directory contract: recursive creation failed", true),
            },
            DirectoryStage::Finished => DirectoryRequest::Finish,
        }
    }
}

} // verus!
