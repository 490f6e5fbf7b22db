use vstd::prelude::*;

use crate::capability::FileSystemCapability;
use crate::contract_check_id::ContractCheckId;
use crate::contract_check_outcome::ContractCheckOutcome;
use crate::contract_check_outcome::OutcomeView;
use crate::contract_context::ContextView;
use crate::contract_context::ContractContext;
use crate::contract_context::begun;
use crate::contract_context::relative_in;
use crate::contract_context::with_created;
use crate::contract_context::with_recorded;
use crate::fs_facts::SeedOutcome;
use crate::fs_facts::SeedView;
use crate::fs_facts::seed_view;

verus! {

/// The next thing the driver does for a representation check.
#[derive(Debug, PartialEq, Eq)]
pub enum RepresentationRequest {
    /// Seed an empty directory under this fixture-relative name.
    SeedEmptyDirectory {
        /// The fixture-relative name.
        name: String,
    },
    /// Seed a symbolic link under this fixture-relative name.
    SeedSymlink {
        /// The fixture-relative name.
        name: String,
    },
    /// Read the metadata of `path` through the facade.
    Stat {
        /// The path.
        path: String,
    },
    /// The check was recorded.
    Finish,
    /// The check failed with `message`.
    Fail {
        /// The diagnostic.
        message: &'static str,
        /// Whether the error just answered is attached as the source.
        with_error: bool,
    },
}

/// The abstract form of a representation request.
pub enum RepresentationRequestView {
    /// Seed an empty directory.
    SeedEmptyDirectory { name: Seq<char> },
    /// Seed a symbolic link.
    SeedSymlink { name: Seq<char> },
    /// Read metadata.
    Stat { path: Seq<char> },
    /// The check was recorded.
    Finish,
    /// The check failed.
    Fail { message: Seq<char>, with_error: bool },
}

impl View for RepresentationRequest {
    type V = RepresentationRequestView;

    open spec fn view(&self) -> RepresentationRequestView {
        match self {
            RepresentationRequest::SeedEmptyDirectory { name } => RepresentationRequestView::SeedEmptyDirectory {
                name: name@,
            },
            RepresentationRequest::SeedSymlink { name } => RepresentationRequestView::SeedSymlink { name: name@ },
            RepresentationRequest::Stat { path } => RepresentationRequestView::Stat { path: path@ },
            RepresentationRequest::Finish => RepresentationRequestView::Finish,
            RepresentationRequest::Fail { message, with_error } => RepresentationRequestView::Fail {
                message: message@,
                with_error: *with_error,
            },
        }
    }
}

/// The metadata facts a representation check reads.
#[derive(Clone, Copy, Debug, PartialEq, Eq, Structural)]
pub struct MetadataFacts {
    /// Whether the entry is directory-like.
    pub directory_like: bool,
    /// Whether the entry's kind is a symbolic link.
    pub symlink: bool,
}

/// The answer to the pending representation request.
pub enum RepresentationEvent {
    /// The seeding hook answered.
    Seeded(SeedOutcome),
    /// The metadata read answered: the facts, or `None` when it failed.
    Stat(Option<MetadataFacts>),
}

/// The abstract form of a representation answer.
pub enum RepresentationEventView {
    /// A seeding answer.
    Seeded(SeedView),
    /// A metadata answer.
    Stat(Option<MetadataFacts>),
}

impl View for RepresentationEvent {
    type V = RepresentationEventView;

    open spec fn view(&self) -> RepresentationEventView {
        match self {
            RepresentationEvent::Seeded(outcome) => RepresentationEventView::Seeded(seed_view(*outcome)),
            RepresentationEvent::Stat(facts) => RepresentationEventView::Stat(*facts),
        }
    }
}

/// The request a representation check waits on.
#[derive(Clone, Copy, Debug, PartialEq, Eq, Structural)]
pub enum RepresentationStage {
    /// The representation is being seeded.
    Seed,
    /// Its metadata is being read.
    Stat,
    /// The check has finished.
    Finished,
}

/// The abstract state of a representation check.
pub struct RepresentationView {
    /// The check.
    pub id: ContractCheckId,
    /// The capability that advertises the representation.
    pub capability: FileSystemCapability,
    /// The stage.
    pub stage: RepresentationStage,
}

/// Drives one representation check: an advertised empty directory or
/// symbolic link must be seeded independently and read back through the
/// facade as what it is.
pub struct RepresentationProbe {
    id: ContractCheckId,
    capability: FileSystemCapability,
    stage: RepresentationStage,
}

impl View for RepresentationProbe {
    type V = RepresentationView;

    closed spec fn view(&self) -> RepresentationView {
        RepresentationView { id: self.id, capability: self.capability, stage: self.stage }
    }
}

/// The capability and fixture-relative name of a representation check, or
/// `None` for a check of another phase.
pub open spec fn representation_plan(id: ContractCheckId) -> Option<(FileSystemCapability, Seq<char>)> {
    match id {
        ContractCheckId::RepresentationEmpty => Some((FileSystemCapability::EmptyDirectory, "empty-directory"@)),
        ContractCheckId::RepresentationSymlink => Some((FileSystemCapability::Symlink, "symlink"@)),
        _ => None,
    }
}

/// The start of a representation check over the suite context: a check of
/// another phase fails before its phase begins; otherwise the phase begins,
/// an unadvertised representation is recorded as inapplicable, and an
/// advertised one is seeded.
pub open spec fn representation_start(
    id: ContractCheckId,
    empty_directory: bool,
    symlink: bool,
    ctx: ContextView,
) -> (RepresentationView, ContextView, RepresentationRequestView) {
    match representation_plan(id) {
        None => (
            RepresentationView {
                id,
                capability: FileSystemCapability::EmptyDirectory,
                stage: RepresentationStage::Finished,
            },
            ctx,
            RepresentationRequestView::Fail { message: "selected entry is not a representation check"@, with_error: false },
        ),
        Some((capability, name)) => {
            let ctx = begun(ctx, id.stable_name());
            let capable = if id == ContractCheckId::RepresentationEmpty {
                empty_directory
            } else {
                symlink
            };
            let p = RepresentationView { id, capability, stage: RepresentationStage::Finished };
            if !capable {
                (
                    p,
                    with_recorded(
                        ctx,
                        id,
                        Some(capability),
                        OutcomeView::NotApplicable {
                            reason: "provider does not advertise this representation; no rejection was exercised"@,
                        },
                    ),
                    RepresentationRequestView::Finish,
                )
            } else {
                let name = relative_in(ctx, name);
                (
                    RepresentationView { stage: RepresentationStage::Seed, ..p },
                    ctx,
                    if id == ContractCheckId::RepresentationEmpty {
                        RepresentationRequestView::SeedEmptyDirectory { name }
                    } else {
                        RepresentationRequestView::SeedSymlink { name }
                    },
                )
            }
        },
    }
}

/// The kind of answer a stage waits for.
pub open spec fn representation_answers(stage: RepresentationStage, event: RepresentationEventView) -> bool {
    match stage {
        RepresentationStage::Seed => event is Seeded,
        RepresentationStage::Stat => event is Stat,
        RepresentationStage::Finished => false,
    }
}

/// Whether metadata shows the check's representation.
pub open spec fn shows_representation(id: ContractCheckId, facts: MetadataFacts) -> bool {
    if id == ContractCheckId::RepresentationEmpty {
        facts.directory_like
    } else {
        facts.symlink
    }
}

/// The transition of a representation check at `p.stage` on `event`.
pub open spec fn representation_step(p: RepresentationView, ctx: ContextView, event: RepresentationEventView) -> (
    RepresentationView,
    ContextView,
    RepresentationRequestView,
) {
    let done = RepresentationView { stage: RepresentationStage::Finished, ..p };
    match (p.stage, event) {
        (RepresentationStage::Seed, RepresentationEventView::Seeded(SeedView::Supported(path))) => (
            RepresentationView { stage: RepresentationStage::Stat, ..p },
            with_created(ctx, path),
            RepresentationRequestView::Stat { path },
        ),
        (RepresentationStage::Seed, RepresentationEventView::Seeded(SeedView::Unsupported)) => (
            done,
            with_recorded(
                ctx,
                p.id,
                Some(p.capability),
                OutcomeView::Unverified { reason: "advertised representation requires independent fixture preparation"@ },
            ),
            RepresentationRequestView::Finish,
        ),
        (RepresentationStage::Seed, _) => (
            done,
            ctx,
            RepresentationRequestView::Fail { message: "representation preparation failed"@, with_error: true },
        ),
        (RepresentationStage::Stat, RepresentationEventView::Stat(Some(facts))) => if shows_representation(
            p.id,
            facts,
        ) {
            (done, with_recorded(ctx, p.id, Some(p.capability), OutcomeView::Passed), RepresentationRequestView::Finish)
        } else if p.id == ContractCheckId::RepresentationEmpty {
            (
                done,
                ctx,
                RepresentationRequestView::Fail {
                    message: "representation contract: empty directory is not directory-like"@,
                    with_error: false,
                },
            )
        } else {
            (
                done,
                ctx,
                RepresentationRequestView::Fail {
                    message: "representation contract: seeded link kind mismatch"@,
                    with_error: false,
                },
            )
        },
        (RepresentationStage::Stat, _) => (
            done,
            ctx,
            RepresentationRequestView::Fail { message: "representation metadata observation failed"@, with_error: true },
        ),
        (RepresentationStage::Finished, _) => (p, ctx, RepresentationRequestView::Finish),
    }
}

/// A representation check passes only when the metadata of the seeded
/// entry shows its representation, and then records the pass for its own
/// check and capability; metadata is read only for a seeded entry, which
/// is first recorded for cleanup.
pub proof fn law_representation_passes_only_when_shown(
    p: RepresentationView,
    ctx: ContextView,
    event: RepresentationEventView,
)
    requires
        representation_answers(p.stage, event),
    ensures
        p.stage == RepresentationStage::Stat && representation_step(p, ctx, event).2 is Finish ==> (
        event matches RepresentationEventView::Stat(Some(facts)) && shows_representation(p.id, facts))
            && representation_step(p, ctx, event).1 == with_recorded(ctx, p.id, Some(p.capability), OutcomeView::Passed),
        representation_step(p, ctx, event).2 is Stat ==> p.stage == RepresentationStage::Seed && (
        event matches RepresentationEventView::Seeded(SeedView::Supported(path)) && representation_step(p, ctx, event).1
            == with_created(ctx, path) && representation_step(p, ctx, event).2
            == (RepresentationRequestView::Stat { path })),
{
}

impl RepresentationProbe {
    /// Starts the representation check `id` in the suite context with the
    /// advertised empty-directory and symbolic-link capabilities, and
    /// returns the probe with its first request.
    pub fn new(ctx: &mut ContractContext, id: ContractCheckId, empty_directory: bool, symlink: bool) -> (started: (
        RepresentationProbe,
        RepresentationRequest,
    ))
        ensures
            (started.0@, final(ctx)@, started.1@) == representation_start(id, empty_directory, symlink, old(ctx)@),
    {
        let (capability, name) = match id {
            ContractCheckId::RepresentationEmpty => (FileSystemCapability::EmptyDirectory, "empty-directory"),
            ContractCheckId::RepresentationSymlink => (FileSystemCapability::Symlink, "symlink"),
            _ => {
                return (
                    RepresentationProbe {
                        id,
                        capability: FileSystemCapability::EmptyDirectory,
                        stage: RepresentationStage::Finished,
                    },
                    RepresentationRequest::Fail {
                        message: "selected entry is not a representation check",
                        with_error: false,
                    },
                );
            },
        };
        ctx.begin(id.as_str());
        let capable = if id == ContractCheckId::RepresentationEmpty {
            empty_directory
        } else {
            symlink
        };
        let mut probe = RepresentationProbe { id, capability, stage: RepresentationStage::Finished };
        if !capable {
            ctx.record_check(
                id,
                Some(capability),
                ContractCheckOutcome::NotApplicable {
                    reason: String::from_str(
                        "provider does not advertise this representation; no rejection was exercised",
                    ),
                },
            );
            return (probe, RepresentationRequest::Finish);
        }
        let name = ctx.relative_name(name);
        probe.stage = RepresentationStage::Seed;
        if id == ContractCheckId::RepresentationEmpty {
            (probe, RepresentationRequest::SeedEmptyDirectory { name })
        } else {
            (probe, RepresentationRequest::SeedSymlink { name })
        }
    }

    /// Returns the stage the check waits in.
    pub fn stage(&self) -> (stage: RepresentationStage)
        ensures
            stage == self@.stage,
    {
        self.stage
    }

    /// Returns whether `event` answers the request the check waits on.
    pub fn expects(&self, event: &RepresentationEvent) -> (answered: bool)
        ensures
            answered == representation_answers(self@.stage, event@),
    {
        match self.stage {
            RepresentationStage::Seed => matches!(event, RepresentationEvent::Seeded(_)),
            RepresentationStage::Stat => matches!(event, RepresentationEvent::Stat(_)),
            RepresentationStage::Finished => false,
        }
    }

    /// Takes the answer to the pending request, records what the step
    /// names in the suite context, and returns the next request.
    pub fn advance(&mut self, ctx: &mut ContractContext, event: RepresentationEvent) -> (request:
        RepresentationRequest)
        requires
            representation_answers(old(self)@.stage, event@),
        ensures
            (final(self)@, final(ctx)@, request@) == representation_step(old(self)@, old(ctx)@, event@),
    {
        match self.stage {
            RepresentationStage::Seed => {
                self.stage = RepresentationStage::Finished;
                match event {
                    RepresentationEvent::Seeded(SeedOutcome::Supported(path)) => {
                        ctx.record_created(path.clone());
                        self.stage = RepresentationStage::Stat;
                        RepresentationRequest::Stat { path }
                    },
                    RepresentationEvent::Seeded(SeedOutcome::Unsupported) => {
                        ctx.record_check(
                            self.id,
                            Some(self.capability),
                            ContractCheckOutcome::Unverified {
                                reason: String::from_str(
                                    "advertised representation requires independent fixture preparation",
                                ),
                            },
                        );
                        RepresentationRequest::Finish
                    },
                    _ => RepresentationRequest::Fail { message: "representation preparation failed", with_error: true },
                }
            },
            RepresentationStage::Stat => {
                self.stage = RepresentationStage::Finished;
                match event {
                    RepresentationEvent::Stat(Some(facts)) => {
                        let shown = if self.id == ContractCheckId::RepresentationEmpty {
                            facts.directory_like
                        } else {
                            facts.symlink
                        };
                        if shown {
                            ctx.record_check(self.id, Some(self.capability), ContractCheckOutcome::Passed);
                            RepresentationRequest::Finish
                        } else if self.id == ContractCheckId::RepresentationEmpty {
                            RepresentationRequest::Fail {
                                message: "representation contract: empty directory is not directory-like",
                                with_error: false,
                            }
                        } else {
                            RepresentationRequest::Fail {
                                message: "representation contract: seeded link kind mismatch",
                                with_error: false,
                            }
                        }
                    },
                    _ => RepresentationRequest::Fail {
                        message: "representation metadata observation failed",
                        with_error: true,
                    },
                }
            },
            RepresentationStage::Finished => RepresentationRequest::Finish,
        }
    }
}

} // verus!
