//! Metadata evidence for the stat checks, as a step machine: a missing
//! path must be reported missing with exact context, and a seeded file
//! must be reported as a file of its length.
use vstd::prelude::*;
use vstd::string::StringSliceAdditionalSpecFns;

use crate::check_catalog::spec_capability;
use crate::check_catalog::specification;
use crate::contract_check_id::ContractCheckId;
use crate::contract_check_outcome::ContractCheckOutcome;
use crate::contract_check_outcome::OutcomeView;
use crate::contract_context::ContextView;
use crate::contract_context::ContractContext;
use crate::contract_context::begun;
use crate::contract_context::relative_in;
use crate::contract_context::with_created;
use crate::contract_context::with_recorded;
use crate::fs_facts::ErrorFacts;
use crate::fs_facts::ErrorFactsView;
use crate::fs_facts::ErrorKind;
use crate::fs_facts::OperationKind;
use crate::fs_facts::text_is;
use crate::fs_facts::text_of;
use crate::fs_facts::SeedOutcome;
use crate::fs_facts::SeedView;
use crate::fs_facts::seed_view;

verus! {

/// The next thing the driver does for a stat check.
#[derive(Debug, PartialEq, Eq)]
pub enum StatRequest {
    /// Resolve this fixture-relative name to a provider path.
    ResolvePath {
        /// The fixture-relative name.
        name: String,
    },
    /// Ask the fixture to seed a file named `name` holding `bytes`.
    Seed {
        /// The fixture-relative name.
        name: String,
        /// The bytes to seed.
        bytes: &'static [u8],
    },
    /// Read the metadata of `path` through the facade.
    Stat {
        /// The path.
        path: String,
    },
    /// The check was recorded.
    Finish,
    /// The check failed with `message`.
    Fail {
        /// The diagnostic.
        message: &'static str,
        /// Whether the error just answered is attached as the source.
        with_error: bool,
    },
}

/// The abstract form of a stat request.
pub enum StatRequestView {
    /// Resolve a name.
    ResolvePath { name: Seq<char> },
    /// Seed a file.
    Seed { name: Seq<char>, bytes: Seq<u8> },
    /// Read metadata.
    Stat { path: Seq<char> },
    /// The check was recorded.
    Finish,
    /// The check failed.
    Fail { message: Seq<char>, with_error: bool },
}

impl View for StatRequest {
    type V = StatRequestView;

    open spec fn view(&self) -> StatRequestView {
        match self {
            StatRequest::ResolvePath { name } => StatRequestView::ResolvePath { name: name@ },
            StatRequest::Seed { name, bytes } => StatRequestView::Seed { name: name@, bytes: bytes@ },
            StatRequest::Stat { path } => StatRequestView::Stat { path: path@ },
            StatRequest::Finish => StatRequestView::Finish,
            StatRequest::Fail { message, with_error } => StatRequestView::Fail {
                message: message@,
                with_error: *with_error,
            },
        }
    }
}

/// What the facade's metadata says of a file.
#[derive(Clone, Copy, Debug, PartialEq, Eq, Structural)]
pub struct StatFacts {
    /// Whether the resource is file-like.
    pub file_like: bool,
    /// Its length, when reported.
    pub len: Option<u64>,
}

/// The answer to the pending stat request.
pub enum StatEvent {
    /// The resolved path, or `None` when the fixture could not map it.
    Resolved(Option<String>),
    /// The fixture's seeding answered.
    Seeded(SeedOutcome),
    /// The facade's metadata lookup answered.
    Stat(Result<StatFacts, ErrorFacts>),
}

/// The abstract form of a stat answer.
pub enum StatEventView {
    /// A resolved path.
    Resolved(Option<Seq<char>>),
    /// A seeding answer.
    Seeded(SeedView),
    /// A metadata answer.
    Stat(Result<StatFacts, ErrorFactsView>),
}

impl View for StatEvent {
    type V = StatEventView;

    open spec fn view(&self) -> StatEventView {
        match self {
            StatEvent::Resolved(path) => StatEventView::Resolved(text_of(*path)),
            StatEvent::Seeded(outcome) => StatEventView::Seeded(seed_view(*outcome)),
            StatEvent::Stat(Ok(facts)) => StatEventView::Stat(Ok(*facts)),
            StatEvent::Stat(Err(error)) => StatEventView::Stat(Err(error@)),
        }
    }
}

/// The request a stat check waits on.
#[derive(Clone, Copy, Debug, PartialEq, Eq, Structural)]
pub enum StatStage {
    /// The missing path is being resolved.
    ResolveMissing,
    /// The missing path's metadata is being read.
    StatMissing,
    /// The fixture seeds the file.
    Seed,
    /// The seeded file's metadata is being read.
    StatSeeded,
    /// The check has finished.
    Finished,
}

/// The abstract state of a stat check.
pub struct StatView {
    /// The check.
    pub id: ContractCheckId,
    /// The provider identity errors must report.
    pub provider: Seq<char>,
    /// The path, once known.
    pub path: Seq<char>,
    /// The stage.
    pub stage: StatStage,
}

/// Drives one stat check.
pub struct StatProbe {
    id: ContractCheckId,
    provider: String,
    path: String,
    stage: StatStage,
}

impl View for StatProbe {
    type V = StatView;

    closed spec fn view(&self) -> StatView {
        StatView { id: self.id, provider: self.provider@, path: self.path@, stage: self.stage }
    }
}

/// The bytes the file-kind check seeds.
pub open spec fn stat_bytes() -> Seq<u8> {
    "stateful stat".spec_bytes()
}

/// The start of a stat check over the suite context: the check's phase
/// begins; the basic check resolves a missing path, the file-kind check
/// seeds a file, and any other check fails.
pub open spec fn stat_start(id: ContractCheckId, provider: Seq<char>, ctx: ContextView) -> (
    StatView,
    ContextView,
    StatRequestView,
) {
    let ctx = begun(ctx, id.stable_name());
    let p = StatView { id, provider, path: Seq::empty(), stage: StatStage::Finished };
    if id == ContractCheckId::StatBasic {
        (
            StatView { stage: StatStage::ResolveMissing, ..p },
            ctx,
            StatRequestView::ResolvePath { name: relative_in(ctx, "stat-missing"@) },
        )
    } else if id == ContractCheckId::StatFileKind {
        (
            StatView { stage: StatStage::Seed, ..p },
            ctx,
            StatRequestView::Seed { name: relative_in(ctx, "stat-file"@), bytes: stat_bytes() },
        )
    } else {
        (p, ctx, StatRequestView::Fail { message: "selected entry is not a metadata check"@, with_error: false })
    }
}

/// The kind of answer a stage waits for.
pub open spec fn stat_answers(stage: StatStage, event: StatEventView) -> bool {
    match stage {
        StatStage::ResolveMissing => event is Resolved,
        StatStage::Seed => event is Seeded,
        StatStage::StatMissing | StatStage::StatSeeded => event is Stat,
        StatStage::Finished => false,
    }
}

/// Whether a missing path was reported exactly: not found, by the stat
/// operation, on the path, naming the provider and no capability.
pub open spec fn missing_exact(error: ErrorFactsView, path: Seq<char>, provider: Seq<char>) -> bool {
    &&& error.kind == ErrorKind::NotFound
    &&& error.operation == OperationKind::Stat
    &&& error.path == Some(path)
    &&& error.provider == Some(provider)
    &&& error.required_capability is None
}

/// The transition of a stat check at `p.stage` on `event`.
pub open spec fn stat_step(p: StatView, ctx: ContextView, event: StatEventView) -> (
    StatView,
    ContextView,
    StatRequestView,
) {
    let done = StatView { stage: StatStage::Finished, ..p };
    let fail = |message: Seq<char>, with_error: bool| (done, ctx, StatRequestView::Fail { message, with_error });
    let record = |outcome: OutcomeView| (
        done,
        with_recorded(ctx, p.id, spec_capability(p.id), outcome),
        StatRequestView::Finish,
    );
    match (p.stage, event) {
        (StatStage::ResolveMissing, StatEventView::Resolved(Some(path))) => (
            StatView { path, stage: StatStage::StatMissing, ..p },
            ctx,
            StatRequestView::Stat { path },
        ),
        (StatStage::ResolveMissing, _) => fail("stat missing path preparation failed"@, true),
        (StatStage::StatMissing, StatEventView::Stat(Err(error))) => if missing_exact(error, p.path, p.provider) {
            record(OutcomeView::RejectedAsExpected)
        } else {
            fail("stat error context differs"@, true)
        },
        (StatStage::StatMissing, _) => fail("stat missing path succeeded"@, false),
        (StatStage::Seed, StatEventView::Seeded(SeedView::Supported(path))) => (
            StatView { path, stage: StatStage::StatSeeded, ..p },
            with_created(ctx, path),
            StatRequestView::Stat { path },
        ),
        (StatStage::Seed, StatEventView::Seeded(SeedView::Unsupported)) => record(
            OutcomeView::Unverified { reason: "fixture cannot seed a stat resource"@ },
        ),
        (StatStage::Seed, _) => fail("stat file preparation failed"@, true),
        (StatStage::StatSeeded, StatEventView::Stat(Ok(facts))) => if !facts.file_like {
            fail("stat/file-kind: seeded resource is not file-like"@, false)
        } else if facts.len != Some(stat_bytes().len() as u64) {
            fail("stat file length mismatch"@, false)
        } else {
            record(OutcomeView::Passed)
        },
        (StatStage::StatSeeded, _) => fail("seeded file stat failed"@, true),
        (_, _) => (p, ctx, StatRequestView::Finish),
    }
}

/// A stat check passes only when the seeded file is reported file-like
/// with the seeded length, and records a rejection only when the missing
/// path is reported missing with exact context.
pub proof fn law_stat_passes_only_on_exact_metadata(p: StatView, ctx: ContextView, event: StatEventView)
    requires
        stat_answers(p.stage, event),
    ensures
        p.stage == StatStage::StatSeeded && stat_step(p, ctx, event).2 is Finish ==> event == StatEventView::Stat(
            Ok(StatFacts { file_like: true, len: Some(stat_bytes().len() as u64) }),
        ) && stat_step(p, ctx, event).1 == with_recorded(ctx, p.id, spec_capability(p.id), OutcomeView::Passed),
        p.stage == StatStage::StatMissing && stat_step(p, ctx, event).2 is Finish ==> (
        event matches StatEventView::Stat(Err(error)) && missing_exact(error, p.path, p.provider)),
{
}

impl StatProbe {
    /// Starts the stat check `id` in the suite context, given the provider
    /// identity; returns the probe with its first request.
    pub fn new(ctx: &mut ContractContext, id: ContractCheckId, provider: String) -> (started: (StatProbe, StatRequest))
        ensures
            (started.0@, final(ctx)@, started.1@) == stat_start(id, provider@, old(ctx)@),
    {
        ctx.begin(id.as_str());
        let mut probe = StatProbe { id, provider, path: String::new(), stage: StatStage::Finished };
        match id {
            ContractCheckId::StatBasic => {
                probe.stage = StatStage::ResolveMissing;
                let name = ctx.relative_name("stat-missing");
                (probe, StatRequest::ResolvePath { name })
            },
            ContractCheckId::StatFileKind => {
                probe.stage = StatStage::Seed;
                let name = ctx.relative_name("stat-file");
                (probe, StatRequest::Seed { name, bytes: "stateful stat".as_bytes() })
            },
            _ => (probe, StatRequest::Fail { message: "selected entry is not a metadata check", with_error: false }),
        }
    }

    /// Returns the request the check waits on.
    pub fn stage(&self) -> (stage: StatStage)
        ensures
            stage == self@.stage,
    {
        self.stage
    }

    /// Returns whether `event` is the kind of answer the check waits for.
    pub fn expects(&self, event: &StatEvent) -> (answered: bool)
        ensures
            answered == stat_answers(self@.stage, event@),
    {
        match self.stage {
            StatStage::ResolveMissing => matches!(event, StatEvent::Resolved(_)),
            StatStage::Seed => matches!(event, StatEvent::Seeded(_)),
            StatStage::StatMissing | StatStage::StatSeeded => matches!(event, StatEvent::Stat(_)),
            StatStage::Finished => false,
        }
    }

    /// Ends the check with the failure `message`.
    fn fail(&mut self, message: &'static str, with_error: bool) -> (request: StatRequest)
        ensures
            final(self)@ == (StatView { stage: StatStage::Finished, ..old(self)@ }),
            request@ == (StatRequestView::Fail { message: message@, with_error }),
    {
        self.stage = StatStage::Finished;
        StatRequest::Fail { message, with_error }
    }

    /// Ends the check by recording `outcome`.
    fn record(&mut self, ctx: &mut ContractContext, outcome: ContractCheckOutcome) -> (request: StatRequest)
        ensures
            final(self)@ == (StatView { stage: StatStage::Finished, ..old(self)@ }),
            final(ctx)@ == with_recorded(old(ctx)@, old(self)@.id, spec_capability(old(self)@.id), outcome@),
            request@ == StatRequestView::Finish,
    {
        self.stage = StatStage::Finished;
        ctx.record_check(self.id, specification(self.id).capability, outcome);
        StatRequest::Finish
    }

    /// Takes the answer to the pending request, records what the step
    /// names in the suite context, and returns the next request.
    pub fn advance(&mut self, ctx: &mut ContractContext, event: StatEvent) -> (request: StatRequest)
        requires
            stat_answers(old(self)@.stage, event@),
        ensures
            (final(self)@, final(ctx)@, request@) == stat_step(old(self)@, old(ctx)@, event@),
    {
        match self.stage {
            StatStage::ResolveMissing => match event {
                StatEvent::Resolved(Some(path)) => {
                    self.path = path;
                    self.stage = StatStage::StatMissing;
                    StatRequest::Stat { path: self.path.clone() }
                },
                _ => self.fail("stat missing path preparation failed", true),
            },
            StatStage::StatMissing => match event {
                StatEvent::Stat(Err(error)) => {
                    let operation_ok = match error.operation {
                        OperationKind::Stat => true,
                        _ => false,
                    };
                    let exact = error.kind == ErrorKind::NotFound && operation_ok && text_is(&error.path, &self.path)
                        && text_is(&error.provider, &self.provider) && error.required_capability.is_none();
                    if exact {
                        self.record(ctx, ContractCheckOutcome::RejectedAsExpected)
                    } else {
                        self.fail("stat error context differs", true)
                    }
                },
                _ => self.fail("stat missing path succeeded", false),
            },
            StatStage::Seed => match event {
                StatEvent::Seeded(SeedOutcome::Supported(path)) => {
                    ctx.record_created(path.clone());
                    self.path = path;
                    self.stage = StatStage::StatSeeded;
                    StatRequest::Stat { path: self.path.clone() }
                },
                StatEvent::Seeded(SeedOutcome::Unsupported) => self.record(
                    ctx,
                    ContractCheckOutcome::Unverified { reason: String::from_str("fixture cannot seed a stat resource") },
                ),
                _ => self.fail("stat file preparation failed", true),
            },
            StatStage::StatSeeded => match event {
                StatEvent::Stat(Ok(facts)) => {
                    let expected = "stateful stat".as_bytes().len() as u64;
                    let length_ok = match facts.len {
                        Some(len) => len == expected,
                        None => false,
                    };
                    if !facts.file_like {
                        self.fail("stat/file-kind: seeded resource is not file-like", false)
                    } else if !length_ok {
                        self.fail("stat file length mismatch", false)
                    } else {
                        self.record(ctx, ContractCheckOutcome::Passed)
                    }
                },
                _ => self.fail("seeded file stat failed", true),
            },
            StatStage::Finished => StatRequest::Finish,
        }
    }
}

} // verus!
