//! Listing evidence for the list checks, as a step machine: a directory
//! listing must name exactly its prepared children, and a paged prefix
//! listing with metadata exactly the prepared entries under the prefix.
use vstd::prelude::*;
use vstd::string::StringSliceAdditionalSpecFns;

use crate::capability::FileSystemCapability;
use crate::contract_check_id::ContractCheckId;
use crate::contract_check_outcome::ContractCheckOutcome;
use crate::contract_check_outcome::OutcomeView;
use crate::contract_context::ContextView;
use crate::contract_context::ContractContext;
use crate::contract_context::begun;
use crate::contract_context::relative_in;
use crate::contract_context::with_created;
use crate::contract_context::with_recorded;
use crate::fs_facts::ErrorFacts;
use crate::fs_facts::ErrorFactsView;
use crate::fs_facts::ErrorKind;
use crate::fs_facts::OperationKind;
use crate::fs_facts::SeedOutcome;
use crate::fs_facts::SeedView;
use crate::fs_facts::seed_view;
use crate::fs_facts::text_is;
use crate::fs_facts::text_of;
use crate::listing::same_entries;
use crate::listing::same_entries_spec;
use crate::listing::texts;

verus! {

/// The next thing the driver does for the list checks.
#[derive(Debug, PartialEq, Eq)]
pub enum ListRequest {
    /// Resolve this fixture-relative name to a provider path.
    ResolvePath {
        /// The fixture-relative name.
        name: String,
    },
    /// Ask the fixture to seed a file at this name holding `bytes`.
    Seed {
        /// The fixture-relative name.
        name: String,
        /// The bytes to seed.
        bytes: &'static [u8],
    },
    /// List `path` through the facade and collect every entry; with
    /// `prefixed`, ask the fixture for the prefix of the `prefixed` subtree
    /// and list it one entry per page with metadata.
    List {
        /// The listed directory.
        path: String,
        /// Whether the prefixed, paged listing is requested.
        prefixed: bool,
    },
    /// The checks were recorded.
    Finish,
    /// The checks failed with `message`.
    Fail {
        /// The diagnostic.
        message: &'static str,
        /// Whether the error just answered is attached as the source.
        with_error: bool,
    },
}

/// The abstract form of a list request.
pub enum ListRequestView {
    /// Resolve a name.
    ResolvePath { name: Seq<char> },
    /// Seed a file.
    Seed { name: Seq<char>, bytes: Seq<u8> },
    /// List a directory.
    List { path: Seq<char>, prefixed: bool },
    /// The checks were recorded.
    Finish,
    /// The checks failed.
    Fail { message: Seq<char>, with_error: bool },
}

impl View for ListRequest {
    type V = ListRequestView;

    open spec fn view(&self) -> ListRequestView {
        match self {
            ListRequest::ResolvePath { name } => ListRequestView::ResolvePath { name: name@ },
            ListRequest::Seed { name, bytes } => ListRequestView::Seed { name: name@, bytes: bytes@ },
            ListRequest::List { path, prefixed } => ListRequestView::List { path: path@, prefixed: *prefixed },
            ListRequest::Finish => ListRequestView::Finish,
            ListRequest::Fail { message, with_error } => ListRequestView::Fail {
                message: message@,
                with_error: *with_error,
            },
        }
    }
}

/// How a listing answered.
pub enum Listing {
    /// The listing could not be opened: its error, when the facade gave one.
    OpenFailed(Option<ErrorFacts>),
    /// The fixture could not give the prefix.
    PrefixFailed,
    /// Reading the stream failed.
    StreamFailed,
    /// The listed entries' paths, and whether each came with metadata.
    Entries(Vec<String>, bool),
}

/// The answer to the pending list request.
pub enum ListEvent {
    /// The resolved path, or `None` when the fixture could not map it.
    Resolved(Option<String>),
    /// The fixture's seeding answered.
    Seeded(SeedOutcome),
    /// A listing answered.
    Listed(Listing),
}

/// The abstract form of a listing answer.
pub enum ListingView {
    /// Opening failed.
    OpenFailed(Option<ErrorFactsView>),
    /// The prefix was unavailable.
    PrefixFailed,
    /// The stream failed.
    StreamFailed,
    /// The entries, and whether all came with metadata.
    Entries(Seq<Seq<char>>, bool),
}

/// The abstract form of a list answer.
pub enum ListEventView {
    /// A resolved path.
    Resolved(Option<Seq<char>>),
    /// A seeding answer.
    Seeded(SeedView),
    /// A listing answer.
    Listed(ListingView),
}

impl View for ListEvent {
    type V = ListEventView;

    open spec fn view(&self) -> ListEventView {
        match self {
            ListEvent::Resolved(path) => ListEventView::Resolved(text_of(*path)),
            ListEvent::Seeded(outcome) => ListEventView::Seeded(seed_view(*outcome)),
            ListEvent::Listed(Listing::OpenFailed(None)) => ListEventView::Listed(ListingView::OpenFailed(None)),
            ListEvent::Listed(Listing::OpenFailed(Some(error))) => ListEventView::Listed(
                ListingView::OpenFailed(Some(error@)),
            ),
            ListEvent::Listed(Listing::PrefixFailed) => ListEventView::Listed(ListingView::PrefixFailed),
            ListEvent::Listed(Listing::StreamFailed) => ListEventView::Listed(ListingView::StreamFailed),
            ListEvent::Listed(Listing::Entries(paths, metadata)) => ListEventView::Listed(
                ListingView::Entries(texts(paths@), *metadata),
            ),
        }
    }
}

/// The request the list checks wait on.
#[derive(Clone, Copy, Debug, PartialEq, Eq, Structural)]
pub enum ListStage {
    /// The listed directory is being resolved.
    Resolve,
    /// A listing that must be refused runs.
    Rejected,
    /// The first child is seeded.
    SeedFirst,
    /// The second child is seeded.
    SeedSecond,
    /// The directory is listed.
    ListBasic,
    /// The first entry under the prefix is seeded.
    SeedNested,
    /// The second entry under the prefix is seeded.
    SeedNestedSecond,
    /// The prefix is listed page by page.
    ListPrefix,
    /// The checks have finished.
    Finished,
}

/// The abstract state of the list checks.
pub struct ListView {
    /// Whether listing is advertised.
    pub capable: bool,
    /// The provider identity errors must report.
    pub provider: Seq<char>,
    /// The listed directory, once known.
    pub root: Seq<char>,
    /// The seeded entries, in seeding order.
    pub seeded: Seq<Seq<char>>,
    /// The stage.
    pub stage: ListStage,
}

/// Drives the list checks.
pub struct ListProbe {
    capable: bool,
    provider: String,
    root: String,
    seeded: Vec<String>,
    stage: ListStage,
}

impl View for ListProbe {
    type V = ListView;

    closed spec fn view(&self) -> ListView {
        ListView {
            capable: self.capable,
            provider: self.provider@,
            root: self.root@,
            seeded: texts(self.seeded@),
            stage: self.stage,
        }
    }
}

/// The capability the list checks are recorded under.
pub open spec fn list_capability() -> Option<FileSystemCapability> {
    Some(FileSystemCapability::List)
}

/// The context after all three list checks recorded `outcome`.
pub open spec fn all_recorded(ctx: ContextView, outcome: OutcomeView) -> ContextView {
    with_recorded(
        with_recorded(
            with_recorded(ctx, ContractCheckId::ListBasic, list_capability(), outcome),
            ContractCheckId::ListPrefix,
            list_capability(),
            outcome,
        ),
        ContractCheckId::ListPagination,
        list_capability(),
        outcome,
    )
}

/// The position of the last `/` among the first `end` characters of
/// `text`, or `-1` when there is none.
pub open spec fn last_slash(text: Seq<char>, end: int) -> int
    decreases end,
{
    if end <= 0 {
        -1
    } else if text[end - 1] == '/' {
        end - 1
    } else {
        last_slash(text, end - 1)
    }
}

/// The text of the directory holding `path`: what precedes its last `/`,
/// when that is not empty.
pub open spec fn parent_text(path: Seq<char>) -> Option<Seq<char>> {
    let slash = last_slash(path, path.len() as int);
    if slash > 0 {
        Some(path.subrange(0, slash))
    } else {
        None
    }
}

/// The entries a prefix listing must name: the two seeded under the
/// prefix, and their directory when the listing names it.
pub open spec fn prefix_expected(seeded: Seq<Seq<char>>, listed: Seq<Seq<char>>, parent: Seq<char>) -> Seq<Seq<char>> {
    let nested = seq![seeded[2], seeded[3]];
    if listed.contains(parent) {
        nested.push(parent)
    } else {
        nested
    }
}

/// The seeding that follows `stage`: its name and bytes.
pub open spec fn seed_of(ctx: ContextView, stage: ListStage) -> ListRequestView {
    match stage {
        ListStage::SeedFirst => ListRequestView::Seed {
            name: relative_in(ctx, "async-list/first"@),
            bytes: "first".spec_bytes(),
        },
        ListStage::SeedSecond => ListRequestView::Seed {
            name: relative_in(ctx, "async-list/second"@),
            bytes: "second".spec_bytes(),
        },
        ListStage::SeedNested => ListRequestView::Seed {
            name: relative_in(ctx, "async-list/prefixed/nested"@),
            bytes: "nested".spec_bytes(),
        },
        _ => ListRequestView::Seed {
            name: relative_in(ctx, "async-list/prefixed/second"@),
            bytes: "second nested".spec_bytes(),
        },
    }
}

/// The start of the list checks over the suite context: the phase begins
/// and the listed directory is resolved.
pub open spec fn list_start(capable: bool, provider: Seq<char>, ctx: ContextView) -> (
    ListView,
    ContextView,
    ListRequestView,
) {
    let ctx = begun(ctx, "list"@);
    (
        ListView { capable, provider, root: Seq::empty(), seeded: Seq::empty(), stage: ListStage::Resolve },
        ctx,
        ListRequestView::ResolvePath { name: relative_in(ctx, "async-list"@) },
    )
}

/// The kind of answer a stage waits for.
pub open spec fn list_answers(stage: ListStage, event: ListEventView) -> bool {
    match stage {
        ListStage::Resolve => event is Resolved,
        ListStage::Rejected | ListStage::ListBasic | ListStage::ListPrefix => event is Listed,
        ListStage::Finished => false,
        _ => event is Seeded,
    }
}

/// Whether an unadvertised listing was refused exactly: an unsupported
/// capability of listing on the directory, naming the provider and list.
pub open spec fn listing_refusal_exact(error: ErrorFactsView, root: Seq<char>, provider: Seq<char>) -> bool {
    &&& error.kind == ErrorKind::UnsupportedCapability
    &&& error.operation == OperationKind::List
    &&& error.path == Some(root)
    &&& error.provider == Some(provider)
}

/// The stage after seeding at `stage`.
pub open spec fn after_seed(stage: ListStage) -> ListStage {
    match stage {
        ListStage::SeedFirst => ListStage::SeedSecond,
        ListStage::SeedSecond => ListStage::ListBasic,
        ListStage::SeedNested => ListStage::SeedNestedSecond,
        _ => ListStage::ListPrefix,
    }
}

/// The transition of the list checks at `p.stage` on `event`, in context
/// `ctx` whose current phase names the seeded files.
pub open spec fn list_step(p: ListView, ctx: ContextView, event: ListEventView) -> (
    ListView,
    ContextView,
    ListRequestView,
) {
    let done = ListView { stage: ListStage::Finished, ..p };
    let fail = |message: Seq<char>, with_error: bool| (done, ctx, ListRequestView::Fail { message, with_error });
    match (p.stage, event) {
        (ListStage::Resolve, ListEventView::Resolved(Some(root))) => if p.capable {
            (ListView { root, stage: ListStage::SeedFirst, ..p }, ctx, seed_of(ctx, ListStage::SeedFirst))
        } else {
            (ListView { root, stage: ListStage::Rejected, ..p }, ctx, ListRequestView::List { path: root, prefixed: false })
        },
        (ListStage::Resolve, _) => fail("list contract: path preparation failed"@, true),
        (ListStage::Rejected, ListEventView::Listed(ListingView::OpenFailed(Some(error)))) => if !listing_refusal_exact(
            error,
            p.root,
            p.provider,
        ) {
            fail("list contract: error context differs"@, true)
        } else if error.required_capability != list_capability() {
            fail("list contract: missing required-capability context"@, true)
        } else {
            (done, all_recorded(ctx, OutcomeView::RejectedAsExpected), ListRequestView::Finish)
        },
        (ListStage::Rejected, _) => fail("list contract: unadvertised listing succeeded"@, false),
        (ListStage::ListBasic, ListEventView::Listed(ListingView::Entries(listed, _))) => if same_entries_spec(
            listed,
            seq![p.seeded[0], p.seeded[1]],
        ) {
            (
                ListView { stage: ListStage::SeedNested, ..p },
                with_recorded(ctx, ContractCheckId::ListBasic, list_capability(), OutcomeView::Passed),
                seed_of(ctx, ListStage::SeedNested),
            )
        } else {
            fail("list/basic: direct children mismatch"@, false)
        },
        (ListStage::ListBasic, ListEventView::Listed(ListingView::StreamFailed)) => fail(
            "list/basic: stream error"@,
            true,
        ),
        (ListStage::ListBasic, _) => fail("list contract: advertised listing failed"@, true),
        (ListStage::ListPrefix, ListEventView::Listed(ListingView::Entries(listed, metadata))) => if !metadata {
            fail("list contract: requested entry metadata is missing"@, false)
        } else {
            match parent_text(p.seeded[2]) {
                None => fail("list contract: nested path must have a parent"@, false),
                Some(parent) => if same_entries_spec(listed, prefix_expected(p.seeded, listed, parent)) {
                    (
                        done,
                        with_recorded(
                            with_recorded(ctx, ContractCheckId::ListPrefix, list_capability(), OutcomeView::Passed),
                            ContractCheckId::ListPagination,
                            list_capability(),
                            OutcomeView::Passed,
                        ),
                        ListRequestView::Finish,
                    )
                } else {
                    fail("list contract: paged prefix results mismatch"@, false)
                },
            }
        },
        (ListStage::ListPrefix, ListEventView::Listed(ListingView::PrefixFailed)) => fail(
            "list contract: fixture prefix failed"@,
            true,
        ),
        (ListStage::ListPrefix, ListEventView::Listed(ListingView::StreamFailed)) => fail(
            "list/prefix: prefix stream error"@,
            true,
        ),
        (ListStage::ListPrefix, _) => fail("list contract: prefix listing failed"@, true),
        (ListStage::Finished, _) => (p, ctx, ListRequestView::Finish),
        (_, ListEventView::Seeded(SeedView::Supported(path))) => {
            let next = after_seed(p.stage);
            let p = ListView { seeded: p.seeded.push(path), stage: next, ..p };
            let ctx = with_created(ctx, path);
            if next == ListStage::ListBasic {
                (p, ctx, ListRequestView::List { path: p.root, prefixed: false })
            } else if next == ListStage::ListPrefix {
                (p, ctx, ListRequestView::List { path: p.root, prefixed: true })
            } else {
                (p, ctx, seed_of(ctx, next))
            }
        },
        (_, ListEventView::Seeded(SeedView::Unsupported)) => fail(
            "list contract: advertised capability requires fixture.seed_file support"@,
            false,
        ),
        (_, _) => fail("async contract: fixture seed failed"@, true),
    }
}

/// Whether the list checks' state is one they can be in: each stage has
/// seeded exactly the files before it.
pub open spec fn list_consistent(p: ListView) -> bool {
    &&& p.stage == ListStage::Resolve || p.stage == ListStage::SeedFirst ==> p.seeded.len() == 0
    &&& p.stage == ListStage::SeedSecond ==> p.seeded.len() == 1
    &&& p.stage == ListStage::ListBasic || p.stage == ListStage::SeedNested ==> p.seeded.len() == 2
    &&& p.stage == ListStage::SeedNestedSecond ==> p.seeded.len() == 3
    &&& p.stage == ListStage::ListPrefix ==> p.seeded.len() == 4
}

/// Every step keeps the list checks' state one they can be in.
pub proof fn law_list_step_stays_consistent(p: ListView, ctx: ContextView, event: ListEventView)
    requires
        list_consistent(p),
        list_answers(p.stage, event),
    ensures
        list_consistent(list_step(p, ctx, event).0),
{
}

/// The basic listing passes only when it names exactly the two seeded
/// children, each once, in any order; the prefix listing passes only when
/// every entry came with metadata and it names exactly the two entries
/// seeded under the prefix, with their directory at most once.
pub proof fn law_listing_passes_only_on_exact_entries(p: ListView, ctx: ContextView, event: ListEventView)
    requires
        list_consistent(p),
        list_answers(p.stage, event),
    ensures
        p.stage == ListStage::ListBasic && list_step(p, ctx, event).1 != ctx ==> (
        event matches ListEventView::Listed(ListingView::Entries(listed, _)) && listed.to_multiset()
            =~= seq![p.seeded[0], p.seeded[1]].to_multiset()),
        p.stage == ListStage::ListPrefix && list_step(p, ctx, event).2 is Finish ==> (
        event matches ListEventView::Listed(ListingView::Entries(listed, metadata)) && metadata && (
        parent_text(p.seeded[2]) matches Some(parent) && listed.to_multiset() =~= prefix_expected(
            p.seeded,
            listed,
            parent,
        ).to_multiset())),
{
}

impl ListProbe {
    /// Starts the list checks in the suite context, given whether listing
    /// is advertised and the provider identity; returns the probe with its
    /// first request.
    pub fn new(ctx: &mut ContractContext, capable: bool, provider: String) -> (started: (ListProbe, ListRequest))
        ensures
            (started.0@, final(ctx)@, started.1@) == list_start(capable, provider@, old(ctx)@),
            list_consistent(started.0@),
    {
        ctx.begin("list");
        let name = ctx.relative_name("async-list");
        let probe = ListProbe {
            capable,
            provider,
            root: String::new(),
            seeded: Vec::new(),
            stage: ListStage::Resolve,
        };
        proof {
            assert(texts(probe.seeded@) =~= Seq::<Seq<char>>::empty());
        }
        (probe, ListRequest::ResolvePath { name })
    }

    /// Returns the request the checks wait on.
    pub fn stage(&self) -> (stage: ListStage)
        ensures
            stage == self@.stage,
    {
        self.stage
    }

    /// Returns whether `event` is the kind of answer the checks wait for.
    pub fn expects(&self, event: &ListEvent) -> (answered: bool)
        ensures
            answered == list_answers(self@.stage, event@),
    {
        match self.stage {
            ListStage::Resolve => matches!(event, ListEvent::Resolved(_)),
            ListStage::Rejected | ListStage::ListBasic | ListStage::ListPrefix => matches!(event, ListEvent::Listed(_)),
            ListStage::Finished => false,
            _ => matches!(event, ListEvent::Seeded(_)),
        }
    }

    /// Returns the seeding that follows `stage`.
    fn seed_request(ctx: &ContractContext, stage: ListStage) -> (request: ListRequest)
        ensures
            request@ == seed_of(ctx@, stage),
    {
        match stage {
            ListStage::SeedFirst => ListRequest::Seed {
                name: ctx.relative_name("async-list/first"),
                bytes: "first".as_bytes(),
            },
            ListStage::SeedSecond => ListRequest::Seed {
                name: ctx.relative_name("async-list/second"),
                bytes: "second".as_bytes(),
            },
            ListStage::SeedNested => ListRequest::Seed {
                name: ctx.relative_name("async-list/prefixed/nested"),
                bytes: "nested".as_bytes(),
            },
            _ => ListRequest::Seed {
                name: ctx.relative_name("async-list/prefixed/second"),
                bytes: "second nested".as_bytes(),
            },
        }
    }

    /// Ends the checks with the failure `message`.
    fn fail(&mut self, message: &'static str, with_error: bool) -> (request: ListRequest)
        ensures
            final(self)@ == (ListView { stage: ListStage::Finished, ..old(self)@ }),
            request@ == (ListRequestView::Fail { message: message@, with_error }),
    {
        self.stage = ListStage::Finished;
        ListRequest::Fail { message, with_error }
    }

    /// Returns the text of the directory holding `path`, when it has one.
    fn parent_of(path: &String) -> (parent: Option<String>)
        ensures
            match parent {
                Some(text) => parent_text(path@) == Some(text@),
                None => parent_text(path@) is None,
            },
    {
        let count = path.as_str().unicode_len();
        let mut end: usize = count;
        while end > 0
            invariant
                count == path@.len(),
                end <= count,
                last_slash(path@, count as int) == last_slash(path@, end as int),
            ensures
                end <= count,
                last_slash(path@, count as int) == (if end == 0 {
                    -1
                } else {
                    end - 1
                }),
            decreases end,
        {
            if path.as_str().get_char(end - 1) == '/' {
                break;
            }
            end = end - 1;
        }
        if end <= 1 {
            return None;
        }
        Some(String::from_str(path.as_str().substring_char(0, end - 1)))
    }

    /// Returns whether `listed` names `path`.
    fn names(listed: &Vec<String>, path: &String) -> (found: bool)
        ensures
            found == texts(listed@).contains(path@),
    {
        let mut index: usize = 0;
        while index < listed.len()
            invariant
                index <= listed.len(),
                forall|m: int| 0 <= m < index ==> texts(listed@)[m] != path@,
            decreases listed.len() - index,
        {
            if listed[index] == *path {
                proof {
                    assert(texts(listed@)[index as int] == path@);
                }
                return true;
            }
            index = index + 1;
        }
        false
    }

    /// Takes the answer to the pending request, records what the step
    /// names in the suite context, and returns the next request.
    pub fn advance(&mut self, ctx: &mut ContractContext, event: ListEvent) -> (request: ListRequest)
        requires
            list_consistent(old(self)@),
            list_answers(old(self)@.stage, event@),
        ensures
            (final(self)@, final(ctx)@, request@) == list_step(old(self)@, old(ctx)@, event@),
            list_consistent(final(self)@),
    {
        let capability = Some(FileSystemCapability::List);
        match self.stage {
            ListStage::Resolve => match event {
                ListEvent::Resolved(Some(root)) => {
                    self.root = root;
                    if self.capable {
                        self.stage = ListStage::SeedFirst;
                        Self::seed_request(ctx, ListStage::SeedFirst)
                    } else {
                        self.stage = ListStage::Rejected;
                        ListRequest::List { path: self.root.clone(), prefixed: false }
                    }
                },
                _ => self.fail("list contract: path preparation failed", true),
            },
            ListStage::Rejected => match event {
                ListEvent::Listed(Listing::OpenFailed(Some(error))) => {
                    let operation_ok = match error.operation {
                        OperationKind::List => true,
                        _ => false,
                    };
                    let exact = error.kind == ErrorKind::UnsupportedCapability && operation_ok && text_is(
                        &error.path,
                        &self.root,
                    ) && text_is(&error.provider, &self.provider);
                    let names_list = match error.required_capability {
                        Some(FileSystemCapability::List) => true,
                        _ => false,
                    };
                    if !exact {
                        self.fail("list contract: error context differs", true)
                    } else if !names_list {
                        self.fail("list contract: missing required-capability context", true)
                    } else {
                        self.stage = ListStage::Finished;
                        ctx.record_check(ContractCheckId::ListBasic, capability, ContractCheckOutcome::RejectedAsExpected);
                        ctx.record_check(ContractCheckId::ListPrefix, capability, ContractCheckOutcome::RejectedAsExpected);
                        ctx.record_check(
                            ContractCheckId::ListPagination,
                            capability,
                            ContractCheckOutcome::RejectedAsExpected,
                        );
                        ListRequest::Finish
                    }
                },
                _ => self.fail("list contract: unadvertised listing succeeded", false),
            },
            ListStage::ListBasic => match event {
                ListEvent::Listed(Listing::Entries(listed, _)) => {
                    let expected = vec![self.seeded[0].clone(), self.seeded[1].clone()];
                    proof {
                        assert(texts(expected@) =~= seq![self@.seeded[0], self@.seeded[1]]);
                    }
                    if same_entries(&listed, &expected) {
                        self.stage = ListStage::SeedNested;
                        ctx.record_check(ContractCheckId::ListBasic, capability, ContractCheckOutcome::Passed);
                        Self::seed_request(ctx, ListStage::SeedNested)
                    } else {
                        self.fail("list/basic: direct children mismatch", false)
                    }
                },
                ListEvent::Listed(Listing::StreamFailed) => self.fail("list/basic: stream error", true),
                _ => self.fail("list contract: advertised listing failed", true),
            },
            ListStage::ListPrefix => match event {
                ListEvent::Listed(Listing::Entries(listed, metadata)) => {
                    if !metadata {
                        return self.fail("list contract: requested entry metadata is missing", false);
                    }
                    match Self::parent_of(&self.seeded[2]) {
                        None => self.fail("list contract: nested path must have a parent", false),
                        Some(parent) => {
                            let mut expected = vec![self.seeded[2].clone(), self.seeded[3].clone()];
                            if Self::names(&listed, &parent) {
                                expected.push(parent);
                            }
                            proof {
                                assert(texts(expected@) =~= prefix_expected(
                                    self@.seeded,
                                    texts(listed@),
                                    parent_text(self@.seeded[2])->0,
                                ));
                            }
                            if same_entries(&listed, &expected) {
                                self.stage = ListStage::Finished;
                                ctx.record_check(ContractCheckId::ListPrefix, capability, ContractCheckOutcome::Passed);
                                ctx.record_check(
                                    ContractCheckId::ListPagination,
                                    capability,
                                    ContractCheckOutcome::Passed,
                                );
                                ListRequest::Finish
                            } else {
                                self.fail("list contract: paged prefix results mismatch", false)
                            }
                        },
                    }
                },
                ListEvent::Listed(Listing::PrefixFailed) => self.fail("list contract: fixture prefix failed", true),
                ListEvent::Listed(Listing::StreamFailed) => self.fail("list/prefix: prefix stream error", true),
                _ => self.fail("list contract: prefix listing failed", true),
            },
            ListStage::Finished => ListRequest::Finish,
            _ => match event {
                ListEvent::Seeded(SeedOutcome::Supported(path)) => {
                    let ghost seeded = path@;
                    ctx.record_created(path.clone());
                    self.seeded.push(path);
                    proof {
                        assert(texts(self.seeded@) =~= old(self)@.seeded.push(seeded));
                    }
                    let next = match self.stage {
                        ListStage::SeedFirst => ListStage::SeedSecond,
                        ListStage::SeedSecond => ListStage::ListBasic,
                        ListStage::SeedNested => ListStage::SeedNestedSecond,
                        _ => ListStage::ListPrefix,
                    };
                    self.stage = next;
                    match next {
                        ListStage::ListBasic => ListRequest::List { path: self.root.clone(), prefixed: false },
                        ListStage::ListPrefix => ListRequest::List { path: self.root.clone(), prefixed: true },
                        _ => Self::seed_request(ctx, next),
                    }
                },
                ListEvent::Seeded(SeedOutcome::Unsupported) => self.fail(
                    "list contract: advertised capability requires fixture.seed_file support",
                    false,
                ),
                _ => self.fail("async contract: fixture seed failed", true),
            },
        }
    }
}

} // verus!
