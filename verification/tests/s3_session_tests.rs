use qubit_fs_testkit::s3::error_mapper::StoreErrorClass;
use qubit_fs_testkit::s3::error_mapper::StoreFailureKind;
use qubit_fs_testkit::s3::listing::ListingStep;
use qubit_fs_testkit::s3::listing::SCAN_BUDGET;
use qubit_fs_testkit::s3::listing::listing_step;
use qubit_fs_testkit::s3::reader::ByteRange;
use qubit_fs_testkit::s3::reader::copy_len;
use qubit_fs_testkit::s3::reader::range_overflow_message;
use qubit_fs_testkit::s3::reader::read_range;
use qubit_fs_testkit::s3::write_session::AbortVerdict;
use qubit_fs_testkit::s3::write_session::CommitVerdict;
use qubit_fs_testkit::s3::write_session::FailureState;
use qubit_fs_testkit::s3::write_session::PutModeChoice;
use qubit_fs_testkit::s3::write_session::PutResult;
use qubit_fs_testkit::s3::write_session::SessionState;
use qubit_fs_testkit::s3::write_session::WRITE_LIMIT;
use qubit_fs_testkit::s3::write_session::WriteAdmission;
use qubit_fs_testkit::s3::write_session::WriteDisposition;
use qubit_fs_testkit::s3::write_session::WriteExtras;
use qubit_fs_testkit::s3::write_session::WritePreconditionKind;
use qubit_fs_testkit::s3::write_session::WriteSession;
use qubit_fs_testkit::s3::write_session::admit_options;
use qubit_fs_testkit::s3::write_session::put_mode;
use qubit_fs_testkit::s3::write_session::unsupported_options_message;

fn no_extras() -> WriteExtras {
    WriteExtras {
        create_parent: false,
        atomicity_required: false,
        durability_required: false,
        content_type: false,
        checksum: false,
        user_metadata: false,
    }
}

#[test]
fn put_modes_follow_disposition_and_precondition() {
    assert_eq!(put_mode(WriteDisposition::CreateNew, WritePreconditionKind::Unconditional), Some(PutModeChoice::Create));
    assert_eq!(put_mode(WriteDisposition::CreateNew, WritePreconditionKind::IfAbsent), Some(PutModeChoice::Create));
    assert_eq!(put_mode(WriteDisposition::CreateOrReplace, WritePreconditionKind::IfAbsent), Some(PutModeChoice::Create));
    assert_eq!(put_mode(WriteDisposition::CreateOrReplace, WritePreconditionKind::IfMatch), Some(PutModeChoice::Update));
    assert_eq!(put_mode(WriteDisposition::CreateOrReplace, WritePreconditionKind::Unconditional), None);
    assert_eq!(put_mode(WriteDisposition::CreateNew, WritePreconditionKind::IfMatch), None);
    assert_eq!(put_mode(WriteDisposition::Append, WritePreconditionKind::Unconditional), None);
    assert_eq!(put_mode(WriteDisposition::Append, WritePreconditionKind::IfAbsent), None);
}

#[test]
fn unsupported_extras_reject_the_writer() {
    let mut extras = no_extras();
    assert_eq!(
        admit_options(WriteDisposition::CreateNew, WritePreconditionKind::Unconditional, &extras),
        Some(PutModeChoice::Create)
    );
    extras.checksum = true;
    assert_eq!(
        admit_options(WriteDisposition::CreateNew, WritePreconditionKind::Unconditional, &extras),
        None
    );
    assert_eq!(
        unsupported_options_message(),
        "S3 fixture supports create-new or ETag-conditional replacement with best-effort untyped writes"
    );
}

#[test]
fn writes_are_buffered_up_to_the_limit() {
    let mut session = WriteSession::new(false);
    assert_eq!(session.admit_write(10), WriteAdmission::Accepted);
    assert_eq!(session.buffered(), 10);
    assert_eq!(session.admit_write(WRITE_LIMIT), WriteAdmission::LimitExceeded);
    assert_eq!(session.buffered(), 10);
    assert_eq!(session.admit_write(WRITE_LIMIT - 10), WriteAdmission::Accepted);
    assert_eq!(session.buffered(), WRITE_LIMIT);
    assert_eq!(session.admit_write(usize::MAX), WriteAdmission::LimitExceeded);
}

#[test]
fn successful_commit_publishes_once() {
    let mut session = WriteSession::new(false);
    assert_eq!(session.admit_write(5), WriteAdmission::Accepted);
    assert_eq!(session.begin_commit(), CommitVerdict::Dispatch);
    assert_eq!(session.state(), SessionState::Indeterminate);
    assert_eq!(session.finish_commit(PutResult::Stored), CommitVerdict::Committed(5));
    assert_eq!(session.state(), SessionState::Published);
    assert_eq!(session.buffered(), 0);
    assert_eq!(session.admit_write(1), WriteAdmission::Closed);
    assert_eq!(
        session.begin_commit(),
        CommitVerdict::AlreadyCommitted(FailureState::Published)
    );
    assert_eq!(session.abort(false), AbortVerdict::Published);
}

#[test]
fn create_only_collision_reports_failed_precondition() {
    let mut session = WriteSession::new(true);
    assert_eq!(session.admit_write(3), WriteAdmission::Accepted);
    assert_eq!(session.begin_commit(), CommitVerdict::Dispatch);
    assert_eq!(
        session.finish_commit(PutResult::Rejected(StoreErrorClass::AlreadyExists)),
        CommitVerdict::Failed {
            kind: StoreFailureKind::PreconditionFailed,
            conditional_creation: true,
            state: FailureState::NotPublished,
        }
    );
    assert_eq!(session.state(), SessionState::Open);
    assert_eq!(session.buffered(), 3);
}

#[test]
fn unknown_put_failure_is_indeterminate() {
    let mut session = WriteSession::new(false);
    assert_eq!(session.begin_commit(), CommitVerdict::Dispatch);
    assert_eq!(
        session.finish_commit(PutResult::Rejected(StoreErrorClass::Other)),
        CommitVerdict::Failed {
            kind: StoreFailureKind::Io,
            conditional_creation: false,
            state: FailureState::Indeterminate,
        }
    );
    assert_eq!(session.state(), SessionState::Indeterminate);
    assert_eq!(
        session.begin_commit(),
        CommitVerdict::AlreadyCommitted(FailureState::Indeterminate)
    );
    assert_eq!(session.abort(false), AbortVerdict::Indeterminate);
}

#[test]
fn abort_discards_unpublished_bytes_unless_injected() {
    let mut session = WriteSession::new(false);
    assert_eq!(session.admit_write(7), WriteAdmission::Accepted);
    assert_eq!(session.abort(true), AbortVerdict::InjectedFailure);
    assert_eq!(session.buffered(), 7);
    assert_eq!(session.abort(false), AbortVerdict::NotPublished);
    assert_eq!(session.buffered(), 0);
    assert_eq!(session.state(), SessionState::Open);
}

#[test]
fn read_ranges_are_exact() {
    assert_eq!(read_range(None, None), Some(ByteRange::Whole));
    assert_eq!(read_range(Some(0), None), Some(ByteRange::Whole));
    assert_eq!(read_range(Some(4), None), Some(ByteRange::From { start: 4 }));
    assert_eq!(
        read_range(Some(4), Some(6)),
        Some(ByteRange::Bounded { start: 4, end: 10 })
    );
    assert_eq!(
        read_range(None, Some(3)),
        Some(ByteRange::Bounded { start: 0, end: 3 })
    );
    assert_eq!(read_range(Some(u64::MAX), Some(1)), None);
    assert_eq!(range_overflow_message(), "read range overflows");
}

#[test]
fn copies_never_exceed_request_or_chunk() {
    assert_eq!(copy_len(4, 10, 3), 4);
    assert_eq!(copy_len(9, 10, 3), 7);
    assert_eq!(copy_len(5, 10, 10), 0);
}

#[test]
fn listing_steps_follow_namespace_scope_and_filter() {
    assert_eq!(
        listing_step("run", "dir/", "a", Some("run/dir/abc"), 0),
        ListingStep::Emit("dir/abc".to_owned())
    );
    assert_eq!(listing_step("run", "dir/", "b", Some("run/dir/abc"), 0), ListingStep::Skip);
    assert_eq!(listing_step("run", "other/", "", Some("run/dir/abc"), 0), ListingStep::Skip);
    assert_eq!(
        listing_step("run", "", "", Some("runner/dir/abc"), 0),
        ListingStep::EscapedNamespace
    );
    assert_eq!(
        listing_step("run", "", "", Some("run/dir/abc"), SCAN_BUDGET),
        ListingStep::BudgetExceeded
    );
    assert_eq!(
        listing_step("run", "", "", Some("run/文件"), SCAN_BUDGET - 1),
        ListingStep::Emit("文件".to_owned())
    );
    assert_eq!(listing_step("run", "", "", None, 3), ListingStep::SdkFailed);
    assert_eq!(listing_step("run", "", "", None, SCAN_BUDGET), ListingStep::BudgetExceeded);
}

fn store_error(kind: &str) -> object_store::Error {
    let source: Box<dyn std::error::Error + Send + Sync> = Box::new(std::io::Error::other("SDK source"));
    match kind {
        "exists" => object_store::Error::AlreadyExists {
            path: "run/key".into(),
            source,
        },
        "precondition" => object_store::Error::Precondition {
            path: "run/key".into(),
            source,
        },
        _ => object_store::Error::NotFound {
            path: "run/key".into(),
            source,
        },
    }
}

#[test]
fn settled_puts_carry_verdict_and_facade_error() {
    let mut created = WriteSession::new(true);
    assert_eq!(created.admit_write(4), WriteAdmission::Accepted);
    assert_eq!(created.commit_refusal(), None);
    assert_eq!(created.begin_commit(), CommitVerdict::Dispatch);
    let (verdict, error) = created.settle_put(Err(store_error("exists")), qubit_fs::error::FsOperation::CommitWriter);
    assert_eq!(
        verdict,
        CommitVerdict::Failed {
            kind: StoreFailureKind::PreconditionFailed,
            conditional_creation: true,
            state: FailureState::NotPublished,
        }
    );
    let error = error.expect("a rejected PUT yields a facade error");
    assert_eq!(error.kind(), qubit_fs::error::FsErrorKind::PreconditionFailed);
    assert_eq!(error.operation(), qubit_fs::error::FsOperation::CommitWriter);
    assert_eq!(created.state(), SessionState::Open);

    let mut replaced = WriteSession::new(false);
    assert_eq!(replaced.begin_commit(), CommitVerdict::Dispatch);
    let (verdict, error) = replaced.settle_put(Err(store_error("missing")), qubit_fs::error::FsOperation::CommitWriter);
    assert_eq!(
        verdict,
        CommitVerdict::Failed {
            kind: StoreFailureKind::NotFound,
            conditional_creation: false,
            state: FailureState::Indeterminate,
        }
    );
    assert_eq!(error.map(|error| error.kind()), Some(qubit_fs::error::FsErrorKind::NotFound));
    assert_eq!(replaced.commit_refusal(), Some(FailureState::Indeterminate));

    let mut stored = WriteSession::new(false);
    assert_eq!(stored.admit_write(9), WriteAdmission::Accepted);
    assert_eq!(stored.begin_commit(), CommitVerdict::Dispatch);
    let (verdict, error) = stored.settle_put(Ok(()), qubit_fs::error::FsOperation::CommitWriter);
    assert_eq!(verdict, CommitVerdict::Committed(9));
    assert!(error.is_none());
    assert_eq!(stored.commit_refusal(), Some(FailureState::Published));
}

#[test]
fn adapter_diagnostics_are_exact() {
    assert_eq!(
        qubit_fs_testkit::s3::write_session::closed_message(),
        "writer no longer accepts bytes"
    );
    assert_eq!(
        qubit_fs_testkit::s3::write_session::limit_message(),
        "S3 contract writer limit exceeded"
    );
    assert_eq!(
        qubit_fs_testkit::s3::write_session::already_committed_message(),
        "writer already committed"
    );
    assert_eq!(
        qubit_fs_testkit::s3::write_session::conditional_creation_message(),
        "S3 conditional creation found an existing object"
    );
    assert_eq!(
        qubit_fs_testkit::s3::write_session::injected_abort_message(),
        "injected abort failure"
    );
}
