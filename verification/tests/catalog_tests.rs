use qubit_fs_testkit::AsyncCopyCancellationStage;
use qubit_fs_testkit::AsyncWriteCancellationStage;
use qubit_fs_testkit::ContractCheckId;
use qubit_fs_testkit::FileSystemCapability;
use qubit_fs_testkit::FileSystemContract;
use qubit_fs_testkit::cancellation_check_id;
use qubit_fs_testkit::check_id;
use qubit_fs_testkit::for_contract;
use qubit_fs_testkit::specification;

#[test]
fn stable_names_are_distinct_and_complete() {
    let all = ContractCheckId::all();
    assert_eq!(all.len(), 68);
    let mut names: Vec<&str> = all.iter().map(|id| id.as_str()).collect();
    names.sort();
    names.dedup();
    assert_eq!(names.len(), 68);
    assert_eq!(ContractCheckId::WriteCancelOpen.as_str(), "write/cancel-open");
    assert!(all.contains(&ContractCheckId::WriteCancelOpen));
}

#[test]
fn every_check_belongs_to_one_phase() {
    let mut total = 0;
    for contract in FileSystemContract::all() {
        let entries = for_contract(contract, true);
        for entry in &entries {
            assert_eq!(entry.contract, contract);
            assert_eq!(entry.id.contract(), contract);
        }
        total += entries.len();
    }
    assert_eq!(total, 68);
}

#[test]
fn synchronous_driver_skips_asynchronous_probes() {
    let asynchronous = for_contract(FileSystemContract::Copy, true);
    let synchronous = for_contract(FileSystemContract::Copy, false);
    assert_eq!(asynchronous.len(), 12);
    assert_eq!(synchronous.len(), 8);
    assert!(synchronous.iter().all(|entry| entry.id.supports_synchronous()));
    assert!(!ContractCheckId::AsyncCopyCancelReader.supports_synchronous());
    assert!(ContractCheckId::CopyBasic.supports_synchronous());
}

#[test]
fn catalog_entries_carry_capabilities() {
    let entry = specification(ContractCheckId::DeleteIfMatch);
    assert_eq!(entry.contract, FileSystemContract::Delete);
    assert_eq!(entry.capability, Some(FileSystemCapability::ConditionalDelete));
    assert!(!entry.optional);
    assert!(ContractCheckId::ReadRangeLimit.is_optional());
    assert!(ContractCheckId::WriteLimit.is_optional());
    assert!(!ContractCheckId::WriteBasic.is_optional());
    assert_eq!(specification(ContractCheckId::ErrorContext).capability, None);
}

#[test]
fn cancellation_stages_map_to_probes() {
    assert_eq!(
        cancellation_check_id(AsyncCopyCancellationStage::Reader),
        ContractCheckId::AsyncCopyCancelReader
    );
    assert_eq!(
        cancellation_check_id(AsyncCopyCancellationStage::NativeAttempt),
        ContractCheckId::AsyncCopyCancelNativeAttempt
    );
    assert_eq!(check_id(AsyncWriteCancellationStage::Open), "write/cancel-open");
    assert_eq!(check_id(AsyncWriteCancellationStage::Commit), "write/cancel-commit");
    assert_eq!(
        check_id(AsyncWriteCancellationStage::Flush),
        ContractCheckId::WriteCancelFlush.as_str()
    );
}

#[test]
fn stable_names_are_distinct() {
    let ids = ContractCheckId::all();
    for (i, a) in ids.iter().enumerate() {
        for b in ids.iter().skip(i + 1) {
            assert_ne!(a.as_str(), b.as_str());
        }
    }
    assert_eq!(ContractCheckId::CopyBasic.as_str(), "copy/basic");
}

#[test]
fn stable_names_are_group_slash_name() {
    for id in ContractCheckId::all() {
        let name = id.as_str();
        let (group, rest) = name.split_once('/').unwrap();
        assert!(!group.is_empty() && !rest.is_empty(), "{name}");
        assert!(!rest.contains('/'), "{name}");
        assert!(
            group.chars().chain(rest.chars()).all(|c| c.is_ascii_lowercase() || c == '-'),
            "{name}"
        );
    }
}
