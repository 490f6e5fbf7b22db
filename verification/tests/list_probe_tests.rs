use qubit_fs_testkit::ContractCheckId;
use qubit_fs_testkit::ContractCheckOutcome;
use qubit_fs_testkit::ContractContext;
use qubit_fs_testkit::FileSystemContract;
use qubit_fs_testkit::fs_facts::SeedOutcome;
use qubit_fs_testkit::list_probe::ListEvent;
use qubit_fs_testkit::list_probe::ListProbe;
use qubit_fs_testkit::list_probe::ListRequest;
use qubit_fs_testkit::list_probe::Listing;
use qubit_fs_testkit::listing::same_entries;

fn list_context() -> ContractContext {
    let mut ctx = ContractContext::new(true, true);
    ctx.prepare_phase(FileSystemContract::List, true);
    ctx
}

fn recorded(ctx: &ContractContext, id: ContractCheckId) -> Option<ContractCheckOutcome> {
    ctx.report()
        .checks()
        .iter()
        .find(|check| check.check_id() == id)
        .map(|check| check.outcome().clone())
}

fn texts(items: &[&str]) -> Vec<String> {
    items.iter().map(|item| (*item).to_owned()).collect()
}

fn seeded(ctx: &mut ContractContext, probe: &mut ListProbe, path: &str) -> ListRequest {
    probe.advance(ctx, ListEvent::Seeded(SeedOutcome::Supported(path.to_owned())))
}

#[test]
fn same_entries_ignores_order_but_counts_repeats() {
    assert!(same_entries(&texts(&["/b", "/a"]), &texts(&["/a", "/b"])));
    assert!(!same_entries(&texts(&["/a", "/a"]), &texts(&["/a", "/b"])));
    assert!(!same_entries(&texts(&["/a"]), &texts(&["/a", "/b"])));
    assert!(!same_entries(&texts(&["/a", "/b", "/c"]), &texts(&["/a", "/b"])));
    assert!(same_entries(&texts(&[]), &texts(&[])));
}

#[test]
fn listings_pass_on_exact_entries() {
    let mut ctx = list_context();
    let (mut probe, request) = ListProbe::new(&mut ctx, true, "memory".to_owned());
    assert!(matches!(request, ListRequest::ResolvePath { .. }));
    let ListRequest::Seed { name, bytes } = probe.advance(&mut ctx, ListEvent::Resolved(Some("/l".to_owned()))) else {
        panic!("the first child is seeded next");
    };
    assert!(name.ends_with("-async-list/first"), "{name}");
    assert_eq!(bytes, b"first");
    seeded(&mut ctx, &mut probe, "/l/first");
    let request = seeded(&mut ctx, &mut probe, "/l/second");
    assert_eq!(request, ListRequest::List { path: "/l".to_owned(), prefixed: false });
    let listed = Listing::Entries(texts(&["/l/second", "/l/first"]), false);
    let ListRequest::Seed { name, .. } = probe.advance(&mut ctx, ListEvent::Listed(listed)) else {
        panic!("the nested entry is seeded next");
    };
    assert!(name.ends_with("-async-list/prefixed/nested"), "{name}");
    assert_eq!(recorded(&ctx, ContractCheckId::ListBasic), Some(ContractCheckOutcome::Passed));
    seeded(&mut ctx, &mut probe, "/l/prefixed/nested");
    let request = seeded(&mut ctx, &mut probe, "/l/prefixed/second");
    assert_eq!(request, ListRequest::List { path: "/l".to_owned(), prefixed: true });
    let listed = Listing::Entries(texts(&["/l/prefixed", "/l/prefixed/second", "/l/prefixed/nested"]), true);
    assert_eq!(probe.advance(&mut ctx, ListEvent::Listed(listed)), ListRequest::Finish);
    assert_eq!(recorded(&ctx, ContractCheckId::ListPagination), Some(ContractCheckOutcome::Passed));
    assert_eq!(ctx.resource_count(), 4);
}

#[test]
fn missing_child_or_metadata_fails() {
    let mut ctx = list_context();
    let (mut probe, _) = ListProbe::new(&mut ctx, true, "memory".to_owned());
    probe.advance(&mut ctx, ListEvent::Resolved(Some("/l".to_owned())));
    seeded(&mut ctx, &mut probe, "/l/first");
    seeded(&mut ctx, &mut probe, "/l/second");
    assert_eq!(
        probe.advance(&mut ctx, ListEvent::Listed(Listing::Entries(texts(&["/l/first"]), false))),
        ListRequest::Fail { message: "list/basic: direct children mismatch", with_error: false }
    );
    let mut ctx = list_context();
    let (mut probe, _) = ListProbe::new(&mut ctx, true, "memory".to_owned());
    probe.advance(&mut ctx, ListEvent::Resolved(Some("/l".to_owned())));
    seeded(&mut ctx, &mut probe, "/l/first");
    seeded(&mut ctx, &mut probe, "/l/second");
    probe.advance(&mut ctx, ListEvent::Listed(Listing::Entries(texts(&["/l/first", "/l/second"]), false)));
    seeded(&mut ctx, &mut probe, "/l/prefixed/nested");
    seeded(&mut ctx, &mut probe, "/l/prefixed/second");
    let listed = Listing::Entries(texts(&["/l/prefixed/second", "/l/prefixed/nested"]), false);
    assert_eq!(
        probe.advance(&mut ctx, ListEvent::Listed(listed)),
        ListRequest::Fail { message: "list contract: requested entry metadata is missing", with_error: false }
    );
}
