use qubit_fs_testkit::s3::listing::ListingStep;
use qubit_fs_testkit::s3::listing::SCAN_BUDGET;
use qubit_fs_testkit::s3::listing::listing_step;

fn listed(prefix: &str, root: &str, filter: &str, keys: &[&str]) -> Vec<String> {
    let mut emitted = Vec::new();
    for (scanned, key) in keys.iter().enumerate() {
        match listing_step(prefix, root, filter, Some(key), scanned) {
            ListingStep::Emit(logical) => emitted.push(logical),
            ListingStep::Skip => {}
            other => panic!("unexpected listing step {other:?} for {key}"),
        }
    }
    emitted.sort();
    emitted
}

#[test]
fn raw_scope_and_filter_select_exact_logical_keys() {
    let keys = [
        "raw-list/folder",
        "raw-list/folder/a",
        "raw-list/folder/ab",
        "raw-list/folder/b",
        "raw-list/folderish",
        "raw-list/other",
    ];
    assert_eq!(
        listed("raw-list", "folder", "", &keys),
        ["folder", "folder/a", "folder/ab", "folder/b", "folderish"]
    );
    assert_eq!(listed("raw-list", "folder/", "a", &keys), ["folder/a", "folder/ab"]);
}

#[test]
fn whole_namespace_listing_strips_only_the_configured_prefix() {
    let keys = [
        "namespace-boundary/top",
        "namespace-boundary/folder/a",
        "namespace-boundary/folderish",
    ];
    assert_eq!(
        listed("namespace-boundary", "", "", &keys),
        ["folder/a", "folderish", "top"]
    );
    assert_eq!(
        listing_step("namespace-boundary", "", "", Some("outside/leak"), 3),
        ListingStep::EscapedNamespace
    );
    assert_eq!(
        listing_step("owned", "", "", Some("foreign/key"), 0),
        ListingStep::EscapedNamespace
    );
}

#[test]
fn skipped_entries_still_spend_the_scan_budget() {
    let mut steps = Vec::new();
    for scanned in 0..=SCAN_BUDGET {
        let key = format!("scan-budget/decoy-{scanned:04}");
        steps.push(listing_step("scan-budget", "", "no-match", Some(&key), scanned));
    }
    assert!(steps[..SCAN_BUDGET].iter().all(|step| *step == ListingStep::Skip));
    assert_eq!(steps[SCAN_BUDGET], ListingStep::BudgetExceeded);
}
