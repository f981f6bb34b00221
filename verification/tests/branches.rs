use checkout_picker::branch::{
    get_branches, get_branches_local, get_branches_remote, BranchRecord, BranchType,
};

fn local(name: &str) -> Option<BranchRecord> {
    Some(BranchRecord::new(name.to_string(), BranchType::Local))
}

fn remote(name: &str) -> Option<BranchRecord> {
    Some(BranchRecord::new(name.to_string(), BranchType::Remote))
}

fn names(branches: &[BranchRecord]) -> Vec<&str> {
    branches.iter().map(|branch| branch.name.as_str()).collect()
}

#[test]
fn record_keeps_name_and_class() {
    let record = BranchRecord::new("main".to_string(), BranchType::Local);
    assert_eq!(record.name, "main");
    assert_eq!(record.kind, BranchType::Local);
    assert_eq!(record.duplicate(), record);
}

#[test]
fn empty_listing_has_no_branches() {
    assert!(get_branches_local(&vec![]).is_empty());
    assert!(get_branches_remote(&vec![]).is_empty());
}

#[test]
fn local_listing_keeps_local_branches_in_order() {
    let listing = vec![
        local("main"),
        remote("origin/main"),
        local("feature/x"),
        local("a"),
        remote("origin/a"),
    ];
    let branches = get_branches_local(&listing);
    assert_eq!(names(&branches), vec!["main", "feature/x", "a"]);
    assert!(branches.iter().all(|branch| branch.kind == BranchType::Local));
}

#[test]
fn remote_listing_keeps_remote_branches_in_order() {
    let listing = vec![
        local("main"),
        remote("origin/main"),
        local("feature/x"),
        remote("origin/HEAD"),
        remote("fork/dev"),
    ];
    let branches = get_branches_remote(&listing);
    assert_eq!(
        names(&branches),
        vec!["origin/main", "origin/HEAD", "fork/dev"]
    );
    assert!(branches.iter().all(|branch| branch.kind == BranchType::Remote));
}

#[test]
fn unreadable_entries_are_skipped_not_fatal() {
    let listing = vec![None, local("main"), None, None, local("dev"), None];
    assert_eq!(names(&get_branches_local(&listing)), vec!["main", "dev"]);
    assert!(get_branches_remote(&listing).is_empty());
}

#[test]
fn listing_of_unreadable_entries_only_is_empty() {
    let listing = vec![None, None];
    assert!(get_branches_local(&listing).is_empty());
}

#[test]
fn listing_is_not_sorted_or_deduplicated() {
    let listing = vec![local("b"), local("a"), local("b")];
    assert_eq!(names(&get_branches_local(&listing)), vec!["b", "a", "b"]);
}

#[test]
fn general_enumerator_agrees_with_the_two_named_ones() {
    let listing = vec![remote("origin/x"), local("x"), None, remote("origin/y")];
    assert_eq!(
        get_branches(&listing, BranchType::Local),
        get_branches_local(&listing)
    );
    assert_eq!(
        get_branches(&listing, BranchType::Remote),
        get_branches_remote(&listing)
    );
}

#[test]
fn listing_is_left_as_it_was() {
    let listing = vec![local("main"), None, remote("origin/main")];
    let before = listing.clone();
    let _ = get_branches_local(&listing);
    assert_eq!(listing, before);
}
