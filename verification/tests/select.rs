use checkout_picker::branch::{BranchRecord, BranchType};
use checkout_picker::select::{
    branch_names, offered, pp_branches, prompt, selection, Prompt, Selection,
};

fn words(list: &[&str]) -> Vec<String> {
    list.iter().map(|word| word.to_string()).collect()
}

fn branches(list: &[&str]) -> Vec<BranchRecord> {
    list.iter()
        .map(|name| BranchRecord::new(name.to_string(), BranchType::Local))
        .collect()
}

#[test]
fn prompt_asks_for_a_git_branch_with_vim_keys() {
    let shown = pp_branches(&branches(&["main", "dev"]));
    assert_eq!(
        shown,
        Prompt {
            message: "Select a git branch:".to_string(),
            options: words(&["main", "dev"]),
            vim_mode: true,
        }
    );
}

#[test]
fn prompt_lists_names_in_the_order_given() {
    let shown = pp_branches(&branches(&["zeta", "alpha", "mid"]));
    assert_eq!(shown.options, words(&["zeta", "alpha", "mid"]));
}

#[test]
fn prompt_over_names_keeps_them() {
    let shown = prompt(words(&["a", "b"]));
    assert_eq!(shown.message, "Select a git branch:");
    assert_eq!(shown.options, words(&["a", "b"]));
    assert!(shown.vim_mode);
}

#[test]
fn names_of_branches_of_either_class() {
    let list = vec![
        BranchRecord::new("main".to_string(), BranchType::Local),
        BranchRecord::new("origin/main".to_string(), BranchType::Remote),
    ];
    assert_eq!(branch_names(&list), words(&["main", "origin/main"]));
    assert!(branch_names(&vec![]).is_empty());
}

#[test]
fn offered_finds_exact_names_only() {
    let names = words(&["main", "dev"]);
    assert!(offered(&names, &"main".to_string()));
    assert!(offered(&names, &"dev".to_string()));
    assert!(!offered(&names, &"Main".to_string()));
    assert!(!offered(&names, &"mai".to_string()));
    assert!(!offered(&names, &"".to_string()));
    assert!(!offered(&vec![], &"main".to_string()));
}

#[test]
fn answer_on_offer_is_chosen() {
    let names = words(&["main", "dev"]);
    assert_eq!(
        selection(&names, Some("dev".to_string())),
        Selection::Chosen("dev".to_string())
    );
}

#[test]
fn no_answer_is_a_cancellation() {
    let names = words(&["main", "dev"]);
    assert_eq!(selection(&names, None), Selection::Cancelled);
}

#[test]
fn answer_never_offered_is_a_cancellation() {
    let names = words(&["main", "dev"]);
    assert_eq!(
        selection(&names, Some("release".to_string())),
        Selection::Cancelled
    );
    assert_eq!(
        selection(&vec![], Some("main".to_string())),
        Selection::Cancelled
    );
}
