//! The selector: what the user is asked, and how the answer is read.

use vstd::prelude::*;
use crate::branch::{names_of, BranchRecord};

verus! {

/// A single-selection prompt, ready to be shown: the question, the names on
/// offer in the order they are listed, and whether `j` and `k` move the
/// highlight as the arrow keys do.
#[derive(Clone, Debug, PartialEq, Eq)]
pub struct Prompt {
    pub message: String,
    pub options: Vec<String>,
    pub vim_mode: bool,
}

/// The mathematical value of a [`Prompt`].
pub struct PromptView {
    pub message: Seq<char>,
    pub options: Seq<Seq<char>>,
    pub vim_mode: bool,
}

impl View for Prompt {
    type V = PromptView;

    open spec fn view(&self) -> PromptView {
        PromptView {
            message: self.message@,
            options: self.options.deep_view(),
            vim_mode: self.vim_mode,
        }
    }
}

impl DeepView for Prompt {
    type V = PromptView;

    open spec fn deep_view(&self) -> PromptView {
        self@
    }
}

/// What came of the prompt: a name was picked, or the user called it off.
#[derive(Clone, Debug, PartialEq, Eq)]
pub enum Selection {
    Chosen(String),
    Cancelled,
}

/// The mathematical value of a [`Selection`].
pub enum SelectionView {
    Chosen(Seq<char>),
    Cancelled,
}

impl View for Selection {
    type V = SelectionView;

    open spec fn view(&self) -> SelectionView {
        match *self {
            Selection::Chosen(name) => SelectionView::Chosen(name@),
            Selection::Cancelled => SelectionView::Cancelled,
        }
    }
}

impl DeepView for Selection {
    type V = SelectionView;

    open spec fn deep_view(&self) -> SelectionView {
        self@
    }
}

/// The prompt that offers `names`: it asks for a git branch, lists the names
/// as they come, and has the vim keys on.
pub open spec fn prompt_for(names: Seq<Seq<char>>) -> PromptView {
    PromptView { message: "Select a git branch:"@, options: names, vim_mode: true }
}

/// How an answer to a prompt over `options` is read. The prompt is closed
/// over its list: an answer is a choice only if it is one of the names that
/// were offered. No answer, or a name that was never offered, is a
/// cancellation.
pub open spec fn read_answer(options: Seq<Seq<char>>, answer: Option<Seq<char>>) -> SelectionView {
    match answer {
        Some(name) => if options.contains(name) {
            SelectionView::Chosen(name)
        } else {
            SelectionView::Cancelled
        },
        None => SelectionView::Cancelled,
    }
}

/// The display names of `branches`, in order.
pub fn branch_names(branches: &Vec<BranchRecord>) -> (names: Vec<String>)
    ensures
        names.deep_view() == names_of(branches.deep_view()),
{
    let mut names: Vec<String> = Vec::new();
    let mut i: usize = 0;
    while i < branches.len()
        invariant
            i <= branches.len(),
            names.len() == i,
            forall|j: int| 0 <= j < i ==> names@[j]@ == branches@[j].name@,
        decreases branches.len() - i,
    {
        names.push(branches[i].name.clone());
        i += 1;
    }
    assert(names.deep_view() =~= names_of(branches.deep_view()));
    names
}

/// Whether `name` is one of `options`.
pub fn offered(options: &Vec<String>, name: &String) -> (found: bool)
    ensures
        found == options.deep_view().contains(name@),
{
    let mut i: usize = 0;
    while i < options.len()
        invariant
            i <= options.len(),
            forall|j: int| 0 <= j < i ==> options.deep_view()[j] != name@,
        decreases options.len() - i,
    {
        if options[i] == *name {
            assert(options.deep_view()[i as int] == name@);
            return true;
        }
        i += 1;
    }
    false
}

/// The prompt that offers `names`.
pub fn prompt(names: Vec<String>) -> (prompt: Prompt)
    ensures
        prompt@ == prompt_for(names.deep_view()),
{
    Prompt { message: String::from_str("Select a git branch:"), options: names, vim_mode: true }
}

/// Prepares the prompt over a list of branches: their display names, in the
/// order of the list.
pub fn pp_branches(branches: &Vec<BranchRecord>) -> (prompt: Prompt)
    ensures
        prompt@ == prompt_for(names_of(branches.deep_view())),
{
    self::prompt(branch_names(branches))
}

/// Reads the answer to a prompt over `options`: `Some` name as the prompt
/// returned it, `None` where the prompt was called off.
pub fn selection(options: &Vec<String>, answer: Option<String>) -> (picked: Selection)
    ensures
        picked@ == read_answer(options.deep_view(), answer.deep_view()),
{
    match answer {
        Some(name) => {
            if offered(options, &name) {
                Selection::Chosen(name)
            } else {
                Selection::Cancelled
            }
        },
        None => Selection::Cancelled,
    }
}

} // verus!
