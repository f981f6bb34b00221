//! The checkout: what a chosen name resolved to, and where HEAD goes.

use vstd::prelude::*;

verus! {

/// What a revision string resolved to: a commit, and the reference that led
/// to it if there was one. A branch or a tag comes with its reference; a bare
/// commit id comes without.
#[derive(Clone, Debug, PartialEq, Eq)]
pub struct CheckoutTarget {
    /// The id of the commit, in hexadecimal.
    pub object: String,
    /// The full name of the reference, such as `refs/heads/main`.
    pub reference: Option<String>,
}

/// The mathematical value of a [`CheckoutTarget`].
pub struct CheckoutTargetView {
    pub object: Seq<char>,
    pub reference: Option<Seq<char>>,
}

impl View for CheckoutTarget {
    type V = CheckoutTargetView;

    open spec fn view(&self) -> CheckoutTargetView {
        CheckoutTargetView { object: self.object@, reference: self.reference.deep_view() }
    }
}

impl DeepView for CheckoutTarget {
    type V = CheckoutTargetView;

    open spec fn deep_view(&self) -> CheckoutTargetView {
        self@
    }
}

/// Where HEAD is to point: at a reference by name (attached), or straight at
/// a commit (detached).
#[derive(Clone, Debug, PartialEq, Eq)]
pub enum Head {
    Attached(String),
    Detached(String),
}

/// The mathematical value of a [`Head`].
pub enum HeadView {
    Attached(Seq<char>),
    Detached(Seq<char>),
}

impl View for Head {
    type V = HeadView;

    open spec fn view(&self) -> HeadView {
        match *self {
            Head::Attached(reference) => HeadView::Attached(reference@),
            Head::Detached(commit) => HeadView::Detached(commit@),
        }
    }
}

impl DeepView for Head {
    type V = HeadView;

    open spec fn deep_view(&self) -> HeadView {
        self@
    }
}

/// Where HEAD goes once `target` is checked out: onto the reference, where
/// one led to the commit; else onto the commit itself.
pub open spec fn head_for(target: CheckoutTargetView) -> HeadView {
    match target.reference {
        Some(reference) => HeadView::Attached(reference),
        None => HeadView::Detached(target.object),
    }
}

impl CheckoutTarget {
    pub fn new(object: String, reference: Option<String>) -> (target: CheckoutTarget)
        ensures
            target@ == (CheckoutTargetView { object: object@, reference: reference.deep_view() }),
    {
        CheckoutTarget { object, reference }
    }

    /// An independent copy.
    pub fn duplicate(&self) -> (copy: CheckoutTarget)
        ensures
            copy@ == self@,
    {
        let reference = match &self.reference {
            Some(name) => Some(name.clone()),
            None => None,
        };
        CheckoutTarget { object: self.object.clone(), reference }
    }
}

impl Head {
    /// An independent copy.
    pub fn duplicate(&self) -> (copy: Head)
        ensures
            copy@ == self@,
    {
        match self {
            Head::Attached(reference) => Head::Attached(reference.clone()),
            Head::Detached(commit) => Head::Detached(commit.clone()),
        }
    }
}

/// Decides where HEAD goes once the tree of `target` is in the working
/// directory.
pub fn checkout_branch(target: &CheckoutTarget) -> (head: Head)
    ensures
        head@ == head_for(target@),
{
    match &target.reference {
        Some(reference) => Head::Attached(reference.clone()),
        None => Head::Detached(target.object.clone()),
    }
}

} // verus!
