//! Branch records and the enumerator that picks them out of a listing.

use vstd::prelude::*;

verus! {

/// The class of a branch: kept in the repository's own namespace, or mirroring
/// the state of a remote.
#[derive(Clone, Copy, Debug, PartialEq, Eq, Structural)]
pub enum BranchType {
    Local,
    Remote,
}

/// A branch as it was seen when the repository was listed: its display name
/// and its class. A snapshot; it does not follow the repository.
#[derive(Clone, Debug, PartialEq, Eq)]
pub struct BranchRecord {
    pub name: String,
    pub kind: BranchType,
}

/// The mathematical value of a [`BranchRecord`].
pub struct BranchRecordView {
    pub name: Seq<char>,
    pub kind: BranchType,
}

impl View for BranchRecord {
    type V = BranchRecordView;

    open spec fn view(&self) -> BranchRecordView {
        BranchRecordView { name: self.name@, kind: self.kind }
    }
}

impl DeepView for BranchRecord {
    type V = BranchRecordView;

    open spec fn deep_view(&self) -> BranchRecordView {
        self@
    }
}

/// What one entry of a listing contributes when branches of class `kind` are
/// asked for: the record itself if it could be read and is of that class,
/// nothing otherwise.
pub open spec fn kept(entry: Option<BranchRecordView>, kind: BranchType) -> Option<
    BranchRecordView,
> {
    match entry {
        Some(record) => if record.kind == kind {
            Some(record)
        } else {
            None
        },
        None => None,
    }
}

/// The records of class `kind` among `entries`, in the order of the listing.
/// An entry that could not be read (`None`) is passed over.
pub open spec fn matching(entries: Seq<Option<BranchRecordView>>, kind: BranchType) -> Seq<
    BranchRecordView,
> {
    entries.filter_map(|entry: Option<BranchRecordView>| kept(entry, kind))
}

/// Whether a listing holds at least one branch of class `kind` that could be
/// read.
pub open spec fn has_branch(entries: Seq<Option<BranchRecordView>>, kind: BranchType) -> bool {
    exists|i: int| 0 <= i < entries.len() && (#[trigger] kept(entries[i], kind)) is Some
}

/// The display names of `records`, in order.
pub open spec fn names_of(records: Seq<BranchRecordView>) -> Seq<Seq<char>> {
    records.map_values(|record: BranchRecordView| record.name)
}

/// `matching` is a subsequence, and the whole of it: the returned positions
/// climb through `entries`, each holds the record that `matching` has in that
/// place, and no entry of class `kind` that could be read is left out.
pub proof fn lemma_matching_positions(
    entries: Seq<Option<BranchRecordView>>,
    kind: BranchType,
) -> (at: Seq<int>)
    ensures
        at.len() == matching(entries, kind).len(),
        forall|j: int|
            0 <= j < at.len() ==> {
                &&& 0 <= #[trigger] at[j] < entries.len()
                &&& entries[at[j]] == Some(matching(entries, kind)[j])
                &&& matching(entries, kind)[j].kind == kind
            },
        forall|j: int, k: int| 0 <= j < k < at.len() ==> at[j] < at[k],
        forall|i: int|
            0 <= i < entries.len() && (#[trigger] kept(entries[i], kind)) is Some ==> at.contains(
                i,
            ),
    decreases entries.len(),
{
    let keep = |entry: Option<BranchRecordView>| kept(entry, kind);
    if entries.len() == 0 {
        Seq::empty()
    } else {
        let rest = entries.drop_last();
        let before = lemma_matching_positions(rest, kind);
        let last = entries.len() - 1;
        match keep(entries.last()) {
            Some(record) => {
                let at = before.push(last);
                assert(matching(entries, kind) == matching(rest, kind) + seq![record]);
                assert forall|i: int|
                    0 <= i < entries.len() && (#[trigger] kept(
                        entries[i],
                        kind,
                    )) is Some implies at.contains(i) by {
                    if i < last {
                        assert(rest[i] == entries[i]);
                        let j = choose|j: int| 0 <= j < before.len() && before[j] == i;
                        assert(at[j] == i);
                    } else {
                        assert(at[before.len() as int] == i);
                    }
                }
                at
            },
            None => {
                assert(matching(entries, kind) == matching(rest, kind));
                assert forall|i: int|
                    0 <= i < entries.len() && (#[trigger] kept(
                        entries[i],
                        kind,
                    )) is Some implies before.contains(i) by {
                    assert(i < last);
                    assert(rest[i] == entries[i]);
                }
                before
            },
        }
    }
}

impl BranchRecord {
    pub fn new(name: String, kind: BranchType) -> (record: BranchRecord)
        ensures
            record@ == (BranchRecordView { name: name@, kind }),
    {
        BranchRecord { name, kind }
    }

    /// An independent copy of the record.
    pub fn duplicate(&self) -> (copy: BranchRecord)
        ensures
            copy@ == self@,
    {
        BranchRecord { name: self.name.clone(), kind: self.kind }
    }
}

/// Picks the branches of class `kind` out of a listing.
///
/// `entries` is the listing as the repository reported it, one entry per
/// reference, `None` where the reference could not be read or named. Such
/// entries are skipped without failing the listing; the others keep their
/// relative order.
pub fn get_branches(entries: &Vec<Option<BranchRecord>>, kind: BranchType) -> (branches: Vec<
    BranchRecord,
>)
    ensures
        branches.deep_view() == matching(entries.deep_view(), kind),
{
    let mut branches: Vec<BranchRecord> = Vec::new();
    let mut i: usize = 0;
    while i < entries.len()
        invariant
            i <= entries.len(),
            branches.deep_view() == matching(entries.deep_view().take(i as int), kind),
        decreases entries.len() - i,
    {
        proof {
            entries.deep_view().lemma_filter_map_take_succ(
                |entry: Option<BranchRecordView>| kept(entry, kind),
                i as int,
            );
        }
        match &entries[i] {
            Some(record) => {
                if record.kind == kind {
                    branches.push(record.duplicate());
                }
            },
            None => {},
        }
        i += 1;
    }
    assert(entries.deep_view().take(entries.len() as int) == entries.deep_view());
    branches
}

/// The local branches of a listing.
pub fn get_branches_local(entries: &Vec<Option<BranchRecord>>) -> (branches: Vec<BranchRecord>)
    ensures
        branches.deep_view() == matching(entries.deep_view(), BranchType::Local),
{
    get_branches(entries, BranchType::Local)
}

/// The remote-tracking branches of a listing.
pub fn get_branches_remote(entries: &Vec<Option<BranchRecord>>) -> (branches: Vec<BranchRecord>)
    ensures
        branches.deep_view() == matching(entries.deep_view(), BranchType::Remote),
{
    get_branches(entries, BranchType::Remote)
}

} // verus!
