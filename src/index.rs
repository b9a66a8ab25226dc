//! The index document in its two layouts, and appending a release to it.

use vstd::prelude::*;
use crate::model::{entries_view, ChartEntry, EntryView};

verus! {

/// The value stored under one chart name.
#[derive(Debug)]
pub enum Slot {
    /// The chart's releases, oldest first.
    List(Vec<ChartEntry>),
    /// A value of any other shape, kept as its document text.
    Other(String),
}

pub enum SlotView {
    List(Seq<EntryView>),
    Other(Seq<char>),
}

impl View for Slot {
    type V = SlotView;

    open spec fn view(&self) -> SlotView {
        match self {
            Slot::List(v) => SlotView::List(entries_view(v@)),
            Slot::Other(s) => SlotView::Other(s@),
        }
    }
}

/// The releases of an index, in one of its two layouts.
#[derive(Debug)]
pub enum Entries {
    /// Releases grouped by chart name, names in document order.
    ByName(Vec<(String, Slot)>),
    /// One list of releases for all charts; each entry carries its chart's name.
    Flat(Vec<ChartEntry>),
}

pub enum EntriesView {
    ByName(Seq<(Seq<char>, SlotView)>),
    Flat(Seq<EntryView>),
}

pub open spec fn named_view(v: Seq<(String, Slot)>) -> Seq<(Seq<char>, SlotView)> {
    v.map_values(|kv: (String, Slot)| (kv.0@, kv.1@))
}

impl View for Entries {
    type V = EntriesView;

    open spec fn view(&self) -> EntriesView {
        match self {
            Entries::ByName(v) => EntriesView::ByName(named_view(v@)),
            Entries::Flat(v) => EntriesView::Flat(entries_view(v@)),
        }
    }
}

/// A chart repository index.
#[derive(Debug)]
pub struct ChartYaml {
    pub api_version: Option<String>,
    pub entries: Entries,
}

pub struct IndexView {
    pub api_version: Option<Seq<char>>,
    pub entries: EntriesView,
}

impl View for ChartYaml {
    type V = IndexView;

    open spec fn view(&self) -> IndexView {
        IndexView {
            api_version: match self.api_version {
                Some(s) => Some(s@),
                None => None,
            },
            entries: self.entries@,
        }
    }
}

/// No chart name occurs twice.
pub open spec fn names_unique(s: Seq<(Seq<char>, SlotView)>) -> bool {
    forall|i: int, j: int|
        0 <= i < s.len() && 0 <= j < s.len() && i != j ==> #[trigger] s[i].0 != #[trigger] s[j].0
}

impl IndexView {
    pub open spec fn wf(self) -> bool {
        match self.entries {
            EntriesView::ByName(s) => names_unique(s),
            EntriesView::Flat(_) => true,
        }
    }
}

pub open spec fn has_name(s: Seq<(Seq<char>, SlotView)>, name: Seq<char>) -> bool {
    exists|i: int| 0 <= i < s.len() && #[trigger] s[i].0 == name
}

pub open spec fn name_position(s: Seq<(Seq<char>, SlotView)>, name: Seq<char>) -> int {
    choose|i: int| 0 <= i < s.len() && #[trigger] s[i].0 == name
}

/// Appends `e` to the list under `name`, which is created when missing;
/// `None` where the value under `name` is not a list.
pub open spec fn append_named(s: Seq<(Seq<char>, SlotView)>, name: Seq<char>, e: EntryView) -> Option<
    Seq<(Seq<char>, SlotView)>,
> {
    if has_name(s, name) {
        let i = name_position(s, name);
        match s[i].1 {
            SlotView::List(l) => Some(s.update(i, (name, SlotView::List(l.push(e))))),
            SlotView::Other(_) => None,
        }
    } else {
        Some(s.push((name, SlotView::List(seq![e]))))
    }
}

/// The index after appending `e` under `name`; `None` where the layout does not allow it.
pub open spec fn append_spec(ix: IndexView, name: Seq<char>, e: EntryView) -> Option<IndexView> {
    match ix.entries {
        EntriesView::ByName(s) => match append_named(s, name, e) {
            Some(t) => Some(IndexView { api_version: ix.api_version, entries: EntriesView::ByName(t) }),
            None => None,
        },
        EntriesView::Flat(l) => Some(IndexView { api_version: ix.api_version, entries: EntriesView::Flat(l.push(e)) }),
    }
}

/// Why a release could not be added.
#[derive(Debug, PartialEq, Eq, Structural)]
pub enum UpdateError {
    /// The value under the chart's name is not a list of releases.
    StructuralMismatch,
    /// The instant cannot be written as a four-digit-year timestamp.
    InstantOutOfRange,
}

impl ChartYaml {
    /// An index with schema marker `v1` and no releases.
    pub fn empty() -> (r: ChartYaml)
        ensures
            r@.api_version == Some("v1"@),
            r@.entries == EntriesView::ByName(Seq::empty()),
            r@.wf(),
    {
        let named: Vec<(String, Slot)> = Vec::new();
        assert(named_view(named@) =~= Seq::empty());
        proof {
            reveal_strlit("v1");
        }
        ChartYaml { api_version: Some("v1".to_owned()), entries: Entries::ByName(named) }
    }
}

impl Default for ChartYaml {
    /// The empty index.
    fn default() -> (r: ChartYaml)
        ensures
            r@.api_version == Some("v1"@),
            r@.entries == EntriesView::ByName(Seq::empty()),
    {
        ChartYaml::empty()
    }
}

/// Finds the position of `name` among the named lists.
fn find_name(v: &Vec<(String, Slot)>, name: &String) -> (r: Option<usize>)
    ensures
        match r {
            Some(i) => i < v@.len() && named_view(v@)[i as int].0 == name@,
            None => !has_name(named_view(v@), name@),
        },
{
    let mut i: usize = 0;
    while i < v.len()
        invariant
            i <= v@.len(),
            forall|j: int| 0 <= j < i ==> #[trigger] named_view(v@)[j].0 != name@,
        decreases v@.len() - i,
    {
        if v[i].0 == *name {
            return Some(i);
        }
        i = i + 1;
    }
    None
}

/// Appends `entry` to the list under `name`, creating the list where it is missing.
pub fn append_to(index: &mut ChartYaml, name: &String, entry: ChartEntry) -> (r: Result<(), UpdateError>)
    requires
        old(index)@.wf(),
    ensures
        match append_spec(old(index)@, name@, entry@) {
            Some(ix) => r is Ok && final(index)@ == ix,
            None => r == Err::<(), UpdateError>(UpdateError::StructuralMismatch) && final(index)@ == old(index)@,
        },
        final(index)@.wf(),
{
    match &mut index.entries {
        Entries::Flat(list) => {
            let ghost before = list@;
            list.push(entry);
            assert(entries_view(list@) =~= entries_view(before).push(entry@));
            Ok(())
        },
        Entries::ByName(named) => {
            let ghost s = named_view(named@);
            match find_name(named, name) {
                Some(i) => {
                    assert(has_name(s, name@));
                    let ghost k = name_position(s, name@);
                    assert(k == i);
                    let (key, slot) = named.remove(i);
                    match slot {
                        Slot::List(mut list) => {
                            let ghost before = list@;
                            list.push(entry);
                            assert(entries_view(list@) =~= entries_view(before).push(entry@));
                            named.insert(i, (key, Slot::List(list)));
                            assert(named_view(named@) =~= s.update(i as int, (name@, SlotView::List(entries_view(before).push(entry@)))));
                            Ok(())
                        },
                        Slot::Other(text) => {
                            named.insert(i, (key, Slot::Other(text)));
                            assert(named_view(named@) =~= s);
                            Err(UpdateError::StructuralMismatch)
                        },
                    }
                },
                None => {
                    let list = vec![entry];
                    assert(entries_view(list@) =~= seq![entry@]);
                    named.push((name.clone(), Slot::List(list)));
                    assert(named_view(named@) =~= s.push((name@, SlotView::List(seq![entry@]))));
                    Ok(())
                },
            }
        },
    }
}

} // verus!
