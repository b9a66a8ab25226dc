//! What holds of every update, stated over the views.

use vstd::prelude::*;
use crate::clock::later_of;
use crate::index::{has_name, name_position, EntriesView, IndexView, SlotView};
use crate::model::{merged_app_version, merged_entry, ConstantsView, ParametersView};
use crate::update::update_spec;

verus! {

/// The empty index: schema marker `v1`, no charts.
pub open spec fn empty_index() -> IndexView {
    IndexView { api_version: Some("v1"@), entries: EntriesView::ByName(Seq::empty()) }
}

/// Adding a release to an empty index gives one chart holding exactly one entry,
/// the merge of the two descriptors.
pub proof fn lemma_first_release(c: ConstantsView, p: ParametersView, created: Seq<char>)
    ensures
        update_spec(empty_index(), c, p, created) == Some(
            IndexView {
                api_version: Some("v1"@),
                entries: EntriesView::ByName(seq![(c.name, SlotView::List(seq![merged_entry(c, p, created)]))]),
            },
        ),
{
    assert(!has_name(Seq::<(Seq<char>, SlotView)>::empty(), c.name));
    assert(Seq::<(Seq<char>, SlotView)>::empty().push((c.name, SlotView::List(seq![merged_entry(c, p, created)])))
        =~= seq![(c.name, SlotView::List(seq![merged_entry(c, p, created)]))]);
}

/// Adding a release to a chart that already has `n` releases gives it `n + 1`:
/// the first `n` unchanged and in order, the last the merge of the two
/// descriptors. The other charts and the schema marker are unchanged.
pub proof fn lemma_append_release(ix: IndexView, c: ConstantsView, p: ParametersView, created: Seq<char>, i: int)
    requires
        ix.wf(),
        ix.entries is ByName,
        0 <= i < ix.entries->ByName_0.len(),
        ix.entries->ByName_0[i].0 == c.name,
        ix.entries->ByName_0[i].1 is List,
    ensures
        ({
            let s = ix.entries->ByName_0;
            let old_list = s[i].1->List_0;
            let r = update_spec(ix, c, p, created);
            &&& r is Some
            &&& r->Some_0.api_version == ix.api_version
            &&& r->Some_0.entries is ByName
            &&& r->Some_0.entries->ByName_0.len() == s.len()
            &&& forall|j: int| 0 <= j < s.len() && j != i ==> #[trigger] r->Some_0.entries->ByName_0[j] == s[j]
            &&& r->Some_0.entries->ByName_0[i].0 == c.name
            &&& r->Some_0.entries->ByName_0[i].1 is List
            &&& r->Some_0.entries->ByName_0[i].1->List_0.len() == old_list.len() + 1
            &&& forall|k: int| 0 <= k < old_list.len() ==> #[trigger] r->Some_0.entries->ByName_0[i].1->List_0[k] == old_list[k]
            &&& r->Some_0.entries->ByName_0[i].1->List_0.last() == merged_entry(c, p, created)
        }),
{
    let s = ix.entries->ByName_0;
    assert(has_name(s, c.name));
    let k = name_position(s, c.name);
    assert(k == i);
}

/// Adding a release to an index in the flat layout appends one entry, the merge
/// of the two descriptors, after all the others, which stay unchanged and in order.
pub proof fn lemma_append_flat(ix: IndexView, c: ConstantsView, p: ParametersView, created: Seq<char>)
    requires
        ix.entries is Flat,
    ensures
        update_spec(ix, c, p, created) == Some(
            IndexView {
                api_version: ix.api_version,
                entries: EntriesView::Flat(ix.entries->Flat_0.push(merged_entry(c, p, created))),
            },
        ),
{
}

/// A release's own application version wins; without one, the chart's applies.
pub proof fn lemma_app_version_fallback(c: ConstantsView, p: ParametersView, created: Seq<char>)
    ensures
        p.app_version is Some ==> merged_entry(c, p, created).app_version == p.app_version->Some_0,
        p.app_version is None ==> merged_entry(c, p, created).app_version == c.app_version,
        merged_entry(c, p, created).app_version == merged_app_version(c, p),
{
}

/// Two stamps in a row never go back in time: the second is at least the first,
/// whatever the clock read each time.
pub proof fn lemma_stamps_ordered(last: int, now1: int, now2: int)
    ensures
        later_of(now1, last) >= last,
        later_of(now2, later_of(now1, last)) >= later_of(now1, last),
{
}

} // verus!
