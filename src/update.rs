//! Adding one release to an index: the merge of the two descriptors, the stamp,
//! and the append.

use vstd::prelude::*;
use crate::clock::{created_at, created_text, timestamp_shape, Stamper, MAX_MILLIS};
use crate::index::{append_spec, append_to, ChartYaml, IndexView, UpdateError};
use crate::model::{build_entry, merged_entry, Constants, ConstantsView, Parameters, ParametersView};

verus! {

/// The index after adding the release that `c` and `p` describe, stamped `created`;
/// `None` where the value under the chart's name is not a list.
pub open spec fn update_spec(ix: IndexView, c: ConstantsView, p: ParametersView, created: Seq<char>) -> Option<IndexView> {
    append_spec(ix, c.name, merged_entry(c, p, created))
}

/// What adding a release stamped `created` does to `before`, given its result.
pub open spec fn updated(
    before: IndexView,
    after: IndexView,
    c: ConstantsView,
    p: ParametersView,
    created: Seq<char>,
    r: Result<(), UpdateError>,
) -> bool {
    match update_spec(before, c, p, created) {
        Some(ix) => r is Ok && after == ix,
        None => r == Err::<(), UpdateError>(UpdateError::StructuralMismatch) && after == before,
    }
}

/// Adds the release that `constants` and `parameters` describe, stamped `created`,
/// at the end of the releases of the chart.
pub fn update_yaml(index: &mut ChartYaml, constants: &Constants, parameters: &Parameters, created: String) -> (r: Result<(), UpdateError>)
    requires
        old(index)@.wf(),
    ensures
        updated(old(index)@, final(index)@, constants@, parameters@, created@, r),
        final(index)@.wf(),
{
    let entry = build_entry(constants, parameters, created);
    append_to(index, &constants.name, entry)
}

/// Adds the release, stamped with the instant `millis` (milliseconds after the epoch).
pub fn update_at(index: &mut ChartYaml, constants: &Constants, parameters: &Parameters, millis: i64) -> (r: Result<(), UpdateError>)
    requires
        old(index)@.wf(),
    ensures
        0 <= millis <= MAX_MILLIS ==> updated(old(index)@, final(index)@, constants@, parameters@, created_text(millis as int), r),
        0 <= millis <= MAX_MILLIS ==> timestamp_shape(created_text(millis as int)),
        !(0 <= millis <= MAX_MILLIS) ==> r == Err::<(), UpdateError>(UpdateError::InstantOutOfRange) && final(index)@ == old(index)@,
        final(index)@.wf(),
{
    match created_at(millis) {
        Some(created) => update_yaml(index, constants, parameters, created),
        None => Err(UpdateError::InstantOutOfRange),
    }
}

impl Stamper {
    /// Adds the release, stamped with the instant `now` or the last instant handed
    /// out, whichever is later.
    pub fn update(&mut self, index: &mut ChartYaml, constants: &Constants, parameters: &Parameters, now: i64) -> (r: Result<(), UpdateError>)
        requires
            old(index)@.wf(),
        ensures
            final(self).last >= old(self).last,
            final(self).last >= now,
            final(self).last == now || final(self).last == old(self).last,
            0 <= final(self).last <= MAX_MILLIS ==> updated(old(index)@, final(index)@, constants@, parameters@, created_text(final(self).last as int), r),
            0 <= final(self).last <= MAX_MILLIS ==> timestamp_shape(created_text(final(self).last as int)),
            !(0 <= final(self).last <= MAX_MILLIS) ==> r == Err::<(), UpdateError>(UpdateError::InstantOutOfRange) && final(index)@ == old(index)@,
            final(index)@.wf(),
    {
        let t = self.stamp(now);
        update_at(index, constants, parameters, t)
    }

    /// Adds the release, stamped with the current instant of the system clock, or
    /// the last instant handed out where that is later.
    pub fn update_now(&mut self, index: &mut ChartYaml, constants: &Constants, parameters: &Parameters) -> (r: Result<(), UpdateError>)
        requires
            old(index)@.wf(),
        ensures
            final(self).last >= old(self).last,
            0 <= final(self).last <= MAX_MILLIS ==> updated(old(index)@, final(index)@, constants@, parameters@, created_text(final(self).last as int), r),
            0 <= final(self).last <= MAX_MILLIS ==> timestamp_shape(created_text(final(self).last as int)),
            !(0 <= final(self).last <= MAX_MILLIS) ==> r == Err::<(), UpdateError>(UpdateError::InstantOutOfRange) && final(index)@ == old(index)@,
            final(index)@.wf(),
    {
        let t = self.stamp_now();
        update_at(index, constants, parameters, t)
    }
}

} // verus!
