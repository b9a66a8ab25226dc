//! Release timestamps: the instant of a release, and its text in the index.

use vstd::prelude::*;

verus! {

/// The last millisecond of the year 9999: the latest instant whose text keeps a
/// four-digit year.
pub const MAX_MILLIS: i64 = 253402300799999;

/// The text that chrono writes for the UTC instant `millis` milliseconds after the
/// epoch, in the form `YYYY-MM-DDTHH:MM:SS.mmmZ`.
pub uninterp spec fn created_text(millis: int) -> Seq<char>;

pub open spec fn is_digit(c: char) -> bool {
    '0' <= c && c <= '9'
}

/// The shape `YYYY-MM-DDTHH:MM:SS.mmmZ`: digits, with the separators in place.
pub open spec fn timestamp_shape(s: Seq<char>) -> bool {
    &&& s.len() == 24
    &&& s[4] == '-' && s[7] == '-' && s[10] == 'T' && s[13] == ':' && s[16] == ':' && s[19] == '.' && s[23] == 'Z'
    &&& forall|i: int|
        0 <= i < 23 && i != 4 && i != 7 && i != 10 && i != 13 && i != 16 && i != 19 ==> is_digit(#[trigger] s[i])
}

/// Relies on chrono's `DateTime::<Utc>::from_timestamp_millis` and `format` with
/// `%Y-%m-%dT%H:%M:%S%.3fZ`: the text depends on the instant alone; for the years
/// 1970 to 9999 the year has four digits, the other fields two, the fraction three.
#[verifier::external_body]
fn format_created(millis: i64) -> (r: String)
    requires
        0 <= millis <= MAX_MILLIS,
    ensures
        r@ == created_text(millis as int),
        timestamp_shape(r@),
{
    match chrono::DateTime::<chrono::Utc>::from_timestamp_millis(millis) {
        Some(t) => t.format("%Y-%m-%dT%H:%M:%S%.3fZ").to_string(),
        None => String::new(),
    }
}

/// Relies on chrono's `Utc::now` and `timestamp_millis`: the current instant, read
/// from the system clock, in milliseconds after the epoch.
#[verifier::external_body]
fn now_millis() -> (r: i64) {
    chrono::Utc::now().timestamp_millis()
}

/// The text of the instant `millis`, where it lies between the epoch and the end
/// of the year 9999.
pub fn created_at(millis: i64) -> (r: Option<String>)
    ensures
        match r {
            Some(s) => 0 <= millis <= MAX_MILLIS && s@ == created_text(millis as int) && timestamp_shape(s@),
            None => !(0 <= millis <= MAX_MILLIS),
        },
{
    if 0 <= millis && millis <= MAX_MILLIS {
        Some(format_created(millis))
    } else {
        None
    }
}

/// Hands out release instants that never go back in time within one run, even
/// where the system clock does.
#[derive(Debug)]
pub struct Stamper {
    pub last: i64,
}

pub open spec fn later_of(a: int, b: int) -> int {
    if a >= b { a } else { b }
}

impl Stamper {
    /// A stamper that has handed out nothing yet.
    pub fn new() -> (r: Stamper)
        ensures
            r.last == 0,
    {
        Stamper { last: 0 }
    }

    /// The instant for a release made at `now`: `now`, or the last instant handed
    /// out where that is later.
    pub fn stamp(&mut self, now: i64) -> (r: i64)
        ensures
            r as int == later_of(now as int, old(self).last as int),
            r >= old(self).last,
            final(self).last == r,
    {
        if now > self.last {
            self.last = now;
        }
        self.last
    }

    /// The instant for a release made now, by the system clock.
    pub fn stamp_now(&mut self) -> (r: i64)
        ensures
            r >= old(self).last,
            final(self).last == r,
    {
        let now = now_millis();
        self.stamp(now)
    }
}

} // verus!
