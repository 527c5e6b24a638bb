//! Restore metadata for trashed items.
//!
//! Each entry moved under the trash store's `files` directory gets a sidecar
//! record under the `info` directory, named after the entry with a
//! `.trashinfo` suffix, holding the original absolute path and the local
//! deletion time at second precision.

use vstd::prelude::*;

use crate::decimal::{decimal_chars, append_decimal};

use chrono::Datelike;
use chrono::Timelike;

verus! {

/// A local calendar time at second precision, as plain values.
#[derive(Clone, Copy, Debug, PartialEq, Eq, Structural)]
pub struct Timestamp {
    pub year: i32,
    pub month: u8,
    pub day: u8,
    pub hour: u8,
    pub minute: u8,
    pub second: u8,
}

/// The year, zero-padded to at least four digits, with a leading minus sign
/// for years before the common era.
pub open spec fn year_chars(y: int) -> Seq<char> {
    if y < 0 {
        seq!['-'] + decimal_chars((-y) as nat, 4)
    } else {
        decimal_chars(y as nat, 4)
    }
}

impl Timestamp {
    /// Every field within its calendar range.
    pub open spec fn valid(self) -> bool {
        &&& -262144 <= self.year <= 262143
        &&& 1 <= self.month <= 12
        &&& 1 <= self.day <= 31
        &&& self.hour < 24
        &&& self.minute < 60
        &&& self.second < 60
    }

    /// The timestamp in `YYYY-MM-DDTHH:MM:SS` form.
    pub open spec fn chars(self) -> Seq<char> {
        year_chars(self.year as int) + seq!['-'] + decimal_chars(self.month as nat, 2) + seq!['-']
            + decimal_chars(self.day as nat, 2) + seq!['T'] + decimal_chars(self.hour as nat, 2)
            + seq![':'] + decimal_chars(self.minute as nat, 2) + seq![':'] + decimal_chars(
            self.second as nat,
            2,
        )
    }
}

/// Formats a timestamp as `YYYY-MM-DDTHH:MM:SS`.
pub fn format_timestamp(ts: &Timestamp) -> (r: String)
    ensures
        r@ == ts.chars(),
{
    proof {
        reveal_strlit("-");
        reveal_strlit(":");
        reveal_strlit("T");
    }
    let mut s = String::new();
    if ts.year < 0 {
        s.append("-");
        append_decimal(&mut s, (-(ts.year as i64)) as u64, 4);
    } else {
        append_decimal(&mut s, ts.year as u64, 4);
    }
    assert(s@ =~= year_chars(ts.year as int));
    s.append("-");
    append_decimal(&mut s, ts.month as u64, 2);
    s.append("-");
    append_decimal(&mut s, ts.day as u64, 2);
    s.append("T");
    append_decimal(&mut s, ts.hour as u64, 2);
    s.append(":");
    append_decimal(&mut s, ts.minute as u64, 2);
    s.append(":");
    append_decimal(&mut s, ts.second as u64, 2);
    assert(s@ =~= ts.chars());
    s
}

/// The full text of a `.trashinfo` record: a header line, the original
/// absolute path, and the deletion time.
pub open spec fn info_content(path: Seq<char>, ts: Timestamp) -> Seq<char> {
    "[Trash Info]\n"@ + "Path="@ + path + "\n"@ + "DeletionDate="@ + ts.chars() + "\n"@
}

/// Renders the `.trashinfo` record for an item whose original absolute path
/// was `path`, deleted at `ts`.
pub fn render_trashinfo(path: &str, ts: &Timestamp) -> (r: String)
    ensures
        r@ == info_content(path@, *ts),
{
    let mut s = String::new();
    s.append("[Trash Info]\n");
    s.append("Path=");
    s.append(path);
    s.append("\n");
    s.append("DeletionDate=");
    let stamp = format_timestamp(ts);
    s.append(stamp.as_str());
    s.append("\n");
    assert(s@ =~= info_content(path@, *ts));
    s
}

/// The name of the metadata record for a trash entry named `entry`.
pub open spec fn info_name_chars(entry: Seq<char>) -> Seq<char> {
    entry + ".trashinfo"@
}

/// The desired metadata filename for a trash entry: the entry name with a
/// `.trashinfo` suffix (collisions are resolved separately).
pub fn trashinfo_name(entry: &str) -> (r: String)
    ensures
        r@ == info_name_chars(entry@),
{
    let mut s = entry.to_owned();
    s.append(".trashinfo");
    assert(s@ =~= info_name_chars(entry@));
    s
}

/// Relies on chrono's `From<SystemTime>` for `DateTime<Local>` (which,
/// unlike `Local::now`, handles a system clock set before the Unix epoch
/// without panicking) and its `Datelike` / `Timelike` accessors: `month` is
/// documented as 1 to 12, `day` as 1 to 31, `hour` as 0 to 23, `minute` and
/// `second` as 0 to 59, and the year of any representable date lies
/// strictly within `i32::MIN >> 13` and `i32::MAX >> 13`.
#[verifier::external_body]
fn local_now() -> (t: Timestamp)
    ensures
        t.valid(),
{
    let now = chrono::DateTime::<chrono::Local>::from(std::time::SystemTime::now());
    Timestamp {
        year: now.year(),
        month: now.month() as u8,
        day: now.day() as u8,
        hour: now.hour() as u8,
        minute: now.minute() as u8,
        second: now.second() as u8,
    }
}

/// The local time now, at second precision.
pub fn current_timestamp() -> (t: Timestamp)
    ensures
        t.valid(),
{
    local_now()
}

} // verus!
