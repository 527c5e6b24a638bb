//! Reading the trash store back for display: one entry per item, with the
//! original path and deletion date recovered from the `.trashinfo` record,
//! and the column widths the table needs.

use vstd::prelude::*;

use crate::naming::views;

verus! {

/// One row of the trash listing.
pub struct TrashEntry {
    /// the entry's name under the `files` root
    pub file: String,
    /// the recorded original path, or `Unknown`
    pub path: String,
    /// the recorded deletion date, or `Unknown`
    pub date: String,
}

impl TrashEntry {
    /// The three columns of the row, in display order.
    pub fn ref_array(&self) -> (r: [&String; 3])
        ensures
            r@.len() == 3,
            r@[0]@ == self.file@,
            r@[1]@ == self.path@,
            r@[2]@ == self.date@,
    {
        [&self.file, &self.path, &self.date]
    }

    /// The entry's name under the `files` root.
    pub fn file(&self) -> (r: &str)
        ensures
            r@ == self.file@,
    {
        self.file.as_str()
    }

    /// The recorded original path.
    pub fn path(&self) -> (r: &str)
        ensures
            r@ == self.path@,
    {
        self.path.as_str()
    }

    /// The recorded deletion date.
    pub fn date(&self) -> (r: &str)
        ensures
            r@ == self.date@,
    {
        self.date.as_str()
    }
}

/// The placeholder shown for a missing or malformed metadata field.
pub open spec fn unknown_chars() -> Seq<char> {
    "Unknown"@
}

/// Builds a listing row from an entry name and the recovered metadata
/// fields, substituting `Unknown` for a field that could not be read.
pub fn make_entry(file: String, path: Option<String>, date: Option<String>) -> (r: TrashEntry)
    ensures
        r.file@ == file@,
        r.path@ == (match path {
            Some(p) => p@,
            None => unknown_chars(),
        }),
        r.date@ == (match date {
            Some(d) => d@,
            None => unknown_chars(),
        }),
{
    let p: String = match path {
        Some(p) => p,
        None => "Unknown".to_owned(),
    };
    let d: String = match date {
        Some(d) => d,
        None => "Unknown".to_owned(),
    };
    TrashEntry { file, path: p, date: d }
}

/// Whitespace, as a trim strips it: the Unicode `White_Space` characters.
pub open spec fn is_ws(c: char) -> bool {
    let u = c as u32;
    ||| (0x9 <= u && u <= 0xD)
    ||| u == 0x20
    ||| u == 0x85
    ||| u == 0xA0
    ||| u == 0x1680
    ||| (0x2000 <= u && u <= 0x200A)
    ||| u == 0x2028
    ||| u == 0x2029
    ||| u == 0x202F
    ||| u == 0x205F
    ||| u == 0x3000
}

/// `s` with leading whitespace removed.
pub open spec fn trim_start(s: Seq<char>) -> Seq<char>
    decreases s.len(),
{
    if s.len() > 0 && is_ws(s.first()) {
        trim_start(s.drop_first())
    } else {
        s
    }
}

/// `s` with trailing whitespace removed.
pub open spec fn trim_end(s: Seq<char>) -> Seq<char>
    decreases s.len(),
{
    if s.len() > 0 && is_ws(s.last()) {
        trim_end(s.drop_last())
    } else {
        s
    }
}

/// `s` with surrounding whitespace removed.
pub open spec fn trimmed(s: Seq<char>) -> Seq<char> {
    trim_end(trim_start(s))
}

/// Whether `s` begins with `p`.
pub open spec fn spec_starts_with(s: Seq<char>, p: Seq<char>) -> bool {
    s.len() >= p.len() && s.subrange(0, p.len() as int) == p
}

/// The recovered value of the first line that begins with `key`: the rest
/// of that line, with surrounding whitespace removed.
pub open spec fn find_field(ls: Seq<Seq<char>>, key: Seq<char>) -> Option<Seq<char>>
    decreases ls.len(),
{
    if ls.len() == 0 {
        None
    } else if spec_starts_with(ls.first(), key) {
        Some(trimmed(ls.first().skip(key.len() as int)))
    } else {
        find_field(ls.drop_first(), key)
    }
}

/// Whether `s` begins with `prefix`.
fn str_starts_with(s: &str, prefix: &str) -> (b: bool)
    ensures
        b == spec_starts_with(s@, prefix@),
{
    let n = prefix.unicode_len();
    let m = s.unicode_len();
    if m < n {
        return false;
    }
    let mut i: usize = 0;
    while i < n
        invariant
            i <= n,
            n <= m,
            n == prefix@.len(),
            m == s@.len(),
            forall|j: int| 0 <= j < i ==> s@[j] == prefix@[j],
        decreases n - i,
    {
        if s.get_char(i) != prefix.get_char(i) {
            proof {
                assert(s@.subrange(0, n as int)[i as int] != prefix@[i as int]);
            }
            return false;
        }
        i = i + 1;
    }
    proof {
        assert(s@.subrange(0, n as int) =~= prefix@);
    }
    true
}

/// Whether `c` is whitespace (a Unicode `White_Space` character).
fn is_ws_char(c: char) -> (b: bool)
    ensures
        b == is_ws(c),
{
    let u = c as u32;
    (0x9 <= u && u <= 0xD) || u == 0x20 || u == 0x85 || u == 0xA0 || u == 0x1680 || (0x2000 <= u
        && u <= 0x200A) || u == 0x2028 || u == 0x2029 || u == 0x202F || u == 0x205F || u == 0x3000
}

/// Removes surrounding whitespace from `s`.
fn trim_str(s: &str) -> (r: String)
    ensures
        r@ == trimmed(s@),
{
    let len = s.unicode_len();
    let mut start: usize = 0;
    assert(s@.skip(0) =~= s@);
    while start < len && is_ws_char(s.get_char(start))
        invariant
            start <= len,
            len == s@.len(),
            trim_start(s@) == trim_start(s@.skip(start as int)),
        decreases len - start,
    {
        proof {
            assert(s@.skip(start as int).drop_first() =~= s@.skip(start + 1));
        }
        start = start + 1;
    }
    assert(trim_start(s@) == s@.skip(start as int));
    let mut end = len;
    while end > start && is_ws_char(s.get_char(end - 1))
        invariant
            start <= end <= len,
            len == s@.len(),
            trim_start(s@) == s@.skip(start as int),
            trim_end(s@.skip(start as int)) == trim_end(s@.subrange(start as int, end as int)),
        decreases end,
    {
        proof {
            assert(s@.subrange(start as int, end as int).drop_last() =~= s@.subrange(
                start as int,
                end - 1,
            ));
        }
        end = end - 1;
    }
    assert(trim_end(s@.subrange(start as int, end as int)) == s@.subrange(
        start as int,
        end as int,
    ));
    let r = s.substring_char(start, end).to_owned();
    assert(r@ == trimmed(s@));
    r
}

/// Scans the lines of a `.trashinfo` record for the first one that begins
/// with `key` and returns the rest of that line, with surrounding
/// whitespace removed — the recovered original path for `Path=`, the
/// recovered deletion date for `DeletionDate=`.
pub fn extract_info_field(lines: &Vec<String>, key: &str) -> (r: Option<String>)
    ensures
        match r {
            Some(s) => find_field(views(lines@), key@) == Some(s@),
            None => find_field(views(lines@), key@) is None,
        },
{
    let mut i: usize = 0;
    assert(views(lines@).skip(0) =~= views(lines@));
    while i < lines.len()
        invariant
            i <= lines@.len(),
            find_field(views(lines@), key@) == find_field(views(lines@).skip(i as int), key@),
        decreases lines@.len() - i,
    {
        let line: &String = &lines[i];
        if str_starts_with(line.as_str(), key) {
            let klen = key.unicode_len();
            let llen = line.as_str().unicode_len();
            let suffix = line.as_str().substring_char(klen, llen);
            let t = trim_str(suffix);
            proof {
                assert(views(lines@).skip(i as int).first() == line@);
                assert(suffix@ =~= line@.skip(klen as int));
            }
            return Some(t);
        }
        proof {
            assert(views(lines@).skip(i as int).first() == line@);
            assert(views(lines@).skip(i as int).drop_first() =~= views(lines@).skip(i + 1));
        }
        i = i + 1;
    }
    proof {
        assert(views(lines@).skip(lines@.len() as int).len() == 0);
    }
    None
}


/// The displayed column width of a string, as the width tables define it: a
/// function of the characters alone.
pub uninterp spec fn display_width(s: Seq<char>) -> nat;

/// Relies on `unicode_width::UnicodeWidthStr::width`: the string's displayed
/// width in columns, a pure function of its text (ambiguous-width characters
/// counted as one column); the empty string occupies no columns.
#[verifier::external_body]
fn str_width(s: &str) -> (w: usize)
    ensures
        w as nat == display_width(s@),
        s@.len() == 0 ==> w == 0,
{
    unicode_width::UnicodeWidthStr::width(s)
}

/// The index of the first occurrence of `c` in `s`, if any.
pub open spec fn first_index_of(s: Seq<char>, c: char) -> Option<nat>
    decreases s.len(),
{
    if s.len() == 0 {
        None
    } else if s.first() == c {
        Some(0)
    } else {
        match first_index_of(s.drop_first(), c) {
            Some(i) => Some(i + 1),
            None => None,
        }
    }
}

/// `first_index_of` finds an occurrence with nothing before it, and reports
/// `None` exactly when there is no occurrence.
pub proof fn lemma_first_index_of(s: Seq<char>, c: char)
    ensures
        match first_index_of(s, c) {
            Some(i) => i < s.len() && s[i as int] == c && (forall|j: int|
                0 <= j < i ==> s[j] != c),
            None => forall|j: int| 0 <= j < s.len() ==> s[j] != c,
        },
    decreases s.len(),
{
    if s.len() == 0 {
    } else if s.first() == c {
    } else {
        let t = s.drop_first();
        lemma_first_index_of(t, c);
        match first_index_of(t, c) {
            Some(m) => {
                assert(t[m as int] == s[m as int + 1]);
                assert forall|j: int| 0 <= j < m + 1 implies s[j] != c by {
                    if j == 0 {
                        assert(s[0] == s.first());
                    } else {
                        assert(t[j - 1] == s[j]);
                    }
                }
            },
            None => {
                assert forall|j: int| 0 <= j < s.len() implies s[j] != c by {
                    if j == 0 {
                        assert(s[0] == s.first());
                    } else {
                        assert(t[j - 1] == s[j]);
                    }
                }
            },
        }
    }
}

/// The views of a string sequence extended by one string.
proof fn lemma_views_push(ss: Seq<String>, x: String)
    ensures
        views(ss.push(x)) =~= views(ss).push(x@),
{
}

/// `s` with one trailing carriage return removed, as a line ending strips
/// it.
pub open spec fn strip_cr(s: Seq<char>) -> Seq<char> {
    if s.len() > 0 && s.last() == '\r' {
        s.drop_last()
    } else {
        s
    }
}

/// The lines of `s`: segments split at `\n`, each with one trailing `\r`
/// removed, a final line ending optional, and no lines at all for the empty
/// string.
pub open spec fn spec_lines(s: Seq<char>) -> Seq<Seq<char>>
    decreases s.len(),
    via spec_lines_decreases
{
    if s.len() == 0 {
        Seq::empty()
    } else {
        match first_index_of(s, '\n') {
            None => seq![s],
            Some(i) => seq![strip_cr(s.subrange(0, i as int))] + spec_lines(
                s.subrange(i as int + 1, s.len() as int),
            ),
        }
    }
}

#[via_fn]
proof fn spec_lines_decreases(s: Seq<char>) {
    lemma_first_index_of(s, '\n');
}

/// The index of the first newline of `s`, if any.
fn find_newline(s: &str) -> (r: Option<usize>)
    ensures
        match r {
            Some(i) => first_index_of(s@, '\n') == Some(i as nat),
            None => first_index_of(s@, '\n') is None,
        },
{
    let len = s.unicode_len();
    let mut i: usize = 0;
    assert(s@.skip(0) =~= s@);
    while i < len
        invariant
            i <= len,
            len == s@.len(),
            first_index_of(s@, '\n') == (match first_index_of(s@.skip(i as int), '\n') {
                Some(m) => Some((m + i) as nat),
                None => None::<nat>,
            }),
        decreases len - i,
    {
        if s.get_char(i) == '\n' {
            proof {
                assert(s@.skip(i as int).first() == '\n');
            }
            return Some(i);
        }
        proof {
            assert(s@.skip(i as int).first() != '\n');
            assert(s@.skip(i as int).drop_first() =~= s@.skip(i + 1));
        }
        i = i + 1;
    }
    proof {
        assert(s@.skip(len as int).len() == 0);
    }
    None
}

/// `s` with one trailing carriage return removed.
fn strip_cr_string(s: &str) -> (r: String)
    ensures
        r@ == strip_cr(s@),
{
    let len = s.unicode_len();
    if len > 0 && s.get_char(len - 1) == '\r' {
        let r = s.substring_char(0, len - 1).to_owned();
        proof {
            assert(s@.drop_last() =~= s@.subrange(0, len - 1));
        }
        r
    } else {
        s.to_owned()
    }
}

/// Splits `s` into its lines (see [`spec_lines`]).
pub fn split_lines(s: &str) -> (v: Vec<String>)
    ensures
        views(v@) == spec_lines(s@),
    decreases s@.len(),
{
    let len = s.unicode_len();
    if len == 0 {
        let v: Vec<String> = Vec::new();
        assert(views(v@) =~= spec_lines(s@));
        return v;
    }
    match find_newline(s) {
        None => {
            let mut v: Vec<String> = Vec::new();
            v.push(s.to_owned());
            assert(views(v@) =~= spec_lines(s@));
            v
        },
        Some(i) => {
            proof {
                lemma_first_index_of(s@, '\n');
            }
            let head = strip_cr_string(s.substring_char(0, i));
            let tail = s.substring_char(i + 1, len);
            let rest = split_lines(tail);
            let mut v: Vec<String> = Vec::new();
            v.push(head);
            let mut j: usize = 0;
            while j < rest.len()
                invariant
                    j <= rest@.len(),
                    v@.len() == j + 1,
                    views(v@) =~= seq![strip_cr(s@.subrange(0, i as int))] + views(rest@).take(
                        j as int,
                    ),
                decreases rest@.len() - j,
            {
                let ghost prev = v@;
                v.push(rest[j].clone());
                proof {
                    lemma_views_push(prev, rest@[j as int]);
                    assert(v@ =~= prev.push(rest@[j as int]));
                    assert(views(rest@).take(j + 1) =~= views(rest@).take(j as int).push(
                        rest@[j as int]@,
                    ));
                    assert(views(v@) =~= seq![strip_cr(s@.subrange(0, i as int))] + views(
                        rest@,
                    ).take(j + 1));
                }
                j = j + 1;
            }
            proof {
                assert(views(rest@).take(rest@.len() as int) =~= views(rest@));
                assert(views(v@) =~= spec_lines(s@));
            }
            v
        },
    }
}

/// The larger of two widths.
pub open spec fn nat_max(a: nat, b: nat) -> nat {
    if a >= b {
        a
    } else {
        b
    }
}

/// The widest display width among `lines`.
pub open spec fn max_line_width(lines: Seq<Seq<char>>) -> nat
    decreases lines.len(),
{
    if lines.len() == 0 {
        0
    } else {
        nat_max(max_line_width(lines.drop_last()), display_width(lines.last()))
    }
}

/// The display width the path column of an entry needs: its widest line.
pub open spec fn path_width(p: Seq<char>) -> nat {
    max_line_width(spec_lines(p))
}

/// The widest file name among the entries.
pub open spec fn max_file_width(items: Seq<TrashEntry>) -> nat
    decreases items.len(),
{
    if items.len() == 0 {
        0
    } else {
        nat_max(max_file_width(items.drop_last()), display_width(items.last().file@))
    }
}

/// The widest path line among the entries.
pub open spec fn max_path_width(items: Seq<TrashEntry>) -> nat
    decreases items.len(),
{
    if items.len() == 0 {
        0
    } else {
        nat_max(max_path_width(items.drop_last()), path_width(items.last().path@))
    }
}

/// The widest date among the entries.
pub open spec fn max_date_width(items: Seq<TrashEntry>) -> nat
    decreases items.len(),
{
    if items.len() == 0 {
        0
    } else {
        nat_max(max_date_width(items.drop_last()), display_width(items.last().date@))
    }
}

/// A width clipped to the table's 16-bit column type.
pub open spec fn clip16(n: nat) -> u16 {
    (n % 0x10000) as u16
}

/// The widths the three columns of the listing table need: the widest file
/// name, the widest line of a path, and the widest date, each clipped to
/// the column type.
pub fn constraint_len_calculator(items: &Vec<TrashEntry>) -> (r: (u16, u16, u16))
    ensures
        r.0 == clip16(max_file_width(items@)),
        r.1 == clip16(max_path_width(items@)),
        r.2 == clip16(max_date_width(items@)),
{
    let mut file_w: usize = 0;
    let mut path_w: usize = 0;
    let mut date_w: usize = 0;
    let mut i: usize = 0;
    assert(items@.take(0) =~= Seq::empty());
    while i < items.len()
        invariant
            i <= items@.len(),
            file_w as nat == max_file_width(items@.take(i as int)),
            path_w as nat == max_path_width(items@.take(i as int)),
            date_w as nat == max_date_width(items@.take(i as int)),
        decreases items@.len() - i,
    {
        let item = &items[i];
        let fw = str_width(item.file.as_str());
        if fw > file_w {
            file_w = fw;
        }
        let dw = str_width(item.date.as_str());
        if dw > date_w {
            date_w = dw;
        }
        let plines = split_lines(item.path.as_str());
        let mut j: usize = 0;
        assert(views(plines@).take(0) =~= Seq::empty());
        while j < plines.len()
            invariant
                j <= plines@.len(),
                views(plines@) == spec_lines(items@[i as int].path@),
                i < items@.len(),
                path_w as nat == nat_max(
                    max_path_width(items@.take(i as int)),
                    max_line_width(views(plines@).take(j as int)),
                ),
            decreases plines@.len() - j,
        {
            let lw = str_width(plines[j].as_str());
            if lw > path_w {
                path_w = lw;
            }
            proof {
                assert(views(plines@).take(j + 1).drop_last() =~= views(plines@).take(j as int));
                assert(views(plines@).take(j + 1).last() == plines@[j as int]@);
            }
            j = j + 1;
        }
        proof {
            assert(views(plines@).take(plines@.len() as int) =~= views(plines@));
            assert(items@.take(i + 1).drop_last() =~= items@.take(i as int));
            assert(items@.take(i + 1).last() == items@[i as int]);
        }
        i = i + 1;
    }
    proof {
        assert(items@.take(items@.len() as int) =~= items@);
    }
    let file_col = #[verifier::truncate] (file_w as u16);
    let path_col = #[verifier::truncate] (path_w as u16);
    let date_col = #[verifier::truncate] (date_w as u16);
    assert(file_col == clip16(file_w as nat) && path_col == clip16(path_w as nat) && date_col
        == clip16(date_w as nat)) by (bit_vector)
        requires
            file_col == file_w as u16 && path_col == path_w as u16 && date_col == date_w as u16,
    ;
    (file_col, path_col, date_col)
}

} // verus!
