//! Collision-free destination names.
//!
//! Given the names already present in a target directory and a desired
//! filename, the resolver returns the first free name in the sequence
//! `name`, `stem(1).ext`, `stem(2).ext`, ... where the extension is the text
//! after the last `.` of the name, if any.  The probe sequence is capped one
//! past the number of occupied names; when every probed candidate is taken
//! the resolver reports a conflict instead of searching further.

use vstd::prelude::*;

use crate::decimal::{dec_chars, lemma_decimal_chars_len, lemma_decimal_chars_injective, append_decimal};
use crate::errors::TrashError;

verus! {

/// The index of the last occurrence of `c` in `s`, if any.
pub open spec fn last_index_of(s: Seq<char>, c: char) -> Option<int>
    decreases s.len(),
{
    if s.len() == 0 {
        None
    } else if s.last() == c {
        Some(s.len() - 1)
    } else {
        last_index_of(s.drop_last(), c)
    }
}

/// `last_index_of` finds an occurrence with nothing after it, and reports
/// `None` exactly when there is no occurrence.
pub proof fn lemma_last_index_of(s: Seq<char>, c: char)
    ensures
        match last_index_of(s, c) {
            Some(i) => 0 <= i < s.len() && s[i] == c && (forall|j: int|
                i < j < s.len() ==> s[j] != c),
            None => forall|j: int| 0 <= j < s.len() ==> s[j] != c,
        },
    decreases s.len(),
{
    if s.len() == 0 {
    } else if s.last() == c {
    } else {
        let t = s.drop_last();
        lemma_last_index_of(t, c);
        assert(forall|j: int| 0 <= j < t.len() ==> t[j] == s[j]);
        match last_index_of(t, c) {
            Some(i) => {
                assert forall|j: int| i < j < s.len() implies s[j] != c by {
                    if j < s.len() - 1 {
                        assert(s[j] == t[j]);
                    } else {
                        assert(s[j] == s.last());
                    }
                }
            },
            None => {
                assert forall|j: int| 0 <= j < s.len() implies s[j] != c by {
                    if j < s.len() - 1 {
                        assert(s[j] == t[j]);
                    } else {
                        assert(s[j] == s.last());
                    }
                }
            },
        }
    }
}

/// The `k`-th candidate name: the name itself for `k == 0`, and otherwise
/// the name with `(k)` inserted before its extension (the text after the
/// last `.`), or appended when there is no extension.
pub open spec fn candidate(name: Seq<char>, k: nat) -> Seq<char> {
    if k == 0 {
        name
    } else {
        match last_index_of(name, '.') {
            Some(i) => name.subrange(0, i) + seq!['('] + dec_chars(k) + seq![')'] + name.subrange(
                i,
                name.len() as int,
            ),
            None => name + seq!['('] + dec_chars(k) + seq![')'],
        }
    }
}

/// A suffixed candidate is strictly longer than the name itself.
pub proof fn lemma_candidate_longer(name: Seq<char>, k: nat)
    requires
        k >= 1,
    ensures
        candidate(name, k).len() >= name.len() + 3,
{
    lemma_decimal_chars_len(k, 1);
    match last_index_of(name, '.') {
        Some(i) => {
            lemma_last_index_of(name, '.');
        },
        None => {},
    }
}

/// The views of a sequence of strings.
pub open spec fn views(ss: Seq<String>) -> Seq<Seq<char>> {
    ss.map_values(|s: String| s@)
}

/// The first free candidate at counter `k` or beyond, probing at most up to
/// counter `occ.len()`.
pub open spec fn resolve_from(occ: Seq<Seq<char>>, name: Seq<char>, k: nat) -> Option<Seq<char>>
    recommends
        k <= occ.len(),
    decreases occ.len() - k,
{
    if !occ.contains(candidate(name, k)) {
        Some(candidate(name, k))
    } else if k >= occ.len() {
        None
    } else {
        resolve_from(occ, name, k + 1)
    }
}

/// The name that conflict resolution chooses among `occ` for `name`.
pub open spec fn resolved_name(occ: Seq<Seq<char>>, name: Seq<char>) -> Option<Seq<char>> {
    resolve_from(occ, name, 0)
}

/// The index of the last occurrence of `c` in `s`, if any.
pub(crate) fn find_last(s: &str, c: char) -> (r: Option<usize>)
    ensures
        match r {
            Some(i) => last_index_of(s@, c) == Some(i as int),
            None => last_index_of(s@, c) is None,
        },
{
    let len = s.unicode_len();
    let mut i = len;
    assert(s@.subrange(0, len as int) =~= s@);
    while i > 0
        invariant
            i <= len,
            len == s@.len(),
            last_index_of(s@, c) == last_index_of(s@.subrange(0, i as int), c),
        decreases i,
    {
        let ch = s.get_char(i - 1);
        if ch == c {
            proof {
                assert(s@.subrange(0, i as int).last() == c);
            }
            return Some(i - 1);
        }
        proof {
            assert(s@.subrange(0, i as int).drop_last() =~= s@.subrange(0, i - 1));
        }
        i = i - 1;
    }
    proof {
        assert(s@.subrange(0, 0).len() == 0);
    }
    None
}

/// Builds the `k`-th candidate name for `k >= 1`.
fn build_candidate(name: &str, k: u64) -> (r: String)
    requires
        k >= 1,
    ensures
        r@ == candidate(name@, k as nat),
{
    proof {
        reveal_strlit("(");
        reveal_strlit(")");
    }
    let len = name.unicode_len();
    let mut s: String;
    match find_last(name, '.') {
        Some(i) => {
            proof {
                lemma_last_index_of(name@, '.');
            }
            s = name.substring_char(0, i).to_owned();
            s.append("(");
            append_decimal(&mut s, k, 1);
            s.append(")");
            s.append(name.substring_char(i, len));
            proof {
                lemma_last_index_of(name@, '.');
                assert(s@ =~= candidate(name@, k as nat));
            }
        },
        None => {
            s = name.to_owned();
            s.append("(");
            append_decimal(&mut s, k, 1);
            s.append(")");
            proof {
                assert(s@ =~= candidate(name@, k as nat));
            }
        },
    }
    s
}

/// Whether `target` is among `names`.
fn names_contain(names: &Vec<String>, target: &String) -> (b: bool)
    ensures
        b == views(names@).contains(target@),
{
    let mut i: usize = 0;
    while i < names.len()
        invariant
            i <= names@.len(),
            forall|j: int| 0 <= j < i ==> names@[j]@ != target@,
        decreases names@.len() - i,
    {
        if names[i].eq(target) {
            assert(views(names@)[i as int] == target@);
            assert(views(names@).contains(target@));
            return true;
        }
        i = i + 1;
    }
    assert(forall|j: int| 0 <= j < views(names@).len() ==> views(names@)[j] != target@);
    false
}

/// Returns the first name of the candidate sequence for `desired` that is
/// not among `occupied`, probing counters `0 ..= occupied.len()`, or a
/// conflict error when every probed candidate is occupied.
pub fn resolve_naming_conflict(occupied: &Vec<String>, desired: &String) -> (r: Result<
    String,
    TrashError,
>)
    ensures
        match r {
            Ok(name) => resolved_name(views(occupied@), desired@) == Some(name@),
            Err(e) => e == TrashError::Conflict && resolved_name(views(occupied@), desired@)
                is None,
        },
{
    let mut k: usize = 0;
    loop
        invariant
            k <= occupied@.len(),
            resolved_name(views(occupied@), desired@) == resolve_from(
                views(occupied@),
                desired@,
                k as nat,
            ),
        decreases occupied@.len() - k,
    {
        let cand: String = if k == 0 {
            desired.clone()
        } else {
            build_candidate(desired.as_str(), k as u64)
        };
        assert(cand@ == candidate(desired@, k as nat));
        if !names_contain(occupied, &cand) {
            return Ok(cand);
        }
        if k == occupied.len() {
            return Err(TrashError::Conflict);
        }
        k = k + 1;
    }
}

/// Law: a resolved name is never one of the occupied names.
pub proof fn lemma_resolved_name_free(occ: Seq<Seq<char>>, name: Seq<char>, k: nat, c: Seq<char>)
    requires
        k <= occ.len(),
        resolve_from(occ, name, k) == Some(c),
    ensures
        !occ.contains(c),
    decreases occ.len() - k,
{
    if !occ.contains(candidate(name, k)) {
    } else if k >= occ.len() {
    } else {
        lemma_resolved_name_free(occ, name, k + 1, c);
    }
}

/// Law: a resolved name is one of the candidates, with every smaller
/// counter's candidate occupied.
pub proof fn lemma_resolved_name_least(occ: Seq<Seq<char>>, name: Seq<char>, k: nat, c: Seq<char>)
    requires
        k <= occ.len(),
        resolve_from(occ, name, k) == Some(c),
    ensures
        exists|m: nat|
            k <= m && c == candidate(name, m) && !occ.contains(candidate(name, m)) && (forall|
                j: nat,
            | k <= j < m ==> occ.contains(candidate(name, j))),
    decreases occ.len() - k,
{
    if !occ.contains(candidate(name, k)) {
        assert(k <= k && c == candidate(name, k) && !occ.contains(candidate(name, k)) && (forall|
            j: nat,
        | k <= j < k ==> occ.contains(candidate(name, j))));
    } else if k >= occ.len() {
    } else {
        lemma_resolved_name_least(occ, name, k + 1, c);
        let m = choose|m: nat|
            k + 1 <= m && c == candidate(name, m) && !occ.contains(candidate(name, m)) && (forall|
                j: nat,
            | k + 1 <= j < m ==> occ.contains(candidate(name, j)));
        assert(k <= m && c == candidate(name, m) && !occ.contains(candidate(name, m)) && (forall|
            j: nat,
        | k <= j < m ==> occ.contains(candidate(name, j))));
    }
}

/// Law: when the candidate at counter `k` is free and every smaller
/// counter's candidate is occupied, resolution returns exactly that
/// candidate.  In particular, with the same occupied set, resolution is
/// deterministic: an occupied `f` with `f(1)` free resolves to `f(1)`, with
/// `f` and `f(1)` occupied and `f(2)` free it resolves to `f(2)`, and so on.
pub proof fn lemma_resolve_least(occ: Seq<Seq<char>>, name: Seq<char>, k: nat)
    requires
        k <= occ.len(),
        !occ.contains(candidate(name, k)),
        forall|j: nat| j < k ==> occ.contains(candidate(name, j)),
    ensures
        resolved_name(occ, name) == Some(candidate(name, k)),
{
    lemma_resolve_least_from(occ, name, 0, k);
}

proof fn lemma_resolve_least_from(occ: Seq<Seq<char>>, name: Seq<char>, j: nat, k: nat)
    requires
        j <= k <= occ.len(),
        !occ.contains(candidate(name, k)),
        forall|i: nat| i < k ==> occ.contains(candidate(name, i)),
    ensures
        resolve_from(occ, name, j) == Some(candidate(name, k)),
    decreases k - j,
{
    if j == k {
    } else {
        assert(occ.contains(candidate(name, j)));
        lemma_resolve_least_from(occ, name, j + 1, k);
    }
}

/// Law: a name that is not occupied resolves to itself.
pub proof fn lemma_resolve_identity(occ: Seq<Seq<char>>, name: Seq<char>)
    requires
        !occ.contains(name),
    ensures
        resolved_name(occ, name) == Some(name),
{
    assert(candidate(name, 0) == name);
}

/// Round-trip naming law: when the desired name is already occupied, the
/// resolved name differs from it, is itself free, and is the name with a
/// counter inserted immediately before the extension (the text after the
/// last `.`), which is preserved exactly once.
pub proof fn lemma_round_trip_naming(occ: Seq<Seq<char>>, name: Seq<char>, c: Seq<char>)
    requires
        occ.contains(name),
        resolved_name(occ, name) == Some(c),
    ensures
        c != name,
        !occ.contains(c),
        match last_index_of(name, '.') {
            Some(i) => exists|k: nat|
                1 <= k && c == name.subrange(0, i) + seq!['('] + dec_chars(k) + seq![')']
                    + name.subrange(i, name.len() as int),
            None => exists|k: nat| 1 <= k && c == name + seq!['('] + dec_chars(k) + seq![')'],
        },
{
    lemma_resolved_name_free(occ, name, 0, c);
    lemma_resolved_name_least(occ, name, 0, c);
    let m = choose|m: nat|
        0 <= m && c == candidate(name, m) && !occ.contains(candidate(name, m)) && (forall|j: nat|
            0 <= j < m ==> occ.contains(candidate(name, j)));
    assert(candidate(name, 0) == name);
    assert(m >= 1);
    lemma_candidate_longer(name, m);
    match last_index_of(name, '.') {
        Some(i) => {
            assert(c == name.subrange(0, i) + seq!['('] + dec_chars(m) + seq![')'] + name.subrange(
                i,
                name.len() as int,
            ));
        },
        None => {
            assert(c == name + seq!['('] + dec_chars(m) + seq![')']);
        },
    }
}


/// Distinct counters give distinct candidate names.
pub proof fn lemma_candidate_injective(name: Seq<char>, k1: nat, k2: nat)
    requires
        candidate(name, k1) == candidate(name, k2),
    ensures
        k1 == k2,
{
    if k1 == 0 && k2 == 0 {
    } else if k1 == 0 {
        lemma_candidate_longer(name, k2);
    } else if k2 == 0 {
        lemma_candidate_longer(name, k1);
    } else {
        let d1 = dec_chars(k1);
        let d2 = dec_chars(k2);
        lemma_decimal_chars_len(k1, 1);
        lemma_decimal_chars_len(k2, 1);
        let c1 = candidate(name, k1);
        let c2 = candidate(name, k2);
        match last_index_of(name, '.') {
            Some(i) => {
                lemma_last_index_of(name, '.');
                let tail = name.subrange(i, name.len() as int);
                assert(c1 == name.subrange(0, i) + seq!['('] + d1 + seq![')'] + tail);
                assert(c2 == name.subrange(0, i) + seq!['('] + d2 + seq![')'] + tail);
                assert(c1.len() == i + 1 + d1.len() + 1 + tail.len());
                assert(c2.len() == i + 1 + d2.len() + 1 + tail.len());
                assert(d1.len() == d2.len());
                assert forall|j: int| 0 <= j < d1.len() implies d1[j] == d2[j] by {
                    assert((name.subrange(0, i) + seq!['('] + d1)[i + 1 + j] == d1[j]);
                    assert((name.subrange(0, i) + seq!['('] + d2)[i + 1 + j] == d2[j]);
                    assert(c1[i + 1 + j] == d1[j]);
                    assert(c2[i + 1 + j] == d2[j]);
                }
                assert(d1 =~= d2);
            },
            None => {
                let w = name.len() as int;
                assert(c1 == name + seq!['('] + d1 + seq![')']);
                assert(c2 == name + seq!['('] + d2 + seq![')']);
                assert(c1.len() == w + 1 + d1.len() + 1);
                assert(c2.len() == w + 1 + d2.len() + 1);
                assert(d1.len() == d2.len());
                assert forall|j: int| 0 <= j < d1.len() implies d1[j] == d2[j] by {
                    assert((name + seq!['('] + d1)[w + 1 + j] == d1[j]);
                    assert((name + seq!['('] + d2)[w + 1 + j] == d2[j]);
                    assert(c1[w + 1 + j] == d1[j]);
                    assert(c2[w + 1 + j] == d2[j]);
                }
                assert(d1 =~= d2);
            },
        }
        lemma_decimal_chars_injective(k1, k2, 1, 1);
    }
}

/// When resolution gives up, every probed candidate was occupied.
proof fn lemma_resolve_none_all_occupied(occ: Seq<Seq<char>>, name: Seq<char>, k: nat)
    requires
        k <= occ.len(),
        resolve_from(occ, name, k) is None,
    ensures
        forall|j: int| k <= j <= occ.len() ==> occ.contains(#[trigger] candidate(name, j as nat)),
    decreases occ.len() - k,
{
    if k < occ.len() {
        lemma_resolve_none_all_occupied(occ, name, k + 1);
    }
}

/// Law: conflict resolution always finds a free name.  The candidates with
/// counters up to the number of occupied names are pairwise distinct, and
/// there is one more of them than there are occupied names, so at least one
/// is free and the defensive cap is never reached.
pub proof fn lemma_resolution_always_succeeds(occ: Seq<Seq<char>>, name: Seq<char>)
    ensures
        resolved_name(occ, name) is Some,
{
    broadcast use vstd::seq_lib::seq_to_set_is_finite;

    let n = occ.len() as int;
    if resolved_name(occ, name) is None {
        lemma_resolve_none_all_occupied(occ, name, 0);
        let cands = Seq::new((n + 1) as nat, |k: int| candidate(name, k as nat));
        assert(cands.no_duplicates()) by {
            assert forall|i: int, j: int|
                0 <= i < cands.len() && 0 <= j < cands.len() && i != j implies cands[i]
                != cands[j] by {
                if cands[i] == cands[j] {
                    lemma_candidate_injective(name, i as nat, j as nat);
                }
            }
        }
        cands.unique_seq_to_set();
        occ.lemma_cardinality_of_set();
        assert(cands.to_set().subset_of(occ.to_set())) by {
            assert forall|x: Seq<char>| cands.to_set().contains(x) implies occ.to_set().contains(
                x,
            ) by {
                let idx = choose|idx: int| 0 <= idx < cands.len() && cands[idx] == x;
                assert(occ.contains(candidate(name, idx as nat)));
            }
        }
        vstd::set_lib::lemma_len_subset(cands.to_set(), occ.to_set());
        assert(false);
    }
}

} // verus!
