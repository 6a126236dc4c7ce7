//! Plain-text helpers shared by the workflows.
//!
//! The ledger persists a client list as a single comma-joined string, and the
//! verify workflow recovers the ordered list by splitting on the comma again;
//! the registry tool answers with line-oriented, space-separated text.  This
//! module gives both operations an exact specification, executable
//! counterparts, and the round-trip law the persistence format depends on.

use vstd::prelude::*;
use vstd::string::*;

verus! {

/// Whether `c` occurs anywhere in `s`.
pub open spec fn contains_char(s: Seq<char>, c: char) -> bool {
    exists|i: int| 0 <= i < s.len() && s[i] == c
}

/// Index of the first occurrence of `c` in `s`, or `-1` when absent.
pub open spec fn find_char(s: Seq<char>, c: char) -> int
    decreases s.len(),
{
    if s.len() == 0 {
        -1
    } else if s[0] == c {
        0
    } else {
        let rest = find_char(s.skip(1), c);
        if rest < 0 {
            -1
        } else {
            rest + 1
        }
    }
}

pub proof fn lemma_find_char(s: Seq<char>, c: char)
    ensures
        find_char(s, c) == -1 || 0 <= find_char(s, c) < s.len(),
        (find_char(s, c) == -1) <==> !contains_char(s, c),
        find_char(s, c) >= 0 ==> s[find_char(s, c)] == c,
        forall|j: int| 0 <= j < find_char(s, c) ==> s[j] != c,
    decreases s.len(),
{
    if s.len() == 0 {
    } else if s[0] == c {
    } else {
        let t = s.skip(1);
        lemma_find_char(t, c);
        assert(forall|j: int| 0 <= j < t.len() ==> t[j] == s[j + 1]);
        if find_char(t, c) == -1 {
            assert(!contains_char(s, c)) by {
                if contains_char(s, c) {
                    let i = choose|i: int| 0 <= i < s.len() && s[i] == c;
                    assert(t[i - 1] == c);
                }
            }
        } else {
            let r = find_char(t, c);
            assert(s[r + 1] == t[r]);
            assert(forall|j: int| 0 <= j < find_char(s, c) ==> s[j] != c) by {
                assert(forall|j: int| 1 <= j < find_char(s, c) ==> s[j] == t[j - 1]);
            }
        }
    }
}

/// If `c` first shows up at position `i`, `find_char` says exactly `i`.
proof fn lemma_find_char_at(s: Seq<char>, c: char, i: int)
    requires
        0 <= i < s.len(),
        s[i] == c,
        forall|j: int| 0 <= j < i ==> s[j] != c,
    ensures
        find_char(s, c) == i,
{
    lemma_find_char(s, c);
    let f = find_char(s, c);
    assert(contains_char(s, c));
    if f < i {
        assert(s[f] == c);
    } else if f > i {
        assert(s[i] != c);
    }
}

/// If `c` never shows up, `find_char` says so.
proof fn lemma_find_char_none(s: Seq<char>, c: char)
    requires
        forall|j: int| 0 <= j < s.len() ==> s[j] != c,
    ensures
        find_char(s, c) == -1,
{
    lemma_find_char(s, c);
    if find_char(s, c) >= 0 {
        assert(s[find_char(s, c)] == c);
    }
}

/// The pieces of `s` between occurrences of `sep`, in order.  A string
/// without the separator is a single piece, so the result is never empty;
/// the empty string yields one empty piece.
pub open spec fn split_on_spec(s: Seq<char>, sep: char) -> Seq<Seq<char>>
    decreases s.len(),
        via split_on_spec_decreases
{
    let i = find_char(s, sep);
    if i < 0 {
        seq![s]
    } else {
        seq![s.take(i)] + split_on_spec(s.skip(i + 1), sep)
    }
}

#[via_fn]
proof fn split_on_spec_decreases(s: Seq<char>, sep: char) {
    lemma_find_char(s, sep);
}

/// The pieces joined back together with `sep` between neighbours.
pub open spec fn join_on_spec(parts: Seq<Seq<char>>, sep: char) -> Seq<char>
    decreases parts.len(),
{
    if parts.len() == 0 {
        Seq::empty()
    } else if parts.len() == 1 {
        parts[0]
    } else {
        parts[0] + seq![sep] + join_on_spec(parts.skip(1), sep)
    }
}

/// Splitting a separator-free piece list that was joined with that same
/// separator gives the original list back, element for element.  This is
/// what lets the verify workflow recover the exact client list the create
/// workflow persisted.
pub proof fn lemma_join_split_roundtrip(parts: Seq<Seq<char>>, sep: char)
    requires
        parts.len() > 0,
        forall|i: int| 0 <= i < parts.len() ==> !contains_char(#[trigger] parts[i], sep),
    ensures
        split_on_spec(join_on_spec(parts, sep), sep) == parts,
    decreases parts.len(),
{
    let s = join_on_spec(parts, sep);
    if parts.len() == 1 {
        assert(s == parts[0]);
        assert(forall|j: int| 0 <= j < s.len() ==> s[j] != sep);
        lemma_find_char_none(s, sep);
        assert(split_on_spec(s, sep) =~= parts);
    } else {
        let rest = join_on_spec(parts.skip(1), sep);
        let head = parts[0];
        let n = head.len() as int;
        assert(s == head + seq![sep] + rest);
        assert(s.len() == n + 1 + rest.len());
        assert(forall|j: int| 0 <= j < n ==> s[j] == head[j]);
        assert(s[n] == sep);
        assert(forall|j: int| 0 <= j < n ==> s[j] != sep);
        lemma_find_char_at(s, sep, n);
        assert(s.take(n) =~= head);
        assert(s.skip(n + 1) =~= rest);
        assert(forall|i: int|
            0 <= i < parts.skip(1).len() ==> !contains_char(#[trigger] parts.skip(1)[i], sep)) by {
            assert(forall|i: int| 0 <= i < parts.skip(1).len() ==> parts.skip(1)[i] == parts[i + 1]);
        }
        lemma_join_split_roundtrip(parts.skip(1), sep);
        assert(split_on_spec(s, sep) == seq![head] + parts.skip(1));
        assert(seq![head] + parts.skip(1) =~= parts);
    }
}

/// One splitting step: with no separator before position `i` and one at `i`,
/// the first piece of the tail starting at `start` ends right there.
proof fn lemma_split_step(s: Seq<char>, sep: char, start: int, i: int)
    requires
        0 <= start <= i < s.len(),
        s[i] == sep,
        forall|j: int| start <= j < i ==> s[j] != sep,
    ensures
        split_on_spec(s.skip(start), sep) == seq![s.subrange(start, i)] + split_on_spec(
            s.skip(i + 1),
            sep,
        ),
{
    let t = s.skip(start);
    assert(forall|j: int| 0 <= j < t.len() ==> t[j] == s[j + start]);
    assert(t[i - start] == sep);
    lemma_find_char_at(t, sep, i - start);
    assert(t.take(i - start) =~= s.subrange(start, i));
    assert(t.skip(i - start + 1) =~= s.skip(i + 1));
}

/// The closing step: with no separator from `start` on, the tail is one piece.
proof fn lemma_split_last(s: Seq<char>, sep: char, start: int)
    requires
        0 <= start <= s.len(),
        forall|j: int| start <= j < s.len() ==> s[j] != sep,
    ensures
        split_on_spec(s.skip(start), sep) == seq![s.subrange(start, s.len() as int)],
{
    let t = s.skip(start);
    assert(forall|j: int| 0 <= j < t.len() ==> t[j] == s[j + start]);
    lemma_find_char_none(t, sep);
    assert(t =~= s.subrange(start, s.len() as int));
}

/// Splits `s` at every occurrence of `sep`.
pub fn split_on(s: &str, sep: char) -> (parts: Vec<String>)
    ensures
        parts.deep_view() == split_on_spec(s@, sep),
{
    let n = s.unicode_len();
    let mut parts: Vec<String> = Vec::new();
    let mut start: usize = 0;
    let mut i: usize = 0;
    proof {
        assert(s@.skip(0) =~= s@);
        assert(parts.deep_view() + split_on_spec(s@, sep) =~= split_on_spec(s@, sep));
    }
    while i < n
        invariant
            start <= i <= n,
            n == s@.len(),
            forall|j: int| start <= j < i ==> s@[j] != sep,
            parts.deep_view() + split_on_spec(s@.skip(start as int), sep) == split_on_spec(
                s@,
                sep,
            ),
        decreases n - i,
    {
        if s.get_char(i) == sep {
            let token = s.substring_char(start, i).to_owned();
            proof {
                lemma_split_step(s@, sep, start as int, i as int);
                assert(parts.deep_view().push(token@) + split_on_spec(
                    s@.skip(i + 1 as int),
                    sep,
                ) =~= parts.deep_view() + split_on_spec(s@.skip(start as int), sep));
            }
            parts.push(token);
            proof {
                assert(parts.deep_view() =~= parts.deep_view().take(
                    parts.deep_view().len() - 1,
                ).push(token@));
            }
            start = i + 1;
        }
        i = i + 1;
    }
    let token = s.substring_char(start, n).to_owned();
    proof {
        lemma_split_last(s@, sep, start as int);
        assert(parts.deep_view().push(token@) =~= parts.deep_view() + split_on_spec(
            s@.skip(start as int),
            sep,
        ));
    }
    parts.push(token);
    proof {
        assert(parts.deep_view() =~= parts.deep_view().take(parts.deep_view().len() - 1).push(
            token@,
        ));
    }
    parts
}

/// One joining step: the join of one more piece appends a separator and
/// that piece.
proof fn lemma_join_push(parts: Seq<Seq<char>>, sep: char, i: int)
    requires
        1 <= i < parts.len(),
    ensures
        join_on_spec(parts.take(i + 1), sep) == join_on_spec(parts.take(i), sep) + seq![sep]
            + parts[i],
    decreases i,
{
    let t = parts.take(i + 1);
    assert(t.len() == i + 1);
    assert(t[0] == parts[0]);
    assert(t.skip(1) =~= parts.skip(1).take(i));
    if i == 1 {
        assert(join_on_spec(t, sep) == t[0] + seq![sep] + join_on_spec(t.skip(1), sep));
        assert(join_on_spec(t.skip(1), sep) == parts[1]);
        assert(join_on_spec(parts.take(1), sep) == parts[0]);
    } else {
        lemma_join_push(parts.skip(1), sep, i - 1);
        assert(forall|j: int| 0 <= j < parts.skip(1).len() ==> parts.skip(1)[j] == parts[j + 1]);
        assert(join_on_spec(t, sep) == parts[0] + seq![sep] + join_on_spec(
            parts.skip(1).take(i),
            sep,
        ));
        assert(join_on_spec(parts.skip(1).take(i), sep) == join_on_spec(
            parts.skip(1).take(i - 1),
            sep,
        ) + seq![sep] + parts[i]);
        let u = parts.take(i);
        assert(u.len() == i >= 2);
        assert(u.skip(1) =~= parts.skip(1).take(i - 1));
        assert(join_on_spec(u, sep) == parts[0] + seq![sep] + join_on_spec(
            parts.skip(1).take(i - 1),
            sep,
        ));
        assert(join_on_spec(t, sep) =~= join_on_spec(u, sep) + seq![sep] + parts[i]);
    }
}

/// Joins the pieces with a comma between neighbours, the encoding under
/// which a transaction's client list is persisted.
pub fn join_comma(parts: &Vec<String>) -> (joined: String)
    ensures
        joined@ == join_on_spec(parts.deep_view(), ','),
{
    if parts.len() == 0 {
        let empty = String::new();
        return empty;
    }
    let mut joined = parts[0].clone();
    let mut i: usize = 1;
    while i < parts.len()
        invariant
            1 <= i <= parts.len(),
            joined@ == join_on_spec(parts.deep_view().take(i as int), ','),
        decreases parts.len() - i,
    {
        proof {
            lemma_join_push(parts.deep_view(), ',', i as int);
        }
        joined.append(",");
        proof {
            reveal_strlit(",");
            assert(","@ =~= seq![',']);
        }
        joined.append(parts[i].as_str());
        i = i + 1;
    }
    proof {
        assert(parts.deep_view().take(parts.deep_view().len() as int) =~= parts.deep_view());
    }
    joined
}

/// `line` without one trailing carriage return, if it carries one.
pub open spec fn strip_cr(line: Seq<char>) -> Seq<char> {
    if line.len() > 0 && line[line.len() - 1] == '\r' {
        line.drop_last()
    } else {
        line
    }
}

/// The lines of `s`: pieces between newlines, one optional trailing
/// carriage return removed from each, and no empty piece after a final
/// newline.
pub open spec fn lines_spec(s: Seq<char>) -> Seq<Seq<char>> {
    if s.len() == 0 {
        Seq::empty()
    } else {
        let raw = split_on_spec(s, '\n');
        let trimmed = if raw.last().len() == 0 {
            raw.drop_last()
        } else {
            raw
        };
        trimmed.map(|i: int, l: Seq<char>| strip_cr(l))
    }
}

/// Splits `s` into its lines.
pub fn lines_of(s: &str) -> (lines: Vec<String>)
    ensures
        lines.deep_view() == lines_spec(s@),
{
    let mut out: Vec<String> = Vec::new();
    if s.unicode_len() == 0 {
        proof {
            assert(out.deep_view() =~= lines_spec(s@));
        }
        return out;
    }
    let mut raw = split_on(s, '\n');
    let ghost raw0 = raw.deep_view();
    proof {
        assert(raw0.len() >= 1);
    }
    if raw[raw.len() - 1].as_str().is_empty() {
        raw.pop();
        proof {
            assert(raw.deep_view() =~= raw0.drop_last());
        }
    }
    let ghost trimmed = raw.deep_view();
    let mut k: usize = 0;
    while k < raw.len()
        invariant
            k <= raw.len(),
            raw.deep_view() == trimmed,
            out.deep_view().len() == k,
            forall|j: int| 0 <= j < k ==> out.deep_view()[j] == strip_cr(trimmed[j]),
        decreases raw.len() - k,
    {
        let ghost out_before = out.deep_view();
        let n = raw[k].as_str().unicode_len();
        proof {
            assert(trimmed[k as int] == raw@[k as int]@);
        }
        if n > 0 && raw[k].as_str().get_char(n - 1) == '\r' {
            let stripped = raw[k].as_str().substring_char(0, n - 1).to_owned();
            proof {
                assert(trimmed[k as int].drop_last() =~= trimmed[k as int].subrange(
                    0,
                    n - 1 as int,
                ));
                assert(stripped@ == strip_cr(trimmed[k as int]));
            }
            out.push(stripped);
            proof {
                assert(out.deep_view() =~= out_before.push(strip_cr(trimmed[k as int])));
            }
        } else {
            proof {
                assert(strip_cr(trimmed[k as int]) == trimmed[k as int]);
            }
            let line = raw[k].clone();
            out.push(line);
            proof {
                assert(out.deep_view() =~= out_before.push(strip_cr(trimmed[k as int])));
            }
        }
        k = k + 1;
    }
    proof {
        assert(out.deep_view() =~= lines_spec(s@));
    }
    out
}

/// Whether `p` is an initial segment of `s`.
pub open spec fn is_prefix_of(p: Seq<char>, s: Seq<char>) -> bool {
    p.len() <= s.len() && s.take(p.len() as int) == p
}

/// Whether `s` starts with `p`.
pub fn has_prefix(s: &str, p: &str) -> (b: bool)
    ensures
        b == is_prefix_of(p@, s@),
{
    let np = p.unicode_len();
    let ns = s.unicode_len();
    if np > ns {
        return false;
    }
    let mut i: usize = 0;
    while i < np
        invariant
            0 <= i <= np <= ns,
            np == p@.len(),
            ns == s@.len(),
            forall|j: int| 0 <= j < i ==> s@[j] == p@[j],
        decreases np - i,
    {
        if s.get_char(i) != p.get_char(i) {
            proof {
                assert(s@.take(np as int)[i as int] == s@[i as int]);
            }
            return false;
        }
        i = i + 1;
    }
    proof {
        assert(s@.take(np as int) =~= p@);
    }
    true
}

/// Whether some element of `v` equals `x`.
pub fn contains_string(v: &Vec<String>, x: &String) -> (b: bool)
    ensures
        b == v.deep_view().contains(x@),
{
    let mut i: usize = 0;
    while i < v.len()
        invariant
            0 <= i <= v.len(),
            forall|j: int| 0 <= j < i ==> v.deep_view()[j] != x@,
        decreases v.len() - i,
    {
        if v[i].eq(x) {
            assert(v.deep_view()[i as int] == x@);
            return true;
        }
        i = i + 1;
    }
    false
}

} // verus!
