//! Choosing one photometric file out of the entries of an archive.
//!
//! The requested identifier is normalised (`-` becomes `_`), each candidate is
//! reduced to its stem (directory and `.ies` / `.IES` extension removed), and
//! the candidate whose stem shares the longest leading run with the identifier
//! wins. Ties go to the shorter stem, then to the entry that comes first in
//! code-point order, so the choice depends only on which entries are offered,
//! never on their order.

use vstd::prelude::*;
use crate::text::{chars_of, replace_char};

verus! {

/// Length of the longest common prefix of `a` and `b`.
pub open spec fn common_prefix_len(a: Seq<char>, b: Seq<char>) -> nat
    decreases a.len(),
{
    if a.len() == 0 || b.len() == 0 || a[0] != b[0] {
        0
    } else {
        1 + common_prefix_len(a.drop_first(), b.drop_first())
    }
}

/// `a` comes no later than `b` when compared character by character by code point.
pub open spec fn lex_le(a: Seq<char>, b: Seq<char>) -> bool
    decreases a.len(),
{
    if a.len() == 0 {
        true
    } else if b.len() == 0 {
        false
    } else if a[0] != b[0] {
        a[0] < b[0]
    } else {
        lex_le(a.drop_first(), b.drop_first())
    }
}

/// What follows the last `/` of a path (the whole path when it has none).
pub open spec fn base_name(s: Seq<char>) -> Seq<char>
    decreases s.len(),
{
    if s.len() == 0 {
        s
    } else if s.last() == '/' {
        Seq::empty()
    } else {
        base_name(s.drop_last()).push(s.last())
    }
}

/// `s` with `suf` removed from its end as many times as it occurs there.
pub open spec fn strip_suffixes(s: Seq<char>, suf: Seq<char>) -> Seq<char>
    decreases s.len(),
{
    if 0 < suf.len() <= s.len() && s.subrange(s.len() - suf.len(), s.len() as int) == suf {
        strip_suffixes(s.subrange(0, s.len() - suf.len()), suf)
    } else {
        s
    }
}

/// The name an archive entry is compared by: its base name without the
/// `.ies` or `.IES` extension.
pub open spec fn entry_stem(entry: Seq<char>) -> Seq<char> {
    strip_suffixes(strip_suffixes(base_name(entry), ".ies"@), ".IES"@)
}

/// The requested identifier in the archive's spelling: `-` becomes `_`.
pub open spec fn normalize_id(id: Seq<char>) -> Seq<char> {
    replace_char(id, '-', '_')
}

/// How far the stem of `entry` agrees with `target` from the start.
pub open spec fn match_len(target: Seq<char>, entry: Seq<char>) -> nat {
    common_prefix_len(target, entry_stem(entry))
}

/// `e` is at least as good a choice as `o` for `target`: a longer match, then a
/// shorter stem, then code-point order.
pub open spec fn outranks(target: Seq<char>, e: Seq<char>, o: Seq<char>) -> bool {
    let me = match_len(target, e);
    let mo = match_len(target, o);
    let le = entry_stem(e).len();
    let lo = entry_stem(o).len();
    me > mo || (me == mo && (le < lo || (le == lo && lex_le(e, o))))
}

/// `e` is offered, matches `target` at all, and is at least as good as every offered entry.
pub open spec fn is_best_entry(target: Seq<char>, files: Seq<Seq<char>>, e: Seq<char>) -> bool {
    &&& files.contains(e)
    &&& match_len(target, e) > 0
    &&& forall|o: Seq<char>| files.contains(o) ==> outranks(target, e, o)
}

/// The entry chosen for `target` among `files`, if any entry matches at all.
pub open spec fn best_entry(target: Seq<char>, files: Seq<Seq<char>>) -> Option<Seq<char>> {
    if exists|e: Seq<char>| is_best_entry(target, files, e) {
        Some(choose|e: Seq<char>| is_best_entry(target, files, e))
    } else {
        None
    }
}

/// The entry chosen for the identifier `id` among `files`.
pub open spec fn selected_entry(id: Seq<char>, files: Seq<Seq<char>>) -> Option<Seq<char>> {
    best_entry(normalize_id(id), files)
}

/// The character sequences of a list of strings.
pub open spec fn string_views(v: Seq<String>) -> Seq<Seq<char>> {
    v.map_values(|s: String| s@)
}

/// The character sequence held by an optional string.
pub open spec fn opt_view(o: Option<String>) -> Option<Seq<char>> {
    match o {
        Some(s) => Some(s@),
        None => None,
    }
}

proof fn lemma_prefix_len_skip(a: Seq<char>, b: Seq<char>, i: int)
    requires
        0 <= i <= a.len(),
        i <= b.len(),
        a.subrange(0, i) == b.subrange(0, i),
    ensures
        common_prefix_len(a, b) == i + common_prefix_len(
            a.subrange(i, a.len() as int),
            b.subrange(i, b.len() as int),
        ),
    decreases i,
{
    if i == 0 {
        assert(a.subrange(0, a.len() as int) =~= a);
        assert(b.subrange(0, b.len() as int) =~= b);
    } else {
        assert(a[0] == a.subrange(0, i)[0]);
        assert(b[0] == b.subrange(0, i)[0]);
        assert(a.drop_first().subrange(0, i - 1) =~= a.subrange(0, i).drop_first());
        assert(b.drop_first().subrange(0, i - 1) =~= b.subrange(0, i).drop_first());
        lemma_prefix_len_skip(a.drop_first(), b.drop_first(), i - 1);
        assert(a.drop_first().subrange(i - 1, a.len() - 1) =~= a.subrange(i, a.len() as int));
        assert(b.drop_first().subrange(i - 1, b.len() - 1) =~= b.subrange(i, b.len() as int));
    }
}

proof fn lemma_lex_skip(a: Seq<char>, b: Seq<char>, i: int)
    requires
        0 <= i <= a.len(),
        i <= b.len(),
        a.subrange(0, i) == b.subrange(0, i),
    ensures
        lex_le(a, b) == lex_le(a.subrange(i, a.len() as int), b.subrange(i, b.len() as int)),
    decreases i,
{
    if i == 0 {
        assert(a.subrange(0, a.len() as int) =~= a);
        assert(b.subrange(0, b.len() as int) =~= b);
    } else {
        assert(a[0] == a.subrange(0, i)[0]);
        assert(b[0] == b.subrange(0, i)[0]);
        assert(a.drop_first().subrange(0, i - 1) =~= a.subrange(0, i).drop_first());
        assert(b.drop_first().subrange(0, i - 1) =~= b.subrange(0, i).drop_first());
        lemma_lex_skip(a.drop_first(), b.drop_first(), i - 1);
        assert(a.drop_first().subrange(i - 1, a.len() - 1) =~= a.subrange(i, a.len() as int));
        assert(b.drop_first().subrange(i - 1, b.len() - 1) =~= b.subrange(i, b.len() as int));
    }
}

proof fn lemma_lex_total(a: Seq<char>, b: Seq<char>)
    ensures
        lex_le(a, b) || lex_le(b, a),
    decreases a.len(),
{
    if a.len() > 0 && b.len() > 0 {
        if a[0] == b[0] {
            lemma_lex_total(a.drop_first(), b.drop_first());
        } else {
            assert(a[0] < b[0] || b[0] < a[0]);
        }
    }
}

proof fn lemma_lex_antisymmetric(a: Seq<char>, b: Seq<char>)
    requires
        lex_le(a, b),
        lex_le(b, a),
    ensures
        a == b,
    decreases a.len(),
{
    if a.len() > 0 {
        lemma_lex_antisymmetric(a.drop_first(), b.drop_first());
        assert(a =~= seq![a[0]] + a.drop_first());
        assert(b =~= seq![b[0]] + b.drop_first());
    }
}

proof fn lemma_lex_transitive(a: Seq<char>, b: Seq<char>, c: Seq<char>)
    requires
        lex_le(a, b),
        lex_le(b, c),
    ensures
        lex_le(a, c),
    decreases a.len(),
{
    if a.len() > 0 && b.len() > 0 && c.len() > 0 && a[0] == b[0] && b[0] == c[0] {
        lemma_lex_transitive(a.drop_first(), b.drop_first(), c.drop_first());
    }
}

/// Ranking is a total order on entries.
proof fn lemma_outranks_total(t: Seq<char>, e: Seq<char>, o: Seq<char>)
    ensures
        outranks(t, e, o) || outranks(t, o, e),
{
    lemma_lex_total(e, o);
}

proof fn lemma_outranks_transitive(t: Seq<char>, a: Seq<char>, b: Seq<char>, c: Seq<char>)
    requires
        outranks(t, a, b),
        outranks(t, b, c),
    ensures
        outranks(t, a, c),
{
    if match_len(t, a) == match_len(t, b) && match_len(t, b) == match_len(t, c) && entry_stem(
        a,
    ).len() == entry_stem(b).len() && entry_stem(b).len() == entry_stem(c).len() {
        lemma_lex_transitive(a, b, c);
    }
}

/// At most one entry is the best.
pub proof fn lemma_best_entry_unique(t: Seq<char>, files: Seq<Seq<char>>, e1: Seq<char>, e2: Seq<char>)
    requires
        is_best_entry(t, files, e1),
        is_best_entry(t, files, e2),
    ensures
        e1 == e2,
{
    assert(outranks(t, e1, e2));
    assert(outranks(t, e2, e1));
    lemma_lex_antisymmetric(e1, e2);
}

/// The choice depends only on which entries are offered: listing the same
/// entries in another order (or repeating some) gives the same choice.
pub proof fn lemma_selection_ignores_order(id: Seq<char>, a: Seq<Seq<char>>, b: Seq<Seq<char>>)
    requires
        forall|e: Seq<char>| a.contains(e) <==> b.contains(e),
    ensures
        selected_entry(id, a) == selected_entry(id, b),
{
    let t = normalize_id(id);
    assert forall|e: Seq<char>| is_best_entry(t, a, e) <==> is_best_entry(t, b, e) by {}
    if exists|e: Seq<char>| is_best_entry(t, a, e) {
        let ea = choose|e: Seq<char>| is_best_entry(t, a, e);
        let eb = choose|e: Seq<char>| is_best_entry(t, b, e);
        lemma_best_entry_unique(t, a, ea, eb);
    }
}

/// A chosen entry is one of those offered.
pub proof fn lemma_selected_is_offered(id: Seq<char>, files: Seq<Seq<char>>)
    ensures
        selected_entry(id, files) matches Some(e) ==> files.contains(e),
{
}

/// Length of the longest common prefix of `a` and the first `b_end` characters of `b`.
fn prefix_len(a: &Vec<char>, b: &Vec<char>, b_end: usize) -> (r: usize)
    requires
        b_end <= b.len(),
    ensures
        r == common_prefix_len(a@, b@.subrange(0, b_end as int)),
{
    let ghost bb = b@.subrange(0, b_end as int);
    let mut i: usize = 0;
    while i < a.len() && i < b_end && a[i] == b[i]
        invariant
            i <= a.len(),
            i <= b_end,
            b_end <= b.len(),
            bb == b@.subrange(0, b_end as int),
            a@.subrange(0, i as int) == bb.subrange(0, i as int),
        decreases a.len() - i,
    {
        assert(a@.subrange(0, i + 1) =~= a@.subrange(0, i as int).push(a@[i as int]));
        assert(bb.subrange(0, i + 1) =~= bb.subrange(0, i as int).push(bb[i as int]));
        i += 1;
    }
    proof {
        lemma_prefix_len_skip(a@, bb, i as int);
        let ra = a@.subrange(i as int, a.len() as int);
        let rb = bb.subrange(i as int, bb.len() as int);
        if ra.len() > 0 && rb.len() > 0 {
            assert(ra[0] == a@[i as int]);
            assert(rb[0] == b@[i as int]);
        }
    }
    i
}

/// Whether `a` comes no later than `b` in code-point order.
fn lex_le_exec(a: &Vec<char>, b: &Vec<char>) -> (r: bool)
    ensures
        r == lex_le(a@, b@),
{
    let mut i: usize = 0;
    while i < a.len() && i < b.len() && a[i] == b[i]
        invariant
            i <= a.len(),
            i <= b.len(),
            a@.subrange(0, i as int) == b@.subrange(0, i as int),
        decreases a.len() - i,
    {
        assert(a@.subrange(0, i + 1) =~= a@.subrange(0, i as int).push(a@[i as int]));
        assert(b@.subrange(0, i + 1) =~= b@.subrange(0, i as int).push(b@[i as int]));
        i += 1;
    }
    proof {
        lemma_lex_skip(a@, b@, i as int);
        let ra = a@.subrange(i as int, a.len() as int);
        let rb = b@.subrange(i as int, b.len() as int);
        if ra.len() > 0 && rb.len() > 0 {
            assert(ra[0] == a@[i as int]);
            assert(rb[0] == b@[i as int]);
        }
    }
    if i == a.len() {
        true
    } else if i == b.len() {
        false
    } else {
        a[i] < b[i]
    }
}

/// The characters after the last `/` of `s`.
fn base_name_exec(s: &Vec<char>) -> (r: Vec<char>)
    ensures
        r@ == base_name(s@),
{
    let mut r: Vec<char> = Vec::new();
    let mut i: usize = 0;
    while i < s.len()
        invariant
            i <= s.len(),
            r@ == base_name(s@.subrange(0, i as int)),
        decreases s.len() - i,
    {
        let ghost pre = s@.subrange(0, i + 1);
        assert(pre.drop_last() =~= s@.subrange(0, i as int));
        assert(pre.last() == s@[i as int]);
        if s[i] == '/' {
            r = Vec::new();
        } else {
            r.push(s[i]);
        }
        i += 1;
    }
    assert(s@.subrange(0, s.len() as int) =~= s@);
    r
}

/// Whether the first `end` characters of `s` end with `suf`.
fn ends_with_at(s: &Vec<char>, end: usize, suf: &Vec<char>) -> (r: bool)
    requires
        suf.len() <= end <= s.len(),
    ensures
        r == (s@.subrange(end - suf.len(), end as int) == suf@),
{
    let start = end - suf.len();
    let mut k: usize = 0;
    while k < suf.len()
        invariant
            start == end - suf.len(),
            suf.len() <= end <= s.len(),
            k <= suf.len(),
            forall|j: int| 0 <= j < k ==> s@[start + j] == suf@[j],
        decreases suf.len() - k,
    {
        if s[start + k] != suf[k] {
            assert(s@.subrange(start as int, end as int)[k as int] != suf@[k as int]);
            return false;
        }
        k += 1;
    }
    assert(s@.subrange(start as int, end as int) =~= suf@);
    true
}

/// Length of the first `end0` characters of `s` once `suf` is removed from
/// their end as often as it occurs there.
pub fn strip_suffixes_end(s: &Vec<char>, end0: usize, suf: &Vec<char>) -> (end: usize)
    requires
        end0 <= s.len(),
    ensures
        end <= end0,
        s@.subrange(0, end as int) == strip_suffixes(s@.subrange(0, end0 as int), suf@),
{
    let mut end = end0;
    loop
        invariant
            end <= end0 <= s.len(),
            strip_suffixes(s@.subrange(0, end as int), suf@) == strip_suffixes(
                s@.subrange(0, end0 as int),
                suf@,
            ),
        decreases end,
    {
        let ghost cur = s@.subrange(0, end as int);
        if 0 < suf.len() && suf.len() <= end && ends_with_at(s, end, suf) {
            assert(cur.subrange(cur.len() - suf.len(), cur.len() as int) =~= s@.subrange(
                end - suf.len(),
                end as int,
            ));
            assert(cur.subrange(0, cur.len() - suf.len()) =~= s@.subrange(0, end - suf.len()));
            end = end - suf.len();
        } else {
            proof {
                if 0 < suf.len() <= end {
                    assert(cur.subrange(cur.len() - suf.len(), cur.len() as int) =~= s@.subrange(
                        end - suf.len(),
                        end as int,
                    ));
                }
            }
            return end;
        }
    }
}

/// `s` with every `-` turned into `_`.
pub fn normalize_identifier(s: &str) -> (r: Vec<char>)
    ensures
        r@ == normalize_id(s@),
{
    let v = chars_of(s);
    let mut r: Vec<char> = Vec::new();
    let mut i: usize = 0;
    while i < v.len()
        invariant
            v@ == s@,
            i <= v.len(),
            r@ == normalize_id(s@.subrange(0, i as int)),
        decreases v.len() - i,
    {
        let c = v[i];
        r.push(if c == '-' { '_' } else { c });
        i += 1;
        assert(r@ =~= normalize_id(s@.subrange(0, i as int)));
    }
    assert(s@.subrange(0, v.len() as int) =~= s@);
    r
}

/// Length of the longest common prefix of `a` and `b`, in characters.
pub fn common_prefix_length(a: &str, b: &str) -> (r: usize)
    ensures
        r == common_prefix_len(a@, b@),
{
    let va = chars_of(a);
    let vb = chars_of(b);
    assert(vb@.subrange(0, vb.len() as int) =~= vb@);
    prefix_len(&va, &vb, vb.len())
}

/// The base name of `entry` and the length of its stem, which starts it.
fn entry_stem_bounds(entry: &str) -> (r: (Vec<char>, usize))
    ensures
        r.0@ == base_name(entry@),
        r.1 <= r.0@.len(),
        r.0@.subrange(0, r.1 as int) == entry_stem(entry@),
{
    let chars = chars_of(entry);
    let base = base_name_exec(&chars);
    let lower = chars_of(".ies");
    let upper = chars_of(".IES");
    let end1 = strip_suffixes_end(&base, base.len(), &lower);
    assert(base@.subrange(0, base.len() as int) =~= base@);
    let end2 = strip_suffixes_end(&base, end1, &upper);
    (base, end2)
}

/// The entry of `files` chosen for `fixture_id`: the one whose stem shares the
/// longest leading run with the identifier (with `-` read as `_`); ties go to
/// the shorter stem, then to the entry first in code-point order. `None` when
/// no stem shares even its first character with the identifier.
pub fn select_best_entry(fixture_id: &str, files: &[String]) -> (r: Option<String>)
    ensures
        opt_view(r) == selected_entry(fixture_id@, string_views(files@)),
{
    let target = normalize_identifier(fixture_id);
    let ghost t = normalize_id(fixture_id@);
    let ghost views = string_views(files@);
    let mut best: Option<usize> = None;
    let mut best_chars: Vec<char> = Vec::new();
    let mut best_m: usize = 0;
    let mut best_l: usize = 0;
    let mut i: usize = 0;
    while i < files.len()
        invariant
            target@ == t,
            views == string_views(files@),
            i <= files.len(),
            best is None ==> forall|j: int| 0 <= j < i ==> match_len(t, views[j]) == 0,
            best matches Some(b) ==> {
                &&& b < i
                &&& best_chars@ == views[b as int]
                &&& best_m == match_len(t, views[b as int])
                &&& best_l == entry_stem(views[b as int]).len()
                &&& best_m > 0
                &&& forall|j: int| 0 <= j < i ==> outranks(t, views[b as int], #[trigger] views[j])
            },
        decreases files.len() - i,
    {
        let e = chars_of(files[i].as_str());
        let (base, end) = entry_stem_bounds(files[i].as_str());
        let m = prefix_len(&target, &base, end);
        let l = end;
        assert(views[i as int] == files@[i as int]@);
        let better = m > 0 && match best {
            None => true,
            Some(_) => m > best_m || (m == best_m && (l < best_l || (l == best_l && lex_le_exec(
                &e,
                &best_chars,
            )))),
        };
        proof {
            let ei = views[i as int];
            assert(m == match_len(t, ei));
            assert(l == entry_stem(ei).len());
            lemma_outranks_total(t, ei, ei);
            if better {
                assert forall|j: int| 0 <= j <= i implies outranks(t, ei, #[trigger] views[j]) by {
                    if j < i {
                        if let Some(b) = best {
                            lemma_outranks_transitive(t, ei, views[b as int], views[j]);
                        }
                    }
                }
            } else if let Some(b) = best {
                lemma_outranks_total(t, ei, views[b as int]);
                assert(outranks(t, views[b as int], ei));
            }
        }
        if better {
            best = Some(i);
            best_chars = e;
            best_m = m;
            best_l = l;
        }
        i += 1;
    }
    proof {
        if let Some(b) = best {
            let eb = views[b as int];
            assert forall|o: Seq<char>| views.contains(o) implies outranks(t, eb, o) by {
                let j = choose|j: int| 0 <= j < views.len() && views[j] == o;
                assert(outranks(t, eb, views[j]));
            }
            assert(is_best_entry(t, views, eb));
            let c = choose|e: Seq<char>| is_best_entry(t, views, e);
            lemma_best_entry_unique(t, views, c, eb);
        } else {
            assert forall|e: Seq<char>| !is_best_entry(t, views, e) by {
                if views.contains(e) {
                    let j = choose|j: int| 0 <= j < views.len() && views[j] == e;
                    assert(match_len(t, views[j]) == 0);
                }
            }
        }
    }
    match best {
        Some(b) => Some(files[b].clone()),
        None => None,
    }
}

} // verus!
