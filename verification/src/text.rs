//! Character-level string helpers with their mathematical meaning.
//!
//! Strings are modelled by their view, a `Seq<char>`. The functions here
//! build the pieces that the rest of the library assembles into URLs, file
//! paths and printed lines.
use vstd::prelude::*;
use vstd::string::StringSliceAdditionalSpecFns;

verus! {

/// Appends one character to a `String` (std's `String::push`).
/// Claimed: the new contents are the old contents followed by `c`.
#[verifier::external_body]
pub fn push_char(s: &mut String, c: char)
    ensures
        final(s)@ == old(s)@.push(c),
{
    s.push(c);
}

/// The characters of a string slice, in order.
pub fn chars_of(s: &str) -> (v: Vec<char>)
    ensures
        v@ == s@,
{
    let n = s.unicode_len();
    let mut v: Vec<char> = Vec::new();
    let mut i: usize = 0;
    while i < n
        invariant
            n == s@.len(),
            i <= n,
            v@ == s@.subrange(0, i as int),
        decreases n - i,
    {
        let c = s.get_char(i);
        v.push(c);
        i = i + 1;
        assert(v@ =~= s@.subrange(0, i as int));
    }
    assert(v@ =~= s@);
    v
}

/// Appends the characters `v[lo..hi]` to `out`.
pub fn append_range(out: &mut String, v: &Vec<char>, lo: usize, hi: usize)
    requires
        lo <= hi <= v@.len(),
    ensures
        final(out)@ == old(out)@ + v@.subrange(lo as int, hi as int),
{
    let ghost start = out@;
    let mut i = lo;
    while i < hi
        invariant
            lo <= i <= hi,
            hi <= v@.len(),
            out@ == start + v@.subrange(lo as int, i as int),
        decreases hi - i,
    {
        push_char(out, v[i]);
        i = i + 1;
        assert(out@ =~= start + v@.subrange(lo as int, i as int));
    }
}

/// A new string holding the characters `v[lo..hi]`.
pub fn string_from_range(v: &Vec<char>, lo: usize, hi: usize) -> (res: String)
    requires
        lo <= hi <= v@.len(),
    ensures
        res@ == v@.subrange(lo as int, hi as int),
{
    let mut out = String::new();
    append_range(&mut out, v, lo, hi);
    assert(out@ =~= v@.subrange(lo as int, hi as int));
    out
}

/// An owned copy of a string slice.
pub fn owned(s: &str) -> (res: String)
    ensures
        res@ == s@,
{
    s.to_owned()
}

/// The concatenation of two string slices.
pub fn concat2(a: &str, b: &str) -> (res: String)
    ensures
        res@ == a@ + b@,
{
    let mut out = owned(a);
    out.append(b);
    out
}

/// The concatenation of three string slices.
pub fn concat3(a: &str, b: &str, c: &str) -> (res: String)
    ensures
        res@ == a@ + b@ + c@,
{
    let mut out = owned(a);
    out.append(b);
    out.append(c);
    out
}

/// The concatenation of four string slices.
pub fn concat4(a: &str, b: &str, c: &str, d: &str) -> (res: String)
    ensures
        res@ == a@ + b@ + c@ + d@,
{
    let mut out = owned(a);
    out.append(b);
    out.append(c);
    out.append(d);
    out
}

/// Whether two string slices hold the same characters.
pub fn str_equal(a: &str, b: &str) -> (res: bool)
    ensures
        res == (a@ == b@),
{
    let x = owned(a);
    let y = owned(b);
    x == y
}

/// Position of the first occurrence of `c` in `s`, if any.
pub open spec fn first_index_of(s: Seq<char>, c: char) -> Option<int>
    decreases s.len(),
{
    if s.len() == 0 {
        None
    } else if s[0] == c {
        Some(0)
    } else {
        match first_index_of(s.drop_first(), c) {
            Some(i) => Some(i + 1),
            None => None,
        }
    }
}

/// What `first_index_of` finds: a position holding `c` with no `c` before it.
pub proof fn lemma_first_index_of(s: Seq<char>, c: char)
    ensures
        first_index_of(s, c) is None <==> !s.contains(c),
        first_index_of(s, c) matches Some(i) ==> 0 <= i < s.len() && s[i] == c && !s.take(
            i,
        ).contains(c),
    decreases s.len(),
{
    if s.len() > 0 {
        lemma_first_index_of(s.drop_first(), c);
        if s[0] != c {
            if s.drop_first().contains(c) {
                let j = choose|j: int| 0 <= j < s.drop_first().len() && s.drop_first()[j] == c;
                assert(s[j + 1] == c);
            }
            if s.contains(c) {
                let j = choose|j: int| 0 <= j < s.len() && s[j] == c;
                assert(s.drop_first()[j - 1] == c);
            }
            if let Some(i) = first_index_of(s, c) {
                assert(s.take(i) =~= seq![s[0]] + s.drop_first().take(i - 1));
                if s.take(i).contains(c) {
                    let k = choose|k: int| 0 <= k < s.take(i).len() && s.take(i)[k] == c;
                    if k > 0 {
                        assert(s.drop_first().take(i - 1)[k - 1] == c);
                    }
                }
            }
        } else {
            assert(s.take(0) =~= Seq::<char>::empty());
        }
    }
}

/// Finds the first occurrence of `c` in `v`.
pub fn find_char(v: &Vec<char>, c: char) -> (res: Option<usize>)
    ensures
        res matches Some(i) ==> first_index_of(v@, c) == Some(i as int) && i < v@.len() && v@[i as int] == c,
        res is None ==> first_index_of(v@, c) is None,
{
    proof {
        lemma_first_index_of(v@, c);
    }
    let mut i: usize = 0;
    while i < v.len()
        invariant
            i <= v@.len(),
            !v@.take(i as int).contains(c),
        decreases v@.len() - i,
    {
        if v[i] == c {
            proof {
                lemma_first_index_unique(v@, c, i as int);
            }
            return Some(i);
        }
        assert(v@.take(i + 1) =~= v@.take(i as int).push(v@[i as int]));
        i = i + 1;
    }
    assert(v@.take(v@.len() as int) =~= v@);
    None
}

/// A position holding `c` with no earlier `c` is the first occurrence.
pub proof fn lemma_first_index_unique(s: Seq<char>, c: char, i: int)
    requires
        0 <= i < s.len(),
        s[i] == c,
        !s.take(i).contains(c),
    ensures
        first_index_of(s, c) == Some(i),
{
    lemma_first_index_of(s, c);
    assert(s.contains(c));
    let j = first_index_of(s, c)->0;
    if j < i {
        assert(s.take(i)[j] == c);
    } else if j > i {
        assert(s.take(j)[i] == c);
    }
}

/// The view of a list of string pairs.
pub open spec fn pairs_view(v: Seq<(String, String)>) -> Seq<(Seq<char>, Seq<char>)> {
    v.map_values(|p: (String, String)| (p.0@, p.1@))
}

/// Appends the pair `(name, value)` to a list of string pairs.
pub fn push_pair(out: &mut Vec<(String, String)>, name: &str, value: &str)
    ensures
        pairs_view(final(out)@) == pairs_view(old(out)@).push((name@, value@)),
{
    let ghost before = out@;
    out.push((owned(name), owned(value)));
    assert(pairs_view(out@) =~= pairs_view(before).push((name@, value@)));
}

/// The view of an optional string.
pub open spec fn opt_view(o: Option<String>) -> Option<Seq<char>> {
    match o {
        Some(s) => Some(s@),
        None => None,
    }
}

/// The view of an optional string slice.
pub open spec fn opt_str_view(o: Option<&str>) -> Option<Seq<char>> {
    match o {
        Some(s) => Some(s@),
        None => None,
    }
}

/// A one-pair list `(name, value)` when the value is present, nothing otherwise.
pub open spec fn opt_pair(name: Seq<char>, value: Option<Seq<char>>) -> Seq<(Seq<char>, Seq<char>)> {
    match value {
        Some(v) => seq![(name, v)],
        None => Seq::empty(),
    }
}

/// The values a list of `(name, value)` pairs gives to `name`.
pub open spec fn param_values(q: Seq<(Seq<char>, Seq<char>)>, name: Seq<char>) -> Set<Seq<char>> {
    Set::new(|v: Seq<char>| q.contains((name, v)))
}

/// The set holding the value, if there is one.
pub open spec fn opt_set(value: Option<Seq<char>>) -> Set<Seq<char>> {
    match value {
        Some(v) => set![v],
        None => Set::empty(),
    }
}

/// The values of a name in two lists one after the other are those of
/// either list.
pub proof fn lemma_param_values_concat(
    a: Seq<(Seq<char>, Seq<char>)>,
    b: Seq<(Seq<char>, Seq<char>)>,
    name: Seq<char>,
)
    ensures
        param_values(a + b, name) == param_values(a, name).union(param_values(b, name)),
{
    assert forall|v: Seq<char>| #[trigger] param_values(a + b, name).contains(v) <==> param_values(
        a,
        name,
    ).union(param_values(b, name)).contains(v) by {
        let x = (name, v);
        if (a + b).contains(x) {
            let i = choose|i: int| 0 <= i < (a + b).len() && (a + b)[i] == x;
            if i < a.len() {
                assert(a[i] == x);
            } else {
                assert(b[i - a.len()] == x);
            }
        }
        if a.contains(x) {
            let i = choose|i: int| 0 <= i < a.len() && a[i] == x;
            assert((a + b)[i] == x);
        }
        if b.contains(x) {
            let i = choose|i: int| 0 <= i < b.len() && b[i] == x;
            assert((a + b)[a.len() + i] == x);
        }
    }
    assert(param_values(a + b, name) =~= param_values(a, name).union(param_values(b, name)));
}

/// An optional pair gives its value to its own name and nothing to others.
pub proof fn lemma_param_values_opt_pair(n: Seq<char>, value: Option<Seq<char>>, name: Seq<char>)
    ensures
        param_values(opt_pair(n, value), name) == if n == name {
            opt_set(value)
        } else {
            Set::empty()
        },
{
    let q = opt_pair(n, value);
    assert forall|v: Seq<char>| #[trigger] param_values(q, name).contains(v) <==> (if n == name {
        opt_set(value)
    } else {
        Set::<Seq<char>>::empty()
    }).contains(v) by {
        if q.contains((name, v)) {
            let i = choose|i: int| 0 <= i < q.len() && q[i] == (name, v);
            assert(q[i] == (name, v));
        }
        if n == name && value == Some(v) {
            assert(q[0] == (name, v));
        }
    }
    assert(param_values(q, name) =~= (if n == name {
        opt_set(value)
    } else {
        Set::<Seq<char>>::empty()
    }));
}

/// A single pair gives its value to its own name and nothing to others.
pub proof fn lemma_param_values_pair(n: Seq<char>, value: Seq<char>, name: Seq<char>)
    ensures
        param_values(seq![(n, value)], name) == if n == name {
            set![value]
        } else {
            Set::empty()
        },
{
    assert(seq![(n, value)] == opt_pair(n, Some(value)));
    lemma_param_values_opt_pair(n, Some(value), name);
}

/// No pair at all gives no value.
pub proof fn lemma_param_values_empty(name: Seq<char>)
    ensures
        param_values(Seq::empty(), name) == Set::<Seq<char>>::empty(),
{
    assert(param_values(Seq::empty(), name) =~= Set::<Seq<char>>::empty());
}

/// Appends `(name, value)` to a list of string pairs when `value` is present.
pub fn push_opt_pair(out: &mut Vec<(String, String)>, name: &str, value: Option<&str>)
    ensures
        pairs_view(final(out)@) == pairs_view(old(out)@) + opt_pair(name@, opt_str_view(value)),
{
    let ghost before = pairs_view(out@);
    match value {
        Some(v) => push_pair(out, name, v),
        None => {},
    }
    assert(pairs_view(out@) =~= before + opt_pair(name@, opt_str_view(value)));
}

/// Borrows the contents of an optional string.
pub fn opt_as_str(o: &Option<String>) -> (res: Option<&str>)
    ensures
        opt_str_view(res) == opt_view(*o),
{
    match o {
        Some(s) => Some(s.as_str()),
        None => None,
    }
}

/// `s` without the run of `c` characters at its end.
pub open spec fn trim_end_char(s: Seq<char>, c: char) -> Seq<char>
    decreases s.len(),
{
    if s.len() > 0 && s.last() == c {
        trim_end_char(s.drop_last(), c)
    } else {
        s
    }
}

/// Removes every trailing `c` from `s` (std's `trim_end_matches` with a char).
pub fn trim_end(s: &str, c: char) -> (res: String)
    ensures
        res@ == trim_end_char(s@, c),
{
    let v = chars_of(s);
    let mut j = v.len();
    assert(v@.take(j as int) =~= v@);
    while j > 0 && v[j - 1] == c
        invariant
            j <= v@.len(),
            trim_end_char(v@.take(j as int), c) == trim_end_char(v@, c),
        decreases j,
    {
        assert(v@.take(j as int).drop_last() =~= v@.take(j - 1));
        j = j - 1;
    }
    let res = string_from_range(&v, 0, j);
    assert(res@ =~= v@.take(j as int));
    res
}

/// Trimming leaves no trailing `c`, keeps a prefix of `s`, and trimming
/// again changes nothing.
pub proof fn lemma_trim_end_char(s: Seq<char>, c: char)
    ensures
        trim_end_char(s, c).len() == 0 || trim_end_char(s, c).last() != c,
        trim_end_char(s, c).len() <= s.len(),
        trim_end_char(s, c) == s.take(trim_end_char(s, c).len() as int),
        trim_end_char(trim_end_char(s, c), c) == trim_end_char(s, c),
    decreases s.len(),
{
    if s.len() > 0 && s.last() == c {
        lemma_trim_end_char(s.drop_last(), c);
        let t = trim_end_char(s.drop_last(), c);
        assert(s.drop_last().take(t.len() as int) =~= s.take(t.len() as int));
    } else {
        assert(s.take(s.len() as int) =~= s);
    }
}

/// `s` with every occurrence of `pat` replaced by `rep`, scanning from the
/// left and never re-reading replaced text (std's `str::replace` for a
/// non-empty pattern).
pub open spec fn replace_all(s: Seq<char>, pat: Seq<char>, rep: Seq<char>) -> Seq<char>
    decreases s.len(),
{
    if pat.len() == 0 || s.len() < pat.len() {
        s
    } else if s.take(pat.len() as int) == pat {
        rep + replace_all(s.skip(pat.len() as int), pat, rep)
    } else {
        seq![s[0]] + replace_all(s.skip(1), pat, rep)
    }
}

/// `pat` occurs in `s` starting at position `i`.
pub open spec fn occurs_at(s: Seq<char>, pat: Seq<char>, i: int) -> bool {
    0 <= i && i + pat.len() <= s.len() && s.subrange(i, i + pat.len()) == pat
}

/// `pat` occurs somewhere in `s`.
pub open spec fn occurs(s: Seq<char>, pat: Seq<char>) -> bool {
    exists|i: int| occurs_at(s, pat, i)
}

/// No occurrence of `pat` in `a + b` starts inside `a` and ends inside `b`.
pub open spec fn no_straddle(a: Seq<char>, b: Seq<char>, pat: Seq<char>) -> bool {
    forall|i: int| 0 <= i < a.len() && a.len() < i + pat.len() ==> !occurs_at(a + b, pat, i)
}

/// Replacing a pattern that does not occur changes nothing.
pub proof fn lemma_replace_absent(s: Seq<char>, pat: Seq<char>, rep: Seq<char>)
    requires
        pat.len() > 0,
        !occurs(s, pat),
    ensures
        replace_all(s, pat, rep) == s,
    decreases s.len(),
{
    let m = pat.len() as int;
    if s.len() >= m {
        assert(s.take(m) =~= s.subrange(0, m));
        assert(!occurs_at(s, pat, 0));
        assert(!occurs(s.skip(1), pat)) by {
            if occurs(s.skip(1), pat) {
                let i = choose|i: int| occurs_at(s.skip(1), pat, i);
                assert(s.skip(1).subrange(i, i + m) =~= s.subrange(i + 1, i + 1 + m));
                assert(occurs_at(s, pat, i + 1));
            }
        }
        lemma_replace_absent(s.skip(1), pat, rep);
        assert(s =~= seq![s[0]] + s.skip(1));
    }
}

/// A pattern whose first character is not in `s` does not occur in `s`.
pub proof fn lemma_absent_first_char(s: Seq<char>, pat: Seq<char>)
    requires
        pat.len() > 0,
        !s.contains(pat[0]),
    ensures
        !occurs(s, pat),
{
    if occurs(s, pat) {
        let i = choose|i: int| occurs_at(s, pat, i);
        assert(s.subrange(i, i + pat.len())[0] == s[i]);
    }
}

/// No occurrence straddles `a` and `b` when the first character of `b` is
/// not in the pattern.
pub proof fn lemma_no_straddle_boundary(a: Seq<char>, b: Seq<char>, pat: Seq<char>)
    requires
        pat.len() > 0,
        b.len() > 0,
        !pat.contains(b[0]),
    ensures
        no_straddle(a, b, pat),
{
    assert forall|i: int| 0 <= i < a.len() && a.len() < i + pat.len() implies !occurs_at(
        a + b,
        pat,
        i,
    ) by {
        if occurs_at(a + b, pat, i) {
            let k = a.len() - i;
            assert((a + b).subrange(i, i + pat.len())[k] == (a + b)[a.len() as int]);
            assert(pat[k] == b[0]);
        }
    }
}

/// No occurrence straddles `a` and `b` when the first character of the
/// pattern is not in `a`.
pub proof fn lemma_no_straddle_prefix(a: Seq<char>, b: Seq<char>, pat: Seq<char>)
    requires
        pat.len() > 0,
        !a.contains(pat[0]),
    ensures
        no_straddle(a, b, pat),
{
    assert forall|i: int| 0 <= i < a.len() && a.len() < i + pat.len() implies !occurs_at(
        a + b,
        pat,
        i,
    ) by {
        if occurs_at(a + b, pat, i) {
            assert((a + b).subrange(i, i + pat.len())[0] == a[i]);
        }
    }
}

/// Replacing in a concatenation is replacing in each part, when no
/// occurrence of the pattern spans the junction.
pub proof fn lemma_replace_concat(a: Seq<char>, b: Seq<char>, pat: Seq<char>, rep: Seq<char>)
    requires
        pat.len() > 0,
        no_straddle(a, b, pat),
    ensures
        replace_all(a + b, pat, rep) == replace_all(a, pat, rep) + replace_all(b, pat, rep),
    decreases a.len(),
{
    let s = a + b;
    let m = pat.len() as int;
    if a.len() == 0 {
        assert(s =~= b);
        assert(replace_all(a, pat, rep) + replace_all(b, pat, rep) =~= replace_all(b, pat, rep));
    } else if s.len() < m {
    } else if s.take(m) == pat {
        assert(s.subrange(0, m) =~= s.take(m));
        assert(occurs_at(s, pat, 0));
        assert(a.len() >= m);
        assert(a.take(m) =~= s.take(m));
        let a2 = a.skip(m);
        assert(s.skip(m) =~= a2 + b);
        assert(no_straddle(a2, b, pat)) by {
            assert forall|i: int| 0 <= i < a2.len() && a2.len() < i + m implies !occurs_at(
                a2 + b,
                pat,
                i,
            ) by {
                if i + m <= (a2 + b).len() {
                    assert((a2 + b).subrange(i, i + m) =~= s.subrange(i + m, i + m + m));
                    assert(!occurs_at(s, pat, i + m));
                }
            }
        }
        lemma_replace_concat(a2, b, pat, rep);
        assert(rep + (replace_all(a2, pat, rep) + replace_all(b, pat, rep)) =~= (rep + replace_all(
            a2,
            pat,
            rep,
        )) + replace_all(b, pat, rep));
    } else {
        let a2 = a.skip(1);
        assert(s.skip(1) =~= a2 + b);
        assert(no_straddle(a2, b, pat)) by {
            assert forall|i: int| 0 <= i < a2.len() && a2.len() < i + m implies !occurs_at(
                a2 + b,
                pat,
                i,
            ) by {
                if i + m <= (a2 + b).len() {
                    assert((a2 + b).subrange(i, i + m) =~= s.subrange(i + 1, i + 1 + m));
                    assert(!occurs_at(s, pat, i + 1));
                }
            }
        }
        lemma_replace_concat(a2, b, pat, rep);
        if a.len() >= m {
            assert(a.take(m) =~= s.take(m));
        } else {
            assert(replace_all(a2, pat, rep) == a2);
            assert(a =~= seq![a[0]] + a2);
        }
        assert(s[0] == a[0]);
        assert(seq![a[0]] + (replace_all(a2, pat, rep) + replace_all(b, pat, rep)) =~= (seq![a[0]]
            + replace_all(a2, pat, rep)) + replace_all(b, pat, rep));
    }
}

/// Whether `p` occurs in `v` at position `i`.
fn matches_at(v: &Vec<char>, p: &Vec<char>, i: usize) -> (res: bool)
    requires
        i + p@.len() <= v@.len(),
    ensures
        res == (v@.skip(i as int).take(p@.len() as int) == p@),
{
    let m = p.len();
    let n = v.len();
    let mut k: usize = 0;
    while k < m
        invariant
            m == p@.len(),
            n == v@.len(),
            i + m <= n,
            k <= m,
            forall|j: int| 0 <= j < k ==> v@[i + j] == p@[j],
        decreases m - k,
    {
        if v[i + k] != p[k] {
            assert(v@.skip(i as int).take(m as int)[k as int] != p@[k as int]);
            return false;
        }
        k = k + 1;
    }
    assert(v@.skip(i as int).take(m as int) =~= p@);
    true
}

/// Replaces every occurrence of the non-empty `pat` in `s` by `rep`.
pub fn replace_str(s: &str, pat: &str, rep: &str) -> (res: String)
    requires
        pat@.len() > 0,
    ensures
        res@ == replace_all(s@, pat@, rep@),
{
    let v = chars_of(s);
    let p = chars_of(pat);
    let n = v.len();
    let m = p.len();
    let mut out = String::new();
    let mut i: usize = 0;
    assert(v@.skip(0) =~= v@);
    while i < n
        invariant
            n == v@.len(),
            m == p@.len(),
            m > 0,
            i <= n,
            out@ + replace_all(v@.skip(i as int), p@, rep@) == replace_all(v@, p@, rep@),
        decreases n - i,
    {
        let ghost rest = v@.skip(i as int);
        if n - i >= m && matches_at(&v, &p, i) {
            assert(rest.skip(m as int) =~= v@.skip(i + m));
            out.append(rep);
            i = i + m;
        } else {
            assert(rest.skip(1) =~= v@.skip(i + 1));
            if n - i < m {
                assert(replace_all(rest, p@, rep@) == rest);
                assert(replace_all(rest.skip(1), p@, rep@) == rest.skip(1));
                assert(rest =~= seq![rest[0]] + rest.skip(1));
            }
            push_char(&mut out, v[i]);
            i = i + 1;
        }
    }
    assert(v@.skip(n as int) =~= Seq::<char>::empty());
    out
}

/// The decimal digit character for `d` (0 to 9).
pub open spec fn digit_char(d: nat) -> char {
    if d == 0 {
        '0'
    } else if d == 1 {
        '1'
    } else if d == 2 {
        '2'
    } else if d == 3 {
        '3'
    } else if d == 4 {
        '4'
    } else if d == 5 {
        '5'
    } else if d == 6 {
        '6'
    } else if d == 7 {
        '7'
    } else if d == 8 {
        '8'
    } else {
        '9'
    }
}

/// The decimal notation of `n`, without leading zeros.
pub open spec fn decimal(n: nat) -> Seq<char>
    decreases n,
{
    if n < 10 {
        seq![digit_char(n)]
    } else {
        decimal(n / 10).push(digit_char(n % 10))
    }
}

/// The character of one decimal digit.
fn digit(d: u64) -> (c: char)
    requires
        d < 10,
    ensures
        c == digit_char(d as nat),
{
    if d == 0 {
        '0'
    } else if d == 1 {
        '1'
    } else if d == 2 {
        '2'
    } else if d == 3 {
        '3'
    } else if d == 4 {
        '4'
    } else if d == 5 {
        '5'
    } else if d == 6 {
        '6'
    } else if d == 7 {
        '7'
    } else if d == 8 {
        '8'
    } else {
        '9'
    }
}

/// Writes `n` in decimal (what `Display` prints for an unsigned integer).
pub fn decimal_string(n: u64) -> (res: String)
    ensures
        res@ == decimal(n as nat),
{
    let mut x = n;
    let mut tail: Vec<char> = Vec::new();
    assert(decimal(n as nat) =~= decimal(x as nat) + tail@);
    while x >= 10
        invariant
            decimal(n as nat) == decimal(x as nat) + tail@,
        decreases x,
    {
        let d = x % 10;
        let c = digit(d);
        let ghost old_tail = tail@;
        tail.insert(0, c);
        assert(decimal(x as nat) == decimal((x / 10) as nat).push(digit_char((x % 10) as nat)));
        assert(decimal((x / 10) as nat).push(c) + old_tail =~= decimal((x / 10) as nat) + tail@);
        x = x / 10;
    }
    let c = digit(x);
    tail.insert(0, c);
    let len = tail.len();
    let res = string_from_range(&tail, 0, len);
    assert(res@ =~= tail@);
    res
}

/// Parts joined with `sep` between each two neighbours.
pub open spec fn join(parts: Seq<Seq<char>>, sep: Seq<char>) -> Seq<char>
    decreases parts.len(),
{
    if parts.len() == 0 {
        Seq::empty()
    } else if parts.len() == 1 {
        parts[0]
    } else {
        join(parts.drop_last(), sep) + sep + parts.last()
    }
}

/// The views of a list of strings.
pub open spec fn strings_view(v: Seq<String>) -> Seq<Seq<char>> {
    v.map_values(|s: String| s@)
}

/// Joins strings with a separator (std's `join` on a slice of strings).
pub fn join_strings(parts: &Vec<String>, sep: &str) -> (res: String)
    ensures
        res@ == join(strings_view(parts@), sep@),
{
    let mut out = String::new();
    let n = parts.len();
    let mut i: usize = 0;
    assert(strings_view(parts@).take(0) =~= Seq::<Seq<char>>::empty());
    while i < n
        invariant
            n == parts@.len(),
            i <= n,
            out@ == join(strings_view(parts@).take(i as int), sep@),
        decreases n - i,
    {
        let ghost prefix = strings_view(parts@).take(i + 1);
        assert(prefix.drop_last() =~= strings_view(parts@).take(i as int));
        assert(prefix.last() == parts@[i as int]@);
        if i > 0 {
            out.append(sep);
        } else {
            assert(out@ =~= Seq::<char>::empty());
        }
        out.append(parts[i].as_str());
        i = i + 1;
    }
    assert(strings_view(parts@).take(n as int) =~= strings_view(parts@));
    out
}

/// The first `max` bytes of `s`, or all of `s` when it is no longer.
pub open spec fn truncated_bytes(s: &str, max: usize) -> Seq<u8> {
    if s.spec_bytes().len() <= max {
        s.spec_bytes()
    } else {
        s.spec_bytes().subrange(0, max as int)
    }
}

/// Cuts `s` to at most `max` bytes. The cut must fall on a character
/// boundary (slicing a `str` elsewhere panics).
pub fn truncate(s: &str, max: usize) -> (res: &str)
    requires
        s.spec_bytes().len() <= max || vstd::utf8::is_char_boundary(s.spec_bytes(), max as int),
    ensures
        res.spec_bytes() == truncated_bytes(s, max),
{
    let n = s.as_bytes().len();
    if n <= max {
        s
    } else {
        let (head, _) = s.split_at(max);
        head
    }
}

/// Cutting a string that was already cut to `max` bytes leaves it as it is:
/// the first cut leaves at most `max` bytes.
pub proof fn law_truncate_idempotent(s: &str, cut: &str, max: usize)
    requires
        cut.spec_bytes() == truncated_bytes(s, max),
    ensures
        cut.spec_bytes().len() <= max,
        truncated_bytes(cut, max) == cut.spec_bytes(),
{
}

} // verus!
