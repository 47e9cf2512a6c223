//! Character-level text operations: substring search, parameter-token
//! counting and token substitution.
use vstd::prelude::*;
use vstd::string::*;

verus! {

/// `t` occurs in `s` starting at position `i`.
pub open spec fn occurs_at(s: Seq<char>, t: Seq<char>, i: int) -> bool {
    0 <= i && i + t.len() <= s.len() && s.subrange(i, i + t.len()) == t
}

/// `t` occurs somewhere in `s` (the empty text occurs in every text).
pub open spec fn contains(s: Seq<char>, t: Seq<char>) -> bool {
    exists|i: int| occurs_at(s, t, i)
}

/// Number of occurrences of the token `t` in `s` from position `i` on, found
/// left to right without overlap. An empty token never occurs.
pub open spec fn count_from(s: Seq<char>, t: Seq<char>, i: int) -> nat
    decreases s.len() - i,
{
    if i < 0 || i >= s.len() {
        0
    } else if t.len() > 0 && occurs_at(s, t, i) {
        1 + count_from(s, t, i + t.len())
    } else {
        count_from(s, t, i + 1)
    }
}

/// Number of parameter tokens `t` in the template `s`.
pub open spec fn token_count(s: Seq<char>, t: Seq<char>) -> nat {
    count_from(s, t, 0)
}

/// The text of `s` from position `i` on, with each occurrence of the token `t`,
/// found left to right, replaced by the next value of `vals`; once the values
/// run out the rest is kept as it is.
pub open spec fn project_from(s: Seq<char>, t: Seq<char>, vals: Seq<Seq<char>>, i: int) -> Seq<
    char,
>
    decreases s.len() - i,
{
    if i < 0 || i >= s.len() {
        Seq::empty()
    } else if t.len() > 0 && occurs_at(s, t, i) && vals.len() > 0 {
        vals[0] + project_from(s, t, vals.drop_first(), i + t.len())
    } else {
        seq![s[i]] + project_from(s, t, vals, i + 1)
    }
}

/// The template `s` with its tokens `t` replaced by `vals` in encounter order.
pub open spec fn project(s: Seq<char>, t: Seq<char>, vals: Seq<Seq<char>>) -> Seq<char> {
    project_from(s, t, vals, 0)
}

/// The characters of `s`, one by one.
pub fn chars_of(s: &str) -> (r: Vec<char>)
    ensures
        r@ == s@,
{
    let n = s.unicode_len();
    let mut r: Vec<char> = Vec::new();
    let mut i: usize = 0;
    while i < n
        invariant
            n == s@.len(),
            i <= n,
            r@ == s@.subrange(0, i as int),
        decreases n - i,
    {
        r.push(s.get_char(i));
        i = i + 1;
        assert(r@ =~= s@.subrange(0, i as int));
    }
    assert(r@ =~= s@);
    r
}

/// Whether `t` occurs in `s` at position `i`.
pub fn occurs_at_exec(s: &Vec<char>, t: &Vec<char>, i: usize) -> (r: bool)
    ensures
        r == occurs_at(s@, t@, i as int),
{
    if i > s.len() || t.len() > s.len() - i {
        return false;
    }
    let mut j: usize = 0;
    while j < t.len()
        invariant
            i + t@.len() <= s@.len(),
            s@.len() == s.len(),
            j <= t@.len(),
            forall|k: int| 0 <= k < j ==> s@[i + k] == t@[k],
        decreases t.len() - j,
    {
        if s[i + j] != t[j] {
            assert(s@.subrange(i as int, i + t@.len())[j as int] != t@[j as int]);
            return false;
        }
        j = j + 1;
    }
    assert(s@.subrange(i as int, i + t@.len()) =~= t@);
    true
}

/// Whether `q` occurs somewhere in `s`.
pub fn text_contains(s: &String, q: &String) -> (r: bool)
    ensures
        r == contains(s@, q@),
{
    let sc = chars_of(s.as_str());
    let qc = chars_of(q.as_str());
    if qc.len() > sc.len() {
        assert forall|i: int| !occurs_at(s@, q@, i) by {}
        return false;
    }
    let last = sc.len() - qc.len();
    let mut i: usize = 0;
    while i <= last
        invariant
            sc@ == s@,
            qc@ == q@,
            last == s@.len() - q@.len(),
            forall|k: int| 0 <= k < i ==> !occurs_at(s@, q@, k),
        decreases last + 1 - i,
    {
        if occurs_at_exec(&sc, &qc, i) {
            return true;
        }
        if i == last {
            assert forall|k: int| !occurs_at(s@, q@, k) by {}
            return false;
        }
        i = i + 1;
    }
    false
}

/// The views of a sequence of strings.
pub open spec fn views(vs: Seq<String>) -> Seq<Seq<char>> {
    vs.map_values(|v: String| v@)
}

/// Number of parameter tokens `token` in `template`.
pub fn parameter_count(template: &String, token: &String) -> (r: usize)
    ensures
        r == token_count(template@, token@),
{
    let sc = chars_of(template.as_str());
    let tc = chars_of(token.as_str());
    let n = sc.len();
    let mut i: usize = 0;
    let mut count: usize = 0;
    while i < n
        invariant
            sc@ == template@,
            tc@ == token@,
            n == sc@.len(),
            i <= n,
            count <= i,
            count + count_from(sc@, tc@, i as int) == count_from(sc@, tc@, 0),
        decreases n - i,
    {
        if tc.len() > 0 && occurs_at_exec(&sc, &tc, i) {
            count = count + 1;
            i = i + tc.len();
        } else {
            i = i + 1;
        }
    }
    count
}

/// `template` with each token `token`, found left to right, replaced by the
/// next of `values`.
pub fn substitute_parameters(template: &String, token: &String, values: &Vec<String>) -> (r:
    String)
    ensures
        r@ == project(template@, token@, views(values@)),
{
    let sc = chars_of(template.as_str());
    let tc = chars_of(token.as_str());
    let ghost s = template@;
    let ghost t = token@;
    let ghost vals = views(values@);
    let n = sc.len();
    let mut out = String::new();
    let mut start: usize = 0;
    let mut i: usize = 0;
    let mut k: usize = 0;
    assert(vals.subrange(0, vals.len() as int) =~= vals);
    assert(out@ + s.subrange(0, 0) =~= Seq::<char>::empty());
    while i < n
        invariant
            sc@ == s,
            tc@ == t,
            s == template@,
            vals == views(values@),
            n == s.len(),
            start <= i <= n,
            k <= values@.len(),
            out@ + s.subrange(start as int, i as int) + project_from(
                s,
                t,
                vals.subrange(k as int, vals.len() as int),
                i as int,
            ) == project(s, t, vals),
        decreases n - i,
    {
        let ghost rest = vals.subrange(k as int, vals.len() as int);
        if tc.len() > 0 && k < values.len() && occurs_at_exec(&sc, &tc, i) {
            let ghost old_out = out@;
            let ghost old_start = start;
            let ghost old_i = i;
            out.append(template.as_str().substring_char(start, i));
            out.append(values[k].as_str());
            assert(rest[0] == values@[k as int]@);
            assert(rest.drop_first() =~= vals.subrange(k + 1, vals.len() as int));
            k = k + 1;
            i = i + tc.len();
            start = i;
            assert(s.subrange(start as int, i as int) =~= Seq::<char>::empty());
            let ghost tail = project_from(s, t, vals.subrange(k as int, vals.len() as int), i as int);
            assert(out@ + s.subrange(start as int, i as int) + tail =~= old_out + s.subrange(
                old_start as int,
                old_i as int,
            ) + (rest[0] + tail));
        } else {
            assert(s.subrange(start as int, i as int) + seq![s[i as int]] =~= s.subrange(
                start as int,
                i + 1,
            ));
            i = i + 1;
        }
    }
    out.append(template.as_str().substring_char(start, n));
    out
}

/// Relies on std's `String::push`: appends one character at the end.
#[verifier::external_body]
pub(crate) fn push_char(s: &mut String, c: char)
    ensures
        final(s)@ == old(s)@.push(c),
{
    s.push(c);
}

/// `s` without its last character; the empty text stays empty.
pub fn drop_last_char(s: &String) -> (r: String)
    ensures
        r@ == (if s@.len() == 0 {
            s@
        } else {
            s@.drop_last()
        }),
{
    let n = s.as_str().unicode_len();
    if n == 0 {
        s.clone()
    } else {
        let r = String::from_str(s.as_str().substring_char(0, n - 1));
        assert(r@ =~= s@.drop_last());
        r
    }
}

proof fn lemma_no_tokens_from(s: Seq<char>, t: Seq<char>, vals: Seq<Seq<char>>, i: int)
    requires
        0 <= i <= s.len(),
        count_from(s, t, i) == 0,
    ensures
        project_from(s, t, vals, i) == s.subrange(i, s.len() as int),
    decreases s.len() - i,
{
    if i < s.len() {
        lemma_no_tokens_from(s, t, vals, i + 1);
        assert(seq![s[i]] + s.subrange(i + 1, s.len() as int) =~= s.subrange(i, s.len() as int));
    } else {
        assert(s.subrange(i, s.len() as int) =~= Seq::<char>::empty());
    }
}

/// A template without parameter tokens is left as it is, whatever the values.
pub proof fn lemma_no_tokens_unchanged(s: Seq<char>, t: Seq<char>, vals: Seq<Seq<char>>)
    requires
        token_count(s, t) == 0,
    ensures
        project(s, t, vals) == s,
{
    lemma_no_tokens_from(s, t, vals, 0);
    assert(s.subrange(0, s.len() as int) =~= s);
}

proof fn lemma_copy_until(s: Seq<char>, t: Seq<char>, vals: Seq<Seq<char>>, i: int, k: int)
    requires
        0 <= i <= k <= s.len(),
        forall|j: int| 0 <= j < k ==> !occurs_at(s, t, j),
    ensures
        project_from(s, t, vals, i) == s.subrange(i, k) + project_from(s, t, vals, k),
    decreases k - i,
{
    if i < k {
        lemma_copy_until(s, t, vals, i + 1, k);
        assert(seq![s[i]] + s.subrange(i + 1, k) =~= s.subrange(i, k));
        assert(seq![s[i]] + (s.subrange(i + 1, k) + project_from(s, t, vals, k)) =~= s.subrange(i, k)
            + project_from(s, t, vals, k));
    } else {
        assert(s.subrange(i, k) =~= Seq::<char>::empty());
        assert(s.subrange(i, k) + project_from(s, t, vals, k) =~= project_from(s, t, vals, k));
    }
}

/// Values are used in encounter order: the first value replaces the first
/// occurrence of the token, the text before it is kept, and the remaining
/// values go to the occurrences after it.
pub proof fn lemma_first_value_at_first_token(s: Seq<char>, t: Seq<char>, vals: Seq<Seq<char>>, k: int)
    requires
        t.len() > 0,
        vals.len() > 0,
        occurs_at(s, t, k),
        forall|j: int| 0 <= j < k ==> !occurs_at(s, t, j),
    ensures
        project(s, t, vals) == s.subrange(0, k) + vals[0] + project_from(
            s,
            t,
            vals.drop_first(),
            k + t.len(),
        ),
{
    lemma_copy_until(s, t, vals, 0, k);
    assert(s.subrange(0, k) + (vals[0] + project_from(s, t, vals.drop_first(), k + t.len()))
        =~= s.subrange(0, k) + vals[0] + project_from(s, t, vals.drop_first(), k + t.len()));
}

} // verus!
