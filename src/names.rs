use vstd::prelude::*;

verus! {

/// Whether `t` occurs in `s` as a contiguous run of characters.
pub open spec fn contains_run(s: Seq<char>, t: Seq<char>) -> bool {
    exists|i: int| 0 <= i && i + t.len() <= s.len() && #[trigger] s.subrange(i, i + t.len()) == t
}

/// Whether `s` holds two dots in a row.
pub open spec fn has_dot_dot(s: Seq<char>) -> bool {
    exists|i: int| 0 <= i && i + 1 < s.len() && #[trigger] s[i] == '.' && s[i + 1] == '.'
}

/// A name that may be given to a new or renamed entry: not empty, and with
/// no path separator, no parent reference and no null character in it.
pub open spec fn valid_name(s: Seq<char>) -> bool {
    &&& s.len() > 0
    &&& !s.contains('/')
    &&& !s.contains('\\')
    &&& !s.contains('\0')
    &&& !has_dot_dot(s)
}

/// The characters of `s`, one per element.
pub fn chars_of(s: &str) -> (r: Vec<char>)
    ensures
        r@ == s@,
{
    let n = s.unicode_len();
    let mut r: Vec<char> = Vec::new();
    let mut i: usize = 0;
    while i < n
        invariant
            n == s@.len(),
            i <= n,
            r@ == s@.subrange(0, i as int),
        decreases n - i,
    {
        r.push(s.get_char(i));
        i = i + 1;
    }
    assert(r@ =~= s@);
    r
}

/// Checks a name given for a new or renamed entry.
pub fn validate_filename(name: &str) -> (r: Result<(), ()>)
    ensures
        r is Ok <==> valid_name(name@),
{
    let c = chars_of(name);
    let n = c.len();
    if n == 0 {
        return Err(());
    }
    let mut i: usize = 0;
    while i < n
        invariant
            n == c@.len(),
            c@ == name@,
            i <= n,
            forall|k: int| 0 <= k < i ==> c@[k] != '/' && c@[k] != '\\' && c@[k] != '\0',
            forall|k: int| 0 <= k < i && k + 1 < n ==> !(#[trigger] c@[k] == '.' && c@[k + 1] == '.'),
        decreases n - i,
    {
        let ch = c[i];
        if ch == '/' || ch == '\\' || ch == '\0' {
            assert(name@[i as int] == ch);
            return Err(());
        }
        if ch == '.' && i + 1 < n && c[i + 1] == '.' {
            assert(name@[i as int] == '.' && name@[i + 1] == '.');
            assert(has_dot_dot(name@));
            return Err(());
        }
        i = i + 1;
    }
    assert(!name@.contains('/'));
    assert(!name@.contains('\\'));
    assert(!name@.contains('\0'));
    Ok(())
}

/// Whether the run `t` occurs in `s`.
pub fn contains_chars(s: &Vec<char>, t: &Vec<char>) -> (r: bool)
    ensures
        r == contains_run(s@, t@),
{
    let sl = s.len();
    let tl = t.len();
    if tl > sl {
        return false;
    }
    if tl == 0 {
        assert(s@.subrange(0int, 0int + t@.len()) =~= t@);
        return true;
    }
    let last = sl - tl;
    let mut i: usize = 0;
    while i <= last
        invariant
            sl == s@.len(),
            tl == t@.len(),
            0 < tl <= sl,
            last == sl - tl,
            i <= last + 1,
            forall|k: int| 0 <= k < i ==> #[trigger] s@.subrange(k, k + t@.len()) != t@,
        decreases last + 1 - i,
    {
        let mut j: usize = 0;
        let mut same = true;
        while j < tl
            invariant
                sl == s@.len(),
                tl == t@.len(),
                0 < tl <= sl,
                last == sl - tl,
                i <= last,
                j <= tl,
                same ==> forall|m: int| 0 <= m < j ==> s@[i + m] == t@[m],
                !same ==> s@.subrange(i as int, i + t@.len()) != t@,
            decreases tl - j,
        {
            if s[i + j] != t[j] {
                same = false;
                assert(s@.subrange(i as int, i + t@.len())[j as int] != t@[j as int]);
            }
            j = j + 1;
        }
        if same {
            assert(s@.subrange(i as int, i + t@.len()) =~= t@);
            return true;
        }
        i = i + 1;
    }
    false
}

/// The lower-case form of a string, as `str::to_lowercase` gives it.
pub uninterp spec fn lower_of(s: Seq<char>) -> Seq<char>;

/// Whether a character has the Unicode White_Space property, which is what
/// `char::is_whitespace` tests.
pub open spec fn is_space(c: char) -> bool {
    let n = c as u32;
    (0x09 <= n <= 0x0d) || n == 0x20 || n == 0x85 || n == 0xa0 || n == 0x1680 || (0x2000 <= n
        <= 0x200a) || n == 0x2028 || n == 0x2029 || n == 0x202f || n == 0x205f || n == 0x3000
}

/// Whether `c` is white space.
pub fn char_is_space(c: char) -> (r: bool)
    ensures
        r == is_space(c),
{
    let n = c as u32;
    (0x09 <= n && n <= 0x0d) || n == 0x20 || n == 0x85 || n == 0xa0 || n == 0x1680 || (0x2000 <= n
        && n <= 0x200a) || n == 0x2028 || n == 0x2029 || n == 0x202f || n == 0x205f || n == 0x3000
}

/// Relies on `str::to_lowercase`: the result depends on the characters alone.
#[verifier::external_body]
pub(crate) fn lowercase(s: &str) -> (r: String)
    ensures
        r@ == lower_of(s@),
{
    s.to_lowercase()
}

/// Relies on `String`'s `FromIterator<char>`: the characters in order.
#[verifier::external_body]
pub(crate) fn string_from_chars(v: &Vec<char>) -> (r: String)
    ensures
        r@ == v@,
{
    v.iter().collect()
}

/// The number of white-space characters at the start of `s`.
pub open spec fn lead_len(s: Seq<char>) -> nat
    decreases s.len(),
{
    if s.len() > 0 && is_space(s[0]) {
        1 + lead_len(s.drop_first())
    } else {
        0
    }
}

/// The number of white-space characters at the end of `s`.
pub open spec fn trail_len(s: Seq<char>) -> nat
    decreases s.len(),
{
    if s.len() > 0 && is_space(s.last()) {
        1 + trail_len(s.drop_last())
    } else {
        0
    }
}

/// `s` without white space at either end.
pub open spec fn trimmed(s: Seq<char>) -> Seq<char> {
    let a = lead_len(s);
    if a == s.len() {
        Seq::empty()
    } else {
        s.subrange(a as int, s.len() - trail_len(s))
    }
}

proof fn lemma_lead_len(s: Seq<char>, i: int)
    requires
        0 <= i <= s.len(),
        forall|k: int| 0 <= k < i ==> is_space(#[trigger] s[k]),
    ensures
        i == s.len() ==> lead_len(s) == s.len(),
        i < s.len() && !is_space(s[i]) ==> lead_len(s) == i,
    decreases i,
{
    if i > 0 {
        lemma_lead_len(s.drop_first(), i - 1);
    }
}

proof fn lemma_trail_len(s: Seq<char>, i: int)
    requires
        0 <= i <= s.len(),
        forall|k: int| s.len() - i <= k < s.len() ==> is_space(#[trigger] s[k]),
    ensures
        i < s.len() && !is_space(s[s.len() - 1 - i]) ==> trail_len(s) == i,
    decreases i,
{
    if i > 0 {
        lemma_trail_len(s.drop_last(), i - 1);
    }
}

/// The characters of `s` without white space at either end.
pub fn trim_chars(s: &Vec<char>) -> (r: Vec<char>)
    ensures
        r@ == trimmed(s@),
{
    let n = s.len();
    let mut a: usize = 0;
    while a < n && char_is_space(s[a])
        invariant
            n == s@.len(),
            a <= n,
            forall|k: int| 0 <= k < a ==> is_space(#[trigger] s@[k]),
        decreases n - a,
    {
        a = a + 1;
    }
    proof {
        lemma_lead_len(s@, a as int);
    }
    if a == n {
        return Vec::new();
    }
    let mut t: usize = 0;
    while t < n - a && char_is_space(s[n - 1 - t])
        invariant
            n == s@.len(),
            a < n,
            !is_space(s@[a as int]),
            t <= n - a,
            forall|k: int| n - t <= k < n ==> is_space(#[trigger] s@[k]),
        decreases n - a - t,
    {
        t = t + 1;
    }
    proof {
        if t == n - a {
            assert(is_space(s@[a as int]));
        }
        lemma_trail_len(s@, t as int);
    }
    let mut r: Vec<char> = Vec::new();
    let mut i: usize = a;
    while i < n - t
        invariant
            n == s@.len(),
            a <= i <= n - t,
            r@ == s@.subrange(a as int, i as int),
        decreases n - t - i,
    {
        r.push(s[i]);
        i = i + 1;
        assert(r@ =~= s@.subrange(a as int, i as int));
    }
    r
}

/// Whether the lower-case query occurs in the lower-case name: what
/// follows once both are folded.
pub fn matches_folded(name_folded: &str, query_folded: &str) -> (r: bool)
    ensures
        r == contains_run(name_folded@, query_folded@),
{
    let a = chars_of(name_folded);
    let b = chars_of(query_folded);
    contains_chars(&a, &b)
}

} // verus!
