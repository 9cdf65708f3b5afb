use vstd::prelude::*;

verus! {

/// The decimal digit character for `d < 10`.
pub open spec fn digit_char(d: nat) -> char {
    ((48 + d) as u8) as char
}

/// The decimal rendering of a natural number, without leading zeros.
pub open spec fn decimal(n: nat) -> Seq<char>
    decreases n,
{
    if n < 10 {
        seq![digit_char(n)]
    } else {
        decimal(n / 10).push(digit_char(n % 10))
    }
}

/// Calls `String::push`, which appends the character at the end of the string.
#[verifier::external_body]
pub(crate) fn push_char(s: &mut String, c: char)
    ensures
        final(s)@ == old(s)@.push(c),
{
    s.push(c);
}

/// Appends the decimal rendering of `n` to `out`.
pub fn push_decimal(out: &mut String, n: u64)
    ensures
        final(out)@ == old(out)@ + decimal(n as nat),
    decreases n,
{
    if n >= 10 {
        push_decimal(out, n / 10);
    }
    let d: u8 = (n % 10) as u8;
    let c: char = (48u8 + d) as char;
    push_char(out, c);
}

/// The characters of a string slice, in order.
pub fn chars_of(s: &str) -> (v: Vec<char>)
    ensures
        v@ == s@,
{
    broadcast use vstd::string::group_string_axioms;
    let mut v: Vec<char> = Vec::new();
    for c in it: s.chars()
        invariant
            v@ == it.seq().take(it.index() as int),
            it.seq() == s@,
    {
        v.push(c);
    }
    v
}

/// A string holding the given characters.
pub fn string_from_chars(v: &[char]) -> (s: String)
    ensures
        s@ == v@,
{
    let mut s = String::new();
    let mut i: usize = 0;
    while i < v.len()
        invariant
            i <= v@.len(),
            s@ == v@.take(i as int),
        decreases v@.len() - i,
    {
        assert(v@.take(i as int + 1) =~= v@.take(i as int).push(v@[i as int]));
        push_char(&mut s, v[i]);
        i = i + 1;
    }
    assert(v@.take(v@.len() as int) =~= v@);
    s
}

/// `p` occurs in `t` starting at position `i`.
pub open spec fn occurs_at(t: Seq<char>, p: Seq<char>, i: int) -> bool {
    0 <= i && i + p.len() <= t.len() && t.subrange(i, i + p.len()) == p
}

/// `p` occurs somewhere in `t`.
pub open spec fn contains_seq(t: Seq<char>, p: Seq<char>) -> bool {
    exists|i: int| occurs_at(t, p, i)
}

/// Whether `p` occurs in `t` at position `i`.
fn matches_at(t: &[char], p: &[char], i: usize) -> (r: bool)
    requires
        i <= t@.len(),
    ensures
        r == occurs_at(t@, p@, i as int),
{
    if p.len() > t.len() - i {
        return false;
    }
    let mut k: usize = 0;
    while k < p.len()
        invariant
            i + p@.len() <= t.len(),
            t.len() == t@.len(),
            k <= p@.len(),
            forall|m: int| 0 <= m < k ==> t@[i + m] == p@[m],
        decreases p@.len() - k,
    {
        if t[i + k] != p[k] {
            assert(t@.subrange(i as int, i + p@.len())[k as int] != p@[k as int]);
            return false;
        }
        k = k + 1;
    }
    assert(t@.subrange(i as int, i + p@.len()) =~= p@);
    true
}

/// Whether the text `t` contains the pattern `p`.
pub fn contains(t: &[char], p: &str) -> (r: bool)
    ensures
        r == contains_seq(t@, p@),
{
    let pv = chars_of(p);
    if pv.len() > t.len() {
        return false;
    }
    let last: usize = t.len() - pv.len();
    let mut i: usize = 0;
    while i < last
        invariant
            pv@ == p@,
            i <= last,
            last + p@.len() == t@.len(),
            forall|m: int| 0 <= m < i ==> !occurs_at(t@, p@, m),
        decreases last - i,
    {
        if matches_at(t, pv.as_slice(), i) {
            return true;
        }
        i = i + 1;
    }
    matches_at(t, pv.as_slice(), last)
}

/// `s` with every occurrence of the non-empty pattern `p` removed, scanning
/// left to right and never overlapping two occurrences.
pub open spec fn remove_all(s: Seq<char>, p: Seq<char>) -> Seq<char>
    recommends
        p.len() > 0,
    decreases s.len(),
{
    if s.len() == 0 || p.len() == 0 {
        s
    } else if occurs_at(s, p, 0) {
        remove_all(s.subrange(p.len() as int, s.len() as int), p)
    } else {
        seq![s[0]] + remove_all(s.drop_first(), p)
    }
}

proof fn lemma_occurs_at_suffix(t: Seq<char>, p: Seq<char>, i: int)
    requires
        0 <= i <= t.len(),
    ensures
        occurs_at(t.subrange(i, t.len() as int), p, 0) == occurs_at(t, p, i),
{
    if i + p.len() <= t.len() {
        assert(t.subrange(i, t.len() as int).subrange(0, p.len() as int) =~= t.subrange(i, i + p.len()));
    }
}

/// The text `t` with every occurrence of the non-empty pattern `p` removed.
pub fn remove_all_of(t: &[char], p: &str) -> (r: Vec<char>)
    requires
        p@.len() > 0,
    ensures
        r@ == remove_all(t@, p@),
{
    let pv = chars_of(p);
    let mut r: Vec<char> = Vec::new();
    let mut i: usize = 0;
    assert(t@.subrange(0, t@.len() as int) =~= t@);
    assert(r@ + t@ =~= t@);
    while i < t.len()
        invariant
            pv@ == p@,
            p@.len() > 0,
            i <= t@.len(),
            r@ + remove_all(t@.subrange(i as int, t@.len() as int), p@) == remove_all(t@, p@),
        decreases t@.len() - i,
    {
        let ghost rest = t@.subrange(i as int, t@.len() as int);
        proof {
            lemma_occurs_at_suffix(t@, p@, i as int);
        }
        if matches_at(t, pv.as_slice(), i) {
            assert(rest.subrange(p@.len() as int, rest.len() as int) =~= t@.subrange(i + p@.len(), t@.len() as int));
            i = i + pv.len();
        } else {
            assert(rest.drop_first() =~= t@.subrange(i + 1, t@.len() as int));
            assert(r@.push(t@[i as int]) + remove_all(rest.drop_first(), p@) =~= r@ + (seq![rest[0]] + remove_all(rest.drop_first(), p@)));
            r.push(t[i]);
            i = i + 1;
        }
    }
    assert(t@.subrange(i as int, t@.len() as int) =~= Seq::<char>::empty());
    assert(r@ + Seq::<char>::empty() =~= r@);
    r
}

/// The character has the Unicode `White_Space` property.
pub open spec fn is_white_space(c: char) -> bool {
    let u = c as u32;
    ||| 0x9 <= u <= 0xD
    ||| u == 0x20
    ||| u == 0x85
    ||| u == 0xA0
    ||| u == 0x1680
    ||| 0x2000 <= u <= 0x200A
    ||| u == 0x2028
    ||| u == 0x2029
    ||| u == 0x202F
    ||| u == 0x205F
    ||| u == 0x3000
}

/// Whether the character is white space.
pub fn white_space(c: char) -> (r: bool)
    ensures
        r == is_white_space(c),
{
    let u = c as u32;
    (0x9 <= u && u <= 0xD) || u == 0x20 || u == 0x85 || u == 0xA0 || u == 0x1680 || (0x2000 <= u
        && u <= 0x200A) || u == 0x2028 || u == 0x2029 || u == 0x202F || u == 0x205F || u == 0x3000
}

/// `s` without its leading white space.
pub open spec fn trim_start(s: Seq<char>) -> Seq<char>
    decreases s.len(),
{
    if s.len() > 0 && is_white_space(s[0]) {
        trim_start(s.drop_first())
    } else {
        s
    }
}

/// `s` without its trailing white space.
pub open spec fn trim_end(s: Seq<char>) -> Seq<char>
    decreases s.len(),
{
    if s.len() > 0 && is_white_space(s.last()) {
        trim_end(s.drop_last())
    } else {
        s
    }
}

/// `s` without leading and trailing white space.
pub open spec fn trim(s: Seq<char>) -> Seq<char> {
    trim_end(trim_start(s))
}

/// The text `t` without leading and trailing white space.
pub fn trimmed(t: &[char]) -> (r: Vec<char>)
    ensures
        r@ == trim(t@),
{
    let n = t.len();
    let mut i: usize = 0;
    assert(t@.subrange(0, n as int) =~= t@);
    while i < n && white_space(t[i])
        invariant
            n == t@.len(),
            i <= n,
            trim_start(t@) == trim_start(t@.subrange(i as int, n as int)),
        decreases n - i,
    {
        assert(t@.subrange(i as int, n as int).drop_first() =~= t@.subrange(i + 1, n as int));
        i = i + 1;
    }
    assert(trim_start(t@) == t@.subrange(i as int, n as int));
    let mut j: usize = n;
    while j > i && white_space(t[j - 1])
        invariant
            n == t@.len(),
            i <= j <= n,
            trim(t@) == trim_end(t@.subrange(i as int, j as int)),
        decreases j,
    {
        assert(t@.subrange(i as int, j as int).drop_last() =~= t@.subrange(i as int, j - 1));
        j = j - 1;
    }
    let mut r: Vec<char> = Vec::new();
    let mut k: usize = i;
    while k < j
        invariant
            i <= k <= j <= n,
            n == t@.len(),
            r@ == t@.subrange(i as int, k as int),
        decreases j - k,
    {
        r.push(t[k]);
        k = k + 1;
        assert(r@ =~= t@.subrange(i as int, k as int));
    }
    r
}

/// The lower-case form of a text, as `str::to_lowercase` computes it.
pub uninterp spec fn lowercase(s: Seq<char>) -> Seq<char>;

/// Calls `str::to_lowercase`; the result is the lower-case mapping of the
/// whole text, which is named and not spelled out here.
#[verifier::external_body]
pub(crate) fn to_lowercase(s: &str) -> (r: String)
    ensures
        r@ == lowercase(s@),
{
    s.to_lowercase()
}

/// Whether two texts are equal.
pub fn same_text(a: &str, b: &str) -> (r: bool)
    ensures
        r == (a@ == b@),
{
    a.to_owned() == b.to_owned()
}

/// The value of a text of decimal digits.
pub open spec fn digits_value(s: Seq<char>) -> nat
    decreases s.len(),
{
    if s.len() == 0 {
        0
    } else {
        digits_value(s.drop_last()) * 10 + ((s.last() as nat) - 48) as nat
    }
}

proof fn lemma_digit_char_code(k: nat)
    requires
        k < 10,
    ensures
        digit_char(k) as nat == 48 + k,
        '0' <= digit_char(k) <= '9',
{
    let b: u8 = (48 + k) as u8;
    assert(b as nat == 48 + k);
    assert((b as char) as nat == b as nat);
}

/// The decimal rendering of `n` is a non-empty text of the digits `0` to `9`,
/// without a leading zero unless it is `0` itself, whose value is `n`.
pub proof fn lemma_decimal_reads_back(n: nat)
    ensures
        decimal(n).len() >= 1,
        forall|i: int| 0 <= i < decimal(n).len() ==> '0' <= #[trigger] decimal(n)[i] <= '9',
        n > 0 ==> decimal(n)[0] != '0',
        digits_value(decimal(n)) == n,
    decreases n,
{
    lemma_digit_char_code(n % 10);
    if n < 10 {
        assert(decimal(n).drop_last() =~= Seq::<char>::empty());
        assert(digits_value(Seq::<char>::empty()) == 0);
        assert(digits_value(decimal(n)) == n);
    }
    if n >= 10 {
        lemma_decimal_reads_back(n / 10);
        lemma_digit_char_code(n / 10 % 10);
        let d = decimal(n);
        assert(d.drop_last() =~= decimal(n / 10));
        assert(d.last() == digit_char(n % 10));
        assert(digits_value(d) == digits_value(decimal(n / 10)) * 10 + ((d.last() as nat) - 48) as nat);
        assert(digits_value(d) == (n / 10) * 10 + n % 10);
        assert forall|i: int| 0 <= i < d.len() implies '0' <= #[trigger] d[i] <= '9' by {
            if i < d.len() - 1 {
                assert(d[i] == decimal(n / 10)[i]);
            }
        }
    }
}

/// `t` holds no white space at either end.
pub open spec fn no_white_space_at_ends(t: Seq<char>) -> bool {
    t.len() > 0 ==> !is_white_space(t[0]) && !is_white_space(t.last())
}

proof fn lemma_trim_start_shape(s: Seq<char>)
    ensures
        exists|i: int| 0 <= i <= s.len() && trim_start(s) == s.subrange(i, s.len() as int)
            && (forall|k: int| 0 <= k < i ==> is_white_space(#[trigger] s[k])),
        trim_start(s).len() > 0 ==> !is_white_space(trim_start(s)[0]),
    decreases s.len(),
{
    if s.len() > 0 && is_white_space(s[0]) {
        lemma_trim_start_shape(s.drop_first());
        let i = choose|i: int| 0 <= i <= s.drop_first().len()
            && trim_start(s.drop_first()) == s.drop_first().subrange(i, s.drop_first().len() as int)
            && (forall|k: int| 0 <= k < i ==> is_white_space(#[trigger] s.drop_first()[k]));
        assert(s.drop_first().subrange(i, s.drop_first().len() as int) =~= s.subrange(i + 1, s.len() as int));
        assert forall|k: int| 0 <= k < i + 1 implies is_white_space(#[trigger] s[k]) by {
            if k > 0 {
                assert(s[k] == s.drop_first()[k - 1]);
            }
        }
    } else {
        assert(s.subrange(0, s.len() as int) =~= s);
    }
}

proof fn lemma_trim_end_shape(s: Seq<char>)
    ensures
        exists|j: int| 0 <= j <= s.len() && trim_end(s) == s.subrange(0, j)
            && (forall|k: int| j <= k < s.len() ==> is_white_space(#[trigger] s[k])),
        trim_end(s).len() > 0 ==> !is_white_space(trim_end(s).last()),
        trim_end(s).len() > 0 ==> trim_end(s)[0] == s[0],
    decreases s.len(),
{
    if s.len() > 0 && is_white_space(s.last()) {
        lemma_trim_end_shape(s.drop_last());
        let j = choose|j: int| 0 <= j <= s.drop_last().len() && trim_end(s.drop_last()) == s.drop_last().subrange(0, j)
            && (forall|k: int| j <= k < s.drop_last().len() ==> is_white_space(#[trigger] s.drop_last()[k]));
        assert(s.drop_last().subrange(0, j) =~= s.subrange(0, j));
        assert forall|k: int| j <= k < s.len() implies is_white_space(#[trigger] s[k]) by {
            if k < s.len() - 1 {
                assert(s[k] == s.drop_last()[k]);
            }
        }
    } else {
        assert(s.subrange(0, s.len() as int) =~= s);
    }
}

/// Trimming keeps a contiguous part of the text, removes only white space
/// from before and after it, and leaves no white space at either end.
pub proof fn lemma_trim_shape(s: Seq<char>)
    ensures
        exists|i: int, j: int| 0 <= i <= j <= s.len() && trim(s) == s.subrange(i, j)
            && (forall|k: int| 0 <= k < i ==> is_white_space(#[trigger] s[k]))
            && (forall|k: int| j <= k < s.len() ==> is_white_space(#[trigger] s[k])),
        no_white_space_at_ends(trim(s)),
{
    lemma_trim_start_shape(s);
    let i = choose|i: int| 0 <= i <= s.len() && trim_start(s) == s.subrange(i, s.len() as int)
        && (forall|k: int| 0 <= k < i ==> is_white_space(#[trigger] s[k]));
    let t = trim_start(s);
    lemma_trim_end_shape(t);
    let j = choose|j: int| 0 <= j <= t.len() && trim_end(t) == t.subrange(0, j)
        && (forall|k: int| j <= k < t.len() ==> is_white_space(#[trigger] t[k]));
    assert(t.subrange(0, j) =~= s.subrange(i, i + j));
    assert forall|k: int| i + j <= k < s.len() implies is_white_space(#[trigger] s[k]) by {
        assert(s[k] == t[k - i]);
    }
    assert(0 <= i <= i + j <= s.len() && trim(s) == s.subrange(i, i + j));
}

/// Removing a pattern that does not occur leaves the text as it is, a
/// leading occurrence is dropped together with the rest's occurrences, and
/// removal never lengthens the text.
pub proof fn lemma_remove_all_laws(s: Seq<char>, p: Seq<char>)
    requires
        p.len() > 0,
    ensures
        !contains_seq(s, p) ==> remove_all(s, p) == s,
        remove_all(p + s, p) == remove_all(s, p),
        remove_all(s, p).len() <= s.len(),
    decreases s.len(),
{
    let ps = p + s;
    assert(ps.subrange(0, p.len() as int) =~= p);
    assert(ps.subrange(p.len() as int, ps.len() as int) =~= s);
    if s.len() > 0 {
        lemma_remove_all_laws(s.drop_first(), p);
        if !contains_seq(s, p) {
            assert(!occurs_at(s, p, 0));
            assert forall|i: int| !occurs_at(s.drop_first(), p, i) by {
                if occurs_at(s.drop_first(), p, i) {
                    assert(s.subrange(i + 1, i + 1 + p.len()) =~= s.drop_first().subrange(i, i + p.len()));
                    assert(occurs_at(s, p, i + 1));
                }
            }
            assert(seq![s[0]] + s.drop_first() =~= s);
        }
        if occurs_at(s, p, 0) {
            lemma_remove_all_laws(s.subrange(p.len() as int, s.len() as int), p);
        }
    }
}

} // verus!
