//! Character-level helpers shared by the parsers: ASCII case folding, Unicode
//! whitespace trimming, comma splitting and decimal integers.
use vstd::prelude::*;

verus! {

/// ASCII lower case of one character; every other character is unchanged.
pub open spec fn lower_char(c: char) -> char {
    if 'A' <= c && c <= 'Z' {
        ((c as u32) + 32) as u8 as char
    } else {
        c
    }
}

/// ASCII upper case of one character; every other character is unchanged.
pub open spec fn upper_char(c: char) -> char {
    if 'a' <= c && c <= 'z' {
        ((c as u32) - 32) as u8 as char
    } else {
        c
    }
}

/// ASCII lower case of a text, character by character.
pub open spec fn ascii_lower(s: Seq<char>) -> Seq<char> {
    s.map_values(|c: char| lower_char(c))
}

/// ASCII upper case of a text, character by character.
pub open spec fn ascii_upper(s: Seq<char>) -> Seq<char> {
    s.map_values(|c: char| upper_char(c))
}

/// The characters with the Unicode `White_Space` property.
pub open spec fn is_space(c: char) -> bool {
    ||| '\u{9}' <= c && c <= '\u{d}'
    ||| c == ' '
    ||| c == '\u{85}'
    ||| c == '\u{a0}'
    ||| c == '\u{1680}'
    ||| '\u{2000}' <= c && c <= '\u{200a}'
    ||| c == '\u{2028}'
    ||| c == '\u{2029}'
    ||| c == '\u{202f}'
    ||| c == '\u{205f}'
    ||| c == '\u{3000}'
}

/// The text without its leading whitespace.
pub open spec fn trim_start(s: Seq<char>) -> Seq<char>
    decreases s.len(),
{
    if s.len() > 0 && is_space(s[0]) {
        trim_start(s.drop_first())
    } else {
        s
    }
}

/// The text without its trailing whitespace.
pub open spec fn trim_end(s: Seq<char>) -> Seq<char>
    decreases s.len(),
{
    if s.len() > 0 && is_space(s.last()) {
        trim_end(s.drop_last())
    } else {
        s
    }
}

/// The text without leading and trailing whitespace.
pub open spec fn trim(s: Seq<char>) -> Seq<char> {
    trim_end(trim_start(s))
}

/// `i` is the position of the first occurrence of `c` in `s`.
pub open spec fn is_first(s: Seq<char>, c: char, i: int) -> bool {
    &&& 0 <= i < s.len()
    &&& s[i] == c
    &&& forall|j: int| 0 <= j < i ==> s[j] != c
}

/// `c` occurs in `s`.
pub open spec fn occurs(s: Seq<char>, c: char) -> bool {
    exists|i: int| 0 <= i < s.len() && s[i] == c
}

/// The two pieces of `s` around its only comma; `None` when `s` holds no comma
/// or more than one.
pub open spec fn split_pair(s: Seq<char>) -> Option<(Seq<char>, Seq<char>)> {
    if exists|i: int| is_first(s, ',', i) && !occurs(s.subrange(i + 1, s.len() as int), ',') {
        let i = choose|i: int|
            is_first(s, ',', i) && !occurs(s.subrange(i + 1, s.len() as int), ',');
        Some((s.subrange(0, i), s.subrange(i + 1, s.len() as int)))
    } else {
        None
    }
}

/// An ASCII decimal digit.
pub open spec fn is_digit(c: char) -> bool {
    '0' <= c && c <= '9'
}

/// A non-empty run of ASCII decimal digits.
pub open spec fn is_digits(s: Seq<char>) -> bool {
    s.len() > 0 && forall|i: int| 0 <= i < s.len() ==> is_digit(s[i])
}

/// The value of a run of decimal digits.
pub open spec fn digits_value(s: Seq<char>) -> nat
    decreases s.len(),
{
    if s.len() == 0 {
        0
    } else {
        digits_value(s.drop_last()) * 10 + ((s.last() as u32) - ('0' as u32)) as nat
    }
}

/// The decimal integer that `s` spells, with an optional leading minus, when
/// it fits in 32 bits.
pub open spec fn int_value(s: Seq<char>) -> Option<i32> {
    if s.len() > 0 && s[0] == '-' {
        let d = s.drop_first();
        if is_digits(d) && digits_value(d) <= 0x8000_0000 {
            Some((0 - digits_value(d)) as i32)
        } else {
            None
        }
    } else if is_digits(s) && digits_value(s) <= 0x7fff_ffff {
        Some(digits_value(s) as i32)
    } else {
        None
    }
}

/// The decimal digits of a natural number, most significant first, without
/// leading zeros.
pub open spec fn digits_of(n: nat) -> Seq<char>
    decreases n,
{
    if n < 10 {
        seq![(n + 48) as u8 as char]
    } else {
        digits_of(n / 10).push(((n % 10) + 48) as u8 as char)
    }
}

/// The decimal spelling of an integer, with a leading minus when negative.
pub open spec fn int_text(n: int) -> Seq<char> {
    if n < 0 {
        seq!['-'] + digits_of((0 - n) as nat)
    } else {
        digits_of(n as nat)
    }
}

/// Copies the characters of a string slice.
pub fn to_chars(s: &str) -> (r: Vec<char>)
    ensures
        r@ == s@,
{
    let mut v: Vec<char> = Vec::new();
    for c in it: s.chars()
        invariant
            v@ == it.seq().take(it.index() as int),
    {
        v.push(c);
    }
    v
}

/// Relies on `String::push`: appends one character at the end.
#[verifier::external_body]
fn push_char(s: &mut String, c: char)
    ensures
        final(s)@ == old(s)@.push(c),
{
    s.push(c)
}

/// Builds a string from characters.
pub fn string_of(v: &Vec<char>) -> (r: String)
    ensures
        r@ == v@,
{
    let mut s = String::new();
    for i in 0..v.len()
        invariant
            s@ == v@.take(i as int),
    {
        push_char(&mut s, v[i]);
        assert(v@.take(i + 1) == v@.take(i as int).push(v@[i as int]));
    }
    assert(v@.take(v.len() as int) == v@);
    s
}

/// Appends the characters of `t` to `v`.
pub fn extend_chars(v: &mut Vec<char>, t: &Vec<char>)
    ensures
        final(v)@ == old(v)@ + t@,
{
    for i in 0..t.len()
        invariant
            v@ == old(v)@ + t@.take(i as int),
    {
        v.push(t[i]);
        assert(t@.take(i + 1) == t@.take(i as int).push(t@[i as int]));
    }
    assert(t@.take(t.len() as int) == t@);
}

/// Characters `from .. to` of `v`.
pub fn sub_chars(v: &Vec<char>, from: usize, to: usize) -> (r: Vec<char>)
    requires
        from <= to <= v.len(),
    ensures
        r@ == v@.subrange(from as int, to as int),
{
    let mut r: Vec<char> = Vec::new();
    for i in from..to
        invariant
            from <= to <= v.len(),
            r@ == v@.subrange(from as int, i as int),
    {
        r.push(v[i]);
        assert(v@.subrange(from as int, i + 1) == v@.subrange(from as int, i as int).push(
            v@[i as int],
        ));
    }
    r
}

/// Whether two character sequences are equal.
pub fn same_chars(a: &Vec<char>, b: &Vec<char>) -> (r: bool)
    ensures
        r == (a@ == b@),
{
    if a.len() != b.len() {
        return false;
    }
    for i in 0..a.len()
        invariant
            a.len() == b.len(),
            forall|j: int| 0 <= j < i ==> a@[j] == b@[j],
    {
        if a[i] != b[i] {
            return false;
        }
    }
    assert(a@ =~= b@);
    true
}

/// Whether the characters of `a` spell the string slice `b`.
pub fn chars_eq_str(a: &Vec<char>, b: &str) -> (r: bool)
    ensures
        r == (a@ == b@),
{
    let bv = to_chars(b);
    same_chars(a, &bv)
}

/// ASCII lower case of one character.
pub fn lower_one(c: char) -> (r: char)
    ensures
        r == lower_char(c),
{
    if 'A' <= c && c <= 'Z' {
        ((c as u32) + 32) as u8 as char
    } else {
        c
    }
}

/// ASCII lower case of a character sequence.
pub fn lower_chars(v: &Vec<char>) -> (r: Vec<char>)
    ensures
        r@ == ascii_lower(v@),
{
    let mut r: Vec<char> = Vec::new();
    for i in 0..v.len()
        invariant
            r@ == ascii_lower(v@.take(i as int)),
    {
        r.push(lower_one(v[i]));
        assert(ascii_lower(v@.take(i + 1)) =~= ascii_lower(v@.take(i as int)).push(
            lower_char(v@[i as int]),
        ));
    }
    assert(v@.take(v.len() as int) == v@);
    r
}

/// Whether a character has the Unicode `White_Space` property.
pub fn is_space_char(c: char) -> (r: bool)
    ensures
        r == is_space(c),
{
    ('\u{9}' <= c && c <= '\u{d}') || c == ' ' || c == '\u{85}' || c == '\u{a0}' || c == '\u{1680}'
        || ('\u{2000}' <= c && c <= '\u{200a}') || c == '\u{2028}' || c == '\u{2029}' || c
        == '\u{202f}' || c == '\u{205f}' || c == '\u{3000}'
}

/// Skipping a run of leading whitespace does not change what `trim_start` gives.
proof fn lemma_trim_start_skip(s: Seq<char>, k: int)
    requires
        0 <= k <= s.len(),
        forall|j: int| 0 <= j < k ==> is_space(s[j]),
    ensures
        trim_start(s) == trim_start(s.subrange(k, s.len() as int)),
    decreases k,
{
    if k > 0 {
        let t = s.drop_first();
        assert forall|j: int| 0 <= j < k - 1 implies is_space(t[j]) by {
            assert(t[j] == s[j + 1]);
        }
        lemma_trim_start_skip(t, k - 1);
        assert(t.subrange(k - 1, t.len() as int) =~= s.subrange(k, s.len() as int));
    } else {
        assert(s.subrange(0, s.len() as int) =~= s);
    }
}

/// Skipping a run of trailing whitespace does not change what `trim_end` gives.
proof fn lemma_trim_end_skip(s: Seq<char>, m: int)
    requires
        0 <= m <= s.len(),
        forall|j: int| m <= j < s.len() ==> is_space(s[j]),
    ensures
        trim_end(s) == trim_end(s.subrange(0, m)),
    decreases s.len() - m,
{
    if m < s.len() {
        let t = s.drop_last();
        lemma_trim_end_skip(t, m);
        assert(t.subrange(0, m) =~= s.subrange(0, m));
    } else {
        assert(s.subrange(0, m) =~= s);
    }
}

/// Removes leading and trailing whitespace.
pub fn trim_chars(v: &Vec<char>) -> (r: Vec<char>)
    ensures
        r@ == trim(v@),
{
    let mut i: usize = 0;
    while i < v.len() && is_space_char(v[i])
        invariant
            i <= v.len(),
            forall|j: int| 0 <= j < i ==> is_space(v@[j]),
        decreases v.len() - i,
    {
        i = i + 1;
    }
    proof {
        lemma_trim_start_skip(v@, i as int);
    }
    let ghost u = v@.subrange(i as int, v.len() as int);
    assert(trim_start(u) == u);
    let mut j: usize = v.len();
    while j > i && is_space_char(v[j - 1])
        invariant
            i <= j <= v.len(),
            forall|k: int| j <= k < v.len() ==> is_space(v@[k]),
        decreases j,
    {
        j = j - 1;
    }
    proof {
        lemma_trim_end_skip(u, j - i);
        assert(u.subrange(0, j - i) =~= v@.subrange(i as int, j as int));
        let w = v@.subrange(i as int, j as int);
        if w.len() > 0 {
            assert(w.last() == v@[j - 1]);
        }
    }
    sub_chars(v, i, j)
}

/// Position of the first occurrence of `c` at or after `from`, if any.
pub fn find_char(v: &Vec<char>, c: char, from: usize) -> (r: Option<usize>)
    requires
        from <= v.len(),
    ensures
        match r {
            Some(i) => from <= i < v.len() && v@[i as int] == c && forall|j: int|
                from <= j < i ==> v@[j] != c,
            None => forall|j: int| from <= j < v.len() ==> v@[j] != c,
        },
{
    let mut i = from;
    while i < v.len()
        invariant
            from <= i <= v.len(),
            forall|j: int| from <= j < i ==> v@[j] != c,
        decreases v.len() - i,
    {
        if v[i] == c {
            return Some(i);
        }
        i = i + 1;
    }
    None
}

/// The two pieces around the only comma of `v`; `None` when it holds no comma
/// or more than one.
pub fn split_comma(v: &Vec<char>) -> (r: Option<(Vec<char>, Vec<char>)>)
    ensures
        match split_pair(v@) {
            Some((a, b)) => r matches Some((x, y)) && x@ == a && y@ == b,
            None => r is None,
        },
{
    let s = Ghost(v@);
    match find_char(v, ',', 0) {
        None => {
            assert(!exists|i: int| is_first(s@, ',', i));
            None
        },
        Some(i) => {
            assert(is_first(s@, ',', i as int));
            let rest = find_char(v, ',', i + 1);
            let rest_none = rest.is_none();
            proof {
                assert forall|k: int| is_first(s@, ',', k) implies k == i by {}
                let tail = s@.subrange(i + 1, s@.len() as int);
                if rest_none {
                    assert(!occurs(tail, ',')) by {
                        assert forall|m: int| 0 <= m < tail.len() implies tail[m] != ',' by {
                            assert(tail[m] == s@[i + 1 + m]);
                        }
                    }
                } else {
                    let k = rest->Some_0;
                    assert(tail[k - i - 1] == ',');
                    assert(occurs(tail, ','));
                }
            }
            if rest_none {
                let a = sub_chars(v, 0, i);
                let b = sub_chars(v, i + 1, v.len());
                Some((a, b))
            } else {
                None
            }
        },
    }
}

/// `digits_value` never decreases as digits are appended.
proof fn lemma_digits_value_grows(s: Seq<char>, k: int)
    requires
        0 <= k <= s.len(),
    ensures
        digits_value(s.take(k)) <= digits_value(s),
    decreases s.len() - k,
{
    if k < s.len() {
        lemma_digits_value_grows(s, k + 1);
        assert(s.take(k + 1).drop_last() =~= s.take(k));
    } else {
        assert(s.take(k) =~= s);
    }
}

/// Reads a decimal integer with an optional leading minus into 32 bits.
pub fn parse_int(v: &Vec<char>) -> (r: Option<i32>)
    ensures
        r == int_value(v@),
{
    let neg = v.len() > 0 && v[0] == '-';
    let start: usize = if neg {
        1
    } else {
        0
    };
    let ghost d = v@.subrange(start as int, v.len() as int);
    assert(neg ==> d =~= v@.drop_first());
    assert(!neg ==> d =~= v@);
    if start == v.len() {
        return None;
    }
    let limit: u64 = if neg {
        0x8000_0000
    } else {
        0x7fff_ffff
    };
    let mut acc: u64 = 0;
    let mut i = start;
    while i < v.len()
        invariant
            start <= i <= v.len(),
            d == v@.subrange(start as int, v.len() as int),
            acc == digits_value(d.take(i - start)),
            acc <= limit,
            limit == if neg {
                0x8000_0000u64
            } else {
                0x7fff_ffffu64
            },
            start == if neg {
                1usize
            } else {
                0usize
            },
            neg == (v@.len() > 0 && v@[0] == '-'),
            forall|j: int| 0 <= j < i - start ==> is_digit(d[j]),
        decreases v.len() - i,
    {
        let c = v[i];
        if !('0' <= c && c <= '9') {
            assert(d[i - start] == c);
            assert(!is_digits(d));
            return None;
        }
        assert(d.take(i - start + 1).drop_last() =~= d.take(i - start));
        assert(d.take(i - start + 1).last() == c);
        acc = acc * 10 + ((c as u32) - ('0' as u32)) as u64;
        i = i + 1;
        assert(acc == digits_value(d.take(i - start)));
        if acc > limit {
            proof {
                lemma_digits_value_grows(d, i - start);
                assert(neg ==> d =~= v@.drop_first());
                assert(!neg ==> d =~= v@);
            }
            return None;
        }
    }
    assert(d.take(i - start) =~= d);
    assert(neg ==> d =~= v@.drop_first());
    assert(!neg ==> d =~= v@);
    if neg {
        Some((0 - acc as i64) as i32)
    } else {
        Some(acc as i32)
    }
}

/// Decimal digits of a natural number.
fn digits_vec(m: u32) -> (r: Vec<char>)
    ensures
        r@ == digits_of(m as nat),
    decreases m,
{
    if m < 10 {
        let mut v: Vec<char> = Vec::new();
        v.push(((m + 48) as u8) as char);
        assert(v@ =~= seq![((m as nat) + 48) as u8 as char]);
        v
    } else {
        let mut v = digits_vec(m / 10);
        v.push((((m % 10) + 48) as u8) as char);
        v
    }
}

/// Decimal spelling of a 32-bit integer.
pub fn int_chars(n: i32) -> (r: Vec<char>)
    ensures
        r@ == int_text(n as int),
{
    if n < 0 {
        let m = (0 - (n as i64)) as u32;
        let mut v: Vec<char> = Vec::new();
        v.push('-');
        let d = digits_vec(m);
        extend_chars(&mut v, &d);
        assert(v@ =~= seq!['-'] + digits_of(m as nat));
        v
    } else {
        digits_vec(n as u32)
    }
}

/// The decimal digits of `n` are digits and spell `n`.
pub proof fn lemma_digits_of(n: nat)
    ensures
        is_digits(digits_of(n)),
        digits_value(digits_of(n)) == n,
    decreases n,
{
    let c = ((n % 10) + 48) as u8 as char;
    assert((c as u32) - ('0' as u32) == n % 10);
    if n >= 10 {
        lemma_digits_of(n / 10);
        let d = digits_of(n);
        assert(d.drop_last() =~= digits_of(n / 10));
        assert(d.last() == c);
        assert((n / 10) * 10 + n % 10 == n) by (nonlinear_arith);
    } else {
        let d = digits_of(n);
        assert(d.drop_last() =~= Seq::<char>::empty());
        assert(d.last() == c);
        assert(digits_value(Seq::<char>::empty()) == 0);
        assert forall|i: int| 0 <= i < d.len() implies is_digit(d[i]) by {
            if i < d.len() - 1 {
                assert(d[i] == digits_of(n / 10)[i]);
            }
        }
    }
}

/// The decimal spelling of a 32-bit integer reads back as that integer; it
/// holds no whitespace and no comma.
pub proof fn lemma_int_text(n: i32)
    ensures
        int_value(int_text(n as int)) == Some(n),
        int_text(n as int).len() > 0,
        !is_space(int_text(n as int)[0]),
        !is_space(int_text(n as int).last()),
        !occurs(int_text(n as int), ','),
{
    let t = int_text(n as int);
    if n < 0 {
        let m = (0 - n) as nat;
        lemma_digits_of(m);
        assert(t.drop_first() =~= digits_of(m));
        assert(t.last() == digits_of(m).last());
        assert forall|i: int| 0 <= i < t.len() implies t[i] != ',' by {
            if i > 0 {
                assert(t[i] == digits_of(m)[i - 1]);
            }
        }
    } else {
        lemma_digits_of(n as nat);
        assert(t[0] != '-');
    }
}

/// A text that starts and ends with a non-space character is its own trim.
pub proof fn lemma_trim_plain(t: Seq<char>)
    requires
        t.len() > 0,
        !is_space(t[0]),
        !is_space(t.last()),
    ensures
        trim(t) == t,
{
}

/// One leading space is trimmed off a text that starts and ends with a
/// non-space character.
pub proof fn lemma_trim_one_space(t: Seq<char>)
    requires
        t.len() > 0,
        !is_space(t[0]),
        !is_space(t.last()),
    ensures
        trim(seq![' '] + t) == t,
{
    let u = seq![' '] + t;
    assert(u[0] == ' ');
    assert(u.drop_first() =~= t);
    assert(trim_start(u) == trim_start(t));
    assert(trim_start(t) == t);
}

/// A text with exactly one comma splits around it.
pub proof fn lemma_split_pair(a: Seq<char>, b: Seq<char>)
    requires
        !occurs(a, ','),
        !occurs(b, ','),
    ensures
        split_pair(a + seq![','] + b) == Some((a, b)),
{
    let s = a + seq![','] + b;
    let k = a.len() as int;
    assert(s[k] == ',');
    assert forall|j: int| 0 <= j < k implies s[j] != ',' by {
        assert(s[j] == a[j]);
    }
    assert(s.subrange(k + 1, s.len() as int) =~= b);
    assert(is_first(s, ',', k));
    let i = choose|i: int| is_first(s, ',', i) && !occurs(s.subrange(i + 1, s.len() as int), ',');
    assert(i == k);
    assert(s.subrange(0, k) =~= a);
}

} // verus!
