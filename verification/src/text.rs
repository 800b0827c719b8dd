//! Character-level text handling: whitespace, trimming, case folding and
//! decimal numbers, each stated over `Seq<char>`.

use vstd::prelude::*;

verus! {

/// Unicode `White_Space`: the characters that `char::is_whitespace` accepts.
pub open spec fn is_white(c: char) -> bool {
    let u = c as u32;
    ||| 0x09 <= u <= 0x0D
    ||| u == 0x20
    ||| u == 0x85
    ||| u == 0xA0
    ||| u == 0x1680
    ||| 0x2000 <= u <= 0x200A
    ||| u == 0x2028
    ||| u == 0x2029
    ||| u == 0x202F
    ||| u == 0x205F
    ||| u == 0x3000
}

/// `s` without its leading white space.
pub open spec fn trim_start(s: Seq<char>) -> Seq<char>
    decreases s.len(),
{
    if s.len() > 0 && is_white(s[0]) {
        trim_start(s.drop_first())
    } else {
        s
    }
}

/// `s` without its trailing white space.
pub open spec fn trim_end(s: Seq<char>) -> Seq<char>
    decreases s.len(),
{
    if s.len() > 0 && is_white(s.last()) {
        trim_end(s.drop_last())
    } else {
        s
    }
}

/// `s` without white space at either end.
pub open spec fn trim(s: Seq<char>) -> Seq<char> {
    trim_end(trim_start(s))
}

/// `s` without any leading or trailing occurrence of `q`.
pub open spec fn strip_char(s: Seq<char>, q: char) -> Seq<char> {
    strip_end(strip_start(s, q), q)
}

pub open spec fn strip_start(s: Seq<char>, q: char) -> Seq<char>
    decreases s.len(),
{
    if s.len() > 0 && s[0] == q {
        strip_start(s.drop_first(), q)
    } else {
        s
    }
}

pub open spec fn strip_end(s: Seq<char>, q: char) -> Seq<char>
    decreases s.len(),
{
    if s.len() > 0 && s.last() == q {
        strip_end(s.drop_last(), q)
    } else {
        s
    }
}

pub open spec fn is_ascii_upper(c: char) -> bool {
    65 <= (c as u32) <= 90
}

/// ASCII case folding of one character; every other character is kept.
pub open spec fn ascii_lower(c: char) -> char {
    if is_ascii_upper(c) {
        (((c as u32) + 32) as u8) as char
    } else {
        c
    }
}

pub open spec fn ascii_lowercase(s: Seq<char>) -> Seq<char> {
    s.map_values(|c: char| ascii_lower(c))
}

pub open spec fn is_digit(c: char) -> bool {
    48 <= (c as u32) <= 57
}

pub open spec fn digit_value(c: char) -> nat {
    ((c as u32) - 48) as nat
}

pub open spec fn digit_char(d: nat) -> char {
    ((d + 48) as u8) as char
}

/// The decimal numeral of `n`, without sign or leading zeros.
pub open spec fn decimal(n: nat) -> Seq<char>
    decreases n,
{
    if n < 10 {
        seq![digit_char(n)]
    } else {
        decimal(n / 10).push(digit_char(n % 10))
    }
}

/// The number that a non-empty run of decimal digits denotes.
pub open spec fn digits_value(s: Seq<char>) -> nat
    decreases s.len(),
{
    if s.len() == 0 {
        0
    } else {
        digits_value(s.drop_last()) * 10 + digit_value(s.last())
    }
}

pub open spec fn all_digits(s: Seq<char>) -> bool {
    forall|i: int| 0 <= i < s.len() ==> #[trigger] is_digit(s[i])
}

/// What `str::parse` reads from `s` for an unsigned integer type without
/// bound: one optional `+`, then one or more decimal digits, nothing else.
pub open spec fn unsigned_value(s: Seq<char>) -> Option<nat> {
    let body = if s.len() > 0 && s[0] == '+' {
        s.drop_first()
    } else {
        s
    };
    if body.len() > 0 && all_digits(body) {
        Some(digits_value(body))
    } else {
        None
    }
}

/// What `str::parse` gives for an unsigned type whose largest value is `max`.
pub open spec fn parse_bounded(s: Seq<char>, max: nat) -> Option<nat> {
    match unsigned_value(s) {
        Some(v) => if v <= max {
            Some(v)
        } else {
            None
        },
        None => None,
    }
}

/// Appends one character to a `String`.
#[verifier::external_body]
pub(crate) fn push_char(s: &mut String, c: char)
    ensures
        final(s)@ == old(s)@.push(c),
{
    s.push(c);
}

/// The characters of `s`, in order.
pub fn chars_of(s: &str) -> (v: Vec<char>)
    ensures
        v@ == s@,
{
    let mut v: Vec<char> = Vec::new();
    for c in it: s.chars()
        invariant
            it.seq() == s@,
            v@ == it.seq().take(it.index() as int),
    {
        v.push(c);
    }
    v
}

/// Appends the characters `v[from..to]` to `out`.
pub fn push_range(out: &mut String, v: &Vec<char>, from: usize, to: usize)
    requires
        from <= to <= v@.len(),
    ensures
        final(out)@ == old(out)@ + v@.subrange(from as int, to as int),
{
    let mut i = from;
    while i < to
        invariant
            from <= i <= to <= v@.len(),
            out@ == old(out)@ + v@.subrange(from as int, i as int),
        decreases to - i,
    {
        push_char(out, v[i]);
        assert(v@.subrange(from as int, i + 1) =~= v@.subrange(from as int, i as int).push(v@[i as int]));
        i = i + 1;
    }
}

/// A `String` holding `v[from..to]`.
pub fn string_of_range(v: &Vec<char>, from: usize, to: usize) -> (s: String)
    requires
        from <= to <= v@.len(),
    ensures
        s@ == v@.subrange(from as int, to as int),
{
    let mut s = String::new();
    push_range(&mut s, v, from, to);
    assert(Seq::<char>::empty() + v@.subrange(from as int, to as int) =~= v@.subrange(
        from as int,
        to as int,
    ));
    s
}

/// Whether `a` holds the characters of `b`.
pub fn same_text(a: &String, b: &str) -> (r: bool)
    ensures
        r == (a@ == b@),
{
    let t = b.to_owned();
    *a == t
}

/// ASCII case folding of one character, as `char::to_ascii_lowercase`.
pub fn lower_char(c: char) -> (r: char)
    ensures
        r == ascii_lower(c),
{
    let u = c as u32;
    if 65 <= u && u <= 90 {
        ((u + 32) as u8) as char
    } else {
        c
    }
}

/// A `String` holding `v[from..to]` folded to ASCII lower case.
pub fn lowercase_range(v: &Vec<char>, from: usize, to: usize) -> (s: String)
    requires
        from <= to <= v@.len(),
    ensures
        s@ == ascii_lowercase(v@.subrange(from as int, to as int)),
{
    let mut s = String::new();
    let mut i = from;
    while i < to
        invariant
            from <= i <= to <= v@.len(),
            s@ == ascii_lowercase(v@.subrange(from as int, i as int)),
        decreases to - i,
    {
        let c = lower_char(v[i]);
        push_char(&mut s, c);
        assert(ascii_lowercase(v@.subrange(from as int, i + 1)) =~= ascii_lowercase(
            v@.subrange(from as int, i as int),
        ).push(ascii_lower(v@[i as int])));
        i = i + 1;
    }
    s
}

/// Whether `c` is white space in the sense of `char::is_whitespace`.
pub fn is_whitespace(c: char) -> (b: bool)
    ensures
        b == is_white(c),
{
    let u = c as u32;
    (0x09 <= u && u <= 0x0D) || u == 0x20 || u == 0x85 || u == 0xA0 || u == 0x1680 || (0x2000 <= u
        && u <= 0x200A) || u == 0x2028 || u == 0x2029 || u == 0x202F || u == 0x205F || u == 0x3000
}

proof fn lemma_trim_start_skip(s: Seq<char>, i: int)
    requires
        0 <= i < s.len(),
        is_white(s[i]),
    ensures
        trim_start(s.skip(i)) == trim_start(s.skip(i + 1)),
{
    assert(s.skip(i).drop_first() =~= s.skip(i + 1));
}

proof fn lemma_trim_end_take(s: Seq<char>, j: int)
    requires
        0 < j <= s.len(),
        is_white(s[j - 1]),
    ensures
        trim_end(s.take(j)) == trim_end(s.take(j - 1)),
{
    assert(s.take(j).drop_last() =~= s.take(j - 1));
}

/// The bounds `(i, j)` such that `v[i..j]` is `v` trimmed at both ends.
pub fn trim_bounds(v: &Vec<char>) -> (r: (usize, usize))
    ensures
        r.0 <= r.1 <= v@.len(),
        v@.subrange(r.0 as int, r.1 as int) == trim(v@),
{
    let n = v.len();
    let mut i: usize = 0;
    assert(v@.skip(0) =~= v@);
    while i < n && is_whitespace(v[i])
        invariant
            i <= n == v@.len(),
            trim_start(v@) == trim_start(v@.skip(i as int)),
        decreases n - i,
    {
        proof {
            lemma_trim_start_skip(v@, i as int);
        }
        i = i + 1;
    }
    assert(trim_start(v@) == v@.skip(i as int));
    let ghost u = v@.skip(i as int);
    let mut j: usize = n;
    assert(u.take((n - i) as int) =~= u);
    while j > i && is_whitespace(v[j - 1])
        invariant
            i <= j <= n == v@.len(),
            u == v@.skip(i as int),
            trim_end(u) == trim_end(u.take(j - i)),
        decreases j,
    {
        proof {
            assert(u[j - i - 1] == v@[j - 1]);
            lemma_trim_end_take(u, j - i);
        }
        j = j - 1;
    }
    assert(trim_end(u.take(j - i)) == u.take(j - i));
    assert(u.take(j - i) =~= v@.subrange(i as int, j as int));
    (i, j)
}

/// The bound `j` such that `v[..j]` is `v` without trailing white space.
pub fn trim_end_bound(v: &Vec<char>) -> (j: usize)
    ensures
        j <= v@.len(),
        v@.take(j as int) == trim_end(v@),
{
    let n = v.len();
    let mut j: usize = n;
    assert(v@.take(n as int) =~= v@);
    while j > 0 && is_whitespace(v[j - 1])
        invariant
            j <= n == v@.len(),
            trim_end(v@) == trim_end(v@.take(j as int)),
        decreases j,
    {
        proof {
            lemma_trim_end_take(v@, j as int);
        }
        j = j - 1;
    }
    j
}

/// `s` trimmed of white space at both ends, as in `str::trim`.
pub fn trimmed(s: &str) -> (r: String)
    ensures
        r@ == trim(s@),
{
    let v = chars_of(s);
    let (i, j) = trim_bounds(&v);
    string_of_range(&v, i, j)
}

/// Appends the decimal numeral of `n` to `out`.
pub fn push_decimal(out: &mut String, n: u64)
    ensures
        final(out)@ == old(out)@ + decimal(n as nat),
    decreases n,
{
    if n >= 10 {
        push_decimal(out, n / 10);
    }
    let d: u8 = (n % 10) as u8;
    push_char(out, (d + 48) as char);
    proof {
        if n >= 10 {
            assert(old(out)@ + decimal(n as nat) =~= old(out)@ + decimal((n / 10) as nat) + seq![
                digit_char((n % 10) as nat)]);
        } else {
            assert(old(out)@ + decimal(n as nat) =~= old(out)@.push(digit_char(n as nat)));
        }
    }
}

proof fn lemma_digits_value_prefix(s: Seq<char>, k: int)
    requires
        0 <= k <= s.len(),
        all_digits(s),
    ensures
        digits_value(s.take(k)) <= digits_value(s),
    decreases s.len() - k,
{
    if k < s.len() {
        lemma_digits_value_prefix(s, k + 1);
        assert(s.take(k + 1).drop_last() =~= s.take(k));
    } else {
        assert(s.take(k) =~= s);
    }
}

proof fn lemma_unsigned_body(s: Seq<char>, start: int)
    requires
        start == (if s.len() > 0 && s[0] == '+' {
            1int
        } else {
            0int
        }),
    ensures
        unsigned_value(s) == (if s.skip(start).len() > 0 && all_digits(s.skip(start)) {
            Some(digits_value(s.skip(start)))
        } else {
            None
        }),
{
    if start == 1 {
        assert(s.skip(1) =~= s.drop_first());
    } else {
        assert(s.skip(0) =~= s);
    }
}

/// Reads an unsigned integer no larger than `max` as `str::parse` does.
pub fn parse_unsigned(s: &str, max: u64) -> (r: Option<u64>)
    ensures
        match parse_bounded(s@, max as nat) {
            Some(v) => r == Some(v as u64),
            None => r is None,
        },
{
    let v = chars_of(s);
    let n = v.len();
    let start: usize = if n > 0 && v[0] == '+' {
        1
    } else {
        0
    };
    let ghost body = v@.skip(start as int);
    proof {
        lemma_unsigned_body(v@, start as int);
    }
    if start >= n {
        return None;
    }
    let mut k = start;
    while k < n
        invariant
            start <= k <= n == v@.len(),
            body == v@.skip(start as int),
            v@ == s@,
            unsigned_value(v@) == (if body.len() > 0 && all_digits(body) {
                Some(digits_value(body))
            } else {
                None
            }),
            forall|i: int| 0 <= i < k - start ==> #[trigger] is_digit(body[i]),
        decreases n - k,
    {
        let u = v[k] as u32;
        assert(body[k - start] == v@[k as int]);
        if u < 48 || u > 57 {
            assert(!is_digit(body[k - start]));
            assert(!all_digits(body));
            return None;
        }
        k = k + 1;
    }
    assert(all_digits(body));
    let mut acc: u64 = 0;
    let mut k = start;
    assert(body.take(0) =~= Seq::<char>::empty());
    while k < n
        invariant
            start <= k <= n == v@.len(),
            body == v@.skip(start as int),
            v@ == s@,
            unsigned_value(v@) == (if body.len() > 0 && all_digits(body) {
                Some(digits_value(body))
            } else {
                None
            }),
            all_digits(body),
            acc as nat == digits_value(body.take(k - start)),
            acc <= max,
        decreases n - k,
    {
        assert(body[k - start] == v@[k as int]);
        assert(is_digit(body[k - start]));
        let d = (v[k] as u32 - 48) as u64;
        assert(body.take(k - start + 1).drop_last() =~= body.take(k - start));
        assert(body.take(k - start + 1).last() == body[k - start]);
        assert(digits_value(body.take(k - start + 1)) == acc * 10 + d);
        if d > max || acc > (max - d) / 10 {
            proof {
                if d <= max {
                    assert(acc * 10 + d > max) by (nonlinear_arith)
                        requires
                            acc > (max - d) / 10,
                            d <= max,
                    ;
                }
                lemma_digits_value_prefix(body, k - start + 1);
            }
            return None;
        }
        proof {
            assert(acc * 10 + d <= max) by (nonlinear_arith)
                requires
                    acc <= (max - d) / 10,
                    d <= max,
            ;
        }
        acc = acc * 10 + d;
        k = k + 1;
    }
    assert(body.take(n - start) =~= body);
    Some(acc)
}

} // verus!

verus! {

proof fn lemma_digit_char(d: nat)
    requires
        d < 10,
    ensures
        is_digit(digit_char(d)),
        digit_value(digit_char(d)) == d,
{
    let b = (d + 48) as u8;
    assert(b == d + 48);
    assert((b as char) as u32 == b as u32);
}

proof fn lemma_decimal_digits(n: nat)
    ensures
        decimal(n).len() > 0,
        all_digits(decimal(n)),
        digits_value(decimal(n)) == n,
    decreases n,
{
    lemma_digit_char(n % 10);
    if n >= 10 {
        lemma_decimal_digits(n / 10);
        let s = decimal(n);
        assert(s.drop_last() =~= decimal(n / 10));
        assert(s.last() == digit_char(n % 10));
        assert(digits_value(s) == digits_value(s.drop_last()) * 10 + digit_value(s.last()));
        assert((n / 10) * 10 + n % 10 == n);
        assert forall|i: int| 0 <= i < s.len() implies #[trigger] is_digit(s[i]) by {
            if i < s.len() - 1 {
                assert(s[i] == decimal(n / 10)[i]);
            }
        }
    } else {
        let s = decimal(n);
        assert(s.drop_last() =~= Seq::<char>::empty());
        assert(s.last() == digit_char(n));
        assert(digits_value(s) == digits_value(s.drop_last()) * 10 + digit_value(s.last()));
    }
}

/// A printed number reads back as itself: `str::parse` undoes the decimal
/// numeral that `to_string` writes.
pub proof fn decimal_parses_back(n: nat, max: nat)
    requires
        n <= max,
    ensures
        parse_bounded(decimal(n), max) == Some(n),
{
    lemma_decimal_digits(n);
    let s = decimal(n);
    assert(is_digit(s[0]));
}

/// ASCII case folding neither makes nor unmakes white space.
pub proof fn lemma_lower_white(c: char)
    ensures
        is_white(ascii_lower(c)) == is_white(c),
{
}

proof fn lemma_trim_start_shape(s: Seq<char>)
    ensures
        trim_start(s).len() > 0 ==> !is_white(trim_start(s)[0]),
        exists|k: int| 0 <= k <= s.len() && trim_start(s) == #[trigger] s.skip(k),
    decreases s.len(),
{
    if s.len() > 0 && is_white(s[0]) {
        lemma_trim_start_shape(s.drop_first());
        let k = choose|k: int|
            0 <= k <= s.drop_first().len() && trim_start(s.drop_first()) == #[trigger] s.drop_first().skip(k);
        assert(s.drop_first().skip(k) =~= s.skip(k + 1));
    } else {
        assert(s.skip(0) =~= s);
    }
}

proof fn lemma_trim_end_shape(s: Seq<char>)
    ensures
        trim_end(s).len() > 0 ==> !is_white(trim_end(s).last()),
        exists|k: int| 0 <= k <= s.len() && trim_end(s) == #[trigger] s.take(k),
    decreases s.len(),
{
    if s.len() > 0 && is_white(s.last()) {
        lemma_trim_end_shape(s.drop_last());
        let k = choose|k: int|
            0 <= k <= s.drop_last().len() && trim_end(s.drop_last()) == #[trigger] s.drop_last().take(k);
        assert(s.drop_last().take(k) =~= s.take(k));
    } else {
        assert(s.take(s.len() as int) =~= s);
    }
}

/// A trimmed sequence begins and ends with characters that are not white.
pub proof fn lemma_trim_ends(s: Seq<char>)
    ensures
        trim(s).len() > 0 ==> !is_white(trim(s)[0]) && !is_white(trim(s).last()),
{
    let t = trim_start(s);
    lemma_trim_start_shape(s);
    lemma_trim_end_shape(t);
    let k = choose|k: int| 0 <= k <= t.len() && trim_end(t) == #[trigger] t.take(k);
    if trim(s).len() > 0 {
        assert(trim(s)[0] == t[0]);
    }
}

/// Trimming leaves alone a sequence that neither begins nor ends with white
/// space.
pub proof fn lemma_trim_unchanged(s: Seq<char>)
    requires
        s.len() > 0 ==> !is_white(s[0]) && !is_white(s.last()),
    ensures
        trim(s) == s,
{
}

/// Folding to lower case commutes with trimming, and folding twice is
/// folding once.
pub proof fn lemma_lower_trim(s: Seq<char>)
    ensures
        trim(ascii_lowercase(trim(s))) == ascii_lowercase(trim(s)),
        ascii_lowercase(ascii_lowercase(trim(s))) == ascii_lowercase(trim(s)),
{
    let t = trim(s);
    lemma_trim_ends(s);
    let l = ascii_lowercase(t);
    if t.len() > 0 {
        lemma_lower_white(t[0]);
        lemma_lower_white(t.last());
        assert(l[0] == ascii_lower(t[0]));
        assert(l.last() == ascii_lower(t.last()));
    }
    lemma_trim_unchanged(l);
    assert(ascii_lowercase(l) =~= l);
}

} // verus!
