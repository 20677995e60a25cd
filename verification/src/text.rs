//! Plain-text helpers: comparison, searching, splitting and decimal numbers.
//!
//! A text is modelled by its characters, `Seq<char>`.
use vstd::prelude::*;
use vstd::string::*;
use vstd::utf8::*;

verus! {

/// `needle` stands in `hay` from position `at` on.
pub open spec fn occurs_at(hay: Seq<char>, needle: Seq<char>, at: int) -> bool {
    0 <= at <= hay.len() - needle.len() && hay.subrange(at, at + needle.len()) == needle
}

/// `needle` occurs somewhere in `hay`.
pub open spec fn contains_text(hay: Seq<char>, needle: Seq<char>) -> bool {
    exists|at: int| occurs_at(hay, needle, at)
}

/// `s` begins with `prefix`.
pub open spec fn starts_with(s: Seq<char>, prefix: Seq<char>) -> bool {
    prefix.len() <= s.len() && s.take(prefix.len() as int) == prefix
}

/// The characters of `s`, one per element.
pub fn chars_of(s: &str) -> (r: Vec<char>)
    ensures
        r@ == s@,
{
    let mut r: Vec<char> = Vec::new();
    for c in iter: s.chars()
        invariant
            r@ == iter.seq().take(iter.index()),
            iter.seq() == s@,
    {
        r.push(c);
        assert(iter.seq().take(iter.index() + 1) =~= iter.seq().take(iter.index()).push(c));
    }
    assert(s@.take(s@.len() as int) =~= s@);
    r
}

/// Whether two texts have the same characters.
pub fn text_eq(a: &str, b: &str) -> (r: bool)
    ensures
        r == (a@ == b@),
{
    let x = a.as_bytes();
    let y = b.as_bytes();
    proof {
        encode_utf8_decode_utf8(a@);
        encode_utf8_decode_utf8(b@);
    }
    if x.len() != y.len() {
        return false;
    }
    let mut i: usize = 0;
    while i < x.len()
        invariant
            i <= x@.len(),
            x@.len() == y@.len(),
            x@ == encode_utf8(a@),
            y@ == encode_utf8(b@),
            forall|j: int| 0 <= j < i ==> x@[j] == y@[j],
        decreases x@.len() - i,
    {
        if x[i] != y[i] {
            return false;
        }
        i += 1;
    }
    assert(x@ =~= y@);
    true
}

/// Whether the characters of `needle` stand in `hay` at position `at`.
fn matches_at(hay: &Vec<char>, needle: &Vec<char>, at: usize) -> (r: bool)
    requires
        at + needle@.len() <= hay@.len(),
    ensures
        r == occurs_at(hay@, needle@, at as int),
{
    let len: usize = hay.len();
    let mut j: usize = 0;
    while j < needle.len()
        invariant
            j <= needle@.len(),
            len == hay@.len(),
            at + needle@.len() <= len,
            forall|k: int| 0 <= k < j ==> hay@[at + k] == needle@[k],
        decreases needle@.len() - j,
    {
        if hay[at + j] != needle[j] {
            assert(hay@.subrange(at as int, at + needle@.len())[j as int] != needle@[j as int]);
            return false;
        }
        j += 1;
    }
    assert(hay@.subrange(at as int, at + needle@.len()) =~= needle@);
    true
}

/// Whether `needle` occurs in `hay`.
pub fn text_contains(hay: &str, needle: &str) -> (r: bool)
    ensures
        r == contains_text(hay@, needle@),
{
    let h = chars_of(hay);
    let n = chars_of(needle);
    if h.len() < n.len() {
        return false;
    }
    let last: usize = h.len() - n.len();
    let mut i: usize = 0;
    while i < last
        invariant
            h@ == hay@,
            n@ == needle@,
            last == h@.len() - n@.len(),
            i <= last,
            forall|k: int| 0 <= k < i ==> !occurs_at(h@, n@, k),
        decreases last - i,
    {
        if matches_at(&h, &n, i) {
            return true;
        }
        i += 1;
    }
    matches_at(&h, &n, last)
}

/// What follows `prefix` in `s`, if `s` begins with it.
pub fn strip_prefix(s: &str, prefix: &str) -> (r: Option<String>)
    ensures
        r is Some <==> starts_with(s@, prefix@),
        r matches Some(rest) ==> rest@ == s@.skip(prefix@.len() as int),
{
    let h = chars_of(s);
    let p = chars_of(prefix);
    if h.len() < p.len() {
        return None;
    }
    if matches_at(&h, &p, 0) {
        assert(s@.take(prefix@.len() as int) =~= s@.subrange(0, prefix@.len() as int));
        let rest = s.substring_char(p.len(), h.len());
        assert(rest@ =~= s@.skip(prefix@.len() as int));
        Some(rest.to_owned())
    } else {
        assert(s@.take(prefix@.len() as int) =~= s@.subrange(0, prefix@.len() as int));
        None
    }
}

/// `s` cut at its last `c`: what stands before it and what stands after it.
pub open spec fn rsplit(s: Seq<char>, c: char) -> Option<(Seq<char>, Seq<char>)>
    decreases s.len(),
{
    if s.len() == 0 {
        None
    } else if s.last() == c {
        Some((s.drop_last(), Seq::empty()))
    } else {
        match rsplit(s.drop_last(), c) {
            Some((before, after)) => Some((before, after.push(s.last()))),
            None => None,
        }
    }
}

/// A text with a last `c` is cut there, and there is only one such cut.
pub proof fn law_rsplit(before: Seq<char>, c: char, after: Seq<char>)
    requires
        !after.contains(c),
    ensures
        rsplit(before.push(c) + after, c) == Some((before, after)),
    decreases after.len(),
{
    let s = before.push(c) + after;
    if after.len() == 0 {
        assert(s.drop_last() =~= before);
        assert(after =~= Seq::empty());
    } else {
        assert(after.contains(after.last()));
        assert forall|i: int| 0 <= i < after.drop_last().len() implies after.drop_last()[i]
            != c by {
            assert(after.contains(after[i]));
        }
        law_rsplit(before, c, after.drop_last());
        assert(s.drop_last() =~= before.push(c) + after.drop_last());
        assert(after.drop_last().push(after.last()) =~= after);
    }
}

proof fn lemma_rsplit_none(s: Seq<char>, c: char)
    requires
        forall|i: int| 0 <= i < s.len() ==> s[i] != c,
    ensures
        rsplit(s, c) is None,
    decreases s.len(),
{
    if s.len() > 0 {
        lemma_rsplit_none(s.drop_last(), c);
    }
}

/// `s` cut at its last `c`: what stands before it and what stands after it.
pub fn rsplit_once(s: &str, c: char) -> (r: Option<(String, String)>)
    ensures
        r.deep_view() == rsplit(s@, c),
{
    let h = chars_of(s);
    let mut i: usize = h.len();
    while i > 0
        invariant
            h@ == s@,
            i <= h@.len(),
            forall|j: int| i <= j < h@.len() ==> h@[j] != c,
        decreases i,
    {
        if h[i - 1] == c {
            let before = s.substring_char(0, i - 1);
            let after = s.substring_char(i, h.len());
            proof {
                law_rsplit(before@, c, after@);
                assert(s@ =~= before@.push(c) + after@);
            }
            return Some((before.to_owned(), after.to_owned()));
        }
        i -= 1;
    }
    proof {
        lemma_rsplit_none(s@, c);
    }
    None
}

// ---------- decimal numbers ----------

/// The character of a decimal digit.
pub open spec fn digit_char(d: int) -> char
    recommends
        0 <= d < 10,
{
    (48 + d) as char
}

pub open spec fn is_digit(c: char) -> bool {
    '0' <= c <= '9'
}

pub open spec fn digit_value(c: char) -> int {
    c as int - 48
}

/// `n` written in base ten, without leading zeros.
pub open spec fn decimal_nat(n: nat) -> Seq<char>
    decreases n,
{
    if n < 10 {
        seq![digit_char(n as int)]
    } else {
        decimal_nat(n / 10).push(digit_char((n % 10) as int))
    }
}

/// `n` written in base ten, with a minus sign where it is negative.
pub open spec fn decimal(n: int) -> Seq<char> {
    if n < 0 {
        seq!['-'] + decimal_nat((-n) as nat)
    } else {
        decimal_nat(n as nat)
    }
}

pub open spec fn all_digits(s: Seq<char>) -> bool {
    forall|i: int| 0 <= i < s.len() ==> is_digit(#[trigger] s[i])
}

/// The number that a row of digits stands for.
pub open spec fn digits_value(s: Seq<char>) -> int
    decreases s.len(),
{
    if s.len() == 0 {
        0
    } else {
        10 * digits_value(s.drop_last()) + digit_value(s.last())
    }
}

/// The number written in `s`: at least one digit, after an optional plus sign.
pub open spec fn natural_text(s: Seq<char>) -> Option<int> {
    let digits = if s.len() > 0 && s[0] == '+' { s.skip(1) } else { s };
    if digits.len() > 0 && all_digits(digits) {
        Some(digits_value(digits))
    } else {
        None
    }
}

/// The number written in `s`: at least one digit, after an optional sign.
pub open spec fn integer_text(s: Seq<char>) -> Option<int> {
    if s.len() > 0 && s[0] == '-' {
        let digits = s.skip(1);
        if digits.len() > 0 && all_digits(digits) {
            Some(-digits_value(digits))
        } else {
            None
        }
    } else {
        natural_text(s)
    }
}

/// `s` read as an `i32`: the number it writes, where that number fits.
pub open spec fn i32_text(s: Seq<char>) -> Option<i32> {
    match integer_text(s) {
        Some(n) => if i32::MIN <= n <= i32::MAX {
            Some(n as i32)
        } else {
            None
        },
        None => None,
    }
}

/// `s` read as a `u16`: the number it writes, where that number fits.
pub open spec fn u16_text(s: Seq<char>) -> Option<u16> {
    match natural_text(s) {
        Some(n) => if n <= u16::MAX {
            Some(n as u16)
        } else {
            None
        },
        None => None,
    }
}

proof fn lemma_digits_value_grows(s: Seq<char>, k: int)
    requires
        0 <= k <= s.len(),
        all_digits(s),
    ensures
        0 <= digits_value(s.take(k)) <= digits_value(s),
    decreases s.len(),
{
    if k == s.len() {
        assert(s.take(k) =~= s);
        if s.len() > 0 {
            lemma_digits_value_grows(s.drop_last(), s.len() - 1);
            assert(s.drop_last().take(s.len() - 1) =~= s.drop_last());
            assert(is_digit(s.last()));
        }
    } else {
        lemma_digits_value_grows(s.drop_last(), k);
        assert(s.drop_last().take(k) =~= s.take(k));
        assert(is_digit(s.last()));
    }
}

/// The value of the digits of `h` from `from` on, if there is at least one, all are digits and
/// the value is at most `limit`.
fn parse_digits(h: &Vec<char>, from: usize, limit: u64) -> (r: Option<u64>)
    requires
        from <= h@.len(),
        limit <= u32::MAX,
    ensures
        ({
            let digits = h@.skip(from as int);
            let ok = digits.len() > 0 && all_digits(digits) && digits_value(digits) <= limit;
            &&& r is Some <==> ok
            &&& r matches Some(v) ==> v == digits_value(digits)
        }),
{
    let ghost digits = h@.skip(from as int);
    if from == h.len() {
        return None;
    }
    let mut i: usize = from;
    let mut v: u64 = 0;
    while i < h.len()
        invariant
            from <= i <= h@.len(),
            digits == h@.skip(from as int),
            limit <= u32::MAX,
            v <= limit,
            all_digits(digits.take(i - from)),
            v == digits_value(digits.take(i - from)),
        decreases h@.len() - i,
    {
        let c = h[i];
        assert(digits[i - from] == c);
        if !('0' <= c && c <= '9') {
            return None;
        }
        let next: u64 = 10 * v + (c as u32 - 48) as u64;
        assert(digits.take(i - from + 1).drop_last() =~= digits.take(i - from));
        assert(digits_value(digits.take(i - from + 1)) == next);
        if next > limit {
            proof {
                if all_digits(digits) {
                    lemma_digits_value_grows(digits, i - from + 1);
                }
            }
            return None;
        }
        assert forall|j: int| 0 <= j < i - from + 1 implies is_digit(
            #[trigger] digits.take(i - from + 1)[j],
        ) by {
            if j < i - from {
                assert(digits.take(i - from)[j] == digits[j]);
            }
        }
        v = next;
        i += 1;
    }
    assert(digits.take(h@.len() - from) =~= digits);
    Some(v)
}

/// Reads a whole text as an `i32`: an optional sign and one or more digits.
pub fn parse_i32(s: &str) -> (r: Option<i32>)
    ensures
        r == i32_text(s@),
{
    let h = chars_of(s);
    if h.len() > 0 && h[0] == '-' {
        match parse_digits(&h, 1, 2147483648) {
            Some(v) => Some((-(v as i64)) as i32),
            None => {
                proof {
                    if all_digits(h@.skip(1)) {
                        lemma_digits_value_grows(h@.skip(1), 0);
                    }
                }
                None
            },
        }
    } else {
        let from: usize = if h.len() > 0 && h[0] == '+' { 1 } else { 0 };
        assert(h@.skip(0) =~= h@);
        proof {
            if all_digits(h@.skip(from as int)) {
                lemma_digits_value_grows(h@.skip(from as int), 0);
            }
        }
        match parse_digits(&h, from, 2147483647) {
            Some(v) => Some(v as i32),
            None => None,
        }
    }
}

/// Reads a whole text as a `u16`: an optional plus sign and one or more digits.
pub fn parse_u16(s: &str) -> (r: Option<u16>)
    ensures
        r == u16_text(s@),
{
    let h = chars_of(s);
    let from: usize = if h.len() > 0 && h[0] == '+' { 1 } else { 0 };
    assert(h@.skip(0) =~= h@);
    match parse_digits(&h, from, 65535) {
        Some(v) => Some(v as u16),
        None => None,
    }
}

/// The one-character text of a digit.
fn digit_text(d: u64) -> (r: &'static str)
    requires
        d < 10,
    ensures
        r@ == seq![digit_char(d as int)],
{
    proof {
        reveal_strlit("0");
        reveal_strlit("1");
        reveal_strlit("2");
        reveal_strlit("3");
        reveal_strlit("4");
        reveal_strlit("5");
        reveal_strlit("6");
        reveal_strlit("7");
        reveal_strlit("8");
        reveal_strlit("9");
    }
    match d {
        0 => "0",
        1 => "1",
        2 => "2",
        3 => "3",
        4 => "4",
        5 => "5",
        6 => "6",
        7 => "7",
        8 => "8",
        _ => "9",
    }
}

/// `n` in base ten.
pub fn format_u64(n: u64) -> (r: String)
    ensures
        r@ == decimal(n as int),
    decreases n,
{
    if n < 10 {
        digit_text(n).to_owned()
    } else {
        let mut r = format_u64(n / 10);
        r.append(digit_text(n % 10));
        assert(r@ =~= decimal_nat(n as nat));
        r
    }
}

/// `n` in base ten.
pub fn format_i32(n: i32) -> (r: String)
    ensures
        r@ == decimal(n as int),
{
    if n < 0 {
        let mut r = "-".to_owned();
        r.append(format_u64((-(n as i64)) as u64).as_str());
        proof {
            reveal_strlit("-");
        }
        assert(r@ =~= decimal(n as int));
        r
    } else {
        format_u64(n as u64)
    }
}

proof fn lemma_decimal_nat(n: nat)
    ensures
        decimal_nat(n).len() > 0,
        all_digits(decimal_nat(n)),
        digits_value(decimal_nat(n)) == n,
    decreases n,
{
    reveal_with_fuel(digits_value, 2);
    if n >= 10 {
        lemma_decimal_nat(n / 10);
        assert(decimal_nat(n).drop_last() =~= decimal_nat(n / 10));
    } else {
        assert(decimal_nat(n).drop_last() =~= Seq::<char>::empty());
    }
}

/// Reading back a number that was written in base ten gives the number.
pub proof fn law_decimal_round_trip(n: int)
    ensures
        integer_text(decimal(n)) == Some(n),
{
    if n < 0 {
        lemma_decimal_nat((-n) as nat);
        assert(decimal(n).skip(1) =~= decimal_nat((-n) as nat));
    } else {
        lemma_decimal_nat(n as nat);
        assert(is_digit(decimal(n)[0]));
    }
}

/// A text occurs in another exactly where the other is something, the text, and something.
pub proof fn law_contains_text(hay: Seq<char>, needle: Seq<char>)
    ensures
        contains_text(hay, needle) <==> exists|before: Seq<char>, after: Seq<char>|
            hay == #[trigger] (before + needle + after),
{
    if contains_text(hay, needle) {
        let at = choose|at: int| occurs_at(hay, needle, at);
        assert(hay =~= hay.take(at) + needle + hay.skip(at + needle.len()));
    }
    if exists|before: Seq<char>, after: Seq<char>| hay == #[trigger] (before + needle + after) {
        let (before, after) = choose|before: Seq<char>, after: Seq<char>|
            hay == #[trigger] (before + needle + after);
        let at = before.len() as int;
        assert(hay.subrange(at, at + needle.len()) =~= needle);
        assert(occurs_at(hay, needle, at));
    }
}

/// A text begins with each of its beginnings, and is that beginning followed by the rest.
pub proof fn law_starts_with(s: Seq<char>, prefix: Seq<char>, rest: Seq<char>)
    ensures
        starts_with(prefix + rest, prefix),
        starts_with(s, prefix) ==> s == prefix + s.skip(prefix.len() as int),
{
    assert((prefix + rest).take(prefix.len() as int) =~= prefix);
    if starts_with(s, prefix) {
        assert(s =~= s.take(prefix.len() as int) + s.skip(prefix.len() as int));
    }
}

/// A text without the character is not cut.
pub proof fn law_rsplit_without(s: Seq<char>, c: char)
    requires
        !s.contains(c),
    ensures
        rsplit(s, c) is None,
{
    assert forall|i: int| 0 <= i < s.len() implies s[i] != c by {
        assert(s.contains(s[i]));
    }
    lemma_rsplit_none(s, c);
}

/// A number in base ten: digits only, no zero in front but for zero itself, and a minus sign before
/// the digits of a negative number. Its digits give the number.
pub proof fn law_decimal(n: nat)
    ensures
        decimal(n as int).len() > 0,
        forall|i: int|
            0 <= i < decimal(n as int).len() ==> 48 <= #[trigger] decimal(n as int)[i] as int <= 57,
        n > 0 ==> decimal(n as int)[0] as int != 48,
        n == 0 ==> decimal(n as int).len() == 1,
        digits_value(decimal(n as int)) == n,
        n > 0 ==> decimal(-(n as int)) == seq!['-'] + decimal(n as int),
    decreases n,
{
    lemma_decimal_nat(n);
    assert forall|i: int| 0 <= i < decimal(n as int).len() implies 48 <= #[trigger] decimal(
        n as int,
    )[i] as int <= 57 by {
        assert(is_digit(decimal_nat(n)[i]));
    }
    if n >= 10 {
        law_decimal(n / 10);
        assert(decimal_nat(n)[0] == decimal_nat(n / 10)[0]);
    }
}

/// Each further digit counts ten times what stands before it.
pub proof fn law_digits_value(s: Seq<char>, c: char)
    ensures
        digits_value(Seq::empty()) == 0,
        digits_value(s.push(c)) == 10 * digits_value(s) + (c as int - 48),
{
    assert(s.push(c).drop_last() =~= s);
}

/// Digits in any number write a number, with or without a sign before them; only an integer may
/// have a minus sign.
pub proof fn law_digits_are_read(s: Seq<char>)
    requires
        s.len() > 0,
        forall|i: int| 0 <= i < s.len() ==> 48 <= #[trigger] s[i] as int <= 57,
    ensures
        integer_text(s) == Some(digits_value(s)),
        integer_text(seq!['+'] + s) == Some(digits_value(s)),
        integer_text(seq!['-'] + s) == Some(-digits_value(s)),
        natural_text(s) == Some(digits_value(s)),
        natural_text(seq!['+'] + s) == Some(digits_value(s)),
        natural_text(seq!['-'] + s) is None,
{
    assert((seq!['+'] + s).skip(1) =~= s);
    assert((seq!['-'] + s).skip(1) =~= s);
    assert(48 <= s[0] as int <= 57);
    assert(all_digits(s));
    assert(!is_digit((seq!['-'] + s)[0]));
}

/// What stands behind a sign, or the whole text where there is none.
pub open spec fn after_sign(s: Seq<char>) -> Seq<char> {
    if s.len() > 0 && (s[0] == '+' || s[0] == '-') {
        s.skip(1)
    } else {
        s
    }
}

/// Nothing else writes a number: after a sign, if there is one, there are only digits, and at least
/// one; and a natural number has no minus sign.
pub proof fn law_only_digits_are_read(s: Seq<char>, i: int)
    requires
        integer_text(s) is Some || natural_text(s) is Some,
    ensures
        after_sign(s).len() > 0,
        0 <= i < after_sign(s).len() ==> 48 <= after_sign(s)[i] as int <= 57,
        natural_text(s) is Some ==> s[0] != '-',
{
    if natural_text(s) is Some && s[0] == '-' {
        assert(is_digit(s[0]));
    }
    if 0 <= i < after_sign(s).len() {
        assert(is_digit(after_sign(s)[i]));
    }
}

/// A text is read as a machine number exactly where the number that it writes fits.
pub proof fn law_fitting_numbers_are_read(s: Seq<char>)
    ensures
        i32_text(s) is Some <==> integer_text(s) is Some && -2147483648 <= integer_text(s)->0
            <= 2147483647,
        i32_text(s) is Some ==> i32_text(s)->0 == integer_text(s)->0,
        u16_text(s) is Some <==> natural_text(s) is Some && natural_text(s)->0 <= 65535,
        u16_text(s) is Some ==> u16_text(s)->0 == natural_text(s)->0,
{
    let digits = if s.len() > 0 && s[0] == '+' {
        s.skip(1)
    } else {
        s
    };
    if all_digits(digits) {
        lemma_digits_value_grows(digits, 0);
    }
}

} // verus!
