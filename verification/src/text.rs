//! Text helpers: Unicode trimming, decimal numbers and lexicographic order.

use vstd::prelude::*;

verus! {

/// The code points with the Unicode `White_Space` property.
pub open spec fn is_white_space(c: char) -> bool {
    ||| '\u{9}' <= c <= '\u{d}'
    ||| c == '\u{20}'
    ||| c == '\u{85}'
    ||| c == '\u{a0}'
    ||| c == '\u{1680}'
    ||| '\u{2000}' <= c <= '\u{200a}'
    ||| c == '\u{2028}'
    ||| c == '\u{2029}'
    ||| c == '\u{202f}'
    ||| c == '\u{205f}'
    ||| c == '\u{3000}'
}

/// `s` without its leading white space.
pub open spec fn trimmed_start(s: Seq<char>) -> Seq<char>
    decreases s.len(),
{
    if s.len() > 0 && is_white_space(s[0]) {
        trimmed_start(s.subrange(1, s.len() as int))
    } else {
        s
    }
}

/// `s` without its trailing white space.
pub open spec fn trimmed_end(s: Seq<char>) -> Seq<char>
    decreases s.len(),
{
    if s.len() > 0 && is_white_space(s[s.len() - 1]) {
        trimmed_end(s.subrange(0, s.len() - 1))
    } else {
        s
    }
}

/// `s` without leading and trailing white space.
pub open spec fn trimmed(s: Seq<char>) -> Seq<char> {
    trimmed_end(trimmed_start(s))
}

/// A text that holds nothing but white space.
pub open spec fn is_blank(s: Seq<char>) -> bool {
    trimmed(s).len() == 0
}

/// Tests the Unicode `White_Space` property of one code point.
pub fn white_space(c: char) -> (r: bool)
    ensures
        r == is_white_space(c),
{
    ('\u{9}' <= c && c <= '\u{d}') || c == '\u{20}' || c == '\u{85}' || c == '\u{a0}' || c
        == '\u{1680}' || ('\u{2000}' <= c && c <= '\u{200a}') || c == '\u{2028}' || c == '\u{2029}'
        || c == '\u{202f}' || c == '\u{205f}' || c == '\u{3000}'
}

/// Removes leading and trailing white space.
pub fn trim<'a>(s: &'a str) -> (r: &'a str)
    ensures
        r@ == trimmed(s@),
{
    let len: usize = s.unicode_len();
    let mut start: usize = 0;
    proof {
        assert(s@.subrange(0, s@.len() as int) =~= s@);
    }
    while start < len && white_space(s.get_char(start))
        invariant
            start <= len,
            len == s@.len(),
            trimmed_start(s@) == trimmed_start(s@.subrange(start as int, len as int)),
        decreases len - start,
    {
        proof {
            let rest = s@.subrange(start as int, len as int);
            assert(rest.subrange(1, rest.len() as int) =~= s@.subrange(start + 1, len as int));
        }
        start = start + 1;
    }
    let ghost middle = s@.subrange(start as int, len as int);
    assert(trimmed_start(s@) == middle);
    let mut end: usize = len;
    while start < end && white_space(s.get_char(end - 1))
        invariant
            start <= end <= len,
            len == s@.len(),
            trimmed_end(middle) == trimmed_end(s@.subrange(start as int, end as int)),
        decreases end,
    {
        proof {
            let rest = s@.subrange(start as int, end as int);
            assert(rest.subrange(0, rest.len() - 1) =~= s@.subrange(start as int, end - 1));
        }
        end = end - 1;
    }
    s.substring_char(start, end)
}

/// Trimming what has been trimmed changes nothing.
pub proof fn lemma_trim_idempotent(s: Seq<char>)
    ensures
        trimmed(trimmed(s)) == trimmed(s),
        trimmed(s).len() > 0 ==> !is_white_space(trimmed(s)[0]) && !is_white_space(
            trimmed(s)[trimmed(s).len() - 1],
        ),
{
    let front = trimmed_start(s);
    lemma_trimmed_start(s);
    lemma_trimmed_end(front);
}

proof fn lemma_trimmed_start(s: Seq<char>)
    ensures
        trimmed_start(s).len() > 0 ==> !is_white_space(trimmed_start(s)[0]),
    decreases s.len(),
{
    if s.len() > 0 && is_white_space(s[0]) {
        lemma_trimmed_start(s.subrange(1, s.len() as int));
    }
}

proof fn lemma_trimmed_end(s: Seq<char>)
    ensures
        trimmed_end(s).len() > 0 ==> !is_white_space(trimmed_end(s)[trimmed_end(s).len() - 1])
            && trimmed_end(s)[0] == s[0],
    decreases s.len(),
{
    if s.len() > 0 && is_white_space(s[s.len() - 1]) {
        lemma_trimmed_end(s.subrange(0, s.len() - 1));
    }
}

/// A text whose first and last code points are no white space is its own
/// trimmed form.
pub proof fn lemma_trim_fixed(s: Seq<char>)
    requires
        s.len() > 0,
        !is_white_space(s[0]),
        !is_white_space(s[s.len() - 1]),
    ensures
        trimmed(s) == s,
{
}

/// The decimal digit with value `d`.
pub open spec fn digit(d: nat) -> char {
    (('0' as nat) + d) as char
}

pub open spec fn is_digit(c: char) -> bool {
    '0' <= c <= '9'
}

pub open spec fn digit_value(c: char) -> nat {
    (c as nat - '0' as nat) as nat
}

/// The decimal numeral of `n`, without leading zeros.
pub open spec fn decimal(n: nat) -> Seq<char>
    decreases n,
{
    if n < 10 {
        seq![digit(n)]
    } else {
        decimal(n / 10).push(digit(n % 10))
    }
}

/// The number that a run of decimal digits denotes.
pub open spec fn numeral_value(s: Seq<char>) -> nat
    decreases s.len(),
{
    if s.len() == 0 {
        0
    } else {
        10 * numeral_value(s.drop_last()) + digit_value(s.last())
    }
}

pub open spec fn all_digits(s: Seq<char>) -> bool {
    forall|i: int| 0 <= i < s.len() ==> is_digit(#[trigger] s[i])
}

/// A decimal numeral as `decimal` writes it: digits only, at least one, and
/// no leading zero in front of further digits.
pub open spec fn is_numeral(s: Seq<char>) -> bool {
    &&& s.len() > 0
    &&& all_digits(s)
    &&& s.len() > 1 ==> s[0] != '0'
}

/// Writing a number down and reading it back gives the number; what is
/// written is a numeral.
pub proof fn lemma_decimal_round_trip(n: nat)
    ensures
        is_numeral(decimal(n)),
        numeral_value(decimal(n)) == n,
        n > 0 ==> decimal(n)[0] != '0',
    decreases n,
{
    if n < 10 {
        let s = decimal(n);
        assert(s.drop_last() =~= Seq::<char>::empty());
        assert(numeral_value(s.drop_last()) == 0);
        assert(digit_value(digit(n)) == n);
    } else {
        lemma_decimal_round_trip(n / 10);
        let s = decimal(n);
        assert(s.drop_last() =~= decimal(n / 10));
        assert(digit_value(digit(n % 10)) == n % 10);
    }
}

/// Reading a numeral and writing its value down gives the numeral back.
pub proof fn lemma_numeral_round_trip(s: Seq<char>)
    requires
        is_numeral(s),
    ensures
        decimal(numeral_value(s)) == s,
        s[0] != '0' ==> numeral_value(s) > 0,
    decreases s.len(),
{
    if s.len() == 1 {
        assert(s.drop_last() =~= Seq::<char>::empty());
        assert(numeral_value(s.drop_last()) == 0);
        assert(is_digit(s[0]));
        assert(digit(digit_value(s[0])) == s[0]);
        assert(s =~= seq![s[0]]);
        assert(numeral_value(s) == digit_value(s[0]));
    } else {
        let front = s.drop_last();
        assert(is_numeral(front)) by {
            assert forall|i: int| 0 <= i < front.len() implies is_digit(#[trigger] front[i]) by {
                assert(front[i] == s[i]);
            }
        }
        lemma_numeral_round_trip(front);
        assert(is_digit(s[s.len() - 1]));
        let d = digit_value(s.last());
        assert(d < 10);
        assert(digit(d) == s.last());
        let n = numeral_value(s);
        assert(n == 10 * numeral_value(front) + d);
        assert(n / 10 == numeral_value(front));
        assert(n % 10 == d);
        assert(n >= 10);
        assert(decimal(n) =~= front.push(s.last()));
        assert(s =~= front.push(s.last()));
    }
}

/// Two numbers with the same numeral are the same.
pub proof fn lemma_decimal_injective(a: nat, b: nat)
    requires
        decimal(a) == decimal(b),
    ensures
        a == b,
{
    lemma_decimal_round_trip(a);
    lemma_decimal_round_trip(b);
}

fn digit_text(d: u64) -> (r: &'static str)
    requires
        d < 10,
    ensures
        r@ == seq![digit(d as nat)],
{
    proof {
        reveal_strlit("0");
        reveal_strlit("1");
        reveal_strlit("2");
        reveal_strlit("3");
        reveal_strlit("4");
        reveal_strlit("5");
        reveal_strlit("6");
        reveal_strlit("7");
        reveal_strlit("8");
        reveal_strlit("9");
    }
    let r = if d == 0 {
        "0"
    } else if d == 1 {
        "1"
    } else if d == 2 {
        "2"
    } else if d == 3 {
        "3"
    } else if d == 4 {
        "4"
    } else if d == 5 {
        "5"
    } else if d == 6 {
        "6"
    } else if d == 7 {
        "7"
    } else if d == 8 {
        "8"
    } else {
        "9"
    };
    assert(r@ =~= seq![digit(d as nat)]);
    r
}

/// Writes a number as a decimal numeral without leading zeros.
pub fn decimal_text(n: u64) -> (r: String)
    ensures
        r@ == decimal(n as nat),
    decreases n,
{
    if n < 10 {
        digit_text(n).to_owned()
    } else {
        let mut front = decimal_text(n / 10);
        front.append(digit_text(n % 10));
        assert(front@ =~= decimal(n as nat));
        front
    }
}

/// Reads a decimal numeral without leading zeros; `None` when the text is not
/// one or its value does not fit in 64 bits.
pub fn parse_numeral(s: &str) -> (r: Option<u64>)
    ensures
        r == (if is_numeral(s@) && numeral_value(s@) <= u64::MAX {
            Some(numeral_value(s@) as u64)
        } else {
            None
        }),
{
    let len: usize = s.unicode_len();
    if len == 0 {
        return None;
    }
    if len > 1 && s.get_char(0) == '0' {
        return None;
    }
    let mut value: u64 = 0;
    let mut fits: bool = true;
    let mut i: usize = 0;
    proof {
        assert(s@.subrange(0, 0) =~= Seq::<char>::empty());
        assert(s@.subrange(0, s@.len() as int) =~= s@);
    }
    while i < len
        invariant
            i <= len,
            len == s@.len(),
            forall|j: int| 0 <= j < i ==> is_digit(#[trigger] s@[j]),
            fits ==> value == numeral_value(s@.subrange(0, i as int)),
            !fits ==> numeral_value(s@.subrange(0, i as int)) > u64::MAX,
        decreases len - i,
    {
        let c = s.get_char(i);
        if !('0' <= c && c <= '9') {
            assert(!is_digit(s@[i as int]));
            return None;
        }
        let d: u64 = c as u64 - '0' as u64;
        proof {
            assert(s@.subrange(0, i + 1).drop_last() =~= s@.subrange(0, i as int));
            assert(s@.subrange(0, i + 1).last() == c);
            assert(d == digit_value(c));
        }
        if fits && value <= (u64::MAX - d) / 10 {
            value = value * 10 + d;
        } else {
            fits = false;
        }
        i = i + 1;
    }
    assert(all_digits(s@));
    if fits {
        Some(value)
    } else {
        None
    }
}

/// Lexicographic order on code points, which is the order of the UTF-8
/// encodings too.
pub open spec fn lex_less(a: Seq<char>, b: Seq<char>) -> bool
    decreases a.len(),
{
    if b.len() == 0 {
        false
    } else if a.len() == 0 {
        true
    } else if a[0] != b[0] {
        a[0] < b[0]
    } else {
        lex_less(a.subrange(1, a.len() as int), b.subrange(1, b.len() as int))
    }
}

pub proof fn lemma_lex_irreflexive(a: Seq<char>)
    ensures
        !lex_less(a, a),
    decreases a.len(),
{
    if a.len() > 0 {
        lemma_lex_irreflexive(a.subrange(1, a.len() as int));
    }
}

pub proof fn lemma_lex_total(a: Seq<char>, b: Seq<char>)
    ensures
        a == b || lex_less(a, b) || lex_less(b, a),
    decreases a.len(),
{
    if a.len() > 0 && b.len() > 0 && a[0] == b[0] {
        let ra = a.subrange(1, a.len() as int);
        let rb = b.subrange(1, b.len() as int);
        lemma_lex_total(ra, rb);
        if ra == rb {
            assert(a =~= seq![a[0]] + ra);
            assert(b =~= seq![b[0]] + rb);
        }
    } else if a.len() == 0 && b.len() == 0 {
        assert(a =~= b);
    }
}

pub proof fn lemma_lex_transitive(a: Seq<char>, b: Seq<char>, c: Seq<char>)
    requires
        lex_less(a, b),
        lex_less(b, c),
    ensures
        lex_less(a, c),
    decreases a.len(),
{
    if a.len() > 0 && a[0] == b[0] && b[0] == c[0] {
        lemma_lex_transitive(
            a.subrange(1, a.len() as int),
            b.subrange(1, b.len() as int),
            c.subrange(1, c.len() as int),
        );
    }
}

/// Tells whether `a` comes before `b` in lexicographic order.
pub fn lex_before(a: &str, b: &str) -> (r: bool)
    ensures
        r == lex_less(a@, b@),
{
    let la: usize = a.unicode_len();
    let lb: usize = b.unicode_len();
    let mut i: usize = 0;
    proof {
        assert(a@.subrange(0, a@.len() as int) =~= a@);
        assert(b@.subrange(0, b@.len() as int) =~= b@);
    }
    while i < la && i < lb && a.get_char(i) == b.get_char(i)
        invariant
            i <= la,
            i <= lb,
            la == a@.len(),
            lb == b@.len(),
            lex_less(a@, b@) == lex_less(
                a@.subrange(i as int, la as int),
                b@.subrange(i as int, lb as int),
            ),
        decreases la - i,
    {
        proof {
            let ra = a@.subrange(i as int, la as int);
            let rb = b@.subrange(i as int, lb as int);
            assert(ra.subrange(1, ra.len() as int) =~= a@.subrange(i + 1, la as int));
            assert(rb.subrange(1, rb.len() as int) =~= b@.subrange(i + 1, lb as int));
        }
        i = i + 1;
    }
    if i == lb {
        false
    } else if i == la {
        true
    } else {
        a.get_char(i) < b.get_char(i)
    }
}

/// Tells whether two texts hold the same code points.
pub fn same_text(a: &str, b: &str) -> (r: bool)
    ensures
        r == (a@ == b@),
{
    a.to_owned() == b.to_owned()
}

/// `Some(name)` without its surrounding white space, `None` when nothing is
/// left.
pub open spec fn nonblank(name: Option<Seq<char>>) -> Option<Seq<char>> {
    match name {
        Some(text) if !is_blank(text) => Some(trimmed(text)),
        _ => None,
    }
}

pub open spec fn text_of(s: Option<String>) -> Option<Seq<char>> {
    match s {
        Some(text) => Some(text@),
        None => None,
    }
}

/// Trims an optional text and drops it when it is blank.
pub fn normalize_optional(name: Option<&str>) -> (r: Option<String>)
    ensures
        text_of(r) == nonblank(
            match name {
                Some(text) => Some(text@),
                None => None,
            },
        ),
{
    match name {
        None => None,
        Some(text) => {
            let inner = trim(text);
            if inner.is_empty() {
                None
            } else {
                Some(inner.to_owned())
            }
        },
    }
}

/// The hexadecimal digit with value `d`, in lower case.
pub open spec fn hex_digit(d: nat) -> char {
    if d < 10 {
        digit(d)
    } else {
        (('a' as nat) + d - 10) as char
    }
}

/// Bytes as lower-case hexadecimal digits, two per byte.
pub open spec fn hex(bytes: Seq<u8>) -> Seq<char>
    decreases bytes.len(),
{
    if bytes.len() == 0 {
        Seq::empty()
    } else {
        hex(bytes.drop_last()).push(hex_digit((bytes.last() / 16) as nat)).push(
            hex_digit((bytes.last() % 16) as nat),
        )
    }
}

fn hex_digit_text(d: u8) -> (r: &'static str)
    requires
        d < 16,
    ensures
        r@ == seq![hex_digit(d as nat)],
{
    if d < 10 {
        return digit_text(d as u64);
    }
    proof {
        reveal_strlit("a");
        reveal_strlit("b");
        reveal_strlit("c");
        reveal_strlit("d");
        reveal_strlit("e");
        reveal_strlit("f");
    }
    let r = if d == 10 {
        "a"
    } else if d == 11 {
        "b"
    } else if d == 12 {
        "c"
    } else if d == 13 {
        "d"
    } else if d == 14 {
        "e"
    } else {
        "f"
    };
    assert(r@ =~= seq![hex_digit(d as nat)]);
    r
}

/// Writes bytes as lower-case hexadecimal digits.
pub fn hex_text(bytes: &[u8]) -> (r: String)
    ensures
        r@ == hex(bytes@),
{
    let mut text = String::new();
    let mut i: usize = 0;
    assert(bytes@.subrange(0, 0) =~= Seq::<u8>::empty());
    while i < bytes.len()
        invariant
            i <= bytes@.len(),
            text@ == hex(bytes@.subrange(0, i as int)),
        decreases bytes@.len() - i,
    {
        proof {
            let next = bytes@.subrange(0, i + 1);
            assert(next.drop_last() =~= bytes@.subrange(0, i as int));
            assert(next.last() == bytes@[i as int]);
        }
        let byte: u8 = bytes[i];
        let ghost before = text@;
        text.append(hex_digit_text(byte / 16));
        text.append(hex_digit_text(byte % 16));
        assert(text@ =~= before.push(hex_digit((byte / 16) as nat)).push(
            hex_digit((byte % 16) as nat),
        ));
        i = i + 1;
    }
    assert(bytes@.subrange(0, bytes@.len() as int) =~= bytes@);
    text
}

/// Trimming takes away white space at the two ends and nothing else: what is
/// left is a part of the text that neither begins nor ends with white space.
pub proof fn law_trim_takes_outer_white_space(s: Seq<char>)
    ensures
        exists|from: int, to: int|
            #![trigger s.subrange(from, to)]
            {
                &&& 0 <= from <= to <= s.len()
                &&& trimmed(s) == s.subrange(from, to)
                &&& forall|i: int| 0 <= i < from ==> is_white_space(#[trigger] s[i])
                &&& forall|i: int| to <= i < s.len() ==> is_white_space(#[trigger] s[i])
                &&& from < to ==> !is_white_space(s[from]) && !is_white_space(s[to - 1])
            },
        is_blank(s) <==> forall|i: int| 0 <= i < s.len() ==> is_white_space(#[trigger] s[i]),
{
    let front = trimmed_start(s);
    lemma_start_part(s);
    let from = choose|from: int|
        #![trigger s.subrange(from, s.len() as int)]
        {
            &&& 0 <= from <= s.len()
            &&& front == s.subrange(from, s.len() as int)
            &&& forall|i: int| 0 <= i < from ==> is_white_space(#[trigger] s[i])
            &&& from < s.len() ==> !is_white_space(s[from])
        };
    lemma_end_part(front);
    let end = choose|end: int|
        #![trigger front.subrange(0, end)]
        {
            &&& 0 <= end <= front.len()
            &&& trimmed_end(front) == front.subrange(0, end)
            &&& forall|i: int| end <= i < front.len() ==> is_white_space(#[trigger] front[i])
            &&& end > 0 ==> !is_white_space(front[end - 1])
        };
    let to = from + end;
    assert(s.subrange(from, to) =~= front.subrange(0, end));
    assert forall|i: int| to <= i < s.len() implies is_white_space(#[trigger] s[i]) by {
        assert(front[i - from] == s[i]);
    }
    if from < to {
        assert(front[end - 1] == s[to - 1]);
    }
    if is_blank(s) {
        assert forall|i: int| 0 <= i < s.len() implies is_white_space(#[trigger] s[i]) by {}
    }
    if forall|i: int| 0 <= i < s.len() ==> is_white_space(#[trigger] s[i]) {
        if from < to {
            assert(is_white_space(s[from]));
        }
    }
}

proof fn lemma_start_part(s: Seq<char>)
    ensures
        exists|from: int|
            #![trigger s.subrange(from, s.len() as int)]
            {
                &&& 0 <= from <= s.len()
                &&& trimmed_start(s) == s.subrange(from, s.len() as int)
                &&& forall|i: int| 0 <= i < from ==> is_white_space(#[trigger] s[i])
                &&& from < s.len() ==> !is_white_space(s[from])
            },
    decreases s.len(),
{
    if s.len() > 0 && is_white_space(s[0]) {
        let rest = s.subrange(1, s.len() as int);
        lemma_start_part(rest);
        let from = choose|from: int|
            #![trigger rest.subrange(from, rest.len() as int)]
            {
                &&& 0 <= from <= rest.len()
                &&& trimmed_start(rest) == rest.subrange(from, rest.len() as int)
                &&& forall|i: int| 0 <= i < from ==> is_white_space(#[trigger] rest[i])
                &&& from < rest.len() ==> !is_white_space(rest[from])
            };
        assert(s.subrange(from + 1, s.len() as int) =~= rest.subrange(from, rest.len() as int));
        assert forall|i: int| 0 <= i < from + 1 implies is_white_space(#[trigger] s[i]) by {
            if i > 0 {
                assert(rest[i - 1] == s[i]);
            }
        }
        if from + 1 < s.len() {
            assert(rest[from] == s[from + 1]);
        }
    } else {
        assert(s.subrange(0, s.len() as int) =~= s);
    }
}

proof fn lemma_end_part(s: Seq<char>)
    ensures
        exists|end: int|
            #![trigger s.subrange(0, end)]
            {
                &&& 0 <= end <= s.len()
                &&& trimmed_end(s) == s.subrange(0, end)
                &&& forall|i: int| end <= i < s.len() ==> is_white_space(#[trigger] s[i])
                &&& end > 0 ==> !is_white_space(s[end - 1])
            },
    decreases s.len(),
{
    if s.len() > 0 && is_white_space(s[s.len() - 1]) {
        let rest = s.subrange(0, s.len() - 1);
        lemma_end_part(rest);
        let end = choose|end: int|
            #![trigger rest.subrange(0, end)]
            {
                &&& 0 <= end <= rest.len()
                &&& trimmed_end(rest) == rest.subrange(0, end)
                &&& forall|i: int| end <= i < rest.len() ==> is_white_space(#[trigger] rest[i])
                &&& end > 0 ==> !is_white_space(rest[end - 1])
            };
        assert(s.subrange(0, end) =~= rest.subrange(0, end));
        assert forall|i: int| end <= i < s.len() implies is_white_space(#[trigger] s[i]) by {
            if i < s.len() - 1 {
                assert(rest[i] == s[i]);
            }
        }
        if end > 0 {
            assert(rest[end - 1] == s[end - 1]);
        }
    } else {
        assert(s.subrange(0, s.len() as int) =~= s);
    }
}

/// The first code point in which two texts differ decides which comes first,
/// and a text comes before every longer one that it begins.
pub proof fn law_first_difference_decides(
    common: Seq<char>,
    a: char,
    b: char,
    after_a: Seq<char>,
    after_b: Seq<char>,
)
    requires
        a < b,
    ensures
        lex_less(common + seq![a] + after_a, common + seq![b] + after_b),
        !lex_less(common + seq![b] + after_b, common + seq![a] + after_a),
        lex_less(common, common + seq![a] + after_a),
    decreases common.len(),
{
    let x = common + seq![a] + after_a;
    let y = common + seq![b] + after_b;
    if common.len() > 0 {
        let rest = common.subrange(1, common.len() as int);
        law_first_difference_decides(rest, a, b, after_a, after_b);
        assert(x.subrange(1, x.len() as int) =~= rest + seq![a] + after_a);
        assert(y.subrange(1, y.len() as int) =~= rest + seq![b] + after_b);
    }
}

/// A name is kept exactly where it is not blank, in its trimmed form.
pub proof fn law_blank_names_are_none(text: Seq<char>)
    ensures
        nonblank(None) is None,
        nonblank(Some(text)) is None <==> forall|i: int|
            0 <= i < text.len() ==> is_white_space(#[trigger] text[i]),
        nonblank(Some(text)) matches Some(kept) ==> kept == trimmed(text) && kept.len() > 0
            && nonblank(Some(kept)) == Some(kept),
{
    law_trim_takes_outer_white_space(text);
    lemma_trim_idempotent(text);
}

/// Every byte is written as two digits, high part first, in the order of the
/// bytes.
pub proof fn law_hex_shows_every_byte(bytes: Seq<u8>, i: int)
    requires
        0 <= i < bytes.len(),
    ensures
        hex(bytes).len() == 2 * bytes.len(),
        hex(bytes)[2 * i] == hex_digit((bytes[i] / 16) as nat),
        hex(bytes)[2 * i + 1] == hex_digit((bytes[i] % 16) as nat),
    decreases bytes.len(),
{
    let front = bytes.drop_last();
    if bytes.len() == 1 {
        assert(front =~= Seq::<u8>::empty());
        assert(hex(front) =~= Seq::<char>::empty());
    } else {
        law_hex_shows_every_byte(front, if i < front.len() { i } else { 0 });
    }
}

/// White space is the control characters from the tab to the carriage return,
/// the space, and the further spaces and separators of Unicode, and nothing
/// else.
pub proof fn law_white_space_is_that_of_unicode(c: char, r: bool)
    requires
        call_ensures(white_space, (c,), r),
    ensures
        ({
            let code = c as u32;
            let ascii = code == 0x20 || (0x09 <= code && code <= 0x0d);
            let latin = code == 0x85 || code == 0xa0;
            let general = (0x2000 <= code && code <= 0x200a) || code == 0x2028 || code == 0x2029
                || code == 0x202f || code == 0x205f;
            r <==> ascii || latin || general || code == 0x1680 || code == 0x3000
        }),
{
}

/// A number is written as its last digit behind the number without it, and a
/// digit is written as the character that many places behind the zero.
pub proof fn law_numbers_are_written_in_tens(n: nat)
    ensures
        n < 10 ==> decimal(n).len() == 1 && decimal(n)[0] as int == 48 + n,
        n >= 10 ==> decimal(n) == decimal(n / 10) + decimal(n % 10),
{
    if n >= 10 {
        assert(decimal(n % 10) == seq![digit(n % 10)]);
        assert(decimal(n / 10).push(digit(n % 10)) =~= decimal(n / 10) + seq![digit(n % 10)]);
    }
}

/// Exactly the texts that some 64-bit number is written as are read as a
/// number, and each is read as that number.
pub proof fn law_written_numbers_are_read(text: &str, n: u64, r: Option<u64>)
    requires
        call_ensures(parse_numeral, (text,), r),
    ensures
        r == Some(n) <==> text@ == decimal(n as nat),
{
    lemma_decimal_round_trip(n as nat);
    if r == Some(n) {
        lemma_numeral_round_trip(text@);
    }
}

} // verus!
