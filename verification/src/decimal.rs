//! Decimal text of natural numbers: the spelling used by the records and
//! addresses of the ledger, by the order file and by the settings.

use vstd::prelude::*;
use vstd::std_specs::iter::IteratorSpec;
use vstd::string::*;
use vstd::utf8::*;

verus! {

/// The character that spells the digit `d`.
pub open spec fn digit_char(d: nat) -> char {
    if d == 0 {
        '0'
    } else if d == 1 {
        '1'
    } else if d == 2 {
        '2'
    } else if d == 3 {
        '3'
    } else if d == 4 {
        '4'
    } else if d == 5 {
        '5'
    } else if d == 6 {
        '6'
    } else if d == 7 {
        '7'
    } else if d == 8 {
        '8'
    } else {
        '9'
    }
}

/// True for the ten decimal digits.
pub open spec fn is_digit(c: char) -> bool {
    '0' <= c && c <= '9'
}

/// The number a digit character stands for.
pub open spec fn digit_value(c: char) -> nat {
    (c as nat - '0' as nat) as nat
}

/// Canonical decimal spelling of `n`: no sign, no leading zero but for
/// zero itself.
pub open spec fn decimal(n: nat) -> Seq<char>
    decreases n,
{
    if n < 10 {
        seq![digit_char(n)]
    } else {
        decimal(n / 10).push(digit_char(n % 10))
    }
}

/// True when every character of `s` is a digit.
pub open spec fn all_digits(s: Seq<char>) -> bool {
    forall|i: int| 0 <= i < s.len() ==> is_digit(#[trigger] s[i])
}

/// The number spelled by a run of digits, most significant first; zero for
/// the empty run.
pub open spec fn digits_value(s: Seq<char>) -> nat
    decreases s.len(),
{
    if s.len() == 0 {
        0
    } else {
        digits_value(s.drop_last()) * 10 + digit_value(s.last())
    }
}

/// The digits of a numeric field: the field itself, or what follows a
/// leading plus sign.
pub open spec fn field_digits(s: Seq<char>) -> Seq<char> {
    if s.len() > 0 && s[0] == '+' {
        s.subrange(1, s.len() as int)
    } else {
        s
    }
}

/// The number a field spells: one or more digits, optionally after one plus
/// sign. `None` for anything else.
pub open spec fn field_number(s: Seq<char>) -> Option<nat> {
    let d = field_digits(s);
    if d.len() > 0 && all_digits(d) {
        Some(digits_value(d))
    } else {
        None
    }
}

/// The number a field spells if it does not exceed `max`.
pub open spec fn field_bounded(s: Seq<char>, max: nat) -> Option<nat> {
    match field_number(s) {
        Some(v) => if v <= max {
            Some(v)
        } else {
            None
        },
        None => None,
    }
}

/// Digit characters are digits and carry their value.
pub proof fn lemma_digit_char(d: nat)
    requires
        d < 10,
    ensures
        is_digit(digit_char(d)),
        digit_value(digit_char(d)) == d,
        digit_char(d) != '-',
        digit_char(d) != '+',
{
}

/// The canonical spelling is a non-empty run of digits that reads back as
/// the number it spells.
pub proof fn lemma_decimal_reads_back(n: nat)
    ensures
        decimal(n).len() >= 1,
        all_digits(decimal(n)),
        digits_value(decimal(n)) == n,
        field_number(decimal(n)) == Some(n),
    decreases n,
{
    if n < 10 {
        lemma_digit_char(n);
        let s = decimal(n);
        assert(s.drop_last() =~= Seq::<char>::empty());
        assert(digits_value(s.drop_last()) == 0);
    } else {
        lemma_decimal_reads_back(n / 10);
        lemma_digit_char(n % 10);
        let p = decimal(n / 10);
        let s = decimal(n);
        assert(s.drop_last() =~= p);
        assert(s.last() == digit_char(n % 10));
        assert forall|i: int| 0 <= i < s.len() implies is_digit(#[trigger] s[i]) by {
            if i < p.len() {
                assert(s[i] == p[i]);
            }
        }
    }
    let s = decimal(n);
    assert(is_digit(s[0]));
    assert(field_digits(s) == s);
}

/// A longer run of digits never spells a smaller number than its prefix.
pub proof fn lemma_digits_value_prefix(s: Seq<char>, k: int)
    requires
        0 <= k <= s.len(),
    ensures
        digits_value(s.take(k)) <= digits_value(s),
    decreases s.len() - k,
{
    if k == s.len() {
        assert(s.take(k) =~= s);
    } else {
        lemma_digits_value_prefix(s, k + 1);
        let t = s.take(k + 1);
        assert(t.drop_last() =~= s.take(k));
    }
}

/// A run of digits that does not start with a zero is the canonical
/// spelling of the number it spells.
pub proof fn lemma_canonico(s: Seq<char>)
    requires
        s.len() >= 1,
        all_digits(s),
        s[0] != '0',
    ensures
        decimal(digits_value(s)) == s,
        digits_value(s) >= 1,
    decreases s.len(),
{
    let p = s.drop_last();
    let d = s.last();
    assert(is_digit(d));
    assert(digit_char(digit_value(d)) == d);
    if p.len() == 0 {
        assert(digits_value(p) == 0);
        assert(is_digit(s[0]));
        assert(s =~= seq![d]);
    } else {
        assert(all_digits(p)) by {
            assert forall|i: int| 0 <= i < p.len() implies is_digit(#[trigger] p[i]) by {
                assert(p[i] == s[i]);
            }
        }
        assert(p[0] == s[0]);
        lemma_canonico(p);
        let v = digits_value(s);
        assert(v == digits_value(p) * 10 + digit_value(d));
        assert(v >= 10);
        assert(v / 10 == digits_value(p) && v % 10 == digit_value(d));
        assert(decimal(v) == decimal(v / 10).push(digit_char(v % 10)));
        assert(p.push(d) =~= s);
    }
}

/// Two numbers with the same spelling are the same number.
pub proof fn lemma_decimal_inyectivo(a: nat, b: nat)
    requires
        decimal(a) == decimal(b),
    ensures
        a == b,
{
    lemma_decimal_reads_back(a);
    lemma_decimal_reads_back(b);
}

/// The one-character text of a digit.
fn digit_str(d: u64) -> (r: &'static str)
    requires
        d < 10,
    ensures
        r@ == seq![digit_char(d as nat)],
{
    proof {
        reveal_strlit("0");
        reveal_strlit("1");
        reveal_strlit("2");
        reveal_strlit("3");
        reveal_strlit("4");
        reveal_strlit("5");
        reveal_strlit("6");
        reveal_strlit("7");
        reveal_strlit("8");
        reveal_strlit("9");
    }
    let r = if d == 0 {
        "0"
    } else if d == 1 {
        "1"
    } else if d == 2 {
        "2"
    } else if d == 3 {
        "3"
    } else if d == 4 {
        "4"
    } else if d == 5 {
        "5"
    } else if d == 6 {
        "6"
    } else if d == 7 {
        "7"
    } else if d == 8 {
        "8"
    } else {
        "9"
    };
    assert(r@ =~= seq![digit_char(d as nat)]);
    r
}

/// Appends the canonical spelling of `n` to `out`.
pub fn append_decimal(out: &mut String, n: u64)
    ensures
        final(out)@ == old(out)@ + decimal(n as nat),
    decreases n,
{
    if n >= 10 {
        append_decimal(out, n / 10);
    }
    out.append(digit_str(n % 10));
    proof {
        let d = digit_char((n % 10) as nat);
        if n >= 10 {
            assert(old(out)@ + decimal((n / 10) as nat) + seq![d] =~= old(out)@ + decimal(
                (n / 10) as nat,
            ).push(d));
        }
    }
}

/// Appends a dash, the field separator of a record.
pub fn append_dash(out: &mut String)
    ensures
        final(out)@ == old(out)@.push('-'),
{
    proof {
        reveal_strlit("-");
    }
    out.append("-");
    assert(old(out)@ + "-"@ =~= old(out)@.push('-'));
}

/// The canonical spelling of `n` as a string.
pub fn decimal_string(n: u64) -> (r: String)
    ensures
        r@ == decimal(n as nat),
{
    let mut s = String::new();
    append_decimal(&mut s, n);
    assert(Seq::<char>::empty() + decimal(n as nat) =~= decimal(n as nat));
    s
}

/// The characters of `s` when all of them are ASCII, `None` otherwise.
pub fn ascii_chars(s: &str) -> (r: Option<Vec<char>>)
    ensures
        r is Some <==> is_ascii_chars(s@),
        r is Some ==> r->0@ == s@,
{
    if !s.is_ascii() {
        return None;
    }
    proof {
        is_ascii_spec_bytes(s);
    }
    let b = s.as_bytes();
    let mut v: Vec<char> = Vec::new();
    let mut i: usize = 0;
    while i < b.len()
        invariant
            i <= b@.len(),
            b@.len() == s@.len(),
            is_ascii_chars(s@),
            forall|j: int| 0 <= j < s@.len() ==> b@[j] == s@[j] as u8,
            v@ == s@.take(i as int),
        decreases b@.len() - i,
    {
        let c = b[i] as char;
        proof {
            let sc = s@[i as int];
            assert('\0' <= sc && sc <= '\u{7f}');
            assert(c == sc);
            assert(s@.take(i as int + 1) =~= s@.take(i as int).push(sc));
        }
        v.push(c);
        i = i + 1;
    }
    assert(s@.take(i as int) =~= s@);
    Some(v)
}

/// Reads a numeric field of at most `max`: `Some(v)` exactly when the field
/// spells `v` and `v <= max`.
pub fn parse_bounded_u64(field: &Vec<char>, max: u64) -> (r: Option<u64>)
    ensures
        r is Some <==> field_bounded(field@, max as nat) is Some,
        r is Some ==> r->0 as nat == field_bounded(field@, max as nat)->0,
{
    let n = field.len();
    let start: usize = if n > 0 && field[0] == '+' {
        1
    } else {
        0
    };
    let ghost d = field_digits(field@);
    assert(d =~= field@.subrange(start as int, n as int));
    if start == n {
        return None;
    }
    let mut acc: u64 = 0;
    let mut i: usize = start;
    while i < n
        invariant
            start <= i <= n,
            n == field@.len(),
            d == field@.subrange(start as int, n as int),
            d == field_digits(field@),
            all_digits(d.take(i - start)),
            acc as nat == digits_value(d.take(i - start)),
            acc <= max,
        decreases n - i,
    {
        let c = field[i];
        let ghost k = i - start;
        assert(d[k] == c);
        if !('0' <= c && c <= '9') {
            assert(!is_digit(d[k]));
            return None;
        }
        let v: u64 = (c as u32 - '0' as u32) as u64;
        proof {
            let t = d.take(k + 1);
            assert(t.drop_last() =~= d.take(k));
            assert(t.last() == c);
            assert(digits_value(t) == acc as nat * 10 + v as nat);
            assert forall|j: int| 0 <= j < t.len() implies is_digit(#[trigger] t[j]) by {
                if j < k {
                    assert(t[j] == d.take(k)[j]);
                }
            }
        }
        if max < v || acc > (max - v) / 10 {
            proof {
                // the prefix already exceeds the bound, and so does the whole
                assert(acc as nat * 10 + v as nat > max as nat) by {
                    if max >= v {
                        assert(acc >= (max - v) / 10 + 1);
                        assert(10 * ((max - v) / 10 + 1) > max - v);
                    }
                }
                lemma_digits_value_prefix(d, k + 1);
                if all_digits(d) {
                    assert(digits_value(d) > max as nat);
                }
            }
            return None;
        }
        acc = acc * 10 + v;
        i = i + 1;
    }
    assert(d.take(i - start) =~= d);
    Some(acc)
}

/// Reads a numeric field of at most `max`: `Some(v)` exactly when the field
/// spells `v` and `v <= max`.
pub fn parse_bounded(field: &Vec<char>, max: u32) -> (r: Option<u32>)
    ensures
        r is Some <==> field_bounded(field@, max as nat) is Some,
        r is Some ==> r->0 as nat == field_bounded(field@, max as nat)->0,
{
    match parse_bounded_u64(field, max as u64) {
        Some(v) => Some(v as u32),
        None => None,
    }
}

/// The characters of `s`.
pub fn chars_de(s: &str) -> (r: Vec<char>)
    ensures
        r@ == s@,
{
    let mut v: Vec<char> = Vec::new();
    let mut it = s.chars();
    proof {
        axiom_spec_iter(s);
    }
    let ghost total = s@;
    loop
        invariant
            v@ + it.remaining() == total,
            total == s@,
            it.obeys_prophetic_iter_laws(),
            it.decrease() is Some,
        decreases it.decrease()->0,
    {
        let ghost antes = it;
        match it.next() {
            Some(c) => {
                proof {
                    next_postcondition(&antes, &it, Some(c));
                }
                v.push(c);
                assert(v@ + it.remaining() =~= total);
            },
            None => {
                proof {
                    next_postcondition(&antes, &it, None);
                }
                assert(v@ =~= total);
                return v;
            },
        }
    }
}

/// The place of the first point of `s`, or its length if it has none.
pub open spec fn punto(s: Seq<char>) -> int
    decreases s.len(),
{
    if s.len() == 0 {
        0
    } else if s[0] == '.' {
        0
    } else {
        1 + punto(s.drop_first())
    }
}

/// True when every character of `s` is a zero.
pub open spec fn todos_ceros(s: Seq<char>) -> bool {
    forall|i: int| 0 <= i < s.len() ==> #[trigger] s[i] == '0'
}

/// The whole number of grams that a text spells: a numeric field, which
/// may be followed by a point and any number of zeros. Fractions of a gram
/// are not spelled.
pub open spec fn gramos(s: Seq<char>) -> Option<nat> {
    let p = punto(s);
    if p >= s.len() {
        field_bounded(s, u64::MAX as nat)
    } else if todos_ceros(s.subrange(p + 1, s.len() as int)) {
        field_bounded(s.take(p), u64::MAX as nat)
    } else {
        None
    }
}

/// `punto` is a place of `s` or its length; there is no point before it,
/// and there is one at it.
pub proof fn lemma_punto(s: Seq<char>)
    ensures
        0 <= punto(s) <= s.len(),
        forall|j: int| 0 <= j < punto(s) ==> #[trigger] s[j] != '.',
        punto(s) < s.len() ==> s[punto(s)] == '.',
    decreases s.len(),
{
    if s.len() > 0 && s[0] != '.' {
        let r = s.drop_first();
        lemma_punto(r);
        assert forall|j: int| 0 <= j < punto(s) implies #[trigger] s[j] != '.' by {
            if j > 0 {
                assert(s[j] == r[j - 1]);
            }
        }
    }
}

/// The place that `lemma_punto` describes is the only one.
pub proof fn lemma_punto_unico(s: Seq<char>, i: int)
    requires
        0 <= i <= s.len(),
        forall|j: int| 0 <= j < i ==> #[trigger] s[j] != '.',
        i < s.len() ==> s[i] == '.',
    ensures
        i == punto(s),
{
    lemma_punto(s);
    let q = punto(s);
    if q < i {
        assert(s[q] != '.');
    } else if i < q {
        assert(s[i] != '.');
    }
}

/// Reads a number of grams: `Some(v)` exactly when the text spells `v`.
pub fn parse_gramos(texto: &Vec<char>) -> (r: Option<u64>)
    ensures
        r is Some <==> gramos(texto@) is Some,
        r is Some ==> r->0 as nat == gramos(texto@)->0,
{
    let n = texto.len();
    let mut p: usize = 0;
    while p < n && texto[p] != '.'
        invariant
            p <= n,
            n == texto@.len(),
            forall|j: int| 0 <= j < p ==> #[trigger] texto@[j] != '.',
        decreases n - p,
    {
        p = p + 1;
    }
    proof {
        lemma_punto_unico(texto@, p as int);
    }
    if p >= n {
        return parse_bounded_u64(texto, u64::MAX);
    }
    let mut i: usize = p + 1;
    let ghost cola = texto@.subrange(p + 1, n as int);
    while i < n
        invariant
            p < i <= n,
            n == texto@.len(),
            cola == texto@.subrange(p + 1, n as int),
            p == punto(texto@),
            forall|j: int| 0 <= j < i - p - 1 ==> #[trigger] cola[j] == '0',
        decreases n - i,
    {
        if texto[i] != '0' {
            assert(cola[i - p - 1] == texto@[i as int]);
            return None;
        }
        i = i + 1;
    }
    let mut entero: Vec<char> = Vec::new();
    let mut k: usize = 0;
    while k < p
        invariant
            k <= p <= texto@.len(),
            entero@ == texto@.take(k as int),
        decreases p - k,
    {
        entero.push(texto[k]);
        assert(entero@ =~= texto@.take(k as int + 1));
        k = k + 1;
    }
    parse_bounded_u64(&entero, u64::MAX)
}

} // verus!
