//! Text helpers for the dialog and codec layers: the lossy byte-to-text
//! presentation of wire bytes, character-level string predicates,
//! decimal parsing and rendering.

use vstd::prelude::*;

verus! {

/// The text that the UTF-8 lossy policy presents a byte string as:
/// valid UTF-8 is kept, invalid sequences become replacement
/// characters. What it is on given bytes takes pages to state, so the
/// result only carries this name; it depends on the bytes alone.
pub uninterp spec fn lossy_utf8(bs: Seq<u8>) -> Seq<char>;

/// Relies on String::from_utf8_lossy: presents wire bytes as text,
/// keeping valid UTF-8 and replacing invalid sequences with the
/// replacement character; empty input stays empty.
#[verifier::external_body]
pub fn bytes_to_text(bs: &[u8]) -> (r: String)
    ensures
        r@ == lossy_utf8(bs@),
        bs@.len() == 0 ==> r@.len() == 0,
{
    String::from_utf8_lossy(bs).into_owned()
}

/// Relies on String::push: appends the given character to the end of the string.
#[verifier::external_body]
fn push_char(s: &mut String, c: char)
    ensures
        final(s)@ == old(s)@.push(c),
{
    s.push(c)
}

/// Character-by-character string equality, with the view equality it decides.
pub fn str_eq(a: &str, b: &str) -> (r: bool)
    ensures
        r == (a@ == b@),
{
    let la = a.unicode_len();
    let lb = b.unicode_len();
    if la != lb {
        return false;
    }
    let mut i: usize = 0;
    while i < la
        invariant
            la == a@.len(),
            lb == b@.len(),
            la == lb,
            i <= la,
            forall|j: int| 0 <= j < i ==> a@[j] == b@[j],
        decreases la - i,
    {
        if a.get_char(i) != b.get_char(i) {
            return false;
        }
        i = i + 1;
    }
    assert(a@ =~= b@);
    true
}

/// Whether `p` is a prefix of `s`.
pub open spec fn spec_starts_with(s: Seq<char>, p: Seq<char>) -> bool {
    s.len() >= p.len() && s.subrange(0, p.len() as int) == p
}

/// Decides whether `s` starts with `p`.
pub fn starts_with_str(s: &str, p: &str) -> (r: bool)
    ensures
        r == spec_starts_with(s@, p@),
{
    let ls = s.unicode_len();
    let lp = p.unicode_len();
    if ls < lp {
        return false;
    }
    let mut i: usize = 0;
    while i < lp
        invariant
            ls == s@.len(),
            lp == p@.len(),
            lp <= ls,
            i <= lp,
            forall|j: int| 0 <= j < i ==> s@[j] == p@[j],
        decreases lp - i,
    {
        if s.get_char(i) != p.get_char(i) {
            assert(s@.subrange(0, lp as int)[i as int] != p@[i as int]);
            return false;
        }
        i = i + 1;
    }
    assert(s@.subrange(0, lp as int) =~= p@);
    true
}

/// Whether a dialed input has the `*...#` shape that opens a session:
/// it starts with `*` and ends with `#`.
pub open spec fn spec_is_ussd_code(s: Seq<char>) -> bool {
    s.len() >= 1 && s[0] == '*' && s[s.len() - 1] == '#'
}

/// Decides whether an input has the `*...#` shape.
pub fn is_ussd_code(s: &str) -> (r: bool)
    ensures
        r == spec_is_ussd_code(s@),
{
    let l = s.unicode_len();
    if l == 0 {
        return false;
    }
    s.get_char(0) == '*' && s.get_char(l - 1) == '#'
}

/// A service code with its trailing `#` characters removed; dialed inputs
/// are matched against this prefix.
pub open spec fn spec_trim_hash(s: Seq<char>) -> Seq<char>
    decreases s.len(),
{
    if s.len() > 0 && s[s.len() - 1] == '#' {
        spec_trim_hash(s.drop_last())
    } else {
        s
    }
}

/// Removes every trailing `#` from a service code.
pub fn trim_hash(s: &str) -> (r: &str)
    ensures
        r@ == spec_trim_hash(s@),
{
    let l = s.unicode_len();
    assert(s@.subrange(0, l as int) =~= s@);
    let mut j: usize = l;
    while j > 0 && s.get_char(j - 1) == '#'
        invariant
            l == s@.len(),
            j <= l,
            spec_trim_hash(s@) == spec_trim_hash(s@.subrange(0, j as int)),
        decreases j,
    {
        assert(s@.subrange(0, j as int).drop_last() =~= s@.subrange(0, j - 1));
        j = j - 1;
    }
    let r = s.substring_char(0, j);
    proof {
        if j > 0 {
            assert(spec_trim_hash(s@.subrange(0, j as int)) == s@.subrange(0, j as int));
        } else {
            assert(s@.subrange(0, 0) =~= Seq::<char>::empty());
        }
    }
    r
}

/// The whitespace characters removed by trimming.
pub open spec fn spec_is_space(c: char) -> bool {
    c == ' ' || c == '\t' || c == '\n' || c == '\r'
}

/// A string with leading whitespace removed.
pub open spec fn spec_trim_start(s: Seq<char>) -> Seq<char>
    decreases s.len(),
{
    if s.len() > 0 && spec_is_space(s[0]) {
        spec_trim_start(s.drop_first())
    } else {
        s
    }
}

/// A string with trailing whitespace removed.
pub open spec fn spec_trim_end(s: Seq<char>) -> Seq<char>
    decreases s.len(),
{
    if s.len() > 0 && spec_is_space(s[s.len() - 1]) {
        spec_trim_end(s.drop_last())
    } else {
        s
    }
}

/// A string with whitespace removed from both ends.
pub open spec fn spec_trim(s: Seq<char>) -> Seq<char> {
    spec_trim_end(spec_trim_start(s))
}

/// Removes leading and trailing whitespace.
pub fn trim_str(s: &str) -> (r: &str)
    ensures
        r@ == spec_trim(s@),
{
    let l = s.unicode_len();
    assert(s@.subrange(0, l as int) =~= s@);
    let mut i: usize = 0;
    while i < l && is_space_char(s.get_char(i))
        invariant
            l == s@.len(),
            i <= l,
            spec_trim_start(s@) == spec_trim_start(s@.subrange(i as int, l as int)),
        decreases l - i,
    {
        assert(s@.subrange(i as int, l as int).drop_first() =~= s@.subrange(i + 1, l as int));
        i = i + 1;
    }
    proof {
        if i < l {
            assert(spec_trim_start(s@.subrange(i as int, l as int)) == s@.subrange(
                i as int,
                l as int,
            ));
        } else {
            assert(s@.subrange(l as int, l as int) =~= Seq::<char>::empty());
            assert(spec_trim_start(s@) =~= s@.subrange(i as int, l as int));
        }
    }
    let ghost start_trimmed = spec_trim_start(s@);
    assert(start_trimmed =~= s@.subrange(i as int, l as int));
    let mut j: usize = l;
    while j > i && is_space_char(s.get_char(j - 1))
        invariant
            l == s@.len(),
            i <= j <= l,
            start_trimmed == s@.subrange(i as int, l as int),
            spec_trim_end(start_trimmed) == spec_trim_end(s@.subrange(i as int, j as int)),
        decreases j,
    {
        assert(s@.subrange(i as int, j as int).drop_last() =~= s@.subrange(i as int, j - 1));
        j = j - 1;
    }
    proof {
        if j > i {
            assert(spec_trim_end(s@.subrange(i as int, j as int)) == s@.subrange(
                i as int,
                j as int,
            ));
        } else {
            assert(s@.subrange(i as int, i as int) =~= Seq::<char>::empty());
        }
    }
    s.substring_char(i, j)
}

/// Decides whether a character is trimmed whitespace.
pub fn is_space_char(c: char) -> (r: bool)
    ensures
        r == spec_is_space(c),
{
    c == ' ' || c == '\t' || c == '\n' || c == '\r'
}

/// A character's uppercase form under ASCII case folding.
pub open spec fn spec_ascii_upper(c: char) -> char {
    if 'a' <= c && c <= 'z' {
        (c as u8 - 0x20) as char
    } else {
        c
    }
}

/// Whether two strings are equal under ASCII case folding.
pub open spec fn spec_eq_ignore_ascii_case(a: Seq<char>, b: Seq<char>) -> bool {
    a.len() == b.len() && (forall|i: int|
        0 <= i < a.len() ==> spec_ascii_upper(a[i]) == spec_ascii_upper(b[i]))
}

/// Decides string equality under ASCII case folding.
pub fn eq_ignore_ascii_case(a: &str, b: &str) -> (r: bool)
    ensures
        r == spec_eq_ignore_ascii_case(a@, b@),
{
    let la = a.unicode_len();
    let lb = b.unicode_len();
    if la != lb {
        return false;
    }
    let mut i: usize = 0;
    while i < la
        invariant
            la == a@.len(),
            lb == b@.len(),
            la == lb,
            i <= la,
            forall|j: int| 0 <= j < i ==> spec_ascii_upper(a@[j]) == spec_ascii_upper(b@[j]),
        decreases la - i,
    {
        let ca = upper_char(a.get_char(i));
        let cb = upper_char(b.get_char(i));
        if ca != cb {
            return false;
        }
        i = i + 1;
    }
    true
}

/// Folds one character to uppercase under ASCII case folding.
pub fn upper_char(c: char) -> (r: char)
    ensures
        r == spec_ascii_upper(c),
{
    if 'a' <= c && c <= 'z' {
        ((c as u8) - 0x20) as char
    } else {
        c
    }
}

/// Whether every character of `s` is a decimal digit.
pub open spec fn spec_all_digits(s: Seq<char>) -> bool {
    forall|i: int| 0 <= i < s.len() ==> ('0' <= s[i] && s[i] <= '9')
}

/// The value of a digit string, most significant digit first.
pub open spec fn spec_digits_value(s: Seq<char>) -> nat
    decreases s.len(),
{
    if s.len() == 0 {
        0
    } else {
        spec_digits_value(s.drop_last()) * 10 + (s[s.len() - 1] as nat - '0' as nat) as nat
    }
}

/// The result of parsing a string as an unsigned number, as Rust's
/// decimal parse does: an optional leading `+`, then one or more digits,
/// rejected on overflow.
pub open spec fn spec_parse_usize(s: Seq<char>) -> Option<usize> {
    let t = if s.len() > 0 && s[0] == '+' {
        s.drop_first()
    } else {
        s
    };
    if t.len() > 0 && spec_all_digits(t) && spec_digits_value(t) <= usize::MAX {
        Some(spec_digits_value(t) as usize)
    } else {
        None
    }
}

/// Parses a string as an unsigned number; `None` exactly on an empty or
/// non-digit string and on overflow.
pub fn parse_usize(s: &str) -> (r: Option<usize>)
    ensures
        r == spec_parse_usize(s@),
{
    let l = s.unicode_len();
    let start: usize = if l > 0 && s.get_char(0) == '+' {
        1
    } else {
        0
    };
    let ghost t = if s@.len() > 0 && s@[0] == '+' {
        s@.drop_first()
    } else {
        s@
    };
    assert(t =~= s@.subrange(start as int, l as int));
    if l == start {
        return None;
    }
    let mut acc: usize = 0;
    let mut i: usize = start;
    while i < l
        invariant
            l == s@.len(),
            start <= i <= l,
            t == s@.subrange(start as int, l as int),
            t == (if s@.len() > 0 && s@[0] == '+' {
                s@.drop_first()
            } else {
                s@
            }),
            spec_all_digits(s@.subrange(start as int, i as int)),
            acc == spec_digits_value(s@.subrange(start as int, i as int)),
        decreases l - i,
    {
        let c = s.get_char(i);
        if !('0' <= c && c <= '9') {
            proof {
                assert(t[i - start] == c);
                assert(!spec_all_digits(t));
            }
            return None;
        }
        let d: usize = (c as u8 - 0x30) as usize;
        proof {
            assert(s@.subrange(start as int, i + 1).drop_last() =~= s@.subrange(
                start as int,
                i as int,
            ));
            assert(spec_digits_value(s@.subrange(start as int, i + 1)) == acc * 10 + d);
        }
        let stepped: Option<usize> = match acc.checked_mul(10) {
            Some(m10) => m10.checked_add(d),
            None => None,
        };
        match stepped {
            Some(v) => {
                acc = v;
            },
            None => {
                proof {
                    lemma_digits_value_grows(t, i + 1 - start);
                    assert(t.subrange(0, i + 1 - start) =~= s@.subrange(start as int, i + 1));
                    assert(spec_digits_value(t) > usize::MAX);
                }
                return None;
            },
        }
        i = i + 1;
    }
    assert(s@.subrange(start as int, l as int) =~= t);
    Some(acc)
}

/// A longer digit prefix never has a smaller value.
proof fn lemma_digits_value_grows(s: Seq<char>, n: int)
    requires
        0 <= n <= s.len(),
    ensures
        spec_digits_value(s.subrange(0, n)) <= spec_digits_value(s),
    decreases s.len() - n,
{
    if n < s.len() {
        lemma_digits_value_grows(s, n + 1)
;        assert(s.subrange(0, n + 1).drop_last() =~= s.subrange(0, n));
        assert(spec_digits_value(s.subrange(0, n + 1)) == spec_digits_value(s.subrange(0, n)) * 10
            + (s[n] as nat - '0' as nat) as nat);
    } else {
        assert(s.subrange(0, n) =~= s);
    }
}

/// The decimal rendering of a number, most significant digit first.
pub open spec fn spec_dec_digits(n: nat) -> Seq<char>
    decreases n,
{
    if n < 10 {
        seq![spec_digit_char(n % 10)]
    } else {
        spec_dec_digits(n / 10).push(spec_digit_char(n % 10))
    }
}

/// The character of one decimal digit.
pub open spec fn spec_digit_char(d: nat) -> char {
    (0x30 + (d % 10)) as u8 as char
}

/// Renders a number in decimal.
pub fn u64_to_dec(n: u64) -> (r: String)
    ensures
        r@ == spec_dec_digits(n as nat),
{
    let mut digits: Vec<char> = Vec::new();
    let mut m: u64 = n;
    loop
        invariant_except_break
            spec_dec_digits(n as nat) =~= spec_dec_digits(m as nat) + digits@.reverse(),
        ensures
            spec_dec_digits(n as nat) =~= digits@.reverse(),
        decreases m,
    {
        let d: u8 = (m % 10) as u8;
        let c: char = (0x30 + d) as char;
        assert(c == spec_digit_char((m % 10) as nat));
        digits.push(c);
        let next = m / 10;
        proof {
            assert(digits@.reverse() =~= seq![c] + digits@.drop_last().reverse());
            if m >= 10 {
                assert(spec_dec_digits(m as nat) == spec_dec_digits((m / 10) as nat).push(
                    spec_digit_char((m % 10) as nat),
                ));
                assert(spec_dec_digits((m / 10) as nat) + digits@.reverse() =~= spec_dec_digits(
                    m as nat,
                ) + digits@.drop_last().reverse());
            } else {
                assert(spec_dec_digits(m as nat) =~= seq![c]);
                assert(spec_dec_digits(m as nat) + digits@.drop_last().reverse() =~= digits@.reverse());
            }
        }
        if next == 0 {
            break;
        }
        m = next;
    }
    let ghost final_digits = digits@;
    proof {
        assert(spec_dec_digits(n as nat) =~= final_digits.reverse());
    }
    let mut r = String::new();
    let mut i: usize = digits.len();
    while i > 0
        invariant
            i <= digits@.len(),
            digits@ == final_digits,
            r@ =~= final_digits.reverse().take(final_digits.len() - i),
        decreases i,
    {
        i = i - 1;
        let c = digits[i];
        push_char(&mut r, c);
        proof {
            assert(final_digits.reverse()[final_digits.len() - 1 - i] == final_digits[i as int]);
            assert(r@ =~= final_digits.reverse().take(final_digits.len() - i));
        }
    }
    proof {
        assert(final_digits.reverse().take(final_digits.len() as int) =~= final_digits.reverse());
    }
    r
}

/// A counter rendered as at least four digits, zero-padded on the left,
/// as a `0>4`-width decimal format would print it.
pub open spec fn spec_pad4(n: nat) -> Seq<char> {
    let d = spec_dec_digits(n);
    if d.len() >= 4 {
        d
    } else {
        Seq::new((4 - d.len()) as nat, |i: int| '0') + d
    }
}

/// Renders a counter as at least four digits, zero-padded on the left.
pub fn u64_to_pad4(n: u64) -> (r: String)
    ensures
        r@ == spec_pad4(n as nat),
{
    let digits = u64_to_dec(n);
    let dl = digits.as_str().unicode_len();
    let mut r = String::new();
    let mut pad: usize = if dl >= 4 {
        0
    } else {
        4 - dl
    };
    let ghost total_pad = pad;
    while pad > 0
        invariant
            pad <= total_pad,
            r@ =~= Seq::new((total_pad - pad) as nat, |i: int| '0'),
        decreases pad,
    {
        push_char(&mut r, '0');
        assert(r@ =~= Seq::new((total_pad - (pad - 1)) as nat, |i: int| '0'));
        pad = pad - 1;
    }
    r.append(digits.as_str());
    proof {
        if dl >= 4 {
            assert(r@ =~= spec_pad4(n as nat));
        } else {
            assert(r@ =~= spec_pad4(n as nat));
        }
    }
    r
}

/// An amount of cents rendered as dollars with a two-digit fraction,
/// as a `.2`-precision float format prints a price.
pub open spec fn spec_money(cents: nat) -> Seq<char> {
    spec_dec_digits(cents / 100) + seq!['.'] + seq![
        spec_digit_char((cents / 10) % 10),
        spec_digit_char(cents % 10),
    ]
}

/// Renders an amount of cents as dollars with a two-digit fraction.
pub fn money_to_string(cents: u64) -> (r: String)
    ensures
        r@ == spec_money(cents as nat),
{
    let mut r = u64_to_dec(cents / 100);
    push_char(&mut r, '.');
    push_char(&mut r, (0x30 + ((cents / 10) % 10) as u8) as char);
    push_char(&mut r, (0x30 + (cents % 10) as u8) as char);
    assert(r@ =~= spec_money(cents as nat));
    r
}

/// Lines joined by a separator, in order, with nothing appended after
/// the last line.
pub open spec fn spec_join(lines: Seq<Seq<char>>, sep: Seq<char>) -> Seq<char>
    decreases lines.len(),
{
    if lines.len() == 0 {
        Seq::empty()
    } else if lines.len() == 1 {
        lines[0]
    } else {
        lines[0] + sep + spec_join(lines.drop_first(), sep)
    }
}

/// Joins lines with a separator.
pub fn join_lines(lines: &Vec<String>, sep: &str) -> (r: String)
    ensures
        r@ == spec_join(lines.deep_view(), sep@),
{
    let mut r = String::new();
    let mut i: usize = 0;
    while i < lines.len()
        invariant
            i <= lines@.len(),
            lines.deep_view().len() == lines@.len(),
            forall|j: int| 0 <= j < lines@.len() ==> lines.deep_view()[j] == lines@[j]@,
            r@ =~= spec_join_prefix(lines.deep_view(), sep@, i as int),
        decreases lines@.len() - i,
    {
        if i > 0 {
            r.append(sep);
        }
        r.append(lines[i].as_str());
        proof {
            assert(r@ =~= spec_join_prefix(lines.deep_view(), sep@, i + 1));
        }
        i = i + 1;
    }
    proof {
        lemma_join_prefix_all(lines.deep_view(), sep@);
    }
    r
}

/// The join of the first `n` lines.
pub open spec fn spec_join_prefix(lines: Seq<Seq<char>>, sep: Seq<char>, n: int) -> Seq<char>
    decreases n,
{
    if n <= 0 {
        Seq::empty()
    } else if n == 1 {
        lines[0]
    } else {
        spec_join_prefix(lines, sep, n - 1) + sep + lines[n - 1]
    }
}

/// Joining every line by prefixes agrees with the recursive join.
proof fn lemma_join_prefix_all(lines: Seq<Seq<char>>, sep: Seq<char>)
    ensures
        spec_join_prefix(lines, sep, lines.len() as int) =~= spec_join(lines, sep),
    decreases lines.len(),
{
    if lines.len() > 1 {
        lemma_join_prefix_all(lines.drop_first(), sep);
        lemma_join_prefix_shift(lines, sep, lines.len() as int);
    }
}

/// A prefix join of a dropped-head sequence, shifted by the head.
proof fn lemma_join_prefix_shift(lines: Seq<Seq<char>>, sep: Seq<char>, n: int)
    requires
        2 <= n <= lines.len(),
    ensures
        spec_join_prefix(lines, sep, n) =~= lines[0] + sep + spec_join_prefix(
            lines.drop_first(),
            sep,
            n - 1,
        ),
    decreases n,
{
    if n == 2 {
        assert(spec_join_prefix(lines, sep, 1) == lines[0]);
        assert(spec_join_prefix(lines, sep, 2) == spec_join_prefix(lines, sep, 1) + sep + lines[1]);
        assert(spec_join_prefix(lines.drop_first(), sep, 1) == lines.drop_first()[0]);
        assert(lines.drop_first()[0] == lines[1]);
    } else {
        lemma_join_prefix_shift(lines, sep, n - 1);
        assert(lines.drop_first()[n - 2] == lines[n - 1]);
    }
}

/// Whether a list of names holds the given one.
pub open spec fn spec_contains_str(v: Seq<Seq<char>>, s: Seq<char>) -> bool {
    exists|i: int| 0 <= i < v.len() && v[i] == s
}

/// Decides whether a list of names holds the given one.
pub fn contains_str(v: &Vec<String>, s: &str) -> (r: bool)
    ensures
        r == spec_contains_str(v.deep_view(), s@),
{
    let n = v.len();
    let mut i: usize = 0;
    while i < n
        invariant
            n == v@.len(),
            v.deep_view().len() == v@.len(),
            forall|j: int| 0 <= j < v@.len() ==> v.deep_view()[j] == v@[j]@,
            i <= n,
            forall|j: int| 0 <= j < i ==> v.deep_view()[j] != s@,
        decreases n - i,
    {
        if str_eq(v[i].as_str(), s) {
            proof {
                assert(v.deep_view()[i as int] == s@);
            }
            return true;
        }
        i = i + 1;
    }
    false
}

/// A string with every occurrence of a pattern replaced, scanning left
/// to right; an empty pattern changes nothing.
pub open spec fn spec_replace(s: Seq<char>, pat: Seq<char>, to: Seq<char>) -> Seq<char>
    decreases s.len(),
{
    if pat.len() == 0 || s.len() < pat.len() {
        s
    } else if s.take(pat.len() as int) == pat {
        to + spec_replace(s.skip(pat.len() as int), pat, to)
    } else {
        seq![s[0]] + spec_replace(s.drop_first(), pat, to)
    }
}

/// Whether the pattern stands in `s` at position `i`.
fn match_at(s: &str, i: usize, pat: &str) -> (r: bool)
    requires
        i + pat@.len() <= s@.len(),
    ensures
        r == (s@.subrange(i as int, i + pat@.len()) == pat@),
{
    let ls = s.unicode_len();
    let lp = pat.unicode_len();
    let mut k: usize = 0;
    while k < lp
        invariant
            ls == s@.len(),
            lp == pat@.len(),
            i + lp <= s@.len(),
            k <= lp,
            forall|j: int| 0 <= j < k ==> s@[i + j] == pat@[j],
        decreases lp - k,
    {
        if s.get_char(i + k) != pat.get_char(k) {
            proof {
                assert(s@.subrange(i as int, i + pat@.len())[k as int] != pat@[k as int]);
            }
            return false;
        }
        k = k + 1;
    }
    proof {
        assert(s@.subrange(i as int, i + pat@.len()) =~= pat@);
    }
    true
}

/// Replaces every occurrence of a pattern, scanning left to right.
pub fn replace_str(s: &str, pat: &str, to: &str) -> (r: String)
    requires
        pat@.len() >= 1,
    ensures
        r@ == spec_replace(s@, pat@, to@),
{
    let ls = s.unicode_len();
    let lp = pat.unicode_len();
    let mut r = String::new();
    let mut i: usize = 0;
    proof {
        assert(s@.skip(0) =~= s@);
    }
    while i < ls
        invariant
            ls == s@.len(),
            lp == pat@.len(),
            lp >= 1,
            i <= ls,
            spec_replace(s@, pat@, to@) =~= r@ + spec_replace(s@.skip(i as int), pat@, to@),
        decreases ls - i,
    {
        if lp <= ls - i && match_at(s, i, pat) {
            r.append(to);
            proof {
                let rest = s@.skip(i as int);
                assert(rest.take(lp as int) =~= s@.subrange(i as int, i + lp));
                assert(rest.skip(lp as int) =~= s@.skip(i + lp));
                assert(spec_replace(rest, pat@, to@) == to@ + spec_replace(
                    s@.skip(i + lp),
                    pat@,
                    to@,
                ));
            }
            i = i + lp;
        } else {
            let c = s.get_char(i);
            push_char(&mut r, c);
            proof {
                let rest = s@.skip(i as int);
                if rest.len() >= lp {
                    assert(rest.take(lp as int) =~= s@.subrange(i as int, i + lp));
                }
                assert(rest.drop_first() =~= s@.skip(i + 1));
                assert(rest[0] == c);
                assert(spec_replace(rest, pat@, to@) == seq![c] + spec_replace(
                    s@.skip(i + 1),
                    pat@,
                    to@,
                ));
            }
            i = i + 1;
        }
    }
    proof {
        assert(s@.skip(ls as int) =~= Seq::<char>::empty());
        assert(spec_replace(Seq::<char>::empty(), pat@, to@) =~= Seq::<char>::empty());
        assert(r@ =~= r@ + Seq::<char>::empty());
    }
    r
}

/// Concatenates two strings.
pub fn concat_strs(a: &str, b: &str) -> (r: String)
    ensures
        r@ == a@ + b@,
{
    let mut r = String::from_str(a);
    r.append(b);
    r
}

} // verus!
