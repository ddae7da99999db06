//! Character-level text handling shared by the rest of the library:
//! Unicode whitespace trimming, words and lines, character-count
//! truncation, strict decimal parsing and decimal, octal and hexadecimal
//! formatting.

use vstd::prelude::*;
use vstd::string::StrSliceExecFns;

verus! {

/// The Unicode `White_Space` property, which is exactly what
/// `char::is_whitespace` (and therefore `str::trim`) tests.
pub open spec fn spec_is_whitespace(c: char) -> bool {
    let n = c as u32;
    ||| 0x09 <= n <= 0x0D
    ||| n == 0x20
    ||| n == 0x85
    ||| n == 0xA0
    ||| n == 0x1680
    ||| 0x2000 <= n <= 0x200A
    ||| n == 0x2028
    ||| n == 0x2029
    ||| n == 0x202F
    ||| n == 0x205F
    ||| n == 0x3000
}

/// Whether `c` is Unicode whitespace.
pub fn is_whitespace(c: char) -> (b: bool)
    ensures
        b == spec_is_whitespace(c),
{
    let n: u32 = c as u32;
    (0x09 <= n && n <= 0x0D) || n == 0x20 || n == 0x85 || n == 0xA0 || n == 0x1680 || (0x2000
        <= n && n <= 0x200A) || n == 0x2028 || n == 0x2029 || n == 0x202F || n == 0x205F || n
        == 0x3000
}

/// `s` with leading whitespace removed.
pub open spec fn trim_front(s: Seq<char>) -> Seq<char>
    decreases s.len(),
{
    if s.len() > 0 && spec_is_whitespace(s[0]) {
        trim_front(s.drop_first())
    } else {
        s
    }
}

/// `s` with trailing whitespace removed.
pub open spec fn trim_back(s: Seq<char>) -> Seq<char>
    decreases s.len(),
{
    if s.len() > 0 && spec_is_whitespace(s.last()) {
        trim_back(s.drop_last())
    } else {
        s
    }
}

/// `s` with leading and trailing Unicode whitespace removed (`str::trim`).
pub open spec fn spec_trim(s: Seq<char>) -> Seq<char> {
    trim_back(trim_front(s))
}

/// Removes leading and trailing Unicode whitespace.
pub fn trim(s: &str) -> (r: &str)
    ensures
        r@ == spec_trim(s@),
{
    let len: usize = s.unicode_len();
    let ghost full = s@;
    let mut start: usize = 0;
    assert(full.subrange(0, len as int) =~= full);
    while start < len && is_whitespace(s.get_char(start))
        invariant
            start <= len,
            len == full.len(),
            full == s@,
            trim_front(full) == trim_front(full.subrange(start as int, len as int)),
        decreases len - start,
    {
        assert(full.subrange(start as int, len as int).drop_first() =~= full.subrange(
            start + 1,
            len as int,
        ));
        start = start + 1;
    }
    assert(trim_front(full) == full.subrange(start as int, len as int));
    let mut end: usize = len;
    while end > start && is_whitespace(s.get_char(end - 1))
        invariant
            start <= end <= len,
            len == full.len(),
            full == s@,
            trim_back(full.subrange(start as int, len as int)) == trim_back(
                full.subrange(start as int, end as int),
            ),
        decreases end - start,
    {
        assert(full.subrange(start as int, end as int).drop_last() =~= full.subrange(
            start as int,
            end - 1,
        ));
        end = end - 1;
    }
    assert(trim_back(full.subrange(start as int, end as int)) == full.subrange(
        start as int,
        end as int,
    ));
    s.substring_char(start, end)
}

/// The number of characters in `s`.
pub fn char_count(s: &str) -> (n: usize)
    ensures
        n == s@.len(),
{
    s.unicode_len()
}

/// The first `n` characters of `s` (all of `s` if it is shorter).
pub fn take_chars(s: &str, n: usize) -> (r: &str)
    ensures
        r@ == s@.take(if n < s@.len() { n as int } else { s@.len() as int }),
{
    let len: usize = s.unicode_len();
    let end: usize = if n < len { n } else { len };
    let r = s.substring_char(0, end);
    assert(r@ =~= s@.take(end as int));
    r
}

/// Whether two strings hold the same characters.
pub fn str_eq(a: &str, b: &str) -> (r: bool)
    ensures
        r == (a@ == b@),
{
    let n: usize = a.unicode_len();
    if n != b.unicode_len() {
        return false;
    }
    let mut i: usize = 0;
    while i < n
        invariant
            i <= n,
            n == a@.len(),
            n == b@.len(),
            forall|j: int| 0 <= j < i ==> a@[j] == b@[j],
        decreases n - i,
    {
        if a.get_char(i) != b.get_char(i) {
            return false;
        }
        i = i + 1;
    }
    assert(a@ =~= b@);
    true
}

/// Whether `c` is an ASCII decimal digit.
pub open spec fn is_ascii_digit(c: char) -> bool {
    48 <= (c as u32) <= 57
}

/// The value of an ASCII decimal digit.
pub open spec fn digit_value(c: char) -> nat {
    ((c as u32) - 48) as nat
}

/// Whether every character of `s` is an ASCII decimal digit.
pub open spec fn all_digits(s: Seq<char>) -> bool {
    forall|i: int| 0 <= i < s.len() ==> is_ascii_digit(#[trigger] s[i])
}

/// The number a string of decimal digits denotes.
pub open spec fn digits_value(s: Seq<char>) -> nat
    decreases s.len(),
{
    if s.len() == 0 {
        0
    } else {
        digits_value(s.drop_last()) * 10 + digit_value(s.last())
    }
}

/// The digits of an unsigned decimal literal as std's unsigned `FromStr`
/// accepts it: an optional leading `+`, then one or more ASCII digits.
pub open spec fn decimal_digits(s: Seq<char>) -> Option<Seq<char>> {
    let body = if s.len() > 0 && s[0] == '+' {
        s.drop_first()
    } else {
        s
    };
    if body.len() > 0 && all_digits(body) {
        Some(body)
    } else {
        None
    }
}

/// The value of an unsigned decimal literal, if `s` is one.
pub open spec fn spec_parse_decimal(s: Seq<char>) -> Option<nat> {
    match decimal_digits(s) {
        Some(d) => Some(digits_value(d)),
        None => None,
    }
}

/// What parsing `s` as an unsigned integer no larger than `max` gives.
pub open spec fn parse_bounded(s: Seq<char>, max: nat) -> Option<nat> {
    match spec_parse_decimal(s) {
        Some(v) => if v <= max {
            Some(v)
        } else {
            None
        },
        None => None,
    }
}

proof fn lemma_digits_value_prefix_monotone(s: Seq<char>, i: int, j: int)
    requires
        all_digits(s),
        0 <= i <= j <= s.len(),
    ensures
        digits_value(s.take(i)) <= digits_value(s.take(j)),
    decreases j - i,
{
    if i < j {
        lemma_digits_value_prefix_monotone(s, i, j - 1);
        assert(s.take(j).drop_last() =~= s.take(j - 1));
    }
}

/// Parses `s` as a `u64` exactly as `str::parse::<u64>` does.
pub fn parse_u64(s: &str) -> (r: Option<u64>)
    ensures
        r matches Some(v) ==> parse_bounded(s@, u64::MAX as nat) == Some(v as nat),
        r is None ==> parse_bounded(s@, u64::MAX as nat) is None,
{
    let len: usize = s.unicode_len();
    let ghost full = s@;
    let offset: usize = if len > 0 && s.get_char(0) == '+' {
        1
    } else {
        0
    };
    let ghost body = full.subrange(offset as int, len as int);
    assert(decimal_digits(full) == (if body.len() > 0 && all_digits(body) {
        Some(body)
    } else {
        None::<Seq<char>>
    })) by {
        if offset == 1 {
            assert(full.drop_first() =~= body);
        } else {
            assert(full =~= body);
        }
    }
    if offset == len {
        return None;
    }
    let mut acc: u64 = 0;
    let mut i: usize = offset;
    assert(body.take(0) =~= Seq::<char>::empty());
    while i < len
        invariant
            offset <= i <= len,
            offset < len,
            len == full.len(),
            full == s@,
            body == full.subrange(offset as int, len as int),
            decimal_digits(full) == (if body.len() > 0 && all_digits(body) {
                Some(body)
            } else {
                None::<Seq<char>>
            }),
            forall|j: int| 0 <= j < i - offset ==> is_ascii_digit(#[trigger] body[j]),
            acc as nat == digits_value(body.take(i - offset)),
        decreases len - i,
    {
        let c = s.get_char(i);
        let n: u32 = c as u32;
        if n < 48 || n > 57 {
            assert(body[i - offset] == c);
            assert(!is_ascii_digit(body[i - offset]));
            assert(!all_digits(body));
            return None;
        }
        let d: u64 = (n - 48) as u64;
        let ghost k: int = i - offset;
        assert(body.take(k + 1).drop_last() =~= body.take(k));
        assert(body.take(k + 1).last() == c);
        assert(digits_value(body.take(k + 1)) == digits_value(body.take(k)) * 10 + digit_value(
            c,
        ));
        assert(digit_value(c) == d);
        match acc.checked_mul(10) {
            Some(m) => match m.checked_add(d) {
                Some(v) => {
                    acc = v;
                },
                None => {
                    assert(m == acc * 10);
                    assert(acc as nat * 10 + d > u64::MAX);
                    proof {
                        if all_digits(body) {
                            lemma_digits_value_prefix_monotone(body, k + 1, body.len() as int);
                            assert(body.take(body.len() as int) =~= body);
                        }
                    }
                    return None;
                },
            },
            None => {
                proof {
                    if all_digits(body) {
                        lemma_digits_value_prefix_monotone(body, k + 1, body.len() as int);
                        assert(body.take(body.len() as int) =~= body);
                    }
                }
                return None;
            },
        }
        i = i + 1;
    }
    assert(body.take(body.len() as int) =~= body);
    assert(all_digits(body));
    Some(acc)
}

/// Parses `s` as a `u32` exactly as `str::parse::<u32>` does.
pub fn parse_u32(s: &str) -> (r: Option<u32>)
    ensures
        r matches Some(v) ==> parse_bounded(s@, u32::MAX as nat) == Some(v as nat),
        r is None ==> parse_bounded(s@, u32::MAX as nat) is None,
{
    match parse_u64(s) {
        Some(v) => if v <= u32::MAX as u64 {
            Some(v as u32)
        } else {
            None
        },
        None => None,
    }
}

/// The lowercase hexadecimal digit for `d` (`0 <= d < 16`).
pub open spec fn hex_digit(d: int) -> char {
    if d == 0 { '0' } else if d == 1 { '1' } else if d == 2 { '2' } else if d == 3 { '3' }
    else if d == 4 { '4' } else if d == 5 { '5' } else if d == 6 { '6' } else if d == 7 { '7' }
    else if d == 8 { '8' } else if d == 9 { '9' } else if d == 10 { 'a' } else if d == 11 { 'b' }
    else if d == 12 { 'c' } else if d == 13 { 'd' } else if d == 14 { 'e' } else { 'f' }
}

/// `n` written in decimal, most significant digit first, without leading
/// zeros.
pub open spec fn spec_decimal(n: nat) -> Seq<char>
    decreases n,
{
    if n < 10 {
        seq![hex_digit(n as int)]
    } else {
        spec_decimal(n / 10).push(hex_digit((n % 10) as int))
    }
}

/// The lowercase two-digit hexadecimal form of every byte of `bytes`, in
/// order.
pub open spec fn spec_hex(bytes: Seq<u8>) -> Seq<char>
    decreases bytes.len(),
{
    if bytes.len() == 0 {
        seq![]
    } else {
        spec_hex(bytes.drop_last()) + seq![
            hex_digit((bytes.last() / 16) as int),
            hex_digit((bytes.last() % 16) as int),
        ]
    }
}

fn digit_str(d: u64) -> (r: &'static str)
    requires
        d < 16,
    ensures
        r@ == seq![hex_digit(d as int)],
{
    let digits = "0123456789abcdef";
    proof {
        reveal_strlit("0123456789abcdef");
    }
    let r = digits.substring_char(d as usize, (d + 1) as usize);
    assert(r@ =~= seq![hex_digit(d as int)]);
    r
}

/// `n` written in decimal.
pub fn decimal(n: u64) -> (r: String)
    ensures
        r@ == spec_decimal(n as nat),
    decreases n,
{
    if n < 10 {
        String::from_str(digit_str(n))
    } else {
        let r = decimal(n / 10).concat(digit_str(n % 10));
        assert(r@ =~= spec_decimal(n as nat));
        r
    }
}

/// `n` written in octal, most significant digit first, without leading
/// zeros.
pub open spec fn spec_octal(n: nat) -> Seq<char>
    decreases n,
{
    if n < 8 {
        seq![hex_digit(n as int)]
    } else {
        spec_octal(n / 8).push(hex_digit((n % 8) as int))
    }
}

/// `digits` with `'0'` put in front until it is at least `width` long.
pub open spec fn zero_padded(digits: Seq<char>, width: nat) -> Seq<char> {
    if digits.len() < width {
        Seq::new((width - digits.len()) as nat, |i: int| '0') + digits
    } else {
        digits
    }
}

/// `n` written in octal.
pub fn octal(n: u64) -> (r: String)
    ensures
        r@ == spec_octal(n as nat),
    decreases n,
{
    if n < 8 {
        String::from_str(digit_str(n))
    } else {
        let r = octal(n / 8).concat(digit_str(n % 8));
        assert(r@ =~= spec_octal(n as nat));
        r
    }
}

/// `digits` with `'0'` put in front until it is at least `width` long.
pub fn pad_zeros(digits: String, width: usize) -> (r: String)
    ensures
        r@ == zero_padded(digits@, width as nat),
{
    let len: usize = digits.as_str().unicode_len();
    if len >= width {
        return digits;
    }
    let mut r = String::new();
    let mut k: usize = 0;
    while k < width - len
        invariant
            k <= width - len,
            len < width,
            r@ == Seq::new(k as nat, |i: int| '0'),
        decreases width - len - k,
    {
        r.append(digit_str(0));
        assert(r@ =~= Seq::new((k + 1) as nat, |i: int| '0'));
        k = k + 1;
    }
    let r = r.concat(digits.as_str());
    assert(r@ =~= zero_padded(digits@, width as nat));
    r
}

/// The lowercase hexadecimal encoding of `bytes`, two digits per byte.
pub fn hex_encode(bytes: &[u8]) -> (r: String)
    ensures
        r@ == spec_hex(bytes@),
{
    let mut r = String::new();
    let mut i: usize = 0;
    assert(bytes@.take(0) =~= Seq::<u8>::empty());
    while i < bytes.len()
        invariant
            i <= bytes@.len(),
            r@ == spec_hex(bytes@.take(i as int)),
        decreases bytes.len() - i,
    {
        let b: u8 = bytes[i];
        r.append(digit_str((b / 16) as u64));
        r.append(digit_str((b % 16) as u64));
        assert(bytes@.take(i + 1).drop_last() =~= bytes@.take(i as int));
        assert(r@ =~= spec_hex(bytes@.take(i + 1)));
        i = i + 1;
    }
    assert(bytes@.take(bytes@.len() as int) =~= bytes@);
    r
}

/// The text of each string.
pub open spec fn string_texts(v: Seq<String>) -> Seq<Seq<char>> {
    v.map_values(|s: String| s@)
}

/// The position of the first `c` in `s`, or the length of `s` where it
/// holds none.
pub open spec fn find_char(s: Seq<char>, c: char) -> nat
    decreases s.len(),
{
    if s.len() == 0 {
        0
    } else if s[0] == c {
        0
    } else {
        1 + find_char(s.drop_first(), c)
    }
}

pub proof fn lemma_find_char(s: Seq<char>, c: char, k: int)
    requires
        0 <= k <= s.len(),
        forall|j: int| 0 <= j < k ==> s[j] != c,
        k == s.len() || s[k] == c,
    ensures
        find_char(s, c) == k,
    decreases k,
{
    if k > 0 {
        assert forall|j: int| 0 <= j < k - 1 implies s.drop_first()[j] != c by {
            assert(s.drop_first()[j] == s[j + 1]);
        }
        lemma_find_char(s.drop_first(), c, k - 1);
    }
}

/// The lines of a text as `str::lines` splits it: at each `\n`, with a
/// `\r` just before it dropped; a last line without a terminator is kept
/// as it is, and a terminator at the very end opens no further line.
pub open spec fn text_lines(s: Seq<char>) -> Seq<Seq<char>>
    decreases s.len(),
{
    if s.len() == 0 {
        seq![]
    } else {
        let i = find_char(s, '\n');
        if i >= s.len() {
            seq![s]
        } else {
            let line = s.take(i as int);
            let line = if line.len() > 0 && line.last() == '\r' {
                line.drop_last()
            } else {
                line
            };
            seq![line] + text_lines(s.skip(i + 1 as int))
        }
    }
}

/// The position of the first `c` in `s` between `from` and `to`, or `to`
/// where there is none.
pub fn find_char_in(s: &str, c: char, from: usize, to: usize) -> (r: usize)
    requires
        from <= to <= s@.len(),
    ensures
        from <= r <= to,
        forall|j: int| from <= j < r ==> s@[j] != c,
        r < to ==> s@[r as int] == c,
{
    let mut i: usize = from;
    while i < to
        invariant
            from <= i <= to,
            to <= s@.len(),
            forall|j: int| from <= j < i ==> s@[j] != c,
        decreases to - i,
    {
        if s.get_char(i) == c {
            return i;
        }
        i = i + 1;
    }
    i
}

/// Splits `s` into its lines as `str::lines` does.
pub fn split_lines(s: &str) -> (r: Vec<String>)
    ensures
        string_texts(r@) == text_lines(s@),
{
    let ghost whole = s@;
    let len: usize = s.unicode_len();
    let mut lines: Vec<String> = Vec::new();
    let mut start: usize = 0;
    assert(whole.skip(0) =~= whole);
    assert(string_texts(lines@) + text_lines(whole) =~= text_lines(whole));
    while start < len
        invariant
            len == whole.len(),
            whole == s@,
            start <= len,
            text_lines(whole) == string_texts(lines@) + text_lines(whole.skip(start as int)),
        decreases len - start,
    {
        let ghost rest = whole.skip(start as int);
        let newline = find_char_in(s, '\n', start, len);
        proof {
            assert forall|j: int| 0 <= j < newline - start implies rest[j] != '\n' by {
                assert(rest[j] == whole[start + j]);
            }
            lemma_find_char(rest, '\n', newline - start);
        }
        let (end, next): (usize, usize) = if newline < len {
            if newline > start && s.get_char(newline - 1) == '\r' {
                (newline - 1, newline + 1)
            } else {
                (newline, newline + 1)
            }
        } else {
            (len, len)
        };
        let line = String::from_str(s.substring_char(start, end));
        proof {
            let text = whole.subrange(start as int, end as int);
            assert(line@ =~= text);
            if newline < len {
                assert(rest.skip(newline - start + 1) =~= whole.skip(next as int));
                let taken = rest.take(newline - start);
                if taken.len() > 0 && taken.last() == '\r' {
                    assert(taken.drop_last() =~= text);
                } else {
                    assert(taken =~= text);
                }
                assert(text_lines(rest) == seq![text] + text_lines(whole.skip(next as int)));
            } else {
                assert(rest =~= text);
                assert(text_lines(rest) == seq![text]);
                assert(whole.skip(next as int) =~= Seq::<char>::empty());
                assert(seq![text] + text_lines(whole.skip(next as int)) =~= seq![text]);
            }
        }
        let ghost before = string_texts(lines@);
        lines.push(line);
        proof {
            assert(string_texts(lines@) =~= before.push(lines@.last()@));
            assert(string_texts(lines@) + text_lines(whole.skip(next as int)) =~= before
                + text_lines(rest));
        }
        start = next;
    }
    proof {
        assert(whole.skip(start as int) =~= Seq::<char>::empty());
        assert(string_texts(lines@) + Seq::<Seq<char>>::empty() =~= string_texts(lines@));
    }
    lines
}

/// The position of the first whitespace character of `s`, or its length
/// where it holds none.
pub open spec fn first_whitespace(s: Seq<char>) -> nat
    decreases s.len(),
{
    if s.len() == 0 {
        0
    } else if spec_is_whitespace(s[0]) {
        0
    } else {
        1 + first_whitespace(s.drop_first())
    }
}

proof fn lemma_first_whitespace(s: Seq<char>, k: int)
    requires
        0 <= k <= s.len(),
        forall|j: int| 0 <= j < k ==> !spec_is_whitespace(#[trigger] s[j]),
        k == s.len() || spec_is_whitespace(s[k]),
    ensures
        first_whitespace(s) == k,
    decreases k,
{
    if k > 0 {
        assert forall|j: int| 0 <= j < k - 1 implies !spec_is_whitespace(
            #[trigger] s.drop_first()[j],
        ) by {
            assert(s.drop_first()[j] == s[j + 1]);
        }
        lemma_first_whitespace(s.drop_first(), k - 1);
    }
}

/// The first whitespace-separated word of `s`, if it has one (what
/// `split_whitespace().next()` gives).
pub open spec fn spec_first_word(s: Seq<char>) -> Option<Seq<char>> {
    let t = trim_front(s);
    if t.len() == 0 {
        None
    } else {
        Some(t.take(first_whitespace(t) as int))
    }
}

/// The first whitespace-separated word of `s`, if it has one.
pub fn first_word(s: &str) -> (r: Option<&str>)
    ensures
        match r {
            Some(w) => spec_first_word(s@) == Some(w@),
            None => spec_first_word(s@) is None,
        },
{
    let len: usize = s.unicode_len();
    let ghost full = s@;
    let mut start: usize = 0;
    assert(full.subrange(0, len as int) =~= full);
    while start < len && is_whitespace(s.get_char(start))
        invariant
            start <= len,
            len == full.len(),
            full == s@,
            trim_front(full) == trim_front(full.subrange(start as int, len as int)),
        decreases len - start,
    {
        assert(full.subrange(start as int, len as int).drop_first() =~= full.subrange(
            start + 1,
            len as int,
        ));
        start = start + 1;
    }
    let ghost t = full.subrange(start as int, len as int);
    assert(trim_front(full) == t);
    if start == len {
        return None;
    }
    let mut end: usize = start;
    while end < len && !is_whitespace(s.get_char(end))
        invariant
            start <= end <= len,
            len == full.len(),
            full == s@,
            t == full.subrange(start as int, len as int),
            forall|j: int| 0 <= j < end - start ==> !spec_is_whitespace(#[trigger] t[j]),
        decreases len - end,
    {
        assert(t[end - start] == full[end as int]);
        end = end + 1;
    }
    proof {
        if end < len {
            assert(t[end - start] == full[end as int]);
        }
        lemma_first_whitespace(t, end - start);
        assert(t.take(end - start) =~= full.subrange(start as int, end as int));
    }
    Some(s.substring_char(start, end))
}

} // verus!
