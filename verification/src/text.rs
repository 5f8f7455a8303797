use vstd::prelude::*;
use vstd::utf8::*;

verus! {

// ---------------------------------------------------------------------------
// Strings as character sequences
// ---------------------------------------------------------------------------

/// The characters of `s`, in order.
pub fn chars_of(s: &str) -> (v: Vec<char>)
    ensures
        v@ == s@,
{
    let mut v: Vec<char> = Vec::new();
    for c in it: s.chars()
        invariant
            v@ == it.seq().take(it.index() as int),
            it.seq() == s@,
    {
        v.push(c);
    }
    v
}

/// Builds a `String` out of the characters in `v` (std's `FromIterator<&char>` for `String`).
#[verifier::external_body]
pub(crate) fn string_from_chars(v: &[char]) -> (s: String)
    ensures
        s@ == v@,
{
    v.iter().collect()
}

/// Appends the characters of `s` to `out`.
pub fn push_str(out: &mut Vec<char>, s: &str)
    ensures
        final(out)@ == old(out)@ + s@,
{
    for c in it: s.chars()
        invariant
            out@ == old(out)@ + it.seq().take(it.index() as int),
            it.seq() == s@,
    {
        out.push(c);
        proof {
            assert(it.seq().take(it.index() + 1) == it.seq().take(it.index() as int).push(c));
        }
    }
}

/// Appends the characters of `s` to `out`.
pub fn push_chars(out: &mut Vec<char>, s: &[char])
    ensures
        final(out)@ == old(out)@ + s@,
{
    let mut i: usize = 0;
    while i < s.len()
        invariant
            i <= s@.len(),
            out@ == old(out)@ + s@.take(i as int),
        decreases s@.len() - i,
    {
        out.push(s[i]);
        proof {
            assert(s@.take(i + 1) == s@.take(i as int).push(s@[i as int]));
        }
        i = i + 1;
    }
    proof {
        assert(s@.take(s@.len() as int) == s@);
    }
}

/// The first `k` characters of `s`.
pub fn prefix_chars(s: &[char], k: usize) -> (r: Vec<char>)
    requires
        k <= s@.len(),
    ensures
        r@ == s@.take(k as int),
{
    let mut r: Vec<char> = Vec::new();
    let mut j: usize = 0;
    while j < k
        invariant
            j <= k <= s@.len(),
            r@ == s@.take(j as int),
        decreases k - j,
    {
        r.push(s[j]);
        proof {
            assert(s@.take(j + 1) == s@.take(j as int).push(s@[j as int]));
        }
        j = j + 1;
    }
    r
}

/// The characters of `s` from position `k` on.
pub fn suffix_chars(s: &[char], k: usize) -> (r: Vec<char>)
    requires
        k <= s@.len(),
    ensures
        r@ == s@.skip(k as int),
{
    let mut r: Vec<char> = Vec::new();
    let mut j: usize = k;
    while j < s.len()
        invariant
            k <= j <= s@.len(),
            r@ == s@.subrange(k as int, j as int),
        decreases s@.len() - j,
    {
        r.push(s[j]);
        proof {
            assert(s@.subrange(k as int, j + 1) == s@.subrange(k as int, j as int).push(s@[j as int]));
        }
        j = j + 1;
    }
    r
}

/// Whether two character sequences are equal.
pub fn chars_equal(a: &[char], b: &[char]) -> (r: bool)
    ensures
        r == (a@ == b@),
{
    if a.len() != b.len() {
        return false;
    }
    let mut i: usize = 0;
    while i < a.len()
        invariant
            a@.len() == b@.len(),
            i <= a@.len(),
            forall|j: int| 0 <= j < i ==> a@[j] == b@[j],
        decreases a@.len() - i,
    {
        if a[i] != b[i] {
            return false;
        }
        i = i + 1;
    }
    proof {
        assert(a@ =~= b@);
    }
    true
}

// ---------------------------------------------------------------------------
// UTF-8 byte lengths
// ---------------------------------------------------------------------------

/// Number of bytes in the UTF-8 encoding of `c`.
pub open spec fn utf8_width(c: char) -> nat {
    if (c as u32) < 0x80 {
        1
    } else if (c as u32) < 0x800 {
        2
    } else if (c as u32) < 0x10000 {
        3
    } else {
        4
    }
}

/// Number of bytes in the UTF-8 encoding of `s` (what `str::len` returns).
pub open spec fn byte_len(s: Seq<char>) -> nat
    decreases s.len(),
{
    if s.len() == 0 {
        0
    } else {
        byte_len(s.drop_last()) + utf8_width(s.last())
    }
}

proof fn lemma_width_is_scalar_len(c: char)
    ensures
        encode_scalar(c as u32).len() == utf8_width(c),
{
    broadcast use char_is_scalar;
    assert(is_scalar(c as u32));
}

proof fn lemma_byte_len_front(s: Seq<char>)
    requires
        s.len() > 0,
    ensures
        byte_len(s) == utf8_width(s[0]) + byte_len(s.drop_first()),
    decreases s.len(),
{
    if s.len() == 1 {
        assert(s.drop_last().len() == 0);
        assert(s.drop_first().len() == 0);
        assert(s.last() == s[0]);
        assert(byte_len(s.drop_last()) == 0);
        assert(byte_len(s.drop_first()) == 0);
    } else {
        lemma_byte_len_front(s.drop_last());
        assert(s.drop_last().drop_first() == s.drop_first().drop_last());
        assert(s.drop_last()[0] == s[0]);
        assert(s.drop_first().last() == s.last());
        assert(byte_len(s.drop_first()) == byte_len(s.drop_first().drop_last()) + utf8_width(
            s.drop_first().last(),
        ));
    }
}

/// `byte_len` is the length of the UTF-8 encoding that vstd gives `str` and `String`.
pub proof fn lemma_byte_len_is_encoded_len(s: Seq<char>)
    ensures
        byte_len(s) == encode_utf8(s).len(),
    decreases s.len(),
{
    if s.len() > 0 {
        lemma_byte_len_front(s);
        lemma_width_is_scalar_len(s[0]);
        lemma_byte_len_is_encoded_len(s.drop_first());
    }
}

/// A longer prefix never has fewer bytes.
pub proof fn lemma_byte_len_prefix_mono(s: Seq<char>, j: int, k: int)
    requires
        0 <= j <= k <= s.len(),
    ensures
        byte_len(s.take(j)) <= byte_len(s.take(k)),
    decreases k - j,
{
    if j < k {
        lemma_byte_len_prefix_mono(s, j, k - 1);
        assert(s.take(k).drop_last() == s.take(k - 1));
    }
}

/// Width of one character, in bytes.
pub fn char_width(c: char) -> (w: usize)
    ensures
        w == utf8_width(c),
        1 <= w <= 4,
{
    let u = c as u32;
    if u < 0x80 {
        1
    } else if u < 0x800 {
        2
    } else if u < 0x10000 {
        3
    } else {
        4
    }
}

/// Whether the UTF-8 encoding of `s` is longer than `limit` bytes.
pub fn byte_len_exceeds(s: &str, limit: usize) -> (r: bool)
    ensures
        r == (byte_len(s@) > limit),
{
    let mut total: usize = 0;
    for c in it: s.chars()
        invariant
            it.seq() == s@,
            total == byte_len(it.seq().take(it.index() as int)),
            total <= limit,
    {
        let ghost k = it.index();
        proof {
            assert(it.seq().take(k + 1).drop_last() == it.seq().take(k as int));
        }
        let w = char_width(c);
        if w > limit - total {
            proof {
                lemma_byte_len_prefix_mono(s@, k + 1, s@.len() as int);
                assert(s@.take(s@.len() as int) == s@);
            }
            return true;
        }
        total = total + w;
    }
    proof {
        assert(s@.take(s@.len() as int) == s@);
    }
    false
}

// ---------------------------------------------------------------------------
// Truncating to a byte length (`String::truncate`)
// ---------------------------------------------------------------------------

/// The longest prefix of `s` whose encoding has at most `n` bytes.
pub open spec fn prefix_within(s: Seq<char>, n: nat) -> Seq<char>
    decreases s.len(),
{
    if byte_len(s) <= n || s.len() == 0 {
        s
    } else {
        prefix_within(s.drop_last(), n)
    }
}

/// `String::truncate(n)` succeeds on `s`: either `s` is short enough already,
/// or byte `n` falls on a character boundary.
pub open spec fn truncates_cleanly(s: Seq<char>, n: nat) -> bool {
    byte_len(s) <= n || byte_len(prefix_within(s, n)) == n
}

/// What `String::truncate(n)` leaves of `s`.
pub open spec fn truncated(s: Seq<char>, n: nat) -> Seq<char> {
    prefix_within(s, n)
}

proof fn lemma_prefix_within_take(s: Seq<char>, n: nat, k: int)
    requires
        0 <= k <= s.len(),
        byte_len(s.take(k)) <= n,
        k == s.len() || byte_len(s.take(k + 1)) > n,
    ensures
        prefix_within(s, n) == s.take(k),
    decreases s.len(),
{
    if byte_len(s) <= n || s.len() == 0 {
        if k < s.len() {
            lemma_byte_len_prefix_mono(s, k + 1, s.len() as int);
            assert(s.take(s.len() as int) == s);
        }
        assert(s.take(k) == s);
    } else {
        if k == s.len() {
            assert(s.take(k) == s);
        }
        let t = s.drop_last();
        assert(t.take(k) == s.take(k));
        if k + 1 <= t.len() {
            assert(t.take(k + 1) == s.take(k + 1));
        }
        lemma_prefix_within_take(t, n, k);
    }
}

/// What truncation keeps is a prefix of at most `n` bytes.
pub proof fn lemma_truncated_fits(s: Seq<char>, n: nat)
    ensures
        byte_len(truncated(s, n)) <= n || truncated(s, n).len() == 0,
        truncated(s, n).is_prefix_of(s),
    decreases s.len(),
{
    if !(byte_len(s) <= n || s.len() == 0) {
        lemma_truncated_fits(s.drop_last(), n);
        let p = truncated(s.drop_last(), n);
        assert(p.is_prefix_of(s)) by {
            assert forall|i: int| 0 <= i < p.len() implies p[i] == s[i] by {
                assert(p[i] == s.drop_last()[i]);
            }
        }
    } else {
        assert(s.is_prefix_of(s));
    }
}

/// Whether `String::truncate(n)` would succeed on `s` (rather than panic).
pub fn cuts_cleanly(s: &[char], n: usize) -> (r: bool)
    ensures
        r == truncates_cleanly(s@, n as nat),
{
    let mut i: usize = 0;
    let mut total: usize = 0;
    let mut full = false;
    while i < s.len() && !full
        invariant
            i <= s@.len(),
            total == byte_len(s@.take(i as int)),
            total <= n,
            full ==> i < s@.len() && byte_len(s@.take(i + 1)) > n,
        decreases s@.len() - i, if full { 0int } else { 1int },
    {
        let w = char_width(s[i]);
        proof {
            assert(s@.take(i + 1).drop_last() == s@.take(i as int));
        }
        if w > n - total {
            full = true;
        } else {
            total = total + w;
            i = i + 1;
        }
    }
    proof {
        lemma_prefix_within_take(s@, n as nat, i as int);
        if full {
            lemma_byte_len_prefix_mono(s@, i + 1, s@.len() as int);
        }
        assert(s@.take(s@.len() as int) == s@);
    }
    !full || total == n
}

/// `String::truncate(n)` on a character sequence.
pub fn truncate_chars(s: &[char], n: usize) -> (r: Vec<char>)
    ensures
        r@ == truncated(s@, n as nat),
        byte_len(r@) <= n,
        r@.is_prefix_of(s@),
{
    let mut i: usize = 0;
    let mut total: usize = 0;
    let mut full = false;
    while i < s.len() && !full
        invariant
            i <= s@.len(),
            total == byte_len(s@.take(i as int)),
            total <= n,
            full ==> i < s@.len() && byte_len(s@.take(i + 1)) > n,
        decreases s@.len() - i, if full { 0int } else { 1int },
    {
        let w = char_width(s[i]);
        proof {
            assert(s@.take(i + 1).drop_last() == s@.take(i as int));
        }
        if w > n - total {
            full = true;
        } else {
            total = total + w;
            i = i + 1;
        }
    }
    proof {
        lemma_prefix_within_take(s@, n as nat, i as int);
    }
    prefix_chars(s, i)
}


// ---------------------------------------------------------------------------
// Line breaks (`replace('\n', "|").replace('\r', "")`)
// ---------------------------------------------------------------------------

/// `s` with every `'\n'` turned into `'|'` and every `'\r'` dropped.
pub open spec fn flatten_lines(s: Seq<char>) -> Seq<char>
    decreases s.len(),
{
    if s.len() == 0 {
        s
    } else {
        let front = flatten_lines(s.drop_last());
        if s.last() == '\r' {
            front
        } else if s.last() == '\n' {
            front.push('|')
        } else {
            front.push(s.last())
        }
    }
}

/// Replaces line feeds by `'|'` and removes carriage returns.
pub fn flatten_line_breaks(s: &[char]) -> (r: Vec<char>)
    ensures
        r@ == flatten_lines(s@),
{
    let mut r: Vec<char> = Vec::new();
    let mut i: usize = 0;
    while i < s.len()
        invariant
            i <= s@.len(),
            r@ == flatten_lines(s@.take(i as int)),
        decreases s@.len() - i,
    {
        let c = s[i];
        proof {
            assert(s@.take(i + 1).drop_last() == s@.take(i as int));
        }
        if c == '\r' {
        } else if c == '\n' {
            r.push('|');
        } else {
            r.push(c);
        }
        i = i + 1;
    }
    proof {
        assert(s@.take(s@.len() as int) == s@);
    }
    r
}

/// After flattening, no line break is left.
pub proof fn lemma_flatten_lines_has_no_breaks(s: Seq<char>)
    ensures
        forall|i: int|
            0 <= i < flatten_lines(s).len() ==> flatten_lines(s)[i] != '\n' && flatten_lines(s)[i]
                != '\r',
    decreases s.len(),
{
    if s.len() > 0 {
        let f = flatten_lines(s.drop_last());
        lemma_flatten_lines_has_no_breaks(s.drop_last());
        assert forall|i: int| 0 <= i < flatten_lines(s).len() implies flatten_lines(s)[i] != '\n'
            && flatten_lines(s)[i] != '\r' by {
            if i < f.len() {
                assert(flatten_lines(s)[i] == f[i]);
            }
        }
    }
}

/// Flattening line breaks never makes text longer in bytes.
pub proof fn lemma_flatten_lines_shrinks(s: Seq<char>)
    ensures
        byte_len(flatten_lines(s)) <= byte_len(s),
    decreases s.len(),
{
    if s.len() > 0 {
        lemma_flatten_lines_shrinks(s.drop_last());
        let f = flatten_lines(s.drop_last());
        if s.last() == '\n' {
            assert(flatten_lines(s).drop_last() == f);
            assert(flatten_lines(s).last() == '|');
        } else if s.last() != '\r' {
            assert(flatten_lines(s).drop_last() == f);
        }
    }
}

// ---------------------------------------------------------------------------
// Decimal numbers (`to_string` of integers)
// ---------------------------------------------------------------------------

/// The ASCII digit for `d`, where `0 <= d < 10`.
pub open spec fn digit_char(d: int) -> char {
    if d == 0 {
        '0'
    } else if d == 1 {
        '1'
    } else if d == 2 {
        '2'
    } else if d == 3 {
        '3'
    } else if d == 4 {
        '4'
    } else if d == 5 {
        '5'
    } else if d == 6 {
        '6'
    } else if d == 7 {
        '7'
    } else if d == 8 {
        '8'
    } else {
        '9'
    }
}

/// Decimal digits of `n`, most significant first, without leading zeros.
pub open spec fn nat_text(n: nat) -> Seq<char>
    decreases n,
{
    if n < 10 {
        seq![digit_char(n as int)]
    } else {
        nat_text(n / 10).push(digit_char((n % 10) as int))
    }
}

/// Decimal text of `i`, with a leading `'-'` when negative.
pub open spec fn int_text(i: int) -> Seq<char> {
    if i < 0 {
        seq!['-'] + nat_text((-i) as nat)
    } else {
        nat_text(i as nat)
    }
}

fn digit_of(d: u64) -> (c: char)
    requires
        d < 10,
    ensures
        c == digit_char(d as int),
{
    if d == 0 {
        '0'
    } else if d == 1 {
        '1'
    } else if d == 2 {
        '2'
    } else if d == 3 {
        '3'
    } else if d == 4 {
        '4'
    } else if d == 5 {
        '5'
    } else if d == 6 {
        '6'
    } else if d == 7 {
        '7'
    } else if d == 8 {
        '8'
    } else {
        '9'
    }
}

fn push_digits(n: u64, out: &mut Vec<char>)
    ensures
        final(out)@ == old(out)@ + nat_text(n as nat),
    decreases n,
{
    if n >= 10 {
        push_digits(n / 10, out);
    }
    out.push(digit_of(n % 10));
}

/// Decimal text of a `u64`, as `to_string` writes it.
pub fn u64_text(n: u64) -> (r: Vec<char>)
    ensures
        r@ == nat_text(n as nat),
{
    let mut r: Vec<char> = Vec::new();
    push_digits(n, &mut r);
    r
}

/// Decimal text of an `i64`, as `to_string` writes it.
pub fn i64_text(n: i64) -> (r: Vec<char>)
    ensures
        r@ == int_text(n as int),
{
    let mut r: Vec<char> = Vec::new();
    if n < 0 {
        r.push('-');
        let m: u64 = if n == i64::MIN {
            9223372036854775808u64
        } else {
            (-n) as u64
        };
        push_digits(m, &mut r);
    } else {
        push_digits(n as u64, &mut r);
    }
    r
}

/// Decimal text of an `i32`, as `to_string` writes it.
pub fn i32_text(n: i32) -> (r: Vec<char>)
    ensures
        r@ == int_text(n as int),
{
    i64_text(n as i64)
}

// ---------------------------------------------------------------------------
// Parsing integers (`i32::from_str`)
// ---------------------------------------------------------------------------

/// Whether `c` is an ASCII decimal digit.
pub open spec fn is_digit(c: char) -> bool {
    '0' <= c <= '9'
}

/// The value of a string of decimal digits.
pub open spec fn digits_value(s: Seq<char>) -> int
    decreases s.len(),
{
    if s.len() == 0 {
        0
    } else {
        digits_value(s.drop_last()) * 10 + (s.last() as int - '0' as int)
    }
}

/// Whether every character of `s` is an ASCII digit.
pub open spec fn all_digits(s: Seq<char>) -> bool {
    forall|i: int| 0 <= i < s.len() ==> is_digit(#[trigger] s[i])
}

/// `s` without a leading `'+'` or `'-'`.
pub open spec fn unsigned_part(s: Seq<char>) -> Seq<char> {
    if s.len() > 0 && (s[0] == '-' || s[0] == '+') {
        s.drop_first()
    } else {
        s
    }
}

/// What `i32::from_str` gives for `s`: an optional `'+'` or `'-'`, then one or
/// more ASCII digits, whose value must fit in an `i32`; anything else is an error.
pub open spec fn parse_i32(s: Seq<char>) -> Option<i32> {
    let body = unsigned_part(s);
    let value = if s.len() > 0 && s[0] == '-' {
        -digits_value(body)
    } else {
        digits_value(body)
    };
    if body.len() == 0 || !all_digits(body) {
        None
    } else if i32::MIN <= value <= i32::MAX {
        Some(value as i32)
    } else {
        None
    }
}

proof fn lemma_digits_value_nonneg(s: Seq<char>)
    requires
        forall|i: int| 0 <= i < s.len() ==> is_digit(#[trigger] s[i]),
    ensures
        0 <= digits_value(s),
    decreases s.len(),
{
    if s.len() > 0 {
        let t = s.drop_last();
        assert forall|i: int| 0 <= i < t.len() implies is_digit(#[trigger] t[i]) by {
            assert(t[i] == s[i]);
        }
        lemma_digits_value_nonneg(t);
        assert(is_digit(s[s.len() - 1]));
    }
}

/// `i32::from_str`.
pub fn parse_i32_chars(s: &[char]) -> (r: Option<i32>)
    ensures
        r == parse_i32(s@),
{
    let n = s.len();
    let negative = n > 0 && s[0] == '-';
    let signed = n > 0 && (s[0] == '-' || s[0] == '+');
    let start: usize = if signed {
        1
    } else {
        0
    };
    let ghost body = if signed {
        s@.drop_first()
    } else {
        s@
    };
    if start >= n {
        return None;
    }
    let mut i: usize = start;
    let mut acc: i64 = 0;
    let mut too_big = false;
    let mut bad = false;
    while i < n
        invariant
            start <= i <= n,
            n == s@.len(),
            body == s@.subrange(start as int, n as int),
            !bad ==> forall|j: int| 0 <= j < i - start ==> is_digit(#[trigger] body[j]),
            bad ==> exists|j: int| 0 <= j < body.len() && !is_digit(#[trigger] body[j]),
            !bad && !too_big ==> acc == digits_value(body.take(i - start)),
            !bad && !too_big ==> acc <= 2147483648,
            0 <= acc <= 21474836489,
            !bad && too_big ==> digits_value(body.take(i - start)) > 2147483648,
        decreases n - i,
    {
        let c = s[i];
        proof {
            assert(body[i - start] == c);
            assert(body.take(i - start + 1).drop_last() == body.take(i - start));
        }
        if !bad {
            if '0' <= c && c <= '9' {
                let d = (c as u32 - '0' as u32) as i64;
                if !too_big {
                    acc = acc * 10 + d;
                    if acc > 2147483648 {
                        too_big = true;
                    }
                } else {
                    proof {
                        assert forall|j: int| 0 <= j < i - start + 1 implies is_digit(
                            #[trigger] body.take(i - start + 1)[j],
                        ) by {
                            assert(body.take(i - start + 1)[j] == body[j]);
                        }
                        lemma_digits_value_nonneg(body.take(i - start));
                    }
                }
            } else {
                assert(!is_digit(body[i - start]));
                bad = true;
            }
        }
        i = i + 1;
    }
    proof {
        assert(body.take(n - start) == body);
    }
    if bad {
        proof {
            let j = choose|j: int| 0 <= j < body.len() && !is_digit(#[trigger] body[j]);
            assert(!is_digit(body[j]));

        }
        return None;
    }
    if too_big {
        proof {
            assert(digits_value(body) > 2147483648);
            assert(forall|j: int| 0 <= j < body.len() ==> is_digit(#[trigger] body[j]));
            assert(body.len() > 0);
        }
        return None;
    }
    let v: i64 = if negative {
        -acc
    } else {
        acc
    };
    if v < -2147483648 || v > 2147483647 {
        None
    } else {
        Some(v as i32)
    }
}

// ---------------------------------------------------------------------------
// Splitting and joining words
// ---------------------------------------------------------------------------

/// The character sequences of a list of strings.
pub open spec fn views(v: Seq<String>) -> Seq<Seq<char>> {
    v.map_values(|t: String| t@)
}

/// The pieces of `s` between occurrences of `sep`, as `str::split(sep)` yields
/// them: empty pieces are kept, and there is always at least one piece.
pub open spec fn split_on(s: Seq<char>, sep: char) -> Seq<Seq<char>>
    decreases s.len(),
{
    if s.len() == 0 {
        seq![Seq::<char>::empty()]
    } else {
        let parts = split_on(s.drop_last(), sep);
        if s.last() == sep {
            parts.push(Seq::<char>::empty())
        } else {
            parts.update(parts.len() - 1, parts.last().push(s.last()))
        }
    }
}

/// The pieces in `parts`, with `sep` between each two (`[String]::join`).
pub open spec fn join_with(parts: Seq<Seq<char>>, sep: Seq<char>) -> Seq<char>
    decreases parts.len(),
{
    if parts.len() == 0 {
        Seq::<char>::empty()
    } else if parts.len() == 1 {
        parts[0]
    } else {
        join_with(parts.drop_last(), sep) + sep + parts.last()
    }
}

/// `split_on` never yields an empty list, and no piece holds the separator.
pub proof fn lemma_split_on_shape(s: Seq<char>, sep: char)
    ensures
        split_on(s, sep).len() >= 1,
        forall|i: int, j: int|
            0 <= i < split_on(s, sep).len() && 0 <= j < split_on(s, sep)[i].len() ==> split_on(
                s,
                sep,
            )[i][j] != sep,
    decreases s.len(),
{
    if s.len() > 0 {
        lemma_split_on_shape(s.drop_last(), sep);
        let parts = split_on(s.drop_last(), sep);
        if s.last() != sep {
            let q = split_on(s, sep);
            assert forall|i: int, j: int| 0 <= i < q.len() && 0 <= j < q[i].len() implies q[i][j]
                != sep by {
                if i < parts.len() - 1 {
                    assert(q[i] == parts[i]);
                } else {
                    assert(q[i] == parts.last().push(s.last()));
                    if j < parts.last().len() {
                        assert(q[i][j] == parts[parts.len() - 1][j]);
                    }
                }
            }
        } else {
            let q = split_on(s, sep);
            assert forall|i: int, j: int| 0 <= i < q.len() && 0 <= j < q[i].len() implies q[i][j]
                != sep by {
                if i < parts.len() {
                    assert(q[i] == parts[i]);
                }
            }
        }
    }
}

/// Joining the pieces of a split with the same separator gives back the text.
pub proof fn lemma_join_split(s: Seq<char>, sep: char)
    ensures
        join_with(split_on(s, sep), seq![sep]) == s,
    decreases s.len(),
{
    if s.len() > 0 {
        let t = s.drop_last();
        let parts = split_on(t, sep);
        lemma_split_on_shape(t, sep);
        lemma_join_split(t, sep);
        let q = split_on(s, sep);
        if s.last() == sep {
            assert(q.drop_last() == parts);
            assert(join_with(q, seq![sep]) == t + seq![sep] + Seq::<char>::empty());
            assert(t + seq![sep] + Seq::<char>::empty() =~= s);
        } else {
            if parts.len() == 1 {
                assert(q[0] == parts[0].push(s.last()));
                assert(join_with(parts, seq![sep]) == parts[0]);
                assert(parts[0].push(s.last()) =~= s);
            } else {
                assert(q.drop_last() == parts.drop_last());
                assert(q.last() == parts.last().push(s.last()));
                let front = join_with(parts.drop_last(), seq![sep]);
                assert(join_with(parts, seq![sep]) == front + seq![sep] + parts.last());
                assert(front + seq![sep] + parts.last().push(s.last()) =~= (front + seq![sep]
                    + parts.last()).push(s.last()));
                assert(t.push(s.last()) =~= s);
            }
        }
    }
}

/// Text without the separator is a single piece.
pub proof fn lemma_split_on_single(a: Seq<char>, sep: char)
    requires
        !a.contains(sep),
    ensures
        split_on(a, sep) == seq![a],
    decreases a.len(),
{
    if a.len() > 0 {
        let t = a.drop_last();
        assert(!t.contains(sep)) by {
            if t.contains(sep) {
                let k = choose|k: int| 0 <= k < t.len() && t[k] == sep;
                assert(a[k] == sep);
            }
        }
        lemma_split_on_single(t, sep);
        assert(a.last() != sep) by {
            assert(a[a.len() - 1] == a.last());
        }
        assert(t.push(a.last()) =~= a);
        assert(seq![t].update(0, t.push(a.last())) =~= seq![a]);
        assert(a.drop_last() == t);
    } else {
        assert(a =~= Seq::<char>::empty());
    }
}

/// Splitting text that starts with a piece `a` and a separator gives `a`,
/// then the pieces of the rest.
pub proof fn lemma_split_on_first_piece(a: Seq<char>, sep: char, b: Seq<char>)
    requires
        !a.contains(sep),
    ensures
        split_on(a + seq![sep] + b, sep) == seq![a] + split_on(b, sep),
    decreases b.len(),
{
    if b.len() == 0 {
        lemma_split_on_single(a, sep);
        assert(a + seq![sep] + b =~= a.push(sep));
        assert((a + seq![sep] + b).drop_last() =~= a);
        assert(seq![a] + split_on(b, sep) =~= seq![a, Seq::<char>::empty()]);
    } else {
        let b1 = b.drop_last();
        let x = b.last();
        lemma_split_on_first_piece(a, sep, b1);
        lemma_split_on_shape(b1, sep);
        let whole = a + seq![sep] + b;
        assert(whole.drop_last() =~= a + seq![sep] + b1);
        assert(whole.last() == x);
        let p = split_on(b1, sep);
        if x == sep {
            assert(seq![a] + p.push(Seq::<char>::empty()) =~= (seq![a] + p).push(Seq::<char>::empty()));
        } else {
            let q = seq![a] + p;
            assert(q.last() == p.last());
            assert(seq![a] + p.update(p.len() - 1, p.last().push(x)) =~= q.update(
                q.len() - 1,
                q.last().push(x),
            ));
        }
    }
}

/// `str::split(' ')`, collected into strings.
pub fn split_spaces(s: &[char]) -> (words: Vec<String>)
    ensures
        views(words@) == split_on(s@, ' '),
{
    split_chars(s, ' ')
}

/// `str::split(sep)`, collected into strings.
pub fn split_chars(s: &[char], sep: char) -> (words: Vec<String>)
    ensures
        views(words@) == split_on(s@, sep),
{
    let mut words: Vec<String> = Vec::new();
    let mut cur: Vec<char> = Vec::new();
    let mut i: usize = 0;
    while i < s.len()
        invariant
            i <= s@.len(),
            views(words@) + seq![cur@] == split_on(s@.take(i as int), sep),
        decreases s@.len() - i,
    {
        let ghost before = split_on(s@.take(i as int), sep);
        proof {
            assert(s@.take(i + 1).drop_last() == s@.take(i as int));
            assert(s@.take(i + 1).last() == s@[i as int]);
        }
        let c = s[i];
        if c == sep {
            let w = string_from_chars(&cur);
            words.push(w);
            cur = Vec::new();
            proof {
                assert(views(words@) =~= before);
                assert(views(words@) + seq![cur@] =~= before.push(Seq::<char>::empty()));
            }
        } else {
            let ghost old_cur = cur@;
            cur.push(c);
            proof {
                assert(before.last() == old_cur);
                assert(views(words@) + seq![cur@] =~= before.update(
                    before.len() - 1,
                    before.last().push(c),
                ));
            }
        }
        i = i + 1;
    }
    proof {
        assert(s@.take(s@.len() as int) == s@);
    }
    let w = string_from_chars(&cur);
    words.push(w);
    proof {
        assert(views(words@) =~= split_on(s@, sep));
    }
    words
}

/// `words.join(sep)`, for a separator of one character.
pub fn join_texts(words: &[String], sep: char) -> (r: Vec<char>)
    ensures
        r@ == join_with(views(words@), seq![sep]),
{
    let mut r: Vec<char> = Vec::new();
    let mut i: usize = 0;
    while i < words.len()
        invariant
            i <= words@.len(),
            r@ == join_with(views(words@.take(i as int)), seq![sep]),
        decreases words@.len() - i,
    {
        let ghost front = views(words@.take(i as int));
        proof {
            assert(views(words@.take(i + 1)).drop_last() =~= front);
            assert(views(words@.take(i + 1)).last() == words@[i as int]@);
        }
        if i > 0 {
            r.push(sep);
        } else {
            proof {
                assert(r@ =~= Seq::<char>::empty());
            }
        }
        push_str(&mut r, words[i].as_str());
        i = i + 1;
    }
    proof {
        assert(words@.take(words@.len() as int) == words@);
    }
    r
}

/// `[String]::join(" ")`.
pub fn join_words(words: &[String]) -> (r: Vec<char>)
    ensures
        r@ == join_with(views(words@), seq![' ']),
{
    join_texts(words, ' ')
}

// ---------------------------------------------------------------------------
// Trimming white space (`str::trim`)
// ---------------------------------------------------------------------------

/// Whether `c` has the Unicode property `White_Space` (what `char::is_whitespace`
/// tests).
pub open spec fn is_white_space(c: char) -> bool {
    ||| '\u{9}' <= c <= '\u{d}'
    ||| c == ' '
    ||| c == '\u{85}'
    ||| c == '\u{a0}'
    ||| c == '\u{1680}'
    ||| '\u{2000}' <= c <= '\u{200a}'
    ||| c == '\u{2028}'
    ||| c == '\u{2029}'
    ||| c == '\u{202f}'
    ||| c == '\u{205f}'
    ||| c == '\u{3000}'
}

/// `s` without its leading white space.
pub open spec fn trim_start(s: Seq<char>) -> Seq<char>
    decreases s.len(),
{
    if s.len() > 0 && is_white_space(s[0]) {
        trim_start(s.drop_first())
    } else {
        s
    }
}

/// `s` without its trailing white space.
pub open spec fn trim_end(s: Seq<char>) -> Seq<char>
    decreases s.len(),
{
    if s.len() > 0 && is_white_space(s.last()) {
        trim_end(s.drop_last())
    } else {
        s
    }
}

/// `s` without leading and trailing white space.
pub open spec fn trimmed(s: Seq<char>) -> Seq<char> {
    trim_end(trim_start(s))
}

fn white_space(c: char) -> (r: bool)
    ensures
        r == is_white_space(c),
{
    ('\u{9}' <= c && c <= '\u{d}') || c == ' ' || c == '\u{85}' || c == '\u{a0}' || c
        == '\u{1680}' || ('\u{2000}' <= c && c <= '\u{200a}') || c == '\u{2028}' || c
        == '\u{2029}' || c == '\u{202f}' || c == '\u{205f}' || c == '\u{3000}'
}

/// `str::trim`.
pub fn trim_chars(s: &[char]) -> (r: Vec<char>)
    ensures
        r@ == trimmed(s@),
{
    let n = s.len();
    let mut i: usize = 0;
    proof {
        assert(s@.skip(0) == s@);
    }
    while i < n && white_space(s[i])
        invariant
            n == s@.len(),
            i <= n,
            trim_start(s@) == trim_start(s@.skip(i as int)),
        decreases n - i,
    {
        proof {
            assert(s@.skip(i as int).drop_first() == s@.skip(i + 1));
            assert(s@.skip(i as int)[0] == s@[i as int]);
        }
        i = i + 1;
    }
    let t = suffix_chars(s, i);
    proof {
        if i == n {
            assert(s@.skip(i as int).len() == 0);
        } else {
            assert(s@.skip(i as int)[0] == s@[i as int]);
        }
        assert(trim_start(s@) == t@);
    }
    let mut j: usize = t.len();
    proof {
        assert(t@.take(j as int) == t@);
    }
    while j > 0 && white_space(t[j - 1])
        invariant
            j <= t@.len(),
            trim_end(t@) == trim_end(t@.take(j as int)),
        decreases j,
    {
        proof {
            assert(t@.take(j as int).drop_last() == t@.take(j - 1));
            assert(t@.take(j as int).last() == t@[j - 1]);
        }
        j = j - 1;
    }
    proof {
        if j > 0 {
            assert(t@.take(j as int).last() == t@[j - 1]);
        }
    }
    prefix_chars(t.as_slice(), j)
}

} // verus!
