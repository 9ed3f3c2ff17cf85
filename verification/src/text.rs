//! Text helpers shared by the renderers, the compression middleware and the
//! session naming rules.
use vstd::prelude::*;
use vstd::string::StrSliceExecFns;
use vstd::string::StringExecFns;

verus! {

broadcast use vstd::string::group_string_axioms;

/// `String::push` appends one character.
pub assume_specification[ String::push ](s: &mut String, ch: char)
    ensures
        final(s)@ == old(s)@.push(ch),
;

/// The character of a decimal digit `d` (0 to 9).
pub open spec fn digit_char(d: int) -> char {
    if d == 0 { '0' }
    else if d == 1 { '1' }
    else if d == 2 { '2' }
    else if d == 3 { '3' }
    else if d == 4 { '4' }
    else if d == 5 { '5' }
    else if d == 6 { '6' }
    else if d == 7 { '7' }
    else if d == 8 { '8' }
    else { '9' }
}

/// Decimal representation of `n`, without sign or leading zeros.
pub open spec fn decimal(n: nat) -> Seq<char>
    decreases n,
{
    if n < 10 {
        seq![digit_char(n as int)]
    } else {
        decimal(n / 10).push(digit_char((n % 10) as int))
    }
}

/// Sequence of `k` zero characters.
pub open spec fn zeros(k: nat) -> Seq<char> {
    Seq::new(k, |i: int| '0')
}

/// Decimal representation of `n`, left-padded with zeros to at least `width` characters.
pub open spec fn decimal_padded(n: nat, width: nat) -> Seq<char> {
    let d = decimal(n);
    if d.len() < width {
        zeros((width - d.len()) as nat) + d
    } else {
        d
    }
}

fn digit(d: u64) -> (c: char)
    requires
        d < 10,
    ensures
        c == digit_char(d as int),
{
    if d == 0 { '0' }
    else if d == 1 { '1' }
    else if d == 2 { '2' }
    else if d == 3 { '3' }
    else if d == 4 { '4' }
    else if d == 5 { '5' }
    else if d == 6 { '6' }
    else if d == 7 { '7' }
    else if d == 8 { '8' }
    else { '9' }
}

/// Appends the decimal representation of `n` to `out`.
pub fn push_decimal(out: &mut String, n: u64)
    ensures
        final(out)@ == old(out)@ + decimal(n as nat),
    decreases n,
{
    if n >= 10 {
        push_decimal(out, n / 10);
    }
    out.push(digit(n % 10));
    proof {
        assert(old(out)@ + decimal(n as nat) =~= (if n >= 10 {
            old(out)@ + decimal((n / 10) as nat)
        } else {
            old(out)@
        }).push(digit_char((n % 10) as int)));
    }
}

/// The decimal representation of `n`, as `n.to_string()` gives it.
pub fn decimal_string(n: u64) -> (s: String)
    ensures
        s@ == decimal(n as nat),
{
    let mut s = String::new();
    push_decimal(&mut s, n);
    proof {
        assert(s@ =~= decimal(n as nat));
    }
    s
}


/// Appends `n` in decimal, left-padded with zeros to `width` characters.
pub fn push_decimal_padded(out: &mut String, n: u64, width: usize)
    ensures
        final(out)@ == old(out)@ + decimal_padded(n as nat, width as nat),
{
    let digits = decimal_string(n);
    let len = digits.as_str().unicode_len();
    if len < width {
        let mut i: usize = 0;
        while i < width - len
            invariant
                i <= width - len,
                len < width,
                out@ == old(out)@ + zeros(i as nat),
            decreases width - len - i,
        {
            out.push('0');
            i = i + 1;
            proof {
                assert(zeros(i as nat) =~= zeros((i - 1) as nat).push('0'));
            }
        }
    }
    out.append(digits.as_str());
    proof {
        assert(out@ =~= old(out)@ + decimal_padded(n as nat, width as nat));
    }
}

/// The characters of `s`, in order.
pub fn chars_of(s: &str) -> (v: Vec<char>)
    ensures
        v@ == s@,
{
    let mut v: Vec<char> = Vec::new();
    let mut it = s.chars();
    loop
        invariant
            v@ + vstd::std_specs::iter::IteratorSpec::remaining(&it) == s@,
            vstd::std_specs::iter::IteratorSpec::decrease(&it) is Some,
        decreases vstd::std_specs::iter::IteratorSpec::decrease(&it)->0,
    {
        match it.next() {
            Some(c) => {
                v.push(c);
                proof {
                    assert(v@ + vstd::std_specs::iter::IteratorSpec::remaining(&it) =~= s@);
                }
            },
            None => {
                proof {
                    assert(v@ =~= s@);
                }
                return v;
            },
        }
    }
}

/// A string made of the characters `chars[from..to]`.
pub fn string_from_chars(chars: &Vec<char>, from: usize, to: usize) -> (s: String)
    requires
        from <= to <= chars.len(),
    ensures
        s@ == chars@.subrange(from as int, to as int),
{
    let mut s = String::new();
    let mut i = from;
    while i < to
        invariant
            from <= i <= to <= chars.len(),
            s@ == chars@.subrange(from as int, i as int),
        decreases to - i,
    {
        s.push(chars[i]);
        i = i + 1;
        proof {
            assert(s@ =~= chars@.subrange(from as int, i as int));
        }
    }
    s
}

/// `s` cut to its first `max` characters, followed by `marker`, when it has more
/// than `max` characters; `s` itself otherwise.
pub open spec fn truncated(s: Seq<char>, max: nat, marker: Seq<char>) -> Seq<char> {
    if s.len() <= max {
        s
    } else {
        s.take(max as int) + marker
    }
}

/// Keeps at most `max` characters of `s`; when characters were cut, `marker` follows.
pub fn truncate_with(s: &str, max: usize, marker: &str) -> (r: String)
    ensures
        r@ == truncated(s@, max as nat, marker@),
{
    let chars = chars_of(s);
    if chars.len() <= max {
        string_from_chars(&chars, 0, chars.len())
    } else {
        let mut r = string_from_chars(&chars, 0, max);
        r.append(marker);
        r
    }
}

/// Cut `s` to `max_chars` characters, adding `...` when truncated.
pub fn truncate_str(s: &str, max_chars: usize) -> (r: String)
    ensures
        r@ == truncated(s@, max_chars as nat, "..."@),
{
    truncate_with(s, max_chars, "...")
}

/// Whether `c` has the Unicode `White_Space` property: the 25 code points
/// U+0009 to U+000D, U+0020, U+0085, U+00A0, U+1680, U+2000 to U+200A,
/// U+2028, U+2029, U+202F, U+205F and U+3000.
pub open spec fn unicode_whitespace(c: char) -> bool {
    ||| '\u{9}' <= c && c <= '\u{D}'
    ||| c == '\u{20}'
    ||| c == '\u{85}'
    ||| c == '\u{A0}'
    ||| c == '\u{1680}'
    ||| '\u{2000}' <= c && c <= '\u{200A}'
    ||| c == '\u{2028}'
    ||| c == '\u{2029}'
    ||| c == '\u{202F}'
    ||| c == '\u{205F}'
    ||| c == '\u{3000}'
}

/// `char::is_whitespace` decides the Unicode `White_Space` property of its
/// argument, as its documentation says.
pub assume_specification[ char::is_whitespace ](c: char) -> (b: bool)
    ensures
        b == unicode_whitespace(c),
;

/// `s` without its leading whitespace.
pub open spec fn trim_start(s: Seq<char>) -> Seq<char>
    decreases s.len(),
{
    if s.len() > 0 && unicode_whitespace(s[0]) {
        trim_start(s.drop_first())
    } else {
        s
    }
}

/// `s` without its trailing whitespace.
pub open spec fn trim_end(s: Seq<char>) -> Seq<char>
    decreases s.len(),
{
    if s.len() > 0 && unicode_whitespace(s.last()) {
        trim_end(s.drop_last())
    } else {
        s
    }
}

/// `s` without leading and trailing whitespace, as `str::trim` gives it.
pub open spec fn trimmed(s: Seq<char>) -> Seq<char> {
    trim_end(trim_start(s))
}

proof fn lemma_trim_start_skip(s: Seq<char>, i: int)
    requires
        0 <= i <= s.len(),
        forall|j: int| 0 <= j < i ==> unicode_whitespace(#[trigger] s[j]),
    ensures
        trim_start(s) == trim_start(s.subrange(i, s.len() as int)),
    decreases i,
{
    if i > 0 {
        assert(s.drop_first().subrange(i - 1, s.drop_first().len() as int) =~= s.subrange(
            i,
            s.len() as int,
        ));
        lemma_trim_start_skip(s.drop_first(), i - 1);
    } else {
        assert(s.subrange(0, s.len() as int) =~= s);
    }
}

proof fn lemma_trim_end_cut(s: Seq<char>, k: int)
    requires
        0 <= k <= s.len(),
        forall|j: int| k <= j < s.len() ==> unicode_whitespace(#[trigger] s[j]),
    ensures
        trim_end(s) == trim_end(s.subrange(0, k)),
    decreases s.len() - k,
{
    if k < s.len() {
        assert(s.drop_last().subrange(0, k) =~= s.subrange(0, k));
        lemma_trim_end_cut(s.drop_last(), k);
    } else {
        assert(s.subrange(0, k) =~= s);
    }
}

/// `s` without leading and trailing whitespace.
pub fn trim_string(s: &str) -> (r: String)
    ensures
        r@ == trimmed(s@),
{
    let chars = chars_of(s);
    let n = chars.len();
    let mut a: usize = 0;
    while a < n && chars[a].is_whitespace()
        invariant
            a <= n == chars@.len(),
            forall|j: int| 0 <= j < a ==> unicode_whitespace(#[trigger] chars@[j]),
        decreases n - a,
    {
        a = a + 1;
    }
    proof {
        lemma_trim_start_skip(chars@, a as int);
    }
    let ghost rest = chars@.subrange(a as int, n as int);
    assert(a == n || !unicode_whitespace(rest[0]));
    assert(trim_start(chars@) == rest);
    let mut b: usize = n;
    while b > a && chars[b - 1].is_whitespace()
        invariant
            a <= b <= n == chars@.len(),
            forall|j: int| b <= j < n ==> unicode_whitespace(#[trigger] chars@[j]),
        decreases b - a,
    {
        b = b - 1;
    }
    proof {
        let t = chars@.subrange(a as int, b as int);
        assert forall|j: int| (b - a) <= j < rest.len() implies unicode_whitespace(
            #[trigger] rest[j],
        ) by {
            assert(rest[j] == chars@[a + j]);
        }
        lemma_trim_end_cut(rest, (b - a) as int);
        assert(rest.subrange(0, (b - a) as int) =~= t);
        if b > a {
            assert(t.last() == chars@[b - 1]);
        }
        assert(trim_end(t) == t);
    }
    string_from_chars(&chars, a, b)
}


/// `parts` joined with `sep` between consecutive parts.
pub open spec fn join(parts: Seq<Seq<char>>, sep: Seq<char>) -> Seq<char>
    decreases parts.len(),
{
    if parts.len() == 0 {
        Seq::empty()
    } else if parts.len() == 1 {
        parts[0]
    } else {
        join(parts.drop_last(), sep) + sep + parts.last()
    }
}

/// The views of a sequence of strings.
pub open spec fn views(parts: Seq<String>) -> Seq<Seq<char>> {
    parts.map_values(|p: String| p@)
}

/// Joins `parts` with `sep`, as `slice::join` does.
pub fn join_strings(parts: &Vec<String>, sep: &str) -> (r: String)
    ensures
        r@ == join(views(parts@), sep@),
{
    let mut r = String::new();
    let mut i: usize = 0;
    while i < parts.len()
        invariant
            i <= parts.len(),
            r@ == join(views(parts@).take(i as int), sep@),
        decreases parts.len() - i,
    {
        let ghost prev = views(parts@).take(i as int);
        if i > 0 {
            r.append(sep);
        }
        r.append(parts[i].as_str());
        i = i + 1;
        proof {
            let cur = views(parts@).take(i as int);
            assert(cur.drop_last() =~= prev);
            assert(cur.last() == parts@[i - 1]@);
            if i == 1 {
                assert(r@ =~= join(cur, sep@));
            }
        }
    }
    proof {
        assert(views(parts@).take(parts@.len() as int) =~= views(parts@));
    }
    r
}


/// Length in UTF-8 bytes of a string, as `str::len` returns it.
pub open spec fn byte_len(t: Seq<char>) -> usize {
    vstd::utf8::encode_utf8(t).len() as usize
}

/// Whether `s` begins with `p`.
pub open spec fn has_prefix(s: Seq<char>, p: Seq<char>) -> bool {
    p.len() <= s.len() && s.take(p.len() as int) == p
}

/// Whether `s` ends with `p`.
pub open spec fn has_suffix(s: Seq<char>, p: Seq<char>) -> bool {
    p.len() <= s.len() && s.skip(s.len() - p.len()) == p
}

/// Whether `s[at..at + p.len()] == p`.
pub fn chars_match_at(s: &Vec<char>, at: usize, p: &Vec<char>) -> (b: bool)
    requires
        at <= s@.len(),
    ensures
        b == (at + p@.len() <= s@.len() && s@.subrange(at as int, at + p@.len()) == p@),
{
    if p.len() > s.len() - at {
        return false;
    }
    let n = s.len();
    let mut i: usize = 0;
    while i < p.len()
        invariant
            n == s@.len(),
            at + p@.len() <= n,
            i <= p@.len(),
            forall|j: int| 0 <= j < i ==> s@[at + j] == p@[j],
        decreases p@.len() - i,
    {
        if s[at + i] != p[i] {
            assert(s@.subrange(at as int, at + p@.len())[i as int] != p@[i as int]);
            return false;
        }
        i = i + 1;
    }
    assert(s@.subrange(at as int, at + p@.len()) =~= p@);
    true
}

/// Whether `s` begins with `p`.
pub fn starts_with(s: &str, p: &str) -> (b: bool)
    ensures
        b == has_prefix(s@, p@),
{
    let sc = chars_of(s);
    let pc = chars_of(p);
    let b = chars_match_at(&sc, 0, &pc);
    proof {
        if b {
            assert(sc@.take(pc@.len() as int) =~= sc@.subrange(0, pc@.len() as int));
        } else if pc@.len() <= sc@.len() {
            assert(sc@.take(pc@.len() as int) =~= sc@.subrange(0, pc@.len() as int));
        }
    }
    b
}

/// Whether `s` ends with `p`.
pub fn ends_with(s: &str, p: &str) -> (b: bool)
    ensures
        b == has_suffix(s@, p@),
{
    let sc = chars_of(s);
    let pc = chars_of(p);
    if pc.len() > sc.len() {
        return false;
    }
    let b = chars_match_at(&sc, sc.len() - pc.len(), &pc);
    proof {
        assert(sc@.skip(sc@.len() - pc@.len()) =~= sc@.subrange(
            sc@.len() - pc@.len(),
            sc@.len() as int,
        ));
    }
    b
}

/// Whether `c` occurs in `s`.
pub fn contains_char(s: &str, c: char) -> (b: bool)
    ensures
        b == s@.contains(c),
{
    let sc = chars_of(s);
    let mut i: usize = 0;
    while i < sc.len()
        invariant
            i <= sc@.len(),
            sc@ == s@,
            forall|j: int| 0 <= j < i ==> sc@[j] != c,
        decreases sc@.len() - i,
    {
        if sc[i] == c {
            assert(s@[i as int] == c);
            return true;
        }
        i = i + 1;
    }
    false
}

/// Whether `s` holds two consecutive dots.
pub open spec fn has_double_dot(s: Seq<char>) -> bool {
    exists|i: int| 0 <= i < s.len() - 1 && #[trigger] s[i] == '.' && s[i + 1] == '.'
}

/// Whether `s` contains `..`.
pub fn contains_double_dot(s: &str) -> (b: bool)
    ensures
        b == has_double_dot(s@),
{
    let sc = chars_of(s);
    let mut i: usize = 0;
    while i < sc.len()
        invariant
            sc@ == s@,
            i <= sc@.len(),
            forall|j: int| 0 <= j < i && j < sc@.len() - 1 ==> !(#[trigger] sc@[j] == '.' && sc@[j + 1] == '.'),
        decreases sc@.len() - i,
    {
        if i + 1 < sc.len() && sc[i] == '.' && sc[i + 1] == '.' {
            return true;
        }
        i = i + 1;
    }
    false
}


/// Whether two strings hold the same characters.
pub fn text_equals(a: &str, b: &str) -> (r: bool)
    ensures
        r == (a@ == b@),
{
    let ac = chars_of(a);
    let bc = chars_of(b);
    if ac.len() != bc.len() {
        return false;
    }
    let m = chars_match_at(&ac, 0, &bc);
    proof {
        assert(ac@.subrange(0, ac@.len() as int) =~= ac@);
    }
    m
}

/// Sequence of `k` spaces.
pub open spec fn spaces(k: nat) -> Seq<char> {
    Seq::new(k, |i: int| ' ')
}

/// `s` followed by spaces up to `width` characters (`{:<width}`).
pub open spec fn padded_right(s: Seq<char>, width: nat) -> Seq<char> {
    if s.len() < width {
        s + spaces((width - s.len()) as nat)
    } else {
        s
    }
}

/// `s` preceded by spaces up to `width` characters (`{:>width}`).
pub open spec fn padded_left(s: Seq<char>, width: nat) -> Seq<char> {
    if s.len() < width {
        spaces((width - s.len()) as nat) + s
    } else {
        s
    }
}

fn spaces_string(k: usize) -> (r: String)
    ensures
        r@ == spaces(k as nat),
{
    let mut r = String::new();
    let mut i: usize = 0;
    while i < k
        invariant
            i <= k,
            r@ == spaces(i as nat),
        decreases k - i,
    {
        r.push(' ');
        i = i + 1;
        proof {
            assert(r@ =~= spaces(i as nat));
        }
    }
    r
}

/// `s` left-aligned in a field of `width` characters, as `{:<width}` formats it.
pub fn pad_right(s: &str, width: usize) -> (r: String)
    ensures
        r@ == padded_right(s@, width as nat),
{
    let n = chars_of(s).len();
    let mut r = String::from_str(s);
    if n < width {
        let fill = spaces_string(width - n);
        r.append(fill.as_str());
    }
    r
}

/// `s` right-aligned in a field of `width` characters, as `{:>width}` formats it.
pub fn pad_left(s: &str, width: usize) -> (r: String)
    ensures
        r@ == padded_left(s@, width as nat),
{
    let n = chars_of(s).len();
    if n < width {
        let mut r = spaces_string(width - n);
        r.append(s);
        r
    } else {
        String::from_str(s)
    }
}

/// Whether `c` is an ASCII decimal digit.
pub open spec fn is_digit(c: char) -> bool {
    '0' <= c && c <= '9'
}

/// The value of the decimal digits `s`.
pub open spec fn digits_value(s: Seq<char>) -> nat
    decreases s.len(),
{
    if s.len() == 0 {
        0
    } else {
        digits_value(s.drop_last()) * 10 + (s.last() as nat - '0' as nat) as nat
    }
}

/// `s` without its leading `+`, if it has one.
pub open spec fn unsigned_digits(s: Seq<char>) -> Seq<char> {
    if s.len() > 0 && s[0] == '+' {
        s.drop_first()
    } else {
        s
    }
}

/// Whether every character of `s` is a decimal digit.
pub open spec fn all_digits(s: Seq<char>) -> bool {
    forall|i: int| 0 <= i < s.len() ==> is_digit(#[trigger] s[i])
}

proof fn lemma_digit_char(d: int)
    requires
        0 <= d <= 9,
    ensures
        is_digit(digit_char(d)),
        digit_char(d) as nat - '0' as nat == d,
{
}

/// The decimal form of `n` is a non-empty run of digits whose value is `n`.
pub(crate) proof fn lemma_decimal_digits(n: nat)
    ensures
        decimal(n).len() >= 1,
        all_digits(decimal(n)),
        digits_value(decimal(n)) == n,
    decreases n,
{
    if n < 10 {
        lemma_digit_char(n as int);
        let d = decimal(n);
        assert(d.drop_last() =~= Seq::<char>::empty());
        assert(digits_value(d.drop_last()) == 0);
        assert(d.last() == digit_char(n as int));
        assert(digits_value(d) == digits_value(d.drop_last()) * 10 + (d.last() as nat - '0' as nat) as nat);
    } else {
        lemma_decimal_digits(n / 10);
        lemma_digit_char((n % 10) as int);
        let d = decimal(n);
        assert(d.drop_last() =~= decimal(n / 10));
        assert(d.last() == digit_char((n % 10) as int));
        assert(digits_value(d) == digits_value(d.drop_last()) * 10 + (d.last() as nat - '0' as nat) as nat);
        assert((n / 10) * 10 + n % 10 == n) by (nonlinear_arith);
        assert forall|i: int| 0 <= i < d.len() implies is_digit(#[trigger] d[i]) by {
            if i < d.len() - 1 {
                assert(d[i] == decimal(n / 10)[i]);
            }
        }
    }
}

proof fn lemma_leading_zero(s: Seq<char>)
    ensures
        digits_value(seq!['0'] + s) == digits_value(s),
    decreases s.len(),
{
    let z = seq!['0'] + s;
    if s.len() == 0 {
        assert(z.drop_last() =~= Seq::<char>::empty());
        assert(z.last() == '0');
        assert(digits_value(z) == digits_value(z.drop_last()) * 10 + (z.last() as nat - '0' as nat) as nat);
    } else {
        lemma_leading_zero(s.drop_last());
        assert(z.drop_last() =~= seq!['0'] + s.drop_last());
        assert(z.last() == s.last());
        assert(digits_value(z) == digits_value(z.drop_last()) * 10 + (z.last() as nat - '0' as nat) as nat);
    }
}

/// Leading zeros change neither the value of a run of digits nor its being digits.
pub(crate) proof fn lemma_zero_padding(k: nat, s: Seq<char>)
    ensures
        digits_value(zeros(k) + s) == digits_value(s),
        all_digits(s) ==> all_digits(zeros(k) + s),
    decreases k,
{
    if k > 0 {
        lemma_zero_padding((k - 1) as nat, s);
        assert(zeros(k) + s =~= seq!['0'] + (zeros((k - 1) as nat) + s));
        lemma_leading_zero(zeros((k - 1) as nat) + s);
    } else {
        assert(zeros(k) + s =~= s);
    }
}

/// A string of ASCII characters takes one byte per character.
pub(crate) proof fn lemma_ascii_byte_len(t: Seq<char>)
    requires
        t.len() <= usize::MAX,
        forall|i: int| 0 <= i < t.len() ==> (#[trigger] t[i] as u32) < 128,
    ensures
        byte_len(t) == t.len(),
{
    lemma_ascii_encoding_len(t);
}

proof fn lemma_ascii_encoding_len(t: Seq<char>)
    requires
        forall|i: int| 0 <= i < t.len() ==> (#[trigger] t[i] as u32) < 128,
    ensures
        vstd::utf8::encode_utf8(t).len() == t.len(),
    decreases t.len(),
{
    if t.len() > 0 {
        assert forall|i: int| 0 <= i < t.drop_first().len() implies (#[trigger] t.drop_first()[i] as u32)
            < 128 by {
            assert(t.drop_first()[i] == t[i + 1]);
        }
        lemma_ascii_encoding_len(t.drop_first());
        assert((t[0] as u32) < 128);
    }
}

/// What `str::parse::<u32>` gives for `s`: an optional `+` sign followed by
/// at least one decimal digit, with a value that fits in `u32`.
pub open spec fn parse_u32_spec(s: Seq<char>) -> Option<u32> {
    let digits = unsigned_digits(s);
    if digits.len() == 0 {
        None
    } else if !all_digits(digits) {
        None
    } else if digits_value(digits) > u32::MAX {
        None
    } else {
        Some(digits_value(digits) as u32)
    }
}

/// Parses a `u32` as `str::parse::<u32>` does.
pub fn parse_u32(s: &str) -> (r: Option<u32>)
    ensures
        r == parse_u32_spec(s@),
{
    let chars = chars_of(s);
    let start: usize = if chars.len() > 0 && chars[0] == '+' {
        1
    } else {
        0
    };
    let ghost digits = unsigned_digits(s@);
    assert(digits =~= chars@.subrange(start as int, chars@.len() as int));
    if start == chars.len() {
        return None;
    }
    let cap: u64 = 0x1_0000_0000;
    let mut acc: u64 = 0;
    let mut i = start;
    while i < chars.len()
        invariant
            start <= i <= chars@.len(),
            cap == 0x1_0000_0000,
            chars@ == s@,
            digits == unsigned_digits(s@),
            digits == chars@.subrange(start as int, chars@.len() as int),
            forall|j: int| start <= j < i ==> is_digit(#[trigger] chars@[j]),
            acc <= cap,
            acc == (if digits_value(chars@.subrange(start as int, i as int)) < cap {
                digits_value(chars@.subrange(start as int, i as int))
            } else {
                cap as nat
            }),
        decreases chars@.len() - i,
    {
        let c = chars[i];
        if !('0' <= c && c <= '9') {
            assert(digits[i - start] == c);
            assert(!is_digit(digits[i - start]));
            assert(!all_digits(digits));
            return None;
        }
        let d = (c as u32 - '0' as u32) as u64;
        let ghost prev = chars@.subrange(start as int, i as int);
        let ghost next = chars@.subrange(start as int, i + 1);
        assert(next.drop_last() =~= prev);
        assert(next.last() == c);
        let ghost v = digits_value(prev);
        assert(digits_value(next) == v * 10 + d);
        let t = acc * 10 + d;
        acc = if t < cap {
            t
        } else {
            cap
        };
        proof {
            if v >= cap {
                assert(v * 10 + d >= cap) by (nonlinear_arith)
                    requires
                        v >= cap,
                        d >= 0,
                ;
            } else {
                assert(acc as int == (if v * 10 + d < cap {
                    v * 10 + d
                } else {
                    cap as int
                }));
            }
        }
        i = i + 1;
    }
    assert(chars@.subrange(start as int, chars@.len() as int) == digits);
    if acc >= cap {
        None
    } else {
        Some(acc as u32)
    }
}


/// What `str::parse::<usize>` gives for `s`: an optional `+` sign followed by
/// at least one decimal digit, with a value that fits in `usize`.
pub open spec fn parse_usize_spec(s: Seq<char>) -> Option<usize> {
    let digits = unsigned_digits(s);
    if digits.len() == 0 {
        None
    } else if !all_digits(digits) {
        None
    } else if digits_value(digits) > usize::MAX {
        None
    } else {
        Some(digits_value(digits) as usize)
    }
}

/// Parses a `usize` as `str::parse::<usize>` does.
pub fn parse_usize(s: &str) -> (r: Option<usize>)
    ensures
        r == parse_usize_spec(s@),
{
    let chars = chars_of(s);
    let start: usize = if chars.len() > 0 && chars[0] == '+' {
        1
    } else {
        0
    };
    let ghost digits = unsigned_digits(s@);
    assert(digits =~= chars@.subrange(start as int, chars@.len() as int));
    if start == chars.len() {
        return None;
    }
    let cap: u128 = usize::MAX as u128 + 1;
    let mut acc: u128 = 0;
    let mut i = start;
    while i < chars.len()
        invariant
            start <= i <= chars@.len(),
            cap == usize::MAX + 1,
            chars@ == s@,
            digits == unsigned_digits(s@),
            digits == chars@.subrange(start as int, chars@.len() as int),
            forall|j: int| start <= j < i ==> is_digit(#[trigger] chars@[j]),
            acc <= cap,
            acc == (if digits_value(chars@.subrange(start as int, i as int)) < cap {
                digits_value(chars@.subrange(start as int, i as int))
            } else {
                cap as nat
            }),
        decreases chars@.len() - i,
    {
        let c = chars[i];
        if !('0' <= c && c <= '9') {
            assert(digits[i - start] == c);
            assert(!is_digit(digits[i - start]));
            assert(!all_digits(digits));
            return None;
        }
        let d = (c as u32 - '0' as u32) as u128;
        let ghost prev = chars@.subrange(start as int, i as int);
        let ghost next = chars@.subrange(start as int, i + 1);
        assert(next.drop_last() =~= prev);
        assert(next.last() == c);
        let ghost v = digits_value(prev);
        assert(digits_value(next) == v * 10 + d);
        assert(acc * 10 + d <= cap * 10 + 9) by (nonlinear_arith)
            requires
                acc <= cap,
                d <= 9,
        ;
        let t = acc * 10 + d;
        acc = if t < cap {
            t
        } else {
            cap
        };
        proof {
            if v >= cap {
                assert(v * 10 + d >= cap) by (nonlinear_arith)
                    requires
                        v >= cap,
                        d >= 0,
                ;
            } else {
                assert(acc as int == (if v * 10 + d < cap {
                    v * 10 + d
                } else {
                    cap as int
                }));
            }
        }
        i = i + 1;
    }
    assert(chars@.subrange(start as int, chars@.len() as int) == digits);
    if acc >= cap {
        None
    } else {
        Some(acc as usize)
    }
}


/// Lexicographic order of strings by characters; it agrees with `String`'s
/// `Ord`, which compares UTF-8 bytes, since UTF-8 preserves code point order.
pub open spec fn str_lt(a: Seq<char>, b: Seq<char>) -> bool
    decreases a.len(),
{
    if a.len() == 0 {
        b.len() > 0
    } else if b.len() == 0 {
        false
    } else if a[0] != b[0] {
        (a[0] as u32) < (b[0] as u32)
    } else {
        str_lt(a.drop_first(), b.drop_first())
    }
}

proof fn lemma_str_lt_skip(a: Seq<char>, b: Seq<char>, i: int)
    requires
        0 <= i < a.len(),
        i < b.len(),
        a[i] == b[i],
    ensures
        str_lt(a.skip(i), b.skip(i)) == str_lt(a.skip(i + 1), b.skip(i + 1)),
{
    assert(a.skip(i).drop_first() =~= a.skip(i + 1));
    assert(b.skip(i).drop_first() =~= b.skip(i + 1));
}

/// No string sorts before itself.
pub(crate) proof fn lemma_str_lt_irreflexive(a: Seq<char>)
    ensures
        !str_lt(a, a),
    decreases a.len(),
{
    if a.len() > 0 {
        lemma_str_lt_irreflexive(a.drop_first());
    }
}

/// Sorting before is transitive.
pub(crate) proof fn lemma_str_lt_transitive(a: Seq<char>, b: Seq<char>, c: Seq<char>)
    requires
        str_lt(a, b),
        str_lt(b, c),
    ensures
        str_lt(a, c),
    decreases a.len(),
{
    if a.len() > 0 && b.len() > 0 && c.len() > 0 && a[0] == b[0] && b[0] == c[0] {
        lemma_str_lt_transitive(a.drop_first(), b.drop_first(), c.drop_first());
    }
}

/// Of two different strings, one sorts before the other.
pub(crate) proof fn lemma_str_lt_total(a: Seq<char>, b: Seq<char>)
    requires
        a != b,
    ensures
        str_lt(a, b) || str_lt(b, a),
    decreases a.len(),
{
    if a.len() > 0 && b.len() > 0 && a[0] == b[0] {
        if a.drop_first() == b.drop_first() {
            assert(a =~= seq![a[0]] + a.drop_first());
            assert(b =~= seq![b[0]] + b.drop_first());
        }
        lemma_str_lt_total(a.drop_first(), b.drop_first());
    } else if a.len() > 0 && b.len() > 0 {
        vstd::utf8::char_u32_cast(a[0], a[0] as u32);
        vstd::utf8::char_u32_cast(b[0], b[0] as u32);
    } else if a.len() == 0 && b.len() == 0 {
        assert(a =~= b);
    }
}

/// Whether `a` sorts before `b`.
pub fn str_less(a: &str, b: &str) -> (r: bool)
    ensures
        r == str_lt(a@, b@),
{
    let ac = chars_of(a);
    let bc = chars_of(b);
    let mut i: usize = 0;
    assert(a@.skip(0) =~= a@);
    assert(b@.skip(0) =~= b@);
    while i < ac.len() && i < bc.len()
        invariant
            ac@ == a@,
            bc@ == b@,
            i <= ac@.len(),
            i <= bc@.len(),
            str_lt(a@, b@) == str_lt(a@.skip(i as int), b@.skip(i as int)),
        decreases ac@.len() - i,
    {
        if ac[i] != bc[i] {
            return (ac[i] as u32) < (bc[i] as u32);
        }
        proof {
            lemma_str_lt_skip(a@, b@, i as int);
        }
        i = i + 1;
    }
    i < bc.len()
}

} // verus!
