//! Text primitives of the control protocols: whitespace trimming, exact
//! comparison, and the decimal, boolean and debug renderings of values.

use vstd::prelude::*;
use vstd::string::StringExecFns;

verus! {

broadcast use vstd::string::group_string_axioms;

/// The characters of `s`, in order.
pub fn chars_of(s: &str) -> (v: Vec<char>)
    ensures
        v@ == s@,
{
    let mut v: Vec<char> = Vec::new();
    for c in it: s.chars()
        invariant
            v@ == it.seq().take(it.index()),
    {
        v.push(c);
    }
    v
}


/// The characters with the Unicode property White_Space, which is what
/// `char::is_whitespace` and `str::trim` go by.
pub open spec fn is_white_space(c: char) -> bool {
    let u = c as u32;
    ||| 0x09 <= u <= 0x0D
    ||| u == 0x20
    ||| u == 0x85
    ||| u == 0xA0
    ||| u == 0x1680
    ||| 0x2000 <= u <= 0x200A
    ||| u == 0x2028
    ||| u == 0x2029
    ||| u == 0x202F
    ||| u == 0x205F
    ||| u == 0x3000
}

/// `s` without its leading white space.
pub open spec fn trim_start(s: Seq<char>) -> Seq<char>
    decreases s.len(),
{
    if s.len() > 0 && is_white_space(s[0]) {
        trim_start(s.drop_first())
    } else {
        s
    }
}

/// `s` without its trailing white space.
pub open spec fn trim_end(s: Seq<char>) -> Seq<char>
    decreases s.len(),
{
    if s.len() > 0 && is_white_space(s.last()) {
        trim_end(s.drop_last())
    } else {
        s
    }
}

/// `s` without leading and trailing white space, as `str::trim` gives it.
pub open spec fn trim(s: Seq<char>) -> Seq<char> {
    trim_end(trim_start(s))
}

/// Whether every character of `s` is white space.
pub open spec fn all_white_space(s: Seq<char>) -> bool {
    forall|i: int| 0 <= i < s.len() ==> is_white_space(#[trigger] s[i])
}

/// Trimming the front leaves a suffix, and one that starts with no white
/// space.
pub proof fn lemma_trim_start_shape(s: Seq<char>)
    ensures
        trim_start(s).len() <= s.len(),
        trim_start(s) == s.skip(s.len() - trim_start(s).len()),
        all_white_space(s.take(s.len() - trim_start(s).len())),
        trim_start(s).len() > 0 ==> !is_white_space(trim_start(s)[0]),
    decreases s.len(),
{
    if s.len() > 0 && is_white_space(s[0]) {
        lemma_trim_start_shape(s.drop_first());
        let k = s.len() - trim_start(s).len();
        assert(s.drop_first().skip(k - 1) =~= s.skip(k));
        assert forall|i: int| 0 <= i < k implies is_white_space(#[trigger] s.take(k)[i]) by {
            if i > 0 {
                assert(s.take(k)[i] == s.drop_first().take(k - 1)[i - 1]);
            }
        }
    } else {
        assert(s.skip(0) =~= s);
        assert(s.take(0).len() == 0);
    }
}

/// Trimming the back leaves a prefix, and one that ends in no white space.
pub proof fn lemma_trim_end_shape(s: Seq<char>)
    ensures
        trim_end(s).len() <= s.len(),
        trim_end(s) == s.take(trim_end(s).len() as int),
        all_white_space(s.skip(trim_end(s).len() as int)),
        trim_end(s).len() > 0 ==> !is_white_space(trim_end(s).last()),
    decreases s.len(),
{
    if s.len() > 0 && is_white_space(s.last()) {
        lemma_trim_end_shape(s.drop_last());
        let k = trim_end(s).len() as int;
        assert(s.drop_last().take(k) =~= s.take(k));
        assert forall|i: int| 0 <= i < s.len() - k implies is_white_space(#[trigger] s.skip(k)[i]) by {
            if k + i < s.len() - 1 {
                assert(s.skip(k)[i] == s.drop_last().skip(k)[i]);
            }
        }
    } else {
        assert(s.take(s.len() as int) =~= s);
        assert(s.skip(s.len() as int).len() == 0);
    }
}

/// A text that is all white space trims to nothing from the front, and
/// white space in front of a text does not change its front trim.
pub proof fn lemma_trim_start_skips_white_space(w: Seq<char>, x: Seq<char>)
    requires
        all_white_space(w),
    ensures
        trim_start(w + x) == trim_start(x),
    decreases w.len(),
{
    if w.len() > 0 {
        assert((w + x)[0] == w[0]);
        assert((w + x).drop_first() =~= w.drop_first() + x);
        assert(all_white_space(w.drop_first())) by {
            assert forall|i: int| 0 <= i < w.drop_first().len() implies is_white_space(
                #[trigger] w.drop_first()[i],
            ) by {
                assert(w.drop_first()[i] == w[i + 1]);
            }
        }
        lemma_trim_start_skips_white_space(w.drop_first(), x);
    } else {
        assert(w + x =~= x);
    }
}

/// White space behind a text does not change its back trim.
pub proof fn lemma_trim_end_skips_white_space(x: Seq<char>, w: Seq<char>)
    requires
        all_white_space(w),
    ensures
        trim_end(x + w) == trim_end(x),
    decreases w.len(),
{
    if w.len() > 0 {
        assert((x + w).last() == w.last());
        assert((x + w).drop_last() =~= x + w.drop_last());
        assert(all_white_space(w.drop_last())) by {
            assert forall|i: int| 0 <= i < w.drop_last().len() implies is_white_space(
                #[trigger] w.drop_last()[i],
            ) by {
                assert(w.drop_last()[i] == w[i]);
            }
        }
        lemma_trim_end_skips_white_space(x, w.drop_last());
    } else {
        assert(x + w =~= x);
    }
}

/// A text that starts with no white space is its own front trim, and one
/// that ends in none is its own back trim.
pub proof fn lemma_trim_fixed_points(s: Seq<char>)
    ensures
        (s.len() == 0 || !is_white_space(s[0])) ==> trim_start(s) == s,
        (s.len() == 0 || !is_white_space(s.last())) ==> trim_end(s) == s,
{
}

/// The front trim of `x + w` is that of `x` followed by `w`, unless `x` is
/// all white space.
proof fn lemma_trim_start_append(x: Seq<char>, w: Seq<char>)
    requires
        trim_start(x).len() > 0,
    ensures
        trim_start(x + w) == trim_start(x) + w,
    decreases x.len(),
{
    if x.len() > 0 && is_white_space(x[0]) {
        assert((x + w)[0] == x[0]);
        assert((x + w).drop_first() =~= x.drop_first() + w);
        lemma_trim_start_append(x.drop_first(), w);
    } else {
        assert((x + w)[0] == x[0]);
    }
}

/// A trimmed text is empty, or starts and ends with no white space.
pub proof fn lemma_trim_shape(s: Seq<char>)
    ensures
        trim(s).len() > 0 ==> !is_white_space(trim(s)[0]) && !is_white_space(trim(s).last()),
        trim(s).len() == 0 ==> all_white_space(s),
{
    let y = trim_start(s);
    lemma_trim_start_shape(s);
    lemma_trim_end_shape(y);
    let z = trim_end(y);
    if z.len() > 0 {
        assert(z[0] == y[0]);
    }
    if z.len() == 0 {
        let k = s.len() - y.len();
        assert forall|i: int| 0 <= i < s.len() implies is_white_space(#[trigger] s[i]) by {
            if i < k {
                assert(s.take(k)[i] == s[i]);
            } else {
                assert(y.skip(0)[i - k] == y[i - k]);
                assert(s[i] == y[i - k]);
            }
        }
    }
}

/// Trimming twice is trimming once.
pub proof fn lemma_trim_idempotent(s: Seq<char>)
    ensures
        trim(trim(s)) == trim(s),
{
    lemma_trim_shape(s);
    lemma_trim_fixed_points(trim(s));
}

/// White space around a text does not change its trim.
pub proof fn lemma_trim_ignores_surrounding_white_space(w1: Seq<char>, x: Seq<char>, w2: Seq<char>)
    requires
        all_white_space(w1),
        all_white_space(w2),
    ensures
        trim(w1 + x + w2) == trim(x),
{
    assert(w1 + x + w2 =~= w1 + (x + w2));
    lemma_trim_start_skips_white_space(w1, x + w2);
    if trim_start(x).len() > 0 {
        lemma_trim_start_append(x, w2);
        lemma_trim_end_skips_white_space(trim_start(x), w2);
    } else {
        lemma_trim_shape(x);
        lemma_trim_start_shape(x);
        assert(all_white_space(x + w2)) by {
            assert forall|i: int| 0 <= i < (x + w2).len() implies is_white_space(
                #[trigger] (x + w2)[i],
            ) by {
                if i < x.len() {
                    assert(x.take(x.len() as int)[i] == x[i]);
                }
            }
        }
        lemma_trim_start_skips_white_space(x + w2, Seq::<char>::empty());
        assert(x + w2 + Seq::<char>::empty() =~= x + w2);
        assert(trim_start(Seq::<char>::empty()) =~= Seq::<char>::empty());
        lemma_trim_start_skips_white_space(x, Seq::<char>::empty());
        assert(x + Seq::<char>::empty() =~= x);
    }
}

/// Which characters are white space: among ASCII, exactly tab, line feed,
/// vertical tab, form feed, carriage return and space, so no letter, digit
/// or punctuation mark; beyond ASCII, exactly the other characters with the
/// Unicode property White_Space (next line, no-break space, ogham space
/// mark, the spaces U+2000 to U+200A, line and paragraph separators, narrow
/// no-break space, medium mathematical space and ideographic space).
pub proof fn lemma_white_space_characters(c: char)
    ensures
        (c as u32) < 0x80 ==> (is_white_space(c) <==> (c == '\t' || c == '\n' || c == '\u{0B}'
            || c == '\u{0C}' || c == '\r' || c == ' ')),
        0x21 <= (c as u32) <= 0x7E ==> !is_white_space(c),
        ('a' <= c <= 'z' || 'A' <= c <= 'Z' || '0' <= c <= '9') ==> !is_white_space(c),
        (c as u32) >= 0x80 ==> (is_white_space(c) <==> ((c as u32) == 0x85 || (c as u32) == 0xA0
            || (c as u32) == 0x1680 || (0x2000 <= (c as u32) && (c as u32) <= 0x200A)
            || (c as u32) == 0x2028 || (c as u32) == 0x2029 || (c as u32) == 0x202F
            || (c as u32) == 0x205F || (c as u32) == 0x3000)),
{
}

/// Whether `c` is white space.
pub fn is_white_space_char(c: char) -> (r: bool)
    ensures
        r == is_white_space(c),
        (c as u32) < 0x80 ==> (r <==> ((c as u32) == 0x20 || (0x09 <= (c as u32) <= 0x0D))),
{
    let u = c as u32;
    (0x09 <= u && u <= 0x0D) || u == 0x20 || u == 0x85 || u == 0xA0 || u == 0x1680
        || (0x2000 <= u && u <= 0x200A) || u == 0x2028 || u == 0x2029 || u == 0x202F
        || u == 0x205F || u == 0x3000
}

proof fn lemma_trim_start_step(s: Seq<char>, a: int)
    requires
        0 <= a < s.len(),
        is_white_space(s[a]),
    ensures
        trim_start(s.subrange(a, s.len() as int)) == trim_start(s.subrange(a + 1, s.len() as int)),
{
    assert(s.subrange(a, s.len() as int).drop_first() =~= s.subrange(a + 1, s.len() as int));
}

proof fn lemma_trim_end_step(s: Seq<char>, b: int)
    requires
        0 < b <= s.len(),
        is_white_space(s[b - 1]),
    ensures
        trim_end(s.subrange(0, b)) == trim_end(s.subrange(0, b - 1)),
{
    assert(s.subrange(0, b).drop_last() =~= s.subrange(0, b - 1));
}

/// The bounds `(a, b)` of the part of `s[from..to]` that trimming keeps.
pub fn trim_bounds(s: &Vec<char>, from: usize, to: usize) -> (r: (usize, usize))
    requires
        from <= to <= s.len(),
    ensures
        from <= r.0 <= r.1 <= to,
        s@.subrange(r.0 as int, r.1 as int) == trim(s@.subrange(from as int, to as int)),
{
    let ghost t = s@.subrange(from as int, to as int);
    let mut a = from;
    while a < to && is_white_space_char(s[a])
        invariant
            from <= a <= to <= s.len(),
            t == s@.subrange(from as int, to as int),
            trim_start(t) == trim_start(s@.subrange(a as int, to as int)),
        decreases to - a,
    {
        proof {
            let u = s@.subrange(0, to as int);
            assert(u.subrange(a as int, to as int) =~= s@.subrange(a as int, to as int));
            assert(u.subrange(a + 1, to as int) =~= s@.subrange(a + 1, to as int));
            lemma_trim_start_step(u, a as int);
        }
        a = a + 1;
    }
    proof {
        let rest = s@.subrange(a as int, to as int);
        if a < to {
            assert(rest[0] == s@[a as int]);
        }
        assert(trim_start(rest) == rest);
    }
    let mut b = to;
    while b > a && is_white_space_char(s[b - 1])
        invariant
            from <= a <= b <= to <= s.len(),
            t == s@.subrange(from as int, to as int),
            trim(t) == trim_end(s@.subrange(a as int, b as int)),
        decreases b - a,
    {
        proof {
            let u = s@.subrange(a as int, b as int);
            assert(u.subrange(0, (b - a) as int) =~= u);
            assert(u.subrange(0, (b - a - 1) as int) =~= s@.subrange(a as int, b - 1));
            lemma_trim_end_step(u, (b - a) as int);
        }
        b = b - 1;
    }
    proof {
        let rest = s@.subrange(a as int, b as int);
        if a < b {
            assert(rest.last() == s@[b - 1]);
        }
        assert(trim_end(rest) == rest);
    }
    (a, b)
}

/// Whether `w` occurs in `s` at position `at`.
pub fn occurs_at(s: &Vec<char>, at: usize, end: usize, w: &Vec<char>) -> (r: bool)
    requires
        at <= end <= s.len(),
    ensures
        r == (at + w.len() <= end && s@.subrange(at as int, at + w.len()) == w@),
{
    if w.len() > end - at {
        return false;
    }
    let mut i: usize = 0;
    while i < w.len()
        invariant
            at + w.len() <= end <= s.len(),
            i <= w.len(),
            forall|k: int| 0 <= k < i ==> s@[at + k] == w@[k],
        decreases w.len() - i,
    {
        if s[at + i] != w[i] {
            assert(s@.subrange(at as int, at + w.len())[i as int] != w@[i as int]);
            return false;
        }
        i = i + 1;
    }
    assert(s@.subrange(at as int, at + w.len()) =~= w@);
    true
}

/// Whether `a` and `b` hold the same characters.
pub fn str_equals(a: &str, b: &str) -> (r: bool)
    ensures
        r == (a@ == b@),
{
    let x = chars_of(a);
    let y = chars_of(b);
    let r = x.len() == y.len() && occurs_at(&x, 0, x.len(), &y);
    proof {
        if x.len() == y.len() {
            assert(x@.subrange(0, y@.len() as int) =~= x@);
        }
    }
    r
}

/// The characters of `s` from `from` to `to`, as a `String`.
pub fn string_of(s: &Vec<char>, from: usize, to: usize) -> (r: String)
    requires
        from <= to <= s.len(),
    ensures
        r@ == s@.subrange(from as int, to as int),
{
    let mut r = String::new();
    let mut i = from;
    while i < to
        invariant
            from <= i <= to <= s.len(),
            r@ == s@.subrange(from as int, i as int),
        decreases to - i,
    {
        push_char(&mut r, s[i]);
        assert(r@ =~= s@.subrange(from as int, i + 1));
        i = i + 1;
    }
    r
}

/// Appends `c` to `s` (`String::push`).
#[verifier::external_body]
fn push_char(s: &mut String, c: char)
    ensures
        final(s)@ == old(s)@.push(c),
{
    s.push(c)
}

/// The text of a boolean, as `Display` writes it.
pub open spec fn bool_text(b: bool) -> Seq<char> {
    if b {
        "true"@
    } else {
        "false"@
    }
}

/// Appends the text of `b` to `out`.
pub fn push_bool(out: &mut String, b: bool)
    ensures
        final(out)@ == old(out)@ + bool_text(b),
{
    if b {
        out.append("true");
    } else {
        out.append("false");
    }
}

/// The decimal digit of value `d`.
pub open spec fn digit_char(d: int) -> char {
    if d == 0 { '0' }
    else if d == 1 { '1' }
    else if d == 2 { '2' }
    else if d == 3 { '3' }
    else if d == 4 { '4' }
    else if d == 5 { '5' }
    else if d == 6 { '6' }
    else if d == 7 { '7' }
    else if d == 8 { '8' }
    else { '9' }
}

/// The decimal text of `n`, most significant digit first, without leading
/// zeros, as `Display` writes an unsigned integer.
pub open spec fn decimal(n: nat) -> Seq<char>
    decreases n,
{
    if n < 10 {
        seq![digit_char(n as int)]
    } else {
        decimal(n / 10).push(digit_char((n % 10) as int))
    }
}

/// Whether `c` is one of the digits `0` to `9`.
pub open spec fn is_digit(c: char) -> bool {
    0x30 <= (c as u32) <= 0x39
}

/// The number that a run of decimal digits stands for, most significant
/// digit first.
pub open spec fn digits_value(s: Seq<char>) -> int
    decreases s.len(),
{
    if s.len() == 0 {
        0
    } else {
        digits_value(s.drop_last()) * 10 + ((s.last() as u32) - 0x30)
    }
}

proof fn lemma_digit_char_code(d: int)
    requires
        0 <= d < 10,
    ensures
        digit_char(d) as u32 == 0x30 + d,
{
}

/// The decimal text of `n` is the one `Display` writes: only digits, no
/// leading zero (`0` itself being written `0`), and read back it is `n`.
pub proof fn lemma_decimal_reads_back(n: nat)
    ensures
        decimal(n).len() > 0,
        forall|i: int| 0 <= i < decimal(n).len() ==> is_digit(#[trigger] decimal(n)[i]),
        n > 0 ==> decimal(n)[0] != '0',
        n == 0 ==> decimal(n) == seq!['0'],
        digits_value(decimal(n)) == n,
    decreases n,
{
    if n < 10 {
        lemma_digit_char_code(n as int);
        assert(decimal(n).drop_last() =~= Seq::<char>::empty());
        assert(digits_value(decimal(n)) == digits_value(Seq::<char>::empty()) * 10 + ((decimal(n).last() as u32) - 0x30));
    } else {
        lemma_digit_char_code((n % 10) as int);
        lemma_decimal_reads_back(n / 10);
        let d = decimal(n);
        assert(d.drop_last() =~= decimal(n / 10));
        assert(d[0] == decimal(n / 10)[0]);
        assert forall|i: int| 0 <= i < d.len() implies is_digit(#[trigger] d[i]) by {
            if i < d.len() - 1 {
                assert(d[i] == decimal(n / 10)[i]);
            }
        }
        assert(n == (n / 10) * 10 + n % 10);
    }
}

fn digit(d: usize) -> (c: char)
    requires
        d < 10,
    ensures
        c == digit_char(d as int),
{
    if d == 0 { '0' }
    else if d == 1 { '1' }
    else if d == 2 { '2' }
    else if d == 3 { '3' }
    else if d == 4 { '4' }
    else if d == 5 { '5' }
    else if d == 6 { '6' }
    else if d == 7 { '7' }
    else if d == 8 { '8' }
    else { '9' }
}

/// Appends the decimal text of `n` to `out`.
pub fn push_decimal(out: &mut String, n: usize)
    ensures
        final(out)@ == old(out)@ + decimal(n as nat),
    decreases n,
{
    let ghost before = out@;
    if n >= 10 {
        push_decimal(out, n / 10);
    }
    push_char(out, digit(n % 10));
    assert(out@ =~= before + decimal(n as nat));
}

/// What `Debug` writes for a string: the text in double quotes, with the
/// characters that need it escaped. Its exact rules (which characters are
/// printable) are those of the standard library; [`debug_text`] uses it for
/// strings that hold a character other than printable ASCII, or a `"` or `\`.
pub uninterp spec fn debug_str(s: Seq<char>) -> Seq<char>;

/// `format!("{:?}", s)` of the standard library's `Debug` for `str`.
/// Trusted: the result is the named rendering of `s`'s characters and of
/// nothing else; what that rendering is, character by character, is left
/// to the standard library.
#[verifier::external_body]
fn debug_quoted(s: &str) -> (r: String)
    ensures
        r@ == debug_str(s@),
{
    format!("{:?}", s)
}

/// What `Debug` writes for an optional value whose inner value is already
/// rendered as `rendered`: `None`, or `Some(..)` around that rendering.
pub open spec fn option_wrapped(rendered: Option<Seq<char>>) -> Seq<char> {
    match rendered {
        Some(q) => "Some("@ + q + ")"@,
        None => "None"@,
    }
}

/// Whether `Debug` writes `c` inside a string as itself: printable ASCII
/// (space to `~`) other than the double quote and the backslash.
pub open spec fn is_plain_char(c: char) -> bool {
    0x20 <= (c as u32) <= 0x7E && c != '"' && c != '\\'
}

/// Whether every character of `s` is written as itself.
pub open spec fn all_plain(s: Seq<char>) -> bool {
    forall|i: int| 0 <= i < s.len() ==> is_plain_char(#[trigger] s[i])
}

/// What `Debug` writes for a string: a string of plain characters in double
/// quotes as it is; any other string as the standard library renders it.
pub open spec fn debug_text(s: Seq<char>) -> Seq<char> {
    if all_plain(s) {
        seq!['"'] + s + seq!['"']
    } else {
        debug_str(s)
    }
}

/// A name of printable ASCII characters other than `"` and `\` (the single
/// quote included) is rendered as itself between double quotes.
pub proof fn lemma_plain_text_is_quoted_verbatim(s: Seq<char>)
    requires
        forall|i: int|
            0 <= i < s.len() ==> 0x20 <= (#[trigger] s[i] as u32) <= 0x7E && s[i] != '"' && s[i]
                != '\\',
    ensures
        debug_text(s).len() == s.len() + 2,
        debug_text(s)[0] == '"',
        debug_text(s).last() == '"',
        debug_text(s).subrange(1, s.len() as int + 1) == s,
{
    assert(all_plain(s));
    assert(debug_text(s).subrange(1, s.len() as int + 1) =~= s);
}

/// Whether `c` is written as itself inside a string by `Debug`.
fn plain_char(c: char) -> (r: bool)
    ensures
        r == is_plain_char(c),
{
    let u = c as u32;
    0x20 <= u && u <= 0x7E && c != '"' && c != '\\'
}

/// The `Debug` rendering of a string.
pub fn render_debug(s: &str) -> (r: String)
    ensures
        r@ == debug_text(s@),
{
    let cs = chars_of(s);
    let mut i: usize = 0;
    while i < cs.len()
        invariant
            i <= cs.len(),
            cs@ == s@,
            forall|k: int| 0 <= k < i ==> is_plain_char(#[trigger] cs@[k]),
        decreases cs.len() - i,
    {
        if !plain_char(cs[i]) {
            return debug_quoted(s);
        }
        i = i + 1;
    }
    let mut out = String::new();
    push_char(&mut out, '"');
    out.append(s);
    push_char(&mut out, '"');
    assert(out@ =~= seq!['"'] + s@ + seq!['"']);
    out
}

/// The `Debug` rendering of the string inside `o`, if there is one.
pub open spec fn rendered_inner(o: Option<Seq<char>>) -> Option<Seq<char>> {
    match o {
        Some(s) => Some(debug_text(s)),
        None => None,
    }
}

/// What `Debug` writes for an optional string: `None`, or `Some(..)` around
/// the string's own rendering.
pub open spec fn option_debug(o: Option<Seq<char>>) -> Seq<char> {
    option_wrapped(rendered_inner(o))
}

/// Renders the string inside `o` as `Debug` does, if there is one.
pub fn render_inner(o: &Option<String>) -> (r: Option<String>)
    ensures
        crate::commands::opt_string_view(r) == rendered_inner(crate::commands::opt_string_view(*o)),
{
    match o {
        Some(s) => Some(render_debug(s.as_str())),
        None => None,
    }
}

/// Appends `None`, or `Some(..)` around the already rendered `rendered`.
pub fn push_option_wrapped(out: &mut String, rendered: Option<&str>)
    ensures
        final(out)@ == old(out)@ + option_wrapped(
            match rendered {
                Some(q) => Some(q@),
                None => None,
            },
        ),
{
    match rendered {
        Some(q) => {
            let ghost before = out@;
            out.append("Some(");
            out.append(q);
            out.append(")");
            assert(out@ =~= before + ("Some("@ + q@ + ")"@));
        },
        None => {
            out.append("None");
        },
    }
}

} // verus!
