use vstd::prelude::*;

verus! {

/// Whether `c` has the Unicode `White_Space` property, the whitespace that `str::trim`
/// removes.
pub open spec fn is_white_space(c: char) -> bool {
    ||| ('\u{9}' <= c && c <= '\u{d}')
    ||| c == ' '
    ||| c == '\u{85}'
    ||| c == '\u{a0}'
    ||| c == '\u{1680}'
    ||| ('\u{2000}' <= c && c <= '\u{200a}')
    ||| c == '\u{2028}'
    ||| c == '\u{2029}'
    ||| c == '\u{202f}'
    ||| c == '\u{205f}'
    ||| c == '\u{3000}'
}

/// `s` without its leading whitespace.
pub open spec fn trim_front(s: Seq<char>) -> Seq<char>
    decreases s.len(),
{
    if s.len() > 0 && is_white_space(s[0]) {
        trim_front(s.drop_first())
    } else {
        s
    }
}

/// `s` without its trailing whitespace.
pub open spec fn trim_back(s: Seq<char>) -> Seq<char>
    decreases s.len(),
{
    if s.len() > 0 && is_white_space(s.last()) {
        trim_back(s.drop_last())
    } else {
        s
    }
}

/// `s` without leading and trailing whitespace.
pub open spec fn trimmed(s: Seq<char>) -> Seq<char> {
    trim_back(trim_front(s))
}

/// Whether `c` is an ASCII decimal digit.
pub open spec fn is_digit(c: char) -> bool {
    '0' <= c && c <= '9'
}

/// The number that the decimal digits `s` write.
pub open spec fn digits_value(s: Seq<char>) -> nat
    decreases s.len(),
{
    if s.len() == 0 {
        0
    } else {
        digits_value(s.drop_last()) * 10 + ((s.last() as nat) - ('0' as nat)) as nat
    }
}

/// The digits of a number text: the text without one optional leading `+`.
pub open spec fn unsigned_digits(s: Seq<char>) -> Seq<char> {
    if s.len() > 0 && s[0] == '+' {
        s.drop_first()
    } else {
        s
    }
}

/// What parsing `s` as a `usize` gives: an optional `+` followed by at least one decimal
/// digit and nothing else, whose value fits in a `usize`.
pub open spec fn parse_usize_spec(s: Seq<char>) -> Option<usize> {
    let d = unsigned_digits(s);
    if d.len() > 0 && (forall|i: int| 0 <= i < d.len() ==> is_digit(#[trigger] d[i])) && digits_value(d)
        <= usize::MAX {
        Some(digits_value(d) as usize)
    } else {
        None
    }
}

/// The 0-based index that the 1-based number typed as `input` selects in a list of `len`
/// items, if it is a number from 1 to `len`.
pub open spec fn selection_spec(input: Seq<char>, len: usize) -> Option<usize> {
    match parse_usize_spec(trimmed(input)) {
        Some(n) => if 1 <= n && n <= len {
            Some((n - 1) as usize)
        } else {
            None
        },
        None => None,
    }
}

/// The device chosen by the line `input`, typed at a prompt over `len` devices whose
/// default is `default_index`: an empty line picks the default, a number from 1 to `len`
/// picks that device, and anything else picks nothing (the prompt is asked again).
pub open spec fn choice_spec(input: Seq<char>, default_index: Option<usize>, len: usize) -> Option<usize> {
    if trimmed(input).len() == 0 {
        default_index
    } else {
        selection_spec(input, len)
    }
}

fn white_space(c: char) -> (r: bool)
    ensures
        r == is_white_space(c),
{
    ('\u{9}' <= c && c <= '\u{d}') || c == ' ' || c == '\u{85}' || c == '\u{a0}' || c == '\u{1680}'
        || ('\u{2000}' <= c && c <= '\u{200a}') || c == '\u{2028}' || c == '\u{2029}' || c
        == '\u{202f}' || c == '\u{205f}' || c == '\u{3000}'
}

fn chars_of(s: &str) -> (r: Vec<char>)
    ensures
        r@ == s@,
{
    let mut out: Vec<char> = Vec::new();
    for c in it: s.chars()
        invariant
            out@ == it.seq().take(it.index() as int),
    {
        out.push(c);
    }
    out
}


proof fn lemma_digits_value_grows(s: Seq<char>, k: int)
    requires
        0 <= k <= s.len(),
    ensures
        digits_value(s.subrange(0, k)) <= digits_value(s),
    decreases s.len() - k,
{
    if k < s.len() {
        lemma_digits_value_grows(s, k + 1);
        assert(s.subrange(0, k + 1).drop_last() =~= s.subrange(0, k));
    } else {
        assert(s.subrange(0, k) =~= s);
    }
}

/// Where the text `chars[start..end]` begins and ends once leading and trailing
/// whitespace are cut off.
fn trim_bounds(chars: &Vec<char>) -> (r: (usize, usize))
    ensures
        r.0 <= r.1 <= chars@.len(),
        chars@.subrange(r.0 as int, r.1 as int) == trimmed(chars@),
{
    let len = chars.len();
    let mut a: usize = 0;
    assert(chars@.skip(0) =~= chars@);
    while a < len && white_space(chars[a])
        invariant
            len == chars@.len(),
            a <= len,
            trim_front(chars@.skip(a as int)) == trim_front(chars@),
        decreases len - a,
    {
        assert(chars@.skip(a as int).drop_first() =~= chars@.skip(a + 1));
        a = a + 1;
    }
    let ghost front = chars@.skip(a as int);
    assert(trim_front(front) == front);
    let mut b: usize = len;
    while b > a && white_space(chars[b - 1])
        invariant
            len == chars@.len(),
            a <= b <= len,
            front == chars@.skip(a as int),
            trim_back(chars@.subrange(a as int, b as int)) == trim_back(front),
        decreases b - a,
    {
        assert(chars@.subrange(a as int, b as int).drop_last() =~= chars@.subrange(a as int, b - 1));
        b = b - 1;
    }
    assert(chars@.subrange(a as int, len as int) =~= front);
    (a, b)
}

/// Parses `chars[start..end]` as a `usize`: an optional `+`, then decimal digits.
fn parse_usize(chars: &Vec<char>, start: usize, end: usize) -> (r: Option<usize>)
    requires
        start <= end <= chars@.len(),
    ensures
        r == parse_usize_spec(chars@.subrange(start as int, end as int)),
{
    let ghost text = chars@.subrange(start as int, end as int);
    let mut p = start;
    if p < end && chars[p] == '+' {
        p = p + 1;
    }
    let ghost digits = chars@.subrange(p as int, end as int);
    assert(unsigned_digits(text) =~= digits);
    if p == end {
        return None;
    }
    let mut value: usize = 0;
    let mut k = p;
    while k < end
        invariant
            start <= p <= k <= end <= chars@.len(),
            digits == chars@.subrange(p as int, end as int),
            digits == unsigned_digits(text),
            text == chars@.subrange(start as int, end as int),
            forall|i: int| 0 <= i < k - p ==> is_digit(#[trigger] digits[i]),
            value == digits_value(digits.subrange(0, k - p)),
        decreases end - k,
    {
        let c = chars[k];
        assert(digits[k - p] == c);
        if !('0' <= c && c <= '9') {
            assert(!is_digit(digits[k - p]));
            return None;
        }
        let d = (c as u32 - '0' as u32) as usize;
        assert(digits.subrange(0, k + 1 - p).drop_last() =~= digits.subrange(0, k - p));
        assert(digits.subrange(0, k + 1 - p).last() == c);
        assert(digits_value(digits.subrange(0, k + 1 - p)) == value * 10 + d);
        if value > (usize::MAX - d) / 10 {
            assert(value * 10 + d > usize::MAX) by (nonlinear_arith)
                requires
                    value > (usize::MAX - d) / 10,
                    d <= 9,
            ;
            proof {
                lemma_digits_value_grows(digits, k + 1 - p);
            }
            return None;
        }
        assert(value * 10 + d <= usize::MAX) by (nonlinear_arith)
            requires
                value <= (usize::MAX - d) / 10,
                d <= 9,
        ;
        value = value * 10 + d;
        k = k + 1;
    }
    assert(digits.subrange(0, k - p) =~= digits);
    Some(value)
}

/// The 0-based index of the item that the 1-based number typed as `input` selects in a
/// list of `len` items; `None` when the trimmed input is not a number from 1 to `len`.
pub fn parse_selection(input: &str, len: usize) -> (r: Option<usize>)
    ensures
        r == selection_spec(input@, len),
{
    let chars = chars_of(input);
    let (a, b) = trim_bounds(&chars);
    match parse_usize(&chars, a, b) {
        Some(n) => if 1 <= n && n <= len {
            Some(n - 1)
        } else {
            None
        },
        None => None,
    }
}

/// The device that the line `input` picks at a prompt over `len` devices whose default is
/// `default_index`; `None` means the prompt must be asked again.
pub fn device_choice(input: &str, default_index: Option<usize>, len: usize) -> (r: Option<usize>)
    ensures
        r == choice_spec(input@, default_index, len),
{
    let chars = chars_of(input);
    let (a, b) = trim_bounds(&chars);
    if a == b {
        default_index
    } else {
        parse_selection(input, len)
    }
}

proof fn lemma_trim_front_of_trimmed_front(s: Seq<char>)
    ensures
        trim_front(trim_front(s)) == trim_front(s),
        trim_front(s).len() > 0 ==> !is_white_space(trim_front(s)[0]),
    decreases s.len(),
{
    if s.len() > 0 && is_white_space(s[0]) {
        lemma_trim_front_of_trimmed_front(s.drop_first());
    }
}

proof fn lemma_trim_back_shape(s: Seq<char>)
    ensures
        trim_back(s) == s.subrange(0, trim_back(s).len() as int),
        trim_back(s).len() <= s.len(),
        trim_back(trim_back(s)) == trim_back(s),
        trim_back(s).len() > 0 ==> !is_white_space(trim_back(s).last()),
    decreases s.len(),
{
    if s.len() > 0 && is_white_space(s.last()) {
        lemma_trim_back_shape(s.drop_last());
        assert(s.drop_last().subrange(0, trim_back(s).len() as int) =~= s.subrange(0, trim_back(s).len() as int));
    } else {
        assert(s.subrange(0, s.len() as int) =~= s);
    }
}

/// Trimming is idempotent: the line that the prompt trims and hands to `parse_selection`,
/// which trims again, reads as the line trimmed once.
pub proof fn lemma_trim_idempotent(s: Seq<char>)
    ensures
        trimmed(trimmed(s)) == trimmed(s),
{
    let f = trim_front(s);
    lemma_trim_front_of_trimmed_front(s);
    lemma_trim_back_shape(f);
    let t = trim_back(f);
    if t.len() > 0 {
        assert(t[0] == f[0]);
        assert(trim_front(t) == t);
    } else {
        assert(trim_front(t) == t);
    }
}

/// Any selection picks an item of the list.
pub proof fn lemma_selection_in_range(input: Seq<char>, len: usize)
    ensures
        selection_spec(input, len) matches Some(i) ==> i < len,
{
}

} // verus!
