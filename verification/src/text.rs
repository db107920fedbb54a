//! Text as sequences of characters: comparison, white space, decimal numbers,
//! splitting and joining.

use vstd::prelude::*;

verus! {

// ---------------------------------------------------------------------------
// Characters of a string
// ---------------------------------------------------------------------------

/// The characters of `s`, in order.
pub fn to_chars(s: &str) -> (chars: Vec<char>)
    ensures
        chars@ == s@,
{
    let mut out: Vec<char> = Vec::new();
    for c in it: s.chars()
        invariant
            it.seq() == s@,
            out@ == s@.take(it.index() as int),
    {
        out.push(c);
    }
    out
}

/// Whether two strings hold the same characters.
pub fn same_text(a: &str, b: &str) -> (same: bool)
    ensures
        same == (a@ == b@),
{
    a.to_owned() == b.to_owned()
}

// ---------------------------------------------------------------------------
// White space
// ---------------------------------------------------------------------------

/// The characters with the Unicode property `White_Space`.
pub open spec fn white_space(c: char) -> bool {
    let n = c as u32;
    ||| 0x09 <= n <= 0x0d
    ||| n == 0x20
    ||| n == 0x85
    ||| n == 0xa0
    ||| n == 0x1680
    ||| 0x2000 <= n <= 0x200a
    ||| n == 0x2028
    ||| n == 0x2029
    ||| n == 0x202f
    ||| n == 0x205f
    ||| n == 0x3000
}

/// Whether `c` is white space.
pub fn is_white_space(c: char) -> (r: bool)
    ensures
        r == white_space(c),
{
    let n: u32 = c as u32;
    (0x09 <= n && n <= 0x0d) || n == 0x20 || n == 0x85 || n == 0xa0 || n == 0x1680 || (0x2000 <= n
        && n <= 0x200a) || n == 0x2028 || n == 0x2029 || n == 0x202f || n == 0x205f || n == 0x3000
}

/// Nothing but white space.
pub open spec fn blank(s: Seq<char>) -> bool {
    forall|i: int| 0 <= i < s.len() ==> white_space(#[trigger] s[i])
}

/// `s` without the white space it starts with.
pub open spec fn trim_front(s: Seq<char>) -> Seq<char>
    decreases s.len(),
{
    if s.len() > 0 && white_space(s[0]) {
        trim_front(s.skip(1))
    } else {
        s
    }
}

/// `s` without the white space it ends with.
pub open spec fn trim_back(s: Seq<char>) -> Seq<char>
    decreases s.len(),
{
    if s.len() > 0 && white_space(s.last()) {
        trim_back(s.drop_last())
    } else {
        s
    }
}

/// `s` without the white space around it.
pub open spec fn trimmed(s: Seq<char>) -> Seq<char> {
    trim_back(trim_front(s))
}

proof fn lemma_trim_front_skips(s: Seq<char>, n: int)
    requires
        0 <= n <= s.len(),
        forall|i: int| 0 <= i < n ==> white_space(#[trigger] s[i]),
    ensures
        trim_front(s) == trim_front(s.skip(n)),
    decreases n,
{
    if n == 0 {
        assert(s.skip(0) =~= s);
    } else {
        assert(white_space(s[0]));
        assert forall|i: int| 0 <= i < n - 1 implies white_space(#[trigger] s.skip(1)[i]) by {
            assert(white_space(s[i + 1]));
        }
        lemma_trim_front_skips(s.skip(1), n - 1);
        assert(s.skip(1).skip(n - 1) =~= s.skip(n));
    }
}

proof fn lemma_trim_back_takes(s: Seq<char>, n: int)
    requires
        0 <= n <= s.len(),
        forall|i: int| n <= i < s.len() ==> white_space(#[trigger] s[i]),
    ensures
        trim_back(s) == trim_back(s.take(n)),
    decreases s.len() - n,
{
    if n == s.len() {
        assert(s.take(n) =~= s);
    } else {
        assert(white_space(s[s.len() - 1]));
        lemma_trim_back_takes(s.drop_last(), n);
        assert(s.drop_last().take(n) =~= s.take(n));
    }
}

/// A text is blank exactly when nothing is left of it after trimming.
pub proof fn blank_trims_to_nothing(s: Seq<char>)
    ensures
        blank(s) <==> trimmed(s).len() == 0,
    decreases s.len(),
{
    if blank(s) {
        lemma_trim_front_skips(s, s.len() as int);
        assert(s.skip(s.len() as int).len() == 0);
    } else {
        let k = choose|k: int| 0 <= k < s.len() && !white_space(#[trigger] s[k]);
        lemma_trim_keeps(s, k);
    }
}

/// Trimming keeps every character that is not white space.
proof fn lemma_trim_keeps(s: Seq<char>, k: int)
    requires
        0 <= k < s.len(),
        !white_space(s[k]),
    ensures
        trimmed(s).len() > 0,
{
    lemma_trim_front_keeps(s, k);
    let t = trim_front(s);
    let j = choose|j: int| 0 <= j < t.len() && #[trigger] t[j] == s[k];
    lemma_trim_back_keeps(t, j);
}

proof fn lemma_trim_front_keeps(s: Seq<char>, k: int)
    requires
        0 <= k < s.len(),
        !white_space(s[k]),
    ensures
        exists|j: int| 0 <= j < trim_front(s).len() && #[trigger] trim_front(s)[j] == s[k],
    decreases s.len(),
{
    if white_space(s[0]) {
        lemma_trim_front_keeps(s.skip(1), k - 1);
        assert(s.skip(1)[k - 1] == s[k]);
        assert(trim_front(s) == trim_front(s.skip(1)));
        let j = choose|j: int|
            0 <= j < trim_front(s.skip(1)).len() && #[trigger] trim_front(s.skip(1))[j]
                == s.skip(1)[k - 1];
        assert(trim_front(s)[j] == s[k]);
    } else {
        assert(trim_front(s)[k] == s[k]);
    }
}

proof fn lemma_trim_back_keeps(s: Seq<char>, k: int)
    requires
        0 <= k < s.len(),
        !white_space(s[k]),
    ensures
        trim_back(s).len() > 0,
    decreases s.len(),
{
    if white_space(s.last()) {
        lemma_trim_back_keeps(s.drop_last(), k);
    }
}

/// Whether `s` holds nothing but white space.
pub fn is_blank(s: &str) -> (r: bool)
    ensures
        r == blank(s@),
        r == (trimmed(s@).len() == 0),
{
    let chars = to_chars(s);
    for i in 0..chars.len()
        invariant
            chars@ == s@,
            forall|j: int| 0 <= j < i ==> white_space(#[trigger] s@[j]),
    {
        if !is_white_space(chars[i]) {
            proof {
                blank_trims_to_nothing(s@);
                assert(!white_space(s@[i as int]));
            }
            return false;
        }
    }
    proof {
        blank_trims_to_nothing(s@);
    }
    true
}

/// `s` without the white space around it.
pub fn trim(s: &str) -> (r: String)
    ensures
        r@ == trimmed(s@),
{
    let chars = to_chars(s);
    let mut from: usize = 0;
    while from < chars.len() && is_white_space(chars[from])
        invariant
            chars@ == s@,
            from <= chars.len(),
            forall|j: int| 0 <= j < from ==> white_space(#[trigger] s@[j]),
        decreases chars.len() - from,
    {
        from = from + 1;
    }
    let mut to: usize = chars.len();
    while from < to && is_white_space(chars[to - 1])
        invariant
            chars@ == s@,
            from <= to <= chars.len(),
            forall|j: int| to <= j < s@.len() ==> white_space(#[trigger] s@[j]),
        decreases to - from,
    {
        to = to - 1;
    }
    proof {
        lemma_trim_front_skips(s@, from as int);
        let rest = s@.skip(from as int);
        assert(trim_front(rest) == rest);
        assert forall|i: int| to - from <= i < rest.len() implies white_space(
            #[trigger] rest[i],
        ) by {
            assert(white_space(s@[i + from]));
        }
        lemma_trim_back_takes(rest, to - from);
        assert(rest.take(to - from) =~= s@.subrange(from as int, to as int));
    }
    s.substring_char(from, to).to_string()
}

// ---------------------------------------------------------------------------
// Trailing characters and separators
// ---------------------------------------------------------------------------

/// `s` without the run of `c` that it ends with.
pub open spec fn without_trailing(s: Seq<char>, c: char) -> Seq<char>
    decreases s.len(),
{
    if s.len() > 0 && s.last() == c {
        without_trailing(s.drop_last(), c)
    } else {
        s
    }
}

/// `s` without the run of `c` that it ends with.
pub fn trim_trailing(s: &str, c: char) -> (r: String)
    ensures
        r@ == without_trailing(s@, c),
{
    let chars = to_chars(s);
    let mut to: usize = chars.len();
    assert(s@.take(to as int) =~= s@);
    while 0 < to && chars[to - 1] == c
        invariant
            chars@ == s@,
            to <= chars.len(),
            without_trailing(s@, c) == without_trailing(s@.take(to as int), c),
        decreases to,
    {
        to = to - 1;
        assert(s@.take(to + 1).drop_last() =~= s@.take(to as int));
    }
    assert(s@.take(to as int) =~= s@.subrange(0, to as int));
    s.substring_char(0, to).to_string()
}

/// The place of the first `c` in `s` at or after `from`, or the length of `s`
/// where there is none.
pub open spec fn next_at(s: Seq<char>, c: char, from: int) -> int
    decreases s.len() - from,
{
    if from < 0 || from >= s.len() {
        s.len() as int
    } else if s[from] == c {
        from
    } else {
        next_at(s, c, from + 1)
    }
}

/// The pieces of `s` between the separators `c`: one more than there are
/// separators, empty ones among them.
pub open spec fn pieces(s: Seq<char>, c: char) -> Seq<Seq<char>> {
    pieces_from(s, c, 0)
}

pub open spec fn pieces_from(s: Seq<char>, c: char, from: int) -> Seq<Seq<char>>
    decreases s.len() - from,
{
    if from < 0 || from > s.len() {
        Seq::empty()
    } else {
        let end = next_at(s, c, from);
        if from <= end < s.len() {
            seq![s.subrange(from, end)] + pieces_from(s, c, end + 1)
        } else {
            seq![s.subrange(from, s.len() as int)]
        }
    }
}

/// Each piece of `s` between the separators `c`, without the white space around it.
pub open spec fn trimmed_pieces(s: Seq<char>, c: char) -> Seq<Seq<char>> {
    pieces(s, c).map_values(|p: Seq<char>| trimmed(p))
}

/// The characters of each string of a list.
pub open spec fn texts(list: Seq<String>) -> Seq<Seq<char>> {
    Seq::new(list.len(), |i: int| list[i]@)
}

/// The characters of a string that may be missing.
pub open spec fn text_of(s: Option<String>) -> Option<Seq<char>> {
    match s {
        Some(t) => Some(t@),
        None => None,
    }
}

/// A copy of a string that may be missing.
pub fn clone_text(s: &Option<String>) -> (r: Option<String>)
    ensures
        text_of(r) == text_of(*s),
{
    match s {
        Some(t) => Some(t.clone()),
        None => None,
    }
}

/// A copy of a list of strings.
pub fn clone_texts(list: &Vec<String>) -> (r: Vec<String>)
    ensures
        texts(r@) == texts(list@),
{
    let mut out: Vec<String> = Vec::new();
    for i in 0..list.len()
        invariant
            out@.len() == i,
            forall|j: int| 0 <= j < i ==> #[trigger] out@[j]@ == list@[j]@,
    {
        out.push(list[i].clone());
    }
    out
}

/// Splits `s` at every `c` and trims the pieces.
pub fn split_trimmed(s: &str, c: char) -> (parts: Vec<String>)
    ensures
        texts(parts@) == trimmed_pieces(s@, c),
        parts@.len() >= 1,
{
    let chars = to_chars(s);
    let mut parts: Vec<String> = Vec::new();
    let mut from: usize = 0;
    let mut at: usize = 0;
    let ghost f = |p: Seq<char>| trimmed(p);
    while at < chars.len()
        invariant
            chars@ == s@,
            f == (|p: Seq<char>| trimmed(p)),
            from <= at <= chars.len(),
            next_at(s@, c, from as int) == next_at(s@, c, at as int),
            texts(parts@) + pieces_from(s@, c, from as int).map_values(f) == trimmed_pieces(s@, c),
        decreases chars.len() - at,
    {
        if chars[at] == c {
            let piece = trim(s.substring_char(from, at));
            let ghost before = parts@;
            let ghost rest = pieces_from(s@, c, at + 1);
            parts.push(piece);
            proof {
                assert(pieces_from(s@, c, from as int) == seq![s@.subrange(from as int, at as int)]
                    + rest);
                assert((seq![s@.subrange(from as int, at as int)] + rest).map_values(f) =~= seq![
                    piece@,
                ] + rest.map_values(f));
                assert(texts(parts@) =~= texts(before) + seq![piece@]);
                assert((texts(before) + seq![piece@]) + rest.map_values(f) =~= texts(before) + (
                seq![piece@] + rest.map_values(f)));
            }
            from = at + 1;
        }
        at = at + 1;
    }
    let last = trim(s.substring_char(from, chars.len()));
    let ghost before = parts@;
    parts.push(last);
    proof {
        assert(pieces_from(s@, c, from as int) == seq![s@.subrange(from as int, s@.len() as int)]);
        assert(pieces_from(s@, c, from as int).map_values(f) =~= seq![last@]);
        assert(texts(parts@) =~= texts(before) + seq![last@]);
    }
    parts
}

// ---------------------------------------------------------------------------
// Decimal numbers
// ---------------------------------------------------------------------------

/// The character of a digit from 0 to 9.
pub open spec fn digit(d: nat) -> char {
    (48 + d) as char
}

/// `n` in decimal, without leading zeros.
pub open spec fn decimal(n: nat) -> Seq<char>
    decreases n,
{
    if n < 10 {
        seq![digit(n)]
    } else {
        decimal(n / 10).push(digit(n % 10))
    }
}

/// A number that may be missing, as `None` or `Some(n)`.
pub open spec fn decimal_option(n: Option<u64>) -> Seq<char> {
    match n {
        Some(v) => "Some("@ + decimal(v as nat) + ")"@,
        None => "None"@,
    }
}

fn digit_text(d: u64) -> (r: &'static str)
    requires
        d < 10,
    ensures
        r@ == seq![digit(d as nat)],
{
    proof {
        reveal_strlit("0");
        reveal_strlit("1");
        reveal_strlit("2");
        reveal_strlit("3");
        reveal_strlit("4");
        reveal_strlit("5");
        reveal_strlit("6");
        reveal_strlit("7");
        reveal_strlit("8");
        reveal_strlit("9");
    }
    if d == 0 {
        "0"
    } else if d == 1 {
        "1"
    } else if d == 2 {
        "2"
    } else if d == 3 {
        "3"
    } else if d == 4 {
        "4"
    } else if d == 5 {
        "5"
    } else if d == 6 {
        "6"
    } else if d == 7 {
        "7"
    } else if d == 8 {
        "8"
    } else {
        "9"
    }
}

/// Appends `n` in decimal.
pub fn push_decimal(out: &mut String, n: u64)
    ensures
        final(out)@ == old(out)@ + decimal(n as nat),
    decreases n,
{
    if n >= 10 {
        push_decimal(out, n / 10);
    }
    out.append(digit_text(n % 10));
}

/// Appends a number that may be missing, as `None` or `Some(n)`.
pub fn push_decimal_option(out: &mut String, n: Option<u64>)
    ensures
        final(out)@ == old(out)@ + decimal_option(n),
{
    match n {
        Some(v) => {
            out.append("Some(");
            push_decimal(out, v);
            out.append(")");
        },
        None => {
            out.append("None");
        },
    }
}

/// Whether `c` is one of the digits 0 to 9.
pub open spec fn is_digit(c: char) -> bool {
    48 <= c as u32 <= 57
}

pub open spec fn all_digits(s: Seq<char>) -> bool {
    forall|i: int| 0 <= i < s.len() ==> is_digit(#[trigger] s[i])
}

/// The number that a sequence of digits stands for.
pub open spec fn number(s: Seq<char>) -> nat
    decreases s.len(),
{
    if s.len() == 0 {
        0
    } else {
        (number(s.drop_last()) * 10 + (s.last() as u32 - 48)) as nat
    }
}

/// `s` without one leading `+`.
pub open spec fn unsigned(s: Seq<char>) -> Seq<char> {
    if s.len() > 0 && s[0] == '+' {
        s.skip(1)
    } else {
        s
    }
}

/// The 64-bit number that `s` spells: an optional `+`, then at least one
/// digit and nothing else. No other text spells one, and neither does a
/// number that is too large.
pub open spec fn spelled_number(s: Seq<char>) -> Option<u64> {
    let digits = unsigned(s);
    if digits.len() > 0 && all_digits(digits) && number(digits) <= u64::MAX {
        Some(number(digits) as u64)
    } else {
        None
    }
}

proof fn lemma_number_grows(s: Seq<char>, n: int)
    requires
        0 <= n <= s.len(),
        all_digits(s),
    ensures
        number(s.take(n)) <= number(s),
    decreases s.len(),
{
    if n == s.len() {
        assert(s.take(n) =~= s);
    } else {
        assert(is_digit(s[s.len() - 1]));
        assert forall|i: int| 0 <= i < s.len() - 1 implies is_digit(#[trigger] s.drop_last()[i]) by {
            assert(is_digit(s[i]));
        }
        lemma_number_grows(s.drop_last(), n);
        assert(s.drop_last().take(n) =~= s.take(n));
    }
}

/// Reads a 64-bit number: an optional `+`, then digits.
pub fn parse_number(s: &str) -> (r: Option<u64>)
    ensures
        r == spelled_number(s@),
{
    let chars = to_chars(s);
    let start: usize = if chars.len() > 0 && chars[0] == '+' {
        1
    } else {
        0
    };
    let ghost digits = unsigned(s@);
    assert(digits =~= s@.skip(start as int));
    if start == chars.len() {
        return None;
    }
    let mut value: u64 = 0;
    let mut i: usize = start;
    assert(digits.take(0) =~= Seq::empty());
    while i < chars.len()
        invariant
            chars@ == s@,
            start <= i <= chars.len(),
            digits == unsigned(s@),
            digits == s@.skip(start as int),
            value == number(digits.take(i - start)),
            forall|j: int| 0 <= j < i - start ==> is_digit(#[trigger] digits[j]),
        decreases chars.len() - i,
    {
        let c = chars[i];
        let code: u32 = c as u32;
        assert(digits[i - start] == c);
        if code < 48 || code > 57 {
            assert(!is_digit(digits[i - start]));
            return None;
        }
        let d: u64 = (code - 48) as u64;
        proof {
            assert(digits.take(i + 1 - start).drop_last() =~= digits.take(i - start));
            assert(digits.take(i + 1 - start).last() == c);
            if all_digits(digits) {
                lemma_number_grows(digits, i + 1 - start);
            }
        }
        if value > (u64::MAX - d) / 10 {
            return None;
        }
        value = value * 10 + d;
        i = i + 1;
    }
    assert(digits.take(i - start) =~= digits);
    Some(value)
}

proof fn lemma_decimal_reads_back(n: nat)
    ensures
        decimal(n).len() > 0,
        all_digits(decimal(n)),
        number(decimal(n)) == n,
    decreases n,
{
    reveal_with_fuel(number, 2);
    if n < 10 {
        assert(decimal(n).drop_last() =~= Seq::empty());
    } else {
        lemma_decimal_reads_back(n / 10);
        let head = decimal(n / 10);
        assert(decimal(n).drop_last() =~= head);
        assert forall|i: int| 0 <= i < decimal(n).len() implies is_digit(#[trigger] decimal(n)[i]) by {
            if i < head.len() {
                assert(is_digit(head[i]));
            }
        }
    }
}

/// A number written in decimal reads back as itself.
pub proof fn decimal_reads_back(n: u64)
    ensures
        spelled_number(decimal(n as nat)) == Some(n),
{
    lemma_decimal_reads_back(n as nat);
    assert(is_digit(decimal(n as nat)[0]));
}

// ---------------------------------------------------------------------------
// Laws
// ---------------------------------------------------------------------------

proof fn lemma_trim_front_is_suffix(s: Seq<char>) -> (i: int)
    ensures
        0 <= i <= s.len(),
        trim_front(s) == s.subrange(i, s.len() as int),
        forall|k: int| 0 <= k < i ==> white_space(#[trigger] s[k]),
        i < s.len() ==> !white_space(s[i]),
    decreases s.len(),
{
    if s.len() > 0 && white_space(s[0]) {
        let j = lemma_trim_front_is_suffix(s.skip(1));
        assert(trim_front(s) =~= s.subrange(j + 1, s.len() as int));
        assert forall|k: int| 0 <= k < j + 1 implies white_space(#[trigger] s[k]) by {
            if k > 0 {
                assert(white_space(s.skip(1)[k - 1]));
            }
        }
        j + 1
    } else {
        assert(s =~= s.subrange(0, s.len() as int));
        0
    }
}

proof fn lemma_trim_back_is_prefix(s: Seq<char>) -> (j: int)
    ensures
        0 <= j <= s.len(),
        trim_back(s) == s.take(j),
        forall|k: int| j <= k < s.len() ==> white_space(#[trigger] s[k]),
        j > 0 ==> !white_space(s[j - 1]),
    decreases s.len(),
{
    if s.len() > 0 && white_space(s.last()) {
        let j = lemma_trim_back_is_prefix(s.drop_last());
        assert(s.drop_last().take(j) =~= s.take(j));
        assert forall|k: int| j <= k < s.len() implies white_space(#[trigger] s[k]) by {
            if k < s.len() - 1 {
                assert(white_space(s.drop_last()[k]));
            }
        }
        j
    } else {
        assert(s =~= s.take(s.len() as int));
        s.len() as int
    }
}

/// Trimming cuts white space off both ends and nothing else: what it leaves
/// stands in the text as it is, only white space stands before and after it,
/// and it neither starts nor ends with any.
pub proof fn trimming_cuts_only_the_ends(s: Seq<char>) -> (cut: (int, int))
    ensures
        0 <= cut.0 <= cut.1 <= s.len(),
        trimmed(s) == s.subrange(cut.0, cut.1),
        forall|k: int| 0 <= k < cut.0 ==> white_space(#[trigger] s[k]),
        forall|k: int| cut.1 <= k < s.len() ==> white_space(#[trigger] s[k]),
        cut.0 < cut.1 ==> !white_space(s[cut.0]) && !white_space(s[cut.1 - 1]),
{
    let i = lemma_trim_front_is_suffix(s);
    let t = trim_front(s);
    let j = lemma_trim_back_is_prefix(t);
    assert(t.take(j) =~= s.subrange(i, i + j));
    assert forall|k: int| i + j <= k < s.len() implies white_space(#[trigger] s[k]) by {
        assert(white_space(t[k - i]));
    }
    (i, i + j)
}

/// Only the run of the character at the very end is cut off, and all of it.
pub proof fn trailing_run_is_cut(s: Seq<char>, c: char)
    ensures
        ({
            let t = without_trailing(s, c);
            &&& t.len() <= s.len()
            &&& t == s.take(t.len() as int)
            &&& t.len() > 0 ==> t.last() != c
            &&& forall|k: int| t.len() <= k < s.len() ==> #[trigger] s[k] == c
        }),
    decreases s.len(),
{
    if s.len() > 0 && s.last() == c {
        trailing_run_is_cut(s.drop_last(), c);
        let t = without_trailing(s, c);
        assert(s.drop_last().take(t.len() as int) =~= s.take(t.len() as int));
        assert forall|k: int| t.len() <= k < s.len() implies #[trigger] s[k] == c by {
            if k < s.len() - 1 {
                assert(s.drop_last()[k] == c);
            }
        }
    } else {
        assert(s.take(s.len() as int) =~= s);
    }
}

/// Texts put one after the other, with a separator between each two.
pub open spec fn joined(parts: Seq<Seq<char>>, c: char) -> Seq<char>
    decreases parts.len(),
{
    if parts.len() == 0 {
        Seq::empty()
    } else if parts.len() == 1 {
        parts[0]
    } else {
        parts[0] + seq![c] + joined(parts.skip(1), c)
    }
}

proof fn lemma_next_at(s: Seq<char>, c: char, from: int)
    requires
        0 <= from <= s.len(),
    ensures
        from <= next_at(s, c, from) <= s.len(),
        forall|k: int| from <= k < next_at(s, c, from) ==> #[trigger] s[k] != c,
        next_at(s, c, from) < s.len() ==> s[next_at(s, c, from)] == c,
    decreases s.len() - from,
{
    if from < s.len() && s[from] != c {
        lemma_next_at(s, c, from + 1);
    }
}

proof fn lemma_pieces_from(s: Seq<char>, c: char, from: int)
    requires
        0 <= from <= s.len(),
    ensures
        pieces_from(s, c, from).len() >= 1,
        joined(pieces_from(s, c, from), c) == s.skip(from),
        forall|i: int|
            0 <= i < pieces_from(s, c, from).len() ==> !(#[trigger] pieces_from(
                s,
                c,
                from,
            )[i]).contains(c),
    decreases s.len() - from,
{
    lemma_next_at(s, c, from);
    let end = next_at(s, c, from);
    let all = pieces_from(s, c, from);
    if end < s.len() {
        lemma_pieces_from(s, c, end + 1);
        let rest = pieces_from(s, c, end + 1);
        assert(all == seq![s.subrange(from, end)] + rest);
        assert(all.skip(1) =~= rest);
        assert(all[0] == s.subrange(from, end));
        assert(s.subrange(from, end) + seq![c] + s.skip(end + 1) =~= s.skip(from));
        assert forall|i: int| 0 <= i < all.len() implies !(#[trigger] all[i]).contains(c) by {
            if i > 0 {
                assert(all[i] == rest[i - 1]);
            } else {
                assert(forall|k: int| 0 <= k < all[0].len() ==> all[0][k] == s[from + k]);
            }
        }
    } else {
        assert(all == seq![s.subrange(from, s.len() as int)]);
        assert(all[0] =~= s.skip(from));
        assert(forall|k: int| 0 <= k < all[0].len() ==> all[0][k] == s[from + k]);
    }
}

/// Splitting loses nothing and leaves no separator behind: put together again
/// with a separator between each two, the pieces are the text, and none of
/// them holds a separator. There is always at least one.
pub proof fn pieces_make_up_the_text(s: Seq<char>, c: char)
    ensures
        pieces(s, c).len() >= 1,
        joined(pieces(s, c), c) == s,
        forall|i: int| 0 <= i < pieces(s, c).len() ==> !(#[trigger] pieces(s, c)[i]).contains(c),
{
    lemma_pieces_from(s, c, 0);
    assert(s.skip(0) =~= s);
}

/// Each piece is trimmed by itself, and none is left out.
pub proof fn pieces_are_trimmed_one_by_one(s: Seq<char>, c: char)
    ensures
        trimmed_pieces(s, c).len() == pieces(s, c).len(),
        forall|i: int|
            0 <= i < pieces(s, c).len() ==> #[trigger] trimmed_pieces(s, c)[i] == trimmed(
                pieces(s, c)[i],
            ),
{
}

/// A list of strings stands for the texts of its strings, in order.
pub proof fn texts_are_those_of_the_strings(list: Seq<String>, s: Option<String>)
    ensures
        texts(list).len() == list.len(),
        forall|i: int| 0 <= i < list.len() ==> #[trigger] texts(list)[i] == list[i]@,
        s is Some <==> text_of(s) is Some,
        s matches Some(t) ==> text_of(s) == Some(t@),
{
}

/// A digit more makes a number ten times as large and adds the digit. The
/// digits are the characters 48 to 57.
pub proof fn numbers_are_positional(s: Seq<char>, c: char)
    requires
        48 <= c as u32 <= 57,
    ensures
        number(Seq::empty()) == 0,
        number(s.push(c)) == 10 * number(s) + (c as u32 - 48),
{
    assert(s.push(c).drop_last() =~= s);
}

/// A number is written with digits alone, and starts with a zero only where it
/// is a single digit; reading it gives the number.
pub proof fn decimals_are_plain(n: nat)
    ensures
        decimal(n).len() >= 1,
        forall|i: int| 0 <= i < decimal(n).len() ==> 48 <= (#[trigger] decimal(n)[i]) as u32 <= 57,
        decimal(n).len() > 1 ==> decimal(n)[0] as u32 != 48,
        number(decimal(n)) == n,
    decreases n,
{
    lemma_decimal_reads_back(n);
    assert forall|i: int| 0 <= i < decimal(n).len() implies 48 <= (#[trigger] decimal(n)[i]) as u32
        <= 57 by {
        assert(is_digit(decimal(n)[i]));
    }
    if n >= 10 {
        decimals_are_plain(n / 10);
        assert(decimal(n)[0] == decimal(n / 10)[0]);
        if n < 100 {
            assert(decimal(n / 10) =~= seq![digit(n / 10)]);
            assert(48 < 48 + n / 10 <= 57);
        } else {
            lemma_decimal_reads_back(n / 10 / 10);
            assert(decimal(n / 10) == decimal(n / 10 / 10).push(digit((n / 10) % 10)));
        }
    }
}

/// A number that may be missing is written as `None`, or as `Some` with the
/// number in brackets.
pub proof fn missing_numbers_are_none(n: u64)
    ensures
        decimal_option(None) == "None"@,
        decimal_option(Some(n)) == "Some("@ + decimal(n as nat) + ")"@,
{
}

/// A run of digits spells the number that it stands for, with or without a
/// plus sign before it, where that is below 2 to the power of 64, and none otherwise.
pub proof fn digits_spell_their_number(digits: Seq<char>)
    requires
        digits.len() > 0,
        forall|i: int| 0 <= i < digits.len() ==> 48 <= (#[trigger] digits[i]) as u32 <= 57,
    ensures
        number(digits) < 0x1_0000_0000_0000_0000 ==> spelled_number(digits) == Some(
            number(digits) as u64,
        ),
        number(digits) >= 0x1_0000_0000_0000_0000 ==> spelled_number(digits) is None,
        spelled_number(seq!['+'] + digits) == spelled_number(digits),
{
    assert(48 <= digits[0] as u32);
    assert((seq!['+'] + digits).skip(1) =~= digits);
}

/// Nothing else spells a number: no text without digits, and none with a
/// character that is no digit, but for one plus sign at its start.
pub proof fn nothing_else_spells_a_number(s: Seq<char>, i: int)
    requires
        0 <= i < s.len(),
        !(48 <= s[i] as u32 <= 57),
        !(i == 0 && s[0] == '+'),
    ensures
        spelled_number(s) is None,
        spelled_number(Seq::empty()) is None,
        spelled_number(seq!['+']) is None,
{
    assert(seq!['+'].skip(1) =~= Seq::empty());
    if s[0] == '+' {
        assert(s.skip(1)[i - 1] == s[i]);
        assert(!is_digit(s.skip(1)[i - 1]));
    } else {
        assert(!is_digit(s[i]));
    }
}

} // verus!
