//! Character-level text operations: white space, ASCII case, decimal numerals.

use vstd::prelude::*;
use vstd::string::*;

verus! {

/// A character with the Unicode `White_Space` property, the set `str::trim` removes.
pub open spec fn is_white_space(c: char) -> bool {
    let u = c as u32;
    ||| (0x09 <= u && u <= 0x0D)
    ||| u == 0x20
    ||| u == 0x85
    ||| u == 0xA0
    ||| u == 0x1680
    ||| (0x2000 <= u && u <= 0x200A)
    ||| u == 0x2028
    ||| u == 0x2029
    ||| u == 0x202F
    ||| u == 0x205F
    ||| u == 0x3000
}

pub fn is_white_space_exec(c: char) -> (b: bool)
    ensures
        b == is_white_space(c),
{
    let u = c as u32;
    (0x09 <= u && u <= 0x0D) || u == 0x20 || u == 0x85 || u == 0xA0 || u == 0x1680 || (0x2000
        <= u && u <= 0x200A) || u == 0x2028 || u == 0x2029 || u == 0x202F || u == 0x205F || u
        == 0x3000
}

/// The text without its leading white space.
pub open spec fn trim_start(s: Seq<char>) -> Seq<char>
    decreases s.len(),
{
    if s.len() > 0 && is_white_space(s[0]) {
        trim_start(s.subrange(1, s.len() as int))
    } else {
        s
    }
}

/// The text without its trailing white space.
pub open spec fn trim_end(s: Seq<char>) -> Seq<char>
    decreases s.len(),
{
    if s.len() > 0 && is_white_space(s.last()) {
        trim_end(s.drop_last())
    } else {
        s
    }
}

/// The text without leading and trailing white space, as `str::trim` returns it.
pub open spec fn trim(s: Seq<char>) -> Seq<char> {
    trim_end(trim_start(s))
}

proof fn lemma_trim_start_from(s: Seq<char>, a: int)
    requires
        0 <= a <= s.len(),
        forall|k: int| 0 <= k < a ==> is_white_space(#[trigger] s[k]),
        a == s.len() || !is_white_space(s[a]),
    ensures
        trim_start(s) == s.subrange(a, s.len() as int),
    decreases a,
{
    if a == 0 {
        assert(s.subrange(0, s.len() as int) =~= s);
    } else {
        let t = s.subrange(1, s.len() as int);
        assert forall|k: int| 0 <= k < a - 1 implies is_white_space(#[trigger] t[k]) by {
            assert(t[k] == s[k + 1]);
        }
        if a - 1 < t.len() {
            assert(t[a - 1] == s[a]);
        }
        lemma_trim_start_from(t, a - 1);
        assert(t.subrange(a - 1, t.len() as int) =~= s.subrange(a, s.len() as int));
    }
}

proof fn lemma_trim_end_to(s: Seq<char>, b: int)
    requires
        0 <= b <= s.len(),
        forall|k: int| b <= k < s.len() ==> is_white_space(#[trigger] s[k]),
        b == 0 || !is_white_space(s[b - 1]),
    ensures
        trim_end(s) == s.subrange(0, b),
    decreases s.len() - b,
{
    if b == s.len() {
        assert(s.subrange(0, b) =~= s);
    } else {
        let t = s.drop_last();
        assert forall|k: int| b <= k < t.len() implies is_white_space(#[trigger] t[k]) by {
            assert(t[k] == s[k]);
        }
        if b > 0 {
            assert(t[b - 1] == s[b - 1]);
        }
        lemma_trim_end_to(t, b);
        assert(t.subrange(0, b) =~= s.subrange(0, b));
    }
}

/// The characters of a text.
pub fn chars_of(s: &str) -> (v: Vec<char>)
    ensures
        v@ == s@,
{
    let n = s.unicode_len();
    let mut v: Vec<char> = Vec::new();
    let mut i: usize = 0;
    while i < n
        invariant
            n == s@.len(),
            i <= n,
            v@ == s@.subrange(0, i as int),
        decreases n - i,
    {
        v.push(s.get_char(i));
        i = i + 1;
        assert(v@ =~= s@.subrange(0, i as int));
    }
    assert(v@ =~= s@);
    v
}

/// The characters of `s` from `from` up to `to`.
pub fn slice_chars(s: &Vec<char>, from: usize, to: usize) -> (v: Vec<char>)
    requires
        from <= to <= s.len(),
    ensures
        v@ == s@.subrange(from as int, to as int),
{
    let mut v: Vec<char> = Vec::new();
    let mut i: usize = from;
    while i < to
        invariant
            from <= i <= to,
            to <= s.len(),
            v@ == s@.subrange(from as int, i as int),
        decreases to - i,
    {
        v.push(s[i]);
        i = i + 1;
        assert(v@ =~= s@.subrange(from as int, i as int));
    }
    v
}

/// `s` without leading and trailing white space.
pub fn trim_chars(s: &Vec<char>) -> (t: Vec<char>)
    ensures
        t@ == trim(s@),
{
    let n = s.len();
    let mut a: usize = 0;
    while a < n && is_white_space_exec(s[a])
        invariant
            a <= n,
            n == s.len(),
            forall|k: int| 0 <= k < a ==> is_white_space(#[trigger] s@[k]),
        decreases n - a,
    {
        a = a + 1;
    }
    proof {
        lemma_trim_start_from(s@, a as int);
    }
    let mut b: usize = n;
    while b > a && is_white_space_exec(s[b - 1])
        invariant
            a <= b <= n,
            n == s.len(),
            forall|k: int| b <= k < n ==> is_white_space(#[trigger] s@[k]),
        decreases b,
    {
        b = b - 1;
    }
    proof {
        let u = s@.subrange(a as int, n as int);
        assert forall|k: int| b - a <= k < u.len() implies is_white_space(#[trigger] u[k]) by {
            assert(u[k] == s@[k + a]);
        }
        if b > a {
            assert(u[b - a - 1] == s@[b - 1]);
        }
        lemma_trim_end_to(u, b - a);
        assert(u.subrange(0, b - a) =~= s@.subrange(a as int, b as int));
    }
    slice_chars(s, a, b)
}

/// `c` with an ASCII capital letter turned into its small letter.
pub open spec fn ascii_lower(c: char) -> char {
    if 'A' <= c && c <= 'Z' { ((c as u32) + 32) as char } else { c }
}

/// `c` with an ASCII small letter turned into its capital letter.
pub open spec fn ascii_upper(c: char) -> char {
    if 'a' <= c && c <= 'z' { ((c as u32) - 32) as char } else { c }
}

pub fn ascii_lower_exec(c: char) -> (r: char)
    ensures
        r == ascii_lower(c),
{
    if 'A' <= c && c <= 'Z' {
        ((c as u8) + 32) as char
    } else {
        c
    }
}

pub fn ascii_upper_exec(c: char) -> (r: char)
    ensures
        r == ascii_upper(c),
{
    if 'a' <= c && c <= 'z' {
        ((c as u8) - 32) as char
    } else {
        c
    }
}

/// `s` with every ASCII capital letter turned into its small letter.
pub open spec fn ascii_lower_all(s: Seq<char>) -> Seq<char> {
    s.map_values(|c: char| ascii_lower(c))
}

/// `s` with every ASCII small letter turned into its capital letter.
pub open spec fn ascii_upper_all(s: Seq<char>) -> Seq<char> {
    s.map_values(|c: char| ascii_upper(c))
}

pub fn ascii_lower_chars(s: &Vec<char>) -> (t: Vec<char>)
    ensures
        t@ == ascii_lower_all(s@),
{
    let mut t: Vec<char> = Vec::new();
    let mut i: usize = 0;
    while i < s.len()
        invariant
            i <= s.len(),
            t@ == ascii_lower_all(s@.subrange(0, i as int)),
        decreases s.len() - i,
    {
        t.push(ascii_lower_exec(s[i]));
        i = i + 1;
        assert(t@ =~= ascii_lower_all(s@.subrange(0, i as int)));
    }
    assert(s@.subrange(0, i as int) =~= s@);
    t
}

pub fn ascii_upper_chars(s: &Vec<char>) -> (t: Vec<char>)
    ensures
        t@ == ascii_upper_all(s@),
{
    let mut t: Vec<char> = Vec::new();
    let mut i: usize = 0;
    while i < s.len()
        invariant
            i <= s.len(),
            t@ == ascii_upper_all(s@.subrange(0, i as int)),
        decreases s.len() - i,
    {
        t.push(ascii_upper_exec(s[i]));
        i = i + 1;
        assert(t@ =~= ascii_upper_all(s@.subrange(0, i as int)));
    }
    assert(s@.subrange(0, i as int) =~= s@);
    t
}

/// Whether the characters `v` spell the text `lit`.
pub fn chars_eq_str(v: &Vec<char>, lit: &str) -> (b: bool)
    ensures
        b == (v@ == lit@),
{
    let n = lit.unicode_len();
    if v.len() != n {
        return false;
    }
    let mut i: usize = 0;
    while i < n
        invariant
            n == lit@.len(),
            n == v@.len(),
            i <= n,
            forall|k: int| 0 <= k < i ==> v@[k] == lit@[k],
        decreases n - i,
    {
        if v[i] != lit.get_char(i) {
            return false;
        }
        i = i + 1;
    }
    assert(v@ =~= lit@);
    true
}

/// `String::push`: appends one character; the text becomes the old text followed
/// by that character, as the method's documentation states.
#[verifier::external_body]
pub(crate) fn push_char(s: &mut String, c: char)
    ensures
        final(s)@ == old(s)@.push(c),
{
    s.push(c);
}

/// Appends the characters `v` to `s`.
pub fn push_chars(s: &mut String, v: &Vec<char>)
    ensures
        final(s)@ == old(s)@ + v@,
{
    let ghost s0 = s@;
    let mut i: usize = 0;
    while i < v.len()
        invariant
            i <= v.len(),
            s@ == s0 + v@.subrange(0, i as int),
        decreases v.len() - i,
    {
        push_char(s, v[i]);
        i = i + 1;
        assert(s@ =~= s0 + v@.subrange(0, i as int));
    }
    assert(v@.subrange(0, i as int) =~= v@);
}

/// A `String` holding the characters `v`.
pub fn string_from_chars(v: &Vec<char>) -> (s: String)
    ensures
        s@ == v@,
{
    let mut s = String::new();
    push_chars(&mut s, v);
    assert(s@ =~= v@);
    s
}

/// The ASCII digit for a value below ten.
pub open spec fn digit_char(d: nat) -> char {
    ((48 + d) as u32) as char
}

/// The decimal numeral of a natural number, without leading zeros.
pub open spec fn decimal(n: nat) -> Seq<char>
    decreases n,
{
    if n < 10 {
        seq![digit_char(n)]
    } else {
        decimal(n / 10).push(digit_char(n % 10))
    }
}

/// Appends the decimal numeral of `n` to `s`.
pub fn push_decimal(s: &mut String, n: u64)
    ensures
        final(s)@ == old(s)@ + decimal(n as nat),
    decreases n,
{
    let ghost s0 = s@;
    if n >= 10 {
        push_decimal(s, n / 10);
    }
    let d: u8 = (n % 10) as u8;
    let c = (48u8 + d) as char;
    push_char(s, c);
    assert(s@ =~= s0 + decimal(n as nat));
}

/// Appends the decimal numeral of a signed `n` to `s`, with a leading `-` when negative.
pub fn push_signed_decimal(s: &mut String, n: i64)
    ensures
        final(s)@ == old(s)@ + signed_decimal(n as int),
{
    if n < 0 {
        s.append("-");
        let m: u64 = if n == i64::MIN {
            9_223_372_036_854_775_808u64
        } else {
            (-n) as u64
        };
        push_decimal(s, m);
    } else {
        push_decimal(s, n as u64);
    }
}

/// The decimal numeral of an integer, with a leading `-` when negative.
pub open spec fn signed_decimal(n: int) -> Seq<char> {
    if n < 0 { "-"@ + decimal((-n) as nat) } else { decimal(n as nat) }
}

/// The displayed width in columns that `unicode_width` gives a character, `None`
/// for a control character.
pub uninterp spec fn unicode_char_width(c: char) -> Option<usize>;

/// `UnicodeWidthChar::width` (unicode-width): the column width of a character under
/// Unicode Annex #11, ambiguous characters narrow. Claimed here, as its source
/// shows: printable ASCII is one column wide, the C0 and C1 control characters
/// have no width, every character from U+00A0 on has one, and no width exceeds 3.
#[verifier::external_body]
fn char_width(c: char) -> (w: Option<usize>)
    ensures
        w == unicode_char_width(c),
        0x20 <= (c as u32) < 0x7F ==> w == Some(1usize),
        (c as u32) < 0x20 || (0x7F <= (c as u32) && (c as u32) < 0xA0) ==> w is None,
        (c as u32) >= 0xA0 ==> w is Some,
        w matches Some(n) ==> n <= 3,
{
    unicode_width::UnicodeWidthChar::width(c)
}

/// The columns a character takes, zero for a control character.
pub open spec fn columns(c: char) -> nat {
    match unicode_char_width(c) {
        Some(n) => n as nat,
        None => 0,
    }
}

/// The columns a text takes: the sum over its characters.
pub open spec fn text_width(s: Seq<char>) -> nat
    decreases s.len(),
{
    if s.len() == 0 {
        0
    } else {
        text_width(s.drop_last()) + columns(s.last())
    }
}

/// The columns a text takes on screen.
pub fn display_width(value: &str) -> (w: usize)
    requires
        3 * value@.len() <= usize::MAX,
    ensures
        w == text_width(value@),
{
    let chars = chars_of(value);
    let mut w: usize = 0;
    let mut i: usize = 0;
    while i < chars.len()
        invariant
            chars@ == value@,
            3 * value@.len() <= usize::MAX,
            i <= chars.len(),
            w == text_width(chars@.subrange(0, i as int)),
            w <= 3 * i,
        decreases chars.len() - i,
    {
        let cw = match char_width(chars[i]) {
            Some(n) => n,
            None => 0,
        };
        proof {
            let p = chars@.subrange(0, i + 1);
            assert(p.drop_last() =~= chars@.subrange(0, i as int));
        }
        w = w + cw;
        i = i + 1;
    }
    assert(chars@.subrange(0, i as int) =~= value@);
    w
}

/// How many leading characters fit within `target` columns, counting from `k`:
/// characters are taken while the running width stays within the target.
pub open spec fn fitting_prefix(s: Seq<char>, target: nat, k: nat) -> nat
    decreases s.len() - k,
{
    if k < s.len() && text_width(s.subrange(0, (k + 1) as int)) <= target {
        fitting_prefix(s, target, k + 1)
    } else {
        k
    }
}

/// A tip's text as it fits in `max_columns` columns: the whole text when it fits,
/// otherwise the longest prefix that fits in three columns less, followed by `...`.
pub open spec fn spec_truncate_tip(s: Seq<char>, max_columns: nat) -> Seq<char> {
    if text_width(s) <= max_columns {
        s
    } else {
        let target = if max_columns >= 3 { (max_columns - 3) as nat } else { 0 };
        s.subrange(0, fitting_prefix(s, target, 0) as int) + "..."@
    }
}

proof fn lemma_fitting_prefix_from(s: Seq<char>, target: nat, k: nat, j: nat)
    requires
        k <= j <= s.len(),
        forall|m: nat| k < m <= j ==> text_width(#[trigger] s.subrange(0, m as int)) <= target,
        j == s.len() || text_width(s.subrange(0, (j + 1) as int)) > target,
    ensures
        fitting_prefix(s, target, k) == j,
    decreases j - k,
{
    if k < j {
        assert(text_width(s.subrange(0, (k + 1) as int)) <= target);
        lemma_fitting_prefix_from(s, target, k + 1, j);
    }
}

/// Shortens a tip's text to `max_columns` columns, marking the cut with `...`.
pub fn truncate_tip(value: &str, max_columns: usize) -> (t: String)
    requires
        3 * value@.len() <= usize::MAX,
    ensures
        t@ == spec_truncate_tip(value@, max_columns as nat),
        max_columns >= 3 ==> text_width(t@) <= max_columns,
{
    if display_width(value) <= max_columns {
        return String::from_str(value);
    }
    let target: usize = if max_columns >= 3 { max_columns - 3 } else { 0 };
    let chars = chars_of(value);
    let mut width: usize = 0;
    let mut output = String::new();
    let mut i: usize = 0;
    let mut full = false;
    while i < chars.len() && !full
        invariant
            chars@ == value@,
            3 * value@.len() <= usize::MAX,
            i <= chars.len(),
            width == text_width(chars@.subrange(0, i as int)),
            width <= target,
            output@ == chars@.subrange(0, i as int),
            forall|m: nat| 0 < m <= i ==> text_width(#[trigger] chars@.subrange(0, m as int)) <= target,
            full ==> i < chars.len() && text_width(chars@.subrange(0, i + 1)) > target,
        decreases chars.len() - i, if full { 0int } else { 1int },
    {
        let cw = match char_width(chars[i]) {
            Some(n) => n,
            None => 0,
        };
        proof {
            let p = chars@.subrange(0, i + 1);
            assert(p.drop_last() =~= chars@.subrange(0, i as int));
        }
        if cw > target - width {
            full = true;
        } else {
            width = width + cw;
            push_char(&mut output, chars[i]);
            i = i + 1;
            assert(output@ =~= chars@.subrange(0, i as int));
        }
    }
    proof {
        lemma_fitting_prefix_from(chars@, target as nat, 0, i as nat);
    }
    // The marker's dots are printable ASCII, one column each.
    let dot_columns = char_width('.');
    proof {
        reveal_strlit("...");
        assert(dot_columns == Some(1usize));
        let marker = "..."@;
        assert(columns('.') == 1);
        let one = marker.drop_last().drop_last();
        let two = marker.drop_last();
        assert(marker.len() == 3);
        assert(one.len() == 1);
        assert(one.drop_last() =~= Seq::<char>::empty());
        assert(text_width(Seq::<char>::empty()) == 0);
        assert(text_width(one.drop_last()) == 0);
        assert(one.last() == '.' && two.last() == '.' && marker.last() == '.');
        assert(text_width(one) == 1);
        assert(text_width(two) == 2);
        assert(text_width(marker) == 3);
        law_truncated_tip_fits(value@, max_columns as nat);
    }
    output.append("...");
    output
}


/// The columns of two texts put together add up.
proof fn lemma_text_width_concat(a: Seq<char>, b: Seq<char>)
    ensures
        text_width(a + b) == text_width(a) + text_width(b),
    decreases b.len(),
{
    if b.len() == 0 {
        assert(a + b =~= a);
    } else {
        lemma_text_width_concat(a, b.drop_last());
        assert((a + b).drop_last() =~= a + b.drop_last());
        assert((a + b).last() == b.last());
    }
}

/// The prefix kept by `fitting_prefix` stays within its target.
proof fn lemma_fitting_prefix_fits(s: Seq<char>, target: nat, k: nat)
    requires
        k <= s.len(),
        text_width(s.subrange(0, k as int)) <= target,
    ensures
        k <= fitting_prefix(s, target, k) <= s.len(),
        text_width(s.subrange(0, fitting_prefix(s, target, k) as int)) <= target,
    decreases s.len() - k,
{
    if k < s.len() && text_width(s.subrange(0, (k + 1) as int)) <= target {
        lemma_fitting_prefix_fits(s, target, k + 1);
    }
}

/// Law: a shortened tip stays within its budget. A text that fits is kept
/// whole; one that does not keeps a prefix that fits in three columns less than
/// the limit (none when the limit is below three), followed by the `...` marker.
/// With the marker three columns wide, the result never exceeds a limit of three
/// columns or more.
pub proof fn law_truncated_tip_fits(s: Seq<char>, max_columns: nat)
    ensures
        text_width(s) <= max_columns ==> spec_truncate_tip(s, max_columns) == s,
        text_width(s) > max_columns ==> text_width(spec_truncate_tip(s, max_columns)) <= (if max_columns
            >= 3 {
            (max_columns - 3) as nat
        } else {
            0nat
        }) + text_width("..."@),
{
    if text_width(s) > max_columns {
        let target: nat = if max_columns >= 3 { (max_columns - 3) as nat } else { 0 };
        assert(s.subrange(0, 0) =~= Seq::<char>::empty());
        lemma_fitting_prefix_fits(s, target, 0);
        let kept = s.subrange(0, fitting_prefix(s, target, 0) as int);
        lemma_text_width_concat(kept, "..."@);
    }
}

} // verus!
