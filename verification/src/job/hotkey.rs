//! Parsing of hotkey texts such as `Ctrl+Alt+R` or `F8`.

use crate::job::Hotkey;
use crate::text::{
    ascii_lower_all, ascii_lower_chars, ascii_upper, ascii_upper_all, ascii_upper_chars, chars_eq_str, chars_of,
    decimal, digit_char, is_white_space, push_chars, push_decimal, trim, trim_chars, trim_end, trim_start,
};
use vstd::prelude::*;
use vstd::string::*;

verus! {

/// The Windows modifier bit of the Alt key.
pub const MOD_ALT: u32 = 0x0001;

/// The Windows modifier bit of the Control key.
pub const MOD_CONTROL: u32 = 0x0002;

/// The Windows modifier bit of the Shift key.
pub const MOD_SHIFT: u32 = 0x0004;

/// The Windows modifier bit of the Windows key.
pub const MOD_WIN: u32 = 0x0008;

/// The pieces of a text between `+` signs, as `str::split('+')` yields them.
pub open spec fn split_plus(s: Seq<char>) -> Seq<Seq<char>>
    decreases s.len(),
{
    if s.len() == 0 {
        seq![Seq::empty()]
    } else {
        let prev = split_plus(s.drop_last());
        if s.last() == '+' {
            prev.push(Seq::empty())
        } else {
            prev.update(prev.len() - 1, prev.last().push(s.last()))
        }
    }
}

proof fn lemma_split_plus_nonempty(s: Seq<char>)
    ensures
        split_plus(s).len() >= 1,
    decreases s.len(),
{
    if s.len() > 0 {
        lemma_split_plus_nonempty(s.drop_last());
    }
}

/// The trimmed pieces of a hotkey text.
pub open spec fn hotkey_parts(value: Seq<char>) -> Seq<Seq<char>> {
    split_plus(value).map_values(|p: Seq<char>| trim(p))
}

/// Which modifier a name denotes, compared without regard to ASCII case:
/// 1 Ctrl, 2 Alt, 3 Shift, 4 Win, 0 none.
pub open spec fn modifier_kind(m: Seq<char>) -> int {
    let lower = ascii_lower_all(m);
    if lower == "ctrl"@ || lower == "control"@ {
        1
    } else if lower == "alt"@ {
        2
    } else if lower == "shift"@ {
        3
    } else if lower == "win"@ || lower == "meta"@ {
        4
    } else {
        0
    }
}

/// Whether the modifier of a kind is already held.
pub open spec fn flag_of(f: (bool, bool, bool, bool), kind: int) -> bool {
    if kind == 1 {
        f.0
    } else if kind == 2 {
        f.1
    } else if kind == 3 {
        f.2
    } else {
        f.3
    }
}

/// The held modifiers with the modifier of a kind added.
pub open spec fn with_flag(f: (bool, bool, bool, bool), kind: int) -> (bool, bool, bool, bool) {
    if kind == 1 {
        (true, f.1, f.2, f.3)
    } else if kind == 2 {
        (f.0, true, f.2, f.3)
    } else if kind == 3 {
        (f.0, f.1, true, f.3)
    } else {
        (f.0, f.1, f.2, true)
    }
}

/// The modifiers named, in order, each at most once; or the message of the first
/// name that is unknown or repeated.
pub open spec fn fold_modifiers(ms: Seq<Seq<char>>) -> Result<(bool, bool, bool, bool), Seq<char>>
    decreases ms.len(),
{
    if ms.len() == 0 {
        Ok((false, false, false, false))
    } else {
        match fold_modifiers(ms.drop_last()) {
            Err(e) => Err(e),
            Ok(f) => {
                let m = ms.last();
                let kind = modifier_kind(m);
                if kind == 0 {
                    Err("Unsupported hotkey modifier: "@ + m)
                } else if flag_of(f, kind) {
                    Err("Duplicate hotkey modifier: "@ + m)
                } else {
                    Ok(with_flag(f, kind))
                }
            },
        }
    }
}

/// The Windows modifier bits of held modifiers.
pub open spec fn modifier_bits(f: (bool, bool, bool, bool)) -> u32 {
    ((if f.1 { MOD_ALT } else { 0 }) + (if f.0 { MOD_CONTROL } else { 0 }) + (if f.2 {
        MOD_SHIFT
    } else {
        0
    }) + (if f.3 { MOD_WIN } else { 0 })) as u32
}

/// The display text of a hotkey: the held modifiers in the order Ctrl, Alt, Shift,
/// Win, then the key, joined by `+`.
pub open spec fn hotkey_display(f: (bool, bool, bool, bool), key_name: Seq<char>) -> Seq<char> {
    (if f.0 { "Ctrl+"@ } else { Seq::empty() }) + (if f.1 { "Alt+"@ } else { Seq::empty() }) + (
    if f.2 { "Shift+"@ } else { Seq::empty() }) + (if f.3 { "Win+"@ } else { Seq::empty() })
        + key_name
}

/// An ASCII letter or digit.
pub open spec fn is_ascii_alphanumeric(c: char) -> bool {
    ('0' <= c && c <= '9') || ('a' <= c && c <= 'z') || ('A' <= c && c <= 'Z')
}

/// An ASCII digit.
pub open spec fn is_ascii_digit(c: char) -> bool {
    '0' <= c && c <= '9'
}

/// The value of a numeral made of ASCII digits.
pub open spec fn digits_value(s: Seq<char>) -> nat
    decreases s.len(),
{
    if s.len() == 0 {
        0
    } else {
        digits_value(s.drop_last()) * 10 + ((s.last() as u32) - 48) as nat
    }
}

/// A numeral without its optional leading `+`.
pub open spec fn numeral_digits(s: Seq<char>) -> Seq<char> {
    if s.len() > 0 && s[0] == '+' { s.subrange(1, s.len() as int) } else { s }
}

/// Every character is an ASCII digit.
pub open spec fn all_ascii_digits(d: Seq<char>) -> bool {
    forall|i: int| 0 <= i < d.len() ==> is_ascii_digit(#[trigger] d[i])
}

/// The numeral's value as `u32::from_str` reads it: an optional `+`, then one or
/// more ASCII digits, with a value that fits in `u32`.
pub open spec fn spec_parse_u32(s: Seq<char>) -> Option<u32> {
    let digits = numeral_digits(s);
    if digits.len() > 0 && all_ascii_digits(digits) && digits_value(digits) <= u32::MAX {
        Some(digits_value(digits) as u32)
    } else {
        None
    }
}

/// The key of a hotkey: its virtual key code, its display name, and whether it may
/// be used without a modifier; or the message for an unsupported key.
pub open spec fn key_spec(key: Seq<char>) -> Result<(u32, Seq<char>, bool), Seq<char>> {
    let upper = ascii_upper_all(key);
    if upper == "SPACE"@ {
        Ok((0x20u32, "Space"@, false))
    } else if upper == "ENTER"@ {
        Ok((0x0Du32, "Enter"@, false))
    } else if upper == "ESC"@ || upper == "ESCAPE"@ {
        Ok((0x1Bu32, "Escape"@, false))
    } else if upper == "TAB"@ {
        Ok((0x09u32, "Tab"@, false))
    } else if upper.len() == 1 && is_ascii_alphanumeric(upper[0]) {
        Ok((upper[0] as u32, upper, false))
    } else if upper.len() > 0 && upper[0] == 'F' {
        match spec_parse_u32(upper.subrange(1, upper.len() as int)) {
            None => Err("Unsupported hotkey key: "@ + key),
            Some(n) => if 1 <= n && n <= 24 {
                Ok(((0x70 + n - 1) as u32, "F"@ + decimal(n as nat), true))
            } else {
                Err("Function keys must be in the range F1..F24: "@ + key)
            },
        }
    } else {
        Err("Unsupported hotkey key: "@ + key)
    }
}

/// A hotkey text read as modifier bits, virtual key code and display text, or the
/// message that says why it is refused.
pub open spec fn spec_parse_hotkey(value: Seq<char>) -> Result<(u32, u32, Seq<char>), Seq<char>> {
    let ps = hotkey_parts(value);
    if (exists|i: int| 0 <= i < ps.len() && (#[trigger] ps[i]).len() == 0) || ps.len() > 5 {
        Err("Hotkey format should be like Ctrl+Alt+R or F8"@)
    } else {
        match fold_modifiers(ps.drop_last()) {
            Err(e) => Err(e),
            Ok(f) => match key_spec(ps.last()) {
                Err(e) => Err(e),
                Ok((vk, name, plain_allowed)) => if f == (false, false, false, false)
                    && !plain_allowed {
                    Err("Letters, numbers, and ordinary keys must have at least one modifier key"@)
                } else {
                    Ok((modifier_bits(f), vk, hotkey_display(f, name)))
                },
            },
        }
    }
}

/// The views of a list of character vectors.
pub open spec fn views(v: Seq<Vec<char>>) -> Seq<Seq<char>> {
    v.map_values(|p: Vec<char>| p@)
}

/// The trimmed pieces of `value` between `+` signs.
fn split_trimmed_parts(value: &str) -> (parts: Vec<Vec<char>>)
    ensures
        views(parts@) == hotkey_parts(value@),
{
    let chars = chars_of(value);
    let mut raw: Vec<Vec<char>> = Vec::new();
    let mut cur: Vec<char> = Vec::new();
    let mut k: usize = 0;
    assert(chars@.subrange(0, 0) =~= Seq::<char>::empty());
    assert(views(raw@).push(cur@) =~= split_plus(chars@.subrange(0, 0)));
    while k < chars.len()
        invariant
            k <= chars.len(),
            views(raw@).push(cur@) == split_plus(chars@.subrange(0, k as int)),
        decreases chars.len() - k,
    {
        let ghost before = chars@.subrange(0, k as int);
        let c = chars[k];
        proof {
            let after = chars@.subrange(0, k + 1);
            assert(after.drop_last() =~= before);
            assert(after.last() == c);
            lemma_split_plus_nonempty(before);
        }
        if c == '+' {
            let done = cur;
            raw.push(done);
            cur = Vec::new();
            proof {
                assert(views(raw@).push(cur@) =~= split_plus(before).push(Seq::empty()));
            }
        } else {
            cur.push(c);
            proof {
                let prev = split_plus(before);
                assert(views(raw@).push(cur@) =~= prev.update(prev.len() - 1, prev.last().push(c)));
            }
        }
        k = k + 1;
    }
    assert(chars@.subrange(0, k as int) =~= value@);
    raw.push(cur);
    let mut parts: Vec<Vec<char>> = Vec::new();
    let mut i: usize = 0;
    while i < raw.len()
        invariant
            i <= raw.len(),
            views(raw@) == split_plus(value@),
            views(parts@) == hotkey_parts(value@).subrange(0, i as int),
            parts.len() == i,
        decreases raw.len() - i,
    {
        let t = trim_chars(&raw[i]);
        proof {
            assert(views(raw@)[i as int] == raw@[i as int]@);
            assert(hotkey_parts(value@)[i as int] == trim(split_plus(value@)[i as int]));
        }
        let ghost old_parts = parts@;
        parts.push(t);
        i = i + 1;
        proof {
            assert(parts@ == old_parts.push(t));
            assert forall|k: int| 0 <= k < i implies #[trigger] views(parts@)[k] == hotkey_parts(value@)[k] by {
                if k < i - 1 {
                    assert(views(parts@)[k] == parts@[k]@);
                    assert(parts@[k] == old_parts[k]);
                    assert(views(old_parts)[k] == hotkey_parts(value@).subrange(0, i - 1)[k]);
                }
            }
            assert(views(parts@) =~= hotkey_parts(value@).subrange(0, i as int));
        }
    }
    assert(hotkey_parts(value@).subrange(0, i as int) =~= hotkey_parts(value@));
    parts
}

/// The value of `s[from..]` read as `u32::from_str` reads it.
fn parse_u32_chars(s: &Vec<char>, from: usize) -> (r: Option<u32>)
    requires
        from <= s.len(),
    ensures
        r == spec_parse_u32(s@.subrange(from as int, s.len() as int)),
{
    let ghost whole = s@.subrange(from as int, s.len() as int);
    let mut start = from;
    if start < s.len() && s[start] == '+' {
        start = start + 1;
    }
    let ghost digits = s@.subrange(start as int, s.len() as int);
    assert(digits == numeral_digits(whole));
    if start >= s.len() {
        return None;
    }
    // The value read so far, capped just above `u32::MAX`.
    let cap: u64 = 4_294_967_296;
    let mut acc: u64 = 0;
    let mut i: usize = start;
    while i < s.len()
        invariant
            from <= start <= i <= s.len(),
            digits == s@.subrange(start as int, s.len() as int),
            whole == s@.subrange(from as int, s.len() as int),
            digits == numeral_digits(whole),
            cap == 4_294_967_296u64,
            forall|k: int| start <= k < i ==> is_ascii_digit(#[trigger] s@[k]),
            acc as int == if digits_value(s@.subrange(start as int, i as int)) < cap {
                digits_value(s@.subrange(start as int, i as int)) as int
            } else {
                cap as int
            },
        decreases s.len() - i,
    {
        let c = s[i];
        if !('0' <= c && c <= '9') {
            proof {
                assert(digits[i - start] == c);
                assert(!is_ascii_digit(digits[i - start]));
                assert(!all_ascii_digits(digits));
            }
            return None;
        }
        assert(48 <= c as u32 <= 57);
        let d: u64 = ((c as u32) - 48) as u64;
        proof {
            let p = s@.subrange(start as int, i as int);
            let q = s@.subrange(start as int, i + 1);
            assert(q.drop_last() =~= p);
            assert(digits_value(q) == digits_value(p) * 10 + d);
        }
        proof {
            let v = digits_value(s@.subrange(start as int, i as int));
            if v >= cap {
                assert(v * 10 + d >= cap) by (nonlinear_arith)
                    requires
                        v >= cap,
                        d >= 0,
                ;
            }
        }
        if acc >= cap {
            acc = cap;
        } else {
            let next = acc * 10 + d;
            acc = if next >= cap { cap } else { next };
        }
        i = i + 1;
    }
    proof {
        assert(s@.subrange(start as int, i as int) =~= digits);
        assert forall|k: int| 0 <= k < digits.len() implies is_ascii_digit(#[trigger] digits[k]) by {
            assert(digits[k] == s@[k + start]);
        }
    }
    if acc >= cap {
        None
    } else {
        Some(acc as u32)
    }
}

/// Once folding the modifiers fails, later names do not change the message.
proof fn lemma_fold_err_persists(ms: Seq<Seq<char>>, i: int)
    requires
        0 <= i <= ms.len(),
        fold_modifiers(ms.subrange(0, i)) is Err,
    ensures
        fold_modifiers(ms) == fold_modifiers(ms.subrange(0, i)),
    decreases ms.len() - i,
{
    if i == ms.len() {
        assert(ms.subrange(0, i) =~= ms);
    } else {
        let next = ms.subrange(0, i + 1);
        assert(next.drop_last() =~= ms.subrange(0, i));
        lemma_fold_err_persists(ms, i + 1);
    }
}

fn message_with(prefix: &str, text: &Vec<char>) -> (s: String)
    ensures
        s@ == prefix@ + text@,
{
    let mut s = String::from_str(prefix);
    push_chars(&mut s, text);
    s
}

impl Hotkey {
    /// The Windows modifier bits.
    pub closed spec fn spec_modifiers(&self) -> u32 {
        self.modifiers
    }

    /// The Windows virtual key code.
    pub closed spec fn spec_virtual_key(&self) -> u32 {
        self.virtual_key
    }

    /// The display text, such as `Ctrl+Alt+R`.
    pub closed spec fn spec_display(&self) -> Seq<char> {
        self.display@
    }

    pub fn modifiers(&self) -> (m: u32)
        ensures
            m == self.spec_modifiers(),
    {
        self.modifiers
    }

    pub fn virtual_key(&self) -> (k: u32)
        ensures
            k == self.spec_virtual_key(),
    {
        self.virtual_key
    }

    /// The display text, such as `Ctrl+Alt+R`.
    pub fn display_text(&self) -> (s: String)
        ensures
            s@ == self.spec_display(),
    {
        self.display.clone()
    }

    /// Reads a hotkey such as `Ctrl+Alt+R` or `F8`.
    pub fn parse(value: &str) -> (r: Result<Self, String>)
        ensures
            match spec_parse_hotkey(value@) {
                Ok((m, vk, d)) => r matches Ok(h) && h.spec_modifiers() == m && h.spec_virtual_key()
                    == vk && h.spec_display() == d,
                Err(msg) => r matches Err(e) && e@ == msg,
            },
    {
        let parts = split_trimmed_parts(value);
        let ghost ps = views(parts@);
        let n = parts.len();
        assert(ps.len() == n);
        let mut any_empty = false;
        let mut i: usize = 0;
        while i < n
            invariant
                n == parts.len(),
                ps == views(parts@),
                i <= n,
                any_empty == exists|k: int| 0 <= k < i && (#[trigger] ps[k]).len() == 0,
            decreases n - i,
        {
            if parts[i].len() == 0 {
                any_empty = true;
                assert(ps[i as int].len() == 0);
            }
            i = i + 1;
        }
        if any_empty || n > 5 {
            return Err(String::from_str("Hotkey format should be like Ctrl+Alt+R or F8"));
        }
        proof {
            lemma_split_plus_nonempty(value@);
        }
        let mods = n - 1;
        let ghost ms = ps.drop_last();
        let mut ctrl = false;
        let mut alt = false;
        let mut shift = false;
        let mut win = false;
        let mut j: usize = 0;
        assert(ms.subrange(0, 0) =~= Seq::<Seq<char>>::empty());
        while j < mods
            invariant
                mods == n - 1,
                n == parts.len(),
                ps == views(parts@),
                ms == ps.drop_last(),
                ps == hotkey_parts(value@),
                ps.len() == n,
                n <= 5,
                n >= 1,
                !exists|k: int| 0 <= k < ps.len() && (#[trigger] ps[k]).len() == 0,
                j <= mods,
                fold_modifiers(ms.subrange(0, j as int)) == Ok::<(bool, bool, bool, bool), Seq<char>>((ctrl, alt, shift, win)),
            decreases mods - j,
        {
            let m = &parts[j];
            let lower = ascii_lower_chars(m);
            let kind: u8 = if chars_eq_str(&lower, "ctrl") || chars_eq_str(&lower, "control") {
                1
            } else if chars_eq_str(&lower, "alt") {
                2
            } else if chars_eq_str(&lower, "shift") {
                3
            } else if chars_eq_str(&lower, "win") || chars_eq_str(&lower, "meta") {
                4
            } else {
                0
            };
            proof {
                let next = ms.subrange(0, j + 1);
                assert(next.drop_last() =~= ms.subrange(0, j as int));
                assert(next.last() == m@);
                assert(kind as int == modifier_kind(m@));
            }
            if kind == 0 {
                let msg = message_with("Unsupported hotkey modifier: ", m);
                proof {
                    assert(fold_modifiers(ms.subrange(0, j + 1)) == Err::<(bool, bool, bool, bool), Seq<char>>(msg@));
                    lemma_fold_err_persists(ms, j + 1);
                }
                return Err(msg);
            }
            let held = if kind == 1 {
                ctrl
            } else if kind == 2 {
                alt
            } else if kind == 3 {
                shift
            } else {
                win
            };
            if held {
                let msg = message_with("Duplicate hotkey modifier: ", m);
                proof {
                    assert(fold_modifiers(ms.subrange(0, j + 1)) == Err::<(bool, bool, bool, bool), Seq<char>>(msg@));
                    lemma_fold_err_persists(ms, j + 1);
                }
                return Err(msg);
            }
            if kind == 1 {
                ctrl = true;
            } else if kind == 2 {
                alt = true;
            } else if kind == 3 {
                shift = true;
            } else {
                win = true;
            }
            j = j + 1;
        }
        assert(ms.subrange(0, mods as int) =~= ms);
        let key = &parts[mods];
        assert(key@ == ps.last());
        let upper = ascii_upper_chars(key);
        let mut display = String::new();
        if ctrl {
            display.append("Ctrl+");
        }
        if alt {
            display.append("Alt+");
        }
        if shift {
            display.append("Shift+");
        }
        if win {
            display.append("Win+");
        }
        let ghost prefix = display@;
        assert(prefix == hotkey_display((ctrl, alt, shift, win), Seq::empty())) by {
            assert(hotkey_display((ctrl, alt, shift, win), Seq::empty()) =~= (if ctrl { "Ctrl+"@ } else { Seq::empty() }) + (if alt { "Alt+"@ } else { Seq::empty() }) + (if shift { "Shift+"@ } else { Seq::empty() }) + (if win { "Win+"@ } else { Seq::empty() }));
        }
        let virtual_key: u32;
        let plain_key_allowed: bool;
        if chars_eq_str(&upper, "SPACE") {
            virtual_key = 0x20;
            display.append("Space");
            plain_key_allowed = false;
        } else if chars_eq_str(&upper, "ENTER") {
            virtual_key = 0x0D;
            display.append("Enter");
            plain_key_allowed = false;
        } else if chars_eq_str(&upper, "ESC") || chars_eq_str(&upper, "ESCAPE") {
            virtual_key = 0x1B;
            display.append("Escape");
            plain_key_allowed = false;
        } else if chars_eq_str(&upper, "TAB") {
            virtual_key = 0x09;
            display.append("Tab");
            plain_key_allowed = false;
        } else if upper.len() == 1 && (('0' <= upper[0] && upper[0] <= '9') || ('a' <= upper[0]
            && upper[0] <= 'z') || ('A' <= upper[0] && upper[0] <= 'Z')) {
            virtual_key = upper[0] as u32;
            push_chars(&mut display, &upper);
            plain_key_allowed = false;
        } else if upper.len() > 0 && upper[0] == 'F' {
            match parse_u32_chars(&upper, 1) {
                None => {
                    return Err(message_with("Unsupported hotkey key: ", key));
                },
                Some(number) => {
                    if !(1 <= number && number <= 24) {
                        return Err(message_with("Function keys must be in the range F1..F24: ", key));
                    }
                    virtual_key = 0x70 + number - 1;
                    display.append("F");
                    push_decimal(&mut display, number as u64);
                    plain_key_allowed = true;
                },
            }
        } else {
            return Err(message_with("Unsupported hotkey key: ", key));
        }
        proof {
            let ks = key_spec(key@);
            assert(ks matches Ok((vk, name, plain)) && vk == virtual_key && plain == plain_key_allowed
                && display@ == prefix + name);
        }
        if !ctrl && !alt && !shift && !win && !plain_key_allowed {
            return Err(String::from_str(
                "Letters, numbers, and ordinary keys must have at least one modifier key",
            ));
        }
        let modifiers: u32 = (if alt { MOD_ALT } else { 0 }) + (if ctrl { MOD_CONTROL } else { 0 })
            + (if shift { MOD_SHIFT } else { 0 }) + (if win { MOD_WIN } else { 0 });
        Ok(Hotkey { modifiers, virtual_key, display })
    }
}

/// Two hotkeys are the same key combination.
pub open spec fn same_hotkey(a: Hotkey, b: Hotkey) -> bool {
    &&& a.spec_modifiers() == b.spec_modifiers()
    &&& a.spec_virtual_key() == b.spec_virtual_key()
    &&& a.spec_display() == b.spec_display()
}

/// Two optional hotkeys are both absent or the same key combination.
pub open spec fn same_optional_hotkey(a: Option<Hotkey>, b: Option<Hotkey>) -> bool {
    match (a, b) {
        (None, None) => true,
        (Some(x), Some(y)) => same_hotkey(x, y),
        _ => false,
    }
}

impl Hotkey {
    /// A copy of the hotkey.
    pub fn duplicate(&self) -> (h: Hotkey)
        ensures
            same_hotkey(h, *self),
    {
        Hotkey {
            modifiers: self.modifiers,
            virtual_key: self.virtual_key,
            display: self.display.clone(),
        }
    }

    /// Whether two hotkeys are the same key combination.
    pub fn same_as(&self, other: &Hotkey) -> (b: bool)
        ensures
            b == same_hotkey(*self, *other),
    {
        self.modifiers == other.modifiers && self.virtual_key == other.virtual_key && self.display
            == other.display
    }
}


/// A text with no `+` splits into itself alone.
proof fn lemma_split_no_plus(t: Seq<char>)
    requires
        forall|i: int| 0 <= i < t.len() ==> t[i] != '+',
    ensures
        split_plus(t) == seq![t],
    decreases t.len(),
{
    if t.len() > 0 {
        let p = t.drop_last();
        lemma_split_no_plus(p);
        assert(t.last() != '+');
        assert(p.push(t.last()) =~= t);
        assert(seq![p].update(0, p.push(t.last())) =~= seq![t]);
    } else {
        assert(t =~= Seq::<char>::empty());
    }
}

/// Splitting at a `+` splits each side on its own.
proof fn lemma_split_join(x: Seq<char>, y: Seq<char>)
    ensures
        split_plus(x + seq!['+'] + y) == split_plus(x) + split_plus(y),
    decreases y.len(),
{
    let xp = x + seq!['+'];
    assert(xp.drop_last() =~= x);
    if y.len() == 0 {
        assert(xp + y =~= xp);
        assert(split_plus(x).push(Seq::<char>::empty()) =~= split_plus(x) + split_plus(y));
    } else {
        let y0 = y.drop_last();
        lemma_split_join(x, y0);
        lemma_split_plus_nonempty(y0);
        lemma_split_plus_nonempty(x);
        assert((xp + y).drop_last() =~= xp + y0);
        assert((xp + y).last() == y.last());
        let a = split_plus(x);
        let b = split_plus(y0);
        if y.last() == '+' {
            assert((a + b).push(Seq::<char>::empty()) =~= a + b.push(Seq::<char>::empty()));
        } else {
            assert((a + b).update((a + b).len() - 1, (a + b).last().push(y.last())) =~= a
                + b.update(b.len() - 1, b.last().push(y.last())));
        }
    }
}

/// A word with no `+`, followed by `+` and the rest, splits into the word and the
/// pieces of the rest.
proof fn lemma_split_word(w: Seq<char>, r: Seq<char>)
    requires
        forall|i: int| 0 <= i < w.len() ==> w[i] != '+',
    ensures
        split_plus(w + seq!['+'] + r) == seq![w] + split_plus(r),
{
    lemma_split_join(w, r);
    lemma_split_no_plus(w);
}

/// A text whose first and last characters are not white space is its own trim.
proof fn lemma_trim_plain(s: Seq<char>)
    requires
        s.len() > 0,
        !is_white_space(s[0]),
        !is_white_space(s.last()),
    ensures
        trim(s) == s,
{
    assert(trim_start(s) == s);
    assert(trim_end(s) == s);
}

/// The modifier names a display text starts with, in display order.
pub open spec fn modifier_names(f: (bool, bool, bool, bool)) -> Seq<Seq<char>> {
    let s1 = if f.0 { seq!["Ctrl"@] } else { Seq::empty() };
    let s2 = if f.1 { s1.push("Alt"@) } else { s1 };
    let s3 = if f.2 { s2.push("Shift"@) } else { s2 };
    if f.3 { s3.push("Win"@) } else { s3 }
}

/// A key name as the display shows it: not empty, no `+`, no white space at its ends.
pub open spec fn plain_word(w: Seq<char>) -> bool {
    &&& w.len() > 0
    &&& forall|i: int| 0 <= i < w.len() ==> w[i] != '+'
    &&& !is_white_space(w[0])
    &&& !is_white_space(w.last())
}

proof fn lemma_modifier_words()
    ensures
        plain_word("Ctrl"@),
        plain_word("Alt"@),
        plain_word("Shift"@),
        plain_word("Win"@),
        "Ctrl+"@ == "Ctrl"@ + seq!['+'],
        "Alt+"@ == "Alt"@ + seq!['+'],
        "Shift+"@ == "Shift"@ + seq!['+'],
        "Win+"@ == "Win"@ + seq!['+'],
        modifier_kind("Ctrl"@) == 1,
        modifier_kind("Alt"@) == 2,
        modifier_kind("Shift"@) == 3,
        modifier_kind("Win"@) == 4,
{
    reveal_strlit("Ctrl");
    reveal_strlit("Alt");
    reveal_strlit("Shift");
    reveal_strlit("Win");
    reveal_strlit("Ctrl+");
    reveal_strlit("Alt+");
    reveal_strlit("Shift+");
    reveal_strlit("Win+");
    reveal_strlit("ctrl");
    reveal_strlit("control");
    reveal_strlit("alt");
    reveal_strlit("shift");
    reveal_strlit("win");
    reveal_strlit("meta");
    assert("Ctrl+"@ =~= "Ctrl"@ + seq!['+']);
    assert("Alt+"@ =~= "Alt"@ + seq!['+']);
    assert("Shift+"@ =~= "Shift"@ + seq!['+']);
    assert("Win+"@ =~= "Win"@ + seq!['+']);
    assert(ascii_lower_all("Ctrl"@) =~= "ctrl"@);
    assert(ascii_lower_all("Alt"@) =~= "alt"@);
    assert(ascii_lower_all("Shift"@) =~= "shift"@);
    assert(ascii_lower_all("Win"@) =~= "win"@);
    assert(ascii_lower_all("Alt"@) != "ctrl"@ && ascii_lower_all("Alt"@) != "control"@) by {
        assert(ascii_lower_all("Alt"@).len() == 3);
        assert("ctrl"@.len() == 4);
    }
    assert("shift"@ != "ctrl"@ && "shift"@ != "control"@ && "shift"@ != "alt"@) by {
        assert("shift"@.len() == 5);
        assert("shift"@[0] != "control"@[0]);
    }
    assert("win"@ != "ctrl"@ && "win"@ != "control"@ && "win"@ != "alt"@ && "win"@ != "shift"@) by {
        assert("win"@[0] != "alt"@[0]);
    }
}


/// An optional `word+` in front of a text adds the word in front of its pieces.
proof fn lemma_optional_prefix(flag: bool, word: Seq<char>, with_plus: Seq<char>, t: Seq<char>)
    requires
        plain_word(word),
        with_plus == word + seq!['+'],
    ensures
        split_plus((if flag { with_plus } else { Seq::<char>::empty() }) + t) == (if flag {
            seq![word]
        } else {
            Seq::<Seq<char>>::empty()
        }) + split_plus(t),
{
    if flag {
        assert(with_plus + t =~= word + seq!['+'] + t);
        lemma_split_word(word, t);
    } else {
        assert(Seq::<char>::empty() + t =~= t);
        assert(Seq::<Seq<char>>::empty() + split_plus(t) =~= split_plus(t));
    }
}

/// Pieces that are their own trim are unchanged by trimming.
proof fn lemma_trim_all_plain(parts: Seq<Seq<char>>)
    requires
        forall|i: int| 0 <= i < parts.len() ==> plain_word(#[trigger] parts[i]),
    ensures
        parts.map_values(|p: Seq<char>| trim(p)) == parts,
{
    assert forall|i: int| 0 <= i < parts.len() implies #[trigger] trim(parts[i]) == parts[i] by {
        lemma_trim_plain(parts[i]);
    }
    assert(parts.map_values(|p: Seq<char>| trim(p)) =~= parts);
}

/// The display text splits into the modifier names and the key name.
proof fn lemma_display_parts(f: (bool, bool, bool, bool), name: Seq<char>)
    requires
        plain_word(name),
    ensures
        hotkey_parts(hotkey_display(f, name)) == modifier_names(f).push(name),
{
    lemma_modifier_words();
    let e = Seq::<char>::empty();
    let p0 = if f.0 { "Ctrl+"@ } else { e };
    let p1 = if f.1 { "Alt+"@ } else { e };
    let p2 = if f.2 { "Shift+"@ } else { e };
    let p3 = if f.3 { "Win+"@ } else { e };
    let t3 = p3 + name;
    let t2 = p2 + t3;
    let t1 = p1 + t2;
    let t0 = p0 + t1;
    assert(hotkey_display(f, name) =~= t0);
    lemma_split_no_plus(name);
    lemma_optional_prefix(f.3, "Win"@, "Win+"@, name);
    lemma_optional_prefix(f.2, "Shift"@, "Shift+"@, t3);
    lemma_optional_prefix(f.1, "Alt"@, "Alt+"@, t2);
    lemma_optional_prefix(f.0, "Ctrl"@, "Ctrl+"@, t1);
    let parts = modifier_names(f).push(name);
    assert(split_plus(t0) =~= parts);
    assert forall|i: int| 0 <= i < parts.len() implies plain_word(#[trigger] parts[i]) by {
        if i == parts.len() - 1 {
            assert(parts[i] == name);
        }
    }
    lemma_trim_all_plain(parts);
}

/// The modifier names of a display text fold back into the modifiers.
proof fn lemma_fold_names(f: (bool, bool, bool, bool))
    ensures
        fold_modifiers(modifier_names(f)) == Ok::<(bool, bool, bool, bool), Seq<char>>(f),
{
    lemma_modifier_words();
    let e = Seq::<Seq<char>>::empty();
    let s1 = if f.0 { seq!["Ctrl"@] } else { e };
    let s2 = if f.1 { s1.push("Alt"@) } else { s1 };
    let s3 = if f.2 { s2.push("Shift"@) } else { s2 };
    let s4 = if f.3 { s3.push("Win"@) } else { s3 };
    assert(fold_modifiers(e) == Ok::<(bool, bool, bool, bool), Seq<char>>((false, false, false, false)));
    if f.0 {
        assert(s1.drop_last() =~= e);
    }
    assert(fold_modifiers(s1) == Ok::<(bool, bool, bool, bool), Seq<char>>((f.0, false, false, false)));
    if f.1 {
        assert(s2.drop_last() =~= s1);
    }
    assert(fold_modifiers(s2) == Ok::<(bool, bool, bool, bool), Seq<char>>((f.0, f.1, false, false)));
    if f.2 {
        assert(s3.drop_last() =~= s2);
    }
    assert(fold_modifiers(s3) == Ok::<(bool, bool, bool, bool), Seq<char>>((f.0, f.1, f.2, false)));
    if f.3 {
        assert(s4.drop_last() =~= s3);
    }
    assert(fold_modifiers(s4) == Ok::<(bool, bool, bool, bool), Seq<char>>(f));
}


/// A decimal numeral is made of digits and reads back as its value.
proof fn lemma_decimal_digits(n: nat)
    ensures
        decimal(n).len() > 0,
        all_ascii_digits(decimal(n)),
        digits_value(decimal(n)) == n,
    decreases n,
{
    let d = decimal(n);
    if n >= 10 {
        lemma_decimal_digits(n / 10);
        assert(d.drop_last() =~= decimal(n / 10));
        assert(d.last() == digit_char((n % 10) as nat));
        assert(digit_char((n % 10) as nat) as u32 == 48 + n % 10);
        assert(digits_value(d) == digits_value(decimal(n / 10)) * 10 + n % 10);
        assert((n / 10) * 10 + n % 10 == n) by (nonlinear_arith);
        assert forall|i: int| 0 <= i < d.len() implies is_ascii_digit(#[trigger] d[i]) by {
            if i < d.len() - 1 {
                assert(d[i] == decimal(n / 10)[i]);
            }
        }
    } else {
        assert(digit_char(n) as u32 == 48 + n);
        assert(d.drop_last() =~= Seq::<char>::empty());
        assert(d.last() == digit_char(n));
        assert(digits_value(d) == digits_value(Seq::<char>::empty()) * 10 + n);
    }
}

/// The key names a hotkey is displayed with.
proof fn lemma_key_literals()
    ensures
        ascii_upper_all("Space"@) == "SPACE"@,
        ascii_upper_all("Enter"@) == "ENTER"@,
        ascii_upper_all("Escape"@) == "ESCAPE"@,
        ascii_upper_all("Tab"@) == "TAB"@,
        plain_word("Space"@),
        plain_word("Enter"@),
        plain_word("Escape"@),
        plain_word("Tab"@),
        "SPACE"@.len() == 5 && "SPACE"@[0] == 'S',
        "ENTER"@.len() == 5 && "ENTER"@[0] == 'E',
        "ESC"@.len() == 3 && "ESC"@[0] == 'E',
        "ESCAPE"@.len() == 6 && "ESCAPE"@[0] == 'E',
        "TAB"@.len() == 3 && "TAB"@[0] == 'T',
        "F"@ == seq!['F'],
        "SPACE"@ != "ENTER"@,
{
    reveal_strlit("Space");
    reveal_strlit("Enter");
    reveal_strlit("Escape");
    reveal_strlit("Tab");
    reveal_strlit("SPACE");
    reveal_strlit("ENTER");
    reveal_strlit("ESC");
    reveal_strlit("ESCAPE");
    reveal_strlit("TAB");
    reveal_strlit("F");
    assert(ascii_upper_all("Space"@) =~= "SPACE"@);
    assert(ascii_upper_all("Enter"@) =~= "ENTER"@);
    assert(ascii_upper_all("Escape"@) =~= "ESCAPE"@);
    assert(ascii_upper_all("Tab"@) =~= "TAB"@);
    assert("F"@ =~= seq!['F']);
    assert("SPACE"@[0] != "ENTER"@[0]);
}

/// The key name a key is displayed with reads as the same key.
proof fn lemma_key_canonical(key: Seq<char>)
    requires
        key_spec(key) is Ok,
    ensures
        plain_word(key_spec(key)->Ok_0.1),
        key_spec(key_spec(key)->Ok_0.1) == key_spec(key),
{
    lemma_key_literals();
    let upper = ascii_upper_all(key);
    let name = key_spec(key)->Ok_0.1;
    if upper == "SPACE"@ {
    } else if upper == "ENTER"@ {
        assert("ENTER"@ != "SPACE"@);
    } else if upper == "ESC"@ || upper == "ESCAPE"@ {
        assert("ESCAPE"@ != "SPACE"@ && "ESCAPE"@ != "ENTER"@);
    } else if upper == "TAB"@ {
        assert("TAB"@ != "SPACE"@ && "TAB"@ != "ENTER"@ && "TAB"@ != "ESCAPE"@);
        assert("TAB"@ != "ESC"@) by {
            assert("TAB"@[0] != "ESC"@[0]);
        }
    } else if upper.len() == 1 && is_ascii_alphanumeric(upper[0]) {
        assert(name == upper);
        assert(ascii_upper_all(name) =~= name);
        assert(name != "SPACE"@ && name != "ENTER"@ && name != "ESC"@ && name != "ESCAPE"@
            && name != "TAB"@);
    } else {
        let n = spec_parse_u32(upper.subrange(1, upper.len() as int))->0;
        let digits = decimal(n as nat);
        lemma_decimal_digits(n as nat);
        assert(name == seq!['F'] + digits);
        assert(ascii_upper_all(name) =~= name) by {
            assert forall|i: int| 0 <= i < name.len() implies ascii_upper(#[trigger] name[i]) == name[i] by {
                if i > 0 {
                    assert(name[i] == digits[i - 1]);
                    assert(is_ascii_digit(digits[i - 1]));
                }
            }
        }
        assert(name != "SPACE"@ && name != "ENTER"@ && name != "ESC"@ && name != "ESCAPE"@
            && name != "TAB"@) by {
            assert(name[0] == 'F');
        }
        assert(name.subrange(1, name.len() as int) =~= digits);
        assert(numeral_digits(digits) == digits) by {
            assert(is_ascii_digit(digits[0]));
        }
        assert(spec_parse_u32(digits) == Some(n));
        assert(plain_word(name)) by {
            assert forall|i: int| 0 <= i < name.len() implies name[i] != '+' by {
                if i > 0 {
                    assert(name[i] == digits[i - 1]);
                    assert(is_ascii_digit(digits[i - 1]));
                }
            }
            assert(is_ascii_digit(digits[digits.len() - 1]));
            assert(name.last() == digits[digits.len() - 1]);
        }
    }
}

/// Law: the display text of a parsed hotkey reads back as the same hotkey: the
/// same modifier bits, the same virtual key code and the same display text.
pub proof fn law_display_reads_back(value: Seq<char>)
    ensures
        match spec_parse_hotkey(value) {
            Ok((m, vk, d)) => spec_parse_hotkey(d) == spec_parse_hotkey(value),
            Err(_) => true,
        },
{
    match spec_parse_hotkey(value) {
        Ok((m, vk, d)) => {
            let ps = hotkey_parts(value);
            lemma_split_plus_nonempty(value);
            let f = fold_modifiers(ps.drop_last())->Ok_0;
            let name = key_spec(ps.last())->Ok_0.1;
            lemma_key_canonical(ps.last());
            lemma_display_parts(f, name);
            lemma_fold_names(f);
            lemma_modifier_words();
            let qs = hotkey_parts(d);
            assert(qs == modifier_names(f).push(name));
            assert(qs.drop_last() =~= modifier_names(f));
            assert(qs.last() == name);
            assert forall|i: int| 0 <= i < qs.len() implies (#[trigger] qs[i]).len() > 0 by {
                if i == qs.len() - 1 {
                    assert(qs[i] == name);
                }
            }
            assert(qs.len() <= 5);
        },
        Err(_) => {},
    }
}

/// Whether one of the modifier names is, without regard to ASCII case, the word `w`.
pub open spec fn names_modifier(ms: Seq<Seq<char>>, w: Seq<char>) -> bool {
    exists|i: int| 0 <= i < ms.len() && ascii_lower_all(#[trigger] ms[i]) == w
}

/// The words of each kind of modifier.
proof fn lemma_modifier_kind_words(x: Seq<char>)
    ensures
        (modifier_kind(x) == 1) == (ascii_lower_all(x) == "ctrl"@ || ascii_lower_all(x) == "control"@),
        (modifier_kind(x) == 2) == (ascii_lower_all(x) == "alt"@),
        (modifier_kind(x) == 3) == (ascii_lower_all(x) == "shift"@),
        (modifier_kind(x) == 4) == (ascii_lower_all(x) == "win"@ || ascii_lower_all(x) == "meta"@),
{
    reveal_strlit("ctrl");
    reveal_strlit("control");
    reveal_strlit("alt");
    reveal_strlit("shift");
    reveal_strlit("win");
    reveal_strlit("meta");
    assert("win"@[0] != "alt"@[0]);
    assert("meta"@[0] != "ctrl"@[0]);
    assert("shift"@.len() == 5 && "alt"@.len() == 3 && "ctrl"@.len() == 4 && "control"@.len() == 7);
    assert("shift"@ != "alt"@ && "shift"@ != "ctrl"@ && "shift"@ != "control"@);
}

/// A modifier is held after folding exactly when one of the names denotes it.
proof fn lemma_fold_flags(ms: Seq<Seq<char>>, k: int)
    requires
        fold_modifiers(ms) is Ok,
        1 <= k <= 4,
    ensures
        flag_of(fold_modifiers(ms)->Ok_0, k) <==> exists|i: int|
            0 <= i < ms.len() && modifier_kind(#[trigger] ms[i]) == k,
    decreases ms.len(),
{
    if ms.len() > 0 {
        let prev = ms.drop_last();
        lemma_fold_flags(prev, k);
        let kind = modifier_kind(ms.last());
        if exists|i: int| 0 <= i < prev.len() && modifier_kind(#[trigger] prev[i]) == k {
            let i = choose|i: int| 0 <= i < prev.len() && modifier_kind(#[trigger] prev[i]) == k;
            assert(ms[i] == prev[i]);
        }
        if kind == k {
            assert(modifier_kind(ms[ms.len() - 1]) == k);
        }
        if exists|i: int| 0 <= i < ms.len() && modifier_kind(#[trigger] ms[i]) == k {
            let i = choose|i: int| 0 <= i < ms.len() && modifier_kind(#[trigger] ms[i]) == k;
            if i < prev.len() {
                assert(prev[i] == ms[i]);
            }
        }
    }
}

/// Each modifier key has a bit of its own in the sum of the held ones.
proof fn lemma_modifier_sum_bits(a: u32, c: u32, s: u32, w: u32)
    by (bit_vector)
    requires
        a == 0 || a == 1,
        c == 0 || c == 2,
        s == 0 || s == 4,
        w == 0 || w == 8,
    ensures
        (((a + c + s + w) as u32) & 1u32 != 0) == (a == 1),
        (((a + c + s + w) as u32) & 2u32 != 0) == (c == 2),
        (((a + c + s + w) as u32) & 4u32 != 0) == (s == 4),
        (((a + c + s + w) as u32) & 8u32 != 0) == (w == 8),
        ((a + c + s + w) as u32) & !15u32 == 0,
{
}

/// Law: the modifier bits of a parsed hotkey hold the bit of Alt exactly when Alt is
/// among the named modifiers, and likewise for Ctrl (`Ctrl` or `Control`), Shift and
/// Win (`Win` or `Meta`), each independently of the others; no other bit is set.
pub proof fn law_modifier_bits_follow_names(value: Seq<char>)
    ensures
        spec_parse_hotkey(value) matches Ok((m, vk, d)) ==> {
            let ms = hotkey_parts(value).drop_last();
            &&& (m & MOD_ALT != 0) == names_modifier(ms, "alt"@)
            &&& (m & MOD_CONTROL != 0) == (names_modifier(ms, "ctrl"@) || names_modifier(
                ms,
                "control"@,
            ))
            &&& (m & MOD_SHIFT != 0) == names_modifier(ms, "shift"@)
            &&& (m & MOD_WIN != 0) == (names_modifier(ms, "win"@) || names_modifier(ms, "meta"@))
            &&& m & !15u32 == 0
        },
{
    if let Ok((m, vk, d)) = spec_parse_hotkey(value) {
        let ms = hotkey_parts(value).drop_last();
        let f = fold_modifiers(ms)->Ok_0;
        assert(m == modifier_bits(f));
        lemma_modifier_sum_bits(
            if f.1 { MOD_ALT } else { 0 },
            if f.0 { MOD_CONTROL } else { 0 },
            if f.2 { MOD_SHIFT } else { 0 },
            if f.3 { MOD_WIN } else { 0 },
        );
        lemma_fold_flags(ms, 1);
        lemma_fold_flags(ms, 2);
        lemma_fold_flags(ms, 3);
        lemma_fold_flags(ms, 4);
        assert forall|i: int| 0 <= i < ms.len() implies {
            &&& (modifier_kind(#[trigger] ms[i]) == 1) == (ascii_lower_all(ms[i]) == "ctrl"@
                || ascii_lower_all(ms[i]) == "control"@)
            &&& (modifier_kind(ms[i]) == 2) == (ascii_lower_all(ms[i]) == "alt"@)
            &&& (modifier_kind(ms[i]) == 3) == (ascii_lower_all(ms[i]) == "shift"@)
            &&& (modifier_kind(ms[i]) == 4) == (ascii_lower_all(ms[i]) == "win"@
                || ascii_lower_all(ms[i]) == "meta"@)
        } by {
            lemma_modifier_kind_words(ms[i]);
        }
    }
}

} // verus!
