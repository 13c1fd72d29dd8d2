//! Configured tips, hotkeys and screen regions.

pub mod entity;
pub mod hotkey;
pub mod ocr;

use crate::settings_default_values::{
    DEFAULT_TIP_COLOR_COUNT, DEFAULT_TIP_SHOW_TIME, default_tip_color, spec_default_tip_color,
};
use crate::text::{chars_of, decimal, push_decimal, trim, trim_chars};
use vstd::prelude::*;
use vstd::string::*;

verus! {

/// `std::path::PathBuf`, carried through the library without being read.
#[verifier::external_type_specification]
#[verifier::external_body]
pub struct ExPathBuf(std::path::PathBuf);

/// Seconds.
pub type TipTick = u64;

/// One configured tip.
pub struct Tip {
    pub tip: String,
    pub interval: TipTick,
    pub show_time: Option<TipTick>,
    pub color: Option<String>,
    pub reaction: Option<TipReaction>,
}

impl Tip {
    /// The show time in seconds that applies to this tip.
    pub open spec fn spec_show_time(&self) -> u64 {
        match self.show_time {
            Some(t) => t,
            None => DEFAULT_TIP_SHOW_TIME,
        }
    }

    /// Seconds the tip stays on screen: its own `showTime`, or the default.
    pub fn show_time(&self) -> (t: TipTick)
        ensures
            t == self.spec_show_time(),
    {
        match self.show_time {
            Some(t) => t,
            None => DEFAULT_TIP_SHOW_TIME,
        }
    }
}

/// The response bound to a tip: a global hotkey that starts a script.
pub struct TipReaction {
    pub hotkey: Hotkey,
    pub script: std::path::PathBuf,
}

/// A global hotkey: modifier bits, a Windows virtual key code and its display text.
#[derive(Clone, Debug, PartialEq, Eq)]
pub struct Hotkey {
    pub(crate) modifiers: u32,
    pub(crate) virtual_key: u32,
    pub(crate) display: String,
}

/// The configured tips, in configuration order.
pub struct Tips {
    pub tips: Vec<Tip>,
}

/// The tips the scheduler runs on.
pub struct JobConfig(pub Tips);

/// An ASCII hexadecimal digit.
pub open spec fn is_hex_digit(c: char) -> bool {
    ('0' <= c && c <= '9') || ('a' <= c && c <= 'f') || ('A' <= c && c <= 'F')
}

/// A color written as `#RRGGBB`.
pub open spec fn spec_is_valid_tip_color(s: Seq<char>) -> bool {
    &&& s.len() == 7
    &&& s[0] == '#'
    &&& forall|i: int| 1 <= i < 7 ==> is_hex_digit(#[trigger] s[i])
}

fn is_hex_digit_exec(c: char) -> (b: bool)
    ensures
        b == is_hex_digit(c),
{
    ('0' <= c && c <= '9') || ('a' <= c && c <= 'f') || ('A' <= c && c <= 'F')
}

/// Whether `color` has the form `#RRGGBB`.
pub fn is_valid_tip_color(color: &str) -> (b: bool)
    ensures
        b == spec_is_valid_tip_color(color@),
{
    if color.unicode_len() != 7 {
        return false;
    }
    if color.get_char(0) != '#' {
        return false;
    }
    let mut i: usize = 1;
    while i < 7
        invariant
            1 <= i <= 7,
            color@.len() == 7,
            forall|j: int| 1 <= j < i ==> is_hex_digit(#[trigger] color@[j]),
        decreases 7 - i,
    {
        if !is_hex_digit_exec(color.get_char(i)) {
            return false;
        }
        i = i + 1;
    }
    true
}

impl JobConfig {
    /// The number of configured tips.
    pub open spec fn len(&self) -> nat {
        self.0.tips@.len()
    }

    /// The tip at a position of the configuration.
    pub open spec fn tip(&self, i: int) -> Tip {
        self.0.tips@[i]
    }

    pub fn is_empty(&self) -> (b: bool)
        ensures
            b == (self.len() == 0),
    {
        self.0.tips.len() == 0
    }

    /// The color a tip is shown in: its configured one, or the palette color of its position.
    pub open spec fn spec_resolved_color_at(&self, tip_index: int) -> Seq<char> {
        match self.tip(tip_index).color {
            Some(c) => c@,
            None => spec_default_tip_color(tip_index % (DEFAULT_TIP_COLOR_COUNT as int)),
        }
    }

    /// Returns the configured color or the palette color assigned to this tip position.
    pub fn resolved_color_at(&self, tip_index: usize) -> (c: &str)
        requires
            tip_index < self.len(),
        ensures
            c@ == self.spec_resolved_color_at(tip_index as int),
    {
        match &self.0.tips[tip_index].color {
            Some(c) => c.as_str(),
            None => default_tip_color(tip_index % DEFAULT_TIP_COLOR_COUNT),
        }
    }
}

/// What is wrong with one tip, as the tail of the message naming it; `None` when
/// the tip is acceptable.
pub open spec fn tip_problem(t: Tip) -> Option<Seq<char>> {
    if trim(t.tip@).len() == 0 {
        Some(".tip cannot be empty"@)
    } else if t.interval == 0 {
        Some(".interval must be greater than 0"@)
    } else if t.show_time == Some(0u64) {
        Some(".showTime must be greater than 0"@)
    } else if t.color is Some && !spec_is_valid_tip_color(t.color->0@) {
        Some(".color must use format like #RRGGBB"@)
    } else {
        None
    }
}

/// The verdict on the tips from position `i` on: the message for the first tip
/// with a problem.
pub open spec fn validate_from(tips: Seq<Tip>, i: int) -> Result<(), Seq<char>>
    decreases tips.len() - i,
{
    if i < 0 || i >= tips.len() {
        Ok(())
    } else {
        match tip_problem(tips[i]) {
            Some(m) => Err("tips["@ + decimal(i as nat) + "]"@ + m),
            None => validate_from(tips, i + 1),
        }
    }
}

/// The verdict on a configuration: it needs at least one tip, and every tip needs
/// text, a positive interval, a positive show time when one is given, and a color of
/// the form `#RRGGBB` when one is given.
pub open spec fn spec_validate_config(tips: Seq<Tip>) -> Result<(), Seq<char>> {
    if tips.len() == 0 {
        Err("Tips in the configuration cannot be empty"@)
    } else {
        validate_from(tips, 0)
    }
}

fn tip_problem_message(index: usize, tail: &str) -> (s: String)
    ensures
        s@ == "tips["@ + decimal(index as nat) + "]"@ + tail@,
{
    let mut s = String::from_str("tips[");
    push_decimal(&mut s, index as u64);
    s.append("]");
    s.append(tail);
    s
}

/// Checks the configured tips before they are scheduled.
pub fn validate_config(config: &Tips) -> (r: Result<(), String>)
    ensures
        match spec_validate_config(config.tips@) {
            Ok(()) => r is Ok,
            Err(m) => r matches Err(e) && e@ == m,
        },
{
    if config.tips.len() == 0 {
        return Err(String::from_str("Tips in the configuration cannot be empty"));
    }
    let ghost tips = config.tips@;
    let mut index: usize = 0;
    while index < config.tips.len()
        invariant
            tips == config.tips@,
            index <= tips.len(),
            validate_from(tips, 0) == validate_from(tips, index as int),
        decreases tips.len() - index,
    {
        let tip = &config.tips[index];
        let text = chars_of(tip.tip.as_str());
        let trimmed = trim_chars(&text);
        if trimmed.len() == 0 {
            return Err(tip_problem_message(index, ".tip cannot be empty"));
        }
        if tip.interval == 0 {
            return Err(tip_problem_message(index, ".interval must be greater than 0"));
        }
        if let Some(show_time) = tip.show_time {
            if show_time == 0 {
                return Err(tip_problem_message(index, ".showTime must be greater than 0"));
            }
        }
        if let Some(color) = &tip.color {
            if !is_valid_tip_color(color.as_str()) {
                return Err(tip_problem_message(index, ".color must use format like #RRGGBB"));
            }
        }
        index = index + 1;
    }
    Ok(())
}

/// The tips from position `i` on pass exactly when none of them has a problem.
proof fn lemma_validate_from_ok(tips: Seq<Tip>, i: int)
    requires
        0 <= i <= tips.len(),
    ensures
        validate_from(tips, i) is Ok <==> forall|j: int|
            i <= j < tips.len() ==> tip_problem(#[trigger] tips[j]) is None,
    decreases tips.len() - i,
{
    if i < tips.len() {
        lemma_validate_from_ok(tips, i + 1);
    }
}

/// Law: a configuration passes validation exactly when it has at least one tip and
/// every tip has text that is not blank, a positive interval, a positive show time
/// if one is given, and, if a color is given, one written `#` and six ASCII
/// hexadecimal digits, of either case.
pub proof fn law_validation_accepts(tips: Seq<Tip>)
    ensures
        spec_validate_config(tips) is Ok <==> {
            &&& tips.len() > 0
            &&& forall|i: int|
                0 <= i < tips.len() ==> {
                    let t = #[trigger] tips[i];
                    &&& trim(t.tip@).len() > 0
                    &&& t.interval > 0
                    &&& t.show_time != Some(0u64)
                    &&& t.color matches Some(c) ==> {
                        &&& c@.len() == 7
                        &&& c@[0] == '#'
                        &&& forall|k: int|
                            1 <= k < 7 ==> {
                                let d = #[trigger] c@[k];
                                ('0' <= d <= '9') || ('a' <= d <= 'f') || ('A' <= d <= 'F')
                            }
                    }
                }
        },
{
    lemma_validate_from_ok(tips, 0);
}

} // verus!
