//! Sentries: tasks that watch a screen region for a text and raise an alarm.

use vstd::prelude::*;
use vstd::string::*;

verus! {

/// Where a sentry looks.
#[derive(Debug, Clone, Copy, PartialEq, Eq, Structural)]
pub enum CaptureSelector {
    Rect { x1: i32, y1: i32, x2: i32, y2: i32 },
}

/// What a sentry looks for.
#[derive(Debug, Clone, PartialEq, Eq)]
pub enum FocusPoint {
    ContainsText(String),
}

/// How a sentry reports a match.
#[derive(Debug, Clone, Copy, PartialEq, Eq, Structural)]
pub enum AlarmMode {
    PrintLog,
}

/// The outcome of one look.
#[derive(Debug, Clone, PartialEq, Eq)]
pub struct SentryRunOutput {
    pub matched: bool,
    pub recognized_text: String,
}

/// A sentry: a region, how often to look (in milliseconds), and what to look for.
#[derive(Debug, Clone, PartialEq, Eq)]
pub struct SentryTask {
    pub patrol: CaptureSelector,
    pub frequency_ms: Option<i64>,
    pub focus_on: FocusPoint,
    pub alarm_mode: AlarmMode,
}

/// Sentry definitions as loaded from JSON.
#[derive(Debug, Clone, PartialEq, Eq)]
pub struct NyraJobs {
    pub sentries: Vec<SentryTask>,
}

/// The look interval used when none is given: one second.
pub open spec fn spec_default_frequency_ms() -> Option<i64> {
    Some(1000i64)
}

pub fn default_frequency_ms() -> (f: Option<i64>)
    ensures
        f == spec_default_frequency_ms(),
{
    Some(1000)
}

/// Whether a frequency equals the default, so that it is left out when written.
pub fn is_default_frequency_ms(value: &Option<i64>) -> (b: bool)
    ensures
        b == (*value == spec_default_frequency_ms()),
{
    match value {
        Some(v) => *v == 1000,
        None => false,
    }
}

/// `needle` occurs in `hay` starting at position `i`.
pub open spec fn occurs_at(hay: Seq<char>, needle: Seq<char>, i: int) -> bool {
    0 <= i && i + needle.len() <= hay.len() && hay.subrange(i, i + needle.len()) == needle
}

/// `needle` occurs somewhere in `hay`, as `str::contains` finds it.
pub open spec fn contains_text(hay: Seq<char>, needle: Seq<char>) -> bool {
    exists|i: int| occurs_at(hay, needle, i)
}

/// Whether the recognized text holds what the sentry looks for.
pub open spec fn spec_matches_focus(recognized: Seq<char>, focus_on: FocusPoint) -> bool {
    match focus_on {
        FocusPoint::ContainsText(expected) => contains_text(recognized, expected@),
    }
}

fn occurs_at_exec(hay: &Vec<char>, needle: &Vec<char>, i: usize) -> (b: bool)
    requires
        i + needle.len() <= hay.len(),
    ensures
        b == occurs_at(hay@, needle@, i as int),
{
    let mut k: usize = 0;
    while k < needle.len()
        invariant
            i + needle.len() <= hay.len(),
            k <= needle.len(),
            forall|j: int| 0 <= j < k ==> hay@[i + j] == needle@[j],
        decreases needle.len() - k,
    {
        if hay[i + k] != needle[k] {
            assert(hay@.subrange(i as int, i + needle.len())[k as int] != needle@[k as int]);
            return false;
        }
        k = k + 1;
    }
    assert(hay@.subrange(i as int, i + needle.len()) =~= needle@);
    true
}

/// Whether the recognized text holds what the sentry looks for.
pub fn matches_focus(recognized: &str, focus_on: &FocusPoint) -> (b: bool)
    ensures
        b == spec_matches_focus(recognized@, *focus_on),
{
    match focus_on {
        FocusPoint::ContainsText(expected) => {
            let hay = crate::text::chars_of(recognized);
            let needle = crate::text::chars_of(expected.as_str());
            if needle.len() > hay.len() {
                return false;
            }
            let last = hay.len() - needle.len();
            let mut i: usize = 0;
            while i <= last
                invariant
                    last == hay.len() - needle.len(),
                    needle.len() <= hay.len(),
                    hay@ == recognized@,
                    needle@ == expected@,
                    spec_matches_focus(recognized@, *focus_on) == contains_text(recognized@, expected@),
                    forall|j: int| 0 <= j < i ==> !occurs_at(hay@, needle@, j),
                decreases last + 1 - i,
            {
                if occurs_at_exec(&hay, &needle, i) {
                    assert(contains_text(recognized@, expected@));
                    return true;
                }
                if i == last {
                    proof {
                        assert forall|j: int| !occurs_at(hay@, needle@, j) by {
                            if 0 <= j && j + needle.len() <= hay.len() {
                                assert(j <= last);
                            }
                        }
                    }
                    return false;
                }
                i = i + 1;
            }
            proof {
                assert forall|j: int| !occurs_at(hay@, needle@, j) by {
                    if 0 <= j && j + needle.len() <= hay.len() {
                        assert(j <= last);
                    }
                }
            }
            false
        },
    }
}

impl SentryTask {
    /// A sentry; without a frequency it looks once a second.
    pub fn new(
        patrol: CaptureSelector,
        frequency_ms: Option<i64>,
        focus_on: FocusPoint,
        alarm_mode: AlarmMode,
    ) -> (t: Self)
        ensures
            t.patrol == patrol,
            t.frequency_ms == (match frequency_ms {
                Some(f) => Some(f),
                None => spec_default_frequency_ms(),
            }),
            t.focus_on == focus_on,
            t.alarm_mode == alarm_mode,
    {
        let frequency_ms = match frequency_ms {
            Some(f) => Some(f),
            None => default_frequency_ms(),
        };
        SentryTask { patrol, frequency_ms, focus_on, alarm_mode }
    }

    /// How long to wait between looks, in milliseconds; `None` to look only once.
    pub open spec fn spec_interval_ms(&self) -> Option<u64> {
        match self.frequency_ms {
            None => Some(1000u64),
            Some(f) => if f <= 0 { None } else { Some(f as u64) },
        }
    }

    /// How long to wait between looks, in milliseconds: one second when no
    /// frequency is set, and `None` (a single look) for a frequency that is not
    /// positive.
    pub fn interval_duration(&self) -> (r: Option<u64>)
        ensures
            r == self.spec_interval_ms(),
    {
        match self.frequency_ms {
            None => Some(1000),
            Some(f) => if f <= 0 {
                None
            } else {
                Some(f as u64)
            },
        }
    }

    /// The outcome of a look that recognized `recognized_text`.
    pub fn evaluate_text(&self, recognized_text: String) -> (out: SentryRunOutput)
        ensures
            out.recognized_text@ == recognized_text@,
            out.matched == spec_matches_focus(recognized_text@, self.focus_on),
    {
        let matched = matches_focus(recognized_text.as_str(), &self.focus_on);
        SentryRunOutput { recognized_text, matched }
    }
}

impl SentryRunOutput {
    /// The outcome as text: `SentryRunOutput { matched: .., recognized_text: '..' }`.
    pub fn describe(&self) -> (s: String)
        ensures
            s@ == "SentryRunOutput { matched: "@ + (if self.matched { "true"@ } else { "false"@ })
                + ", recognized_text: '"@ + self.recognized_text@ + "' }"@,
    {
        let mut s = String::from_str("SentryRunOutput { matched: ");
        if self.matched {
            s.append("true");
        } else {
            s.append("false");
        }
        s.append(", recognized_text: '");
        s.append(self.recognized_text.as_str());
        s.append("' }");
        s
    }
}

/// The sentries to deploy, in the order their definitions were loaded.
pub struct Nyra {
    sentries: Vec<SentryTask>,
}

impl Nyra {
    /// The sentries, in load order.
    pub closed spec fn spec_sentries(&self) -> Seq<SentryTask> {
        self.sentries@
    }

    /// No sentry yet.
    pub fn new() -> (n: Self)
        ensures
            n.spec_sentries() == Seq::<SentryTask>::empty(),
    {
        Nyra { sentries: Vec::new() }
    }

    /// Adds the sentries of a loaded definition after those already there.
    pub fn append_sentries(&mut self, jobs: NyraJobs)
        ensures
            final(self).spec_sentries() == old(self).spec_sentries() + jobs.sentries@,
    {
        let mut added = jobs.sentries;
        self.sentries.append(&mut added);
    }

    /// The sentries, in load order.
    pub fn sentries(&self) -> (s: &[SentryTask])
        ensures
            s@ == self.spec_sentries(),
    {
        self.sentries.as_slice()
    }

    /// Deploying needs at least one sentry.
    pub fn check_deployable(&self) -> (r: Result<(), String>)
        ensures
            self.spec_sentries().len() == 0 ==> (r matches Err(e) && e@ == "No sentry tasks loaded."@),
            self.spec_sentries().len() > 0 ==> r is Ok,
    {
        if self.sentries.len() == 0 {
            Err(String::from_str("No sentry tasks loaded."))
        } else {
            Ok(())
        }
    }
}

} // verus!
