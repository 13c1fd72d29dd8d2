//! Recognition jobs over a screen rectangle, built with optional start and frequency.

use std::time::{Duration, Instant};
use vstd::prelude::*;

verus! {

/// Where a recognition job stands; a completed job keeps its text and finish time.
#[derive(Debug)]
pub enum OCRJobStatus {
    Pending,
    Running,
    Complete(String, Instant),
}

/// A recognition job over the rectangle given by two corners.
#[derive(Debug)]
pub struct OCRJob {
    pub id: String,
    pub rect: ((i32, i32), (i32, i32)),
    pub start_at: Instant,
    pub frequency: Duration,
    pub state: OCRJobStatus,
}

/// A recognition job under construction.
pub struct OCRJobBuilder {
    pub id: String,
    pub rect: ((i32, i32), (i32, i32)),
    pub start_at: Option<Instant>,
    pub frequency: Option<Duration>,
}

/// The value `Duration::from_secs` returns for a number of seconds.
pub uninterp spec fn secs_as_duration(secs: u64) -> Duration;

/// `Duration::from_secs`: the span of a whole number of seconds. Claimed: the
/// result depends on the number of seconds alone, and is named
/// `secs_as_duration` of it; nothing is said of its fields.
#[verifier::external_body]
fn duration_from_secs(secs: u64) -> (d: Duration)
    ensures
        d == secs_as_duration(secs),
{
    Duration::from_secs(secs)
}

/// `Instant::now`: the current moment of the monotonic clock. Nothing is claimed of
/// the value, which depends on the time of the call.
#[verifier::external_body]
fn instant_now() -> Instant {
    Instant::now()
}

/// The frequency a job runs at when none is set: every three seconds.
pub const DEFAULT_JOB_FREQUENCY_SECS: u64 = 3;

impl OCRJobBuilder {
    /// A job over `rect` named `id`, starting now and running at the default frequency
    /// unless told otherwise.
    pub fn new(id: String, rect: ((i32, i32), (i32, i32))) -> (b: OCRJobBuilder)
        ensures
            b.id@ == id@,
            b.rect == rect,
            b.start_at is None,
            b.frequency is None,
    {
        OCRJobBuilder { id, rect, start_at: None, frequency: None }
    }

    pub fn with_frequency(self, frequency: Duration) -> (b: OCRJobBuilder)
        ensures
            b.id@ == self.id@,
            b.rect == self.rect,
            b.start_at == self.start_at,
            b.frequency == Some(frequency),
    {
        let mut b = self;
        b.frequency = Some(frequency);
        b
    }

    pub fn with_start_at(self, start_at: Instant) -> (b: OCRJobBuilder)
        ensures
            b.id@ == self.id@,
            b.rect == self.rect,
            b.start_at == Some(start_at),
            b.frequency == self.frequency,
    {
        let mut b = self;
        b.start_at = Some(start_at);
        b
    }
}

impl From<OCRJobBuilder> for OCRJob {
    /// The job: pending, starting when set (otherwise at the moment of the call),
    /// at the frequency set (otherwise every three seconds).
    fn from(value: OCRJobBuilder) -> (job: Self)
        ensures
            job.id@ == value.id@,
            job.rect == value.rect,
            value.start_at matches Some(s) ==> job.start_at == s,
            job.frequency == match value.frequency {
                Some(f) => f,
                None => secs_as_duration(DEFAULT_JOB_FREQUENCY_SECS),
            },
            job.state is Pending,
    {
        let start_at = match value.start_at {
            Some(s) => s,
            None => instant_now(),
        };
        let frequency = match value.frequency {
            Some(f) => f,
            None => duration_from_secs(DEFAULT_JOB_FREQUENCY_SECS),
        };
        OCRJob { id: value.id, rect: value.rect, start_at, frequency, state: OCRJobStatus::Pending }
    }
}

/// The start of a job built without a start time is the moment of the build, so no
/// single value describes the conversion.
impl vstd::std_specs::convert::FromSpecImpl<OCRJobBuilder> for OCRJob {
    open spec fn obeys_from_spec() -> bool {
        false
    }

    open spec fn from_spec(v: OCRJobBuilder) -> Self {
        arbitrary()
    }
}

} // verus!
