//! Elapsed time as the engine reports it in log lines and error messages.

use vstd::prelude::*;

verus! {

/// Nanoseconds in one second.
pub const NANOS_PER_SEC: u32 = 1_000_000_000;

/// Nanoseconds in one millisecond.
pub const NANOS_PER_MILLI: u32 = 1_000_000;

/// The text that `std::time::Duration`'s `Debug` formatting gives for a
/// duration of `secs` whole seconds and `nanos` further nanoseconds.
pub uninterp spec fn duration_text(secs: u64, nanos: u32) -> Seq<char>;

/// A span of time: whole seconds and the nanoseconds beyond them.
#[derive(Clone, Copy, Debug, PartialEq, Eq)]
pub struct Elapsed {
    secs: u64,
    nanos: u32,
}

/// Milliseconds from `start_ts` to `now_ts`, both in milliseconds since the
/// epoch. A clock that ran backwards gives the difference modulo 2^64.
pub open spec fn millis_between(start_ts: i64, now_ts: i64) -> u64 {
    if now_ts >= start_ts {
        (now_ts - start_ts) as u64
    } else {
        (now_ts - start_ts + 0x1_0000_0000_0000_0000) as u64
    }
}

impl Elapsed {
    #[verifier::type_invariant]
    pub closed spec fn wf(self) -> bool {
        self.nanos < NANOS_PER_SEC
    }

    /// Whole seconds of the span.
    pub closed spec fn secs(self) -> u64 {
        self.secs
    }

    /// Nanoseconds beyond the whole seconds, below one second.
    pub closed spec fn subsec_nanos(self) -> u32 {
        self.nanos
    }

    /// The span of `millis` milliseconds.
    pub open spec fn of_millis(millis: u64) -> (u64, u32) {
        (millis / 1000, ((millis % 1000) * 1_000_000) as u32)
    }

    /// The span of `millis` milliseconds, as a value.
    pub closed spec fn spec_from_millis(millis: u64) -> Elapsed {
        Elapsed { secs: Self::of_millis(millis).0, nanos: Self::of_millis(millis).1 }
    }

    /// The span from `start_ts` to `now_ts`, two clock readings in
    /// milliseconds, as a value.
    pub open spec fn spec_between(start_ts: i64, now_ts: i64) -> Elapsed {
        Self::spec_from_millis(millis_between(start_ts, now_ts))
    }

    /// The span as `Debug` formatting of a duration writes it.
    pub open spec fn text_spec(self) -> Seq<char> {
        duration_text(self.secs(), self.subsec_nanos())
    }

    /// A span of `secs` seconds and `nanos` nanoseconds, if `nanos` is below
    /// one second.
    pub fn new(secs: u64, nanos: u32) -> (span: Option<Elapsed>)
        ensures
            span.is_some() <==> nanos < NANOS_PER_SEC,
            span.is_some() ==> span.unwrap().secs() == secs && span.unwrap().subsec_nanos()
                == nanos,
    {
        if nanos < NANOS_PER_SEC {
            Some(Elapsed { secs, nanos })
        } else {
            None
        }
    }

    /// The span of `millis` milliseconds.
    pub fn from_millis(millis: u64) -> (span: Elapsed)
        ensures
            span == Self::spec_from_millis(millis),
            (span.secs(), span.subsec_nanos()) == Self::of_millis(millis),
    {
        let rest: u64 = millis % 1000;
        let nanos: u32 = (rest as u32) * NANOS_PER_MILLI;
        Elapsed { secs: millis / 1000, nanos }
    }

    /// The span from `start_ts` to `now_ts`, two clock readings in
    /// milliseconds.
    pub fn between(start_ts: i64, now_ts: i64) -> (span: Elapsed)
        ensures
            span == Self::spec_between(start_ts, now_ts),
            (span.secs(), span.subsec_nanos()) == Self::of_millis(
                millis_between(start_ts, now_ts),
            ),
    {
        let diff: i128 = (now_ts as i128) - (start_ts as i128);
        let millis: u64 = if diff >= 0 {
            diff as u64
        } else {
            (diff + 0x1_0000_0000_0000_0000i128) as u64
        };
        Self::from_millis(millis)
    }

    /// Whole seconds of the span.
    pub fn seconds(&self) -> (secs: u64)
        ensures
            secs == self.secs(),
    {
        self.secs
    }

    /// Nanoseconds beyond the whole seconds.
    pub fn nanoseconds(&self) -> (nanos: u32)
        ensures
            nanos == self.subsec_nanos(),
            nanos < NANOS_PER_SEC,
    {
        proof {
            use_type_invariant(self);
        }
        self.nanos
    }

    /// The span as text, such as `15ms` or `1.5s`.
    pub fn text(&self) -> (text: String)
        ensures
            text@ == self.text_spec(),
    {
        proof {
            use_type_invariant(self);
        }
        format_duration(self.secs, self.nanos)
    }
}

/// Builds a `std::time::Duration` with `Duration::new` and formats it with
/// its `Debug` impl. The text is a function of the two numbers alone; with
/// `nanos` below one second `Duration::new` does not carry and cannot
/// overflow.
#[verifier::external_body]
fn format_duration(secs: u64, nanos: u32) -> (text: String)
    requires
        nanos < NANOS_PER_SEC,
    ensures
        text@ == duration_text(secs, nanos),
{
    format!("{:?}", std::time::Duration::new(secs, nanos))
}

} // verus!
