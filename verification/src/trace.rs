//! Where a request stands in a trace.
use vstd::prelude::*;
use vstd::std_specs::convert::FromSpecImpl;

verus! {

/// The identifier of a trace.
#[derive(Debug, Clone, Copy, PartialEq, Eq, Structural)]
pub struct TraceId(pub u128);

/// The identifier of a span within a trace.
#[derive(Debug, Clone, Copy, PartialEq, Eq, Structural)]
pub struct SpanId(pub u64);

/// Whether a trace is recorded.
#[derive(Debug, Clone, Copy, PartialEq, Eq, Structural)]
pub enum SamplingDecision {
    Sampled,
    Unsampled,
}

/// The trace and the span that a request belongs to.
#[derive(Debug, Clone, Copy, PartialEq, Eq, Structural)]
pub struct Context {
    pub trace_id: TraceId,
    pub span_id: SpanId,
    pub sampling_decision: SamplingDecision,
}

impl FromSpecImpl<u128> for TraceId {
    open spec fn obeys_from_spec() -> bool {
        true
    }

    open spec fn from_spec(v: u128) -> TraceId {
        TraceId(v)
    }
}

impl From<u128> for TraceId {
    fn from(v: u128) -> (r: TraceId) {
        TraceId(v)
    }
}

impl FromSpecImpl<TraceId> for u128 {
    open spec fn obeys_from_spec() -> bool {
        true
    }

    open spec fn from_spec(v: TraceId) -> u128 {
        v.0
    }
}

impl From<TraceId> for u128 {
    fn from(v: TraceId) -> (r: u128) {
        v.0
    }
}

impl FromSpecImpl<u64> for SpanId {
    open spec fn obeys_from_spec() -> bool {
        true
    }

    open spec fn from_spec(v: u64) -> SpanId {
        SpanId(v)
    }
}

impl From<u64> for SpanId {
    fn from(v: u64) -> (r: SpanId) {
        SpanId(v)
    }
}

impl FromSpecImpl<SpanId> for u64 {
    open spec fn obeys_from_spec() -> bool {
        true
    }

    open spec fn from_spec(v: SpanId) -> u64 {
        v.0
    }
}

impl From<SpanId> for u64 {
    fn from(v: SpanId) -> (r: u64) {
        v.0
    }
}

impl FromSpecImpl<SamplingDecision> for u8 {
    open spec fn obeys_from_spec() -> bool {
        true
    }

    open spec fn from_spec(d: SamplingDecision) -> u8 {
        if d is Sampled {
            1
        } else {
            0
        }
    }
}

impl From<SamplingDecision> for u8 {
    fn from(d: SamplingDecision) -> (r: u8) {
        match d {
            SamplingDecision::Sampled => 1,
            SamplingDecision::Unsampled => 0,
        }
    }
}

impl FromSpecImpl<u8> for SamplingDecision {
    open spec fn obeys_from_spec() -> bool {
        true
    }

    open spec fn from_spec(v: u8) -> SamplingDecision {
        if v == 1 {
            SamplingDecision::Sampled
        } else {
            SamplingDecision::Unsampled
        }
    }
}

/// Every byte but 1 stands for a trace that is not recorded.
impl From<u8> for SamplingDecision {
    fn from(v: u8) -> (r: SamplingDecision) {
        if v == 1 {
            SamplingDecision::Sampled
        } else {
            SamplingDecision::Unsampled
        }
    }
}

} // verus!
