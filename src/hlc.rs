use crate::data::HlcTimestamp;
use std::sync::Arc;
use uhlc::HLC;
use vstd::prelude::*;

verus! {

#[verifier::external_type_specification]
#[verifier::external_body]
pub struct ExHlc(HLC);

/// Relies on uhlc::HLC::new_timestamp: a fresh timestamp of the clock, taken
/// apart into its time and the clock's identity.
#[verifier::external_body]
fn clock_timestamp(hlc: &HLC) -> (r: HlcTimestamp) {
    let ts = hlc.new_timestamp();
    HlcTimestamp { time: ts.get_time().as_u64(), id: *ts.get_id() }
}

/// The timestamp `ts` aligned to `period`: its time rounded down to a
/// multiple of the period, with the same clock identity; unchanged where
/// there is no period.
pub open spec fn aligned(ts: HlcTimestamp, period: Option<u64>) -> HlcTimestamp {
    match period {
        None => ts,
        Some(p) => HlcTimestamp { time: ((ts.time / p) * p) as u64, id: ts.id },
    }
}

/// Aligns a raw timestamp to a period given in the clock's native resolution.
pub fn align_timestamp(ts: HlcTimestamp, period: Option<u64>) -> (r: HlcTimestamp)
    requires
        period != Some(0u64),
    ensures
        r == aligned(ts, period),
{
    match period {
        None => ts,
        Some(p) => {
            let n: u64 = ts.time / p;
            proof {
                assert(n * p <= ts.time) by (nonlinear_arith)
                    requires
                        n == ts.time / p,
                        p > 0,
                ;
            }
            HlcTimestamp { time: n * p, id: ts.id }
        },
    }
}

/// A clock whose timestamps are aligned to a fixed period, so that sources
/// that tick with the same period stamp comparable times without talking to
/// each other.
pub struct PeriodicHLC {
    hlc: Arc<HLC>,
    period: Option<u64>,
}

impl PeriodicHLC {
    /// The alignment period, in the clock's native resolution.
    pub closed spec fn spec_period(&self) -> Option<u64> {
        self.period
    }

    /// The clock that is wrapped.
    pub closed spec fn spec_hlc(&self) -> Arc<HLC> {
        self.hlc
    }

    /// The period, where there is one, is not zero.
    pub open spec fn wf(&self) -> bool {
        self.spec_period() != Some(0u64)
    }

    /// A periodic clock over `hlc`; `period` is in the clock's native
    /// resolution (2^32 to the second).
    pub fn new(hlc: Arc<HLC>, period: Option<u64>) -> (r: PeriodicHLC)
        requires
            period != Some(0u64),
        ensures
            r.spec_period() == period,
            r.spec_hlc() == hlc,
            r.wf(),
    {
        PeriodicHLC { hlc, period }
    }

    pub fn period(&self) -> (r: Option<u64>)
        ensures
            r == self.spec_period(),
    {
        self.period
    }

    /// A timestamp of the wrapped clock, aligned to the period.
    pub fn new_timestamp(&self) -> (r: HlcTimestamp)
        requires
            self.wf(),
        ensures
            exists|raw: HlcTimestamp| r == aligned(raw, self.spec_period()),
    {
        let raw = clock_timestamp(&self.hlc);
        align_timestamp(raw, self.period)
    }
}

/// Without a period the clock's timestamp is returned as it is. With a
/// period, the aligned time is a multiple of the period, never later than the
/// raw time and less than one period earlier, and two raw times within the
/// same period align to the same timestamp.
pub proof fn lemma_aligned(a: HlcTimestamp, b: HlcTimestamp, period: Option<u64>)
    requires
        period != Some(0u64),
    ensures
        period is None ==> aligned(a, period) == a,
        period is Some ==> {
            let p = period->Some_0;
            &&& aligned(a, period).time <= a.time
            &&& a.time < aligned(a, period).time + p
            &&& aligned(a, period).time % p == 0
            &&& aligned(a, period).id == a.id
            &&& (a.time / p == b.time / p && a.id == b.id ==> aligned(a, period) == aligned(b, period))
        },
{
    if let Some(p) = period {
        let t = a.time as int;
        let pp = p as int;
        assert((t / pp) * pp <= t && t < (t / pp) * pp + pp && ((t / pp) * pp) % pp == 0)
            by (nonlinear_arith)
            requires
                pp > 0,
                t >= 0,
        ;
    }
}

} // verus!
