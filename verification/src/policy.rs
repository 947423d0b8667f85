//! The autoconnect policy: at startup, every already-present eligible
//! endpoint is subscribed to the monitor's input. An endpoint is eligible
//! when it can be read from by subscribers and is not excluded from automatic
//! export. A port that arrives later is subscribed without those checks: the
//! arrival notification itself is trusted to have filtered eligibility.

use vstd::prelude::*;
use crate::addr::Addr;

verus! {

/// What the transport advertises about one endpoint when the initial sweep
/// enumerates it.
#[derive(Clone, Copy, PartialEq, Eq, Structural, Debug)]
pub struct EndpointInfo {
    /// The endpoint's identity.
    pub addr: Addr,
    /// The endpoint can be read from by subscribers.
    pub readable: bool,
    /// The endpoint is excluded from automatic export.
    pub excluded: bool,
}

/// Whether the initial sweep subscribes to an endpoint.
pub open spec fn sweep_eligible(e: EndpointInfo) -> bool {
    e.readable && !e.excluded
}

/// The subscription targets of an initial sweep over the enumerated
/// endpoints: the eligible ones, in enumeration order.
pub open spec fn sweep_view(s: Seq<EndpointInfo>) -> Seq<Addr>
    decreases s.len(),
{
    if s.len() == 0 {
        Seq::empty()
    } else {
        sweep_view(s.drop_last()) + (if sweep_eligible(s.last()) {
            seq![s.last().addr]
        } else {
            Seq::empty()
        })
    }
}

/// Chooses the endpoints an initial sweep subscribes to the monitor's input:
/// exactly those readable by subscribers and not excluded from export, in the
/// order the transport enumerated them.
pub fn sweep_targets(endpoints: &Vec<EndpointInfo>) -> (r: Vec<Addr>)
    ensures
        r@ == sweep_view(endpoints@),
{
    let mut r: Vec<Addr> = Vec::new();
    let mut i: usize = 0;
    while i < endpoints.len()
        invariant
            i <= endpoints.len(),
            r@ == sweep_view(endpoints@.take(i as int)),
        decreases endpoints.len() - i,
    {
        let e = endpoints[i];
        if e.readable && !e.excluded {
            r.push(e.addr);
        }
        proof {
            assert(endpoints@.take(i + 1).drop_last() =~= endpoints@.take(i as int));
            assert(endpoints@.take(i + 1).last() == endpoints@[i as int]);
            assert(r@ =~= sweep_view(endpoints@.take(i + 1)));
        }
        i = i + 1;
    }
    proof {
        assert(endpoints@.take(endpoints@.len() as int) =~= endpoints@);
    }
    r
}

} // verus!
