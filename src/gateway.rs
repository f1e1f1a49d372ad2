use vstd::prelude::*;

use crate::error::WalletError;

verus! {

/// A gateway's announcement, as the gateway directory reports it.
#[derive(Debug, Clone, PartialEq, Eq)]
pub struct GatewayAnnouncement {
    pub gateway_id: String,
    /// Remaining validity of the announcement, in nanoseconds.
    pub ttl_nanos: u128,
    /// Number of route hints the gateway publishes.
    pub route_hint_count: usize,
    pub lightning_alias: String,
    pub api: String,
    pub node_pub_key: String,
    pub supports_private_payments: bool,
}

/// `i` is the first announcement of `gs` whose time-to-live is maximal.
pub open spec fn is_first_longest_lived(gs: Seq<GatewayAnnouncement>, i: int) -> bool {
    &&& 0 <= i < gs.len()
    &&& forall|j: int| 0 <= j < gs.len() ==> #[trigger] gs[j].ttl_nanos <= gs[i].ttl_nanos
    &&& forall|j: int| 0 <= j < i ==> #[trigger] gs[j].ttl_nanos < gs[i].ttl_nanos
}

/// Index of the announcement with the longest time-to-live, the first one
/// among equals; `NoGatewaysFound` when there is none.
pub fn best_gateway_index(gateways: &Vec<GatewayAnnouncement>) -> (r: Result<usize, WalletError>)
    ensures
        gateways@.len() == 0 <==> r is Err,
        r matches Ok(i) ==> is_first_longest_lived(gateways@, i as int),
        r matches Err(e) ==> e is NoGatewaysFound,
{
    if gateways.len() == 0 {
        return Err(WalletError::NoGatewaysFound);
    }
    let mut best: usize = 0;
    let mut k: usize = 1;
    while k < gateways.len()
        invariant
            0 <= best < k <= gateways@.len(),
            forall|j: int| 0 <= j < k ==> #[trigger] gateways@[j].ttl_nanos
                <= gateways@[best as int].ttl_nanos,
            forall|j: int| 0 <= j < best ==> #[trigger] gateways@[j].ttl_nanos
                < gateways@[best as int].ttl_nanos,
        decreases gateways@.len() - k,
    {
        if gateways[k].ttl_nanos > gateways[best].ttl_nanos {
            best = k;
        }
        k = k + 1;
    }
    Ok(best)
}

/// The announcement with the longest time-to-live, the first one among
/// equals; `NoGatewaysFound` when there is none.
pub fn select_best(gateways: &Vec<GatewayAnnouncement>) -> (r: Result<&GatewayAnnouncement, WalletError>)
    ensures
        gateways@.len() == 0 <==> r is Err,
        r matches Ok(g) ==> exists|i: int|
            is_first_longest_lived(gateways@, i) && *g == #[trigger] gateways@[i],
        r matches Err(e) ==> e is NoGatewaysFound,
{
    match best_gateway_index(gateways) {
        Ok(i) => Ok(&gateways[i]),
        Err(e) => Err(e),
    }
}

/// Only one position of a sequence of announcements is the first with the
/// longest time-to-live, so the selection is the same on every call with the
/// same announcements in the same order.
pub proof fn lemma_best_gateway_unique(gs: Seq<GatewayAnnouncement>, i: int, j: int)
    requires
        is_first_longest_lived(gs, i),
        is_first_longest_lived(gs, j),
    ensures
        i == j,
{
    if i < j {
        assert(gs[i].ttl_nanos < gs[j].ttl_nanos);
        assert(gs[i].ttl_nanos <= gs[j].ttl_nanos);
        assert(gs[j].ttl_nanos <= gs[i].ttl_nanos);
    } else if j < i {
        assert(gs[j].ttl_nanos < gs[i].ttl_nanos);
        assert(gs[i].ttl_nanos <= gs[j].ttl_nanos);
    }
}

} // verus!
