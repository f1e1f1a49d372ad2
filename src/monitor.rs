use vstd::prelude::*;

use crate::error::WalletError;

verus! {

/// A state that the federation reports for a pending receive operation.
#[derive(Debug, Clone, PartialEq, Eq)]
pub enum ReceiveState {
    Created,
    WaitingForPayment,
    Canceled { reason: String },
    Funded,
    AwaitingFunds,
    Claimed,
}

/// What a single update decides: `None` for an intermediate state, the final
/// outcome for a terminal one.
pub open spec fn resolution(s: ReceiveState) -> Option<Result<(), WalletError>> {
    match s {
        ReceiveState::Funded => Some(Ok(())),
        ReceiveState::Canceled { reason } => Some(Err(WalletError::InvoiceCanceled(reason))),
        _ => None,
    }
}

/// The outcome of a settlement stream that yielded `s` and then closed: the
/// first terminal state decides, and a stream without one resolves to
/// `NoUpdatesReceived`.
pub open spec fn settlement_of(s: Seq<ReceiveState>) -> Result<(), WalletError>
    decreases s.len(),
{
    if s.len() == 0 {
        Err(WalletError::NoUpdatesReceived)
    } else {
        match resolution(s[0]) {
            Some(r) => r,
            None => settlement_of(s.skip(1)),
        }
    }
}

/// No update of `s` is terminal.
pub open spec fn all_pending(s: Seq<ReceiveState>) -> bool {
    forall|i: int| 0 <= i < s.len() ==> #[trigger] resolution(s[i]) is None
}

/// `i` is the first terminal update of `s`.
pub open spec fn first_terminal_at(s: Seq<ReceiveState>, i: int) -> bool {
    &&& 0 <= i < s.len()
    &&& resolution(s[i]) is Some
    &&& all_pending(s.take(i))
}

/// Classifies one update of the settlement stream.
pub fn classify_update(update: &ReceiveState) -> (r: Option<Result<(), WalletError>>)
    ensures
        r == resolution(*update),
{
    match update {
        ReceiveState::Funded => Some(Ok(())),
        ReceiveState::Canceled { reason } => Some(Err(WalletError::InvoiceCanceled(reason.clone()))),
        _ => None,
    }
}

proof fn lemma_pending_prefix(s: Seq<ReceiveState>, t: Seq<ReceiveState>)
    requires
        all_pending(s),
    ensures
        settlement_of(s + t) == settlement_of(t),
    decreases s.len(),
{
    if s.len() > 0 {
        assert(resolution(s[0]) is None);
        assert((s + t)[0] == s[0]);
        assert((s + t).skip(1) =~= s.skip(1) + t);
        assert forall|i: int| 0 <= i < s.skip(1).len() implies #[trigger] resolution(s.skip(1)[i]) is None by {
            assert(s.skip(1)[i] == s[i + 1]);
        }
        lemma_pending_prefix(s.skip(1), t);
    } else {
        assert(s + t =~= t);
    }
}

/// Watches the updates of one receive operation until one of them settles it.
pub struct SettlementMonitor {
    /// The updates observed so far, in order.
    pub seen: Ghost<Seq<ReceiveState>>,
}

impl SettlementMonitor {
    /// The monitor has not seen a terminal update yet.
    pub open spec fn unresolved(&self) -> bool {
        all_pending(self.seen@)
    }

    /// Begins watching an operation; an operation unknown to the client fails
    /// at once with `OperationNotFound`, before any subscription.
    pub fn start(operation_exists: bool) -> (r: Result<SettlementMonitor, WalletError>)
        ensures
            operation_exists <==> r is Ok,
            r matches Ok(m) ==> m.seen@ == Seq::<ReceiveState>::empty(),
            r matches Err(e) ==> e is OperationNotFound,
    {
        if operation_exists {
            Ok(SettlementMonitor { seen: Ghost(Seq::empty()) })
        } else {
            Err(WalletError::OperationNotFound)
        }
    }

    /// Takes the next update of the stream. A terminal update returns the
    /// outcome of the whole stream; the caller stops consuming there.
    pub fn observe(&mut self, update: &ReceiveState) -> (r: Option<Result<(), WalletError>>)
        requires
            old(self).unresolved(),
        ensures
            final(self).seen@ == old(self).seen@.push(*update),
            r == resolution(*update),
            r is None ==> final(self).unresolved(),
            r matches Some(o) ==> o == settlement_of(final(self).seen@),
    {
        let r = classify_update(update);
        let ghost before = self.seen@;
        self.seen = Ghost(before.push(*update));
        proof {
            lemma_pending_prefix(before, seq![*update]);
            assert(before + seq![*update] =~= before.push(*update));
            assert(seq![*update].skip(1) =~= Seq::<ReceiveState>::empty());
            if r is None {
                assert forall|i: int| 0 <= i < self.seen@.len() implies
                    #[trigger] resolution(self.seen@[i]) is None by {
                    if i < before.len() {
                        assert(self.seen@[i] == before[i]);
                    }
                }
            }
        }
        r
    }

    /// The stream closed: with no terminal update seen, the outcome is
    /// `NoUpdatesReceived`.
    pub fn close(self) -> (r: Result<(), WalletError>)
        requires
            self.unresolved(),
        ensures
            r == settlement_of(self.seen@),
            r matches Err(e) && e is NoUpdatesReceived,
    {
        proof {
            lemma_pending_prefix(self.seen@, Seq::empty());
            assert(self.seen@ + Seq::<ReceiveState>::empty() =~= self.seen@);
        }
        Err(WalletError::NoUpdatesReceived)
    }
}

/// The outcome of awaiting an operation whose settlement stream yields
/// `updates` and then closes.
pub fn settlement_outcome(operation_exists: bool, updates: &Vec<ReceiveState>) -> (r: Result<(), WalletError>)
    ensures
        !operation_exists ==> r == Err::<(), WalletError>(WalletError::OperationNotFound),
        operation_exists ==> r == settlement_of(updates@),
{
    let mut monitor = match SettlementMonitor::start(operation_exists) {
        Ok(m) => m,
        Err(e) => return Err(e),
    };
    let mut k: usize = 0;
    assert(updates@.take(0) =~= Seq::<ReceiveState>::empty());
    while k < updates.len()
        invariant
            operation_exists,
            k <= updates@.len(),
            monitor.unresolved(),
            monitor.seen@ == updates@.take(k as int),
        decreases updates@.len() - k,
    {
        let o = monitor.observe(&updates[k]);
        assert(updates@.take(k as int).push(updates@[k as int]) =~= updates@.take(k + 1));
        if let Some(out) = o {
            proof {
                lemma_pending_prefix(Seq::empty(), updates@);
                assert(updates@ =~= updates@.take(k + 1) + updates@.skip(k + 1));
                lemma_decided_prefix(updates@.take(k + 1), updates@.skip(k + 1));
            }
            return out;
        }
        k = k + 1;
    }
    assert(updates@.take(k as int) =~= updates@);
    monitor.close()
}

proof fn lemma_decided_prefix(s: Seq<ReceiveState>, t: Seq<ReceiveState>)
    requires
        s.len() > 0,
        resolution(s.last()) is Some,
        all_pending(s.drop_last()),
    ensures
        settlement_of(s + t) == settlement_of(s),
{
    let p = s.drop_last();
    let u = s.last();
    assert(s =~= p + seq![u]);
    assert(s + t =~= p + (seq![u] + t));
    lemma_pending_prefix(p, seq![u] + t);
    lemma_pending_prefix(p, seq![u]);
    assert((seq![u] + t)[0] == u);
}

proof fn lemma_settlement_shape(s: Seq<ReceiveState>)
    ensures
        (all_pending(s) && settlement_of(s) == Err::<(), WalletError>(WalletError::NoUpdatesReceived))
        || (exists|i: int| first_terminal_at(s, i) && settlement_of(s) == resolution(s[i])->0),
    decreases s.len(),
{
    if s.len() > 0 {
        if resolution(s[0]) is Some {
            assert(s.take(0) =~= Seq::<ReceiveState>::empty());
            assert(first_terminal_at(s, 0));
        } else {
            let rest = s.skip(1);
            lemma_settlement_shape(rest);
            if all_pending(rest) {
                assert forall|i: int| 0 <= i < s.len() implies #[trigger] resolution(s[i]) is None by {
                    if i > 0 {
                        assert(s[i] == rest[i - 1]);
                    }
                }
            } else {
                let i = choose|i: int| first_terminal_at(rest, i) && settlement_of(rest) == resolution(rest[i])->0;
                assert(s[i + 1] == rest[i]);
                assert forall|j: int| 0 <= j < s.take(i + 1).len() implies #[trigger] resolution(s.take(i + 1)[j]) is None by {
                    if j > 0 {
                        assert(s.take(i + 1)[j] == rest.take(i)[j - 1]);
                    }
                }
                assert(first_terminal_at(s, i + 1));
            }
        }
    }
}

proof fn lemma_first_terminal_unique(s: Seq<ReceiveState>, i: int, j: int)
    requires
        first_terminal_at(s, i),
        first_terminal_at(s, j),
    ensures
        i == j,
{
    if i < j {
        assert(s.take(j)[i] == s[i]);
    } else if j < i {
        assert(s.take(i)[j] == s[j]);
    }
}

/// How a settlement stream resolves: to success exactly when it yields
/// `Funded` before any other terminal state, to `InvoiceCanceled(reason)`
/// exactly when `Canceled { reason }` is its first terminal state, and to
/// `NoUpdatesReceived` exactly when it closes having yielded neither.
pub proof fn lemma_settlement_cases(s: Seq<ReceiveState>, reason: String)
    ensures
        settlement_of(s) is Ok <==> exists|i: int|
            first_terminal_at(s, i) && #[trigger] s[i] == ReceiveState::Funded,
        settlement_of(s) == Err::<(), WalletError>(WalletError::InvoiceCanceled(reason))
            <==> exists|i: int|
            first_terminal_at(s, i) && #[trigger] s[i] == (ReceiveState::Canceled { reason }),
        settlement_of(s) == Err::<(), WalletError>(WalletError::NoUpdatesReceived) <==> all_pending(s),
{
    lemma_settlement_shape(s);
    if all_pending(s) {
        assert forall|i: int| !first_terminal_at(s, i) by {
            if 0 <= i < s.len() {
                assert(resolution(s[i]) is None);
            }
        }
    } else {
        let k = choose|i: int| first_terminal_at(s, i) && settlement_of(s) == resolution(s[i])->0;
        assert(!(resolution(s[k]) is None));
        assert forall|i: int| first_terminal_at(s, i) implies i == k by {
            lemma_first_terminal_unique(s, i, k);
        }
    }
}

} // verus!
