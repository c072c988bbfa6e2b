use vstd::prelude::*;

verus! {

/// Lifecycle of one trade. The machine is strictly ordered:
/// `Initialized -> FundsLocked -> DocumentsSubmitted -> {Failed | ShipmentConfirmed} -> Settled`,
/// with `Cancelled` reachable from `Initialized` and `FundsLocked` only.
/// `Cancelled`, `Failed` and `Settled` are terminal: the entry and its vault
/// are destroyed in the same operation that reaches them.
#[derive(Clone, Copy, Debug, PartialEq, Eq, Structural)]
pub enum TradeState {
    Initialized,
    FundsLocked,
    DocumentsSubmitted,
    Cancelled,
    Failed,
    ShipmentConfirmed,
    Settled,
}

impl TradeState {
    /// A terminal state admits no further transition.
    pub open spec fn spec_is_terminal(self) -> bool {
        ||| self is Cancelled
        ||| self is Failed
        ||| self is Settled
    }

    pub fn is_terminal(&self) -> (r: bool)
        ensures
            r == self.spec_is_terminal(),
    {
        match self {
            TradeState::Cancelled => true,
            TradeState::Failed => true,
            TradeState::Settled => true,
            _ => false,
        }
    }

    /// The transition relation of the trade state machine: `self.can_step_to(post)`
    /// holds exactly when some operation may move an entry from `self` to `post`.
    pub open spec fn can_step_to(self, post: TradeState) -> bool {
        ||| (self is Initialized && post is FundsLocked)
        ||| (self is Initialized && post is Cancelled)
        ||| (self is FundsLocked && post is Cancelled)
        ||| (self is FundsLocked && post is DocumentsSubmitted)
        ||| (self is DocumentsSubmitted && post is Failed)
        ||| (self is DocumentsSubmitted && post is ShipmentConfirmed)
        ||| (self is ShipmentConfirmed && post is Settled)
    }

    /// `post` can be reached from `self` by at most `n` transitions.
    pub open spec fn reachable_within(self, post: TradeState, n: nat) -> bool
        decreases n,
    {
        ||| self == post
        ||| (n > 0 && exists|mid: TradeState|
                #[trigger] self.can_step_to(mid) && mid.reachable_within(post, (n - 1) as nat))
    }

    /// Once an entry sits in `DocumentsSubmitted`, the states that allow a
    /// cancellation are gone for good: documents submitted means irreversible.
    pub open spec fn allows_cancel(self) -> bool {
        ||| self is Initialized
        ||| self is FundsLocked
    }
}

/// No transition leaves a terminal state.
pub proof fn lemma_terminal_has_no_step(s: TradeState, t: TradeState)
    requires
        s.spec_is_terminal(),
    ensures
        !s.can_step_to(t),
{
}

/// A terminal state reaches only itself, in any number of transitions: the
/// entry's lifecycle is over.
pub proof fn lemma_terminal_reaches_only_itself(s: TradeState, t: TradeState, n: nat)
    requires
        s.spec_is_terminal(),
        s.reachable_within(t, n),
    ensures
        t == s,
{
    assert forall|mid: TradeState| !(#[trigger] s.can_step_to(mid)) by {}
}

/// Exactly one of the two fund-releasing adjudications can ever fire for a
/// given trade. Rejection is enabled only in `DocumentsSubmitted` and lands in
/// the terminal state `Failed`, from which `ShipmentConfirmed` (the sole state
/// enabling settlement) is unreachable; settlement is enabled only in
/// `ShipmentConfirmed` and lands in the terminal state `Settled`, from which
/// `DocumentsSubmitted` (the sole state enabling rejection) is unreachable.
pub proof fn lemma_reject_and_settle_exclusive(n: nat)
    ensures
        !TradeState::Failed.reachable_within(TradeState::ShipmentConfirmed, n),
        !TradeState::Settled.reachable_within(TradeState::DocumentsSubmitted, n),
{
    if TradeState::Failed.reachable_within(TradeState::ShipmentConfirmed, n) {
        lemma_terminal_reaches_only_itself(TradeState::Failed, TradeState::ShipmentConfirmed, n);
    }
    if TradeState::Settled.reachable_within(TradeState::DocumentsSubmitted, n) {
        lemma_terminal_reaches_only_itself(TradeState::Settled, TradeState::DocumentsSubmitted, n);
    }
}

/// The durable record of one trade: parties, terms, document commitment and
/// lifecycle state. Identities and asset kinds are the plain account addresses
/// of the host ledger, carried here as opaque integer ids. One entry exists per
/// `(buyer, seed)` pair; `bump` is the derivation byte that lets the entry
/// itself act as the signing authority over its vault.
#[derive(Clone, Copy, Debug)]
pub struct Trade {
    pub buyer: u64,
    pub seller: u64,
    pub freight_verifier: u64,
    pub mint_usd: u64,
    pub amount: u64,
    pub document_hash: Option<[u8; 32]>,
    pub current_state: TradeState,
    pub seed: u64,
    pub bump: u8,
}

impl Trade {
    /// States an entry may only hold once documents were attested.
    pub open spec fn past_submission(self) -> bool {
        ||| self.current_state is DocumentsSubmitted
        ||| self.current_state is ShipmentConfirmed
        ||| self.current_state is Failed
        ||| self.current_state is Settled
    }

    /// Well-formedness of an entry: the escrowed amount is positive, and the
    /// document commitment is set exactly in the states that follow a
    /// submission (it is write-once and never erased).
    pub open spec fn wf(self) -> bool {
        &&& self.amount > 0
        &&& (self.document_hash is Some <==> self.past_submission())
    }
}

} // verus!
