use vstd::prelude::*;

use std::collections::HashMap;

use crate::consent;
use crate::consent::consent_digest;
use crate::crypto::CryptoProvider;
use crate::identity::Identity;
use crate::identity::null_id;

verus! {

broadcast use vstd::std_specs::hash::group_hash_axioms;

/// Why an operation was refused. Every refusal is terminal for the
/// invocation: the state and the event log are left exactly as they were.
#[derive(Clone, Copy, Debug, PartialEq, Eq, Structural)]
pub enum TransferError {
    /// A release was attempted by someone other than the current owner.
    Unauthorized,
    /// The identifier lies outside the externally allocated range.
    NotMinted,
    /// A consented transfer named the caller as its own counterpart.
    SelfTransfer,
    /// The counterpart's signature does not verify over the consent digest.
    InvalidSignature,
    /// The identifier's one outstanding consent has already been consumed.
    AgreementAlreadyUsed,
}

/// An ownership change: `from` gave up the token, `to` received it. A
/// release records the null identity as the receiver.
#[derive(Debug)]
pub struct TransferEvent {
    pub from: Identity,
    pub to: Identity,
    pub token_id: u64,
}

/// The view of one event: the two identities' bytes and the identifier.
pub open spec fn event_view(e: TransferEvent) -> (Seq<u8>, Seq<u8>, u64) {
    (e.from@, e.to@, e.token_id)
}

/// The ownership state of a soulbound token collection: per-identifier owner
/// and replay flag, the externally maintained allocation bound, the token's
/// display name and symbol, and the log of every ownership change so far.
pub struct SoulboundToken {
    name: String,
    symbol: String,
    next_token_id: u64,
    owners: HashMap<u64, Identity>,
    used: HashMap<u64, bool>,
    log: Vec<TransferEvent>,
}

impl SoulboundToken {
    /// The token collection's display name.
    pub closed spec fn name_view(self) -> Seq<char> {
        self.name@
    }

    /// The token collection's display symbol.
    pub closed spec fn symbol_view(self) -> Seq<char> {
        self.symbol@
    }

    /// The allocation bound: identifiers below it are minted, the rest are
    /// not yet issued.
    pub closed spec fn next_id(self) -> u64 {
        self.next_token_id
    }

    /// The current owner of an identifier, as identity bytes. An identifier
    /// never equipped, or released, is owned by the null identity.
    pub closed spec fn owner_of(self, token_id: u64) -> Seq<u8> {
        if self.owners@.contains_key(token_id) {
            self.owners@[token_id]@
        } else {
            null_id()
        }
    }

    /// Whether the identifier's one outstanding consent has been consumed.
    pub closed spec fn used_flag(self, token_id: u64) -> bool {
        self.used@.contains_key(token_id) && self.used@[token_id]
    }

    /// The emitted events, oldest first, as views.
    pub closed spec fn log_view(self) -> Seq<(Seq<u8>, Seq<u8>, u64)> {
        self.log@.map_values(|e: TransferEvent| event_view(e))
    }

    /// Every stored owner identity is well-formed.
    pub closed spec fn wf(self) -> bool {
        forall|id: u64|
            self.owners@.contains_key(id) ==> (#[trigger] self.owners@[id])@.len() == 32
    }
}

/// The observations that a transfer of `token_id` leaves untouched: the
/// allocation bound, name and symbol, and every other identifier's owner and
/// replay flag.
pub open spec fn same_except(pre: SoulboundToken, post: SoulboundToken, token_id: u64) -> bool {
    &&& post.next_id() == pre.next_id()
    &&& post.name_view() == pre.name_view()
    &&& post.symbol_view() == pre.symbol_view()
    &&& forall|j: u64| j != token_id ==> #[trigger] post.owner_of(j) == pre.owner_of(j)
    &&& forall|j: u64| j != token_id ==> #[trigger] post.used_flag(j) == pre.used_flag(j)
}

/// A successful consented transfer in: `to` owns the token, its consent is
/// consumed, the change is logged, and nothing else moves.
pub open spec fn equip_step(
    pre: SoulboundToken,
    post: SoulboundToken,
    from: Seq<u8>,
    to: Seq<u8>,
    token_id: u64,
) -> bool {
    &&& same_except(pre, post, token_id)
    &&& post.owner_of(token_id) == to
    &&& post.used_flag(token_id)
    &&& post.log_view() == pre.log_view().push((from, to, token_id))
}

/// A successful consented take: the consent is consumed and nothing else
/// moves — in particular the ownership record stays as it was, and no event
/// is emitted (see [`SoulboundToken::take`]).
pub open spec fn take_step(pre: SoulboundToken, post: SoulboundToken, token_id: u64) -> bool {
    &&& same_except(pre, post, token_id)
    &&& post.owner_of(token_id) == pre.owner_of(token_id)
    &&& post.used_flag(token_id)
    &&& post.log_view() == pre.log_view()
}

/// A successful release: the owner is reset to the null identity, the replay
/// flag is cleared, the release is logged, and nothing else moves.
pub open spec fn release_step(pre: SoulboundToken, post: SoulboundToken, token_id: u64) -> bool {
    &&& same_except(pre, post, token_id)
    &&& post.owner_of(token_id) == null_id()
    &&& !post.used_flag(token_id)
    &&& post.log_view() == pre.log_view().push((pre.owner_of(token_id), null_id(), token_id))
}

/// The consent check alone, in order: a consumed consent is reported before
/// an invalid signature, and neither touches the state.
pub open spec fn agreement_check<C: CryptoProvider>(
    crypto: C,
    s: SoulboundToken,
    active: Seq<u8>,
    passive: Seq<u8>,
    token_id: u64,
    signature: Seq<u8>,
) -> Result<(), TransferError> {
    if s.used_flag(token_id) {
        Err(TransferError::AgreementAlreadyUsed)
    } else if !crypto.verify_spec(
        passive,
        consent_digest(crypto, active, passive, token_id),
        signature,
    ) {
        Err(TransferError::InvalidSignature)
    } else {
        Ok(())
    }
}

/// What a `give` invocation is owed: `None` when it must succeed, otherwise
/// the error it must report, first failing check first.
pub open spec fn give_check<C: CryptoProvider>(
    crypto: C,
    s: SoulboundToken,
    caller: Seq<u8>,
    to: Seq<u8>,
    token_id: u64,
    signature: Seq<u8>,
) -> Option<TransferError> {
    if caller == to {
        Some(TransferError::SelfTransfer)
    } else if token_id >= s.next_id() {
        Some(TransferError::NotMinted)
    } else {
        match agreement_check(crypto, s, caller, to, token_id, signature) {
            Err(e) => Some(e),
            Ok(()) => None,
        }
    }
}

/// What a `take` invocation is owed: as [`give_check`], with the origin
/// holder as the passive signer.
pub open spec fn take_check<C: CryptoProvider>(
    crypto: C,
    s: SoulboundToken,
    caller: Seq<u8>,
    from: Seq<u8>,
    token_id: u64,
    signature: Seq<u8>,
) -> Option<TransferError> {
    if caller == from {
        Some(TransferError::SelfTransfer)
    } else if token_id >= s.next_id() {
        Some(TransferError::NotMinted)
    } else {
        match agreement_check(crypto, s, caller, from, token_id, signature) {
            Err(e) => Some(e),
            Ok(()) => None,
        }
    }
}

/// What an `unequip` invocation is owed: only the current owner may release,
/// and only a minted identifier can be released.
pub open spec fn unequip_check(s: SoulboundToken, caller: Seq<u8>, token_id: u64) -> Option<
    TransferError,
> {
    if caller != s.owner_of(token_id) {
        Some(TransferError::Unauthorized)
    } else if token_id >= s.next_id() {
        Some(TransferError::NotMinted)
    } else {
        None
    }
}

impl SoulboundToken {
    /// One-time setup: a fresh state with the given name and symbol, no
    /// minted identifiers, every owner at the null identity, every replay
    /// flag clear, and an empty event log.
    pub fn init(name: String, symbol: String) -> (r: SoulboundToken)
        ensures
            r.wf(),
            r.name_view() == name@,
            r.symbol_view() == symbol@,
            r.next_id() == 0,
            forall|id: u64| #[trigger] r.owner_of(id) == null_id(),
            forall|id: u64| !(#[trigger] r.used_flag(id)),
            r.log_view() == Seq::<(Seq<u8>, Seq<u8>, u64)>::empty(),
    {
        let r = SoulboundToken {
            name,
            symbol,
            next_token_id: 0,
            owners: HashMap::new(),
            used: HashMap::new(),
            log: Vec::new(),
        };
        proof {
            assert(r.log_view() =~= Seq::<(Seq<u8>, Seq<u8>, u64)>::empty());
        }
        r
    }

    /// Records the identifier allocator's current bound. Allocation itself is
    /// an external collaborator's concern; this state only relies on valid
    /// identifiers lying below the recorded bound.
    pub fn set_next_token_id(&mut self, next: u64)
        requires
            old(self).wf(),
        ensures
            final(self).wf(),
            final(self).next_id() == next,
            final(self).name_view() == old(self).name_view(),
            final(self).symbol_view() == old(self).symbol_view(),
            forall|j: u64| #[trigger] final(self).owner_of(j) == old(self).owner_of(j),
            forall|j: u64| #[trigger] final(self).used_flag(j) == old(self).used_flag(j),
            final(self).log_view() == old(self).log_view(),
    {
        self.next_token_id = next;
    }

    /// The token collection's display name.
    pub fn token_name(&self) -> (r: &String)
        ensures
            r@ == self.name_view(),
    {
        &self.name
    }

    /// The token collection's display symbol.
    pub fn token_symbol(&self) -> (r: &String)
        ensures
            r@ == self.symbol_view(),
    {
        &self.symbol
    }

    /// The allocation bound: identifiers below it are minted.
    pub fn next_token_id(&self) -> (r: u64)
        ensures
            r == self.next_id(),
    {
        self.next_token_id
    }

    /// The current owner of `token_id`; the null identity when the token was
    /// never equipped or has been released.
    pub fn token_owner(&self, token_id: u64) -> (r: Identity)
        requires
            self.wf(),
        ensures
            r@ == self.owner_of(token_id),
            r.wf(),
    {
        match self.owners.get(&token_id) {
            Some(owner) => owner.duplicate(),
            None => Identity::null(),
        }
    }

    /// Whether `token_id`'s outstanding consent has been consumed.
    pub fn used_hash(&self, token_id: u64) -> (r: bool)
        ensures
            r == self.used_flag(token_id),
    {
        match self.used.get(&token_id) {
            Some(v) => *v,
            None => false,
        }
    }

    /// The events emitted so far, oldest first.
    pub fn transfer_log(&self) -> (r: &Vec<TransferEvent>)
        ensures
            r@.map_values(|e: TransferEvent| event_view(e)) == self.log_view(),
    {
        proof {
            assert(self.log@.map_values(|e: TransferEvent| event_view(e)) =~= self.log_view());
        }
        &self.log
    }

    fn set_used(&mut self, token_id: u64, value: bool)
        requires
            old(self).wf(),
        ensures
            final(self).wf(),
            final(self).used_flag(token_id) == value,
            forall|j: u64| j != token_id ==> #[trigger] final(self).used_flag(j) == old(
                self,
            ).used_flag(j),
            forall|j: u64| #[trigger] final(self).owner_of(j) == old(self).owner_of(j),
            final(self).next_id() == old(self).next_id(),
            final(self).name_view() == old(self).name_view(),
            final(self).symbol_view() == old(self).symbol_view(),
            final(self).log_view() == old(self).log_view(),
    {
        self.used.insert(token_id, value);
    }

    fn transfer_event(&mut self, from: &Identity, to: &Identity, token_id: u64)
        requires
            old(self).wf(),
        ensures
            final(self).wf(),
            final(self).log_view() == old(self).log_view().push((from@, to@, token_id)),
            forall|j: u64| #[trigger] final(self).owner_of(j) == old(self).owner_of(j),
            forall|j: u64| #[trigger] final(self).used_flag(j) == old(self).used_flag(j),
            final(self).next_id() == old(self).next_id(),
            final(self).name_view() == old(self).name_view(),
            final(self).symbol_view() == old(self).symbol_view(),
    {
        let event = TransferEvent { from: from.duplicate(), to: to.duplicate(), token_id };
        self.log.push(event);
        proof {
            assert(self.log_view() =~= old(self).log_view().push((from@, to@, token_id)));
        }
    }

    fn mint(&mut self, from: &Identity, to: &Identity, token_id: u64)
        requires
            old(self).wf(),
            to.wf(),
        ensures
            final(self).wf(),
            final(self).owner_of(token_id) == to@,
            forall|j: u64| j != token_id ==> #[trigger] final(self).owner_of(j) == old(
                self,
            ).owner_of(j),
            forall|j: u64| #[trigger] final(self).used_flag(j) == old(self).used_flag(j),
            final(self).next_id() == old(self).next_id(),
            final(self).name_view() == old(self).name_view(),
            final(self).symbol_view() == old(self).symbol_view(),
            final(self).log_view() == old(self).log_view().push((from@, to@, token_id)),
    {
        self.owners.insert(token_id, to.duplicate());
        self.transfer_event(from, to, token_id);
    }

    fn burn(&mut self, token_id: u64)
        requires
            old(self).wf(),
        ensures
            final(self).wf(),
            final(self).owner_of(token_id) == null_id(),
            forall|j: u64| j != token_id ==> #[trigger] final(self).owner_of(j) == old(
                self,
            ).owner_of(j),
            forall|j: u64| #[trigger] final(self).used_flag(j) == old(self).used_flag(j),
            final(self).next_id() == old(self).next_id(),
            final(self).name_view() == old(self).name_view(),
            final(self).symbol_view() == old(self).symbol_view(),
            final(self).log_view() == old(self).log_view().push(
                (old(self).owner_of(token_id), null_id(), token_id),
            ),
    {
        let burn_wallet = Identity::null();
        let token_owner = self.token_owner(token_id);
        self.owners.insert(token_id, Identity::null());
        self.transfer_event(&token_owner, &burn_wallet, token_id);
    }

    /// The consent check: reports a consumed consent before an invalid
    /// signature, and touches nothing. Consuming the consent is the caller's
    /// step, taken only once every downstream effect is sure to commit.
    pub fn safe_check_agreement<C: CryptoProvider>(
        &self,
        crypto: &C,
        active: &Identity,
        passive: &Identity,
        token_id: u64,
        signature: &Vec<u8>,
    ) -> (r: Result<(), TransferError>)
        ensures
            r == agreement_check(*crypto, *self, active@, passive@, token_id, signature@),
    {
        if self.used_hash(token_id) {
            return Err(TransferError::AgreementAlreadyUsed);
        }
        let digest = consent::get_hash(crypto, active, passive, token_id);
        if !crypto.verify(passive.as_bytes(), &digest, signature) {
            return Err(TransferError::InvalidSignature);
        }
        Ok(())
    }

    /// Transfers the token to `to`, on the caller's initiative, against the
    /// recipient's pre-signed consent: the caller is the active participant,
    /// `to` the passive signer. On success the recipient owns the token, the
    /// consent is consumed, and the change is logged; on any refusal nothing
    /// moves.
    pub fn give<C: CryptoProvider>(
        &mut self,
        crypto: &C,
        caller: &Identity,
        to: &Identity,
        token_id: u64,
        signature: &Vec<u8>,
    ) -> (r: Result<u64, TransferError>)
        requires
            old(self).wf(),
            caller.wf(),
            to.wf(),
        ensures
            final(self).wf(),
            match give_check(*crypto, *old(self), caller@, to@, token_id, signature@) {
                Some(e) => r == Err::<u64, TransferError>(e) && *final(self) == *old(self),
                None => r == Ok::<u64, TransferError>(token_id) && equip_step(
                    *old(self),
                    *final(self),
                    caller@,
                    to@,
                    token_id,
                ),
            },
    {
        if *caller == *to {
            return Err(TransferError::SelfTransfer);
        }
        if token_id >= self.next_token_id {
            return Err(TransferError::NotMinted);
        }
        match self.safe_check_agreement(crypto, caller, to, token_id, signature) {
            Err(e) => Err(e),
            Ok(()) => {
                self.mint(caller, to, token_id);
                self.set_used(token_id, true);
                Ok(token_id)
            },
        }
    }

    /// Consumes the origin holder's pre-signed consent to relinquish the
    /// token to the caller: the caller is the active participant, `from` the
    /// passive signer. On success the consent is consumed — and nothing else.
    /// The protocol defines a take as spending the origin holder's consent
    /// without touching the ownership record or the log, so this engine
    /// states that behaviour exactly rather than silently substituting the
    /// symmetric equip.
    pub fn take<C: CryptoProvider>(
        &mut self,
        crypto: &C,
        caller: &Identity,
        from: &Identity,
        token_id: u64,
        signature: &Vec<u8>,
    ) -> (r: Result<u64, TransferError>)
        requires
            old(self).wf(),
            caller.wf(),
            from.wf(),
        ensures
            final(self).wf(),
            match take_check(*crypto, *old(self), caller@, from@, token_id, signature@) {
                Some(e) => r == Err::<u64, TransferError>(e) && *final(self) == *old(self),
                None => r == Ok::<u64, TransferError>(token_id) && take_step(
                    *old(self),
                    *final(self),
                    token_id,
                ),
            },
    {
        if *caller == *from {
            return Err(TransferError::SelfTransfer);
        }
        if token_id >= self.next_token_id {
            return Err(TransferError::NotMinted);
        }
        match self.safe_check_agreement(crypto, caller, from, token_id, signature) {
            Err(e) => Err(e),
            Ok(()) => {
                self.set_used(token_id, true);
                Ok(token_id)
            },
        }
    }

    /// Releases the token: only its current owner may. On success the owner
    /// is reset to the null identity, the replay flag is cleared and the
    /// release is logged, so the identifier is ready for a fresh consented
    /// transfer; on any refusal nothing moves.
    pub fn unequip(&mut self, caller: &Identity, token_id: u64) -> (r: Result<
        (),
        TransferError,
    >)
        requires
            old(self).wf(),
            caller.wf(),
        ensures
            final(self).wf(),
            match unequip_check(*old(self), caller@, token_id) {
                Some(e) => r == Err::<(), TransferError>(e) && *final(self) == *old(self),
                None => r == Ok::<(), TransferError>(()) && release_step(
                    *old(self),
                    *final(self),
                    token_id,
                ),
            },
    {
        let token_owner = self.token_owner(token_id);
        if !(*caller == token_owner) {
            return Err(TransferError::Unauthorized);
        }
        if token_id >= self.next_token_id {
            return Err(TransferError::NotMinted);
        }
        self.set_used(token_id, false);
        self.burn(token_id);
        Ok(())
    }

    /// Counts the minted identifiers currently owned by `owner`, derived from
    /// the ownership registry itself.
    pub fn balance(&self, owner: &Identity) -> (r: u64)
        requires
            self.wf(),
        ensures
            r as int == owned_below(*self, owner@, self.next_id() as int),
    {
        let mut count: u64 = 0;
        let mut i: u64 = 0;
        while i < self.next_token_id
            invariant
                self.wf(),
                i <= self.next_id(),
                count <= i,
                count as int == owned_below(*self, owner@, i as int),
            decreases self.next_id() - i,
        {
            let holder = self.token_owner(i);
            if holder == *owner {
                count = count + 1;
            }
            i = i + 1;
        }
        count
    }
}

/// How many identifiers below `n` the identity bytes `who` own in `s`.
pub open spec fn owned_below(s: SoulboundToken, who: Seq<u8>, n: int) -> int
    decreases n,
{
    if n <= 0 {
        0
    } else {
        owned_below(s, who, n - 1) + if s.owner_of((n - 1) as u64) == who {
            1 as int
        } else {
            0 as int
        }
    }
}

/// A consumed consent blocks resubmission: after a successful consented
/// transfer in, the identical `give` call is refused as already used,
/// whatever the signature's validity.
pub proof fn lemma_give_replay_rejected<C: CryptoProvider>(
    crypto: C,
    pre: SoulboundToken,
    post: SoulboundToken,
    caller: Seq<u8>,
    to: Seq<u8>,
    token_id: u64,
    signature: Seq<u8>,
)
    requires
        give_check(crypto, pre, caller, to, token_id, signature) is None,
        equip_step(pre, post, caller, to, token_id),
    ensures
        give_check(crypto, post, caller, to, token_id, signature) == Some(
            TransferError::AgreementAlreadyUsed,
        ),
{
}

/// A consumed consent blocks resubmission: after a successful consented
/// take, the identical `take` call is refused as already used, whatever the
/// signature's validity.
pub proof fn lemma_take_replay_rejected<C: CryptoProvider>(
    crypto: C,
    pre: SoulboundToken,
    post: SoulboundToken,
    caller: Seq<u8>,
    from: Seq<u8>,
    token_id: u64,
    signature: Seq<u8>,
)
    requires
        take_check(crypto, pre, caller, from, token_id, signature) is None,
        take_step(pre, post, token_id),
    ensures
        take_check(crypto, post, caller, from, token_id, signature) == Some(
            TransferError::AgreementAlreadyUsed,
        ),
{
}

/// A release re-opens the identifier: after a successful `unequip`, any
/// correctly signed `give` consent for it — the one consumed before the
/// release included — is accepted again. Consents carry no per-cycle nonce,
/// so reuse across equip cycles is intentional.
pub proof fn lemma_give_accepted_after_release<C: CryptoProvider>(
    crypto: C,
    pre: SoulboundToken,
    post: SoulboundToken,
    caller: Seq<u8>,
    to: Seq<u8>,
    token_id: u64,
    signature: Seq<u8>,
)
    requires
        release_step(pre, post, token_id),
        caller != to,
        token_id < post.next_id(),
        crypto.verify_spec(to, consent_digest(crypto, caller, to, token_id), signature),
    ensures
        give_check(crypto, post, caller, to, token_id, signature) is None,
{
}

/// A release re-opens the identifier for `take` in the same way.
pub proof fn lemma_take_accepted_after_release<C: CryptoProvider>(
    crypto: C,
    pre: SoulboundToken,
    post: SoulboundToken,
    caller: Seq<u8>,
    from: Seq<u8>,
    token_id: u64,
    signature: Seq<u8>,
)
    requires
        release_step(pre, post, token_id),
        caller != from,
        token_id < post.next_id(),
        crypto.verify_spec(from, consent_digest(crypto, caller, from, token_id), signature),
    ensures
        take_check(crypto, post, caller, from, token_id, signature) is None,
{
}

} // verus!
