//! The token registry: the accepted-token allow-list and the per-token fee
//! schedule. All three mutating operations are admin-gated and guarded
//! against reentrancy; `add_accepted_token` additionally probes the would-be
//! token contract, and the probe's failure aborts the call with the external
//! error and no state change.

use vstd::prelude::*;

use crate::errors::{AddTokenError, ContractError, TokenProbe};
use crate::events::{
    publish_fee_set_event, publish_token_added_event, publish_token_removed_event, Event,
    FeeSetEvent, TokenAddedEvent, TokenRemovedEvent,
};
use crate::shade::{fees_map, fees_unique, Shade, ShadeView};
use crate::types::{Address, FeeEntry};

verus! {

/// The allow-list rebuilt without every occurrence of `token`, order kept.
pub open spec fn without(s: Seq<Address>, token: Address) -> Seq<Address>
    decreases s.len(),
{
    if s.len() == 0 {
        Seq::empty()
    } else if s.last() == token {
        without(s.drop_last(), token)
    } else {
        without(s.drop_last(), token).push(s.last())
    }
}

impl ShadeView {
    /// `token` is on the allow-list.
    pub open spec fn is_accepted(self, token: Address) -> bool {
        self.accepted.contains(token)
    }

    /// The fee stored for `token`, zero if none was ever set.
    pub open spec fn fee_of(self, token: Address) -> i128 {
        if self.fees.dom().contains(token) {
            self.fees[token]
        } else {
            0
        }
    }

    /// Transition of `add_accepted_token`. The guard and the admin assertion
    /// come before the probe, so a non-admin caller fails without the token
    /// contract ever being consulted; a failed probe propagates as the opaque
    /// external error; adding a token already on the list changes nothing, so
    /// the log gains a `TokenAdded` record exactly once per transition edge.
    pub open spec fn add_accepted_token(
        self,
        caller: Address,
        token: Address,
        probe: TokenProbe,
        now: u64,
    ) -> (ShadeView, Result<(), AddTokenError>) {
        if self.locked {
            (self, Err(AddTokenError::Contract(ContractError::Reentrancy)))
        } else if self.admin_gate(caller) is Some {
            (self, Err(AddTokenError::Contract(self.admin_gate(caller)->0)))
        } else if probe is Failed {
            (self, Err(AddTokenError::External))
        } else if self.is_accepted(token) {
            (self, Ok(()))
        } else {
            (
                ShadeView {
                    accepted: self.accepted.push(token),
                    events: self.events.push(
                        Event::TokenAdded(TokenAddedEvent { token, timestamp: now }),
                    ),
                    ..self
                },
                Ok(()),
            )
        }
    }

    /// Transition of `remove_accepted_token`: rebuilds the allow-list without
    /// the token and logs `TokenRemoved` if it was present; an idempotent
    /// no-op without an event if it was not.
    pub open spec fn remove_accepted_token(self, caller: Address, token: Address, now: u64) -> (
        ShadeView,
        Result<(), ContractError>,
    ) {
        if self.locked {
            (self, Err(ContractError::Reentrancy))
        } else if self.admin_gate(caller) is Some {
            (self, Err(self.admin_gate(caller)->0))
        } else if self.is_accepted(token) {
            (
                ShadeView {
                    accepted: without(self.accepted, token),
                    events: self.events.push(
                        Event::TokenRemoved(TokenRemovedEvent { token, timestamp: now }),
                    ),
                    ..self
                },
                Ok(()),
            )
        } else {
            (self, Ok(()))
        }
    }

    /// Transition of `set_fee`: fails `TokenNotAccepted` unless the token is
    /// currently accepted, else stores the fee — any signed value, later
    /// calls overwriting earlier ones — and logs `FeeSet`.
    pub open spec fn set_fee(self, caller: Address, token: Address, fee: i128, now: u64) -> (
        ShadeView,
        Result<(), ContractError>,
    ) {
        if self.locked {
            (self, Err(ContractError::Reentrancy))
        } else if self.admin_gate(caller) is Some {
            (self, Err(self.admin_gate(caller)->0))
        } else if !self.is_accepted(token) {
            (self, Err(ContractError::TokenNotAccepted))
        } else {
            (
                ShadeView {
                    fees: self.fees.insert(token, fee),
                    events: self.events.push(
                        Event::FeeSet(FeeSetEvent { token, fee, timestamp: now }),
                    ),
                    ..self
                },
                Ok(()),
            )
        }
    }
}

/// Membership test against the allow-list, as the registry stores it.
pub fn contains_token(accepted_tokens: &Vec<Address>, token: Address) -> (r: bool)
    ensures
        r == accepted_tokens@.contains(token),
{
    let n = accepted_tokens.len();
    let mut i: usize = 0;
    while i < n
        invariant
            n == accepted_tokens@.len(),
            i <= n,
            forall|j: int| 0 <= j < i ==> accepted_tokens@[j] != token,
        decreases n - i,
    {
        if accepted_tokens[i] == token {
            return true;
        }
        i += 1;
    }
    false
}

/// Index of the fee entry for `token`, if one exists.
fn fee_index(fees: &Vec<FeeEntry>, token: Address) -> (r: Option<usize>)
    ensures
        match r {
            Some(i) => i < fees@.len() && fees@[i as int].token == token,
            None => forall|j: int| 0 <= j < fees@.len() ==> (#[trigger] fees@[j]).token != token,
        },
{
    let n = fees.len();
    let mut i: usize = 0;
    while i < n
        invariant
            n == fees@.len(),
            i <= n,
            forall|j: int| 0 <= j < i ==> (#[trigger] fees@[j]).token != token,
        decreases n - i,
    {
        if fees[i].token == token {
            return Some(i);
        }
        i += 1;
    }
    None
}

/// A token with no fee entry is not a key of the denoted fee map.
pub proof fn lemma_fees_map_absent(s: Seq<FeeEntry>, token: Address)
    requires
        forall|i: int| 0 <= i < s.len() ==> (#[trigger] s[i]).token != token,
    ensures
        !fees_map(s).dom().contains(token),
    decreases s.len(),
{
    if s.len() > 0 {
        let rest = s.drop_last();
        assert forall|i: int| 0 <= i < rest.len() implies (#[trigger] rest[i]).token != token by {
            assert(rest[i] == s[i]);
        }
        lemma_fees_map_absent(rest, token);
        assert(s.last().token != token);
    }
}

/// Under uniqueness, the denoted map sends each stored token to its entry's fee.
pub proof fn lemma_fees_map_index(s: Seq<FeeEntry>, i: int)
    requires
        fees_unique(s),
        0 <= i < s.len(),
    ensures
        fees_map(s).dom().contains(s[i].token),
        fees_map(s)[s[i].token] == s[i].fee,
    decreases s.len(),
{
    let rest = s.drop_last();
    if i == s.len() - 1 {
        assert(fees_map(s) == fees_map(rest).insert(s.last().token, s.last().fee));
    } else {
        assert(fees_unique(rest)) by {
            assert(forall|p: int, q: int|
                0 <= p < q < rest.len() ==> (#[trigger] rest[p]).token != (
                #[trigger] rest[q]).token);
        }
        lemma_fees_map_index(rest, i);
        assert(s.last().token != s[i].token);
    }
}

/// Appending a fee entry inserts its pair into the denoted map.
pub proof fn lemma_fees_map_push(s: Seq<FeeEntry>, e: FeeEntry)
    ensures
        fees_map(s.push(e)) == fees_map(s).insert(e.token, e.fee),
{
    assert(s.push(e).drop_last() =~= s);
    assert(s.push(e).last() == e);
}

/// Overwriting the fee of the entry at `i` inserts the new pair into the
/// denoted map.
pub proof fn lemma_fees_map_update(s: Seq<FeeEntry>, i: int, fee: i128)
    requires
        fees_unique(s),
        0 <= i < s.len(),
    ensures
        fees_map(s.update(i, FeeEntry { token: s[i].token, fee })) == fees_map(s).insert(
            s[i].token,
            fee,
        ),
    decreases s.len(),
{
    let t = s[i].token;
    let s2 = s.update(i, FeeEntry { token: t, fee });
    let rest = s.drop_last();
    if i == s.len() - 1 {
        assert(s2.drop_last() =~= rest);
        assert(s2.last() == FeeEntry { token: t, fee });
        assert(fees_map(rest).insert(t, s[i].fee).insert(t, fee) =~= fees_map(rest).insert(
            t,
            fee,
        ));
    } else {
        assert(fees_unique(rest)) by {
            assert(forall|p: int, q: int|
                0 <= p < q < rest.len() ==> (#[trigger] rest[p]).token != (
                #[trigger] rest[q]).token);
        }
        lemma_fees_map_update(rest, i, fee);
        assert(s2.drop_last() =~= rest.update(i, FeeEntry { token: t, fee }));
        assert(s2.last() == s.last());
        assert(s.last().token != t);
        assert(fees_map(rest).insert(t, fee).insert(s.last().token, s.last().fee) =~= fees_map(
            rest,
        ).insert(s.last().token, s.last().fee).insert(t, fee));
    }
}

/// Rebuilding after appending one element keeps the element exactly when it
/// is not the removed token.
pub proof fn lemma_without_push(s: Seq<Address>, x: Address, token: Address)
    ensures
        without(s.push(x), token) == (if x == token {
            without(s, token)
        } else {
            without(s, token).push(x)
        }),
{
    assert(s.push(x).drop_last() =~= s);
    assert(s.push(x).last() == x);
}

/// The rebuilt list holds exactly the elements of the original other than the
/// removed token.
pub proof fn lemma_without_contains(s: Seq<Address>, token: Address)
    ensures
        forall|x: Address|
            #[trigger] without(s, token).contains(x) <==> (s.contains(x) && x != token),
    decreases s.len(),
{
    if s.len() > 0 {
        let rest = s.drop_last();
        lemma_without_contains(rest, token);
        assert forall|x: Address| #[trigger]
            without(s, token).contains(x) implies (s.contains(x) && x != token) by {
            if s.last() != token && x == s.last() {
                assert(s[s.len() - 1] == x);
            } else {
                let w = if s.last() == token {
                    without(rest, token)
                } else {
                    without(rest, token).push(s.last())
                };
                if without(rest, token).contains(x) {
                    let j = choose|j: int| 0 <= j < rest.len() && rest[j] == x;
                    assert(s[j] == x);
                } else {
                    let j = choose|j: int| 0 <= j < w.len() && w[j] == x;
                    assert(without(rest, token)[j] == x || x == s.last());
                }
            }
        }
        assert forall|x: Address| s.contains(x) && x != token implies without(
            s,
            token,
        ).contains(x) by {
            let j = choose|j: int| 0 <= j < s.len() && s[j] == x;
            if j < s.len() - 1 {
                assert(rest[j] == x);
                assert(without(rest, token).contains(x));
                if s.last() != token {
                    let w = without(rest, token);
                    let k = choose|k: int| 0 <= k < w.len() && w[k] == x;
                    assert(w.push(s.last())[k] == x);
                }
            } else {
                assert(s.last() == x);
                assert(without(s, token) == without(rest, token).push(x));
                assert(without(rest, token).push(x).last() == x);
            }
        }
    }
}

/// Rebuilding keeps a duplicate-free list duplicate-free.
pub proof fn lemma_without_no_duplicates(s: Seq<Address>, token: Address)
    requires
        s.no_duplicates(),
    ensures
        without(s, token).no_duplicates(),
    decreases s.len(),
{
    if s.len() > 0 {
        let rest = s.drop_last();
        assert(rest.no_duplicates());
        lemma_without_no_duplicates(rest, token);
        if s.last() != token {
            assert(!without(rest, token).contains(s.last())) by {
                lemma_without_contains(rest, token);
                if rest.contains(s.last()) {
                    let j = choose|j: int| 0 <= j < rest.len() && rest[j] == s.last();
                    assert(s[j] == s[s.len() - 1]);
                }
            }
            let f = without(rest, token).push(s.last());
            assert forall|p: int, q: int| 0 <= p < q < f.len() implies f[p] != f[q] by {
                if q == f.len() - 1 {
                    assert(without(rest, token)[p] == f[p]);
                    assert(without(rest, token).contains(f[p]));
                }
            }
        }
    }
}

/// Removing a token that is not on the list changes nothing.
pub proof fn lemma_without_absent(s: Seq<Address>, token: Address)
    requires
        !s.contains(token),
    ensures
        without(s, token) == s,
    decreases s.len(),
{
    if s.len() == 0 {
        assert(without(s, token) =~= s);
    } else {
        let rest = s.drop_last();
        assert(!rest.contains(token)) by {
            if rest.contains(token) {
                let j = choose|j: int| 0 <= j < rest.len() && rest[j] == token;
                assert(s[j] == token);
            }
        }
        lemma_without_absent(rest, token);
        assert(s.last() != token) by {
            assert(s[s.len() - 1] == s.last());
        }
        assert(rest.push(s.last()) =~= s);
    }
}

impl Shade {
    /// Pure read: `token` is currently on the allow-list. Lookup failure is a
    /// false answer, not an error.
    pub fn is_accepted_token(&self, token: Address) -> (r: bool)
        ensures
            r == self@.is_accepted(token),
    {
        contains_token(&self.accepted_tokens, token)
    }

    /// Guarded, admin-gated: probes the token contract and, if the token is
    /// not already present, appends it to the allow-list and logs
    /// `TokenAdded`. The host verified the caller's proof of identity; `probe`
    /// is the outcome of the symbol request made against the token contract.
    pub fn add_accepted_token(
        &mut self,
        caller: Address,
        token: Address,
        probe: TokenProbe,
        now: u64,
    ) -> (r: Result<(), AddTokenError>)
        requires
            old(self).wf(),
        ensures
            final(self).wf(),
            final(self)@ == old(self)@.add_accepted_token(caller, token, probe, now).0,
            r == old(self)@.add_accepted_token(caller, token, probe, now).1,
    {
        if let Err(_) = self.enter() {
            return Err(AddTokenError::Contract(ContractError::Reentrancy));
        }
        if let Err(e) = self.assert_admin(caller) {
            self.exit();
            proof {
                assert(self@ =~~= old(self)@);
            }
            return Err(AddTokenError::Contract(e));
        }
        if let TokenProbe::Failed = probe {
            self.exit();
            proof {
                assert(self@ =~~= old(self)@);
            }
            return Err(AddTokenError::External);
        }
        if !contains_token(&self.accepted_tokens, token) {
            self.accepted_tokens.push(token);
            publish_token_added_event(&mut self.events, token, now);
            proof {
                let s = old(self).accepted_tokens@;
                assert forall|p: int, q: int|
                    0 <= p < q < s.push(token).len() implies s.push(token)[p] != s.push(
                    token,
                )[q] by {
                    if q == s.len() {
                        assert(s.push(token)[p] == s[p]);
                    }
                }
            }
        }
        self.exit();
        proof {
            assert(self@ =~~= old(self)@.add_accepted_token(caller, token, probe, now).0);
        }
        Ok(())
    }

    /// Guarded, admin-gated: rebuilds the allow-list without the token and
    /// logs `TokenRemoved` if it was present; an idempotent no-op otherwise.
    pub fn remove_accepted_token(&mut self, caller: Address, token: Address, now: u64) -> (r:
        Result<(), ContractError>)
        requires
            old(self).wf(),
        ensures
            final(self).wf(),
            final(self)@ == old(self)@.remove_accepted_token(caller, token, now).0,
            r == old(self)@.remove_accepted_token(caller, token, now).1,
    {
        if let Err(_) = self.enter() {
            return Err(ContractError::Reentrancy);
        }
        if let Err(e) = self.assert_admin(caller) {
            self.exit();
            proof {
                assert(self@ =~~= old(self)@);
            }
            return Err(e);
        }
        let n = self.accepted_tokens.len();
        let mut updated_tokens: Vec<Address> = Vec::new();
        let mut removed = false;
        let mut i: usize = 0;
        while i < n
            invariant
                n == self.accepted_tokens@.len(),
                i <= n,
                updated_tokens@ == without(self.accepted_tokens@.take(i as int), token),
                removed <==> exists|j: int| 0 <= j < i && self.accepted_tokens@[j] == token,
            decreases n - i,
        {
            let t = self.accepted_tokens[i];
            proof {
                self.accepted_tokens@.lemma_take_succ_push(i as int);
                lemma_without_push(self.accepted_tokens@.take(i as int), t, token);
            }
            if t == token {
                removed = true;
            } else {
                updated_tokens.push(t);
            }
            i += 1;
        }
        proof {
            assert(self.accepted_tokens@.take(n as int) =~= self.accepted_tokens@);
        }
        if removed {
            proof {
                lemma_without_no_duplicates(self.accepted_tokens@, token);
            }
            self.accepted_tokens = updated_tokens;
            publish_token_removed_event(&mut self.events, token, now);
        }
        self.exit();
        proof {
            assert(self@ =~~= old(self)@.remove_accepted_token(caller, token, now).0);
        }
        Ok(())
    }

    /// Guarded, admin-gated: stores the fee for an accepted token — zero and
    /// negative values are deliberately permitted — overwriting any earlier
    /// value, and logs `FeeSet`; fails `TokenNotAccepted` for a token not on
    /// the allow-list.
    pub fn set_fee(&mut self, caller: Address, token: Address, fee: i128, now: u64) -> (r: Result<
        (),
        ContractError,
    >)
        requires
            old(self).wf(),
        ensures
            final(self).wf(),
            final(self)@ == old(self)@.set_fee(caller, token, fee, now).0,
            r == old(self)@.set_fee(caller, token, fee, now).1,
    {
        if let Err(_) = self.enter() {
            return Err(ContractError::Reentrancy);
        }
        if let Err(e) = self.assert_admin(caller) {
            self.exit();
            proof {
                assert(self@ =~~= old(self)@);
            }
            return Err(e);
        }
        if !contains_token(&self.accepted_tokens, token) {
            self.exit();
            proof {
                assert(self@ =~~= old(self)@);
            }
            return Err(ContractError::TokenNotAccepted);
        }
        let ghost fees_before = self.fees@;
        match fee_index(&self.fees, token) {
            Some(i) => {
                proof {
                    lemma_fees_map_update(fees_before, i as int, fee);
                    assert(FeeEntry { token, fee } == (FeeEntry {
                        token: fees_before[i as int].token,
                        fee,
                    }));
                }
                self.fees.set(i, FeeEntry { token, fee });
                proof {
                    assert(fees_map(self.fees@) == fees_map(fees_before).insert(token, fee));
                    assert forall|p: int, q: int|
                        0 <= p < q < self.fees@.len() implies (#[trigger] self.fees@[p]).token != (
                        #[trigger] self.fees@[q]).token by {
                        assert(self.fees@[p].token == fees_before[p].token);
                        assert(self.fees@[q].token == fees_before[q].token);
                    }
                }
            },
            None => {
                proof {
                    lemma_fees_map_push(fees_before, FeeEntry { token, fee });
                }
                self.fees.push(FeeEntry { token, fee });
                proof {
                    assert(fees_map(self.fees@) == fees_map(fees_before).insert(token, fee));
                    assert forall|p: int, q: int|
                        0 <= p < q < self.fees@.len() implies (#[trigger] self.fees@[p]).token != (
                        #[trigger] self.fees@[q]).token by {
                        if q == fees_before.len() {
                            assert(self.fees@[p].token == fees_before[p].token);
                        }
                    }
                }
            },
        }
        publish_fee_set_event(&mut self.events, token, fee, now);
        self.exit();
        proof {
            assert(self@ =~~= old(self)@.set_fee(caller, token, fee, now).0);
        }
        Ok(())
    }

    /// Pure read: the stored fee for `token`, zero if none was ever set.
    pub fn get_fee(&self, token: Address) -> (r: i128)
        requires
            self.wf(),
        ensures
            r == self@.fee_of(token),
    {
        match fee_index(&self.fees, token) {
            Some(i) => {
                proof {
                    lemma_fees_map_index(self.fees@, i as int);
                }
                self.fees[i].fee
            },
            None => {
                proof {
                    lemma_fees_map_absent(self.fees@, token);
                }
                0
            },
        }
    }
}

} // verus!
