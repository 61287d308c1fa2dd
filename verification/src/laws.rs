//! System-wide laws, proved over the spec transitions that every entry
//! point's contract is stated against. Each law quantifies over an arbitrary
//! starting state, so it holds of every reachable state of the core.

use vstd::prelude::*;

use crate::errors::{AddTokenError, ContractError, TokenProbe};
use crate::events::{Event, TokenAddedEvent, TokenRemovedEvent};
use crate::shade::ShadeView;
use crate::tokens::{lemma_without_absent, lemma_without_contains, lemma_without_push, without};
use crate::types::Address;

verus! {

/// Initialization is exactly once: reading the admin before `initialize`
/// fails `NotInitialized`; the first `initialize` succeeds and stores its
/// admin; a second `initialize`, whatever its arguments, fails
/// `AlreadyInitialized` and changes nothing.
pub proof fn lemma_initialize_exactly_once(v: ShadeView, a: Address, b: Address, t1: u64, t2: u64)
    requires
        !v.is_initialized(),
    ensures
        v.get_admin() == Err::<Address, ContractError>(ContractError::NotInitialized),
        v.initialize(a, t1).1 == Ok::<(), ContractError>(()),
        v.initialize(a, t1).0.get_admin() == Ok::<Address, ContractError>(a),
        v.initialize(a, t1).0.initialize(b, t2) == (
            v.initialize(a, t1).0,
            Err::<(), ContractError>(ContractError::AlreadyInitialized),
        ),
{
}

/// Token round trip: a token is not accepted until added; adding it again
/// changes nothing — the log gains `TokenAdded` once per transition edge, not
/// once per call; removing it restores the allow-list exactly and logs
/// `TokenRemoved` once; after removal it is no longer accepted.
pub proof fn lemma_token_round_trip(
    v: ShadeView,
    caller: Address,
    token: Address,
    t1: u64,
    t2: u64,
    t3: u64,
)
    requires
        v.wf(),
        !v.locked,
        v.admin_gate(caller) is None,
        !v.is_accepted(token),
    ensures
        v.add_accepted_token(caller, token, TokenProbe::Answered, t1).1 == Ok::<
            (),
            AddTokenError,
        >(()),
        v.add_accepted_token(caller, token, TokenProbe::Answered, t1).0.is_accepted(token),
        v.add_accepted_token(caller, token, TokenProbe::Answered, t1).0.events == v.events.push(
            (Event::TokenAdded(TokenAddedEvent { token, timestamp: t1 })),
        ),
        v.add_accepted_token(caller, token, TokenProbe::Answered, t1).0.add_accepted_token(
            caller,
            token,
            TokenProbe::Answered,
            t2,
        ) == (
            v.add_accepted_token(caller, token, TokenProbe::Answered, t1).0,
            Ok::<(), AddTokenError>(()),
        ),
        v.add_accepted_token(caller, token, TokenProbe::Answered, t1).0.remove_accepted_token(
            caller,
            token,
            t3,
        ).1 == Ok::<(), ContractError>(()),
        !v.add_accepted_token(caller, token, TokenProbe::Answered, t1).0.remove_accepted_token(
            caller,
            token,
            t3,
        ).0.is_accepted(token),
        v.add_accepted_token(caller, token, TokenProbe::Answered, t1).0.remove_accepted_token(
            caller,
            token,
            t3,
        ).0.accepted == v.accepted,
        v.add_accepted_token(caller, token, TokenProbe::Answered, t1).0.remove_accepted_token(
            caller,
            token,
            t3,
        ).0.events == v.events.push(
            (Event::TokenAdded(TokenAddedEvent { token, timestamp: t1 })),
        ).push((Event::TokenRemoved(TokenRemovedEvent { token, timestamp: t3 }))),
{
    let w = v.add_accepted_token(caller, token, TokenProbe::Answered, t1).0;
    assert(w.accepted == v.accepted.push(token));
    assert(w.accepted[v.accepted.len() as int] == token);
    assert(w.is_accepted(token));
    lemma_without_push(v.accepted, token, token);
    lemma_without_absent(v.accepted, token);
    assert(without(w.accepted, token) == v.accepted);
    lemma_without_contains(w.accepted, token);
}

/// Fee gating and latest-value reads: setting a fee for a token that is not
/// accepted fails `TokenNotAccepted` and changes nothing; for an accepted
/// token the fee reads zero before any set and the latest stored value after
/// any number of sets.
pub proof fn lemma_fee_schedule(
    v: ShadeView,
    caller: Address,
    token: Address,
    f1: i128,
    f2: i128,
    t1: u64,
    t2: u64,
)
    requires
        !v.locked,
        v.admin_gate(caller) is None,
    ensures
        !v.is_accepted(token) ==> v.set_fee(caller, token, f1, t1) == (
            v,
            Err::<(), ContractError>(ContractError::TokenNotAccepted),
        ),
        !v.fees.dom().contains(token) ==> v.fee_of(token) == 0,
        v.is_accepted(token) ==> v.set_fee(caller, token, f1, t1).1 == Ok::<(), ContractError>(()),
        v.is_accepted(token) ==> v.set_fee(caller, token, f1, t1).0.fee_of(token) == f1,
        v.is_accepted(token) ==> v.set_fee(caller, token, f1, t1).0.set_fee(
            caller,
            token,
            f2,
            t2,
        ).0.fee_of(token) == f2,
{
}

/// Merchant ids are assigned 1, 2, 3, ... in registration order: each
/// registration returns one more than the registry size, a repeated
/// registration for the same address fails `MerchantAlreadyRegistered` and
/// changes nothing, and flag lookups fail `MerchantNotFound` for id zero and
/// for every id never assigned.
pub proof fn lemma_merchant_ids_sequential(v: ShadeView, a1: Address, a2: Address, t1: u64, t2: u64)
    requires
        v.wf(),
        v.merchants.len() + 2 <= u64::MAX,
        !v.is_registered(a1),
        !v.is_registered(a2),
        a1 != a2,
    ensures
        v.register_merchant(a1, t1).1 == Ok::<u64, ContractError>((v.merchants.len() + 1) as u64),
        v.register_merchant(a1, t1).0.register_merchant(a2, t2).1 == Ok::<u64, ContractError>(
            (v.merchants.len() + 2) as u64,
        ),
        v.register_merchant(a1, t1).0.register_merchant(a1, t2) == (
            v.register_merchant(a1, t1).0,
            Err::<u64, ContractError>(ContractError::MerchantAlreadyRegistered),
        ),
        v.active_of(0) == Err::<bool, ContractError>(ContractError::MerchantNotFound),
        v.verified_of(0) == Err::<bool, ContractError>(ContractError::MerchantNotFound),
        forall|id: u64|
            id > v.merchants.len() ==> #[trigger] v.active_of(id) == Err::<bool, ContractError>(
                ContractError::MerchantNotFound,
            ) && v.verified_of(id) == Err::<bool, ContractError>(ContractError::MerchantNotFound),
{
    let w = v.register_merchant(a1, t1).0;
    assert(w.merchants[v.merchants.len() as int].address == a1);
    assert(w.is_registered(a1));
    assert(!w.is_registered(a2)) by {
        if w.is_registered(a2) {
            let i = choose|i: int|
                0 <= i < w.merchants.len() && (#[trigger] w.merchants[i]).address == a2;
            if i < v.merchants.len() {
                assert(v.merchants[i].address == a2);
            }
        }
    }
}

/// Status and verification toggles act on one record only: deactivating one
/// merchant leaves every other record word for word as it was, toggling the
/// active flag leaves the verified flag of the same record alone, and
/// reactivating an originally active merchant restores the whole registry.
pub proof fn lemma_status_toggles_independent(
    v: ShadeView,
    caller: Address,
    id1: u64,
    id2: u64,
    t1: u64,
    t2: u64,
)
    requires
        v.wf(),
        v.admin_gate(caller) is None,
        v.is_known_merchant(id1),
        v.is_known_merchant(id2),
        id1 != id2,
    ensures
        v.set_merchant_status(caller, id1, false, t1).1 == Ok::<(), ContractError>(()),
        v.set_merchant_status(caller, id1, false, t1).0.active_of(id1) == Ok::<
            bool,
            ContractError,
        >(false),
        v.set_merchant_status(caller, id1, false, t1).0.active_of(id2) == v.active_of(id2),
        v.set_merchant_status(caller, id1, false, t1).0.verified_of(id1) == v.verified_of(id1),
        v.set_merchant_status(caller, id1, false, t1).0.verified_of(id2) == v.verified_of(id2),
        v.set_merchant_status(caller, id1, false, t1).0.set_merchant_status(
            caller,
            id1,
            true,
            t2,
        ).0.active_of(id1) == Ok::<bool, ContractError>(true),
        v.set_merchant_status(caller, id1, false, t1).0.set_merchant_status(
            caller,
            id1,
            true,
            t2,
        ).0.active_of(id2) == v.active_of(id2),
        v.merchants[id1 - 1].active ==> v.set_merchant_status(
            caller,
            id1,
            false,
            t1,
        ).0.set_merchant_status(caller, id1, true, t2).0.merchants == v.merchants,
        v.verify_merchant(caller, id1, true, t1).0.active_of(id1) == v.active_of(id1),
        v.verify_merchant(caller, id1, true, t1).0.active_of(id2) == v.active_of(id2),
{
    let w2 = v.set_merchant_status(caller, id1, false, t1).0.set_merchant_status(
        caller,
        id1,
        true,
        t2,
    ).0;
    if v.merchants[id1 - 1].active {
        assert(w2.merchants =~= v.merchants);
    }
}

/// Invoice ids are assigned 1, 2, 3, ... across all merchants from one shared
/// counter; a non-positive amount fails `InvalidAmount`, an address with no
/// merchant id fails `NotAuthorized`, and lookups fail `InvoiceNotFound` for
/// id zero and for every id never assigned — each failure changing nothing.
pub proof fn lemma_invoice_ids_shared(
    v: ShadeView,
    a1: Address,
    a2: Address,
    a3: Address,
    d1: Seq<char>,
    d2: Seq<char>,
    amt1: i128,
    amt2: i128,
    tok: Address,
    t1: u64,
    t2: u64,
)
    requires
        v.wf(),
        v.invoices.len() + 2 <= u64::MAX,
        v.is_registered(a1),
        v.is_registered(a2),
        !v.is_registered(a3),
        amt1 > 0,
        amt2 > 0,
    ensures
        v.create_invoice(a1, d1, amt1, tok, t1).1 == Ok::<u64, ContractError>(
            (v.invoices.len() + 1) as u64,
        ),
        v.create_invoice(a1, d1, amt1, tok, t1).0.create_invoice(a2, d2, amt2, tok, t2).1 == Ok::<
            u64,
            ContractError,
        >((v.invoices.len() + 2) as u64),
        forall|amt: i128|
            amt <= 0 ==> #[trigger] v.create_invoice(a1, d1, amt, tok, t1) == (
                v,
                Err::<u64, ContractError>(ContractError::InvalidAmount),
            ),
        v.create_invoice(a3, d1, amt1, tok, t1) == (
            v,
            Err::<u64, ContractError>(ContractError::NotAuthorized),
        ),
        v.get_invoice(0) == Err::<crate::types::InvoiceView, ContractError>(
            ContractError::InvoiceNotFound,
        ),
        forall|id: u64|
            id > v.invoices.len() ==> #[trigger] v.get_invoice(id) == Err::<
                crate::types::InvoiceView,
                ContractError,
            >(ContractError::InvoiceNotFound),
{
    let w = v.create_invoice(a1, d1, amt1, tok, t1).0;
    assert(w.merchants == v.merchants);
    assert(w.is_registered(a2)) by {
        let i = choose|i: int|
            0 <= i < v.merchants.len() && (#[trigger] v.merchants[i]).address == a2;
        assert(w.merchants[i].address == a2);
    }
}

/// Only the stored admin passes any admin-gated operation: every other
/// authenticated caller fails `NotAuthorized`, with the state — allow-list,
/// fees, merchants, invoices, log, guard — exactly as it was.
pub proof fn lemma_admin_gate_rejects(
    v: ShadeView,
    caller: Address,
    token: Address,
    probe: TokenProbe,
    fee: i128,
    id: u64,
    flag: bool,
    now: u64,
)
    requires
        v.is_initialized(),
        caller != v.admin(),
        !v.locked,
    ensures
        v.add_accepted_token(caller, token, probe, now) == (
            v,
            Err::<(), AddTokenError>(AddTokenError::Contract(ContractError::NotAuthorized)),
        ),
        v.remove_accepted_token(caller, token, now) == (
            v,
            Err::<(), ContractError>(ContractError::NotAuthorized),
        ),
        v.set_fee(caller, token, fee, now) == (
            v,
            Err::<(), ContractError>(ContractError::NotAuthorized),
        ),
        v.set_merchant_status(caller, id, flag, now) == (
            v,
            Err::<(), ContractError>(ContractError::NotAuthorized),
        ),
        v.verify_merchant(caller, id, flag, now) == (
            v,
            Err::<(), ContractError>(ContractError::NotAuthorized),
        ),
{
}

/// Reentrancy: while the guard is held, every guarded operation fails
/// `Reentrancy` and changes nothing; and no guarded operation leaves the
/// guard held — from an unlocked state the guard is unlocked again after the
/// call, success or failure.
pub proof fn lemma_reentrancy_guard(
    v: ShadeView,
    caller: Address,
    token: Address,
    probe: TokenProbe,
    fee: i128,
    now: u64,
)
    ensures
        v.locked ==> v.add_accepted_token(caller, token, probe, now) == (
            v,
            Err::<(), AddTokenError>(AddTokenError::Contract(ContractError::Reentrancy)),
        ),
        v.locked ==> v.remove_accepted_token(caller, token, now) == (
            v,
            Err::<(), ContractError>(ContractError::Reentrancy),
        ),
        v.locked ==> v.set_fee(caller, token, fee, now) == (
            v,
            Err::<(), ContractError>(ContractError::Reentrancy),
        ),
        v.locked ==> v.enter() == (v, Err::<(), ContractError>(ContractError::Reentrancy)),
        !v.locked ==> !v.add_accepted_token(caller, token, probe, now).0.locked,
        !v.locked ==> !v.remove_accepted_token(caller, token, now).0.locked,
        !v.locked ==> !v.set_fee(caller, token, fee, now).0.locked,
        !v.enter().0.exit().locked,
{
}

} // verus!
