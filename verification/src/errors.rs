//! The closed error enumeration of the core, and the two extra types through
//! which the external token probe of `add_accepted_token` is surfaced.

use vstd::prelude::*;

verus! {

/// Every failure of the core, as a tagged code. A failing operation returns
/// the code and leaves the state exactly as it was: no partial effect is ever
/// observable.
#[derive(Clone, Copy, PartialEq, Eq, Structural, Debug)]
pub enum ContractError {
    /// The caller fails the admin or principal check.
    NotAuthorized,
    /// A second `initialize` call.
    AlreadyInitialized,
    /// A read that needs the configuration record before `initialize`.
    NotInitialized,
    /// A guarded operation entered from within an unfinished guarded call.
    Reentrancy,
    /// A registration for an address that already maps to a merchant id.
    MerchantAlreadyRegistered,
    /// A merchant lookup with id zero or an id never assigned.
    MerchantNotFound,
    /// An invoice amount of zero or below.
    InvalidAmount,
    /// An invoice lookup with an id never assigned.
    InvoiceNotFound,
    /// A fee set for a token that is not currently accepted.
    TokenNotAccepted,
}

/// Outcome of the read-only probe that `add_accepted_token` makes against the
/// would-be token contract (requesting its symbol). The probe runs in
/// externally-controlled code; the host hands its outcome to the core.
#[derive(Clone, Copy, PartialEq, Eq, Structural, Debug)]
pub enum TokenProbe {
    /// The probed contract answered like a token.
    Answered,
    /// The probed contract failed the probe.
    Failed,
}

/// Failure surface of `add_accepted_token`: one of the core's own codes, or
/// the opaque error of the external token contract, propagated unchanged and
/// kept distinct from the core's enumeration.
#[derive(Clone, Copy, PartialEq, Eq, Structural, Debug)]
pub enum AddTokenError {
    Contract(ContractError),
    External,
}

} // verus!
