use vstd::prelude::*;

verus! {

/// The kinds of protocol storage whose lifetime the admin can extend.
#[derive(Clone, Copy, Debug, PartialEq, Eq, Structural)]
pub enum TtlKind {
    Invoices,
    Bids,
    Investments,
    Escrows,
    Currencies,
}

/// Event announcing that the entries of one kind had their lifetime
/// extended, with how many were refreshed.
#[derive(Clone, Copy, Debug, PartialEq, Eq, Structural)]
pub struct TtlExtended {
    pub kind: TtlKind,
    pub count: u32,
}

} // verus!
