use vstd::prelude::*;

verus! {

/// Errors returned by the protocol's entry points.
#[derive(Clone, Copy, Debug, PartialEq, Eq, Structural)]
pub enum QuickLendXError {
    /// The caller is not the protocol admin.
    NotAdmin,
    /// A free-text field (such as a maintenance reason) is too long.
    InvalidDescription,
    /// The protocol is in maintenance mode; writes are refused.
    MaintenanceModeActive,
    /// An upgrade is scheduled; writes are refused until it is cancelled.
    UpgradeScheduled,
    /// The business already holds as many active invoices as the cap allows.
    MaxInvoicesPerBusinessExceeded,
    /// A treasury rotation was to be cancelled but none is pending.
    NoPendingTreasuryRotation,
}

} // verus!
