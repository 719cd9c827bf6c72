use vstd::prelude::*;
use crate::errors::QuickLendXError;
use crate::maintenance::{MaintenanceControl, MaintenanceView};

verus! {

/// A pending rotation, viewed: the proposed treasury address and the ledger
/// time at which the rotation was started.
pub open spec fn pending_view(pending: Option<(String, u64)>) -> Option<(Seq<char>, u64)> {
    match pending {
        Some((addr, at)) => Some((addr@, at)),
        None => None,
    }
}

/// Starting a rotation towards `new_treasury` at time `now` (admin only);
/// a rotation already pending is replaced.
pub open spec fn spec_set_treasury(
    pending: Option<(Seq<char>, u64)>,
    control: MaintenanceView,
    caller: Seq<char>,
    new_treasury: Seq<char>,
    now: u64,
) -> (Option<(Seq<char>, u64)>, Result<(), QuickLendXError>) {
    if caller != control.admin {
        (pending, Err(QuickLendXError::NotAdmin))
    } else {
        (Some((new_treasury, now)), Ok(()))
    }
}

/// Cancelling the pending rotation (admin only); refused when none is
/// pending.
pub open spec fn spec_cancel_rotation(
    pending: Option<(Seq<char>, u64)>,
    control: MaintenanceView,
    caller: Seq<char>,
) -> (Option<(Seq<char>, u64)>, Result<(), QuickLendXError>) {
    if caller != control.admin {
        (pending, Err(QuickLendXError::NotAdmin))
    } else if pending is None {
        (pending, Err(QuickLendXError::NoPendingTreasuryRotation))
    } else {
        (None, Ok(()))
    }
}

/// The treasury rotation in progress, if any.
pub struct TreasuryRotation {
    pending: Option<(String, u64)>,
}

impl View for TreasuryRotation {
    type V = Option<(Seq<char>, u64)>;

    closed spec fn view(&self) -> Option<(Seq<char>, u64)> {
        pending_view(self.pending)
    }
}

impl TreasuryRotation {
    /// No rotation pending.
    pub fn new() -> (t: TreasuryRotation)
        ensures
            t@ is None,
    {
        TreasuryRotation { pending: None }
    }

    /// Rebuilds the rotation state from its stored value.
    pub fn restore(pending: Option<(String, u64)>) -> (t: TreasuryRotation)
        ensures
            t@ == pending_view(pending),
    {
        TreasuryRotation { pending }
    }

    /// Starts rotating the treasury to `new_treasury` at ledger time `now`;
    /// only the admin of `control` may do so.
    pub fn set_treasury(
        &mut self,
        control: &MaintenanceControl,
        caller: &String,
        new_treasury: String,
        now: u64,
    ) -> (r: Result<(), QuickLendXError>)
        ensures
            (final(self)@, r) == spec_set_treasury(old(self)@, control@, caller@, new_treasury@, now),
    {
        match control.require_admin(caller) {
            Err(e) => Err(e),
            Ok(()) => {
                self.pending = Some((new_treasury, now));
                Ok(())
            },
        }
    }

    /// The pending rotation: proposed treasury and start time.
    pub fn get_pending_treasury(&self) -> (pending: Option<(String, u64)>)
        ensures
            pending_view(pending) == self@,
    {
        match &self.pending {
            Some((addr, at)) => Some((addr.clone(), *at)),
            None => None,
        }
    }

    /// Cancels the pending rotation; only the admin of `control` may do so,
    /// and only while a rotation is pending.
    pub fn cancel_treasury_rotation(&mut self, control: &MaintenanceControl, caller: &String) -> (r:
        Result<(), QuickLendXError>)
        ensures
            (final(self)@, r) == spec_cancel_rotation(old(self)@, control@, caller@),
    {
        if let Err(e) = control.require_admin(caller) {
            return Err(e);
        }
        if self.pending.is_none() {
            return Err(QuickLendXError::NoPendingTreasuryRotation);
        }
        self.pending = None;
        Ok(())
    }
}

/// Law: a rotation the admin started can be cancelled by the admin, after
/// which none is pending; a second cancel is refused with
/// `NoPendingTreasuryRotation`.
pub proof fn lemma_start_then_cancel(
    pending: Option<(Seq<char>, u64)>,
    control: MaintenanceView,
    new_treasury: Seq<char>,
    now: u64,
)
    ensures
        ({
            let (p1, r1) = spec_set_treasury(pending, control, control.admin, new_treasury, now);
            let (p2, r2) = spec_cancel_rotation(p1, control, control.admin);
            &&& r1 == Ok::<(), QuickLendXError>(())
            &&& p1 == Some((new_treasury, now))
            &&& r2 == Ok::<(), QuickLendXError>(())
            &&& p2 is None
            &&& spec_cancel_rotation(p2, control, control.admin) == (p2, Err::<
                (),
                QuickLendXError,
            >(QuickLendXError::NoPendingTreasuryRotation))
        }),
{
}

/// Law: a caller other than the admin can neither start nor cancel a
/// rotation, and the pending rotation stays as it was.
pub proof fn lemma_non_admin_cannot_rotate(
    pending: Option<(Seq<char>, u64)>,
    control: MaintenanceView,
    caller: Seq<char>,
    new_treasury: Seq<char>,
    now: u64,
)
    requires
        caller != control.admin,
    ensures
        spec_set_treasury(pending, control, caller, new_treasury, now) == (pending, Err::<
            (),
            QuickLendXError,
        >(QuickLendXError::NotAdmin)),
        spec_cancel_rotation(pending, control, caller) == (pending, Err::<(), QuickLendXError>(
            QuickLendXError::NotAdmin,
        )),
{
}

/// Law: the admin's request always records the proposed treasury and the
/// start time, replacing any rotation already pending; the admin's cancel
/// of a pending rotation always succeeds and leaves none pending.
pub proof fn lemma_admin_rotation_effects(
    pending: Option<(Seq<char>, u64)>,
    control: MaintenanceView,
    new_treasury: Seq<char>,
    now: u64,
)
    ensures
        spec_set_treasury(pending, control, control.admin, new_treasury, now) == (Some(
            (new_treasury, now),
        ), Ok::<(), QuickLendXError>(())),
        pending is Some ==> spec_cancel_rotation(pending, control, control.admin) == (None::<
            (Seq<char>, u64),
        >, Ok::<(), QuickLendXError>(())),
        pending is None ==> spec_cancel_rotation(pending, control, control.admin) == (pending, Err::<
            (),
            QuickLendXError,
        >(QuickLendXError::NoPendingTreasuryRotation)),
{
}

} // verus!
