use vstd::prelude::*;
use vstd::utf8::encode_utf8;
use crate::errors::QuickLendXError;
use crate::events::{TtlExtended, TtlKind};

verus! {

/// Longest maintenance reason accepted, in bytes.
pub const MAX_REASON_LEN: u32 = 256;

/// Length in bytes (UTF-8) of a reason text.
pub open spec fn reason_byte_len(reason: Seq<char>) -> nat {
    encode_utf8(reason).len()
}

/// Optional text viewed as optional character sequence.
pub open spec fn opt_text_view(text: Option<String>) -> Option<Seq<char>> {
    match text {
        Some(s) => Some(s@),
        None => None,
    }
}

/// The abstract state of the protocol's admin controls.
pub struct MaintenanceView {
    /// The current admin's address.
    pub admin: Seq<char>,
    /// Whether the protocol is in maintenance (read-only) mode.
    pub maintenance: bool,
    /// The reason announced for the current maintenance window.
    pub reason: Option<Seq<char>>,
    /// Whether an upgrade is scheduled.
    pub upgrade_pending: bool,
}

impl MaintenanceView {
    /// The state right after the admin is installed.
    pub open spec fn initial(admin: Seq<char>) -> MaintenanceView {
        MaintenanceView { admin, maintenance: false, reason: None, upgrade_pending: false }
    }

    /// A reason is on record exactly while maintenance is on, and it is
    /// never longer than `MAX_REASON_LEN` bytes.
    pub open spec fn wf(self) -> bool {
        &&& self.reason is Some <==> self.maintenance
        &&& self.reason matches Some(r) ==> reason_byte_len(r) <= MAX_REASON_LEN
    }

    /// Only the current admin passes.
    pub open spec fn admin_check(self, caller: Seq<char>) -> Result<(), QuickLendXError> {
        if caller == self.admin {
            Ok(())
        } else {
            Err(QuickLendXError::NotAdmin)
        }
    }

    /// Turning maintenance on or off. The admin check comes first; a reason
    /// is validated and stored only when maintenance is turned on, and it is
    /// cleared when maintenance is turned off.
    pub open spec fn set_maintenance_mode(self, caller: Seq<char>, enabled: bool, reason: Seq<char>) -> (
        MaintenanceView,
        Result<(), QuickLendXError>,
    ) {
        if caller != self.admin {
            (self, Err(QuickLendXError::NotAdmin))
        } else if enabled && reason_byte_len(reason) > MAX_REASON_LEN {
            (self, Err(QuickLendXError::InvalidDescription))
        } else if enabled {
            (MaintenanceView { maintenance: true, reason: Some(reason), ..self }, Ok(()))
        } else {
            (MaintenanceView { maintenance: false, reason: None, ..self }, Ok(()))
        }
    }

    /// The guard every state-changing entry point passes first.
    pub open spec fn write_check(self) -> Result<(), QuickLendXError> {
        if self.maintenance {
            Err(QuickLendXError::MaintenanceModeActive)
        } else if self.upgrade_pending {
            Err(QuickLendXError::UpgradeScheduled)
        } else {
            Ok(())
        }
    }

    /// Scheduling an upgrade (admin only).
    pub open spec fn schedule_upgrade(self, caller: Seq<char>) -> (
        MaintenanceView,
        Result<(), QuickLendXError>,
    ) {
        if caller != self.admin {
            (self, Err(QuickLendXError::NotAdmin))
        } else {
            (MaintenanceView { upgrade_pending: true, ..self }, Ok(()))
        }
    }

    /// Cancelling a scheduled upgrade (admin only; harmless when none is
    /// scheduled).
    pub open spec fn cancel_upgrade(self, caller: Seq<char>) -> (
        MaintenanceView,
        Result<(), QuickLendXError>,
    ) {
        if caller != self.admin {
            (self, Err(QuickLendXError::NotAdmin))
        } else {
            (MaintenanceView { upgrade_pending: false, ..self }, Ok(()))
        }
    }

    /// Handing the admin role to `new_admin` (current admin only).
    pub open spec fn transfer_admin(self, caller: Seq<char>, new_admin: Seq<char>) -> (
        MaintenanceView,
        Result<(), QuickLendXError>,
    ) {
        if caller != self.admin {
            (self, Err(QuickLendXError::NotAdmin))
        } else {
            (MaintenanceView { admin: new_admin, ..self }, Ok(()))
        }
    }
}

/// How many entries of each kind had their storage lifetime extended.
#[derive(Clone, Copy, Debug, PartialEq, Eq, Structural)]
pub struct ExtendReport {
    pub invoices_refreshed: u32,
    pub bids_refreshed: u32,
    pub investments_refreshed: u32,
    pub escrows_refreshed: u32,
    pub currencies_refreshed: u32,
}

/// The event for one kind: present exactly when something was refreshed.
pub open spec fn kind_event(kind: TtlKind, count: u32) -> Seq<TtlExtended> {
    if count > 0 {
        seq![TtlExtended { kind, count }]
    } else {
        Seq::empty()
    }
}

/// The events announcing a refresh, in the fixed order invoices, bids,
/// investments, escrows, currencies, one per kind with a non-zero count.
pub open spec fn ttl_events(report: ExtendReport) -> Seq<TtlExtended> {
    kind_event(TtlKind::Invoices, report.invoices_refreshed) + kind_event(
        TtlKind::Bids,
        report.bids_refreshed,
    ) + kind_event(TtlKind::Investments, report.investments_refreshed) + kind_event(
        TtlKind::Escrows,
        report.escrows_refreshed,
    ) + kind_event(TtlKind::Currencies, report.currencies_refreshed)
}

/// Number of kinds with a non-zero count in `report`.
pub open spec fn nonzero_kinds(report: ExtendReport) -> nat {
    (if report.invoices_refreshed > 0 { 1nat } else { 0nat }) + (if report.bids_refreshed > 0 {
        1nat
    } else {
        0nat
    }) + (if report.investments_refreshed > 0 { 1nat } else { 0nat }) + (
    if report.escrows_refreshed > 0 {
        1nat
    } else {
        0nat
    }) + (if report.currencies_refreshed > 0 { 1nat } else { 0nat })
}

fn push_kind_event(events: &mut Vec<TtlExtended>, kind: TtlKind, count: u32)
    ensures
        final(events)@ == old(events)@ + kind_event(kind, count),
{
    if count > 0 {
        events.push(TtlExtended { kind, count });
    }
    assert(final(events)@ =~= old(events)@ + kind_event(kind, count));
}

/// The events to publish for a refresh described by `report`.
pub fn ttl_extended_events(report: &ExtendReport) -> (events: Vec<TtlExtended>)
    ensures
        events@ == ttl_events(*report),
{
    let mut events: Vec<TtlExtended> = Vec::new();
    push_kind_event(&mut events, TtlKind::Invoices, report.invoices_refreshed);
    push_kind_event(&mut events, TtlKind::Bids, report.bids_refreshed);
    push_kind_event(&mut events, TtlKind::Investments, report.investments_refreshed);
    push_kind_event(&mut events, TtlKind::Escrows, report.escrows_refreshed);
    push_kind_event(&mut events, TtlKind::Currencies, report.currencies_refreshed);
    assert(events@ =~= ttl_events(*report));
    events
}

/// Law: a refresh is announced by exactly one event per kind with a
/// non-zero count, each carrying that kind's count; an empty protocol
/// produces no event.
pub proof fn lemma_one_event_per_nonzero_kind(report: ExtendReport)
    ensures
        ttl_events(report).len() == nonzero_kinds(report),
        forall|i: int|
            0 <= i < ttl_events(report).len() ==> (#[trigger] ttl_events(report)[i]).count > 0,
        nonzero_kinds(report) == 0 ==> ttl_events(report) =~= Seq::<TtlExtended>::empty(),
{
    let e = ttl_events(report);
    assert forall|i: int| 0 <= i < e.len() implies (#[trigger] e[i]).count > 0 by {
        let a = kind_event(TtlKind::Invoices, report.invoices_refreshed);
        let b = kind_event(TtlKind::Bids, report.bids_refreshed);
        let c = kind_event(TtlKind::Investments, report.investments_refreshed);
        let d = kind_event(TtlKind::Escrows, report.escrows_refreshed);
        let f = kind_event(TtlKind::Currencies, report.currencies_refreshed);
        assert(e == a + b + c + d + f);
    }
}

/// The protocol's admin controls: who the admin is, maintenance mode with
/// its announced reason, and whether an upgrade is scheduled.
pub struct MaintenanceControl {
    admin: String,
    maintenance: bool,
    reason: Option<String>,
    upgrade_pending: bool,
}

impl View for MaintenanceControl {
    type V = MaintenanceView;

    closed spec fn view(&self) -> MaintenanceView {
        MaintenanceView {
            admin: self.admin@,
            maintenance: self.maintenance,
            reason: opt_text_view(self.reason),
            upgrade_pending: self.upgrade_pending,
        }
    }
}

impl MaintenanceControl {
    /// Installs `admin`; maintenance is off and no upgrade is scheduled.
    pub fn initialize_admin(admin: String) -> (c: MaintenanceControl)
        ensures
            c@ == MaintenanceView::initial(admin@),
            c@.wf(),
    {
        MaintenanceControl { admin, maintenance: false, reason: None, upgrade_pending: false }
    }

    /// Rebuilds the controls from their stored parts: the admin, the
    /// maintenance flag and its reason, and the upgrade flag.
    pub fn restore(admin: String, maintenance: bool, reason: Option<String>, upgrade_pending: bool) -> (c:
        MaintenanceControl)
        ensures
            c@ == (MaintenanceView {
                admin: admin@,
                maintenance,
                reason: opt_text_view(reason),
                upgrade_pending,
            }),
    {
        MaintenanceControl { admin, maintenance, reason, upgrade_pending }
    }

    /// The current admin.
    pub fn get_admin(&self) -> (a: &String)
        ensures
            a@ == self@.admin,
    {
        &self.admin
    }

    /// Passes only for the current admin.
    pub fn require_admin(&self, caller: &String) -> (r: Result<(), QuickLendXError>)
        ensures
            r == self@.admin_check(caller@),
    {
        if *caller == self.admin {
            Ok(())
        } else {
            Err(QuickLendXError::NotAdmin)
        }
    }

    /// Turns maintenance mode on (with a reason of at most `MAX_REASON_LEN`
    /// bytes) or off (clearing the reason). Only the admin may do so; the
    /// toggle itself is not subject to the write guard.
    pub fn set_maintenance_mode(&mut self, caller: &String, enabled: bool, reason: &String) -> (r:
        Result<(), QuickLendXError>)
        ensures
            (final(self)@, r) == old(self)@.set_maintenance_mode(caller@, enabled, reason@),
            old(self)@.wf() ==> final(self)@.wf(),
    {
        if *caller != self.admin {
            return Err(QuickLendXError::NotAdmin);
        }
        if enabled {
            let len = reason.as_str().as_bytes().len();
            if len > MAX_REASON_LEN as usize {
                return Err(QuickLendXError::InvalidDescription);
            }
            self.maintenance = true;
            self.reason = Some(reason.clone());
        } else {
            self.maintenance = false;
            self.reason = None;
        }
        Ok(())
    }

    /// Whether maintenance mode is on; readable at any time.
    pub fn is_maintenance_mode(&self) -> (on: bool)
        ensures
            on == self@.maintenance,
    {
        self.maintenance
    }

    /// The reason of the current maintenance window, if any; readable at any
    /// time.
    pub fn get_maintenance_reason(&self) -> (reason: Option<String>)
        ensures
            opt_text_view(reason) == self@.reason,
    {
        match &self.reason {
            Some(r) => Some(r.clone()),
            None => None,
        }
    }

    /// The write guard: refuses with `MaintenanceModeActive` during
    /// maintenance, otherwise with `UpgradeScheduled` while an upgrade is
    /// scheduled, and passes otherwise.
    pub fn require_write_allowed(&self) -> (r: Result<(), QuickLendXError>)
        ensures
            r == self@.write_check(),
    {
        if self.maintenance {
            Err(QuickLendXError::MaintenanceModeActive)
        } else if self.upgrade_pending {
            Err(QuickLendXError::UpgradeScheduled)
        } else {
            Ok(())
        }
    }

    /// Schedules an upgrade (admin only); writes are refused until it is
    /// cancelled.
    pub fn schedule_upgrade(&mut self, caller: &String) -> (r: Result<(), QuickLendXError>)
        ensures
            (final(self)@, r) == old(self)@.schedule_upgrade(caller@),
            old(self)@.wf() ==> final(self)@.wf(),
    {
        if *caller != self.admin {
            return Err(QuickLendXError::NotAdmin);
        }
        self.upgrade_pending = true;
        Ok(())
    }

    /// Cancels a scheduled upgrade (admin only); succeeds also when none is
    /// scheduled.
    pub fn cancel_upgrade(&mut self, caller: &String) -> (r: Result<(), QuickLendXError>)
        ensures
            (final(self)@, r) == old(self)@.cancel_upgrade(caller@),
            old(self)@.wf() ==> final(self)@.wf(),
    {
        if *caller != self.admin {
            return Err(QuickLendXError::NotAdmin);
        }
        self.upgrade_pending = false;
        Ok(())
    }

    /// Whether an upgrade is scheduled.
    pub fn is_upgrade_pending(&self) -> (pending: bool)
        ensures
            pending == self@.upgrade_pending,
    {
        self.upgrade_pending
    }

    /// Hands the admin role to `new_admin` (current admin only). Allowed
    /// during maintenance, so that a new admin can end it.
    pub fn transfer_admin(&mut self, caller: &String, new_admin: String) -> (r: Result<
        (),
        QuickLendXError,
    >)
        ensures
            (final(self)@, r) == old(self)@.transfer_admin(caller@, new_admin@),
            old(self)@.wf() ==> final(self)@.wf(),
    {
        if *caller != self.admin {
            return Err(QuickLendXError::NotAdmin);
        }
        self.admin = new_admin;
        Ok(())
    }
    /// Refreshes the storage lifetime of every indexed entry (admin only).
    /// Given the sizes of the invoice, bid, investment, escrow and currency
    /// indexes, reports how many entries of each kind were refreshed and the
    /// events that announce it.
    pub fn extend_protocol_ttl(
        &self,
        caller: &String,
        invoices: u32,
        bids: u32,
        investments: u32,
        escrows: u32,
        currencies: u32,
    ) -> (r: Result<(ExtendReport, Vec<TtlExtended>), QuickLendXError>)
        ensures
            caller@ != self@.admin ==> r == Err::<(ExtendReport, Vec<TtlExtended>), QuickLendXError>(
                QuickLendXError::NotAdmin,
            ),
            caller@ == self@.admin ==> (r matches Ok((report, events)) && report == (ExtendReport {
                invoices_refreshed: invoices,
                bids_refreshed: bids,
                investments_refreshed: investments,
                escrows_refreshed: escrows,
                currencies_refreshed: currencies,
            }) && events@ == ttl_events(report)),
    {
        if *caller != self.admin {
            return Err(QuickLendXError::NotAdmin);
        }
        let report = ExtendReport {
            invoices_refreshed: invoices,
            bids_refreshed: bids,
            investments_refreshed: investments,
            escrows_refreshed: escrows,
            currencies_refreshed: currencies,
        };
        let events = ttl_extended_events(&report);
        Ok((report, events))
    }
}

/// Law: every admin operation keeps the state well formed: a reason is on
/// record exactly while maintenance is on, and it is within the length cap.
pub proof fn lemma_operations_preserve_wf(
    s: MaintenanceView,
    caller: Seq<char>,
    enabled: bool,
    reason: Seq<char>,
    new_admin: Seq<char>,
)
    requires
        s.wf(),
    ensures
        s.set_maintenance_mode(caller, enabled, reason).0.wf(),
        s.schedule_upgrade(caller).0.wf(),
        s.cancel_upgrade(caller).0.wf(),
        s.transfer_admin(caller, new_admin).0.wf(),
{
}

/// Law: a caller other than the admin changes nothing and is answered
/// `NotAdmin`, whatever it asks of the admin controls.
pub proof fn lemma_non_admin_is_rejected(
    s: MaintenanceView,
    caller: Seq<char>,
    enabled: bool,
    reason: Seq<char>,
    new_admin: Seq<char>,
)
    requires
        caller != s.admin,
    ensures
        s.set_maintenance_mode(caller, enabled, reason) == (s, Err::<(), QuickLendXError>(
            QuickLendXError::NotAdmin,
        )),
        s.schedule_upgrade(caller) == (s, Err::<(), QuickLendXError>(QuickLendXError::NotAdmin)),
        s.cancel_upgrade(caller) == (s, Err::<(), QuickLendXError>(QuickLendXError::NotAdmin)),
        s.transfer_admin(caller, new_admin) == (s, Err::<(), QuickLendXError>(
            QuickLendXError::NotAdmin,
        )),
        s.admin_check(caller) == Err::<(), QuickLendXError>(QuickLendXError::NotAdmin),
{
}

/// Law: while maintenance mode is on, every write is refused with
/// `MaintenanceModeActive`.
pub proof fn lemma_maintenance_blocks_writes(s: MaintenanceView)
    requires
        s.maintenance,
    ensures
        s.write_check() == Err::<(), QuickLendXError>(QuickLendXError::MaintenanceModeActive),
{
}

/// Law: after the admin turns maintenance on with an acceptable reason,
/// maintenance is on, the reason reads back as given, writes are refused,
/// and nothing else changed. Turning it on again just replaces the reason.
pub proof fn lemma_enable_stores_reason(s: MaintenanceView, reason: Seq<char>)
    requires
        reason_byte_len(reason) <= MAX_REASON_LEN,
    ensures
        ({
            let (t, r) = s.set_maintenance_mode(s.admin, true, reason);
            &&& r == Ok::<(), QuickLendXError>(())
            &&& t.maintenance
            &&& t.reason == Some(reason)
            &&& t.write_check() == Err::<(), QuickLendXError>(
                QuickLendXError::MaintenanceModeActive,
            )
            &&& t.admin == s.admin
            &&& t.upgrade_pending == s.upgrade_pending
        }),
{
}

/// Law: the admin can always leave maintenance mode, whatever the reason
/// text passed along; the reason is cleared and the upgrade flag is
/// untouched.
pub proof fn lemma_admin_can_always_exit(s: MaintenanceView, reason: Seq<char>)
    ensures
        ({
            let (t, r) = s.set_maintenance_mode(s.admin, false, reason);
            &&& r == Ok::<(), QuickLendXError>(())
            &&& !t.maintenance
            &&& t.reason is None
            &&& t.admin == s.admin
            &&& t.upgrade_pending == s.upgrade_pending
        }),
{
}

/// Law: turning maintenance off when it is already off changes nothing.
pub proof fn lemma_disable_when_disabled_is_noop(s: MaintenanceView, reason: Seq<char>)
    requires
        s.wf(),
        !s.maintenance,
    ensures
        s.set_maintenance_mode(s.admin, false, reason) == (s, Ok::<(), QuickLendXError>(())),
{
}

/// Law: a reason longer than `MAX_REASON_LEN` bytes is refused with
/// `InvalidDescription` and leaves the state as it was.
pub proof fn lemma_oversized_reason_rejected(s: MaintenanceView, reason: Seq<char>)
    requires
        reason_byte_len(reason) > MAX_REASON_LEN,
    ensures
        s.set_maintenance_mode(s.admin, true, reason) == (s, Err::<(), QuickLendXError>(
            QuickLendXError::InvalidDescription,
        )),
{
}

/// Law: a scheduled upgrade blocks writes; cancelling it restores them
/// unless maintenance mode is on.
pub proof fn lemma_cancel_upgrade_restores_writes(s: MaintenanceView)
    ensures
        !s.maintenance ==> s.schedule_upgrade(s.admin).0.write_check() == Err::<
            (),
            QuickLendXError,
        >(QuickLendXError::UpgradeScheduled),
        s.cancel_upgrade(s.admin).0.write_check() == (if s.maintenance {
            Err::<(), QuickLendXError>(QuickLendXError::MaintenanceModeActive)
        } else {
            Ok::<(), QuickLendXError>(())
        }),
        s.schedule_upgrade(s.admin).0.maintenance == s.maintenance,
        s.cancel_upgrade(s.admin).0.maintenance == s.maintenance,
{
}

/// Law: after the admin role passes to `new_admin`, the previous admin is
/// refused and the new admin can end maintenance mode.
pub proof fn lemma_admin_rotation(s: MaintenanceView, new_admin: Seq<char>, reason: Seq<char>)
    requires
        new_admin != s.admin,
    ensures
        ({
            let (t, r) = s.transfer_admin(s.admin, new_admin);
            &&& r == Ok::<(), QuickLendXError>(())
            &&& t.maintenance == s.maintenance
            &&& t.set_maintenance_mode(s.admin, false, reason) == (t, Err::<(), QuickLendXError>(
                QuickLendXError::NotAdmin,
            ))
            &&& t.set_maintenance_mode(new_admin, false, reason).1 == Ok::<(), QuickLendXError>(())
            &&& !t.set_maintenance_mode(new_admin, false, reason).0.maintenance
        }),
{
}

/// Law: when the admin schedules an upgrade, an upgrade is pending
/// afterwards, whether or not maintenance is on, and nothing else changes.
pub proof fn lemma_schedule_upgrade_sets_pending(s: MaintenanceView)
    ensures
        s.schedule_upgrade(s.admin) == (MaintenanceView {
            admin: s.admin,
            maintenance: s.maintenance,
            reason: s.reason,
            upgrade_pending: true,
        }, Ok::<(), QuickLendXError>(())),
        s.schedule_upgrade(s.admin).0.upgrade_pending,
{
}

/// Law: when the admin cancels an upgrade, none is pending afterwards,
/// whether or not maintenance is on, and nothing else changes.
pub proof fn lemma_cancel_upgrade_clears_pending(s: MaintenanceView)
    ensures
        s.cancel_upgrade(s.admin) == (MaintenanceView {
            admin: s.admin,
            maintenance: s.maintenance,
            reason: s.reason,
            upgrade_pending: false,
        }, Ok::<(), QuickLendXError>(())),
        !s.cancel_upgrade(s.admin).0.upgrade_pending,
{
}

/// Law: the write guard refuses with `MaintenanceModeActive` during
/// maintenance, otherwise with `UpgradeScheduled` while an upgrade is
/// pending, and lets writes through otherwise.
pub proof fn lemma_write_guard(s: MaintenanceView)
    ensures
        s.maintenance ==> s.write_check() == Err::<(), QuickLendXError>(
            QuickLendXError::MaintenanceModeActive,
        ),
        !s.maintenance && s.upgrade_pending ==> s.write_check() == Err::<(), QuickLendXError>(
            QuickLendXError::UpgradeScheduled,
        ),
        !s.maintenance && !s.upgrade_pending ==> s.write_check() == Ok::<(), QuickLendXError>(()),
{
}

/// Law: the admin check passes exactly for the current admin.
pub proof fn lemma_admin_check(s: MaintenanceView, caller: Seq<char>)
    ensures
        s.admin_check(caller) is Ok <==> caller == s.admin,
        s.admin_check(caller) is Err ==> s.admin_check(caller) == Err::<(), QuickLendXError>(
            QuickLendXError::NotAdmin,
        ),
{
}

/// Law: the admin hands the role to `new_admin`, and nothing else changes.
pub proof fn lemma_transfer_admin_sets_admin(s: MaintenanceView, new_admin: Seq<char>)
    ensures
        s.transfer_admin(s.admin, new_admin) == (MaintenanceView {
            admin: new_admin,
            maintenance: s.maintenance,
            reason: s.reason,
            upgrade_pending: s.upgrade_pending,
        }, Ok::<(), QuickLendXError>(())),
{
}

/// The count a report gives for `kind`.
pub open spec fn report_count(report: ExtendReport, kind: TtlKind) -> u32 {
    match kind {
        TtlKind::Invoices => report.invoices_refreshed,
        TtlKind::Bids => report.bids_refreshed,
        TtlKind::Investments => report.investments_refreshed,
        TtlKind::Escrows => report.escrows_refreshed,
        TtlKind::Currencies => report.currencies_refreshed,
    }
}

/// Position of a kind in the announcement order.
pub open spec fn kind_rank(kind: TtlKind) -> int {
    match kind {
        TtlKind::Invoices => 0,
        TtlKind::Bids => 1,
        TtlKind::Investments => 2,
        TtlKind::Escrows => 3,
        TtlKind::Currencies => 4,
    }
}

/// Law: each event names a kind and carries that kind's count; a kind gets
/// an event exactly when its count is non-zero; events come in the order
/// invoices, bids, investments, escrows, currencies, so no kind is
/// announced twice.
pub proof fn lemma_events_match_report(report: ExtendReport)
    ensures
        forall|i: int|
            0 <= i < ttl_events(report).len() ==> (#[trigger] ttl_events(report)[i]).count
                == report_count(report, ttl_events(report)[i].kind),
        forall|k: TtlKind|
            report_count(report, k) > 0 <==> exists|i: int|
                0 <= i < ttl_events(report).len() && #[trigger] ttl_events(report)[i] == (
                TtlExtended { kind: k, count: report_count(report, k) }),
        forall|i: int, j: int|
            0 <= i < j < ttl_events(report).len() ==> kind_rank(
                #[trigger] ttl_events(report)[i].kind,
            ) < kind_rank(#[trigger] ttl_events(report)[j].kind),
        forall|i: int, j: int|
            0 <= i < ttl_events(report).len() && 0 <= j < ttl_events(report).len() && (
            #[trigger] ttl_events(report)[i]).kind == (#[trigger] ttl_events(report)[j]).kind
                ==> i == j,
{
    let a = kind_event(TtlKind::Invoices, report.invoices_refreshed);
    let b = kind_event(TtlKind::Bids, report.bids_refreshed);
    let c = kind_event(TtlKind::Investments, report.investments_refreshed);
    let d = kind_event(TtlKind::Escrows, report.escrows_refreshed);
    let f = kind_event(TtlKind::Currencies, report.currencies_refreshed);
    let e = ttl_events(report);
    assert(e == a + b + c + d + f);
    // Every event, and its rank, is determined by which block it falls in.
    assert forall|i: int| 0 <= i < e.len() implies ({
        &&& (#[trigger] e[i]).count == report_count(report, e[i].kind)
        &&& e[i].count > 0
        &&& kind_rank(e[i].kind) >= (if i < a.len() { 0int } else if i < a.len() + b.len() { 1int }
            else if i < a.len() + b.len() + c.len() { 2int } else if i < a.len() + b.len() + c.len() + d.len() { 3int } else { 4int })
        &&& kind_rank(e[i].kind) <= (if i < a.len() { 0int } else if i < a.len() + b.len() { 1int }
            else if i < a.len() + b.len() + c.len() { 2int } else if i < a.len() + b.len() + c.len() + d.len() { 3int } else { 4int })
    }) by {
        if i < a.len() {
            assert(e[i] == a[i]);
        } else if i < a.len() + b.len() {
            assert(e[i] == b[i - a.len()]);
        } else if i < a.len() + b.len() + c.len() {
            assert(e[i] == c[i - a.len() - b.len()]);
        } else if i < a.len() + b.len() + c.len() + d.len() {
            assert(e[i] == d[i - a.len() - b.len() - c.len()]);
        } else {
            assert(e[i] == f[i - a.len() - b.len() - c.len() - d.len()]);
        }
    }
    assert forall|k: TtlKind|
        report_count(report, k) > 0 <==> exists|i: int|
            0 <= i < e.len() && #[trigger] e[i] == (TtlExtended {
                kind: k,
                count: report_count(report, k),
            }) by {
        let ev = TtlExtended { kind: k, count: report_count(report, k) };
        if report_count(report, k) > 0 {
            match k {
                TtlKind::Invoices => { assert(e[0] == ev); },
                TtlKind::Bids => { assert(e[a.len() as int] == ev); },
                TtlKind::Investments => { assert(e[(a.len() + b.len()) as int] == ev); },
                TtlKind::Escrows => { assert(e[(a.len() + b.len() + c.len()) as int] == ev); },
                TtlKind::Currencies => { assert(e[(a.len() + b.len() + c.len() + d.len()) as int] == ev); },
            }
        } else {
            if exists|i: int| 0 <= i < e.len() && #[trigger] e[i] == ev {
                let i = choose|i: int| 0 <= i < e.len() && #[trigger] e[i] == ev;
                assert(e[i].count > 0);
            }
        }
    }
}

} // verus!
