use vstd::prelude::*;
use crate::errors::QuickLendXError;

verus! {

/// Lifecycle status of an invoice.
#[derive(Clone, Copy, Debug, PartialEq, Eq, Structural)]
pub enum InvoiceStatus {
    Pending,
    Verified,
    Funded,
    Paid,
    Defaulted,
    Cancelled,
    Refunded,
}

/// An invoice counts against its business's cap while it is still in play:
/// pending, verified or funded.
pub open spec fn spec_is_active(status: InvoiceStatus) -> bool {
    match status {
        InvoiceStatus::Pending | InvoiceStatus::Verified | InvoiceStatus::Funded => true,
        _ => false,
    }
}

/// Whether `status` counts against the per-business invoice cap.
pub fn is_active_status(status: &InvoiceStatus) -> (active: bool)
    ensures
        active == spec_is_active(*status),
{
    match status {
        InvoiceStatus::Pending | InvoiceStatus::Verified | InvoiceStatus::Funded => true,
        _ => false,
    }
}

/// The cap decision: a `limit` of zero means "no cap"; otherwise a business
/// holding `active_count >= limit` active invoices may not create another.
pub open spec fn limit_exceeded(active_count: int, limit: int) -> bool {
    limit > 0 && active_count >= limit
}

/// Decides whether a business with `active_count` active invoices may create
/// one more under the cap `limit` (zero = unlimited).
pub fn enforce_limit_logic(active_count: u32, limit: u32) -> (r: Result<(), QuickLendXError>)
    ensures
        r == (if limit_exceeded(active_count as int, limit as int) {
            Err(QuickLendXError::MaxInvoicesPerBusinessExceeded)
        } else {
            Ok(())
        }),
{
    if limit > 0 && active_count >= limit {
        return Err(QuickLendXError::MaxInvoicesPerBusinessExceeded);
    }
    Ok(())
}

/// Number of active invoices among `statuses`.
pub open spec fn count_active(statuses: Seq<InvoiceStatus>) -> nat
    decreases statuses.len(),
{
    if statuses.len() == 0 {
        0
    } else {
        count_active(statuses.drop_last()) + if spec_is_active(statuses.last()) {
            1nat
        } else {
            0nat
        }
    }
}

/// Counts the active invoices among a business's invoice `statuses`.
pub fn count_active_invoices(statuses: &Vec<InvoiceStatus>) -> (n: usize)
    ensures
        n == count_active(statuses@),
{
    let mut n: usize = 0;
    let mut i: usize = 0;
    while i < statuses.len()
        invariant
            i <= statuses.len(),
            n == count_active(statuses@.take(i as int)),
            n <= i,
        decreases statuses.len() - i,
    {
        assert(statuses@.take(i as int + 1).drop_last() =~= statuses@.take(i as int));
        if is_active_status(&statuses[i]) {
            n = n + 1;
        }
        i = i + 1;
    }
    assert(statuses@.take(statuses.len() as int) =~= statuses@);
    n
}

/// Checks whether a business whose invoices have the given `statuses` may
/// create another invoice under the cap `limit` (zero = unlimited).
pub fn check_invoice_limit(statuses: &Vec<InvoiceStatus>, limit: u32) -> (r: Result<
    (),
    QuickLendXError,
>)
    ensures
        r == (if limit_exceeded(count_active(statuses@) as int, limit as int) {
            Err(QuickLendXError::MaxInvoicesPerBusinessExceeded)
        } else {
            Ok(())
        }),
{
    let n = count_active_invoices(statuses);
    // Saturating at u32::MAX keeps the decision: the cap itself is a u32.
    let active: u32 = if n > 0xffff_ffffusize { 0xffff_ffffu32 } else { n as u32 };
    enforce_limit_logic(active, limit)
}

/// Law: the cap is never overrun. If a business may create another invoice
/// and the new invoice is active, then with a non-zero cap its active count
/// afterwards is still at most the cap.
pub proof fn lemma_admitted_invoice_stays_within_cap(
    statuses: Seq<InvoiceStatus>,
    new_status: InvoiceStatus,
    limit: u32,
)
    requires
        !limit_exceeded(count_active(statuses) as int, limit as int),
        limit > 0,
    ensures
        count_active(statuses.push(new_status)) <= limit,
{
    assert(statuses.push(new_status).drop_last() =~= statuses);
}

/// Law: a cap of zero never refuses a business.
pub proof fn lemma_zero_limit_is_unlimited(statuses: Seq<InvoiceStatus>)
    ensures
        !limit_exceeded(count_active(statuses) as int, 0),
{
}

/// Law: exactly Pending, Verified and Funded invoices are active; Paid,
/// Defaulted, Cancelled and Refunded ones are not.
pub proof fn lemma_active_statuses()
    ensures
        spec_is_active(InvoiceStatus::Pending),
        spec_is_active(InvoiceStatus::Verified),
        spec_is_active(InvoiceStatus::Funded),
        !spec_is_active(InvoiceStatus::Paid),
        !spec_is_active(InvoiceStatus::Defaulted),
        !spec_is_active(InvoiceStatus::Cancelled),
        !spec_is_active(InvoiceStatus::Refunded),
{
}

/// Law: a count below a non-zero cap is always admitted, and a count at or
/// above a non-zero cap is always refused.
pub proof fn lemma_cap_boundary(active_count: u32, limit: u32)
    ensures
        0 < limit && active_count < limit ==> !limit_exceeded(active_count as int, limit as int),
        0 < limit && active_count >= limit ==> limit_exceeded(active_count as int, limit as int),
{
}

/// Law: no invoice is active among none, and each further invoice adds one
/// to the count exactly when it is active.
pub proof fn lemma_count_active_push(statuses: Seq<InvoiceStatus>, status: InvoiceStatus)
    ensures
        count_active(Seq::<InvoiceStatus>::empty()) == 0,
        count_active(statuses.push(status)) == count_active(statuses) + (if spec_is_active(status) {
            1int
        } else {
            0int
        }),
{
    assert(statuses.push(status).drop_last() =~= statuses);
}

/// Law: the active count is the number of active statuses in the list.
pub proof fn lemma_count_active_is_filter_len(statuses: Seq<InvoiceStatus>)
    ensures
        count_active(statuses) == statuses.filter(|x: InvoiceStatus| spec_is_active(x)).len(),
    decreases statuses.len(),
{
    let pred = |x: InvoiceStatus| spec_is_active(x);
    if statuses.len() == 0 {
        reveal(Seq::filter);
    } else {
        lemma_count_active_is_filter_len(statuses.drop_last());
        statuses.drop_last().lemma_filter_push(statuses.last(), pred);
        assert(statuses.drop_last().push(statuses.last()) =~= statuses);
    }
}

} // verus!
