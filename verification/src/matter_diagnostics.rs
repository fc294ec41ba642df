//! Read-only, bounded and redacted Matter diagnostics.

use vstd::prelude::*;

use crate::matter_administration::MatterAdministrationError;
use crate::matter_subscription::StoredMatterSubscriptionState;

verus! {

/// Largest page one diagnostics request may ask for.
pub const MAX_DIAGNOSTIC_PAGE: usize = 256;

/// Subscription freshness at an explicit evaluation time.
#[derive(Clone, Copy, Debug, PartialEq, Eq, Structural, Hash)]
pub enum MatterSubscriptionFreshness {
    /// The established subscription remains inside its report deadline.
    Fresh,
    /// The subscription is absent, non-established, or past its deadline.
    Stale,
}

/// One finite durable recovery budget.
#[derive(Clone, Copy, Debug, PartialEq, Eq, Structural, Hash)]
pub struct MatterSubscriptionBudgetDiagnostic {
    pub used: u8,
    pub maximum: u8,
    /// Saturating remaining units.
    pub remaining: u8,
}

/// Normalized controller health without SDK or transport data.
#[derive(Clone, Copy, Debug, PartialEq, Eq, Structural, Hash)]
pub struct MatterControllerDiagnostic {
    /// Whether one bounded status read succeeded.
    pub available: bool,
    pub node_count: Option<usize>,
    /// Verification time in milliseconds since the Unix epoch.
    pub verified_at: Option<i64>,
}

/// Failure at the read-only diagnostic boundary.
#[derive(Clone, Debug, PartialEq, Eq)]
pub enum MatterDiagnosticsError {
    /// Current actor or grant revalidation failed.
    Administration(MatterAdministrationError),
    /// Requested page does not satisfy the public bound.
    InvalidPageLimit,
    /// Durable diagnostic state failed; the text says why.
    Repository(String),
}

impl MatterDiagnosticsError {
    /// The error's display text.
    pub fn message(&self) -> (s: &'static str)
        ensures
            s@ == (match self {
                MatterDiagnosticsError::Administration(_) => "Matter diagnostics authorization failed"@,
                MatterDiagnosticsError::InvalidPageLimit => "Matter diagnostics page limit must be between 1 and 256"@,
                MatterDiagnosticsError::Repository(_) => "Matter diagnostics repository operation failed"@,
            }),
    {
        match self {
            MatterDiagnosticsError::Administration(_) => "Matter diagnostics authorization failed",
            MatterDiagnosticsError::InvalidPageLimit => "Matter diagnostics page limit must be between 1 and 256",
            MatterDiagnosticsError::Repository(_) => "Matter diagnostics repository operation failed",
        }
    }
}

/// Checks a requested diagnostics page size.
pub fn diagnostics_page_limit(limit: usize) -> (r: Result<(), MatterDiagnosticsError>)
    ensures
        r is Ok <==> 1 <= limit <= MAX_DIAGNOSTIC_PAGE,
        r matches Err(e) ==> e == MatterDiagnosticsError::InvalidPageLimit,
{
    if limit == 0 || limit > MAX_DIAGNOSTIC_PAGE {
        Err(MatterDiagnosticsError::InvalidPageLimit)
    } else {
        Ok(())
    }
}

/// Units left of a budget, never below zero.
pub open spec fn remaining_units(used: u8, maximum: u8) -> u8 {
    if used <= maximum {
        (maximum - used) as u8
    } else {
        0
    }
}

/// One budget with its saturating remainder.
pub fn budget(used: u8, maximum: u8) -> (b: MatterSubscriptionBudgetDiagnostic)
    ensures
        b.used == used,
        b.maximum == maximum,
        b.remaining == remaining_units(used, maximum),
{
    MatterSubscriptionBudgetDiagnostic { used, maximum, remaining: maximum.saturating_sub(used) }
}

/// Fresh exactly while an established subscription is inside its deadline.
pub open spec fn freshness_at(state: StoredMatterSubscriptionState, stale_after: i64, now: i64) -> MatterSubscriptionFreshness {
    if state == StoredMatterSubscriptionState::Established && stale_after > now {
        MatterSubscriptionFreshness::Fresh
    } else {
        MatterSubscriptionFreshness::Stale
    }
}

/// Subscription freshness at `now`, read from durable facts only.
pub fn subscription_freshness(state: StoredMatterSubscriptionState, stale_after: i64, now: i64) -> (f:
    MatterSubscriptionFreshness)
    ensures
        f == freshness_at(state, stale_after, now),
{
    if state == StoredMatterSubscriptionState::Established && stale_after > now {
        MatterSubscriptionFreshness::Fresh
    } else {
        MatterSubscriptionFreshness::Stale
    }
}

/// Controller health from one bounded status read: unavailable when the read
/// failed or found no fabric, otherwise its node count and verification time.
pub fn controller_diagnostic(status: Option<(usize, i64)>) -> (d: MatterControllerDiagnostic)
    ensures
        match status {
            Some((count, at)) => d == MatterControllerDiagnostic {
                available: true,
                node_count: Some(count),
                verified_at: Some(at),
            },
            None => d == MatterControllerDiagnostic { available: false, node_count: None, verified_at: None },
        },
{
    match status {
        Some((count, at)) => MatterControllerDiagnostic {
            available: true,
            node_count: Some(count),
            verified_at: Some(at),
        },
        None => MatterControllerDiagnostic { available: false, node_count: None, verified_at: None },
    }
}

/// Freshness depends only on durable facts and the evaluation time: a
/// subscription that is fresh at `now` is fresh at every earlier time.
pub proof fn lemma_freshness_antitone(state: StoredMatterSubscriptionState, stale_after: i64, earlier: i64, now: i64)
    requires
        earlier <= now,
        freshness_at(state, stale_after, now) == MatterSubscriptionFreshness::Fresh,
    ensures
        freshness_at(state, stale_after, earlier) == MatterSubscriptionFreshness::Fresh,
{
}

} // verus!
