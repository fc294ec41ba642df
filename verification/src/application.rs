//! Application-facade rules: the per-device freshness transition, the sweep
//! over all devices, explicit removal, and the summary of one integration refresh.

use vstd::prelude::*;

use crate::policy::FreshnessState;

verus! {

/// Summary of one integration refresh.
#[derive(Clone, Debug, PartialEq, Eq)]
pub struct IntegrationRefresh {
    /// Integration name.
    pub integration: String,
    /// Number of candidates accepted by reconciliation.
    pub devices: usize,
    /// Number of repair records created.
    pub repairs: usize,
}

/// Device lifecycle stage.
#[derive(Clone, Copy, Debug, PartialEq, Eq, Structural, Hash)]
pub enum DeviceLifecycle {
    Candidate,
    Enrolled,
    Stale,
    Removed,
}

/// Device availability.
#[derive(Clone, Copy, Debug, PartialEq, Eq, Structural, Hash)]
pub enum AvailabilityState {
    Unknown,
    Online,
    Sleeping,
    Degraded,
    Offline,
}

/// What moved a device between lifecycle stages.
#[derive(Clone, Copy, Debug, PartialEq, Eq, Structural, Hash)]
pub enum LifecycleTrigger {
    Enroll,
    MarkStale,
    Rediscover,
    Remove,
}

/// A device's lifecycle and availability after one freshness evaluation, and
/// the reason attached to the availability.
#[derive(Clone, Copy, Debug, PartialEq, Eq)]
pub struct FreshnessTransition {
    pub lifecycle: DeviceLifecycle,
    pub availability: AvailabilityState,
    /// Availability reason: `stale` or `freshness_timeout`, none when online.
    pub reason: Option<FreshnessReason>,
    /// The lifecycle change and its trigger, when the stage changed.
    pub lifecycle_change: Option<(DeviceLifecycle, DeviceLifecycle, LifecycleTrigger)>,
    /// The availability change, when the state changed.
    pub availability_change: Option<(AvailabilityState, AvailabilityState)>,
}

/// Why a device lost availability.
#[derive(Clone, Copy, Debug, PartialEq, Eq, Structural, Hash)]
pub enum FreshnessReason {
    Stale,
    FreshnessTimeout,
}

/// The stage and availability freshness moves a device to, with its reason;
/// `None` when the device is left untouched (candidates, removed devices, and
/// unknown or sleeping freshness).
pub open spec fn freshness_target(
    lifecycle: DeviceLifecycle,
    freshness: FreshnessState,
) -> Option<(DeviceLifecycle, AvailabilityState, Option<FreshnessReason>)> {
    if lifecycle == DeviceLifecycle::Candidate || lifecycle == DeviceLifecycle::Removed {
        None
    } else {
        match freshness {
            FreshnessState::Unknown | FreshnessState::Sleeping => None,
            FreshnessState::Fresh => Some(
                (
                    if lifecycle == DeviceLifecycle::Stale { DeviceLifecycle::Enrolled } else { lifecycle },
                    AvailabilityState::Online,
                    None,
                ),
            ),
            FreshnessState::Stale => Some(
                (
                    if lifecycle == DeviceLifecycle::Enrolled { DeviceLifecycle::Stale } else { lifecycle },
                    AvailabilityState::Degraded,
                    Some(FreshnessReason::Stale),
                ),
            ),
            FreshnessState::Offline => Some(
                (
                    if lifecycle == DeviceLifecycle::Enrolled { DeviceLifecycle::Stale } else { lifecycle },
                    AvailabilityState::Offline,
                    Some(FreshnessReason::FreshnessTimeout),
                ),
            ),
        }
    }
}

/// The transition one freshness evaluation applies to a device; `None` when
/// nothing changes.
pub open spec fn freshness_outcome(
    lifecycle: DeviceLifecycle,
    availability: AvailabilityState,
    freshness: FreshnessState,
) -> Option<FreshnessTransition> {
    match freshness_target(lifecycle, freshness) {
        None => None,
        Some((stage, state, reason)) => if stage == lifecycle && state == availability {
            None
        } else {
            Some(
                FreshnessTransition {
                    lifecycle: stage,
                    availability: state,
                    reason,
                    lifecycle_change: if stage != lifecycle {
                        Some(
                            (
                                lifecycle,
                                stage,
                                if stage == DeviceLifecycle::Stale {
                                    LifecycleTrigger::MarkStale
                                } else {
                                    LifecycleTrigger::Rediscover
                                },
                            ),
                        )
                    } else {
                        None
                    },
                    availability_change: if state != availability {
                        Some((availability, state))
                    } else {
                        None
                    },
                },
            )
        },
    }
}

/// Applies one freshness evaluation to a device; `None` when nothing changes.
///
/// Fresh state rediscovers a stale device and brings it online; stale state
/// degrades it and offline state takes it offline, marking an enrolled device
/// stale. Every stage or availability change is reported.
pub fn freshness_step(
    lifecycle: DeviceLifecycle,
    availability: AvailabilityState,
    freshness: FreshnessState,
) -> (r: Option<FreshnessTransition>)
    ensures
        r == freshness_outcome(lifecycle, availability, freshness),
{
    if lifecycle == DeviceLifecycle::Candidate || lifecycle == DeviceLifecycle::Removed {
        return None;
    }
    let (stage, state, reason) = match freshness {
        FreshnessState::Unknown | FreshnessState::Sleeping => return None,
        FreshnessState::Fresh => (
            if lifecycle == DeviceLifecycle::Stale { DeviceLifecycle::Enrolled } else { lifecycle },
            AvailabilityState::Online,
            None,
        ),
        FreshnessState::Stale => (
            if lifecycle == DeviceLifecycle::Enrolled { DeviceLifecycle::Stale } else { lifecycle },
            AvailabilityState::Degraded,
            Some(FreshnessReason::Stale),
        ),
        FreshnessState::Offline => (
            if lifecycle == DeviceLifecycle::Enrolled { DeviceLifecycle::Stale } else { lifecycle },
            AvailabilityState::Offline,
            Some(FreshnessReason::FreshnessTimeout),
        ),
    };
    if stage == lifecycle && state == availability {
        return None;
    }
    Some(
        FreshnessTransition {
            lifecycle: stage,
            availability: state,
            reason,
            lifecycle_change: if stage != lifecycle {
                Some(
                    (
                        lifecycle,
                        stage,
                        if stage == DeviceLifecycle::Stale {
                            LifecycleTrigger::MarkStale
                        } else {
                            LifecycleTrigger::Rediscover
                        },
                    ),
                )
            } else {
                None
            },
            availability_change: if state != availability {
                Some((availability, state))
            } else {
                None
            },
        },
    )
}

/// The changes an explicit removal records: the device's stage moves to
/// `Removed` by the remove trigger, and its availability goes offline with the
/// reason `removed`.
#[derive(Clone, Copy, Debug, PartialEq, Eq)]
pub struct DeviceRemoval {
    pub lifecycle_change: (DeviceLifecycle, DeviceLifecycle, LifecycleTrigger),
    pub availability_change: (AvailabilityState, AvailabilityState),
}

/// Removes a device while keeping its identity; `None` when it is already
/// removed, which leaves it untouched.
pub fn removal_step(lifecycle: DeviceLifecycle, availability: AvailabilityState) -> (r: Option<DeviceRemoval>)
    ensures
        lifecycle == DeviceLifecycle::Removed ==> r is None,
        lifecycle != DeviceLifecycle::Removed ==> r == Some(
            DeviceRemoval {
                lifecycle_change: (lifecycle, DeviceLifecycle::Removed, LifecycleTrigger::Remove),
                availability_change: (availability, AvailabilityState::Offline),
            },
        ),
{
    if lifecycle == DeviceLifecycle::Removed {
        return None;
    }
    Some(
        DeviceRemoval {
            lifecycle_change: (lifecycle, DeviceLifecycle::Removed, LifecycleTrigger::Remove),
            availability_change: (availability, AvailabilityState::Offline),
        },
    )
}

/// One device as a freshness sweep sees it: its stage, its availability, and
/// the freshness of its observed state at the evaluation instant.
#[derive(Clone, Copy, Debug, PartialEq, Eq)]
pub struct DeviceFreshness {
    pub lifecycle: DeviceLifecycle,
    pub availability: AvailabilityState,
    pub freshness: FreshnessState,
}

/// The devices a sweep changes, by position, with their transitions, in order.
pub open spec fn freshness_changes(devices: Seq<DeviceFreshness>) -> Seq<(usize, FreshnessTransition)>
    decreases devices.len(),
{
    if devices.len() == 0 {
        Seq::empty()
    } else {
        let earlier = freshness_changes(devices.drop_last());
        let d = devices.last();
        match freshness_outcome(d.lifecycle, d.availability, d.freshness) {
            Some(t) => earlier.push(((devices.len() - 1) as usize, t)),
            None => earlier,
        }
    }
}

/// Evaluates freshness for every device, in order, and returns the position
/// and transition of each device that changes; the number of changed devices
/// is the length of the result.
pub fn freshness_sweep(devices: &Vec<DeviceFreshness>) -> (r: Vec<(usize, FreshnessTransition)>)
    ensures
        r@ == freshness_changes(devices@),
        r@.len() <= devices@.len(),
{
    let mut changes: Vec<(usize, FreshnessTransition)> = Vec::new();
    let mut i: usize = 0;
    while i < devices.len()
        invariant
            i <= devices@.len(),
            changes@ == freshness_changes(devices@.take(i as int)),
            changes@.len() <= i,
        decreases devices@.len() - i,
    {
        let d = devices[i];
        assert(devices@.take(i + 1).drop_last() =~= devices@.take(i as int));
        assert(devices@.take(i + 1).last() == d);
        match freshness_step(d.lifecycle, d.availability, d.freshness) {
            Some(t) => changes.push((i, t)),
            None => {},
        }
        i = i + 1;
    }
    assert(devices@.take(devices@.len() as int) =~= devices@);
    changes
}

/// Freshness never takes a sleeping-freshness device offline, never touches
/// candidates or removed devices, and never changes a device's values other
/// than its stage and availability.
pub proof fn lemma_sleeping_devices_untouched(lifecycle: DeviceLifecycle, freshness: FreshnessState)
    requires
        freshness == FreshnessState::Sleeping || freshness == FreshnessState::Unknown || lifecycle
            == DeviceLifecycle::Candidate || lifecycle == DeviceLifecycle::Removed,
    ensures
        freshness_target(lifecycle, freshness) is None,
{
}

/// Only fresh state brings a device online, and fresh state never marks a
/// device stale.
pub proof fn lemma_online_only_when_fresh(lifecycle: DeviceLifecycle, freshness: FreshnessState)
    ensures
        freshness_target(lifecycle, freshness) matches Some((stage, state, reason)) ==> (state
            == AvailabilityState::Online <==> freshness == FreshnessState::Fresh),
        freshness == FreshnessState::Fresh ==> (freshness_target(lifecycle, freshness) matches Some((stage, _, _))
            ==> stage != DeviceLifecycle::Stale),
{
}

} // verus!
