//! What a sweep found and did: devices by status and by last contact, the
//! operations it canceled, the bundles it assigned, and what went wrong.

use vstd::prelude::*;

use crate::health::classify_last_seen;
use crate::health::last_seen_bucket;
use crate::health::recorded;
use crate::health::GroupView;
use crate::health::Tally;
use crate::types::MgmtTarget;

verus! {

/// Why a device could not be put right.
#[derive(Debug, Clone, Copy, PartialEq, Eq, Structural)]
pub enum FailureKind {
    /// The device does not say which update channel it follows.
    MissingChannel,
    /// The catalog has no bundle for the channel of the device.
    NoBundleForChannel,
    /// A request for the device failed.
    RequestFailed,
}

/// One device that could not be put right.
#[derive(Debug)]
pub struct RemediationFailure {
    pub device: String,
    pub kind: FailureKind,
    /// The channel for which no bundle was found, or the message of the
    /// request that failed.
    pub detail: String,
}

/// What a [`RemediationFailure`] holds.
pub struct FailureView {
    pub device: Seq<char>,
    pub kind: FailureKind,
    pub detail: Seq<char>,
}

impl View for RemediationFailure {
    type V = FailureView;

    open spec fn view(&self) -> FailureView {
        FailureView { device: self.device@, kind: self.kind, detail: self.detail@ }
    }
}

/// An update operation that the sweep canceled.
#[derive(Debug)]
pub struct Cancellation {
    pub device: String,
    pub action: i64,
}

impl View for Cancellation {
    type V = (Seq<char>, i64);

    open spec fn view(&self) -> (Seq<char>, i64) {
        (self.device@, self.action)
    }
}

/// A bundle that the sweep assigned to a device.
#[derive(Debug)]
pub struct Reassignment {
    pub device: String,
    pub bundle: u64,
}

impl View for Reassignment {
    type V = (Seq<char>, u64);

    open spec fn view(&self) -> (Seq<char>, u64) {
        (self.device@, self.bundle)
    }
}

/// The report of one sweep.
#[derive(Debug)]
pub struct FleetReport {
    /// The devices by update status.
    pub status: Tally,
    /// The devices by the time since their last contact.
    pub last_seen: Tally,
    /// The operations that were canceled.
    pub canceled: Vec<Cancellation>,
    /// The bundles that were assigned.
    pub assigned: Vec<Reassignment>,
    /// The devices that could not be put right.
    pub failures: Vec<RemediationFailure>,
}

/// What a [`FleetReport`] holds.
pub struct ReportView {
    pub status: Seq<GroupView>,
    pub last_seen: Seq<GroupView>,
    pub canceled: Seq<(Seq<char>, i64)>,
    pub assigned: Seq<(Seq<char>, u64)>,
    pub failures: Seq<FailureView>,
}

impl View for FleetReport {
    type V = ReportView;

    open spec fn view(&self) -> ReportView {
        ReportView {
            status: self.status@,
            last_seen: self.last_seen@,
            canceled: Seq::new(self.canceled@.len(), |i: int| self.canceled@[i]@),
            assigned: Seq::new(self.assigned@.len(), |i: int| self.assigned@[i]@),
            failures: Seq::new(self.failures@.len(), |i: int| self.failures@[i]@),
        }
    }
}

/// The report of a sweep that has not looked at any device.
pub open spec fn empty_report() -> ReportView {
    ReportView {
        status: Seq::empty(),
        last_seen: Seq::empty(),
        canceled: Seq::empty(),
        assigned: Seq::empty(),
        failures: Seq::empty(),
    }
}

/// The report after `device` was looked at, at time `now`: the device is
/// counted under the time since its last contact, if it ever made contact,
/// and under its update status, if it has one.
pub open spec fn observed(report: ReportView, device: MgmtTarget, now: i64) -> ReportView {
    let seen = match last_seen_bucket(device.last_controller_request_at, now) {
        Some(bucket) => recorded(report.last_seen, bucket.label_text(), device.controller_id@),
        None => report.last_seen,
    };
    let status = match device.update_status {
        Some(label) => recorded(report.status, label@, device.controller_id@),
        None => report.status,
    };
    ReportView { status: status, last_seen: seen, ..report }
}

/// The report with one more failure.
pub open spec fn with_failure(
    report: ReportView,
    device: Seq<char>,
    kind: FailureKind,
    detail: Seq<char>,
) -> ReportView {
    ReportView { failures: report.failures.push(FailureView { device, kind, detail }), ..report }
}

/// The report with one more canceled operation.
pub open spec fn with_cancellation(report: ReportView, device: Seq<char>, action: i64) -> ReportView {
    ReportView { canceled: report.canceled.push((device, action)), ..report }
}

/// The report with one more assigned bundle.
pub open spec fn with_assignment(report: ReportView, device: Seq<char>, bundle: u64) -> ReportView {
    ReportView { assigned: report.assigned.push((device, bundle)), ..report }
}

/// The number of devices under one label.
#[derive(Debug)]
pub struct LabelCount {
    pub label: String,
    pub devices: usize,
}

/// The figures of a report.
#[derive(Debug)]
pub struct Summary {
    pub status: Vec<LabelCount>,
    pub last_seen: Vec<LabelCount>,
    pub canceled: usize,
    pub assigned: usize,
    pub failures: usize,
}

/// The counts are those of the groups, label by label.
pub open spec fn counts_match(counts: Seq<LabelCount>, groups: Seq<GroupView>) -> bool {
    &&& counts.len() == groups.len()
    &&& forall|i: int|
        0 <= i < counts.len() ==> (#[trigger] counts[i]).label@ == groups[i].label
            && counts[i].devices == groups[i].devices.len()
}

/// The number of devices under each label of a tally, labels in the order in
/// which they first came up.
pub fn count_groups(tally: &Tally) -> (counts: Vec<LabelCount>)
    ensures
        counts_match(counts@, tally@),
{
    let mut counts: Vec<LabelCount> = Vec::new();
    let n = tally.len();
    let mut i: usize = 0;
    while i < n
        invariant
            i <= n,
            n == tally@.len(),
            counts@.len() == i,
            forall|k: int|
                0 <= k < i ==> (#[trigger] counts@[k]).label@ == tally@[k].label
                    && counts@[k].devices == tally@[k].devices.len(),
        decreases n - i,
    {
        let group = tally.group(i);
        counts.push(LabelCount { label: group.label.clone(), devices: group.devices.len() });
        i = i + 1;
    }
    counts
}

impl FleetReport {
    /// A report in which nothing is entered.
    pub fn new() -> (report: Self)
        ensures
            report@ == empty_report(),
    {
        let report = FleetReport {
            status: Tally::new(),
            last_seen: Tally::new(),
            canceled: Vec::new(),
            assigned: Vec::new(),
            failures: Vec::new(),
        };
        assert(report@.canceled =~= Seq::empty());
        assert(report@.assigned =~= Seq::empty());
        assert(report@.failures =~= Seq::empty());
        report
    }

    /// Counts `device` under the time since its last contact and under its
    /// update status.
    pub fn observe(&mut self, device: &MgmtTarget, now: i64)
        ensures
            final(self)@ == observed(old(self)@, *device, now),
    {
        match classify_last_seen(device.last_controller_request_at, now) {
            Some(bucket) => {
                self.last_seen.record(bucket.label(), device.controller_id.as_str());
            },
            None => {},
        }
        match &device.update_status {
            Some(label) => {
                self.status.record(label.as_str(), device.controller_id.as_str());
            },
            None => {},
        }
    }

    /// Enters a device that could not be put right.
    pub fn fail(&mut self, device: &str, kind: FailureKind, detail: &str)
        ensures
            final(self)@ == with_failure(old(self)@, device@, kind, detail@),
    {
        self.failures.push(
            RemediationFailure { device: device.to_owned(), kind, detail: detail.to_owned() },
        );
        assert(self@.failures =~= old(self)@.failures.push(
            FailureView { device: device@, kind, detail: detail@ },
        ));
    }

    /// Enters an operation that was canceled.
    pub fn cancel(&mut self, device: &str, action: i64)
        ensures
            final(self)@ == with_cancellation(old(self)@, device@, action),
    {
        self.canceled.push(Cancellation { device: device.to_owned(), action });
        assert(self@.canceled =~= old(self)@.canceled.push((device@, action)));
    }

    /// Enters a bundle that was assigned.
    pub fn assign(&mut self, device: &str, bundle: u64)
        ensures
            final(self)@ == with_assignment(old(self)@, device@, bundle),
    {
        self.assigned.push(Reassignment { device: device.to_owned(), bundle });
        assert(self@.assigned =~= old(self)@.assigned.push((device@, bundle)));
    }

    /// The figures of the report: devices per status and per time since the
    /// last contact, and how many operations were canceled, bundles assigned
    /// and devices left unrepaired.
    pub fn summary(&self) -> (figures: Summary)
        ensures
            counts_match(figures.status@, self@.status),
            counts_match(figures.last_seen@, self@.last_seen),
            figures.canceled == self@.canceled.len(),
            figures.assigned == self@.assigned.len(),
            figures.failures == self@.failures.len(),
    {
        Summary {
            status: count_groups(&self.status),
            last_seen: count_groups(&self.last_seen),
            canceled: self.canceled.len(),
            assigned: self.assigned.len(),
            failures: self.failures.len(),
        }
    }
}

} // verus!
