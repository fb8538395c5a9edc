//! The sweep as a value that is moved from request to request.

use vstd::prelude::*;

use crate::catalog::Catalog;
use crate::client::HawkbitMgmtClient;
use crate::clock::unix_now;
use crate::error::HawkbitError;
use crate::json::attributes_from_json;
use crate::pager::Pager;
use crate::reconcile::reconcile_actions;
use crate::reconcile::ReconcilePolicy;
use crate::remediate::needs_remediation;
use crate::remediate::plan_remediation;
use crate::remediate::Remediation;
use crate::report::FailureKind;
use crate::report::FleetReport;
use crate::sweep::aborted;
use crate::sweep::after_cancel;
use crate::sweep::canceled;
use crate::sweep::failed;
use crate::sweep::leave;
use crate::sweep::list_actions;
use crate::sweep::on_actions;
use crate::sweep::on_assigned;
use crate::sweep::on_attributes;
use crate::sweep::on_bundles;
use crate::sweep::on_devices;
use crate::sweep::on_refreshed;
use crate::sweep::started;
use crate::sweep::sweep_next;
use crate::sweep::sweep_start;
use crate::sweep::sweep_wf;
use crate::sweep::visit;
use crate::sweep::Event;
use crate::sweep::Expect;
use crate::sweep::Phase;
use crate::sweep::Step;
use crate::sweep::SweepView;
use crate::sweep::ACTION_LIMIT;
use crate::types::Action;
use crate::types::DistributionSet;
use crate::types::MgmtTarget;
use crate::types::PaginationResponse;

verus! {

/// One pass over the fleet, as far as it has got.
pub struct Sweep {
    filter: Option<String>,
    policy: ReconcilePolicy,
    phase: Phase,
    bundles: Pager<DistributionSet>,
    listing: Pager<MgmtTarget>,
    catalog: Catalog,
    devices: Vec<MgmtTarget>,
    cursor: usize,
    pending: Vec<i64>,
    next_cancel: usize,
    bundle: u64,
    report: FleetReport,
}

impl View for Sweep {
    type V = SweepView;

    closed spec fn view(&self) -> SweepView {
        SweepView {
            filter: match self.filter {
                Some(f) => Some(f@),
                None => None,
            },
            policy: self.policy,
            phase: self.phase,
            bundles: self.bundles@,
            listing: self.listing@,
            catalog: self.catalog@,
            devices: self.devices@,
            cursor: self.cursor as nat,
            pending: self.pending@,
            next_cancel: self.next_cancel as nat,
            bundle: self.bundle,
            report: self.report@,
        }
    }
}

fn unexpected() -> (e: HawkbitError)
    ensures
        e@ == crate::sweep::unexpected_text(),
{
    HawkbitError::new("unexpected answer")
}

impl Sweep {
    #[verifier::type_invariant]
    closed spec fn inv(&self) -> bool {
        sweep_wf(self@)
    }

    /// A sweep over the devices that `filter` selects, or over all devices
    /// where no filter is given.
    pub fn new(filter: Option<String>, policy: ReconcilePolicy) -> (sweep: Self)
        ensures
            sweep@ == sweep_start(
                match filter {
                    Some(f) => Some(f@),
                    None => None,
                },
                policy,
            ),
    {
        let catalog = Catalog::build_index(Vec::new());
        assert(catalog@ =~= Map::empty());
        Sweep {
            filter,
            policy,
            phase: Phase::Ready,
            bundles: Pager::new(),
            listing: Pager::new(),
            catalog,
            devices: Vec::new(),
            cursor: 0,
            pending: Vec::new(),
            next_cancel: 0,
            bundle: 0,
            report: FleetReport::new(),
        }
    }

    /// Where the sweep stands.
    pub fn phase(&self) -> (phase: Phase)
        ensures
            phase == self@.phase,
    {
        self.phase
    }

    /// The report as far as it has been written.
    pub fn report(&self) -> (report: &FleetReport)
        ensures
            report@ == self@.report,
    {
        &self.report
    }

    /// The report of the sweep.
    pub fn into_report(self) -> (report: FleetReport)
        ensures
            report@ == self@.report,
    {
        self.report
    }

    /// The catalog of bundles, as far as it has been read.
    pub fn catalog(&self) -> (catalog: &Catalog)
        ensures
            catalog@ == self@.catalog,
    {
        &self.catalog
    }

    fn abort(self, reason: HawkbitError) -> (next: (Sweep, Step))
        ensures
            (next.0@, next.1@) == aborted(self@, reason@),
    {
        proof {
            use_type_invariant(&self);
        }
        (Sweep { phase: Phase::Aborted, ..self }, Step::Aborted { reason })
    }

    /// Begins the sweep: the first page of bundles is asked for.
    pub fn start(self, client: &HawkbitMgmtClient) -> (next: (Sweep, Step))
        ensures
            (next.0@, next.1@) == started(self@, client@),
    {
        proof {
            use_type_invariant(&self);
        }
        match self.phase {
            Phase::Ready => {
                let request = client.get_distribution_sets(None, 0);
                (
                    Sweep { phase: Phase::LoadingCatalog, ..self },
                    Step::Send { request, expect: Expect::Bundles },
                )
            },
            _ => self.abort(unexpected()),
        }
    }

    fn visit(self, client: &HawkbitMgmtClient) -> (next: (Sweep, Step))
        ensures
            (next.0@, next.1@) == visit(self@, client@),
    {
        proof {
            use_type_invariant(&self);
        }
        if self.cursor < self.devices.len() {
            let id = self.devices[self.cursor].controller_id.as_str();
            let request = client.request_attributes(id, id, id);
            (
                Sweep { phase: Phase::Refreshing, ..self },
                Step::Send { request, expect: Expect::Nothing },
            )
        } else {
            (Sweep { phase: Phase::Finished, ..self }, Step::Finished)
        }
    }

    fn leave(self, client: &HawkbitMgmtClient) -> (next: (Sweep, Step))
        requires
            self@.cursor < self@.devices.len(),
        ensures
            (next.0@, next.1@) == leave(self@, client@),
    {
        proof {
            use_type_invariant(&self);
        }
        let n = self.devices.len();
        assert(self.cursor < n);
        let cursor = self.cursor + 1;
        let moved = Sweep {
            phase: Phase::Ready,
            cursor,
            pending: Vec::new(),
            next_cancel: 0,
            ..self
        };
        moved.visit(client)
    }

    fn list_actions(self, client: &HawkbitMgmtClient) -> (next: (Sweep, Step))
        requires
            self@.cursor < self@.devices.len(),
        ensures
            (next.0@, next.1@) == list_actions(self@, client@),
    {
        proof {
            use_type_invariant(&self);
        }
        let request = client.get_target_actions(
            self.devices[self.cursor].controller_id.as_str(),
            Some(ACTION_LIMIT),
            Some("status==\"pending\""),
        );
        (
            Sweep { phase: Phase::ListingActions, ..self },
            Step::Send { request, expect: Expect::Actions },
        )
    }
}

impl Sweep {
    fn on_bundles(self, client: &HawkbitMgmtClient, page: PaginationResponse<Vec<DistributionSet>>) -> (next:
        (Sweep, Step))
        requires
            self@.phase == Phase::LoadingCatalog,
        ensures
            (next.0@, next.1@) == on_bundles(self@, client@, page@),
    {
        proof {
            use_type_invariant(&self);
        }
        if !self.bundles.fits(&page) {
            return self.abort(HawkbitError::new("page size out of range"));
        }
        let mut bundles = self.bundles;
        bundles.accept(page);
        match bundles.next_offset() {
            Some(offset) => {
                let request = client.get_distribution_sets(None, offset);
                (Sweep { bundles, ..self }, Step::Send { request, expect: Expect::Bundles })
            },
            None => {
                let filter = match &self.filter {
                    Some(f) => Some(f.as_str()),
                    None => None,
                };
                let request = client.get_targets(filter, 0);
                let catalog = Catalog::build_index(bundles.into_items());
                (
                    Sweep {
                        bundles: Pager::new(),
                        catalog,
                        phase: Phase::LoadingDevices,
                        ..self
                    },
                    Step::Send { request, expect: Expect::Devices },
                )
            },
        }
    }

    fn on_devices(self, client: &HawkbitMgmtClient, page: PaginationResponse<Vec<MgmtTarget>>) -> (next:
        (Sweep, Step))
        requires
            self@.phase == Phase::LoadingDevices,
        ensures
            (next.0@, next.1@) == on_devices(self@, client@, page@),
    {
        proof {
            use_type_invariant(&self);
        }
        if !self.listing.fits(&page) {
            return self.abort(HawkbitError::new("page size out of range"));
        }
        let mut listing = self.listing;
        listing.accept(page);
        match listing.next_offset() {
            Some(offset) => {
                let filter = match &self.filter {
                    Some(f) => Some(f.as_str()),
                    None => None,
                };
                let request = client.get_targets(filter, offset);
                (Sweep { listing, ..self }, Step::Send { request, expect: Expect::Devices })
            },
            None => {
                let devices = listing.into_items();
                let ready = Sweep {
                    phase: Phase::Ready,
                    listing: Pager::new(),
                    devices,
                    cursor: 0,
                    ..self
                };
                ready.visit(client)
            },
        }
    }

    fn on_refreshed(self, client: &HawkbitMgmtClient, now: i64) -> (next: (Sweep, Step))
        requires
            self@.phase == Phase::Refreshing,
        ensures
            (next.0@, next.1@) == on_refreshed(self@, client@, now),
    {
        proof {
            use_type_invariant(&self);
        }
        let mut report = self.report;
        report.observe(&self.devices[self.cursor], now);
        let sweep = Sweep { report, ..self };
        if needs_remediation(&sweep.devices[sweep.cursor]) {
            let request = client.get_target_attributes(
                sweep.devices[sweep.cursor].controller_id.as_str(),
                None,
            );
            (
                Sweep { phase: Phase::ReadingAttributes, ..sweep },
                Step::Send { request, expect: Expect::Attributes },
            )
        } else {
            sweep.list_actions(client)
        }
    }

    fn fail(self, reason: &HawkbitError) -> (next: Sweep)
        requires
            self@.cursor < self@.devices.len(),
        ensures
            next@ == failed(self@, reason@),
    {
        proof {
            use_type_invariant(&self);
        }
        let mut report = self.report;
        report.fail(
            self.devices[self.cursor].controller_id.as_str(),
            FailureKind::RequestFailed,
            reason.message(),
        );
        Sweep { report, ..self }
    }

    fn on_attributes(self, client: &HawkbitMgmtClient, document: &serde_json::Value) -> (next: (
        Sweep,
        Step,
    ))
        requires
            self@.phase == Phase::ReadingAttributes,
        ensures
            (next.0@, next.1@) == on_attributes(
                self@,
                client@,
                crate::json::attributes_of(crate::json::plain_members(*document)),
            ),
    {
        proof {
            use_type_invariant(&self);
        }
        let attributes = attributes_from_json(document);
        let plan = plan_remediation(&attributes, &self.catalog, None);
        let sweep = self;
        match plan {
            Remediation::Assign { bundle } => {
                let request = client.assign_distribution(
                    sweep.devices[sweep.cursor].controller_id.as_str(),
                    bundle,
                );
                (
                    Sweep { phase: Phase::Assigning, bundle, ..sweep },
                    Step::Send { request, expect: Expect::Nothing },
                )
            },
            Remediation::Unchanged { bundle } => sweep.list_actions(client),
            Remediation::NoBundle { channel } => {
                let mut report = sweep.report;
                report.fail(
                    sweep.devices[sweep.cursor].controller_id.as_str(),
                    FailureKind::NoBundleForChannel,
                    channel.as_str(),
                );
                let noted = Sweep { report, ..sweep };
                noted.list_actions(client)
            },
            Remediation::MissingChannel => {
                let mut report = sweep.report;
                report.fail(
                    sweep.devices[sweep.cursor].controller_id.as_str(),
                    FailureKind::MissingChannel,
                    "",
                );
                proof {
                    reveal_strlit("");
                    assert(""@ =~= Seq::<char>::empty());
                }
                let noted = Sweep { report, ..sweep };
                noted.list_actions(client)
            },
        }
    }

    fn on_assigned(self, client: &HawkbitMgmtClient) -> (next: (Sweep, Step))
        requires
            self@.phase == Phase::Assigning,
        ensures
            (next.0@, next.1@) == on_assigned(self@, client@),
    {
        proof {
            use_type_invariant(&self);
        }
        let mut report = self.report;
        report.assign(self.devices[self.cursor].controller_id.as_str(), self.bundle);
        let noted = Sweep { report, ..self };
        noted.list_actions(client)
    }

    fn on_actions(self, client: &HawkbitMgmtClient, actions: &Vec<Action>) -> (next: (Sweep, Step))
        requires
            self@.phase == Phase::ListingActions,
        ensures
            (next.0@, next.1@) == on_actions(self@, client@, actions@),
    {
        proof {
            use_type_invariant(&self);
        }
        let plan = reconcile_actions(actions, &self.policy);
        if plan.canceled.len() > 0 {
            let request = client.cancel_action(
                self.devices[self.cursor].controller_id.as_str(),
                plan.canceled[0],
                false,
            );
            (
                Sweep { phase: Phase::Canceling, pending: plan.canceled, next_cancel: 0, ..self },
                Step::Send { request, expect: Expect::Nothing },
            )
        } else {
            self.leave(client)
        }
    }

    fn record_cancel(self) -> (next: Sweep)
        requires
            self@.phase == Phase::Canceling,
        ensures
            next@ == canceled(self@),
    {
        proof {
            use_type_invariant(&self);
        }
        let mut report = self.report;
        report.cancel(
            self.devices[self.cursor].controller_id.as_str(),
            self.pending[self.next_cancel],
        );
        Sweep { report, ..self }
    }

    fn after_cancel(self, client: &HawkbitMgmtClient) -> (next: (Sweep, Step))
        requires
            self@.phase == Phase::Canceling,
        ensures
            (next.0@, next.1@) == after_cancel(self@, client@),
    {
        proof {
            use_type_invariant(&self);
        }
        let n = self.pending.len();
        if self.next_cancel + 1 < n {
            let request = client.cancel_action(
                self.devices[self.cursor].controller_id.as_str(),
                self.pending[self.next_cancel + 1],
                false,
            );
            let next_cancel = self.next_cancel + 1;
            (Sweep { next_cancel, ..self }, Step::Send { request, expect: Expect::Nothing })
        } else {
            self.leave(client)
        }
    }

    /// Tells the sweep what came of its last request, at the time `now` in
    /// seconds since the epoch, and gets what it wants done next.
    pub fn advance(self, client: &HawkbitMgmtClient, event: Event, now: i64) -> (next: (Sweep, Step))
        ensures
            (next.0@, next.1@) == sweep_next(self@, client@, event, now),
            sweep_wf(self@),
            sweep_wf(next.0@),
    {
        proof {
            use_type_invariant(&self);
        }
        let next = match self.phase {
            Phase::Ready => self.abort(unexpected()),
            Phase::Aborted => self.abort(unexpected()),
            Phase::Finished => (self, Step::Finished),
            Phase::LoadingCatalog => match event {
                Event::Bundles(page) => self.on_bundles(client, page),
                Event::Failed(e) => self.abort(e),
                _ => self.abort(unexpected()),
            },
            Phase::LoadingDevices => match event {
                Event::Devices(page) => self.on_devices(client, page),
                Event::Failed(e) => self.abort(e),
                _ => self.abort(unexpected()),
            },
            Phase::Refreshing => match event {
                Event::Done => self.on_refreshed(client, now),
                Event::Failed(_) => self.on_refreshed(client, now),
                _ => self.abort(unexpected()),
            },
            Phase::ReadingAttributes => match event {
                Event::Attributes(document) => self.on_attributes(client, &document),
                Event::Failed(e) => self.fail(&e).list_actions(client),
                _ => self.abort(unexpected()),
            },
            Phase::Assigning => match event {
                Event::Done => self.on_assigned(client),
                Event::Failed(e) => self.fail(&e).list_actions(client),
                _ => self.abort(unexpected()),
            },
            Phase::ListingActions => match event {
                Event::Actions(page) => self.on_actions(client, &page.content),
                Event::Failed(e) => self.fail(&e).leave(client),
                _ => self.abort(unexpected()),
            },
            Phase::Canceling => match event {
                Event::Done => self.record_cancel().after_cancel(client),
                Event::Failed(e) => self.fail(&e).after_cancel(client),
                _ => self.abort(unexpected()),
            },
        };
        proof {
            use_type_invariant(&next.0);
        }
        next
    }

    /// Tells the sweep what came of its last request and gets what it wants
    /// done next. The time is read from the clock of the machine.
    pub fn advance_now(self, client: &HawkbitMgmtClient, event: Event) -> (next: (Sweep, Step))
        ensures
            exists|now: i64| now >= 0 && (next.0@, next.1@) == sweep_next(self@, client@, event, now),
            sweep_wf(next.0@),
    {
        let now = unix_now();
        self.advance(client, event, now)
    }
}

} // verus!
