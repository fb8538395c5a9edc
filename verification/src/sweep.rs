//! One pass over the fleet.
//!
//! A sweep reads the catalog of bundles and the list of devices, and then
//! takes the devices one by one: it asks the device to send its attributes
//! again, counts it in the report, gives it the bundle of its channel again if
//! its last update failed, and cancels the update operations that another one
//! has overtaken. A failure that concerns one device is entered in the report
//! and the sweep goes on; a failure to read the catalog or the list of devices
//! ends it.
//!
//! The sweep sends nothing. It hands out one request at a time and is told
//! what came of it.

use vstd::prelude::*;

use crate::catalog::index_of;
use crate::client::ClientView;
use crate::endpoints::attribute_refresh;
use crate::endpoints::cancellation;
use crate::endpoints::distribution_sets_page;
use crate::endpoints::forced_assignment;
use crate::endpoints::target_actions;
use crate::endpoints::target_attributes;
use crate::endpoints::targets_page;
use crate::error::HawkbitError;
use crate::json::attributes_of;
use crate::json::plain_members;
use crate::pager::accepted;
use crate::pager::pager_start;
use crate::pager::wants_more;
use crate::pager::PageView;
use crate::pager::PagerView;
use crate::reconcile::canceled_ids;
use crate::reconcile::ReconcilePolicy;
use crate::remediate::is_in_error;
use crate::remediate::remediation_for;
use crate::remediate::RemediationView;
use crate::report::empty_report;
use crate::report::observed;
use crate::report::with_assignment;
use crate::report::with_cancellation;
use crate::report::with_failure;
use crate::report::FailureKind;
use crate::report::ReportView;
use crate::request::Request;
use crate::request::RequestView;
use crate::types::Action;
use crate::types::DistributionSet;
use crate::types::MgmtTarget;
use crate::types::PaginationResponse;

verus! {

/// The number of update operations that are read for one device.
pub const ACTION_LIMIT: usize = 50;

/// The filter that selects the update operations that are still to come.
pub open spec fn pending_filter() -> Seq<char> {
    "status==\"pending\""@
}

/// What is reported when an answer does not belong to the request that is
/// outstanding.
pub open spec fn unexpected_text() -> Seq<char> {
    "unexpected answer"@
}

/// What is reported when a page claims more items than can be counted.
pub open spec fn oversized_text() -> Seq<char> {
    "page size out of range"@
}

/// Where a sweep stands.
#[derive(Debug, Clone, Copy, PartialEq, Eq, Structural)]
pub enum Phase {
    /// Nothing has been asked for yet.
    Ready,
    /// A page of bundles is outstanding.
    LoadingCatalog,
    /// A page of devices is outstanding.
    LoadingDevices,
    /// The current device was asked to send its attributes again.
    Refreshing,
    /// The attributes of the current device are outstanding.
    ReadingAttributes,
    /// A bundle is being assigned to the current device.
    Assigning,
    /// The update operations of the current device are outstanding.
    ListingActions,
    /// An update operation of the current device is being canceled.
    Canceling,
    /// Every device has been dealt with.
    Finished,
    /// The sweep was given up.
    Aborted,
}

/// How the answer to a request is to be read.
#[derive(Debug, Clone, Copy, PartialEq, Eq, Structural)]
pub enum Expect {
    /// As a page of bundles.
    Bundles,
    /// As a page of devices.
    Devices,
    /// As the attributes of a device.
    Attributes,
    /// As a page of update operations.
    Actions,
    /// Not at all: only whether the request went through matters.
    Nothing,
}

/// What came of a request.
#[derive(Debug)]
pub enum Event {
    Bundles(PaginationResponse<Vec<DistributionSet>>),
    Devices(PaginationResponse<Vec<MgmtTarget>>),
    Attributes(serde_json::Value),
    Actions(PaginationResponse<Vec<Action>>),
    /// The request went through; its answer holds nothing to read.
    Done,
    /// The request failed.
    Failed(HawkbitError),
}

/// What a sweep wants done next.
#[derive(Debug)]
pub enum Step {
    /// This request is to be sent and its answer read as `expect` says.
    Send { request: Request, expect: Expect },
    /// Nothing: the sweep is complete.
    Finished,
    /// Nothing: the sweep was given up.
    Aborted { reason: HawkbitError },
}

/// What a [`Step`] holds.
pub enum StepView {
    Send { request: RequestView, expect: Expect },
    Finished,
    Aborted { reason: Seq<char> },
}

impl View for Step {
    type V = StepView;

    open spec fn view(&self) -> StepView {
        match self {
            Step::Send { request, expect } => StepView::Send { request: request@, expect: *expect },
            Step::Finished => StepView::Finished,
            Step::Aborted { reason } => StepView::Aborted { reason: reason@ },
        }
    }
}

/// What a [`Sweep`] holds.
pub struct SweepView {
    /// The filter expression that selects the devices, if any.
    pub filter: Option<Seq<char>>,
    pub policy: ReconcilePolicy,
    pub phase: Phase,
    /// The bundles read so far.
    pub bundles: PagerView<DistributionSet>,
    /// The devices read so far.
    pub listing: PagerView<MgmtTarget>,
    pub catalog: Map<Seq<char>, DistributionSet>,
    pub devices: Seq<MgmtTarget>,
    /// The position of the current device.
    pub cursor: nat,
    /// The operations of the current device that are to be canceled.
    pub pending: Seq<i64>,
    /// The position in `pending` of the operation that is being canceled.
    pub next_cancel: nat,
    /// The bundle that is being assigned.
    pub bundle: u64,
    pub report: ReportView,
}

/// The sweep before anything was asked for.
pub open spec fn sweep_start(filter: Option<Seq<char>>, policy: ReconcilePolicy) -> SweepView {
    SweepView {
        filter,
        policy,
        phase: Phase::Ready,
        bundles: pager_start(),
        listing: pager_start(),
        catalog: Map::empty(),
        devices: Seq::empty(),
        cursor: 0,
        pending: Seq::empty(),
        next_cancel: 0,
        bundle: 0,
        report: empty_report(),
    }
}

/// The sweep has a current device wherever it works on one, and an operation
/// to cancel wherever it cancels one.
pub open spec fn sweep_wf(s: SweepView) -> bool {
    &&& (s.phase == Phase::Refreshing || s.phase == Phase::ReadingAttributes || s.phase
        == Phase::Assigning || s.phase == Phase::ListingActions || s.phase == Phase::Canceling)
        ==> s.cursor < s.devices.len()
    &&& s.phase == Phase::Canceling ==> s.next_cancel < s.pending.len()
}

/// The identifier of the current device.
pub open spec fn current_id(s: SweepView) -> Seq<char> {
    s.devices[s.cursor as int].controller_id@
}

/// The sweep is given up.
pub open spec fn aborted(s: SweepView, reason: Seq<char>) -> (SweepView, StepView) {
    (SweepView { phase: Phase::Aborted, ..s }, StepView::Aborted { reason })
}

/// The first request of a sweep: the first page of bundles.
pub open spec fn started(s: SweepView, client: ClientView) -> (SweepView, StepView) {
    if s.phase == Phase::Ready {
        (
            SweepView { phase: Phase::LoadingCatalog, ..s },
            StepView::Send {
                request: distribution_sets_page(client, None, 0),
                expect: Expect::Bundles,
            },
        )
    } else {
        aborted(s, unexpected_text())
    }
}

/// The sweep turns to the device at its cursor: the device is asked to send
/// its attributes again. Behind the last device the sweep is complete.
pub open spec fn visit(s: SweepView, client: ClientView) -> (SweepView, StepView) {
    if s.cursor < s.devices.len() {
        (
            SweepView { phase: Phase::Refreshing, ..s },
            StepView::Send {
                request: attribute_refresh(client, current_id(s), current_id(s), current_id(s)),
                expect: Expect::Nothing,
            },
        )
    } else {
        (SweepView { phase: Phase::Finished, ..s }, StepView::Finished)
    }
}

/// The sweep is done with the current device and turns to the next.
pub open spec fn leave(s: SweepView, client: ClientView) -> (SweepView, StepView) {
    visit(
        SweepView { cursor: s.cursor + 1, pending: Seq::empty(), next_cancel: 0, ..s },
        client,
    )
}

/// The sweep asks for the update operations of the current device that are
/// still to come.
pub open spec fn list_actions(s: SweepView, client: ClientView) -> (SweepView, StepView) {
    (
        SweepView { phase: Phase::ListingActions, ..s },
        StepView::Send {
            request: target_actions(
                client,
                current_id(s),
                Some(ACTION_LIMIT),
                Some(pending_filter()),
            ),
            expect: Expect::Actions,
        },
    )
}

/// A page of bundles has come. With the last page the catalog is made and the
/// first page of devices asked for.
pub open spec fn on_bundles(s: SweepView, client: ClientView, page: PageView<DistributionSet>) -> (
    SweepView,
    StepView,
) {
    if s.bundles.offset + page.size > usize::MAX {
        aborted(s, oversized_text())
    } else {
        let pager = accepted(s.bundles, page);
        if wants_more(pager) {
            (
                SweepView { bundles: pager, ..s },
                StepView::Send {
                    request: distribution_sets_page(client, None, pager.offset),
                    expect: Expect::Bundles,
                },
            )
        } else {
            (
                SweepView {
                    bundles: pager_start(),
                    catalog: index_of(pager.items),
                    phase: Phase::LoadingDevices,
                    ..s
                },
                StepView::Send { request: targets_page(client, s.filter, 0), expect: Expect::Devices },
            )
        }
    }
}

/// A page of devices has come. With the last page the sweep turns to the
/// first device.
pub open spec fn on_devices(s: SweepView, client: ClientView, page: PageView<MgmtTarget>) -> (
    SweepView,
    StepView,
) {
    if s.listing.offset + page.size > usize::MAX {
        aborted(s, oversized_text())
    } else {
        let pager = accepted(s.listing, page);
        if wants_more(pager) {
            (
                SweepView { listing: pager, ..s },
                StepView::Send {
                    request: targets_page(client, s.filter, pager.offset),
                    expect: Expect::Devices,
                },
            )
        } else {
            visit(
                SweepView { listing: pager_start(), devices: pager.items, cursor: 0, ..s },
                client,
            )
        }
    }
}

/// The current device was asked for its attributes, whether with success or
/// not. It is counted in the report; if its last update failed its attributes
/// are read next, else its update operations.
pub open spec fn on_refreshed(s: SweepView, client: ClientView, now: i64) -> (SweepView, StepView) {
    let device = s.devices[s.cursor as int];
    let counted = SweepView { report: observed(s.report, device, now), ..s };
    if is_in_error(device) {
        (
            SweepView { phase: Phase::ReadingAttributes, ..counted },
            StepView::Send {
                request: target_attributes(client, current_id(s), None),
                expect: Expect::Attributes,
            },
        )
    } else {
        list_actions(counted, client)
    }
}

/// A request for the current device has failed: that is entered in the report.
pub open spec fn failed(s: SweepView, reason: Seq<char>) -> SweepView {
    SweepView {
        report: with_failure(s.report, current_id(s), FailureKind::RequestFailed, reason),
        ..s
    }
}

/// The attributes of the current device have come. The bundle of its channel
/// is assigned, or the reason why not entered in the report and the update
/// operations of the device read.
pub open spec fn on_attributes(
    s: SweepView,
    client: ClientView,
    attributes: Map<Seq<char>, Seq<char>>,
) -> (SweepView, StepView) {
    match remediation_for(attributes, s.catalog, None) {
        RemediationView::Assign { bundle } => (
            SweepView { phase: Phase::Assigning, bundle: bundle, ..s },
            StepView::Send {
                request: forced_assignment(client, current_id(s), bundle),
                expect: Expect::Nothing,
            },
        ),
        RemediationView::Unchanged { bundle } => list_actions(s, client),
        RemediationView::NoBundle { channel } => list_actions(
            SweepView {
                report: with_failure(
                    s.report,
                    current_id(s),
                    FailureKind::NoBundleForChannel,
                    channel,
                ),
                ..s
            },
            client,
        ),
        RemediationView::MissingChannel => list_actions(
            SweepView {
                report: with_failure(
                    s.report,
                    current_id(s),
                    FailureKind::MissingChannel,
                    Seq::empty(),
                ),
                ..s
            },
            client,
        ),
    }
}

/// The bundle has been assigned to the current device.
pub open spec fn on_assigned(s: SweepView, client: ClientView) -> (SweepView, StepView) {
    list_actions(
        SweepView { report: with_assignment(s.report, current_id(s), s.bundle), ..s },
        client,
    )
}

/// The update operations of the current device have come. The first of those
/// that are extraneous is canceled; if none is, the sweep turns to the next
/// device.
pub open spec fn on_actions(s: SweepView, client: ClientView, actions: Seq<Action>) -> (
    SweepView,
    StepView,
) {
    let pending = canceled_ids(actions, s.policy);
    if pending.len() > 0 {
        (
            SweepView { phase: Phase::Canceling, pending: pending, next_cancel: 0, ..s },
            StepView::Send {
                request: cancellation(client, current_id(s), pending[0] as int, false),
                expect: Expect::Nothing,
            },
        )
    } else {
        leave(s, client)
    }
}

/// One cancellation is over. The next extraneous operation is canceled; after
/// the last the sweep turns to the next device.
pub open spec fn after_cancel(s: SweepView, client: ClientView) -> (SweepView, StepView) {
    if s.next_cancel + 1 < s.pending.len() {
        (
            SweepView { next_cancel: s.next_cancel + 1, ..s },
            StepView::Send {
                request: cancellation(
                    client,
                    current_id(s),
                    s.pending[s.next_cancel as int + 1] as int,
                    false,
                ),
                expect: Expect::Nothing,
            },
        )
    } else {
        leave(s, client)
    }
}

/// The operation that was being canceled is entered in the report.
pub open spec fn canceled(s: SweepView) -> SweepView {
    SweepView {
        report: with_cancellation(s.report, current_id(s), s.pending[s.next_cancel as int]),
        ..s
    }
}

/// The sweep after it was told what came of its last request, and what it
/// wants done next.
pub open spec fn sweep_next(s: SweepView, client: ClientView, event: Event, now: i64) -> (
    SweepView,
    StepView,
) {
    match s.phase {
        Phase::Ready | Phase::Aborted => aborted(s, unexpected_text()),
        Phase::Finished => (s, StepView::Finished),
        Phase::LoadingCatalog => match event {
            Event::Bundles(page) => on_bundles(s, client, page@),
            Event::Failed(e) => aborted(s, e@),
            _ => aborted(s, unexpected_text()),
        },
        Phase::LoadingDevices => match event {
            Event::Devices(page) => on_devices(s, client, page@),
            Event::Failed(e) => aborted(s, e@),
            _ => aborted(s, unexpected_text()),
        },
        Phase::Refreshing => match event {
            Event::Done | Event::Failed(_) => on_refreshed(s, client, now),
            _ => aborted(s, unexpected_text()),
        },
        Phase::ReadingAttributes => match event {
            Event::Attributes(document) => on_attributes(
                s,
                client,
                attributes_of(plain_members(document)),
            ),
            Event::Failed(e) => list_actions(failed(s, e@), client),
            _ => aborted(s, unexpected_text()),
        },
        Phase::Assigning => match event {
            Event::Done => on_assigned(s, client),
            Event::Failed(e) => list_actions(failed(s, e@), client),
            _ => aborted(s, unexpected_text()),
        },
        Phase::ListingActions => match event {
            Event::Actions(page) => on_actions(s, client, page.content@),
            Event::Failed(e) => leave(failed(s, e@), client),
            _ => aborted(s, unexpected_text()),
        },
        Phase::Canceling => match event {
            Event::Done => after_cancel(canceled(s), client),
            Event::Failed(e) => after_cancel(failed(s, e@), client),
            _ => aborted(s, unexpected_text()),
        },
    }
}

/// The step sends a request that assigns a bundle.
pub open spec fn is_assignment(step: StepView) -> bool {
    step matches StepView::Send { request, .. } && request.method == crate::request::Method::Post
}

/// A well-formed sweep stays well formed, whatever it is told.
pub proof fn lemma_sweep_stays_well_formed(s: SweepView, client: ClientView, event: Event, now: i64)
    requires
        sweep_wf(s),
    ensures
        sweep_wf(sweep_next(s, client, event, now).0),
        sweep_wf(started(s, client).0),
{
}

/// A sweep that is complete or was given up stays so and asks for nothing.
pub proof fn lemma_sweep_ends(s: SweepView, client: ClientView, event: Event, now: i64)
    requires
        s.phase == Phase::Finished || s.phase == Phase::Aborted,
    ensures
        sweep_next(s, client, event, now).0.phase == s.phase,
        !(sweep_next(s, client, event, now).1 is Send),
        sweep_next(s, client, event, now).0.report == s.report,
{
}

/// A failure to read the catalog or the list of devices ends the sweep.
pub proof fn lemma_listing_failure_is_fatal(
    s: SweepView,
    client: ClientView,
    reason: HawkbitError,
    now: i64,
)
    requires
        s.phase == Phase::LoadingCatalog || s.phase == Phase::LoadingDevices,
    ensures
        sweep_next(s, client, Event::Failed(reason), now) == aborted(s, reason@),
{
}

/// A failure that concerns one device does not end the sweep: it is entered
/// in the report, and the sweep goes on with that device or the next.
pub proof fn lemma_device_failure_is_contained(
    s: SweepView,
    client: ClientView,
    reason: HawkbitError,
    now: i64,
)
    requires
        sweep_wf(s),
        s.phase == Phase::ReadingAttributes || s.phase == Phase::Assigning || s.phase
            == Phase::ListingActions || s.phase == Phase::Canceling,
    ensures
        sweep_next(s, client, Event::Failed(reason), now).0.phase != Phase::Aborted,
        !(sweep_next(s, client, Event::Failed(reason), now).1 is Aborted),
        sweep_next(s, client, Event::Failed(reason), now).0.report == failed(s, reason@).report,
{
}

/// A device whose last update did not fail is not given a bundle: once it is
/// counted, its update operations are read.
pub proof fn lemma_healthy_device_is_left_alone(s: SweepView, client: ClientView, now: i64)
    requires
        sweep_wf(s),
        s.phase == Phase::Refreshing,
        !is_in_error(s.devices[s.cursor as int]),
    ensures
        on_refreshed(s, client, now).0.phase == Phase::ListingActions,
        !is_assignment(on_refreshed(s, client, now).1),
{
}

/// For a device whose last update failed and whose channel has no bundle in
/// the catalog, no bundle is assigned: the failure is entered in the report
/// with the channel, and the update operations of the device are read.
pub proof fn lemma_no_bundle_no_assignment(
    s: SweepView,
    client: ClientView,
    attributes: Map<Seq<char>, Seq<char>>,
    channel: Seq<char>,
)
    requires
        attributes.contains_key(crate::remediate::channel_attribute()),
        attributes[crate::remediate::channel_attribute()] == channel,
        !s.catalog.contains_key(crate::catalog::bundle_name_for(channel)),
    ensures
        !is_assignment(on_attributes(s, client, attributes).1),
        on_attributes(s, client, attributes).0.phase == Phase::ListingActions,
        on_attributes(s, client, attributes).0.report == with_failure(
            s.report,
            current_id(s),
            FailureKind::NoBundleForChannel,
            channel,
        ),
{
}

/// For a device whose last update failed and whose channel has a bundle in the
/// catalog, that bundle is assigned by force, once: the request that follows
/// the assignment reads the update operations of the device.
pub proof fn lemma_bundle_is_assigned_once(
    s: SweepView,
    client: ClientView,
    attributes: Map<Seq<char>, Seq<char>>,
    channel: Seq<char>,
    answer: Event,
    now: i64,
)
    requires
        attributes.contains_key(crate::remediate::channel_attribute()),
        attributes[crate::remediate::channel_attribute()] == channel,
        s.catalog.contains_key(crate::catalog::bundle_name_for(channel)),
        answer is Done || answer is Failed,
    ensures
        on_attributes(s, client, attributes).1 == (StepView::Send {
            request: forced_assignment(
                client,
                current_id(s),
                s.catalog[crate::catalog::bundle_name_for(channel)].id,
            ),
            expect: Expect::Nothing,
        }),
        on_attributes(s, client, attributes).0.phase == Phase::Assigning,
        !is_assignment(sweep_next(on_attributes(s, client, attributes).0, client, answer, now).1),
        sweep_next(on_attributes(s, client, attributes).0, client, answer, now).0.phase
            == Phase::ListingActions,
{
}

/// The operations that the sweep cancels for a device are exactly those that
/// the reconciler finds extraneous, in their order, none by force.
pub proof fn lemma_cancellations_follow_the_plan(s: SweepView, client: ClientView, actions: Seq<Action>)
    requires
        canceled_ids(actions, s.policy).len() > 0,
    ensures
        on_actions(s, client, actions).0.pending == canceled_ids(actions, s.policy),
        on_actions(s, client, actions).1 == (StepView::Send {
            request: cancellation(
                client,
                current_id(s),
                canceled_ids(actions, s.policy)[0] as int,
                false,
            ),
            expect: Expect::Nothing,
        }),
{
}

/// Whatever its status, a device has its update operations read: once it is
/// counted, every answer that belongs to the outstanding request leads to the
/// request for its operations, by way of the assignment of a bundle at most.
pub proof fn lemma_actions_are_always_read(s: SweepView, client: ClientView, event: Event, now: i64)
    requires
        sweep_wf(s),
        s.phase == Phase::Refreshing || s.phase == Phase::ReadingAttributes || s.phase
            == Phase::Assigning,
        sweep_next(s, client, event, now).0.phase != Phase::Aborted,
    ensures
        s.phase == Phase::Refreshing ==> sweep_next(s, client, event, now).0.phase
            == Phase::ReadingAttributes || sweep_next(s, client, event, now).0.phase
            == Phase::ListingActions,
        s.phase == Phase::ReadingAttributes ==> sweep_next(s, client, event, now).0.phase
            == Phase::Assigning || sweep_next(s, client, event, now).0.phase == Phase::ListingActions,
        s.phase == Phase::Assigning ==> sweep_next(s, client, event, now).0.phase
            == Phase::ListingActions,
        sweep_next(s, client, event, now).0.cursor == s.cursor,
        sweep_next(s, client, event, now).0.devices == s.devices,
{
}

} // verus!
