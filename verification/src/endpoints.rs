//! The operations of the management API, one request each.

use vstd::prelude::*;
use vstd::string::StringExecFns;

use crate::client::flag_text;
use crate::client::merged_fields;
use crate::client::opt_text;
use crate::client::other_fields_upto;
use crate::client::page_window;
use crate::client::request_to;
use crate::client::with_filter;
use crate::client::ClientView;
use crate::client::HawkbitMgmtClient;
use crate::request::assignment_views;
use crate::request::param_views;
use crate::request::push_param;
use crate::request::Assignment;
use crate::request::Method;
use crate::request::Param;
use crate::request::Payload;
use crate::request::PayloadView;
use crate::request::Request;
use crate::request::RequestView;
use crate::text::decimal;
use crate::text::i64_to_decimal;
use crate::text::signed_decimal;
use crate::text::str_eq;
use crate::text::u64_to_decimal;

verus! {

/// The number of operations that a listing shows when no limit is given.
pub const DEFAULT_ACTION_LIMIT: usize = 10;

/// Where a device is found.
pub open spec fn target_path(target_id: Seq<char>) -> Seq<char> {
    "targets/"@ + target_id
}

/// Where an update operation of a device is found.
pub open spec fn action_path(target_id: Seq<char>, action_id: int) -> Seq<char> {
    "targets/"@ + target_id + "/actions/"@ + signed_decimal(action_id)
}

/// Where a bundle is found.
pub open spec fn distribution_path(distribution_id: Seq<char>) -> Seq<char> {
    "distributionsets/"@ + distribution_id
}

/// The request that lists the page of devices at `offset`.
pub open spec fn targets_page(client: ClientView, filter: Option<Seq<char>>, offset: nat) -> RequestView {
    request_to(
        client,
        Method::Get,
        "targets"@,
        with_filter(filter) + page_window(offset),
        PayloadView::Empty,
    )
}

/// The request that lists the page of bundles at `offset`, newest first.
pub open spec fn distribution_sets_page(
    client: ClientView,
    filter: Option<Seq<char>>,
    offset: nat,
) -> RequestView {
    request_to(
        client,
        Method::Get,
        "distributionsets"@,
        seq![("sort"@, "createdAt:DESC"@)] + with_filter(filter) + page_window(offset),
        PayloadView::Empty,
    )
}

/// The request that lists the update operations of a device, latest first.
pub open spec fn target_actions(
    client: ClientView,
    target_id: Seq<char>,
    limit: Option<usize>,
    filter: Option<Seq<char>>,
) -> RequestView {
    request_to(
        client,
        Method::Get,
        target_path(target_id) + "/actions"@,
        seq![
            ("sort"@, "id:DESC"@),
            (
                "limit"@,
                decimal(
                    match limit {
                        Some(n) => n as nat,
                        None => DEFAULT_ACTION_LIMIT as nat,
                    },
                ),
            ),
        ] + with_filter(filter),
        PayloadView::Empty,
    )
}

/// The request that reads the attributes of a device.
pub open spec fn target_attributes(
    client: ClientView,
    target_id: Seq<char>,
    filter: Option<Seq<char>>,
) -> RequestView {
    request_to(
        client,
        Method::Get,
        target_path(target_id) + "/attributes"@,
        with_filter(filter),
        PayloadView::Empty,
    )
}

/// The request that cancels an update operation.
pub open spec fn cancellation(
    client: ClientView,
    target_id: Seq<char>,
    action_id: int,
    force: bool,
) -> RequestView {
    request_to(
        client,
        Method::Delete,
        action_path(target_id, action_id),
        seq![("force"@, flag_text(force))],
        PayloadView::Empty,
    )
}

/// The request that lists the page at `offset` of the log of an update
/// operation, latest entry first, every entry in full.
pub open spec fn action_status_page(
    client: ClientView,
    target_id: Seq<char>,
    action_id: int,
    offset: nat,
) -> RequestView {
    request_to(
        client,
        Method::Get,
        action_path(target_id, action_id) + "/status"@,
        seq![("sort"@, "id:DESC"@), ("representation"@, "full"@)] + page_window(offset),
        PayloadView::Empty,
    )
}

/// The request that assigns a bundle to a device, whatever the device runs.
pub open spec fn forced_assignment(
    client: ClientView,
    target_id: Seq<char>,
    distribution_id: u64,
) -> RequestView {
    request_to(
        client,
        Method::Post,
        target_path(target_id) + "/assignedDS"@,
        Seq::empty(),
        PayloadView::Assignments(seq![(distribution_id, "forced"@)]),
    )
}

/// The request that updates a device.
pub open spec fn target_update(
    client: ClientView,
    target_id: Seq<char>,
    target_name: Seq<char>,
    controller_id: Seq<char>,
    update: Seq<(Seq<char>, Seq<char>)>,
) -> RequestView {
    request_to(
        client,
        Method::Put,
        target_path(target_id),
        Seq::empty(),
        PayloadView::Fields(merged_fields(update, target_name, controller_id)),
    )
}

/// The request that asks a device to send its attributes again.
pub open spec fn attribute_refresh(
    client: ClientView,
    target_id: Seq<char>,
    target_name: Seq<char>,
    controller_id: Seq<char>,
) -> RequestView {
    target_update(
        client,
        target_id,
        target_name,
        controller_id,
        seq![("requestAttributes"@, "true"@)],
    )
}

fn path_of_target(target_id: &str) -> (path: String)
    ensures
        path@ == target_path(target_id@),
{
    "targets/".to_owned().concat(target_id)
}

fn path_of_action(target_id: &str, action_id: i64) -> (path: String)
    ensures
        path@ == action_path(target_id@, action_id as int),
{
    let mut path = path_of_target(target_id);
    path.append("/actions/");
    path.append(i64_to_decimal(action_id).as_str());
    path
}

fn merge_fields(update: Vec<Param>, target_name: &str, controller_id: &str) -> (fields: Vec<Param>)
    ensures
        param_views(fields@) == merged_fields(param_views(update@), target_name@, controller_id@),
{
    let mut fields: Vec<Param> = Vec::new();
    let ghost all = update@;
    assert(param_views(fields@) =~= other_fields_upto(param_views(all), 0));
    for field in it: update
        invariant
            it.seq() == all,
            param_views(fields@) == other_fields_upto(param_views(all), it.index() as int),
    {
        let ghost before = param_views(fields@);
        assert(param_views(all)[it.index() as int] == field@);
        if !str_eq(field.name.as_str(), "name") && !str_eq(field.name.as_str(), "controllerId") {
            fields.push(field);
            assert(param_views(fields@) =~= before.push(field@));
        }
    }
    assert(all.len() == param_views(all).len());
    push_param(&mut fields, "name", target_name);
    push_param(&mut fields, "controllerId", controller_id);
    fields
}

impl HawkbitMgmtClient {
    /// Lists the devices that `filter_query` selects, one page at a time.
    pub fn get_targets(&self, filter_query: Option<&str>, offset: usize) -> (request: Request)
        ensures
            request@ == targets_page(self@, opt_text(filter_query), offset as nat),
    {
        let mut query = crate::client::filter_params(filter_query);
        crate::client::push_page_window(&mut query, offset);
        self.get("targets", Some(query))
    }

    /// Reads one device.
    pub fn get_target(&self, target_id: &str) -> (request: Request)
        ensures
            request@ == request_to(
                self@,
                Method::Get,
                target_path(target_id@),
                Seq::empty(),
                PayloadView::Empty,
            ),
    {
        let path = path_of_target(target_id);
        self.get(path.as_str(), None)
    }

    /// Removes one device.
    pub fn delete_target(&self, target_id: &str) -> (request: Request)
        ensures
            request@ == request_to(
                self@,
                Method::Delete,
                target_path(target_id@),
                Seq::empty(),
                PayloadView::Empty,
            ),
    {
        let path = path_of_target(target_id);
        self.delete(path.as_str(), None)
    }

    /// Lists the update operations of a device, latest first: `limit` of them,
    /// or 10 where no limit is given.
    pub fn get_target_actions(
        &self,
        target_id: &str,
        limit: Option<usize>,
        filter_query: Option<&str>,
    ) -> (request: Request)
        ensures
            request@ == target_actions(self@, target_id@, limit, opt_text(filter_query)),
    {
        let mut query: Vec<Param> = Vec::new();
        assert(param_views(query@) =~= Seq::empty());
        push_param(&mut query, "sort", "id:DESC");
        let shown = match limit {
            Some(n) => n,
            None => DEFAULT_ACTION_LIMIT,
        };
        push_param(&mut query, "limit", u64_to_decimal(shown as u64).as_str());
        match filter_query {
            Some(expression) => {
                push_param(&mut query, "q", expression);
            },
            None => {},
        }
        assert(param_views(query@) =~= target_actions(
            self@,
            target_id@,
            limit,
            opt_text(filter_query),
        ).query);
        let mut path = path_of_target(target_id);
        path.append("/actions");
        self.get(path.as_str(), Some(query))
    }

    /// Reads the attributes that a device reported.
    pub fn get_target_attributes(&self, target_id: &str, filter_query: Option<&str>) -> (request:
        Request)
        ensures
            request@ == target_attributes(self@, target_id@, opt_text(filter_query)),
    {
        let query = crate::client::filter_params(filter_query);
        let mut path = path_of_target(target_id);
        path.append("/attributes");
        self.get(path.as_str(), Some(query))
    }

    /// Reads one update operation in full.
    pub fn get_action_detail(&self, target_id: &str, action_id: i64) -> (request: Request)
        ensures
            request@ == request_to(
                self@,
                Method::Get,
                action_path(target_id@, action_id as int),
                Seq::empty(),
                PayloadView::Empty,
            ),
    {
        let path = path_of_action(target_id, action_id);
        self.get(path.as_str(), None)
    }

    /// Cancels an update operation, by force if `force` is set.
    pub fn cancel_action(&self, target_id: &str, action_id: i64, force: bool) -> (request: Request)
        ensures
            request@ == cancellation(self@, target_id@, action_id as int, force),
    {
        let mut query: Vec<Param> = Vec::new();
        assert(param_views(query@) =~= Seq::empty());
        push_param(&mut query, "force", crate::client::bool_text(force));
        assert(param_views(query@) =~= seq![("force"@, flag_text(force))]);
        let path = path_of_action(target_id, action_id);
        self.delete(path.as_str(), Some(query))
    }

    /// Lists the log of an update operation, one page at a time.
    pub fn get_action_status(&self, target_id: &str, action_id: i64, offset: usize) -> (request:
        Request)
        ensures
            request@ == action_status_page(self@, target_id@, action_id as int, offset as nat),
    {
        let mut query: Vec<Param> = Vec::new();
        assert(param_views(query@) =~= Seq::empty());
        push_param(&mut query, "sort", "id:DESC");
        push_param(&mut query, "representation", "full");
        assert(param_views(query@) =~= seq![("sort"@, "id:DESC"@), ("representation"@, "full"@)]);
        crate::client::push_page_window(&mut query, offset);
        let mut path = path_of_action(target_id, action_id);
        path.append("/status");
        self.get(path.as_str(), Some(query))
    }

    /// Assigns a bundle to a device, whatever the device runs.
    pub fn assign_distribution(&self, target_id: &str, distribution_id: u64) -> (request: Request)
        ensures
            request@ == forced_assignment(self@, target_id@, distribution_id),
    {
        let mut entries: Vec<Assignment> = Vec::new();
        entries.push(Assignment { id: distribution_id, assignment_type: "forced".to_owned() });
        assert(assignment_views(entries@) =~= seq![(distribution_id, "forced"@)]);
        let mut path = path_of_target(target_id);
        path.append("/assignedDS");
        self.post(path.as_str(), Payload::Assignments(entries))
    }

    /// Lists the bundles that `filter_query` selects, newest first, one page
    /// at a time.
    pub fn get_distribution_sets(&self, filter_query: Option<&str>, offset: usize) -> (request:
        Request)
        ensures
            request@ == distribution_sets_page(self@, opt_text(filter_query), offset as nat),
    {
        let mut query: Vec<Param> = Vec::new();
        assert(param_views(query@) =~= Seq::empty());
        push_param(&mut query, "sort", "createdAt:DESC");
        match filter_query {
            Some(expression) => {
                push_param(&mut query, "q", expression);
            },
            None => {},
        }
        assert(param_views(query@) =~= seq![("sort"@, "createdAt:DESC"@)] + with_filter(
            opt_text(filter_query),
        ));
        crate::client::push_page_window(&mut query, offset);
        self.get("distributionsets", Some(query))
    }

    /// Reads one bundle.
    pub fn get_distributionset(&self, distribution_id: &str) -> (request: Request)
        ensures
            request@ == request_to(
                self@,
                Method::Get,
                distribution_path(distribution_id@),
                seq![("sort"@, "id:DESC"@)],
                PayloadView::Empty,
            ),
    {
        let mut query: Vec<Param> = Vec::new();
        assert(param_views(query@) =~= Seq::empty());
        push_param(&mut query, "sort", "id:DESC");
        assert(param_views(query@) =~= seq![("sort"@, "id:DESC"@)]);
        let path = "distributionsets/".to_owned().concat(distribution_id);
        self.get(path.as_str(), Some(query))
    }

    /// Asks for the one bundle that was created last.
    pub fn get_latest_distribution(&self) -> (request: Request)
        ensures
            request@ == request_to(
                self@,
                Method::Get,
                "distributionsets"@,
                seq![("sort"@, "createdAt:DESC"@), ("limit"@, decimal(1))],
                PayloadView::Empty,
            ),
    {
        let mut query: Vec<Param> = Vec::new();
        assert(param_views(query@) =~= Seq::empty());
        push_param(&mut query, "sort", "createdAt:DESC");
        push_param(&mut query, "limit", u64_to_decimal(1).as_str());
        assert(param_views(query@) =~= seq![("sort"@, "createdAt:DESC"@), ("limit"@, decimal(1))]);
        self.get("distributionsets", Some(query))
    }

    /// Updates a device: the fields of `update` are sent along with its name
    /// and controller identifier.
    pub fn update_target(
        &self,
        target_id: &str,
        target_name: &str,
        controller_id: &str,
        update: Vec<Param>,
    ) -> (request: Request)
        ensures
            request@ == target_update(
                self@,
                target_id@,
                target_name@,
                controller_id@,
                param_views(update@),
            ),
    {
        let fields = merge_fields(update, target_name, controller_id);
        let path = path_of_target(target_id);
        self.put(path.as_str(), Payload::Fields(fields))
    }

    /// Asks a device to send its attributes again.
    pub fn request_attributes(&self, target_id: &str, target_name: &str, controller_id: &str) -> (request:
        Request)
        ensures
            request@ == attribute_refresh(self@, target_id@, target_name@, controller_id@),
    {
        let mut update: Vec<Param> = Vec::new();
        assert(param_views(update@) =~= Seq::empty());
        push_param(&mut update, "requestAttributes", "true");
        assert(param_views(update@) =~= seq![("requestAttributes"@, "true"@)]);
        self.update_target(target_id, target_name, controller_id, update)
    }
}

} // verus!
