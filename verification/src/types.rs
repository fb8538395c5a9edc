//! The records that the management API exchanges.

use vstd::prelude::*;

verus! {

/// `serde_json::Value`: an arbitrary JSON document, carried through without
/// being looked at.
#[verifier::external_type_specification]
#[verifier::external_body]
pub struct ExJsonValue(serde_json::Value);

/// A device that is registered with the update server.
#[derive(Debug)]
pub struct MgmtTarget {
    pub links: serde_json::Value,
    pub controller_id: String,
    pub group: Option<String>,
    pub update_status: Option<String>,
    pub last_controller_request_at: Option<i64>,
    pub installed_at: Option<i64>,
    pub ip_address: Option<String>,
    pub address: Option<String>,
    pub poll_status: Option<serde_json::Value>,
    pub security_token: Option<String>,
    pub request_attributes: Option<bool>,
    pub target_type: Option<i64>,
    pub target_type_name: Option<String>,
    pub auto_confirm_active: Option<bool>,
}

/// An update operation of one device, as the listing of operations shows it.
#[derive(Debug)]
pub struct Action {
    pub links: serde_json::Value,
    pub created_at: u64,
    pub created_by: String,
    pub detail_status: String,
    pub force_type: String,
    pub id: i64,
    pub last_modified_at: u64,
    pub last_modified_by: String,
    pub status: String,
    pub action_type: String,
    pub rollout: Option<u64>,
    pub rollout_name: Option<String>,
    pub weight: Option<u32>,
}

#[derive(Debug, Clone)]
pub struct Link {
    pub href: String,
}

#[derive(Debug)]
pub struct NamedLink {
    pub href: Option<String>,
    pub name: Option<String>,
    pub self_link: Option<Link>,
}

#[derive(Debug)]
pub struct HawkbitActionLinks {
    pub distribution_set: Option<NamedLink>,
    pub rollout: Option<NamedLink>,
    pub self_link: Option<Link>,
    pub status: Option<Link>,
    pub target: Option<NamedLink>,
}

/// An update operation in full.
#[derive(Debug)]
pub struct ActionDetail {
    pub links: HawkbitActionLinks,
    pub created_at: u64,
    pub created_by: String,
    pub detail_status: String,
    pub force_type: String,
    pub id: u64,
    pub last_modified_at: u64,
    pub last_modified_by: String,
    pub rollout: Option<u64>,
    pub rollout_name: Option<String>,
    pub status: String,
    pub action_type: String,
}

/// One entry of the log that an update operation keeps.
#[derive(Debug)]
pub struct ActionStatusEvent {
    pub id: u64,
    pub messages: Vec<String>,
    pub reported_at: u64,
    pub event_type: String,
}

#[derive(Debug, Clone)]
pub struct SoftwareModuleLinks {
    pub self_link: Option<Link>,
}

#[derive(Debug, Clone)]
pub struct SoftwareModule {
    pub links: SoftwareModuleLinks,
    pub created_at: u64,
    pub created_by: String,
    pub deleted: bool,
    pub encrypted: bool,
    pub id: u64,
    pub last_modified_at: u64,
    pub last_modified_by: String,
    pub name: String,
    pub module_type: String,
    pub type_label: String,
    pub version: String,
}

#[derive(Debug, Clone)]
pub struct DistributionSetLinks {
    pub self_link: Option<Link>,
}

/// A named, versioned set of software modules that can be assigned to a device.
#[derive(Debug, Clone)]
pub struct DistributionSet {
    pub links: DistributionSetLinks,
    pub complete: bool,
    pub created_at: u64,
    pub created_by: String,
    pub deleted: bool,
    pub description: String,
    pub id: u64,
    pub last_modified_at: u64,
    pub last_modified_by: String,
    pub modules: Vec<SoftwareModule>,
    pub name: String,
    pub required_migration_step: bool,
    pub ds_type: String,
    pub type_label: String,
    pub valid: bool,
    pub version: String,
}

/// One page of a listing: the items of the page, how many the server says
/// they are, and how many the whole listing holds.
#[derive(Debug)]
pub struct PaginationResponse<T> {
    pub content: T,
    pub size: usize,
    pub total: usize,
}

} // verus!
