//! What to do about a device whose last update failed.
//!
//! Such a device is given the bundle of its update channel again. The channel
//! is the attribute `update_channel` of the device, the bundle the one that
//! the catalog holds under the name of the channel followed by ` EMMC`.

use vstd::hash_map::StringHashMap;
use vstd::prelude::*;

use crate::catalog::bundle_name_for;
use crate::catalog::expected_bundle_name;
use crate::catalog::Catalog;
use crate::text::opt_str_is;
use crate::types::DistributionSet;
use crate::types::MgmtTarget;

verus! {

/// The update status of a device whose last update failed.
pub open spec fn error_status() -> Seq<char> {
    "error"@
}

/// The attribute that names the update channel of a device.
pub open spec fn channel_attribute() -> Seq<char> {
    "update_channel"@
}

/// The last update of the device failed.
pub open spec fn is_in_error(device: MgmtTarget) -> bool {
    device.update_status matches Some(status) && status@ == error_status()
}

/// What is done about a device whose last update failed.
#[derive(Debug)]
pub enum Remediation {
    /// Nothing: the device does not name its channel.
    MissingChannel,
    /// Nothing: the catalog has no bundle for the channel.
    NoBundle { channel: String },
    /// Nothing: the bundle of the channel is the one that was assigned last.
    Unchanged { bundle: u64 },
    /// The bundle of the channel is assigned by force.
    Assign { bundle: u64 },
}

/// What a [`Remediation`] holds.
pub enum RemediationView {
    MissingChannel,
    NoBundle { channel: Seq<char> },
    Unchanged { bundle: u64 },
    Assign { bundle: u64 },
}

impl View for Remediation {
    type V = RemediationView;

    open spec fn view(&self) -> RemediationView {
        match self {
            Remediation::MissingChannel => RemediationView::MissingChannel,
            Remediation::NoBundle { channel } => RemediationView::NoBundle { channel: channel@ },
            Remediation::Unchanged { bundle } => RemediationView::Unchanged { bundle: *bundle },
            Remediation::Assign { bundle } => RemediationView::Assign { bundle: *bundle },
        }
    }
}

/// What is done about a device on `channel`, given the catalog and the bundle
/// that was assigned to the device last, if that is known.
pub open spec fn remediation_for_channel(
    channel: Seq<char>,
    catalog: Map<Seq<char>, DistributionSet>,
    last_assigned: Option<u64>,
) -> RemediationView {
    let name = bundle_name_for(channel);
    if !catalog.contains_key(name) {
        RemediationView::NoBundle { channel }
    } else if last_assigned == Some(catalog[name].id) {
        RemediationView::Unchanged { bundle: catalog[name].id }
    } else {
        RemediationView::Assign { bundle: catalog[name].id }
    }
}

/// What is done about a device with these attributes.
pub open spec fn remediation_for(
    attributes: Map<Seq<char>, Seq<char>>,
    catalog: Map<Seq<char>, DistributionSet>,
    last_assigned: Option<u64>,
) -> RemediationView {
    if attributes.contains_key(channel_attribute()) {
        remediation_for_channel(attributes[channel_attribute()], catalog, last_assigned)
    } else {
        RemediationView::MissingChannel
    }
}

/// Whether the last update of the device failed.
pub fn needs_remediation(device: &MgmtTarget) -> (needed: bool)
    ensures
        needed == is_in_error(*device),
{
    opt_str_is(&device.update_status, "error")
}

/// Decides what is done about a device on `channel`.
pub fn plan_for_channel(channel: &str, catalog: &Catalog, last_assigned: Option<u64>) -> (plan:
    Remediation)
    ensures
        plan@ == remediation_for_channel(channel@, catalog@, last_assigned),
{
    let name = expected_bundle_name(channel);
    match catalog.get(name.as_str()) {
        None => Remediation::NoBundle { channel: channel.to_owned() },
        Some(bundle) => {
            let unchanged = match last_assigned {
                Some(id) => id == bundle.id,
                None => false,
            };
            if unchanged {
                Remediation::Unchanged { bundle: bundle.id }
            } else {
                Remediation::Assign { bundle: bundle.id }
            }
        },
    }
}

/// Decides what is done about a device with these attributes.
pub fn plan_remediation(
    attributes: &StringHashMap<String>,
    catalog: &Catalog,
    last_assigned: Option<u64>,
) -> (plan: Remediation)
    ensures
        plan@ == remediation_for(crate::json::map_texts(attributes@), catalog@, last_assigned),
{
    match attributes.get("update_channel") {
        Some(channel) => plan_for_channel(channel.as_str(), catalog, last_assigned),
        None => Remediation::MissingChannel,
    }
}

/// A bundle is assigned exactly when the catalog has one for the channel and
/// it is not known to be the one assigned last; it is then that bundle.
pub proof fn lemma_assignment_needs_a_bundle(
    channel: Seq<char>,
    catalog: Map<Seq<char>, DistributionSet>,
    last_assigned: Option<u64>,
)
    ensures
        !catalog.contains_key(bundle_name_for(channel)) ==> remediation_for_channel(
            channel,
            catalog,
            last_assigned,
        ) == (RemediationView::NoBundle { channel }),
        catalog.contains_key(bundle_name_for(channel)) && last_assigned is None
            ==> remediation_for_channel(channel, catalog, last_assigned) == (RemediationView::Assign {
            bundle: catalog[bundle_name_for(channel)].id,
        }),
{
}

} // verus!
