//! What the node advertises and what it scans for.
use crate::protocol::SERVICE_UUID;
use std::collections::HashMap;
use vstd::prelude::*;

verus! {

/// How long a data advertisement is kept up before the sender goes on, in milliseconds.
pub const DATA_ADVERTISEMENT_MILLIS: u64 = 100;

/// An advertisement to broadcast.
#[derive(Debug)]
pub struct Advertisement {
    /// The advertised service UUIDs.
    pub service_uuids: Vec<u128>,
    /// The advertised service data, keyed by service UUID.
    pub service_data: HashMap<u128, Vec<u8>>,
    /// Whether the advertisement makes the node discoverable.
    pub discoverable: Option<bool>,
    /// The name in the advertisement.
    pub local_name: Option<String>,
}

impl Advertisement {
    /// Whether this names the mesh service and the node, without making it discoverable.
    pub open spec fn announces_service(&self) -> bool {
        &&& self.service_uuids@ == seq![SERVICE_UUID]
        &&& self.discoverable == Some(false)
        &&& self.local_name matches Some(name) && name@ == "BitChat"@
    }

    /// The plain advertisement: the service and nothing more.
    pub open spec fn is_beacon(&self) -> bool {
        &&& self.announces_service()
        &&& self.service_data@ == Map::<u128, Vec<u8>>::empty()
    }

    /// The advertisement whose only service data is `data`, under the mesh service.
    pub open spec fn carries(&self, data: Seq<u8>) -> bool {
        &&& self.announces_service()
        &&& self.service_data@.dom() == set![SERVICE_UUID]
        &&& self.service_data@[SERVICE_UUID]@ == data
    }

    /// Builds the plain advertisement. The adapter stays undiscoverable, since that may
    /// start pairing, and the name lets peers see the service.
    pub fn beacon() -> (advertisement: Advertisement)
        ensures
            advertisement.is_beacon(),
            advertisement.service_uuids@ == seq![SERVICE_UUID],
            advertisement.service_data@ == Map::<u128, Vec<u8>>::empty(),
            advertisement.discoverable == Some(false),
            advertisement.local_name matches Some(label) && label@ == "BitChat"@,
    {
        let service_uuids: Vec<u128> = vec![SERVICE_UUID];
        assert(service_uuids@ =~= seq![SERVICE_UUID]);
        Advertisement {
            service_uuids,
            service_data: HashMap::new(),
            discoverable: Some(false),
            local_name: Some("BitChat".to_owned()),
        }
    }

    /// Builds the advertisement that carries `data`.
    pub fn carrying(data: &[u8]) -> (advertisement: Advertisement)
        ensures
            advertisement.carries(data@),
            advertisement.service_uuids@ == seq![SERVICE_UUID],
            advertisement.service_data@.dom() == set![SERVICE_UUID],
            advertisement.service_data@[SERVICE_UUID]@ == data@,
            advertisement.discoverable == Some(false),
            advertisement.local_name matches Some(label) && label@ == "BitChat"@,
    {
        broadcast use vstd::std_specs::hash::group_hash_axioms;

        let mut advertisement = Advertisement::beacon();
        let bytes = vstd::slice::slice_to_vec(data);
        advertisement.service_data.insert(SERVICE_UUID, bytes);
        assert(advertisement.service_data@.dom() =~= set![SERVICE_UUID]);
        advertisement
    }
}

/// Which devices a discovery reports.
#[derive(Debug, PartialEq, Eq)]
pub struct DiscoveryFilter {
    /// A device has to advertise one of these service UUIDs.
    pub uuids: Vec<u128>,
}

impl DiscoveryFilter {
    /// Whether this lets exactly the mesh service through.
    pub open spec fn is_mesh_filter(&self) -> bool {
        self.uuids@ == seq![SERVICE_UUID]
    }

    /// Builds the filter for the mesh service.
    pub fn mesh() -> (filter: DiscoveryFilter)
        ensures
            filter.is_mesh_filter(),
            filter.uuids@ == seq![SERVICE_UUID],
    {
        let uuids: Vec<u128> = vec![SERVICE_UUID];
        assert(uuids@ =~= seq![SERVICE_UUID]);
        DiscoveryFilter { uuids }
    }
}

/// The plain advertisement names the mesh service alone, under the node's name, carries no
/// data and does not make the node discoverable; and only such an advertisement is plain.
pub proof fn beacon_shows_the_service_only(advertisement: Advertisement)
    ensures
        advertisement.is_beacon() <==> {
            &&& advertisement.service_uuids@.len() == 1
            &&& advertisement.service_uuids@[0] == SERVICE_UUID
            &&& advertisement.service_data@ == Map::<u128, Vec<u8>>::empty()
            &&& advertisement.discoverable matches Some(visible)
            &&& !visible
            &&& advertisement.local_name matches Some(label)
            &&& label@ == "BitChat"@
        },
{
    if advertisement.service_uuids@.len() == 1 && advertisement.service_uuids@[0] == SERVICE_UUID {
        assert(advertisement.service_uuids@ =~= seq![SERVICE_UUID]);
    }
}

/// A data advertisement announces the service as the plain one does, and its one entry of
/// service data is the data, every byte of it, under the mesh service.
pub proof fn data_advertisement_shows_every_byte(advertisement: Advertisement, data: Seq<u8>)
    ensures
        advertisement.carries(data) <==> {
            &&& advertisement.service_uuids@.len() == 1
            &&& advertisement.service_uuids@[0] == SERVICE_UUID
            &&& forall|uuid: u128|
                advertisement.service_data@.contains_key(uuid) <==> uuid == SERVICE_UUID
            &&& advertisement.service_data@[SERVICE_UUID]@.len() == data.len()
            &&& forall|i: int|
                0 <= i < data.len() ==> advertisement.service_data@[SERVICE_UUID]@[i] == data[i]
            &&& advertisement.discoverable matches Some(visible)
            &&& !visible
            &&& advertisement.local_name matches Some(label)
            &&& label@ == "BitChat"@
        },
{
    if advertisement.service_uuids@.len() == 1 && advertisement.service_uuids@[0] == SERVICE_UUID {
        assert(advertisement.service_uuids@ =~= seq![SERVICE_UUID]);
    }
    if forall|uuid: u128| advertisement.service_data@.contains_key(uuid) <==> uuid == SERVICE_UUID {
        assert(advertisement.service_data@.dom() =~= set![SERVICE_UUID]);
    }
    if advertisement.service_data@[SERVICE_UUID]@.len() == data.len() && (forall|i: int|
        0 <= i < data.len() ==> advertisement.service_data@[SERVICE_UUID]@[i] == data[i]) {
        assert(advertisement.service_data@[SERVICE_UUID]@ =~= data);
    }
    if advertisement.carries(data) {
        assert forall|uuid: u128|
            advertisement.service_data@.contains_key(uuid) <==> uuid == SERVICE_UUID by {
            assert(advertisement.service_data@.dom().contains(uuid) <==> uuid == SERVICE_UUID);
        }
    }
}

/// One advertisement carries one value: what is read from it is what was put in.
pub proof fn advertised_data_is_unique(
    advertisement: Advertisement,
    first: Seq<u8>,
    second: Seq<u8>,
)
    requires
        advertisement.carries(first),
        advertisement.carries(second),
    ensures
        first == second,
        first == advertisement.service_data@[SERVICE_UUID]@,
{
}

/// The discovery filter asks for the mesh service and for nothing else.
pub proof fn filter_asks_for_the_service(filter: DiscoveryFilter)
    ensures
        filter.is_mesh_filter() <==> filter.uuids@.len() == 1 && filter.uuids@[0] == SERVICE_UUID,
{
    if filter.uuids@.len() == 1 && filter.uuids@[0] == SERVICE_UUID {
        assert(filter.uuids@ =~= seq![SERVICE_UUID]);
    }
}

/// A data advertisement is kept up for a tenth of a second.
pub proof fn data_advertisement_lasts()
    ensures
        DATA_ADVERTISEMENT_MILLIS == 100,
{
}

} // verus!
