//! What a remote device answers when it is asked about itself.
use crate::protocol::SERVICE_UUID;
use std::collections::HashMap;
use std::collections::HashSet;
use vstd::prelude::*;

verus! {

/// The answer to one call on a remote device.
#[derive(Debug)]
pub enum DeviceReply {
    /// A device object is available.
    Opened,
    /// The device advertises these service UUIDs.
    Uuids(HashSet<u128>),
    /// The device is known, but not which service UUIDs it advertises.
    NoUuids,
    /// The device advertises this service data, keyed by service UUID.
    ServiceData(HashMap<u128, Vec<u8>>),
    /// The device is known, but advertises no service data.
    NoServiceData,
    /// The call failed.
    Failed,
}

impl DeviceReply {
    /// Whether this is a list of UUIDs with the mesh service in it.
    pub open spec fn lists_service(self) -> bool {
        self matches DeviceReply::Uuids(uuids) && uuids@.contains(SERVICE_UUID)
    }

    /// Whether this answers which UUIDs the device advertises.
    pub open spec fn answers_uuids(self) -> bool {
        self is Uuids || self is NoUuids
    }

    /// The bytes advertised as service data of the mesh service, where there are any.
    pub open spec fn service_bytes(self) -> Option<Seq<u8>> {
        match self {
            DeviceReply::ServiceData(entries) => if entries@.contains_key(SERVICE_UUID) {
                Some(entries@[SERVICE_UUID]@)
            } else {
                None
            },
            _ => None,
        }
    }

    /// Tells whether the mesh service is among the advertised UUIDs.
    pub fn has_service(&self) -> (found: bool)
        ensures
            found == self.lists_service(),
            found <==> (match *self {
                DeviceReply::Uuids(listed) => listed@.contains(SERVICE_UUID),
                _ => false,
            }),
    {
        broadcast use vstd::std_specs::hash::group_hash_axioms;

        match self {
            DeviceReply::Uuids(uuids) => uuids.contains(&SERVICE_UUID),
            _ => false,
        }
    }

    /// Returns a copy of the service data of the mesh service.
    pub fn service_data(&self) -> (bytes: Option<Vec<u8>>)
        ensures
            match bytes {
                Some(data) => self.service_bytes() == Some(data@),
                None => self.service_bytes() is None,
            },
            match *self {
                DeviceReply::ServiceData(map) => {
                    &&& bytes is Some <==> map@.contains_key(SERVICE_UUID)
                    &&& bytes matches Some(data) ==> data@ == map@[SERVICE_UUID]@
                },
                _ => bytes is None,
            },
    {
        broadcast use vstd::std_specs::hash::group_hash_axioms;

        match self {
            DeviceReply::ServiceData(entries) => match entries.get(&SERVICE_UUID) {
                Some(data) => {
                    let copy = data.clone();
                    assert(copy@ =~= data@);
                    Some(copy)
                },
                None => None,
            },
            _ => None,
        }
    }
}

/// Everything a device would answer, call by call: a ghost stand-in for the device itself.
pub struct DeviceFacts {
    /// Whether a device object is available.
    pub opens: bool,
    /// The answer to reading its service UUIDs.
    pub uuids: DeviceReply,
    /// The answer to reading its service data.
    pub service_data: DeviceReply,
}

impl DeviceFacts {
    /// The answer to asking for the device object.
    pub open spec fn opening(self) -> DeviceReply {
        if self.opens {
            DeviceReply::Opened
        } else {
            DeviceReply::Failed
        }
    }
}

/// A set of UUIDs lists the mesh service exactly if the service is a member of it, whatever
/// else is in the set, and it answers the question in any case. No other reply lists the
/// service, and only the statement that there are no UUIDs answers the question too.
pub proof fn membership_decides_listing(listed: HashSet<u128>, other: DeviceReply)
    ensures
        DeviceReply::Uuids(listed).lists_service() <==> listed@.contains(SERVICE_UUID),
        DeviceReply::Uuids(listed).answers_uuids(),
        other is NoUuids ==> other.answers_uuids() && !other.lists_service(),
        !(other is Uuids) && !(other is NoUuids) ==> !other.answers_uuids()
            && !other.lists_service(),
{
}

/// Two devices whose UUIDs agree on the mesh service are treated alike, however the rest of
/// their UUIDs differs.
pub proof fn other_uuids_do_not_matter(first: HashSet<u128>, second: HashSet<u128>)
    requires
        first@.contains(SERVICE_UUID) == second@.contains(SERVICE_UUID),
    ensures
        DeviceReply::Uuids(first).lists_service() == DeviceReply::Uuids(second).lists_service(),
{
}

/// The service data of the mesh is the whole entry under the mesh service, whatever other
/// entries there are; without that entry, and in any other reply, there is none.
pub proof fn service_entry_is_taken_whole(map: HashMap<u128, Vec<u8>>, other: DeviceReply)
    ensures
        map@.contains_key(SERVICE_UUID) ==> DeviceReply::ServiceData(map).service_bytes() == Some(
            map@[SERVICE_UUID]@,
        ),
        !map@.contains_key(SERVICE_UUID) ==> DeviceReply::ServiceData(map).service_bytes() is None,
        !(other is ServiceData) ==> other.service_bytes() is None,
{
}

/// Asking for the device object succeeds exactly if there is one.
pub proof fn opening_tells_availability(facts: DeviceFacts)
    ensures
        facts.opening() is Opened <==> facts.opens,
        facts.opening() is Failed <==> !facts.opens,
{
}

} // verus!
