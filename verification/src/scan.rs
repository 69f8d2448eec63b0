//! Picking the mesh devices out of the devices that the adapter knows.
use crate::address::Address;
use crate::device::{DeviceFacts, DeviceReply};
use crate::protocol::SERVICE_UUID;
use vstd::prelude::*;

verus! {

/// What makes a device count as a mesh device.
#[derive(Debug, Clone, Copy, PartialEq, Eq, Structural)]
pub enum SelectionRule {
    /// The advertised UUIDs decide; service data stands in only where they cannot be read.
    UuidsFirst,
    /// The mesh service among the advertised UUIDs or in the service data is enough.
    AnyEvidence,
}

/// The call that a scan waits for.
#[derive(Debug, Clone, Copy, PartialEq, Eq, Structural)]
pub enum ScanStage {
    Opening,
    ReadingUuids,
    ReadingServiceData,
}

/// The next call that a scan asks for.
#[derive(Debug, PartialEq, Eq)]
pub enum ScanRequest {
    /// Get a device object for this address.
    OpenDevice(Address),
    /// Read the service UUIDs that this device advertises.
    ReadUuids(Address),
    /// Read the service data that this device advertises.
    ReadServiceData(Address),
    /// Nothing: every device was examined.
    Finished,
}

/// The state of a scan.
pub struct ScanView {
    pub rule: SelectionRule,
    /// The devices to examine.
    pub addresses: Seq<Address>,
    /// How many of them are done.
    pub position: nat,
    /// What the scan waits for on the device at `position`.
    pub stage: ScanStage,
    /// The mesh devices among those that are done, in the order of `addresses`.
    pub found: Seq<Address>,
}

impl ScanView {
    /// A scan that has examined nothing yet.
    pub open spec fn start(rule: SelectionRule, addresses: Seq<Address>) -> ScanView {
        ScanView { rule, addresses, position: 0, stage: ScanStage::Opening, found: seq![] }
    }

    /// Whether every device was examined.
    pub open spec fn is_finished(self) -> bool {
        self.position >= self.addresses.len()
    }

    /// The device under examination.
    pub open spec fn current(self) -> Address {
        self.addresses[self.position as int]
    }

    /// The next call to make.
    pub open spec fn request(self) -> ScanRequest {
        if self.is_finished() {
            ScanRequest::Finished
        } else {
            match self.stage {
                ScanStage::Opening => ScanRequest::OpenDevice(self.current()),
                ScanStage::ReadingUuids => ScanRequest::ReadUuids(self.current()),
                ScanStage::ReadingServiceData => ScanRequest::ReadServiceData(self.current()),
            }
        }
    }

    /// Goes on to the next device without taking the current one.
    pub open spec fn skipped(self) -> ScanView {
        ScanView { position: self.position + 1, stage: ScanStage::Opening, ..self }
    }

    /// Takes the current device and goes on to the next.
    pub open spec fn selected(self) -> ScanView {
        ScanView { found: self.found.push(self.current()), ..self.skipped() }
    }

    /// Stays with the current device and makes another call.
    pub open spec fn at(self, stage: ScanStage) -> ScanView {
        ScanView { stage, ..self }
    }

    /// The state after the answer to the outstanding call. Any other answer counts as a
    /// failed call.
    pub open spec fn answered(self, reply: DeviceReply) -> ScanView {
        if self.is_finished() {
            self
        } else {
            match self.stage {
                ScanStage::Opening => if reply is Opened {
                    self.at(ScanStage::ReadingUuids)
                } else {
                    self.skipped()
                },
                ScanStage::ReadingUuids => if reply.lists_service() {
                    self.selected()
                } else if self.rule == SelectionRule::UuidsFirst && reply.answers_uuids() {
                    self.skipped()
                } else {
                    self.at(ScanStage::ReadingServiceData)
                },
                ScanStage::ReadingServiceData => if reply.service_bytes() is Some {
                    self.selected()
                } else {
                    self.skipped()
                },
            }
        }
    }

    /// How many answers the scan can still take.
    pub open spec fn remaining(self) -> nat {
        if self.is_finished() {
            0
        } else {
            (3 * (self.addresses.len() - self.position) - match self.stage {
                ScanStage::Opening => 0int,
                ScanStage::ReadingUuids => 1,
                ScanStage::ReadingServiceData => 2,
            }) as nat
        }
    }

    /// What a device with these facts answers to the outstanding call.
    pub open spec fn reply_of(self, facts: DeviceFacts) -> DeviceReply {
        match self.stage {
            ScanStage::Opening => facts.opening(),
            ScanStage::ReadingUuids => facts.uuids,
            ScanStage::ReadingServiceData => facts.service_data,
        }
    }

    /// The end of the scan, where the device at each position answers by its facts.
    pub open spec fn completed(self, devices: Seq<DeviceFacts>) -> ScanView
        decreases self.remaining(),
    {
        if self.is_finished() {
            self
        } else {
            self.answered(self.reply_of(devices[self.position as int])).completed(devices)
        }
    }
}

/// Whether a device with these facts counts as a mesh device.
pub open spec fn is_mesh_device(rule: SelectionRule, facts: DeviceFacts) -> bool {
    &&& facts.opens
    &&& {
        ||| facts.uuids.lists_service()
        ||| facts.service_data.service_bytes() is Some && (rule == SelectionRule::AnyEvidence
            || !facts.uuids.answers_uuids())
    }
}

/// Under both rules a mesh device has to open, and listing the mesh service is enough. Service
/// data for it is enough where any evidence counts, and where the UUIDs were not read.
pub proof fn mesh_devices_show_evidence(rule: SelectionRule, facts: DeviceFacts)
    ensures
        is_mesh_device(rule, facts) <==> {
            let lists = facts.uuids matches DeviceReply::Uuids(listed) && listed@.contains(
                SERVICE_UUID,
            );
            let carries = facts.service_data matches DeviceReply::ServiceData(map)
                && map@.contains_key(SERVICE_UUID);
            let unread = !(facts.uuids is Uuids) && !(facts.uuids is NoUuids);
            facts.opens && (lists || (carries && (rule is AnyEvidence || unread)))
        },
{
}

/// The addresses of the mesh devices, in order.
pub open spec fn mesh_devices(
    rule: SelectionRule,
    addresses: Seq<Address>,
    devices: Seq<DeviceFacts>,
) -> Seq<Address>
    decreases addresses.len(),
{
    if addresses.len() == 0 {
        seq![]
    } else {
        let before = mesh_devices(rule, addresses.drop_last(), devices);
        if is_mesh_device(rule, devices[addresses.len() - 1]) {
            before.push(addresses.last())
        } else {
            before
        }
    }
}

/// A walk over the devices that the adapter knows, which asks each whether it belongs to
/// the mesh.
#[derive(Debug)]
pub struct DeviceScan {
    rule: SelectionRule,
    addresses: Vec<Address>,
    position: usize,
    stage: ScanStage,
    found: Vec<Address>,
}

impl View for DeviceScan {
    type V = ScanView;

    closed spec fn view(&self) -> ScanView {
        ScanView {
            rule: self.rule,
            addresses: self.addresses@,
            position: self.position as nat,
            stage: self.stage,
            found: self.found@,
        }
    }
}

impl DeviceScan {
    /// Starts a scan of these devices.
    pub fn new(rule: SelectionRule, addresses: Vec<Address>) -> (scan: DeviceScan)
        ensures
            scan@ == ScanView::start(rule, addresses@),
            scan@.rule == rule,
            scan@.addresses == addresses@,
            scan@.position == 0,
            scan@.stage == ScanStage::Opening,
            scan@.found.len() == 0,
    {
        DeviceScan {
            rule,
            addresses,
            position: 0,
            stage: ScanStage::Opening,
            found: Vec::new(),
        }
    }

    /// Returns the next call to make.
    pub fn request(&self) -> (request: ScanRequest)
        ensures
            request == self@.request(),
            request is Finished <==> self@.position >= self@.addresses.len(),
            self@.position < self@.addresses.len() ==> ({
                let device = self@.addresses[self@.position as int];
                &&& self@.stage is Opening ==> request == ScanRequest::OpenDevice(device)
                &&& self@.stage is ReadingUuids ==> request == ScanRequest::ReadUuids(device)
                &&& self@.stage is ReadingServiceData ==> request == ScanRequest::ReadServiceData(
                    device,
                )
            }),
    {
        if self.position >= self.addresses.len() {
            ScanRequest::Finished
        } else {
            let address = self.addresses[self.position];
            match self.stage {
                ScanStage::Opening => ScanRequest::OpenDevice(address),
                ScanStage::ReadingUuids => ScanRequest::ReadUuids(address),
                ScanStage::ReadingServiceData => ScanRequest::ReadServiceData(address),
            }
        }
    }

    /// Takes the answer to the outstanding call.
    pub fn answer(&mut self, reply: &DeviceReply)
        ensures
            final(self)@ == old(self)@.answered(*reply),
            final(self)@.rule == old(self)@.rule,
            final(self)@.addresses == old(self)@.addresses,
            old(self)@.position >= old(self)@.addresses.len() ==> final(self)@ == old(self)@,
            old(self)@.position < old(self)@.addresses.len() ==> ({
                let before = old(self)@;
                let after = final(self)@;
                let device = before.addresses[before.position as int];
                let another_call = match before.stage {
                    ScanStage::Opening => *reply is Opened,
                    ScanStage::ReadingUuids => match *reply {
                        DeviceReply::Uuids(listed) => !listed@.contains(SERVICE_UUID)
                            && before.rule is AnyEvidence,
                        DeviceReply::NoUuids => before.rule is AnyEvidence,
                        _ => true,
                    },
                    ScanStage::ReadingServiceData => false,
                };
                let taken = match before.stage {
                    ScanStage::Opening => false,
                    ScanStage::ReadingUuids => match *reply {
                        DeviceReply::Uuids(listed) => listed@.contains(SERVICE_UUID),
                        _ => false,
                    },
                    ScanStage::ReadingServiceData => match *reply {
                        DeviceReply::ServiceData(map) => map@.contains_key(SERVICE_UUID),
                        _ => false,
                    },
                };
                &&& after.position == before.position + (if another_call {
                    0int
                } else {
                    1
                })
                &&& another_call && before.stage is Opening ==> after.stage is ReadingUuids
                &&& another_call && before.stage is ReadingUuids
                    ==> after.stage is ReadingServiceData
                &&& !another_call ==> after.stage is Opening
                &&& taken ==> after.found == before.found.push(device)
                &&& !taken ==> after.found == before.found
            }),
    {
        if self.position < self.addresses.len() {
            match self.stage {
                ScanStage::Opening => {
                    match reply {
                        DeviceReply::Opened => {
                            self.stage = ScanStage::ReadingUuids;
                        },
                        _ => {
                            self.skip();
                        },
                    }
                },
                ScanStage::ReadingUuids => {
                    if reply.has_service() {
                        self.select();
                    } else {
                        match (self.rule, reply) {
                            (SelectionRule::UuidsFirst, DeviceReply::Uuids(_)) => {
                                self.skip();
                            },
                            (SelectionRule::UuidsFirst, DeviceReply::NoUuids) => {
                                self.skip();
                            },
                            _ => {
                                self.stage = ScanStage::ReadingServiceData;
                            },
                        }
                    }
                },
                ScanStage::ReadingServiceData => {
                    if reply.service_data().is_some() {
                        self.select();
                    } else {
                        self.skip();
                    }
                },
            }
        }
    }

    fn skip(&mut self)
        requires
            !old(self)@.is_finished(),
        ensures
            final(self)@ == old(self)@.skipped(),
    {
        assert(self.position < self.addresses.len());
        self.position = self.position + 1;
        self.stage = ScanStage::Opening;
    }

    fn select(&mut self)
        requires
            !old(self)@.is_finished(),
        ensures
            final(self)@ == old(self)@.selected(),
    {
        let address = self.addresses[self.position];
        self.found.push(address);
        self.skip();
    }

    /// Returns the mesh devices found so far: all of them once the scan is finished.
    pub fn into_found(self) -> (found: Vec<Address>)
        ensures
            found@ == self@.found,
    {
        self.found
    }
}

/// A scan starts before the first device of the whole listing, with nothing found.
pub proof fn scan_starts_with_the_whole_listing(rule: SelectionRule, addresses: Seq<Address>)
    ensures
        ScanView::start(rule, addresses).rule == rule,
        ScanView::start(rule, addresses).addresses == addresses,
        ScanView::start(rule, addresses).position == 0,
        ScanView::start(rule, addresses).stage is Opening,
        ScanView::start(rule, addresses).found.len() == 0,
{
}

/// A scan asks for nothing more only once every listed device is done; until then it asks the
/// device whose turn it is, for the object first, then for the UUIDs, then for the service
/// data, as its stage says.
pub proof fn scan_asks_until_every_device_is_done(scan: ScanView)
    ensures
        scan.request() is Finished <==> scan.position >= scan.addresses.len(),
        scan.position < scan.addresses.len() ==> ({
            let device = scan.addresses[scan.position as int];
            &&& (scan.request() matches ScanRequest::OpenDevice(a) && a == device)
                <==> scan.stage is Opening
            &&& (scan.request() matches ScanRequest::ReadUuids(a) && a == device)
                <==> scan.stage is ReadingUuids
            &&& (scan.request() matches ScanRequest::ReadServiceData(a) && a == device)
                <==> scan.stage is ReadingServiceData
        }),
{
}

/// A caller who makes each call that the scan asks for, on the device that it names, until it
/// asks for none, ends with exactly the mesh devices of the listing, in order: those that open
/// and list the mesh service, and those that open and have service data for it where the rule
/// looks at that. It takes no more than three calls for each device.
///
/// `states` are the states of the scan, from its start on, and `replies` the answers in
/// between. `keep` is what makes an address one of a mesh device.
pub proof fn scan_run_ends_with_the_mesh_devices(
    rule: SelectionRule,
    addresses: Seq<Address>,
    devices: spec_fn(Address) -> DeviceFacts,
    keep: spec_fn(Address) -> bool,
    states: Seq<ScanView>,
    replies: Seq<DeviceReply>,
)
    requires
        forall|a: Address| #[trigger]
            keep(a) <==> {
                let lists = devices(a).uuids matches DeviceReply::Uuids(listed) && listed@.contains(
                    SERVICE_UUID,
                );
                let carries = devices(a).service_data matches DeviceReply::ServiceData(map)
                    && map@.contains_key(SERVICE_UUID);
                let unread = !(devices(a).uuids is Uuids) && !(devices(a).uuids is NoUuids);
                devices(a).opens && (lists || (carries && (rule is AnyEvidence || unread)))
            },
        states.len() == replies.len() + 1,
        states[0] == ScanView::start(rule, addresses),
        forall|i: int|
            0 <= i < replies.len() ==> {
                &&& states[i + 1] == states[i].answered(#[trigger] replies[i])
                &&& match states[i].request() {
                    ScanRequest::OpenDevice(a) => replies[i] is Opened <==> devices(a).opens,
                    ScanRequest::ReadUuids(a) => replies[i] == devices(a).uuids,
                    ScanRequest::ReadServiceData(a) => replies[i] == devices(a).service_data,
                    ScanRequest::Finished => false,
                }
            },
        states.last().request() is Finished,
    ensures
        states.last().found == addresses.filter(keep),
        replies.len() <= 3 * addresses.len(),
{
    lemma_scan_run(rule, addresses, devices, keep, states, replies, replies.len());
    assert(addresses.take(addresses.len() as int) =~= addresses);
}

proof fn lemma_scan_run(
    rule: SelectionRule,
    addresses: Seq<Address>,
    devices: spec_fn(Address) -> DeviceFacts,
    keep: spec_fn(Address) -> bool,
    states: Seq<ScanView>,
    replies: Seq<DeviceReply>,
    count: nat,
)
    requires
        count <= replies.len(),
        forall|a: Address| #[trigger] keep(a) <==> is_mesh_device(rule, devices(a)),
        states.len() == replies.len() + 1,
        states[0] == ScanView::start(rule, addresses),
        forall|i: int|
            0 <= i < replies.len() ==> {
                &&& states[i + 1] == states[i].answered(#[trigger] replies[i])
                &&& match states[i].request() {
                    ScanRequest::OpenDevice(a) => replies[i] is Opened <==> devices(a).opens,
                    ScanRequest::ReadUuids(a) => replies[i] == devices(a).uuids,
                    ScanRequest::ReadServiceData(a) => replies[i] == devices(a).service_data,
                    ScanRequest::Finished => false,
                }
            },
    ensures
        ({
            let state = states[count as int];
            &&& state.rule == rule
            &&& state.addresses == addresses
            &&& state.position <= addresses.len()
            &&& state.found == addresses.take(state.position as int).filter(keep)
            &&& state.stage is Opening ==> count <= 3 * state.position
            &&& !(state.stage is Opening) ==> {
                &&& state.position < addresses.len()
                &&& devices(state.current()).opens
            }
            &&& state.stage is ReadingUuids ==> count <= 3 * state.position + 1
            &&& state.stage is ReadingServiceData ==> {
                &&& count <= 3 * state.position + 2
                &&& !devices(state.current()).uuids.lists_service()
                &&& rule is AnyEvidence || !devices(state.current()).uuids.answers_uuids()
            }
        }),
    decreases count,
{
    reveal(Seq::filter);
    if count == 0 {
        assert(addresses.take(0) =~= seq![]);
    } else {
        lemma_scan_run(rule, addresses, devices, keep, states, replies, (count - 1) as nat);
        let before = states[count - 1];
        let reply = replies[count - 1];
        let position = before.position as int;
        assert(states[count as int] == before.answered(reply));
        let prefix = addresses.take(position + 1);
        assert(prefix.drop_last() =~= addresses.take(position));
        assert(prefix.last() == before.current());
        assert(keep(before.current()) <==> is_mesh_device(rule, devices(before.current())));
    }
}

/// Every answer brings a scan nearer to its end, so it takes at most three per device.
pub proof fn scan_answers_make_progress(scan: ScanView, reply: DeviceReply)
    requires
        !scan.is_finished(),
    ensures
        scan.answered(reply).remaining() < scan.remaining(),
        ScanView::start(scan.rule, scan.addresses).remaining() == 3 * scan.addresses.len(),
{
}

/// A scan ends with exactly the devices that its rule accepts, in the order of the listing.
pub proof fn scan_finds_mesh_devices(
    rule: SelectionRule,
    addresses: Seq<Address>,
    devices: Seq<DeviceFacts>,
)
    ensures
        ScanView::start(rule, addresses).completed(devices).found == mesh_devices(
            rule,
            addresses,
            devices,
        ),
        ScanView::start(rule, addresses).completed(devices).is_finished(),
{
    let start = ScanView::start(rule, addresses);
    assert(addresses.take(0) =~= seq![]);
    lemma_completed(start, devices);
}

proof fn lemma_completed(scan: ScanView, devices: Seq<DeviceFacts>)
    requires
        scan.stage == ScanStage::Opening,
        scan.position <= scan.addresses.len(),
        scan.found == mesh_devices(
            scan.rule,
            scan.addresses.take(scan.position as int),
            devices,
        ),
    ensures
        scan.completed(devices).is_finished(),
        scan.completed(devices).found == mesh_devices(scan.rule, scan.addresses, devices),
    decreases scan.addresses.len() - scan.position,
{
    if scan.is_finished() {
        assert(scan.addresses.take(scan.position as int) =~= scan.addresses);
    } else {
        let position = scan.position as int;
        let facts = devices[position];
        let prefix = scan.addresses.take(position + 1);
        assert(prefix.drop_last() =~= scan.addresses.take(position));
        let next = if is_mesh_device(scan.rule, facts) {
            scan.selected()
        } else {
            scan.skipped()
        };
        reveal_with_fuel(ScanView::completed, 4);
        assert(scan.completed(devices) == next.completed(devices));
        lemma_completed(next, devices);
    }
}

/// An address is reported exactly if one of the devices listed under it is a mesh device.
pub proof fn mesh_devices_are_listed(
    rule: SelectionRule,
    addresses: Seq<Address>,
    devices: Seq<DeviceFacts>,
)
    ensures
        forall|a: Address| #[trigger]
            mesh_devices(rule, addresses, devices).contains(a) <==> exists|i: int|
                0 <= i < addresses.len() && #[trigger] addresses[i] == a && is_mesh_device(
                    rule,
                    devices[i],
                ),
    decreases addresses.len(),
{
    if addresses.len() > 0 {
        let before = addresses.drop_last();
        let last = addresses.len() - 1;
        let found = mesh_devices(rule, addresses, devices);
        let found_before = mesh_devices(rule, before, devices);
        mesh_devices_are_listed(rule, before, devices);
        assert forall|a: Address| #[trigger] found.contains(a) implies exists|i: int|
            0 <= i < addresses.len() && #[trigger] addresses[i] == a && is_mesh_device(
                rule,
                devices[i],
            ) by {
            if found_before.contains(a) {
                let i = choose|i: int|
                    0 <= i < before.len() && #[trigger] before[i] == a && is_mesh_device(
                        rule,
                        devices[i],
                    );
                assert(addresses[i] == a);
            } else {
                assert(addresses[last] == a);
            }
        }
        assert forall|a: Address, i: int|
            0 <= i < addresses.len() && #[trigger] addresses[i] == a && is_mesh_device(
                rule,
                devices[i],
            ) implies #[trigger] found.contains(a) by {
            if i < last {
                assert(before[i] == a);
                assert(found_before.contains(a));
                let k = choose|k: int| 0 <= k < found_before.len() && found_before[k] == a;
                assert(found[k] == a);
            } else {
                assert(found.last() == a);
            }
        }
    }
}

/// A listing without repetitions gives a result without repetitions.
pub proof fn mesh_devices_are_distinct(
    rule: SelectionRule,
    addresses: Seq<Address>,
    devices: Seq<DeviceFacts>,
)
    requires
        addresses.no_duplicates(),
    ensures
        mesh_devices(rule, addresses, devices).no_duplicates(),
    decreases addresses.len(),
{
    if addresses.len() > 0 {
        let before = addresses.drop_last();
        mesh_devices_are_distinct(rule, before, devices);
        mesh_devices_are_listed(rule, before, devices);
        let found_before = mesh_devices(rule, before, devices);
        assert(!found_before.contains(addresses.last()));
    }
}

/// Whatever is found by the UUIDs first is also found by any evidence.
pub proof fn any_evidence_finds_more(addresses: Seq<Address>, devices: Seq<DeviceFacts>)
    ensures
        forall|a: Address| #[trigger]
            mesh_devices(SelectionRule::UuidsFirst, addresses, devices).contains(a)
                ==> mesh_devices(SelectionRule::AnyEvidence, addresses, devices).contains(a),
{
    mesh_devices_are_listed(SelectionRule::UuidsFirst, addresses, devices);
    mesh_devices_are_listed(SelectionRule::AnyEvidence, addresses, devices);
}

} // verus!
