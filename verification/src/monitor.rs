//! Following the devices that come and go.
use crate::address::Address;
use crate::device::{DeviceFacts, DeviceReply};
use crate::protocol::{
    delivery_kinds_are_distinct, discovered, received, Delivery, DeliveryView, SERVICE_UUID,
};
use std::collections::HashMap;
use std::collections::HashSet;
use vstd::prelude::*;

verus! {

/// What the adapter reports.
#[derive(Debug, Clone, Copy, PartialEq, Eq)]
pub enum AdapterEvent {
    /// A device appeared.
    DeviceAdded(Address),
    /// A device disappeared.
    DeviceRemoved(Address),
    /// Anything else.
    Other,
}

/// What to do about an event of the adapter.
#[derive(Debug)]
pub enum EventResponse {
    /// Ask the device about itself.
    Inquire(DeviceInquiry),
    /// Call the handler.
    Deliver(Delivery),
    /// Nothing.
    Ignore,
}

/// The call that an inquiry waits for.
#[derive(Debug, Clone, Copy, PartialEq, Eq, Structural)]
pub enum InquiryStage {
    Opening,
    ReadingServiceData,
    ReadingUuids,
    Finished,
}

/// The state of an inquiry.
pub struct InquiryView {
    pub address: Address,
    pub stage: InquiryStage,
}

impl InquiryView {
    /// An inquiry that has asked nothing yet.
    pub open spec fn start(address: Address) -> InquiryView {
        InquiryView { address, stage: InquiryStage::Opening }
    }

    /// The state after the answer to the outstanding call. Any other answer counts as a
    /// failed call. Without a device object there is nothing to read; both readings take
    /// place otherwise, whatever they give.
    pub open spec fn answered(self, reply: DeviceReply) -> InquiryView {
        let stage = match self.stage {
            InquiryStage::Opening => if reply is Opened {
                InquiryStage::ReadingServiceData
            } else {
                InquiryStage::Finished
            },
            InquiryStage::ReadingServiceData => InquiryStage::ReadingUuids,
            InquiryStage::ReadingUuids => InquiryStage::Finished,
            InquiryStage::Finished => InquiryStage::Finished,
        };
        InquiryView { stage, ..self }
    }

    /// What the answer to the outstanding call is to be reported as, if at all.
    pub open spec fn reports(self, reply: DeviceReply) -> Option<DeliveryView> {
        match self.stage {
            InquiryStage::ReadingServiceData => match reply.service_bytes() {
                Some(data) => Some(received(data, self.address)),
                None => None,
            },
            InquiryStage::ReadingUuids => if reply.lists_service() {
                Some(discovered(self.address))
            } else {
                None
            },
            _ => None,
        }
    }

    /// How many answers the inquiry can still take.
    pub open spec fn remaining(self) -> nat {
        match self.stage {
            InquiryStage::Opening => 3,
            InquiryStage::ReadingServiceData => 2,
            InquiryStage::ReadingUuids => 1,
            InquiryStage::Finished => 0,
        }
    }

    /// What a device with these facts answers to the outstanding call.
    pub open spec fn reply_of(self, facts: DeviceFacts) -> DeviceReply {
        match self.stage {
            InquiryStage::Opening => facts.opening(),
            InquiryStage::ReadingServiceData => facts.service_data,
            InquiryStage::ReadingUuids => facts.uuids,
            InquiryStage::Finished => DeviceReply::Failed,
        }
    }

    /// Everything that is reported until the inquiry ends, where the device answers by its
    /// facts.
    pub open spec fn all_reports(self, facts: DeviceFacts) -> Seq<DeliveryView>
        decreases self.remaining(),
    {
        if self.stage == InquiryStage::Finished {
            seq![]
        } else {
            let reply = self.reply_of(facts);
            let rest = self.answered(reply).all_reports(facts);
            match self.reports(reply) {
                Some(report) => seq![report] + rest,
                None => rest,
            }
        }
    }
}

/// The questions put to a device that appeared.
#[derive(Debug)]
pub struct DeviceInquiry {
    address: Address,
    stage: InquiryStage,
}

impl View for DeviceInquiry {
    type V = InquiryView;

    closed spec fn view(&self) -> InquiryView {
        InquiryView { address: self.address, stage: self.stage }
    }
}

impl DeviceInquiry {
    /// Starts the inquiry of the device at `address`.
    pub fn new(address: Address) -> (inquiry: DeviceInquiry)
        ensures
            inquiry@ == InquiryView::start(address),
            inquiry@.address == address,
            inquiry@.stage is Opening,
    {
        DeviceInquiry { address, stage: InquiryStage::Opening }
    }

    /// Returns the device.
    pub fn address(&self) -> (address: Address)
        ensures
            address == self@.address,
    {
        self.address
    }

    /// Returns the call to make next.
    pub fn stage(&self) -> (stage: InquiryStage)
        ensures
            stage == self@.stage,
    {
        self.stage
    }

    /// Takes the answer to the outstanding call and returns what to report.
    pub fn answer(&mut self, reply: &DeviceReply) -> (report: Option<Delivery>)
        ensures
            final(self)@ == old(self)@.answered(*reply),
            match report {
                Some(delivery) => old(self)@.reports(*reply) == Some(delivery@),
                None => old(self)@.reports(*reply) is None,
            },
            final(self)@.address == old(self)@.address,
            match old(self)@.stage {
                InquiryStage::Opening => {
                    &&& report is None
                    &&& *reply is Opened ==> final(self)@.stage is ReadingServiceData
                    &&& !(*reply is Opened) ==> final(self)@.stage is Finished
                },
                InquiryStage::ReadingServiceData => {
                    &&& final(self)@.stage is ReadingUuids
                    &&& match *reply {
                        DeviceReply::ServiceData(map) => {
                            &&& report is Some <==> map@.contains_key(SERVICE_UUID)
                            &&& report matches Some(d) ==> d.data@ == map@[SERVICE_UUID]@
                                && d.source@ == old(self)@.address.text()
                        },
                        _ => report is None,
                    }
                },
                InquiryStage::ReadingUuids => {
                    &&& final(self)@.stage is Finished
                    &&& match *reply {
                        DeviceReply::Uuids(listed) => {
                            &&& report is Some <==> listed@.contains(SERVICE_UUID)
                            &&& report matches Some(d) ==> d.data@ == seq![0xFEu8, 0xFE]
                                && d.source@ == "DISCOVERED:"@ + old(self)@.address.text()
                        },
                        _ => report is None,
                    }
                },
                InquiryStage::Finished => report is None && final(self)@.stage is Finished,
            },
    {
        match self.stage {
            InquiryStage::Opening => {
                self.stage = match reply {
                    DeviceReply::Opened => InquiryStage::ReadingServiceData,
                    _ => InquiryStage::Finished,
                };
                None
            },
            InquiryStage::ReadingServiceData => {
                self.stage = InquiryStage::ReadingUuids;
                match reply.service_data() {
                    Some(data) => Some(Delivery::received(data, &self.address)),
                    None => None,
                }
            },
            InquiryStage::ReadingUuids => {
                self.stage = InquiryStage::Finished;
                if reply.has_service() {
                    Some(Delivery::discovered(&self.address))
                } else {
                    None
                }
            },
            InquiryStage::Finished => None,
        }
    }
}

/// Every answer brings an inquiry nearer to its end, so it takes at most three.
pub proof fn inquiry_answers_make_progress(inquiry: InquiryView, reply: DeviceReply)
    requires
        inquiry.stage != InquiryStage::Finished,
    ensures
        inquiry.answered(reply).remaining() < inquiry.remaining() <= 3,
        inquiry.answered(reply).address == inquiry.address,
{
}

/// An inquiry asks for the device object first, and if there is one, for the service data and
/// then for the UUIDs, whatever the service data was. It stays with its device and ends there.
pub proof fn inquiry_asks_in_order(
    address: Address,
    opening: DeviceReply,
    service_data: DeviceReply,
    uuids: DeviceReply,
    more: DeviceReply,
)
    ensures
        ({
            let first = InquiryView::start(address);
            let second = first.answered(opening);
            let third = second.answered(service_data);
            let fourth = third.answered(uuids);
            &&& first.address == address && second.address == address
            &&& third.address == address && fourth.address == address
            &&& first.stage is Opening
            &&& first.reports(opening) is None
            &&& opening is Opened ==> second.stage is ReadingServiceData
                && third.stage is ReadingUuids && fourth.stage is Finished
            &&& !(opening is Opened) ==> second.stage is Finished && third.stage is Finished
                && fourth.stage is Finished && second.reports(service_data) is None
                && third.reports(uuids) is None
            &&& fourth.reports(more) is None
            &&& fourth.answered(more) == fourth
        }),
{
}

/// Of an opened device, service data is reported exactly if there is an entry under the mesh
/// service, and then the whole entry under the device's address.
pub proof fn inquiry_reports_the_service_entry(
    inquiry: InquiryView,
    map: HashMap<u128, Vec<u8>>,
    other: DeviceReply,
)
    requires
        inquiry.stage is ReadingServiceData,
    ensures
        inquiry.reports(DeviceReply::ServiceData(map)) is Some <==> map@.contains_key(SERVICE_UUID),
        inquiry.reports(DeviceReply::ServiceData(map)) matches Some(d) ==> d.data
            == map@[SERVICE_UUID]@ && d.source == inquiry.address.text(),
        !(other is ServiceData) ==> inquiry.reports(other) is None,
{
}

/// Of an opened device, the discovery is reported exactly if the mesh service is among its
/// UUIDs, whatever else is among them.
pub proof fn inquiry_reports_discovery_by_membership(
    inquiry: InquiryView,
    listed: HashSet<u128>,
    other: DeviceReply,
)
    requires
        inquiry.stage is ReadingUuids,
    ensures
        inquiry.reports(DeviceReply::Uuids(listed)) is Some <==> listed@.contains(SERVICE_UUID),
        inquiry.reports(DeviceReply::Uuids(listed)) matches Some(d) ==> d.data
            == seq![0xFEu8, 0xFE] && d.source == "DISCOVERED:"@ + inquiry.address.text(),
        !(other is Uuids) ==> inquiry.reports(other) is None,
{
}

/// Over a whole inquiry of a device that opens, the discovery notice is among the reports
/// exactly if the mesh service is among the UUIDs, and the service data exactly if there is
/// an entry for it; of a device that does not open, nothing is reported.
pub proof fn inquiry_shows_what_the_device_has(
    address: Address,
    facts: DeviceFacts,
    listed: HashSet<u128>,
    map: HashMap<u128, Vec<u8>>,
)
    requires
        facts.uuids == DeviceReply::Uuids(listed),
        facts.service_data == DeviceReply::ServiceData(map),
    ensures
        ({
            let reports = InquiryView::start(address).all_reports(facts);
            let notice = DeliveryView {
                data: seq![0xFEu8, 0xFE],
                source: "DISCOVERED:"@ + address.text(),
            };
            let data = DeliveryView { data: map@[SERVICE_UUID]@, source: address.text() };
            &&& facts.opens ==> (reports.contains(notice) <==> listed@.contains(SERVICE_UUID))
            &&& facts.opens ==> (reports.contains(data) <==> map@.contains_key(SERVICE_UUID))
            &&& !facts.opens ==> reports.len() == 0
            &&& reports.len() <= 2
        }),
{
    let reports = InquiryView::start(address).all_reports(facts);
    inquiry_reports_data_then_discovery(address, facts);
    delivery_kinds_are_distinct(map@[SERVICE_UUID]@, address, address, address);
    if facts.opens {
        if map@.contains_key(SERVICE_UUID) {
            assert(reports[0] == received(map@[SERVICE_UUID]@, address));
        }
        if listed@.contains(SERVICE_UUID) {
            assert(reports.last() == discovered(address));
        }
    }
}

/// Of a device that can be opened, the service data of the mesh is reported first and its
/// discovery second, each exactly if the device has it to show; of any other, nothing.
pub proof fn inquiry_reports_data_then_discovery(address: Address, facts: DeviceFacts)
    ensures
        InquiryView::start(address).all_reports(facts) == (if !facts.opens {
            Seq::<DeliveryView>::empty()
        } else {
            (match facts.service_data.service_bytes() {
                Some(data) => seq![received(data, address)],
                None => Seq::<DeliveryView>::empty(),
            }) + (if facts.uuids.lists_service() {
                seq![discovered(address)]
            } else {
                Seq::<DeliveryView>::empty()
            })
        }),
{
    reveal_with_fuel(InquiryView::all_reports, 4);
}

} // verus!
