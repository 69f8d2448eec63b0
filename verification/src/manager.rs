//! The connection manager: its state, and what each event and each outcome does to it.
use crate::address::Address;
use crate::advertising::{Advertisement, DiscoveryFilter, DATA_ADVERTISEMENT_MILLIS};
use crate::agent::AgentStep;
use crate::centrals::{excluding, including, CentralList};
use crate::device::{DeviceFacts, DeviceReply};
use crate::error::Error;
use crate::gatt::{Application, Characteristic, NotifyAccess, WriteAccess};
use crate::monitor::{AdapterEvent, DeviceInquiry, EventResponse, InquiryStage, InquiryView};
use crate::protocol::{discovered, received, removed};
use crate::protocol::{Delivery, DeliveryView, CHARACTERISTIC_UUID, SERVICE_UUID};
use crate::scan::{DeviceScan, ScanView, SelectionRule};
use crate::setup::{SetupStep, SetupView};
use vstd::prelude::*;

verus! {

/// The state of the connection manager.
pub struct ManagerView<A, S, H, N> {
    /// Whether scanning was started and not stopped since.
    pub scanning: bool,
    /// The handle that keeps the current advertisement up.
    pub advertisement: Option<A>,
    /// The handle that keeps the GATT server up.
    pub server: Option<S>,
    /// The handler that data and notices are delivered to.
    pub handler: Option<H>,
    /// The notifier of the latest notification session.
    pub notifier: Option<N>,
    /// The centrals that have written to this node, in the order of their first write.
    pub centrals: Seq<Address>,
}

impl<A, S, H, N> ManagerView<A, S, H, N> {
    /// A manager that does nothing yet.
    pub open spec fn initial() -> Self {
        ManagerView {
            scanning: false,
            advertisement: None,
            server: None,
            handler: None,
            notifier: None,
            centrals: seq![],
        }
    }

    /// No central is tracked twice.
    pub open spec fn well_formed(self) -> bool {
        self.centrals.no_duplicates()
    }

    /// What the handler gets of a delivery: nothing, where there is no handler.
    pub open spec fn delivers(self, delivery: DeliveryView) -> Option<DeliveryView> {
        if self.handler is Some {
            Some(delivery)
        } else {
            None
        }
    }

    /// The state once the central at `address` has written.
    pub open spec fn written_by(self, address: Address) -> Self {
        ManagerView { centrals: including(self.centrals, address), ..self }
    }

    /// The state with this advertisement in the place of any other.
    pub open spec fn advertising(self, handle: A) -> Self {
        ManagerView { advertisement: Some(handle), ..self }
    }

    /// The state without an advertisement.
    pub open spec fn silent(self) -> Self {
        ManagerView { advertisement: None, ..self }
    }

    /// The state with this GATT server in the place of any other.
    pub open spec fn serving(self, handle: S) -> Self {
        ManagerView { server: Some(handle), ..self }
    }

    /// The state without a GATT server.
    pub open spec fn unserved(self) -> Self {
        ManagerView { server: None, ..self }
    }

    /// The first step of starting to scan.
    pub open spec fn first_scan_step(self) -> ScanStepView {
        if self.scanning {
            ScanStepView::Started
        } else {
            ScanStepView::SetFilter(seq![SERVICE_UUID])
        }
    }

    /// The state after a step of starting to scan, and the step after it or the message
    /// with which starting fails. Scanning is on once the filter is set and the adapter is
    /// powered.
    pub open spec fn after_scan_step(
        self,
        step: ScanStepView,
        outcome: Result<(), Seq<char>>,
    ) -> (Self, Result<ScanStepView, Seq<char>>) {
        match step {
            ScanStepView::SetFilter(_) => match outcome {
                Ok(_) => (self, Ok(ScanStepView::SetPowered(true))),
                Err(cause) => (self, Err("Failed to set discovery filter: "@ + cause)),
            },
            ScanStepView::SetPowered(_) => match outcome {
                Ok(_) => (ManagerView { scanning: true, ..self }, Ok(ScanStepView::Started)),
                Err(cause) => (self, Err("Failed to power on: "@ + cause)),
            },
            ScanStepView::Started => (self, Ok(ScanStepView::Started)),
        }
    }

    /// The state after a step of disconnecting.
    pub open spec fn after_disconnect_step(self, step: DisconnectStep, succeeded: bool) -> Self {
        match step.forgets(succeeded) {
            Some(address) => self.forgetting(address),
            None => self,
        }
    }

    /// What the handler gets until an inquiry ends, where the device answers by its facts.
    pub open spec fn inquiry_deliveries(
        self,
        inquiry: InquiryView,
        facts: DeviceFacts,
    ) -> Seq<DeliveryView>
        decreases inquiry.remaining(),
    {
        if inquiry.stage == InquiryStage::Finished {
            seq![]
        } else {
            let reply = inquiry.reply_of(facts);
            let rest = self.inquiry_deliveries(inquiry.answered(reply), facts);
            match self.delivers_report(inquiry.reports(reply)) {
                Some(delivery) => seq![delivery] + rest,
                None => rest,
            }
        }
    }

    /// What the handler gets of an event of the adapter, where the device concerned answers
    /// by its facts.
    pub open spec fn event_deliveries(
        self,
        event: AdapterEvent,
        facts: DeviceFacts,
    ) -> Seq<DeliveryView> {
        match event {
            AdapterEvent::DeviceAdded(address) => self.inquiry_deliveries(
                InquiryView::start(address),
                facts,
            ),
            AdapterEvent::DeviceRemoved(address) => match self.delivers(removed(address)) {
                Some(notice) => seq![notice],
                None => seq![],
            },
            AdapterEvent::Other => seq![],
        }
    }

    /// What the handler gets of a stream of events, each with the facts of its device.
    pub open spec fn stream_deliveries(
        self,
        events: Seq<(AdapterEvent, DeviceFacts)>,
    ) -> Seq<DeliveryView>
        decreases events.len(),
    {
        if events.len() == 0 {
            seq![]
        } else {
            self.stream_deliveries(events.drop_last()) + self.event_deliveries(
                events.last().0,
                events.last().1,
            )
        }
    }

    /// What the handler gets of an optional report.
    pub open spec fn delivers_report(self, report: Option<DeliveryView>) -> Option<DeliveryView> {
        match report {
            Some(delivery) => self.delivers(delivery),
            None => None,
        }
    }

    /// The state without the central at `address`.
    pub open spec fn forgetting(self, address: Address) -> Self {
        ManagerView { centrals: excluding(self.centrals, address), ..self }
    }
}

/// The content of an optional delivery.
pub open spec fn delivery_view(delivery: Option<Delivery>) -> Option<DeliveryView> {
    match delivery {
        Some(d) => Some(d@),
        None => None,
    }
}

/// The content of the outcome of a call.
pub open spec fn outcome_view(outcome: Result<(), String>) -> Result<(), Seq<char>> {
    match outcome {
        Ok(_) => Ok(()),
        Err(cause) => Err(cause@),
    }
}

/// The content of the result of a step of starting to scan.
pub open spec fn scan_result_view(result: Result<ScanStep, Error>) -> Result<
    ScanStepView,
    Seq<char>,
> {
    match result {
        Ok(step) => Ok(step@),
        Err(error) => Err(error@),
    }
}

/// The manager of a node's connectionless Bluetooth traffic. The handles of an
/// advertisement (`A`), of the GATT server (`S`) and of a notification session (`N`) and
/// the data handler (`H`) are the platform's; the manager keeps them and says when they
/// are used.
#[derive(Debug)]
pub struct BluetoothConnectionManager<A, S, H, N> {
    is_scanning: bool,
    adv_handle: Option<A>,
    app_handle: Option<S>,
    data_handler: Option<H>,
    notifier: Option<N>,
    subscribed_centrals: CentralList,
}

impl<A, S, H, N> View for BluetoothConnectionManager<A, S, H, N> {
    type V = ManagerView<A, S, H, N>;

    closed spec fn view(&self) -> ManagerView<A, S, H, N> {
        ManagerView {
            scanning: self.is_scanning,
            advertisement: self.adv_handle,
            server: self.app_handle,
            handler: self.data_handler,
            notifier: self.notifier,
            centrals: self.subscribed_centrals@,
        }
    }
}

impl<A, S, H, N> BluetoothConnectionManager<A, S, H, N> {
    /// Creates the manager of an adapter that was brought up.
    pub fn new(setup: &SetupStep) -> (manager: Option<Self>)
        ensures
            manager is Some <==> setup@ == SetupView::Ready,
            manager is Some <==> *setup is Ready,
            manager matches Some(m) ==> m@ == ManagerView::<A, S, H, N>::initial(),
            manager matches Some(m) ==> !m@.scanning && m@.advertisement is None
                && m@.server is None && m@.handler is None && m@.notifier is None
                && m@.centrals.len() == 0,
    {
        match setup {
            SetupStep::Ready => Some(
                BluetoothConnectionManager {
                    is_scanning: false,
                    adv_handle: None,
                    app_handle: None,
                    data_handler: None,
                    notifier: None,
                    subscribed_centrals: CentralList::new(),
                },
            ),
            _ => None,
        }
    }

    /// Sets the handler that data and notices are delivered to.
    pub fn set_data_handler(&mut self, handler: H)
        ensures
            final(self)@ == (ManagerView { handler: Some(handler), ..old(self)@ }),
    {
        self.data_handler = Some(handler);
    }

    /// Returns the handler that data and notices are delivered to.
    pub fn data_handler(&self) -> (handler: Option<&H>)
        ensures
            handler == (match self@.handler {
                Some(h) => Some(&h),
                None => None,
            }),
    {
        self.data_handler.as_ref()
    }

    /// Hands out a delivery, if there is a handler for it.
    fn deliver(&self, delivery: Delivery) -> (handed: Option<Delivery>)
        ensures
            delivery_view(handed) == self@.delivers(delivery@),
            handed is Some <==> self@.handler is Some,
            handed matches Some(d) ==> d == delivery,
    {
        if self.data_handler.is_some() {
            Some(delivery)
        } else {
            None
        }
    }

    /// Returns the advertisement to put up.
    pub fn start_advertising(&self) -> (advertisement: Advertisement)
        ensures
            advertisement.is_beacon(),
            advertisement.service_uuids@ == seq![SERVICE_UUID],
            advertisement.service_data@ == Map::<u128, Vec<u8>>::empty(),
            advertisement.discoverable == Some(false),
            advertisement.local_name matches Some(label) && label@ == "BitChat"@,
    {
        Advertisement::beacon()
    }

    /// Takes the outcome of putting up the advertisement. A new advertisement takes the
    /// place of the old one; a failure leaves the old one up.
    pub fn advertising_started(&mut self, outcome: Result<A, String>) -> (result: Result<
        (),
        Error,
    >)
        ensures
            match outcome {
                Ok(handle) => result is Ok && final(self)@ == old(self)@.advertising(handle),
                Err(cause) => {
                    &&& result matches Err(error)
                    &&& error@ == "Failed to start advertising: "@ + cause@
                    &&& final(self)@ == old(self)@
                },
            },
            outcome matches Ok(handle) ==> final(self)@ == (ManagerView {
                advertisement: Some(handle),
                ..old(self)@
            }),
    {
        match outcome {
            Ok(handle) => {
                self.adv_handle = Some(handle);
                Ok(())
            },
            Err(cause) => Err(Error::bluetooth("Failed to start advertising: ", cause.as_str())),
        }
    }

    /// Gives up the handle of the current advertisement, which ends it when dropped.
    pub fn stop_advertising(&mut self) -> (handle: Option<A>)
        ensures
            handle == old(self)@.advertisement,
            final(self)@ == old(self)@.silent(),
            final(self)@ == (ManagerView { advertisement: None, ..old(self)@ }),
    {
        self.adv_handle.take()
    }

    /// Withdraws the current advertisement and returns its handle with the advertisement
    /// that carries `data`, to be put up in its place.
    pub fn send_data_via_advertisement(&mut self, data: &[u8]) -> (request: (
        Option<A>,
        Advertisement,
    ))
        ensures
            request.0 == old(self)@.advertisement,
            request.1.carries(data@),
            request.1.service_uuids@ == seq![SERVICE_UUID],
            request.1.service_data@.dom() == set![SERVICE_UUID],
            request.1.service_data@[SERVICE_UUID]@ == data@,
            request.1.discoverable == Some(false),
            request.1.local_name matches Some(label) && label@ == "BitChat"@,
            final(self)@ == old(self)@.silent(),
            final(self)@ == (ManagerView { advertisement: None, ..old(self)@ }),
    {
        let withdrawn = self.stop_advertising();
        (withdrawn, Advertisement::carrying(data))
    }

    /// Takes the outcome of putting up a data advertisement and returns for how many
    /// milliseconds to keep it up before going on, so that it is received.
    pub fn data_advertising_started(&mut self, outcome: Result<A, String>) -> (result: Result<
        u64,
        Error,
    >)
        ensures
            match outcome {
                Ok(handle) => {
                    &&& result matches Ok(millis)
                    &&& millis == DATA_ADVERTISEMENT_MILLIS
                    &&& final(self)@ == old(self)@.advertising(handle)
                },
                Err(cause) => {
                    &&& result matches Err(error)
                    &&& error@ == "Failed to start data advertising: "@ + cause@
                    &&& final(self)@ == old(self)@
                },
            },
            outcome matches Ok(handle) ==> final(self)@ == (ManagerView {
                advertisement: Some(handle),
                ..old(self)@
            }),
            result matches Ok(millis) ==> millis == 100,
    {
        match outcome {
            Ok(handle) => {
                self.adv_handle = Some(handle);
                Ok(DATA_ADVERTISEMENT_MILLIS)
            },
            Err(cause) => Err(
                Error::bluetooth("Failed to start data advertising: ", cause.as_str()),
            ),
        }
    }

    /// Returns the GATT application to serve.
    pub fn start_gatt_server(&self) -> (application: Application)
        ensures
            application.is_mesh_application(),
            application.services@.len() == 1,
            application.services@[0].uuid == SERVICE_UUID,
            application.services@[0].primary,
            application.services@[0].characteristics@.len() == 1,
            application.services@[0].characteristics@[0] == (Characteristic {
                uuid: CHARACTERISTIC_UUID,
                write: Some(WriteAccess { write: false, write_without_response: true }),
                notify: Some(NotifyAccess { notify: true }),
                authorize: true,
            }),
    {
        Application::mesh()
    }

    /// Takes the outcome of serving the GATT application.
    pub fn gatt_server_started(&mut self, outcome: Result<S, String>) -> (result: Result<
        (),
        Error,
    >)
        ensures
            match outcome {
                Ok(handle) => result is Ok && final(self)@ == old(self)@.serving(handle),
                Err(cause) => {
                    &&& result matches Err(error)
                    &&& error@ == "Failed to serve GATT application: "@ + cause@
                    &&& final(self)@ == old(self)@
                },
            },
            outcome matches Ok(handle) ==> final(self)@ == (ManagerView {
                server: Some(handle),
                ..old(self)@
            }),
    {
        match outcome {
            Ok(handle) => {
                self.app_handle = Some(handle);
                Ok(())
            },
            Err(cause) => Err(
                Error::bluetooth("Failed to serve GATT application: ", cause.as_str()),
            ),
        }
    }

    /// Gives up the handle of the GATT server, which ends it when dropped.
    pub fn stop_gatt_server(&mut self) -> (handle: Option<S>)
        ensures
            handle == old(self)@.server,
            final(self)@ == old(self)@.unserved(),
            final(self)@ == (ManagerView { server: None, ..old(self)@ }),
    {
        self.app_handle.take()
    }

    /// Takes a value that the central at `from` wrote to the mesh characteristic: the
    /// central is tracked from now on, and the value goes to the handler.
    pub fn characteristic_written(&mut self, value: Vec<u8>, from: Address) -> (delivery: Option<
        Delivery,
    >)
        ensures
            final(self)@ == old(self)@.written_by(from),
            final(self)@.well_formed(),
            delivery_view(delivery) == old(self)@.delivers(received(value@, from)),
            old(self)@.centrals.contains(from) ==> final(self)@ == old(self)@,
            !old(self)@.centrals.contains(from) ==> final(self)@ == (ManagerView {
                centrals: old(self)@.centrals.push(from),
                ..old(self)@
            }),
            final(self)@.centrals.no_duplicates(),
            delivery is Some <==> old(self)@.handler is Some,
            delivery matches Some(d) ==> d.data@ == value@ && d.source@ == from.text(),
    {
        self.subscribed_centrals.insert(from);
        self.deliver(Delivery::received(value, &from))
    }

    /// Takes the notifier of a notification session that a central started.
    pub fn notification_session_started(&mut self, notifier: N)
        ensures
            final(self)@ == (ManagerView { notifier: Some(notifier), ..old(self)@ }),
    {
        self.notifier = Some(notifier);
    }

    /// Returns the first step of starting to scan: none, where scanning is on.
    pub fn start_scanning(&self) -> (step: ScanStep)
        ensures
            step@ == self@.first_scan_step(),
            self@.scanning ==> step is Started,
            !self@.scanning ==> (step matches ScanStep::SetFilter(filter) && filter.uuids@
                == seq![SERVICE_UUID]),
    {
        if self.is_scanning {
            ScanStep::Started
        } else {
            ScanStep::SetFilter(DiscoveryFilter::mesh())
        }
    }

    /// Takes the outcome of a step of starting to scan and returns the step after it.
    /// Scanning is on once the filter is set and the adapter is powered.
    pub fn continue_scanning(&mut self, step: ScanStep, outcome: Result<(), String>) -> (next:
        Result<ScanStep, Error>)
        ensures
            (final(self)@, scan_result_view(next)) == old(self)@.after_scan_step(
                step@,
                outcome_view(outcome),
            ),
            match (step, outcome) {
                (ScanStep::SetFilter(_), Ok(_)) => {
                    &&& next matches Ok(ScanStep::SetPowered(on)) && on
                    &&& final(self)@ == old(self)@
                },
                (ScanStep::SetFilter(_), Err(cause)) => {
                    &&& next matches Err(Error::Bluetooth(text)) && text@
                        == "Failed to set discovery filter: "@ + cause@
                    &&& final(self)@ == old(self)@
                },
                (ScanStep::SetPowered(_), Ok(_)) => {
                    &&& next matches Ok(ScanStep::Started)
                    &&& final(self)@ == (ManagerView { scanning: true, ..old(self)@ })
                },
                (ScanStep::SetPowered(_), Err(cause)) => {
                    &&& next matches Err(Error::Bluetooth(text)) && text@ == "Failed to power on: "@
                        + cause@
                    &&& final(self)@ == old(self)@
                },
                (ScanStep::Started, _) => {
                    &&& next matches Ok(ScanStep::Started)
                    &&& final(self)@ == old(self)@
                },
            },
    {
        match step {
            ScanStep::SetFilter(_) => match outcome {
                Ok(_) => Ok(ScanStep::SetPowered(true)),
                Err(cause) => Err(
                    Error::bluetooth("Failed to set discovery filter: ", cause.as_str()),
                ),
            },
            ScanStep::SetPowered(_) => match outcome {
                Ok(_) => {
                    self.is_scanning = true;
                    Ok(ScanStep::Started)
                },
                Err(cause) => Err(Error::bluetooth("Failed to power on: ", cause.as_str())),
            },
            ScanStep::Started => Ok(ScanStep::Started),
        }
    }

    /// Stops scanning.
    pub fn stop_scanning(&mut self) -> (result: Result<(), Error>)
        ensures
            result is Ok,
            final(self)@ == (ManagerView { scanning: false, ..old(self)@ }),
    {
        self.is_scanning = false;
        Ok(())
    }

    /// Tells whether scanning is on.
    pub fn is_scanning(&self) -> (scanning: bool)
        ensures
            scanning == self@.scanning,
    {
        self.is_scanning
    }

    /// Returns the notice of a mesh device that appeared. In connectionless operation the
    /// device is not connected to.
    pub fn process_discovered_device(&self, address: Address) -> (delivery: Option<Delivery>)
        ensures
            delivery_view(delivery) == self@.delivers(discovered(address)),
            delivery is Some <==> self@.handler is Some,
            delivery matches Some(d) ==> d.data@ == seq![0xFEu8, 0xFE] && d.source@
                == "DISCOVERED:"@ + address.text(),
    {
        self.deliver(Delivery::discovered(&address))
    }

    /// Returns what to send `data` with: a notification to all subscribed centrals, whatever
    /// the address.
    pub fn send_data(&self, _address: &Address, data: &[u8]) -> (notification: Option<
        (&N, Vec<u8>),
    >)
        ensures
            notification is Some <==> self@.notifier is Some,
            notification matches Some(n) ==> self@.notifier == Some(*n.0) && n.1@ == data@,
    {
        self.send_notification(data)
    }

    /// Returns the notifier to use and the value to send, or nothing where no central has
    /// ever subscribed.
    pub fn send_notification(&self, data: &[u8]) -> (notification: Option<(&N, Vec<u8>)>)
        ensures
            notification is Some <==> self@.notifier is Some,
            notification matches Some(n) ==> self@.notifier == Some(*n.0) && n.1@ == data@,
    {
        match &self.notifier {
            Some(notifier) => Some((notifier, vstd::slice::slice_to_vec(data))),
            None => None,
        }
    }

    /// Takes the outcome of a notification: `None` where none was sent, which is no error.
    pub fn notification_sent(&self, outcome: Option<Result<(), String>>) -> (result: Result<
        (),
        Error,
    >)
        ensures
            match outcome {
                Some(Err(cause)) => result matches Err(error) && error@
                    == "Failed to send notification: "@ + cause@,
                _ => result is Ok,
            },
    {
        match outcome {
            Some(Err(cause)) => Err(
                Error::bluetooth("Failed to send notification: ", cause.as_str()),
            ),
            _ => Ok(()),
        }
    }

    /// Takes the addresses that the adapter knows and returns the scan that picks the mesh
    /// devices among them. The UUIDs that a device advertises decide; only where they
    /// cannot be read its service data does.
    pub fn get_discovered_devices(&self, listing: Result<Vec<Address>, String>) -> (scan: Result<
        DeviceScan,
        Error,
    >)
        ensures
            match listing {
                Ok(addresses) => scan matches Ok(s) && s@ == ScanView::start(
                    SelectionRule::UuidsFirst,
                    addresses@,
                ),
                Err(cause) => scan matches Err(error) && error@
                    == "Failed to get device addresses: "@ + cause@,
            },
            listing matches Ok(addresses) ==> (scan matches Ok(s) && s@.rule is UuidsFirst
                && s@.addresses == addresses@ && s@.position == 0 && s@.stage is Opening
                && s@.found.len() == 0),
    {
        match listing {
            Ok(addresses) => Ok(DeviceScan::new(SelectionRule::UuidsFirst, addresses)),
            Err(cause) => Err(
                Error::bluetooth("Failed to get device addresses: ", cause.as_str()),
            ),
        }
    }

    /// Takes the addresses that the adapter knows and returns the scan that picks those
    /// that look like peers: devices that advertise the mesh service or contain service
    /// data for it. Without a listing there are none.
    pub fn get_connected_addresses(&self, listing: Result<Vec<Address>, String>) -> (scan:
        DeviceScan)
        ensures
            scan@ == ScanView::start(
                SelectionRule::AnyEvidence,
                match listing {
                    Ok(addresses) => addresses@,
                    Err(_) => seq![],
                },
            ),
            scan@.rule is AnyEvidence,
            listing matches Ok(addresses) ==> scan@.addresses == addresses@,
            listing is Err ==> scan@.addresses.len() == 0,
            scan@.position == 0,
            scan@.stage is Opening,
            scan@.found.len() == 0,
    {
        match listing {
            Ok(addresses) => DeviceScan::new(SelectionRule::AnyEvidence, addresses),
            Err(_) => DeviceScan::new(SelectionRule::AnyEvidence, Vec::new()),
        }
    }

    /// The number of peers that take part: the tracked centrals, each counted once.
    pub fn get_active_peer_count(&self) -> (count: usize)
        ensures
            count == self@.centrals.len(),
            self@.well_formed(),
    {
        self.subscribed_centrals.len()
    }

    /// Every peer counts as active in connectionless operation.
    pub fn is_peer_active(&self, _address: &Address) -> (active: bool)
        ensures
            active,
    {
        true
    }

    /// Tells whether any central is tracked.
    pub fn has_subscribed_centrals(&self) -> (some: bool)
        ensures
            some <==> self@.centrals.len() > 0,
    {
        !self.subscribed_centrals.is_empty()
    }

    /// The number of tracked centrals, each counted once.
    pub fn get_subscribed_centrals_count(&self) -> (count: usize)
        ensures
            count == self@.centrals.len(),
            self@.well_formed(),
    {
        self.subscribed_centrals.len()
    }

    /// Takes the outcome of starting the discovery of devices and returns the stream of
    /// events to hand to [`Self::adapter_event`].
    pub fn start_device_discovery_monitor<E>(&self, outcome: Result<E, String>) -> (events: Result<
        E,
        Error,
    >)
        ensures
            match outcome {
                Ok(stream) => events matches Ok(e) && e == stream,
                Err(cause) => events matches Err(error) && error@
                    == "Failed to start device discovery: "@ + cause@,
            },
    {
        match outcome {
            Ok(stream) => Ok(stream),
            Err(cause) => Err(
                Error::bluetooth("Failed to start device discovery: ", cause.as_str()),
            ),
        }
    }

    /// Responds to an event of the adapter: a device that appeared is asked about itself,
    /// and of one that disappeared the handler gets a notice.
    pub fn adapter_event(&self, event: AdapterEvent) -> (response: EventResponse)
        ensures
            match event {
                AdapterEvent::DeviceAdded(address) => response matches EventResponse::Inquire(
                    inquiry,
                ) && inquiry@ == InquiryView::start(address),
                AdapterEvent::DeviceRemoved(address) => match self@.delivers(removed(address)) {
                    Some(notice) => response matches EventResponse::Deliver(d) && d@ == notice,
                    None => response is Ignore,
                },
                AdapterEvent::Other => response is Ignore,
            },
            match event {
                AdapterEvent::DeviceAdded(address) => response matches EventResponse::Inquire(
                    inquiry,
                ) && inquiry@.address == address && inquiry@.stage is Opening,
                AdapterEvent::DeviceRemoved(address) => {
                    &&& self@.handler is None ==> response is Ignore
                    &&& self@.handler is Some ==> (response matches EventResponse::Deliver(d)
                        && d.data@ == seq![0xFDu8, 0xFD] && d.source@ == "REMOVED:"@
                        + address.text())
                },
                AdapterEvent::Other => response is Ignore,
            },
    {
        match event {
            AdapterEvent::DeviceAdded(address) => EventResponse::Inquire(
                DeviceInquiry::new(address),
            ),
            AdapterEvent::DeviceRemoved(address) => match self.deliver(
                Delivery::removed(&address),
            ) {
                Some(delivery) => EventResponse::Deliver(delivery),
                None => EventResponse::Ignore,
            },
            AdapterEvent::Other => EventResponse::Ignore,
        }
    }

    /// Takes what a device that appeared answered to the outstanding call of its inquiry.
    /// Service data of the mesh goes to the handler, and so does the notice of a device
    /// that advertises the mesh service.
    pub fn device_answered(&self, inquiry: &mut DeviceInquiry, reply: &DeviceReply) -> (delivery:
        Option<Delivery>)
        ensures
            final(inquiry)@ == old(inquiry)@.answered(*reply),
            delivery_view(delivery) == self@.delivers_report(old(inquiry)@.reports(*reply)),
            final(inquiry)@.address == old(inquiry)@.address,
            self@.handler is None ==> delivery is None,
            match old(inquiry)@.stage {
                InquiryStage::Opening => {
                    &&& delivery is None
                    &&& *reply is Opened ==> final(inquiry)@.stage is ReadingServiceData
                    &&& !(*reply is Opened) ==> final(inquiry)@.stage is Finished
                },
                InquiryStage::ReadingServiceData => {
                    &&& final(inquiry)@.stage is ReadingUuids
                    &&& match *reply {
                        DeviceReply::ServiceData(map) => {
                            &&& delivery is Some <==> map@.contains_key(SERVICE_UUID)
                                && self@.handler is Some
                            &&& delivery matches Some(d) ==> d.data@ == map@[SERVICE_UUID]@
                                && d.source@ == old(inquiry)@.address.text()
                        },
                        _ => delivery is None,
                    }
                },
                InquiryStage::ReadingUuids => {
                    &&& final(inquiry)@.stage is Finished
                    &&& match *reply {
                        DeviceReply::Uuids(listed) => {
                            &&& delivery is Some <==> listed@.contains(SERVICE_UUID)
                                && self@.handler is Some
                            &&& delivery matches Some(d) ==> d.data@ == seq![0xFEu8, 0xFE]
                                && d.source@ == "DISCOVERED:"@ + old(inquiry)@.address.text()
                        },
                        _ => delivery is None,
                    }
                },
                InquiryStage::Finished => delivery is None && final(inquiry)@.stage is Finished,
            },
    {
        match inquiry.answer(reply) {
            Some(delivery) => self.deliver(delivery),
            None => None,
        }
    }

    /// Returns the first step of pairing rejection: connecting the agent that turns pairing
    /// requests down.
    pub fn reject_pairing_requests(&self) -> (step: AgentStep)
        ensures
            step == AgentStep::Connect,
    {
        AgentStep::Connect
    }

    /// Returns the first step of disconnecting the peer at `address`.
    pub fn disconnect_from_device(&self, address: &Address) -> (step: DisconnectStep)
        ensures
            step == DisconnectStep::OpenDevice(*address),
    {
        DisconnectStep::OpenDevice(*address)
    }

    /// Takes whether the call of a step of disconnecting succeeded and returns the step
    /// after it. Where there is a device object it is told to disconnect; whether or not
    /// it does, the peer is tracked no longer.
    pub fn continue_disconnecting(&mut self, step: DisconnectStep, succeeded: bool) -> (next:
        DisconnectStep)
        ensures
            next == step.next(succeeded),
            final(self)@ == old(self)@.after_disconnect_step(step, succeeded),
            match step {
                DisconnectStep::OpenDevice(address) => if succeeded {
                    next == DisconnectStep::Disconnect(address) && final(self)@ == old(self)@
                } else {
                    next is Disconnected && final(self)@ == (ManagerView {
                        centrals: excluding(old(self)@.centrals, address),
                        ..old(self)@
                    })
                },
                DisconnectStep::Disconnect(address) => {
                    next is Disconnected && final(self)@ == (ManagerView {
                        centrals: excluding(old(self)@.centrals, address),
                        ..old(self)@
                    })
                },
                DisconnectStep::Disconnected => next is Disconnected && final(self)@ == old(self)@,
            },
            old(self)@.well_formed() ==> final(self)@.well_formed(),
    {
        match step {
            DisconnectStep::OpenDevice(address) => {
                if succeeded {
                    DisconnectStep::Disconnect(address)
                } else {
                    self.subscribed_centrals.remove(&address);
                    DisconnectStep::Disconnected
                }
            },
            DisconnectStep::Disconnect(address) => {
                self.subscribed_centrals.remove(&address);
                DisconnectStep::Disconnected
            },
            DisconnectStep::Disconnected => DisconnectStep::Disconnected,
        }
    }
}

/// A step of starting to scan.
#[derive(Debug, PartialEq, Eq)]
pub enum ScanStep {
    /// Set the filter of the discovery.
    SetFilter(DiscoveryFilter),
    /// Switch the adapter on or off.
    SetPowered(bool),
    /// Nothing: scanning is on.
    Started,
}

/// The mathematical content of a [`ScanStep`].
pub enum ScanStepView {
    SetFilter(Seq<u128>),
    SetPowered(bool),
    Started,
}

impl View for ScanStep {
    type V = ScanStepView;

    open spec fn view(&self) -> ScanStepView {
        match self {
            ScanStep::SetFilter(filter) => ScanStepView::SetFilter(filter.uuids@),
            ScanStep::SetPowered(on) => ScanStepView::SetPowered(*on),
            ScanStep::Started => ScanStepView::Started,
        }
    }
}

/// A step of disconnecting a peer.
#[derive(Debug, Clone, Copy, PartialEq, Eq)]
pub enum DisconnectStep {
    /// Get a device object for this address.
    OpenDevice(Address),
    /// Tell this device to disconnect.
    Disconnect(Address),
    /// Nothing: the peer is tracked no longer.
    Disconnected,
}

impl DisconnectStep {
    /// The step after this one.
    pub open spec fn next(self, succeeded: bool) -> DisconnectStep {
        match self {
            DisconnectStep::OpenDevice(address) => if succeeded {
                DisconnectStep::Disconnect(address)
            } else {
                DisconnectStep::Disconnected
            },
            DisconnectStep::Disconnect(_) => DisconnectStep::Disconnected,
            DisconnectStep::Disconnected => DisconnectStep::Disconnected,
        }
    }

    /// The central that is tracked no longer after this step.
    pub open spec fn forgets(self, succeeded: bool) -> Option<Address> {
        match self {
            DisconnectStep::OpenDevice(address) => if succeeded {
                None
            } else {
                Some(address)
            },
            DisconnectStep::Disconnect(address) => Some(address),
            DisconnectStep::Disconnected => None,
        }
    }
}

} // verus!
