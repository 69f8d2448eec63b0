//! What holds of the connection manager across its operations.
use crate::address::{address_text_is_injective, Address};
use crate::advertising::DiscoveryFilter;
use crate::centrals::{excluding, excluding_goes_entry_by_entry, excluding_keeps_others};
use crate::centrals::{including, including_adds_only_the_address};
use crate::device::{DeviceFacts, DeviceReply};
use crate::error::Error;
use crate::manager::{delivery_view, outcome_view, scan_result_view};
use crate::manager::{DisconnectStep, ManagerView, ScanStep, ScanStepView};
use crate::monitor::{AdapterEvent, InquiryView};
use crate::protocol::{delivery_kinds_are_distinct, discovered, received};
use crate::protocol::{Delivery, DeliveryView, SERVICE_UUID};
use std::collections::HashMap;
use std::collections::HashSet;
use vstd::prelude::*;

verus! {

/// No operation ever makes the manager track a central twice.
pub proof fn centrals_stay_distinct<A, S, H, N>(
    manager: ManagerView<A, S, H, N>,
    address: Address,
    step: DisconnectStep,
    succeeded: bool,
    scan_step: ScanStepView,
    outcome: Result<(), Seq<char>>,
    advertisement: A,
    server: S,
    handler: H,
    notifier: N,
)
    requires
        manager.well_formed(),
    ensures
        ManagerView::<A, S, H, N>::initial().well_formed(),
        manager.written_by(address).well_formed(),
        manager.after_disconnect_step(step, succeeded).well_formed(),
        manager.after_scan_step(scan_step, outcome).0.well_formed(),
        (ManagerView { scanning: false, ..manager }).well_formed(),
        manager.advertising(advertisement).well_formed(),
        manager.silent().well_formed(),
        manager.serving(server).well_formed(),
        manager.unserved().well_formed(),
        (ManagerView { handler: Some(handler), ..manager }).well_formed(),
        (ManagerView { notifier: Some(notifier), ..manager }).well_formed(),
{
    if let Some(forgotten) = step.forgets(succeeded) {
        excluding_keeps_others(manager.centrals, forgotten);
    }
}

/// Being well formed means that no two places of the list hold the same central.
pub proof fn well_formed_means_distinct<A, S, H, N>(manager: ManagerView<A, S, H, N>)
    ensures
        manager.well_formed() <==> forall|i: int, j: int|
            0 <= i < j < manager.centrals.len() ==> manager.centrals[i] != manager.centrals[j],
{
}

/// A central that wrote is tracked, the list grows by one at most, and those that came
/// before it keep their places. Writing again changes nothing.
pub proof fn writing_tracks_the_central<A, S, H, N>(
    manager: ManagerView<A, S, H, N>,
    address: Address,
)
    ensures
        manager.written_by(address).centrals.contains(address),
        manager.centrals.is_prefix_of(manager.written_by(address).centrals),
        manager.written_by(address).centrals.len() <= manager.centrals.len() + 1,
        manager.written_by(address).written_by(address) == manager.written_by(address),
{
    let after = including(manager.centrals, address);
    if !manager.centrals.contains(address) {
        assert(after.last() == address);
    }
}

/// A new manager is idle: it scans, advertises and serves nothing, has no handler and no
/// notifier, and tracks nobody.
pub proof fn manager_starts_idle<A, S, H, N>()
    ensures
        ({
            let idle = ManagerView::<A, S, H, N>::initial();
            &&& !idle.scanning
            &&& idle.advertisement is None
            &&& idle.server is None
            &&& idle.handler is None
            &&& idle.notifier is None
            &&& idle.centrals.len() == 0
        }),
{
}

/// A write of a central that is tracked leaves the whole state as it was, wherever the central
/// stands in the list. A write of any other puts it at the end of the list and changes nothing
/// else; nobody but the writer is ever added, and nobody is lost.
pub proof fn writing_adds_only_the_writer<A, S, H, N>(
    manager: ManagerView<A, S, H, N>,
    address: Address,
)
    ensures
        manager.centrals.contains(address) ==> manager.written_by(address) == manager,
        !manager.centrals.contains(address) ==> manager.written_by(address) == (ManagerView {
            centrals: manager.centrals.push(address),
            ..manager
        }),
        forall|other: Address|
            other != address ==> (#[trigger] manager.written_by(address).centrals.contains(other)
                <==> manager.centrals.contains(other)),
{
    including_adds_only_the_address(manager.centrals, address);
}

/// After any series of writes to a new manager, the tracked centrals are exactly the writers,
/// each once, so that their number is the number of different writers.
///
/// `states` are the states from the new manager on, and `writers` who wrote in between.
pub proof fn every_writer_is_counted_once<A, S, H, N>(
    states: Seq<ManagerView<A, S, H, N>>,
    writers: Seq<Address>,
)
    requires
        states.len() == writers.len() + 1,
        states[0].centrals.len() == 0,
        forall|i: int|
            0 <= i < writers.len() ==> states[i + 1] == states[i].written_by(#[trigger] writers[i]),
    ensures
        states.last().centrals.no_duplicates(),
        forall|a: Address| #[trigger]
            states.last().centrals.contains(a) <==> writers.contains(a),
        states.last().centrals.len() == writers.to_set().len(),
    decreases writers.len(),
{
    if writers.len() > 0 {
        let last = writers.len() - 1;
        let before = states.drop_last();
        let earlier = writers.drop_last();
        assert forall|i: int| 0 <= i < earlier.len() implies before[i + 1] == before[i].written_by(
            #[trigger] earlier[i],
        ) by {
            assert(writers[i] == earlier[i]);
        }
        every_writer_is_counted_once(before, earlier);
        assert(states.last() == before.last().written_by(writers[last]));
        writing_adds_only_the_writer(before.last(), writers[last]);
        writing_tracks_the_central(before.last(), writers[last]);
        assert forall|a: Address| #[trigger] states.last().centrals.contains(a)
            <==> writers.contains(a) by {
            assert(writers.contains(a) <==> earlier.contains(a) || a == writers[last]) by {
                if earlier.contains(a) {
                    let i = choose|i: int| 0 <= i < earlier.len() && earlier[i] == a;
                    assert(writers[i] == a);
                }
                if writers.contains(a) && a != writers[last] {
                    let i = choose|i: int| 0 <= i < writers.len() && writers[i] == a;
                    assert(earlier[i] == a);
                }
            }
            if a != writers[last] {
                assert(states.last().centrals.contains(a) <==> before.last().centrals.contains(a));
            }
        }
    }
    let centrals = states.last().centrals;
    assert(centrals.to_set() =~= writers.to_set());
    centrals.unique_seq_to_set();
}

/// Of a write, the handler gets every byte in order, under the text of the writer's address.
pub proof fn written_values_are_delivered_whole<A, S, H, N>(
    manager: ManagerView<A, S, H, N>,
    value: Seq<u8>,
    from: Address,
)
    requires
        manager.handler is Some,
    ensures
        manager.delivers(received(value, from)) matches Some(d) && d.data == value && d.data.len()
            == value.len() && d.source == from.text(),
{
}

/// Two deliveries of writes agree only if both the value and the writer agree.
pub proof fn deliveries_tell_writes_apart<A, S, H, N>(
    manager: ManagerView<A, S, H, N>,
    first: Seq<u8>,
    a: Address,
    second: Seq<u8>,
    b: Address,
)
    requires
        manager.handler is Some,
        manager.delivers(received(first, a)) == manager.delivers(received(second, b)),
    ensures
        first == second,
        a == b,
{
    address_text_is_injective(a, b);
}

/// Disconnecting a central takes its entry out, leaves all others in their order and touches
/// nothing but the list.
pub proof fn disconnecting_touches_one_entry<A, S, H, N>(
    manager: ManagerView<A, S, H, N>,
    address: Address,
    keep: spec_fn(Address) -> bool,
)
    requires
        forall|a: Address| #[trigger] keep(a) <==> a != address,
    ensures
        manager.forgetting(address) == (ManagerView {
            centrals: manager.centrals.filter(keep),
            ..manager
        }),
        manager.well_formed() && manager.centrals.contains(address) ==> manager.forgetting(
            address,
        ).centrals.len() == manager.centrals.len() - 1,
{
    excluding_goes_entry_by_entry(manager.centrals, address, address, keep);
    if manager.well_formed() && manager.centrals.contains(address) {
        lemma_excluding_one(manager.centrals, address);
    }
}

/// Leaving out an entry of a list without repetitions makes it one shorter.
proof fn lemma_excluding_one(centrals: Seq<Address>, address: Address)
    requires
        centrals.no_duplicates(),
        centrals.contains(address),
    ensures
        excluding(centrals, address).len() == centrals.len() - 1,
    decreases centrals.len(),
{
    reveal(Seq::filter);
    let front = centrals.drop_last();
    if centrals.last() == address {
        assert(!front.contains(address));
        lemma_excluding_absent(front, address);
    } else {
        let i = choose|i: int| 0 <= i < centrals.len() && centrals[i] == address;
        assert(front[i] == address);
        lemma_excluding_one(front, address);
    }
}

/// A central that was disconnected is not tracked, every other one stays as it was, and
/// disconnecting again changes nothing.
pub proof fn disconnecting_forgets_the_central<A, S, H, N>(
    manager: ManagerView<A, S, H, N>,
    address: Address,
)
    ensures
        !manager.forgetting(address).centrals.contains(address),
        forall|other: Address|
            other != address ==> (#[trigger] manager.forgetting(address).centrals.contains(other)
                <==> manager.centrals.contains(other)),
        manager.forgetting(address).forgetting(address) == manager.forgetting(address),
{
    excluding_keeps_others(manager.centrals, address);
    lemma_excluding_absent(manager.forgetting(address).centrals, address);
}

/// Disconnecting a central undoes its first write.
pub proof fn disconnecting_undoes_writing<A, S, H, N>(
    manager: ManagerView<A, S, H, N>,
    address: Address,
)
    requires
        !manager.centrals.contains(address),
    ensures
        manager.written_by(address).forgetting(address) == manager,
{
    let written = manager.written_by(address).centrals;
    assert(written.drop_last() =~= manager.centrals);
    reveal(Seq::filter);
    assert(excluding(written, address) == excluding(written.drop_last(), address));
    lemma_excluding_absent(manager.centrals, address);
}

/// Leaving out what is not there changes nothing.
proof fn lemma_excluding_absent(centrals: Seq<Address>, address: Address)
    requires
        !centrals.contains(address),
    ensures
        excluding(centrals, address) == centrals,
    decreases centrals.len(),
{
    reveal(Seq::filter);
    if centrals.len() > 0 {
        assert(centrals[centrals.len() - 1] != address);
        assert forall|i: int| 0 <= i < centrals.drop_last().len() implies centrals.drop_last()[i]
            != address by {
            assert(centrals[i] != address);
        }
        lemma_excluding_absent(centrals.drop_last(), address);
        assert(centrals =~= centrals.drop_last().push(centrals.last()));
    }
}

/// Disconnecting ends after at most two calls, and however they turn out, the central and
/// nothing else is forgotten. Only a device that could be opened is told to disconnect.
pub proof fn disconnecting_always_completes<A, S, H, N>(
    manager: ManagerView<A, S, H, N>,
    address: Address,
    opened: bool,
    disconnected: bool,
)
    ensures
        ({
            let first = DisconnectStep::OpenDevice(address);
            let second = first.next(opened);
            let halfway = manager.after_disconnect_step(first, opened);
            &&& (second == DisconnectStep::Disconnect(address) <==> opened)
            &&& second.next(disconnected) == DisconnectStep::Disconnected
            &&& halfway.after_disconnect_step(second, disconnected) == manager.forgetting(address)
        }),
{
}

/// Each step of disconnecting forgets the central exactly if it is the last one. Nothing is
/// forgotten before, and nothing after.
pub proof fn disconnecting_forgets_at_its_end<A, S, H, N>(
    manager: ManagerView<A, S, H, N>,
    address: Address,
    succeeded: bool,
)
    ensures
        manager.after_disconnect_step(DisconnectStep::OpenDevice(address), true) == manager,
        manager.after_disconnect_step(DisconnectStep::OpenDevice(address), false).centrals
            == excluding(manager.centrals, address),
        manager.after_disconnect_step(DisconnectStep::Disconnect(address), succeeded).centrals
            == excluding(manager.centrals, address),
        manager.after_disconnect_step(DisconnectStep::Disconnected, succeeded) == manager,
        DisconnectStep::OpenDevice(address).next(true) == DisconnectStep::Disconnect(address),
        DisconnectStep::OpenDevice(address).next(false) is Disconnected,
        DisconnectStep::Disconnect(address).next(succeeded) is Disconnected,
        DisconnectStep::Disconnected.next(succeeded) is Disconnected,
{
}

/// Whatever else its state, a manager that is not scanning starts by setting the discovery
/// filter to the mesh service and nothing else, and one that is scanning has nothing to do.
pub proof fn scanning_filters_for_the_mesh_service<A, S, H, N>(manager: ManagerView<A, S, H, N>)
    ensures
        !manager.scanning ==> (manager.first_scan_step() matches ScanStepView::SetFilter(uuids)
            && uuids.len() == 1 && uuids[0] == SERVICE_UUID),
        manager.scanning ==> manager.first_scan_step() is Started,
{
}

/// Starting to scan depends on nothing but whether scanning is on, and changes nothing else.
pub proof fn scanning_concerns_nothing_else<A, S, H, N>(
    manager: ManagerView<A, S, H, N>,
    other: ManagerView<A, S, H, N>,
    step: ScanStepView,
    outcome: Result<(), Seq<char>>,
)
    requires
        manager.scanning == other.scanning,
    ensures
        manager.first_scan_step() == other.first_scan_step(),
        manager.after_scan_step(step, outcome).1 == other.after_scan_step(step, outcome).1,
        ({
            let after = manager.after_scan_step(step, outcome).0;
            &&& after == (ManagerView { scanning: after.scanning, ..manager })
            &&& manager.scanning ==> after.scanning
            &&& !manager.scanning && after.scanning ==> step is SetPowered && outcome is Ok
        }),
{
}

/// The contents of steps, outcomes, results and deliveries are theirs alone: nothing is left
/// out of them and nothing is added.
pub proof fn contents_are_faithful(
    filter: DiscoveryFilter,
    on: bool,
    cause: String,
    step: ScanStep,
    error: Error,
    delivery: Delivery,
)
    ensures
        ScanStep::SetFilter(filter)@ == ScanStepView::SetFilter(filter.uuids@),
        ScanStep::SetPowered(on)@ == ScanStepView::SetPowered(on),
        ScanStep::Started@ == ScanStepView::Started,
        outcome_view(Ok(())) == Ok::<(), Seq<char>>(()),
        outcome_view(Err(cause)) == Err::<(), Seq<char>>(cause@),
        scan_result_view(Ok(step)) == Ok::<ScanStepView, Seq<char>>(step@),
        scan_result_view(Err(error)) == Err::<ScanStepView, Seq<char>>(error@),
        delivery_view(None) is None,
        delivery_view(Some(delivery)) matches Some(d) && d.data == delivery.data@ && d.source
            == delivery.source@,
{
}

/// Starting to scan sets the filter of the mesh service and powers the adapter, in this
/// order, and scanning is on exactly if both succeed; the first to fail gives the message.
/// Where scanning is on already, there is nothing to do.
pub proof fn scanning_starts_when_both_calls_succeed<A, S, H, N>(
    manager: ManagerView<A, S, H, N>,
    filtered: Result<(), Seq<char>>,
    powered: Result<(), Seq<char>>,
)
    ensures
        manager.scanning ==> manager.first_scan_step() == ScanStepView::Started,
        !manager.scanning ==> ({
            let (halfway, second) = manager.after_scan_step(manager.first_scan_step(), filtered);
            &&& halfway == manager
            &&& filtered is Err ==> second == Err::<ScanStepView, Seq<char>>(
                "Failed to set discovery filter: "@ + filtered->Err_0,
            )
            &&& filtered is Ok ==> {
                let (end, last) = halfway.after_scan_step(second->Ok_0, powered);
                &&& second == Ok::<ScanStepView, Seq<char>>(ScanStepView::SetPowered(true))
                &&& powered is Ok ==> last == Ok::<ScanStepView, Seq<char>>(ScanStepView::Started)
                    && end == (ManagerView { scanning: true, ..manager })
                &&& powered is Err ==> last == Err::<ScanStepView, Seq<char>>(
                    "Failed to power on: "@ + powered->Err_0,
                ) && end == manager
            }
        }),
{
}

/// Data takes the place of whatever was advertised before, and where the data cannot be
/// advertised, nothing is. Putting an advertisement up and taking it down leaves nothing
/// behind.
pub proof fn advertising_replaces_and_withdraws<A, S, H, N>(
    manager: ManagerView<A, S, H, N>,
    handle: A,
)
    ensures
        manager.silent().advertisement is None,
        manager.silent().advertising(handle) == manager.advertising(handle),
        manager.advertising(handle).silent() == manager.silent(),
        manager.advertisement is None ==> manager.advertising(handle).silent() == manager,
{
}

/// Advertising and serving each concern one handle, and nothing else of the state.
pub proof fn handles_are_kept_apart<A, S, H, N>(
    manager: ManagerView<A, S, H, N>,
    advertisement: A,
    server: S,
)
    ensures
        manager.advertising(advertisement) == (ManagerView {
            advertisement: Some(advertisement),
            ..manager
        }),
        manager.silent() == (ManagerView { advertisement: None, ..manager }),
        manager.serving(server) == (ManagerView { server: Some(server), ..manager }),
        manager.unserved() == (ManagerView { server: None, ..manager }),
{
}

/// Starting the GATT server and stopping it leaves nothing behind.
pub proof fn serving_is_undone_by_stopping<A, S, H, N>(
    manager: ManagerView<A, S, H, N>,
    handle: S,
)
    requires
        manager.server is None,
    ensures
        manager.serving(handle).server == Some(handle),
        manager.serving(handle).unserved() == manager,
{
}

/// Of a device that appears, the handler gets the service data of the mesh and then the
/// notice of its discovery, each exactly if the device has it to show. Without a handler
/// nothing is delivered.
pub proof fn handler_learns_of_devices<A, S, H, N>(
    manager: ManagerView<A, S, H, N>,
    address: Address,
    facts: DeviceFacts,
)
    ensures
        manager.inquiry_deliveries(InquiryView::start(address), facts) == (if manager.handler
            is None || !facts.opens {
            Seq::<DeliveryView>::empty()
        } else {
            (match facts.service_data.service_bytes() {
                Some(data) => seq![received(data, address)],
                None => Seq::<DeliveryView>::empty(),
            }) + (if facts.uuids.lists_service() {
                seq![discovered(address)]
            } else {
                Seq::<DeliveryView>::empty()
            })
        }),
{
    reveal_with_fuel(ManagerView::inquiry_deliveries, 4);
}

/// Of a device that appears and opens, the handler learns of the discovery exactly if the mesh
/// service is among its UUIDs, whatever else is among them, and gets its service data, whole,
/// exactly if there is an entry under the mesh service. Of a device that goes it gets the
/// notice of removal, and of other events nothing.
pub proof fn handler_gets_what_devices_show<A, S, H, N>(
    manager: ManagerView<A, S, H, N>,
    address: Address,
    facts: DeviceFacts,
    listed: HashSet<u128>,
    map: HashMap<u128, Vec<u8>>,
)
    requires
        manager.handler is Some,
        facts.opens,
        facts.uuids == DeviceReply::Uuids(listed),
        facts.service_data == DeviceReply::ServiceData(map),
    ensures
        ({
            let added = manager.event_deliveries(AdapterEvent::DeviceAdded(address), facts);
            let gone = manager.event_deliveries(AdapterEvent::DeviceRemoved(address), facts);
            let data = DeliveryView { data: map@[SERVICE_UUID]@, source: address.text() };
            let notice = DeliveryView {
                data: seq![0xFEu8, 0xFE],
                source: "DISCOVERED:"@ + address.text(),
            };
            let farewell = DeliveryView {
                data: seq![0xFDu8, 0xFD],
                source: "REMOVED:"@ + address.text(),
            };
            &&& added.contains(data) <==> map@.contains_key(SERVICE_UUID)
            &&& added.contains(notice) <==> listed@.contains(SERVICE_UUID)
            &&& map@.contains_key(SERVICE_UUID) ==> added[0] == data
            &&& added.len() <= 2
            &&& gone == seq![farewell]
            &&& manager.event_deliveries(AdapterEvent::Other, facts).len() == 0
        }),
{
    let added = manager.event_deliveries(AdapterEvent::DeviceAdded(address), facts);
    handler_learns_of_devices(manager, address, facts);
    delivery_kinds_are_distinct(map@[SERVICE_UUID]@, address, address, address);
    if map@.contains_key(SERVICE_UUID) {
        assert(added[0] == received(map@[SERVICE_UUID]@, address));
    }
    if listed@.contains(SERVICE_UUID) {
        assert(added.last() == discovered(address));
    }
}

/// Without a handler a stream of events passes in silence, and with one each event is
/// answered on its own: what came before it makes no difference.
pub proof fn events_are_handled_in_order<A, S, H, N>(
    manager: ManagerView<A, S, H, N>,
    earlier: Seq<(AdapterEvent, DeviceFacts)>,
    later: Seq<(AdapterEvent, DeviceFacts)>,
)
    ensures
        manager.stream_deliveries(earlier + later) == manager.stream_deliveries(earlier)
            + manager.stream_deliveries(later),
        manager.handler is None ==> manager.stream_deliveries(later) == Seq::<
            DeliveryView,
        >::empty(),
    decreases later.len(),
{
    if later.len() == 0 {
        assert(earlier + later =~= earlier);
    } else {
        let (event, facts) = later.last();
        events_are_handled_in_order(manager, earlier, later.drop_last());
        assert((earlier + later).drop_last() =~= earlier + later.drop_last());
        if let AdapterEvent::DeviceAdded(address) = event {
            handler_learns_of_devices(manager, address, facts);
        }
    }
}

/// Deliveries depend on the handler alone: everything is delivered as it is where there is
/// one, and nothing where there is none.
pub proof fn deliveries_need_a_handler<A, S, H, N>(
    manager: ManagerView<A, S, H, N>,
    handler: H,
    delivery: DeliveryView,
)
    ensures
        ManagerView::<A, S, H, N>::initial().delivers(delivery) is None,
        (ManagerView { handler: Some(handler), ..manager }).delivers(delivery) == Some(delivery),
        manager.delivers(delivery) is Some <==> manager.handler is Some,
        manager.delivers(delivery) matches Some(d) ==> d == delivery,
        manager.delivers_report(None) is None,
        manager.delivers_report(Some(delivery)) == manager.delivers(delivery),
{
}

} // verus!
