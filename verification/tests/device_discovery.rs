use bitchat_mesh::address::Address;
use bitchat_mesh::device::DeviceReply;
use bitchat_mesh::error::Error;
use bitchat_mesh::manager::BluetoothConnectionManager;
use bitchat_mesh::monitor::{AdapterEvent, EventResponse, InquiryStage};
use bitchat_mesh::protocol::{Delivery, SERVICE_UUID};
use bitchat_mesh::scan::{DeviceScan, ScanRequest};
use bitchat_mesh::setup::SetupStep;
use std::collections::{HashMap, HashSet};

type Manager = BluetoothConnectionManager<u32, u32, u32, u32>;

fn manager() -> Manager {
    BluetoothConnectionManager::new(&SetupStep::Ready).unwrap()
}

fn device(last: u8) -> Address {
    Address([0, 0, 0, 0, 0, last])
}

fn uuids(list: &[u128]) -> DeviceReply {
    DeviceReply::Uuids(list.iter().copied().collect::<HashSet<u128>>())
}

fn service_data(uuid: u128, data: &[u8]) -> DeviceReply {
    let mut entries = HashMap::new();
    entries.insert(uuid, data.to_vec());
    DeviceReply::ServiceData(entries)
}

/// What the device with this number answers; the others do not open.
fn uuids_of(address: Address) -> DeviceReply {
    match address.0[5] {
        1 => uuids(&[1, SERVICE_UUID]),
        2 | 3 => uuids(&[1]),
        4 => DeviceReply::NoUuids,
        5 | 6 | 7 => DeviceReply::Failed,
        _ => uuids(&[SERVICE_UUID]),
    }
}

fn service_data_of(address: Address) -> DeviceReply {
    match address.0[5] {
        3 | 4 | 5 => service_data(SERVICE_UUID, &[9]),
        6 => service_data(1, &[9]),
        _ => DeviceReply::NoServiceData,
    }
}

fn finish(mut scan: DeviceScan) -> (Vec<Address>, Vec<ScanRequest>) {
    let mut asked = Vec::new();
    loop {
        let request = scan.request();
        let reply = match &request {
            ScanRequest::OpenDevice(a) if a.0[5] < 8 => DeviceReply::Opened,
            ScanRequest::OpenDevice(_) => DeviceReply::Failed,
            ScanRequest::ReadUuids(a) => uuids_of(*a),
            ScanRequest::ReadServiceData(a) => service_data_of(*a),
            ScanRequest::Finished => return (scan.into_found(), asked),
        };
        asked.push(request);
        scan.answer(&reply);
    }
}

fn all() -> Vec<Address> {
    (1..9).map(device).collect()
}

#[test]
fn uuids_decide_before_service_data() {
    let scan = manager().get_discovered_devices(Ok(all())).unwrap();
    let (found, asked) = finish(scan);
    assert_eq!(found, vec![device(1), device(5)]);
    assert!(asked.contains(&ScanRequest::ReadServiceData(device(5))));
    assert!(!asked.contains(&ScanRequest::ReadServiceData(device(3))));
    assert!(!asked.contains(&ScanRequest::ReadUuids(device(8))));
}

#[test]
fn peers_show_either_evidence() {
    let (found, asked) = finish(manager().get_connected_addresses(Ok(all())));
    assert_eq!(found, vec![device(1), device(3), device(4), device(5)]);
    assert!(asked.len() <= 24);
}

#[test]
fn scan_keeps_the_order_of_the_listing() {
    let listing = vec![device(5), device(2), device(1)];
    let (found, asked) = finish(manager().get_discovered_devices(Ok(listing)).unwrap());
    assert_eq!(found, vec![device(5), device(1)]);
    assert_eq!(
        asked,
        vec![
            ScanRequest::OpenDevice(device(5)),
            ScanRequest::ReadUuids(device(5)),
            ScanRequest::ReadServiceData(device(5)),
            ScanRequest::OpenDevice(device(2)),
            ScanRequest::ReadUuids(device(2)),
            ScanRequest::OpenDevice(device(1)),
            ScanRequest::ReadUuids(device(1)),
        ]
    );
}

#[test]
fn failed_listing_is_an_error_or_no_peers() {
    let m = manager();
    match m.get_discovered_devices(Err("off".to_string())) {
        Err(error) => assert_eq!(
            error,
            Error::Bluetooth("Failed to get device addresses: off".to_string())
        ),
        Ok(_) => panic!("a failed listing was scanned"),
    }
    let scan = m.get_connected_addresses(Err("off".to_string()));
    assert_eq!(scan.request(), ScanRequest::Finished);
    assert_eq!(scan.into_found(), vec![]);
}

#[test]
fn wrong_answer_counts_as_failure() {
    let mut scan = manager().get_discovered_devices(Ok(vec![device(1)])).unwrap();
    scan.answer(&uuids(&[SERVICE_UUID]));
    assert_eq!(scan.request(), ScanRequest::Finished);
    scan.answer(&DeviceReply::Opened);
    assert_eq!(scan.into_found(), vec![]);
}

#[test]
fn discovery_start_failure_is_reported() {
    let m = manager();
    assert_eq!(m.start_device_discovery_monitor(Ok(17)), Ok(17));
    assert_eq!(
        m.start_device_discovery_monitor::<u8>(Err("busy".to_string())),
        Err(Error::Bluetooth("Failed to start device discovery: busy".to_string()))
    );
}

fn inquire(m: &Manager, replies: &[DeviceReply]) -> (Vec<Delivery>, InquiryStage) {
    let mut inquiry = match m.adapter_event(AdapterEvent::DeviceAdded(device(1))) {
        EventResponse::Inquire(inquiry) => inquiry,
        other => panic!("no inquiry but {:?}", other),
    };
    assert_eq!(inquiry.address(), device(1));
    let mut delivered = Vec::new();
    for reply in replies {
        if let Some(delivery) = m.device_answered(&mut inquiry, reply) {
            delivered.push(delivery);
        }
    }
    (delivered, inquiry.stage())
}

#[test]
fn new_device_reports_data_then_discovery() {
    let mut m = manager();
    m.set_data_handler(1);
    let (delivered, stage) = inquire(
        &m,
        &[
            DeviceReply::Opened,
            service_data(SERVICE_UUID, &[4, 2]),
            uuids(&[SERVICE_UUID]),
        ],
    );
    assert_eq!(stage, InquiryStage::Finished);
    assert_eq!(
        delivered,
        vec![
            Delivery { data: vec![4, 2], source: "00:00:00:00:00:01".to_string() },
            Delivery {
                data: vec![0xFE, 0xFE],
                source: "DISCOVERED:00:00:00:00:00:01".to_string()
            },
        ]
    );
}

#[test]
fn uuids_are_read_even_without_service_data() {
    let mut m = manager();
    m.set_data_handler(1);
    let (_, stage) = inquire(&m, &[DeviceReply::Opened]);
    assert_eq!(stage, InquiryStage::ReadingServiceData);
    let (delivered, stage) = inquire(&m, &[DeviceReply::Opened, DeviceReply::Failed]);
    assert_eq!(delivered, vec![]);
    assert_eq!(stage, InquiryStage::ReadingUuids);
    let (delivered, _) =
        inquire(&m, &[DeviceReply::Opened, DeviceReply::Failed, uuids(&[SERVICE_UUID])]);
    assert_eq!(delivered.len(), 1);
    assert_eq!(delivered[0].data, vec![0xFE, 0xFE]);
}

#[test]
fn foreign_device_is_passed_over() {
    let mut m = manager();
    m.set_data_handler(1);
    let (delivered, _) =
        inquire(&m, &[DeviceReply::Opened, service_data(1, &[4]), uuids(&[1])]);
    assert_eq!(delivered, vec![]);
    let (delivered, stage) = inquire(&m, &[DeviceReply::Failed]);
    assert_eq!(delivered, vec![]);
    assert_eq!(stage, InquiryStage::Finished);
}

#[test]
fn nothing_is_delivered_without_handler() {
    let m = manager();
    let (delivered, _) = inquire(
        &m,
        &[
            DeviceReply::Opened,
            service_data(SERVICE_UUID, &[4]),
            uuids(&[SERVICE_UUID]),
        ],
    );
    assert_eq!(delivered, vec![]);
    assert!(matches!(
        m.adapter_event(AdapterEvent::DeviceRemoved(device(1))),
        EventResponse::Ignore
    ));
}

#[test]
fn removed_device_is_reported() {
    let mut m = manager();
    m.set_data_handler(1);
    match m.adapter_event(AdapterEvent::DeviceRemoved(device(0xAB))) {
        EventResponse::Deliver(delivery) => assert_eq!(
            delivery,
            Delivery {
                data: vec![0xFD, 0xFD],
                source: "REMOVED:00:00:00:00:00:AB".to_string()
            }
        ),
        other => panic!("no notice but {:?}", other),
    }
    assert!(matches!(m.adapter_event(AdapterEvent::Other), EventResponse::Ignore));
}

#[test]
fn delivery_sources_tell_kinds_and_devices_apart() {
    let a = device(1);
    let b = device(2);
    let sources = vec![
        Delivery::received(vec![0xFE, 0xFE], &a).source,
        Delivery::received(vec![0xFE, 0xFE], &b).source,
        Delivery::discovered(&a).source,
        Delivery::discovered(&b).source,
        Delivery::removed(&a).source,
        Delivery::removed(&b).source,
    ];
    for (i, first) in sources.iter().enumerate() {
        for (j, second) in sources.iter().enumerate() {
            assert_eq!(first == second, i == j);
        }
    }
}
