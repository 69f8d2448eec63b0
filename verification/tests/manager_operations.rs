use bitchat_mesh::address::Address;
use bitchat_mesh::advertising::{Advertisement, DiscoveryFilter, DATA_ADVERTISEMENT_MILLIS};
use bitchat_mesh::error::Error;
use bitchat_mesh::gatt::{Application, Characteristic, NotifyAccess, Service, WriteAccess};
use bitchat_mesh::manager::{BluetoothConnectionManager, DisconnectStep, ScanStep};
use bitchat_mesh::protocol::{Delivery, CHARACTERISTIC_UUID, SERVICE_UUID};
use bitchat_mesh::setup::SetupStep;

type Manager = BluetoothConnectionManager<u32, u32, &'static str, u8>;

const ALICE: Address = Address([0x0A, 0x1B, 0x2C, 0x3D, 0x4E, 0x5F]);
const BOB: Address = Address([0xFF, 0xEE, 0xDD, 0xCC, 0xBB, 0xAA]);

fn manager() -> Manager {
    BluetoothConnectionManager::new(&SetupStep::Ready).unwrap()
}

fn fail<T>() -> Result<T, String> {
    Err("org.bluez.Error.Failed".to_string())
}

fn bluetooth(text: &str) -> Error {
    Error::Bluetooth(text.to_string())
}

fn disconnect(manager: &mut Manager, address: &Address, outcomes: [bool; 2]) -> DisconnectStep {
    let first = manager.disconnect_from_device(address);
    let second = manager.continue_disconnecting(first, outcomes[0]);
    manager.continue_disconnecting(second, outcomes[1])
}

#[test]
fn address_text_is_colon_hexadecimal() {
    assert_eq!(ALICE.to_text(), "0A:1B:2C:3D:4E:5F");
    assert_eq!(BOB.to_text(), "FF:EE:DD:CC:BB:AA");
    assert_eq!(Address([0; 6]).to_text(), "00:00:00:00:00:00");
    assert_eq!(ALICE.to_text(), bluer::Address(ALICE.0).to_string());
}

#[test]
fn addresses_compare_by_octets() {
    assert_eq!(ALICE, Address([0x0A, 0x1B, 0x2C, 0x3D, 0x4E, 0x5F]));
    let mut octets = ALICE.0;
    for i in 0..6 {
        octets[i] ^= 1;
        assert_ne!(ALICE, Address(octets));
        octets[i] ^= 1;
    }
}

#[test]
fn new_needs_a_finished_setup() {
    let early: Option<Manager> = BluetoothConnectionManager::new(&SetupStep::SetPowered(true));
    assert!(early.is_none());
    let m = manager();
    assert!(!m.is_scanning());
    assert!(!m.has_subscribed_centrals());
    assert_eq!(m.get_active_peer_count(), 0);
    assert!(m.data_handler().is_none());
}

#[test]
fn beacon_names_service_without_discoverability() {
    let ad: Advertisement = manager().start_advertising();
    assert_eq!(ad.service_uuids, vec![0xF47B5E2D_4A9E_4C5A_9B3F_8E1D2C3A4B5C]);
    assert!(ad.service_data.is_empty());
    assert_eq!(ad.discoverable, Some(false));
    assert_eq!(ad.local_name.as_deref(), Some("BitChat"));
}

#[test]
fn advertising_is_kept_until_stopped() {
    let mut m = manager();
    assert_eq!(m.advertising_started(Ok(1)), Ok(()));
    assert_eq!(m.advertising_started(Ok(2)), Ok(()));
    assert_eq!(m.stop_advertising(), Some(2));
    assert_eq!(m.stop_advertising(), None);
}

#[test]
fn failed_advertising_keeps_the_old_one() {
    let mut m = manager();
    assert_eq!(m.advertising_started(Ok(1)), Ok(()));
    assert_eq!(
        m.advertising_started(fail()),
        Err(bluetooth("Failed to start advertising: org.bluez.Error.Failed"))
    );
    assert_eq!(m.stop_advertising(), Some(1));
}

#[test]
fn data_advertisement_replaces_the_beacon() {
    let mut m = manager();
    assert_eq!(m.advertising_started(Ok(1)), Ok(()));
    let (withdrawn, ad) = m.send_data_via_advertisement(&[7, 8, 9]);
    assert_eq!(withdrawn, Some(1));
    assert_eq!(ad.service_uuids, vec![SERVICE_UUID]);
    assert_eq!(ad.service_data.len(), 1);
    assert_eq!(ad.service_data.get(&SERVICE_UUID), Some(&vec![7, 8, 9]));
    assert_eq!(ad.discoverable, Some(false));
    assert_eq!(ad.local_name.as_deref(), Some("BitChat"));
    assert_eq!(m.data_advertising_started(Ok(2)), Ok(100));
    assert_eq!(DATA_ADVERTISEMENT_MILLIS, 100);
    assert_eq!(m.stop_advertising(), Some(2));
}

#[test]
fn failed_data_advertisement_leaves_silence() {
    let mut m = manager();
    assert_eq!(m.advertising_started(Ok(1)), Ok(()));
    let (withdrawn, _) = m.send_data_via_advertisement(&[]);
    assert_eq!(withdrawn, Some(1));
    assert_eq!(
        m.data_advertising_started(fail()),
        Err(bluetooth("Failed to start data advertising: org.bluez.Error.Failed"))
    );
    assert_eq!(m.stop_advertising(), None);
}

#[test]
fn gatt_application_avoids_pairing() {
    let expected = Application {
        services: vec![Service {
            uuid: SERVICE_UUID,
            primary: true,
            characteristics: vec![Characteristic {
                uuid: 0xA1B2C3D4_E5F6_4A5B_8C9D_0E1F2A3B4C5D,
                write: Some(WriteAccess { write: false, write_without_response: true }),
                notify: Some(NotifyAccess { notify: true }),
                authorize: true,
            }],
        }],
    };
    assert_eq!(CHARACTERISTIC_UUID, 0xA1B2C3D4_E5F6_4A5B_8C9D_0E1F2A3B4C5D);
    assert_eq!(manager().start_gatt_server(), expected);
}

#[test]
fn gatt_server_starts_and_stops() {
    let mut m = manager();
    assert_eq!(
        m.gatt_server_started(fail()),
        Err(bluetooth("Failed to serve GATT application: org.bluez.Error.Failed"))
    );
    assert_eq!(m.stop_gatt_server(), None);
    assert_eq!(m.gatt_server_started(Ok(5)), Ok(()));
    assert_eq!(m.stop_gatt_server(), Some(5));
    assert_eq!(m.stop_gatt_server(), None);
}

#[test]
fn written_values_reach_the_handler() {
    let mut m = manager();
    assert_eq!(m.characteristic_written(vec![1], ALICE), None);
    m.set_data_handler("first");
    m.set_data_handler("second");
    assert_eq!(m.data_handler(), Some(&"second"));
    assert_eq!(
        m.characteristic_written(vec![1, 2], ALICE),
        Some(Delivery { data: vec![1, 2], source: "0A:1B:2C:3D:4E:5F".to_string() })
    );
}

#[test]
fn writing_centrals_are_counted_once() {
    let mut m = manager();
    m.characteristic_written(vec![], ALICE);
    m.characteristic_written(vec![], ALICE);
    assert!(m.has_subscribed_centrals());
    assert_eq!(m.get_subscribed_centrals_count(), 1);
    m.characteristic_written(vec![], BOB);
    assert_eq!(m.get_subscribed_centrals_count(), 2);
    assert_eq!(m.get_active_peer_count(), 2);
}

#[test]
fn disconnecting_forgets_whatever_the_device_says() {
    for outcomes in [[true, true], [true, false], [false, true], [false, false]] {
        let mut m = manager();
        m.characteristic_written(vec![], ALICE);
        m.characteristic_written(vec![], BOB);
        assert_eq!(disconnect(&mut m, &ALICE, outcomes), DisconnectStep::Disconnected);
        assert_eq!(m.get_subscribed_centrals_count(), 1);
        assert_eq!(disconnect(&mut m, &ALICE, outcomes), DisconnectStep::Disconnected);
        assert_eq!(m.get_subscribed_centrals_count(), 1);
        assert_eq!(disconnect(&mut m, &BOB, outcomes), DisconnectStep::Disconnected);
        assert!(!m.has_subscribed_centrals());
    }
}

#[test]
fn only_an_open_device_is_told_to_disconnect() {
    let mut m = manager();
    m.characteristic_written(vec![], ALICE);
    let first = m.disconnect_from_device(&ALICE);
    assert_eq!(first, DisconnectStep::OpenDevice(ALICE));
    assert_eq!(m.continue_disconnecting(first, true), DisconnectStep::Disconnect(ALICE));
    assert_eq!(m.get_subscribed_centrals_count(), 1);
    assert_eq!(m.continue_disconnecting(first, false), DisconnectStep::Disconnected);
    assert_eq!(m.get_subscribed_centrals_count(), 0);
}

#[test]
fn scanning_starts_after_filter_and_power() {
    let mut m = manager();
    let first = m.start_scanning();
    assert_eq!(first, ScanStep::SetFilter(DiscoveryFilter { uuids: vec![SERVICE_UUID] }));
    let second = m.continue_scanning(first, Ok(())).unwrap();
    assert_eq!(second, ScanStep::SetPowered(true));
    assert!(!m.is_scanning());
    assert_eq!(m.continue_scanning(second, Ok(())), Ok(ScanStep::Started));
    assert!(m.is_scanning());
    assert_eq!(m.start_scanning(), ScanStep::Started);
    assert_eq!(m.continue_scanning(ScanStep::Started, fail()), Ok(ScanStep::Started));
    assert_eq!(m.stop_scanning(), Ok(()));
    assert!(!m.is_scanning());
    assert_eq!(m.stop_scanning(), Ok(()));
}

#[test]
fn scanning_stays_off_on_failure() {
    let mut m = manager();
    let first = m.start_scanning();
    assert_eq!(
        m.continue_scanning(first, fail()),
        Err(bluetooth("Failed to set discovery filter: org.bluez.Error.Failed"))
    );
    assert_eq!(
        m.continue_scanning(ScanStep::SetPowered(true), fail()),
        Err(bluetooth("Failed to power on: org.bluez.Error.Failed"))
    );
    assert!(!m.is_scanning());
}

#[test]
fn notifications_go_to_the_latest_session() {
    let mut m = manager();
    assert_eq!(m.send_notification(&[1]), None);
    assert_eq!(m.notification_sent(None), Ok(()));
    m.notification_session_started(3);
    m.notification_session_started(4);
    assert_eq!(m.send_notification(&[1, 2]), Some((&4, vec![1, 2])));
    assert_eq!(m.send_data(&ALICE, &[1, 2]), m.send_data(&BOB, &[1, 2]));
    assert_eq!(m.send_data(&ALICE, &[5]), Some((&4, vec![5])));
    assert_eq!(m.notification_sent(Some(Ok(()))), Ok(()));
    assert_eq!(
        m.notification_sent(Some(fail())),
        Err(bluetooth("Failed to send notification: org.bluez.Error.Failed"))
    );
}

#[test]
fn every_peer_is_active() {
    let mut m = manager();
    assert!(m.is_peer_active(&ALICE));
    m.characteristic_written(vec![], ALICE);
    assert!(m.is_peer_active(&ALICE));
    assert!(m.is_peer_active(&BOB));
}

#[test]
fn discovery_notice_carries_the_marker() {
    let mut m = manager();
    assert_eq!(m.process_discovered_device(BOB), None);
    m.set_data_handler("handler");
    assert_eq!(
        m.process_discovered_device(BOB),
        Some(Delivery {
            data: vec![0xFE, 0xFE],
            source: "DISCOVERED:FF:EE:DD:CC:BB:AA".to_string()
        })
    );
}

#[test]
fn error_message_is_its_text() {
    assert_eq!(Error::bluetooth("a: ", "b").message(), "a: b");
}
