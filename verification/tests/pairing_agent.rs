use bitchat_mesh::agent::{AgentRequest, AgentStep};
use bitchat_mesh::agent::{AGENT_INTERFACE, AGENT_MANAGER_INTERFACE, AGENT_PATH};
use bitchat_mesh::agent::{CALL_TIMEOUT_SECS, DAEMON_NAME, DAEMON_PATH};
use bitchat_mesh::agent::{REGISTER_AGENT, REQUEST_DEFAULT_AGENT};
use bitchat_mesh::manager::BluetoothConnectionManager;
use bitchat_mesh::setup::SetupStep;

#[test]
fn agent_refuses_what_asks_for_consent() {
    let refused = Err("Rejected by BitChat agent");
    assert_eq!(AgentRequest::RequestPinCode.reply(), refused);
    assert_eq!(AgentRequest::RequestPasskey.reply(), refused);
    assert_eq!(AgentRequest::RequestConfirmation.reply(), refused);
    assert_eq!(AgentRequest::AuthorizeService.reply(), refused);
    assert_eq!(AgentRequest::Release.reply(), Ok(()));
    assert_eq!(AgentRequest::DisplayPinCode.reply(), Ok(()));
    assert_eq!(AgentRequest::DisplayPasskey.reply(), Ok(()));
    assert_eq!(AgentRequest::Cancel.reply(), Ok(()));
}

#[test]
fn agent_methods_have_their_signatures() {
    let table: Vec<(&str, Vec<&str>, Vec<&str>)> = AgentRequest::exported()
        .into_iter()
        .map(|request| (request.member(), request.inputs(), request.outputs()))
        .collect();
    assert_eq!(
        table,
        vec![
            ("Release", vec![], vec![]),
            ("RequestPinCode", vec!["device"], vec!["pin"]),
            ("DisplayPinCode", vec!["device", "pincode"], vec![]),
            ("RequestPasskey", vec!["device"], vec!["passkey"]),
            ("DisplayPasskey", vec!["device", "passkey", "entered"], vec![]),
            ("RequestConfirmation", vec!["device", "passkey"], vec![]),
            ("AuthorizeService", vec!["device", "uuid"], vec![]),
            ("Cancel", vec![], vec![]),
        ]
    );
}

#[test]
fn agent_serves_whatever_the_daemon_answers() {
    let manager: BluetoothConnectionManager<u8, u8, u8, u8> =
        BluetoothConnectionManager::new(&SetupStep::Ready).unwrap();
    for accepted in [true, false] {
        let connect = manager.reject_pairing_requests();
        assert_eq!(connect, AgentStep::Connect);
        let export = connect.advance(true);
        assert_eq!(export, AgentStep::Export("/org/bluez/bitchat/agent", "org.bluez.Agent1"));
        let register = export.advance(accepted);
        assert_eq!(
            register,
            AgentStep::RegisterAgent("/org/bluez/bitchat/agent", "NoInputNoOutput")
        );
        let default = register.advance(accepted);
        assert_eq!(default, AgentStep::RequestDefaultAgent("/org/bluez/bitchat/agent"));
        let serve = default.advance(accepted);
        assert_eq!(serve, AgentStep::Serve);
        assert_eq!(serve.advance(accepted), AgentStep::Stopped);
    }
    assert_eq!(AgentStep::Connect.advance(false), AgentStep::Stopped);
    assert_eq!(AgentStep::Stopped.advance(true), AgentStep::Stopped);
}

#[test]
fn agent_names_are_those_of_the_daemon() {
    assert_eq!(AGENT_INTERFACE, "org.bluez.Agent1");
    assert_eq!(AGENT_MANAGER_INTERFACE, "org.bluez.AgentManager1");
    assert_eq!(DAEMON_NAME, "org.bluez");
    assert_eq!(DAEMON_PATH, "/org/bluez");
    assert_eq!(REGISTER_AGENT, "RegisterAgent");
    assert_eq!(REQUEST_DEFAULT_AGENT, "RequestDefaultAgent");
    assert_eq!(CALL_TIMEOUT_SECS, 5);
    assert!(dbus::Path::new(AGENT_PATH).is_ok());
}
