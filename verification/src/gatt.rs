//! The GATT application that the node serves.
use crate::protocol::{CHARACTERISTIC_UUID, SERVICE_UUID};
use vstd::prelude::*;

verus! {

/// How a characteristic may be written.
#[derive(Debug, Clone, Copy, PartialEq, Eq, Structural)]
pub struct WriteAccess {
    pub write: bool,
    pub write_without_response: bool,
}

/// How a characteristic notifies its subscribers.
#[derive(Debug, Clone, Copy, PartialEq, Eq, Structural)]
pub struct NotifyAccess {
    pub notify: bool,
}

/// A characteristic of a service.
#[derive(Debug, Clone, Copy, PartialEq, Eq)]
pub struct Characteristic {
    pub uuid: u128,
    pub write: Option<WriteAccess>,
    pub notify: Option<NotifyAccess>,
    /// Whether access is authorized by the application.
    pub authorize: bool,
}

/// A service of an application.
#[derive(Debug, PartialEq, Eq)]
pub struct Service {
    pub uuid: u128,
    pub primary: bool,
    pub characteristics: Vec<Characteristic>,
}

/// A GATT application.
#[derive(Debug, PartialEq, Eq)]
pub struct Application {
    pub services: Vec<Service>,
}

/// The mesh characteristic. Writes need no response and access is authorized by the
/// application, so that nothing makes the stack demand pairing.
pub open spec fn mesh_characteristic() -> Characteristic {
    Characteristic {
        uuid: CHARACTERISTIC_UUID,
        write: Some(WriteAccess { write: false, write_without_response: true }),
        notify: Some(NotifyAccess { notify: true }),
        authorize: true,
    }
}

impl Application {
    /// Whether this serves the mesh service, as a primary one and with the mesh
    /// characteristic alone, and nothing else.
    pub open spec fn is_mesh_application(&self) -> bool {
        &&& self.services@.len() == 1
        &&& self.services@[0].uuid == SERVICE_UUID
        &&& self.services@[0].primary
        &&& self.services@[0].characteristics@ == seq![mesh_characteristic()]
    }

    /// Builds the mesh application.
    pub fn mesh() -> (application: Application)
        ensures
            application.is_mesh_application(),
            application.services@.len() == 1,
            application.services@[0].uuid == SERVICE_UUID,
            application.services@[0].primary,
            application.services@[0].characteristics@.len() == 1,
            application.services@[0].characteristics@[0] == mesh_characteristic(),
    {
        let characteristic = Characteristic {
            uuid: CHARACTERISTIC_UUID,
            write: Some(WriteAccess { write: false, write_without_response: true }),
            notify: Some(NotifyAccess { notify: true }),
            authorize: true,
        };
        let characteristics: Vec<Characteristic> = vec![characteristic];
        assert(characteristics@ =~= seq![mesh_characteristic()]);
        let service = Service { uuid: SERVICE_UUID, primary: true, characteristics };
        Application { services: vec![service] }
    }
}

/// The mesh characteristic takes writes without response only, notifies its subscribers and
/// leaves the authorization of every access to the application.
pub proof fn mesh_characteristic_needs_no_pairing()
    ensures
        mesh_characteristic().uuid == CHARACTERISTIC_UUID,
        mesh_characteristic().write matches Some(access) && !access.write
            && access.write_without_response,
        mesh_characteristic().notify matches Some(access) && access.notify,
        mesh_characteristic().authorize,
{
}

/// The mesh application is one primary service with one characteristic, those of the mesh.
pub proof fn mesh_application_serves_the_mesh(application: Application)
    ensures
        application.is_mesh_application() <==> {
            let services = application.services@;
            &&& services.len() == 1
            &&& services[0].uuid == SERVICE_UUID
            &&& services[0].primary
            &&& services[0].characteristics@.len() == 1
            &&& services[0].characteristics@[0] == mesh_characteristic()
        },
{
    if application.services@.len() == 1 && application.services@[0].characteristics@.len() == 1
        && application.services@[0].characteristics@[0] == mesh_characteristic() {
        assert(application.services@[0].characteristics@ =~= seq![mesh_characteristic()]);
    }
}

} // verus!
