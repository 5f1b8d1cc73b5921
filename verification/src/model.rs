//! Records handled by the identity core: applications, devices, their stored
//! credentials and trust anchors, and the device identity used as routing key.

use vstd::prelude::*;

verus! {

/// A credential stored on a device record: a bare password, or a
/// username/password pair.
#[derive(Debug)]
pub enum StoredCredential {
    Password(String),
    UsernamePassword { username: String, password: String },
}

/// A trust anchor of an application: a root certificate (PEM bytes) together
/// with the validity window inside which it may be used, given as seconds of
/// Unix time.
#[derive(Debug)]
pub struct TrustAnchor {
    pub subject: String,
    pub certificate: Vec<u8>,
    pub not_before: i64,
    pub not_after: i64,
}

/// The "core" configuration section of an application. Absence of the section
/// means the application is enabled; a section that could not be decoded is
/// kept as `Malformed` and treated as disabled (fail closed).
#[derive(Debug)]
pub enum CoreSection {
    Absent,
    Valid { disabled: bool },
    Malformed,
}

/// A tenant-level application: devices are grouped under it, and it carries
/// the enable/disable state and the certificate trust anchors.
#[derive(Debug)]
pub struct Application {
    pub name: String,
    pub core: CoreSection,
    pub trust_anchors: Vec<TrustAnchor>,
}

/// A device record: its identifier, the owning application, its enabled flag,
/// the stored credentials presented values are matched against, and the list
/// of device identifiers allowed to publish as this device.
#[derive(Debug)]
pub struct Device {
    pub name: String,
    pub application: String,
    pub enabled: bool,
    pub credentials: Vec<StoredCredential>,
    pub gateway_selector: Vec<String>,
}

/// The identity of a device: the pair of application id and device id. It is
/// the key under which command subscriptions are routed.
#[derive(Debug)]
pub struct Id {
    pub app_id: String,
    pub device_id: String,
}

impl View for Id {
    type V = (Seq<char>, Seq<char>);

    open spec fn view(&self) -> (Seq<char>, Seq<char>) {
        (self.app_id@, self.device_id@)
    }
}

impl Clone for Id {
    fn clone(&self) -> (r: Self)
        ensures
            r == *self,
    {
        Id { app_id: self.app_id.clone(), device_id: self.device_id.clone() }
    }
}

impl Id {
    pub fn new(app_id: String, device_id: String) -> (r: Id)
        ensures
            r.app_id == app_id,
            r.device_id == device_id,
    {
        Id { app_id, device_id }
    }

    /// Whether two identities name the same device of the same application.
    pub fn same_as(&self, other: &Id) -> (r: bool)
        ensures
            r == (self@ == other@),
    {
        self.app_id == other.app_id && self.device_id == other.device_id
    }
}

/// An application is usable for authentication when its core section is
/// absent, or present, well-formed and not disabled.
pub open spec fn app_enabled(app: &Application) -> bool {
    match app.core {
        CoreSection::Absent => true,
        CoreSection::Valid { disabled } => !disabled,
        CoreSection::Malformed => false,
    }
}

/// `stripped` is `device` with its credential section removed and every other
/// field kept.
pub open spec fn is_stripped_of(stripped: Device, device: Device) -> bool {
    &&& stripped.name == device.name
    &&& stripped.application == device.application
    &&& stripped.enabled == device.enabled
    &&& stripped.credentials@.len() == 0
    &&& stripped.gateway_selector == device.gateway_selector
}

/// Whether a gateway-selector list contains the given device identifier.
pub open spec fn selector_contains(selector: Seq<String>, device_id: Seq<char>) -> bool {
    exists|i: int| 0 <= i < selector.len() && selector[i]@ == device_id
}

/// Look a device identifier up in a gateway-selector list.
pub fn selector_has(selector: &Vec<String>, device_id: &String) -> (r: bool)
    ensures
        r == selector_contains(selector@, device_id@),
{
    let n = selector.len();
    for i in 0..n
        invariant
            n == selector@.len(),
            forall|j: int| 0 <= j < i ==> selector@[j]@ != device_id@,
    {
        if selector[i] == *device_id {
            return true;
        }
    }
    false
}

} // verus!
