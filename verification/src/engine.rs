//! The authentication decision engine: credential matching, certificate
//! validation against an application's trust anchors, and the staged decision
//! flow that a store-driving caller steps through.

use vstd::prelude::*;
use crate::auth::{AuthenticationRequest, Credential, Outcome};
use crate::model::{
    app_enabled, is_stripped_of, selector_contains, selector_has, Application, CoreSection,
    Device, StoredCredential, TrustAnchor,
};

verus! {

/// Whether one stored credential accepts a presented bare password. A stored
/// password must be equal to it; a stored username/password pair accepts it
/// when the stored username is the device id itself.
pub open spec fn accepts_password(
    stored: StoredCredential,
    device_id: Seq<char>,
    provided: Seq<char>,
) -> bool {
    match stored {
        StoredCredential::Password(p) => p@ == provided,
        StoredCredential::UsernamePassword { username, password } => {
            username@ == device_id && password@ == provided
        },
    }
}

/// Whether one stored credential accepts a presented username/password pair.
/// A stored bare password accepts it when the presented username is the
/// device id itself; a stored pair must be equal to it.
pub open spec fn accepts_username_password(
    stored: StoredCredential,
    device_id: Seq<char>,
    provided_username: Seq<char>,
    provided_password: Seq<char>,
) -> bool {
    match stored {
        StoredCredential::Password(p) => provided_username == device_id && p@ == provided_password,
        StoredCredential::UsernamePassword { username, password } => {
            username@ == provided_username && password@ == provided_password
        },
    }
}

/// Whether any stored credential accepts the presented bare password. The
/// order of the stored credentials is irrelevant.
pub open spec fn password_matches(
    credentials: Seq<StoredCredential>,
    device_id: Seq<char>,
    provided: Seq<char>,
) -> bool {
    exists|i: int|
        0 <= i < credentials.len() && accepts_password(credentials[i], device_id, provided)
}

/// Whether any stored credential accepts the presented username/password
/// pair. The order of the stored credentials is irrelevant.
pub open spec fn username_password_matches(
    credentials: Seq<StoredCredential>,
    device_id: Seq<char>,
    provided_username: Seq<char>,
    provided_password: Seq<char>,
) -> bool {
    exists|i: int|
        0 <= i < credentials.len() && accepts_username_password(
            credentials[i],
            device_id,
            provided_username,
            provided_password,
        )
}

/// Validate a presented bare password against the stored credentials of a
/// device.
pub fn validate_password(device: &Device, provided_password: &String) -> (r: bool)
    ensures
        r == password_matches(device.credentials@, device.name@, provided_password@),
{
    let n = device.credentials.len();
    for i in 0..n
        invariant
            n == device.credentials@.len(),
            forall|j: int|
                0 <= j < i ==> !accepts_password(
                    device.credentials@[j],
                    device.name@,
                    provided_password@,
                ),
    {
        let hit = match &device.credentials[i] {
            StoredCredential::Password(stored) => *stored == *provided_password,
            StoredCredential::UsernamePassword { username, password } => {
                *username == device.name && *password == *provided_password
            },
        };
        proof {
            assert(hit == accepts_password(
                device.credentials@[i as int],
                device.name@,
                provided_password@,
            ));
        }
        if hit {
            return true;
        }
    }
    false
}

/// Validate a presented username/password pair against the stored credentials
/// of a device.
pub fn validate_username_password(
    device: &Device,
    provided_username: &String,
    provided_password: &String,
) -> (r: bool)
    ensures
        r == username_password_matches(
            device.credentials@,
            device.name@,
            provided_username@,
            provided_password@,
        ),
{
    let n = device.credentials.len();
    for i in 0..n
        invariant
            n == device.credentials@.len(),
            forall|j: int|
                0 <= j < i ==> !accepts_username_password(
                    device.credentials@[j],
                    device.name@,
                    provided_username@,
                    provided_password@,
                ),
    {
        let hit = match &device.credentials[i] {
            StoredCredential::Password(stored) => {
                *provided_username == device.name && *stored == *provided_password
            },
            StoredCredential::UsernamePassword { username, password } => {
                *username == *provided_username && *password == *provided_password
            },
        };
        proof {
            assert(hit == accepts_username_password(
                device.credentials@[i as int],
                device.name@,
                provided_username@,
                provided_password@,
            ));
        }
        if hit {
            return true;
        }
    }
    false
}

/// A device that stores `Password(p)` accepts a presented bare password equal
/// to `p`, whatever else it stores.
pub proof fn lemma_stored_password_passes(
    credentials: Seq<StoredCredential>,
    device_id: Seq<char>,
    p: Seq<char>,
    i: int,
)
    requires
        0 <= i < credentials.len(),
        credentials[i] matches StoredCredential::Password(stored) && stored@ == p,
    ensures
        password_matches(credentials, device_id, p),
{
    assert(accepts_password(credentials[i], device_id, p));
}

/// A device whose stored credentials are all `Password(p)` refuses any other
/// presented bare password.
pub proof fn lemma_other_password_fails(
    credentials: Seq<StoredCredential>,
    device_id: Seq<char>,
    p: Seq<char>,
    q: Seq<char>,
)
    requires
        q != p,
        forall|i: int|
            0 <= i < credentials.len() ==> (#[trigger] credentials[i] matches
                StoredCredential::Password(stored) && stored@ == p),
    ensures
        !password_matches(credentials, device_id, q),
{
    assert forall|i: int| 0 <= i < credentials.len() implies !accepts_password(
        credentials[i],
        device_id,
        q,
    ) by {
        assert(credentials[i] matches StoredCredential::Password(stored) && stored@ == p);
    }
}

/// A stored username/password pair whose username is the device id itself
/// accepts a presented bare password equal to its password: the
/// device-id-as-username shortcut.
pub proof fn lemma_device_id_username_shortcut(
    credentials: Seq<StoredCredential>,
    device_id: Seq<char>,
    p: Seq<char>,
    i: int,
)
    requires
        0 <= i < credentials.len(),
        credentials[i] matches StoredCredential::UsernamePassword { username, password }
            && username@ == device_id && password@ == p,
    ensures
        password_matches(credentials, device_id, p),
{
    assert(accepts_password(credentials[i], device_id, p));
}

/// A presented username/password pair whose username is neither the device id
/// nor any stored username never matches, whatever its password.
pub proof fn lemma_foreign_username_fails(
    credentials: Seq<StoredCredential>,
    device_id: Seq<char>,
    u: Seq<char>,
    p: Seq<char>,
)
    requires
        u != device_id,
        forall|i: int|
            0 <= i < credentials.len() ==> (#[trigger] credentials[i] matches
                StoredCredential::UsernamePassword { username, password } ==> username@ != u),
    ensures
        !username_password_matches(credentials, device_id, u, p),
{
    assert forall|i: int| 0 <= i < credentials.len() implies !accepts_username_password(
        credentials[i],
        device_id,
        u,
        p,
    ) by {
        match credentials[i] {
            StoredCredential::Password(_) => {},
            StoredCredential::UsernamePassword { username, password } => {
                assert(username@ != u);
            },
        }
    }
}

/// Whether a trust anchor may be used at the given time: the time must lie
/// inside the anchor's validity window.
pub open spec fn anchor_applicable(anchor: TrustAnchor, now: i64) -> bool {
    anchor.not_before <= now <= anchor.not_after
}

/// Relies on rustls: `RootCertStore::add_pem_file` parses the anchor's PEM
/// bytes, and `AllowAnyAuthenticatedClient::verify_client_cert` verifies the
/// presented chain, leaf first, against that single-root store, with no name
/// check. An unparseable anchor and an empty chain are both refused, and
/// verification consults the system clock, so nothing more is promised of the
/// result.
#[verifier::external_body]
fn verify_chain_with_anchor(anchor_pem: &Vec<u8>, chain: &Vec<Vec<u8>>) -> (r: bool)
    ensures
        chain@.len() == 0 ==> !r,
{
    let mut roots = rustls::RootCertStore::empty();
    let mut cursor = std::io::Cursor::new(anchor_pem);
    if roots.add_pem_file(&mut cursor).is_err() {
        return false;
    }
    let certs: Vec<rustls::Certificate> =
        chain.iter().map(|c| rustls::Certificate(c.clone())).collect();
    let verifier = rustls::AllowAnyAuthenticatedClient::new(roots);
    verifier.verify_client_cert(&certs, None).is_ok()
}

/// Validate a presented certificate chain against one trust anchor: the
/// anchor must be inside its validity window, its certificate must parse, and
/// the chain must verify against it as a client certificate chain.
pub fn validate_trust_anchor(anchor: &TrustAnchor, now: i64, chain: &Vec<Vec<u8>>) -> (r: bool)
    ensures
        !anchor_applicable(*anchor, now) ==> !r,
        chain@.len() == 0 ==> !r,
{
    if now < anchor.not_before {
        return false;
    }
    if now > anchor.not_after {
        return false;
    }
    verify_chain_with_anchor(&anchor.certificate, chain)
}

/// Validate a presented certificate chain against the trust anchors of an
/// application at the given time. An empty chain never validates; each anchor
/// is tried independently, so a malformed or out-of-window anchor never keeps
/// a later anchor from validating the chain; the first anchor that validates
/// it decides.
pub fn validate_certificate(app: &Application, chain: &Vec<Vec<u8>>, now: i64) -> (r: bool)
    ensures
        chain@.len() == 0 ==> !r,
        r ==> exists|i: int|
            0 <= i < app.trust_anchors@.len() && anchor_applicable(app.trust_anchors@[i], now),
        (forall|i: int|
            0 <= i < app.trust_anchors@.len() ==> !anchor_applicable(
                app.trust_anchors@[i],
                now,
            )) ==> !r,
{
    if chain.len() == 0 {
        return false;
    }
    let n = app.trust_anchors.len();
    for i in 0..n
        invariant
            n == app.trust_anchors@.len(),
            chain@.len() > 0,
    {
        if validate_trust_anchor(&app.trust_anchors[i], now, chain) {
            return true;
        }
    }
    false
}

/// Validate the application's enabled state: enabled when the core section is
/// absent or present and not disabled; disabled, and so refused, when the
/// section says so or could not be decoded.
pub fn validate_app(app: &Application) -> (r: bool)
    ensures
        r == app_enabled(app),
{
    match &app.core {
        CoreSection::Absent => true,
        CoreSection::Valid { disabled } => !*disabled,
        CoreSection::Malformed => false,
    }
}

/// Strip the stored credentials from a device record before it leaves the
/// engine, so that they are never handed back to a caller.
pub fn strip_credentials(device: Device) -> (r: Device)
    ensures
        is_stripped_of(r, device),
{
    let Device { name, application, enabled, credentials: _, gateway_selector } = device;
    Device { name, application, enabled, credentials: Vec::new(), gateway_selector }
}

/// Validate a presented credential against a device of an application at the
/// given time, by the matching table of the engine: any stored credential that
/// accepts the presented one suffices, and a certificate chain is accepted
/// exactly when one of the application's trust anchors validates it.
pub fn validate_credential(
    app: &Application,
    device: &Device,
    credential: &Credential,
    now: i64,
) -> (r: bool)
    ensures
        credential matches Credential::Password(p) ==> r == password_matches(
            device.credentials@,
            device.name@,
            p@,
        ),
        credential matches Credential::UsernamePassword { username, password } ==> r
            == username_password_matches(device.credentials@, device.name@, username@, password@),
        credential matches Credential::Certificate(chain) ==> {
            &&& chain@.len() == 0 ==> !r
            &&& r ==> exists|i: int|
                0 <= i < app.trust_anchors@.len() && anchor_applicable(app.trust_anchors@[i], now)
            &&& (forall|i: int|
                0 <= i < app.trust_anchors@.len() ==> !anchor_applicable(
                    app.trust_anchors@[i],
                    now,
                )) ==> !r
        },
{
    match credential {
        Credential::Password(provided) => validate_password(device, provided),
        Credential::UsernamePassword { username, password } => {
            validate_username_password(device, username, password)
        },
        Credential::Certificate(chain) => validate_certificate(app, chain, now),
    }
}

/// Whether the request publishes as the requesting device itself: no
/// publish-as id is given, or it equals the request's own device id.
pub open spec fn publish_as_self(request: &AuthenticationRequest) -> bool {
    match request.publish_as {
        Option::None => true,
        Option::Some(a) => a@ == request.device@,
    }
}

/// How far a decision flow has come.
#[derive(Debug)]
pub enum FlowStage {
    AtApplication,
    AtDevice,
    AtGateway,
    Finished,
}

/// What the decision flow asks its driver for next: a record to look up, or
/// the decided outcome.
#[derive(Debug)]
pub enum AuthStep {
    NeedApplication { application: String },
    NeedDevice { application: String, device: String },
    NeedGateway { application: String, device: String },
    Done { outcome: Outcome },
}

/// One authentication decision in progress. The flow holds the request and
/// asks its driver, step by step, for the records it needs from the credential
/// store: the application, the device, and, only for a delegated publish, the
/// publish-as device. The driver owns the store and its errors; the flow owns
/// every decision.
#[derive(Debug)]
pub struct AuthFlow {
    pub request: AuthenticationRequest,
    pub now: i64,
    pub stage: FlowStage,
    pub application: Option<Application>,
}

/// The flow has ended in the uniform failure outcome: no cause is revealed.
pub open spec fn failed_step(f: AuthFlow, step: AuthStep) -> bool {
    &&& step == (AuthStep::Done { outcome: Outcome::Fail })
    &&& f.stage is Finished
}

/// The credential was accepted for device `d`: publishing as itself, the flow
/// ends in a pass carrying the application and the stripped device record;
/// publishing as another device, the flow asks for that device next.
pub open spec fn granted_step(pre: AuthFlow, f: AuthFlow, step: AuthStep, d: Device) -> bool {
    if publish_as_self(&pre.request) {
        &&& f.stage is Finished
        &&& step matches AuthStep::Done { outcome: Outcome::Pass { application, device } }
            && application == pre.application.unwrap() && is_stripped_of(device, d)
    } else {
        &&& f.stage is AtGateway
        &&& f.application == pre.application
        &&& step matches AuthStep::NeedGateway { application, device }
            && application@ == pre.request.application@
            && device@ == pre.request.publish_as.unwrap()@
    }
}

impl AuthFlow {
    /// The stored records the current stage counts on.
    pub open spec fn wf(&self) -> bool {
        (self.stage is AtDevice || self.stage is AtGateway) ==> self.application is Some
    }

    /// Open a decision flow for one request at the given time (seconds of
    /// Unix time). The first step always asks for the application record.
    pub fn start(request: AuthenticationRequest, now: i64) -> (r: (AuthFlow, AuthStep))
        ensures
            r.0.wf(),
            r.0.stage is AtApplication,
            r.0.request == request,
            r.0.now == now,
            r.1 matches AuthStep::NeedApplication { application } && application@
                == request.application@,
    {
        let application = request.application.clone();
        let flow = AuthFlow { request, now, stage: FlowStage::AtApplication, application: None };
        (flow, AuthStep::NeedApplication { application })
    }

    /// Hand the flow what the store returned for the application: nothing, or
    /// the record. A missing or disabled application fails the request; an
    /// enabled one leads to the device lookup.
    pub fn supply_application(&mut self, found: Option<Application>) -> (step: AuthStep)
        requires
            old(self).wf(),
            old(self).stage is AtApplication,
        ensures
            final(self).wf(),
            final(self).request == old(self).request,
            final(self).now == old(self).now,
            found is None ==> failed_step(*final(self), step),
            found matches Some(app) ==> {
                &&& !app_enabled(&app) ==> failed_step(*final(self), step)
                &&& app_enabled(&app) ==> {
                    &&& final(self).stage is AtDevice
                    &&& final(self).application == Some(app)
                    &&& step matches AuthStep::NeedDevice { application, device }
                        && application@ == old(self).request.application@ && device@ == old(
                        self,
                    ).request.device@
                }
            },
    {
        match found {
            None => {
                self.stage = FlowStage::Finished;
                AuthStep::Done { outcome: Outcome::Fail }
            },
            Some(app) => {
                if !validate_app(&app) {
                    self.stage = FlowStage::Finished;
                    AuthStep::Done { outcome: Outcome::Fail }
                } else {
                    self.application = Some(app);
                    self.stage = FlowStage::AtDevice;
                    AuthStep::NeedDevice {
                        application: self.request.application.clone(),
                        device: self.request.device.clone(),
                    }
                }
            },
        }
    }

    /// Hand the flow what the store returned for the device. A missing device
    /// or a credential that no stored credential accepts fails the request; an
    /// accepted credential passes, or, for a delegated publish, leads to the
    /// publish-as device lookup. For a certificate chain the acceptance itself
    /// rests on the certificate validator; an empty chain or an application
    /// without an applicable anchor always fails.
    pub fn supply_device(&mut self, found: Option<Device>) -> (step: AuthStep)
        requires
            old(self).wf(),
            old(self).stage is AtDevice,
        ensures
            final(self).wf(),
            final(self).request == old(self).request,
            final(self).now == old(self).now,
            found is None ==> failed_step(*final(self), step),
            found matches Some(d) ==> {
                let req = old(self).request;
                &&& (req.credential matches Credential::Password(p) ==> if password_matches(
                    d.credentials@,
                    d.name@,
                    p@,
                ) {
                    granted_step(*old(self), *final(self), step, d)
                } else {
                    failed_step(*final(self), step)
                })
                &&& (req.credential matches Credential::UsernamePassword { username, password }
                    ==> if username_password_matches(
                    d.credentials@,
                    d.name@,
                    username@,
                    password@,
                ) {
                    granted_step(*old(self), *final(self), step, d)
                } else {
                    failed_step(*final(self), step)
                })
                &&& (req.credential matches Credential::Certificate(chain) ==> {
                    let anchors = old(self).application.unwrap().trust_anchors@;
                    &&& failed_step(*final(self), step) || granted_step(
                        *old(self),
                        *final(self),
                        step,
                        d,
                    )
                    &&& chain@.len() == 0 ==> failed_step(*final(self), step)
                    &&& (forall|i: int|
                        0 <= i < anchors.len() ==> !anchor_applicable(
                            anchors[i],
                            old(self).now,
                        )) ==> failed_step(*final(self), step)
                    &&& granted_step(*old(self), *final(self), step, d) ==> chain@.len() > 0
                        && exists|i: int|
                        0 <= i < anchors.len() && anchor_applicable(anchors[i], old(self).now)
                })
            },
    {
        match found {
            None => {
                self.stage = FlowStage::Finished;
                AuthStep::Done { outcome: Outcome::Fail }
            },
            Some(device) => {
                let ok = validate_credential(
                    self.application.as_ref().unwrap(),
                    &device,
                    &self.request.credential,
                    self.now,
                );
                if !ok {
                    self.stage = FlowStage::Finished;
                    AuthStep::Done { outcome: Outcome::Fail }
                } else {
                    let delegate: Option<String> = match &self.request.publish_as {
                        None => None,
                        Some(as_id) => {
                            if *as_id == self.request.device {
                                None
                            } else {
                                Some(as_id.clone())
                            }
                        },
                    };
                    match delegate {
                        None => {
                            let application = self.application.take().unwrap();
                            self.stage = FlowStage::Finished;
                            AuthStep::Done {
                                outcome: Outcome::Pass {
                                    application,
                                    device: strip_credentials(device),
                                },
                            }
                        },
                        Some(as_id) => {
                            self.stage = FlowStage::AtGateway;
                            AuthStep::NeedGateway {
                                application: self.request.application.clone(),
                                device: as_id,
                            }
                        },
                    }
                }
            },
        }
    }

    /// Hand the flow what the store returned for the publish-as device. The
    /// request passes exactly when that device exists and its gateway-selector
    /// list names the requesting device; the pass reports the publish-as
    /// device, stripped, as the authenticated device.
    pub fn supply_gateway(&mut self, found: Option<Device>) -> (step: AuthStep)
        requires
            old(self).wf(),
            old(self).stage is AtGateway,
        ensures
            final(self).stage is Finished,
            final(self).request == old(self).request,
            found is None ==> step == (AuthStep::Done { outcome: Outcome::Fail }),
            found matches Some(g) ==> {
                if selector_contains(g.gateway_selector@, old(self).request.device@) {
                    step matches AuthStep::Done { outcome: Outcome::Pass { application, device } }
                        && application == old(self).application.unwrap() && is_stripped_of(
                        device,
                        g,
                    )
                } else {
                    step == (AuthStep::Done { outcome: Outcome::Fail })
                }
            },
    {
        match found {
            None => {
                self.stage = FlowStage::Finished;
                AuthStep::Done { outcome: Outcome::Fail }
            },
            Some(gateway) => {
                let allowed = selector_has(&gateway.gateway_selector, &self.request.device);
                self.stage = FlowStage::Finished;
                if allowed {
                    let application = self.application.take().unwrap();
                    AuthStep::Done {
                        outcome: Outcome::Pass {
                            application,
                            device: strip_credentials(gateway),
                        },
                    }
                } else {
                    AuthStep::Done { outcome: Outcome::Fail }
                }
            },
        }
    }
}

} // verus!
