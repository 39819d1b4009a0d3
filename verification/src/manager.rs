//! The connection manager: it collects how to connect, keeps the connection
//! once the driver has made it, and hands out lock handles bound to it.

use crate::error::{Fault, Material, SetupError};
use crate::lock::Lock;
use crate::pem::{check_pem, is_pem};
use crate::protocol::LockView;
use crate::service::{tls_connect_options, tls_options};
use etcd_client::{Client, ConnectOptions, Error};
use vstd::prelude::*;

verus! {

/// The state of a manager.
pub struct ManagerView {
    /// The service's address, as `host:port`.
    pub endpoint: Seq<char>,
    /// The connection options, if any were set.
    pub options: Option<ConnectOptions>,
    /// The connection, once it is made.
    pub client: Option<Client>,
}

/// What is wrong with a piece of material as it was read: it is missing, or
/// it is there and not PEM. `None` if nothing is wrong.
pub open spec fn fault_of(text: Option<String>) -> Option<Fault> {
    match text {
        None => Some(Fault::Missing),
        Some(t) => if is_pem(t@) {
            None
        } else {
            Some(Fault::Malformed)
        },
    }
}

/// The first of the CA bundle, the client certificate and the client key
/// that is missing or malformed, with what is wrong with it.
pub open spec fn first_fault(
    ca: Option<String>,
    client_cert: Option<String>,
    client_key: Option<String>,
) -> Option<(Material, Fault)> {
    match (fault_of(ca), fault_of(client_cert), fault_of(client_key)) {
        (Some(fault), _, _) => Some((Material::CaBundle, fault)),
        (None, Some(fault), _) => Some((Material::ClientCertificate, fault)),
        (None, None, Some(fault)) => Some((Material::ClientKey, fault)),
        (None, None, None) => None,
    }
}

/// The manager after transport security was attached, or why it was not.
pub open spec fn attach_tls(
    m: ManagerView,
    ca: Option<String>,
    client_cert: Option<String>,
    client_key: Option<String>,
) -> Result<ManagerView, SetupError> {
    match first_fault(ca, client_cert, client_key) {
        Some((material, fault)) => Err(SetupError::Configuration(material, fault)),
        None => Ok(
            ManagerView {
                options: Some(tls_options(ca.unwrap()@, client_cert.unwrap()@, client_key.unwrap()@)),
                ..m
            },
        ),
    }
}

/// The manager after its options were replaced by `options`.
pub open spec fn replace_options(m: ManagerView, options: ConnectOptions) -> ManagerView {
    ManagerView { options: Some(options), ..m }
}

/// The manager once the driver has tried to connect.
pub open spec fn connected(m: ManagerView, connection: Result<Client, Error>) -> Result<
    ManagerView,
    SetupError,
> {
    match connection {
        Ok(client) => Ok(ManagerView { client: Some(client), ..m }),
        Err(e) => Err(SetupError::Connection(e)),
    }
}

/// Builds and holds the connection to the coordination service.
pub struct LockManager {
    client: Option<Client>,
    endpoint: String,
    options: Option<ConnectOptions>,
}

impl View for LockManager {
    type V = ManagerView;

    closed spec fn view(&self) -> ManagerView {
        ManagerView { endpoint: self.endpoint@, options: self.options, client: self.client }
    }
}

impl LockManager {
    /// A manager for the service at `endpoint`: no transport security, no
    /// options, not connected.
    pub fn new(endpoint: &str) -> (manager: LockManager)
        ensures
            manager@ == (ManagerView { endpoint: endpoint@, options: None, client: None }),
    {
        LockManager { client: None, options: None, endpoint: endpoint.to_owned() }
    }

    /// Attaches mutual TLS. The arguments are the contents of the CA bundle,
    /// of the client certificate and of the client key, each `None` where the
    /// file could not be read. All three are needed, and each must be PEM.
    /// Otherwise the manager is refused, and the error names the first piece
    /// that is missing or malformed. Whatever options were set before are
    /// replaced.
    pub fn with_tls(
        self,
        ca: Option<String>,
        client_cert: Option<String>,
        client_key: Option<String>,
    ) -> (result: Result<LockManager, SetupError>)
        ensures
            result is Ok <==> (ca matches Some(a) && is_pem(a@)) && (client_cert matches Some(c)
                && is_pem(c@)) && (client_key matches Some(k) && is_pem(k@)),
            match attach_tls(self@, ca, client_cert, client_key) {
                Ok(m) => result matches Ok(manager) && manager@ == m,
                Err(e) => result matches Err(error) && error == e,
            },
    {
        let a = match Self::checked(ca) {
            Ok(text) => text,
            Err(fault) => {
                return Err(SetupError::Configuration(Material::CaBundle, fault));
            },
        };
        let c = match Self::checked(client_cert) {
            Ok(text) => text,
            Err(fault) => {
                return Err(SetupError::Configuration(Material::ClientCertificate, fault));
            },
        };
        let k = match Self::checked(client_key) {
            Ok(text) => text,
            Err(fault) => {
                return Err(SetupError::Configuration(Material::ClientKey, fault));
            },
        };
        let mut manager = self;
        manager.options = Some(tls_connect_options(a.as_str(), c.as_str(), k.as_str()));
        Ok(manager)
    }

    /// The text of a piece of material, or what is wrong with it.
    fn checked(text: Option<String>) -> (result: Result<String, Fault>)
        ensures
            match fault_of(text) {
                Some(fault) => result == Err::<String, Fault>(fault),
                None => result == Ok::<String, Fault>(text.unwrap()),
            },
    {
        match text {
            None => Err(Fault::Missing),
            Some(t) => if check_pem(t.as_str()) {
                Ok(t)
            } else {
                Err(Fault::Malformed)
            },
        }
    }

    /// Replaces the options, those that `with_tls` derived too, by `option`.
    pub fn with_custom_options(self, option: ConnectOptions) -> (manager: LockManager)
        ensures
            manager@ == replace_options(self@, option),
    {
        let mut manager = self;
        manager.options = Some(option);
        manager
    }

    /// Takes the outcome of the driver's attempt to connect to `endpoint()`
    /// with `options()`. A connection makes the manager connected; a failure
    /// is handed on as `SetupError::Connection`.
    pub fn init(self, connection: Result<Client, Error>) -> (result: Result<LockManager, SetupError>)
        ensures
            match connected(self@, connection) {
                Ok(m) => result matches Ok(manager) && manager@ == m,
                Err(e) => result matches Err(error) && error == e,
            },
    {
        let mut manager = self;
        match connection {
            Ok(client) => {
                manager.client = Some(client);
                Ok(manager)
            },
            Err(e) => Err(SetupError::Connection(e)),
        }
    }

    /// A handle on the lock called `key`, bound to a clone of the manager's
    /// connection. The handle does not hold the lock. The manager must be
    /// connected.
    pub fn create_lock(&mut self, key: &str) -> (lock: Lock)
        requires
            old(self)@.client is Some,
        ensures
            *final(self) == *old(self),
            lock@ == LockView::fresh(key@),
            Some(lock.connection()) == old(self)@.client,
            lock.signal() is None,
    {
        self.try_create_lock(key).unwrap()
    }

    /// A handle as `create_lock` makes it, or `None` while the manager is not
    /// connected.
    pub fn try_create_lock(&self, key: &str) -> (lock: Option<Lock>)
        ensures
            lock is Some <==> self@.client is Some,
            lock matches Some(l) ==> l@ == LockView::fresh(key@) && Some(l.connection())
                == self@.client && l.signal() is None,
    {
        match &self.client {
            Some(client) => Some(Lock::new(client.clone(), key.to_owned())),
            None => None,
        }
    }

    /// The service's address.
    pub fn endpoint(&self) -> (endpoint: &String)
        ensures
            endpoint@ == self@.endpoint,
    {
        &self.endpoint
    }

    /// The options to connect with.
    pub fn options(&self) -> (options: &Option<ConnectOptions>)
        ensures
            *options == self@.options,
    {
        &self.options
    }

    /// The connection, once it is made.
    pub fn client(&self) -> (client: &Option<Client>)
        ensures
            *client == self@.client,
    {
        &self.client
    }

    /// Whether the manager is connected.
    pub fn is_connected(&self) -> (connected: bool)
        ensures
            connected == (self@.client is Some),
    {
        self.client.is_some()
    }
}

/// All three pieces of transport security material are needed: with any of
/// them missing no manager comes out of `with_tls`, whichever the others are.
pub proof fn lemma_partial_tls_is_refused(
    m: ManagerView,
    ca: Option<String>,
    client_cert: Option<String>,
    client_key: Option<String>,
)
    requires
        ca is None || client_cert is None || client_key is None,
    ensures
        attach_tls(m, ca, client_cert, client_key) is Err,
        first_fault(ca, client_cert, client_key) is Some,
{
}

/// Material that is not PEM is refused: with any of the three texts
/// malformed no manager comes out of `with_tls`, and the error names a piece
/// that is missing or malformed.
pub proof fn lemma_malformed_tls_is_refused(
    m: ManagerView,
    ca: String,
    client_cert: String,
    client_key: String,
)
    requires
        !is_pem(ca@) || !is_pem(client_cert@) || !is_pem(client_key@),
    ensures
        attach_tls(m, Some(ca), Some(client_cert), Some(client_key)) matches Err(
            SetupError::Configuration(material, fault),
        ) && fault == Fault::Malformed && !is_pem(
            match material {
                Material::CaBundle => ca@,
                Material::ClientCertificate => client_cert@,
                Material::ClientKey => client_key@,
            },
        ),
{
}

/// Custom options set after transport security replace what `with_tls`
/// derived: the manager keeps the custom options and nothing else, and it
/// still has them once it is connected.
pub proof fn lemma_custom_options_override_tls(
    m: ManagerView,
    ca: String,
    client_cert: String,
    client_key: String,
    custom: ConnectOptions,
    client: Client,
)
    requires
        is_pem(ca@),
        is_pem(client_cert@),
        is_pem(client_key@),
    ensures
        ({
            let secured = attach_tls(m, Some(ca), Some(client_cert), Some(client_key));
            &&& secured is Ok
            &&& replace_options(secured.unwrap(), custom).options == Some(custom)
            &&& replace_options(secured.unwrap(), custom) == replace_options(m, custom)
            &&& connected(replace_options(secured.unwrap(), custom), Ok(client)) matches Ok(ready)
            &&& ready.options == Some(custom)
        }),
{
}

} // verus!
