//! The coordination service's client library, as far as the verified code
//! touches it: four opaque types and the calls that build or copy them.
//!
//! Nothing here is proved. Each contract says what the client library's
//! source shows of the call.

use etcd_client::{Certificate, Client, ConnectOptions, Error, Identity, LockOptions, TlsOptions};
use vstd::prelude::*;

verus! {

#[verifier::external_type_specification]
#[verifier::external_body]
pub struct ExClient(Client);

#[verifier::external_type_specification]
#[verifier::external_body]
pub struct ExConnectOptions(ConnectOptions);

#[verifier::external_type_specification]
#[verifier::external_body]
pub struct ExError(Error);

#[verifier::external_type_specification]
#[verifier::external_body]
pub struct ExLockOptions(LockOptions);

/// `Client::clone`: the clone is a handle on the same connection, and equals
/// the client it was made from.
pub assume_specification[ <Client as Clone>::clone ](client: &Client) -> (twin: Client)
    ensures
        twin == *client,
;

/// The options of a lock request that binds the lock to the lease `lease`.
pub uninterp spec fn lease_options(lease: i64) -> LockOptions;

/// The connection options that carry mutual TLS with the CA bundle `ca` and
/// the client identity made of `cert` and `key`, all three PEM text.
pub uninterp spec fn tls_options(ca: Seq<char>, cert: Seq<char>, key: Seq<char>) -> ConnectOptions;

/// `LockOptions::new().with_lease(lease)`: empty lock options with the lease
/// set. The result depends on `lease` alone.
#[verifier::external_body]
pub(crate) fn lock_options(lease: i64) -> (options: LockOptions)
    ensures
        options == lease_options(lease),
{
    LockOptions::new().with_lease(lease)
}

/// `ConnectOptions::default().with_tls(..)` over a `TlsOptions` that holds
/// `Certificate::from_pem(ca)` as the trust bundle and
/// `Identity::from_pem(cert, key)` as the client identity. The four calls
/// copy the text and check nothing, so the result depends on the three
/// strings alone.
#[verifier::external_body]
pub(crate) fn tls_connect_options(ca: &str, cert: &str, key: &str) -> (options: ConnectOptions)
    ensures
        options == tls_options(ca@, cert@, key@),
{
    let tls = TlsOptions::new()
        .ca_certificate(Certificate::from_pem(ca))
        .identity(Identity::from_pem(cert, key));
    ConnectOptions::default().with_tls(tls)
}

} // verus!
