//! What can go wrong while a manager is set up and while a lock is taken or
//! given back.

use etcd_client::Error;
use vstd::prelude::*;

verus! {

/// One of the three pieces of transport security material.
#[derive(Clone, Copy, Debug, PartialEq, Eq, Structural)]
pub enum Material {
    /// The certificate authority bundle.
    CaBundle,
    /// The client certificate.
    ClientCertificate,
    /// The client private key.
    ClientKey,
}

/// What is wrong with a piece of transport security material.
#[derive(Clone, Copy, Debug, PartialEq, Eq, Structural)]
pub enum Fault {
    /// It could not be read.
    Missing,
    /// It is not PEM.
    Malformed,
}

/// Why a manager could not be set up.
#[derive(Debug)]
pub enum SetupError {
    /// A piece of transport security material is missing or malformed.
    Configuration(Material, Fault),
    /// No connection to the service could be established.
    Connection(Error),
}

/// Why `Lock` or `Unlock` failed.
#[derive(Debug)]
pub enum LockError {
    /// The wait timeout elapsed before the lock was acquired.
    Timeout,
    /// `Lock` was called on a handle that holds the lock already.
    AlreadyHeld,
    /// The handle was told of something that it had not asked for.
    OutOfTurn,
    /// The service refused to grant a lease.
    LeaseGrant(Error),
    /// The renewal task could not be started.
    Renewal(Error),
    /// The service failed to release the lock.
    Release(Error),
}

} // verus!
