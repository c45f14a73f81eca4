use core::time::Duration;
use vstd::prelude::*;

use crate::request::copy_text;

verus! {

#[derive(Clone, Copy, Debug, PartialEq, Eq, Structural)]
pub enum CapabilityRole {
    Use,
    Manage,
    Provide,
}

#[derive(Debug, PartialEq)]
pub enum FireboltCap {
    Short(String),
    Full(String),
}

#[derive(Debug, PartialEq)]
pub struct FireboltPermission {
    pub cap: FireboltCap,
    pub role: CapabilityRole,
}

#[derive(Clone, Copy, Debug, PartialEq, Eq, Structural)]
pub enum GrantStatus {
    Allowed,
    Denied,
}

#[derive(Clone, Copy, Debug, PartialEq, Eq, Structural)]
pub enum GrantLifespan {
    Once,
    Forever,
    AppActive,
    PowerActive,
    Seconds,
}

#[derive(Clone, Copy, Debug, PartialEq, Eq, Structural)]
pub enum PolicyPersistenceType {
    Account,
    Device,
}

/// A stored decision on a capability.
#[derive(Debug, PartialEq)]
pub struct UserGrantInfo {
    pub role: CapabilityRole,
    pub capability: String,
    pub status: Option<GrantStatus>,
    /// Time since the Unix epoch.
    pub last_modified_time: Duration,
    pub expiry_time: Option<Duration>,
    pub app_name: Option<String>,
    pub lifespan: GrantLifespan,
}

/// Relies on `Duration::new`, which does not panic when the nanoseconds are
/// under one second.
#[verifier::external_body]
fn zero_duration() -> (r: Duration) {
    Duration::new(0, 0)
}

impl Default for UserGrantInfo {
    /// A denied, one-time grant of nothing to nobody.
    fn default() -> (r: Self)
        ensures
            r.role == CapabilityRole::Use,
            r.capability@ == Seq::<char>::empty(),
            r.status == Some(GrantStatus::Denied),
            r.expiry_time.is_none(),
            r.app_name.is_none(),
            r.lifespan == GrantLifespan::Once,
    {
        UserGrantInfo {
            role: CapabilityRole::Use,
            capability: String::new(),
            status: Some(GrantStatus::Denied),
            last_modified_time: zero_duration(),
            expiry_time: None,
            app_name: None,
            lifespan: GrantLifespan::Once,
        }
    }
}

impl FireboltPermission {
    pub fn duplicate(&self) -> (r: Self)
        ensures
            r == *self,
    {
        let cap = match &self.cap {
            FireboltCap::Short(s) => FireboltCap::Short(s.clone()),
            FireboltCap::Full(s) => FireboltCap::Full(s.clone()),
        };
        FireboltPermission { cap, role: self.role }
    }
}

impl UserGrantInfo {
    pub fn duplicate(&self) -> (r: Self)
        ensures
            r == *self,
    {
        UserGrantInfo {
            role: self.role,
            capability: self.capability.clone(),
            status: self.status,
            last_modified_time: self.last_modified_time,
            expiry_time: self.expiry_time,
            app_name: copy_text(&self.app_name),
            lifespan: self.lifespan,
        }
    }
}

/// A request to the local user-grant store.
#[derive(Debug, PartialEq)]
pub enum UserGrantsStoreRequest {
    GetUserGrants(String, FireboltPermission),
    SetUserGrants(UserGrantInfo),
    SyncGrantMapPerPolicy(),
    ClearUserGrants(PolicyPersistenceType),
}

/// Where user grants are kept.
#[derive(Clone, Copy, Debug, PartialEq, Eq, Structural)]
pub enum UserGrantsPersistenceType {
    Account,
    Cloud,
}

impl UserGrantsPersistenceType {
    pub fn as_string(&self) -> (r: &'static str)
        ensures
            r@ == match *self {
                UserGrantsPersistenceType::Account => "account"@,
                UserGrantsPersistenceType::Cloud => "cloud"@,
            },
    {
        match self {
            UserGrantsPersistenceType::Account => "account",
            UserGrantsPersistenceType::Cloud => "cloud",
        }
    }
}

#[derive(Clone, Copy, Debug, PartialEq, Eq, Structural)]
pub enum StorageAdjective {
    UsergrantLocal,
    UsergrantCloud,
}

/// The service that a request is addressed to.
#[derive(Clone, Copy, Debug, PartialEq, Eq, Structural)]
pub enum RippleContract {
    Storage(StorageAdjective),
}

#[derive(Debug, PartialEq)]
pub enum ExtnRequest {
    UserGrantsStore(UserGrantsStoreRequest),
}

/// A message on the extension bus.
#[derive(Debug, PartialEq)]
pub enum ExtnPayload {
    Request(ExtnRequest),
}

impl UserGrantsStoreRequest {
    pub fn duplicate(&self) -> (r: Self)
        ensures
            r == *self,
    {
        match self {
            UserGrantsStoreRequest::GetUserGrants(u, p) => UserGrantsStoreRequest::GetUserGrants(
                u.clone(),
                p.duplicate(),
            ),
            UserGrantsStoreRequest::SetUserGrants(i) => UserGrantsStoreRequest::SetUserGrants(
                i.duplicate(),
            ),
            UserGrantsStoreRequest::SyncGrantMapPerPolicy() => UserGrantsStoreRequest::SyncGrantMapPerPolicy(),
            UserGrantsStoreRequest::ClearUserGrants(t) => UserGrantsStoreRequest::ClearUserGrants(*t),
        }
    }

    /// The request as a message on the extension bus.
    pub fn get_extn_payload(&self) -> (r: ExtnPayload)
        ensures
            r == ExtnPayload::Request(ExtnRequest::UserGrantsStore(*self)),
    {
        ExtnPayload::Request(ExtnRequest::UserGrantsStore(self.duplicate()))
    }

    /// The request that a message of the extension bus carries, if it is one.
    pub fn get_from_payload(payload: ExtnPayload) -> (r: Option<Self>)
        ensures
            r == match payload {
                ExtnPayload::Request(ExtnRequest::UserGrantsStore(q)) => Some(q),
            },
    {
        match payload {
            ExtnPayload::Request(ExtnRequest::UserGrantsStore(r)) => Some(r),
        }
    }

    /// The service that stores user grants.
    pub fn contract() -> (r: RippleContract)
        ensures
            r == RippleContract::Storage(StorageAdjective::UsergrantLocal),
    {
        RippleContract::Storage(StorageAdjective::UsergrantLocal)
    }
}

} // verus!
