use vstd::prelude::*;

verus! {

/// The suffix of every app bundle id handed out for advertising.
pub const ADVERTISING_APP_BUNDLE_ID_SUFFIX: &'static str = "Comcast";

#[derive(Debug)]
pub struct AdvertisingId {
    pub ifa: String,
    pub ifa_type: String,
    pub lmt: String,
}

#[derive(Debug)]
pub struct AdvertisingPolicy {
    pub skip_restriction: String,
    pub limit_ad_tracking: bool,
}

#[derive(Debug)]
pub struct AdvertisingIdRPCRequest {
    pub options: Option<ScopeOption>,
}

#[derive(Debug)]
pub struct ScopeOption {
    pub scope: Option<Scope>,
}

#[derive(Debug)]
pub struct Scope {
    pub _type: ScopeType,
    pub id: String,
}

#[derive(Clone, Copy, Debug, PartialEq, Eq, Structural)]
pub enum ScopeType {
    Browse,
    Content,
}

impl ScopeType {
    pub fn as_string(&self) -> (r: &'static str)
        ensures
            r@ == match *self {
                ScopeType::Browse => "browse"@,
                ScopeType::Content => "content"@,
            },
    {
        match self {
            ScopeType::Browse => "browse",
            ScopeType::Content => "content",
        }
    }
}

/// The advertising methods.
#[derive(Debug)]
pub struct AdvertisingImpl;

/// The module that serves the advertising methods.
#[derive(Debug)]
pub struct AdvertisingRPCProvider;

impl AdvertisingImpl {
    /// The bundle id of an app: its id, a `.`, and the fixed suffix.
    pub fn app_bundle_id(&self, app_id: &str) -> (r: String)
        ensures
            r@ == app_id@ + "."@ + ADVERTISING_APP_BUNDLE_ID_SUFFIX@,
    {
        let mut out = String::new();
        out.append(app_id);
        out.append(".");
        out.append(ADVERTISING_APP_BUNDLE_ID_SUFFIX);
        out
    }
}

} // verus!
