use vstd::prelude::*;


verus! {

/// The event that asks a provider to acknowledge a challenge.
pub const ACK_CHALLENGE_EVENT: &'static str = "acknowledgechallenge.onRequestChallenge";

/// The capability under which challenges are acknowledged.
pub const ACK_CHALLENGE_CAPABILITY: &'static str =
    "xrn:firebolt:capability:usergrant:acknowledgechallenge";

#[derive(Debug, PartialEq)]
pub struct KeyboardSessionRequest {
    pub message: String,
}

#[derive(Debug, PartialEq)]
pub struct KeyboardSessionResponse {
    pub text: String,
    pub canceled: bool,
}

#[derive(Debug, PartialEq)]
pub struct PinChallengeRequest {
    pub pin_space: String,
}

#[derive(Clone, Copy, Debug, PartialEq, Eq, Structural)]
pub enum PinChallengeResultReason {
    NoPinRequired,
    NoPinRequiredWindow,
    ExceededPinFailures,
    CorrectPin,
    Cancelled,
}

#[derive(Debug, PartialEq)]
pub struct PinChallengeResponse {
    pub granted: Option<bool>,
    pub reason: PinChallengeResultReason,
}

impl PinChallengeResponse {
    pub fn get_granted(&self) -> (r: Option<bool>)
        ensures
            r == self.granted,
    {
        self.granted
    }
}

#[derive(Debug, PartialEq)]
pub struct EntityInfoParameters {
    pub entity_id: String,
}

#[derive(Debug, PartialEq)]
pub struct EntityInfoResult {
    pub expires: String,
    pub entity_id: String,
}

#[derive(Debug, PartialEq)]
pub struct PurchasedContentParameters {
    pub limit: i64,
}

#[derive(Debug, PartialEq)]
pub struct PurchasedContentResult {
    pub expires: String,
    pub total_count: i64,
    pub entries: Vec<EntityInfoResult>,
}

#[derive(Debug, PartialEq)]
pub struct ChallengeResponse {
    pub granted: Option<bool>,
}

#[derive(Debug, PartialEq)]
pub struct DataObject {}

#[derive(Debug, PartialEq)]
pub struct ChallengeError {
    pub code: u32,
    pub message: String,
    pub data: Option<DataObject>,
}

#[derive(Debug, PartialEq)]
pub struct ChallengeRequestor {
    pub id: String,
    pub name: String,
}

#[derive(Debug)]
pub struct FocusRequest {
    pub correlation_id: String,
}

#[derive(Debug)]
pub struct Challenge {
    pub capability: String,
    pub requestor: ChallengeRequestor,
}

/// What a provider is asked to do.
#[derive(Debug)]
pub enum ProviderRequestPayload {
    KeyboardSession(KeyboardSessionRequest),
    PinChallenge(PinChallengeRequest),
    AckChallenge(Challenge),
    EntityInfoRequest(EntityInfoParameters),
    PurchasedContentRequest(PurchasedContentParameters),
    Generic(String),
}

/// The kinds of answer a provider gives.
#[derive(Clone, Copy, Debug, PartialEq, Eq, Structural)]
pub enum ProviderResponsePayloadType {
    ChallengeResponse,
    ChallengeError,
    PinChallengeResponse,
    KeyboardResult,
    EntityInfoResponse,
    PurchasedContentResponse,
}

/// What a provider answers.
#[derive(Debug, PartialEq)]
pub enum ProviderResponsePayload {
    ChallengeResponse(ChallengeResponse),
    ChallengeError(ChallengeError),
    PinChallengeResponse(PinChallengeResponse),
    KeyboardResult(KeyboardSessionResponse),
    EntityInfoResponse(Option<EntityInfoResult>),
    PurchasedContentResponse(PurchasedContentResult),
}

#[derive(Debug)]
pub struct ProviderRequest {
    pub correlation_id: String,
    pub parameters: ProviderRequestPayload,
}

#[derive(Debug)]
pub struct ProviderResponse {
    pub correlation_id: String,
    pub result: ProviderResponsePayload,
}

#[derive(Debug)]
pub struct ExternalProviderRequest<T> {
    pub correlation_id: String,
    pub parameters: T,
}

#[derive(Debug)]
pub struct ExternalProviderResponse<T> {
    pub correlation_id: String,
    pub result: T,
}

/// How a provider capability is served.
#[derive(Debug)]
pub struct ProviderAttributes {
    pub name: String,
    pub event: String,
    pub response_payload: ProviderResponsePayloadType,
    pub error_payload: ProviderResponsePayloadType,
}

pub open spec fn payload_type_name(t: ProviderResponsePayloadType) -> Seq<char> {
    match t {
        ProviderResponsePayloadType::ChallengeResponse => "ChallengeResponse"@,
        ProviderResponsePayloadType::ChallengeError => "ChallengeError"@,
        ProviderResponsePayloadType::PinChallengeResponse => "PinChallengeResponse"@,
        ProviderResponsePayloadType::KeyboardResult => "KeyboardResult"@,
        ProviderResponsePayloadType::EntityInfoResponse => "EntityInfoResponse"@,
        ProviderResponsePayloadType::PurchasedContentResponse => "PurchasedContentResponse"@,
    }
}

impl ProviderResponsePayloadType {
    /// The name of the kind.
    pub fn to_string(&self) -> (r: String)
        ensures
            r@ == payload_type_name(*self),
    {
        match self {
            ProviderResponsePayloadType::ChallengeResponse => "ChallengeResponse".to_owned(),
            ProviderResponsePayloadType::ChallengeError => "ChallengeError".to_owned(),
            ProviderResponsePayloadType::PinChallengeResponse => "PinChallengeResponse".to_owned(),
            ProviderResponsePayloadType::KeyboardResult => "KeyboardResult".to_owned(),
            ProviderResponsePayloadType::EntityInfoResponse => "EntityInfoResponse".to_owned(),
            ProviderResponsePayloadType::PurchasedContentResponse => {
                "PurchasedContentResponse".to_owned()
            },
        }
    }
}

impl KeyboardSessionResponse {
    pub fn duplicate(&self) -> (r: Self)
        ensures
            r == *self,
    {
        KeyboardSessionResponse { text: self.text.clone(), canceled: self.canceled }
    }
}

impl PinChallengeResponse {
    pub fn duplicate(&self) -> (r: Self)
        ensures
            r == *self,
    {
        PinChallengeResponse { granted: self.granted, reason: self.reason }
    }
}

impl EntityInfoResult {
    pub fn duplicate(&self) -> (r: Self)
        ensures
            r == *self,
    {
        EntityInfoResult { expires: self.expires.clone(), entity_id: self.entity_id.clone() }
    }
}

/// Whether two purchased-content results hold the same values.
pub open spec fn same_content(a: PurchasedContentResult, b: PurchasedContentResult) -> bool {
    a.expires == b.expires && a.total_count == b.total_count && a.entries@ == b.entries@
}

impl PurchasedContentResult {
    pub fn duplicate(&self) -> (r: Self)
        ensures
            same_content(r, *self),
    {
        let mut entries: Vec<EntityInfoResult> = Vec::new();
        let mut i: usize = 0;
        while i < self.entries.len()
            invariant
                i <= self.entries@.len(),
                entries@ == self.entries@.subrange(0, i as int),
            decreases self.entries@.len() - i,
        {
            entries.push(self.entries[i].duplicate());
            i = i + 1;
        }
        assert(entries@ =~= self.entries@);
        PurchasedContentResult { expires: self.expires.clone(), total_count: self.total_count, entries }
    }
}

impl ProviderResponsePayload {
    pub fn as_keyboard_result(&self) -> (r: Option<KeyboardSessionResponse>)
        ensures
            r == match *self {
                ProviderResponsePayload::KeyboardResult(res) => Some(res),
                _ => None,
            },
    {
        match self {
            ProviderResponsePayload::KeyboardResult(res) => Some(res.duplicate()),
            _ => None,
        }
    }

    pub fn as_pin_challenge_response(&self) -> (r: Option<PinChallengeResponse>)
        ensures
            r == match *self {
                ProviderResponsePayload::PinChallengeResponse(res) => Some(res),
                _ => None,
            },
    {
        match self {
            ProviderResponsePayload::PinChallengeResponse(res) => Some(res.duplicate()),
            _ => None,
        }
    }

    /// Whether the challenge was granted, for the two kinds of answer that
    /// say so, and when they do.
    pub fn as_challenge_response(&self) -> (r: Option<ChallengeResponse>)
        ensures
            r == match *self {
                ProviderResponsePayload::ChallengeResponse(res) => match res.granted {
                    Some(v) => Some(ChallengeResponse { granted: Some(v) }),
                    None => None,
                },
                ProviderResponsePayload::PinChallengeResponse(res) => match res.granted {
                    Some(v) => Some(ChallengeResponse { granted: Some(v) }),
                    None => None,
                },
                _ => None,
            },
    {
        match self {
            ProviderResponsePayload::ChallengeResponse(res) => match res.granted {
                Some(v) => Some(ChallengeResponse { granted: Some(v) }),
                None => None,
            },
            ProviderResponsePayload::PinChallengeResponse(res) => match res.get_granted() {
                Some(v) => Some(ChallengeResponse { granted: Some(v) }),
                None => None,
            },
            _ => None,
        }
    }

    pub fn as_entity_info_result(&self) -> (r: Option<Option<EntityInfoResult>>)
        ensures
            r == match *self {
                ProviderResponsePayload::EntityInfoResponse(res) => Some(res),
                _ => None,
            },
    {
        match self {
            ProviderResponsePayload::EntityInfoResponse(res) => match res {
                Some(e) => Some(Some(e.duplicate())),
                None => Some(None),
            },
            _ => None,
        }
    }

    pub fn as_purchased_content_result(&self) -> (r: Option<PurchasedContentResult>)
        ensures
            match *self {
                ProviderResponsePayload::PurchasedContentResponse(res) => r matches Some(x)
                    && same_content(x, res),
                _ => r is None,
            },
    {
        match self {
            ProviderResponsePayload::PurchasedContentResponse(res) => Some(res.duplicate()),
            _ => None,
        }
    }

    /// The kind of this answer.
    pub fn payload_type(&self) -> (r: ProviderResponsePayloadType)
        ensures
            r == payload_type_of(*self),
    {
        match self {
            ProviderResponsePayload::ChallengeResponse(_) => ProviderResponsePayloadType::ChallengeResponse,
            ProviderResponsePayload::ChallengeError(_) => ProviderResponsePayloadType::ChallengeError,
            ProviderResponsePayload::PinChallengeResponse(_) => ProviderResponsePayloadType::PinChallengeResponse,
            ProviderResponsePayload::KeyboardResult(_) => ProviderResponsePayloadType::KeyboardResult,
            ProviderResponsePayload::EntityInfoResponse(_) => ProviderResponsePayloadType::EntityInfoResponse,
            ProviderResponsePayload::PurchasedContentResponse(_) => ProviderResponsePayloadType::PurchasedContentResponse,
        }
    }

    /// The name of the kind of this answer.
    pub fn to_string(&self) -> (r: String)
        ensures
            r@ == payload_type_name(payload_type_of(*self)),
    {
        self.payload_type().to_string()
    }
}

pub open spec fn payload_type_of(p: ProviderResponsePayload) -> ProviderResponsePayloadType {
    match p {
        ProviderResponsePayload::ChallengeResponse(_) => ProviderResponsePayloadType::ChallengeResponse,
        ProviderResponsePayload::ChallengeError(_) => ProviderResponsePayloadType::ChallengeError,
        ProviderResponsePayload::PinChallengeResponse(_) => ProviderResponsePayloadType::PinChallengeResponse,
        ProviderResponsePayload::KeyboardResult(_) => ProviderResponsePayloadType::KeyboardResult,
        ProviderResponsePayload::EntityInfoResponse(_) => ProviderResponsePayloadType::EntityInfoResponse,
        ProviderResponsePayload::PurchasedContentResponse(_) => ProviderResponsePayloadType::PurchasedContentResponse,
    }
}

impl ProviderAttributes {
    /// The attributes of the provider capability `name`; only challenge
    /// acknowledgement has any.
    pub fn get(name: &str) -> (r: Option<ProviderAttributes>)
        ensures
            r.is_some() == (name@ == "AcknowledgeChallenge"@),
            r matches Some(a) ==> a.name@ == name@ && a.event@ == ACK_CHALLENGE_EVENT@
                && a.response_payload == ProviderResponsePayloadType::ChallengeResponse
                && a.error_payload == ProviderResponsePayloadType::ChallengeError,
    {
        let n: String = name.to_owned();
        let wanted: String = "AcknowledgeChallenge".to_owned();
        if n == wanted {
            Some(ProviderAttributes {
                name: n,
                event: ACK_CHALLENGE_EVENT.to_owned(),
                response_payload: ProviderResponsePayloadType::ChallengeResponse,
                error_payload: ProviderResponsePayloadType::ChallengeError,
            })
        } else {
            None
        }
    }
}

} // verus!
