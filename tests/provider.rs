use endpoint_broker::provider::{
    ChallengeResponse, KeyboardSessionResponse, PinChallengeResponse, PinChallengeResultReason,
    ProviderAttributes, ProviderResponsePayload, ProviderResponsePayloadType,
    PurchasedContentResult, EntityInfoResult,
};

#[test]
fn test_as_keyboard_result() {
    let response = ProviderResponsePayload::KeyboardResult(KeyboardSessionResponse {
        text: "text".to_string(),
        canceled: false,
    });
    assert_eq!(
        response.as_keyboard_result(),
        Some(KeyboardSessionResponse {
            text: "text".to_string(),
            canceled: false
        })
    );
}

#[test]
fn test_as_pin_challenge_response() {
    let response = ProviderResponsePayload::PinChallengeResponse(PinChallengeResponse {
        granted: Some(true),
        reason: PinChallengeResultReason::NoPinRequired,
    });
    assert_eq!(
        response.as_pin_challenge_response(),
        Some(PinChallengeResponse {
            granted: Some(true),
            reason: PinChallengeResultReason::NoPinRequired,
        })
    );
}

#[test]
fn test_as_challenge_response() {
    let response = ProviderResponsePayload::ChallengeResponse(ChallengeResponse {
        granted: Some(true),
    });
    assert_eq!(
        response.as_challenge_response(),
        Some(ChallengeResponse {
            granted: Some(true)
        })
    );
}

#[test]
fn test_as_purchased_content_result() {
    let response = ProviderResponsePayload::PurchasedContentResponse(PurchasedContentResult {
        expires: "expires".to_string(),
        total_count: 1,
        entries: vec![],
    });
    assert_eq!(
        response.as_purchased_content_result(),
        Some(PurchasedContentResult {
            expires: "expires".to_string(),
            total_count: 1,
            entries: vec![],
        })
    );
}

#[test]
fn entity_info_result_of_other_kinds_is_none() {
    let response = ProviderResponsePayload::EntityInfoResponse(Some(EntityInfoResult {
        expires: "expires".to_string(),
        entity_id: "entity_id".to_string(),
    }));
    assert_eq!(
        response.as_entity_info_result(),
        Some(Some(EntityInfoResult {
            expires: "expires".to_string(),
            entity_id: "entity_id".to_string(),
        }))
    );
    assert_eq!(response.as_keyboard_result(), None);
    assert_eq!(response.as_purchased_content_result(), None);
}

#[test]
fn pin_challenge_without_decision_gives_no_challenge_response() {
    let response = ProviderResponsePayload::PinChallengeResponse(PinChallengeResponse {
        granted: None,
        reason: PinChallengeResultReason::Cancelled,
    });
    assert_eq!(response.as_challenge_response(), None);
    let granted = ProviderResponsePayload::PinChallengeResponse(PinChallengeResponse {
        granted: Some(false),
        reason: PinChallengeResultReason::CorrectPin,
    });
    assert_eq!(
        granted.as_challenge_response(),
        Some(ChallengeResponse {
            granted: Some(false)
        })
    );
}

#[test]
fn payload_kind_names() {
    assert_eq!(
        ProviderResponsePayloadType::PurchasedContentResponse.to_string(),
        "PurchasedContentResponse"
    );
    let response = ProviderResponsePayload::KeyboardResult(KeyboardSessionResponse {
        text: String::new(),
        canceled: true,
    });
    assert_eq!(response.to_string(), "KeyboardResult");
}

#[test]
fn provider_attributes_for_challenges_only() {
    let a = ProviderAttributes::get("AcknowledgeChallenge").unwrap();
    assert_eq!(a.name, "AcknowledgeChallenge");
    assert_eq!(a.event, "acknowledgechallenge.onRequestChallenge");
    assert!(ProviderAttributes::get("Keyboard").is_none());
}
