use withings::AccessTokenResponse;
use withings::AuthCli;
use withings::GetMeasRequest;
use withings::ResponseError;
use withings::Scope;
use withings::WithingsApiError;
use withings::WITHINGS_API_URL;

#[test]
fn test_authorize_url_with_scopes() {
    let client = AuthCli::new(
        WITHINGS_API_URL.to_string(),
        "test_client_id".to_string(),
        "test_consumer_secret".to_string(),
        "https://localhost".to_string(),
        vec![Scope::UserInfo, Scope::UserMetrics],
        Some("mode".to_string()),
    );
    assert_eq!(
        client.get_authorize_url(),
        "https://account.withings.com/oauth2_user/authorize2?response_type=code&client_id=test_client_id&redirect_uri=https%3A%2F%2Flocalhost&scope=user.info%2Cuser.metrics&state=mode"
    );
}

#[test]
fn test_authorize_url_empty_scope() {
    let client = AuthCli::new(
        WITHINGS_API_URL.to_string(),
        "test_client_id".to_string(),
        "test_consumer_secret".to_string(),
        "https://localhost".to_string(),
        vec![],
        None,
    );
    assert_eq!(
        client.get_authorize_url(),
        "https://account.withings.com/oauth2_user/authorize2?response_type=code&client_id=test_client_id&redirect_uri=https%3A%2F%2Flocalhost&state=dev"
    );
}

#[test]
fn test_token_url() {
    let client = AuthCli::new(
        WITHINGS_API_URL.to_string(),
        "id".to_string(),
        "secret".to_string(),
        "https://localhost".to_string(),
        vec![],
        None,
    );
    assert_eq!(client.token_url(), "https://wbsapi.withings.net/v2/oauth2");
}

#[test]
fn test_authentication_failed_status() {
    let res: Result<AccessTokenResponse, ResponseError> = withings::handle_response(
        200,
        "req".to_string(),
        "{\"status\":100,\"body\":{}}".to_string(),
    );
    match res {
        Err(ResponseError::Api(WithingsApiError::AuthenticationFailed { status, .. })) => {
            assert_eq!(status, 100);
        }
        _ => panic!("expected AuthenticationFailed"),
    }
}

#[test]
fn test_unrecognized_status() {
    let res: Result<AccessTokenResponse, ResponseError> = withings::handle_response(
        200,
        "req".to_string(),
        "{\"status\":999,\"body\":{}}".to_string(),
    );
    match res {
        Err(ResponseError::UnrecognizedStatus { status, .. }) => assert_eq!(status, 999),
        _ => panic!("expected UnrecognizedStatus"),
    }
}

#[test]
fn test_body_status_unparseable() {
    let res: Result<AccessTokenResponse, ResponseError> =
        withings::handle_response(200, "req".to_string(), "{\"foo\":1}".to_string());
    assert!(matches!(res, Err(ResponseError::BodyStatusUnparseable { .. })));

    let res: Result<AccessTokenResponse, ResponseError> = withings::handle_response(
        200,
        "req".to_string(),
        "{\"status\":\"zero\"}".to_string(),
    );
    assert!(matches!(res, Err(ResponseError::BodyStatusUnparseable { .. })));
}

#[test]
fn test_body_not_json() {
    let res: Result<AccessTokenResponse, ResponseError> =
        withings::handle_response(200, "req".to_string(), "not json".to_string());
    assert!(matches!(res, Err(ResponseError::DataFormat { .. })));
}

#[test]
fn test_payload_decode_failure() {
    let res: Result<AccessTokenResponse, ResponseError> = withings::handle_response(
        200,
        "req".to_string(),
        "{\"status\":0,\"body\":{}}".to_string(),
    );
    assert!(matches!(res, Err(ResponseError::DataFormat { .. })));
}

#[test]
fn test_payload_bad_scope_string() {
    let body = "{\"status\":0,\"body\":{\"userid\":1,\"access_token\":\"a\",\"refresh_token\":\"r\",\"expires_in\":1,\"scope\":\"user.bogus\",\"token_type\":\"Bearer\"}}";
    let res: Result<AccessTokenResponse, ResponseError> =
        withings::handle_response(200, "req".to_string(), body.to_string());
    assert!(matches!(res, Err(ResponseError::DataFormat { .. })));
}

#[test]
fn test_http_status_boundaries() {
    let body = "{\"status\":503,\"body\":{}}".to_string();
    // 299 is still transport success: the vendor status decides
    let res: Result<AccessTokenResponse, ResponseError> =
        withings::handle_response(299, "req".to_string(), body.clone());
    assert!(matches!(
        res,
        Err(ResponseError::Api(WithingsApiError::InvalidParams { status: 503, .. }))
    ));
    // 199 and 300 are transport failures whatever the body holds
    for st in [199u16, 300u16] {
        let res: Result<AccessTokenResponse, ResponseError> =
            withings::handle_response(st, "req".to_string(), body.clone());
        match res {
            Err(ResponseError::Api(WithingsApiError::InternalServerError { status, .. })) => {
                assert_eq!(status, st);
            }
            _ => panic!("expected InternalServerError"),
        }
    }
}

#[test]
fn test_vendor_status_range_edges() {
    for (st, auth) in [(101u64, true), (102, true), (200, true), (501, false), (511, false)] {
        let body = format!("{{\"status\":{},\"body\":{{}}}}", st);
        let res: Result<AccessTokenResponse, ResponseError> =
            withings::handle_response(200, "req".to_string(), body);
        match res {
            Err(ResponseError::Api(WithingsApiError::AuthenticationFailed { status, .. })) => {
                assert!(auth);
                assert_eq!(status, st);
            }
            Err(ResponseError::Api(WithingsApiError::InvalidParams { status, .. })) => {
                assert!(!auth);
                assert_eq!(status, st);
            }
            _ => panic!("expected a classified vendor error"),
        }
    }
    // 500 and 512 sit just outside the invalid-params range
    for st in [500u64, 512u64] {
        let body = format!("{{\"status\":{},\"body\":{{}}}}", st);
        let res: Result<AccessTokenResponse, ResponseError> =
            withings::handle_response(200, "req".to_string(), body);
        match res {
            Err(ResponseError::UnrecognizedStatus { status, .. }) => assert_eq!(status, st),
            _ => panic!("expected UnrecognizedStatus"),
        }
    }
}

#[test]
fn test_error_describe() {
    let e = WithingsApiError::InvalidParams {
        status: 503,
        request: "req".to_string(),
        response: "res".to_string(),
    };
    assert_eq!(e.describe(), "Status: 503 Req: req Res: res");

    let e = WithingsApiError::InternalServerError {
        status: 500,
        request: "req".to_string(),
        response: "res".to_string(),
    };
    assert_eq!(e.describe(), "Status: 500 Req: req Res: res");
}

#[test]
fn test_meas_form_body_numbers() {
    let req = GetMeasRequest {
        action: "getmeas".into(),
        meastype: None,
        meastypes: Some(vec![0, 10, 18446744073709551615]),
        category: None,
        startdate: None,
        enddate: None,
        offset: None,
        lastupdate: None,
    };
    assert_eq!(
        req.to_form_body(),
        "action=getmeas&meastypes=0,10,18446744073709551615"
    );
}

#[test]
fn test_meas_form_body_omits_absent_fields() {
    let req = GetMeasRequest {
        action: "getmeas".into(),
        ..Default::default()
    };
    assert_eq!(req.to_form_body(), "action=getmeas");
}
