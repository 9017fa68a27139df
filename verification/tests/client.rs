use withings::AccessToken;
use withings::AccessTokenResponse;
use withings::ApiCli;
use withings::AuthCli;
use withings::GetMeasRequest;
use withings::RefreshToken;
use withings::RefreshTokenResponse;
use withings::ResponseError;
use withings::Scope;
use withings::WithingsApiError;
use withings::WITHINGS_API_URL;

fn auth_client() -> AuthCli {
    AuthCli::new(
        WITHINGS_API_URL.to_string(),
        "test_client_id".to_string(),
        "test_consumer_secret".to_string(),
        "https://localhost".to_string(),
        vec![Scope::UserInfo, Scope::UserMetrics],
        Some("mode".to_string()),
    )
}

const TOKEN_BODY: &str = "{\"status\":0,\"body\":{\"userid\":363,\"access_token\":\"test_access_token\",\"refresh_token\":\"test_refresh_token\",\"expires_in\":10800,\"scope\":\"user.info,user.metrics\",\"token_type\":\"Bearer\"}}";

#[test]
fn test_desrialize_access_token_response() {
    let data: AccessTokenResponse =
        withings::handle_response(200, "deserialize".to_string(), TOKEN_BODY.to_string()).unwrap();
    assert_eq!(
        data,
        AccessTokenResponse {
            status: 0,
            body: AccessToken {
                user_id: 363,
                access_token: "test_access_token".into(),
                refresh_token: "test_refresh_token".into(),
                expires_in: 10800,
                scope: vec![Scope::UserInfo, Scope::UserMetrics],
                token_type: "Bearer".into(),
            }
        }
    );
}

#[test]
fn test_get_access_token() {
    let client = auth_client();
    let code = "sample_authorization_code";
    let req = client.access_token_request(code);
    assert_eq!(
        req.to_form_body(),
        "action=requesttoken&grant_type=authorization_code&client_id=test_client_id&client_secret=test_consumer_secret&redirect_uri=https%3A%2F%2Flocalhost&code=sample_authorization_code"
    );

    let res: AccessTokenResponse =
        withings::handle_response(200, format!("{:?}", req), TOKEN_BODY.to_string()).unwrap();
    assert_eq!(
        res,
        AccessTokenResponse {
            status: 0,
            body: AccessToken {
                user_id: 363,
                access_token: "test_access_token".into(),
                refresh_token: "test_refresh_token".into(),
                expires_in: 10800,
                scope: vec![Scope::UserInfo, Scope::UserMetrics],
                token_type: "Bearer".into(),
            }
        }
    );
}

#[test]
fn test_get_access_token_internal_server_error() {
    let client = auth_client();
    let code = "sample_authorization_code";
    let req = client.access_token_request(code);

    let res: Result<AccessTokenResponse, ResponseError> =
        withings::handle_response(500, format!("{:?}", req), String::new());

    match res {
        Err(ResponseError::Api(WithingsApiError::InternalServerError { status, .. })) => {
            assert_eq!(status, 500);
        }
        _ => panic!("is not WithingsError"),
    }
}

#[test]
fn test_get_access_token_invalid_params_error() {
    let client = auth_client();
    let code = "sample_authorization_code";
    let req = client.access_token_request(code);

    let res: Result<AccessTokenResponse, ResponseError> = withings::handle_response(
        200,
        format!("{:?}", req),
        "{\"status\":503,\"body\":{}}".to_string(),
    );

    match res {
        Err(ResponseError::Api(WithingsApiError::InvalidParams { status, .. })) => {
            assert_eq!(status, 503);
        }
        _ => panic!("is not WithingsApiError"),
    }
}

#[test]
fn test_get_refresh_token() {
    let client = auth_client();
    let refresh_token = "sample_refresh_token";
    let req = client.refresh_token_request(refresh_token);
    assert_eq!(
        req.to_form_body(),
        "action=requesttoken&grant_type=refresh_token&client_id=test_client_id&client_secret=test_consumer_secret&refresh_token=sample_refresh_token"
    );

    let res: RefreshTokenResponse =
        withings::handle_response(200, format!("{:?}", req), TOKEN_BODY.to_string()).unwrap();
    assert_eq!(
        res,
        RefreshTokenResponse {
            status: 0,
            body: RefreshToken {
                user_id: 363,
                access_token: "test_access_token".into(),
                refresh_token: "test_refresh_token".into(),
                expires_in: 10800,
                scope: vec![Scope::UserInfo, Scope::UserMetrics],
                token_type: "Bearer".into(),
            }
        }
    );
}

#[test]
fn test_get_meas() {
    let client = ApiCli::new("access_token".to_string(), WITHINGS_API_URL.to_string());
    assert_eq!(client.authorization_header(), "Bearer access_token");
    assert_eq!(
        client.measure_url(),
        "https://wbsapi.withings.net/measure"
    );

    let req = GetMeasRequest {
        action: "getmeas".into(),
        meastype: Some(1),
        meastypes: None,
        category: Some(1),
        startdate: Some(1),
        enddate: Some(12345),
        offset: Some(1),
        lastupdate: Some(12345),
    };
    assert_eq!(
        req.to_form_body(),
        "action=getmeas&meastype=1&category=1&startdate=1&enddate=12345&offset=1&lastupdate=12345"
    );

    let response_body = "{\"status\":0,\"body\":{\"updatetime\":\"1644138861\",\"timezone\":\"Asia/Tokyo\",\"measuregrps\":[{\"grpid\":123456789,\"attrib\":0,\"date\":1643969671,\"created\":1643969717,\"category\":1,\"deviceid\":\"cc50f32653df14137da15aaaaa7b2e07\",\"hash_deviceid\":\"f32bbbb318f14137da157b2e07\",\"measures\":[{\"value\":80000,\"type\":1,\"unit\":-3,\"algo\":3,\"fm\":131,\"apppfmid\":7,\"appliver\":5080201}],\"comment\":\"test comment\"}],\"more\":1,\"offset\":0}}";

    let res: serde_json::Value =
        withings::handle_response(200, format!("{:?}", req), response_body.to_string()).unwrap();
    let expected: serde_json::Value = serde_json::from_str(response_body).unwrap();
    assert_eq!(res, expected);
}
