use medkit::auxiliary::cors::{Header, CORS};
use medkit::auxiliary::responses::{
    default_error_catcher, ErrorResponse, GenericError, StoreFailure, SuccessResponse,
};
use medkit::auxiliary::wechat_access_token::{
    expiration, token_url, TokenStep, WechatAccessTokenResponse, WechatAccessTokenState,
    EXPIRY_MARGIN_SECONDS,
};

fn all_errors() -> Vec<GenericError> {
    vec![
        GenericError::StoreError(StoreFailure::NotFound),
        GenericError::StoreError(StoreFailure::ConstraintViolation),
        GenericError::StoreError(StoreFailure::Other),
        GenericError::ProductDuplicateError,
        GenericError::ProductReuseError,
        GenericError::TokenError,
        GenericError::AuthError,
        GenericError::ServerInternalError,
        GenericError::UserNotExistError,
        GenericError::PasswordIncorrectError,
        GenericError::PasswordNotSetError,
        GenericError::UserAlreadyExistsError,
        GenericError::PermissionDeniedError,
        GenericError::InvalidInputError,
        GenericError::GetWechatAccessTokenError,
        GenericError::GetWechatOpenIdError,
        GenericError::GetWechatUserinfoError,
        GenericError::ProfileNotExistError,
    ]
}

#[test]
fn every_error_has_its_message() {
    let messages = [
        "请求的资源不存在",
        "数据库错误",
        "数据库错误",
        "产品重复初始化",
        "产品已被使用",
        "Token解析错误",
        "用户认证错误",
        "服务器内部错误",
        "用户不存在",
        "密码错误",
        "密码未设置",
        "用户名已被占用",
        "权限错误",
        "输入不合法",
        "微信AccessToken获取失败",
        "微信OpenId获取失败",
        "微信Userinfo获取失败",
        "档案未填写",
    ];
    for (error, message) in all_errors().into_iter().zip(messages) {
        assert_eq!(error.message(), message);
    }
}

#[test]
fn statuses_follow_one_policy() {
    for error in all_errors() {
        let expected = match error {
            GenericError::TokenError | GenericError::AuthError => 401,
            GenericError::PermissionDeniedError => 403,
            GenericError::StoreError(StoreFailure::NotFound) => 404,
            _ => 500,
        };
        assert_eq!(error.status(), expected);
    }
}

#[test]
fn errors_leave_in_an_envelope() {
    for error in all_errors() {
        let (status, body) = error.respond_to();
        assert_eq!(status, error.status());
        assert_eq!(body, ErrorResponse { success: false, message: error.message(), error_code: None });
    }
    assert_eq!(
        GenericError::PermissionDeniedError.respond_to(),
        (403, ErrorResponse { success: false, message: "权限错误".to_string(), error_code: None })
    );
}

#[test]
fn store_failures_are_wrapped() {
    assert_eq!(GenericError::from(StoreFailure::NotFound), GenericError::StoreError(StoreFailure::NotFound));
    assert_eq!(GenericError::from(StoreFailure::Other), GenericError::StoreError(StoreFailure::Other));
}

#[test]
fn success_is_wrapped() {
    assert_eq!(SuccessResponse::build(5), Ok(SuccessResponse { success: true, data: 5 }));
    assert_eq!(
        SuccessResponse::build("成功".to_string()),
        Ok(SuccessResponse { success: true, data: "成功".to_string() })
    );
}

#[test]
fn unhandled_statuses_are_caught() {
    assert_eq!(
        default_error_catcher(404, Some("Not Found")),
        ErrorResponse { success: false, message: "Not Found".to_string(), error_code: Some(404) }
    );
    assert_eq!(
        default_error_catcher(599, None),
        ErrorResponse { success: false, message: "服务器内部错误".to_string(), error_code: Some(599) }
    );
    assert_eq!(default_error_catcher(u16::MAX, None).error_code, Some(65535));
}

#[test]
fn cors_headers() {
    assert_eq!(CORS.info(), "CORS policy specifier");
    let header = |name: &str, value: &str| Header { name: name.to_string(), value: value.to_string() };
    assert_eq!(
        CORS.on_response("https://app.example.org"),
        vec![
            header("Access-Control-Allow-Origin", "https://app.example.org"),
            header("Access-Control-Allow-Methods", "POST, GET"),
            header("Access-Control-Allow-Headers", "*"),
            header("Access-Control-Allow-Credentials", "true"),
        ]
    );
}

#[test]
fn access_token_is_used_until_its_margin() {
    let response = WechatAccessTokenResponse { access_token: "T1".to_string(), expires_in: 7200 };
    let mut state = WechatAccessTokenState::new(response, 1000);
    assert_eq!(state.state.access_token, "T1");
    assert_eq!(state.state.expiration_time, 1000 + 7200 - 360);
    assert_eq!(state.get(1000), TokenStep::Ready("T1".to_string()));
    assert_eq!(state.get(7840), TokenStep::Ready("T1".to_string()));
    assert_eq!(state.get(7841), TokenStep::Fetch);
    assert_eq!(state.refetch(None, 7841), Err(medkit::auxiliary::responses::GenericError::GetWechatAccessTokenError));
    assert_eq!(state.state.access_token, "T1");
    assert_eq!(state.state.expiration_time, 7840);
    let fresh = WechatAccessTokenResponse { access_token: "T2".to_string(), expires_in: 7200 };
    assert_eq!(state.refetch(Some(fresh), 7841), Ok(()));
    assert_eq!(state.get(7841), TokenStep::Ready("T2".to_string()));
    assert_eq!(state.state.expiration_time, 7841 + 6840);
}

#[test]
fn expiration_stays_in_range() {
    assert_eq!(EXPIRY_MARGIN_SECONDS, 360);
    assert_eq!(expiration(0, 7200), 6840);
    assert_eq!(expiration(0, 0), -360);
    assert_eq!(expiration(100, 100), -160);
    assert_eq!(expiration(i64::MAX, 7200), i64::MAX);
    assert_eq!(expiration(i64::MAX, 360), i64::MAX);
    assert_eq!(expiration(i64::MAX, 359), i64::MAX - 1);
    assert_eq!(expiration(i64::MIN, 0), i64::MIN);
    assert_eq!(expiration(i64::MIN, i32::MIN), i64::MIN);
    assert_eq!(expiration(0, i32::MIN), i32::MIN as i64 - 360);
}

#[test]
fn access_token_address() {
    assert_eq!(
        token_url("APPID", "SECRET"),
        "https://api.weixin.qq.com/cgi-bin/token?grant_type=client_credential&appid=APPID&secret=SECRET"
    );
}
