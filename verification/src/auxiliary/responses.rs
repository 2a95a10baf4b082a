//! The error taxonomy of the handlers and the envelope every response shares.

use vstd::prelude::*;

verus! {

/// Why a call to the record store failed.
#[derive(Clone, Copy, Debug, PartialEq, Eq, Structural)]
pub enum StoreFailure {
    /// The row asked for does not exist.
    NotFound,
    /// A uniqueness or reference constraint refused the write.
    ConstraintViolation,
    /// Any other failure of the store or of the connection to it.
    Other,
}

/// Every way a request can fail.
#[derive(Clone, Copy, Debug, PartialEq, Eq, Structural)]
pub enum GenericError {
    StoreError(StoreFailure),
    ProductDuplicateError,
    ProductReuseError,
    TokenError,
    AuthError,
    ServerInternalError,
    UserNotExistError,
    PasswordIncorrectError,
    PasswordNotSetError,
    UserAlreadyExistsError,
    PermissionDeniedError,
    InvalidInputError,
    GetWechatAccessTokenError,
    GetWechatOpenIdError,
    GetWechatUserinfoError,
    ProfileNotExistError,
}

impl GenericError {
    /// The message shown to the user for this error.
    pub open spec fn spec_message(self) -> Seq<char> {
        match self {
            GenericError::StoreError(StoreFailure::NotFound) => "请求的资源不存在"@,
            GenericError::StoreError(_) => "数据库错误"@,
            GenericError::ProductDuplicateError => "产品重复初始化"@,
            GenericError::ProductReuseError => "产品已被使用"@,
            GenericError::TokenError => "Token解析错误"@,
            GenericError::AuthError => "用户认证错误"@,
            GenericError::ServerInternalError => "服务器内部错误"@,
            GenericError::UserNotExistError => "用户不存在"@,
            GenericError::PasswordIncorrectError => "密码错误"@,
            GenericError::PasswordNotSetError => "密码未设置"@,
            GenericError::UserAlreadyExistsError => "用户名已被占用"@,
            GenericError::PermissionDeniedError => "权限错误"@,
            GenericError::InvalidInputError => "输入不合法"@,
            GenericError::GetWechatAccessTokenError => "微信AccessToken获取失败"@,
            GenericError::GetWechatOpenIdError => "微信OpenId获取失败"@,
            GenericError::GetWechatUserinfoError => "微信Userinfo获取失败"@,
            GenericError::ProfileNotExistError => "档案未填写"@,
        }
    }

    /// The HTTP status sent with this error: 401 for a missing, unreadable or
    /// rejected credential, 403 for a role that is too low, 404 for a row that
    /// does not exist, and 500 for everything else.
    pub open spec fn spec_status(self) -> u16 {
        match self {
            GenericError::TokenError | GenericError::AuthError => 401,
            GenericError::PermissionDeniedError => 403,
            GenericError::StoreError(StoreFailure::NotFound) => 404,
            _ => 500,
        }
    }

    /// The message shown to the user for this error.
    pub fn message(&self) -> (text: String)
        ensures
            text@ == self.spec_message(),
    {
        let text: &str = match self {
            GenericError::StoreError(StoreFailure::NotFound) => "请求的资源不存在",
            GenericError::StoreError(_) => "数据库错误",
            GenericError::ProductDuplicateError => "产品重复初始化",
            GenericError::ProductReuseError => "产品已被使用",
            GenericError::TokenError => "Token解析错误",
            GenericError::AuthError => "用户认证错误",
            GenericError::ServerInternalError => "服务器内部错误",
            GenericError::UserNotExistError => "用户不存在",
            GenericError::PasswordIncorrectError => "密码错误",
            GenericError::PasswordNotSetError => "密码未设置",
            GenericError::UserAlreadyExistsError => "用户名已被占用",
            GenericError::PermissionDeniedError => "权限错误",
            GenericError::InvalidInputError => "输入不合法",
            GenericError::GetWechatAccessTokenError => "微信AccessToken获取失败",
            GenericError::GetWechatOpenIdError => "微信OpenId获取失败",
            GenericError::GetWechatUserinfoError => "微信Userinfo获取失败",
            GenericError::ProfileNotExistError => "档案未填写",
        };
        text.to_owned()
    }

    /// The HTTP status sent with this error.
    pub fn status(&self) -> (code: u16)
        ensures
            code == self.spec_status(),
    {
        match self {
            GenericError::TokenError | GenericError::AuthError => 401,
            GenericError::PermissionDeniedError => 403,
            GenericError::StoreError(StoreFailure::NotFound) => 404,
            _ => 500,
        }
    }

    /// The envelope and the status with which this error leaves the server.
    pub fn respond_to(&self) -> (out: (u16, ErrorResponse))
        ensures
            out.0 == self.spec_status(),
            out.1.success == false,
            out.1.message@ == self.spec_message(),
            out.1.error_code is None,
    {
        (self.status(), ErrorResponse { success: false, message: self.message(), error_code: None })
    }

    /// Wraps a failure of the record store.
    pub fn from(failure: StoreFailure) -> (e: GenericError)
        ensures
            e == GenericError::StoreError(failure),
    {
        GenericError::StoreError(failure)
    }
}

/// The body of a failed response.
#[derive(Clone, Debug, PartialEq, Eq)]
pub struct ErrorResponse {
    pub success: bool,
    pub message: String,
    pub error_code: Option<i32>,
}

/// The body of a successful response.
#[derive(Clone, Debug, PartialEq, Eq)]
pub struct SuccessResponse<T> {
    pub success: bool,
    pub data: T,
}

impl<T> SuccessResponse<T> {
    /// Wraps `data` in a successful envelope.
    pub fn build(data: T) -> (out: Result<SuccessResponse<T>, GenericError>)
        ensures
            out == Ok::<SuccessResponse<T>, GenericError>(SuccessResponse { success: true, data }),
    {
        Ok(SuccessResponse { success: true, data })
    }
}

/// The body sent when no handler answered: the reason phrase of the status, or
/// a general message where the status has none, with the status code.
pub fn default_error_catcher(code: u16, reason: Option<&str>) -> (out: ErrorResponse)
    ensures
        out.success == false,
        out.message@ == match reason {
            Some(text) => text@,
            None => "服务器内部错误"@,
        },
        out.error_code == Some(code as i32),
{
    let message = match reason {
        Some(text) => text.to_owned(),
        None => "服务器内部错误".to_owned(),
    };
    ErrorResponse { success: false, message, error_code: Some(code as i32) }
}

} // verus!
