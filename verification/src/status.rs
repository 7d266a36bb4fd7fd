//! What a caller of the gateway is told when something fails.

use vstd::prelude::*;

verus! {

/// The kinds of answer that tell a caller of a failure.
#[derive(Clone, Copy, Debug, PartialEq, Eq, Structural)]
pub enum Code {
    /// The request lacks something it must have.
    InvalidArgument,
    /// The caller is not who it says, or may not do this.
    Unauthenticated,
    /// The upstream service is out of order.
    Unavailable,
    /// Something went wrong on this side.
    Internal,
    /// The operation does not exist yet.
    Unimplemented,
}

/// An answer that tells a caller of a failure.
pub struct Status {
    /// The kind of failure.
    pub code: Code,
    /// The failure in words, for the person at the other end.
    pub message: String,
}

/// The ways in which a call to the upstream services fails.
pub enum ApiFailure {
    /// The session has not logged in.
    NotLogin,
    /// The session has no access to the service.
    NotAccess,
    /// The session could not be set up.
    Session,
    /// The request could not be sent.
    Request,
    /// The response could not be read.
    ModelParse,
    /// The upstream site reported an error of its own.
    Website { msg: String },
    /// A fault inside the client library.
    Inner,
    /// Any other fault.
    Whatever,
}

/// How a login attempt ended.
#[derive(Clone, Copy, Debug, PartialEq, Eq, Structural)]
pub enum LoginOutcome {
    /// The credentials were taken.
    Success,
    /// The credentials were refused.
    IncorrectLoginCredentials,
}

/// The kind of answer for each failure.
pub open spec fn code_of(failure: ApiFailure) -> Code {
    match failure {
        ApiFailure::NotLogin => Code::Unauthenticated,
        ApiFailure::NotAccess => Code::Unauthenticated,
        ApiFailure::Website { msg } => Code::Unavailable,
        _ => Code::Internal,
    }
}

/// The words for each failure.
pub open spec fn words_of(failure: ApiFailure) -> Seq<char> {
    match failure {
        ApiFailure::NotLogin => "登录失败，请检查用户名或密码"@,
        ApiFailure::NotAccess => "获取教务网访问权限失败，请稍后重试"@,
        ApiFailure::Request => "教务网请求发送失败，请稍后重试，长时间出现请联系管理员员"@,
        ApiFailure::ModelParse => "教务网响应解析失败，请稍后重试，长时间出现请联系管理员"@,
        ApiFailure::Website { msg } => "教务网异常："@ + msg@,
        ApiFailure::Inner => "内部异常，请联系管理员"@,
        ApiFailure::Whatever => "内部异常，请联系管理员"@,
        ApiFailure::Session => "内部异常，请联系管理员"@,
    }
}

/// The answer that tells a caller of `failure`.
pub fn into_status(failure: ApiFailure) -> (status: Status)
    ensures
        status.code == code_of(failure),
        status.message@ == words_of(failure),
{
    match failure {
        ApiFailure::NotLogin => Status {
            code: Code::Unauthenticated,
            message: "登录失败，请检查用户名或密码".to_string(),
        },
        ApiFailure::NotAccess => Status {
            code: Code::Unauthenticated,
            message: "获取教务网访问权限失败，请稍后重试".to_string(),
        },
        ApiFailure::Request => Status {
            code: Code::Internal,
            message: "教务网请求发送失败，请稍后重试，长时间出现请联系管理员员".to_string(),
        },
        ApiFailure::ModelParse => Status {
            code: Code::Internal,
            message: "教务网响应解析失败，请稍后重试，长时间出现请联系管理员".to_string(),
        },
        ApiFailure::Website { msg } => {
            let mut message = "教务网异常：".to_string();
            message.append(msg.as_str());
            Status { code: Code::Unavailable, message }
        },
        ApiFailure::Inner => Status { code: Code::Internal, message: "内部异常，请联系管理员".to_string() },
        ApiFailure::Whatever => Status { code: Code::Internal, message: "内部异常，请联系管理员".to_string() },
        ApiFailure::Session => Status { code: Code::Internal, message: "内部异常，请联系管理员".to_string() },
    }
}

/// The answer to a login attempt: none is owed for a success, and refused
/// credentials are told like a session that has not logged in.
pub fn login_status(outcome: LoginOutcome) -> (status: Option<Status>)
    ensures
        match status {
            None => outcome == LoginOutcome::Success,
            Some(told) => {
                &&& outcome == LoginOutcome::IncorrectLoginCredentials
                &&& told.code == Code::Unauthenticated
                &&& told.message@ == words_of(ApiFailure::NotLogin)
            },
        },
{
    match outcome {
        LoginOutcome::Success => None,
        LoginOutcome::IncorrectLoginCredentials => Some(into_status(ApiFailure::NotLogin)),
    }
}

/// The answer to a caller for whom the pool has no client.
pub fn no_client_status() -> (status: Status)
    ensures
        status.code == Code::Internal,
        status.message@ == "Failed to get proxied client"@,
{
    Status { code: Code::Internal, message: "Failed to get proxied client".to_string() }
}

/// The answer to a request that came without login information.
pub fn missing_login_status() -> (status: Status)
    ensures
        status.code == Code::InvalidArgument,
        status.message@ == "缺失登录信息"@,
{
    Status { code: Code::InvalidArgument, message: "缺失登录信息".to_string() }
}

/// The answer to a request whose term the upstream service left without a
/// number.
pub fn unnumbered_term_status() -> (status: Status)
    ensures
        status.code == Code::InvalidArgument,
        status.message@ == "教务网响应异常，请联系管理员"@,
{
    Status { code: Code::InvalidArgument, message: "教务网响应异常，请联系管理员".to_string() }
}

/// The answer to a request for a timetable that names no term.
pub fn missing_term_status() -> (status: Status)
    ensures
        status.code == Code::InvalidArgument,
        status.message@ == "缺少查询学期信息"@,
{
    Status { code: Code::InvalidArgument, message: "缺少查询学期信息".to_string() }
}

/// The answer to a request for an operation that does not exist yet.
pub fn unimplemented_status() -> (status: Status)
    ensures
        status.code == Code::Unimplemented,
        status.message@ == "Not yet implemented"@,
{
    Status { code: Code::Unimplemented, message: "Not yet implemented".to_string() }
}

} // verus!
