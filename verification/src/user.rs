//! Log-in and registration requests and the answers the server gives them.
use vstd::prelude::*;

verus! {

/// A log-in request.
#[derive(Debug)]
pub struct LoginUserRequest {
    pub user_name: String,
    pub passwd_hash: String,
}

/// The answer to a log-in request.
#[derive(Debug)]
pub struct LoginUserResponse {
    pub success: bool,
    pub message: String,
}

/// A registration request.
#[derive(Debug)]
pub struct RegisterUserRequest {
    pub email_addr: String,
    pub user_name: String,
    pub passwd_hash: String,
}

/// The answer to a registration request.
#[derive(Debug)]
pub struct RegisterUserResponse {
    pub success: bool,
    pub message: String,
}

/// The answer to a log-in request: accounts are not checked yet, so every
/// request succeeds with an empty message.
pub fn answer_login(request: &LoginUserRequest) -> (res: LoginUserResponse)
    ensures
        res.success,
        res.message@.len() == 0,
{
    LoginUserResponse { success: true, message: String::new() }
}

/// The answer to a registration request: accounts are not checked or stored
/// yet, so every request succeeds with an empty message.
pub fn answer_register(request: &RegisterUserRequest) -> (res: RegisterUserResponse)
    ensures
        res.success,
        res.message@.len() == 0,
{
    RegisterUserResponse { success: true, message: String::new() }
}

} // verus!
