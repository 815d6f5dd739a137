use vstd::prelude::*;

verus! {

/// The reply of the authentication service to a successful login.
#[derive(Debug, Clone)]
pub struct LoginResponse {
    pub token: String,
    pub username: String,
}

/// The reply of the authentication service to a refused login.
#[derive(Debug, Clone)]
pub struct LoginError {
    error: String,
    message: String,
}

impl LoginError {
    pub fn new(error: String, message: String) -> (r: LoginError)
        ensures
            r.error_view() == error@,
            r.message_view() == message@,
    {
        LoginError { error, message }
    }

    pub closed spec fn error_view(&self) -> Seq<char> {
        self.error@
    }

    pub closed spec fn message_view(&self) -> Seq<char> {
        self.message@
    }

    /// The short error code given by the service.
    pub fn error(&self) -> (r: &String)
        ensures
            r@ == self.error_view(),
    {
        &self.error
    }

    /// The human-readable explanation given by the service.
    pub fn message(&self) -> (r: &String)
        ensures
            r@ == self.message_view(),
    {
        &self.message
    }
}

} // verus!
