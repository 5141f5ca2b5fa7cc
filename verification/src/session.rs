//! Authentication against the remote service: what the answer to a login
//! request means.

use crate::text::{decimal, decimal_of};
use crate::transport::{is_success, status_is_success, Exchange, ExchangeModel};
use vstd::prelude::*;
use vstd::string::StringExecFns;

verus! {

/// Why authentication failed.
#[derive(Debug, Clone, Copy, PartialEq, Eq, Structural)]
pub enum AuthError {
    /// The login request failed, or its response could not be read.
    Transport,
    /// The service answered the login with a status outside the success
    /// class.
    Rejected(u16),
}

/// What the answer to a login request means: success for a status of the
/// success class, an error for everything else.
pub open spec fn login_result_of(exchange: ExchangeModel) -> Result<(), AuthError> {
    match exchange {
        ExchangeModel::Failed => Err(AuthError::Transport),
        ExchangeModel::Response { status, body } => if status_is_success(status) {
            Ok(())
        } else {
            Err(AuthError::Rejected(status))
        },
    }
}

/// Reads the answer to a login request.
pub fn login_outcome(exchange: &Exchange) -> (outcome: Result<(), AuthError>)
    ensures
        outcome == login_result_of(exchange.deep_view()),
{
    match exchange {
        Exchange::Failed => Err(AuthError::Transport),
        Exchange::Response { status, body } => {
            if is_success(*status) {
                Ok(())
            } else {
                Err(AuthError::Rejected(*status))
            }
        },
    }
}

/// What an authentication error says to a person.
pub open spec fn auth_message_of(error: AuthError) -> Seq<char> {
    match error {
        AuthError::Transport => "failed to reach kattis to log in"@,
        AuthError::Rejected(code) => "failed to log in to kattis (http status code "@ + decimal_of(
            code as nat,
        ) + ")"@,
    }
}

impl AuthError {
    /// What the error says to a person.
    pub fn message(&self) -> (text: String)
        ensures
            text@ == auth_message_of(*self),
    {
        match self {
            AuthError::Transport => "failed to reach kattis to log in".to_owned(),
            AuthError::Rejected(code) => {
                let mut text = "failed to log in to kattis (http status code ".to_owned();
                text.append(decimal(*code).as_str());
                text.append(")");
                text
            },
        }
    }
}

} // verus!
