//! Plain values exchanged with the HTTP transport.

use vstd::prelude::*;

verus! {

/// Whether an HTTP status code is in the success class.
pub open spec fn status_is_success(code: u16) -> bool {
    200 <= code < 300
}

/// Tells whether `code` is a 2xx status.
pub fn is_success(code: u16) -> (ok: bool)
    ensures
        ok == status_is_success(code),
{
    200 <= code && code < 300
}

/// How one request to the remote service ended.
#[derive(Debug, Clone, PartialEq, Eq)]
pub enum Exchange {
    /// The request could not be sent, or its response could not be read.
    Failed,
    /// The service answered.
    Response {
        /// The HTTP status code of the answer.
        status: u16,
        /// The body of the answer, as text.
        body: String,
    },
}

/// The mathematical model of an [`Exchange`].
pub enum ExchangeModel {
    Failed,
    Response { status: u16, body: Seq<char> },
}

impl DeepView for Exchange {
    type V = ExchangeModel;

    open spec fn deep_view(&self) -> ExchangeModel {
        match self {
            Exchange::Failed => ExchangeModel::Failed,
            Exchange::Response { status, body } => ExchangeModel::Response {
                status: *status,
                body: body@,
            },
        }
    }
}

impl View for Exchange {
    type V = ExchangeModel;

    open spec fn view(&self) -> ExchangeModel {
        self.deep_view()
    }
}

} // verus!
