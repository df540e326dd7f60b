//! The errors a control-plane request can end in.

use vstd::prelude::*;

verus! {

/// Why a control-plane request failed.
#[derive(Debug)]
pub enum RequestError {
    /// The transport failed; the text is the transport's own report.
    NatsError(String),
    /// The broker answered with this failure text.
    MemphisError(String),
    /// The broker's reply was not the JSON the protocol promises.
    SerdeError(String),
    /// A request was attempted while disconnected.
    NotConnected,
}

/// The mathematical shape of a `RequestError`.
pub enum RequestErrorView {
    Nats(Seq<char>),
    Memphis(Seq<char>),
    Serde(Seq<char>),
    NotConnected,
}

impl RequestError {
    /// The error as its mathematical shape.
    pub open spec fn view(&self) -> RequestErrorView {
        match self {
            RequestError::NatsError(t) => RequestErrorView::Nats(t@),
            RequestError::MemphisError(t) => RequestErrorView::Memphis(t@),
            RequestError::SerdeError(t) => RequestErrorView::Serde(t@),
            RequestError::NotConnected => RequestErrorView::NotConnected,
        }
    }

    /// A display text, in the shape `Kind: detail`.
    pub fn message(&self) -> (r: String)
        ensures
            r@ == self.message_text(),
    {
        match self {
            RequestError::NatsError(t) => crate::text::concat2("NatsError: ", t.as_str()),
            RequestError::MemphisError(t) => crate::text::concat2("MemphisError: ", t.as_str()),
            RequestError::SerdeError(t) => crate::text::concat2("SerdeError: ", t.as_str()),
            RequestError::NotConnected => crate::text::concat2(
                "Tried to send request whilst not connected",
                "",
            ),
        }
    }

    /// The exact display text.
    pub open spec fn message_text(&self) -> Seq<char> {
        match self {
            RequestError::NatsError(t) => "NatsError: "@ + t@,
            RequestError::MemphisError(t) => "MemphisError: "@ + t@,
            RequestError::SerdeError(t) => "SerdeError: "@ + t@,
            RequestError::NotConnected => "Tried to send request whilst not connected"@ + ""@,
        }
    }
}

/// A request result as its mathematical shape.
pub open spec fn request_result_view(r: Result<(), RequestError>) -> Result<(), RequestErrorView> {
    match r {
        Result::Ok(u) => Result::Ok(u),
        Result::Err(e) => Result::Err(e.view()),
    }
}

} // verus!
