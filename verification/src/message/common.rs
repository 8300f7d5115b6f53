//! Payloads shared by every kind of request.

use vstd::prelude::*;
use vstd::std_specs::convert::FromSpecImpl;

verus! {

/// Payload of a reply that reports success and nothing more.
#[derive(Debug, PartialEq, Eq)]
pub struct CommonSuccessResponseData {
    pub message: String,
}

/// Payload of the reply that reports any failure, with a text for a human reader.
#[derive(Debug, PartialEq, Eq)]
pub struct CommonErrorResponseData {
    pub message: String,
}

impl View for CommonSuccessResponseData {
    type V = Seq<char>;

    open spec fn view(&self) -> Seq<char> {
        self.message@
    }
}

impl View for CommonErrorResponseData {
    type V = Seq<char>;

    open spec fn view(&self) -> Seq<char> {
        self.message@
    }
}

impl From<String> for CommonErrorResponseData {
    fn from(message: String) -> (res: Self) {
        CommonErrorResponseData { message }
    }
}

impl FromSpecImpl<String> for CommonErrorResponseData {
    open spec fn obeys_from_spec() -> bool {
        true
    }

    open spec fn from_spec(message: String) -> Self {
        CommonErrorResponseData { message }
    }
}

} // verus!
