//! What the handling of an inbound message reports back to the relay.

use vstd::prelude::*;

verus! {

/// The text of a success.
pub const SUCCESS: &'static str = "Success";

/// The outcome of an inbound message: whether it took effect, and why not.
#[derive(Debug, Clone)]
pub struct HandleCallMessageResponse {
    pub success: bool,
    pub message: String,
}

/// What a response says.
pub struct ResponseView {
    pub success: bool,
    pub message: Seq<char>,
}

impl View for HandleCallMessageResponse {
    type V = ResponseView;

    open spec fn view(&self) -> ResponseView {
        ResponseView { success: self.success, message: self.message@ }
    }
}

impl HandleCallMessageResponse {
    /// The response to a message that took effect.
    pub fn succeeded() -> (r: Self)
        ensures
            r@ == (ResponseView { success: true, message: SUCCESS@ }),
    {
        HandleCallMessageResponse { success: true, message: SUCCESS.to_owned() }
    }

    /// The response to a message that was refused for the reason in `message`.
    pub fn failed(message: String) -> (r: Self)
        ensures
            r@ == (ResponseView { success: false, message: message@ }),
    {
        HandleCallMessageResponse { success: false, message }
    }
}

} // verus!
