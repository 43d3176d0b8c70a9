//! The protocol set and its governance.

use vstd::prelude::*;
use crate::address::AccountKey;
use crate::views::{blobs, texts};

verus! {

/// The relay protocols a bridge trusts, and who may change them.
#[derive(Debug)]
pub struct XmState {
    /// Who may call the administrative operations.
    pub admin: AccountKey,
    /// The relay program: the only caller whose messages are handled.
    pub xcall: AccountKey,
    /// The network address of the governance contract on the remote chain.
    pub icon_governance: String,
    /// The protocols that must attest an inbound message.
    pub sources: Vec<String>,
    /// The protocols an outbound message is sent through.
    pub destinations: Vec<String>,
    /// The exact governance payloads that may still be executed, each once.
    pub whitelisted_actions: Vec<Vec<u8>>,
    /// The protocol proposed for removal; empty while none is proposed.
    pub proposed_protocol_to_remove: String,
}

/// What an `XmState` holds.
pub struct XmStateView {
    pub admin: Seq<u8>,
    pub xcall: Seq<u8>,
    pub icon_governance: Seq<char>,
    pub sources: Seq<Seq<char>>,
    pub destinations: Seq<Seq<char>>,
    pub whitelisted_actions: Seq<Seq<u8>>,
    pub proposed_protocol_to_remove: Seq<char>,
}

impl View for XmState {
    type V = XmStateView;

    open spec fn view(&self) -> XmStateView {
        XmStateView {
            admin: self.admin@,
            xcall: self.xcall@,
            icon_governance: self.icon_governance@,
            sources: texts(self.sources@),
            destinations: texts(self.destinations@),
            whitelisted_actions: blobs(self.whitelisted_actions@),
            proposed_protocol_to_remove: self.proposed_protocol_to_remove@,
        }
    }
}

/// A pair of protocol lists.
#[derive(Debug)]
pub struct Protocols {
    pub sources: Vec<String>,
    pub destinations: Vec<String>,
}

} // verus!
