//! What the protocol manager decides: whether the attesting protocols are the
//! expected ones, how the protocol set is administered, and what a governance
//! message changes.

use vstd::prelude::*;
use vstd::seq_lib::*;
use crate::address::AccountKey;
use crate::message::text_of_list;
use crate::response::{HandleCallMessageResponse, ResponseView, SUCCESS};
use crate::views::{blobs, copy_bytes, same_bytes, texts};
use crate::xcall_manager::configure_protocols::{ConfigureProtocolsView, CONFIGURE_PROTOCOLS};
use crate::xcall_manager::errors::XCallManagerError;
use crate::xcall_manager::helpers::{decode_handle_call_msg, decode_method};
use crate::xcall_manager::states::{XmState, XmStateView};

verus! {

/// Every name of `names` is among `others`.
pub open spec fn each_among(names: Seq<Seq<char>>, others: Seq<Seq<char>>) -> bool {
    forall|i: int| 0 <= i < names.len() ==> others.contains(#[trigger] names[i])
}

/// Strict verification: both lists have the same length, every expected
/// protocol is among the attesting ones, and every attesting protocol is among
/// the expected ones.
pub open spec fn protocols_match(expected: Seq<Seq<char>>, attesting: Seq<Seq<char>>) -> bool {
    expected.len() == attesting.len() && each_among(expected, attesting) && each_among(
        attesting,
        expected,
    )
}

/// The sources that remain once every occurrence of `removed` is taken out.
pub open spec fn without_protocol(sources: Seq<Seq<char>>, removed: Seq<char>) -> Seq<Seq<char>> {
    sources.filter(|s: Seq<char>| s != removed)
}

/// Recovery verification: with a protocol proposed for removal, the attesting
/// protocols must match the sources without it. Without a proposal it fails.
pub open spec fn recovery_outcome(
    proposal: Seq<char>,
    sources: Seq<Seq<char>>,
    attesting: Seq<Seq<char>>,
) -> Result<bool, XCallManagerError> {
    if proposal.len() == 0 {
        Err(XCallManagerError::NoProposalForRemovalExists)
    } else if protocols_match(without_protocol(sources, proposal), attesting) {
        Ok(true)
    } else {
        Err(XCallManagerError::ProtocolMismatch)
    }
}

/// Whether `needle` occurs in `haystack`.
fn contains_name(haystack: &Vec<String>, needle: &String) -> (found: bool)
    ensures
        found == texts(haystack@).contains(needle@),
{
    let mut j: usize = 0;
    while j < haystack.len()
        invariant
            j <= haystack.len(),
            forall|k: int| 0 <= k < j ==> texts(haystack@)[k] != needle@,
        decreases haystack.len() - j,
    {
        if haystack[j] == *needle {
            assert(texts(haystack@)[j as int] == needle@);
            return true;
        }
        j += 1;
    }
    false
}

/// Whether every name of `names` is among `others`.
fn all_among(names: &Vec<String>, others: &Vec<String>) -> (all: bool)
    ensures
        all == each_among(texts(names@), texts(others@)),
{
    let mut i: usize = 0;
    while i < names.len()
        invariant
            i <= names.len(),
            forall|k: int| 0 <= k < i ==> texts(others@).contains(#[trigger] texts(names@)[k]),
        decreases names.len() - i,
    {
        if !contains_name(others, &names[i]) {
            assert(!texts(others@).contains(texts(names@)[i as int]));
            return false;
        }
        i += 1;
    }
    true
}

/// Strict verification of the attesting protocols against the expected ones:
/// the lists are equally long and name the same protocols.
pub fn verify_protocols_unordered(array1: &Vec<String>, array2: &Vec<String>) -> (verified: bool)
    ensures
        verified == protocols_match(texts(array1@), texts(array2@)),
        array1.len() != array2.len() ==> !verified,
{
    if array1.len() != array2.len() {
        return false;
    }
    all_among(array1, array2) && all_among(array2, array1)
}

/// Strict verification against the configured sources.
pub fn verify_protocols(state: &XmState, protocols: &Vec<String>) -> (verified: bool)
    ensures
        verified == protocols_match(texts(state.sources@), texts(protocols@)),
{
    verify_protocols_unordered(&state.sources, protocols)
}

/// Recovery verification: the attesting protocols must be the sources without
/// the protocol proposed for removal.
pub fn verify_protocol_recovery(
    proposal_to_remove: &String,
    sources: &Vec<String>,
    protocols: &Vec<String>,
) -> (r: Result<bool, XCallManagerError>)
    ensures
        r == recovery_outcome(proposal_to_remove@, texts(sources@), texts(protocols@)),
        proposal_to_remove@.len() == 0 ==> r == Err::<bool, XCallManagerError>(
            XCallManagerError::NoProposalForRemovalExists,
        ),
{
    if proposal_to_remove.as_str().is_empty() {
        return Err(XCallManagerError::NoProposalForRemovalExists);
    }
    let ghost keep = |s: Seq<char>| s != proposal_to_remove@;
    let mut modified_sources: Vec<String> = Vec::new();
    let mut i: usize = 0;
    proof {
        reveal(Seq::filter);
        assert(texts(sources@).take(0) =~= Seq::<Seq<char>>::empty());
        assert(texts(modified_sources@) =~= Seq::<Seq<char>>::empty());
    }
    while i < sources.len()
        invariant
            i <= sources.len(),
            keep == |s: Seq<char>| s != proposal_to_remove@,
            texts(modified_sources@) == texts(sources@).take(i as int).filter(keep),
        decreases sources.len() - i,
    {
        let ghost before = texts(modified_sources@);
        let ghost seen = texts(sources@).take(i as int);
        let ghost next = texts(sources@).take(i + 1);
        proof {
            reveal(Seq::filter);
            assert(next.drop_last() =~= seen);
            assert(next.last() == sources@[i as int]@);
        }
        if sources[i] != *proposal_to_remove {
            modified_sources.push(sources[i].clone());
            assert(texts(modified_sources@) =~= before.push(sources@[i as int]@));
        }
        i += 1;
    }
    proof {
        assert(texts(sources@).take(sources.len() as int) =~= texts(sources@));
    }
    if verify_protocols_unordered(&modified_sources, protocols) {
        Ok(true)
    } else {
        Err(XCallManagerError::ProtocolMismatch)
    }
}

/// Strict verification does not depend on the order of either list.
pub proof fn lemma_protocols_match_ignores_order(
    expected: Seq<Seq<char>>,
    attesting: Seq<Seq<char>>,
    expected_permuted: Seq<Seq<char>>,
    attesting_permuted: Seq<Seq<char>>,
)
    requires
        expected.to_multiset() == expected_permuted.to_multiset(),
        attesting.to_multiset() == attesting_permuted.to_multiset(),
    ensures
        protocols_match(expected, attesting) == protocols_match(
            expected_permuted,
            attesting_permuted,
        ),
{
    if protocols_match(expected, attesting) {
        lemma_match_survives_permutation(
            expected,
            attesting,
            expected_permuted,
            attesting_permuted,
        );
    }
    if protocols_match(expected_permuted, attesting_permuted) {
        lemma_match_survives_permutation(
            expected_permuted,
            attesting_permuted,
            expected,
            attesting,
        );
    }
}

proof fn lemma_among_survives_permutation(
    a: Seq<Seq<char>>,
    b: Seq<Seq<char>>,
    a2: Seq<Seq<char>>,
    b2: Seq<Seq<char>>,
)
    requires
        a.to_multiset() == a2.to_multiset(),
        b.to_multiset() == b2.to_multiset(),
        each_among(a, b),
    ensures
        each_among(a2, b2),
{
    assert forall|i: int| 0 <= i < a2.len() implies b2.contains(#[trigger] a2[i]) by {
        let x = a2[i];
        assert(a2.contains(x));
        to_multiset_contains(a2, x);
        to_multiset_contains(a, x);
        let k = choose|k: int| 0 <= k < a.len() && a[k] == x;
        assert(b.contains(a[k]));
        to_multiset_contains(b, x);
        to_multiset_contains(b2, x);
    }
}

proof fn lemma_match_survives_permutation(
    a: Seq<Seq<char>>,
    b: Seq<Seq<char>>,
    a2: Seq<Seq<char>>,
    b2: Seq<Seq<char>>,
)
    requires
        a.to_multiset() == a2.to_multiset(),
        b.to_multiset() == b2.to_multiset(),
        protocols_match(a, b),
    ensures
        protocols_match(a2, b2),
{
    to_multiset_len(a);
    to_multiset_len(a2);
    to_multiset_len(b);
    to_multiset_len(b2);
    lemma_among_survives_permutation(a, b, a2, b2);
    lemma_among_survives_permutation(b, a, b2, a2);
}

/// Strict verification fails on lists of different lengths.
pub proof fn lemma_protocols_match_needs_equal_lengths(
    expected: Seq<Seq<char>>,
    attesting: Seq<Seq<char>>,
)
    requires
        expected.len() != attesting.len(),
    ensures
        !protocols_match(expected, attesting),
{
}

/// Strict verification holds exactly when the lists are equally long and
/// name the same set of protocols.
pub proof fn lemma_protocols_match_is_set_equality(
    expected: Seq<Seq<char>>,
    attesting: Seq<Seq<char>>,
)
    ensures
        protocols_match(expected, attesting) <==> (expected.len() == attesting.len()
            && expected.to_set() == attesting.to_set()),
{
    if protocols_match(expected, attesting) {
        assert forall|x: Seq<char>| expected.to_set().contains(x) == attesting.to_set().contains(
            x,
        ) by {
            if expected.contains(x) {
                let k = choose|k: int| 0 <= k < expected.len() && expected[k] == x;
                assert(attesting.contains(expected[k]));
            }
            if attesting.contains(x) {
                let k = choose|k: int| 0 <= k < attesting.len() && attesting[k] == x;
                assert(expected.contains(attesting[k]));
            }
        }
        assert(expected.to_set() =~= attesting.to_set());
    }
    if expected.len() == attesting.len() && expected.to_set() == attesting.to_set() {
        assert forall|i: int| 0 <= i < expected.len() implies attesting.contains(
            #[trigger] expected[i],
        ) by {
            assert(expected.to_set().contains(expected[i]));
        }
        assert forall|i: int| 0 <= i < attesting.len() implies expected.contains(
            #[trigger] attesting[i],
        ) by {
            assert(attesting.to_set().contains(attesting[i]));
        }
    }
}

/// Without a proposal, recovery verification fails whatever the lists hold.
pub proof fn lemma_recovery_needs_proposal(sources: Seq<Seq<char>>, attesting: Seq<Seq<char>>)
    ensures
        recovery_outcome(Seq::<char>::empty(), sources, attesting) == Err::<
            bool,
            XCallManagerError,
        >(XCallManagerError::NoProposalForRemovalExists),
{
}

/// The allow-list without every entry equal to `action`.
pub open spec fn without_action(actions: Seq<Seq<u8>>, action: Seq<u8>) -> Seq<Seq<u8>> {
    actions.filter(|a: Seq<u8>| a != action)
}

/// Whether the attesting protocols are accepted: they match the sources, or a
/// removal is proposed and they match the sources without the proposed one.
pub open spec fn inbound_verified(state: XmStateView, attesting: Seq<Seq<char>>) -> bool {
    protocols_match(state.sources, attesting) || recovery_outcome(
        state.proposed_protocol_to_remove,
        state.sources,
        attesting,
    ) == Ok::<bool, XCallManagerError>(true)
}

/// While no removal is proposed, attesting protocols are accepted only if
/// they are as many as the sources and name the same set.
pub proof fn lemma_inbound_needs_the_sources(state: XmStateView, attesting: Seq<Seq<char>>)
    requires
        state.proposed_protocol_to_remove.len() == 0,
    ensures
        inbound_verified(state, attesting) <==> (state.sources.len() == attesting.len()
            && state.sources.to_set() == attesting.to_set()),
{
    lemma_protocols_match_is_set_equality(state.sources, attesting);
}

/// Why a governance message is refused, if it is: in this order, a sender that
/// is not governance, bytes that are not on the allow-list, protocols that are
/// not accepted, bytes that are no message, another message than the one that
/// replaces the protocol set.
pub open spec fn governance_refusal(
    state: XmStateView,
    from: Seq<char>,
    data: Seq<u8>,
    attesting: Seq<Seq<char>>,
) -> Option<XCallManagerError> {
    if from != state.icon_governance {
        Some(XCallManagerError::NotTheIconGovernance)
    } else if !state.whitelisted_actions.contains(data) {
        Some(XCallManagerError::ActionNotWhitelisted)
    } else if !inbound_verified(state, attesting) {
        Some(XCallManagerError::ProtocolMismatch)
    } else {
        match text_of_list(data, 0) {
            None => Some(XCallManagerError::DecoderError),
            Some(tag) => if tag != CONFIGURE_PROTOCOLS@ {
                Some(XCallManagerError::UnknownMessageType)
            } else if ConfigureProtocolsView::of_wire(data) is None {
                Some(XCallManagerError::DecoderError)
            } else {
                None
            },
        }
    }
}

/// The state after the governance message in `data` took effect: the protocol
/// lists are the message's, and the message is off the allow-list.
pub open spec fn after_configure(state: XmStateView, data: Seq<u8>) -> XmStateView {
    let message = ConfigureProtocolsView::of_wire(data)->0;
    XmStateView {
        sources: message.sources,
        destinations: message.destinations,
        whitelisted_actions: without_action(state.whitelisted_actions, data),
        ..state
    }
}

/// Sets up the protocol manager.
pub fn initialize(
    state: &mut XmState,
    admin: AccountKey,
    xcall: AccountKey,
    icon_governance: String,
    sources: Vec<String>,
    destinations: Vec<String>,
)
    ensures
        final(state)@ == (XmStateView {
            admin: admin@,
            xcall: xcall@,
            icon_governance: icon_governance@,
            sources: texts(sources@),
            destinations: texts(destinations@),
            ..old(state)@
        }),
{
    state.xcall = xcall;
    state.icon_governance = icon_governance;
    state.sources = sources;
    state.destinations = destinations;
    state.admin = admin;
}

/// Puts a governance payload on the allow-list.
pub fn whitelist_action(state: &mut XmState, action: Vec<u8>)
    ensures
        final(state)@ == (XmStateView {
            whitelisted_actions: old(state)@.whitelisted_actions.push(action@),
            ..old(state)@
        }),
{
    state.whitelisted_actions.push(action);
    assert(blobs(state.whitelisted_actions@) =~= blobs(old(state).whitelisted_actions@).push(
        action@,
    ));
}

/// Whether `action` is on the allow-list.
fn is_whitelisted(actions: &Vec<Vec<u8>>, action: &[u8]) -> (found: bool)
    ensures
        found == blobs(actions@).contains(action@),
{
    let mut i: usize = 0;
    while i < actions.len()
        invariant
            i <= actions.len(),
            forall|k: int| 0 <= k < i ==> blobs(actions@)[k] != action@,
        decreases actions.len() - i,
    {
        if same_bytes(actions[i].as_slice(), action) {
            assert(blobs(actions@)[i as int] == action@);
            return true;
        }
        i += 1;
    }
    false
}

/// The allow-list without every entry equal to `action`.
fn actions_without(actions: &Vec<Vec<u8>>, action: &[u8]) -> (kept: Vec<Vec<u8>>)
    ensures
        blobs(kept@) == without_action(blobs(actions@), action@),
{
    let ghost keep = |a: Seq<u8>| a != action@;
    let mut kept: Vec<Vec<u8>> = Vec::new();
    let mut i: usize = 0;
    proof {
        reveal(Seq::filter);
        assert(blobs(actions@).take(0) =~= Seq::<Seq<u8>>::empty());
        assert(blobs(kept@) =~= Seq::<Seq<u8>>::empty());
    }
    while i < actions.len()
        invariant
            i <= actions.len(),
            keep == |a: Seq<u8>| a != action@,
            blobs(kept@) == blobs(actions@).take(i as int).filter(keep),
        decreases actions.len() - i,
    {
        let ghost before = blobs(kept@);
        let ghost seen = blobs(actions@).take(i as int);
        let ghost next = blobs(actions@).take(i + 1);
        proof {
            reveal(Seq::filter);
            assert(next.drop_last() =~= seen);
            assert(next.last() == actions@[i as int]@);
        }
        if !same_bytes(actions[i].as_slice(), action) {
            kept.push(copy_bytes(actions[i].as_slice()));
            assert(blobs(kept@) =~= before.push(actions@[i as int]@));
        }
        i += 1;
    }
    proof {
        assert(blobs(actions@).take(actions.len() as int) =~= blobs(actions@));
    }
    kept
}

/// Takes a governance payload off the allow-list, wherever it stands on it.
pub fn remove_action(state: &mut XmState, action: Vec<u8>)
    ensures
        final(state)@ == (XmStateView {
            whitelisted_actions: without_action(old(state)@.whitelisted_actions, action@),
            ..old(state)@
        }),
{
    let kept = actions_without(&state.whitelisted_actions, action.as_slice());
    state.whitelisted_actions = kept;
}

/// Proposes a protocol for removal; the empty text withdraws the proposal.
pub fn propose_removal(state: &mut XmState, protocol: String)
    ensures
        final(state)@ == (XmStateView { proposed_protocol_to_remove: protocol@, ..old(state)@ }),
{
    state.proposed_protocol_to_remove = protocol;
}

/// Hands the administration to another key.
pub fn set_admin(state: &mut XmState, new_admin: AccountKey)
    ensures
        final(state)@ == (XmStateView { admin: new_admin@, ..old(state)@ }),
{
    state.admin = new_admin;
}

/// Replaces the protocol lists.
pub fn set_protocols(state: &mut XmState, sources: Vec<String>, destinations: Vec<String>)
    ensures
        final(state)@ == (XmStateView {
            sources: texts(sources@),
            destinations: texts(destinations@),
            ..old(state)@
        }),
{
    state.sources = sources;
    state.destinations = destinations;
}

/// Whether the attesting protocols are accepted: strictly, or in recovery while
/// a removal is proposed.
pub fn verify_inbound(state: &XmState, protocols: &Vec<String>) -> (verified: bool)
    ensures
        verified == inbound_verified(state@, texts(protocols@)),
{
    if verify_protocols_unordered(&state.sources, protocols) {
        return true;
    }
    match verify_protocol_recovery(&state.proposed_protocol_to_remove, &state.sources, protocols) {
        Ok(verified) => verified,
        Err(_) => false,
    }
}

/// The response that reports a refusal.
fn refused(error: XCallManagerError) -> (r: HandleCallMessageResponse)
    ensures
        r@ == (ResponseView { success: false, message: error.message_text() }),
{
    HandleCallMessageResponse::failed(error.message())
}

/// Handles an inbound governance message.
///
/// A caller other than the relay is an error. Every other refusal is reported
/// in the response and leaves the state as it was. A message that is accepted
/// replaces the protocol lists and leaves the allow-list, so it takes effect
/// once.
pub fn handle_call_message(
    state: &mut XmState,
    relay: &AccountKey,
    from: &String,
    data: &Vec<u8>,
    protocols: &Vec<String>,
) -> (r: Result<HandleCallMessageResponse, XCallManagerError>)
    ensures
        relay@ != old(state)@.xcall ==> r == Err::<HandleCallMessageResponse, XCallManagerError>(
            XCallManagerError::OnlyXcall,
        ) && *final(state) == *old(state),
        relay@ == old(state)@.xcall ==> r is Ok && match governance_refusal(
            old(state)@,
            from@,
            data@,
            texts(protocols@),
        ) {
            Some(error) => r->Ok_0@ == (ResponseView {
                success: false,
                message: error.message_text(),
            }) && *final(state) == *old(state),
            None => r->Ok_0@ == (ResponseView { success: true, message: SUCCESS@ })
                && final(state)@ == after_configure(old(state)@, data@),
        },
{
    if !relay.same_as(&state.xcall) {
        return Err(XCallManagerError::OnlyXcall);
    }
    if *from != state.icon_governance {
        return Ok(refused(XCallManagerError::NotTheIconGovernance));
    }
    if !is_whitelisted(&state.whitelisted_actions, data.as_slice()) {
        return Ok(refused(XCallManagerError::ActionNotWhitelisted));
    }
    if !verify_inbound(state, protocols) {
        return Ok(refused(XCallManagerError::ProtocolMismatch));
    }
    let method = match decode_method(data.as_slice()) {
        Ok(method) => method,
        Err(e) => {
            return Ok(refused(e));
        },
    };
    if method != CONFIGURE_PROTOCOLS.to_owned() {
        return Ok(refused(XCallManagerError::UnknownMessageType));
    }
    let message = match decode_handle_call_msg(data.as_slice()) {
        Ok(message) => message,
        Err(e) => {
            return Ok(refused(e));
        },
    };
    let kept = actions_without(&state.whitelisted_actions, data.as_slice());
    state.whitelisted_actions = kept;
    state.sources = message.sources;
    state.destinations = message.destinations;
    Ok(HandleCallMessageResponse::succeeded())
}

/// A governance message that took effect is refused when it comes again.
pub proof fn lemma_configure_takes_effect_once(
    state: XmStateView,
    from: Seq<char>,
    data: Seq<u8>,
    attesting: Seq<Seq<char>>,
    attesting_again: Seq<Seq<char>>,
)
    requires
        governance_refusal(state, from, data, attesting) is None,
    ensures
        governance_refusal(after_configure(state, data), from, data, attesting_again) == Some(
            XCallManagerError::ActionNotWhitelisted,
        ),
{
    let keep = |a: Seq<u8>| a != data;
    let kept = state.whitelisted_actions.filter(keep);
    if kept.contains(data) {
        state.whitelisted_actions.lemma_filter_contains_rev(keep, data);
        let k = choose|k: int| 0 <= k < kept.len() && kept[k] == data;
        state.whitelisted_actions.lemma_filter_pred(keep, k);
    }
}

} // verus!
