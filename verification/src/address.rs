//! Peer addresses typed by the user, and the decision whether to dial them.
//!
//! An address is accepted exactly when libp2p parses it as a multiaddr; the
//! library keeps the accepted address as its binary multiaddr encoding.
use vstd::prelude::*;

verus! {

/// The binary multiaddr encoding that libp2p produces for `text`, or `None`
/// when libp2p refuses the text as a multiaddr.
pub uninterp spec fn multiaddr_encoding(text: Seq<char>) -> Option<Seq<u8>>;

/// Calls `<libp2p::Multiaddr as FromStr>::from_str` on `text` and, on success,
/// `Multiaddr::to_vec` on the result.
///
/// Trusted claims: the result is `multiaddr_encoding(text@)`, a function of the
/// text alone; a non-empty text whose first character is not `/` is refused
/// (the parser's first check); the empty text parses to the empty multiaddr
/// (it splits into one empty part and no protocol follows).
#[verifier::external_body]
pub(crate) fn parse_multiaddr(text: &str) -> (encoded: Option<Vec<u8>>)
    ensures
        encoded is Some <==> multiaddr_encoding(text@) is Some,
        encoded matches Some(bytes) ==> multiaddr_encoding(text@) == Some(bytes@),
        (text@.len() > 0 && text@[0] != '/') ==> encoded is None,
        (text@.len() == 0) ==> (encoded is Some && encoded->0@.len() == 0),
{
    text.parse::<libp2p::Multiaddr>().ok().map(|address| address.to_vec())
}

/// Whether libp2p accepts `text` as a multiaddr.
pub open spec fn is_multiaddr(text: Seq<char>) -> bool {
    multiaddr_encoding(text) is Some
}

/// The text that an optional string holds.
pub open spec fn text_of(value: Option<String>) -> Option<Seq<char>> {
    match value {
        Some(s) => Some(s@),
        None => None,
    }
}

/// The answer given to an `add_peer` request: `Ok` for a string that is a
/// multiaddr, otherwise the error text that says why it was refused.
pub open spec fn add_peer_answer(value: Option<Seq<char>>) -> Result<(), Seq<char>> {
    match value {
        None => Err("Input is not a string"@),
        Some(text) => if is_multiaddr(text) {
            Ok(())
        } else {
            Err("Not a valid multiaddr"@)
        },
    }
}

/// Checks a value handed in from JavaScript as a peer address.
///
/// `value` is what the JavaScript value holds as a string (`None` when it is
/// not a string). The answer is `Ok(())` exactly when the string is a
/// multiaddr; otherwise the error says whether the value was not a string or
/// not a valid multiaddr.
pub fn add_peer(value: Option<String>) -> (answer: Result<(), String>)
    ensures
        match answer {
            Ok(()) => add_peer_answer(text_of(value)) == Ok::<(), Seq<char>>(()),
            Err(e) => add_peer_answer(text_of(value)) == Err::<(), Seq<char>>(e@),
        },
        (value matches Some(text) && text@.len() > 0 && text@[0] != '/') ==> (answer matches Err(e)
            && e@ == "Not a valid multiaddr"@),
        (value matches Some(text) && text@.len() == 0) ==> answer is Ok,
{
    broadcast use vstd::string::to_string_from_display_ensures_for_str;

    match value {
        Some(text) => {
            if parse_multiaddr(text.as_str()).is_some() {
                Ok(())
            } else {
                Err("Not a valid multiaddr".to_string())
            }
        },
        None => Err("Input is not a string".to_string()),
    }
}

/// What the peer form does with the text it was submitted with.
#[derive(Debug, Clone, PartialEq, Eq)]
pub enum PeerSubmission {
    /// The text is a multiaddr: its binary encoding goes to the chat loop,
    /// which dials it.
    Forward(Vec<u8>),
    /// The text is not a multiaddr: it is reported as invalid and nothing is
    /// dialed.
    Reject,
}

/// The outcome of submitting the peer form with `text`, over plain values.
pub open spec fn peer_submission_outcome(text: Seq<char>) -> Option<Seq<u8>> {
    multiaddr_encoding(text)
}

/// Decides what the peer form does with the text the user submitted: forward
/// the parsed address to the chat loop, or reject the text.
pub fn submit_peer_address(text: &str) -> (outcome: PeerSubmission)
    ensures
        match outcome {
            PeerSubmission::Forward(bytes) => peer_submission_outcome(text@) == Some(bytes@),
            PeerSubmission::Reject => peer_submission_outcome(text@) is None,
        },
        outcome matches PeerSubmission::Forward(bytes) ==> multiaddr_encoding(text@) == Some(
            bytes@,
        ),
        outcome is Reject <==> multiaddr_encoding(text@) is None,
        (text@.len() > 0 && text@[0] != '/') ==> outcome is Reject,
        (text@.len() == 0) ==> (outcome matches PeerSubmission::Forward(bytes) && bytes@.len() == 0),
{
    match parse_multiaddr(text) {
        Some(bytes) => PeerSubmission::Forward(bytes),
        None => PeerSubmission::Reject,
    }
}

} // verus!
