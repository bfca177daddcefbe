//! The two queues between the browser and the network session, which are
//! unbounded channels of `tokio`, and the decoding of a payload as text.
//!
//! Nothing in this file is proved: each contract says what the called
//! function does, and the rest of the library is verified against it.

use crate::session::{NavigationRequest, SessionEvent};
use tokio::sync::mpsc::error::SendError;
use tokio::sync::mpsc::{UnboundedReceiver, UnboundedSender};
use vstd::prelude::*;
use vstd::utf8::{decode_utf8, valid_utf8};

verus! {

#[verifier::external_type_specification]
#[verifier::external_body]
#[verifier::reject_recursive_types(T)]
pub struct ExUnboundedSender<T>(UnboundedSender<T>);

#[verifier::external_type_specification]
#[verifier::external_body]
#[verifier::reject_recursive_types(T)]
pub struct ExUnboundedReceiver<T>(UnboundedReceiver<T>);

#[verifier::external_type_specification]
#[verifier::external_body]
#[verifier::reject_recursive_types(T)]
pub struct ExSendError<T>(SendError<T>);

/// The requests that the channel has accepted through this sender, oldest
/// first.
pub uninterp spec fn accepted(sender: UnboundedSender<NavigationRequest>) -> Seq<
    (Seq<char>, Seq<char>),
>;

/// The text that `String::from_utf8_lossy` makes of `bytes`.
pub uninterp spec fn lossy_text(bytes: Seq<u8>) -> Seq<char>;

/// `UnboundedSender::send`: hands `request` to the channel without waiting.
/// While the receiving half is open the channel takes the request and the
/// call returns `Ok`; once that half is closed or dropped the channel takes
/// nothing and the call returns the error. The sender is borrowed mutably,
/// though `send` itself does not ask for it, so that the contract can speak
/// of the sender before and after the call.
#[verifier::external_body]
pub(crate) fn enqueue(
    sender: &mut UnboundedSender<NavigationRequest>,
    request: NavigationRequest,
) -> (res: Result<(), SendError<NavigationRequest>>)
    ensures
        res is Ok ==> accepted(*final(sender)) == accepted(*old(sender)).push(request@),
        res is Err ==> accepted(*final(sender)) == accepted(*old(sender)),
{
    sender.send(request)
}

/// `SendError`'s `Display`: the fixed text `channel closed`.
#[verifier::external_body]
pub(crate) fn send_error_text(error: &SendError<NavigationRequest>) -> (text: String)
    ensures
        text@ == "channel closed"@,
{
    error.to_string()
}

/// `unbounded_channel`: a new channel for session events, as its two halves.
#[verifier::external_body]
pub(crate) fn open_inbox() -> (halves: (
    UnboundedSender<SessionEvent>,
    UnboundedReceiver<SessionEvent>,
)) {
    tokio::sync::mpsc::unbounded_channel()
}

/// `UnboundedReceiver::len`: the number of events that wait in the channel.
/// Other threads fill the channel, so nothing is said of the number.
#[verifier::external_body]
pub(crate) fn waiting(inbox: &UnboundedReceiver<SessionEvent>) -> (count: usize) {
    inbox.len()
}

/// `UnboundedReceiver::try_recv`: the oldest waiting event, without waiting
/// for one; `None` where the channel is empty or closed.
#[verifier::external_body]
pub(crate) fn poll(inbox: &mut UnboundedReceiver<SessionEvent>) -> (event: Option<SessionEvent>) {
    inbox.try_recv().ok()
}

/// `String::from_utf8_lossy`: `payload` as text. Valid UTF-8 is decoded as it
/// stands; each invalid sequence becomes a replacement character.
#[verifier::external_body]
pub(crate) fn decode_lossy(payload: &[u8]) -> (text: String)
    ensures
        text@ == lossy_text(payload@),
        valid_utf8(payload@) ==> text@ == decode_utf8(payload@),
{
    String::from_utf8_lossy(payload).into_owned()
}

} // verus!
