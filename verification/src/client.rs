//! What a client decides before and after it talks to the platform: whether
//! a message may be sent at all, and what the platform's answer means.
//! Sending itself is left to the caller.

use vstd::prelude::*;
use vstd::utf8::decode_utf8;
use vstd::utf8::encode_utf8;
use vstd::utf8::encode_utf8_decode_utf8;
use vstd::utf8::valid_utf8;
use crate::compatibility::DiscordApiCompatible;
use crate::context::ContextModel;
use crate::context::MessageContext;
use crate::errors::ValidationError;
use crate::errors::Violation;
use crate::models::Message;

verus! {

/// Why a message that was sent did not arrive.
#[derive(Debug, PartialEq, Eq)]
pub enum TransportError {
    /// The network or the protocol failed; the text says how.
    TransmissionFailure(String),
    /// The platform answered with anything but "no content"; the text is
    /// what it said.
    RejectedByServer(String),
}

/// Makes a message by `function` and validates it in a pass of its own.
/// The message is handed out only if it passed: a message that did not is
/// never sent.
pub fn compose<Func>(function: Func) -> (result: Result<Message, ValidationError>) where
    Func: Fn(&mut Message) -> &mut Message,

    requires
        forall|given: &mut Message| given.is_new() ==> call_requires(function, (given,)),
    ensures
        exists|given: &mut Message, handed_back: &mut Message|
            {
                &&& given.is_new()
                &&& #[trigger] call_ensures(function, (given,), handed_back)
                &&& *final(handed_back) == *handed_back
                &&& match result {
                    Ok(message) => {
                        &&& message == *final(given)
                        &&& message.outcome(ContextModel::fresh()).result is Ok
                    },
                    Err(error) => final(given).outcome(ContextModel::fresh()).result == Err::<
                        (),
                        Violation,
                    >(error@),
                }
            },
{
    let mut message = Message::new();
    function(&mut message);
    let mut message_context = MessageContext::new();
    match message.check_compatibility(&mut message_context) {
        Ok(_) => Ok(message),
        Err(error) => Err(error),
    }
}

/// The status with which the platform says that it took the message and has
/// nothing to add.
pub open spec fn no_content() -> u16 {
    204
}

/// Whether a response with this status means that the message was
/// delivered. The body of such a response is not looked at.
pub fn delivered(status: u16) -> (yes: bool)
    ensures
        yes == (status == no_content()),
{
    status == 204
}

/// The error of the standard library for bytes that are not UTF-8.
#[verifier::external_type_specification]
#[verifier::external_body]
pub struct ExFromUtf8Error(std::string::FromUtf8Error);

/// `String::from_utf8`. The standard library documents that the bytes are
/// accepted exactly when they are valid UTF-8, and that the text then
/// consists of these very bytes.
#[verifier::external_body]
fn text_of(body: Vec<u8>) -> (text: Result<String, std::string::FromUtf8Error>)
    ensures
        text is Ok <==> valid_utf8(body@),
        text matches Ok(text) ==> encode_utf8(text@) == body@,
{
    String::from_utf8(body)
}

/// What is put before the reason when the body of a response cannot be read.
pub open spec fn unreadable_prefix() -> Seq<char> {
    "Error reading Discord API error message:"@
}

/// The detail of a rejection, given what reading the body as text gave: the
/// text itself, or the reason why there is none, after a fixed prefix.
pub open spec fn detail_from(text: Result<String, String>) -> Seq<char> {
    match text {
        Ok(text) => text@,
        Err(why) => unreadable_prefix() + why@,
    }
}

/// The rejection that carries what reading the body as text gave.
pub fn rejection_from(text: Result<String, String>) -> (error: TransportError)
    ensures
        error matches TransportError::RejectedByServer(detail) && detail@ == detail_from(text),
{
    let detail = match text {
        Ok(text) => text,
        Err(why) => "Error reading Discord API error message:".to_string().concat(why.as_str()),
    };
    TransportError::RejectedByServer(detail)
}

/// The detail of a rejection with this body: the body as text where it is
/// UTF-8; else some reason why it is not, after a fixed prefix.
pub open spec fn is_detail_of(detail: Seq<char>, body: Seq<u8>) -> bool {
    if valid_utf8(body) {
        detail == decode_utf8(body)
    } else {
        exists|why: Seq<char>| detail == unreadable_prefix() + why
    }
}

/// The rejection that a response other than "no content" amounts to.
pub fn rejection(body: Vec<u8>) -> (error: TransportError)
    ensures
        error matches TransportError::RejectedByServer(detail) && is_detail_of(detail@, body@),
{
    let text = match text_of(body) {
        Ok(text) => {
            proof {
                encode_utf8_decode_utf8(text@);
            }
            Ok(text)
        },
        Err(error) => Err(error.to_string()),
    };
    rejection_from(text)
}

} // verus!
