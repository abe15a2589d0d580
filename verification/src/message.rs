//! One diagnostic event, as the callback sees it.

use crate::flags::{MessageSeverity, MessageType};
use vstd::prelude::*;
use vstd::string::StringSliceAdditionalSpecFns;
use vstd::utf8::{decode_utf8, encode_utf8_decode_utf8, valid_utf8};

verus! {

/// A message received by the callback.
///
/// Both texts borrow the driver's memory. They are valid for the one
/// invocation that produced them; a callback that wants to keep a message
/// copies it.
pub struct Message<'a> {
    /// How severe the event is.
    pub severity: MessageSeverity,
    /// What kind of event it is.
    pub ty: MessageType,
    /// The identifier the reporting layer gave the message.
    pub layer_prefix: &'a str,
    /// The text of the message.
    pub description: &'a str,
}

/// Reads bytes as text with `core::str::from_utf8`.
///
/// Trusted: the result is `Some` exactly when the bytes are well-formed
/// UTF-8, and the text then consists of those very bytes.
#[verifier::external_body]
fn text_of_bytes<'a>(bytes: &'a [u8]) -> (text: Option<&'a str>)
    ensures
        text is Some <==> valid_utf8(bytes@),
        text is Some ==> text->0.spec_bytes() == bytes@,
{
    core::str::from_utf8(bytes).ok()
}

impl<'a> Message<'a> {
    /// Whether this is the message for an event that the driver reported
    /// with the given flag masks, message identifier and message text: the
    /// flags decoded, the texts byte for byte.
    pub open spec fn is_for(
        &self,
        severity: u32,
        ty: u32,
        message_id_name: Seq<u8>,
        message: Seq<u8>,
    ) -> bool {
        &&& self.severity == MessageSeverity::of_bits(severity)
        &&& self.ty == MessageType::of_bits(ty)
        &&& self.layer_prefix.spec_bytes() == message_id_name
        &&& self.description.spec_bytes() == message
    }

    /// Builds the message for one invocation from what the driver handed
    /// over: the two flag masks, and the bytes of the message identifier and
    /// of the message text, each without its terminating zero.
    ///
    /// The result is `None` exactly when one of the two byte strings is not
    /// well-formed UTF-8: no message is built from damaged text.
    pub fn from_native(
        severity: u32,
        ty: u32,
        message_id_name: &'a [u8],
        message: &'a [u8],
    ) -> (res: Option<Message<'a>>)
        ensures
            res is Some <==> valid_utf8(message_id_name@) && valid_utf8(message@),
            res is Some ==> res->0.is_for(severity, ty, message_id_name@, message@),
    {
        let layer_prefix = match text_of_bytes(message_id_name) {
            Some(text) => text,
            None => {
                return None;
            },
        };
        let description = match text_of_bytes(message) {
            Some(text) => text,
            None => {
                return None;
            },
        };
        Some(
            Message {
                severity: MessageSeverity::decode(severity),
                ty: MessageType::decode(ty),
                layer_prefix,
                description,
            },
        )
    }
}

/// The texts of a message are what the driver's bytes decode to, character
/// for character.
pub proof fn lemma_message_texts(
    m: Message,
    severity: u32,
    ty: u32,
    message_id_name: Seq<u8>,
    message: Seq<u8>,
)
    requires
        m.is_for(severity, ty, message_id_name, message),
    ensures
        m.layer_prefix@ == decode_utf8(message_id_name),
        m.description@ == decode_utf8(message),
{
    encode_utf8_decode_utf8(m.layer_prefix@);
    encode_utf8_decode_utf8(m.description@);
}

} // verus!
