//! What the native-callable trampoline decides.
//!
//! The driver calls the trampoline with two flag masks, the payload of the
//! event and the address of the stored callback. Recovering the callback from
//! that address and containing a failure of it are the caller's business.
//! What lies between is decided here: which message the callback gets, and
//! which status goes back to the driver.

use crate::message::Message;
use vstd::prelude::*;
use vstd::utf8::valid_utf8;

verus! {

/// The native "false". As the status of a callback it tells the driver to go
/// on with the call that triggered the message.
pub const VK_FALSE: u32 = 0;

/// How handing an event to the callback went.
#[derive(Debug, Copy, Clone, PartialEq, Eq, Structural)]
pub enum Delivery {
    /// The callback was invoked with the message and returned.
    Delivered,
    /// The payload was not well-formed text; the callback was not invoked.
    Malformed,
}

/// Hands one event to the callback.
///
/// The message is built as [`Message::from_native`] builds it. If that
/// succeeds the callback is invoked with the message, and the result is
/// [`Delivery::Delivered`] once it has returned. Otherwise the callback is
/// left alone and the result is [`Delivery::Malformed`].
///
/// The callback has to accept every message. Whether it returns at all is up
/// to it: a caller that must not be unwound through wraps this call.
pub fn deliver<F>(
    user_callback: &F,
    severity: u32,
    ty: u32,
    message_id_name: &[u8],
    message: &[u8],
) -> (delivery: Delivery) where F: Fn(&Message)
    requires
        forall|m: &Message| call_requires(user_callback, (m,)),
    ensures
        delivery == Delivery::Delivered <==> valid_utf8(message_id_name@) && valid_utf8(message@),
        delivery == Delivery::Delivered ==> exists|m: &Message|
            m.is_for(severity, ty, message_id_name@, message@) && #[trigger] call_ensures(
                user_callback,
                (m,),
                (),
            ),
{
    match Message::from_native(severity, ty, message_id_name, message) {
        Some(m) => {
            user_callback(&m);
            Delivery::Delivered
        },
        None => Delivery::Malformed,
    }
}

/// The status the trampoline returns to the driver after an invocation.
///
/// `outcome` is what [`deliver`] returned, or `None` if the callback failed
/// and never returned. The status is the same in every case: the driver is
/// told to continue.
pub fn status_after(outcome: Option<Delivery>) -> (status: u32)
    ensures
        status == VK_FALSE,
{
    match outcome {
        Some(Delivery::Delivered) => VK_FALSE,
        Some(Delivery::Malformed) => VK_FALSE,
        None => VK_FALSE,
    }
}

} // verus!
