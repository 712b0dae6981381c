//! The envelope in which the service answers.

use vstd::prelude::*;

verus! {

/// An answer: whether the request succeeded, the status code, a message
/// where there is one, and the payload.
#[derive(Debug)]
pub struct NalaiResult<D> {
    pub success: bool,
    pub code: u16,
    pub msg: Option<String>,
    pub data: D,
}

/// Whether a status code reports success: the codes from 200 to 299 do.
pub open spec fn is_success_code(code: u16) -> bool {
    200 <= code <= 299
}

/// The text of an optional message.
pub open spec fn message_text(msg: Option<&str>) -> Option<Seq<char>> {
    match msg {
        Some(text) => Some(text@),
        None => None,
    }
}

impl<D> NalaiResult<D> {
    /// What the message says.
    pub open spec fn msg_view(&self) -> Option<Seq<char>> {
        match self.msg {
            Some(text) => Some(text@),
            None => None,
        }
    }

    /// An answer with the given status code, message and payload.
    pub fn new(code: u16, msg: Option<&str>, data: D) -> (result: Self)
        ensures
            result.success == is_success_code(code),
            result.code == code,
            result.msg_view() == message_text(msg),
            result.data == data,
    {
        let msg = match msg {
            Some(text) => Some(text.to_owned()),
            None => None,
        };
        Self { success: 200 <= code && code <= 299, code, msg, data }
    }
}

} // verus!
