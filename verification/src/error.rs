use vstd::prelude::*;

verus! {

/// Why a record could not be decoded.
#[derive(Clone, Copy, Debug, PartialEq, Eq, Structural)]
pub enum DecodeError {
    /// Fewer bytes remain than the field or byte range being read requires.
    UnexpectedEof,
    /// The bytes in front of a string terminator are not valid UTF-8.
    InvalidString,
    /// A pushed value carries a type tag outside `0..=9`; the tag is kept.
    InvalidPushType(u8),
    /// The send-variables selector of a `GetUrl2` record is undefined; the
    /// selector (the top two bits of the flag byte) is kept.
    InvalidSendVarsMethod(u8),
}

impl DecodeError {
    /// A short description of the failure.
    pub fn message(&self) -> (text: &'static str)
        ensures
            text@ == self.spec_message()@,
    {
        match self {
            DecodeError::UnexpectedEof => "unexpected end of input",
            DecodeError::InvalidString => "Invalid string data",
            DecodeError::InvalidPushType(_) => "Invalid value type in ActionPush",
            DecodeError::InvalidSendVarsMethod(_) => "Invalid HTTP method in ActionGetUrl2",
        }
    }

    /// The text that [`DecodeError::message`] returns.
    pub open spec fn spec_message(&self) -> &'static str {
        match self {
            DecodeError::UnexpectedEof => "unexpected end of input",
            DecodeError::InvalidString => "Invalid string data",
            DecodeError::InvalidPushType(_) => "Invalid value type in ActionPush",
            DecodeError::InvalidSendVarsMethod(_) => "Invalid HTTP method in ActionGetUrl2",
        }
    }
}

} // verus!
