//! The message envelope and the message-type table.
//!
//! An [`IsoMessage`] is one fully reassembled message body — the bytes after
//! the length prefix — and nothing else. Its type is derived on demand from
//! the four ASCII digits at the front of the body, the protocol's message
//! type indicator (MTI), through a total lookup over the sixteen known
//! codes; any other code is a protocol error, never a silent default.

use vstd::prelude::*;
use vstd::slice::slice_subrange;
use crate::ProtocolError;

verus! {

/// The sixteen kinds of message the protocol defines, keyed by their
/// four-digit MTI codes.
#[derive(Clone, Copy, Debug, PartialEq, Eq, Structural)]
pub enum IsoMessageTypes {
    Authorization,
    AuthorizationResponse,
    AuthorizationAdvice,
    AuthorizationAdviceResponse,
    Financial,
    FinancialResponse,
    FinancialAdvice,
    FinancialAdviceResponse,
    TokenManagement,
    TokenManagementResponse,
    Reversal,
    ReversalResponse,
    TokenNotification,
    TokenNotificationResponse,
    NetworkManagement,
    NetworkManagementResponse,
}

/// The four ASCII bytes of the MTI code that names `t` on the wire.
pub open spec fn code_bytes(t: IsoMessageTypes) -> Seq<u8> {
    match t {
        IsoMessageTypes::Authorization => seq![48, 49, 48, 48],
        IsoMessageTypes::AuthorizationResponse => seq![48, 49, 49, 48],
        IsoMessageTypes::AuthorizationAdvice => seq![48, 49, 50, 48],
        IsoMessageTypes::AuthorizationAdviceResponse => seq![48, 49, 51, 48],
        IsoMessageTypes::Financial => seq![48, 50, 48, 48],
        IsoMessageTypes::FinancialResponse => seq![48, 50, 49, 48],
        IsoMessageTypes::FinancialAdvice => seq![48, 50, 50, 48],
        IsoMessageTypes::FinancialAdviceResponse => seq![48, 50, 51, 48],
        IsoMessageTypes::TokenManagement => seq![48, 51, 48, 50],
        IsoMessageTypes::TokenManagementResponse => seq![48, 51, 49, 50],
        IsoMessageTypes::Reversal => seq![48, 52, 50, 48],
        IsoMessageTypes::ReversalResponse => seq![48, 52, 51, 48],
        IsoMessageTypes::TokenNotification => seq![48, 54, 50, 48],
        IsoMessageTypes::TokenNotificationResponse => seq![48, 54, 51, 48],
        IsoMessageTypes::NetworkManagement => seq![48, 56, 48, 48],
        IsoMessageTypes::NetworkManagementResponse => seq![48, 56, 49, 48],
    }
}

/// The lookup table as a function: the type named by `code`, or `None` for
/// any byte sequence that is not one of the sixteen MTI codes.
pub open spec fn spec_find_type(code: Seq<u8>) -> Option<IsoMessageTypes> {
    if code == code_bytes(IsoMessageTypes::Authorization) {
        Some(IsoMessageTypes::Authorization)
    } else if code == code_bytes(IsoMessageTypes::AuthorizationResponse) {
        Some(IsoMessageTypes::AuthorizationResponse)
    } else if code == code_bytes(IsoMessageTypes::AuthorizationAdvice) {
        Some(IsoMessageTypes::AuthorizationAdvice)
    } else if code == code_bytes(IsoMessageTypes::AuthorizationAdviceResponse) {
        Some(IsoMessageTypes::AuthorizationAdviceResponse)
    } else if code == code_bytes(IsoMessageTypes::Financial) {
        Some(IsoMessageTypes::Financial)
    } else if code == code_bytes(IsoMessageTypes::FinancialResponse) {
        Some(IsoMessageTypes::FinancialResponse)
    } else if code == code_bytes(IsoMessageTypes::FinancialAdvice) {
        Some(IsoMessageTypes::FinancialAdvice)
    } else if code == code_bytes(IsoMessageTypes::FinancialAdviceResponse) {
        Some(IsoMessageTypes::FinancialAdviceResponse)
    } else if code == code_bytes(IsoMessageTypes::TokenManagement) {
        Some(IsoMessageTypes::TokenManagement)
    } else if code == code_bytes(IsoMessageTypes::TokenManagementResponse) {
        Some(IsoMessageTypes::TokenManagementResponse)
    } else if code == code_bytes(IsoMessageTypes::Reversal) {
        Some(IsoMessageTypes::Reversal)
    } else if code == code_bytes(IsoMessageTypes::ReversalResponse) {
        Some(IsoMessageTypes::ReversalResponse)
    } else if code == code_bytes(IsoMessageTypes::TokenNotification) {
        Some(IsoMessageTypes::TokenNotification)
    } else if code == code_bytes(IsoMessageTypes::TokenNotificationResponse) {
        Some(IsoMessageTypes::TokenNotificationResponse)
    } else if code == code_bytes(IsoMessageTypes::NetworkManagement) {
        Some(IsoMessageTypes::NetworkManagement)
    } else if code == code_bytes(IsoMessageTypes::NetworkManagementResponse) {
        Some(IsoMessageTypes::NetworkManagementResponse)
    } else {
        None
    }
}

/// The lookup is total over the sixteen defined codes: every type's own
/// code maps back to exactly that type.
pub proof fn lemma_type_lookup_total(t: IsoMessageTypes)
    ensures
        spec_find_type(code_bytes(t)) == Some(t),
{
    match t {
        IsoMessageTypes::Authorization => {},
        IsoMessageTypes::AuthorizationResponse => {},
        IsoMessageTypes::AuthorizationAdvice => {},
        IsoMessageTypes::AuthorizationAdviceResponse => {},
        IsoMessageTypes::Financial => {},
        IsoMessageTypes::FinancialResponse => {},
        IsoMessageTypes::FinancialAdvice => {},
        IsoMessageTypes::FinancialAdviceResponse => {},
        IsoMessageTypes::TokenManagement => {},
        IsoMessageTypes::TokenManagementResponse => {},
        IsoMessageTypes::Reversal => {},
        IsoMessageTypes::ReversalResponse => {},
        IsoMessageTypes::TokenNotification => {},
        IsoMessageTypes::TokenNotificationResponse => {},
        IsoMessageTypes::NetworkManagement => {},
        IsoMessageTypes::NetworkManagementResponse => {},
    }
}

/// The byte table and the text table name every type consistently: a
/// type's code as text, encoded back to ASCII bytes, is exactly its code
/// on the wire. With [`lemma_type_lookup_total`], looking up the bytes of
/// `value` always finds the type again.
pub proof fn lemma_value_matches_code(t: IsoMessageTypes)
    ensures
        spec_value(t).map_values(|c: char| c as u8) == code_bytes(t),
{
    match t {
        IsoMessageTypes::Authorization => {
            reveal_strlit("0100");
            assert(spec_value(t).map_values(|c: char| c as u8) =~= code_bytes(t));
        },
        IsoMessageTypes::AuthorizationResponse => {
            reveal_strlit("0110");
            assert(spec_value(t).map_values(|c: char| c as u8) =~= code_bytes(t));
        },
        IsoMessageTypes::AuthorizationAdvice => {
            reveal_strlit("0120");
            assert(spec_value(t).map_values(|c: char| c as u8) =~= code_bytes(t));
        },
        IsoMessageTypes::AuthorizationAdviceResponse => {
            reveal_strlit("0130");
            assert(spec_value(t).map_values(|c: char| c as u8) =~= code_bytes(t));
        },
        IsoMessageTypes::Financial => {
            reveal_strlit("0200");
            assert(spec_value(t).map_values(|c: char| c as u8) =~= code_bytes(t));
        },
        IsoMessageTypes::FinancialResponse => {
            reveal_strlit("0210");
            assert(spec_value(t).map_values(|c: char| c as u8) =~= code_bytes(t));
        },
        IsoMessageTypes::FinancialAdvice => {
            reveal_strlit("0220");
            assert(spec_value(t).map_values(|c: char| c as u8) =~= code_bytes(t));
        },
        IsoMessageTypes::FinancialAdviceResponse => {
            reveal_strlit("0230");
            assert(spec_value(t).map_values(|c: char| c as u8) =~= code_bytes(t));
        },
        IsoMessageTypes::TokenManagement => {
            reveal_strlit("0302");
            assert(spec_value(t).map_values(|c: char| c as u8) =~= code_bytes(t));
        },
        IsoMessageTypes::TokenManagementResponse => {
            reveal_strlit("0312");
            assert(spec_value(t).map_values(|c: char| c as u8) =~= code_bytes(t));
        },
        IsoMessageTypes::Reversal => {
            reveal_strlit("0420");
            assert(spec_value(t).map_values(|c: char| c as u8) =~= code_bytes(t));
        },
        IsoMessageTypes::ReversalResponse => {
            reveal_strlit("0430");
            assert(spec_value(t).map_values(|c: char| c as u8) =~= code_bytes(t));
        },
        IsoMessageTypes::TokenNotification => {
            reveal_strlit("0620");
            assert(spec_value(t).map_values(|c: char| c as u8) =~= code_bytes(t));
        },
        IsoMessageTypes::TokenNotificationResponse => {
            reveal_strlit("0630");
            assert(spec_value(t).map_values(|c: char| c as u8) =~= code_bytes(t));
        },
        IsoMessageTypes::NetworkManagement => {
            reveal_strlit("0800");
            assert(spec_value(t).map_values(|c: char| c as u8) =~= code_bytes(t));
        },
        IsoMessageTypes::NetworkManagementResponse => {
            reveal_strlit("0810");
            assert(spec_value(t).map_values(|c: char| c as u8) =~= code_bytes(t));
        },
    }
}

/// The four chars of the MTI code that names `t`, for callers that want the
/// code as text.
pub open spec fn spec_value(t: IsoMessageTypes) -> Seq<char> {
    match t {
        IsoMessageTypes::Authorization => "0100"@,
        IsoMessageTypes::AuthorizationResponse => "0110"@,
        IsoMessageTypes::AuthorizationAdvice => "0120"@,
        IsoMessageTypes::AuthorizationAdviceResponse => "0130"@,
        IsoMessageTypes::Financial => "0200"@,
        IsoMessageTypes::FinancialResponse => "0210"@,
        IsoMessageTypes::FinancialAdvice => "0220"@,
        IsoMessageTypes::FinancialAdviceResponse => "0230"@,
        IsoMessageTypes::TokenManagement => "0302"@,
        IsoMessageTypes::TokenManagementResponse => "0312"@,
        IsoMessageTypes::Reversal => "0420"@,
        IsoMessageTypes::ReversalResponse => "0430"@,
        IsoMessageTypes::TokenNotification => "0620"@,
        IsoMessageTypes::TokenNotificationResponse => "0630"@,
        IsoMessageTypes::NetworkManagement => "0800"@,
        IsoMessageTypes::NetworkManagementResponse => "0810"@,
    }
}

impl IsoMessageTypes {
    /// Looks the MTI code up in the table: `Ok` with the named type for
    /// each of the sixteen defined codes, `Err` for every other input.
    pub fn find_type(message_type: &[u8]) -> (r: Result<IsoMessageTypes, ProtocolError>)
        ensures
            match r {
                Ok(t) => spec_find_type(message_type@) == Some(t),
                Err(e) => spec_find_type(message_type@) is None && e
                    == ProtocolError::UnknownMessageType,
            },
    {
        if message_type.len() != 4 {
            return Err(ProtocolError::UnknownMessageType);
        }
        let b0 = message_type[0];
        let b1 = message_type[1];
        let b2 = message_type[2];
        let b3 = message_type[3];
        proof {
            assert(message_type@ =~= seq![b0, b1, b2, b3]);
        }
        if b0 == 48 && b1 == 49 && b2 == 48 && b3 == 48 {
            Ok(IsoMessageTypes::Authorization)
        } else if b0 == 48 && b1 == 49 && b2 == 49 && b3 == 48 {
            Ok(IsoMessageTypes::AuthorizationResponse)
        } else if b0 == 48 && b1 == 49 && b2 == 50 && b3 == 48 {
            Ok(IsoMessageTypes::AuthorizationAdvice)
        } else if b0 == 48 && b1 == 49 && b2 == 51 && b3 == 48 {
            Ok(IsoMessageTypes::AuthorizationAdviceResponse)
        } else if b0 == 48 && b1 == 50 && b2 == 48 && b3 == 48 {
            Ok(IsoMessageTypes::Financial)
        } else if b0 == 48 && b1 == 50 && b2 == 49 && b3 == 48 {
            Ok(IsoMessageTypes::FinancialResponse)
        } else if b0 == 48 && b1 == 50 && b2 == 50 && b3 == 48 {
            Ok(IsoMessageTypes::FinancialAdvice)
        } else if b0 == 48 && b1 == 50 && b2 == 51 && b3 == 48 {
            Ok(IsoMessageTypes::FinancialAdviceResponse)
        } else if b0 == 48 && b1 == 51 && b2 == 48 && b3 == 50 {
            Ok(IsoMessageTypes::TokenManagement)
        } else if b0 == 48 && b1 == 51 && b2 == 49 && b3 == 50 {
            Ok(IsoMessageTypes::TokenManagementResponse)
        } else if b0 == 48 && b1 == 52 && b2 == 50 && b3 == 48 {
            Ok(IsoMessageTypes::Reversal)
        } else if b0 == 48 && b1 == 52 && b2 == 51 && b3 == 48 {
            Ok(IsoMessageTypes::ReversalResponse)
        } else if b0 == 48 && b1 == 54 && b2 == 50 && b3 == 48 {
            Ok(IsoMessageTypes::TokenNotification)
        } else if b0 == 48 && b1 == 54 && b2 == 51 && b3 == 48 {
            Ok(IsoMessageTypes::TokenNotificationResponse)
        } else if b0 == 48 && b1 == 56 && b2 == 48 && b3 == 48 {
            Ok(IsoMessageTypes::NetworkManagement)
        } else if b0 == 48 && b1 == 56 && b2 == 49 && b3 == 48 {
            Ok(IsoMessageTypes::NetworkManagementResponse)
        } else {
            Err(ProtocolError::UnknownMessageType)
        }
    }

    /// The MTI code of this type, as text.
    pub fn value(&self) -> (r: &'static str)
        ensures
            r@ == spec_value(*self),
    {
        match *self {
            IsoMessageTypes::Authorization => "0100",
            IsoMessageTypes::AuthorizationResponse => "0110",
            IsoMessageTypes::AuthorizationAdvice => "0120",
            IsoMessageTypes::AuthorizationAdviceResponse => "0130",
            IsoMessageTypes::Financial => "0200",
            IsoMessageTypes::FinancialResponse => "0210",
            IsoMessageTypes::FinancialAdvice => "0220",
            IsoMessageTypes::FinancialAdviceResponse => "0230",
            IsoMessageTypes::TokenManagement => "0302",
            IsoMessageTypes::TokenManagementResponse => "0312",
            IsoMessageTypes::Reversal => "0420",
            IsoMessageTypes::ReversalResponse => "0430",
            IsoMessageTypes::TokenNotification => "0620",
            IsoMessageTypes::TokenNotificationResponse => "0630",
            IsoMessageTypes::NetworkManagement => "0800",
            IsoMessageTypes::NetworkManagementResponse => "0810",
        }
    }
}

/// One fully reassembled message body. The reassembly engine only ever
/// builds an envelope from a byte span whose length equals the length its
/// prefix declared, so the body here is always exactly one message.
#[derive(Clone)]
pub struct IsoMessage {
    original_message_buffer: Vec<u8>,
}

impl View for IsoMessage {
    type V = Seq<u8>;

    closed spec fn view(&self) -> Seq<u8> {
        self.original_message_buffer@
    }
}

impl IsoMessage {
    /// Wraps one message body.
    pub fn new(original_message_buffer: Vec<u8>) -> (r: Self)
        ensures
            r@ == original_message_buffer@,
    {
        Self { original_message_buffer }
    }

    /// The raw body bytes, read-only.
    pub fn body(&self) -> (r: &Vec<u8>)
        ensures
            r@ == self@,
    {
        &self.original_message_buffer
    }

    /// Derives the message type from the MTI code in the body's first four
    /// bytes: the named type for a known code, an error for any other.
    pub fn get_type(&self) -> (r: Result<IsoMessageTypes, ProtocolError>)
        requires
            self@.len() >= 4,
        ensures
            match r {
                Ok(t) => spec_find_type(self@.subrange(0, 4)) == Some(t),
                Err(e) => spec_find_type(self@.subrange(0, 4)) is None && e
                    == ProtocolError::UnknownMessageType,
            },
    {
        let message_type = slice_subrange(self.original_message_buffer.as_slice(), 0, 4);
        IsoMessageTypes::find_type(message_type)
    }
}

} // verus!
