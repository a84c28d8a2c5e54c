use iso_8583_message::IsoMessage;
use iso_8583_message::IsoMessageTypes;
use iso_8583_message::ProtocolError;

fn all_types() -> Vec<(IsoMessageTypes, &'static str)> {
    vec![
        (IsoMessageTypes::Authorization, "0100"),
        (IsoMessageTypes::AuthorizationResponse, "0110"),
        (IsoMessageTypes::AuthorizationAdvice, "0120"),
        (IsoMessageTypes::AuthorizationAdviceResponse, "0130"),
        (IsoMessageTypes::Financial, "0200"),
        (IsoMessageTypes::FinancialResponse, "0210"),
        (IsoMessageTypes::FinancialAdvice, "0220"),
        (IsoMessageTypes::FinancialAdviceResponse, "0230"),
        (IsoMessageTypes::TokenManagement, "0302"),
        (IsoMessageTypes::TokenManagementResponse, "0312"),
        (IsoMessageTypes::Reversal, "0420"),
        (IsoMessageTypes::ReversalResponse, "0430"),
        (IsoMessageTypes::TokenNotification, "0620"),
        (IsoMessageTypes::TokenNotificationResponse, "0630"),
        (IsoMessageTypes::NetworkManagement, "0800"),
        (IsoMessageTypes::NetworkManagementResponse, "0810"),
    ]
}

#[test]
fn find_type_maps_each_of_the_sixteen_codes() {
    for (expected, code) in all_types() {
        assert_eq!(IsoMessageTypes::find_type(code.as_bytes()), Ok(expected), "code {}", code);
    }
}

#[test]
fn find_type_rejects_unknown_codes() {
    for code in ["0000", "0101", "0300", "0500", "0700", "0900", "1100", "abcd", "010"] {
        assert_eq!(
            IsoMessageTypes::find_type(code.as_bytes()),
            Err(ProtocolError::UnknownMessageType),
            "code {}",
            code
        );
    }
    assert_eq!(IsoMessageTypes::find_type(&[]), Err(ProtocolError::UnknownMessageType));
    assert_eq!(
        IsoMessageTypes::find_type("01000".as_bytes()),
        Err(ProtocolError::UnknownMessageType)
    );
}

#[test]
fn value_names_each_type_by_its_code() {
    for (t, code) in all_types() {
        assert_eq!(t.value(), code);
    }
}

#[test]
fn value_and_find_type_round_trip() {
    for (t, _) in all_types() {
        assert_eq!(IsoMessageTypes::find_type(t.value().as_bytes()), Ok(t));
    }
}

#[test]
fn envelope_keeps_its_body() {
    let body = vec![48, 49, 48, 48, 7, 8, 9];
    let envelope = IsoMessage::new(body.clone());
    assert_eq!(envelope.body(), &body);
}

#[test]
fn envelope_derives_its_type_from_the_first_four_bytes() {
    let mut body = "0420".as_bytes().to_vec();
    body.extend_from_slice(&[5, 5, 5, 5]);
    let envelope = IsoMessage::new(body);
    assert_eq!(envelope.get_type(), Ok(IsoMessageTypes::Reversal));
}

#[test]
fn envelope_with_unknown_code_reports_the_error() {
    let envelope = IsoMessage::new(vec![57, 57, 57, 57, 1, 2]);
    assert_eq!(envelope.get_type(), Err(ProtocolError::UnknownMessageType));
}
