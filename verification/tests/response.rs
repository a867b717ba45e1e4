use send_transaction::error::ClientError;
use send_transaction::json::{JsonNumber, JsonValue};
use send_transaction::response::{
    parse_send_transaction_response, ClientResponse, SendVersionedTransactionResponse,
};
use send_transaction::signature::{Signature, SIGNATURE_BYTES};

const KNOWN_TEXT: &str =
    "4UkMASi45ub7Qe4ZE36UT5G6cU4ud8Fhhe4deS4F3cw9KTAb8dLcukC7edhDQ7cn5d4gEYkbUrMWeWQLGsCmrG6d";

const KNOWN_BYTES: [u8; 64] = [
    173, 250, 177, 219, 78, 113, 180, 183, 41, 181, 24, 19, 73, 143, 208, 166, 236, 120, 209, 29,
    28, 220, 161, 61, 16, 75, 31, 9, 24, 190, 58, 184, 59, 31, 54, 17, 200, 174, 129, 44, 67, 154,
    19, 187, 49, 61, 65, 30, 149, 19, 239, 140, 54, 122, 26, 198, 126, 22, 70, 7, 111, 63, 127,
    170,
];

const ALL_ONES_TEXT: &str =
    "67rpwLCuS5DGA8KGZXKsVQ7dnPb9goRLoKfgGbLfQg9WoLUgNY77E2jT11fem3coV9nAkguBACzrU1iyZM4B8roQ";

const COUNTING_TEXT: &str =
    "1GMkH3brNXiNNs1tiFZHu4yZSRrzJwxi5wB9bHFtMinfCXNnR1adh8Vo8NTheK4evneedH4qmvjeqcBBNAefgS";

fn counting_bytes() -> [u8; 64] {
    let mut bytes = [0u8; 64];
    for (i, b) in bytes.iter_mut().enumerate() {
        *b = i as u8;
    }
    bytes
}

fn reply(text: &str) -> ClientResponse {
    ClientResponse::new(JsonValue::String(text.to_string()))
}

fn parse(response: &ClientResponse) -> Result<Signature, ClientError> {
    SendVersionedTransactionResponse::parse(response).map(Signature::from)
}

#[test]
fn parse_reads_a_known_signature() {
    assert_eq!(parse(&reply(KNOWN_TEXT)), Ok(Signature::new(KNOWN_BYTES)));
}

#[test]
fn parse_reads_the_extremes() {
    assert_eq!(parse(&reply(ALL_ONES_TEXT)), Ok(Signature::new([255; 64])));
    assert_eq!(parse(&reply(&"1".repeat(64))), Ok(Signature::new([0; 64])));
    assert_eq!(parse(&reply(COUNTING_TEXT)), Ok(Signature::new(counting_bytes())));
}

#[test]
fn parse_refuses_a_number() {
    let response = ClientResponse::new(JsonValue::Number(JsonNumber::Unsigned(123)));
    assert_eq!(parse(&response), Err(ClientError::ResponseShape));
}

#[test]
fn parse_refuses_what_is_no_string() {
    for result in [
        JsonValue::Null,
        JsonValue::Bool(true),
        JsonValue::Number(JsonNumber::Negative(-1)),
        JsonValue::Array(vec![JsonValue::String(KNOWN_TEXT.to_string())]),
        JsonValue::Object(vec![("result".to_string(), JsonValue::String(KNOWN_TEXT.to_string()))]),
    ] {
        assert_eq!(parse(&ClientResponse::new(result)), Err(ClientError::ResponseShape));
    }
}

#[test]
fn parse_refuses_text_outside_the_alphabet() {
    assert_eq!(parse(&reply("not-base58!!")), Err(ClientError::SignatureDecode));
    let mut text = KNOWN_TEXT.to_string();
    text.replace_range(..1, "I");
    assert_eq!(parse(&reply(&text)), Err(ClientError::SignatureDecode));
}

#[test]
fn parse_refuses_the_wrong_size() {
    assert_eq!(parse(&reply("")), Err(ClientError::SignatureDecode));
    assert_eq!(parse(&reply("6h8cQN")), Err(ClientError::SignatureDecode));
    assert_eq!(parse(&reply(&"1".repeat(63))), Err(ClientError::SignatureDecode));
    assert_eq!(parse(&reply(&"1".repeat(65))), Err(ClientError::SignatureDecode));
    let mut long = ALL_ONES_TEXT.to_string();
    long.push('1');
    assert_eq!(parse(&reply(&long)), Err(ClientError::SignatureDecode));
}

#[test]
fn signature_text_round_trip() {
    for bytes in [KNOWN_BYTES, [0; 64], [255; 64], counting_bytes()] {
        let signature = Signature::new(bytes);
        let text = signature.to_base58();
        assert_eq!(Signature::parse(&text), Ok(signature));
        assert_eq!(parse(&reply(&text)), Ok(signature));
        assert_eq!(parse(&ClientResponse::with_signature(&signature)), Ok(signature));
    }
}

#[test]
fn signature_writes_base58() {
    assert_eq!(Signature::new(KNOWN_BYTES).to_base58(), KNOWN_TEXT);
    assert_eq!(Signature::new([255; 64]).to_base58(), ALL_ONES_TEXT);
    assert_eq!(Signature::new([0; 64]).to_base58(), "1".repeat(64));
    assert_eq!(ClientResponse::with_signature(&Signature::new(KNOWN_BYTES)), reply(KNOWN_TEXT));
}

#[test]
fn signature_keeps_its_bytes() {
    assert_eq!(Signature::new(KNOWN_BYTES).to_bytes(), KNOWN_BYTES);
    assert_eq!(Signature::new(KNOWN_BYTES).to_bytes().len(), SIGNATURE_BYTES);
    assert_ne!(Signature::new(KNOWN_BYTES), Signature::new([0; 64]));
}

#[test]
fn signature_parse_tells_why_not() {
    assert_eq!(Signature::parse("not-base58!!"), Err(ClientError::SignatureDecode));
    assert_eq!(Signature::parse(KNOWN_TEXT), Ok(Signature::new(KNOWN_BYTES)));
}

#[test]
fn json_as_str_finds_only_strings() {
    assert_eq!(JsonValue::string("abc").as_str(), Some("abc"));
    assert_eq!(JsonValue::string("abc"), JsonValue::String("abc".to_string()));
    assert_eq!(JsonValue::Null.as_str(), None);
    assert_eq!(JsonValue::Number(JsonNumber::Unsigned(123)).as_str(), None);
    assert_eq!(JsonValue::array(vec![JsonValue::string("abc")]).as_str(), None);
    assert_eq!(
        JsonValue::object(vec![("k".to_string(), JsonValue::Null)]),
        JsonValue::Object(vec![("k".to_string(), JsonValue::Null)])
    );
}

#[test]
fn parse_by_the_free_function() {
    assert_eq!(
        parse_send_transaction_response(&reply(KNOWN_TEXT)),
        Ok(Signature::new(KNOWN_BYTES))
    );
    assert_eq!(
        parse_send_transaction_response(&ClientResponse::new(JsonValue::Null)),
        Err(ClientError::ResponseShape)
    );
    assert_eq!(
        parse_send_transaction_response(&reply("not-base58!!")),
        Err(ClientError::SignatureDecode)
    );
}

#[test]
fn cloned_replies_say_the_same() {
    let response = reply(KNOWN_TEXT);
    assert_eq!(response.clone(), response);
    let nested = JsonValue::Array(vec![
        JsonValue::Object(vec![("a".to_string(), JsonValue::Number(JsonNumber::Real(1)))]),
        JsonValue::Null,
    ]);
    assert_eq!(nested.clone(), nested);
}

#[test]
fn round_trip_over_many_signatures() {
    let mut state: u64 = 0x9E37_79B9_7F4A_7C15;
    for round in 0..200 {
        let mut bytes = [0u8; 64];
        for b in bytes.iter_mut() {
            state = state.wrapping_mul(6364136223846793005).wrapping_add(1442695040888963407);
            *b = (state >> 56) as u8;
        }
        for b in bytes.iter_mut().take(round % 5) {
            *b = 0;
        }
        let signature = Signature::new(bytes);
        let response = ClientResponse::with_signature(&signature);
        assert_eq!(response.result().as_str(), Some(signature.to_base58().as_str()));
        assert_eq!(parse_send_transaction_response(&response), Ok(signature));
    }
}
