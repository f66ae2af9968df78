use windows_iap::error::Error;
use windows_iap::error::PluginInvokeError;
use windows_iap::iap::init;
use windows_iap::iap::Iap;
use windows_iap::token::WindowsPurchaseTokenV1;

fn token(store_id: &str, purchase_time: i64, nonce: u32) -> WindowsPurchaseTokenV1 {
    WindowsPurchaseTokenV1 {
        v: 1,
        store_id: store_id.to_string(),
        purchase_time,
        nonce,
    }
}

fn parse(bytes: &Vec<u8>) -> Option<WindowsPurchaseTokenV1> {
    let value: serde_json::Value = serde_json::from_slice(bytes).ok()?;
    Some(WindowsPurchaseTokenV1 {
        v: u8::try_from(value.get("v")?.as_u64()?).ok()?,
        store_id: value.get("store_id")?.as_str()?.to_string(),
        purchase_time: value.get("purchase_time")?.as_i64()?,
        nonce: u32::try_from(value.get("nonce")?.as_u64()?).ok()?,
    })
}

fn code_and_message(error: Error) -> (String, String) {
    match error {
        Error::PluginInvoke(PluginInvokeError::InvokeRejected(r)) => {
            (r.code.unwrap(), r.message.unwrap())
        }
        Error::Windows(e) => panic!("{:?}", e),
    }
}

fn assert_invalid(result: Result<WindowsPurchaseTokenV1, Error>) {
    assert_eq!(
        code_and_message(result.unwrap_err()),
        (
            "invalidPurchaseToken".to_string(),
            "Invalid Windows purchase token".to_string()
        )
    );
}

#[test]
fn token_is_compact_json_in_order() {
    let text = token("9NABC", 5, 7).encode().unwrap();
    let bytes = WindowsPurchaseTokenV1::decode_bytes(&text).unwrap();
    assert_eq!(
        String::from_utf8(bytes).unwrap(),
        "{\"v\":1,\"store_id\":\"9NABC\",\"purchase_time\":5,\"nonce\":7}"
    );
}

#[test]
fn token_text_is_unpadded_url_safe_base64() {
    assert_eq!(
        token("9NABC", 5, 7).encode().unwrap(),
        "eyJ2IjoxLCJzdG9yZV9pZCI6IjlOQUJDIiwicHVyY2hhc2VfdGltZSI6NSwibm9uY2UiOjd9"
    );
    let text = token("??>>~~", 0, 0).encode().unwrap();
    assert!(!text.contains('='));
    assert!(!text.contains('+'));
    assert!(!text.contains('/'));
}

#[test]
fn numbers_at_their_limits_are_written_in_full() {
    let text = token("x", i64::MIN, u32::MAX).encode().unwrap();
    let bytes = WindowsPurchaseTokenV1::decode_bytes(&text).unwrap();
    assert_eq!(
        String::from_utf8(bytes).unwrap(),
        "{\"v\":1,\"store_id\":\"x\",\"purchase_time\":-9223372036854775808,\"nonce\":4294967295}"
    );
}

#[test]
fn store_ids_are_escaped() {
    let text = token("a\"b\\c\n\u{1}\u{8}\u{c}\r\t\u{7f}\u{e9}/", 0, 0)
        .encode()
        .unwrap();
    let bytes = WindowsPurchaseTokenV1::decode_bytes(&text).unwrap();
    assert_eq!(
        String::from_utf8(bytes).unwrap(),
        "{\"v\":1,\"store_id\":\"a\\\"b\\\\c\\n\\u0001\\b\\f\\r\\t\u{7f}\u{e9}/\",\"purchase_time\":0,\"nonce\":0}"
    );
}

#[test]
fn tokens_are_read_back() {
    for original in [
        token("9NABC", 1_700_000_000_000, 123_456_789),
        token("a\"b\\c\n\u{1}\u{1f600}", -1, 0),
        token(" x ", i64::MAX, u32::MAX),
    ] {
        let text = original.encode().unwrap();
        let read = WindowsPurchaseTokenV1::decode(&text, parse).unwrap();
        assert_eq!(read, original);
    }
}

#[test]
fn nonces_keep_tokens_apart() {
    let a = token("9NABC", 5, 7).encode().unwrap();
    let b = token("9NABC", 5, 8).encode().unwrap();
    let c = token("9NABC", 57, 0).encode().unwrap();
    assert_ne!(a, b);
    assert_ne!(a, c);
}

#[test]
fn texts_that_are_no_base64_are_rejected() {
    for text in ["a", "ab=c", "====", "YQ==", "YR", "a b", "\u{e9}", "YWJj\n", "+/+/"] {
        assert_invalid(WindowsPurchaseTokenV1::decode(text, |_| {
            Some(token("9NABC", 5, 7))
        }));
        assert!(WindowsPurchaseTokenV1::decode_bytes(text).is_err());
    }
    assert_eq!(WindowsPurchaseTokenV1::decode_bytes("").unwrap(), Vec::<u8>::new());
    assert_eq!(WindowsPurchaseTokenV1::decode_bytes("YQ").unwrap(), vec![97u8]);
    assert_eq!(WindowsPurchaseTokenV1::decode_bytes("-_-_").unwrap(), vec![251u8, 255, 191]);
}

#[test]
fn bytes_that_hold_no_token_are_rejected() {
    // "{}" and "not json"
    assert_invalid(WindowsPurchaseTokenV1::decode("e30", parse));
    assert_invalid(WindowsPurchaseTokenV1::decode("bm90IGpzb24", parse));
}

#[test]
fn other_versions_and_blank_ids_are_rejected() {
    let mut old = token("9NABC", 5, 7);
    old.v = 2;
    let text = old.encode().unwrap();
    assert_invalid(WindowsPurchaseTokenV1::decode(&text, parse));
    for id in ["", " ", "\t\u{3000}\n"] {
        let text = token(id, 5, 7).encode().unwrap();
        assert_invalid(WindowsPurchaseTokenV1::decode(&text, parse));
    }
    assert_invalid(WindowsPurchaseTokenV1::accept(None));
    assert_eq!(
        WindowsPurchaseTokenV1::accept(Some(token(" a", 1, 2))).unwrap(),
        token(" a", 1, 2)
    );
}

#[test]
fn failed_encoding_is_an_internal_error() {
    assert_eq!(
        code_and_message(WindowsPurchaseTokenV1::encode_failed("why")),
        (
            "internalError".to_string(),
            "Failed to encode purchase token: why".to_string()
        )
    );
}

#[test]
fn consuming_leads_back_to_the_store_id() {
    let iap = init("demo".to_string()).unwrap();
    let text = Iap::purchase_token_for_store_id("9NABC".to_string(), 12).unwrap();
    let plan = iap.plan_consume(text, parse).unwrap();
    assert_eq!(plan.store_id, "9NABC");
    assert_eq!(plan.quantity, 1);
    let refused = iap.plan_consume("!".to_string(), parse).unwrap_err();
    assert_eq!(code_and_message(refused).0, "invalidPurchaseToken");
}

#[test]
fn purchase_tokens_carry_version_id_and_time() {
    let text = Iap::purchase_token_with_nonce("9NABC".to_string(), 12, 34).unwrap();
    assert_eq!(text, token("9NABC", 12, 34).encode().unwrap());
    let text = Iap::purchase_token_for_store_id("9NABC".to_string(), 12).unwrap();
    let read = WindowsPurchaseTokenV1::decode(&text, parse).unwrap();
    assert_eq!((read.v, read.store_id.as_str(), read.purchase_time), (1, "9NABC", 12));
    assert!(read.nonce < 1_000_000_000);
}
