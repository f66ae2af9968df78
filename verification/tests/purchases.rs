use windows_iap::clock::UnixTime;
use windows_iap::error::Error;
use windows_iap::error::PluginInvokeError;
use windows_iap::error::Read;
use windows_iap::error::WindowsError;
use windows_iap::iap::init;
use windows_iap::iap::Iap;
use windows_iap::licenses::Moment;
use windows_iap::models::Product;
use windows_iap::models::ProductStatus;
use windows_iap::models::Purchase;
use windows_iap::models::PurchaseRequest;
use windows_iap::models::PurchaseStateValue;
use windows_iap::purchases::PurchasePlan;
use windows_iap::store::PurchaseReply;
use windows_iap::store::StoreLicense;
use windows_iap::store::StoreProduct;
use windows_iap::store::StoreQueryReply;
use windows_iap::store::StoreStatus;

// 2001-09-09T01:46:40Z, in ticks since 1601 and in milliseconds since 1970.
const EXPIRY_TICKS: i64 = 126_444_736_000_000_000;
const EXPIRY_MILLIS: i64 = 1_000_000_000_000;
const THIRTY_DAYS: i64 = 30 * 24 * 60 * 60 * 1000;

fn broken<T>(code: i32) -> Read<T> {
    Err(WindowsError { code, message: format!("error {}", code) })
}

fn text(s: &str) -> Read<String> {
    Ok(s.to_string())
}

fn iap() -> Iap {
    init("demo".to_string()).unwrap()
}

fn moment() -> Moment {
    Moment {
        now: Ok(UnixTime { secs: 1_700_000_000, subsec_nanos: 123_000_000 }),
        nonce: 42,
    }
}

fn plan(product_type: &str) -> PurchasePlan {
    PurchasePlan {
        product: Product {
            product_id: "coins".to_string(),
            title: "Coins".to_string(),
            description: "Many".to_string(),
            product_type: product_type.to_string(),
            formatted_price: None,
            price_currency_code: None,
            price_amount_micros: None,
            subscription_offer_details: None,
        },
        store_id: "9NABC".to_string(),
    }
}

fn answer(status: i32, message: Option<&str>) -> Read<PurchaseReply> {
    Ok(PurchaseReply {
        status: Ok(status),
        extended_error_message: message.map(|m| m.to_string()),
    })
}

fn license(id: &str, active: bool) -> StoreLicense {
    StoreLicense {
        in_app_offer_token: text(id),
        sku_store_id: text("9NABC/0010"),
        is_active: Ok(active),
        expiration_ticks: Ok(EXPIRY_TICKS),
    }
}

fn rejection(error: Error) -> (String, String) {
    match error {
        Error::PluginInvoke(PluginInvokeError::InvokeRejected(r)) => {
            (r.code.unwrap(), r.message.unwrap())
        }
        Error::Windows(e) => panic!("{:?}", e),
    }
}

fn windows_code(error: Error) -> i32 {
    match error {
        Error::Windows(e) => e.code,
        Error::PluginInvoke(e) => panic!("{:?}", e),
    }
}

fn pair(a: &str, b: &str) -> (String, String) {
    (a.to_string(), b.to_string())
}

fn token(time: i64, nonce: u32) -> String {
    Iap::purchase_token_with_nonce("9NABC".to_string(), time, nonce).unwrap()
}

#[test]
fn a_purchase_is_built_from_plan_and_answer() {
    let (purchase, event) = iap()
        .purchase_at(plan("inapp"), answer(0, Some("ok")), &moment())
        .unwrap();
    let token = token(1_700_000_000_123, 42);
    let expected = Purchase {
        order_id: Some(token.clone()),
        package_name: "Coins".to_string(),
        product_id: "coins".to_string(),
        purchase_time: 1_700_000_000_123,
        purchase_token: token,
        purchase_state: PurchaseStateValue::Purchased,
        is_auto_renewing: false,
        is_acknowledged: true,
        original_json: "{\"status\":0,\"message\":\"ok\",\"productId\":\"coins\"}".to_string(),
        signature: String::new(),
        original_id: None,
        jws_representation: None,
    };
    assert_eq!(purchase, expected);
    assert_eq!(event.name, "purchaseUpdated");
    assert_eq!(event.payload, expected);
}

#[test]
fn products_bought_before_count_as_purchased() {
    let (purchase, _) = iap().purchase_at(plan("subs"), answer(1, None), &moment()).unwrap();
    assert_eq!(purchase.purchase_state, PurchaseStateValue::Purchased);
    assert!(purchase.is_auto_renewing);
    assert_eq!(
        purchase.original_json,
        "{\"status\":1,\"message\":\"\",\"productId\":\"coins\"}"
    );
}

#[test]
fn other_statuses_reject_a_purchase() {
    let refused = |status: i32| {
        rejection(iap().purchase_at(plan("inapp"), answer(status, None), &moment()).unwrap_err())
    };
    assert_eq!(refused(2), pair("purchaseNotCompleted", "Purchase was not completed"));
    assert_eq!(refused(3), pair("networkError", "Network error during purchase"));
    assert_eq!(refused(4), pair("serverError", "Server error during purchase"));
    assert_eq!(refused(5), pair("purchaseFailed", "Purchase failed"));
    assert_eq!(refused(-1), pair("purchaseFailed", "Purchase failed"));
}

#[test]
fn unread_answers_fail_a_purchase() {
    let error = iap().purchase_at(plan("inapp"), broken(-1), &moment()).unwrap_err();
    assert_eq!(windows_code(error), -1);
    let reply = Ok(PurchaseReply { status: broken(-2), extended_error_message: None });
    let error = iap().purchase_at(plan("inapp"), reply, &moment()).unwrap_err();
    assert_eq!(windows_code(error), -2);
    let late = Moment { now: Err("why".to_string()), nonce: 0 };
    let error = iap().purchase_at(plan("inapp"), answer(0, None), &late).unwrap_err();
    assert_eq!(
        rejection(error),
        pair("systemTimeError", "Failed to get system time: why")
    );
    let error = iap().purchase_at(plan("inapp"), answer(2, None), &late).unwrap_err();
    assert_eq!(rejection(error).0, "purchaseNotCompleted");
}

#[test]
fn a_purchase_takes_the_time_from_the_clock() {
    let before = Iap::now_millis().unwrap();
    let (purchase, event) = iap().purchase(plan("inapp"), answer(0, None)).unwrap();
    let after = Iap::now_millis().unwrap();
    assert!(before <= purchase.purchase_time && purchase.purchase_time <= after);
    assert_eq!(event.payload, purchase);
    assert_eq!(purchase.order_id, Some(purchase.purchase_token.clone()));
}

#[test]
fn purchases_are_planned_from_the_catalog() {
    let product = |store_id: Read<String>| StoreProduct {
        in_app_offer_token: text("coins"),
        title: text("Coins"),
        description: text("Many"),
        formatted_price: text("$1"),
        currency_code: text("USD"),
        base_price_micros: Ok(1_000_000),
        skus: Ok(vec![]),
        store_id,
    };
    let reply = |p: StoreProduct| {
        Ok(StoreQueryReply {
            extended_error: Ok(StoreStatus { code: 0, message: String::new() }),
            products: Ok(vec![Ok(p)]),
        })
    };
    let request = |id: &str| PurchaseRequest {
        product_id: id.to_string(),
        product_type: "inapp".to_string(),
    };
    let plan = iap().plan_purchase(reply(product(text("9NABC"))), &request("coins")).unwrap();
    assert_eq!(plan.store_id, "9NABC");
    assert_eq!(plan.product.product_id, "coins");
    let error = iap().plan_purchase(reply(product(broken(-1))), &request("coins")).unwrap_err();
    assert_eq!(windows_code(error), -1);
    let error = iap().plan_purchase(reply(product(text("9NABC"))), &request("x")).unwrap_err();
    assert_eq!(rejection(error), pair("productNotFound", "Product not found: x"));
}

#[test]
fn consuming_ends_by_its_status() {
    let refused = |status: i32| rejection(iap().consume_purchase(Ok(status)).unwrap_err());
    assert!(iap().consume_purchase(Ok(0)).is_ok());
    assert_eq!(
        refused(1),
        pair("insufficientQuantity", "Not enough balance remaining to consume")
    );
    assert_eq!(refused(2), pair("networkError", "Network error during consume"));
    assert_eq!(refused(3), pair("serverError", "Server error during consume"));
    assert_eq!(refused(4), pair("consumeFailed", "Failed to consume purchase"));
    assert_eq!(refused(-7), pair("consumeFailed", "Failed to consume purchase"));
    assert_eq!(windows_code(iap().consume_purchase(broken(-9)).unwrap_err()), -9);
}

#[test]
fn a_subscription_license_becomes_a_purchase() {
    let purchase = iap()
        .license_to_purchase_at(&license("pro", true), "subs", &moment())
        .unwrap();
    let time = EXPIRY_MILLIS - THIRTY_DAYS;
    let token = token(time, 42);
    assert_eq!(
        purchase,
        Purchase {
            order_id: Some(token.clone()),
            package_name: "demo".to_string(),
            product_id: "pro".to_string(),
            purchase_time: time,
            purchase_token: token,
            purchase_state: PurchaseStateValue::Purchased,
            is_auto_renewing: true,
            is_acknowledged: true,
            original_json: "{\"isActive\":true,\"expirationDate\":1000000000000}".to_string(),
            signature: String::new(),
            original_id: None,
            jws_representation: None,
        }
    );
}

#[test]
fn other_licenses_are_dated_by_the_clock() {
    let purchase = iap()
        .license_to_purchase_at(&license("coins", false), "inapp", &moment())
        .unwrap();
    assert_eq!(purchase.purchase_time, 1_700_000_000_123);
    assert_eq!(purchase.purchase_state, PurchaseStateValue::Canceled);
    assert!(!purchase.is_auto_renewing);
    let mut unending = license("pro", true);
    unending.expiration_ticks = Ok(0);
    let purchase = iap().license_to_purchase_at(&unending, "subs", &moment()).unwrap();
    assert_eq!(purchase.purchase_time, 1_700_000_000_123);
    assert_eq!(
        purchase.original_json,
        "{\"isActive\":true,\"expirationDate\":-11644473600000}"
    );
    let mut first = license("pro", true);
    first.expiration_ticks = Ok(116_444_736_000_000_000);
    let purchase = iap().license_to_purchase_at(&first, "subs", &moment()).unwrap();
    assert_eq!(purchase.purchase_time, 1_700_000_000_123);
}

#[test]
fn the_clock_is_needed_only_without_an_estimate() {
    let late = Moment { now: Err("why".to_string()), nonce: 0 };
    assert!(iap().license_to_purchase_at(&license("pro", true), "subs", &late).is_ok());
    let error = iap().license_to_purchase_at(&license("pro", true), "inapp", &late).unwrap_err();
    assert_eq!(rejection(error).0, "systemTimeError");
}

#[test]
fn unread_licenses_fail_in_order() {
    let code = |l: &StoreLicense| {
        windows_code(iap().license_to_purchase_at(l, "subs", &moment()).unwrap_err())
    };
    let status_code = |l: &StoreLicense| {
        windows_code(
            Iap::license_to_product_status_with_nonce(l, "pro".to_string(), "subs", 1)
                .unwrap_err(),
        )
    };
    let mut l = license("pro", true);
    l.sku_store_id = broken(-2);
    assert_eq!(status_code(&l), -2);
    l.expiration_ticks = broken(-4);
    assert_eq!(status_code(&l), -4);
    l.is_active = broken(-3);
    assert_eq!(status_code(&l), -3);
    assert_eq!(code(&l), -2);
    l.sku_store_id = text("9NABC");
    assert_eq!(code(&l), -3);
    l.is_active = Ok(true);
    assert_eq!(code(&l), -4);
    l.in_app_offer_token = broken(-1);
    assert_eq!(code(&l), -1);
}

#[test]
fn active_licenses_are_restored_in_order() {
    let list = Ok(vec![
        Ok(license("a", true)),
        Ok(license("b", false)),
        Ok(license("a", true)),
        Ok(license("c", true)),
    ]);
    let restored = iap().restore_purchases(list, "subs".to_string()).unwrap();
    let ids: Vec<&str> = restored.purchases.iter().map(|p| p.product_id.as_str()).collect();
    assert_eq!(ids, ["a", "a", "c"]);
    for p in &restored.purchases {
        assert_eq!(p.purchase_state, PurchaseStateValue::Purchased);
        assert_eq!(p.package_name, "demo");
        assert_eq!(p.purchase_time, EXPIRY_MILLIS - THIRTY_DAYS);
    }
}

#[test]
fn unread_license_lists_fail() {
    let error = iap().restore_purchases(broken(-1), "subs".to_string()).unwrap_err();
    assert_eq!(windows_code(error), -1);
    let list = Ok(vec![Ok(license("a", true)), broken(-2)]);
    let error = iap().restore_purchases(list, "subs".to_string()).unwrap_err();
    assert_eq!(windows_code(error), -2);
    let mut bad = license("b", false);
    bad.is_active = broken(-3);
    let list = Ok(vec![Ok(bad), broken(-2)]);
    let error = iap().restore_purchases(list, "subs".to_string()).unwrap_err();
    assert_eq!(windows_code(error), -3);
    assert!(iap()
        .restore_purchases(Ok(vec![]), "subs".to_string())
        .unwrap()
        .purchases
        .is_empty());
}

#[test]
fn a_license_tells_the_status_of_its_product() {
    let status = Iap::license_to_product_status_with_nonce(
        &license("pro", true),
        "pro".to_string(),
        "subs",
        7,
    )
    .unwrap();
    let time = EXPIRY_MILLIS - THIRTY_DAYS;
    assert_eq!(
        status,
        ProductStatus {
            product_id: "pro".to_string(),
            is_owned: true,
            purchase_state: Some(PurchaseStateValue::Purchased),
            purchase_time: Some(time),
            expiration_time: Some(EXPIRY_MILLIS),
            is_auto_renewing: Some(true),
            is_acknowledged: Some(true),
            purchase_token: Some(token(time, 7)),
        }
    );
}

#[test]
fn a_canceled_product_is_not_owned() {
    let mut l = license("coins", false);
    l.expiration_ticks = Ok(0);
    let status =
        Iap::license_to_product_status_with_nonce(&l, "coins".to_string(), "inapp", 7).unwrap();
    assert!(!status.is_owned);
    assert_eq!(status.purchase_state, Some(PurchaseStateValue::Canceled));
    assert_eq!(status.purchase_time, Some(-11_644_473_600_000));
    assert_eq!(status.expiration_time, None);
    assert_eq!(status.is_auto_renewing, Some(false));
}

#[test]
fn the_first_license_of_a_product_counts() {
    let list = || {
        Ok(vec![
            Ok(license("a", true)),
            Ok(license("b", false)),
            Ok(license("b", true)),
            broken(-2),
        ])
    };
    let status = |id: &str| {
        iap().get_product_status(list(), id.to_string(), "subs".to_string())
    };
    assert!(status("a").unwrap().is_owned);
    assert!(!status("b").unwrap().is_owned);
    assert_eq!(windows_code(status("c").unwrap_err()), -2);
    let error = iap()
        .get_product_status(broken(-1), "a".to_string(), "subs".to_string())
        .unwrap_err();
    assert_eq!(windows_code(error), -1);
    let mut unread = license("a", true);
    unread.in_app_offer_token = broken(-3);
    let error = iap()
        .get_product_status(Ok(vec![Ok(unread)]), "a".to_string(), "subs".to_string())
        .unwrap_err();
    assert_eq!(windows_code(error), -3);
}

#[test]
fn products_without_license_are_not_owned() {
    let status = iap()
        .get_product_status(Ok(vec![Ok(license("a", true))]), "z".to_string(), "subs".to_string())
        .unwrap();
    assert_eq!(
        status,
        ProductStatus {
            product_id: "z".to_string(),
            is_owned: false,
            purchase_state: None,
            purchase_time: None,
            expiration_time: None,
            is_auto_renewing: None,
            is_acknowledged: None,
            purchase_token: None,
        }
    );
}

#[test]
fn owned_products_are_among_the_restored() {
    let list = || Ok(vec![Ok(license("b", false)), Ok(license("a", true))]);
    let status = iap()
        .get_product_status(list(), "a".to_string(), "subs".to_string())
        .unwrap();
    assert!(status.is_owned);
    let restored = iap().restore_purchases(list(), "subs".to_string()).unwrap();
    assert!(restored.purchases.iter().any(|p| p.product_id == "a"));
    assert_eq!(status.purchase_time, Some(restored.purchases[0].purchase_time));
}
