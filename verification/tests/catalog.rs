use windows_iap::error::Error;
use windows_iap::error::PluginInvokeError;
use windows_iap::error::Read;
use windows_iap::error::WindowsError;
use windows_iap::iap::init;
use windows_iap::iap::Iap;
use windows_iap::models::PricingPhase;
use windows_iap::models::SubscriptionOffer;
use windows_iap::store::StoreProduct;
use windows_iap::store::StoreQueryReply;
use windows_iap::store::StoreSku;
use windows_iap::store::StoreStatus;
use windows_iap::store::SubscriptionInfo;

fn broken<T>(code: i32) -> Read<T> {
    Err(WindowsError { code, message: format!("error {}", code) })
}

fn text(s: &str) -> Read<String> {
    Ok(s.to_string())
}

fn product(id: &str) -> StoreProduct {
    StoreProduct {
        in_app_offer_token: text(id),
        title: text("Title"),
        description: text("Description"),
        formatted_price: text("$1.99"),
        currency_code: text("USD"),
        base_price_micros: Ok(1_990_000),
        skus: Ok(vec![]),
        store_id: text("9NABC"),
    }
}

fn sku(count: u32, unit: i32) -> Read<StoreSku> {
    Ok(StoreSku {
        subscription_info: Ok(SubscriptionInfo {
            billing_period: Ok(count),
            billing_period_unit: Ok(unit),
        }),
        formatted_price: text("$0.99"),
    })
}

fn reply(products: Vec<Read<StoreProduct>>) -> Read<StoreQueryReply> {
    Ok(StoreQueryReply {
        extended_error: Ok(StoreStatus { code: 0, message: String::new() }),
        products: Ok(products),
    })
}

fn rejection(error: Error) -> (String, String) {
    match error {
        Error::PluginInvoke(PluginInvokeError::InvokeRejected(r)) => {
            (r.code.unwrap(), r.message.unwrap())
        }
        Error::Windows(e) => panic!("{:?}", e),
    }
}

fn windows_code(error: Error) -> i32 {
    match error {
        Error::Windows(e) => e.code,
        Error::PluginInvoke(e) => panic!("{:?}", e),
    }
}

fn pair(a: &str, b: &str) -> (String, String) {
    (a.to_string(), b.to_string())
}

#[test]
fn kinds_follow_the_product_type() {
    assert_eq!(Iap::product_kinds("inapp"), ["Consumable", "UnmanagedConsumable"]);
    assert_eq!(Iap::product_kinds("subs"), ["Subscription", "Durable"]);
    let all = ["Consumable", "UnmanagedConsumable", "Durable", "Subscription"];
    assert_eq!(Iap::product_kinds(""), all);
    assert_eq!(Iap::product_kinds("Subs"), all);
}

#[test]
fn product_ids_are_offer_tokens() {
    assert_eq!(Iap::app_product_id(&product("coins")).unwrap(), "coins");
    assert_eq!(Iap::app_product_id(&product(" coins ")).unwrap(), " coins ");
    let missing = pair(
        "missingProductId",
        "Windows Store product is missing InAppOfferToken",
    );
    assert_eq!(rejection(Iap::app_product_id(&product("")).unwrap_err()), missing);
    assert_eq!(rejection(Iap::app_product_id(&product(" \t")).unwrap_err()), missing);
    let mut unread = product("coins");
    unread.in_app_offer_token = broken(-3);
    assert_eq!(windows_code(Iap::app_product_id(&unread).unwrap_err()), -3);
}

#[test]
fn price_digits_drop_the_currency() {
    assert_eq!(Iap::price_digits("$1,234.50"), "1234.50");
    assert_eq!(Iap::price_digits("1.234,50 \u{20ac}"), "1.23450");
    assert_eq!(Iap::price_digits("\u{664}\u{bd}x"), "\u{664}\u{bd}");
    assert_eq!(Iap::price_digits("Free"), "");
    assert_eq!(Iap::price_digits(""), "");
}

#[test]
fn billing_periods_are_spelled_out() {
    assert_eq!(Iap::billing_period_text(1, 0), "P1D");
    assert_eq!(Iap::billing_period_text(2, 1), "P2W");
    assert_eq!(Iap::billing_period_text(3, 2), "P3M");
    assert_eq!(Iap::billing_period_text(10, 3), "P10Y");
    assert_eq!(Iap::billing_period_text(4294967295, -1), "P4294967295M");
}

#[test]
fn products_are_shown_under_their_ids() {
    let shown = Iap::convert_store_product_to_product(&product("coins"), "inapp").unwrap();
    assert_eq!(shown.product_id, "coins");
    assert_eq!(shown.title, "Title");
    assert_eq!(shown.description, "Description");
    assert_eq!(shown.product_type, "inapp");
    assert_eq!(shown.formatted_price, Some("$1.99".to_string()));
    assert_eq!(shown.price_currency_code, Some("USD".to_string()));
    assert_eq!(shown.price_amount_micros, Some(1_990_000));
    assert_eq!(shown.subscription_offer_details, None);
}

#[test]
fn store_ids_are_not_shown() {
    let mut other = product("pro");
    other.store_id = broken(-1);
    assert_eq!(
        Iap::convert_store_product_to_product(&product("pro"), "subs").unwrap(),
        Iap::convert_store_product_to_product(&other, "subs").unwrap()
    );
}

#[test]
fn subscriptions_list_their_offers() {
    let mut pro = product("pro");
    pro.skus = Ok(vec![
        sku(1, 3),
        Ok(StoreSku { subscription_info: broken(-1), formatted_price: broken(-2) }),
        sku(6, 4),
    ]);
    let offer = |period: &str| SubscriptionOffer {
        offer_token: "pro".to_string(),
        base_plan_id: "pro".to_string(),
        offer_id: None,
        pricing_phases: vec![PricingPhase {
            formatted_price: "$0.99".to_string(),
            price_currency_code: "USD".to_string(),
            price_amount_micros: 1_990_000,
            billing_period: period.to_string(),
            billing_cycle_count: 0,
            recurrence_mode: 1,
        }],
    };
    let shown = Iap::convert_store_product_to_product(&pro, "subs").unwrap();
    assert_eq!(
        shown.subscription_offer_details,
        Some(vec![offer("P1Y"), offer("P6M")])
    );
    let shown = Iap::convert_store_product_to_product(&pro, "inapp").unwrap();
    assert_eq!(shown.subscription_offer_details, None);
}

#[test]
fn subscriptions_without_offers_have_none() {
    let mut pro = product("pro");
    assert_eq!(
        Iap::convert_store_product_to_product(&pro, "subs").unwrap().subscription_offer_details,
        None
    );
    pro.skus = Ok(vec![Ok(StoreSku {
        subscription_info: broken(-1),
        formatted_price: text("$0.99"),
    })]);
    assert_eq!(
        Iap::convert_store_product_to_product(&pro, "subs").unwrap().subscription_offer_details,
        None
    );
}

#[test]
fn unread_properties_fail_in_order() {
    let code = |p: &StoreProduct, t: &str| {
        windows_code(Iap::convert_store_product_to_product(p, t).unwrap_err())
    };
    let mut p = product("pro");
    p.skus = broken(-7);
    assert!(Iap::convert_store_product_to_product(&p, "inapp").is_ok());
    assert_eq!(code(&p, "subs"), -7);
    p.base_price_micros = broken(-6);
    assert_eq!(code(&p, "subs"), -6);
    p.currency_code = broken(-5);
    assert_eq!(code(&p, "subs"), -5);
    p.formatted_price = broken(-4);
    assert_eq!(code(&p, "subs"), -4);
    p.description = broken(-3);
    assert_eq!(code(&p, "subs"), -3);
    p.title = broken(-2);
    assert_eq!(code(&p, "subs"), -2);
    p.in_app_offer_token = broken(-1);
    assert_eq!(code(&p, "subs"), -1);
}

#[test]
fn unread_skus_fail_in_order() {
    let code = |skus: Vec<Read<StoreSku>>| {
        let mut p = product("pro");
        p.skus = Ok(skus);
        windows_code(Iap::convert_store_product_to_product(&p, "subs").unwrap_err())
    };
    let part = |period: Read<u32>, unit: Read<i32>, price: Read<String>| {
        Ok(StoreSku {
            subscription_info: Ok(SubscriptionInfo {
                billing_period: period,
                billing_period_unit: unit,
            }),
            formatted_price: price,
        })
    };
    assert_eq!(code(vec![sku(1, 1), broken(-1), broken(-9)]), -1);
    assert_eq!(code(vec![part(broken(-2), broken(-3), broken(-4))]), -2);
    assert_eq!(code(vec![part(Ok(1), broken(-3), broken(-4))]), -3);
    assert_eq!(code(vec![part(Ok(1), Ok(1), broken(-4))]), -4);
}

#[test]
fn queries_fail_by_their_result_code() {
    let failed = Ok(StoreQueryReply {
        extended_error: Ok(StoreStatus { code: -1, message: "no \"net\"\n".to_string() }),
        products: broken(-2),
    });
    assert_eq!(
        rejection(Iap::query_associated_products(failed).unwrap_err()),
        pair(
            "storeQueryFailed",
            "Store query failed with error: \"no \\\"net\\\"\\n\""
        )
    );
}

#[test]
fn queries_fail_where_they_cannot_be_read() {
    assert_eq!(windows_code(Iap::query_associated_products(broken(-1)).unwrap_err()), -1);
    let unread = Ok(StoreQueryReply { extended_error: broken(-2), products: broken(-3) });
    assert_eq!(windows_code(Iap::query_associated_products(unread).unwrap_err()), -2);
    let unread = Ok(StoreQueryReply {
        extended_error: Ok(StoreStatus { code: 1, message: String::new() }),
        products: broken(-3),
    });
    assert_eq!(windows_code(Iap::query_associated_products(unread).unwrap_err()), -3);
    let cut = reply(vec![Ok(product("a")), broken(-4)]);
    assert_eq!(windows_code(Iap::query_associated_products(cut).unwrap_err()), -4);
    let whole = reply(vec![Ok(product("a")), Ok(product("b"))]);
    let ids: Vec<String> = Iap::query_associated_products(whole)
        .unwrap()
        .iter()
        .map(|p| Iap::app_product_id(p).unwrap())
        .collect();
    assert_eq!(ids, ["a", "b"]);
}

#[test]
fn the_first_product_with_an_id_is_found() {
    let mut second = product("b");
    second.title = text("Second");
    let mut third = product("b");
    third.title = text("Third");
    let found = Iap::find_product_by_product_id(
        reply(vec![Ok(product("a")), Ok(second), Ok(third), Ok(product(""))]),
        "b",
    )
    .unwrap();
    assert_eq!(found.title.unwrap(), "Second");
}

#[test]
fn products_without_ids_fail_a_search_before_the_end() {
    let error = Iap::find_product_by_product_id(
        reply(vec![Ok(product("a")), Ok(product(" ")), Ok(product("b"))]),
        "b",
    )
    .unwrap_err();
    assert_eq!(rejection(error).0, "missingProductId");
    let error = Iap::find_product_by_product_id(reply(vec![Ok(product("a"))]), "b").unwrap_err();
    assert_eq!(rejection(error), pair("productNotFound", "Product not found: b"));
    let error = Iap::find_product_by_product_id(broken(-1), "b").unwrap_err();
    assert_eq!(windows_code(error), -1);
}

#[test]
fn requested_products_come_in_the_order_of_the_request() {
    let iap = init("demo".to_string()).unwrap();
    let ids = ["c", "x", "a", "c"].iter().map(|s| s.to_string()).collect();
    let mut unread = product("b");
    unread.in_app_offer_token = broken(-1);
    let response = iap
        .get_products(
            reply(vec![Ok(unread), Ok(product("")), Ok(product("a")), Ok(product("c"))]),
            ids,
            "inapp".to_string(),
        )
        .unwrap();
    let shown: Vec<&str> = response.products.iter().map(|p| p.product_id.as_str()).collect();
    assert_eq!(shown, ["c", "a", "c"]);
}

#[test]
fn requested_products_must_be_readable() {
    let iap = init("demo".to_string()).unwrap();
    let mut bad = product("a");
    bad.title = broken(-2);
    let error = iap
        .get_products(reply(vec![Ok(bad)]), vec!["a".to_string()], "inapp".to_string())
        .unwrap_err();
    assert_eq!(windows_code(error), -2);
    let mut unasked = product("b");
    unasked.title = broken(-2);
    assert!(iap
        .get_products(reply(vec![Ok(unasked)]), vec!["a".to_string()], "inapp".to_string())
        .unwrap()
        .products
        .is_empty());
    assert!(iap.get_products(broken(-1), vec![], "inapp".to_string()).is_err());
}
