//! The Store's products: asking for them, finding one, and showing it to
//! callers.

use crate::catalog_laws::is_listed;
use crate::catalog_laws::law_found;
use crate::catalog_laws::law_queried;
use crate::catalog_laws::law_requested_products;
use crate::error::contents;
use crate::error::outcome;
use crate::error::read_text;
use crate::error::read_value;
use crate::error::reading;
use crate::error::readings;
use crate::error::rejected;
use crate::error::Error;
use crate::error::ErrorView;
use crate::error::Read;
use crate::error::WindowsErrorView;
use crate::iap::Iap;
use crate::models::GetProductsResponse;
use crate::models::PricingPhase;
use crate::models::PricingPhaseView;
use crate::models::Product;
use crate::models::ProductView;
use crate::models::SubscriptionOffer;
use crate::models::SubscriptionOfferView;
use crate::store::StoreProduct;
use crate::store::StoreProductView;
use crate::store::StoreQueryReply;
use crate::store::StoreQueryReplyView;
use crate::store::StoreSku;
use crate::store::StoreSkuView;
use crate::text::blank;
use crate::text::decimal;
use crate::text::is_blank;
use crate::text::push_decimal;
use crate::text::text_eq;
use crate::walk::gather;
use crate::walk::lemma_gather_failed;
use crate::walk::lemma_gather_step;
use vstd::prelude::*;
use vstd::string::StringExecFns;

verus! {

/// The developer's id of a product, as far as it can be used as one.
pub open spec fn product_id_of(product: StoreProductView) -> Result<Seq<char>, ErrorView> {
    match product.in_app_offer_token {
        Ok(id) => if blank(id) {
            Err(
                rejected(
                    "missingProductId"@,
                    "Windows Store product is missing InAppOfferToken"@,
                ),
            )
        } else {
            Ok(id)
        },
        Err(error) => Err(ErrorView::Windows(error)),
    }
}

/// The letter that stands for a billing period's unit.
pub open spec fn period_letter(unit: i32) -> Seq<char> {
    match unit {
        0 => "D"@,
        1 => "W"@,
        3 => "Y"@,
        _ => "M"@,
    }
}

/// A billing period, such as `P1M`.
pub open spec fn period_text(count: u32, unit: i32) -> Seq<char> {
    "P"@ + decimal(count as int) + period_letter(unit)
}

/// The offer that a SKU of a subscription makes, if it makes one. It is named by
/// the product's id, never by an id of the SKU.
pub open spec fn offer_of(
    sku: Result<StoreSkuView, WindowsErrorView>,
    product_id: Seq<char>,
    currency_code: Seq<char>,
    micros: i64,
) -> Result<Option<SubscriptionOfferView>, ErrorView> {
    match sku {
        Err(error) => Err(ErrorView::Windows(error)),
        Ok(sku) => match sku.subscription_info {
            Err(_) => Ok(None),
            Ok(info) => match (
                info.billing_period,
                info.billing_period_unit,
                sku.formatted_price,
            ) {
                (Err(error), _, _) => Err(ErrorView::Windows(error)),
                (_, Err(error), _) => Err(ErrorView::Windows(error)),
                (_, _, Err(error)) => Err(ErrorView::Windows(error)),
                (Ok(count), Ok(unit), Ok(price)) => Ok(
                    Some(
                        SubscriptionOfferView {
                            offer_token: product_id,
                            base_plan_id: product_id,
                            offer_id: None,
                            pricing_phases: seq![
                                PricingPhaseView {
                                    formatted_price: price,
                                    price_currency_code: currency_code,
                                    price_amount_micros: micros,
                                    billing_period: period_text(count, unit),
                                    billing_cycle_count: 0,
                                    recurrence_mode: 1,
                                },
                            ],
                        },
                    ),
                ),
            },
        },
    }
}

/// [`offer_of`] as a function of the SKU.
pub open spec fn offer_pick(
    product_id: Seq<char>,
    currency_code: Seq<char>,
    micros: i64,
) -> spec_fn(Result<StoreSkuView, WindowsErrorView>) -> Result<
    Option<SubscriptionOfferView>,
    ErrorView,
> {
    |sku: Result<StoreSkuView, WindowsErrorView>|
        offer_of(sku, product_id, currency_code, micros)
}

/// The offers of a product: those of its SKUs for a subscription, if there are
/// any, and none for another type of product.
pub open spec fn offers_of(
    product: StoreProductView,
    product_type: Seq<char>,
    product_id: Seq<char>,
    currency_code: Seq<char>,
    micros: i64,
) -> Result<Option<Seq<SubscriptionOfferView>>, ErrorView> {
    if product_type == "subs"@ {
        match product.skus {
            Err(error) => Err(ErrorView::Windows(error)),
            Ok(skus) => match gather(skus, offer_pick(product_id, currency_code, micros)) {
                Err(error) => Err(error),
                Ok(offers) => if offers.len() == 0 {
                    Ok(None)
                } else {
                    Ok(Some(offers))
                },
            },
        }
    } else {
        Ok(None)
    }
}

/// A Store product as callers see it. The first property that cannot be read
/// gives the error.
pub open spec fn shown(product: StoreProductView, product_type: Seq<char>) -> Result<
    ProductView,
    ErrorView,
> {
    match (
        product_id_of(product),
        product.title,
        product.description,
        product.formatted_price,
        product.currency_code,
        product.base_price_micros,
    ) {
        (Err(error), _, _, _, _, _) => Err(error),
        (_, Err(error), _, _, _, _) => Err(ErrorView::Windows(error)),
        (_, _, Err(error), _, _, _) => Err(ErrorView::Windows(error)),
        (_, _, _, Err(error), _, _) => Err(ErrorView::Windows(error)),
        (_, _, _, _, Err(error), _) => Err(ErrorView::Windows(error)),
        (_, _, _, _, _, Err(error)) => Err(ErrorView::Windows(error)),
        (Ok(id), Ok(title), Ok(description), Ok(price), Ok(currency), Ok(micros)) => match offers_of(
            product,
            product_type,
            id,
            currency,
            micros,
        ) {
            Err(error) => Err(error),
            Ok(offers) => Ok(
                ProductView {
                    product_id: id,
                    title,
                    description,
                    product_type,
                    formatted_price: Some(price),
                    price_currency_code: Some(currency),
                    price_amount_micros: Some(micros),
                    subscription_offer_details: offers,
                },
            ),
        },
    }
}

/// The Store's kinds of product behind a type of product.
pub open spec fn kinds_of(product_type: Seq<char>) -> Seq<Seq<char>> {
    if product_type == "inapp"@ {
        seq!["Consumable"@, "UnmanagedConsumable"@]
    } else if product_type == "subs"@ {
        seq!["Subscription"@, "Durable"@]
    } else {
        seq!["Consumable"@, "UnmanagedConsumable"@, "Durable"@, "Subscription"@]
    }
}

/// The text that `{:?}` writes for a string.
pub uninterp spec fn debug_literal(text: Seq<char>) -> Seq<char>;

/// `format!` of std with `{:?}` on a string. The text that it writes follows from
/// the string alone; its escapes are not spelled out.
#[verifier::external_body]
pub(crate) fn debug_text(text: &str) -> (literal: String)
    ensures
        literal@ == debug_literal(text@),
{
    format!("{:?}", text)
}

/// An entry of a list of products, or the error that broke the list off.
pub open spec fn product_pick() -> spec_fn(
    Result<StoreProductView, WindowsErrorView>,
) -> Result<Option<StoreProductView>, ErrorView> {
    |entry: Result<StoreProductView, WindowsErrorView>|
        match entry {
            Ok(product) => Ok(Some(product)),
            Err(error) => Err(ErrorView::Windows(error)),
        }
}

/// The products in the Store's answer. A negative result code of the query, or a
/// list that breaks off, fails it.
pub open spec fn queried(reply: Result<StoreQueryReplyView, WindowsErrorView>) -> Result<
    Seq<StoreProductView>,
    ErrorView,
> {
    match reply {
        Err(error) => Err(ErrorView::Windows(error)),
        Ok(reply) => match (reply.extended_error, reply.products) {
            (Err(error), _) => Err(ErrorView::Windows(error)),
            (Ok(status), _) if status.code < 0 => Err(
                rejected(
                    "storeQueryFailed"@,
                    "Store query failed with error: "@ + debug_literal(status.message),
                ),
            ),
            (_, Err(error)) => Err(ErrorView::Windows(error)),
            (_, Ok(entries)) => gather(entries, product_pick()),
        },
    }
}

/// The place of the first product, from place `from` on, that has an id and has
/// the requested one. A product without an id on the way there fails the search.
pub open spec fn find_from(products: Seq<StoreProductView>, id: Seq<char>, from: int) -> Result<
    int,
    ErrorView,
>
    decreases products.len() - from,
{
    if from < 0 || from >= products.len() {
        Err(rejected("productNotFound"@, "Product not found: "@ + id))
    } else {
        match product_id_of(products[from]) {
            Err(error) => Err(error),
            Ok(found) => if found == id {
                Ok(from)
            } else {
                find_from(products, id, from + 1)
            },
        }
    }
}

/// A product that has an id, but not this one.
pub open spec fn has_other_id(product: StoreProductView, id: Seq<char>) -> bool {
    product_id_of(product) matches Ok(found) && found != id
}

/// The first product with the requested id.
pub open spec fn search(products: Seq<StoreProductView>, id: Seq<char>) -> Result<
    StoreProductView,
    ErrorView,
> {
    match find_from(products, id, 0) {
        Ok(place) => Ok(products[place]),
        Err(error) => Err(error),
    }
}

/// The first product with the requested id, by the Store's answer to a query.
pub open spec fn found(
    reply: Result<StoreQueryReplyView, WindowsErrorView>,
    id: Seq<char>,
) -> Result<StoreProductView, ErrorView> {
    match queried(reply) {
        Ok(products) => search(products, id),
        Err(error) => Err(error),
    }
}

/// The place of the first product, from place `from` on, that has the requested
/// id. Products without an id are passed over.
pub open spec fn listed_from(products: Seq<StoreProductView>, id: Seq<char>, from: int) -> Option<
    int,
>
    decreases products.len() - from,
{
    if from < 0 || from >= products.len() {
        None
    } else if product_id_of(products[from]) == Ok::<Seq<char>, ErrorView>(id) {
        Some(from)
    } else {
        listed_from(products, id, from + 1)
    }
}

/// What a caller gets for a requested id: its product, or nothing if the Store
/// does not list it.
pub open spec fn requested_pick(
    products: Seq<StoreProductView>,
    product_type: Seq<char>,
) -> spec_fn(Seq<char>) -> Result<Option<ProductView>, ErrorView> {
    |id: Seq<char>|
        match listed_from(products, id, 0) {
            None => Ok(None),
            Some(place) => match shown(products[place], product_type) {
                Ok(product) => Ok(Some(product)),
                Err(error) => Err(error),
            },
        }
}

/// The products that a caller gets for the requested ids.
pub open spec fn requested(
    reply: Result<StoreQueryReplyView, WindowsErrorView>,
    ids: Seq<Seq<char>>,
    product_type: Seq<char>,
) -> Result<Seq<ProductView>, ErrorView> {
    match queried(reply) {
        Err(error) => Err(error),
        Ok(products) => gather(ids, requested_pick(products, product_type)),
    }
}

/// The characters that are numeric by their general category in Unicode.
pub uninterp spec fn numeric(c: char) -> bool;

/// `char::is_numeric` of std: the answer follows from the character alone, by the
/// categories that Unicode gives to numbers, which are not listed here.
pub assume_specification[ char::is_numeric ](c: char) -> (is: bool)
    ensures
        is == numeric(c),
;

/// The characters of a formatted price that belong to its number.
pub open spec fn price_symbol(c: char) -> bool {
    numeric(c) || c == '.'
}

impl Iap {
    /// The Store's kinds of product behind a type of product.
    pub fn product_kinds(product_type: &str) -> (kinds: Vec<String>)
        ensures
            contents(kinds@) == kinds_of(product_type@),
    {
        let kinds = if text_eq(product_type, "inapp") {
            vec!["Consumable".to_owned(), "UnmanagedConsumable".to_owned()]
        } else if text_eq(product_type, "subs") {
            vec!["Subscription".to_owned(), "Durable".to_owned()]
        } else {
            vec![
                "Consumable".to_owned(),
                "UnmanagedConsumable".to_owned(),
                "Durable".to_owned(),
                "Subscription".to_owned(),
            ]
        };
        proof {
            assert(contents(kinds@) =~= kinds_of(product_type@));
        }
        kinds
    }

    /// The number in a formatted price, without the currency's symbols.
    pub fn price_digits(formatted_price: &str) -> (digits: String)
        ensures
            digits@ == formatted_price@.filter(|c: char| price_symbol(c)),
    {
        let mut digits = String::new();
        let ghost keep = |c: char| price_symbol(c);
        for c in it: formatted_price.chars()
            invariant
                it.seq() == formatted_price@,
                keep == (|c: char| price_symbol(c)),
                digits@ == formatted_price@.take(it.index()).filter(keep),
        {
            proof {
                let i = it.index();
                assert(formatted_price@.take(i + 1) =~= formatted_price@.take(i).push(c));
                formatted_price@.take(i).lemma_filter_push(c, keep);
            }
            if c.is_numeric() || c == '.' {
                digits.push(c);
            }
        }
        proof {
            assert(formatted_price@.take(formatted_price@.len() as int) =~= formatted_price@);
        }
        digits
    }

    /// The products in the Store's answer to a query.
    pub fn query_associated_products(reply: Read<StoreQueryReply>) -> (products: Result<
        Vec<StoreProduct>,
        Error,
    >)
        ensures
            (match products {
                Ok(list) => Ok(contents(list@)),
                Err(e) => Err(e@),
            }) == queried(reading(reply)),
            reply is Ok && reply->Ok_0.extended_error is Ok
                && reply->Ok_0.extended_error->Ok_0.code < 0 ==> {
                &&& products is Err
                &&& products->Err_0@ is Rejected
                &&& products->Err_0@->code == Some("storeQueryFailed"@)
            },
            reply is Ok && reply->Ok_0.extended_error is Ok
                && reply->Ok_0.extended_error->Ok_0.code >= 0 && reply->Ok_0.products is Ok && (
            forall|i: int|
                0 <= i < reply->Ok_0.products->Ok_0@.len() ==> (
                #[trigger] reply->Ok_0.products->Ok_0@[i]) is Ok) ==> {
                &&& products is Ok
                &&& products->Ok_0@.len() == reply->Ok_0.products->Ok_0@.len()
                &&& forall|i: int|
                    0 <= i < products->Ok_0@.len() ==> (#[trigger] products->Ok_0@[i])@
                        == reply->Ok_0.products->Ok_0@[i]->Ok_0@
            },
    {
        proof {
            if reply is Ok {
                lemma_query_read(reply->Ok_0);
            }
        }
        let reply = match reply {
            Ok(reply) => reply,
            Err(error) => return Err(Error::Windows(error)),
        };
        let status = match reply.extended_error {
            Ok(status) => status,
            Err(error) => return Err(Error::Windows(error)),
        };
        if status.code < 0 {
            let mut message = "Store query failed with error: ".to_owned();
            message.append(debug_text(status.message.as_str()).as_str());
            return Err(Self::reject("storeQueryFailed", message));
        }
        match reply.products {
            Ok(entries) => {
                let products = Self::collect_products(entries);
                proof {
                    if products is Ok {
                        let list = products->Ok_0@;
                        assert(forall|i: int|
                            0 <= i < list.len() ==> (#[trigger] list[i])@ == contents(list)[i]);
                    }
                }
                products
            },
            Err(error) => Err(Error::Windows(error)),
        }
    }

    /// The products of a list, unless it breaks off.
    pub fn collect_products(entries: Vec<Read<StoreProduct>>) -> (products: Result<
        Vec<StoreProduct>,
        Error,
    >)
        ensures
            (match products {
                Ok(list) => Ok(contents(list@)),
                Err(e) => Err(e@),
            }) == gather(readings(entries@), product_pick()),
    {
        let ghost list = entries@;
        let ghost items = readings(list);
        let mut products: Vec<StoreProduct> = Vec::new();
        proof {
            assert(contents(products@) =~= Seq::empty());
        }
        for entry in it: entries
            invariant
                list == entries@,
                it.seq() == list,
                items == readings(list),
                gather(items.take(it.index()), product_pick()) == Ok::<
                    Seq<StoreProductView>,
                    ErrorView,
                >(contents(products@)),
        {
            let ghost before = products@;
            proof {
                lemma_gather_step(items, product_pick(), it.index());
            }
            match entry {
                Ok(product) => {
                    products.push(product);
                    proof {
                        assert(contents(products@) =~= contents(before).push(product@));
                    }
                },
                Err(error) => {
                    proof {
                        lemma_gather_failed(items, product_pick(), it.index() + 1);
                    }
                    return Err(Error::Windows(error));
                },
            }
        }
        proof {
            assert(items.take(items.len() as int) =~= items);
        }
        Ok(products)
    }

    /// The developer's id of a product. The Store's own ids stay inside.
    pub fn app_product_id(store_product: &StoreProduct) -> (id: Result<String, Error>)
        ensures
            outcome(id) == product_id_of(store_product@),
    {
        let product_id = match read_text(&store_product.in_app_offer_token) {
            Ok(text) => text,
            Err(error) => return Err(error),
        };
        if is_blank(product_id.as_str()) {
            return Err(
                Self::reject(
                    "missingProductId",
                    "Windows Store product is missing InAppOfferToken".to_owned(),
                ),
            );
        }
        Ok(product_id)
    }

    /// The product with the requested id, by the Store's answer to a query.
    pub fn find_product_by_product_id(
        reply: Read<StoreQueryReply>,
        requested_product_id: &str,
    ) -> (product: Result<StoreProduct, Error>)
        ensures
            outcome(product) == found(reading(reply), requested_product_id@),
            product matches Ok(p) ==> reading(p.in_app_offer_token) == Ok::<
                Seq<char>,
                WindowsErrorView,
            >(requested_product_id@),
    {
        proof {
            law_found(reading(reply), requested_product_id@);
        }
        match Self::query_associated_products(reply) {
            Ok(store_products) => Self::search_products(store_products, requested_product_id),
            Err(error) => Err(error),
        }
    }

    /// The product with the requested id.
    pub fn search_products(store_products: Vec<StoreProduct>, requested_product_id: &str) -> (
    product: Result<StoreProduct, Error>)
        ensures
            outcome(product) == search(contents(store_products@), requested_product_id@),
    {
        let ghost products = contents(store_products@);
        for product in it: store_products
            invariant
                it.seq() == store_products@,
                products == contents(store_products@),
                find_from(products, requested_product_id@, 0) == find_from(
                    products,
                    requested_product_id@,
                    it.index(),
                ),
        {
            proof {
                assert(products[it.index()] == product@);
            }
            match Self::app_product_id(&product) {
                Ok(id) => {
                    if text_eq(id.as_str(), requested_product_id) {
                        return Ok(product);
                    }
                },
                Err(error) => return Err(error),
            }
        }
        let mut message = "Product not found: ".to_owned();
        message.append(requested_product_id);
        Err(Self::reject("productNotFound", message))
    }

    /// The place of the first product with the requested id, if one has it.
    pub fn listed_product(store_products: &Vec<StoreProduct>, requested_id: &str) -> (place: Option<
        usize,
    >)
        ensures
            (match place {
                Some(i) => Some(i as int),
                None => None,
            }) == listed_from(contents(store_products@), requested_id@, 0),
            place matches Some(i) ==> i < store_products@.len(),
    {
        let ghost products = contents(store_products@);
        for i in 0..store_products.len()
            invariant
                products == contents(store_products@),
                listed_from(products, requested_id@, 0) == listed_from(
                    products,
                    requested_id@,
                    i as int,
                ),
        {
            if let Ok(id) = Self::app_product_id(&store_products[i]) {
                if text_eq(id.as_str(), requested_id) {
                    return Some(i);
                }
            }
        }
        None
    }

    /// The products that a caller asked for, in the order of the request. Ids
    /// that the Store does not list are left out.
    pub fn get_products(
        &self,
        reply: Read<StoreQueryReply>,
        product_ids: Vec<String>,
        product_type: String,
    ) -> (response: Result<GetProductsResponse, Error>)
        ensures
            outcome(response) == requested(
                reading(reply),
                contents(product_ids@),
                product_type@,
            ),
            response matches Ok(r) ==> forall|k: int|
                0 <= k < r.products@.len() ==> (#[trigger] r.products@[k]).product_type@
                    == product_type@ && (r.products@[k].subscription_offer_details is Some
                    ==> product_type@ == "subs"@),
            response matches Ok(r) ==> {
                let listed = contents(product_ids@).filter(
                    |id: Seq<char>| is_listed(queried(reading(reply))->Ok_0, id),
                );
                &&& queried(reading(reply)) is Ok
                &&& r.products@.len() == listed.len()
                &&& forall|k: int|
                    0 <= k < listed.len() ==> (#[trigger] r.products@[k]).product_id@ == listed[k]
            },
    {
        let response = match Self::query_associated_products(reply) {
            Ok(store_products) => Self::requested_products(
                &store_products,
                &product_ids,
                product_type.as_str(),
            ),
            Err(error) => Err(error),
        };
        proof {
            if response is Ok {
                law_requested_products(reading(reply), contents(product_ids@), product_type@);
                let list = response->Ok_0.products@;
                assert(forall|k: int|
                    0 <= k < list.len() ==> (#[trigger] list[k])@ == contents(list)[k]);
            }
        }
        response
    }

    /// The products with the requested ids, in the order of the request.
    pub fn requested_products(
        store_products: &Vec<StoreProduct>,
        product_ids: &Vec<String>,
        product_type: &str,
    ) -> (response: Result<GetProductsResponse, Error>)
        ensures
            outcome(response) == gather(
                contents(product_ids@),
                requested_pick(contents(store_products@), product_type@),
            ),
            response matches Ok(r) ==> forall|k: int|
                0 <= k < r.products@.len() ==> (#[trigger] r.products@[k]).product_type@
                    == product_type@ && (r.products@[k].subscription_offer_details is Some
                    ==> product_type@ == "subs"@),
    {
        let ghost ids = contents(product_ids@);
        let ghost pick = requested_pick(contents(store_products@), product_type@);
        let mut products: Vec<Product> = Vec::new();
        proof {
            assert(contents(products@) =~= Seq::empty());
        }
        for i in 0..product_ids.len()
            invariant
                ids == contents(product_ids@),
                ids.len() == product_ids.len(),
                pick == requested_pick(contents(store_products@), product_type@),
                gather(ids.take(i as int), pick) == Ok::<Seq<ProductView>, ErrorView>(
                    contents(products@),
                ),
                forall|k: int|
                    0 <= k < products@.len() ==> (#[trigger] products@[k]).product_type@
                        == product_type@ && (products@[k].subscription_offer_details is Some
                        ==> product_type@ == "subs"@),
        {
            let ghost before = products@;
            proof {
                lemma_gather_step(ids, pick, i as int);
            }
            if let Some(place) = Self::listed_product(store_products, product_ids[i].as_str()) {
                match Self::convert_store_product_to_product(&store_products[place], product_type) {
                    Ok(product) => {
                        products.push(product);
                        proof {
                            assert(contents(products@) =~= contents(before).push(product@));
                        }
                    },
                    Err(error) => {
                        proof {
                            lemma_gather_failed(ids, pick, i as int + 1);
                        }
                        return Err(error);
                    },
                }
            }
        }
        proof {
            assert(ids.take(ids.len() as int) =~= ids);
        }
        Ok(GetProductsResponse { products })
    }

    /// A billing period, such as `P1M`.
    pub fn billing_period_text(count: u32, unit: i32) -> (text: String)
        ensures
            text@ == period_text(count, unit),
    {
        let mut text = "P".to_owned();
        push_decimal(&mut text, count as i64);
        match unit {
            0 => text.append("D"),
            1 => text.append("W"),
            3 => text.append("Y"),
            _ => text.append("M"),
        }
        text
    }

    /// The offer that a SKU of a subscription makes, if it makes one.
    pub fn subscription_offer(
        sku: &Read<StoreSku>,
        product_id: &str,
        currency_code: &str,
        price_amount_micros: i64,
    ) -> (offer: Result<Option<SubscriptionOffer>, Error>)
        ensures
            (match offer {
                Ok(Some(o)) => Ok(Some(o@)),
                Ok(None) => Ok(None),
                Err(e) => Err(e@),
            }) == offer_of(reading(*sku), product_id@, currency_code@, price_amount_micros),
    {
        let sku = match sku {
            Ok(sku) => sku,
            Err(error) => return Err(Error::Windows(error.clone())),
        };
        let info = match &sku.subscription_info {
            Ok(info) => info,
            Err(_) => return Ok(None),
        };
        let billing_period: u32 = match read_value(&info.billing_period) {
            Ok(count) => count,
            Err(error) => return Err(error),
        };
        let billing_period_unit: i32 = match read_value(&info.billing_period_unit) {
            Ok(unit) => unit,
            Err(error) => return Err(error),
        };
        let formatted_price = match read_text(&sku.formatted_price) {
            Ok(text) => text,
            Err(error) => return Err(error),
        };
        let phase = PricingPhase {
            formatted_price,
            price_currency_code: currency_code.to_owned(),
            price_amount_micros,
            billing_period: Self::billing_period_text(billing_period, billing_period_unit),
            billing_cycle_count: 0,
            recurrence_mode: 1,
        };
        let ghost phase_view = phase@;
        let pricing_phases = vec![phase];
        let offer = SubscriptionOffer {
            offer_token: product_id.to_owned(),
            base_plan_id: product_id.to_owned(),
            offer_id: None,
            pricing_phases,
        };
        proof {
            assert(contents(offer.pricing_phases@) =~= seq![phase_view]);
        }
        Ok(Some(offer))
    }

    /// The offers that the SKUs of a subscription make, in the SKUs' order.
    pub fn subscription_offers(
        skus: &Vec<Read<StoreSku>>,
        product_id: &str,
        currency_code: &str,
        price_amount_micros: i64,
    ) -> (offers: Result<Vec<SubscriptionOffer>, Error>)
        ensures
            (match offers {
                Ok(list) => Ok(contents(list@)),
                Err(e) => Err(e@),
            }) == gather(
                readings(skus@),
                offer_pick(product_id@, currency_code@, price_amount_micros),
            ),
    {
        let mut offers: Vec<SubscriptionOffer> = Vec::new();
        let ghost items = readings(skus@);
        let ghost pick = offer_pick(product_id@, currency_code@, price_amount_micros);
        proof {
            assert(contents(offers@) =~= Seq::empty());
        }
        for i in 0..skus.len()
            invariant
                items == readings(skus@),
                items.len() == skus.len(),
                pick == offer_pick(product_id@, currency_code@, price_amount_micros),
                gather(items.take(i as int), pick) == Ok::<Seq<SubscriptionOfferView>, ErrorView>(
                    contents(offers@),
                ),
        {
            proof {
                lemma_gather_step(items, pick, i as int);
            }
            let ghost before = offers@;
            match Self::subscription_offer(&skus[i], product_id, currency_code, price_amount_micros) {
                Ok(Some(offer)) => {
                    offers.push(offer);
                    proof {
                        assert(contents(offers@) =~= contents(before).push(offer@));
                    }
                },
                Ok(None) => {},
                Err(error) => {
                    proof {
                        lemma_gather_failed(items, pick, i as int + 1);
                    }
                    return Err(error);
                },
            }
        }
        proof {
            assert(items.take(items.len() as int) =~= items);
        }
        Ok(offers)
    }

    /// A Store product as callers see it.
    pub fn convert_store_product_to_product(
        store_product: &StoreProduct,
        product_type: &str,
    ) -> (product: Result<Product, Error>)
        ensures
            outcome(product) == shown(store_product@, product_type@),
            product matches Ok(p) ==> {
                &&& p.product_type@ == product_type@
                &&& Ok::<Seq<char>, WindowsErrorView>(p.product_id@) == reading(
                    store_product.in_app_offer_token,
                )
                &&& Ok::<Seq<char>, WindowsErrorView>(p.title@) == reading(store_product.title)
                &&& Ok::<Seq<char>, WindowsErrorView>(p.description@) == reading(
                    store_product.description,
                )
                &&& p.subscription_offer_details is Some ==> product_type@ == "subs"@
            },
    {
        let product_id = match Self::app_product_id(store_product) {
            Ok(id) => id,
            Err(error) => return Err(error),
        };
        let title = match read_text(&store_product.title) {
            Ok(text) => text,
            Err(error) => return Err(error),
        };
        let description = match read_text(&store_product.description) {
            Ok(text) => text,
            Err(error) => return Err(error),
        };
        let formatted_price = match read_text(&store_product.formatted_price) {
            Ok(text) => text,
            Err(error) => return Err(error),
        };
        let currency_code = match read_text(&store_product.currency_code) {
            Ok(text) => text,
            Err(error) => return Err(error),
        };
        let price_amount_micros: i64 = match read_value(&store_product.base_price_micros) {
            Ok(micros) => micros,
            Err(error) => return Err(error),
        };

        let subscription_offer_details = if text_eq(product_type, "subs") {
            let skus = match &store_product.skus {
                Ok(skus) => skus,
                Err(error) => return Err(Error::Windows(error.clone())),
            };
            let offers = match Self::subscription_offers(
                skus,
                product_id.as_str(),
                currency_code.as_str(),
                price_amount_micros,
            ) {
                Ok(offers) => offers,
                Err(error) => return Err(error),
            };
            if offers.len() == 0 {
                None
            } else {
                Some(offers)
            }
        } else {
            None
        };

        Ok(
            Product {
                product_id,
                title,
                description,
                product_type: product_type.to_owned(),
                formatted_price: Some(formatted_price),
                price_currency_code: Some(currency_code),
                price_amount_micros: Some(price_amount_micros),
                subscription_offer_details,
            },
        )
    }
}

/// Asking for products of another type asks for every kind that the two known
/// types ask for, and these two share no kind.
pub proof fn law_kinds_cover(product_type: Seq<char>, kind: Seq<char>)
    requires
        product_type != "inapp"@,
        product_type != "subs"@,
    ensures
        kinds_of(product_type).contains(kind) <==> kinds_of("inapp"@).contains(kind) || kinds_of(
            "subs"@,
        ).contains(kind),
        !(kinds_of("inapp"@).contains(kind) && kinds_of("subs"@).contains(kind)),
{
    reveal_strlit("inapp");
    reveal_strlit("subs");
    reveal_strlit("Consumable");
    reveal_strlit("UnmanagedConsumable");
    reveal_strlit("Durable");
    reveal_strlit("Subscription");
    let all = kinds_of(product_type);
    let inapp = kinds_of("inapp"@);
    let subs = kinds_of("subs"@);
    assert("inapp"@.len() != "subs"@.len());
    assert(all[0] == inapp[0] && all[1] == inapp[1] && all[2] == subs[1] && all[3] == subs[0]);
    assert(inapp[0].len() == 10 && inapp[1].len() == 19 && subs[0].len() == 12 && subs[1].len()
        == 7);
    if all.contains(kind) {
        let i = choose|i: int| 0 <= i < all.len() && all[i] == kind;
        assert(i == 0 || i == 1 || i == 2 || i == 3);
    }
    if inapp.contains(kind) {
        let i = choose|i: int| 0 <= i < inapp.len() && inapp[i] == kind;
        assert(all[i] == kind);
    }
    if subs.contains(kind) {
        let i = choose|i: int| 0 <= i < subs.len() && subs[i] == kind;
        assert(all[3 - i] == kind);
    }
}

/// A search ends at the first product that has the requested id or has no id at
/// all; where there is neither, the product is not found.
pub proof fn law_find_is_first(products: Seq<StoreProductView>, id: Seq<char>, from: int)
    requires
        0 <= from,
    ensures
        match find_from(products, id, from) {
            Ok(place) => {
                &&& from <= place < products.len()
                &&& product_id_of(products[place]) == Ok::<Seq<char>, ErrorView>(id)
                &&& forall|i: int| from <= i < place ==> has_other_id(#[trigger] products[i], id)
                &&& listed_from(products, id, from) == Some(place)
            },
            Err(error) => {
                ||| exists|place: int|
                    from <= place < products.len() && product_id_of(#[trigger] products[place])
                        == Err::<Seq<char>, ErrorView>(error) && forall|i: int|
                        from <= i < place ==> has_other_id(#[trigger] products[i], id)
                ||| error == rejected("productNotFound"@, "Product not found: "@ + id) && forall|
                    i: int,
                |
                    from <= i < products.len() ==> has_other_id(#[trigger] products[i], id)
            },
        },
    decreases products.len() - from,
{
    if from < products.len() {
        if has_other_id(products[from], id) {
            law_find_is_first(products, id, from + 1);
            if find_from(products, id, from + 1) is Err {
                let error = find_from(products, id, from + 1)->Err_0;
                if exists|place: int|
                    from + 1 <= place < products.len() && product_id_of(#[trigger] products[place])
                        == Err::<Seq<char>, ErrorView>(error) && forall|i: int|
                        from + 1 <= i < place ==> has_other_id(#[trigger] products[i], id) {
                    let place = choose|place: int|
                        from + 1 <= place < products.len() && product_id_of(
                            #[trigger] products[place],
                        ) == Err::<Seq<char>, ErrorView>(error) && forall|i: int|
                            from + 1 <= i < place ==> has_other_id(#[trigger] products[i], id);
                    assert(forall|i: int|
                        from <= i < place ==> has_other_id(#[trigger] products[i], id));
                }
            }
        } else if product_id_of(products[from]) is Err {
            assert(forall|i: int|
                from <= i < from ==> has_other_id(#[trigger] products[i], id));
        }
    }
}

/// A product is passed over in a request exactly where no product of the Store
/// has its id; else the first that has it is taken.
pub proof fn law_listed_is_first(products: Seq<StoreProductView>, id: Seq<char>, from: int)
    requires
        0 <= from,
    ensures
        match listed_from(products, id, from) {
            Some(place) => {
                &&& from <= place < products.len()
                &&& product_id_of(products[place]) == Ok::<Seq<char>, ErrorView>(id)
                &&& forall|i: int|
                    from <= i < place ==> product_id_of(#[trigger] products[i]) != Ok::<
                        Seq<char>,
                        ErrorView,
                    >(id)
            },
            None => forall|i: int|
                from <= i < products.len() ==> product_id_of(#[trigger] products[i]) != Ok::<
                    Seq<char>,
                    ErrorView,
                >(id),
        },
    decreases products.len() - from,
{
    if from < products.len() && product_id_of(products[from]) != Ok::<Seq<char>, ErrorView>(id) {
        law_listed_is_first(products, id, from + 1);
    }
}

/// Callers get the products that they asked for and that the Store lists, in the
/// order of the request, each under the id that it was asked for by.
pub proof fn law_requested_ids(
    products: Seq<StoreProductView>,
    ids: Seq<Seq<char>>,
    product_type: Seq<char>,
)
    requires
        gather(ids, requested_pick(products, product_type)) is Ok,
    ensures
        gather(ids, requested_pick(products, product_type))->Ok_0.map_values(
            |p: ProductView| p.product_id,
        ) == ids.filter(|id: Seq<char>| listed_from(products, id, 0) is Some),
    decreases ids.len(),
{
    let pick = requested_pick(products, product_type);
    let listed = |id: Seq<char>| listed_from(products, id, 0) is Some;
    let name = |p: ProductView| p.product_id;
    reveal(Seq::filter);
    if ids.len() > 0 {
        law_requested_ids(products, ids.drop_last(), product_type);
        law_listed_is_first(products, ids.last(), 0);
        let front = gather(ids.drop_last(), pick)->Ok_0;
        let all = gather(ids, pick)->Ok_0;
        if listed(ids.last()) {
            assert(all == front.push(all.last()));
            assert(all.map_values(name) =~= front.map_values(name).push(all.last().product_id));
        }
    }
    assert(gather(ids, pick)->Ok_0.map_values(name) =~= ids.filter(listed));
}

proof fn lemma_offers(
    skus: Seq<Result<StoreSkuView, WindowsErrorView>>,
    product_id: Seq<char>,
    currency_code: Seq<char>,
    micros: i64,
)
    requires
        gather(skus, offer_pick(product_id, currency_code, micros)) is Ok,
    ensures
        forall|i: int|
            0 <= i < gather(skus, offer_pick(product_id, currency_code, micros))->Ok_0.len() ==> {
                let offer = #[trigger] gather(
                    skus,
                    offer_pick(product_id, currency_code, micros),
                )->Ok_0[i];
                offer.offer_token == product_id && offer.base_plan_id == product_id
            },
    decreases skus.len(),
{
    if skus.len() > 0 {
        lemma_offers(skus.drop_last(), product_id, currency_code, micros);
    }
}

/// A product that callers see has the developer's id, which is not blank, and its
/// type is the one that was asked for. Offers are there for subscriptions only,
/// never an empty list of them, and are named by that id.
pub proof fn law_shown_product(product: StoreProductView, product_type: Seq<char>)
    requires
        shown(product, product_type) is Ok,
    ensures
        ({
            let p = shown(product, product_type)->Ok_0;
            &&& Ok::<Seq<char>, WindowsErrorView>(p.product_id) == product.in_app_offer_token
            &&& !blank(p.product_id)
            &&& p.product_type == product_type
            &&& p.subscription_offer_details matches Some(offers) ==> {
                &&& product_type == "subs"@
                &&& offers.len() > 0
                &&& forall|i: int|
                    0 <= i < offers.len() ==> (#[trigger] offers[i]).offer_token == p.product_id
                        && offers[i].base_plan_id == p.product_id
            }
        }),
{
    if product_type == "subs"@ {
        lemma_offers(
            product.skus->Ok_0,
            product.in_app_offer_token->Ok_0,
            product.currency_code->Ok_0,
            product.base_price_micros->Ok_0,
        );
    }
}

/// The Store's own id of a product leaves no trace in what callers see.
pub proof fn law_shown_hides_store_id(
    product: StoreProductView,
    other_id: Result<Seq<char>, WindowsErrorView>,
    product_type: Seq<char>,
)
    ensures
        shown(product, product_type) == shown(
            (StoreProductView { store_id: other_id, ..product }),
            product_type,
        ),
{
}

proof fn lemma_query_read(reply: StoreQueryReply)
    ensures
        reply.extended_error is Ok && reply.extended_error->Ok_0.code < 0 ==> queried(
            Ok(reply@),
        ) is Err && queried(Ok(reply@))->Err_0 is Rejected && queried(Ok(reply@))->Err_0->code
            == Some("storeQueryFailed"@),
        reply.extended_error is Ok && reply.extended_error->Ok_0.code >= 0 && reply.products is Ok
            && (forall|i: int|
            0 <= i < reply.products->Ok_0@.len() ==> (#[trigger] reply.products->Ok_0@[i]) is Ok)
            ==> {
            &&& queried(Ok(reply@)) is Ok
            &&& queried(Ok(reply@))->Ok_0.len() == reply.products->Ok_0@.len()
            &&& forall|i: int|
                0 <= i < reply.products->Ok_0@.len() ==> #[trigger] queried(Ok(reply@))->Ok_0[i]
                    == reply.products->Ok_0@[i]->Ok_0@
        },
{
    law_queried(reply@, WindowsErrorView { code: 0, message: Seq::empty() });
    if reply.extended_error is Ok && reply.extended_error->Ok_0.code >= 0 && reply.products is Ok
        && forall|i: int|
        0 <= i < reply.products->Ok_0@.len() ==> (#[trigger] reply.products->Ok_0@[i]) is Ok {
        let entries = reply@.products->Ok_0;
        assert(entries == readings(reply.products->Ok_0@));
        assert forall|i: int| 0 <= i < entries.len() implies (#[trigger] entries[i]) is Ok by {
            assert(reply.products->Ok_0@[i] is Ok);
        }
        assert forall|i: int| 0 <= i < entries.len() implies #[trigger] queried(
            Ok(reply@),
        )->Ok_0[i] == reply.products->Ok_0@[i]->Ok_0@ by {
            assert(entries[i] is Ok);
        }
    }
}

} // verus!
