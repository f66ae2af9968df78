//! What callers can rely on when they ask for products.

use crate::catalog::debug_literal;
use crate::catalog::found;
use crate::catalog::kinds_of;
use crate::catalog::law_find_is_first;
use crate::catalog::law_listed_is_first;
use crate::catalog::listed_from;
use crate::catalog::numeric;
use crate::catalog::offer_pick;
use crate::catalog::period_text;
use crate::catalog::price_symbol;
use crate::catalog::product_id_of;
use crate::catalog::product_pick;
use crate::catalog::queried;
use crate::catalog::requested;
use crate::catalog::requested_pick;
use crate::catalog::shown;
use crate::error::ErrorView;
use crate::error::WindowsErrorView;
use crate::models::ProductView;
use crate::models::SubscriptionOfferView;
use crate::store::StoreProductView;
use crate::store::StoreQueryReplyView;
use crate::store::StoreSkuView;
use crate::text::blank;
use crate::text::decimal;
use crate::text::white_space;
use crate::walk::gather;
use crate::walk::law_gather_first_error;
use vstd::prelude::*;

verus! {

/// A product's id is its offer token, and every token with a character that is
/// not white space is one. An unread token is reported as it was; a blank one is
/// a missing id.
pub proof fn law_product_id(product: StoreProductView)
    ensures
        product_id_of(product) is Ok <==> product.in_app_offer_token is Ok && exists|i: int|
            0 <= i < product.in_app_offer_token->Ok_0.len() && !white_space(
                #[trigger] product.in_app_offer_token->Ok_0[i],
            ),
        product_id_of(product) matches Ok(id) ==> product.in_app_offer_token->Ok_0 == id,
        product.in_app_offer_token matches Err(error) ==> product_id_of(product) == Err::<
            Seq<char>,
            ErrorView,
        >(ErrorView::Windows(error)),
        product.in_app_offer_token is Ok && product_id_of(product) is Err ==> product_id_of(product)
            == Err::<Seq<char>, ErrorView>(
            ErrorView::Rejected {
                code: Some("missingProductId"@),
                message: Some("Windows Store product is missing InAppOfferToken"@),
            },
        ),
{
}

/// Asking for products of any type but the two known ones asks for the kinds of
/// both, each once.
pub proof fn law_kinds_of_other_types(product_type: Seq<char>)
    requires
        product_type != "inapp"@,
        product_type != "subs"@,
    ensures
        kinds_of(product_type) == kinds_of("inapp"@) + kinds_of("subs"@).reverse(),
        kinds_of("inapp"@) == seq!["Consumable"@, "UnmanagedConsumable"@],
        kinds_of("subs"@) == seq!["Subscription"@, "Durable"@],
{
    reveal_strlit("inapp");
    reveal_strlit("subs");
    assert("inapp"@.len() != "subs"@.len());
    assert(kinds_of(product_type) =~= kinds_of("inapp"@) + kinds_of("subs"@).reverse());
}

/// Of a formatted price, exactly the numeric characters and the points are kept,
/// in their order.
pub proof fn law_price_digits(before: Seq<char>, c: char)
    ensures
        ({
            let kept = |c: char| price_symbol(c);
            &&& numeric(c) || c == '.' ==> before.push(c).filter(kept) == before.filter(kept).push(c)
            &&& !numeric(c) && c != '.' ==> before.push(c).filter(kept) == before.filter(kept)
            &&& Seq::<char>::empty().filter(kept) == Seq::<char>::empty()
        }),
{
    let kept = |c: char| price_symbol(c);
    before.lemma_filter_push(c, kept);
    reveal(Seq::filter);
}

/// A billing period is a `P`, the count in decimal notation, and one letter, which
/// tells days, weeks and years apart from all other units.
pub proof fn law_billing_period(count: u32, unit: i32)
    ensures
        ({
            let text = period_text(count, unit);
            &&& text.len() == decimal(count as int).len() + 2
            &&& text[0] == 'P'
            &&& text.subrange(1, text.len() - 1) == decimal(count as int)
            &&& text.last() == 'D' <==> unit == 0
            &&& text.last() == 'W' <==> unit == 1
            &&& text.last() == 'Y' <==> unit == 3
            &&& text.last() == 'M' <==> unit != 0 && unit != 1 && unit != 3
        }),
{
    reveal_strlit("P");
    reveal_strlit("D");
    reveal_strlit("W");
    reveal_strlit("Y");
    reveal_strlit("M");
    let text = period_text(count, unit);
    assert(text.subrange(1, text.len() - 1) =~= decimal(count as int));
}

/// A SKU makes an offer exactly where it has subscription info and all of it can
/// be read; without subscription info it makes none, and does not fail. The first
/// read that failed is reported as it was.
pub proof fn law_offer_of_sku(
    sku: Result<StoreSkuView, WindowsErrorView>,
    product_id: Seq<char>,
    currency: Seq<char>,
    micros: i64,
)
    ensures
        ({
            let offer = offer_pick(product_id, currency, micros)(sku);
            &&& sku matches Err(error) ==> offer == Err::<Option<SubscriptionOfferView>, ErrorView>(
                ErrorView::Windows(error),
            )
            &&& sku is Ok && sku->Ok_0.subscription_info is Err ==> offer == Ok::<
                Option<SubscriptionOfferView>,
                ErrorView,
            >(None)
            &&& sku is Ok && sku->Ok_0.subscription_info is Ok ==> {
                let count = sku->Ok_0.subscription_info->Ok_0.billing_period;
                let unit = sku->Ok_0.subscription_info->Ok_0.billing_period_unit;
                let price = sku->Ok_0.formatted_price;
                &&& count matches Err(error) ==> offer is Err && offer->Err_0 == ErrorView::Windows(
                    error,
                )
                &&& count is Ok && unit is Err ==> offer is Err && offer->Err_0
                    == ErrorView::Windows(unit->Err_0)
                &&& count is Ok && unit is Ok && price is Err ==> offer is Err && offer->Err_0
                    == ErrorView::Windows(price->Err_0)
                &&& count is Ok && unit is Ok && price is Ok ==> {
                    &&& offer is Ok
                    &&& offer->Ok_0 is Some
                    &&& offer->Ok_0->Some_0.offer_token == product_id
                    &&& offer->Ok_0->Some_0.base_plan_id == product_id
                    &&& offer->Ok_0->Some_0.offer_id is None
                    &&& offer->Ok_0->Some_0.pricing_phases.len() == 1
                    &&& offer->Ok_0->Some_0.pricing_phases[0].formatted_price == price->Ok_0
                    &&& offer->Ok_0->Some_0.pricing_phases[0].price_currency_code == currency
                    &&& offer->Ok_0->Some_0.pricing_phases[0].price_amount_micros == micros
                    &&& offer->Ok_0->Some_0.pricing_phases[0].billing_period == period_text(
                        count->Ok_0,
                        unit->Ok_0,
                    )
                    &&& offer->Ok_0->Some_0.pricing_phases[0].billing_cycle_count == 0
                    &&& offer->Ok_0->Some_0.pricing_phases[0].recurrence_mode == 1
                }
            }
        }),
{
}

proof fn lemma_offers_by_sku(
    skus: Seq<Result<StoreSkuView, WindowsErrorView>>,
    product_id: Seq<char>,
    currency: Seq<char>,
    micros: i64,
)
    requires
        gather(skus, offer_pick(product_id, currency, micros)) is Ok,
    ensures
        ({
            let offers = gather(skus, offer_pick(product_id, currency, micros))->Ok_0;
            let kept = skus.filter(
                |s: Result<StoreSkuView, WindowsErrorView>|
                    s is Ok && s->Ok_0.subscription_info is Ok,
            );
            &&& offers.len() == kept.len()
            &&& forall|k: int|
                0 <= k < offers.len() ==> offer_pick(product_id, currency, micros)(
                    #[trigger] kept[k],
                ) == Ok::<Option<SubscriptionOfferView>, ErrorView>(Some(offers[k]))
        }),
    decreases skus.len(),
{
    let pick = offer_pick(product_id, currency, micros);
    let has_info = |s: Result<StoreSkuView, WindowsErrorView>|
        s is Ok && s->Ok_0.subscription_info is Ok;
    reveal(Seq::filter);
    if skus.len() > 0 {
        lemma_offers_by_sku(skus.drop_last(), product_id, currency, micros);
        law_offer_of_sku(skus.last(), product_id, currency, micros);
        let before = gather(skus.drop_last(), pick)->Ok_0;
        let kept_before = skus.drop_last().filter(has_info);
        let offers = gather(skus, pick)->Ok_0;
        let kept = skus.filter(has_info);
        if has_info(skus.last()) {
            assert(kept == kept_before.push(skus.last()));
            assert(offers == before.push(offers.last()));
            assert forall|k: int| 0 <= k < offers.len() implies pick(#[trigger] kept[k]) == Ok::<
                Option<SubscriptionOfferView>,
                ErrorView,
            >(Some(offers[k])) by {
                if k < before.len() {
                    assert(kept[k] == kept_before[k]);
                    assert(offers[k] == before[k]);
                }
            }
        } else {
            assert(kept == kept_before);
            assert(offers == before);
        }
    }
}

/// What a caller sees of a product is what the Store says of it, property by
/// property, under the requested type. A subscription has one offer for each SKU
/// with subscription info, in the SKUs' order; no other type has offers.
pub proof fn law_shown_properties(product: StoreProductView, product_type: Seq<char>)
    requires
        shown(product, product_type) is Ok,
    ensures
        ({
            let p = shown(product, product_type)->Ok_0;
            &&& product.in_app_offer_token is Ok && p.product_id == product.in_app_offer_token->Ok_0
            &&& product.title is Ok && p.title == product.title->Ok_0
            &&& product.description is Ok && p.description == product.description->Ok_0
            &&& p.product_type == product_type
            &&& product.formatted_price is Ok && p.formatted_price == Some(
                product.formatted_price->Ok_0,
            )
            &&& product.currency_code is Ok && p.price_currency_code == Some(
                product.currency_code->Ok_0,
            )
            &&& product.base_price_micros is Ok && p.price_amount_micros == Some(
                product.base_price_micros->Ok_0,
            )
            &&& product_type != "subs"@ ==> p.subscription_offer_details is None
            &&& product_type == "subs"@ ==> {
                let kept = product.skus->Ok_0.filter(
                    |s: Result<StoreSkuView, WindowsErrorView>|
                        s is Ok && s->Ok_0.subscription_info is Ok,
                );
                &&& product.skus is Ok
                &&& p.subscription_offer_details is Some <==> kept.len() > 0
                &&& p.subscription_offer_details matches Some(offers) ==> {
                    &&& offers.len() == kept.len()
                    &&& forall|k: int|
                        #![trigger offers[k]]
                        #![trigger kept[k]]
                        0 <= k < offers.len() ==> {
                            let info = kept[k]->Ok_0.subscription_info->Ok_0;
                            &&& info.billing_period is Ok && info.billing_period_unit is Ok
                            &&& kept[k]->Ok_0.formatted_price is Ok
                            &&& offers[k].offer_token == p.product_id
                            &&& offers[k].base_plan_id == p.product_id
                            &&& offers[k].offer_id is None
                            &&& offers[k].pricing_phases.len() == 1
                            &&& offers[k].pricing_phases[0].formatted_price
                                == kept[k]->Ok_0.formatted_price->Ok_0
                            &&& p.price_currency_code == Some(
                                offers[k].pricing_phases[0].price_currency_code,
                            )
                            &&& p.price_amount_micros == Some(
                                offers[k].pricing_phases[0].price_amount_micros,
                            )
                            &&& offers[k].pricing_phases[0].billing_period == period_text(
                                info.billing_period->Ok_0,
                                info.billing_period_unit->Ok_0,
                            )
                            &&& offers[k].pricing_phases[0].billing_cycle_count == 0
                            &&& offers[k].pricing_phases[0].recurrence_mode == 1
                        }
                }
            }
        }),
{
    if product_type == "subs"@ {
        let p = shown(product, product_type)->Ok_0;
        let id = product.in_app_offer_token->Ok_0;
        let currency = product.currency_code->Ok_0;
        let micros = product.base_price_micros->Ok_0;
        let skus = product.skus->Ok_0;
        let has_info = |s: Result<StoreSkuView, WindowsErrorView>|
            s is Ok && s->Ok_0.subscription_info is Ok;
        lemma_offers_by_sku(skus, id, currency, micros);
        let kept = skus.filter(has_info);
        if p.subscription_offer_details is Some {
            let offers = p.subscription_offer_details->Some_0;
            assert(offers == gather(skus, offer_pick(id, currency, micros))->Ok_0);
            assert forall|k: int| 0 <= k < offers.len() implies has_info(#[trigger] kept[k]) by {
                skus.lemma_filter_pred(has_info, k);
            }
            assert forall|k: int|
                #![trigger offers[k]]
                #![trigger kept[k]]
                0 <= k < offers.len() implies {
                let info = kept[k]->Ok_0.subscription_info->Ok_0;
                &&& info.billing_period is Ok && info.billing_period_unit is Ok
                &&& kept[k]->Ok_0.formatted_price is Ok
                &&& offers[k].offer_token == p.product_id
                &&& offers[k].base_plan_id == p.product_id
                &&& offers[k].offer_id is None
                &&& offers[k].pricing_phases.len() == 1
                &&& offers[k].pricing_phases[0].formatted_price
                    == kept[k]->Ok_0.formatted_price->Ok_0
                &&& p.price_currency_code == Some(offers[k].pricing_phases[0].price_currency_code)
                &&& p.price_amount_micros == Some(offers[k].pricing_phases[0].price_amount_micros)
                &&& offers[k].pricing_phases[0].billing_period == period_text(
                    info.billing_period->Ok_0,
                    info.billing_period_unit->Ok_0,
                )
                &&& offers[k].pricing_phases[0].billing_cycle_count == 0
                &&& offers[k].pricing_phases[0].recurrence_mode == 1
            } by {
                assert(has_info(kept[k]));
                law_offer_of_sku(kept[k], id, currency, micros);
            }
        }
    }
}

/// A product fails to be shown only for a property that is needed and cannot be
/// read, and the first of these, in a fixed order, is reported. The Store's own
/// id is never needed, and the SKUs only for a subscription.
pub proof fn law_shown_errors(product: StoreProductView, product_type: Seq<char>)
    ensures
        ({
            let s = shown(product, product_type);
            let id = product_id_of(product);
            let readable = id is Ok && product.title is Ok && product.description is Ok
                && product.formatted_price is Ok && product.currency_code is Ok
                && product.base_price_micros is Ok;
            &&& id is Err ==> s is Err && s->Err_0 == id->Err_0
            &&& id is Ok && product.title is Err ==> s is Err && s->Err_0 == ErrorView::Windows(
                product.title->Err_0,
            )
            &&& id is Ok && product.title is Ok && product.description is Err ==> s is Err
                && s->Err_0 == ErrorView::Windows(product.description->Err_0)
            &&& id is Ok && product.title is Ok && product.description is Ok
                && product.formatted_price is Err ==> s is Err && s->Err_0 == ErrorView::Windows(
                product.formatted_price->Err_0,
            )
            &&& id is Ok && product.title is Ok && product.description is Ok
                && product.formatted_price is Ok && product.currency_code is Err ==> s is Err
                && s->Err_0 == ErrorView::Windows(product.currency_code->Err_0)
            &&& id is Ok && product.title is Ok && product.description is Ok
                && product.formatted_price is Ok && product.currency_code is Ok
                && product.base_price_micros is Err ==> s is Err && s->Err_0 == ErrorView::Windows(
                product.base_price_micros->Err_0,
            )
            &&& readable && product_type != "subs"@ ==> s is Ok
            &&& readable && product_type == "subs"@ && product.skus is Err ==> s is Err && s->Err_0
                == ErrorView::Windows(product.skus->Err_0)
            &&& readable && product_type == "subs"@ && product.skus is Ok ==> {
                let pick = offer_pick(
                    id->Ok_0,
                    product.currency_code->Ok_0,
                    product.base_price_micros->Ok_0,
                );
                &&& s is Ok <==> forall|i: int|
                    0 <= i < product.skus->Ok_0.len() ==> pick(
                        #[trigger] product.skus->Ok_0[i],
                    ) is Ok
                &&& s is Err ==> exists|i: int|
                    0 <= i < product.skus->Ok_0.len() && pick(#[trigger] product.skus->Ok_0[i])
                        == Err::<Option<SubscriptionOfferView>, ErrorView>(s->Err_0) && forall|
                        j: int,
                    |
                        0 <= j < i ==> pick(#[trigger] product.skus->Ok_0[j]) is Ok
            }
        }),
{
    if product_id_of(product) is Ok && product.skus is Ok {
        law_gather_first_error(
            product.skus->Ok_0,
            offer_pick(
                product_id_of(product)->Ok_0,
                product.currency_code->Ok_0,
                product.base_price_micros->Ok_0,
            ),
        );
    }
}

proof fn lemma_collected(entries: Seq<Result<StoreProductView, WindowsErrorView>>)
    requires
        gather(entries, product_pick()) is Ok,
    ensures
        gather(entries, product_pick())->Ok_0.len() == entries.len(),
        forall|i: int|
            0 <= i < entries.len() ==> (#[trigger] entries[i]) is Ok && entries[i]->Ok_0 == gather(
                entries,
                product_pick(),
            )->Ok_0[i],
    decreases entries.len(),
{
    if entries.len() > 0 {
        lemma_collected(entries.drop_last());
        let before = gather(entries.drop_last(), product_pick())->Ok_0;
        assert forall|i: int| 0 <= i < entries.len() implies (#[trigger] entries[i]) is Ok
            && entries[i]->Ok_0 == gather(entries, product_pick())->Ok_0[i] by {
            if i < before.len() {
                assert(entries.drop_last()[i] == entries[i]);
            }
        }
    }
}

/// A query with a result code below zero is refused, whatever products came with
/// it; a code of zero or more never matters. Then the products are those of the
/// list, one for one and in order, unless an entry could not be read: the first
/// such is reported as it was.
pub proof fn law_queried(reply: StoreQueryReplyView, error: WindowsErrorView)
    ensures
        queried(Err(error)) is Err && queried(Err(error))->Err_0 == ErrorView::Windows(error),
        reply.extended_error is Err ==> queried(Ok(reply)) is Err && queried(Ok(reply))->Err_0
            == ErrorView::Windows(reply.extended_error->Err_0),
        reply.extended_error is Ok && reply.extended_error->Ok_0.code < 0 ==> queried(
            Ok(reply),
        ) is Err && queried(Ok(reply))->Err_0 == (ErrorView::Rejected {
            code: Some("storeQueryFailed"@),
            message: Some(
                "Store query failed with error: "@ + debug_literal(
                    reply.extended_error->Ok_0.message,
                ),
            ),
        }),
        reply.extended_error is Ok && reply.extended_error->Ok_0.code >= 0 ==> {
            &&& reply.products is Err ==> queried(Ok(reply)) is Err && queried(Ok(reply))->Err_0
                == ErrorView::Windows(reply.products->Err_0)
            &&& reply.products is Ok ==> {
                let entries = reply.products->Ok_0;
                &&& queried(Ok(reply)) is Ok <==> forall|i: int|
                    0 <= i < entries.len() ==> (#[trigger] entries[i]) is Ok
                &&& queried(Ok(reply)) is Ok ==> queried(Ok(reply))->Ok_0.len() == entries.len()
                    && forall|i: int|
                    0 <= i < entries.len() ==> (#[trigger] entries[i])->Ok_0 == queried(
                        Ok(reply),
                    )->Ok_0[i]
                &&& queried(Ok(reply)) is Err ==> exists|i: int|
                    0 <= i < entries.len() && (#[trigger] entries[i]) is Err && queried(
                        Ok(reply),
                    )->Err_0 == ErrorView::Windows(entries[i]->Err_0) && forall|j: int|
                        0 <= j < i ==> (#[trigger] entries[j]) is Ok
            }
        },
{
    if reply.products is Ok {
        let entries = reply.products->Ok_0;
        let pick = product_pick();
        law_gather_first_error(entries, pick);
        if gather(entries, pick) is Ok {
            lemma_collected(entries);
        } else {
            let i = choose|i: int|
                0 <= i < entries.len() && pick(#[trigger] entries[i]) == Err::<
                    Option<StoreProductView>,
                    ErrorView,
                >(gather(entries, pick)->Err_0) && forall|j: int|
                    0 <= j < i ==> pick(#[trigger] entries[j]) is Ok;
            assert(entries[i] is Err);
            assert forall|j: int| 0 <= j < i implies (#[trigger] entries[j]) is Ok by {
                assert(pick(entries[j]) is Ok);
            }
        }
    }
}

/// Searching gives the first listed product with the requested offer token, past
/// products that all have other ids; it fails at the first product without an id
/// before that, and else where no product has the token.
pub proof fn law_found(reply: Result<StoreQueryReplyView, WindowsErrorView>, id: Seq<char>)
    ensures
        queried(reply) is Err ==> found(reply, id) is Err && found(reply, id)->Err_0 == queried(
            reply,
        )->Err_0,
        queried(reply) is Ok ==> {
            let products = queried(reply)->Ok_0;
            match found(reply, id) {
                Ok(product) => exists|i: int| {
                    &&& 0 <= i < products.len()
                    &&& #[trigger] products[i] == product
                    &&& product.in_app_offer_token is Ok && product.in_app_offer_token->Ok_0 == id
                    &&& !blank(id)
                    &&& forall|j: int|
                        0 <= j < i ==> (#[trigger] products[j]).in_app_offer_token is Ok && !blank(
                            products[j].in_app_offer_token->Ok_0,
                        ) && products[j].in_app_offer_token->Ok_0 != id
                },
                Err(error) => {
                    ||| exists|i: int| {
                        &&& 0 <= i < products.len()
                        &&& product_id_of(#[trigger] products[i]) == Err::<Seq<char>, ErrorView>(
                            error,
                        )
                        &&& forall|j: int|
                            0 <= j < i ==> (#[trigger] products[j]).in_app_offer_token is Ok
                                && !blank(products[j].in_app_offer_token->Ok_0)
                                && products[j].in_app_offer_token->Ok_0 != id
                    }
                    ||| {
                        &&& error == (ErrorView::Rejected {
                            code: Some("productNotFound"@),
                            message: Some("Product not found: "@ + id),
                        })
                        &&& forall|j: int|
                            0 <= j < products.len() ==> (
                            #[trigger] products[j]).in_app_offer_token is Ok && !blank(
                                products[j].in_app_offer_token->Ok_0,
                            ) && products[j].in_app_offer_token->Ok_0 != id
                    }
                },
            }
        },
{
    if queried(reply) is Ok {
        law_find_is_first(queried(reply)->Ok_0, id, 0);
    }
}

/// Whether the Store lists a product with a requested id.
pub open spec fn is_listed(products: Seq<StoreProductView>, id: Seq<char>) -> bool {
    !blank(id) && exists|i: int|
        0 <= i < products.len() && (#[trigger] products[i]).in_app_offer_token == Ok::<
            Seq<char>,
            WindowsErrorView,
        >(id)
}

proof fn lemma_listed(products: Seq<StoreProductView>, id: Seq<char>)
    ensures
        is_listed(products, id) <==> listed_from(products, id, 0) is Some,
{
    law_listed_is_first(products, id, 0);
    match listed_from(products, id, 0) {
        Some(place) => {
            assert(products[place].in_app_offer_token->Ok_0 == id);
        },
        None => {
            if is_listed(products, id) {
                let i = choose|i: int|
                    0 <= i < products.len() && (#[trigger] products[i]).in_app_offer_token == Ok::<
                        Seq<char>,
                        WindowsErrorView,
                    >(id);
                assert(product_id_of(products[i]) == Ok::<Seq<char>, ErrorView>(id));
            }
        },
    }
}

proof fn lemma_requested(
    products: Seq<StoreProductView>,
    ids: Seq<Seq<char>>,
    product_type: Seq<char>,
)
    requires
        gather(ids, requested_pick(products, product_type)) is Ok,
    ensures
        ({
            let response = gather(ids, requested_pick(products, product_type))->Ok_0;
            let listed = ids.filter(|id: Seq<char>| is_listed(products, id));
            &&& response.len() == listed.len()
            &&& forall|k: int|
                0 <= k < response.len() ==> requested_pick(products, product_type)(
                    #[trigger] listed[k],
                ) == Ok::<Option<ProductView>, ErrorView>(Some(response[k]))
        }),
    decreases ids.len(),
{
    let pick = requested_pick(products, product_type);
    let is = |id: Seq<char>| is_listed(products, id);
    reveal(Seq::filter);
    if ids.len() > 0 {
        lemma_requested(products, ids.drop_last(), product_type);
        lemma_listed(products, ids.last());
        let before = gather(ids.drop_last(), pick)->Ok_0;
        let listed_before = ids.drop_last().filter(is);
        let response = gather(ids, pick)->Ok_0;
        let listed = ids.filter(is);
        if is(ids.last()) {
            assert(listed == listed_before.push(ids.last()));
            assert(response == before.push(response.last()));
            assert forall|k: int| 0 <= k < response.len() implies pick(#[trigger] listed[k])
                == Ok::<Option<ProductView>, ErrorView>(Some(response[k])) by {
                if k < before.len() {
                    assert(listed[k] == listed_before[k]);
                    assert(response[k] == before[k]);
                }
            }
        } else {
            assert(listed == listed_before);
            assert(response == before);
        }
    }
}

/// A request is answered with one product for each requested id that the Store
/// lists, in the order of the request. Each has the requested type and the
/// properties of the first Store product with its id; a subscription has one
/// offer for each of that product's SKUs with subscription info, in order, and no
/// other type has offers.
pub proof fn law_requested_products(
    reply: Result<StoreQueryReplyView, WindowsErrorView>,
    ids: Seq<Seq<char>>,
    product_type: Seq<char>,
)
    requires
        requested(reply, ids, product_type) is Ok,
    ensures
        queried(reply) is Ok,
        ({
            let products = queried(reply)->Ok_0;
            let response = requested(reply, ids, product_type)->Ok_0;
            let listed = ids.filter(|id: Seq<char>| is_listed(products, id));
            &&& response.len() == listed.len()
            &&& forall|k: int|
                #![trigger response[k]]
                0 <= k < response.len() ==> {
                    &&& response[k].product_id == listed[k]
                    &&& response[k].product_type == product_type
                    &&& exists|i: int|
                        #![trigger products[i]]
                        {
                            let source = products[i];
                            &&& 0 <= i < products.len()
                            &&& source.in_app_offer_token == Ok::<Seq<char>, WindowsErrorView>(
                                listed[k],
                            )
                            &&& forall|j: int|
                                0 <= j < i ==> (#[trigger] products[j]).in_app_offer_token != Ok::<
                                    Seq<char>,
                                    WindowsErrorView,
                                >(listed[k])
                            &&& shown(source, product_type) == Ok::<ProductView, ErrorView>(
                                response[k],
                            )
                            &&& source.title is Ok && response[k].title == source.title->Ok_0
                            &&& source.description is Ok && response[k].description
                                == source.description->Ok_0
                            &&& source.formatted_price is Ok && response[k].formatted_price == Some(
                                source.formatted_price->Ok_0,
                            )
                            &&& source.currency_code is Ok && response[k].price_currency_code
                                == Some(source.currency_code->Ok_0)
                            &&& source.base_price_micros is Ok && response[k].price_amount_micros
                                == Some(source.base_price_micros->Ok_0)
                            &&& product_type != "subs"@
                                ==> response[k].subscription_offer_details is None
                            &&& product_type == "subs"@ ==> {
                                let kept = source.skus->Ok_0.filter(
                                    |s: Result<StoreSkuView, WindowsErrorView>|
                                        s is Ok && s->Ok_0.subscription_info is Ok,
                                );
                                let offers = response[k].subscription_offer_details;
                                &&& source.skus is Ok
                                &&& offers is Some <==> kept.len() > 0
                                &&& offers is Some ==> offers->Some_0.len() == kept.len()
                                &&& offers is Some ==> forall|n: int|
                                    0 <= n < kept.len() ==> {
                                        let offer = #[trigger] offers->Some_0[n];
                                        let info = kept[n]->Ok_0.subscription_info->Ok_0;
                                        &&& offer.offer_token == listed[k]
                                        &&& offer.base_plan_id == listed[k]
                                        &&& offer.pricing_phases.len() == 1
                                        &&& offer.pricing_phases[0].formatted_price
                                            == kept[n]->Ok_0.formatted_price->Ok_0
                                        &&& offer.pricing_phases[0].billing_period == period_text(
                                            info.billing_period->Ok_0,
                                            info.billing_period_unit->Ok_0,
                                        )
                                    }
                            }
                        }
                }
        }),
{
    let products = queried(reply)->Ok_0;
    let response = requested(reply, ids, product_type)->Ok_0;
    let listed = ids.filter(|id: Seq<char>| is_listed(products, id));
    let pick = requested_pick(products, product_type);
    lemma_requested(products, ids, product_type);
    assert forall|k: int| 0 <= k < response.len() implies ({
        let id = #[trigger] listed[k];
        let place = listed_from(products, id, 0);
        &&& place is Some
        &&& shown(products[place->Some_0], product_type) == Ok::<ProductView, ErrorView>(
            response[k],
        )
    }) by {
        assert(pick(listed[k]) == Ok::<Option<ProductView>, ErrorView>(Some(response[k])));
    }
    assert forall|k: int|
        #![trigger response[k]]
        0 <= k < response.len() implies {
        &&& response[k].product_id == listed[k]
        &&& response[k].product_type == product_type
    } by {
        let id = listed[k];
        law_listed_is_first(products, id, 0);
        let place = listed_from(products, id, 0)->Some_0;
        law_shown_properties(products[place], product_type);
    }
    assert forall|k: int|
        #![trigger response[k]]
        0 <= k < response.len() implies exists|i: int|
        #![trigger products[i]]
        {
            let source = products[i];
            &&& 0 <= i < products.len()
            &&& source.in_app_offer_token == Ok::<Seq<char>, WindowsErrorView>(listed[k])
            &&& forall|j: int|
                0 <= j < i ==> (#[trigger] products[j]).in_app_offer_token != Ok::<
                    Seq<char>,
                    WindowsErrorView,
                >(listed[k])
            &&& shown(source, product_type) == Ok::<ProductView, ErrorView>(response[k])
            &&& source.title is Ok && response[k].title == source.title->Ok_0
            &&& source.description is Ok && response[k].description == source.description->Ok_0
            &&& source.formatted_price is Ok && response[k].formatted_price == Some(
                source.formatted_price->Ok_0,
            )
            &&& source.currency_code is Ok && response[k].price_currency_code == Some(
                source.currency_code->Ok_0,
            )
            &&& source.base_price_micros is Ok && response[k].price_amount_micros == Some(
                source.base_price_micros->Ok_0,
            )
            &&& product_type != "subs"@ ==> response[k].subscription_offer_details is None
            &&& product_type == "subs"@ ==> {
                let kept = source.skus->Ok_0.filter(
                    |s: Result<StoreSkuView, WindowsErrorView>|
                        s is Ok && s->Ok_0.subscription_info is Ok,
                );
                let offers = response[k].subscription_offer_details;
                &&& source.skus is Ok
                &&& offers is Some <==> kept.len() > 0
                &&& offers is Some ==> offers->Some_0.len() == kept.len()
                &&& offers is Some ==> forall|n: int|
                    0 <= n < kept.len() ==> {
                        let offer = #[trigger] offers->Some_0[n];
                        let info = kept[n]->Ok_0.subscription_info->Ok_0;
                        &&& offer.offer_token == listed[k]
                        &&& offer.base_plan_id == listed[k]
                        &&& offer.pricing_phases.len() == 1
                        &&& offer.pricing_phases[0].formatted_price
                            == kept[n]->Ok_0.formatted_price->Ok_0
                        &&& offer.pricing_phases[0].billing_period == period_text(
                            info.billing_period->Ok_0,
                            info.billing_period_unit->Ok_0,
                        )
                    }
            }
        } by {
        let id = listed[k];
        law_listed_is_first(products, id, 0);
        let place = listed_from(products, id, 0)->Some_0;
        let source = products[place];
        law_shown_properties(source, product_type);
        assert forall|j: int| 0 <= j < place implies (#[trigger] products[j]).in_app_offer_token
            != Ok::<Seq<char>, WindowsErrorView>(id) by {
            assert(product_id_of(products[j]) != Ok::<Seq<char>, ErrorView>(id));
            assert(!blank(id));
        }
        assert(source.in_app_offer_token == Ok::<Seq<char>, WindowsErrorView>(id));
    }
}

/// A request fails only where the query does, with its error, or where a requested
/// product that the Store lists cannot be shown, with the error of the first such.
/// Products that nobody asked for never fail it.
pub proof fn law_requested_errors(
    reply: Result<StoreQueryReplyView, WindowsErrorView>,
    ids: Seq<Seq<char>>,
    product_type: Seq<char>,
)
    requires
        requested(reply, ids, product_type) is Err,
    ensures
        queried(reply) is Err ==> requested(reply, ids, product_type)->Err_0 == queried(
            reply,
        )->Err_0,
        queried(reply) is Ok ==> {
            let products = queried(reply)->Ok_0;
            exists|k: int, i: int| {
                &&& 0 <= k < ids.len()
                &&& 0 <= i < products.len()
                &&& (#[trigger] products[i]).in_app_offer_token == Ok::<
                    Seq<char>,
                    WindowsErrorView,
                >(#[trigger] ids[k])
                &&& forall|j: int|
                    0 <= j < i ==> (#[trigger] products[j]).in_app_offer_token != Ok::<
                        Seq<char>,
                        WindowsErrorView,
                    >(ids[k])
                &&& shown(products[i], product_type) == Err::<ProductView, ErrorView>(
                    requested(reply, ids, product_type)->Err_0,
                )
                &&& requested(reply, ids.take(k), product_type) is Ok
            }
        },
{
    if queried(reply) is Ok {
        let products = queried(reply)->Ok_0;
        let pick = requested_pick(products, product_type);
        law_gather_first_error(ids, pick);
        let error = requested(reply, ids, product_type)->Err_0;
        let k = choose|k: int|
            0 <= k < ids.len() && pick(#[trigger] ids[k]) == Err::<Option<ProductView>, ErrorView>(
                error,
            ) && forall|j: int| 0 <= j < k ==> pick(#[trigger] ids[j]) is Ok;
        law_listed_is_first(products, ids[k], 0);
        let i = listed_from(products, ids[k], 0)->Some_0;
        assert(products[i].in_app_offer_token == Ok::<Seq<char>, WindowsErrorView>(ids[k]));
        assert forall|j: int| 0 <= j < i implies (#[trigger] products[j]).in_app_offer_token != Ok::<
            Seq<char>,
            WindowsErrorView,
        >(ids[k]) by {
            assert(product_id_of(products[j]) != Ok::<Seq<char>, ErrorView>(ids[k]));
        }
        let earlier = ids.take(k);
        law_gather_first_error(earlier, pick);
        assert(forall|j: int| 0 <= j < k ==> earlier[j] == ids[j]);
        assert(gather(earlier, pick) is Ok);
    }
}

} // verus!
