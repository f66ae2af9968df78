//! What the plugin takes from its callers and hands back to them.

use crate::error::contents;
use crate::error::optional_text;
use vstd::prelude::*;

verus! {

/// A request to purchase a product.
#[derive(Debug)]
pub struct PurchaseRequest {
    pub product_id: String,
    pub product_type: String,
}

/// The price of one phase of a subscription offer.
#[derive(Debug, PartialEq, Eq)]
pub struct PricingPhase {
    pub formatted_price: String,
    pub price_currency_code: String,
    pub price_amount_micros: i64,
    pub billing_period: String,
    pub billing_cycle_count: i32,
    pub recurrence_mode: i32,
}

/// A way to subscribe.
#[derive(Debug, PartialEq, Eq)]
pub struct SubscriptionOffer {
    pub offer_token: String,
    pub base_plan_id: String,
    pub offer_id: Option<String>,
    pub pricing_phases: Vec<PricingPhase>,
}

/// A product that can be bought.
#[derive(Debug, PartialEq, Eq)]
pub struct Product {
    pub product_id: String,
    pub title: String,
    pub description: String,
    pub product_type: String,
    pub formatted_price: Option<String>,
    pub price_currency_code: Option<String>,
    pub price_amount_micros: Option<i64>,
    pub subscription_offer_details: Option<Vec<SubscriptionOffer>>,
}

/// The products that were asked for.
#[derive(Debug, PartialEq, Eq)]
pub struct GetProductsResponse {
    pub products: Vec<Product>,
}

/// Whether a purchase holds.
#[derive(Debug, Clone, Copy, PartialEq, Eq, Structural)]
pub enum PurchaseStateValue {
    Purchased,
    Canceled,
}

/// A purchase.
#[derive(Debug, PartialEq, Eq)]
pub struct Purchase {
    pub order_id: Option<String>,
    pub package_name: String,
    pub product_id: String,
    pub purchase_time: i64,
    pub purchase_token: String,
    pub purchase_state: PurchaseStateValue,
    pub is_auto_renewing: bool,
    pub is_acknowledged: bool,
    pub original_json: String,
    pub signature: String,
    pub original_id: Option<String>,
    pub jws_representation: Option<String>,
}

/// The purchases that hold.
#[derive(Debug, PartialEq, Eq)]
pub struct RestorePurchasesResponse {
    pub purchases: Vec<Purchase>,
}

/// Whether a product is owned, and since when.
#[derive(Debug, PartialEq, Eq)]
pub struct ProductStatus {
    pub product_id: String,
    pub is_owned: bool,
    pub purchase_state: Option<PurchaseStateValue>,
    pub purchase_time: Option<i64>,
    pub expiration_time: Option<i64>,
    pub is_auto_renewing: Option<bool>,
    pub is_acknowledged: Option<bool>,
    pub purchase_token: Option<String>,
}

/// An event for the frontend.
#[derive(Debug, PartialEq, Eq)]
pub struct PluginEvent {
    pub name: String,
    pub payload: Purchase,
}

/// The contents of a [`PricingPhase`].
pub struct PricingPhaseView {
    pub formatted_price: Seq<char>,
    pub price_currency_code: Seq<char>,
    pub price_amount_micros: i64,
    pub billing_period: Seq<char>,
    pub billing_cycle_count: i32,
    pub recurrence_mode: i32,
}

/// The contents of a [`SubscriptionOffer`].
pub struct SubscriptionOfferView {
    pub offer_token: Seq<char>,
    pub base_plan_id: Seq<char>,
    pub offer_id: Option<Seq<char>>,
    pub pricing_phases: Seq<PricingPhaseView>,
}

/// The contents of a [`Product`].
pub struct ProductView {
    pub product_id: Seq<char>,
    pub title: Seq<char>,
    pub description: Seq<char>,
    pub product_type: Seq<char>,
    pub formatted_price: Option<Seq<char>>,
    pub price_currency_code: Option<Seq<char>>,
    pub price_amount_micros: Option<i64>,
    pub subscription_offer_details: Option<Seq<SubscriptionOfferView>>,
}

/// The contents of a [`Purchase`].
pub struct PurchaseView {
    pub order_id: Option<Seq<char>>,
    pub package_name: Seq<char>,
    pub product_id: Seq<char>,
    pub purchase_time: i64,
    pub purchase_token: Seq<char>,
    pub purchase_state: PurchaseStateValue,
    pub is_auto_renewing: bool,
    pub is_acknowledged: bool,
    pub original_json: Seq<char>,
    pub signature: Seq<char>,
    pub original_id: Option<Seq<char>>,
    pub jws_representation: Option<Seq<char>>,
}

/// The contents of a [`ProductStatus`].
pub struct ProductStatusView {
    pub product_id: Seq<char>,
    pub is_owned: bool,
    pub purchase_state: Option<PurchaseStateValue>,
    pub purchase_time: Option<i64>,
    pub expiration_time: Option<i64>,
    pub is_auto_renewing: Option<bool>,
    pub is_acknowledged: Option<bool>,
    pub purchase_token: Option<Seq<char>>,
}

/// The contents of a [`PluginEvent`].
pub struct PluginEventView {
    pub name: Seq<char>,
    pub payload: PurchaseView,
}

impl View for PricingPhase {
    type V = PricingPhaseView;

    open spec fn view(&self) -> PricingPhaseView {
        PricingPhaseView {
            formatted_price: self.formatted_price@,
            price_currency_code: self.price_currency_code@,
            price_amount_micros: self.price_amount_micros,
            billing_period: self.billing_period@,
            billing_cycle_count: self.billing_cycle_count,
            recurrence_mode: self.recurrence_mode,
        }
    }
}

impl View for SubscriptionOffer {
    type V = SubscriptionOfferView;

    open spec fn view(&self) -> SubscriptionOfferView {
        SubscriptionOfferView {
            offer_token: self.offer_token@,
            base_plan_id: self.base_plan_id@,
            offer_id: optional_text(self.offer_id),
            pricing_phases: contents(self.pricing_phases@),
        }
    }
}

impl View for Product {
    type V = ProductView;

    open spec fn view(&self) -> ProductView {
        ProductView {
            product_id: self.product_id@,
            title: self.title@,
            description: self.description@,
            product_type: self.product_type@,
            formatted_price: optional_text(self.formatted_price),
            price_currency_code: optional_text(self.price_currency_code),
            price_amount_micros: self.price_amount_micros,
            subscription_offer_details: match self.subscription_offer_details {
                Some(offers) => Some(contents(offers@)),
                None => None,
            },
        }
    }
}

impl View for GetProductsResponse {
    type V = Seq<ProductView>;

    open spec fn view(&self) -> Seq<ProductView> {
        contents(self.products@)
    }
}

impl View for Purchase {
    type V = PurchaseView;

    open spec fn view(&self) -> PurchaseView {
        PurchaseView {
            order_id: optional_text(self.order_id),
            package_name: self.package_name@,
            product_id: self.product_id@,
            purchase_time: self.purchase_time,
            purchase_token: self.purchase_token@,
            purchase_state: self.purchase_state,
            is_auto_renewing: self.is_auto_renewing,
            is_acknowledged: self.is_acknowledged,
            original_json: self.original_json@,
            signature: self.signature@,
            original_id: optional_text(self.original_id),
            jws_representation: optional_text(self.jws_representation),
        }
    }
}

impl Clone for Purchase {
    fn clone(&self) -> (copy: Self)
        ensures
            copy == *self,
    {
        Purchase {
            order_id: self.order_id.clone(),
            package_name: self.package_name.clone(),
            product_id: self.product_id.clone(),
            purchase_time: self.purchase_time,
            purchase_token: self.purchase_token.clone(),
            purchase_state: self.purchase_state,
            is_auto_renewing: self.is_auto_renewing,
            is_acknowledged: self.is_acknowledged,
            original_json: self.original_json.clone(),
            signature: self.signature.clone(),
            original_id: self.original_id.clone(),
            jws_representation: self.jws_representation.clone(),
        }
    }
}

impl View for RestorePurchasesResponse {
    type V = Seq<PurchaseView>;

    open spec fn view(&self) -> Seq<PurchaseView> {
        contents(self.purchases@)
    }
}

impl View for ProductStatus {
    type V = ProductStatusView;

    open spec fn view(&self) -> ProductStatusView {
        ProductStatusView {
            product_id: self.product_id@,
            is_owned: self.is_owned,
            purchase_state: self.purchase_state,
            purchase_time: self.purchase_time,
            expiration_time: self.expiration_time,
            is_auto_renewing: self.is_auto_renewing,
            is_acknowledged: self.is_acknowledged,
            purchase_token: optional_text(self.purchase_token),
        }
    }
}

impl View for PluginEvent {
    type V = PluginEventView;

    open spec fn view(&self) -> PluginEventView {
        PluginEventView { name: self.name@, payload: self.payload@ }
    }
}

/// Each property of a purchase stands in its contents as it is.
pub proof fn law_purchase_contents(p: Purchase)
    ensures
        p@.order_id is Some <==> p.order_id is Some,
        p.order_id matches Some(text) ==> p@.order_id == Some(text@),
        p@.package_name == p.package_name@,
        p@.product_id == p.product_id@,
        p@.purchase_time == p.purchase_time,
        p@.purchase_token == p.purchase_token@,
        p@.purchase_state == p.purchase_state,
        p@.is_auto_renewing == p.is_auto_renewing,
        p@.is_acknowledged == p.is_acknowledged,
        p@.original_json == p.original_json@,
        p@.signature == p.signature@,
        p@.original_id is Some <==> p.original_id is Some,
        p.original_id matches Some(text) ==> p@.original_id == Some(text@),
        p@.jws_representation is Some <==> p.jws_representation is Some,
        p.jws_representation matches Some(text) ==> p@.jws_representation == Some(text@),
{
}

/// Each property of a product stands in its contents as it is, offer by offer.
pub proof fn law_product_contents(p: Product)
    ensures
        p@.product_id == p.product_id@,
        p@.title == p.title@,
        p@.description == p.description@,
        p@.product_type == p.product_type@,
        p@.formatted_price is Some <==> p.formatted_price is Some,
        p.formatted_price matches Some(text) ==> p@.formatted_price == Some(text@),
        p@.price_currency_code is Some <==> p.price_currency_code is Some,
        p.price_currency_code matches Some(text) ==> p@.price_currency_code == Some(text@),
        p@.price_amount_micros == p.price_amount_micros,
        p@.subscription_offer_details is Some <==> p.subscription_offer_details is Some,
        p.subscription_offer_details matches Some(offers) ==> {
            &&& p@.subscription_offer_details->Some_0.len() == offers@.len()
            &&& forall|i: int|
                0 <= i < offers@.len() ==> #[trigger] p@.subscription_offer_details->Some_0[i]
                    == offers@[i]@
        },
{
}

/// Each property of an offer stands in its contents as it is, phase by phase.
pub proof fn law_offer_contents(o: SubscriptionOffer)
    ensures
        o@.offer_token == o.offer_token@,
        o@.base_plan_id == o.base_plan_id@,
        o@.offer_id is Some <==> o.offer_id is Some,
        o.offer_id matches Some(text) ==> o@.offer_id == Some(text@),
        o@.pricing_phases.len() == o.pricing_phases@.len(),
        forall|i: int|
            0 <= i < o.pricing_phases@.len() ==> {
                let phase = #[trigger] o@.pricing_phases[i];
                &&& phase.formatted_price == o.pricing_phases@[i].formatted_price@
                &&& phase.price_currency_code == o.pricing_phases@[i].price_currency_code@
                &&& phase.price_amount_micros == o.pricing_phases@[i].price_amount_micros
                &&& phase.billing_period == o.pricing_phases@[i].billing_period@
                &&& phase.billing_cycle_count == o.pricing_phases@[i].billing_cycle_count
                &&& phase.recurrence_mode == o.pricing_phases@[i].recurrence_mode
            },
{
}

/// Each property of a status stands in its contents as it is.
pub proof fn law_status_contents(s: ProductStatus)
    ensures
        s@.product_id == s.product_id@,
        s@.is_owned == s.is_owned,
        s@.purchase_state == s.purchase_state,
        s@.purchase_time == s.purchase_time,
        s@.expiration_time == s.expiration_time,
        s@.is_auto_renewing == s.is_auto_renewing,
        s@.is_acknowledged == s.is_acknowledged,
        s@.purchase_token is Some <==> s.purchase_token is Some,
        s.purchase_token matches Some(text) ==> s@.purchase_token == Some(text@),
{
}

/// Responses hold their items one for one and in order, and an event its name and
/// its purchase.
pub proof fn law_response_contents(
    products: GetProductsResponse,
    purchases: RestorePurchasesResponse,
    event: PluginEvent,
)
    ensures
        products@.len() == products.products@.len(),
        forall|i: int|
            0 <= i < products@.len() ==> #[trigger] products@[i] == products.products@[i]@,
        purchases@.len() == purchases.purchases@.len(),
        forall|i: int|
            0 <= i < purchases@.len() ==> #[trigger] purchases@[i] == purchases.purchases@[i]@,
        event@.name == event.name@,
        event@.payload == event.payload@,
{
}

} // verus!
