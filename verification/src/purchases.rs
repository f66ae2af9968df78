//! Buying a product and reporting a consumable as used up.

use crate::catalog::found;
use crate::catalog::shown;
use crate::clock::millis_at;
use crate::encoding::base64url;
use crate::error::outcome;
use crate::error::read_text;
use crate::error::reading;
use crate::error::rejected;
use crate::error::Error;
use crate::error::ErrorView;
use crate::error::Read;
use crate::error::WindowsErrorView;
use crate::iap::Iap;
use crate::licenses::clock_moment;
use crate::licenses::purchase_token;
use crate::licenses::Moment;
use crate::licenses::MomentView;
use crate::models::PluginEvent;
use crate::models::PluginEventView;
use crate::models::Product;
use crate::models::ProductView;
use crate::models::Purchase;
use crate::models::PurchaseRequest;
use crate::models::PurchaseStateValue;
use crate::models::PurchaseView;
use crate::store::PurchaseReply;
use crate::store::PurchaseReplyView;
use crate::store::StoreQueryReply;
use crate::store::StoreQueryReplyView;
use crate::text::blank;
use crate::text::decimal;
use crate::text::push_decimal;
use crate::text::text_eq;
use crate::token::accepted;
use crate::token::invalid_token;
use crate::token::law_token_text_injective;
use crate::token::optional_token;
use crate::token::token_bytes;
use crate::token::token_text;
use crate::token::token_valid;
use crate::token::TokenView;
use crate::token::WindowsPurchaseTokenV1;
use vstd::prelude::*;
use vstd::string::StringExecFns;

verus! {

/// The Store's status codes for a purchase.
pub const PURCHASE_SUCCEEDED: i32 = 0;

pub const PURCHASE_ALREADY_PURCHASED: i32 = 1;

pub const PURCHASE_NOT_PURCHASED: i32 = 2;

pub const PURCHASE_NETWORK_ERROR: i32 = 3;

pub const PURCHASE_SERVER_ERROR: i32 = 4;

/// The Store's status codes for reporting a consumable as used up.
pub const CONSUMABLE_SUCCEEDED: i32 = 0;

pub const CONSUMABLE_INSUFFICIENT_QUANTITY: i32 = 1;

pub const CONSUMABLE_NETWORK_ERROR: i32 = 2;

pub const CONSUMABLE_SERVER_ERROR: i32 = 3;

/// A product that is about to be bought, with the Store's own id of it.
#[derive(Debug)]
pub struct PurchasePlan {
    pub product: Product,
    pub store_id: String,
}

/// The contents of a [`PurchasePlan`].
pub struct PurchasePlanView {
    pub product: ProductView,
    pub store_id: Seq<char>,
}

impl View for PurchasePlan {
    type V = PurchasePlanView;

    open spec fn view(&self) -> PurchasePlanView {
        PurchasePlanView { product: self.product@, store_id: self.store_id@ }
    }
}

/// What is to be bought for a request, by the Store's answer to a query.
pub open spec fn planned(
    reply: Result<StoreQueryReplyView, WindowsErrorView>,
    product_id: Seq<char>,
    product_type: Seq<char>,
) -> Result<PurchasePlanView, ErrorView> {
    match found(reply, product_id) {
        Err(error) => Err(error),
        Ok(product) => match (shown(product, product_type), product.store_id) {
            (Err(error), _) => Err(error),
            (_, Err(error)) => Err(ErrorView::Windows(error)),
            (Ok(product), Ok(store_id)) => Ok(PurchasePlanView { product, store_id }),
        },
    }
}

/// What a status of the Store means for a purchase.
pub open spec fn purchase_outcome(status: i32) -> Result<PurchaseStateValue, ErrorView> {
    if status == PURCHASE_SUCCEEDED || status == PURCHASE_ALREADY_PURCHASED {
        Ok(PurchaseStateValue::Purchased)
    } else if status == PURCHASE_NOT_PURCHASED {
        Err(rejected("purchaseNotCompleted"@, "Purchase was not completed"@))
    } else if status == PURCHASE_NETWORK_ERROR {
        Err(rejected("networkError"@, "Network error during purchase"@))
    } else if status == PURCHASE_SERVER_ERROR {
        Err(rejected("serverError"@, "Server error during purchase"@))
    } else {
        Err(rejected("purchaseFailed"@, "Purchase failed"@))
    }
}

/// What the Store said of a purchase, as the text of a JSON object. The message
/// and the id stand in it as they are.
pub open spec fn purchase_json(status: i32, message: Seq<char>, product_id: Seq<char>) -> Seq<
    char,
> {
    "{\"status\":"@ + decimal(status as int) + ",\"message\":\""@ + message + "\",\"productId\":\""@
        + product_id + "\"}"@
}

/// The purchase that came of a plan, by the Store's answer and the clock.
pub open spec fn purchased(
    plan: PurchasePlanView,
    reply: Result<PurchaseReplyView, WindowsErrorView>,
    moment: MomentView,
) -> Result<PurchaseView, ErrorView> {
    match reply {
        Err(error) => Err(ErrorView::Windows(error)),
        Ok(reply) => match reply.status {
            Err(error) => Err(ErrorView::Windows(error)),
            Ok(status) => match (purchase_outcome(status), millis_at(moment.now)) {
                (Err(error), _) => Err(error),
                (_, Err(error)) => Err(error),
                (Ok(state), Ok(purchase_time)) => {
                    let message = match reply.extended_error_message {
                        Some(message) => message,
                        None => Seq::empty(),
                    };
                    let token = purchase_token(plan.store_id, purchase_time, moment.nonce);
                    Ok(
                        PurchaseView {
                            order_id: Some(token),
                            package_name: plan.product.title,
                            product_id: plan.product.product_id,
                            purchase_time,
                            purchase_token: token,
                            purchase_state: state,
                            is_auto_renewing: plan.product.product_type == "subs"@,
                            is_acknowledged: true,
                            original_json: purchase_json(
                                status,
                                message,
                                plan.product.product_id,
                            ),
                            signature: Seq::empty(),
                            original_id: None,
                            jws_representation: None,
                        },
                    )
                },
            },
        },
    }
}

/// The event that tells the frontend of a purchase.
pub open spec fn update_event(purchase: PurchaseView) -> PluginEventView {
    PluginEventView { name: "purchaseUpdated"@, payload: purchase }
}

/// What a purchase call gives: the purchase and the event for it, or an error
/// and no event.
pub open spec fn announced(purchase: Result<PurchaseView, ErrorView>) -> Result<
    (PurchaseView, PluginEventView),
    ErrorView,
> {
    match purchase {
        Ok(purchase) => Ok((purchase, update_event(purchase))),
        Err(error) => Err(error),
    }
}

/// What a status of the Store means for a consumable that was reported as used
/// up.
pub open spec fn consumed(status: Result<i32, WindowsErrorView>) -> Result<(), ErrorView> {
    match status {
        Err(error) => Err(ErrorView::Windows(error)),
        Ok(status) => if status == CONSUMABLE_SUCCEEDED {
            Ok(())
        } else if status == CONSUMABLE_INSUFFICIENT_QUANTITY {
            Err(
                rejected(
                    "insufficientQuantity"@,
                    "Not enough balance remaining to consume"@,
                ),
            )
        } else if status == CONSUMABLE_NETWORK_ERROR {
            Err(rejected("networkError"@, "Network error during consume"@))
        } else if status == CONSUMABLE_SERVER_ERROR {
            Err(rejected("serverError"@, "Server error during consume"@))
        } else {
            Err(rejected("consumeFailed"@, "Failed to consume purchase"@))
        },
    }
}

/// What to report to the Store for a consumable: one unit of its product.
#[derive(Debug)]
pub struct ConsumePlan {
    pub store_id: String,
    pub quantity: u32,
}

/// The contents of a [`ConsumePlan`].
pub struct ConsumePlanView {
    pub store_id: Seq<char>,
    pub quantity: u32,
}

impl View for ConsumePlan {
    type V = ConsumePlanView;

    open spec fn view(&self) -> ConsumePlanView {
        ConsumePlanView { store_id: self.store_id@, quantity: self.quantity }
    }
}

/// What to report to the Store, by what was found in a purchase token.
pub open spec fn consumption(token: Result<TokenView, ErrorView>) -> Result<
    ConsumePlanView,
    ErrorView,
> {
    match token {
        Ok(token) => Ok(ConsumePlanView { store_id: token.store_id, quantity: 1 }),
        Err(error) => Err(error),
    }
}

impl Iap {
    /// What is to be bought for a request, by the Store's answer to a query.
    pub fn plan_purchase(&self, reply: Read<StoreQueryReply>, request: &PurchaseRequest) -> (plan:
        Result<PurchasePlan, Error>)
        ensures
            outcome(plan) == planned(
                reading(reply),
                request.product_id@,
                request.product_type@,
            ),
            plan matches Ok(p) ==> p.product.product_id@ == request.product_id@
                && p.product.product_type@ == request.product_type@,
    {
        let store_product = match Self::find_product_by_product_id(
            reply,
            request.product_id.as_str(),
        ) {
            Ok(product) => product,
            Err(error) => return Err(error),
        };
        let product = match Self::convert_store_product_to_product(
            &store_product,
            request.product_type.as_str(),
        ) {
            Ok(product) => product,
            Err(error) => return Err(error),
        };
        let store_id = match read_text(&store_product.store_id) {
            Ok(text) => text,
            Err(error) => return Err(error),
        };
        Ok(PurchasePlan { product, store_id })
    }

    /// What a status of the Store means for a purchase.
    pub fn purchase_state(status: i32) -> (state: Result<PurchaseStateValue, Error>)
        ensures
            (match state {
                Ok(s) => Ok(s),
                Err(e) => Err(e@),
            }) == purchase_outcome(status),
    {
        if status == PURCHASE_SUCCEEDED || status == PURCHASE_ALREADY_PURCHASED {
            Ok(PurchaseStateValue::Purchased)
        } else if status == PURCHASE_NOT_PURCHASED {
            Err(Self::reject("purchaseNotCompleted", "Purchase was not completed".to_owned()))
        } else if status == PURCHASE_NETWORK_ERROR {
            Err(Self::reject("networkError", "Network error during purchase".to_owned()))
        } else if status == PURCHASE_SERVER_ERROR {
            Err(Self::reject("serverError", "Server error during purchase".to_owned()))
        } else {
            Err(Self::reject("purchaseFailed", "Purchase failed".to_owned()))
        }
    }

    /// What the Store said of a purchase, as the text of a JSON object.
    pub fn purchase_json_text(status: i32, message: &str, product_id: &str) -> (json: String)
        ensures
            json@ == purchase_json(status, message@, product_id@),
    {
        let mut json = "{\"status\":".to_owned();
        push_decimal(&mut json, status as i64);
        json.append(",\"message\":\"");
        json.append(message);
        json.append("\",\"productId\":\"");
        json.append(product_id);
        json.append("\"}");
        json
    }

    /// The purchase that came of a plan and the event for it, by the Store's
    /// answer and what the clock gave.
    pub fn purchase_at(
        &self,
        plan: PurchasePlan,
        reply: Read<PurchaseReply>,
        moment: &Moment,
    ) -> (done: Result<(Purchase, PluginEvent), Error>)
        ensures
            outcome(done) == announced(purchased(plan@, reading(reply), moment@)),
            done matches Ok((p, event)) ==> {
                &&& reply is Ok && reply->Ok_0.status is Ok
                &&& reply->Ok_0.status->Ok_0 == 0 || reply->Ok_0.status->Ok_0 == 1
                &&& p.purchase_state == PurchaseStateValue::Purchased
                &&& p.is_auto_renewing <==> plan.product.product_type@ == "subs"@
                &&& p.product_id@ == plan.product.product_id@
                &&& event.payload@ == p@
                &&& event.name@ == "purchaseUpdated"@
            },
    {
        let reply = match reply {
            Ok(reply) => reply,
            Err(error) => return Err(Error::Windows(error)),
        };
        let status: i32 = match reply.status {
            Ok(status) => status,
            Err(error) => return Err(Error::Windows(error)),
        };
        let purchase_state = match Self::purchase_state(status) {
            Ok(state) => state,
            Err(error) => return Err(error),
        };
        let message = match reply.extended_error_message {
            Some(message) => message,
            None => String::new(),
        };
        let purchase_time: i64 = match Self::millis_of(&moment.now) {
            Ok(millis) => millis,
            Err(error) => return Err(error),
        };
        let token = match Self::purchase_token_with_nonce(
            plan.store_id,
            purchase_time,
            moment.nonce,
        ) {
            Ok(token) => token,
            Err(error) => return Err(error),
        };
        let product = plan.product;
        let original_json = Self::purchase_json_text(
            status,
            message.as_str(),
            product.product_id.as_str(),
        );
        let purchase = Purchase {
            order_id: Some(token.clone()),
            package_name: product.title,
            product_id: product.product_id,
            purchase_time,
            purchase_token: token,
            purchase_state,
            is_auto_renewing: text_eq(product.product_type.as_str(), "subs"),
            is_acknowledged: true,
            original_json,
            signature: String::new(),
            original_id: None,
            jws_representation: None,
        };
        let event = PluginEvent { name: "purchaseUpdated".to_owned(), payload: purchase.clone() };
        Ok((purchase, event))
    }

    /// The purchase that came of a plan and the event for it, by the Store's
    /// answer. The clock is read on the way; what becomes of its readings is
    /// stated for every one.
    pub fn purchase(&self, plan: PurchasePlan, reply: Read<PurchaseReply>) -> (done: Result<
        (Purchase, PluginEvent),
        Error,
    >)
        ensures
            exists|moment: MomentView| #[trigger]
                clock_moment(moment) && outcome(done) == announced(
                    purchased(plan@, reading(reply), moment),
                ),
            done matches Ok((p, event)) ==> {
                &&& reply is Ok && reply->Ok_0.status is Ok
                &&& reply->Ok_0.status->Ok_0 == 0 || reply->Ok_0.status->Ok_0 == 1
                &&& p.purchase_state == PurchaseStateValue::Purchased
                &&& p.is_auto_renewing <==> plan.product.product_type@ == "subs"@
                &&& p.product_id@ == plan.product.product_id@
                &&& event.payload@ == p@
                &&& event.name@ == "purchaseUpdated"@
            },
    {
        let moment = Self::read_moment();
        self.purchase_at(plan, reply, &moment)
    }

    /// Does nothing: the Store acknowledges purchases itself.
    pub fn acknowledge_purchase(&self, _purchase_token: String) -> (done: Result<(), Error>)
        ensures
            done == Ok::<(), Error>(()),
    {
        Ok(())
    }

    /// What to report to the Store to use a purchase up. `parse` finds the JSON
    /// object in the purchase token's bytes, or nothing.
    ///
    /// A token of a purchase leads back to the Store id that it was made for,
    /// where `parse` finds in its bytes the object that they were written from.
    pub fn plan_consume<P: Fn(&Vec<u8>) -> Option<WindowsPurchaseTokenV1>>(
        &self,
        purchase_token: String,
        parse: P,
    ) -> (plan: Result<ConsumePlan, Error>)
        requires
            forall|b: &Vec<u8>| call_requires(parse, (b,)),
        ensures
            (forall|b: Seq<u8>| #[trigger] base64url(b) != purchase_token@) ==> outcome(plan)
                == Err::<ConsumePlanView, ErrorView>(invalid_token()),
            forall|bytes: Seq<u8>| #[trigger]
                base64url(bytes) == purchase_token@ ==> exists|
                    b: Vec<u8>,
                    p: Option<WindowsPurchaseTokenV1>,
                |
                    b@ == bytes && #[trigger] call_ensures(parse, (&b,), p) && outcome(plan)
                        == consumption(accepted(optional_token(p))),
            forall|t: TokenView|
                (#[trigger] token_text(t) == purchase_token@ && token_valid(t) && forall|
                    b: Vec<u8>,
                    p: Option<WindowsPurchaseTokenV1>,
                |
                    b@ == token_bytes(t) && #[trigger] call_ensures(parse, (&b,), p)
                        ==> optional_token(p) == Some(t)) ==> outcome(plan) == Ok::<
                    ConsumePlanView,
                    ErrorView,
                >(ConsumePlanView { store_id: t.store_id, quantity: 1 }),
    {
        match WindowsPurchaseTokenV1::decode(purchase_token.as_str(), parse) {
            Ok(token) => Ok(ConsumePlan { store_id: token.store_id, quantity: 1 }),
            Err(error) => Err(error),
        }
    }

    /// What a status of the Store means for a consumable that was reported as
    /// used up.
    pub fn consume_purchase(&self, status: Read<i32>) -> (done: Result<(), Error>)
        ensures
            (match done {
                Ok(()) => Ok(()),
                Err(e) => Err(e@),
            }) == consumed(reading(status)),
    {
        let status: i32 = match status {
            Ok(status) => status,
            Err(error) => return Err(Error::Windows(error)),
        };
        if status == CONSUMABLE_SUCCEEDED {
            Ok(())
        } else if status == CONSUMABLE_INSUFFICIENT_QUANTITY {
            Err(
                Self::reject(
                    "insufficientQuantity",
                    "Not enough balance remaining to consume".to_owned(),
                ),
            )
        } else if status == CONSUMABLE_NETWORK_ERROR {
            Err(Self::reject("networkError", "Network error during consume".to_owned()))
        } else if status == CONSUMABLE_SERVER_ERROR {
            Err(Self::reject("serverError", "Server error during consume".to_owned()))
        } else {
            Err(Self::reject("consumeFailed", "Failed to consume purchase".to_owned()))
        }
    }
}

/// A request to purchase succeeds exactly where the Store answers that the
/// product is bought, now or before, and the clock has a time; the purchase then
/// holds and is acknowledged.
pub proof fn law_purchase_succeeds(
    plan: PurchasePlanView,
    reply: Result<PurchaseReplyView, WindowsErrorView>,
    moment: MomentView,
)
    ensures
        purchased(plan, reply, moment) is Ok <==> reply is Ok && (reply->Ok_0.status == Ok::<
            i32,
            WindowsErrorView,
        >(PURCHASE_SUCCEEDED) || reply->Ok_0.status == Ok::<i32, WindowsErrorView>(
            PURCHASE_ALREADY_PURCHASED,
        )) && millis_at(moment.now) is Ok,
        purchased(plan, reply, moment) matches Ok(p) ==> p.purchase_state
            == PurchaseStateValue::Purchased && p.is_acknowledged && p.product_id
            == plan.product.product_id,
{
}

/// The token of a purchase carries the Store id of the product that was bought,
/// and no other: it is the text of a token of version one with that id, and every
/// token with this text has that id.
pub proof fn law_purchase_token_names_product(
    plan: PurchasePlanView,
    reply: Result<PurchaseReplyView, WindowsErrorView>,
    moment: MomentView,
)
    requires
        purchased(plan, reply, moment) is Ok,
    ensures
        ({
            let p = purchased(plan, reply, moment)->Ok_0;
            let t = TokenView {
                v: 1,
                store_id: plan.store_id,
                purchase_time: p.purchase_time,
                nonce: moment.nonce,
            };
            &&& p.purchase_token == token_text(t)
            &&& token_valid(t) <==> !blank(plan.store_id)
            &&& forall|other: TokenView| #[trigger]
                token_text(other) == p.purchase_token ==> other == t
        }),
{
    let p = purchased(plan, reply, moment)->Ok_0;
    let t = TokenView {
        v: 1,
        store_id: plan.store_id,
        purchase_time: p.purchase_time,
        nonce: moment.nonce,
    };
    assert forall|other: TokenView| #[trigger] token_text(other) == p.purchase_token implies other
        == t by {
        law_token_text_injective(other, t);
    }
}

/// Two purchases of one product in the same millisecond have different tokens
/// where their nonces differ.
pub proof fn law_purchase_tokens_differ(store_id: Seq<char>, purchase_time: i64, a: u32, b: u32)
    requires
        a != b,
    ensures
        purchase_token(store_id, purchase_time, a) != purchase_token(store_id, purchase_time, b),
{
    let x = TokenView { v: 1, store_id, purchase_time, nonce: a };
    let y = TokenView { v: 1, store_id, purchase_time, nonce: b };
    if token_text(x) == token_text(y) {
        law_token_text_injective(x, y);
    }
}

/// A plan's contents are its properties as they are.
pub proof fn law_plan_contents(purchase: PurchasePlan, consume: ConsumePlan)
    ensures
        purchase@.product == purchase.product@,
        purchase@.store_id == purchase.store_id@,
        consume@.store_id == consume.store_id@,
        consume@.quantity == consume.quantity,
{
}

} // verus!
