//! What callers can rely on when they buy a product or use one up.

use crate::catalog::found;
use crate::catalog::shown;
use crate::catalog_laws::law_found;
use crate::clock::millis_at;
use crate::error::ErrorView;
use crate::error::WindowsErrorView;
use crate::licenses::MomentView;
use crate::models::PurchaseStateValue;
use crate::models::PurchaseView;
use crate::purchases::announced;
use crate::purchases::consumed;
use crate::purchases::consumption;
use crate::purchases::planned;
use crate::purchases::purchase_json;
use crate::purchases::purchase_outcome;
use crate::purchases::purchased;
use crate::purchases::PurchasePlanView;
use crate::store::PurchaseReplyView;
use crate::store::StoreQueryReplyView;
use crate::text::decimal;
use crate::token::token_text;
use crate::token::TokenView;
use vstd::prelude::*;

verus! {

/// A plan is for the product that a search finds: it holds what callers see of
/// that product under the requested type, and the Store's own id of it. The first
/// of these that fails gives the error.
pub proof fn law_planned(
    reply: Result<StoreQueryReplyView, WindowsErrorView>,
    product_id: Seq<char>,
    product_type: Seq<char>,
)
    ensures
        ({
            let plan = planned(reply, product_id, product_type);
            let product = found(reply, product_id);
            let seen = shown(product->Ok_0, product_type);
            &&& product is Err ==> plan is Err && plan->Err_0 == product->Err_0
            &&& product is Ok && seen is Err ==> plan is Err && plan->Err_0 == seen->Err_0
            &&& product is Ok && seen is Ok && product->Ok_0.store_id is Err ==> plan is Err
                && plan->Err_0 == ErrorView::Windows(product->Ok_0.store_id->Err_0)
            &&& product is Ok && seen is Ok && product->Ok_0.store_id is Ok ==> plan is Ok
                && plan->Ok_0.product == seen->Ok_0 && plan->Ok_0.store_id
                == product->Ok_0.store_id->Ok_0
            &&& plan is Ok ==> plan->Ok_0.product.product_type == product_type
                && plan->Ok_0.product.product_id == product->Ok_0.in_app_offer_token->Ok_0
        }),
{
}

/// A purchase holds where the Store says that it succeeded or was made before.
/// Every other status is an error, with a code of its own for each known one.
pub proof fn law_purchase_statuses(status: i32)
    ensures
        purchase_outcome(status) is Ok <==> status == 0 || status == 1,
        purchase_outcome(status) matches Ok(state) ==> state == PurchaseStateValue::Purchased,
        purchase_outcome(2) == Err::<PurchaseStateValue, ErrorView>(
            ErrorView::Rejected {
                code: Some("purchaseNotCompleted"@),
                message: Some("Purchase was not completed"@),
            },
        ),
        purchase_outcome(3) == Err::<PurchaseStateValue, ErrorView>(
            ErrorView::Rejected {
                code: Some("networkError"@),
                message: Some("Network error during purchase"@),
            },
        ),
        purchase_outcome(4) == Err::<PurchaseStateValue, ErrorView>(
            ErrorView::Rejected {
                code: Some("serverError"@),
                message: Some("Server error during purchase"@),
            },
        ),
        status < 0 || status > 4 ==> purchase_outcome(status) == Err::<
            PurchaseStateValue,
            ErrorView,
        >(
            ErrorView::Rejected {
                code: Some("purchaseFailed"@),
                message: Some("Purchase failed"@),
            },
        ),
{
}

/// The JSON text for a purchase holds the status as a number, then the message and
/// the product's id as they are.
pub proof fn law_purchase_json(status: i32, message: Seq<char>, product_id: Seq<char>)
    ensures
        ({
            let json = purchase_json(status, message, product_id);
            let head = "{\"status\":"@ + decimal(status as int) + ",\"message\":\""@;
            let tail = "\",\"productId\":\""@ + product_id + "\"}"@;
            &&& json.len() == head.len() + message.len() + tail.len()
            &&& json.take(head.len() as int) == head
            &&& json.subrange(head.len() as int, (head.len() + message.len()) as int) == message
            &&& json.skip((head.len() + message.len()) as int) == tail
        }),
{
    let json = purchase_json(status, message, product_id);
    let head = "{\"status\":"@ + decimal(status as int) + ",\"message\":\""@;
    let tail = "\",\"productId\":\""@ + product_id + "\"}"@;
    assert(json =~= head + message + tail);
    assert(json.take(head.len() as int) =~= head);
    assert(json.subrange(head.len() as int, (head.len() + message.len()) as int) =~= message);
    assert(json.skip((head.len() + message.len()) as int) =~= tail);
}

/// A purchase that succeeds, property by property. It renews itself exactly where
/// the product is a subscription, whatever the status, the message and the moment
/// are; it is dated by the clock, and a message that could not be read is empty.
pub proof fn law_purchased(
    plan: PurchasePlanView,
    reply: Result<PurchaseReplyView, WindowsErrorView>,
    moment: MomentView,
)
    requires
        purchased(plan, reply, moment) is Ok,
    ensures
        ({
            let p = purchased(plan, reply, moment)->Ok_0;
            &&& reply is Ok && reply->Ok_0.status is Ok
            &&& reply->Ok_0.status->Ok_0 == 0 || reply->Ok_0.status->Ok_0 == 1
            &&& p.is_auto_renewing <==> plan.product.product_type == "subs"@
            &&& p.purchase_state == PurchaseStateValue::Purchased
            &&& p.is_acknowledged
            &&& p.product_id == plan.product.product_id
            &&& p.package_name == plan.product.title
            &&& millis_at(moment.now) == Ok::<i64, ErrorView>(p.purchase_time)
            &&& p.purchase_token == token_text(
                TokenView {
                    v: 1,
                    store_id: plan.store_id,
                    purchase_time: p.purchase_time,
                    nonce: moment.nonce,
                },
            )
            &&& p.order_id == Some(p.purchase_token)
            &&& reply->Ok_0.extended_error_message matches Some(message) ==> p.original_json
                == purchase_json(reply->Ok_0.status->Ok_0, message, p.product_id)
            &&& reply->Ok_0.extended_error_message is None ==> p.original_json == purchase_json(
                reply->Ok_0.status->Ok_0,
                Seq::empty(),
                p.product_id,
            )
            &&& p.signature.len() == 0
            &&& p.original_id is None
            &&& p.jws_representation is None
        }),
{
}

/// A purchase fails, in this order, where the request got no answer, where the
/// status cannot be read, where the status is not one of success, and where the
/// clock has no time. A message that cannot be read fails nothing.
pub proof fn law_purchase_errors(
    plan: PurchasePlanView,
    reply: Result<PurchaseReplyView, WindowsErrorView>,
    moment: MomentView,
)
    ensures
        ({
            let p = purchased(plan, reply, moment);
            let status = reply->Ok_0.status;
            &&& reply is Err ==> p is Err && p->Err_0 == ErrorView::Windows(reply->Err_0)
            &&& reply is Ok && status is Err ==> p is Err && p->Err_0 == ErrorView::Windows(
                status->Err_0,
            )
            &&& reply is Ok && status is Ok && status->Ok_0 != 0 && status->Ok_0 != 1 ==> p is Err
                && p->Err_0 == purchase_outcome(status->Ok_0)->Err_0
            &&& reply is Ok && status is Ok && (status->Ok_0 == 0 || status->Ok_0 == 1) ==> {
                &&& p is Ok <==> millis_at(moment.now) is Ok
                &&& p is Err ==> p->Err_0 == millis_at(moment.now)->Err_0
            }
        }),
{
}

/// A purchase that was made before is answered like one that was made now: the two
/// differ in the JSON text alone. A message, too, changes nothing else.
pub proof fn law_bought_before_or_now(
    plan: PurchasePlanView,
    now: PurchaseReplyView,
    before: PurchaseReplyView,
    moment: MomentView,
)
    requires
        now.status == Ok::<i32, WindowsErrorView>(0),
        before.status == Ok::<i32, WindowsErrorView>(1),
    ensures
        ({
            let a = purchased(plan, Ok(now), moment);
            let b = purchased(plan, Ok(before), moment);
            &&& a is Ok <==> b is Ok
            &&& a is Err ==> a->Err_0 == b->Err_0
            &&& a is Ok ==> (PurchaseView { original_json: b->Ok_0.original_json, ..a->Ok_0 })
                == b->Ok_0
        }),
{
}

/// The event for a purchase goes by the name `purchaseUpdated` and carries the very
/// purchase that the caller gets. A failed purchase has no event.
pub proof fn law_announced(purchase: Result<PurchaseView, ErrorView>)
    ensures
        announced(purchase) is Ok <==> purchase is Ok,
        purchase is Err ==> announced(purchase)->Err_0 == purchase->Err_0,
        purchase is Ok ==> {
            &&& announced(purchase)->Ok_0.0 == purchase->Ok_0
            &&& announced(purchase)->Ok_0.1.name == "purchaseUpdated"@
            &&& announced(purchase)->Ok_0.1.payload == announced(purchase)->Ok_0.0
        },
{
}

/// A whole purchase, from the Store's list to the caller: where it succeeds, it is
/// of the requested product, under the Store id that the list gives it, and renews
/// itself exactly where a subscription was requested.
pub proof fn law_purchase_as_requested(
    list: Result<StoreQueryReplyView, WindowsErrorView>,
    product_id: Seq<char>,
    product_type: Seq<char>,
    reply: Result<PurchaseReplyView, WindowsErrorView>,
    moment: MomentView,
)
    requires
        planned(list, product_id, product_type) is Ok,
        purchased(planned(list, product_id, product_type)->Ok_0, reply, moment) is Ok,
    ensures
        ({
            let p = purchased(planned(list, product_id, product_type)->Ok_0, reply, moment)->Ok_0;
            let product = found(list, product_id)->Ok_0;
            &&& p.product_id == product_id
            &&& p.is_auto_renewing <==> product_type == "subs"@
            &&& p.package_name == product.title->Ok_0
            &&& p.purchase_token == token_text(
                TokenView {
                    v: 1,
                    store_id: product.store_id->Ok_0,
                    purchase_time: p.purchase_time,
                    nonce: moment.nonce,
                },
            )
        }),
{
    law_found(list, product_id);
}

/// A consumable is used up exactly where the Store reports success. Every other
/// status is an error, with a code of its own for each known one.
pub proof fn law_consumed(status: i32, unread: WindowsErrorView)
    ensures
        consumed(Ok(status)) is Ok <==> status == 0,
        consumed(Err(unread)) == Err::<(), ErrorView>(ErrorView::Windows(unread)),
        consumed(Ok(1)) == Err::<(), ErrorView>(
            ErrorView::Rejected {
                code: Some("insufficientQuantity"@),
                message: Some("Not enough balance remaining to consume"@),
            },
        ),
        consumed(Ok(2)) == Err::<(), ErrorView>(
            ErrorView::Rejected {
                code: Some("networkError"@),
                message: Some("Network error during consume"@),
            },
        ),
        consumed(Ok(3)) == Err::<(), ErrorView>(
            ErrorView::Rejected {
                code: Some("serverError"@),
                message: Some("Server error during consume"@),
            },
        ),
        status < 0 || status > 3 ==> consumed(Ok(status)) == Err::<(), ErrorView>(
            ErrorView::Rejected {
                code: Some("consumeFailed"@),
                message: Some("Failed to consume purchase"@),
            },
        ),
{
}

/// Using a purchase up reports one unit under the Store id that its token carries,
/// whatever else the token holds; a token that is refused reports nothing.
pub proof fn law_consumption(token: Result<TokenView, ErrorView>)
    ensures
        consumption(token) is Ok <==> token is Ok,
        consumption(token) matches Ok(plan) ==> plan.store_id == token->Ok_0.store_id
            && plan.quantity == 1,
        consumption(token) matches Err(error) ==> error == token->Err_0,
{
}

} // verus!
