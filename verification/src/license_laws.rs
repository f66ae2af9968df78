//! What callers can rely on when they restore purchases or ask for a status.

use crate::clock::datetime_millis;
use crate::clock::millis_at;
use crate::error::ErrorView;
use crate::error::WindowsErrorView;
use crate::licenses::license_json;
use crate::licenses::license_purchase;
use crate::licenses::license_status;
use crate::licenses::product_status;
use crate::licenses::restored;
use crate::licenses::restored_pick;
use crate::licenses::status_from;
use crate::licenses::store_id_of;
use crate::licenses::timed;
use crate::licenses::MomentView;
use crate::models::ProductStatusView;
use crate::models::PurchaseStateValue;
use crate::models::PurchaseView;
use crate::store::StoreLicenseView;
use crate::text::decimal;
use crate::token::token_text;
use crate::token::TokenView;
use crate::walk::gather;
use crate::walk::law_gather_first_error;
use vstd::prelude::*;

verus! {

/// The product's Store id is the beginning of the SKU's, up to its first slash. A
/// text without a slash, or one that begins with a slash, is taken whole.
pub proof fn law_store_id_is_beginning(sku_store_id: Seq<char>)
    ensures
        ({
            let id = store_id_of(sku_store_id);
            &&& id.len() <= sku_store_id.len()
            &&& id == sku_store_id.take(id.len() as int)
            &&& (forall|i: int| 0 <= i < sku_store_id.len() ==> sku_store_id[i] != '/') || (
            sku_store_id.len() > 0 && sku_store_id[0] == '/') ==> id == sku_store_id
            &&& id.len() < sku_store_id.len() ==> id.len() > 0 && sku_store_id[id.len() as int]
                == '/' && forall|i: int| 0 <= i < id.len() ==> id[i] != '/'
            &&& forall|k: int|
                0 < k < sku_store_id.len() && #[trigger] sku_store_id[k] == '/' && sku_store_id[0]
                    != '/' ==> id.len() <= k
        }),
{
    sku_store_id.index_of_first_ensures('/');
    assert(sku_store_id.take(sku_store_id.len() as int) =~= sku_store_id);
}

/// The JSON text for a license holds two members: whether it is active, and when
/// it expires.
pub proof fn law_license_json(expiration: int)
    ensures
        license_json(true, expiration) == "{\"isActive\":true,\"expirationDate\":"@ + decimal(
            expiration,
        ) + "}"@,
        license_json(false, expiration) == "{\"isActive\":false,\"expirationDate\":"@ + decimal(
            expiration,
        ) + "}"@,
{
    reveal_strlit("{\"isActive\":");
    reveal_strlit("true");
    reveal_strlit("false");
    reveal_strlit(",\"expirationDate\":");
    reveal_strlit("{\"isActive\":true,\"expirationDate\":");
    reveal_strlit("{\"isActive\":false,\"expirationDate\":");
    assert(license_json(true, expiration) =~= "{\"isActive\":true,\"expirationDate\":"@ + decimal(
        expiration,
    ) + "}"@);
    assert(license_json(false, expiration) =~= "{\"isActive\":false,\"expirationDate\":"@ + decimal(
        expiration,
    ) + "}"@);
}

/// The purchase behind a license, property by property. Only a subscription that
/// expires after the start of 1970 is dated by its expiration, thirty days before
/// it; every other license is dated by the clock.
pub proof fn law_license_purchase(
    license: StoreLicenseView,
    product_type: Seq<char>,
    package_name: Seq<char>,
    moment: MomentView,
)
    requires
        license_purchase(license, product_type, package_name, moment) is Ok,
    ensures
        ({
            let p = license_purchase(license, product_type, package_name, moment)->Ok_0;
            let expiration = datetime_millis(license.expiration_ticks->Ok_0 as int);
            &&& license.in_app_offer_token is Ok && license.sku_store_id is Ok
            &&& license.is_active is Ok && license.expiration_ticks is Ok
            &&& p.product_id == license.in_app_offer_token->Ok_0
            &&& p.package_name == package_name
            &&& product_type == "subs"@ && expiration > 0 ==> p.purchase_time + 30 * 24 * 60 * 60
                * 1000 == expiration
            &&& product_type != "subs"@ || expiration <= 0 ==> millis_at(moment.now) == Ok::<
                i64,
                ErrorView,
            >(p.purchase_time)
            &&& p.purchase_token == token_text(
                TokenView {
                    v: 1,
                    store_id: store_id_of(license.sku_store_id->Ok_0),
                    purchase_time: p.purchase_time,
                    nonce: moment.nonce,
                },
            )
            &&& p.order_id == Some(p.purchase_token)
            &&& p.purchase_state == PurchaseStateValue::Purchased <==> license.is_active->Ok_0
            &&& p.purchase_state == PurchaseStateValue::Canceled <==> !license.is_active->Ok_0
            &&& p.is_auto_renewing <==> product_type == "subs"@ && license.is_active->Ok_0
            &&& p.is_acknowledged
            &&& license.is_active->Ok_0 ==> p.original_json
                == "{\"isActive\":true,\"expirationDate\":"@ + decimal(expiration) + "}"@
            &&& !license.is_active->Ok_0 ==> p.original_json
                == "{\"isActive\":false,\"expirationDate\":"@ + decimal(expiration) + "}"@
            &&& p.signature.len() == 0
            &&& p.original_id is None
            &&& p.jws_representation is None
        }),
{
    law_license_json(datetime_millis(license.expiration_ticks->Ok_0 as int));
}

/// A license fails to give a purchase only where a property of it cannot be read,
/// and the first such is reported as it was, or where it has to be dated by a
/// clock without a time.
pub proof fn law_license_purchase_errors(
    license: StoreLicenseView,
    product_type: Seq<char>,
    package_name: Seq<char>,
    moment: MomentView,
)
    ensures
        ({
            let p = license_purchase(license, product_type, package_name, moment);
            let id = license.in_app_offer_token;
            let sku = license.sku_store_id;
            let active = license.is_active;
            let ticks = license.expiration_ticks;
            let by_expiration = product_type == "subs"@ && datetime_millis(ticks->Ok_0 as int) > 0;
            &&& id is Err ==> p is Err && p->Err_0 == ErrorView::Windows(id->Err_0)
            &&& id is Ok && sku is Err ==> p is Err && p->Err_0 == ErrorView::Windows(sku->Err_0)
            &&& id is Ok && sku is Ok && active is Err ==> p is Err && p->Err_0
                == ErrorView::Windows(active->Err_0)
            &&& id is Ok && sku is Ok && active is Ok && ticks is Err ==> p is Err && p->Err_0
                == ErrorView::Windows(ticks->Err_0)
            &&& id is Ok && sku is Ok && active is Ok && ticks is Ok ==> {
                &&& p is Ok <==> by_expiration || millis_at(moment.now) is Ok
                &&& p is Err ==> p->Err_0 == millis_at(moment.now)->Err_0
            }
        }),
{
}

proof fn lemma_restored(
    licenses: Seq<Result<StoreLicenseView, WindowsErrorView>>,
    moments: Seq<MomentView>,
    product_type: Seq<char>,
    package_name: Seq<char>,
)
    requires
        moments.len() == licenses.len(),
        gather(timed(licenses, moments), restored_pick(product_type, package_name)) is Ok,
    ensures
        ({
            let purchases = gather(
                timed(licenses, moments),
                restored_pick(product_type, package_name),
            )->Ok_0;
            let active = Seq::new(licenses.len(), |i: int| (licenses[i], moments[i])).filter(
                |e: (Result<StoreLicenseView, WindowsErrorView>, MomentView)|
                    e.0 is Ok && e.0->Ok_0.is_active is Ok && e.0->Ok_0.is_active->Ok_0,
            );
            &&& purchases.len() == active.len()
            &&& forall|k: int|
                #![trigger purchases[k]]
                #![trigger active[k]]
                0 <= k < purchases.len() ==> active[k].0 is Ok && license_purchase(
                    active[k].0->Ok_0,
                    product_type,
                    package_name,
                    active[k].1,
                ) == Ok::<PurchaseView, ErrorView>(purchases[k])
        }),
    decreases licenses.len(),
{
    let pick = restored_pick(product_type, package_name);
    let is_active = |e: (Result<StoreLicenseView, WindowsErrorView>, MomentView)|
        e.0 is Ok && e.0->Ok_0.is_active is Ok && e.0->Ok_0.is_active->Ok_0;
    let pairs = Seq::new(licenses.len(), |i: int| (licenses[i], moments[i]));
    let entries = timed(licenses, moments);
    assert(entries =~= pairs);
    let purchases = gather(entries, pick)->Ok_0;
    let active = pairs.filter(is_active);
    reveal(Seq::filter);
    if licenses.len() > 0 {
        let front = licenses.drop_last();
        let earlier = moments.drop_last();
        let front_pairs = Seq::new(front.len(), |i: int| (front[i], earlier[i]));
        assert(entries.drop_last() =~= timed(front, earlier));
        assert(pairs.drop_last() =~= front_pairs);
        assert(pairs.last() == (licenses.last(), moments.last()));
        lemma_restored(front, earlier, product_type, package_name);
        let before = gather(timed(front, earlier), pick)->Ok_0;
        let active_before = front_pairs.filter(is_active);
        law_license_purchase(licenses.last()->Ok_0, product_type, package_name, moments.last());
        if is_active(pairs.last()) {
            assert(active == active_before.push(pairs.last()));
            assert(purchases == before.push(purchases.last()));
            assert forall|k: int|
                #![trigger purchases[k]]
                #![trigger active[k]]
                0 <= k < purchases.len() implies active[k].0 is Ok && license_purchase(
                active[k].0->Ok_0,
                product_type,
                package_name,
                active[k].1,
            ) == Ok::<PurchaseView, ErrorView>(purchases[k]) by {
                if k < before.len() {
                    assert(active[k] == active_before[k]);
                    assert(purchases[k] == before[k]);
                }
            }
        } else {
            assert(active == active_before);
            assert(purchases == before);
        }
    }
}

/// Restoring gives one purchase for each active license, in the order of the
/// licenses, with the properties of that license. It renews itself exactly where
/// subscriptions were asked for. Only a subscription that expires after the start
/// of 1970 is dated by its expiration; every other purchase is dated by the clock
/// as it was read for its license.
pub proof fn law_restored_purchases(
    licenses: Seq<Result<StoreLicenseView, WindowsErrorView>>,
    moments: Seq<MomentView>,
    product_type: Seq<char>,
    package_name: Seq<char>,
)
    requires
        moments.len() == licenses.len(),
        restored(Ok(licenses), product_type, package_name, moments) is Ok,
    ensures
        ({
            let purchases = restored(Ok(licenses), product_type, package_name, moments)->Ok_0;
            let active = Seq::new(licenses.len(), |i: int| (licenses[i], moments[i])).filter(
                |e: (Result<StoreLicenseView, WindowsErrorView>, MomentView)|
                    e.0 is Ok && e.0->Ok_0.is_active is Ok && e.0->Ok_0.is_active->Ok_0,
            );
            &&& purchases.len() == active.len()
            &&& forall|k: int|
                #![trigger purchases[k]]
                #![trigger active[k]]
                0 <= k < purchases.len() ==> {
                    let p = purchases[k];
                    let license = active[k].0->Ok_0;
                    let moment = active[k].1;
                    let expiration = datetime_millis(license.expiration_ticks->Ok_0 as int);
                    &&& license.in_app_offer_token is Ok && license.sku_store_id is Ok
                    &&& license.expiration_ticks is Ok
                    &&& p.product_id == license.in_app_offer_token->Ok_0
                    &&& p.package_name == package_name
                    &&& p.purchase_state == PurchaseStateValue::Purchased
                    &&& p.is_auto_renewing <==> product_type == "subs"@
                    &&& p.is_acknowledged
                    &&& product_type == "subs"@ && expiration > 0 ==> p.purchase_time + 30 * 24 * 60
                        * 60 * 1000 == expiration
                    &&& product_type != "subs"@ || expiration <= 0 ==> millis_at(moment.now)
                        == Ok::<i64, ErrorView>(p.purchase_time)
                    &&& p.purchase_token == token_text(
                        TokenView {
                            v: 1,
                            store_id: store_id_of(license.sku_store_id->Ok_0),
                            purchase_time: p.purchase_time,
                            nonce: moment.nonce,
                        },
                    )
                    &&& p.order_id == Some(p.purchase_token)
                    &&& p.original_json == "{\"isActive\":true,\"expirationDate\":"@ + decimal(
                        expiration,
                    ) + "}"@
                    &&& p.signature.len() == 0
                    &&& p.original_id is None
                    &&& p.jws_representation is None
                }
        }),
{
    lemma_restored(licenses, moments, product_type, package_name);
    let purchases = restored(Ok(licenses), product_type, package_name, moments)->Ok_0;
    let is_active = |e: (Result<StoreLicenseView, WindowsErrorView>, MomentView)|
        e.0 is Ok && e.0->Ok_0.is_active is Ok && e.0->Ok_0.is_active->Ok_0;
    let pairs = Seq::new(licenses.len(), |i: int| (licenses[i], moments[i]));
    let active = pairs.filter(is_active);
    assert forall|k: int|
        #![trigger purchases[k]]
        #![trigger active[k]]
        0 <= k < purchases.len() implies {
        let p = purchases[k];
        let license = active[k].0->Ok_0;
        let moment = active[k].1;
        let expiration = datetime_millis(license.expiration_ticks->Ok_0 as int);
        &&& license.in_app_offer_token is Ok && license.sku_store_id is Ok
        &&& license.expiration_ticks is Ok
        &&& p.product_id == license.in_app_offer_token->Ok_0
        &&& p.package_name == package_name
        &&& p.purchase_state == PurchaseStateValue::Purchased
        &&& p.is_auto_renewing <==> product_type == "subs"@
        &&& p.is_acknowledged
        &&& product_type == "subs"@ && expiration > 0 ==> p.purchase_time + 30 * 24 * 60 * 60
            * 1000 == expiration
        &&& product_type != "subs"@ || expiration <= 0 ==> millis_at(moment.now) == Ok::<
            i64,
            ErrorView,
        >(p.purchase_time)
        &&& p.purchase_token == token_text(
            TokenView {
                v: 1,
                store_id: store_id_of(license.sku_store_id->Ok_0),
                purchase_time: p.purchase_time,
                nonce: moment.nonce,
            },
        )
        &&& p.order_id == Some(p.purchase_token)
        &&& p.original_json == "{\"isActive\":true,\"expirationDate\":"@ + decimal(expiration)
            + "}"@
        &&& p.signature.len() == 0
        &&& p.original_id is None
        &&& p.jws_representation is None
    } by {
        pairs.lemma_filter_pred(is_active, k);
        assert(is_active(active[k]));
        law_license_purchase(active[k].0->Ok_0, product_type, package_name, active[k].1);
    }
}

/// Whatever type is asked for, the same products are restored in the same order;
/// the type decides only whether a purchase renews itself and how it is dated.
pub proof fn law_restored_for_every_type(
    licenses: Seq<Result<StoreLicenseView, WindowsErrorView>>,
    moments: Seq<MomentView>,
    one: Seq<char>,
    other: Seq<char>,
    package_name: Seq<char>,
)
    requires
        moments.len() == licenses.len(),
        restored(Ok(licenses), one, package_name, moments) is Ok,
        restored(Ok(licenses), other, package_name, moments) is Ok,
    ensures
        ({
            let a = restored(Ok(licenses), one, package_name, moments)->Ok_0;
            let b = restored(Ok(licenses), other, package_name, moments)->Ok_0;
            &&& a.len() == b.len()
            &&& forall|k: int|
                #![trigger a[k]]
                #![trigger b[k]]
                0 <= k < a.len() ==> {
                    &&& a[k].product_id == b[k].product_id
                    &&& a[k].package_name == b[k].package_name
                    &&& a[k].purchase_state == b[k].purchase_state
                    &&& a[k].original_json == b[k].original_json
                    &&& one != "subs"@ && other != "subs"@ ==> a[k].purchase_time
                        == b[k].purchase_time && a[k].purchase_token == b[k].purchase_token
                        && a[k].is_auto_renewing == b[k].is_auto_renewing
                }
        }),
{
    law_restored_purchases(licenses, moments, one, package_name);
    law_restored_purchases(licenses, moments, other, package_name);
}

/// Restoring fails with the error of the list, or with that of the first license
/// that cannot be read or gives no purchase; an inactive license counts too.
pub proof fn law_restored_errors(
    licenses: Seq<Result<StoreLicenseView, WindowsErrorView>>,
    moments: Seq<MomentView>,
    product_type: Seq<char>,
    package_name: Seq<char>,
    unread: WindowsErrorView,
)
    requires
        moments.len() == licenses.len(),
    ensures
        restored(Err(unread), product_type, package_name, moments) is Err,
        restored(Err(unread), product_type, package_name, moments)->Err_0 == ErrorView::Windows(
            unread,
        ),
        ({
            let result = restored(Ok(licenses), product_type, package_name, moments);
            &&& result is Ok <==> forall|i: int|
                0 <= i < licenses.len() ==> (#[trigger] licenses[i]) is Ok && license_purchase(
                    licenses[i]->Ok_0,
                    product_type,
                    package_name,
                    moments[i],
                ) is Ok
            &&& result is Err ==> exists|i: int| {
                &&& 0 <= i < licenses.len()
                &&& (#[trigger] licenses[i]) is Err ==> result->Err_0 == ErrorView::Windows(
                    licenses[i]->Err_0,
                )
                &&& licenses[i] is Ok ==> license_purchase(
                    licenses[i]->Ok_0,
                    product_type,
                    package_name,
                    moments[i],
                ) == Err::<PurchaseView, ErrorView>(result->Err_0)
                &&& forall|j: int|
                    0 <= j < i ==> (#[trigger] licenses[j]) is Ok && license_purchase(
                        licenses[j]->Ok_0,
                        product_type,
                        package_name,
                        moments[j],
                    ) is Ok
            }
        }),
{
    let entries = timed(licenses, moments);
    let pick = restored_pick(product_type, package_name);
    let result = gather(entries, pick);
    law_gather_first_error(entries, pick);
    assert forall|i: int| 0 <= i < licenses.len() implies pick(#[trigger] entries[i]) is Ok == (
    licenses[i] is Ok && license_purchase(
        licenses[i]->Ok_0,
        product_type,
        package_name,
        moments[i],
    ) is Ok) by {}
    if result is Ok {
        assert forall|i: int| 0 <= i < licenses.len() implies (#[trigger] licenses[i]) is Ok
            && license_purchase(
            licenses[i]->Ok_0,
            product_type,
            package_name,
            moments[i],
        ) is Ok by {
            assert(pick(entries[i]) is Ok);
        }
    } else {
        let i = choose|i: int|
            0 <= i < entries.len() && pick(#[trigger] entries[i]) == Err::<
                Option<PurchaseView>,
                ErrorView,
            >(result->Err_0) && forall|j: int| 0 <= j < i ==> pick(#[trigger] entries[j]) is Ok;
        assert(pick(entries[i]) is Err);
        assert forall|j: int| 0 <= j < i implies (#[trigger] licenses[j]) is Ok && license_purchase(
            licenses[j]->Ok_0,
            product_type,
            package_name,
            moments[j],
        ) is Ok by {
            assert(pick(entries[j]) is Ok);
        }
        assert(entries[i] == (licenses[i], moments[i]));
    }
}

/// The status by a license, property by property. A product is owned, and its
/// purchase holds, exactly where the license is active, whatever the type is.
pub proof fn law_license_status(
    license: StoreLicenseView,
    product_id: Seq<char>,
    product_type: Seq<char>,
    nonce: u32,
)
    ensures
        ({
            let s = license_status(license, product_id, product_type, nonce);
            let active = license.is_active;
            let ticks = license.expiration_ticks;
            let sku = license.sku_store_id;
            &&& s is Ok <==> active is Ok && ticks is Ok && sku is Ok
            &&& active is Err ==> s is Err && s->Err_0 == ErrorView::Windows(active->Err_0)
            &&& active is Ok && ticks is Err ==> s is Err && s->Err_0 == ErrorView::Windows(
                ticks->Err_0,
            )
            &&& active is Ok && ticks is Ok && sku is Err ==> s is Err && s->Err_0
                == ErrorView::Windows(sku->Err_0)
            &&& s is Ok ==> {
                let status = s->Ok_0;
                let expiration = datetime_millis(ticks->Ok_0 as int);
                &&& status.product_id == product_id
                &&& status.is_owned <==> active->Ok_0
                &&& status.purchase_state == Some(PurchaseStateValue::Purchased) <==> active->Ok_0
                &&& status.purchase_state == Some(PurchaseStateValue::Canceled) <==> !active->Ok_0
                &&& status.purchase_time is Some
                &&& product_type == "subs"@ && expiration > 0 ==> status.purchase_time->Some_0 + 30
                    * 24 * 60 * 60 * 1000 == expiration
                &&& product_type != "subs"@ || expiration <= 0 ==> status.purchase_time->Some_0
                    == expiration
                &&& status.expiration_time is Some <==> expiration > 0
                &&& status.expiration_time is Some ==> status.expiration_time->Some_0 == expiration
                &&& status.is_auto_renewing is Some
                &&& status.is_auto_renewing->Some_0 <==> product_type == "subs"@ && active->Ok_0
                &&& status.is_acknowledged == Some(true)
                &&& status.purchase_token == Some(
                    token_text(
                        TokenView {
                            v: 1,
                            store_id: store_id_of(sku->Ok_0),
                            purchase_time: status.purchase_time->Some_0,
                            nonce,
                        },
                    ),
                )
            }
        }),
{
}

proof fn lemma_status_at(
    licenses: Seq<Result<StoreLicenseView, WindowsErrorView>>,
    place: int,
    from: int,
    product_id: Seq<char>,
    product_type: Seq<char>,
    nonce: u32,
)
    requires
        0 <= from <= place <= licenses.len(),
        forall|j: int|
            from <= j < place ==> (#[trigger] licenses[j]) is Ok
                && licenses[j]->Ok_0.in_app_offer_token is Ok
                && licenses[j]->Ok_0.in_app_offer_token->Ok_0 != product_id,
    ensures
        status_from(licenses, product_id, product_type, nonce, from) == status_from(
            licenses,
            product_id,
            product_type,
            nonce,
            place,
        ),
    decreases place - from,
{
    if from < place {
        assert(licenses[from] is Ok);
        lemma_status_at(licenses, place, from + 1, product_id, product_type, nonce);
    }
}

/// A product's status is that of the first license with its id, past licenses
/// with other ids: it is owned, and its purchase holds, exactly where that
/// license is active, whatever the type is.
pub proof fn law_status_by_first_license(
    licenses: Seq<Result<StoreLicenseView, WindowsErrorView>>,
    place: int,
    product_id: Seq<char>,
    product_type: Seq<char>,
    nonce: u32,
)
    requires
        0 <= place < licenses.len(),
        licenses[place] is Ok,
        licenses[place]->Ok_0.in_app_offer_token == Ok::<Seq<char>, WindowsErrorView>(product_id),
        forall|j: int|
            0 <= j < place ==> (#[trigger] licenses[j]) is Ok
                && licenses[j]->Ok_0.in_app_offer_token is Ok
                && licenses[j]->Ok_0.in_app_offer_token->Ok_0 != product_id,
    ensures
        ({
            let s = product_status(Ok(licenses), product_id, product_type, nonce);
            let license = licenses[place]->Ok_0;
            let active = license.is_active;
            let ticks = license.expiration_ticks;
            let sku = license.sku_store_id;
            &&& s is Ok <==> active is Ok && ticks is Ok && sku is Ok
            &&& active is Err ==> s->Err_0 == ErrorView::Windows(active->Err_0)
            &&& active is Ok && ticks is Err ==> s->Err_0 == ErrorView::Windows(ticks->Err_0)
            &&& active is Ok && ticks is Ok && sku is Err ==> s->Err_0 == ErrorView::Windows(
                sku->Err_0,
            )
            &&& s is Ok ==> {
                let status = s->Ok_0;
                let expiration = datetime_millis(ticks->Ok_0 as int);
                &&& status.product_id == product_id
                &&& status.is_owned <==> active->Ok_0
                &&& status.purchase_state == Some(PurchaseStateValue::Purchased) <==> active->Ok_0
                &&& status.purchase_state == Some(PurchaseStateValue::Canceled) <==> !active->Ok_0
                &&& status.purchase_time is Some
                &&& product_type == "subs"@ && expiration > 0 ==> status.purchase_time->Some_0 + 30
                    * 24 * 60 * 60 * 1000 == expiration
                &&& product_type != "subs"@ || expiration <= 0 ==> status.purchase_time->Some_0
                    == expiration
                &&& status.expiration_time is Some <==> expiration > 0
                &&& status.expiration_time is Some ==> status.expiration_time->Some_0 == expiration
                &&& status.is_auto_renewing is Some
                &&& status.is_auto_renewing->Some_0 <==> product_type == "subs"@ && active->Ok_0
                &&& status.is_acknowledged == Some(true)
                &&& status.purchase_token == Some(
                    token_text(
                        TokenView {
                            v: 1,
                            store_id: store_id_of(sku->Ok_0),
                            purchase_time: status.purchase_time->Some_0,
                            nonce,
                        },
                    ),
                )
            }
        }),
{
    lemma_status_at(licenses, place, 0, product_id, product_type, nonce);
    law_license_status(licenses[place]->Ok_0, product_id, product_type, nonce);
}

/// Where no license has the product's id, and all ids can be read, nothing is
/// owned and nothing else is told. A license that cannot be read, or whose id
/// cannot be, fails the search that comes to it.
pub proof fn law_status_without_license(
    licenses: Seq<Result<StoreLicenseView, WindowsErrorView>>,
    place: int,
    product_id: Seq<char>,
    product_type: Seq<char>,
    nonce: u32,
    unread: WindowsErrorView,
)
    requires
        0 <= place <= licenses.len(),
        forall|j: int|
            0 <= j < place ==> (#[trigger] licenses[j]) is Ok
                && licenses[j]->Ok_0.in_app_offer_token is Ok
                && licenses[j]->Ok_0.in_app_offer_token->Ok_0 != product_id,
    ensures
        product_status(Err(unread), product_id, product_type, nonce) == Err::<
            ProductStatusView,
            ErrorView,
        >(ErrorView::Windows(unread)),
        ({
            let s = product_status(Ok(licenses), product_id, product_type, nonce);
            &&& place < licenses.len() && licenses[place] is Err ==> s is Err && s->Err_0
                == ErrorView::Windows(licenses[place]->Err_0)
            &&& place < licenses.len() && licenses[place] is Ok
                && licenses[place]->Ok_0.in_app_offer_token is Err ==> s is Err && s->Err_0
                == ErrorView::Windows(licenses[place]->Ok_0.in_app_offer_token->Err_0)
            &&& place == licenses.len() ==> {
                &&& s is Ok
                &&& s->Ok_0.product_id == product_id
                &&& !s->Ok_0.is_owned
                &&& s->Ok_0.purchase_state is None
                &&& s->Ok_0.purchase_time is None
                &&& s->Ok_0.expiration_time is None
                &&& s->Ok_0.is_auto_renewing is None
                &&& s->Ok_0.is_acknowledged is None
                &&& s->Ok_0.purchase_token is None
            }
        }),
{
    lemma_status_at(licenses, place, 0, product_id, product_type, nonce);
}

/// The type that a status is asked for decides only whether it renews itself and
/// how its purchase is dated: ownership, state and expiration do not depend on
/// it.
pub proof fn law_status_for_every_type(
    licenses: Seq<Result<StoreLicenseView, WindowsErrorView>>,
    product_id: Seq<char>,
    one: Seq<char>,
    other: Seq<char>,
    nonce: u32,
)
    ensures
        ({
            let a = product_status(Ok(licenses), product_id, one, nonce);
            let b = product_status(Ok(licenses), product_id, other, nonce);
            &&& a is Ok <==> b is Ok
            &&& a is Err ==> a->Err_0 == b->Err_0
            &&& a is Ok ==> {
                &&& a->Ok_0.product_id == b->Ok_0.product_id
                &&& a->Ok_0.is_owned == b->Ok_0.is_owned
                &&& a->Ok_0.purchase_state == b->Ok_0.purchase_state
                &&& a->Ok_0.expiration_time == b->Ok_0.expiration_time
                &&& a->Ok_0.is_acknowledged == b->Ok_0.is_acknowledged
                &&& one != "subs"@ && other != "subs"@ ==> a->Ok_0.purchase_time
                    == b->Ok_0.purchase_time && a->Ok_0.is_auto_renewing == b->Ok_0.is_auto_renewing
                    && a->Ok_0.purchase_token == b->Ok_0.purchase_token
            }
        }),
{
    lemma_status_for_every_type(licenses, product_id, one, other, nonce, 0);
}

proof fn lemma_status_for_every_type(
    licenses: Seq<Result<StoreLicenseView, WindowsErrorView>>,
    product_id: Seq<char>,
    one: Seq<char>,
    other: Seq<char>,
    nonce: u32,
    from: int,
)
    requires
        0 <= from,
    ensures
        ({
            let a = status_from(licenses, product_id, one, nonce, from);
            let b = status_from(licenses, product_id, other, nonce, from);
            &&& a is Ok <==> b is Ok
            &&& a is Err ==> a->Err_0 == b->Err_0
            &&& a is Ok ==> {
                &&& a->Ok_0.product_id == b->Ok_0.product_id
                &&& a->Ok_0.is_owned == b->Ok_0.is_owned
                &&& a->Ok_0.purchase_state == b->Ok_0.purchase_state
                &&& a->Ok_0.expiration_time == b->Ok_0.expiration_time
                &&& a->Ok_0.is_acknowledged == b->Ok_0.is_acknowledged
                &&& one != "subs"@ && other != "subs"@ ==> a->Ok_0.purchase_time
                    == b->Ok_0.purchase_time && a->Ok_0.is_auto_renewing == b->Ok_0.is_auto_renewing
                    && a->Ok_0.purchase_token == b->Ok_0.purchase_token
            }
        }),
    decreases licenses.len() - from,
{
    if from < licenses.len() {
        lemma_status_for_every_type(licenses, product_id, one, other, nonce, from + 1);
    }
}

/// Where purchases can be restored, a product whose first license is active has a
/// status, and by it is owned; whatever type is asked for. A product whose first
/// license is not active is not owned.
pub proof fn law_restored_is_owned(
    licenses: Seq<Result<StoreLicenseView, WindowsErrorView>>,
    moments: Seq<MomentView>,
    place: int,
    product_type: Seq<char>,
    asked_type: Seq<char>,
    package_name: Seq<char>,
    nonce: u32,
)
    requires
        moments.len() == licenses.len(),
        restored(Ok(licenses), product_type, package_name, moments) is Ok,
        0 <= place < licenses.len(),
        forall|j: int|
            0 <= j < place ==> (#[trigger] licenses[j])->Ok_0.in_app_offer_token
                != licenses[place]->Ok_0.in_app_offer_token,
    ensures
        ({
            let license = licenses[place]->Ok_0;
            let s = product_status(
                Ok(licenses),
                license.in_app_offer_token->Ok_0,
                asked_type,
                nonce,
            );
            &&& licenses[place] is Ok && license.in_app_offer_token is Ok && license.is_active is Ok
            &&& s is Ok
            &&& s->Ok_0.is_owned <==> license.is_active->Ok_0
            &&& s->Ok_0.purchase_state == Some(PurchaseStateValue::Purchased)
                <==> license.is_active->Ok_0
        }),
{
    let some_error = WindowsErrorView { code: 0, message: Seq::empty() };
    law_restored_errors(licenses, moments, product_type, package_name, some_error);
    assert forall|j: int| 0 <= j < licenses.len() implies (#[trigger] licenses[j]) is Ok
        && licenses[j]->Ok_0.in_app_offer_token is Ok && licenses[j]->Ok_0.is_active is Ok
        && licenses[j]->Ok_0.expiration_ticks is Ok && licenses[j]->Ok_0.sku_store_id is Ok by {
        law_license_purchase(licenses[j]->Ok_0, product_type, package_name, moments[j]);
    }
    law_status_by_first_license(
        licenses,
        place,
        licenses[place]->Ok_0.in_app_offer_token->Ok_0,
        asked_type,
        nonce,
    );
}

} // verus!
