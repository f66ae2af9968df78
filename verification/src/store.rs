//! What the Microsoft Store hands over, as plain values.
//!
//! Each property of a Store object is held as what reading it gave: its value,
//! or the error of the read.

use crate::error::optional_text;
use crate::error::reading;
use crate::error::readings;
use crate::error::Read;
use crate::error::WindowsErrorView;
use vstd::prelude::*;

verus! {

/// How long one billing period of a subscription lasts.
#[derive(Debug)]
pub struct SubscriptionInfo {
    pub billing_period: Read<u32>,
    pub billing_period_unit: Read<i32>,
}

/// One way to buy a product. `subscription_info` is an error where there is no
/// subscription behind it.
#[derive(Debug)]
pub struct StoreSku {
    pub subscription_info: Read<SubscriptionInfo>,
    pub formatted_price: Read<String>,
}

/// A product of the Store. `in_app_offer_token` is the developer's id of it,
/// `store_id` the Store's own; `base_price_micros` is the number in the formatted
/// base price, in millionths.
#[derive(Debug)]
pub struct StoreProduct {
    pub in_app_offer_token: Read<String>,
    pub title: Read<String>,
    pub description: Read<String>,
    pub formatted_price: Read<String>,
    pub currency_code: Read<String>,
    pub base_price_micros: Read<i64>,
    pub skus: Read<Vec<Read<StoreSku>>>,
    pub store_id: Read<String>,
}

/// A license for an add-on. `expiration_ticks` counts units of 100 nanoseconds
/// since the start of 1601.
#[derive(Debug)]
pub struct StoreLicense {
    pub in_app_offer_token: Read<String>,
    pub sku_store_id: Read<String>,
    pub is_active: Read<bool>,
    pub expiration_ticks: Read<i64>,
}

/// A result code of Windows, with the system's message for it.
#[derive(Debug)]
pub struct StoreStatus {
    pub code: i32,
    pub message: String,
}

/// The Store's answer to a query for products. The products stand in the order
/// in which the Store lists them; a list that broke off ends in an error.
#[derive(Debug)]
pub struct StoreQueryReply {
    pub extended_error: Read<StoreStatus>,
    pub products: Read<Vec<Read<StoreProduct>>>,
}

/// The Store's answer to a request to purchase. `extended_error_message` is
/// missing where the extended error could not be read.
#[derive(Debug)]
pub struct PurchaseReply {
    pub status: Read<i32>,
    pub extended_error_message: Option<String>,
}

/// The contents of a [`SubscriptionInfo`].
pub struct SubscriptionInfoView {
    pub billing_period: Result<u32, WindowsErrorView>,
    pub billing_period_unit: Result<i32, WindowsErrorView>,
}

/// The contents of a [`StoreSku`].
pub struct StoreSkuView {
    pub subscription_info: Result<SubscriptionInfoView, WindowsErrorView>,
    pub formatted_price: Result<Seq<char>, WindowsErrorView>,
}

/// The contents of a [`StoreProduct`].
pub struct StoreProductView {
    pub in_app_offer_token: Result<Seq<char>, WindowsErrorView>,
    pub title: Result<Seq<char>, WindowsErrorView>,
    pub description: Result<Seq<char>, WindowsErrorView>,
    pub formatted_price: Result<Seq<char>, WindowsErrorView>,
    pub currency_code: Result<Seq<char>, WindowsErrorView>,
    pub base_price_micros: Result<i64, WindowsErrorView>,
    pub skus: Result<Seq<Result<StoreSkuView, WindowsErrorView>>, WindowsErrorView>,
    pub store_id: Result<Seq<char>, WindowsErrorView>,
}

/// The contents of a [`StoreLicense`].
pub struct StoreLicenseView {
    pub in_app_offer_token: Result<Seq<char>, WindowsErrorView>,
    pub sku_store_id: Result<Seq<char>, WindowsErrorView>,
    pub is_active: Result<bool, WindowsErrorView>,
    pub expiration_ticks: Result<i64, WindowsErrorView>,
}

/// The contents of a [`StoreStatus`].
pub struct StoreStatusView {
    pub code: i32,
    pub message: Seq<char>,
}

/// The contents of a [`StoreQueryReply`].
pub struct StoreQueryReplyView {
    pub extended_error: Result<StoreStatusView, WindowsErrorView>,
    pub products: Result<Seq<Result<StoreProductView, WindowsErrorView>>, WindowsErrorView>,
}

/// The contents of a [`PurchaseReply`].
pub struct PurchaseReplyView {
    pub status: Result<i32, WindowsErrorView>,
    pub extended_error_message: Option<Seq<char>>,
}

/// What was read of a list, as the contents of what was read of each item.
pub open spec fn listing<T: View>(list: Read<Vec<Read<T>>>) -> Result<
    Seq<Result<T::V, WindowsErrorView>>,
    WindowsErrorView,
> {
    match list {
        Ok(items) => Ok(readings(items@)),
        Err(error) => Err(error@),
    }
}

impl View for SubscriptionInfo {
    type V = SubscriptionInfoView;

    open spec fn view(&self) -> SubscriptionInfoView {
        SubscriptionInfoView {
            billing_period: reading(self.billing_period),
            billing_period_unit: reading(self.billing_period_unit),
        }
    }
}

impl View for StoreSku {
    type V = StoreSkuView;

    open spec fn view(&self) -> StoreSkuView {
        StoreSkuView {
            subscription_info: reading(self.subscription_info),
            formatted_price: reading(self.formatted_price),
        }
    }
}

impl View for StoreProduct {
    type V = StoreProductView;

    open spec fn view(&self) -> StoreProductView {
        StoreProductView {
            in_app_offer_token: reading(self.in_app_offer_token),
            title: reading(self.title),
            description: reading(self.description),
            formatted_price: reading(self.formatted_price),
            currency_code: reading(self.currency_code),
            base_price_micros: reading(self.base_price_micros),
            skus: listing(self.skus),
            store_id: reading(self.store_id),
        }
    }
}

impl View for StoreLicense {
    type V = StoreLicenseView;

    open spec fn view(&self) -> StoreLicenseView {
        StoreLicenseView {
            in_app_offer_token: reading(self.in_app_offer_token),
            sku_store_id: reading(self.sku_store_id),
            is_active: reading(self.is_active),
            expiration_ticks: reading(self.expiration_ticks),
        }
    }
}

impl View for StoreStatus {
    type V = StoreStatusView;

    open spec fn view(&self) -> StoreStatusView {
        StoreStatusView { code: self.code, message: self.message@ }
    }
}

impl View for StoreQueryReply {
    type V = StoreQueryReplyView;

    open spec fn view(&self) -> StoreQueryReplyView {
        StoreQueryReplyView {
            extended_error: reading(self.extended_error),
            products: listing(self.products),
        }
    }
}

impl View for PurchaseReply {
    type V = PurchaseReplyView;

    open spec fn view(&self) -> PurchaseReplyView {
        PurchaseReplyView {
            status: reading(self.status),
            extended_error_message: optional_text(self.extended_error_message),
        }
    }
}

/// What was read of a list keeps its items one for one and in order, each with
/// what was read of it.
pub proof fn law_listing<T: View>(list: Read<Vec<Read<T>>>)
    ensures
        listing(list) is Ok <==> list is Ok,
        list matches Err(error) ==> listing(list)->Err_0 == error@,
        list matches Ok(items) ==> {
            &&& listing(list)->Ok_0.len() == items@.len()
            &&& forall|i: int|
                0 <= i < items@.len() ==> {
                    let entry = #[trigger] listing(list)->Ok_0[i];
                    &&& entry is Ok <==> items@[i] is Ok
                    &&& items@[i] is Ok ==> entry->Ok_0 == items@[i]->Ok_0@
                    &&& items@[i] is Err ==> entry->Err_0 == items@[i]->Err_0@
                }
        },
{
}

/// Each property that was read of a product, a SKU and its subscription stands in
/// the contents as it was read.
pub proof fn law_store_product_contents(p: StoreProduct, sku: StoreSku, info: SubscriptionInfo)
    ensures
        p@.in_app_offer_token == reading(p.in_app_offer_token),
        p@.title == reading(p.title),
        p@.description == reading(p.description),
        p@.formatted_price == reading(p.formatted_price),
        p@.currency_code == reading(p.currency_code),
        p@.base_price_micros == reading(p.base_price_micros),
        p@.skus == listing(p.skus),
        p@.store_id == reading(p.store_id),
        sku@.subscription_info == reading(sku.subscription_info),
        sku@.formatted_price == reading(sku.formatted_price),
        info@.billing_period == reading(info.billing_period),
        info@.billing_period_unit == reading(info.billing_period_unit),
{
}

/// Each property that was read of a license and of the Store's answers stands in
/// the contents as it was read.
pub proof fn law_store_answer_contents(
    license: StoreLicense,
    status: StoreStatus,
    query: StoreQueryReply,
    purchase: PurchaseReply,
)
    ensures
        license@.in_app_offer_token == reading(license.in_app_offer_token),
        license@.sku_store_id == reading(license.sku_store_id),
        license@.is_active == reading(license.is_active),
        license@.expiration_ticks == reading(license.expiration_ticks),
        status@.code == status.code,
        status@.message == status.message@,
        query@.extended_error == reading(query.extended_error),
        query@.products == listing(query.products),
        purchase@.status == reading(purchase.status),
        purchase@.extended_error_message is Some <==> purchase.extended_error_message is Some,
        purchase.extended_error_message matches Some(text) ==> purchase@.extended_error_message
            == Some(text@),
{
}

} // verus!
