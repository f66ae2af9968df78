//! Licenses for add-ons: restoring purchases from them and telling what is
//! owned.

use crate::clock::clock_contents;
use crate::clock::clock_reading;
use crate::clock::datetime_millis;
use crate::clock::millis_at;
use crate::clock::read_clock;
use crate::clock::UnixTime;
use crate::error::contents;
use crate::error::outcome;
use crate::error::read_text;
use crate::error::read_value;
use crate::error::reading;
use crate::error::readings;
use crate::error::Error;
use crate::error::ErrorView;
use crate::error::Read;
use crate::error::WindowsErrorView;
use crate::iap::Iap;
use crate::models::ProductStatus;
use crate::models::ProductStatusView;
use crate::models::Purchase;
use crate::models::PurchaseStateValue;
use crate::models::PurchaseView;
use crate::models::RestorePurchasesResponse;
use crate::store::listing;
use crate::store::StoreLicense;
use crate::store::StoreLicenseView;
use crate::text::blank;
use crate::text::decimal;
use crate::text::push_decimal;
use crate::text::text_eq;
use crate::token::law_token_text_injective;
use crate::token::token_text;
use crate::token::token_valid;
use crate::token::TokenView;
use crate::token::WindowsPurchaseTokenV1;
use crate::walk::gather;
use crate::walk::lemma_gather_failed;
use vstd::prelude::*;
use vstd::string::StrSliceExecFns;
use vstd::string::StringExecFns;

verus! {

/// Thirty days in milliseconds.
pub const THIRTY_DAYS_MILLIS: i64 = 2_592_000_000;

/// What the clock gave for one purchase: the time, and the nonce of its token.
#[derive(Debug)]
pub struct Moment {
    pub now: Result<UnixTime, String>,
    pub nonce: u32,
}

/// The contents of a [`Moment`].
pub struct MomentView {
    pub now: Result<UnixTime, Seq<char>>,
    pub nonce: u32,
}

impl View for Moment {
    type V = MomentView;

    open spec fn view(&self) -> MomentView {
        MomentView { now: clock_contents(self.now), nonce: self.nonce }
    }
}

/// Moments that the system clock can give.
pub open spec fn clock_moment(moment: MomentView) -> bool {
    clock_reading(moment.now) && moment.nonce < 1_000_000_000
}

/// The product's Store id in a SKU's Store id: what stands before the first
/// slash, or the whole text if nothing does.
pub open spec fn store_id_of(sku_store_id: Seq<char>) -> Seq<char> {
    if sku_store_id.contains('/') && sku_store_id[0] != '/' {
        sku_store_id.take(sku_store_id.index_of_first('/')->Some_0)
    } else {
        sku_store_id
    }
}

/// The token of a purchase of a product.
pub open spec fn purchase_token(store_id: Seq<char>, purchase_time: i64, nonce: u32) -> Seq<char> {
    token_text(TokenView { v: 1, store_id, purchase_time, nonce })
}

/// When a license was bought, as far as it tells: a subscription that expires is
/// taken for a monthly one that was bought thirty days before.
pub open spec fn estimated_purchase_time(product_type: Seq<char>, expiration: int) -> Option<int> {
    if product_type == "subs"@ && expiration > 0 {
        Some(expiration - 2_592_000_000)
    } else {
        None
    }
}

/// The state of a purchase by its license.
pub open spec fn state_of(is_active: bool) -> PurchaseStateValue {
    if is_active {
        PurchaseStateValue::Purchased
    } else {
        PurchaseStateValue::Canceled
    }
}

/// What a license says, as a JSON object.
pub open spec fn license_json(is_active: bool, expiration: int) -> Seq<char> {
    "{\"isActive\":"@ + (if is_active {
        "true"@
    } else {
        "false"@
    }) + ",\"expirationDate\":"@ + decimal(expiration) + "}"@
}

/// When the product of a license was bought: as estimated, else now.
pub open spec fn license_purchase_time(
    product_type: Seq<char>,
    expiration: int,
    now: Result<UnixTime, Seq<char>>,
) -> Result<i64, ErrorView> {
    match estimated_purchase_time(product_type, expiration) {
        Some(time) => Ok(time as i64),
        None => millis_at(now),
    }
}

/// The purchase behind a license. The first property that cannot be read gives
/// the error.
pub open spec fn license_purchase(
    license: StoreLicenseView,
    product_type: Seq<char>,
    package_name: Seq<char>,
    moment: MomentView,
) -> Result<PurchaseView, ErrorView> {
    match (
        license.in_app_offer_token,
        license.sku_store_id,
        license.is_active,
        license.expiration_ticks,
    ) {
        (Err(error), _, _, _) => Err(ErrorView::Windows(error)),
        (_, Err(error), _, _) => Err(ErrorView::Windows(error)),
        (_, _, Err(error), _) => Err(ErrorView::Windows(error)),
        (_, _, _, Err(error)) => Err(ErrorView::Windows(error)),
        (Ok(product_id), Ok(sku_store_id), Ok(is_active), Ok(ticks)) => {
            let expiration = datetime_millis(ticks as int);
            match license_purchase_time(product_type, expiration, moment.now) {
                Err(error) => Err(error),
                Ok(purchase_time) => {
                    let token = purchase_token(
                        store_id_of(sku_store_id),
                        purchase_time,
                        moment.nonce,
                    );
                    Ok(
                        PurchaseView {
                            order_id: Some(token),
                            package_name,
                            product_id,
                            purchase_time,
                            purchase_token: token,
                            purchase_state: state_of(is_active),
                            is_auto_renewing: product_type == "subs"@ && is_active,
                            is_acknowledged: true,
                            original_json: license_json(is_active, expiration),
                            signature: Seq::empty(),
                            original_id: None,
                            jws_representation: None,
                        },
                    )
                },
            }
        },
    }
}

/// The status of a product by its license. The first property that cannot be
/// read gives the error.
pub open spec fn license_status(
    license: StoreLicenseView,
    product_id: Seq<char>,
    product_type: Seq<char>,
    nonce: u32,
) -> Result<ProductStatusView, ErrorView> {
    match (license.is_active, license.expiration_ticks, license.sku_store_id) {
        (Err(error), _, _) => Err(ErrorView::Windows(error)),
        (_, Err(error), _) => Err(ErrorView::Windows(error)),
        (_, _, Err(error)) => Err(ErrorView::Windows(error)),
        (Ok(is_active), Ok(ticks), Ok(sku_store_id)) => {
            let expiration = datetime_millis(ticks as int);
            let purchase_time = match estimated_purchase_time(product_type, expiration) {
                Some(time) => time as i64,
                None => expiration as i64,
            };
            Ok(
                ProductStatusView {
                    product_id,
                    is_owned: is_active,
                    purchase_state: Some(state_of(is_active)),
                    purchase_time: Some(purchase_time),
                    expiration_time: if expiration > 0 {
                        Some(expiration as i64)
                    } else {
                        None
                    },
                    is_auto_renewing: Some(product_type == "subs"@ && is_active),
                    is_acknowledged: Some(true),
                    purchase_token: Some(
                        purchase_token(store_id_of(sku_store_id), purchase_time, nonce),
                    ),
                },
            )
        },
    }
}

/// The status of a product for which there is no license.
pub open spec fn not_owned(product_id: Seq<char>) -> ProductStatusView {
    ProductStatusView {
        product_id,
        is_owned: false,
        purchase_state: None,
        purchase_time: None,
        expiration_time: None,
        is_auto_renewing: None,
        is_acknowledged: None,
        purchase_token: None,
    }
}

/// The status of a product by the first of its licenses from place `from` on.
/// What cannot be read on the way there fails the search.
pub open spec fn status_from(
    licenses: Seq<Result<StoreLicenseView, WindowsErrorView>>,
    product_id: Seq<char>,
    product_type: Seq<char>,
    nonce: u32,
    from: int,
) -> Result<ProductStatusView, ErrorView>
    decreases licenses.len() - from,
{
    if from < 0 || from >= licenses.len() {
        Ok(not_owned(product_id))
    } else {
        match licenses[from] {
            Err(error) => Err(ErrorView::Windows(error)),
            Ok(license) => match license.in_app_offer_token {
                Err(error) => Err(ErrorView::Windows(error)),
                Ok(id) => if id == product_id {
                    license_status(license, product_id, product_type, nonce)
                } else {
                    status_from(licenses, product_id, product_type, nonce, from + 1)
                },
            },
        }
    }
}

/// The status of a product by the list of licenses.
pub open spec fn product_status(
    licenses: Result<Seq<Result<StoreLicenseView, WindowsErrorView>>, WindowsErrorView>,
    product_id: Seq<char>,
    product_type: Seq<char>,
    nonce: u32,
) -> Result<ProductStatusView, ErrorView> {
    match licenses {
        Err(error) => Err(ErrorView::Windows(error)),
        Ok(licenses) => status_from(licenses, product_id, product_type, nonce, 0),
    }
}

/// What an entry of the list of licenses adds to the restored purchases: its
/// purchase if it holds.
pub open spec fn restored_pick(product_type: Seq<char>, package_name: Seq<char>) -> spec_fn(
    (Result<StoreLicenseView, WindowsErrorView>, MomentView),
) -> Result<Option<PurchaseView>, ErrorView> {
    |entry: (Result<StoreLicenseView, WindowsErrorView>, MomentView)|
        match entry.0 {
            Err(error) => Err(ErrorView::Windows(error)),
            Ok(license) => match license_purchase(license, product_type, package_name, entry.1) {
                Err(error) => Err(error),
                Ok(purchase) => if purchase.purchase_state == PurchaseStateValue::Purchased {
                    Ok(Some(purchase))
                } else {
                    Ok(None)
                },
            },
        }
}

/// Each license with the moment at which it is looked at.
pub open spec fn timed(
    licenses: Seq<Result<StoreLicenseView, WindowsErrorView>>,
    moments: Seq<MomentView>,
) -> Seq<(Result<StoreLicenseView, WindowsErrorView>, MomentView)> {
    Seq::new(licenses.len(), |i: int| (licenses[i], moments[i]))
}

/// The purchases that hold, by the list of licenses and the moments at which
/// they are looked at.
pub open spec fn restored(
    licenses: Result<Seq<Result<StoreLicenseView, WindowsErrorView>>, WindowsErrorView>,
    product_type: Seq<char>,
    package_name: Seq<char>,
    moments: Seq<MomentView>,
) -> Result<Seq<PurchaseView>, ErrorView> {
    match licenses {
        Err(error) => Err(ErrorView::Windows(error)),
        Ok(licenses) => gather(
            timed(licenses, moments),
            restored_pick(product_type, package_name),
        ),
    }
}

/// A number of moments that the system clock can give.
pub open spec fn clock_moments(moments: Seq<MomentView>, count: nat) -> bool {
    &&& moments.len() == count
    &&& forall|i: int| 0 <= i < moments.len() ==> clock_moment(#[trigger] moments[i])
}

/// The number of entries in what was read of a list.
pub open spec fn entry_count(
    licenses: Result<Seq<Result<StoreLicenseView, WindowsErrorView>>, WindowsErrorView>,
) -> nat {
    match licenses {
        Ok(entries) => entries.len(),
        Err(_) => 0,
    }
}

impl Iap {
    /// The product's Store id in a SKU's Store id such as `9NXXXX/000N`.
    pub fn store_id_from_sku_store_id(sku_store_id: &str) -> (store_id: String)
        ensures
            store_id@ == store_id_of(sku_store_id@),
    {
        let count: usize = sku_store_id.unicode_len();
        let mut k: usize = 0;
        while k < count && sku_store_id.get_char(k) != '/'
            invariant
                count == sku_store_id@.len(),
                k <= count,
                forall|i: int| 0 <= i < k ==> sku_store_id@[i] != '/',
            decreases count - k,
        {
            k = k + 1;
        }
        proof {
            sku_store_id@.index_of_first_ensures('/');
        }
        if k == 0 || k == count {
            sku_store_id.to_owned()
        } else {
            sku_store_id.substring_char(0, k).to_owned()
        }
    }

    /// The token of a purchase of a product, with a given nonce.
    pub fn purchase_token_with_nonce(store_id: String, purchase_time: i64, nonce: u32) -> (token:
        Result<String, Error>)
        ensures
            token is Ok,
            token->Ok_0@ == purchase_token(store_id@, purchase_time, nonce),
    {
        WindowsPurchaseTokenV1 { v: 1, store_id, purchase_time, nonce }.encode()
    }

    /// The token of a purchase of a product. Its nonce is the clock's part below
    /// a second, so that two purchases in one millisecond still differ.
    pub fn purchase_token_for_store_id(store_id: String, purchase_time: i64) -> (token: Result<
        String,
        Error,
    >)
        ensures
            token is Ok,
            exists|nonce: u32|
                nonce < 1_000_000_000 && token->Ok_0@ == #[trigger] purchase_token(
                    store_id@,
                    purchase_time,
                    nonce,
                ),
    {
        let reading = read_clock();
        let nonce = Self::nonce_of(&reading);
        Self::purchase_token_with_nonce(store_id, purchase_time, nonce)
    }

    /// Reads the clock for one purchase.
    pub fn read_moment() -> (moment: Moment)
        ensures
            clock_moment(moment@),
    {
        let now = read_clock();
        let reading = read_clock();
        Moment { now, nonce: Self::nonce_of(&reading) }
    }

    /// When the product of a license was bought, as far as the license tells.
    pub fn estimate_purchase_time(product_type: &str, expiration_millis: i64) -> (time: Option<i64>)
        ensures
            (match time {
                Some(t) => Some(t as int),
                None => None,
            }) == estimated_purchase_time(product_type@, expiration_millis as int),
    {
        if text_eq(product_type, "subs") && expiration_millis > 0 {
            Some(expiration_millis - THIRTY_DAYS_MILLIS)
        } else {
            None
        }
    }

    /// The state of a purchase by its license.
    pub fn license_state(is_active: bool) -> (state: PurchaseStateValue)
        ensures
            state == state_of(is_active),
    {
        if is_active {
            PurchaseStateValue::Purchased
        } else {
            PurchaseStateValue::Canceled
        }
    }

    /// What a license says, as a JSON object.
    pub fn license_json_text(is_active: bool, expiration_millis: i64) -> (json: String)
        ensures
            json@ == license_json(is_active, expiration_millis as int),
    {
        let mut json = "{\"isActive\":".to_owned();
        if is_active {
            json.append("true");
        } else {
            json.append("false");
        }
        json.append(",\"expirationDate\":");
        push_decimal(&mut json, expiration_millis);
        json.append("}");
        json
    }

    /// The purchase behind a license, by what the clock gave.
    pub fn license_to_purchase_at(
        &self,
        license: &StoreLicense,
        product_type: &str,
        moment: &Moment,
    ) -> (purchase: Result<Purchase, Error>)
        ensures
            outcome(purchase) == license_purchase(
                license@,
                product_type@,
                self.package_name@,
                moment@,
            ),
            purchase matches Ok(p) ==> {
                &&& license.is_active is Ok
                &&& p.purchase_state == PurchaseStateValue::Purchased <==> license.is_active->Ok_0
                &&& p.is_auto_renewing <==> product_type@ == "subs"@ && license.is_active->Ok_0
                &&& p.package_name@ == self.package_name@
                &&& Ok::<Seq<char>, WindowsErrorView>(p.product_id@) == reading(
                    license.in_app_offer_token,
                )
                &&& product_type@ != "subs"@ ==> millis_at(moment@.now) == Ok::<i64, ErrorView>(
                    p.purchase_time,
                )
            },
    {
        let product_id = match read_text(&license.in_app_offer_token) {
            Ok(text) => text,
            Err(error) => return Err(error),
        };
        let sku_store_id = match read_text(&license.sku_store_id) {
            Ok(text) => text,
            Err(error) => return Err(error),
        };
        let store_id = Self::store_id_from_sku_store_id(sku_store_id.as_str());
        let is_active: bool = match read_value(&license.is_active) {
            Ok(active) => active,
            Err(error) => return Err(error),
        };
        let expiration_ticks: i64 = match read_value(&license.expiration_ticks) {
            Ok(ticks) => ticks,
            Err(error) => return Err(error),
        };
        let expiration_millis: i64 = Self::datetime_to_unix_millis(expiration_ticks);

        let purchase_time: i64 = match Self::estimate_purchase_time(
            product_type,
            expiration_millis,
        ) {
            Some(time) => time,
            None => match Self::millis_of(&moment.now) {
                Ok(millis) => millis,
                Err(error) => return Err(error),
            },
        };
        let token = match Self::purchase_token_with_nonce(store_id, purchase_time, moment.nonce) {
            Ok(token) => token,
            Err(error) => return Err(error),
        };

        Ok(
            Purchase {
                order_id: Some(token.clone()),
                package_name: self.package_name.clone(),
                product_id,
                purchase_time,
                purchase_token: token,
                purchase_state: Self::license_state(is_active),
                is_auto_renewing: text_eq(product_type, "subs") && is_active,
                is_acknowledged: true,
                original_json: Self::license_json_text(is_active, expiration_millis),
                signature: String::new(),
                original_id: None,
                jws_representation: None,
            },
        )
    }

    /// The purchase behind a license. The clock is read on the way; what becomes
    /// of its readings is stated for every one.
    pub fn convert_license_to_purchase(&self, license: &StoreLicense, product_type: &str) -> (
    purchase: Result<Purchase, Error>)
        ensures
            exists|moment: MomentView| #[trigger]
                clock_moment(moment) && outcome(purchase) == license_purchase(
                    license@,
                    product_type@,
                    self.package_name@,
                    moment,
                ),
            purchase matches Ok(p) ==> {
                &&& license.is_active is Ok
                &&& p.purchase_state == PurchaseStateValue::Purchased <==> license.is_active->Ok_0
                &&& p.is_auto_renewing <==> product_type@ == "subs"@ && license.is_active->Ok_0
                &&& p.package_name@ == self.package_name@
                &&& Ok::<Seq<char>, WindowsErrorView>(p.product_id@) == reading(
                    license.in_app_offer_token,
                )
            },
    {
        let moment = Self::read_moment();
        self.license_to_purchase_at(license, product_type, &moment)
    }

    /// The status of a product by its license, with a given nonce.
    pub fn license_to_product_status_with_nonce(
        license: &StoreLicense,
        product_id: String,
        product_type: &str,
        nonce: u32,
    ) -> (status: Result<ProductStatus, Error>)
        ensures
            outcome(status) == license_status(license@, product_id@, product_type@, nonce),
            status matches Ok(s) ==> {
                &&& license.is_active is Ok
                &&& s.product_id@ == product_id@
                &&& s.is_owned <==> license.is_active->Ok_0
                &&& s.purchase_state == Some(PurchaseStateValue::Purchased)
                    <==> license.is_active->Ok_0
                &&& s.is_auto_renewing == Some(
                    product_type@ == "subs"@ && license.is_active->Ok_0,
                )
            },
    {
        let is_active: bool = match read_value(&license.is_active) {
            Ok(active) => active,
            Err(error) => return Err(error),
        };
        let expiration_ticks: i64 = match read_value(&license.expiration_ticks) {
            Ok(ticks) => ticks,
            Err(error) => return Err(error),
        };
        let expiration_time: i64 = Self::datetime_to_unix_millis(expiration_ticks);
        let sku_store_id = match read_text(&license.sku_store_id) {
            Ok(text) => text,
            Err(error) => return Err(error),
        };
        let store_id = Self::store_id_from_sku_store_id(sku_store_id.as_str());

        let purchase_time: i64 = match Self::estimate_purchase_time(product_type, expiration_time) {
            Some(time) => time,
            None => expiration_time,
        };
        let token = match Self::purchase_token_with_nonce(store_id, purchase_time, nonce) {
            Ok(token) => token,
            Err(error) => return Err(error),
        };

        Ok(
            ProductStatus {
                product_id,
                is_owned: is_active,
                purchase_state: Some(Self::license_state(is_active)),
                purchase_time: Some(purchase_time),
                expiration_time: if expiration_time > 0 {
                    Some(expiration_time)
                } else {
                    None
                },
                is_auto_renewing: Some(text_eq(product_type, "subs") && is_active),
                is_acknowledged: Some(true),
                purchase_token: Some(token),
            },
        )
    }

    /// The status of a product by its license. The token's nonce is the clock's.
    pub fn convert_license_to_product_status(
        license: &StoreLicense,
        product_id: String,
        product_type: &str,
    ) -> (status: Result<ProductStatus, Error>)
        ensures
            exists|nonce: u32|
                nonce < 1_000_000_000 && outcome(status) == #[trigger] license_status(
                    license@,
                    product_id@,
                    product_type@,
                    nonce,
                ),
            status matches Ok(s) ==> {
                &&& license.is_active is Ok
                &&& s.product_id@ == product_id@
                &&& s.is_owned <==> license.is_active->Ok_0
                &&& s.purchase_state == Some(PurchaseStateValue::Purchased)
                    <==> license.is_active->Ok_0
                &&& s.is_auto_renewing == Some(
                    product_type@ == "subs"@ && license.is_active->Ok_0,
                )
            },
    {
        let reading = read_clock();
        let nonce = Self::nonce_of(&reading);
        Self::license_to_product_status_with_nonce(license, product_id, product_type, nonce)
    }

    /// The purchases that hold, in the order of their licenses. The clock is read
    /// for each license; what becomes of its readings is stated for every one.
    pub fn restore_purchases(
        &self,
        licenses: Read<Vec<Read<StoreLicense>>>,
        product_type: String,
    ) -> (response: Result<RestorePurchasesResponse, Error>)
        ensures
            exists|moments: Seq<MomentView>| #[trigger]
                clock_moments(moments, entry_count(listing(licenses))) && outcome(response)
                    == restored(
                    listing(licenses),
                    product_type@,
                    self.package_name@,
                    moments,
                ),
            response matches Ok(r) ==> forall|k: int|
                0 <= k < r.purchases@.len() ==> {
                    &&& (#[trigger] r.purchases@[k]).purchase_state == PurchaseStateValue::Purchased
                    &&& r.purchases@[k].is_auto_renewing <==> product_type@ == "subs"@
                    &&& r.purchases@[k].package_name@ == self.package_name@
                },
            response matches Ok(r) ==> {
                let active = listing(licenses)->Ok_0.filter(
                    |e: Result<StoreLicenseView, WindowsErrorView>| active_entry(e),
                );
                &&& licenses is Ok
                &&& r.purchases@.len() == active.len()
                &&& forall|k: int|
                    0 <= k < active.len() ==> (#[trigger] r.purchases@[k]).product_id@
                        == active[k]->Ok_0.in_app_offer_token->Ok_0
            },
    {
        match licenses {
            Ok(list) => {
                let response = self.restore_licenses(&list, product_type.as_str());
                proof {
                    let moments = choose|moments: Seq<MomentView>| #[trigger]
                        clock_moments(moments, list@.len()) && outcome(response) == gather(
                            timed(readings(list@), moments),
                            restored_pick(product_type@, self.package_name@),
                        );
                    assert(entry_count(listing(licenses)) == list@.len());
                    assert(clock_moments(moments, entry_count(listing(licenses))));
                    if response is Ok {
                        lemma_restored_ids(
                            readings(list@),
                            moments,
                            product_type@,
                            self.package_name@,
                        );
                        let held = response->Ok_0.purchases@;
                        assert(forall|k: int|
                            0 <= k < held.len() ==> (#[trigger] held[k])@ == contents(held)[k]);
                    }
                }
                response
            },
            Err(error) => {
                proof {
                    assert(clock_moments(Seq::empty(), entry_count(listing(licenses))));
                }
                Err(Error::Windows(error))
            },
        }
    }

    /// The purchases that hold, by the entries of a list of licenses.
    pub fn restore_licenses(&self, licenses: &Vec<Read<StoreLicense>>, product_type: &str) -> (
    response: Result<RestorePurchasesResponse, Error>)
        ensures
            exists|moments: Seq<MomentView>| #[trigger]
                clock_moments(moments, licenses@.len()) && outcome(response) == gather(
                    timed(readings(licenses@), moments),
                    restored_pick(product_type@, self.package_name@),
                ),
            response matches Ok(r) ==> forall|k: int|
                0 <= k < r.purchases@.len() ==> {
                    &&& (#[trigger] r.purchases@[k]).purchase_state == PurchaseStateValue::Purchased
                    &&& r.purchases@[k].is_auto_renewing <==> product_type@ == "subs"@
                    &&& r.purchases@[k].package_name@ == self.package_name@
                },
    {
        let ghost list = readings(licenses@);
        let ghost pick = restored_pick(product_type@, self.package_name@);
        let ghost mut moments: Seq<MomentView> = Seq::empty();
        let mut purchases: Vec<Purchase> = Vec::new();
        proof {
            assert(contents(purchases@) =~= Seq::empty());
            assert(timed(list.take(0), moments) =~= Seq::empty());
        }
        for i in 0..licenses.len()
            invariant
                list == readings(licenses@),
                list.len() == licenses.len(),
                pick == restored_pick(product_type@, self.package_name@),
                clock_moments(moments, i as nat),
                gather(timed(list.take(i as int), moments), pick) == Ok::<
                    Seq<PurchaseView>,
                    ErrorView,
                >(contents(purchases@)),
                forall|k: int|
                    0 <= k < purchases@.len() ==> {
                        &&& (#[trigger] purchases@[k]).purchase_state
                            == PurchaseStateValue::Purchased
                        &&& purchases@[k].is_auto_renewing <==> product_type@ == "subs"@
                        &&& purchases@[k].package_name@ == self.package_name@
                    },
        {
            let ghost before = purchases@;
            let ghost known = moments;
            let converted = match &licenses[i] {
                Ok(license) => {
                    let converted = self.convert_license_to_purchase(license, product_type);
                    proof {
                        let moment = choose|moment: MomentView| #[trigger]
                            clock_moment(moment) && outcome(converted) == license_purchase(
                                license@,
                                product_type@,
                                self.package_name@,
                                moment,
                            );
                        moments = known.push(moment);
                    }
                    converted
                },
                Err(error) => {
                    proof {
                        let moment = MomentView { now: Err(Seq::empty()), nonce: 0 };
                        assert(clock_moment(moment));
                        moments = known.push(moment);
                    }
                    Err(Error::Windows(error.clone()))
                },
            };
            proof {
                let step = timed(list.take(i as int + 1), moments);
                assert(step.drop_last() =~= timed(list.take(i as int), known));
                assert(step.last() == (list[i as int], moments[i as int]));
            }
            match converted {
                Ok(purchase) => {
                    if purchase.purchase_state == PurchaseStateValue::Purchased {
                        purchases.push(purchase);
                        proof {
                            assert(contents(purchases@) =~= contents(before).push(purchase@));
                        }
                    }
                },
                Err(error) => {
                    proof {
                        let rest = (list.len() - i - 1) as nat;
                        let all = moments + Seq::new(rest, |k: int| moments[i as int]);
                        assert(timed(list, all).take(i as int + 1) =~= timed(
                            list.take(i as int + 1),
                            moments,
                        ));
                        lemma_gather_failed(timed(list, all), pick, i as int + 1);
                        assert(clock_moments(all, licenses@.len()));
                    }
                    return Err(error);
                },
            }
        }
        proof {
            assert(list.take(list.len() as int) =~= list);
        }
        Ok(RestorePurchasesResponse { purchases })
    }

    /// Whether a product is owned, by the first of its licenses. The token's
    /// nonce is the clock's.
    pub fn get_product_status(
        &self,
        licenses: Read<Vec<Read<StoreLicense>>>,
        product_id: String,
        product_type: String,
    ) -> (status: Result<ProductStatus, Error>)
        ensures
            exists|nonce: u32|
                nonce < 1_000_000_000 && outcome(status) == #[trigger] product_status(
                    listing(licenses),
                    product_id@,
                    product_type@,
                    nonce,
                ),
            status matches Ok(s) ==> {
                &&& licenses is Ok
                &&& s.product_id@ == product_id@
                &&& s.is_owned <==> s.purchase_state == Some(PurchaseStateValue::Purchased)
                &&& s.is_owned ==> exists|i: int|
                    0 <= i < licenses->Ok_0@.len() && (#[trigger] licenses->Ok_0@[i]) is Ok
                        && reading(licenses->Ok_0@[i]->Ok_0.in_app_offer_token) == Ok::<
                        Seq<char>,
                        WindowsErrorView,
                    >(product_id@) && reading(licenses->Ok_0@[i]->Ok_0.is_active) == Ok::<
                        bool,
                        WindowsErrorView,
                    >(true)
                &&& s.purchase_state is None ==> forall|i: int|
                    0 <= i < licenses->Ok_0@.len() ==> (#[trigger] licenses->Ok_0@[i]) is Ok
                        && reading(licenses->Ok_0@[i]->Ok_0.in_app_offer_token) != Ok::<
                        Seq<char>,
                        WindowsErrorView,
                    >(product_id@)
            },
    {
        let ghost id = product_id@;
        let ghost kind = product_type@;
        let list = match licenses {
            Ok(list) => list,
            Err(error) => {
                let failed: Result<ProductStatus, Error> = Err(Error::Windows(error));
                proof {
                    assert(outcome(failed) == product_status(listing(licenses), id, kind, 0));
                }
                return failed;
            },
        };
        let ghost entries = readings(list@);
        for i in 0..list.len()
            invariant
                id == product_id@,
                kind == product_type@,
                entries == readings(list@),
                listing(licenses) == Ok::<
                    Seq<Result<StoreLicenseView, WindowsErrorView>>,
                    WindowsErrorView,
                >(entries),
                forall|nonce: u32| #[trigger]
                    product_status(listing(licenses), id, kind, nonce) == status_from(
                        entries,
                        id,
                        kind,
                        nonce,
                        i as int,
                    ),
                licenses is Ok,
                list == licenses->Ok_0,
                forall|j: int|
                    0 <= j < i ==> (#[trigger] list@[j]) is Ok && reading(
                        list@[j]->Ok_0.in_app_offer_token,
                    ) != Ok::<Seq<char>, WindowsErrorView>(id),
        {
            let license = match &list[i] {
                Ok(license) => license,
                Err(error) => {
                    let failed: Result<ProductStatus, Error> = Err(Error::Windows(error.clone()));
                    proof {
                        assert(outcome(failed) == product_status(listing(licenses), id, kind, 0));
                    }
                    return failed;
                },
            };
            let offer_token = match read_text(&license.in_app_offer_token) {
                Ok(text) => text,
                Err(error) => {
                    let failed: Result<ProductStatus, Error> = Err(error);
                    proof {
                        assert(outcome(failed) == product_status(listing(licenses), id, kind, 0));
                    }
                    return failed;
                },
            };
            if text_eq(offer_token.as_str(), product_id.as_str()) {
                let status = Self::convert_license_to_product_status(
                    license,
                    product_id,
                    product_type.as_str(),
                );
                proof {
                    let nonce = choose|nonce: u32|
                        nonce < 1_000_000_000 && outcome(status) == #[trigger] license_status(
                            license@,
                            id,
                            kind,
                            nonce,
                        );
                    assert(outcome(status) == product_status(listing(licenses), id, kind, nonce));
                }
                return status;
            }
        }
        let status: Result<ProductStatus, Error> = Ok(
            ProductStatus {
                product_id,
                is_owned: false,
                purchase_state: None,
                purchase_time: None,
                expiration_time: None,
                is_auto_renewing: None,
                is_acknowledged: None,
                purchase_token: None,
            },
        );
        proof {
            assert(outcome(status) == product_status(listing(licenses), id, kind, 0));
        }
        status
    }
}

/// A SKU's Store id leads back to the product's, whatever the part after the
/// slash is; a product's Store id leads to itself.
pub proof fn law_store_id_of_sku(store_id: Seq<char>, sku: Seq<char>)
    requires
        store_id.len() > 0,
        !store_id.contains('/'),
    ensures
        store_id_of(store_id + seq!['/'] + sku) == store_id,
        store_id_of(store_id) == store_id,
{
    let whole = store_id + seq!['/'] + sku;
    let n = store_id.len() as int;
    assert(whole[n] == '/');
    assert(whole[0] == store_id[0] && store_id[0] != '/');
    whole.index_of_first_ensures('/');
    let k = whole.index_of_first('/')->Some_0;
    if k < n {
        assert(store_id[k] == '/');
    }
    assert(whole.take(n) =~= store_id);
}

/// Taking the product's Store id twice changes nothing more.
pub proof fn law_store_id_of_idempotent(sku_store_id: Seq<char>)
    ensures
        store_id_of(store_id_of(sku_store_id)) == store_id_of(sku_store_id),
{
    sku_store_id.index_of_first_ensures('/');
    let id = store_id_of(sku_store_id);
    if sku_store_id.contains('/') && sku_store_id[0] != '/' {
        let k = sku_store_id.index_of_first('/')->Some_0;
        assert(forall|i: int| 0 <= i < id.len() ==> id[i] == sku_store_id[i]);
        assert(!id.contains('/'));
    }
}

/// An entry with an active license.
pub open spec fn active_entry(entry: Result<StoreLicenseView, WindowsErrorView>) -> bool {
    entry matches Ok(license) && license.is_active == Ok::<bool, WindowsErrorView>(true)
}

/// The developer's id of the product of a license.
pub open spec fn entry_product_id(entry: Result<StoreLicenseView, WindowsErrorView>) -> Seq<char> {
    entry->Ok_0.in_app_offer_token->Ok_0
}

/// Restoring gives the purchases of the active licenses, each of them and no
/// other, in the order of the licenses.
pub proof fn law_restored_are_active(
    licenses: Seq<Result<StoreLicenseView, WindowsErrorView>>,
    moments: Seq<MomentView>,
    product_type: Seq<char>,
    package_name: Seq<char>,
)
    requires
        moments.len() == licenses.len(),
        gather(timed(licenses, moments), restored_pick(product_type, package_name)) is Ok,
    ensures
        ({
            let purchases = gather(
                timed(licenses, moments),
                restored_pick(product_type, package_name),
            )->Ok_0;
            &&& purchases.map_values(|p: PurchaseView| p.product_id) == licenses.filter(
                |e: Result<StoreLicenseView, WindowsErrorView>| active_entry(e),
            ).map_values(
                |e: Result<StoreLicenseView, WindowsErrorView>| entry_product_id(e),
            )
            &&& forall|i: int|
                0 <= i < purchases.len() ==> (#[trigger] purchases[i]).purchase_state
                    == PurchaseStateValue::Purchased && purchases[i].is_acknowledged
                    && purchases[i].is_auto_renewing == (product_type == "subs"@)
                    && purchases[i].package_name == package_name
        }),
    decreases licenses.len(),
{
    let pick = restored_pick(product_type, package_name);
    let active = |e: Result<StoreLicenseView, WindowsErrorView>| active_entry(e);
    let name = |p: PurchaseView| p.product_id;
    let entry_name = |e: Result<StoreLicenseView, WindowsErrorView>| entry_product_id(e);
    let entries = timed(licenses, moments);
    let purchases = gather(entries, pick)->Ok_0;
    reveal(Seq::filter);
    if licenses.len() == 0 {
        assert(purchases.map_values(name) =~= licenses.filter(active).map_values(entry_name));
    } else {
        let front = licenses.drop_last();
        let earlier = moments.drop_last();
        assert(entries.drop_last() =~= timed(front, earlier));
        assert(entries.last() == (licenses.last(), moments.last()));
        law_restored_are_active(front, earlier, product_type, package_name);
        let before = gather(timed(front, earlier), pick)->Ok_0;
        if active(licenses.last()) {
            let last = purchases.last();
            assert(purchases == before.push(last));
            assert(licenses.filter(active) == front.filter(active).push(licenses.last()));
            assert(purchases.map_values(name) =~= before.map_values(name).push(last.product_id));
            assert(licenses.filter(active).map_values(entry_name) =~= front.filter(
                active,
            ).map_values(entry_name).push(entry_product_id(licenses.last())));
        } else {
            assert(purchases == before);
            assert(licenses.filter(active) == front.filter(active));
        }
        assert(purchases.map_values(name) =~= licenses.filter(active).map_values(entry_name));
    }
}

proof fn lemma_restored_ids(
    licenses: Seq<Result<StoreLicenseView, WindowsErrorView>>,
    moments: Seq<MomentView>,
    product_type: Seq<char>,
    package_name: Seq<char>,
)
    requires
        moments.len() == licenses.len(),
        gather(timed(licenses, moments), restored_pick(product_type, package_name)) is Ok,
    ensures
        ({
            let purchases = gather(
                timed(licenses, moments),
                restored_pick(product_type, package_name),
            )->Ok_0;
            let active = licenses.filter(
                |e: Result<StoreLicenseView, WindowsErrorView>| active_entry(e),
            );
            &&& purchases.len() == active.len()
            &&& forall|k: int|
                0 <= k < active.len() ==> (#[trigger] purchases[k]).product_id
                    == active[k]->Ok_0.in_app_offer_token->Ok_0
        }),
{
    law_restored_are_active(licenses, moments, product_type, package_name);
    let purchases = gather(
        timed(licenses, moments),
        restored_pick(product_type, package_name),
    )->Ok_0;
    let active = licenses.filter(|e: Result<StoreLicenseView, WindowsErrorView>| active_entry(e));
    let named = purchases.map_values(|p: PurchaseView| p.product_id);
    let expected = active.map_values(
        |e: Result<StoreLicenseView, WindowsErrorView>| entry_product_id(e),
    );
    assert(named == expected);
    assert(purchases.len() == named.len() && active.len() == expected.len());
    assert forall|k: int| 0 <= k < active.len() implies (#[trigger] purchases[k]).product_id
        == active[k]->Ok_0.in_app_offer_token->Ok_0 by {
        assert(named[k] == expected[k]);
    }
}

/// A product's status is of that product. It is owned exactly where its purchase
/// holds, only an owned subscription renews itself, and a time of expiration is
/// told only if there is one; without a license nothing is told.
pub proof fn law_status_consistent(
    licenses: Result<Seq<Result<StoreLicenseView, WindowsErrorView>>, WindowsErrorView>,
    product_id: Seq<char>,
    product_type: Seq<char>,
    nonce: u32,
)
    requires
        product_status(licenses, product_id, product_type, nonce) is Ok,
    ensures
        ({
            let status = product_status(licenses, product_id, product_type, nonce)->Ok_0;
            &&& status.product_id == product_id
            &&& status.is_owned <==> status.purchase_state == Some(PurchaseStateValue::Purchased)
            &&& status.is_auto_renewing == Some(true) ==> status.is_owned && product_type == "subs"@
            &&& status.expiration_time matches Some(time) ==> time > 0
            &&& status.purchase_state is None <==> status == not_owned(product_id)
        }),
{
    lemma_status_source(licenses->Ok_0, product_id, product_type, nonce, 0);
}

proof fn lemma_status_source(
    licenses: Seq<Result<StoreLicenseView, WindowsErrorView>>,
    product_id: Seq<char>,
    product_type: Seq<char>,
    nonce: u32,
    from: int,
)
    requires
        0 <= from,
        status_from(licenses, product_id, product_type, nonce, from) is Ok,
    ensures
        ({
            let status = status_from(licenses, product_id, product_type, nonce, from);
            ||| status == Ok::<ProductStatusView, ErrorView>(not_owned(product_id))
            ||| exists|i: int|
                from <= i < licenses.len() && (#[trigger] licenses[i]) is Ok
                    && licenses[i]->Ok_0.in_app_offer_token == Ok::<Seq<char>, WindowsErrorView>(
                    product_id,
                ) && status == license_status(
                    licenses[i]->Ok_0,
                    product_id,
                    product_type,
                    nonce,
                )
        }),
    decreases licenses.len() - from,
{
    if from < licenses.len() {
        if licenses[from]->Ok_0.in_app_offer_token != Ok::<Seq<char>, WindowsErrorView>(
            product_id,
        ) {
            lemma_status_source(licenses, product_id, product_type, nonce, from + 1);
        }
    }
}

/// A product that is owned by its status is among the restored purchases.
pub proof fn law_owned_is_restored(
    licenses: Seq<Result<StoreLicenseView, WindowsErrorView>>,
    moments: Seq<MomentView>,
    product_id: Seq<char>,
    product_type: Seq<char>,
    package_name: Seq<char>,
    nonce: u32,
)
    requires
        moments.len() == licenses.len(),
        product_status(Ok(licenses), product_id, product_type, nonce) matches Ok(status)
            && status.is_owned,
        restored(Ok(licenses), product_type, package_name, moments) is Ok,
    ensures
        exists|k: int|
            0 <= k < restored(Ok(licenses), product_type, package_name, moments)->Ok_0.len() && (
            #[trigger] restored(Ok(licenses), product_type, package_name, moments)->Ok_0[k]).product_id
                == product_id,
{
    lemma_status_source(licenses, product_id, product_type, nonce, 0);
    law_restored_are_active(licenses, moments, product_type, package_name);
    let i = choose|i: int|
        0 <= i < licenses.len() && (#[trigger] licenses[i]) is Ok
            && licenses[i]->Ok_0.in_app_offer_token == Ok::<Seq<char>, WindowsErrorView>(product_id)
            && product_status(Ok(licenses), product_id, product_type, nonce) == license_status(
            licenses[i]->Ok_0,
            product_id,
            product_type,
            nonce,
        );
    let active = |e: Result<StoreLicenseView, WindowsErrorView>| active_entry(e);
    let entry_name = |e: Result<StoreLicenseView, WindowsErrorView>| entry_product_id(e);
    let purchases = restored(Ok(licenses), product_type, package_name, moments)->Ok_0;
    let kept = licenses.filter(active);
    assert(active(licenses[i]));
    licenses.lemma_filter_contains(active, i);
    assert(kept.contains(licenses[i]));
    let k = choose|k: int| 0 <= k < kept.len() && kept[k] == licenses[i];
    assert(kept.map_values(entry_name)[k] == product_id);
    let named = purchases.map_values(|p: PurchaseView| p.product_id);
    assert(named == kept.map_values(entry_name));
    assert(named.len() == kept.len() && purchases.len() == named.len());
    assert(named[k] == purchases[k].product_id);
}

/// The token of a license's purchase carries the product's Store id, and no
/// other. A license whose SKU's Store id has a product's Store id before a slash
/// thus leads to a token that is accepted.
pub proof fn law_license_token_names_product(
    license: StoreLicenseView,
    product_type: Seq<char>,
    package_name: Seq<char>,
    moment: MomentView,
)
    requires
        license_purchase(license, product_type, package_name, moment) is Ok,
    ensures
        ({
            let p = license_purchase(license, product_type, package_name, moment)->Ok_0;
            let t = TokenView {
                v: 1,
                store_id: store_id_of(license.sku_store_id->Ok_0),
                purchase_time: p.purchase_time,
                nonce: moment.nonce,
            };
            &&& p.purchase_token == token_text(t)
            &&& p.order_id == Some(p.purchase_token)
            &&& token_valid(t) <==> !blank(t.store_id)
            &&& forall|other: TokenView| #[trigger]
                token_text(other) == p.purchase_token ==> other == t
        }),
{
    let p = license_purchase(license, product_type, package_name, moment)->Ok_0;
    let t = TokenView {
        v: 1,
        store_id: store_id_of(license.sku_store_id->Ok_0),
        purchase_time: p.purchase_time,
        nonce: moment.nonce,
    };
    assert forall|other: TokenView| #[trigger] token_text(other) == p.purchase_token implies other
        == t by {
        law_token_text_injective(other, t);
    }
}

/// For a subscription that expires, the restored purchase and the status tell
/// the same time of purchase, thirty days before the expiration, and with the
/// same nonce the same token.
pub proof fn law_subscription_times_agree(
    license: StoreLicenseView,
    product_id: Seq<char>,
    package_name: Seq<char>,
    moment: MomentView,
)
    requires
        license_purchase(license, "subs"@, package_name, moment) is Ok,
        datetime_millis(license.expiration_ticks->Ok_0 as int) > 0,
    ensures
        ({
            let p = license_purchase(license, "subs"@, package_name, moment)->Ok_0;
            let s = license_status(license, product_id, "subs"@, moment.nonce);
            &&& s is Ok
            &&& s->Ok_0.purchase_time == Some(p.purchase_time)
            &&& s->Ok_0.purchase_token == Some(p.purchase_token)
            &&& s->Ok_0.purchase_state == Some(p.purchase_state)
            &&& s->Ok_0.expiration_time == Some((p.purchase_time + 2_592_000_000) as i64)
        }),
{
}

/// A moment is what the two readings of the clock gave, and each license of a list
/// is looked at in a moment of its own.
pub proof fn law_moments(
    moment: Moment,
    licenses: Seq<Result<StoreLicenseView, WindowsErrorView>>,
    moments: Seq<MomentView>,
    unread: WindowsErrorView,
)
    ensures
        moment@.nonce == moment.nonce,
        moment.now matches Ok(time) ==> moment@.now == Ok::<UnixTime, Seq<char>>(time),
        moment.now matches Err(detail) ==> moment@.now == Err::<UnixTime, Seq<char>>(detail@),
        entry_count(Ok(licenses)) == licenses.len(),
        entry_count(Err(unread)) == 0,
        timed(licenses, moments).len() == licenses.len(),
        forall|i: int|
            0 <= i < licenses.len() ==> (#[trigger] timed(licenses, moments)[i]).0 == licenses[i]
                && timed(licenses, moments)[i].1 == moments[i],
{
}

} // verus!
