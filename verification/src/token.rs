//! The opaque purchase token.
//!
//! Callers see the developer's product ids only. Reporting a consumable as
//! fulfilled needs the Store's own product id, so the token carries it.

use crate::encoding::base64url;
use crate::encoding::base64url_decode;
use crate::encoding::base64url_encode;
use crate::encoding::json_quote;
use crate::encoding::json_string;
use crate::encoding::law_base64url_injective;
use crate::encoding::law_json_string_injective;
use crate::error::outcome;
use crate::error::rejected;
use crate::error::Error;
use crate::error::ErrorView;
use crate::iap::Iap;
use crate::text::blank;
use crate::text::decimal;
use crate::text::is_blank;
use crate::text::law_decimal_injective;
use crate::text::lemma_cut_at_first;
use crate::text::lemma_cut_at_last;
use crate::text::lemma_decimal_symbols;
use crate::text::push_decimal;
use crate::text::white_space;
use vstd::prelude::*;
use vstd::string::StringExecFns;
use vstd::utf8::encode_utf8;
use vstd::utf8::encode_utf8_decode_utf8;

verus! {

/// What a purchase token carries.
#[derive(Debug, PartialEq, Eq)]
pub struct WindowsPurchaseTokenV1 {
    pub v: u8,
    pub store_id: String,
    pub purchase_time: i64,
    pub nonce: u32,
}

/// The contents of a [`WindowsPurchaseTokenV1`].
pub struct TokenView {
    pub v: u8,
    pub store_id: Seq<char>,
    pub purchase_time: i64,
    pub nonce: u32,
}

impl View for WindowsPurchaseTokenV1 {
    type V = TokenView;

    open spec fn view(&self) -> TokenView {
        TokenView {
            v: self.v,
            store_id: self.store_id@,
            purchase_time: self.purchase_time,
            nonce: self.nonce,
        }
    }
}

/// The contents of an optional token.
pub open spec fn optional_token(token: Option<WindowsPurchaseTokenV1>) -> Option<TokenView> {
    match token {
        Some(t) => Some(t@),
        None => None,
    }
}

/// The token as a JSON object, in compact form and with its fields in order.
pub open spec fn token_json(t: TokenView) -> Seq<char> {
    "{\"v\":"@ + decimal(t.v as int) + ",\"store_id\":"@ + json_string(t.store_id)
        + ",\"purchase_time\":"@ + decimal(t.purchase_time as int) + ",\"nonce\":"@ + decimal(
        t.nonce as int,
    ) + "}"@
}

/// The bytes of the token's JSON object.
pub open spec fn token_bytes(t: TokenView) -> Seq<u8> {
    encode_utf8(token_json(t))
}

/// The text that callers get as the purchase token.
pub open spec fn token_text(t: TokenView) -> Seq<char> {
    base64url(token_bytes(t))
}

/// Tokens that are accepted: of version one, and with a Store id.
pub open spec fn token_valid(t: TokenView) -> bool {
    t.v == 1 && !blank(t.store_id)
}

/// The rejection of a text that is no purchase token.
pub open spec fn invalid_token() -> ErrorView {
    rejected("invalidPurchaseToken"@, "Invalid Windows purchase token"@)
}

/// What becomes of the object that was found in a token's bytes, if any was.
pub open spec fn accepted(parsed: Option<TokenView>) -> Result<TokenView, ErrorView> {
    match parsed {
        Some(t) if token_valid(t) => Ok(t),
        _ => Err(invalid_token()),
    }
}

/// The rejection when a token's JSON object cannot be written.
pub open spec fn encode_failure(detail: Seq<char>) -> ErrorView {
    rejected("internalError"@, "Failed to encode purchase token: "@ + detail)
}

impl WindowsPurchaseTokenV1 {
    /// The rejection of a text that is no purchase token.
    pub fn invalid() -> (error: Error)
        ensures
            error@ == invalid_token(),
    {
        Iap::reject("invalidPurchaseToken", "Invalid Windows purchase token".to_owned())
    }

    /// The rejection when a token's JSON object cannot be written.
    pub fn encode_failed(detail: &str) -> (error: Error)
        ensures
            error@ == encode_failure(detail@),
    {
        let mut message = "Failed to encode purchase token: ".to_owned();
        message.append(detail);
        Iap::reject("internalError", message)
    }

    /// The purchase token's text.
    pub fn encode(&self) -> (text: Result<String, Error>)
        ensures
            text is Ok,
            text->Ok_0@ == token_text(self@),
    {
        let quoted = match json_quote(self.store_id.as_str()) {
            Ok(literal) => literal,
            Err(detail) => return Err(Self::encode_failed(detail.as_str())),
        };
        let mut json = "{\"v\":".to_owned();
        push_decimal(&mut json, self.v as i64);
        json.append(",\"store_id\":");
        json.append(quoted.as_str());
        json.append(",\"purchase_time\":");
        push_decimal(&mut json, self.purchase_time);
        json.append(",\"nonce\":");
        push_decimal(&mut json, self.nonce as i64);
        json.append("}");
        Ok(base64url_encode(json.as_str().as_bytes()))
    }

    /// The bytes that a purchase token's text stands for.
    pub fn decode_bytes(text: &str) -> (bytes: Result<Vec<u8>, Error>)
        ensures
            bytes matches Ok(b) ==> base64url(b@) == text@,
            bytes matches Err(e) ==> e@ == invalid_token(),
            forall|b: Seq<u8>| #[trigger]
                base64url(b) == text@ ==> bytes is Ok && bytes->Ok_0@ == b,
    {
        match base64url_decode(text) {
            Ok(bytes) => {
                proof {
                    assert forall|b: Seq<u8>| #[trigger] base64url(b) == text@ implies bytes@
                        == b by {
                        law_base64url_injective(bytes@, b);
                    }
                }
                Ok(bytes)
            },
            Err(_) => Err(Self::invalid()),
        }
    }

    /// Takes the object that was found in a token's bytes, if it is a token.
    pub fn accept(parsed: Option<WindowsPurchaseTokenV1>) -> (token: Result<
        WindowsPurchaseTokenV1,
        Error,
    >)
        ensures
            outcome(token) == accepted(optional_token(parsed)),
    {
        match parsed {
            Some(token) => {
                if token.v != 1 || is_blank(token.store_id.as_str()) {
                    Err(Self::invalid())
                } else {
                    Ok(token)
                }
            },
            None => Err(Self::invalid()),
        }
    }

    /// Reads a purchase token. `parse` finds the JSON object in the token's
    /// bytes, or nothing.
    ///
    /// The result is what becomes of the object that `parse` found; a text that
    /// stands for no bytes is rejected without asking it. A token that
    /// [`WindowsPurchaseTokenV1::encode`] wrote is read back as it was, where
    /// `parse` finds in its bytes the object that they were written from.
    pub fn decode<P: Fn(&Vec<u8>) -> Option<WindowsPurchaseTokenV1>>(
        text: &str,
        parse: P,
    ) -> (token: Result<WindowsPurchaseTokenV1, Error>)
        requires
            forall|b: &Vec<u8>| call_requires(parse, (b,)),
        ensures
            (forall|b: Seq<u8>| #[trigger] base64url(b) != text@) ==> outcome(token) == Err::<
                TokenView,
                ErrorView,
            >(invalid_token()),
            forall|bytes: Seq<u8>| #[trigger]
                base64url(bytes) == text@ ==> exists|b: Vec<u8>, p: Option<WindowsPurchaseTokenV1>|
                    b@ == bytes && #[trigger] call_ensures(parse, (&b,), p) && outcome(token)
                        == accepted(optional_token(p)),
            forall|t: TokenView|
                (#[trigger] token_text(t) == text@ && token_valid(t) && forall|
                    b: Vec<u8>,
                    p: Option<WindowsPurchaseTokenV1>,
                |
                    b@ == token_bytes(t) && #[trigger] call_ensures(parse, (&b,), p)
                        ==> optional_token(p) == Some(t)) ==> outcome(token) == Ok::<
                    TokenView,
                    ErrorView,
                >(t),
    {
        let bytes = match Self::decode_bytes(text) {
            Ok(bytes) => bytes,
            Err(error) => return Err(error),
        };
        let parsed = parse(&bytes);
        Self::accept(parsed)
    }
}

proof fn lemma_decimal_lacks(n: int, mark: char)
    requires
        mark == ':' || mark == ',',
    ensures
        !decimal(n).contains(mark),
{
    lemma_decimal_symbols(n);
}

/// Two texts with a common ending are equal before it.
proof fn lemma_common_ending(x: Seq<char>, y: Seq<char>, ending: Seq<char>)
    requires
        x + ending == y + ending,
    ensures
        x == y,
{
    let whole = x + ending;
    assert(whole.len() == (y + ending).len());
    assert(x =~= whole.take(x.len() as int));
    assert(y =~= whole.take(x.len() as int));
}

/// Two texts with a common beginning are equal after it.
proof fn lemma_common_beginning(beginning: Seq<char>, x: Seq<char>, y: Seq<char>)
    requires
        beginning + x == beginning + y,
    ensures
        x == y,
{
    let whole = beginning + x;
    assert(x =~= whole.skip(beginning.len() as int));
    assert(y =~= whole.skip(beginning.len() as int));
}

proof fn lemma_token_json_injective(a: TokenView, b: TokenView)
    requires
        token_json(a) == token_json(b),
    ensures
        a == b,
{
    reveal_strlit("{\"v\":");
    reveal_strlit(",\"store_id\":");
    reveal_strlit(",\"purchase_time\":");
    reveal_strlit(",\"nonce\":");
    reveal_strlit("}");
    let id_key = ",\"store_id\":"@;
    let time_key = ",\"purchase_time\":"@;
    let nonce_key = ",\"nonce\":"@;
    let colon = seq![':'];
    let comma = seq![','];
    lemma_decimal_lacks(a.nonce as int, ':');
    lemma_decimal_lacks(b.nonce as int, ':');
    lemma_decimal_lacks(a.purchase_time as int, ':');
    lemma_decimal_lacks(b.purchase_time as int, ':');
    lemma_decimal_lacks(a.v as int, ',');
    lemma_decimal_lacks(b.v as int, ',');

    let id_a = decimal(a.v as int) + id_key + json_string(a.store_id);
    let id_b = decimal(b.v as int) + id_key + json_string(b.store_id);
    let time_a = "{\"v\":"@ + id_a + time_key + decimal(a.purchase_time as int);
    let time_b = "{\"v\":"@ + id_b + time_key + decimal(b.purchase_time as int);
    let open_a = time_a + nonce_key + decimal(a.nonce as int);
    let open_b = time_b + nonce_key + decimal(b.nonce as int);
    assert(token_json(a) =~= open_a + "}"@);
    assert(token_json(b) =~= open_b + "}"@);
    lemma_common_ending(open_a, open_b, "}"@);

    let nonce_head = nonce_key.drop_last();
    assert(nonce_key =~= nonce_head + colon);
    assert(open_a =~= (time_a + nonce_head) + colon + decimal(a.nonce as int));
    assert(open_b =~= (time_b + nonce_head) + colon + decimal(b.nonce as int));
    lemma_cut_at_last(
        time_a + nonce_head,
        decimal(a.nonce as int),
        time_b + nonce_head,
        decimal(b.nonce as int),
        ':',
    );
    law_decimal_injective(a.nonce as int, b.nonce as int);
    lemma_common_ending(time_a, time_b, nonce_head);

    let time_head = time_key.drop_last();
    let front_a = "{\"v\":"@ + id_a;
    let front_b = "{\"v\":"@ + id_b;
    assert(time_key =~= time_head + colon);
    assert(time_a =~= (front_a + time_head) + colon + decimal(a.purchase_time as int));
    assert(time_b =~= (front_b + time_head) + colon + decimal(b.purchase_time as int));
    lemma_cut_at_last(
        front_a + time_head,
        decimal(a.purchase_time as int),
        front_b + time_head,
        decimal(b.purchase_time as int),
        ':',
    );
    law_decimal_injective(a.purchase_time as int, b.purchase_time as int);
    lemma_common_ending(front_a, front_b, time_head);
    lemma_common_beginning("{\"v\":"@, id_a, id_b);

    let id_tail = id_key.skip(1);
    assert(id_key =~= comma + id_tail);
    assert(id_a =~= decimal(a.v as int) + comma + (id_tail + json_string(a.store_id)));
    assert(id_b =~= decimal(b.v as int) + comma + (id_tail + json_string(b.store_id)));
    lemma_cut_at_first(
        decimal(a.v as int),
        id_tail + json_string(a.store_id),
        decimal(b.v as int),
        id_tail + json_string(b.store_id),
        ',',
    );
    law_decimal_injective(a.v as int, b.v as int);
    lemma_common_beginning(id_tail, json_string(a.store_id), json_string(b.store_id));
    law_json_string_injective(a.store_id, b.store_id);
}

/// Different tokens have different texts. Two purchases of one product in the
/// same millisecond thus have different purchase tokens as long as their nonces
/// differ.
pub proof fn law_token_text_injective(a: TokenView, b: TokenView)
    requires
        token_text(a) == token_text(b),
    ensures
        a == b,
{
    law_base64url_injective(token_bytes(a), token_bytes(b));
    encode_utf8_decode_utf8(token_json(a));
    encode_utf8_decode_utf8(token_json(b));
    lemma_token_json_injective(a, b);
}

/// Each field stands in the token's object behind its key, in the fields' order
/// and with nothing between; the object has no other field.
pub proof fn law_token_json_fields(t: TokenView)
    ensures
        ({
            let head = "{\"v\":"@ + decimal(t.v as int) + ",\"store_id\":"@ + json_string(
                t.store_id,
            );
            let tail = ",\"purchase_time\":"@ + decimal(t.purchase_time as int) + ",\"nonce\":"@
                + decimal(t.nonce as int) + "}"@;
            &&& token_json(t).len() == head.len() + tail.len()
            &&& token_json(t).take(head.len() as int) == head
            &&& token_json(t).skip(head.len() as int) == tail
        }),
{
    let head = "{\"v\":"@ + decimal(t.v as int) + ",\"store_id\":"@ + json_string(t.store_id);
    let tail = ",\"purchase_time\":"@ + decimal(t.purchase_time as int) + ",\"nonce\":"@ + decimal(
        t.nonce as int,
    ) + "}"@;
    assert(token_json(t) =~= head + tail);
    assert((head + tail).take(head.len() as int) =~= head);
    assert((head + tail).skip(head.len() as int) =~= tail);
}

/// Of what is found in a token's bytes, exactly the objects of version one with a
/// store id that is not blank are taken, unchanged; all else is refused as an
/// invalid token.
pub proof fn law_token_accepted(t: TokenView)
    ensures
        accepted(Some(t)) is Ok <==> t.v == 1 && exists|i: int|
            0 <= i < t.store_id.len() && !white_space(#[trigger] t.store_id[i]),
        accepted(Some(t)) is Ok ==> accepted(Some(t))->Ok_0 == t,
        accepted(Some(t)) is Err ==> accepted(Some(t)) == accepted(None),
        accepted(None) == Err::<TokenView, ErrorView>(
            ErrorView::Rejected {
                code: Some("invalidPurchaseToken"@),
                message: Some("Invalid Windows purchase token"@),
            },
        ),
        token_valid(t) <==> accepted(Some(t)) is Ok,
        invalid_token() == accepted(None)->Err_0,
{
}

/// A token's text is the base64 text of its object's UTF-8 bytes.
pub proof fn law_token_text_layers(t: TokenView)
    ensures
        token_bytes(t) == encode_utf8(token_json(t)),
        token_text(t) == base64url(token_bytes(t)),
{
}

/// A token that cannot be written is an internal error that says why.
pub proof fn law_encode_failure(detail: Seq<char>)
    ensures
        encode_failure(detail) == (ErrorView::Rejected {
            code: Some("internalError"@),
            message: Some("Failed to encode purchase token: "@ + detail),
        }),
{
}

/// A token's contents are its fields as they are; a missing token stays missing.
pub proof fn law_token_contents(t: WindowsPurchaseTokenV1)
    ensures
        t@.v == t.v,
        t@.store_id == t.store_id@,
        t@.purchase_time == t.purchase_time,
        t@.nonce == t.nonce,
        optional_token(Some(t)) == Some(t@),
        optional_token(None) is None,
{
}

} // verus!
