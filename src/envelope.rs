use crate::accounts::{
    buyer_id_value, fee_code, fee_code_string, get_vector_val_from_list, lemma_first_vector_index, vector_code,
    vector_code_string, BusinessAccount, RegisteredNetworkParticipant, UserAccount,
};
use crate::protocol::{
    is_validation, default_ttl, default_ttl_string, ActionType, AdapterError, Context, ProtocolVersion,
    SearchCategory, SearchEnvelope, SearchFulfillment, SearchIntent, SearchItem, SearchMessage,
    SearchPayment, SearchStop, StopType,
};
use crate::schemas::{FulfillmentType, PaymentType};
use crate::tags::{copy_string, pair_tag, Tag, TagCode, TagGroup};
use vstd::prelude::*;

verus! {

/// The buyer-id tag of an account: its default credential's code and value.
pub open spec fn is_buyer_id_tag(t: Tag, b: BusinessAccount) -> bool {
    &&& buyer_id_value(b) is Some
    &&& t.code == TagGroup::BuyerId
    &&& t.list@.len() == 2
    &&& t.list@[0].code == TagCode::BuyerIdCode
    &&& t.list@[0].value@ == vector_code(b.default_vector_type)
    &&& t.list@[1].code == TagCode::BuyerIdNo
    &&& t.list@[1].value@ == buyer_id_value(b)->0
}

/// The buyer-id tag; a validation error when the account holds no value
/// for its default credential type.
pub fn get_buyer_id_tag(business_account: &BusinessAccount) -> (r: Result<Tag, AdapterError>)
    ensures
        r is Ok <==> buyer_id_value(*business_account) is Some,
        r is Ok ==> is_buyer_id_tag(r->Ok_0, *business_account),
        r is Err ==> is_validation(r->Err_0, "Failed to get buyer ID tag"@),
{
    let found = get_vector_val_from_list(
        business_account.default_vector_type,
        &business_account.vectors,
    );
    proof {
        lemma_first_vector_index(business_account.vectors@, business_account.default_vector_type);
    }
    match found {
        Some(i) => Ok(
            pair_tag(
                TagGroup::BuyerId,
                TagCode::BuyerIdCode,
                vector_code_string(business_account.default_vector_type),
                TagCode::BuyerIdNo,
                copy_string(&business_account.vectors[i].value),
            ),
        ),
        None => {
            proof {
                reveal_strlit("Failed to get buyer ID tag");
            }
            Err(AdapterError::Validation(String::from_str("Failed to get buyer ID tag")))
        },
    }
}

/// The buyer-fee tag that the caller registered.
pub open spec fn is_buyer_fee_tag(t: Tag, np: RegisteredNetworkParticipant) -> bool {
    &&& t.code == TagGroup::BuyerFee
    &&& t.list@.len() == 2
    &&& t.list@[0].code == TagCode::FinderFeeType
    &&& t.list@[0].value@ == fee_code(np.fee_type)
    &&& t.list@[1].code == TagCode::FinderFeeAmount
    &&& t.list@[1].value@ == np.fee_value@
}

pub fn get_buyer_fee_tag(np_detail: &RegisteredNetworkParticipant) -> (r: Tag)
    ensures
        is_buyer_fee_tag(r, *np_detail),
{
    pair_tag(
        TagGroup::BuyerFee,
        TagCode::FinderFeeType,
        fee_code_string(np_detail.fee_type),
        TagCode::FinderFeeAmount,
        copy_string(&np_detail.fee_value),
    )
}

pub open spec fn opt_view(o: Option<String>) -> Option<Seq<char>> {
    match o {
        Some(s) => Some(s@),
        None => None,
    }
}

pub fn copy_opt_string(o: &Option<String>) -> (r: Option<String>)
    ensures
        opt_view(r) == opt_view(*o),
{
    match o {
        Some(s) => Some(copy_string(s)),
        None => None,
    }
}

/// The context fields that every envelope carries, as assembled from its parts.
pub open spec fn is_context(
    c: Context,
    transaction_id: u128,
    message_id: u128,
    domain: Seq<char>,
    action: ActionType,
    bap_id: Seq<char>,
    bap_uri: Seq<char>,
    bpp_id: Option<Seq<char>>,
    bpp_uri: Option<Seq<char>>,
    country_code: Seq<char>,
    city_code: Seq<char>,
    ttl: Option<Seq<char>>,
    now_ms: i64,
) -> bool {
    &&& c.domain@ == domain
    &&& c.location_is(city_code, country_code)
    &&& c.action == action
    &&& c.version == ProtocolVersion::V2point2
    &&& c.transaction_id == transaction_id
    &&& c.message_id == message_id
    &&& c.bap_id@ == bap_id
    &&& c.bap_uri@ == bap_uri
    &&& opt_view(c.bpp_id) == bpp_id
    &&& opt_view(c.bpp_uri) == bpp_uri
    &&& c.timestamp_ms == now_ms
    &&& c.ttl@ == match ttl {
        Some(t) => t,
        None => default_ttl(),
    }
}

impl Context {
    pub open spec fn location_is(self, city_code: Seq<char>, country_code: Seq<char>) -> bool {
        self.city_code@ == city_code && self.country_code@ == country_code
    }
}

/// Assembles an envelope context; the time to live defaults to the
/// protocol's fixed duration.
pub fn get_common_context(
    transaction_id: u128,
    message_id: u128,
    domain_category_code: &String,
    action: ActionType,
    bap_id: &String,
    bap_uri: &String,
    bpp_id: Option<&String>,
    bpp_uri: Option<&String>,
    country_code: &String,
    city_code: &String,
    ttl: Option<&String>,
    now_ms: i64,
) -> (r: Context)
    ensures
        is_context(
            r,
            transaction_id,
            message_id,
            domain_category_code@,
            action,
            bap_id@,
            bap_uri@,
            match bpp_id {
                Some(s) => Some(s@),
                None => None,
            },
            match bpp_uri {
                Some(s) => Some(s@),
                None => None,
            },
            country_code@,
            city_code@,
            match ttl {
                Some(s) => Some(s@),
                None => None,
            },
            now_ms,
        ),
{
    Context {
        domain: copy_string(domain_category_code),
        city_code: copy_string(city_code),
        country_code: copy_string(country_code),
        action,
        version: ProtocolVersion::V2point2,
        transaction_id,
        message_id,
        bap_id: copy_string(bap_id),
        bap_uri: copy_string(bap_uri),
        bpp_id: match bpp_id {
            Some(s) => Some(copy_string(s)),
            None => None,
        },
        bpp_uri: match bpp_uri {
            Some(s) => Some(copy_string(s)),
            None => None,
        },
        timestamp_ms: now_ms,
        ttl: match ttl {
            Some(s) => copy_string(s),
            None => default_ttl_string(),
        },
    }
}

/// How a product search is scoped.
#[derive(Clone, Copy, Debug, PartialEq, Eq, Structural)]
pub enum ProductSearchType {
    City,
    Item,
    Category,
}

/// A delivery location named in a search.
#[derive(Clone, Debug)]
pub struct ProductFulFillmentLocations {
    pub gps: String,
    pub area_code: String,
}

#[derive(Clone, Debug)]
pub struct ProductSearchRequest {
    pub transaction_id: u128,
    pub message_id: u128,
    pub domain_category_code: String,
    pub search_type: ProductSearchType,
    pub query: String,
    pub country_code: String,
    pub city_code: String,
    pub fulfillment_type: Option<FulfillmentType>,
    pub fulfillment_locations: Option<Vec<ProductFulFillmentLocations>>,
    pub payment_type: Option<PaymentType>,
}

/// One end stop for each location, in order.
pub open spec fn are_end_stops(stops: Seq<SearchStop>, locs: Seq<ProductFulFillmentLocations>) -> bool {
    &&& stops.len() == locs.len()
    &&& forall|i: int|
        0 <= i < locs.len() ==> {
            &&& (#[trigger] stops[i]).stop_type == StopType::End
            &&& stops[i].gps@ == locs[i].gps@
            &&& stops[i].area_code@ == locs[i].area_code@
        }
}

pub fn get_search_fulfillment_stops(fulfillment_locations: Option<&Vec<ProductFulFillmentLocations>>) -> (r:
    Option<Vec<SearchStop>>)
    ensures
        r is Some <==> fulfillment_locations is Some,
        r is Some ==> are_end_stops(r->0@, fulfillment_locations->0@),
{
    match fulfillment_locations {
        Some(locations) => {
            let mut stops: Vec<SearchStop> = Vec::new();
            let mut i: usize = 0;
            while i < locations.len()
                invariant
                    i <= locations@.len(),
                    are_end_stops(stops@, locations@.subrange(0, i as int)),
                decreases locations.len() - i,
            {
                stops.push(
                    SearchStop {
                        stop_type: StopType::End,
                        gps: copy_string(&locations[i].gps),
                        area_code: copy_string(&locations[i].area_code),
                    },
                );
                i = i + 1;
            }
            proof {
                assert(locations@.subrange(0, locations@.len() as int) =~= locations@);
            }
            Some(stops)
        },
        None => None,
    }
}

pub fn get_ondc_search_payment_obj(payment_obj: &Option<PaymentType>) -> (r: Option<SearchPayment>)
    ensures
        r is Some <==> payment_obj is Some,
        r is Some ==> r->0.payment_type == payment_obj->0,
{
    match payment_obj {
        Some(p) => Some(SearchPayment { payment_type: *p }),
        None => None,
    }
}

/// A search fulfillment, present when the search names a fulfillment type.
pub fn get_search_fulfillment_obj(
    fulfillment_type: &Option<FulfillmentType>,
    locations: Option<&Vec<ProductFulFillmentLocations>>,
) -> (r: Option<SearchFulfillment>)
    ensures
        r is Some <==> fulfillment_type is Some,
        r is Some ==> r->0.fulfillment_type == fulfillment_type->0 && (r->0.stops is Some
            <==> locations is Some) && (r->0.stops is Some ==> are_end_stops(
            r->0.stops->0@,
            locations->0@,
        )),
{
    match fulfillment_type {
        Some(t) => Some(
            SearchFulfillment { fulfillment_type: *t, stops: get_search_fulfillment_stops(locations) },
        ),
        None => None,
    }
}

/// The intent of a search: what `get_ondc_search_message_obj` owes.
pub open spec fn is_search_intent(
    m: SearchMessage,
    b: BusinessAccount,
    req: ProductSearchRequest,
    np: RegisteredNetworkParticipant,
) -> bool {
    let it = m.intent;
    &&& (it.fulfillment is Some <==> (req.search_type != ProductSearchType::City
        && req.fulfillment_type is Some))
    &&& it.fulfillment is Some ==> it.fulfillment->0.fulfillment_type == req.fulfillment_type->0
        && (it.fulfillment->0.stops is Some <==> req.fulfillment_locations is Some) && (
    it.fulfillment->0.stops is Some ==> are_end_stops(
        it.fulfillment->0.stops->0@,
        req.fulfillment_locations->0@,
    ))
    &&& (it.payment is Some <==> (req.search_type != ProductSearchType::City
        && req.payment_type is Some))
    &&& it.payment is Some ==> it.payment->0.payment_type == req.payment_type->0
    &&& it.tags@.len() == 2
    &&& is_buyer_fee_tag(it.tags@[0], np)
    &&& is_buyer_id_tag(it.tags@[1], b)
    &&& (it.item is Some <==> req.search_type == ProductSearchType::Item)
    &&& it.item is Some ==> it.item->0.name@ == req.query@
    &&& (it.category is Some <==> req.search_type == ProductSearchType::Category)
    &&& it.category is Some ==> it.category->0.id@ == req.query@
}

/// The search message; fails only when the buyer-id tag cannot be made.
pub fn get_ondc_search_message_obj(
    _user_account: &UserAccount,
    business_account: &BusinessAccount,
    search_request: &ProductSearchRequest,
    np_detail: &RegisteredNetworkParticipant,
) -> (r: Result<SearchMessage, AdapterError>)
    ensures
        r is Ok <==> buyer_id_value(*business_account) is Some,
        r is Ok ==> is_search_intent(r->Ok_0, *business_account, *search_request, *np_detail),
        r is Err ==> is_validation(r->Err_0, "Failed to get buyer ID tag"@),
{
    let mut fulfillment_obj: Option<SearchFulfillment> = None;
    let mut payment_obj: Option<SearchPayment> = None;
    if search_request.search_type != ProductSearchType::City {
        fulfillment_obj = get_search_fulfillment_obj(
            &search_request.fulfillment_type,
            search_request.fulfillment_locations.as_ref(),
        );
        payment_obj = get_ondc_search_payment_obj(&search_request.payment_type);
    }
    let id_tag = get_buyer_id_tag(business_account)?;
    let mut tags: Vec<Tag> = Vec::new();
    tags.push(get_buyer_fee_tag(np_detail));
    tags.push(id_tag);
    let item = if search_request.search_type == ProductSearchType::Item {
        Some(SearchItem { name: copy_string(&search_request.query) })
    } else {
        None
    };
    let category = if search_request.search_type == ProductSearchType::Category {
        Some(SearchCategory { id: copy_string(&search_request.query) })
    } else {
        None
    };
    Ok(
        SearchMessage {
            intent: SearchIntent {
                fulfillment: fulfillment_obj,
                tags,
                payment: payment_obj,
                item,
                category,
            },
        },
    )
}

/// What a search assembly owes: an envelope exactly when the account has a
/// buyer id, with the context addressed to no seller and the intent;
/// otherwise the buyer-id validation error.
pub open spec fn is_search_outcome(
    r: Result<SearchEnvelope, AdapterError>,
    b: BusinessAccount,
    req: ProductSearchRequest,
    np: RegisteredNetworkParticipant,
    now_ms: i64,
) -> bool {
    &&& (r is Ok <==> buyer_id_value(b) is Some)
    &&& r is Ok ==> is_context(
        r->Ok_0.context,
        req.transaction_id,
        req.message_id,
        req.domain_category_code@,
        ActionType::Search,
        np.subscriber_id@,
        np.subscriber_uri@,
        None,
        None,
        req.country_code@,
        req.city_code@,
        None,
        now_ms,
    ) && is_search_intent(r->Ok_0.message, b, req, np)
    &&& r is Err ==> is_validation(r->Err_0, "Failed to get buyer ID tag"@)
}

/// The search envelope: a context addressed to no seller, and the intent.
pub fn get_ondc_search_payload(
    user_account: &UserAccount,
    business_account: &BusinessAccount,
    search_request: &ProductSearchRequest,
    np_detail: &RegisteredNetworkParticipant,
    now_ms: i64,
) -> (r: Result<SearchEnvelope, AdapterError>)
    ensures
        is_search_outcome(r, *business_account, *search_request, *np_detail, now_ms),
{
    let context = get_common_context(
        search_request.transaction_id,
        search_request.message_id,
        &search_request.domain_category_code,
        ActionType::Search,
        &np_detail.subscriber_id,
        &np_detail.subscriber_uri,
        None,
        None,
        &search_request.country_code,
        &search_request.city_code,
        None,
        now_ms,
    );
    let message = get_ondc_search_message_obj(
        user_account,
        business_account,
        search_request,
        np_detail,
    )?;
    Ok(SearchEnvelope { context, message })
}

} // verus!
