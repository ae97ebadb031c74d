use crate::accounts::{buyer_id_value, BusinessAccount, ParticipantEntry, RegisteredNetworkParticipant};
use crate::catalog::SellerLocationInfo;
use crate::envelope::{get_buyer_id_tag, get_common_context, is_buyer_id_tag, is_context, opt_view};
use crate::order_envelope::{
    dedup_append, get_delivery_terms_tag, get_item_tag, get_ondc_customer_detail, has_str, is_customer,
    is_delivery_terms_tag, is_item_terms_tag, no_dup_strs, push_unique, same_strs,
};
use crate::protocol::{
    is_validation, ActionType, AdapterError, FulfillmentStop, OrderFulfillment, SelectEnvelope, SelectOrder, SelectProvider,
    SelectedItem, StopContact, StopLocation, StopType,
};
use crate::schemas::{
    FulfillmentLocation, FulfillmentType, OrderSelectFulfillment, OrderSelectItem, OrderSelectRequest, OrderType,
    PaymentType, TradeType,
};
use crate::table::key_view;
use crate::tags::{copy_string, copy_strings, Tag};
use vstd::prelude::*;

verus! {

/// The id names one of the request's fulfillments.
pub open spec fn is_fulfillment_id(fs: Seq<OrderSelectFulfillment>, t: Seq<char>) -> bool {
    exists|k: int| 0 <= k < fs.len() && (#[trigger] fs[k]).id@ == t
}

/// The id names one of the seller's known locations.
pub open spec fn is_known_location(ls: Seq<SellerLocationInfo>, t: Seq<char>) -> bool {
    exists|k: int| 0 <= k < ls.len() && (#[trigger] ls[k]).location_id@ == t
}

/// Every location id that a line names is a fulfillment id of the request
/// or a location in the seller's location mapping.
pub open spec fn locations_closed(
    items: Seq<OrderSelectItem>,
    fs: Seq<OrderSelectFulfillment>,
    ls: Seq<SellerLocationInfo>,
) -> bool {
    forall|i: int, k: int|
        0 <= i < items.len() && 0 <= k < items[i].location_ids@.len() ==> is_fulfillment_id(
            fs,
            #[trigger] items[i].location_ids@[k]@,
        ) || is_known_location(ls, items[i].location_ids@[k]@)
}

fn id_is_known(id: &String, fs: &Vec<OrderSelectFulfillment>, ls: &Vec<SellerLocationInfo>) -> (r: bool)
    ensures
        r == (is_fulfillment_id(fs@, id@) || is_known_location(ls@, id@)),
{
    let mut i: usize = 0;
    while i < fs.len()
        invariant
            i <= fs@.len(),
            forall|k: int| 0 <= k < i ==> (#[trigger] fs@[k]).id@ != id@,
        decreases fs.len() - i,
    {
        if fs[i].id == *id {
            return true;
        }
        i = i + 1;
    }
    let mut j: usize = 0;
    while j < ls.len()
        invariant
            j <= ls@.len(),
            forall|k: int| 0 <= k < fs@.len() ==> (#[trigger] fs@[k]).id@ != id@,
            forall|k: int| 0 <= k < j ==> (#[trigger] ls@[k]).location_id@ != id@,
        decreases ls.len() - j,
    {
        if ls[j].location_id == *id {
            return true;
        }
        j = j + 1;
    }
    false
}

/// Fails fast, with a validation error, when a line names a location that
/// is neither a fulfillment of the request nor a known seller location.
pub fn check_location_closure(
    items: &Vec<OrderSelectItem>,
    fulfillments: &Vec<OrderSelectFulfillment>,
    seller_locations: &Vec<SellerLocationInfo>,
) -> (r: Result<(), AdapterError>)
    ensures
        r is Ok <==> locations_closed(items@, fulfillments@, seller_locations@),
        r is Err ==> is_validation(r->Err_0, "Location is not part of the order"@),
{
    let mut i: usize = 0;
    while i < items.len()
        invariant
            i <= items@.len(),
            forall|a: int, k: int|
                0 <= a < i && 0 <= k < items@[a].location_ids@.len() ==> is_fulfillment_id(
                    fulfillments@,
                    #[trigger] items@[a].location_ids@[k]@,
                ) || is_known_location(seller_locations@, items@[a].location_ids@[k]@),
        decreases items.len() - i,
    {
        let ids = &items[i].location_ids;
        let mut j: usize = 0;
        while j < ids.len()
            invariant
                i < items@.len(),
                ids == &items@[i as int].location_ids,
                j <= ids@.len(),
                forall|a: int, k: int|
                    0 <= a < i && 0 <= k < items@[a].location_ids@.len() ==> is_fulfillment_id(
                        fulfillments@,
                        #[trigger] items@[a].location_ids@[k]@,
                    ) || is_known_location(seller_locations@, items@[a].location_ids@[k]@),
                forall|k: int|
                    0 <= k < j ==> is_fulfillment_id(fulfillments@, (#[trigger] ids@[k])@) || is_known_location(
                        seller_locations@,
                        ids@[k]@,
                    ),
            decreases ids.len() - j,
        {
            if !id_is_known(&ids[j], fulfillments, seller_locations) {
                proof {
                    assert(!(is_fulfillment_id(fulfillments@, items@[i as int].location_ids@[j as int]@)
                        || is_known_location(seller_locations@, items@[i as int].location_ids@[j as int]@)));
                }
                return Err(AdapterError::Validation(String::from_str("Location is not part of the order")));
            }
            j = j + 1;
        }
        i = i + 1;
    }
    Ok(())
}

/// Some line of the request names the location id.
pub open spec fn request_has_location(items: Seq<OrderSelectItem>, t: Seq<char>) -> bool {
    exists|i: int| 0 <= i < items.len() && has_str(#[trigger] items[i].location_ids@, t)
}

/// The lines' location ids, each once, in order of first mention.
pub open spec fn select_location_union(items: Seq<OrderSelectItem>) -> Seq<Seq<char>>
    decreases items.len(),
{
    if items.len() == 0 {
        seq![]
    } else {
        dedup_append(select_location_union(items.drop_last()), items.last().location_ids@)
    }
}

/// The deduplicated union of the request lines' location ids.
pub fn select_location_ids(items: &Vec<OrderSelectItem>) -> (r: Vec<String>)
    ensures
        no_dup_strs(r@),
        forall|t: Seq<char>| #[trigger] has_str(r@, t) <==> request_has_location(items@, t),
        key_view(r@) == select_location_union(items@),
{
    let mut out: Vec<String> = Vec::new();
    let mut i: usize = 0;
    while i < items.len()
        invariant
            i <= items@.len(),
            no_dup_strs(out@),
            forall|t: Seq<char>| #[trigger] has_str(out@, t) <==> request_has_location(items@.subrange(0, i as int), t),
            key_view(out@) == select_location_union(items@.subrange(0, i as int)),
        decreases items.len() - i,
    {
        let ghost done = items@.subrange(0, i as int);
        let ghost next = items@.subrange(0, i as int + 1);
        let ids = &items[i].location_ids;
        let mut j: usize = 0;
        while j < ids.len()
            invariant
                i < items@.len(),
                ids == &items@[i as int].location_ids,
                j <= ids@.len(),
                no_dup_strs(out@),
                forall|t: Seq<char>|
                    #[trigger] has_str(out@, t) <==> (request_has_location(done, t) || has_str(ids@.subrange(0, j as int), t)),
                key_view(out@) == dedup_append(select_location_union(done), ids@.subrange(0, j as int)),
            decreases ids.len() - j,
        {
            push_unique(&mut out, &ids[j]);
            proof {
                assert(ids@.subrange(0, j as int + 1).drop_last() =~= ids@.subrange(0, j as int));
                assert(ids@.subrange(0, j as int + 1).last() == ids@[j as int]);
                let ghost a = ids@.subrange(0, j as int);
                let ghost b = ids@.subrange(0, j as int + 1);
                assert forall|t: Seq<char>| #[trigger] has_str(b, t) <==> (t == ids@[j as int]@ || has_str(a, t)) by {
                    if has_str(b, t) {
                        let k = choose|k: int| 0 <= k < b.len() && (#[trigger] b[k])@ == t;
                        if k < j {
                            assert(a[k] == b[k]);
                        }
                    }
                    if has_str(a, t) {
                        let k = choose|k: int| 0 <= k < a.len() && (#[trigger] a[k])@ == t;
                        assert(a[k] == b[k]);
                    }
                    if t == ids@[j as int]@ {
                        assert(b[j as int] == ids@[j as int]);
                    }
                }
            }
            j = j + 1;
        }
        proof {
            assert(ids@.subrange(0, ids@.len() as int) =~= ids@);
            assert(next.drop_last() =~= done);
            assert(next.last() == items@[i as int]);
            assert forall|t: Seq<char>| request_has_location(next, t) <==> (request_has_location(done, t) || has_str(ids@, t)) by {
                if request_has_location(next, t) {
                    let a = choose|a: int| 0 <= a < next.len() && has_str(#[trigger] next[a].location_ids@, t);
                    if a < i {
                        assert(done[a] == next[a]);
                    }
                }
                if request_has_location(done, t) {
                    let a = choose|a: int| 0 <= a < done.len() && has_str(#[trigger] done[a].location_ids@, t);
                    assert(done[a] == next[a]);
                }
                if has_str(ids@, t) {
                    assert(next[i as int] == items@[i as int]);
                }
            }
        }
        i = i + 1;
    }
    proof {
        assert(items@.subrange(0, items@.len() as int) =~= items@);
    }
    out
}

/// A select line: the request line's ids and count, and its buyer terms as
/// a tag exactly for a purchase order.
pub open spec fn is_select_item(o: SelectedItem, it: OrderSelectItem, order_type: OrderType) -> bool {
    &&& o.id@ == it.item_id@
    &&& same_strs(o.location_ids@, it.location_ids@)
    &&& same_strs(o.fulfillment_ids@, it.fulfillment_ids@)
    &&& o.quantity == it.qty
    &&& (o.tags is Some <==> (order_type == OrderType::PurchaseOrder && it.buyer_term is Some))
    &&& o.tags is Some ==> o.tags->0@.len() == 1 && is_item_terms_tag(
        o.tags->0@[0],
        it.buyer_term->0.item_req@,
        it.buyer_term->0.packaging_req@,
    )
}

pub fn get_ondc_select_order_item(order_type: OrderType, items: &Vec<OrderSelectItem>) -> (r: Vec<SelectedItem>)
    ensures
        r@.len() == items@.len(),
        forall|i: int| 0 <= i < items@.len() ==> is_select_item(#[trigger] r@[i], items@[i], order_type),
{
    let mut out: Vec<SelectedItem> = Vec::new();
    let mut i: usize = 0;
    while i < items.len()
        invariant
            i <= items@.len(),
            out@.len() == i,
            forall|k: int| 0 <= k < i ==> is_select_item(#[trigger] out@[k], items@[k], order_type),
        decreases items.len() - i,
    {
        let it = &items[i];
        let tags = if order_type == OrderType::PurchaseOrder {
            match &it.buyer_term {
                Some(t) => {
                    let mut v: Vec<Tag> = Vec::new();
                    v.push(get_item_tag(&t.item_req, &t.packaging_req));
                    Some(v)
                },
                None => None,
            }
        } else {
            None
        };
        out.push(
            SelectedItem {
                id: copy_string(&it.item_id),
                location_ids: copy_strings(&it.location_ids),
                fulfillment_ids: copy_strings(&it.fulfillment_ids),
                quantity: it.qty,
                tags,
            },
        );
        i = i + 1;
    }
    out
}

/// The end stop of a delivery: where the buyer wants it, and the buyer's number.
pub open spec fn is_end_stop_from(s: FulfillmentStop, l: FulfillmentLocation) -> bool {
    &&& s.stop_type == StopType::End
    &&& s.location.gps@ == l.gps@
    &&& opt_view(s.location.address) == Some(l.address@)
    &&& s.location.area_code@ == l.area_code@
    &&& s.location.city_name@ == l.city.name@
    &&& s.location.country_code@ == l.country.code@
    &&& s.location.state_name@ == l.state@
    &&& s.contact.phone@ == l.contact_mobile_no@
    &&& s.contact.email is None
}

pub fn get_ondc_select_fulfillment_end(location: &FulfillmentLocation) -> (r: Vec<FulfillmentStop>)
    ensures
        r@.len() == 1,
        is_end_stop_from(r@[0], *location),
{
    let mut v: Vec<FulfillmentStop> = Vec::new();
    v.push(
        FulfillmentStop {
            stop_type: StopType::End,
            location: StopLocation {
                gps: copy_string(&location.gps),
                address: Some(copy_string(&location.address)),
                area_code: copy_string(&location.area_code),
                city_name: copy_string(&location.city.name),
                country_code: copy_string(&location.country.code),
                state_name: copy_string(&location.state),
            },
            contact: StopContact { phone: copy_string(&location.contact_mobile_no), email: None },
        },
    );
    v
}

/// Import exactly when the seller's location lies in another country than
/// the buyer's fulfillment.
pub open spec fn trade_type_for(seller_country: Seq<char>, f: OrderSelectFulfillment) -> TradeType {
    if seller_country != f.location.country.code@ {
        TradeType::Import
    } else {
        TradeType::Domestic
    }
}

/// A select fulfillment: an end stop for delivery; for an import delivery
/// also the delivery terms and the customer block with its licence.
pub open spec fn is_select_fulfillment(
    o: OrderFulfillment,
    f: OrderSelectFulfillment,
    seller_country: Seq<char>,
    b: BusinessAccount,
) -> bool {
    let import = f.fulfillment_type == FulfillmentType::Delivery && trade_type_for(seller_country, f)
        == TradeType::Import;
    &&& o.id@ == f.id@
    &&& o.fulfillment_type == f.fulfillment_type
    &&& (o.stops is Some <==> f.fulfillment_type == FulfillmentType::Delivery)
    &&& o.stops is Some ==> o.stops->0@.len() == 1 && is_end_stop_from(o.stops->0@[0], f.location)
    &&& (o.tags is Some <==> (import && f.delivery_terms is Some))
    &&& o.tags is Some ==> o.tags->0@.len() == 1 && is_delivery_terms_tag(
        o.tags->0@[0],
        f.delivery_terms->0.inco_terms,
        f.delivery_terms->0.place_of_delivery@,
    )
    &&& (o.customer is Some <==> import)
    &&& o.customer is Some ==> is_customer(o.customer->0, b, Some(TradeType::Import))
}

pub fn get_ondc_select_fulfillments(
    seller_country: &String,
    fulfillments: &Vec<OrderSelectFulfillment>,
    business_account: &BusinessAccount,
) -> (r: Vec<OrderFulfillment>)
    ensures
        r@.len() == fulfillments@.len(),
        forall|i: int|
            0 <= i < fulfillments@.len() ==> is_select_fulfillment(
                #[trigger] r@[i],
                fulfillments@[i],
                seller_country@,
                *business_account,
            ),
{
    let mut out: Vec<OrderFulfillment> = Vec::new();
    let mut i: usize = 0;
    while i < fulfillments.len()
        invariant
            i <= fulfillments@.len(),
            out@.len() == i,
            forall|k: int|
                0 <= k < i ==> is_select_fulfillment(#[trigger] out@[k], fulfillments@[k], seller_country@, *business_account),
        decreases fulfillments.len() - i,
    {
        let f = &fulfillments[i];
        let import = *seller_country != f.location.country.code;
        let mut stops: Option<Vec<FulfillmentStop>> = None;
        let mut tags: Option<Vec<Tag>> = None;
        let mut customer = None;
        if f.fulfillment_type == FulfillmentType::Delivery {
            stops = Some(get_ondc_select_fulfillment_end(&f.location));
            if import {
                if let Some(d) = &f.delivery_terms {
                    let mut v: Vec<Tag> = Vec::new();
                    v.push(get_delivery_terms_tag(d.inco_terms, &d.place_of_delivery));
                    tags = Some(v);
                }
                customer = Some(get_ondc_customer_detail(business_account, Some(TradeType::Import)));
            }
        }
        out.push(OrderFulfillment { id: copy_string(&f.id), fulfillment_type: f.fulfillment_type, tags, stops, customer });
        i = i + 1;
    }
    out
}

/// What a select envelope owes, given the seller's location country.
pub open spec fn is_select_order(
    o: SelectOrder,
    req: OrderSelectRequest,
    seller_country: Seq<char>,
    b: BusinessAccount,
) -> bool {
    &&& o.provider.id@ == req.provider_id@
    &&& o.provider.ttl@ == req.ttl@
    &&& no_dup_strs(o.provider.location_ids@)
    &&& forall|t: Seq<char>| #[trigger] has_str(o.provider.location_ids@, t) <==> request_has_location(req.items@, t)
    &&& key_view(o.provider.location_ids@) == select_location_union(req.items@)
    &&& o.items@.len() == req.items@.len()
    &&& forall|i: int| 0 <= i < o.items@.len() ==> is_select_item(#[trigger] o.items@[i], req.items@[i], req.order_type)
    &&& o.payments@ == req.payment_types@
    &&& o.fulfillments@.len() == req.fulfillments@.len()
    &&& forall|i: int|
        0 <= i < o.fulfillments@.len() ==> is_select_fulfillment(#[trigger] o.fulfillments@[i], req.fulfillments@[i], seller_country, b)
    &&& o.tags@.len() == 1 && is_buyer_id_tag(o.tags@[0], b)
}

fn copy_payment_types(v: &Vec<PaymentType>) -> (r: Vec<PaymentType>)
    ensures
        r@ == v@,
{
    let mut r: Vec<PaymentType> = Vec::new();
    let mut i: usize = 0;
    while i < v.len()
        invariant
            i <= v@.len(),
            r@ == v@.subrange(0, i as int),
        decreases v.len() - i,
    {
        r.push(v[i]);
        proof {
            assert(r@ =~= v@.subrange(0, i as int + 1));
        }
        i = i + 1;
    }
    proof {
        assert(v@.subrange(0, v@.len() as int) =~= v@);
    }
    r
}

/// The select envelope. Validation fails when the request has no
/// fulfillment, the seller has no known location, the account no buyer id,
/// or a line names an unknown location; trade type is judged against the
/// seller's first known location.
pub fn get_ondc_select_payload(
    business_account: &BusinessAccount,
    order_request: &OrderSelectRequest,
    bap_detail: &RegisteredNetworkParticipant,
    bpp_detail: &ParticipantEntry,
    seller_locations: &Vec<SellerLocationInfo>,
    now_ms: i64,
) -> (r: Result<SelectEnvelope, AdapterError>)
    ensures
        r is Ok <==> (order_request.fulfillments@.len() > 0 && seller_locations@.len() > 0 && buyer_id_value(
            *business_account,
        ) is Some && locations_closed(order_request.items@, order_request.fulfillments@, seller_locations@)),
        r is Err ==> r->Err_0 is Validation,
        order_request.fulfillments@.len() == 0 ==> r is Err && is_validation(r->Err_0, "Fulfillment is missing"@),
        order_request.fulfillments@.len() > 0 && seller_locations@.len() == 0 ==> r is Err && is_validation(
            r->Err_0,
            "Location mapping is Invalid"@,
        ),
        order_request.fulfillments@.len() > 0 && seller_locations@.len() > 0 && buyer_id_value(*business_account) is None
            ==> r is Err && is_validation(r->Err_0, "Failed to get buyer ID tag"@),
        order_request.fulfillments@.len() > 0 && seller_locations@.len() > 0 && buyer_id_value(*business_account) is Some
            && !locations_closed(order_request.items@, order_request.fulfillments@, seller_locations@) ==> r is Err
            && is_validation(r->Err_0, "Location is not part of the order"@),
        r is Ok ==> {
            let first = order_request.fulfillments@[0];
            &&& is_context(
                r->Ok_0.context,
                order_request.transaction_id,
                order_request.message_id,
                order_request.domain_category_code@,
                ActionType::Select,
                bap_detail.subscriber_id@,
                bap_detail.subscriber_uri@,
                Some(bpp_detail.subscriber_id@),
                Some(bpp_detail.subscriber_uri@),
                first.location.country.code@,
                first.location.city.code@,
                Some(order_request.ttl@),
                now_ms,
            )
            &&& is_select_order(r->Ok_0.order, *order_request, seller_locations@[0].country_code@, *business_account)
        },
{
    if order_request.fulfillments.len() == 0 {
        return Err(AdapterError::Validation(String::from_str("Fulfillment is missing")));
    }
    if seller_locations.len() == 0 {
        return Err(AdapterError::Validation(String::from_str("Location mapping is Invalid")));
    }
    let id_tag = get_buyer_id_tag(business_account)?;
    check_location_closure(&order_request.items, &order_request.fulfillments, seller_locations)?;
    let first = &order_request.fulfillments[0];
    let context = get_common_context(
        order_request.transaction_id,
        order_request.message_id,
        &order_request.domain_category_code,
        ActionType::Select,
        &bap_detail.subscriber_id,
        &bap_detail.subscriber_uri,
        Some(&bpp_detail.subscriber_id),
        Some(&bpp_detail.subscriber_uri),
        &first.location.country.code,
        &first.location.city.code,
        Some(&order_request.ttl),
        now_ms,
    );
    let mut tags: Vec<Tag> = Vec::new();
    tags.push(id_tag);
    let order = SelectOrder {
        provider: SelectProvider {
            id: copy_string(&order_request.provider_id),
            location_ids: select_location_ids(&order_request.items),
            ttl: copy_string(&order_request.ttl),
        },
        items: get_ondc_select_order_item(order_request.order_type, &order_request.items),
        tags,
        payments: copy_payment_types(&order_request.payment_types),
        fulfillments: get_ondc_select_fulfillments(
            &seller_locations[0].country_code,
            &order_request.fulfillments,
            business_account,
        ),
    };
    Ok(SelectEnvelope { context, order })
}

} // verus!
