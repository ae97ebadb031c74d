use crate::accounts::{BusinessAccount, UserAccount};
use crate::amount::{amount_or_zero, parse_amount_or_zero, Amount};
use crate::catalog::SellerProductInfo;
use crate::commerce::{
    create_drop_off_from_rfq_select_fulfullment, find_product, first_product, has_catalog_fields,
    is_drop_off_from_request, row_at,
};
use crate::envelope::opt_view;
use crate::order_envelope::same_strs;
use crate::protocol::{
    default_ttl, default_ttl_string, BreakupTitleType, FulfillmentStop, InboundBreakUp, OnSelectFulfillment,
    OnSelectItem, OnSelectResponse, StopType,
};
use crate::schemas::{
    BasicNetWorkData, BuyerCommerce, BuyerCommerceFulfillment, BuyerCommerceItem, BuyerCommercePayment,
    BuyerCommerceSeller, BuyerTerm, CommerceFulfillmentStatusType, DeliveryTerm, DropOffContact,
    DropOffLocation, FulfillmentCategoryType, FulfillmentType, OrderSelectRequest, OrderType,
    PickUpData,
};
use crate::status::{next_status, transition, CommerceStatusType, InboundEvent};
use crate::tags::{copy_string, copy_strings, get_tag_value_from_list, tag_value, Tag, TagCode, TagGroup};
use vstd::prelude::*;

verus! {

/// The line is of the title type and belongs to the item (or fulfillment) id.
pub open spec fn is_line_for(b: InboundBreakUp, t: BreakupTitleType, id: Seq<char>) -> bool {
    b.title_type == t && opt_view(b.item_id) == Some(id)
}

/// The index of the last line of the type for the id: a later line for the
/// same id replaces an earlier one.
pub open spec fn last_line(bs: Seq<InboundBreakUp>, t: BreakupTitleType, id: Seq<char>) -> Option<int>
    decreases bs.len(),
{
    if bs.len() == 0 {
        None
    } else if is_line_for(bs.last(), t, id) {
        Some(bs.len() - 1)
    } else {
        last_line(bs.drop_last(), t, id)
    }
}

proof fn lemma_last_line_range(bs: Seq<InboundBreakUp>, t: BreakupTitleType, id: Seq<char>)
    ensures
        last_line(bs, t, id) is Some ==> 0 <= last_line(bs, t, id)->0 < bs.len() && is_line_for(
            bs[last_line(bs, t, id)->0],
            t,
            id,
        ),
    decreases bs.len(),
{
    if bs.len() > 0 {
        lemma_last_line_range(bs.drop_last(), t, id);
    }
}

/// The breakup line that a record line or fulfillment takes its amounts
/// from: the last one of the title type for the id.
pub fn get_quote_item_breakup_mapping(
    breakups: &Vec<InboundBreakUp>,
    title_type: BreakupTitleType,
    item_id: &String,
) -> (r: Option<usize>)
    ensures
        r is Some <==> last_line(breakups@, title_type, item_id@) is Some,
        r is Some ==> r->0 as int == last_line(breakups@, title_type, item_id@)->0 && r->0 < breakups@.len(),
{
    let mut found: Option<usize> = None;
    let mut i: usize = 0;
    while i < breakups.len()
        invariant
            i <= breakups@.len(),
            found is Some <==> last_line(breakups@.subrange(0, i as int), title_type, item_id@) is Some,
            found is Some ==> found->0 as int == last_line(breakups@.subrange(0, i as int), title_type, item_id@)->0
                && found->0 < i,
        decreases breakups.len() - i,
    {
        proof {
            assert(breakups@.subrange(0, i as int + 1).drop_last() =~= breakups@.subrange(0, i as int));
        }
        let b = &breakups[i];
        let hit = b.title_type == title_type && match &b.item_id {
            Some(x) => *x == *item_id,
            None => false,
        };
        if hit {
            found = Some(i);
        }
        i = i + 1;
    }
    proof {
        assert(breakups@.subrange(0, breakups@.len() as int) =~= breakups@);
    }
    found
}

/// The amount of the last line of the type for the id, zero when there is none.
pub open spec fn line_amount(bs: Seq<InboundBreakUp>, t: BreakupTitleType, id: Seq<char>) -> int {
    match last_line(bs, t, id) {
        Some(k) => amount_or_zero(bs[k].price_value@),
        None => 0,
    }
}

pub fn get_quote_item_value(breakups: &Vec<InboundBreakUp>, title_type: BreakupTitleType, item_id: &String) -> (r:
    Amount)
    ensures
        r.value() == line_amount(breakups@, title_type, item_id@),
{
    match get_quote_item_breakup_mapping(breakups, title_type, item_id) {
        Some(k) => parse_amount_or_zero(breakups[k].price_value.as_str()),
        None => Amount::zero(),
    }
}

pub open spec fn tag_text_or_empty(tags: Seq<Tag>, code: TagCode) -> Seq<char> {
    match tag_value(tags, TagGroup::BuyerTerms, code) {
        Some(v) => v,
        None => Seq::empty(),
    }
}

/// A record line taken from a quoted line: tax, discount, unit price,
/// available quantity and gross total from the quote's breakup (zero where
/// it has none), names and prices from the catalog rows.
pub open spec fn is_quoted_item(
    o: BuyerCommerceItem,
    it: OnSelectItem,
    bs: Seq<InboundBreakUp>,
    rows: Seq<SellerProductInfo>,
    bpp: Seq<char>,
    provider: Seq<char>,
) -> bool {
    let row = row_at(rows, first_product(rows, bpp, provider, it.id@));
    let line = last_line(bs, BreakupTitleType::Item, it.id@);
    &&& o.item_id@ == it.id@
    &&& o.qty.value() == it.quantity * 100
    &&& same_strs(o.location_ids@, it.location_ids@)
    &&& same_strs(o.fulfillment_ids@, it.fulfillment_ids@)
    &&& o.discount_amount.value() == line_amount(bs, BreakupTitleType::Discount, it.id@)
    &&& o.tax_value.value() == line_amount(bs, BreakupTitleType::Tax, it.id@)
    &&& o.unit_price.value() == match line {
        Some(k) => match bs[k].item_price_value {
            Some(v) => amount_or_zero(v@),
            None => 0,
        },
        None => 0,
    }
    &&& o.available_qty.value() == match line {
        Some(k) => match bs[k].quantity {
            Some(q) => q * 100,
            None => 0,
        },
        None => 0,
    }
    &&& o.gross_total.value() == match line {
        Some(k) => amount_or_zero(bs[k].price_value@),
        None => 0,
    }
    &&& (o.buyer_terms is Some <==> it.tags is Some)
    &&& it.tags is Some ==> o.buyer_terms->0.item_req@ == tag_text_or_empty(it.tags->0@, TagCode::ItemReq)
        && o.buyer_terms->0.packaging_req@ == tag_text_or_empty(it.tags->0@, TagCode::PackagingsReq)
    &&& has_catalog_fields(o, row)
}

fn text_or_empty(o: Option<String>) -> (r: String)
    ensures
        r@ == match o {
            Some(s) => s@,
            None => Seq::<char>::empty(),
        },
{
    match o {
        Some(s) => s,
        None => String::new(),
    }
}

fn quoted_item(
    it: &OnSelectItem,
    bs: &Vec<InboundBreakUp>,
    rows: &Vec<SellerProductInfo>,
    bpp: &String,
    provider: &String,
) -> (r: BuyerCommerceItem)
    ensures
        is_quoted_item(r, *it, bs@, rows@, bpp@, provider@),
{
    let k = find_product(rows, bpp, provider, &it.id);
    let (name, code, image, mrp, tax_rate, _catalog_price) = crate::commerce::catalog_fields(rows, k);
    let discount = get_quote_item_value(bs, BreakupTitleType::Discount, &it.id);
    let tax = get_quote_item_value(bs, BreakupTitleType::Tax, &it.id);
    let (unit_price, available, gross) = match get_quote_item_breakup_mapping(bs, BreakupTitleType::Item, &it.id) {
        Some(j) => {
            let b = &bs[j];
            let unit = match &b.item_price_value {
                Some(v) => parse_amount_or_zero(v.as_str()),
                None => Amount::zero(),
            };
            let avail = match b.quantity {
                Some(q) => Amount { hundredths: q as i64 * 100 },
                None => Amount::zero(),
            };
            (unit, avail, parse_amount_or_zero(b.price_value.as_str()))
        },
        None => (Amount::zero(), Amount::zero(), Amount::zero()),
    };
    let buyer_terms = match &it.tags {
        Some(tags) => Some(
            BuyerTerm {
                item_req: text_or_empty(get_tag_value_from_list(tags, TagGroup::BuyerTerms, TagCode::ItemReq)),
                packaging_req: text_or_empty(
                    get_tag_value_from_list(tags, TagGroup::BuyerTerms, TagCode::PackagingsReq),
                ),
            },
        ),
        None => None,
    };
    BuyerCommerceItem {
        item_id: copy_string(&it.id),
        item_name: name,
        item_code: code,
        item_image: image,
        qty: Amount { hundredths: it.quantity as i64 * 100 },
        buyer_terms,
        tax_rate,
        tax_value: tax,
        unit_price,
        mrp,
        gross_total: gross,
        available_qty: available,
        discount_amount: discount,
        location_ids: copy_strings(&it.location_ids),
        fulfillment_ids: copy_strings(&it.fulfillment_ids),
    }
}

/// The first start stop of a quoted fulfillment, as pickup data.
pub open spec fn first_start_stop(stops: Seq<FulfillmentStop>) -> Option<FulfillmentStop>
    decreases stops.len(),
{
    if stops.len() == 0 {
        None
    } else if stops[0].stop_type == StopType::Start {
        Some(stops[0])
    } else {
        first_start_stop(stops.drop_first())
    }
}

/// Pickup data that carries the stop's location and contact.
pub open spec fn is_pickup_from_stop(p: PickUpData, s: FulfillmentStop) -> bool {
    &&& p.location.gps@ == s.location.gps@
    &&& opt_view(p.location.address) == opt_view(s.location.address)
    &&& p.location.area_code@ == s.location.area_code@
    &&& p.location.city@ == s.location.city_name@
    &&& p.location.country@ == s.location.country_code@
    &&& p.location.state@ == s.location.state_name@
    &&& p.contact.mobile_no@ == s.contact.phone@
    &&& opt_view(p.contact.email) == opt_view(s.contact.email)
}

pub fn create_pick_off_from_ondc_select_fulfillment(ends: &Option<Vec<FulfillmentStop>>) -> (r: Option<PickUpData>)
    ensures
        r is Some <==> (ends is Some && first_start_stop(ends->0@) is Some),
        r is Some ==> is_pickup_from_stop(r->0, first_start_stop(ends->0@)->0),
{
    match ends {
        Some(stops) => {
            let mut i: usize = 0;
            proof {
                assert(stops@.subrange(0, stops@.len() as int) =~= stops@);
            }
            while i < stops.len()
                invariant
                    ends is Some,
                    ends->0@ == stops@,
                    i <= stops@.len(),
                    first_start_stop(stops@) == first_start_stop(stops@.subrange(i as int, stops@.len() as int)),
                decreases stops.len() - i,
            {
                proof {
                    assert(stops@.subrange(i as int, stops@.len() as int).drop_first() =~= stops@.subrange(
                        i as int + 1,
                        stops@.len() as int,
                    ));
                }
                let s = &stops[i];
                if s.stop_type == StopType::Start {
                    proof {
                        let ghost rest = stops@.subrange(i as int, stops@.len() as int);
                        assert(rest[0] == stops@[i as int]);
                        assert(rest.len() > 0);
                        assert(first_start_stop(rest) == Some(rest[0]));
                        assert(first_start_stop(ends->0@) == Some(stops@[i as int]));
                    }
                    return Some(
                        PickUpData {
                            location: DropOffLocation {
                                gps: copy_string(&s.location.gps),
                                area_code: copy_string(&s.location.area_code),
                                address: crate::envelope::copy_opt_string(&s.location.address),
                                city: copy_string(&s.location.city_name),
                                country: copy_string(&s.location.country_code),
                                state: copy_string(&s.location.state_name),
                            },
                            contact: DropOffContact {
                                mobile_no: copy_string(&s.contact.phone),
                                email: crate::envelope::copy_opt_string(&s.contact.email),
                            },
                        },
                    );
                }
                i = i + 1;
            }
            None
        },
        None => None,
    }
}

/// A record fulfillment taken from a quoted fulfillment: the seller's
/// category, serviceability, turnaround and tracking; the drop-off and
/// delivery terms of the select's first fulfillment; the pickup from the
/// quote's start stop; the charges from the quote's breakup.
pub open spec fn is_quoted_fulfillment(
    o: BuyerCommerceFulfillment,
    f: OnSelectFulfillment,
    req: OrderSelectRequest,
    bs: Seq<InboundBreakUp>,
) -> bool {
    &&& o.fulfillment_id@ == f.id@
    &&& o.fulfillment_type == (if f.category == FulfillmentCategoryType::SelfPickup {
        FulfillmentType::SelfPickup
    } else {
        FulfillmentType::Delivery
    })
    &&& o.fulfillment_status == CommerceFulfillmentStatusType::Pending
    &&& opt_view(o.tat) == Some(f.tat@)
    &&& opt_view(o.provider_name) == opt_view(f.provider_name)
    &&& o.category == Some(f.category)
    &&& o.servicable_status == Some(f.servicable_status)
    &&& o.tracking == Some(f.tracking)
    &&& (o.delivery_term is Some <==> (req.fulfillments@.len() > 0 && req.fulfillments@[0].delivery_terms is Some))
    &&& o.delivery_term is Some ==> o.delivery_term->0.inco_terms == req.fulfillments@[0].delivery_terms->0.inco_terms
        && o.delivery_term->0.place_of_delivery@ == req.fulfillments@[0].delivery_terms->0.place_of_delivery@
    &&& (o.drop_off is Some <==> (req.fulfillments@.len() > 0 && req.fulfillments@[0].fulfillment_type
        == FulfillmentType::Delivery))
    &&& o.drop_off is Some ==> is_drop_off_from_request(o.drop_off->0, req.fulfillments@[0].location)
    &&& (o.pickup is Some <==> (f.stops is Some && first_start_stop(f.stops->0@) is Some))
    &&& o.pickup is Some ==> is_pickup_from_stop(o.pickup->0, first_start_stop(f.stops->0@)->0)
    &&& o.packaging_charge.value() == line_amount(bs, BreakupTitleType::Packing, f.id@)
    &&& o.delivery_charge.value() == line_amount(bs, BreakupTitleType::Delivery, f.id@)
    &&& o.convenience_fee.value() == line_amount(bs, BreakupTitleType::Misc, f.id@)
}

fn quoted_fulfillment(f: &OnSelectFulfillment, req: &OrderSelectRequest, bs: &Vec<InboundBreakUp>) -> (r:
    BuyerCommerceFulfillment)
    ensures
        is_quoted_fulfillment(r, *f, *req, bs@),
{
    let (delivery_term, drop_off) = if req.fulfillments.len() > 0 {
        let first = &req.fulfillments[0];
        let dt = match &first.delivery_terms {
            Some(d) => Some(DeliveryTerm { inco_terms: d.inco_terms, place_of_delivery: copy_string(&d.place_of_delivery) }),
            None => None,
        };
        let dr = if first.fulfillment_type == FulfillmentType::Delivery {
            Some(create_drop_off_from_rfq_select_fulfullment(&first.location))
        } else {
            None
        };
        (dt, dr)
    } else {
        (None, None)
    };
    BuyerCommerceFulfillment {
        fulfillment_id: copy_string(&f.id),
        fulfillment_type: if f.category == FulfillmentCategoryType::SelfPickup {
            FulfillmentType::SelfPickup
        } else {
            FulfillmentType::Delivery
        },
        tat: Some(copy_string(&f.tat)),
        fulfillment_status: CommerceFulfillmentStatusType::Pending,
        delivery_term,
        trade_type: None,
        provider_name: crate::envelope::copy_opt_string(&f.provider_name),
        category: Some(f.category),
        servicable_status: Some(f.servicable_status),
        drop_off,
        pickup: create_pick_off_from_ondc_select_fulfillment(&f.stops),
        tracking: Some(f.tracking),
        packaging_charge: get_quote_item_value(bs, BreakupTitleType::Packing, &f.id),
        delivery_charge: get_quote_item_value(bs, BreakupTitleType::Delivery, &f.id),
        convenience_fee: get_quote_item_value(bs, BreakupTitleType::Misc, &f.id),
    }
}

/// The record type that a select's time to live implies: a purchase order
/// exactly when it differs from the protocol's default.
pub open spec fn record_type_for_ttl(ttl: Seq<char>) -> OrderType {
    if ttl != default_ttl() {
        OrderType::PurchaseOrder
    } else {
        OrderType::SaleOrder
    }
}

pub fn record_type_of_ttl(ttl: &String) -> (r: OrderType)
    ensures
        r == record_type_for_ttl(ttl@),
{
    let d = default_ttl_string();
    if *ttl != d {
        OrderType::PurchaseOrder
    } else {
        OrderType::SaleOrder
    }
}

/// The record that replaces the draft when the seller quotes: accepted
/// unless the response declares an error, grand total and currency from
/// the quote, lines, fulfillments and payments as the quote gives them.
pub open spec fn is_quoted_record(
    r: BuyerCommerce,
    resp: OnSelectResponse,
    req: OrderSelectRequest,
    user: UserAccount,
    business: BusinessAccount,
    rows: Seq<SellerProductInfo>,
    provider_name: Seq<char>,
    record_id: u128,
    now_ms: i64,
) -> bool {
    let bpp = opt_view(resp.context.bpp_id);
    let bs = resp.quote.breakup@;
    &&& r.id == record_id
    &&& r.external_urn == req.transaction_id
    &&& r.record_type == record_type_for_ttl(req.ttl@)
    &&& r.record_status == (if resp.error is None {
        CommerceStatusType::QuoteAccepted
    } else {
        CommerceStatusType::QuoteRejected
    })
    &&& r.domain_category_code@ == req.domain_category_code@
    &&& r.buyer_id == business.id && r.buyer_name@ == user.name@ && r.created_by == user.id
    &&& r.seller.id@ == req.provider_id@ && r.seller.name@ == provider_name
    &&& r.created_on == resp.context.timestamp_ms && r.updated_on == Some(now_ms)
    &&& r.grand_total == Some(Amount { hundredths: amount_or_zero(resp.quote.price_value@) as i64 })
    &&& r.currency_type == Some(resp.quote.currency)
    &&& r.bap.id@ == resp.context.bap_id@ && r.bap.uri@ == resp.context.bap_uri@
    &&& r.bpp.id@ == (match bpp { Some(b) => b, None => Seq::empty() })
    &&& r.bpp.uri@ == (match opt_view(resp.context.bpp_uri) { Some(b) => b, None => Seq::empty() })
    &&& r.is_import == req.is_import
    &&& r.quote_ttl@ == req.ttl@
    &&& r.city_code@ == resp.context.city_code@ && r.country_code@ == resp.context.country_code@
    &&& r.billing is None && r.bpp_terms is None && r.cancellation_terms is None
    &&& r.items@.len() == resp.items@.len()
    &&& forall|i: int| 0 <= i < r.items@.len() ==> is_quoted_item(#[trigger] r.items@[i], resp.items@[i], bs, rows,
        r.bpp.id@, req.provider_id@)
    &&& r.fulfillments@.len() == resp.fulfillments@.len()
    &&& forall|i: int| 0 <= i < r.fulfillments@.len() ==> is_quoted_fulfillment(#[trigger] r.fulfillments@[i],
        resp.fulfillments@[i], req, bs)
    &&& r.payments@.len() == resp.payments@.len()
    &&& forall|i: int| 0 <= i < r.payments@.len() ==> (#[trigger] r.payments@[i]).payment_type
        == resp.payments@[i].payment_type && r.payments@[i].collected_by == Some(resp.payments@[i].collected_by)
}

/// Builds the record that a quote response leads to; the caller replaces
/// the prior record of the transaction with it, in one transaction. A
/// response that the prior record's status does not accept (a quote that
/// arrives after the order moved on) is ignored: `None`, and the prior
/// record stays.
pub fn apply_quote(
    prior_status: Option<CommerceStatusType>,
    on_select: &OnSelectResponse,
    select_request: &OrderSelectRequest,
    user_account: &UserAccount,
    business_account: &BusinessAccount,
    product_rows: &Vec<SellerProductInfo>,
    provider_name: &String,
    record_id: u128,
    now_ms: i64,
) -> (r: Option<BuyerCommerce>)
    ensures
        r is None <==> (prior_status is Some && transition(
            prior_status->0,
            InboundEvent::OnSelect { ok: on_select.error is None },
        ) is None),
        r is Some ==> is_quoted_record(
            r->0,
            *on_select,
            *select_request,
            *user_account,
            *business_account,
            product_rows@,
            provider_name@,
            record_id,
            now_ms,
        ),
{
    if let Some(prior) = prior_status {
        if next_status(prior, InboundEvent::OnSelect { ok: on_select.error.is_none() }).is_none() {
            return None;
        }
    }
    let ctx = &on_select.context;
    let bpp_id = match &ctx.bpp_id {
        Some(b) => copy_string(b),
        None => String::new(),
    };
    let bpp_uri = match &ctx.bpp_uri {
        Some(b) => copy_string(b),
        None => String::new(),
    };
    let bs = &on_select.quote.breakup;
    let mut items: Vec<BuyerCommerceItem> = Vec::new();
    let mut i: usize = 0;
    while i < on_select.items.len()
        invariant
            i <= on_select.items@.len(),
            items@.len() == i,
            forall|k: int| 0 <= k < i ==> is_quoted_item(#[trigger] items@[k], on_select.items@[k], bs@,
                product_rows@, bpp_id@, select_request.provider_id@),
        decreases on_select.items.len() - i,
    {
        items.push(quoted_item(&on_select.items[i], bs, product_rows, &bpp_id, &select_request.provider_id));
        i = i + 1;
    }
    let mut fulfillments: Vec<BuyerCommerceFulfillment> = Vec::new();
    let mut j: usize = 0;
    while j < on_select.fulfillments.len()
        invariant
            j <= on_select.fulfillments@.len(),
            fulfillments@.len() == j,
            forall|k: int| 0 <= k < j ==> is_quoted_fulfillment(#[trigger] fulfillments@[k],
                on_select.fulfillments@[k], *select_request, bs@),
        decreases on_select.fulfillments.len() - j,
    {
        fulfillments.push(quoted_fulfillment(&on_select.fulfillments[j], select_request, bs));
        j = j + 1;
    }
    let mut payments: Vec<BuyerCommercePayment> = Vec::new();
    let mut k: usize = 0;
    while k < on_select.payments.len()
        invariant
            k <= on_select.payments@.len(),
            payments@.len() == k,
            forall|m: int| 0 <= m < k ==> (#[trigger] payments@[m]).payment_type == on_select.payments@[m].payment_type
                && payments@[m].collected_by == Some(on_select.payments@[m].collected_by),
        decreases on_select.payments.len() - k,
    {
        let mut p = crate::commerce::payment_of_type(on_select.payments[k].payment_type);
        p.collected_by = Some(on_select.payments[k].collected_by);
        payments.push(p);
        k = k + 1;
    }
    let total = parse_amount_or_zero(on_select.quote.price_value.as_str());
    Some(BuyerCommerce {
        id: record_id,
        urn: String::new(),
        external_urn: select_request.transaction_id,
        record_type: record_type_of_ttl(&select_request.ttl),
        record_status: if on_select.error.is_none() {
            CommerceStatusType::QuoteAccepted
        } else {
            CommerceStatusType::QuoteRejected
        },
        domain_category_code: copy_string(&select_request.domain_category_code),
        buyer_id: business_account.id,
        buyer_name: copy_string(&user_account.name),
        seller: BuyerCommerceSeller { id: copy_string(&select_request.provider_id), name: copy_string(provider_name) },
        created_on: ctx.timestamp_ms,
        updated_on: Some(now_ms),
        created_by: user_account.id,
        grand_total: Some(total),
        currency_type: Some(on_select.quote.currency),
        bap: BasicNetWorkData { id: copy_string(&ctx.bap_id), uri: copy_string(&ctx.bap_uri) },
        bpp: BasicNetWorkData { id: bpp_id, uri: bpp_uri },
        is_import: select_request.is_import,
        quote_ttl: copy_string(&select_request.ttl),
        city_code: copy_string(&ctx.city_code),
        country_code: copy_string(&ctx.country_code),
        billing: None,
        bpp_terms: None,
        cancellation_terms: None,
        items,
        payments,
        fulfillments,
    })
}

/// The drop-off of a select envelope: the first stop of its first
/// fulfillment; none when there is no such stop.
pub open spec fn first_drop_off(fs: Seq<crate::protocol::OrderFulfillment>) -> Option<FulfillmentStop> {
    if fs.len() > 0 && fs[0].stops is Some && fs[0].stops->0@.len() > 0 {
        Some(fs[0].stops->0@[0])
    } else {
        None
    }
}

pub fn create_drop_off_from_ondc_select_fulfullment(select_fulfillments: &Vec<crate::protocol::OrderFulfillment>) -> (r:
    Option<crate::schemas::DropOffData>)
    ensures
        r is Some <==> first_drop_off(select_fulfillments@) is Some,
        r is Some ==> is_pickup_from_stop(
            PickUpData { location: r->0.location, contact: r->0.contact },
            first_drop_off(select_fulfillments@)->0,
        ),
{
    if select_fulfillments.len() == 0 {
        return None;
    }
    match &select_fulfillments[0].stops {
        Some(stops) => {
            if stops.len() == 0 {
                return None;
            }
            let st = &stops[0];
            Some(
                crate::schemas::DropOffData {
                    location: DropOffLocation {
                        gps: copy_string(&st.location.gps),
                        area_code: copy_string(&st.location.area_code),
                        address: crate::envelope::copy_opt_string(&st.location.address),
                        city: copy_string(&st.location.city_name),
                        country: copy_string(&st.location.country_code),
                        state: copy_string(&st.location.state_name),
                    },
                    contact: DropOffContact {
                        mobile_no: copy_string(&st.contact.phone),
                        email: crate::envelope::copy_opt_string(&st.contact.email),
                    },
                },
            )
        },
        None => None,
    }
}

/// A quote response is taken only while the quote is still requested: for
/// any later status it is ignored, so the record never falls back to a quote
/// status; while requested it leads to acceptance or rejection.
pub proof fn lemma_late_quote_ignored(prior: CommerceStatusType, ok: bool)
    ensures
        prior != CommerceStatusType::QuoteRequested ==> transition(prior, InboundEvent::OnSelect { ok }) is None,
        prior == CommerceStatusType::QuoteRequested ==> transition(prior, InboundEvent::OnSelect { ok }) == Some(
            if ok {
                CommerceStatusType::QuoteAccepted
            } else {
                CommerceStatusType::QuoteRejected
            },
        ),
{
}

} // verus!
