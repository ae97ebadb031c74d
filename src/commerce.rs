use crate::accounts::{BusinessAccount, ParticipantEntry, RegisteredNetworkParticipant, UserAccount};
use crate::amount::Amount;
use crate::catalog::SellerProductInfo;
use crate::envelope::opt_view;
use crate::order_envelope::same_strs;
use crate::schemas::{
    BasicNetWorkData, BuyerCommerce, BuyerCommerceFulfillment, BuyerCommerceItem, BuyerCommercePayment,
    BuyerCommerceSeller, BuyerTerm, CommerceFulfillmentStatusType, DeliveryTerm, DropOffContact,
    DropOffData, DropOffLocation, FulfillmentLocation, FulfillmentType, OrderSelectFulfillment,
    OrderSelectItem, OrderSelectRequest, PaymentType,
};
use crate::status::CommerceStatusType;
use crate::tags::{copy_string, copy_strings};
use vstd::prelude::*;

verus! {

/// The catalog row is the one for this seller platform, provider and item.
pub open spec fn is_product_for(r: SellerProductInfo, bpp: Seq<char>, provider: Seq<char>, item: Seq<char>) -> bool {
    r.seller_subscriber_id@ == bpp && r.provider_id@ == provider && r.item_id@ == item
}

/// The index of the first catalog row for the item, if any.
pub open spec fn first_product(
    rows: Seq<SellerProductInfo>,
    bpp: Seq<char>,
    provider: Seq<char>,
    item: Seq<char>,
) -> Option<int> {
    if exists|k: int| 0 <= k < rows.len() && is_product_for(#[trigger] rows[k], bpp, provider, item) {
        let k = choose|k: int|
            0 <= k < rows.len() && is_product_for(#[trigger] rows[k], bpp, provider, item) && forall|j: int|
                0 <= j < k ==> !is_product_for(#[trigger] rows[j], bpp, provider, item);
        Some(k)
    } else {
        None
    }
}

/// Finds the catalog row of an item among rows fetched for a provider.
pub fn find_product(rows: &Vec<SellerProductInfo>, bpp: &String, provider: &String, item: &String) -> (r:
    Option<usize>)
    ensures
        r is Some <==> first_product(rows@, bpp@, provider@, item@) is Some,
        r is Some ==> r->0 as int == first_product(rows@, bpp@, provider@, item@)->0,
        r is Some ==> r->0 < rows@.len(),
{
    let mut i: usize = 0;
    while i < rows.len()
        invariant
            i <= rows@.len(),
            forall|j: int| 0 <= j < i ==> !is_product_for(#[trigger] rows@[j], bpp@, provider@, item@),
        decreases rows.len() - i,
    {
        let row = &rows[i];
        if row.seller_subscriber_id == *bpp && row.provider_id == *provider && row.item_id == *item {
            proof {
                let ghost k = choose|k: int|
                    0 <= k < rows@.len() && is_product_for(#[trigger] rows@[k], bpp@, provider@, item@)
                        && forall|j: int| 0 <= j < k ==> !is_product_for(#[trigger] rows@[j], bpp@, provider@, item@);
                assert(is_product_for(rows@[i as int], bpp@, provider@, item@));
                if k < i {
                } else if k > i {
                    assert(!is_product_for(rows@[i as int], bpp@, provider@, item@));
                }
            }
            return Some(i);
        }
        i = i + 1;
    }
    None
}

/// The first image of a catalog row, or empty.
pub open spec fn first_image(r: SellerProductInfo) -> Seq<char> {
    if r.images@.len() > 0 {
        r.images@[0]@
    } else {
        Seq::empty()
    }
}

/// The catalog fields of a record line: from the catalog row where there is
/// one, else blank names and zero prices.
pub open spec fn has_catalog_fields(o: BuyerCommerceItem, row: Option<SellerProductInfo>) -> bool {
    match row {
        Some(r) => {
            &&& o.item_name@ == r.item_name@
            &&& opt_view(o.item_code) == opt_view(r.item_code)
            &&& o.item_image@ == first_image(r)
            &&& o.mrp == r.mrp
            &&& o.tax_rate == r.tax_rate
        },
        None => {
            &&& o.item_name@ == Seq::<char>::empty()
            &&& o.item_code is None
            &&& o.item_image@ == Seq::<char>::empty()
            &&& o.mrp.value() == 0
            &&& o.tax_rate.value() == 0
        },
    }
}

pub open spec fn row_at(rows: Seq<SellerProductInfo>, k: Option<int>) -> Option<SellerProductInfo> {
    match k {
        Some(i) => Some(rows[i]),
        None => None,
    }
}

/// A record line drafted from a select line.
pub open spec fn is_draft_item(
    o: BuyerCommerceItem,
    it: OrderSelectItem,
    rows: Seq<SellerProductInfo>,
    bpp: Seq<char>,
    provider: Seq<char>,
) -> bool {
    let row = row_at(rows, first_product(rows, bpp, provider, it.item_id@));
    &&& o.item_id@ == it.item_id@
    &&& o.qty.value() == it.qty * 100
    &&& (o.buyer_terms is Some <==> it.buyer_term is Some)
    &&& it.buyer_term is Some ==> o.buyer_terms->0.item_req@ == it.buyer_term->0.item_req@
        && o.buyer_terms->0.packaging_req@ == it.buyer_term->0.packaging_req@
    &&& same_strs(o.location_ids@, it.location_ids@)
    &&& same_strs(o.fulfillment_ids@, it.fulfillment_ids@)
    &&& has_catalog_fields(o, row)
    &&& o.unit_price == match row {
        Some(r) => r.unit_price_with_tax,
        None => Amount { hundredths: 0 },
    }
    &&& o.tax_value.value() == 0 && o.gross_total.value() == 0
    &&& o.available_qty.value() == 0 && o.discount_amount.value() == 0
}

pub(crate) fn catalog_fields(rows: &Vec<SellerProductInfo>, k: Option<usize>) -> (r: (String, Option<String>, String, Amount, Amount, Amount))
    requires
        k is Some ==> k->0 < rows@.len(),
    ensures
        match k {
            Some(i) => {
                let row = rows@[i as int];
                &&& r.0@ == row.item_name@
                &&& opt_view(r.1) == opt_view(row.item_code)
                &&& r.2@ == first_image(row)
                &&& r.3 == row.mrp
                &&& r.4 == row.tax_rate
                &&& r.5 == row.unit_price_with_tax
            },
            None => r.0@ == Seq::<char>::empty() && r.1 is None && r.2@ == Seq::<char>::empty()
                && r.3.value() == 0 && r.4.value() == 0 && r.5.value() == 0,
        },
{
    match k {
        Some(i) => {
            let row = &rows[i];
            let image = if row.images.len() > 0 {
                copy_string(&row.images[0])
            } else {
                String::new()
            };
            let code = match &row.item_code {
                Some(c) => Some(copy_string(c)),
                None => None,
            };
            (copy_string(&row.item_name), code, image, row.mrp, row.tax_rate, row.unit_price_with_tax)
        },
        None => (String::new(), None, String::new(), Amount::zero(), Amount::zero(), Amount::zero()),
    }
}

fn draft_item(
    it: &OrderSelectItem,
    rows: &Vec<SellerProductInfo>,
    bpp: &String,
    provider: &String,
) -> (r: BuyerCommerceItem)
    ensures
        is_draft_item(r, *it, rows@, bpp@, provider@),
{
    let k = find_product(rows, bpp, provider, &it.item_id);
    let (name, code, image, mrp, tax_rate, unit_price) = catalog_fields(rows, k);
    let buyer_terms = match &it.buyer_term {
        Some(t) => Some(BuyerTerm { item_req: copy_string(&t.item_req), packaging_req: copy_string(&t.packaging_req) }),
        None => None,
    };
    BuyerCommerceItem {
        item_id: copy_string(&it.item_id),
        item_name: name,
        item_code: code,
        item_image: image,
        qty: Amount { hundredths: it.qty as i64 * 100 },
        buyer_terms,
        tax_rate,
        tax_value: Amount::zero(),
        unit_price,
        mrp,
        gross_total: Amount::zero(),
        available_qty: Amount::zero(),
        discount_amount: Amount::zero(),
        location_ids: copy_strings(&it.location_ids),
        fulfillment_ids: copy_strings(&it.fulfillment_ids),
    }
}

/// The drop-off stored for a delivery: the select request's location and
/// the buyer's mobile number.
pub open spec fn is_drop_off_from_request(d: DropOffData, l: FulfillmentLocation) -> bool {
    &&& d.location.gps@ == l.gps@
    &&& d.location.area_code@ == l.area_code@
    &&& opt_view(d.location.address) == Some(l.address@)
    &&& d.location.city@ == l.city.name@
    &&& d.location.country@ == l.country.code@
    &&& d.location.state@ == l.state@
    &&& d.contact.mobile_no@ == l.contact_mobile_no@
    &&& d.contact.email is None
}

pub fn create_drop_off_from_rfq_select_fulfullment(fulfillment: &FulfillmentLocation) -> (r: DropOffData)
    ensures
        is_drop_off_from_request(r, *fulfillment),
{
    DropOffData {
        location: DropOffLocation {
            gps: copy_string(&fulfillment.gps),
            area_code: copy_string(&fulfillment.area_code),
            address: Some(copy_string(&fulfillment.address)),
            city: copy_string(&fulfillment.city.name),
            country: copy_string(&fulfillment.country.code),
            state: copy_string(&fulfillment.state),
        },
        contact: DropOffContact { mobile_no: copy_string(&fulfillment.contact_mobile_no), email: None },
    }
}

/// A record fulfillment drafted from a select fulfillment: a drop-off for
/// delivery, no charges yet.
pub open spec fn is_draft_fulfillment(o: BuyerCommerceFulfillment, f: OrderSelectFulfillment) -> bool {
    &&& o.fulfillment_id@ == f.id@
    &&& o.fulfillment_type == f.fulfillment_type
    &&& o.fulfillment_status == CommerceFulfillmentStatusType::Pending
    &&& (o.delivery_term is Some <==> f.delivery_terms is Some)
    &&& f.delivery_terms is Some ==> o.delivery_term->0.inco_terms == f.delivery_terms->0.inco_terms
        && o.delivery_term->0.place_of_delivery@ == f.delivery_terms->0.place_of_delivery@
    &&& (o.drop_off is Some <==> f.fulfillment_type == FulfillmentType::Delivery)
    &&& o.drop_off is Some ==> is_drop_off_from_request(o.drop_off->0, f.location)
    &&& o.pickup is None
    &&& o.packaging_charge.value() == 0 && o.delivery_charge.value() == 0 && o.convenience_fee.value() == 0
}

fn draft_fulfillment(f: &OrderSelectFulfillment) -> (r: BuyerCommerceFulfillment)
    ensures
        is_draft_fulfillment(r, *f),
{
    let drop_off = if f.fulfillment_type == FulfillmentType::Delivery {
        Some(create_drop_off_from_rfq_select_fulfullment(&f.location))
    } else {
        None
    };
    let delivery_term = match &f.delivery_terms {
        Some(d) => Some(DeliveryTerm { inco_terms: d.inco_terms, place_of_delivery: copy_string(&d.place_of_delivery) }),
        None => None,
    };
    BuyerCommerceFulfillment {
        fulfillment_id: copy_string(&f.id),
        fulfillment_type: f.fulfillment_type,
        tat: None,
        fulfillment_status: CommerceFulfillmentStatusType::Pending,
        delivery_term,
        trade_type: None,
        provider_name: None,
        category: None,
        servicable_status: None,
        drop_off,
        pickup: None,
        tracking: None,
        packaging_charge: Amount::zero(),
        delivery_charge: Amount::zero(),
        convenience_fee: Amount::zero(),
    }
}

/// A payment with only its type known.
pub fn payment_of_type(t: PaymentType) -> (r: BuyerCommercePayment)
    ensures
        r.payment_type == t,
        r.collected_by is None,
        r.payment_id is None && r.buyer_fee_type is None && r.buyer_fee_amount is None,
        r.settlement_window is None && r.withholding_amount is None && r.seller_payment_uri is None,
        r.settlement_basis is None && r.settlement_details is None,
        r.seller_payment_ttl is None && r.seller_payment_dsa is None && r.seller_payment_signature is None,
{
    BuyerCommercePayment {
        collected_by: None,
        payment_type: t,
        payment_id: None,
        buyer_fee_type: None,
        buyer_fee_amount: None,
        settlement_window: None,
        withholding_amount: None,
        seller_payment_uri: None,
        settlement_basis: None,
        settlement_details: None,
        seller_payment_ttl: None,
        seller_payment_dsa: None,
        seller_payment_signature: None,
    }
}

/// The record that a select request drafts, before any quote: status
/// `QuoteRequested`, lines priced from the catalog rows (zero on a miss),
/// a drop-off for each delivery, one payment per requested payment type.
pub open spec fn is_drafted_record(
    r: BuyerCommerce,
    req: OrderSelectRequest,
    user: UserAccount,
    business: BusinessAccount,
    bap: RegisteredNetworkParticipant,
    bpp: ParticipantEntry,
    rows: Seq<SellerProductInfo>,
    provider_name: Seq<char>,
    record_id: u128,
    now_ms: i64,
) -> bool {
    &&& r.id == record_id
    &&& r.external_urn == req.transaction_id
    &&& r.record_type == req.order_type
    &&& r.record_status == CommerceStatusType::QuoteRequested
    &&& r.domain_category_code@ == req.domain_category_code@
    &&& r.buyer_id == business.id
    &&& r.buyer_name@ == user.name@
    &&& r.seller.id@ == req.provider_id@ && r.seller.name@ == provider_name
    &&& r.created_on == now_ms && r.updated_on is None && r.created_by == user.id
    &&& r.grand_total is None && r.currency_type is None
    &&& r.bap.id@ == bap.subscriber_id@ && r.bap.uri@ == bap.subscriber_uri@
    &&& r.bpp.id@ == bpp.subscriber_id@ && r.bpp.uri@ == bpp.subscriber_uri@
    &&& r.is_import == req.is_import
    &&& r.quote_ttl@ == req.ttl@
    &&& r.city_code@ == (if req.fulfillments@.len() > 0 { req.fulfillments@[0].location.city.code@ } else { Seq::empty() })
    &&& r.country_code@ == (if req.fulfillments@.len() > 0 { req.fulfillments@[0].location.country.code@ } else { Seq::empty() })
    &&& r.billing is None && r.bpp_terms is None && r.cancellation_terms is None
    &&& r.items@.len() == req.items@.len()
    &&& forall|i: int| 0 <= i < r.items@.len() ==> is_draft_item(#[trigger] r.items@[i], req.items@[i], rows, bpp.subscriber_id@, req.provider_id@)
    &&& r.fulfillments@.len() == req.fulfillments@.len()
    &&& forall|i: int| 0 <= i < r.fulfillments@.len() ==> is_draft_fulfillment(#[trigger] r.fulfillments@[i], req.fulfillments@[i])
    &&& r.payments@.len() == req.payment_types@.len()
    &&& forall|i: int| 0 <= i < r.payments@.len() ==> (#[trigger] r.payments@[i]).payment_type == req.payment_types@[i]
        && r.payments@[i].collected_by is None
}

/// Drafts the commerce record of a select request; it replaces any prior
/// record with the same transaction id.
pub fn draft_select(
    select_request: &OrderSelectRequest,
    user_account: &UserAccount,
    business_account: &BusinessAccount,
    bap_detail: &RegisteredNetworkParticipant,
    bpp_detail: &ParticipantEntry,
    product_rows: &Vec<SellerProductInfo>,
    provider_name: &String,
    record_id: u128,
    now_ms: i64,
) -> (r: BuyerCommerce)
    ensures
        is_drafted_record(
            r,
            *select_request,
            *user_account,
            *business_account,
            *bap_detail,
            *bpp_detail,
            product_rows@,
            provider_name@,
            record_id,
            now_ms,
        ),
{
    let req = select_request;
    let mut items: Vec<BuyerCommerceItem> = Vec::new();
    let mut i: usize = 0;
    while i < req.items.len()
        invariant
            i <= req.items@.len(),
            items@.len() == i,
            forall|k: int| 0 <= k < i ==> is_draft_item(#[trigger] items@[k], req.items@[k], product_rows@, bpp_detail.subscriber_id@, req.provider_id@),
        decreases req.items.len() - i,
    {
        items.push(draft_item(&req.items[i], product_rows, &bpp_detail.subscriber_id, &req.provider_id));
        i = i + 1;
    }
    let mut fulfillments: Vec<BuyerCommerceFulfillment> = Vec::new();
    let mut j: usize = 0;
    while j < req.fulfillments.len()
        invariant
            j <= req.fulfillments@.len(),
            fulfillments@.len() == j,
            forall|k: int| 0 <= k < j ==> is_draft_fulfillment(#[trigger] fulfillments@[k], req.fulfillments@[k]),
        decreases req.fulfillments.len() - j,
    {
        fulfillments.push(draft_fulfillment(&req.fulfillments[j]));
        j = j + 1;
    }
    let mut payments: Vec<BuyerCommercePayment> = Vec::new();
    let mut k: usize = 0;
    while k < req.payment_types.len()
        invariant
            k <= req.payment_types@.len(),
            payments@.len() == k,
            forall|m: int| 0 <= m < k ==> (#[trigger] payments@[m]).payment_type == req.payment_types@[m]
                && payments@[m].collected_by is None,
        decreases req.payment_types.len() - k,
    {
        payments.push(payment_of_type(req.payment_types[k]));
        k = k + 1;
    }
    let (city_code, country_code) = if req.fulfillments.len() > 0 {
        (copy_string(&req.fulfillments[0].location.city.code), copy_string(&req.fulfillments[0].location.country.code))
    } else {
        (String::new(), String::new())
    };
    BuyerCommerce {
        id: record_id,
        urn: String::new(),
        external_urn: req.transaction_id,
        record_type: req.order_type,
        record_status: CommerceStatusType::QuoteRequested,
        domain_category_code: copy_string(&req.domain_category_code),
        buyer_id: business_account.id,
        buyer_name: copy_string(&user_account.name),
        seller: BuyerCommerceSeller { id: copy_string(&req.provider_id), name: copy_string(provider_name) },
        created_on: now_ms,
        updated_on: None,
        created_by: user_account.id,
        grand_total: None,
        currency_type: None,
        bap: BasicNetWorkData { id: copy_string(&bap_detail.subscriber_id), uri: copy_string(&bap_detail.subscriber_uri) },
        bpp: BasicNetWorkData { id: copy_string(&bpp_detail.subscriber_id), uri: copy_string(&bpp_detail.subscriber_uri) },
        is_import: req.is_import,
        quote_ttl: copy_string(&req.ttl),
        city_code,
        country_code,
        billing: None,
        bpp_terms: None,
        cancellation_terms: None,
        items,
        payments,
        fulfillments,
    }
}

/// Buyer terms read back from their two stored columns: present only when both are.
pub fn buyer_term_from_columns(item_req: Option<String>, packaging_req: Option<String>) -> (r: Option<BuyerTerm>)
    ensures
        r is Some <==> (item_req is Some && packaging_req is Some),
        r is Some ==> r->0.item_req == item_req->0 && r->0.packaging_req == packaging_req->0,
{
    match (item_req, packaging_req) {
        (Some(i), Some(p)) => Some(BuyerTerm { item_req: i, packaging_req: p }),
        _ => None,
    }
}

/// Delivery terms read back from their two stored columns: present only when both are.
pub fn delivery_term_from_columns(
    inco_terms: Option<crate::schemas::IncoTermType>,
    place_of_delivery: Option<String>,
) -> (r: Option<DeliveryTerm>)
    ensures
        r is Some <==> (inco_terms is Some && place_of_delivery is Some),
        r is Some ==> r->0.inco_terms == inco_terms->0 && r->0.place_of_delivery == place_of_delivery->0,
{
    match (inco_terms, place_of_delivery) {
        (Some(i), Some(p)) => Some(DeliveryTerm { inco_terms: i, place_of_delivery: p }),
        _ => None,
    }
}

} // verus!
