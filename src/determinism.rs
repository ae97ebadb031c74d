use crate::accounts::{BusinessAccount, RegisteredNetworkParticipant};
use crate::envelope::{are_end_stops, is_context, is_search_intent, opt_view, ProductSearchRequest};
use crate::order_envelope::is_record_context;
use crate::order_envelope::{
    is_cancel_fee, is_confirm_order, is_item_from_record, is_record_fulfillment, is_settlement_for, same_strs,
};
use crate::protocol::{BreakUp, CancellationFee, ConfirmOrder, ConfirmPayment, PaymentSettlement};
use crate::quote::{is_fulfillment_breakup, is_fulfillment_triple, is_item_breakup, is_item_triple};
use crate::schemas::CurrencyType;
use crate::protocol::{
    ActionType, CancelEnvelope, Context, Customer, FulfillmentStop, OrderFulfillment, SearchMessage, SearchStop,
    SelectOrder, SelectedItem, StatusEnvelope,
};
use crate::select::{is_select_fulfillment, is_select_item, is_select_order};
use crate::table::key_view;
use crate::schemas::BuyerCommerce;
use crate::tags::Tag;
use vstd::prelude::*;

verus! {

/// Two contexts that serialize alike: every field equal as text or value.
pub open spec fn same_context(a: Context, b: Context) -> bool {
    &&& a.domain@ == b.domain@ && a.city_code@ == b.city_code@ && a.country_code@ == b.country_code@
    &&& a.action == b.action && a.version == b.version
    &&& a.transaction_id == b.transaction_id && a.message_id == b.message_id
    &&& a.bap_id@ == b.bap_id@ && a.bap_uri@ == b.bap_uri@
    &&& opt_view(a.bpp_id) == opt_view(b.bpp_id) && opt_view(a.bpp_uri) == opt_view(b.bpp_uri)
    &&& a.timestamp_ms == b.timestamp_ms && a.ttl@ == b.ttl@
}

pub open spec fn same_tag(a: Tag, b: Tag) -> bool {
    &&& a.code == b.code
    &&& a.list@.len() == b.list@.len()
    &&& forall|i: int| 0 <= i < a.list@.len() ==> (#[trigger] a.list@[i]).code == b.list@[i].code
        && a.list@[i].value@ == b.list@[i].value@
}

pub open spec fn same_stops(a: Seq<SearchStop>, b: Seq<SearchStop>) -> bool {
    &&& a.len() == b.len()
    &&& forall|i: int| 0 <= i < a.len() ==> (#[trigger] a[i]).stop_type == b[i].stop_type && a[i].gps@ == b[i].gps@
        && a[i].area_code@ == b[i].area_code@
}

/// Two search messages that serialize alike.
pub open spec fn same_search_message(a: SearchMessage, b: SearchMessage) -> bool {
    let x = a.intent;
    let y = b.intent;
    &&& (x.fulfillment is Some <==> y.fulfillment is Some)
    &&& x.fulfillment is Some ==> {
        let f = x.fulfillment->0;
        let g = y.fulfillment->0;
        &&& f.fulfillment_type == g.fulfillment_type
        &&& (f.stops is Some <==> g.stops is Some)
        &&& f.stops is Some ==> same_stops(f.stops->0@, g.stops->0@)
    }
    &&& x.tags@.len() == y.tags@.len()
    &&& forall|i: int| 0 <= i < x.tags@.len() ==> same_tag(#[trigger] x.tags@[i], y.tags@[i])
    &&& (x.payment is Some <==> y.payment is Some)
    &&& x.payment is Some ==> x.payment->0.payment_type == y.payment->0.payment_type
    &&& (x.item is Some <==> y.item is Some)
    &&& x.item is Some ==> x.item->0.name@ == y.item->0.name@
    &&& (x.category is Some <==> y.category is Some)
    &&& x.category is Some ==> x.category->0.id@ == y.category->0.id@
}

/// Search envelope assembly is deterministic: for fixed request, account,
/// registration and clock, any two envelopes that meet the contract of
/// `get_ondc_search_payload` agree on every field, so they serialize to
/// the same bytes.
pub proof fn lemma_search_envelope_deterministic(
    first_context: Context,
    first_message: SearchMessage,
    second_context: Context,
    second_message: SearchMessage,
    b: BusinessAccount,
    req: ProductSearchRequest,
    np: RegisteredNetworkParticipant,
    now_ms: i64,
)
    requires
        is_context(first_context, req.transaction_id, req.message_id, req.domain_category_code@, ActionType::Search,
            np.subscriber_id@, np.subscriber_uri@, None, None, req.country_code@, req.city_code@, None, now_ms),
        is_context(second_context, req.transaction_id, req.message_id, req.domain_category_code@, ActionType::Search,
            np.subscriber_id@, np.subscriber_uri@, None, None, req.country_code@, req.city_code@, None, now_ms),
        is_search_intent(first_message, b, req, np),
        is_search_intent(second_message, b, req, np),
    ensures
        same_context(first_context, second_context),
        same_search_message(first_message, second_message),
{
    let x = first_message.intent;
    let y = second_message.intent;
    if x.fulfillment is Some && x.fulfillment->0.stops is Some {
        let f = x.fulfillment->0.stops->0@;
        let g = y.fulfillment->0.stops->0@;
        assert(are_end_stops(f, req.fulfillment_locations->0@));
        assert(are_end_stops(g, req.fulfillment_locations->0@));
        assert forall|i: int| 0 <= i < f.len() implies (#[trigger] f[i]).stop_type == g[i].stop_type && f[i].gps@
            == g[i].gps@ && f[i].area_code@ == g[i].area_code@ by {}
    }
    assert forall|i: int| 0 <= i < x.tags@.len() implies same_tag(#[trigger] x.tags@[i], y.tags@[i]) by {
        if i == 0 {
            assert forall|k: int| 0 <= k < x.tags@[0].list@.len() implies (#[trigger] x.tags@[0].list@[k]).code
                == y.tags@[0].list@[k].code && x.tags@[0].list@[k].value@ == y.tags@[0].list@[k].value@ by {}
        } else {
            assert forall|k: int| 0 <= k < x.tags@[1].list@.len() implies (#[trigger] x.tags@[1].list@[k]).code
                == y.tags@[1].list@[k].code && x.tags@[1].list@[k].value@ == y.tags@[1].list@[k].value@ by {}
        }
    }
}

/// Status and cancel envelopes are deterministic too: two envelopes that
/// meet the contracts for the same record, ids, reason and clock agree on
/// every field.
pub proof fn lemma_status_cancel_deterministic(
    first_status: StatusEnvelope,
    second_status: StatusEnvelope,
    first_cancel: CancelEnvelope,
    second_cancel: CancelEnvelope,
    order: BuyerCommerce,
    transaction_id: u128,
    message_id: u128,
    reason: Seq<char>,
    now_ms: i64,
)
    requires
        is_record_context(first_status.context, order, transaction_id, message_id, ActionType::Status, now_ms),
        is_record_context(second_status.context, order, transaction_id, message_id, ActionType::Status, now_ms),
        first_status.order_id@ == order.urn@ && second_status.order_id@ == order.urn@,
        is_record_context(first_cancel.context, order, transaction_id, message_id, ActionType::Cancel, now_ms),
        is_record_context(second_cancel.context, order, transaction_id, message_id, ActionType::Cancel, now_ms),
        first_cancel.order_id@ == order.urn@ && second_cancel.order_id@ == order.urn@,
        first_cancel.cancellation_reason_id@ == reason && second_cancel.cancellation_reason_id@ == reason,
    ensures
        same_context(first_status.context, second_status.context) && first_status.order_id@ == second_status.order_id@,
        same_context(first_cancel.context, second_cancel.context) && first_cancel.order_id@ == second_cancel.order_id@
            && first_cancel.cancellation_reason_id@ == second_cancel.cancellation_reason_id@,
{
}

pub open spec fn same_tags(a: Seq<Tag>, b: Seq<Tag>) -> bool {
    a.len() == b.len() && forall|i: int| 0 <= i < a.len() ==> same_tag(#[trigger] a[i], b[i])
}

pub open spec fn same_opt_tags(a: Option<Vec<Tag>>, b: Option<Vec<Tag>>) -> bool {
    (a is Some <==> b is Some) && (a is Some ==> same_tags(a->0@, b->0@))
}

pub open spec fn same_item(a: SelectedItem, b: SelectedItem) -> bool {
    &&& a.id@ == b.id@
    &&& same_strs(a.location_ids@, b.location_ids@)
    &&& same_strs(a.fulfillment_ids@, b.fulfillment_ids@)
    &&& a.quantity == b.quantity
    &&& same_opt_tags(a.tags, b.tags)
}

pub open spec fn same_stop(a: FulfillmentStop, b: FulfillmentStop) -> bool {
    &&& a.stop_type == b.stop_type
    &&& a.location.gps@ == b.location.gps@
    &&& opt_view(a.location.address) == opt_view(b.location.address)
    &&& a.location.area_code@ == b.location.area_code@
    &&& a.location.city_name@ == b.location.city_name@
    &&& a.location.country_code@ == b.location.country_code@
    &&& a.location.state_name@ == b.location.state_name@
    &&& a.contact.phone@ == b.contact.phone@
    &&& opt_view(a.contact.email) == opt_view(b.contact.email)
}

pub open spec fn same_customer(a: Customer, b: Customer) -> bool {
    &&& a.name@ == b.name@
    &&& (a.creds is Some <==> b.creds is Some)
    &&& a.creds is Some ==> {
        let x = a.creds->0@;
        let y = b.creds->0@;
        x.len() == y.len() && forall|i: int| 0 <= i < x.len() ==> (#[trigger] x[i]).id@ == y[i].id@ && x[i].url@ == y[i].url@
    }
}

pub open spec fn same_fulfillment(a: OrderFulfillment, b: OrderFulfillment) -> bool {
    &&& a.id@ == b.id@
    &&& a.fulfillment_type == b.fulfillment_type
    &&& same_opt_tags(a.tags, b.tags)
    &&& (a.stops is Some <==> b.stops is Some)
    &&& a.stops is Some ==> {
        let x = a.stops->0@;
        let y = b.stops->0@;
        x.len() == y.len() && forall|i: int| 0 <= i < x.len() ==> same_stop(#[trigger] x[i], y[i])
    }
    &&& (a.customer is Some <==> b.customer is Some)
    &&& a.customer is Some ==> same_customer(a.customer->0, b.customer->0)
}

/// Two select orders that serialize alike.
pub open spec fn same_select_order(a: SelectOrder, b: SelectOrder) -> bool {
    &&& a.provider.id@ == b.provider.id@
    &&& a.provider.ttl@ == b.provider.ttl@
    &&& key_view(a.provider.location_ids@) == key_view(b.provider.location_ids@)
    &&& a.items@.len() == b.items@.len()
    &&& forall|i: int| 0 <= i < a.items@.len() ==> same_item(#[trigger] a.items@[i], b.items@[i])
    &&& a.payments@ == b.payments@
    &&& a.fulfillments@.len() == b.fulfillments@.len()
    &&& forall|i: int| 0 <= i < a.fulfillments@.len() ==> same_fulfillment(#[trigger] a.fulfillments@[i], b.fulfillments@[i])
    &&& same_tags(a.tags@, b.tags@)
}

/// Select envelope assembly is deterministic: for a fixed request, account,
/// participants, seller location snapshot and clock, any two envelopes that
/// meet the contract of `get_ondc_select_payload` agree on every field,
/// provider location order included.
pub proof fn lemma_select_envelope_deterministic(
    first_context: Context,
    second_context: Context,
    a: SelectOrder,
    b: SelectOrder,
    req: crate::schemas::OrderSelectRequest,
    bap_id: Seq<char>,
    bap_uri: Seq<char>,
    bpp_id: Seq<char>,
    bpp_uri: Seq<char>,
    seller_country: Seq<char>,
    business: BusinessAccount,
    now_ms: i64,
)
    requires
        req.fulfillments@.len() > 0,
        is_context(first_context, req.transaction_id, req.message_id, req.domain_category_code@, ActionType::Select,
            bap_id, bap_uri, Some(bpp_id), Some(bpp_uri), req.fulfillments@[0].location.country.code@,
            req.fulfillments@[0].location.city.code@, Some(req.ttl@), now_ms),
        is_context(second_context, req.transaction_id, req.message_id, req.domain_category_code@, ActionType::Select,
            bap_id, bap_uri, Some(bpp_id), Some(bpp_uri), req.fulfillments@[0].location.country.code@,
            req.fulfillments@[0].location.city.code@, Some(req.ttl@), now_ms),
        is_select_order(a, req, seller_country, business),
        is_select_order(b, req, seller_country, business),
    ensures
        same_context(first_context, second_context),
        same_select_order(a, b),
{
    assert forall|i: int| 0 <= i < a.items@.len() implies same_item(#[trigger] a.items@[i], b.items@[i]) by {
        let x = a.items@[i];
        let y = b.items@[i];
        assert(is_select_item(x, req.items@[i], req.order_type));
        assert(is_select_item(y, req.items@[i], req.order_type));
        if x.tags is Some {
            assert forall|k: int| 0 <= k < x.tags->0@[0].list@.len() implies (#[trigger] x.tags->0@[0].list@[k]).code
                == y.tags->0@[0].list@[k].code && x.tags->0@[0].list@[k].value@ == y.tags->0@[0].list@[k].value@ by {}
            assert(same_tag(x.tags->0@[0], y.tags->0@[0]));
        }
    }
    assert forall|i: int| 0 <= i < a.fulfillments@.len() implies same_fulfillment(
        #[trigger] a.fulfillments@[i],
        b.fulfillments@[i],
    ) by {
        let x = a.fulfillments@[i];
        let y = b.fulfillments@[i];
        assert(is_select_fulfillment(x, req.fulfillments@[i], seller_country, business));
        assert(is_select_fulfillment(y, req.fulfillments@[i], seller_country, business));
        if x.tags is Some {
            assert forall|k: int| 0 <= k < x.tags->0@[0].list@.len() implies (#[trigger] x.tags->0@[0].list@[k]).code
                == y.tags->0@[0].list@[k].code && x.tags->0@[0].list@[k].value@ == y.tags->0@[0].list@[k].value@ by {}
            assert(same_tag(x.tags->0@[0], y.tags->0@[0]));
        }
        if x.stops is Some {
            assert(same_stop(x.stops->0@[0], y.stops->0@[0]));
        }
        if x.customer is Some && x.customer->0.creds is Some {
            assert(x.customer->0.creds->0@[0].id@ == y.customer->0.creds->0@[0].id@);
        }
    }
    assert forall|k: int| 0 <= k < a.tags@[0].list@.len() implies (#[trigger] a.tags@[0].list@[k]).code
        == b.tags@[0].list@[k].code && a.tags@[0].list@[k].value@ == b.tags@[0].list@[k].value@ by {}
    assert forall|i: int| 0 <= i < a.tags@.len() implies same_tag(#[trigger] a.tags@[i], b.tags@[i]) by {}
}

pub open spec fn same_breakup(a: BreakUp, b: BreakUp) -> bool {
    &&& a.title@ == b.title@
    &&& a.item_id@ == b.item_id@
    &&& a.title_type == b.title_type
    &&& a.price == b.price
    &&& a.quantity == b.quantity
    &&& a.item_price == b.item_price
}

pub open spec fn same_breakups(a: Seq<BreakUp>, b: Seq<BreakUp>) -> bool {
    a.len() == b.len() && forall|j: int| 0 <= j < a.len() ==> same_breakup(#[trigger] a[j], b[j])
}

proof fn lemma_triple_index(j: int)
    requires
        0 <= j,
    ensures
        j == 3 * (j / 3) + j % 3,
        0 <= j % 3 < 3,
        0 <= j / 3,
{
}

proof fn lemma_same_fulfillment_breakup(
    x: Seq<BreakUp>,
    y: Seq<BreakUp>,
    fs: Seq<crate::schemas::BuyerCommerceFulfillment>,
    cur: CurrencyType,
)
    requires
        is_fulfillment_breakup(x, fs, cur),
        is_fulfillment_breakup(y, fs, cur),
    ensures
        same_breakups(x, y),
{
    assert forall|j: int| 0 <= j < x.len() implies same_breakup(#[trigger] x[j], y[j]) by {
        lemma_triple_index(j);
        let k = j / 3;
        assert(k < fs.len());
        assert(is_fulfillment_triple(x, k, fs[k], cur));
        assert(is_fulfillment_triple(y, k, fs[k], cur));
    }
}

proof fn lemma_same_item_breakup(x: Seq<BreakUp>, y: Seq<BreakUp>, items: Seq<crate::schemas::BuyerCommerceItem>, cur: CurrencyType)
    requires
        is_item_breakup(x, items, cur),
        is_item_breakup(y, items, cur),
    ensures
        same_breakups(x, y),
{
    assert forall|j: int| 0 <= j < x.len() implies same_breakup(#[trigger] x[j], y[j]) by {
        lemma_triple_index(j);
        let k = j / 3;
        assert(k < items.len());
        assert(is_item_triple(x, k, items[k], cur));
        assert(is_item_triple(y, k, items[k], cur));
    }
}

pub open spec fn same_settlement(a: PaymentSettlement, b: PaymentSettlement) -> bool {
    &&& a.counterparty == b.counterparty
    &&& a.phase@ == b.phase@ && a.settlement_type@ == b.settlement_type@
    &&& a.bank_account_no@ == b.bank_account_no@ && a.ifsc@ == b.ifsc@
    &&& a.beneficiary@ == b.beneficiary@ && a.bank_name@ == b.bank_name@
}

pub open spec fn same_payment(a: ConfirmPayment, b: ConfirmPayment) -> bool {
    &&& a.payment_type == b.payment_type && a.collected_by == b.collected_by
    &&& a.amount == b.amount && a.currency == b.currency
    &&& opt_view(a.transaction_id) == opt_view(b.transaction_id)
    &&& a.buyer_fee_type == b.buyer_fee_type && a.buyer_fee_amount == b.buyer_fee_amount
    &&& a.settlement_window@ == b.settlement_window@ && a.withholding_amount == b.withholding_amount
    &&& a.settlement_details@.len() == b.settlement_details@.len()
    &&& forall|i: int| 0 <= i < a.settlement_details@.len() ==> same_settlement(
        #[trigger] a.settlement_details@[i],
        b.settlement_details@[i],
    )
}

pub open spec fn same_fee(a: CancellationFee, b: CancellationFee) -> bool {
    match (a, b) {
        (CancellationFee::Percent { percentage: p }, CancellationFee::Percent { percentage: q }) => p@ == q@,
        (CancellationFee::Amount { currency: c, value: v }, CancellationFee::Amount { currency: d, value: w }) => c == d
            && v@ == w@,
        _ => false,
    }
}

/// Two confirm orders that serialize alike.
pub open spec fn same_confirm_order(a: ConfirmOrder, b: ConfirmOrder) -> bool {
    &&& a.id@ == b.id@ && a.provider_id@ == b.provider_id@
    &&& key_view(a.provider_location_ids@) == key_view(b.provider_location_ids@)
    &&& a.items@.len() == b.items@.len()
    &&& forall|i: int| 0 <= i < a.items@.len() ==> same_item(#[trigger] a.items@[i], b.items@[i])
    &&& a.fulfillments@.len() == b.fulfillments@.len()
    &&& forall|i: int| 0 <= i < a.fulfillments@.len() ==> same_fulfillment(#[trigger] a.fulfillments@[i], b.fulfillments@[i])
    &&& a.billing.name@ == b.billing.name@ && a.billing.address@ == b.billing.address@
    &&& a.billing.state@ == b.billing.state@ && a.billing.city@ == b.billing.city@
    &&& a.billing.tax_id@ == b.billing.tax_id@ && opt_view(a.billing.email) == opt_view(b.billing.email)
    &&& a.billing.phone@ == b.billing.phone@
    &&& a.cancellation_terms@.len() == b.cancellation_terms@.len()
    &&& forall|i: int| 0 <= i < a.cancellation_terms@.len() ==> {
        &&& (#[trigger] a.cancellation_terms@[i]).fulfillment_state == b.cancellation_terms@[i].fulfillment_state
        &&& a.cancellation_terms@[i].reason_required == b.cancellation_terms@[i].reason_required
        &&& same_fee(a.cancellation_terms@[i].cancellation_fee, b.cancellation_terms@[i].cancellation_fee)
    }
    &&& a.created_at == b.created_at && a.updated_at == b.updated_at
    &&& same_tags(a.tags@, b.tags@)
    &&& a.quote.ttl@ == b.quote.ttl@ && a.quote.price == b.quote.price
    &&& same_breakups(a.quote.breakup@, b.quote.breakup@)
    &&& a.payments@.len() == b.payments@.len()
    &&& forall|i: int| 0 <= i < a.payments@.len() ==> same_payment(#[trigger] a.payments@[i], b.payments@[i])
}

/// Confirm envelope assembly is deterministic: for a fixed record, account,
/// registration and clock, any two orders that meet the contract of
/// `get_ondc_confirm_payload` agree on every field, the quote breakup line
/// by line included.
pub proof fn lemma_confirm_order_deterministic(
    a: ConfirmOrder,
    b: ConfirmOrder,
    order: BuyerCommerce,
    business: BusinessAccount,
    bap: RegisteredNetworkParticipant,
    now_ms: i64,
)
    requires
        order.billing is Some && order.cancellation_terms is Some,
        is_confirm_order(a, order, business, bap, now_ms),
        is_confirm_order(b, order, business, bap, now_ms),
    ensures
        same_confirm_order(a, b),
{
    assert forall|i: int| 0 <= i < a.items@.len() implies same_item(#[trigger] a.items@[i], b.items@[i]) by {
        let x = a.items@[i];
        let y = b.items@[i];
        assert(is_item_from_record(x, order.items@[i]));
        assert(is_item_from_record(y, order.items@[i]));
        if x.tags is Some {
            assert forall|k: int| 0 <= k < x.tags->0@[0].list@.len() implies (#[trigger] x.tags->0@[0].list@[k]).code
                == y.tags->0@[0].list@[k].code && x.tags->0@[0].list@[k].value@ == y.tags->0@[0].list@[k].value@ by {}
            assert(same_tag(x.tags->0@[0], y.tags->0@[0]));
        }
    }
    assert forall|i: int| 0 <= i < a.fulfillments@.len() implies same_fulfillment(
        #[trigger] a.fulfillments@[i],
        b.fulfillments@[i],
    ) by {
        let x = a.fulfillments@[i];
        let y = b.fulfillments@[i];
        assert(is_record_fulfillment(x, order.fulfillments@[i], business));
        assert(is_record_fulfillment(y, order.fulfillments@[i], business));
        if x.tags is Some {
            assert forall|k: int| 0 <= k < x.tags->0@[0].list@.len() implies (#[trigger] x.tags->0@[0].list@[k]).code
                == y.tags->0@[0].list@[k].code && x.tags->0@[0].list@[k].value@ == y.tags->0@[0].list@[k].value@ by {}
            assert(same_tag(x.tags->0@[0], y.tags->0@[0]));
        }
        let sx = x.stops->0@;
        let sy = y.stops->0@;
        assert forall|k: int| 0 <= k < sx.len() implies same_stop(#[trigger] sx[k], sy[k]) by {}
        if x.customer->0.creds is Some {
            assert(x.customer->0.creds->0@[0].id@ == y.customer->0.creds->0@[0].id@);
        }
    }
    assert forall|i: int| 0 <= i < a.cancellation_terms@.len() implies {
        &&& (#[trigger] a.cancellation_terms@[i]).fulfillment_state == b.cancellation_terms@[i].fulfillment_state
        &&& a.cancellation_terms@[i].reason_required == b.cancellation_terms@[i].reason_required
        &&& same_fee(a.cancellation_terms@[i].cancellation_fee, b.cancellation_terms@[i].cancellation_fee)
    } by {
        let cur = crate::quote::currency_or_primary(order.currency_type);
        assert(is_cancel_fee(a.cancellation_terms@[i].cancellation_fee, cur, order.cancellation_terms->0@[i].cancellation_fee));
        assert(is_cancel_fee(b.cancellation_terms@[i].cancellation_fee, cur, order.cancellation_terms->0@[i].cancellation_fee));
    }
    assert forall|i: int| 0 <= i < a.tags@.len() implies same_tag(#[trigger] a.tags@[i], b.tags@[i]) by {
        assert forall|k: int| 0 <= k < a.tags@[i].list@.len() implies (#[trigger] a.tags@[i].list@[k]).code
            == b.tags@[i].list@[k].code && a.tags@[i].list@[k].value@ == b.tags@[i].list@[k].value@ by {}
    }
    let cur = crate::quote::currency_or_primary(order.currency_type);
    let nf = 3 * order.fulfillments@.len() as int;
    let qa = a.quote.breakup@;
    let qb = b.quote.breakup@;
    lemma_same_fulfillment_breakup(qa.subrange(0, nf), qb.subrange(0, nf), order.fulfillments@, cur);
    lemma_same_item_breakup(qa.subrange(nf, qa.len() as int), qb.subrange(nf, qb.len() as int), order.items@, cur);
    assert forall|j: int| 0 <= j < qa.len() implies same_breakup(#[trigger] qa[j], qb[j]) by {
        if j < nf {
            assert(qa.subrange(0, nf)[j] == qa[j] && qb.subrange(0, nf)[j] == qb[j]);
        } else {
            assert(qa.subrange(nf, qa.len() as int)[j - nf] == qa[j]);
            assert(qb.subrange(nf, qb.len() as int)[j - nf] == qb[j]);
        }
    }
    assert forall|i: int| 0 <= i < a.payments@.len() implies same_payment(#[trigger] a.payments@[i], b.payments@[i]) by {
        let x = a.payments@[i];
        let y = b.payments@[i];
        let p = order.payments@[i];
        assert(is_settlement_for(x.settlement_details@, p, bap));
        assert(is_settlement_for(y.settlement_details@, p, bap));
        assert forall|k: int| 0 <= k < x.settlement_details@.len() implies same_settlement(
            #[trigger] x.settlement_details@[k],
            y.settlement_details@[k],
        ) by {}
    }
}

/// Two outcomes of search assembly on the same inputs are alike: both
/// envelopes that agree on every field, or both the same validation error.
pub proof fn lemma_search_outcome_deterministic(
    r1: Result<crate::protocol::SearchEnvelope, crate::protocol::AdapterError>,
    r2: Result<crate::protocol::SearchEnvelope, crate::protocol::AdapterError>,
    b: BusinessAccount,
    req: ProductSearchRequest,
    np: RegisteredNetworkParticipant,
    now_ms: i64,
)
    requires
        crate::envelope::is_search_outcome(r1, b, req, np, now_ms),
        crate::envelope::is_search_outcome(r2, b, req, np, now_ms),
    ensures
        r1 is Ok <==> r2 is Ok,
        r1 is Ok ==> same_context(r1->Ok_0.context, r2->Ok_0.context) && same_search_message(
            r1->Ok_0.message,
            r2->Ok_0.message,
        ),
        r1 is Err ==> r1->Err_0 is Validation && r2->Err_0 is Validation && r1->Err_0->Validation_0@
            == r2->Err_0->Validation_0@,
{
    if r1 is Ok {
        lemma_search_envelope_deterministic(
            r1->Ok_0.context,
            r1->Ok_0.message,
            r2->Ok_0.context,
            r2->Ok_0.message,
            b,
            req,
            np,
            now_ms,
        );
    }
}

/// Two outcomes of confirm assembly on the same inputs are alike: both
/// envelopes that agree on every field, or both the same validation error.
pub proof fn lemma_confirm_outcome_deterministic(
    r1: Result<crate::protocol::ConfirmEnvelope, crate::protocol::AdapterError>,
    r2: Result<crate::protocol::ConfirmEnvelope, crate::protocol::AdapterError>,
    order: BuyerCommerce,
    b: BusinessAccount,
    ids: crate::order_envelope::OrderRequestIds,
    bap: RegisteredNetworkParticipant,
    now_ms: i64,
)
    requires
        crate::order_envelope::is_confirm_outcome(r1, order, b, ids, bap, now_ms),
        crate::order_envelope::is_confirm_outcome(r2, order, b, ids, bap, now_ms),
    ensures
        r1 is Ok <==> r2 is Ok,
        r1 is Ok ==> same_context(r1->Ok_0.context, r2->Ok_0.context) && same_confirm_order(
            r1->Ok_0.order,
            r2->Ok_0.order,
        ),
        r1 is Err ==> r1->Err_0 is Validation && r2->Err_0 is Validation && r1->Err_0->Validation_0@
            == r2->Err_0->Validation_0@,
{
    if r1 is Ok {
        lemma_confirm_order_deterministic(r1->Ok_0.order, r2->Ok_0.order, order, b, bap, now_ms);
    }
}

} // verus!
