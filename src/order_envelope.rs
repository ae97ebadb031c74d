use crate::accounts::{buyer_id_value, BusinessAccount, KycProof, RegisteredNetworkParticipant, VectorType};
use crate::amount::{whole_units, whole_units_i32, Amount};
use crate::envelope::{copy_opt_string, get_buyer_id_tag, get_common_context, is_buyer_id_tag, is_context, opt_view};
use crate::protocol::{
    is_validation, ActionType, AdapterError, Billing, CancelEnvelope, CancellationFee,
    CancellationTerm, ConfirmEnvelope, ConfirmOrder, ConfirmPayment, Credential, Customer,
    FulfillmentStop, OrderFulfillment, PaymentSettlement, SelectedItem, StatusEnvelope, StopContact,
    StopLocation, StopType, UpdateEnvelope, UpdateItem, UpdateTarget,
};
use crate::quote::{amount_or_zero_value, currency_or_primary, get_quote_from_order, is_quote_of};
use crate::schemas::{
    BppTerms, BuyerCommerce, BuyerCommerceFulfillment, BuyerCommerceItem, BuyerCommercePayment,
    CancellationFeeType, CommerceBilling, CommerceCancellationFee, CommerceCancellationTerm,
    CurrencyType, DropOffData, FeeType, FulfillmentType, NetworkRole, PickUpData, SettlementDetail,
    TradeType,
};
use crate::tags::{copy_string, copy_strings, pair_tag, tag_item, Tag, TagCode, TagGroup, TagItem};
use vstd::prelude::*;

verus! {

/// The list holds a string with this view.
pub open spec fn has_str(v: Seq<String>, t: Seq<char>) -> bool {
    exists|k: int| 0 <= k < v.len() && (#[trigger] v[k])@ == t
}

/// No two entries of the list are equal.
pub open spec fn no_dup_strs(v: Seq<String>) -> bool {
    forall|a: int, b: int| 0 <= a < b < v.len() ==> (#[trigger] v[a])@ != (#[trigger] v[b])@
}

/// Appends each id not yet seen, in order.
pub open spec fn dedup_append(seen: Seq<Seq<char>>, ids: Seq<String>) -> Seq<Seq<char>>
    decreases ids.len(),
{
    if ids.len() == 0 {
        seen
    } else {
        let before = dedup_append(seen, ids.drop_last());
        if before.contains(ids.last()@) {
            before
        } else {
            before.push(ids.last()@)
        }
    }
}

/// Appends `s` unless the list already holds it.
pub fn push_unique(out: &mut Vec<String>, s: &String)
    requires
        no_dup_strs(old(out)@),
    ensures
        no_dup_strs(final(out)@),
        forall|t: Seq<char>| #[trigger] has_str(final(out)@, t) <==> (t == s@ || has_str(old(out)@, t)),
        crate::table::key_view(final(out)@) == if crate::table::key_view(old(out)@).contains(s@) {
            crate::table::key_view(old(out)@)
        } else {
            crate::table::key_view(old(out)@).push(s@)
        },
{
    let mut i: usize = 0;
    while i < out.len()
        invariant
            i <= out@.len(),
            out@ == old(out)@,
            no_dup_strs(out@),
            forall|k: int| 0 <= k < i ==> (#[trigger] out@[k])@ != s@,
        decreases out.len() - i,
    {
        if out[i] == *s {
            proof {
                assert(crate::table::key_view(out@)[i as int] == s@);
            }
            return;
        }
        i = i + 1;
    }
    let ghost before = out@;
    out.push(copy_string(s));
    proof {
        assert(!crate::table::key_view(before).contains(s@)) by {
            if crate::table::key_view(before).contains(s@) {
                let k = choose|k: int| 0 <= k < before.len() && crate::table::key_view(before)[k] == s@;
                assert(before[k]@ != s@);
            }
        }
        assert(crate::table::key_view(out@) =~= crate::table::key_view(before).push(s@));
        assert forall|t: Seq<char>| #[trigger] has_str(out@, t) implies (t == s@ || has_str(before, t)) by {
            let k = choose|k: int| 0 <= k < out@.len() && (#[trigger] out@[k])@ == t;
            if k < before.len() {
                assert(before[k] == out@[k]);
            }
        }
        assert forall|t: Seq<char>| (t == s@ || has_str(before, t)) implies #[trigger] has_str(out@, t) by {
            if t == s@ {
                assert(out@[before.len() as int]@ == t);
            } else {
                let k = choose|k: int| 0 <= k < before.len() && (#[trigger] before[k])@ == t;
                assert(out@[k] == before[k]);
            }
        }
    }
}

/// Some line of the record lists the location id.
pub open spec fn record_has_location(items: Seq<BuyerCommerceItem>, t: Seq<char>) -> bool {
    exists|i: int| 0 <= i < items.len() && has_str(#[trigger] items[i].location_ids@, t)
}

/// The lines' location ids, each once, in order of first mention.
pub open spec fn record_location_union(items: Seq<BuyerCommerceItem>) -> Seq<Seq<char>>
    decreases items.len(),
{
    if items.len() == 0 {
        seq![]
    } else {
        dedup_append(record_location_union(items.drop_last()), items.last().location_ids@)
    }
}

/// The deduplicated union of the lines' location ids, in order of first mention.
pub open spec fn is_location_union(ids: Seq<String>, items: Seq<BuyerCommerceItem>) -> bool {
    &&& no_dup_strs(ids)
    &&& forall|t: Seq<char>| #[trigger] has_str(ids, t) <==> record_has_location(items, t)
    &&& crate::table::key_view(ids) == record_location_union(items)
}

impl BuyerCommerce {
    /// The location ids of the record's lines, each once, in order of first mention.
    pub fn get_ondc_location_ids(&self) -> (r: Vec<String>)
        ensures
            is_location_union(r@, self.items@),
    {
        let mut out: Vec<String> = Vec::new();
        let mut i: usize = 0;
        proof {
            assert(crate::table::key_view(out@) =~= Seq::<Seq<char>>::empty());
            assert(self.items@.subrange(0, 0) =~= Seq::<BuyerCommerceItem>::empty());
        }
        while i < self.items.len()
            invariant
                i <= self.items@.len(),
                is_location_union(out@, self.items@.subrange(0, i as int)),
            decreases self.items.len() - i,
        {
            let ghost done = self.items@.subrange(0, i as int);
            let ghost next = self.items@.subrange(0, i as int + 1);
            let ids = &self.items[i].location_ids;
            let mut j: usize = 0;
            while j < ids.len()
                invariant
                    i < self.items@.len(),
                    ids == &self.items@[i as int].location_ids,
                    j <= ids@.len(),
                    no_dup_strs(out@),
                    forall|t: Seq<char>|
                        #[trigger] has_str(out@, t) <==> (record_has_location(done, t) || has_str(
                            ids@.subrange(0, j as int),
                            t,
                        )),
                    crate::table::key_view(out@) == dedup_append(record_location_union(done), ids@.subrange(0, j as int)),
                decreases ids.len() - j,
            {
                push_unique(&mut out, &ids[j]);
                proof {
                    assert(ids@.subrange(0, j as int + 1).drop_last() =~= ids@.subrange(0, j as int));
                    assert(ids@.subrange(0, j as int + 1).last() == ids@[j as int]);
                    let ghost a = ids@.subrange(0, j as int);
                    let ghost b = ids@.subrange(0, j as int + 1);
                    assert forall|t: Seq<char>| #[trigger] has_str(b, t) <==> (t == ids@[j as int]@ || has_str(a, t)) by {
                        if has_str(b, t) {
                            let k = choose|k: int| 0 <= k < b.len() && (#[trigger] b[k])@ == t;
                            if k < j {
                                assert(a[k] == b[k]);
                            }
                        }
                        if has_str(a, t) {
                            let k = choose|k: int| 0 <= k < a.len() && (#[trigger] a[k])@ == t;
                            assert(a[k] == b[k]);
                        }
                        if t == ids@[j as int]@ {
                            assert(b[j as int] == ids@[j as int]);
                        }
                    }
                }
                j = j + 1;
            }
            proof {
                assert(ids@.subrange(0, ids@.len() as int) =~= ids@);
                assert(next.drop_last() =~= done);
                assert(next.last() == self.items@[i as int]);
                assert forall|t: Seq<char>|
                    record_has_location(next, t) <==> (record_has_location(done, t) || has_str(ids@, t)) by {
                    if record_has_location(next, t) {
                        let a = choose|a: int| 0 <= a < next.len() && has_str(#[trigger] next[a].location_ids@, t);
                        if a < i {
                            assert(done[a] == next[a]);
                        }
                    }
                    if record_has_location(done, t) {
                        let a = choose|a: int| 0 <= a < done.len() && has_str(#[trigger] done[a].location_ids@, t);
                        assert(done[a] == next[a]);
                    }
                    if has_str(ids@, t) {
                        assert(next[i as int] == self.items@[i as int]);
                    }
                }
            }
            i = i + 1;
        }
        proof {
            assert(self.items@.subrange(0, self.items@.len() as int) =~= self.items@);
        }
        out
    }
}

/// The settlement lines of a confirm payment: the buyer platform's bank
/// identity when it collects, else the seller's lines already on the record.
pub open spec fn is_settlement_for(
    out: Seq<PaymentSettlement>,
    p: BuyerCommercePayment,
    bap: RegisteredNetworkParticipant,
) -> bool {
    if p.collected_by == Some(NetworkRole::Bap) {
        &&& out.len() == 1
        &&& out[0].counterparty == NetworkRole::Bap
        &&& out[0].phase@ == bap.settlement_phase@
        &&& out[0].settlement_type@ == bap.settlement_type@
        &&& out[0].bank_account_no@ == bap.bank_account_no@
        &&& out[0].ifsc@ == bap.bank_ifsc_code@
        &&& out[0].beneficiary@ == bap.bank_beneficiary_name@
        &&& out[0].bank_name@ == bap.bank_name@
    } else {
        match p.settlement_details {
            Some(ds) => {
                &&& out.len() == ds@.len()
                &&& forall|i: int| 0 <= i < ds@.len() ==> is_settlement_copy(#[trigger] out[i], ds@[i])
            },
            None => out.len() == 0,
        }
    }
}

pub open spec fn is_settlement_copy(o: PaymentSettlement, d: SettlementDetail) -> bool {
    &&& o.counterparty == d.counterparty
    &&& o.phase@ == d.phase@
    &&& o.settlement_type@ == d.settlement_type@
    &&& o.bank_account_no@ == d.bank_account_no@
    &&& o.ifsc@ == d.ifsc@
    &&& o.beneficiary@ == d.beneficiary@
    &&& o.bank_name@ == d.bank_name@
}

fn settlement_lines(p: &BuyerCommercePayment, bap: &RegisteredNetworkParticipant) -> (r: Vec<
    PaymentSettlement,
>)
    ensures
        is_settlement_for(r@, *p, *bap),
{
    let mut out: Vec<PaymentSettlement> = Vec::new();
    if p.collected_by == Some(NetworkRole::Bap) {
        out.push(
            PaymentSettlement {
                counterparty: NetworkRole::Bap,
                phase: copy_string(&bap.settlement_phase),
                settlement_type: copy_string(&bap.settlement_type),
                bank_account_no: copy_string(&bap.bank_account_no),
                ifsc: copy_string(&bap.bank_ifsc_code),
                beneficiary: copy_string(&bap.bank_beneficiary_name),
                bank_name: copy_string(&bap.bank_name),
            },
        );
    } else if let Some(ds) = &p.settlement_details {
        let mut i: usize = 0;
        while i < ds.len()
            invariant
                i <= ds@.len(),
                out@.len() == i,
                forall|k: int| 0 <= k < i ==> is_settlement_copy(#[trigger] out@[k], ds@[k]),
            decreases ds.len() - i,
        {
            let d = &ds[i];
            out.push(
                PaymentSettlement {
                    counterparty: d.counterparty,
                    phase: copy_string(&d.phase),
                    settlement_type: copy_string(&d.settlement_type),
                    bank_account_no: copy_string(&d.bank_account_no),
                    ifsc: copy_string(&d.ifsc),
                    beneficiary: copy_string(&d.beneficiary),
                    bank_name: copy_string(&d.bank_name),
                },
            );
            i = i + 1;
        }
    }
    out
}

/// The id of the first payment of the record that carries one.
pub open spec fn first_payment_id(ps: Seq<BuyerCommercePayment>) -> Option<Seq<char>>
    decreases ps.len(),
{
    if ps.len() == 0 {
        None
    } else if ps[0].payment_id is Some {
        Some(ps[0].payment_id->0@)
    } else {
        first_payment_id(ps.drop_first())
    }
}

fn find_payment_id(ps: &Vec<BuyerCommercePayment>) -> (r: Option<String>)
    ensures
        opt_view(r) == first_payment_id(ps@),
{
    let mut i: usize = 0;
    proof {
        assert(ps@.subrange(0, ps@.len() as int) =~= ps@);
    }
    while i < ps.len()
        invariant
            i <= ps@.len(),
            first_payment_id(ps@) == first_payment_id(ps@.subrange(i as int, ps@.len() as int)),
        decreases ps.len() - i,
    {
        proof {
            assert(ps@.subrange(i as int, ps@.len() as int).drop_first() =~= ps@.subrange(
                i as int + 1,
                ps@.len() as int,
            ));
        }
        if ps[i].payment_id.is_some() {
            return copy_opt_string(&ps[i].payment_id);
        }
        i = i + 1;
    }
    None
}

pub open spec fn text_or(o: Option<String>, d: Seq<char>) -> Seq<char> {
    match o {
        Some(s) => s@,
        None => d,
    }
}

fn string_or(o: &Option<String>, d: &str) -> (r: String)
    ensures
        r@ == text_or(*o, d@),
{
    match o {
        Some(s) => copy_string(s),
        None => String::from_str(d),
    }
}

/// A payment of a confirm or update envelope, with the documented defaults
/// for what the record leaves unset.
pub open spec fn is_confirm_payment(
    c: ConfirmPayment,
    p: BuyerCommercePayment,
    order: BuyerCommerce,
    bap: RegisteredNetworkParticipant,
) -> bool {
    &&& c.payment_type == p.payment_type
    &&& c.collected_by == match p.collected_by {
        Some(r) => r,
        None => NetworkRole::Bpp,
    }
    &&& c.amount == amount_or_zero_value(order.grand_total)
    &&& c.currency == currency_or_primary(order.currency_type)
    &&& opt_view(c.transaction_id) == first_payment_id(order.payments@)
    &&& c.buyer_fee_type == match p.buyer_fee_type {
        Some(f) => f,
        None => FeeType::Amount,
    }
    &&& c.buyer_fee_amount == amount_or_zero_value(p.buyer_fee_amount)
    &&& c.settlement_window@ == text_or(p.settlement_window, "P1D"@)
    &&& c.withholding_amount == amount_or_zero_value(p.withholding_amount)
    &&& is_settlement_for(c.settlement_details@, p, bap)
}

pub open spec fn is_confirm_payments(
    out: Seq<ConfirmPayment>,
    order: BuyerCommerce,
    bap: RegisteredNetworkParticipant,
) -> bool {
    &&& out.len() == order.payments@.len()
    &&& forall|i: int|
        0 <= i < out.len() ==> is_confirm_payment(#[trigger] out[i], order.payments@[i], order, bap)
}

/// The payments of a confirm envelope, one for each payment of the record.
pub fn get_ondc_confirm_request_payment(
    order: &BuyerCommerce,
    bap_detail: &RegisteredNetworkParticipant,
) -> (r: Vec<ConfirmPayment>)
    ensures
        is_confirm_payments(r@, *order, *bap_detail),
{
    let currency = match order.currency_type {
        Some(c) => c,
        None => CurrencyType::Inr,
    };
    let amount = match order.grand_total {
        Some(a) => a,
        None => Amount::zero(),
    };
    let mut out: Vec<ConfirmPayment> = Vec::new();
    let mut i: usize = 0;
    while i < order.payments.len()
        invariant
            i <= order.payments@.len(),
            currency == currency_or_primary(order.currency_type),
            amount == amount_or_zero_value(order.grand_total),
            out@.len() == i,
            forall|k: int|
                0 <= k < i ==> is_confirm_payment(#[trigger] out@[k], order.payments@[k], *order, *bap_detail),
        decreases order.payments.len() - i,
    {
        let p = &order.payments[i];
        proof {
            reveal_strlit("P1D");
        }
        out.push(
            ConfirmPayment {
                payment_type: p.payment_type,
                collected_by: match p.collected_by {
                    Some(r) => r,
                    None => NetworkRole::Bpp,
                },
                amount,
                currency,
                transaction_id: find_payment_id(&order.payments),
                buyer_fee_type: match p.buyer_fee_type {
                    Some(f) => f,
                    None => FeeType::Amount,
                },
                buyer_fee_amount: match p.buyer_fee_amount {
                    Some(a) => a,
                    None => Amount::zero(),
                },
                settlement_window: string_or(&p.settlement_window, "P1D"),
                withholding_amount: match p.withholding_amount {
                    Some(a) => a,
                    None => Amount::zero(),
                },
                settlement_details: settlement_lines(p, bap_detail),
            },
        );
        i = i + 1;
    }
    out
}

pub open spec fn bool_text(b: bool) -> Seq<char> {
    if b {
        "true"@
    } else {
        "false"@
    }
}

fn bool_string(b: bool) -> (r: String)
    ensures
        r@ == bool_text(b),
{
    if b {
        proof {
            reveal_strlit("true");
        }
        String::from_str("true")
    } else {
        proof {
            reveal_strlit("false");
        }
        String::from_str("false")
    }
}

/// The seller's terms as a tag.
pub open spec fn is_bpp_terms_tag(t: Tag, terms: BppTerms) -> bool {
    &&& t.code == TagGroup::BppTerms
    &&& t.list@.len() == 5
    &&& t.list@[0].code == TagCode::MaxLiability && t.list@[0].value@ == terms.max_liability@
    &&& t.list@[1].code == TagCode::MaxLiabilityCap && t.list@[1].value@ == terms.max_liability_cap@
    &&& t.list@[2].code == TagCode::MandatoryArbitration && t.list@[2].value@ == bool_text(
        terms.mandatory_arbitration,
    )
    &&& t.list@[3].code == TagCode::CourtJurisdiction && t.list@[3].value@
        == terms.court_jurisdiction@
    &&& t.list@[4].code == TagCode::DelayInterest && t.list@[4].value@ == terms.delay_interest@
}

pub fn get_bpp_terms_tag(terms: &BppTerms) -> (r: Tag)
    ensures
        is_bpp_terms_tag(r, *terms),
{
    let mut list: Vec<TagItem> = Vec::new();
    list.push(tag_item(TagCode::MaxLiability, copy_string(&terms.max_liability)));
    list.push(tag_item(TagCode::MaxLiabilityCap, copy_string(&terms.max_liability_cap)));
    list.push(tag_item(TagCode::MandatoryArbitration, bool_string(terms.mandatory_arbitration)));
    list.push(tag_item(TagCode::CourtJurisdiction, copy_string(&terms.court_jurisdiction)));
    list.push(tag_item(TagCode::DelayInterest, copy_string(&terms.delay_interest)));
    Tag { code: TagGroup::BppTerms, list }
}

/// The buyer platform's agreement to the seller's terms.
pub open spec fn is_agreement_tag(t: Tag) -> bool {
    &&& t.code == TagGroup::BapTerms
    &&& t.list@.len() == 1
    &&& t.list@[0].code == TagCode::AcceptBppTerms
    &&& t.list@[0].value@ == "Y"@
}

/// Tags of a confirm envelope: the buyer id, then, where the record holds
/// seller terms, those terms and the agreement to them.
pub open spec fn is_confirm_tags(tags: Seq<Tag>, order: BuyerCommerce, b: BusinessAccount) -> bool {
    &&& is_buyer_id_tag(tags[0], b)
    &&& match order.bpp_terms {
        Some(terms) => tags.len() == 3 && is_bpp_terms_tag(tags[1], terms) && is_agreement_tag(
            tags[2],
        ),
        None => tags.len() == 1,
    }
}

pub fn get_ondc_confirm_request_tags(order: &BuyerCommerce, business_account: &BusinessAccount) -> (r:
    Result<Vec<Tag>, AdapterError>)
    ensures
        r is Ok <==> buyer_id_value(*business_account) is Some,
        r is Ok ==> is_confirm_tags(r->Ok_0@, *order, *business_account),
        r is Err ==> is_validation(r->Err_0, "Failed to get buyer ID tag"@),
{
    let mut tags: Vec<Tag> = Vec::new();
    tags.push(get_buyer_id_tag(business_account)?);
    if let Some(terms) = &order.bpp_terms {
        tags.push(get_bpp_terms_tag(terms));
        proof {
            reveal_strlit("Y");
        }
        let mut list: Vec<TagItem> = Vec::new();
        list.push(tag_item(TagCode::AcceptBppTerms, String::from_str("Y")));
        tags.push(Tag { code: TagGroup::BapTerms, list });
    }
    Ok(tags)
}

pub open spec fn is_cancel_fee(f: CancellationFee, cur: CurrencyType, fee: CommerceCancellationFee) -> bool {
    match fee.fee_type {
        CancellationFeeType::Percent => f matches CancellationFee::Percent { percentage }
            && percentage@ == fee.val@,
        CancellationFeeType::Amount => f matches CancellationFee::Amount { currency, value }
            && currency == cur && value@ == fee.val@,
    }
}

pub fn get_ondc_cancel_fee_from_cancel_fee(currency: CurrencyType, fee: &CommerceCancellationFee) -> (r:
    CancellationFee)
    ensures
        is_cancel_fee(r, currency, *fee),
{
    match fee.fee_type {
        CancellationFeeType::Percent => CancellationFee::Percent { percentage: copy_string(&fee.val) },
        CancellationFeeType::Amount => CancellationFee::Amount {
            currency,
            value: copy_string(&fee.val),
        },
    }
}

pub open spec fn is_cancellation_terms(
    out: Seq<CancellationTerm>,
    cur: CurrencyType,
    terms: Seq<CommerceCancellationTerm>,
) -> bool {
    &&& out.len() == terms.len()
    &&& forall|i: int|
        0 <= i < terms.len() ==> {
            &&& (#[trigger] out[i]).fulfillment_state == terms[i].fulfillment_state
            &&& out[i].reason_required == terms[i].reason_required
            &&& is_cancel_fee(out[i].cancellation_fee, cur, terms[i].cancellation_fee)
        }
}

/// One protocol cancellation term for each stored term, in order.
pub fn get_ondc_cancellation_from_cancelletion_terms(
    currency_type: CurrencyType,
    cancellation_terms: &Vec<CommerceCancellationTerm>,
) -> (r: Vec<CancellationTerm>)
    ensures
        is_cancellation_terms(r@, currency_type, cancellation_terms@),
{
    let mut out: Vec<CancellationTerm> = Vec::new();
    let mut i: usize = 0;
    while i < cancellation_terms.len()
        invariant
            i <= cancellation_terms@.len(),
            is_cancellation_terms(out@, currency_type, cancellation_terms@.subrange(0, i as int)),
        decreases cancellation_terms.len() - i,
    {
        let t = &cancellation_terms[i];
        out.push(
            CancellationTerm {
                fulfillment_state: t.fulfillment_state,
                reason_required: t.reason_required,
                cancellation_fee: get_ondc_cancel_fee_from_cancel_fee(currency_type, &t.cancellation_fee),
            },
        );
        i = i + 1;
    }
    proof {
        assert(cancellation_terms@.subrange(0, cancellation_terms@.len() as int) =~= cancellation_terms@);
    }
    out
}

pub open spec fn same_strs(a: Seq<String>, b: Seq<String>) -> bool {
    a.len() == b.len() && forall|i: int| 0 <= i < a.len() ==> (#[trigger] a[i])@ == b[i]@
}

/// The buyer-terms tag of an item.
pub open spec fn is_item_terms_tag(t: Tag, item_req: Seq<char>, packaging_req: Seq<char>) -> bool {
    &&& t.code == TagGroup::BuyerTerms
    &&& t.list@.len() == 2
    &&& t.list@[0].code == TagCode::ItemReq && t.list@[0].value@ == item_req
    &&& t.list@[1].code == TagCode::PackagingsReq && t.list@[1].value@ == packaging_req
}

pub fn get_item_tag(item_req: &String, packaging_req: &String) -> (r: Tag)
    ensures
        is_item_terms_tag(r, item_req@, packaging_req@),
{
    pair_tag(
        TagGroup::BuyerTerms,
        TagCode::ItemReq,
        copy_string(item_req),
        TagCode::PackagingsReq,
        copy_string(packaging_req),
    )
}

/// An envelope line for a record line: quantity truncated to whole units,
/// buyer terms as a tag where the line has them.
pub open spec fn is_item_from_record(o: SelectedItem, line: BuyerCommerceItem) -> bool {
    &&& o.id@ == line.item_id@
    &&& same_strs(o.location_ids@, line.location_ids@)
    &&& same_strs(o.fulfillment_ids@, line.fulfillment_ids@)
    &&& o.quantity as int == whole_units_i32(line.qty)
    &&& (o.tags is Some <==> line.buyer_terms is Some)
    &&& line.buyer_terms is Some ==> o.tags->0@.len() == 1 && is_item_terms_tag(
        o.tags->0@[0],
        line.buyer_terms->0.item_req@,
        line.buyer_terms->0.packaging_req@,
    )
}

pub fn get_ondc_items_from_order(items: &Vec<BuyerCommerceItem>) -> (r: Vec<SelectedItem>)
    ensures
        r@.len() == items@.len(),
        forall|i: int| 0 <= i < items@.len() ==> is_item_from_record(#[trigger] r@[i], items@[i]),
{
    let mut out: Vec<SelectedItem> = Vec::new();
    let mut i: usize = 0;
    while i < items.len()
        invariant
            i <= items@.len(),
            out@.len() == i,
            forall|k: int| 0 <= k < i ==> is_item_from_record(#[trigger] out@[k], items@[k]),
        decreases items.len() - i,
    {
        let line = &items[i];
        let tags = match &line.buyer_terms {
            Some(t) => {
                let mut v: Vec<Tag> = Vec::new();
                v.push(get_item_tag(&t.item_req, &t.packaging_req));
                Some(v)
            },
            None => None,
        };
        out.push(
            SelectedItem {
                id: copy_string(&line.item_id),
                location_ids: copy_strings(&line.location_ids),
                fulfillment_ids: copy_strings(&line.fulfillment_ids),
                quantity: whole_units(line.qty),
                tags,
            },
        );
        i = i + 1;
    }
    out
}

pub open spec fn is_billing_from_record(o: Billing, b: CommerceBilling) -> bool {
    &&& o.name@ == b.name@
    &&& o.address@ == b.address@
    &&& o.state@ == b.state@
    &&& o.city@ == b.city@
    &&& o.tax_id@ == b.tax_id@
    &&& opt_view(o.email) == opt_view(b.email)
    &&& o.phone@ == b.phone@
}

pub fn get_ondc_billing_from_order_billing(billing: &CommerceBilling) -> (r: Billing)
    ensures
        is_billing_from_record(r, *billing),
{
    Billing {
        name: copy_string(&billing.name),
        address: copy_string(&billing.address),
        state: copy_string(&billing.state),
        city: copy_string(&billing.city),
        tax_id: copy_string(&billing.tax_id),
        email: copy_opt_string(&billing.email),
        phone: copy_string(&billing.phone),
    }
}

/// The protocol code of an Incoterm, upper case.
pub open spec fn inco_code(t: crate::schemas::IncoTermType) -> Seq<char> {
    match t {
        crate::schemas::IncoTermType::Exw => "EXW"@,
        crate::schemas::IncoTermType::Cif => "CIF"@,
        crate::schemas::IncoTermType::Fob => "FOB"@,
        crate::schemas::IncoTermType::Dap => "DAP"@,
        crate::schemas::IncoTermType::Ddp => "DDP"@,
    }
}

pub fn inco_code_string(t: crate::schemas::IncoTermType) -> (r: String)
    ensures
        r@ == inco_code(t),
{
    proof {
        reveal_strlit("EXW");
        reveal_strlit("CIF");
        reveal_strlit("FOB");
        reveal_strlit("DAP");
        reveal_strlit("DDP");
    }
    match t {
        crate::schemas::IncoTermType::Exw => String::from_str("EXW"),
        crate::schemas::IncoTermType::Cif => String::from_str("CIF"),
        crate::schemas::IncoTermType::Fob => String::from_str("FOB"),
        crate::schemas::IncoTermType::Dap => String::from_str("DAP"),
        crate::schemas::IncoTermType::Ddp => String::from_str("DDP"),
    }
}

/// The delivery-terms tag of an import fulfillment.
pub open spec fn is_delivery_terms_tag(t: Tag, inco: crate::schemas::IncoTermType, place: Seq<char>) -> bool {
    &&& t.code == TagGroup::DeliveryTerms
    &&& t.list@.len() == 2
    &&& t.list@[0].code == TagCode::IncoTerms && t.list@[0].value@ == inco_code(inco)
    &&& t.list@[1].code == TagCode::NamedPlaceOfDelivery && t.list@[1].value@ == place
}

pub fn get_delivery_terms_tag(inco: crate::schemas::IncoTermType, place: &String) -> (r: Tag)
    ensures
        is_delivery_terms_tag(r, inco, place@),
{
    pair_tag(
        TagGroup::DeliveryTerms,
        TagCode::IncoTerms,
        inco_code_string(inco),
        TagCode::NamedPlaceOfDelivery,
        copy_string(place),
    )
}

/// A stop built from stored drop-off or pickup data.
pub open spec fn is_stop_from(o: FulfillmentStop, t: StopType, d: DropOffData) -> bool {
    &&& o.stop_type == t
    &&& o.location.gps@ == d.location.gps@
    &&& opt_view(o.location.address) == opt_view(d.location.address)
    &&& o.location.area_code@ == d.location.area_code@
    &&& o.location.city_name@ == d.location.city@
    &&& o.location.country_code@ == d.location.country@
    &&& o.location.state_name@ == d.location.state@
    &&& o.contact.phone@ == d.contact.mobile_no@
    &&& opt_view(o.contact.email) == opt_view(d.contact.email)
}

fn stop_from(t: StopType, d: &DropOffData) -> (r: FulfillmentStop)
    ensures
        is_stop_from(r, t, *d),
{
    FulfillmentStop {
        stop_type: t,
        location: StopLocation {
            gps: copy_string(&d.location.gps),
            address: copy_opt_string(&d.location.address),
            area_code: copy_string(&d.location.area_code),
            city_name: copy_string(&d.location.city),
            country_code: copy_string(&d.location.country),
            state_name: copy_string(&d.location.state),
        },
        contact: StopContact {
            phone: copy_string(&d.contact.mobile_no),
            email: copy_opt_string(&d.contact.email),
        },
    }
}

fn drop_off_of_pickup(p: &PickUpData) -> (r: DropOffData)
    ensures
        r.location.gps@ == p.location.gps@,
        opt_view(r.location.address) == opt_view(p.location.address),
        r.location.area_code@ == p.location.area_code@,
        r.location.city@ == p.location.city@,
        r.location.country@ == p.location.country@,
        r.location.state@ == p.location.state@,
        r.contact.mobile_no@ == p.contact.mobile_no@,
        opt_view(r.contact.email) == opt_view(p.contact.email),
{
    DropOffData {
        location: crate::schemas::DropOffLocation {
            gps: copy_string(&p.location.gps),
            area_code: copy_string(&p.location.area_code),
            address: copy_opt_string(&p.location.address),
            city: copy_string(&p.location.city),
            country: copy_string(&p.location.country),
            state: copy_string(&p.location.state),
        },
        contact: crate::schemas::DropOffContact {
            mobile_no: copy_string(&p.contact.mobile_no),
            email: copy_opt_string(&p.contact.email),
        },
    }
}

pub open spec fn pickup_as_drop_off(p: PickUpData) -> DropOffData {
    DropOffData { location: p.location, contact: p.contact }
}

/// The stops of an init or confirm fulfillment: the drop-off as end stop
/// where there is one, then, for self pickup, the pickup as start stop.
pub open spec fn is_record_stops(stops: Seq<FulfillmentStop>, f: BuyerCommerceFulfillment) -> bool {
    let n_end: int = if f.drop_off is Some { 1 } else { 0 };
    let has_start = f.fulfillment_type == FulfillmentType::SelfPickup && f.pickup is Some;
    &&& stops.len() == n_end + if has_start { 1int } else { 0int }
    &&& f.drop_off is Some ==> is_stop_from(stops[0], StopType::End, f.drop_off->0)
    &&& has_start ==> is_stop_from(stops[n_end], StopType::Start, pickup_as_drop_off(f.pickup->0))
}

pub fn get_ondc_init_fulfillment_stops(f: &BuyerCommerceFulfillment) -> (r: Vec<FulfillmentStop>)
    ensures
        is_record_stops(r@, *f),
{
    let mut stops: Vec<FulfillmentStop> = Vec::new();
    if let Some(d) = &f.drop_off {
        stops.push(stop_from(StopType::End, d));
    }
    if f.fulfillment_type == FulfillmentType::SelfPickup {
        if let Some(p) = &f.pickup {
            let d = drop_off_of_pickup(p);
            stops.push(stop_from(StopType::Start, &d));
        }
    }
    stops
}

/// The first import licence on file that names a document url.
pub open spec fn import_licence(proofs: Seq<KycProof>) -> Option<KycProof>
    decreases proofs.len(),
{
    if proofs.len() == 0 {
        None
    } else if proofs[0].proof_type == VectorType::ImportLicenseNo && proofs[0].urls@.len() > 0 {
        Some(proofs[0])
    } else {
        import_licence(proofs.drop_first())
    }
}

/// The customer block: the company, and for an import its licence.
pub open spec fn is_customer(c: Customer, b: BusinessAccount, trade: Option<TradeType>) -> bool {
    &&& c.name@ == b.company_name@
    &&& if trade == Some(TradeType::Import) && import_licence(b.proofs@) is Some {
        &&& c.creds is Some
        &&& c.creds->0@.len() == 1
        &&& c.creds->0@[0].id@ == import_licence(b.proofs@)->0.kyc_id@
        &&& c.creds->0@[0].url@ == import_licence(b.proofs@)->0.urls@[0]@
    } else {
        c.creds is None
    }
}

fn licence_creds(proofs: &Vec<KycProof>) -> (r: Option<Vec<Credential>>)
    ensures
        r is Some <==> import_licence(proofs@) is Some,
        r is Some ==> r->0@.len() == 1 && r->0@[0].id@ == import_licence(proofs@)->0.kyc_id@
            && r->0@[0].url@ == import_licence(proofs@)->0.urls@[0]@,
{
    let mut i: usize = 0;
    proof {
        assert(proofs@.subrange(0, proofs@.len() as int) =~= proofs@);
    }
    while i < proofs.len()
        invariant
            i <= proofs@.len(),
            import_licence(proofs@) == import_licence(proofs@.subrange(i as int, proofs@.len() as int)),
        decreases proofs.len() - i,
    {
        proof {
            assert(proofs@.subrange(i as int, proofs@.len() as int).drop_first() =~= proofs@.subrange(
                i as int + 1,
                proofs@.len() as int,
            ));
        }
        if proofs[i].proof_type == VectorType::ImportLicenseNo && proofs[i].urls.len() > 0 {
            let mut v: Vec<Credential> = Vec::new();
            v.push(Credential { id: copy_string(&proofs[i].kyc_id), url: copy_string(&proofs[i].urls[0]) });
            return Some(v);
        }
        i = i + 1;
    }
    None
}

pub fn get_ondc_customer_detail(business_account: &BusinessAccount, trade_type: Option<TradeType>) -> (r:
    Customer)
    ensures
        is_customer(r, *business_account, trade_type),
{
    let creds = if trade_type == Some(TradeType::Import) {
        licence_creds(&business_account.proofs)
    } else {
        None
    };
    Customer { name: copy_string(&business_account.company_name), creds }
}

/// A fulfillment of an init or confirm envelope, from a record fulfillment.
pub open spec fn is_record_fulfillment(
    o: OrderFulfillment,
    f: BuyerCommerceFulfillment,
    b: BusinessAccount,
) -> bool {
    &&& o.id@ == f.fulfillment_id@
    &&& o.fulfillment_type == f.fulfillment_type
    &&& (o.tags is Some <==> f.delivery_term is Some)
    &&& f.delivery_term is Some ==> o.tags->0@.len() == 1 && is_delivery_terms_tag(
        o.tags->0@[0],
        f.delivery_term->0.inco_terms,
        f.delivery_term->0.place_of_delivery@,
    )
    &&& o.customer is Some && is_customer(o.customer->0, b, f.trade_type)
    &&& o.stops is Some && is_record_stops(o.stops->0@, f)
}

pub fn get_get_ondc_init_fulfillment(
    fulfillments: &Vec<BuyerCommerceFulfillment>,
    business_account: &BusinessAccount,
) -> (r: Vec<OrderFulfillment>)
    ensures
        r@.len() == fulfillments@.len(),
        forall|i: int|
            0 <= i < fulfillments@.len() ==> is_record_fulfillment(
                #[trigger] r@[i],
                fulfillments@[i],
                *business_account,
            ),
{
    let mut out: Vec<OrderFulfillment> = Vec::new();
    let mut i: usize = 0;
    while i < fulfillments.len()
        invariant
            i <= fulfillments@.len(),
            out@.len() == i,
            forall|k: int|
                0 <= k < i ==> is_record_fulfillment(#[trigger] out@[k], fulfillments@[k], *business_account),
        decreases fulfillments.len() - i,
    {
        let f = &fulfillments[i];
        let tags = match &f.delivery_term {
            Some(d) => {
                let mut v: Vec<Tag> = Vec::new();
                v.push(get_delivery_terms_tag(d.inco_terms, &d.place_of_delivery));
                Some(v)
            },
            None => None,
        };
        out.push(
            OrderFulfillment {
                id: copy_string(&f.fulfillment_id),
                fulfillment_type: f.fulfillment_type,
                tags,
                customer: Some(get_ondc_customer_detail(business_account, f.trade_type)),
                stops: Some(get_ondc_init_fulfillment_stops(f)),
            },
        );
        i = i + 1;
    }
    out
}

/// The context of an envelope about an existing record: addressed to the
/// record's seller, with the protocol's default time to live.
pub open spec fn is_record_context(
    c: crate::protocol::Context,
    order: BuyerCommerce,
    transaction_id: u128,
    message_id: u128,
    action: ActionType,
    now_ms: i64,
) -> bool {
    is_context(
        c,
        transaction_id,
        message_id,
        order.domain_category_code@,
        action,
        order.bap.id@,
        order.bap.uri@,
        Some(order.bpp.id@),
        Some(order.bpp.uri@),
        order.country_code@,
        order.city_code@,
        None,
        now_ms,
    )
}

pub fn get_ondc_context_from_order(
    transaction_id: u128,
    message_id: u128,
    order: &BuyerCommerce,
    action: ActionType,
    now_ms: i64,
) -> (r: crate::protocol::Context)
    ensures
        is_record_context(r, *order, transaction_id, message_id, action, now_ms),
{
    get_common_context(
        transaction_id,
        message_id,
        &order.domain_category_code,
        action,
        &order.bap.id,
        &order.bap.uri,
        Some(&order.bpp.id),
        Some(&order.bpp.uri),
        &order.country_code,
        &order.city_code,
        None,
        now_ms,
    )
}

/// The ids of a request about an existing record.
#[derive(Clone, Debug)]
pub struct OrderRequestIds {
    pub transaction_id: u128,
    pub message_id: u128,
}

/// What a confirm envelope owes: everything rebuilt from the record.
pub open spec fn is_confirm_order(
    o: ConfirmOrder,
    order: BuyerCommerce,
    b: BusinessAccount,
    bap: RegisteredNetworkParticipant,
    now_ms: i64,
) -> bool {
    &&& o.id@ == order.urn@
    &&& o.provider_id@ == order.seller.id@
    &&& is_location_union(o.provider_location_ids@, order.items@)
    &&& o.items@.len() == order.items@.len()
    &&& forall|i: int| 0 <= i < o.items@.len() ==> is_item_from_record(#[trigger] o.items@[i], order.items@[i])
    &&& o.fulfillments@.len() == order.fulfillments@.len()
    &&& forall|i: int|
        0 <= i < o.fulfillments@.len() ==> is_record_fulfillment(
            #[trigger] o.fulfillments@[i],
            order.fulfillments@[i],
            b,
        )
    &&& is_billing_from_record(o.billing, order.billing->0)
    &&& is_cancellation_terms(
        o.cancellation_terms@,
        currency_or_primary(order.currency_type),
        order.cancellation_terms->0@,
    )
    &&& o.created_at == order.created_on
    &&& o.updated_at == now_ms
    &&& is_confirm_tags(o.tags@, order, b)
    &&& is_quote_of(o.quote, order)
    &&& is_confirm_payments(o.payments@, order, bap)
}

/// What a confirm assembly owes: an envelope exactly when the record has
/// billing and cancellation terms and the account a buyer id; otherwise the
/// validation error of the first of these that is missing.
pub open spec fn is_confirm_outcome(
    r: Result<ConfirmEnvelope, AdapterError>,
    order: BuyerCommerce,
    b: BusinessAccount,
    ids: OrderRequestIds,
    bap: RegisteredNetworkParticipant,
    now_ms: i64,
) -> bool {
    &&& (r is Ok <==> (order.billing is Some && order.cancellation_terms is Some && buyer_id_value(b) is Some))
    &&& r is Ok ==> is_record_context(
        r->Ok_0.context,
        order,
        ids.transaction_id,
        ids.message_id,
        ActionType::Confirm,
        now_ms,
    ) && is_confirm_order(r->Ok_0.order, order, b, bap, now_ms)
    &&& order.billing is None ==> r is Err && is_validation(r->Err_0, "Billing Address not found"@)
    &&& order.billing is Some && order.cancellation_terms is None ==> r is Err && is_validation(
        r->Err_0,
        "Cancellation terms not found"@,
    )
    &&& order.billing is Some && order.cancellation_terms is Some && buyer_id_value(b) is None ==> r is Err
        && is_validation(r->Err_0, "Failed to get buyer ID tag"@)
}

/// The confirm envelope. Validation fails when the record has no billing,
/// no cancellation terms, or the account no buyer id.
pub fn get_ondc_confirm_payload(
    business_account: &BusinessAccount,
    order: &BuyerCommerce,
    confirm_request: &OrderRequestIds,
    bap_detail: &RegisteredNetworkParticipant,
    now_ms: i64,
) -> (r: Result<ConfirmEnvelope, AdapterError>)
    ensures
        is_confirm_outcome(r, *order, *business_account, *confirm_request, *bap_detail, now_ms),
        r is Err ==> r->Err_0 is Validation,
{
    let context = get_ondc_context_from_order(
        confirm_request.transaction_id,
        confirm_request.message_id,
        order,
        ActionType::Confirm,
        now_ms,
    );
    let billing = match &order.billing {
        Some(b) => b,
        None => {
            return Err(AdapterError::Validation(String::from_str("Billing Address not found")));
        },
    };
    let terms = match &order.cancellation_terms {
        Some(t) => t,
        None => {
            return Err(AdapterError::Validation(String::from_str("Cancellation terms not found")));
        },
    };
    let tags = get_ondc_confirm_request_tags(order, business_account)?;
    let currency = match order.currency_type {
        Some(c) => c,
        None => CurrencyType::Inr,
    };
    let confirm = ConfirmOrder {
        id: copy_string(&order.urn),
        provider_id: copy_string(&order.seller.id),
        provider_location_ids: order.get_ondc_location_ids(),
        items: get_ondc_items_from_order(&order.items),
        fulfillments: get_get_ondc_init_fulfillment(&order.fulfillments, business_account),
        billing: get_ondc_billing_from_order_billing(billing),
        cancellation_terms: get_ondc_cancellation_from_cancelletion_terms(currency, terms),
        created_at: order.created_on,
        updated_at: context.timestamp_ms,
        tags,
        quote: get_quote_from_order(order),
        payments: get_ondc_confirm_request_payment(order, bap_detail),
    };
    Ok(ConfirmEnvelope { context, order: confirm })
}

/// The status envelope: the record's order id and nothing more.
pub fn get_ondc_status_payload(order: &BuyerCommerce, status_request: &OrderRequestIds, now_ms: i64) -> (r:
    StatusEnvelope)
    ensures
        is_record_context(
            r.context,
            *order,
            status_request.transaction_id,
            status_request.message_id,
            ActionType::Status,
            now_ms,
        ),
        r.order_id@ == order.urn@,
{
    let context = get_ondc_context_from_order(
        status_request.transaction_id,
        status_request.message_id,
        order,
        ActionType::Status,
        now_ms,
    );
    StatusEnvelope { context, order_id: copy_string(&order.urn) }
}

#[derive(Clone, Debug)]
pub struct OrderCancelRequest {
    pub transaction_id: u128,
    pub message_id: u128,
    pub reason_id: String,
}

/// The cancel envelope: the record's order id and the reason code.
pub fn get_ondc_cancel_payload(order: &BuyerCommerce, cancel_request: &OrderCancelRequest, now_ms: i64) -> (r:
    CancelEnvelope)
    ensures
        is_record_context(
            r.context,
            *order,
            cancel_request.transaction_id,
            cancel_request.message_id,
            ActionType::Cancel,
            now_ms,
        ),
        r.order_id@ == order.urn@,
        r.cancellation_reason_id@ == cancel_request.reason_id@,
{
    let context = get_ondc_context_from_order(
        cancel_request.transaction_id,
        cancel_request.message_id,
        order,
        ActionType::Cancel,
        now_ms,
    );
    CancelEnvelope {
        context,
        order_id: copy_string(&order.urn),
        cancellation_reason_id: copy_string(&cancel_request.reason_id),
    }
}

/// What an update asks to change.
#[derive(Clone, Debug)]
pub enum OrderUpdateRequest {
    UpdatePayment { transaction_id: u128, message_id: u128 },
    UpdateItem { transaction_id: u128, message_id: u128 },
    UpdateFulfillment { transaction_id: u128, message_id: u128 },
}

pub fn get_ondc_update_items(order: &BuyerCommerce) -> (r: Vec<UpdateItem>)
    ensures
        r@.len() == order.items@.len(),
        forall|i: int|
            0 <= i < r@.len() ==> (#[trigger] r@[i]).id@ == order.items@[i].item_id@ && r@[i].quantity as int
                == whole_units_i32(order.items@[i].qty),
{
    let mut out: Vec<UpdateItem> = Vec::new();
    let mut i: usize = 0;
    while i < order.items.len()
        invariant
            i <= order.items@.len(),
            out@.len() == i,
            forall|k: int|
                0 <= k < i ==> (#[trigger] out@[k]).id@ == order.items@[k].item_id@ && out@[k].quantity as int
                    == whole_units_i32(order.items@[k].qty),
        decreases order.items.len() - i,
    {
        out.push(
            UpdateItem {
                id: copy_string(&order.items[i].item_id),
                quantity: whole_units(order.items[i].qty),
            },
        );
        i = i + 1;
    }
    out
}

/// The update envelope. Only a payment update is supported: it carries the
/// full payment block and the lines' quantities. Item and fulfillment
/// updates are `NotImplemented`.
pub fn get_ondc_update_payload(
    order: &BuyerCommerce,
    update_request: &OrderUpdateRequest,
    bap_detail: &RegisteredNetworkParticipant,
    now_ms: i64,
) -> (r: Result<UpdateEnvelope, AdapterError>)
    ensures
        r is Ok <==> update_request is UpdatePayment,
        r is Err ==> r->Err_0 is NotImplemented,
        r is Ok ==> {
            let e = r->Ok_0;
            &&& is_record_context(
                e.context,
                *order,
                update_request->UpdatePayment_transaction_id,
                update_request->UpdatePayment_message_id,
                ActionType::Update,
                now_ms,
            )
            &&& e.target == UpdateTarget::Payments
            &&& e.order_id@ == order.urn@
            &&& e.provider_id@ == order.seller.id@
            &&& is_confirm_payments(e.payments@, *order, *bap_detail)
            &&& e.items@.len() == order.items@.len()
            &&& forall|i: int|
                0 <= i < e.items@.len() ==> (#[trigger] e.items@[i]).id@ == order.items@[i].item_id@
                    && e.items@[i].quantity as int == whole_units_i32(order.items@[i].qty)
        },
{
    match update_request {
        OrderUpdateRequest::UpdatePayment { transaction_id, message_id } => {
            let context = get_ondc_context_from_order(
                *transaction_id,
                *message_id,
                order,
                ActionType::Update,
                now_ms,
            );
            Ok(
                UpdateEnvelope {
                    context,
                    target: UpdateTarget::Payments,
                    order_id: copy_string(&order.urn),
                    provider_id: copy_string(&order.seller.id),
                    payments: get_ondc_confirm_request_payment(order, bap_detail),
                    items: get_ondc_update_items(order),
                },
            )
        },
        OrderUpdateRequest::UpdateItem { .. } => Err(
            AdapterError::NotImplemented(String::from_str("Item Updation not implemented")),
        ),
        OrderUpdateRequest::UpdateFulfillment { .. } => Err(
            AdapterError::NotImplemented(String::from_str("Fulfillment Updation not implemented")),
        ),
    }
}

/// An init request: the ids and the buyer's billing block.
#[derive(Clone, Debug)]
pub struct OrderInitRequest {
    pub transaction_id: u128,
    pub message_id: u128,
    pub billing: crate::schemas::OrderInitBilling,
}

pub open spec fn is_billing_from_init(o: Billing, b: crate::schemas::OrderInitBilling) -> bool {
    &&& o.name@ == b.name@
    &&& o.address@ == b.address@
    &&& o.state@ == b.state@
    &&& o.city@ == b.city.name@
    &&& o.tax_id@ == b.tax_id@
    &&& opt_view(o.email) == Some(b.email@)
    &&& o.phone@ == b.mobile_no@
}

pub fn get_ondc_billing_from_init_billing(billing: &crate::schemas::OrderInitBilling) -> (r: Billing)
    ensures
        is_billing_from_init(r, *billing),
{
    Billing {
        name: copy_string(&billing.name),
        address: copy_string(&billing.address),
        state: copy_string(&billing.state),
        city: copy_string(&billing.city.name),
        tax_id: copy_string(&billing.tax_id),
        email: Some(copy_string(&billing.email)),
        phone: copy_string(&billing.mobile_no),
    }
}

/// The init payments: each record payment's type, collected by the seller
/// platform unless the record says otherwise.
pub fn get_ondc_payment_from_order(payments: &Vec<BuyerCommercePayment>) -> (r: Vec<crate::protocol::InitPayment>)
    ensures
        r@.len() == payments@.len(),
        forall|i: int|
            0 <= i < r@.len() ==> (#[trigger] r@[i]).payment_type == payments@[i].payment_type && r@[i].collected_by
                == match payments@[i].collected_by {
                Some(c) => c,
                None => NetworkRole::Bpp,
            },
{
    let mut out: Vec<crate::protocol::InitPayment> = Vec::new();
    let mut i: usize = 0;
    while i < payments.len()
        invariant
            i <= payments@.len(),
            out@.len() == i,
            forall|k: int|
                0 <= k < i ==> (#[trigger] out@[k]).payment_type == payments@[k].payment_type && out@[k].collected_by
                    == match payments@[k].collected_by {
                    Some(c) => c,
                    None => NetworkRole::Bpp,
                },
        decreases payments.len() - i,
    {
        let p = &payments[i];
        out.push(crate::protocol::InitPayment {
            payment_type: p.payment_type,
            collected_by: match p.collected_by {
                Some(c) => c,
                None => NetworkRole::Bpp,
            },
        });
        i = i + 1;
    }
    out
}

/// The init envelope: billing from the request, the rest rebuilt from the
/// record; fails only when the account has no buyer id.
pub fn get_ondc_init_payload(
    business_account: &BusinessAccount,
    order: &BuyerCommerce,
    init_request: &OrderInitRequest,
    now_ms: i64,
) -> (r: Result<crate::protocol::InitEnvelope, AdapterError>)
    ensures
        r is Ok <==> buyer_id_value(*business_account) is Some,
        r is Err ==> is_validation(r->Err_0, "Failed to get buyer ID tag"@),
        r is Ok ==> {
            let o = r->Ok_0.order;
            &&& is_record_context(
                r->Ok_0.context,
                *order,
                init_request.transaction_id,
                init_request.message_id,
                ActionType::Init,
                now_ms,
            )
            &&& o.provider_id@ == order.seller.id@
            &&& is_location_union(o.provider_location_ids@, order.items@)
            &&& is_billing_from_init(o.billing, init_request.billing)
            &&& o.payments@.len() == order.payments@.len()
            &&& forall|i: int|
                0 <= i < o.payments@.len() ==> (#[trigger] o.payments@[i]).payment_type == order.payments@[i].payment_type
            &&& o.items@.len() == order.items@.len()
            &&& forall|i: int| 0 <= i < o.items@.len() ==> is_item_from_record(#[trigger] o.items@[i], order.items@[i])
            &&& o.tags@.len() == 1 && is_buyer_id_tag(o.tags@[0], *business_account)
            &&& o.fulfillments@.len() == order.fulfillments@.len()
            &&& forall|i: int|
                0 <= i < o.fulfillments@.len() ==> is_record_fulfillment(
                    #[trigger] o.fulfillments@[i],
                    order.fulfillments@[i],
                    *business_account,
                )
        },
{
    let id_tag = get_buyer_id_tag(business_account)?;
    let context = get_ondc_context_from_order(
        init_request.transaction_id,
        init_request.message_id,
        order,
        ActionType::Init,
        now_ms,
    );
    let mut tags: Vec<Tag> = Vec::new();
    tags.push(id_tag);
    let o = crate::protocol::InitOrder {
        provider_id: copy_string(&order.seller.id),
        provider_location_ids: order.get_ondc_location_ids(),
        billing: get_ondc_billing_from_init_billing(&init_request.billing),
        payments: get_ondc_payment_from_order(&order.payments),
        items: get_ondc_items_from_order(&order.items),
        tags,
        fulfillments: get_get_ondc_init_fulfillment(&order.fulfillments, business_account),
    };
    Ok(crate::protocol::InitEnvelope { context, order: o })
}

/// In a confirm envelope assembled from a balanced record, the item and
/// fulfillment charges of the quote breakup add up exactly to the quoted
/// price.
pub proof fn lemma_confirm_breakup_sums_to_price(
    o: ConfirmOrder,
    order: BuyerCommerce,
    business: BusinessAccount,
    bap: RegisteredNetworkParticipant,
    now_ms: i64,
)
    requires
        order.billing is Some && order.cancellation_terms is Some,
        is_confirm_order(o, order, business, bap, now_ms),
        crate::quote::is_balanced(order),
    ensures
        crate::quote::charge_total(o.quote.breakup@) == o.quote.price.value.value(),
        o.quote.price.value == amount_or_zero_value(order.grand_total),
{
    crate::quote::lemma_quote_breakup_round_trip(o.quote, order);
}

} // verus!
