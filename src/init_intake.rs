use crate::amount::{amount_of_text, parse_amount};
use crate::envelope::{copy_opt_string, opt_view};
use crate::protocol::{AdapterError, Billing, CancellationFee, CancellationTerm, OnInitPayment, OnInitResponse};
use crate::schemas::{
    BppTerms, BuyerCommerce, BuyerCommercePayment, CancellationFeeType, CommerceBilling,
    CommerceCancellationFee, CommerceCancellationTerm, SettlementDetail,
};
use crate::status::{advance_status, apply_event, transition, CommerceStatusType, InboundEvent};
use crate::tags::{copy_string, get_tag_value_from_list, tag_value, Tag, TagCode, TagGroup};
use vstd::prelude::*;

verus! {

pub open spec fn bpp_text(tags: Seq<Tag>, code: TagCode) -> Seq<char> {
    match tag_value(tags, TagGroup::BppTerms, code) {
        Some(v) => v,
        None => Seq::empty(),
    }
}

/// The seller's terms read from its tags; a missing value reads as empty,
/// and arbitration is mandatory exactly when its value is `true`.
pub open spec fn is_bpp_terms_from(t: BppTerms, tags: Seq<Tag>) -> bool {
    &&& t.max_liability@ == bpp_text(tags, TagCode::MaxLiability)
    &&& t.max_liability_cap@ == bpp_text(tags, TagCode::MaxLiabilityCap)
    &&& t.mandatory_arbitration == (bpp_text(tags, TagCode::MandatoryArbitration) == "true"@)
    &&& t.court_jurisdiction@ == bpp_text(tags, TagCode::CourtJurisdiction)
    &&& t.delay_interest@ == bpp_text(tags, TagCode::DelayInterest)
}

fn bpp_value(tags: &Vec<Tag>, code: TagCode) -> (r: String)
    ensures
        r@ == bpp_text(tags@, code),
{
    match get_tag_value_from_list(tags, TagGroup::BppTerms, code) {
        Some(v) => v,
        None => String::new(),
    }
}

pub fn get_bpp_term_model_from_tag(tags: &Vec<Tag>) -> (r: BppTerms)
    ensures
        is_bpp_terms_from(r, tags@),
{
    let arbitration = bpp_value(tags, TagCode::MandatoryArbitration);
    proof {
        reveal_strlit("true");
    }
    let t = String::from_str("true");
    BppTerms {
        max_liability: bpp_value(tags, TagCode::MaxLiability),
        max_liability_cap: bpp_value(tags, TagCode::MaxLiabilityCap),
        mandatory_arbitration: arbitration == t,
        court_jurisdiction: bpp_value(tags, TagCode::CourtJurisdiction),
        delay_interest: bpp_value(tags, TagCode::DelayInterest),
    }
}

pub open spec fn is_stored_cancel_term(o: CommerceCancellationTerm, t: CancellationTerm) -> bool {
    &&& o.fulfillment_state == t.fulfillment_state
    &&& o.reason_required == t.reason_required
    &&& match t.cancellation_fee {
        CancellationFee::Percent { percentage } => o.cancellation_fee.fee_type == CancellationFeeType::Percent
            && o.cancellation_fee.val@ == percentage@,
        CancellationFee::Amount { currency, value } => o.cancellation_fee.fee_type
            == CancellationFeeType::Amount && o.cancellation_fee.val@ == value@,
    }
}

/// The cancellation terms to store, one per term the seller sent.
pub fn get_cancel_term_model_from_ondc_cancel_term(cancellation_terms: &Vec<CancellationTerm>) -> (r: Vec<
    CommerceCancellationTerm,
>)
    ensures
        r@.len() == cancellation_terms@.len(),
        forall|i: int| 0 <= i < r@.len() ==> is_stored_cancel_term(#[trigger] r@[i], cancellation_terms@[i]),
{
    let mut out: Vec<CommerceCancellationTerm> = Vec::new();
    let mut i: usize = 0;
    while i < cancellation_terms.len()
        invariant
            i <= cancellation_terms@.len(),
            out@.len() == i,
            forall|k: int| 0 <= k < i ==> is_stored_cancel_term(#[trigger] out@[k], cancellation_terms@[k]),
        decreases cancellation_terms.len() - i,
    {
        let t = &cancellation_terms[i];
        let fee = match &t.cancellation_fee {
            CancellationFee::Percent { percentage } => CommerceCancellationFee {
                fee_type: CancellationFeeType::Percent,
                val: copy_string(percentage),
            },
            CancellationFee::Amount { currency: _, value } => CommerceCancellationFee {
                fee_type: CancellationFeeType::Amount,
                val: copy_string(value),
            },
        };
        out.push(
            CommerceCancellationTerm {
                fulfillment_state: t.fulfillment_state,
                reason_required: t.reason_required,
                cancellation_fee: fee,
            },
        );
        i = i + 1;
    }
    out
}

pub open spec fn is_billing_stored(o: CommerceBilling, b: Billing) -> bool {
    &&& o.name@ == b.name@
    &&& o.address@ == b.address@
    &&& o.state@ == b.state@
    &&& o.city@ == b.city@
    &&& o.tax_id@ == b.tax_id@
    &&& opt_view(o.email) == opt_view(b.email)
    &&& o.phone@ == b.phone@
}

pub fn convert_ondc_billing_to_model_billing(billing: &Billing) -> (r: CommerceBilling)
    ensures
        is_billing_stored(r, *billing),
{
    CommerceBilling {
        name: copy_string(&billing.name),
        address: copy_string(&billing.address),
        state: copy_string(&billing.state),
        city: copy_string(&billing.city),
        tax_id: copy_string(&billing.tax_id),
        email: copy_opt_string(&billing.email),
        phone: copy_string(&billing.phone),
    }
}

/// A value of the seller's payment tag, absent when the payment has no tags.
pub open spec fn payment_tag_text(tags: Option<Vec<Tag>>, code: TagCode) -> Option<Seq<char>> {
    match tags {
        Some(ts) => Some(
            match tag_value(ts@, TagGroup::BppPayment, code) {
                Some(v) => v,
                None => Seq::empty(),
            },
        ),
        None => None,
    }
}

fn payment_tag_value(tags: &Option<Vec<Tag>>, code: TagCode) -> (r: Option<String>)
    ensures
        opt_view(r) == payment_tag_text(*tags, code),
{
    match tags {
        Some(ts) => Some(
            match get_tag_value_from_list(ts, TagGroup::BppPayment, code) {
                Some(v) => v,
                None => String::new(),
            },
        ),
        None => None,
    }
}

/// A payment stored from the seller's `on_init` payment.
pub open spec fn is_init_payment(o: BuyerCommercePayment, p: OnInitPayment) -> bool {
    &&& o.collected_by == Some(p.collected_by)
    &&& o.payment_type == p.payment_type
    &&& o.payment_id is None
    &&& o.buyer_fee_type == Some(p.buyer_fee_type)
    &&& o.buyer_fee_amount is Some && o.buyer_fee_amount->0.value() == amount_of_text(p.buyer_fee_amount@)->0
    &&& opt_view(o.settlement_window) == Some(p.settlement_window@)
    &&& o.withholding_amount is Some && o.withholding_amount->0.value() == amount_of_text(
        p.withholding_amount@,
    )->0
    &&& opt_view(o.seller_payment_uri) == opt_view(p.uri)
    &&& o.settlement_basis == Some(p.settlement_basis)
    &&& opt_view(o.seller_payment_ttl) == payment_tag_text(p.tags, TagCode::Ttl)
    &&& opt_view(o.seller_payment_dsa) == payment_tag_text(p.tags, TagCode::Dsa)
    &&& opt_view(o.seller_payment_signature) == payment_tag_text(p.tags, TagCode::Signature)
    &&& (o.settlement_details is Some <==> p.settlement_details is Some)
    &&& p.settlement_details is Some ==> {
        let ds = p.settlement_details->0@;
        let os = o.settlement_details->0@;
        &&& os.len() == ds.len()
        &&& forall|i: int| 0 <= i < ds.len() ==> same_detail(#[trigger] os[i], ds[i])
    }
}

pub open spec fn same_detail(a: SettlementDetail, b: SettlementDetail) -> bool {
    &&& a.counterparty == b.counterparty
    &&& a.phase@ == b.phase@
    &&& a.settlement_type@ == b.settlement_type@
    &&& a.bank_account_no@ == b.bank_account_no@
    &&& a.ifsc@ == b.ifsc@
    &&& a.beneficiary@ == b.beneficiary@
    &&& a.bank_name@ == b.bank_name@
}

fn copy_details(ds: &Vec<SettlementDetail>) -> (r: Vec<SettlementDetail>)
    ensures
        r@.len() == ds@.len(),
        forall|i: int| 0 <= i < ds@.len() ==> same_detail(#[trigger] r@[i], ds@[i]),
{
    let mut out: Vec<SettlementDetail> = Vec::new();
    let mut i: usize = 0;
    while i < ds.len()
        invariant
            i <= ds@.len(),
            out@.len() == i,
            forall|k: int| 0 <= k < i ==> same_detail(#[trigger] out@[k], ds@[k]),
        decreases ds.len() - i,
    {
        let d = &ds[i];
        out.push(
            SettlementDetail {
                counterparty: d.counterparty,
                phase: copy_string(&d.phase),
                settlement_type: copy_string(&d.settlement_type),
                bank_account_no: copy_string(&d.bank_account_no),
                ifsc: copy_string(&d.ifsc),
                beneficiary: copy_string(&d.beneficiary),
                bank_name: copy_string(&d.bank_name),
            },
        );
        i = i + 1;
    }
    out
}

/// The seller's fee and withholding amounts of a payment are decimal amounts.
pub open spec fn payment_amounts_readable(p: OnInitPayment) -> bool {
    amount_of_text(p.buyer_fee_amount@) is Some && amount_of_text(p.withholding_amount@) is Some
}

pub open spec fn payments_readable(ps: Seq<OnInitPayment>) -> bool {
    forall|i: int| 0 <= i < ps.len() ==> payment_amounts_readable(#[trigger] ps[i])
}

/// The payments stored on init, one per payment of the seller's response;
/// a validation error when a fee or withholding amount is not an amount.
pub fn initialize_payment_on_init(payments: &Vec<OnInitPayment>) -> (r: Result<Vec<BuyerCommercePayment>, AdapterError>)
    ensures
        r is Ok <==> payments_readable(payments@),
        r is Err ==> r->Err_0 is Validation,
        r is Ok ==> r->Ok_0@.len() == payments@.len(),
        r is Ok ==> forall|i: int| 0 <= i < payments@.len() ==> is_init_payment(#[trigger] r->Ok_0@[i], payments@[i]),
{
    let mut out: Vec<BuyerCommercePayment> = Vec::new();
    let mut i: usize = 0;
    while i < payments.len()
        invariant
            i <= payments@.len(),
            out@.len() == i,
            forall|k: int| 0 <= k < i ==> is_init_payment(#[trigger] out@[k], payments@[k]),
            forall|k: int| 0 <= k < i ==> payment_amounts_readable(#[trigger] payments@[k]),
        decreases payments.len() - i,
    {
        let p = &payments[i];
        let fee = match parse_amount(p.buyer_fee_amount.as_str()) {
            Some(a) => a,
            None => {
                return Err(AdapterError::Validation(String::from_str("Buyer app finder fee amount is invalid")));
            },
        };
        let withholding = match parse_amount(p.withholding_amount.as_str()) {
            Some(a) => a,
            None => {
                return Err(AdapterError::Validation(String::from_str("Withholding amount is invalid")));
            },
        };
        out.push(
            BuyerCommercePayment {
                collected_by: Some(p.collected_by),
                payment_type: p.payment_type,
                payment_id: None,
                buyer_fee_type: Some(p.buyer_fee_type),
                buyer_fee_amount: Some(fee),
                settlement_window: Some(copy_string(&p.settlement_window)),
                withholding_amount: Some(withholding),
                seller_payment_uri: copy_opt_string(&p.uri),
                settlement_basis: Some(p.settlement_basis),
                settlement_details: match &p.settlement_details {
                    Some(ds) => Some(copy_details(ds)),
                    None => None,
                },
                seller_payment_ttl: payment_tag_value(&p.tags, TagCode::Ttl),
                seller_payment_dsa: payment_tag_value(&p.tags, TagCode::Dsa),
                seller_payment_signature: payment_tag_value(&p.tags, TagCode::Signature),
            },
        );
        i = i + 1;
    }
    Ok(out)
}

/// The header fields that no inbound transition touches.
pub open spec fn same_header(a: BuyerCommerce, b: BuyerCommerce) -> bool {
    &&& a.id == b.id && a.urn == b.urn && a.external_urn == b.external_urn
    &&& a.record_type == b.record_type && a.domain_category_code == b.domain_category_code
    &&& a.buyer_id == b.buyer_id && a.buyer_name == b.buyer_name
    &&& a.seller == b.seller && a.created_on == b.created_on && a.updated_on == b.updated_on
    &&& a.created_by == b.created_by && a.grand_total == b.grand_total
    &&& a.currency_type == b.currency_type && a.bap == b.bap && a.bpp == b.bpp
    &&& a.is_import == b.is_import && a.quote_ttl == b.quote_ttl
    &&& a.city_code == b.city_code && a.country_code == b.country_code
}

/// Applies an `on_init` to a record whose quote was accepted: its payments
/// are replaced by the seller's, billing, seller terms and cancellation
/// terms are stored, and the status becomes `Initialized`. For a record in
/// any other status the callback is ignored and `Ok(false)` returned. A
/// payment whose fee or withholding amount is not an amount fails the whole
/// callback with a validation error, and the record is left as it was.
pub fn apply_on_init(record: &mut BuyerCommerce, on_init: &OnInitResponse) -> (r: Result<bool, AdapterError>)
    ensures
        r is Err <==> (transition(old(record).record_status, InboundEvent::OnInit) is Some && !payments_readable(
            on_init.payments@,
        )),
        r is Err ==> r->Err_0 is Validation,
        r == Ok::<bool, AdapterError>(false) <==> transition(old(record).record_status, InboundEvent::OnInit) is None,
        !(r == Ok::<bool, AdapterError>(true)) ==> *final(record) == *old(record),
        r == Ok::<bool, AdapterError>(true) ==> {
            let r = *final(record);
            &&& same_header(r, *old(record))
            &&& r.items == old(record).items && r.fulfillments == old(record).fulfillments
            &&& r.record_status == CommerceStatusType::Initialized
            &&& r.billing is Some && is_billing_stored(r.billing->0, on_init.billing)
            &&& r.bpp_terms is Some && is_bpp_terms_from(r.bpp_terms->0, on_init.tags@)
            &&& r.cancellation_terms is Some && r.cancellation_terms->0@.len() == on_init.cancellation_terms@.len()
            &&& forall|i: int| 0 <= i < on_init.cancellation_terms@.len() ==> is_stored_cancel_term(
                #[trigger] r.cancellation_terms->0@[i],
                on_init.cancellation_terms@[i],
            )
            &&& r.payments@.len() == on_init.payments@.len()
            &&& forall|i: int| 0 <= i < r.payments@.len() ==> is_init_payment(#[trigger] r.payments@[i], on_init.payments@[i])
        },
{
    if record.record_status != CommerceStatusType::QuoteAccepted {
        return Ok(false);
    }
    let payments = initialize_payment_on_init(&on_init.payments)?;
    record.payments = payments;
    record.billing = Some(convert_ondc_billing_to_model_billing(&on_init.billing));
    record.bpp_terms = Some(get_bpp_term_model_from_tag(&on_init.tags));
    record.cancellation_terms = Some(get_cancel_term_model_from_ondc_cancel_term(&on_init.cancellation_terms));
    record.record_status = CommerceStatusType::Initialized;
    Ok(true)
}

/// Folds a lifecycle callback into a record's status; a callback not listed
/// for the record's status is ignored (and `false` returned).
pub fn advance_record_status(record: &mut BuyerCommerce, event: InboundEvent) -> (applied: bool)
    ensures
        applied == (transition(old(record).record_status, event) is Some),
        final(record).record_status == apply_event(old(record).record_status, event),
        same_header(*final(record), *old(record)),
        final(record).items == old(record).items && final(record).payments == old(record).payments,
        final(record).fulfillments == old(record).fulfillments && final(record).billing == old(record).billing,
        final(record).bpp_terms == old(record).bpp_terms,
        final(record).cancellation_terms == old(record).cancellation_terms,
{
    let applied = crate::status::next_status(record.record_status, event).is_some();
    record.record_status = advance_status(record.record_status, event);
    applied
}

} // verus!
