use ondc_buyer::accounts::{
    BusinessAccount, ParticipantEntry, RegisteredNetworkParticipant, UserAccount, VectorType, VectorValue,
};
use ondc_buyer::amount::Amount;
use ondc_buyer::envelope::{get_ondc_search_payload, ProductSearchRequest, ProductSearchType};
use ondc_buyer::commerce::draft_select;
use ondc_buyer::init_intake::{advance_record_status, apply_on_init};
use ondc_buyer::order_envelope::{get_ondc_cancel_payload, get_ondc_confirm_payload, OrderCancelRequest, OrderRequestIds};
use ondc_buyer::protocol::{
    ActionType, Billing, BreakupTitleType, Context, InboundBreakUp, InboundQuote, OnInitResponse,
    OnSelectFulfillment, OnSelectItem, OnSelectPayment, OnSelectResponse, ProtocolVersion,
};
use ondc_buyer::quote_intake::apply_quote;
use ondc_buyer::schemas::{
    City, Country, CurrencyType, FeeType, FulfillmentCategoryType, FulfillmentLocation, FulfillmentType,
    NetworkRole, OrderSelectFulfillment, OrderSelectItem, OrderSelectRequest, OrderType, PaymentType,
    ServiceableType,
};
use ondc_buyer::status::{CommerceStatusType, InboundEvent};
use ondc_buyer::tags::{Tag, TagCode, TagGroup, TagItem};

fn s(v: &str) -> String {
    v.to_string()
}

fn business() -> BusinessAccount {
    BusinessAccount {
        id: 7,
        company_name: s("Acme"),
        default_vector_type: VectorType::Gstin,
        vectors: vec![VectorValue { vector_type: VectorType::Gstin, value: s("29ABCDE1234F1Z5") }],
        proofs: vec![],
    }
}

fn user() -> UserAccount {
    UserAccount { id: 11, name: s("Asha") }
}

fn bap() -> RegisteredNetworkParticipant {
    RegisteredNetworkParticipant {
        subscriber_id: s("buyer.example"),
        subscriber_uri: s("https://buyer.example/ondc"),
        fee_type: FeeType::Percent,
        fee_value: s("3.0"),
        settlement_phase: s("sale-amount"),
        settlement_type: s("neft"),
        bank_account_no: s("000111"),
        bank_ifsc_code: s("IFSC0001"),
        bank_beneficiary_name: s("Buyer App"),
        bank_name: s("Bank"),
    }
}

fn bpp() -> ParticipantEntry {
    ParticipantEntry {
        subscriber_id: s("seller.example"),
        role: NetworkRole::Bpp,
        domain: s("RET"),
        subscriber_uri: s("https://seller.example/ondc"),
        signing_public_key: s("sk"),
        encr_public_key: s("ek"),
        br_id: s("br"),
        uk_id: s("uk"),
    }
}

fn location(country: &str) -> FulfillmentLocation {
    FulfillmentLocation {
        gps: s("12.9,77.6"),
        area_code: s("560001"),
        address: s("1 MG Road"),
        city: City { code: s("std:080"), name: s("Bengaluru") },
        country: Country { code: s(country), name: s("India") },
        state: s("Karnataka"),
        contact_mobile_no: s("+919999999999"),
    }
}

fn select_request() -> OrderSelectRequest {
    OrderSelectRequest {
        transaction_id: 100,
        message_id: 200,
        domain_category_code: s("RET"),
        payment_types: vec![PaymentType::PrePaid],
        provider_id: s("PRV-A"),
        items: vec![
            OrderSelectItem {
                item_id: s("I1"),
                location_ids: vec![s("L1")],
                qty: 2,
                buyer_term: None,
                fulfillment_ids: vec![s("F1")],
            },
            OrderSelectItem {
                item_id: s("I2"),
                location_ids: vec![s("L1"), s("L2")],
                qty: 1,
                buyer_term: None,
                fulfillment_ids: vec![s("F1")],
            },
        ],
        ttl: s("PT30S"),
        fulfillments: vec![OrderSelectFulfillment {
            id: s("F1"),
            fulfillment_type: FulfillmentType::Delivery,
            location: location("IND"),
            delivery_terms: None,
        }],
        order_type: OrderType::SaleOrder,
        bpp_id: s("seller.example"),
        is_import: false,
    }
}

fn context(action: ActionType) -> Context {
    Context {
        domain: s("RET"),
        city_code: s("std:080"),
        country_code: s("IND"),
        action,
        version: ProtocolVersion::V2point2,
        transaction_id: 100,
        message_id: 300,
        bap_id: s("buyer.example"),
        bap_uri: s("https://buyer.example/ondc"),
        bpp_id: Some(s("seller.example")),
        bpp_uri: Some(s("https://seller.example/ondc")),
        timestamp_ms: 1_700_000_000_000,
        ttl: s("PT30S"),
    }
}

fn line(id: &str, t: BreakupTitleType, v: &str) -> InboundBreakUp {
    InboundBreakUp { item_id: Some(s(id)), title_type: t, price_value: s(v), quantity: None, item_price_value: None }
}

fn on_select() -> OnSelectResponse {
    let mut i1 = line("I1", BreakupTitleType::Item, "800.00");
    i1.quantity = Some(2);
    i1.item_price_value = Some(s("400.00"));
    let mut i2 = line("I2", BreakupTitleType::Item, "400.00");
    i2.quantity = Some(1);
    i2.item_price_value = Some(s("400.00"));
    OnSelectResponse {
        context: context(ActionType::Select),
        error: None,
        items: vec![
            OnSelectItem { id: s("I1"), location_ids: vec![s("L1")], fulfillment_ids: vec![s("F1")], quantity: 2, tags: None },
            OnSelectItem { id: s("I2"), location_ids: vec![s("L1"), s("L2")], fulfillment_ids: vec![s("F1")], quantity: 1, tags: None },
        ],
        fulfillments: vec![OnSelectFulfillment {
            id: s("F1"),
            category: FulfillmentCategoryType::StandardDelivery,
            provider_name: Some(s("Seller")),
            tat: s("P1D"),
            servicable_status: ServiceableType::Serviceable,
            tracking: false,
            stops: None,
        }],
        payments: vec![OnSelectPayment { collected_by: NetworkRole::Bpp, payment_type: PaymentType::PrePaid }],
        quote: InboundQuote {
            price_value: s("1200.00"),
            currency: CurrencyType::Inr,
            ttl: s("P1D"),
            breakup: vec![
                i1,
                i2,
                line("I1", BreakupTitleType::Tax, "40"),
                line("I2", BreakupTitleType::Tax, "20"),
                line("I1", BreakupTitleType::Discount, "10"),
                line("I2", BreakupTitleType::Discount, "0"),
            ],
        },
    }
}

fn tag(group: TagGroup, items: &[(TagCode, &str)]) -> Tag {
    Tag { code: group, list: items.iter().map(|(c, v)| TagItem { code: *c, value: s(v) }).collect() }
}

fn on_init() -> OnInitResponse {
    OnInitResponse {
        context: context(ActionType::Init),
        billing: Billing {
            name: s("Acme"),
            address: s("1 MG Road"),
            state: s("Karnataka"),
            city: s("Bengaluru"),
            tax_id: s("29ABCDE1234F1Z5"),
            email: Some(s("a@b.c")),
            phone: s("+91..."),
        },
        tags: vec![tag(
            TagGroup::BppTerms,
            &[
                (TagCode::MaxLiability, "2"),
                (TagCode::MaxLiabilityCap, "10000"),
                (TagCode::MandatoryArbitration, "false"),
                (TagCode::CourtJurisdiction, "Bengaluru"),
                (TagCode::DelayInterest, "1000"),
            ],
        )],
        cancellation_terms: vec![],
        payments: vec![],
    }
}

#[test]
fn search_city_envelope() {
    let req = ProductSearchRequest {
        transaction_id: 1,
        message_id: 2,
        domain_category_code: s("RET"),
        search_type: ProductSearchType::City,
        query: s(""),
        country_code: s("IND"),
        city_code: s("std:080"),
        fulfillment_type: Some(FulfillmentType::Delivery),
        fulfillment_locations: None,
        payment_type: Some(PaymentType::PrePaid),
    };
    let env = get_ondc_search_payload(&user(), &business(), &req, &bap(), 5).unwrap();
    let tags = &env.message.intent.tags;
    assert_eq!(tags.len(), 2);
    assert_eq!(tags[0].code, TagGroup::BuyerFee);
    assert_eq!(tags[0].list[0].value, "percent");
    assert_eq!(tags[0].list[1].value, "3.0");
    assert_eq!(tags[1].code, TagGroup::BuyerId);
    assert_eq!(tags[1].list[0].value, "gstin");
    assert_eq!(tags[1].list[1].value, "29ABCDE1234F1Z5");
    assert!(env.message.intent.fulfillment.is_none());
    assert!(env.message.intent.payment.is_none());
    assert_eq!(env.context.action, ActionType::Search);
    assert!(env.context.bpp_id.is_none());
    assert_eq!(env.context.ttl, "PT30S");
    assert_eq!(env.context.city_code, "std:080");
}

#[test]
fn quote_request_draft() {
    let rec = draft_select(&select_request(), &user(), &business(), &bap(), &bpp(), &vec![], &s("Seller"), 9, 5);
    assert_eq!(rec.record_status, CommerceStatusType::QuoteRequested);
    assert_eq!(rec.items.len(), 2);
    for it in &rec.items {
        assert_eq!(it.unit_price, Amount { hundredths: 0 });
        assert_eq!(it.mrp, Amount { hundredths: 0 });
        assert_eq!(it.tax_rate, Amount { hundredths: 0 });
    }
    assert_eq!(rec.items[0].qty, Amount { hundredths: 200 });
    let drop = rec.fulfillments[0].drop_off.as_ref().unwrap();
    assert_eq!(drop.location.gps, "12.9,77.6");
    assert_eq!(drop.location.address.as_deref(), Some("1 MG Road"));
    assert_eq!(drop.contact.mobile_no, "+919999999999");
    assert_eq!(rec.external_urn, 100);
}

#[test]
fn quote_response_accepted() {
    let rec = apply_quote(None, &on_select(), &select_request(), &user(), &business(), &vec![], &s("Seller"), 9, 5).unwrap();
    assert_eq!(rec.grand_total, Some(Amount { hundredths: 120000 }));
    assert_eq!(rec.items[0].tax_value, Amount { hundredths: 4000 });
    assert_eq!(rec.items[1].tax_value, Amount { hundredths: 2000 });
    assert_eq!(rec.items[0].discount_amount, Amount { hundredths: 1000 });
    assert_eq!(rec.items[1].discount_amount, Amount { hundredths: 0 });
    assert_eq!(rec.items[0].gross_total, Amount { hundredths: 80000 });
    assert_eq!(rec.record_status, CommerceStatusType::QuoteAccepted);
    assert_eq!(rec.record_type, OrderType::SaleOrder);
}

#[test]
fn initialize_applies_billing_and_terms() {
    let mut rec = apply_quote(None, &on_select(), &select_request(), &user(), &business(), &vec![], &s("Seller"), 9, 5).unwrap();
    assert_eq!(apply_on_init(&mut rec, &on_init()).unwrap(), true);
    let billing = rec.billing.as_ref().unwrap();
    assert_eq!(billing.name, "Acme");
    assert_eq!(billing.tax_id, "29ABCDE1234F1Z5");
    assert_eq!(billing.city, "Bengaluru");
    assert_eq!(billing.state, "Karnataka");
    assert_eq!(billing.email.as_deref(), Some("a@b.c"));
    assert_eq!(billing.phone, "+91...");
    let terms = rec.bpp_terms.as_ref().unwrap();
    assert_eq!(terms.max_liability, "2");
    assert_eq!(terms.max_liability_cap, "10000");
    assert!(!terms.mandatory_arbitration);
    assert_eq!(terms.court_jurisdiction, "Bengaluru");
    assert_eq!(terms.delay_interest, "1000");
    assert_eq!(rec.record_status, CommerceStatusType::Initialized);
}

#[test]
fn confirm_envelope_breakup_and_tags() {
    let mut rec = apply_quote(None, &on_select(), &select_request(), &user(), &business(), &vec![], &s("Seller"), 9, 5).unwrap();
    assert_eq!(apply_on_init(&mut rec, &on_init()).unwrap(), true);
    rec.urn = s("order-1");
    let ids = OrderRequestIds { transaction_id: 100, message_id: 400 };
    let env = get_ondc_confirm_payload(&business(), &rec, &ids, &bap(), 6).unwrap();
    let kinds: Vec<BreakupTitleType> = env.order.quote.breakup.iter().map(|b| b.title_type).collect();
    assert_eq!(
        kinds,
        vec![
            BreakupTitleType::Packing,
            BreakupTitleType::Delivery,
            BreakupTitleType::Misc,
            BreakupTitleType::Item,
            BreakupTitleType::Tax,
            BreakupTitleType::Discount,
            BreakupTitleType::Item,
            BreakupTitleType::Tax,
            BreakupTitleType::Discount,
        ]
    );
    let tags = &env.order.tags;
    assert_eq!(tags.len(), 3);
    assert_eq!(tags[0].code, TagGroup::BuyerId);
    assert_eq!(tags[1].code, TagGroup::BppTerms);
    assert_eq!(tags[2].code, TagGroup::BapTerms);
    assert_eq!(tags[2].list[0].code, TagCode::AcceptBppTerms);
    assert_eq!(tags[2].list[0].value, "Y");
    assert_eq!(env.context.action, ActionType::Confirm);
    assert_eq!(env.order.id, "order-1");
    assert_eq!(env.order.quote.price.value, Amount { hundredths: 120000 });
}

#[test]
fn cancel_envelope_and_status() {
    let mut rec = apply_quote(None, &on_select(), &select_request(), &user(), &business(), &vec![], &s("Seller"), 9, 5).unwrap();
    rec.urn = s("order-1");
    rec.record_status = CommerceStatusType::Created;
    let req = OrderCancelRequest { transaction_id: 100, message_id: 500, reason_id: s("001") };
    let env = get_ondc_cancel_payload(&rec, &req, 7);
    assert_eq!(env.order_id, "order-1");
    assert_eq!(env.cancellation_reason_id, "001");
    assert_eq!(env.context.action, ActionType::Cancel);
    assert!(advance_record_status(&mut rec, InboundEvent::OnCancel { ok: true }));
    assert_eq!(rec.record_status, CommerceStatusType::Cancelled);
}
