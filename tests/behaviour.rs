use ondc_buyer::accounts::{
    BusinessAccount, ParticipantEntry, RegisteredNetworkParticipant, UserAccount, VectorType, VectorValue,
};
use ondc_buyer::amount::Amount;
use ondc_buyer::envelope::{get_ondc_search_payload, ProductSearchRequest, ProductSearchType};
use ondc_buyer::amount::{parse_amount, parse_amount_or_zero, whole_units};
use ondc_buyer::catalog::{
    get_ondc_seller_location_mapping_key, get_ondc_seller_product_mapping_key, CatalogStore, OnSearchCatalog,
    OnSearchItem, OnSearchLocation, OnSearchProvider, SellerLocationInfo,
};
use ondc_buyer::directory::ParticipantDirectory;
use ondc_buyer::dispatch::{
    check_user_status, create_bulk_seller_info_objs, next_attempt, plan_on_search, resolve_device_id,
    validate_request_headers, RetryDecision,
};
use ondc_buyer::order_envelope::{
    get_ondc_init_payload, get_ondc_status_payload, get_ondc_update_payload, OrderInitRequest, OrderUpdateRequest,
};
use ondc_buyer::protocol::{AdapterError, OnInitPayment};
use ondc_buyer::amount::Coordinate;
use ondc_buyer::catalog::create_bulk_seller_location_info_objs;
use ondc_buyer::schemas::SettlementBasis;
use ondc_buyer::catalog::{
    ws_search_provider_from_ondc_provider, AdditionalDescription, ContentType, ProviderDescriptor,
};
use ondc_buyer::quote_intake::create_drop_off_from_ondc_select_fulfullment;
use ondc_buyer::dispatch::{
    get_ondc_order_param_from_commerce, get_ondc_order_param_from_req, get_websocket_params_from_search_req,
    ONDCRequestModel, SearchRequestModel,
};
use ondc_buyer::select::{check_location_closure, get_ondc_select_payload};
use ondc_buyer::status::{advance_status, advance_status_all, OrderProgress};
use ondc_buyer::tags::{get_search_tag_item_value, get_tag_value_from_list};
use ondc_buyer::schemas::{BuyerCommerce, OrderDeliveyTerm, IncoTermType, OrderInitBilling};
use ondc_buyer::accounts::KycProof;
use ondc_buyer::commerce::draft_select;
use ondc_buyer::init_intake::{advance_record_status, apply_on_init};
use ondc_buyer::order_envelope::{get_ondc_cancel_payload, get_ondc_confirm_payload, OrderCancelRequest, OrderRequestIds};
use ondc_buyer::protocol::{
    ActionType, Billing, BreakupTitleType, Context, InboundBreakUp, InboundQuote, OnInitResponse,
    OnSelectFulfillment, OnSelectItem, OnSelectPayment, OnSelectResponse, ProtocolVersion,
};
use ondc_buyer::quote_intake::apply_quote;
use ondc_buyer::schemas::{
    City, Country, CurrencyType, FeeType, FulfillmentCategoryType, FulfillmentLocation, FulfillmentType,
    NetworkRole, OrderSelectFulfillment, OrderSelectItem, OrderSelectRequest, OrderType, PaymentType,
    ServiceableType,
};
use ondc_buyer::status::{CommerceStatusType, InboundEvent};
use ondc_buyer::tags::{Tag, TagCode, TagGroup, TagItem};

fn s(v: &str) -> String {
    v.to_string()
}

fn business() -> BusinessAccount {
    BusinessAccount {
        id: 7,
        company_name: s("Acme"),
        default_vector_type: VectorType::Gstin,
        vectors: vec![VectorValue { vector_type: VectorType::Gstin, value: s("29ABCDE1234F1Z5") }],
        proofs: vec![],
    }
}

fn user() -> UserAccount {
    UserAccount { id: 11, name: s("Asha") }
}

fn bap() -> RegisteredNetworkParticipant {
    RegisteredNetworkParticipant {
        subscriber_id: s("buyer.example"),
        subscriber_uri: s("https://buyer.example/ondc"),
        fee_type: FeeType::Percent,
        fee_value: s("3.0"),
        settlement_phase: s("sale-amount"),
        settlement_type: s("neft"),
        bank_account_no: s("000111"),
        bank_ifsc_code: s("IFSC0001"),
        bank_beneficiary_name: s("Buyer App"),
        bank_name: s("Bank"),
    }
}

fn bpp() -> ParticipantEntry {
    ParticipantEntry {
        subscriber_id: s("seller.example"),
        role: NetworkRole::Bpp,
        domain: s("RET"),
        subscriber_uri: s("https://seller.example/ondc"),
        signing_public_key: s("sk"),
        encr_public_key: s("ek"),
        br_id: s("br"),
        uk_id: s("uk"),
    }
}

fn location(country: &str) -> FulfillmentLocation {
    FulfillmentLocation {
        gps: s("12.9,77.6"),
        area_code: s("560001"),
        address: s("1 MG Road"),
        city: City { code: s("std:080"), name: s("Bengaluru") },
        country: Country { code: s(country), name: s("India") },
        state: s("Karnataka"),
        contact_mobile_no: s("+919999999999"),
    }
}

fn select_request() -> OrderSelectRequest {
    OrderSelectRequest {
        transaction_id: 100,
        message_id: 200,
        domain_category_code: s("RET"),
        payment_types: vec![PaymentType::PrePaid],
        provider_id: s("PRV-A"),
        items: vec![
            OrderSelectItem {
                item_id: s("I1"),
                location_ids: vec![s("L1")],
                qty: 2,
                buyer_term: None,
                fulfillment_ids: vec![s("F1")],
            },
            OrderSelectItem {
                item_id: s("I2"),
                location_ids: vec![s("L1"), s("L2")],
                qty: 1,
                buyer_term: None,
                fulfillment_ids: vec![s("F1")],
            },
        ],
        ttl: s("PT30S"),
        fulfillments: vec![OrderSelectFulfillment {
            id: s("F1"),
            fulfillment_type: FulfillmentType::Delivery,
            location: location("IND"),
            delivery_terms: None,
        }],
        order_type: OrderType::SaleOrder,
        bpp_id: s("seller.example"),
        is_import: false,
    }
}

fn context(action: ActionType) -> Context {
    Context {
        domain: s("RET"),
        city_code: s("std:080"),
        country_code: s("IND"),
        action,
        version: ProtocolVersion::V2point2,
        transaction_id: 100,
        message_id: 300,
        bap_id: s("buyer.example"),
        bap_uri: s("https://buyer.example/ondc"),
        bpp_id: Some(s("seller.example")),
        bpp_uri: Some(s("https://seller.example/ondc")),
        timestamp_ms: 1_700_000_000_000,
        ttl: s("PT30S"),
    }
}

fn line(id: &str, t: BreakupTitleType, v: &str) -> InboundBreakUp {
    InboundBreakUp { item_id: Some(s(id)), title_type: t, price_value: s(v), quantity: None, item_price_value: None }
}

fn on_select() -> OnSelectResponse {
    let mut i1 = line("I1", BreakupTitleType::Item, "800.00");
    i1.quantity = Some(2);
    i1.item_price_value = Some(s("400.00"));
    let mut i2 = line("I2", BreakupTitleType::Item, "400.00");
    i2.quantity = Some(1);
    i2.item_price_value = Some(s("400.00"));
    OnSelectResponse {
        context: context(ActionType::Select),
        error: None,
        items: vec![
            OnSelectItem { id: s("I1"), location_ids: vec![s("L1")], fulfillment_ids: vec![s("F1")], quantity: 2, tags: None },
            OnSelectItem { id: s("I2"), location_ids: vec![s("L1"), s("L2")], fulfillment_ids: vec![s("F1")], quantity: 1, tags: None },
        ],
        fulfillments: vec![OnSelectFulfillment {
            id: s("F1"),
            category: FulfillmentCategoryType::StandardDelivery,
            provider_name: Some(s("Seller")),
            tat: s("P1D"),
            servicable_status: ServiceableType::Serviceable,
            tracking: false,
            stops: None,
        }],
        payments: vec![OnSelectPayment { collected_by: NetworkRole::Bpp, payment_type: PaymentType::PrePaid }],
        quote: InboundQuote {
            price_value: s("1200.00"),
            currency: CurrencyType::Inr,
            ttl: s("P1D"),
            breakup: vec![
                i1,
                i2,
                line("I1", BreakupTitleType::Tax, "40"),
                line("I2", BreakupTitleType::Tax, "20"),
                line("I1", BreakupTitleType::Discount, "10"),
                line("I2", BreakupTitleType::Discount, "0"),
            ],
        },
    }
}

fn tag(group: TagGroup, items: &[(TagCode, &str)]) -> Tag {
    Tag { code: group, list: items.iter().map(|(c, v)| TagItem { code: *c, value: s(v) }).collect() }
}

fn on_init() -> OnInitResponse {
    OnInitResponse {
        context: context(ActionType::Init),
        billing: Billing {
            name: s("Acme"),
            address: s("1 MG Road"),
            state: s("Karnataka"),
            city: s("Bengaluru"),
            tax_id: s("29ABCDE1234F1Z5"),
            email: Some(s("a@b.c")),
            phone: s("+91..."),
        },
        tags: vec![tag(
            TagGroup::BppTerms,
            &[
                (TagCode::MaxLiability, "2"),
                (TagCode::MaxLiabilityCap, "10000"),
                (TagCode::MandatoryArbitration, "false"),
                (TagCode::CourtJurisdiction, "Bengaluru"),
                (TagCode::DelayInterest, "1000"),
            ],
        )],
        cancellation_terms: vec![],
        payments: vec![],
    }
}


fn quoted() -> BuyerCommerce {
    apply_quote(None, &on_select(), &select_request(), &user(), &business(), &vec![], &s("Seller"), 9, 5).unwrap()
}

fn seller_location(id: &str, country: &str) -> SellerLocationInfo {
    SellerLocationInfo {
        seller_subscriber_id: s("seller.example"),
        provider_id: s("PRV-A"),
        location_id: s(id),
        gps: s("12.9,77.6"),
        latitude: Coordinate { millionths: 12_900_000 },
        longitude: Coordinate { millionths: 77_600_000 },
        address: s("Warehouse"),
        city_code: s("std:080"),
        city_name: s("Bengaluru"),
        state_code: s("KA"),
        state_name: Some(s("Karnataka")),
        country_code: s(country),
        country_name: None,
        area_code: s("560001"),
    }
}

fn catalog() -> OnSearchCatalog {
    OnSearchCatalog {
        bpp_id: s("seller.example"),
        providers: vec![OnSearchProvider {
            id: s("PRV-A"),
            name: s("Seller"),
            locations: vec![OnSearchLocation {
                id: s("L1"),
                gps: s("12.9,77.6"),
                address: s("Warehouse"),
                city_code: s("std:080"),
                city_name: s("Bengaluru"),
                state_code: s("KA"),
                state_name: None,
                country_code: s("IND"),
                country_name: None,
                area_code: s("560001"),
            }],
            items: vec![
                OnSearchItem {
                    id: s("I1"),
                    code: None,
                    name: s("Rice"),
                    tags: vec![tag(TagGroup::G2, &[(TagCode::TaxRate, "5")])],
                    images: vec![s("https://img/1.png")],
                    currency: CurrencyType::Inr,
                    price_value: s("105.00"),
                    maximum_value: s("120.00"),
                },
                OnSearchItem {
                    id: s("I2"),
                    code: Some(s("C2")),
                    name: s("Dal"),
                    tags: vec![],
                    images: vec![],
                    currency: CurrencyType::Inr,
                    price_value: s("not-a-number"),
                    maximum_value: s("50"),
                },
            ],
        }],
    }
}

fn search_request(t: ProductSearchType) -> ProductSearchRequest {
    ProductSearchRequest {
        transaction_id: 1,
        message_id: 2,
        domain_category_code: s("RET"),
        search_type: t,
        query: s("rice"),
        country_code: s("IND"),
        city_code: s("std:080"),
        fulfillment_type: Some(FulfillmentType::Delivery),
        fulfillment_locations: None,
        payment_type: Some(PaymentType::PrePaid),
    }
}

#[test]
fn search_envelope_is_deterministic() {
    let req = search_request(ProductSearchType::Item);
    let a = get_ondc_search_payload(&user(), &business(), &req, &bap(), 42).unwrap();
    let b = get_ondc_search_payload(&user(), &business(), &req, &bap(), 42).unwrap();
    assert_eq!(format!("{:?}", a), format!("{:?}", b));
    assert_eq!(a.message.intent.item.as_ref().unwrap().name, "rice");
    assert!(a.message.intent.category.is_none());
    assert!(a.message.intent.fulfillment.is_some());
}

#[test]
fn search_by_category_sets_category() {
    let env = get_ondc_search_payload(&user(), &business(), &search_request(ProductSearchType::Category), &bap(), 1).unwrap();
    assert_eq!(env.message.intent.category.as_ref().unwrap().id, "rice");
    assert!(env.message.intent.item.is_none());
    assert_eq!(env.message.intent.payment.as_ref().unwrap().payment_type, PaymentType::PrePaid);
}

#[test]
fn search_without_buyer_id_is_validation_error() {
    let mut b = business();
    b.default_vector_type = VectorType::PanCardNo;
    let r = get_ondc_search_payload(&user(), &b, &search_request(ProductSearchType::City), &bap(), 1);
    assert!(matches!(r, Err(AdapterError::Validation(_))));
}

#[test]
fn quote_breakup_sums_to_grand_total() {
    let mut rec = quoted();
    rec.urn = s("order-1");
    rec.billing = None;
    let total: i64 = rec.items.iter().map(|i| i.gross_total.hundredths).sum::<i64>()
        + rec.fulfillments.iter().map(|f| f.packaging_charge.hundredths + f.delivery_charge.hundredths + f.convenience_fee.hundredths).sum::<i64>();
    assert_eq!(total, rec.grand_total.unwrap().hundredths);
    let q = ondc_buyer::quote::get_quote_from_order(&rec);
    let charges: i64 = q
        .breakup
        .iter()
        .filter(|b| !matches!(b.title_type, BreakupTitleType::Tax | BreakupTitleType::Discount))
        .map(|b| b.price.value.hundredths)
        .sum();
    assert_eq!(charges, q.price.value.hundredths);
    assert_eq!(charges, 120000);
}

#[test]
fn fulfillment_charges_come_from_breakup() {
    let mut resp = on_select();
    resp.quote.breakup.push(line("F1", BreakupTitleType::Packing, "15.50"));
    resp.quote.breakup.push(line("F1", BreakupTitleType::Delivery, "30"));
    resp.quote.breakup.push(line("F1", BreakupTitleType::Misc, "2.25"));
    let rec = apply_quote(None, &resp, &select_request(), &user(), &business(), &vec![], &s("Seller"), 9, 5).unwrap();
    assert_eq!(rec.fulfillments[0].packaging_charge, Amount { hundredths: 1550 });
    assert_eq!(rec.fulfillments[0].delivery_charge, Amount { hundredths: 3000 });
    assert_eq!(rec.fulfillments[0].convenience_fee, Amount { hundredths: 225 });
    assert_eq!(rec.fulfillments[0].fulfillment_type, FulfillmentType::Delivery);
}

#[test]
fn status_runs_forward_and_ignores_stale_callbacks() {
    let events = vec![
        InboundEvent::OnSelect { ok: true },
        InboundEvent::OnInit,
        InboundEvent::OnConfirm,
        InboundEvent::OnStatus { progress: OrderProgress::Accepted },
        InboundEvent::OnStatus { progress: OrderProgress::InProgress },
        InboundEvent::OnStatus { progress: OrderProgress::Completed },
    ];
    assert_eq!(advance_status_all(CommerceStatusType::QuoteRequested, &events), CommerceStatusType::Completed);
    let late = advance_status(CommerceStatusType::Created, InboundEvent::OnInit);
    assert_eq!(late, CommerceStatusType::Created);
    let swapped = vec![InboundEvent::OnConfirm, InboundEvent::OnInit];
    assert_eq!(advance_status_all(CommerceStatusType::QuoteAccepted, &swapped), CommerceStatusType::Initialized);
    assert_eq!(
        advance_status(CommerceStatusType::QuoteRequested, InboundEvent::OnSelect { ok: false }),
        CommerceStatusType::QuoteRejected
    );
    assert_eq!(
        advance_status(CommerceStatusType::Completed, InboundEvent::OnCancel { ok: true }),
        CommerceStatusType::Completed
    );
}

#[test]
fn catalog_ingest_twice_equals_once() {
    let mut once = CatalogStore::new();
    once.ingest(catalog(), &s("IND"));
    let mut twice = CatalogStore::new();
    twice.ingest(catalog(), &s("IND"));
    twice.ingest(catalog(), &s("IND"));
    for item in ["I1", "I2"] {
        let a = once.product_info(&s("seller.example"), &s("IND"), &s("PRV-A"), &s(item)).unwrap();
        let b = twice.product_info(&s("seller.example"), &s("IND"), &s("PRV-A"), &s(item)).unwrap();
        assert_eq!(format!("{:?}", a), format!("{:?}", b));
    }
    assert!(twice.location_info(&s("seller.example"), &s("PRV-A"), &s("L1")).is_some());
    assert_eq!(twice.seller_info(&s("seller.example"), &s("PRV-A")).unwrap().provider_name, "Seller");
}

#[test]
fn catalog_rows_parse_prices_and_default_tax() {
    let mut store = CatalogStore::new();
    store.ingest(catalog(), &s("IND"));
    let rice = store.product_info(&s("seller.example"), &s("IND"), &s("PRV-A"), &s("I1")).unwrap();
    assert_eq!(rice.tax_rate, Amount { hundredths: 500 });
    assert_eq!(rice.unit_price_with_tax, Amount { hundredths: 10500 });
    assert_eq!(rice.unit_price_without_tax, Amount { hundredths: 10000 });
    assert_eq!(rice.mrp, Amount { hundredths: 12000 });
    let dal = store.product_info(&s("seller.example"), &s("IND"), &s("PRV-A"), &s("I2")).unwrap();
    assert_eq!(dal.tax_rate, Amount { hundredths: 0 });
    assert_eq!(dal.unit_price_with_tax, Amount { hundredths: 0 });
    assert!(store.product_info(&s("seller.example"), &s("SGP"), &s("PRV-A"), &s("I1")).is_none());
}

#[test]
fn catalog_later_ingest_overwrites() {
    let mut store = CatalogStore::new();
    store.ingest(catalog(), &s("IND"));
    let mut c = catalog();
    c.providers[0].name = s("Renamed");
    c.providers[0].items[0].price_value = s("210.00");
    store.ingest(c, &s("IND"));
    assert_eq!(store.seller_info(&s("seller.example"), &s("PRV-A")).unwrap().provider_name, "Renamed");
    let rice = store.product_info(&s("seller.example"), &s("IND"), &s("PRV-A"), &s("I1")).unwrap();
    assert_eq!(rice.unit_price_with_tax, Amount { hundredths: 21000 });
}

#[test]
fn empty_catalog_is_no_op() {
    let mut store = CatalogStore::new();
    store.ingest(OnSearchCatalog { bpp_id: s("seller.example"), providers: vec![] }, &s("IND"));
    assert!(store.seller_info(&s("seller.example"), &s("PRV-A")).is_none());
    assert_eq!(plan_on_search(&Some(OnSearchCatalog { bpp_id: s("x"), providers: vec![] }), false).ingest, false);
    let plan = plan_on_search(&Some(catalog()), true);
    assert!(plan.ingest && !plan.notify);
}

#[test]
fn location_closure_fails_fast() {
    let req = select_request();
    let known = vec![seller_location("L1", "IND")];
    assert!(matches!(check_location_closure(&req.items, &req.fulfillments, &known), Err(AdapterError::Validation(_))));
    let all = vec![seller_location("L1", "IND"), seller_location("L2", "IND")];
    assert!(check_location_closure(&req.items, &req.fulfillments, &all).is_ok());
    let mut via_fulfillment = req.clone();
    via_fulfillment.items[1].location_ids = vec![s("F1")];
    assert!(check_location_closure(&via_fulfillment.items, &via_fulfillment.fulfillments, &known).is_ok());
}

#[test]
fn participant_cache_cold_then_warm() {
    let mut dir = ParticipantDirectory::new();
    assert!(dir.lookup_local(&s("seller.example"), NetworkRole::Bpp, &s("RET")).is_none());
    let fetched = dir.complete_lookup(Some(bpp())).unwrap();
    let warm = dir.lookup_local(&s("seller.example"), NetworkRole::Bpp, &s("RET")).unwrap();
    assert_eq!(format!("{:?}", fetched), format!("{:?}", warm));
    let mut other = bpp();
    other.subscriber_uri = s("https://elsewhere");
    dir.complete_lookup(Some(other));
    let still = dir.lookup_local(&s("seller.example"), NetworkRole::Bpp, &s("RET")).unwrap();
    assert_eq!(still.subscriber_uri, "https://seller.example/ondc");
    assert!(dir.lookup_local(&s("seller.example"), NetworkRole::Bap, &s("RET")).is_none());
    assert!(dir.complete_lookup(None).is_none());
}

#[test]
fn select_envelope_dedups_locations() {
    let req = select_request();
    let locs = vec![seller_location("L1", "IND"), seller_location("L2", "IND")];
    let env = get_ondc_select_payload(&business(), &req, &bap(), &bpp(), &locs, 3).unwrap();
    assert_eq!(env.order.provider.location_ids, vec![s("L1"), s("L2")]);
    assert_eq!(env.order.items[0].quantity, 2);
    assert!(env.order.items[0].tags.is_none());
    let f = &env.order.fulfillments[0];
    assert_eq!(f.stops.as_ref().unwrap().len(), 1);
    assert!(f.customer.is_none() && f.tags.is_none());
    assert_eq!(env.context.bpp_id.as_deref(), Some("seller.example"));
    assert_eq!(env.context.action, ActionType::Select);
}

#[test]
fn select_import_adds_terms_and_customer() {
    let mut req = select_request();
    req.fulfillments[0].delivery_terms = Some(OrderDeliveyTerm { inco_terms: IncoTermType::Cif, place_of_delivery: s("Chennai") });
    let mut b = business();
    b.proofs = vec![KycProof { proof_type: VectorType::ImportLicenseNo, kyc_id: s("IEC1"), urls: vec![s("https://doc")] }];
    let locs = vec![seller_location("L1", "SGP"), seller_location("L2", "SGP")];
    let env = get_ondc_select_payload(&b, &req, &bap(), &bpp(), &locs, 3).unwrap();
    let f = &env.order.fulfillments[0];
    let tags = f.tags.as_ref().unwrap();
    assert_eq!(tags[0].list[0].value, "CIF");
    assert_eq!(tags[0].list[1].value, "Chennai");
    let creds = f.customer.as_ref().unwrap().creds.as_ref().unwrap();
    assert_eq!(creds[0].id, "IEC1");
}

#[test]
fn select_errors_are_validation() {
    let locs = vec![seller_location("L1", "IND"), seller_location("L2", "IND")];
    let mut no_f = select_request();
    no_f.fulfillments.clear();
    assert!(matches!(get_ondc_select_payload(&business(), &no_f, &bap(), &bpp(), &locs, 3), Err(AdapterError::Validation(_))));
    assert!(matches!(get_ondc_select_payload(&business(), &select_request(), &bap(), &bpp(), &vec![], 3), Err(AdapterError::Validation(_))));
}

#[test]
fn purchase_order_lines_carry_buyer_terms() {
    let mut req = select_request();
    req.order_type = OrderType::PurchaseOrder;
    req.ttl = s("P7D");
    req.items[0].buyer_term = Some(ondc_buyer::schemas::BuyerTerms { item_req: s("fresh"), packaging_req: s("box") });
    let locs = vec![seller_location("L1", "IND"), seller_location("L2", "IND")];
    let env = get_ondc_select_payload(&business(), &req, &bap(), &bpp(), &locs, 3).unwrap();
    let t = &env.order.items[0].tags.as_ref().unwrap()[0];
    assert_eq!(t.list[0].value, "fresh");
    assert_eq!(t.list[1].value, "box");
    assert_eq!(env.context.ttl, "P7D");
    let rec = apply_quote(None, &on_select(), &req, &user(), &business(), &vec![], &s("Seller"), 9, 5).unwrap();
    assert_eq!(rec.record_type, OrderType::PurchaseOrder);
}

#[test]
fn quote_with_error_is_rejected() {
    let mut resp = on_select();
    resp.error = Some(ondc_buyer::protocol::ProtocolError { message: s("out of stock"), path: None });
    let rec = apply_quote(None, &resp, &select_request(), &user(), &business(), &vec![], &s("Seller"), 9, 5).unwrap();
    assert_eq!(rec.record_status, CommerceStatusType::QuoteRejected);
}

#[test]
fn on_init_ignored_unless_quote_accepted() {
    let mut rec = quoted();
    rec.record_status = CommerceStatusType::Created;
    assert_eq!(apply_on_init(&mut rec, &on_init()).unwrap(), false);
    assert!(rec.billing.is_none());
    assert_eq!(rec.record_status, CommerceStatusType::Created);
}

#[test]
fn confirm_requires_billing_and_terms() {
    let rec = quoted();
    let ids = OrderRequestIds { transaction_id: 100, message_id: 1 };
    assert!(matches!(get_ondc_confirm_payload(&business(), &rec, &ids, &bap(), 1), Err(AdapterError::Validation(_))));
    let mut with_billing = quoted();
    assert_eq!(apply_on_init(&mut with_billing, &on_init()).unwrap(), true);
    with_billing.cancellation_terms = None;
    assert!(matches!(get_ondc_confirm_payload(&business(), &with_billing, &ids, &bap(), 1), Err(AdapterError::Validation(_))));
}

#[test]
fn confirm_payment_settlement_for_buyer_collected() {
    let mut rec = quoted();
    assert_eq!(apply_on_init(&mut rec, &on_init()).unwrap(), true);
    let mut p = ondc_buyer::commerce::payment_of_type(PaymentType::PrePaid);
    p.collected_by = Some(NetworkRole::Bap);
    rec.payments = vec![p];
    let env = get_ondc_confirm_payload(&business(), &rec, &OrderRequestIds { transaction_id: 100, message_id: 1 }, &bap(), 1).unwrap();
    let pay = &env.order.payments[0];
    assert_eq!(pay.settlement_details.len(), 1);
    assert_eq!(pay.settlement_details[0].bank_account_no, "000111");
    assert_eq!(pay.buyer_fee_amount, Amount { hundredths: 0 });
    assert_eq!(pay.settlement_window, "P1D");
    assert_eq!(pay.amount, Amount { hundredths: 120000 });
}

#[test]
fn init_envelope_uses_request_billing() {
    let rec = quoted();
    let req = OrderInitRequest {
        transaction_id: 100,
        message_id: 8,
        billing: OrderInitBilling {
            name: s("Acme"),
            address: s("1 MG Road"),
            tax_id: s("29ABCDE1234F1Z5"),
            mobile_no: s("+91"),
            email: s("a@b.c"),
            city: City { code: s("std:080"), name: s("Bengaluru") },
            state: s("Karnataka"),
        },
    };
    let env = get_ondc_init_payload(&business(), &rec, &req, 2).unwrap();
    assert_eq!(env.order.billing.city, "Bengaluru");
    assert_eq!(env.order.billing.email.as_deref(), Some("a@b.c"));
    assert_eq!(env.order.payments[0].collected_by, NetworkRole::Bpp);
    assert_eq!(env.context.action, ActionType::Init);
    assert_eq!(env.order.provider_location_ids, vec![s("L1"), s("L2")]);
}

#[test]
fn status_and_update_envelopes() {
    let mut rec = quoted();
    rec.urn = s("order-9");
    let st = get_ondc_status_payload(&rec, &OrderRequestIds { transaction_id: 100, message_id: 3 }, 4);
    assert_eq!(st.order_id, "order-9");
    assert_eq!(st.context.action, ActionType::Status);
    let up = get_ondc_update_payload(&rec, &OrderUpdateRequest::UpdatePayment { transaction_id: 100, message_id: 5 }, &bap(), 4).unwrap();
    assert_eq!(up.items[0].quantity, 2);
    assert_eq!(up.payments.len(), 1);
    let item = get_ondc_update_payload(&rec, &OrderUpdateRequest::UpdateItem { transaction_id: 100, message_id: 5 }, &bap(), 4);
    assert!(matches!(item, Err(AdapterError::NotImplemented(_))));
    let ful = get_ondc_update_payload(&rec, &OrderUpdateRequest::UpdateFulfillment { transaction_id: 100, message_id: 5 }, &bap(), 4);
    assert!(matches!(ful, Err(AdapterError::NotImplemented(_))));
}

#[test]
fn amounts_parse_as_hundredths() {
    assert_eq!(parse_amount("1200.00"), Some(Amount { hundredths: 120000 }));
    assert_eq!(parse_amount("12.345"), Some(Amount { hundredths: 1234 }));
    assert_eq!(parse_amount("-1.5"), Some(Amount { hundredths: -150 }));
    assert_eq!(parse_amount("7"), Some(Amount { hundredths: 700 }));
    assert_eq!(parse_amount("1e3"), None);
    assert_eq!(parse_amount("abc"), None);
    assert_eq!(parse_amount(""), None);
    assert_eq!(parse_amount("99999999999999999999"), None);
    assert_eq!(parse_amount_or_zero("x"), Amount { hundredths: 0 });
}

#[test]
fn quantities_truncate_to_whole_units() {
    assert_eq!(whole_units(Amount { hundredths: 250 }), 2);
    assert_eq!(whole_units(Amount { hundredths: -250 }), -2);
    assert_eq!(whole_units(Amount { hundredths: 99 }), 0);
    assert_eq!(whole_units(Amount { hundredths: i64::MAX }), 0);
}

#[test]
fn mapping_keys_join_with_underscore() {
    assert_eq!(get_ondc_seller_product_mapping_key(&s("b"), &s("p"), &s("i")), "b_p_i");
    assert_eq!(get_ondc_seller_location_mapping_key(&s("bpp"), &s("PRV-A"), &s("L1")), "bpp_PRV-A_L1");
}

#[test]
fn tag_lookups() {
    let tags = vec![
        tag(TagGroup::BppTerms, &[(TagCode::MaxLiability, "2")]),
        tag(TagGroup::BppTerms, &[(TagCode::DelayInterest, "9")]),
    ];
    assert_eq!(get_tag_value_from_list(&tags, TagGroup::BppTerms, TagCode::DelayInterest).as_deref(), Some("9"));
    assert_eq!(get_search_tag_item_value(&tags, TagGroup::BppTerms, TagCode::DelayInterest), None);
    assert_eq!(get_search_tag_item_value(&tags, TagGroup::BppTerms, TagCode::MaxLiability).as_deref(), Some("2"));
    assert_eq!(get_tag_value_from_list(&tags, TagGroup::G2, TagCode::TaxRate), None);
}

#[test]
fn request_headers_and_user_checks() {
    let ok = validate_request_headers(&Some(s("r")), &Some(s("d")), &Some(s("h"))).unwrap();
    assert_eq!(ok.device_id, "d");
    match validate_request_headers(&None, &None, &Some(s("h"))) {
        Err(AdapterError::Validation(m)) => assert_eq!(m, "x-request-id is missing"),
        other => panic!("{:?}", other),
    }
    match validate_request_headers(&Some(s("r")), &None, &Some(s("h"))) {
        Err(AdapterError::Validation(m)) => assert_eq!(m, "x-device-id is missing"),
        other => panic!("{:?}", other),
    }
    assert!(check_user_status(true, false).is_ok());
    assert!(check_user_status(false, false).is_err());
    assert!(check_user_status(true, true).is_err());
    assert_eq!(resolve_device_id(&None, &Some(s("dev"))).as_deref(), Some("dev"));
    assert_eq!(resolve_device_id(&Some(s("in")), &Some(s("dev"))).as_deref(), Some("in"));
}

#[test]
fn retries_are_bounded() {
    assert_eq!(next_attempt(1, true), RetryDecision::Retry { attempt: 2, delay_ms: 500 });
    assert_eq!(next_attempt(2, true), RetryDecision::Retry { attempt: 3, delay_ms: 1000 });
    assert_eq!(next_attempt(3, true), RetryDecision::GiveUp);
    assert_eq!(next_attempt(1, false), RetryDecision::GiveUp);
}

#[test]
fn bulk_seller_rows_one_per_provider() {
    let bulk = create_bulk_seller_info_objs(&catalog());
    assert_eq!(bulk.seller_subscriber_ids, vec![s("seller.example")]);
    assert_eq!(bulk.provider_ids, vec![s("PRV-A")]);
    assert_eq!(bulk.provider_names, vec![s("Seller")]);
}

#[test]
fn price_slabs_read_from_tags() {
    let mut c = catalog();
    c.providers[0].items[0].tags.push(tag(
        TagGroup::PriceSlab,
        &[(TagCode::MinPackSize, "10"), (TagCode::MaxPackSize, ""), (TagCode::UnitSalePrice, "210")],
    ));
    c.providers[0].items[0].tags.push(tag(TagGroup::PriceSlab, &[(TagCode::MaxPackSize, "50")]));
    let mut store = CatalogStore::new();
    store.ingest(c, &s("IND"));
    let rice = store.product_info(&s("seller.example"), &s("IND"), &s("PRV-A"), &s("I1")).unwrap();
    let slabs = rice.price_slabs.as_ref().unwrap();
    assert_eq!(slabs.len(), 2);
    assert_eq!(slabs[0].min, Amount { hundredths: 1000 });
    assert_eq!(slabs[0].max, None);
    assert_eq!(slabs[0].price_with_tax, Amount { hundredths: 21000 });
    assert_eq!(slabs[0].price_without_tax, Amount { hundredths: 20000 });
    assert_eq!(slabs[1].min, Amount { hundredths: 0 });
    assert_eq!(slabs[1].max, Some(Amount { hundredths: 5000 }));
    let dal = store.product_info(&s("seller.example"), &s("IND"), &s("PRV-A"), &s("I2")).unwrap();
    assert!(dal.price_slabs.is_none());
}

#[test]
fn batch_lookups_follow_requested_order() {
    let mut store = CatalogStore::new();
    store.ingest(catalog(), &s("IND"));
    let rows = store.item_rows(&s("seller.example"), &s("PRV-A"), &vec![s("I2"), s("missing"), s("I1")], &s("IND"));
    let ids: Vec<&str> = rows.iter().map(|r| r.item_id.as_str()).collect();
    assert_eq!(ids, vec!["I2", "I1"]);
    let locs = store.location_rows(&s("seller.example"), &s("PRV-A"), &vec![s("L9"), s("L1")]);
    assert_eq!(locs.len(), 1);
    assert_eq!(locs[0].location_id, "L1");
    let draft = draft_select(&select_request(), &user(), &business(), &bap(), &bpp(), &rows, &s("Seller"), 1, 2);
    assert_eq!(draft.items[0].item_name, "Rice");
    assert_eq!(draft.items[0].unit_price, Amount { hundredths: 10500 });
    assert_eq!(draft.items[0].tax_rate, Amount { hundredths: 500 });
    assert_eq!(draft.items[0].item_image, "https://img/1.png");
    assert_eq!(draft.items[1].mrp, Amount { hundredths: 5000 });
}

#[test]
fn notification_addressing() {
    let p = get_websocket_params_from_search_req(SearchRequestModel {
        transaction_id: 1,
        user_id: 2,
        business_id: 3,
        device_id: s("dev"),
        update_cache: false,
    });
    assert_eq!((p.user_id, p.business_id, p.device_id.as_deref()), (Some(2), 3, Some("dev")));
    let q = get_ondc_order_param_from_req(&ONDCRequestModel {
        transaction_id: 1,
        message_id: 2,
        user_id: Some(4),
        business_id: 5,
        device_id: Some(s("d2")),
    });
    assert_eq!((q.user_id, q.business_id, q.device_id.as_deref()), (Some(4), 5, Some("d2")));
    let r = get_ondc_order_param_from_commerce(&quoted());
    assert_eq!((r.user_id, r.business_id, r.device_id), (None, 7, None));
}

#[test]
fn provider_notification_keeps_only_videos() {
    let d = ProviderDescriptor {
        name: s("Seller"),
        code: Some(s("SC")),
        short_desc: None,
        long_desc: Some(s("long")),
        images: vec![s("https://img/logo.png")],
        additional_desc: vec![
            AdditionalDescription { url: s("https://v/1.mp4"), content_type: ContentType::Mp4 },
            AdditionalDescription { url: s("https://doc.pdf"), content_type: ContentType::Other },
            AdditionalDescription { url: s("https://v/2.mp4"), content_type: ContentType::Mp4 },
        ],
    };
    let p = ws_search_provider_from_ondc_provider(&s("PRV-A"), &Some(s("4.5")), &d);
    assert_eq!(p.videos, vec![s("https://v/1.mp4"), s("https://v/2.mp4")]);
    assert_eq!(p.images, vec![s("https://img/logo.png")]);
    assert_eq!(p.rating.as_deref(), Some("4.5"));
    assert_eq!(p.code.as_deref(), Some("SC"));
}

#[test]
fn drop_off_from_select_envelope() {
    let locs = vec![seller_location("L1", "IND"), seller_location("L2", "IND")];
    let env = get_ondc_select_payload(&business(), &select_request(), &bap(), &bpp(), &locs, 3).unwrap();
    let d = create_drop_off_from_ondc_select_fulfullment(&env.order.fulfillments).unwrap();
    assert_eq!(d.location.gps, "12.9,77.6");
    assert_eq!(d.location.city, "Bengaluru");
    assert_eq!(d.contact.mobile_no, "+919999999999");
    assert!(create_drop_off_from_ondc_select_fulfullment(&vec![]).is_none());
}

#[test]
fn stored_terms_need_both_columns() {
    let t = ondc_buyer::commerce::buyer_term_from_columns(Some(s("fresh")), Some(s("box"))).unwrap();
    assert_eq!((t.item_req.as_str(), t.packaging_req.as_str()), ("fresh", "box"));
    assert!(ondc_buyer::commerce::buyer_term_from_columns(Some(s("fresh")), None).is_none());
    let d = ondc_buyer::commerce::delivery_term_from_columns(Some(IncoTermType::Fob), Some(s("Chennai"))).unwrap();
    assert_eq!(d.inco_terms, IncoTermType::Fob);
    assert_eq!(d.place_of_delivery, "Chennai");
    assert!(ondc_buyer::commerce::delivery_term_from_columns(None, Some(s("Chennai"))).is_none());
}

fn init_payment(fee: &str, withholding: &str) -> OnInitPayment {
    OnInitPayment {
        collected_by: NetworkRole::Bpp,
        payment_type: PaymentType::PrePaid,
        buyer_fee_type: FeeType::Percent,
        buyer_fee_amount: s(fee),
        settlement_window: s("P2D"),
        withholding_amount: s(withholding),
        uri: None,
        settlement_basis: SettlementBasis::Delivery,
        tags: None,
        settlement_details: None,
    }
}

#[test]
fn late_quote_response_is_ignored() {
    for prior in [
        CommerceStatusType::Initialized,
        CommerceStatusType::Created,
        CommerceStatusType::Cancelled,
        CommerceStatusType::QuoteAccepted,
    ] {
        let r = apply_quote(Some(prior), &on_select(), &select_request(), &user(), &business(), &vec![], &s("Seller"), 9, 5);
        assert!(r.is_none());
    }
    let r = apply_quote(Some(CommerceStatusType::QuoteRequested), &on_select(), &select_request(), &user(), &business(), &vec![], &s("Seller"), 9, 5);
    assert_eq!(r.unwrap().record_status, CommerceStatusType::QuoteAccepted);
}

#[test]
fn on_init_reads_fee_amounts() {
    let mut rec = quoted();
    let mut init = on_init();
    init.payments = vec![init_payment("3.5", "0")];
    assert_eq!(apply_on_init(&mut rec, &init).unwrap(), true);
    assert_eq!(rec.payments[0].buyer_fee_amount, Some(Amount { hundredths: 350 }));
    assert_eq!(rec.payments[0].withholding_amount, Some(Amount { hundredths: 0 }));
    let env = get_ondc_confirm_payload(&business(), &{ rec.urn = s("o"); rec }, &OrderRequestIds { transaction_id: 100, message_id: 1 }, &bap(), 1).unwrap();
    assert_eq!(env.order.payments[0].buyer_fee_amount, Amount { hundredths: 350 });
}

#[test]
fn on_init_with_unreadable_fee_fails() {
    let mut rec = quoted();
    let mut init = on_init();
    init.payments = vec![init_payment("3.5", "0"), init_payment("three", "0")];
    assert!(matches!(apply_on_init(&mut rec, &init), Err(AdapterError::Validation(_))));
    assert_eq!(rec.record_status, CommerceStatusType::QuoteAccepted);
    assert!(rec.billing.is_none());
    init.payments = vec![init_payment("1", "x")];
    assert!(matches!(apply_on_init(&mut rec, &init), Err(AdapterError::Validation(_))));
}

#[test]
fn location_rows_carry_coordinates() {
    let mut c = catalog();
    c.providers[0].locations.push(OnSearchLocation {
        id: s("L2"),
        gps: s("13.0827"),
        address: s("Depot"),
        city_code: s("std:044"),
        city_name: s("Chennai"),
        state_code: s("TN"),
        state_name: None,
        country_code: s("IND"),
        country_name: None,
        area_code: s("600001"),
    });
    let rows = create_bulk_seller_location_info_objs(&c);
    assert_eq!(rows.len(), 2);
    assert_eq!(rows[0].latitude, Coordinate { millionths: 12_900_000 });
    assert_eq!(rows[0].longitude, Coordinate { millionths: 77_600_000 });
    assert_eq!(rows[1].latitude, Coordinate { millionths: 13_082_700 });
    assert_eq!(rows[1].longitude, Coordinate { millionths: 0 });
    let mut store = CatalogStore::new();
    store.ingest(c, &s("IND"));
    let l1 = store.location_info(&s("seller.example"), &s("PRV-A"), &s("L1")).unwrap();
    assert_eq!(l1.longitude, Coordinate { millionths: 77_600_000 });
}

#[test]
fn validation_texts() {
    let rec = quoted();
    match get_ondc_confirm_payload(&business(), &rec, &OrderRequestIds { transaction_id: 100, message_id: 1 }, &bap(), 1) {
        Err(AdapterError::Validation(m)) => assert_eq!(m, "Billing Address not found"),
        other => panic!("{:?}", other),
    }
    match get_ondc_select_payload(&business(), &select_request(), &bap(), &bpp(), &vec![], 3) {
        Err(AdapterError::Validation(m)) => assert_eq!(m, "Location mapping is Invalid"),
        other => panic!("{:?}", other),
    }
}
