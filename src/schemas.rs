use crate::amount::Amount;
use crate::status::CommerceStatusType;
use vstd::prelude::*;

verus! {

/// The buyer's requirements attached to a line of a purchase order.
#[derive(Clone, Debug)]
pub struct BuyerTerms {
    pub item_req: String,
    pub packaging_req: String,
}

/// One line of a select request.
#[derive(Clone, Debug)]
pub struct OrderSelectItem {
    pub item_id: String,
    pub location_ids: Vec<String>,
    pub qty: i32,
    pub buyer_term: Option<BuyerTerms>,
    pub fulfillment_ids: Vec<String>,
}

#[derive(Clone, Debug)]
pub struct Country {
    pub code: String,
    pub name: String,
}

#[derive(Clone, Debug)]
pub struct City {
    pub code: String,
    pub name: String,
}

/// Where the buyer wants a fulfillment delivered.
#[derive(Clone, Debug)]
pub struct FulfillmentLocation {
    pub gps: String,
    pub area_code: String,
    pub address: String,
    pub city: City,
    pub country: Country,
    pub state: String,
    pub contact_mobile_no: String,
}

/// Incoterms of an import delivery.
#[derive(Clone, Copy, Debug, PartialEq, Eq, Structural)]
pub enum IncoTermType {
    Exw,
    Cif,
    Fob,
    Dap,
    Ddp,
}

#[derive(Clone, Debug)]
pub struct OrderDeliveyTerm {
    pub inco_terms: IncoTermType,
    pub place_of_delivery: String,
}

#[derive(Clone, Copy, Debug, PartialEq, Eq, Structural)]
pub enum FulfillmentType {
    Delivery,
    SelfPickup,
}

/// One fulfillment of a select request.
#[derive(Clone, Debug)]
pub struct OrderSelectFulfillment {
    pub id: String,
    pub fulfillment_type: FulfillmentType,
    pub location: FulfillmentLocation,
    pub delivery_terms: Option<OrderDeliveyTerm>,
}

#[derive(Clone, Copy, Debug, PartialEq, Eq, Structural)]
pub enum OrderType {
    PurchaseOrder,
    SaleOrder,
}

#[derive(Clone, Copy, Debug, PartialEq, Eq, Structural)]
pub enum ServiceableType {
    NonServiceable,
    Serviceable,
}

#[derive(Clone, Copy, Debug, PartialEq, Eq, Structural)]
pub enum FulfillmentCategoryType {
    StandardDelivery,
    ExpressDelivery,
    SelfPickup,
}

#[derive(Clone, Copy, Debug, PartialEq, Eq, Structural)]
pub enum PaymentType {
    PrePaid,
    CashOnDelivery,
    Credit,
}

/// The two roles of the network: buyer platform and seller platform.
#[derive(Clone, Copy, Debug, PartialEq, Eq, Structural)]
pub enum NetworkRole {
    Bap,
    Bpp,
}

#[derive(Clone, Copy, Debug, PartialEq, Eq, Structural)]
pub enum FeeType {
    Percent,
    Amount,
}

#[derive(Clone, Copy, Debug, PartialEq, Eq, Structural)]
pub enum CurrencyType {
    Inr,
    Sgd,
    Aed,
    Usd,
    Gbp,
    Eur,
}

#[derive(Clone, Copy, Debug, PartialEq, Eq, Structural)]
pub enum TradeType {
    Import,
    Domestic,
}

#[derive(Clone, Copy, Debug, PartialEq, Eq, Structural)]
pub enum SettlementBasis {
    ReturnWindowExpiry,
    Shipment,
    Delivery,
}

/// A select request as the buyer sends it.
#[derive(Clone, Debug)]
pub struct OrderSelectRequest {
    pub transaction_id: u128,
    pub message_id: u128,
    pub domain_category_code: String,
    pub payment_types: Vec<PaymentType>,
    pub provider_id: String,
    pub items: Vec<OrderSelectItem>,
    pub ttl: String,
    pub fulfillments: Vec<OrderSelectFulfillment>,
    pub order_type: OrderType,
    pub bpp_id: String,
    pub is_import: bool,
}

/// A payment option of a record: who collects it, and how it is paid.
#[derive(Clone, Debug)]
pub struct Payment {
    pub collected_by: Option<NetworkRole>,
    pub payment_type: PaymentType,
}

#[derive(Clone, Debug)]
pub struct DropOffLocation {
    pub gps: String,
    pub area_code: String,
    pub address: Option<String>,
    pub city: String,
    pub country: String,
    pub state: String,
}

#[derive(Clone, Debug)]
pub struct DropOffContact {
    pub mobile_no: String,
    pub email: Option<String>,
}

#[derive(Clone, Debug)]
pub struct DropOffData {
    pub location: DropOffLocation,
    pub contact: DropOffContact,
}

#[derive(Clone, Debug)]
pub struct PickUpData {
    pub location: DropOffLocation,
    pub contact: DropOffContact,
}

/// The billing block of an init request.
#[derive(Clone, Debug)]
pub struct OrderInitBilling {
    pub name: String,
    pub address: String,
    pub tax_id: String,
    pub mobile_no: String,
    pub email: String,
    pub city: City,
    pub state: String,
}

#[derive(Clone, Debug)]
pub struct BuyerCommerceSeller {
    pub id: String,
    pub name: String,
}

/// A routing pair of a participant: its subscriber id and callback uri.
#[derive(Clone, Debug)]
pub struct BasicNetWorkData {
    pub id: String,
    pub uri: String,
}

/// Settlement data of a payment, either the seller's or the buyer platform's.
#[derive(Clone, Debug)]
pub struct SettlementDetail {
    pub counterparty: NetworkRole,
    pub phase: String,
    pub settlement_type: String,
    pub bank_account_no: String,
    pub ifsc: String,
    pub beneficiary: String,
    pub bank_name: String,
}

#[derive(Clone, Debug)]
pub struct BuyerCommercePayment {
    pub collected_by: Option<NetworkRole>,
    pub payment_type: PaymentType,
    pub payment_id: Option<String>,
    pub buyer_fee_type: Option<FeeType>,
    pub buyer_fee_amount: Option<Amount>,
    pub settlement_window: Option<String>,
    pub withholding_amount: Option<Amount>,
    pub seller_payment_uri: Option<String>,
    pub settlement_basis: Option<SettlementBasis>,
    pub settlement_details: Option<Vec<SettlementDetail>>,
    pub seller_payment_ttl: Option<String>,
    pub seller_payment_dsa: Option<String>,
    pub seller_payment_signature: Option<String>,
}

#[derive(Clone, Copy, Debug, PartialEq, Eq, Structural)]
pub enum CommerceFulfillmentStatusType {
    AgentAssigned,
    Packed,
    OutForDelivery,
    OrderPickedUp,
    SearchingForAgent,
    Pending,
    OrderDelivered,
    Cancelled,
}

#[derive(Clone, Debug)]
pub struct DeliveryTerm {
    pub inco_terms: IncoTermType,
    pub place_of_delivery: String,
}

/// A fulfillment of a commerce record, with the charges that the seller quoted for it.
#[derive(Clone, Debug)]
pub struct BuyerCommerceFulfillment {
    pub fulfillment_id: String,
    pub fulfillment_type: FulfillmentType,
    pub tat: Option<String>,
    pub fulfillment_status: CommerceFulfillmentStatusType,
    pub delivery_term: Option<DeliveryTerm>,
    pub trade_type: Option<TradeType>,
    pub provider_name: Option<String>,
    pub category: Option<FulfillmentCategoryType>,
    pub servicable_status: Option<ServiceableType>,
    pub drop_off: Option<DropOffData>,
    pub pickup: Option<PickUpData>,
    pub tracking: Option<bool>,
    pub packaging_charge: Amount,
    pub delivery_charge: Amount,
    pub convenience_fee: Amount,
}

#[derive(Clone, Debug)]
pub struct BuyerTerm {
    pub item_req: String,
    pub packaging_req: String,
}

/// A line of a commerce record.
#[derive(Clone, Debug)]
pub struct BuyerCommerceItem {
    pub item_id: String,
    pub item_name: String,
    pub item_code: Option<String>,
    pub item_image: String,
    pub qty: Amount,
    pub buyer_terms: Option<BuyerTerm>,
    pub tax_rate: Amount,
    pub tax_value: Amount,
    pub unit_price: Amount,
    pub mrp: Amount,
    pub gross_total: Amount,
    pub available_qty: Amount,
    pub discount_amount: Amount,
    pub location_ids: Vec<String>,
    pub fulfillment_ids: Vec<String>,
}

/// The billing block stored on a record.
#[derive(Clone, Debug)]
pub struct CommerceBilling {
    pub name: String,
    pub address: String,
    pub state: String,
    pub city: String,
    pub tax_id: String,
    pub email: Option<String>,
    pub phone: String,
}

/// The seller's terms, taken from the tags of its init response.
#[derive(Clone, Debug)]
pub struct BppTerms {
    pub max_liability: String,
    pub max_liability_cap: String,
    pub mandatory_arbitration: bool,
    pub court_jurisdiction: String,
    pub delay_interest: String,
}

#[derive(Clone, Copy, Debug, PartialEq, Eq, Structural)]
pub enum CancellationFeeType {
    Percent,
    Amount,
}

#[derive(Clone, Debug)]
pub struct CommerceCancellationFee {
    pub fee_type: CancellationFeeType,
    pub val: String,
}

/// The fulfillment state from which a cancellation term applies.
#[derive(Clone, Copy, Debug, PartialEq, Eq, Structural)]
pub enum FulfillmentState {
    Pending,
    Packed,
    AgentAssigned,
    OutForDelivery,
    OrderPickedUp,
}

#[derive(Clone, Debug)]
pub struct CommerceCancellationTerm {
    pub fulfillment_state: FulfillmentState,
    pub reason_required: bool,
    pub cancellation_fee: CommerceCancellationFee,
}

/// The commerce aggregate, keyed by `external_urn` (the protocol's transaction id).
#[derive(Clone, Debug)]
pub struct BuyerCommerce {
    pub id: u128,
    pub urn: String,
    pub external_urn: u128,
    pub record_type: OrderType,
    pub record_status: CommerceStatusType,
    pub domain_category_code: String,
    pub buyer_id: u128,
    pub buyer_name: String,
    pub seller: BuyerCommerceSeller,
    pub created_on: i64,
    pub updated_on: Option<i64>,
    pub created_by: u128,
    pub grand_total: Option<Amount>,
    pub currency_type: Option<CurrencyType>,
    pub bap: BasicNetWorkData,
    pub bpp: BasicNetWorkData,
    pub is_import: bool,
    pub quote_ttl: String,
    pub city_code: String,
    pub country_code: String,
    pub billing: Option<CommerceBilling>,
    pub bpp_terms: Option<BppTerms>,
    pub cancellation_terms: Option<Vec<CommerceCancellationTerm>>,
    pub items: Vec<BuyerCommerceItem>,
    pub payments: Vec<BuyerCommercePayment>,
    pub fulfillments: Vec<BuyerCommerceFulfillment>,
}

} // verus!
