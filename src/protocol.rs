use crate::amount::Amount;
use crate::schemas::{CurrencyType, FeeType, FulfillmentType, NetworkRole, PaymentType};
use crate::tags::Tag;
use vstd::prelude::*;

verus! {

/// The protocol's time to live when a request sets none.
pub open spec fn default_ttl() -> Seq<char> {
    "PT30S"@
}

pub fn default_ttl_string() -> (r: String)
    ensures
        r@ == default_ttl(),
{
    proof {
        reveal_strlit("PT30S");
    }
    String::from_str("PT30S")
}

#[derive(Clone, Copy, Debug, PartialEq, Eq, Structural)]
pub enum ActionType {
    Search,
    Select,
    Init,
    Confirm,
    Status,
    Cancel,
    Update,
}

#[derive(Clone, Copy, Debug, PartialEq, Eq, Structural)]
pub enum ProtocolVersion {
    V2point2,
}

/// The fixed-shape context of every envelope.
#[derive(Clone, Debug)]
pub struct Context {
    pub domain: String,
    pub city_code: String,
    pub country_code: String,
    pub action: ActionType,
    pub version: ProtocolVersion,
    pub transaction_id: u128,
    pub message_id: u128,
    pub bap_id: String,
    pub bap_uri: String,
    pub bpp_id: Option<String>,
    pub bpp_uri: Option<String>,
    /// Milliseconds since the Unix epoch, UTC.
    pub timestamp_ms: i64,
    pub ttl: String,
}

#[derive(Clone, Copy, Debug, PartialEq, Eq, Structural)]
pub enum StopType {
    Start,
    End,
}

/// A stop of a search intent's fulfillment.
#[derive(Clone, Debug)]
pub struct SearchStop {
    pub stop_type: StopType,
    pub gps: String,
    pub area_code: String,
}

#[derive(Clone, Debug)]
pub struct SearchFulfillment {
    pub fulfillment_type: FulfillmentType,
    pub stops: Option<Vec<SearchStop>>,
}

#[derive(Clone, Debug)]
pub struct SearchPayment {
    pub payment_type: PaymentType,
}

#[derive(Clone, Debug)]
pub struct SearchItem {
    pub name: String,
}

#[derive(Clone, Debug)]
pub struct SearchCategory {
    pub id: String,
}

#[derive(Clone, Debug)]
pub struct SearchIntent {
    pub fulfillment: Option<SearchFulfillment>,
    pub tags: Vec<Tag>,
    pub payment: Option<SearchPayment>,
    pub item: Option<SearchItem>,
    pub category: Option<SearchCategory>,
}

#[derive(Clone, Debug)]
pub struct SearchMessage {
    pub intent: SearchIntent,
}

#[derive(Clone, Debug)]
pub struct SearchEnvelope {
    pub context: Context,
    pub message: SearchMessage,
}

/// Where a fulfillment stop lies and whom to reach there.
#[derive(Clone, Debug)]
pub struct StopLocation {
    pub gps: String,
    pub address: Option<String>,
    pub area_code: String,
    pub city_name: String,
    pub country_code: String,
    pub state_name: String,
}

#[derive(Clone, Debug)]
pub struct StopContact {
    pub phone: String,
    pub email: Option<String>,
}

#[derive(Clone, Debug)]
pub struct FulfillmentStop {
    pub stop_type: StopType,
    pub location: StopLocation,
    pub contact: StopContact,
}

/// A credential shown to the seller, such as an import licence.
#[derive(Clone, Debug)]
pub struct Credential {
    pub id: String,
    pub url: String,
}

#[derive(Clone, Debug)]
pub struct Customer {
    pub name: String,
    pub creds: Option<Vec<Credential>>,
}

#[derive(Clone, Debug)]
pub struct OrderFulfillment {
    pub id: String,
    pub fulfillment_type: FulfillmentType,
    pub tags: Option<Vec<Tag>>,
    pub stops: Option<Vec<FulfillmentStop>>,
    pub customer: Option<Customer>,
}

#[derive(Clone, Debug)]
pub struct SelectedItem {
    pub id: String,
    pub location_ids: Vec<String>,
    pub fulfillment_ids: Vec<String>,
    pub quantity: i32,
    pub tags: Option<Vec<Tag>>,
}

#[derive(Clone, Debug)]
pub struct SelectProvider {
    pub id: String,
    pub location_ids: Vec<String>,
    pub ttl: String,
}

#[derive(Clone, Debug)]
pub struct SelectOrder {
    pub provider: SelectProvider,
    pub items: Vec<SelectedItem>,
    pub tags: Vec<Tag>,
    pub payments: Vec<PaymentType>,
    pub fulfillments: Vec<OrderFulfillment>,
}

#[derive(Clone, Debug)]
pub struct SelectEnvelope {
    pub context: Context,
    pub order: SelectOrder,
}

/// A price: a currency and an amount.
#[derive(Clone, Copy, Debug, PartialEq, Eq, Structural)]
pub struct Price {
    pub currency: CurrencyType,
    pub value: Amount,
}

#[derive(Clone, Copy, Debug, PartialEq, Eq, Structural)]
pub enum BreakupTitleType {
    Item,
    Tax,
    Discount,
    Packing,
    Delivery,
    Misc,
}

/// One line of a quote breakup.
#[derive(Clone, Debug)]
pub struct BreakUp {
    pub title: String,
    pub item_id: String,
    pub title_type: BreakupTitleType,
    pub price: Price,
    pub quantity: Option<i32>,
    pub item_price: Option<Price>,
}

#[derive(Clone, Debug)]
pub struct Quote {
    pub ttl: String,
    pub price: Price,
    pub breakup: Vec<BreakUp>,
}

#[derive(Clone, Debug)]
pub struct PaymentSettlement {
    pub counterparty: NetworkRole,
    pub phase: String,
    pub settlement_type: String,
    pub bank_account_no: String,
    pub ifsc: String,
    pub beneficiary: String,
    pub bank_name: String,
}

/// A payment as a confirm or update envelope carries it.
#[derive(Clone, Debug)]
pub struct ConfirmPayment {
    pub payment_type: PaymentType,
    pub collected_by: NetworkRole,
    pub amount: Amount,
    pub currency: CurrencyType,
    pub transaction_id: Option<String>,
    pub buyer_fee_type: FeeType,
    pub buyer_fee_amount: Amount,
    pub settlement_window: String,
    pub withholding_amount: Amount,
    pub settlement_details: Vec<PaymentSettlement>,
}

/// A cancellation fee, as a percentage or as an amount.
#[derive(Clone, Debug)]
pub enum CancellationFee {
    Percent { percentage: String },
    Amount { currency: CurrencyType, value: String },
}

#[derive(Clone, Debug)]
pub struct CancellationTerm {
    pub fulfillment_state: crate::schemas::FulfillmentState,
    pub reason_required: bool,
    pub cancellation_fee: CancellationFee,
}

#[derive(Clone, Debug)]
pub struct Billing {
    pub name: String,
    pub address: String,
    pub state: String,
    pub city: String,
    pub tax_id: String,
    pub email: Option<String>,
    pub phone: String,
}

#[derive(Clone, Debug)]
pub struct ConfirmOrder {
    pub id: String,
    pub provider_id: String,
    pub provider_location_ids: Vec<String>,
    pub items: Vec<SelectedItem>,
    pub fulfillments: Vec<OrderFulfillment>,
    pub billing: Billing,
    pub cancellation_terms: Vec<CancellationTerm>,
    pub created_at: i64,
    pub updated_at: i64,
    pub tags: Vec<Tag>,
    pub quote: Quote,
    pub payments: Vec<ConfirmPayment>,
}

#[derive(Clone, Debug)]
pub struct ConfirmEnvelope {
    pub context: Context,
    pub order: ConfirmOrder,
}

#[derive(Clone, Debug)]
pub struct StatusEnvelope {
    pub context: Context,
    pub order_id: String,
}

#[derive(Clone, Debug)]
pub struct CancelEnvelope {
    pub context: Context,
    pub order_id: String,
    pub cancellation_reason_id: String,
}

#[derive(Clone, Debug)]
pub struct UpdateItem {
    pub id: String,
    pub quantity: i32,
}

#[derive(Clone, Copy, Debug, PartialEq, Eq, Structural)]
pub enum UpdateTarget {
    Payments,
    Items,
    Fulfillments,
}

#[derive(Clone, Debug)]
pub struct UpdateEnvelope {
    pub context: Context,
    pub target: UpdateTarget,
    pub order_id: String,
    pub provider_id: String,
    pub payments: Vec<ConfirmPayment>,
    pub items: Vec<UpdateItem>,
}

/// A validation failure with exactly this text.
pub open spec fn is_validation(e: AdapterError, text: Seq<char>) -> bool {
    e is Validation && e->Validation_0@ == text
}

/// The kinds of failure that an outbound action can end in.
#[derive(Clone, Debug)]
pub enum AdapterError {
    Validation(String),
    Upstream(String),
    Database(String),
    Serialization(String),
    NotImplemented(String),
    Protocol(String),
}

/// The `error` object of an inbound response.
#[derive(Clone, Debug)]
pub struct ProtocolError {
    pub message: String,
    pub path: Option<String>,
}

/// A quote breakup line as a seller sends it: amounts still as decimal text.
#[derive(Clone, Debug)]
pub struct InboundBreakUp {
    pub item_id: Option<String>,
    pub title_type: BreakupTitleType,
    pub price_value: String,
    pub quantity: Option<i32>,
    pub item_price_value: Option<String>,
}

#[derive(Clone, Debug)]
pub struct InboundQuote {
    pub price_value: String,
    pub currency: CurrencyType,
    pub ttl: String,
    pub breakup: Vec<InboundBreakUp>,
}

#[derive(Clone, Debug)]
pub struct OnSelectItem {
    pub id: String,
    pub location_ids: Vec<String>,
    pub fulfillment_ids: Vec<String>,
    pub quantity: i32,
    pub tags: Option<Vec<Tag>>,
}

#[derive(Clone, Debug)]
pub struct OnSelectFulfillment {
    pub id: String,
    pub category: crate::schemas::FulfillmentCategoryType,
    pub provider_name: Option<String>,
    pub tat: String,
    pub servicable_status: crate::schemas::ServiceableType,
    pub tracking: bool,
    pub stops: Option<Vec<FulfillmentStop>>,
}

#[derive(Clone, Debug)]
pub struct OnSelectPayment {
    pub collected_by: NetworkRole,
    pub payment_type: PaymentType,
}

/// An inbound `on_select`: the seller's quote for a select.
#[derive(Clone, Debug)]
pub struct OnSelectResponse {
    pub context: Context,
    pub error: Option<ProtocolError>,
    pub items: Vec<OnSelectItem>,
    pub fulfillments: Vec<OnSelectFulfillment>,
    pub payments: Vec<OnSelectPayment>,
    pub quote: InboundQuote,
}

/// A payment of an inbound `on_init`, with the seller's settlement terms.
#[derive(Clone, Debug)]
pub struct OnInitPayment {
    pub collected_by: NetworkRole,
    pub payment_type: PaymentType,
    pub buyer_fee_type: FeeType,
    pub buyer_fee_amount: String,
    pub settlement_window: String,
    pub withholding_amount: String,
    pub uri: Option<String>,
    pub settlement_basis: crate::schemas::SettlementBasis,
    pub tags: Option<Vec<Tag>>,
    pub settlement_details: Option<Vec<crate::schemas::SettlementDetail>>,
}

/// An inbound `on_init`: billing echoed back, the seller's terms as tags,
/// its cancellation terms and payments.
#[derive(Clone, Debug)]
pub struct OnInitResponse {
    pub context: Context,
    pub billing: Billing,
    pub tags: Vec<Tag>,
    pub cancellation_terms: Vec<CancellationTerm>,
    pub payments: Vec<OnInitPayment>,
}

/// A payment as an init envelope carries it: type and collector only.
#[derive(Clone, Copy, Debug, PartialEq, Eq, Structural)]
pub struct InitPayment {
    pub payment_type: PaymentType,
    pub collected_by: NetworkRole,
}

#[derive(Clone, Debug)]
pub struct InitOrder {
    pub provider_id: String,
    pub provider_location_ids: Vec<String>,
    pub billing: Billing,
    pub payments: Vec<InitPayment>,
    pub items: Vec<SelectedItem>,
    pub tags: Vec<Tag>,
    pub fulfillments: Vec<OrderFulfillment>,
}

#[derive(Clone, Debug)]
pub struct InitEnvelope {
    pub context: Context,
    pub order: InitOrder,
}

} // verus!
