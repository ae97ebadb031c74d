use crate::catalog::OnSearchCatalog;
use crate::envelope::opt_view;
use crate::protocol::AdapterError;
use crate::schemas::BuyerCommerce;
use crate::tags::copy_string;
use vstd::prelude::*;

verus! {

/// How many times an outbound POST is tried in all.
pub const MAX_ATTEMPTS: u32 = 3;

/// The wait before the first retry; each later retry waits one more step.
pub const BACKOFF_STEP_MS: u64 = 500;

/// What to do after a failed outbound attempt.
#[derive(Clone, Copy, Debug, PartialEq, Eq, Structural)]
pub enum RetryDecision {
    Retry { attempt: u32, delay_ms: u64 },
    GiveUp,
}

/// After attempt number `attempt` (counting from one) failed: retry a
/// transient failure with a linearly growing wait while attempts remain,
/// else give up and surface the failure.
pub fn next_attempt(attempt: u32, transient: bool) -> (r: RetryDecision)
    ensures
        (r is Retry) <==> (transient && attempt < MAX_ATTEMPTS),
        r is Retry ==> r->attempt == attempt + 1 && r->delay_ms == BACKOFF_STEP_MS * attempt,
{
    if transient && attempt < MAX_ATTEMPTS {
        RetryDecision::Retry { attempt: attempt + 1, delay_ms: BACKOFF_STEP_MS * attempt as u64 }
    } else {
        RetryDecision::GiveUp
    }
}

/// The request metadata that every buyer request must carry.
#[derive(Clone, Debug)]
pub struct RequestMetaData {
    pub request_id: String,
    pub device_id: String,
    pub domain_uri: String,
}

/// Checks the request headers: the request id first, then the device id,
/// then the host; each missing one is a validation error.
pub fn validate_request_headers(
    request_id: &Option<String>,
    device_id: &Option<String>,
    host: &Option<String>,
) -> (r: Result<RequestMetaData, AdapterError>)
    ensures
        r is Ok <==> (request_id is Some && device_id is Some && host is Some),
        r is Err ==> r->Err_0 is Validation,
        r is Ok ==> r->Ok_0.request_id@ == request_id->0@ && r->Ok_0.device_id@ == device_id->0@
            && r->Ok_0.domain_uri@ == host->0@,
{
    match (request_id, device_id, host) {
        (Some(r), Some(d), Some(h)) => Ok(
            RequestMetaData { request_id: copy_string(r), device_id: copy_string(d), domain_uri: copy_string(h) },
        ),
        (None, _, _) => Err(AdapterError::Validation(String::from_str("x-request-id is missing"))),
        (_, None, _) => Err(AdapterError::Validation(String::from_str("x-device-id is missing"))),
        (_, _, None) => Err(AdapterError::Validation(String::from_str("Host is missing"))),
    }
}

/// An authenticated user may act only while active and not deleted.
pub fn check_user_status(is_active: bool, is_deleted: bool) -> (r: Result<(), AdapterError>)
    ensures
        r is Ok <==> (is_active && !is_deleted),
        r is Err ==> r->Err_0 is Validation,
{
    if !is_active {
        Err(AdapterError::Validation(String::from_str("User is Inactive. Please contact customer support")))
    } else if is_deleted {
        Err(AdapterError::Validation(String::from_str("User is in deleted. Please contact customer support")))
    } else {
        Ok(())
    }
}

/// Whom a websocket notification is addressed to.
#[derive(Clone, Debug)]
pub struct WebSocketParam {
    pub user_id: Option<u128>,
    pub business_id: u128,
    pub device_id: Option<String>,
}

/// The stored search request that an `on_search` answers.
#[derive(Clone, Debug)]
pub struct SearchRequestModel {
    pub transaction_id: u128,
    pub user_id: u128,
    pub business_id: u128,
    pub device_id: String,
    pub update_cache: bool,
}

/// The outbound audit record of an order action.
#[derive(Clone, Debug)]
pub struct ONDCRequestModel {
    pub transaction_id: u128,
    pub message_id: u128,
    pub user_id: Option<u128>,
    pub business_id: u128,
    pub device_id: Option<String>,
}

pub fn get_websocket_params_from_search_req(search_model: SearchRequestModel) -> (r: WebSocketParam)
    ensures
        r.user_id == Some(search_model.user_id),
        r.business_id == search_model.business_id,
        opt_view(r.device_id) == Some(search_model.device_id@),
{
    WebSocketParam {
        user_id: Some(search_model.user_id),
        business_id: search_model.business_id,
        device_id: Some(search_model.device_id),
    }
}

/// Addresses a notification from the outbound audit record: its user,
/// business and device.
pub fn get_ondc_order_param_from_req(ondc_req: &ONDCRequestModel) -> (r: WebSocketParam)
    ensures
        r.user_id == ondc_req.user_id,
        r.business_id == ondc_req.business_id,
        opt_view(r.device_id) == opt_view(ondc_req.device_id),
{
    WebSocketParam {
        user_id: ondc_req.user_id,
        business_id: ondc_req.business_id,
        device_id: crate::envelope::copy_opt_string(&ondc_req.device_id),
    }
}

/// Addresses a notification to the business that owns the record.
pub fn get_ondc_order_param_from_commerce(ondc_req: &BuyerCommerce) -> (r: WebSocketParam)
    ensures
        r.user_id is None,
        r.business_id == ondc_req.buyer_id,
        r.device_id is None,
{
    WebSocketParam { user_id: None, business_id: ondc_req.buyer_id, device_id: None }
}

/// The device to notify: the inbound one where present, else the one on
/// the outbound audit record.
pub fn resolve_device_id(inbound: &Option<String>, audit: &Option<String>) -> (r: Option<String>)
    ensures
        opt_view(r) == if inbound is Some {
            opt_view(*inbound)
        } else {
            opt_view(*audit)
        },
{
    match inbound {
        Some(d) => Some(copy_string(d)),
        None => crate::envelope::copy_opt_string(audit),
    }
}

/// What the intake path does with an `on_search`: ingest a catalog that
/// has providers, and notify the buyer unless the search only refreshes the cache.
#[derive(Clone, Copy, Debug, PartialEq, Eq, Structural)]
pub struct OnSearchPlan {
    pub ingest: bool,
    pub notify: bool,
}

pub fn plan_on_search(catalog: &Option<OnSearchCatalog>, update_cache: bool) -> (r: OnSearchPlan)
    ensures
        r.ingest == (catalog is Some && catalog->0.providers@.len() > 0),
        r.notify == (r.ingest && !update_cache),
{
    let ingest = match catalog {
        Some(c) => c.providers.len() > 0,
        None => false,
    };
    OnSearchPlan { ingest, notify: ingest && !update_cache }
}

/// The seller columns of a bulk upsert: one entry per provider.
#[derive(Clone, Debug)]
pub struct BulkSellerInfo {
    pub seller_subscriber_ids: Vec<String>,
    pub provider_ids: Vec<String>,
    pub provider_names: Vec<String>,
}

pub fn create_bulk_seller_info_objs(body: &OnSearchCatalog) -> (r: BulkSellerInfo)
    ensures
        r.seller_subscriber_ids@.len() == body.providers@.len(),
        r.provider_ids@.len() == body.providers@.len(),
        r.provider_names@.len() == body.providers@.len(),
        forall|i: int|
            0 <= i < body.providers@.len() ==> (#[trigger] r.seller_subscriber_ids@[i])@ == body.bpp_id@
                && r.provider_ids@[i]@ == body.providers@[i].id@ && r.provider_names@[i]@
                == body.providers@[i].name@,
{
    let mut ids: Vec<String> = Vec::new();
    let mut pids: Vec<String> = Vec::new();
    let mut names: Vec<String> = Vec::new();
    let mut i: usize = 0;
    while i < body.providers.len()
        invariant
            i <= body.providers@.len(),
            ids@.len() == i && pids@.len() == i && names@.len() == i,
            forall|k: int|
                0 <= k < i ==> (#[trigger] ids@[k])@ == body.bpp_id@ && pids@[k]@ == body.providers@[k].id@
                    && names@[k]@ == body.providers@[k].name@,
        decreases body.providers.len() - i,
    {
        ids.push(copy_string(&body.bpp_id));
        pids.push(copy_string(&body.providers[i].id));
        names.push(copy_string(&body.providers[i].name));
        i = i + 1;
    }
    BulkSellerInfo { seller_subscriber_ids: ids, provider_ids: pids, provider_names: names }
}

} // verus!
