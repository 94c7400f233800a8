//! Delivery of one scan to the remote service.
//!
//! The runtime probes the network, reads the credential, and performs
//! the actual request; everything decided around that call is here. The
//! guiding rule is that a scan is never silently lost: whenever the
//! send cannot happen or fails for a network or credential reason, the
//! scan is put into the offline cache and the caller gets a soft,
//! recoverable error naming that fact.

use crate::cache::{has_key, insertion_point, key_index, lookup, OfflineScanCache, PendingScan};
use crate::config::AppConfig;
use crate::interface::RfidTag;
use vstd::prelude::*;

verus! {

/// Body of one scan submission.
#[derive(Debug)]
pub struct ScanRequest {
    pub tag_id: String,
    pub terminal_id: String,
    pub timestamp: i64,
    pub room_id: Option<i32>,
    pub activity_id: Option<i32>,
    pub staff_id: Option<i32>,
}

impl Clone for ScanRequest {
    /// An exact copy of the request.
    fn clone(&self) -> (r: Self)
        ensures
            r == *self,
    {
        ScanRequest {
            tag_id: self.tag_id.clone(),
            terminal_id: self.terminal_id.clone(),
            timestamp: self.timestamp,
            room_id: self.room_id,
            activity_id: self.activity_id,
            staff_id: self.staff_id,
        }
    }
}

/// The person a delivered scan resolved to.
#[derive(Debug)]
pub struct UserInfo {
    pub id: i32,
    pub name: String,
    pub is_checked_in: bool,
}

impl Clone for UserInfo {
    /// An exact copy.
    fn clone(&self) -> (r: Self)
        ensures
            r == *self,
    {
        UserInfo { id: self.id, name: self.name.clone(), is_checked_in: self.is_checked_in }
    }
}

/// How the remote service answered a live submission, when one was
/// performed.
#[derive(Debug)]
pub enum SendResponse {
    /// Accepted; the service may name the person scanned in.
    Success(Option<UserInfo>),
    /// The credential was rejected.
    Unauthorized,
    /// This kiosk may not submit scans.
    Forbidden,
    /// The tag is not registered.
    NotFound,
    /// Any other failing status.
    ServerFailure(u16),
    /// The request never reached the service.
    NetworkFailure,
}

/// Why a submission did not deliver. The `Cached` variants promise that
/// the scan now waits in the offline cache.
#[derive(Clone, Copy, Debug, PartialEq, Eq, Structural)]
pub enum SubmitError {
    /// No network; the scan was cached.
    NetworkUnavailableCached,
    /// Nobody is logged in; the scan was cached.
    AuthRequiredCached,
    /// The credential expired mid-session; the scan was cached.
    AuthExpiredCached,
    /// This kiosk may not submit scans; nothing was cached.
    NotAuthorized,
    /// The service failed with this status; nothing was cached.
    ServerError(u16),
}

/// The request a scan turns into.
pub open spec fn request_model(
    tag: RfidTag,
    config: AppConfig,
    room_id: Option<i32>,
    activity_id: Option<i32>,
    staff_id: Option<i32>,
) -> ScanRequest {
    ScanRequest {
        tag_id: tag.id,
        terminal_id: config.device_id,
        timestamp: tag.timestamp,
        room_id,
        activity_id,
        staff_id,
    }
}

/// The cache record a scan turns into when it cannot be delivered.
pub open spec fn pending_model(
    tag: RfidTag,
    config: AppConfig,
    room_id: Option<i32>,
    activity_id: Option<i32>,
    staff_id: Option<i32>,
    created_at: i64,
) -> PendingScan {
    PendingScan {
        tag_id: tag.id,
        terminal_id: config.device_id,
        timestamp: tag.timestamp,
        room_id,
        activity_id,
        staff_id,
        attempts: 0,
        created_at,
    }
}

/// How one cache state turns into another by persisting a record: an
/// existing record of the same identity is replaced, otherwise the
/// record enters at its place in creation order.
pub open spec fn cached_into(
    pre: Seq<PendingScan>,
    post: Seq<PendingScan>,
    rec: PendingScan,
) -> bool {
    if has_key(pre, rec.tag_id@, rec.created_at as int) {
        post == pre.update(key_index(pre, rec.tag_id@, rec.created_at as int), rec)
    } else {
        post == pre.insert(insertion_point(pre, rec.created_at as int), rec)
    }
}

/// The request sent for one scan.
pub fn build_scan_request(
    tag: &RfidTag,
    config: &AppConfig,
    room_id: Option<i32>,
    activity_id: Option<i32>,
    staff_id: Option<i32>,
) -> (r: ScanRequest)
    ensures
        r == request_model(*tag, *config, room_id, activity_id, staff_id),
{
    ScanRequest {
        tag_id: tag.id.clone(),
        terminal_id: config.device_id.clone(),
        timestamp: tag.timestamp,
        room_id,
        activity_id,
        staff_id,
    }
}

/// Deliver one scan, or cache it. `network_available` and `has_token`
/// are what the runtime probed before the call; `response` is the
/// service's answer when a send was performed, which is exactly when
/// both probes passed. `created_at` stamps the cache record if one is
/// made.
pub fn send_tag_to_server(
    tag: &RfidTag,
    room_id: Option<i32>,
    activity_id: Option<i32>,
    config: &AppConfig,
    staff_id: Option<i32>,
    network_available: bool,
    has_token: bool,
    response: Option<SendResponse>,
    created_at: i64,
    cache: &mut OfflineScanCache,
) -> (r: Result<Option<UserInfo>, SubmitError>)
    requires
        old(cache).wf(),
        response is Some <==> network_available && has_token,
    ensures
        final(cache).wf(),
        ({
            let rec = pending_model(*tag, *config, room_id, activity_id, staff_id, created_at);
            let caches = cached_into(old(cache)@, final(cache)@, rec)
                && lookup(final(cache)@, rec.tag_id@, rec.created_at as int) == Some(rec);
            if !network_available {
                r == Result::<Option<UserInfo>, SubmitError>::Err(
                    SubmitError::NetworkUnavailableCached,
                ) && caches
            } else if !has_token {
                r == Result::<Option<UserInfo>, SubmitError>::Err(SubmitError::AuthRequiredCached)
                    && caches
            } else {
                match response->Some_0 {
                    SendResponse::Success(user) => r == Result::<
                        Option<UserInfo>,
                        SubmitError,
                    >::Ok(user) && final(cache)@ == old(cache)@,
                    SendResponse::Unauthorized => r == Result::<Option<UserInfo>, SubmitError>::Err(
                        SubmitError::AuthExpiredCached,
                    ) && caches,
                    SendResponse::Forbidden => r == Result::<Option<UserInfo>, SubmitError>::Err(
                        SubmitError::NotAuthorized,
                    ) && final(cache)@ == old(cache)@,
                    SendResponse::NotFound => r == Result::<Option<UserInfo>, SubmitError>::Ok(
                        None,
                    ) && final(cache)@ == old(cache)@,
                    SendResponse::ServerFailure(code) => r == Result::<
                        Option<UserInfo>,
                        SubmitError,
                    >::Err(SubmitError::ServerError(code)) && final(cache)@ == old(cache)@,
                    SendResponse::NetworkFailure => r == Result::<
                        Option<UserInfo>,
                        SubmitError,
                    >::Err(SubmitError::NetworkUnavailableCached) && caches,
                }
            }
        }),
{
    let request = build_scan_request(tag, config, room_id, activity_id, staff_id);
    if !network_available {
        cache_request(cache, request, created_at);
        return Err(SubmitError::NetworkUnavailableCached);
    }
    if !has_token {
        cache_request(cache, request, created_at);
        return Err(SubmitError::AuthRequiredCached);
    }
    match response {
        Some(SendResponse::Success(user)) => Ok(user),
        Some(SendResponse::Unauthorized) => {
            cache_request(cache, request, created_at);
            Err(SubmitError::AuthExpiredCached)
        },
        Some(SendResponse::Forbidden) => Err(SubmitError::NotAuthorized),
        Some(SendResponse::NotFound) => Ok(None),
        Some(SendResponse::ServerFailure(code)) => Err(SubmitError::ServerError(code)),
        Some(SendResponse::NetworkFailure) => {
            cache_request(cache, request, created_at);
            Err(SubmitError::NetworkUnavailableCached)
        },
        None => {
            // Unreachable: a response exists exactly when both probes passed.
            Err(SubmitError::NetworkUnavailableCached)
        },
    }
}

/// Put the scan of a request into the offline cache with no attempts
/// counted.
fn cache_request(cache: &mut OfflineScanCache, request: ScanRequest, created_at: i64)
    requires
        old(cache).wf(),
    ensures
        final(cache).wf(),
        ({
            let rec = PendingScan {
                tag_id: request.tag_id,
                terminal_id: request.terminal_id,
                timestamp: request.timestamp,
                room_id: request.room_id,
                activity_id: request.activity_id,
                staff_id: request.staff_id,
                attempts: 0,
                created_at,
            };
            cached_into(old(cache)@, final(cache)@, rec) && lookup(
                final(cache)@,
                rec.tag_id@,
                rec.created_at as int,
            ) == Some(rec)
        }),
{
    let pending = PendingScan::new(
        request.tag_id,
        request.terminal_id,
        request.timestamp,
        request.room_id,
        request.activity_id,
        request.staff_id,
        created_at,
    );
    cache.cache_scan(pending);
}

} // verus!
