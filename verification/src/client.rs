//! The trading client: an authentication-gated façade whose operations
//! split into a pure request phase (validated, authenticated, ready for the
//! transport) and a pure response phase (status code and decoded body
//! fields mapped to a typed outcome).
//!
//! The transport itself is a collaborator outside this crate: it is handed
//! a request value, performs the call, and hands back plain response
//! values. Every operation checks authentication through one central
//! guard, so an unauthenticated client fails with `NotAuthenticated`
//! before any transport work is due.

use crate::auth::{ApiCredentials, AuthState};
use crate::crypto::{ecdsa_sig_of, fresh_salt};
use crate::digest::order_digest;
use crate::errors::{ClobError, OrderField, ValidationError};
use crate::order::{OrderBuilder, SignatureType, UnsignedOrder};
use crate::signer::{sign_order, SignedOrder, Signer};
use vstd::prelude::*;

verus! {

/// Caller-supplied construction parameters; no environment coupling.
pub struct ClientConfig {
    pub host: String,
    pub chain_id: u64,
    /// The exchange's verifying contract, 20 bytes.
    pub verifying_contract: Vec<u8>,
    /// The typed-data domain version.
    pub domain_version: Vec<u8>,
    pub signature_type: SignatureType,
    /// Optional fund-owner address.
    pub funder: Option<Vec<u8>>,
    /// Deadline for every transport call.
    pub timeout_ms: u64,
}

/// The client; its authentication state gates all trading operations.
pub struct Client {
    pub config: ClientConfig,
    pub auth: AuthState,
}

/// What a rejecting status code maps to, uniformly across all trading
/// endpoints: 400 to a validation failure, 401 to expired credentials,
/// 403 to refusal, 429 to rate limiting with the advertised delay, 5xx to
/// a retryable server fault, and anything else undocumented.
pub open spec fn status_maps_to(status: u16, retry_after: Option<u64>, e: ClobError) -> bool {
    if status == 400 {
        e matches ClobError::Validation(v) && v@.len() == 0
    } else if status == 401 {
        e is AuthExpired
    } else if status == 403 {
        e is Forbidden
    } else if status == 429 {
        e == ClobError::RateLimited(retry_after)
    } else if 500 <= status < 600 {
        e == ClobError::ServerError(status)
    } else {
        e == ClobError::UnexpectedStatus(status)
    }
}

/// The uniform status mapping: `None` exactly on a success status, else
/// the error the table prescribes.
pub fn map_status(status: u16, retry_after: Option<u64>) -> (r: Option<ClobError>)
    ensures
        r is None <==> 200 <= status < 300,
        r matches Some(e) ==> status_maps_to(status, retry_after, e),
{
    if 200 <= status && status < 300 {
        None
    } else if status == 400 {
        Some(ClobError::Validation(Vec::new()))
    } else if status == 401 {
        Some(ClobError::AuthExpired)
    } else if status == 403 {
        Some(ClobError::Forbidden)
    } else if status == 429 {
        Some(ClobError::RateLimited(retry_after))
    } else if 500 <= status && status < 600 {
        Some(ClobError::ServerError(status))
    } else {
        Some(ClobError::UnexpectedStatus(status))
    }
}

/// A post-order call ready for the transport.
#[derive(Clone, Debug)]
pub struct PostOrderRequest {
    pub order: SignedOrder,
}

/// Which cancellation a cancel call asks for.
#[derive(Clone, Debug)]
pub enum CancelScope {
    One(String),
    All,
}

/// A cancellation call ready for the transport.
#[derive(Clone, Debug)]
pub struct CancelRequest {
    pub scope: CancelScope,
}

/// One page request of the paginated order listing.
#[derive(Clone, Debug)]
pub struct OrdersRequest {
    /// The continuation cursor of the previous page, absent for the first.
    pub marker: Option<String>,
}

/// The asset a balance query is keyed by.
#[derive(Clone, Copy, Debug, PartialEq, Eq, Structural)]
pub enum AssetType {
    Collateral,
    Conditional,
}

/// A balance/allowance query: keyed by asset type, and by token id for
/// conditional assets.
#[derive(Clone, Debug)]
pub struct BalanceAllowanceQuery {
    pub asset_type: AssetType,
    pub token_id: Option<String>,
}

impl BalanceAllowanceQuery {
    /// A conditional query must name its token.
    pub open spec fn wf(&self) -> bool {
        self.asset_type is Conditional ==> self.token_id is Some
    }
}

/// A balance/allowance read or update ready for the transport.
#[derive(Clone, Debug)]
pub struct BalanceRequest {
    pub query: BalanceAllowanceQuery,
    /// True for the fire-and-confirm update, false for the read.
    pub update: bool,
}

/// An order-book snapshot request ready for the transport.
#[derive(Clone, Debug)]
pub struct OrderBookRequest {
    pub token_id: String,
}

impl Client {
    /// A fresh client: configured, not yet authenticated.
    pub fn new(config: ClientConfig) -> (r: Client)
        ensures
            r.config == config,
            r.auth is Unauthenticated,
            r.wf(),
    {
        Client { config, auth: AuthState::Unauthenticated }
    }

    /// Whether the handshake has completed.
    pub open spec fn is_authenticated(&self) -> bool {
        self.auth is Authenticated
    }

    /// Shape of a well-formed client: an authenticated state carries a
    /// 20-byte signing address.
    pub open spec fn wf(&self) -> bool {
        self.auth matches AuthState::Authenticated { address, .. } ==> address@.len() == 20
    }

    /// Enters the authenticated state: consumes the client and the derived
    /// credentials; the signature type is the configured one. Terminal for
    /// the session.
    pub fn complete_authentication(self, credentials: ApiCredentials, address: Vec<u8>) -> (r:
        Client)
        requires
            address@.len() == 20,
        ensures
            r.config == self.config,
            r.auth == (AuthState::Authenticated {
                credentials,
                address,
                signature_type: self.config.signature_type,
            }),
            r.wf(),
    {
        let signature_type = self.config.signature_type;
        Client {
            config: self.config,
            auth: AuthState::Authenticated { credentials, address, signature_type },
        }
    }

    /// The one centralized authentication guard every operation goes
    /// through: the credentials when authenticated, `NotAuthenticated`
    /// otherwise.
    pub fn require_auth(&self) -> (r: Result<&ApiCredentials, ClobError>)
        ensures
            r is Ok <==> self.is_authenticated(),
            r matches Ok(c) ==> self.auth matches AuthState::Authenticated { credentials, .. }
                && *c == credentials,
            r matches Err(e) ==> e is NotAuthenticated,
    {
        match &self.auth {
            AuthState::Authenticated { credentials, .. } => Ok(credentials),
            AuthState::Unauthenticated => Err(ClobError::NotAuthenticated),
        }
    }

    /// The authenticated signing address.
    pub fn address(&self) -> (r: Result<&Vec<u8>, ClobError>)
        ensures
            r is Ok <==> self.is_authenticated(),
            r matches Ok(a) ==> self.auth matches AuthState::Authenticated { address, .. }
                && *a == address,
            r matches Err(e) ==> e is NotAuthenticated,
    {
        match &self.auth {
            AuthState::Authenticated { address, .. } => Ok(address),
            AuthState::Unauthenticated => Err(ClobError::NotAuthenticated),
        }
    }

    /// Validates and derives an order: the maker is the authenticated
    /// address, the signature type the configured one, the salt fresh from
    /// the entropy source (so each built order gets its own).
    pub fn build_order(&self, builder: &OrderBuilder) -> (r: Result<UnsignedOrder, ClobError>)
        requires
            self.wf(),
            builder.taker matches Some(t) ==> t@.len() == 20,
        ensures
            !self.is_authenticated() ==> (r matches Err(e) && e is NotAuthenticated),
            self.is_authenticated() && builder.violations().len() > 0 ==> (r matches Err(e)
                && e matches ClobError::Validation(v) && v@.map_values(
                (|x: ValidationError| x.field),
            ) =~= builder.violations()),
            r matches Ok(o) ==> {
                &&& self.is_authenticated()
                &&& builder.violations().len() == 0
                &&& o.wf()
                &&& o.token_id@ == builder.token_id@
                &&& o.side == builder.side
                &&& o.price_micro == builder.price_micro
                &&& o.size_micro == builder.size_micro
                &&& o.order_type == builder.order_type
                &&& o.expiration == builder.expiration
                &&& o.fee_rate_bps == builder.fee_rate_bps
                &&& (self.auth matches AuthState::Authenticated { address, .. } ==> o.maker@
                    == address@)
                &&& o.signature_type == self.config.signature_type
                &&& o.maker_amount == crate::amounts::scaled_amount_spec(
                    builder.price_micro,
                    builder.size_micro,
                )
                &&& o.taker_amount == o.maker_amount
            },
            r matches Err(e) ==> e is NotAuthenticated || e is Validation || e is Signing,
    {
        let address = match self.address() {
            Ok(a) => a,
            Err(e) => {
                return Err(e);
            },
        };
        match builder.validate() {
            Ok(()) => {},
            Err(v) => {
                return Err(ClobError::Validation(v));
            },
        }
        let salt = match fresh_salt() {
            Some(s) => s,
            None => {
                return Err(ClobError::Signing);
            },
        };
        match builder.build_with_salt(address, self.config.signature_type, salt) {
            Ok(o) => Ok(o),
            Err(v) => Err(ClobError::Validation(v)),
        }
    }

    /// Builds and signs in one step: the result carries the canonical
    /// digest of the built order under the configured domain and the
    /// signature the signer's key determines for it.
    pub fn create_signed_order(&self, builder: &OrderBuilder, signer: &Signer) -> (r: Result<
        SignedOrder,
        ClobError,
    >)
        requires
            self.wf(),
            builder.taker matches Some(t) ==> t@.len() == 20,
        ensures
            !self.is_authenticated() ==> (r matches Err(e) && e is NotAuthenticated),
            r matches Ok(so) ==> {
                &&& self.is_authenticated()
                &&& builder.violations().len() == 0
                &&& so.order.wf()
                &&& so.order.token_id@ == builder.token_id@
                &&& so.order.side == builder.side
                &&& so.order.price_micro == builder.price_micro
                &&& so.order.size_micro == builder.size_micro
                &&& so.order.maker_amount == crate::amounts::scaled_amount_spec(
                    builder.price_micro,
                    builder.size_micro,
                )
                &&& so.order.taker_amount == so.order.maker_amount
                &&& (self.auth matches AuthState::Authenticated { address, .. }
                    ==> so.order.maker@ == address@)
                &&& so.order_hash@ == order_digest(
                    so.order,
                    self.config.chain_id,
                    self.config.verifying_contract@,
                    self.config.domain_version@,
                )
                &&& so.signature@ == ecdsa_sig_of(signer.key_bytes(), so.order_hash@)
                &&& so.signature@.len() == 65
            },
            r matches Err(e) ==> e is NotAuthenticated || e is Validation || e is Signing,
    {
        let unsigned = self.build_order(builder)?;
        sign_order(
            unsigned,
            signer,
            self.config.chain_id,
            &self.config.verifying_contract,
            &self.config.domain_version,
        )
    }

    /// Prepares submission of a signed order; fails only for want of
    /// authentication.
    pub fn post_order_request(&self, order: SignedOrder) -> (r: Result<PostOrderRequest, ClobError>)
        ensures
            r is Ok <==> self.is_authenticated(),
            r matches Ok(q) ==> q.order == order,
            r matches Err(e) ==> e is NotAuthenticated,
    {
        self.require_auth()?;
        Ok(PostOrderRequest { order })
    }

    /// Prepares cancellation of one order by id.
    pub fn cancel_order_request(&self, order_id: String) -> (r: Result<CancelRequest, ClobError>)
        ensures
            r is Ok <==> self.is_authenticated(),
            r matches Ok(q) ==> q.scope == CancelScope::One(order_id),
            r matches Err(e) ==> e is NotAuthenticated,
    {
        self.require_auth()?;
        Ok(CancelRequest { scope: CancelScope::One(order_id) })
    }

    /// Prepares cancellation of every open order of the session.
    pub fn cancel_all_request(&self) -> (r: Result<CancelRequest, ClobError>)
        ensures
            r is Ok <==> self.is_authenticated(),
            r matches Ok(q) ==> q.scope is All,
            r matches Err(e) ==> e is NotAuthenticated,
    {
        self.require_auth()?;
        Ok(CancelRequest { scope: CancelScope::All })
    }

    /// Prepares one page of the order listing, continuing from the marker
    /// the previous page returned.
    pub fn orders_request(&self, marker: Option<String>) -> (r: Result<OrdersRequest, ClobError>)
        ensures
            r is Ok <==> self.is_authenticated(),
            r matches Ok(q) ==> q.marker == marker,
            r matches Err(e) ==> e is NotAuthenticated,
    {
        self.require_auth()?;
        Ok(OrdersRequest { marker })
    }

    /// Prepares a balance/allowance read; a conditional query without a
    /// token id is a reported validation failure.
    pub fn balance_allowance_request(&self, query: BalanceAllowanceQuery) -> (r: Result<
        BalanceRequest,
        ClobError,
    >)
        ensures
            r is Ok <==> self.is_authenticated() && query.wf(),
            r matches Ok(q) ==> q.query == query && q.update == false,
            !self.is_authenticated() ==> (r matches Err(e) && e is NotAuthenticated),
            self.is_authenticated() && !query.wf() ==> (r matches Err(e) && e matches
                ClobError::Validation(v) && v@.len() == 1 && v@[0].field == OrderField::TokenId),
    {
        self.require_auth()?;
        validate_balance_query(&query)?;
        Ok(BalanceRequest { query, update: false })
    }

    /// Prepares a balance/allowance update: fire-and-confirm, so observing
    /// the new value takes a following read.
    pub fn update_balance_allowance_request(&self, query: BalanceAllowanceQuery) -> (r: Result<
        BalanceRequest,
        ClobError,
    >)
        ensures
            r is Ok <==> self.is_authenticated() && query.wf(),
            r matches Ok(q) ==> q.query == query && q.update == true,
            !self.is_authenticated() ==> (r matches Err(e) && e is NotAuthenticated),
            self.is_authenticated() && !query.wf() ==> (r matches Err(e) && e matches
                ClobError::Validation(v) && v@.len() == 1 && v@[0].field == OrderField::TokenId),
    {
        self.require_auth()?;
        validate_balance_query(&query)?;
        Ok(BalanceRequest { query, update: true })
    }

    /// Prepares an order-book snapshot read; an empty token id is a
    /// reported validation failure.
    pub fn order_book_request(&self, token_id: String) -> (r: Result<OrderBookRequest, ClobError>)
        ensures
            r is Ok <==> self.is_authenticated() && token_id@.len() > 0,
            r matches Ok(q) ==> q.token_id == token_id,
            !self.is_authenticated() ==> (r matches Err(e) && e is NotAuthenticated),
            self.is_authenticated() && token_id@.len() == 0 ==> (r matches Err(e) && e matches
                ClobError::Validation(v) && v@.len() == 1 && v@[0].field == OrderField::TokenId),
    {
        self.require_auth()?;
        if token_id.as_str().is_empty() {
            let mut v: Vec<ValidationError> = Vec::new();
            v.push(ValidationError {
                field: OrderField::TokenId,
                reason: "token_id must not be empty".to_owned(),
            });
            return Err(ClobError::Validation(v));
        }
        Ok(OrderBookRequest { token_id })
    }
}

/// Rejects a conditional balance query that names no token.
fn validate_balance_query(query: &BalanceAllowanceQuery) -> (r: Result<(), ClobError>)
    ensures
        r is Ok <==> query.wf(),
        !query.wf() ==> (r matches Err(e) && e matches ClobError::Validation(v) && v@.len() == 1
            && v@[0].field == OrderField::TokenId),
{
    if matches!(query.asset_type, AssetType::Conditional) && query.token_id.is_none() {
        let mut v: Vec<ValidationError> = Vec::new();
        v.push(ValidationError {
            field: OrderField::TokenId,
            reason: "a conditional query needs a token_id".to_owned(),
        });
        return Err(ClobError::Validation(v));
    }
    Ok(())
}

/// What the order-intake endpoint answered for an accepted submission.
#[derive(Clone, Debug)]
pub struct PostOrderOutcome {
    pub order_id: String,
    pub status: String,
}

/// Maps the post-order answer: a success status with both body fields
/// yields the outcome; a success status with a field missing is a
/// malformed response; a rejecting status follows the uniform table.
pub fn decode_post_order_response(
    status: u16,
    retry_after: Option<u64>,
    order_id: Option<String>,
    order_status: Option<String>,
) -> (r: Result<PostOrderOutcome, ClobError>)
    ensures
        r is Ok <==> 200 <= status < 300 && order_id is Some && order_status is Some,
        r matches Ok(o) ==> o.order_id == order_id.unwrap() && o.status == order_status.unwrap(),
        200 <= status < 300 && !(order_id is Some && order_status is Some) ==> (r matches Err(e)
            && e is MalformedResponse),
        !(200 <= status < 300) ==> (r matches Err(e) && status_maps_to(status, retry_after, e)),
{
    match map_status(status, retry_after) {
        Some(e) => Err(e),
        None => match (order_id, order_status) {
            (Some(id), Some(st)) => Ok(PostOrderOutcome { order_id: id, status: st }),
            _ => Err(ClobError::MalformedResponse),
        },
    }
}

/// What a cancellation answered: cancellations are idempotent from the
/// caller's view, so ids the server did not touch (unknown or already
/// cancelled) are reported beside the server's note, never fatal.
#[derive(Clone, Debug)]
pub struct CancelOutcome {
    pub canceled: Vec<String>,
    pub not_canceled: Vec<(String, String)>,
}

/// Maps the cancel answer: any success status yields the reported ids;
/// a rejecting status follows the uniform table.
pub fn decode_cancel_response(
    status: u16,
    retry_after: Option<u64>,
    canceled: Vec<String>,
    not_canceled: Vec<(String, String)>,
) -> (r: Result<CancelOutcome, ClobError>)
    ensures
        r is Ok <==> 200 <= status < 300,
        r matches Ok(o) ==> o.canceled == canceled && o.not_canceled == not_canceled,
        !(200 <= status < 300) ==> (r matches Err(e) && status_maps_to(status, retry_after, e)),
{
    match map_status(status, retry_after) {
        Some(e) => Err(e),
        None => Ok(CancelOutcome { canceled, not_canceled }),
    }
}

/// One listed order.
#[derive(Clone, Debug)]
pub struct OrderRecord {
    pub id: String,
    pub status: String,
    pub token_id: String,
}

/// One page of the order listing; an absent marker signals the final page.
#[derive(Clone, Debug)]
pub struct OrdersPage {
    pub orders: Vec<OrderRecord>,
    pub next_marker: Option<String>,
}

/// Maps the listing answer: a success status yields the page as sent;
/// a rejecting status follows the uniform table.
pub fn decode_orders_response(
    status: u16,
    retry_after: Option<u64>,
    orders: Vec<OrderRecord>,
    next_marker: Option<String>,
) -> (r: Result<OrdersPage, ClobError>)
    ensures
        r is Ok <==> 200 <= status < 300,
        r matches Ok(p) ==> p.orders == orders && p.next_marker == next_marker,
        !(200 <= status < 300) ==> (r matches Err(e) && status_maps_to(status, retry_after, e)),
{
    match map_status(status, retry_after) {
        Some(e) => Err(e),
        None => Ok(OrdersPage { orders, next_marker }),
    }
}

/// A balance/allowance snapshot.
#[derive(Clone, Debug)]
pub struct BalanceSnapshot {
    pub balance: u64,
    pub allowance: u64,
}

/// Maps the balance read's answer: a success status with both fields
/// yields the snapshot, a success status with one missing is malformed,
/// and a rejecting status follows the uniform table.
pub fn decode_balance_allowance_response(
    status: u16,
    retry_after: Option<u64>,
    balance: Option<u64>,
    allowance: Option<u64>,
) -> (r: Result<BalanceSnapshot, ClobError>)
    ensures
        r is Ok <==> 200 <= status < 300 && balance is Some && allowance is Some,
        r matches Ok(s) ==> s.balance == balance.unwrap() && s.allowance == allowance.unwrap(),
        200 <= status < 300 && !(balance is Some && allowance is Some) ==> (r matches Err(e)
            && e is MalformedResponse),
        !(200 <= status < 300) ==> (r matches Err(e) && status_maps_to(status, retry_after, e)),
{
    match map_status(status, retry_after) {
        Some(e) => Err(e),
        None => match (balance, allowance) {
            (Some(b), Some(a)) => Ok(BalanceSnapshot { balance: b, allowance: a }),
            _ => Err(ClobError::MalformedResponse),
        },
    }
}

/// Maps the balance update's answer: the update returns nothing, so a
/// success status is bare success and anything else follows the uniform
/// table. Observing the written value takes a following read.
pub fn decode_update_response(status: u16, retry_after: Option<u64>) -> (r: Result<(), ClobError>)
    ensures
        r is Ok <==> 200 <= status < 300,
        !(200 <= status < 300) ==> (r matches Err(e) && status_maps_to(status, retry_after, e)),
{
    match map_status(status, retry_after) {
        Some(e) => Err(e),
        None => Ok(()),
    }
}

/// Drives the paginated order listing: threads the opaque continuation
/// marker from page to page and records when the final page (one without
/// a marker) has arrived, at which point no further fetch is due.
#[derive(Clone, Debug)]
pub struct Paginator {
    /// The marker to send with the next request.
    pub next_marker: Option<String>,
    /// True once a page without a continuation marker arrived.
    pub done: bool,
}

impl Paginator {
    /// A listing about to fetch its first page.
    pub fn new() -> (r: Paginator)
        ensures
            r.next_marker is None,
            !r.done,
    {
        Paginator { next_marker: None, done: false }
    }

    /// Whether another page is due; false exactly once the final page has
    /// been absorbed, so a driver looping on this terminates as soon as a
    /// page returns no marker.
    pub fn should_fetch(&self) -> (r: bool)
        ensures
            r == !self.done,
    {
        !self.done
    }

    /// Absorbs one decoded page: hands its orders out, keeps its marker
    /// for the next request, and finishes the listing when the page
    /// carried none.
    pub fn absorb(&mut self, page: OrdersPage) -> (r: Vec<OrderRecord>)
        requires
            !old(self).done,
        ensures
            final(self).done == (page.next_marker is None),
            final(self).next_marker == page.next_marker,
            r == page.orders,
    {
        self.done = page.next_marker.is_none();
        self.next_marker = page.next_marker;
        page.orders
    }
}

} // verus!
