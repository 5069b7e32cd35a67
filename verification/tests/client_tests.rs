use std::collections::HashMap;

use clob_client::auth::ApiCredentials;
use clob_client::client::{decode_balance_allowance_response, decode_cancel_response,
    decode_orders_response, decode_post_order_response, decode_update_response, map_status,
    AssetType, BalanceAllowanceQuery, BalanceRequest, CancelScope, Client, ClientConfig,
    OrderRecord, OrdersPage, Paginator};
use clob_client::errors::{ClobError, OrderField};
use clob_client::gamma::{ListTeamsRequest, RelatedTagsByIdRequest, RelatedTagsBySlugRequest,
    RelatedTagsStatus, Sport, SportsMarketTypesResponse, Tag, TagRelationship, TagsRequest};
use clob_client::order::{OrderBuilder, Side, SignatureType};
use clob_client::signer::Signer;

fn config() -> ClientConfig {
    ClientConfig {
        host: "example.org".to_string(),
        chain_id: 137,
        verifying_contract: vec![0xCCu8; 20],
        domain_version: b"1".to_vec(),
        signature_type: SignatureType::Eoa,
        funder: None,
        timeout_ms: 10_000,
    }
}

fn credentials() -> ApiCredentials {
    ApiCredentials {
        key: "key".to_string(),
        secret: "secret".to_string(),
        passphrase: "phrase".to_string(),
    }
}

fn authenticated_client() -> Client {
    Client::new(config()).complete_authentication(credentials(), vec![0xABu8; 20])
}

fn test_key() -> Vec<u8> {
    let mut k = vec![0u8; 32];
    k[31] = 1;
    k
}

fn signed_order(client: &Client) -> clob_client::signer::SignedOrder {
    let signer = Signer::from_key_bytes(test_key()).unwrap();
    let builder = OrderBuilder::new("123".to_string(), Side::Buy, 550_000, 10_000_000);
    client.create_signed_order(&builder, &signer).expect("valid order signs")
}

#[test]
fn unauthenticated_operations_fail_before_transport() {
    let client = Client::new(config());
    assert!(matches!(client.require_auth().unwrap_err(), ClobError::NotAuthenticated));
    assert!(matches!(client.address().unwrap_err(), ClobError::NotAuthenticated));
    assert!(matches!(
        client.cancel_order_request("o1".to_string()).unwrap_err(),
        ClobError::NotAuthenticated
    ));
    assert!(matches!(client.cancel_all_request().unwrap_err(), ClobError::NotAuthenticated));
    assert!(matches!(client.orders_request(None).unwrap_err(), ClobError::NotAuthenticated));
    let q = BalanceAllowanceQuery { asset_type: AssetType::Collateral, token_id: None };
    assert!(matches!(
        client.balance_allowance_request(q.clone()).unwrap_err(),
        ClobError::NotAuthenticated
    ));
    assert!(matches!(
        client.update_balance_allowance_request(q).unwrap_err(),
        ClobError::NotAuthenticated
    ));
    assert!(matches!(
        client.order_book_request("123".to_string()).unwrap_err(),
        ClobError::NotAuthenticated
    ));
    let builder = OrderBuilder::new("123".to_string(), Side::Buy, 550_000, 10_000_000);
    assert!(matches!(client.build_order(&builder).unwrap_err(), ClobError::NotAuthenticated));
}

#[test]
fn authenticated_operations_succeed() {
    let client = authenticated_client();
    assert_eq!(client.require_auth().unwrap().key, "key");
    assert_eq!(client.address().unwrap(), &vec![0xABu8; 20]);
    assert!(client.cancel_all_request().is_ok());
    assert!(client.orders_request(Some("m".to_string())).is_ok());
    assert!(client.order_book_request("123".to_string()).is_ok());
    let signed = signed_order(&client);
    let req = client.post_order_request(signed).unwrap();
    assert_eq!(req.order.order.token_id, "123");
}

#[test]
fn built_orders_get_fresh_salts() {
    let client = authenticated_client();
    let builder = OrderBuilder::new("123".to_string(), Side::Buy, 550_000, 10_000_000);
    let o1 = client.build_order(&builder).unwrap();
    let o2 = client.build_order(&builder).unwrap();
    assert_eq!(o1.salt.len(), 32);
    assert_eq!(o1.maker, vec![0xABu8; 20]);
    assert_eq!(o1.maker_amount, 5_500_000);
    // Two orders built without an explicit salt differ in salt.
    assert_ne!(o1.salt, o2.salt);
}

#[test]
fn build_order_reports_violations_through_the_client() {
    let client = authenticated_client();
    let builder = OrderBuilder::new(String::new(), Side::Buy, 0, 1);
    match client.build_order(&builder).unwrap_err() {
        ClobError::Validation(errs) => {
            let fields: Vec<OrderField> = errs.iter().map(|e| e.field).collect();
            assert_eq!(fields, vec![OrderField::TokenId, OrderField::Price]);
        },
        _ => panic!("expected a validation failure"),
    }
}

#[test]
fn status_mapping_follows_the_table() {
    assert!(map_status(200, None).is_none());
    assert!(map_status(204, None).is_none());
    assert!(matches!(map_status(400, None), Some(ClobError::Validation(_))));
    assert!(matches!(map_status(401, None), Some(ClobError::AuthExpired)));
    assert!(matches!(map_status(403, None), Some(ClobError::Forbidden)));
    assert!(matches!(map_status(429, Some(7)), Some(ClobError::RateLimited(Some(7)))));
    assert!(matches!(map_status(500, None), Some(ClobError::ServerError(500))));
    assert!(matches!(map_status(503, None), Some(ClobError::ServerError(503))));
    assert!(matches!(map_status(302, None), Some(ClobError::UnexpectedStatus(302))));
}

#[test]
fn retryability_follows_the_taxonomy() {
    assert!(ClobError::RateLimited(Some(1)).retryable());
    assert!(ClobError::ServerError(500).retryable());
    assert!(ClobError::Network.retryable());
    assert!(ClobError::Timeout.retryable());
    assert!(!ClobError::NotAuthenticated.retryable());
    assert!(!ClobError::AuthExpired.retryable());
    assert!(!ClobError::Validation(Vec::new()).retryable());
    assert!(!ClobError::Signing.retryable());
}

#[test]
fn post_order_mock_200_returns_the_order_id() {
    let client = authenticated_client();
    let signed = signed_order(&client);
    let _req = client.post_order_request(signed).unwrap();
    // The mock transport answers 200 with a payload naming the order.
    let outcome =
        decode_post_order_response(200, None, Some("ord-1".to_string()), Some("live".to_string()))
            .unwrap();
    assert_eq!(outcome.order_id, "ord-1");
    assert_eq!(outcome.status, "live");
    // Cancelling that id against a mock 200 succeeds.
    let creq = client.cancel_order_request(outcome.order_id.clone()).unwrap();
    match &creq.scope {
        CancelScope::One(id) => assert_eq!(id, "ord-1"),
        CancelScope::All => panic!("expected a single-order cancellation"),
    }
    let cout = decode_cancel_response(200, None, vec!["ord-1".to_string()], Vec::new()).unwrap();
    assert_eq!(cout.canceled, vec!["ord-1".to_string()]);
    assert!(cout.not_canceled.is_empty());
}

#[test]
fn post_order_malformed_success_is_reported() {
    let e = decode_post_order_response(200, None, None, Some("live".to_string())).unwrap_err();
    assert!(matches!(e, ClobError::MalformedResponse));
}

#[test]
fn post_order_rejections_map_to_typed_errors() {
    assert!(matches!(
        decode_post_order_response(429, Some(3), None, None).unwrap_err(),
        ClobError::RateLimited(Some(3))
    ));
    assert!(matches!(
        decode_post_order_response(500, None, None, None).unwrap_err(),
        ClobError::ServerError(500)
    ));
}

#[test]
fn cancelling_an_unknown_id_is_reported_not_fatal() {
    let out = decode_cancel_response(
        200,
        None,
        Vec::new(),
        vec![("ord-9".to_string(), "not found".to_string())],
    )
    .unwrap();
    assert!(out.canceled.is_empty());
    assert_eq!(out.not_canceled.len(), 1);
    assert_eq!(out.not_canceled[0].0, "ord-9");
}

#[test]
fn conditional_balance_query_needs_a_token() {
    let client = authenticated_client();
    let q = BalanceAllowanceQuery { asset_type: AssetType::Conditional, token_id: None };
    match client.balance_allowance_request(q).unwrap_err() {
        ClobError::Validation(errs) => {
            assert_eq!(errs.len(), 1);
            assert_eq!(errs[0].field, OrderField::TokenId);
        },
        _ => panic!("expected a validation failure"),
    }
    let q = BalanceAllowanceQuery {
        asset_type: AssetType::Conditional,
        token_id: Some("123".to_string()),
    };
    assert!(client.balance_allowance_request(q).is_ok());
}

/// An in-memory stand-in for the exchange's balance endpoints.
struct MockBalanceBackend {
    stored: HashMap<(u8, Option<String>), (u64, u64)>,
}

impl MockBalanceBackend {
    fn key(q: &BalanceAllowanceQuery) -> (u8, Option<String>) {
        let tag = match q.asset_type {
            AssetType::Collateral => 0u8,
            AssetType::Conditional => 1u8,
        };
        (tag, q.token_id.clone())
    }

    /// Serves a request: an update writes the pending value and returns
    /// nothing; a read answers with the stored snapshot.
    fn serve(&mut self, req: &BalanceRequest, pending: (u64, u64)) -> (u16, Option<u64>, Option<u64>) {
        if req.update {
            self.stored.insert(Self::key(&req.query), pending);
            (200, None, None)
        } else {
            match self.stored.get(&Self::key(&req.query)) {
                Some(&(b, a)) => (200, Some(b), Some(a)),
                None => (200, Some(0), Some(0)),
            }
        }
    }
}

#[test]
fn balance_update_then_read_round_trips() {
    let client = authenticated_client();
    let mut backend = MockBalanceBackend { stored: HashMap::new() };
    let q = BalanceAllowanceQuery {
        asset_type: AssetType::Conditional,
        token_id: Some("123".to_string()),
    };

    let update = client.update_balance_allowance_request(q.clone()).unwrap();
    assert!(update.update);
    let (status, _, _) = backend.serve(&update, (750, 900));
    decode_update_response(status, None).unwrap();

    let read = client.balance_allowance_request(q).unwrap();
    assert!(!read.update);
    let (status, balance, allowance) = backend.serve(&read, (0, 0));
    let snap = decode_balance_allowance_response(status, None, balance, allowance).unwrap();
    assert_eq!(snap.balance, 750);
    assert_eq!(snap.allowance, 900);
}

#[test]
fn balance_read_with_missing_field_is_malformed() {
    let e = decode_balance_allowance_response(200, None, Some(1), None).unwrap_err();
    assert!(matches!(e, ClobError::MalformedResponse));
}

fn record(id: &str) -> OrderRecord {
    OrderRecord { id: id.to_string(), status: "live".to_string(), token_id: "123".to_string() }
}

#[test]
fn pagination_chains_markers_and_terminates() {
    let client = authenticated_client();
    let pages = vec![
        OrdersPage {
            orders: vec![record("a"), record("b")],
            next_marker: Some("m2".to_string()),
        },
        OrdersPage { orders: vec![record("c")], next_marker: Some("m3".to_string()) },
        OrdersPage { orders: vec![record("d")], next_marker: None },
    ];
    let mut served: usize = 0;
    let mut pager = Paginator::new();
    let mut seen: Vec<String> = Vec::new();
    let mut fetches: usize = 0;
    while pager.should_fetch() {
        fetches += 1;
        assert!(fetches <= pages.len(), "the listing must stop at the final page");
        let req = client.orders_request(pager.next_marker.clone()).unwrap();
        // The mock serves pages in order and checks the chained marker.
        let expected_marker = match served {
            0 => None,
            1 => Some("m2".to_string()),
            _ => Some("m3".to_string()),
        };
        assert_eq!(req.marker, expected_marker);
        let page = decode_orders_response(
            200,
            None,
            pages[served].orders.clone(),
            pages[served].next_marker.clone(),
        )
        .unwrap();
        served += 1;
        for r in pager.absorb(page) {
            seen.push(r.id);
        }
    }
    assert_eq!(fetches, 3);
    assert_eq!(seen, vec!["a", "b", "c", "d"]);
    // No order id repeats across pages.
    let mut dedup = seen.clone();
    dedup.sort();
    dedup.dedup();
    assert_eq!(dedup.len(), seen.len());
}

#[test]
fn orders_rejection_maps_to_typed_error() {
    let e = decode_orders_response(401, None, Vec::new(), None).unwrap_err();
    assert!(matches!(e, ClobError::AuthExpired));
}

#[test]
fn gamma_records_construct_and_compare() {
    let req = ListTeamsRequest { limit: Some(10), ..Default::default() };
    assert_eq!(req.limit, Some(10));
    assert!(req.league.is_none());
    let tags = TagsRequest::default();
    assert!(tags.include_template.is_none());
    let sport = Sport {
        sport: "soccer".to_string(),
        image: String::new(),
        resolution: String::new(),
        ordering: String::new(),
        tags: String::new(),
        series: String::new(),
    };
    assert_eq!(sport.clone(), sport);
    let mt = SportsMarketTypesResponse { market_types: vec!["spread".to_string()] };
    assert_eq!(mt.market_types.len(), 1);
    let tag = Tag {
        id: "1".to_string(),
        label: None,
        slug: None,
        force_show: None,
        published_at: None,
        created_by: None,
        updated_by: None,
        created_at: Some(1_700_000_000),
        updated_at: None,
        force_hide: None,
        is_carousel: None,
    };
    assert_eq!(tag.created_at, Some(1_700_000_000));
    let rel = TagRelationship { id: "1".to_string(), tag_id: Some(2), related_tag_id: Some(3), rank: Some(4) };
    assert_eq!(rel.rank, Some(4));
    let by_id = RelatedTagsByIdRequest { id: 7, omit_empty: Some(true), status: Some(RelatedTagsStatus::Active) };
    assert!(matches!(by_id.status, Some(RelatedTagsStatus::Active)));
}

#[test]
fn order_book_request_rejects_an_empty_token() {
    let client = authenticated_client();
    match client.order_book_request(String::new()).unwrap_err() {
        ClobError::Validation(errs) => {
            assert_eq!(errs.len(), 1);
            assert_eq!(errs[0].field, OrderField::TokenId);
        },
        _ => panic!("expected a validation failure"),
    }
    let req = client.order_book_request("123".to_string()).unwrap();
    assert_eq!(req.token_id, "123");
}

#[test]
fn orders_response_success_keeps_the_marker() {
    let page = decode_orders_response(200, None, vec![record("x")], Some("m9".to_string())).unwrap();
    assert_eq!(page.next_marker.as_deref(), Some("m9"));
    assert_eq!(page.orders.len(), 1);
    let last = decode_orders_response(200, None, Vec::new(), None).unwrap();
    assert!(last.next_marker.is_none());
}

#[test]
fn related_tags_by_slug_request_constructs() {
    let r = RelatedTagsBySlugRequest {
        slug: "politics".to_string(),
        omit_empty: None,
        status: Some(RelatedTagsStatus::All),
    };
    assert_eq!(r.slug, "politics");
    assert!(matches!(r.status, Some(RelatedTagsStatus::All)));
}
