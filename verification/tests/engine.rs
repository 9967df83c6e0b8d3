//! The pagination engine driven against scripted page responses.
use camper::client::{Collection, ListQuery, ResourceKind, Wishlist};
use camper::item::{QueryItem, QueryResponseData};
use camper::request::{utc_now_token, QueryBuilder};

fn item(album_id: u32, band: &str, title: &str) -> QueryItem {
    QueryItem {
        added: 1_136_239_445,
        band_name: band.to_string(),
        album_id,
        album_title: title.to_string(),
    }
}

fn page(items: Vec<QueryItem>, last_token: &str, more_available: bool) -> QueryResponseData {
    QueryResponseData {
        items,
        last_token: last_token.to_string(),
        more_available,
    }
}

#[test]
fn first_token_is_current_time() {
    let token = utc_now_token();
    let now: i64 = chrono::Utc::now().timestamp();
    let digits = token.strip_suffix(":0:a::").expect("token must end in :0:a::");
    let stamp: i64 = digits.parse().expect("token must start with an integer");
    assert!((stamp - now).abs() <= 5, "token {} not near now {}", token, now);
}

#[test]
fn first_token_exact_for_fixed_time() {
    let q = ListQuery::new(ResourceKind::Collection, 42, "cred", 1_136_239_445);
    let request = q.next_request();
    assert_eq!(request.token, "1136239445:0:a::");
    assert_eq!(request.fan_id, 42);
}

#[test]
fn cursor_propagates_from_each_response() {
    let mut q = ListQuery::new(ResourceKind::Collection, 42, "cred", 0);
    assert_eq!(q.next_request().token, "0:0:a::");
    q.apply_page(page(vec![], "middle-token", true));
    assert_eq!(q.next_request().token, "middle-token");
    q.apply_page(page(vec![], "final-token", false));
    assert_eq!(q.next_request().token, "final-token");
}

#[test]
fn page_size_is_constant() {
    let mut q = ListQuery::new(ResourceKind::Wishlist, 7, "cred", 0);
    for n in 0..6 {
        assert_eq!(q.next_request().count, 20);
        let token = format!("t{}", n);
        q.apply_page(page(vec![item(n, "b", "t")], &token, true));
    }
    assert_eq!(q.next_request().count, 20);
}

#[test]
fn two_page_scenario_returns_concatenation() {
    let mut q = ListQuery::new(ResourceKind::Collection, 42, "cred", 0);
    let mut requests: u32 = 0;
    let script = vec![
        page(vec![item(1, "Band A", "Album A"), item(2, "Band B", "Album B")], "t1", true),
        page(vec![item(3, "Band C", "Album C")], "t2", false),
    ];
    let mut script = script.into_iter();
    while !q.is_done() {
        let request = q.next_request();
        requests += 1;
        if requests == 2 {
            assert_eq!(request.token, "t1");
        }
        q.apply_page(script.next().expect("engine asked for more pages than scripted"));
    }
    assert_eq!(requests, 2);
    let items = q.into_items();
    let ids: Vec<u32> = items.iter().map(|i| i.album_id).collect();
    assert_eq!(ids, vec![1, 2, 3]);
    assert_eq!(items[0].album_title, "Album A");
    assert_eq!(items[2].band_name, "Band C");
}

#[test]
fn empty_collection_scenario() {
    let mut q = ListQuery::new(ResourceKind::Collection, 42, "cred", 0);
    let mut requests: u32 = 0;
    while !q.is_done() {
        let _ = q.next_request();
        requests += 1;
        q.apply_page(page(vec![], "t1", false));
    }
    assert_eq!(requests, 1);
    assert!(q.into_items().is_empty());
}

#[test]
fn loop_follows_flag_not_emptiness() {
    // A bounded harness: when every page says more is available, the engine
    // must still be requesting after many empty pages.
    let mut q = ListQuery::new(ResourceKind::Collection, 42, "cred", 0);
    for n in 0..25 {
        assert!(!q.is_done(), "engine stopped without the server's say-so");
        let _ = q.next_request();
        let token = format!("t{}", n);
        q.apply_page(page(vec![], &token, true));
    }
    assert!(!q.is_done());
}

#[test]
fn resource_kinds_hit_distinct_endpoints() {
    let collection = Collection::begin_list(42, "cred");
    let wishlist = Wishlist::begin_list(42, "cred");
    assert_eq!(
        collection.endpoint_url(),
        "https://bandcamp.com/api/fancollection/1/collection_items"
    );
    assert_eq!(
        wishlist.endpoint_url(),
        "https://bandcamp.com/api/fancollection/1/wishlist_items"
    );
    assert_ne!(collection.endpoint_url(), wishlist.endpoint_url());
}

#[test]
fn identity_credential_passes_through_untouched() {
    let mut q = ListQuery::new(ResourceKind::Collection, 42, "opaque session value", 0);
    q.apply_page(page(vec![], "t1", true));
    assert_eq!(q.identity, "opaque session value");
    assert_eq!(q.fan_id, 42);
    assert_eq!(q.kind, ResourceKind::Collection);
}

#[test]
fn builder_uses_given_token() {
    let request = QueryBuilder::new("https://example.invalid")
        .fan_id(42)
        .token("abc:0:a::")
        .build();
    assert_eq!(request.fan_id, 42);
    assert_eq!(request.token, "abc:0:a::");
    assert_eq!(request.count, 20);
}

#[test]
fn builder_defaults_to_time_token() {
    let now: i64 = chrono::Utc::now().timestamp();
    let request = QueryBuilder::new("https://example.invalid").fan_id(7).build();
    assert_eq!(request.count, 20);
    let digits = request.token.strip_suffix(":0:a::").expect("token must end in :0:a::");
    let stamp: i64 = digits.parse().expect("token must start with an integer");
    assert!((stamp - now).abs() <= 5);
}
