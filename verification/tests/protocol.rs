use sailor::grocery::protocol::Handshake;
use sailor::grocery::tnt::{TntPrice, TntPrices, TntProduct, TntSailor};
use sailor::grocery::{is_success, Extraction, PayloadFault, Phase, Reply, Request, SailError, Sailor};
use sailor::common::Decimal;

fn pair(key: &str, value: &str) -> (String, String) {
    (key.to_string(), value.to_string())
}

fn record(id: &str, old: u128, asked: u128) -> TntProduct {
    TntProduct {
        id: id.to_string(),
        sku: id.to_string(),
        name: id.to_string(),
        prices: TntPrices {
            old_price: TntPrice { amount: Decimal::new(old, 2) },
            final_price: TntPrice { amount: Decimal::new(asked, 2) },
        },
        weight_uom: String::new(),
        is_available: 1,
        is_saleable: 1,
    }
}

#[test]
fn location_is_cut_to_three_characters() {
    let handshake = TntSailor::new().get_sale_products("V6B 2K5".to_string());
    assert_eq!(
        *handshake.request(),
        Request {
            url: "https://www.tntsupermarket.com/rest/V1/tntzone/location/getpreferedstorecode"
                .to_string(),
            query: vec![pair("postcode", "V6B")],
        }
    );
}

#[test]
fn a_short_location_is_sent_whole() {
    for (given, sent) in [("", ""), ("V", "V"), ("V6", "V6"), ("V6B", "V6B"), ("V6B2", "V6B")] {
        let handshake = TntSailor::new().get_sale_products(given.to_string());
        assert_eq!(handshake.request().query, vec![pair("postcode", sent)]);
    }
}

#[test]
fn location_is_cut_by_characters_not_bytes() {
    let handshake = TntSailor::new().get_sale_products("日本語の郵便".to_string());
    assert_eq!(handshake.request().query, vec![pair("postcode", "日本語")]);
    let handshake = TntSailor::new().get_sale_products("é1ßz".to_string());
    assert_eq!(handshake.request().query, vec![pair("postcode", "é1ß")]);
}

#[test]
fn the_fetch_asks_for_the_first_page_at_the_default_size() {
    let fetch = TntSailor::new()
        .get_sale_products("V6B".to_string())
        .answered(Reply::Status(200))
        .unwrap();
    assert_eq!(
        *fetch.request(),
        Request {
            url: "https://www.tntsupermarket.com/rest/V1/xmapi/app-weekly-special".to_string(),
            query: vec![pair("page", "1"), pair("pageSize", "25")],
        }
    );
    assert_eq!(fetch.warning(), None);
}

#[test]
fn the_fetch_asks_for_the_page_size_that_was_set() {
    let sailor = TntSailor::builder().page_size(100).build();
    let fetch = sailor.get_sale_products("V6B".to_string()).answered(Reply::Status(204)).unwrap();
    assert_eq!(fetch.request().query, vec![pair("page", "1"), pair("pageSize", "100")]);
    let sailor = TntSailor::builder().page_size(0).build();
    let fetch = sailor.get_sale_products("V6B".to_string()).answered(Reply::Status(204)).unwrap();
    assert_eq!(fetch.request().query, vec![pair("page", "1"), pair("pageSize", "0")]);
}

#[test]
fn defaults_are_twenty_five_items_and_cookies_kept() {
    let sailor = TntSailor::new();
    assert_eq!(sailor.page_size(), 25);
    assert!(sailor.cookie_persistence());
    let sailor = TntSailor::default();
    assert_eq!(sailor.page_size(), 25);
    assert!(sailor.cookie_persistence());
    let sailor = TntSailor::builder().build();
    assert_eq!(sailor.page_size(), 25);
    assert!(sailor.cookie_persistence());
}

#[test]
fn the_builder_keeps_each_setting() {
    let sailor = TntSailor::builder().cookie_persistence(false).page_size(40).build();
    assert_eq!(sailor.page_size(), 40);
    assert!(!sailor.cookie_persistence());
    let sailor = TntSailor::builder().page_size(40).page_size(50).build();
    assert_eq!(sailor.page_size(), 50);
    assert!(sailor.cookie_persistence());
}

#[test]
fn a_refused_handshake_is_a_warning_and_the_fetch_goes_on() {
    let sailor = TntSailor::new();
    for status in [404u16, 500, 302, 199, 300, 0, u16::MAX] {
        let fetch = sailor
            .get_sale_products("V6B 2K5".to_string())
            .answered(Reply::Status(status))
            .unwrap();
        assert_eq!(fetch.warning(), Some(status));
        let extract = fetch.answered(Reply::Status(200)).unwrap();
        let records = extract
            .extracted(Extraction::Found(vec![record("a", 1000, 800), record("b", 300, 0)]))
            .unwrap();
        let products = sailor.normalize(records);
        assert_eq!(products.len(), 1);
        assert_eq!(products[0].vendor_id, "a");
        assert_eq!(products[0].vendor, "T&T");
    }
}

#[test]
fn an_accepted_handshake_leaves_no_warning() {
    for status in [200u16, 201, 204, 299] {
        let fetch = TntSailor::new()
            .get_sale_products("V6B".to_string())
            .answered(Reply::Status(status))
            .unwrap();
        assert_eq!(fetch.warning(), None);
    }
}

#[test]
fn a_handshake_that_cannot_be_sent_is_fatal() {
    let next = TntSailor::new().get_sale_products("V6B".to_string()).answered(Reply::Unsent);
    assert_eq!(next.unwrap_err(), SailError::Transport(Phase::Handshake));
}

#[test]
fn a_refused_fetch_is_fatal() {
    for status in [500u16, 404, 301, 199, 300, 0] {
        let fetch = TntSailor::new()
            .get_sale_products("V6B".to_string())
            .answered(Reply::Status(200))
            .unwrap();
        assert_eq!(fetch.answered(Reply::Status(status)).unwrap_err(), SailError::Upstream(status));
    }
}

#[test]
fn a_fetch_that_cannot_be_sent_is_fatal() {
    let fetch = TntSailor::new()
        .get_sale_products("V6B".to_string())
        .answered(Reply::Status(200))
        .unwrap();
    assert_eq!(fetch.answered(Reply::Unsent).unwrap_err(), SailError::Transport(Phase::Fetch));
}

#[test]
fn the_items_are_looked_for_at_the_vendors_path() {
    let extract = TntSailor::new()
        .get_sale_products("V6B".to_string())
        .answered(Reply::Status(500))
        .unwrap()
        .answered(Reply::Status(200))
        .unwrap();
    assert_eq!(extract.items_path(), "data.category.items");
}

fn extract_step() -> sailor::grocery::protocol::Extract {
    TntSailor::new()
        .get_sale_products("V6B".to_string())
        .answered(Reply::Status(200))
        .unwrap()
        .answered(Reply::Status(200))
        .unwrap()
}

#[test]
fn each_fault_of_the_payload_has_its_error() {
    assert_eq!(
        extract_step().extracted(Extraction::<TntProduct>::Missing).unwrap_err(),
        SailError::Payload(PayloadFault::ContainerMissing)
    );
    assert_eq!(
        extract_step().extracted(Extraction::<TntProduct>::Malformed).unwrap_err(),
        SailError::Payload(PayloadFault::ItemMalformed)
    );
    assert_eq!(
        extract_step().extracted(Extraction::<TntProduct>::Unreadable).unwrap_err(),
        SailError::Payload(PayloadFault::Unreadable)
    );
}

#[test]
fn found_records_are_handed_on_unchanged() {
    let records = extract_step()
        .extracted(Extraction::Found(vec![record("a", 1, 1), record("b", 2, 0)]))
        .unwrap();
    let ids: Vec<&str> = records.iter().map(|record| record.id.as_str()).collect();
    assert_eq!(ids, vec!["a", "b"]);
    let none = extract_step().extracted(Extraction::<TntProduct>::Found(Vec::new())).unwrap();
    assert!(none.is_empty());
}

#[test]
fn a_plan_of_ones_own_runs_through_the_same_steps() {
    let first = Request { url: "http://vendor/where".to_string(), query: vec![pair("at", "here")] };
    let second = Request { url: "http://vendor/list".to_string(), query: Vec::new() };
    let handshake = Handshake::new(first.clone(), second.clone(), "items".to_string());
    assert_eq!(*handshake.request(), first);
    let fetch = handshake.answered(Reply::Status(503)).unwrap();
    assert_eq!(*fetch.request(), second);
    assert_eq!(fetch.warning(), Some(503));
    let extract = fetch.answered(Reply::Status(200)).unwrap();
    assert_eq!(extract.items_path(), "items");
}

#[test]
fn success_is_a_status_from_200_to_299() {
    assert!(!is_success(0));
    assert!(!is_success(199));
    assert!(is_success(200));
    assert!(is_success(250));
    assert!(is_success(299));
    assert!(!is_success(300));
    assert!(!is_success(u16::MAX));
}

#[test]
fn each_error_says_what_failed() {
    assert_eq!(SailError::Transport(Phase::Handshake).describe(), "failed to send request");
    assert_eq!(SailError::Transport(Phase::Fetch).describe(), "failed to send request");
    assert_eq!(SailError::Upstream(503).describe(), "bad response");
    assert_eq!(SailError::Payload(PayloadFault::Unreadable).describe(), "failed to parse response");
    assert_eq!(
        SailError::Payload(PayloadFault::ItemMalformed).describe(),
        "failed to parse response items"
    );
    assert_eq!(
        SailError::Payload(PayloadFault::ContainerMissing).describe(),
        "missing response items"
    );
}
