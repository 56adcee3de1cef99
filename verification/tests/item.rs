use ebay_watcher::fetcher::{bearer_header, search_url};
use ebay_watcher::item_summary::{ItemSeller, ItemSummary};
use ebay_watcher::text::clip_chars;

fn mk_item(item_id: &str, buying_options: Vec<&str>) -> ItemSummary {
    ItemSummary {
        item_id: item_id.to_string(),
        title: "a listing".to_string(),
        item_web_url: "https://example.invalid/item".to_string(),
        price: None,
        current_bid_price: None,
        condition: None,
        buying_options: buying_options.into_iter().map(|o| o.to_string()).collect(),
        image: None,
        item_end_date: None,
        seller: ItemSeller {
            username: "seller".to_string(),
            feedback_percentage: "100.0".to_string(),
            feedback_score: 10,
        },
    }
}

#[test]
fn id_extraction() {
    assert_eq!(mk_item("v1|123456|0", vec![]).id(), Some("123456"));
    assert_eq!(mk_item("a|b", vec![]).id(), Some("b"));
    assert_eq!(mk_item("no-separator", vec![]).id(), None);
    assert_eq!(mk_item("v1|", vec![]).id(), Some(""));
    assert_eq!(mk_item("||x", vec![]).id(), Some(""));
    assert_eq!(mk_item("", vec![]).id(), None);
}

#[test]
fn auction_detection() {
    assert!(mk_item("v1|1|0", vec!["AUCTION"]).is_auction());
    assert!(mk_item("v1|1|0", vec!["FIXED_PRICE", "AUCTION"]).is_auction());
    assert!(!mk_item("v1|1|0", vec!["FIXED_PRICE"]).is_auction());
    assert!(!mk_item("v1|1|0", vec![]).is_auction());
}

#[test]
fn buying_option_display() {
    let item = mk_item("v1|1|0", vec!["FIXED_PRICE", "AUCTION", "BEST_OFFER", "ODDITY"]);
    assert_eq!(item.buying_options(), vec!["BIN", "BID", "OFFER", "ODDITY"]);
}

#[test]
fn end_date_timestamp() {
    let mut item = mk_item("v1|1|0", vec![]);
    assert_eq!(item.end_timestamp(), None, "no end date, no timestamp");
    item.item_end_date = Some("1970-01-02T00:00:00Z".to_string());
    assert_eq!(item.end_timestamp(), Some(86400));
    item.item_end_date = Some("2024-05-01T00:00:00Z".to_string());
    assert_eq!(item.end_timestamp(), Some(1714521600));
    item.item_end_date = Some("not a date".to_string());
    assert_eq!(item.end_timestamp(), None);
}

#[test]
fn request_lines() {
    assert_eq!(
        search_url("nvidia"),
        "https://api.ebay.com/buy/browse/v1/item_summary/search?q=nvidia&limit=200&sort=newlyListed"
    );
    assert_eq!(bearer_header("tok"), "Bearer tok");
}

#[test]
fn clipping_queries() {
    assert_eq!(clip_chars("abcdef", 3), "abc");
    assert_eq!(clip_chars("ab", 3), "ab");
    assert_eq!(clip_chars("abc", 3), "abc");
}

#[test]
fn cloning_keeps_the_record() {
    let mut item = mk_item("v1|1|0", vec!["AUCTION"]);
    item.item_end_date = Some("2024-05-01T00:00:00Z".to_string());
    let copy = item.clone();
    assert_eq!(copy.item_id, item.item_id);
    assert_eq!(copy.buying_options, item.buying_options);
    assert_eq!(copy.item_end_date, item.item_end_date);
    assert_eq!(copy.seller.username, item.seller.username);
}
