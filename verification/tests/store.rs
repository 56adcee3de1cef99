use ebay_watcher::item_summary::{ItemPrice, ItemSeller, ItemSummary};
use ebay_watcher::store::SnapshotStore;

fn mk_item(item_id: &str, price: &str) -> ItemSummary {
    ItemSummary {
        item_id: item_id.to_string(),
        title: "a listing".to_string(),
        item_web_url: "https://example.invalid/item".to_string(),
        price: Some(ItemPrice { value: price.to_string(), currency: "USD".to_string() }),
        current_bid_price: None,
        condition: None,
        buying_options: vec!["FIXED_PRICE".to_string()],
        image: None,
        item_end_date: None,
        seller: ItemSeller {
            username: "seller".to_string(),
            feedback_percentage: "100.0".to_string(),
            feedback_score: 10,
        },
    }
}

#[test]
fn empty_store_finds_nothing() {
    let store = SnapshotStore::new();
    assert_eq!(store.len(), 0);
    assert!(store.get("anything").is_none());
}

#[test]
fn keys_stay_unique() {
    let mut store = SnapshotStore::new();
    assert!(store.put("k".to_string(), mk_item("v1|k|0", "10")).is_none());
    assert_eq!(store.len(), 1);

    let prev = store.put("k".to_string(), mk_item("v1|k|0", "12"));
    assert_eq!(prev.unwrap().price.unwrap().value, "10", "overwriting hands the old record back");
    assert_eq!(store.len(), 1, "overwriting the same key adds no entry");

    let stored = store.get("k").expect("the key must still be there");
    assert_eq!(stored.price.as_ref().unwrap().value, "12");

    assert!(store.put("other".to_string(), mk_item("v1|other|0", "1")).is_none());
    assert_eq!(store.len(), 2);
}
