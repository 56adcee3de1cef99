use ebay_watcher::classifier::{classify, count_events, observe, process_items, NotifEvent};
use ebay_watcher::item_summary::{ItemBidPrice, ItemPrice, ItemSeller, ItemSummary};
use ebay_watcher::store::SnapshotStore;

fn mk_item(item_id: &str, sale: Option<(&str, &str)>, bid: Option<(&str, &str)>) -> ItemSummary {
    ItemSummary {
        item_id: item_id.to_string(),
        title: "a listing".to_string(),
        item_web_url: "https://example.invalid/item".to_string(),
        price: sale.map(|(v, c)| ItemPrice { value: v.to_string(), currency: c.to_string() }),
        current_bid_price: bid.map(|(v, c)| ItemBidPrice {
            value: v.to_string(),
            currency: c.to_string(),
        }),
        condition: Some("Used".to_string()),
        buying_options: vec!["FIXED_PRICE".to_string()],
        image: None,
        item_end_date: None,
        seller: ItemSeller {
            username: "seller".to_string(),
            feedback_percentage: "100.0".to_string(),
            feedback_score: 10,
        },
    }
}

#[test]
fn price_change_scenario() {
    let mut store = SnapshotStore::new();

    let first = mk_item("v1|777|0", Some(("100", "USD")), None);
    let n1 = observe(&mut store, &first).expect("first sighting must notify");
    assert!(matches!(n1.event, NotifEvent::Created));
    assert!(n1.previous.is_none());

    let second = mk_item("v1|777|0", Some(("90", "USD")), None);
    let n2 = observe(&mut store, &second).expect("a price change must notify");
    assert!(matches!(n2.event, NotifEvent::Updated));
    let prev = n2.previous.expect("an update must carry the previous record");
    assert_eq!(prev.price.as_ref().unwrap().value, "100");
    assert_eq!(prev.price.as_ref().unwrap().currency, "USD");
    assert_eq!(n2.item.price.as_ref().unwrap().value, "90");
    assert_eq!(n2.item.price.as_ref().unwrap().currency, "USD");

    let third = mk_item("v1|777|0", Some(("90", "USD")), None);
    assert!(observe(&mut store, &third).is_none(), "an unchanged price must stay silent");
}

#[test]
fn new_item_lands_in_store() {
    let mut store = SnapshotStore::new();
    let item = mk_item("v1|1|0", Some(("10", "USD")), None);
    assert!(matches!(classify(&store, &item), NotifEvent::Created));
    let n = observe(&mut store, &item).unwrap();
    assert!(matches!(n.event, NotifEvent::Created));
    assert_eq!(store.len(), 1);
    let stored = store.get("1").expect("the new item must be stored");
    assert_eq!(stored.item_id, "v1|1|0");
}

#[test]
fn unchanged_price_refreshes_record() {
    let mut store = SnapshotStore::new();
    observe(&mut store, &mk_item("v1|5|0", Some(("7", "USD")), None));
    let mut drifted = mk_item("v1|5|0", Some(("7", "USD")), None);
    drifted.title = "same listing, new title".to_string();
    assert!(matches!(classify(&store, &drifted), NotifEvent::Unchanged));
    assert!(observe(&mut store, &drifted).is_none(), "title drift is not an update");
    let stored = store.get("5").unwrap();
    assert_eq!(stored.title, "same listing, new title", "the stored record is still refreshed");
}

#[test]
fn bid_price_counts_as_fingerprint() {
    let mut store = SnapshotStore::new();
    observe(&mut store, &mk_item("v1|8|0", Some(("7", "USD")), Some(("3", "USD"))));
    let bid_up = mk_item("v1|8|0", Some(("7", "USD")), Some(("4", "USD")));
    assert!(matches!(classify(&store, &bid_up), NotifEvent::Updated));
    let n = observe(&mut store, &bid_up).unwrap();
    assert!(matches!(n.event, NotifEvent::Updated));
    assert_eq!(n.previous.unwrap().current_bid_price.unwrap().value, "3");
}

#[test]
fn appearing_price_is_an_update() {
    let mut store = SnapshotStore::new();
    observe(&mut store, &mk_item("v1|9|0", None, None));
    let with_price = mk_item("v1|9|0", Some(("5", "USD")), None);
    assert!(matches!(classify(&store, &with_price), NotifEvent::Updated));
}

#[test]
fn unusable_id_is_skipped() {
    let mut store = SnapshotStore::new();
    assert!(observe(&mut store, &mk_item("no-separator", Some(("1", "USD")), None)).is_none());
    assert!(observe(&mut store, &mk_item("v1|", Some(("1", "USD")), None)).is_none());
    assert_eq!(store.len(), 0, "items without a usable id are never stored");
}

#[test]
fn batch_processing_and_counts() {
    let mut store = SnapshotStore::new();
    let batch = vec![
        mk_item("v1|1|0", Some(("10", "USD")), None),
        mk_item("v1|2|0", Some(("20", "USD")), None),
    ];
    let notes = process_items(&mut store, &batch);
    assert_eq!(notes.len(), 2);
    assert_eq!(count_events(&notes), (2, 0));

    let batch2 = vec![
        mk_item("v1|1|0", Some(("11", "USD")), None),
        mk_item("v1|2|0", Some(("20", "USD")), None),
        mk_item("v1|3|0", Some(("30", "USD")), None),
    ];
    let notes2 = process_items(&mut store, &batch2);
    assert_eq!(count_events(&notes2), (1, 1));
    assert_eq!(store.len(), 3);
}

#[test]
fn rerunning_a_batch_is_silent() {
    let mut store = SnapshotStore::new();
    let batch = vec![
        mk_item("v1|1|0", Some(("10", "USD")), None),
        mk_item("v1|2|0", None, Some(("2", "EUR"))),
    ];
    let first = process_items(&mut store, &batch);
    assert_eq!(first.len(), 2);
    let again = process_items(&mut store, &batch);
    assert!(again.is_empty(), "re-running the same unchanged batch must emit nothing");
}
