use ebay_watcher::classifier::NotifEvent;
use ebay_watcher::errors::QueryFailure;
use ebay_watcher::item_summary::{ItemBidPrice, ItemPrice, ItemSeller, ItemSummary};
use ebay_watcher::poll::{PollPhase, PollState, QueryOutcome};
use ebay_watcher::store::SnapshotStore;

fn mk_item(item_id: &str, sale: Option<(&str, &str)>, bid: Option<(&str, &str)>) -> ItemSummary {
    ItemSummary {
        item_id: item_id.to_string(),
        title: "a listing".to_string(),
        item_web_url: "https://example.invalid/item".to_string(),
        price: sale.map(|(v, c)| ItemPrice { value: v.to_string(), currency: c.to_string() }),
        current_bid_price: bid.map(|(v, c)| ItemBidPrice {
            value: v.to_string(),
            currency: c.to_string(),
        }),
        condition: None,
        buying_options: vec!["FIXED_PRICE".to_string()],
        image: None,
        item_end_date: None,
        seller: ItemSeller {
            username: "seller".to_string(),
            feedback_percentage: "100.0".to_string(),
            feedback_score: 10,
        },
    }
}

#[test]
fn bootstrap_emits_nothing() {
    let mut state = PollState::start();
    assert!(matches!(state.phase, PollPhase::Bootstrapping));
    let outcomes = vec![
        QueryOutcome::Fetched(vec![
            mk_item("v1|1|0", Some(("10", "USD")), None),
            mk_item("v1|2|0", None, Some(("5", "USD"))),
        ]),
        QueryOutcome::Fetched(vec![mk_item("v1|3|0", None, None)]),
    ];
    let notes = state.run_cycle(&outcomes);
    assert!(notes.is_empty(), "the warm-up cycle must not notify");
    assert_eq!(state.store.len(), 3, "the warm-up cycle must still populate the store");
    assert!(matches!(state.phase, PollPhase::Cycling));

    let outcomes2 = vec![QueryOutcome::Fetched(vec![mk_item(
        "v1|1|0",
        Some(("12", "USD")),
        None,
    )])];
    let notes2 = state.run_cycle(&outcomes2);
    assert_eq!(notes2.len(), 1, "after the warm-up, changes are notified");
    assert!(matches!(notes2[0].event, NotifEvent::Updated));
}

#[test]
fn partial_failure_keeps_cycle_alive() {
    let mut state = PollState::resume(SnapshotStore::new());
    let outcomes = vec![
        QueryOutcome::Failed(QueryFailure::Http {
            status: 500,
            body: "upstream broke".to_string(),
        }),
        QueryOutcome::Fetched(vec![mk_item("v1|9|0", Some(("42", "EUR")), None)]),
    ];
    let notes = state.run_cycle(&outcomes);
    assert_eq!(notes.len(), 1, "the healthy query must still be classified and notified");
    assert!(matches!(notes[0].event, NotifEvent::Created));
    assert_eq!(state.store.len(), 1);
    assert!(matches!(state.phase, PollPhase::Cycling), "the cycle completes despite the failure");
}

#[test]
fn decode_failure_is_scoped_to_its_query() {
    let mut state = PollState::resume(SnapshotStore::new());
    let outcomes = vec![
        QueryOutcome::Fetched(vec![mk_item("v1|4|0", Some(("8", "USD")), None)]),
        QueryOutcome::Failed(QueryFailure::Decode { message: "bad body".to_string() }),
    ];
    let notes = state.run_cycle(&outcomes);
    assert_eq!(notes.len(), 1);
    assert_eq!(state.store.len(), 1);
}

#[test]
fn stop_halts_the_loop() {
    let mut state = PollState::start();
    state.run_cycle(&vec![]);
    state.stop();
    assert!(matches!(state.phase, PollPhase::Stopped));
}
