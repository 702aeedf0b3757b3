use candid::Principal;
use decade_backend::category::{CategoryResult, SimpleInput};
use decade_backend::error::Error;
use decade_backend::filter::SearchFilter;
use decade_backend::poll::Poll;
use decade_backend::store::PollStore;

fn simple(title: &str, description: &str) -> SimpleInput {
    SimpleInput { title: title.to_string(), description: description.to_string() }
}

fn poll(id: u64, category: u64) -> Poll {
    Poll::new(id, simple("t", "d"), category, 10, 10, Principal::anonymous())
}

#[test]
fn categories_get_increasing_ids() {
    let mut store = PollStore::new();
    let a = store.add_category(simple("Tech", "Technology")).unwrap();
    let b = store.add_category(simple("Food", "Eating")).unwrap();
    assert_eq!(a, CategoryResult { category: simple("Tech", "Technology"), id: 0 });
    assert_eq!(b, CategoryResult { category: simple("Food", "Eating"), id: 1 });
    assert_eq!(store.next_category_id(), 2);
    assert_eq!(store.next_poll_id(), 0);
}

#[test]
fn category_lookup() {
    let mut store = PollStore::new();
    for i in 0..10 {
        store.add_category(simple(&format!("c{i}"), "d")).unwrap();
    }
    for i in 0..10u64 {
        let found = store.get_category(i).unwrap();
        assert_eq!(found.id, i);
        assert_eq!(found.category.title, format!("c{i}"));
    }
    assert_eq!(store.get_category(10), Err(Error::NotFound));
    assert_eq!(store.get_category(u64::MAX), Err(Error::NotFound));
}

#[test]
fn category_lookup_in_empty_store() {
    let store = PollStore::new();
    assert_eq!(store.get_category(0), Err(Error::NotFound));
    assert_eq!(store.get_categories(), vec![]);
}

#[test]
fn categories_are_listed_in_id_order() {
    let mut store = PollStore::new();
    store.add_category(simple("b", "1")).unwrap();
    store.add_category(simple("a", "2")).unwrap();
    store.add_category(simple("c", "3")).unwrap();
    let all = store.get_categories();
    let ids: Vec<u64> = all.iter().map(|c| c.id).collect();
    let titles: Vec<&str> = all.iter().map(|c| c.category.title.as_str()).collect();
    assert_eq!(ids, vec![0, 1, 2]);
    assert_eq!(titles, vec!["b", "a", "c"]);
}

#[test]
fn categories_run_out_at_the_last_id() {
    let mut store = PollStore::restore(vec![], u64::MAX - 1, vec![], 0).unwrap();
    let last = store.add_category(simple("last", "d")).unwrap();
    assert_eq!(last.id, u64::MAX - 1);
    assert_eq!(store.add_category(simple("none", "d")), None);
    assert_eq!(store.next_category_id(), u64::MAX);
    assert_eq!(store.get_categories().len(), 1);
}

#[test]
fn restore_takes_a_sound_state() {
    let categories = vec![
        CategoryResult { category: simple("a", "d"), id: 2 },
        CategoryResult { category: simple("b", "d"), id: 5 },
    ];
    let polls = vec![poll(1, 5), poll(4, 2), poll(9, 5)];
    let mut store = PollStore::restore(categories, 6, polls, 10).unwrap();
    assert_eq!(store.next_category_id(), 6);
    assert_eq!(store.next_poll_id(), 10);
    assert_eq!(store.get_category(5).unwrap().category.title, "b");
    assert_eq!(store.get_category(3), Err(Error::NotFound));
    assert_eq!(store.get_poll(4).unwrap().category, 2);
    assert_eq!(store.get_poll(5), None);
    let ids: Vec<u64> = store.get_polls(&SearchFilter::default()).iter().map(|p| p.id).collect();
    assert_eq!(ids, vec![1, 4, 9]);
    let made = store.create_poll(simple("n", "d"), 2, 1, 1, Principal::anonymous()).unwrap();
    assert_eq!(made.id, 10);
    assert_eq!(store.add_category(simple("c", "d")).unwrap().id, 6);
}

#[test]
fn restore_turns_down_unsound_states() {
    let category = |id: u64| CategoryResult { category: simple("a", "d"), id };
    // identifiers out of order, or twice
    assert!(PollStore::restore(vec![category(1), category(0)], 5, vec![], 0).is_none());
    assert!(PollStore::restore(vec![category(1), category(1)], 5, vec![], 0).is_none());
    assert!(PollStore::restore(vec![category(0)], 5, vec![poll(3, 0), poll(2, 0)], 9).is_none());
    assert!(PollStore::restore(vec![category(0)], 5, vec![poll(3, 0), poll(3, 0)], 9).is_none());
    // an identifier that could be issued again
    assert!(PollStore::restore(vec![category(5)], 5, vec![], 0).is_none());
    assert!(PollStore::restore(vec![category(0)], 5, vec![poll(9, 0)], 9).is_none());
    // a poll in a category that does not exist
    assert!(PollStore::restore(vec![category(0)], 5, vec![poll(1, 1)], 9).is_none());
    // a poll with an unsound ledger
    let mut unsound = poll(1, 0);
    unsound.votes = 3;
    assert!(PollStore::restore(vec![category(0)], 5, vec![unsound], 9).is_none());
    // and the same, sound
    assert!(PollStore::restore(vec![category(0)], 5, vec![poll(1, 0)], 9).is_some());
}

#[test]
fn allocator_issues_each_identifier_once() {
    let mut ids = decade_backend::allocator::IdAllocator::starting_at(0);
    assert_eq!(ids.peek(), 0);
    assert_eq!(ids.next_id(), 0);
    assert_eq!(ids.next_id(), 1);
    assert_eq!(ids.next_id(), 2);
    assert_eq!(ids.peek(), 3);
    assert!(!ids.is_exhausted());
}

#[test]
fn allocator_stops_before_the_last_number() {
    let mut ids = decade_backend::allocator::IdAllocator::starting_at(u64::MAX - 1);
    assert!(!ids.is_exhausted());
    assert_eq!(ids.next_id(), u64::MAX - 1);
    assert!(ids.is_exhausted());
    assert_eq!(ids.peek(), u64::MAX);
}
