use candid::Principal;
use decade_backend::category::SimpleInput;
use decade_backend::filter::SearchFilter;
use decade_backend::identity::{copy_identities, is_listed};
use decade_backend::poll::Poll;
use decade_backend::store::PollStore;
use decade_backend::text::{any_word_within, text_matches};

fn simple(title: &str, description: &str) -> SimpleInput {
    SimpleInput { title: title.to_string(), description: description.to_string() }
}

fn voter(n: u8) -> Principal {
    Principal::from_slice(&[n])
}

/// Three polls: "Best Language" (2 votes), "Best Food" (0), "Worst Movie" (-1).
fn three_polls() -> PollStore {
    let mut store = PollStore::new();
    store.add_category(simple("General", "Anything")).unwrap();
    store.add_category(simple("Films", "Cinema")).unwrap();
    store.create_poll(simple("Best Language", "Which one do you write?"), 0, 100, 10, voter(1)).unwrap();
    store.create_poll(simple("Best Food", "What to EAT tonight"), 0, 200, 20, voter(2)).unwrap();
    store.create_poll(simple("Worst Movie", "Which one to avoid"), 1, 300, 30, voter(1)).unwrap();
    store.vote_poll(0, 1, 50, voter(1)).unwrap();
    store.vote_poll(0, 1, 50, voter(2)).unwrap();
    store.vote_poll(2, -1, 50, voter(3)).unwrap();
    store
}

fn titles(polls: &[Poll]) -> Vec<&str> {
    polls.iter().map(|p| p.title.as_str()).collect()
}

fn by_title(text: &str) -> SearchFilter {
    SearchFilter { title: Some(text.to_string()), ..SearchFilter::default() }
}

#[test]
fn filter_by_title_and_votes() {
    let store = three_polls();
    let found = store.get_polls(&by_title("best"));
    assert_eq!(titles(&found), vec!["Best Language", "Best Food"]);
    let found = store.get_polls(&SearchFilter { min_votes: Some(1), ..by_title("best") });
    assert_eq!(titles(&found), vec!["Best Language"]);
    assert_eq!(found[0], store.get_poll(0).unwrap());
}

#[test]
fn empty_filter_returns_every_poll_in_id_order() {
    let store = three_polls();
    let found = store.get_polls(&SearchFilter::default());
    assert_eq!(titles(&found), vec!["Best Language", "Best Food", "Worst Movie"]);
    assert_eq!(found[0].votes_vec, vec![voter(1), voter(2)]);
    assert_eq!(PollStore::new().get_polls(&SearchFilter::default()), vec![]);
}

#[test]
fn title_filter_ignores_case_on_both_sides() {
    let store = three_polls();
    assert_eq!(titles(&store.get_polls(&by_title("BEST"))), vec!["Best Language", "Best Food"]);
    assert_eq!(titles(&store.get_polls(&by_title("wOrSt"))), vec!["Worst Movie"]);
}

#[test]
fn title_filter_takes_any_of_its_words() {
    let store = three_polls();
    assert_eq!(titles(&store.get_polls(&by_title("food movie"))), vec!["Best Food", "Worst Movie"]);
    assert_eq!(
        titles(&store.get_polls(&by_title("  nothing\tLANG \n"))),
        vec!["Best Language"]
    );
    assert_eq!(titles(&store.get_polls(&by_title("zzz qqq"))), Vec::<&str>::new());
}

#[test]
fn title_filter_matches_inside_words() {
    let store = three_polls();
    assert_eq!(titles(&store.get_polls(&by_title("st"))), vec!["Best Language", "Best Food", "Worst Movie"]);
    assert_eq!(titles(&store.get_polls(&by_title("oo"))), vec!["Best Food"]);
    // the words of the filter are looked for one by one, never as a phrase
    assert_eq!(titles(&store.get_polls(&by_title("t L"))), vec!["Best Language", "Best Food", "Worst Movie"]);
}

#[test]
fn filter_text_without_a_word_accepts_nothing() {
    let store = three_polls();
    assert_eq!(store.get_polls(&by_title("")), vec![]);
    assert_eq!(store.get_polls(&by_title("  \t\n ")), vec![]);
}

#[test]
fn filter_by_description() {
    let store = three_polls();
    let filter = SearchFilter { description: Some("eat".to_string()), ..SearchFilter::default() };
    assert_eq!(titles(&store.get_polls(&filter)), vec!["Best Food"]);
    let filter = SearchFilter { description: Some("WHICH".to_string()), ..SearchFilter::default() };
    assert_eq!(titles(&store.get_polls(&filter)), vec!["Best Language", "Worst Movie"]);
    let filter = SearchFilter { description: Some("which".to_string()), ..by_title("movie") };
    assert_eq!(titles(&store.get_polls(&filter)), vec!["Worst Movie"]);
}

#[test]
fn filter_by_votes_includes_both_ends() {
    let store = three_polls();
    let filter = SearchFilter { min_votes: Some(0), max_votes: Some(2), ..SearchFilter::default() };
    assert_eq!(titles(&store.get_polls(&filter)), vec!["Best Language", "Best Food"]);
    let filter = SearchFilter { min_votes: Some(-1), max_votes: Some(0), ..SearchFilter::default() };
    assert_eq!(titles(&store.get_polls(&filter)), vec!["Best Food", "Worst Movie"]);
    let filter = SearchFilter { min_votes: Some(3), ..SearchFilter::default() };
    assert_eq!(store.get_polls(&filter), vec![]);
    let filter = SearchFilter { max_votes: Some(-2), ..SearchFilter::default() };
    assert_eq!(store.get_polls(&filter), vec![]);
    let filter = SearchFilter { min_votes: Some(1), max_votes: Some(0), ..SearchFilter::default() };
    assert_eq!(store.get_polls(&filter), vec![]);
}

#[test]
fn filter_by_maker_and_category() {
    let store = three_polls();
    let filter = SearchFilter { created_by: Some(voter(1)), ..SearchFilter::default() };
    assert_eq!(titles(&store.get_polls(&filter)), vec!["Best Language", "Worst Movie"]);
    let filter = SearchFilter { created_by: Some(voter(3)), ..SearchFilter::default() };
    assert_eq!(store.get_polls(&filter), vec![]);
    let filter = SearchFilter { category: Some(1), ..SearchFilter::default() };
    assert_eq!(titles(&store.get_polls(&filter)), vec!["Worst Movie"]);
    let filter = SearchFilter { category: Some(0), created_by: Some(voter(1)), ..SearchFilter::default() };
    assert_eq!(titles(&store.get_polls(&filter)), vec!["Best Language"]);
    let filter = SearchFilter { category: Some(2), ..SearchFilter::default() };
    assert_eq!(store.get_polls(&filter), vec![]);
}

#[test]
fn filter_by_creation_time_includes_both_ends() {
    let store = three_polls();
    let filter = SearchFilter { min_created_at: Some(20), ..SearchFilter::default() };
    assert_eq!(titles(&store.get_polls(&filter)), vec!["Best Food", "Worst Movie"]);
    let filter = SearchFilter { max_created_at: Some(20), ..SearchFilter::default() };
    assert_eq!(titles(&store.get_polls(&filter)), vec!["Best Language", "Best Food"]);
    let filter = SearchFilter {
        min_created_at: Some(20),
        max_created_at: Some(20),
        ..SearchFilter::default()
    };
    assert_eq!(titles(&store.get_polls(&filter)), vec!["Best Food"]);
    let filter = SearchFilter { min_created_at: Some(31), ..SearchFilter::default() };
    assert_eq!(store.get_polls(&filter), vec![]);
}

#[test]
fn filter_by_expiring_date_leaves_out_both_ends() {
    // the three polls expire at 110, 220 and 330
    let store = three_polls();
    let filter = SearchFilter { expiring_after: Some(220), ..SearchFilter::default() };
    assert_eq!(titles(&store.get_polls(&filter)), vec!["Worst Movie"]);
    let filter = SearchFilter { expiring_after: Some(219), ..SearchFilter::default() };
    assert_eq!(titles(&store.get_polls(&filter)), vec!["Best Food", "Worst Movie"]);
    let filter = SearchFilter { expiring_before: Some(220), ..SearchFilter::default() };
    assert_eq!(titles(&store.get_polls(&filter)), vec!["Best Language"]);
    let filter = SearchFilter { expiring_before: Some(221), ..SearchFilter::default() };
    assert_eq!(titles(&store.get_polls(&filter)), vec!["Best Language", "Best Food"]);
    let filter = SearchFilter {
        expiring_after: Some(110),
        expiring_before: Some(330),
        ..SearchFilter::default()
    };
    assert_eq!(titles(&store.get_polls(&filter)), vec!["Best Food"]);
}

#[test]
fn filter_with_every_criterion() {
    let store = three_polls();
    let filter = SearchFilter {
        title: Some("best worst".to_string()),
        min_votes: Some(0),
        max_votes: Some(0),
        created_by: Some(voter(2)),
        category: Some(0),
        min_created_at: Some(20),
        max_created_at: Some(20),
        expiring_before: Some(221),
        expiring_after: Some(219),
        description: Some("tonight".to_string()),
    };
    let found = store.get_polls(&filter);
    assert_eq!(titles(&found), vec!["Best Food"]);
    assert!(filter.matches(&found[0]));
    assert!(!filter.matches(&store.get_poll(0).unwrap()));
    assert!(!SearchFilter { max_votes: Some(-1), ..filter }.matches(&found[0]));
}

#[test]
fn listing_changes_nothing() {
    let store = three_polls();
    let before = store.get_polls(&SearchFilter::default());
    store.get_polls(&by_title("best"));
    assert_eq!(store.get_polls(&SearchFilter::default()), before);
}

#[test]
fn text_matching_lowers_both_texts() {
    assert!(text_matches("BEST", "the best of all"));
    assert!(text_matches("best", "THE BEST OF ALL"));
    assert!(text_matches("ÉTÉ", "un été chaud"));
    assert!(!text_matches("best", "the worst of all"));
    assert!(!text_matches("", "anything"));
    assert!(!text_matches("word", ""));
}

#[test]
fn text_matching_splits_at_white_space() {
    assert!(text_matches("alpha beta", "a beta b"));
    assert!(text_matches("alpha\u{a0}beta", "a beta b"));
    assert!(!text_matches("alpha beta", "alph bet"));
    assert!(!text_matches("a b", "   "));
}

#[test]
fn any_word_within_looks_for_substrings() {
    let words = vec!["xyz".to_string(), "ell".to_string()];
    assert!(any_word_within(&words, "hello"));
    assert!(!any_word_within(&words, "help"));
    assert!(!any_word_within(&words, "ELL"));
    assert!(!any_word_within(&[].to_vec(), "hello"));
    assert!(any_word_within(&vec!["".to_string()], "hello"));
    assert!(any_word_within(&vec!["hello".to_string()], "hello"));
    assert!(!any_word_within(&vec!["hello!".to_string()], "hello"));
}

#[test]
fn identities_are_compared_by_value() {
    let listed = vec![voter(1), Principal::anonymous(), Principal::management_canister()];
    assert!(is_listed(&listed, &voter(1)));
    assert!(is_listed(&listed, &Principal::from_slice(&[4])));
    assert!(is_listed(&listed, &Principal::from_slice(&[])));
    assert!(!is_listed(&listed, &voter(2)));
    assert!(!is_listed(&listed, &Principal::from_slice(&[1, 0])));
    assert!(!is_listed(&vec![], &voter(1)));
    assert_eq!(copy_identities(&listed), listed);
}
