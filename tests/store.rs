use word_pairs::clock::Timestamp;
use word_pairs::model::{QueryOptions, UpdateWordPairSchema, WordPair};
use word_pairs::store::{Store, StoreError};

fn draft(english: &str, foreign: &str) -> WordPair {
    WordPair {
        id: None,
        english_word: english.to_string(),
        foreign_word: foreign.to_string(),
        favorite: None,
        created_at: None,
        updated_at: None,
    }
}

fn at(secs: i64) -> Timestamp {
    Timestamp { secs, nanos: 0 }
}

fn english_words(records: &[WordPair]) -> Vec<String> {
    records.iter().map(|p| p.english_word.clone()).collect()
}

fn five_letters() -> Store {
    let mut s = Store::new();
    for (i, w) in ["A", "B", "C", "D", "E"].iter().enumerate() {
        s.create_with(draft(w, "x"), format!("id-{}", i), at(100)).unwrap();
    }
    s
}

fn page(p: Option<usize>, l: Option<usize>) -> QueryOptions {
    QueryOptions { page: p, limit: l }
}

#[test]
fn create_fills_in_store_fields() {
    let mut s = Store::new();
    let mut d = draft("hello", "hola");
    d.favorite = Some(true);
    d.id = Some("caller-chosen".to_string());
    let p = s.create_with(d, "abc".to_string(), at(42)).unwrap();
    assert_eq!(p.id, Some("abc".to_string()));
    assert_eq!(p.english_word, "hello");
    assert_eq!(p.foreign_word, "hola");
    assert_eq!(p.favorite, Some(false));
    assert_eq!(p.created_at, Some(at(42)));
    assert_eq!(p.updated_at, Some(at(42)));
    assert_eq!(s.len(), 1);
}

#[test]
fn create_draws_a_hyphenated_id_and_the_current_time() {
    let mut s = Store::new();
    let p = s.create(draft("hello", "hola")).unwrap();
    let id = p.id.clone().unwrap();
    assert_eq!(id.len(), 36);
    for (i, c) in id.chars().enumerate() {
        if i == 8 || i == 13 || i == 18 || i == 23 {
            assert_eq!(c, '-');
        } else {
            assert!(c.is_ascii_hexdigit());
        }
    }
    let created = p.created_at.unwrap();
    assert!(created.secs > 1_600_000_000);
    assert!(created.nanos < 1_000_000_000);
    assert_eq!(p.created_at, p.updated_at);
    let q = s.create(draft("bye", "adios")).unwrap();
    assert_ne!(q.id, p.id);
}

#[test]
fn duplicate_english_word_is_refused_and_changes_nothing() {
    let mut s = Store::new();
    s.create_with(draft("hello", "hola"), "a".to_string(), at(1)).unwrap();
    let r = s.create_with(draft("hello", "bonjour"), "b".to_string(), at(2));
    match r {
        Err(StoreError::DuplicateKey(w)) => assert_eq!(w, "hello"),
        other => panic!("expected a duplicate, got {:?}", other),
    }
    assert_eq!(s.len(), 1);
    let only = s.get(&"a".to_string()).unwrap();
    assert_eq!(only.foreign_word, "hola");
    assert!(s.get(&"b".to_string()).is_err());
}

#[test]
fn duplicate_check_is_case_sensitive() {
    let mut s = Store::new();
    s.create_with(draft("hello", "hola"), "a".to_string(), at(1)).unwrap();
    assert!(s.create_with(draft("Hello", "hola"), "b".to_string(), at(1)).is_ok());
    assert!(s.create(draft("hello", "x")).is_err());
    assert_eq!(s.len(), 2);
}

#[test]
fn created_id_is_the_one_get_list_edit_and_delete_use() {
    let mut s = Store::new();
    s.create_with(draft("one", "uno"), "first".to_string(), at(1)).unwrap();
    let p = s.create(draft("two", "dos")).unwrap();
    let id = p.id.clone().unwrap();
    let g = s.get(&id).unwrap();
    assert_eq!(g.id, p.id);
    assert_eq!(g.english_word, "two");
    let listed = s.list(&page(None, None));
    assert_eq!(listed[1].id, p.id);
    let e = s
        .edit(&id, UpdateWordPairSchema { english_word: None, foreign_word: Some("zwei".to_string()), favorite: None })
        .unwrap();
    assert_eq!(e.id, p.id);
    assert_eq!(s.get(&id).unwrap().foreign_word, "zwei");
    s.delete(&id).unwrap();
    assert!(s.get(&id).is_err());
    assert_eq!(s.len(), 1);
}

#[test]
fn favorite_only_edit_keeps_the_words() {
    let mut s = Store::new();
    s.create_with(draft("hello", "hola"), "a".to_string(), at(10)).unwrap();
    let update = UpdateWordPairSchema { english_word: None, foreign_word: None, favorite: Some(true) };
    let p = s.edit_at(&"a".to_string(), update, at(20)).unwrap();
    assert_eq!(p.english_word, "hello");
    assert_eq!(p.foreign_word, "hola");
    assert_eq!(p.favorite, Some(true));
    assert_eq!(p.id, Some("a".to_string()));
    assert_eq!(p.created_at, Some(at(10)));
    assert_eq!(p.updated_at, Some(at(20)));
    let stored = s.get(&"a".to_string()).unwrap();
    assert_eq!(stored.favorite, Some(true));
}

#[test]
fn edit_never_moves_the_update_time_back() {
    let mut s = Store::new();
    s.create_with(draft("hello", "hola"), "a".to_string(), at(50)).unwrap();
    let update = UpdateWordPairSchema { english_word: None, foreign_word: None, favorite: Some(true) };
    let p = s.edit_at(&"a".to_string(), update, at(40)).unwrap();
    assert_eq!(p.updated_at, Some(at(50)));
    let later = Timestamp { secs: 50, nanos: 7 };
    let update = UpdateWordPairSchema { english_word: None, foreign_word: None, favorite: None };
    let q = s.edit_at(&"a".to_string(), update, later).unwrap();
    assert_eq!(q.updated_at, Some(later));
}

#[test]
fn edit_with_current_time_refreshes_updated_at() {
    let mut s = Store::new();
    let p = s.create(draft("hello", "hola")).unwrap();
    let id = p.id.clone().unwrap();
    let update = UpdateWordPairSchema { english_word: None, foreign_word: None, favorite: Some(true) };
    let q = s.edit(&id, update).unwrap();
    assert!(p.updated_at.unwrap().at_or_before(&q.updated_at.unwrap()));
    assert_eq!(q.created_at, p.created_at);
    assert_eq!(q.favorite, Some(true));
}

#[test]
fn edit_overrides_present_non_empty_fields_only() {
    let mut s = Store::new();
    s.create_with(draft("hello", "hola"), "a".to_string(), at(1)).unwrap();
    let update = UpdateWordPairSchema {
        english_word: Some(String::new()),
        foreign_word: Some("salut".to_string()),
        favorite: None,
    };
    let p = s.edit_at(&"a".to_string(), update, at(2)).unwrap();
    assert_eq!(p.english_word, "hello");
    assert_eq!(p.foreign_word, "salut");
    assert_eq!(p.favorite, Some(false));
    let update = UpdateWordPairSchema {
        english_word: Some("hi".to_string()),
        foreign_word: None,
        favorite: Some(false),
    };
    let q = s.edit_at(&"a".to_string(), update, at(3)).unwrap();
    assert_eq!(q.english_word, "hi");
    assert_eq!(q.foreign_word, "salut");
    assert_eq!(s.len(), 1);
}

#[test]
fn pagination_second_page_of_two() {
    let s = five_letters();
    assert_eq!(english_words(&s.list(&page(Some(2), Some(2)))), vec!["C", "D"]);
}

#[test]
fn pagination_third_page_is_the_remainder() {
    let s = five_letters();
    assert_eq!(english_words(&s.list(&page(Some(3), Some(2)))), vec!["E"]);
}

#[test]
fn pagination_past_the_end_is_empty() {
    let s = five_letters();
    assert!(s.list(&page(Some(10), Some(2))).is_empty());
    assert!(s.list(&page(Some(usize::MAX), Some(usize::MAX))).is_empty());
}

#[test]
fn pagination_defaults_and_page_zero() {
    let s = five_letters();
    assert_eq!(english_words(&s.list(&page(None, None))), vec!["A", "B", "C", "D", "E"]);
    assert_eq!(english_words(&s.list(&page(Some(0), Some(2)))), vec!["A", "B"]);
    assert_eq!(english_words(&s.list(&page(Some(1), Some(usize::MAX)))).len(), 5);
    assert!(s.list(&page(Some(1), Some(0))).is_empty());
    let mut big = Store::new();
    for i in 0..12 {
        big.create_with(draft(&format!("w{}", i), "x"), format!("id{}", i), at(1)).unwrap();
    }
    assert_eq!(big.list(&page(None, None)).len(), 10);
    assert_eq!(english_words(&big.list(&page(Some(2), None))), vec!["w10", "w11"]);
}

#[test]
fn unknown_id_is_not_found_everywhere() {
    let mut s = five_letters();
    let missing = "never-issued".to_string();
    match s.get(&missing) {
        Err(StoreError::NotFound(m)) => assert_eq!(m, missing),
        other => panic!("expected not found, got {:?}", other),
    }
    let update = UpdateWordPairSchema { english_word: Some("Z".to_string()), foreign_word: None, favorite: Some(true) };
    assert!(matches!(s.edit(&missing, update), Err(StoreError::NotFound(_))));
    assert!(matches!(s.delete(&missing), Err(StoreError::NotFound(_))));
    assert_eq!(english_words(&s.list(&page(None, None))), vec!["A", "B", "C", "D", "E"]);
    assert!(s.list(&page(None, None)).iter().all(|p| p.favorite == Some(false)));
}

#[test]
fn delete_removes_exactly_one() {
    let mut s = five_letters();
    s.delete(&"id-2".to_string()).unwrap();
    assert_eq!(s.len(), 4);
    let rest = s.list(&page(None, None));
    assert_eq!(english_words(&rest), vec!["A", "B", "D", "E"]);
    let ids: Vec<Option<String>> = rest.iter().map(|p| p.id.clone()).collect();
    assert_eq!(
        ids,
        vec![Some("id-0".to_string()), Some("id-1".to_string()), Some("id-3".to_string()), Some("id-4".to_string())]
    );
    assert!(rest.iter().all(|p| p.foreign_word == "x" && p.created_at == Some(at(100))));
    assert!(s.delete(&"id-2".to_string()).is_err());
    assert_eq!(s.len(), 4);
}

#[test]
fn delete_then_create_same_word_again() {
    let mut s = Store::new();
    s.create_with(draft("hello", "hola"), "a".to_string(), at(1)).unwrap();
    s.delete(&"a".to_string()).unwrap();
    assert_eq!(s.len(), 0);
    assert!(s.create_with(draft("hello", "ciao"), "b".to_string(), at(2)).is_ok());
}

#[test]
fn snapshot_is_an_equal_copy() {
    let mut p = draft("hello", "hola");
    p.id = Some("q".to_string());
    p.updated_at = Some(at(3));
    let c = p.snapshot();
    assert_eq!(c.id, p.id);
    assert_eq!(c.english_word, p.english_word);
    assert_eq!(c.foreign_word, p.foreign_word);
    assert_eq!(c.updated_at, p.updated_at);
}

#[test]
fn timestamps_order_by_seconds_then_nanos() {
    let a = Timestamp { secs: 1, nanos: 999 };
    let b = Timestamp { secs: 2, nanos: 0 };
    let c = Timestamp { secs: 2, nanos: 5 };
    assert!(a.at_or_before(&b));
    assert!(!b.at_or_before(&a));
    assert!(b.at_or_before(&c));
    assert!(c.at_or_before(&c));
    assert_eq!(a.latest(&c), c);
    assert_eq!(c.latest(&b), c);
}
