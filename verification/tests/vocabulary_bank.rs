use greengolingo::srs::vocabulary::{VocabularyBank, VocabularyCategory, VocabularyItem};

fn create_test_item(id: &str, source: &str, target: &str) -> VocabularyItem {
    VocabularyItem::new(
        id.to_string(),
        source.to_string(),
        target.to_string(),
        "greetings".to_string(),
        "A1".to_string(),
        "en_to_pt_br".to_string(),
        VocabularyCategory::Phrase,
        "2024-01-15",
    )
}

#[test]
fn test_vocabulary_bank_add_and_get() {
    let mut bank = VocabularyBank::new();
    let item = create_test_item("vocab_001", "hello", "ol\u{e1}");

    bank.add(item.clone());

    assert_eq!(bank.len(), 1);
    assert_eq!(bank.get("vocab_001"), Some(&item));
}

#[test]
fn test_vocabulary_bank_search() {
    let mut bank = VocabularyBank::new();
    bank.add(create_test_item("vocab_001", "hello", "ol\u{e1}"));
    bank.add(create_test_item("vocab_002", "goodbye", "tchau"));
    bank.add(create_test_item("vocab_003", "good morning", "bom dia"));

    let results = bank.search("good", None);
    assert_eq!(results.len(), 2);
}

#[test]
fn test_vocabulary_bank_by_level() {
    let mut bank = VocabularyBank::new();
    bank.add(create_test_item("vocab_001", "hello", "ol\u{e1}"));

    let a1_items = bank.by_level("A1");
    assert_eq!(a1_items.len(), 1);

    let b1_items = bank.by_level("B1");
    assert_eq!(b1_items.len(), 0);
}

#[test]
fn test_mark_in_srs() {
    let mut bank = VocabularyBank::new();
    bank.add(create_test_item("vocab_001", "hello", "ol\u{e1}"));

    assert!(!bank.get("vocab_001").unwrap().in_srs);
    bank.mark_in_srs("vocab_001");
    assert!(bank.get("vocab_001").unwrap().in_srs);
}

#[test]
fn test_remove_leaves_no_dangling_id() {
    let mut bank = VocabularyBank::new();
    bank.add(create_test_item("vocab_001", "hello", "ol\u{e1}"));
    bank.add(create_test_item("vocab_002", "goodbye", "tchau"));

    let removed = bank.remove("vocab_001");
    assert_eq!(removed.unwrap().id, "vocab_001");
    assert!(bank.get("vocab_001").is_none());
    assert_eq!(bank.len(), 1);

    // No index may still answer for the removed id.
    for it in bank.by_level("A1") {
        assert_ne!(it.id, "vocab_001");
    }
    for it in bank.by_lesson("greetings") {
        assert_ne!(it.id, "vocab_001");
    }
    for it in bank.by_language_pair("en_to_pt_br") {
        assert_ne!(it.id, "vocab_001");
    }
    for it in bank.by_category(VocabularyCategory::Phrase) {
        assert_ne!(it.id, "vocab_001");
    }
    let stats = bank.stats();
    assert_eq!(stats.total, 1);
    assert_eq!(stats.by_level, vec![("A1".to_string(), 1)]);
}

#[test]
fn test_remove_absent_id() {
    let mut bank = VocabularyBank::new();
    bank.add(create_test_item("vocab_001", "hello", "ol\u{e1}"));
    assert!(bank.remove("missing").is_none());
    assert_eq!(bank.len(), 1);
}

#[test]
fn test_search_exact_matches_first() {
    let mut bank = VocabularyBank::new();
    bank.add(create_test_item("vocab_001", "good morning", "bom dia"));
    bank.add(create_test_item("vocab_002", "Good", "bom"));

    let results = bank.search("good", None);
    assert_eq!(results.len(), 2);
    // The case-insensitive exact match on the source text comes first.
    assert_eq!(results[0].id, "vocab_002");

    let limited = bank.search("good", Some(1));
    assert_eq!(limited.len(), 1);
    assert_eq!(limited[0].id, "vocab_002");
}

#[test]
fn test_search_is_case_insensitive() {
    let mut bank = VocabularyBank::new();
    bank.add(create_test_item("vocab_001", "Hello", "Ol\u{e1}"));

    // If lowercasing handed its input back unchanged, "HELLO" could not
    // match the stored "Hello".
    let results = bank.search("HELLO", None);
    assert_eq!(results.len(), 1);

    let results = bank.search("ol\u{c1}".to_lowercase().as_str(), None);
    assert_eq!(results.len(), 1);
}

#[test]
fn test_search_matches_tags() {
    let mut bank = VocabularyBank::new();
    let mut item = create_test_item("vocab_001", "hello", "ol\u{e1}");
    item.tags.push("Greeting".to_string());
    bank.add(item);

    let results = bank.search("greet", None);
    assert_eq!(results.len(), 1);
}

#[test]
fn test_add_replaces_same_id() {
    let mut bank = VocabularyBank::new();
    bank.add(create_test_item("vocab_001", "hello", "ol\u{e1}"));
    let mut changed = create_test_item("vocab_001", "hi", "oi");
    changed.level = "A2".to_string();
    bank.add(changed);

    assert_eq!(bank.len(), 1);
    assert_eq!(bank.get("vocab_001").unwrap().source, "hi");
    // The old level no longer lists the id.
    assert_eq!(bank.by_level("A1").len(), 0);
    assert_eq!(bank.by_level("A2").len(), 1);
}

#[test]
fn test_not_in_srs() {
    let mut bank = VocabularyBank::new();
    bank.add(create_test_item("vocab_001", "hello", "ol\u{e1}"));
    bank.add(create_test_item("vocab_002", "goodbye", "tchau"));
    bank.mark_in_srs("vocab_001");

    let open_items = bank.not_in_srs();
    assert_eq!(open_items.len(), 1);
    assert_eq!(open_items[0].id, "vocab_002");
    assert!(!bank.mark_in_srs("missing"));

    let stats = bank.stats();
    assert_eq!(stats.total, 2);
    assert_eq!(stats.in_srs, 1);
    assert_eq!(stats.not_in_srs, 1);
    assert_eq!(stats.by_category, vec![("Phrase".to_string(), 2)]);
}

#[test]
fn test_category_display_names() {
    assert_eq!(VocabularyCategory::Noun.display_name(), "Noun");
    assert_eq!(VocabularyCategory::Other.display_name(), "Other");
    assert_eq!(VocabularyCategory::all().len(), 13);
}
