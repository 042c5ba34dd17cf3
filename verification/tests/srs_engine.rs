use greengolingo::srs::card::{MasteryLevel, SRSCard, SRSCardStats};
use greengolingo::srs::scheduler::SRSScheduler;

fn create_test_card() -> SRSCard {
    SRSCard::new(
        "vocab_001".to_string(),
        "hello".to_string(),
        "ol\u{e1}".to_string(),
        "en_to_pt_br".to_string(),
        "A1".to_string(),
        "greetings".to_string(),
        "2024-01-15",
    )
}

#[test]
fn test_new_card() {
    let card = create_test_card();

    assert_eq!(card.ease_factor, 250);
    assert_eq!(card.interval, 0);
    assert_eq!(card.repetitions, 0);
    assert!(card.is_due("2024-01-15"));
    assert_eq!(card.mastery_level(), MasteryLevel::New);
}

#[test]
fn test_accuracy_rate() {
    let mut card = create_test_card();

    assert_eq!(card.accuracy_rate(), 0);

    card.total_reviews = 10;
    card.correct_reviews = 8;
    assert_eq!(card.accuracy_rate(), 8000);
}

#[test]
fn test_is_weak() {
    let mut card = create_test_card();

    card.ease_factor = 150;
    assert!(card.is_weak(200, 6000));

    card.ease_factor = 250;
    card.total_reviews = 10;
    card.correct_reviews = 5;
    assert!(card.is_weak(200, 6000));
}

#[test]
fn test_first_successful_review() {
    let card = create_test_card();
    let update = SRSScheduler::calculate_next_review(&card, 4, "2024-01-15");

    assert!(update.was_successful);
    assert_eq!(update.new_interval, 1);
    assert_eq!(update.new_repetitions, 1);
    assert_eq!(update.next_review_date, "2024-01-16");
}

#[test]
fn test_second_successful_review() {
    let mut card = create_test_card();
    card.repetitions = 1;
    card.interval = 1;

    let update = SRSScheduler::calculate_next_review(&card, 4, "2024-01-16");

    assert!(update.was_successful);
    assert_eq!(update.new_interval, 6);
    assert_eq!(update.new_repetitions, 2);
}

#[test]
fn test_failed_review_resets() {
    let mut card = create_test_card();
    card.repetitions = 5;
    card.interval = 30;
    card.ease_factor = 250;

    let update = SRSScheduler::calculate_next_review(&card, 1, "2024-02-15");

    assert!(!update.was_successful);
    assert_eq!(update.new_interval, 1);
    assert_eq!(update.new_repetitions, 0);
    assert!(update.new_ease_factor < 250);
}

#[test]
fn test_ease_factor_clamping() {
    let mut card = create_test_card();
    card.ease_factor = 130;

    let update = SRSScheduler::calculate_next_review(&card, 0, "2024-01-15");
    assert!(update.new_ease_factor >= 130);
}

#[test]
fn test_perfect_review_increases_ease() {
    let card = create_test_card();
    let update = SRSScheduler::calculate_next_review(&card, 5, "2024-01-15");

    assert!(update.new_ease_factor >= card.ease_factor);
}

#[test]
fn test_add_days_to_date() {
    assert_eq!(SRSScheduler::add_days_to_date("2024-01-15", 1), "2024-01-16");
    assert_eq!(SRSScheduler::add_days_to_date("2024-01-31", 1), "2024-02-01");
    assert_eq!(SRSScheduler::add_days_to_date("2024-12-31", 1), "2025-01-01");
}

#[test]
fn test_add_days_leap_year() {
    assert_eq!(SRSScheduler::add_days_to_date("2024-02-28", 1), "2024-02-29");
    assert_eq!(SRSScheduler::add_days_to_date("2024-02-29", 1), "2024-03-01");
    assert_eq!(SRSScheduler::add_days_to_date("2023-02-28", 1), "2023-03-01");
    assert_eq!(SRSScheduler::add_days_to_date("2100-02-28", 1), "2100-03-01");
    assert_eq!(SRSScheduler::add_days_to_date("2000-02-28", 1), "2000-02-29");
}

#[test]
fn test_add_days_malformed_date() {
    assert_eq!(SRSScheduler::add_days_to_date("not a date", 3), "not a date");
    assert_eq!(SRSScheduler::add_days_to_date("20x4-01-15", 1), "2024-01-16");
}

#[test]
fn test_review_scenario_full_cycle() {
    // A fresh card reviewed with quality 4 is due again the next day.
    let mut card = create_test_card();
    assert_eq!(card.ease_factor, 250);
    assert_eq!(card.interval, 0);
    assert_eq!(card.repetitions, 0);

    let update = SRSScheduler::calculate_next_review(&card, 4, "2024-01-15");
    assert_eq!(update.new_interval, 1);
    assert_eq!(update.new_repetitions, 1);
    assert_eq!(update.next_review_date, "2024-01-16");
    SRSScheduler::apply_update(&mut card, &update, "2024-01-15");
    assert_eq!(card.interval, 1);
    assert_eq!(card.repetitions, 1);
    assert_eq!(card.total_reviews, 1);
    assert_eq!(card.correct_reviews, 1);

    // The second successful review jumps to a six-day interval.
    let update = SRSScheduler::calculate_next_review(&card, 4, "2024-01-16");
    assert_eq!(update.new_interval, 6);
    assert_eq!(update.new_repetitions, 2);
    SRSScheduler::apply_update(&mut card, &update, "2024-01-16");
    let ease_before_failure = card.ease_factor;

    // A failed review resets the streak and interval and costs 0.20 ease.
    let update = SRSScheduler::calculate_next_review(&card, 1, "2024-01-22");
    assert_eq!(update.new_repetitions, 0);
    assert_eq!(update.new_interval, 1);
    assert_eq!(update.new_ease_factor, ease_before_failure - 20);
    assert!(update.new_ease_factor >= 130);
}

#[test]
fn test_ease_band_holds_after_updates() {
    let mut card = create_test_card();
    let qualities = [0u8, 5, 3, 1, 5, 5, 2, 4, 0, 0, 0, 5];
    let mut date = "2024-01-15".to_string();
    for q in qualities {
        let update = SRSScheduler::calculate_next_review(&card, q, date.as_str());
        SRSScheduler::apply_update(&mut card, &update, date.as_str());
        assert!(130 <= card.ease_factor && card.ease_factor <= 250);
        date = card.next_review_date.clone();
    }
}

#[test]
fn test_successful_review_outcome() {
    let mut card = create_test_card();
    card.repetitions = 4;
    card.interval = 10;
    card.ease_factor = 200;

    let update = SRSScheduler::calculate_next_review(&card, 3, "2024-03-01");
    assert_eq!(update.new_repetitions, 5);
    // round(10 * 2.00) = 20 days
    assert_eq!(update.new_interval, 20);
    assert!(update.new_interval >= 1);
    // quality 3 costs 0.14: 2.00 -> 1.86
    assert_eq!(update.new_ease_factor, 186);
}

#[test]
fn test_quality_above_five_is_clamped() {
    let card = create_test_card();
    let update = SRSScheduler::calculate_next_review(&card, 9, "2024-01-15");
    assert_eq!(update.quality, 5);
    assert!(update.was_successful);
    // quality 5 on a maxed card stays clamped at the ceiling
    assert_eq!(update.new_ease_factor, 250);
}

#[test]
fn test_sort_by_priority() {
    let mut a = create_test_card();
    a.word_id = "a".to_string();
    a.next_review_date = "2024-02-01".to_string();
    a.ease_factor = 240;
    let mut b = create_test_card();
    b.word_id = "b".to_string();
    b.next_review_date = "2024-01-01".to_string();
    b.ease_factor = 250;
    let mut c = create_test_card();
    c.word_id = "c".to_string();
    c.next_review_date = "2024-01-02".to_string();
    c.ease_factor = 130;

    let mut cards = vec![a, b, c];
    SRSScheduler::sort_by_priority(&mut cards, "2024-01-15");
    // b and c are due; c has the lower ease factor, so it comes first.
    assert_eq!(cards[0].word_id, "c");
    assert_eq!(cards[1].word_id, "b");
    assert_eq!(cards[2].word_id, "a");
}

#[test]
fn test_get_due_and_new_cards() {
    let mut a = create_test_card();
    a.next_review_date = "2024-02-01".to_string();
    a.total_reviews = 3;
    a.correct_reviews = 2;
    let b = create_test_card();

    let cards = vec![a, b];
    let due = SRSScheduler::get_due_cards(&cards, "2024-01-15");
    assert_eq!(due.len(), 1);
    assert_eq!(due[0].total_reviews, 0);

    let fresh = SRSScheduler::get_new_cards(&cards);
    assert_eq!(fresh.len(), 1);

    let weak = SRSScheduler::get_weak_cards(&cards, 200, 7000);
    // a has 2/3 correct (66.67%), below the 70% threshold
    assert_eq!(weak.len(), 2);
}

#[test]
fn test_stats_from_empty_collection() {
    let cards: Vec<SRSCard> = Vec::new();
    let stats = SRSCardStats::from_cards(&cards, "2024-01-15");
    assert_eq!(stats.total_cards, 0);
    assert_eq!(stats.due_today, 0);
    assert_eq!(stats.new_cards, 0);
    assert_eq!(stats.learning_cards, 0);
    assert_eq!(stats.familiar_cards, 0);
    assert_eq!(stats.proficient_cards, 0);
    assert_eq!(stats.mastered_cards, 0);
    assert_eq!(stats.average_ease_factor, 0);
    assert_eq!(stats.average_accuracy, 0);
}

#[test]
fn test_stats_counts_and_averages() {
    let mut a = create_test_card();
    a.repetitions = 7;
    a.ease_factor = 230;
    a.total_reviews = 4;
    a.correct_reviews = 2;
    let b = create_test_card();

    let cards = vec![a, b];
    let stats = SRSCardStats::from_cards(&cards, "2024-01-15");
    assert_eq!(stats.total_cards, 2);
    assert_eq!(stats.due_today, 2);
    assert_eq!(stats.new_cards, 1);
    assert_eq!(stats.proficient_cards, 1);
    assert_eq!(stats.average_ease_factor, 240);
    assert_eq!(stats.average_accuracy, 5000);
}

#[test]
fn test_mastery_classification() {
    let mut card = create_test_card();
    assert_eq!(card.mastery_level(), MasteryLevel::New);

    card.repetitions = 7;
    card.ease_factor = 230;
    assert_eq!(card.mastery_level(), MasteryLevel::Proficient);

    // Fails the Proficient ease threshold, so it falls back to Learning.
    card.ease_factor = 200;
    assert_eq!(card.mastery_level(), MasteryLevel::Learning);

    card.repetitions = 4;
    assert_eq!(card.mastery_level(), MasteryLevel::Familiar);

    card.repetitions = 11;
    card.ease_factor = 240;
    assert_eq!(card.mastery_level(), MasteryLevel::Mastered);
}
