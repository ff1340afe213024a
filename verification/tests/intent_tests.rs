use conselju::intent::{Intent, IntentClassifier};

#[test]
fn test_relationship_classification() {
    let classifier = IntentClassifier::new();
    assert_eq!(
        classifier.classify("上司からのお祝い", None),
        Some("relationship".to_string())
    );
    assert_eq!(
        classifier.classify("友人に贈りたい", None),
        Some("relationship".to_string())
    );
}

#[test]
fn test_amount_classification() {
    let classifier = IntentClassifier::new();
    assert_eq!(
        classifier.classify("3万円くらい", Some("asking_amount")),
        Some("amount".to_string())
    );
    assert_eq!(
        classifier.classify("30000円", Some("asking_amount")),
        Some("amount".to_string())
    );
}

#[test]
fn test_gift_type_classification() {
    let classifier = IntentClassifier::new();
    assert_eq!(
        classifier.classify("全員同じものを贈りたい", Some("asking_gift_type")),
        Some("gift_type".to_string())
    );
    assert_eq!(
        classifier.classify("個別に選びたい", Some("asking_gift_type")),
        Some("gift_type".to_string())
    );
}

#[test]
fn test_intent_classification() {
    let classifier = IntentClassifier::new();
    assert_eq!(
        classifier.classify_intent("就職祝いのお返しに何がいい？"),
        Intent::Unknown
    );
    assert_eq!(
        classifier.classify_intent("お返しのマナーを知りたい"),
        Intent::AskManners
    );
}

#[test]
fn test_classify_is_total() {
    let classifier = IntentClassifier::new();
    // every input lands in the closed intent set; a zero top score is Unknown
    assert_eq!(classifier.classify_intent(""), Intent::Unknown);
    assert_eq!(classifier.classify_intent("xyzzy"), Intent::Unknown);
    assert_eq!(classifier.classify_intent("こんにちは"), Intent::Greeting);
    assert_eq!(classifier.classify_intent("上司です"), Intent::AskRelationship);
    assert_eq!(classifier.classify_intent("3万円です"), Intent::AskBudget);
    assert_eq!(classifier.classify_intent("男性です"), Intent::AskGender);
    assert_eq!(classifier.classify_intent("50代です"), Intent::AskAge);
}

#[test]
fn test_tie_breaks_by_priority() {
    let classifier = IntentClassifier::new();
    // one greeting keyword and one relationship keyword: the tie falls to
    // the greeting, the earlier intent in the priority order
    assert_eq!(
        classifier.classify_intent("こんにちは、上司の件で"),
        Intent::Greeting
    );
}
