use conselju::user_store::{GiftHistory, UserDatabase, UserPreference};

#[test]
fn test_user_operations() {
    let mut db = UserDatabase::new();

    let user = db.create_user("test_user".to_string(), 0).unwrap();
    assert_eq!(user.user_id, "test_user");

    let preferences = UserPreference {
        preferred_categories: vec!["電化製品".to_string()],
        excluded_categories: vec!["食品".to_string()],
        min_price: Some(5000),
        max_price: Some(30000),
        last_updated: 0,
    };
    db.update_preferences("test_user", preferences, 0).unwrap();

    let history = GiftHistory {
        gift_name: "テストギフト".to_string(),
        recipient: "テスト受取人".to_string(),
        price: 10000,
        date: 0,
        occasion: "誕生日".to_string(),
    };
    db.add_gift_history("test_user", history, 0).unwrap();

    let user = db.get_user("test_user").unwrap();
    assert_eq!(user.gift_history.len(), 1);
    assert_eq!(user.preferences.preferred_categories[0], "電化製品");

    // a zero-day window at a later time drops the idle user
    let removed = db.cleanup_inactive_users(0, 1).unwrap();
    assert_eq!(removed, 1);
    assert!(db.get_user("test_user").is_none());
}

#[test]
fn test_recent_and_recipient_filters() {
    let mut db = UserDatabase::new();
    db.create_user("u".to_string(), 0).unwrap();
    let old_gift = GiftHistory {
        gift_name: "旧ギフト".to_string(),
        recipient: "甲".to_string(),
        price: 100,
        date: 0,
        occasion: "お祝い".to_string(),
    };
    let new_gift = GiftHistory {
        gift_name: "新ギフト".to_string(),
        recipient: "乙".to_string(),
        price: 200,
        date: 2_000_000,
        occasion: "お祝い".to_string(),
    };
    db.add_gift_history("u", old_gift, 0).unwrap();
    db.add_gift_history("u", new_gift, 0).unwrap();

    // ten days of window, three weeks after the first gift
    let now = 2_000_000;
    let recent = db.get_recent_gifts("u", 10, now).unwrap();
    assert_eq!(recent.len(), 1);
    assert_eq!(recent[0].gift_name, "新ギフト");

    let by_recipient = db.get_gifts_by_recipient("u", "甲").unwrap();
    assert_eq!(by_recipient.len(), 1);
    assert_eq!(by_recipient[0].gift_name, "旧ギフト");

    // unknown users yield empty lists
    assert!(db.get_recent_gifts("nobody", 10, now).unwrap().is_empty());
    assert!(db.get_gifts_by_recipient("nobody", "甲").unwrap().is_empty());
}

#[test]
fn test_update_user_replaces_record() {
    let mut db = UserDatabase::new();
    let mut user = db.create_user("u".to_string(), 5).unwrap();
    user.last_active = 42;
    db.update_user(user).unwrap();
    let got = db.get_user("u").unwrap();
    assert_eq!(got.last_active, 42);
    assert_eq!(got.created_at, 5);
}
