use conselju::orchestrator::DialogOrchestrator;

/// The expected final reply for a boss, single recipient, male, in his
/// fifties, at the given budget: the base prices are 4000, 5000 and 8000,
/// stationery and food rank high at that age.
fn expected_reply(budget: u64) -> String {
    let mut items: Vec<(&str, u64)> = Vec::new();
    if budget >= 8000 {
        items.push(("万年筆", 8000));
    }
    if budget >= 4000 {
        items.push(("コーヒーギフトセット", 4000));
    }
    if budget >= 5000 {
        items.push(("高級タオルセット", 5000));
    }
    if items.is_empty() {
        return "申し訳ありません。ご予算に合うギフトが見つかりませんでした。条件を変えてもう一度お試しください。"
            .to_string();
    }
    let mut s = "おすすめのギフトはこちらです。".to_string();
    for (name, price) in items {
        s.push_str(&format!("\n・{}（{}円）", name, price));
    }
    s
}

#[test]
fn test_isolation_across_many_users() {
    let mut bot = DialogOrchestrator::new(3600);
    let users: Vec<String> = (0..50).map(|i| format!("load_test_user_{}", i)).collect();
    let budgets: Vec<u64> = (0..50).map(|i| (i as u64 + 1) * 1000).collect();

    // interleave the conversations phase by phase
    for (i, u) in users.iter().enumerate() {
        let r = bot.process_message(u, "上司です", i as u64).unwrap();
        assert!(r.contains("予算"));
    }
    for (i, u) in users.iter().enumerate() {
        let msg = format!("{}円です", budgets[i]);
        let r = bot.process_message(u, &msg, 100 + i as u64).unwrap();
        assert!(r.contains("複数"));
    }
    for (i, u) in users.iter().enumerate() {
        let r = bot.process_message(u, "1人分です", 200 + i as u64).unwrap();
        assert!(r.contains("性別"));
    }
    for (i, u) in users.iter().enumerate() {
        let r = bot.process_message(u, "男性です", 300 + i as u64).unwrap();
        assert!(r.contains("年齢"));
    }
    for (i, u) in users.iter().enumerate() {
        let r = bot.process_message(u, "50代です", 400 + i as u64).unwrap();
        assert!(r.contains("ありがとうございます"));
    }
    // each user's final answer matches that user's own trajectory
    for (i, u) in users.iter().enumerate() {
        let r = bot.process_message(u, "おすすめは？", 500 + i as u64).unwrap();
        assert_eq!(r, expected_reply(budgets[i]), "user {} leaked state", u);
    }
    assert_eq!(bot.session_count(), 50);

    // explicit eviction drops exactly the named user
    bot.remove_session("load_test_user_0");
    assert_eq!(bot.session_count(), 49);
    let r = bot.process_message("load_test_user_0", "こんにちは", 600).unwrap();
    assert!(r.contains("関係性"));
}

#[test]
fn test_sessions_are_independent() {
    let mut bot = DialogOrchestrator::new(3600);
    bot.process_message("alice", "上司です", 0).unwrap();
    // bob's first message starts his own conversation from the beginning
    let r = bot.process_message("bob", "こんにちは", 1).unwrap();
    assert!(r.contains("関係性"));
    // alice is still at the budget question
    let r = bot.process_message("alice", "3万円です", 2).unwrap();
    assert!(r.contains("複数"));
}
