use conselju::orchestrator::{Chatbot, DialogOrchestrator};

#[test]
fn chat_test_test_conversation_flow() {
    let mut chatbot = Chatbot::new();
    assert_eq!(
        chatbot.start_conversation(),
        "こんにちは、お返しコンシェルジュBOTです。どのようにお手伝いしましょうか？"
    );
    assert_eq!(
        chatbot.handle_input("就職祝いのお返しについて知りたい", 0),
        "お祝いをくれた相手との関係性を教えてください。"
    );
}

#[test]
fn test_complete_gift_recommendation_flow() {
    let mut bot = DialogOrchestrator::new(3600);
    let user_id = "test_user_1";

    let response = bot.process_message(user_id, "こんにちは", 0).unwrap();
    assert!(response.contains("こんにちは"));

    let response = bot.process_message(user_id, "上司です", 1).unwrap();
    assert!(response.contains("予算"));

    let response = bot.process_message(user_id, "3万円です", 2).unwrap();
    assert!(response.contains("複数"));

    let response = bot.process_message(user_id, "1人分です", 3).unwrap();
    assert!(response.contains("性別"));

    let response = bot.process_message(user_id, "男性です", 4).unwrap();
    assert!(response.contains("年齢"));

    let response = bot.process_message(user_id, "50代です", 5).unwrap();
    assert!(response.contains("ありがとうございます"));

    let response = bot.process_message(user_id, "おすすめを教えて", 6).unwrap();
    assert_eq!(
        response,
        "おすすめのギフトはこちらです。\n・万年筆（8000円）\n・コーヒーギフトセット（4000円）\n・高級タオルセット（5000円）"
    );
}

#[test]
fn test_error_handling() {
    let mut bot = DialogOrchestrator::new(3600);
    let user_id = "test_user_2";

    // empty input: apologize, state unchanged
    let response = bot.process_message(user_id, "", 0).unwrap();
    assert!(response.contains("申し訳ありません"));

    // move to the budget question, then fail the extraction
    let response = bot.process_message(user_id, "上司です", 1).unwrap();
    assert!(response.contains("予算"));
    let response = bot.process_message(user_id, "予算はたくさん", 2).unwrap();
    assert!(response.contains("もう一度"));
}

#[test]
fn test_conversation_context() {
    let mut bot = DialogOrchestrator::new(3600);
    let user_id = "test_user_6";

    let response1 = bot.process_message(user_id, "上司です", 0).unwrap();
    assert!(response1.contains("予算"));

    let response2 = bot.process_message(user_id, "3万円です", 1).unwrap();
    assert!(response2.contains("複数"));
    assert!(!response2.contains("関係"));
}

#[test]
fn test_retry_bound_resets_conversation() {
    let mut bot = DialogOrchestrator::new(3600);
    let user_id = "test_user_retry";

    let r = bot.process_message(user_id, "上司です", 0).unwrap();
    assert!(r.contains("予算"));
    let r = bot.process_message(user_id, "たくさん", 1).unwrap();
    assert!(r.contains("もう一度"));
    let r = bot.process_message(user_id, "いっぱい", 2).unwrap();
    assert!(r.contains("もう一度"));
    // the third consecutive failure escalates to the fallback and resets
    let r = bot.process_message(user_id, "山ほど", 3).unwrap();
    assert!(r.contains("最初からやり直しましょう"));
    // the next message starts a fresh pass
    let r = bot.process_message(user_id, "友人です", 4).unwrap();
    assert!(r.contains("予算"));
}

#[test]
fn test_recommendation_quality() {
    let mut bot = DialogOrchestrator::new(3600);
    let user_id = "test_user_5";

    bot.process_message(user_id, "上司です", 0).unwrap();
    bot.process_message(user_id, "5万円です", 1).unwrap();
    bot.process_message(user_id, "1人分です", 2).unwrap();
    bot.process_message(user_id, "男性です", 3).unwrap();
    bot.process_message(user_id, "50代です", 4).unwrap();
    let response = bot.process_message(user_id, "ギフトの提案をお願いします", 5).unwrap();
    assert!(response.contains("ギフト"));
    // every offered price respects the 50000 budget
    assert!(!response.contains("60000円"));
    assert!(response.contains("8000円"));
}

#[test]
fn test_bulk_discount_applies() {
    let mut bot = DialogOrchestrator::new(3600);
    let user_id = "test_user_bulk";

    bot.process_message(user_id, "上司です", 0).unwrap();
    bot.process_message(user_id, "3万円です", 1).unwrap();
    bot.process_message(user_id, "3人分まとめて", 2).unwrap();
    bot.process_message(user_id, "男性です", 3).unwrap();
    bot.process_message(user_id, "50代です", 4).unwrap();
    let response = bot.process_message(user_id, "おすすめは？", 5).unwrap();
    // ten percent off 8000, 4000 and 5000
    assert_eq!(
        response,
        "おすすめのギフトはこちらです。\n・万年筆（7200円）\n・コーヒーギフトセット（3600円）\n・高級タオルセット（4500円）"
    );
}

#[test]
fn test_gender_preference_ordering() {
    let mut bot = DialogOrchestrator::new(3600);
    let user_id = "test_user_gender";

    bot.process_message(user_id, "友人です", 0).unwrap();
    bot.process_message(user_id, "2万円です", 1).unwrap();
    bot.process_message(user_id, "1人分です", 2).unwrap();
    bot.process_message(user_id, "女性です", 3).unwrap();
    bot.process_message(user_id, "20代です", 4).unwrap();
    let response = bot.process_message(user_id, "おすすめは？", 5).unwrap();
    // beauty first for a female recipient, then the age ranking lifts
    // electronics (high relevance under forty) to the front
    assert_eq!(
        response,
        "おすすめのギフトはこちらです。\n・スマートスピーカー（12000円）\n・コスメセット（5000円）\n・お菓子詰め合わせ（3000円）"
    );
}
