use conselju::conversation::UserContext;
use conselju::engine::RecommendationEngine;
use conselju::error::ChatError;
use conselju::orchestrator::DialogOrchestrator;

#[test]
fn test_error_messages() {
    let invalid = ChatError::InvalidInput("入力が無効です".to_string());
    assert_eq!(invalid.message(), "入力が無効です");
    let api = ChatError::ApiError("接続できません".to_string());
    assert_eq!(api.message(), "接続できません");
    let internal = ChatError::InternalError("不変条件違反".to_string());
    assert_eq!(internal.message(), "不変条件違反");
}

#[test]
fn test_recommend_checked_requires_slots() {
    let mut engine = RecommendationEngine::new(3600);
    // no relationship and no budget: the invariant violation surfaces as
    // an internal error instead of a panic
    let ctx = UserContext::new("u".to_string());
    let r = engine.recommend_checked(&ctx, 0);
    assert!(matches!(r, Err(ChatError::InternalError(_))));
}

#[test]
fn test_oversized_message_is_rejected() {
    let mut bot = DialogOrchestrator::new(3600);
    let long = "あ".repeat(600);
    let r = bot.process_message("u", &long, 0).unwrap();
    assert!(r.contains("長すぎます"));
    // the conversation did not move: the next message is still the first
    let r = bot.process_message("u", "上司です", 1).unwrap();
    assert!(r.contains("予算"));
}

#[test]
fn test_empty_recommendation_budget() {
    let mut bot = DialogOrchestrator::new(3600);
    bot.process_message("u", "上司です", 0).unwrap();
    bot.process_message("u", "100円です", 1).unwrap();
    bot.process_message("u", "1人分です", 2).unwrap();
    bot.process_message("u", "男性です", 3).unwrap();
    bot.process_message("u", "50代です", 4).unwrap();
    let r = bot.process_message("u", "おすすめは？", 5).unwrap();
    assert!(r.contains("ご予算に合うギフトが見つかりませんでした"));
}
