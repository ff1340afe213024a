use conselju::conversation::{Gender, UserContext};
use conselju::engine::RecommendationEngine;
use conselju::gift::Relationship;

fn context_for(rel: Relationship, budget: u64) -> UserContext {
    let mut ctx = UserContext::new("tester".to_string());
    ctx.relationship = Some(rel);
    ctx.budget = Some(budget);
    ctx.is_bulk_gift = Some(false);
    ctx.recipient_gender = Some(Gender::Unknown);
    ctx.recipient_age = Some("30代".to_string());
    ctx
}

#[test]
fn test_search_results() {
    let mut engine = RecommendationEngine::new(3600);
    let ctx = context_for(Relationship::Friend, 30000);
    let results = engine.recommend(&ctx, 0);
    assert!(!results.is_empty(), "検索結果は空ではないこと");
}

#[test]
fn test_filter_criteria() {
    let mut engine = RecommendationEngine::new(3600);
    let ctx = context_for(Relationship::Boss, 50000);
    let results = engine.recommend(&ctx, 0);
    assert!(
        results.iter().all(|item| item.price <= 50000),
        "すべてのアイテムが指定された価格範囲内であること"
    );
}

#[test]
fn test_proposal_count() {
    let mut engine = RecommendationEngine::new(3600);
    let ctx = context_for(Relationship::Family, 20000);
    let results = engine.recommend(&ctx, 0);
    assert_eq!(results.len(), 3, "提案されるギフトの数は正確に3つであること");
}

#[test]
fn test_budget_ceiling_enforced() {
    let mut engine = RecommendationEngine::new(3600);
    for budget in [500u64, 4000, 5000, 8000, 30000] {
        let ctx = context_for(Relationship::Boss, budget);
        let results = engine.recommend(&ctx, 0);
        for c in &results {
            assert!(c.price <= budget);
        }
    }
    // a budget below every base price leaves nothing
    let ctx = context_for(Relationship::Boss, 500);
    assert!(engine.recommend(&ctx, 0).is_empty());
}

#[test]
fn test_unrecognized_relationship_falls_back() {
    let mut engine = RecommendationEngine::new(3600);
    let ctx = context_for(Relationship::Other, 7000);
    let results = engine.recommend(&ctx, 0);
    // the generic two-item set, priced at the requested budget
    assert_eq!(results.len(), 2);
    assert_eq!(results[0].name, "カタログギフト");
    assert_eq!(results[0].price, 7000);
    assert_eq!(results[1].name, "商品券");
    assert_eq!(results[1].price, 7000);
}

#[test]
fn test_male_drops_beauty_categories() {
    let mut engine = RecommendationEngine::new(3600);
    let mut ctx = context_for(Relationship::Friend, 30000);
    ctx.recipient_gender = Some(Gender::Male);
    let results = engine.recommend(&ctx, 0);
    for c in &results {
        assert_ne!(c.category, "コスメ");
        assert_ne!(c.category, "アクセサリー");
    }
}

#[test]
fn test_bulk_discount_lowers_prices() {
    let mut engine = RecommendationEngine::new(3600);
    let mut ctx = context_for(Relationship::Boss, 30000);
    ctx.is_bulk_gift = Some(true);
    let results = engine.recommend(&ctx, 0);
    assert!(!results.is_empty());
    for c in &results {
        // base prices are 4000, 5000 and 8000; ten percent comes off each
        assert_eq!(c.price % 100, 0);
        assert!(c.price == 3600 || c.price == 4500 || c.price == 7200);
        assert!(c.description.contains("まとめ買い割引"));
    }
}

#[test]
fn test_cache_hit_is_idempotent() {
    let mut engine = RecommendationEngine::new(3600);
    let ctx = context_for(Relationship::Boss, 30000);
    let first = engine.recommend(&ctx, 0);
    let second = engine.recommend(&ctx, 1);
    assert_eq!(first.len(), second.len());
    for (a, b) in first.iter().zip(second.iter()) {
        assert_eq!(a.name, b.name);
        assert_eq!(a.price, b.price);
    }
}

#[test]
fn test_expired_cache_entry_is_recomputed() {
    let mut engine = RecommendationEngine::new(10);
    let ctx = context_for(Relationship::Boss, 30000);
    let first = engine.recommend(&ctx, 0);
    // well past the time-to-live the entry is stale and recomputed
    let second = engine.recommend(&ctx, 100);
    assert_eq!(first.len(), second.len());
}
