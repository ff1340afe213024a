use conselju::conversation::{
    extract_budget, extract_bulk, extract_gender, extract_relationship, age_value,
    ConversationHandler, ConversationState, Gender, UserContext,
};
use conselju::dialog::{advance, TurnAction};
use conselju::gift::Relationship;
use conselju::intent::Intent;
use conselju::text::to_chars;

#[test]
fn conversation_handler_test_conversation_flow() {
    let mut handler = ConversationHandler::new();

    assert!(matches!(
        handler.get_current_state(),
        ConversationState::Initial
    ));
    assert!(handler.get_next_question().contains("関係"));

    handler.transition();
    assert!(matches!(
        handler.get_current_state(),
        ConversationState::AskingRelationship
    ));
    assert!(handler.get_next_question().contains("予算"));

    handler.transition();
    assert!(matches!(
        handler.get_current_state(),
        ConversationState::AskingBudget
    ));
    assert!(handler.get_next_question().contains("複数"));

    handler.transition();
    assert!(matches!(
        handler.get_current_state(),
        ConversationState::AskingBulkGift
    ));
    assert!(handler.get_next_question().contains("性別"));

    handler.transition();
    assert!(matches!(
        handler.get_current_state(),
        ConversationState::AskingGender
    ));
    assert!(handler.get_next_question().contains("年齢"));

    handler.transition();
    assert!(matches!(
        handler.get_current_state(),
        ConversationState::AskingAge
    ));
    assert!(handler.get_next_question().contains("ありがとうございます"));

    handler.transition();
    assert!(matches!(
        handler.get_current_state(),
        ConversationState::Complete
    ));
    assert!(handler.get_next_question().contains("他に"));

    assert_eq!(handler.get_step_count(), 6);
}

#[test]
fn test_budget_extraction_values() {
    assert_eq!(extract_budget(&to_chars("3万円")), Some(30000));
    assert_eq!(extract_budget(&to_chars("30000円")), Some(30000));
    assert_eq!(extract_budget(&to_chars("たくさん")), None);
    assert_eq!(extract_budget(&to_chars("3万円です")), Some(30000));
    assert_eq!(extract_budget(&to_chars("予算は5000円くらい")), Some(5000));
}

#[test]
fn test_budget_failure_keeps_state() {
    let mut ctx = UserContext::new("u".to_string());
    ctx.relationship = Some(Relationship::Boss);
    let r = advance(
        &mut ctx,
        ConversationState::AskingBudget,
        Intent::Unknown,
        "たくさん",
    );
    match r {
        Ok((state, TurnAction::Prompt(p))) => {
            assert!(matches!(state, ConversationState::AskingBudget));
            assert!(p.contains("もう一度"));
        }
        _ => panic!("budget failure must re-prompt"),
    }
    assert_eq!(ctx.budget, None);
}

#[test]
fn test_relationship_extraction() {
    assert_eq!(
        extract_relationship(&to_chars("上司です")),
        Some(Relationship::Boss)
    );
    assert_eq!(
        extract_relationship(&to_chars("会社の先輩")),
        Some(Relationship::Colleague)
    );
    assert_eq!(
        extract_relationship(&to_chars("友人に")),
        Some(Relationship::Friend)
    );
    assert_eq!(
        extract_relationship(&to_chars("親戚の集まり")),
        Some(Relationship::Family)
    );
    assert_eq!(extract_relationship(&to_chars("近所の人")), None);
}

#[test]
fn test_bulk_and_gender_extraction() {
    assert!(extract_bulk(&to_chars("全員同じものを贈りたい")));
    assert!(extract_bulk(&to_chars("3人分まとめて")));
    assert!(!extract_bulk(&to_chars("1人分です")));
    assert!(matches!(extract_gender(&to_chars("男性です")), Gender::Male));
    assert!(matches!(extract_gender(&to_chars("女性です")), Gender::Female));
    assert!(matches!(extract_gender(&to_chars("さあ")), Gender::Unknown));
}

#[test]
fn test_age_value_reads_decade() {
    assert_eq!(age_value(&to_chars("50代です")), Some(50));
    assert_eq!(age_value(&to_chars("23歳")), Some(23));
    assert_eq!(age_value(&to_chars("年齢はひみつ")), None);
}

#[test]
fn test_empty_message_is_invalid_input() {
    let mut ctx = UserContext::new("u".to_string());
    let r = advance(&mut ctx, ConversationState::Initial, Intent::Unknown, "   ");
    assert!(r.is_err());
    let e = r.err().unwrap();
    assert!(e.message().contains("申し訳ありません"));
    assert!(e.message().contains("もう一度"));
}
