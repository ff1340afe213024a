//! The turn-by-turn dialog step: one user message, one transition of the
//! conversation state machine, one slot update, one reply.  The canonical
//! slot order is relationship, budget, bulk flag, gender, age; a message
//! that already names a relationship while the dialog is at `Initial`
//! fills that slot at once.

use vstd::prelude::*;
use vstd::string::StringExecFns;
use crate::conversation::{
    ConversationState,
    Gender,
    UserContext,
    spec_extract_relationship,
    spec_extract_budget,
    spec_is_bulk,
    spec_extract_gender,
    extract_relationship,
    extract_budget,
    extract_bulk,
    extract_gender,
    opt_u64_int,
    state_index,
};
use crate::error::ChatError;
use crate::intent::{Intent, opt_string_view};
use crate::text::to_chars;

verus! {

/// Largest message length, in characters, the dialog accepts.
pub const MAX_MESSAGE_CHARS: usize = 500;

/// Whitespace as the dialog trims it.
pub open spec fn is_space(c: char) -> bool {
    c == ' ' || c == '\t' || c == '\n' || c == '\r' || c == '　'
}

/// A message that is empty after trimming.
pub open spec fn is_blank(t: Seq<char>) -> bool {
    forall|i: int| 0 <= i < t.len() ==> is_space(#[trigger] t[i])
}

/// Whether the message is empty after trimming.
pub fn blank(t: &Vec<char>) -> (b: bool)
    ensures
        b == is_blank(t@),
{
    let n = t.len();
    let mut i: usize = 0;
    while i < n
        invariant
            n == t@.len(),
            i <= n,
            forall|j: int| 0 <= j < i ==> is_space(#[trigger] t@[j]),
        decreases n - i,
    {
        let c = t[i];
        if !(c == ' ' || c == '\t' || c == '\n' || c == '\r' || c == '　') {
            return false;
        }
        i = i + 1;
    }
    true
}

/// What a turn asks the caller to do next: show a prompt, or run the
/// recommendation engine.
#[derive(Debug)]
pub enum TurnAction {
    Prompt(String),
    Recommend,
}

/// Ghost view of a turn's reply.
pub enum ReplyV {
    Prompt(Seq<char>),
    Recommend,
}

/// View of a turn action.
pub open spec fn action_view(a: TurnAction) -> ReplyV {
    match a {
        TurnAction::Prompt(s) => ReplyV::Prompt(s@),
        TurnAction::Recommend => ReplyV::Recommend,
    }
}

/// Ghost view of the slot set.
pub struct CtxV {
    pub relationship: Option<crate::gift::Relationship>,
    pub budget: Option<int>,
    pub is_bulk_gift: Option<bool>,
    pub recipient_gender: Option<Gender>,
    pub recipient_age: Option<Seq<char>>,
}

/// View of a user context's slots.
pub open spec fn ctx_view(c: UserContext) -> CtxV {
    CtxV {
        relationship: c.relationship,
        budget: opt_u64_int(c.budget),
        is_bulk_gift: c.is_bulk_gift,
        recipient_gender: c.recipient_gender,
        recipient_age: opt_string_view(c.recipient_age),
    }
}

/// The slot set with nothing filled.
pub open spec fn cleared_ctx() -> CtxV {
    CtxV {
        relationship: Option::None,
        budget: Option::None,
        is_bulk_gift: Option::None,
        recipient_gender: Option::None,
        recipient_age: Option::None,
    }
}

/// Ghost view of a turn's outcome.
pub struct StepV {
    pub state: ConversationState,
    pub ctx: CtxV,
    pub reply: ReplyV,
}

/// Outcome of a message that arrives while the dialog is at `Initial`:
/// an already-named relationship fills the slot and the dialog asks for
/// the budget; otherwise the dialog asks for the relationship, greeting
/// back when it was greeted.
pub open spec fn step_initial(c: CtxV, intent: Intent, t: Seq<char>) -> StepV {
    match spec_extract_relationship(t) {
        Option::Some(rel) => StepV {
            state: ConversationState::AskingBudget,
            ctx: CtxV {
                relationship: Option::Some(rel),
                budget: c.budget,
                is_bulk_gift: c.is_bulk_gift,
                recipient_gender: c.recipient_gender,
                recipient_age: c.recipient_age,
            },
            reply: ReplyV::Prompt("ご予算はどのくらいをお考えでしょうか？例：3万円、30000円など"@),
        },
        Option::None => StepV {
            state: ConversationState::AskingRelationship,
            ctx: c,
            reply: ReplyV::Prompt(
                if intent == Intent::Greeting {
                    "こんにちは、お返しコンシェルジュBOTです。お祝いをくれた相手との関係性を教えてください。"@
                } else {
                    "お祝いをくれた相手との関係性を教えてください。"@
                },
            ),
        },
    }
}

/// Outcome of one non-blank message: the next state, the slot set after
/// the turn, and the reply.  Extraction failures keep state and slots and
/// re-prompt; `Complete` starts a fresh pass over the same message.
pub open spec fn spec_step(s: ConversationState, c: CtxV, intent: Intent, t: Seq<char>) -> StepV {
    match s {
        ConversationState::Initial => step_initial(c, intent, t),
        ConversationState::AskingRelationship => match spec_extract_relationship(t) {
            Option::Some(rel) => StepV {
                state: ConversationState::AskingBudget,
                ctx: CtxV {
                    relationship: Option::Some(rel),
                    budget: c.budget,
                    is_bulk_gift: c.is_bulk_gift,
                    recipient_gender: c.recipient_gender,
                    recipient_age: c.recipient_age,
                },
                reply: ReplyV::Prompt(
                    "ご予算はどのくらいをお考えでしょうか？例：3万円、30000円など"@,
                ),
            },
            Option::None => StepV {
                state: s,
                ctx: c,
                reply: ReplyV::Prompt(
                    "申し訳ありません。もう一度、お相手との関係性を教えてください。例：上司、先輩、友人、親戚"@,
                ),
            },
        },
        ConversationState::AskingBudget => match spec_extract_budget(t) {
            Option::Some(b) => StepV {
                state: ConversationState::AskingBulkGift,
                ctx: CtxV {
                    relationship: c.relationship,
                    budget: Option::Some(b),
                    is_bulk_gift: c.is_bulk_gift,
                    recipient_gender: c.recipient_gender,
                    recipient_age: c.recipient_age,
                },
                reply: ReplyV::Prompt(
                    "複数の方へ同じギフトを贈りますか？それとも1人分でしょうか？"@,
                ),
            },
            Option::None => StepV {
                state: s,
                ctx: c,
                reply: ReplyV::Prompt(
                    "申し訳ありません。もう一度、ご予算を教えてください。例：3万円、30000円など"@,
                ),
            },
        },
        ConversationState::AskingBulkGift => StepV {
            state: ConversationState::AskingGender,
            ctx: CtxV {
                relationship: c.relationship,
                budget: c.budget,
                is_bulk_gift: Option::Some(spec_is_bulk(t)),
                recipient_gender: c.recipient_gender,
                recipient_age: c.recipient_age,
            },
            reply: ReplyV::Prompt("お相手の性別を教えてください。例：男性、女性"@),
        },
        ConversationState::AskingGender => StepV {
            state: ConversationState::AskingAge,
            ctx: CtxV {
                relationship: c.relationship,
                budget: c.budget,
                is_bulk_gift: c.is_bulk_gift,
                recipient_gender: Option::Some(spec_extract_gender(t)),
                recipient_age: c.recipient_age,
            },
            reply: ReplyV::Prompt("お相手の年齢層を教えてください。例：50代など"@),
        },
        ConversationState::AskingAge => StepV {
            state: ConversationState::Recommending,
            ctx: CtxV {
                relationship: c.relationship,
                budget: c.budget,
                is_bulk_gift: c.is_bulk_gift,
                recipient_gender: c.recipient_gender,
                recipient_age: Option::Some(t),
            },
            reply: ReplyV::Prompt(
                "ありがとうございます。次のメッセージで、最適なギフトをおすすめします。"@,
            ),
        },
        ConversationState::Recommending => StepV {
            state: ConversationState::Complete,
            ctx: c,
            reply: ReplyV::Recommend,
        },
        ConversationState::Complete => step_initial(cleared_ctx(), intent, t),
    }
}

/// Well-formed pairing of a dialog state with a slot set: every slot
/// whose question the dialog has moved past is filled.
pub open spec fn session_wf(s: ConversationState, c: CtxV) -> bool {
    &&& (state_index(s) >= 2 ==> c.relationship is Some)
    &&& (state_index(s) >= 3 ==> c.budget is Some)
    &&& (state_index(s) >= 4 ==> c.is_bulk_gift is Some)
    &&& (state_index(s) >= 5 ==> c.recipient_gender is Some)
    &&& (state_index(s) >= 6 ==> c.recipient_age is Some)
}

/// A dialog step keeps the state/slot pairing well formed: by the time
/// the engine is reached, relationship and budget are filled.
pub proof fn lemma_step_preserves_wf(s: ConversationState, c: CtxV, intent: Intent, t: Seq<char>)
    requires
        session_wf(s, c),
    ensures
        session_wf(spec_step(s, c, intent, t).state, spec_step(s, c, intent, t).ctx),
{
}

/// The dialog advances monotonically through the fixed sequence for every
/// message; the one way back is the explicit reset that follows
/// `Complete`, which lands at the start of a fresh pass.
pub proof fn lemma_step_monotonic(s: ConversationState, c: CtxV, intent: Intent, t: Seq<char>)
    ensures
        s != ConversationState::Complete ==> state_index(spec_step(s, c, intent, t).state)
            >= state_index(s),
        s == ConversationState::Complete ==> state_index(spec_step(s, c, intent, t).state) <= 2,
{
}

/// An invalid slot value never advances the dialog: the state and every
/// slot stay exactly as they were, and the turn only re-prompts.
pub proof fn lemma_invalid_no_advance(s: ConversationState, c: CtxV, intent: Intent, t: Seq<char>)
    requires
        (s == ConversationState::AskingRelationship && spec_extract_relationship(t) is None) || (s
            == ConversationState::AskingBudget && spec_extract_budget(t) is None),
    ensures
        spec_step(s, c, intent, t).state == s,
        spec_step(s, c, intent, t).ctx == c,
        spec_step(s, c, intent, t).reply is Prompt,
{
}

/// Each slot is written at most once per conversation pass: once the
/// dialog has moved past a slot's question, no later step changes that
/// slot until the reset after `Complete`.
pub proof fn lemma_slots_write_once(s: ConversationState, c: CtxV, intent: Intent, t: Seq<char>)
    requires
        s != ConversationState::Complete,
    ensures
        ({
            let st = spec_step(s, c, intent, t);
            &&& (state_index(s) >= 2 ==> st.ctx.relationship == c.relationship)
            &&& (state_index(s) >= 3 ==> st.ctx.budget == c.budget)
            &&& (state_index(s) >= 4 ==> st.ctx.is_bulk_gift == c.is_bulk_gift)
            &&& (state_index(s) >= 5 ==> st.ctx.recipient_gender == c.recipient_gender)
            &&& (state_index(s) >= 6 ==> st.ctx.recipient_age == c.recipient_age)
        }),
{
}

/// One dialog turn while the dialog is at `Initial` or freshly reset.
fn initial_turn(ctx: &mut UserContext, intent: Intent, t: &Vec<char>) -> (r: (
    ConversationState,
    TurnAction,
))
    ensures
        ({
            let st = step_initial(ctx_view(*old(ctx)), intent, t@);
            &&& r.0 == st.state
            &&& action_view(r.1) == st.reply
            &&& ctx_view(*final (ctx)) == st.ctx
            &&& final (ctx).user_id == old(ctx).user_id
        }),
{
    match extract_relationship(t) {
        Option::Some(rel) => {
            ctx.relationship = Option::Some(rel);
            (
                ConversationState::AskingBudget,
                TurnAction::Prompt(
                    String::from_str("ご予算はどのくらいをお考えでしょうか？例：3万円、30000円など"),
                ),
            )
        },
        Option::None => {
            if matches!(intent, Intent::Greeting) {
                (
                    ConversationState::AskingRelationship,
                    TurnAction::Prompt(
                        String::from_str(
                            "こんにちは、お返しコンシェルジュBOTです。お祝いをくれた相手との関係性を教えてください。",
                        ),
                    ),
                )
            } else {
                (
                    ConversationState::AskingRelationship,
                    TurnAction::Prompt(
                        String::from_str("お祝いをくれた相手との関係性を教えてください。"),
                    ),
                )
            }
        },
    }
}

/// Advances one user's conversation by one message.  A blank or oversized
/// message is an `InvalidInput` and changes nothing; any other message
/// steps the state machine exactly as `spec_step` states.
pub fn advance(ctx: &mut UserContext, state: ConversationState, intent: Intent, text: &str) -> (r:
    Result<(ConversationState, TurnAction), ChatError>)
    ensures
        (is_blank(text@) || text@.len() > MAX_MESSAGE_CHARS) ==> ({
            &&& *final (ctx) == *old(ctx)
            &&& match r {
                Result::Err(ChatError::InvalidInput(m)) => m@ == (if is_blank(text@) {
                    "申し訳ありません。メッセージが空のようです。もう一度入力してください。"@
                } else {
                    "申し訳ありません。メッセージが長すぎます。もう一度、短く入力してください。"@
                }),
                _ => false,
            }
        }),
        !(is_blank(text@) || text@.len() > MAX_MESSAGE_CHARS) ==> ({
            let st = spec_step(state, ctx_view(*old(ctx)), intent, text@);
            &&& r is Ok
            &&& r.unwrap().0 == st.state
            &&& action_view(r.unwrap().1) == st.reply
            &&& ctx_view(*final (ctx)) == st.ctx
            &&& final (ctx).user_id == old(ctx).user_id
        }),
{
    let t = to_chars(text);
    if blank(&t) {
        return Result::Err(
            ChatError::InvalidInput(
                String::from_str(
                    "申し訳ありません。メッセージが空のようです。もう一度入力してください。",
                ),
            ),
        );
    }
    if t.len() > MAX_MESSAGE_CHARS {
        return Result::Err(
            ChatError::InvalidInput(
                String::from_str(
                    "申し訳ありません。メッセージが長すぎます。もう一度、短く入力してください。",
                ),
            ),
        );
    }
    match state {
        ConversationState::Initial => Result::Ok(initial_turn(ctx, intent, &t)),
        ConversationState::AskingRelationship => {
            match extract_relationship(&t) {
                Option::Some(rel) => {
                    ctx.relationship = Option::Some(rel);
                    Result::Ok(
                        (
                            ConversationState::AskingBudget,
                            TurnAction::Prompt(
                                String::from_str(
                                    "ご予算はどのくらいをお考えでしょうか？例：3万円、30000円など",
                                ),
                            ),
                        ),
                    )
                },
                Option::None => Result::Ok(
                    (
                        state,
                        TurnAction::Prompt(
                            String::from_str(
                                "申し訳ありません。もう一度、お相手との関係性を教えてください。例：上司、先輩、友人、親戚",
                            ),
                        ),
                    ),
                ),
            }
        },
        ConversationState::AskingBudget => {
            match extract_budget(&t) {
                Option::Some(b) => {
                    ctx.budget = Option::Some(b);
                    Result::Ok(
                        (
                            ConversationState::AskingBulkGift,
                            TurnAction::Prompt(
                                String::from_str(
                                    "複数の方へ同じギフトを贈りますか？それとも1人分でしょうか？",
                                ),
                            ),
                        ),
                    )
                },
                Option::None => Result::Ok(
                    (
                        state,
                        TurnAction::Prompt(
                            String::from_str(
                                "申し訳ありません。もう一度、ご予算を教えてください。例：3万円、30000円など",
                            ),
                        ),
                    ),
                ),
            }
        },
        ConversationState::AskingBulkGift => {
            let b = extract_bulk(&t);
            ctx.is_bulk_gift = Option::Some(b);
            Result::Ok(
                (
                    ConversationState::AskingGender,
                    TurnAction::Prompt(
                        String::from_str("お相手の性別を教えてください。例：男性、女性"),
                    ),
                ),
            )
        },
        ConversationState::AskingGender => {
            let g = extract_gender(&t);
            ctx.recipient_gender = Option::Some(g);
            Result::Ok(
                (
                    ConversationState::AskingAge,
                    TurnAction::Prompt(
                        String::from_str("お相手の年齢層を教えてください。例：50代など"),
                    ),
                ),
            )
        },
        ConversationState::AskingAge => {
            ctx.recipient_age = Option::Some(String::from_str(text));
            Result::Ok(
                (
                    ConversationState::Recommending,
                    TurnAction::Prompt(
                        String::from_str(
                            "ありがとうございます。次のメッセージで、最適なギフトをおすすめします。",
                        ),
                    ),
                ),
            )
        },
        ConversationState::Recommending => Result::Ok(
            (ConversationState::Complete, TurnAction::Recommend),
        ),
        ConversationState::Complete => {
            ctx.reset_slots();
            Result::Ok(initial_turn(ctx, intent, &t))
        },
    }
}

} // verus!
