//! The composition root: one slot-filling session per user, routed
//! through classifier, state machine and engine.  Exactly one session
//! exists per user id, a message for one user never touches another
//! user's session, and the re-prompt loop is bounded: after three failed
//! extractions in a row the conversation resets with a fallback message.
//! Sessions are never dropped implicitly; the owner watches the session
//! count and rebuilds the orchestrator when it wants a bound on idle
//! contexts.

use vstd::prelude::*;
use vstd::string::StringExecFns;
use vstd::hash_map::StringHashMap;
use crate::cache::GiftCache;
use crate::conversation::{ConversationState, UserContext};
use crate::dialog::{
    advance,
    ctx_view,
    cleared_ctx,
    is_blank,
    spec_step,
    CtxV,
    ReplyV,
    TurnAction,
    MAX_MESSAGE_CHARS,
};
use crate::engine::{recommend_post, RecommendationEngine};
use crate::error::ChatError;
use crate::gift::GiftCandidate;
use crate::intent::{spec_classify, IntentClassifier};
use crate::text::dec_digits;

verus! {

/// Failed extractions tolerated in a row before the conversation resets.
pub const MAX_ATTEMPTS: u8 = 3;

/// One user's conversation: the slot set, the dialog state, the count of
/// consecutive failed extractions, and when the user was last heard.
#[derive(Debug)]
pub struct Session {
    pub ctx: UserContext,
    pub state: ConversationState,
    pub attempts: u8,
    pub last_active: u64,
}

/// A session at the start of its first pass for user `uid`.
pub open spec fn initial_session(s: Session, uid: Seq<char>) -> bool {
    &&& s.ctx.user_id@ == uid
    &&& ctx_view(s.ctx) == cleared_ctx()
    &&& s.state == ConversationState::Initial
    &&& s.attempts == 0
}

impl Session {
    /// A fresh session for `user_id`.
    pub fn new(user_id: String, now: u64) -> (r: Self)
        ensures
            initial_session(r, user_id@),
            r.last_active == now,
    {
        Session {
            ctx: UserContext::new(user_id),
            state: ConversationState::Initial,
            attempts: 0,
            last_active: now,
        }
    }

    /// An equal copy of the session.
    pub fn dup(&self) -> (r: Self)
        ensures
            r == *self,
    {
        Session {
            ctx: UserContext {
                user_id: self.ctx.user_id.clone(),
                relationship: self.ctx.relationship,
                budget: self.ctx.budget,
                is_bulk_gift: self.ctx.is_bulk_gift,
                recipient_gender: self.ctx.recipient_gender,
                recipient_age: crate::gift::dup_opt_string(&self.ctx.recipient_age),
            },
            state: self.state,
            attempts: self.attempts,
            last_active: self.last_active,
        }
    }
}

/// One line per candidate: its name and its price in yen.
pub open spec fn items_text(cands: Seq<GiftCandidate>) -> Seq<char>
    decreases cands.len(),
{
    if cands.len() == 0 {
        Seq::empty()
    } else {
        items_text(cands.drop_last()) + "\n・"@ + cands.last().name@ + "（"@ + dec_digits(
            cands.last().price as int,
        ) + "円）"@
    }
}

/// The reply text for a computed candidate list.
pub open spec fn render_recs(cands: Seq<GiftCandidate>) -> Seq<char> {
    if cands.len() == 0 {
        "申し訳ありません。ご予算に合うギフトが見つかりませんでした。条件を変えてもう一度お試しください。"@
    } else {
        "おすすめのギフトはこちらです。"@ + items_text(cands)
    }
}

/// Renders a candidate list as reply text.
pub fn render_recommendations(cands: &Vec<GiftCandidate>) -> (s: String)
    ensures
        s@ == render_recs(cands@),
{
    let n = cands.len();
    if n == 0 {
        return String::from_str(
            "申し訳ありません。ご予算に合うギフトが見つかりませんでした。条件を変えてもう一度お試しください。",
        );
    }
    let mut s = String::from_str("おすすめのギフトはこちらです。");
    let mut i: usize = 0;
    while i < n
        invariant
            n == cands@.len(),
            i <= n,
            s@ == "おすすめのギフトはこちらです。"@ + items_text(cands@.take(i as int)),
        decreases n - i,
    {
        let c = &cands[i];
        s.append("\n・");
        s.append(c.name.as_str());
        s.append("（");
        let p = crate::text::u64_to_string(c.price);
        s.append(p.as_str());
        s.append("円）");
        proof {
            assert(cands@.take(i + 1 as int).drop_last() =~= cands@.take(i as int));
            assert(cands@.take(i + 1 as int).last() == cands@[i as int]);
            assert(s@ =~= "おすすめのギフトはこちらです。"@ + items_text(
                cands@.take(i + 1 as int),
            ));
        }
        i = i + 1;
    }
    proof {
        assert(cands@.take(n as int) =~= cands@);
    }
    s
}

/// What one turn guarantees, for every message.  A blank or oversized
/// message changes nothing and apologizes; a re-prompted extraction
/// failure counts towards the bound and the third in a row resets the
/// conversation; the recommending turn consults the engine and renders
/// its list; every other turn steps the state machine exactly as
/// `spec_step` states.
pub open spec fn turn_post(
    pre_state: ConversationState,
    pre_ctx: CtxV,
    pre_uid: Seq<char>,
    pre_attempts: int,
    post: Session,
    cpre: GiftCache,
    cpost: GiftCache,
    text: Seq<char>,
    now: u64,
    reply: Seq<char>,
) -> bool {
    let intent = spec_classify(text);
    let st = spec_step(pre_state, pre_ctx, intent, text);
    &&& post.ctx.user_id@ == pre_uid
    &&& post.last_active == now
    &&& if is_blank(text) || text.len() > MAX_MESSAGE_CHARS {
        &&& post.state == pre_state
        &&& ctx_view(post.ctx) == pre_ctx
        &&& post.attempts == pre_attempts
        &&& cpost == cpre
        &&& reply == (if is_blank(text) {
            "申し訳ありません。メッセージが空のようです。もう一度入力してください。"@
        } else {
            "申し訳ありません。メッセージが長すぎます。もう一度、短く入力してください。"@
        })
    } else {
        match st.reply {
            ReplyV::Recommend => {
                if pre_ctx.relationship is Some && pre_ctx.budget is Some {
                    &&& post.state == st.state
                    &&& ctx_view(post.ctx) == st.ctx
                    &&& post.attempts == 0
                    &&& exists|cands: Seq<GiftCandidate>|
                        #[trigger] recommend_post(cpre, cpost, post.ctx, now, cands) && reply
                            == render_recs(cands)
                } else {
                    // invariant violation: the conversation resets
                    &&& post.state == ConversationState::Initial
                    &&& ctx_view(post.ctx) == cleared_ctx()
                    &&& post.attempts == 0
                    &&& cpost == cpre
                    &&& reply
                        == "申し訳ありません。内部エラーが発生しました。最初からやり直しましょう。"@
                }
            },
            ReplyV::Prompt(prompt) => {
                &&& cpost == cpre
                &&& if st.state == pre_state && pre_attempts + 1 >= MAX_ATTEMPTS {
                    &&& post.state == ConversationState::Initial
                    &&& ctx_view(post.ctx) == cleared_ctx()
                    &&& post.attempts == 0
                    &&& reply
                        == "申し訳ありません。うまく聞き取れませんでした。最初からやり直しましょう。どのようにお手伝いしましょうか？"@
                } else {
                    &&& post.state == st.state
                    &&& ctx_view(post.ctx) == st.ctx
                    &&& post.attempts == (if st.state == pre_state {
                        pre_attempts + 1
                    } else {
                        0
                    })
                    &&& reply == prompt
                }
            },
        }
    }
}

/// Runs one turn of a session: classifies the message, steps the state
/// machine, and on the recommending turn consults the engine.
pub fn run_turn(session: &mut Session, engine: &mut RecommendationEngine, text: &str, now: u64) -> (
    reply: String)
    ensures
        turn_post(
            old(session).state,
            ctx_view(old(session).ctx),
            old(session).ctx.user_id@,
            old(session).attempts as int,
            *final (session),
            old(engine).cache,
            final (engine).cache,
            text@,
            now,
            reply@,
        ),
{
    let classifier = IntentClassifier::new();
    let intent = classifier.classify_intent(text);
    let pre_state = session.state;
    let ghost pre_attempts = session.attempts;
    let step = advance(&mut session.ctx, pre_state, intent, text);
    match step {
        Result::Err(e) => {
            session.last_active = now;
            let reply = e.message().clone();
            reply
        },
        Result::Ok((next_state, action)) => {
            match action {
                TurnAction::Recommend => {
                    session.last_active = now;
                    match engine.recommend_checked(&session.ctx, now) {
                        Result::Ok(cands) => {
                            session.state = next_state;
                            session.attempts = 0;
                            render_recommendations(&cands)
                        },
                        Result::Err(_) => {
                            session.ctx.reset_slots();
                            session.state = ConversationState::Initial;
                            session.attempts = 0;
                            String::from_str(
                                "申し訳ありません。内部エラーが発生しました。最初からやり直しましょう。",
                            )
                        },
                    }
                },
                TurnAction::Prompt(prompt) => {
                    session.last_active = now;
                    if next_state == pre_state {
                        if session.attempts >= MAX_ATTEMPTS - 1 {
                            session.ctx.reset_slots();
                            session.state = ConversationState::Initial;
                            session.attempts = 0;
                            String::from_str(
                                "申し訳ありません。うまく聞き取れませんでした。最初からやり直しましょう。どのようにお手伝いしましょうか？",
                            )
                        } else {
                            session.state = next_state;
                            session.attempts = session.attempts + 1;
                            prompt
                        }
                    } else {
                        session.state = next_state;
                        session.attempts = 0;
                        prompt
                    }
                },
            }
        },
    }
}

/// A single-conversation assistant: one session and one engine.
#[derive(Debug)]
pub struct Chatbot {
    pub session: Session,
    pub engine: RecommendationEngine,
}

/// The time-to-live, in seconds, of a conversation's cached
/// recommendations.
pub const DEFAULT_CACHE_TTL_SECONDS: u64 = 3600;

impl Chatbot {
    /// A fresh assistant at the start of a conversation.
    pub fn new() -> (r: Self)
        ensures
            initial_session(r.session, "chatbot"@),
            r.engine.cache.spec_ttl() == DEFAULT_CACHE_TTL_SECONDS,
            forall|k: Seq<char>| !(#[trigger] r.engine.cache.has_key(k)),
    {
        Chatbot {
            session: Session::new(String::from_str("chatbot"), 0),
            engine: RecommendationEngine::new(DEFAULT_CACHE_TTL_SECONDS),
        }
    }

    /// The fixed opening line of a conversation.
    pub fn start_conversation(&self) -> (s: String)
        ensures
            s@ == "こんにちは、お返しコンシェルジュBOTです。どのようにお手伝いしましょうか？"@,
    {
        String::from_str(
            "こんにちは、お返しコンシェルジュBOTです。どのようにお手伝いしましょうか？",
        )
    }

    /// Handles one user message, at time `now`.
    pub fn handle_input(&mut self, text: &str, now: u64) -> (reply: String)
        ensures
            turn_post(
                old(self).session.state,
                ctx_view(old(self).session.ctx),
                old(self).session.ctx.user_id@,
                old(self).session.attempts as int,
                final (self).session,
                old(self).engine.cache,
                final (self).engine.cache,
                text@,
                now,
                reply@,
            ),
    {
        run_turn(&mut self.session, &mut self.engine, text, now)
    }

    /// Handles one user message, never failing: invalid input surfaces as
    /// re-prompt text, as the turn contract states.
    pub fn process_message(&mut self, text: &str, now: u64) -> (r: Result<String, ChatError>)
        ensures
            r is Ok,
            turn_post(
                old(self).session.state,
                ctx_view(old(self).session.ctx),
                old(self).session.ctx.user_id@,
                old(self).session.attempts as int,
                final (self).session,
                old(self).engine.cache,
                final (self).engine.cache,
                text@,
                now,
                r.unwrap()@,
            ),
    {
        Result::Ok(run_turn(&mut self.session, &mut self.engine, text, now))
    }
}

/// The per-user composition root: owns one session per user id and the
/// shared recommendation engine, and routes each message through
/// classifier, state machine and engine.
pub struct DialogOrchestrator {
    pub sessions: StringHashMap<Session>,
    pub engine: RecommendationEngine,
}

impl DialogOrchestrator {
    /// The session of each known user.
    pub open spec fn sessions(&self) -> Map<Seq<char>, Session> {
        self.sessions@
    }

    /// An orchestrator with no users and an empty cache.
    pub fn new(ttl_seconds: u64) -> (r: Self)
        ensures
            r.sessions() == Map::<Seq<char>, Session>::empty(),
            r.engine.cache.spec_ttl() == ttl_seconds,
            forall|k: Seq<char>| !(#[trigger] r.engine.cache.has_key(k)),
    {
        DialogOrchestrator {
            sessions: StringHashMap::new(),
            engine: RecommendationEngine::new(ttl_seconds),
        }
    }

    /// Routes one message: the user's session advances by one turn and no
    /// other user's session is touched.  A session is created lazily on a
    /// user's first message.  The call always answers with user-facing
    /// text, never a raw error.
    pub fn process_message(&mut self, user_id: &str, text: &str, now: u64) -> (r: Result<
        String,
        ChatError,
    >)
        ensures
            r is Ok,
            final (self).sessions().contains_key(user_id@),
            forall|u: Seq<char>|
                u != user_id@ ==> (#[trigger] final (self).sessions().contains_key(u)) == old(self).sessions().contains_key(u),
            forall|u: Seq<char>|
                u != user_id@ && old(self).sessions().contains_key(u) ==> (#[trigger] final (self).sessions()[u]) == old(self).sessions()[u],
            turn_post(
                (if old(self).sessions().contains_key(user_id@) {
                    old(self).sessions()[user_id@].state
                } else {
                    ConversationState::Initial
                }),
                (if old(self).sessions().contains_key(user_id@) {
                    ctx_view(old(self).sessions()[user_id@].ctx)
                } else {
                    cleared_ctx()
                }),
                (if old(self).sessions().contains_key(user_id@) {
                    old(self).sessions()[user_id@].ctx.user_id@
                } else {
                    user_id@
                }),
                (if old(self).sessions().contains_key(user_id@) {
                    old(self).sessions()[user_id@].attempts as int
                } else {
                    0
                }),
                final (self).sessions()[user_id@],
                old(self).engine.cache,
                final (self).engine.cache,
                text@,
                now,
                r.unwrap()@,
            ),
    {
        let mut sess: Session = match self.sessions.get(user_id) {
            Option::Some(s) => s.dup(),
            Option::None => Session::new(String::from_str(user_id), now),
        };
        let ghost pre_sess = sess;
        let reply = run_turn(&mut sess, &mut self.engine, text, now);
        self.sessions.insert(String::from_str(user_id), sess);
        proof {
            assert(self.sessions@[user_id@] == sess);
            if old(self).sessions().contains_key(user_id@) {
                assert(pre_sess == old(self).sessions()[user_id@]);
            } else {
                assert(initial_session(pre_sess, user_id@));
            }
        }
        Result::Ok(reply)
    }

    /// How many users have a session.  Sessions are never dropped
    /// implicitly: the owner watches this count and evicts idle users
    /// explicitly when it wants a bound on memory.
    pub fn session_count(&self) -> (n: usize)
        ensures
            n == self.sessions().len(),
    {
        self.sessions.len()
    }

    /// Drops one user's session; every other session stays as it is.
    /// This is the explicit eviction hook for idle contexts.
    pub fn remove_session(&mut self, user_id: &str)
        ensures
            final (self).sessions() == old(self).sessions().remove(user_id@),
            final (self).engine.cache == old(self).engine.cache,
    {
        self.sessions.remove(user_id);
    }
}

} // verus!
