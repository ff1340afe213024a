//! Conversation model: the dialog states, the per-user slot set, the
//! question stepper, and the slot-extraction rules for relationship,
//! budget, bulk flag, gender and age.

use vstd::prelude::*;
use crate::text::{
    contains_seq,
    is_digit,
    digits_value,
    pow10,
    lemma_digits_value_bound,
    is_digit_char,
};
use crate::gift::Relationship;

verus! {

/// The closed set of dialog states.  A conversation advances through them
/// in the order written here, and loops back to `Initial` after
/// `Complete`.
#[derive(Clone, Copy, Debug, PartialEq, Eq, Structural)]
pub enum ConversationState {
    Initial,
    AskingRelationship,
    AskingBudget,
    AskingBulkGift,
    AskingGender,
    AskingAge,
    Recommending,
    Complete,
}

/// Position of a state in the fixed sequence.
pub open spec fn state_index(s: ConversationState) -> int {
    match s {
        ConversationState::Initial => 0,
        ConversationState::AskingRelationship => 1,
        ConversationState::AskingBudget => 2,
        ConversationState::AskingBulkGift => 3,
        ConversationState::AskingGender => 4,
        ConversationState::AskingAge => 5,
        ConversationState::Recommending => 6,
        ConversationState::Complete => 7,
    }
}

/// Recipient gender as the dialog records it.
#[derive(Clone, Copy, Debug, PartialEq, Eq, Structural)]
pub enum Gender {
    Male,
    Female,
    Unknown,
}

/// The slot set gathered for one user across turns.  Created lazily on the
/// user's first message and mutated in place as slots fill.
#[derive(Debug)]
pub struct UserContext {
    pub user_id: String,
    pub relationship: Option<Relationship>,
    pub budget: Option<u64>,
    pub is_bulk_gift: Option<bool>,
    pub recipient_gender: Option<Gender>,
    pub recipient_age: Option<String>,
}

impl UserContext {
    /// A fresh context with no slot filled.
    pub fn new(user_id: String) -> (r: Self)
        ensures
            r.user_id == user_id,
            r.relationship is None,
            r.budget is None,
            r.is_bulk_gift is None,
            r.recipient_gender is None,
            r.recipient_age is None,
    {
        UserContext {
            user_id,
            relationship: Option::None,
            budget: Option::None,
            is_bulk_gift: Option::None,
            recipient_gender: Option::None,
            recipient_age: Option::None,
        }
    }

    /// Clears every slot, keeping the user id: the reset that starts a new
    /// conversation pass.
    pub fn reset_slots(&mut self)
        ensures
            final (self).user_id == old(self).user_id,
            final (self).relationship is None,
            final (self).budget is None,
            final (self).is_bulk_gift is None,
            final (self).recipient_gender is None,
            final (self).recipient_age is None,
    {
        self.relationship = Option::None;
        self.budget = Option::None;
        self.is_bulk_gift = Option::None;
        self.recipient_gender = Option::None;
        self.recipient_age = Option::None;
    }
}

/// Successor of a state in the question stepper.  `Recommending` is a
/// transient phase of the full dialog; the stepper goes straight from the
/// age question to `Complete`, and `Complete` absorbs.
pub open spec fn handler_next(s: ConversationState) -> ConversationState {
    match s {
        ConversationState::Initial => ConversationState::AskingRelationship,
        ConversationState::AskingRelationship => ConversationState::AskingBudget,
        ConversationState::AskingBudget => ConversationState::AskingBulkGift,
        ConversationState::AskingBulkGift => ConversationState::AskingGender,
        ConversationState::AskingGender => ConversationState::AskingAge,
        ConversationState::AskingAge => ConversationState::Complete,
        ConversationState::Recommending => ConversationState::Complete,
        ConversationState::Complete => ConversationState::Complete,
    }
}

/// The question the stepper asks while in state `s`.
pub open spec fn handler_question(s: ConversationState) -> Seq<char> {
    match s {
        ConversationState::Initial => "ギフト選びのお手伝いをさせていただきます。まず、贈り主様との関係を教えていただけますか？\n例：上司、先輩、友人、親戚など"@,
        ConversationState::AskingRelationship => "ご予算はどのくらいをお考えでしょうか？\n例：3万円、5000円など"@,
        ConversationState::AskingBudget => "複数の方へのギフトをお探しでしょうか？それとも1名様分でしょうか？\n例：3人分まとめて、1人分"@,
        ConversationState::AskingBulkGift => "受け取られる方の性別を教えていただけますか？\n例：男性、女性"@,
        ConversationState::AskingGender => "受け取られる方の年齢層を教えていただけますか？\n例：20代、30代、40代など"@,
        ConversationState::AskingAge => "ありがとうございます。これらの情報を基に、最適なギフトをご提案させていただきます。"@,
        ConversationState::Recommending => "おすすめのギフトをご提案します。少々お待ちください。"@,
        ConversationState::Complete => "他にご要望やご質問はございますか？\n例：のし紙の書き方、マナーについてなど"@,
    }
}

/// Steps through the fixed question sequence and counts the steps taken.
#[derive(Debug)]
pub struct ConversationHandler {
    state: ConversationState,
    step_counter: usize,
}

impl ConversationHandler {
    /// The state the stepper is in.
    pub closed spec fn spec_state(&self) -> ConversationState {
        self.state
    }

    /// How many transitions have been taken.
    pub closed spec fn spec_steps(&self) -> int {
        self.step_counter as int
    }

    /// A stepper at the start of the sequence.
    pub fn new() -> (r: Self)
        ensures
            r.spec_state() == ConversationState::Initial,
            r.spec_steps() == 0,
    {
        ConversationHandler { state: ConversationState::Initial, step_counter: 0 }
    }

    /// Moves to the next state of the fixed sequence.  The step counter
    /// saturates instead of wrapping.
    pub fn transition(&mut self)
        ensures
            final (self).spec_state() == handler_next(old(self).spec_state()),
            final (self).spec_steps() == if old(self).spec_steps() < usize::MAX {
                old(self).spec_steps() + 1
            } else {
                old(self).spec_steps()
            },
    {
        self.state = match self.state {
            ConversationState::Initial => ConversationState::AskingRelationship,
            ConversationState::AskingRelationship => ConversationState::AskingBudget,
            ConversationState::AskingBudget => ConversationState::AskingBulkGift,
            ConversationState::AskingBulkGift => ConversationState::AskingGender,
            ConversationState::AskingGender => ConversationState::AskingAge,
            ConversationState::AskingAge => ConversationState::Complete,
            ConversationState::Recommending => ConversationState::Complete,
            ConversationState::Complete => ConversationState::Complete,
        };
        if self.step_counter < usize::MAX {
            self.step_counter = self.step_counter + 1;
        }
    }

    /// The question to ask in the current state.
    pub fn get_next_question(&self) -> (q: String)
        ensures
            q@ == handler_question(self.spec_state()),
    {
        match self.state {
            ConversationState::Initial => String::from_str(
                "ギフト選びのお手伝いをさせていただきます。まず、贈り主様との関係を教えていただけますか？\n例：上司、先輩、友人、親戚など",
            ),
            ConversationState::AskingRelationship => String::from_str(
                "ご予算はどのくらいをお考えでしょうか？\n例：3万円、5000円など",
            ),
            ConversationState::AskingBudget => String::from_str(
                "複数の方へのギフトをお探しでしょうか？それとも1名様分でしょうか？\n例：3人分まとめて、1人分",
            ),
            ConversationState::AskingBulkGift => String::from_str(
                "受け取られる方の性別を教えていただけますか？\n例：男性、女性",
            ),
            ConversationState::AskingGender => String::from_str(
                "受け取られる方の年齢層を教えていただけますか？\n例：20代、30代、40代など",
            ),
            ConversationState::AskingAge => String::from_str(
                "ありがとうございます。これらの情報を基に、最適なギフトをご提案させていただきます。",
            ),
            ConversationState::Recommending => String::from_str(
                "おすすめのギフトをご提案します。少々お待ちください。",
            ),
            ConversationState::Complete => String::from_str(
                "他にご要望やご質問はございますか？\n例：のし紙の書き方、マナーについてなど",
            ),
        }
    }

    /// The current state.
    pub fn get_current_state(&self) -> (r: &ConversationState)
        ensures
            *r == self.spec_state(),
    {
        &self.state
    }

    /// The number of transitions taken so far.
    pub fn get_step_count(&self) -> (r: usize)
        ensures
            r as int == self.spec_steps(),
    {
        self.step_counter
    }
}

/// Relationship slot: first match in the fixed vocabulary wins.
pub open spec fn spec_extract_relationship(t: Seq<char>) -> Option<Relationship> {
    if contains_seq(t, "上司"@) {
        Option::Some(Relationship::Boss)
    } else if contains_seq(t, "先輩"@) {
        Option::Some(Relationship::Colleague)
    } else if contains_seq(t, "友人"@) {
        Option::Some(Relationship::Friend)
    } else if contains_seq(t, "親戚"@) {
        Option::Some(Relationship::Family)
    } else {
        Option::None
    }
}

/// Extracts the relationship slot from a message.
pub fn extract_relationship(t: &Vec<char>) -> (r: Option<Relationship>)
    ensures
        r == spec_extract_relationship(t@),
{
    proof {
        reveal_strlit("上司");
        reveal_strlit("先輩");
        reveal_strlit("友人");
        reveal_strlit("親戚");
    }
    if crate::text::contains_lit(t, "上司") {
        Option::Some(Relationship::Boss)
    } else if crate::text::contains_lit(t, "先輩") {
        Option::Some(Relationship::Colleague)
    } else if crate::text::contains_lit(t, "友人") {
        Option::Some(Relationship::Friend)
    } else if crate::text::contains_lit(t, "親戚") {
        Option::Some(Relationship::Family)
    } else {
        Option::None
    }
}

/// First index `>= i` where `c` occurs, `-1` when there is none.
pub open spec fn find_char_from(t: Seq<char>, c: char, i: int) -> int
    decreases t.len() - i,
{
    if i < 0 || i >= t.len() {
        -1
    } else if t[i] == c {
        i
    } else {
        find_char_from(t, c, i + 1)
    }
}

/// Start of the maximal run of digits that ends just before `end`,
/// bounded below by `lo`.
pub open spec fn digit_run_start(t: Seq<char>, end: int, lo: int) -> int
    decreases end - lo,
{
    if end <= lo || end < 1 || end > t.len() || !is_digit(t[end - 1]) {
        end
    } else {
        digit_run_start(t, end - 1, lo)
    }
}

/// Budget slot: locate the first currency marker, read the run of digits
/// in a bounded window of seven just before it, and multiply by ten
/// thousand when the ten-thousand unit marker stands between digits and
/// marker.  No digits means no budget.
pub open spec fn spec_extract_budget(t: Seq<char>) -> Option<int> {
    let y = find_char_from(t, '円', 0);
    if y < 0 {
        Option::None
    } else {
        let mult: int = if y >= 1 && t[y - 1] == '万' {
            10000
        } else {
            1
        };
        let end: int = if y >= 1 && t[y - 1] == '万' {
            y - 1
        } else {
            y
        };
        let lo: int = if end - 7 >= 0 {
            end - 7
        } else {
            0
        };
        let start = digit_run_start(t, end, lo);
        if start == end {
            Option::None
        } else {
            Option::Some(digits_value(t.subrange(start, end)) * mult)
        }
    }
}

/// View of an optional machine word as an optional mathematical integer.
pub open spec fn opt_u64_int(o: Option<u64>) -> Option<int> {
    match o {
        Option::Some(v) => Option::Some(v as int),
        Option::None => Option::None,
    }
}

pub proof fn lemma_pow10_pos(n: nat)
    ensures
        pow10(n) >= 1,
    decreases n,
{
    if n > 0 {
        lemma_pow10_pos((n - 1) as nat);
    }
}

pub proof fn lemma_pow10_mono(a: nat, b: nat)
    requires
        a <= b,
    ensures
        pow10(a) <= pow10(b),
    decreases b,
{
    lemma_pow10_pos(a);
    if a < b {
        lemma_pow10_mono(a, (b - 1) as nat);
        lemma_pow10_pos((b - 1) as nat);
    }
}

/// Extracts the budget slot from a message.
pub fn extract_budget(t: &Vec<char>) -> (r: Option<u64>)
    ensures
        opt_u64_int(r) == spec_extract_budget(t@),
{
    let n = t.len();
    // locate the first currency marker
    let mut i: usize = 0;
    while i < n && t[i] != '円'
        invariant
            n == t@.len(),
            i <= n,
            find_char_from(t@, '円', 0) == find_char_from(t@, '円', i as int),
        decreases n - i,
    {
        proof {
            assert(find_char_from(t@, '円', i as int) == find_char_from(t@, '円', i + 1 as int));
        }
        i = i + 1;
    }
    if i == n {
        assert(find_char_from(t@, '円', n as int) == -1);
        return Option::None;
    }
    let y = i;
    assert(find_char_from(t@, '円', 0) == y as int);
    // the ten-thousand marker shifts the digit window left by one
    let man = y >= 1 && t[y - 1] == '万';
    let end: usize = if man {
        y - 1
    } else {
        y
    };
    let lo: usize = if end >= 7 {
        end - 7
    } else {
        0
    };
    // scan back over the digit window
    let mut start: usize = end;
    while start > lo && is_digit_char(t[start - 1])
        invariant
            n == t@.len(),
            end <= n,
            lo <= start <= end,
            digit_run_start(t@, end as int, lo as int) == digit_run_start(
                t@,
                start as int,
                lo as int,
            ),
            forall|k: int| start <= k < end ==> is_digit(#[trigger] t@[k]),
        decreases start,
    {
        proof {
            assert(digit_run_start(t@, start as int, lo as int) == digit_run_start(
                t@,
                start - 1 as int,
                lo as int,
            ));
        }
        start = start - 1;
    }
    assert(digit_run_start(t@, end as int, lo as int) == start as int);
    if start == end {
        return Option::None;
    }
    // parse the digit window
    let ghost win = t@.subrange(start as int, end as int);
    proof {
        assert(forall|k: int| 0 <= k < win.len() ==> is_digit(#[trigger] win[k]));
    }
    let mut v: u64 = 0;
    let mut k: usize = start;
    while k < end
        invariant
            n == t@.len(),
            end <= n,
            start <= k <= end,
            end - start <= 7,
            forall|j: int| start <= j < end ==> is_digit(#[trigger] t@[j]),
            v as int == digits_value(t@.subrange(start as int, k as int)),
            (v as int) < pow10((k - start) as nat),
        decreases end - k,
    {
        let c = t[k];
        proof {
            assert(is_digit(t@[k as int]));
        }
        let d: u64 = (c as u32 - 48) as u64;
        proof {
            assert(t@.subrange(start as int, k + 1 as int).drop_last() =~= t@.subrange(
                start as int,
                k as int,
            ));
            lemma_pow10_mono(((k - start) as nat), 6);
            assert(pow10(6) == 1000000) by {
                reveal_with_fuel(pow10, 8);
            }
            assert(pow10(((k + 1) - start) as nat) == 10 * pow10((k - start) as nat));
        }
        v = v * 10 + d;
        k = k + 1;
    }
    proof {
        assert(t@.subrange(start as int, end as int) == win);
        lemma_digits_value_bound(win);
        lemma_pow10_mono(win.len(), 7);
        assert(pow10(7) == 10000000) by {
            reveal_with_fuel(pow10, 8);
        }
    }
    if man {
        Option::Some(v * 10000)
    } else {
        Option::Some(v)
    }
}

/// Bulk-gift slot: a "same for everyone" marker makes the gift a bulk
/// gift; anything else means a single recipient.
pub open spec fn spec_is_bulk(t: Seq<char>) -> bool {
    contains_seq(t, "同じ"@) || contains_seq(t, "まとめて"@) || contains_seq(t, "全員"@)
}

/// Extracts the bulk-gift flag from a message.
pub fn extract_bulk(t: &Vec<char>) -> (b: bool)
    ensures
        b == spec_is_bulk(t@),
{
    proof {
        reveal_strlit("同じ");
        reveal_strlit("まとめて");
        reveal_strlit("全員");
    }
    crate::text::contains_lit(t, "同じ") || crate::text::contains_lit(t, "まとめて")
        || crate::text::contains_lit(t, "全員")
}

/// Gender slot: the first gender marker wins; no marker maps to
/// `Unknown`.
pub open spec fn spec_extract_gender(t: Seq<char>) -> Gender {
    if contains_seq(t, "男"@) {
        Gender::Male
    } else if contains_seq(t, "女"@) {
        Gender::Female
    } else {
        Gender::Unknown
    }
}

/// Extracts the gender slot from a message.
pub fn extract_gender(t: &Vec<char>) -> (g: Gender)
    ensures
        g == spec_extract_gender(t@),
{
    proof {
        reveal_strlit("男");
        reveal_strlit("女");
    }
    if crate::text::contains_lit(t, "男") {
        Gender::Male
    } else if crate::text::contains_lit(t, "女") {
        Gender::Female
    } else {
        Gender::Unknown
    }
}

/// First index `>= i` holding a digit, `-1` when there is none.
pub open spec fn find_digit_from(t: Seq<char>, i: int) -> int
    decreases t.len() - i,
{
    if i < 0 || i >= t.len() {
        -1
    } else if is_digit(t[i]) {
        i
    } else {
        find_digit_from(t, i + 1)
    }
}

/// End of the run of digits starting at `i`, bounded above by `hi`.
pub open spec fn digit_run_end(t: Seq<char>, i: int, hi: int) -> int
    decreases hi - i,
{
    if i >= hi || i < 0 || i >= t.len() || !is_digit(t[i]) {
        i
    } else {
        digit_run_end(t, i + 1, hi)
    }
}

/// Age read from free text: the first run of digits, up to three of them.
/// "50代" reads as fifty.
pub open spec fn spec_age_value(t: Seq<char>) -> Option<int> {
    let d = find_digit_from(t, 0);
    if d < 0 {
        Option::None
    } else {
        let hi: int = if d + 3 <= t.len() {
            d + 3
        } else {
            t.len() as int
        };
        let e = digit_run_end(t, d, hi);
        Option::Some(digits_value(t.subrange(d, e)))
    }
}

/// Reads the recipient age out of the retained age text.
pub fn age_value(t: &Vec<char>) -> (r: Option<u64>)
    ensures
        opt_u64_int(r) == spec_age_value(t@),
{
    let n = t.len();
    let mut i: usize = 0;
    while i < n && !is_digit_char(t[i])
        invariant
            n == t@.len(),
            i <= n,
            find_digit_from(t@, 0) == find_digit_from(t@, i as int),
        decreases n - i,
    {
        proof {
            assert(find_digit_from(t@, i as int) == find_digit_from(t@, i + 1 as int));
        }
        i = i + 1;
    }
    if i == n {
        assert(find_digit_from(t@, n as int) == -1);
        return Option::None;
    }
    let d = i;
    assert(find_digit_from(t@, 0) == d as int);
    let hi: usize = if n - d >= 3 {
        d + 3
    } else {
        n
    };
    let mut e: usize = d;
    while e < hi && is_digit_char(t[e])
        invariant
            n == t@.len(),
            hi <= n,
            d <= e <= hi,
            digit_run_end(t@, d as int, hi as int) == digit_run_end(t@, e as int, hi as int),
            forall|k: int| d <= k < e ==> is_digit(#[trigger] t@[k]),
        decreases hi - e,
    {
        proof {
            assert(digit_run_end(t@, e as int, hi as int) == digit_run_end(
                t@,
                e + 1 as int,
                hi as int,
            ));
        }
        e = e + 1;
    }
    assert(digit_run_end(t@, d as int, hi as int) == e as int);
    let mut v: u64 = 0;
    let mut k: usize = d;
    while k < e
        invariant
            n == t@.len(),
            e <= n,
            d <= k <= e,
            e - d <= 3,
            forall|j: int| d <= j < e ==> is_digit(#[trigger] t@[j]),
            v as int == digits_value(t@.subrange(d as int, k as int)),
            (v as int) < pow10((k - d) as nat),
        decreases e - k,
    {
        let c = t[k];
        proof {
            assert(is_digit(t@[k as int]));
        }
        let dv: u64 = (c as u32 - 48) as u64;
        proof {
            assert(t@.subrange(d as int, k + 1 as int).drop_last() =~= t@.subrange(
                d as int,
                k as int,
            ));
            lemma_pow10_mono(((k - d) as nat), 2);
            assert(pow10(2) == 100) by {
                reveal_with_fuel(pow10, 4);
            }
            assert(pow10(((k + 1) - d) as nat) == 10 * pow10((k - d) as nat));
        }
        v = v * 10 + dv;
        k = k + 1;
    }
    Option::Some(v)
}

} // verus!
