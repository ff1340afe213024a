//! Intent classification.  Free text is mapped to a discrete intent tag by
//! counting keyword occurrences per intent and picking the intent with the
//! strictly highest score; ties fall to the earlier intent in a fixed
//! priority order, and a zero top score yields `Unknown`.

use vstd::prelude::*;
use crate::text::{contains_seq, count_matches, to_chars, contains_kw, count_occurrences};

verus! {

/// The closed set of intents the classifier can produce.
#[derive(Clone, Copy, Debug, PartialEq, Eq, Structural)]
pub enum Intent {
    Greeting,
    AskRelationship,
    AskBudget,
    AskBulkGift,
    AskGender,
    AskAge,
    AskManners,
    Unknown,
}

pub open spec fn greeting_score(t: Seq<char>) -> nat {
    count_matches(t, "こんにちは"@) + count_matches(t, "こんばんは"@) + count_matches(
        t,
        "hello"@,
    )
}

pub open spec fn relationship_score(t: Seq<char>) -> nat {
    count_matches(t, "上司"@) + count_matches(t, "先輩"@) + count_matches(t, "友人"@)
        + count_matches(t, "親戚"@) + count_matches(t, "同僚"@) + count_matches(t, "後輩"@)
}

pub open spec fn budget_score(t: Seq<char>) -> nat {
    count_matches(t, "万円"@) + count_matches(t, "円"@) + count_matches(t, "予算"@)
        + count_matches(t, "金額"@)
}

pub open spec fn bulk_score(t: Seq<char>) -> nat {
    count_matches(t, "同じ"@) + count_matches(t, "個別"@) + count_matches(t, "それぞれ"@)
        + count_matches(t, "一緒"@)
}

pub open spec fn gender_score(t: Seq<char>) -> nat {
    count_matches(t, "男性"@) + count_matches(t, "女性"@) + count_matches(t, "性別"@)
}

pub open spec fn age_score(t: Seq<char>) -> nat {
    count_matches(t, "代"@) + count_matches(t, "歳"@) + count_matches(t, "年齢"@)
}

pub open spec fn manners_score(t: Seq<char>) -> nat {
    count_matches(t, "マナー"@) + count_matches(t, "のし"@)
}

/// The intent of a message: the intent whose keyword score is strictly
/// highest, ties broken by the fixed priority order below, `Unknown` when
/// every score is zero.  Total over all inputs.
pub open spec fn spec_classify(t: Seq<char>) -> Intent {
    let g = greeting_score(t);
    let r = relationship_score(t);
    let b = budget_score(t);
    let k = bulk_score(t);
    let d = gender_score(t);
    let a = age_score(t);
    let m = manners_score(t);
    if g == 0 && r == 0 && b == 0 && k == 0 && d == 0 && a == 0 && m == 0 {
        Intent::Unknown
    } else if g >= r && g >= b && g >= k && g >= d && g >= a && g >= m {
        Intent::Greeting
    } else if r >= b && r >= k && r >= d && r >= a && r >= m {
        Intent::AskRelationship
    } else if b >= k && b >= d && b >= a && b >= m {
        Intent::AskBudget
    } else if k >= d && k >= a && k >= m {
        Intent::AskBulkGift
    } else if d >= a && d >= m {
        Intent::AskGender
    } else if a >= m {
        Intent::AskAge
    } else {
        Intent::AskManners
    }
}

fn count_kw(t: &Vec<char>, lit: &str) -> (n: usize)
    requires
        lit@.len() >= 1,
    ensures
        n == count_matches(t@, lit@),
{
    let kw = to_chars(lit);
    count_occurrences(t, &kw)
}

fn has_kw(t: &Vec<char>, lit: &str) -> (b: bool)
    requires
        lit@.len() >= 1,
    ensures
        b == contains_seq(t@, lit@),
{
    let kw = to_chars(lit);
    contains_kw(t, &kw)
}

fn greeting_score_of(t: &Vec<char>) -> (n: u128)
    ensures
        n == greeting_score(t@),
{
    proof {
        reveal_strlit("こんにちは");
        reveal_strlit("こんばんは");
        reveal_strlit("hello");
    }
    count_kw(t, "こんにちは") as u128 + count_kw(t, "こんばんは") as u128 + count_kw(
        t,
        "hello",
    ) as u128
}

fn relationship_score_of(t: &Vec<char>) -> (n: u128)
    ensures
        n == relationship_score(t@),
{
    proof {
        reveal_strlit("上司");
        reveal_strlit("先輩");
        reveal_strlit("友人");
        reveal_strlit("親戚");
        reveal_strlit("同僚");
        reveal_strlit("後輩");
    }
    count_kw(t, "上司") as u128 + count_kw(t, "先輩") as u128 + count_kw(t, "友人") as u128
        + count_kw(t, "親戚") as u128 + count_kw(t, "同僚") as u128 + count_kw(
        t,
        "後輩",
    ) as u128
}

fn budget_score_of(t: &Vec<char>) -> (n: u128)
    ensures
        n == budget_score(t@),
{
    proof {
        reveal_strlit("万円");
        reveal_strlit("円");
        reveal_strlit("予算");
        reveal_strlit("金額");
    }
    count_kw(t, "万円") as u128 + count_kw(t, "円") as u128 + count_kw(t, "予算") as u128
        + count_kw(t, "金額") as u128
}

fn bulk_score_of(t: &Vec<char>) -> (n: u128)
    ensures
        n == bulk_score(t@),
{
    proof {
        reveal_strlit("同じ");
        reveal_strlit("個別");
        reveal_strlit("それぞれ");
        reveal_strlit("一緒");
    }
    count_kw(t, "同じ") as u128 + count_kw(t, "個別") as u128 + count_kw(t, "それぞれ") as u128
        + count_kw(t, "一緒") as u128
}

fn gender_score_of(t: &Vec<char>) -> (n: u128)
    ensures
        n == gender_score(t@),
{
    proof {
        reveal_strlit("男性");
        reveal_strlit("女性");
        reveal_strlit("性別");
    }
    count_kw(t, "男性") as u128 + count_kw(t, "女性") as u128 + count_kw(t, "性別") as u128
}

fn age_score_of(t: &Vec<char>) -> (n: u128)
    ensures
        n == age_score(t@),
{
    proof {
        reveal_strlit("代");
        reveal_strlit("歳");
        reveal_strlit("年齢");
    }
    count_kw(t, "代") as u128 + count_kw(t, "歳") as u128 + count_kw(t, "年齢") as u128
}

fn manners_score_of(t: &Vec<char>) -> (n: u128)
    ensures
        n == manners_score(t@),
{
    proof {
        reveal_strlit("マナー");
        reveal_strlit("のし");
    }
    count_kw(t, "マナー") as u128 + count_kw(t, "のし") as u128
}

/// Keyword-table intent classifier.  The tables are fixed; the classifier
/// itself carries no state.
#[derive(Debug)]
pub struct IntentClassifier {}

/// View of an optional string as an optional character sequence.
pub open spec fn opt_str_view(o: Option<&str>) -> Option<Seq<char>> {
    match o {
        Option::Some(s) => Option::Some(s@),
        Option::None => Option::None,
    }
}

/// View of an optional owned string as an optional character sequence.
pub open spec fn opt_string_view(o: Option<String>) -> Option<Seq<char>> {
    match o {
        Option::Some(s) => Option::Some(s@),
        Option::None => Option::None,
    }
}

/// Tag produced by the legacy tag classifier: a context-directed check
/// first, then the keyword groups in a fixed order.
pub open spec fn spec_tag_classify(t: Seq<char>, ctx: Option<Seq<char>>) -> Option<Seq<char>> {
    if ctx == Option::Some("asking_amount"@) && (contains_seq(t, "万円"@) || contains_seq(
        t,
        "円"@,
    )) {
        Option::Some("amount"@)
    } else if ctx == Option::Some("asking_gift_type"@) && (contains_seq(t, "同じ"@)
        || contains_seq(t, "個別"@)) {
        Option::Some("gift_type"@)
    } else if contains_seq(t, "上司"@) || contains_seq(t, "先輩"@) || contains_seq(t, "友人"@)
        || contains_seq(t, "親戚"@) || contains_seq(t, "同僚"@) || contains_seq(t, "後輩"@) {
        Option::Some("relationship"@)
    } else if contains_seq(t, "万円"@) || contains_seq(t, "円"@) || contains_seq(t, "予算"@)
        || contains_seq(t, "金額"@) {
        Option::Some("amount"@)
    } else if contains_seq(t, "同じ"@) || contains_seq(t, "個別"@) || contains_seq(
        t,
        "それぞれ"@,
    ) || contains_seq(t, "一緒"@) {
        Option::Some("gift_type"@)
    } else {
        Option::None
    }
}

impl IntentClassifier {
    pub fn new() -> (r: Self)
        ensures
            r == (IntentClassifier {  }),
    {
        IntentClassifier {  }
    }

    /// Classifies a message into the closed `Intent` set.  Total: every
    /// input maps to exactly `spec_classify` of its characters.
    pub fn classify_intent(&self, input: &str) -> (r: Intent)
        ensures
            r == spec_classify(input@),
    {
        let t = to_chars(input);
        let g = greeting_score_of(&t);
        let r = relationship_score_of(&t);
        let b = budget_score_of(&t);
        let k = bulk_score_of(&t);
        let d = gender_score_of(&t);
        let a = age_score_of(&t);
        let m = manners_score_of(&t);
        if g == 0 && r == 0 && b == 0 && k == 0 && d == 0 && a == 0 && m == 0 {
            Intent::Unknown
        } else if g >= r && g >= b && g >= k && g >= d && g >= a && g >= m {
            Intent::Greeting
        } else if r >= b && r >= k && r >= d && r >= a && r >= m {
            Intent::AskRelationship
        } else if b >= k && b >= d && b >= a && b >= m {
            Intent::AskBudget
        } else if k >= d && k >= a && k >= m {
            Intent::AskBulkGift
        } else if d >= a && d >= m {
            Intent::AskGender
        } else if a >= m {
            Intent::AskAge
        } else {
            Intent::AskManners
        }
    }

    /// Classifies a message into the legacy string tags, consulting the
    /// conversational context first, as `spec_tag_classify` states.
    pub fn classify(&self, input: &str, context: Option<&str>) -> (r: Option<String>)
        ensures
            r is Some <==> spec_tag_classify(input@, opt_str_view(context)) is Some,
            r is Some ==> r.unwrap()@ == spec_tag_classify(input@, opt_str_view(context)).unwrap(),
    {
        let t = to_chars(input);
        if let Option::Some(ctx) = context {
            if let Option::Some(tag) = self.classify_with_context(&t, ctx) {
                return Option::Some(tag);
            }
        }
        proof {
            reveal_strlit("上司");
            reveal_strlit("先輩");
            reveal_strlit("友人");
            reveal_strlit("親戚");
            reveal_strlit("同僚");
            reveal_strlit("後輩");
            reveal_strlit("万円");
            reveal_strlit("円");
            reveal_strlit("予算");
            reveal_strlit("金額");
            reveal_strlit("同じ");
            reveal_strlit("個別");
            reveal_strlit("それぞれ");
            reveal_strlit("一緒");
        }
        if has_kw(&t, "上司") || has_kw(&t, "先輩") || has_kw(&t, "友人") || has_kw(&t, "親戚")
            || has_kw(&t, "同僚") || has_kw(&t, "後輩") {
            Option::Some(String::from_str("relationship"))
        } else if has_kw(&t, "万円") || has_kw(&t, "円") || has_kw(&t, "予算") || has_kw(
            &t,
            "金額",
        ) {
            Option::Some(String::from_str("amount"))
        } else if has_kw(&t, "同じ") || has_kw(&t, "個別") || has_kw(&t, "それぞれ") || has_kw(
            &t,
            "一緒",
        ) {
            Option::Some(String::from_str("gift_type"))
        } else {
            Option::None
        }
    }

    /// Context-directed classification: amount keywords while a budget is
    /// being asked for, gift-type keywords while the bulk question is open.
    fn classify_with_context(&self, t: &Vec<char>, context: &str) -> (r: Option<String>)
        ensures
            ({
                let s = opt_string_view(r);
                if context@ == "asking_amount"@ && (contains_seq(t@, "万円"@) || contains_seq(
                    t@,
                    "円"@,
                )) {
                    s == Option::Some("amount"@)
                } else if context@ == "asking_gift_type"@ && (contains_seq(t@, "同じ"@)
                    || contains_seq(t@, "個別"@)) {
                    s == Option::Some("gift_type"@)
                } else {
                    s == Option::<Seq<char>>::None
                }
            }),
    {
        proof {
            reveal_strlit("asking_amount");
            reveal_strlit("asking_gift_type");
        }
        let is_amount_ctx = crate::text::str_eq(context, "asking_amount");
        let is_gift_ctx = crate::text::str_eq(context, "asking_gift_type");
        proof {
            assert(!(is_amount_ctx && is_gift_ctx)) by {
                assert("asking_amount"@.len() == 13);
                assert("asking_gift_type"@.len() == 16);
            }
        }
        if is_amount_ctx {
            self.classify_amount(t)
        } else if is_gift_ctx {
            self.classify_gift_type(t)
        } else {
            Option::None
        }
    }

    fn classify_amount(&self, t: &Vec<char>) -> (r: Option<String>)
        ensures
            ({
                let s = opt_string_view(r);
                if contains_seq(t@, "万円"@) || contains_seq(t@, "円"@) {
                    s == Option::Some("amount"@)
                } else {
                    s == Option::<Seq<char>>::None
                }
            }),
    {
        proof {
            reveal_strlit("万円");
            reveal_strlit("円");
        }
        if has_kw(t, "万円") || has_kw(t, "円") {
            Option::Some(String::from_str("amount"))
        } else {
            Option::None
        }
    }

    fn classify_gift_type(&self, t: &Vec<char>) -> (r: Option<String>)
        ensures
            ({
                let s = opt_string_view(r);
                if contains_seq(t@, "同じ"@) || contains_seq(t@, "個別"@) {
                    s == Option::Some("gift_type"@)
                } else {
                    s == Option::<Seq<char>>::None
                }
            }),
    {
        proof {
            reveal_strlit("同じ");
            reveal_strlit("個別");
        }
        if has_kw(t, "同じ") || has_kw(t, "個別") {
            Option::Some(String::from_str("gift_type"))
        } else {
            Option::None
        }
    }
}

} // verus!
