//! The recommendation pipeline: a base candidate set is narrowed to the
//! budget, adjusted for the recipient's gender, re-ranked by age
//! relevance, capped, and discounted for bulk gifts.  Every stage is a
//! sequence transformation with an exact contract.

use vstd::prelude::*;
use vstd::string::StringExecFns;
use crate::conversation::{Gender, UserContext, opt_u64_int};
use crate::gift::{CachedGift, GiftCandidate, Relationship, dup_opt_string};
use crate::seqs::{lemma_filter_push, lemma_filter_preserves};
use crate::text::str_eq;
use crate::cache::fresh_gifts;
use crate::error::ChatError;

verus! {

/// Categories the gender adjustment treats as beauty goods.
pub open spec fn is_beauty_category(c: Seq<char>) -> bool {
    c == "コスメ"@ || c == "アクセサリー"@
}

/// Whether a category counts as beauty goods.
pub fn beauty_category(cat: &str) -> (b: bool)
    ensures
        b == is_beauty_category(cat@),
{
    str_eq(cat, "コスメ") || str_eq(cat, "アクセサリー")
}

/// Age relevance of a category: electronics rank high under forty,
/// stationery from thirty on, food from fifty on; everything else, and
/// everything when no age is known, is neutral.
pub open spec fn category_age_score(cat: Seq<char>, age: Option<int>) -> int {
    match age {
        Option::Some(a) => {
            if cat == "電化製品"@ && a < 40 {
                2
            } else if cat == "文房具"@ && a >= 30 {
                2
            } else if cat == "食品"@ && a >= 50 {
                2
            } else {
                1
            }
        },
        Option::None => 1,
    }
}

/// Computes the age relevance of a category.
pub fn category_score(cat: &str, age: Option<u64>) -> (s: u64)
    ensures
        s == category_age_score(cat@, opt_u64_int(age)),
{
    match age {
        Option::Some(a) => {
            if str_eq(cat, "電化製品") && a < 40 {
                2
            } else if str_eq(cat, "文房具") && a >= 30 {
                2
            } else if str_eq(cat, "食品") && a >= 50 {
                2
            } else {
                1
            }
        },
        Option::None => 1,
    }
}

/// The candidates within budget, in order.
pub open spec fn budget_filter(s: Seq<GiftCandidate>, budget: u64) -> Seq<GiftCandidate> {
    s.filter(|c: GiftCandidate| c.price <= budget)
}

/// Gender adjustment: a male recipient drops beauty categories; a female
/// recipient sees them first, stably; anything else changes nothing.
pub open spec fn gender_ordered(s: Seq<GiftCandidate>, gender: Option<Gender>) -> Seq<
    GiftCandidate,
> {
    if gender == Option::Some(Gender::Male) {
        s.filter(|c: GiftCandidate| !is_beauty_category(c.category@))
    } else if gender == Option::Some(Gender::Female) {
        s.filter(|c: GiftCandidate| is_beauty_category(c.category@)) + s.filter(
            |c: GiftCandidate| !is_beauty_category(c.category@),
        )
    } else {
        s
    }
}

/// Age re-ranking: the high-relevance candidates first, then the rest,
/// each group keeping its order.
pub open spec fn age_ordered(s: Seq<GiftCandidate>, age: Option<int>) -> Seq<GiftCandidate> {
    s.filter(|c: GiftCandidate| category_age_score(c.category@, age) == 2) + s.filter(
        |c: GiftCandidate| category_age_score(c.category@, age) != 2,
    )
}

/// At most the first three.
pub open spec fn cap3(s: Seq<GiftCandidate>) -> Seq<GiftCandidate> {
    if s.len() <= 3 {
        s
    } else {
        s.take(3)
    }
}

/// The ranked candidate list computed from a base set: narrowed to the
/// budget, gender-adjusted, age-ranked and capped.
pub open spec fn spec_ranked(
    base: Seq<GiftCandidate>,
    budget: u64,
    gender: Option<Gender>,
    age: Option<int>,
) -> Seq<GiftCandidate> {
    cap3(age_ordered(gender_ordered(budget_filter(base, budget), gender), age))
}

/// Copies a candidate list.
pub fn dup_candidates(v: &Vec<GiftCandidate>) -> (r: Vec<GiftCandidate>)
    ensures
        r@ == v@,
{
    let n = v.len();
    let mut r: Vec<GiftCandidate> = Vec::new();
    let mut i: usize = 0;
    while i < n
        invariant
            n == v@.len(),
            i <= n,
            r@ == v@.take(i as int),
        decreases n - i,
    {
        r.push(v[i].dup());
        proof {
            assert(v@.take(i + 1 as int) =~= v@.take(i as int).push(v@[i as int]));
        }
        i = i + 1;
    }
    proof {
        assert(v@.take(n as int) =~= v@);
    }
    r
}

/// Drops every candidate priced above the budget.
pub fn filter_within_budget(v: &Vec<GiftCandidate>, budget: u64) -> (r: Vec<GiftCandidate>)
    ensures
        r@ == budget_filter(v@, budget),
{
    let n = v.len();
    let mut r: Vec<GiftCandidate> = Vec::new();
    let mut i: usize = 0;
    while i < n
        invariant
            n == v@.len(),
            i <= n,
            r@ == budget_filter(v@.take(i as int), budget),
        decreases n - i,
    {
        proof {
            assert(v@.take(i + 1 as int) =~= v@.take(i as int).push(v@[i as int]));
            lemma_filter_push(
                v@.take(i as int),
                v@[i as int],
                |c: GiftCandidate| c.price <= budget,
            );
        }
        if v[i].price <= budget {
            r.push(v[i].dup());
        }
        i = i + 1;
    }
    proof {
        assert(v@.take(n as int) =~= v@);
    }
    r
}

/// Keeps the candidates whose beauty-category status equals `want`.
fn filter_beauty(v: &Vec<GiftCandidate>, want: bool) -> (r: Vec<GiftCandidate>)
    ensures
        want ==> r@ == v@.filter(|c: GiftCandidate| is_beauty_category(c.category@)),
        !want ==> r@ == v@.filter(|c: GiftCandidate| !is_beauty_category(c.category@)),
{
    let n = v.len();
    let mut r: Vec<GiftCandidate> = Vec::new();
    let mut i: usize = 0;
    while i < n
        invariant
            n == v@.len(),
            i <= n,
            want ==> r@ == v@.take(i as int).filter(
                |c: GiftCandidate| is_beauty_category(c.category@),
            ),
            !want ==> r@ == v@.take(i as int).filter(
                |c: GiftCandidate| !is_beauty_category(c.category@),
            ),
        decreases n - i,
    {
        proof {
            assert(v@.take(i + 1 as int) =~= v@.take(i as int).push(v@[i as int]));
            lemma_filter_push(
                v@.take(i as int),
                v@[i as int],
                |c: GiftCandidate| is_beauty_category(c.category@),
            );
            lemma_filter_push(
                v@.take(i as int),
                v@[i as int],
                |c: GiftCandidate| !is_beauty_category(c.category@),
            );
        }
        let b = beauty_category(v[i].category.as_str());
        if b == want {
            r.push(v[i].dup());
        }
        i = i + 1;
    }
    proof {
        assert(v@.take(n as int) =~= v@);
    }
    r
}

/// Applies the gender adjustment.
pub fn gender_adjust(v: &Vec<GiftCandidate>, gender: Option<Gender>) -> (r: Vec<GiftCandidate>)
    ensures
        r@ == gender_ordered(v@, gender),
{
    match gender {
        Option::Some(Gender::Male) => filter_beauty(v, false),
        Option::Some(Gender::Female) => {
            let mut a = filter_beauty(v, true);
            let mut b = filter_beauty(v, false);
            a.append(&mut b);
            a
        },
        _ => dup_candidates(v),
    }
}

/// Keeps the candidates whose age relevance equals (or differs from)
/// two.
fn filter_score(v: &Vec<GiftCandidate>, age: Option<u64>, want_high: bool) -> (r: Vec<
    GiftCandidate,
>)
    ensures
        want_high ==> r@ == v@.filter(
            |c: GiftCandidate| category_age_score(c.category@, opt_u64_int(age)) == 2,
        ),
        !want_high ==> r@ == v@.filter(
            |c: GiftCandidate| category_age_score(c.category@, opt_u64_int(age)) != 2,
        ),
{
    let n = v.len();
    let mut r: Vec<GiftCandidate> = Vec::new();
    let mut i: usize = 0;
    while i < n
        invariant
            n == v@.len(),
            i <= n,
            want_high ==> r@ == v@.take(i as int).filter(
                |c: GiftCandidate| category_age_score(c.category@, opt_u64_int(age)) == 2,
            ),
            !want_high ==> r@ == v@.take(i as int).filter(
                |c: GiftCandidate| category_age_score(c.category@, opt_u64_int(age)) != 2,
            ),
        decreases n - i,
    {
        proof {
            assert(v@.take(i + 1 as int) =~= v@.take(i as int).push(v@[i as int]));
            lemma_filter_push(
                v@.take(i as int),
                v@[i as int],
                |c: GiftCandidate| category_age_score(c.category@, opt_u64_int(age)) == 2,
            );
            lemma_filter_push(
                v@.take(i as int),
                v@[i as int],
                |c: GiftCandidate| category_age_score(c.category@, opt_u64_int(age)) != 2,
            );
        }
        let s = category_score(v[i].category.as_str(), age);
        if (s == 2) == want_high {
            r.push(v[i].dup());
        }
        i = i + 1;
    }
    proof {
        assert(v@.take(n as int) =~= v@);
    }
    r
}

/// Re-ranks by age relevance, stably.
pub fn age_resort(v: &Vec<GiftCandidate>, age: Option<u64>) -> (r: Vec<GiftCandidate>)
    ensures
        r@ == age_ordered(v@, opt_u64_int(age)),
{
    let mut a = filter_score(v, age, true);
    let mut b = filter_score(v, age, false);
    a.append(&mut b);
    a
}

/// Caps the list at three candidates.
pub fn cap_results(v: Vec<GiftCandidate>) -> (r: Vec<GiftCandidate>)
    ensures
        r@ == cap3(v@),
{
    let mut v = v;
    if v.len() > 3 {
        v.truncate(3);
        proof {
            assert(v@ =~= cap3(v@));
        }
    }
    v
}

/// The note appended to a discounted candidate's description.
pub open spec fn discount_note() -> Seq<char> {
    "（まとめ買い割引を適用しました）"@
}

/// `d` is `orig` with the flat ten-percent bulk reduction applied and the
/// discount note appended.
pub open spec fn discounted_rel(orig: GiftCandidate, d: GiftCandidate) -> bool {
    &&& d.name == orig.name
    &&& d.price == orig.price - orig.price / 10
    &&& d.category == orig.category
    &&& d.rating == orig.rating
    &&& d.source_url == orig.source_url
    &&& d.description@ == orig.description@ + discount_note()
}

/// `t` is `s` with the bulk reduction applied to every candidate.
pub open spec fn discounted_seq(s: Seq<GiftCandidate>, t: Seq<GiftCandidate>) -> bool {
    t.len() == s.len() && forall|i: int|
        0 <= i < s.len() ==> discounted_rel(s[i], #[trigger] t[i])
}

/// Applies the flat ten-percent bulk reduction to every candidate, or
/// copies the list unchanged when the gift is not a bulk gift.
pub fn apply_bulk_discount(v: &Vec<GiftCandidate>, bulk: bool) -> (r: Vec<GiftCandidate>)
    ensures
        !bulk ==> r@ == v@,
        bulk ==> discounted_seq(v@, r@),
{
    if !bulk {
        return dup_candidates(v);
    }
    let n = v.len();
    let mut r: Vec<GiftCandidate> = Vec::new();
    let mut i: usize = 0;
    while i < n
        invariant
            n == v@.len(),
            i <= n,
            r@.len() == i,
            forall|p: int| 0 <= p < i ==> discounted_rel(v@[p], #[trigger] r@[p]),
        decreases n - i,
    {
        let c = &v[i];
        let mut d = c.description.clone();
        d.append("（まとめ買い割引を適用しました）");
        r.push(
            GiftCandidate {
                name: c.name.clone(),
                description: d,
                price: c.price - c.price / 10,
                category: c.category.clone(),
                rating: c.rating,
                source_url: dup_opt_string(&c.source_url),
            },
        );
        i = i + 1;
    }
    r
}

/// `c` is the base-table entry with the given fields.
pub open spec fn is_base_entry(
    c: GiftCandidate,
    name: Seq<char>,
    description: Seq<char>,
    price: int,
    category: Seq<char>,
) -> bool {
    &&& c.name@ == name
    &&& c.description@ == description
    &&& c.price == price
    &&& c.category@ == category
    &&& c.rating is None
    &&& c.source_url is None
}

/// The fixed per-relationship base candidate set.  An unrecognized
/// relationship falls back to a generic two-item set priced at the
/// requested budget.
pub open spec fn is_base_table(rel: Relationship, budget: u64, s: Seq<GiftCandidate>) -> bool {
    match rel {
        Relationship::Boss => {
            &&& s.len() == 3
            &&& is_base_entry(
                s[0],
                "高級タオルセット"@,
                "上質な今治タオルの詰め合わせです。"@,
                5000,
                "生活用品"@,
            )
            &&& is_base_entry(
                s[1],
                "万年筆"@,
                "名入れのできる上質な万年筆です。"@,
                8000,
                "文房具"@,
            )
            &&& is_base_entry(
                s[2],
                "コーヒーギフトセット"@,
                "専門店の珈琲を詰め合わせました。"@,
                4000,
                "食品"@,
            )
        },
        Relationship::Colleague => {
            &&& s.len() == 3
            &&& is_base_entry(
                s[0],
                "ワインセット"@,
                "お祝いの席に合う紅白ワインです。"@,
                6000,
                "食品"@,
            )
            &&& is_base_entry(
                s[1],
                "ネクタイピン"@,
                "さりげない上品さのネクタイピンです。"@,
                7000,
                "アクセサリー"@,
            )
            &&& is_base_entry(
                s[2],
                "モバイルバッテリー"@,
                "通勤に便利な軽量モバイルバッテリーです。"@,
                4500,
                "電化製品"@,
            )
        },
        Relationship::Friend => {
            &&& s.len() == 3
            &&& is_base_entry(
                s[0],
                "スマートスピーカー"@,
                "音楽も家電操作もこなせるスピーカーです。"@,
                12000,
                "電化製品"@,
            )
            &&& is_base_entry(
                s[1],
                "コスメセット"@,
                "人気ブランドのコスメの詰め合わせです。"@,
                5000,
                "コスメ"@,
            )
            &&& is_base_entry(
                s[2],
                "お菓子詰め合わせ"@,
                "焼き菓子の詰め合わせです。"@,
                3000,
                "食品"@,
            )
        },
        Relationship::Family => {
            &&& s.len() == 3
            &&& is_base_entry(
                s[0],
                "カタログギフト"@,
                "好みに合わせて選べるカタログギフトです。"@,
                10000,
                "カタログギフト"@,
            )
            &&& is_base_entry(
                s[1],
                "フルーツ詰め合わせ"@,
                "旬のフルーツを詰め合わせました。"@,
                5000,
                "食品"@,
            )
            &&& is_base_entry(
                s[2],
                "文房具セット"@,
                "毎日使える文房具のセットです。"@,
                2000,
                "文房具"@,
            )
        },
        Relationship::Other => {
            &&& s.len() == 2
            &&& is_base_entry(
                s[0],
                "カタログギフト"@,
                "好みに合わせて選べるカタログギフトです。"@,
                budget as int,
                "カタログギフト"@,
            )
            &&& is_base_entry(
                s[1],
                "商品券"@,
                "金額そのままで使える商品券です。"@,
                budget as int,
                "商品券"@,
            )
        },
    }
}

/// Builds one base-table candidate.
fn candidate(name: &str, description: &str, price: u64, category: &str) -> (c: GiftCandidate)
    ensures
        is_base_entry(c, name@, description@, price as int, category@),
{
    GiftCandidate {
        name: String::from_str(name),
        description: String::from_str(description),
        price,
        category: String::from_str(category),
        rating: Option::None,
        source_url: Option::None,
    }
}

/// The base candidate set for a relationship, from the fixed table.
pub fn base_candidates(rel: Relationship, budget: u64) -> (r: Vec<GiftCandidate>)
    ensures
        is_base_table(rel, budget, r@),
{
    let mut r: Vec<GiftCandidate> = Vec::new();
    match rel {
        Relationship::Boss => {
            r.push(
                candidate(
                    "高級タオルセット",
                    "上質な今治タオルの詰め合わせです。",
                    5000,
                    "生活用品",
                ),
            );
            r.push(candidate("万年筆", "名入れのできる上質な万年筆です。", 8000, "文房具"));
            r.push(
                candidate(
                    "コーヒーギフトセット",
                    "専門店の珈琲を詰め合わせました。",
                    4000,
                    "食品",
                ),
            );
        },
        Relationship::Colleague => {
            r.push(candidate("ワインセット", "お祝いの席に合う紅白ワインです。", 6000, "食品"));
            r.push(
                candidate(
                    "ネクタイピン",
                    "さりげない上品さのネクタイピンです。",
                    7000,
                    "アクセサリー",
                ),
            );
            r.push(
                candidate(
                    "モバイルバッテリー",
                    "通勤に便利な軽量モバイルバッテリーです。",
                    4500,
                    "電化製品",
                ),
            );
        },
        Relationship::Friend => {
            r.push(
                candidate(
                    "スマートスピーカー",
                    "音楽も家電操作もこなせるスピーカーです。",
                    12000,
                    "電化製品",
                ),
            );
            r.push(
                candidate(
                    "コスメセット",
                    "人気ブランドのコスメの詰め合わせです。",
                    5000,
                    "コスメ",
                ),
            );
            r.push(candidate("お菓子詰め合わせ", "焼き菓子の詰め合わせです。", 3000, "食品"));
        },
        Relationship::Family => {
            r.push(
                candidate(
                    "カタログギフト",
                    "好みに合わせて選べるカタログギフトです。",
                    10000,
                    "カタログギフト",
                ),
            );
            r.push(
                candidate("フルーツ詰め合わせ", "旬のフルーツを詰め合わせました。", 5000, "食品"),
            );
            r.push(candidate("文房具セット", "毎日使える文房具のセットです。", 2000, "文房具"));
        },
        Relationship::Other => {
            r.push(
                candidate(
                    "カタログギフト",
                    "好みに合わせて選べるカタログギフトです。",
                    budget,
                    "カタログギフト",
                ),
            );
            r.push(candidate("商品券", "金額そのままで使える商品券です。", budget, "商品券"));
        },
    }
    r
}

/// Every candidate of the ranked list fits the budget, and the list holds
/// at most three.
pub proof fn lemma_ranked_within_budget(
    base: Seq<GiftCandidate>,
    budget: u64,
    gender: Option<Gender>,
    age: Option<int>,
)
    ensures
        spec_ranked(base, budget, gender, age).len() <= 3,
        forall|i: int|
            0 <= i < spec_ranked(base, budget, gender, age).len() ==> (#[trigger] spec_ranked(
                base,
                budget,
                gender,
                age,
            )[i]).price <= budget,
{
    broadcast use vstd::seq_lib::group_filter_ensures;

    let bf = budget_filter(base, budget);
    assert(forall|i: int| 0 <= i < bf.len() ==> (#[trigger] bf[i]).price <= budget);
    let within = |c: GiftCandidate| c.price <= budget;
    let go = gender_ordered(bf, gender);
    lemma_filter_preserves(bf, |c: GiftCandidate| is_beauty_category(c.category@), within);
    lemma_filter_preserves(bf, |c: GiftCandidate| !is_beauty_category(c.category@), within);
    assert(forall|i: int| 0 <= i < go.len() ==> within(#[trigger] go[i]));
    let ao = age_ordered(go, age);
    lemma_filter_preserves(
        go,
        |c: GiftCandidate| category_age_score(c.category@, age) == 2,
        within,
    );
    lemma_filter_preserves(
        go,
        |c: GiftCandidate| category_age_score(c.category@, age) != 2,
        within,
    );
    assert(forall|i: int| 0 <= i < ao.len() ==> within(#[trigger] ao[i]));
    assert(forall|i: int|
        0 <= i < spec_ranked(base, budget, gender, age).len() ==> within(
            #[trigger] spec_ranked(base, budget, gender, age)[i],
        ));
}


/// Key fragment naming a relationship.
pub open spec fn rel_code(r: Relationship) -> Seq<char> {
    match r {
        Relationship::Boss => "boss"@,
        Relationship::Colleague => "colleague"@,
        Relationship::Friend => "friend"@,
        Relationship::Family => "family"@,
        Relationship::Other => "other"@,
    }
}

/// Key fragment naming the bulk flag.
pub open spec fn bulk_code(b: Option<bool>) -> Seq<char> {
    match b {
        Option::Some(true) => "1"@,
        Option::Some(false) => "0"@,
        Option::None => "-"@,
    }
}

/// Key fragment naming the gender slot.
pub open spec fn gender_code(g: Option<Gender>) -> Seq<char> {
    match g {
        Option::Some(Gender::Male) => "m"@,
        Option::Some(Gender::Female) => "f"@,
        Option::Some(Gender::Unknown) => "u"@,
        Option::None => "-"@,
    }
}

/// Key fragment naming the age bucketed into its decade band.
pub open spec fn age_band_code(age: Option<int>) -> Seq<char> {
    match age {
        Option::Some(a) => crate::text::dec_digits(a / 10 * 10),
        Option::None => "-"@,
    }
}

/// The canonical cache key: a deterministic encoding of the five slots
/// that determine a recommendation.
pub open spec fn spec_cache_key(
    rel: Relationship,
    budget: u64,
    bulk: Option<bool>,
    gender: Option<Gender>,
    age: Option<int>,
) -> Seq<char> {
    "rel="@ + rel_code(rel) + "|budget="@ + crate::text::dec_digits(budget as int) + "|bulk="@
        + bulk_code(bulk) + "|gender="@ + gender_code(gender) + "|age="@ + age_band_code(age)
}

fn rel_code_str(r: Relationship) -> (s: &'static str)
    ensures
        s@ == rel_code(r),
{
    match r {
        Relationship::Boss => "boss",
        Relationship::Colleague => "colleague",
        Relationship::Friend => "friend",
        Relationship::Family => "family",
        Relationship::Other => "other",
    }
}

fn bulk_code_str(b: Option<bool>) -> (s: &'static str)
    ensures
        s@ == bulk_code(b),
{
    match b {
        Option::Some(true) => "1",
        Option::Some(false) => "0",
        Option::None => "-",
    }
}

fn gender_code_str(g: Option<Gender>) -> (s: &'static str)
    ensures
        s@ == gender_code(g),
{
    match g {
        Option::Some(Gender::Male) => "m",
        Option::Some(Gender::Female) => "f",
        Option::Some(Gender::Unknown) => "u",
        Option::None => "-",
    }
}

/// Builds the canonical cache key for the five slots.
pub fn build_cache_key(
    rel: Relationship,
    budget: u64,
    bulk: Option<bool>,
    gender: Option<Gender>,
    age: Option<u64>,
) -> (k: String)
    ensures
        k@ == spec_cache_key(rel, budget, bulk, gender, opt_u64_int(age)),
{
    let mut k = String::from_str("rel=");
    k.append(rel_code_str(rel));
    k.append("|budget=");
    let b = crate::text::u64_to_string(budget);
    k.append(b.as_str());
    k.append("|bulk=");
    k.append(bulk_code_str(bulk));
    k.append("|gender=");
    k.append(gender_code_str(gender));
    k.append("|age=");
    match age {
        Option::Some(a) => {
            let band = crate::text::u64_to_string(a / 10 * 10);
            k.append(band.as_str());
        },
        Option::None => {
            k.append("-");
        },
    }
    proof {
        assert(k@ =~= spec_cache_key(rel, budget, bulk, gender, opt_u64_int(age)));
    }
    k
}

/// The age the context retains, read out of the verbatim age text.
pub open spec fn spec_ctx_age(ctx: UserContext) -> Option<int> {
    match ctx.recipient_age {
        Option::Some(t) => crate::conversation::spec_age_value(t@),
        Option::None => Option::None,
    }
}

/// Reads the recipient age out of the context.
pub fn ctx_age(ctx: &UserContext) -> (a: Option<u64>)
    ensures
        opt_u64_int(a) == spec_ctx_age(*ctx),
{
    match &ctx.recipient_age {
        Option::Some(s) => {
            let t = crate::text::to_chars(s.as_str());
            crate::conversation::age_value(&t)
        },
        Option::None => Option::None,
    }
}

/// `g` is the cached record of candidate `c`, stamped at `now`.
pub open spec fn caches_candidate(c: GiftCandidate, g: CachedGift, now: int) -> bool {
    &&& g.name == c.name
    &&& g.description == c.description
    &&& g.price == c.price
    &&& g.category == c.category
    &&& g.url == c.source_url
    &&& g.cached_at == now
}

/// `gs` caches `cs` element by element.
pub open spec fn cached_seq(cs: Seq<GiftCandidate>, gs: Seq<CachedGift>, now: int) -> bool {
    gs.len() == cs.len() && forall|i: int|
        0 <= i < cs.len() ==> caches_candidate(cs[i], #[trigger] gs[i], now)
}

/// `c` is the candidate restored from cached record `g`.
pub open spec fn restores_cached(g: CachedGift, c: GiftCandidate) -> bool {
    &&& c.name == g.name
    &&& c.description == g.description
    &&& c.price == g.price
    &&& c.category == g.category
    &&& c.source_url == g.url
    &&& c.rating is None
}

/// `cs` restores `gs` element by element.
pub open spec fn restored_seq(gs: Seq<CachedGift>, cs: Seq<GiftCandidate>) -> bool {
    cs.len() == gs.len() && forall|i: int|
        0 <= i < gs.len() ==> restores_cached(gs[i], #[trigger] cs[i])
}

/// At most the first `n` elements.
pub open spec fn take_at_most<A>(s: Seq<A>, n: int) -> Seq<A> {
    if s.len() <= n {
        s
    } else {
        s.take(n)
    }
}

fn filter_cached_budget(gs: &Vec<CachedGift>, budget: u64) -> (r: Vec<CachedGift>)
    ensures
        r@ == gs@.filter(|g: CachedGift| g.price <= budget),
{
    let n = gs.len();
    let mut r: Vec<CachedGift> = Vec::new();
    let mut i: usize = 0;
    while i < n
        invariant
            n == gs@.len(),
            i <= n,
            r@ == gs@.take(i as int).filter(|g: CachedGift| g.price <= budget),
        decreases n - i,
    {
        proof {
            assert(gs@.take(i + 1 as int) =~= gs@.take(i as int).push(gs@[i as int]));
            lemma_filter_push(gs@.take(i as int), gs@[i as int], |g: CachedGift| g.price <= budget);
        }
        if gs[i].price <= budget {
            r.push(gs[i].dup());
        }
        i = i + 1;
    }
    proof {
        assert(gs@.take(n as int) =~= gs@);
    }
    r
}

fn restore_all(gs: &Vec<CachedGift>) -> (r: Vec<GiftCandidate>)
    ensures
        restored_seq(gs@, r@),
{
    let n = gs.len();
    let mut r: Vec<GiftCandidate> = Vec::new();
    let mut i: usize = 0;
    while i < n
        invariant
            n == gs@.len(),
            i <= n,
            r@.len() == i,
            forall|p: int| 0 <= p < i ==> restores_cached(gs@[p], #[trigger] r@[p]),
        decreases n - i,
    {
        r.push(gs[i].to_candidate());
        i = i + 1;
    }
    r
}

fn cache_all(cs: &Vec<GiftCandidate>, now: u64) -> (r: Vec<CachedGift>)
    ensures
        cached_seq(cs@, r@, now as int),
{
    let n = cs.len();
    let mut r: Vec<CachedGift> = Vec::new();
    let mut i: usize = 0;
    while i < n
        invariant
            n == cs@.len(),
            i <= n,
            r@.len() == i,
            forall|p: int| 0 <= p < i ==> caches_candidate(cs@[p], #[trigger] r@[p], now as int),
        decreases n - i,
    {
        r.push(cs[i].to_cached(now));
        i = i + 1;
    }
    r
}

/// `r` ranks `base` and, for a bulk gift, carries the flat discount.
pub open spec fn rank_result(
    base: Seq<GiftCandidate>,
    budget: u64,
    gender: Option<Gender>,
    age: Option<int>,
    bulk: bool,
    r: Seq<GiftCandidate>,
) -> bool {
    if bulk {
        discounted_seq(spec_ranked(base, budget, gender, age), r)
    } else {
        r == spec_ranked(base, budget, gender, age)
    }
}

/// What serving a recommendation guarantees: the result respects the
/// budget and the length cap; a fresh cache entry is served re-validated
/// with the cache untouched; a miss is computed from the base table, with
/// the result stored under the canonical key and no other entry touched.
pub open spec fn recommend_post(
    pre: crate::cache::GiftCache,
    post: crate::cache::GiftCache,
    ctx: UserContext,
    now: u64,
    r: Seq<GiftCandidate>,
) -> bool {
    let rel = ctx.relationship.unwrap();
    let budget = ctx.budget.unwrap();
    let gender = ctx.recipient_gender;
    let age = spec_ctx_age(ctx);
    let bulk = ctx.is_bulk_gift == Option::Some(true);
    let key = spec_cache_key(rel, budget, ctx.is_bulk_gift, gender, age);
    &&& r.len() <= 3
    &&& (forall|i: int| 0 <= i < r.len() ==> (#[trigger] r[i]).price <= budget)
    &&& if pre.has_key(key) && fresh_gifts(pre.gifts_at(key), now as int, pre.spec_ttl()).len()
        > 0 {
        &&& post == pre
        &&& restored_seq(
            take_at_most(
                fresh_gifts(pre.gifts_at(key), now as int, pre.spec_ttl()).filter(
                    |g: CachedGift| g.price <= budget,
                ),
                3,
            ),
            r,
        )
    } else {
        &&& (exists|base: Seq<GiftCandidate>|
            is_base_table(rel, budget, base) && rank_result(
                base,
                budget,
                gender,
                age,
                bulk,
                #[trigger] r.subrange(0, r.len() as int),
            ))
        &&& post.spec_ttl() == pre.spec_ttl()
        &&& post.has_key(key)
        &&& cached_seq(r, post.gifts_at(key), now as int)
        &&& (forall|k2: Seq<char>|
            k2 != key ==> (#[trigger] post.has_key(k2)) == pre.has_key(k2))
        &&& (forall|k2: Seq<char>|
            k2 != key && pre.has_key(k2) ==> (#[trigger] post.gifts_at(k2)) == pre.gifts_at(k2))
    }
}

/// The recommendation engine: serves a completed slot set from its cache
/// or computes, ranks and stores a fresh list.
#[derive(Debug)]
pub struct RecommendationEngine {
    pub cache: crate::cache::GiftCache,
}

impl RecommendationEngine {
    /// An engine with an empty cache and the given time-to-live.
    pub fn new(ttl_seconds: u64) -> (r: Self)
        ensures
            r.cache.spec_ttl() == ttl_seconds,
            forall|k: Seq<char>| !(#[trigger] r.cache.has_key(k)),
    {
        RecommendationEngine { cache: crate::cache::GiftCache::new(ttl_seconds) }
    }

    /// Serves a recommendation for a context whose relationship and
    /// budget are filled.
    pub fn recommend(&mut self, ctx: &UserContext, now: u64) -> (r: Vec<GiftCandidate>)
        requires
            ctx.relationship is Some,
            ctx.budget is Some,
        ensures
            recommend_post(old(self).cache, final (self).cache, *ctx, now, r@),
    {
        let rel = match ctx.relationship {
            Option::Some(rel) => rel,
            Option::None => vstd::pervasive::unreached(),
        };
        let budget = match ctx.budget {
            Option::Some(b) => b,
            Option::None => vstd::pervasive::unreached(),
        };
        let gender = ctx.recipient_gender;
        let age = ctx_age(ctx);
        let bulk = match ctx.is_bulk_gift {
            Option::Some(true) => true,
            _ => false,
        };
        let key = build_cache_key(rel, budget, ctx.is_bulk_gift, gender, age);
        match self.cache.get(key.as_str(), now) {
            Option::Some(gifts) => {
                let valid = filter_cached_budget(&gifts, budget);
                let mut valid = valid;
                if valid.len() > 3 {
                    valid.truncate(3);
                }
                proof {
                    assert(valid@ =~= take_at_most(
                        fresh_gifts(
                            old(self).cache.gifts_at(key@),
                            now as int,
                            old(self).cache.spec_ttl(),
                        ).filter(|g: CachedGift| g.price <= budget),
                        3,
                    ));
                    broadcast use vstd::seq_lib::group_filter_ensures;

                }
                let r = restore_all(&valid);
                r
            },
            Option::None => {
                let base = base_candidates(rel, budget);
                let f = filter_within_budget(&base, budget);
                let g = gender_adjust(&f, gender);
                let a = age_resort(&g, age);
                let capped = cap_results(a);
                let result = apply_bulk_discount(&capped, bulk);
                proof {
                    lemma_ranked_within_budget(base@, budget, gender, opt_u64_int(age));
                    assert(result@.subrange(0, result@.len() as int) =~= result@);
                    assert(rank_result(
                        base@,
                        budget,
                        gender,
                        opt_u64_int(age),
                        bulk,
                        result@.subrange(0, result@.len() as int),
                    ));
                }
                let stored = cache_all(&result, now);
                self.cache.set(key, stored);
                result
            },
        }
    }

    /// Serves a recommendation, or reports the invariant violation when a
    /// required slot is missing.  Success is owed exactly when both the
    /// relationship and the budget are filled.
    pub fn recommend_checked(&mut self, ctx: &UserContext, now: u64) -> (r: Result<
        Vec<GiftCandidate>,
        ChatError,
    >)
        ensures
            r is Ok <==> (ctx.relationship is Some && ctx.budget is Some),
            r is Ok ==> recommend_post(old(self).cache, final (self).cache, *ctx, now, r.unwrap()@),
            r is Err ==> *final (self) == *old(self) && (match r {
                Result::Err(ChatError::InternalError(_)) => true,
                _ => false,
            }),
    {
        if ctx.relationship.is_some() && ctx.budget.is_some() {
            Result::Ok(self.recommend(ctx, now))
        } else {
            Result::Err(
                ChatError::InternalError(
                    String::from_str("関係性と予算が揃う前に推薦が呼び出されました。"),
                ),
            )
        }
    }
}

} // verus!
