//! Gift data model: candidates as returned by the recommendation engine,
//! cached records, and the request/recommendation types of the external
//! search collaborator, together with the query text built for it.

use vstd::prelude::*;
use vstd::string::StringExecFns;
use crate::text::dec_digits;

verus! {

/// Relationship between the gift giver and the recipient.
#[derive(Clone, Copy, Debug, PartialEq, Eq, Structural)]
pub enum Relationship {
    Boss,
    Colleague,
    Friend,
    Family,
    Other,
}

/// Occasion that the gift answers.
#[derive(Clone, Copy, Debug, PartialEq, Eq, Structural)]
pub enum EventType {
    Wedding,
    Birth,
    Celebration,
    Other,
}

/// Price bounds of a search request.
#[derive(Clone, Copy, Debug, PartialEq, Eq, Structural)]
pub struct PriceRange {
    pub min: u32,
    pub max: u32,
}

/// A request handed to the external gift-search collaborator.
#[derive(Debug)]
pub struct GiftRequest {
    pub received_gift: String,
    pub price_range: PriceRange,
    pub relationship: Relationship,
    pub event_type: EventType,
    pub notes: Option<String>,
}

/// A suggestion as the external collaborator describes it.
#[derive(Debug)]
pub struct GiftRecommendation {
    pub name: String,
    pub price: u32,
    pub store: String,
    pub reason: String,
    pub manner_advice: String,
}

/// A gift candidate as the recommendation engine returns it.  Immutable
/// once returned.
#[derive(Debug)]
pub struct GiftCandidate {
    pub name: String,
    pub description: String,
    pub price: u64,
    pub category: String,
    pub rating: Option<u8>,
    pub source_url: Option<String>,
}

/// A cached gift record: a candidate plus the time it was computed at,
/// in seconds.
#[derive(Debug)]
pub struct CachedGift {
    pub name: String,
    pub description: String,
    pub price: u64,
    pub category: String,
    pub url: Option<String>,
    pub cached_at: u64,
}

/// Copies an optional string.
pub fn dup_opt_string(o: &Option<String>) -> (r: Option<String>)
    ensures
        r == *o,
{
    match o {
        Option::Some(s) => Option::Some(s.clone()),
        Option::None => Option::None,
    }
}

impl GiftCandidate {
    /// An equal copy of the candidate.
    pub fn dup(&self) -> (r: Self)
        ensures
            r == *self,
    {
        GiftCandidate {
            name: self.name.clone(),
            description: self.description.clone(),
            price: self.price,
            category: self.category.clone(),
            rating: self.rating,
            source_url: dup_opt_string(&self.source_url),
        }
    }

    /// The cached record of this candidate, stamped with `now`.
    pub fn to_cached(&self, now: u64) -> (r: CachedGift)
        ensures
            r.name == self.name,
            r.description == self.description,
            r.price == self.price,
            r.category == self.category,
            r.url == self.source_url,
            r.cached_at == now,
    {
        CachedGift {
            name: self.name.clone(),
            description: self.description.clone(),
            price: self.price,
            category: self.category.clone(),
            url: dup_opt_string(&self.source_url),
            cached_at: now,
        }
    }
}

impl CachedGift {
    /// An equal copy of the record.
    pub fn dup(&self) -> (r: Self)
        ensures
            r == *self,
    {
        CachedGift {
            name: self.name.clone(),
            description: self.description.clone(),
            price: self.price,
            category: self.category.clone(),
            url: dup_opt_string(&self.url),
            cached_at: self.cached_at,
        }
    }

    /// The candidate this record caches.  A cached record carries no
    /// rating, so the candidate comes back without one.
    pub fn to_candidate(&self) -> (r: GiftCandidate)
        ensures
            r.name == self.name,
            r.description == self.description,
            r.price == self.price,
            r.category == self.category,
            r.rating is None,
            r.source_url == self.url,
    {
        GiftCandidate {
            name: self.name.clone(),
            description: self.description.clone(),
            price: self.price,
            category: self.category.clone(),
            rating: Option::None,
            source_url: dup_opt_string(&self.url),
        }
    }
}

/// Japanese label of a relationship.
pub open spec fn relationship_label(r: Relationship) -> Seq<char> {
    match r {
        Relationship::Boss => "上司"@,
        Relationship::Colleague => "同僚"@,
        Relationship::Friend => "友人"@,
        Relationship::Family => "家族"@,
        Relationship::Other => "その他"@,
    }
}

/// Japanese label of an event type.
pub open spec fn event_label(e: EventType) -> Seq<char> {
    match e {
        EventType::Wedding => "結婚祝い"@,
        EventType::Birth => "出産祝い"@,
        EventType::Celebration => "お祝い"@,
        EventType::Other => "その他"@,
    }
}

/// Renders a relationship as its Japanese label.
pub fn relationship_to_string(r: &Relationship) -> (s: &'static str)
    ensures
        s@ == relationship_label(*r),
{
    match r {
        Relationship::Boss => "上司",
        Relationship::Colleague => "同僚",
        Relationship::Friend => "友人",
        Relationship::Family => "家族",
        Relationship::Other => "その他",
    }
}

/// Renders an event type as its Japanese label.
pub fn event_type_to_string(e: &EventType) -> (s: &'static str)
    ensures
        s@ == event_label(*e),
{
    match e {
        EventType::Wedding => "結婚祝い",
        EventType::Birth => "出産祝い",
        EventType::Celebration => "お祝い",
        EventType::Other => "その他",
    }
}

/// The query text sent to the external search collaborator for `req`.
pub open spec fn spec_search_query(
    received: Seq<char>,
    min: int,
    max: int,
    rel: Relationship,
    ev: EventType,
    notes: Option<Seq<char>>,
) -> Seq<char> {
    "以下の条件に合うお返しのギフトを3つ提案してください。各提案には商品名、価格、購入店舗、選定理由、マナーアドバイスを含めてください：\n- 受け取ったギフト: "@
        + received + "\n- 予算: "@ + dec_digits(min) + "円-"@ + dec_digits(max) + "円\n- 関係: "@
        + relationship_label(rel) + "\n- イベント: "@ + event_label(ev) + "\n"@ + (match notes {
        Option::Some(n) => n,
        Option::None => Seq::empty(),
    })
}

/// Builds the query text for the external search collaborator.
pub fn build_search_query(req: &GiftRequest) -> (q: String)
    ensures
        q@ == spec_search_query(
            req.received_gift@,
            req.price_range.min as int,
            req.price_range.max as int,
            req.relationship,
            req.event_type,
            crate::intent::opt_string_view(req.notes),
        ),
{
    let mut q = String::from_str(
        "以下の条件に合うお返しのギフトを3つ提案してください。各提案には商品名、価格、購入店舗、選定理由、マナーアドバイスを含めてください：\n- 受け取ったギフト: ",
    );
    q.append(req.received_gift.as_str());
    q.append("\n- 予算: ");
    let min_s = crate::text::u64_to_string(req.price_range.min as u64);
    q.append(min_s.as_str());
    q.append("円-");
    let max_s = crate::text::u64_to_string(req.price_range.max as u64);
    q.append(max_s.as_str());
    q.append("円\n- 関係: ");
    q.append(relationship_to_string(&req.relationship));
    q.append("\n- イベント: ");
    q.append(event_type_to_string(&req.event_type));
    q.append("\n");
    match &req.notes {
        Option::Some(n) => {
            q.append(n.as_str());
        },
        Option::None => {},
    }
    proof {
        assert(q@ =~= spec_search_query(
            req.received_gift@,
            req.price_range.min as int,
            req.price_range.max as int,
            req.relationship,
            req.event_type,
            crate::intent::opt_string_view(req.notes),
        ));
    }
    q
}

/// The standing suggestion handed back for a provider answer.  The
/// provider's answer is free text and is not machine-read; the library
/// answers with its curated default, as a search fallback.
pub fn parse_recommendations(answer: &str) -> (r: Vec<GiftRecommendation>)
    ensures
        r@.len() == 1,
        r@[0].name@ == "高級タオルセット"@,
        r@[0].price == 5000,
        r@[0].store@ == "高島屋"@,
        r@[0].reason@ == "実用的で上質な贈り物として適切です"@,
        r@[0].manner_advice@ == "包装は二重包みで、のしは「御返し」を使用します"@,
{
    let mut r: Vec<GiftRecommendation> = Vec::new();
    r.push(
        GiftRecommendation {
            name: String::from_str("高級タオルセット"),
            price: 5000,
            store: String::from_str("高島屋"),
            reason: String::from_str("実用的で上質な贈り物として適切です"),
            manner_advice: String::from_str("包装は二重包みで、のしは「御返し」を使用します"),
        },
    )
    ;
    r
}

} // verus!
