//! Localized message lookup.  The embedding program loads a locale's
//! message table from wherever it keeps it and hands the entries in as
//! plain pairs; the library stores them and answers lookups, first entry
//! for a key winning.

use vstd::prelude::*;
use crate::text::str_eq;

verus! {

/// First value stored under key `k`, if any.
pub open spec fn lookup(es: Seq<(String, String)>, k: Seq<char>) -> Option<Seq<char>>
    decreases es.len(),
{
    if es.len() == 0 {
        Option::None
    } else if es[0].0@ == k {
        Option::Some(es[0].1@)
    } else {
        lookup(es.drop_first(), k)
    }
}

proof fn lemma_lookup_none(es: Seq<(String, String)>, k: Seq<char>)
    requires
        forall|j: int| 0 <= j < es.len() ==> (#[trigger] es[j].0@) != k,
    ensures
        lookup(es, k) is None,
    decreases es.len(),
{
    if es.len() == 0 {
    } else {
        assert(forall|j: int|
            0 <= j < es.len() - 1 ==> (#[trigger] es.drop_first()[j].0@) == es[j + 1].0@);
        lemma_lookup_none(es.drop_first(), k);
    }
}

proof fn lemma_lookup_at(es: Seq<(String, String)>, k: Seq<char>, i: int)
    requires
        0 <= i < es.len(),
        es[i].0@ == k,
        forall|j: int| 0 <= j < i ==> (#[trigger] es[j].0@) != k,
    ensures
        lookup(es, k) == Option::Some(es[i].1@),
    decreases i,
{
    if i == 0 {
    } else {
        assert(es[0].0@ != k);
        assert(forall|j: int|
            0 <= j < es.len() - 1 ==> (#[trigger] es.drop_first()[j].0@) == es[j + 1].0@);
        assert(forall|j: int|
            1 <= j < es.len() ==> (#[trigger] es[j].0@) == es.drop_first()[j - 1].0@);
        lemma_lookup_at(es.drop_first(), k, i - 1);
    }
}

/// A locale's message table.
#[derive(Debug)]
pub struct I18nMessages {
    current_locale: String,
    messages: Vec<(String, String)>,
}

impl I18nMessages {
    /// The locale the table speaks.
    pub closed spec fn locale(&self) -> Seq<char> {
        self.current_locale@
    }

    /// The stored entries.
    pub closed spec fn entries(&self) -> Seq<(String, String)> {
        self.messages@
    }

    /// A table for `locale` holding `entries`.
    pub fn new(locale: &str, entries: Vec<(String, String)>) -> (r: Self)
        ensures
            r.locale() == locale@,
            r.entries() == entries@,
    {
        I18nMessages { current_locale: String::from_str(locale), messages: entries }
    }

    /// The message stored under `key`, first entry winning.
    pub fn get_message(&self, key: &str) -> (r: Option<&str>)
        ensures
            match r {
                Option::Some(m) => lookup(self.entries(), key@) == Option::Some(m@),
                Option::None => lookup(self.entries(), key@) is None,
            },
    {
        let n = self.messages.len();
        let mut i: usize = 0;
        while i < n
            invariant
                n == self.messages@.len(),
                i <= n,
                forall|j: int| 0 <= j < i ==> (#[trigger] self.messages@[j].0@) != key@,
            decreases n - i,
        {
            let e = &self.messages[i];
            if str_eq(e.0.as_str(), key) {
                proof {
                    lemma_lookup_at(self.messages@, key@, i as int);
                }
                return Option::Some(e.1.as_str());
            }
            i = i + 1;
        }
        proof {
            lemma_lookup_none(self.messages@, key@);
        }
        Option::None
    }

    /// Switches to another locale's table.
    pub fn change_locale(&mut self, locale: &str, entries: Vec<(String, String)>) -> (r: Result<
        (),
        crate::error::ChatError,
    >)
        ensures
            r is Ok,
            final (self).locale() == locale@,
            final (self).entries() == entries@,
    {
        self.current_locale = String::from_str(locale);
        self.messages = entries;
        Result::Ok(())
    }
}

} // verus!
