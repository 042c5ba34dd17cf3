//! An indexed vocabulary store: a primary list of items plus four derived
//! indices (by level, lesson, language pair, and category), each held as a
//! flat list of (key, id) pairs in insertion order.  The store's invariant
//! ties every index pair to the item it points at, and every item to its
//! four index pairs.

use vstd::prelude::*;

use crate::textnorm::{lower_of, lowercase};
use crate::util::{
    contains_str, contains_sub, lemma_filter_take_step, lemma_filter_take_zero, lemma_take_all,
    str_eq,
};

verus! {

/// Category of vocabulary item.
#[derive(Debug, Clone, Copy, PartialEq, Eq, Structural, Hash)]
pub enum VocabularyCategory {
    Noun,
    Verb,
    Adjective,
    Adverb,
    Pronoun,
    Preposition,
    Conjunction,
    Interjection,
    Phrase,
    Expression,
    Idiom,
    Grammar,
    Other,
}

impl VocabularyCategory {
    /// The display name of this category, as a character sequence.
    pub open spec fn spec_display_name(self) -> Seq<char> {
        match self {
            VocabularyCategory::Noun => "Noun"@,
            VocabularyCategory::Verb => "Verb"@,
            VocabularyCategory::Adjective => "Adjective"@,
            VocabularyCategory::Adverb => "Adverb"@,
            VocabularyCategory::Pronoun => "Pronoun"@,
            VocabularyCategory::Preposition => "Preposition"@,
            VocabularyCategory::Conjunction => "Conjunction"@,
            VocabularyCategory::Interjection => "Interjection"@,
            VocabularyCategory::Phrase => "Phrase"@,
            VocabularyCategory::Expression => "Expression"@,
            VocabularyCategory::Idiom => "Idiom"@,
            VocabularyCategory::Grammar => "Grammar"@,
            VocabularyCategory::Other => "Other"@,
        }
    }

    /// Get display name for the category.
    pub fn display_name(&self) -> (r: &'static str)
        ensures
            r@ == self.spec_display_name(),
    {
        match self {
            VocabularyCategory::Noun => "Noun",
            VocabularyCategory::Verb => "Verb",
            VocabularyCategory::Adjective => "Adjective",
            VocabularyCategory::Adverb => "Adverb",
            VocabularyCategory::Pronoun => "Pronoun",
            VocabularyCategory::Preposition => "Preposition",
            VocabularyCategory::Conjunction => "Conjunction",
            VocabularyCategory::Interjection => "Interjection",
            VocabularyCategory::Phrase => "Phrase",
            VocabularyCategory::Expression => "Expression",
            VocabularyCategory::Idiom => "Idiom",
            VocabularyCategory::Grammar => "Grammar",
            VocabularyCategory::Other => "Other",
        }
    }

    /// Get icon for the category.
    pub fn icon(&self) -> (r: &'static str)
        ensures
            (match self {
                VocabularyCategory::Noun => r@ == "category"@,
                VocabularyCategory::Verb => r@ == "directions_run"@,
                VocabularyCategory::Adjective => r@ == "palette"@,
                VocabularyCategory::Adverb => r@ == "speed"@,
                VocabularyCategory::Pronoun => r@ == "person"@,
                VocabularyCategory::Preposition => r@ == "place"@,
                VocabularyCategory::Conjunction => r@ == "link"@,
                VocabularyCategory::Interjection => r@ == "chat_bubble"@,
                VocabularyCategory::Phrase => r@ == "short_text"@,
                VocabularyCategory::Expression => r@ == "format_quote"@,
                VocabularyCategory::Idiom => r@ == "lightbulb"@,
                VocabularyCategory::Grammar => r@ == "rule"@,
                VocabularyCategory::Other => r@ == "label"@,
            }),
    {
        match self {
            VocabularyCategory::Noun => "category",
            VocabularyCategory::Verb => "directions_run",
            VocabularyCategory::Adjective => "palette",
            VocabularyCategory::Adverb => "speed",
            VocabularyCategory::Pronoun => "person",
            VocabularyCategory::Preposition => "place",
            VocabularyCategory::Conjunction => "link",
            VocabularyCategory::Interjection => "chat_bubble",
            VocabularyCategory::Phrase => "short_text",
            VocabularyCategory::Expression => "format_quote",
            VocabularyCategory::Idiom => "lightbulb",
            VocabularyCategory::Grammar => "rule",
            VocabularyCategory::Other => "label",
        }
    }

    /// Get all categories.
    pub fn all() -> (r: Vec<Self>)
        ensures
            r@ =~= seq![
                VocabularyCategory::Noun,
                VocabularyCategory::Verb,
                VocabularyCategory::Adjective,
                VocabularyCategory::Adverb,
                VocabularyCategory::Pronoun,
                VocabularyCategory::Preposition,
                VocabularyCategory::Conjunction,
                VocabularyCategory::Interjection,
                VocabularyCategory::Phrase,
                VocabularyCategory::Expression,
                VocabularyCategory::Idiom,
                VocabularyCategory::Grammar,
                VocabularyCategory::Other,
            ],
    {
        let mut v: Vec<VocabularyCategory> = Vec::new();
        v.push(VocabularyCategory::Noun);
        v.push(VocabularyCategory::Verb);
        v.push(VocabularyCategory::Adjective);
        v.push(VocabularyCategory::Adverb);
        v.push(VocabularyCategory::Pronoun);
        v.push(VocabularyCategory::Preposition);
        v.push(VocabularyCategory::Conjunction);
        v.push(VocabularyCategory::Interjection);
        v.push(VocabularyCategory::Phrase);
        v.push(VocabularyCategory::Expression);
        v.push(VocabularyCategory::Idiom);
        v.push(VocabularyCategory::Grammar);
        v.push(VocabularyCategory::Other);
        v
    }
}

/// A vocabulary item representing a word or phrase.
#[derive(Debug, Clone, PartialEq)]
pub struct VocabularyItem {
    /// Unique identifier.
    pub id: String,
    /// Word/phrase in source language.
    pub source: String,
    /// Word/phrase in target language.
    pub target: String,
    /// Pronunciation guide (optional).
    pub pronunciation: Option<String>,
    /// Example sentence (optional).
    pub example_sentence: Option<String>,
    /// Example sentence translation (optional).
    pub example_translation: Option<String>,
    /// ID of the lesson this word came from.
    pub lesson_id: String,
    /// CEFR level (A1-C2).
    pub level: String,
    /// Language pair code.
    pub language_pair: String,
    /// Category of the vocabulary item.
    pub category: VocabularyCategory,
    /// Additional notes (optional).
    pub notes: Option<String>,
    /// Tags for searching/filtering.
    pub tags: Vec<String>,
    /// Whether this item has been added to SRS.
    pub in_srs: bool,
    /// ISO date when added.
    pub added_at: String,
}

/// An item matches a query when the lowercased query occurs in its
/// lowercased source text, target text, or any of its tags.
pub open spec fn matches_query_spec(item: VocabularyItem, query: Seq<char>) -> bool {
    ||| contains_sub(lower_of(item.source@), lower_of(query))
    ||| contains_sub(lower_of(item.target@), lower_of(query))
    ||| exists|t: int|
        0 <= t < item.tags@.len() && contains_sub(
            lower_of((#[trigger] item.tags@[t])@),
            lower_of(query),
        )
}

/// An item matches a query exactly when its lowercased source or target
/// text equals the lowercased query.
pub open spec fn exact_match_spec(item: VocabularyItem, query: Seq<char>) -> bool {
    lower_of(item.source@) == lower_of(query) || lower_of(item.target@) == lower_of(query)
}

impl VocabularyItem {
    /// Create a new vocabulary item.
    pub fn new(
        id: String,
        source: String,
        target: String,
        lesson_id: String,
        level: String,
        language_pair: String,
        category: VocabularyCategory,
        current_date: &str,
    ) -> (r: Self)
        ensures
            r.id == id,
            r.source == source,
            r.target == target,
            r.pronunciation is None,
            r.example_sentence is None,
            r.example_translation is None,
            r.lesson_id == lesson_id,
            r.level == level,
            r.language_pair == language_pair,
            r.category == category,
            r.notes is None,
            r.tags@ =~= Seq::<String>::empty(),
            r.in_srs == false,
            r.added_at@ == current_date@,
    {
        Self {
            id,
            source,
            target,
            pronunciation: None,
            example_sentence: None,
            example_translation: None,
            lesson_id,
            level,
            language_pair,
            category,
            notes: None,
            tags: Vec::new(),
            in_srs: false,
            added_at: current_date.to_owned(),
        }
    }

    /// Create with full details.
    pub fn with_details(
        id: String,
        source: String,
        target: String,
        pronunciation: Option<String>,
        example_sentence: Option<String>,
        example_translation: Option<String>,
        lesson_id: String,
        level: String,
        language_pair: String,
        category: VocabularyCategory,
        notes: Option<String>,
        current_date: &str,
    ) -> (r: Self)
        ensures
            r.id == id,
            r.source == source,
            r.target == target,
            r.pronunciation == pronunciation,
            r.example_sentence == example_sentence,
            r.example_translation == example_translation,
            r.lesson_id == lesson_id,
            r.level == level,
            r.language_pair == language_pair,
            r.category == category,
            r.notes == notes,
            r.tags@ =~= Seq::<String>::empty(),
            r.in_srs == false,
            r.added_at@ == current_date@,
    {
        Self {
            id,
            source,
            target,
            pronunciation,
            example_sentence,
            example_translation,
            lesson_id,
            level,
            language_pair,
            category,
            notes,
            tags: Vec::new(),
            in_srs: false,
            added_at: current_date.to_owned(),
        }
    }

    /// Check if this item matches a search query.
    pub fn matches_query(&self, query: &str) -> (r: bool)
        ensures
            r == matches_query_spec(*self, query@),
    {
        let query_lower = lowercase(query);
        let source_lower = lowercase(self.source.as_str());
        if contains_str(source_lower.as_str(), query_lower.as_str()) {
            return true;
        }
        let target_lower = lowercase(self.target.as_str());
        if contains_str(target_lower.as_str(), query_lower.as_str()) {
            return true;
        }
        let n = self.tags.len();
        let mut t: usize = 0;
        while t < n
            invariant
                n == self.tags@.len(),
                t <= n,
                query_lower@ == lower_of(query@),
                forall|u: int|
                    0 <= u < t ==> !contains_sub(
                        lower_of((#[trigger] self.tags@[u])@),
                        lower_of(query@),
                    ),
            decreases n - t,
        {
            let tag_lower = lowercase(self.tags[t].as_str());
            if contains_str(tag_lower.as_str(), query_lower.as_str()) {
                return true;
            }
            t = t + 1;
        }
        false
    }

    /// Whether this item's lowercased source or target equals the
    /// lowercased query exactly.
    pub fn matches_exactly(&self, query: &str) -> (r: bool)
        ensures
            r == exact_match_spec(*self, query@),
    {
        let query_lower = lowercase(query);
        let source_lower = lowercase(self.source.as_str());
        if str_eq(source_lower.as_str(), query_lower.as_str()) {
            return true;
        }
        let target_lower = lowercase(self.target.as_str());
        str_eq(target_lower.as_str(), query_lower.as_str())
    }
}

// ---------------------------------------------------------------------------
// The vocabulary bank and its index invariant
// ---------------------------------------------------------------------------

/// Some item of `items` has this id.
pub open spec fn items_contain(items: Seq<VocabularyItem>, id: Seq<char>) -> bool {
    exists|k: int| 0 <= k < items.len() && (#[trigger] items[k]).id@ == id
}

/// Ids are unique after removing one position.
proof fn lemma_ids_unique_after_remove(
    old_items: Seq<VocabularyItem>,
    new_items: Seq<VocabularyItem>,
    at: int,
)
    requires
        ids_unique(old_items),
        0 <= at < old_items.len(),
        new_items == old_items.remove(at),
    ensures
        ids_unique(new_items),
{
    assert forall|a: int, b: int| 0 <= a < b < new_items.len() implies (
    #[trigger] new_items[a]).id@ != (#[trigger] new_items[b]).id@ by {
        let a0 = if a < at {
            a
        } else {
            a + 1
        };
        let b0 = if b < at {
            b
        } else {
            b + 1
        };
        assert(new_items[a] == old_items[a0]);
        assert(new_items[b] == old_items[b0]);
    }
}

/// Which ids the items hold after removing one position: the removed id is
/// gone (ids being unique), every other id is kept.
proof fn lemma_contains_after_remove(
    old_items: Seq<VocabularyItem>,
    new_items: Seq<VocabularyItem>,
    at: int,
    id: Seq<char>,
)
    requires
        ids_unique(old_items),
        0 <= at < old_items.len(),
        old_items[at].id@ == id,
        new_items == old_items.remove(at),
    ensures
        !items_contain(new_items, id),
        forall|x: Seq<char>|
            x != id ==> (items_contain(new_items, x) == items_contain(old_items, x)),
{
    assert forall|x: Seq<char>| x != id implies (items_contain(new_items, x) == items_contain(
        old_items,
        x,
    )) by {
        if items_contain(old_items, x) {
            let k = choose|k: int| 0 <= k < old_items.len() && (#[trigger] old_items[k]).id@ == x;
            let k2 = if k < at {
                k
            } else {
                k - 1
            };
            assert(new_items[k2].id@ == x);
        }
        if items_contain(new_items, x) {
            let k = choose|k: int| 0 <= k < new_items.len() && (#[trigger] new_items[k]).id@ == x;
            let k0 = if k < at {
                k
            } else {
                k + 1
            };
            assert(old_items[k0].id@ == x);
        }
    }
    assert(!items_contain(new_items, id)) by {
        if items_contain(new_items, id) {
            let k = choose|k: int| 0 <= k < new_items.len() && (#[trigger] new_items[k]).id@ == id;
            let k0 = if k < at {
                k
            } else {
                k + 1
            };
            assert(old_items[k0].id@ == id);
            assert(old_items[at].id@ == id);
        }
    }
}

/// No two items share an id.
pub open spec fn ids_unique(items: Seq<VocabularyItem>) -> bool {
    forall|i: int, j: int|
        0 <= i < j < items.len() ==> (#[trigger] items[i]).id@ != (#[trigger] items[j]).id@
}

/// The index holds a (key, id) pair with these contents.
pub open spec fn idx_has_pair(idx: Seq<(String, String)>, key: Seq<char>, id: Seq<char>) -> bool {
    exists|i: int| 0 <= i < idx.len() && (#[trigger] idx[i]).0@ == key && idx[i].1@ == id
}

/// The index holds some pair with this id.
pub open spec fn idx_has_id(idx: Seq<(String, String)>, id: Seq<char>) -> bool {
    exists|i: int| 0 <= i < idx.len() && (#[trigger] idx[i]).1@ == id
}

/// The string key of an item for one of the three string-keyed indices:
/// 0 selects the level, 1 the lesson id, 2 the language pair.
pub open spec fn key_of(it: VocabularyItem, which: int) -> Seq<char> {
    if which == 0 {
        it.level@
    } else if which == 1 {
        it.lesson_id@
    } else {
        it.language_pair@
    }
}

/// The pair points at an item that exists and whose key field (selected
/// by `which`) matches the pair's key.
pub open spec fn idx_pair_ok(
    p: (String, String),
    items: Seq<VocabularyItem>,
    which: int,
) -> bool {
    exists|k: int|
        0 <= k < items.len() && (#[trigger] items[k]).id@ == p.1@ && key_of(items[k], which)
            == p.0@
}

/// Every pair of the index points at an item that exists and whose key
/// field (selected by `which`) matches the pair's key.
pub open spec fn idx_sound(
    idx: Seq<(String, String)>,
    items: Seq<VocabularyItem>,
    which: int,
) -> bool {
    forall|i: int| 0 <= i < idx.len() ==> idx_pair_ok(#[trigger] idx[i], items, which)
}

/// Every item is listed in the index under its own key.
pub open spec fn idx_complete(
    idx: Seq<(String, String)>,
    items: Seq<VocabularyItem>,
    which: int,
) -> bool {
    forall|k: int|
        0 <= k < items.len() ==> idx_has_pair(idx, key_of(#[trigger] items[k], which), items[k].id@)
}

/// `idx` with every pair carrying `id` removed, order kept.
pub open spec fn without_id<K>(idx: Seq<(K, String)>, id: Seq<char>) -> Seq<(K, String)>
    decreases idx.len(),
{
    if idx.len() == 0 {
        Seq::empty()
    } else if idx.last().1@ != id {
        without_id(idx.drop_last(), id).push(idx.last())
    } else {
        without_id(idx.drop_last(), id)
    }
}

/// No pair of `without_id(idx, id)` carries `id`, and each of its pairs is
/// a pair of `idx`.
proof fn lemma_without_id_elems<K>(idx: Seq<(K, String)>, id: Seq<char>)
    ensures
        forall|j: int|
            0 <= j < without_id(idx, id).len() ==> (#[trigger] without_id(idx, id)[j]).1@ != id,
        forall|j: int|
            0 <= j < without_id(idx, id).len() ==> exists|i: int|
                0 <= i < idx.len() && idx[i] == #[trigger] without_id(idx, id)[j],
    decreases idx.len(),
{
    if idx.len() > 0 {
        lemma_without_id_elems(idx.drop_last(), id);
        let w = without_id(idx, id);
        let ww = without_id(idx.drop_last(), id);
        assert forall|j: int| 0 <= j < w.len() implies exists|i: int|
            0 <= i < idx.len() && idx[i] == #[trigger] w[j] by {
            if idx.last().1@ != id && j == w.len() - 1 {
                assert(idx[idx.len() - 1] == w[j]);
            } else {
                assert(w[j] == ww[j]);
                let i = choose|i: int| 0 <= i < idx.drop_last().len() && idx.drop_last()[i] == ww[j];
                assert(idx[i] == w[j]);
            }
        }
    }
}

/// A pair that does not carry `id` survives the removal.
proof fn lemma_without_id_keeps<K>(idx: Seq<(K, String)>, id: Seq<char>, i: int)
    requires
        0 <= i < idx.len(),
        idx[i].1@ != id,
    ensures
        exists|j: int| 0 <= j < without_id(idx, id).len() && #[trigger] without_id(idx, id)[j]
            == idx[i],
    decreases idx.len(),
{
    let w = without_id(idx, id);
    if i == idx.len() - 1 {
        assert(w[w.len() - 1] == idx[i]);
    } else {
        lemma_without_id_keeps(idx.drop_last(), id, i);
        let ww = without_id(idx.drop_last(), id);
        let j = choose|j: int| 0 <= j < ww.len() && #[trigger] ww[j] == idx.drop_last()[i];
        assert(w[j] == idx[i]);
    }
}

/// Removing an id from the prefix, one pair at a time.
proof fn lemma_without_id_take_step<K>(idx: Seq<(K, String)>, id: Seq<char>, i: int)
    requires
        0 <= i < idx.len(),
    ensures
        without_id(idx.take(i + 1), id) == (if idx[i].1@ != id {
            without_id(idx.take(i), id).push(idx[i])
        } else {
            without_id(idx.take(i), id)
        }),
{
    assert(idx.take(i + 1).drop_last() =~= idx.take(i));
    assert(idx.take(i + 1).last() == idx[i]);
}

/// The category index holds a pair for this category and id.
pub open spec fn cidx_has_pair(
    idx: Seq<(VocabularyCategory, String)>,
    key: VocabularyCategory,
    id: Seq<char>,
) -> bool {
    exists|i: int| 0 <= i < idx.len() && (#[trigger] idx[i]).0 == key && idx[i].1@ == id
}

/// The category index holds some pair with this id.
pub open spec fn cidx_has_id(idx: Seq<(VocabularyCategory, String)>, id: Seq<char>) -> bool {
    exists|i: int| 0 <= i < idx.len() && (#[trigger] idx[i]).1@ == id
}

/// The pair points at an item that exists with the matching category.
pub open spec fn cidx_pair_ok(
    p: (VocabularyCategory, String),
    items: Seq<VocabularyItem>,
) -> bool {
    exists|k: int|
        0 <= k < items.len() && (#[trigger] items[k]).id@ == p.1@ && items[k].category == p.0
}

/// Soundness of the category index.
pub open spec fn cidx_sound(
    idx: Seq<(VocabularyCategory, String)>,
    items: Seq<VocabularyItem>,
) -> bool {
    forall|i: int| 0 <= i < idx.len() ==> cidx_pair_ok(#[trigger] idx[i], items)
}

/// Completeness of the category index.
pub open spec fn cidx_complete(
    idx: Seq<(VocabularyCategory, String)>,
    items: Seq<VocabularyItem>,
) -> bool {
    forall|k: int|
        0 <= k < items.len() ==> cidx_has_pair(idx, (#[trigger] items[k]).category, items[k].id@)
}

/// A collection of vocabulary items with indexing for efficient lookups.
#[derive(Debug, Clone)]
pub struct VocabularyBank {
    /// All vocabulary items, in insertion order.
    items: Vec<VocabularyItem>,
    /// (level, id) pairs, in insertion order.
    by_level: Vec<(String, String)>,
    /// (lesson id, id) pairs, in insertion order.
    by_lesson: Vec<(String, String)>,
    /// (language pair, id) pairs, in insertion order.
    by_language_pair: Vec<(String, String)>,
    /// (category, id) pairs, in insertion order.
    by_category: Vec<(VocabularyCategory, String)>,
}

impl VocabularyBank {
    /// The items of the bank, for specifications.
    pub closed spec fn spec_items(self) -> Seq<VocabularyItem> {
        self.items@
    }

    /// The level index of the bank, for specifications.
    pub closed spec fn spec_by_level(self) -> Seq<(String, String)> {
        self.by_level@
    }

    /// The lesson index of the bank, for specifications.
    pub closed spec fn spec_by_lesson(self) -> Seq<(String, String)> {
        self.by_lesson@
    }

    /// The language-pair index of the bank, for specifications.
    pub closed spec fn spec_by_language_pair(self) -> Seq<(String, String)> {
        self.by_language_pair@
    }

    /// The category index of the bank, for specifications.
    pub closed spec fn spec_by_category(self) -> Seq<(VocabularyCategory, String)> {
        self.by_category@
    }

    /// Index consistency: ids are unique, every index pair points at an
    /// existing item with the matching key, and every item appears in all
    /// four indices under its own keys.
    pub open spec fn wf(self) -> bool {
        &&& ids_unique(self.spec_items())
        &&& idx_sound(self.spec_by_level(), self.spec_items(), 0)
        &&& idx_complete(self.spec_by_level(), self.spec_items(), 0)
        &&& idx_sound(self.spec_by_lesson(), self.spec_items(), 1)
        &&& idx_complete(self.spec_by_lesson(), self.spec_items(), 1)
        &&& idx_sound(self.spec_by_language_pair(), self.spec_items(), 2)
        &&& idx_complete(self.spec_by_language_pair(), self.spec_items(), 2)
        &&& cidx_sound(self.spec_by_category(), self.spec_items())
        &&& cidx_complete(self.spec_by_category(), self.spec_items())
    }

    /// Whether the bank holds an item with this id.
    pub open spec fn spec_contains_id(self, id: Seq<char>) -> bool {
        items_contain(self.spec_items(), id)
    }

    /// Create a new empty vocabulary bank.
    pub fn new() -> (r: Self)
        ensures
            r.wf(),
            r.spec_items() =~= Seq::<VocabularyItem>::empty(),
            r.spec_by_level() =~= Seq::<(String, String)>::empty(),
            r.spec_by_lesson() =~= Seq::<(String, String)>::empty(),
            r.spec_by_language_pair() =~= Seq::<(String, String)>::empty(),
            r.spec_by_category() =~= Seq::<(VocabularyCategory, String)>::empty(),
    {
        Self {
            items: Vec::new(),
            by_level: Vec::new(),
            by_lesson: Vec::new(),
            by_language_pair: Vec::new(),
            by_category: Vec::new(),
        }
    }

    /// Add a vocabulary item to the bank: it is appended to the primary
    /// list and listed in all four indices under its own keys.  If an item
    /// with the same id is already present, it is removed first, so that
    /// the id stays unique.
    pub fn add(&mut self, item: VocabularyItem)
        requires
            old(self).wf(),
        ensures
            final (self).wf(),
            final (self).spec_contains_id(item.id@),
            final (self).spec_items().last() == item,
            !old(self).spec_contains_id(item.id@) ==> final (self).spec_items() == old(
                self,
            ).spec_items().push(item),
            forall|x: Seq<char>|
                x != item.id@ ==> (final (self).spec_contains_id(x) == old(self).spec_contains_id(
                    x,
                )),
    {
        let present = {
            let got = self.get(item.id.as_str());
            got.is_some()
        };
        if present {
            let _ = self.remove(item.id.as_str());
        }
        self.insert_fresh(item);
    }

    /// Appends an item whose id is not yet present.
    #[verifier::rlimit(50)]
    #[verifier::spinoff_prover]
    fn insert_fresh(&mut self, item: VocabularyItem)
        requires
            old(self).wf(),
            !old(self).spec_contains_id(item.id@),
        ensures
            final (self).wf(),
            final (self).spec_contains_id(item.id@),
            final (self).spec_items() == old(self).spec_items().push(item),
            forall|x: Seq<char>|
                x != item.id@ ==> (final (self).spec_contains_id(x) == old(self).spec_contains_id(
                    x,
                )),
    {
        let ghost base = *self;
        self.by_level.push((item.level.clone(), item.id.clone()));
        self.by_lesson.push((item.lesson_id.clone(), item.id.clone()));
        self.by_language_pair.push((item.language_pair.clone(), item.id.clone()));
        self.by_category.push((item.category, item.id.clone()));
        self.items.push(item);
        proof {
            lemma_bank_add(base, *self, item);
        }
    }

    /// Get a vocabulary item by ID: the item with that id, if any.
    pub fn get(&self, id: &str) -> (r: Option<&VocabularyItem>)
        ensures
            (match r {
                Some(it) => exists|k: int|
                    {
                        &&& 0 <= k < self.spec_items().len()
                        &&& it == &self.spec_items()[k]
                        &&& (#[trigger] self.spec_items()[k]).id@ == id@
                    },
                None => !self.spec_contains_id(id@),
            }),
    {
        let n = self.items.len();
        let mut i: usize = 0;
        while i < n
            invariant
                n == self.items@.len(),
                i <= n,
                forall|k: int| 0 <= k < i ==> (#[trigger] self.items@[k]).id@ != id@,
            decreases n - i,
        {
            if str_eq(self.items[i].id.as_str(), id) {
                proof {
                    assert(self.spec_items()[i as int].id@ == id@);
                }
                return Some(&self.items[i]);
            }
            i = i + 1;
        }
        None
    }

    /// Get total count.
    pub fn len(&self) -> (r: usize)
        ensures
            r == self.spec_items().len(),
    {
        self.items.len()
    }

    /// Check if empty.
    pub fn is_empty(&self) -> (r: bool)
        ensures
            r == (self.spec_items().len() == 0),
    {
        self.items.len() == 0
    }

    /// Get all vocabulary items, in insertion order.
    pub fn all(&self) -> (r: Vec<&VocabularyItem>)
        ensures
            r@.len() == self.spec_items().len(),
            forall|k: int|
                0 <= k < r@.len() ==> *(#[trigger] r@[k]) == self.spec_items()[k],
    {
        let n = self.items.len();
        let mut r: Vec<&VocabularyItem> = Vec::new();
        let mut i: usize = 0;
        while i < n
            invariant
                n == self.items@.len(),
                i <= n,
                r@.len() == i,
                forall|k: int| 0 <= k < i ==> *(#[trigger] r@[k]) == self.items@[k],
            decreases n - i,
        {
            r.push(&self.items[i]);
            i = i + 1;
        }
        r
    }

    /// Get items not yet in SRS.
    pub fn not_in_srs(&self) -> (r: Vec<&VocabularyItem>)
        ensures
            r@.map_values(|it: &VocabularyItem| *it) == self.spec_items().filter(
                |it: VocabularyItem| !it.in_srs,
            ),
    {
        let ghost pred = |it: VocabularyItem| !it.in_srs;
        let n = self.items.len();
        let mut r: Vec<&VocabularyItem> = Vec::new();
        let mut i: usize = 0;
        proof {
            lemma_filter_take_zero(self.items@, pred);
        }
        while i < n
            invariant
                n == self.items@.len(),
                i <= n,
                pred == (|it: VocabularyItem| !it.in_srs),
                r@.map_values(|it: &VocabularyItem| *it) =~= self.items@.take(i as int).filter(
                    pred,
                ),
            decreases n - i,
        {
            proof {
                lemma_filter_take_step(self.items@, i as int, pred);
            }
            if !self.items[i].in_srs {
                r.push(&self.items[i]);
            }
            i = i + 1;
        }
        proof {
            lemma_take_all(self.items@);
        }
        r
    }

    /// Remove a vocabulary item by id.  The item leaves the primary list,
    /// and no pair with its id stays behind in any of the four indices.
    #[verifier::rlimit(30)]
    pub fn remove(&mut self, id: &str) -> (r: Option<VocabularyItem>)
        requires
            old(self).wf(),
        ensures
            final (self).wf(),
            !final (self).spec_contains_id(id@),
            !idx_has_id(final (self).spec_by_level(), id@),
            !idx_has_id(final (self).spec_by_lesson(), id@),
            !idx_has_id(final (self).spec_by_language_pair(), id@),
            !cidx_has_id(final (self).spec_by_category(), id@),
            (match r {
                Some(item) => {
                    &&& item.id@ == id@
                    &&& exists|k: int|
                        {
                            &&& 0 <= k < old(self).spec_items().len()
                            &&& item == old(self).spec_items()[k]
                            &&& final (self).spec_items() == old(self).spec_items().remove(k)
                        }
                },
                None => {
                    &&& !old(self).spec_contains_id(id@)
                    &&& *final (self) == *old(self)
                },
            }),
            forall|x: Seq<char>|
                x != id@ ==> (final (self).spec_contains_id(x) == old(self).spec_contains_id(x)),
    {
        let ghost pre = *self;
        let pos = self.position_of(id);
        match pos {
            None => None,
            Some(i) => {
                let item = self.items.remove(i);
                remove_id_pairs(&mut self.by_level, id);
                remove_id_pairs(&mut self.by_lesson, id);
                remove_id_pairs(&mut self.by_language_pair, id);
                remove_id_cpairs(&mut self.by_category, id);
                proof {
                    lemma_bank_remove(pre, *self, i as int, id@);
                }
                Some(item)
            },
        }
    }

    /// The position of the item with this id, if any.
    fn position_of(&self, id: &str) -> (r: Option<usize>)
        ensures
            (match r {
                Some(i) => i < self.spec_items().len() && self.spec_items()[i as int].id@ == id@,
                None => !self.spec_contains_id(id@),
            }),
    {
        let n = self.items.len();
        let mut i: usize = 0;
        while i < n
            invariant
                n == self.items@.len(),
                i <= n,
                forall|k: int| 0 <= k < i ==> (#[trigger] self.items@[k]).id@ != id@,
            decreases n - i,
        {
            if str_eq(self.items[i].id.as_str(), id) {
                return Some(i);
            }
            i = i + 1;
        }
        None
    }

    /// Mark item as added to SRS.  Returns false when the id is absent.
    #[verifier::rlimit(50)]
    #[verifier::spinoff_prover]
    pub fn mark_in_srs(&mut self, id: &str) -> (r: bool)
        requires
            old(self).wf(),
        ensures
            final (self).wf(),
            r == old(self).spec_contains_id(id@),
            !r ==> *final (self) == *old(self),
            r ==> exists|k: int|
                {
                    &&& 0 <= k < old(self).spec_items().len()
                    &&& (#[trigger] old(self).spec_items()[k]).id@ == id@
                    &&& final (self).spec_items() == old(self).spec_items().update(
                        k,
                        set_in_srs(old(self).spec_items()[k]),
                    )
                },
            final (self).spec_by_level() == old(self).spec_by_level(),
            final (self).spec_by_lesson() == old(self).spec_by_lesson(),
            final (self).spec_by_language_pair() == old(self).spec_by_language_pair(),
            final (self).spec_by_category() == old(self).spec_by_category(),
    {
        let ghost pre = *self;
        let pos = self.position_of(id);
        match pos {
            None => false,
            Some(i) => {
                let mut it = self.items.remove(i);
                it.in_srs = true;
                proof {
                    assert(it == set_in_srs(pre.spec_items()[i as int]));
                }
                self.items.insert(i, it);
                proof {
                    lemma_remove_insert_is_update(
                        pre.spec_items(),
                        i as int,
                        set_in_srs(pre.spec_items()[i as int]),
                    );
                    assert(pre.spec_items()[i as int].id@ == id@);
                    assert(pre.spec_contains_id(id@));
                    lemma_update_field_preserves_wf(pre, *self, i as int);
                }
                true
            },
        }
    }
}

impl VocabularyBank {
    /// The items listed in a string-keyed index under `key`, in index
    /// order: the `j`-th returned item is the item of the `j`-th index pair
    /// carrying `key`.
    #[verifier::rlimit(50)]
    #[verifier::spinoff_prover]
    fn lookup_index(&self, idx_which: u8, key: &str) -> (r: Vec<&VocabularyItem>)
        requires
            self.wf(),
            idx_which < 3,
        ensures
            ({
                let idx = if idx_which == 0 {
                    self.spec_by_level()
                } else if idx_which == 1 {
                    self.spec_by_lesson()
                } else {
                    self.spec_by_language_pair()
                };
                let hits = pairs_with_key(idx, key@);
                &&& r@.len() == hits.len()
                &&& forall|j: int|
                    0 <= j < r@.len() ==> (*(#[trigger] r@[j])).id@ == hits[j].1@ && key_of(
                        *r@[j],
                        idx_which as int,
                    ) == key@ && items_contain(self.spec_items(), (*r@[j]).id@)
            }),
    {
        let idx: &Vec<(String, String)> = if idx_which == 0 {
            &self.by_level
        } else if idx_which == 1 {
            &self.by_lesson
        } else {
            &self.by_language_pair
        };
        let ghost idxg = idx@;
        let ghost which = idx_which as int;
        let n = idx.len();
        let mut r: Vec<&VocabularyItem> = Vec::new();
        let mut i: usize = 0;
        proof {
            assert(idxg.take(0) =~= Seq::<(String, String)>::empty());
        }
        while i < n
            invariant
                self.wf(),
                idx_which < 3,
                idxg == idx@,
                idxg == (if idx_which == 0 {
                    self.spec_by_level()
                } else if idx_which == 1 {
                    self.spec_by_lesson()
                } else {
                    self.spec_by_language_pair()
                }),
                which == idx_which as int,
                n == idxg.len(),
                i <= n,
                r@.len() == pairs_with_key(idxg.take(i as int), key@).len(),
                forall|j: int|
                    0 <= j < r@.len() ==> (*(#[trigger] r@[j])).id@ == pairs_with_key(
                        idxg.take(i as int),
                        key@,
                    )[j].1@ && key_of(*r@[j], which) == key@ && items_contain(
                        self.spec_items(),
                        (*r@[j]).id@,
                    ),
            decreases n - i,
        {
            proof {
                lemma_pairs_with_key_step(idxg, key@, i as int);
            }
            if str_eq(idx[i].0.as_str(), key) {
                proof {
                    assert(idx_pair_ok(idxg[i as int], self.spec_items(), which));
                }
                let it = self.find_by_id(idx[i].1.as_str());
                match it {
                    Some(item) => {
                        proof {
                            let k = choose|k: int|
                                0 <= k < self.spec_items().len() && *item == (
                                #[trigger] self.spec_items()[k]) && self.spec_items()[k].id@
                                    == idxg[i as int].1@;
                            let k2 = choose|k2: int|
                                0 <= k2 < self.spec_items().len() && (
                                #[trigger] self.spec_items()[k2]).id@ == idxg[i as int].1@
                                    && key_of(self.spec_items()[k2], which) == idxg[i as int].0@;
                            assert(k == k2);
                            assert(key_of(*item, which) == key@);
                            assert(items_contain(self.spec_items(), (*item).id@));
                        }
                        r.push(item);
                        proof {
                            assert(pairs_with_key(idxg.take(i as int + 1), key@)
                                =~= pairs_with_key(idxg.take(i as int), key@).push(
                                idxg[i as int],
                            ));
                        }
                    },
                    None => {
                        proof {
                            assert(items_contain(self.spec_items(), idxg[i as int].1@));
                            assert(false);
                        }
                    },
                }
            }
            i = i + 1;
        }
        proof {
            assert(idxg.take(n as int) =~= idxg);
        }
        r
    }

    /// The item with this id, when it is known to be present.
    fn find_by_id(&self, id: &str) -> (r: Option<&VocabularyItem>)
        ensures
            (match r {
                Some(it) => exists|k: int|
                    0 <= k < self.spec_items().len() && *it == (#[trigger] self.spec_items()[k])
                        && self.spec_items()[k].id@ == id@,
                None => !items_contain(self.spec_items(), id@),
            }),
    {
        let n = self.items.len();
        let mut i: usize = 0;
        while i < n
            invariant
                n == self.items@.len(),
                i <= n,
                forall|k: int| 0 <= k < i ==> (#[trigger] self.items@[k]).id@ != id@,
            decreases n - i,
        {
            if str_eq(self.items[i].id.as_str(), id) {
                proof {
                    assert(self.spec_items()[i as int].id@ == id@);
                }
                return Some(&self.items[i]);
            }
            i = i + 1;
        }
        None
    }

    /// Get vocabulary items by level.
    pub fn by_level(&self, level: &str) -> (r: Vec<&VocabularyItem>)
        requires
            self.wf(),
        ensures
            r@.len() == pairs_with_key(self.spec_by_level(), level@).len(),
            forall|j: int|
                0 <= j < r@.len() ==> (*(#[trigger] r@[j])).level@ == level@ && items_contain(
                    self.spec_items(),
                    (*r@[j]).id@,
                ),
    {
        self.lookup_index(0, level)
    }

    /// Get vocabulary items by lesson.
    pub fn by_lesson(&self, lesson_id: &str) -> (r: Vec<&VocabularyItem>)
        requires
            self.wf(),
        ensures
            r@.len() == pairs_with_key(self.spec_by_lesson(), lesson_id@).len(),
            forall|j: int|
                0 <= j < r@.len() ==> (*(#[trigger] r@[j])).lesson_id@ == lesson_id@
                    && items_contain(self.spec_items(), (*r@[j]).id@),
    {
        self.lookup_index(1, lesson_id)
    }

    /// Get vocabulary items by language pair.
    pub fn by_language_pair(&self, language_pair: &str) -> (r: Vec<&VocabularyItem>)
        requires
            self.wf(),
        ensures
            r@.len() == pairs_with_key(self.spec_by_language_pair(), language_pair@).len(),
            forall|j: int|
                0 <= j < r@.len() ==> (*(#[trigger] r@[j])).language_pair@ == language_pair@
                    && items_contain(self.spec_items(), (*r@[j]).id@),
    {
        self.lookup_index(2, language_pair)
    }

    /// Get vocabulary items by category.
    pub fn by_category(&self, category: VocabularyCategory) -> (r: Vec<&VocabularyItem>)
        requires
            self.wf(),
        ensures
            r@.len() == cpairs_with_key(self.spec_by_category(), category).len(),
            forall|j: int|
                0 <= j < r@.len() ==> (*(#[trigger] r@[j])).category == category && items_contain(
                    self.spec_items(),
                    (*r@[j]).id@,
                ),
    {
        let ghost idxg = self.by_category@;
        let n = self.by_category.len();
        let mut r: Vec<&VocabularyItem> = Vec::new();
        let mut i: usize = 0;
        proof {
            assert(idxg.take(0) =~= Seq::<(VocabularyCategory, String)>::empty());
        }
        while i < n
            invariant
                self.wf(),
                idxg == self.by_category@,
                n == idxg.len(),
                i <= n,
                r@.len() == cpairs_with_key(idxg.take(i as int), category).len(),
                forall|j: int|
                    0 <= j < r@.len() ==> (*(#[trigger] r@[j])).category == category
                        && items_contain(self.spec_items(), (*r@[j]).id@),
            decreases n - i,
        {
            proof {
                lemma_cpairs_with_key_step(idxg, category, i as int);
            }
            if self.by_category[i].0 == category {
                proof {
                    assert(cidx_pair_ok(idxg[i as int], self.spec_items()));
                }
                let it = self.find_by_id(self.by_category[i].1.as_str());
                match it {
                    Some(item) => {
                        proof {
                            let k = choose|k: int|
                                0 <= k < self.spec_items().len() && *item == (
                                #[trigger] self.spec_items()[k]) && self.spec_items()[k].id@
                                    == idxg[i as int].1@;
                            let k2 = choose|k2: int|
                                0 <= k2 < self.spec_items().len() && (
                                #[trigger] self.spec_items()[k2]).id@ == idxg[i as int].1@
                                    && self.spec_items()[k2].category == idxg[i as int].0;
                            assert(k == k2);
                            assert((*item).category == category);
                            assert(items_contain(self.spec_items(), (*item).id@));
                        }
                        r.push(item);
                    },
                    None => {
                        proof {
                            assert(items_contain(self.spec_items(), idxg[i as int].1@));
                            assert(false);
                        }
                    },
                }
            }
            i = i + 1;
        }
        proof {
            assert(idxg.take(n as int) =~= idxg);
        }
        r
    }

    /// Search vocabulary items: every item matching the query, the exact
    /// matches (case-insensitive full equality on source or target) first,
    /// then the partial matches, each group in insertion order; truncated
    /// to `limit` if one is given.
    pub fn search(&self, query: &str, limit: Option<usize>) -> (r: Vec<&VocabularyItem>)
        ensures
            ({
                let full = self.spec_items().filter(
                    |it: VocabularyItem| exact_match_spec(it, query@),
                ) + self.spec_items().filter(
                    |it: VocabularyItem|
                        matches_query_spec(it, query@) && !exact_match_spec(it, query@),
                );
                let cut = (match limit {
                    Some(l) => if l < full.len() {
                        l as int
                    } else {
                        full.len() as int
                    },
                    None => full.len() as int,
                });
                &&& r@.len() == cut
                &&& forall|j: int| 0 <= j < r@.len() ==> *(#[trigger] r@[j]) == full[j]
            }),
    {
        let ghost exact_pred = |it: VocabularyItem| exact_match_spec(it, query@);
        let ghost partial_pred = |it: VocabularyItem|
            matches_query_spec(it, query@) && !exact_match_spec(it, query@);
        let n = self.items.len();
        let mut r: Vec<&VocabularyItem> = Vec::new();
        let mut i: usize = 0;
        proof {
            lemma_filter_take_zero(self.items@, exact_pred);
        }
        while i < n
            invariant
                n == self.items@.len(),
                i <= n,
                exact_pred == (|it: VocabularyItem| exact_match_spec(it, query@)),
                r@.map_values(|it: &VocabularyItem| *it) =~= self.items@.take(i as int).filter(
                    exact_pred,
                ),
            decreases n - i,
        {
            proof {
                lemma_filter_take_step(self.items@, i as int, exact_pred);
            }
            if self.items[i].matches_exactly(query) {
                r.push(&self.items[i]);
            }
            i = i + 1;
        }
        proof {
            lemma_take_all(self.items@);
            lemma_filter_take_zero(self.items@, partial_pred);
        }
        let ghost half = r@;
        let mut i: usize = 0;
        while i < n
            invariant
                n == self.items@.len(),
                i <= n,
                exact_pred == (|it: VocabularyItem| exact_match_spec(it, query@)),
                partial_pred == (|it: VocabularyItem|
                    matches_query_spec(it, query@) && !exact_match_spec(it, query@)),
                half.map_values(|it: &VocabularyItem| *it) == self.items@.filter(exact_pred),
                half.len() <= r@.len(),
                forall|j: int| 0 <= j < half.len() ==> r@[j] == half[j],
                r@.map_values(|it: &VocabularyItem| *it) =~= self.items@.filter(exact_pred)
                    + self.items@.take(i as int).filter(partial_pred),
            decreases n - i,
        {
            proof {
                lemma_filter_take_step(self.items@, i as int, partial_pred);
            }
            let is_exact = self.items[i].matches_exactly(query);
            let is_match = self.items[i].matches_query(query);
            if is_match && !is_exact {
                r.push(&self.items[i]);
                proof {
                    assert(self.items@.filter(exact_pred) + self.items@.take(i as int).filter(
                        partial_pred,
                    ).push(self.items@[i as int]) =~= (self.items@.filter(exact_pred)
                        + self.items@.take(i as int).filter(partial_pred)).push(
                        self.items@[i as int],
                    ));
                }
            }
            i = i + 1;
        }
        proof {
            lemma_take_all(self.items@);
        }
        let ghost full = self.spec_items().filter(|it: VocabularyItem| exact_match_spec(it, query@))
            + self.spec_items().filter(
            |it: VocabularyItem| matches_query_spec(it, query@) && !exact_match_spec(it, query@),
        );
        proof {
            assert(r@.map_values(|it: &VocabularyItem| *it) == full);
            assert(forall|j: int| 0 <= j < r@.len() ==> *(#[trigger] r@[j]) == full[j]);
        }
        match limit {
            Some(l) => {
                if l < r.len() {
                    r.truncate(l);
                }
            },
            None => {},
        }
        r
    }
}

/// Statistics about the vocabulary bank.  Counts per level and category
/// are held as (key, count) lists with distinct keys.
#[derive(Debug, Clone, PartialEq)]
pub struct VocabularyStats {
    pub total: usize,
    pub in_srs: usize,
    pub not_in_srs: usize,
    pub by_level: Vec<(String, usize)>,
    pub by_category: Vec<(String, usize)>,
}

/// The entry lists this category's display name and its item count.
pub open spec fn is_cat_entry(
    e: (String, usize),
    idx: Seq<(VocabularyCategory, String)>,
    c: VocabularyCategory,
) -> bool {
    e.0@ == c.spec_display_name() && e.1 == cpairs_with_key(idx, c).len() && cpairs_with_key(
        idx,
        c,
    ).len() > 0
}

/// The entry belongs to one of the categories.
pub open spec fn is_some_cat_entry(
    e: (String, usize),
    idx: Seq<(VocabularyCategory, String)>,
) -> bool {
    ||| is_cat_entry(e, idx, VocabularyCategory::Noun)
    ||| is_cat_entry(e, idx, VocabularyCategory::Verb)
    ||| is_cat_entry(e, idx, VocabularyCategory::Adjective)
    ||| is_cat_entry(e, idx, VocabularyCategory::Adverb)
    ||| is_cat_entry(e, idx, VocabularyCategory::Pronoun)
    ||| is_cat_entry(e, idx, VocabularyCategory::Preposition)
    ||| is_cat_entry(e, idx, VocabularyCategory::Conjunction)
    ||| is_cat_entry(e, idx, VocabularyCategory::Interjection)
    ||| is_cat_entry(e, idx, VocabularyCategory::Phrase)
    ||| is_cat_entry(e, idx, VocabularyCategory::Expression)
    ||| is_cat_entry(e, idx, VocabularyCategory::Idiom)
    ||| is_cat_entry(e, idx, VocabularyCategory::Grammar)
    ||| is_cat_entry(e, idx, VocabularyCategory::Other)
}

/// Some entry of `out` lists this key.
pub open spec fn key_listed(out: Seq<(String, usize)>, key: Seq<char>) -> bool {
    exists|j: int| 0 <= j < out.len() && (#[trigger] out[j]).0@ == key
}

impl VocabularyBank {
    /// Get vocabulary statistics: total and SRS counts, and the number of
    /// items per level and per category (category keys rendered as display
    /// names).
    pub fn stats(&self) -> (r: VocabularyStats)
        requires
            self.wf(),
        ensures
            r.total == self.spec_items().len(),
            r.in_srs == self.spec_items().filter(|it: VocabularyItem| it.in_srs).len(),
            r.not_in_srs == self.spec_items().len() - self.spec_items().filter(
                |it: VocabularyItem| it.in_srs,
            ).len(),
            forall|j1: int, j2: int|
                0 <= j1 < j2 < r.by_level@.len() ==> (#[trigger] r.by_level@[j1]).0@ != (
                #[trigger] r.by_level@[j2]).0@,
            forall|j: int|
                0 <= j < r.by_level@.len() ==> (#[trigger] r.by_level@[j]).1 == pairs_with_key(
                    self.spec_by_level(),
                    r.by_level@[j].0@,
                ).len(),
            forall|i: int|
                0 <= i < self.spec_by_level().len() ==> key_listed(
                    r.by_level@,
                    (#[trigger] self.spec_by_level()[i]).0@,
                ),
            forall|j: int|
                0 <= j < r.by_category@.len() ==> is_some_cat_entry(
                    #[trigger] r.by_category@[j],
                    self.spec_by_category(),
                ),
    {
        let ghost srs_pred = |it: VocabularyItem| it.in_srs;
        let total = self.items.len();
        let mut in_srs: usize = 0;
        let mut i: usize = 0;
        proof {
            lemma_filter_take_zero(self.items@, srs_pred);
        }
        while i < total
            invariant
                total == self.items@.len(),
                i <= total,
                srs_pred == (|it: VocabularyItem| it.in_srs),
                in_srs == self.items@.take(i as int).filter(srs_pred).len(),
                in_srs <= i,
            decreases total - i,
        {
            proof {
                lemma_filter_take_step(self.items@, i as int, srs_pred);
            }
            if self.items[i].in_srs {
                in_srs = in_srs + 1;
            }
            i = i + 1;
        }
        proof {
            lemma_take_all(self.items@);
        }

        // Per-level counts: one entry per distinct key of the level index.
        let mut by_level: Vec<(String, usize)> = Vec::new();
        let mut i: usize = 0;
        let nl = self.by_level.len();
        while i < nl
            invariant
                self.wf(),
                nl == self.by_level@.len(),
                i <= nl,
                forall|j1: int, j2: int|
                    0 <= j1 < j2 < by_level@.len() ==> (#[trigger] by_level@[j1]).0@ != (
                    #[trigger] by_level@[j2]).0@,
                forall|j: int|
                    0 <= j < by_level@.len() ==> (#[trigger] by_level@[j]).1 == pairs_with_key(
                        self.spec_by_level(),
                        by_level@[j].0@,
                    ).len(),
                forall|m: int|
                    0 <= m < i ==> key_listed(by_level@, (#[trigger] self.by_level@[m]).0@),
            decreases nl - i,
        {
            let key = &self.by_level[i].0;
            let mut seen = false;
            let mut t: usize = 0;
            while t < by_level.len()
                invariant
                    t <= by_level@.len(),
                    seen == exists|u: int| 0 <= u < t && (#[trigger] by_level@[u]).0@ == key@,
                decreases by_level@.len() - t,
            {
                if str_eq(by_level[t].0.as_str(), key.as_str()) {
                    seen = true;
                }
                t = t + 1;
            }
            if !seen {
                let count = count_key_pairs(&self.by_level, key.as_str());
                let ghost old_out = by_level@;
                by_level.push((key.clone(), count));
                proof {
                    assert(by_level@[by_level@.len() - 1].0@ == self.by_level@[i as int].0@);
                    assert forall|m: int|
                        0 <= m < i && key_listed(old_out, (#[trigger] self.by_level@[m]).0@)
                            implies key_listed(by_level@, self.by_level@[m].0@) by {
                        let u = choose|u: int|
                            0 <= u < old_out.len() && (#[trigger] old_out[u]).0@
                                == self.by_level@[m].0@;
                        assert(by_level@[u].0@ == self.by_level@[m].0@);
                    }
                }
            }
            assert(key_listed(by_level@, self.by_level@[i as int].0@)) by {
                if seen {
                    let u = choose|u: int|
                        0 <= u < by_level@.len() && (#[trigger] by_level@[u]).0@ == key@;
                    assert(by_level@[u].0@ == self.by_level@[i as int].0@);
                } else {
                    assert(by_level@[by_level@.len() - 1].0@ == self.by_level@[i as int].0@);
                }
            }
            i = i + 1;
        }

        // Per-category counts, in the fixed category order.
        let cats = VocabularyCategory::all();
        let mut by_category: Vec<(String, usize)> = Vec::new();
        let mut i: usize = 0;
        while i < cats.len()
            invariant
                self.wf(),
                i <= cats@.len(),
                forall|j: int|
                    0 <= j < by_category@.len() ==> is_some_cat_entry(
                        #[trigger] by_category@[j],
                        self.spec_by_category(),
                    ),
            decreases cats@.len() - i,
        {
            let c = cats[i];
            let count = count_category_pairs(&self.by_category, c);
            if count > 0 {
                let mut name = String::new();
                name.append(c.display_name());
                let ghost old_cat = by_category@;
                by_category.push((name, count));
                proof {
                    assert(is_cat_entry(
                        by_category@[by_category@.len() - 1],
                        self.spec_by_category(),
                        c,
                    ));
                    assert(forall|j: int|
                        0 <= j < old_cat.len() ==> by_category@[j] == old_cat[j]);
                }
            }
            i = i + 1;
        }

        VocabularyStats { total, in_srs, not_in_srs: total - in_srs, by_level, by_category }
    }
}

/// Counts the pairs of a string-keyed index carrying `key`.
fn count_key_pairs(idx: &Vec<(String, String)>, key: &str) -> (r: usize)
    ensures
        r == pairs_with_key(idx@, key@).len(),
{
    let n = idx.len();
    let mut count: usize = 0;
    let mut i: usize = 0;
    proof {
        assert(idx@.take(0) =~= Seq::<(String, String)>::empty());
    }
    while i < n
        invariant
            n == idx@.len(),
            i <= n,
            count == pairs_with_key(idx@.take(i as int), key@).len(),
            count <= i,
        decreases n - i,
    {
        proof {
            lemma_pairs_with_key_step(idx@, key@, i as int);
        }
        if str_eq(idx[i].0.as_str(), key) {
            count = count + 1;
        }
        i = i + 1;
    }
    proof {
        assert(idx@.take(n as int) =~= idx@);
    }
    count
}

/// Counts the pairs of the category index carrying `key`.
fn count_category_pairs(idx: &Vec<(VocabularyCategory, String)>, key: VocabularyCategory) -> (r:
    usize)
    ensures
        r == cpairs_with_key(idx@, key).len(),
{
    let n = idx.len();
    let mut count: usize = 0;
    let mut i: usize = 0;
    proof {
        assert(idx@.take(0) =~= Seq::<(VocabularyCategory, String)>::empty());
    }
    while i < n
        invariant
            n == idx@.len(),
            i <= n,
            count == cpairs_with_key(idx@.take(i as int), key).len(),
            count <= i,
        decreases n - i,
    {
        proof {
            lemma_cpairs_with_key_step(idx@, key, i as int);
        }
        if idx[i].0 == key {
            count = count + 1;
        }
        i = i + 1;
    }
    proof {
        assert(idx@.take(n as int) =~= idx@);
    }
    count
}

/// The pairs of a string-keyed index carrying `key`, in index order.
pub open spec fn pairs_with_key(idx: Seq<(String, String)>, key: Seq<char>) -> Seq<
    (String, String),
>
    decreases idx.len(),
{
    if idx.len() == 0 {
        Seq::empty()
    } else if idx.last().0@ == key {
        pairs_with_key(idx.drop_last(), key).push(idx.last())
    } else {
        pairs_with_key(idx.drop_last(), key)
    }
}

/// The pairs of the category index carrying `key`, in index order.
pub open spec fn cpairs_with_key(
    idx: Seq<(VocabularyCategory, String)>,
    key: VocabularyCategory,
) -> Seq<(VocabularyCategory, String)>
    decreases idx.len(),
{
    if idx.len() == 0 {
        Seq::empty()
    } else if idx.last().0 == key {
        cpairs_with_key(idx.drop_last(), key).push(idx.last())
    } else {
        cpairs_with_key(idx.drop_last(), key)
    }
}

/// Selecting the pairs with one key, prefix by prefix.
proof fn lemma_pairs_with_key_step(idx: Seq<(String, String)>, key: Seq<char>, i: int)
    requires
        0 <= i < idx.len(),
    ensures
        pairs_with_key(idx.take(i + 1), key) == (if idx[i].0@ == key {
            pairs_with_key(idx.take(i), key).push(idx[i])
        } else {
            pairs_with_key(idx.take(i), key)
        }),
{
    assert(idx.take(i + 1).drop_last() =~= idx.take(i));
    assert(idx.take(i + 1).last() == idx[i]);
}

/// Selecting the category pairs with one key, prefix by prefix.
proof fn lemma_cpairs_with_key_step(
    idx: Seq<(VocabularyCategory, String)>,
    key: VocabularyCategory,
    i: int,
)
    requires
        0 <= i < idx.len(),
    ensures
        cpairs_with_key(idx.take(i + 1), key) == (if idx[i].0 == key {
            cpairs_with_key(idx.take(i), key).push(idx[i])
        } else {
            cpairs_with_key(idx.take(i), key)
        }),
{
    assert(idx.take(i + 1).drop_last() =~= idx.take(i));
    assert(idx.take(i + 1).last() == idx[i]);
}

/// Taking an element out and putting another back at the same position
/// is an update.
proof fn lemma_remove_insert_is_update<A>(s: Seq<A>, i: int, x: A)
    requires
        0 <= i < s.len(),
    ensures
        s.remove(i).insert(i, x) == s.update(i, x),
{
    assert(s.remove(i).insert(i, x) =~= s.update(i, x));
}

/// `item` with `in_srs` set, everything else unchanged./// `item` with `in_srs` set, everything else unchanged.
pub open spec fn set_in_srs(item: VocabularyItem) -> VocabularyItem {
    VocabularyItem { in_srs: true, ..item }
}

/// Appending an item and its index pair preserves soundness and
/// completeness of a string-keyed index.
proof fn lemma_add_preserves_index(
    new_idx: Seq<(String, String)>,
    old_idx: Seq<(String, String)>,
    old_items: Seq<VocabularyItem>,
    item: VocabularyItem,
    which: int,
    key: Seq<char>,
)
    requires
        idx_sound(old_idx, old_items, which),
        idx_complete(old_idx, old_items, which),
        new_idx.len() == old_idx.len() + 1,
        forall|i: int| 0 <= i < old_idx.len() ==> new_idx[i] == old_idx[i],
        new_idx.last().0@ == key,
        new_idx.last().1@ == item.id@,
        key_of(item, which) == key,
    ensures
        idx_sound(new_idx, old_items.push(item), which),
        idx_complete(new_idx, old_items.push(item), which),
{
    let items2 = old_items.push(item);
    assert forall|i: int| 0 <= i < new_idx.len() implies idx_pair_ok(
        #[trigger] new_idx[i],
        items2,
        which,
    ) by {
        if i < old_idx.len() {
            assert(idx_pair_ok(old_idx[i], old_items, which));
            let k = choose|k: int|
                0 <= k < old_items.len() && (#[trigger] old_items[k]).id@ == old_idx[i].1@
                    && key_of(old_items[k], which) == old_idx[i].0@;
            assert(items2[k] == old_items[k]);
            assert(items2[k].id@ == new_idx[i].1@ && key_of(items2[k], which) == new_idx[i].0@);
        } else {
            assert(items2[items2.len() - 1] == item);
            assert(items2[items2.len() - 1].id@ == new_idx[i].1@ && key_of(
                items2[items2.len() - 1],
                which,
            ) == new_idx[i].0@);
        }
    }
    assert forall|k: int| 0 <= k < items2.len() implies idx_has_pair(
        new_idx,
        key_of(#[trigger] items2[k], which),
        items2[k].id@,
    ) by {
        if k < old_items.len() {
            assert(items2[k] == old_items[k]);
            assert(idx_has_pair(old_idx, key_of(old_items[k], which), old_items[k].id@));
            let i = choose|i: int|
                0 <= i < old_idx.len() && (#[trigger] old_idx[i]).0@ == key_of(old_items[k], which)
                    && old_idx[i].1@ == old_items[k].id@;
            assert((new_idx[i]).0@ == key_of(items2[k], which) && new_idx[i].1@ == items2[k].id@);
        } else {
            assert(items2[k] == item);
            assert((new_idx[new_idx.len() - 1]).0@ == key_of(item, which) && new_idx[new_idx.len() - 1].1@
                == item.id@);
        }
    }
}

/// Appending an item and its category pair preserves the category index.
proof fn lemma_add_preserves_cindex(
    new_idx: Seq<(VocabularyCategory, String)>,
    old_idx: Seq<(VocabularyCategory, String)>,
    old_items: Seq<VocabularyItem>,
    item: VocabularyItem,
)
    requires
        cidx_sound(old_idx, old_items),
        cidx_complete(old_idx, old_items),
        new_idx.len() == old_idx.len() + 1,
        forall|i: int| 0 <= i < old_idx.len() ==> new_idx[i] == old_idx[i],
        new_idx.last().0 == item.category,
        new_idx.last().1@ == item.id@,
    ensures
        cidx_sound(new_idx, old_items.push(item)),
        cidx_complete(new_idx, old_items.push(item)),
{
    let items2 = old_items.push(item);
    assert forall|i: int| 0 <= i < new_idx.len() implies cidx_pair_ok(
        #[trigger] new_idx[i],
        items2,
    ) by {
        if i < old_idx.len() {
            assert(cidx_pair_ok(old_idx[i], old_items));
            let k = choose|k: int|
                0 <= k < old_items.len() && (#[trigger] old_items[k]).id@ == old_idx[i].1@
                    && old_items[k].category == old_idx[i].0;
            assert(items2[k] == old_items[k]);
            assert(items2[k].id@ == new_idx[i].1@ && items2[k].category == new_idx[i].0);
        } else {
            assert(items2[items2.len() - 1] == item);
            assert(items2[items2.len() - 1].id@ == new_idx[i].1@ && items2[items2.len()
                - 1].category == new_idx[i].0);
        }
    }
    assert forall|k: int| 0 <= k < items2.len() implies cidx_has_pair(
        new_idx,
        (#[trigger] items2[k]).category,
        items2[k].id@,
    ) by {
        if k < old_items.len() {
            assert(items2[k] == old_items[k]);
            assert(cidx_has_pair(old_idx, old_items[k].category, old_items[k].id@));
            let i = choose|i: int|
                0 <= i < old_idx.len() && (#[trigger] old_idx[i]).0 == old_items[k].category
                    && old_idx[i].1@ == old_items[k].id@;
            assert((new_idx[i]).0 == items2[k].category && new_idx[i].1@ == items2[k].id@);
        } else {
            assert(items2[k] == item);
            assert((new_idx[new_idx.len() - 1]).0 == item.category && new_idx[new_idx.len() - 1].1@
                == item.id@);
        }
    }
}

/// Drops every pair with the given id from a string-keyed index.
fn remove_id_pairs(idx: &mut Vec<(String, String)>, id: &str)
    ensures
        final (idx)@ == without_id(old(idx)@, id@),
{
    let ghost orig = idx@;
    let n = idx.len();
    let mut out: Vec<(String, String)> = Vec::new();
    let mut i: usize = 0;
    proof {
        assert(orig.take(0) =~= Seq::<(String, String)>::empty());
    }
    while i < n
        invariant
            orig == idx@,
            n == idx@.len(),
            i <= n,
            out@ =~= without_id(orig.take(i as int), id@),
        decreases n - i,
    {
        proof {
            lemma_without_id_take_step(orig, id@, i as int);
        }
        if !str_eq(idx[i].1.as_str(), id) {
            let key = idx[i].0.clone();
            let val = idx[i].1.clone();
            out.push((key, val));
            proof {
                assert((key, val) == orig[i as int]);
            }
        }
        i = i + 1;
    }
    proof {
        assert(orig.take(n as int) =~= orig);
    }
    *idx = out;
}

/// Drops every pair with the given id from the category index.
fn remove_id_cpairs(idx: &mut Vec<(VocabularyCategory, String)>, id: &str)
    ensures
        final (idx)@ == without_id(old(idx)@, id@),
{
    let ghost orig = idx@;
    let n = idx.len();
    let mut out: Vec<(VocabularyCategory, String)> = Vec::new();
    let mut i: usize = 0;
    proof {
        assert(orig.take(0) =~= Seq::<(VocabularyCategory, String)>::empty());
    }
    while i < n
        invariant
            orig == idx@,
            n == idx@.len(),
            i <= n,
            out@ =~= without_id(orig.take(i as int), id@),
        decreases n - i,
    {
        proof {
            lemma_without_id_take_step(orig, id@, i as int);
        }
        if !str_eq(idx[i].1.as_str(), id) {
            let key = idx[i].0;
            let val = idx[i].1.clone();
            out.push((key, val));
            proof {
                assert((key, val) == orig[i as int]);
            }
        }
        i = i + 1;
    }
    proof {
        assert(orig.take(n as int) =~= orig);
    }
    *idx = out;
}

/// Filtering the removed id out of a string-keyed index keeps the index
/// sound and complete for the items with the removed position taken out,
/// and leaves no pair with the removed id behind.
proof fn lemma_remove_preserves_index(
    new_idx: Seq<(String, String)>,
    old_idx: Seq<(String, String)>,
    old_items: Seq<VocabularyItem>,
    new_items: Seq<VocabularyItem>,
    at: int,
    id: Seq<char>,
    which: int,
)
    requires
        idx_sound(old_idx, old_items, which),
        idx_complete(old_idx, old_items, which),
        ids_unique(old_items),
        0 <= at < old_items.len(),
        old_items[at].id@ == id,
        new_items == old_items.remove(at),
        new_idx == without_id(old_idx, id),
    ensures
        idx_sound(new_idx, new_items, which),
        idx_complete(new_idx, new_items, which),
        !idx_has_id(new_idx, id),
{
    lemma_without_id_elems(old_idx, id);
    assert forall|i: int| 0 <= i < new_idx.len() implies idx_pair_ok(
        #[trigger] new_idx[i],
        new_items,
        which,
    ) by {
        assert(without_id(old_idx, id)[i] == new_idx[i]);
        let j = choose|j: int| 0 <= j < old_idx.len() && old_idx[j] == new_idx[i];
        assert(idx_pair_ok(old_idx[j], old_items, which));
        let k0 = choose|k0: int|
            0 <= k0 < old_items.len() && (#[trigger] old_items[k0]).id@ == old_idx[j].1@ && key_of(
                old_items[k0],
                which,
            ) == old_idx[j].0@;
        assert(old_items[k0].id@ != id);
        assert(k0 != at);
        let k = if k0 < at {
            k0
        } else {
            k0 - 1
        };
        assert(new_items[k] == old_items[k0]);
        assert(new_items[k].id@ == new_idx[i].1@ && key_of(new_items[k], which) == new_idx[i].0@);
    }
    assert forall|k: int| 0 <= k < new_items.len() implies idx_has_pair(
        new_idx,
        key_of(#[trigger] new_items[k], which),
        new_items[k].id@,
    ) by {
        let k0 = if k < at {
            k
        } else {
            k + 1
        };
        assert(new_items[k] == old_items[k0]);
        assert(idx_has_pair(old_idx, key_of(old_items[k0], which), old_items[k0].id@));
        let j = choose|j: int|
            0 <= j < old_idx.len() && (#[trigger] old_idx[j]).0@ == key_of(old_items[k0], which)
                && old_idx[j].1@ == old_items[k0].id@;
        assert(old_items[k0].id@ != id);
        lemma_without_id_keeps(old_idx, id, j);
        let i = choose|i: int| 0 <= i < new_idx.len() && #[trigger] new_idx[i] == old_idx[j];
        assert((new_idx[i]).0@ == key_of(new_items[k], which) && new_idx[i].1@
            == new_items[k].id@);
    }
}

/// The category-index version of the removal lemma.
proof fn lemma_remove_preserves_cindex(
    new_idx: Seq<(VocabularyCategory, String)>,
    old_idx: Seq<(VocabularyCategory, String)>,
    old_items: Seq<VocabularyItem>,
    new_items: Seq<VocabularyItem>,
    at: int,
    id: Seq<char>,
)
    requires
        cidx_sound(old_idx, old_items),
        cidx_complete(old_idx, old_items),
        ids_unique(old_items),
        0 <= at < old_items.len(),
        old_items[at].id@ == id,
        new_items == old_items.remove(at),
        new_idx == without_id(old_idx, id),
    ensures
        cidx_sound(new_idx, new_items),
        cidx_complete(new_idx, new_items),
        !cidx_has_id(new_idx, id),
{
    lemma_without_id_elems(old_idx, id);
    assert forall|i: int| 0 <= i < new_idx.len() implies cidx_pair_ok(
        #[trigger] new_idx[i],
        new_items,
    ) by {
        assert(without_id(old_idx, id)[i] == new_idx[i]);
        let j = choose|j: int| 0 <= j < old_idx.len() && old_idx[j] == new_idx[i];
        assert(cidx_pair_ok(old_idx[j], old_items));
        let k0 = choose|k0: int|
            0 <= k0 < old_items.len() && (#[trigger] old_items[k0]).id@ == old_idx[j].1@
                && old_items[k0].category == old_idx[j].0;
        assert(old_items[k0].id@ != id);
        assert(k0 != at);
        let k = if k0 < at {
            k0
        } else {
            k0 - 1
        };
        assert(new_items[k] == old_items[k0]);
        assert(new_items[k].id@ == new_idx[i].1@ && new_items[k].category == new_idx[i].0);
    }
    assert forall|k: int| 0 <= k < new_items.len() implies cidx_has_pair(
        new_idx,
        (#[trigger] new_items[k]).category,
        new_items[k].id@,
    ) by {
        let k0 = if k < at {
            k
        } else {
            k + 1
        };
        assert(new_items[k] == old_items[k0]);
        assert(cidx_has_pair(old_idx, old_items[k0].category, old_items[k0].id@));
        let j = choose|j: int|
            0 <= j < old_idx.len() && (#[trigger] old_idx[j]).0 == old_items[k0].category
                && old_idx[j].1@ == old_items[k0].id@;
        assert(old_items[k0].id@ != id);
        lemma_without_id_keeps(old_idx, id, j);
        let i = choose|i: int| 0 <= i < new_idx.len() && #[trigger] new_idx[i] == old_idx[j];
        assert((new_idx[i]).0 == new_items[k].category && new_idx[i].1@ == new_items[k].id@);
    }
}

/// Removing one item and filtering its id out of all four indices keeps
/// the bank invariant, and leaves the id in no index.
/// Appending a fresh item and its four index pairs keeps the bank
/// invariant.
#[verifier::rlimit(50)]
#[verifier::spinoff_prover]
proof fn lemma_bank_add(base: VocabularyBank, post: VocabularyBank, item: VocabularyItem)
    requires
        base.wf(),
        !base.spec_contains_id(item.id@),
        post.spec_items() == base.spec_items().push(item),
        post.spec_by_level().len() == base.spec_by_level().len() + 1,
        forall|i: int|
            0 <= i < base.spec_by_level().len() ==> post.spec_by_level()[i] == base.spec_by_level()[i],
        post.spec_by_level().last().0@ == item.level@,
        post.spec_by_level().last().1@ == item.id@,
        post.spec_by_lesson().len() == base.spec_by_lesson().len() + 1,
        forall|i: int|
            0 <= i < base.spec_by_lesson().len() ==> post.spec_by_lesson()[i]
                == base.spec_by_lesson()[i],
        post.spec_by_lesson().last().0@ == item.lesson_id@,
        post.spec_by_lesson().last().1@ == item.id@,
        post.spec_by_language_pair().len() == base.spec_by_language_pair().len() + 1,
        forall|i: int|
            0 <= i < base.spec_by_language_pair().len() ==> post.spec_by_language_pair()[i]
                == base.spec_by_language_pair()[i],
        post.spec_by_language_pair().last().0@ == item.language_pair@,
        post.spec_by_language_pair().last().1@ == item.id@,
        post.spec_by_category().len() == base.spec_by_category().len() + 1,
        forall|i: int|
            0 <= i < base.spec_by_category().len() ==> post.spec_by_category()[i]
                == base.spec_by_category()[i],
        post.spec_by_category().last().0 == item.category,
        post.spec_by_category().last().1@ == item.id@,
    ensures
        post.wf(),
        post.spec_contains_id(item.id@),
        forall|x: Seq<char>|
            x != item.id@ ==> (post.spec_contains_id(x) == base.spec_contains_id(x)),
{
    let items2 = post.spec_items();
    let n = items2.len() as int - 1;
    assert(items2[n] == item);
    assert forall|i: int, j: int| 0 <= i < j < items2.len() implies (#[trigger] items2[i]).id@
        != (#[trigger] items2[j]).id@ by {
        if j < n {
            assert(items2[i] == base.spec_items()[i]);
            assert(items2[j] == base.spec_items()[j]);
        } else {
            assert(items2[i] == base.spec_items()[i]);
        }
    }
    lemma_add_preserves_index(
        post.spec_by_level(),
        base.spec_by_level(),
        base.spec_items(),
        item,
        0,
        item.level@,
    );
    lemma_add_preserves_index(
        post.spec_by_lesson(),
        base.spec_by_lesson(),
        base.spec_items(),
        item,
        1,
        item.lesson_id@,
    );
    lemma_add_preserves_index(
        post.spec_by_language_pair(),
        base.spec_by_language_pair(),
        base.spec_items(),
        item,
        2,
        item.language_pair@,
    );
    lemma_add_preserves_cindex(
        post.spec_by_category(),
        base.spec_by_category(),
        base.spec_items(),
        item,
    );
    assert forall|x: Seq<char>| x != item.id@ implies (post.spec_contains_id(x)
        == base.spec_contains_id(x)) by {
        if base.spec_contains_id(x) {
            let k = choose|k: int|
                0 <= k < base.spec_items().len() && (#[trigger] base.spec_items()[k]).id@ == x;
            assert(items2[k].id@ == x);
        }
        if post.spec_contains_id(x) {
            let k = choose|k: int| 0 <= k < items2.len() && (#[trigger] items2[k]).id@ == x;
            assert(k < n + 1);
            assert(items2[n].id@ == item.id@);
            assert(k != n);
            assert(base.spec_items()[k].id@ == x);
        }
    }
}

/// Removing one item and filtering its id out of all four indices keeps
/// the bank invariant, and leaves the id in no index.
#[verifier::rlimit(50)]
#[verifier::spinoff_prover]
proof fn lemma_bank_remove(pre: VocabularyBank, post: VocabularyBank, at: int, id: Seq<char>)
    requires
        pre.wf(),
        0 <= at < pre.spec_items().len(),
        pre.spec_items()[at].id@ == id,
        post.spec_items() == pre.spec_items().remove(at),
        post.spec_by_level() == without_id(pre.spec_by_level(), id),
        post.spec_by_lesson() == without_id(pre.spec_by_lesson(), id),
        post.spec_by_language_pair() == without_id(pre.spec_by_language_pair(), id),
        post.spec_by_category() == without_id(pre.spec_by_category(), id),
    ensures
        post.wf(),
        !idx_has_id(post.spec_by_level(), id),
        !idx_has_id(post.spec_by_lesson(), id),
        !idx_has_id(post.spec_by_language_pair(), id),
        !cidx_has_id(post.spec_by_category(), id),
        !post.spec_contains_id(id),
        forall|x: Seq<char>| x != id ==> (post.spec_contains_id(x) == pre.spec_contains_id(x)),
{
    let old_items = pre.spec_items();
    let new_items = post.spec_items();
    lemma_ids_unique_after_remove(old_items, new_items, at);
    lemma_contains_after_remove(old_items, new_items, at, id);
    lemma_remove_preserves_index(
        post.spec_by_level(),
        pre.spec_by_level(),
        old_items,
        new_items,
        at,
        id,
        0,
    );
    lemma_remove_preserves_index(
        post.spec_by_lesson(),
        pre.spec_by_lesson(),
        old_items,
        new_items,
        at,
        id,
        1,
    );
    lemma_remove_preserves_index(
        post.spec_by_language_pair(),
        pre.spec_by_language_pair(),
        old_items,
        new_items,
        at,
        id,
        2,
    );
    lemma_remove_preserves_cindex(
        post.spec_by_category(),
        pre.spec_by_category(),
        old_items,
        new_items,
        at,
        id,
    );
}

/// Updating one item in place, without touching its id or key fields,
/// Updating one item in place, without touching its id or key fields,
/// preserves the bank invariant.
#[verifier::rlimit(30)]
#[verifier::spinoff_prover]
proof fn lemma_update_field_preserves_wf(pre: VocabularyBank, post: VocabularyBank, k: int)
    requires
        pre.wf(),
        0 <= k < pre.spec_items().len(),
        post.spec_items() == pre.spec_items().update(k, set_in_srs(pre.spec_items()[k])),
        post.spec_by_level() == pre.spec_by_level(),
        post.spec_by_lesson() == pre.spec_by_lesson(),
        post.spec_by_language_pair() == pre.spec_by_language_pair(),
        post.spec_by_category() == pre.spec_by_category(),
    ensures
        post.wf(),
{
    let old_items = pre.spec_items();
    let new_items = post.spec_items();
    assert(new_items.len() == old_items.len());
    assert(forall|i: int|
        0 <= i < new_items.len() ==> (#[trigger] new_items[i]).id@ == old_items[i].id@
            && new_items[i].level@ == old_items[i].level@ && new_items[i].lesson_id@
            == old_items[i].lesson_id@ && new_items[i].language_pair@
            == old_items[i].language_pair@ && new_items[i].category == old_items[i].category);
    lemma_same_keys_index(pre.spec_by_level(), old_items, new_items, 0);
    lemma_same_keys_index(pre.spec_by_lesson(), old_items, new_items, 1);
    lemma_same_keys_index(pre.spec_by_language_pair(), old_items, new_items, 2);
    lemma_same_keys_cindex(pre.spec_by_category(), old_items, new_items);
}

/// An index stays sound and complete when the items keep their ids and
/// keys position for position.
proof fn lemma_same_keys_index(
    idx: Seq<(String, String)>,
    old_items: Seq<VocabularyItem>,
    new_items: Seq<VocabularyItem>,
    which: int,
)
    requires
        idx_sound(idx, old_items, which),
        idx_complete(idx, old_items, which),
        new_items.len() == old_items.len(),
        forall|i: int|
            0 <= i < new_items.len() ==> (#[trigger] new_items[i]).id@ == old_items[i].id@ && key_of(new_items[i], which) == key_of(old_items[i], which),
    ensures
        idx_sound(idx, new_items, which),
        idx_complete(idx, new_items, which),
{
    assert forall|i: int| 0 <= i < idx.len() implies idx_pair_ok(
        #[trigger] idx[i],
        new_items,
        which,
    ) by {
        assert(idx_pair_ok(idx[i], old_items, which));
        let k = choose|k: int|
            0 <= k < old_items.len() && (#[trigger] old_items[k]).id@ == idx[i].1@ && key_of(
                old_items[k],
                which,
            ) == idx[i].0@;
        assert(new_items[k].id@ == idx[i].1@ && key_of(new_items[k], which) == idx[i].0@);
    }
    assert forall|k: int| 0 <= k < new_items.len() implies idx_has_pair(
        idx,
        key_of(#[trigger] new_items[k], which),
        new_items[k].id@,
    ) by {
        assert(new_items[k].id@ == old_items[k].id@);
        assert(key_of(new_items[k], which) == key_of(old_items[k], which));
        assert(idx_has_pair(idx, key_of(old_items[k], which), old_items[k].id@));
    }
}

/// The category index stays sound and complete when the items keep their
/// ids and categories position for position.
proof fn lemma_same_keys_cindex(
    idx: Seq<(VocabularyCategory, String)>,
    old_items: Seq<VocabularyItem>,
    new_items: Seq<VocabularyItem>,
)
    requires
        cidx_sound(idx, old_items),
        cidx_complete(idx, old_items),
        new_items.len() == old_items.len(),
        forall|i: int|
            0 <= i < new_items.len() ==> (#[trigger] new_items[i]).id@ == old_items[i].id@
                && new_items[i].category == old_items[i].category,
    ensures
        cidx_sound(idx, new_items),
        cidx_complete(idx, new_items),
{
    assert forall|i: int| 0 <= i < idx.len() implies cidx_pair_ok(#[trigger] idx[i], new_items) by {
        assert(cidx_pair_ok(idx[i], old_items));
        let k = choose|k: int|
            0 <= k < old_items.len() && (#[trigger] old_items[k]).id@ == idx[i].1@
                && old_items[k].category == idx[i].0;
        assert(new_items[k].id@ == idx[i].1@ && new_items[k].category == idx[i].0);
    }
    assert forall|k: int| 0 <= k < new_items.len() implies cidx_has_pair(
        idx,
        (#[trigger] new_items[k]).category,
        new_items[k].id@,
    ) by {
        assert(new_items[k].id@ == old_items[k].id@);
        assert(new_items[k].category == old_items[k].category);
        assert(cidx_has_pair(idx, old_items[k].category, old_items[k].id@));
    }
}

} // verus!
