//! The category cache: maps content-category identifiers to their display
//! titles, and pairs the well-known categories with a small emoji.
//!
//! Lookup and insertion are the library's; fetching unknown categories
//! from the content API is the surrounding application's, which inserts
//! what it fetched and looks up again.

use crate::youtube::MissingContent;
use vstd::prelude::*;
use vstd::string::StrSliceExecFns;

verus! {

/// Looking a category's title up failed.
#[derive(Debug)]
pub enum CategoryTitleError {
    MissingContent(MissingContent),
    YouTube3(String),
}

/// Building the initial category table failed: the content API call
/// itself, or a response without a category list.
#[derive(Debug)]
pub enum InitializeCategoriesError {
    MissingContent(MissingContent),
    YouTube3(String),
}

/// The map a sequence of (id, title) pairs builds up; a later pair for the
/// same id wins.
pub open spec fn pairs_to_map(entries: Seq<(String, String)>) -> Map<Seq<char>, Seq<char>>
    decreases entries.len(),
{
    if entries.len() == 0 {
        Map::empty()
    } else {
        pairs_to_map(entries.drop_last()).insert(entries.last().0@, entries.last().1@)
    }
}

/// Entries at or after position `i` say nothing about a key none of them
/// carries.
proof fn lemma_pairs_map_suffix(entries: Seq<(String, String)>, i: int, k: Seq<char>)
    requires
        0 <= i <= entries.len(),
        forall|j: int| i <= j < entries.len() ==> (#[trigger] entries[j]).0@ != k,
    ensures
        pairs_to_map(entries).dom().contains(k) == pairs_to_map(entries.take(i)).dom().contains(k),
        pairs_to_map(entries).dom().contains(k) ==> pairs_to_map(entries)[k] == pairs_to_map(
            entries.take(i),
        )[k],
    decreases entries.len() - i,
{
    if i < entries.len() {
        lemma_pairs_map_suffix(entries, i + 1, k);
        assert(entries.take(i + 1).drop_last() =~= entries.take(i));
        assert(entries.take(i + 1).last() == entries[i]);
    } else {
        assert(entries.take(i) =~= entries);
    }
}

/// The category cache. Its value is the map from category id to display
/// title.
#[derive(Debug)]
pub struct CategoryCache {
    dict: Vec<(String, String)>,
}

impl View for CategoryCache {
    type V = Map<Seq<char>, Seq<char>>;

    closed spec fn view(&self) -> Map<Seq<char>, Seq<char>> {
        pairs_to_map(self.dict@)
    }
}

/// What collecting raw category records builds: records with both an id
/// and a title enter the map, incomplete ones are passed over.
pub open spec fn spec_collect_categories(pairs: Seq<(Option<String>, Option<String>)>) -> Map<
    Seq<char>,
    Seq<char>,
>
    decreases pairs.len(),
{
    if pairs.len() == 0 {
        Map::empty()
    } else {
        let m = spec_collect_categories(pairs.drop_last());
        if pairs.last().0 is Some && pairs.last().1 is Some {
            m.insert(pairs.last().0->Some_0@, pairs.last().1->Some_0@)
        } else {
            m
        }
    }
}

impl CategoryCache {
    /// An empty cache.
    pub fn new() -> (r: CategoryCache)
        ensures
            r@ == Map::<Seq<char>, Seq<char>>::empty(),
    {
        CategoryCache { dict: Vec::new() }
    }

    /// Builds a cache from raw category records, keeping the records that
    /// carry both an id and a title.
    pub fn from_pairs(pairs: Vec<(Option<String>, Option<String>)>) -> (r: CategoryCache)
        ensures
            r@ == spec_collect_categories(pairs@),
    {
        let mut cache = CategoryCache::new();
        let n = pairs.len();
        let mut i: usize = 0;
        while i < n
            invariant
                i <= n,
                n == pairs@.len(),
                cache@ == spec_collect_categories(pairs@.take(i as int)),
            decreases n - i,
        {
            proof {
                assert(pairs@.take(i + 1).drop_last() =~= pairs@.take(i as int));
                assert(pairs@.take(i + 1).last() == pairs@[i as int]);
            }
            let (id, title) = &pairs[i];
            match (id, title) {
                (Some(id), Some(title)) => {
                    cache.insert(id.clone(), title.clone());
                },
                _ => {},
            }
            i = i + 1;
        }
        proof {
            assert(pairs@.take(n as int) =~= pairs@);
        }
        cache
    }

    /// Records a category's title; a later insertion for the same id
    /// replaces the earlier title.
    pub fn insert(&mut self, id: String, title: String)
        ensures
            final(self)@ == old(self)@.insert(id@, title@),
    {
        self.dict.push((id, title));
        proof {
            assert(self.dict@.drop_last() =~= old(self).dict@);
        }
    }

    /// The title recorded for a category, if any.
    pub fn lookup(&self, id: &String) -> (r: Option<&String>)
        ensures
            (r is Some) == self@.dom().contains(id@),
            r is Some ==> r->Some_0@ == self@[id@],
    {
        let n = self.dict.len();
        let mut i: usize = n;
        while i > 0
            invariant
                i <= n,
                n == self.dict@.len(),
                forall|j: int| i <= j < n ==> (#[trigger] self.dict@[j]).0@ != id@,
            decreases i,
        {
            if self.dict[i - 1].0 == *id {
                proof {
                    lemma_pairs_map_suffix(self.dict@, i as int, id@);
                    assert(self.dict@.take(i as int).drop_last() =~= self.dict@.take(i - 1));
                    assert(self.dict@.take(i as int).last() == self.dict@[i - 1]);
                }
                return Some(&self.dict[i - 1].1);
            }
            i = i - 1;
        }
        proof {
            lemma_pairs_map_suffix(self.dict@, 0, id@);
            assert(self.dict@.take(0) =~= Seq::<(String, String)>::empty());
        }
        None
    }

    /// The display pair for a category: its recorded title and, for the
    /// well-known categories, an emoji. A category the cache does not hold
    /// reads as a missing title; the application fetches and inserts it,
    /// then asks again.
    pub fn get(&self, id: &String) -> (r: Result<(&String, Option<&'static str>), CategoryTitleError>)
        ensures
            self@.dom().contains(id@) ==> r is Ok && r->Ok_0.0@ == self@[id@] && ((
            r->Ok_0.1 is Some) == (spec_category_emoji(id@) is Some)) && (r->Ok_0.1 is Some
                ==> r->Ok_0.1->Some_0@ == spec_category_emoji(id@)->Some_0),
            !self@.dom().contains(id@) ==> r is Err && r->Err_0 == CategoryTitleError::MissingContent(
                MissingContent::VideoCategoryTitle,
            ),
    {
        match self.lookup(id) {
            Some(title) => Ok((title, category_emoji(id))),
            None => Err(CategoryTitleError::MissingContent(MissingContent::VideoCategoryTitle)),
        }
    }
}

/// The canonical number a category id spells, if it spells one: one digit,
/// or two digits not starting with zero.
pub open spec fn spec_category_code(id: Seq<char>) -> Option<nat> {
    if id.len() == 1 && 48 <= id[0] as u32 <= 57 {
        Some((id[0] as u32 - 48) as nat)
    } else if id.len() == 2 && 49 <= id[0] as u32 <= 57 && 48 <= id[1] as u32 <= 57 {
        Some((10 * (id[0] as u32 - 48) + (id[1] as u32 - 48)) as nat)
    } else {
        None
    }
}

/// The emoji shown beside a well-known category's title.
pub open spec fn spec_emoji_of_code(n: nat) -> Option<Seq<char>> {
    if n == 1 {
        Some("🎞️"@)
    } else if n == 2 {
        Some("🚗"@)
    } else if n == 10 {
        Some("🎶"@)
    } else if n == 15 {
        Some("🐈"@)
    } else if n == 17 {
        Some("⚽"@)
    } else if n == 18 {
        Some("📹"@)
    } else if n == 19 {
        Some("🗺️"@)
    } else if n == 20 {
        Some("🎮"@)
    } else if n == 21 {
        Some("🤳"@)
    } else if n == 22 {
        Some("📓"@)
    } else if n == 23 {
        Some("😂"@)
    } else if n == 24 {
        Some("🎭"@)
    } else if n == 25 {
        Some("🗞️"@)
    } else if n == 26 {
        Some("🧤"@)
    } else if n == 27 {
        Some("📝"@)
    } else if n == 28 {
        Some("📡"@)
    } else if n == 29 {
        Some("📢"@)
    } else if n == 30 {
        Some("📼"@)
    } else if n == 31 {
        Some("✨"@)
    } else if n == 32 {
        Some("🚵"@)
    } else if n == 33 {
        Some("🎼"@)
    } else if n == 34 {
        Some("😂"@)
    } else if n == 35 {
        Some("🔍"@)
    } else if n == 36 {
        Some("🤬"@)
    } else if n == 37 {
        Some("👪"@)
    } else if n == 38 {
        Some("🏝️"@)
    } else if n == 39 {
        Some("👻"@)
    } else if n == 40 {
        Some("🔮"@)
    } else if n == 41 {
        Some("😰"@)
    } else if n == 42 {
        Some("📱"@)
    } else if n == 43 {
        Some("📺"@)
    } else if n == 44 {
        Some("🎬"@)
    } else {
        None
    }
}

pub open spec fn spec_category_emoji(id: Seq<char>) -> Option<Seq<char>> {
    match spec_category_code(id) {
        Option::Some(n) => spec_emoji_of_code(n),
        Option::None => None,
    }
}

/// The number a category id spells, if it spells one canonically.
fn category_code(id: &String) -> (r: Option<u64>)
    ensures
        (r is Some) == (spec_category_code(id@) is Some),
        r is Some ==> r->Some_0 == spec_category_code(id@)->Some_0,
{
    let s = id.as_str();
    let n = s.unicode_len();
    if n == 1 {
        let c = s.get_char(0) as u32;
        if 48 <= c && c <= 57 {
            Some((c - 48) as u64)
        } else {
            None
        }
    } else if n == 2 {
        let c0 = s.get_char(0) as u32;
        let c1 = s.get_char(1) as u32;
        if 49 <= c0 && c0 <= 57 && 48 <= c1 && c1 <= 57 {
            Some((10 * (c0 - 48) + (c1 - 48)) as u64)
        } else {
            None
        }
    } else {
        None
    }
}

/// The emoji shown beside a category's title, for the well-known
/// categories.
pub fn category_emoji(id: &String) -> (r: Option<&'static str>)
    ensures
        (r is Some) == (spec_category_emoji(id@) is Some),
        r is Some ==> r->Some_0@ == spec_category_emoji(id@)->Some_0,
{
    let code = match category_code(id) {
        Some(c) => c,
        None => {
            return None;
        },
    };
    match code {
        1 => Some("🎞️"),
        2 => Some("🚗"),
        10 => Some("🎶"),
        15 => Some("🐈"),
        17 => Some("⚽"),
        18 => Some("📹"),
        19 => Some("🗺️"),
        20 => Some("🎮"),
        21 => Some("🤳"),
        22 => Some("📓"),
        23 => Some("😂"),
        24 => Some("🎭"),
        25 => Some("🗞️"),
        26 => Some("🧤"),
        27 => Some("📝"),
        28 => Some("📡"),
        29 => Some("📢"),
        30 => Some("📼"),
        31 => Some("✨"),
        32 => Some("🚵"),
        33 => Some("🎼"),
        34 => Some("😂"),
        35 => Some("🔍"),
        36 => Some("🤬"),
        37 => Some("👪"),
        38 => Some("🏝️"),
        39 => Some("👻"),
        40 => Some("🔮"),
        41 => Some("😰"),
        42 => Some("📱"),
        43 => Some("📺"),
        44 => Some("🎬"),
        _ => None,
    }
}

} // verus!
