//! Data model: the records kept in the database, and the tables of
//! ranking and page types.

use vstd::prelude::*;
use crate::text::str_eq;

verus! {

/// A singer.
pub struct Singer {
    pub name: String,
    pub avatar_url: Option<String>,
    pub songs_url: Option<String>,
}

/// A song.
pub struct Song {
    pub song_id: i64,
    pub title: String,
    pub artist: String,
    pub cover_url: Option<String>,
    pub mp3_url: Option<String>,
    pub play_id: Option<String>,
    pub lrc: Option<String>,
    pub extra_url: Option<String>,
}

/// An entry of a ranking list.
pub struct RankingItem {
    pub ranking_type: String,
    pub rank: i32,
    pub item_id: Option<i64>,
    pub item_name: Option<String>,
    pub item_type: String,
}

/// A search keyword.
pub struct SearchKeyword {
    pub keyword: String,
    pub source: String,
    pub rank: Option<i32>,
}

/// A download record.
pub struct DownloadRecord {
    pub song_id: i64,
    pub file_path: String,
    pub file_size: Option<i64>,
    pub downloaded_at: Option<String>,
}

/// A snapshot of a crawled page.
pub struct PageSnapshot {
    pub page_type: String,
    pub ranking_type: Option<String>,
    pub search_keyword: Option<String>,
    pub page_number: i32,
    pub url: Option<String>,
    pub title: Option<String>,
}

/// An item seen on a crawled page.
pub struct PageItem {
    pub page_snapshot_id: i64,
    pub item_type: String,
    pub item_id: Option<i64>,
    pub position: i32,
    pub extra_data: Option<String>,
}

/// The map built by inserting the pairs of `entries` in order, a later
/// pair replacing an earlier one with the same key.
pub open spec fn pairs_to_map(entries: Seq<(Seq<char>, Seq<char>)>) -> Map<Seq<char>, Seq<char>>
    decreases entries.len(),
{
    if entries.len() == 0 {
        Map::empty()
    } else {
        pairs_to_map(entries.drop_last()).insert(entries.last().0, entries.last().1)
    }
}

/// A table from names to display names (a map from keys to values).
pub struct NameTable {
    entries: Vec<(&'static str, &'static str)>,
}

impl View for NameTable {
    type V = Map<Seq<char>, Seq<char>>;

    closed spec fn view(&self) -> Map<Seq<char>, Seq<char>> {
        pairs_to_map(self.entries@.map_values(|p: (&'static str, &'static str)| (p.0@, p.1@)))
    }
}

proof fn lemma_pairs_to_map_absent(entries: Seq<(Seq<char>, Seq<char>)>, key: Seq<char>)
    requires
        forall|j: int| 0 <= j < entries.len() ==> (#[trigger] entries[j]).0 != key,
    ensures
        !pairs_to_map(entries).contains_key(key),
    decreases entries.len(),
{
    if entries.len() > 0 {
        let d = entries.drop_last();
        assert forall|j: int| 0 <= j < d.len() implies (#[trigger] d[j]).0 != key by {
            assert(d[j] == entries[j]);
        }
        lemma_pairs_to_map_absent(d, key);
    }
}

proof fn lemma_pairs_to_map_last(entries: Seq<(Seq<char>, Seq<char>)>, key: Seq<char>, i: int)
    requires
        0 <= i < entries.len(),
        entries[i].0 == key,
        forall|j: int| i < j < entries.len() ==> (#[trigger] entries[j]).0 != key,
    ensures
        pairs_to_map(entries).contains_key(key),
        pairs_to_map(entries)[key] == entries[i].1,
    decreases entries.len(),
{
    if i < entries.len() - 1 {
        let d = entries.drop_last();
        assert forall|j: int| i < j < d.len() implies (#[trigger] d[j]).0 != key by {
            assert(d[j] == entries[j]);
        }
        assert(d[i] == entries[i]);
        lemma_pairs_to_map_last(d, key, i);
    }
}

impl NameTable {
    /// The display name of `key`, as `HashMap::get` gives it.
    pub fn get(&self, key: &str) -> (r: Option<&'static str>)
        ensures
            match r {
                Some(v) => self@.contains_key(key@) && self@[key@] == v@,
                None => !self@.contains_key(key@),
            },
    {
        let ghost pairs = self.entries@.map_values(|p: (&'static str, &'static str)| (p.0@, p.1@));
        let mut i: usize = self.entries.len();
        while i > 0
            invariant
                i <= self.entries@.len(),
                pairs == self.entries@.map_values(|p: (&'static str, &'static str)| (p.0@, p.1@)),
                forall|j: int| i <= j < pairs.len() ==> (#[trigger] pairs[j]).0 != key@,
            decreases i,
        {
            let (k, v) = self.entries[i - 1];
            if str_eq(k, key) {
                proof {
                    assert(pairs[i - 1] == (k@, v@));
                    lemma_pairs_to_map_last(pairs, key@, i - 1);
                }
                return Some(v);
            }
            assert(pairs[i - 1] == (k@, v@));
            i = i - 1;
        }
        proof {
            lemma_pairs_to_map_absent(pairs, key@);
        }
        None
    }

    /// Whether `key` is in the table, as `HashMap::contains_key` tells.
    pub fn contains_key(&self, key: &str) -> (r: bool)
        ensures
            r == self@.contains_key(key@),
    {
        self.get(key).is_some()
    }
}

/// The ranking types and their names (`get_ranking_types`).
pub open spec fn ranking_types_map() -> Map<Seq<char>, Seq<char>> {
    map![
        "singer"@ => "歌手榜"@,
        "surge"@ => "飙升榜"@,
        "new"@ => "新歌榜"@,
        "douyin"@ => "抖音榜"@,
        "jingdian"@ => "怀旧榜"@,
        "dianyin"@ => "电音榜"@,
        "wwdj"@ => "DJ榜"@,
    ]
}

/// The page types and their names (`get_page_types`).
pub open spec fn page_types_map() -> Map<Seq<char>, Seq<char>> {
    map!["homepage"@ => "主页"@, "ranking"@ => "排行榜"@, "search"@ => "搜索结果"@]
}

/// There are seven ranking types.
pub proof fn lemma_seven_ranking_types()
    ensures
        ranking_types_map().dom().len() == 7,
        ranking_types_map().dom().finite(),
{
    reveal_strlit("singer");
    reveal_strlit("surge");
    reveal_strlit("new");
    reveal_strlit("douyin");
    reveal_strlit("jingdian");
    reveal_strlit("dianyin");
    reveal_strlit("wwdj");
    assert("singer"@.len() == 6 && "surge"@.len() == 5 && "new"@.len() == 3 && "douyin"@.len() == 6);
    assert("jingdian"@.len() == 8 && "dianyin"@.len() == 7 && "wwdj"@.len() == 4);
    assert("singer"@[0] != "douyin"@[0]);
    let d0 = Set::<Seq<char>>::empty();
    let d1 = d0.insert("singer"@);
    let d2 = d1.insert("surge"@);
    let d3 = d2.insert("new"@);
    let d4 = d3.insert("douyin"@);
    let d5 = d4.insert("jingdian"@);
    let d6 = d5.insert("dianyin"@);
    let d7 = d6.insert("wwdj"@);
    assert(ranking_types_map().dom() =~= d7);
    assert(d1.len() == 1);
    assert(!d1.contains("surge"@));
    assert(d2.len() == 2);
    assert(!d2.contains("new"@));
    assert(d3.len() == 3);
    assert(!d3.contains("douyin"@));
    assert(d4.len() == 4);
    assert(!d4.contains("jingdian"@));
    assert(d5.len() == 5);
    assert(!d5.contains("dianyin"@));
    assert(d6.len() == 6);
    assert(!d6.contains("wwdj"@));
    assert(d7.len() == 7);
}

/// There are three page types: home page, ranking and search.
pub proof fn lemma_three_page_types()
    ensures
        page_types_map().dom().len() == 3,
        page_types_map().dom().finite(),
{
    reveal_strlit("homepage");
    reveal_strlit("ranking");
    reveal_strlit("search");
    assert("homepage"@.len() == 8 && "ranking"@.len() == 7 && "search"@.len() == 6);
    let d1 = Set::<Seq<char>>::empty().insert("homepage"@);
    let d2 = d1.insert("ranking"@);
    let d3 = d2.insert("search"@);
    assert(page_types_map().dom() =~= d3);
    assert(d1.len() == 1);
    assert(!d1.contains("ranking"@));
    assert(d2.len() == 2);
    assert(!d2.contains("search"@));
    assert(d3.len() == 3);
}

/// The supported ranking types: key to display name.
pub fn get_ranking_types() -> (m: NameTable)
    ensures
        m@ == ranking_types_map(),
{
    let mut entries: Vec<(&'static str, &'static str)> = Vec::new();
    entries.push(("singer", "歌手榜"));
    entries.push(("surge", "飙升榜"));
    entries.push(("new", "新歌榜"));
    entries.push(("douyin", "抖音榜"));
    entries.push(("jingdian", "怀旧榜"));
    entries.push(("dianyin", "电音榜"));
    entries.push(("wwdj", "DJ榜"));
    let m = NameTable { entries };
    proof {
        reveal_with_fuel(pairs_to_map, 8);
        let pairs = m.entries@.map_values(|p: (&'static str, &'static str)| (p.0@, p.1@));
        assert(pairs.drop_last().drop_last().drop_last().drop_last().drop_last().drop_last().drop_last() =~= Seq::empty());
        assert(pairs_to_map(pairs) =~= ranking_types_map());
    }
    m
}

/// The page types and their names.
pub fn get_page_types() -> (m: NameTable)
    ensures
        m@ == page_types_map(),
{
    let mut entries: Vec<(&'static str, &'static str)> = Vec::new();
    entries.push(("homepage", "主页"));
    entries.push(("ranking", "排行榜"));
    entries.push(("search", "搜索结果"));
    let m = NameTable { entries };
    proof {
        reveal_with_fuel(pairs_to_map, 4);
        let pairs = m.entries@.map_values(|p: (&'static str, &'static str)| (p.0@, p.1@));
        assert(pairs.drop_last().drop_last().drop_last() =~= Seq::empty());
        assert(pairs_to_map(pairs) =~= page_types_map());
    }
    m
}

} // verus!
