//! Cloned fighters and weapons: the bookkeeping types for agents created at
//! runtime from existing ones, and the static per-fighter article tables.

use vstd::prelude::*;

verus! {

/// A weapon agent cloned from an existing one.
pub struct NewAgent {
    pub old_owner_id: i32,
    pub owner_id: i32,
    pub owner_name_ffi: String,
    pub new_name_ffi: String,
    pub owner_name: String,
    pub new_name: String,
    pub old_name: String,
    pub use_original_code: bool,
}

/// An article cloned for a fighter.
#[derive(Copy, Clone, Debug, PartialEq, Eq, Structural)]
pub struct NewArticle {
    pub original_owner: i32,
    pub weapon_id: i32,
}

/// A node of the game's fighter selection list; the pointers are carried as
/// plain addresses.
#[derive(Copy, Clone, Debug)]
pub struct FighterLinkedListNode {
    pub next: u64,
    pub prev: u64,
    pub info: FighterSelectionInfo,
    pub fighter_data_ptr: u64,
    pub bigger_fighter_data_ptr: u64,
}

/// The selection a fighter slot carries.
#[derive(Copy, Clone, Debug)]
pub struct FighterSelectionInfo {
    pub fighter_kind: i32,
    pub costume_slot: i32,
    pub css_entry: i32,
    pub mii_related: [i32; 4],
    pub flags: [u8; 4],
}

/// The per-player selection record; its layout is opaque to this library.
pub struct SelectedFighterInfo {

}

/// A fighter cloned from an existing one.
pub struct NewFighter {
    pub base_id: i32,
    pub fighter_kind_hash: u64,
    pub name: String,
    pub name_ffi: String,
    pub hash: u64,
}

/// Index of the first cloned agent in `s` owned by `owner`.
pub open spec fn spec_find_agent(s: Seq<NewAgent>, owner: i32) -> Option<int>
    decreases s.len(),
{
    if s.len() == 0 {
        Option::None
    } else if s[0].owner_id == owner {
        Option::Some(0)
    } else {
        match spec_find_agent(s.skip(1), owner) {
            Option::Some(i) => Option::Some(i + 1),
            Option::None => Option::None,
        }
    }
}

/// The cloned agents registered for `weapon`.
pub open spec fn agents_of(m: Map<i32, Vec<NewAgent>>, weapon: i32) -> Seq<NewAgent> {
    if m.contains_key(weapon) {
        m[weapon]@
    } else {
        Seq::empty()
    }
}

/// With no matching owner at all, nothing is found.
proof fn lemma_find_agent_none(s: Seq<NewAgent>, owner: i32)
    requires
        forall|j: int| 0 <= j < s.len() ==> (#[trigger] s[j]).owner_id != owner,
    ensures
        spec_find_agent(s, owner) is None,
    decreases s.len(),
{
    if s.len() > 0 {
        assert forall|j: int| 0 <= j < s.skip(1).len() implies (#[trigger] s.skip(1)[j]).owner_id
            != owner by {
            assert(s.skip(1)[j] == s[j + 1]);
        }
        lemma_find_agent_none(s.skip(1), owner);
    }
}

/// The first cloned agent registered for `weapon` that is owned by `owner`.
pub fn try_get_new_agent<'a>(
    map: &'a std::collections::BTreeMap<i32, Vec<NewAgent>>,
    weapon: i32,
    owner: i32,
) -> (r: Option<&'a NewAgent>)
    ensures
        ({
            let list = agents_of(map@, weapon);
            match spec_find_agent(list, owner) {
                Option::Some(i) => r matches Option::Some(a) && *a == list[i],
                Option::None => r is None,
            }
        }),
{
    let list = match map.get(&weapon) {
        Option::Some(l) => l,
        Option::None => {
            return Option::None;
        },
    };
    let n = list.len();
    let mut i: usize = 0;
    while i < n
        invariant
            list@ == agents_of(map@, weapon),
            n == list.len(),
            0 <= i <= n,
            forall|j: int| 0 <= j < i ==> (#[trigger] list@[j]).owner_id != owner,
        decreases n - i,
    {
        if list[i].owner_id == owner {
            proof {
                lemma_find_agent_found(list@, owner, i as int);
            }
            return Option::Some(&list[i]);
        }
        i += 1;
    }
    proof {
        lemma_find_agent_none(list@, owner);
    }
    Option::None
}

/// A found index below which no owner matches is the first index.
proof fn lemma_find_agent_found(s: Seq<NewAgent>, owner: i32, i: int)
    requires
        0 <= i < s.len(),
        s[i].owner_id == owner,
        forall|j: int| 0 <= j < i ==> (#[trigger] s[j]).owner_id != owner,
    ensures
        spec_find_agent(s, owner) == Option::Some(i),
    decreases i,
{
    if i == 0 {
    } else {
        assert(s.skip(1)[i - 1] == s[i]);
        assert forall|j: int| 0 <= j < i - 1 implies (#[trigger] s.skip(1)[j]).owner_id != owner by {
            assert(s.skip(1)[j] == s[j + 1]);
        }
        lemma_find_agent_found(s.skip(1), owner, i - 1);
    }
}

/// A statically declared article of a fighter.
#[derive(Copy, Clone, Debug, PartialEq, Eq, Structural)]
pub struct ArticleDescriptor {
    pub weapon_id: i32,
    pub max_count: i32,
    /// Address of the article's initialisation callback.
    pub on_init_callback: u64,
    /// Address of the article's teardown callback.
    pub on_fini_callback: u64,
    pub extra: u64,
}

/// The article table of a fighter.
pub struct StaticArticleData {
    pub descriptors: Vec<ArticleDescriptor>,
}

/// The static description of a fighter, as far as the library reads it: its
/// identifier and its article table, if any.
pub struct StaticFighterData {
    pub id: i32,
    pub static_article_info: Option<StaticArticleData>,
}

/// Index of the first descriptor for `weapon_id`.
pub open spec fn spec_find_article(s: Seq<ArticleDescriptor>, weapon_id: i32) -> Option<int>
    decreases s.len(),
{
    if s.len() == 0 {
        Option::None
    } else if s[0].weapon_id == weapon_id {
        Option::Some(0)
    } else {
        match spec_find_article(s.skip(1), weapon_id) {
            Option::Some(i) => Option::Some(i + 1),
            Option::None => Option::None,
        }
    }
}

proof fn lemma_find_article_found(s: Seq<ArticleDescriptor>, weapon_id: i32, i: int)
    requires
        0 <= i < s.len(),
        s[i].weapon_id == weapon_id,
        forall|j: int| 0 <= j < i ==> (#[trigger] s[j]).weapon_id != weapon_id,
    ensures
        spec_find_article(s, weapon_id) == Option::Some(i),
    decreases i,
{
    if i > 0 {
        assert(s.skip(1)[i - 1] == s[i]);
        assert forall|j: int| 0 <= j < i - 1 implies (#[trigger] s.skip(1)[j]).weapon_id
            != weapon_id by {
            assert(s.skip(1)[j] == s[j + 1]);
        }
        lemma_find_article_found(s.skip(1), weapon_id, i - 1);
    }
}

proof fn lemma_find_article_none(s: Seq<ArticleDescriptor>, weapon_id: i32)
    requires
        forall|j: int| 0 <= j < s.len() ==> (#[trigger] s[j]).weapon_id != weapon_id,
    ensures
        spec_find_article(s, weapon_id) is None,
    decreases s.len(),
{
    if s.len() > 0 {
        assert forall|j: int| 0 <= j < s.skip(1).len() implies (#[trigger] s.skip(1)[j]).weapon_id
            != weapon_id by {
            assert(s.skip(1)[j] == s[j + 1]);
        }
        lemma_find_article_none(s.skip(1), weapon_id);
    }
}

/// First descriptor for `weapon_id` in a descriptor table.
fn find_article(descriptors: &Vec<ArticleDescriptor>, weapon_id: i32) -> (r: Option<
    ArticleDescriptor,
>)
    ensures
        ({
            match spec_find_article(descriptors@, weapon_id) {
                Option::Some(i) => r matches Option::Some(a) && a == descriptors@[i],
                Option::None => r is None,
            }
        }),
{
    let n = descriptors.len();
    let mut i: usize = 0;
    while i < n
        invariant
            n == descriptors.len(),
            0 <= i <= n,
            forall|j: int| 0 <= j < i ==> (#[trigger] descriptors@[j]).weapon_id != weapon_id,
        decreases n - i,
    {
        if descriptors[i].weapon_id == weapon_id {
            proof {
                lemma_find_article_found(descriptors@, weapon_id, i as int);
            }
            return Option::Some(descriptors[i]);
        }
        i += 1;
    }
    proof {
        lemma_find_article_none(descriptors@, weapon_id);
    }
    Option::None
}

impl StaticFighterData {
    /// The first declared article for `weapon_id`, if any.
    pub fn get_article(&self, weapon_id: i32) -> (r: Option<ArticleDescriptor>)
        ensures
            ({
                match self.static_article_info {
                    Option::Some(info) => match spec_find_article(info.descriptors@, weapon_id) {
                        Option::Some(i) => r matches Option::Some(a) && a == info.descriptors@[i],
                        Option::None => r is None,
                    },
                    Option::None => r is None,
                }
            }),
    {
        match &self.static_article_info {
            Option::Some(info) => find_article(&info.descriptors, weapon_id),
            Option::None => Option::None,
        }
    }
}

impl StaticArticleData {
    /// The first declared article for `weapon_id`, if any.
    pub fn get_article(&self, weapon_id: i32) -> (r: Option<ArticleDescriptor>)
        ensures
            ({
                match spec_find_article(self.descriptors@, weapon_id) {
                    Option::Some(i) => r matches Option::Some(a) && a == self.descriptors@[i],
                    Option::None => r is None,
                }
            }),
    {
        find_article(&self.descriptors, weapon_id)
    }
}

} // verus!
