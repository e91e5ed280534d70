//! Lookups over the cloning and costume registries: resolving a weapon's
//! name and owner through the cloned agents with a fall-back to the game's
//! name tables, and querying claimed costume ranges.

use vstd::prelude::*;

use std::collections::BTreeMap;

use crate::cloning::{agents_of, spec_find_agent, NewAgent};
use crate::registry::costume_list;
use crate::types::Costume;

verus! {

/// The name of a weapon: a cloned agent's new name when one is registered
/// for the current owner, otherwise the game's name table entry.
pub fn get_weapon_name(
    agents: &BTreeMap<i32, Vec<NewAgent>>,
    names: &Vec<String>,
    id: i32,
    current_owner: i32,
) -> (r: Option<String>)
    ensures
        ({
            let list = agents_of(agents@, id);
            match spec_find_agent(list, current_owner) {
                Option::Some(i) => r matches Option::Some(s) && s@ == list[i].new_name@,
                Option::None => {
                    if 0 <= id < names@.len() {
                        r matches Option::Some(s) && s@ == names@[id as int]@
                    } else {
                        r is None
                    }
                },
            }
        }),
{
    match crate::cloning::try_get_new_agent(agents, id, current_owner) {
        Option::Some(agent) => Option::Some(agent.new_name.as_str().to_string()),
        Option::None => {
            if 0 <= id && (id as usize) < names.len() {
                Option::Some(names[id as usize].as_str().to_string())
            } else {
                Option::None
            }
        },
    }
}

/// The name of a weapon's owner: a cloned agent's owner name when one is
/// registered, otherwise the game's owner-name table entry.
pub fn get_weapon_owner_name(
    agents: &BTreeMap<i32, Vec<NewAgent>>,
    owner_names: &Vec<String>,
    id: i32,
    current_owner: i32,
) -> (r: Option<String>)
    ensures
        ({
            let list = agents_of(agents@, id);
            match spec_find_agent(list, current_owner) {
                Option::Some(i) => r matches Option::Some(s) && s@ == list[i].owner_name@,
                Option::None => {
                    if 0 <= id < owner_names@.len() {
                        r matches Option::Some(s) && s@ == owner_names@[id as int]@
                    } else {
                        r is None
                    }
                },
            }
        }),
{
    match crate::cloning::try_get_new_agent(agents, id, current_owner) {
        Option::Some(agent) => Option::Some(agent.owner_name.as_str().to_string()),
        Option::None => {
            if 0 <= id && (id as usize) < owner_names.len() {
                Option::Some(owner_names[id as usize].as_str().to_string())
            } else {
                Option::None
            }
        },
    }
}

/// The original owner a cloned weapon borrows its code from, when the clone
/// was declared to reuse the original code.
pub fn get_weapon_code_dependency(
    agents: &BTreeMap<i32, Vec<NewAgent>>,
    id: i32,
    current_owner: i32,
) -> (r: Option<i32>)
    ensures
        ({
            let list = agents_of(agents@, id);
            match spec_find_agent(list, current_owner) {
                Option::Some(i) => r == (if list[i].use_original_code {
                    Option::Some(list[i].old_owner_id)
                } else {
                    Option::<i32>::None
                }),
                Option::None => r is None,
            }
        }),
{
    match crate::cloning::try_get_new_agent(agents, id, current_owner) {
        Option::Some(agent) => {
            if agent.use_original_code {
                Option::Some(agent.old_owner_id)
            } else {
                Option::None
            }
        },
        Option::None => Option::None,
    }
}

/// Index of the first claimed range containing `costume`.
pub open spec fn spec_find_costume(list: Seq<Costume>, costume: i32) -> Option<int>
    decreases list.len(),
{
    if list.len() == 0 {
        Option::None
    } else if list[0].contains_spec(costume) {
        Option::Some(0)
    } else {
        match spec_find_costume(list.skip(1), costume) {
            Option::Some(i) => Option::Some(i + 1),
            Option::None => Option::None,
        }
    }
}

proof fn lemma_find_costume_found(s: Seq<Costume>, costume: i32, i: int)
    requires
        0 <= i < s.len(),
        s[i].contains_spec(costume),
        forall|j: int| 0 <= j < i ==> !(#[trigger] s[j]).contains_spec(costume),
    ensures
        spec_find_costume(s, costume) == Option::Some(i),
    decreases i,
{
    if i > 0 {
        assert(s.skip(1)[i - 1] == s[i]);
        assert forall|j: int| 0 <= j < i - 1 implies !(#[trigger] s.skip(1)[j]).contains_spec(
            costume,
        ) by {
            assert(s.skip(1)[j] == s[j + 1]);
        }
        lemma_find_costume_found(s.skip(1), costume, i - 1);
    }
}

proof fn lemma_find_costume_none(s: Seq<Costume>, costume: i32)
    requires
        forall|j: int| 0 <= j < s.len() ==> !(#[trigger] s[j]).contains_spec(costume),
    ensures
        spec_find_costume(s, costume) is None,
    decreases s.len(),
{
    if s.len() > 0 {
        assert forall|j: int| 0 <= j < s.skip(1).len() implies !(#[trigger] s.skip(
            1,
        )[j]).contains_spec(costume) by {
            assert(s.skip(1)[j] == s[j + 1]);
        }
        lemma_find_costume_none(s.skip(1), costume);
    }
}

/// Whether some claimed range of this agent contains the costume slot.
pub fn has_costume(costumes: &BTreeMap<u64, Vec<Costume>>, hash: u64, costume: i32) -> (r: bool)
    ensures
        r == (spec_find_costume(costume_list(costumes@, hash), costume) is Some),
{
    let list = match costumes.get(&hash) {
        Option::Some(l) => l,
        Option::None => {
            return false;
        },
    };
    let n = list.len();
    let mut i: usize = 0;
    while i < n
        invariant
            list@ == costume_list(costumes@, hash),
            n == list.len(),
            0 <= i <= n,
            forall|j: int| 0 <= j < i ==> !(#[trigger] list@[j]).contains_spec(costume),
        decreases n - i,
    {
        if list[i].contains(costume) {
            proof {
                lemma_find_costume_found(list@, costume, i as int);
            }
            return true;
        }
        i += 1;
    }
    proof {
        lemma_find_costume_none(list@, costume);
    }
    false
}

/// The first claimed range of this agent containing the costume slot, or the
/// range that applies to every costume when none does.
pub fn get_costume_data(costumes: &BTreeMap<u64, Vec<Costume>>, hash: u64, costume: i32) -> (r:
    Costume)
    ensures
        ({
            let list = costume_list(costumes@, hash);
            match spec_find_costume(list, costume) {
                Option::Some(i) => r == list[i],
                Option::None => r == Costume::all_spec(),
            }
        }),
{
    let list = match costumes.get(&hash) {
        Option::Some(l) => l,
        Option::None => {
            return Costume::all();
        },
    };
    let n = list.len();
    let mut i: usize = 0;
    while i < n
        invariant
            list@ == costume_list(costumes@, hash),
            n == list.len(),
            0 <= i <= n,
            forall|j: int| 0 <= j < i ==> !(#[trigger] list@[j]).contains_spec(costume),
        decreases n - i,
    {
        if list[i].contains(costume) {
            proof {
                lemma_find_costume_found(list@, costume, i as int);
            }
            return list[i];
        }
        i += 1;
    }
    proof {
        lemma_find_costume_none(list@, costume);
    }
    Costume::all()
}

} // verus!
