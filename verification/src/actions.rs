//! Script assets of the action engine: the category an asset targets, a
//! type-erased registered action, and a named scripting constant.

use vstd::prelude::*;

verus! {

/// The script category an asset replaces.
#[derive(Copy, Clone, Debug, PartialEq, Eq, Structural)]
pub enum Category {
    Game,
    Effect,
    Sound,
    Expression,
}

/// A registered action: its registered name and its type-erased payload,
/// carried as plain words.
pub struct DynamicAction {
    pub name: String,
    pub action: Vec<u64>,
}

/// A named constant of the scripting runtime, with the value it resolved to.
#[derive(Clone, Debug)]
pub struct LuaConst {
    pub name: String,
    pub value: i32,
}

} // verus!
