//! Plain value types shared across the library: script categories, status
//! lines, object events, priorities, costume ranges, and the owned string
//! carrier used at the plugin boundary.

use vstd::prelude::*;

verus! {

/// Priority of an installed script; a higher priority replaces a lower one.
#[derive(Copy, Clone, Debug, PartialEq, Eq, Structural)]
pub enum Priority {
    Low,
    Default,
    High,
}

impl Priority {
    /// Numeric rank of the priority, ordered `Low < Default < High`.
    pub open spec fn level_spec(self) -> u8 {
        match self {
            Priority::Low => 0,
            Priority::Default => 1,
            Priority::High => 2,
        }
    }

    /// Returns the numeric rank of the priority.
    pub fn level(&self) -> (r: u8)
        ensures
            r == self.level_spec(),
    {
        match self {
            Priority::Low => 0,
            Priority::Default => 1,
            Priority::High => 2,
        }
    }
}

/// The four script categories of an animation-command agent.
#[derive(Copy, Clone, Debug, PartialEq, Eq, Structural)]
pub enum Acmd {
    Game,
    Effect,
    Sound,
    Expression,
}

/// The lines of a status script that can be replaced or observed.
#[derive(Copy, Clone, Debug, PartialEq, Eq, Structural, Hash)]
pub enum StatusLine {
    Pre,
    Main,
    End,
    Init,
    Exec,
    ExecStop,
    Post,
    Exit,
    MapCorrection,
    FixCamera,
    FixPosSlow,
    CheckDamage,
    CheckAttack,
    OnChangeLr,
    LeaveStop,
    NotifyEventGimmick,
    CalcParam,
    MainLoop,
}

impl StatusLine {
    /// The numeric index the scripting runtime uses for this line;
    /// `MainLoop` is the runtime's pseudo-line `-1`.
    pub open spec fn index_spec(self) -> i32 {
        match self {
            StatusLine::Pre => 0,
            StatusLine::Main => 1,
            StatusLine::End => 2,
            StatusLine::Init => 3,
            StatusLine::Exec => 4,
            StatusLine::ExecStop => 5,
            StatusLine::Post => 6,
            StatusLine::Exit => 7,
            StatusLine::MapCorrection => 8,
            StatusLine::FixCamera => 9,
            StatusLine::FixPosSlow => 10,
            StatusLine::CheckDamage => 11,
            StatusLine::CheckAttack => 12,
            StatusLine::OnChangeLr => 13,
            StatusLine::LeaveStop => 14,
            StatusLine::NotifyEventGimmick => 15,
            StatusLine::CalcParam => 16,
            StatusLine::MainLoop => -1i32,
        }
    }

    /// Returns the numeric index the scripting runtime uses for this line.
    pub fn index(&self) -> (r: i32)
        ensures
            r == self.index_spec(),
    {
        match self {
            StatusLine::Pre => 0,
            StatusLine::Main => 1,
            StatusLine::End => 2,
            StatusLine::Init => 3,
            StatusLine::Exec => 4,
            StatusLine::ExecStop => 5,
            StatusLine::Post => 6,
            StatusLine::Exit => 7,
            StatusLine::MapCorrection => 8,
            StatusLine::FixCamera => 9,
            StatusLine::FixPosSlow => 10,
            StatusLine::CheckDamage => 11,
            StatusLine::CheckAttack => 12,
            StatusLine::OnChangeLr => 13,
            StatusLine::LeaveStop => 14,
            StatusLine::NotifyEventGimmick => 15,
            StatusLine::CalcParam => 16,
            StatusLine::MainLoop => -1,
        }
    }
}

/// Lifecycle events of a battle object that callbacks can attach to.
#[derive(Copy, Clone, Debug, PartialEq, Eq, Structural)]
pub enum ObjectEvent {
    Initialize,
    Finalize,
    Start,
    End,
}

/// The errors of reading a string back out of a [`StringFFI`]. With an owned
/// carrier neither can arise; both remain observable states of the plugin
/// boundary this type models, where the buffer travels as a raw pointer.
#[derive(Copy, Clone, Debug, PartialEq, Eq, Structural)]
pub enum StringFFIError {
    /// The carrier held no buffer.
    Null,
    /// The buffer held bytes that are not valid UTF-8.
    Utf8,
}

/// An owned string carrier handed across the plugin boundary.
pub struct StringFFI {
    s: String,
}

impl View for StringFFI {
    type V = Seq<char>;

    closed spec fn view(&self) -> Seq<char> {
        self.s@
    }
}

impl StringFFI {
    /// Wraps an owned string for the boundary.
    pub fn from_str(value: String) -> (r: StringFFI)
        ensures
            r@ == value@,
    {
        StringFFI { s: value }
    }

    /// Reads the carried string back.
    pub fn as_str(&self) -> (r: Result<&str, StringFFIError>)
        ensures
            r matches Result::Ok(s) && s@ == self@,
    {
        Result::Ok(self.s.as_str())
    }
}

/// A constant of the scripting runtime: either already resolved to its
/// numeric value, or still named by a hash or by a string.
pub enum LuaConst {
    Resolved(i32),
    UnresolvedHash(u64),
    UnresolvedStr(StringFFI),
}

/// Conversion of plain values into [`LuaConst`].
pub trait IntoLuaConst {
    /// The constant this value denotes.
    spec fn lua_const_spec(&self) -> LuaConst;

    /// Converts the value into the constant it denotes.
    fn into_lua_const(self) -> (r: LuaConst) where Self: Sized
        ensures
            r == self.lua_const_spec(),
    ;
}

impl IntoLuaConst for i32 {
    open spec fn lua_const_spec(&self) -> LuaConst {
        LuaConst::Resolved(*self)
    }

    fn into_lua_const(self) -> (r: LuaConst) {
        LuaConst::Resolved(self)
    }
}

impl IntoLuaConst for u64 {
    open spec fn lua_const_spec(&self) -> LuaConst {
        LuaConst::UnresolvedHash(*self)
    }

    fn into_lua_const(self) -> (r: LuaConst) {
        LuaConst::UnresolvedHash(self)
    }
}

/// The five categories a battle object identifier can encode in its top
/// bits.
#[derive(Copy, Clone, Debug, PartialEq, Eq, Structural)]
pub enum BattleObjectCategory {
    Fighter,
    Weapon,
    Enemy,
    Gimmick,
    Item,
}

impl BattleObjectCategory {
    /// The category encoded by a battle object identifier, if any.
    pub open spec fn from_id_spec(id: u32) -> Option<BattleObjectCategory> {
        if id >> 0x1C == 0x0 {
            Option::Some(BattleObjectCategory::Fighter)
        } else if id >> 0x1C == 0x1 {
            Option::Some(BattleObjectCategory::Weapon)
        } else if id >> 0x1C == 0x2 {
            Option::Some(BattleObjectCategory::Enemy)
        } else if id >> 0x1C == 0x3 {
            Option::Some(BattleObjectCategory::Gimmick)
        } else if id >> 0x1C == 0x4 {
            Option::Some(BattleObjectCategory::Item)
        } else {
            Option::None
        }
    }

    /// Decodes the category from the top four bits of a battle object
    /// identifier.
    pub fn from_battle_object_id(id: u32) -> (r: Option<BattleObjectCategory>)
        ensures
            r == BattleObjectCategory::from_id_spec(id),
    {
        let tag = id >> 0x1C;
        if tag == 0x0 {
            Option::Some(BattleObjectCategory::Fighter)
        } else if tag == 0x1 {
            Option::Some(BattleObjectCategory::Weapon)
        } else if tag == 0x2 {
            Option::Some(BattleObjectCategory::Enemy)
        } else if tag == 0x3 {
            Option::Some(BattleObjectCategory::Gimmick)
        } else if tag == 0x4 {
            Option::Some(BattleObjectCategory::Item)
        } else {
            Option::None
        }
    }
}

/// An inclusive range of costume slots an installed script applies to;
/// `(-1, -1)` means every costume.
#[derive(Copy, Clone, Debug, PartialEq, Eq, Structural)]
pub struct Costume {
    pub min: i32,
    pub max: i32,
}

impl Costume {
    /// The range that applies to every costume.
    pub open spec fn all_spec() -> Costume {
        Costume { min: -1i32, max: -1i32 }
    }

    /// Returns the range that applies to every costume.
    pub fn all() -> (r: Costume)
        ensures
            r == Costume::all_spec(),
    {
        Costume { min: -1, max: -1 }
    }

    /// Whether the slot lies in this range.
    pub open spec fn contains_spec(self, slot: i32) -> bool {
        self.min <= slot <= self.max
    }

    /// Tests whether the slot lies in this range.
    pub fn contains(&self, slot: i32) -> (r: bool)
        ensures
            r == self.contains_spec(slot),
    {
        self.min <= slot && slot <= self.max
    }

    /// Whether two ranges share at least one slot.
    pub open spec fn overlaps_spec(self, other: Costume) -> bool {
        self.min <= other.max && self.max >= other.min
    }

    /// Tests whether two ranges share at least one slot.
    pub fn overlaps(&self, other: &Costume) -> (r: bool)
        ensures
            r == self.overlaps_spec(*other),
    {
        self.min <= other.max && self.max >= other.min
    }
}

impl Default for Costume {
    /// The default range applies to every costume.
    fn default() -> (r: Costume)
        ensures
            r == Costume::all_spec(),
    {
        Costume { min: -1, max: -1 }
    }
}

} // verus!
