//! Typed access into a fighter's parameter tree.
//!
//! A parameter is a tagged value: a number, a hash, a string, a list, or a
//! keyed structure. The accessor mirrors the adapter the scripting runtime
//! calls through: reads answer type queries and conversions, and lookups by
//! key or element index walk the tree. Floating-point parameters are carried
//! by their raw bit pattern.

use vstd::prelude::*;

verus! {

/// One parameter value.
pub enum ParamValue {
    Bool(bool),
    I8(i8),
    U8(u8),
    I16(i16),
    U16(u16),
    I32(i32),
    U32(u32),
    /// A 32-bit floating-point value, carried as its bit pattern.
    Float(u32),
    Hash(u64),
    Str(String),
    List(Vec<ParamValue>),
    Struct(Vec<(u64, ParamValue)>),
}

/// Whether a parameter converts to an integer.
pub open spec fn is_int_value(v: ParamValue) -> bool {
    match v {
        ParamValue::Bool(_) => true,
        ParamValue::I8(_) => true,
        ParamValue::U8(_) => true,
        ParamValue::I16(_) => true,
        ParamValue::U16(_) => true,
        ParamValue::I32(_) => true,
        ParamValue::U32(_) => true,
        _ => false,
    }
}

/// The integer a parameter converts to; non-integer parameters read as `0`.
pub open spec fn int_value_of(v: ParamValue) -> i32 {
    match v {
        ParamValue::Bool(b) => if b {
            1i32
        } else {
            0i32
        },
        ParamValue::I8(x) => x as i32,
        ParamValue::U8(x) => x as i32,
        ParamValue::I16(x) => x as i32,
        ParamValue::U16(x) => x as i32,
        ParamValue::I32(x) => x,
        ParamValue::U32(x) => x as i32,
        _ => 0i32,
    }
}

/// Index of the first entry under `key` in a structure's entries.
pub open spec fn spec_find_key(s: Seq<(u64, ParamValue)>, key: u64) -> Option<int>
    decreases s.len(),
{
    if s.len() == 0 {
        Option::None
    } else if s[0].0 == key {
        Option::Some(0)
    } else {
        match spec_find_key(s.skip(1), key) {
            Option::Some(i) => Option::Some(i + 1),
            Option::None => Option::None,
        }
    }
}

proof fn lemma_find_key_found(s: Seq<(u64, ParamValue)>, key: u64, i: int)
    requires
        0 <= i < s.len(),
        s[i].0 == key,
        forall|j: int| 0 <= j < i ==> (#[trigger] s[j]).0 != key,
    ensures
        spec_find_key(s, key) == Option::Some(i),
    decreases i,
{
    if i > 0 {
        assert(s.skip(1)[i - 1] == s[i]);
        assert forall|j: int| 0 <= j < i - 1 implies (#[trigger] s.skip(1)[j]).0 != key by {
            assert(s.skip(1)[j] == s[j + 1]);
        }
        lemma_find_key_found(s.skip(1), key, i - 1);
    }
}

proof fn lemma_find_key_none(s: Seq<(u64, ParamValue)>, key: u64)
    requires
        forall|j: int| 0 <= j < s.len() ==> (#[trigger] s[j]).0 != key,
    ensures
        spec_find_key(s, key) is None,
    decreases s.len(),
{
    if s.len() > 0 {
        assert forall|j: int| 0 <= j < s.skip(1).len() implies (#[trigger] s.skip(1)[j]).0
            != key by {
            assert(s.skip(1)[j] == s[j + 1]);
        }
        lemma_find_key_none(s.skip(1), key);
    }
}

/// The parameter a lookup by key finds: a direct entry of a structure, or an
/// entry of a list's first element when that element is a structure.
pub open spec fn spec_get_by_key(v: Option<ParamValue>, key: u64) -> Option<ParamValue> {
    match v {
        Option::Some(ParamValue::Struct(entries)) => match spec_find_key(entries@, key) {
            Option::Some(i) => Option::Some(entries@[i].1),
            Option::None => Option::None,
        },
        Option::Some(ParamValue::List(l)) => {
            if l@.len() > 0 {
                match l@[0] {
                    ParamValue::Struct(entries) => match spec_find_key(entries@, key) {
                        Option::Some(i) => Option::Some(entries@[i].1),
                        Option::None => Option::None,
                    },
                    _ => Option::None,
                }
            } else {
                Option::None
            }
        },
        _ => Option::None,
    }
}

/// The parameter a lookup by element index finds in a list.
pub open spec fn spec_get_element(v: Option<ParamValue>, element: i32) -> Option<ParamValue> {
    match v {
        Option::Some(ParamValue::List(l)) => {
            if 0 <= element < l@.len() {
                Option::Some(l@[element as int])
            } else {
                Option::None
            }
        },
        _ => Option::None,
    }
}

/// First entry under `key` in a structure's entries.
fn find_key<'a>(entries: &'a Vec<(u64, ParamValue)>, key: u64) -> (r: Option<&'a ParamValue>)
    ensures
        ({
            match spec_find_key(entries@, key) {
                Option::Some(i) => r matches Option::Some(v) && *v == entries@[i].1,
                Option::None => r is None,
            }
        }),
{
    let n = entries.len();
    let mut i: usize = 0;
    while i < n
        invariant
            n == entries.len(),
            0 <= i <= n,
            forall|j: int| 0 <= j < i ==> (#[trigger] entries@[j]).0 != key,
        decreases n - i,
    {
        if entries[i].0 == key {
            proof {
                lemma_find_key_found(entries@, key, i as int);
            }
            return Option::Some(&entries[i].1);
        }
        i += 1;
    }
    proof {
        lemma_find_key_none(entries@, key);
    }
    Option::None
}

/// A read-only accessor over one node of a parameter tree, possibly empty.
pub struct ParamData<'a> {
    /// The parameter this accessor points at, if any.
    pub data: Option<&'a ParamValue>,
}

/// The parameter an accessor points at, as a value.
pub open spec fn data_of(p: ParamData) -> Option<ParamValue> {
    match p.data {
        Option::Some(v) => Option::Some(*v),
        Option::None => Option::None,
    }
}

impl<'a> ParamData<'a> {
    /// Whether the parameter is an integer (a boolean or a fixed-width
    /// integer no wider than 32 bits).
    pub fn is_int(&self) -> (r: bool)
        ensures
            r == (data_of(*self) matches Option::Some(v) && is_int_value(v)),
    {
        match self.data {
            Option::Some(v) => match v {
                ParamValue::Bool(_) => true,
                ParamValue::I8(_) => true,
                ParamValue::U8(_) => true,
                ParamValue::I16(_) => true,
                ParamValue::U16(_) => true,
                ParamValue::I32(_) => true,
                ParamValue::U32(_) => true,
                _ => false,
            },
            Option::None => false,
        }
    }

    /// Whether the parameter is a floating-point value.
    pub fn is_float(&self) -> (r: bool)
        ensures
            r == (data_of(*self) matches Option::Some(v) && v is Float),
    {
        match self.data {
            Option::Some(v) => match v {
                ParamValue::Float(_) => true,
                _ => false,
            },
            Option::None => false,
        }
    }

    /// Whether the parameter is a hash.
    pub fn is_hash(&self) -> (r: bool)
        ensures
            r == (data_of(*self) matches Option::Some(v) && v is Hash),
    {
        match self.data {
            Option::Some(v) => match v {
                ParamValue::Hash(_) => true,
                _ => false,
            },
            Option::None => false,
        }
    }

    /// An unused slot of the adapter's table; always clear.
    pub fn is_unk(&self) -> (r: [u64; 2])
        ensures
            r@ == seq![0u64, 0u64],
    {
        let r = [0u64, 0u64];
        proof {
            assert(r@ =~= seq![0u64, 0u64]);
        }
        r
    }

    /// An unused slot of the adapter's table; always clear.
    pub fn is_unk2(&self) -> (r: [u64; 2])
        ensures
            r@ == seq![0u64, 0u64],
    {
        let r = [0u64, 0u64];
        proof {
            assert(r@ =~= seq![0u64, 0u64]);
        }
        r
    }

    /// An unused slot of the adapter's table; always clear.
    pub fn is_unk3(&self) -> (r: [u64; 2])
        ensures
            r@ == seq![0u64, 0u64],
    {
        let r = [0u64, 0u64];
        proof {
            assert(r@ =~= seq![0u64, 0u64]);
        }
        r
    }

    /// An unused slot of the adapter's table; always clear.
    pub fn unk4(&self) -> (r: [u64; 2])
        ensures
            r@ == seq![0u64, 0u64],
    {
        let r = [0u64, 0u64];
        proof {
            assert(r@ =~= seq![0u64, 0u64]);
        }
        r
    }

    /// The parameter as an integer; anything else reads as `0`.
    pub fn get_int(&self) -> (r: i32)
        ensures
            r == (match data_of(*self) {
                Option::Some(v) => int_value_of(v),
                Option::None => 0i32,
            }),
    {
        match self.data {
            Option::Some(v) => match v {
                ParamValue::Bool(b) => {
                    if *b {
                        1
                    } else {
                        0
                    }
                },
                ParamValue::I8(x) => *x as i32,
                ParamValue::U8(x) => *x as i32,
                ParamValue::I16(x) => *x as i32,
                ParamValue::U16(x) => *x as i32,
                ParamValue::I32(x) => *x,
                ParamValue::U32(x) => #[verifier::truncate] (*x as i32),
                _ => 0,
            },
            Option::None => 0,
        }
    }

    /// The parameter as a hash; anything else reads as `0`.
    pub fn get_hash(&self) -> (r: u64)
        ensures
            r == (match data_of(*self) {
                Option::Some(ParamValue::Hash(h)) => h,
                _ => 0u64,
            }),
    {
        match self.data {
            Option::Some(v) => match v {
                ParamValue::Hash(h) => *h,
                _ => 0,
            },
            Option::None => 0,
        }
    }

    /// The adapter's string slot is a stub: it always answers the empty
    /// string.
    pub fn get_string(&self) -> (r: String)
        ensures
            r@.len() == 0,
    {
        String::new()
    }

    /// Looks up a keyed entry: directly in a structure, or in a list's first
    /// element when that element is a structure. Anything else yields the
    /// empty accessor.
    pub fn get_by_key(&self, key: u64) -> (r: ParamData<'a>)
        ensures
            ({
                match spec_get_by_key(data_of(*self), key) {
                    Option::Some(v) => data_of(r) == Option::Some(v),
                    Option::None => r.data is None,
                }
            }),
    {
        let v = match self.data {
            Option::Some(v) => v,
            Option::None => {
                return ParamData { data: Option::None };
            },
        };
        match v {
            ParamValue::Struct(entries) => ParamData { data: find_key(entries, key) },
            ParamValue::List(l) => {
                if l.len() > 0 {
                    match &l[0] {
                        ParamValue::Struct(entries) => ParamData { data: find_key(entries, key) },
                        _ => ParamData { data: Option::None },
                    }
                } else {
                    ParamData { data: Option::None }
                }
            },
            _ => ParamData { data: Option::None },
        }
    }

    /// Looks up a list element by index; anything else yields the empty
    /// accessor.
    pub fn get_element(&self, element: i32) -> (r: ParamData<'a>)
        ensures
            ({
                match spec_get_element(data_of(*self), element) {
                    Option::Some(v) => data_of(r) == Option::Some(v),
                    Option::None => r.data is None,
                }
            }),
    {
        let v = match self.data {
            Option::Some(v) => v,
            Option::None => {
                return ParamData { data: Option::None };
            },
        };
        match v {
            ParamValue::List(l) => {
                if 0 <= element && (element as usize) < l.len() {
                    ParamData { data: Option::Some(&l[element as usize]) }
                } else {
                    ParamData { data: Option::None }
                }
            },
            _ => ParamData { data: Option::None },
        }
    }
}

/// The parameter after an integer write: integer parameters take the
/// truncated value, everything else is untouched.
pub open spec fn set_int_spec(v: ParamValue, value: i32) -> ParamValue {
    match v {
        ParamValue::Bool(_) => ParamValue::Bool(value != 0),
        ParamValue::I8(_) => ParamValue::I8(value as i8),
        ParamValue::U8(_) => ParamValue::U8(value as u8),
        ParamValue::I16(_) => ParamValue::I16(value as i16),
        ParamValue::U16(_) => ParamValue::U16(value as u16),
        ParamValue::I32(_) => ParamValue::I32(value),
        ParamValue::U32(_) => ParamValue::U32(value as u32),
        other => other,
    }
}

impl ParamValue {
    /// Writes an integer into this parameter, truncating to its width;
    /// non-integer parameters are untouched.
    pub fn set_int(&mut self, value: i32)
        ensures
            *final(self) == set_int_spec(*old(self), value),
    {
        match self {
            ParamValue::Bool(b) => {
                *b = value != 0;
            },
            ParamValue::I8(x) => {
                *x = #[verifier::truncate] (value as i8);
            },
            ParamValue::U8(x) => {
                *x = #[verifier::truncate] (value as u8);
            },
            ParamValue::I16(x) => {
                *x = #[verifier::truncate] (value as i16);
            },
            ParamValue::U16(x) => {
                *x = #[verifier::truncate] (value as u16);
            },
            ParamValue::I32(x) => {
                *x = value;
            },
            ParamValue::U32(x) => {
                *x = #[verifier::truncate] (value as u32);
            },
            _ => {
            },
        }
    }
}

} // verus!
