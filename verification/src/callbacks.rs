//! Callbacks observing status lines and object lifecycle events.

use vstd::prelude::*;

use crate::hash::{hash40_of, hash_str};
use crate::scripts::StatusScriptFunction;
use crate::types::{BattleObjectCategory, ObjectEvent, StatusLine};

verus! {

/// A callback observing one status line, optionally restricted to a single
/// agent.
#[derive(Copy, Clone, Debug, PartialEq, Eq, Structural)]
pub struct StatusCallback {
    /// Hash of the agent the callback is restricted to; `None` observes
    /// every agent.
    pub agent: Option<u64>,
    /// The observed line, carrying the callback's function address.
    pub function: StatusScriptFunction,
}

/// A callback observing one lifecycle event of battle objects, optionally
/// restricted to a single agent.
#[derive(Copy, Clone, Debug, PartialEq, Eq, Structural)]
pub struct StateCallback {
    /// Hash of the agent the callback is restricted to; `None` observes
    /// every object.
    pub agent: Option<u64>,
    /// The observed lifecycle event.
    pub event: ObjectEvent,
    /// Address of the callback function.
    pub function: u64,
}

/// A lifecycle event named in a callback declaration.
#[derive(Copy, Clone, Debug, PartialEq, Eq, Structural)]
pub enum StateEvent {
    Initialize,
    Finalize,
    Start,
    End,
}

/// The line callbacks that survive unloading the address range
/// `[start, end)`: exactly those whose handler lies outside it, in order.
pub open spec fn spec_retain_line_callbacks(
    s: Seq<StatusCallback>,
    start: u64,
    end: u64,
) -> Seq<StatusCallback>
    decreases s.len(),
{
    if s.len() == 0 {
        s
    } else if start <= s[0].function.address_spec() < end {
        spec_retain_line_callbacks(s.skip(1), start, end)
    } else {
        seq![s[0]] + spec_retain_line_callbacks(s.skip(1), start, end)
    }
}

/// The state callbacks that survive unloading the address range
/// `[start, end)`.
pub open spec fn spec_retain_state_callbacks(
    s: Seq<StateCallback>,
    start: u64,
    end: u64,
) -> Seq<StateCallback>
    decreases s.len(),
{
    if s.len() == 0 {
        s
    } else if start <= s[0].function < end {
        spec_retain_state_callbacks(s.skip(1), start, end)
    } else {
        seq![s[0]] + spec_retain_state_callbacks(s.skip(1), start, end)
    }
}

/// Removes every callback whose handler lies in `[start, end)` — the address
/// range of an unloaded plugin — from both callback lists.
pub fn remove_callbacks_by_range(
    line_callbacks: &mut Vec<StatusCallback>,
    state_callbacks: &mut Vec<StateCallback>,
    start: u64,
    end: u64,
)
    ensures
        final(line_callbacks)@ == spec_retain_line_callbacks(old(line_callbacks)@, start, end),
        final(state_callbacks)@ == spec_retain_state_callbacks(old(state_callbacks)@, start, end),
{
    let ghost s = line_callbacks@;
    let n = line_callbacks.len();
    let mut out: Vec<StatusCallback> = Vec::new();
    let mut i: usize = 0;
    proof {
        assert(s.skip(0) =~= s);
        assert(out@ + spec_retain_line_callbacks(s, start, end) =~= spec_retain_line_callbacks(
            s,
            start,
            end,
        ));
    }
    while i < n
        invariant
            s == line_callbacks@,
            s == old(line_callbacks)@,
            n == line_callbacks.len(),
            0 <= i <= n,
            spec_retain_line_callbacks(s, start, end) == out@ + spec_retain_line_callbacks(
                s.skip(i as int),
                start,
                end,
            ),
        decreases n - i,
    {
        proof {
            assert(s.skip(i as int)[0] == s[i as int]);
            assert(s.skip(i as int).skip(1) =~= s.skip(i as int + 1));
        }
        let cb = line_callbacks[i];
        let addr = cb.function.as_address();
        if !(start <= addr && addr < end) {
            out.push(cb);
            proof {
                let tail = spec_retain_line_callbacks(s.skip(i as int + 1), start, end);
                assert(out@ + tail =~= out@.drop_last() + (seq![s[i as int]] + tail));
            }
        }
        i += 1;
    }
    proof {
        assert(s.skip(n as int).len() == 0);
        assert(out@ + spec_retain_line_callbacks(s.skip(n as int), start, end) =~= out@);
    }
    *line_callbacks = out;

    let ghost s2 = state_callbacks@;
    let n2 = state_callbacks.len();
    let mut out2: Vec<StateCallback> = Vec::new();
    let mut i2: usize = 0;
    proof {
        assert(s2.skip(0) =~= s2);
        assert(out2@ + spec_retain_state_callbacks(s2, start, end) =~= spec_retain_state_callbacks(
            s2,
            start,
            end,
        ));
    }
    while i2 < n2
        invariant
            s2 == state_callbacks@,
            s2 == old(state_callbacks)@,
            n2 == state_callbacks.len(),
            0 <= i2 <= n2,
            spec_retain_state_callbacks(s2, start, end) == out2@ + spec_retain_state_callbacks(
                s2.skip(i2 as int),
                start,
                end,
            ),
        decreases n2 - i2,
    {
        proof {
            assert(s2.skip(i2 as int)[0] == s2[i2 as int]);
            assert(s2.skip(i2 as int).skip(1) =~= s2.skip(i2 as int + 1));
        }
        let cb = state_callbacks[i2];
        if !(start <= cb.function && cb.function < end) {
            out2.push(cb);
            proof {
                let tail = spec_retain_state_callbacks(s2.skip(i2 as int + 1), start, end);
                assert(out2@ + tail =~= out2@.drop_last() + (seq![s2[i2 as int]] + tail));
            }
        }
        i2 += 1;
    }
    proof {
        assert(s2.skip(n2 as int).len() == 0);
        assert(out2@ + spec_retain_state_callbacks(s2.skip(n2 as int), start, end) =~= out2@);
    }
    *state_callbacks = out2;
}

/// Whether one state callback fires for an object: the event must match,
/// and a restricted callback demands its agent, or — failing that — the
/// generic `"fighter"` or `"weapon"` agent matching the object's category.
pub open spec fn callback_fires(
    cb: StateCallback,
    agent_hash: u64,
    object_id: u32,
    event: ObjectEvent,
) -> bool {
    &&& cb.event == event
    &&& match cb.agent {
        Option::None => true,
        Option::Some(required) => {
            ||| required == agent_hash
            ||| match BattleObjectCategory::from_id_spec(object_id) {
                Option::Some(BattleObjectCategory::Fighter) => required == hash40_of("fighter"@),
                Option::Some(BattleObjectCategory::Weapon) => required == hash40_of("weapon"@),
                _ => false,
            }
        },
    }
}

/// The function addresses of the callbacks that fire, in registration order.
pub open spec fn spec_callbacks_to_run(
    cbs: Seq<StateCallback>,
    agent_hash: u64,
    object_id: u32,
    event: ObjectEvent,
) -> Seq<u64>
    decreases cbs.len(),
{
    if cbs.len() == 0 {
        Seq::empty()
    } else if callback_fires(cbs[0], agent_hash, object_id, event) {
        seq![cbs[0].function] + spec_callbacks_to_run(cbs.skip(1), agent_hash, object_id, event)
    } else {
        spec_callbacks_to_run(cbs.skip(1), agent_hash, object_id, event)
    }
}

/// Decides which state callbacks to invoke for one lifecycle event of one
/// object. The caller performs the actual invocations, in the returned
/// order.
pub fn state_callbacks_to_run(
    callbacks: &Vec<StateCallback>,
    agent_hash: u64,
    object_id: u32,
    event: ObjectEvent,
) -> (r: Vec<u64>)
    ensures
        r@ == spec_callbacks_to_run(callbacks@, agent_hash, object_id, event),
{
    let fighter_hash = hash_str("fighter");
    let weapon_hash = hash_str("weapon");
    let s = callbacks;
    let n = s.len();
    let mut out: Vec<u64> = Vec::new();
    let mut i: usize = 0;
    proof {
        assert(s@.skip(0) =~= s@);
        assert(out@ + spec_callbacks_to_run(s@, agent_hash, object_id, event)
            =~= spec_callbacks_to_run(s@, agent_hash, object_id, event));
    }
    while i < n
        invariant
            s == callbacks,
            n == s.len(),
            0 <= i <= n,
            fighter_hash == hash40_of("fighter"@),
            weapon_hash == hash40_of("weapon"@),
            spec_callbacks_to_run(s@, agent_hash, object_id, event) == out@
                + spec_callbacks_to_run(s@.skip(i as int), agent_hash, object_id, event),
        decreases n - i,
    {
        proof {
            assert(s@.skip(i as int)[0] == s@[i as int]);
            assert(s@.skip(i as int).skip(1) =~= s@.skip(i as int + 1));
        }
        let cb = s[i];
        let fires: bool = if !(cb.event == event) {
            false
        } else {
            match cb.agent {
                Option::None => true,
                Option::Some(required) => {
                    if required == agent_hash {
                        true
                    } else {
                        match BattleObjectCategory::from_battle_object_id(object_id) {
                            Option::Some(BattleObjectCategory::Fighter) => required
                                == fighter_hash,
                            Option::Some(BattleObjectCategory::Weapon) => required == weapon_hash,
                            _ => false,
                        }
                    }
                },
            }
        };
        if fires {
            out.push(cb.function);
            proof {
                let tail = spec_callbacks_to_run(
                    s@.skip(i as int + 1),
                    agent_hash,
                    object_id,
                    event,
                );
                assert(out@ + tail =~= out@.drop_last() + (seq![cb.function] + tail));
            }
        }
        i += 1;
    }
    proof {
        assert(s@.skip(n as int).len() == 0);
        assert(out@ + spec_callbacks_to_run(s@.skip(n as int), agent_hash, object_id, event)
            =~= out@);
    }
    out
}

} // verus!
