//! The host-side registries that installed scripts and callbacks live in:
//! per-agent costume claims, per-agent script tables, status scripts, and
//! the two callback lists. Everything is an explicit value handed to the
//! installers; nothing is looked up through ambient global state.

use vstd::prelude::*;

use std::collections::BTreeMap;

use crate::callbacks::{StateCallback, StatusCallback};
use crate::scripts::{
    spec_set_script, AcmdScript, AcmdScripts, AcmdScriptsView, StatusScript, StatusScriptFunction,
};
use crate::types::{Acmd, Costume, ObjectEvent, Priority, StatusLine};

verus! {

/// The costume ranges already claimed for an agent.
pub open spec fn costume_list(m: Map<u64, Vec<Costume>>, agent: u64) -> Seq<Costume> {
    if m.contains_key(agent) {
        m[agent]@
    } else {
        Seq::empty()
    }
}

/// Whether a claimed range clashes with a new one: some already-claimed
/// range overlaps it without being identical.
pub open spec fn costume_conflict(list: Seq<Costume>, costume: Costume) -> bool {
    exists|i: int|
        0 <= i < list.len() && #[trigger] list[i] != costume && costume.overlaps_spec(list[i])
}

/// Claims a costume range for an agent. The range that applies to every
/// costume claims nothing; any other range is recorded unless it clashes
/// with a different, overlapping claim, in which case nothing changes and
/// the claim is refused.
pub fn mark_costume(costumes: &mut BTreeMap<u64, Vec<Costume>>, agent: u64, costume: Costume) -> (ok:
    bool)
    ensures
        ok == !(costume != Costume::all_spec() && costume_conflict(
            costume_list(old(costumes)@, agent),
            costume,
        )),
        costume == Costume::all_spec() ==> final(costumes)@ == old(costumes)@,
        !ok ==> final(costumes)@ == old(costumes)@,
        ok && costume != Costume::all_spec() ==> {
            &&& final(costumes)@.contains_key(agent)
            &&& final(costumes)@[agent]@ == costume_list(old(costumes)@, agent).push(costume)
            &&& forall|k: u64|
                k != agent ==> #[trigger] final(costumes)@.contains_key(k) == old(
                    costumes,
                )@.contains_key(k) && (old(costumes)@.contains_key(k) ==> final(costumes)@[k] == old(
                    costumes,
                )@[k])
        },
{
    if costume == Costume::all() {
        return true;
    }
    let ghost m0 = costumes@;
    let ghost claimed = costume_list(costumes@, agent);
    let mut list: Vec<Costume>;
    match costumes.remove(&agent) {
        Option::Some(l) => {
            list = l;
        },
        Option::None => {
            list = Vec::new();
            proof {
                assert(list@ =~= claimed);
            }
        },
    }
    let n = list.len();
    let mut i: usize = 0;
    while i < n
        invariant
            m0 == old(costumes)@,
            costume != Costume::all_spec(),
            costumes@ == m0.remove(agent),
            list@ == claimed,
            claimed == costume_list(m0, agent),
            m0.contains_key(agent) ==> m0[agent] == list,
            n == list.len(),
            0 <= i <= n,
            forall|j: int|
                0 <= j < i ==> !(#[trigger] claimed[j] != costume && costume.overlaps_spec(
                    claimed[j],
                )),
        decreases n - i,
    {
        let c = list[i];
        if !(costume == c) && costume.overlaps(&c) {
            proof {
                assert(claimed[i as int] != costume && costume.overlaps_spec(claimed[i as int]));
                assert(costume_conflict(claimed, costume));
            }
            costumes.insert(agent, list);
            proof {
                assert(costumes@ =~= m0);
            }
            return false;
        }
        i += 1;
    }
    list.push(costume);
    costumes.insert(agent, list);
    true
}

/// The script tables of one agent within the registry; an absent agent has
/// empty tables.
pub open spec fn acmd_tables(m: Map<u64, AcmdScripts>, agent: u64) -> AcmdScriptsView {
    if m.contains_key(agent) {
        m[agent]@
    } else {
        AcmdScriptsView {
            game: Seq::empty(),
            effect: Seq::empty(),
            sound: Seq::empty(),
            expression: Seq::empty(),
        }
    }
}

/// The status scripts of one agent within the registry.
pub open spec fn status_list(m: Map<u64, Vec<StatusScript>>, agent: u64) -> Seq<StatusScript> {
    if m.contains_key(agent) {
        m[agent]@
    } else {
        Seq::empty()
    }
}

/// Index of the latest installed status script for one status: the last
/// entry with the given identifier.
pub open spec fn spec_find_status(s: Seq<StatusScript>, kind: i32) -> Option<int>
    decreases s.len(),
{
    if s.len() == 0 {
        Option::None
    } else if s[s.len() - 1].id == kind {
        Option::Some(s.len() - 1)
    } else {
        spec_find_status(s.drop_last(), kind)
    }
}

/// The latest status script installed for one status of one agent.
pub fn find_status_script(
    statuses: &BTreeMap<u64, Vec<StatusScript>>,
    agent: u64,
    kind: i32,
) -> (r: Option<StatusScript>)
    ensures
        ({
            let list = status_list(statuses@, agent);
            match spec_find_status(list, kind) {
                Option::Some(i) => r matches Option::Some(s) && s == list[i],
                Option::None => r is None,
            }
        }),
{
    let list = match statuses.get(&agent) {
        Option::Some(l) => l,
        Option::None => {
            return Option::None;
        },
    };
    let n = list.len();
    let mut i: usize = n;
    proof {
        assert(list@.take(n as int) =~= list@);
    }
    while i > 0
        invariant
            list@ == status_list(statuses@, agent),
            n == list.len(),
            0 <= i <= n,
            spec_find_status(list@, kind) == spec_find_status(list@.take(i as int), kind),
        decreases i,
    {
        i -= 1;
        proof {
            let prefix = list@.take(i as int + 1);
            assert(prefix[prefix.len() - 1] == list@[i as int]);
            assert(prefix.drop_last() =~= list@.take(i as int));
        }
        if list[i].id == kind {
            return Option::Some(list[i]);
        }
    }
    proof {
        assert(list@.take(0).len() == 0);
    }
    Option::None
}

/// Everything the host keeps about installed scripts and callbacks.
pub struct ScriptRegistry {
    /// Costume ranges claimed per agent.
    pub costumes: BTreeMap<u64, Vec<Costume>>,
    /// Animation-command script tables per agent.
    pub acmd: BTreeMap<u64, AcmdScripts>,
    /// Installed status scripts per agent.
    pub statuses: BTreeMap<u64, Vec<StatusScript>>,
    /// Callbacks observing status lines.
    pub line_callbacks: Vec<StatusCallback>,
    /// Callbacks observing object lifecycle events.
    pub state_callbacks: Vec<StateCallback>,
}

impl ScriptRegistry {
    /// An empty registry.
    pub fn new() -> (r: ScriptRegistry)
        ensures
            r.costumes@ == Map::<u64, Vec<Costume>>::empty(),
            r.acmd@ == Map::<u64, AcmdScripts>::empty(),
            r.statuses@ == Map::<u64, Vec<StatusScript>>::empty(),
            r.line_callbacks@ == Seq::<StatusCallback>::empty(),
            r.state_callbacks@ == Seq::<StateCallback>::empty(),
    {
        let r = ScriptRegistry {
            costumes: BTreeMap::new(),
            acmd: BTreeMap::new(),
            statuses: BTreeMap::new(),
            line_callbacks: Vec::new(),
            state_callbacks: Vec::new(),
        };
        proof {
            assert(r.costumes@ =~= Map::<u64, Vec<Costume>>::empty());
            assert(r.acmd@ =~= Map::<u64, AcmdScripts>::empty());
            assert(r.statuses@ =~= Map::<u64, Vec<StatusScript>>::empty());
            assert(r.line_callbacks@ =~= Seq::<StatusCallback>::empty());
            assert(r.state_callbacks@ =~= Seq::<StateCallback>::empty());
        }
        r
    }

    /// Installs an animation-command script for one agent: claims the
    /// costume range, then installs under the priority rules of
    /// [`AcmdScripts::set_script`]. A costume clash refuses the
    /// installation and changes nothing.
    pub fn install_acmd_script(
        &mut self,
        agent: u64,
        costume: Costume,
        script: u64,
        category: Acmd,
        priority: Priority,
        function: u64,
    ) -> (ok: bool)
        ensures
            ok == !(costume != Costume::all_spec() && costume_conflict(
                costume_list(old(self).costumes@, agent),
                costume,
            )),
            !ok ==> final(self).costumes@ == old(self).costumes@,
            costume == Costume::all_spec() ==> final(self).costumes@ == old(self).costumes@,
            ok && costume != Costume::all_spec() ==> {
                &&& final(self).costumes@.contains_key(agent)
                &&& final(self).costumes@[agent]@ == costume_list(
                    old(self).costumes@,
                    agent,
                ).push(costume)
                &&& forall|k: u64|
                    k != agent ==> #[trigger] final(self).costumes@.contains_key(k) == old(self).costumes@.contains_key(k) && (old(self).costumes@.contains_key(k) ==> final(self).costumes@[k] == old(self).costumes@[k])
            },
            ok ==> {
                &&& final(self).acmd@.contains_key(agent)
                &&& final(self).acmd@[agent]@ == acmd_tables(old(self).acmd@, agent).with(
                    category,
                    spec_set_script(
                        acmd_tables(old(self).acmd@, agent).of(category),
                        script,
                        AcmdScript { function, priority, costume },
                    ),
                )
                &&& forall|k: u64|
                    k != agent ==> #[trigger] final(self).acmd@.contains_key(k) == old(self).acmd@.contains_key(k) && (old(self).acmd@.contains_key(k) ==> final(self).acmd@[k] == old(self).acmd@[k])
            },
            !ok ==> final(self).acmd@ == old(self).acmd@,
            final(self).statuses@ == old(self).statuses@,
            final(self).line_callbacks@ == old(self).line_callbacks@,
            final(self).state_callbacks@ == old(self).state_callbacks@,
    {
        if !mark_costume(&mut self.costumes, agent, costume) {
            return false;
        }
        let ghost c0 = old(self).costumes@;
        let ghost c1 = self.costumes@;
        proof {
            if costume != Costume::all_spec() {
                assert(c1.contains_key(agent));
                assert(c1[agent]@ == costume_list(c0, agent).push(costume));
                assert(forall|k: u64|
                    k != agent ==> #[trigger] c1.contains_key(k) == c0.contains_key(k) && (
                    c0.contains_key(k) ==> c1[k] == c0[k]));
            }
        }
        let ghost a0 = self.acmd@;
        let mut tables: AcmdScripts;
        match self.acmd.remove(&agent) {
            Option::Some(t) => {
                tables = t;
            },
            Option::None => {
                tables = AcmdScripts::new();
                proof {
                    assert(tables@.game =~= acmd_tables(a0, agent).game);
                    assert(tables@.effect =~= acmd_tables(a0, agent).effect);
                    assert(tables@.sound =~= acmd_tables(a0, agent).sound);
                    assert(tables@.expression =~= acmd_tables(a0, agent).expression);
                }
            },
        }
        proof {
            assert(tables@ == acmd_tables(a0, agent));
        }
        tables.set_script(script, category, AcmdScript { function, priority, costume });
        self.acmd.insert(agent, tables);
        true
    }

    /// Installs a status script for one agent: claims the costume range,
    /// then records the script. A costume clash refuses the installation
    /// and changes nothing.
    pub fn install_status_script(
        &mut self,
        agent: u64,
        costume: Costume,
        line: StatusLine,
        kind: i32,
        function: u64,
    ) -> (ok: bool)
        requires
            line != StatusLine::MainLoop,
        ensures
            ok == !(costume != Costume::all_spec() && costume_conflict(
                costume_list(old(self).costumes@, agent),
                costume,
            )),
            !ok ==> final(self).costumes@ == old(self).costumes@,
            costume == Costume::all_spec() ==> final(self).costumes@ == old(self).costumes@,
            ok && costume != Costume::all_spec() ==> {
                &&& final(self).costumes@.contains_key(agent)
                &&& final(self).costumes@[agent]@ == costume_list(
                    old(self).costumes@,
                    agent,
                ).push(costume)
                &&& forall|k: u64|
                    k != agent ==> #[trigger] final(self).costumes@.contains_key(k) == old(self).costumes@.contains_key(k) && (old(self).costumes@.contains_key(k) ==> final(self).costumes@[k] == old(self).costumes@[k])
            },
            ok ==> {
                &&& final(self).statuses@.contains_key(agent)
                &&& final(self).statuses@[agent]@ == status_list(old(self).statuses@, agent).push(
                    StatusScript {
                        id: kind,
                        function: StatusScriptFunction::from_line_spec(line, function),
                        costume,
                    },
                )
                &&& forall|k: u64|
                    k != agent ==> #[trigger] final(self).statuses@.contains_key(k) == old(self).statuses@.contains_key(k) && (old(self).statuses@.contains_key(k) ==> final(self).statuses@[k] == old(self).statuses@[k])
            },
            !ok ==> final(self).statuses@ == old(self).statuses@,
            final(self).acmd@ == old(self).acmd@,
            final(self).line_callbacks@ == old(self).line_callbacks@,
            final(self).state_callbacks@ == old(self).state_callbacks@,
    {
        if !mark_costume(&mut self.costumes, agent, costume) {
            return false;
        }
        let ghost c0 = old(self).costumes@;
        let ghost c1 = self.costumes@;
        proof {
            if costume != Costume::all_spec() {
                assert(c1.contains_key(agent));
                assert(c1[agent]@ == costume_list(c0, agent).push(costume));
                assert(forall|k: u64|
                    k != agent ==> #[trigger] c1.contains_key(k) == c0.contains_key(k) && (
                    c0.contains_key(k) ==> c1[k] == c0[k]));
            }
        }
        let ghost s0 = self.statuses@;
        let mut list: Vec<StatusScript>;
        match self.statuses.remove(&agent) {
            Option::Some(l) => {
                list = l;
            },
            Option::None => {
                list = Vec::new();
                proof {
                    assert(list@ =~= status_list(s0, agent));
                }
            },
        }
        list.push(StatusScript { id: kind, function: StatusScriptFunction::from_line(line, function), costume });
        self.statuses.insert(agent, list);
        true
    }

    /// Registers a callback observing one status line, optionally restricted
    /// to one agent.
    pub fn install_line_callback(&mut self, agent: Option<u64>, line: StatusLine, function: u64)
        requires
            line != StatusLine::MainLoop,
        ensures
            final(self).line_callbacks@ == old(self).line_callbacks@.push(
                StatusCallback {
                    agent,
                    function: StatusScriptFunction::from_line_spec(line, function),
                },
            ),
            final(self).costumes@ == old(self).costumes@,
            final(self).acmd@ == old(self).acmd@,
            final(self).statuses@ == old(self).statuses@,
            final(self).state_callbacks@ == old(self).state_callbacks@,
    {
        self.line_callbacks.push(
            StatusCallback { agent, function: StatusScriptFunction::from_line(line, function) },
        );
    }

    /// Registers a callback observing one object lifecycle event, optionally
    /// restricted to one agent.
    pub fn install_state_callback(&mut self, agent: Option<u64>, event: ObjectEvent, function: u64)
        ensures
            final(self).state_callbacks@ == old(self).state_callbacks@.push(
                StateCallback { agent, event, function },
            ),
            final(self).costumes@ == old(self).costumes@,
            final(self).acmd@ == old(self).acmd@,
            final(self).statuses@ == old(self).statuses@,
            final(self).line_callbacks@ == old(self).line_callbacks@,
    {
        self.state_callbacks.push(StateCallback { agent, event, function });
    }
}

} // verus!
