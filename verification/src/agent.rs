//! The builder through which a plugin declares everything it attaches to one
//! agent: animation-command scripts, status scripts, line callbacks and
//! lifecycle callbacks, optionally restricted to a costume range. `install`
//! hands the collected registrations to a [`ScriptRegistry`] in one step.

use vstd::prelude::*;

use crate::callbacks::{StateCallback, StatusCallback};
use crate::hash::AsHash40;
use crate::registry::{
    acmd_tables, costume_conflict, costume_list, mark_costume, status_list, ScriptRegistry,
};
use crate::scripts::{spec_set_script, AcmdScript, AcmdScripts, AcmdScriptsView, StatusScript, StatusScriptFunction};
use crate::types::{Acmd, Costume, ObjectEvent, Priority, StatusLine};

verus! {

/// Marker types that name a status line at the type level.
pub trait Sealed {

}

/// A sealed marker naming one status line.
pub trait StatusLineMarker: Sealed {
    /// The named line.
    spec fn line_spec(&self) -> StatusLine;

    /// Returns the named line.
    fn line(&self) -> (r: StatusLine)
        ensures
            r == self.line_spec(),
    ;
}

impl Sealed for StatusLine {

}

impl StatusLineMarker for StatusLine {
    open spec fn line_spec(&self) -> StatusLine {
        *self
    }

    fn line(&self) -> (r: StatusLine) {
        *self
    }
}

/// One declared animation-command script.
#[derive(Copy, Clone, Debug, PartialEq, Eq, Structural)]
pub struct AcmdRegistration {
    pub category: Acmd,
    pub replaces: u64,
    pub function: u64,
    pub priority: Priority,
}

/// One declared status script.
#[derive(Copy, Clone, Debug, PartialEq, Eq, Structural)]
pub struct StatusRegistration {
    pub line: StatusLine,
    pub kind: i32,
    pub function: u64,
}

/// One declared line callback.
#[derive(Copy, Clone, Debug, PartialEq, Eq, Structural)]
pub struct LineRegistration {
    pub line: StatusLine,
    pub function: u64,
}

/// One declared lifecycle callback.
#[derive(Copy, Clone, Debug, PartialEq, Eq, Structural)]
pub struct EventRegistration {
    pub event: ObjectEvent,
    pub function: u64,
}

/// The collected registrations for one agent.
pub struct Agent {
    kind_hash: u64,
    costume: Costume,
    acmd: Vec<AcmdRegistration>,
    lines: Vec<LineRegistration>,
    status: Vec<StatusRegistration>,
    events: Vec<EventRegistration>,
}

/// The mathematical view of an [`Agent`] under construction.
pub ghost struct AgentView {
    pub kind_hash: u64,
    pub costume: Costume,
    pub acmd: Seq<AcmdRegistration>,
    pub lines: Seq<LineRegistration>,
    pub status: Seq<StatusRegistration>,
    pub events: Seq<EventRegistration>,
}

impl View for Agent {
    type V = AgentView;

    closed spec fn view(&self) -> AgentView {
        AgentView {
            kind_hash: self.kind_hash,
            costume: self.costume,
            acmd: self.acmd@,
            lines: self.lines@,
            status: self.status@,
            events: self.events@,
        }
    }
}

impl AgentView {
    /// Builder well-formedness: no registration names the interpreter's
    /// `MainLoop` pseudo-line, which has no replaceable slot.
    pub open spec fn wf(self) -> bool {
        &&& forall|i: int| 0 <= i < self.status.len() ==> (#[trigger] self.status[i]).line
            != StatusLine::MainLoop
        &&& forall|i: int| 0 <= i < self.lines.len() ==> (#[trigger] self.lines[i]).line
            != StatusLine::MainLoop
    }

    /// Whether the builder holds any registration at all.
    pub open spec fn any(self) -> bool {
        self.acmd.len() + self.status.len() + self.lines.len() + self.events.len() > 0
    }
}

/// The script tables after installing a run of declared scripts in order.
pub open spec fn acmd_fold(
    v: AcmdScriptsView,
    items: Seq<AcmdRegistration>,
    costume: Costume,
) -> AcmdScriptsView
    decreases items.len(),
{
    if items.len() == 0 {
        v
    } else {
        let it = items[0];
        acmd_fold(
            v.with(
                it.category,
                spec_set_script(
                    v.of(it.category),
                    it.replaces,
                    AcmdScript { function: it.function, priority: it.priority, costume },
                ),
            ),
            items.skip(1),
            costume,
        )
    }
}

/// Folding one more script installs it after the run.
proof fn lemma_acmd_fold_push(
    v: AcmdScriptsView,
    items: Seq<AcmdRegistration>,
    x: AcmdRegistration,
    costume: Costume,
)
    ensures
        acmd_fold(v, items.push(x), costume) == acmd_fold(v, items, costume).with(
            x.category,
            spec_set_script(
                acmd_fold(v, items, costume).of(x.category),
                x.replaces,
                AcmdScript { function: x.function, priority: x.priority, costume },
            ),
        ),
    decreases items.len(),
{
    if items.len() == 0 {
        assert(items =~= Seq::<AcmdRegistration>::empty());
        assert(items.push(x)[0] == x);
        assert(items.push(x).skip(1) =~= Seq::<AcmdRegistration>::empty());
        assert(acmd_fold(v, items, costume) == v);
        assert(acmd_fold(v, items.push(x), costume) == acmd_fold(
            v.with(
                x.category,
                spec_set_script(
                    v.of(x.category),
                    x.replaces,
                    AcmdScript { function: x.function, priority: x.priority, costume },
                ),
            ),
            items.push(x).skip(1),
            costume,
        ));
        assert(acmd_fold(
            v.with(
                x.category,
                spec_set_script(
                    v.of(x.category),
                    x.replaces,
                    AcmdScript { function: x.function, priority: x.priority, costume },
                ),
            ),
            Seq::<AcmdRegistration>::empty(),
            costume,
        ) == v.with(
            x.category,
            spec_set_script(
                v.of(x.category),
                x.replaces,
                AcmdScript { function: x.function, priority: x.priority, costume },
            ),
        ));
    } else {
        assert(items.push(x)[0] == items[0]);
        assert(items.push(x).skip(1) =~= items.skip(1).push(x));
        let it = items[0];
        lemma_acmd_fold_push(
            v.with(
                it.category,
                spec_set_script(
                    v.of(it.category),
                    it.replaces,
                    AcmdScript { function: it.function, priority: it.priority, costume },
                ),
            ),
            items.skip(1),
            x,
            costume,
        );
    }
}

/// The status script one declaration installs.
pub open spec fn status_script_of(it: StatusRegistration, costume: Costume) -> StatusScript {
    StatusScript {
        id: it.kind,
        function: StatusScriptFunction::from_line_spec(it.line, it.function),
        costume,
    }
}

/// The line callback one declaration registers.
pub open spec fn status_callback_of(agent: u64, it: LineRegistration) -> StatusCallback {
    StatusCallback {
        agent: Option::Some(agent),
        function: StatusScriptFunction::from_line_spec(it.line, it.function),
    }
}

/// The lifecycle callback one declaration registers.
pub open spec fn state_callback_of(agent: u64, it: EventRegistration) -> StateCallback {
    StateCallback { agent: Option::Some(agent), event: it.event, function: it.function }
}

impl Agent {
    /// A builder for the agent with the given name or hash, with no
    /// registrations and no costume restriction.
    pub fn new<H: AsHash40>(agent: H) -> (r: Agent)
        ensures
            r@.wf(),
            r@.kind_hash == agent.hash_spec(),
            r@.costume == Costume::all_spec(),
            r@.acmd == Seq::<AcmdRegistration>::empty(),
            r@.lines == Seq::<LineRegistration>::empty(),
            r@.status == Seq::<StatusRegistration>::empty(),
            r@.events == Seq::<EventRegistration>::empty(),
    {
        let r = Agent {
            kind_hash: agent.as_hash40(),
            costume: Costume::all(),
            acmd: Vec::new(),
            lines: Vec::new(),
            status: Vec::new(),
            events: Vec::new(),
        };
        proof {
            assert(r@.acmd =~= Seq::<AcmdRegistration>::empty());
            assert(r@.lines =~= Seq::<LineRegistration>::empty());
            assert(r@.status =~= Seq::<StatusRegistration>::empty());
            assert(r@.events =~= Seq::<EventRegistration>::empty());
        }
        r
    }

    /// Restricts every registration of this builder to a costume range.
    pub fn set_costume(&mut self, costume: (i32, i32)) -> (r: &mut Agent)
        ensures
            r@ == (AgentView { costume: Costume { min: costume.0, max: costume.1 }, ..old(self)@ }),
            final(self)@ == final(r)@,
    {
        self.costume = Costume { min: costume.0, max: costume.1 };
        self
    }

    /// Declares a replacement for a script in the `Game` category.
    pub fn game_acmd<H: AsHash40>(&mut self, name: H, function: u64, priority: Priority) -> (r:
        &mut Agent)
        ensures
            r@ == (AgentView {
                acmd: old(self)@.acmd.push(
                    AcmdRegistration {
                        category: Acmd::Game,
                        replaces: name.hash_spec(),
                        function,
                        priority,
                    },
                ),
                ..old(self)@
            }),
            final(self)@ == final(r)@,
    {
        self.acmd.push(
            AcmdRegistration {
                category: Acmd::Game,
                replaces: name.as_hash40(),
                function,
                priority,
            },
        );
        self
    }

    /// Declares a replacement for a script in the `Effect` category.
    pub fn effect_acmd<H: AsHash40>(&mut self, name: H, function: u64, priority: Priority) -> (r:
        &mut Agent)
        ensures
            r@ == (AgentView {
                acmd: old(self)@.acmd.push(
                    AcmdRegistration {
                        category: Acmd::Effect,
                        replaces: name.hash_spec(),
                        function,
                        priority,
                    },
                ),
                ..old(self)@
            }),
            final(self)@ == final(r)@,
    {
        self.acmd.push(
            AcmdRegistration {
                category: Acmd::Effect,
                replaces: name.as_hash40(),
                function,
                priority,
            },
        );
        self
    }

    /// Declares a replacement for a script in the `Sound` category.
    pub fn sound_acmd<H: AsHash40>(&mut self, name: H, function: u64, priority: Priority) -> (r:
        &mut Agent)
        ensures
            r@ == (AgentView {
                acmd: old(self)@.acmd.push(
                    AcmdRegistration {
                        category: Acmd::Sound,
                        replaces: name.hash_spec(),
                        function,
                        priority,
                    },
                ),
                ..old(self)@
            }),
            final(self)@ == final(r)@,
    {
        self.acmd.push(
            AcmdRegistration {
                category: Acmd::Sound,
                replaces: name.as_hash40(),
                function,
                priority,
            },
        );
        self
    }

    /// Declares a replacement for a script in the `Expression` category.
    pub fn expression_acmd<H: AsHash40>(&mut self, name: H, function: u64, priority: Priority) -> (r:
        &mut Agent)
        ensures
            r@ == (AgentView {
                acmd: old(self)@.acmd.push(
                    AcmdRegistration {
                        category: Acmd::Expression,
                        replaces: name.hash_spec(),
                        function,
                        priority,
                    },
                ),
                ..old(self)@
            }),
            final(self)@ == final(r)@,
    {
        self.acmd.push(
            AcmdRegistration {
                category: Acmd::Expression,
                replaces: name.as_hash40(),
                function,
                priority,
            },
        );
        self
    }

    /// Declares a replacement for one status script.
    pub fn status<M: StatusLineMarker>(&mut self, line: M, kind: i32, function: u64) -> (r:
        &mut Agent)
        requires
            line.line_spec() != StatusLine::MainLoop,
        ensures
            r@ == (AgentView {
                status: old(self)@.status.push(
                    StatusRegistration { line: line.line_spec(), kind, function },
                ),
                ..old(self)@
            }),
            final(self)@ == final(r)@,
    {
        let l = line.line();
        self.status.push(StatusRegistration { line: l, kind, function });
        self
    }

    /// Declares a callback observing one status line of this agent.
    pub fn on_line<M: StatusLineMarker>(&mut self, line: M, function: u64) -> (r: &mut Agent)
        requires
            line.line_spec() != StatusLine::MainLoop,
        ensures
            r@ == (AgentView {
                lines: old(self)@.lines.push(
                    LineRegistration { line: line.line_spec(), function },
                ),
                ..old(self)@
            }),
            final(self)@ == final(r)@,
    {
        let l = line.line();
        self.lines.push(LineRegistration { line: l, function });
        self
    }

    /// Declares a callback run when an object of this agent is initialised.
    pub fn on_init(&mut self, function: u64) -> (r: &mut Agent)
        ensures
            r@ == (AgentView {
                events: old(self)@.events.push(
                    EventRegistration { event: ObjectEvent::Initialize, function },
                ),
                ..old(self)@
            }),
            final(self)@ == final(r)@,
    {
        self.events.push(EventRegistration { event: ObjectEvent::Initialize, function });
        self
    }

    /// Declares a callback run when an object of this agent is finalised.
    pub fn on_fini(&mut self, function: u64) -> (r: &mut Agent)
        ensures
            r@ == (AgentView {
                events: old(self)@.events.push(
                    EventRegistration { event: ObjectEvent::Finalize, function },
                ),
                ..old(self)@
            }),
            final(self)@ == final(r)@,
    {
        self.events.push(EventRegistration { event: ObjectEvent::Finalize, function });
        self
    }

    /// Declares a callback run when an object of this agent starts.
    pub fn on_start(&mut self, function: u64) -> (r: &mut Agent)
        ensures
            r@ == (AgentView {
                events: old(self)@.events.push(
                    EventRegistration { event: ObjectEvent::Start, function },
                ),
                ..old(self)@
            }),
            final(self)@ == final(r)@,
    {
        self.events.push(EventRegistration { event: ObjectEvent::Start, function });
        self
    }

    /// Declares a callback run when an object of this agent ends.
    pub fn on_end(&mut self, function: u64) -> (r: &mut Agent)
        ensures
            r@ == (AgentView {
                events: old(self)@.events.push(
                    EventRegistration { event: ObjectEvent::End, function },
                ),
                ..old(self)@
            }),
            final(self)@ == final(r)@,
    {
        self.events.push(EventRegistration { event: ObjectEvent::End, function });
        self
    }

    /// Hands every collected registration to the registry.
    ///
    /// If the builder is restricted to a costume range, the range is claimed
    /// once; a clash with a different, overlapping claim refuses the whole
    /// installation and changes nothing. Otherwise the declared scripts are
    /// installed under the priority rules of [`AcmdScripts::set_script`],
    /// the status scripts appended, and the callbacks registered, all for
    /// this agent.
    pub fn install(&self, reg: &mut ScriptRegistry) -> (ok: bool)
        requires
            self@.wf(),
        ensures
            ({
                let a = self@;
                let conflict = a.costume != Costume::all_spec() && costume_conflict(
                    costume_list(old(reg).costumes@, a.kind_hash),
                    a.costume,
                );
                &&& ok == !(a.any() && conflict)
                &&& !ok ==> {
                    &&& final(reg).costumes@ == old(reg).costumes@
                    &&& final(reg).acmd@ == old(reg).acmd@
                    &&& final(reg).statuses@ == old(reg).statuses@
                    &&& final(reg).line_callbacks@ == old(reg).line_callbacks@
                    &&& final(reg).state_callbacks@ == old(reg).state_callbacks@
                }
                &&& ok ==> {
                    &&& (if a.any() && a.costume != Costume::all_spec() {
                        &&& final(reg).costumes@.contains_key(a.kind_hash)
                        &&& final(reg).costumes@[a.kind_hash]@ == costume_list(
                            old(reg).costumes@,
                            a.kind_hash,
                        ).push(a.costume)
                        &&& forall|k: u64|
                            k != a.kind_hash ==> #[trigger] final(reg).costumes@.contains_key(k)
                                == old(reg).costumes@.contains_key(k) && (old(reg).costumes@.contains_key(k) ==> final(reg).costumes@[k] == old(reg).costumes@[k])
                    } else {
                        final(reg).costumes@ == old(reg).costumes@
                    })
                    &&& (if a.acmd.len() > 0 {
                        &&& final(reg).acmd@.contains_key(a.kind_hash)
                        &&& final(reg).acmd@[a.kind_hash]@ == acmd_fold(
                            acmd_tables(old(reg).acmd@, a.kind_hash),
                            a.acmd,
                            a.costume,
                        )
                        &&& forall|k: u64|
                            k != a.kind_hash ==> #[trigger] final(reg).acmd@.contains_key(k) == old(reg).acmd@.contains_key(k) && (old(reg).acmd@.contains_key(k) ==> final(reg).acmd@[k] == old(reg).acmd@[k])
                    } else {
                        final(reg).acmd@ == old(reg).acmd@
                    })
                    &&& (if a.status.len() > 0 {
                        &&& final(reg).statuses@.contains_key(a.kind_hash)
                        &&& final(reg).statuses@[a.kind_hash]@ == status_list(
                            old(reg).statuses@,
                            a.kind_hash,
                        ) + a.status.map_values(|it: StatusRegistration| status_script_of(it, a.costume))
                        &&& forall|k: u64|
                            k != a.kind_hash ==> #[trigger] final(reg).statuses@.contains_key(k)
                                == old(reg).statuses@.contains_key(k) && (old(reg).statuses@.contains_key(k) ==> final(reg).statuses@[k] == old(reg).statuses@[k])
                    } else {
                        final(reg).statuses@ == old(reg).statuses@
                    })
                    &&& final(reg).line_callbacks@ == old(reg).line_callbacks@ + a.lines.map_values(
                        |it: LineRegistration| status_callback_of(a.kind_hash, it),
                    )
                    &&& final(reg).state_callbacks@ == old(reg).state_callbacks@
                        + a.events.map_values(|it: EventRegistration| state_callback_of(a.kind_hash, it))
                }
            }),
    {
        let ghost a = self@;
        let any = self.acmd.len() > 0 || self.status.len() > 0 || self.lines.len() > 0
            || self.events.len() > 0;
        if any {
            if !mark_costume(&mut reg.costumes, self.kind_hash, self.costume) {
                return false;
            }
        }
        let ghost c1 = reg.costumes@;

        // Animation-command scripts, under the priority rules.
        if self.acmd.len() > 0 {
            let ghost a0 = reg.acmd@;
            let mut tables: AcmdScripts;
            match reg.acmd.remove(&self.kind_hash) {
                Option::Some(t) => {
                    tables = t;
                },
                Option::None => {
                    tables = AcmdScripts::new();
                    proof {
                        assert(tables@.game =~= acmd_tables(a0, a.kind_hash).game);
                        assert(tables@.effect =~= acmd_tables(a0, a.kind_hash).effect);
                        assert(tables@.sound =~= acmd_tables(a0, a.kind_hash).sound);
                        assert(tables@.expression =~= acmd_tables(a0, a.kind_hash).expression);
                    }
                },
            }
            proof {
                assert(tables@ == acmd_tables(a0, a.kind_hash));
                assert(a.acmd.take(0) =~= Seq::<AcmdRegistration>::empty());
            }
            let n = self.acmd.len();
            let mut j: usize = 0;
            while j < n
                invariant
                    a == self@,
                    n == self.acmd.len(),
                    0 <= j <= n,
                    tables@ == acmd_fold(
                        acmd_tables(a0, a.kind_hash),
                        a.acmd.take(j as int),
                        a.costume,
                    ),
                decreases n - j,
            {
                let it = self.acmd[j];
                proof {
                    lemma_acmd_fold_push(
                        acmd_tables(a0, a.kind_hash),
                        a.acmd.take(j as int),
                        it,
                        a.costume,
                    );
                    assert(a.acmd.take(j as int).push(it) =~= a.acmd.take(j as int + 1));
                }
                tables.set_script(
                    it.replaces,
                    it.category,
                    AcmdScript { function: it.function, priority: it.priority, costume: self.costume },
                );
                j += 1;
            }
            proof {
                assert(a.acmd.take(n as int) =~= a.acmd);
            }
            reg.acmd.insert(self.kind_hash, tables);
        }

        // Status scripts, appended in declaration order.
        if self.status.len() > 0 {
            let ghost s0 = reg.statuses@;
            let mut list: Vec<StatusScript>;
            match reg.statuses.remove(&self.kind_hash) {
                Option::Some(l) => {
                    list = l;
                },
                Option::None => {
                    list = Vec::new();
                    proof {
                        assert(list@ =~= status_list(s0, a.kind_hash));
                    }
                },
            }
            let ghost base = list@;
            proof {
                assert(base == status_list(s0, a.kind_hash));
            }
            let n = self.status.len();
            let mut j: usize = 0;
            proof {
                assert(list@ =~= base + a.status.take(0).map_values(
                    |it: StatusRegistration| status_script_of(it, a.costume),
                ));
            }
            while j < n
                invariant
                    a == self@,
                    a.wf(),
                    n == self.status.len(),
                    0 <= j <= n,
                    list@ == base + a.status.take(j as int).map_values(
                        |it: StatusRegistration| status_script_of(it, a.costume),
                    ),
                decreases n - j,
            {
                let it = self.status[j];
                list.push(
                    StatusScript {
                        id: it.kind,
                        function: StatusScriptFunction::from_line(it.line, it.function),
                        costume: self.costume,
                    },
                );
                proof {
                    assert(list@ =~= base + a.status.take(j as int + 1).map_values(
                        |it: StatusRegistration| status_script_of(it, a.costume),
                    ));
                }
                j += 1;
            }
            proof {
                assert(a.status.take(n as int) =~= a.status);
            }
            reg.statuses.insert(self.kind_hash, list);
        }

        // Line callbacks.
        let ghost acmd_done = reg.acmd@;
        let ghost statuses_done = reg.statuses@;
        {
            let ghost base = reg.line_callbacks@;
            let ghost state_base = reg.state_callbacks@;
            let n = self.lines.len();
            let mut j: usize = 0;
            proof {
                assert(reg.line_callbacks@ =~= base + a.lines.take(0).map_values(
                    |it: LineRegistration| status_callback_of(a.kind_hash, it),
                ));
            }
            while j < n
                invariant
                    a == self@,
                    a.wf(),
                    n == self.lines.len(),
                    0 <= j <= n,
                    reg.line_callbacks@ == base + a.lines.take(j as int).map_values(
                        |it: LineRegistration| status_callback_of(a.kind_hash, it),
                    ),
                    reg.costumes@ == c1,
                    reg.acmd@ == acmd_done,
                    reg.statuses@ == statuses_done,
                    reg.state_callbacks@ == state_base,
                decreases n - j,
            {
                let it = self.lines[j];
                reg.line_callbacks.push(
                    StatusCallback {
                        agent: Option::Some(self.kind_hash),
                        function: StatusScriptFunction::from_line(it.line, it.function),
                    },
                );
                proof {
                    assert(reg.line_callbacks@ =~= base + a.lines.take(j as int + 1).map_values(
                        |it: LineRegistration| status_callback_of(a.kind_hash, it),
                    ));
                }
                j += 1;
            }
            proof {
                assert(a.lines.take(n as int) =~= a.lines);
            }
        }

        // Lifecycle callbacks.
        let ghost lines_done = reg.line_callbacks@;
        {
            let ghost base = reg.state_callbacks@;
            let n = self.events.len();
            let mut j: usize = 0;
            proof {
                assert(reg.state_callbacks@ =~= base + a.events.take(0).map_values(
                    |it: EventRegistration| state_callback_of(a.kind_hash, it),
                ));
            }
            while j < n
                invariant
                    a == self@,
                    n == self.events.len(),
                    0 <= j <= n,
                    reg.state_callbacks@ == base + a.events.take(j as int).map_values(
                        |it: EventRegistration| state_callback_of(a.kind_hash, it),
                    ),
                    reg.costumes@ == c1,
                    reg.acmd@ == acmd_done,
                    reg.statuses@ == statuses_done,
                    reg.line_callbacks@ == lines_done,
                decreases n - j,
            {
                let it = self.events[j];
                reg.state_callbacks.push(
                    StateCallback {
                        agent: Option::Some(self.kind_hash),
                        event: it.event,
                        function: it.function,
                    },
                );
                proof {
                    assert(reg.state_callbacks@ =~= base + a.events.take(j as int + 1).map_values(
                        |it: EventRegistration| state_callback_of(a.kind_hash, it),
                    ));
                }
                j += 1;
            }
            proof {
                assert(a.events.take(n as int) =~= a.events);
            }
        }
        true
    }
}

} // verus!
