//! Installed animation-command and status scripts.
//!
//! Each agent owns one [`AcmdScripts`] store with a script table per
//! category. Installing a script with the same name twice keeps the one with
//! the higher priority; unloading a plugin removes every script whose
//! function address lies in the plugin's address range.

use vstd::prelude::*;

use crate::types::{Acmd, Costume, Priority, StatusLine};

verus! {

/// One of the replaceable status-script slots, tagged with the line it
/// replaces and carrying the handler's function address (`None` when empty).
#[derive(Copy, Clone, Debug, PartialEq, Eq, Structural)]
pub enum StatusScriptFunction {
    Pre(Option<u64>),
    Main(Option<u64>),
    End(Option<u64>),
    Init(Option<u64>),
    Exec(Option<u64>),
    ExecStop(Option<u64>),
    Post(Option<u64>),
    Exit(Option<u64>),
    MapCorrection(Option<u64>),
    FixCamera(Option<u64>),
    FixPosSlow(Option<u64>),
    CheckDamage(Option<u64>),
    CheckAttack(Option<u64>),
    OnChangeLr(Option<u64>),
    LeaveStop(Option<u64>),
    NotifyEventGimmick(Option<u64>),
    CalcParam(Option<u64>),
}

impl StatusScriptFunction {
    /// The handler's address; an empty slot reads as `0`.
    pub open spec fn address_spec(self) -> u64 {
        match self {
            StatusScriptFunction::Pre(f) => f.unwrap_or(0),
            StatusScriptFunction::Main(f) => f.unwrap_or(0),
            StatusScriptFunction::End(f) => f.unwrap_or(0),
            StatusScriptFunction::Init(f) => f.unwrap_or(0),
            StatusScriptFunction::Exec(f) => f.unwrap_or(0),
            StatusScriptFunction::ExecStop(f) => f.unwrap_or(0),
            StatusScriptFunction::Post(f) => f.unwrap_or(0),
            StatusScriptFunction::Exit(f) => f.unwrap_or(0),
            StatusScriptFunction::MapCorrection(f) => f.unwrap_or(0),
            StatusScriptFunction::FixCamera(f) => f.unwrap_or(0),
            StatusScriptFunction::FixPosSlow(f) => f.unwrap_or(0),
            StatusScriptFunction::CheckDamage(f) => f.unwrap_or(0),
            StatusScriptFunction::CheckAttack(f) => f.unwrap_or(0),
            StatusScriptFunction::OnChangeLr(f) => f.unwrap_or(0),
            StatusScriptFunction::LeaveStop(f) => f.unwrap_or(0),
            StatusScriptFunction::NotifyEventGimmick(f) => f.unwrap_or(0),
            StatusScriptFunction::CalcParam(f) => f.unwrap_or(0),
        }
    }

    /// Returns the handler's address; an empty slot reads as `0`.
    pub fn as_address(&self) -> (r: u64)
        ensures
            r == self.address_spec(),
    {
        let f = match self {
            StatusScriptFunction::Pre(f) => f,
            StatusScriptFunction::Main(f) => f,
            StatusScriptFunction::End(f) => f,
            StatusScriptFunction::Init(f) => f,
            StatusScriptFunction::Exec(f) => f,
            StatusScriptFunction::ExecStop(f) => f,
            StatusScriptFunction::Post(f) => f,
            StatusScriptFunction::Exit(f) => f,
            StatusScriptFunction::MapCorrection(f) => f,
            StatusScriptFunction::FixCamera(f) => f,
            StatusScriptFunction::FixPosSlow(f) => f,
            StatusScriptFunction::CheckDamage(f) => f,
            StatusScriptFunction::CheckAttack(f) => f,
            StatusScriptFunction::OnChangeLr(f) => f,
            StatusScriptFunction::LeaveStop(f) => f,
            StatusScriptFunction::NotifyEventGimmick(f) => f,
            StatusScriptFunction::CalcParam(f) => f,
        };
        match f {
            Option::Some(a) => *a,
            Option::None => 0,
        }
    }

    /// The slot for a given status line, filled with the handler address.
    pub open spec fn from_line_spec(line: StatusLine, function: u64) -> StatusScriptFunction {
        match line {
            StatusLine::Pre => StatusScriptFunction::Pre(Option::Some(function)),
            StatusLine::Main => StatusScriptFunction::Main(Option::Some(function)),
            StatusLine::End => StatusScriptFunction::End(Option::Some(function)),
            StatusLine::Init => StatusScriptFunction::Init(Option::Some(function)),
            StatusLine::Exec => StatusScriptFunction::Exec(Option::Some(function)),
            StatusLine::ExecStop => StatusScriptFunction::ExecStop(Option::Some(function)),
            StatusLine::Post => StatusScriptFunction::Post(Option::Some(function)),
            StatusLine::Exit => StatusScriptFunction::Exit(Option::Some(function)),
            StatusLine::MapCorrection => StatusScriptFunction::MapCorrection(
                Option::Some(function),
            ),
            StatusLine::FixCamera => StatusScriptFunction::FixCamera(Option::Some(function)),
            StatusLine::FixPosSlow => StatusScriptFunction::FixPosSlow(Option::Some(function)),
            StatusLine::CheckDamage => StatusScriptFunction::CheckDamage(Option::Some(function)),
            StatusLine::CheckAttack => StatusScriptFunction::CheckAttack(Option::Some(function)),
            StatusLine::OnChangeLr => StatusScriptFunction::OnChangeLr(Option::Some(function)),
            StatusLine::LeaveStop => StatusScriptFunction::LeaveStop(Option::Some(function)),
            StatusLine::NotifyEventGimmick => StatusScriptFunction::NotifyEventGimmick(
                Option::Some(function),
            ),
            StatusLine::CalcParam => StatusScriptFunction::CalcParam(Option::Some(function)),
            StatusLine::MainLoop => StatusScriptFunction::Pre(Option::Some(function)),
        }
    }

    /// Builds the slot for a status line. The interpreter's `MainLoop`
    /// pseudo-line has no replaceable slot.
    pub fn from_line(line: StatusLine, function: u64) -> (r: StatusScriptFunction)
        requires
            line != StatusLine::MainLoop,
        ensures
            r == StatusScriptFunction::from_line_spec(line, function),
    {
        match line {
            StatusLine::Pre => StatusScriptFunction::Pre(Option::Some(function)),
            StatusLine::Main => StatusScriptFunction::Main(Option::Some(function)),
            StatusLine::End => StatusScriptFunction::End(Option::Some(function)),
            StatusLine::Init => StatusScriptFunction::Init(Option::Some(function)),
            StatusLine::Exec => StatusScriptFunction::Exec(Option::Some(function)),
            StatusLine::ExecStop => StatusScriptFunction::ExecStop(Option::Some(function)),
            StatusLine::Post => StatusScriptFunction::Post(Option::Some(function)),
            StatusLine::Exit => StatusScriptFunction::Exit(Option::Some(function)),
            StatusLine::MapCorrection => StatusScriptFunction::MapCorrection(
                Option::Some(function),
            ),
            StatusLine::FixCamera => StatusScriptFunction::FixCamera(Option::Some(function)),
            StatusLine::FixPosSlow => StatusScriptFunction::FixPosSlow(Option::Some(function)),
            StatusLine::CheckDamage => StatusScriptFunction::CheckDamage(Option::Some(function)),
            StatusLine::CheckAttack => StatusScriptFunction::CheckAttack(Option::Some(function)),
            StatusLine::OnChangeLr => StatusScriptFunction::OnChangeLr(Option::Some(function)),
            StatusLine::LeaveStop => StatusScriptFunction::LeaveStop(Option::Some(function)),
            StatusLine::NotifyEventGimmick => StatusScriptFunction::NotifyEventGimmick(
                Option::Some(function),
            ),
            StatusLine::CalcParam => StatusScriptFunction::CalcParam(Option::Some(function)),
            StatusLine::MainLoop => StatusScriptFunction::Pre(Option::Some(function)),
        }
    }
}

/// An installed status script: which status it replaces, on which line, and
/// for which costumes.
#[derive(Copy, Clone, Debug, PartialEq, Eq, Structural)]
pub struct StatusScript {
    pub id: i32,
    pub function: StatusScriptFunction,
    pub costume: Costume,
}

/// An installed animation-command script.
#[derive(Copy, Clone, Debug, PartialEq, Eq, Structural)]
pub struct AcmdScript {
    /// Address of the replacement function.
    pub function: u64,
    /// Priority against other installations of the same script name.
    pub priority: Priority,
    /// Costume slots the script applies to.
    pub costume: Costume,
}

/// One script table: script-name hash to installed script, in installation
/// order.
pub type AcmdScriptSeq = Seq<(u64, AcmdScript)>;

/// A table after installing `script` under `name`: a new name is appended; a
/// known name is replaced exactly when the new priority is strictly higher.
pub open spec fn spec_set_script(s: AcmdScriptSeq, name: u64, script: AcmdScript) -> AcmdScriptSeq
    decreases s.len(),
{
    if s.len() == 0 {
        seq![(name, script)]
    } else if s[0].0 == name {
        if s[0].1.priority.level_spec() < script.priority.level_spec() {
            seq![(name, script)] + s.skip(1)
        } else {
            s
        }
    } else {
        seq![s[0]] + spec_set_script(s.skip(1), name, script)
    }
}

/// A table after unloading the address range `[start, end)`: exactly the
/// entries whose function address lies outside the range remain, in order.
pub open spec fn spec_remove_range(s: AcmdScriptSeq, start: u64, end: u64) -> AcmdScriptSeq
    decreases s.len(),
{
    if s.len() == 0 {
        s
    } else if start <= s[0].1.function < end {
        spec_remove_range(s.skip(1), start, end)
    } else {
        seq![s[0]] + spec_remove_range(s.skip(1), start, end)
    }
}

/// Installing below an unmatched prefix leaves the prefix in place.
proof fn lemma_set_script_prefix(s: AcmdScriptSeq, name: u64, script: AcmdScript, i: int)
    requires
        0 <= i <= s.len(),
        forall|j: int| 0 <= j < i ==> (#[trigger] s[j]).0 != name,
    ensures
        spec_set_script(s, name, script) == s.take(i) + spec_set_script(s.skip(i), name, script),
    decreases i,
{
    if i == 0 {
        assert(s.take(0) + spec_set_script(s.skip(0), name, script) =~= spec_set_script(
            s.skip(0),
            name,
            script,
        ));
        assert(s.skip(0) =~= s);
    } else {
        lemma_set_script_prefix(s, name, script, i - 1);
        let tail = s.skip(i - 1);
        assert(tail[0] == s[i - 1]);
        assert(tail.skip(1) =~= s.skip(i));
        assert(spec_set_script(tail, name, script) == seq![tail[0]] + spec_set_script(
            s.skip(i),
            name,
            script,
        ));
        assert(s.take(i - 1) + (seq![s[i - 1]] + spec_set_script(s.skip(i), name, script)) =~= s.take(
            i,
        ) + spec_set_script(s.skip(i), name, script));
    }
}

/// Removal below a surviving prefix keeps the prefix in place.
proof fn lemma_remove_range_prefix(s: AcmdScriptSeq, start: u64, end: u64, i: int)
    requires
        0 <= i <= s.len(),
        forall|j: int| 0 <= j < i ==> !(start <= (#[trigger] s[j]).1.function < end),
    ensures
        spec_remove_range(s, start, end) == s.take(i) + spec_remove_range(s.skip(i), start, end),
    decreases i,
{
    if i == 0 {
        assert(s.take(0) + spec_remove_range(s.skip(0), start, end) =~= spec_remove_range(
            s.skip(0),
            start,
            end,
        ));
        assert(s.skip(0) =~= s);
    } else {
        lemma_remove_range_prefix(s, start, end, i - 1);
        let tail = s.skip(i - 1);
        assert(tail[0] == s[i - 1]);
        assert(tail.skip(1) =~= s.skip(i));
        assert(spec_remove_range(tail, start, end) == seq![tail[0]] + spec_remove_range(
            s.skip(i),
            start,
            end,
        ));
        assert(s.take(i - 1) + (seq![s[i - 1]] + spec_remove_range(s.skip(i), start, end)) =~= s.take(
            i,
        ) + spec_remove_range(s.skip(i), start, end));
    }
}

/// Installs `script` under `name` into one table.
fn set_script_in(v: &mut Vec<(u64, AcmdScript)>, name: u64, script: AcmdScript)
    ensures
        final(v)@ == spec_set_script(old(v)@, name, script),
{
    let ghost s = v@;
    let n = v.len();
    let mut i: usize = 0;
    while i < n
        invariant
            s == v@,
            s == old(v)@,
            n == v.len(),
            0 <= i <= n,
            forall|j: int| 0 <= j < i ==> (#[trigger] s[j]).0 != name,
        decreases n - i,
    {
        if v[i].0 == name {
            proof {
                lemma_set_script_prefix(s, name, script, i as int);
                assert(s.skip(i as int)[0] == s[i as int]);
            }
            if v[i].1.priority.level() < script.priority.level() {
                v.set(i, (name, script));
                proof {
                    assert(s.skip(i as int).skip(1) =~= s.skip(i as int + 1));
                    assert(spec_set_script(s.skip(i as int), name, script) == seq![(name, script)]
                        + s.skip(i as int + 1));
                    assert(v@ =~= s.take(i as int) + (seq![(name, script)] + s.skip(i as int + 1)));
                    assert(v@ == spec_set_script(s, name, script));
                }
            } else {
                proof {
                    assert(spec_set_script(s.skip(i as int), name, script) == s.skip(i as int));
                    assert(s.take(i as int) + s.skip(i as int) =~= s);
                    assert(v@ == spec_set_script(s, name, script));
                }
            }
            return ;
        }
        i += 1;
    }
    proof {
        lemma_set_script_prefix(s, name, script, n as int);
        assert(s.skip(n as int).len() == 0);
    }
    v.push((name, script));
    proof {
        assert(v@ =~= s.take(n as int) + spec_set_script(s.skip(n as int), name, script));
    }
}

/// Removes from one table every script whose function address lies in
/// `[start, end)`.
fn remove_range_in(v: &mut Vec<(u64, AcmdScript)>, start: u64, end: u64)
    ensures
        final(v)@ == spec_remove_range(old(v)@, start, end),
{
    let ghost s = v@;
    let n = v.len();
    let mut out: Vec<(u64, AcmdScript)> = Vec::new();
    let mut i: usize = 0;
    proof {
        assert(s.skip(0) =~= s);
        assert(out@ + spec_remove_range(s, start, end) =~= spec_remove_range(s, start, end));
    }
    while i < n
        invariant
            s == v@,
            s == old(v)@,
            n == v.len(),
            0 <= i <= n,
            spec_remove_range(s, start, end) == out@ + spec_remove_range(
                s.skip(i as int),
                start,
                end,
            ),
        decreases n - i,
    {
        proof {
            assert(s.skip(i as int)[0] == s[i as int]);
            assert(s.skip(i as int).skip(1) =~= s.skip(i as int + 1));
        }
        let entry = v[i];
        if !(start <= entry.1.function && entry.1.function < end) {
            out.push(entry);
            proof {
                let ghost tail = spec_remove_range(s.skip(i as int + 1), start, end);
                assert(out@ + tail =~= (out@.drop_last() + (seq![s[i as int]] + tail)));
            }
        }
        i += 1;
    }
    proof {
        assert(s.skip(n as int).len() == 0);
        assert(out@ + spec_remove_range(s.skip(n as int), start, end) =~= out@);
    }
    *v = out;
}

/// Whether an installed script applies to an object in a given costume slot:
/// when the agent has a claimed costume, the script's range must contain the
/// slot; when it has none, only unrestricted scripts apply.
pub open spec fn script_applies(script: AcmdScript, costume: i32, has_costume: bool) -> bool {
    if has_costume {
        script.costume.contains_spec(costume)
    } else {
        script.costume == Costume::all_spec()
    }
}

/// The scripts of one table that apply to the given costume slot, in
/// installation order, as name-and-function pairs.
pub open spec fn spec_scripts_to_bind(
    s: AcmdScriptSeq,
    costume: i32,
    has_costume: bool,
) -> Seq<(u64, u64)>
    decreases s.len(),
{
    if s.len() == 0 {
        Seq::empty()
    } else if script_applies(s[0].1, costume, has_costume) {
        seq![(s[0].0, s[0].1.function)] + spec_scripts_to_bind(s.skip(1), costume, has_costume)
    } else {
        spec_scripts_to_bind(s.skip(1), costume, has_costume)
    }
}

/// The per-category script tables of one agent.
pub struct AcmdScripts {
    game: Vec<(u64, AcmdScript)>,
    effect: Vec<(u64, AcmdScript)>,
    sound: Vec<(u64, AcmdScript)>,
    expression: Vec<(u64, AcmdScript)>,
}

/// The mathematical view of an agent's script tables.
pub ghost struct AcmdScriptsView {
    pub game: AcmdScriptSeq,
    pub effect: AcmdScriptSeq,
    pub sound: AcmdScriptSeq,
    pub expression: AcmdScriptSeq,
}

impl View for AcmdScripts {
    type V = AcmdScriptsView;

    closed spec fn view(&self) -> AcmdScriptsView {
        AcmdScriptsView {
            game: self.game@,
            effect: self.effect@,
            sound: self.sound@,
            expression: self.expression@,
        }
    }
}

impl AcmdScriptsView {
    /// The table of one category.
    pub open spec fn of(self, category: Acmd) -> AcmdScriptSeq {
        match category {
            Acmd::Game => self.game,
            Acmd::Effect => self.effect,
            Acmd::Sound => self.sound,
            Acmd::Expression => self.expression,
        }
    }

    /// This view with one category's table replaced.
    pub open spec fn with(self, category: Acmd, s: AcmdScriptSeq) -> AcmdScriptsView {
        match category {
            Acmd::Game => AcmdScriptsView { game: s, ..self },
            Acmd::Effect => AcmdScriptsView { effect: s, ..self },
            Acmd::Sound => AcmdScriptsView { sound: s, ..self },
            Acmd::Expression => AcmdScriptsView { expression: s, ..self },
        }
    }
}

impl AcmdScripts {
    /// Empty script tables.
    pub fn new() -> (r: AcmdScripts)
        ensures
            r@.game == Seq::<(u64, AcmdScript)>::empty(),
            r@.effect == Seq::<(u64, AcmdScript)>::empty(),
            r@.sound == Seq::<(u64, AcmdScript)>::empty(),
            r@.expression == Seq::<(u64, AcmdScript)>::empty(),
    {
        let r = AcmdScripts {
            game: Vec::new(),
            effect: Vec::new(),
            sound: Vec::new(),
            expression: Vec::new(),
        };
        proof {
            assert(r@.game =~= Seq::<(u64, AcmdScript)>::empty());
            assert(r@.effect =~= Seq::<(u64, AcmdScript)>::empty());
            assert(r@.sound =~= Seq::<(u64, AcmdScript)>::empty());
            assert(r@.expression =~= Seq::<(u64, AcmdScript)>::empty());
        }
        r
    }

    /// Installs `script` under `name` in the given category: a new name is
    /// appended, a known name replaced exactly when the new priority is
    /// strictly higher.
    pub fn set_script(&mut self, name: u64, category: Acmd, script: AcmdScript)
        ensures
            final(self)@ == old(self)@.with(
                category,
                spec_set_script(old(self)@.of(category), name, script),
            ),
    {
        match category {
            Acmd::Game => set_script_in(&mut self.game, name, script),
            Acmd::Effect => set_script_in(&mut self.effect, name, script),
            Acmd::Sound => set_script_in(&mut self.sound, name, script),
            Acmd::Expression => set_script_in(&mut self.expression, name, script),
        }
    }

    /// The installed scripts of one category, in installation order.
    pub fn get_scripts(&self, category: Acmd) -> (r: &Vec<(u64, AcmdScript)>)
        ensures
            r@ == self@.of(category),
    {
        match category {
            Acmd::Game => &self.game,
            Acmd::Effect => &self.effect,
            Acmd::Sound => &self.sound,
            Acmd::Expression => &self.expression,
        }
    }

    /// Decides which installed scripts of one category to bind onto an
    /// object in the given costume slot: the applicable scripts, in
    /// installation order, as script-name and function-address pairs. The
    /// caller performs the actual binding.
    pub fn scripts_to_bind(&self, category: Acmd, costume: i32, has_costume: bool) -> (r: Vec<
        (u64, u64),
    >)
        ensures
            r@ == spec_scripts_to_bind(self@.of(category), costume, has_costume),
    {
        let s = self.get_scripts(category);
        let n = s.len();
        let mut out: Vec<(u64, u64)> = Vec::new();
        let mut i: usize = 0;
        proof {
            assert(s@.skip(0) =~= s@);
            assert(out@ + spec_scripts_to_bind(s@, costume, has_costume) =~= spec_scripts_to_bind(
                s@,
                costume,
                has_costume,
            ));
        }
        while i < n
            invariant
                s@ == self@.of(category),
                n == s.len(),
                0 <= i <= n,
                spec_scripts_to_bind(s@, costume, has_costume) == out@ + spec_scripts_to_bind(
                    s@.skip(i as int),
                    costume,
                    has_costume,
                ),
            decreases n - i,
        {
            proof {
                assert(s@.skip(i as int)[0] == s@[i as int]);
                assert(s@.skip(i as int).skip(1) =~= s@.skip(i as int + 1));
            }
            let entry = s[i];
            let applies: bool = if has_costume {
                entry.1.costume.contains(costume)
            } else {
                entry.1.costume == Costume::all()
            };
            if applies {
                out.push((entry.0, entry.1.function));
                proof {
                    let tail = spec_scripts_to_bind(s@.skip(i as int + 1), costume, has_costume);
                    assert(out@ + tail =~= out@.drop_last() + (seq![
                        (entry.0, entry.1.function),
                    ] + tail));
                }
            }
            i += 1;
        }
        proof {
            assert(s@.skip(n as int).len() == 0);
            assert(out@ + spec_scripts_to_bind(s@.skip(n as int), costume, has_costume) =~= out@);
        }
        out
    }

    /// Removes every script whose function address lies in `[start, end)` —
    /// the address range of an unloaded plugin — from all four categories.
    pub fn remove_by_module_range(&mut self, start: u64, end: u64)
        ensures
            final(self)@.game == spec_remove_range(old(self)@.game, start, end),
            final(self)@.effect == spec_remove_range(old(self)@.effect, start, end),
            final(self)@.sound == spec_remove_range(old(self)@.sound, start, end),
            final(self)@.expression == spec_remove_range(old(self)@.expression, start, end),
    {
        remove_range_in(&mut self.game, start, end);
        remove_range_in(&mut self.effect, start, end);
        remove_range_in(&mut self.sound, start, end);
        remove_range_in(&mut self.expression, start, end);
    }
}

} // verus!
