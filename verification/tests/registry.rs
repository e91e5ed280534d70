//! The script tables, the registry installers, the agent builder, and the
//! callback dispatch decision.

use std::collections::BTreeMap;

use smashline::agent::Agent;
use smashline::callbacks::{remove_callbacks_by_range, state_callbacks_to_run, StateCallback};
use smashline::hash::hash_str;
use smashline::registry::{find_status_script, mark_costume, ScriptRegistry};
use smashline::scripts::{AcmdScript, AcmdScripts, StatusScriptFunction};
use smashline::types::{Acmd, Costume, ObjectEvent, Priority, StatusLine};

fn script(function: u64, priority: Priority) -> AcmdScript {
    AcmdScript { function, priority, costume: Costume::all() }
}

#[test]
fn set_script_keeps_higher_priority() {
    let mut s = AcmdScripts::new();
    s.set_script(10, Acmd::Game, script(0x100, Priority::Default));
    // Same priority does not replace.
    s.set_script(10, Acmd::Game, script(0x200, Priority::Default));
    assert_eq!(s.get_scripts(Acmd::Game), &vec![(10, script(0x100, Priority::Default))]);
    // A higher priority replaces.
    s.set_script(10, Acmd::Game, script(0x300, Priority::High));
    assert_eq!(s.get_scripts(Acmd::Game), &vec![(10, script(0x300, Priority::High))]);
    // A lower priority is bypassed.
    s.set_script(10, Acmd::Game, script(0x400, Priority::Low));
    assert_eq!(s.get_scripts(Acmd::Game), &vec![(10, script(0x300, Priority::High))]);
    // Categories are independent.
    s.set_script(10, Acmd::Sound, script(0x500, Priority::Low));
    assert_eq!(s.get_scripts(Acmd::Sound), &vec![(10, script(0x500, Priority::Low))]);
    assert!(s.get_scripts(Acmd::Effect).is_empty());
}

#[test]
fn remove_by_module_range_drops_unloaded_plugins() {
    let mut s = AcmdScripts::new();
    s.set_script(1, Acmd::Game, script(0x1000, Priority::Default));
    s.set_script(2, Acmd::Game, script(0x2000, Priority::Default));
    s.set_script(3, Acmd::Effect, script(0x1800, Priority::Default));
    s.remove_by_module_range(0x1000, 0x2000);
    assert_eq!(s.get_scripts(Acmd::Game), &vec![(2, script(0x2000, Priority::Default))]);
    assert!(s.get_scripts(Acmd::Effect).is_empty());
}

#[test]
fn scripts_bind_by_costume() {
    let mut s = AcmdScripts::new();
    let restricted = Costume { min: 0, max: 3 };
    s.set_script(1, Acmd::Game, AcmdScript { function: 0x10, priority: Priority::Default, costume: restricted });
    s.set_script(2, Acmd::Game, script(0x20, Priority::Default));

    // An object whose agent claimed a costume binds exactly the scripts
    // whose range contains its slot.
    assert_eq!(s.scripts_to_bind(Acmd::Game, 2, true), vec![(1, 0x10)]);
    assert_eq!(s.scripts_to_bind(Acmd::Game, 5, true), vec![]);
    // An object without a claimed costume binds only unrestricted scripts.
    assert_eq!(s.scripts_to_bind(Acmd::Game, 2, false), vec![(2, 0x20)]);
    assert_eq!(s.scripts_to_bind(Acmd::Effect, 2, true), vec![]);
}

#[test]
fn costume_claims_conflict_only_when_overlapping() {
    let mut costumes: BTreeMap<u64, Vec<Costume>> = BTreeMap::new();
    let low = Costume { min: 0, max: 3 };
    let high = Costume { min: 4, max: 7 };
    let overlapping = Costume { min: 2, max: 5 };

    assert!(mark_costume(&mut costumes, 9, low));
    assert!(mark_costume(&mut costumes, 9, high));
    // The same range again is fine; an overlapping different one is not.
    assert!(mark_costume(&mut costumes, 9, low));
    assert!(!mark_costume(&mut costumes, 9, overlapping));
    // Another agent is unaffected.
    assert!(mark_costume(&mut costumes, 10, overlapping));
    // The unrestricted range claims nothing and never clashes.
    assert!(mark_costume(&mut costumes, 9, Costume::all()));
    assert_eq!(costumes.get(&9), Some(&vec![low, high, low]));
}

#[test]
fn registry_installs_and_refuses() {
    let mut reg = ScriptRegistry::new();
    let c = Costume { min: 0, max: 7 };
    assert!(reg.install_acmd_script(5, c, 77, Acmd::Game, Priority::Default, 0xA0));
    assert!(reg.install_status_script(5, c, StatusLine::Main, 3, 0xB0));
    reg.install_line_callback(Some(5), StatusLine::Pre, 0xC0);
    reg.install_state_callback(None, ObjectEvent::Start, 0xD0);

    assert_eq!(
        reg.acmd.get(&5).unwrap().get_scripts(Acmd::Game),
        &vec![(77, AcmdScript { function: 0xA0, priority: Priority::Default, costume: c })]
    );
    assert_eq!(reg.statuses.get(&5).unwrap().len(), 1);
    assert_eq!(reg.statuses.get(&5).unwrap()[0].id, 3);
    assert_eq!(reg.line_callbacks.len(), 1);
    assert_eq!(reg.state_callbacks.len(), 1);

    // A conflicting costume refuses the whole installation.
    let clash = Costume { min: 5, max: 9 };
    assert!(!reg.install_acmd_script(5, clash, 78, Acmd::Game, Priority::Default, 0xE0));
    assert_eq!(reg.acmd.get(&5).unwrap().get_scripts(Acmd::Game).len(), 1);
}

#[test]
fn agent_builder_installs_everything() {
    let mut reg = ScriptRegistry::new();
    let mut agent = Agent::new("mario");
    agent
        .set_costume((0, 7))
        .game_acmd("game_attackairn", 0x100, Priority::Default)
        .effect_acmd("effect_attackairn", 0x200, Priority::Default)
        .status(StatusLine::Main, 3, 0x300)
        .on_line(StatusLine::Pre, 0x400)
        .on_init(0x500)
        .on_end(0x600);
    assert!(agent.install(&mut reg));

    let kind = hash_str("mario");
    assert_eq!(reg.costumes.get(&kind), Some(&vec![Costume { min: 0, max: 7 }]));
    let tables = reg.acmd.get(&kind).unwrap();
    assert_eq!(tables.get_scripts(Acmd::Game).len(), 1);
    assert_eq!(
        tables.get_scripts(Acmd::Game)[0],
        (
            hash_str("game_attackairn"),
            AcmdScript {
                function: 0x100,
                priority: Priority::Default,
                costume: Costume { min: 0, max: 7 },
            },
        )
    );
    assert_eq!(tables.get_scripts(Acmd::Effect).len(), 1);
    assert_eq!(reg.statuses.get(&kind).unwrap().len(), 1);
    assert_eq!(reg.line_callbacks.len(), 1);
    assert_eq!(reg.state_callbacks.len(), 2);

    // A second agent with an overlapping costume for the same kind is
    // refused entirely.
    let mut rival = Agent::new("mario");
    rival.set_costume((4, 9)).on_init(0x700);
    assert!(!rival.install(&mut reg));
    assert_eq!(reg.state_callbacks.len(), 2);
}

#[test]
fn state_callbacks_dispatch_by_agent_and_category() {
    let fighter_object: u32 = 0x0000_0001;
    let weapon_object: u32 = 0x1000_0001;
    let mario = hash_str("mario");
    let callbacks = vec![
        StateCallback { agent: None, event: ObjectEvent::Start, function: 1 },
        StateCallback { agent: Some(mario), event: ObjectEvent::Start, function: 2 },
        StateCallback { agent: Some(hash_str("fighter")), event: ObjectEvent::Start, function: 3 },
        StateCallback { agent: Some(hash_str("weapon")), event: ObjectEvent::Start, function: 4 },
        StateCallback { agent: None, event: ObjectEvent::End, function: 5 },
    ];

    // A mario fighter object: the unrestricted, the mario-bound and the
    // generic fighter callbacks fire, in registration order.
    assert_eq!(
        state_callbacks_to_run(&callbacks, mario, fighter_object, ObjectEvent::Start),
        vec![1, 2, 3]
    );
    // A weapon object of some other agent: unrestricted and generic weapon.
    assert_eq!(
        state_callbacks_to_run(&callbacks, hash_str("marth"), weapon_object, ObjectEvent::Start),
        vec![1, 4]
    );
    // A different event selects only its own callbacks.
    assert_eq!(
        state_callbacks_to_run(&callbacks, mario, fighter_object, ObjectEvent::End),
        vec![5]
    );
}

#[test]
fn plugin_unload_filters_callbacks() {
    let mut reg = ScriptRegistry::new();
    reg.install_line_callback(Some(5), StatusLine::Pre, 0x1000);
    reg.install_line_callback(None, StatusLine::Main, 0x2000);
    reg.install_state_callback(None, ObjectEvent::Start, 0x1800);
    reg.install_state_callback(Some(5), ObjectEvent::End, 0x2800);

    remove_callbacks_by_range(&mut reg.line_callbacks, &mut reg.state_callbacks, 0x1000, 0x2000);

    assert_eq!(reg.line_callbacks.len(), 1);
    assert_eq!(reg.line_callbacks[0].function.as_address(), 0x2000);
    assert_eq!(reg.state_callbacks.len(), 1);
    assert_eq!(reg.state_callbacks[0].function, 0x2800);
}

#[test]
fn latest_status_script_wins() {
    let mut reg = ScriptRegistry::new();
    let c = Costume::all();
    assert!(reg.install_status_script(5, c, StatusLine::Main, 3, 0xB0));
    assert!(reg.install_status_script(5, c, StatusLine::Pre, 4, 0xB1));
    assert!(reg.install_status_script(5, c, StatusLine::Main, 3, 0xB2));

    let found = find_status_script(&reg.statuses, 5, 3).unwrap();
    assert_eq!(found.function, StatusScriptFunction::from_line(StatusLine::Main, 0xB2));
    assert_eq!(
        find_status_script(&reg.statuses, 5, 4).unwrap().function,
        StatusScriptFunction::from_line(StatusLine::Pre, 0xB1)
    );
    assert_eq!(find_status_script(&reg.statuses, 5, 9), None);
    assert_eq!(find_status_script(&reg.statuses, 6, 3), None);
}

#[test]
fn status_functions_carry_their_address() {
    let f = StatusScriptFunction::from_line(StatusLine::Main, 0xBEEF);
    assert_eq!(f, StatusScriptFunction::Main(Some(0xBEEF)));
    assert_eq!(f.as_address(), 0xBEEF);
    assert_eq!(StatusScriptFunction::Exec(None).as_address(), 0);
}
