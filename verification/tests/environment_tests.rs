use rynth::environment::{
    output_field, OutputField, OUTPUT_FIELDS,
    check_usable, describe, env_id, is_single, require_current, restore_target,
    EnvDescription, EnvError, EnvironmentData, EnvironmentSwitch, KnownEnvironments,
    PolicyRegistry, StandaloneState,
};

#[test]
fn environment_outputs_store_get_remove() {
    let mut e: EnvironmentData<&str, &str> = EnvironmentData::new(0);
    assert!(e.alive());
    assert_eq!(e.set_output(3, "c"), None);
    assert_eq!(e.set_output(-1, "a"), None);
    assert_eq!(e.set_output(0, "b"), None);
    assert_eq!(e.output(3), Ok(&"c"));
    assert_eq!(e.output(5), Err(EnvError::OutputNotFound(5)));
    assert_eq!(e.set_output(3, "d"), Some("c"));
    assert_eq!(e.output_indices(), vec![-1, 0, 3]);
    assert_eq!(e.remove_output(0), Some("b"));
    assert_eq!(e.remove_output(0), None);
    assert_eq!(e.output_indices(), vec![-1, 3]);
    e.clear_outputs();
    assert_eq!(e.output_indices(), Vec::<i32>::new());
}

#[test]
fn environment_core_created_once_and_destroy() {
    let mut e: EnvironmentData<String, u8> = EnvironmentData::new(7);
    assert_eq!(e.flags(), 7);
    assert!(!e.has_core());
    assert_eq!(e.get_or_create_core(|| Err::<String, &str>("no core")), Err("no core"));
    assert!(!e.has_core());
    assert_eq!(e.get_or_create_core(|| Ok::<String, &str>("core".to_string())), Ok(&"core".to_string()));
    assert_eq!(
        e.get_or_create_core(|| Ok::<String, &str>("other".to_string())),
        Ok(&"core".to_string())
    );
    assert_eq!(e.get_or_create_core(|| Err::<String, &str>("unused")), Ok(&"core".to_string()));
    assert_eq!(e.get_core(), Some(&"core".to_string()));
    e.set_output(0, 1);
    assert_eq!(e.destroy(), Some("core".to_string()));
    assert!(!e.alive());
    assert!(!e.has_core());
    assert_eq!(e.output_indices(), Vec::<i32>::new());
    assert_eq!(e.destroy(), None);
    assert!(!e.alive());
}

#[test]
fn policy_registry_single_registration() {
    let mut r: PolicyRegistry<u32> = PolicyRegistry::new();
    assert!(!r.has_policy());
    assert_eq!(r.register(1), Ok(0));
    assert_eq!(r.register(2), Err(EnvError::PolicyAlreadyRegistered));
    assert_eq!(r.current(), Some(&1));
    assert_eq!(r.clear(), Some(1));
    assert!(!r.has_policy());
    assert_eq!(r.clear(), None);
    assert_eq!(r.register(2), Ok(1));
}

#[test]
fn policy_unregisters_only_itself() {
    let mut r: PolicyRegistry<&str> = PolicyRegistry::new();
    let first = r.register("first").unwrap();
    assert_eq!(r.clear_own(first), Some("first"));
    assert!(!r.has_policy());
    let second = r.register("second").unwrap();
    assert_ne!(first, second);
    assert_eq!(r.clear_own(first), None);
    assert_eq!(r.current(), Some(&"second"));
    assert_eq!(r.clear(), Some("second"));
    let third = r.register("third").unwrap();
    assert_eq!(r.clear_own(second), None);
    assert_eq!(r.clear_own(third), Some("third"));
    assert_eq!(r.clear_own(third), None);
}

#[test]
fn known_environments_drain() {
    let mut k = KnownEnvironments::new();
    k.add("e1");
    k.add("e2");
    assert_eq!(k.take_all(), vec!["e1", "e2"]);
    assert_eq!(k.take_all(), Vec::<&str>::new());
}

#[test]
fn standalone_policy_lifecycle() {
    let mut s: StandaloneState<u8, char> = StandaloneState::empty();
    assert_eq!(s.current(), None);
    assert_eq!(s.cleared(), None);
    s.registered(9, 'a');
    assert_eq!(s.current(), Some(&9));
    assert_eq!(s.cleared(), Some(('a', 9)));
    assert_eq!(s.current(), None);
    assert_eq!(s.cleared(), None);
}

#[test]
fn switch_restores_previous_environment() {
    let mut sw = EnvironmentSwitch::new("target");
    assert_eq!(sw.enter(Some("before")), Some("target"));
    assert_eq!(sw.enter(Some("again")), None);
    let prev = sw.take_previous();
    assert_eq!(prev, Some("again"));
    assert_eq!(restore_target(prev, true), Some("again"));
    assert_eq!(restore_target(Some("x"), false), None);
    assert_eq!(restore_target::<&str>(None, true), None);
    assert_eq!(sw.take_previous(), None);
}

#[test]
fn environment_handle_decisions() {
    assert!(is_single(false, false));
    assert!(is_single(true, true));
    assert!(!is_single(true, false));
    assert_eq!(env_id(true, 1234), -1);
    assert_eq!(env_id(false, 1234), 1234);
    assert_eq!(describe(true, false, false), EnvDescription::Default);
    assert_eq!(describe(false, false, true), EnvDescription::Dead);
    assert_eq!(describe(false, true, true), EnvDescription::Active);
    assert_eq!(describe(false, true, false), EnvDescription::Alive);
    assert_eq!(check_usable(true), Ok(()));
    assert_eq!(check_usable(false), Err(EnvError::DeadEnvironment));
    assert_eq!(require_current(Some(3)), Ok(3));
    assert_eq!(require_current::<u8>(None), Err(EnvError::NoEnvironment));
}

#[test]
fn output_tuple_fields_index_like_python() {
    assert_eq!(OUTPUT_FIELDS, 3);
    assert_eq!(output_field(0), Ok(OutputField::Clip));
    assert_eq!(output_field(1), Ok(OutputField::Alpha));
    assert_eq!(output_field(2), Ok(OutputField::AltOutput));
    assert_eq!(output_field(-1), Ok(OutputField::AltOutput));
    assert_eq!(output_field(-3), Ok(OutputField::Clip));
    assert_eq!(output_field(3), Err(EnvError::OutputFieldOutOfRange));
    assert_eq!(output_field(-4), Err(EnvError::OutputFieldOutOfRange));
}
