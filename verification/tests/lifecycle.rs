use clips::cursor::collect_walk;
use clips::env::encode_arg_types;
use clips::types::INTEGER_BIT;
use clips::value::decode;
use clips::value::encode;
use clips::create_environment;
use clips::ClipsErrorKind;
use clips::ClipsValue;
use clips::Environment;
use clips::RawValue;
use clips::SaveScope;
use clips::Type;

const ENGINE: u64 = 0x5150;

#[test]
fn create_fails_on_null_instance() {
    let err = create_environment(0).unwrap_err();
    assert_eq!(err.kind, ClipsErrorKind::CreateEnvironmentError);
}

#[test]
fn create_yields_an_owning_handle() {
    let env = create_environment(ENGINE).unwrap();
    assert!(env.owns());
    assert_eq!(env.raw(), ENGINE);
    assert_eq!(env.udf_count(), 0);
}

#[test]
fn callback_view_does_not_own() {
    let env = Environment::from_ptr(ENGINE);
    assert!(!env.owns());
    assert_eq!(env.raw(), ENGINE);
}

#[test]
fn clear_maps_the_engine_flag() {
    let mut env = create_environment(ENGINE).unwrap();
    assert!(env.clear(true).is_ok());
    let err = env.clear(false).unwrap_err();
    assert_eq!(err.kind, ClipsErrorKind::ClearError);
}

#[test]
fn load_from_str_carries_the_rejected_source() {
    let mut env = create_environment(ENGINE).unwrap();
    assert!(env.load_from_str("(defrule r =>)", true).is_ok());
    let err = env.load_from_str("(defrule broken", false).unwrap_err();
    assert_eq!(
        err.kind,
        ClipsErrorKind::LoadFromStringError(String::from("(defrule broken"))
    );
}

#[test]
fn load_maps_every_engine_status() {
    let mut env = create_environment(ENGINE).unwrap();
    assert!(env.load("rules.clp", 0).is_ok());
    let err = env.load("missing.clp", 1).unwrap_err();
    assert_eq!(err.kind, ClipsErrorKind::LoadOpenFileError(String::from("missing.clp")));
    let err = env.load("broken.clp", 2).unwrap_err();
    assert_eq!(err.kind, ClipsErrorKind::LoadParsingError(String::from("broken.clp")));
}

#[test]
fn batch_star_reports_the_file() {
    let mut env = create_environment(ENGINE).unwrap();
    assert!(env.batch_star("setup.bat", true).is_ok());
    let err = env.batch_star("setup.bat", false).unwrap_err();
    assert_eq!(err.kind, ClipsErrorKind::BatchStarError(String::from("setup.bat")));
}

#[test]
fn save_scope_codes() {
    assert_eq!(SaveScope::Local.code(), 0);
    assert_eq!(SaveScope::Visible.code(), 1);
}

#[test]
fn min_above_max_is_refused_before_the_engine() {
    let env = create_environment(ENGINE).unwrap();
    let err = env
        .add_udf("shrink", None, 3, 1, &vec![])
        .unwrap_err();
    assert_eq!(err.kind, ClipsErrorKind::AddUDFMinExceedsMaxError(String::from("shrink")));
}

#[test]
fn second_registration_under_a_name_is_refused() {
    let mut env = create_environment(ENGINE).unwrap();
    let decl = env
        .add_udf("twice", None, 0, 0, &vec![])
        .unwrap();
    env.confirm_udf(decl, 0).unwrap();
    let err = env
        .add_udf("twice", None, 0, 0, &vec![])
        .unwrap_err();
    assert_eq!(
        err.kind,
        ClipsErrorKind::AddUDFFunctionNameInUseError(String::from("twice"))
    );
}

#[test]
fn zero_argument_registration_succeeds_and_walk_is_empty() {
    let mut env = create_environment(ENGINE).unwrap();
    let decl = env.add_udf("nullary", None, 0, 0, &vec![]).unwrap();
    assert_eq!(decl.min_args, 0);
    assert_eq!(decl.max_args, 0);
    env.confirm_udf(decl, 0).unwrap();
    assert!(env.lookup_udf("nullary"));
    // A call that passes no arguments: the engine's argument walk ends
    // at once, so the argument sequence yields zero items.
    assert_eq!(collect_walk(&vec![0u64]), Vec::<u64>::new());
}

#[test]
fn engine_refusals_map_to_their_error_kinds() {
    let mut env = create_environment(ENGINE).unwrap();
    for (code, expected) in [
        (1u32, ClipsErrorKind::AddUDFMinExceedsMaxError(String::from("f"))),
        (2, ClipsErrorKind::AddUDFFunctionNameInUseError(String::from("f"))),
        (3, ClipsErrorKind::AddUDFInvalidArgumentTypeError(String::from("f"))),
        (4, ClipsErrorKind::AddUDFInvalidReturnTypeError(String::from("f"))),
    ] {
        let decl = env.add_udf("f", None, 0, 0, &vec![]).unwrap();
        let err = env.confirm_udf(decl, code).unwrap_err();
        assert_eq!(err.kind, expected);
        assert_eq!(env.udf_count(), 0);
    }
}

#[test]
fn removal_frees_the_name_for_reuse() {
    let mut env = create_environment(ENGINE).unwrap();
    let decl = env.add_udf("gone", None, 0, 0, &vec![]).unwrap();
    env.confirm_udf(decl, 0).unwrap();
    assert_eq!(env.udf_count(), 1);

    let err = env.remove_udf("gone", false).unwrap_err();
    assert_eq!(err.kind, ClipsErrorKind::RemoveUDFError(String::from("gone")));
    assert_eq!(env.udf_count(), 1);

    env.remove_udf("gone", true).unwrap();
    assert_eq!(env.udf_count(), 0);
    assert!(!env.lookup_udf("gone"));

    let decl = env.add_udf("gone", None, 0, 0, &vec![]).unwrap();
    env.confirm_udf(decl, 0).unwrap();
    assert!(env.lookup_udf("gone"));
}

#[test]
fn registration_renders_the_type_constraints() {
    let env = create_environment(ENGINE).unwrap();
    let arg_types = vec![
        Type::from_bits(INTEGER_BIT),
        Type::empty(),
        Type::from_bits(INTEGER_BIT).with(Type::from_bits(clips::types::SYMBOL_BIT)),
    ];
    let decl = env
        .add_udf("typed", Some(Type::from_bits(INTEGER_BIT)), 1, 3, &arg_types)
        .unwrap();
    assert_eq!(decl.name, "typed");
    assert_eq!(decl.return_code.as_deref(), Some("l"));
    assert_eq!(decl.arg_code, "l;*;ly");
}

#[test]
fn arg_type_encoding_joins_with_the_delimiter() {
    assert_eq!(encode_arg_types(&vec![]), "");
    assert_eq!(encode_arg_types(&vec![Type::from_bits(INTEGER_BIT)]), "l");
    assert_eq!(
        encode_arg_types(&vec![Type::from_bits(INTEGER_BIT), Type::empty()]),
        "l;*"
    );
}

// A fact-asserting scenario at the model level: rule source loads, the
// agenda runs, and the walk over the engine's fact list yields exactly
// the asserted facts.
#[test]
fn scenario_load_run_and_count_facts() {
    let mut env = create_environment(ENGINE).unwrap();
    env.load_from_str("(defrule boot => (assert (booted)))", true).unwrap();
    // After the run the engine holds two facts (the initial fact and
    // the asserted one); its list walk hands back their handles.
    let fact_handles = collect_walk(&vec![0xf1u64, 0xf2, 0]);
    assert_eq!(fact_handles.len(), 2);
}

// The add-one scenario at the model level: a one-integer-argument
// function is registered, the engine hands an integer argument to the
// trampoline, the closure adds one, and the written-back value decodes
// to input plus one.
#[test]
fn scenario_add_one_through_the_bridge() {
    let mut env = create_environment(ENGINE).unwrap();
    let decl = env
        .add_udf(
            "add-one",
            Some(Type::from_bits(INTEGER_BIT)),
            1,
            1,
            &vec![Type::from_bits(INTEGER_BIT)],
        )
        .unwrap();
    assert_eq!(decl.arg_code, "l");
    env.confirm_udf(decl, 0).unwrap();

    // The engine invokes the function with the argument 41.
    let argument = decode(&RawValue::Integer(41)).unwrap();
    let result = match argument {
        ClipsValue::Integer(n) => ClipsValue::Integer(n + 1),
        other => panic!("expected an integer argument, got {:?}", other),
    };
    // The trampoline writes the closure's result back through the
    // bridge's encode path.
    let written = encode(&result);
    assert_eq!(decode(&written).unwrap(), ClipsValue::Integer(42));
}

// Clearing does not demand a fresh environment: the same handle loads
// new constructs afterwards, and the host-side registry survives.
#[test]
fn scenario_clear_then_load_again() {
    let mut env = create_environment(ENGINE).unwrap();
    env.load_from_str("(defrule first =>)", true).unwrap();
    let decl = env.add_udf("helper", None, 0, 0, &vec![]).unwrap();
    env.confirm_udf(decl, 0).unwrap();

    env.clear(true).unwrap();
    // The registry is deliberately not emptied by clear.
    assert!(env.lookup_udf("helper"));
    env.load_from_str("(defrule second =>)", true).unwrap();
    assert_eq!(env.raw(), ENGINE);
}

#[test]
fn removal_keeps_the_other_registrations_in_order() {
    let mut env = create_environment(ENGINE).unwrap();
    for name in ["first", "second", "third"] {
        let decl = env.add_udf(name, None, 0, 0, &vec![]).unwrap();
        env.confirm_udf(decl, 0).unwrap();
    }
    env.remove_udf("second", true).unwrap();
    assert_eq!(env.udf_count(), 2);
    assert_eq!(env.udf_at(0).name, "first");
    assert_eq!(env.udf_at(1).name, "third");
}

#[test]
fn error_wraps_its_kind() {
    let err = clips::ClipsError::from(ClipsErrorKind::ClearError);
    assert_eq!(err.kind, ClipsErrorKind::ClearError);
}

#[test]
fn callback_view_starts_with_an_empty_registry() {
    let env = Environment::from_ptr(ENGINE);
    assert_eq!(env.udf_count(), 0);
    assert!(!env.lookup_udf("anything"));
}
