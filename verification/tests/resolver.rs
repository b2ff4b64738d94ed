use restate_opendal::config::{ConfigMap, ProfileTable};
use restate_opendal::outcome::{classify, Outcome};
use restate_opendal::factory::{
    decide, resolve, ConstructionPlan, ConstructionSource, OperatorFactory, OperatorTransform,
    ResolveError, ResolveRefusal, SchemeRegistry,
};

fn profile(pairs: &[(&str, &str)]) -> ConfigMap {
    let mut m = ConfigMap::new();
    for (k, v) in pairs {
        m.set(k.to_string(), v.to_string());
    }
    m
}

fn profiles(entries: &[(&str, &[(&str, &str)])]) -> OperatorFactory {
    let mut t = ProfileTable::new();
    for (name, pairs) in entries {
        t.set(name.to_string(), profile(pairs));
    }
    OperatorFactory::Profiles(t)
}

fn registry(schemes: &[&str]) -> SchemeRegistry {
    let mut r = SchemeRegistry::new();
    for s in schemes {
        r.add(s.to_string());
    }
    r
}

#[test]
fn profile_with_memory_type_resolves_with_arbitrary_extra_config() {
    let f = profiles(&[(
        "data",
        &[("type", "memory"), ("whatever", "extra"), ("another", "key")],
    )]);
    let op = resolve(&f, "data://anything/at/all").expect("profile should resolve");
    assert_eq!(op.info().scheme(), "memory");
}

#[test]
fn profile_resolution_registers_mem_alias() {
    // A deployment can register extra scheme names; `mem` then constructs
    // the memory backend kind.
    opendal::OperatorRegistry::get().register::<opendal::services::Memory>("mem");
    let f = profiles(&[("p", &[("type", "mem"), ("extra", "1")])]);
    let op = resolve(&f, "p://x").expect("mem kind should resolve");
    assert_eq!(op.info().scheme(), "memory");
}

#[test]
fn profile_decision_strips_the_type_key() {
    let f = profiles(&[("data", &[("type", "memory"), ("root", "/r")])]);
    let plan: ConstructionPlan = decide(&f, "data://x").expect("should plan a construction");
    match plan.source {
        ConstructionSource::FromProfile { kind, config } => {
            assert_eq!(kind, "memory");
            assert!(config.get("type").is_none());
            assert_eq!(config.get("root").unwrap(), "/r");
        },
        ConstructionSource::FromUri(_) => panic!("expected a profile construction"),
    }
}

#[test]
fn unknown_profile_is_not_found() {
    let f = profiles(&[("data", &[("type", "memory")])]);
    match decide(&f, "other://x") {
        Err(ResolveRefusal::ProfileNotFound) => {},
        other => panic!("expected ProfileNotFound, got {:?}", other.is_ok()),
    }
}

#[test]
fn profile_without_type_is_missing_type() {
    let f = profiles(&[("data", &[("root", "/r")])]);
    match resolve(&f, "data://x") {
        Err(ResolveError::ProfileMissingType) => {},
        _ => panic!("expected ProfileMissingType"),
    }
}

#[test]
fn profile_with_unknown_kind_is_config_invalid() {
    let f = profiles(&[("data", &[("type", "no-such-backend-kind")])]);
    match resolve(&f, "data://x") {
        Err(ResolveError::ConfigInvalid { message }) => {
            assert!(!message.is_empty());
        },
        _ => panic!("expected ConfigInvalid"),
    }
}

#[test]
fn malformed_root_is_uri_invalid() {
    let f = profiles(&[("data", &[("type", "memory")])]);
    match resolve(&f, "data:/missing-slash") {
        Err(ResolveError::UriInvalid) => {},
        _ => panic!("expected UriInvalid"),
    }
}

#[test]
fn builtin_resolves_registered_schemes() {
    let f = OperatorFactory::builtin();
    let op = resolve(&f, "memory://host/").expect("memory is always registered");
    assert_eq!(op.info().scheme(), "memory");
}

#[test]
fn unmatched_chain_is_unsupported_scheme() {
    let f = OperatorFactory::Chain(vec![
        OperatorFactory::Registry(registry(&[])),
        profiles(&[("data", &[("type", "memory")])]),
    ]);
    match resolve(&f, "nobody://x") {
        Err(ResolveError::UnsupportedScheme) => {},
        _ => panic!("expected UnsupportedScheme"),
    }
}

#[test]
fn chain_falls_through_to_the_second_strategy() {
    // The first strategy does not know the scheme; the second does.
    let f = OperatorFactory::Chain(vec![
        OperatorFactory::Registry(registry(&["s3"])),
        profiles(&[("data", &[("type", "memory")])]),
    ]);
    let op = resolve(&f, "data://x").expect("second strategy should win");
    assert_eq!(op.info().scheme(), "memory");
}

#[test]
fn chain_aborts_on_a_real_error() {
    // The first strategy knows the profile but the profile is broken; the
    // chain must not fall through to the second strategy.
    let f = OperatorFactory::Chain(vec![
        profiles(&[("data", &[("root", "/r")])]),
        profiles(&[("data", &[("type", "memory")])]),
    ]);
    match resolve(&f, "data://x") {
        Err(ResolveError::ProfileMissingType) => {},
        _ => panic!("expected the chain to abort with ProfileMissingType"),
    }
}

#[test]
fn decorated_strategies_resolve_like_their_inner_strategy() {
    let inner = profiles(&[("data", &[("type", "memory")])]);
    let f = OperatorFactory::Custom(Box::new(inner), OperatorTransform::Logging);
    let op = resolve(&f, "data://x").expect("decoration must not change the decision");
    assert_eq!(op.info().scheme(), "memory");

    let inner = profiles(&[("data", &[("type", "memory")])]);
    let f = OperatorFactory::Custom(Box::new(inner), OperatorTransform::Logging);
    match resolve(&f, "other://x") {
        Err(ResolveError::ProfileNotFound) => {},
        _ => panic!("errors pass through decoration untouched"),
    }
}

#[test]
fn lambda_factory_applies_its_transform_after_resolution() {
    let inner = profiles(&[("data", &[("type", "memory")])]);
    let f = restate_opendal::factory::LambdaOperatorFactory::new(
        inner,
        OperatorTransform::Logging,
    );
    let op = f.load("data://x").expect("inner decision should succeed");
    assert_eq!(op.info().scheme(), "memory");
}

#[test]
fn explicit_registry_restricts_schemes() {
    let f = OperatorFactory::Registry(registry(&["memory"]));
    assert!(resolve(&f, "memory://h").is_ok());
    match resolve(&f, "http://example.com") {
        Err(ResolveError::UnsupportedScheme) => {},
        _ => panic!("http is not in the explicit registry"),
    }
}

#[test]
fn a_location_without_uri_form_is_invalid() {
    let f = profiles(&[("data", &[("type", "memory")])]);
    match restate_opendal::service::parse_location(&f, "just-a-path") {
        Err(ResolveError::InvalidLocation) => {},
        _ => panic!("expected InvalidLocation"),
    }
}

#[test]
fn resolution_errors_classify_permanently() {
    let cases: Vec<(ResolveError, u16)> = vec![
        (ResolveError::InvalidLocation, 500),
        (ResolveError::UnsupportedScheme, 501),
        (ResolveError::ProfileNotFound, 501),
        (ResolveError::ProfileMissingType, 500),
        (ResolveError::UriInvalid, 500),
        (ResolveError::ConfigInvalid { message: "bad".to_string() }, 400),
    ];
    for (error, expected) in cases {
        match classify(error.into_failure()) {
            Outcome::Permanent { code, .. } => assert_eq!(code, expected),
            Outcome::Retryable { .. } => panic!("resolution errors are never retryable"),
        }
    }
}
