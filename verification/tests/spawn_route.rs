use soulsystem::json::JsonValue;
use soulsystem::spawn::{
    brain_args, check_spawn_domain, choose_brain_port, spawn_domain, spawn_started_response,
    speciality_list, valid_domain, HealthAction, HealthCheck, SpawnArg, SpawnRefusal,
    BRAIN_INTERPRETER,
};

fn text(s: &str) -> JsonValue {
    JsonValue::Str(s.to_string())
}

fn object(fields: Vec<(&str, JsonValue)>) -> JsonValue {
    JsonValue::Object(fields.into_iter().map(|(k, v)| (k.to_string(), v)).collect())
}

fn argv(args: &[SpawnArg]) -> Vec<String> {
    args.iter()
        .map(|a| match a {
            SpawnArg::Flag(s) => s.clone(),
            SpawnArg::Value(s) => s.clone(),
        })
        .collect()
}

#[test]
fn a_domain_that_looks_like_a_flag_is_rejected() {
    assert!(!valid_domain("--config=/etc/shadow"));
    assert!(!valid_domain("-v"));
}

#[test]
fn ordinary_domains_are_accepted() {
    for d in ["science", "crypto_2", "meta-organ", "A1"] {
        assert!(valid_domain(d), "{d} should be valid");
    }
}

#[test]
fn shell_metacharacters_and_separators_are_rejected() {
    for d in ["a;rm -rf /", "a b", "a/../../etc", "a$(id)", "a\nb", "a\u{0}b"] {
        assert!(!valid_domain(d), "{d:?} should be rejected");
    }
}

#[test]
fn the_length_bound_holds_at_the_edges() {
    assert!(valid_domain(&"a".repeat(64)));
    assert!(!valid_domain(&"a".repeat(65)));
    assert!(!valid_domain(""));
}

#[test]
fn the_domain_is_marked_as_a_caller_supplied_value() {
    let args = brain_args("/brains", &"--malicious".to_string(), &vec![]);
    assert!(matches!(&args[2], SpawnArg::Value(d) if d == "--malicious"));
    assert!(matches!(&args[1], SpawnArg::Flag(f) if f == "--brain"));
}

#[test]
fn a_well_formed_spec_previews_as_exact_argv() {
    let args = brain_args("/brains", &"science".to_string(), &vec![]);
    let mut full = vec![BRAIN_INTERPRETER.to_string()];
    full.extend(argv(&args));
    assert_eq!(full, vec!["python3", "/brains/brain_v12.py", "--brain", "science"]);
}

#[test]
fn non_ascii_domains_are_rejected_even_when_short() {
    assert!(!valid_domain("caf\u{e9}"));
    assert!(!valid_domain(&"\u{e9}".repeat(40)));
}

#[test]
fn specialities_are_passed_as_values_after_their_flag() {
    let specialities = vec!["math".to_string(), "--evil".to_string()];
    let args = brain_args("/b", &"science".to_string(), &specialities);
    assert_eq!(
        argv(&args),
        vec!["/b/brain_v12.py", "--brain", "science", "--speciality", "math", "--speciality", "--evil"]
    );
    assert!(matches!(&args[6], SpawnArg::Value(_)));
    assert!(matches!(&args[5], SpawnArg::Flag(_)));
}

#[test]
fn the_first_free_port_is_chosen() {
    assert_eq!(choose_brain_port(&vec![]).ok(), Some(9016));
    assert_eq!(choose_brain_port(&vec![9016, 9017, 9019]).ok(), Some(9018));
    assert_eq!(choose_brain_port(&vec![9017]).ok(), Some(9016));
}

#[test]
fn the_live_brain_ceiling_is_enforced() {
    let used: Vec<u16> = (9016..9032).collect();
    assert!(matches!(choose_brain_port(&used), Err(SpawnRefusal::TooManyBrains)));
    let refusal = SpawnRefusal::TooManyBrains.message();
    assert_eq!(
        refusal,
        "limite de 16 brains atteinte \u{2014} arr\u{ea}ter un brain avant d'en lancer un autre"
    );
}

#[test]
fn refusals_are_answered_with_ok_false() {
    let r = SpawnRefusal::AlreadyExists("science".to_string()).response();
    match r {
        JsonValue::Object(fields) => {
            assert_eq!(fields[0].0, "ok");
            assert!(matches!(fields[0].1, JsonValue::Bool(false)));
            assert_eq!(fields[1].0, "error");
            assert!(matches!(&fields[1].1, JsonValue::Str(e) if e == "Brain 'science' existe d\u{e9}j\u{e0}"));
        }
        _ => panic!("not an object"),
    }
    assert_eq!(SpawnRefusal::MissingDomain.message(), "domain requis");
    assert_eq!(
        SpawnRefusal::SpawnRefused("no such file".to_string()).message(),
        "spawn refus\u{e9}: no such file"
    );
}

#[test]
fn the_domain_comes_from_the_body() {
    let body = object(vec![("domain", text("science"))]);
    assert_eq!(spawn_domain(&body), "science");
    assert_eq!(spawn_domain(&object(vec![("domain", JsonValue::Int(3))])), "");
    assert_eq!(spawn_domain(&JsonValue::Null), "");
    assert!(matches!(check_spawn_domain(&"".to_string()), Err(SpawnRefusal::MissingDomain)));
    assert!(matches!(check_spawn_domain(&"-x".to_string()), Err(SpawnRefusal::InvalidDomain)));
    assert!(check_spawn_domain(&"science".to_string()).is_ok());
}

#[test]
fn specialities_default_to_the_domain() {
    let d = "science".to_string();
    assert_eq!(speciality_list(&object(vec![]), &d), vec!["science"]);
    let body = object(vec![(
        "speciality",
        JsonValue::Array(vec![text("math"), JsonValue::Int(1), text("bio")]),
    )]);
    assert_eq!(speciality_list(&body, &d), vec!["math", "bio"]);
    let empty = object(vec![("speciality", JsonValue::Array(vec![]))]);
    assert!(speciality_list(&empty, &d).is_empty());
}

#[test]
fn the_started_answer_names_domain_and_port() {
    let r = spawn_started_response(&"science".to_string(), 9018);
    match r {
        JsonValue::Object(fields) => {
            let keys: Vec<&str> = fields.iter().map(|(k, _)| k.as_str()).collect();
            assert_eq!(keys, vec!["ok", "domain", "port", "msg", "check"]);
            assert!(matches!(fields[2].1, JsonValue::Int(9018)));
            assert!(matches!(&fields[3].1, JsonValue::Str(m) if m == "Spawn Brain-science en cours sur :9018"));
            assert!(matches!(&fields[4].1, JsonValue::Str(m) if m == "/api/mesh/status dans 30s"));
        }
        _ => panic!("not an object"),
    }
}

#[test]
fn a_brain_that_never_answers_is_stopped_after_six_probes() {
    let mut check = HealthCheck::new();
    for _ in 0..5 {
        assert_eq!(check.record_probe(false), HealthAction::ProbeAgain);
    }
    assert_eq!(check.record_probe(false), HealthAction::StopBrain);
    let mut fresh = HealthCheck::new();
    assert_eq!(fresh.record_probe(false), HealthAction::ProbeAgain);
    assert_eq!(fresh.record_probe(true), HealthAction::Healthy);
}

#[test]
fn every_refusal_has_its_text() {
    assert_eq!(
        SpawnRefusal::InvalidDomain.message(),
        "domain invalide: alphanum\u{e9}rique, '_' et '-' uniquement, 1-64 caract\u{e8}res, ne peut pas commencer par '-'"
    );
    assert_eq!(
        SpawnRefusal::NoFreePort.message(),
        "aucun port libre dans la plage 9016-9999"
    );
}

#[test]
fn an_existing_brain_is_reported_before_the_ceiling() {
    let full: Vec<u16> = (9016..9032).collect();
    let d = "science".to_string();
    assert!(matches!(
        soulsystem::spawn::decide_spawn(&d, true, &full),
        Err(SpawnRefusal::AlreadyExists(x)) if x == "science"
    ));
    assert!(matches!(
        soulsystem::spawn::decide_spawn(&d, false, &full),
        Err(SpawnRefusal::TooManyBrains)
    ));
    assert!(matches!(
        soulsystem::spawn::decide_spawn(&"-x".to_string(), true, &full),
        Err(SpawnRefusal::InvalidDomain)
    ));
    assert!(matches!(
        soulsystem::spawn::decide_spawn(&"".to_string(), true, &full),
        Err(SpawnRefusal::MissingDomain)
    ));
    assert_eq!(soulsystem::spawn::decide_spawn(&d, false, &vec![9016]).ok(), Some(9017));
}
