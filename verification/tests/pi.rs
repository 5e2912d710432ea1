use kaggle_tpu_companion::json::JsonValue;
use kaggle_tpu_companion::pi::{
    assess, assess_documents, auth_entry, build_provider, check_written, register_provider, validate_with_pi_cli,
    pi_cli_candidates, CliCandidate, CliStep, PiState, MODEL_ID, PROVIDER_ID,
};

fn s(t: &str) -> JsonValue {
    JsonValue::Str(t.to_string())
}

fn obj(members: Vec<(&str, JsonValue)>) -> JsonValue {
    JsonValue::Object(members.into_iter().map(|(k, v)| (k.to_string(), v)).collect())
}

fn at<'a>(v: &'a JsonValue, key: &str) -> &'a JsonValue {
    v.get(key).unwrap_or_else(|| panic!("no member {key}"))
}

fn text<'a>(v: &'a JsonValue) -> &'a str {
    v.as_str().expect("a string")
}

fn number(v: &JsonValue) -> &str {
    match v {
        JsonValue::Number(n) => n.as_str(),
        other => panic!("not a number: {other:?}"),
    }
}

#[test]
fn assess_states() {
    let models = r#"{"providers":{"kaggle-tpu":{"baseUrl":"https://a/v1"}}}"#.to_string();
    let auth = r#"{"kaggle-tpu":{"type":"api_key","key":"k"}}"#.to_string();
    assert_eq!(assess(&models, &auth, Some("https://a/v1")), PiState::Synced);
    assert_eq!(assess(&models, &auth, Some("https://b/v1")), PiState::Stale);
    assert_eq!(assess(&models, &auth, None), PiState::Synced);
    let no_auth = "{}".to_string();
    assert_eq!(assess(&models, &no_auth, None), PiState::NotConfigured);
    let no_prov = "{}".to_string();
    assert_eq!(assess(&no_prov, &auth, None), PiState::NotConfigured);
    assert_eq!(assess("bad json", &auth, None), PiState::NotConfigured);
}

#[test]
fn assess_documents_states() {
    let models = obj(vec![("providers", obj(vec![("kaggle-tpu", obj(vec![("baseUrl", s("https://a/v1"))]))]))]);
    let auth = obj(vec![("kaggle-tpu", obj(vec![("type", s("api_key")), ("key", s("k"))]))]);
    assert_eq!(assess_documents(Some(&models), Some(&auth), Some("https://a/v1")), PiState::Synced);
    assert_eq!(assess_documents(Some(&models), Some(&auth), Some("https://b/v1")), PiState::Stale);
    assert_eq!(assess_documents(None, Some(&auth), None), PiState::NotConfigured);
    let no_base = obj(vec![("providers", obj(vec![("kaggle-tpu", obj(vec![]))]))]);
    assert_eq!(assess_documents(Some(&no_base), Some(&auth), Some("")), PiState::Synced);
    assert_eq!(assess_documents(Some(&no_base), Some(&auth), Some("x")), PiState::Stale);
}

#[test]
fn provider_shape_matches_reference() {
    let p = build_provider("https://e/v1", 131072);
    assert_eq!(text(at(&p, "api")), "openai-completions");
    assert_eq!(text(at(at(&p, "compat"), "thinkingFormat")), "chat-template");
    assert_eq!(
        text(at(at(at(at(&p, "compat"), "chatTemplateKwargs"), "reasoning_effort"), "$var")),
        "thinking.effort"
    );
    let model = at(&p, "models").item(0).unwrap();
    assert_eq!(text(at(at(model, "thinkingLevelMap"), "max")), "xhigh");
    assert_eq!(number(at(model, "maxTokens")), "65536");
    assert_eq!(number(at(model, "contextWindow")), "131072");
    assert!(matches!(at(model, "reasoning"), JsonValue::Bool(true)));
}

#[test]
fn provider_carries_endpoint_model_id_and_window() {
    let p = build_provider("https://x.example/v1", 262144);
    assert_eq!(text(at(&p, "baseUrl")), "https://x.example/v1");
    assert_eq!(text(at(&p, "name")), "Kaggle TPU - Qwen3.8 27B");
    let model = at(&p, "models").item(0).unwrap();
    assert_eq!(text(at(model, "id")), MODEL_ID);
    assert_eq!(number(at(model, "contextWindow")), "262144");
    assert!(at(&p, "models").item(1).is_none());
    let a = auth_entry("sk-1");
    assert_eq!(text(at(&a, "type")), "api_key");
    assert_eq!(text(at(&a, "key")), "sk-1");
}

fn pi_documents() -> (JsonValue, JsonValue) {
    let models = obj(vec![(
        "providers",
        obj(vec![
            ("other-provider", obj(vec![("name", s("Keep me")), ("baseUrl", s("https://keep.example/v1"))])),
            ("kaggle-tpu", obj(vec![("name", s("Old")), ("baseUrl", s("https://old.example/v1"))])),
        ]),
    )]);
    let auth = obj(vec![
        ("other-auth", obj(vec![("type", s("api_key")), ("key", s("other-key"))])),
        ("kaggle-tpu", obj(vec![("type", s("api_key")), ("key", s("old-key"))])),
    ]);
    (models, auth)
}

#[test]
fn register_preserves_other_providers_and_updates_kaggle() {
    let (models, auth) = pi_documents();
    let (m, a) = register_provider(models, auth, "https://new.example/v1", 262144, "sk-newkey").unwrap();
    let providers = at(&m, "providers");
    assert_eq!(text(at(at(providers, "other-provider"), "baseUrl")), "https://keep.example/v1");
    assert_eq!(text(at(at(&a, "other-auth"), "key")), "other-key");
    let kaggle = at(providers, PROVIDER_ID);
    assert_eq!(text(at(kaggle, "baseUrl")), "https://new.example/v1");
    assert_eq!(text(at(kaggle.get("models").unwrap().item(0).unwrap(), "id")), MODEL_ID);
    assert_eq!(number(at(kaggle.get("models").unwrap().item(0).unwrap(), "contextWindow")), "262144");
    assert_eq!(text(at(at(&a, PROVIDER_ID), "key")), "sk-newkey");
    assert_eq!(check_written(&m, &a, "https://new.example/v1", "sk-newkey"), Ok(()));
    assert_eq!(assess_documents(Some(&m), Some(&a), Some("https://new.example/v1")), PiState::Synced);
}

#[test]
fn register_adds_providers_when_missing() {
    let (m, a) = register_provider(obj(vec![("other", s("x"))]), obj(vec![]), "https://n/v1", 131072, "k").unwrap();
    assert_eq!(text(at(&m, "other")), "x");
    assert_eq!(text(at(at(at(&m, "providers"), PROVIDER_ID), "baseUrl")), "https://n/v1");
    assert_eq!(text(at(at(&a, PROVIDER_ID), "key")), "k");
}

#[test]
fn register_refuses_documents_of_the_wrong_shape() {
    let e = register_provider(JsonValue::Array(vec![]), obj(vec![]), "https://n/v1", 1, "k").unwrap_err();
    assert_eq!(e, "models.json root is not an object");
    let e = register_provider(obj(vec![("providers", s("no"))]), obj(vec![]), "https://n/v1", 1, "k").unwrap_err();
    assert_eq!(e, "models.json 'providers' is not an object");
    let arr = JsonValue::Array(vec![JsonValue::Number("1".into()), JsonValue::Number("2".into())]);
    let e = register_provider(obj(vec![]), arr, "https://n/v1", 1, "k").unwrap_err();
    assert_eq!(e, "auth.json root is not an object");
}

#[test]
fn written_files_are_checked_in_order() {
    let (models, auth) = pi_documents();
    let (m, a) = register_provider(models, auth, "https://new.example/v1", 262144, "sk-newkey").unwrap();
    assert_eq!(
        check_written(&obj(vec![]), &a, "https://new.example/v1", "sk-newkey"),
        Err("provider kaggle-tpu missing after write".to_string())
    );
    assert_eq!(
        check_written(&m, &a, "https://other.example/v1", "sk-newkey"),
        Err("provider baseUrl mismatch after write".to_string())
    );
    let no_models = obj(vec![("providers", obj(vec![("kaggle-tpu", obj(vec![("baseUrl", s("https://e/v1"))]))]))]);
    assert_eq!(
        check_written(&no_models, &a, "https://e/v1", "sk-newkey"),
        Err("provider has no models after write".to_string())
    );
    let wrong_id = obj(vec![(
        "providers",
        obj(vec![(
            "kaggle-tpu",
            obj(vec![("baseUrl", s("https://e/v1")), ("models", JsonValue::Array(vec![obj(vec![("id", s("other"))])]))]),
        )]),
    )]);
    assert_eq!(check_written(&wrong_id, &a, "https://e/v1", "sk-newkey"), Err("model id mismatch after write".to_string()));
    assert_eq!(
        check_written(&m, &a, "https://new.example/v1", "sk-other"),
        Err("auth entry invalid after write".to_string())
    );
    let (m2, a2) = register_provider(obj(vec![]), obj(vec![]), "https://e/v1", 1, "").unwrap();
    assert_eq!(check_written(&m2, &a2, "https://e/v1", ""), Err("auth entry invalid after write".to_string()));
}

#[test]
fn pi_cli_validation_steps() {
    assert_eq!(validate_with_pi_cli(false, None, None), CliStep::Finish(Ok(false)));
    assert_eq!(
        validate_with_pi_cli(true, None, None),
        CliStep::Run(vec!["--list-models".to_string(), "kaggle-tpu".to_string()])
    );
    let listed = Some((true, "kaggle-tpu  qwen3.8-27b  262144".to_string()));
    assert_eq!(
        validate_with_pi_cli(true, listed.clone(), None),
        CliStep::Run(
            ["auth", "check", "--provider", "kaggle-tpu", "--json", "--no-refresh"].iter().map(|s| s.to_string()).collect()
        )
    );
    assert_eq!(validate_with_pi_cli(true, listed.clone(), Some((true, String::new()))), CliStep::Finish(Ok(true)));
    assert_eq!(
        validate_with_pi_cli(true, listed, Some((false, "{}".to_string()))),
        CliStep::Finish(Err("pi auth check failed for kaggle-tpu".to_string()))
    );
    let not_listed = Some((true, "kaggle-tpu  qwen3-27b".to_string()));
    assert_eq!(
        validate_with_pi_cli(true, not_listed, None),
        CliStep::Finish(Err("pi did not resolve kaggle-tpu/qwen3.8-27b".to_string()))
    );
    let failed = Some((false, "qwen3.8-27b".to_string()));
    assert_eq!(
        validate_with_pi_cli(true, failed, None),
        CliStep::Finish(Err("pi did not resolve kaggle-tpu/qwen3.8-27b".to_string()))
    );
}

#[test]
fn pi_cli_is_looked_for_in_order() {
    let c = |base: &str, parts: &[&str]| CliCandidate {
        base: base.to_string(),
        parts: parts.iter().map(|p| p.to_string()).collect(),
    };
    assert_eq!(
        pi_cli_candidates(Some("/opt/pi"), Some("C:\\AppData"), Some("/usr/bin:/bin"), false),
        vec![c("/opt/pi", &[]), c("/usr/bin", &["pi"]), c("/bin", &["pi"])]
    );
    assert_eq!(
        pi_cli_candidates(None, Some("C:\\AppData"), Some("C:\\x"), true),
        vec![c("C:\\AppData", &["npm", "pi.cmd"])]
    );
    assert_eq!(pi_cli_candidates(None, None, None, false), vec![]);
    assert_eq!(pi_cli_candidates(None, None, None, true), vec![]);
}
