use vstd::prelude::*;
use crate::json::{
    JsonModel, JsonValue, json_parse, lemma_member_numbers, lemma_with_member_numbers, numbers_ok, parse_json, first_key_at, lemma_first_key_unique, lemma_with_member_member,
    lemma_with_member_twice, member_of, model_items, model_members, new_items, new_members, owned,
    push_item, push_member, with_member,
};
use crate::text::{contains_text, occurs_in, opt_text, split_on, split_text, str_eq};

verus! {

/// Provider entry that the library owns in the Pi configuration.
pub const PROVIDER_ID: &'static str = "kaggle-tpu";
/// Model served by the provider.
pub const MODEL_ID: &'static str = "qwen3.8-27b";

/// State of the Pi integration, kept apart from the TPU session state.
#[derive(Debug, Clone, Copy, PartialEq, Eq, Structural)]
pub enum PiState {
    NotConfigured,
    Synced,
    /// Provider exists but points at a different endpoint than the live one.
    Stale,
    /// Last sync attempt failed (runtime flag, not derived from files).
    SyncFailed,
}

/// `std::path::PathBuf`, declared so that `PiFiles` can carry paths. Nothing
/// is claimed of it: proofs see a path as an opaque value.
#[verifier::external_type_specification]
#[verifier::external_body]
pub struct ExPathBuf(std::path::PathBuf);

/// The two Pi files that a sync rewrites.
#[derive(Debug)]
pub struct PiFiles {
    pub models: std::path::PathBuf,
    pub auth: std::path::PathBuf,
}

/// A JSON string holding the text.
pub open spec fn s_(t: &str) -> JsonModel {
    JsonModel::Str(t@)
}

/// The `compat` block of the provider.
pub open spec fn compat_model() -> JsonModel {
    JsonModel::Object(seq![
        ("supportsStore"@, JsonModel::Bool(false)),
        ("supportsDeveloperRole"@, JsonModel::Bool(false)),
        ("supportsReasoningEffort"@, JsonModel::Bool(false)),
        ("supportsUsageInStreaming"@, JsonModel::Bool(true)),
        ("maxTokensField"@, s_("max_tokens")),
        ("supportsStrictMode"@, JsonModel::Bool(false)),
        ("thinkingFormat"@, s_("chat-template")),
        ("chatTemplateKwargs"@, JsonModel::Object(seq![
            ("enable_thinking"@, JsonModel::Object(seq![("$var"@, s_("thinking.enabled"))])),
            ("reasoning_effort"@, JsonModel::Object(seq![
                ("$var"@, s_("thinking.effort")),
                ("omitWhenOff"@, JsonModel::Bool(true)),
            ])),
        ])),
    ])
}

/// The single model entry of the provider.
pub open spec fn model_entry_model(context_window: int) -> JsonModel {
    JsonModel::Object(seq![
        ("id"@, s_(MODEL_ID)),
        ("name"@, s_("Qwen3.8-27B (Kaggle TPU)")),
        ("reasoning"@, JsonModel::Bool(true)),
        ("thinkingLevelMap"@, JsonModel::Object(seq![
            ("minimal"@, s_("low")),
            ("low"@, s_("low")),
            ("medium"@, s_("medium")),
            ("high"@, s_("xhigh")),
            ("xhigh"@, s_("xhigh")),
            ("max"@, s_("xhigh")),
        ])),
        ("input"@, JsonModel::Array(seq![s_("text")])),
        ("contextWindow"@, JsonModel::Number(crate::text::decimal(context_window))),
        ("maxTokens"@, JsonModel::Number(crate::text::decimal(65536))),
    ])
}

/// The provider object registered under `PROVIDER_ID`.
pub open spec fn provider_model(endpoint: Seq<char>, context_window: int) -> JsonModel {
    JsonModel::Object(seq![
        ("name"@, s_("Kaggle TPU - Qwen3.8 27B")),
        ("baseUrl"@, JsonModel::Str(endpoint)),
        ("api"@, s_("openai-completions")),
        ("compat"@, compat_model()),
        ("models"@, JsonModel::Array(seq![model_entry_model(context_window)])),
    ])
}

/// The credentials entry registered under `PROVIDER_ID`.
pub open spec fn auth_entry_model(api_key: Seq<char>) -> JsonModel {
    JsonModel::Object(seq![("type"@, s_("api_key")), ("key"@, JsonModel::Str(api_key))])
}

fn compat() -> (r: JsonValue)
    ensures
        r.model() == compat_model(),
        numbers_ok(r.model()),
{
    let mut enable: Vec<(String, JsonValue)> = new_members();
    push_member(&mut enable, "$var", JsonValue::string("thinking.enabled"));
    assert(model_members(enable@) =~= seq![("$var"@, s_("thinking.enabled"))]);
    let mut effort: Vec<(String, JsonValue)> = new_members();
    push_member(&mut effort, "$var", JsonValue::string("thinking.effort"));
    push_member(&mut effort, "omitWhenOff", JsonValue::Bool(true));
    assert(model_members(effort@) =~= seq![("$var"@, s_("thinking.effort")), ("omitWhenOff"@, JsonModel::Bool(true))]);
    let mut kwargs: Vec<(String, JsonValue)> = new_members();
    push_member(&mut kwargs, "enable_thinking", JsonValue::Object(enable));
    push_member(&mut kwargs, "reasoning_effort", JsonValue::Object(effort));
    assert(model_members(kwargs@) =~= seq![
        ("enable_thinking"@, JsonModel::Object(seq![("$var"@, s_("thinking.enabled"))])),
        ("reasoning_effort"@, JsonModel::Object(seq![("$var"@, s_("thinking.effort")), ("omitWhenOff"@, JsonModel::Bool(true))])),
    ]);
    let mut c: Vec<(String, JsonValue)> = new_members();
    push_member(&mut c, "supportsStore", JsonValue::Bool(false));
    push_member(&mut c, "supportsDeveloperRole", JsonValue::Bool(false));
    push_member(&mut c, "supportsReasoningEffort", JsonValue::Bool(false));
    push_member(&mut c, "supportsUsageInStreaming", JsonValue::Bool(true));
    push_member(&mut c, "maxTokensField", JsonValue::string("max_tokens"));
    push_member(&mut c, "supportsStrictMode", JsonValue::Bool(false));
    push_member(&mut c, "thinkingFormat", JsonValue::string("chat-template"));
    push_member(&mut c, "chatTemplateKwargs", JsonValue::Object(kwargs));
    assert(model_members(c@) =~= compat_model()->0);
    JsonValue::Object(c)
}

fn model_entry(context_window: i64) -> (r: JsonValue)
    ensures
        r.model() == model_entry_model(context_window as int),
        numbers_ok(r.model()),
{
    let mut levels: Vec<(String, JsonValue)> = new_members();
    push_member(&mut levels, "minimal", JsonValue::string("low"));
    push_member(&mut levels, "low", JsonValue::string("low"));
    push_member(&mut levels, "medium", JsonValue::string("medium"));
    push_member(&mut levels, "high", JsonValue::string("xhigh"));
    push_member(&mut levels, "xhigh", JsonValue::string("xhigh"));
    push_member(&mut levels, "max", JsonValue::string("xhigh"));
    assert(model_members(levels@) =~= seq![
        ("minimal"@, s_("low")),
        ("low"@, s_("low")),
        ("medium"@, s_("medium")),
        ("high"@, s_("xhigh")),
        ("xhigh"@, s_("xhigh")),
        ("max"@, s_("xhigh")),
    ]);
    let mut input: Vec<JsonValue> = new_items();
    push_item(&mut input, JsonValue::string("text"));
    assert(model_items(input@) =~= seq![s_("text")]);
    let mut m: Vec<(String, JsonValue)> = new_members();
    push_member(&mut m, "id", JsonValue::string(MODEL_ID));
    push_member(&mut m, "name", JsonValue::string("Qwen3.8-27B (Kaggle TPU)"));
    push_member(&mut m, "reasoning", JsonValue::Bool(true));
    push_member(&mut m, "thinkingLevelMap", JsonValue::Object(levels));
    push_member(&mut m, "input", JsonValue::Array(input));
    push_member(&mut m, "contextWindow", JsonValue::integer(context_window));
    push_member(&mut m, "maxTokens", JsonValue::integer(65536));
    assert(model_members(m@) =~= model_entry_model(context_window as int)->0);
    JsonValue::Object(m)
}

/// The provider object registered under `PROVIDER_ID`: endpoint, OpenAI-style
/// completions API, chat-template thinking, and the one model with its window.
pub fn build_provider(endpoint: &str, context_window: i64) -> (r: JsonValue)
    ensures
        r.model() == provider_model(endpoint@, context_window as int),
        numbers_ok(r.model()),
{
    let mut models: Vec<JsonValue> = new_items();
    push_item(&mut models, model_entry(context_window));
    assert(model_items(models@) =~= seq![model_entry_model(context_window as int)]);
    let mut p: Vec<(String, JsonValue)> = new_members();
    push_member(&mut p, "name", JsonValue::string("Kaggle TPU - Qwen3.8 27B"));
    push_member(&mut p, "baseUrl", JsonValue::string(endpoint));
    push_member(&mut p, "api", JsonValue::string("openai-completions"));
    push_member(&mut p, "compat", compat());
    push_member(&mut p, "models", JsonValue::Array(models));
    assert(model_members(p@) =~= provider_model(endpoint@, context_window as int)->0);
    JsonValue::Object(p)
}

/// The credentials entry for the provider.
pub fn auth_entry(api_key: &str) -> (r: JsonValue)
    ensures
        r.model() == auth_entry_model(api_key@),
        numbers_ok(r.model()),
{
    let mut a: Vec<(String, JsonValue)> = new_members();
    push_member(&mut a, "type", JsonValue::string("api_key"));
    push_member(&mut a, "key", JsonValue::string(api_key));
    assert(model_members(a@) =~= auth_entry_model(api_key@)->0);
    JsonValue::Object(a)
}

/// The model of an optional document.
pub open spec fn opt_model(v: Option<&JsonValue>) -> Option<JsonModel> {
    match v {
        Some(j) => Some(j.model()),
        None => None,
    }
}

/// The provider registered in a models document (`providers.kaggle-tpu`).
pub open spec fn provider_of(models: JsonModel) -> Option<JsonModel> {
    match models.member("providers"@) {
        Some(p) => p.member(PROVIDER_ID@),
        None => None,
    }
}

/// The text of the member `key`, if it is a string.
pub open spec fn text_member(v: JsonModel, key: Seq<char>) -> Option<Seq<char>> {
    match v.member(key) {
        Some(x) => x.text(),
        None => None,
    }
}

/// The provider's `baseUrl` text, or the empty text where it has none.
pub open spec fn base_url_of(provider: JsonModel) -> Seq<char> {
    match text_member(provider, "baseUrl"@) {
        Some(t) => t,
        None => Seq::empty(),
    }
}

/// Read-only assessment of the Pi files against the live endpoint: a document
/// that did not parse is `None`.
pub open spec fn assessment(
    models: Option<JsonModel>,
    auth: Option<JsonModel>,
    current: Option<Seq<char>>,
) -> PiState {
    match (models, auth) {
        (Some(m), Some(a)) => match provider_of(m) {
            None => PiState::NotConfigured,
            Some(p) => if a.member(PROVIDER_ID@) is None {
                PiState::NotConfigured
            } else {
                match current {
                    Some(cur) => if base_url_of(p) != cur { PiState::Stale } else { PiState::Synced },
                    None => PiState::Synced,
                }
            },
        },
        _ => PiState::NotConfigured,
    }
}

/// Assessment of parsed files: `models` and `auth` are the documents, `None`
/// where a file is not valid JSON.
pub fn assess_documents(models: Option<&JsonValue>, auth: Option<&JsonValue>, current_endpoint: Option<&str>) -> (r: PiState)
    ensures
        r == assessment(opt_model(models), opt_model(auth), opt_text(current_endpoint)),
{
    let (m, a) = match (models, auth) {
        (Some(m), Some(a)) => (m, a),
        _ => return PiState::NotConfigured,
    };
    let provider = match m.get("providers") {
        Some(p) => p.get(PROVIDER_ID),
        None => None,
    };
    let p = match provider {
        Some(p) => p,
        None => return PiState::NotConfigured,
    };
    if a.get(PROVIDER_ID).is_none() {
        return PiState::NotConfigured;
    }
    if let Some(cur) = current_endpoint {
        let same = match text_of(p, "baseUrl") {
            Some(b) => str_eq(b, cur),
            None => {
                assert(cur@.len() == 0 ==> cur@ =~= Seq::<char>::empty());
                cur.is_empty()
            },
        };
        if !same {
            return PiState::Stale;
        }
    }
    PiState::Synced
}

/// Read-only assessment used by the UI (TPU and Pi states are separate), from
/// the texts of `models.json` and `auth.json`.
pub fn assess(models_raw: &str, auth_raw: &str, current_endpoint: Option<&str>) -> (r: PiState)
    ensures
        r == assessment(json_parse(models_raw@), json_parse(auth_raw@), opt_text(current_endpoint)),
{
    let models = match parse_json(models_raw) {
        Ok(m) => m,
        Err(_) => return PiState::NotConfigured,
    };
    let auth = match parse_json(auth_raw) {
        Ok(a) => a,
        Err(_) => return PiState::NotConfigured,
    };
    assess_documents(Some(&models), Some(&auth), current_endpoint)
}

/// The two documents after the provider and its credentials are registered,
/// or the reason they cannot be: every other provider and credential is kept.
pub open spec fn registered(
    models: JsonModel,
    auth: JsonModel,
    endpoint: Seq<char>,
    context_window: int,
    api_key: Seq<char>,
) -> Result<(JsonModel, JsonModel), Seq<char>> {
    match models {
        JsonModel::Object(ms) => {
            let providers = match member_of(ms, "providers"@) {
                Some(p) => p,
                None => JsonModel::Object(Seq::empty()),
            };
            match providers {
                JsonModel::Object(ps) => match auth {
                    JsonModel::Object(entries) => Ok((
                        JsonModel::Object(with_member(ms, "providers"@, JsonModel::Object(
                            with_member(ps, PROVIDER_ID@, provider_model(endpoint, context_window)),
                        ))),
                        JsonModel::Object(with_member(entries, PROVIDER_ID@, auth_entry_model(api_key))),
                    )),
                    _ => Err("auth.json root is not an object"@),
                },
                _ => Err("models.json 'providers' is not an object"@),
            }
        },
        _ => Err("models.json root is not an object"@),
    }
}

/// Replaces only the `kaggle-tpu` entries of the two documents; everything else
/// is preserved.
pub fn register_provider(
    models: JsonValue,
    auth: JsonValue,
    endpoint: &str,
    context_window: i64,
    api_key: &str,
) -> (r: Result<(JsonValue, JsonValue), String>)
    ensures
        match r {
            Ok((m, a)) => registered(models.model(), auth.model(), endpoint@, context_window as int, api_key@)
                == Ok::<(JsonModel, JsonModel), Seq<char>>((m.model(), a.model())),
            Err(e) => registered(models.model(), auth.model(), endpoint@, context_window as int, api_key@)
                == Err::<(JsonModel, JsonModel), Seq<char>>(e@),
        },
        numbers_ok(models.model()) && numbers_ok(auth.model()) ==> (r matches Ok((m, a))
            ==> numbers_ok(m.model()) && numbers_ok(a.model())),
{
    if !models.is_object() {
        return Err(owned("models.json root is not an object"));
    }
    let ghost ms = models.model()->0;
    let (models1, old) = models.replace_member("providers", JsonValue::Null);
    let providers = match old {
        Some(p) => p,
        None => JsonValue::Object(new_members()),
    };
    if !providers.is_object() {
        return Err(owned("models.json 'providers' is not an object"));
    }
    let provider = build_provider(endpoint, context_window);
    let ghost pm = provider.model();
    let ghost ps = providers.model()->0;
    let providers2 = providers.with_member(PROVIDER_ID, provider);
    if !auth.is_object() {
        return Err(owned("auth.json root is not an object"));
    }
    proof {
        lemma_with_member_twice(ms, "providers"@, JsonModel::Null, providers2.model());
    }
    let ghost p2 = providers2.model();
    let models2 = models1.with_member("providers", providers2);
    let entry = auth_entry(api_key);
    let ghost em = entry.model();
    let ghost es = auth.model()->0;
    let auth2 = auth.with_member(PROVIDER_ID, entry);
    proof {
        if numbers_ok(models.model()) && numbers_ok(auth.model()) {
            lemma_member_numbers(ms, "providers"@);
            lemma_with_member_numbers(ps, PROVIDER_ID@, pm);
            lemma_with_member_numbers(ms, "providers"@, p2);
            lemma_with_member_numbers(es, PROVIDER_ID@, em);
        }
    }
    Ok((models2, auth2))
}

/// What is wrong with the documents read back after a write, if anything.
pub open spec fn written_error(
    models: JsonModel,
    auth: JsonModel,
    endpoint: Seq<char>,
    api_key: Seq<char>,
) -> Option<Seq<char>> {
    match provider_of(models) {
        None => Some("provider kaggle-tpu missing after write"@),
        Some(p) => if text_member(p, "baseUrl"@) != Some(endpoint) {
            Some("provider baseUrl mismatch after write"@)
        } else {
            match match p.member("models"@) {
                Some(list) => list.item(0),
                None => None,
            } {
                None => Some("provider has no models after write"@),
                Some(model) => if text_member(model, "id"@) != Some(MODEL_ID@) {
                    Some("model id mismatch after write"@)
                } else if !key_ok(auth, api_key) {
                    Some("auth entry invalid after write"@)
                } else {
                    None
                },
            }
        },
    }
}

/// The credentials entry holds the expected, non-empty key.
pub open spec fn key_ok(auth: JsonModel, api_key: Seq<char>) -> bool {
    match auth.member(PROVIDER_ID@) {
        Some(entry) => match text_member(entry, "key"@) {
            Some(k) => k == api_key && k.len() > 0,
            None => false,
        },
        None => false,
    }
}

fn text_of<'a>(v: &'a JsonValue, key: &str) -> (r: Option<&'a str>)
    ensures
        match r {
            Some(t) => text_member(v.model(), key@) == Some(t@),
            None => text_member(v.model(), key@) is None,
        },
{
    match v.get(key) {
        Some(x) => x.as_str(),
        None => None,
    }
}

/// Validates the provider and credentials read back after a write.
pub fn check_written(models: &JsonValue, auth: &JsonValue, endpoint: &str, api_key: &str) -> (r: Result<(), String>)
    ensures
        match r {
            Ok(()) => written_error(models.model(), auth.model(), endpoint@, api_key@) is None,
            Err(e) => written_error(models.model(), auth.model(), endpoint@, api_key@) == Some(e@),
        },
{
    let provider = match models.get("providers") {
        Some(p) => p.get(PROVIDER_ID),
        None => None,
    };
    let provider = match provider {
        Some(p) => p,
        None => return Err(owned("provider kaggle-tpu missing after write")),
    };
    let base_ok = match text_of(provider, "baseUrl") {
        Some(b) => str_eq(b, endpoint),
        None => false,
    };
    if !base_ok {
        return Err(owned("provider baseUrl mismatch after write"));
    }
    let model = match provider.get("models") {
        Some(list) => list.item(0),
        None => None,
    };
    let model = match model {
        Some(m) => m,
        None => return Err(owned("provider has no models after write")),
    };
    let id_ok = match text_of(model, "id") {
        Some(id) => str_eq(id, MODEL_ID),
        None => false,
    };
    if !id_ok {
        return Err(owned("model id mismatch after write"));
    }
    let key_good = match auth.get(PROVIDER_ID) {
        Some(entry) => match text_of(entry, "key") {
            Some(k) => str_eq(k, api_key) && !k.is_empty(),
            None => false,
        },
        None => false,
    };
    if !key_good {
        return Err(owned("auth entry invalid after write"));
    }
    Ok(())
}

/// Arguments of the `pi` call that lists the provider's models.
pub open spec fn list_models_args() -> Seq<Seq<char>> {
    seq!["--list-models"@, PROVIDER_ID@]
}

/// Arguments of the `pi` call that checks the provider's credentials.
pub open spec fn auth_check_args() -> Seq<Seq<char>> {
    seq!["auth"@, "check"@, "--provider"@, PROVIDER_ID@, "--json"@, "--no-refresh"@]
}

/// The texts of a list of strings.
pub open spec fn texts(v: Seq<String>) -> Seq<Seq<char>> {
    v.map_values(|s: String| s@)
}

/// Next move of the external validation through the `pi` CLI.
#[derive(Debug, PartialEq)]
pub enum CliStep {
    /// Run `pi` with these arguments and report (exit status 0, output).
    Run(Vec<String>),
    /// The validation is over: `Ok(true)` when the CLI confirmed, `Ok(false)`
    /// when the CLI is not available (file-level validation already passed),
    /// `Err(message)` on a real failure.
    Finish(Result<bool, String>),
}

fn args_of(a: &[&str]) -> (r: Vec<String>)
    ensures
        r@.len() == a@.len(),
        forall|i: int| 0 <= i < a@.len() ==> #[trigger] r@[i]@ == a@[i]@,
{
    let mut r: Vec<String> = Vec::new();
    let mut i: usize = 0;
    while i < a.len()
        invariant
            i <= a@.len(),
            r@.len() == i,
            forall|j: int| 0 <= j < i ==> #[trigger] r@[j]@ == a@[j]@,
        decreases a@.len() - i,
    {
        r.push(owned(a[i]));
        i += 1;
    }
    r
}

/// Optional external validation through the `pi` CLI. `cli_found` says whether the CLI was found; `list_models` and
/// `auth_check` are the outcomes (exit status 0, output) of the calls made so
/// far. The result is the next call to make, or the verdict.
pub fn validate_with_pi_cli(
    cli_found: bool,
    list_models: Option<(bool, String)>,
    auth_check: Option<(bool, String)>,
) -> (r: CliStep)
    ensures
        if !cli_found {
            r == CliStep::Finish(Ok(false))
        } else {
            match list_models {
                None => r matches CliStep::Run(args) && texts(args@) == list_models_args(),
                Some((ok, out)) => if !(ok && occurs_in(MODEL_ID@, out@)) {
                    r matches CliStep::Finish(Err(m)) && m@ == "pi did not resolve kaggle-tpu/qwen3.8-27b"@
                } else {
                    match auth_check {
                        None => r matches CliStep::Run(args) && texts(args@) == auth_check_args(),
                        Some((true, _)) => r == CliStep::Finish(Ok(true)),
                        Some((false, _)) => r matches CliStep::Finish(Err(m)) && m@ == "pi auth check failed for kaggle-tpu"@,
                    }
                },
            }
        },
{
    if !cli_found {
        return CliStep::Finish(Ok(false));
    }
    let (listed, out) = match list_models {
        None => {
            let args = args_of(&["--list-models", PROVIDER_ID]);
            assert(texts(args@) =~= list_models_args());
            return CliStep::Run(args);
        },
        Some(o) => o,
    };
    if !listed || !contains_text(out.as_str(), MODEL_ID) {
        return CliStep::Finish(Err(owned("pi did not resolve kaggle-tpu/qwen3.8-27b")));
    }
    match auth_check {
        None => {
            let args = args_of(&["auth", "check", "--provider", PROVIDER_ID, "--json", "--no-refresh"]);
            assert(texts(args@) =~= auth_check_args());
            CliStep::Run(args)
        },
        Some((true, _)) => CliStep::Finish(Ok(true)),
        Some((false, _)) => CliStep::Finish(Err(owned("pi auth check failed for kaggle-tpu"))),
    }
}

/// A place where the `pi` CLI may be: a base path with components joined
/// under it (`base.join(parts[0]).join(parts[1])..`).
#[derive(Debug, PartialEq)]
pub struct CliCandidate {
    pub base: String,
    pub parts: Vec<String>,
}

impl CliCandidate {
    pub open spec fn model(self) -> (Seq<char>, Seq<Seq<char>>) {
        (self.base@, texts(self.parts@))
    }
}

/// Where the CLI is looked for, in order: `PI_BIN` as given; on Windows the
/// npm shim `%APPDATA%\npm\pi.cmd`; elsewhere `pi` in each directory of `PATH`.
pub open spec fn cli_candidates(
    pi_bin: Option<Seq<char>>,
    appdata: Option<Seq<char>>,
    search_path: Option<Seq<char>>,
    windows: bool,
) -> Seq<(Seq<char>, Seq<Seq<char>>)> {
    let first = match pi_bin {
        Some(b) => seq![(b, Seq::<Seq<char>>::empty())],
        None => Seq::empty(),
    };
    let rest = if windows {
        match appdata {
            Some(a) => seq![(a, seq!["npm"@, "pi.cmd"@])],
            None => Seq::empty(),
        }
    } else {
        match search_path {
            Some(p) => split_on(p, ':').map_values(|d: Seq<char>| (d, seq!["pi"@])),
            None => Seq::empty(),
        }
    };
    first + rest
}

/// The places to look for the `pi` CLI, in the order they are tried; the
/// first that exists is the CLI. `pi_bin`, `appdata` and `search_path` are
/// the values of `PI_BIN`, `APPDATA` and `PATH`, where set.
pub fn pi_cli_candidates(
    pi_bin: Option<&str>,
    appdata: Option<&str>,
    search_path: Option<&str>,
    windows: bool,
) -> (r: Vec<CliCandidate>)
    ensures
        r@.map_values(|c: CliCandidate| c.model())
            == cli_candidates(opt_text(pi_bin), opt_text(appdata), opt_text(search_path), windows),
{
    let mut r: Vec<CliCandidate> = Vec::new();
    if let Some(b) = pi_bin {
        r.push(CliCandidate { base: owned(b), parts: Vec::new() });
        assert(texts(r@[0].parts@) =~= Seq::<Seq<char>>::empty());
    }
    let ghost first = r@.map_values(|c: CliCandidate| c.model());
    assert(first =~= match opt_text(pi_bin) {
        Some(b) => seq![(b, Seq::<Seq<char>>::empty())],
        None => Seq::<(Seq<char>, Seq<Seq<char>>)>::empty(),
    });
    if windows {
        if let Some(a) = appdata {
            let parts = args_of(&["npm", "pi.cmd"]);
            assert(texts(parts@) =~= seq!["npm"@, "pi.cmd"@]);
            r.push(CliCandidate { base: owned(a), parts });
        }
        assert(r@.map_values(|c: CliCandidate| c.model())
            =~= cli_candidates(opt_text(pi_bin), opt_text(appdata), opt_text(search_path), windows));
    } else if let Some(p) = search_path {
        let dirs = split_text(p, ':');
        let ghost want = split_on(p@, ':').map_values(|d: Seq<char>| (d, seq!["pi"@]));
        let mut i: usize = 0;
        while i < dirs.len()
            invariant
                dirs@.map_values(|d: String| d@) == split_on(p@, ':'),
                want == split_on(p@, ':').map_values(|d: Seq<char>| (d, seq!["pi"@])),
                i <= dirs.len(),
                r@.map_values(|c: CliCandidate| c.model()) == first + want.take(i as int),
            decreases dirs.len() - i,
        {
            let parts = args_of(&["pi"]);
            assert(texts(parts@) =~= seq!["pi"@]);
            let ghost before = r@;
            r.push(CliCandidate { base: owned(dirs[i].as_str()), parts });
            assert(dirs@.map_values(|d: String| d@)[i as int] == dirs@[i as int]@);
            let ghost n = before.len() as int;
            assert(r@.map_values(|c: CliCandidate| c.model()) =~= before.map_values(|c: CliCandidate| c.model()).push(r@[n].model()));
            assert(r@[n].model() == want[i as int]);
            assert(want.take(i + 1) =~= want.take(i as int).push(want[i as int]));
            assert(r@.map_values(|c: CliCandidate| c.model()) =~= first + want.take(i + 1));
            i += 1;
        }
        assert(want.take(dirs.len() as int) =~= want);
    } else {
        assert(r@.map_values(|c: CliCandidate| c.model())
            =~= cli_candidates(opt_text(pi_bin), opt_text(appdata), opt_text(search_path), windows));
    }
    r
}

proof fn lemma_provider_fields(endpoint: Seq<char>, context_window: int)
    ensures
        text_member(provider_model(endpoint, context_window), "baseUrl"@) == Some(endpoint),
        provider_model(endpoint, context_window).member("models"@)
            == Some(JsonModel::Array(seq![model_entry_model(context_window)])),
        text_member(model_entry_model(context_window), "id"@) == Some(MODEL_ID@),
{
    reveal_strlit("name");
    reveal_strlit("baseUrl");
    reveal_strlit("api");
    reveal_strlit("compat");
    reveal_strlit("models");
    reveal_strlit("id");
    let ms = provider_model(endpoint, context_window)->0;
    assert("name"@[0] != "baseUrl"@[0]);
    assert(first_key_at(ms, "baseUrl"@, 1));
    lemma_first_key_unique(ms, "baseUrl"@, 1);
    assert("compat"@[0] != "models"@[0]);
    assert(first_key_at(ms, "models"@, 4));
    lemma_first_key_unique(ms, "models"@, 4);
    let es = model_entry_model(context_window)->0;
    assert(first_key_at(es, "id"@, 0));
    lemma_first_key_unique(es, "id"@, 0);
}

proof fn lemma_auth_entry_key(api_key: Seq<char>)
    ensures
        text_member(auth_entry_model(api_key), "key"@) == Some(api_key),
{
    reveal_strlit("type");
    reveal_strlit("key");
    let es = auth_entry_model(api_key)->0;
    assert("type"@[0] != "key"@[0]);
    assert(first_key_at(es, "key"@, 1));
    lemma_first_key_unique(es, "key"@, 1);
}

/// The providers object of a models document that `registered` accepts,
/// with an absent one read as empty.
pub open spec fn providers_or_empty(models: JsonModel) -> JsonModel {
    match models.member("providers"@) {
        Some(p) => p,
        None => JsonModel::Object(Seq::empty()),
    }
}

/// Registering the provider changes only the `kaggle-tpu` entries: every other
/// member of the models root, every other provider and every other credential
/// is read back as it was; the `kaggle-tpu` entries are the provider and the
/// credentials built for the endpoint, window and key.
pub proof fn lemma_register_preserves_others(
    models: JsonModel,
    auth: JsonModel,
    endpoint: Seq<char>,
    context_window: int,
    api_key: Seq<char>,
)
    requires
        registered(models, auth, endpoint, context_window, api_key) is Ok,
    ensures
        ({
            let (m2, a2) = registered(models, auth, endpoint, context_window, api_key)->Ok_0;
            &&& forall|k: Seq<char>| k != "providers"@ ==> #[trigger] m2.member(k) == models.member(k)
            &&& forall|k: Seq<char>| k != PROVIDER_ID@ ==> #[trigger] providers_or_empty(m2).member(k)
                == providers_or_empty(models).member(k)
            &&& providers_or_empty(m2).member(PROVIDER_ID@) == Some(provider_model(endpoint, context_window))
            &&& forall|k: Seq<char>| k != PROVIDER_ID@ ==> #[trigger] a2.member(k) == auth.member(k)
            &&& a2.member(PROVIDER_ID@) == Some(auth_entry_model(api_key))
        }),
{
    let (m2, a2) = registered(models, auth, endpoint, context_window, api_key)->Ok_0;
    let ms = models->Object_0;
    let ps = providers_or_empty(models)->Object_0;
    let es = auth->Object_0;
    let p2 = with_member(ps, PROVIDER_ID@, provider_model(endpoint, context_window));
    assert forall|k: Seq<char>| k != "providers"@ implies #[trigger] m2.member(k) == models.member(k) by {
        lemma_with_member_member(ms, "providers"@, JsonModel::Object(p2), k);
    }
    lemma_with_member_member(ms, "providers"@, JsonModel::Object(p2), "providers"@);
    assert(providers_or_empty(m2) == JsonModel::Object(p2));
    assert forall|k: Seq<char>| k != PROVIDER_ID@ implies #[trigger] providers_or_empty(m2).member(k)
        == providers_or_empty(models).member(k) by {
        lemma_with_member_member(ps, PROVIDER_ID@, provider_model(endpoint, context_window), k);
    }
    lemma_with_member_member(ps, PROVIDER_ID@, provider_model(endpoint, context_window), PROVIDER_ID@);
    assert forall|k: Seq<char>| k != PROVIDER_ID@ implies #[trigger] a2.member(k) == auth.member(k) by {
        lemma_with_member_member(es, PROVIDER_ID@, auth_entry_model(api_key), k);
    }
    lemma_with_member_member(es, PROVIDER_ID@, auth_entry_model(api_key), PROVIDER_ID@);
}

/// A read of what a sync wrote gives back what it wrote: documents produced by
/// registering the provider are assessed as synced with the endpoint they were
/// built for.
pub proof fn lemma_registered_is_synced(
    models: JsonModel,
    auth: JsonModel,
    endpoint: Seq<char>,
    context_window: int,
    api_key: Seq<char>,
)
    requires
        registered(models, auth, endpoint, context_window, api_key) is Ok,
    ensures
        ({
            let (m2, a2) = registered(models, auth, endpoint, context_window, api_key)->Ok_0;
            assessment(Some(m2), Some(a2), Some(endpoint)) == PiState::Synced
        }),
{
    lemma_register_preserves_others(models, auth, endpoint, context_window, api_key);
    lemma_provider_fields(endpoint, context_window);
}

/// Documents produced by registering the provider pass the check made on the
/// files read back after the write, whenever the key is not empty.
pub proof fn lemma_registered_passes_check(
    models: JsonModel,
    auth: JsonModel,
    endpoint: Seq<char>,
    context_window: int,
    api_key: Seq<char>,
)
    requires
        registered(models, auth, endpoint, context_window, api_key) is Ok,
        api_key.len() > 0,
    ensures
        ({
            let (m2, a2) = registered(models, auth, endpoint, context_window, api_key)->Ok_0;
            written_error(m2, a2, endpoint, api_key) is None
        }),
{
    lemma_register_preserves_others(models, auth, endpoint, context_window, api_key);
    lemma_provider_fields(endpoint, context_window);
    lemma_auth_entry_key(api_key);
}

/// Files that pass the check made after a write are assessed as synced with
/// the endpoint they were checked against.
pub proof fn lemma_checked_is_synced(models: JsonModel, auth: JsonModel, endpoint: Seq<char>, api_key: Seq<char>)
    requires
        written_error(models, auth, endpoint, api_key) is None,
    ensures
        assessment(Some(models), Some(auth), Some(endpoint)) == PiState::Synced,
{
}

/// Registering again what a registration produced, with the same endpoint,
/// window and key, gives the same documents back.
pub proof fn lemma_register_idempotent(
    models: JsonModel,
    auth: JsonModel,
    endpoint: Seq<char>,
    context_window: int,
    api_key: Seq<char>,
)
    requires
        registered(models, auth, endpoint, context_window, api_key) is Ok,
    ensures
        ({
            let (m2, a2) = registered(models, auth, endpoint, context_window, api_key)->Ok_0;
            registered(m2, a2, endpoint, context_window, api_key) == Ok::<(JsonModel, JsonModel), Seq<char>>((m2, a2))
        }),
{
    let ms = models->Object_0;
    let ps = providers_or_empty(models)->Object_0;
    let es = auth->Object_0;
    let p = provider_model(endpoint, context_window);
    let p2 = with_member(ps, PROVIDER_ID@, p);
    let ms2 = with_member(ms, "providers"@, JsonModel::Object(p2));
    let es2 = with_member(es, PROVIDER_ID@, auth_entry_model(api_key));
    lemma_with_member_member(ms, "providers"@, JsonModel::Object(p2), "providers"@);
    lemma_with_member_twice(ps, PROVIDER_ID@, p, p);
    lemma_with_member_twice(ms, "providers"@, JsonModel::Object(p2), JsonModel::Object(p2));
    lemma_with_member_twice(es, PROVIDER_ID@, auth_entry_model(api_key), auth_entry_model(api_key));
    assert(member_of(ms2, "providers"@) == Some(JsonModel::Object(p2)));
}

/// The Pi integration counts as configured only when both files parse, the
/// models document holds `providers.kaggle-tpu` and the auth document holds a
/// `kaggle-tpu` entry, whatever else either holds; a configured integration is
/// `Stale` exactly when a live endpoint is known and differs from the
/// provider's `baseUrl`, and `Synced` otherwise.
pub proof fn lemma_assessment_needs_both_entries(
    models: Option<JsonModel>,
    auth: Option<JsonModel>,
    current: Option<Seq<char>>,
)
    ensures
        (auth matches Some(a) && a.member(PROVIDER_ID@) is None) ==> assessment(models, auth, current) == PiState::NotConfigured,
        (models matches Some(m) && provider_of(m) is None) ==> assessment(models, auth, current) == PiState::NotConfigured,
        (models is None || auth is None) ==> assessment(models, auth, current) == PiState::NotConfigured,
        (models matches Some(m) && auth matches Some(a) && provider_of(m) is Some
            && a.member(PROVIDER_ID@) is Some) ==> assessment(models, auth, current) == (match current {
                Some(cur) => if base_url_of(provider_of(models->Some_0)->Some_0) == cur {
                    PiState::Synced
                } else {
                    PiState::Stale
                },
                None => PiState::Synced,
            }),
        assessment(models, auth, current) == PiState::Synced ==> (auth matches Some(a) && a.member(PROVIDER_ID@) is Some),
{
}

/// The provider's single model maps Pi's thinking levels onto the server's
/// reasoning efforts: minimal and low to low, medium to medium, and high,
/// xhigh and max to xhigh.
pub proof fn lemma_provider_thinking_levels(endpoint: Seq<char>, context_window: int)
    ensures
        provider_model(endpoint, context_window).member("models"@) matches Some(list)
            && list.item(0) matches Some(model)
            && model.member("thinkingLevelMap"@) matches Some(levels)
            && levels.member("minimal"@) == Some(JsonModel::Str("low"@))
            && levels.member("low"@) == Some(JsonModel::Str("low"@))
            && levels.member("medium"@) == Some(JsonModel::Str("medium"@))
            && levels.member("high"@) == Some(JsonModel::Str("xhigh"@))
            && levels.member("xhigh"@) == Some(JsonModel::Str("xhigh"@))
            && levels.member("max"@) == Some(JsonModel::Str("xhigh"@)),
{
    lemma_provider_fields(endpoint, context_window);
    reveal_strlit("id");
    reveal_strlit("name");
    reveal_strlit("reasoning");
    reveal_strlit("thinkingLevelMap");
    reveal_strlit("minimal");
    reveal_strlit("low");
    reveal_strlit("medium");
    reveal_strlit("high");
    reveal_strlit("xhigh");
    reveal_strlit("max");
    let es = model_entry_model(context_window)->0;
    assert("id"@.len() == 2 && "name"@.len() == 4 && "reasoning"@.len() == 9 && "thinkingLevelMap"@.len() == 16);
    assert(first_key_at(es, "thinkingLevelMap"@, 3));
    lemma_first_key_unique(es, "thinkingLevelMap"@, 3);
    let ls = es[3].1->Object_0;
    assert("minimal"@.len() == 7 && "low"@.len() == 3 && "medium"@.len() == 6);
    assert("high"@.len() == 4 && "xhigh"@.len() == 5 && "max"@.len() == 3);
    assert("low"@[0] != "max"@[0]);
    assert(first_key_at(ls, "minimal"@, 0));
    lemma_first_key_unique(ls, "minimal"@, 0);
    assert(first_key_at(ls, "low"@, 1));
    lemma_first_key_unique(ls, "low"@, 1);
    assert(first_key_at(ls, "medium"@, 2));
    lemma_first_key_unique(ls, "medium"@, 2);
    assert(first_key_at(ls, "high"@, 3));
    lemma_first_key_unique(ls, "high"@, 3);
    assert(first_key_at(ls, "xhigh"@, 4));
    lemma_first_key_unique(ls, "xhigh"@, 4);
    assert(first_key_at(ls, "max"@, 5));
    lemma_first_key_unique(ls, "max"@, 5);
}

/// The provider registered for Pi: named "Kaggle TPU - Qwen3.8 27B", at the
/// endpoint, speaking the OpenAI completions API, with a `compat` block that
/// sends `max_tokens`, streams usage, formats thinking through the chat
/// template and claims no store, developer role, reasoning effort or strict
/// mode; its single model is `qwen3.8-27b`, reasons, takes text, and has the
/// given context window and 65536 output tokens. Its credentials are an API
/// key entry holding the key.
pub proof fn lemma_provider_model_fields(endpoint: Seq<char>, context_window: int, api_key: Seq<char>)
    ensures
        ({
            let p = provider_model(endpoint, context_window);
            &&& p.member("name"@) == Some(JsonModel::Str("Kaggle TPU - Qwen3.8 27B"@))
            &&& p.member("baseUrl"@) == Some(JsonModel::Str(endpoint))
            &&& p.member("api"@) == Some(JsonModel::Str("openai-completions"@))
            &&& p.member("compat"@) matches Some(c)
                && c.member("supportsStore"@) == Some(JsonModel::Bool(false))
                && c.member("supportsDeveloperRole"@) == Some(JsonModel::Bool(false))
                && c.member("supportsReasoningEffort"@) == Some(JsonModel::Bool(false))
                && c.member("supportsUsageInStreaming"@) == Some(JsonModel::Bool(true))
                && c.member("maxTokensField"@) == Some(JsonModel::Str("max_tokens"@))
                && c.member("supportsStrictMode"@) == Some(JsonModel::Bool(false))
                && c.member("thinkingFormat"@) == Some(JsonModel::Str("chat-template"@))
            &&& p.member("models"@) matches Some(JsonModel::Array(list))
                && list.len() == 1
                && list[0].member("id"@) == Some(JsonModel::Str(MODEL_ID@))
                && list[0].member("name"@) == Some(JsonModel::Str("Qwen3.8-27B (Kaggle TPU)"@))
                && list[0].member("reasoning"@) == Some(JsonModel::Bool(true))
                && list[0].member("input"@) == Some(JsonModel::Array(seq![JsonModel::Str("text"@)]))
                && list[0].member("contextWindow"@) == Some(JsonModel::Number(crate::text::decimal(context_window)))
                && list[0].member("maxTokens"@) == Some(JsonModel::Number(crate::text::decimal(65536)))
        }),
        auth_entry_model(api_key).member("type"@) == Some(JsonModel::Str("api_key"@)),
        auth_entry_model(api_key).member("key"@) == Some(JsonModel::Str(api_key)),
{
    reveal_strlit("api");
    reveal_strlit("baseUrl");
    reveal_strlit("chatTemplateKwargs");
    reveal_strlit("compat");
    reveal_strlit("contextWindow");
    reveal_strlit("id");
    reveal_strlit("input");
    reveal_strlit("key");
    reveal_strlit("maxTokens");
    reveal_strlit("maxTokensField");
    reveal_strlit("models");
    reveal_strlit("name");
    reveal_strlit("reasoning");
    reveal_strlit("supportsDeveloperRole");
    reveal_strlit("supportsReasoningEffort");
    reveal_strlit("supportsStore");
    reveal_strlit("supportsStrictMode");
    reveal_strlit("supportsUsageInStreaming");
    reveal_strlit("thinkingFormat");
    reveal_strlit("thinkingLevelMap");
    reveal_strlit("type");
    assert("api"@.len() == 3);
    assert("baseUrl"@.len() == 7);
    assert("chatTemplateKwargs"@.len() == 18);
    assert("compat"@.len() == 6);
    assert("contextWindow"@.len() == 13);
    assert("id"@.len() == 2);
    assert("input"@.len() == 5);
    assert("key"@.len() == 3);
    assert("maxTokens"@.len() == 9);
    assert("maxTokensField"@.len() == 14);
    assert("models"@.len() == 6);
    assert("name"@.len() == 4);
    assert("reasoning"@.len() == 9);
    assert("supportsDeveloperRole"@.len() == 21);
    assert("supportsReasoningEffort"@.len() == 23);
    assert("supportsStore"@.len() == 13);
    assert("supportsStrictMode"@.len() == 18);
    assert("supportsUsageInStreaming"@.len() == 24);
    assert("thinkingFormat"@.len() == 14);
    assert("thinkingLevelMap"@.len() == 16);
    assert("type"@.len() == 4);
    assert("compat"@[0] != "models"@[0]);
    assert("maxTokensField"@[0] != "thinkingFormat"@[0]);
    assert("supportsStrictMode"@[0] != "chatTemplateKwargs"@[0]);
    assert("reasoning"@[0] != "maxTokens"@[0]);
    assert("type"@[0] != "name"@[0]);
    let ps = provider_model(endpoint, context_window)->Object_0;
    assert(first_key_at(ps, "name"@, 0));
    lemma_first_key_unique(ps, "name"@, 0);
    assert(first_key_at(ps, "baseUrl"@, 1));
    lemma_first_key_unique(ps, "baseUrl"@, 1);
    assert(first_key_at(ps, "api"@, 2));
    lemma_first_key_unique(ps, "api"@, 2);
    assert(first_key_at(ps, "compat"@, 3));
    lemma_first_key_unique(ps, "compat"@, 3);
    assert(first_key_at(ps, "models"@, 4));
    lemma_first_key_unique(ps, "models"@, 4);
    let cs = compat_model()->Object_0;
    assert(first_key_at(cs, "supportsStore"@, 0));
    lemma_first_key_unique(cs, "supportsStore"@, 0);
    assert(first_key_at(cs, "supportsDeveloperRole"@, 1));
    lemma_first_key_unique(cs, "supportsDeveloperRole"@, 1);
    assert(first_key_at(cs, "supportsReasoningEffort"@, 2));
    lemma_first_key_unique(cs, "supportsReasoningEffort"@, 2);
    assert(first_key_at(cs, "supportsUsageInStreaming"@, 3));
    lemma_first_key_unique(cs, "supportsUsageInStreaming"@, 3);
    assert(first_key_at(cs, "maxTokensField"@, 4));
    lemma_first_key_unique(cs, "maxTokensField"@, 4);
    assert(first_key_at(cs, "supportsStrictMode"@, 5));
    lemma_first_key_unique(cs, "supportsStrictMode"@, 5);
    assert(first_key_at(cs, "thinkingFormat"@, 6));
    lemma_first_key_unique(cs, "thinkingFormat"@, 6);
    assert(first_key_at(cs, "chatTemplateKwargs"@, 7));
    lemma_first_key_unique(cs, "chatTemplateKwargs"@, 7);
    let es = model_entry_model(context_window)->Object_0;
    assert(first_key_at(es, "id"@, 0));
    lemma_first_key_unique(es, "id"@, 0);
    assert(first_key_at(es, "name"@, 1));
    lemma_first_key_unique(es, "name"@, 1);
    assert(first_key_at(es, "reasoning"@, 2));
    lemma_first_key_unique(es, "reasoning"@, 2);
    assert(first_key_at(es, "thinkingLevelMap"@, 3));
    lemma_first_key_unique(es, "thinkingLevelMap"@, 3);
    assert(first_key_at(es, "input"@, 4));
    lemma_first_key_unique(es, "input"@, 4);
    assert(first_key_at(es, "contextWindow"@, 5));
    lemma_first_key_unique(es, "contextWindow"@, 5);
    assert(first_key_at(es, "maxTokens"@, 6));
    lemma_first_key_unique(es, "maxTokens"@, 6);
    let aus = auth_entry_model(api_key)->Object_0;
    assert(first_key_at(aus, "type"@, 0));
    lemma_first_key_unique(aus, "type"@, 0);
    assert(first_key_at(aus, "key"@, 1));
    lemma_first_key_unique(aus, "key"@, 1);
}

/// The documents read back after a write pass the check exactly when the
/// models document holds `providers.kaggle-tpu` at the endpoint, its first
/// model is `qwen3.8-27b`, and the auth document's `kaggle-tpu` entry holds
/// the key, which is not empty.
pub proof fn lemma_written_check_passes_exactly(
    models: JsonModel,
    auth: JsonModel,
    endpoint: Seq<char>,
    api_key: Seq<char>,
)
    ensures
        written_error(models, auth, endpoint, api_key) is None <==> ({
            let p = provider_of(models)->Some_0;
            let first = p.member("models"@)->Some_0.item(0)->Some_0;
            &&& provider_of(models) is Some
            &&& text_member(p, "baseUrl"@) == Some(endpoint)
            &&& p.member("models"@) is Some
            &&& p.member("models"@)->Some_0.item(0) is Some
            &&& text_member(first, "id"@) == Some(MODEL_ID@)
            &&& auth.member(PROVIDER_ID@) is Some
            &&& text_member(auth.member(PROVIDER_ID@)->Some_0, "key"@) == Some(api_key)
            &&& api_key.len() > 0
        }),
{
}

} // verus!
