use vstd::prelude::*;
use vstd::string::StringExecFns;
use crate::json::{JsonModel, JsonValue, first_key_at, lemma_first_key_unique, json_pretty, model_members, new_members, numbers_ok, owned, push_member, render_json};
use crate::text::{decimal, decimal_string, join_texts, str_eq};

verus! {

/// Launch profile for `launch.py serve`.
#[derive(Debug)]
pub struct Settings {
    /// Optional explicit repo location (defaults to auto-detection).
    pub project_root: Option<String>,
    /// `--max-model-len`
    pub context: i64,
    /// `--mtp`
    pub mtp: i64,
    /// `--reasoning-effort`
    pub thinking: String,
    /// `--fast-start`
    pub fast_start: bool,
    /// `--text-only`
    pub text_only: bool,
    /// `--keepalive-min`
    pub keepalive_min: i64,
}

impl Settings {
    pub const CONTEXTS: [i64; 2] = [131072, 262144];
    pub const THINKING_LEVELS: [&'static str; 3] = ["xhigh", "medium", "low"];
}

/// Whether the context length is one of the offered ones.
pub open spec fn allowed_context(c: int) -> bool {
    c == 131072 || c == 262144
}

/// Whether the thinking level is one of the offered ones.
pub open spec fn allowed_thinking(t: Seq<char>) -> bool {
    t == "xhigh"@ || t == "medium"@ || t == "low"@
}

pub open spec fn context_message() -> Seq<char> {
    "Context must be one of: "@ + decimal(131072) + ", "@ + decimal(262144)
}

pub open spec fn thinking_message() -> Seq<char> {
    "Thinking must be one of: "@ + "xhigh"@ + ", "@ + "medium"@ + ", "@ + "low"@
}

/// Why a profile is refused, if it is: the first check that fails.
pub open spec fn settings_error(s: Settings) -> Option<Seq<char>> {
    if !allowed_context(s.context as int) {
        Some(context_message())
    } else if !(0 <= s.mtp <= 5) {
        Some("MTP must be between 0 and 5"@)
    } else if !allowed_thinking(s.thinking@) {
        Some(thinking_message())
    } else if !(30 <= s.keepalive_min <= 540) {
        Some("Keepalive must be between 30 and 540 min (Kaggle caps TPU sessions at 9 h)"@)
    } else {
        None
    }
}

/// The argument vector for `launch.py serve`. Tools stay enabled: a thinking
/// level that reads `--no-tools` is not passed on, so the flag never appears.
pub open spec fn serve_args_model(s: Settings) -> Seq<Seq<char>> {
    seq!["--max-model-len"@, decimal(s.context as int), "--mtp"@, decimal(s.mtp as int)]
      + (if s.thinking@ == "--no-tools"@ { Seq::empty() } else { seq!["--reasoning-effort"@, s.thinking@] })
      + seq!["--keepalive-min"@, decimal(s.keepalive_min as int)]
      + (if s.fast_start { seq!["--fast-start"@] } else { Seq::empty() })
      + (if s.text_only { seq!["--text-only"@] } else { Seq::empty() })
}

impl Clone for Settings {
    fn clone(&self) -> (r: Self)
        ensures
            r == *self,
    {
        Settings {
            project_root: match &self.project_root {
                Some(root) => Some(root.clone()),
                None => None,
            },
            context: self.context,
            mtp: self.mtp,
            thinking: self.thinking.clone(),
            fast_start: self.fast_start,
            text_only: self.text_only,
            keepalive_min: self.keepalive_min,
        }
    }
}

impl Default for Settings {
    /// The official defaults of the profile.
    fn default() -> (r: Self)
        ensures
            r.project_root is None,
            r.context == 262144,
            r.mtp == 3,
            r.thinking@ == "xhigh"@,
            r.fast_start,
            r.text_only,
            r.keepalive_min == 480,
            settings_error(r) is None,
    {
        Settings {
            project_root: None,
            context: 262144,
            mtp: 3,
            thinking: owned("xhigh"),
            fast_start: true,
            text_only: true,
            keepalive_min: 480,
        }
    }
}

fn context_listing() -> (r: String)
    ensures
        r@ == context_message(),
{
    let mut items: Vec<String> = Vec::new();
    let mut i: usize = 0;
    while i < Settings::CONTEXTS.len()
        invariant
            i <= 2,
            items@.len() == i,
            forall|j: int| 0 <= j < i ==> #[trigger] items@[j]@ == decimal(Settings::CONTEXTS@[j] as int),
        decreases 2 - i,
    {
        items.push(decimal_string(Settings::CONTEXTS[i]));
        i += 1;
    }
    let listing = join_texts(&items, ", ");
    let ghost views = items@.map_values(|s: String| s@);
    assert(views.len() == 2);
    assert(views.drop_last() =~= seq![decimal(131072)]);
    assert(crate::text::joined(views.drop_last(), ", "@) == decimal(131072));
    assert(listing@ == decimal(131072) + ", "@ + decimal(262144));
    let mut m = owned("Context must be one of: ");
    m.append(listing.as_str());
    assert(m@ =~= context_message());
    m
}

fn thinking_listing() -> (r: String)
    ensures
        r@ == thinking_message(),
{
    let mut items: Vec<String> = Vec::new();
    let mut i: usize = 0;
    while i < Settings::THINKING_LEVELS.len()
        invariant
            i <= 3,
            items@.len() == i,
            forall|j: int| 0 <= j < i ==> #[trigger] items@[j]@ == Settings::THINKING_LEVELS@[j]@,
        decreases 3 - i,
    {
        items.push(owned(Settings::THINKING_LEVELS[i]));
        i += 1;
    }
    let listing = join_texts(&items, ", ");
    let ghost views = items@.map_values(|s: String| s@);
    assert(views.len() == 3);
    assert(views.drop_last().drop_last() =~= seq!["xhigh"@]);
    assert(views.drop_last() =~= seq!["xhigh"@, "medium"@]);
    assert(crate::text::joined(views.drop_last().drop_last(), ", "@) == "xhigh"@);
    assert(crate::text::joined(views.drop_last(), ", "@) == "xhigh"@ + ", "@ + "medium"@);
    assert(listing@ == "xhigh"@ + ", "@ + "medium"@ + ", "@ + "low"@);
    let mut m = owned("Thinking must be one of: ");
    m.append(listing.as_str());
    assert(m@ =~= thinking_message());
    m
}

impl Settings {
    /// Rejects absurd combinations before they reach `launch.py serve`.
    pub fn validate(&self) -> (r: Result<(), String>)
        ensures
            match r {
                Ok(()) => settings_error(*self) is None,
                Err(m) => settings_error(*self) == Some(m@),
            },
    {
        let mut known = false;
        let mut i: usize = 0;
        while i < Self::CONTEXTS.len()
            invariant
                i <= 2,
                known == exists|j: int| 0 <= j < i && Self::CONTEXTS@[j] == self.context,
            decreases 2 - i,
        {
            if Self::CONTEXTS[i] == self.context {
                known = true;
            }
            i += 1;
        }
        if !known {
            return Err(context_listing());
        }
        if !(0 <= self.mtp && self.mtp <= 5) {
            return Err(owned("MTP must be between 0 and 5"));
        }
        let mut level = false;
        let mut k: usize = 0;
        while k < Self::THINKING_LEVELS.len()
            invariant
                k <= 3,
                level == exists|j: int| 0 <= j < k && Self::THINKING_LEVELS@[j]@ == self.thinking@,
            decreases 3 - k,
        {
            if str_eq(Self::THINKING_LEVELS[k], self.thinking.as_str()) {
                level = true;
            }
            k += 1;
        }
        if !level {
            return Err(thinking_listing());
        }
        if !(30 <= self.keepalive_min && self.keepalive_min <= 540) {
            return Err(owned("Keepalive must be between 30 and 540 min (Kaggle caps TPU sessions at 9 h)"));
        }
        Ok(())
    }

    /// Argument vector for `launch.py serve` (tools stay enabled: no
    /// `--no-tools` flag, ever). Only a validated profile reaches the launcher.
    pub fn serve_args(&self) -> (r: Vec<String>)
        ensures
            r@.map_values(|s: String| s@) == serve_args_model(*self),
            forall|i: int| 0 <= i < r@.len() ==> #[trigger] r@[i]@ != "--no-tools"@,
    {
        let mut args: Vec<String> = Vec::new();
        args.push(owned("--max-model-len"));
        args.push(decimal_string(self.context));
        args.push(owned("--mtp"));
        args.push(decimal_string(self.mtp));
        if !str_eq(self.thinking.as_str(), "--no-tools") {
            args.push(owned("--reasoning-effort"));
            args.push(self.thinking.clone());
        }
        args.push(owned("--keepalive-min"));
        args.push(decimal_string(self.keepalive_min));
        if self.fast_start {
            args.push(owned("--fast-start"));
        }
        if self.text_only {
            args.push(owned("--text-only"));
        }
        assert(args@.map_values(|s: String| s@) =~= serve_args_model(*self));
        proof {
            crate::text::lemma_decimal_shape(self.context as int);
            crate::text::lemma_decimal_shape(self.mtp as int);
            crate::text::lemma_decimal_shape(self.keepalive_min as int);
            reveal_strlit("--no-tools");
            reveal_strlit("--max-model-len");
            reveal_strlit("--mtp");
            reveal_strlit("--reasoning-effort");
            reveal_strlit("--keepalive-min");
            reveal_strlit("--fast-start");
            reveal_strlit("--text-only");
            let v = serve_args_model(*self);
            assert("--no-tools"@.len() == 10);
            assert("--max-model-len"@.len() == 15);
            assert("--mtp"@.len() == 5);
            assert("--reasoning-effort"@.len() == 18);
            assert("--keepalive-min"@.len() == 15);
            assert("--fast-start"@.len() == 12);
            assert("--text-only"@.len() == 11);
            assert("--no-tools"@[0] == '-' && "--no-tools"@[1] == '-');
            assert forall|i: int| 0 <= i < v.len() implies v[i] != "--no-tools"@ by {
                if v[i] == "--no-tools"@ {
                    assert(v[i][0] == '-' && v[i][1] == '-');
                }
            }
        }
        args
    }

    /// What saving the profile answers: the profile must validate, and the
    /// project root, where one is given, must be an existing directory
    /// (`root_is_dir` says whether it is).
    pub fn check_for_save(&self, root_is_dir: bool) -> (r: Result<(), String>)
        ensures
            match settings_error(*self) {
                Some(m) => r matches Err(e) && e@ == m,
                None => match self.project_root {
                    Some(root) => if root_is_dir {
                        r is Ok
                    } else {
                        r matches Err(e) && e@ == "project_root does not exist: "@ + root@
                    },
                    None => r is Ok,
                },
            },
    {
        self.validate()?;
        match &self.project_root {
            Some(root) => {
                if !root_is_dir {
                    let mut m = owned("project_root does not exist: ");
                    m.append(root.as_str());
                    return Err(m);
                }
                Ok(())
            },
            None => Ok(()),
        }
    }

    /// The profile as the settings file holds it: camelCase keys, the
    /// project root as a string or `null`.
    pub fn to_document(&self) -> (r: JsonValue)
        ensures
            r.model() == settings_document(*self),
            numbers_ok(r.model()),
    {
        let root = match &self.project_root {
            Some(p) => JsonValue::string(p.as_str()),
            None => JsonValue::Null,
        };
        let mut ms: Vec<(String, JsonValue)> = new_members();
        push_member(&mut ms, "projectRoot", root);
        push_member(&mut ms, "context", JsonValue::integer(self.context));
        push_member(&mut ms, "mtp", JsonValue::integer(self.mtp));
        push_member(&mut ms, "thinking", JsonValue::string(self.thinking.as_str()));
        push_member(&mut ms, "fastStart", JsonValue::Bool(self.fast_start));
        push_member(&mut ms, "textOnly", JsonValue::Bool(self.text_only));
        push_member(&mut ms, "keepaliveMin", JsonValue::integer(self.keepalive_min));
        assert(model_members(ms@) =~= settings_document(*self)->Object_0);
        JsonValue::Object(ms)
    }

    /// The text of the settings file: the document rendered by `serde_json`
    /// with a two-space indent.
    pub fn file_text(&self) -> (r: String)
        ensures
            r@ == json_pretty(settings_document(*self)),
    {
        match render_json(self.to_document()) {
            Ok(t) => t,
            Err(_) => String::new(),
        }
    }
}

/// The settings file's document for a profile.
pub open spec fn settings_document(s: Settings) -> JsonModel {
    JsonModel::Object(seq![
        ("projectRoot"@, match s.project_root {
            Some(p) => JsonModel::Str(p@),
            None => JsonModel::Null,
        }),
        ("context"@, JsonModel::Number(decimal(s.context as int))),
        ("mtp"@, JsonModel::Number(decimal(s.mtp as int))),
        ("thinking"@, JsonModel::Str(s.thinking@)),
        ("fastStart"@, JsonModel::Bool(s.fast_start)),
        ("textOnly"@, JsonModel::Bool(s.text_only)),
        ("keepaliveMin"@, JsonModel::Number(decimal(s.keepalive_min as int))),
    ])
}

/// The settings file keeps every field of the profile under its own camelCase
/// key, so reading the members of the document gives the profile back.
pub proof fn lemma_settings_document_fields(s: Settings)
    ensures
        settings_document(s).member("projectRoot"@) == Some(match s.project_root {
            Some(p) => JsonModel::Str(p@),
            None => JsonModel::Null,
        }),
        settings_document(s).member("context"@) == Some(JsonModel::Number(decimal(s.context as int))),
        settings_document(s).member("mtp"@) == Some(JsonModel::Number(decimal(s.mtp as int))),
        settings_document(s).member("thinking"@) == Some(JsonModel::Str(s.thinking@)),
        settings_document(s).member("fastStart"@) == Some(JsonModel::Bool(s.fast_start)),
        settings_document(s).member("textOnly"@) == Some(JsonModel::Bool(s.text_only)),
        settings_document(s).member("keepaliveMin"@) == Some(JsonModel::Number(decimal(s.keepalive_min as int))),
{
    reveal_strlit("projectRoot");
    reveal_strlit("context");
    reveal_strlit("mtp");
    reveal_strlit("thinking");
    reveal_strlit("fastStart");
    reveal_strlit("textOnly");
    reveal_strlit("keepaliveMin");
    assert("projectRoot"@.len() == 11 && "context"@.len() == 7 && "mtp"@.len() == 3 && "thinking"@.len() == 8);
    assert("fastStart"@.len() == 9 && "textOnly"@.len() == 8 && "keepaliveMin"@.len() == 12);
    assert("thinking"@[1] != "textOnly"@[1]);
    let ms = settings_document(s)->Object_0;
    assert(first_key_at(ms, "projectRoot"@, 0));
    lemma_first_key_unique(ms, "projectRoot"@, 0);
    assert(first_key_at(ms, "context"@, 1));
    lemma_first_key_unique(ms, "context"@, 1);
    assert(first_key_at(ms, "mtp"@, 2));
    lemma_first_key_unique(ms, "mtp"@, 2);
    assert(first_key_at(ms, "thinking"@, 3));
    lemma_first_key_unique(ms, "thinking"@, 3);
    assert(first_key_at(ms, "fastStart"@, 4));
    lemma_first_key_unique(ms, "fastStart"@, 4);
    assert(first_key_at(ms, "textOnly"@, 5));
    lemma_first_key_unique(ms, "textOnly"@, 5);
    assert(first_key_at(ms, "keepaliveMin"@, 6));
    lemma_first_key_unique(ms, "keepaliveMin"@, 6);
}

/// The serve arguments carry `--text-only` exactly when the profile asks for
/// text only and `--fast-start` exactly when it asks for a fast start, each
/// independently of the other switch (for a thinking level that is not itself
/// one of these flags).
pub proof fn lemma_serve_args_flags_follow_switches(s: Settings)
    requires
        s.thinking@ != "--text-only"@,
        s.thinking@ != "--fast-start"@,
    ensures
        serve_args_model(s).contains("--text-only"@) <==> s.text_only,
        serve_args_model(s).contains("--fast-start"@) <==> s.fast_start,
{
    let v = serve_args_model(s);
    crate::text::lemma_decimal_shape(s.context as int);
    crate::text::lemma_decimal_shape(s.mtp as int);
    crate::text::lemma_decimal_shape(s.keepalive_min as int);
    reveal_strlit("--max-model-len");
    reveal_strlit("--mtp");
    reveal_strlit("--reasoning-effort");
    reveal_strlit("--keepalive-min");
    reveal_strlit("--fast-start");
    reveal_strlit("--text-only");
    reveal_strlit("--no-tools");
    assert("--max-model-len"@.len() == 15 && "--mtp"@.len() == 5 && "--reasoning-effort"@.len() == 18);
    assert("--keepalive-min"@.len() == 15 && "--fast-start"@.len() == 12 && "--text-only"@.len() == 11);
    assert("--no-tools"@.len() == 10);
    assert("--text-only"@[1] == '-' && "--fast-start"@[1] == '-');
    let head = seq!["--max-model-len"@, decimal(s.context as int), "--mtp"@, decimal(s.mtp as int)];
    let think = if s.thinking@ == "--no-tools"@ { Seq::<Seq<char>>::empty() } else { seq!["--reasoning-effort"@, s.thinking@] };
    let keep = seq!["--keepalive-min"@, decimal(s.keepalive_min as int)];
    let fast = if s.fast_start { seq!["--fast-start"@] } else { Seq::<Seq<char>>::empty() };
    let text = if s.text_only { seq!["--text-only"@] } else { Seq::<Seq<char>>::empty() };
    let base = head + think + keep;
    assert(v == base + fast + text);
    assert forall|i: int| 0 <= i < base.len() implies base[i] != "--text-only"@ && base[i] != "--fast-start"@ by {
        if i < 4 {
            assert(base[i] == head[i]);
        } else if i < 4 + think.len() {
            assert(base[i] == think[i - 4]);
        } else {
            assert(base[i] == keep[i - 4 - think.len()]);
        }
    }
    if s.text_only {
        assert(v[v.len() - 1] == "--text-only"@);
    } else {
        assert forall|i: int| 0 <= i < v.len() implies v[i] != "--text-only"@ by {
            if i < base.len() {
                assert(v[i] == base[i]);
            } else {
                assert(v[i] == fast[i - base.len()]);
            }
        }
    }
    if s.fast_start {
        assert(v[base.len() as int] == "--fast-start"@);
    } else {
        assert forall|i: int| 0 <= i < v.len() implies v[i] != "--fast-start"@ by {
            if i < base.len() {
                assert(v[i] == base[i]);
            } else {
                assert(v[i] == text[i - base.len()]);
            }
        }
    }
}

/// A profile is accepted exactly when its context is 131072 or 262144, its MTP
/// is between 0 and 5, its thinking level is xhigh, medium or low, and its
/// keepalive is between 30 and 540 minutes; the official defaults are accepted.
pub proof fn lemma_accepted_profiles(s: Settings)
    ensures
        settings_error(s) is None <==> {
            &&& s.context == 131072 || s.context == 262144
            &&& 0 <= s.mtp <= 5
            &&& s.thinking@ == "xhigh"@ || s.thinking@ == "medium"@ || s.thinking@ == "low"@
            &&& 30 <= s.keepalive_min <= 540
        },
        (s.context == 262144 && s.mtp == 3 && s.thinking@ == "xhigh"@ && s.keepalive_min == 480)
            ==> settings_error(s) is None,
{
}

/// `--no-tools` is never among the serve arguments: tools stay enabled for
/// every profile, whatever its thinking level.
pub proof fn lemma_serve_args_never_disable_tools(s: Settings)
    ensures
        !serve_args_model(s).contains("--no-tools"@),
{
    let v = serve_args_model(s);
    crate::text::lemma_decimal_shape(s.context as int);
    crate::text::lemma_decimal_shape(s.mtp as int);
    crate::text::lemma_decimal_shape(s.keepalive_min as int);
    reveal_strlit("--max-model-len");
    reveal_strlit("--mtp");
    reveal_strlit("--reasoning-effort");
    reveal_strlit("--keepalive-min");
    reveal_strlit("--fast-start");
    reveal_strlit("--text-only");
    reveal_strlit("--no-tools");
    assert("--max-model-len"@.len() == 15 && "--mtp"@.len() == 5 && "--reasoning-effort"@.len() == 18);
    assert("--keepalive-min"@.len() == 15 && "--fast-start"@.len() == 12 && "--text-only"@.len() == 11);
    assert("--no-tools"@.len() == 10 && "--no-tools"@[1] == '-');
    let head = seq!["--max-model-len"@, decimal(s.context as int), "--mtp"@, decimal(s.mtp as int)];
    let think = if s.thinking@ == "--no-tools"@ { Seq::<Seq<char>>::empty() } else { seq!["--reasoning-effort"@, s.thinking@] };
    let keep = seq!["--keepalive-min"@, decimal(s.keepalive_min as int)];
    let fast = if s.fast_start { seq!["--fast-start"@] } else { Seq::<Seq<char>>::empty() };
    let text = if s.text_only { seq!["--text-only"@] } else { Seq::<Seq<char>>::empty() };
    let k: int = 4 + think.len() as int;
    assert(v == head + think + keep + fast + text);
    assert forall|i: int| 0 <= i < v.len() implies v[i] != "--no-tools"@ by {
        if i < 4 {
            assert(v[i] == head[i]);
        } else if i < k {
            assert(v[i] == think[i - 4]);
        } else if i < k + 2 {
            assert(v[i] == keep[i - k]);
        } else if i < k + 2 + fast.len() {
            assert(v[i] == fast[i - k - 2]);
        } else {
            assert(v[i] == text[i - k - 2 - fast.len()]);
        }
    }
}

/// Each option of the serve arguments that takes a value is followed by the
/// profile's value for it (for a thinking level that is not itself the name of
/// one of these options).
pub proof fn lemma_serve_args_options_carry_their_values(s: Settings)
    requires
        s.thinking@ != "--max-model-len"@,
        s.thinking@ != "--mtp"@,
        s.thinking@ != "--keepalive-min"@,
        s.thinking@ != "--reasoning-effort"@,
    ensures
        ({
            let v = serve_args_model(s);
            &&& forall|i: int| 0 <= i < v.len() && #[trigger] v[i] == "--max-model-len"@
                ==> i + 1 < v.len() && v[i + 1] == decimal(s.context as int)
            &&& forall|i: int| 0 <= i < v.len() && #[trigger] v[i] == "--mtp"@
                ==> i + 1 < v.len() && v[i + 1] == decimal(s.mtp as int)
            &&& forall|i: int| 0 <= i < v.len() && #[trigger] v[i] == "--keepalive-min"@
                ==> i + 1 < v.len() && v[i + 1] == decimal(s.keepalive_min as int)
            &&& forall|i: int| 0 <= i < v.len() && #[trigger] v[i] == "--reasoning-effort"@
                ==> i + 1 < v.len() && v[i + 1] == s.thinking@
            &&& v.contains("--max-model-len"@) && v.contains("--mtp"@) && v.contains("--keepalive-min"@)
            &&& s.thinking@ != "--no-tools"@ ==> v.contains("--reasoning-effort"@)
        }),
{
    let v = serve_args_model(s);
    crate::text::lemma_decimal_shape(s.context as int);
    crate::text::lemma_decimal_shape(s.mtp as int);
    crate::text::lemma_decimal_shape(s.keepalive_min as int);
    reveal_strlit("--max-model-len");
    reveal_strlit("--mtp");
    reveal_strlit("--reasoning-effort");
    reveal_strlit("--keepalive-min");
    reveal_strlit("--fast-start");
    reveal_strlit("--text-only");
    reveal_strlit("--no-tools");
    assert("--max-model-len"@.len() == 15 && "--mtp"@.len() == 5 && "--reasoning-effort"@.len() == 18);
    assert("--keepalive-min"@.len() == 15 && "--fast-start"@.len() == 12 && "--text-only"@.len() == 11);
    assert("--no-tools"@.len() == 10);
    assert("--max-model-len"@[2] != "--keepalive-min"@[2]);
    assert("--no-tools"@[1] == '-' && "--mtp"@[1] == '-' && "--max-model-len"@[1] == '-');
    assert("--reasoning-effort"@[1] == '-' && "--keepalive-min"@[1] == '-');
    let head = seq!["--max-model-len"@, decimal(s.context as int), "--mtp"@, decimal(s.mtp as int)];
    let think = if s.thinking@ == "--no-tools"@ { Seq::<Seq<char>>::empty() } else { seq!["--reasoning-effort"@, s.thinking@] };
    let keep = seq!["--keepalive-min"@, decimal(s.keepalive_min as int)];
    let fast = if s.fast_start { seq!["--fast-start"@] } else { Seq::<Seq<char>>::empty() };
    let text = if s.text_only { seq!["--text-only"@] } else { Seq::<Seq<char>>::empty() };
    let k: int = 4 + think.len() as int;
    assert(v == head + think + keep + fast + text);
    assert forall|i: int| 0 <= i < v.len() implies {
        &&& v[i] == "--max-model-len"@ ==> i == 0
        &&& v[i] == "--mtp"@ ==> i == 2
        &&& v[i] == "--keepalive-min"@ ==> i == k
        &&& v[i] == "--reasoning-effort"@ ==> (i == 4 && think.len() == 2)
    } by {
        if i < 4 {
            assert(v[i] == head[i]);
        } else if i < k {
            assert(v[i] == think[i - 4]);
        } else if i < k + 2 {
            assert(v[i] == keep[i - k]);
        } else if i < k + 2 + fast.len() {
            assert(v[i] == fast[i - k - 2]);
        } else {
            assert(v[i] == text[i - k - 2 - fast.len()]);
        }
    }
    assert(v[0] == "--max-model-len"@ && v[1] == decimal(s.context as int));
    assert(v[2] == "--mtp"@ && v[3] == decimal(s.mtp as int));
    assert(v[k] == "--keepalive-min"@ && v[k + 1] == decimal(s.keepalive_min as int));
    if think.len() == 2 {
        assert(v[4] == "--reasoning-effort"@ && v[5] == s.thinking@);
    }
}

} // verus!
