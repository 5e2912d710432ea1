use vstd::prelude::*;
use vstd::string::StringExecFns;
use crate::json::{JsonValue, json_parse, json_parse_error, json_pretty, json_render_error, numbers_ok, owned, parse_json, render_json};
use crate::pi::{PiState, assessment, check_written, lemma_checked_is_synced, lemma_registered_passes_check, register_provider, registered, written_error};

verus! {

/// One of the two Pi files that a sync rewrites.
#[derive(Debug, Clone, Copy, PartialEq, Eq, Structural)]
pub enum PiFile {
    /// `models.json`
    Models,
    /// `auth.json`
    Auth,
}

/// What a sync writes: the live endpoint, its context window and the key
/// (the key is used in memory only).
pub struct SyncRequest {
    pub endpoint: String,
    pub context_window: i64,
    pub api_key: String,
}

/// Where a sync stands. The sync reads both files and parses them, backs both
/// up, registers the provider and renders both documents, writes both files,
/// reads both back, parses them and checks them.
#[derive(Debug)]
pub enum SyncState {
    ReadModels,
    ReadAuth { models_raw: String },
    BackupModels { models: JsonValue, auth: JsonValue },
    BackupAuth { models: JsonValue, auth: JsonValue },
    WriteModels { auth_text: String },
    WriteAuth,
    RereadModels,
    RereadAuth { models: JsonValue },
    Finished,
}

/// The outcome of the last action, as the caller observed it. An `Err`
/// carries the description of the failure.
#[derive(Debug)]
pub enum SyncEvent {
    /// Outcome of `SyncAction::Read`: the file's text.
    Text(Result<String, String>),
    /// Outcome of `SyncAction::Backup` or `SyncAction::Write`.
    Done(Result<(), String>),
}

/// What the caller does next.
#[derive(Debug)]
pub enum SyncAction {
    /// Read the file's text.
    Read(PiFile),
    /// Copy the file to its temporary backup beside it.
    Backup(PiFile),
    /// Write the text to the file.
    Write(PiFile, String),
    /// Remove both backups: the sync succeeded.
    Commit,
    /// Copy both backups back over the files, then remove both backups: the
    /// sync failed with this message.
    Rollback(String),
    /// Remove the backups made so far (nothing was written): the sync failed
    /// with this message.
    Discard(String),
    /// The sync failed with this message before any backup was made.
    Abort(String),
}

impl SyncState {
    /// Position of the state in the sequence of a sync.
    pub open spec fn rank(self) -> int {
        match self {
            SyncState::ReadModels => 0,
            SyncState::ReadAuth { .. } => 1,
            SyncState::BackupModels { .. } => 2,
            SyncState::BackupAuth { .. } => 3,
            SyncState::WriteModels { .. } => 4,
            SyncState::WriteAuth => 5,
            SyncState::RereadModels => 6,
            SyncState::RereadAuth { .. } => 7,
            SyncState::Finished => 8,
        }
    }

    /// Both backups exist: the state comes after both were made.
    pub open spec fn backed_up(self) -> bool {
        4 <= self.rank() <= 7
    }

    /// The kind of event the state waits for.
    pub open spec fn expects(self, event: SyncEvent) -> bool {
        match self {
            SyncState::ReadModels | SyncState::ReadAuth { .. } | SyncState::RereadModels
            | SyncState::RereadAuth { .. } => event is Text,
            SyncState::BackupModels { .. } | SyncState::BackupAuth { .. } | SyncState::WriteModels { .. }
            | SyncState::WriteAuth => event is Done,
            SyncState::Finished => false,
        }
    }

    /// Whether the state waits for this kind of event.
    pub fn accepts(&self, event: &SyncEvent) -> (r: bool)
        ensures
            r == self.expects(*event),
    {
        match self {
            SyncState::ReadModels | SyncState::ReadAuth { .. } | SyncState::RereadModels
            | SyncState::RereadAuth { .. } => matches!(event, SyncEvent::Text(_)),
            SyncState::BackupModels { .. } | SyncState::BackupAuth { .. } | SyncState::WriteModels { .. }
            | SyncState::WriteAuth => matches!(event, SyncEvent::Done(_)),
            SyncState::Finished => false,
        }
    }
}

impl SyncEvent {
    /// The failure the event reports, if it reports one.
    pub open spec fn failure(self) -> Option<Seq<char>> {
        match self {
            SyncEvent::Text(Err(e)) => Some(e@),
            SyncEvent::Done(Err(e)) => Some(e@),
            _ => None,
        }
    }
}

/// The message that a failed action of a sync is reported with, before the
/// description of the failure.
pub open spec fn failure_prefix(state: SyncState) -> Seq<char> {
    match state {
        SyncState::ReadModels => "cannot read models.json: "@,
        SyncState::ReadAuth { .. } => "cannot read auth.json: "@,
        SyncState::BackupModels { .. } => "backup models.json failed: "@,
        SyncState::BackupAuth { .. } => "backup auth.json failed: "@,
        SyncState::WriteModels { .. } => "write models.json failed: "@,
        SyncState::WriteAuth => "write auth.json failed: "@,
        SyncState::RereadModels => "re-read models.json failed: "@,
        SyncState::RereadAuth { .. } => "re-read auth.json failed: "@,
        SyncState::Finished => Seq::empty(),
    }
}

/// The sync ends with this message and leaves no backup behind: before any
/// backup it aborts, while the backups are being made it discards them, and
/// once both exist it restores the files from them.
pub open spec fn ends_with_failure(state: SyncState, next: SyncState, action: SyncAction, message: spec_fn(Seq<char>) -> bool) -> bool {
    &&& next is Finished
    &&& if state.rank() <= 1 {
        action matches SyncAction::Abort(m) && message(m@)
    } else if state.rank() <= 3 {
        action matches SyncAction::Discard(m) && message(m@)
    } else {
        action matches SyncAction::Rollback(m) && message(m@)
    }
}

/// One step of a sync: from the state and the outcome of the last action, the
/// next state and the next action.
pub open spec fn transition(
    req: SyncRequest,
    state: SyncState,
    event: SyncEvent,
    next: SyncState,
    action: SyncAction,
) -> bool {
    match event.failure() {
        Some(e) => ends_with_failure(state, next, action, |m: Seq<char>| m == failure_prefix(state) + e),
        None => match (state, event) {
            (SyncState::ReadModels, SyncEvent::Text(Ok(t))) =>
                next == (SyncState::ReadAuth { models_raw: t }) && action == SyncAction::Read(PiFile::Auth),
            (SyncState::ReadAuth { models_raw }, SyncEvent::Text(Ok(t))) => match json_parse(models_raw@) {
                None => ends_with_failure(state, next, action,
                    |m: Seq<char>| m == "models.json is not valid JSON: "@ + json_parse_error(models_raw@)),
                Some(mm) => match json_parse(t@) {
                    None => ends_with_failure(state, next, action,
                        |m: Seq<char>| m == "auth.json is not valid JSON: "@ + json_parse_error(t@)),
                    Some(aa) => {
                        &&& next matches SyncState::BackupModels { models, auth } && models.model() == mm && auth.model() == aa
                        &&& action == SyncAction::Backup(PiFile::Models)
                    },
                },
            },
            (SyncState::BackupModels { models, auth }, SyncEvent::Done(Ok(()))) =>
                next == (SyncState::BackupAuth { models, auth }) && action == SyncAction::Backup(PiFile::Auth),
            (SyncState::BackupAuth { models, auth }, SyncEvent::Done(Ok(()))) =>
                match registered(models.model(), auth.model(), req.endpoint@, req.context_window as int, req.api_key@) {
                    Ok((m2, a2)) => if numbers_ok(m2) && numbers_ok(a2) {
                        &&& next matches SyncState::WriteModels { auth_text } && auth_text@ == json_pretty(a2)
                        &&& action matches SyncAction::Write(f, t) && f == PiFile::Models && t@ == json_pretty(m2)
                    } else if !numbers_ok(m2) {
                        ends_with_failure(state, next, action, |m: Seq<char>| m == "serialize models failed: "@ + json_render_error(m2))
                    } else {
                        ends_with_failure(state, next, action, |m: Seq<char>| m == "serialize auth failed: "@ + json_render_error(a2))
                    },
                    Err(e) => ends_with_failure(state, next, action, |m: Seq<char>| m == e),
                },
            (SyncState::WriteModels { auth_text }, SyncEvent::Done(Ok(()))) =>
                next == SyncState::WriteAuth && action == SyncAction::Write(PiFile::Auth, auth_text),
            (SyncState::WriteAuth, SyncEvent::Done(Ok(()))) =>
                next == SyncState::RereadModels && action == SyncAction::Read(PiFile::Models),
            (SyncState::RereadModels, SyncEvent::Text(Ok(t))) => match json_parse(t@) {
                None => ends_with_failure(state, next, action,
                    |m: Seq<char>| m == "models.json invalid after write: "@ + json_parse_error(t@)),
                Some(mm) => {
                    &&& next matches SyncState::RereadAuth { models } && models.model() == mm
                    &&& action == SyncAction::Read(PiFile::Auth)
                },
            },
            (SyncState::RereadAuth { models }, SyncEvent::Text(Ok(t))) => match json_parse(t@) {
                None => ends_with_failure(state, next, action,
                    |m: Seq<char>| m == "auth.json invalid after write: "@ + json_parse_error(t@)),
                Some(aa) => match written_error(models.model(), aa, req.endpoint@, req.api_key@) {
                    None => next is Finished && action is Commit,
                    Some(e) => ends_with_failure(state, next, action, |m: Seq<char>| m == e),
                },
            },
            _ => false,
        },
    }
}

/// The first state and action of a sync.
pub fn start_sync() -> (r: (SyncState, SyncAction))
    ensures
        r.0 == SyncState::ReadModels,
        r.1 == SyncAction::Read(PiFile::Models),
{
    (SyncState::ReadModels, SyncAction::Read(PiFile::Models))
}

fn prefixed(prefix: &str, detail: String) -> (r: String)
    ensures
        r@ == prefix@ + detail@,
{
    let mut m = owned(prefix);
    m.append(detail.as_str());
    m
}

/// Ends the sync in `state` with the message, leaving no backup behind.
fn end_failed(state: &SyncState, message: String) -> (r: (SyncState, SyncAction))
    requires
        !(*state is Finished),
    ensures
        ends_with_failure(*state, r.0, r.1, |m: Seq<char>| m == message@),
{
    match state {
        SyncState::ReadModels | SyncState::ReadAuth { .. } => (SyncState::Finished, SyncAction::Abort(message)),
        SyncState::BackupModels { .. } | SyncState::BackupAuth { .. } => (SyncState::Finished, SyncAction::Discard(message)),
        _ => (SyncState::Finished, SyncAction::Rollback(message)),
    }
}

fn failed_action(state: &SyncState, detail: String) -> (r: (SyncState, SyncAction))
    requires
        !(*state is Finished),
    ensures
        ends_with_failure(*state, r.0, r.1, |m: Seq<char>| m == failure_prefix(*state) + detail@),
{
    let message = match state {
        SyncState::ReadModels => prefixed("cannot read models.json: ", detail),
        SyncState::ReadAuth { .. } => prefixed("cannot read auth.json: ", detail),
        SyncState::BackupModels { .. } => prefixed("backup models.json failed: ", detail),
        SyncState::BackupAuth { .. } => prefixed("backup auth.json failed: ", detail),
        SyncState::WriteModels { .. } => prefixed("write models.json failed: ", detail),
        SyncState::WriteAuth => prefixed("write auth.json failed: ", detail),
        SyncState::RereadModels => prefixed("re-read models.json failed: ", detail),
        SyncState::RereadAuth { .. } => prefixed("re-read auth.json failed: ", detail),
        SyncState::Finished => detail,
    };
    end_failed(state, message)
}

/// Advances a sync by one step. Both files are backed up before anything is
/// written; a failure before any backup aborts, a failure while the backups
/// are made discards them, and once both exist any failure restores both
/// files. Once both backups are made, documents that registration accepts
/// and `serde_json` renders are written; the sync commits only when both
/// files read back hold the provider and the key.
pub fn step(req: &SyncRequest, state: SyncState, event: SyncEvent) -> (r: (SyncState, SyncAction))
    requires
        state.expects(event),
    ensures
        transition(*req, state, event, r.0, r.1),
        state.rank() < r.0.rank(),
        (r.1 is Write || r.1 is Commit) ==> 3 <= state.rank() <= 7,
        r.1 is Rollback ==> 4 <= state.rank() <= 7,
        r.1 is Discard ==> 2 <= state.rank() <= 3,
        r.1 is Abort ==> state.rank() <= 1,
        match state {
            SyncState::BackupAuth { models, auth } => (event matches SyncEvent::Done(Ok(_))
                && numbers_ok(models.model()) && numbers_ok(auth.model())
                && registered(models.model(), auth.model(), req.endpoint@, req.context_window as int, req.api_key@) is Ok)
                ==> r.1 is Write,
            _ => true,
        },
        r.1 is Commit ==> {
            &&& state matches SyncState::RereadAuth { models }
            &&& event matches SyncEvent::Text(Ok(t))
            &&& json_parse(t@) matches Some(a)
            &&& written_error(models.model(), a, req.endpoint@, req.api_key@) is None
        },
{
    match (state, event) {
        (s, SyncEvent::Text(Err(e))) => failed_action(&s, e),
        (s, SyncEvent::Done(Err(e))) => failed_action(&s, e),
        (SyncState::ReadModels, SyncEvent::Text(Ok(t))) =>
            (SyncState::ReadAuth { models_raw: t }, SyncAction::Read(PiFile::Auth)),
        (SyncState::ReadAuth { models_raw }, SyncEvent::Text(Ok(t))) => {
            let models = match parse_json(models_raw.as_str()) {
                Ok(m) => m,
                Err(d) => return end_failed(&SyncState::ReadAuth { models_raw }, prefixed("models.json is not valid JSON: ", d)),
            };
            let auth = match parse_json(t.as_str()) {
                Ok(a) => a,
                Err(d) => return end_failed(&SyncState::ReadAuth { models_raw }, prefixed("auth.json is not valid JSON: ", d)),
            };
            (SyncState::BackupModels { models, auth }, SyncAction::Backup(PiFile::Models))
        },
        (SyncState::BackupModels { models, auth }, SyncEvent::Done(Ok(()))) =>
            (SyncState::BackupAuth { models, auth }, SyncAction::Backup(PiFile::Auth)),
        (SyncState::BackupAuth { models, auth }, SyncEvent::Done(Ok(()))) =>
            match register_provider(models, auth, req.endpoint.as_str(), req.context_window, req.api_key.as_str()) {
                Ok((m2, a2)) => {
                    let models_text = match render_json(m2) {
                        Ok(t) => t,
                        Err(d) => return (SyncState::Finished, SyncAction::Discard(prefixed("serialize models failed: ", d))),
                    };
                    let auth_text = match render_json(a2) {
                        Ok(t) => t,
                        Err(d) => return (SyncState::Finished, SyncAction::Discard(prefixed("serialize auth failed: ", d))),
                    };
                    (SyncState::WriteModels { auth_text }, SyncAction::Write(PiFile::Models, models_text))
                },
                Err(e) => (SyncState::Finished, SyncAction::Discard(e)),
            },
        (SyncState::WriteModels { auth_text }, SyncEvent::Done(Ok(()))) =>
            (SyncState::WriteAuth, SyncAction::Write(PiFile::Auth, auth_text)),
        (SyncState::WriteAuth, SyncEvent::Done(Ok(()))) =>
            (SyncState::RereadModels, SyncAction::Read(PiFile::Models)),
        (SyncState::RereadModels, SyncEvent::Text(Ok(t))) =>
            match parse_json(t.as_str()) {
                Ok(models) => (SyncState::RereadAuth { models }, SyncAction::Read(PiFile::Auth)),
                Err(d) => (SyncState::Finished, SyncAction::Rollback(prefixed("models.json invalid after write: ", d))),
            },
        (SyncState::RereadAuth { models }, SyncEvent::Text(Ok(t))) =>
            match parse_json(t.as_str()) {
                Ok(auth) => match check_written(&models, &auth, req.endpoint.as_str(), req.api_key.as_str()) {
                    Ok(()) => (SyncState::Finished, SyncAction::Commit),
                    Err(e) => (SyncState::Finished, SyncAction::Rollback(e)),
                },
                Err(d) => (SyncState::Finished, SyncAction::Rollback(prefixed("auth.json invalid after write: ", d))),
            },
        (s, _) => (s, SyncAction::Commit),
    }
}

/// A run of a sync from its start: `actions[i]` is issued on entering
/// `states[i]`, and `events[i]` answers it.
pub open spec fn is_run(
    req: SyncRequest,
    states: Seq<SyncState>,
    events: Seq<SyncEvent>,
    actions: Seq<SyncAction>,
) -> bool {
    &&& states.len() == actions.len()
    &&& actions.len() == events.len() + 1
    &&& states[0] == SyncState::ReadModels
    &&& actions[0] == SyncAction::Read(PiFile::Models)
    &&& forall|i: int| 0 <= i < events.len() ==> {
        &&& states[i].expects(#[trigger] events[i])
        &&& transition(req, states[i], events[i], states[i + 1], actions[i + 1])
    }
}

/// Each step moves to the next state of the sequence, or ends the sync.
pub proof fn lemma_transition_advances(
    req: SyncRequest,
    state: SyncState,
    event: SyncEvent,
    next: SyncState,
    action: SyncAction,
)
    requires
        state.expects(event),
        transition(req, state, event, next, action),
    ensures
        next is Finished || next.rank() == state.rank() + 1,
        !(next is Finished) ==> event.failure() is None,
        (action is Write || action is Commit) ==> 3 <= state.rank() <= 7,
        action is Rollback ==> 4 <= state.rank() <= 7,
        action is Discard ==> 2 <= state.rank() <= 3,
        action is Abort ==> state.rank() <= 1,
        next is Finished <==> (action is Commit || action is Rollback || action is Discard || action is Abort),
        next is BackupAuth ==> action == SyncAction::Backup(PiFile::Auth),
        next is BackupModels ==> action == SyncAction::Backup(PiFile::Models),
        next is RereadModels ==> action == SyncAction::Read(PiFile::Models),
        next is RereadAuth ==> action == SyncAction::Read(PiFile::Auth),
        state is BackupAuth && action is Write ==> event.failure() is None,
        (state is BackupModels || state is BackupAuth) && event.failure() is None ==> event matches SyncEvent::Done(Ok(_)),
        (state is RereadModels || state is RereadAuth) && event.failure() is None ==> event matches SyncEvent::Text(Ok(_)),
{
}

/// In a run, the state at position `i` is the `i`-th of the sequence, unless
/// the sync has ended there; a run ends at its first `Finished`.
pub proof fn lemma_run_positions(
    req: SyncRequest,
    states: Seq<SyncState>,
    events: Seq<SyncEvent>,
    actions: Seq<SyncAction>,
    i: int,
)
    requires
        is_run(req, states, events, actions),
        0 <= i < states.len(),
    ensures
        states[i] is Finished ==> i == states.len() - 1,
        !(states[i] is Finished) ==> states[i].rank() == i,
    decreases i,
{
    if i < events.len() {
        assert(states[i].expects(events[i]));
    }
    if i > 0 {
        lemma_run_positions(req, states, events, actions, i - 1);
        assert(states[i - 1].expects(events[i - 1]));
        lemma_transition_advances(req, states[i - 1], events[i - 1], states[i], actions[i]);
    }
}

/// Every sync ends: a run holds at most nine actions.
pub proof fn lemma_run_ends(
    req: SyncRequest,
    states: Seq<SyncState>,
    events: Seq<SyncEvent>,
    actions: Seq<SyncAction>,
)
    requires
        is_run(req, states, events, actions),
    ensures
        actions.len() <= 9,
{
    if states.len() > 9 {
        lemma_run_positions(req, states, events, actions, 8);
        lemma_run_positions(req, states, events, actions, 9);
    }
}

/// Nothing is written, committed or rolled back before both backups were
/// made: in a run, such an action comes after the backup of `models.json`
/// (position 2) and of `auth.json` (position 3), both of which succeeded.
pub proof fn lemma_backups_before_writes(
    req: SyncRequest,
    states: Seq<SyncState>,
    events: Seq<SyncEvent>,
    actions: Seq<SyncAction>,
    k: int,
)
    requires
        is_run(req, states, events, actions),
        0 <= k < actions.len(),
        actions[k] is Write || actions[k] is Commit || actions[k] is Rollback,
    ensures
        4 <= k,
        actions[2] == SyncAction::Backup(PiFile::Models),
        events[2] matches SyncEvent::Done(Ok(_)),
        actions[3] == SyncAction::Backup(PiFile::Auth),
        events[3] matches SyncEvent::Done(Ok(_)),
{
    assert(k > 0);
    assert(states[k - 1].expects(events[k - 1]));
    lemma_transition_advances(req, states[k - 1], events[k - 1], states[k], actions[k]);
    lemma_run_positions(req, states, events, actions, k - 1);
    lemma_run_positions(req, states, events, actions, states.len() - 1);
    lemma_run_positions(req, states, events, actions, 1);
    lemma_run_positions(req, states, events, actions, 2);
    lemma_run_positions(req, states, events, actions, 3);
    lemma_run_positions(req, states, events, actions, 4);
    assert(states[1].expects(events[1]));
    assert(states[2].expects(events[2]));
    assert(states[3].expects(events[3]));
    lemma_transition_advances(req, states[1], events[1], states[2], actions[2]);
    lemma_transition_advances(req, states[2], events[2], states[3], actions[3]);
    lemma_transition_advances(req, states[3], events[3], states[4], actions[4]);
}

/// Once both backups are made, a sync whose registered documents `serde_json`
/// renders goes on to write them: first `models.json` with the rendered models
/// document, then, once that write succeeded, `auth.json` with the rendered
/// credentials.
pub proof fn lemma_backups_lead_to_writes(
    req: SyncRequest,
    states: Seq<SyncState>,
    events: Seq<SyncEvent>,
    actions: Seq<SyncAction>,
    models: JsonValue,
    auth: JsonValue,
)
    requires
        is_run(req, states, events, actions),
        4 < actions.len(),
        states[3] == (SyncState::BackupAuth { models, auth }),
        events[3] matches SyncEvent::Done(Ok(_)),
        registered(models.model(), auth.model(), req.endpoint@, req.context_window as int, req.api_key@)
            matches Ok((m2, a2)) && numbers_ok(m2) && numbers_ok(a2),
    ensures
        actions[4] matches SyncAction::Write(f, t) && f == PiFile::Models && t@ == json_pretty(
            registered(models.model(), auth.model(), req.endpoint@, req.context_window as int, req.api_key@)->Ok_0.0,
        ),
        (5 < actions.len() && (events[4] matches SyncEvent::Done(Ok(_)))) ==> (actions[5] matches SyncAction::Write(f, t)
            && f == PiFile::Auth && t@ == json_pretty(
            registered(models.model(), auth.model(), req.endpoint@, req.context_window as int, req.api_key@)->Ok_0.1,
        )),
{
    assert(states[3].expects(events[3]));
    if 5 < actions.len() {
        assert(states[4].expects(events[4]));
    }
}

/// A sync that runs its whole course commits when it reads back the texts it
/// wrote, provided the key is not empty and `serde_json` reads the rendering
/// of each registered document back as that document: from the two files it
/// read at the start, it registers the provider, writes both rendered
/// documents, reads them back and finds them synced.
pub proof fn lemma_faithful_sync_commits(
    req: SyncRequest,
    states: Seq<SyncState>,
    events: Seq<SyncEvent>,
    actions: Seq<SyncAction>,
)
    requires
        is_run(req, states, events, actions),
        actions.len() == 9,
        events[0] matches SyncEvent::Text(Ok(tm)) && events[1] matches SyncEvent::Text(Ok(ta))
            && json_parse(tm@) matches Some(mm) && json_parse(ta@) matches Some(aa)
            && registered(mm, aa, req.endpoint@, req.context_window as int, req.api_key@) matches Ok((m2, a2))
            && numbers_ok(m2) && numbers_ok(a2)
            && json_parse(json_pretty(m2)) == Some(m2) && json_parse(json_pretty(a2)) == Some(a2),
        actions[4] matches SyncAction::Write(_, w) && events[6] matches SyncEvent::Text(Ok(t)) && t@ == w@,
        actions[5] matches SyncAction::Write(_, w) && events[7] matches SyncEvent::Text(Ok(t)) && t@ == w@,
        req.api_key@.len() > 0,
    ensures
        actions[8] is Commit,
{
    lemma_run_positions(req, states, events, actions, 7);
    assert(states[0].expects(events[0]));
    assert(states[1].expects(events[1]));
    assert(states[2].expects(events[2]));
    assert(states[3].expects(events[3]));
    assert(states[4].expects(events[4]));
    assert(states[5].expects(events[5]));
    assert(states[6].expects(events[6]));
    assert(states[7].expects(events[7]));
    let tm = events[0]->Text_0->Ok_0;
    let ta = events[1]->Text_0->Ok_0;
    let mm = json_parse(tm@)->Some_0;
    let aa = json_parse(ta@)->Some_0;
    let (m2, a2) = registered(mm, aa, req.endpoint@, req.context_window as int, req.api_key@)->Ok_0;
    assert(!(states[7] is Finished));
    lemma_transition_advances(req, states[0], events[0], states[1], actions[1]);
    lemma_transition_advances(req, states[1], events[1], states[2], actions[2]);
    lemma_transition_advances(req, states[2], events[2], states[3], actions[3]);
    lemma_transition_advances(req, states[3], events[3], states[4], actions[4]);
    lemma_transition_advances(req, states[4], events[4], states[5], actions[5]);
    lemma_transition_advances(req, states[5], events[5], states[6], actions[6]);
    lemma_transition_advances(req, states[6], events[6], states[7], actions[7]);
    assert(states[1] == (SyncState::ReadAuth { models_raw: tm }));
    assert(states[2]->BackupModels_models.model() == mm);
    assert(states[3]->BackupAuth_models.model() == mm);
    assert(states[3]->BackupAuth_auth.model() == aa);
    assert(states[4]->WriteModels_auth_text@ == json_pretty(a2));
    assert(actions[4]->Write_1@ == json_pretty(m2));
    assert(actions[5] == SyncAction::Write(PiFile::Auth, states[4]->WriteModels_auth_text));
    assert(states[7]->RereadAuth_models.model() == m2);
    lemma_registered_passes_check(mm, aa, req.endpoint@, req.context_window as int, req.api_key@);
}

/// A sync that aborts does so before any backup was made: everything it did
/// before was reading the two files.
pub proof fn lemma_abort_before_backups(
    req: SyncRequest,
    states: Seq<SyncState>,
    events: Seq<SyncEvent>,
    actions: Seq<SyncAction>,
    k: int,
)
    requires
        is_run(req, states, events, actions),
        0 <= k < actions.len(),
        actions[k] is Abort,
    ensures
        k <= 2,
        forall|j: int| 0 <= j < k ==> #[trigger] actions[j] is Read,
{
    assert(k > 0);
    assert(states[k - 1].expects(events[k - 1]));
    lemma_transition_advances(req, states[k - 1], events[k - 1], states[k], actions[k]);
    lemma_run_positions(req, states, events, actions, k - 1);
    if k == 2 {
        lemma_run_positions(req, states, events, actions, 1);
        assert(states[0].expects(events[0]));
        lemma_transition_advances(req, states[0], events[0], states[1], actions[1]);
    }
}

/// A sync that commits has read back, from `models.json` and `auth.json`,
/// texts that are assessed as synced with its endpoint: as long as the files
/// are not changed again, `assess` on them answers `Synced`.
pub proof fn lemma_commit_reads_back_synced(
    req: SyncRequest,
    states: Seq<SyncState>,
    events: Seq<SyncEvent>,
    actions: Seq<SyncAction>,
    k: int,
)
    requires
        is_run(req, states, events, actions),
        0 <= k < actions.len(),
        actions[k] is Commit,
    ensures
        k == 8,
        actions[6] == SyncAction::Read(PiFile::Models),
        actions[7] == SyncAction::Read(PiFile::Auth),
        events[6] matches SyncEvent::Text(Ok(tm)) && events[7] matches SyncEvent::Text(Ok(ta))
            && assessment(json_parse(tm@), json_parse(ta@), Some(req.endpoint@)) == PiState::Synced,
{
    assert(k > 0);
    assert(states[k - 1].expects(events[k - 1]));
    lemma_transition_advances(req, states[k - 1], events[k - 1], states[k], actions[k]);
    lemma_run_positions(req, states, events, actions, k - 1);
    lemma_run_positions(req, states, events, actions, 6);
    lemma_run_positions(req, states, events, actions, 7);
    lemma_run_positions(req, states, events, actions, 5);
    assert(states[5].expects(events[5]));
    assert(states[6].expects(events[6]));
    assert(states[7].expects(events[7]));
    lemma_transition_advances(req, states[5], events[5], states[6], actions[6]);
    lemma_transition_advances(req, states[6], events[6], states[7], actions[7]);
    lemma_transition_advances(req, states[7], events[7], states[8], actions[8]);
    let tm = events[6]->Text_0->Ok_0;
    let ta = events[7]->Text_0->Ok_0;
    let models = states[7]->RereadAuth_models;
    assert(json_parse(tm@) == Some(models.model()));
    let a = json_parse(ta@)->Some_0;
    assert(written_error(models.model(), a, req.endpoint@, req.api_key@) is None);
    lemma_checked_is_synced(models.model(), a, req.endpoint@, req.api_key@);
}

} // verus!
