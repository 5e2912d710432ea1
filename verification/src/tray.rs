use vstd::prelude::*;
use vstd::string::StringExecFns;
use crate::json::owned;
use crate::pi::PiState;
use crate::text::{opt_text, str_eq};

verus! {

/// Phase of the TPU session, as the panel and the tray show it.
#[derive(Debug, Clone, Copy, PartialEq, Eq, Structural)]
pub enum TpuPhase {
    Idle,
    Verifying,
    Queued,
    Provisioning,
    Starting,
    LoadingWeights,
    Compiling,
    Healthy,
    Ready,
    Stopping,
    Stopped,
    Failed,
}

/// The tray glyph: one chip with a status dot. Idle and stopped share a
/// neutral dot, queued and starting share amber, ready is green, error is red.
#[derive(Debug, Clone, Copy, PartialEq, Eq, Structural)]
pub enum TrayIcon {
    Idle,
    Queued,
    Starting,
    Ready,
    Error,
    Stopped,
}

pub open spec fn icon_of(phase: TpuPhase) -> TrayIcon {
    match phase {
        TpuPhase::Verifying | TpuPhase::Queued => TrayIcon::Queued,
        TpuPhase::Provisioning | TpuPhase::Starting | TpuPhase::LoadingWeights | TpuPhase::Compiling
        | TpuPhase::Healthy | TpuPhase::Stopping => TrayIcon::Starting,
        TpuPhase::Ready => TrayIcon::Ready,
        TpuPhase::Failed => TrayIcon::Error,
        TpuPhase::Idle => TrayIcon::Idle,
        TpuPhase::Stopped => TrayIcon::Stopped,
    }
}

/// The tray glyph for a phase.
pub fn icon_for(phase: TpuPhase) -> (r: TrayIcon)
    ensures
        r == icon_of(phase),
{
    match phase {
        TpuPhase::Verifying | TpuPhase::Queued => TrayIcon::Queued,
        TpuPhase::Provisioning | TpuPhase::Starting | TpuPhase::LoadingWeights | TpuPhase::Compiling
        | TpuPhase::Healthy | TpuPhase::Stopping => TrayIcon::Starting,
        TpuPhase::Ready => TrayIcon::Ready,
        TpuPhase::Failed => TrayIcon::Error,
        TpuPhase::Idle => TrayIcon::Idle,
        TpuPhase::Stopped => TrayIcon::Stopped,
    }
}

/// The title of the tray: the model's tray name, or "Kaggle TPU" when no model is known.
pub fn tray_title<'a>(model_name: Option<&'a str>) -> (r: &'a str)
    ensures
        r@ == match model_name {
            Some(n) => n@,
            None => "Kaggle TPU"@,
        },
{
    match model_name {
        Some(n) => n,
        None => "Kaggle TPU",
    }
}

/// Second line of the tooltip; `remaining` is the compact text of the time left.
pub open spec fn tooltip_phase_line(phase: TpuPhase, remaining: Option<Seq<char>>) -> Seq<char> {
    match phase {
        TpuPhase::Ready => match remaining {
            Some(t) => "READY \u{b7} "@ + t + " remaining"@,
            None => "READY"@,
        },
        TpuPhase::Verifying => "VERIFYING KAGGLE"@,
        TpuPhase::Queued => "WAITING FOR TPU"@,
        TpuPhase::Provisioning | TpuPhase::Starting | TpuPhase::LoadingWeights | TpuPhase::Compiling => "STARTING"@,
        TpuPhase::Healthy => "ALMOST READY"@,
        TpuPhase::Stopping => "STOPPING"@,
        TpuPhase::Failed => "ERROR"@,
        TpuPhase::Idle => "IDLE"@,
        TpuPhase::Stopped => "STOPPED"@,
    }
}

fn three(a: &str, b: &str, c: &str) -> (r: String)
    ensures
        r@ == a@ + b@ + c@,
{
    let mut r = owned(a);
    r.append(b);
    r.append(c);
    r
}

/// The tooltip: the title, then the phase line.
pub fn tooltip(title: &str, phase: TpuPhase, remaining: Option<&str>) -> (r: String)
    ensures
        r@ == title@ + "\n"@ + tooltip_phase_line(phase, opt_text(remaining)),
{
    let line2: String = match phase {
        TpuPhase::Ready => match remaining {
            Some(t) => three("READY \u{b7} ", t, " remaining"),
            None => owned("READY"),
        },
        TpuPhase::Verifying => owned("VERIFYING KAGGLE"),
        TpuPhase::Queued => owned("WAITING FOR TPU"),
        TpuPhase::Provisioning | TpuPhase::Starting | TpuPhase::LoadingWeights | TpuPhase::Compiling => owned("STARTING"),
        TpuPhase::Healthy => owned("ALMOST READY"),
        TpuPhase::Stopping => owned("STOPPING"),
        TpuPhase::Failed => owned("ERROR"),
        TpuPhase::Idle => owned("IDLE"),
        TpuPhase::Stopped => owned("STOPPED"),
    };
    three(title, "\n", line2.as_str())
}

/// The status line of the tray menu; `label` is the phase's own label, shown
/// for the phases without a line of their own.
pub open spec fn status_text(phase: TpuPhase, remaining: Option<Seq<char>>, label: Seq<char>) -> Seq<char> {
    match phase {
        TpuPhase::Ready => match remaining {
            Some(t) => "\u{25cf} READY \u{b7} "@ + t + " left"@,
            None => "\u{25cf} READY"@,
        },
        TpuPhase::Queued => "\u{25cf} WAITING FOR TPU"@,
        TpuPhase::Healthy => "\u{25cf} ALMOST READY"@,
        _ => "\u{25cf} "@ + label,
    }
}

/// The status line of the tray menu.
pub fn status_line(phase: TpuPhase, remaining: Option<&str>, label: &str) -> (r: String)
    ensures
        r@ == status_text(phase, opt_text(remaining), label@),
{
    match phase {
        TpuPhase::Ready => match remaining {
            Some(t) => three("\u{25cf} READY \u{b7} ", t, " left"),
            None => owned("\u{25cf} READY"),
        },
        TpuPhase::Queued => owned("\u{25cf} WAITING FOR TPU"),
        TpuPhase::Healthy => owned("\u{25cf} ALMOST READY"),
        _ => {
            proof {
                reveal_strlit("");
            }
            three("\u{25cf} ", label, "")
        },
    }
}

/// Text of the Pi item of the tray menu.
pub open spec fn pi_label_text(pi_sync_supported: bool, pi_status: PiState) -> Seq<char> {
    if !pi_sync_supported {
        "Pi: Qwen only"@
    } else {
        match pi_status {
            PiState::Synced => "Pi: ready"@,
            PiState::Stale => "Pi: re-sync needed"@,
            PiState::SyncFailed => "Pi: sync failed"@,
            PiState::NotConfigured => "Sync with Pi"@,
        }
    }
}

/// Text of the Pi item of the tray menu.
pub fn pi_menu_label(pi_sync_supported: bool, pi_status: PiState) -> (r: &'static str)
    ensures
        r@ == pi_label_text(pi_sync_supported, pi_status),
{
    if !pi_sync_supported {
        "Pi: Qwen only"
    } else {
        match pi_status {
            PiState::Synced => "Pi: ready",
            PiState::Stale => "Pi: re-sync needed",
            PiState::SyncFailed => "Pi: sync failed",
            PiState::NotConfigured => "Sync with Pi",
        }
    }
}

/// An entry of the tray menu.
#[derive(Debug, PartialEq)]
pub enum MenuEntry {
    Separator,
    Item { id: String, text: String, enabled: bool },
}

/// Model of a menu entry: a separator, or (id, text, enabled).
pub enum MenuEntryModel {
    Separator,
    Item(Seq<char>, Seq<char>, bool),
}

impl MenuEntry {
    pub open spec fn model(self) -> MenuEntryModel {
        match self {
            MenuEntry::Separator => MenuEntryModel::Separator,
            MenuEntry::Item { id, text, enabled } => MenuEntryModel::Item(id@, text@, enabled),
        }
    }
}

pub open spec fn menu_models(entries: Seq<MenuEntry>) -> Seq<MenuEntryModel> {
    entries.map_values(|e: MenuEntry| e.model())
}

/// The tray menu: title, status, panel, start, stop, Pi sync, Kaggle page,
/// settings and quit, with separators between the groups.
pub open spec fn menu_model(
    title: Seq<char>,
    status: Seq<char>,
    can_start: bool,
    can_stop: bool,
    pi_sync_supported: bool,
    pi_status: PiState,
    kernel_known: bool,
) -> Seq<MenuEntryModel> {
    seq![
        MenuEntryModel::Item("title"@, title, false),
        MenuEntryModel::Separator,
        MenuEntryModel::Item("status"@, status, false),
        MenuEntryModel::Item("open-panel"@, "Open panel"@, true),
        MenuEntryModel::Separator,
        MenuEntryModel::Item("start-tpu"@, "Start TPU"@, can_start),
        MenuEntryModel::Item("stop-tpu"@, "Stop TPU"@, can_stop),
        MenuEntryModel::Item("sync-pi"@, pi_label_text(pi_sync_supported, pi_status), pi_sync_supported),
        MenuEntryModel::Separator,
        MenuEntryModel::Item("open-kaggle"@, "Open Kaggle"@, kernel_known),
        MenuEntryModel::Item("settings"@, "Settings"@, true),
        MenuEntryModel::Item("quit"@, "Quit"@, true),
    ]
}

fn item(id: &str, text: &str, enabled: bool) -> (r: MenuEntry)
    ensures
        r.model() == MenuEntryModel::Item(id@, text@, enabled),
{
    MenuEntry::Item { id: owned(id), text: owned(text), enabled }
}

/// The entries of the tray menu. `title` is the tray title, `status` the
/// status line, `can_start` and `can_stop` what the phase allows, and
/// `kernel_known` whether a kernel page can be opened.
pub fn build_menu(
    title: &str,
    status: &str,
    can_start: bool,
    can_stop: bool,
    pi_sync_supported: bool,
    pi_status: PiState,
    kernel_known: bool,
) -> (r: Vec<MenuEntry>)
    ensures
        menu_models(r@) == menu_model(title@, status@, can_start, can_stop, pi_sync_supported, pi_status, kernel_known),
{
    let mut m: Vec<MenuEntry> = Vec::new();
    m.push(item("title", title, false));
    m.push(MenuEntry::Separator);
    m.push(item("status", status, false));
    m.push(item("open-panel", "Open panel", true));
    m.push(MenuEntry::Separator);
    m.push(item("start-tpu", "Start TPU", can_start));
    m.push(item("stop-tpu", "Stop TPU", can_stop));
    m.push(item("sync-pi", pi_menu_label(pi_sync_supported, pi_status), pi_sync_supported));
    m.push(MenuEntry::Separator);
    m.push(item("open-kaggle", "Open Kaggle", kernel_known));
    m.push(item("settings", "Settings", true));
    m.push(item("quit", "Quit", true));
    assert(menu_models(m@) =~= menu_model(title@, status@, can_start, can_stop, pi_sync_supported, pi_status, kernel_known));
    m
}

/// What a click on a menu item asks for.
#[derive(Debug, Clone, Copy, PartialEq, Eq, Structural)]
pub enum MenuAction {
    /// Show and focus the panel, and ask for a refresh.
    OpenPanel,
    /// Start a session, or reconnect to the existing one.
    StartTpu,
    /// Open the panel and ask it for the stop confirmation (the tray stops
    /// through the same confirmation as the panel).
    StopTpu,
    /// Sync the live endpoint into Pi, then refresh the tray.
    SyncPi,
    /// Open the active kernel's page.
    OpenKaggle,
    /// Open the panel on its settings.
    Settings,
    /// Quit the application.
    Quit,
}

pub open spec fn action_of(id: Seq<char>) -> Option<MenuAction> {
    if id == "open-panel"@ {
        Some(MenuAction::OpenPanel)
    } else if id == "start-tpu"@ {
        Some(MenuAction::StartTpu)
    } else if id == "stop-tpu"@ {
        Some(MenuAction::StopTpu)
    } else if id == "sync-pi"@ {
        Some(MenuAction::SyncPi)
    } else if id == "open-kaggle"@ {
        Some(MenuAction::OpenKaggle)
    } else if id == "settings"@ {
        Some(MenuAction::Settings)
    } else if id == "quit"@ {
        Some(MenuAction::Quit)
    } else {
        None
    }
}

/// The action of a menu item id; other ids do nothing.
pub fn handle_menu(id: &str) -> (r: Option<MenuAction>)
    ensures
        r == action_of(id@),
{
    if str_eq(id, "open-panel") {
        Some(MenuAction::OpenPanel)
    } else if str_eq(id, "start-tpu") {
        Some(MenuAction::StartTpu)
    } else if str_eq(id, "stop-tpu") {
        Some(MenuAction::StopTpu)
    } else if str_eq(id, "sync-pi") {
        Some(MenuAction::SyncPi)
    } else if str_eq(id, "open-kaggle") {
        Some(MenuAction::OpenKaggle)
    } else if str_eq(id, "settings") {
        Some(MenuAction::Settings)
    } else if str_eq(id, "quit") {
        Some(MenuAction::Quit)
    } else {
        None
    }
}

/// The Kaggle page of the active kernel, opened by "Open Kaggle".
pub fn kernel_page_url(kernel: Option<&str>) -> (r: Result<String, String>)
    ensures
        match kernel {
            Some(k) => r matches Ok(u) && u@ == "https://www.kaggle.com/code/"@ + k@,
            None => r matches Err(e) && e@ == "No kernel known yet"@,
        },
{
    match kernel {
        Some(k) => {
            let mut u = owned("https://www.kaggle.com/code/");
            u.append(k);
            Ok(u)
        },
        None => Err(owned("No kernel known yet")),
    }
}

/// Every item of the tray menu that can be enabled has an action, and the two
/// lines that only inform (title and status) are never enabled.
pub proof fn lemma_menu_items_have_actions(
    title: Seq<char>,
    status: Seq<char>,
    can_start: bool,
    can_stop: bool,
    pi_sync_supported: bool,
    pi_status: PiState,
    kernel_known: bool,
)
    ensures
        ({
            let menu = menu_model(title, status, can_start, can_stop, pi_sync_supported, pi_status, kernel_known);
            forall|i: int| 0 <= i < menu.len() ==> match #[trigger] menu[i] {
                MenuEntryModel::Item(id, _, enabled) => if id == "title"@ || id == "status"@ {
                    !enabled && action_of(id) is None
                } else {
                    action_of(id) is Some
                },
                MenuEntryModel::Separator => true,
            }
        }),
{
    reveal_strlit("title");
    reveal_strlit("status");
    reveal_strlit("open-panel");
    reveal_strlit("start-tpu");
    reveal_strlit("stop-tpu");
    reveal_strlit("sync-pi");
    reveal_strlit("open-kaggle");
    reveal_strlit("settings");
    reveal_strlit("quit");
    assert("title"@.len() == 5 && "status"@.len() == 6 && "open-panel"@.len() == 10 && "start-tpu"@.len() == 9);
    assert("stop-tpu"@.len() == 8 && "sync-pi"@.len() == 7 && "open-kaggle"@.len() == 11 && "settings"@.len() == 8);
    assert("quit"@.len() == 4);
    assert("stop-tpu"@[1] != "settings"@[1]);
    assert("title"@[0] != "start-tpu"@[0] || "title"@.len() != "start-tpu"@.len());
    assert("status"@[1] != "sync-pi"@[1] || "status"@.len() != "sync-pi"@.len());
}

/// Each entry of the tray menu that can be switched off is enabled by its own
/// input alone: "Start TPU" exactly when a start is allowed, "Stop TPU" exactly
/// when a stop is, the Pi sync entry exactly when syncing is supported, and
/// "Open Kaggle" exactly when a kernel page is known, whatever the other
/// inputs; the panel, settings and quit entries are always enabled. Each of
/// these entries is in the menu.
pub proof fn lemma_menu_entries_follow_their_own_input(
    title: Seq<char>,
    status: Seq<char>,
    can_start: bool,
    can_stop: bool,
    pi_sync_supported: bool,
    pi_status: PiState,
    kernel_known: bool,
)
    ensures
        ({
            let menu = menu_model(title, status, can_start, can_stop, pi_sync_supported, pi_status, kernel_known);
            &&& forall|i: int| 0 <= i < menu.len() ==> match #[trigger] menu[i] {
                MenuEntryModel::Item(id, _, enabled) => {
                    &&& id == "start-tpu"@ ==> enabled == can_start
                    &&& id == "stop-tpu"@ ==> enabled == can_stop
                    &&& id == "sync-pi"@ ==> enabled == pi_sync_supported
                    &&& id == "open-kaggle"@ ==> enabled == kernel_known
                    &&& (id == "open-panel"@ || id == "settings"@ || id == "quit"@) ==> enabled
                },
                MenuEntryModel::Separator => true,
            }
            &&& exists|i: int| 0 <= i < menu.len() && (#[trigger] menu[i] matches MenuEntryModel::Item(id, _, _) && id == "start-tpu"@)
            &&& exists|i: int| 0 <= i < menu.len() && (#[trigger] menu[i] matches MenuEntryModel::Item(id, _, _) && id == "stop-tpu"@)
            &&& exists|i: int| 0 <= i < menu.len() && (#[trigger] menu[i] matches MenuEntryModel::Item(id, _, _) && id == "sync-pi"@)
            &&& exists|i: int| 0 <= i < menu.len() && (#[trigger] menu[i] matches MenuEntryModel::Item(id, _, _) && id == "open-kaggle"@)
        }),
{
    reveal_strlit("title");
    reveal_strlit("status");
    reveal_strlit("open-panel");
    reveal_strlit("start-tpu");
    reveal_strlit("stop-tpu");
    reveal_strlit("sync-pi");
    reveal_strlit("open-kaggle");
    reveal_strlit("settings");
    reveal_strlit("quit");
    assert("title"@.len() == 5 && "status"@.len() == 6 && "open-panel"@.len() == 10 && "start-tpu"@.len() == 9);
    assert("stop-tpu"@.len() == 8 && "sync-pi"@.len() == 7 && "open-kaggle"@.len() == 11 && "settings"@.len() == 8);
    assert("quit"@.len() == 4);
    assert("stop-tpu"@[1] != "settings"@[1]);
    let menu = menu_model(title, status, can_start, can_stop, pi_sync_supported, pi_status, kernel_known);
    assert(menu[5] matches MenuEntryModel::Item(id, _, _) && id == "start-tpu"@);
    assert(menu[6] matches MenuEntryModel::Item(id, _, _) && id == "stop-tpu"@);
    assert(menu[7] matches MenuEntryModel::Item(id, _, _) && id == "sync-pi"@);
    assert(menu[9] matches MenuEntryModel::Item(id, _, _) && id == "open-kaggle"@);
}

/// Choosing an item of the tray menu (below the title and the status line)
/// does what its text says: "Open panel"
/// opens the panel, "Start TPU" starts, "Stop TPU" stops, the Pi item syncs,
/// "Open Kaggle" opens the kernel page, "Settings" opens the settings and
/// "Quit" quits.
pub proof fn lemma_menu_items_do_what_they_say(
    title: Seq<char>,
    status: Seq<char>,
    can_start: bool,
    can_stop: bool,
    pi_sync_supported: bool,
    pi_status: PiState,
    kernel_known: bool,
)
    ensures
        ({
            let menu = menu_model(title, status, can_start, can_stop, pi_sync_supported, pi_status, kernel_known);
            forall|i: int| 3 <= i < menu.len() ==> match #[trigger] menu[i] {
                MenuEntryModel::Item(id, text, _) => {
                    &&& text == "Open panel"@ ==> action_of(id) == Some(MenuAction::OpenPanel)
                    &&& text == "Start TPU"@ ==> action_of(id) == Some(MenuAction::StartTpu)
                    &&& text == "Stop TPU"@ ==> action_of(id) == Some(MenuAction::StopTpu)
                    &&& text == pi_label_text(pi_sync_supported, pi_status) ==> action_of(id) == Some(MenuAction::SyncPi)
                    &&& text == "Open Kaggle"@ ==> action_of(id) == Some(MenuAction::OpenKaggle)
                    &&& text == "Settings"@ ==> action_of(id) == Some(MenuAction::Settings)
                    &&& text == "Quit"@ ==> action_of(id) == Some(MenuAction::Quit)
                },
                MenuEntryModel::Separator => true,
            }
        }),
{
    reveal_strlit("open-panel");
    reveal_strlit("start-tpu");
    reveal_strlit("stop-tpu");
    reveal_strlit("sync-pi");
    reveal_strlit("open-kaggle");
    reveal_strlit("settings");
    reveal_strlit("quit");
    reveal_strlit("Open panel");
    reveal_strlit("Start TPU");
    reveal_strlit("Stop TPU");
    reveal_strlit("Open Kaggle");
    reveal_strlit("Settings");
    reveal_strlit("Quit");
    reveal_strlit("Pi: Qwen only");
    reveal_strlit("Pi: ready");
    reveal_strlit("Pi: re-sync needed");
    reveal_strlit("Pi: sync failed");
    reveal_strlit("Sync with Pi");
    assert("open-panel"@.len() == 10 && "start-tpu"@.len() == 9 && "stop-tpu"@.len() == 8);
    assert("sync-pi"@.len() == 7 && "open-kaggle"@.len() == 11 && "settings"@.len() == 8 && "quit"@.len() == 4);
    assert("stop-tpu"@[1] != "settings"@[1]);
    assert("Open panel"@.len() == 10 && "Start TPU"@.len() == 9 && "Stop TPU"@.len() == 8);
    assert("Open Kaggle"@.len() == 11 && "Settings"@.len() == 8 && "Quit"@.len() == 4);
    assert("Stop TPU"@[1] != "Settings"@[1]);
    assert("Pi: Qwen only"@.len() == 13 && "Pi: ready"@.len() == 9 && "Pi: re-sync needed"@.len() == 18);
    assert("Pi: sync failed"@.len() == 15 && "Sync with Pi"@.len() == 12);
    assert("Pi: ready"@[0] != "Start TPU"@[0]);
}

/// The tray glyph shows ready only for a ready session, the error glyph only
/// for a failed one, and the amber waiting glyph exactly while Kaggle is
/// verified or the session is queued.
pub proof fn lemma_icon_follows_phase(phase: TpuPhase)
    ensures
        (icon_of(phase) == TrayIcon::Ready) <==> (phase == TpuPhase::Ready),
        (icon_of(phase) == TrayIcon::Error) <==> (phase == TpuPhase::Failed),
        (icon_of(phase) == TrayIcon::Queued) <==> (phase == TpuPhase::Verifying || phase == TpuPhase::Queued),
        (icon_of(phase) == TrayIcon::Idle) <==> (phase == TpuPhase::Idle),
        (icon_of(phase) == TrayIcon::Stopped) <==> (phase == TpuPhase::Stopped),
{
}

/// The tooltip's phase line and the menu's status line read "READY" only for a
/// ready session, and then carry the remaining time when it is known; the
/// status line of a phase without a line of its own shows the phase's label.
pub proof fn lemma_ready_lines_carry_remaining_time(phase: TpuPhase, remaining: Option<Seq<char>>, label: Seq<char>)
    ensures
        phase == TpuPhase::Ready && remaining is Some ==> ({
            let t = remaining->Some_0;
            &&& tooltip_phase_line(phase, remaining).subrange(8, 8 + t.len() as int) == t
            &&& status_text(phase, remaining, label).subrange(10, 10 + t.len() as int) == t
        }),
        tooltip_phase_line(phase, remaining).len() >= 5 && tooltip_phase_line(phase, remaining).subrange(0, 5) == "READY"@
            <==> phase == TpuPhase::Ready,
        !(phase == TpuPhase::Ready || phase == TpuPhase::Queued || phase == TpuPhase::Healthy) ==> ({
            let line = status_text(phase, remaining, label);
            line.len() == label.len() + 2 && line.subrange(2, line.len() as int) == label
        }),
{
    reveal_strlit("READY \u{b7} ");
    reveal_strlit(" remaining");
    reveal_strlit("READY");
    reveal_strlit("VERIFYING KAGGLE");
    reveal_strlit("WAITING FOR TPU");
    reveal_strlit("STARTING");
    reveal_strlit("ALMOST READY");
    reveal_strlit("STOPPING");
    reveal_strlit("ERROR");
    reveal_strlit("IDLE");
    reveal_strlit("STOPPED");
    reveal_strlit("\u{25cf} READY \u{b7} ");
    reveal_strlit(" left");
    reveal_strlit("\u{25cf} ");
    let line = tooltip_phase_line(phase, remaining);
    if phase == TpuPhase::Ready {
        assert(line.subrange(0, 5) =~= "READY"@);
        if remaining is Some {
            let t = remaining->Some_0;
            assert(line.subrange(8, 8 + t.len() as int) =~= t);
            let st = status_text(phase, remaining, label);
            assert(st.subrange(10, 10 + t.len() as int) =~= t);
        }
    } else {
        if line.len() >= 5 {
            assert(line.subrange(0, 5)[0] != 'R' || line.subrange(0, 5) != "READY"@);
        }
    }
    if !(phase == TpuPhase::Ready || phase == TpuPhase::Queued || phase == TpuPhase::Healthy) {
        let st = status_text(phase, remaining, label);
        assert(st.subrange(2, st.len() as int) =~= label);
    }
}

} // verus!
