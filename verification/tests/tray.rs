use kaggle_tpu_companion::pi::PiState;
use kaggle_tpu_companion::tray::{
    build_menu, handle_menu, icon_for, kernel_page_url, pi_menu_label, status_line, tooltip, tray_title, MenuAction, MenuEntry,
    TpuPhase, TrayIcon,
};

#[test]
fn icons_follow_the_phase() {
    assert_eq!(icon_for(TpuPhase::Verifying), TrayIcon::Queued);
    assert_eq!(icon_for(TpuPhase::Queued), TrayIcon::Queued);
    for p in [
        TpuPhase::Provisioning,
        TpuPhase::Starting,
        TpuPhase::LoadingWeights,
        TpuPhase::Compiling,
        TpuPhase::Healthy,
        TpuPhase::Stopping,
    ] {
        assert_eq!(icon_for(p), TrayIcon::Starting);
    }
    assert_eq!(icon_for(TpuPhase::Ready), TrayIcon::Ready);
    assert_eq!(icon_for(TpuPhase::Failed), TrayIcon::Error);
    assert_eq!(icon_for(TpuPhase::Idle), TrayIcon::Idle);
    assert_eq!(icon_for(TpuPhase::Stopped), TrayIcon::Stopped);
}

#[test]
fn tooltip_lines() {
    assert_eq!(tooltip("Kaggle TPU", TpuPhase::Ready, Some("2h 10m")), "Kaggle TPU\nREADY \u{b7} 2h 10m remaining");
    assert_eq!(tooltip("Kaggle TPU", TpuPhase::Ready, None), "Kaggle TPU\nREADY");
    assert_eq!(tooltip("Qwen", TpuPhase::Queued, None), "Qwen\nWAITING FOR TPU");
    assert_eq!(tooltip("Qwen", TpuPhase::Verifying, None), "Qwen\nVERIFYING KAGGLE");
    assert_eq!(tooltip("Qwen", TpuPhase::Compiling, None), "Qwen\nSTARTING");
    assert_eq!(tooltip("Qwen", TpuPhase::Healthy, None), "Qwen\nALMOST READY");
    assert_eq!(tooltip("Qwen", TpuPhase::Stopping, None), "Qwen\nSTOPPING");
    assert_eq!(tooltip("Qwen", TpuPhase::Failed, None), "Qwen\nERROR");
    assert_eq!(tooltip("Qwen", TpuPhase::Idle, None), "Qwen\nIDLE");
    assert_eq!(tooltip("Qwen", TpuPhase::Stopped, Some("1m")), "Qwen\nSTOPPED");
    assert_eq!(tray_title(None), "Kaggle TPU");
    assert_eq!(tray_title(Some("Qwen3.8")), "Qwen3.8");
}

#[test]
fn status_lines() {
    assert_eq!(status_line(TpuPhase::Ready, Some("5m"), "READY"), "\u{25cf} READY \u{b7} 5m left");
    assert_eq!(status_line(TpuPhase::Ready, None, "READY"), "\u{25cf} READY");
    assert_eq!(status_line(TpuPhase::Queued, None, "QUEUED"), "\u{25cf} WAITING FOR TPU");
    assert_eq!(status_line(TpuPhase::Healthy, None, "HEALTHY"), "\u{25cf} ALMOST READY");
    assert_eq!(status_line(TpuPhase::Compiling, None, "COMPILING"), "\u{25cf} COMPILING");
}

#[test]
fn pi_labels() {
    assert_eq!(pi_menu_label(false, PiState::Synced), "Pi: Qwen only");
    assert_eq!(pi_menu_label(true, PiState::Synced), "Pi: ready");
    assert_eq!(pi_menu_label(true, PiState::Stale), "Pi: re-sync needed");
    assert_eq!(pi_menu_label(true, PiState::SyncFailed), "Pi: sync failed");
    assert_eq!(pi_menu_label(true, PiState::NotConfigured), "Sync with Pi");
}

fn item(id: &str, text: &str, enabled: bool) -> MenuEntry {
    MenuEntry::Item { id: id.to_string(), text: text.to_string(), enabled }
}

#[test]
fn menu_entries_and_their_actions() {
    let menu = build_menu("Kaggle TPU", "\u{25cf} IDLE", true, false, true, PiState::Stale, false);
    assert_eq!(
        menu,
        vec![
            item("title", "Kaggle TPU", false),
            MenuEntry::Separator,
            item("status", "\u{25cf} IDLE", false),
            item("open-panel", "Open panel", true),
            MenuEntry::Separator,
            item("start-tpu", "Start TPU", true),
            item("stop-tpu", "Stop TPU", false),
            item("sync-pi", "Pi: re-sync needed", true),
            MenuEntry::Separator,
            item("open-kaggle", "Open Kaggle", false),
            item("settings", "Settings", true),
            item("quit", "Quit", true),
        ]
    );
    for e in &menu {
        if let MenuEntry::Item { id, .. } = e {
            let action = handle_menu(id);
            assert_eq!(action.is_none(), id == "title" || id == "status", "{id}");
        }
    }
    assert_eq!(handle_menu("open-panel"), Some(MenuAction::OpenPanel));
    assert_eq!(handle_menu("start-tpu"), Some(MenuAction::StartTpu));
    assert_eq!(handle_menu("stop-tpu"), Some(MenuAction::StopTpu));
    assert_eq!(handle_menu("sync-pi"), Some(MenuAction::SyncPi));
    assert_eq!(handle_menu("open-kaggle"), Some(MenuAction::OpenKaggle));
    assert_eq!(handle_menu("settings"), Some(MenuAction::Settings));
    assert_eq!(handle_menu("quit"), Some(MenuAction::Quit));
    assert_eq!(handle_menu("unknown"), None);
}

#[test]
fn kaggle_page_of_the_kernel() {
    assert_eq!(kernel_page_url(Some("me/qwen")), Ok("https://www.kaggle.com/code/me/qwen".to_string()));
    assert_eq!(kernel_page_url(None), Err("No kernel known yet".to_string()));
}
