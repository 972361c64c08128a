use deepseek_balance::controller::{
    classify, Action, FetchOutcome, MenuItem, TrayApp, WindowEvent, MENU_QUIT, MENU_REFRESH,
    MENU_SETTINGS, WM_BALANCE_ERROR, WM_BALANCE_UPDATE, WM_COMMAND, WM_CONTEXTMENU, WM_DESTROY,
    WM_LBUTTONUP, WM_RBUTTONUP, WM_TIMER, WM_TRAY,
};
use deepseek_balance::interval::selected_interval;

fn s(t: &str) -> String {
    t.to_string()
}

fn app_with(key: Option<&str>, text: Option<&str>) -> TrayApp {
    TrayApp {
        balance_text: text.map(s),
        api_key: key.map(s),
        refresh_interval_sec: 300,
        fetch_failed: false,
        polling_round: 0,
        polling_stopped: false,
    }
}

fn fetched(currency: &str, amount: &str) -> FetchOutcome {
    FetchOutcome::Fetched { currency: s(currency), amount_text: s(amount) }
}

#[test]
fn message_numbers() {
    assert_eq!(WM_TRAY, 0x8001);
    assert_eq!(WM_BALANCE_UPDATE, 1124);
    assert_eq!(WM_BALANCE_ERROR, 1125);
}

#[test]
fn classify_tray_notifications() {
    assert_eq!(classify(WM_TRAY, 0, WM_RBUTTONUP as isize), WindowEvent::TrayContextMenu);
    assert_eq!(classify(WM_TRAY, 0, WM_CONTEXTMENU as isize), WindowEvent::TrayContextMenu);
    assert_eq!(classify(WM_TRAY, 0, WM_LBUTTONUP as isize), WindowEvent::TrayLeftClick);
    assert_eq!(classify(WM_TRAY, 0, 0x0200), WindowEvent::TrayOther);
}

#[test]
fn classify_other_messages() {
    assert_eq!(classify(WM_COMMAND, 1001, 0), WindowEvent::Command(MENU_REFRESH));
    assert_eq!(classify(WM_TIMER, 1, 0), WindowEvent::Timer);
    assert_eq!(classify(WM_BALANCE_UPDATE, 0, 0), WindowEvent::BalanceUpdated);
    assert_eq!(classify(WM_BALANCE_ERROR, 0, 0), WindowEvent::BalanceFailed);
    assert_eq!(classify(WM_DESTROY, 0, 0), WindowEvent::Destroy);
    assert_eq!(classify(0x000F, 0, 0), WindowEvent::Unhandled);
}

#[test]
fn start_with_key() {
    let (app, actions) = TrayApp::start(Some(s("sk-1")), Some(600));
    assert_eq!(app.api_key, Some(s("sk-1")));
    assert_eq!(app.balance_text, None);
    assert_eq!(app.refresh_interval_sec, 600);
    assert_eq!(
        actions,
        vec![
            Action::AddIcon(s("...")),
            Action::SetTooltip(s("DeepSeek Balance — Loading...")),
            Action::StartPolling(s("sk-1"), 600, 0),
        ]
    );
}

#[test]
fn start_without_key() {
    let (app, actions) = TrayApp::start(None, Some(7));
    assert_eq!(app.refresh_interval_sec, 300);
    assert_eq!(
        actions,
        vec![
            Action::AddIcon(s("🔑")),
            Action::SetTooltip(s("DeepSeek Balance — API Key not set")),
            Action::PostCommand(MENU_SETTINGS),
        ]
    );
}

#[test]
fn context_menu_entries() {
    let item = |l: &str, id: u32| MenuItem { label: s(l), id };
    let expected_tail = vec![
        item("", 0),
        item("Refresh Now", MENU_REFRESH),
        item("Settings...", MENU_SETTINGS),
        item("", 0),
        item("Quit", MENU_QUIT),
    ];
    let mut expected = vec![item("Balance: ...", 0)];
    expected.extend(expected_tail.clone());
    assert_eq!(app_with(None, None).handle(WindowEvent::TrayContextMenu), vec![Action::ShowMenu(expected)]);
    let mut expected = vec![item("Balance: ¥1.00", 0)];
    expected.extend(expected_tail);
    assert_eq!(
        app_with(None, Some("Balance: ¥1.00")).handle(WindowEvent::TrayContextMenu),
        vec![Action::ShowMenu(expected)]
    );
}

#[test]
fn left_click_tooltip() {
    assert_eq!(
        app_with(None, None).handle(WindowEvent::TrayLeftClick),
        vec![Action::SetTooltip(s("DeepSeek Balance"))]
    );
    assert_eq!(
        app_with(None, Some("Balance: $2.00")).handle(WindowEvent::TrayLeftClick),
        vec![Action::SetTooltip(s("Balance: $2.00"))]
    );
    assert_eq!(app_with(None, None).handle(WindowEvent::TrayOther), vec![]);
}

#[test]
fn refresh_command() {
    assert_eq!(
        app_with(Some("k"), None).handle(WindowEvent::Command(MENU_REFRESH)),
        vec![
            Action::SetIconText(s("...")),
            Action::SetTooltip(s("Refreshing...")),
            Action::FetchOnce(s("k")),
        ]
    );
    assert_eq!(
        app_with(None, None).handle(WindowEvent::Command(MENU_REFRESH)),
        vec![Action::SetIconText(s("...")), Action::SetTooltip(s("Refreshing..."))]
    );
}

#[test]
fn settings_and_quit_commands() {
    assert_eq!(
        app_with(Some("k"), None).handle(WindowEvent::Command(MENU_SETTINGS)),
        vec![Action::OpenSettings(s("k"), 300)]
    );
    assert_eq!(
        app_with(None, None).handle(WindowEvent::Command(MENU_SETTINGS)),
        vec![Action::OpenSettings(s(""), 300)]
    );
    assert_eq!(app_with(None, None).handle(WindowEvent::Command(MENU_QUIT)), vec![Action::DestroyWindow]);
    assert_eq!(app_with(None, None).handle(WindowEvent::Command(7)), vec![]);
}

#[test]
fn timer_updates_icon() {
    assert_eq!(
        app_with(None, Some("DeepSeek Balance: ¥12.34")).handle(WindowEvent::Timer),
        vec![
            Action::SetIconText(s("¥12.34")),
            Action::SetTooltip(s("DeepSeek Balance: ¥12.34")),
        ]
    );
    assert_eq!(app_with(None, None).handle(WindowEvent::Timer), vec![]);
}

#[test]
fn other_events() {
    let app = app_with(None, None);
    assert_eq!(app.handle(WindowEvent::BalanceUpdated), vec![]);
    assert_eq!(
        app.handle(WindowEvent::BalanceFailed),
        vec![Action::SetIconText(s("⚠️")), Action::SetTooltip(s("Error fetching balance"))]
    );
    assert_eq!(app.handle(WindowEvent::Destroy), vec![Action::StopPolling, Action::PostQuit]);
    assert_eq!(app.handle(WindowEvent::Unhandled), vec![Action::DefaultProcedure]);
}

#[test]
fn menu_selection_posts_commands() {
    for cmd in [MENU_REFRESH, MENU_SETTINGS, MENU_QUIT] {
        assert_eq!(TrayApp::menu_selection(cmd), vec![Action::PostCommand(cmd)]);
    }
    assert_eq!(TrayApp::menu_selection(0), vec![]);
}

#[test]
fn applying_settings() {
    let mut app = app_with(None, Some("Balance: $1.00"));
    let actions = app.apply_settings(s("sk-2"), 600);
    assert_eq!(
        actions,
        vec![
            Action::SaveKey(s("sk-2")),
            Action::SaveInterval(600),
            Action::EnableAutostart,
            Action::SetIconText(s("...")),
            Action::StartPolling(s("sk-2"), 600, 1),
        ]
    );
    assert_eq!(app.polling_round, 1);
    assert_eq!(app.api_key, Some(s("sk-2")));
    assert_eq!(app.refresh_interval_sec, 600);
    assert_eq!(app.balance_text, Some(s("Balance: $1.00")));
    assert_eq!(app.handle(WindowEvent::Command(MENU_SETTINGS)), vec![Action::OpenSettings(s("sk-2"), 600)]);
}

#[test]
fn poll_results() {
    let mut app = app_with(Some("k"), None);
    assert_eq!(app.on_poll_result(fetched("CNY", "12.34")), WM_TIMER);
    assert_eq!(app.balance_text, Some(s("DeepSeek Balance: ¥12.34")));
    assert_eq!(app.on_poll_result(fetched("USD", "0.50")), WM_TIMER);
    assert_eq!(app.balance_text, Some(s("DeepSeek Balance: $0.50")));
    assert_eq!(app.on_poll_result(FetchOutcome::Failed(s("Network: down"))), WM_BALANCE_ERROR);
    assert_eq!(app.balance_text, Some(s("Error: Network: down")));
}

#[test]
fn refresh_results() {
    let mut app = app_with(Some("k"), Some("DeepSeek Balance: ¥1.00"));
    assert_eq!(app.on_refresh_result(FetchOutcome::Failed(s("Bad number"))), WM_BALANCE_ERROR);
    assert_eq!(app.balance_text, Some(s("DeepSeek Balance: ¥1.00")));
    assert_eq!(app.on_refresh_result(fetched("CNY", "3.00")), WM_BALANCE_UPDATE);
    assert_eq!(app.balance_text, Some(s("Balance: ¥3.00")));
}

#[test]
fn polled_balance_is_shown_on_next_update() {
    let mut app = app_with(Some("k"), None);
    let msg = app.on_poll_result(fetched("CNY", "12.34"));
    let actions = app.handle(classify(msg, 0, 0));
    assert_eq!(
        actions,
        vec![
            Action::SetIconText(s("¥12.34")),
            Action::SetTooltip(s("DeepSeek Balance: ¥12.34")),
        ]
    );
}

#[test]
fn refreshed_balance_is_shown_on_next_update() {
    let mut app = app_with(Some("k"), None);
    app.on_refresh_result(fetched("USD", "7.25"));
    assert_eq!(
        app.handle(WindowEvent::Timer),
        vec![Action::SetIconText(s("$7.25")), Action::SetTooltip(s("Balance: $7.25"))]
    );
}

#[test]
fn error_indicator_then_recovery() {
    let mut app = app_with(Some("k"), Some("DeepSeek Balance: ¥1.00"));
    let msg = app.on_poll_result(FetchOutcome::Failed(s("Network: down")));
    assert!(app.fetch_failed);
    assert_eq!(
        app.handle(classify(msg, 0, 0)),
        vec![Action::SetIconText(s("⚠️")), Action::SetTooltip(s("Error fetching balance"))]
    );
    // The 500 ms display timer leaves the warning sign in place.
    assert_eq!(app.handle(WindowEvent::Timer), vec![]);
    assert_eq!(app.handle(classify(WM_TIMER, 1, 0)), vec![]);
    let msg = app.on_poll_result(fetched("CNY", "9.99"));
    assert!(!app.fetch_failed);
    assert_eq!(app.balance_text, Some(s("DeepSeek Balance: ¥9.99")));
    assert_eq!(
        app.handle(classify(msg, 0, 0)),
        vec![Action::SetIconText(s("¥9.99")), Action::SetTooltip(s("DeepSeek Balance: ¥9.99"))]
    );
}

#[test]
fn failed_refresh_keeps_warning_until_success() {
    let mut app = app_with(Some("k"), Some("DeepSeek Balance: ¥1.00"));
    let msg = app.on_refresh_result(FetchOutcome::Failed(s("Bad number")));
    assert_eq!(msg, WM_BALANCE_ERROR);
    assert!(app.fetch_failed);
    assert_eq!(app.balance_text, Some(s("DeepSeek Balance: ¥1.00")));
    assert_eq!(app.handle(WindowEvent::Timer), vec![]);
    app.on_refresh_result(fetched("USD", "2.00"));
    assert!(!app.fetch_failed);
    assert_eq!(
        app.handle(WindowEvent::Timer),
        vec![Action::SetIconText(s("$2.00")), Action::SetTooltip(s("Balance: $2.00"))]
    );
}

#[test]
fn interval_stays_valid_through_settings() {
    let (mut app, _) = TrayApp::start(Some(s("k")), Some(5));
    assert_eq!(app.refresh_interval_sec, 300);
    for sel in 0..7 {
        app.apply_settings(s("k"), selected_interval(sel));
        assert!((60..=3600).contains(&app.refresh_interval_sec));
    }
}

#[test]
fn menu_commands_come_back() {
    let app = app_with(None, None);
    let items = match &app.handle(WindowEvent::TrayContextMenu)[0] {
        Action::ShowMenu(items) => items.clone(),
        other => panic!("unexpected action {:?}", other),
    };
    for item in items {
        if item.id != 0 {
            let posted = TrayApp::menu_selection(item.id);
            assert_eq!(posted, vec![Action::PostCommand(item.id)]);
            assert_eq!(classify(WM_COMMAND, item.id as usize, 0), WindowEvent::Command(item.id));
        } else {
            assert_eq!(TrayApp::menu_selection(item.id), vec![]);
        }
    }
}

#[test]
fn polling_restarts_in_a_new_round() {
    let (mut app, _) = TrayApp::start(Some(s("k")), None);
    assert!(app.keeps_polling(0));
    app.apply_settings(s("k2"), 60);
    assert!(!app.keeps_polling(0));
    assert!(app.keeps_polling(1));
    app.polling_round = u64::MAX;
    let actions = app.apply_settings(s("k3"), 60);
    assert_eq!(actions.last(), Some(&Action::StartPolling(s("k3"), 60, 0)));
    assert!(app.keeps_polling(0));
    app.stop_polling();
    assert!(app.polling_stopped);
    assert!(!app.keeps_polling(0));
    assert!(!app.keeps_polling(1));
}
