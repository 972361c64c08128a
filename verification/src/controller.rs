//! The decisions of the tray application's main window: which message is which,
//! what each one changes, and what the window then has to do.
//!
//! The window procedure, the polling thread and the settings dialog live outside
//! this module; they hand each message or fetch result to [`TrayApp`] and carry out
//! the [`Action`]s it returns, in order.
use vstd::prelude::*;

use crate::balance::{currency_symbol, symbol_for};
use crate::interval::{interval_from_stored, spec_interval_from_stored, valid_interval};
use crate::text::{
    display_part, display_part_of, first_separator, lemma_display_part_after_prefix,
};

verus! {

// ── Window messages ────────────────────────────────────────────────

pub const WM_DESTROY: u32 = 0x0002;
pub const WM_CONTEXTMENU: u32 = 0x007B;
pub const WM_COMMAND: u32 = 0x0111;
pub const WM_TIMER: u32 = 0x0113;
pub const WM_LBUTTONUP: u32 = 0x0202;
pub const WM_RBUTTONUP: u32 = 0x0205;
pub const WM_USER: u32 = 0x0400;
pub const WM_APP: u32 = 0x8000;

/// Callback message of the tray icon.
pub const WM_TRAY: u32 = WM_APP + 1;
/// Posted when a manual refresh has stored a new balance line.
pub const WM_BALANCE_UPDATE: u32 = WM_USER + 100;
/// Posted when fetching the balance failed.
pub const WM_BALANCE_ERROR: u32 = WM_USER + 101;

/// Menu command: fetch the balance now.
pub const MENU_REFRESH: u32 = 1001;
/// Menu command: open the settings dialog.
pub const MENU_SETTINGS: u32 = 1002;
/// Menu command: quit.
pub const MENU_QUIT: u32 = 1003;

/// Identifier of the application's tray icon.
pub const TRAY_UID: u32 = 1;

/// A message of the main window, as far as the application tells them apart.
#[derive(Clone, Copy, Debug, PartialEq, Eq, Structural)]
pub enum WindowEvent {
    /// Right button released on the tray icon, or its context-menu key.
    TrayContextMenu,
    /// Left button released on the tray icon.
    TrayLeftClick,
    /// Any other tray-icon notification.
    TrayOther,
    /// A menu command with its identifier.
    Command(u32),
    /// The display timer fired (or a fetch asked for an immediate update).
    Timer,
    /// A manual refresh stored a new balance line.
    BalanceUpdated,
    /// Fetching the balance failed.
    BalanceFailed,
    /// The window is being destroyed.
    Destroy,
    /// Any other message, left to the default window procedure.
    Unhandled,
}

/// Which event a window message is, from its number and parameters.
pub open spec fn spec_classify(msg: u32, wparam: usize, lparam: isize) -> WindowEvent {
    if msg == WM_TRAY {
        let ev = lparam as u32;
        if ev == WM_RBUTTONUP || ev == WM_CONTEXTMENU {
            WindowEvent::TrayContextMenu
        } else if ev == WM_LBUTTONUP {
            WindowEvent::TrayLeftClick
        } else {
            WindowEvent::TrayOther
        }
    } else if msg == WM_COMMAND {
        WindowEvent::Command(wparam as u32)
    } else if msg == WM_TIMER {
        WindowEvent::Timer
    } else if msg == WM_BALANCE_UPDATE {
        WindowEvent::BalanceUpdated
    } else if msg == WM_BALANCE_ERROR {
        WindowEvent::BalanceFailed
    } else if msg == WM_DESTROY {
        WindowEvent::Destroy
    } else {
        WindowEvent::Unhandled
    }
}

/// Tells a window message apart: the tray callback by its notification (the low 32
/// bits of `lparam`), a command by its identifier (the low 32 bits of `wparam`).
pub fn classify(msg: u32, wparam: usize, lparam: isize) -> (e: WindowEvent)
    ensures
        e == spec_classify(msg, wparam, lparam),
{
    if msg == WM_TRAY {
        let ev = lparam as u32;
        if ev == WM_RBUTTONUP || ev == WM_CONTEXTMENU {
            WindowEvent::TrayContextMenu
        } else if ev == WM_LBUTTONUP {
            WindowEvent::TrayLeftClick
        } else {
            WindowEvent::TrayOther
        }
    } else if msg == WM_COMMAND {
        WindowEvent::Command(wparam as u32)
    } else if msg == WM_TIMER {
        WindowEvent::Timer
    } else if msg == WM_BALANCE_UPDATE {
        WindowEvent::BalanceUpdated
    } else if msg == WM_BALANCE_ERROR {
        WindowEvent::BalanceFailed
    } else if msg == WM_DESTROY {
        WindowEvent::Destroy
    } else {
        WindowEvent::Unhandled
    }
}

// ── What the window is asked to do ─────────────────────────────────

/// One entry of the tray icon's context menu; an empty label marks a separator
/// (except in first place).
#[derive(Clone, Debug, PartialEq, Eq)]
pub struct MenuItem {
    pub label: String,
    pub id: u32,
}

impl View for MenuItem {
    type V = (Seq<char>, u32);

    open spec fn view(&self) -> (Seq<char>, u32) {
        (self.label@, self.id)
    }
}

/// Something the window must do, in the order given.
#[derive(Clone, Debug, PartialEq, Eq)]
pub enum Action {
    /// Put the icon in the tray showing this text.
    AddIcon(String),
    /// Show this text on the icon.
    SetIconText(String),
    /// Set the icon's tooltip.
    SetTooltip(String),
    /// Pop up the context menu with these entries and hand the chosen command to
    /// [`TrayApp::menu_selection`].
    ShowMenu(Vec<MenuItem>),
    /// Post a command message to the window.
    PostCommand(u32),
    /// Fetch the balance once, in the background, with this key, and hand the result
    /// to [`TrayApp::on_refresh_result`].
    FetchOnce(String),
    /// Run the settings dialog on this key and interval (seconds) and hand what it
    /// returns to [`TrayApp::apply_settings`].
    OpenSettings(String, u32),
    /// Destroy the window.
    DestroyWindow,
    /// Stop polling altogether: hand it to [`TrayApp::stop_polling`].
    StopPolling,
    /// End the message loop.
    PostQuit,
    /// Leave the message to the default window procedure.
    DefaultProcedure,
    /// Store this key, encrypted.
    SaveKey(String),
    /// Store this refresh interval (seconds).
    SaveInterval(u32),
    /// Register the application to start at login.
    EnableAutostart,
    /// Start a polling thread for the given round: it fetches with this key at once
    /// and then every so many seconds, for as long as [`TrayApp::keeps_polling`] holds
    /// for its round, and hands each result to [`TrayApp::on_poll_result`].
    StartPolling(String, u32, u64),
}

/// An [`Action`] with its texts as character sequences.
pub enum Effect {
    AddIcon(Seq<char>),
    SetIconText(Seq<char>),
    SetTooltip(Seq<char>),
    ShowMenu(Seq<(Seq<char>, u32)>),
    PostCommand(u32),
    FetchOnce(Seq<char>),
    OpenSettings(Seq<char>, u32),
    DestroyWindow,
    StopPolling,
    PostQuit,
    DefaultProcedure,
    SaveKey(Seq<char>),
    SaveInterval(u32),
    EnableAutostart,
    StartPolling(Seq<char>, u32, u64),
}

/// The menu entries as label and identifier pairs.
pub open spec fn menu_view(items: Seq<MenuItem>) -> Seq<(Seq<char>, u32)> {
    items.map_values(|m: MenuItem| m@)
}

impl View for Action {
    type V = Effect;

    open spec fn view(&self) -> Effect {
        match self {
            Action::AddIcon(t) => Effect::AddIcon(t@),
            Action::SetIconText(t) => Effect::SetIconText(t@),
            Action::SetTooltip(t) => Effect::SetTooltip(t@),
            Action::ShowMenu(items) => Effect::ShowMenu(menu_view(items@)),
            Action::PostCommand(id) => Effect::PostCommand(*id),
            Action::FetchOnce(k) => Effect::FetchOnce(k@),
            Action::OpenSettings(k, i) => Effect::OpenSettings(k@, *i),
            Action::DestroyWindow => Effect::DestroyWindow,
            Action::StopPolling => Effect::StopPolling,
            Action::PostQuit => Effect::PostQuit,
            Action::DefaultProcedure => Effect::DefaultProcedure,
            Action::SaveKey(k) => Effect::SaveKey(k@),
            Action::SaveInterval(i) => Effect::SaveInterval(*i),
            Action::EnableAutostart => Effect::EnableAutostart,
            Action::StartPolling(k, i, r) => Effect::StartPolling(k@, *i, *r),
        }
    }
}

/// The effects of a list of actions, in order.
pub open spec fn effects(actions: Seq<Action>) -> Seq<Effect> {
    actions.map_values(|a: Action| a@)
}

fn push_action(actions: &mut Vec<Action>, a: Action)
    ensures
        effects(final(actions)@) == effects(old(actions)@).push(a@),
{
    let ghost before = actions@;
    actions.push(a);
    proof {
        assert(effects(actions@) =~= effects(before).push(a@));
    }
}

fn push_item(items: &mut Vec<MenuItem>, label: &str, id: u32)
    ensures
        menu_view(final(items)@) == menu_view(old(items)@).push((label@, id)),
{
    let ghost before = items@;
    items.push(MenuItem { label: String::from_str(label), id });
    proof {
        assert(menu_view(items@) =~= menu_view(before).push((label@, id)));
    }
}

// ── The application's state ────────────────────────────────────────

/// What the main window keeps between messages.
pub struct TrayApp {
    /// The last balance line (or error line) stored by a fetch.
    pub balance_text: Option<String>,
    /// The API key, when one is set.
    pub api_key: Option<String>,
    /// Seconds between two polls.
    pub refresh_interval_sec: u32,
    /// Whether the last fetch failed; while it did, the icon keeps its warning sign.
    pub fetch_failed: bool,
    /// The round of the polling thread that is current; older threads stop.
    pub polling_round: u64,
    /// Whether polling has been stopped for good.
    pub polling_stopped: bool,
}

/// The state of a [`TrayApp`] with its texts as character sequences.
pub struct TrayView {
    pub balance_text: Option<Seq<char>>,
    pub api_key: Option<Seq<char>>,
    pub refresh_interval_sec: u32,
    pub fetch_failed: bool,
    pub polling_round: u64,
    pub polling_stopped: bool,
}

/// An optional text as an optional character sequence.
pub open spec fn opt_text(o: Option<String>) -> Option<Seq<char>> {
    match o {
        Some(s) => Some(s@),
        None => None,
    }
}

impl View for TrayApp {
    type V = TrayView;

    open spec fn view(&self) -> TrayView {
        TrayView {
            balance_text: opt_text(self.balance_text),
            api_key: opt_text(self.api_key),
            refresh_interval_sec: self.refresh_interval_sec,
            fetch_failed: self.fetch_failed,
            polling_round: self.polling_round,
            polling_stopped: self.polling_stopped,
        }
    }
}

/// The result of one balance fetch, with the amount already printed to two decimals.
#[derive(Clone, Debug, PartialEq, Eq)]
pub enum FetchOutcome {
    Fetched { currency: String, amount_text: String },
    Failed(String),
}

/// A [`FetchOutcome`] with its texts as character sequences.
pub enum OutcomeView {
    Fetched { currency: Seq<char>, amount_text: Seq<char> },
    Failed(Seq<char>),
}

impl View for FetchOutcome {
    type V = OutcomeView;

    open spec fn view(&self) -> OutcomeView {
        match self {
            FetchOutcome::Fetched { currency, amount_text } => OutcomeView::Fetched {
                currency: currency@,
                amount_text: amount_text@,
            },
            FetchOutcome::Failed(m) => OutcomeView::Failed(m@),
        }
    }
}

// ── The model ──────────────────────────────────────────────────────

/// The amount as the icon shows it: currency symbol, then the printed amount.
pub open spec fn shown_amount(currency: Seq<char>, amount_text: Seq<char>) -> Seq<char> {
    currency_symbol(currency) + amount_text
}

/// The line a periodic poll stores.
pub open spec fn poll_line(currency: Seq<char>, amount_text: Seq<char>) -> Seq<char> {
    "DeepSeek Balance: "@ + shown_amount(currency, amount_text)
}

/// The line a manual refresh stores.
pub open spec fn refresh_line(currency: Seq<char>, amount_text: Seq<char>) -> Seq<char> {
    "Balance: "@ + shown_amount(currency, amount_text)
}

/// The line a failed poll stores.
pub open spec fn error_line(message: Seq<char>) -> Seq<char> {
    "Error: "@ + message
}

/// The state and the actions at start-up, given the stored key and interval.
pub open spec fn spec_start(key: Option<Seq<char>>, stored_interval: Option<u32>) -> (
    TrayView,
    Seq<Effect>,
) {
    let interval = spec_interval_from_stored(stored_interval);
    let s = TrayView {
        balance_text: None,
        api_key: key,
        refresh_interval_sec: interval,
        fetch_failed: false,
        polling_round: 0,
        polling_stopped: false,
    };
    match key {
        Some(k) => (
            s,
            seq![
                Effect::AddIcon("..."@),
                Effect::SetTooltip("DeepSeek Balance — Loading..."@),
                Effect::StartPolling(k, interval, 0),
            ],
        ),
        None => (
            s,
            seq![
                Effect::AddIcon("🔑"@),
                Effect::SetTooltip("DeepSeek Balance — API Key not set"@),
                Effect::PostCommand(MENU_SETTINGS),
            ],
        ),
    }
}

/// The entries of the context menu: the balance line (or a placeholder), a
/// separator, Refresh Now, Settings..., a separator, Quit.
pub open spec fn context_menu(s: TrayView) -> Seq<(Seq<char>, u32)> {
    let line = match s.balance_text {
        Some(t) => t,
        None => "Balance: ..."@,
    };
    seq![
        (line, 0u32),
        (""@, 0u32),
        ("Refresh Now"@, MENU_REFRESH),
        ("Settings..."@, MENU_SETTINGS),
        (""@, 0u32),
        ("Quit"@, MENU_QUIT),
    ]
}

/// What the window does on an event; no event changes the state. While the last
/// fetch has failed, the display timer leaves the icon and its tooltip as they are,
/// so the warning sign stays until a fetch succeeds.
pub open spec fn spec_handle(s: TrayView, e: WindowEvent) -> Seq<Effect> {
    match e {
        WindowEvent::TrayContextMenu => seq![Effect::ShowMenu(context_menu(s))],
        WindowEvent::TrayLeftClick => seq![
            Effect::SetTooltip(
                match s.balance_text {
                    Some(t) => t,
                    None => "DeepSeek Balance"@,
                },
            ),
        ],
        WindowEvent::TrayOther => seq![],
        WindowEvent::Command(id) => if id == MENU_REFRESH {
            let base = seq![Effect::SetIconText("..."@), Effect::SetTooltip("Refreshing..."@)];
            match s.api_key {
                Some(k) => base.push(Effect::FetchOnce(k)),
                None => base,
            }
        } else if id == MENU_SETTINGS {
            seq![
                Effect::OpenSettings(
                    match s.api_key {
                        Some(k) => k,
                        None => Seq::empty(),
                    },
                    s.refresh_interval_sec,
                ),
            ]
        } else if id == MENU_QUIT {
            seq![Effect::DestroyWindow]
        } else {
            seq![]
        },
        WindowEvent::Timer => if s.fetch_failed {
            seq![]
        } else {
            match s.balance_text {
                Some(t) => seq![Effect::SetIconText(display_part(t)), Effect::SetTooltip(t)],
                None => seq![],
            }
        },
        WindowEvent::BalanceUpdated => seq![],
        WindowEvent::BalanceFailed => seq![
            Effect::SetIconText("⚠️"@),
            Effect::SetTooltip("Error fetching balance"@),
        ],
        WindowEvent::Destroy => seq![Effect::StopPolling, Effect::PostQuit],
        WindowEvent::Unhandled => seq![Effect::DefaultProcedure],
    }
}

/// What choosing `cmd` in the context menu does: the three commands are posted back
/// to the window; anything else (such as a dismissed menu) does nothing.
pub open spec fn spec_menu_selection(cmd: u32) -> Seq<Effect> {
    if cmd == MENU_REFRESH || cmd == MENU_SETTINGS || cmd == MENU_QUIT {
        seq![Effect::PostCommand(cmd)]
    } else {
        seq![]
    }
}

/// The polling round that follows `r`.
pub open spec fn next_round(r: u64) -> u64 {
    if r == u64::MAX {
        0
    } else {
        (r + 1) as u64
    }
}

/// The state and actions after the settings dialog returned a key and an interval:
/// polling restarts in a new round, so the thread of the old round stops.
pub open spec fn spec_apply_settings(s: TrayView, key: Seq<char>, interval: u32) -> (
    TrayView,
    Seq<Effect>,
) {
    let round = next_round(s.polling_round);
    (
        TrayView {
            api_key: Some(key),
            refresh_interval_sec: interval,
            polling_round: round,
            polling_stopped: false,
            ..s
        },
        seq![
            Effect::SaveKey(key),
            Effect::SaveInterval(interval),
            Effect::EnableAutostart,
            Effect::SetIconText("..."@),
            Effect::StartPolling(key, interval, round),
        ],
    )
}

/// Whether the polling thread of `round` goes on.
pub open spec fn spec_keeps_polling(s: TrayView, round: u64) -> bool {
    !s.polling_stopped && round == s.polling_round
}

/// The state after a periodic poll, and the message it posts; a success clears the
/// failure mark, a failure sets it.
pub open spec fn spec_poll(s: TrayView, o: OutcomeView) -> (TrayView, u32) {
    match o {
        OutcomeView::Fetched { currency, amount_text } => (
            TrayView { balance_text: Some(poll_line(currency, amount_text)), fetch_failed: false, ..s },
            WM_TIMER,
        ),
        OutcomeView::Failed(m) => (
            TrayView { balance_text: Some(error_line(m)), fetch_failed: true, ..s },
            WM_BALANCE_ERROR,
        ),
    }
}

/// The state after a manual refresh, and the message it posts; a failure leaves the
/// stored line as it was but marks the fetch as failed.
pub open spec fn spec_refresh(s: TrayView, o: OutcomeView) -> (TrayView, u32) {
    match o {
        OutcomeView::Fetched { currency, amount_text } => (
            TrayView {
                balance_text: Some(refresh_line(currency, amount_text)),
                fetch_failed: false,
                ..s
            },
            WM_BALANCE_UPDATE,
        ),
        OutcomeView::Failed(_) => (TrayView { fetch_failed: true, ..s }, WM_BALANCE_ERROR),
    }
}

// ── The implementation ─────────────────────────────────────────────

fn clone_opt(o: &Option<String>) -> (r: Option<String>)
    ensures
        opt_text(r) == opt_text(*o),
{
    match o {
        Some(s) => Some(s.clone()),
        None => None,
    }
}

impl TrayApp {
    /// Start-up: the state from the stored key and interval (an invalid or missing
    /// interval gives 300 s), and the first actions: with a key, a `...` icon and
    /// polling; without one, a key icon and the settings dialog.
    pub fn start(api_key: Option<String>, stored_interval: Option<u32>) -> (r: (TrayApp, Vec<Action>))
        ensures
            r.0@ == spec_start(opt_text(api_key), stored_interval).0,
            effects(r.1@) == spec_start(opt_text(api_key), stored_interval).1,
    {
        let interval = interval_from_stored(stored_interval);
        let mut actions: Vec<Action> = Vec::new();
        match &api_key {
            Some(k) => {
                push_action(&mut actions, Action::AddIcon(String::from_str("...")));
                push_action(
                    &mut actions,
                    Action::SetTooltip(String::from_str("DeepSeek Balance — Loading...")),
                );
                push_action(&mut actions, Action::StartPolling(k.clone(), interval, 0));
            },
            None => {
                push_action(&mut actions, Action::AddIcon(String::from_str("🔑")));
                push_action(
                    &mut actions,
                    Action::SetTooltip(String::from_str("DeepSeek Balance — API Key not set")),
                );
                push_action(&mut actions, Action::PostCommand(MENU_SETTINGS));
            },
        }
        let app = TrayApp {
            balance_text: None,
            api_key,
            refresh_interval_sec: interval,
            fetch_failed: false,
            polling_round: 0,
            polling_stopped: false,
        };
        proof {
            assert(effects(actions@) =~= spec_start(opt_text(app.api_key), stored_interval).1);
        }
        (app, actions)
    }

    /// The context menu's entries for the current state.
    pub fn context_menu_items(&self) -> (items: Vec<MenuItem>)
        ensures
            menu_view(items@) == context_menu(self@),
    {
        let mut items: Vec<MenuItem> = Vec::new();
        let line = match &self.balance_text {
            Some(t) => t.clone(),
            None => String::from_str("Balance: ..."),
        };
        let ghost line_v = line@;
        items.push(MenuItem { label: line, id: 0 });
        proof {
            assert(menu_view(items@) =~= seq![(line_v, 0u32)]);
        }
        push_item(&mut items, "", 0);
        push_item(&mut items, "Refresh Now", MENU_REFRESH);
        push_item(&mut items, "Settings...", MENU_SETTINGS);
        push_item(&mut items, "", 0);
        push_item(&mut items, "Quit", MENU_QUIT);
        proof {
            assert(menu_view(items@) =~= context_menu(self@));
        }
        items
    }

    /// What the window does on `event`; the state is left as it is.
    pub fn handle(&self, event: WindowEvent) -> (actions: Vec<Action>)
        ensures
            effects(actions@) == spec_handle(self@, event),
    {
        let mut actions: Vec<Action> = Vec::new();
        match event {
            WindowEvent::TrayContextMenu => {
                push_action(&mut actions, Action::ShowMenu(self.context_menu_items()));
            },
            WindowEvent::TrayLeftClick => {
                let tip = match &self.balance_text {
                    Some(t) => t.clone(),
                    None => String::from_str("DeepSeek Balance"),
                };
                push_action(&mut actions, Action::SetTooltip(tip));
            },
            WindowEvent::TrayOther => {},
            WindowEvent::Command(id) => {
                if id == MENU_REFRESH {
                    push_action(&mut actions, Action::SetIconText(String::from_str("...")));
                    push_action(&mut actions, Action::SetTooltip(String::from_str("Refreshing...")));
                    match &self.api_key {
                        Some(k) => {
                            push_action(&mut actions, Action::FetchOnce(k.clone()));
                        },
                        None => {},
                    }
                } else if id == MENU_SETTINGS {
                    let key = match &self.api_key {
                        Some(k) => k.clone(),
                        None => String::new(),
                    };
                    push_action(&mut actions, Action::OpenSettings(key, self.refresh_interval_sec));
                } else if id == MENU_QUIT {
                    push_action(&mut actions, Action::DestroyWindow);
                }
            },
            WindowEvent::Timer => {
                match &self.balance_text {
                    Some(t) if !self.fetch_failed => {
                        let shown = display_part_of(t.as_str());
                        push_action(&mut actions, Action::SetIconText(String::from_str(shown)));
                        push_action(&mut actions, Action::SetTooltip(t.clone()));
                    },
                    _ => {},
                }
            },
            WindowEvent::BalanceUpdated => {},
            WindowEvent::BalanceFailed => {
                push_action(&mut actions, Action::SetIconText(String::from_str("⚠️")));
                push_action(
                    &mut actions,
                    Action::SetTooltip(String::from_str("Error fetching balance")),
                );
            },
            WindowEvent::Destroy => {
                push_action(&mut actions, Action::StopPolling);
                push_action(&mut actions, Action::PostQuit);
            },
            WindowEvent::Unhandled => {
                push_action(&mut actions, Action::DefaultProcedure);
            },
        }
        proof {
            assert(effects(actions@) =~= spec_handle(self@, event));
        }
        actions
    }

    /// What choosing `cmd` in the context menu does.
    pub fn menu_selection(cmd: u32) -> (actions: Vec<Action>)
        ensures
            effects(actions@) == spec_menu_selection(cmd),
    {
        let mut actions: Vec<Action> = Vec::new();
        if cmd == MENU_REFRESH || cmd == MENU_SETTINGS || cmd == MENU_QUIT {
            push_action(&mut actions, Action::PostCommand(cmd));
        }
        proof {
            assert(effects(actions@) =~= spec_menu_selection(cmd));
        }
        actions
    }

    /// The settings dialog returned `key` and `interval`: both are kept and stored,
    /// start at login is enabled, and polling restarts with them in a new round.
    pub fn apply_settings(&mut self, key: String, interval: u32) -> (actions: Vec<Action>)
        ensures
            final(self)@ == spec_apply_settings(old(self)@, key@, interval).0,
            effects(actions@) == spec_apply_settings(old(self)@, key@, interval).1,
    {
        let mut actions: Vec<Action> = Vec::new();
        push_action(&mut actions, Action::SaveKey(key.clone()));
        push_action(&mut actions, Action::SaveInterval(interval));
        push_action(&mut actions, Action::EnableAutostart);
        let round = if self.polling_round == u64::MAX {
            0
        } else {
            self.polling_round + 1
        };
        push_action(&mut actions, Action::SetIconText(String::from_str("...")));
        push_action(&mut actions, Action::StartPolling(key.clone(), interval, round));
        self.api_key = Some(key);
        self.refresh_interval_sec = interval;
        self.polling_round = round;
        self.polling_stopped = false;
        proof {
            assert(effects(actions@) =~= spec_apply_settings(old(self)@, key@, interval).1);
        }
        actions
    }

    /// Whether the polling thread of `round` goes on: only the current round's thread
    /// does, and none once polling has been stopped.
    pub fn keeps_polling(&self, round: u64) -> (r: bool)
        ensures
            r == spec_keeps_polling(self@, round),
    {
        !self.polling_stopped && round == self.polling_round
    }

    /// Stops polling for good.
    pub fn stop_polling(&mut self)
        ensures
            final(self)@ == (TrayView { polling_stopped: true, ..old(self)@ }),
    {
        self.polling_stopped = true;
    }

    /// A periodic poll finished: a balance stores `"DeepSeek Balance: <symbol><amount>"`,
    /// clears the failure mark and asks for an immediate display update; a failure
    /// stores `"Error: <message>"`, sets the mark and reports the error. Returns the
    /// message to post.
    pub fn on_poll_result(&mut self, outcome: FetchOutcome) -> (msg: u32)
        ensures
            final(self)@ == spec_poll(old(self)@, outcome@).0,
            msg == spec_poll(old(self)@, outcome@).1,
    {
        match outcome {
            FetchOutcome::Fetched { currency, amount_text } => {
                let line = String::from_str("DeepSeek Balance: ").concat(
                    symbol_for(currency.as_str()),
                ).concat(amount_text.as_str());
                proof {
                    assert(line@ =~= poll_line(currency@, amount_text@));
                }
                self.balance_text = Some(line);
                self.fetch_failed = false;
                WM_TIMER
            },
            FetchOutcome::Failed(m) => {
                self.balance_text = Some(String::from_str("Error: ").concat(m.as_str()));
                self.fetch_failed = true;
                WM_BALANCE_ERROR
            },
        }
    }

    /// A manual refresh finished: a balance stores `"Balance: <symbol><amount>"`, clears
    /// the failure mark and reports the update; a failure sets the mark and reports the
    /// error. Returns the message to post.
    pub fn on_refresh_result(&mut self, outcome: FetchOutcome) -> (msg: u32)
        ensures
            final(self)@ == spec_refresh(old(self)@, outcome@).0,
            msg == spec_refresh(old(self)@, outcome@).1,
    {
        match outcome {
            FetchOutcome::Fetched { currency, amount_text } => {
                let line = String::from_str("Balance: ").concat(symbol_for(currency.as_str())).concat(
                    amount_text.as_str(),
                );
                proof {
                    assert(line@ =~= refresh_line(currency@, amount_text@));
                }
                self.balance_text = Some(line);
                self.fetch_failed = false;
                WM_BALANCE_UPDATE
            },
            FetchOutcome::Failed(_) => {
                self.fetch_failed = true;
                WM_BALANCE_ERROR
            },
        }
    }
}


// ── Laws ───────────────────────────────────────────────────────────

/// The part shown of a line made of `prefix`, `": "` and `rest` is `rest`, when the
/// prefix holds no `": "`.
proof fn lemma_line_shows_rest(prefix: Seq<char>, line_prefix: Seq<char>, rest: Seq<char>)
    requires
        first_separator(prefix) is None,
        line_prefix == prefix + seq![':', ' '],
    ensures
        display_part(line_prefix + rest) == rest,
{
    lemma_display_part_after_prefix(prefix, rest);
    assert(line_prefix + rest =~= prefix + seq![':', ' '] + rest);
}

/// After a successful poll, the next display update shows the currency symbol and the
/// amount on the icon (e.g. `¥12.34`) and the whole line in the tooltip.
pub proof fn law_timer_shows_polled_amount(s: TrayView, currency: Seq<char>, amount_text: Seq<char>)
    ensures
        spec_handle(
            spec_poll(s, OutcomeView::Fetched { currency, amount_text }).0,
            WindowEvent::Timer,
        ) == seq![
            Effect::SetIconText(shown_amount(currency, amount_text)),
            Effect::SetTooltip(poll_line(currency, amount_text)),
        ],
        spec_poll(s, OutcomeView::Fetched { currency, amount_text }).1 == WM_TIMER,
        spec_classify(WM_TIMER, 0, 0) == WindowEvent::Timer,
{
    reveal_strlit("DeepSeek Balance");
    reveal_strlit("DeepSeek Balance: ");
    reveal_with_fuel(first_separator, 17);
    assert(first_separator("DeepSeek Balance"@) is None);
    assert("DeepSeek Balance: "@ =~= "DeepSeek Balance"@ + seq![':', ' ']);
    lemma_line_shows_rest(
        "DeepSeek Balance"@,
        "DeepSeek Balance: "@,
        shown_amount(currency, amount_text),
    );
}

/// After a manual refresh, the next display update shows the currency symbol and the
/// amount on the icon and the whole `Balance: …` line in the tooltip.
pub proof fn law_timer_shows_refreshed_amount(
    s: TrayView,
    currency: Seq<char>,
    amount_text: Seq<char>,
)
    ensures
        spec_handle(
            spec_refresh(s, OutcomeView::Fetched { currency, amount_text }).0,
            WindowEvent::Timer,
        ) == seq![
            Effect::SetIconText(shown_amount(currency, amount_text)),
            Effect::SetTooltip(refresh_line(currency, amount_text)),
        ],
{
    reveal_strlit("Balance");
    reveal_strlit("Balance: ");
    reveal_with_fuel(first_separator, 8);
    assert(first_separator("Balance"@) is None);
    assert("Balance: "@ =~= "Balance"@ + seq![':', ' ']);
    lemma_line_shows_rest("Balance"@, "Balance: "@, shown_amount(currency, amount_text));
}

/// A failed fetch (poll or refresh) posts the error message, whose handling puts the
/// warning sign on the icon; display updates then leave the icon alone until a fetch
/// succeeds; after a successful poll the next update shows the balance again, and the
/// state is exactly as if the failure had not happened.
pub proof fn law_error_indicator_and_recovery(
    s: TrayView,
    message: Seq<char>,
    currency: Seq<char>,
    amount_text: Seq<char>,
)
    ensures
        spec_poll(s, OutcomeView::Failed(message)).1 == WM_BALANCE_ERROR,
        spec_refresh(s, OutcomeView::Failed(message)).1 == WM_BALANCE_ERROR,
        spec_handle(s, spec_classify(WM_BALANCE_ERROR, 0, 0)) == seq![
            Effect::SetIconText("⚠️"@),
            Effect::SetTooltip("Error fetching balance"@),
        ],
        spec_handle(spec_poll(s, OutcomeView::Failed(message)).0, WindowEvent::Timer)
            == Seq::<Effect>::empty(),
        spec_handle(spec_refresh(s, OutcomeView::Failed(message)).0, WindowEvent::Timer)
            == Seq::<Effect>::empty(),
        spec_poll(
            spec_poll(s, OutcomeView::Failed(message)).0,
            OutcomeView::Fetched { currency, amount_text },
        ) == spec_poll(s, OutcomeView::Fetched { currency, amount_text }),
        spec_poll(
            spec_refresh(s, OutcomeView::Failed(message)).0,
            OutcomeView::Fetched { currency, amount_text },
        ) == spec_poll(s, OutcomeView::Fetched { currency, amount_text }),
        spec_handle(
            spec_poll(
                spec_poll(s, OutcomeView::Failed(message)).0,
                OutcomeView::Fetched { currency, amount_text },
            ).0,
            WindowEvent::Timer,
        ) == seq![
            Effect::SetIconText(shown_amount(currency, amount_text)),
            Effect::SetTooltip(poll_line(currency, amount_text)),
        ],
{
    law_timer_shows_polled_amount(s, currency, amount_text);
}

/// The refresh interval stays within 60..=3600 seconds: start-up gives such an
/// interval, fetch results keep it, and so does every interval the settings dialog
/// can save.
pub proof fn law_interval_stays_valid(
    s: TrayView,
    key: Option<Seq<char>>,
    stored: Option<u32>,
    new_key: Seq<char>,
    sel: usize,
    o: OutcomeView,
)
    requires
        valid_interval(s.refresh_interval_sec),
    ensures
        valid_interval(spec_start(key, stored).0.refresh_interval_sec),
        valid_interval(spec_poll(s, o).0.refresh_interval_sec),
        valid_interval(spec_refresh(s, o).0.refresh_interval_sec),
        valid_interval(
            spec_apply_settings(s, new_key, crate::interval::spec_selected_interval(sel)).0.refresh_interval_sec,
        ),
{
    crate::interval::law_stored_interval_in_range(stored);
    crate::interval::law_saved_interval_reads_back(sel);
}

/// Settings that were applied are what the dialog opens on next time, and polling
/// restarts with them.
pub proof fn law_settings_read_back(s: TrayView, key: Seq<char>, interval: u32)
    ensures
        spec_handle(
            spec_apply_settings(s, key, interval).0,
            WindowEvent::Command(MENU_SETTINGS),
        ) == seq![Effect::OpenSettings(key, interval)],
        spec_apply_settings(s, key, interval).1.last() == Effect::StartPolling(
            key,
            interval,
            spec_apply_settings(s, key, interval).0.polling_round,
        ),
        spec_apply_settings(s, key, interval).0.balance_text == s.balance_text,
{
}

/// Every command entry of the context menu, once chosen, comes back to the window as
/// that command; the other entries do nothing.
pub proof fn law_menu_commands_come_back(s: TrayView, i: int)
    requires
        0 <= i < context_menu(s).len(),
    ensures
        context_menu(s)[i].1 != 0 ==> spec_menu_selection(context_menu(s)[i].1) == seq![
            Effect::PostCommand(context_menu(s)[i].1),
        ] && spec_classify(WM_COMMAND, context_menu(s)[i].1 as usize, 0) == WindowEvent::Command(
            context_menu(s)[i].1,
        ),
        context_menu(s)[i].1 == 0 ==> spec_menu_selection(0) == Seq::<Effect>::empty(),
{
    let id = context_menu(s)[i].1;
    assert((id as usize) as u32 == id);
}

/// A manual refresh fetches only when a key is set, and then with that key.
pub proof fn law_refresh_uses_key(s: TrayView)
    ensures
        s.api_key is None ==> spec_handle(s, WindowEvent::Command(MENU_REFRESH)).len() == 2,
        s.api_key matches Some(k) ==> spec_handle(s, WindowEvent::Command(MENU_REFRESH)).last()
            == Effect::FetchOnce(k),
{
}


/// After a settings change only the newly started polling thread goes on; the thread
/// of the previous round stops at its next wake-up; once polling is stopped, no
/// thread goes on.
pub proof fn law_polling_restarts(s: TrayView, key: Seq<char>, interval: u32, round: u64)
    ensures
        spec_keeps_polling(
            spec_apply_settings(s, key, interval).0,
            spec_apply_settings(s, key, interval).0.polling_round,
        ),
        !spec_keeps_polling(spec_apply_settings(s, key, interval).0, s.polling_round),
        !spec_keeps_polling(TrayView { polling_stopped: true, ..s }, round),
        spec_keeps_polling(spec_start(Some(key), None).0, 0),
{
}

/// Applying the dialog's result stores exactly the key and interval the dialog
/// returned: the first effect saves that key, the second that interval, the third
/// enables start at login, no effect saves any other key, polling restarts with that
/// key and interval, and the state keeps them.
pub proof fn law_settings_store_what_the_dialog_returned(s: TrayView, key: Seq<char>, interval: u32)
    ensures
        spec_apply_settings(s, key, interval).1.len() == 5,
        spec_apply_settings(s, key, interval).1[0] == Effect::SaveKey(key),
        spec_apply_settings(s, key, interval).1[1] == Effect::SaveInterval(interval),
        spec_apply_settings(s, key, interval).1[2] == Effect::EnableAutostart,
        spec_apply_settings(s, key, interval).1[3] == Effect::SetIconText("..."@),
        forall|j: int|
            0 <= j < spec_apply_settings(s, key, interval).1.len()
                && (#[trigger] spec_apply_settings(s, key, interval).1[j]) is SaveKey
                ==> spec_apply_settings(s, key, interval).1[j] == Effect::SaveKey(key),
        forall|j: int|
            0 <= j < spec_apply_settings(s, key, interval).1.len()
                && (#[trigger] spec_apply_settings(s, key, interval).1[j]) is SaveInterval
                ==> spec_apply_settings(s, key, interval).1[j] == Effect::SaveInterval(interval),
        spec_apply_settings(s, key, interval).1[4] is StartPolling,
        spec_apply_settings(s, key, interval).1[4]->StartPolling_0 == key,
        spec_apply_settings(s, key, interval).1[4]->StartPolling_1 == interval,
        spec_apply_settings(s, key, interval).0.api_key == Some(key),
        spec_apply_settings(s, key, interval).0.refresh_interval_sec == interval,
{
    let e = spec_apply_settings(s, key, interval).1;
    assert forall|j: int| 0 <= j < e.len() && (#[trigger] e[j]) is SaveKey implies e[j]
        == Effect::SaveKey(key) by {
        assert(j == 0);
    }
    assert forall|j: int| 0 <= j < e.len() && (#[trigger] e[j]) is SaveInterval implies e[j]
        == Effect::SaveInterval(interval) by {
        assert(j == 1);
    }
}

/// Start-up without a key, whatever interval is stored, shows the key icon with its
/// tooltip and then always opens the settings dialog, and starts no polling; with a
/// key it shows the loading icon and starts polling with that key, in round 0, at
/// the interval the state keeps, and never opens the dialog.
pub proof fn law_start_opens_settings_without_key(key: Seq<char>, stored: Option<u32>)
    ensures
        spec_start(None, stored).1.len() == 3,
        spec_start(None, stored).1[0] == Effect::AddIcon("🔑"@),
        spec_start(None, stored).1[1] == Effect::SetTooltip(
            "DeepSeek Balance — API Key not set"@,
        ),
        spec_start(None, stored).1.last() == Effect::PostCommand(MENU_SETTINGS),
        forall|j: int|
            0 <= j < spec_start(None, stored).1.len() ==> !((#[trigger] spec_start(
                None,
                stored,
            ).1[j]) is StartPolling),
        spec_start(None, stored).0.api_key is None,
        spec_start(Some(key), stored).1.len() == 3,
        spec_start(Some(key), stored).1[0] == Effect::AddIcon("..."@),
        spec_start(Some(key), stored).1[1] == Effect::SetTooltip(
            "DeepSeek Balance — Loading..."@,
        ),
        spec_start(Some(key), stored).1.last() == Effect::StartPolling(
            key,
            spec_start(Some(key), stored).0.refresh_interval_sec,
            0,
        ),
        forall|j: int|
            0 <= j < spec_start(Some(key), stored).1.len() ==> (#[trigger] spec_start(
                Some(key),
                stored,
            ).1[j]) != Effect::PostCommand(MENU_SETTINGS),
        spec_start(Some(key), stored).0.api_key == Some(key),
{
    let e = spec_start(Some(key), stored).1;
    assert forall|j: int| 0 <= j < e.len() implies (#[trigger] e[j]) != Effect::PostCommand(
        MENU_SETTINGS,
    ) by {
        assert(0 <= j < 3);
    }
}

/// The first entry of the context menu is the stored line whenever one is stored
/// (the balance, or the error of a failed poll), and the loading placeholder only
/// when none is; whether the last fetch failed does not change the menu. After a
/// failed poll it shows that error line; after a failed manual refresh it shows the
/// line that was stored before.
pub proof fn law_menu_shows_stored_line(s: TrayView, failed: bool, message: Seq<char>)
    ensures
        context_menu(s).len() == 6,
        s.balance_text matches Some(t) ==> context_menu(s)[0] == (t, 0u32),
        s.balance_text is None ==> context_menu(s)[0] == ("Balance: ..."@, 0u32),
        context_menu(s)[1] == (""@, 0u32),
        context_menu(s)[2] == ("Refresh Now"@, MENU_REFRESH),
        context_menu(s)[3] == ("Settings..."@, MENU_SETTINGS),
        context_menu(s)[4] == (""@, 0u32),
        context_menu(s)[5] == ("Quit"@, MENU_QUIT),
        context_menu(TrayView { fetch_failed: failed, ..s }) == context_menu(s),
        context_menu(spec_poll(s, OutcomeView::Failed(message)).0)[0].0 == "Error: "@ + message,
        context_menu(spec_refresh(s, OutcomeView::Failed(message)).0) == context_menu(s),
        spec_handle(s, WindowEvent::TrayContextMenu) == seq![Effect::ShowMenu(context_menu(s))],
{
}

/// A left click sets the tooltip to the stored line whenever one is stored (the
/// balance, or the error of a failed poll), and to the application's title only when
/// none is; whether the last fetch failed does not change it.
pub proof fn law_left_click_shows_stored_line(s: TrayView, failed: bool, message: Seq<char>)
    ensures
        s.balance_text matches Some(t) ==> spec_handle(s, WindowEvent::TrayLeftClick) == seq![
            Effect::SetTooltip(t),
        ],
        s.balance_text is None ==> spec_handle(s, WindowEvent::TrayLeftClick) == seq![
            Effect::SetTooltip("DeepSeek Balance"@),
        ],
        spec_handle(TrayView { fetch_failed: failed, ..s }, WindowEvent::TrayLeftClick)
            == spec_handle(s, WindowEvent::TrayLeftClick),
        spec_handle(spec_poll(s, OutcomeView::Failed(message)).0, WindowEvent::TrayLeftClick)
            == seq![Effect::SetTooltip("Error: "@ + message)],
{
}

} // verus!
