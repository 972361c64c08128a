use deepseek_balance::balance::{
    authorization_value, choose_balance, same_text, symbol_for, BalanceInfo, BalanceResponse,
    FetchError, BALANCE_URL,
};
use deepseek_balance::tray::{
    colorref, dark_mode_from_setting, icon_font_height, menu_separators, theme_colors,
};

fn info(currency: &str, total: &str) -> BalanceInfo {
    BalanceInfo {
        currency: currency.to_string(),
        total_balance: total.to_string(),
        granted_balance: "0.00".to_string(),
        topped_up_balance: total.to_string(),
    }
}

fn response(infos: Vec<BalanceInfo>) -> BalanceResponse {
    BalanceResponse { is_available: true, balance_infos: infos }
}

#[test]
fn chooses_cny_when_listed() {
    let r = response(vec![info("USD", "1.00"), info("CNY", "12.34"), info("CNY", "5.00")]);
    let chosen = choose_balance(&r).unwrap();
    assert_eq!(chosen.currency, "CNY");
    assert_eq!(chosen.total_balance, "12.34");
}

#[test]
fn falls_back_to_usd() {
    let r = response(vec![info("EUR", "1.00"), info("USD", "3.50"), info("USD", "4.00")]);
    let chosen = choose_balance(&r).unwrap();
    assert_eq!(chosen.currency, "USD");
    assert_eq!(chosen.total_balance, "3.50");
}

#[test]
fn falls_back_to_first_entry() {
    let r = response(vec![info("EUR", "1.00"), info("JPY", "100")]);
    let chosen = choose_balance(&r).unwrap();
    assert_eq!(chosen.currency, "EUR");
    assert_eq!(chosen.total_balance, "1.00");
}

#[test]
fn empty_answer_is_an_error() {
    let r = response(vec![]);
    assert_eq!(choose_balance(&r).unwrap_err(), FetchError::EmptyBalance);
}

#[test]
fn error_messages() {
    assert_eq!(FetchError::Network("timed out".to_string()).message(), "Network: timed out");
    assert_eq!(FetchError::Json("expected value".to_string()).message(), "JSON: expected value");
    assert_eq!(FetchError::EmptyBalance.message(), "Empty balance");
    assert_eq!(FetchError::BadNumber.message(), "Bad number");
}

#[test]
fn currency_symbols() {
    assert_eq!(symbol_for("USD"), "$");
    assert_eq!(symbol_for("CNY"), "¥");
    assert_eq!(symbol_for("EUR"), "¥");
    assert_eq!(symbol_for("usd"), "¥");
}

#[test]
fn request_values() {
    assert_eq!(authorization_value("sk-1"), "Bearer sk-1");
    assert_eq!(BALANCE_URL, "https://api.deepseek.com/user/balance");
}

#[test]
fn text_comparison() {
    assert!(same_text("CNY", "CNY"));
    assert!(!same_text("CNY", "CN"));
    assert!(!same_text("CNY", "CNZ"));
    assert!(same_text("", ""));
}

#[test]
fn dark_mode_setting() {
    assert!(dark_mode_from_setting(Some(0)));
    assert!(!dark_mode_from_setting(Some(1)));
    assert!(!dark_mode_from_setting(None));
}

#[test]
fn theme_colour_values() {
    assert_eq!(theme_colors(true), ((32, 32, 32), (255, 255, 255)));
    assert_eq!(theme_colors(false), ((240, 240, 240), (0, 0, 0)));
}

#[test]
fn colorref_values() {
    assert_eq!(colorref((32, 32, 32)), 0x0020_2020);
    assert_eq!(colorref((1, 2, 3)), 0x0003_0201);
    assert_eq!(colorref((255, 255, 255)), 0x00FF_FFFF);
    assert_eq!(colorref((0, 0, 0)), 0);
}

#[test]
fn font_heights() {
    assert_eq!(icon_font_height(16), 12);
    assert_eq!(icon_font_height(19), 15);
    assert_eq!(icon_font_height(20), 14);
    assert_eq!(icon_font_height(32), 26);
}

#[test]
fn separators_at_empty_labels_after_the_first() {
    let labels: Vec<String> =
        ["", "Balance", "", "Refresh Now", "", "Quit"].iter().map(|s| s.to_string()).collect();
    assert_eq!(menu_separators(&labels), vec![false, false, true, false, true, false]);
    assert_eq!(menu_separators(&Vec::new()), Vec::<bool>::new());
}
