use deepseek_balance::interval::{
    choice_minutes_at, choice_title_at, initial_selection, interval_from_stored,
    selected_interval, CHOICE_COUNT,
};
use deepseek_balance::settings::{
    centered_origin, key_field_to_read, save_request, settings_command, show_key_toggle,
    KeyField, SettingsCommand,
};
use deepseek_balance::storage::key_from_decrypted;
use deepseek_balance::text::{display_part_of, encode_wide, key_text_from_units, tip_buffer};

fn buffer_of(text: &str) -> Vec<u16> {
    let mut buf = vec![0u16; 256];
    for (i, u) in text.encode_utf16().enumerate() {
        buf[i] = u;
    }
    buf
}

#[test]
fn stored_interval_in_range_is_kept() {
    assert_eq!(interval_from_stored(Some(60)), 60);
    assert_eq!(interval_from_stored(Some(300)), 300);
    assert_eq!(interval_from_stored(Some(3600)), 3600);
}

#[test]
fn stored_interval_out_of_range_falls_back() {
    assert_eq!(interval_from_stored(Some(59)), 300);
    assert_eq!(interval_from_stored(Some(3601)), 300);
    assert_eq!(interval_from_stored(Some(0)), 300);
    assert_eq!(interval_from_stored(Some(u32::MAX)), 300);
    assert_eq!(interval_from_stored(None), 300);
}

#[test]
fn dialog_choices() {
    let titles: Vec<&str> = (0..CHOICE_COUNT).map(choice_title_at).collect();
    assert_eq!(titles, vec!["1 minute", "5 minutes", "10 minutes", "30 minutes", "1 hour"]);
    let minutes: Vec<u32> = (0..CHOICE_COUNT).map(choice_minutes_at).collect();
    assert_eq!(minutes, vec![1, 5, 10, 30, 60]);
}

#[test]
fn selected_interval_values() {
    assert_eq!(selected_interval(0), 60);
    assert_eq!(selected_interval(1), 300);
    assert_eq!(selected_interval(2), 600);
    assert_eq!(selected_interval(3), 1800);
    assert_eq!(selected_interval(4), 3600);
    assert_eq!(selected_interval(5), 300);
    assert_eq!(selected_interval(usize::MAX), 300);
}

#[test]
fn initial_selection_values() {
    assert_eq!(initial_selection(60), Some(0));
    assert_eq!(initial_selection(300), Some(1));
    assert_eq!(initial_selection(330), Some(1));
    assert_eq!(initial_selection(3600), Some(4));
    assert_eq!(initial_selection(120), None);
    assert_eq!(initial_selection(59), None);
}

#[test]
fn saved_interval_reads_back_and_reselects() {
    for sel in 0..CHOICE_COUNT + 2 {
        let saved = selected_interval(sel);
        assert!((60..=3600).contains(&saved));
        assert_eq!(interval_from_stored(Some(saved)), saved);
        if sel < CHOICE_COUNT {
            assert_eq!(initial_selection(saved), Some(sel));
        }
    }
}

#[test]
fn display_part_after_first_separator() {
    assert_eq!(display_part_of("Balance: ¥12.34"), "¥12.34");
    assert_eq!(display_part_of("DeepSeek Balance: $1.00"), "$1.00");
    assert_eq!(display_part_of("Note: a: b"), "a: b");
    assert_eq!(display_part_of(": x"), "x");
    assert_eq!(display_part_of("a: "), "");
}

#[test]
fn display_part_without_separator() {
    assert_eq!(display_part_of("abc"), "abc");
    assert_eq!(display_part_of("a:b"), "a:b");
    assert_eq!(display_part_of("x:"), "x:");
    assert_eq!(display_part_of(""), "");
}

#[test]
fn encode_wide_values() {
    assert_eq!(encode_wide(""), vec![0]);
    assert_eq!(encode_wide("A"), vec![65, 0]);
    assert_eq!(encode_wide("¥"), vec![0xA5, 0]);
    assert_eq!(encode_wide("🔑"), vec![0xD83D, 0xDD11, 0]);
    assert_eq!(encode_wide("⚠️"), vec![0x26A0, 0xFE0F, 0]);
}

#[test]
fn encode_wide_matches_std() {
    for s in ["DeepSeek Balance — Loading...", "¥12.34", "𝄞 a\u{10FFFF}\u{FFFF}", ""] {
        let expected: Vec<u16> = s.encode_utf16().chain(std::iter::once(0)).collect();
        assert_eq!(encode_wide(s), expected);
    }
}

#[test]
fn tip_buffer_short_text() {
    let buf = tip_buffer("DeepSeek Balance");
    assert_eq!(buf.len(), 128);
    let expected: Vec<u16> = "DeepSeek Balance".encode_utf16().collect();
    assert_eq!(&buf[..16], &expected[..]);
    assert!(buf[16..].iter().all(|&u| u == 0));
}

#[test]
fn tip_buffer_long_text_is_cut_and_terminated() {
    let long = "a".repeat(200);
    let buf = tip_buffer(&long);
    assert_eq!(buf.len(), 128);
    assert!(buf[..127].iter().all(|&u| u == 'a' as u16));
    assert_eq!(buf[127], 0);
}

#[test]
fn key_text_is_trimmed() {
    assert_eq!(key_text_from_units(&buffer_of("  sk-abc  ")), "sk-abc");
    assert_eq!(key_text_from_units(&buffer_of("\u{3000}key\t")), "key");
    assert_eq!(key_text_from_units(&buffer_of("a b")), "a b");
    assert_eq!(key_text_from_units(&buffer_of("")), "");
    assert_eq!(key_text_from_units(&[]), "");
}

#[test]
fn key_text_replaces_invalid_units() {
    assert_eq!(key_text_from_units(&[0x61, 0xD800, 0x62, 0, 0]), "a\u{FFFD}b");
}

#[test]
fn save_request_empty_key_flashes() {
    assert_eq!(save_request(&buffer_of(""), 1), None);
    assert_eq!(save_request(&buffer_of("   "), 1), None);
}

#[test]
fn save_request_returns_key_and_interval() {
    assert_eq!(save_request(&buffer_of(" sk-1 "), 2), Some(("sk-1".to_string(), 600)));
    assert_eq!(save_request(&buffer_of("sk-1"), 99), Some(("sk-1".to_string(), 300)));
}

#[test]
fn show_toggle() {
    let t = show_key_toggle(true);
    assert!(t.show_plain && !t.show_secure);
    assert_eq!(t.copy_from, KeyField::Secure);
    assert_eq!(t.copy_to, KeyField::Plain);
    let t = show_key_toggle(false);
    assert!(!t.show_plain && t.show_secure);
    assert_eq!(t.copy_from, KeyField::Plain);
    assert_eq!(t.copy_to, KeyField::Secure);
}

#[test]
fn key_field_read_on_save() {
    assert_eq!(key_field_to_read(true), KeyField::Secure);
    assert_eq!(key_field_to_read(false), KeyField::Plain);
    assert_eq!(KeyField::Secure.control_id(), 101);
    assert_eq!(KeyField::Plain.control_id(), 102);
}

#[test]
fn settings_commands() {
    assert_eq!(settings_command(103), SettingsCommand::ToggleShow);
    assert_eq!(settings_command(105), SettingsCommand::Save);
    assert_eq!(settings_command(0x0001_0069), SettingsCommand::Save);
    assert_eq!(settings_command(101), SettingsCommand::Other);
}

#[test]
fn centered_origin_values() {
    assert_eq!(centered_origin(0, 0, 380, 230, 1920, 1080), (770, 425));
    assert_eq!(centered_origin(10, 20, 390, 250, 1921, 1081), (770, 425));
    assert_eq!(centered_origin(0, 0, 101, 101, 50, 50), (-25, -25));
}

#[test]
fn stored_key_decoding() {
    assert_eq!(key_from_decrypted(b"sk-123".to_vec()), Some("sk-123".to_string()));
    assert_eq!(key_from_decrypted("¥".as_bytes().to_vec()), Some("¥".to_string()));
    assert_eq!(key_from_decrypted(vec![0xFF, 0x41]), None);
}

#[test]
fn dialog_round_trip_keeps_key_and_interval() {
    for key in ["sk-1", "密钥 abc", "🔑x"] {
        for sel in 0..CHOICE_COUNT {
            let interval = selected_interval(sel);
            let reopened = initial_selection(interval).unwrap();
            assert_eq!(save_request(&buffer_of(key), reopened), Some((key.to_string(), interval)));
        }
    }
}

#[test]
fn key_text_mixed_whitespace_and_surrogates() {
    let mut units: Vec<u16> = "\u{00A0}\u{2003}sk\u{1680}".encode_utf16().collect();
    units.push(0xDC00);
    units.extend(" \n".encode_utf16());
    units.extend([0, 0, 0]);
    assert_eq!(key_text_from_units(&units), "sk\u{1680}\u{FFFD}");
    let pair: Vec<u16> = "🔑".encode_utf16().collect();
    assert_eq!(key_text_from_units(&pair), "🔑");
    assert_eq!(key_text_from_units(&[0xD83D, 0x41]), "\u{FFFD}A");
}
