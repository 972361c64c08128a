//! Where the application keeps its settings, and how a stored key is read back.
use vstd::prelude::*;
use vstd::utf8::{decode_utf8, valid_utf8};

verus! {

/// Registry key, under the current user, that holds the application's settings.
pub const SETTINGS_KEY_PATH: &'static str = "Software\\DeepSeekBalance";
/// Registry key, under the current user, that lists programs started at login.
pub const RUN_KEY_PATH: &'static str = "Software\\Microsoft\\Windows\\CurrentVersion\\Run";
/// Name of the application's entry under the Run key.
pub const APP_NAME: &'static str = "DeepSeekBalance";
/// Value that holds the encrypted API key.
pub const KEY_VALUE_NAME: &'static str = "ApiKeyEncrypted";
/// Value that holds the refresh interval in seconds.
pub const INTERVAL_VALUE_NAME: &'static str = "RefreshIntervalSec";
/// Description given to the encryption of the key.
pub const KEY_DESCRIPTION: &'static str = "DeepSeekBalance";

/// Calls `String::from_utf8`, which accepts exactly the byte sequences that are valid
/// UTF-8 and then holds the characters they encode.
#[verifier::external_body]
fn string_from_utf8(bytes: Vec<u8>) -> (r: Option<String>)
    ensures
        r is Some <==> valid_utf8(bytes@),
        r matches Some(s) ==> s@ == decode_utf8(bytes@),
{
    String::from_utf8(bytes).ok()
}

/// The key held by the decrypted bytes of the stored value: their text when they are
/// valid UTF-8, none otherwise.
pub fn key_from_decrypted(bytes: Vec<u8>) -> (key: Option<String>)
    ensures
        key is Some <==> valid_utf8(bytes@),
        key matches Some(k) ==> k@ == decode_utf8(bytes@),
{
    string_from_utf8(bytes)
}

} // verus!
