//! The profile materializer's textual half: rendering the network-profile
//! document from the template by substituting the network name and the
//! passphrase into their placeholder tokens.
//!
//! Writing the rendered document to a transient file, and handing that
//! file to the platform utility, is left to the surrounding application.

use vstd::prelude::*;
use crate::text::replace_str;
use crate::text::replace_text;

verus! {

/// The placeholder token that the network name replaces.
pub open spec fn ssid_token() -> Seq<char> {
    "{SSID}"@
}

/// The placeholder token that the passphrase replaces.
pub open spec fn password_token() -> Seq<char> {
    "{password}"@
}

/// The network-profile template, with one placeholder for the network
/// name and one for the passphrase.
pub open spec fn profile_template() -> Seq<char> {
    "<?xml version=\"1.0\"?>\n<WLANProfile xmlns=\"http://www.microsoft.com/networking/WLAN/profile/v1\">\n    <name>{SSID}</name>\n    <connectionType>ESS</connectionType>\n    <connectionMode>auto</connectionMode>\n    <MSM>\n        <security>\n            <authEncryption>\n                <authentication>WPA2PSK</authentication>\n                <encryption>AES</encryption>\n                <useOneX>false</useOneX>\n            </authEncryption>\n            <sharedKey>\n                <keyType>passPhrase</keyType>\n                <protected>false</protected>\n                <keyMaterial>{password}</keyMaterial>\n            </sharedKey>\n        </security>\n    </MSM>\n</WLANProfile>\n"@
}

/// The profile document for a network: the template with the name token
/// replaced first and the passphrase token replaced second, each once
/// over the whole text.  The two substitutions are independent, so a
/// name that itself contains the passphrase token is substituted again
/// by the second pass.
pub open spec fn rendered_profile(ssid: Seq<char>, password: Seq<char>) -> Seq<char> {
    replace_text(
        replace_text(profile_template(), ssid_token(), ssid),
        password_token(),
        password,
    )
}

/// The template as text, for callers that stage the document themselves.
pub fn profile_template_text() -> (t: &'static str)
    ensures
        t@ == profile_template(),
{
    "<?xml version=\"1.0\"?>\n<WLANProfile xmlns=\"http://www.microsoft.com/networking/WLAN/profile/v1\">\n    <name>{SSID}</name>\n    <connectionType>ESS</connectionType>\n    <connectionMode>auto</connectionMode>\n    <MSM>\n        <security>\n            <authEncryption>\n                <authentication>WPA2PSK</authentication>\n                <encryption>AES</encryption>\n                <useOneX>false</useOneX>\n            </authEncryption>\n            <sharedKey>\n                <keyType>passPhrase</keyType>\n                <protected>false</protected>\n                <keyMaterial>{password}</keyMaterial>\n            </sharedKey>\n        </security>\n    </MSM>\n</WLANProfile>\n"
}

/// Renders the profile document for the given network name and
/// passphrase.
pub fn render_profile(ssid: &str, password: &str) -> (r: String)
    ensures
        r@ == rendered_profile(ssid@, password@),
{
    let template = profile_template_text();
    let with_ssid = replace_str(template, "{SSID}", ssid);
    replace_str(with_ssid.as_str(), "{password}", password)
}

} // verus!
