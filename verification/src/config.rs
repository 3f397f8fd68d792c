//! The Google Drive settings kept on this machine.

use vstd::prelude::*;
use crate::numeric::{decimal, decimal_text};
use crate::paths::{is_joined, is_plain_file_name, join_path};
use crate::text::{all_white, blank, is_blank, lemma_blank_iff_all_white};

verus! {

/// The OAuth client, the tokens and the local redirect port for Google Drive.
#[derive(Clone, Debug)]
pub struct DriveSettings {
    pub client_id: String,
    pub client_secret: String,
    pub redirect_port: u16,
    pub scope: String,
    pub access_token: String,
    pub refresh_token: String,
    pub expires_at_epoch: i64,
}

/// The port the local OAuth redirect listens on unless set otherwise.
pub const DEFAULT_REDIRECT_PORT: u16 = 53682;

impl Default for DriveSettings {
    /// Empty client and tokens, the default port, and full Drive scope.
    fn default() -> (r: Self)
        ensures
            r.client_id@.len() == 0,
            r.client_secret@.len() == 0,
            r.redirect_port == DEFAULT_REDIRECT_PORT,
            r.scope@ == "https://www.googleapis.com/auth/drive"@,
            r.access_token@.len() == 0,
            r.refresh_token@.len() == 0,
            r.expires_at_epoch == 0,
    {
        DriveSettings {
            client_id: String::new(),
            client_secret: String::new(),
            redirect_port: DEFAULT_REDIRECT_PORT,
            scope: String::from_str("https://www.googleapis.com/auth/drive"),
            access_token: String::new(),
            refresh_token: String::new(),
            expires_at_epoch: 0,
        }
    }
}

impl DriveSettings {
    /// Both the client id and the client secret hold more than white space.
    pub open spec fn is_configured(self) -> bool {
        !is_blank(self.client_id@) && !is_blank(self.client_secret@)
    }

    /// An access token or a refresh token holds more than white space.
    pub open spec fn is_authenticated(self) -> bool {
        !is_blank(self.access_token@) || !is_blank(self.refresh_token@)
    }

    /// The local address the OAuth consent page redirects to.
    pub open spec fn redirect_uri_text(self) -> Seq<char> {
        "http://127.0.0.1:"@ + decimal(self.redirect_port as nat) + "/oauth"@
    }

    /// Whether an OAuth client is set.
    pub fn configured(&self) -> (b: bool)
        ensures
            b == self.is_configured(),
    {
        !blank(self.client_id.as_str()) && !blank(self.client_secret.as_str())
    }

    /// Whether a token is held.
    pub fn authenticated(&self) -> (b: bool)
        ensures
            b == self.is_authenticated(),
    {
        !blank(self.access_token.as_str()) || !blank(self.refresh_token.as_str())
    }

    /// `http://127.0.0.1:{port}/oauth`.
    pub fn redirect_uri(&self) -> (r: String)
        ensures
            r@ == self.redirect_uri_text(),
    {
        let r = String::from_str("http://127.0.0.1:");
        let port = decimal_text(self.redirect_port as u64);
        let r = r.concat(port.as_str());
        r.concat("/oauth")
    }
}

/// The settings count as configured exactly when the client id and the
/// client secret each hold a character that is not white space; an empty
/// or all-white client id, or client secret, leaves them unconfigured.
pub proof fn configured_needs_client_id_and_secret(s: DriveSettings)
    ensures
        s.is_configured() <==> (!all_white(s.client_id@) && !all_white(s.client_secret@)),
        s.client_id@.len() == 0 ==> !s.is_configured(),
        s.client_secret@.len() == 0 ==> !s.is_configured(),
{
    lemma_blank_iff_all_white(s.client_id@);
    lemma_blank_iff_all_white(s.client_secret@);
}

/// The settings count as holding a token exactly when the access token or
/// the refresh token holds a character that is not white space.
pub proof fn authenticated_needs_a_token(s: DriveSettings)
    ensures
        s.is_authenticated() <==> (!all_white(s.access_token@) || !all_white(s.refresh_token@)),
{
    lemma_blank_iff_all_white(s.access_token@);
    lemma_blank_iff_all_white(s.refresh_token@);
}

/// The settings file in the data folder: `drive_settings.json`.
pub fn drive_settings_path(data_dir: &str) -> (r: String)
    ensures
        is_joined(r@, data_dir@, "drive_settings.json"@),
{
    let name = "drive_settings.json";
    proof {
        reveal_strlit("drive_settings.json");
        assert(is_plain_file_name(name@));
    }
    join_path(data_dir, name)
}

} // verus!
