use vstd::prelude::*;
use vstd::string::StringExecFns;

verus! {

/// The HTTP status that counts as success for every exchange with the
/// catalog and the authentication service; any other is a failure.
pub const STATUS_OK: u16 = 200;

/// Whether an HTTP status is the success status.
pub fn is_success(status: u16) -> (r: bool)
    ensures
        r == (status == STATUS_OK),
{
    status == STATUS_OK
}

/// Download credentials: the account name and its download token.
#[derive(Debug, Clone)]
pub struct Credentials {
    pub username: String,
    pub token: String,
}

pub open spec fn mod_info_url_spec(name: Seq<char>) -> Seq<char> {
    "https://mods.factorio.com/api/mods/"@ + name
}

pub open spec fn download_url_spec(download_path: Seq<char>, username: Seq<char>, token: Seq<char>) -> Seq<char> {
    "https://mods.factorio.com"@ + download_path + "?username="@ + username + "&token="@ + token
}

pub open spec fn login_url_spec(username: Seq<char>, password: Seq<char>) -> Seq<char> {
    "https://auth.factorio.com/api-login?username="@ + username + "&password="@ + password
}

/// The catalog address that lists a mod and its releases.
pub fn mod_info_url(name: &str) -> (r: String)
    ensures
        r@ == mod_info_url_spec(name@),
{
    let mut url = String::from_str("https://mods.factorio.com/api/mods/");
    url.append(name);
    url
}

/// The authenticated address of a release's file: the server-relative
/// download path on the catalog host, with the credentials as query
/// parameters.
pub fn download_url(download_path: &str, credentials: &Credentials) -> (r: String)
    ensures
        r@ == download_url_spec(download_path@, credentials.username@, credentials.token@),
{
    let mut url = String::from_str("https://mods.factorio.com");
    url.append(download_path);
    url.append("?username=");
    url.append(credentials.username.as_str());
    url.append("&token=");
    url.append(credentials.token.as_str());
    url
}

/// The address of the login exchange for an account name and password.
pub fn login_url(username: &str, password: &str) -> (r: String)
    ensures
        r@ == login_url_spec(username@, password@),
{
    let mut url = String::from_str("https://auth.factorio.com/api-login?username=");
    url.append(username);
    url.append("&password=");
    url.append(password);
    url
}

} // verus!
