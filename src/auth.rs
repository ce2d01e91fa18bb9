use sha2::Digest;
use vstd::prelude::*;
use vstd::string::StrSliceExecFns;
use vstd::utf8::encode_utf8;

use crate::settings::Settings;
use crate::text::{joined, same_text};

verus! {

/// Name of the cookie that carries a logged-in user's token.
pub const AUTH_TOKEN_COOKIE_NAME: &'static str = "auth_token";

/// The SHA-256 digest of a byte string.
pub uninterp spec fn sha256_of(data: Seq<u8>) -> Seq<u8>;

/// Relies on sha2's `Sha256` (`new`, `update`, `finalize`): the SHA-256
/// digest of the bytes, which depends on the bytes alone.
#[verifier::external_body]
fn sha256(data: &[u8]) -> (r: Vec<u8>)
    ensures
        r@ == sha256_of(data@),
{
    let mut hasher = sha2::Sha256::new();
    hasher.update(data);
    hasher.finalize().to_vec()
}

/// The sixteen hexadecimal digits, upper case.
pub open spec fn hex_digits() -> Seq<char> {
    "0123456789ABCDEF"@
}

/// Two upper-case hexadecimal digits per byte, high digit first.
pub open spec fn upper_hex_of(bytes: Seq<u8>) -> Seq<char>
    decreases bytes.len(),
{
    if bytes.len() == 0 {
        Seq::empty()
    } else {
        upper_hex_of(bytes.drop_last()) + seq![
            hex_digits()[bytes.last() as int / 16],
            hex_digits()[bytes.last() as int % 16],
        ]
    }
}

fn push_hex_digit(s: &mut String, n: u8)
    requires
        n < 16,
    ensures
        final(s)@ == old(s)@.push(hex_digits()[n as int]),
{
    let digits = "0123456789ABCDEF";
    proof {
        reveal_strlit("0123456789ABCDEF");
    }
    let d = digits.substring_char(n as usize, n as usize + 1);
    s.append(d);
    assert(d@ =~= seq![hex_digits()[n as int]]);
}

/// The bytes as upper-case hexadecimal, two digits per byte.
pub fn upper_hex(bytes: &[u8]) -> (r: String)
    ensures
        r@ == upper_hex_of(bytes@),
{
    let mut s = String::new();
    let mut i: usize = 0;
    while i < bytes.len()
        invariant
            i <= bytes@.len(),
            s@ == upper_hex_of(bytes@.subrange(0, i as int)),
        decreases bytes@.len() - i,
    {
        let ghost prev = s@;
        let b = bytes[i];
        push_hex_digit(&mut s, b / 16);
        push_hex_digit(&mut s, b % 16);
        proof {
            let next = bytes@.subrange(0, i + 1);
            assert(next.drop_last() =~= bytes@.subrange(0, i as int));
            assert(s@ =~= prev + seq![hex_digits()[b as int / 16], hex_digits()[b as int % 16]]);
        }
        i = i + 1;
    }
    assert(bytes@.subrange(0, bytes@.len() as int) =~= bytes@);
    s
}

/// The token of a user name and password: the upper-case hexadecimal SHA-256
/// of the UTF-8 bytes of the name followed by the password.
pub open spec fn credentials_token(username: Seq<char>, password: Seq<char>) -> Seq<char> {
    upper_hex_of(sha256_of(encode_utf8(username + password)))
}

/// The token that stands for a logged-in user.
pub fn hash_credentials(username: &str, password: &str) -> (r: String)
    ensures
        r@ == credentials_token(username@, password@),
{
    let both = joined(username, password);
    let digest = sha256(both.as_str().as_bytes());
    upper_hex(digest.as_slice())
}

/// Whether the name and password are the shared credential.
pub fn authenticate(settings: &Settings, username: &str, password: &str) -> (r: bool)
    ensures
        r == (username@ == settings.explorer_username@ && password@ == settings.explorer_password@),
{
    same_text(username, settings.explorer_username.as_str()) && same_text(
        password,
        settings.explorer_password.as_str(),
    )
}

/// Proof that a request comes from a logged-in user.
pub struct Authenticated {}

impl Authenticated {
    /// Admits a request whose cookie carries the token of the shared credential.
    pub fn from_token(settings: &Settings, token: Option<&str>) -> (r: Option<Authenticated>)
        ensures
            r is Some <==> (token matches Some(t) && t@ == credentials_token(
                settings.explorer_username@,
                settings.explorer_password@,
            )),
    {
        match token {
            Some(t) => {
                let expected = hash_credentials(
                    settings.explorer_username.as_str(),
                    settings.explorer_password.as_str(),
                );
                if same_text(t, expected.as_str()) {
                    Some(Authenticated {  })
                } else {
                    None
                }
            },
            None => None,
        }
    }
}

/// What a login form carries.
pub struct LoginForm {
    pub username: String,
    pub password: String,
}

/// What the login page is shown with.
pub struct LoginQuery {
    pub error: Option<LoginError>,
    pub from: Option<String>,
    pub username: Option<String>,
}

/// Where to go after logging in.
pub struct AuthenticateQuery {
    pub from: Option<String>,
}

/// Why the login page is shown again.
#[derive(Debug, Clone, Copy, PartialEq, Eq, Structural)]
pub enum LoginError {
    InvalidCredentials,
}

impl LoginError {
    /// The text shown for the error.
    pub fn message(&self) -> (r: &'static str)
        ensures
            r@ == "Invalid username or password"@,
    {
        match self {
            LoginError::InvalidCredentials => "Invalid username or password",
        }
    }
}

/// Where the login form is posted: with the page to return to, if any.
pub fn authenticate_action(from: Option<&str>) -> (r: String)
    ensures
        match from {
            Some(f) => r@ == "/auth/authenticate?from="@ + f@,
            None => r@ == "/auth/authenticate"@,
        },
{
    match from {
        Some(f) => joined("/auth/authenticate?from=", f),
        None => String::from_str("/auth/authenticate"),
    }
}

/// What a login attempt leads to.
pub enum LoginOutcome {
    /// Set the token cookie and go to `redirect`.
    Accepted { token: String, redirect: String },
    /// Show the login page again, at `redirect`.
    Rejected { redirect: String },
}

/// The page a rejected login goes back to: the login page with the error, the
/// name that was tried, and the page to return to.
pub open spec fn rejected_redirect(username: Seq<char>, from: Option<Seq<char>>) -> Seq<char> {
    let base = "/auth/login?error=invalid_credentials&username="@ + username;
    match from {
        Some(f) => base + "&from="@ + f,
        None => base,
    }
}

/// Decides a login attempt: the shared credential gets its token and goes
/// where it came from (the root by default); anything else goes back to the
/// login page.
pub fn login(settings: &Settings, form: &LoginForm, from: Option<&str>) -> (r: LoginOutcome)
    ensures
        (form.username@ == settings.explorer_username@ && form.password@
            == settings.explorer_password@) ==> (r matches LoginOutcome::Accepted { token, redirect }
            && token@ == credentials_token(form.username@, form.password@) && redirect@ == match from {
            Some(f) => f@,
            None => "/"@,
        }),
        !(form.username@ == settings.explorer_username@ && form.password@
            == settings.explorer_password@) ==> (r matches LoginOutcome::Rejected { redirect }
            && redirect@ == rejected_redirect(
            form.username@,
            match from {
                Some(f) => Some(f@),
                None => None,
            },
        )),
{
    if authenticate(settings, form.username.as_str(), form.password.as_str()) {
        let token = hash_credentials(form.username.as_str(), form.password.as_str());
        let redirect = match from {
            Some(f) => String::from_str(f),
            None => String::from_str("/"),
        };
        LoginOutcome::Accepted { token, redirect }
    } else {
        let mut redirect = joined(
            "/auth/login?error=invalid_credentials&username=",
            form.username.as_str(),
        );
        match from {
            Some(f) => {
                redirect.append("&from=");
                redirect.append(f);
            },
            None => {},
        }
        LoginOutcome::Rejected { redirect }
    }
}

} // verus!
