use vstd::prelude::*;
use vstd::string::*;
use crate::text::{decimal, decimal_digits, text_or};

verus! {

/// The lifetime, in seconds, assumed for an access token whose lifetime the
/// identity provider does not tell.
pub const DEFAULT_LIFETIME_SECONDS: u64 = 3600;

/// The address to which the browser goes after an authorization that
/// succeeded. It carries the credential: the access token, the refresh
/// token (empty where there is none) and the lifetime in seconds (the
/// default where it is not known).
pub open spec fn success_redirect(
    access_token: Seq<char>,
    refresh_token: Option<Seq<char>>,
    expires_in: Option<u64>,
) -> Seq<char> {
    "http://localhost:3000/?access_token="@ + access_token + "&refresh_token="@ + text_or(
        refresh_token,
        Seq::empty(),
    ) + "&expires_in="@ + decimal_digits(
        match expires_in {
            Some(seconds) => seconds as nat,
            None => DEFAULT_LIFETIME_SECONDS as nat,
        },
    )
}

/// Writes the address to which the browser goes after an authorization that
/// succeeded.
pub fn success_redirect_url(
    access_token: &str,
    refresh_token: Option<&str>,
    expires_in: Option<u64>,
) -> (url: String)
    ensures
        url@ == success_redirect(
            access_token@,
            match refresh_token {
                Some(token) => Some(token@),
                None => None,
            },
            expires_in,
        ),
{
    let mut url = String::from_str("http://localhost:3000/?access_token=");
    url.append(access_token);
    url.append("&refresh_token=");
    match refresh_token {
        Some(token) => {
            url.append(token);
        },
        None => {
            assert(url@ + Seq::<char>::empty() =~= url@);
        },
    }
    url.append("&expires_in=");
    let seconds = match expires_in {
        Some(seconds) => seconds,
        None => DEFAULT_LIFETIME_SECONDS,
    };
    let lifetime = decimal(seconds);
    url.append(lifetime.as_str());
    url
}

} // verus!
