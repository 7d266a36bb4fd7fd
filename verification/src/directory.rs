//! The directory service that lists the upstream proxies: where to ask it.

use crate::pool::RefreshError;
use vstd::prelude::*;

verus! {

/// `text` with every match of `pattern` replaced by `with`, as `str::replace`
/// does it.
pub uninterp spec fn replaced(text: Seq<char>, pattern: Seq<char>, with: Seq<char>) -> Seq<char>;

/// `str::replace`: a new string in which every match of `pattern` in `text`
/// has been replaced by `with`.
#[verifier::external_body]
fn replace_all(text: &str, pattern: &str, with: &str) -> (out: String)
    ensures
        out@ == replaced(text@, pattern@, with@),
{
    text.replace(pattern, with)
}

/// The seconds after which a request to the directory is given up.
pub const DIRECTORY_TIMEOUT_SECONDS: u64 = 10;

/// The address of the directory, with a place for each credential.
pub open spec fn url_template() -> Seq<char> {
    "https://dps.kdlapi.com/api/getdps/?secret_id={secret_id}&signature={signature}&num=1&format=json&sep=1&f_et=1&area=%E9%87%8D%E5%BA%86"@
}

/// The address at which the directory is asked with the given credentials:
/// the template with the identifier put in first, then the signature.
pub open spec fn directory_url_of(secret_id: Seq<char>, signature: Seq<char>) -> Seq<char> {
    replaced(replaced(url_template(), "{secret_id}"@, secret_id), "{signature}"@, signature)
}

/// The address at which to ask the directory. The identifier is looked at
/// first, then the signature; the first of them that is not there is the
/// failure.
pub fn directory_url(secret_id: &Option<String>, signature: &Option<String>) -> (url: Result<String, RefreshError>)
    ensures
        match url {
            Ok(address) => secret_id matches Some(id) && signature matches Some(mark) && address@
                == directory_url_of(id@, mark@),
            Err(RefreshError::MissingSetting { name }) => if secret_id is None {
                name@ == "PROXY_SECRET_ID"@
            } else {
                signature is None && name@ == "PROXY_SIGNATURE"@
            },
            Err(_) => false,
        },
{
    let id = match secret_id {
        Some(id) => id,
        None => {
            return Err(RefreshError::MissingSetting { name: "PROXY_SECRET_ID".to_string() });
        },
    };
    let mark = match signature {
        Some(mark) => mark,
        None => {
            return Err(RefreshError::MissingSetting { name: "PROXY_SIGNATURE".to_string() });
        },
    };
    let with_id = replace_all(
        "https://dps.kdlapi.com/api/getdps/?secret_id={secret_id}&signature={signature}&num=1&format=json&sep=1&f_et=1&area=%E9%87%8D%E5%BA%86",
        "{secret_id}",
        id.as_str(),
    );
    Ok(replace_all(with_id.as_str(), "{signature}", mark.as_str()))
}

} // verus!
