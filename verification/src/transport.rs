//! Transport boundary.
//!
//! The network itself stays outside the library. What is decided here is
//! everything the transport computes: which header lines a request to each
//! provider carries, which URL each probe step addresses, and how a raw
//! response splits into success and typed failure. A response counts as
//! successful exactly on status 200 or 204; anything else is an error that
//! keeps the body for diagnosis.

use vstd::prelude::*;
use vstd::string::StringExecFns;
use crate::num::dec_repr;
use crate::num::u64_to_dec;

verus! {

/// Why a provider request failed.
#[derive(Debug, PartialEq, Eq)]
pub enum TransportError {
    /// The transfer failed before any status arrived.
    Network,
    /// A status other than 200 or 204, with the body kept for diagnosis.
    UnexpectedStatus { code: u32, body: Vec<u8> },
    /// The body was not the JSON shape the caller expected.
    Decode { raw: Vec<u8> },
    /// The body was not UTF-8 text.
    NotUtf8 { raw: Vec<u8> },
}

/// Splits a finished transfer into success and failure: status 200 and 204
/// pass the body through, every other status becomes `UnexpectedStatus`
/// carrying that code and body.
pub fn check_status(code: u32, body: Vec<u8>) -> (r: Result<Vec<u8>, TransportError>)
    ensures
        code == 200 || code == 204 ==> r == Ok::<Vec<u8>, TransportError>(body),
        !(code == 200 || code == 204) ==> r == Err::<Vec<u8>, TransportError>(
            TransportError::UnexpectedStatus { code, body },
        ),
{
    if code == 200 || code == 204 {
        Ok(body)
    } else {
        Err(TransportError::UnexpectedStatus { code, body })
    }
}

/// The header lines of a Travis request: the identifying agent, the token
/// authorization, and the accept line that selects the API version.
pub fn travis_headers(token: &String) -> (r: Vec<String>)
    ensures
        r@.len() == 3,
        r@[0]@ == "User-Agent: hello!"@,
        r@[1]@ == "Authorization: token "@ + token@,
        r@[2]@ == "Accept: application/vnd.travis-ci.2+json"@,
{
    let mut auth = String::from_str("Authorization: token ");
    auth.append(token.as_str());
    let mut r: Vec<String> = Vec::new();
    r.push(String::from_str("User-Agent: hello!"));
    r.push(auth);
    r.push(String::from_str("Accept: application/vnd.travis-ci.2+json"));
    r
}

/// The header lines of an AppVeyor request: the identifying agent, the
/// bearer authorization, and the plain JSON accept line.
pub fn appveyor_headers(token: &String) -> (r: Vec<String>)
    ensures
        r@.len() == 3,
        r@[0]@ == "User-Agent: hello!"@,
        r@[1]@ == "Authorization: Bearer "@ + token@,
        r@[2]@ == "Accept: application/json"@,
{
    let mut auth = String::from_str("Authorization: Bearer ");
    auth.append(token.as_str());
    let mut r: Vec<String> = Vec::new();
    r.push(String::from_str("User-Agent: hello!"));
    r.push(auth);
    r.push(String::from_str("Accept: application/json"));
    r
}

/// The URL listing a repository's recent builds and their commits.
pub fn travis_builds_url(user: &String, name: &String) -> (r: String)
    ensures
        r@ == "https://api.travis-ci.org/repos/"@ + user@ + "/"@ + name@ + "/builds"@,
{
    let mut u = String::from_str("https://api.travis-ci.org/repos/");
    u.append(user.as_str());
    u.append("/");
    u.append(name.as_str());
    u.append("/builds");
    u
}

/// The URL of one build's detail, jobs included.
pub fn travis_build_url(id: u64) -> (r: String)
    ensures
        r@ == "https://api.travis-ci.org/builds/"@ + dec_repr(id as nat),
{
    let mut u = String::from_str("https://api.travis-ci.org/builds/");
    u.append(u64_to_dec(id).as_str());
    u
}

/// The URL that cancels one build.
pub fn travis_cancel_url(id: u64) -> (r: String)
    ensures
        r@ == "https://api.travis-ci.org/builds/"@ + dec_repr(id as nat) + "/cancel"@,
{
    let mut u = travis_build_url(id);
    u.append("/cancel");
    u
}

/// The URL of the last ten builds of the tracked branch.
pub fn appveyor_history_url(account: &String, name: &String, branch: &String) -> (r: String)
    ensures
        r@ == "https://ci.appveyor.com/api/projects/"@ + account@ + "/"@ + name@
            + "/history?recordsNumber=10&branch="@ + branch@,
{
    let mut u = String::from_str("https://ci.appveyor.com/api/projects/");
    u.append(account.as_str());
    u.append("/");
    u.append(name.as_str());
    u.append("/history?recordsNumber=10&branch=");
    u.append(branch.as_str());
    u
}

/// The URL of the single newest build of the tracked branch.
pub fn appveyor_branch_url(account: &String, name: &String, branch: &String) -> (r: String)
    ensures
        r@ == "https://ci.appveyor.com/api/projects/"@ + account@ + "/"@ + name@ + "/branch/"@
            + branch@,
{
    let mut u = String::from_str("https://ci.appveyor.com/api/projects/");
    u.append(account.as_str());
    u.append("/");
    u.append(name.as_str());
    u.append("/branch/");
    u.append(branch.as_str());
    u
}

/// The URL that cancels one build, named by its version segment.
pub fn appveyor_cancel_url(account: &String, name: &String, version: &String) -> (r: String)
    ensures
        r@ == "https://ci.appveyor.com/api/builds/"@ + account@ + "/"@ + name@ + "/"@ + version@,
{
    let mut u = String::from_str("https://ci.appveyor.com/api/builds/");
    u.append(account.as_str());
    u.append("/");
    u.append(name.as_str());
    u.append("/");
    u.append(version.as_str());
    u
}

} // verus!
