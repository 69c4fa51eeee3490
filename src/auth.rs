//! The stored login session and the random token that identifies a socket
//! client.
use vstd::prelude::*;
use rand::Rng;

verus! {

/// The alphabet of socket request identifiers.
pub const SRI_ALPHABET: &'static str = "abcdefghijklmnopqrstuvwxyzABCDEFGHIJKLMNOPQRSTUVWXYZ0123456789";

/// The length of a socket request identifier.
pub const SRI_LEN: usize = 12;

/// Where the session file lies below the configuration directory.
pub const SESSION_FILE: &'static str = "chess-tui/lichess_session.json";

/// `rel` joined to `dir` as a path: a separator is put between them unless
/// `dir` is empty or already ends in one.
pub open spec fn join_path(dir: Seq<char>, rel: Seq<char>) -> Seq<char> {
    if dir.len() == 0 || dir.last() == '/' {
        dir + rel
    } else {
        dir + "/"@ + rel
    }
}

/// Every character of `s` is one of `alphabet`.
pub open spec fn drawn_from(s: Seq<char>, alphabet: Seq<char>) -> bool {
    forall|i: int| 0 <= i < s.len() ==> alphabet.contains(#[trigger] s[i])
}

/// Relies on rand's thread_rng and Rng::gen_range: an index drawn below `n`
/// (gen_range panics on an empty range, hence the bound).
#[verifier::external_body]
fn random_below(n: usize) -> (r: usize)
    requires
        n > 0,
    ensures
        r < n,
{
    rand::thread_rng().gen_range(0..n)
}

/// A string of `len` characters, each drawn at random from `alphabet`.
pub fn random_token(alphabet: &str, len: usize) -> (r: String)
    requires
        alphabet@.len() > 0,
    ensures
        r@.len() == len,
        drawn_from(r@, alphabet@),
{
    let n = alphabet.unicode_len();
    let mut out = String::new();
    let mut i: usize = 0;
    while i < len
        invariant
            n == alphabet@.len(),
            n > 0,
            i <= len,
            out@.len() == i,
            drawn_from(out@, alphabet@),
        decreases len - i,
    {
        let idx = random_below(n);
        let piece = alphabet.substring_char(idx, idx + 1);
        let ghost before = out@;
        out.append(piece);
        assert(out@[i as int] == alphabet@[idx as int]);
        assert forall|j: int| 0 <= j < out@.len() implies alphabet@.contains(#[trigger] out@[j]) by {
            if j < i {
                assert(out@[j] == before[j]);
            } else {
                assert(out@[j] == alphabet@[idx as int]);
            }
        }
        i = i + 1;
    }
    out
}

/// A login session: the session cookie, and what the login returned beside it.
#[derive(Debug, Clone)]
pub struct LichessSession {
    pub session_id: String,
    pub csrf_token: Option<String>,
    pub username: Option<String>,
}

impl LichessSession {
    /// The session file's path below the configuration directory `config_dir`.
    pub fn session_path(config_dir: &str) -> (r: String)
        ensures
            r@ == join_path(config_dir@, SESSION_FILE@),
    {
        let n = config_dir.unicode_len();
        let mut out = config_dir.to_owned();
        if n > 0 && config_dir.get_char(n - 1) == '/' {
            out.append(SESSION_FILE);
        } else if n > 0 {
            out.append("/");
            out.append(SESSION_FILE);
        } else {
            out.append(SESSION_FILE);
        }
        out
    }

    /// Reports a stored session as valid; no request to the server is made.
    pub fn validate(&self) -> (r: bool)
        ensures
            r,
    {
        true
    }

    /// A socket request identifier: twelve characters drawn at random from
    /// the alphanumeric alphabet.
    pub fn generate_sri() -> (r: String)
        ensures
            r@.len() == SRI_LEN,
            drawn_from(r@, SRI_ALPHABET@),
    {
        proof {
            reveal_strlit("abcdefghijklmnopqrstuvwxyzABCDEFGHIJKLMNOPQRSTUVWXYZ0123456789");
        }
        random_token(SRI_ALPHABET, SRI_LEN)
    }

    /// A session as the login returned it.
    pub fn new(session_id: String, csrf_token: Option<String>, username: Option<String>) -> (r:
        LichessSession)
        ensures
            r.session_id == session_id,
            r.csrf_token == csrf_token,
            r.username == username,
    {
        LichessSession { session_id, csrf_token, username }
    }
}

} // verus!
