//! The discovery lockfile: token generation, the lockfile's JSON and where
//! it lives. Writing and removing the file is the caller's.
use vstd::prelude::*;
use vstd::string::StringExecFns;
use crate::errors::AmpError;
use crate::json::{entries_view, entry, lemma_object_view, member, to_json_string, Json, JsonV};
use crate::notifications::{string_array, strs_view};
use crate::text::{concat, concat3, decimal, decimal_string};

verus! {

/// The characters a token is drawn from.
pub const TOKEN_CHARSET: &'static str = "abcdefghijklmnopqrstuvwxyzABCDEFGHIJKLMNOPQRSTUVWXYZ0123456789";

/// Whether a character is an ASCII letter or digit.
pub open spec fn is_alnum(c: char) -> bool {
    ('a' <= c <= 'z') || ('A' <= c <= 'Z') || ('0' <= c <= '9')
}

/// Relies on rand's thread-local generator (`rand::rng`, seeded from the
/// operating system) and `Rng::random_range`, which returns a value of the
/// half-open range and panics only on an empty one.
#[verifier::external_body]
fn random_below(bound: usize) -> (r: usize)
    requires
        bound > 0,
    ensures
        r < bound,
{
    rand::Rng::random_range(&mut rand::rng(), 0..bound)
}

/// A token of `length` characters drawn uniformly from `[A-Za-z0-9]`.
pub fn generate_token(length: usize) -> (r: String)
    ensures
        r@.len() == length,
        forall|i: int| 0 <= i < r@.len() ==> is_alnum(#[trigger] r@[i]),
{
    proof {
        reveal_strlit("abcdefghijklmnopqrstuvwxyzABCDEFGHIJKLMNOPQRSTUVWXYZ0123456789");
    }
    let n = TOKEN_CHARSET.unicode_len();
    assert(n == 62);
    assert forall|i: int| 0 <= i < 62 implies is_alnum(#[trigger] TOKEN_CHARSET@[i]) by {}
    let mut token = String::new();
    let mut k: usize = 0;
    while k < length
        invariant
            k <= length,
            n == 62,
            n == TOKEN_CHARSET@.len(),
            forall|i: int| 0 <= i < 62 ==> is_alnum(#[trigger] TOKEN_CHARSET@[i]),
            token@.len() == k,
            forall|i: int| 0 <= i < token@.len() ==> is_alnum(#[trigger] token@[i]),
        decreases length - k,
    {
        let idx = random_below(n);
        let c = TOKEN_CHARSET.substring_char(idx, idx + 1);
        let ghost before = token@;
        token.append(c);
        assert(token@[k as int] == TOKEN_CHARSET@[idx as int]);
        assert forall|i: int| 0 <= i < token@.len() implies is_alnum(#[trigger] token@[i]) by {
            if i < k {
                assert(token@[i] == before[i]);
            }
        }
        k += 1;
    }
    token
}

/// Relies on dirs::home_dir: the user's home directory, if the environment
/// tells one.
#[verifier::external_body]
fn home_dir() -> (r: Option<String>) {
    dirs::home_dir().map(|p| p.to_string_lossy().into_owned())
}

/// Where lockfiles live below a home directory, on every platform.
pub open spec fn lockfile_dir_spec(home: Seq<char>) -> Seq<char> {
    home + "/.local/share/amp/ide"@
}

/// The lockfile directory below `home`.
pub fn lockfile_dir_in(home: &str) -> (r: String)
    ensures
        r@ == lockfile_dir_spec(home@),
{
    concat(home, "/.local/share/amp/ide")
}

/// The lockfile directory of the current user; `ConfigError` when the home
/// directory is unknown.
pub fn lockfile_dir() -> (r: Result<String, AmpError>)
    ensures
        r matches Err(e) ==> e is ConfigError,
        r matches Ok(d) ==> exists|home: Seq<char>| d@ == lockfile_dir_spec(home),
{
    match home_dir() {
        Some(h) => Ok(lockfile_dir_in(h.as_str())),
        None => Err(AmpError::ConfigError("Could not determine home directory".to_owned())),
    }
}

/// The lockfile of a port: `<dir>/<port>.json`.
pub open spec fn lockfile_path_spec(dir: Seq<char>, port: u16) -> Seq<char> {
    dir + "/"@ + decimal(port as nat) + ".json"@
}

/// The lockfile path of `port` in `dir`.
pub fn lockfile_path(dir: &str, port: u16) -> (r: String)
    ensures
        r@ == lockfile_path_spec(dir@, port),
{
    let p = decimal_string(port as u64);
    let mut s = concat3(dir, "/", p.as_str());
    s.append(".json");
    s
}

/// The editor name for the lockfile: `nvim X.Y.Z`, or `nvim` when the
/// version is unknown (all zero).
pub open spec fn ide_name_spec(major: u64, minor: u64, patch: u64) -> Seq<char> {
    if major == 0 && minor == 0 && patch == 0 {
        "nvim"@
    } else {
        "nvim "@ + decimal(major as nat) + "."@ + decimal(minor as nat) + "."@ + decimal(patch as nat)
    }
}

/// Formats the editor name from its version.
pub fn ide_name(major: u64, minor: u64, patch: u64) -> (r: String)
    ensures
        r@ == ide_name_spec(major, minor, patch),
{
    if major == 0 && minor == 0 && patch == 0 {
        "nvim".to_owned()
    } else {
        let a = decimal_string(major);
        let b = decimal_string(minor);
        let c = decimal_string(patch);
        let mut s = concat("nvim ", a.as_str());
        s.append(".");
        s.append(b.as_str());
        s.append(".");
        s.append(c.as_str());
        s
    }
}

/// The lockfile's content.
#[derive(Debug)]
pub struct Lockfile {
    pub port: u16,
    pub auth_token: String,
    pub pid: u32,
    pub workspace_folders: Vec<String>,
    pub ide_name: String,
}

/// The lockfile's JSON, with camelCase field names.
pub open spec fn lockfile_spec(port: u16, token: Seq<char>, pid: u32, folders: Seq<String>, ide: Seq<char>) -> JsonV {
    JsonV::Object(seq![
        ("port"@, JsonV::Int(port as int)),
        ("authToken"@, JsonV::Str(token)),
        ("pid"@, JsonV::Int(pid as int)),
        ("workspaceFolders"@, JsonV::Array(strs_view(folders))),
        ("ideName"@, JsonV::Str(ide)),
    ])
}

impl Lockfile {
    /// The lockfile's JSON value.
    pub fn to_json(self) -> (r: Json)
        ensures
            r@ == lockfile_spec(self.port, self.auth_token@, self.pid, self.workspace_folders@, self.ide_name@),
    {
        let ghost tv = self.auth_token@;
        let ghost iv = self.ide_name@;
        let folders = string_array(self.workspace_folders);
        let ghost fv = folders@;
        let mut out: Vec<(String, Json)> = Vec::new();
        out.push(entry("port", Json::Int(self.port as i64)));
        out.push(entry("authToken", Json::Str(self.auth_token)));
        out.push(entry("pid", Json::Int(self.pid as i64)));
        out.push(entry("workspaceFolders", folders));
        out.push(entry("ideName", Json::Str(self.ide_name)));
        proof {
            lemma_object_view(out);
        }
        assert(entries_view(out@) =~= seq![
            ("port"@, JsonV::Int(self.port as int)),
            ("authToken"@, JsonV::Str(tv)),
            ("pid"@, JsonV::Int(self.pid as int)),
            ("workspaceFolders"@, fv),
            ("ideName"@, JsonV::Str(iv)),
        ]);
        Json::Object(out)
    }

    /// The lockfile's text.
    pub fn to_text(self) -> (r: String)
        ensures
            r@ == crate::json::json_text(
                lockfile_spec(self.port, self.auth_token@, self.pid, self.workspace_folders@, self.ide_name@),
            ),
    {
        let j = self.to_json();
        to_json_string(&j)
    }
}

/// The lockfile that `start` writes holds the returned port and token.
pub proof fn law_lockfile_holds_port_and_token(port: u16, token: Seq<char>, pid: u32, folders: Seq<String>, ide: Seq<char>)
    ensures
        member(lockfile_spec(port, token, pid, folders, ide), "port"@) == Some(JsonV::Int(port as int)),
        member(lockfile_spec(port, token, pid, folders, ide), "authToken"@) == Some(JsonV::Str(token)),
{
    reveal_strlit("port");
    reveal_strlit("authToken");
    let e = match lockfile_spec(port, token, pid, folders, ide) {
        JsonV::Object(e) => e,
        _ => Seq::empty(),
    };
    assert("port"@.len() == 4);
    assert("authToken"@.len() == 9);
    crate::json::lemma_first_at(e, "port"@, 0);
    crate::json::lemma_first_at(e, "authToken"@, 1);
}

} // verus!
