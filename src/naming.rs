//! Names of the per-session files: the liveness record and the socket
//! endpoint are found by string formatting alone, with no discovery step.
use vstd::prelude::*;
use vstd::string::StringExecFns;

verus! {

/// Prefix shared by every per-session file name.
pub open spec fn name_prefix() -> Seq<char> {
    "agent-browser-"@
}

/// Suffix of a liveness record's file name.
pub open spec fn record_suffix() -> Seq<char> {
    ".pid"@
}

/// Suffix of a socket endpoint's file name.
pub open spec fn socket_suffix() -> Seq<char> {
    ".sock"@
}

/// File name of the liveness record of session `name`.
pub open spec fn record_name_of(name: Seq<char>) -> Seq<char> {
    name_prefix() + name + record_suffix()
}

/// File name of the socket endpoint of session `name`.
pub open spec fn socket_name_of(name: Seq<char>) -> Seq<char> {
    name_prefix() + name + socket_suffix()
}

/// The session whose liveness record is named `f`, if `f` follows the
/// record naming convention with a non-empty session name.
pub open spec fn session_of_record_name(f: Seq<char>) -> Option<Seq<char>> {
    let p = name_prefix().len();
    let q = record_suffix().len();
    if f.len() > p + q && name_prefix().is_prefix_of(f) && record_suffix().is_suffix_of(f) {
        Some(f.subrange(p as int, f.len() - q))
    } else {
        None
    }
}

/// `dir` joined with the file name `file` by one separator.
pub open spec fn joined_path(dir: Seq<char>, file: Seq<char>) -> Seq<char> {
    if dir.len() == 0 || dir.last() == '/' {
        dir + file
    } else {
        dir + seq!['/'] + file
    }
}

/// Relies on str::strip_prefix: `Some` of what follows `p` when `s` begins
/// with `p`, `None` otherwise.
#[verifier::external_body]
fn strip_prefix_of<'a>(s: &'a str, p: &str) -> (r: Option<&'a str>)
    ensures
        match r {
            Some(rest) => s@ == p@ + rest@,
            None => !p@.is_prefix_of(s@),
        },
{
    s.strip_prefix(p)
}

/// Relies on str::strip_suffix: `Some` of what precedes `t` when `s` ends
/// with `t`, `None` otherwise.
#[verifier::external_body]
fn strip_suffix_of<'a>(s: &'a str, t: &str) -> (r: Option<&'a str>)
    ensures
        match r {
            Some(rest) => s@ == rest@ + t@,
            None => !t@.is_suffix_of(s@),
        },
{
    s.strip_suffix(t)
}

/// File name of the liveness record of session `name`.
pub fn record_file_name(name: &str) -> (r: String)
    ensures
        r@ == record_name_of(name@),
{
    let mut r = "agent-browser-".to_owned();
    r.append(name);
    r.append(".pid");
    r
}

/// File name of the socket endpoint of session `name`.
pub fn socket_file_name(name: &str) -> (r: String)
    ensures
        r@ == socket_name_of(name@),
{
    let mut r = "agent-browser-".to_owned();
    r.append(name);
    r.append(".sock");
    r
}

/// The session name encoded in a liveness record's file name, or `None`
/// when the file is no liveness record.
pub fn session_name_from_file_name(file_name: &str) -> (r: Option<String>)
    ensures
        r.is_some() == session_of_record_name(file_name@).is_some(),
        r.is_some() ==> r->Some_0@ == session_of_record_name(file_name@)->Some_0,
{
    proof {
        reveal_strlit("agent-browser-");
        reveal_strlit(".pid");
    }
    let f = file_name;
    match strip_prefix_of(file_name, "agent-browser-") {
        None => {
            None
        },
        Some(rest) => {
            assert(rest@ =~= f@.subrange(14, f@.len() as int));
            match strip_suffix_of(rest, ".pid") {
                None => {
                    proof {
                        if session_of_record_name(f@).is_some() {
                            assert(rest@.subrange(rest@.len() - 4, rest@.len() as int)
                                =~= f@.subrange(f@.len() - 4, f@.len() as int));
                        }
                    }
                    None
                },
                Some(mid) => {
                    assert(mid@ =~= f@.subrange(14, f@.len() - 4));
                    if mid.is_empty() {
                        None
                    } else {
                        assert(record_suffix().is_suffix_of(f@)) by {
                            assert(f@.subrange(f@.len() - 4, f@.len() as int) =~= ".pid"@);
                        }
                        Some(mid.to_owned())
                    }
                },
            }
        },
    }
}

/// The path of `file` inside the directory `dir`.
pub fn join_path(dir: &str, file: &str) -> (r: String)
    ensures
        r@ == joined_path(dir@, file@),
{
    proof {
        reveal_strlit("/");
    }
    let mut r = dir.to_owned();
    let ends_with_sep = match strip_suffix_of(dir, "/") {
        Some(_) => true,
        None => false,
    };
    proof {
        if dir@.len() > 0 && dir@.last() == '/' {
            assert("/"@.is_suffix_of(dir@)) by {
                assert(dir@.subrange(dir@.len() - 1, dir@.len() as int) =~= seq!['/']);
            }
        }
    }
    if dir.is_empty() || ends_with_sep {
    } else {
        r.append("/");
    }
    r.append(file);
    r
}

/// The name of a session's liveness record gives back the session's name,
/// for every non-empty name.
pub proof fn lemma_record_name_round_trip(name: Seq<char>)
    requires
        name.len() > 0,
    ensures
        session_of_record_name(record_name_of(name)) == Some(name),
{
    reveal_strlit("agent-browser-");
    reveal_strlit(".pid");
    let f = record_name_of(name);
    assert(f.subrange(0, 14) =~= name_prefix());
    assert(f.subrange(f.len() - 4, f.len() as int) =~= record_suffix());
    assert(f.subrange(14, f.len() - 4) =~= name);
}

} // verus!
