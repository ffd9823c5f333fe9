//! Discovery and inspection of local sessions from their liveness records.
//!
//! The file system and the process table are read by the caller; what they
//! report reaches this module as plain values and as two probes: one that
//! tells whether a process id is alive, one that tells whether a socket
//! endpoint file exists. Every call derives its answer afresh.
use vstd::prelude::*;
use crate::naming::{joined_path, join_path, session_name_from_file_name, session_of_record_name,
    socket_file_name, socket_name_of};
use crate::order::{lemma_bytes_le_total, lemma_bytes_le_transitive, text_le, text_le_exec};
use crate::pid::{decimal_i32, parse_pid, trimmed};

verus! {

/// What is known of one local session.
#[derive(Debug, Clone)]
pub struct LocalSession {
    /// The session name.
    pub name: String,
    /// The process id its liveness record holds.
    pub pid: i32,
    /// Whether that process was alive when probed.
    pub running: bool,
    /// Where its socket endpoint lives.
    pub socket_path: String,
    /// Whether the endpoint file existed when probed.
    pub socket_exists: bool,
}

/// One entry of the registry directory: its file name and, where the file
/// could be read, its text.
#[derive(Debug, Clone)]
pub struct RecordFile {
    pub file_name: String,
    pub contents: Option<String>,
}

/// Why a session could not be inspected.
#[derive(Debug, Clone, Copy, PartialEq, Eq, Structural)]
pub enum RegistryError {
    /// The session has no usable liveness record.
    NotFound,
}

/// The session name and process id that a directory entry records, when it
/// is a readable, well-formed liveness record.
pub open spec fn record_entry(f: RecordFile) -> Option<(Seq<char>, i32)> {
    match session_of_record_name(f.file_name@) {
        Some(name) => match f.contents {
            Some(text) => match decimal_i32(trimmed(text@)) {
                Some(pid) => Some((name, pid)),
                None => None,
            },
            None => None,
        },
        None => None,
    }
}

/// The records of a directory listing, in listing order; other entries are
/// skipped.
pub open spec fn record_entries(files: Seq<RecordFile>) -> Seq<(Seq<char>, i32)>
    decreases files.len(),
{
    if files.len() == 0 {
        seq![]
    } else {
        let rest = record_entries(files.drop_last());
        match record_entry(files.last()) {
            Some(e) => rest.push(e),
            None => rest,
        }
    }
}

/// Name and process id of a session.
pub open spec fn entry_of(s: LocalSession) -> (Seq<char>, i32) {
    (s.name@, s.pid)
}

/// Sessions in order of their names' bytes.
pub open spec fn sorted_by_name(s: Seq<LocalSession>) -> bool {
    forall|i: int, j: int| 0 <= i < j < s.len() ==> text_le(#[trigger] s[i].name@, #[trigger] s[j].name@)
}

/// `s` was built for a session in directory `dir` from the answers of the
/// two probes. A process id that is not positive names no single process
/// (it would address a process group), so it is never probed and never
/// counts as running.
pub open spec fn probed<F: Fn(i32) -> bool, G: Fn(String) -> bool>(
    s: LocalSession,
    dir: Seq<char>,
    is_alive: F,
    endpoint_exists: G,
) -> bool {
    &&& s.socket_path@ == joined_path(dir, socket_name_of(s.name@))
    &&& s.pid > 0 ==> is_alive.ensures((s.pid,), s.running)
    &&& s.pid <= 0 ==> !s.running
    &&& endpoint_exists.ensures((s.socket_path,), s.socket_exists)
}

/// The record that one directory entry holds.
fn read_record(f: &RecordFile) -> (r: Option<(String, i32)>)
    ensures
        r.is_some() == record_entry(*f).is_some(),
        r.is_some() ==> (r->Some_0.0@, r->Some_0.1) == record_entry(*f)->Some_0,
{
    match session_name_from_file_name(f.file_name.as_str()) {
        None => None,
        Some(name) => match &f.contents {
            None => None,
            Some(text) => match parse_pid(text.as_str()) {
                None => None,
                Some(pid) => Some((name, pid)),
            },
        },
    }
}

/// Builds the status of session `name` with process id `pid`, probing the
/// process and the endpoint.
fn probe_session<F: Fn(i32) -> bool, G: Fn(String) -> bool>(
    dir: &str,
    name: String,
    pid: i32,
    is_alive: &F,
    endpoint_exists: &G,
) -> (r: LocalSession)
    requires
        forall|p: i32| is_alive.requires((p,)),
        forall|s: String| endpoint_exists.requires((s,)),
    ensures
        r.name@ == name@,
        r.pid == pid,
        probed(r, dir@, *is_alive, *endpoint_exists),
{
    let running = if pid > 0 {
        is_alive(pid)
    } else {
        false
    };
    let file = socket_file_name(name.as_str());
    let socket_path = join_path(dir, file.as_str());
    let socket_exists = endpoint_exists(socket_path.clone());
    LocalSession { name, pid, running, socket_path, socket_exists }
}

/// Inserts `s` into the name-ordered `v`, at the returned position.
fn insert_by_name(v: &mut Vec<LocalSession>, s: LocalSession) -> (p: usize)
    requires
        sorted_by_name(old(v)@),
    ensures
        sorted_by_name(final(v)@),
        p <= old(v)@.len(),
        final(v)@ == old(v)@.insert(p as int, s),
{
    let mut p: usize = 0;
    while p < v.len() && text_le_exec(v[p].name.as_str(), s.name.as_str())
        invariant
            p <= v@.len(),
            forall|k: int| 0 <= k < p ==> text_le(#[trigger] v@[k].name@, s.name@),
        decreases v@.len() - p,
    {
        p = p + 1;
    }
    let ghost before = v@;
    proof {
        if p < before.len() {
            lemma_bytes_le_total(
                vstd::utf8::encode_utf8(before[p as int].name@),
                vstd::utf8::encode_utf8(s.name@),
            );
        }
    }
    v.insert(p, s);
    assert forall|i: int, j: int| 0 <= i < j < v@.len() implies text_le(
        #[trigger] v@[i].name@,
        #[trigger] v@[j].name@,
    ) by {
        if j == p {
        } else if i == p {
            if j > p + 1 {
                lemma_bytes_le_transitive(
                    vstd::utf8::encode_utf8(s.name@),
                    vstd::utf8::encode_utf8(before[p as int].name@),
                    vstd::utf8::encode_utf8(before[j - 1].name@),
                );
            }
        } else if i < p && j > p {
            assert(v@[j] == before[j - 1]);
        } else if i > p {
            assert(v@[i] == before[i - 1] && v@[j] == before[j - 1]);
        }
    }
    p
}

/// All local sessions with a well-formed liveness record among `files`, the
/// listing of directory `dir`, sorted by name. Entries that are no record,
/// could not be read or hold no process id are skipped.
pub fn find_local_sessions<F: Fn(i32) -> bool, G: Fn(String) -> bool>(
    dir: &str,
    files: &Vec<RecordFile>,
    is_alive: F,
    endpoint_exists: G,
) -> (r: Vec<LocalSession>)
    requires
        forall|p: i32| is_alive.requires((p,)),
        forall|s: String| endpoint_exists.requires((s,)),
    ensures
        sorted_by_name(r@),
        r@.map_values(|s: LocalSession| entry_of(s)).to_multiset() == record_entries(
            files@,
        ).to_multiset(),
        forall|i: int| 0 <= i < r@.len() ==> probed(#[trigger] r@[i], dir@, is_alive, endpoint_exists),
        r@.len() == record_entries(files@).len(),
        files@.len() == 0 ==> r@.len() == 0,
{
    let mut r: Vec<LocalSession> = Vec::new();
    let mut i: usize = 0;
    proof {
        let m = |x: LocalSession| entry_of(x);
        assert(r@.map_values(m) =~= Seq::<(Seq<char>, i32)>::empty());
        assert(files@.subrange(0, 0) =~= Seq::<RecordFile>::empty());
        assert(record_entries(files@.subrange(0, 0)) =~= Seq::<(Seq<char>, i32)>::empty());
    }
    while i < files.len()
        invariant
            i <= files@.len(),
            forall|p: i32| is_alive.requires((p,)),
            forall|s: String| endpoint_exists.requires((s,)),
            sorted_by_name(r@),
            r@.map_values(|s: LocalSession| entry_of(s)).to_multiset() == record_entries(
                files@.subrange(0, i as int),
            ).to_multiset(),
            forall|k: int| 0 <= k < r@.len() ==> probed(#[trigger] r@[k], dir@, is_alive, endpoint_exists),
        decreases files@.len() - i,
    {
        let ghost prefix = files@.subrange(0, i + 1);
        assert(prefix.drop_last() =~= files@.subrange(0, i as int));
        assert(prefix.last() == files@[i as int]);
        match read_record(&files[i]) {
            None => {},
            Some((name, pid)) => {
                let s = probe_session(dir, name, pid, &is_alive, &endpoint_exists);
                let ghost old_r = r@;
                let p = insert_by_name(&mut r, s);
                proof {
                    let m = |x: LocalSession| entry_of(x);
                    assert(r@.map_values(m) =~= old_r.map_values(m).insert(p as int, entry_of(s)));
                    vstd::seq_lib::to_multiset_insert(old_r.map_values(m), p as int, entry_of(s));
                    vstd::seq_lib::to_multiset_build(
                        record_entries(files@.subrange(0, i as int)),
                        entry_of(s),
                    );
                }
                assert forall|k: int| 0 <= k < r@.len() implies probed(
                    #[trigger] r@[k],
                    dir@,
                    is_alive,
                    endpoint_exists,
                ) by {
                    if k > p {
                        assert(r@[k] == old_r[k - 1]);
                    }
                }
            },
        }
        i = i + 1;
    }
    assert(files@.subrange(0, i as int) =~= files@);
    proof {
        let m = |x: LocalSession| entry_of(x);
        vstd::seq_lib::to_multiset_len(r@.map_values(m));
        vstd::seq_lib::to_multiset_len(record_entries(files@));
    }
    r
}

/// The status of session `name`, whose liveness record in directory `dir`
/// holds `record` (`None` when there is no record or it could not be read).
/// A record whose process is gone gives a status with `running` false, not an
/// error. A record that holds no process id is treated as no record, as
/// `find_local_sessions` skips it.
pub fn status_of<F: Fn(i32) -> bool, G: Fn(String) -> bool>(
    dir: &str,
    name: &str,
    record: Option<String>,
    is_alive: F,
    endpoint_exists: G,
) -> (r: Result<LocalSession, RegistryError>)
    requires
        forall|p: i32| is_alive.requires((p,)),
        forall|s: String| endpoint_exists.requires((s,)),
    ensures
        r is Ok <==> (record is Some && decimal_i32(trimmed(record->Some_0@)) is Some),
        r is Err ==> r == Err::<LocalSession, RegistryError>(RegistryError::NotFound),
        r is Ok ==> {
            &&& r->Ok_0.name@ == name@
            &&& r->Ok_0.pid == decimal_i32(trimmed(record->Some_0@))->Some_0
            &&& probed(r->Ok_0, dir@, is_alive, endpoint_exists)
        },
{
    match record {
        None => Err(RegistryError::NotFound),
        Some(text) => match parse_pid(text.as_str()) {
            None => Err(RegistryError::NotFound),
            Some(pid) => Ok(probe_session(dir, name.to_owned(), pid, &is_alive, &endpoint_exists)),
        },
    }
}

} // verus!
