//! The conversation between a store and the file system that carries out its
//! requests: what a store may ask for, what comes back, how a read is
//! classified, and how each request changes a model of the files.

use vstd::prelude::*;

use crate::model::Validate;

verus! {

/// What a metadata probe found after a read reported "not found".
pub enum Probe {
    /// Nothing exists at the path.
    Absent,
    /// Something exists at the path (a broken link, for example).
    Present,
    /// The probe itself failed; the text says why.
    Failed(String),
}

/// The result of reading a file, together with the JSON parse of its bytes.
pub enum Fetch<T> {
    /// The bytes of the file and what they parse to.
    Bytes(Vec<u8>, Result<T, String>),
    /// The read said "not found" (with its error text); the probe tells
    /// whether something is there after all.
    NotFound(String, Probe),
    /// Any other read failure.
    Failed(String),
}

/// A file-system request issued by a store.
pub enum Request {
    /// Read the file at a path.
    Read(String),
    /// Create a new file (failing if one exists), write the bytes and sync.
    CreateNew(String, Vec<u8>),
    /// Atomically rename the first path onto the second.
    Replace(String, String),
    /// Remove a temporary file; its outcome does not matter.
    Discard(String),
    /// Create the parent directory of a path, if it has one.
    CreateParentDir(String),
}

/// The answer to a request: a read answers with a fetch, every other
/// request with a status.
pub enum Reply<T> {
    Fetched(Fetch<T>),
    Status(Result<(), String>),
}

/// A request in terms of the texts and bytes that it names.
pub enum Op {
    Read(Seq<char>),
    CreateNew(Seq<char>, Seq<u8>),
    Replace(Seq<char>, Seq<char>),
    Discard(Seq<char>),
    CreateParentDir(Seq<char>),
}

impl View for Request {
    type V = Op;

    open spec fn view(&self) -> Op {
        match self {
            Request::Read(p) => Op::Read(p@),
            Request::CreateNew(p, b) => Op::CreateNew(p@, b@),
            Request::Replace(from, to) => Op::Replace(from@, to@),
            Request::Discard(p) => Op::Discard(p@),
            Request::CreateParentDir(p) => Op::CreateParentDir(p@),
        }
    }
}

/// The text of every storage error: an action, the path it concerns, and
/// the cause.
pub open spec fn error_text(action: Seq<char>, path: Seq<char>, cause: Seq<char>) -> Seq<char> {
    action + " ["@ + path + "]: "@ + cause
}

pub fn error(action: &str, path: &str, cause: &str) -> (r: String)
    ensures
        r@ == error_text(action@, path@, cause@),
{
    let mut s = String::from_str(action);
    s.append(" [");
    s.append(path);
    s.append("]: ");
    s.append(cause);
    s
}

/// How a read is classified: the bytes, a confirmed absence, or an error.
/// Something that exists but cannot be read is never taken for absence.
pub open spec fn read_outcome<T>(path: Seq<char>, f: Fetch<T>) -> Result<Option<Seq<u8>>, Seq<char>> {
    match f {
        Fetch::Bytes(b, _) => Ok(Some(b@)),
        Fetch::NotFound(cause, probe) => match probe {
            Probe::Absent => Ok(None),
            Probe::Present => Err(error_text("文件存在但无法读取"@, path, cause@)),
            Probe::Failed(m) => Err(error_text("无法检查文件"@, path, m@)),
        },
        Fetch::Failed(e) => Err(error_text("无法读取文件（不是空数据）"@, path, e@)),
    }
}

/// Classifies a read: `Ok(Some(..))` hands back the bytes and their parse,
/// `Ok(None)` is a confirmed absence.
pub fn read_optional<T>(path: &str, f: Fetch<T>) -> (r: Result<Option<(Vec<u8>, Result<T, String>)>, String>)
    ensures
        match r {
            Ok(Some((b, parsed))) => read_outcome(path@, f) == Ok::<Option<Seq<u8>>, Seq<char>>(Some(b@))
                && f == Fetch::Bytes(b, parsed),
            Ok(None) => read_outcome(path@, f) == Ok::<Option<Seq<u8>>, Seq<char>>(None),
            Err(e) => read_outcome(path@, f) == Err::<Option<Seq<u8>>, Seq<char>>(e@),
        },
{
    match f {
        Fetch::Bytes(b, parsed) => Ok(Some((b, parsed))),
        Fetch::NotFound(cause, probe) => match probe {
            Probe::Absent => Ok(None),
            Probe::Present => Err(error("文件存在但无法读取", path, cause.as_str())),
            Probe::Failed(m) => Err(error("无法检查文件", path, m.as_str())),
        },
        Fetch::Failed(e) => Err(error("无法读取文件（不是空数据）", path, e.as_str())),
    }
}

/// What the parse of a file's bytes yields once it is also validated.
pub open spec fn decode_outcome<T: Validate>(path: Seq<char>, parsed: Result<T, String>) -> Result<T, Seq<char>> {
    match parsed {
        Err(e) => Err(error_text("JSON 无效；已禁止覆盖，请恢复备份或修复原文件"@, path, e@)),
        Ok(v) => if v.valid() {
            Ok(v)
        } else {
            Err(error_text("数据无效；已禁止覆盖"@, path, v.problem()))
        },
    }
}

/// A parsed file is accepted only if it is also valid.
pub fn decode<T: Validate>(parsed: Result<T, String>, path: &str) -> (r: Result<T, String>)
    ensures
        match r {
            Ok(v) => decode_outcome(path@, parsed) == Ok::<T, Seq<char>>(v),
            Err(e) => decode_outcome(path@, parsed) == Err::<T, Seq<char>>(e@),
        },
{
    match parsed {
        Err(e) => Err(error("JSON 无效；已禁止覆盖，请恢复备份或修复原文件", path, e.as_str())),
        Ok(v) => match v.validate() {
            Ok(()) => Ok(v),
            Err(e) => Err(error("数据无效；已禁止覆盖", path, e.as_str())),
        },
    }
}

/// The name of a sibling file: the path, a dot, the kind, a dash and a tag
/// that the caller makes unique.
pub open spec fn sibling_name(path: Seq<char>, kind: Seq<char>, tag: Seq<char>) -> Seq<char> {
    path + "."@ + kind + "-"@ + tag
}

pub fn unique_sibling(path: &str, kind: &str, tag: &str) -> (r: String)
    ensures
        r@ == sibling_name(path@, kind@, tag@),
{
    let mut s = String::from_str(path);
    s.append(".");
    s.append(kind);
    s.append("-");
    s.append(tag);
    s
}

/// Byte-wise equality of two buffers.
pub fn same_bytes(a: &Vec<u8>, b: &Vec<u8>) -> (r: bool)
    ensures
        r == (a@ == b@),
{
    if a.len() != b.len() {
        return false;
    }
    let mut i: usize = 0;
    while i < a.len()
        invariant
            a.len() == b.len(),
            i <= a.len(),
            forall|j: int| 0 <= j < i ==> a@[j] == b@[j],
        decreases a.len() - i,
    {
        if a[i] != b[i] {
            return false;
        }
        i = i + 1;
    }
    assert(a@ =~= b@);
    true
}

/// A copy of a buffer.
pub fn copy_bytes(a: &Vec<u8>) -> (r: Vec<u8>)
    ensures
        r@ == a@,
{
    let mut r: Vec<u8> = Vec::new();
    let mut i: usize = 0;
    while i < a.len()
        invariant
            i <= a.len(),
            r@ == a@.subrange(0, i as int),
        decreases a.len() - i,
    {
        r.push(a[i]);
        i = i + 1;
        assert(r@ =~= a@.subrange(0, i as int));
    }
    assert(r@ =~= a@);
    r
}

/// A model of the files: each path with the bytes it holds.
pub type Files = Map<Seq<char>, Seq<u8>>;

/// The bytes at a path, or none.
pub open spec fn file_at(fs: Files, p: Seq<char>) -> Option<Seq<u8>> {
    if fs.contains_key(p) {
        Some(fs[p])
    } else {
        None
    }
}

/// Whether a reply can be the answer to an operation on the given files.
/// Failures are always possible; successes say something about the files.
pub open spec fn plausible<T>(fs: Files, op: Op, reply: Reply<T>) -> bool {
    match op {
        Op::Read(p) => match reply {
            Reply::Fetched(f) => match f {
                Fetch::Bytes(b, _) => file_at(fs, p) == Some(b@),
                Fetch::NotFound(_, probe) => probe is Absent ==> !fs.contains_key(p),
                Fetch::Failed(_) => true,
            },
            Reply::Status(_) => false,
        },
        Op::CreateNew(p, _) => match reply {
            Reply::Status(s) => s is Ok ==> !fs.contains_key(p),
            Reply::Fetched(_) => false,
        },
        Op::Replace(from, _) => match reply {
            Reply::Status(s) => s is Ok ==> fs.contains_key(from),
            Reply::Fetched(_) => false,
        },
        Op::Discard(_) => reply is Status,
        Op::CreateParentDir(_) => reply is Status,
    }
}

/// How an operation, answered by a reply, changes the files.
pub open spec fn effect<T>(fs: Files, op: Op, reply: Reply<T>) -> Files {
    let ok = reply matches Reply::Status(s) && s is Ok;
    match op {
        Op::CreateNew(p, b) => if ok {
            fs.insert(p, b)
        } else {
            fs
        },
        Op::Replace(from, to) => if ok {
            fs.remove(from).insert(to, fs[from])
        } else {
            fs
        },
        Op::Discard(p) => if ok {
            fs.remove(p)
        } else {
            fs
        },
        _ => fs,
    }
}

} // verus!
