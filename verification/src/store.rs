//! A fail-closed JSON store. A store may overwrite its file only after it
//! has read (or recovered) that file successfully, and only while the file
//! still holds exactly what was read. Reading, writing and renaming are
//! requests that the caller carries out; the store decides.

use std::marker::PhantomData;

use vstd::prelude::*;

use crate::disk::{
    copy_bytes, decode, decode_outcome, error, error_text, read_optional, read_outcome,
    same_bytes, sibling_name, unique_sibling, Fetch, Op, Reply, Request,
};
use crate::model::Validate;

verus! {

/// One JSON file and what the store last read from it or wrote to it.
pub struct JsonStore<T> {
    path: String,
    // None: never read successfully, a failed read, or an outside change.
    // Some(None): confirmed absent on first use. Some(Some(b)): the bytes b.
    loaded: Option<Option<Vec<u8>>>,
    marker: PhantomData<T>,
}

/// A store as its path and its snapshot: the file contents that the store
/// may overwrite, if any.
pub struct StoreView {
    pub path: Seq<char>,
    pub snapshot: Option<Option<Seq<u8>>>,
}

pub open spec fn bytes_view(o: Option<Vec<u8>>) -> Option<Seq<u8>> {
    match o {
        Some(b) => Some(b@),
        None => None,
    }
}

pub open spec fn snapshot_view(o: Option<Option<Vec<u8>>>) -> Option<Option<Seq<u8>>> {
    match o {
        Some(s) => Some(bytes_view(s)),
        None => None,
    }
}

pub open spec fn res_view<R>(r: Result<R, String>) -> Result<R, Seq<char>> {
    match r {
        Ok(v) => Ok(v),
        Err(e) => Err(e@),
    }
}

impl<T> View for JsonStore<T> {
    type V = StoreView;

    closed spec fn view(&self) -> StoreView {
        StoreView { path: self.path@, snapshot: snapshot_view(self.loaded) }
    }
}

/// Where the backup of a file lives.
pub open spec fn backup_name(path: Seq<char>) -> Seq<char> {
    path + ".bak"@
}

/// The error of a save that was never permitted.
pub open spec fn blocked_text(path: Seq<char>) -> Seq<char> {
    error_text("保存被阻止"@, path, "必须先成功读取数据或显式恢复备份"@)
}

/// The error of a save whose file changed since it was read.
pub open spec fn changed_text(path: Seq<char>) -> Seq<char> {
    error_text("保存被阻止"@, path, "文件已被外部修改；请重新读取或恢复备份，避免丢失数据"@)
}

/// The error of a recovery without a backup.
pub open spec fn no_backup_text(backup: Seq<char>) -> Seq<char> {
    error_text("无法恢复"@, backup, "不存在备份"@)
}

/// The snapshot that a load leaves: the bytes read, or a confirmed absence,
/// when the file reads and decodes; none otherwise.
pub open spec fn load_snapshot<T: Validate>(path: Seq<char>, f: Fetch<T>) -> Option<Option<Seq<u8>>> {
    match read_outcome(path, f) {
        Err(_) => None,
        Ok(None) => Some(None),
        Ok(Some(b)) => match f {
            Fetch::Bytes(_, parsed) => if decode_outcome(path, parsed) is Ok {
                Some(Some(b))
            } else {
                None
            },
            _ => None,
        },
    }
}

/// Whether the file may be overwritten: there is a snapshot and the file
/// reads as exactly that snapshot.
pub open spec fn write_check<T>(snapshot: Option<Option<Seq<u8>>>, path: Seq<char>, f: Fetch<T>) -> Result<(), Seq<char>> {
    match snapshot {
        None => Err(blocked_text(path)),
        Some(s) => match read_outcome(path, f) {
            Err(e) => Err(e),
            Ok(cur) => if cur == s {
                Ok(())
            } else {
                Err(changed_text(path))
            },
        },
    }
}

/// A check revokes the snapshot when the file reads as something else.
pub open spec fn check_revokes<T>(snapshot: Option<Option<Seq<u8>>>, path: Seq<char>, f: Fetch<T>) -> bool {
    match snapshot {
        None => false,
        Some(s) => match read_outcome(path, f) {
            Err(_) => false,
            Ok(cur) => cur != s,
        },
    }
}

/// Whether a reply is of the kind that an operation expects.
pub open spec fn answers<T>(op: Op, reply: Reply<T>) -> bool {
    op is Read <==> reply is Fetched
}

/// Where a multi-step operation stands: it waits for the reply to a
/// request, or it has finished.
pub enum Progress<S, R> {
    Pending(S, Request),
    Finished(Result<R, String>),
}

/// The same, in terms of states and texts.
pub enum Step<S, R> {
    Continue(S),
    Done(Result<R, Seq<char>>),
}

fn same_file(a: &Option<Vec<u8>>, b: &Option<Vec<u8>>) -> (r: bool)
    ensures
        r == (bytes_view(*a) == bytes_view(*b)),
{
    match (a, b) {
        (Some(x), Some(y)) => same_bytes(x, y),
        (None, None) => true,
        _ => false,
    }
}

/// Reads the current file and tells whether it is the snapshot.
pub(crate) fn matches_snapshot<T>(path: &String, snapshot: &Option<Vec<u8>>, current: Fetch<T>) -> (r: Result<bool, String>)
    ensures
        match read_outcome(path@, current) {
            Err(e) => r matches Err(x) && x@ == e,
            Ok(cur) => r == Ok::<bool, String>(cur == bytes_view(*snapshot)),
        },
{
    let found = read_optional(path.as_str(), current)?;
    let cur: Option<Vec<u8>> = match found {
        Some((b, _)) => Some(b),
        None => None,
    };
    Ok(same_file(&cur, snapshot))
}

impl<T: Validate> JsonStore<T> {
    /// A store for a file that has not been read yet: it may not write.
    pub fn new(path: String) -> (r: Self)
        ensures
            r@.path == path@,
            r@.snapshot is None,
    {
        JsonStore { path, loaded: None, marker: PhantomData }
    }

    pub(crate) fn snapshot_ref(&self) -> (r: &Option<Option<Vec<u8>>>)
        ensures
            snapshot_view(*r) == self@.snapshot,
    {
        &self.loaded
    }

    /// Takes the given bytes as the new snapshot.
    pub(crate) fn adopt(&mut self, bytes: Vec<u8>)
        ensures
            final(self)@.path == old(self)@.path,
            final(self)@.snapshot == Some(Some(bytes@)),
    {
        self.loaded = Some(Some(bytes));
    }

    /// Drops the snapshot: no writes until the next successful load.
    pub(crate) fn revoke(&mut self)
        ensures
            final(self)@.path == old(self)@.path,
            final(self)@.snapshot is None,
    {
        self.loaded = None;
    }

    pub fn path(&self) -> (r: &String)
        ensures
            r@ == self@.path,
    {
        &self.path
    }

    pub fn backup_path(&self) -> (r: String)
        ensures
            r@ == backup_name(self@.path),
    {
        let mut name = self.path.clone();
        name.append(".bak");
        name
    }

    /// Loads the file from a read of it. A missing file is first use; a file
    /// that exists but cannot be read, parsed or validated is an error, and
    /// any error leaves the store unable to write.
    pub fn load(&mut self, fetched: Fetch<T>) -> (r: Result<T, String>)
        ensures
            final(self)@.path == old(self)@.path,
            final(self)@.snapshot == load_snapshot(old(self)@.path, fetched),
            match read_outcome(old(self)@.path, fetched) {
                Err(e) => r matches Err(x) && x@ == e,
                Ok(None) => r matches Ok(v) && v.is_first_use() && v.valid(),
                Ok(Some(_)) => match fetched {
                    Fetch::Bytes(_, parsed) => res_view(r) == decode_outcome(old(self)@.path, parsed),
                    _ => false,
                },
            },
    {
        self.loaded = None;
        let found = read_optional(self.path.as_str(), fetched)?;
        match found {
            None => {
                self.loaded = Some(None);
                Ok(T::first_use())
            },
            Some((bytes, parsed)) => {
                let value = decode(parsed, self.path.as_str())?;
                self.loaded = Some(Some(bytes));
                Ok(value)
            },
        }
    }

    /// Checks, from a fresh read of the file, that the store may overwrite
    /// it. A file that changed since the snapshot revokes the snapshot.
    pub fn check_writable(&mut self, current: Fetch<T>) -> (r: Result<(), String>)
        ensures
            final(self)@.path == old(self)@.path,
            res_view(r) == write_check(old(self)@.snapshot, old(self)@.path, current),
            final(self)@.snapshot == if check_revokes(old(self)@.snapshot, old(self)@.path, current) {
                None
            } else {
                old(self)@.snapshot
            },
    {
        let same = match &self.loaded {
            None => {
                return Err(error("保存被阻止", self.path.as_str(), "必须先成功读取数据或显式恢复备份"));
            },
            Some(snapshot) => matches_snapshot(&self.path, snapshot, current)?,
        };
        if !same {
            self.loaded = None;
            return Err(error("保存被阻止", self.path.as_str(), "文件已被外部修改；请重新读取或恢复备份，避免丢失数据"));
        }
        Ok(())
    }

    /// The new, uniquely named file that is to keep an unsaved value; the
    /// store itself is left as it was. Invalid values are refused.
    pub fn preserve_unsaved(&self, value: &T, tag: &str) -> (r: Result<String, String>)
        ensures
            value.valid() ==> (r matches Ok(p) && p@ == sibling_name(self@.path, "unsaved"@, tag@)),
            !value.valid() ==> (r matches Err(e) && e@ == value.problem()),
    {
        value.validate()?;
        Ok(unique_sibling(self.path.as_str(), "unsaved", tag))
    }
}

} // verus!
