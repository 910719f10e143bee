//! Saving, step by step. The new bytes are written to a fresh temporary file
//! first; the previous snapshot is committed as the backup next; only then is
//! the temporary file renamed over the primary. Any failure before that last
//! rename leaves the primary as it was.

use vstd::prelude::*;

use crate::disk::{
    copy_bytes, decode, decode_outcome, error, read_optional, read_outcome, same_bytes, sibling_name,
    unique_sibling, Fetch, Op, Reply, Request,
};
use crate::model::Validate;
use crate::store::{
    answers, backup_name, blocked_text, bytes_view, check_revokes, matches_snapshot, res_view,
    write_check, JsonStore, Progress, Step, StoreView,
};

verus! {

/// The stages of a save; each names the request that it waits on.
pub enum SaveStage {
    /// Re-read the primary and compare it with the snapshot.
    CheckPrimary,
    /// Read the existing backup.
    ReadBackup,
    /// Write the backup content to the backup's temporary file.
    StageBackup(Vec<u8>),
    /// Rename the backup's temporary file onto the backup.
    CommitBackup,
    /// Remove the backup's temporary file; the result is that of the commit.
    DropBackupTemp(Result<(), String>),
    /// Create the directory of the primary.
    MakeParent,
    /// Write the new bytes to the primary's temporary file.
    StageData,
    /// Rename the temporary file onto the primary.
    CommitData,
    /// Remove the temporary file; the result is that of the save.
    DropTemp(Result<(), String>),
}

/// The stages of a save, in terms of bytes and texts.
pub enum SavePhase {
    CheckPrimary,
    ReadBackup,
    StageBackup(Seq<u8>),
    CommitBackup,
    DropBackupTemp(Result<(), Seq<char>>),
    MakeParent,
    StageData,
    CommitData,
    DropTemp(Result<(), Seq<char>>),
}

/// A save in progress.
pub struct SaveRun {
    stage: SaveStage,
    path: String,
    backup: String,
    temp: String,
    backup_temp: String,
    bytes: Vec<u8>,
    previous: Option<Vec<u8>>,
    unchanged: bool,
}

/// A save in progress: the stage, the four files it touches, the new bytes,
/// and the snapshot it started from. `unchanged` marks a save of the bytes
/// that the file already holds.
pub struct SaveState {
    pub phase: SavePhase,
    pub path: Seq<char>,
    pub backup: Seq<char>,
    pub temp: Seq<char>,
    pub backup_temp: Seq<char>,
    pub bytes: Seq<u8>,
    pub previous: Option<Seq<u8>>,
    pub unchanged: bool,
}

impl View for SaveStage {
    type V = SavePhase;

    closed spec fn view(&self) -> SavePhase {
        match self {
            SaveStage::CheckPrimary => SavePhase::CheckPrimary,
            SaveStage::ReadBackup => SavePhase::ReadBackup,
            SaveStage::StageBackup(c) => SavePhase::StageBackup(c@),
            SaveStage::CommitBackup => SavePhase::CommitBackup,
            SaveStage::DropBackupTemp(r) => SavePhase::DropBackupTemp(res_view(*r)),
            SaveStage::MakeParent => SavePhase::MakeParent,
            SaveStage::StageData => SavePhase::StageData,
            SaveStage::CommitData => SavePhase::CommitData,
            SaveStage::DropTemp(r) => SavePhase::DropTemp(res_view(*r)),
        }
    }
}

impl View for SaveRun {
    type V = SaveState;

    closed spec fn view(&self) -> SaveState {
        SaveState {
            phase: self.stage@,
            path: self.path@,
            backup: self.backup@,
            temp: self.temp@,
            backup_temp: self.backup_temp@,
            bytes: self.bytes@,
            previous: bytes_view(self.previous),
            unchanged: self.unchanged,
        }
    }
}

impl SaveState {
    /// What the backup is to hold: the previous snapshot, or the new bytes
    /// when there was no file before.
    pub open spec fn content(self) -> Seq<u8> {
        match self.previous {
            Some(q) => q,
            None => self.bytes,
        }
    }

    pub open spec fn with_phase(self, phase: SavePhase) -> SaveState {
        SaveState { phase, ..self }
    }

    /// The request that the save waits on.
    pub open spec fn request(self) -> Op {
        match self.phase {
            SavePhase::CheckPrimary => Op::Read(self.path),
            SavePhase::ReadBackup => Op::Read(self.backup),
            SavePhase::StageBackup(c) => Op::CreateNew(self.backup_temp, c),
            SavePhase::CommitBackup => Op::Replace(self.backup_temp, self.backup),
            SavePhase::DropBackupTemp(_) => Op::Discard(self.backup_temp),
            SavePhase::MakeParent => Op::CreateParentDir(self.path),
            SavePhase::StageData => Op::CreateNew(self.temp, self.bytes),
            SavePhase::CommitData => Op::Replace(self.temp, self.path),
            SavePhase::DropTemp(_) => Op::Discard(self.temp),
        }
    }

    /// A failure: once the temporary file exists it is removed first.
    pub open spec fn fail(self, e: Seq<char>) -> Step<SaveState, ()> {
        if self.unchanged {
            Step::Done(Err(e))
        } else {
            Step::Continue(self.with_phase(SavePhase::DropTemp(Err(e))))
        }
    }

    /// The backup is in place: an unchanged save is done, any other goes on
    /// to replace the primary.
    pub open spec fn backup_settled(self) -> Step<SaveState, ()> {
        if self.unchanged {
            Step::Done(Ok(()))
        } else {
            Step::Continue(self.with_phase(SavePhase::CommitData))
        }
    }

    /// The step that a reply leads to.
    pub open spec fn next<T: Validate>(self, reply: Reply<T>) -> Step<SaveState, ()> {
        match self.phase {
            SavePhase::CheckPrimary => match reply {
                Reply::Fetched(f) => match write_check(Some(self.previous), self.path, f) {
                    Err(e) => Step::Done(Err(e)),
                    Ok(()) => Step::Continue(self.with_phase(
                        if self.unchanged {
                            SavePhase::ReadBackup
                        } else {
                            SavePhase::MakeParent
                        },
                    )),
                },
                Reply::Status(_) => Step::Done(Err(Seq::empty())),
            },
            SavePhase::ReadBackup => match reply {
                Reply::Fetched(f) => match read_outcome(self.backup, f) {
                    Err(e) => self.fail(e),
                    Ok(None) => Step::Continue(self.with_phase(SavePhase::StageBackup(self.bytes))),
                    Ok(Some(_)) => match f {
                        Fetch::Bytes(_, parsed) => match decode_outcome(self.backup, parsed) {
                            Err(e) => self.fail(e),
                            Ok(_) => self.backup_settled(),
                        },
                        _ => Step::Done(Err(Seq::empty())),
                    },
                },
                Reply::Status(_) => Step::Done(Err(Seq::empty())),
            },
            SavePhase::StageBackup(_) => match reply {
                Reply::Status(Err(e)) => self.fail(e@),
                _ => Step::Continue(self.with_phase(SavePhase::CommitBackup)),
            },
            SavePhase::CommitBackup => match reply {
                Reply::Status(s) => Step::Continue(self.with_phase(SavePhase::DropBackupTemp(res_view(s)))),
                Reply::Fetched(_) => Step::Done(Err(Seq::empty())),
            },
            SavePhase::DropBackupTemp(res) => match res {
                Err(e) => self.fail(e),
                Ok(()) => self.backup_settled(),
            },
            SavePhase::MakeParent => match reply {
                Reply::Status(Err(e)) => Step::Done(Err(e@)),
                _ => Step::Continue(self.with_phase(SavePhase::StageData)),
            },
            SavePhase::StageData => match reply {
                Reply::Status(Err(e)) => Step::Done(Err(e@)),
                _ => match self.previous {
                    Some(q) => Step::Continue(self.with_phase(SavePhase::StageBackup(q))),
                    None => Step::Continue(self.with_phase(SavePhase::ReadBackup)),
                },
            },
            SavePhase::CommitData => match reply {
                Reply::Status(s) => Step::Continue(self.with_phase(SavePhase::DropTemp(res_view(s)))),
                Reply::Fetched(_) => Step::Done(Err(Seq::empty())),
            },
            SavePhase::DropTemp(res) => Step::Done(res),
        }
    }

    /// The reply shows that the file changed since the snapshot.
    pub open spec fn revokes<T>(self, reply: Reply<T>) -> bool {
        &&& self.phase is CheckPrimary
        &&& reply matches Reply::Fetched(f) && check_revokes(Some(self.previous), self.path, f)
    }

    /// The reply confirms that the new bytes replaced the primary.
    pub open spec fn adopts<T>(self, reply: Reply<T>) -> bool {
        &&& self.phase is CommitData
        &&& reply matches Reply::Status(s) && s is Ok
    }
}

/// How a save starts: an invalid value or a store without a snapshot is
/// refused at once, before any file is touched; otherwise the primary is
/// re-read first.
pub open spec fn save_start(store: StoreView, valid: bool, problem: Seq<char>, bytes: Seq<u8>, tag: Seq<char>) -> Step<SaveState, ()> {
    if !valid {
        Step::Done(Err(problem))
    } else {
        match store.snapshot {
            None => Step::Done(Err(blocked_text(store.path))),
            Some(prev) => Step::Continue(
                SaveState {
                    phase: SavePhase::CheckPrimary,
                    path: store.path,
                    backup: backup_name(store.path),
                    temp: sibling_name(store.path, "tmp"@, tag),
                    backup_temp: sibling_name(backup_name(store.path), "tmp"@, tag),
                    bytes,
                    previous: prev,
                    unchanged: prev == Some(bytes),
                },
            ),
        }
    }
}

/// An executed step is the prescribed step, and a pending save asks for
/// the request of its new stage.
pub open spec fn save_progress(p: Progress<SaveRun, ()>, step: Step<SaveState, ()>) -> bool {
    match p {
        Progress::Pending(s, req) => step == Step::<SaveState, ()>::Continue(s@) && req@ == s@.request(),
        Progress::Finished(r) => step == Step::<SaveState, ()>::Done(res_view(r)),
    }
}

impl SaveRun {
    fn request(&self) -> (r: Request)
        ensures
            r@ == self@.request(),
    {
        match &self.stage {
            SaveStage::CheckPrimary => Request::Read(self.path.clone()),
            SaveStage::ReadBackup => Request::Read(self.backup.clone()),
            SaveStage::StageBackup(c) => Request::CreateNew(self.backup_temp.clone(), copy_bytes(c)),
            SaveStage::CommitBackup => Request::Replace(self.backup_temp.clone(), self.backup.clone()),
            SaveStage::DropBackupTemp(_) => Request::Discard(self.backup_temp.clone()),
            SaveStage::MakeParent => Request::CreateParentDir(self.path.clone()),
            SaveStage::StageData => Request::CreateNew(self.temp.clone(), copy_bytes(&self.bytes)),
            SaveStage::CommitData => Request::Replace(self.temp.clone(), self.path.clone()),
            SaveStage::DropTemp(_) => Request::Discard(self.temp.clone()),
        }
    }

    /// Goes on to a stage and asks for its request.
    fn proceed(self, stage: SaveStage) -> (r: Progress<SaveRun, ()>)
        ensures
            save_progress(r, Step::Continue(self@.with_phase(stage@))),
    {
        let next = SaveRun { stage, ..self };
        let req = next.request();
        Progress::Pending(next, req)
    }

    fn fail(self, e: String) -> (r: Progress<SaveRun, ()>)
        ensures
            save_progress(r, self@.fail(e@)),
    {
        if self.unchanged {
            Progress::Finished(Err(e))
        } else {
            self.proceed(SaveStage::DropTemp(Err(e)))
        }
    }

    fn backup_settled(self) -> (r: Progress<SaveRun, ()>)
        ensures
            save_progress(r, self@.backup_settled()),
    {
        if self.unchanged {
            Progress::Finished(Ok(()))
        } else {
            self.proceed(SaveStage::CommitData)
        }
    }
}

impl<T: Validate> JsonStore<T> {
    /// Starts a save of a value and its serialized bytes; `tag` makes the
    /// temporary file names unique. Nothing is written unless the store holds
    /// a snapshot and the value is valid.
    pub fn save(&mut self, value: &T, bytes: Vec<u8>, tag: &str) -> (r: Progress<SaveRun, ()>)
        ensures
            final(self)@ == old(self)@,
            save_progress(r, save_start(old(self)@, value.valid(), value.problem(), bytes@, tag@)),
    {
        match value.validate() {
            Err(e) => {
                return Progress::Finished(Err(e));
            },
            Ok(()) => {},
        }
        let previous: Option<Vec<u8>> = match self.snapshot_ref() {
            None => {
                return Progress::Finished(
                    Err(error("保存被阻止", self.path().as_str(), "必须先成功读取数据或显式恢复备份")),
                );
            },
            Some(None) => None,
            Some(Some(b)) => Some(copy_bytes(b)),
        };
        let path = self.path().clone();
        let backup = self.backup_path();
        let temp = unique_sibling(path.as_str(), "tmp", tag);
        let backup_temp = unique_sibling(backup.as_str(), "tmp", tag);
        let unchanged = match &previous {
            Some(p) => same_bytes(p, &bytes),
            None => false,
        };
        let run = SaveRun {
            stage: SaveStage::CheckPrimary,
            path,
            backup,
            temp,
            backup_temp,
            bytes,
            previous,
            unchanged,
        };
        let req = run.request();
        Progress::Pending(run, req)
    }

    /// Carries a save one step further with the reply to its request.
    pub fn save_step(&mut self, run: SaveRun, reply: Reply<T>) -> (r: Progress<SaveRun, ()>)
        requires
            answers(run@.request(), reply),
        ensures
            save_progress(r, run@.next(reply)),
            final(self)@.path == old(self)@.path,
            final(self)@.snapshot == if run@.adopts(reply) {
                Some(Some(run@.bytes))
            } else if run@.revokes(reply) {
                None
            } else {
                old(self)@.snapshot
            },
    {
        let SaveRun { stage, path, backup, temp, backup_temp, bytes, previous, unchanged } = run;
        let run = SaveRun {
            stage: SaveStage::CheckPrimary,
            path,
            backup,
            temp,
            backup_temp,
            bytes,
            previous,
            unchanged,
        };
        match stage {
            SaveStage::CheckPrimary => match reply {
                Reply::Fetched(f) => match matches_snapshot(&run.path, &run.previous, f) {
                    Err(e) => Progress::Finished(Err(e)),
                    Ok(false) => {
                        self.revoke();
                        Progress::Finished(
                            Err(error("保存被阻止", run.path.as_str(), "文件已被外部修改；请重新读取或恢复备份，避免丢失数据")),
                        )
                    },
                    Ok(true) => {
                        if run.unchanged {
                            run.proceed(SaveStage::ReadBackup)
                        } else {
                            run.proceed(SaveStage::MakeParent)
                        }
                    },
                },
                Reply::Status(_) => {
                    proof {
                        assert(false);
                    }
                    Progress::Finished(Ok(()))
                },
            },
            SaveStage::ReadBackup => match reply {
                Reply::Fetched(f) => match read_optional(run.backup.as_str(), f) {
                    Err(e) => run.fail(e),
                    Ok(None) => {
                        let content = copy_bytes(&run.bytes);
                        run.proceed(SaveStage::StageBackup(content))
                    },
                    Ok(Some((_, parsed))) => match decode(parsed, run.backup.as_str()) {
                        Err(e) => run.fail(e),
                        Ok(_) => run.backup_settled(),
                    },
                },
                Reply::Status(_) => {
                    proof {
                        assert(false);
                    }
                    Progress::Finished(Ok(()))
                },
            },
            SaveStage::StageBackup(_) => match reply {
                Reply::Status(Err(e)) => run.fail(e),
                _ => run.proceed(SaveStage::CommitBackup),
            },
            SaveStage::CommitBackup => match reply {
                Reply::Status(s) => run.proceed(SaveStage::DropBackupTemp(s)),
                Reply::Fetched(_) => {
                    proof {
                        assert(false);
                    }
                    Progress::Finished(Ok(()))
                },
            },
            SaveStage::DropBackupTemp(res) => match res {
                Err(e) => run.fail(e),
                Ok(()) => run.backup_settled(),
            },
            SaveStage::MakeParent => match reply {
                Reply::Status(Err(e)) => Progress::Finished(Err(e)),
                _ => run.proceed(SaveStage::StageData),
            },
            SaveStage::StageData => match reply {
                Reply::Status(Err(e)) => Progress::Finished(Err(e)),
                _ => {
                    let next = match &run.previous {
                        Some(q) => SaveStage::StageBackup(copy_bytes(q)),
                        None => SaveStage::ReadBackup,
                    };
                    run.proceed(next)
                },
            },
            SaveStage::CommitData => match reply {
                Reply::Status(s) => {
                    if s.is_ok() {
                        self.adopt(copy_bytes(&run.bytes));
                    }
                    run.proceed(SaveStage::DropTemp(s))
                },
                Reply::Fetched(_) => {
                    proof {
                        assert(false);
                    }
                    Progress::Finished(Ok(()))
                },
            },
            SaveStage::DropTemp(res) => Progress::Finished(res),
        }
    }
}

} // verus!
