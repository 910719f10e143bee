//! Recovery from the backup, step by step. The backup must read and decode;
//! the exact bytes of the current primary, readable or not, are kept in a new
//! file before the backup's bytes replace the primary. The backup itself is
//! never written.

use vstd::prelude::*;

use crate::disk::{
    copy_bytes, decode, decode_outcome, error, read_optional, read_outcome, sibling_name,
    unique_sibling, Fetch, Op, Reply, Request,
};
use crate::model::Validate;
use crate::store::{answers, backup_name, bytes_view, no_backup_text, res_view, JsonStore, Progress, Step};

verus! {

/// The stages of a recovery; each names the request that it waits on.
pub enum RecoverStage {
    /// Read and decode the backup.
    ReadBackup,
    /// Read the primary as it is.
    ReadOriginal,
    /// Write the backup's bytes to a temporary file; the primary's bytes,
    /// if it existed, are carried along.
    StageData(Option<Vec<u8>>),
    /// Keep the primary's bytes in a new file.
    PreserveOriginal(Vec<u8>),
    /// Rename the temporary file onto the primary.
    CommitData,
    /// Remove the temporary file; the result is that of the recovery.
    DropTemp(Result<(), String>),
}

pub enum RecoverPhase {
    ReadBackup,
    ReadOriginal,
    StageData(Option<Seq<u8>>),
    PreserveOriginal(Seq<u8>),
    CommitData,
    DropTemp(Result<(), Seq<char>>),
}

/// A recovery in progress.
pub struct RecoverRun<T> {
    stage: RecoverStage,
    path: String,
    backup: String,
    temp: String,
    corrupt: String,
    bytes: Vec<u8>,
    value: Option<T>,
}

/// A recovery in progress: the stage, the four files it touches, and, once
/// the backup is read, its bytes and the value they decode to.
pub struct RecoverState<T> {
    pub phase: RecoverPhase,
    pub path: Seq<char>,
    pub backup: Seq<char>,
    pub temp: Seq<char>,
    pub corrupt: Seq<char>,
    pub bytes: Seq<u8>,
    pub value: Option<T>,
}

impl View for RecoverStage {
    type V = RecoverPhase;

    closed spec fn view(&self) -> RecoverPhase {
        match self {
            RecoverStage::ReadBackup => RecoverPhase::ReadBackup,
            RecoverStage::ReadOriginal => RecoverPhase::ReadOriginal,
            RecoverStage::StageData(o) => RecoverPhase::StageData(bytes_view(*o)),
            RecoverStage::PreserveOriginal(o) => RecoverPhase::PreserveOriginal(o@),
            RecoverStage::CommitData => RecoverPhase::CommitData,
            RecoverStage::DropTemp(r) => RecoverPhase::DropTemp(res_view(*r)),
        }
    }
}

impl<T> View for RecoverRun<T> {
    type V = RecoverState<T>;

    closed spec fn view(&self) -> RecoverState<T> {
        RecoverState {
            phase: self.stage@,
            path: self.path@,
            backup: self.backup@,
            temp: self.temp@,
            corrupt: self.corrupt@,
            bytes: self.bytes@,
            value: self.value,
        }
    }
}

impl<T> RecoverRun<T> {
    /// Past the backup read, the decoded value is at hand.
    #[verifier::type_invariant]
    spec fn has_value(self) -> bool {
        self.stage is ReadBackup || self.value is Some
    }
}

impl<T> RecoverState<T> {
    pub open spec fn with_phase(self, phase: RecoverPhase) -> RecoverState<T> {
        RecoverState { phase, ..self }
    }

    /// The request that the recovery waits on.
    pub open spec fn request(self) -> Op {
        match self.phase {
            RecoverPhase::ReadBackup => Op::Read(self.backup),
            RecoverPhase::ReadOriginal => Op::Read(self.path),
            RecoverPhase::StageData(_) => Op::CreateNew(self.temp, self.bytes),
            RecoverPhase::PreserveOriginal(o) => Op::CreateNew(self.corrupt, o),
            RecoverPhase::CommitData => Op::Replace(self.temp, self.path),
            RecoverPhase::DropTemp(_) => Op::Discard(self.temp),
        }
    }

    /// The step that a reply leads to.
    pub open spec fn next(self, reply: Reply<T>) -> Step<RecoverState<T>, T> where T: Validate {
        match self.phase {
            RecoverPhase::ReadBackup => match reply {
                Reply::Fetched(f) => match read_outcome(self.backup, f) {
                    Err(e) => Step::Done(Err(e)),
                    Ok(None) => Step::Done(Err(no_backup_text(self.backup))),
                    Ok(Some(b)) => match f {
                        Fetch::Bytes(_, parsed) => match decode_outcome(self.backup, parsed) {
                            Err(e) => Step::Done(Err(e)),
                            Ok(v) => Step::Continue(
                                RecoverState {
                                    phase: RecoverPhase::ReadOriginal,
                                    bytes: b,
                                    value: Some(v),
                                    ..self
                                },
                            ),
                        },
                        _ => Step::Done(Err(Seq::empty())),
                    },
                },
                Reply::Status(_) => Step::Done(Err(Seq::empty())),
            },
            RecoverPhase::ReadOriginal => match reply {
                Reply::Fetched(f) => match read_outcome(self.path, f) {
                    Err(e) => Step::Done(Err(e)),
                    Ok(o) => Step::Continue(self.with_phase(RecoverPhase::StageData(o))),
                },
                Reply::Status(_) => Step::Done(Err(Seq::empty())),
            },
            RecoverPhase::StageData(o) => match reply {
                Reply::Status(Err(e)) => Step::Done(Err(e@)),
                _ => match o {
                    Some(ob) => Step::Continue(self.with_phase(RecoverPhase::PreserveOriginal(ob))),
                    None => Step::Continue(self.with_phase(RecoverPhase::CommitData)),
                },
            },
            RecoverPhase::PreserveOriginal(_) => match reply {
                Reply::Status(Err(e)) => Step::Continue(self.with_phase(RecoverPhase::DropTemp(Err(e@)))),
                _ => Step::Continue(self.with_phase(RecoverPhase::CommitData)),
            },
            RecoverPhase::CommitData => match reply {
                Reply::Status(s) => Step::Continue(self.with_phase(RecoverPhase::DropTemp(res_view(s)))),
                Reply::Fetched(_) => Step::Done(Err(Seq::empty())),
            },
            RecoverPhase::DropTemp(res) => match res {
                Err(e) => Step::Done(Err(e)),
                Ok(()) => match self.value {
                    Some(v) => Step::Done(Ok(v)),
                    None => Step::Done(Err(Seq::empty())),
                },
            },
        }
    }

    /// The reply confirms that the backup's bytes replaced the primary.
    pub open spec fn adopts(self, reply: Reply<T>) -> bool {
        &&& self.phase is CommitData
        &&& reply matches Reply::Status(s) && s is Ok
    }
}

/// How a recovery starts: the snapshot is dropped and the backup is read.
pub open spec fn recover_start<T>(path: Seq<char>, tag: Seq<char>) -> RecoverState<T> {
    RecoverState {
        phase: RecoverPhase::ReadBackup,
        path,
        backup: backup_name(path),
        temp: sibling_name(path, "tmp"@, tag),
        corrupt: sibling_name(path, "corrupt"@, tag),
        bytes: Seq::empty(),
        value: None,
    }
}

/// An executed step is the prescribed step, and a pending recovery asks for
/// the request of its new stage.
pub open spec fn recover_progress<T>(p: Progress<RecoverRun<T>, T>, step: Step<RecoverState<T>, T>) -> bool {
    match p {
        Progress::Pending(s, req) => step == Step::<RecoverState<T>, T>::Continue(s@) && req@ == s@.request(),
        Progress::Finished(r) => step == Step::<RecoverState<T>, T>::Done(res_view(r)),
    }
}

impl<T> RecoverRun<T> {
    fn request(&self) -> (r: Request)
        ensures
            r@ == self@.request(),
    {
        match &self.stage {
            RecoverStage::ReadBackup => Request::Read(self.backup.clone()),
            RecoverStage::ReadOriginal => Request::Read(self.path.clone()),
            RecoverStage::StageData(_) => Request::CreateNew(self.temp.clone(), copy_bytes(&self.bytes)),
            RecoverStage::PreserveOriginal(o) => Request::CreateNew(self.corrupt.clone(), copy_bytes(o)),
            RecoverStage::CommitData => Request::Replace(self.temp.clone(), self.path.clone()),
            RecoverStage::DropTemp(_) => Request::Discard(self.temp.clone()),
        }
    }

    /// Goes on to a later stage and asks for its request.
    fn proceed(self, stage: RecoverStage) -> (r: Progress<RecoverRun<T>, T>)
        requires
            self@.value is Some,
        ensures
            recover_progress(r, Step::Continue(self@.with_phase(stage@))),
    {
        let RecoverRun { stage: _, path, backup, temp, corrupt, bytes, value } = self;
        let next = RecoverRun { stage, path, backup, temp, corrupt, bytes, value };
        let req = next.request();
        Progress::Pending(next, req)
    }
}

impl<T: Validate> JsonStore<T> {
    /// Starts a recovery from the backup; `tag` makes the new file names
    /// unique. The store may not write again unless the recovery succeeds.
    pub fn recover(&mut self, tag: &str) -> (r: Progress<RecoverRun<T>, T>)
        ensures
            final(self)@.path == old(self)@.path,
            final(self)@.snapshot is None,
            recover_progress(r, Step::Continue(recover_start::<T>(old(self)@.path, tag@))),
    {
        self.revoke();
        let path = self.path().clone();
        let backup = self.backup_path();
        let temp = unique_sibling(path.as_str(), "tmp", tag);
        let corrupt = unique_sibling(path.as_str(), "corrupt", tag);
        let run = RecoverRun {
            stage: RecoverStage::ReadBackup,
            path,
            backup,
            temp,
            corrupt,
            bytes: Vec::new(),
            value: None,
        };
        proof {
            assert(run@.bytes =~= Seq::<u8>::empty());
        }
        let req = run.request();
        Progress::Pending(run, req)
    }

    /// Carries a recovery one step further with the reply to its request.
    pub fn recover_step(&mut self, run: RecoverRun<T>, reply: Reply<T>) -> (r: Progress<RecoverRun<T>, T>)
        requires
            answers(run@.request(), reply),
        ensures
            recover_progress(r, run@.next(reply)),
            final(self)@.path == old(self)@.path,
            final(self)@.snapshot == if run@.adopts(reply) {
                Some(Some(run@.bytes))
            } else {
                old(self)@.snapshot
            },
    {
        proof {
            use_type_invariant(&run);
        }
        let RecoverRun { stage, path, backup, temp, corrupt, bytes, value } = run;
        match stage {
            RecoverStage::ReadBackup => match reply {
                Reply::Fetched(f) => match read_optional(backup.as_str(), f) {
                    Err(e) => Progress::Finished(Err(e)),
                    Ok(None) => Progress::Finished(Err(error("无法恢复", backup.as_str(), "不存在备份"))),
                    Ok(Some((b, parsed))) => match decode(parsed, backup.as_str()) {
                        Err(e) => Progress::Finished(Err(e)),
                        Ok(v) => {
                            let next = RecoverRun {
                                stage: RecoverStage::ReadOriginal,
                                path,
                                backup,
                                temp,
                                corrupt,
                                bytes: b,
                                value: Some(v),
                            };
                            let req = next.request();
                            Progress::Pending(next, req)
                        },
                    },
                },
                Reply::Status(_) => {
                    proof {
                        assert(false);
                    }
                    Progress::Finished(Err(String::new()))
                },
            },
            RecoverStage::ReadOriginal => {
                let rest = RecoverRun { stage: RecoverStage::ReadOriginal, path, backup, temp, corrupt, bytes, value };
                proof {
                    use_type_invariant(&rest);
                }
                match reply {
                    Reply::Fetched(f) => match read_optional(rest.path.as_str(), f) {
                        Err(e) => Progress::Finished(Err(e)),
                        Ok(found) => {
                            let original = match found {
                                Some((o, _)) => Some(o),
                                None => None,
                            };
                            rest.proceed(RecoverStage::StageData(original))
                        },
                    },
                    Reply::Status(_) => {
                        proof {
                            assert(false);
                        }
                        Progress::Finished(Err(String::new()))
                    },
                }
            },
            RecoverStage::StageData(original) => {
                let rest = RecoverRun { stage: RecoverStage::ReadOriginal, path, backup, temp, corrupt, bytes, value };
                proof {
                    use_type_invariant(&rest);
                }
                match reply {
                    Reply::Status(Err(e)) => Progress::Finished(Err(e)),
                    _ => match original {
                        Some(o) => rest.proceed(RecoverStage::PreserveOriginal(o)),
                        None => rest.proceed(RecoverStage::CommitData),
                    },
                }
            },
            RecoverStage::PreserveOriginal(_) => {
                let rest = RecoverRun { stage: RecoverStage::ReadOriginal, path, backup, temp, corrupt, bytes, value };
                proof {
                    use_type_invariant(&rest);
                }
                match reply {
                    Reply::Status(Err(e)) => rest.proceed(RecoverStage::DropTemp(Err(e))),
                    _ => rest.proceed(RecoverStage::CommitData),
                }
            },
            RecoverStage::CommitData => {
                let rest = RecoverRun { stage: RecoverStage::ReadOriginal, path, backup, temp, corrupt, bytes, value };
                proof {
                    use_type_invariant(&rest);
                }
                match reply {
                    Reply::Status(s) => {
                        if s.is_ok() {
                            self.adopt(copy_bytes(&rest.bytes));
                        }
                        rest.proceed(RecoverStage::DropTemp(s))
                    },
                    Reply::Fetched(_) => {
                        proof {
                            assert(false);
                        }
                        Progress::Finished(Err(String::new()))
                    },
                }
            },
            RecoverStage::DropTemp(res) => match res {
                Err(e) => Progress::Finished(Err(e)),
                Ok(()) => match value {
                    Some(v) => Progress::Finished(Ok(v)),
                    None => {
                        proof {
                            assert(false);
                        }
                        Progress::Finished(Err(String::new()))
                    },
                },
            },
        }
    }
}

} // verus!
