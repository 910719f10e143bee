//! What the store guarantees about the files, over every possible sequence
//! of replies. Each save and each recovery is a state machine; an invariant
//! relates its state to the files as they were when it started, holds at the
//! start, and is kept by every step, whatever the reply, as long as the reply
//! is one the files could have given.

use vstd::prelude::*;

use crate::disk::{decode_outcome, effect, file_at, plausible, read_outcome, sibling_name, Fetch, Files, Op, Reply};
use crate::model::{Settings, Todo, Validate};
use crate::recover::{recover_start, RecoverPhase, RecoverState};
use crate::save::{save_start, SavePhase, SaveState};
use crate::store::{answers, backup_name, load_snapshot, write_check, Step, StoreView};

verus! {

/// Four file names, no two of them equal.
pub open spec fn distinct4(a: Seq<char>, b: Seq<char>, c: Seq<char>, d: Seq<char>) -> bool {
    &&& a != b
    &&& a != c
    &&& a != d
    &&& b != c
    &&& b != d
    &&& c != d
}

proof fn lemma_tails_differ(path: Seq<char>, a: Seq<char>, b: Seq<char>, i: int)
    requires
        0 <= i < a.len(),
        i < b.len(),
        a[i] != b[i],
    ensures
        path + a != path + b,
{
    assert((path + a)[path.len() + i] == a[i]);
    assert((path + b)[path.len() + i] == b[i]);
}

proof fn lemma_sibling_shape(path: Seq<char>, kind: Seq<char>, tag: Seq<char>)
    ensures
        sibling_name(path, kind, tag) == path + ("."@ + kind + "-"@ + tag),
{
    assert(sibling_name(path, kind, tag) =~= path + ("."@ + kind + "-"@ + tag));
}

/// The primary, its backup, and the temporary, preserved and unsaved files
/// made with one tag all have different names.
pub proof fn lemma_names_distinct(path: Seq<char>, tag: Seq<char>)
    ensures
        distinct4(
            path,
            backup_name(path),
            sibling_name(path, "tmp"@, tag),
            sibling_name(backup_name(path), "tmp"@, tag),
        ),
        distinct4(
            path,
            backup_name(path),
            sibling_name(path, "tmp"@, tag),
            sibling_name(path, "corrupt"@, tag),
        ),
        sibling_name(path, "unsaved"@, tag) != path,
        sibling_name(path, "unsaved"@, tag) != backup_name(path),
{
    reveal_strlit(".bak");
    reveal_strlit(".");
    reveal_strlit("-");
    reveal_strlit("tmp");
    reveal_strlit("corrupt");
    reveal_strlit("unsaved");
    let bak = ".bak"@;
    let t = "."@ + "tmp"@ + "-"@ + tag;
    let c = "."@ + "corrupt"@ + "-"@ + tag;
    let u = "."@ + "unsaved"@ + "-"@ + tag;
    let bt = bak + ("."@ + "tmp"@ + "-"@ + tag);
    lemma_sibling_shape(path, "tmp"@, tag);
    lemma_sibling_shape(path, "corrupt"@, tag);
    lemma_sibling_shape(path, "unsaved"@, tag);
    lemma_sibling_shape(backup_name(path), "tmp"@, tag);
    assert(backup_name(path) + t =~= path + bt);
    assert(t[1] == 't');
    assert(c[1] == 'c');
    assert(u[1] == 'u');
    assert(bak[1] == 'b');
    assert(bt[1] == 'b');
    // Each name extends the path by a non-empty suffix.
    assert((path + bak).len() > path.len());
    assert((path + t).len() > path.len());
    assert((path + c).len() > path.len());
    assert((path + u).len() > path.len());
    assert((path + bt).len() > (path + bak).len());
    lemma_tails_differ(path, bak, t, 1);
    lemma_tails_differ(path, bak, c, 1);
    lemma_tails_differ(path, bak, u, 1);
    lemma_tails_differ(path, t, bt, 1);
    lemma_tails_differ(path, t, c, 1);
    lemma_tails_differ(path, bt, c, 1);
}

// ---------------------------------------------------------------------------
// Saving

/// A well-formed save: four different files, and `unchanged` exactly when
/// the new bytes are the snapshot.
pub open spec fn save_wf(s: SaveState) -> bool {
    &&& distinct4(s.path, s.backup, s.temp, s.backup_temp)
    &&& s.unchanged == (s.previous == Some(s.bytes))
}

/// The backup after a save: the previous snapshot when it replaced an
/// existing file; otherwise a backup that was already there, or the new bytes.
pub open spec fn recovery_point(s: SaveState, b0: Option<Seq<u8>>, b: Option<Seq<u8>>) -> bool {
    if !s.unchanged && s.previous is Some {
        b == s.previous
    } else {
        (b0 is Some && b == b0) || b == Some(s.bytes)
    }
}

/// What a save keeps, at each stage, with respect to the files `fs0` as they
/// were when it started: the primary is the original until the final rename,
/// the original is the snapshot once checked, the temporary file holds the
/// new bytes once written, and the backup changes only by its own commit.
pub open spec fn save_inv(s: SaveState, fs0: Files, fs: Files) -> bool {
    let p0 = file_at(fs0, s.path);
    let p = file_at(fs, s.path);
    let b0 = file_at(fs0, s.backup);
    let b = file_at(fs, s.backup);
    let staged = s.unchanged || file_at(fs, s.temp) == Some(s.bytes);
    &&& save_wf(s)
    &&& match s.phase {
        SavePhase::CheckPrimary => fs == fs0,
        SavePhase::ReadBackup => {
            &&& p0 == s.previous
            &&& p == p0
            &&& b == b0
            &&& (s.unchanged || (s.previous is None && staged))
        },
        SavePhase::StageBackup(c) => {
            &&& c == s.content()
            &&& p0 == s.previous
            &&& p == p0
            &&& b == b0
            &&& staged
        },
        SavePhase::CommitBackup => {
            &&& p0 == s.previous
            &&& p == p0
            &&& b == b0
            &&& staged
            &&& file_at(fs, s.backup_temp) == Some(s.content())
        },
        SavePhase::DropBackupTemp(res) => {
            &&& p0 == s.previous
            &&& p == p0
            &&& staged
            &&& (res is Ok ==> b == Some(s.content()))
        },
        SavePhase::MakeParent => {
            &&& !s.unchanged
            &&& p0 == s.previous
            &&& p == p0
            &&& b == b0
        },
        SavePhase::StageData => {
            &&& !s.unchanged
            &&& p0 == s.previous
            &&& p == p0
            &&& b == b0
        },
        SavePhase::CommitData => {
            &&& !s.unchanged
            &&& p0 == s.previous
            &&& p == p0
            &&& staged
            &&& recovery_point(s, b0, b)
        },
        SavePhase::DropTemp(res) => {
            &&& !s.unchanged
            &&& p0 == s.previous
            &&& (res is Ok ==> p == Some(s.bytes) && recovery_point(s, b0, b))
            &&& (res is Err ==> p == p0)
        },
    }
}

/// The end of a save. A success found the primary exactly as snapshotted,
/// left the new bytes there and a recovery point in the backup. A failure
/// left the primary as it was.
pub open spec fn save_outcome(s: SaveState, res: Result<(), Seq<char>>, fs0: Files, fs: Files) -> bool {
    let p0 = file_at(fs0, s.path);
    let p = file_at(fs, s.path);
    match res {
        Ok(()) => {
            &&& p0 == s.previous
            &&& p == Some(s.bytes)
            &&& recovery_point(s, file_at(fs0, s.backup), file_at(fs, s.backup))
        },
        Err(_) => p == p0,
    }
}

/// A save that goes ahead starts in a state that keeps the invariant; one
/// that does not is refused with an error before any request.
pub proof fn law_save_start(store: StoreView, valid: bool, problem: Seq<char>, bytes: Seq<u8>, tag: Seq<char>, fs: Files)
    ensures
        match save_start(store, valid, problem, bytes, tag) {
            Step::Continue(s) => save_inv(s, fs, fs) && s.path == store.path && s.bytes == bytes,
            Step::Done(res) => res is Err,
        },
{
    lemma_names_distinct(store.path, tag);
}

/// Every step of a save keeps the invariant, whatever the reply; a finished
/// save meets its outcome. Together with `law_save_start`: a failed save
/// never changes the primary, and a successful one replaced exactly the
/// snapshot it started from.
pub proof fn law_save_step<T: Validate>(s: SaveState, reply: Reply<T>, fs0: Files, fs: Files)
    requires
        save_inv(s, fs0, fs),
        answers(s.request(), reply),
        plausible(fs, s.request(), reply),
    ensures
        match s.next(reply) {
            Step::Continue(n) => save_inv(n, fs0, effect(fs, s.request(), reply)) && n == s.with_phase(n.phase),
            Step::Done(res) => save_outcome(s, res, fs0, effect(fs, s.request(), reply)),
        },
{
}

/// Runs a save on a sequence of replies until it finishes or the replies
/// run out; yields where it stands and the files it leaves.
pub open spec fn save_drive<T: Validate>(s: SaveState, replies: Seq<Reply<T>>, fs: Files) -> (Step<SaveState, ()>, Files)
    decreases replies.len(),
{
    if replies.len() == 0 {
        (Step::Continue(s), fs)
    } else {
        let r = replies[0];
        let fs1 = effect(fs, s.request(), r);
        match s.next(r) {
            Step::Done(res) => (Step::Done(res), fs1),
            Step::Continue(n) => save_drive(n, replies.drop_first(), fs1),
        }
    }
}

/// Each reply of a sequence is of the expected kind and one that the files
/// could have given at that point of the save.
pub open spec fn save_replies_fit<T: Validate>(s: SaveState, replies: Seq<Reply<T>>, fs: Files) -> bool
    decreases replies.len(),
{
    replies.len() == 0 || {
        let r = replies[0];
        &&& answers(s.request(), r)
        &&& plausible(fs, s.request(), r)
        &&& match s.next(r) {
            Step::Done(_) => true,
            Step::Continue(n) => save_replies_fit(n, replies.drop_first(), effect(fs, s.request(), r)),
        }
    }
}

/// The invariant holds along any run; a run that finishes meets the outcome.
pub proof fn law_save_run<T: Validate>(s: SaveState, replies: Seq<Reply<T>>, fs0: Files, fs: Files)
    requires
        save_inv(s, fs0, fs),
        save_replies_fit(s, replies, fs),
    ensures
        match save_drive(s, replies, fs).0 {
            Step::Continue(n) => save_inv(n, fs0, save_drive(s, replies, fs).1) && n == s.with_phase(n.phase),
            Step::Done(res) => save_outcome(s, res, fs0, save_drive(s, replies, fs).1),
        },
    decreases replies.len(),
{
    if replies.len() > 0 {
        let r = replies[0];
        law_save_step(s, r, fs0, fs);
        match s.next(r) {
            Step::Done(_) => {},
            Step::Continue(n) => {
                law_save_run(n, replies.drop_first(), fs0, effect(fs, s.request(), r));
            },
        }
    }
}

/// A save, whatever the file system answers: if it finishes with success,
/// the primary had held exactly the loaded snapshot and now holds the new
/// bytes, and the backup is a recovery point; if it finishes with an error,
/// the primary is exactly as it was.
pub proof fn law_save_is_fail_safe<T: Validate>(
    store: StoreView,
    valid: bool,
    problem: Seq<char>,
    bytes: Seq<u8>,
    tag: Seq<char>,
    replies: Seq<Reply<T>>,
    fs: Files,
)
    requires
        save_start(store, valid, problem, bytes, tag) matches Step::Continue(s) && save_replies_fit(s, replies, fs),
    ensures
        save_start(store, valid, problem, bytes, tag) matches Step::Continue(s) && (save_drive(s, replies, fs).0 matches Step::Done(res)
            ==> save_outcome(s, res, fs, save_drive(s, replies, fs).1)),
{
    law_save_start(store, valid, problem, bytes, tag, fs);
    if let Step::Continue(s) = save_start(store, valid, problem, bytes, tag) {
        law_save_run(s, replies, fs, fs);
    }
}

/// When a save adopts its bytes as the snapshot, the primary holds exactly
/// those bytes: the snapshot agrees with the file.
pub proof fn law_save_adopts_what_it_wrote<T: Validate>(s: SaveState, reply: Reply<T>, fs0: Files, fs: Files)
    requires
        save_inv(s, fs0, fs),
        plausible(fs, s.request(), reply),
        s.adopts(reply),
    ensures
        file_at(effect(fs, s.request(), reply), s.path) == Some(s.bytes),
{
}

// ---------------------------------------------------------------------------
// Recovering

/// A well-formed recovery: four different files, and past the backup read a
/// valid decoded value.
pub open spec fn recover_wf<T: Validate>(s: RecoverState<T>) -> bool {
    &&& distinct4(s.path, s.backup, s.temp, s.corrupt)
    &&& (!(s.phase is ReadBackup) ==> (s.value matches Some(v) && v.valid()))
}

/// The original primary, if there was one, is kept in the preserved file.
pub open spec fn original_kept<T>(s: RecoverState<T>, p0: Option<Seq<u8>>, fs: Files) -> bool {
    p0 matches Some(o) ==> file_at(fs, s.corrupt) == Some(o)
}

/// What a recovery keeps, at each stage: the backup is never written; the
/// primary is the original until the final rename; the temporary file
/// holds the backup's bytes once written; the original is preserved before
/// the rename.
pub open spec fn recover_inv<T: Validate>(s: RecoverState<T>, fs0: Files, fs: Files) -> bool {
    let p0 = file_at(fs0, s.path);
    let p = file_at(fs, s.path);
    let b0 = file_at(fs0, s.backup);
    let staged = file_at(fs, s.temp) == Some(s.bytes);
    &&& recover_wf(s)
    &&& file_at(fs, s.backup) == b0
    &&& match s.phase {
        RecoverPhase::ReadBackup => fs == fs0,
        RecoverPhase::ReadOriginal => fs == fs0 && b0 == Some(s.bytes),
        RecoverPhase::StageData(o) => fs == fs0 && b0 == Some(s.bytes) && o == p0,
        RecoverPhase::PreserveOriginal(o) => {
            &&& b0 == Some(s.bytes)
            &&& p0 == Some(o)
            &&& p == p0
            &&& staged
        },
        RecoverPhase::CommitData => {
            &&& b0 == Some(s.bytes)
            &&& p == p0
            &&& staged
            &&& original_kept(s, p0, fs)
        },
        RecoverPhase::DropTemp(res) => {
            &&& b0 == Some(s.bytes)
            &&& (res is Ok ==> p == Some(s.bytes) && original_kept(s, p0, fs))
            &&& (res is Err ==> p == p0)
        },
    }
}

/// The end of a recovery. The backup is as it was. A success put the
/// backup's bytes in the primary, kept the original primary, and returns a
/// valid value. A failure left the primary as it was.
pub open spec fn recover_outcome<T: Validate>(s: RecoverState<T>, res: Result<T, Seq<char>>, fs0: Files, fs: Files) -> bool {
    let p0 = file_at(fs0, s.path);
    let p = file_at(fs, s.path);
    let b0 = file_at(fs0, s.backup);
    &&& file_at(fs, s.backup) == b0
    &&& match res {
        Ok(v) => {
            &&& b0 is Some
            &&& p == b0
            &&& original_kept(s, p0, fs)
            &&& v.valid()
        },
        Err(_) => p == p0,
    }
}

/// A recovery starts in a state that keeps the invariant.
pub proof fn law_recover_start<T: Validate>(path: Seq<char>, tag: Seq<char>, fs: Files)
    ensures
        recover_inv(recover_start::<T>(path, tag), fs, fs),
{
    lemma_names_distinct(path, tag);
}

/// Every step of a recovery keeps the invariant, whatever the reply; a
/// finished recovery meets its outcome.
pub proof fn law_recover_step<T: Validate>(s: RecoverState<T>, reply: Reply<T>, fs0: Files, fs: Files)
    requires
        recover_inv(s, fs0, fs),
        answers(s.request(), reply),
        plausible(fs, s.request(), reply),
    ensures
        match s.next(reply) {
            Step::Continue(n) => recover_inv(n, fs0, effect(fs, s.request(), reply)) && same_files(n, s),
            Step::Done(res) => recover_outcome(s, res, fs0, effect(fs, s.request(), reply)),
        },
{
}

/// Two recovery states concern the same four files.
pub open spec fn same_files<T>(a: RecoverState<T>, b: RecoverState<T>) -> bool {
    &&& a.path == b.path
    &&& a.backup == b.backup
    &&& a.temp == b.temp
    &&& a.corrupt == b.corrupt
}

/// Runs a recovery on a sequence of replies until it finishes or the
/// replies run out; yields where it stands and the files it leaves.
pub open spec fn recover_drive<T: Validate>(s: RecoverState<T>, replies: Seq<Reply<T>>, fs: Files) -> (Step<RecoverState<T>, T>, Files)
    decreases replies.len(),
{
    if replies.len() == 0 {
        (Step::Continue(s), fs)
    } else {
        let r = replies[0];
        let fs1 = effect(fs, s.request(), r);
        match s.next(r) {
            Step::Done(res) => (Step::Done(res), fs1),
            Step::Continue(n) => recover_drive(n, replies.drop_first(), fs1),
        }
    }
}

/// Each reply of a sequence is of the expected kind and one that the files
/// could have given at that point of the recovery.
pub open spec fn recover_replies_fit<T: Validate>(s: RecoverState<T>, replies: Seq<Reply<T>>, fs: Files) -> bool
    decreases replies.len(),
{
    replies.len() == 0 || {
        let r = replies[0];
        &&& answers(s.request(), r)
        &&& plausible(fs, s.request(), r)
        &&& match s.next(r) {
            Step::Done(_) => true,
            Step::Continue(n) => recover_replies_fit(n, replies.drop_first(), effect(fs, s.request(), r)),
        }
    }
}

/// The invariant holds along any run; a run that finishes meets the outcome.
pub proof fn law_recover_run<T: Validate>(s: RecoverState<T>, replies: Seq<Reply<T>>, fs0: Files, fs: Files)
    requires
        recover_inv(s, fs0, fs),
        recover_replies_fit(s, replies, fs),
    ensures
        match recover_drive(s, replies, fs).0 {
            Step::Continue(n) => recover_inv(n, fs0, recover_drive(s, replies, fs).1) && same_files(n, s),
            Step::Done(res) => recover_outcome(s, res, fs0, recover_drive(s, replies, fs).1),
        },
    decreases replies.len(),
{
    if replies.len() > 0 {
        let r = replies[0];
        law_recover_step(s, r, fs0, fs);
        match s.next(r) {
            Step::Done(_) => {},
            Step::Continue(n) => {
                law_recover_run(n, replies.drop_first(), fs0, effect(fs, s.request(), r));
            },
        }
    }
}

/// A recovery, whatever the file system answers: the backup is never
/// changed; a success put the backup's bytes in the primary and kept the
/// original primary's exact bytes in the preserved file; a failure left the
/// primary exactly as it was.
pub proof fn law_recover_is_fail_safe<T: Validate>(path: Seq<char>, tag: Seq<char>, replies: Seq<Reply<T>>, fs: Files)
    requires
        recover_replies_fit(recover_start::<T>(path, tag), replies, fs),
    ensures
        recover_drive(recover_start::<T>(path, tag), replies, fs).0 matches Step::Done(res) ==> recover_outcome(
            recover_start::<T>(path, tag),
            res,
            fs,
            recover_drive(recover_start::<T>(path, tag), replies, fs).1,
        ),
{
    law_recover_start::<T>(path, tag, fs);
    law_recover_run(recover_start::<T>(path, tag), replies, fs, fs);
}

/// Past the backup read, a recovery's value never changes, and a recovery
/// that succeeds returns exactly that value.
pub proof fn law_recover_keeps_value<T: Validate>(s: RecoverState<T>, replies: Seq<Reply<T>>, fs: Files)
    requires
        !(s.phase is ReadBackup),
    ensures
        recover_drive(s, replies, fs).0 matches Step::Done(Ok(v)) ==> s.value == Some(v),
        recover_drive(s, replies, fs).0 matches Step::Continue(n) ==> n.value == s.value,
    decreases replies.len(),
{
    if replies.len() > 0 {
        let r = replies[0];
        match s.next(r) {
            Step::Done(_) => {},
            Step::Continue(n) => {
                law_recover_keeps_value(n, replies.drop_first(), effect(fs, s.request(), r));
            },
        }
    }
}

/// A successful recovery returns the tasks that the backup's bytes decode
/// to, whatever the primary holds: the first reply is the read of the
/// backup, and its parse is exactly the returned, valid value.
pub proof fn law_recover_returns_backup_value<T: Validate>(path: Seq<char>, tag: Seq<char>, replies: Seq<Reply<T>>, fs: Files)
    ensures
        recover_drive(recover_start::<T>(path, tag), replies, fs).0 matches Step::Done(Ok(v)) ==> {
            &&& replies.len() > 0
            &&& replies[0] matches Reply::Fetched(f)
            &&& f matches Fetch::Bytes(_, parsed)
            &&& parsed == Ok::<T, String>(v)
            &&& v.valid()
        },
{
    let s = recover_start::<T>(path, tag);
    if replies.len() > 0 {
        let r = replies[0];
        match s.next(r) {
            Step::Done(_) => {},
            Step::Continue(n) => {
                law_recover_keeps_value(n, replies.drop_first(), effect(fs, s.request(), r));
            },
        }
    }
}

// ---------------------------------------------------------------------------
// Loading and checking

/// A successful load's snapshot is what the file holds (or its absence).
pub proof fn law_load_reflects_file<T: Validate>(path: Seq<char>, f: Fetch<T>, fs: Files)
    requires
        plausible(fs, Op::Read(path), Reply::<T>::Fetched(f)),
        load_snapshot(path, f) is Some,
    ensures
        load_snapshot(path, f) == Some(file_at(fs, path)),
{
}

/// A file that nobody changed since it was loaded may be written: any
/// successful later read of the same files passes the write check.
pub proof fn law_unchanged_file_is_writable<T: Validate>(path: Seq<char>, first: Fetch<T>, later: Fetch<T>, fs: Files)
    requires
        plausible(fs, Op::Read(path), Reply::<T>::Fetched(first)),
        plausible(fs, Op::Read(path), Reply::<T>::Fetched(later)),
        load_snapshot(path, first) is Some,
        read_outcome(path, later) is Ok,
    ensures
        write_check(load_snapshot(path, first), path, later) == Ok::<(), Seq<char>>(()),
{
}

/// A file that changed since it was loaded may not be written, and the
/// change is found by the next check, whatever the new content.
pub proof fn law_changed_file_is_not_writable<T: Validate>(path: Seq<char>, first: Fetch<T>, later: Fetch<T>, fs0: Files, fs: Files)
    requires
        plausible(fs0, Op::Read(path), Reply::<T>::Fetched(first)),
        plausible(fs, Op::Read(path), Reply::<T>::Fetched(later)),
        load_snapshot(path, first) is Some,
        file_at(fs, path) != file_at(fs0, path),
    ensures
        write_check(load_snapshot(path, first), path, later) is Err,
{
}

/// Every task list is valid, whatever its contents or length; so a task
/// file that parses always decodes to exactly what it parsed to.
pub proof fn law_every_task_list_is_valid(v: Vec<Todo>, path: Seq<char>)
    ensures
        v.valid(),
        decode_outcome(path, Ok::<Vec<Todo>, String>(v)) == Ok::<Vec<Todo>, Seq<char>>(v),
{
}

/// Settings are valid exactly when they dock to the left or the right edge;
/// the first-use settings dock right, expanded, on top, with the completed
/// section folded.
pub proof fn law_settings_validity_and_defaults(s: Settings)
    ensures
        s.valid() <==> (s.side@ == "left"@ || s.side@ == "right"@),
        s.is_first_use() ==> (s.side@ == "right"@ && !s.collapsed && s.ontop && !s.completed_expanded),
{
}

/// A read yields the file's bytes when it has them, absence only when a
/// probe confirms nothing is there, and an error otherwise; a parse or
/// validation failure is an error, and a valid parse decodes to itself.
pub proof fn law_reads_and_decodes<T: Validate>(path: Seq<char>, f: Fetch<T>, parsed: Result<T, String>)
    ensures
        f matches Fetch::Bytes(b, _) ==> read_outcome(path, f) == Ok::<Option<Seq<u8>>, Seq<char>>(Some(b@)),
        read_outcome(path, f) == Ok::<Option<Seq<u8>>, Seq<char>>(None) <==> (f matches Fetch::NotFound(_, probe) && probe is Absent),
        parsed is Err ==> decode_outcome(path, parsed) is Err,
        parsed matches Ok(v) ==> (decode_outcome(path, parsed) is Ok <==> v.valid()),
        parsed matches Ok(v) ==> (v.valid() ==> decode_outcome(path, parsed) == Ok::<T, Seq<char>>(v)),
{
}

/// A store that never loaded successfully may not write at all.
pub proof fn law_no_snapshot_no_write<T>(path: Seq<char>, f: Fetch<T>)
    ensures
        write_check(None, path, f) is Err,
{
}

/// A file that exists, even one that cannot be read, is never taken for
/// first use: only a confirmed absence loads as the first-use value.
pub proof fn law_only_absence_is_first_use<T: Validate>(path: Seq<char>, f: Fetch<T>, fs: Files)
    requires
        plausible(fs, Op::Read(path), Reply::<T>::Fetched(f)),
        fs.contains_key(path),
    ensures
        load_snapshot(path, f) != Some(None::<Seq<u8>>),
{
}

} // verus!
