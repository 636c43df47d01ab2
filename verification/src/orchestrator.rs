//! Capture orchestration: the per-invocation plan (one timestamped
//! filename, provider arguments, temporary and final paths) and the
//! sequencing around the external collaborators — freeze helper up
//! before the provider, torn down unconditionally right after, then
//! error check, file probe, relocation and success notification.

use vstd::prelude::*;
use crate::options::{
    CaptureKind, SaveHow, ImageFormat, spec_how_keyword, spec_kind_keyword, how_keyword,
    kind_keyword,
};
use crate::filename::{Timestamp, spec_file_name, file_name_for, now_timestamp};
use crate::dirres::{spec_path_join, path_join};

verus! {

/// How a finished orchestration run ended.
#[derive(Clone, Copy, Debug, PartialEq, Eq, Structural)]
pub enum TakeOutcome {
    /// The provider succeeded and the file now sits in the target directory.
    Saved,
    /// The provider succeeded but wrote no file (clipboard-only); silent.
    NoFile,
    /// The provider exited with failure; nothing was relocated.
    CaptureFailed,
    /// Neither the atomic move nor the copy fallback could place the file.
    RelocationFailed,
}

/// The orchestration's position between steps on the outside world.
#[derive(Clone, Copy, Debug, PartialEq, Eq, Structural)]
pub enum TakeState {
    /// About to attempt the freeze-helper spawn.
    Freeze,
    /// About to run the capture provider; `froze` records a live helper.
    Capture { froze: bool },
    /// Provider done; the freeze helper must be killed before anything else.
    Teardown { success: bool },
    /// Provider succeeded and no helper is left; probe the temporary path.
    Probe,
    /// A file exists; attempt the atomic move.
    Place,
    /// The move failed; attempt the copy fallback.
    Fallback,
    /// The copy succeeded; attempt to delete the temporary file.
    Cleanup,
    /// The file is placed; emit the success notification.
    Notify,
    /// Terminal.
    Done { outcome: TakeOutcome },
}

/// The result of one outside step, fed back into the machine.
#[derive(Clone, Copy, Debug, PartialEq, Eq, Structural)]
pub enum TakeEvent {
    /// Whether the freeze-helper spawn succeeded (failure is tolerated).
    Froze(bool),
    /// Whether the capture provider exited successfully.
    Captured(bool),
    /// The freeze helper was killed.
    Killed,
    /// Whether the temporary path exists as a file.
    Probed(bool),
    /// Whether the atomic move succeeded.
    Renamed(bool),
    /// Whether the copy fallback succeeded.
    Copied(bool),
    /// Whether deleting the temporary file succeeded (failure tolerated).
    Deleted(bool),
    /// The success notification was sent (delivery failure tolerated).
    Notified,
}

/// The outside step a state asks for; `None` once terminal.
#[derive(Clone, Copy, Debug, PartialEq, Eq, Structural)]
pub enum TakeAction {
    SpawnFreeze,
    RunProvider,
    KillFreeze,
    ProbeTmp,
    TryRename,
    TryCopy,
    DeleteTmp,
    NotifySaved,
}

/// The starting state: the freeze helper is attempted only for an area
/// selection and only when the helper tool is present.
pub open spec fn spec_take_init(want_freeze: bool, helper_present: bool) -> TakeState {
    if want_freeze && helper_present {
        TakeState::Freeze
    } else {
        TakeState::Capture { froze: false }
    }
}

pub fn take_init(want_freeze: bool, helper_present: bool) -> (r: TakeState)
    ensures
        r == spec_take_init(want_freeze, helper_present),
{
    if want_freeze && helper_present {
        TakeState::Freeze
    } else {
        TakeState::Capture { froze: false }
    }
}

/// One transition of the orchestration. A state ignores events that do
/// not answer its pending action; terminal states absorb everything.
pub open spec fn spec_take_step(st: TakeState, ev: TakeEvent) -> TakeState {
    match st {
        TakeState::Freeze => match ev {
            TakeEvent::Froze(ok) => TakeState::Capture { froze: ok },
            _ => st,
        },
        TakeState::Capture { froze } => match ev {
            TakeEvent::Captured(success) => if froze {
                TakeState::Teardown { success }
            } else if success {
                TakeState::Probe
            } else {
                TakeState::Done { outcome: TakeOutcome::CaptureFailed }
            },
            _ => st,
        },
        TakeState::Teardown { success } => match ev {
            TakeEvent::Killed => if success {
                TakeState::Probe
            } else {
                TakeState::Done { outcome: TakeOutcome::CaptureFailed }
            },
            _ => st,
        },
        TakeState::Probe => match ev {
            TakeEvent::Probed(present) => if present {
                TakeState::Place
            } else {
                TakeState::Done { outcome: TakeOutcome::NoFile }
            },
            _ => st,
        },
        TakeState::Place => match ev {
            TakeEvent::Renamed(ok) => if ok {
                TakeState::Notify
            } else {
                TakeState::Fallback
            },
            _ => st,
        },
        TakeState::Fallback => match ev {
            TakeEvent::Copied(ok) => if ok {
                TakeState::Cleanup
            } else {
                TakeState::Done { outcome: TakeOutcome::RelocationFailed }
            },
            _ => st,
        },
        TakeState::Cleanup => match ev {
            TakeEvent::Deleted(_) => TakeState::Notify,
            _ => st,
        },
        TakeState::Notify => match ev {
            TakeEvent::Notified => TakeState::Done { outcome: TakeOutcome::Saved },
            _ => st,
        },
        TakeState::Done { .. } => st,
    }
}

pub fn take_step(st: TakeState, ev: TakeEvent) -> (r: TakeState)
    ensures
        r == spec_take_step(st, ev),
{
    match st {
        TakeState::Freeze => match ev {
            TakeEvent::Froze(ok) => TakeState::Capture { froze: ok },
            _ => st,
        },
        TakeState::Capture { froze } => match ev {
            TakeEvent::Captured(success) => if froze {
                TakeState::Teardown { success }
            } else if success {
                TakeState::Probe
            } else {
                TakeState::Done { outcome: TakeOutcome::CaptureFailed }
            },
            _ => st,
        },
        TakeState::Teardown { success } => match ev {
            TakeEvent::Killed => if success {
                TakeState::Probe
            } else {
                TakeState::Done { outcome: TakeOutcome::CaptureFailed }
            },
            _ => st,
        },
        TakeState::Probe => match ev {
            TakeEvent::Probed(present) => if present {
                TakeState::Place
            } else {
                TakeState::Done { outcome: TakeOutcome::NoFile }
            },
            _ => st,
        },
        TakeState::Place => match ev {
            TakeEvent::Renamed(ok) => if ok {
                TakeState::Notify
            } else {
                TakeState::Fallback
            },
            _ => st,
        },
        TakeState::Fallback => match ev {
            TakeEvent::Copied(ok) => if ok {
                TakeState::Cleanup
            } else {
                TakeState::Done { outcome: TakeOutcome::RelocationFailed }
            },
            _ => st,
        },
        TakeState::Cleanup => match ev {
            TakeEvent::Deleted(_) => TakeState::Notify,
            _ => st,
        },
        TakeState::Notify => match ev {
            TakeEvent::Notified => TakeState::Done { outcome: TakeOutcome::Saved },
            _ => st,
        },
        TakeState::Done { outcome } => TakeState::Done { outcome },
    }
}

/// The outside step a state asks for.
pub open spec fn spec_take_action(st: TakeState) -> Option<TakeAction> {
    match st {
        TakeState::Freeze => Some(TakeAction::SpawnFreeze),
        TakeState::Capture { .. } => Some(TakeAction::RunProvider),
        TakeState::Teardown { .. } => Some(TakeAction::KillFreeze),
        TakeState::Probe => Some(TakeAction::ProbeTmp),
        TakeState::Place => Some(TakeAction::TryRename),
        TakeState::Fallback => Some(TakeAction::TryCopy),
        TakeState::Cleanup => Some(TakeAction::DeleteTmp),
        TakeState::Notify => Some(TakeAction::NotifySaved),
        TakeState::Done { .. } => None,
    }
}

pub fn take_action(st: &TakeState) -> (r: Option<TakeAction>)
    ensures
        r == spec_take_action(*st),
{
    match st {
        TakeState::Freeze => Some(TakeAction::SpawnFreeze),
        TakeState::Capture { .. } => Some(TakeAction::RunProvider),
        TakeState::Teardown { .. } => Some(TakeAction::KillFreeze),
        TakeState::Probe => Some(TakeAction::ProbeTmp),
        TakeState::Place => Some(TakeAction::TryRename),
        TakeState::Fallback => Some(TakeAction::TryCopy),
        TakeState::Cleanup => Some(TakeAction::DeleteTmp),
        TakeState::Notify => Some(TakeAction::NotifySaved),
        TakeState::Done { .. } => None,
    }
}

/// The state after consuming a sequence of outside results.
pub open spec fn spec_take_run(st: TakeState, evs: Seq<TakeEvent>) -> TakeState
    decreases evs.len(),
{
    if evs.len() == 0 {
        st
    } else {
        spec_take_run(spec_take_step(st, evs[0]), evs.skip(1))
    }
}

pub open spec fn spec_emitted(st: TakeState) -> Seq<TakeAction> {
    match spec_take_action(st) {
        Some(a) => seq![a],
        None => Seq::empty(),
    }
}

/// Every outside step the machine asks for along a run, in order,
/// starting with the current state's.
pub open spec fn spec_take_actions(st: TakeState, evs: Seq<TakeEvent>) -> Seq<TakeAction>
    decreases evs.len(),
{
    if evs.len() == 0 {
        spec_emitted(st)
    } else {
        spec_emitted(st) + spec_take_actions(spec_take_step(st, evs[0]), evs.skip(1))
    }
}

/// A finished run stays finished and asks for nothing more.
pub proof fn lemma_done_absorbs(o: TakeOutcome, evs: Seq<TakeEvent>)
    ensures
        spec_take_run(TakeState::Done { outcome: o }, evs) == (TakeState::Done { outcome: o }),
        spec_take_actions(TakeState::Done { outcome: o }, evs) == (Seq::<TakeAction>::empty()),
    decreases evs.len(),
{
    if evs.len() > 0 {
        lemma_done_absorbs(o, evs.skip(1));
        assert(spec_take_actions(TakeState::Done { outcome: o }, evs) =~= Seq::<
            TakeAction,
        >::empty());
    }
}

/// Once the provider has exited, a live freeze helper is killed next,
/// whatever the exit status was: from `Capture` with a helper up, every
/// `Captured` event leads to `Teardown`, whose one pending action is the
/// kill.
pub proof fn lemma_freeze_teardown_unconditional(success: bool)
    ensures
        spec_take_step(TakeState::Capture { froze: true }, TakeEvent::Captured(success))
            == (TakeState::Teardown { success }),
        spec_take_action(TakeState::Teardown { success }) == Some(TakeAction::KillFreeze),
{
}

/// A failed capture ends the run with `CaptureFailed` and asks for
/// nothing beyond the freeze teardown: no relocation attempt and no
/// success notification appears among the remaining actions, however the
/// run is driven on.
pub proof fn lemma_capture_failure_no_relocation(evs: Seq<TakeEvent>)
    ensures
        spec_take_run(TakeState::Teardown { success: false }, seq![TakeEvent::Killed] + evs)
            == (TakeState::Done { outcome: TakeOutcome::CaptureFailed }),
        spec_take_actions(TakeState::Teardown { success: false }, seq![TakeEvent::Killed] + evs)
            == seq![TakeAction::KillFreeze],
        spec_take_run(
            TakeState::Capture { froze: false },
            seq![TakeEvent::Captured(false)] + evs,
        ) == (TakeState::Done { outcome: TakeOutcome::CaptureFailed }),
        spec_take_actions(
            TakeState::Capture { froze: false },
            seq![TakeEvent::Captured(false)] + evs,
        ) == seq![TakeAction::RunProvider],
{
    let killed = seq![TakeEvent::Killed] + evs;
    assert(killed[0] == TakeEvent::Killed);
    assert(killed.skip(1) =~= evs);
    let captured = seq![TakeEvent::Captured(false)] + evs;
    assert(captured[0] == TakeEvent::Captured(false));
    assert(captured.skip(1) =~= evs);
    lemma_done_absorbs(TakeOutcome::CaptureFailed, evs);
    assert(spec_take_actions(TakeState::Teardown { success: false }, killed)
        =~= seq![TakeAction::KillFreeze]);
    assert(spec_take_actions(TakeState::Capture { froze: false }, captured)
        =~= seq![TakeAction::RunProvider]);
}

/// When the provider succeeded but wrote no file, the run ends silently:
/// outcome `NoFile`, no error, and no action beyond the probe itself —
/// in particular no success notification.
pub proof fn lemma_no_file_is_silent(evs: Seq<TakeEvent>)
    ensures
        spec_take_run(TakeState::Probe, seq![TakeEvent::Probed(false)] + evs) == (TakeState::Done {
            outcome: TakeOutcome::NoFile,
        }),
        spec_take_actions(TakeState::Probe, seq![TakeEvent::Probed(false)] + evs)
            == seq![TakeAction::ProbeTmp],
{
    let probed = seq![TakeEvent::Probed(false)] + evs;
    assert(probed[0] == TakeEvent::Probed(false));
    assert(probed.skip(1) =~= evs);
    lemma_done_absorbs(TakeOutcome::NoFile, evs);
    assert(spec_take_actions(TakeState::Probe, probed) =~= seq![TakeAction::ProbeTmp]);
}

/// One capture invocation's fixed data: the single timestamped filename
/// and everything derived from it.
#[derive(Debug)]
pub struct TakePlan {
    /// The one timestamped filename of this invocation.
    pub filename: String,
    /// Where the provider writes: the filename under the home directory.
    pub tmp_path: String,
    /// Where the file finally goes: the same filename under the target.
    pub dest_path: String,
    /// The provider's arguments: `--notify <how> <kind> <tmp_path>`.
    pub args: Vec<String>,
    /// Whether the freeze helper is wanted (area selection only).
    pub want_freeze: bool,
}

/// Build the invocation plan from explicit clock fields: one filename,
/// used both for the temporary path under home and the final path under
/// the target directory, and the provider's argument vector.
pub fn take_plan(
    kind: CaptureKind,
    how: SaveHow,
    shot_dir: &str,
    format: ImageFormat,
    home: &str,
    ts: &Timestamp,
) -> (p: TakePlan)
    requires
        ts.wf(),
    ensures
        p.filename@ == spec_file_name(*ts, format),
        p.tmp_path@ == spec_path_join(home@, p.filename@),
        p.dest_path@ == spec_path_join(shot_dir@, p.filename@),
        p.want_freeze == (kind is Area),
        p.args@.len() == 4,
        p.args@[0]@ == "--notify"@,
        p.args@[1]@ == spec_how_keyword(how),
        p.args@[2]@ == spec_kind_keyword(kind),
        p.args@[3]@ == p.tmp_path@,
{
    let filename = file_name_for(ts, format);
    let tmp_path = path_join(home, filename.as_str());
    let dest_path = path_join(shot_dir, filename.as_str());
    let mut args: Vec<String> = Vec::new();
    args.push(String::from_str("--notify"));
    args.push(how_keyword(how));
    args.push(kind_keyword(kind));
    args.push(tmp_path.clone());
    let want_freeze = match kind {
        CaptureKind::Area => true,
        _ => false,
    };
    TakePlan { filename, tmp_path, dest_path, args, want_freeze }
}

proof fn lemma_path_join_suffix(dir: Seq<char>, name: Seq<char>)
    ensures
        spec_path_join(dir, name).len() >= name.len(),
        spec_path_join(dir, name).skip(spec_path_join(dir, name).len() - name.len()) == name,
{
    let joined = spec_path_join(dir, name);
    if dir.len() == 0 {
        assert(joined.skip(0) =~= name);
    } else if dir[dir.len() - 1] == '/' {
        assert((dir + name).skip(dir.len() as int) =~= name);
    } else {
        assert((dir + "/"@ + name).skip((dir + "/"@).len() as int) =~= name);
    }
}

/// One invocation uses exactly one timestamped filename: the temporary
/// path under home and the final path under the target directory both
/// end in the very same name.
pub proof fn lemma_single_filename(home: Seq<char>, dir: Seq<char>, name: Seq<char>)
    ensures
        spec_path_join(home, name).skip(spec_path_join(home, name).len() - name.len()) == name,
        spec_path_join(dir, name).skip(spec_path_join(dir, name).len() - name.len()) == name,
{
    lemma_path_join_suffix(home, name);
    lemma_path_join_suffix(dir, name);
}

/// A file system modelled as a map from paths to file contents.
pub open spec fn spec_fs_move(
    fs: Map<Seq<char>, Seq<u8>>,
    src: Seq<char>,
    dst: Seq<char>,
) -> Map<Seq<char>, Seq<u8>> {
    fs.remove(src).insert(dst, fs[src])
}

pub open spec fn spec_fs_copy(
    fs: Map<Seq<char>, Seq<u8>>,
    src: Seq<char>,
    dst: Seq<char>,
) -> Map<Seq<char>, Seq<u8>> {
    fs.insert(dst, fs[src])
}

pub open spec fn spec_fs_remove(fs: Map<Seq<char>, Seq<u8>>, p: Seq<char>) -> Map<
    Seq<char>,
    Seq<u8>,
> {
    fs.remove(p)
}

/// Both relocation strategies agree: after an atomic move, and after the
/// copy-then-delete fallback, the file sits at the destination with its
/// contents intact; the temporary path is gone after a move and after a
/// successful delete, and at worst holds a leftover copy when the
/// tolerated delete fails. With the delete succeeding the two final file
/// systems are identical.
pub proof fn lemma_relocation_round_trip(
    fs: Map<Seq<char>, Seq<u8>>,
    tmp: Seq<char>,
    dest: Seq<char>,
    delete_ok: bool,
)
    requires
        fs.contains_key(tmp),
        tmp != dest,
    ensures
        spec_fs_move(fs, tmp, dest).contains_key(dest),
        spec_fs_move(fs, tmp, dest)[dest] == fs[tmp],
        !spec_fs_move(fs, tmp, dest).contains_key(tmp),
        ({
            let after = if delete_ok {
                spec_fs_remove(spec_fs_copy(fs, tmp, dest), tmp)
            } else {
                spec_fs_copy(fs, tmp, dest)
            };
            &&& after.contains_key(dest)
            &&& after[dest] == fs[tmp]
            &&& (delete_ok ==> !after.contains_key(tmp))
            &&& (!delete_ok ==> after[tmp] == fs[tmp])
        }),
        delete_ok ==> spec_fs_move(fs, tmp, dest) == spec_fs_remove(
            spec_fs_copy(fs, tmp, dest),
            tmp,
        ),
{
    assert(spec_fs_move(fs, tmp, dest) =~= spec_fs_remove(spec_fs_copy(fs, tmp, dest), tmp));
}

/// Read a finished orchestration off into the library's error taxonomy:
/// success says whether a file was placed; a provider failure and a
/// failed relocation each surface their own error.
pub fn outcome_result(o: TakeOutcome) -> (r: Result<bool, crate::FlowError>)
    ensures
        o == TakeOutcome::Saved ==> (r matches Ok(placed) && placed),
        o == TakeOutcome::NoFile ==> (r matches Ok(placed) && !placed),
        o == TakeOutcome::CaptureFailed ==> (r matches Err(crate::FlowError::CaptureError)),
        o == TakeOutcome::RelocationFailed ==> (r matches Err(crate::FlowError::RelocationError)),
{
    match o {
        TakeOutcome::Saved => Ok(true),
        TakeOutcome::NoFile => Ok(false),
        TakeOutcome::CaptureFailed => Err(crate::FlowError::CaptureError),
        TakeOutcome::RelocationFailed => Err(crate::FlowError::RelocationError),
    }
}

/// Run one whole capture invocation as data: a fresh timestamped plan,
/// then the orchestration machine folded over the given sequence of
/// outside results.
pub fn take(
    kind: CaptureKind,
    how: SaveHow,
    shot_dir: &str,
    format: ImageFormat,
    home: &str,
    helper_present: bool,
    events: &Vec<TakeEvent>,
) -> (r: (TakePlan, TakeState))
    ensures
        r.1 == spec_take_run(spec_take_init(kind is Area, helper_present), events@),
        exists|ts: Timestamp| ts.wf() && r.0.filename@ == spec_file_name(ts, format),
        r.0.tmp_path@ == spec_path_join(home@, r.0.filename@),
        r.0.dest_path@ == spec_path_join(shot_dir@, r.0.filename@),
        r.0.want_freeze == (kind is Area),
        r.0.args@.len() == 4,
        r.0.args@[0]@ == "--notify"@,
        r.0.args@[1]@ == spec_how_keyword(how),
        r.0.args@[2]@ == spec_kind_keyword(kind),
        r.0.args@[3]@ == r.0.tmp_path@,
{
    let ts = now_timestamp();
    let plan = take_plan(kind, how, shot_dir, format, home, &ts);
    proof {
        assert(ts.wf() && plan.filename@ == spec_file_name(ts, format));
    }
    let n = events.len();
    let mut st = take_init(plan.want_freeze, helper_present);
    let mut i: usize = 0;
    proof {
        assert(events@.take(0) =~= Seq::<TakeEvent>::empty());
    }
    while i < n
        invariant
            n == events@.len(),
            i <= n,
            st == spec_take_run(spec_take_init(kind is Area, helper_present), events@.take(i as int)),
        decreases n - i,
    {
        st = take_step(st, events[i]);
        proof {
            lemma_take_run_snoc(
                spec_take_init(kind is Area, helper_present),
                events@.take(i as int),
                events@[i as int],
            );
            assert(events@.take(i + 1) =~= events@.take(i as int).push(events@[i as int]));
        }
        i += 1;
    }
    proof {
        assert(events@.take(n as int) =~= events@);
    }
    (plan, st)
}

proof fn lemma_take_run_snoc(st: TakeState, evs: Seq<TakeEvent>, y: TakeEvent)
    ensures
        spec_take_run(st, evs.push(y)) == spec_take_step(spec_take_run(st, evs), y),
    decreases evs.len(),
{
    if evs.len() == 0 {
        assert(evs.push(y)[0] == y);
        assert(evs.push(y).skip(1) =~= Seq::<TakeEvent>::empty());
        assert(spec_take_run(st, evs.push(y)) == spec_take_run(
            spec_take_step(st, y),
            evs.push(y).skip(1),
        ));
    } else {
        assert(evs.push(y)[0] == evs[0]);
        assert(evs.push(y).skip(1) =~= evs.skip(1).push(y));
        assert(spec_take_run(st, evs.push(y)) == spec_take_run(
            spec_take_step(st, evs[0]),
            evs.skip(1).push(y),
        ));
        lemma_take_run_snoc(spec_take_step(st, evs[0]), evs.skip(1), y);
    }
}

} // verus!
