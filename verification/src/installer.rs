//! The install-attempt state machine: resolve the target, check whether
//! the candidate is already present, download, extract into staging, and
//! atomically commit. The machine makes every decision; the caller
//! performs the I/O each [`Action`] names and answers with an [`Event`].
//! Of all actions only [`Action::CommitMove`] writes under the tool
//! directory — every other action reads, or works inside the attempt's
//! private staging area — so the laws below pin down when a commit can
//! happen at all.

use vstd::prelude::*;
use crate::apps::InstallTarget;
use crate::errors::{FailReason, Failure, Stage};
use crate::release::Release;
use crate::store::{listing_has_version, has_version, DirEntry, InstalledVersion};

verus! {

/// The immutable context of one attempt once target and candidate are
/// known.
pub struct AttemptCtx {
    pub target: InstallTarget,
    pub release: Release,
    pub force: bool,
}

/// The shape of a finished extraction.
#[derive(Clone, Debug)]
pub enum RootShape {
    /// Exactly one top-level entry, a directory of this name: the
    /// conventional single well-formed root, moved as a whole.
    SingleDir(String),
    /// Any other layout is still accepted: the caller commits the whole
    /// staging directory under the version identifier.
    Flat,
}

/// One install attempt.
pub enum InstallState {
    /// Waiting for the target directory and the candidate release.
    Resolving { force: bool },
    /// Waiting for the scan of the target tool directory.
    CheckingExisting { ctx: AttemptCtx },
    /// Waiting for the archive transfer to end.
    Downloading { ctx: AttemptCtx },
    /// Waiting for the archive to be unpacked into staging.
    Extracting { ctx: AttemptCtx },
    /// Waiting for the staged tree to be moved into place.
    Committing { ctx: AttemptCtx, root: RootShape },
    /// Finished successfully: installed, or skipped because the candidate
    /// was already present and `force` was not set (a success, so that
    /// repeated quick-update runs are idempotent).
    Done { ctx: AttemptCtx, skipped: bool },
    /// Finished unsuccessfully, with the stage the attempt stopped in.
    Failed { failure: Failure },
}

/// What the caller reports back to the machine.
pub enum Event {
    /// Target directory and candidate release are known.
    Resolved { target: InstallTarget, release: Release },
    /// The target could not be resolved or the release listing could not
    /// be fetched.
    ResolveFailed { reason: FailReason },
    /// The scan of the target tool directory.
    Existing { entries: Vec<DirEntry> },
    /// The archive transfer completed.
    Downloaded,
    /// The archive transfer failed.
    DownloadFailed { reason: String },
    /// The user cancelled the transfer.
    DownloadCancelled,
    /// The archive was unpacked; its root classified by
    /// [`crate::extract::classify_extracted`].
    Extracted { root: RootShape },
    /// The archive was structurally corrupt.
    ExtractFailed { reason: String },
    /// The staged tree was moved into place.
    Committed,
    /// The move into place failed.
    CommitFailed { reason: String },
}

/// What the machine asks the caller to do next.
#[derive(Clone, Copy, PartialEq, Eq, Structural, Debug)]
pub enum Action {
    /// Resolve the target tool directory and query the release source for
    /// the candidate release; answer with `Resolved` or `ResolveFailed`.
    Resolve,
    /// Scan the target tool directory; answer with `Existing`.
    ScanInstallDir,
    /// Stream the release's archive asset into the attempt's private
    /// staging area — never into the tool directory; answer with
    /// `Downloaded`, `DownloadFailed` or `DownloadCancelled`.
    FetchArchive,
    /// Unpack the downloaded archive into the staging directory; answer
    /// with `Extracted` or `ExtractFailed`.
    ExtractArchive,
    /// Move the staged root into the tool directory under the release's
    /// tag — the only action that writes under the tool directory. With
    /// `replace_existing`, a directory already bearing that name is
    /// removed first.
    CommitMove { replace_existing: bool },
    /// The attempt is over; remove the attempt's staging area (on success
    /// and failure alike) and report the outcome.
    Finish,
}

/// The action a state is waiting on; re-issued if the caller reports an
/// event the state does not expect.
pub open spec fn spec_expected_action(s: InstallState) -> Action {
    match s {
        InstallState::Resolving { .. } => Action::Resolve,
        InstallState::CheckingExisting { .. } => Action::ScanInstallDir,
        InstallState::Downloading { .. } => Action::FetchArchive,
        InstallState::Extracting { .. } => Action::ExtractArchive,
        InstallState::Committing { ctx, .. } => Action::CommitMove {
            replace_existing: ctx.force,
        },
        InstallState::Done { .. } => Action::Finish,
        InstallState::Failed { .. } => Action::Finish,
    }
}

/// The transition function: from a state and the caller's event to the
/// next state and the next thing to do.
pub open spec fn spec_step(s: InstallState, e: Event) -> (InstallState, Action) {
    match (s, e) {
        (InstallState::Resolving { force }, Event::Resolved { target, release }) => (
            InstallState::CheckingExisting {
                ctx: AttemptCtx { target, release, force },
            },
            Action::ScanInstallDir,
        ),
        (InstallState::Resolving { force }, Event::ResolveFailed { reason }) => (
            InstallState::Failed { failure: Failure { stage: Stage::Resolving, reason } },
            Action::Finish,
        ),
        (InstallState::CheckingExisting { ctx }, Event::Existing { entries }) => {
            if listing_has_version(entries@, ctx.release.tag_name@) && !ctx.force {
                (InstallState::Done { ctx, skipped: true }, Action::Finish)
            } else {
                (InstallState::Downloading { ctx }, Action::FetchArchive)
            }
        },
        (InstallState::Downloading { ctx }, Event::Downloaded) => (
            InstallState::Extracting { ctx },
            Action::ExtractArchive,
        ),
        (InstallState::Downloading { ctx }, Event::DownloadFailed { reason }) => (
            InstallState::Failed {
                failure: Failure { stage: Stage::Downloading, reason: FailReason::Download(reason) },
            },
            Action::Finish,
        ),
        (InstallState::Downloading { ctx }, Event::DownloadCancelled) => (
            InstallState::Failed {
                failure: Failure { stage: Stage::Downloading, reason: FailReason::Cancelled },
            },
            Action::Finish,
        ),
        (InstallState::Extracting { ctx }, Event::Extracted { root }) => {
            let force = ctx.force;
            (
                InstallState::Committing { ctx, root },
                Action::CommitMove { replace_existing: force },
            )
        },
        (InstallState::Extracting { ctx }, Event::ExtractFailed { reason }) => (
            InstallState::Failed {
                failure: Failure { stage: Stage::Extracting, reason: FailReason::Extract(reason) },
            },
            Action::Finish,
        ),
        (InstallState::Committing { ctx, root }, Event::Committed) => (
            InstallState::Done { ctx, skipped: false },
            Action::Finish,
        ),
        (InstallState::Committing { ctx, root }, Event::CommitFailed { reason }) => (
            InstallState::Failed {
                failure: Failure { stage: Stage::Committing, reason: FailReason::Commit(reason) },
            },
            Action::Finish,
        ),
        (s2, _) => (s2, spec_expected_action(s2)),
    }
}

impl InstallState {
    /// Begins one install attempt.
    pub fn start(force: bool) -> (r: (InstallState, Action))
        ensures
            r.0 == (InstallState::Resolving { force }),
            r.1 == Action::Resolve,
    {
        (InstallState::Resolving { force }, Action::Resolve)
    }

    /// The action this state is waiting on.
    pub fn expected_action(&self) -> (a: Action)
        ensures
            a == spec_expected_action(*self),
    {
        match self {
            InstallState::Resolving { .. } => Action::Resolve,
            InstallState::CheckingExisting { .. } => Action::ScanInstallDir,
            InstallState::Downloading { .. } => Action::FetchArchive,
            InstallState::Extracting { .. } => Action::ExtractArchive,
            InstallState::Committing { ctx, .. } => Action::CommitMove {
                replace_existing: ctx.force,
            },
            InstallState::Done { .. } => Action::Finish,
            InstallState::Failed { .. } => Action::Finish,
        }
    }

    /// Advances the attempt by one event, exactly as [`spec_step`] says.
    pub fn step(self, event: Event) -> (r: (InstallState, Action))
        ensures
            r == spec_step(self, event),
    {
        match (self, event) {
            (InstallState::Resolving { force }, Event::Resolved { target, release }) => (
                InstallState::CheckingExisting {
                    ctx: AttemptCtx { target, release, force },
                },
                Action::ScanInstallDir,
            ),
            (InstallState::Resolving { force: _ }, Event::ResolveFailed { reason }) => (
                InstallState::Failed { failure: Failure { stage: Stage::Resolving, reason } },
                Action::Finish,
            ),
            (InstallState::CheckingExisting { ctx }, Event::Existing { entries }) => {
                let present = has_version(&entries, &ctx.release.tag_name);
                if present && !ctx.force {
                    (InstallState::Done { ctx, skipped: true }, Action::Finish)
                } else {
                    (InstallState::Downloading { ctx }, Action::FetchArchive)
                }
            },
            (InstallState::Downloading { ctx }, Event::Downloaded) => (
                InstallState::Extracting { ctx },
                Action::ExtractArchive,
            ),
            (InstallState::Downloading { ctx: _ }, Event::DownloadFailed { reason }) => (
                InstallState::Failed {
                    failure: Failure {
                        stage: Stage::Downloading,
                        reason: FailReason::Download(reason),
                    },
                },
                Action::Finish,
            ),
            (InstallState::Downloading { ctx: _ }, Event::DownloadCancelled) => (
                InstallState::Failed {
                    failure: Failure { stage: Stage::Downloading, reason: FailReason::Cancelled },
                },
                Action::Finish,
            ),
            (InstallState::Extracting { ctx }, Event::Extracted { root }) => {
                let force = ctx.force;
                (
                    InstallState::Committing { ctx, root },
                    Action::CommitMove { replace_existing: force },
                )
            },
            (InstallState::Extracting { ctx: _ }, Event::ExtractFailed { reason }) => (
                InstallState::Failed {
                    failure: Failure {
                        stage: Stage::Extracting,
                        reason: FailReason::Extract(reason),
                    },
                },
                Action::Finish,
            ),
            (InstallState::Committing { ctx, root: _ }, Event::Committed) => (
                InstallState::Done { ctx, skipped: false },
                Action::Finish,
            ),
            (InstallState::Committing { ctx: _, root: _ }, Event::CommitFailed { reason }) => (
                InstallState::Failed {
                    failure: Failure {
                        stage: Stage::Committing,
                        reason: FailReason::Commit(reason),
                    },
                },
                Action::Finish,
            ),
            (s2, _) => {
                let a = s2.expected_action();
                (s2, a)
            },
        }
    }
}

/// The version a committed attempt installed: the release's tag, living
/// directly under the target tool directory.
pub fn committed_version(ctx: &AttemptCtx) -> (iv: InstalledVersion)
    ensures
        iv.version_id@ == ctx.release.tag_name@,
        iv.install_path@ == ctx.target.install_dir@ + "/"@ + ctx.release.tag_name@,
{
    let path = crate::store::join_path(&ctx.target.install_dir, ctx.release.tag_name.as_str());
    InstalledVersion { version_id: ctx.release.tag_name.clone(), install_path: path }
}

/// The state an attempt is in after a sequence of events.
pub open spec fn run_state(s: InstallState, evs: Seq<Event>) -> InstallState
    decreases evs.len(),
{
    if evs.len() == 0 {
        s
    } else {
        run_state(spec_step(s, evs[0]).0, evs.drop_first())
    }
}

/// The actions an attempt asks for along a sequence of events.
pub open spec fn run_actions(s: InstallState, evs: Seq<Event>) -> Seq<Action>
    decreases evs.len(),
{
    if evs.len() == 0 {
        Seq::empty()
    } else {
        seq![spec_step(s, evs[0]).1] + run_actions(spec_step(s, evs[0]).0, evs.drop_first())
    }
}

/// A run asks for exactly one action per event.
pub proof fn lemma_run_actions_len(s: InstallState, evs: Seq<Event>)
    ensures
        run_actions(s, evs).len() == evs.len(),
    decreases evs.len(),
{
    if evs.len() > 0 {
        lemma_run_actions_len(spec_step(s, evs[0]).0, evs.drop_first());
    }
}

/// A run over concatenated events is the run over the first part followed
/// by a run over the second.
pub proof fn lemma_run_state_append(s: InstallState, a: Seq<Event>, b: Seq<Event>)
    ensures
        run_state(s, a + b) == run_state(run_state(s, a), b),
    decreases a.len(),
{
    if a.len() == 0 {
        assert(a + b =~= b);
    } else {
        assert((a + b).drop_first() =~= a.drop_first() + b);
        lemma_run_state_append(spec_step(s, a[0]).0, a.drop_first(), b);
    }
}

/// Finished attempts stay finished and ask for nothing but `Finish`.
pub proof fn lemma_terminal_absorbing(s: InstallState, evs: Seq<Event>)
    requires
        s matches InstallState::Done { .. } || s matches InstallState::Failed { .. },
    ensures
        run_state(s, evs) == s,
        forall|i: int| 0 <= i < evs.len() ==> run_actions(s, evs)[i] == Action::Finish,
    decreases evs.len(),
{
    if evs.len() > 0 {
        lemma_terminal_absorbing(s, evs.drop_first());
        assert(spec_step(s, evs[0]).0 == s);
        assert(spec_step(s, evs[0]).1 == Action::Finish);
        assert forall|i: int| 0 <= i < evs.len() implies run_actions(s, evs)[i]
            == Action::Finish by {
            if i > 0 {
                lemma_run_actions_len(s, evs.drop_first());
                assert(run_actions(s, evs)[i] == run_actions(s, evs.drop_first())[i - 1]);
            }
        }
    }
}

/// Whether an attempt has entered the committing stage (or finished an
/// install, or failed while committing).
pub open spec fn reached_commit(s: InstallState) -> bool {
    ||| s matches InstallState::Committing { .. }
    ||| s matches InstallState::Done { skipped: false, .. }
    ||| s matches InstallState::Failed { failure } && failure.stage == Stage::Committing
}

/// Once an attempt has reached the committing stage it can never leave
/// the set of commit-reaching states.
pub proof fn lemma_reached_commit_monotone(s: InstallState, evs: Seq<Event>)
    requires
        reached_commit(s),
    ensures
        reached_commit(run_state(s, evs)),
    decreases evs.len(),
{
    if evs.len() > 0 {
        lemma_reached_commit_monotone(spec_step(s, evs[0]).0, evs.drop_first());
    }
}

/// Atomicity at the tool directory: a run that never reaches the
/// committing stage never asks for a `CommitMove` — and `CommitMove` is
/// the only action that writes under the final destination path, so
/// nothing becomes visible there.
pub proof fn lemma_no_commit_before_committing(s: InstallState, evs: Seq<Event>)
    requires
        !reached_commit(run_state(s, evs)),
    ensures
        forall|i: int|
            0 <= i < evs.len() ==> !(#[trigger] run_actions(s, evs)[i]
                matches Action::CommitMove { .. }),
    decreases evs.len(),
{
    if evs.len() > 0 {
        let s1 = spec_step(s, evs[0]).0;
        let a = spec_step(s, evs[0]).1;
        if reached_commit(s1) {
            lemma_reached_commit_monotone(s1, evs.drop_first());
        }
        assert(!reached_commit(run_state(s1, evs.drop_first())));
        lemma_no_commit_before_committing(s1, evs.drop_first());
        assert(!(a matches Action::CommitMove { .. }));
        assert forall|i: int|
            0 <= i < evs.len() implies !(#[trigger] run_actions(s, evs)[i]
            matches Action::CommitMove { .. }) by {
            if i > 0 {
                lemma_run_actions_len(s1, evs.drop_first());
                assert(run_actions(s, evs)[i] == run_actions(s1, evs.drop_first())[i - 1]);
            }
        }
    }
}

/// An interrupted transfer is harmless: if an attempt's download fails or
/// is cancelled, the attempt ends failed in the downloading stage, no
/// matter what is reported afterwards, and the whole run never asks for a
/// `CommitMove` — no file appears at the final destination path and no
/// directory is added under the application's tool directory.
pub proof fn lemma_interrupted_transfer_is_atomic(
    s0: InstallState,
    pre: Seq<Event>,
    e: Event,
    post: Seq<Event>,
)
    requires
        run_state(s0, pre) matches InstallState::Downloading { .. },
        e matches Event::DownloadFailed { .. } || e == Event::DownloadCancelled,
    ensures
        run_state(s0, pre + seq![e] + post) matches InstallState::Failed { failure }
            && failure.stage == Stage::Downloading,
        forall|i: int|
            0 <= i < (pre + seq![e] + post).len() ==> !(#[trigger] run_actions(
                s0,
                pre + seq![e] + post,
            )[i] matches Action::CommitMove { .. }),
{
    let sd = run_state(s0, pre);
    let sf = spec_step(sd, e).0;
    assert(sf matches InstallState::Failed { failure } && failure.stage == Stage::Downloading);
    lemma_run_state_append(s0, pre + seq![e], post);
    lemma_run_state_append(s0, pre, seq![e]);
    assert(run_state(sd, seq![e]) == sf) by {
        assert(seq![e][0] == e);
        assert(seq![e].drop_first() =~= Seq::<Event>::empty());
        assert(run_state(sf, Seq::<Event>::empty()) == sf);
    }
    lemma_terminal_absorbing(sf, post);
    assert(run_state(s0, pre + seq![e] + post) == sf);
    lemma_no_commit_before_committing(s0, pre + seq![e] + post);
}

/// Idempotence of the quick-update flow: when the candidate release is
/// already present in the scanned tool directory and `force` is not set,
/// the attempt finishes as "already installed, skipped" — a success — and
/// the run asks for no `FetchArchive` and no `CommitMove` at all: zero
/// downloads, nothing written.
pub proof fn lemma_already_installed_skips(
    ctx: AttemptCtx,
    entries: Vec<DirEntry>,
    post: Seq<Event>,
)
    requires
        !ctx.force,
        listing_has_version(entries@, ctx.release.tag_name@),
    ensures
        run_state(
            InstallState::CheckingExisting { ctx },
            seq![Event::Existing { entries }] + post,
        ) == (InstallState::Done { ctx, skipped: true }),
        forall|i: int|
            0 <= i < 1 + post.len() ==> #[trigger] run_actions(
                InstallState::CheckingExisting { ctx },
                seq![Event::Existing { entries }] + post,
            )[i] != Action::FetchArchive && !(run_actions(
                InstallState::CheckingExisting { ctx },
                seq![Event::Existing { entries }] + post,
            )[i] matches Action::CommitMove { .. }),
{
    let s0 = InstallState::CheckingExisting { ctx };
    let evs = seq![Event::Existing { entries }] + post;
    assert(evs[0] == Event::Existing { entries });
    let s1 = spec_step(s0, evs[0]).0;
    assert(s1 == (InstallState::Done { ctx, skipped: true }));
    assert(evs.drop_first() =~= post);
    lemma_terminal_absorbing(s1, post);
    assert(run_state(s0, evs) == s1);
    assert forall|i: int|
        0 <= i < evs.len() implies run_actions(s0, evs)[i] != Action::FetchArchive && !(
        run_actions(s0, evs)[i] matches Action::CommitMove { .. }) by {
        if i == 0 {
            assert(run_actions(s0, evs)[0] == Action::Finish);
        } else {
            lemma_run_actions_len(s1, evs.drop_first());
            assert(run_actions(s0, evs)[i] == run_actions(s1, evs.drop_first())[i - 1]);
        }
    }
}

/// Force semantics, first half: with `force` set, an already-present
/// candidate is downloaded again rather than skipped.
pub proof fn lemma_force_redownloads(ctx: AttemptCtx, entries: Vec<DirEntry>)
    requires
        ctx.force,
    ensures
        spec_step(InstallState::CheckingExisting { ctx }, Event::Existing { entries }) == (
        (InstallState::Downloading { ctx }, Action::FetchArchive)),
{
}

/// The force flag an attempt is running under, while it still carries its
/// context.
pub open spec fn force_of(s: InstallState) -> Option<bool> {
    match s {
        InstallState::Resolving { force } => Some(force),
        InstallState::CheckingExisting { ctx } => Some(ctx.force),
        InstallState::Downloading { ctx } => Some(ctx.force),
        InstallState::Extracting { ctx } => Some(ctx.force),
        InstallState::Committing { ctx, .. } => Some(ctx.force),
        InstallState::Done { ctx, .. } => Some(ctx.force),
        InstallState::Failed { .. } => None,
    }
}

/// Force semantics, second half: every `CommitMove` an attempt asks for
/// replaces an existing directory exactly when the attempt runs with
/// `force` — a forced re-install replaces the old directory, an unforced
/// one never overwrites.
pub proof fn lemma_commit_replaces_iff_forced(s: InstallState, evs: Seq<Event>, f: bool)
    requires
        force_of(s) == Some(f),
    ensures
        forall|i: int|
            0 <= i < evs.len() ==> (#[trigger] run_actions(s, evs)[i]
                matches Action::CommitMove { replace_existing } ==> replace_existing == f),
    decreases evs.len(),
{
    if evs.len() > 0 {
        let s1 = spec_step(s, evs[0]).0;
        let a = spec_step(s, evs[0]).1;
        assert(a matches Action::CommitMove { replace_existing } ==> replace_existing == f);
        if s1 matches InstallState::Failed { .. } {
            lemma_terminal_absorbing(s1, evs.drop_first());
        } else {
            assert(force_of(s1) == Some(f));
            lemma_commit_replaces_iff_forced(s1, evs.drop_first(), f);
        }
        assert forall|i: int|
            0 <= i < evs.len() implies (#[trigger] run_actions(s, evs)[i]
            matches Action::CommitMove { replace_existing } ==> replace_existing == f) by {
            if i > 0 {
                lemma_run_actions_len(s1, evs.drop_first());
                assert(run_actions(s, evs)[i] == run_actions(s1, evs.drop_first())[i - 1]);
            }
        }
    }
}

} // verus!
