//! Quick-download batch semantics: the installer is invoked once per
//! detected application, a failure on one application is recorded and
//! does not prevent attempting the rest, and the batch's overall result
//! is the successful installs plus the per-application failures.

use vstd::prelude::*;
use crate::apps::Application;
use crate::errors::Failure;
use crate::release::Release;
use crate::store::InstalledVersion;

verus! {

/// How one application's attempt ended well.
pub enum AttemptSuccess {
    /// A release was downloaded, extracted and committed.
    Installed { version: InstalledVersion, release: Release },
    /// The latest release was already present and `force` was not set:
    /// nothing was downloaded.
    AlreadyInstalled { release: Release },
}

/// One attempt within a batch, with how it ended; `app` is `None` for a
/// user-supplied custom location.
pub struct AppAttempt {
    pub app: Option<Application>,
    pub result: Result<AttemptSuccess, Failure>,
}

/// A finished batch: every attempted application appears in exactly one
/// of the three lists, in attempt order.
pub struct BatchOutcome {
    pub installed: Vec<AppAttempt>,
    pub skipped: Vec<AppAttempt>,
    pub failures: Vec<AppAttempt>,
}

/// Splits a sequence of finished attempts into installs, skips and
/// failures, keeping order.
pub open spec fn spec_split(rs: Seq<AppAttempt>) -> (Seq<AppAttempt>, Seq<AppAttempt>, Seq<
    AppAttempt,
>)
    decreases rs.len(),
{
    if rs.len() == 0 {
        (Seq::empty(), Seq::empty(), Seq::empty())
    } else {
        let rest = spec_split(rs.drop_first());
        if rs[0].result matches Ok(AttemptSuccess::Installed { .. }) {
            (seq![rs[0]] + rest.0, rest.1, rest.2)
        } else if rs[0].result matches Ok(AttemptSuccess::AlreadyInstalled { .. }) {
            (rest.0, seq![rs[0]] + rest.1, rest.2)
        } else {
            (rest.0, rest.1, seq![rs[0]] + rest.2)
        }
    }
}

/// How many attempts in the sequence failed.
pub open spec fn err_count(rs: Seq<AppAttempt>) -> nat
    decreases rs.len(),
{
    if rs.len() == 0 {
        0
    } else {
        (if rs[0].result matches Err(_) {
            1nat
        } else {
            0nat
        }) + err_count(rs.drop_first())
    }
}

/// Summarizes a finished batch exactly as [`spec_split`] says.
pub fn summarize_batch(results: Vec<AppAttempt>) -> (r: BatchOutcome)
    ensures
        r.installed@ == spec_split(results@).0,
        r.skipped@ == spec_split(results@).1,
        r.failures@ == spec_split(results@).2,
{
    let mut rest = results;
    let mut installed: Vec<AppAttempt> = Vec::new();
    let mut skipped: Vec<AppAttempt> = Vec::new();
    let mut failures: Vec<AppAttempt> = Vec::new();
    while rest.len() > 0
        invariant
            spec_split(results@).0 == installed@ + spec_split(rest@).0,
            spec_split(results@).1 == skipped@ + spec_split(rest@).1,
            spec_split(results@).2 == failures@ + spec_split(rest@).2,
        decreases rest@.len(),
    {
        let ghost before = rest@;
        let x = rest.remove(0);
        proof {
            assert(before.remove(0) =~= before.drop_first());
            assert(rest@ =~= before.drop_first());
        }
        match &x.result {
            Ok(AttemptSuccess::Installed { .. }) => {
                installed.push(x);
                proof {
                    assert(spec_split(results@).0 =~= installed@ + spec_split(rest@).0);
                }
            },
            Ok(AttemptSuccess::AlreadyInstalled { .. }) => {
                skipped.push(x);
                proof {
                    assert(spec_split(results@).1 =~= skipped@ + spec_split(rest@).1);
                }
            },
            Err(_) => {
                failures.push(x);
                proof {
                    assert(spec_split(results@).2 =~= failures@ + spec_split(rest@).2);
                }
            },
        }
    }
    proof {
        assert(installed@ + spec_split(rest@).0 =~= installed@);
        assert(skipped@ + spec_split(rest@).1 =~= skipped@);
        assert(failures@ + spec_split(rest@).2 =~= failures@);
    }
    BatchOutcome { installed, skipped, failures }
}

/// Batch isolation: every attempt is accounted for exactly once — the
/// failures list enumerates exactly the failed attempts, and a failure
/// on one application takes nothing away from the successes of the
/// others.
pub proof fn lemma_batch_partition(rs: Seq<AppAttempt>)
    ensures
        spec_split(rs).2.len() == err_count(rs),
        spec_split(rs).0.len() + spec_split(rs).1.len() + err_count(rs) == rs.len(),
        forall|i: int|
            0 <= i < spec_split(rs).0.len() ==> #[trigger] spec_split(rs).0[i].result matches Ok(
                AttemptSuccess::Installed { .. },
            ),
        forall|i: int|
            0 <= i < spec_split(rs).1.len() ==> #[trigger] spec_split(rs).1[i].result matches Ok(
                AttemptSuccess::AlreadyInstalled { .. },
            ),
        forall|i: int|
            0 <= i < spec_split(rs).2.len() ==> #[trigger] spec_split(rs).2[i].result matches Err(
                _,
            ),
    decreases rs.len(),
{
    if rs.len() > 0 {
        lemma_batch_partition(rs.drop_first());
    }
}

/// Idempotence of the quick-update flow, as the batch reports it: when
/// every attempt found its candidate already installed — as a second run
/// straight after a successful one does — the batch reports every target
/// as skipped, nothing installed and nothing failed.
pub proof fn lemma_all_already_installed(rs: Seq<AppAttempt>)
    requires
        forall|i: int|
            0 <= i < rs.len() ==> (#[trigger] rs[i].result) matches Ok(
                AttemptSuccess::AlreadyInstalled { .. },
            ),
    ensures
        spec_split(rs).0.len() == 0,
        spec_split(rs).1 == rs,
        spec_split(rs).2.len() == 0,
    decreases rs.len(),
{
    if rs.len() > 0 {
        assert forall|i: int|
            0 <= i < rs.drop_first().len() implies (#[trigger] rs.drop_first()[i].result) matches Ok(
            AttemptSuccess::AlreadyInstalled { .. },
        ) by {
            assert(rs.drop_first()[i] == rs[i + 1]);
        }
        lemma_all_already_installed(rs.drop_first());
        assert(rs[0].result matches Ok(AttemptSuccess::AlreadyInstalled { .. }));
        assert(spec_split(rs).1 =~= rs);
    }
}

} // verus!
