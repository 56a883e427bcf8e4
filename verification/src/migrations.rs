//! Resetting the database for testing: rolling back and re-applying every
//! migration except the leading ones that run as the privileged user.
//!
//! [`plan_rollback_and_reapply`] checks the migrations and lays out the steps;
//! the caller runs them against the database in order and stops at the first
//! failure, reported by [`step_failure`].

use vstd::prelude::*;
use vstd::string::*;

verus! {

/// A known migration and its status.
#[derive(Clone, Debug, PartialEq, Eq)]
pub struct MigrationEntry {
    /// The migration's identifier (version and name).
    pub identifier: String,
    /// Whether the migration runs as the privileged database user.
    pub run_as_privileged_user: bool,
    /// Whether the migration has a rollback script.
    pub has_rollback_script: bool,
}

/// Why the migrations could not be rolled back and re-applied.
#[derive(Clone, Debug, PartialEq, Eq)]
pub enum RollbackAndReapplyError {
    /// The migration status could not be read.
    StatusError { description: String },
    /// A migration that would be rolled back has no rollback script.
    MissingRollbackScript { migration: String },
    /// A privileged migration follows a non-privileged one.
    UnableToRollbackPrivilegedMigration { migration: String },
    /// The database could not be reached.
    DatabaseError { description: String },
    /// The applied migrations do not match the known ones.
    MigrationIntegrityError { reason: String },
    /// Rolling a migration back failed.
    MigrationRollbackError { migration: String, description: String },
    /// Applying a migration failed.
    MigrationApplyError { migration: String, description: String },
}

/// The text describing a failure to reset the migrations.
pub open spec fn rollback_error_message(e: RollbackAndReapplyError) -> Seq<char> {
    match e {
        RollbackAndReapplyError::StatusError { .. } => "failed to get migration status"@,
        RollbackAndReapplyError::MissingRollbackScript { migration } =>
            "migration "@ + migration@ + " does not have a rollback script"@,
        RollbackAndReapplyError::UnableToRollbackPrivilegedMigration { migration } =>
            "unable to rollback through a non-leading privileged migration: "@ + migration@,
        RollbackAndReapplyError::DatabaseError { .. } => "database error encountered"@,
        RollbackAndReapplyError::MigrationIntegrityError { reason } => "migration integrity error: "@ + reason@,
        RollbackAndReapplyError::MigrationRollbackError { migration, .. } => "failed to rollback migration "@ + migration@,
        RollbackAndReapplyError::MigrationApplyError { migration, .. } => "failed to apply migration "@ + migration@,
    }
}

impl RollbackAndReapplyError {
    /// The text describing this failure.
    pub fn message(&self) -> (r: String)
        ensures
            r@ == rollback_error_message(*self),
    {
        match self {
            RollbackAndReapplyError::StatusError { .. } => String::from_str("failed to get migration status"),
            RollbackAndReapplyError::MissingRollbackScript { migration } => {
                let mut m = String::from_str("migration ");
                m.append(migration.as_str());
                m.append(" does not have a rollback script");
                m
            },
            RollbackAndReapplyError::UnableToRollbackPrivilegedMigration { migration } => {
                let mut m = String::from_str("unable to rollback through a non-leading privileged migration: ");
                m.append(migration.as_str());
                m
            },
            RollbackAndReapplyError::DatabaseError { .. } => String::from_str("database error encountered"),
            RollbackAndReapplyError::MigrationIntegrityError { reason } => {
                let mut m = String::from_str("migration integrity error: ");
                m.append(reason.as_str());
                m
            },
            RollbackAndReapplyError::MigrationRollbackError { migration, .. } => {
                let mut m = String::from_str("failed to rollback migration ");
                m.append(migration.as_str());
                m
            },
            RollbackAndReapplyError::MigrationApplyError { migration, .. } => {
                let mut m = String::from_str("failed to apply migration ");
                m.append(migration.as_str());
                m
            },
        }
    }
}

/// One step of the reset: roll back, or apply, the migration at `index`.
#[derive(Clone, Copy, Debug, PartialEq, Eq, Structural)]
pub enum MigrationStep {
    RollBack { index: usize },
    Apply { index: usize },
}

/// The index of the first migration at or after `from` that does not run as
/// the privileged user (the length when there is none).
pub open spec fn first_unprivileged_from(ms: Seq<MigrationEntry>, from: int) -> int
    decreases ms.len() - from,
{
    if from < 0 || from >= ms.len() {
        ms.len() as int
    } else if ms[from].run_as_privileged_user {
        first_unprivileged_from(ms, from + 1)
    } else {
        from
    }
}

/// The index where the migrations to reset begin: the leading privileged ones are skipped.
pub open spec fn reset_start(ms: Seq<MigrationEntry>) -> int {
    first_unprivileged_from(ms, 0)
}

/// Whether `i` is the first index at or after `start` whose migration has no rollback script.
pub open spec fn is_first_without_rollback(ms: Seq<MigrationEntry>, start: int, i: int) -> bool {
    &&& start <= i < ms.len()
    &&& !ms[i].has_rollback_script
    &&& forall|j: int| start <= j < i ==> (#[trigger] ms[j]).has_rollback_script
}

/// Whether `i` is the first index at or after `start` whose migration runs as the privileged user.
pub open spec fn is_first_privileged(ms: Seq<MigrationEntry>, start: int, i: int) -> bool {
    &&& start <= i < ms.len()
    &&& ms[i].run_as_privileged_user
    &&& forall|j: int| start <= j < i ==> !(#[trigger] ms[j]).run_as_privileged_user
}

/// The steps of resetting migrations `start..len`: roll them all back, last
/// first, then apply them all again, first first.
pub open spec fn reset_steps(start: int, len: int) -> Seq<MigrationStep> {
    let m = len - start;
    Seq::new(m as nat, |k: int| MigrationStep::RollBack { index: (len - 1 - k) as usize })
        + Seq::new(m as nat, |k: int| MigrationStep::Apply { index: (start + k) as usize })
}

proof fn lemma_first_unprivileged_bounds(ms: Seq<MigrationEntry>, from: int)
    requires
        0 <= from <= ms.len(),
    ensures
        from <= first_unprivileged_from(ms, from) <= ms.len(),
        forall|j: int| from <= j < first_unprivileged_from(ms, from) ==> (#[trigger] ms[j]).run_as_privileged_user,
        first_unprivileged_from(ms, from) < ms.len() ==> !ms[first_unprivileged_from(ms, from)].run_as_privileged_user,
    decreases ms.len() - from,
{
    if from < ms.len() && ms[from].run_as_privileged_user {
        lemma_first_unprivileged_bounds(ms, from + 1);
    }
}

/// Checks the migrations and lays out the reset. Fails, in this order, when
/// the migration history lacks down-integrity (with `integrity_description`
/// as the reason), when a migration to reset has no rollback script (the
/// first such one), or when a privileged migration comes after a
/// non-privileged one (the first such one). Otherwise the steps roll back
/// every migration after the leading privileged ones, last first, then apply
/// them again in order; no privileged migration is touched.
pub fn plan_rollback_and_reapply(
    migrations: &Vec<MigrationEntry>,
    has_down_integrity: bool,
    integrity_description: String,
) -> (r: Result<Vec<MigrationStep>, RollbackAndReapplyError>)
    ensures
        !has_down_integrity ==> r == Err::<Vec<MigrationStep>, RollbackAndReapplyError>(
            RollbackAndReapplyError::MigrationIntegrityError { reason: integrity_description }),
        has_down_integrity ==> match r {
            Ok(steps) => {
                &&& steps@ == reset_steps(reset_start(migrations@), migrations@.len() as int)
                &&& forall|i: int| reset_start(migrations@) <= i < migrations@.len()
                    ==> (#[trigger] migrations@[i]).has_rollback_script && !migrations@[i].run_as_privileged_user
            },
            Err(RollbackAndReapplyError::MissingRollbackScript { migration }) => exists|i: int|
                is_first_without_rollback(migrations@, reset_start(migrations@), i) && migration == #[trigger] migrations@[i].identifier,
            Err(RollbackAndReapplyError::UnableToRollbackPrivilegedMigration { migration }) => exists|i: int|
                is_first_privileged(migrations@, reset_start(migrations@), i) && migration == #[trigger] migrations@[i].identifier
                && forall|j: int| reset_start(migrations@) <= j < migrations@.len() ==> (#[trigger] migrations@[j]).has_rollback_script,
            Err(_) => false,
        },
{
    if !has_down_integrity {
        return Err(RollbackAndReapplyError::MigrationIntegrityError { reason: integrity_description });
    }
    let n = migrations.len();
    let ghost ms = migrations@;
    proof { lemma_first_unprivileged_bounds(ms, 0); }
    let mut start: usize = 0;
    while start < n && migrations[start].run_as_privileged_user
        invariant
            n == ms.len(),
            ms == migrations@,
            start <= n,
            first_unprivileged_from(ms, start as int) == reset_start(ms),
        decreases n - start,
    {
        start = start + 1;
    }
    assert(start as int == reset_start(ms));
    let mut i: usize = start;
    while i < n
        invariant
            n == ms.len(),
            ms == migrations@,
            has_down_integrity,
            start as int == reset_start(ms),
            start <= i <= n,
            forall|j: int| start <= j < i ==> (#[trigger] ms[j]).has_rollback_script,
        decreases n - i,
    {
        if !migrations[i].has_rollback_script {
            assert(is_first_without_rollback(ms, start as int, i as int));
            return Err(RollbackAndReapplyError::MissingRollbackScript { migration: migrations[i].identifier.clone() });
        }
        i = i + 1;
    }
    let mut i: usize = start;
    while i < n
        invariant
            n == ms.len(),
            ms == migrations@,
            has_down_integrity,
            start as int == reset_start(ms),
            start <= i <= n,
            forall|j: int| start <= j < n ==> (#[trigger] ms[j]).has_rollback_script,
            forall|j: int| start <= j < i ==> !(#[trigger] ms[j]).run_as_privileged_user,
        decreases n - i,
    {
        if migrations[i].run_as_privileged_user {
            assert(is_first_privileged(ms, start as int, i as int));
            return Err(RollbackAndReapplyError::UnableToRollbackPrivilegedMigration {
                migration: migrations[i].identifier.clone(),
            });
        }
        i = i + 1;
    }
    let mut steps: Vec<MigrationStep> = Vec::new();
    let mut k: usize = n;
    while k > start
        invariant
            n == ms.len(),
            start <= k <= n,
            steps@ == Seq::new((n - k) as nat, |q: int| MigrationStep::RollBack { index: (n - 1 - q) as usize }),
        decreases k,
    {
        k = k - 1;
        steps.push(MigrationStep::RollBack { index: k });
        assert(steps@ =~= Seq::new((n - k) as nat, |q: int| MigrationStep::RollBack { index: (n - 1 - q) as usize }));
    }
    let ghost rollbacks = steps@;
    let mut a: usize = start;
    while a < n
        invariant
            n == ms.len(),
            start <= a <= n,
            rollbacks.len() == n - start,
            steps@ == rollbacks + Seq::new((a - start) as nat, |q: int| MigrationStep::Apply { index: (start + q) as usize }),
        decreases n - a,
    {
        steps.push(MigrationStep::Apply { index: a });
        a = a + 1;
        assert(steps@ =~= rollbacks + Seq::new((a - start) as nat, |q: int| MigrationStep::Apply { index: (start + q) as usize }));
    }
    assert(steps@ =~= reset_steps(start as int, n as int));
    Ok(steps)
}

/// The error for a step that failed with `description`.
pub fn step_failure(migrations: &Vec<MigrationEntry>, step: MigrationStep, description: String) -> (r: RollbackAndReapplyError)
    requires
        match step {
            MigrationStep::RollBack { index } => index < migrations@.len(),
            MigrationStep::Apply { index } => index < migrations@.len(),
        },
    ensures
        r == match step {
            MigrationStep::RollBack { index } => RollbackAndReapplyError::MigrationRollbackError {
                migration: migrations@[index as int].identifier,
                description,
            },
            MigrationStep::Apply { index } => RollbackAndReapplyError::MigrationApplyError {
                migration: migrations@[index as int].identifier,
                description,
            },
        },
{
    match step {
        MigrationStep::RollBack { index } => RollbackAndReapplyError::MigrationRollbackError {
            migration: migrations[index].identifier.clone(),
            description,
        },
        MigrationStep::Apply { index } => RollbackAndReapplyError::MigrationApplyError {
            migration: migrations[index].identifier.clone(),
            description,
        },
    }
}

/// In a reset plan every reset migration is rolled back exactly once and
/// re-applied exactly once, and all rollbacks come before the first
/// re-application: the database passes through the state with none of them
/// applied.
pub proof fn lemma_reset_touches_each_migration_twice(start: int, len: int, index: int)
    requires
        0 <= start <= index < len,
        len <= usize::MAX,
    ensures
        exists|k: int| 0 <= k < len - start && #[trigger] reset_steps(start, len)[k] == (MigrationStep::RollBack { index: index as usize }),
        exists|k: int| len - start <= k < 2 * (len - start) && #[trigger] reset_steps(start, len)[k] == (MigrationStep::Apply { index: index as usize }),
        forall|k: int| 0 <= k < 2 * (len - start) && #[trigger] reset_steps(start, len)[k] == (MigrationStep::RollBack { index: index as usize })
            ==> k == len - 1 - index,
        forall|k: int| 0 <= k < 2 * (len - start) && #[trigger] reset_steps(start, len)[k] == (MigrationStep::Apply { index: index as usize })
            ==> k == (len - start) + (index - start),
{
    let steps = reset_steps(start, len);
    let m = len - start;
    assert(steps[len - 1 - index] == MigrationStep::RollBack { index: index as usize });
    assert(steps[m + (index - start)] == MigrationStep::Apply { index: index as usize });
    assert forall|k: int| 0 <= k < 2 * m && #[trigger] steps[k] == (MigrationStep::RollBack { index: index as usize }) implies k == len - 1 - index by {
        if k >= m {
            assert(steps[k] is Apply);
        } else {
            assert(steps[k] == MigrationStep::RollBack { index: (len - 1 - k) as usize });
        }
    }
    assert forall|k: int| 0 <= k < 2 * m && #[trigger] steps[k] == (MigrationStep::Apply { index: index as usize }) implies k == m + (index - start) by {
        if k < m {
            assert(steps[k] is RollBack);
        } else {
            assert(steps[k] == MigrationStep::Apply { index: (start + (k - m)) as usize });
        }
    }
}

} // verus!
