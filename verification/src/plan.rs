//! Endpoint decision plans.
//!
//! An endpoint first runs a sequence of guards. A guard either holds or fails
//! outright (it depends only on the request), or asks the database a yes/no
//! question. The first guard that fails decides the endpoint's result; when all
//! hold, the endpoint goes on to its actual work.
//!
//! The plan runner below hands the questions out one at a time ([`first_step`],
//! [`step_after_answer`]); [`lemma_driven_run_matches_outcome`] shows that
//! answering them from any database state ends exactly where
//! [`plan_outcome`] says.

use vstd::prelude::*;
use crate::permissions::Permission;
use crate::responses::{EndpointError, EndpointResult};

verus! {

/// A yes/no question about the database state.
#[derive(Clone, Debug, PartialEq, Eq)]
pub enum Probe {
    UserHasPermission { user_id: u128, permission: Permission },
    UserExists { user_id: u128 },
    UsernameTaken { username: String },
    DisplayNameTaken { display_name: String },
    CategoryExists { category_id: u128 },
    CategorySloveneNameTaken { name: String },
    CategoryEnglishNameTaken { name: String },
    /// Whether a category other than `category_id` has the Slovene name `name`.
    CategorySloveneNameTakenByOther { name: String, category_id: u128 },
    /// Whether a category other than `category_id` has the English name `name`.
    CategoryEnglishNameTakenByOther { name: String, category_id: u128 },
    EnglishWordExists { word_id: u128 },
    EnglishLemmaTaken { lemma: String },
    SloveneWordExists { word_id: u128 },
    SloveneLemmaTaken { lemma: String },
    EnglishMeaningExists { meaning_id: u128 },
    SloveneMeaningExists { meaning_id: u128 },
    EnglishMeaningOfWordExists { word_id: u128, meaning_id: u128 },
    SloveneMeaningOfWordExists { word_id: u128, meaning_id: u128 },
    IdenticalEnglishMeaningExists {
        disambiguation: Option<String>,
        abbreviation: Option<String>,
        description: Option<String>,
    },
    IdenticalSloveneMeaningExists {
        disambiguation: Option<String>,
        abbreviation: Option<String>,
        description: Option<String>,
    },
    TranslationExists { english_meaning_id: u128, slovene_meaning_id: u128 },
    SuggestionExists { english_word_id: u128, slovene_word_id: u128 },
}

/// What a guard checks.
#[derive(Clone, Debug, PartialEq, Eq)]
pub enum Check {
    /// A condition known from the request alone.
    Holds(bool),
    /// A question to the database; the guard holds when the answer is `pass_when`.
    Ask { probe: Probe, pass_when: bool },
}

/// One guard: a check, and the result of the endpoint should it fail.
#[derive(Debug, PartialEq, Eq)]
pub struct Guard {
    pub check: Check,
    pub rejection: EndpointResult,
}

/// The next step of running a plan.
#[derive(Clone, Copy, Debug, PartialEq, Eq, Structural)]
pub enum PlanStep {
    /// The guard at `index` asks the database a question (see [`probe_of`]).
    Ask { index: usize },
    /// The guard at `index` failed; the endpoint ends with its rejection (see [`rejection_of`]).
    Reject { index: usize },
    /// All guards held.
    Proceed,
}

/// A guard that holds exactly when `holds`.
pub open spec fn holds_guard(holds: bool, rejection: EndpointResult) -> Guard {
    Guard { check: Check::Holds(holds), rejection }
}

/// A guard that holds exactly when the database answers `probe` with `pass_when`.
pub open spec fn ask_guard(probe: Probe, pass_when: bool, rejection: EndpointResult) -> Guard {
    Guard { check: Check::Ask { probe, pass_when }, rejection }
}

/// Whether guard `g` holds when the database answers questions by `db`.
pub open spec fn guard_holds(g: Guard, db: spec_fn(Probe) -> bool) -> bool {
    match g.check {
        Check::Holds(b) => b,
        Check::Ask { probe, pass_when } => db(probe) == pass_when,
    }
}

/// The result of running the guards from index `from` on, against database `db`:
/// the rejection of the first failing guard, or `None` when all hold.
pub open spec fn plan_outcome(guards: Seq<Guard>, from: int, db: spec_fn(Probe) -> bool) -> Option<EndpointResult>
    decreases guards.len() - from,
{
    if from < 0 || from >= guards.len() {
        None
    } else if guard_holds(guards[from], db) {
        plan_outcome(guards, from + 1, db)
    } else {
        Some(guards[from].rejection)
    }
}

/// Where scanning from index `from` stops: at the first guard that is a question
/// or that fails outright (its index), or past the end (`guards.len()`).
pub open spec fn scan_stop(guards: Seq<Guard>, from: int) -> int
    decreases guards.len() - from,
{
    if from < 0 || from >= guards.len() {
        guards.len() as int
    } else {
        match guards[from].check {
            Check::Holds(true) => scan_stop(guards, from + 1),
            _ => from,
        }
    }
}

/// The plan step for having scanned from index `from`.
pub open spec fn scan_step(guards: Seq<Guard>, from: int) -> PlanStep {
    let stop = scan_stop(guards, from);
    if stop >= guards.len() {
        PlanStep::Proceed
    } else {
        match guards[stop].check {
            Check::Ask { .. } => PlanStep::Ask { index: stop as usize },
            Check::Holds(_) => PlanStep::Reject { index: stop as usize },
        }
    }
}

/// The plan step after the question of guard `index` was answered with `answer`.
pub open spec fn answer_step(guards: Seq<Guard>, index: int, answer: bool) -> PlanStep {
    match guards[index].check {
        Check::Ask { pass_when, .. } =>
            if answer == pass_when { scan_step(guards, index + 1) } else { PlanStep::Reject { index: index as usize } },
        Check::Holds(_) => PlanStep::Reject { index: index as usize },
    }
}

/// Where answering the questions handed out from `db` leads, starting from
/// step `step` and answering at most `fuel` questions.
pub open spec fn drive(guards: Seq<Guard>, step: PlanStep, db: spec_fn(Probe) -> bool, fuel: nat) -> Option<EndpointResult>
    decreases fuel,
{
    match step {
        PlanStep::Proceed => None,
        PlanStep::Reject { index } => Some(guards[index as int].rejection),
        PlanStep::Ask { index } => {
            if fuel == 0 {
                None
            } else {
                match guards[index as int].check {
                    Check::Ask { probe, .. } => drive(guards, answer_step(guards, index as int, db(probe)), db, (fuel - 1) as nat),
                    Check::Holds(_) => Some(guards[index as int].rejection),
                }
            }
        },
    }
}

proof fn lemma_scan_stop_bounds(guards: Seq<Guard>, from: int)
    requires
        0 <= from,
    ensures
        from <= scan_stop(guards, from) <= guards.len() || (from > guards.len() && scan_stop(guards, from) == guards.len()),
        scan_stop(guards, from) < guards.len() ==> !(guards[scan_stop(guards, from)].check matches Check::Holds(true)),
        forall|k: int| from <= k < scan_stop(guards, from) ==> guards[k].check == Check::Holds(true),
    decreases guards.len() - from,
{
    if from < guards.len() {
        match guards[from].check {
            Check::Holds(true) => { lemma_scan_stop_bounds(guards, from + 1); },
            _ => {},
        }
    }
}

proof fn lemma_scan_skips_holding_guards(guards: Seq<Guard>, from: int, db: spec_fn(Probe) -> bool)
    requires
        0 <= from,
    ensures
        plan_outcome(guards, from, db) == plan_outcome(guards, scan_stop(guards, from), db),
    decreases guards.len() - from,
{
    if from < guards.len() {
        match guards[from].check {
            Check::Holds(true) => { lemma_scan_skips_holding_guards(guards, from + 1, db); },
            _ => {},
        }
    }
}

/// Running a plan step by step, answering each question the runner hands out
/// from a fixed database state `db`, ends with exactly the outcome of the plan
/// for that state: the rejection of the first failing guard, or proceeding
/// when all guards hold. At most one question per guard is ever asked.
pub proof fn lemma_driven_run_matches_outcome(guards: Seq<Guard>, from: int, db: spec_fn(Probe) -> bool, fuel: nat)
    requires
        0 <= from <= guards.len(),
        guards.len() <= usize::MAX,
        fuel >= guards.len() - from,
    ensures
        drive(guards, scan_step(guards, from), db, fuel) == plan_outcome(guards, from, db),
    decreases guards.len() - from,
{
    lemma_scan_stop_bounds(guards, from);
    lemma_scan_skips_holding_guards(guards, from, db);
    let stop = scan_stop(guards, from);
    if stop < guards.len() {
        match guards[stop].check {
            Check::Ask { probe, pass_when } => {
                let idx = stop as usize;
                assert(idx as int == stop);
                assert(scan_step(guards, from) == PlanStep::Ask { index: idx });
                if db(probe) == pass_when {
                    lemma_driven_run_matches_outcome(guards, stop + 1, db, (fuel - 1) as nat);
                    assert(answer_step(guards, stop, db(probe)) == scan_step(guards, stop + 1));
                    assert(drive(guards, PlanStep::Ask { index: idx }, db, fuel) == drive(guards, scan_step(guards, stop + 1), db, (fuel - 1) as nat));
                } else {
                    assert(answer_step(guards, stop, db(probe)) == PlanStep::Reject { index: idx });
                    assert(drive(guards, PlanStep::Ask { index: idx }, db, fuel) == drive(guards, PlanStep::Reject { index: idx }, db, (fuel - 1) as nat));
                }
            },
            Check::Holds(b) => {
                let idx = stop as usize;
                assert(idx as int == stop);
                assert(!b);
                assert(scan_step(guards, from) == PlanStep::Reject { index: idx });
            },
        }
    } else {
        assert(scan_step(guards, from) == PlanStep::Proceed);
    }
}

/// When a plan proceeds from index `from`, every guard from there on holds.
pub proof fn lemma_proceeding_means_all_guards_hold(guards: Seq<Guard>, from: int, db: spec_fn(Probe) -> bool)
    requires
        0 <= from,
        plan_outcome(guards, from, db) is None,
    ensures
        forall|i: int| from <= i < guards.len() ==> guard_holds(#[trigger] guards[i], db),
    decreases guards.len() - from,
{
    if from < guards.len() {
        lemma_proceeding_means_all_guards_hold(guards, from + 1, db);
    }
}

/// Guards that hold do not change where a plan ends: the outcome from `from`
/// is the outcome from `k` when every guard in between holds.
pub proof fn lemma_outcome_after_holding_prefix(guards: Seq<Guard>, k: int, from: int, db: spec_fn(Probe) -> bool)
    requires
        0 <= from <= k <= guards.len(),
        forall|i: int| from <= i < k ==> guard_holds(#[trigger] guards[i], db),
    ensures
        plan_outcome(guards, from, db) == plan_outcome(guards, k, db),
    decreases k - from,
{
    if from < k {
        lemma_outcome_after_holding_prefix(guards, k, from + 1, db);
    }
}

/// A plan proceeds exactly when every one of its guards holds.
pub proof fn lemma_plan_proceeds_iff_all_guards_hold(guards: Seq<Guard>, db: spec_fn(Probe) -> bool)
    ensures
        plan_outcome(guards, 0, db) is None <==> forall|i: int| 0 <= i < guards.len() ==> guard_holds(#[trigger] guards[i], db),
{
    if plan_outcome(guards, 0, db) is None {
        lemma_proceeding_means_all_guards_hold(guards, 0, db);
    }
    if forall|i: int| 0 <= i < guards.len() ==> guard_holds(#[trigger] guards[i], db) {
        lemma_outcome_after_holding_prefix(guards, guards.len() as int, 0, db);
    }
}

/// Whether every guard of `guards` holds against `db`.
pub open spec fn all_hold(guards: Seq<Guard>, db: spec_fn(Probe) -> bool) -> bool {
    forall|i: int| 0 <= i < guards.len() ==> guard_holds(#[trigger] guards[i], db)
}

/// All guards of two plans in a row hold exactly when all guards of each hold;
/// no guards always hold, and one guard holds when it holds.
pub proof fn lemma_all_hold_concat(a: Seq<Guard>, b: Seq<Guard>, db: spec_fn(Probe) -> bool)
    ensures
        all_hold(a + b, db) <==> all_hold(a, db) && all_hold(b, db),
        all_hold(Seq::<Guard>::empty(), db),
{
    if all_hold(a + b, db) {
        assert forall|i: int| 0 <= i < a.len() implies guard_holds(#[trigger] a[i], db) by {
            assert((a + b)[i] == a[i]);
        }
        assert forall|i: int| 0 <= i < b.len() implies guard_holds(#[trigger] b[i], db) by {
            assert((a + b)[a.len() + i] == b[i]);
        }
    }
    if all_hold(a, db) && all_hold(b, db) {
        assert forall|i: int| 0 <= i < (a + b).len() implies guard_holds(#[trigger] (a + b)[i], db) by {
            if i < a.len() {
                assert((a + b)[i] == a[i]);
            } else {
                assert((a + b)[i] == b[i - a.len()]);
            }
        }
    }
}

/// A single guard, or a few in a row, all hold exactly when each holds.
pub proof fn lemma_all_hold_small(g1: Guard, g2: Guard, g3: Guard, db: spec_fn(Probe) -> bool)
    ensures
        all_hold(seq![g1], db) <==> guard_holds(g1, db),
        all_hold(seq![g1, g2], db) <==> guard_holds(g1, db) && guard_holds(g2, db),
        all_hold(seq![g1, g2, g3], db) <==> guard_holds(g1, db) && guard_holds(g2, db) && guard_holds(g3, db),
{
    assert(seq![g1][0] == g1);
    assert(seq![g1, g2][0] == g1 && seq![g1, g2][1] == g2);
    assert(seq![g1, g2, g3][0] == g1 && seq![g1, g2, g3][1] == g2 && seq![g1, g2, g3][2] == g3);
}

/// The guards of an ID read from the request all hold exactly when it parsed.
pub proof fn lemma_uuid_guards_hold(id: Result<u128, EndpointError>, db: spec_fn(Probe) -> bool)
    ensures
        all_hold(uuid_guards(id), db) <==> id is Ok,
{
    match id {
        Ok(_) => {},
        Err(e) => { assert(uuid_guards(id)[0] == holds_guard(false, Err(e))); },
    }
}

proof fn lemma_outcome_shift(prefix: Seq<Guard>, rest: Seq<Guard>, i: int, db: spec_fn(Probe) -> bool)
    requires
        0 <= i <= rest.len(),
    ensures
        plan_outcome(prefix + rest, prefix.len() + i, db) == plan_outcome(rest, i, db),
    decreases rest.len() - i,
{
    if i < rest.len() {
        lemma_outcome_shift(prefix, rest, i + 1, db);
        assert((prefix + rest)[prefix.len() + i] == rest[i]);
    }
}

/// Guards in front that all hold do not change where a plan ends.
pub proof fn lemma_skip_holding_prefix(prefix: Seq<Guard>, rest: Seq<Guard>, db: spec_fn(Probe) -> bool)
    requires
        all_hold(prefix, db),
    ensures
        plan_outcome(prefix + rest, 0, db) == plan_outcome(rest, 0, db),
{
    let all = prefix + rest;
    assert forall|i: int| 0 <= i < prefix.len() implies guard_holds(#[trigger] all[i], db) by {
        assert(all[i] == prefix[i]);
    }
    lemma_outcome_after_holding_prefix(all, prefix.len() as int, 0, db);
    lemma_outcome_shift(prefix, rest, 0, db);
}

/// A plan goes ahead exactly when all of its guards hold.
pub proof fn lemma_proceeds_iff_all_hold(guards: Seq<Guard>, db: spec_fn(Probe) -> bool)
    ensures
        plan_outcome(guards, 0, db) is None <==> all_hold(guards, db),
{
    lemma_plan_proceeds_iff_all_guards_hold(guards, db);
}

/// The first step of running `guards` from index `from` on.
pub fn first_step(guards: &Vec<Guard>, from: usize) -> (r: PlanStep)
    ensures
        r == scan_step(guards@, from as int),
{
    let mut i = from;
    proof { lemma_scan_stop_bounds(guards@, from as int); }
    while i < guards.len()
        invariant
            from <= i || guards@.len() <= i,
            scan_stop(guards@, from as int) == scan_stop(guards@, i as int),
        decreases guards@.len() - i,
    {
        match &guards[i].check {
            Check::Holds(true) => {},
            Check::Holds(false) => {
                return PlanStep::Reject { index: i };
            },
            Check::Ask { .. } => {
                return PlanStep::Ask { index: i };
            },
        }
        i = i + 1;
    }
    PlanStep::Proceed
}

/// The step after the question of guard `index` was answered with `answer`.
pub fn step_after_answer(guards: &Vec<Guard>, index: usize, answer: bool) -> (r: PlanStep)
    requires
        index < guards@.len(),
    ensures
        r == answer_step(guards@, index as int, answer),
{
    let n = guards.len();
    match &guards[index].check {
        Check::Ask { pass_when, .. } => {
            if answer == *pass_when {
                first_step(guards, index + 1)
            } else {
                PlanStep::Reject { index }
            }
        },
        Check::Holds(_) => PlanStep::Reject { index },
    }
}

/// The question asked by guard `index`.
pub fn probe_of(guards: &Vec<Guard>, index: usize) -> (r: &Probe)
    requires
        index < guards@.len(),
        guards@[index as int].check is Ask,
    ensures
        guards@[index as int].check == (Check::Ask { probe: *r, pass_when: guards@[index as int].check->pass_when }),
{
    match &guards[index].check {
        Check::Ask { probe, .. } => probe,
        Check::Holds(_) => {
            vstd::pervasive::unreached()
        },
    }
}

/// The rejection of guard `index`, taken out of the plan.
pub fn rejection_of(guards: Vec<Guard>, index: usize) -> (r: EndpointResult)
    requires
        index < guards@.len(),
    ensures
        r == guards@[index as int].rejection,
{
    let mut guards = guards;
    let g = guards.swap_remove(index);
    g.rejection
}

/// The guards for a UUID parsed from the request: none when it parsed,
/// otherwise one that fails with the parse error.
pub open spec fn uuid_guards(id: Result<u128, EndpointError>) -> Seq<Guard> {
    match id {
        Ok(_) => seq![],
        Err(e) => seq![holds_guard(false, Err(e))],
    }
}

/// Appends the guards for a UUID parsed from the request; gives the UUID back when it parsed.
pub fn push_uuid_guard(guards: &mut Vec<Guard>, id: &Result<u128, EndpointError>) -> (r: Option<u128>)
    ensures
        final(guards)@ == old(guards)@ + uuid_guards(*id),
        r == match *id { Ok(v) => Some(v), Err(_) => None::<u128> },
{
    match id {
        Ok(v) => {
            assert(guards@ =~= old(guards)@ + uuid_guards(*id));
            Some(*v)
        },
        Err(e) => {
            guards.push(Guard { check: Check::Holds(false), rejection: Err(e.duplicate()) });
            assert(guards@ =~= old(guards)@ + uuid_guards(*id));
            None
        },
    }
}

/// Appends a guard that holds exactly when `holds`.
pub fn push_holds(guards: &mut Vec<Guard>, holds: bool, rejection: EndpointResult)
    ensures
        final(guards)@ == old(guards)@.push(holds_guard(holds, rejection)),
{
    guards.push(Guard { check: Check::Holds(holds), rejection });
}

/// Appends a guard that asks the database `probe`.
pub fn push_ask(guards: &mut Vec<Guard>, probe: Probe, pass_when: bool, rejection: EndpointResult)
    ensures
        final(guards)@ == old(guards)@.push(ask_guard(probe, pass_when, rejection)),
{
    guards.push(Guard { check: Check::Ask { probe, pass_when }, rejection });
}

} // verus!
