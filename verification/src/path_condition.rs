//! The path-existence check.
//!
//! The `paths` argument arrives in one of several recognized shapes — a
//! single textual path, a single path-like value, a fixed sequence, or a
//! generic consume-once stream — and is first normalized by [`classify`]
//! into a [`PathSet`].  Every descriptor is then probed for presence on the
//! filesystem, under one of two execution modes: `raise` fails on the first
//! absent path and probes nothing after it, `return` probes every path and
//! hands back a [`PathReport`] listing all absent ones in input order,
//! together with one representative failure for the first of them.
//!
//! The probe itself is the one unverified step; [`report_for`] carries the
//! whole decision from probe results to outcome and is verified for every
//! combination of them.

use vstd::prelude::*;

use crate::helper::{
    check_handle_warning_with, failure_equiv, policy_resolved, ErrorKind, ResolvedFailure, Severity,
};
use crate::toggle::{checks_enabled, is_enabled, str_equal};

verus! {

/// The shapes the checker recognizes in its `paths` argument, classified
/// once per call.
#[derive(Debug)]
pub enum PathsInput {
    /// A single textual path.
    Text { path: String },
    /// A single value of the host environment's path abstraction.
    PathLike { path: String },
    /// An ordered, indexable collection of descriptors.
    Sequence { paths: Vec<String> },
    /// A single-pass iterable of descriptors, consumed exactly once.
    Stream { paths: Vec<String> },
    /// Anything else: not a recognized path shape.
    Unrecognized,
}

/// The normalized path set the classifier produces.
#[derive(Debug)]
pub enum PathSet {
    Scalar { path: String },
    FixedSequence { paths: Vec<String> },
    GenericIterable { paths: Vec<String> },
}

/// The report a `return`-mode check hands back: every absent path in input
/// traversal order, and one representative failure exactly when any path is
/// absent.
#[derive(Debug)]
pub struct PathReport {
    pub failure: Option<ResolvedFailure>,
    pub missing: Vec<String>,
}

/// The descriptors an input holds, in traversal order.
pub open spec fn input_paths(paths: PathsInput) -> Seq<String> {
    match paths {
        PathsInput::Text { path } => seq![path],
        PathsInput::PathLike { path } => seq![path],
        PathsInput::Sequence { paths } => paths@,
        PathsInput::Stream { paths } => paths@,
        PathsInput::Unrecognized => Seq::<String>::empty(),
    }
}

/// The usage error for an argument that is no recognized path shape.
pub open spec fn unrecognized_paths_failure(f: ResolvedFailure) -> bool {
    &&& f.kind == ErrorKind::TypeError
    &&& f.severity == Severity::Error
    &&& f.message@ == "Argument paths must be string"@
}

/// Normalizes the argument into a path set; anything unrecognized is a type
/// error.  The dispatch order — text, path-like, fixed sequence, generic
/// iterable — is encoded in the match, first shape wins, and a stream is
/// taken by ownership so it can never be classified twice.
pub fn classify(paths: PathsInput) -> (r: Result<PathSet, ResolvedFailure>)
    ensures
        (paths matches PathsInput::Text { path } ==> (r matches Ok(ps) && ps == (
        PathSet::Scalar { path }))),
        (paths matches PathsInput::PathLike { path } ==> (r matches Ok(ps) && ps == (
        PathSet::Scalar { path }))),
        (paths matches PathsInput::Sequence { paths: v } ==> (r matches Ok(ps) && ps == (
        PathSet::FixedSequence { paths: v }))),
        (paths matches PathsInput::Stream { paths: v } ==> (r matches Ok(ps) && ps == (
        PathSet::GenericIterable { paths: v }))),
        (paths is Unrecognized ==> (r matches Err(f) && unrecognized_paths_failure(f))),
{
    match paths {
        PathsInput::Text { path } => Ok(PathSet::Scalar { path }),
        PathsInput::PathLike { path } => Ok(PathSet::Scalar { path }),
        PathsInput::Sequence { paths } => Ok(PathSet::FixedSequence { paths }),
        PathsInput::Stream { paths } => Ok(PathSet::GenericIterable { paths }),
        PathsInput::Unrecognized => Err(
            ResolvedFailure {
                kind: ErrorKind::TypeError,
                severity: Severity::Error,
                message: "Argument paths must be string".to_owned(),
            },
        ),
    }
}

/// Relies on std::path::Path::exists: whether the filesystem reports the
/// path as present right now.  A probe that cannot be carried out counts as
/// absent, and nothing is promised of the result: what is on disk is outside
/// the library.
#[verifier::external_body]
fn path_exists(path: &String) -> bool {
    std::path::Path::new(path.as_str()).exists()
}

/// The absent paths, in traversal order, given each path's probed presence.
pub open spec fn missing_of(paths: Seq<String>, present: Seq<bool>) -> Seq<String>
    decreases paths.len(),
{
    if paths.len() == 0 || present.len() == 0 {
        Seq::<String>::empty()
    } else if present[0] {
        missing_of(paths.drop_first(), present.drop_first())
    } else {
        seq![paths[0]] + missing_of(paths.drop_first(), present.drop_first())
    }
}

pub proof fn lemma_missing_of_push(paths: Seq<String>, present: Seq<bool>, p: String, b: bool)
    requires
        paths.len() == present.len(),
    ensures
        missing_of(paths.push(p), present.push(b)) == missing_of(paths, present) + (if b {
            Seq::<String>::empty()
        } else {
            seq![p]
        }),
    decreases paths.len(),
{
    let tail: Seq<String> = if b {
        Seq::<String>::empty()
    } else {
        seq![p]
    };
    if paths.len() == 0 {
        assert(paths.push(p) =~= seq![p]);
        assert(present.push(b) =~= seq![b]);
        assert(seq![p].drop_first() =~= Seq::<String>::empty());
        assert(seq![b].drop_first() =~= Seq::<bool>::empty());
        assert(missing_of(Seq::<String>::empty(), Seq::<bool>::empty())
            == Seq::<String>::empty());
        if b {
            assert(missing_of(seq![p], seq![b]) == Seq::<String>::empty());
            assert(missing_of(paths.push(p), present.push(b)) =~= missing_of(paths, present)
                + tail);
        } else {
            assert(missing_of(seq![p], seq![b]) == seq![p] + Seq::<String>::empty());
            assert(missing_of(paths.push(p), present.push(b)) =~= missing_of(paths, present)
                + tail);
        }
    } else {
        lemma_missing_of_push(paths.drop_first(), present.drop_first(), p, b);
        assert(paths.push(p).drop_first() =~= paths.drop_first().push(p));
        assert(present.push(b).drop_first() =~= present.drop_first().push(b));
        let m = missing_of(paths.drop_first(), present.drop_first());
        if present[0] {
            assert(missing_of(paths.push(p), present.push(b)) =~= missing_of(paths, present)
                + tail);
        } else {
            assert(seq![paths[0]] + (m + tail) =~= (seq![paths[0]] + m) + tail);
            assert(missing_of(paths.push(p), present.push(b)) =~= missing_of(paths, present)
                + tail);
        }
    }
}

pub proof fn lemma_missing_of_skip(paths: Seq<String>, present: Seq<bool>, i: int)
    requires
        paths.len() == present.len(),
        0 <= i <= paths.len(),
        forall|j: int| 0 <= j < i ==> present[j],
    ensures
        missing_of(paths, present) == missing_of(paths.skip(i), present.skip(i)),
    decreases i,
{
    if i == 0 {
        assert(paths.skip(0) =~= paths);
        assert(present.skip(0) =~= present);
    } else {
        assert(present[0]);
        assert forall|j: int| 0 <= j < i - 1 implies present.drop_first()[j] by {
            assert(present[j + 1]);
        }
        lemma_missing_of_skip(paths.drop_first(), present.drop_first(), i - 1);
        assert(paths.drop_first().skip(i - 1) =~= paths.skip(i));
        assert(present.drop_first().skip(i - 1) =~= present.skip(i));
    }
}

/// When every probe reported presence, nothing is missing.
pub proof fn lemma_missing_of_none(paths: Seq<String>, present: Seq<bool>)
    requires
        paths.len() == present.len(),
        forall|j: int| 0 <= j < present.len() ==> present[j],
    ensures
        missing_of(paths, present) == Seq::<String>::empty(),
{
    lemma_missing_of_skip(paths, present, paths.len() as int);
    assert(paths.skip(paths.len() as int).len() == 0);
}

/// When the first absent path stands at `i`, it heads the missing list.
pub proof fn lemma_missing_of_first_absent(paths: Seq<String>, present: Seq<bool>, i: int)
    requires
        paths.len() == present.len(),
        0 <= i < paths.len(),
        forall|j: int| 0 <= j < i ==> present[j],
        !present[i],
    ensures
        missing_of(paths, present).len() > 0,
        missing_of(paths, present)[0] == paths[i],
{
    lemma_missing_of_skip(paths, present, i);
    assert(paths.skip(i)[0] == paths[i]);
    assert(present.skip(i)[0] == present[i]);
}

/// The failure resolved for a missing path: without a handler, the given
/// default kind with the caller's message or, failing that, a message naming
/// the path; with a handler, the warning-aware policy resolution.
pub open spec fn missing_resolved(
    f: ResolvedFailure,
    first_missing: String,
    handle_with: Option<ErrorKind>,
    message: Option<&str>,
    default_kind: ErrorKind,
) -> bool {
    match handle_with {
        Option::None => {
            &&& f.kind == default_kind
            &&& f.severity == Severity::Error
            &&& f.message@ == (match message {
                Option::Some(m) => m@,
                Option::None => first_missing@ + " is not a valid path"@,
            })
        },
        Option::Some(_) => policy_resolved(f, handle_with, message, default_kind),
    }
}

fn missing_failure(
    first_missing: &String,
    handle_with: Option<ErrorKind>,
    message: Option<&str>,
    default_kind: ErrorKind,
) -> (r: ResolvedFailure)
    ensures
        missing_resolved(r, *first_missing, handle_with, message, default_kind),
{
    match handle_with {
        Option::None => {
            let msg: String = match message {
                Option::Some(m) => m.to_owned(),
                Option::None => first_missing.clone().concat(" is not a valid path"),
            };
            ResolvedFailure { kind: default_kind, severity: Severity::Error, message: msg }
        },
        Option::Some(_) => check_handle_warning_with(handle_with, message),
    }
}

/// What the outcome of a path check means, given each path's probed
/// presence.  In `return` mode (`collect`) the outcome is a report holding
/// every absent path in order, with one representative failure for the
/// first; in `raise` mode it is plain success when nothing is absent and
/// the resolved failure for the first absent path otherwise.
pub open spec fn paths_outcome(
    r: Result<Option<PathReport>, ResolvedFailure>,
    paths: Seq<String>,
    present: Seq<bool>,
    handle_with: Option<ErrorKind>,
    message: Option<&str>,
    collect: bool,
    default_kind: ErrorKind,
) -> bool {
    let miss = missing_of(paths, present);
    if collect {
        match r {
            Result::Ok(Option::Some(report)) => {
                &&& report.missing@ == miss
                &&& if miss.len() == 0 {
                    report.failure is None
                } else {
                    report.failure matches Option::Some(f) && missing_resolved(
                        f,
                        miss[0],
                        handle_with,
                        message,
                        default_kind,
                    )
                }
            },
            _ => false,
        }
    } else {
        if miss.len() == 0 {
            r matches Ok(opt) && opt is None
        } else {
            r matches Err(f) && missing_resolved(f, miss[0], handle_with, message, default_kind)
        }
    }
}

/// The verified decision core: from the paths and their probed presence to
/// the outcome the checker reports.  Everything after the probes goes
/// through here, so it holds for every combination of probe results.
pub fn report_for(
    paths: &Vec<String>,
    present: &Vec<bool>,
    handle_with: Option<ErrorKind>,
    message: Option<&str>,
    collect: bool,
    default_kind: ErrorKind,
) -> (r: Result<Option<PathReport>, ResolvedFailure>)
    requires
        paths@.len() == present@.len(),
    ensures
        paths_outcome(r, paths@, present@, handle_with, message, collect, default_kind),
{
    let n = paths.len();
    let mut missing: Vec<String> = Vec::new();
    let mut i: usize = 0;
    while i < n
        invariant
            i <= n,
            n == paths@.len(),
            present@.len() == n,
            missing@ == missing_of(paths@.take(i as int), present@.take(i as int)),
        decreases n - i,
    {
        proof {
            lemma_missing_of_push(
                paths@.take(i as int),
                present@.take(i as int),
                paths@[i as int],
                present@[i as int],
            );
            assert(paths@.take(i + 1) =~= paths@.take(i as int).push(paths@[i as int]));
            assert(present@.take(i + 1) =~= present@.take(i as int).push(present@[i as int]));
        }
        if !present[i] {
            missing.push(paths[i].clone());
        }
        proof {
            assert(missing@ =~= missing_of(paths@.take(i + 1), present@.take(i + 1)));
        }
        i += 1;
    }
    proof {
        assert(paths@.take(n as int) =~= paths@);
        assert(present@.take(n as int) =~= present@);
    }
    if collect {
        let failure: Option<ResolvedFailure> = if missing.len() == 0 {
            Option::None
        } else {
            Option::Some(missing_failure(&missing[0], handle_with, message, default_kind))
        };
        Ok(Some(PathReport { failure, missing }))
    } else {
        if missing.len() == 0 {
            Ok(None)
        } else {
            Err(missing_failure(&missing[0], handle_with, message, default_kind))
        }
    }
}

/// The two recognized execution modes.
pub open spec fn valid_mode(mode: Seq<char>) -> bool {
    mode == "raise"@ || mode == "return"@
}

/// Whether a mode collects every absent path instead of failing fast.
pub open spec fn collect_mode(mode: Seq<char>) -> bool {
    mode == "return"@
}

/// The usage error for an unrecognized execution mode.
pub open spec fn invalid_mode_failure(f: ResolvedFailure) -> bool {
    &&& f.kind == ErrorKind::ValueError
    &&& f.severity == Severity::Error
    &&& f.message@ == "execution_mode can only be `raise` or `return`"@
}

/// What a finished path-existence check looks like.  While the checks are
/// disabled nothing at all is done; an unrecognized mode, and then an
/// unrecognized shape, are usage errors that no handler touches; otherwise
/// the outcome matches [`paths_outcome`] for the presence the probes
/// reported — some sequence of probe results, since what is on disk is
/// outside the library.
pub open spec fn paths_check_post(
    r: Result<Option<PathReport>, ResolvedFailure>,
    run_flag: Option<String>,
    paths: PathsInput,
    handle_with: Option<ErrorKind>,
    message: Option<&str>,
    mode: Seq<char>,
    default_kind: ErrorKind,
) -> bool {
    &&& (!checks_enabled(run_flag) ==> (r matches Ok(opt) && opt is None))
    &&& (checks_enabled(run_flag) && !valid_mode(mode) ==> (r matches Err(f)
        && invalid_mode_failure(f)))
    &&& (checks_enabled(run_flag) && valid_mode(mode) && paths is Unrecognized ==> (r matches Err(f)
        && unrecognized_paths_failure(f)))
    &&& (checks_enabled(run_flag) && valid_mode(mode) && !(paths is Unrecognized)
        ==> exists|present: Seq<bool>|
        present.len() == input_paths(paths).len() && paths_outcome(
            r,
            input_paths(paths),
            present,
            handle_with,
            message,
            collect_mode(mode),
            default_kind,
        ))
}

#[verifier::loop_isolation(false)]
fn paths_check(
    run_flag: &Option<String>,
    paths: PathsInput,
    handle_with: Option<ErrorKind>,
    message: Option<&str>,
    execution_mode: &str,
    default_kind: ErrorKind,
) -> (r: Result<Option<PathReport>, ResolvedFailure>)
    ensures
        paths_check_post(
            r,
            *run_flag,
            paths,
            handle_with,
            message,
            execution_mode@,
            default_kind,
        ),
{
    if !is_enabled(run_flag) {
        return Ok(None);
    }
    let is_raise = str_equal(execution_mode, "raise");
    let is_return = str_equal(execution_mode, "return");
    if !is_raise && !is_return {
        return Err(
            ResolvedFailure {
                kind: ErrorKind::ValueError,
                severity: Severity::Error,
                message: "execution_mode can only be `raise` or `return`".to_owned(),
            },
        );
    }
    let ghost all_paths: Seq<String> = input_paths(paths);
    let path_vec: Vec<String> = match classify(paths) {
        Result::Err(f) => {
            return Err(f);
        },
        Result::Ok(PathSet::Scalar { path }) => {
            let mut v: Vec<String> = Vec::new();
            v.push(path);
            proof {
                assert(v@ =~= all_paths);
            }
            v
        },
        Result::Ok(PathSet::FixedSequence { paths: v }) => v,
        Result::Ok(PathSet::GenericIterable { paths: v }) => v,
    };
    let n = path_vec.len();
    if is_return {
        let mut present: Vec<bool> = Vec::new();
        let mut i: usize = 0;
        while i < n
            invariant
                i <= n,
                n == path_vec.len(),
                present@.len() == i,
            decreases n - i,
        {
            let here = path_exists(&path_vec[i]);
            present.push(here);
            i += 1;
        }
        let r = report_for(&path_vec, &present, handle_with, message, true, default_kind);
        proof {
            assert(present@.len() == all_paths.len() && paths_outcome(
                r,
                all_paths,
                present@,
                handle_with,
                message,
                collect_mode(execution_mode@),
                default_kind,
            ));
        }
        r
    } else {
        let ghost mut probed: Seq<bool> = Seq::<bool>::empty();
        let mut i: usize = 0;
        while i < n
            invariant
                i <= n,
                n == path_vec.len(),
                probed.len() == i,
                forall|j: int| 0 <= j < i ==> probed[j],
            decreases n - i,
        {
            let here = path_exists(&path_vec[i]);
            if !here {
                let failure = missing_failure(&path_vec[i], handle_with, message, default_kind);
                proof {
                    let w = probed.push(false) + Seq::<bool>::new((n - i - 1) as nat, |j: int| true);
                    assert(w.len() == path_vec@.len());
                    assert(w[i as int] == probed.push(false)[i as int]);
                    assert(!w[i as int]);
                    assert forall|j: int| 0 <= j < i implies w[j] by {
                        assert(w[j] == probed.push(false)[j]);
                        assert(probed.push(false)[j] == probed[j]);
                    }
                    lemma_missing_of_first_absent(path_vec@, w, i as int);
                    assert(path_vec@ == all_paths);
                    let miss = missing_of(all_paths, w);
                    assert(miss.len() > 0 && miss[0] == path_vec@[i as int]);
                    assert(missing_resolved(failure, miss[0], handle_with, message, default_kind));
                    assert(!collect_mode(execution_mode@));
                    assert(paths_outcome(
                        Result::Err(failure),
                        all_paths,
                        w,
                        handle_with,
                        message,
                        collect_mode(execution_mode@),
                        default_kind,
                    ));
                }
                return Err(failure);
            }
            proof {
                probed = probed.push(true);
            }
            i += 1;
        }
        proof {
            lemma_missing_of_none(path_vec@, probed);
            assert(paths_outcome(
                Result::Ok(Option::None),
                all_paths,
                probed,
                handle_with,
                message,
                collect_mode(execution_mode@),
                default_kind,
            ));
        }
        Ok(None)
    }
}

/// Checks that every given path exists.  In `raise` mode the first absent
/// path fails at once — paths after it are not probed — with the
/// file-not-found kind by default, or with the caller's handler; in
/// `return` mode every path is probed and a [`PathReport`] comes back.
/// While the checks are disabled nothing is probed or validated at all.
pub fn check_if_paths_exist(
    run_flag: &Option<String>,
    paths: PathsInput,
    handle_with: Option<ErrorKind>,
    message: Option<&str>,
    execution_mode: &str,
) -> (r: Result<Option<PathReport>, ResolvedFailure>)
    ensures
        paths_check_post(
            r,
            *run_flag,
            paths,
            handle_with,
            message,
            execution_mode@,
            ErrorKind::FileNotFoundError,
        ),
{
    paths_check(run_flag, paths, handle_with, message, execution_mode, ErrorKind::FileNotFoundError)
}

/// The assert twin of [`check_if_paths_exist`]: fail-fast mode with an
/// empty message, and the assertion failure as the default kind.
pub fn assert_paths(run_flag: &Option<String>, paths: PathsInput) -> (r: Result<
    Option<PathReport>,
    ResolvedFailure,
>)
    ensures
        paths_check_post(
            r,
            *run_flag,
            paths,
            Option::None,
            Option::Some(""),
            "raise"@,
            ErrorKind::AssertionError,
        ),
{
    paths_check(run_flag, paths, Option::None, Option::Some(""), "raise", ErrorKind::AssertionError)
}

/// Two path-check outcomes that a caller cannot tell apart.
pub open spec fn paths_outcome_equiv(
    r1: Result<Option<PathReport>, ResolvedFailure>,
    r2: Result<Option<PathReport>, ResolvedFailure>,
) -> bool {
    match (r1, r2) {
        (Result::Ok(Option::None), Result::Ok(Option::None)) => true,
        (Result::Ok(Option::Some(rep1)), Result::Ok(Option::Some(rep2))) => {
            &&& rep1.missing@ == rep2.missing@
            &&& match (rep1.failure, rep2.failure) {
                (Option::None, Option::None) => true,
                (Option::Some(f1), Option::Some(f2)) => failure_equiv(f1, f2),
                _ => false,
            }
        },
        (Result::Err(f1), Result::Err(f2)) => failure_equiv(f1, f2),
        _ => false,
    }
}

/// Deciding the same probe results twice with the same arguments yields
/// indistinguishable outcomes.
pub proof fn lemma_paths_decision_idempotent(
    r1: Result<Option<PathReport>, ResolvedFailure>,
    r2: Result<Option<PathReport>, ResolvedFailure>,
    paths: Seq<String>,
    present: Seq<bool>,
    handle_with: Option<ErrorKind>,
    message: Option<&str>,
    collect: bool,
    default_kind: ErrorKind,
)
    requires
        paths_outcome(r1, paths, present, handle_with, message, collect, default_kind),
        paths_outcome(r2, paths, present, handle_with, message, collect, default_kind),
    ensures
        paths_outcome_equiv(r1, r2),
{
}

/// In fail-fast mode the outcome is settled by the probes up to and
/// including the first absent path: two probe sequences that agree there
/// fail identically, however the later probes would have come out.
pub proof fn lemma_raise_ignores_later_probes(
    r1: Result<Option<PathReport>, ResolvedFailure>,
    r2: Result<Option<PathReport>, ResolvedFailure>,
    paths: Seq<String>,
    present1: Seq<bool>,
    present2: Seq<bool>,
    i: int,
    handle_with: Option<ErrorKind>,
    message: Option<&str>,
    default_kind: ErrorKind,
)
    requires
        paths.len() == present1.len() == present2.len(),
        0 <= i < paths.len(),
        forall|j: int| 0 <= j < i ==> present1[j] && present2[j],
        !present1[i],
        !present2[i],
        paths_outcome(r1, paths, present1, handle_with, message, false, default_kind),
        paths_outcome(r2, paths, present2, handle_with, message, false, default_kind),
    ensures
        (r1 matches Err(f1) && r2 matches Err(f2) && failure_equiv(f1, f2)),
{
    lemma_missing_of_first_absent(paths, present1, i);
    lemma_missing_of_first_absent(paths, present2, i);
}

} // verus!
