//! Which lookups a resolution makes.
//!
//! A specifier that a file imports is looked up once, from the directory
//! that holds the file. A specifier without an importer is an entry point
//! that the build configuration names: it is first looked up as the file
//! it would be under the working directory, and only a specifier that is
//! not path-like gets a second lookup, as a package.
//!
//! The lookups are the caller's to make. A resolution goes in steps: the
//! first lookup is planned, and from the outcome of each lookup the next
//! step follows, which is another lookup or the report.

use vstd::prelude::*;
use crate::paths::{
    is_path_like, join, normalize, parent_of, path_joined, path_like, path_normalized, path_parent,
};
use crate::outcome::{settle, settles_to, Outcome, ResolutionError, UnhandleableResult};
use crate::types::{ImportKind, ResolveReturn};

verus! {

/// The condition list that governs a lookup.
#[derive(Clone, Copy, Debug, PartialEq, Eq, Structural)]
pub enum ConditionSet {
    Default,
    Import,
    Require,
}

/// The condition list for a kind of import: the require list for a
/// required specifier, the import list for the other two kinds.
pub open spec fn condition_set_for(kind: ImportKind) -> ConditionSet {
    match kind {
        ImportKind::Import | ImportKind::DynamicImport => ConditionSet::Import,
        ImportKind::Require => ConditionSet::Require,
    }
}

/// Picks the condition list for a kind of import.
pub fn select_condition_set(kind: ImportKind) -> (set: ConditionSet)
    ensures
        set == condition_set_for(kind),
{
    match kind {
        ImportKind::Import | ImportKind::DynamicImport => ConditionSet::Import,
        ImportKind::Require => ConditionSet::Require,
    }
}

/// One lookup: the directory it starts from and the specifier it looks for.
#[derive(Debug)]
pub struct Attempt {
    pub context: String,
    pub specifier: String,
}

impl View for Attempt {
    type V = (Seq<char>, Seq<char>);

    open spec fn view(&self) -> (Seq<char>, Seq<char>) {
        (self.context@, self.specifier@)
    }
}

/// The view of an attempt that may be absent.
pub open spec fn attempt_view(attempt: Option<Attempt>) -> Option<(Seq<char>, Seq<char>)> {
    match attempt {
        Some(a) => Some(a@),
        None => None,
    }
}

/// The first lookup, as context and specifier. With an importer it starts
/// from the importer's directory and looks for the specifier as written;
/// there is none where the importer has no parent. Without an importer it
/// starts from the working directory and looks for the specifier joined to
/// it, normalized.
pub open spec fn first_attempt(
    cwd: Seq<char>,
    importer: Option<Seq<char>>,
    specifier: Seq<char>,
) -> Option<(Seq<char>, Seq<char>)> {
    match importer {
        Some(file) => match path_parent(file) {
            Some(directory) => Some((directory, specifier)),
            None => None,
        },
        None => Some((cwd, path_normalized(path_joined(cwd, specifier)))),
    }
}

/// The second lookup, if there is one: for an entry point whose first
/// lookup found nothing and whose specifier is not path-like, the specifier
/// as written, from the working directory.
pub open spec fn fallback_attempt(
    cwd: Seq<char>,
    importer: Option<Seq<char>>,
    specifier: Seq<char>,
    first_found: bool,
) -> Option<(Seq<char>, Seq<char>)> {
    if importer is None && !first_found && !is_path_like(specifier) {
        Some((cwd, specifier))
    } else {
        None
    }
}

/// Plans the first lookup.
pub fn plan_first_attempt(cwd: &str, importer: Option<&str>, specifier: &str) -> (attempt: Option<
    Attempt,
>)
    ensures
        attempt_view(attempt) == first_attempt(cwd@, importer.deep_view(), specifier@),
{
    match importer {
        Some(file) => match parent_of(file) {
            Some(directory) => Some(Attempt { context: directory, specifier: specifier.to_owned() }),
            None => None,
        },
        None => {
            let joined = join(cwd, specifier);
            let normal = normalize(joined.as_str());
            Some(Attempt { context: cwd.to_owned(), specifier: normal })
        },
    }
}

/// Plans the second lookup, given whether the first one found a file.
pub fn plan_fallback_attempt(
    cwd: &str,
    importer: Option<&str>,
    specifier: &str,
    first_found: bool,
) -> (attempt: Option<Attempt>)
    ensures
        attempt_view(attempt) == fallback_attempt(
            cwd@,
            importer.deep_view(),
            specifier@,
            first_found,
        ),
{
    if importer.is_none() && !first_found && !path_like(specifier) {
        Some(Attempt { context: cwd.to_owned(), specifier: specifier.to_owned() })
    } else {
        None
    }
}

/// Which lookup of a resolution an outcome belongs to.
#[derive(Clone, Copy, Debug, PartialEq, Eq, Structural)]
pub enum Stage {
    First,
    Fallback,
}

/// What a resolution does next.
#[derive(Debug)]
pub enum Step {
    /// Make this lookup, with the same engine; its outcome belongs to the
    /// fallback stage.
    Look(Attempt),
    /// The resolution is done, with this report.
    Report(UnhandleableResult<Result<ResolveReturn, ResolutionError>>),
}

/// Whether `step` is what follows the outcome of a lookup. After the first
/// lookup the fallback follows where there is one; in every other case the
/// outcome is reported as `settles_to` says.
pub open spec fn follows(
    cwd: Seq<char>,
    importer: Option<Seq<char>>,
    specifier: Seq<char>,
    stage: Stage,
    outcome: Outcome,
    step: Step,
) -> bool {
    match fallback_attempt(cwd, importer, specifier, outcome is Found) {
        Some(second) if stage == Stage::First => step matches Step::Look(attempt) && attempt@
            == second,
        _ => step matches Step::Report(report) && settles_to(outcome, report),
    }
}

/// The step that follows the outcome of a lookup.
pub fn next_step(
    cwd: &str,
    importer: Option<&str>,
    specifier: &str,
    stage: Stage,
    outcome: Outcome,
) -> (step: Step)
    ensures
        follows(cwd@, importer.deep_view(), specifier@, stage, outcome, step),
{
    let found = match &outcome {
        Outcome::Found(_) => true,
        Outcome::Failed(_, _) => false,
    };
    match stage {
        Stage::First => match plan_fallback_attempt(cwd, importer, specifier, found) {
            Some(second) => Step::Look(second),
            None => Step::Report(settle(outcome)),
        },
        Stage::Fallback => Step::Report(settle(outcome)),
    }
}

/// A resolution makes two lookups at most: what follows the outcome of the
/// fallback is a report. What follows a first lookup that found a file, or
/// that was made for an importer or for a path-like specifier, is a report
/// too.
pub proof fn law_lookups_end(
    cwd: Seq<char>,
    importer: Option<Seq<char>>,
    specifier: Seq<char>,
    stage: Stage,
    outcome: Outcome,
    step: Step,
)
    requires
        follows(cwd, importer, specifier, stage, outcome, step),
    ensures
        stage == Stage::Fallback ==> step is Report,
        outcome is Found || importer is Some || is_path_like(specifier) ==> step is Report,
        step matches Step::Look(attempt) ==> attempt@ == (cwd, specifier),
        step matches Step::Report(report) ==> settles_to(outcome, report),
{
}

/// An entry point is first looked up as the file it names under the working
/// directory. It is looked up a second time, as written, exactly when that
/// found nothing and the specifier is not path-like; a path-like specifier
/// never gets the second lookup.
pub proof fn law_entry_point_fallback(cwd: Seq<char>, specifier: Seq<char>, first_found: bool)
    ensures
        first_attempt(cwd, None, specifier) == Some(
            (cwd, path_normalized(path_joined(cwd, specifier))),
        ),
        fallback_attempt(cwd, None, specifier, first_found) == if !first_found && !is_path_like(
            specifier,
        ) {
            Some((cwd, specifier))
        } else {
            None
        },
        is_path_like(specifier) ==> fallback_attempt(cwd, None, specifier, first_found) is None,
{
}

/// A specifier with an importer is looked up from the importer's parent
/// directory, as written, and never a second time.
pub proof fn law_importer_context(
    cwd: Seq<char>,
    importer: Seq<char>,
    specifier: Seq<char>,
    first_found: bool,
)
    requires
        path_parent(importer) is Some,
    ensures
        first_attempt(cwd, Some(importer), specifier) == Some(
            (path_parent(importer)->0, specifier),
        ),
        fallback_attempt(cwd, Some(importer), specifier, first_found) is None,
{
}

} // verus!
