//! The rule contract and the rules.
use vstd::prelude::*;
use crate::diagnostic::{all_resolve, diagnostic_views, Diagnostic, DiagnosticView};
use crate::document::Document;
use blue_sign::BlueSignLint;
use comment::CommentLint;
use instant_scroll::InstantScrollLint;
use pade_transfer::PadeTransferLint;
use show_picture::ShowPictureLint;
use special_skills::SpecialSkillsLint;
use tissues::TissueLint;
use v44_assignment::V44AssignmentLint;
use weather::WeatherLint;

pub mod blue_sign;
pub mod comment;
pub mod instant_scroll;
pub mod pade_transfer;
pub mod parallel_erase;
pub mod show_picture;
pub mod special_skills;
pub mod tissues;
pub mod v44_assignment;
pub mod weather;

verus! {

/// A rule: a stable title, and a check that is a function of the document alone.
pub trait Lint {
    /// The rule's title.
    spec fn title(&self) -> Seq<char>;

    /// What the rule reports of `doc`, in order.
    spec fn findings(&self, doc: Document) -> Seq<DiagnosticView>;

    /// `doc` holds an instance of what the rule looks for; where it holds
    /// none, the rule reports nothing.
    spec fn triggered(&self, doc: Document) -> bool;

    /// The rule's title.
    fn name(&self) -> (r: &'static str)
        ensures
            r@ == self.title(),
    ;

    /// Runs the rule on `map`. Every location it reports resolves in `map`.
    fn test(&self, map: &Document) -> (r: Vec<Diagnostic>)
        requires
            map.wf(),
        ensures
            diagnostic_views(r@) == self.findings(*map),
            all_resolve(*map, diagnostic_views(r@)),
            !self.triggered(*map) ==> r@.len() == 0,
    ;
}

/// How many rules the registry holds. Rules are addressed by their 1-based
/// position, in this order: weather parity, tissues, V0044 assignment, instant
/// scroll, special skills, comment length, show picture, blue signs, and
/// transfers while frozen.
pub const LINT_COUNT: usize = 9;

/// The title of the rule at 0-based position `i` of the registry.
pub open spec fn lint_title(i: int) -> Seq<char> {
    if i == 0 {
        WeatherLint.title()
    } else if i == 1 {
        TissueLint.title()
    } else if i == 2 {
        V44AssignmentLint.title()
    } else if i == 3 {
        InstantScrollLint.title()
    } else if i == 4 {
        SpecialSkillsLint.title()
    } else if i == 5 {
        CommentLint.title()
    } else if i == 6 {
        ShowPictureLint.title()
    } else if i == 7 {
        BlueSignLint.title()
    } else {
        PadeTransferLint.title()
    }
}

/// What the rule at 0-based position `i` reports of `doc`.
pub open spec fn lint_findings(i: int, doc: Document) -> Seq<DiagnosticView> {
    if i == 0 {
        WeatherLint.findings(doc)
    } else if i == 1 {
        TissueLint.findings(doc)
    } else if i == 2 {
        V44AssignmentLint.findings(doc)
    } else if i == 3 {
        InstantScrollLint.findings(doc)
    } else if i == 4 {
        SpecialSkillsLint.findings(doc)
    } else if i == 5 {
        CommentLint.findings(doc)
    } else if i == 6 {
        ShowPictureLint.findings(doc)
    } else if i == 7 {
        BlueSignLint.findings(doc)
    } else {
        PadeTransferLint.findings(doc)
    }
}

/// The title of the rule at 0-based position `i`.
pub fn lint_name(i: usize) -> (r: &'static str)
    requires
        i < LINT_COUNT,
    ensures
        r@ == lint_title(i as int),
{
    match i {
        0 => WeatherLint.name(),
        1 => TissueLint.name(),
        2 => V44AssignmentLint.name(),
        3 => InstantScrollLint.name(),
        4 => SpecialSkillsLint.name(),
        5 => CommentLint.name(),
        6 => ShowPictureLint.name(),
        7 => BlueSignLint.name(),
        _ => PadeTransferLint.name(),
    }
}

/// Runs the rule at 0-based position `i` on `map`.
pub fn run_lint(i: usize, map: &Document) -> (r: Vec<Diagnostic>)
    requires
        i < LINT_COUNT,
        map.wf(),
    ensures
        diagnostic_views(r@) == lint_findings(i as int, *map),
        all_resolve(*map, diagnostic_views(r@)),
{
    match i {
        0 => WeatherLint.test(map),
        1 => TissueLint.test(map),
        2 => V44AssignmentLint.test(map),
        3 => InstantScrollLint.test(map),
        4 => SpecialSkillsLint.test(map),
        5 => CommentLint.test(map),
        6 => ShowPictureLint.test(map),
        7 => BlueSignLint.test(map),
        _ => PadeTransferLint.test(map),
    }
}

} // verus!
