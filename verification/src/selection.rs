//! Which content units a run settles on.
//!
//! A scan looks at one unit after the other and asks the inspector about
//! each. Here the scan is followed to its end, and what it settles on is
//! told in one piece: the first unit of the wanted kind, in the order of
//! the scan.

use vstd::prelude::*;
use crate::error::{ErrorView, Missing};
use crate::patch::{report_on, ActionView, EventView, PipelineView, Stage};
use crate::path::path_extension;
use crate::rom::{unit_extension, NcaType};
use crate::scan::{first_with_extension, lemma_first_with_extension};

verus! {

/// Whether the unit at `path` carries the content-unit extension and is
/// reported, by `answer`, to be of kind `kind`.
pub open spec fn is_unit_of_kind(path: Seq<char>, answer: EventView, kind: NcaType) -> bool {
    &&& path_extension(path) == Some(unit_extension())
    &&& report_on(path, answer) matches Ok(unit) && unit.content_type == kind
}

/// The place of the first unit of kind `kind` among `units`, from place
/// `from` on, where `answers(place)` is what the inspection of the unit at
/// `place` led to.
pub open spec fn first_of_kind(
    units: Seq<Seq<char>>,
    answers: spec_fn(int) -> EventView,
    kind: NcaType,
    from: int,
) -> Option<int>
    decreases units.len() - from,
{
    if from < 0 || from >= units.len() {
        None
    } else if is_unit_of_kind(units[from], answers(from), kind) {
        Some(from)
    } else {
        first_of_kind(units, answers, kind, from + 1)
    }
}

/// Whether each answer is one that an inspection can lead to: the
/// inspector ran to its end, or it could not be run.
pub open spec fn answers_fit(answers: spec_fn(int) -> EventView) -> bool {
    forall|place: int| (#[trigger] answers(place)) is Exited || answers(place) is Failed
}

/// Where the scan of the base package ends, when it stands at a unit and
/// the inspection of the unit at each place leads to `answers(place)`.
pub open spec fn base_scan_end(p: PipelineView, answers: spec_fn(int) -> EventView) -> (
    PipelineView,
    ActionView,
)
    decreases p.base_units.len() - p.cursor,
{
    let next = p.advanced(answers(p.cursor));
    if p.stage == Stage::BaseUnit && 0 <= p.cursor < p.base_units.len() && next.0.stage
        == Stage::BaseUnit && p.cursor < next.0.cursor < p.base_units.len() && next.0.base_units
        == p.base_units {
        base_scan_end(next.0, answers)
    } else {
        next
    }
}

/// Where the scan of the update package ends, when it stands at a unit and
/// the inspection of the unit at each place leads to `answers(place)`.
pub open spec fn update_scan_end(p: PipelineView, answers: spec_fn(int) -> EventView) -> (
    PipelineView,
    ActionView,
)
    decreases p.update_units.len() - p.cursor,
{
    let next = p.advanced(answers(p.cursor));
    if p.stage == Stage::UpdateUnit && 0 <= p.cursor < p.update_units.len() && next.0.stage
        == Stage::UpdateUnit && p.cursor < next.0.cursor < p.update_units.len()
        && next.0.update_units == p.update_units {
        update_scan_end(next.0, answers)
    } else {
        next
    }
}

/// What the first unit of a kind is: a unit of the kind at or after
/// `from`, with no unit of the kind between `from` and it. Without one, no
/// unit from `from` on is of the kind.
pub proof fn lemma_first_of_kind(
    units: Seq<Seq<char>>,
    answers: spec_fn(int) -> EventView,
    kind: NcaType,
    from: int,
)
    requires
        0 <= from,
    ensures
        match first_of_kind(units, answers, kind, from) {
            Some(place) => {
                &&& from <= place < units.len()
                &&& is_unit_of_kind(units[place], answers(place), kind)
                &&& forall|i: int|
                    from <= i < place ==> !is_unit_of_kind(#[trigger] units[i], answers(i), kind)
            },
            None => forall|i: int|
                from <= i < units.len() ==> !is_unit_of_kind(#[trigger] units[i], answers(i), kind),
        },
    decreases units.len() - from,
{
    if from < units.len() && !is_unit_of_kind(units[from], answers(from), kind) {
        lemma_first_of_kind(units, answers, kind, from + 1);
    }
}

/// Places that hold no unit of the kind can be passed over.
proof fn lemma_pass_over(
    units: Seq<Seq<char>>,
    answers: spec_fn(int) -> EventView,
    kind: NcaType,
    from: int,
    to: int,
)
    requires
        0 <= from <= to <= units.len(),
        forall|i: int| from <= i < to ==> !is_unit_of_kind(#[trigger] units[i], answers(i), kind),
    ensures
        first_of_kind(units, answers, kind, from) == first_of_kind(units, answers, kind, to),
    decreases to - from,
{
    if from < to {
        assert(!is_unit_of_kind(units[from], answers(from), kind));
        lemma_pass_over(units, answers, kind, from + 1, to);
    }
}

/// The first unit of the kind from `cursor` on, when the unit at `cursor`
/// is not of the kind and `next` is where the next unit with the extension
/// stands, if there is one.
proof fn lemma_next_candidate(
    units: Seq<Seq<char>>,
    answers: spec_fn(int) -> EventView,
    kind: NcaType,
    cursor: int,
)
    requires
        0 <= cursor < units.len(),
        !is_unit_of_kind(units[cursor], answers(cursor), kind),
    ensures
        match first_with_extension(units, unit_extension(), cursor + 1) {
            Some(next) => first_of_kind(units, answers, kind, cursor) == first_of_kind(
                units,
                answers,
                kind,
                next,
            ),
            None => first_of_kind(units, answers, kind, cursor) is None,
        },
{
    lemma_first_with_extension(units, unit_extension(), cursor + 1);
    match first_with_extension(units, unit_extension(), cursor + 1) {
        Some(next) => {
            lemma_pass_over(units, answers, kind, cursor + 1, next);
        },
        None => {
            lemma_pass_over(units, answers, kind, cursor + 1, units.len() as int);
        },
    }
}

/// The scan of the base package settles on the first program unit in the
/// order of the scan, which is by ascending size: the program unit of the
/// base package is the smallest that the package holds. A unit that the
/// inspector fails on, or that is of another kind, is passed over. Without
/// a program unit the run fails with a not-found error.
pub proof fn lemma_base_scan_takes_first_program(
    p: PipelineView,
    answers: spec_fn(int) -> EventView,
)
    requires
        p.stage == Stage::BaseUnit,
        0 <= p.cursor < p.base_units.len(),
        path_extension(p.base_units[p.cursor]) == Some(unit_extension()),
        answers_fit(answers),
    ensures
        match first_of_kind(p.base_units, answers, NcaType::Program, p.cursor) {
            Some(place) => {
                &&& p.cursor <= place < p.base_units.len()
                &&& report_on(p.base_units[place], answers(place)) matches Ok(unit)
                    && base_scan_end(p, answers) == (PipelineView {
                    base_program: p.base_units[place],
                    base_title_id: unit.title_id,
                    warnings: base_scan_end(p, answers).0.warnings,
                    cursor: place,
                    ..p
                }).scan_update(0)
            },
            None => base_scan_end(p, answers) == (PipelineView {
                warnings: base_scan_end(p, answers).0.warnings,
                cursor: base_scan_end(p, answers).0.cursor,
                ..p
            }).fail(ErrorView::NotFound(Missing::BaseProgram)),
        },
    decreases p.base_units.len() - p.cursor,
{
    let answer = answers(p.cursor);
    assert(answer is Exited || answer is Failed);
    let next = p.advanced(answer);
    let units = p.base_units;
    lemma_first_of_kind(units, answers, NcaType::Program, p.cursor);
    if is_unit_of_kind(units[p.cursor], answer, NcaType::Program) {
        assert(next.0.stage != Stage::BaseUnit);
    } else {
        lemma_next_candidate(units, answers, NcaType::Program, p.cursor);
        lemma_first_with_extension(units, unit_extension(), p.cursor + 1);
        match first_with_extension(units, unit_extension(), p.cursor + 1) {
            Some(at) => {
                assert(next.0.stage == Stage::BaseUnit && next.0.cursor == at);
                lemma_base_scan_takes_first_program(next.0, answers);
            },
            None => {},
        }
    }
}

/// The unit that the scan of the update package keeps for a kind: the one
/// that it has come by, or else the first of the kind from the cursor on.
pub open spec fn kept(
    found: Option<Seq<char>>,
    units: Seq<Seq<char>>,
    answers: spec_fn(int) -> EventView,
    kind: NcaType,
    cursor: int,
) -> Option<Seq<char>> {
    match found {
        Some(path) => Some(path),
        None => match first_of_kind(units, answers, kind, cursor) {
            Some(place) => Some(units[place]),
            None => None,
        },
    }
}

/// The scan of the update package settles on the first program unit and
/// on the first control unit in the order of the scan, each on its own,
/// and is over as soon as it has both. Where the package lacks one of
/// them the run fails with a not-found error, which names the program
/// unit where both are lacking.
pub proof fn lemma_update_scan_takes_first_of_each(
    p: PipelineView,
    answers: spec_fn(int) -> EventView,
)
    requires
        p.stage == Stage::UpdateUnit,
        0 <= p.cursor < p.update_units.len(),
        path_extension(p.update_units[p.cursor]) == Some(unit_extension()),
        answers_fit(answers),
        !(p.update_program is Some && p.update_control is Some),
    ensures
        ({
            let program = kept(
                p.update_program,
                p.update_units,
                answers,
                NcaType::Program,
                p.cursor,
            );
            let control = kept(
                p.update_control,
                p.update_units,
                answers,
                NcaType::Control,
                p.cursor,
            );
            let end = update_scan_end(p, answers);
            match (program, control) {
                (Some(program), Some(control)) => {
                    &&& end.0.stage == Stage::PatchDir
                    &&& end.0.program == program
                    &&& end.0.control == control
                    &&& end.1 == ActionView::CreateTempDir("patch"@)
                },
                (None, _) => {
                    &&& end.0.stage == Stage::Teardown
                    &&& end.0.failure == Some(ErrorView::NotFound(Missing::UpdateProgram))
                    &&& end.1 == ActionView::Remove(end.0.held())
                },
                (Some(_), None) => {
                    &&& end.0.stage == Stage::Teardown
                    &&& end.0.failure == Some(ErrorView::NotFound(Missing::UpdateControl))
                    &&& end.1 == ActionView::Remove(end.0.held())
                },
            }
        }),
    decreases p.update_units.len() - p.cursor,
{
    let answer = answers(p.cursor);
    assert(answer is Exited || answer is Failed);
    let next = p.advanced(answer);
    let units = p.update_units;
    let c = p.cursor;
    lemma_first_with_extension(units, unit_extension(), c + 1);
    if !is_unit_of_kind(units[c], answer, NcaType::Program) {
        lemma_next_candidate(units, answers, NcaType::Program, c);
    }
    if !is_unit_of_kind(units[c], answer, NcaType::Control) {
        lemma_next_candidate(units, answers, NcaType::Control, c);
    }
    if next.0.stage == Stage::UpdateUnit {
        let at = first_with_extension(units, unit_extension(), c + 1)->Some_0;
        assert(next.0.cursor == at);
        lemma_update_scan_takes_first_of_each(next.0, answers);
    }
}

} // verus!
