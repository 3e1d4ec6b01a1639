//! What holds at every step of a run of the pipeline, whatever the
//! events are.

use vstd::prelude::*;
use crate::error::ErrorView;
use crate::patch::{ActionView, EventView, PipelineView, Severity, Stage};
use crate::tool::Capability;

verus! {

/// Whether the pipeline holds no directory once it has finished.
pub open spec fn tidy(p: PipelineView) -> bool {
    p.stage == Stage::Done ==> p.held().len() == 0
}

/// A run starts tidy and stays tidy.
pub proof fn lemma_tidy(p: PipelineView, event: EventView)
    requires
        tidy(p),
    ensures
        tidy(p.advanced(event).0),
{
}

/// The run ends only out of the teardown, or after its end; and whenever
/// the action is the end of the run, no directory is held.
pub proof fn lemma_finish_follows_teardown(p: PipelineView, event: EventView)
    requires
        tidy(p),
        p.advanced(event).1 is Finish,
    ensures
        p.stage == Stage::Teardown || p.stage == Stage::Done,
        p.advanced(event).0.stage == Stage::Done,
        p.advanced(event).0.held().len() == 0,
{
}

/// Whenever a run enters the teardown, be it at its good end or on a
/// failure, the action asks for the removal of every directory that is
/// held.
pub proof fn lemma_teardown_removes_all(p: PipelineView, event: EventView)
    requires
        p.stage != Stage::Teardown,
        p.stage != Stage::Done,
        p.advanced(event).0.stage == Stage::Teardown,
    ensures
        p.advanced(event).1 == ActionView::Remove(p.advanced(event).0.held()),
{
}

/// The teardown ends the run with the failure that led into it, whatever
/// the removal came to; without a failure it ends the run with the handle
/// of the patched package.
pub proof fn lemma_teardown_reports(p: PipelineView, event: EventView)
    requires
        p.stage == Stage::Teardown,
    ensures
        p.advanced(event).1 == ActionView::Finish(p.outcome()),
        p.failure matches Some(error) ==> p.advanced(event).1 == ActionView::Finish(
            Err(error),
        ),
{
}

/// A directory that was created is held from the step that learns of it.
pub proof fn lemma_directory_held_at_once(p: PipelineView, dir: Seq<char>)
    requires
        p.stage == Stage::BaseDir || p.stage == Stage::UpdateDir || p.stage == Stage::PatchDir,
    ensures
        p.advanced(EventView::Directory(dir)).0.held().contains(dir),
{
    let q = p.advanced(EventView::Directory(dir)).0;
    if p.stage == Stage::PatchDir {
        let at = p.extraction.len() + p.workspace.len();
        assert(q.held()[at as int] == dir);
    } else {
        let at = p.extraction.len();
        assert(q.held()[at as int] == dir);
    }
}

/// A directory that is held stays held, except through the two steps that
/// answer a removal: the early cleanup and the teardown.
pub proof fn lemma_held_until_removed(p: PipelineView, event: EventView, dir: Seq<char>)
    requires
        p.stage != Stage::EarlyCleanup,
        p.stage != Stage::Teardown,
        p.held().contains(dir),
    ensures
        p.advanced(event).0.held().contains(dir),
{
    let q = p.advanced(event).0;
    let i = choose|i: int| 0 <= i < p.held().len() && p.held()[i] == dir;
    if q.extraction == p.extraction && q.workspace == p.workspace {
        assert(q.held()[i] == dir);
    } else if q.extraction == p.extraction {
        assert(q.workspace == p.workspace.push(q.patch_dir));
        assert(q.held()[i] == dir);
    } else {
        assert(q.workspace == p.workspace);
        if i < p.extraction.len() {
            assert(q.held()[i] == dir);
        } else {
            assert(q.held()[i + 1] == dir);
        }
    }
}

/// The early cleanup gives up the extraction directories and nothing
/// else; the step before it asked for their removal.
pub proof fn lemma_early_cleanup(p: PipelineView, event: EventView)
    ensures
        p.stage == Stage::MoveControl && event is Done ==> p.advanced(event).1
            == ActionView::Remove(p.extraction),
        p.stage == Stage::EarlyCleanup ==> p.advanced(event).0.workspace == p.workspace,
        p.stage == Stage::EarlyCleanup && event is Removed ==> p.advanced(
            event,
        ).0.extraction.len() == 0,
{
}

/// The two packages stay where they are, and a title key, once a package
/// has one, is neither taken away nor replaced.
pub proof fn lemma_packages_kept(p: PipelineView, event: EventView)
    ensures
        p.advanced(event).0.base.path == p.base.path,
        p.advanced(event).0.update.path == p.update.path,
        p.base.title_key is Some ==> p.advanced(event).0.base.title_key == p.base.title_key,
        p.update.title_key is Some ==> p.advanced(event).0.update.title_key
            == p.update.title_key,
{
}

/// No warning is ever dropped: the warnings before a step are the first
/// of the warnings after it.
pub proof fn lemma_warnings_kept(p: PipelineView, event: EventView)
    ensures
        p.warnings.len() <= p.advanced(event).0.warnings.len(),
        p.advanced(event).0.warnings.take(p.warnings.len() as int) == p.warnings,
{
    let q = p.advanced(event).0;
    if q.warnings == p.warnings {
        assert(q.warnings.take(p.warnings.len() as int) =~= p.warnings);
    } else {
        let last = q.warnings.last();
        assert(q.warnings == p.warnings.push(last));
        assert(q.warnings.take(p.warnings.len() as int) =~= p.warnings);
    }
}

/// A merge that exits without success does not change what comes next:
/// the run goes on as after a merge that exited with success, with one
/// warning more.
pub proof fn lemma_merge_failure_put_up_with(p: PipelineView, output: Seq<u8>)
    requires
        p.stage == Stage::Merge,
    ensures
        p.advanced(EventView::Exited { success: false, output }) == p.warn(
            ErrorView::ExternalTool(Capability::Merger, p.program),
        ).advanced(EventView::Exited { success: true, output }),
{
}

/// Where a capability exits without success at a stage that does not put
/// up with failures, the run fails with a tool error that names the
/// capability.
pub proof fn lemma_tool_failure_fatal(p: PipelineView, output: Seq<u8>)
    requires
        p.stage == Stage::ExtractBase || p.stage == Stage::ExtractUpdate || p.stage
            == Stage::PackProgram || p.stage == Stage::PackMeta || p.stage == Stage::PackPackage,
    ensures
        p.stage.severity() == Severity::Fatal,
        p.advanced(EventView::Exited { success: false, output }).0.stage == Stage::Teardown,
        p.advanced(EventView::Exited { success: false, output }).0.failure matches Some(
            ErrorView::ExternalTool(capability, _),
        ) && capability == (if p.stage == Stage::ExtractBase || p.stage == Stage::ExtractUpdate {
            Capability::Unpacker
        } else {
            Capability::Packer
        }),
{
}

/// An action that could not be carried out ends the run with an I/O error,
/// except where a ticket could not be read or the inspector could not be
/// run during a scan.
pub proof fn lemma_failed_action_fatal(p: PipelineView)
    requires
        p.stage.severity() == Severity::Fatal,
        p.stage != Stage::Teardown,
        p.stage != Stage::Done,
    ensures
        p.advanced(EventView::Failed) == p.fail(ErrorView::Io),
{
}

} // verus!
