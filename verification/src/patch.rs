//! Patching a base package with its update, one step at a time.
//!
//! The work alternates between deciding and doing. The deciding is here:
//! a [`Pipeline`] is told what the last action led to and says which
//! action comes next. The doing, which creates directories, runs the
//! capabilities and moves files, is left to whoever drives the pipeline.
//!
//! Where a package holds several program units, the scan takes the first
//! in ascending order of size, which is the smallest.

use vstd::prelude::*;
use crate::error::{Error, ErrorView, Missing};
use crate::path::{file_name, join, path_file_name, path_join};
use crate::rom::{
    inspected, package, short_title_id, shorten_title_id, ticket_extension, unit_extension, Nca,
    NcaType, NcaView, Nsp, NspView,
};
use crate::scan::{
    as_walked, by_size, find_with_extension, first_with_extension, sized, walked, Entry, EntryView,
};
use crate::text::{optional, views};
use crate::tool::{
    inspect_invocation, merge_invocation, pack_meta_invocation, pack_package_invocation,
    pack_program_invocation, unpack_invocation, Capability, Invocation, InvocationView,
};
use crate::utils::{closing, key_record, CleanupDirsOnDrop, Removal, RemovalView};

verus! {

/// What the pipeline is waiting for.
#[derive(Debug, Clone, Copy, PartialEq, Eq, Structural)]
pub enum Stage {
    /// The directory into which the base package is extracted.
    BaseDir,
    /// The directory into which the update package is extracted.
    UpdateDir,
    /// The end of the extraction of the base package.
    ExtractBase,
    /// The end of the extraction of the update package.
    ExtractUpdate,
    /// The members of the base package.
    BaseListing,
    /// The bytes of the ticket of the base package.
    BaseTicket,
    /// The members of the update package.
    UpdateListing,
    /// The bytes of the ticket of the update package.
    UpdateTicket,
    /// The writing of the key record.
    KeyRecord,
    /// The report on a content unit of the base package.
    BaseUnit,
    /// The report on a content unit of the update package.
    UpdateUnit,
    /// The directory in which the patch is put together.
    PatchDir,
    /// The end of the merge of the two program units.
    Merge,
    /// The move of the control unit into the patch directory.
    MoveControl,
    /// The removal of the two extraction directories.
    EarlyCleanup,
    /// The end of the packing of the patched program unit.
    PackProgram,
    /// The files that the packer left.
    PatchedListing,
    /// The report on the patched program unit.
    PatchedUnit,
    /// The end of the packing of the meta unit.
    PackMeta,
    /// The directory that receives the patched package.
    OutputDir,
    /// The end of the packing of the patched package.
    PackPackage,
    /// The removal of the directories that are left.
    Teardown,
    /// Nothing: the pipeline has finished.
    Done,
}

/// What a failure at a stage means for the run.
#[derive(Debug, Clone, Copy, PartialEq, Eq, Structural)]
pub enum Severity {
    /// The run is over.
    Fatal,
    /// The failure is kept as a warning and the run goes on.
    Warning,
}

impl Stage {
    /// What a failure at this stage means for the run. A title key that
    /// cannot be derived, a content unit that cannot be classified during
    /// a scan, a merge that exits without success and an extraction
    /// directory that cannot be removed are put up with; everything
    /// else ends the run.
    pub open spec fn severity(self) -> Severity {
        match self {
            Stage::BaseTicket | Stage::UpdateTicket | Stage::BaseUnit | Stage::UpdateUnit
            | Stage::Merge | Stage::EarlyCleanup => Severity::Warning,
            _ => Severity::Fatal,
        }
    }

    /// What a failure at this stage means for the run.
    pub fn failure_severity(&self) -> (severity: Severity)
        ensures
            severity == self.severity(),
    {
        match self {
            Stage::BaseTicket | Stage::UpdateTicket | Stage::BaseUnit | Stage::UpdateUnit
            | Stage::Merge | Stage::EarlyCleanup => Severity::Warning,
            _ => Severity::Fatal,
        }
    }
}

/// What an action led to.
#[derive(Debug, PartialEq, Eq)]
pub enum Event {
    /// The action was carried out, and there is nothing to hand back.
    Done,
    /// The action could not be carried out.
    Failed,
    /// The directory that was asked for.
    Directory(String),
    /// A capability ran to its end: whether it exited with success, and
    /// what it wrote to its standard output.
    Exited { success: bool, output: Vec<u8> },
    /// What a walk through a directory came by, in its order.
    Listed(Vec<Entry>),
    /// The bytes of a file.
    Read(Vec<u8>),
    /// How the removal of each directory ended, in the order in which the
    /// directories were given.
    Removed(Vec<Removal>),
}

/// The mathematical value of an [`Event`].
pub enum EventView {
    Done,
    Failed,
    Directory(Seq<char>),
    Exited { success: bool, output: Seq<u8> },
    Listed(Seq<EntryView>),
    Read(Seq<u8>),
    Removed(Seq<RemovalView>),
}

impl View for Event {
    type V = EventView;

    open spec fn view(&self) -> EventView {
        match *self {
            Event::Done => EventView::Done,
            Event::Failed => EventView::Failed,
            Event::Directory(dir) => EventView::Directory(dir@),
            Event::Exited { success, output } => EventView::Exited { success, output: output@ },
            Event::Listed(entries) => EventView::Listed(views(entries@)),
            Event::Read(bytes) => EventView::Read(bytes@),
            Event::Removed(outcomes) => EventView::Removed(views(outcomes@)),
        }
    }
}

/// What is to be done next.
#[derive(Debug, PartialEq, Eq)]
pub enum Action {
    /// Create a fresh temporary directory whose name starts with the given
    /// text. Answered by [`Event::Directory`].
    CreateTempDir(String),
    /// Run a capability to its end. Answered by [`Event::Exited`].
    Run(Invocation),
    /// Walk through a directory, and through the directories below it.
    /// Answered by [`Event::Listed`].
    List(String),
    /// Read a file. Answered by [`Event::Read`].
    ReadFile(String),
    /// Write the key record, in place of the one that may be there.
    /// Answered by [`Event::Done`].
    WriteKeyRecord(String),
    /// Move a file, creating the directory that receives it. Answered by
    /// [`Event::Done`].
    MoveFile { from: String, to: String },
    /// Remove each of the directories, whether or not the removal of
    /// another failed. Answered by [`Event::Removed`].
    Remove(Vec<String>),
    /// Find the directory that receives the patched package. Answered by
    /// [`Event::Directory`].
    ResolveOutputDir,
    /// Nothing more: this is how the run ended.
    Finish(Result<Nsp, Error>),
}

/// The mathematical value of an [`Action`].
pub enum ActionView {
    CreateTempDir(Seq<char>),
    Run(InvocationView),
    List(Seq<char>),
    ReadFile(Seq<char>),
    WriteKeyRecord(Seq<char>),
    MoveFile { from: Seq<char>, to: Seq<char> },
    Remove(Seq<Seq<char>>),
    ResolveOutputDir,
    Finish(Result<NspView, ErrorView>),
}

impl View for Action {
    type V = ActionView;

    open spec fn view(&self) -> ActionView {
        match *self {
            Action::CreateTempDir(prefix) => ActionView::CreateTempDir(prefix@),
            Action::Run(run) => ActionView::Run(run@),
            Action::List(dir) => ActionView::List(dir@),
            Action::ReadFile(path) => ActionView::ReadFile(path@),
            Action::WriteKeyRecord(content) => ActionView::WriteKeyRecord(content@),
            Action::MoveFile { from, to } => ActionView::MoveFile { from: from@, to: to@ },
            Action::Remove(dirs) => ActionView::Remove(views(dirs@)),
            Action::ResolveOutputDir => ActionView::ResolveOutputDir,
            Action::Finish(result) => ActionView::Finish(
                match result {
                    Ok(nsp) => Ok(nsp@),
                    Err(e) => Err(e@),
                },
            ),
        }
    }
}

/// The name of the patched package of the title with the short id
/// `title_id`.
pub open spec fn patched_name(title_id: Seq<char>) -> Seq<char> {
    title_id + "[yanu-patched].nsp"@
}

/// The state of a run: where it stands, and what it has gathered.
#[derive(Debug)]
pub struct Pipeline {
    stage: Stage,
    base: Nsp,
    update: Nsp,
    keyset: String,
    base_dir: String,
    update_dir: String,
    base_units: Vec<String>,
    update_units: Vec<String>,
    cursor: usize,
    base_program: String,
    base_title_id: Option<String>,
    update_program: Option<String>,
    update_control: Option<String>,
    program: String,
    control: String,
    moved_control: String,
    patch_dir: String,
    title_id: String,
    patched: String,
    outdir: String,
    output: String,
    extraction: CleanupDirsOnDrop,
    workspace: CleanupDirsOnDrop,
    warnings: Vec<Error>,
    failure: Option<Error>,
}

/// The mathematical value of a [`Pipeline`].
pub struct PipelineView {
    /// What the pipeline is waiting for.
    pub stage: Stage,
    /// The base package.
    pub base: NspView,
    /// The update package.
    pub update: NspView,
    /// Where the keys lie that the packer needs.
    pub keyset: Seq<char>,
    /// Where the base package is extracted.
    pub base_dir: Seq<char>,
    /// Where the update package is extracted.
    pub update_dir: Seq<char>,
    /// The members of the base package, in the order of the scan.
    pub base_units: Seq<Seq<char>>,
    /// The members of the update package, in the order of the scan.
    pub update_units: Seq<Seq<char>>,
    /// The place in the scan of the member that is being inspected.
    pub cursor: int,
    /// The program unit of the base package.
    pub base_program: Seq<char>,
    /// The title id that the report on that unit gave.
    pub base_title_id: Option<Seq<char>>,
    /// The program unit of the update package, once the scan came by one.
    pub update_program: Option<Seq<char>>,
    /// The control unit of the update package, once the scan came by one.
    pub update_control: Option<Seq<char>>,
    /// The program unit of the update package, when the scan is over.
    pub program: Seq<char>,
    /// Where the control unit lies.
    pub control: Seq<char>,
    /// Where the control unit is being moved.
    pub moved_control: Seq<char>,
    /// Where the patch is put together.
    pub patch_dir: Seq<char>,
    /// The short title id, which names the units and the package built.
    pub title_id: Seq<char>,
    /// The file that is taken for the patched program unit.
    pub patched: Seq<char>,
    /// Where the patched package goes.
    pub outdir: Seq<char>,
    /// The patched package.
    pub output: Seq<char>,
    /// The extraction directories that exist.
    pub extraction: Seq<Seq<char>>,
    /// The patch directory, once it exists.
    pub workspace: Seq<Seq<char>>,
    /// The failures that the run put up with, in their order.
    pub warnings: Seq<ErrorView>,
    /// The failure that ended the run.
    pub failure: Option<ErrorView>,
}

impl View for Pipeline {
    type V = PipelineView;

    closed spec fn view(&self) -> PipelineView {
        PipelineView {
            stage: self.stage,
            base: self.base@,
            update: self.update@,
            keyset: self.keyset@,
            base_dir: self.base_dir@,
            update_dir: self.update_dir@,
            base_units: views(self.base_units@),
            update_units: views(self.update_units@),
            cursor: self.cursor as int,
            base_program: self.base_program@,
            base_title_id: optional(self.base_title_id),
            update_program: optional(self.update_program),
            update_control: optional(self.update_control),
            program: self.program@,
            control: self.control@,
            moved_control: self.moved_control@,
            patch_dir: self.patch_dir@,
            title_id: self.title_id@,
            patched: self.patched@,
            outdir: self.outdir@,
            output: self.output@,
            extraction: self.extraction@,
            workspace: self.workspace@,
            warnings: views(self.warnings@),
            failure: match self.failure {
                Some(e) => Some(e@),
                None => None,
            },
        }
    }
}

/// The state in which a run starts.
pub open spec fn started(base: NspView, update: NspView, keyset: Seq<char>) -> PipelineView {
    PipelineView {
        stage: Stage::BaseDir,
        base,
        update,
        keyset,
        base_dir: Seq::empty(),
        update_dir: Seq::empty(),
        base_units: Seq::empty(),
        update_units: Seq::empty(),
        cursor: 0,
        base_program: Seq::empty(),
        base_title_id: None,
        update_program: None,
        update_control: None,
        program: Seq::empty(),
        control: Seq::empty(),
        moved_control: Seq::empty(),
        patch_dir: Seq::empty(),
        title_id: Seq::empty(),
        patched: Seq::empty(),
        outdir: Seq::empty(),
        output: Seq::empty(),
        extraction: Seq::empty(),
        workspace: Seq::empty(),
        warnings: Seq::empty(),
        failure: None,
    }
}

/// The action with which a run starts.
pub open spec fn first_action() -> ActionView {
    ActionView::CreateTempDir("basedata"@)
}

/// What the run of the inspector on the unit at `path` came to.
pub open spec fn report_on(path: Seq<char>, event: EventView) -> Result<NcaView, ErrorView> {
    match event {
        EventView::Exited { success, output } => inspected(path, success, output),
        EventView::Failed => Err(ErrorView::Io),
        _ => Err(ErrorView::InternalInvariant),
    }
}

impl PipelineView {
    /// Where the merger leaves the resource tree.
    pub open spec fn romfs_dir(self) -> Seq<char> {
        path_join(self.patch_dir, "romfs"@)
    }

    /// Where the merger leaves the code tree.
    pub open spec fn exefs_dir(self) -> Seq<char> {
        path_join(self.patch_dir, "exefs"@)
    }

    /// Where the units of the patched package are gathered.
    pub open spec fn nca_dir(self) -> Seq<char> {
        path_join(self.patch_dir, "nca"@)
    }

    /// The directories that the run has created and not yet given up.
    pub open spec fn held(self) -> Seq<Seq<char>> {
        self.extraction + self.workspace
    }

    /// The same state at another stage.
    pub open spec fn at(self, stage: Stage) -> PipelineView {
        PipelineView { stage, ..self }
    }

    /// The same state with one more warning.
    pub open spec fn warn(self, error: ErrorView) -> PipelineView {
        PipelineView { warnings: self.warnings.push(error), ..self }
    }

    /// The run fails: everything that is held is to be removed, and the
    /// failure is kept for the end.
    pub open spec fn fail(self, error: ErrorView) -> (PipelineView, ActionView) {
        (
            PipelineView { stage: Stage::Teardown, failure: Some(error), ..self },
            ActionView::Remove(self.held()),
        )
    }

    /// The run fails on an event that the stage has no use for: an I/O
    /// error where the action could not be carried out, a broken
    /// invariant where the event answers another action.
    pub open spec fn refuse(self, event: EventView) -> (PipelineView, ActionView) {
        if event is Failed {
            self.fail(ErrorView::Io)
        } else {
            self.fail(ErrorView::InternalInvariant)
        }
    }

    /// What a failure at the present stage leads to: the state with a
    /// warning where the stage puts up with failures, the failure itself
    /// where it does not. Without a failure the state stays as it is.
    pub open spec fn settle(self, failure: Option<ErrorView>) -> Result<PipelineView, ErrorView> {
        match failure {
            None => Ok(self),
            Some(error) => match self.stage.severity() {
                Severity::Warning => Ok(self.warn(error)),
                Severity::Fatal => Err(error),
            },
        }
    }

    /// The failure of a capability that worked on `subject`, unless it
    /// exited with success.
    pub open spec fn tool_failure(capability: Capability, subject: Seq<char>, success: bool)
        -> Option<ErrorView> {
        if success {
            None
        } else {
            Some(ErrorView::ExternalTool(capability, subject))
        }
    }

    /// The base extraction directory exists: it is held from now on, and
    /// the update extraction directory is asked for.
    pub open spec fn on_base_dir(self, event: EventView) -> (PipelineView, ActionView) {
        match event {
            EventView::Directory(dir) => (
                PipelineView {
                    stage: Stage::UpdateDir,
                    base_dir: dir,
                    extraction: self.extraction.push(dir),
                    ..self
                },
                ActionView::CreateTempDir("updatedata"@),
            ),
            _ => self.refuse(event),
        }
    }

    /// The update extraction directory exists: it is held from now on, and
    /// the base package is extracted.
    pub open spec fn on_update_dir(self, event: EventView) -> (PipelineView, ActionView) {
        match event {
            EventView::Directory(dir) => (
                PipelineView {
                    stage: Stage::ExtractBase,
                    update_dir: dir,
                    extraction: self.extraction.push(dir),
                    ..self
                },
                ActionView::Run(unpack_invocation(self.base_dir, self.base.path)),
            ),
            _ => self.refuse(event),
        }
    }

    /// The base package is extracted: the update package comes next. An
    /// unpacker that exited without success ends the run.
    pub open spec fn on_extract_base(self, event: EventView) -> (PipelineView, ActionView) {
        match event {
            EventView::Exited { success, output } => match self.settle(
                Self::tool_failure(Capability::Unpacker, self.base.path, success),
            ) {
                Ok(next) => (
                    next.at(Stage::ExtractUpdate),
                    ActionView::Run(unpack_invocation(next.update_dir, next.update.path)),
                ),
                Err(error) => self.fail(error),
            },
            _ => self.refuse(event),
        }
    }

    /// The update package is extracted: the members of the base package are
    /// listed next.
    pub open spec fn on_extract_update(self, event: EventView) -> (PipelineView, ActionView) {
        match event {
            EventView::Exited { success, output } => match self.settle(
                Self::tool_failure(Capability::Unpacker, self.update.path, success),
            ) {
                Ok(next) => (next.at(Stage::BaseListing), ActionView::List(next.base_dir)),
                Err(error) => self.fail(error),
            },
            _ => self.refuse(event),
        }
    }

    /// The members of the update package are asked for.
    pub open spec fn to_update_listing(self) -> (PipelineView, ActionView) {
        (self.at(Stage::UpdateListing), ActionView::List(self.update_dir))
    }

    /// The key record is written: one line for the base package and one for
    /// the update package, each the textual form of the title key or `=`
    /// alone.
    pub open spec fn to_key_record(self) -> (PipelineView, ActionView) {
        (
            self.at(Stage::KeyRecord),
            ActionView::WriteKeyRecord(
                key_record(seq![self.base.title_key_text(), self.update.title_key_text()]),
            ),
        )
    }

    /// The members of the base package are known: they are put in the order
    /// of the scan, and the first ticket among them, in the order of the
    /// walk, is read unless the package has its title key. A package
    /// without a ticket is put up with.
    pub open spec fn on_base_listing(self, event: EventView) -> (PipelineView, ActionView) {
        match event {
            EventView::Listed(entries) => {
                let listed = PipelineView { base_units: by_size(entries), ..self };
                if listed.base.title_key is Some {
                    listed.to_update_listing()
                } else {
                    match first_with_extension(as_walked(entries), ticket_extension(), 0) {
                        Some(at) => (
                            listed.at(Stage::BaseTicket),
                            ActionView::ReadFile(as_walked(entries)[at]),
                        ),
                        None => match listed.at(Stage::BaseTicket).settle(
                            Some(ErrorView::NotFound(Missing::Ticket)),
                        ) {
                            Ok(next) => next.to_update_listing(),
                            Err(error) => listed.at(Stage::BaseTicket).fail(error),
                        },
                    }
                }
            },
            _ => self.refuse(event),
        }
    }

    /// The ticket of the base package was read: its title key is derived. A
    /// ticket that cannot be read, or that is too short, is put up with.
    pub open spec fn on_base_ticket(self, event: EventView) -> (PipelineView, ActionView) {
        match event {
            EventView::Read(bytes) => {
                let derived = PipelineView { base: self.base.derived(Some(bytes)), ..self };
                let failure = match self.base.derivation(Some(bytes)) {
                    Ok(_) => None,
                    Err(error) => Some(error),
                };
                match derived.settle(failure) {
                    Ok(next) => next.to_update_listing(),
                    Err(error) => derived.fail(error),
                }
            },
            EventView::Failed => match self.settle(Some(ErrorView::Io)) {
                Ok(next) => next.to_update_listing(),
                Err(error) => self.fail(error),
            },
            _ => self.refuse(event),
        }
    }

    /// The members of the update package are known: as for the base
    /// package.
    pub open spec fn on_update_listing(self, event: EventView) -> (PipelineView, ActionView) {
        match event {
            EventView::Listed(entries) => {
                let listed = PipelineView { update_units: by_size(entries), ..self };
                if listed.update.title_key is Some {
                    listed.to_key_record()
                } else {
                    match first_with_extension(as_walked(entries), ticket_extension(), 0) {
                        Some(at) => (
                            listed.at(Stage::UpdateTicket),
                            ActionView::ReadFile(as_walked(entries)[at]),
                        ),
                        None => match listed.at(Stage::UpdateTicket).settle(
                            Some(ErrorView::NotFound(Missing::Ticket)),
                        ) {
                            Ok(next) => next.to_key_record(),
                            Err(error) => listed.at(Stage::UpdateTicket).fail(error),
                        },
                    }
                }
            },
            _ => self.refuse(event),
        }
    }

    /// The ticket of the update package was read: as for the base package.
    pub open spec fn on_update_ticket(self, event: EventView) -> (PipelineView, ActionView) {
        match event {
            EventView::Read(bytes) => {
                let derived = PipelineView { update: self.update.derived(Some(bytes)), ..self };
                let failure = match self.update.derivation(Some(bytes)) {
                    Ok(_) => None,
                    Err(error) => Some(error),
                };
                match derived.settle(failure) {
                    Ok(next) => next.to_key_record(),
                    Err(error) => derived.fail(error),
                }
            },
            EventView::Failed => match self.settle(Some(ErrorView::Io)) {
                Ok(next) => next.to_key_record(),
                Err(error) => self.fail(error),
            },
            _ => self.refuse(event),
        }
    }

    /// The scan of the base package goes on at place `from`: the next
    /// content unit is to be inspected, and without one the base package
    /// has no program unit.
    pub open spec fn scan_base(self, from: int) -> (PipelineView, ActionView) {
        match first_with_extension(self.base_units, unit_extension(), from) {
            Some(at) => (
                PipelineView { stage: Stage::BaseUnit, cursor: at, ..self },
                ActionView::Run(inspect_invocation(self.base_units[at])),
            ),
            None => self.fail(ErrorView::NotFound(Missing::BaseProgram)),
        }
    }

    /// The scan of the update package goes on at place `from`: the next
    /// content unit is to be inspected, and without one the update
    /// package lacks a program unit or a control unit.
    pub open spec fn scan_update(self, from: int) -> (PipelineView, ActionView) {
        match first_with_extension(self.update_units, unit_extension(), from) {
            Some(at) => (
                PipelineView { stage: Stage::UpdateUnit, cursor: at, ..self },
                ActionView::Run(inspect_invocation(self.update_units[at])),
            ),
            None => self.fail(
                ErrorView::NotFound(
                    if self.update_program is None {
                        Missing::UpdateProgram
                    } else {
                        Missing::UpdateControl
                    },
                ),
            ),
        }
    }

    /// The key record is written: the scan of the base package starts.
    pub open spec fn on_key_record(self, event: EventView) -> (PipelineView, ActionView) {
        match event {
            EventView::Done => self.scan_base(0),
            _ => self.refuse(event),
        }
    }


    /// A unit of the base package was inspected: a program unit ends the
    /// scan of the base package and starts that of the update package; any
    /// other unit, and any failure of the inspection, sends the scan on to
    /// the next unit.
    pub open spec fn on_base_unit(self, event: EventView) -> (PipelineView, ActionView) {
        if !(0 <= self.cursor < self.base_units.len()) {
            self.fail(ErrorView::InternalInvariant)
        } else if !(event is Exited || event is Failed) {
            self.refuse(event)
        } else {
            match report_on(self.base_units[self.cursor], event) {
                Ok(unit) => if unit.content_type == NcaType::Program {
                    (PipelineView {
                        base_program: unit.path,
                        base_title_id: unit.title_id,
                        ..self
                    }).scan_update(0)
                } else {
                    self.scan_base(self.cursor + 1)
                },
                Err(error) => match self.settle(Some(error)) {
                    Ok(next) => next.scan_base(self.cursor + 1),
                    Err(error) => self.fail(error),
                },
            }
        }
    }

    /// The state after the scan of the update package came by `unit`: the
    /// first control unit and the first program unit are kept.
    pub open spec fn note(self, unit: NcaView) -> PipelineView {
        if unit.content_type == NcaType::Control && self.update_control is None {
            PipelineView { update_control: Some(unit.path), ..self }
        } else if unit.content_type == NcaType::Program && self.update_program is None {
            PipelineView { update_program: Some(unit.path), ..self }
        } else {
            self
        }
    }

    /// The scan of the update package is over once it has come by a
    /// program unit and a control unit; until then it goes on.
    pub open spec fn update_scanned(self) -> (PipelineView, ActionView) {
        match (self.update_program, self.update_control) {
            (Some(program), Some(control)) => (
                PipelineView { stage: Stage::PatchDir, program, control, ..self },
                ActionView::CreateTempDir("patch"@),
            ),
            _ => self.scan_update(self.cursor + 1),
        }
    }

    /// A unit of the update package was inspected: it is kept where it is
    /// the first of its kind, and a failure of the inspection is put up
    /// with.
    pub open spec fn on_update_unit(self, event: EventView) -> (PipelineView, ActionView) {
        if !(0 <= self.cursor < self.update_units.len()) {
            self.fail(ErrorView::InternalInvariant)
        } else if !(event is Exited || event is Failed) {
            self.refuse(event)
        } else {
            match report_on(self.update_units[self.cursor], event) {
                Ok(unit) => self.note(unit).update_scanned(),
                Err(error) => match self.settle(Some(error)) {
                    Ok(next) => next.scan_update(self.cursor + 1),
                    Err(error) => self.fail(error),
                },
            }
        }
    }

    /// The patch directory exists: it is held from now on, and the two
    /// program units are merged.
    pub open spec fn on_patch_dir(self, event: EventView) -> (PipelineView, ActionView) {
        match event {
            EventView::Directory(dir) => {
                let next = PipelineView {
                    stage: Stage::Merge,
                    patch_dir: dir,
                    workspace: self.workspace.push(dir),
                    ..self
                };
                (
                    next,
                    ActionView::Run(
                        merge_invocation(
                            next.base_program,
                            next.program,
                            next.romfs_dir(),
                            next.exefs_dir(),
                        ),
                    ),
                )
            },
            _ => self.refuse(event),
        }
    }

    /// The merge has ended, with or without success: the control unit is
    /// moved into the patch directory. A control unit whose path has no
    /// file name breaks an invariant.
    pub open spec fn on_merge(self, event: EventView) -> (PipelineView, ActionView) {
        match event {
            EventView::Exited { success, output } => match self.settle(
                Self::tool_failure(Capability::Merger, self.program, success),
            ) {
                Ok(next) => match path_file_name(next.control) {
                    Some(name) => {
                        let to = path_join(next.nca_dir(), name);
                        (
                            PipelineView { stage: Stage::MoveControl, moved_control: to, ..next },
                            ActionView::MoveFile { from: next.control, to },
                        )
                    },
                    None => next.fail(ErrorView::InternalInvariant),
                },
                Err(error) => self.fail(error),
            },
            _ => self.refuse(event),
        }
    }

    /// The control unit was moved: the two extraction directories are given
    /// up.
    pub open spec fn on_move_control(self, event: EventView) -> (PipelineView, ActionView) {
        match event {
            EventView::Done => (
                PipelineView { stage: Stage::EarlyCleanup, control: self.moved_control, ..self },
                ActionView::Remove(self.extraction),
            ),
            _ => self.refuse(event),
        }
    }

    /// The extraction directories were removed, or could not be, which is
    /// put up with: the patched program unit is packed under the short
    /// title id. A program unit of the base package without a title id
    /// breaks an invariant.
    pub open spec fn on_early_cleanup(self, event: EventView) -> (PipelineView, ActionView) {
        match event {
            EventView::Removed(outcomes) => {
                let failure = match closing(self.extraction, outcomes) {
                    Ok(_) => None,
                    Err(error) => Some(error),
                };
                let cleared = PipelineView { extraction: Seq::empty(), ..self };
                match cleared.settle(failure) {
                    Ok(next) => match next.base_title_id {
                        Some(title_id) => {
                            let packing = PipelineView {
                                stage: Stage::PackProgram,
                                title_id: short_title_id(title_id),
                                ..next
                            };
                            (
                                packing,
                                ActionView::Run(
                                    pack_program_invocation(
                                        packing.keyset,
                                        packing.exefs_dir(),
                                        packing.romfs_dir(),
                                        packing.title_id,
                                        packing.nca_dir(),
                                    ),
                                ),
                            )
                        },
                        None => next.fail(ErrorView::InternalInvariant),
                    },
                    Err(error) => cleared.fail(error),
                }
            },
            _ => self.refuse(event),
        }
    }

    /// The patched program unit is packed: the files that the packer left
    /// are listed.
    pub open spec fn on_pack_program(self, event: EventView) -> (PipelineView, ActionView) {
        match event {
            EventView::Exited { success, output } => match self.settle(
                Self::tool_failure(Capability::Packer, self.nca_dir(), success),
            ) {
                Ok(next) => (next.at(Stage::PatchedListing), ActionView::List(next.nca_dir())),
                Err(error) => self.fail(error),
            },
            _ => self.refuse(event),
        }
    }

    /// The files of the packer are known: the first content unit among
    /// them, in the order of the walk, is inspected. Without one the run
    /// fails.
    pub open spec fn on_patched_listing(self, event: EventView) -> (PipelineView, ActionView) {
        match event {
            EventView::Listed(entries) => match first_with_extension(
                as_walked(entries),
                unit_extension(),
                0,
            ) {
                Some(at) => (
                    PipelineView {
                        stage: Stage::PatchedUnit,
                        patched: as_walked(entries)[at],
                        ..self
                    },
                    ActionView::Run(inspect_invocation(as_walked(entries)[at])),
                ),
                None => self.fail(ErrorView::NotFound(Missing::PatchedProgram)),
            },
            _ => self.refuse(event),
        }
    }

    /// The patched program unit was inspected: the meta unit is packed. A
    /// unit that cannot be classified ends the run.
    pub open spec fn on_patched_unit(self, event: EventView) -> (PipelineView, ActionView) {
        match event {
            EventView::Exited { success, output } => match inspected(self.patched, success, output) {
                Ok(unit) => (
                    self.at(Stage::PackMeta),
                    ActionView::Run(
                        pack_meta_invocation(
                            self.keyset,
                            unit.path,
                            self.control,
                            self.title_id,
                            self.nca_dir(),
                        ),
                    ),
                ),
                Err(error) => self.fail(error),
            },
            _ => self.refuse(event),
        }
    }

    /// The meta unit is packed: the output directory is asked for.
    pub open spec fn on_pack_meta(self, event: EventView) -> (PipelineView, ActionView) {
        match event {
            EventView::Exited { success, output } => match self.settle(
                Self::tool_failure(Capability::Packer, self.nca_dir(), success),
            ) {
                Ok(next) => (next.at(Stage::OutputDir), ActionView::ResolveOutputDir),
                Err(error) => self.fail(error),
            },
            _ => self.refuse(event),
        }
    }

    /// The output directory is known: the package is packed into it, under
    /// the short title id.
    pub open spec fn on_output_dir(self, event: EventView) -> (PipelineView, ActionView) {
        match event {
            EventView::Directory(dir) => {
                let next = PipelineView {
                    stage: Stage::PackPackage,
                    outdir: dir,
                    output: path_join(dir, patched_name(self.title_id)),
                    ..self
                };
                (
                    next,
                    ActionView::Run(
                        pack_package_invocation(next.keyset, next.nca_dir(), next.title_id, dir),
                    ),
                )
            },
            _ => self.refuse(event),
        }
    }

    /// The package is packed: what is still held is removed.
    pub open spec fn on_pack_package(self, event: EventView) -> (PipelineView, ActionView) {
        match event {
            EventView::Exited { success, output } => match self.settle(
                Self::tool_failure(Capability::Packer, self.outdir, success),
            ) {
                Ok(next) => (next.at(Stage::Teardown), ActionView::Remove(next.held())),
                Err(error) => self.fail(error),
            },
            _ => self.refuse(event),
        }
    }

    /// How the run ends: with the failure that ended it, or else with the
    /// handle of the patched package, made as any other handle is.
    pub open spec fn outcome(self) -> Result<NspView, ErrorView> {
        match self.failure {
            Some(error) => Err(error),
            None => package(self.output),
        }
    }

    /// The removal has ended, however it ended: the run ends, and nothing
    /// is held any more.
    pub open spec fn on_teardown(self, event: EventView) -> (PipelineView, ActionView) {
        (
            PipelineView {
                stage: Stage::Done,
                extraction: Seq::empty(),
                workspace: Seq::empty(),
                failure: None,
                ..self
            },
            ActionView::Finish(self.outcome()),
        )
    }

    /// The run has ended before: nothing changes.
    pub open spec fn on_done(self, event: EventView) -> (PipelineView, ActionView) {
        (self, ActionView::Finish(Err(ErrorView::InternalInvariant)))
    }

    /// The state after `event`, and the action that comes next.
    pub open spec fn advanced(self, event: EventView) -> (PipelineView, ActionView) {
        match self.stage {
            Stage::BaseDir => self.on_base_dir(event),
            Stage::UpdateDir => self.on_update_dir(event),
            Stage::ExtractBase => self.on_extract_base(event),
            Stage::ExtractUpdate => self.on_extract_update(event),
            Stage::BaseListing => self.on_base_listing(event),
            Stage::BaseTicket => self.on_base_ticket(event),
            Stage::UpdateListing => self.on_update_listing(event),
            Stage::UpdateTicket => self.on_update_ticket(event),
            Stage::KeyRecord => self.on_key_record(event),
            Stage::BaseUnit => self.on_base_unit(event),
            Stage::UpdateUnit => self.on_update_unit(event),
            Stage::PatchDir => self.on_patch_dir(event),
            Stage::Merge => self.on_merge(event),
            Stage::MoveControl => self.on_move_control(event),
            Stage::EarlyCleanup => self.on_early_cleanup(event),
            Stage::PackProgram => self.on_pack_program(event),
            Stage::PatchedListing => self.on_patched_listing(event),
            Stage::PatchedUnit => self.on_patched_unit(event),
            Stage::PackMeta => self.on_pack_meta(event),
            Stage::OutputDir => self.on_output_dir(event),
            Stage::PackPackage => self.on_pack_package(event),
            Stage::Teardown => self.on_teardown(event),
            Stage::Done => self.on_done(event),
        }
    }
}

/// The mathematical value of a failure that may be absent.
pub open spec fn failure_view(failure: Option<Error>) -> Option<ErrorView> {
    match failure {
        Some(error) => Some(error@),
        None => None,
    }
}

/// The failure of a capability that worked on `subject`, unless it exited
/// with success.
fn tool_failure(capability: Capability, subject: &str, success: bool) -> (failure: Option<Error>)
    ensures
        failure_view(failure) == PipelineView::tool_failure(capability, subject@, success),
{
    if success {
        None
    } else {
        Some(Error::ExternalTool(capability, subject.to_owned()))
    }
}

/// A copy of a text that may be absent.
fn owned(text: Option<&str>) -> (copy: Option<String>)
    ensures
        match text {
            Some(t) => optional(copy) == Some(t@),
            None => copy is None,
        },
{
    match text {
        Some(t) => Some(t.to_owned()),
        None => None,
    }
}

/// Starts the patching of the package `base` with the package `update`.
/// `keyset` is where the keys lie that the packer needs.
///
/// The result is the pipeline in its first state, and the first action.
/// From then on each action is carried out and what it led to is handed
/// to [`Pipeline::advance`], which gives the next action, until that
/// action is [`Action::Finish`].
pub fn patch_nsp_with_update(base: Nsp, update: Nsp, keyset: &str) -> (start: (Pipeline, Action))
    ensures
        start.0@ == started(base@, update@, keyset@),
        start.1@ == first_action(),
{
    let pipeline = Pipeline {
        stage: Stage::BaseDir,
        base,
        update,
        keyset: keyset.to_owned(),
        base_dir: String::new(),
        update_dir: String::new(),
        base_units: Vec::new(),
        update_units: Vec::new(),
        cursor: 0,
        base_program: String::new(),
        base_title_id: None,
        update_program: None,
        update_control: None,
        program: String::new(),
        control: String::new(),
        moved_control: String::new(),
        patch_dir: String::new(),
        title_id: String::new(),
        patched: String::new(),
        outdir: String::new(),
        output: String::new(),
        extraction: CleanupDirsOnDrop::default(),
        workspace: CleanupDirsOnDrop::default(),
        warnings: Vec::new(),
        failure: None,
    };
    proof {
        assert(views(pipeline.base_units@) =~= Seq::<Seq<char>>::empty());
        assert(views(pipeline.update_units@) =~= Seq::<Seq<char>>::empty());
        assert(views(pipeline.warnings@) =~= Seq::<ErrorView>::empty());
    }
    (pipeline, Action::CreateTempDir("basedata".to_owned()))
}

impl Pipeline {
    /// What the pipeline is waiting for.
    pub fn stage(&self) -> (stage: Stage)
        ensures
            stage == self@.stage,
    {
        self.stage
    }

    /// The base package, with its title key where that was derived.
    pub fn base(&self) -> (base: &Nsp)
        ensures
            base@ == self@.base,
    {
        &self.base
    }

    /// The update package, with its title key where that was derived.
    pub fn update(&self) -> (update: &Nsp)
        ensures
            update@ == self@.update,
    {
        &self.update
    }

    /// The failures that the run put up with, in their order.
    pub fn warnings(&self) -> (warnings: &Vec<Error>)
        ensures
            views(warnings@) == self@.warnings,
    {
        &self.warnings
    }

    /// The directories that the run has created and not yet given up.
    pub fn held(&self) -> (dirs: Vec<String>)
        ensures
            views(dirs@) == self@.held(),
    {
        let first = self.extraction.dirs();
        let second = self.workspace.dirs();
        let mut dirs: Vec<String> = Vec::new();
        let mut i: usize = 0;
        while i < first.len()
            invariant
                i <= first.len(),
                dirs@.len() == i,
                forall|j: int| 0 <= j < i ==> (#[trigger] dirs@[j])@ == first@[j]@,
            decreases first.len() - i,
        {
            dirs.push(first[i].clone());
            i = i + 1;
        }
        let mut k: usize = 0;
        while k < second.len()
            invariant
                k <= second.len(),
                dirs@.len() == first.len() + k,
                forall|j: int| 0 <= j < first.len() ==> (#[trigger] dirs@[j])@ == first@[j]@,
                forall|j: int|
                    0 <= j < k ==> (#[trigger] dirs@[first.len() + j])@ == second@[j]@,
            decreases second.len() - k,
        {
            dirs.push(second[k].clone());
            k = k + 1;
        }
        assert forall|j: int| 0 <= j < dirs@.len() implies views(dirs@)[j] == (views(first@)
            + views(second@))[j] by {
            if j >= first.len() {
                assert(dirs@[first.len() + (j - first.len())]@ == second@[j - first.len()]@);
            }
        }
        assert(views(dirs@) =~= views(first@) + views(second@));
        dirs
    }

    fn warn(&mut self, error: Error)
        ensures
            final(self)@ == old(self)@.warn(error@),
    {
        self.warnings.push(error);
        assert(views(self.warnings@) =~= views(old(self).warnings@).push(error@));
    }

    fn fail(&mut self, error: Error) -> (action: Action)
        ensures
            (final(self)@, action@) == old(self)@.fail(error@),
    {
        let dirs = self.held();
        self.stage = Stage::Teardown;
        self.failure = Some(error);
        Action::Remove(dirs)
    }

    fn refuse(&mut self, event: &Event) -> (action: Action)
        ensures
            (final(self)@, action@) == old(self)@.refuse(event@),
    {
        match event {
            Event::Failed => self.fail(Error::Io),
            _ => self.fail(Error::InternalInvariant),
        }
    }

    fn settle(&mut self, failure: Option<Error>) -> (res: Result<(), Error>)
        ensures
            match res {
                Ok(()) => old(self)@.settle(failure_view(failure)) == Ok::<PipelineView, ErrorView>(
                    final(self)@,
                ),
                Err(error) => old(self)@.settle(failure_view(failure)) == Err::<
                    PipelineView,
                    ErrorView,
                >(error@) && final(self)@ == old(self)@,
            },
    {
        match failure {
            None => Ok(()),
            Some(error) => match self.stage.failure_severity() {
                Severity::Warning => {
                    self.warn(error);
                    Ok(())
                },
                Severity::Fatal => Err(error),
            },
        }
    }

    fn on_base_dir(&mut self, event: Event) -> (action: Action)
        ensures
            (final(self)@, action@) == old(self)@.on_base_dir(event@),
    {
        match event {
            Event::Directory(dir) => {
                self.base_dir = dir.clone();
                self.extraction.register(dir);
                self.stage = Stage::UpdateDir;
                Action::CreateTempDir("updatedata".to_owned())
            },
            other => self.refuse(&other),
        }
    }

    fn on_update_dir(&mut self, event: Event) -> (action: Action)
        ensures
            (final(self)@, action@) == old(self)@.on_update_dir(event@),
    {
        match event {
            Event::Directory(dir) => {
                self.update_dir = dir.clone();
                self.extraction.register(dir);
                self.stage = Stage::ExtractBase;
                Action::Run(self.base.extract_data_to(self.base_dir.as_str()))
            },
            other => self.refuse(&other),
        }
    }

    fn on_extract_base(&mut self, event: Event) -> (action: Action)
        ensures
            (final(self)@, action@) == old(self)@.on_extract_base(event@),
    {
        match event {
            Event::Exited { success, output } => {
                let failure = tool_failure(Capability::Unpacker, self.base.path(), success);
                match self.settle(failure) {
                    Ok(()) => {
                        self.stage = Stage::ExtractUpdate;
                        Action::Run(self.update.extract_data_to(self.update_dir.as_str()))
                    },
                    Err(error) => self.fail(error),
                }
            },
            other => self.refuse(&other),
        }
    }

    fn on_extract_update(&mut self, event: Event) -> (action: Action)
        ensures
            (final(self)@, action@) == old(self)@.on_extract_update(event@),
    {
        match event {
            Event::Exited { success, output } => {
                let failure = tool_failure(Capability::Unpacker, self.update.path(), success);
                match self.settle(failure) {
                    Ok(()) => {
                        self.stage = Stage::BaseListing;
                        Action::List(self.base_dir.clone())
                    },
                    Err(error) => self.fail(error),
                }
            },
            other => self.refuse(&other),
        }
    }

    fn to_update_listing(&mut self) -> (action: Action)
        ensures
            (final(self)@, action@) == old(self)@.to_update_listing(),
    {
        self.stage = Stage::UpdateListing;
        Action::List(self.update_dir.clone())
    }

    fn to_key_record(&mut self) -> (action: Action)
        ensures
            (final(self)@, action@) == old(self)@.to_key_record(),
    {
        self.stage = Stage::KeyRecord;
        let mut content = self.base.get_title_key();
        content.append("\n");
        let second = self.update.get_title_key();
        content.append(second.as_str());
        content.append("\n");
        proof {
            reveal_strlit("\n");
            assert("\n"@ =~= seq!['\n']);
            let lines = seq![self@.base.title_key_text(), self@.update.title_key_text()];
            assert(lines.drop_last() =~= seq![self@.base.title_key_text()]);
            assert(lines.drop_last().drop_last() =~= Seq::<Seq<char>>::empty());
            assert(key_record(lines.drop_last().drop_last()) =~= Seq::<char>::empty());
            assert(key_record(lines.drop_last()) =~= self@.base.title_key_text() + seq!['\n']);
            assert(content@ =~= key_record(lines));
        }
        Action::WriteKeyRecord(content)
    }

    fn on_base_listing(&mut self, event: Event) -> (action: Action)
        ensures
            (final(self)@, action@) == old(self)@.on_base_listing(event@),
    {
        match event {
            Event::Listed(entries) => {
                self.base_units = sized(&entries);
                if self.base.title_key().is_some() {
                    return self.to_update_listing();
                }
                let paths = walked(&entries);
                self.stage = Stage::BaseTicket;
                match find_with_extension(&paths, "tik", 0) {
                    Some(at) => {
                        assert(views(paths@)[at as int] == paths@[at as int]@);
                        Action::ReadFile(paths[at].clone())
                    },
                    None => match self.settle(Some(Error::NotFound(Missing::Ticket))) {
                        Ok(()) => self.to_update_listing(),
                        Err(error) => self.fail(error),
                    },
                }
            },
            other => self.refuse(&other),
        }
    }

    fn on_base_ticket(&mut self, event: Event) -> (action: Action)
        ensures
            (final(self)@, action@) == old(self)@.on_base_ticket(event@),
    {
        match event {
            Event::Read(bytes) => {
                let failure = match self.base.derive_title_key(Some(bytes.as_slice())) {
                    Ok(()) => None,
                    Err(error) => Some(error),
                };
                match self.settle(failure) {
                    Ok(()) => self.to_update_listing(),
                    Err(error) => self.fail(error),
                }
            },
            Event::Failed => match self.settle(Some(Error::Io)) {
                Ok(()) => self.to_update_listing(),
                Err(error) => self.fail(error),
            },
            other => self.refuse(&other),
        }
    }

    fn on_update_listing(&mut self, event: Event) -> (action: Action)
        ensures
            (final(self)@, action@) == old(self)@.on_update_listing(event@),
    {
        match event {
            Event::Listed(entries) => {
                self.update_units = sized(&entries);
                if self.update.title_key().is_some() {
                    return self.to_key_record();
                }
                let paths = walked(&entries);
                self.stage = Stage::UpdateTicket;
                match find_with_extension(&paths, "tik", 0) {
                    Some(at) => {
                        assert(views(paths@)[at as int] == paths@[at as int]@);
                        Action::ReadFile(paths[at].clone())
                    },
                    None => match self.settle(Some(Error::NotFound(Missing::Ticket))) {
                        Ok(()) => self.to_key_record(),
                        Err(error) => self.fail(error),
                    },
                }
            },
            other => self.refuse(&other),
        }
    }

    fn on_update_ticket(&mut self, event: Event) -> (action: Action)
        ensures
            (final(self)@, action@) == old(self)@.on_update_ticket(event@),
    {
        match event {
            Event::Read(bytes) => {
                let failure = match self.update.derive_title_key(Some(bytes.as_slice())) {
                    Ok(()) => None,
                    Err(error) => Some(error),
                };
                match self.settle(failure) {
                    Ok(()) => self.to_key_record(),
                    Err(error) => self.fail(error),
                }
            },
            Event::Failed => match self.settle(Some(Error::Io)) {
                Ok(()) => self.to_key_record(),
                Err(error) => self.fail(error),
            },
            other => self.refuse(&other),
        }
    }

    fn scan_base(&mut self, from: usize) -> (action: Action)
        ensures
            (final(self)@, action@) == old(self)@.scan_base(from as int),
    {
        match find_with_extension(&self.base_units, "nca", from) {
            Some(at) => {
                assert(views(self.base_units@)[at as int] == self.base_units@[at as int]@);
                self.stage = Stage::BaseUnit;
                self.cursor = at;
                Action::Run(Invocation::inspect(self.base_units[at].as_str()))
            },
            None => self.fail(Error::NotFound(Missing::BaseProgram)),
        }
    }

    fn scan_update(&mut self, from: usize) -> (action: Action)
        ensures
            (final(self)@, action@) == old(self)@.scan_update(from as int),
    {
        match find_with_extension(&self.update_units, "nca", from) {
            Some(at) => {
                assert(views(self.update_units@)[at as int] == self.update_units@[at as int]@);
                self.stage = Stage::UpdateUnit;
                self.cursor = at;
                Action::Run(Invocation::inspect(self.update_units[at].as_str()))
            },
            None => {
                let missing = if self.update_program.is_none() {
                    Missing::UpdateProgram
                } else {
                    Missing::UpdateControl
                };
                self.fail(Error::NotFound(missing))
            },
        }
    }

    fn on_key_record(&mut self, event: Event) -> (action: Action)
        ensures
            (final(self)@, action@) == old(self)@.on_key_record(event@),
    {
        match event {
            Event::Done => self.scan_base(0),
            other => self.refuse(&other),
        }
    }

    /// What the run of the inspector on the unit at `path` came to.
    fn report(path: &str, event: &Event) -> (res: Result<Nca, Error>)
        ensures
            match res {
                Ok(unit) => Ok::<NcaView, ErrorView>(unit@) == report_on(path@, event@),
                Err(error) => Err::<NcaView, ErrorView>(error@) == report_on(path@, event@),
            },
    {
        match event {
            Event::Exited { success, output } => Nca::from(path, *success, output.as_slice()),
            Event::Failed => Err(Error::Io),
            _ => Err(Error::InternalInvariant),
        }
    }

    fn on_base_unit(&mut self, event: Event) -> (action: Action)
        ensures
            (final(self)@, action@) == old(self)@.on_base_unit(event@),
    {
        if self.cursor >= self.base_units.len() {
            return self.fail(Error::InternalInvariant);
        }
        match &event {
            Event::Exited { .. } | Event::Failed => {},
            _ => {
                return self.refuse(&event);
            },
        }
        let next = self.cursor + 1;
        assert(views(self.base_units@)[self.cursor as int] == self.base_units@[self.cursor as int]@);
        match Pipeline::report(self.base_units[self.cursor].as_str(), &event) {
            Ok(unit) => match unit.content_type() {
                NcaType::Program => {
                    self.base_program = unit.path().to_owned();
                    self.base_title_id = owned(unit.title_id());
                    self.scan_update(0)
                },
                _ => self.scan_base(next),
            },
            Err(error) => match self.settle(Some(error)) {
                Ok(()) => self.scan_base(next),
                Err(error) => self.fail(error),
            },
        }
    }

    fn note(&mut self, unit: &Nca)
        ensures
            final(self)@ == old(self)@.note(unit@),
    {
        match unit.content_type() {
            NcaType::Control => {
                if self.update_control.is_none() {
                    self.update_control = Some(unit.path().to_owned());
                }
            },
            NcaType::Program => {
                if self.update_program.is_none() {
                    self.update_program = Some(unit.path().to_owned());
                }
            },
            _ => {},
        }
    }

    fn update_scanned(&mut self) -> (action: Action)
        requires
            0 <= old(self)@.cursor < old(self)@.update_units.len(),
        ensures
            (final(self)@, action@) == old(self)@.update_scanned(),
    {
        let found = match (&self.update_program, &self.update_control) {
            (Some(program), Some(control)) => Some((program.clone(), control.clone())),
            _ => None,
        };
        match found {
            Some((program, control)) => {
                self.program = program;
                self.control = control;
                self.stage = Stage::PatchDir;
                Action::CreateTempDir("patch".to_owned())
            },
            None => {
                let len = self.update_units.len();
                assert(self.cursor < len);
                let next = self.cursor + 1;
                self.scan_update(next)
            },
        }
    }

    fn on_update_unit(&mut self, event: Event) -> (action: Action)
        ensures
            (final(self)@, action@) == old(self)@.on_update_unit(event@),
    {
        if self.cursor >= self.update_units.len() {
            return self.fail(Error::InternalInvariant);
        }
        match &event {
            Event::Exited { .. } | Event::Failed => {},
            _ => {
                return self.refuse(&event);
            },
        }
        let next = self.cursor + 1;
        assert(views(self.update_units@)[self.cursor as int] == self.update_units@[self.cursor as int]@);
        match Pipeline::report(self.update_units[self.cursor].as_str(), &event) {
            Ok(unit) => {
                self.note(&unit);
                self.update_scanned()
            },
            Err(error) => match self.settle(Some(error)) {
                Ok(()) => self.scan_update(next),
                Err(error) => self.fail(error),
            },
        }
    }

    fn on_patch_dir(&mut self, event: Event) -> (action: Action)
        ensures
            (final(self)@, action@) == old(self)@.on_patch_dir(event@),
    {
        match event {
            Event::Directory(dir) => {
                self.patch_dir = dir.clone();
                self.workspace.register(dir);
                self.stage = Stage::Merge;
                let romfs = join(self.patch_dir.as_str(), "romfs");
                let exefs = join(self.patch_dir.as_str(), "exefs");
                Action::Run(
                    Invocation::merge(
                        self.base_program.as_str(),
                        self.program.as_str(),
                        romfs.as_str(),
                        exefs.as_str(),
                    ),
                )
            },
            other => self.refuse(&other),
        }
    }

    fn on_merge(&mut self, event: Event) -> (action: Action)
        ensures
            (final(self)@, action@) == old(self)@.on_merge(event@),
    {
        match event {
            Event::Exited { success, output } => {
                let failure = tool_failure(Capability::Merger, self.program.as_str(), success);
                match self.settle(failure) {
                    Ok(()) => match file_name(self.control.as_str()) {
                        Some(name) => {
                            let nca_dir = join(self.patch_dir.as_str(), "nca");
                            let to = join(nca_dir.as_str(), name.as_str());
                            self.moved_control = to.clone();
                            self.stage = Stage::MoveControl;
                            Action::MoveFile { from: self.control.clone(), to }
                        },
                        None => self.fail(Error::InternalInvariant),
                    },
                    Err(error) => self.fail(error),
                }
            },
            other => self.refuse(&other),
        }
    }

    fn on_move_control(&mut self, event: Event) -> (action: Action)
        ensures
            (final(self)@, action@) == old(self)@.on_move_control(event@),
    {
        match event {
            Event::Done => {
                self.control = self.moved_control.clone();
                self.stage = Stage::EarlyCleanup;
                Action::Remove(self.extraction.clone().dirs_owned())
            },
            other => self.refuse(&other),
        }
    }

    fn on_early_cleanup(&mut self, event: Event) -> (action: Action)
        ensures
            (final(self)@, action@) == old(self)@.on_early_cleanup(event@),
    {
        match event {
            Event::Removed(outcomes) => {
                let mut guard = CleanupDirsOnDrop::default();
                std::mem::swap(&mut guard, &mut self.extraction);
                let failure = match guard.close(&outcomes) {
                    Ok(()) => None,
                    Err(error) => Some(error),
                };
                match self.settle(failure) {
                    Ok(()) => {
                        let short = match &self.base_title_id {
                            Some(title_id) => Some(shorten_title_id(title_id.as_str())),
                            None => None,
                        };
                        match short {
                            Some(title_id) => {
                                self.title_id = title_id;
                                self.stage = Stage::PackProgram;
                                let exefs = join(self.patch_dir.as_str(), "exefs");
                                let romfs = join(self.patch_dir.as_str(), "romfs");
                                let nca_dir = join(self.patch_dir.as_str(), "nca");
                                Action::Run(
                                    Invocation::pack_program(
                                        self.keyset.as_str(),
                                        exefs.as_str(),
                                        romfs.as_str(),
                                        self.title_id.as_str(),
                                        nca_dir.as_str(),
                                    ),
                                )
                            },
                            None => self.fail(Error::InternalInvariant),
                        }
                    },
                    Err(error) => self.fail(error),
                }
            },
            other => self.refuse(&other),
        }
    }

    fn on_pack_program(&mut self, event: Event) -> (action: Action)
        ensures
            (final(self)@, action@) == old(self)@.on_pack_program(event@),
    {
        match event {
            Event::Exited { success, output } => {
                let nca_dir = join(self.patch_dir.as_str(), "nca");
                let failure = tool_failure(Capability::Packer, nca_dir.as_str(), success);
                match self.settle(failure) {
                    Ok(()) => {
                        self.stage = Stage::PatchedListing;
                        Action::List(nca_dir)
                    },
                    Err(error) => self.fail(error),
                }
            },
            other => self.refuse(&other),
        }
    }

    fn on_patched_listing(&mut self, event: Event) -> (action: Action)
        ensures
            (final(self)@, action@) == old(self)@.on_patched_listing(event@),
    {
        match event {
            Event::Listed(entries) => {
                let paths = walked(&entries);
                match find_with_extension(&paths, "nca", 0) {
                    Some(at) => {
                        assert(views(paths@)[at as int] == paths@[at as int]@);
                        self.patched = paths[at].clone();
                        self.stage = Stage::PatchedUnit;
                        Action::Run(Invocation::inspect(self.patched.as_str()))
                    },
                    None => self.fail(Error::NotFound(Missing::PatchedProgram)),
                }
            },
            other => self.refuse(&other),
        }
    }

    fn on_patched_unit(&mut self, event: Event) -> (action: Action)
        ensures
            (final(self)@, action@) == old(self)@.on_patched_unit(event@),
    {
        match event {
            Event::Exited { success, output } => match Nca::from(
                self.patched.as_str(),
                success,
                output.as_slice(),
            ) {
                Ok(unit) => {
                    self.stage = Stage::PackMeta;
                    let nca_dir = join(self.patch_dir.as_str(), "nca");
                    Action::Run(
                        Invocation::pack_meta(
                            self.keyset.as_str(),
                            unit.path(),
                            self.control.as_str(),
                            self.title_id.as_str(),
                            nca_dir.as_str(),
                        ),
                    )
                },
                Err(error) => self.fail(error),
            },
            other => self.refuse(&other),
        }
    }

    fn on_pack_meta(&mut self, event: Event) -> (action: Action)
        ensures
            (final(self)@, action@) == old(self)@.on_pack_meta(event@),
    {
        match event {
            Event::Exited { success, output } => {
                let nca_dir = join(self.patch_dir.as_str(), "nca");
                let failure = tool_failure(Capability::Packer, nca_dir.as_str(), success);
                match self.settle(failure) {
                    Ok(()) => {
                        self.stage = Stage::OutputDir;
                        Action::ResolveOutputDir
                    },
                    Err(error) => self.fail(error),
                }
            },
            other => self.refuse(&other),
        }
    }

    fn on_output_dir(&mut self, event: Event) -> (action: Action)
        ensures
            (final(self)@, action@) == old(self)@.on_output_dir(event@),
    {
        match event {
            Event::Directory(dir) => {
                let mut name = self.title_id.clone();
                name.append("[yanu-patched].nsp");
                self.output = join(dir.as_str(), name.as_str());
                self.stage = Stage::PackPackage;
                let nca_dir = join(self.patch_dir.as_str(), "nca");
                let run = Invocation::pack_package(
                    self.keyset.as_str(),
                    nca_dir.as_str(),
                    self.title_id.as_str(),
                    dir.as_str(),
                );
                self.outdir = dir;
                Action::Run(run)
            },
            other => self.refuse(&other),
        }
    }

    fn on_pack_package(&mut self, event: Event) -> (action: Action)
        ensures
            (final(self)@, action@) == old(self)@.on_pack_package(event@),
    {
        match event {
            Event::Exited { success, output } => {
                let failure = tool_failure(Capability::Packer, self.outdir.as_str(), success);
                match self.settle(failure) {
                    Ok(()) => {
                        self.stage = Stage::Teardown;
                        Action::Remove(self.held())
                    },
                    Err(error) => self.fail(error),
                }
            },
            other => self.refuse(&other),
        }
    }

    fn on_teardown(&mut self, event: Event) -> (action: Action)
        ensures
            (final(self)@, action@) == old(self)@.on_teardown(event@),
    {
        let result = match self.failure.take() {
            Some(error) => Err(error),
            None => Nsp::from(self.output.as_str()),
        };
        self.stage = Stage::Done;
        self.extraction = CleanupDirsOnDrop::default();
        self.workspace = CleanupDirsOnDrop::default();
        Action::Finish(result)
    }

    /// Takes in what the last action led to, and gives the action that
    /// comes next.
    pub fn advance(&mut self, event: Event) -> (action: Action)
        ensures
            (final(self)@, action@) == old(self)@.advanced(event@),
    {
        match self.stage {
            Stage::BaseDir => self.on_base_dir(event),
            Stage::UpdateDir => self.on_update_dir(event),
            Stage::ExtractBase => self.on_extract_base(event),
            Stage::ExtractUpdate => self.on_extract_update(event),
            Stage::BaseListing => self.on_base_listing(event),
            Stage::BaseTicket => self.on_base_ticket(event),
            Stage::UpdateListing => self.on_update_listing(event),
            Stage::UpdateTicket => self.on_update_ticket(event),
            Stage::KeyRecord => self.on_key_record(event),
            Stage::BaseUnit => self.on_base_unit(event),
            Stage::UpdateUnit => self.on_update_unit(event),
            Stage::PatchDir => self.on_patch_dir(event),
            Stage::Merge => self.on_merge(event),
            Stage::MoveControl => self.on_move_control(event),
            Stage::EarlyCleanup => self.on_early_cleanup(event),
            Stage::PackProgram => self.on_pack_program(event),
            Stage::PatchedListing => self.on_patched_listing(event),
            Stage::PatchedUnit => self.on_patched_unit(event),
            Stage::PackMeta => self.on_pack_meta(event),
            Stage::OutputDir => self.on_output_dir(event),
            Stage::PackPackage => self.on_pack_package(event),
            Stage::Teardown => self.on_teardown(event),
            Stage::Done => Action::Finish(Err(Error::InternalInvariant)),
        }
    }
}

} // verus!
