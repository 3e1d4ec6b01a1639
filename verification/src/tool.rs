//! The external executables, and the command lines that they are given.

use vstd::prelude::*;
use crate::error::Error;
use crate::text::views;

verus! {

/// An external executable that does part of the work.
#[derive(Debug, Clone, Copy, PartialEq, Eq, Structural)]
pub enum Capability {
    /// Prints a textual report about one content unit.
    Inspector,
    /// Extracts the members of a package into a directory.
    Unpacker,
    /// Merges a base and an update program unit into a resource tree and a
    /// code tree.
    Merger,
    /// Builds content units and packages.
    Packer,
}

/// One run of a capability: which one, with which arguments, and the path
/// that the run is about.
#[derive(Debug, PartialEq, Eq)]
pub struct Invocation {
    pub capability: Capability,
    pub args: Vec<String>,
    pub subject: String,
}

/// The mathematical value of an [`Invocation`].
pub struct InvocationView {
    pub capability: Capability,
    pub args: Seq<Seq<char>>,
    pub subject: Seq<char>,
}

impl View for Invocation {
    type V = InvocationView;

    open spec fn view(&self) -> InvocationView {
        InvocationView {
            capability: self.capability,
            args: views(self.args@),
            subject: self.subject@,
        }
    }
}

/// The run of the inspector on the content unit at `unit`.
pub open spec fn inspect_invocation(unit: Seq<char>) -> InvocationView {
    InvocationView { capability: Capability::Inspector, args: seq![unit], subject: unit }
}

/// The run of the unpacker that extracts `package` into `dir`.
pub open spec fn unpack_invocation(dir: Seq<char>, package: Seq<char>) -> InvocationView {
    InvocationView {
        capability: Capability::Unpacker,
        args: seq!["-t"@, "pfs0"@, "--pfs0dir"@, dir, package],
        subject: package,
    }
}

/// The run of the merger on the program units `base` and `update`, which
/// leaves a resource tree in `romfs` and a code tree in `exefs`.
pub open spec fn merge_invocation(
    base: Seq<char>,
    update: Seq<char>,
    romfs: Seq<char>,
    exefs: Seq<char>,
) -> InvocationView {
    InvocationView {
        capability: Capability::Merger,
        args: seq!["--basenca"@, base, update, "--romfsdir"@, romfs, "--exefsdir"@, exefs],
        subject: update,
    }
}

/// The run of the packer that builds a program unit in `outdir` from the
/// code tree `exefs` and the resource tree `romfs`.
pub open spec fn pack_program_invocation(
    keyset: Seq<char>,
    exefs: Seq<char>,
    romfs: Seq<char>,
    title_id: Seq<char>,
    outdir: Seq<char>,
) -> InvocationView {
    InvocationView {
        capability: Capability::Packer,
        args: seq![
            "--keyset"@,
            keyset,
            "--type"@,
            "nca"@,
            "--ncatype"@,
            "program"@,
            "--plaintext"@,
            "--exefsdir"@,
            exefs,
            "--romfsdir"@,
            romfs,
            "--titleid"@,
            title_id,
            "--outdir"@,
            outdir,
        ],
        subject: outdir,
    }
}

/// The run of the packer that builds, in `outdir`, the meta unit of an
/// application made of the units `program` and `control`.
pub open spec fn pack_meta_invocation(
    keyset: Seq<char>,
    program: Seq<char>,
    control: Seq<char>,
    title_id: Seq<char>,
    outdir: Seq<char>,
) -> InvocationView {
    InvocationView {
        capability: Capability::Packer,
        args: seq![
            "--keyset"@,
            keyset,
            "--type"@,
            "nca"@,
            "--ncatype"@,
            "meta"@,
            "--titletype"@,
            "application"@,
            "--programnca"@,
            program,
            "--controlnca"@,
            control,
            "--titleid"@,
            title_id,
            "--outdir"@,
            outdir,
        ],
        subject: outdir,
    }
}

/// The run of the packer that bundles the units in `ncadir` into one
/// package in `outdir`.
pub open spec fn pack_package_invocation(
    keyset: Seq<char>,
    ncadir: Seq<char>,
    title_id: Seq<char>,
    outdir: Seq<char>,
) -> InvocationView {
    InvocationView {
        capability: Capability::Packer,
        args: seq![
            "--keyset"@,
            keyset,
            "--type"@,
            "nsp"@,
            "--ncadir"@,
            ncadir,
            "--titleid"@,
            title_id,
            "--outdir"@,
            outdir,
        ],
        subject: outdir,
    }
}

/// Appends `arg` to `args`.
fn arg(args: &mut Vec<String>, arg: &str)
    ensures
        views(final(args)@) == views(old(args)@).push(arg@),
{
    args.push(arg.to_owned());
    assert(views(args@) =~= views(old(args)@).push(arg@));
}

impl Invocation {
    /// The run of the inspector on the content unit at `unit`.
    pub fn inspect(unit: &str) -> (run: Invocation)
        ensures
            run@ == inspect_invocation(unit@),
    {
        let mut args: Vec<String> = Vec::new();
        assert(views(args@) =~= Seq::<Seq<char>>::empty());
        arg(&mut args, unit);
        assert(views(args@) =~= seq![unit@]);
        Invocation { capability: Capability::Inspector, args, subject: unit.to_owned() }
    }

    /// The run of the unpacker that extracts `package` into `dir`.
    pub fn unpack(dir: &str, package: &str) -> (run: Invocation)
        ensures
            run@ == unpack_invocation(dir@, package@),
    {
        let mut args: Vec<String> = Vec::new();
        assert(views(args@) =~= Seq::<Seq<char>>::empty());
        arg(&mut args, "-t");
        arg(&mut args, "pfs0");
        arg(&mut args, "--pfs0dir");
        arg(&mut args, dir);
        arg(&mut args, package);
        assert(views(args@) =~= unpack_invocation(dir@, package@).args);
        Invocation { capability: Capability::Unpacker, args, subject: package.to_owned() }
    }

    /// The run of the merger on the program units `base` and `update`.
    pub fn merge(base: &str, update: &str, romfs: &str, exefs: &str) -> (run: Invocation)
        ensures
            run@ == merge_invocation(base@, update@, romfs@, exefs@),
    {
        let mut args: Vec<String> = Vec::new();
        assert(views(args@) =~= Seq::<Seq<char>>::empty());
        arg(&mut args, "--basenca");
        arg(&mut args, base);
        arg(&mut args, update);
        arg(&mut args, "--romfsdir");
        arg(&mut args, romfs);
        arg(&mut args, "--exefsdir");
        arg(&mut args, exefs);
        assert(views(args@) =~= merge_invocation(base@, update@, romfs@, exefs@).args);
        Invocation { capability: Capability::Merger, args, subject: update.to_owned() }
    }

    /// The run of the packer that builds a program unit.
    pub fn pack_program(
        keyset: &str,
        exefs: &str,
        romfs: &str,
        title_id: &str,
        outdir: &str,
    ) -> (run: Invocation)
        ensures
            run@ == pack_program_invocation(keyset@, exefs@, romfs@, title_id@, outdir@),
    {
        let mut args: Vec<String> = Vec::new();
        assert(views(args@) =~= Seq::<Seq<char>>::empty());
        arg(&mut args, "--keyset");
        arg(&mut args, keyset);
        arg(&mut args, "--type");
        arg(&mut args, "nca");
        arg(&mut args, "--ncatype");
        arg(&mut args, "program");
        arg(&mut args, "--plaintext");
        arg(&mut args, "--exefsdir");
        arg(&mut args, exefs);
        arg(&mut args, "--romfsdir");
        arg(&mut args, romfs);
        arg(&mut args, "--titleid");
        arg(&mut args, title_id);
        arg(&mut args, "--outdir");
        arg(&mut args, outdir);
        assert(views(args@) =~= pack_program_invocation(
            keyset@,
            exefs@,
            romfs@,
            title_id@,
            outdir@,
        ).args);
        Invocation { capability: Capability::Packer, args, subject: outdir.to_owned() }
    }

    /// The run of the packer that builds the meta unit of an application.
    pub fn pack_meta(
        keyset: &str,
        program: &str,
        control: &str,
        title_id: &str,
        outdir: &str,
    ) -> (run: Invocation)
        ensures
            run@ == pack_meta_invocation(keyset@, program@, control@, title_id@, outdir@),
    {
        let mut args: Vec<String> = Vec::new();
        assert(views(args@) =~= Seq::<Seq<char>>::empty());
        arg(&mut args, "--keyset");
        arg(&mut args, keyset);
        arg(&mut args, "--type");
        arg(&mut args, "nca");
        arg(&mut args, "--ncatype");
        arg(&mut args, "meta");
        arg(&mut args, "--titletype");
        arg(&mut args, "application");
        arg(&mut args, "--programnca");
        arg(&mut args, program);
        arg(&mut args, "--controlnca");
        arg(&mut args, control);
        arg(&mut args, "--titleid");
        arg(&mut args, title_id);
        arg(&mut args, "--outdir");
        arg(&mut args, outdir);
        assert(views(args@) =~= pack_meta_invocation(
            keyset@,
            program@,
            control@,
            title_id@,
            outdir@,
        ).args);
        Invocation { capability: Capability::Packer, args, subject: outdir.to_owned() }
    }

    /// The run of the packer that bundles the units of a directory into one
    /// package.
    pub fn pack_package(keyset: &str, ncadir: &str, title_id: &str, outdir: &str) -> (run:
        Invocation)
        ensures
            run@ == pack_package_invocation(keyset@, ncadir@, title_id@, outdir@),
    {
        let mut args: Vec<String> = Vec::new();
        assert(views(args@) =~= Seq::<Seq<char>>::empty());
        arg(&mut args, "--keyset");
        arg(&mut args, keyset);
        arg(&mut args, "--type");
        arg(&mut args, "nsp");
        arg(&mut args, "--ncadir");
        arg(&mut args, ncadir);
        arg(&mut args, "--titleid");
        arg(&mut args, title_id);
        arg(&mut args, "--outdir");
        arg(&mut args, outdir);
        assert(views(args@) =~= pack_package_invocation(
            keyset@,
            ncadir@,
            title_id@,
            outdir@,
        ).args);
        Invocation { capability: Capability::Packer, args, subject: outdir.to_owned() }
    }

    /// What a run that has ended amounts to: nothing to report where the
    /// capability exited with success, a tool error that names the
    /// capability and the subject where it did not.
    pub fn conclude(&self, success: bool) -> (res: Result<(), Error>)
        ensures
            success ==> res is Ok,
            !success ==> res is Err && res->Err_0@ == crate::error::ErrorView::ExternalTool(
                self@.capability,
                self@.subject,
            ),
    {
        if success {
            Ok(())
        } else {
            Err(Error::ExternalTool(self.capability, self.subject.clone()))
        }
    }
}

} // verus!
