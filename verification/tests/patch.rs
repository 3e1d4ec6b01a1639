use hac::error::{Error, Invalid, Missing};
use hac::patch::{patch_nsp_with_update, Action, Event, Pipeline, Severity, Stage};
use hac::rom::Nsp;
use hac::scan::Entry;
use hac::tool::{Capability, Invocation};
use hac::utils::Removal;

const KEYSET: &str = "/keys/prod.keys";
const BASE_DIR: &str = "/tmp/basedata.1";
const UPDATE_DIR: &str = "/tmp/updatedata.2";
const PATCH_DIR: &str = "/tmp/patch.3";

fn entry(path: &str, size: u64) -> Entry {
    Entry { path: path.to_string(), size }
}

fn ticket(id: u8, key: u8) -> Vec<u8> {
    let mut blob = vec![0u8; 0x2b0];
    for i in 0..16 {
        blob[0x2a0 + i] = id;
        blob[0x180 + i] = key;
    }
    blob
}

fn exited(success: bool, report: &str) -> Event {
    Event::Exited { success, output: report.as_bytes().to_vec() }
}

fn ok() -> Event {
    exited(true, "")
}

fn report(kind: &str, title_id: &str) -> Event {
    exited(
        true,
        &format!(
            "NCA:\n    Content Type:                       {}\n    Title ID:                           {}\n",
            kind, title_id
        ),
    )
}

fn base_listing() -> Event {
    Event::Listed(vec![
        entry("/tmp/basedata.1", 4096),
        entry("/tmp/basedata.1/program.nca", 100),
        entry("/tmp/basedata.1/base.tik", 704),
        entry("/tmp/basedata.1/meta.nca", 10),
    ])
}

fn update_listing() -> Event {
    Event::Listed(vec![
        entry("/tmp/updatedata.2", 4096),
        entry("/tmp/updatedata.2/program.nca", 50),
        entry("/tmp/updatedata.2/control.nca", 20),
        entry("/tmp/updatedata.2/update.tik", 704),
    ])
}

fn patched_listing() -> Event {
    Event::Listed(vec![
        entry("/tmp/patch.3/nca", 4096),
        entry("/tmp/patch.3/nca/patched.nca", 200),
        entry("/tmp/patch.3/nca/control.nca", 20),
    ])
}

/// The events of a run in which everything goes well.
fn good_run() -> Vec<Event> {
    vec![
        Event::Directory(BASE_DIR.to_string()),
        Event::Directory(UPDATE_DIR.to_string()),
        ok(),
        ok(),
        base_listing(),
        Event::Read(ticket(0x01, 0xaa)),
        update_listing(),
        Event::Read(ticket(0x02, 0xbb)),
        Event::Done,
        report("Meta", "0100000000010000"),
        report("Program", "0100000000010000"),
        report("Control", "0100000000010800"),
        report("Program", "0100000000010800"),
        Event::Directory(PATCH_DIR.to_string()),
        ok(),
        Event::Done,
        Event::Removed(vec![Removal::Removed, Removal::Removed]),
        ok(),
        patched_listing(),
        report("Program", "0100000000010000"),
        ok(),
        Event::Directory("/out".to_string()),
        ok(),
        Event::Removed(vec![Removal::Removed]),
    ]
}

fn start() -> (Pipeline, Action) {
    let base = Nsp::from("/games/base.nsp").unwrap();
    let update = Nsp::from("/games/update.nsp").unwrap();
    patch_nsp_with_update(base, update, KEYSET)
}

/// Feeds `events` to a fresh pipeline; the actions include the first one.
fn drive(events: Vec<Event>) -> (Pipeline, Vec<Action>) {
    let (mut pipeline, first) = start();
    let mut actions = vec![first];
    for event in events {
        actions.push(pipeline.advance(event));
    }
    (pipeline, actions)
}

/// The good run with the event at `at` replaced, cut off after `keep` events.
fn run_with(at: usize, event: Event, keep: usize) -> (Pipeline, Vec<Action>) {
    let mut events = good_run();
    events[at] = event;
    events.truncate(keep);
    drive(events)
}

fn dirs(names: &[&str]) -> Vec<String> {
    names.iter().map(|n| n.to_string()).collect()
}

#[test]
fn run_starts_with_the_base_extraction_directory() {
    let (pipeline, first) = start();
    assert_eq!(first, Action::CreateTempDir("basedata".to_string()));
    assert_eq!(pipeline.stage(), Stage::BaseDir);
    assert_eq!(pipeline.base().path(), "/games/base.nsp");
    assert_eq!(pipeline.update().path(), "/games/update.nsp");
    assert!(pipeline.warnings().is_empty());
    assert!(pipeline.held().is_empty());
}

#[test]
fn end_to_end() {
    let (pipeline, actions) = drive(good_run());
    let expected = vec![
        Action::CreateTempDir("basedata".to_string()),
        Action::CreateTempDir("updatedata".to_string()),
        Action::Run(Invocation::unpack(BASE_DIR, "/games/base.nsp")),
        Action::Run(Invocation::unpack(UPDATE_DIR, "/games/update.nsp")),
        Action::List(BASE_DIR.to_string()),
        Action::ReadFile("/tmp/basedata.1/base.tik".to_string()),
        Action::List(UPDATE_DIR.to_string()),
        Action::ReadFile("/tmp/updatedata.2/update.tik".to_string()),
        Action::WriteKeyRecord(
            "01010101010101010101010101010101=aaaaaaaaaaaaaaaaaaaaaaaaaaaaaaaa\n\
             02020202020202020202020202020202=bbbbbbbbbbbbbbbbbbbbbbbbbbbbbbbb\n"
                .to_string(),
        ),
        Action::Run(Invocation::inspect("/tmp/basedata.1/meta.nca")),
        Action::Run(Invocation::inspect("/tmp/basedata.1/program.nca")),
        Action::Run(Invocation::inspect("/tmp/updatedata.2/control.nca")),
        Action::Run(Invocation::inspect("/tmp/updatedata.2/program.nca")),
        Action::CreateTempDir("patch".to_string()),
        Action::Run(Invocation::merge(
            "/tmp/basedata.1/program.nca",
            "/tmp/updatedata.2/program.nca",
            "/tmp/patch.3/romfs",
            "/tmp/patch.3/exefs",
        )),
        Action::MoveFile {
            from: "/tmp/updatedata.2/control.nca".to_string(),
            to: "/tmp/patch.3/nca/control.nca".to_string(),
        },
        Action::Remove(dirs(&[BASE_DIR, UPDATE_DIR])),
        Action::Run(Invocation::pack_program(
            KEYSET,
            "/tmp/patch.3/exefs",
            "/tmp/patch.3/romfs",
            "0100000000010000",
            "/tmp/patch.3/nca",
        )),
        Action::List("/tmp/patch.3/nca".to_string()),
        Action::Run(Invocation::inspect("/tmp/patch.3/nca/patched.nca")),
        Action::Run(Invocation::pack_meta(
            KEYSET,
            "/tmp/patch.3/nca/patched.nca",
            "/tmp/patch.3/nca/control.nca",
            "0100000000010000",
            "/tmp/patch.3/nca",
        )),
        Action::ResolveOutputDir,
        Action::Run(Invocation::pack_package(
            KEYSET,
            "/tmp/patch.3/nca",
            "0100000000010000",
            "/out",
        )),
        Action::Remove(dirs(&[PATCH_DIR])),
        Action::Finish(Nsp::from("/out/0100000000010000[yanu-patched].nsp")),
    ];
    assert_eq!(actions.len(), expected.len());
    for (i, (got, want)) in actions.iter().zip(expected.iter()).enumerate() {
        assert_eq!(got, want, "action {}", i);
    }
    match actions.last().unwrap() {
        Action::Finish(Ok(nsp)) => {
            assert_eq!(nsp.path(), "/out/0100000000010000[yanu-patched].nsp");
            assert_eq!(nsp.title_key(), None);
        }
        other => panic!("unexpected end: {:?}", other),
    }
    assert_eq!(pipeline.stage(), Stage::Done);
    assert!(pipeline.warnings().is_empty());
    assert!(pipeline.held().is_empty());
    assert_eq!(
        pipeline.base().get_title_key(),
        "01010101010101010101010101010101=aaaaaaaaaaaaaaaaaaaaaaaaaaaaaaaa"
    );
    assert_eq!(
        pipeline.update().get_title_key(),
        "02020202020202020202020202020202=bbbbbbbbbbbbbbbbbbbbbbbbbbbbbbbb"
    );
}

#[test]
fn stages_follow_each_other() {
    let events = good_run();
    let expected = [
        Stage::UpdateDir,
        Stage::ExtractBase,
        Stage::ExtractUpdate,
        Stage::BaseListing,
        Stage::BaseTicket,
        Stage::UpdateListing,
        Stage::UpdateTicket,
        Stage::KeyRecord,
        Stage::BaseUnit,
        Stage::BaseUnit,
        Stage::UpdateUnit,
        Stage::UpdateUnit,
        Stage::PatchDir,
        Stage::Merge,
        Stage::MoveControl,
        Stage::EarlyCleanup,
        Stage::PackProgram,
        Stage::PatchedListing,
        Stage::PatchedUnit,
        Stage::PackMeta,
        Stage::OutputDir,
        Stage::PackPackage,
        Stage::Teardown,
        Stage::Done,
    ];
    let (mut pipeline, _) = start();
    for (event, stage) in events.into_iter().zip(expected) {
        pipeline.advance(event);
        assert_eq!(pipeline.stage(), stage);
    }
}

#[test]
fn directories_are_held_as_soon_as_they_exist() {
    let (pipeline, _) = drive(good_run().into_iter().take(1).collect());
    assert_eq!(pipeline.held(), dirs(&[BASE_DIR]));
    let (pipeline, _) = drive(good_run().into_iter().take(2).collect());
    assert_eq!(pipeline.held(), dirs(&[BASE_DIR, UPDATE_DIR]));
    let (pipeline, _) = drive(good_run().into_iter().take(14).collect());
    assert_eq!(pipeline.held(), dirs(&[BASE_DIR, UPDATE_DIR, PATCH_DIR]));
    let (pipeline, _) = drive(good_run().into_iter().take(17).collect());
    assert_eq!(pipeline.held(), dirs(&[PATCH_DIR]));
}

#[test]
fn failed_extraction_of_the_base_ends_the_run() {
    let (mut pipeline, actions) = run_with(2, exited(false, ""), 3);
    assert_eq!(actions.last().unwrap(), &Action::Remove(dirs(&[BASE_DIR, UPDATE_DIR])));
    assert_eq!(pipeline.stage(), Stage::Teardown);
    let end = pipeline.advance(Event::Removed(vec![
        Removal::Removed,
        Removal::Failed("busy".to_string()),
    ]));
    assert_eq!(
        end,
        Action::Finish(Err(Error::ExternalTool(
            Capability::Unpacker,
            "/games/base.nsp".to_string()
        )))
    );
    assert_eq!(pipeline.stage(), Stage::Done);
    assert!(pipeline.held().is_empty());
}

#[test]
fn failed_extraction_of_the_update_ends_the_run() {
    let (mut pipeline, actions) = run_with(3, exited(false, ""), 4);
    assert_eq!(actions.last().unwrap(), &Action::Remove(dirs(&[BASE_DIR, UPDATE_DIR])));
    assert_eq!(
        pipeline.advance(Event::Removed(vec![Removal::Removed, Removal::Removed])),
        Action::Finish(Err(Error::ExternalTool(
            Capability::Unpacker,
            "/games/update.nsp".to_string()
        )))
    );
}

#[test]
fn missing_second_directory_removes_the_first() {
    let (mut pipeline, actions) = run_with(1, Event::Failed, 2);
    assert_eq!(actions.last().unwrap(), &Action::Remove(dirs(&[BASE_DIR])));
    assert_eq!(
        pipeline.advance(Event::Removed(vec![Removal::Removed])),
        Action::Finish(Err(Error::Io))
    );
}

#[test]
fn missing_first_directory_ends_the_run() {
    let (mut pipeline, actions) = run_with(0, Event::Failed, 1);
    assert_eq!(actions.last().unwrap(), &Action::Remove(Vec::new()));
    assert_eq!(pipeline.advance(Event::Removed(Vec::new())), Action::Finish(Err(Error::Io)));
}

#[test]
fn missing_tickets_are_put_up_with() {
    let mut events = good_run();
    events[4] = Event::Listed(vec![
        entry("/tmp/basedata.1/program.nca", 100),
        entry("/tmp/basedata.1/meta.nca", 10),
    ]);
    events.remove(5);
    events[5] = Event::Listed(vec![
        entry("/tmp/updatedata.2/program.nca", 50),
        entry("/tmp/updatedata.2/control.nca", 20),
    ]);
    events.remove(6);
    let (pipeline, actions) = drive(events);
    assert_eq!(actions[5], Action::List(UPDATE_DIR.to_string()));
    assert_eq!(actions[6], Action::WriteKeyRecord("=\n=\n".to_string()));
    assert_eq!(
        pipeline.warnings(),
        &vec![Error::NotFound(Missing::Ticket), Error::NotFound(Missing::Ticket)]
    );
    assert_eq!(
        actions.last().unwrap(),
        &Action::Finish(Nsp::from("/out/0100000000010000[yanu-patched].nsp"))
    );
}

#[test]
fn short_or_unreadable_tickets_are_put_up_with() {
    let mut events = good_run();
    events[5] = Event::Read(vec![1, 2, 3]);
    events[7] = Event::Failed;
    let (pipeline, actions) = drive(events);
    assert_eq!(actions[8], Action::WriteKeyRecord("=\n=\n".to_string()));
    assert_eq!(pipeline.warnings(), &vec![Error::Io, Error::Io]);
    assert_eq!(pipeline.stage(), Stage::Done);
    assert_eq!(pipeline.base().title_key(), None);
}

#[test]
fn key_record_has_the_sentinel_for_the_package_without_key() {
    let mut events = good_run();
    events[7] = Event::Read(Vec::new());
    events.truncate(8);
    let (_, actions) = drive(events);
    assert_eq!(
        actions[8],
        Action::WriteKeyRecord(
            "01010101010101010101010101010101=aaaaaaaaaaaaaaaaaaaaaaaaaaaaaaaa\n=\n".to_string()
        )
    );
}

#[test]
fn package_that_has_its_key_is_not_searched_for_a_ticket() {
    let mut base = Nsp::from("/games/base.nsp").unwrap();
    base.derive_title_key(Some(&ticket(0x07, 0x70))).unwrap();
    let update = Nsp::from("/games/update.nsp").unwrap();
    let (mut pipeline, _) = patch_nsp_with_update(base, update, KEYSET);
    let mut events = good_run();
    events.remove(5);
    let mut actions = Vec::new();
    for event in events.into_iter().take(8) {
        actions.push(pipeline.advance(event));
    }
    assert_eq!(actions[4], Action::List(UPDATE_DIR.to_string()));
    assert_eq!(actions[5], Action::ReadFile("/tmp/updatedata.2/update.tik".to_string()));
    assert_eq!(
        actions[6],
        Action::WriteKeyRecord(
            "07070707070707070707070707070707=70707070707070707070707070707070\n\
             02020202020202020202020202020202=bbbbbbbbbbbbbbbbbbbbbbbbbbbbbbbb\n"
                .to_string()
        )
    );
}

#[test]
fn key_record_that_cannot_be_written_ends_the_run() {
    let (mut pipeline, actions) = run_with(8, Event::Failed, 9);
    assert_eq!(actions.last().unwrap(), &Action::Remove(dirs(&[BASE_DIR, UPDATE_DIR])));
    assert_eq!(
        pipeline.advance(Event::Removed(vec![Removal::Removed, Removal::Removed])),
        Action::Finish(Err(Error::Io))
    );
}

#[test]
fn base_without_program_unit_is_not_found() {
    let (mut pipeline, actions) = run_with(10, report("Control", "0100000000010000"), 11);
    assert_eq!(actions.last().unwrap(), &Action::Remove(dirs(&[BASE_DIR, UPDATE_DIR])));
    assert_eq!(
        pipeline.advance(Event::Removed(vec![Removal::Removed, Removal::Removed])),
        Action::Finish(Err(Error::NotFound(Missing::BaseProgram)))
    );
}

#[test]
fn base_without_content_units_is_not_found() {
    let mut events = good_run();
    events[4] = Event::Listed(vec![entry("/tmp/basedata.1/base.tik", 704)]);
    events.truncate(9);
    let (mut pipeline, actions) = drive(events);
    assert_eq!(actions.last().unwrap(), &Action::Remove(dirs(&[BASE_DIR, UPDATE_DIR])));
    assert_eq!(
        pipeline.advance(Event::Removed(vec![Removal::Absent, Removal::Absent])),
        Action::Finish(Err(Error::NotFound(Missing::BaseProgram)))
    );
}

#[test]
fn smallest_program_unit_of_the_base_is_taken() {
    let mut events = good_run();
    events[4] = Event::Listed(vec![
        entry("/tmp/basedata.1/big.nca", 900),
        entry("/tmp/basedata.1/small.nca", 100),
        entry("/tmp/basedata.1/base.tik", 704),
    ]);
    events[9] = report("Program", "0100000000010000ffff");
    events.remove(10);
    let (_, actions) = drive(events);
    assert_eq!(actions[9], Action::Run(Invocation::inspect("/tmp/basedata.1/small.nca")));
    assert_eq!(actions[10], Action::Run(Invocation::inspect("/tmp/updatedata.2/control.nca")));
    assert_eq!(
        actions[13],
        Action::Run(Invocation::merge(
            "/tmp/basedata.1/small.nca",
            "/tmp/updatedata.2/program.nca",
            "/tmp/patch.3/romfs",
            "/tmp/patch.3/exefs",
        ))
    );
    assert_eq!(
        actions.last().unwrap(),
        &Action::Finish(Nsp::from("/out/0100000000010000[yanu-patched].nsp"))
    );
}

#[test]
fn unit_that_cannot_be_classified_is_skipped() {
    let mut events = good_run();
    events[9] = exited(false, "");
    events[11] = exited(true, "Content Type: Gizmo\n");
    events.insert(12, Event::Failed);
    events.insert(13, report("Control", "0100000000010800"));
    events[4] = base_listing();
    events[6] = Event::Listed(vec![
        entry("/tmp/updatedata.2/a.nca", 1),
        entry("/tmp/updatedata.2/b.nca", 2),
        entry("/tmp/updatedata.2/control.nca", 20),
        entry("/tmp/updatedata.2/program.nca", 50),
        entry("/tmp/updatedata.2/update.tik", 704),
    ]);
    let (pipeline, actions) = drive(events);
    assert_eq!(actions[12], Action::Run(Invocation::inspect("/tmp/updatedata.2/b.nca")));
    assert_eq!(actions[13], Action::Run(Invocation::inspect("/tmp/updatedata.2/control.nca")));
    assert_eq!(actions[14], Action::Run(Invocation::inspect("/tmp/updatedata.2/program.nca")));
    assert_eq!(actions[15], Action::CreateTempDir("patch".to_string()));
    assert_eq!(
        pipeline.warnings(),
        &vec![
            Error::ExternalTool(Capability::Inspector, "/tmp/basedata.1/meta.nca".to_string()),
            Error::Validation(Invalid::ContentType),
            Error::Io,
        ]
    );
    assert_eq!(pipeline.stage(), Stage::Done);
}

#[test]
fn first_control_and_first_program_of_the_update_are_taken() {
    let mut events = good_run();
    events[6] = Event::Listed(vec![
        entry("/tmp/updatedata.2/second.nca", 60),
        entry("/tmp/updatedata.2/first.nca", 50),
        entry("/tmp/updatedata.2/control.nca", 70),
        entry("/tmp/updatedata.2/other.nca", 80),
        entry("/tmp/updatedata.2/update.tik", 704),
    ]);
    events[11] = report("Program", "0100000000010800");
    events[12] = report("Program", "0100000000010800");
    events.insert(13, report("Control", "0100000000010800"));
    let (_, actions) = drive(events);
    assert_eq!(actions[11], Action::Run(Invocation::inspect("/tmp/updatedata.2/first.nca")));
    assert_eq!(actions[12], Action::Run(Invocation::inspect("/tmp/updatedata.2/second.nca")));
    assert_eq!(actions[13], Action::Run(Invocation::inspect("/tmp/updatedata.2/control.nca")));
    assert_eq!(actions[14], Action::CreateTempDir("patch".to_string()));
    assert_eq!(
        actions[15],
        Action::Run(Invocation::merge(
            "/tmp/basedata.1/program.nca",
            "/tmp/updatedata.2/first.nca",
            "/tmp/patch.3/romfs",
            "/tmp/patch.3/exefs",
        ))
    );
    assert_eq!(
        actions[16],
        Action::MoveFile {
            from: "/tmp/updatedata.2/control.nca".to_string(),
            to: "/tmp/patch.3/nca/control.nca".to_string(),
        }
    );
}

#[test]
fn update_without_program_unit_is_not_found() {
    let (mut pipeline, actions) = run_with(12, report("Meta", "0100000000010800"), 13);
    assert_eq!(actions.last().unwrap(), &Action::Remove(dirs(&[BASE_DIR, UPDATE_DIR])));
    assert_eq!(
        pipeline.advance(Event::Removed(vec![Removal::Removed, Removal::Removed])),
        Action::Finish(Err(Error::NotFound(Missing::UpdateProgram)))
    );
}

#[test]
fn update_without_control_unit_is_not_found() {
    let mut events = good_run();
    events[11] = report("Manual", "0100000000010800");
    events.truncate(13);
    let (mut pipeline, actions) = drive(events);
    assert_eq!(actions.last().unwrap(), &Action::Remove(dirs(&[BASE_DIR, UPDATE_DIR])));
    assert_eq!(
        pipeline.advance(Event::Removed(vec![Removal::Removed, Removal::Removed])),
        Action::Finish(Err(Error::NotFound(Missing::UpdateControl)))
    );
}

#[test]
fn update_without_content_units_lacks_the_program_first() {
    let mut events = good_run();
    events[6] = Event::Listed(vec![entry("/tmp/updatedata.2/update.tik", 704)]);
    events.truncate(11);
    let (mut pipeline, actions) = drive(events);
    assert_eq!(actions.last().unwrap(), &Action::Remove(dirs(&[BASE_DIR, UPDATE_DIR])));
    assert_eq!(
        pipeline.advance(Event::Removed(vec![Removal::Removed, Removal::Removed])),
        Action::Finish(Err(Error::NotFound(Missing::UpdateProgram)))
    );
}

#[test]
fn failed_merge_is_only_a_warning() {
    let mut events = good_run();
    events[14] = exited(false, "");
    let (pipeline, actions) = drive(events);
    let (_, good) = drive(good_run());
    assert_eq!(actions, good);
    assert_eq!(
        pipeline.warnings(),
        &vec![Error::ExternalTool(
            Capability::Merger,
            "/tmp/updatedata.2/program.nca".to_string()
        )]
    );
}

#[test]
fn merge_that_cannot_be_run_ends_the_run() {
    let (mut pipeline, actions) = run_with(14, Event::Failed, 15);
    assert_eq!(
        actions.last().unwrap(),
        &Action::Remove(dirs(&[BASE_DIR, UPDATE_DIR, PATCH_DIR]))
    );
    assert_eq!(
        pipeline.advance(Event::Removed(vec![Removal::Removed, Removal::Removed, Removal::Removed])),
        Action::Finish(Err(Error::Io))
    );
}

#[test]
fn control_unit_that_cannot_be_moved_ends_the_run() {
    let (mut pipeline, actions) = run_with(15, Event::Failed, 16);
    assert_eq!(
        actions.last().unwrap(),
        &Action::Remove(dirs(&[BASE_DIR, UPDATE_DIR, PATCH_DIR]))
    );
    assert_eq!(
        pipeline.advance(Event::Removed(Vec::new())),
        Action::Finish(Err(Error::Io))
    );
}

#[test]
fn failed_early_cleanup_is_only_a_warning() {
    let mut events = good_run();
    events[16] = Event::Removed(vec![
        Removal::Failed("base: busy".to_string()),
        Removal::Failed("update: busy".to_string()),
    ]);
    let (pipeline, actions) = drive(events);
    let (_, good) = drive(good_run());
    assert_eq!(actions, good);
    assert_eq!(pipeline.warnings(), &vec![Error::Aggregate("base: busy\nupdate: busy".to_string())]);
}

#[test]
fn early_cleanup_of_absent_directories_is_no_warning() {
    let mut events = good_run();
    events[16] = Event::Removed(vec![Removal::Absent, Removal::Absent]);
    let (pipeline, actions) = drive(events);
    assert!(pipeline.warnings().is_empty());
    assert_eq!(
        actions.last().unwrap(),
        &Action::Finish(Nsp::from("/out/0100000000010000[yanu-patched].nsp"))
    );
}

#[test]
fn program_unit_without_title_id_breaks_an_invariant() {
    let mut events = good_run();
    events[10] = exited(true, "Content Type: Program\n");
    events.truncate(17);
    let (mut pipeline, actions) = drive(events);
    assert_eq!(actions.last().unwrap(), &Action::Remove(dirs(&[PATCH_DIR])));
    assert_eq!(
        pipeline.advance(Event::Removed(vec![Removal::Removed])),
        Action::Finish(Err(Error::InternalInvariant))
    );
}

#[test]
fn long_title_id_is_cut_to_sixteen_digits() {
    let mut events = good_run();
    events[10] = report("Program", "0100000000010000abcdef");
    let (_, actions) = drive(events);
    assert_eq!(
        actions[17],
        Action::Run(Invocation::pack_program(
            KEYSET,
            "/tmp/patch.3/exefs",
            "/tmp/patch.3/romfs",
            "0100000000010000",
            "/tmp/patch.3/nca",
        ))
    );
    assert_eq!(
        actions.last().unwrap(),
        &Action::Finish(Nsp::from("/out/0100000000010000[yanu-patched].nsp"))
    );
}

#[test]
fn failed_packing_of_the_program_unit_ends_the_run() {
    let (mut pipeline, actions) = run_with(17, exited(false, ""), 18);
    assert_eq!(actions.last().unwrap(), &Action::Remove(dirs(&[PATCH_DIR])));
    assert_eq!(
        pipeline.advance(Event::Removed(vec![Removal::Removed])),
        Action::Finish(Err(Error::ExternalTool(
            Capability::Packer,
            "/tmp/patch.3/nca".to_string()
        )))
    );
}

#[test]
fn packer_that_left_no_unit_is_not_found() {
    let (mut pipeline, actions) =
        run_with(18, Event::Listed(vec![entry("/tmp/patch.3/nca", 4096)]), 19);
    assert_eq!(actions.last().unwrap(), &Action::Remove(dirs(&[PATCH_DIR])));
    assert_eq!(
        pipeline.advance(Event::Removed(vec![Removal::Removed])),
        Action::Finish(Err(Error::NotFound(Missing::PatchedProgram)))
    );
}

#[test]
fn patched_unit_is_the_first_in_walk_order() {
    let mut events = good_run();
    events[18] = Event::Listed(vec![
        entry("/tmp/patch.3/nca/control.nca", 20),
        entry("/tmp/patch.3/nca/patched.nca", 2),
    ]);
    events.truncate(19);
    let (_, actions) = drive(events);
    assert_eq!(
        actions.last().unwrap(),
        &Action::Run(Invocation::inspect("/tmp/patch.3/nca/control.nca"))
    );
}

#[test]
fn patched_unit_that_cannot_be_classified_ends_the_run() {
    let (mut pipeline, actions) = run_with(19, exited(true, "Title ID: 01\n"), 20);
    assert_eq!(actions.last().unwrap(), &Action::Remove(dirs(&[PATCH_DIR])));
    assert_eq!(
        pipeline.advance(Event::Removed(vec![Removal::Removed])),
        Action::Finish(Err(Error::Validation(Invalid::MissingContentType)))
    );
    let (mut pipeline, _) = run_with(19, exited(false, ""), 20);
    assert_eq!(
        pipeline.advance(Event::Removed(vec![Removal::Removed])),
        Action::Finish(Err(Error::ExternalTool(
            Capability::Inspector,
            "/tmp/patch.3/nca/patched.nca".to_string()
        )))
    );
}

#[test]
fn failed_packing_of_the_meta_unit_ends_the_run() {
    let (mut pipeline, actions) = run_with(20, exited(false, ""), 21);
    assert_eq!(actions.last().unwrap(), &Action::Remove(dirs(&[PATCH_DIR])));
    assert_eq!(
        pipeline.advance(Event::Removed(vec![Removal::Removed])),
        Action::Finish(Err(Error::ExternalTool(
            Capability::Packer,
            "/tmp/patch.3/nca".to_string()
        )))
    );
}

#[test]
fn unresolved_output_directory_ends_the_run() {
    let (mut pipeline, actions) = run_with(21, Event::Failed, 22);
    assert_eq!(actions.last().unwrap(), &Action::Remove(dirs(&[PATCH_DIR])));
    assert_eq!(
        pipeline.advance(Event::Removed(vec![Removal::Removed])),
        Action::Finish(Err(Error::Io))
    );
}

#[test]
fn failed_packing_of_the_package_ends_the_run() {
    let (mut pipeline, actions) = run_with(22, exited(false, ""), 23);
    assert_eq!(actions.last().unwrap(), &Action::Remove(dirs(&[PATCH_DIR])));
    assert_eq!(
        pipeline.advance(Event::Removed(vec![Removal::Removed])),
        Action::Finish(Err(Error::ExternalTool(Capability::Packer, "/out".to_string())))
    );
}

#[test]
fn failed_final_removal_does_not_change_the_result() {
    let mut events = good_run();
    events[23] = Event::Removed(vec![Removal::Failed("busy".to_string())]);
    let (pipeline, actions) = drive(events);
    assert_eq!(
        actions.last().unwrap(),
        &Action::Finish(Nsp::from("/out/0100000000010000[yanu-patched].nsp"))
    );
    assert!(pipeline.warnings().is_empty());
}

#[test]
fn event_that_answers_another_action_breaks_an_invariant() {
    let (mut pipeline, actions) = run_with(2, Event::Done, 3);
    assert_eq!(actions.last().unwrap(), &Action::Remove(dirs(&[BASE_DIR, UPDATE_DIR])));
    assert_eq!(
        pipeline.advance(Event::Done),
        Action::Finish(Err(Error::InternalInvariant))
    );
}

#[test]
fn finished_pipeline_stays_finished() {
    let (mut pipeline, _) = drive(good_run());
    for event in [Event::Done, Event::Failed, ok(), Event::Directory("/x".to_string())] {
        assert_eq!(pipeline.advance(event), Action::Finish(Err(Error::InternalInvariant)));
        assert_eq!(pipeline.stage(), Stage::Done);
        assert!(pipeline.held().is_empty());
    }
}

#[test]
fn severity_by_stage() {
    let tolerated = [
        Stage::BaseTicket,
        Stage::UpdateTicket,
        Stage::BaseUnit,
        Stage::UpdateUnit,
        Stage::Merge,
        Stage::EarlyCleanup,
    ];
    let fatal = [
        Stage::BaseDir,
        Stage::UpdateDir,
        Stage::ExtractBase,
        Stage::ExtractUpdate,
        Stage::BaseListing,
        Stage::UpdateListing,
        Stage::KeyRecord,
        Stage::PatchDir,
        Stage::MoveControl,
        Stage::PackProgram,
        Stage::PatchedListing,
        Stage::PatchedUnit,
        Stage::PackMeta,
        Stage::OutputDir,
        Stage::PackPackage,
        Stage::Teardown,
        Stage::Done,
    ];
    for stage in tolerated {
        assert_eq!(stage.failure_severity(), Severity::Warning);
    }
    for stage in fatal {
        assert_eq!(stage.failure_severity(), Severity::Fatal);
    }
}

#[test]
fn output_directory_that_spoils_the_extension_is_rejected() {
    let mut events = good_run();
    events[21] = Event::Directory("/out.d".to_string());
    let (_, actions) = drive(events);
    assert_eq!(
        actions.last().unwrap(),
        &Action::Finish(Nsp::from("/out.d/0100000000010000[yanu-patched].nsp"))
    );
    assert!(matches!(actions.last().unwrap(), Action::Finish(Ok(_))));
}
