use hac::error::{Error, Missing};
use hac::ticket::TitleKey;
use hac::utils::{
    clear_titlekeys, formatted_nsp_rename, store_titlekeys, CleanupDirsOnDrop, Removal,
};

fn key(id: u8, k: u8) -> TitleKey {
    let mut blob = vec![0u8; 0x2b0];
    for i in 0..16 {
        blob[0x2a0 + i] = id;
        blob[0x180 + i] = k;
    }
    TitleKey::new(&blob).unwrap()
}

fn dirs(names: &[&str]) -> Vec<String> {
    names.iter().map(|n| n.to_string()).collect()
}

#[test]
fn key_file_has_one_line_per_key() {
    let content = store_titlekeys(&vec![key(0x01, 0xaa), key(0x02, 0xbb)]);
    assert_eq!(
        content,
        "01010101010101010101010101010101=aaaaaaaaaaaaaaaaaaaaaaaaaaaaaaaa\n\
         02020202020202020202020202020202=bbbbbbbbbbbbbbbbbbbbbbbbbbbbbbbb\n"
    );
}

#[test]
fn key_file_of_one_key() {
    let content = store_titlekeys(&vec![key(0x00, 0xff)]);
    assert_eq!(content, "00000000000000000000000000000000=ffffffffffffffffffffffffffffffff\n");
}

#[test]
fn key_file_without_keys_is_empty() {
    assert_eq!(store_titlekeys(&Vec::new()), "");
}

#[test]
fn clearing_tolerates_an_absent_file() {
    assert_eq!(clear_titlekeys(&Removal::Removed), Ok(()));
    assert_eq!(clear_titlekeys(&Removal::Absent), Ok(()));
    assert_eq!(clear_titlekeys(&Removal::Failed("permission denied".to_string())), Err(Error::Io));
}

#[test]
fn guard_keeps_its_directories_in_order() {
    let guard = CleanupDirsOnDrop::new(dirs(&["/tmp/a", "/tmp/b"]));
    assert_eq!(guard.dirs(), &dirs(&["/tmp/a", "/tmp/b"]));
    let copy = guard.clone();
    assert_eq!(copy, guard);
    assert_eq!(guard.dirs_owned(), dirs(&["/tmp/a", "/tmp/b"]));
}

#[test]
fn guard_registers_after_what_it_holds() {
    let mut guard = CleanupDirsOnDrop::default();
    assert!(guard.dirs().is_empty());
    guard.register("/tmp/a".to_string());
    guard.register("/tmp/b".to_string());
    assert_eq!(guard.dirs(), &dirs(&["/tmp/a", "/tmp/b"]));
}

#[test]
fn closing_succeeds_when_everything_was_removed() {
    let guard = CleanupDirsOnDrop::new(dirs(&["/tmp/a", "/tmp/b"]));
    assert_eq!(guard.close(&vec![Removal::Removed, Removal::Removed]), Ok(()));
}

#[test]
fn closing_succeeds_when_a_directory_was_already_absent() {
    let guard = CleanupDirsOnDrop::new(dirs(&["/tmp/a"]));
    assert_eq!(guard.close(&vec![Removal::Absent]), Ok(()));
    let guard = CleanupDirsOnDrop::new(dirs(&["/tmp/a", "/tmp/b"]));
    assert_eq!(guard.close(&vec![Removal::Absent, Removal::Removed]), Ok(()));
}

#[test]
fn closing_an_empty_guard_succeeds() {
    assert_eq!(CleanupDirsOnDrop::new(Vec::new()).close(&Vec::new()), Ok(()));
}

#[test]
fn closing_reports_one_failure_among_several_directories() {
    let guard = CleanupDirsOnDrop::new(dirs(&["/tmp/a", "/tmp/b", "/tmp/c"]));
    let outcomes =
        vec![Removal::Removed, Removal::Failed("b: permission denied".to_string()), Removal::Absent];
    assert_eq!(guard.close(&outcomes), Err(Error::Aggregate("b: permission denied".to_string())));
}

#[test]
fn closing_joins_several_failures_line_by_line() {
    let guard = CleanupDirsOnDrop::new(dirs(&["/tmp/a", "/tmp/b", "/tmp/c", "/tmp/d"]));
    let outcomes = vec![
        Removal::Failed("a: busy".to_string()),
        Removal::Absent,
        Removal::Failed("c: denied".to_string()),
        Removal::Failed("d: read-only".to_string()),
    ];
    assert_eq!(
        guard.close(&outcomes),
        Err(Error::Aggregate("a: busy\nc: denied\nd: read-only".to_string()))
    );
}

#[test]
fn closing_keeps_an_empty_message() {
    let guard = CleanupDirsOnDrop::new(dirs(&["/tmp/a", "/tmp/b"]));
    let outcomes = vec![Removal::Failed(String::new()), Removal::Failed("b".to_string())];
    assert_eq!(guard.close(&outcomes), Err(Error::Aggregate("\nb".to_string())));
}

#[test]
fn closing_needs_an_outcome_for_every_directory() {
    let guard = CleanupDirsOnDrop::new(dirs(&["/tmp/a", "/tmp/b"]));
    assert_eq!(guard.close(&vec![Removal::Removed]), Err(Error::InternalInvariant));
    let guard = CleanupDirsOnDrop::new(dirs(&["/tmp/a"]));
    assert_eq!(
        guard.close(&vec![Removal::Removed, Removal::Failed("x".to_string())]),
        Err(Error::InternalInvariant)
    );
}

#[test]
fn renamed_package_stays_in_its_directory() {
    let dest = formatted_nsp_rename("/out/0100.nsp", "Some Game", "1.0.2", "0100000000010000", "")
        .unwrap();
    assert_eq!(dest, "/out/Some Game [0100000000010000][v1.0.2].nsp");
}

#[test]
fn renamed_package_carries_the_suffix() {
    let dest =
        formatted_nsp_rename("games/x.nsp", "G", "3", "01", "[patched]").unwrap();
    assert_eq!(dest, "games/G [01][v3][patched].nsp");
}

#[test]
fn renamed_package_of_a_bare_file_name() {
    let dest = formatted_nsp_rename("x.nsp", "G", "3", "01", "").unwrap();
    assert_eq!(dest, "G [01][v3].nsp");
}

#[test]
fn package_without_parent_cannot_be_renamed() {
    assert_eq!(
        formatted_nsp_rename("/", "G", "3", "01", ""),
        Err(Error::NotFound(Missing::Parent))
    );
    assert_eq!(
        formatted_nsp_rename("", "G", "3", "01", ""),
        Err(Error::NotFound(Missing::Parent))
    );
}
