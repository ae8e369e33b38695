use pz_ime_guard::startup::{
    enabled, is_ours, set_enabled, temp_file_name, wide, ExeFacts, Link, ShortcutAction, ShortcutError,
    ShortcutEvent, ShortcutFile, ShortcutJob, BRAND, LINK_ARG,
};

const EXE: &str = "C:\\Games\\pz-ime-guard.exe";

fn our_link(target: &str) -> Link {
    Link { target: target.to_string(), args: LINK_ARG.to_string(), description: BRAND.to_string() }
}

fn foreign(target: &str, args: &str, description: &str) -> Link {
    Link { target: target.to_string(), args: args.to_string(), description: description.to_string() }
}

fn exe_facts(path: &str) -> ExeFacts {
    ExeFacts {
        display: path.to_string(),
        unicode: Some(path.to_string()),
        is_file: true,
        wide_len: path.encode_utf16().count(),
    }
}

fn expect_action(r: (ShortcutJob, ShortcutAction), want: &str) -> ShortcutJob {
    let (job, action) = r;
    assert_eq!(format!("{action:?}"), want);
    job
}

fn finished_with(r: (ShortcutJob, ShortcutAction)) -> Result<(), ShortcutError> {
    let (job, action) = r;
    assert!(job.is_finished());
    match action {
        ShortcutAction::Finish(result) => result,
        other => panic!("not finished: {other:?}"),
    }
}

#[test]
fn turning_on_writes_verifies_moves_and_reads_back() {
    let job = expect_action(set_enabled(true), "ReadLink");
    let job = expect_action(job.step(ShortcutEvent::Read(Ok(None))), "ResolveExe");
    let job = expect_action(job.step(ShortcutEvent::Exe(Ok(exe_facts(EXE)))), "ReserveTemp");
    let job = expect_action(job.step(ShortcutEvent::Done(Ok(()))), "WriteTemp");
    let job = expect_action(job.step(ShortcutEvent::Done(Ok(()))), "ReadTemp");
    let job = expect_action(job.step(ShortcutEvent::Read(Ok(Some(our_link(EXE))))), "MoveIntoPlace");
    let job = expect_action(job.step(ShortcutEvent::Done(Ok(()))), "ReadLink");
    assert!(finished_with(job.step(ShortcutEvent::Read(Ok(Some(our_link(EXE)))))).is_ok());
}

#[test]
fn turning_on_when_already_pointing_here_writes_nothing() {
    let job = expect_action(set_enabled(true), "ReadLink");
    // the read-back spells the path differently: case and slashes do not matter
    let job = expect_action(
        job.step(ShortcutEvent::Read(Ok(Some(our_link("\"c:/games/PZ-IME-GUARD.exe\""))))),
        "ResolveExe",
    );
    assert!(finished_with(job.step(ShortcutEvent::Exe(Ok(exe_facts(EXE))))).is_ok());
}

#[test]
fn a_moved_executable_rewrites_the_shortcut() {
    let job = expect_action(set_enabled(true), "ReadLink");
    let job = expect_action(job.step(ShortcutEvent::Read(Ok(Some(our_link("D:\\old\\pz-ime-guard.exe"))))), "ResolveExe");
    // the text differs: the file system decides
    let job = expect_action(job.step(ShortcutEvent::Exe(Ok(exe_facts(EXE)))), "CompareFiles");
    let (a, b) = job.comparison_paths().unwrap();
    assert_eq!(a, "D:\\old\\pz-ime-guard.exe");
    assert_eq!(b, EXE);
    let job = expect_action(job.step(ShortcutEvent::SameFile(false)), "ReserveTemp");
    let job = expect_action(job.step(ShortcutEvent::Done(Ok(()))), "WriteTemp");
    let job = expect_action(job.step(ShortcutEvent::Done(Ok(()))), "ReadTemp");
    // the shell expanded a short name: asked of the file system, it is the same file
    let job = expect_action(job.step(ShortcutEvent::Read(Ok(Some(our_link("C:\\GAMES~1\\pz-ime-guard.exe"))))), "CompareFiles");
    let job = expect_action(job.step(ShortcutEvent::SameFile(true)), "MoveIntoPlace");
    let job = expect_action(job.step(ShortcutEvent::Done(Ok(()))), "ReadLink");
    assert!(finished_with(job.step(ShortcutEvent::Read(Ok(Some(our_link(EXE)))))).is_ok());
}

#[test]
fn a_foreign_shortcut_is_neither_overwritten_nor_deleted() {
    for (args, description) in [
        ("", ""),
        ("--startup\u{3000}", BRAND),
        (LINK_ARG, " MinidoracatIMEGuardFor42 pz-ime-guard (start at logon) "),
    ] {
        for enable in [true, false] {
            let (job, _) = set_enabled(enable);
            let r = finished_with(job.step(ShortcutEvent::Read(Ok(Some(foreign(EXE, args, description))))));
            assert!(matches!(r, Err(ShortcutError::Foreign { .. })), "{args:?} {description:?} {enable}");
        }
    }
    assert!(enabled(Ok(Some(foreign(EXE, "--startup\u{3000}", BRAND)))) == Ok(false));
}

#[test]
fn an_unreadable_shortcut_is_an_error_not_off() {
    assert_eq!(enabled(Err("cannot load x".to_string())), Err("cannot load x".to_string()));
    for enable in [true, false] {
        let (job, _) = set_enabled(enable);
        let r = finished_with(job.step(ShortcutEvent::Read(Err("cannot load x".to_string()))));
        assert!(matches!(r, Err(ShortcutError::Failed(ref m)) if m == "cannot load x"));
    }
}

#[test]
fn enabled_means_our_shortcut_with_a_target() {
    assert_eq!(enabled(Ok(None)), Ok(false));
    assert_eq!(enabled(Ok(Some(our_link(EXE)))), Ok(true));
    assert_eq!(enabled(Ok(Some(our_link("")))), Ok(false));
    assert!(is_ours(&our_link(EXE)));
    assert!(!is_ours(&foreign(EXE, LINK_ARG, "")));
}

#[test]
fn turning_off_deletes_our_shortcut_and_confirms_it_is_gone() {
    let job = expect_action(set_enabled(false), "ReadLink");
    let job = expect_action(job.step(ShortcutEvent::Read(Ok(Some(our_link(EXE))))), "DeleteLink");
    let job = expect_action(job.step(ShortcutEvent::Done(Ok(()))), "ReadLink");
    assert!(finished_with(job.step(ShortcutEvent::Read(Ok(None)))).is_ok());
    // nothing there: nothing to do
    let (job, _) = set_enabled(false);
    assert!(finished_with(job.step(ShortcutEvent::Read(Ok(None)))).is_ok());
}

#[test]
fn a_shortcut_that_survives_deletion_is_reported() {
    let (job, _) = set_enabled(false);
    let job = expect_action(job.step(ShortcutEvent::Read(Ok(Some(our_link(EXE))))), "DeleteLink");
    let job = expect_action(job.step(ShortcutEvent::Done(Ok(()))), "ReadLink");
    assert!(matches!(
        finished_with(job.step(ShortcutEvent::Read(Ok(Some(our_link(EXE)))))),
        Err(ShortcutError::StillThere)
    ));
    let (job, _) = set_enabled(false);
    let job = expect_action(job.step(ShortcutEvent::Read(Ok(Some(our_link(EXE))))), "DeleteLink");
    assert!(matches!(
        finished_with(job.step(ShortcutEvent::Done(Err("access denied".to_string())))),
        Err(ShortcutError::CannotDelete(_))
    ));
}

#[test]
fn a_failed_write_removes_the_temporary_file() {
    let (job, _) = set_enabled(true);
    let job = job.step(ShortcutEvent::Read(Ok(None))).0;
    let job = job.step(ShortcutEvent::Exe(Ok(exe_facts(EXE)))).0;
    let job = job.step(ShortcutEvent::Done(Ok(()))).0;
    let job = expect_action(job.step(ShortcutEvent::Done(Err("SetPath failed".to_string()))), "RemoveTemp");
    assert!(matches!(
        finished_with(job.step(ShortcutEvent::Done(Err("already gone".to_string())))),
        Err(ShortcutError::Failed(ref m)) if m == "SetPath failed"
    ));
}

#[test]
fn a_bad_read_back_of_the_temporary_file_is_cleaned_up() {
    let start = || {
        let (job, _) = set_enabled(true);
        let job = job.step(ShortcutEvent::Read(Ok(None))).0;
        let job = job.step(ShortcutEvent::Exe(Ok(exe_facts(EXE)))).0;
        let job = job.step(ShortcutEvent::Done(Ok(()))).0;
        job.step(ShortcutEvent::Done(Ok(()))).0
    };
    let job = expect_action(start().step(ShortcutEvent::Read(Ok(None))), "RemoveTemp");
    assert!(matches!(
        finished_with(job.step(ShortcutEvent::Done(Ok(())))),
        Err(ShortcutError::NotWritten(ShortcutFile::Temp))
    ));
    let job = expect_action(start().step(ShortcutEvent::Read(Ok(Some(foreign(EXE, LINK_ARG, "x"))))), "RemoveTemp");
    assert!(matches!(finished_with(job.step(ShortcutEvent::Done(Ok(())))), Err(ShortcutError::MarkersMismatch { .. })));
    let job = expect_action(start().step(ShortcutEvent::Read(Ok(Some(our_link(""))))), "RemoveTemp");
    assert!(matches!(finished_with(job.step(ShortcutEvent::Done(Ok(())))), Err(ShortcutError::TargetMismatch { .. })));
}

#[test]
fn a_failed_move_is_cleaned_up_and_a_bad_final_read_back_reported() {
    let to_move = || {
        let (job, _) = set_enabled(true);
        let job = job.step(ShortcutEvent::Read(Ok(None))).0;
        let job = job.step(ShortcutEvent::Exe(Ok(exe_facts(EXE)))).0;
        let job = job.step(ShortcutEvent::Done(Ok(()))).0;
        let job = job.step(ShortcutEvent::Done(Ok(()))).0;
        job.step(ShortcutEvent::Read(Ok(Some(our_link(EXE))))).0
    };
    let job = expect_action(to_move().step(ShortcutEvent::Done(Err("in use".to_string()))), "RemoveTemp");
    assert!(matches!(finished_with(job.step(ShortcutEvent::Done(Ok(())))), Err(ShortcutError::CannotMove(_))));
    let job = to_move().step(ShortcutEvent::Done(Ok(()))).0;
    assert!(matches!(
        finished_with(job.step(ShortcutEvent::Read(Ok(None)))),
        Err(ShortcutError::NotWritten(ShortcutFile::Link))
    ));
}

#[test]
fn an_unusable_executable_path_is_refused() {
    let resolving = || {
        let (job, _) = set_enabled(true);
        job.step(ShortcutEvent::Read(Ok(None))).0
    };
    let mut not_file = exe_facts(EXE);
    not_file.is_file = false;
    assert!(matches!(finished_with(resolving().step(ShortcutEvent::Exe(Ok(not_file)))), Err(ShortcutError::ExeNotFile(_))));
    let mut not_unicode = exe_facts(EXE);
    not_unicode.unicode = None;
    assert!(matches!(
        finished_with(resolving().step(ShortcutEvent::Exe(Ok(not_unicode)))),
        Err(ShortcutError::ExeNotUnicode(_))
    ));
    let mut too_long = exe_facts(EXE);
    too_long.wide_len = 260;
    assert!(matches!(finished_with(resolving().step(ShortcutEvent::Exe(Ok(too_long)))), Err(ShortcutError::ExeTooLong(_))));
    let mut just_fits = exe_facts(EXE);
    just_fits.wide_len = 259;
    expect_action(resolving().step(ShortcutEvent::Exe(Ok(just_fits))), "ReserveTemp");
    assert!(matches!(
        finished_with(resolving().step(ShortcutEvent::Exe(Err("gone".to_string())))),
        Err(ShortcutError::ExeUnresolved(_))
    ));
}

#[test]
fn an_event_out_of_order_ends_the_job() {
    let (job, _) = set_enabled(true);
    assert!(matches!(finished_with(job.step(ShortcutEvent::SameFile(true))), Err(ShortcutError::OutOfOrder)));
    assert!(matches!(
        finished_with(ShortcutJob::Finished.step(ShortcutEvent::Done(Ok(())))),
        Err(ShortcutError::OutOfOrder)
    ));
}

#[test]
fn a_shell_buffer_is_cut_at_its_first_nul() {
    let mut buf = [0u16; 16];
    for (i, u) in "C:\\a b".encode_utf16().enumerate() {
        buf[i] = u;
    }
    buf[8] = 'x' as u16;
    assert_eq!(wide(&buf), "C:\\a b");
    let full: Vec<u16> = "--startup ".encode_utf16().collect();
    assert_eq!(wide(&full), "--startup ");
    assert_eq!(wide(&[]), "");
}

#[test]
fn temporary_names_are_numbered_per_process() {
    assert_eq!(temp_file_name(1234, 0), "pz-ime-guard.1234-0.tmp");
    assert_eq!(temp_file_name(4294967295, 63), "pz-ime-guard.4294967295-63.tmp");
}
