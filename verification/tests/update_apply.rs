use real_live_wall::update::{
    apply_next, build_batch_script, download_and_apply, join_path, ApplyEvent, ApplyPhase, ApplyStep,
    UpdateError, UpdateInfo,
};

fn reference_script(pid: u32, src: &str, dst: &str, exe: &str, zip: &str, extracted: &str) -> String {
    format!(
        "@echo off\r\n\
         setlocal EnableDelayedExpansion\r\n\
         set \"PID={pid}\"\r\n\
         set \"TRIES=0\"\r\n\
         \r\n\
         :wait\r\n\
         tasklist /FI \"PID eq %PID%\" 2>NUL | find /I \"%PID%\" >NUL\r\n\
         if not errorlevel 1 (\r\n\
         \tset /a TRIES+=1\r\n\
         \tif !TRIES! GEQ {max_tries} goto apply\r\n\
         \tping -n 2 127.0.0.1 >NUL\r\n\
         \tgoto wait\r\n\
         )\r\n\
         \r\n\
         :apply\r\n\
         robocopy \"{src}\" \"{dst}\" /E /R:5 /W:1 >NUL\r\n\
         start \"\" \"{exe}\"\r\n\
         \r\n\
         del /F /Q \"{zip}\" >NUL 2>&1\r\n\
         rmdir /S /Q \"{extracted}\" >NUL 2>&1\r\n",
        pid = pid,
        max_tries = 150,
        src = src,
        dst = dst,
        exe = exe,
        zip = zip,
        extracted = extracted,
    )
}

#[test]
fn batch_script_text() {
    let args = ["C:\\T\\x\\inner", "C:\\App", "C:\\App\\real_live_wall.exe", "C:\\T\\u.zip", "C:\\T\\x"];
    let s = build_batch_script(4242, args[0], args[1], args[2], args[3], args[4]);
    assert_eq!(s, reference_script(4242, args[0], args[1], args[2], args[3], args[4]));
    assert!(s.contains("del /F /Q \"C:\\T\\u.zip\""));
    assert!(s.contains("rmdir /S /Q \"C:\\T\\x\""));
    assert!(s.contains("set \"PID=4242\""));
    assert!(s.contains("GEQ 150 goto apply"));
}

fn info(url: Option<&str>, name: Option<&str>) -> UpdateInfo {
    UpdateInfo {
        version: "1.3.0".into(),
        tag: "v1.3.0".into(),
        notes: String::new(),
        html_url: "https://example.com".into(),
        asset_url: url.map(|s| s.to_string()),
        asset_name: name.map(|s| s.to_string()),
    }
}

#[test]
fn staging_runs_every_step_in_order() {
    let (st, step) = download_and_apply(&info(Some("https://e/w.zip"), None), 77, "C:\\Tmp");
    assert!(matches!(step, ApplyStep::LocateInstall));
    assert_eq!(st.stage_dir, "C:\\Tmp\\rlw_update\\1.3.0");
    let (st, step) = apply_next(st, ApplyEvent::InstallLocated(Some("C:\\App".into())));
    assert_eq!(st.install_dir, "C:\\App");
    assert_eq!(st.target_exe, "C:\\App\\real_live_wall.exe");
    match &step {
        ApplyStep::PrepareStaging { root, extract_dir } => {
            assert_eq!(root, "C:\\Tmp\\rlw_update\\1.3.0");
            assert_eq!(extract_dir, "C:\\Tmp\\rlw_update\\1.3.0\\extracted");
        }
        other => panic!("unexpected {other:?}"),
    }
    let (st, step) = apply_next(st, ApplyEvent::Staged(true));
    match &step {
        ApplyStep::Download { url, dest } => {
            assert_eq!(url, "https://e/w.zip");
            assert_eq!(dest, "C:\\Tmp\\rlw_update\\1.3.0\\update.zip");
        }
        other => panic!("unexpected {other:?}"),
    }
    assert_eq!(st.install_dir, "C:\\App");
    let (st, step) = apply_next(st, ApplyEvent::Downloaded(true));
    match &step {
        ApplyStep::Extract { archive, into } => {
            assert_eq!(archive, "C:\\Tmp\\rlw_update\\1.3.0\\update.zip");
            assert_eq!(into, "C:\\Tmp\\rlw_update\\1.3.0\\extracted");
        }
        other => panic!("unexpected {other:?}"),
    }
    let (st, step) = apply_next(st, ApplyEvent::Extracted(true));
    match &step {
        ApplyStep::FindExe { root } => assert_eq!(root, "C:\\Tmp\\rlw_update\\1.3.0\\extracted"),
        other => panic!("unexpected {other:?}"),
    }
    let found = "C:\\Tmp\\rlw_update\\1.3.0\\extracted\\pkg";
    let (st, step) = apply_next(st, ApplyEvent::ExeFound(Some(found.into())));
    match &step {
        ApplyStep::WriteScript { path, text } => {
            assert_eq!(path, "C:\\Tmp\\rlw_update\\1.3.0\\apply_update.bat");
            assert_eq!(
                *text,
                reference_script(
                    77,
                    found,
                    "C:\\App",
                    "C:\\App\\real_live_wall.exe",
                    "C:\\Tmp\\rlw_update\\1.3.0\\update.zip",
                    "C:\\Tmp\\rlw_update\\1.3.0\\extracted",
                )
            )
        }
        other => panic!("unexpected {other:?}"),
    }
    let (st, step) = apply_next(st, ApplyEvent::ScriptWritten(true));
    match &step {
        ApplyStep::Launch { script } => {
            assert_eq!(script, "C:\\Tmp\\rlw_update\\1.3.0\\apply_update.bat")
        }
        other => panic!("unexpected {other:?}"),
    }
    let (st, step) = apply_next(st, ApplyEvent::Launched(true));
    assert!(matches!(step, ApplyStep::Done(Ok(()))));
    assert_eq!(st.phase, ApplyPhase::Finished);
}

#[test]
fn staging_stops_at_the_first_failure() {
    let (st, step) = download_and_apply(&info(None, None), 1, "t");
    assert!(matches!(step, ApplyStep::Done(Err(UpdateError::NoAsset))));
    assert_eq!(st.phase, ApplyPhase::Finished);

    let (st, _) = download_and_apply(&info(Some("u"), Some("a.zip")), 1, "t");
    assert_eq!(st.file_name, "a.zip");
    let (st, step) = apply_next(st, ApplyEvent::InstallLocated(None));
    assert!(matches!(step, ApplyStep::Done(Err(UpdateError::NoInstallDir))));
    let (_, step) = apply_next(st, ApplyEvent::Staged(true));
    assert!(matches!(step, ApplyStep::Done(Err(UpdateError::UnexpectedEvent))));

    let (st, _) = download_and_apply(&info(Some("u"), None), 1, "t");
    let (st, _) = apply_next(st, ApplyEvent::InstallLocated(Some("d".into())));
    let (st, _) = apply_next(st, ApplyEvent::Staged(true));
    let (_, step) = apply_next(st, ApplyEvent::Downloaded(false));
    assert!(matches!(step, ApplyStep::Done(Err(UpdateError::Download))));
}

#[test]
fn paths_join_like_pathbuf() {
    assert_eq!(join_path("C:\\Tmp", "x"), "C:\\Tmp\\x");
    assert_eq!(join_path("C:\\Tmp\\", "x"), "C:\\Tmp\\x");
    assert_eq!(join_path("C:/Tmp/", "x"), "C:/Tmp/x");
    assert_eq!(join_path("", "x"), "x");
    let (st, _) = download_and_apply(&info(Some("u"), None), 1, "C:\\Users\\me\\AppData\\Local\\Temp\\");
    assert_eq!(st.stage_dir, "C:\\Users\\me\\AppData\\Local\\Temp\\rlw_update\\1.3.0");
}
