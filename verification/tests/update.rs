use aingle::install::{install_step, InstallAction, InstallInput, InstallPhase, InstallState};
use aingle::paths::has_file_name;
use aingle::tape::safe_length;
use aingle::update::{
    archive_extension, binary_name, check_announced, check_length, compare_release, entry_step,
    extract_binary, install_plan, release_asset, status, target_for, update_notice,
    update_summary, verify_binary, verify_checksum, ArchiveEntry, Asset, ChecksumFault, EntryStep,
    Platform, Release, UpdateError, UpdateStatus, MAX_ARCHIVE_BYTES, MAX_CHECKSUM_BYTES,
};
use sha2::{Digest, Sha256};
use std::io::{Cursor, Write};

fn linux() -> Platform {
    Platform {
        os: "linux".into(),
        arch: "x86_64".into(),
        environment: "gnu".into(),
        windows: false,
    }
}

fn release(tag: &str, names: &[&str]) -> Release {
    Release {
        tag_name: tag.into(),
        assets: names
            .iter()
            .enumerate()
            .map(|(i, name)| Asset {
                name: name.to_string(),
                browser_download_url: format!("https://x/{}", i),
            })
            .collect(),
    }
}

fn fault(outcome: Result<(), UpdateError>) -> ChecksumFault {
    match outcome {
        Err(UpdateError::Checksum(fault, _)) => fault,
        other => panic!("unexpected {:?}", other),
    }
}

#[test]
fn maps_every_release_target() {
    assert_eq!(
        target_for("linux", "aarch64", "gnu").unwrap(),
        "aarch64-unknown-linux-gnu"
    );
    assert_eq!(
        target_for("windows", "x86_64", "gnu").unwrap(),
        "x86_64-pc-windows-gnu"
    );
    assert_eq!(
        target_for("windows", "x86_64", "msvc").unwrap(),
        "x86_64-pc-windows-msvc"
    );
    assert_eq!(
        target_for("macos", "aarch64", "").unwrap(),
        "aarch64-apple-darwin"
    );
}

#[test]
fn accepts_only_matching_named_checksum() {
    let archive = b"release";
    let digest = format!("{:x}", Sha256::digest(archive));
    let checksum = format!("{digest}  aingle.tar.gz\n");
    verify_checksum("aingle.tar.gz", archive, checksum.as_bytes()).unwrap();
    assert!(verify_checksum("other.tar.gz", archive, checksum.as_bytes()).is_err());
    assert!(verify_checksum("aingle.tar.gz", b"changed", checksum.as_bytes()).is_err());
}

#[test]
fn maps_the_other_targets_and_no_more() {
    assert_eq!(target_for("linux", "x86_64", "musl").unwrap(), "x86_64-unknown-linux-gnu");
    assert_eq!(target_for("linux", "x86", "").unwrap(), "i686-unknown-linux-gnu");
    assert_eq!(target_for("macos", "x86_64", "").unwrap(), "x86_64-apple-darwin");
    assert_eq!(target_for("windows", "aarch64", "gnu").unwrap(), "aarch64-pc-windows-msvc");
    assert_eq!(target_for("windows", "x86", "gnu").unwrap(), "i686-pc-windows-msvc");
    let error = target_for("plan9", "mips", "").unwrap_err();
    assert_eq!(
        error.message(),
        "this platform has no official Aingle CLI update target: plan9/mips"
    );
    assert!(target_for("macos", "x86", "").is_err());
}

#[test]
fn every_checksum_fault_is_named() {
    let digest = format!("{:x}", Sha256::digest(b"x"));
    let check = |text: &[u8]| verify_checksum("a", b"x", text);
    assert_eq!(fault(check(&[0xff])), ChecksumFault::NotUtf8);
    assert_eq!(fault(check(b" \n")), ChecksumFault::Empty);
    assert_eq!(fault(check(digest.as_bytes())), ChecksumFault::NameMissing);
    assert_eq!(fault(check(format!("{digest} b").as_bytes())), ChecksumFault::OtherFile);
    assert_eq!(fault(check(format!("{digest} a b").as_bytes())), ChecksumFault::OtherFile);
    assert_eq!(fault(check(b"12 a")), ChecksumFault::NotADigest);
    let letters = "g".repeat(64);
    assert_eq!(fault(check(format!("{letters} a").as_bytes())), ChecksumFault::NotADigest);
    let zeros = "0".repeat(64);
    assert_eq!(fault(check(format!("{zeros} a").as_bytes())), ChecksumFault::Mismatch);
    check(format!("{}\t**a\r\n", digest.to_uppercase()).as_bytes()).unwrap();
    assert_eq!(
        check(format!("{digest} b").as_bytes()).unwrap_err().message(),
        "checksum does not describe a"
    );
}

#[test]
fn versions_are_compared_and_named() {
    let found = status(&release("v1.3.0", &[]), "1.2.9", &linux()).unwrap();
    assert_eq!(found.current_version, "1.2.9");
    assert_eq!(found.latest_version, "1.3.0");
    assert!(found.update_available);
    assert_eq!(found.target, "x86_64-unknown-linux-gnu");
    assert!(!status(&release("1.2.9", &[]), "1.2.9", &linux()).unwrap().update_available);
    assert!(!status(&release("v1.2.9-rc.1", &[]), "1.2.9", &linux()).unwrap().update_available);
    let error = status(&release("vv1", &[]), "1.2.9", &linux()).unwrap_err();
    assert_eq!(
        error.message(),
        "invalid release version vv1: unexpected character 'v' while parsing major version number"
    );
    assert!(matches!(
        status(&release("v1.0.0", &[]), "none", &linux()),
        Err(UpdateError::CurrentVersion(_))
    ));
    let mut odd = linux();
    odd.arch = "sparc".into();
    assert!(matches!(
        status(&release("v1.0.0", &[]), "1.0.0", &odd),
        Err(UpdateError::Platform(_, _))
    ));
    let compared =
        compare_release(Ok("a".into()), Ok("b".into()), true, "tag", &linux()).unwrap();
    assert!(compared.update_available && compared.latest_version == "b");
    assert!(matches!(
        compare_release(Ok("a".into()), Err("c".into()), false, "tag", &linux()),
        Err(UpdateError::ReleaseVersion(tag, cause)) if tag == "tag" && cause == "c"
    ));
}

#[test]
fn the_plan_names_archive_and_checksum() {
    let archive = "aingle-1.3.0-x86_64-unknown-linux-gnu.tar.gz";
    let checksum = "aingle-1.3.0-x86_64-unknown-linux-gnu.tar.gz.sha256";
    let found = UpdateStatus {
        current_version: "1.2.0".into(),
        latest_version: "1.3.0".into(),
        update_available: true,
        target: "x86_64-unknown-linux-gnu".into(),
    };
    let plan = install_plan(&release("v1.3.0", &["z", checksum, archive]), &found, false).unwrap();
    assert_eq!(plan.archive_name, archive);
    assert_eq!(plan.archive_url, "https://x/2");
    assert_eq!(plan.checksum_url, "https://x/1");
    let missing = install_plan(&release("v1.3.0", &[archive]), &found, false).unwrap_err();
    assert_eq!(
        missing.message(),
        format!("official release asset is unavailable: {checksum}")
    );
    assert!(install_plan(&release("v1.3.0", &[archive, checksum]), &found, true).is_err());
    assert_eq!(archive_extension(true), "zip");
    let twice = release("v1", &["a", "a"]);
    assert_eq!(release_asset(&twice, "a").unwrap().browser_download_url, "https://x/0");
}

#[test]
fn large_downloads_are_refused() {
    assert!(check_announced(None, 10).is_ok());
    assert!(check_announced(Some(10), 10).is_ok());
    assert_eq!(
        check_announced(Some(11), 10).unwrap_err().message(),
        "update download exceeds 10 bytes"
    );
    assert!(check_length(10, 10).is_ok());
    assert!(matches!(check_length(11, 10), Err(UpdateError::TooLarge(10))));
}

fn tar_gz(entries: &[(&str, &[u8])]) -> Vec<u8> {
    let encoder = flate2::write::GzEncoder::new(Vec::new(), flate2::Compression::default());
    let mut builder = tar::Builder::new(encoder);
    for (path, data) in entries {
        let mut header = tar::Header::new_gnu();
        header.set_size(data.len() as u64);
        header.set_mode(0o755);
        builder.append_data(&mut header, path, *data).unwrap();
    }
    builder.into_inner().unwrap().finish().unwrap()
}

#[test]
fn the_executable_is_taken_out_of_a_tape_archive() {
    let archive = tar_gz(&[("dist/README", b"r"), ("dist/aingle", b"first"), ("aingle", b"2")]);
    assert_eq!(extract_binary(&archive, false).unwrap(), b"first");
    assert_eq!(
        extract_binary(&tar_gz(&[("aingle.exe", b"x")]), false).unwrap_err().message(),
        "release archive does not contain aingle"
    );
    assert!(matches!(
        extract_binary(b"no archive", false),
        Err(UpdateError::ReadEntry(_)) | Err(UpdateError::OpenArchive(_))
    ));
}

#[test]
fn the_executable_is_taken_out_of_a_zip_archive() {
    let mut writer = zip::ZipWriter::new(Cursor::new(Vec::new()));
    let options = zip::write::SimpleFileOptions::default();
    writer.start_file("dist/LICENSE", options).unwrap();
    writer.write_all(b"l").unwrap();
    writer.start_file("dist/aingle.exe", options).unwrap();
    writer.write_all(b"program").unwrap();
    let archive = writer.finish().unwrap().into_inner();
    assert_eq!(extract_binary(&archive, true).unwrap(), b"program");
    assert!(matches!(extract_binary(b"no archive", true), Err(UpdateError::OpenZip(_))));
}

fn at(is_file: bool, path: &str, windows: bool) -> EntryStep {
    let entry = ArchiveEntry { is_file, path: path.as_bytes().to_vec() };
    entry_step(Ok(Some(Ok(entry))), windows)
}

#[test]
fn a_file_of_the_name_is_extracted_and_others_are_skipped() {
    for path in ["aingle", "dist/aingle", "x//aingle/./"] {
        assert!(matches!(at(true, path, false), EntryStep::Extract));
        assert!(matches!(at(false, path, false), EntryStep::Skip));
    }
    for path in ["aingle/..", "x/aingle2", "a\\aingle", ".", ""] {
        assert!(matches!(at(true, path, false), EntryStep::Skip));
    }
    assert!(matches!(at(true, "C:aingle.exe", true), EntryStep::Extract));
    assert!(matches!(at(true, "a\\aingle.exe", true), EntryStep::Extract));
    assert!(matches!(at(true, "aingle", true), EntryStep::Skip));
    assert_eq!(binary_name(true), "aingle.exe");
}

#[test]
fn archives_without_an_executable_are_named() {
    let failed = |found, windows| match entry_step(found, windows) {
        EntryStep::Fail(error) => error,
        other => panic!("unexpected {:?}", other),
    };
    assert!(matches!(
        failed(Err("o".into()), false),
        UpdateError::OpenArchive(cause) if cause == "o"
    ));
    assert!(matches!(failed(Err("o".into()), true), UpdateError::OpenZip(cause) if cause == "o"));
    assert!(matches!(
        failed(Ok(Some(Err("e".into()))), false),
        UpdateError::ReadEntry(cause) if cause == "e"
    ));
    assert!(matches!(
        failed(Ok(Some(Err("e".into()))), true),
        UpdateError::ReadZipEntry(cause) if cause == "e"
    ));
    assert!(matches!(failed(Ok(None), false), UpdateError::NoBinary(name) if name == "aingle"));
}

fn block(kind: u8, size: &[u8; 12], extended: bool) -> Vec<u8> {
    let mut header = tar::Header::new_gnu();
    header.set_path("part").unwrap();
    header.set_entry_type(tar::EntryType::new(kind));
    header.as_old_mut().size = *size;
    if kind == b'S' {
        let gnu = header.as_gnu_mut().unwrap();
        gnu.set_is_extended(extended);
        gnu.set_real_size(0);
    }
    header.set_cksum();
    header.as_bytes().to_vec()
}

fn padded(mut bytes: Vec<u8>) -> Vec<u8> {
    bytes.resize(bytes.len().div_ceil(512) * 512, 0);
    bytes
}

fn binary_size(size: u64) -> [u8; 12] {
    let mut field = [0u8; 12];
    field[0] = 0x80;
    field[4..].copy_from_slice(&size.to_be_bytes());
    field
}

fn executable() -> Vec<u8> {
    let mut header = tar::Header::new_gnu();
    header.set_path("dist/aingle").unwrap();
    header.set_entry_type(tar::EntryType::Regular);
    header.set_size(7);
    header.set_cksum();
    [header.as_bytes().to_vec(), padded(b"program".to_vec())].concat()
}

fn gzip(blocks: &[Vec<u8>]) -> Vec<u8> {
    let mut encoder = flate2::write::GzEncoder::new(Vec::new(), flate2::Compression::default());
    encoder.write_all(&blocks.concat()).unwrap();
    encoder.finish().unwrap()
}

const NOTHING: &[u8; 12] = b"00000000000\0";

#[test]
fn an_archive_is_walked_up_to_a_size_out_of_range() {
    let wide = block(b'S', &binary_size(u64::MAX - 1023), true);
    let plain = block(b'S', NOTHING, true);
    let record = padded(b"29 size=18446744073709550592\n".to_vec());
    let pax = block(b'x', b"00000000035\0", false);
    let empty = vec![0u8; 512];
    assert_eq!(safe_length(&[wide.clone(), empty.clone()].concat()), 512);
    assert_eq!(safe_length(&[executable(), wide.clone(), empty.clone()].concat()), 1536);
    assert_eq!(safe_length(&wide), u64::MAX);
    assert_eq!(safe_length(&[plain.clone(), empty.clone()].concat()), u64::MAX);
    let recorded = [pax.clone(), record.clone(), plain.clone(), empty.clone()];
    assert_eq!(safe_length(&recorded.concat()), 1536);
    assert_eq!(
        safe_length(&[block(b'S', &binary_size(1 << 62), true), empty.clone()].concat()),
        u64::MAX
    );
    assert_eq!(safe_length(&[]), u64::MAX);

    let before = gzip(&[executable(), wide.clone(), empty.clone(), empty.clone()]);
    assert_eq!(extract_binary(&before, false).unwrap(), b"program");
    for start in [vec![wide, empty.clone()], recorded.to_vec()] {
        let behind = gzip(&[start.concat(), executable(), empty.clone()]);
        assert!(matches!(extract_binary(&behind, false), Err(UpdateError::ReadEntry(_))));
    }
    let harmless = gzip(&[plain, empty.clone(), executable(), empty]);
    assert_eq!(extract_binary(&harmless, false).unwrap(), b"program");
}

#[test]
fn damage_behind_the_executable_does_not_matter() {
    let noise: Vec<u8> = (0..400_000u32).map(|i| (i.wrapping_mul(2654435761) >> 13) as u8).collect();
    let mut archive = tar_gz(&[("dist/aingle", b"program"), ("data", &noise)]);
    let length = archive.len();
    archive.truncate(length - 100);
    assert_eq!(extract_binary(&archive, false).unwrap(), b"program");
    let mut late = tar_gz(&[("data", &noise), ("dist/aingle", b"program")]);
    let length = late.len();
    late.truncate(length / 2);
    assert!(matches!(extract_binary(&late, false), Err(UpdateError::ReadEntry(_))));
    let mut short = tar_gz(&[("aingle", &noise)]);
    let length = short.len();
    short.truncate(length / 2);
    assert!(matches!(extract_binary(&short, false), Err(UpdateError::Extract(_))));
}

#[test]
fn a_new_executable_must_report_its_version() {
    assert!(verify_binary(true, b"aingle 1.3.0\n", "1.3.0").is_ok());
    assert!(matches!(verify_binary(false, b"", "1.3.0"), Err(UpdateError::StagedFailure)));
    assert!(matches!(verify_binary(true, &[0xff], "1"), Err(UpdateError::StagedOutput)));
    assert!(matches!(
        verify_binary(true, b"aingle 1.3.1", "1.3.0"),
        Err(UpdateError::StagedVersion)
    ));
}

#[test]
fn update_errors_have_words() {
    let said = |error: UpdateError| error.message();
    assert_eq!(said(UpdateError::CurrentVersion("c".into())), "c");
    assert_eq!(said(UpdateError::OpenArchive("c".into())), "read update archive: c");
    assert_eq!(said(UpdateError::ReadEntry("c".into())), "read update archive entry: c");
    assert_eq!(said(UpdateError::OpenZip("c".into())), "open update ZIP: c");
    assert_eq!(said(UpdateError::ReadZipEntry("c".into())), "read update ZIP entry: c");
    assert_eq!(said(UpdateError::Extract("c".into())), "extract staged executable: c");
    assert_eq!(said(UpdateError::StagedFailure), "staged Aingle CLI failed its version check");
    assert_eq!(said(UpdateError::StagedOutput), "invalid staged version output");
    assert_eq!(
        said(UpdateError::StagedVersion),
        "staged Aingle CLI reported an unexpected version"
    );
}

#[test]
fn the_user_is_told_of_updates() {
    let mut found = UpdateStatus {
        current_version: "1".into(),
        latest_version: "2".into(),
        update_available: true,
        target: "t".into(),
    };
    assert_eq!(
        update_notice(&found).unwrap(),
        "Aingle CLI 2 is available; current version is 1. Run `aingle update`."
    );
    assert_eq!(update_summary(&found, true), "current=1 latest=2 target=t status=update available");
    assert_eq!(update_summary(&found, false), "current=1 latest=2 target=t status=updated");
    found.update_available = false;
    assert!(update_notice(&found).is_none());
    assert_eq!(update_summary(&found, false), "current=1 latest=2 target=t status=current");
}

#[test]
fn the_prefix_of_a_windows_path_names_no_file() {
    let ends = |path: &str| has_file_name(path.as_bytes(), b"aingle.exe", true);
    for path in [
        "aingle.exe",
        "C:aingle.exe",
        "C:\\aingle.exe",
        "a/b\\aingle.exe",
        "\\aingle.exe",
        "\\\\server\\share\\aingle.exe",
        "//server/share/aingle.exe",
        "\\\\.\\COM1\\aingle.exe",
        "\\\\?\\C:\\aingle.exe",
        "\\\\?\\C:/aingle.exe",
        "\\\\?\\UNC\\server\\share\\aingle.exe",
        "\\\\?\\x\\aingle.exe",
    ] {
        assert!(ends(path), "{}", path);
    }
    for path in [
        "//server/aingle.exe",
        "\\\\server\\aingle.exe",
        "\\\\.\\aingle.exe",
        "\\\\?\\aingle.exe",
        "\\\\?\\x/aingle.exe",
        "\\\\?\\UNC\\server\\aingle.exe",
        "aingle.exe\\..",
        "aingle.ex",
        "..",
        "",
    ] {
        assert!(!ends(path), "{}", path);
    }
    assert!(has_file_name(b"//server/aingle", b"aingle", false));
    assert!(!has_file_name(b"C:aingle", b"aingle", false));
    assert!(has_file_name(b"a\\b/c:d/.", b"c:d", false));
}

const ARCHIVE: &str = "aingle-1.3.0-x86_64-unknown-linux-gnu.tar.gz";

fn offered() -> Release {
    release("v1.3.0", &[ARCHIVE, "aingle-1.3.0-x86_64-unknown-linux-gnu.tar.gz.sha256"])
}

fn started(current: &str) -> InstallState {
    InstallState::new(current.into(), linux())
}

fn said(action: InstallAction) -> String {
    match action {
        InstallAction::Fail(error) => error.message(),
        other => panic!("unexpected {:?}", other),
    }
}

fn with_archive(archive: Vec<u8>) -> InstallState {
    let mut state = started("1.2.0");
    assert!(matches!(
        install_step(&mut state, InstallInput::Released(offered())),
        InstallAction::Download(url) if url == "https://x/0"
    ));
    assert!(matches!(
        install_step(&mut state, InstallInput::Announced(None)),
        InstallAction::Read
    ));
    assert!(matches!(
        install_step(&mut state, InstallInput::Received(archive)),
        InstallAction::Download(url) if url == "https://x/1"
    ));
    assert!(matches!(
        install_step(&mut state, InstallInput::Announced(Some(MAX_CHECKSUM_BYTES as u64))),
        InstallAction::Read
    ));
    state
}

fn running() -> InstallState {
    let archive = tar_gz(&[("dist/aingle", b"program")]);
    let checksum = format!("{:x}  {ARCHIVE}\n", Sha256::digest(&archive));
    let mut state = with_archive(archive);
    assert!(matches!(
        install_step(&mut state, InstallInput::Received(checksum.into_bytes())),
        InstallAction::Stage(contents) if contents == b"program"
    ));
    assert!(matches!(install_step(&mut state, InstallInput::Staged), InstallAction::Run));
    state
}

#[test]
fn an_update_replaces_the_executable_after_every_check() {
    let mut state = running();
    assert!(matches!(
        install_step(&mut state, InstallInput::Ran(true, b"aingle 1.3.0\n".to_vec())),
        InstallAction::Replace
    ));
    match install_step(&mut state, InstallInput::Replaced) {
        InstallAction::Finish(found) => {
            assert!(found.update_available);
            assert_eq!(found.latest_version, "1.3.0");
            assert_eq!(found.current_version, "1.2.0");
            assert_eq!(found.target, "x86_64-unknown-linux-gnu");
        }
        other => panic!("unexpected {:?}", other),
    }
    assert_eq!(state.phase, InstallPhase::Stopped);
}

#[test]
fn nothing_is_downloaded_without_a_newer_release() {
    for current in ["1.3.0", "1.4.0"] {
        let mut state = started(current);
        assert!(matches!(
            install_step(&mut state, InstallInput::Released(offered())),
            InstallAction::Finish(found) if !found.update_available
        ));
        assert_eq!(state.phase, InstallPhase::Stopped);
    }
    let mut state = started("1.2.0");
    assert_eq!(
        said(install_step(&mut state, InstallInput::Released(release("v1.3.0", &[])))),
        format!("official release asset is unavailable: {ARCHIVE}")
    );
    assert!(said(install_step(
        &mut started("1.2.0"),
        InstallInput::Released(release("vv1", &[]))
    ))
    .starts_with("invalid release version vv1: "));
}

#[test]
fn an_update_stops_at_a_large_download() {
    let mut state = started("1.2.0");
    install_step(&mut state, InstallInput::Released(offered()));
    assert_eq!(
        said(install_step(
            &mut state,
            InstallInput::Announced(Some(MAX_ARCHIVE_BYTES as u64 + 1))
        )),
        format!("update download exceeds {MAX_ARCHIVE_BYTES} bytes")
    );
    assert_eq!(state.phase, InstallPhase::Stopped);
    let mut state = with_archive(Vec::new());
    assert_eq!(
        said(install_step(&mut state, InstallInput::Received(vec![b' '; MAX_CHECKSUM_BYTES + 1]))),
        format!("update download exceeds {MAX_CHECKSUM_BYTES} bytes")
    );
}

#[test]
fn an_update_stops_at_a_wrong_checksum_archive_or_executable() {
    let other = format!("{:x}  {ARCHIVE}\n", Sha256::digest(b"other"));
    let mut state = with_archive(tar_gz(&[("aingle", b"program")]));
    assert!(matches!(
        install_step(&mut state, InstallInput::Received(other.clone().into_bytes())),
        InstallAction::Fail(UpdateError::Checksum(ChecksumFault::Mismatch, _))
    ));
    assert_eq!(state.phase, InstallPhase::Stopped);
    let empty = tar_gz(&[("README", b"r")]);
    let checksum = format!("{:x}  {ARCHIVE}\n", Sha256::digest(&empty));
    let mut state = with_archive(empty);
    assert_eq!(
        said(install_step(&mut state, InstallInput::Received(checksum.into_bytes()))),
        "release archive does not contain aingle"
    );
    for (success, stdout) in [(false, "aingle 1.3.0"), (true, "aingle 1.2.0")] {
        let mut state = running();
        said(install_step(&mut state, InstallInput::Ran(success, stdout.into())));
        assert_eq!(state.phase, InstallPhase::Stopped);
    }
}

#[test]
fn an_update_that_fails_names_the_check() {
    let mut state = running();
    assert!(matches!(
        install_step(&mut state, InstallInput::Ran(true, vec![0xff])),
        InstallAction::Fail(UpdateError::StagedOutput)
    ));
    let mut state = running();
    assert!(matches!(
        install_step(&mut state, InstallInput::Ran(false, vec![0xff])),
        InstallAction::Fail(UpdateError::StagedFailure)
    ));
    let mut state = with_archive(Vec::new());
    assert!(matches!(
        install_step(&mut state, InstallInput::Received(vec![0xff])),
        InstallAction::Fail(UpdateError::Checksum(ChecksumFault::NotUtf8, name)) if name == ARCHIVE
    ));
}
