//! Updates: which release to take, and whether what was downloaded is what was released.

use vstd::prelude::*;
use vstd::string::*;
use vstd::utf8::*;

use crate::outside::{
    gunzip, gunzipped, is_tar_file, parsed_version, semver_exceeds, semver_parse, sha256_digest,
    sha256_hash, str_from_utf8, tar_contents, tar_entry, tar_listing, tar_read, version_exceeds,
    zip_contents, zip_entry, zip_listing, zip_read,
};
use crate::paths::{file_name, has_file_name};
use crate::tape::{is_walkable, safe_length, walk_limit};
use crate::text::{
    decimal_text, hex_text, is_space, join, lowered, result_view, same_text, split_words,
    texts, to_chars, to_decimal, to_hex, to_lower_ascii, trim, trim_front, trimmed,
    word_len, words,
};

verus! {

/// The largest archive that is downloaded, in bytes.
pub const MAX_ARCHIVE_BYTES: usize = 100 * 1024 * 1024;

/// The largest checksum file that is downloaded, in bytes.
pub const MAX_CHECKSUM_BYTES: usize = 4 * 1024;

/// How the running version compares with the latest release.
#[derive(Debug, Clone)]
pub struct UpdateStatus {
    pub current_version: String,
    pub latest_version: String,
    pub update_available: bool,
    pub target: String,
}

/// A release.
#[derive(Debug)]
pub struct Release {
    pub tag_name: String,
    pub assets: Vec<Asset>,
}

/// A file of a release.
#[derive(Debug)]
pub struct Asset {
    pub name: String,
    pub browser_download_url: String,
}

/// The machine for which an update is sought.
#[derive(Debug)]
pub struct Platform {
    pub os: String,
    pub arch: String,
    pub environment: String,
    pub windows: bool,
}

/// What is wrong with a checksum file.
#[derive(Debug, Clone, Copy, PartialEq, Eq, Structural)]
pub enum ChecksumFault {
    NotUtf8,
    Empty,
    NameMissing,
    OtherFile,
    NotADigest,
    Mismatch,
}

/// Why an update could not be found or taken.
#[derive(Debug)]
pub enum UpdateError {
    /// The running version is no version.
    CurrentVersion(String),
    /// The tag of the release is no version.
    ReleaseVersion(String, String),
    /// There are no releases for this operating system and processor.
    Platform(String, String),
    /// The release lacks a file.
    MissingAsset(String),
    /// A download is larger than so many bytes.
    TooLarge(usize),
    /// The checksum file for a file of this name is not as it should be.
    Checksum(ChecksumFault, String),
    /// The archive cannot be opened.
    OpenArchive(String),
    /// An entry of the archive cannot be read.
    ReadEntry(String),
    /// The ZIP archive cannot be opened.
    OpenZip(String),
    /// An entry of the ZIP archive cannot be read.
    ReadZipEntry(String),
    /// The executable cannot be read out of the archive.
    Extract(String),
    /// The archive lacks the executable of this name.
    NoBinary(String),
    /// The new executable does not run.
    StagedFailure,
    /// The new executable does not print text.
    StagedOutput,
    /// The new executable reports another version.
    StagedVersion,
}

/// What an error says.
pub enum UpdateFault {
    CurrentVersion(Seq<char>),
    ReleaseVersion(Seq<char>, Seq<char>),
    Platform(Seq<char>, Seq<char>),
    MissingAsset(Seq<char>),
    TooLarge(usize),
    Checksum(ChecksumFault, Seq<char>),
    OpenArchive(Seq<char>),
    ReadEntry(Seq<char>),
    OpenZip(Seq<char>),
    ReadZipEntry(Seq<char>),
    Extract(Seq<char>),
    NoBinary(Seq<char>),
    StagedFailure,
    StagedOutput,
    StagedVersion,
}

impl View for UpdateError {
    type V = UpdateFault;

    open spec fn view(&self) -> UpdateFault {
        match self {
            UpdateError::CurrentVersion(cause) => UpdateFault::CurrentVersion(cause@),
            UpdateError::ReleaseVersion(tag, cause) => UpdateFault::ReleaseVersion(tag@, cause@),
            UpdateError::Platform(os, arch) => UpdateFault::Platform(os@, arch@),
            UpdateError::MissingAsset(name) => UpdateFault::MissingAsset(name@),
            UpdateError::TooLarge(limit) => UpdateFault::TooLarge(*limit),
            UpdateError::Checksum(fault, name) => UpdateFault::Checksum(*fault, name@),
            UpdateError::OpenArchive(cause) => UpdateFault::OpenArchive(cause@),
            UpdateError::ReadEntry(cause) => UpdateFault::ReadEntry(cause@),
            UpdateError::OpenZip(cause) => UpdateFault::OpenZip(cause@),
            UpdateError::ReadZipEntry(cause) => UpdateFault::ReadZipEntry(cause@),
            UpdateError::Extract(cause) => UpdateFault::Extract(cause@),
            UpdateError::NoBinary(name) => UpdateFault::NoBinary(name@),
            UpdateError::StagedFailure => UpdateFault::StagedFailure,
            UpdateError::StagedOutput => UpdateFault::StagedOutput,
            UpdateError::StagedVersion => UpdateFault::StagedVersion,
        }
    }
}

/// What is wrong with a checksum file, in words.
pub open spec fn checksum_fault_text(fault: ChecksumFault, name: Seq<char>) -> Seq<char> {
    match fault {
        ChecksumFault::NotUtf8 => "checksum is not UTF-8"@,
        ChecksumFault::Empty => "checksum is empty"@,
        ChecksumFault::NameMissing => "checksum filename is missing"@,
        ChecksumFault::OtherFile => "checksum does not describe "@ + name,
        ChecksumFault::NotADigest => "checksum is not a SHA-256 digest"@,
        ChecksumFault::Mismatch => "Aingle CLI checksum mismatch"@,
    }
}

/// An error in words.
pub open spec fn update_error_text(error: UpdateError) -> Seq<char> {
    match error {
        UpdateError::CurrentVersion(cause) => cause@,
        UpdateError::ReleaseVersion(tag, cause) => "invalid release version "@ + tag@ + ": "@
            + cause@,
        UpdateError::Platform(os, arch) =>
            "this platform has no official Aingle CLI update target: "@ + os@ + "/"@ + arch@,
        UpdateError::MissingAsset(name) => "official release asset is unavailable: "@ + name@,
        UpdateError::TooLarge(limit) => "update download exceeds "@ + decimal_text(limit as nat)
            + " bytes"@,
        UpdateError::Checksum(fault, name) => checksum_fault_text(fault, name@),
        UpdateError::OpenArchive(cause) => "read update archive: "@ + cause@,
        UpdateError::ReadEntry(cause) => "read update archive entry: "@ + cause@,
        UpdateError::OpenZip(cause) => "open update ZIP: "@ + cause@,
        UpdateError::ReadZipEntry(cause) => "read update ZIP entry: "@ + cause@,
        UpdateError::Extract(cause) => "extract staged executable: "@ + cause@,
        UpdateError::NoBinary(name) => "release archive does not contain "@ + name@,
        UpdateError::StagedFailure => "staged Aingle CLI failed its version check"@,
        UpdateError::StagedOutput => "invalid staged version output"@,
        UpdateError::StagedVersion => "staged Aingle CLI reported an unexpected version"@,
    }
}

impl UpdateError {
    /// The error in words.
    pub fn message(&self) -> (text: String)
        ensures
            text@ == update_error_text(*self),
    {
        match self {
            UpdateError::CurrentVersion(cause) => cause.clone(),
            UpdateError::ReleaseVersion(tag, cause) => join(
                join(join("invalid release version ", tag.as_str()).as_str(), ": ").as_str(),
                cause.as_str(),
            ),
            UpdateError::Platform(os, arch) => join(
                join(
                    join(
                        "this platform has no official Aingle CLI update target: ",
                        os.as_str(),
                    ).as_str(),
                    "/",
                ).as_str(),
                arch.as_str(),
            ),
            UpdateError::MissingAsset(name) => join(
                "official release asset is unavailable: ",
                name.as_str(),
            ),
            UpdateError::TooLarge(limit) => join(
                join("update download exceeds ", to_decimal(*limit as u64).as_str()).as_str(),
                " bytes",
            ),
            UpdateError::Checksum(fault, name) => match fault {
                ChecksumFault::NotUtf8 => "checksum is not UTF-8".to_owned(),
                ChecksumFault::Empty => "checksum is empty".to_owned(),
                ChecksumFault::NameMissing => "checksum filename is missing".to_owned(),
                ChecksumFault::OtherFile => join("checksum does not describe ", name.as_str()),
                ChecksumFault::NotADigest => "checksum is not a SHA-256 digest".to_owned(),
                ChecksumFault::Mismatch => "Aingle CLI checksum mismatch".to_owned(),
            },
            UpdateError::OpenArchive(cause) => join("read update archive: ", cause.as_str()),
            UpdateError::ReadEntry(cause) => join("read update archive entry: ", cause.as_str()),
            UpdateError::OpenZip(cause) => join("open update ZIP: ", cause.as_str()),
            UpdateError::ReadZipEntry(cause) => join("read update ZIP entry: ", cause.as_str()),
            UpdateError::Extract(cause) => join("extract staged executable: ", cause.as_str()),
            UpdateError::NoBinary(name) => join(
                "release archive does not contain ",
                name.as_str(),
            ),
            UpdateError::StagedFailure => "staged Aingle CLI failed its version check".to_owned(),
            UpdateError::StagedOutput => "invalid staged version output".to_owned(),
            UpdateError::StagedVersion =>
                "staged Aingle CLI reported an unexpected version".to_owned(),
        }
    }
}

/// The target for which releases are built, if there are any for a machine.
pub open spec fn target_text(os: Seq<char>, arch: Seq<char>, environment: Seq<char>) -> Option<
    Seq<char>,
> {
    if os == "linux"@ && arch == "x86_64"@ {
        Some("x86_64-unknown-linux-gnu"@)
    } else if os == "linux"@ && arch == "aarch64"@ {
        Some("aarch64-unknown-linux-gnu"@)
    } else if os == "linux"@ && arch == "x86"@ {
        Some("i686-unknown-linux-gnu"@)
    } else if os == "macos"@ && arch == "aarch64"@ {
        Some("aarch64-apple-darwin"@)
    } else if os == "macos"@ && arch == "x86_64"@ {
        Some("x86_64-apple-darwin"@)
    } else if os == "windows"@ && arch == "x86_64"@ && environment == "gnu"@ {
        Some("x86_64-pc-windows-gnu"@)
    } else if os == "windows"@ && arch == "x86_64"@ {
        Some("x86_64-pc-windows-msvc"@)
    } else if os == "windows"@ && arch == "aarch64"@ {
        Some("aarch64-pc-windows-msvc"@)
    } else if os == "windows"@ && arch == "x86"@ {
        Some("i686-pc-windows-msvc"@)
    } else {
        None
    }
}

/// Whether an outcome is the target of a machine, or says that there is none.
pub open spec fn is_target(
    outcome: Result<&'static str, UpdateError>,
    os: Seq<char>,
    arch: Seq<char>,
    environment: Seq<char>,
) -> bool {
    match target_text(os, arch, environment) {
        Some(target) => outcome is Ok && outcome->Ok_0@ == target,
        None => match outcome {
            Err(UpdateError::Platform(named, processor)) => named@ == os && processor@ == arch,
            _ => false,
        },
    }
}

/// The target for which releases are built.
pub fn target_for(os: &str, arch: &str, environment: &str) -> (target: Result<
    &'static str,
    UpdateError,
>)
    ensures
        is_target(target, os@, arch@, environment@),
{
    let linux = same_text(os, "linux");
    let macos = same_text(os, "macos");
    let windows = same_text(os, "windows");
    let x86_64 = same_text(arch, "x86_64");
    let aarch64 = same_text(arch, "aarch64");
    let x86 = same_text(arch, "x86");
    if linux && x86_64 {
        Ok("x86_64-unknown-linux-gnu")
    } else if linux && aarch64 {
        Ok("aarch64-unknown-linux-gnu")
    } else if linux && x86 {
        Ok("i686-unknown-linux-gnu")
    } else if macos && aarch64 {
        Ok("aarch64-apple-darwin")
    } else if macos && x86_64 {
        Ok("x86_64-apple-darwin")
    } else if windows && x86_64 && same_text(environment, "gnu") {
        Ok("x86_64-pc-windows-gnu")
    } else if windows && x86_64 {
        Ok("x86_64-pc-windows-msvc")
    } else if windows && aarch64 {
        Ok("aarch64-pc-windows-msvc")
    } else if windows && x86 {
        Ok("i686-pc-windows-msvc")
    } else {
        Err(UpdateError::Platform(os.to_owned(), arch.to_owned()))
    }
}

/// The version that a tag names: the tag without a leading `v`.
pub open spec fn tag_version(tag: Seq<char>) -> Seq<char> {
    if tag.len() > 0 && tag[0] == 'v' {
        tag.skip(1)
    } else {
        tag
    }
}

fn version_of_tag(tag: &str) -> (version: &str)
    ensures
        version@ == tag_version(tag@),
{
    let chars = to_chars(tag);
    if chars.len() > 0 && chars[0] == 'v' {
        let rest = tag.substring_char(1, chars.len());
        assert(rest@ =~= tag@.skip(1));
        rest
    } else {
        tag
    }
}

/// Whether an outcome is the comparison of two versions, which are each a text or why there is
/// none.
pub open spec fn is_status(
    outcome: Result<UpdateStatus, UpdateError>,
    current: Result<Seq<char>, Seq<char>>,
    latest: Result<Seq<char>, Seq<char>>,
    newer: bool,
    tag: Seq<char>,
    platform: Platform,
) -> bool {
    match (current, latest) {
        (Err(cause), _) => match outcome {
            Err(UpdateError::CurrentVersion(text)) => text@ == cause,
            _ => false,
        },
        (Ok(_), Err(cause)) => match outcome {
            Err(UpdateError::ReleaseVersion(named, text)) => named@ == tag && text@ == cause,
            _ => false,
        },
        (Ok(running), Ok(released)) => match target_text(
            platform.os@,
            platform.arch@,
            platform.environment@,
        ) {
            None => match outcome {
                Err(UpdateError::Platform(os, arch)) => os@ == platform.os@ && arch@
                    == platform.arch@,
                _ => false,
            },
            Some(target) => match outcome {
                Ok(status) => {
                    &&& status.current_version@ == running
                    &&& status.latest_version@ == released
                    &&& status.update_available == newer
                    &&& status.target@ == target
                },
                Err(_) => false,
            },
        },
    }
}

/// How the running version compares with a release, once both versions were read.
pub fn compare_release(
    current: Result<String, String>,
    latest: Result<String, String>,
    newer: bool,
    tag: &str,
    platform: &Platform,
) -> (status: Result<UpdateStatus, UpdateError>)
    ensures
        is_status(status, result_view(current), result_view(latest), newer, tag@, *platform),
{
    let current_version = match current {
        Ok(version) => version,
        Err(cause) => return Err(UpdateError::CurrentVersion(cause)),
    };
    let latest_version = match latest {
        Ok(version) => version,
        Err(cause) => return Err(UpdateError::ReleaseVersion(tag.to_owned(), cause)),
    };
    match target_for(
        platform.os.as_str(),
        platform.arch.as_str(),
        platform.environment.as_str(),
    ) {
        Ok(target) => Ok(
            UpdateStatus {
                current_version,
                latest_version,
                update_available: newer,
                target: target.to_owned(),
            },
        ),
        Err(error) => Err(error),
    }
}

/// How the running version compares with a release.
pub fn status(release: &Release, current: &str, platform: &Platform) -> (status: Result<
    UpdateStatus,
    UpdateError,
>)
    ensures
        is_status(
            status,
            parsed_version(current@),
            parsed_version(tag_version(release.tag_name@)),
            version_exceeds(tag_version(release.tag_name@), current@),
            release.tag_name@,
            *platform,
        ),
        status matches Ok(found) ==> {
            &&& found.current_version@ == current@
            &&& found.latest_version@ == tag_version(release.tag_name@)
            &&& tag_version(release.tag_name@) == current@ ==> !found.update_available
        },
{
    let tag = release.tag_name.as_str();
    let latest = version_of_tag(tag);
    let running = semver_parse(current);
    let released = semver_parse(latest);
    let newer = running.is_ok() && released.is_ok() && semver_exceeds(latest, current);
    compare_release(running, released, newer, tag, platform)
}

/// The ending of archives.
pub fn archive_extension(windows: bool) -> (extension: &'static str)
    ensures
        extension@ == if windows {
            "zip"@
        } else {
            "tar.gz"@
        },
{
    if windows {
        "zip"
    } else {
        "tar.gz"
    }
}

/// The name of the executable.
pub open spec fn binary_text(windows: bool) -> Seq<char> {
    if windows {
        "aingle.exe"@
    } else {
        "aingle"@
    }
}

/// The name of the executable.
pub fn binary_name(windows: bool) -> (name: &'static str)
    ensures
        name@ == binary_text(windows),
{
    if windows {
        "aingle.exe"
    } else {
        "aingle"
    }
}

/// The name of the archive that holds a version for a target.
pub open spec fn archive_text(version: Seq<char>, target: Seq<char>, windows: bool) -> Seq<char> {
    "aingle-"@ + version + "-"@ + target + "."@ + if windows {
        "zip"@
    } else {
        "tar.gz"@
    }
}

/// The first asset with a name.
pub open spec fn first_named(assets: Seq<Asset>, name: Seq<char>) -> Option<Asset>
    decreases assets.len(),
{
    if assets.len() == 0 {
        None
    } else if assets[0].name@ == name {
        Some(assets[0])
    } else {
        first_named(assets.drop_first(), name)
    }
}

/// The first asset of a release with a name.
pub fn release_asset<'a>(release: &'a Release, name: &str) -> (asset: Result<
    &'a Asset,
    UpdateError,
>)
    ensures
        first_named(release.assets@, name@) matches Some(found) ==> asset == Ok::<
            &Asset,
            UpdateError,
        >(&found),
        first_named(release.assets@, name@) is None ==> (asset matches Err(
            UpdateError::MissingAsset(missing),
        ) && missing@ == name@),
{
    let mut index: usize = 0;
    assert(release.assets@.skip(0) =~= release.assets@);
    while index < release.assets.len()
        invariant
            index <= release.assets@.len(),
            first_named(release.assets@, name@) == first_named(
                release.assets@.skip(index as int),
                name@,
            ),
        decreases release.assets@.len() - index,
    {
        assert(release.assets@.skip(index as int).drop_first() =~= release.assets@.skip(
            index as int + 1,
        ));
        if same_text(release.assets[index].name.as_str(), name) {
            return Ok(&release.assets[index]);
        }
        index = index + 1;
    }
    Err(UpdateError::MissingAsset(name.to_owned()))
}

/// What is to be downloaded for an update.
#[derive(Debug)]
pub struct InstallPlan {
    pub archive_name: String,
    pub archive_url: String,
    pub checksum_url: String,
}

/// Whether an outcome is what is to be downloaded, or names the first file that the release lacks.
pub open spec fn is_plan(
    outcome: Result<InstallPlan, UpdateError>,
    assets: Seq<Asset>,
    archive: Seq<char>,
) -> bool {
    match (first_named(assets, archive), first_named(assets, archive + ".sha256"@)) {
        (Some(package), Some(checksum)) => match outcome {
            Ok(plan) => {
                &&& plan.archive_name@ == archive
                &&& plan.archive_url@ == package.browser_download_url@
                &&& plan.checksum_url@ == checksum.browser_download_url@
            },
            Err(_) => false,
        },
        (Some(_), None) => match outcome {
            Err(UpdateError::MissingAsset(name)) => name@ == archive + ".sha256"@,
            _ => false,
        },
        (None, _) => match outcome {
            Err(UpdateError::MissingAsset(name)) => name@ == archive,
            _ => false,
        },
    }
}

/// What is to be downloaded for an update.
pub fn install_plan(release: &Release, status: &UpdateStatus, windows: bool) -> (plan: Result<
    InstallPlan,
    UpdateError,
>)
    ensures
        is_plan(
            plan,
            release.assets@,
            archive_text(status.latest_version@, status.target@, windows),
        ),
{
    let mut archive_name = join("aingle-", status.latest_version.as_str());
    archive_name.append("-");
    archive_name.append(status.target.as_str());
    archive_name.append(".");
    archive_name.append(archive_extension(windows));
    let checksum_name = join(archive_name.as_str(), ".sha256");
    let archive = release_asset(release, archive_name.as_str())?;
    let checksum = release_asset(release, checksum_name.as_str())?;
    Ok(
        InstallPlan {
            archive_name,
            archive_url: archive.browser_download_url.clone(),
            checksum_url: checksum.browser_download_url.clone(),
        },
    )
}

/// Refuses a download that is announced to be too large.
pub fn check_announced(announced: Option<u64>, limit: usize) -> (outcome: Result<(), UpdateError>)
    ensures
        outcome == if announced is Some && announced->0 > limit {
            Err(UpdateError::TooLarge(limit))
        } else {
            Ok::<(), UpdateError>(())
        },
{
    if let Some(length) = announced {
        if length > limit as u64 {
            return Err(UpdateError::TooLarge(limit));
        }
    }
    Ok(())
}

/// Refuses a download that is too large.
pub fn check_length(length: usize, limit: usize) -> (outcome: Result<(), UpdateError>)
    ensures
        outcome == if length > limit {
            Err(UpdateError::TooLarge(limit))
        } else {
            Ok::<(), UpdateError>(())
        },
{
    if length > limit {
        Err(UpdateError::TooLarge(limit))
    } else {
        Ok(())
    }
}

/// A text without the asterisks at its front, which mark binary files.
pub open spec fn without_stars(name: Seq<char>) -> Seq<char>
    decreases name.len(),
{
    if name.len() > 0 && name[0] == '*' {
        without_stars(name.drop_first())
    } else {
        name
    }
}

/// Whether a character is a hexadecimal digit.
pub open spec fn is_hex(c: char) -> bool {
    '0' <= c <= '9' || 'a' <= c <= 'f' || 'A' <= c <= 'F'
}

/// Whether a text is the notation of a SHA-256 digest.
pub open spec fn is_digest_text(text: Seq<char>) -> bool {
    text.len() == 64 && forall|i: int| 0 <= i < text.len() ==> is_hex(#[trigger] text[i])
}

/// What is wrong with a checksum file, for a file with the given name and digest.
pub open spec fn checksum_fault(name: Seq<char>, digest: Seq<u8>, checksum: Seq<u8>) -> Option<
    ChecksumFault,
> {
    let fields = words(decode_utf8(checksum));
    if !valid_utf8(checksum) {
        Some(ChecksumFault::NotUtf8)
    } else if fields.len() == 0 {
        Some(ChecksumFault::Empty)
    } else if fields.len() == 1 {
        Some(ChecksumFault::NameMissing)
    } else if fields.len() > 2 || without_stars(fields[1]) != name {
        Some(ChecksumFault::OtherFile)
    } else if !is_digest_text(fields[0]) {
        Some(ChecksumFault::NotADigest)
    } else if lowered(fields[0]) != hex_text(digest) {
        Some(ChecksumFault::Mismatch)
    } else {
        None
    }
}

fn strip_stars(name: &str) -> (rest: &str)
    ensures
        rest@ == without_stars(name@),
{
    let chars = to_chars(name);
    let mut from: usize = 0;
    assert(chars@.skip(0) =~= chars@);
    while from < chars.len() && chars[from] == '*'
        invariant
            from <= chars@.len(),
            without_stars(chars@) == without_stars(chars@.skip(from as int)),
        decreases chars@.len() - from,
    {
        assert(chars@.skip(from as int).drop_first() =~= chars@.skip(from as int + 1));
        from = from + 1;
    }
    let rest = name.substring_char(from, chars.len());
    assert(rest@ =~= chars@.skip(from as int));
    rest
}

fn is_digest(text: &str) -> (digest: bool)
    ensures
        digest == is_digest_text(text@),
{
    let chars = to_chars(text);
    if chars.len() != 64 {
        return false;
    }
    let mut index: usize = 0;
    while index < chars.len()
        invariant
            index <= chars@.len() == 64,
            chars@ == text@,
            forall|i: int| 0 <= i < index ==> is_hex(#[trigger] chars@[i]),
        decreases chars@.len() - index,
    {
        let c = chars[index];
        if !(('0' <= c && c <= '9') || ('a' <= c && c <= 'f') || ('A' <= c && c <= 'F')) {
            return false;
        }
        index = index + 1;
    }
    true
}

/// What is wrong with a checksum file, for a file with the given name and digest.
pub fn find_checksum_fault(name: &str, digest: &[u8], checksum: &[u8]) -> (fault: Option<
    ChecksumFault,
>)
    ensures
        fault == checksum_fault(name@, digest@, checksum@),
{
    let text = match str_from_utf8(checksum) {
        Some(text) => text,
        None => return Some(ChecksumFault::NotUtf8),
    };
    proof {
        encode_utf8_decode_utf8(text@);
    }
    let fields = split_words(text);
    assert(texts(fields@).len() == fields@.len());
    if fields.len() == 0 {
        return Some(ChecksumFault::Empty);
    }
    if fields.len() == 1 {
        return Some(ChecksumFault::NameMissing);
    }
    assert(texts(fields@)[0] == fields@[0]@ && texts(fields@)[1] == fields@[1]@);
    if fields.len() > 2 || !same_text(strip_stars(fields[1].as_str()), name) {
        return Some(ChecksumFault::OtherFile);
    }
    let expected = fields[0].as_str();
    if !is_digest(expected) {
        return Some(ChecksumFault::NotADigest);
    }
    proof {
        assert forall|i: int| 0 <= i < expected@.len() implies '\0' <= #[trigger] expected@[i]
            <= '\u{7f}' by {
            assert(is_hex(expected@[i]));
        }
        assert(is_ascii_chars(expected@));
    }
    if !same_text(to_lower_ascii(expected).as_str(), to_hex(digest).as_str()) {
        return Some(ChecksumFault::Mismatch);
    }
    None
}

/// Checks that an archive is the one that a checksum file describes.
pub fn verify_checksum(name: &str, archive: &[u8], checksum: &[u8]) -> (outcome: Result<
    (),
    UpdateError,
>)
    ensures
        match checksum_fault(name@, sha256_digest(archive@), checksum@) {
            None => outcome is Ok,
            Some(fault) => match outcome {
                Err(UpdateError::Checksum(found, file)) => found == fault && file@ == name@,
                _ => false,
            },
        },
{
    let digest = sha256_hash(archive);
    match find_checksum_fault(name, digest.as_slice(), checksum) {
        None => Ok(()),
        Some(fault) => Err(UpdateError::Checksum(fault, name.to_owned())),
    }
}

/// An entry of an archive.
#[derive(Debug)]
pub struct ArchiveEntry {
    pub is_file: bool,
    pub path: Vec<u8>,
}

/// What an entry says.
pub struct EntryView {
    pub is_file: bool,
    pub path: Seq<u8>,
}

impl View for ArchiveEntry {
    type V = EntryView;

    open spec fn view(&self) -> EntryView {
        EntryView { is_file: self.is_file, path: self.path@ }
    }
}

/// What was found at an index of an archive: why the archive cannot be opened, or nothing, or why
/// the entry cannot be read, or what it says.
pub open spec fn found_view(found: Result<Option<Result<ArchiveEntry, String>>, String>) -> Result<
    Option<Result<EntryView, Seq<char>>>,
    Seq<char>,
> {
    match found {
        Ok(Some(entry)) => Ok(Some(result_view(entry))),
        Ok(None) => Ok(None),
        Err(cause) => Err(cause@),
    }
}

/// What stands at an index of the listing of an archive.
pub open spec fn entry_at(
    listing: Result<Seq<Result<EntryView, Seq<char>>>, Seq<char>>,
    index: int,
) -> Result<Option<Result<EntryView, Seq<char>>>, Seq<char>> {
    match listing {
        Ok(entries) => Ok(
            if 0 <= index < entries.len() {
                Some(entries[index])
            } else {
                None
            },
        ),
        Err(cause) => Err(cause),
    }
}

/// Whether an entry is a file with the name of the executable.
pub open spec fn is_binary(entry: EntryView, windows: bool) -> bool {
    entry.is_file && file_name(entry.path, windows) == Some(encode_utf8(binary_text(windows)))
}

/// What is done at an entry of an archive.
#[derive(Debug)]
pub enum EntryStep {
    /// Take its contents.
    Extract,
    /// Go on to the next.
    Skip,
    /// End with an error.
    Fail(UpdateError),
}

/// What is done at an entry of an archive.
pub enum EntryNext {
    Extract,
    Skip,
    Fail(UpdateFault),
}

impl View for EntryStep {
    type V = EntryNext;

    open spec fn view(&self) -> EntryNext {
        match self {
            EntryStep::Extract => EntryNext::Extract,
            EntryStep::Skip => EntryNext::Skip,
            EntryStep::Fail(error) => EntryNext::Fail(error@),
        }
    }
}

/// What is done with what was found at an index of an archive.
pub open spec fn entry_next(
    found: Result<Option<Result<EntryView, Seq<char>>>, Seq<char>>,
    windows: bool,
) -> EntryNext {
    match found {
        Err(cause) => EntryNext::Fail(
            if windows {
                UpdateFault::OpenZip(cause)
            } else {
                UpdateFault::OpenArchive(cause)
            },
        ),
        Ok(None) => EntryNext::Fail(UpdateFault::NoBinary(binary_text(windows))),
        Ok(Some(Err(cause))) => EntryNext::Fail(
            if windows {
                UpdateFault::ReadZipEntry(cause)
            } else {
                UpdateFault::ReadEntry(cause)
            },
        ),
        Ok(Some(Ok(entry))) => if is_binary(entry, windows) {
            EntryNext::Extract
        } else {
            EntryNext::Skip
        },
    }
}

/// The index of the executable in an archive, from an index on, or why it cannot be found.
pub open spec fn selection(
    listing: Result<Seq<Result<EntryView, Seq<char>>>, Seq<char>>,
    windows: bool,
    from: int,
) -> Result<int, UpdateFault>
    decreases listing->Ok_0.len() - from,
{
    match entry_next(entry_at(listing, from), windows) {
        EntryNext::Extract => Ok(from),
        EntryNext::Skip => selection(listing, windows, from + 1),
        EntryNext::Fail(fault) => Err(fault),
    }
}

/// The entries of an archive, as far as it is walked.
pub open spec fn archive_listing(archive: Seq<u8>, windows: bool) -> Result<
    Seq<Result<EntryView, Seq<char>>>,
    Seq<char>,
> {
    if windows {
        zip_listing(archive)
    } else {
        tar_listing(archive, walk_limit(gunzipped(archive)) as u64)
    }
}

/// The executable in an archive, or why it cannot be taken out.
pub open spec fn extraction(archive: Seq<u8>, windows: bool) -> Result<Seq<u8>, UpdateFault> {
    match selection(archive_listing(archive, windows), windows, 0) {
        Ok(index) => match if windows {
            zip_contents(archive, index)
        } else {
            tar_contents(archive, index)
        } {
            Ok(data) => Ok(data),
            Err(cause) => Err(UpdateFault::Extract(cause)),
        },
        Err(fault) => Err(fault),
    }
}

/// Says what to do with what was found at an index of an archive.
pub fn entry_step(found: Result<Option<Result<ArchiveEntry, String>>, String>, windows: bool) -> (
    step: EntryStep)
    ensures
        step@ == entry_next(found_view(found), windows),
{
    match found {
        Err(cause) => EntryStep::Fail(
            if windows {
                UpdateError::OpenZip(cause)
            } else {
                UpdateError::OpenArchive(cause)
            },
        ),
        Ok(None) => EntryStep::Fail(UpdateError::NoBinary(binary_name(windows).to_owned())),
        Ok(Some(Err(cause))) => EntryStep::Fail(
            if windows {
                UpdateError::ReadZipEntry(cause)
            } else {
                UpdateError::ReadEntry(cause)
            },
        ),
        Ok(Some(Ok(entry))) => if entry.is_file && has_file_name(
            entry.path.as_slice(),
            binary_name(windows).as_bytes(),
            windows,
        ) {
            EntryStep::Extract
        } else {
            EntryStep::Skip
        },
    }
}

fn extracted(data: Result<Vec<u8>, String>) -> (binary: Result<Vec<u8>, UpdateError>)
    ensures
        match result_view(data) {
            Ok(data) => binary is Ok && binary->Ok_0@ == data,
            Err(cause) => binary is Err && binary->Err_0@ == UpdateFault::Extract(cause),
        },
{
    match data {
        Ok(data) => Ok(data),
        Err(cause) => Err(UpdateError::Extract(cause)),
    }
}

fn extract_from_tar(archive: &[u8]) -> (binary: Result<Vec<u8>, UpdateError>)
    ensures
        match extraction(archive@, false) {
            Ok(data) => binary is Ok && binary->Ok_0@ == data,
            Err(fault) => binary is Err && binary->Err_0@ == fault,
        },
{
    let tape = gunzip(archive);
    let length: usize = tape.len();
    let limit: u64 = safe_length(tape.as_slice());
    let ghost listing = archive_listing(archive@, false);
    let mut index: usize = 0;
    loop
        invariant
            length == gunzipped(archive@).len(),
            limit == walk_limit(gunzipped(archive@)),
            is_walkable(gunzipped(archive@), limit as int),
            listing == tar_listing(archive@, limit),
            listing == archive_listing(archive@, false),
            index <= listing->Ok_0.len(),
            selection(listing, false, 0) == selection(listing, false, index as int),
        decreases listing->Ok_0.len() - index,
    {
        match entry_step(tar_entry(archive, limit, index), false) {
            EntryStep::Extract => {
                assert(is_tar_file(archive@, limit, index as int));
                return extracted(tar_read(archive, index));
            },
            EntryStep::Skip => {
                index = index + 1;
            },
            EntryStep::Fail(error) => return Err(error),
        }
    }
}

fn extract_from_zip(archive: &[u8]) -> (binary: Result<Vec<u8>, UpdateError>)
    ensures
        match extraction(archive@, true) {
            Ok(data) => binary is Ok && binary->Ok_0@ == data,
            Err(fault) => binary is Err && binary->Err_0@ == fault,
        },
{
    let ghost listing = zip_listing(archive@);
    let mut index: usize = 0;
    loop
        invariant
            listing == zip_listing(archive@),
            index <= listing->Ok_0.len(),
            selection(listing, true, 0) == selection(listing, true, index as int),
        decreases listing->Ok_0.len() - index,
    {
        match entry_step(zip_entry(archive, index), true) {
            EntryStep::Extract => return extracted(zip_read(archive, index)),
            EntryStep::Skip => {
                index = index + 1;
            },
            EntryStep::Fail(error) => return Err(error),
        }
    }
}

/// Takes the executable out of an archive.
pub fn extract_binary(archive: &[u8], windows: bool) -> (binary: Result<Vec<u8>, UpdateError>)
    ensures
        match extraction(archive@, windows) {
            Ok(data) => binary is Ok && binary->Ok_0@ == data,
            Err(fault) => binary is Err && binary->Err_0@ == fault,
        },
{
    if windows {
        extract_from_zip(archive)
    } else {
        extract_from_tar(archive)
    }
}

/// Law: what is taken out of an archive is the first file with the name of the executable, and all
/// entries before it can be read.
pub proof fn law_first_match_is_selected(
    listing: Result<Seq<Result<EntryView, Seq<char>>>, Seq<char>>,
    windows: bool,
    from: int,
)
    requires
        0 <= from,
    ensures
        selection(listing, windows, from) matches Ok(index) ==> {
            &&& from <= index
            &&& entry_at(listing, index) matches Ok(Some(Ok(entry))) && is_binary(entry, windows)
            &&& forall|i: int|
                from <= i < index ==> (#[trigger] entry_at(listing, i) matches Ok(Some(Ok(entry)))
                    && !is_binary(entry, windows))
        },
    decreases listing->Ok_0.len() - from,
{
    if entry_next(entry_at(listing, from), windows) is Skip {
        law_first_match_is_selected(listing, windows, from + 1);
    }
}

/// Law: what stands behind the executable in an archive does not matter.
pub proof fn law_nothing_behind_the_match_counts(
    one: Seq<Result<EntryView, Seq<char>>>,
    other: Seq<Result<EntryView, Seq<char>>>,
    windows: bool,
    from: int,
)
    requires
        0 <= from,
        selection(Ok(one), windows, from) matches Ok(index) && index < other.len() && one.take(
            index + 1,
        ) == other.take(index + 1),
    ensures
        selection(Ok(other), windows, from) == selection(Ok(one), windows, from),
    decreases one.len() - from,
{
    law_first_match_is_selected(Ok(one), windows, from);
    let index = selection(Ok(one), windows, from)->Ok_0;
    assert(one.take(index + 1)[from] == other.take(index + 1)[from]);
    if entry_next(entry_at(Ok(one), from), windows) is Skip {
        law_nothing_behind_the_match_counts(one, other, windows, from + 1);
    }
}

/// Checks that a new executable runs and reports the version that it should have.
pub fn verify_binary(success: bool, stdout: &[u8], version: &str) -> (outcome: Result<
    (),
    UpdateError,
>)
    ensures
        outcome == if !success {
            Err(UpdateError::StagedFailure)
        } else if !valid_utf8(stdout@) {
            Err(UpdateError::StagedOutput)
        } else if trimmed(decode_utf8(stdout@)) != "aingle "@ + version@ {
            Err(UpdateError::StagedVersion)
        } else {
            Ok::<(), UpdateError>(())
        },
{
    if !success {
        return Err(UpdateError::StagedFailure);
    }
    let text = match str_from_utf8(stdout) {
        Some(text) => text,
        None => return Err(UpdateError::StagedOutput),
    };
    proof {
        encode_utf8_decode_utf8(text@);
    }
    if !same_text(trim(text), join("aingle ", version).as_str()) {
        return Err(UpdateError::StagedVersion);
    }
    Ok(())
}

/// How an update went, in a word or two.
pub open spec fn progress_text(status: UpdateStatus, check_only: bool) -> Seq<char> {
    if !check_only && status.update_available {
        "updated"@
    } else if status.update_available {
        "update available"@
    } else {
        "current"@
    }
}

/// Whether a new version was installed.
pub fn is_updated(status: &UpdateStatus, check_only: bool) -> (updated: bool)
    ensures
        updated == (!check_only && status.update_available),
{
    !check_only && status.update_available
}

/// The line that tells the user how an update went.
pub fn update_summary(status: &UpdateStatus, check_only: bool) -> (line: String)
    ensures
        line@ == "current="@ + status.current_version@ + " latest="@ + status.latest_version@
            + " target="@ + status.target@ + " status="@ + progress_text(*status, check_only),
        line@ == "current="@ + status.current_version@ + " latest="@ + status.latest_version@
            + " target="@ + status.target@ + " status="@ + (if !status.update_available {
            "current"@
        } else if check_only {
            "update available"@
        } else {
            "updated"@
        }),
{
    let mut line = join("current=", status.current_version.as_str());
    line.append(" latest=");
    line.append(status.latest_version.as_str());
    line.append(" target=");
    line.append(status.target.as_str());
    line.append(" status=");
    line.append(
        if is_updated(status, check_only) {
            "updated"
        } else if status.update_available {
            "update available"
        } else {
            "current"
        },
    );
    line
}

/// The note that tells the user of a newer version, if there is one.
pub fn update_notice(status: &UpdateStatus) -> (notice: Option<String>)
    ensures
        notice is Some <==> status.update_available,
        notice matches Some(text) ==> text@ == "Aingle CLI "@ + status.latest_version@
            + " is available; current version is "@ + status.current_version@
            + ". Run `aingle update`."@,
{
    if !status.update_available {
        return None;
    }
    let mut text = join("Aingle CLI ", status.latest_version.as_str());
    text.append(" is available; current version is ");
    text.append(status.current_version.as_str());
    text.append(". Run `aingle update`.");
    Some(text)
}

/// Law: a checksum file pins the digest. Whatever archives pass under one file and name have the
/// same digest, in its usual notation.
pub proof fn law_checksum_pins_digest(
    name: Seq<char>,
    digest: Seq<u8>,
    other: Seq<u8>,
    checksum: Seq<u8>,
)
    requires
        checksum_fault(name, digest, checksum) is None,
    ensures
        checksum_fault(name, other, checksum) is None <==> hex_text(other) == hex_text(digest),
{
}

/// Law: a checksum file describes one name only.
pub proof fn law_checksum_names_one_file(
    name: Seq<char>,
    other: Seq<char>,
    digest: Seq<u8>,
    checksum: Seq<u8>,
)
    requires
        checksum_fault(name, digest, checksum) is None,
        other != name,
    ensures
        checksum_fault(other, digest, checksum) == Some(ChecksumFault::OtherFile),
{
}

proof fn lemma_first_word(word: Seq<char>, rest: Seq<char>)
    requires
        word.len() > 0,
        forall|i: int| 0 <= i < word.len() ==> !is_space(#[trigger] word[i]),
        rest.len() > 0 ==> is_space(rest[0]),
    ensures
        words(word + rest) == seq![word] + words(rest),
{
    lemma_word_ends(word, rest);
    let text = word + rest;
    assert(text[0] == word[0]);
    assert(trim_front(text) == text);
    assert(text.take(word.len() as int) =~= word);
    assert(text.skip(word.len() as int) =~= rest);
}

proof fn lemma_word_ends(word: Seq<char>, rest: Seq<char>)
    requires
        forall|i: int| 0 <= i < word.len() ==> !is_space(#[trigger] word[i]),
        rest.len() > 0 ==> is_space(rest[0]),
    ensures
        word_len(word + rest) == word.len(),
    decreases word.len(),
{
    let text = word + rest;
    if word.len() == 0 {
        assert(text =~= rest);
    } else {
        assert(text[0] == word[0]);
        assert(text.drop_first() =~= word.drop_first() + rest);
        lemma_word_ends(word.drop_first(), rest);
    }
}

proof fn lemma_hex_text_shape(digest: Seq<u8>)
    ensures
        hex_text(digest).len() == 2 * digest.len(),
        forall|i: int|
            0 <= i < 2 * digest.len() ==> is_hex(#[trigger] hex_text(digest)[i]) && !is_space(
                hex_text(digest)[i],
            ),
        lowered(hex_text(digest)) == hex_text(digest),
{
    assert(lowered(hex_text(digest)) =~= hex_text(digest));
}

/// Law: the checksum file that is made for an archive is accepted: its digest in hexadecimal, two
/// spaces, its name and the end of the line. The name is not empty, begins with no asterisk and
/// holds no white space.
pub proof fn law_checksum_accepts_its_archive(name: Seq<char>, digest: Seq<u8>)
    requires
        digest.len() == 32,
        name.len() > 0,
        name[0] != '*',
        forall|i: int| 0 <= i < name.len() ==> !is_space(#[trigger] name[i]),
    ensures
        checksum_fault(
            name,
            digest,
            encode_utf8(hex_text(digest) + seq![' ', ' '] + name + seq!['\n']),
        ) is None,
{
    let hex = hex_text(digest);
    let end = seq!['\n'];
    let text = hex + seq![' ', ' '] + name + end;
    encode_utf8_valid_utf8(text);
    encode_utf8_decode_utf8(text);
    lemma_hex_text_shape(digest);
    let after = seq![' ', ' '] + name + end;
    assert(text =~= hex + after);
    lemma_first_word(hex, after);
    assert(after.drop_first() =~= seq![' '] + name + end);
    assert(after.drop_first().drop_first() =~= name + end);
    reveal_with_fuel(trim_front, 3);
    assert((name + end)[0] == name[0]);
    assert(trim_front(after) == trim_front(name + end));
    assert(words(after) == words(name + end));
    lemma_first_word(name, end);
    assert(end.drop_first() =~= Seq::<char>::empty());
    assert(words(end) =~= Seq::<Seq<char>>::empty());
    assert(words(text) =~= seq![hex, name]);
    assert(without_stars(name) == name);
}

/// Law: releases are built for nine targets: three for Linux, two for macOS, and four for Windows, of
/// which only the 64-bit Intel one comes in two kinds; there is none for any other machine.
pub proof fn law_targets_that_are_built(os: Seq<char>, arch: Seq<char>, environment: Seq<char>)
    ensures
        ({
            let linux = os == "linux"@;
            let macos = os == "macos"@;
            let windows = os == "windows"@;
            let wide = arch == "x86_64"@;
            let arm = arch == "aarch64"@;
            let narrow = arch == "x86"@;
            let target = target_text(os, arch, environment);
            &&& linux && wide ==> target == Some("x86_64-unknown-linux-gnu"@)
            &&& linux && arm ==> target == Some("aarch64-unknown-linux-gnu"@)
            &&& linux && narrow ==> target == Some("i686-unknown-linux-gnu"@)
            &&& macos && arm ==> target == Some("aarch64-apple-darwin"@)
            &&& macos && wide ==> target == Some("x86_64-apple-darwin"@)
            &&& windows && wide && environment == "gnu"@ ==> target == Some(
                "x86_64-pc-windows-gnu"@,
            )
            &&& windows && wide && environment != "gnu"@ ==> target == Some(
                "x86_64-pc-windows-msvc"@,
            )
            &&& windows && arm ==> target == Some("aarch64-pc-windows-msvc"@)
            &&& windows && narrow ==> target == Some("i686-pc-windows-msvc"@)
            &&& target is Some <==> (linux || windows) && (wide || arm || narrow) || macos && (wide
                || arm)
        }),
{
    reveal_strlit("linux");
    reveal_strlit("macos");
    reveal_strlit("windows");
    reveal_strlit("x86_64");
    reveal_strlit("aarch64");
    reveal_strlit("x86");
    assert("linux"@[0] == 'l' && "macos"@[0] == 'm' && "windows"@[0] == 'w');
    assert("x86_64"@.len() == 6 && "aarch64"@.len() == 7 && "x86"@.len() == 3);
}

/// Law: a tag names the version behind its `v`, or itself where it has none; an archive is named
/// after the version and the target, and holds an executable of its own name.
pub proof fn law_names_of_a_release(version: Seq<char>, target: Seq<char>)
    ensures
        tag_version(seq!['v'] + version) == version,
        version.len() == 0 || version[0] != 'v' ==> tag_version(version) == version,
        archive_text(version, target, true) == "aingle-"@ + version + "-"@ + target + "."@ + "zip"@,
        archive_text(version, target, false) == "aingle-"@ + version + "-"@ + target + "."@
            + "tar.gz"@,
        binary_text(true) == "aingle.exe"@,
        binary_text(false) == "aingle"@,
        MAX_ARCHIVE_BYTES == 104_857_600,
        MAX_CHECKSUM_BYTES == 4096,
{
    assert((seq!['v'] + version).skip(1) =~= version);
}

/// Law: a file of a release is the first one with its name.
pub proof fn law_first_file_of_a_name(asset: Asset, rest: Seq<Asset>, name: Seq<char>)
    ensures
        first_named(Seq::empty(), name) is None,
        asset.name@ == name ==> first_named(seq![asset] + rest, name) == Some(asset),
        asset.name@ != name ==> first_named(seq![asset] + rest, name) == first_named(rest, name),
{
    assert((seq![asset] + rest).drop_first() =~= rest);
}

/// Law: a comparison tells both versions, whether the release is newer and for which target it is;
/// where a version cannot be read or there is no target, it says which.
pub proof fn law_comparisons_tell_both_versions(
    outcome: Result<UpdateStatus, UpdateError>,
    current: Result<Seq<char>, Seq<char>>,
    latest: Result<Seq<char>, Seq<char>>,
    newer: bool,
    tag: Seq<char>,
    platform: Platform,
)
    requires
        is_status(outcome, current, latest, newer, tag, platform),
    ensures
        ({
            let target = target_text(platform.os@, platform.arch@, platform.environment@);
            &&& outcome is Ok <==> current is Ok && latest is Ok && target is Some
            &&& outcome matches Ok(status) ==> status.current_version@ == current->Ok_0
                && status.latest_version@ == latest->Ok_0 && status.update_available == newer
                && status.target@ == target->0
            &&& current is Err ==> (outcome matches Err(UpdateError::CurrentVersion(text)) && text@
                == current->Err_0)
            &&& current is Ok && latest is Err ==> (outcome matches Err(
                UpdateError::ReleaseVersion(named, text),
            ) && named@ == tag && text@ == latest->Err_0)
            &&& current is Ok && latest is Ok && target is None ==> (outcome matches Err(
                UpdateError::Platform(os, arch),
            ) && os@ == platform.os@ && arch@ == platform.arch@)
        }),
{
}

/// Law: a plan names the archive and where it and its checksum file are; where one of them is
/// missing, it says which, the archive first.
pub proof fn law_plans_name_both_files(
    outcome: Result<InstallPlan, UpdateError>,
    assets: Seq<Asset>,
    archive: Seq<char>,
)
    requires
        is_plan(outcome, assets, archive),
    ensures
        ({
            let package = first_named(assets, archive);
            let digest = first_named(assets, archive + ".sha256"@);
            &&& outcome is Ok <==> package is Some && digest is Some
            &&& outcome matches Ok(plan) ==> plan.archive_name@ == archive && plan.archive_url@
                == package->0.browser_download_url@ && plan.checksum_url@
                == digest->0.browser_download_url@
            &&& package is None ==> (outcome matches Err(UpdateError::MissingAsset(name)) && name@
                == archive)
            &&& package is Some && digest is None ==> (outcome matches Err(
                UpdateError::MissingAsset(name),
            ) && name@ == archive + ".sha256"@)
        }),
{
}

/// Law: a checksum file is without fault exactly where it is UTF-8 and has two words, of which the
/// second names the file, apart from asterisks before it, and the first is the digest in sixty-four
/// hexadecimal digits of either case. Otherwise the first of these that fails is named.
pub proof fn law_checksums_by_their_words(name: Seq<char>, digest: Seq<u8>, checksum: Seq<u8>)
    ensures
        ({
            let fields = words(decode_utf8(checksum));
            let first = fields[0];
            let digits = first.len() == 64 && forall|i: int|
                0 <= i < 64 ==> ('0' <= #[trigger] first[i] <= '9' || 'a' <= first[i] <= 'f' || 'A'
                    <= first[i] <= 'F');
            checksum_fault(name, digest, checksum) == if !valid_utf8(checksum) {
                Some(ChecksumFault::NotUtf8)
            } else if fields.len() == 0 {
                Some(ChecksumFault::Empty)
            } else if fields.len() == 1 {
                Some(ChecksumFault::NameMissing)
            } else if fields.len() > 2 || without_stars(fields[1]) != name {
                Some(ChecksumFault::OtherFile)
            } else if !digits {
                Some(ChecksumFault::NotADigest)
            } else if lowered(first) != hex_text(digest) {
                Some(ChecksumFault::Mismatch)
            } else {
                None
            }
        }),
{
    let first = words(decode_utf8(checksum))[0];
    if is_digest_text(first) {
        assert forall|i: int| 0 <= i < 64 implies ('0' <= #[trigger] first[i] <= '9' || 'a'
            <= first[i] <= 'f' || 'A' <= first[i] <= 'F') by {
            assert(is_hex(first[i]));
        }
    }
}

/// Law: asterisks are taken away from the front of a name, all of them and nothing else.
pub proof fn law_asterisks_are_taken_from_the_front(stars: Seq<char>, name: Seq<char>)
    requires
        forall|i: int| 0 <= i < stars.len() ==> #[trigger] stars[i] == '*',
        name.len() == 0 || name[0] != '*',
    ensures
        without_stars(stars + name) == name,
    decreases stars.len(),
{
    if stars.len() == 0 {
        assert(stars + name =~= name);
    } else {
        assert((stars + name)[0] == stars[0]);
        assert((stars + name).drop_first() =~= stars.drop_first() + name);
        law_asterisks_are_taken_from_the_front(stars.drop_first(), name);
    }
}

/// Law: an entry is taken exactly where it is a file whose name is that of the executable, and passed
/// over where it is anything else; an archive that cannot be opened, an entry that cannot be read,
/// and the end of the archive are named.
pub proof fn law_entries_by_their_names(
    found: Result<Option<Result<EntryView, Seq<char>>>, Seq<char>>,
    windows: bool,
)
    ensures
        ({
            let wanted = encode_utf8(
                if windows {
                    "aingle.exe"@
                } else {
                    "aingle"@
                },
            );
            match found {
                Err(cause) => entry_next(found, windows) == EntryNext::Fail(
                    if windows {
                        UpdateFault::OpenZip(cause)
                    } else {
                        UpdateFault::OpenArchive(cause)
                    },
                ),
                Ok(None) => entry_next(found, windows) == EntryNext::Fail(
                    UpdateFault::NoBinary(
                        if windows {
                            "aingle.exe"@
                        } else {
                            "aingle"@
                        },
                    ),
                ),
                Ok(Some(Err(cause))) => entry_next(found, windows) == EntryNext::Fail(
                    if windows {
                        UpdateFault::ReadZipEntry(cause)
                    } else {
                        UpdateFault::ReadEntry(cause)
                    },
                ),
                Ok(Some(Ok(entry))) => {
                    &&& entry_next(found, windows) is Extract <==> entry.is_file && file_name(
                        entry.path,
                        windows,
                    ) == Some(wanted)
                    &&& entry_next(found, windows) is Extract || entry_next(found, windows) is Skip
                },
            }
        }),
{
}

/// Law: what is taken out of an archive are the contents of the entry that was selected in it, a ZIP
/// archive on Windows and a compressed tape anywhere else, walked as far as it can be.
pub proof fn law_contents_of_the_selected_entry(archive: Seq<u8>)
    ensures
        ({
            let picked = selection(zip_listing(archive), true, 0);
            match picked {
                Err(fault) => extraction(archive, true) == Err::<Seq<u8>, _>(fault),
                Ok(index) => match zip_contents(archive, index) {
                    Ok(data) => extraction(archive, true) == Ok::<_, UpdateFault>(data),
                    Err(cause) => extraction(archive, true) == Err::<Seq<u8>, _>(
                        UpdateFault::Extract(cause),
                    ),
                },
            }
        }),
        ({
            let picked = selection(
                tar_listing(archive, walk_limit(gunzipped(archive)) as u64),
                false,
                0,
            );
            match picked {
                Err(fault) => extraction(archive, false) == Err::<Seq<u8>, _>(fault),
                Ok(index) => match tar_contents(archive, index) {
                    Ok(data) => extraction(archive, false) == Ok::<_, UpdateFault>(data),
                    Err(cause) => extraction(archive, false) == Err::<Seq<u8>, _>(
                        UpdateFault::Extract(cause),
                    ),
                },
            }
        }),
{
}

/// Law: where no entry is selected, the fault is that of the first place at which the walk stops, all
/// entries before which are passed over.
pub proof fn law_walks_stop_at_the_first_fault(
    listing: Result<Seq<Result<EntryView, Seq<char>>>, Seq<char>>,
    windows: bool,
    from: int,
) -> (stop: int)
    requires
        0 <= from,
        selection(listing, windows, from) is Err,
    ensures
        from <= stop,
        entry_next(entry_at(listing, stop), windows) == EntryNext::Fail(
            selection(listing, windows, from)->Err_0,
        ),
        forall|i: int|
            from <= i < stop ==> entry_next(#[trigger] entry_at(listing, i), windows) is Skip,
    decreases listing->Ok_0.len() - from,
{
    if entry_next(entry_at(listing, from), windows) is Skip {
        law_walks_stop_at_the_first_fault(listing, windows, from + 1)
    } else {
        from
    }
}

/// Law: what was found in an archive, and what stands in its listing, is shown as it is.
pub proof fn law_entries_are_shown_as_they_are(
    found: Result<Option<Result<ArchiveEntry, String>>, String>,
    listing: Result<Seq<Result<EntryView, Seq<char>>>, Seq<char>>,
    index: int,
)
    ensures
        match found {
            Ok(Some(Ok(entry))) => found_view(found) == Ok::<_, Seq<char>>(
                Some(
                    Ok::<_, Seq<char>>(EntryView { is_file: entry.is_file, path: entry.path@ }),
                ),
            ),
            Ok(Some(Err(cause))) => found_view(found) == Ok::<_, Seq<char>>(
                Some(Err::<EntryView, _>(cause@)),
            ),
            Ok(None) => found_view(found) == Ok::<_, Seq<char>>(
                None::<Result<EntryView, Seq<char>>>,
            ),
            Err(cause) => found_view(found) == Err::<Option<Result<EntryView, Seq<char>>>, _>(
                cause@,
            ),
        },
        match listing {
            Ok(entries) => if 0 <= index < entries.len() {
                entry_at(listing, index) == Ok::<_, Seq<char>>(Some(entries[index]))
            } else {
                entry_at(listing, index) == Ok::<_, Seq<char>>(
                    None::<Result<EntryView, Seq<char>>>,
                )
            },
            Err(cause) => entry_at(listing, index) == Err::<
                Option<Result<EntryView, Seq<char>>>,
                _,
            >(cause),
        },
{
}

/// Law: an error says what it is about, in words and in its parts.
pub proof fn law_update_errors_in_words(error: UpdateError)
    ensures
        match error {
            UpdateError::CurrentVersion(cause) => update_error_text(error) == cause@ && error@
                == UpdateFault::CurrentVersion(cause@),
            UpdateError::ReleaseVersion(tag, cause) => update_error_text(error)
                == "invalid release version "@ + tag@ + ": "@ + cause@ && error@
                == UpdateFault::ReleaseVersion(tag@, cause@),
            UpdateError::Platform(os, arch) => update_error_text(error)
                == "this platform has no official Aingle CLI update target: "@ + os@ + "/"@ + arch@
                && error@ == UpdateFault::Platform(os@, arch@),
            UpdateError::MissingAsset(name) => update_error_text(error)
                == "official release asset is unavailable: "@ + name@ && error@
                == UpdateFault::MissingAsset(name@),
            UpdateError::TooLarge(limit) => update_error_text(error) == "update download exceeds "@
                + decimal_text(limit as nat) + " bytes"@ && error@ == UpdateFault::TooLarge(limit),
            UpdateError::Checksum(fault, name) => update_error_text(error) == (match fault {
                ChecksumFault::NotUtf8 => "checksum is not UTF-8"@,
                ChecksumFault::Empty => "checksum is empty"@,
                ChecksumFault::NameMissing => "checksum filename is missing"@,
                ChecksumFault::OtherFile => "checksum does not describe "@ + name@,
                ChecksumFault::NotADigest => "checksum is not a SHA-256 digest"@,
                ChecksumFault::Mismatch => "Aingle CLI checksum mismatch"@,
            }) && error@ == UpdateFault::Checksum(fault, name@),
            UpdateError::OpenArchive(cause) => update_error_text(error) == "read update archive: "@
                + cause@ && error@ == UpdateFault::OpenArchive(cause@),
            UpdateError::ReadEntry(cause) => update_error_text(error)
                == "read update archive entry: "@ + cause@ && error@ == UpdateFault::ReadEntry(
                cause@,
            ),
            UpdateError::OpenZip(cause) => update_error_text(error) == "open update ZIP: "@ + cause@
                && error@ == UpdateFault::OpenZip(cause@),
            UpdateError::ReadZipEntry(cause) => update_error_text(error)
                == "read update ZIP entry: "@ + cause@ && error@ == UpdateFault::ReadZipEntry(
                cause@,
            ),
            UpdateError::Extract(cause) => update_error_text(error)
                == "extract staged executable: "@ + cause@ && error@ == UpdateFault::Extract(
                cause@,
            ),
            UpdateError::NoBinary(name) => update_error_text(error)
                == "release archive does not contain "@ + name@ && error@ == UpdateFault::NoBinary(
                name@,
            ),
            UpdateError::StagedFailure => update_error_text(error)
                == "staged Aingle CLI failed its version check"@ && error@
                == UpdateFault::StagedFailure,
            UpdateError::StagedOutput => update_error_text(error)
                == "invalid staged version output"@ && error@ == UpdateFault::StagedOutput,
            UpdateError::StagedVersion => update_error_text(error)
                == "staged Aingle CLI reported an unexpected version"@ && error@
                == UpdateFault::StagedVersion,
        },
{
}

/// Law: a machine is told its target, or that none is built for it, with its own names.
pub proof fn law_targets_are_told_or_refused(
    outcome: Result<&'static str, UpdateError>,
    os: Seq<char>,
    arch: Seq<char>,
    environment: Seq<char>,
)
    requires
        is_target(outcome, os, arch, environment),
    ensures
        outcome is Ok <==> target_text(os, arch, environment) is Some,
        outcome matches Ok(target) ==> target@ == target_text(os, arch, environment)->0,
        outcome matches Err(error) ==> (error matches UpdateError::Platform(named, processor)
            && named@ == os && processor@ == arch),
{
}

} // verus!
