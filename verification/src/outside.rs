//! What the library takes from other crates and from std without proof.
//!
//! Every function here makes one outside call; its contract says what is claimed of that call.

use vstd::prelude::*;
use vstd::string::*;
use vstd::utf8::*;

use crate::encoding::{base32_text, base64_text};
use crate::ids::uuid_text;
use crate::tape::is_walkable;
use crate::text::{hex_text, option_view, result_view};
use crate::update::{entry_at, found_view, ArchiveEntry, EntryView};

verus! {

/// `core::str::from_utf8`: accepts exactly the byte sequences that are valid UTF-8, and hands out
/// the text that they encode.
#[verifier::external_body]
pub(crate) fn str_from_utf8(bytes: &[u8]) -> (text: Option<&str>)
    ensures
        text is Some <==> valid_utf8(bytes@),
        text matches Some(s) ==> s.spec_bytes() == bytes@,
{
    core::str::from_utf8(bytes).ok()
}

/// The text that `String::from_utf8_lossy` makes of a byte sequence.
pub uninterp spec fn lossy_text(bytes: Seq<u8>) -> Seq<char>;

/// `String::from_utf8_lossy`: valid UTF-8 is decoded as it stands. How invalid sequences are
/// replaced is left to the name.
#[verifier::external_body]
pub(crate) fn utf8_lossy(bytes: &[u8]) -> (text: String)
    ensures
        text@ == lossy_text(bytes@),
        valid_utf8(bytes@) ==> text@ == decode_utf8(bytes@),
{
    String::from_utf8_lossy(bytes).into_owned()
}

/// `uuid::Uuid`, displayed: the hyphenated notation in small hexadecimal digits.
#[verifier::external_body]
pub(crate) fn uuid_hyphenated(bytes: &[u8; 16]) -> (text: String)
    ensures
        text@ == uuid_text(bytes@),
{
    uuid::Uuid::from_bytes(*bytes).to_string()
}

/// `uuid::Uuid::simple`, displayed: thirty-two small hexadecimal digits.
#[verifier::external_body]
pub(crate) fn uuid_simple(bytes: &[u8; 16]) -> (text: String)
    ensures
        text@ == hex_text(bytes@),
{
    uuid::Uuid::from_bytes(*bytes).simple().to_string()
}

/// The bytes that `uuid::Uuid::parse_str` reads out of a text, if it accepts the text.
pub uninterp spec fn parsed_uuid(text: Seq<char>) -> Option<Seq<u8>>;

/// `uuid::Uuid::parse_str`: reads several notations; the hyphenated one is read back.
#[verifier::external_body]
pub(crate) fn uuid_parse(text: &str) -> (bytes: Option<[u8; 16]>)
    ensures
        option_view(bytes) == parsed_uuid(text@),
        forall|b: Seq<u8>|
            b.len() == 16 && text@ == #[trigger] uuid_text(b) ==> option_view(bytes) == Some(b),
{
    uuid::Uuid::parse_str(text).ok().map(|id| *id.as_bytes())
}

/// `base64::engine::general_purpose::STANDARD`, encoding: the standard alphabet with padding. The
/// text may not be longer than an allocation can be.
#[verifier::external_body]
pub(crate) fn base64_encode(bytes: &[u8]) -> (text: String)
    requires
        bytes@.len() <= usize::MAX / 4,
    ensures
        text@ == base64_text(bytes@),
{
    base64::Engine::encode(&base64::engine::general_purpose::STANDARD, bytes)
}

/// The bytes that `base64::engine::general_purpose::STANDARD` reads out of a text, or its error
/// displayed.
pub uninterp spec fn base64_decoded(text: Seq<char>) -> Result<Seq<u8>, Seq<char>>;

/// `base64::engine::general_purpose::STANDARD`, decoding: what was encoded is read back. What else
/// is accepted, and the words of a refusal, are left to the name.
#[verifier::external_body]
pub(crate) fn base64_decode(text: &str) -> (bytes: Result<Vec<u8>, String>)
    ensures
        result_view(bytes) == base64_decoded(text@),
        forall|b: Seq<u8>|
            text@ == #[trigger] base64_text(b) ==> result_view(bytes)->Ok_0 == b && bytes is Ok,
{
    base64::Engine::decode(&base64::engine::general_purpose::STANDARD, text).map_err(
        |error| error.to_string(),
    )
}

/// `data_encoding::BASE32_NOPAD`, encoding: the standard alphabet without padding. The crate
/// refuses longer inputs by a panic.
#[verifier::external_body]
pub(crate) fn base32_encode(bytes: &[u8]) -> (text: String)
    requires
        bytes@.len() <= usize::MAX / 512,
    ensures
        text@ == base32_text(bytes@),
{
    data_encoding::BASE32_NOPAD.encode(bytes)
}

/// The digest of a byte sequence by `blake3::hash`.
pub uninterp spec fn blake3_digest(bytes: Seq<u8>) -> Seq<u8>;

/// `blake3::hash`: a digest of thirty-two bytes that depends on the input alone.
#[verifier::external_body]
pub(crate) fn blake3_hash(bytes: &[u8]) -> (digest: [u8; 32])
    ensures
        digest@ == blake3_digest(bytes@),
{
    *blake3::hash(bytes).as_bytes()
}

/// The digest of a byte sequence by `sha2::Sha256`.
pub uninterp spec fn sha256_digest(bytes: Seq<u8>) -> Seq<u8>;

/// `sha2::Sha256::digest`: a digest of thirty-two bytes that depends on the input alone.
#[verifier::external_body]
pub(crate) fn sha256_hash(bytes: &[u8]) -> (digest: [u8; 32])
    ensures
        digest@ == sha256_digest(bytes@),
{
    <sha2::Sha256 as sha2::Digest>::digest(bytes).into()
}

/// The Ed25519 public key of a secret key, by `ed25519_dalek`.
pub uninterp spec fn ed25519_public(secret: Seq<u8>) -> Seq<u8>;

/// `ed25519_dalek::SigningKey::verifying_key`, for the key that has the given secret: thirty-two
/// bytes that depend on the secret alone.
#[verifier::external_body]
pub(crate) fn ed25519_public_key(secret: &[u8; 32]) -> (key: [u8; 32])
    ensures
        key@ == ed25519_public(secret@),
{
    ed25519_dalek::SigningKey::from_bytes(secret).verifying_key().to_bytes()
}

/// The Ed25519 signature of a message, by `ed25519_dalek`.
pub uninterp spec fn ed25519_signature(secret: Seq<u8>, message: Seq<u8>) -> Seq<u8>;

/// `ed25519_dalek::Signer::sign`, with the key that has the given secret: sixty-four bytes that
/// depend on secret and message alone, since the scheme draws no random numbers.
#[verifier::external_body]
pub(crate) fn ed25519_sign(secret: &[u8; 32], message: &[u8]) -> (signature: [u8; 64])
    ensures
        signature@ == ed25519_signature(secret@, message@),
{
    ed25519_dalek::Signer::sign(&ed25519_dalek::SigningKey::from_bytes(secret), message).to_bytes()
}

/// `rand::rngs::OsRng`, asked for thirty-two bytes: `None` where the operating system gives none.
/// Nothing is claimed of the bytes.
#[verifier::external_body]
pub(crate) fn os_random() -> (bytes: Option<[u8; 32]>) {
    let mut bytes = [0u8; 32];
    match rand::RngCore::try_fill_bytes(&mut rand::rngs::OsRng, &mut bytes) {
        Ok(()) => Some(bytes),
        Err(_) => None,
    }
}

/// The text of the URL that a path leads to from a base, by `url::Url`, or the error displayed.
pub uninterp spec fn joined_url(base: Seq<char>, path: Seq<char>) -> Result<Seq<char>, Seq<char>>;

/// `url::Url::join`, on the base that a text denotes: an error where the text denotes no URL, or
/// where the path leads nowhere from there.
#[verifier::external_body]
pub(crate) fn url_join(base: &str, path: &str) -> (url: Result<String, String>)
    ensures
        result_view(url) == joined_url(base@, path@),
{
    let base = url::Url::parse(base).map_err(|error| error.to_string())?;
    base.join(path).map(String::from).map_err(|error| error.to_string())
}

/// The host of the URL that a text denotes, by `url::Url`; none where the URL has none, or the text
/// denotes no URL.
pub uninterp spec fn host_of_url(text: Seq<char>) -> Option<Seq<char>>;

/// `url::Url::host_str`, on the URL that a text denotes. The format is left to the name.
#[verifier::external_body]
pub(crate) fn url_host(text: &str) -> (host: Option<String>)
    ensures
        option_view(host) == host_of_url(text@),
{
    url::Url::parse(text).ok()?.host_str().map(String::from)
}

/// The port of the URL that a text denotes, or that of its scheme, by `url::Url`; none where neither
/// is known, or the text denotes no URL.
pub uninterp spec fn port_of_url(text: Seq<char>) -> Option<u16>;

/// `url::Url::port_or_known_default`, on the URL that a text denotes. The format is left to the
/// name.
#[verifier::external_body]
pub(crate) fn url_port(text: &str) -> (port: Option<u16>)
    ensures
        port == port_of_url(text@),
{
    url::Url::parse(text).ok()?.port_or_known_default()
}

/// A JSON value, by `serde_json`.
#[verifier::external_type_specification]
#[verifier::external_body]
pub struct ExJsonValue(serde_json::Value);

/// The members of a JSON object, each with its value in compact JSON notation; those of any other
/// value, none.
pub uninterp spec fn json_members(value: serde_json::Value) -> Map<Seq<char>, Seq<char>>;

/// Whether a JSON value can be given members: an object can, and null, which counts as an empty
/// object.
pub uninterp spec fn json_takes_members(value: serde_json::Value) -> bool;

/// The compact JSON notation of a text, by `serde_json`.
pub uninterp spec fn json_string(text: Seq<char>) -> Seq<char>;

/// The variants of `serde_json::Value` that can be given members.
#[verifier::external_body]
pub(crate) fn json_is_record(value: &serde_json::Value) -> (record: bool)
    ensures
        record == json_takes_members(*value),
{
    match value {
        serde_json::Value::Object(_) => true,
        serde_json::Value::Null => true,
        _ => false,
    }
}

/// `IndexMut` of `serde_json::Value` with a name, assigned a truth value: sets that member, and no
/// other. It panics on a value that cannot have members.
#[verifier::external_body]
pub(crate) fn json_set_flag(value: &mut serde_json::Value, name: &str, flag: bool)
    requires
        json_takes_members(*old(value)),
    ensures
        json_takes_members(*final(value)),
        json_members(*final(value)) == json_members(*old(value)).insert(
            name@,
            if flag {
                "true"@
            } else {
                "false"@
            },
        ),
{
    value[name] = serde_json::Value::from(flag);
}

/// `IndexMut` of `serde_json::Value` with a name, assigned a text: sets that member, and no other.
/// It panics on a value that cannot have members.
#[verifier::external_body]
pub(crate) fn json_set_text(value: &mut serde_json::Value, name: &str, text: String)
    requires
        json_takes_members(*old(value)),
    ensures
        json_takes_members(*final(value)),
        json_members(*final(value)) == json_members(*old(value)).insert(name@, json_string(text@)),
{
    value[name] = serde_json::Value::from(text);
}

/// `http::HeaderValue::from_str`, as the WebSocket client exports it: takes every text but those
/// with a control character other than the tab.
#[verifier::external_body]
pub(crate) fn header_accepts(text: &str) -> (accepted: bool)
    ensures
        accepted == is_header_text(text.spec_bytes()),
{
    tokio_tungstenite::tungstenite::http::HeaderValue::from_str(text).is_ok()
}

/// Whether bytes can be the value of an HTTP header.
pub open spec fn is_header_text(bytes: Seq<u8>) -> bool {
    forall|i: int|
        0 <= i < bytes.len() ==> (#[trigger] bytes[i] >= 32 && bytes[i] != 127) || bytes[i] == 9
}

/// The version that `semver::Version::parse` reads out of a text, displayed, or its error
/// displayed.
pub uninterp spec fn parsed_version(text: Seq<char>) -> Result<Seq<char>, Seq<char>>;

/// `semver::Version::parse`: what is accepted is displayed as it was written. Which texts are
/// accepted, and the words of a refusal, are left to the name.
#[verifier::external_body]
pub(crate) fn semver_parse(text: &str) -> (version: Result<String, String>)
    ensures
        result_view(version) == parsed_version(text@),
        version matches Ok(displayed) ==> displayed@ == text@,
{
    semver::Version::parse(text).map(|version| version.to_string()).map_err(
        |error| error.to_string(),
    )
}

/// Whether one version is greater than another, in the order of `semver::Version`.
pub uninterp spec fn version_exceeds(left: Seq<char>, right: Seq<char>) -> bool;

/// The order of `semver::Version`, on versions that it can read: a version does not exceed itself,
/// nor one that exceeds it.
#[verifier::external_body]
pub(crate) fn semver_exceeds(left: &str, right: &str) -> (exceeds: bool)
    requires
        parsed_version(left@) is Ok,
        parsed_version(right@) is Ok,
    ensures
        exceeds == version_exceeds(left@, right@),
        left@ == right@ ==> !exceeds,
        exceeds ==> !version_exceeds(right@, left@),
{
    semver::Version::parse(left).unwrap() > semver::Version::parse(right).unwrap()
}

/// What a compressed file holds, as far as it can be decompressed, by `flate2`.
pub uninterp spec fn gunzipped(archive: Seq<u8>) -> Seq<u8>;

/// `flate2::read::GzDecoder`, read byte by byte up to the end or the first error. A read that fails
/// hands out nothing, so reads of more bytes at a time hand out these bytes or fewer of them, from
/// the first on. The format is left to the name.
#[verifier::external_body]
pub(crate) fn gunzip(archive: &[u8]) -> (tape: Vec<u8>)
    ensures
        tape@ == gunzipped(archive@),
{
    std::io::Read::bytes(flate2::read::GzDecoder::new(archive)).map_while(Result::ok).collect()
}

/// The entries of a compressed tape archive that ends after so many decompressed bytes, by `flate2`
/// and `tar`, up to the first that cannot be read, each error displayed.
pub uninterp spec fn tar_listing(archive: Seq<u8>, limit: u64) -> Result<
    Seq<Result<EntryView, Seq<char>>>,
    Seq<char>,
>;

/// `tar::Archive::entries` over `flate2::read::GzDecoder`, cut off after so many decompressed
/// bytes, as far as the entry at an index; no contents are read. Every entry but one that cannot be
/// read takes up a block of 512 bytes or more. The formats are left to the name.
///
/// Where an extended sparse header declares a size near 2^64, `tar` adds to its position without a
/// check. It does so only after it has read an extension block behind that header, so bytes that
/// hold none there are walked without harm. A size below 2^63 does no harm either: all that was
/// read before is held in memory, which is less than 2^63 bytes.
#[verifier::external_body]
pub(crate) fn tar_entry(archive: &[u8], limit: u64, index: usize) -> (found: Result<
    Option<Result<ArchiveEntry, String>>,
    String,
>)
    requires
        is_walkable(gunzipped(archive@), limit as int),
    ensures
        found_view(found) == entry_at(tar_listing(archive@, limit), index as int),
        found matches Ok(Some(_)) ==> index * 512 <= gunzipped(archive@).len(),
{
    let decoder = flate2::read::GzDecoder::new(archive);
    let mut tar = tar::Archive::new(std::io::Read::take(decoder, limit));
    let mut entries = tar.entries().map_err(|error| error.to_string())?;
    Ok(entries.nth(index).map(|entry| entry.map_err(|error| error.to_string()).map(|entry| {
        let path = entry.path_bytes().into_owned();
        ArchiveEntry { is_file: entry.header().entry_type().is_file(), path }
    })))
}

/// The contents of the file at an index of a compressed tape archive, by `flate2` and `tar`, or the
/// error displayed.
pub uninterp spec fn tar_contents(archive: Seq<u8>, index: int) -> Result<Seq<u8>, Seq<char>>;

/// Whether a file stands at an index of a compressed tape archive, within a number of decompressed
/// bytes that can be walked.
pub open spec fn is_tar_file(archive: Seq<u8>, limit: u64, index: int) -> bool {
    &&& is_walkable(gunzipped(archive), limit as int)
    &&& entry_at(tar_listing(archive, limit), index) matches Ok(Some(Ok(entry))) && entry.is_file
}

/// `tar::Entry`, read to its end, for the file at an index. The walk that leads there reads nothing
/// behind the file's header. The formats are left to the name.
#[verifier::external_body]
pub(crate) fn tar_read(archive: &[u8], index: usize) -> (data: Result<Vec<u8>, String>)
    requires
        exists|limit: u64| #[trigger] is_tar_file(archive@, limit, index as int),
    ensures
        result_view(data) == tar_contents(archive@, index as int),
{
    let mut tar = tar::Archive::new(flate2::read::GzDecoder::new(archive));
    let mut entries = tar.entries().map_err(|error| error.to_string())?;
    let mut entry = entries.nth(index).unwrap().map_err(|error| error.to_string())?;
    let mut data = Vec::new();
    std::io::Read::read_to_end(&mut entry, &mut data).map_err(|error| error.to_string())?;
    Ok(data)
}

/// The entries of a ZIP archive, by `zip`, each error displayed.
pub uninterp spec fn zip_listing(archive: Seq<u8>) -> Result<
    Seq<Result<EntryView, Seq<char>>>,
    Seq<char>,
>;

/// `zip::ZipArchive::by_index`, for an index that the archive has; no contents are read. The number
/// of entries is a `usize`. The format is left to the name.
#[verifier::external_body]
pub(crate) fn zip_entry(archive: &[u8], index: usize) -> (found: Result<
    Option<Result<ArchiveEntry, String>>,
    String,
>)
    ensures
        found_view(found) == entry_at(zip_listing(archive@), index as int),
        found matches Ok(Some(_)) ==> index < usize::MAX,
{
    let mut zip = zip::ZipArchive::new(std::io::Cursor::new(archive)).map_err(|e| e.to_string())?;
    Ok((0..zip.len()).nth(index).map(|index| {
        zip.by_index(index).map_err(|error| error.to_string()).map(|entry| {
            ArchiveEntry { is_file: entry.is_file(), path: entry.name().as_bytes().to_vec() }
        })
    }))
}

/// The contents of the entry at an index of a ZIP archive, by `zip`, or the error displayed.
pub uninterp spec fn zip_contents(archive: Seq<u8>, index: int) -> Result<Seq<u8>, Seq<char>>;

/// `zip::read::ZipFile`, read to its end, for the entry at an index. The format is left to the name.
#[verifier::external_body]
pub(crate) fn zip_read(archive: &[u8], index: usize) -> (data: Result<Vec<u8>, String>)
    requires
        entry_at(zip_listing(archive@), index as int) matches Ok(Some(Ok(_))),
    ensures
        result_view(data) == zip_contents(archive@, index as int),
{
    let mut zip = zip::ZipArchive::new(std::io::Cursor::new(archive)).map_err(|e| e.to_string())?;
    let mut entry = zip.by_index(index).map_err(|error| error.to_string())?;
    let mut data = Vec::new();
    std::io::Read::read_to_end(&mut entry, &mut data).map_err(|error| error.to_string())?;
    Ok(data)
}

} // verus!
