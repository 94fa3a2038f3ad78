//! Download of the Ollama runtime and of the models.
//!
//! The transfers are the caller's part. Where to download from, how a
//! checksum file is read, how the downloaded bytes are checked against it and
//! what is reported on the way is decided here.

use vstd::prelude::*;
use vstd::string::StringExecFns;
use vstd::slice::slice_subrange;
use sha2::Digest;
use crate::platform::{arch_of, platform_of, Arch, Platform};
use crate::text::{
    chars_of, contains_seq, line_end, line_end_in, lowercase, skip_whitespace, skip_whitespace_in,
    skip_word, skip_word_in, str_contains, str_equal, string_from_chars, to_lowercase,
};

verus! {

/// The environment variable that makes a checksum mandatory.
pub const CHECKSUM_VARIABLE: &'static str = "OLLAMA_REQUIRE_CHECKSUM";

/// The name under which the Ollama runtime is reported.
pub const OLLAMA_RUNTIME_NAME: &'static str = "Ollama Runtime";

/// The model pulled through Ollama.
pub const OLLAMA_MODEL_NAME: &'static str = "llama3.1:8b";

/// The approximate size of the Ollama model in bytes.
pub const OLLAMA_MODEL_BYTES: u64 = 4_700_000_000;

/// The name under which the Whisper model is reported.
pub const WHISPER_MODEL_NAME: &'static str = "whisper-base";

/// The approximate size of the Whisper model in bytes.
pub const WHISPER_MODEL_BYTES: u64 = 150_000_000;

/// Everything a download can fail with before or after the transfer.
#[derive(Clone, Copy, Debug, PartialEq, Eq, Structural)]
pub enum DownloadError {
    /// There is no Ollama build for this processor architecture.
    UnsupportedArchitecture,
    /// There is no Ollama build for this operating system.
    UnsupportedPlatform,
    /// The per-user data directory could not be resolved.
    DataDirUnavailable,
    /// The checksum file holds no checksum.
    ChecksumUnreadable,
    /// No checksum is published, and one is required.
    ChecksumMissing,
    /// The downloaded bytes do not have the published checksum.
    ChecksumMismatch,
}

/// Whether the value of the checksum variable makes a checksum mandatory:
/// it does where its lower-case form is `true`, `1` or `yes`.
pub open spec fn checksum_required_spec(value: Seq<char>) -> bool {
    let lower = lowercase(value);
    lower == "true"@ || lower == "1"@ || lower == "yes"@
}

/// Whether the value of the checksum variable, empty where the variable is
/// not set, makes a checksum mandatory.
pub fn checksum_required(value: &str) -> (required: bool)
    ensures
        required == checksum_required_spec(value@),
{
    let lower = to_lowercase(value);
    str_equal(lower.as_str(), "true") || str_equal(lower.as_str(), "1") || str_equal(
        lower.as_str(),
        "yes",
    )
}

/// Whether `c` is an ASCII hexadecimal digit.
pub open spec fn is_hex_digit(c: char) -> bool {
    ('0' <= c && c <= '9') || ('a' <= c && c <= 'f') || ('A' <= c && c <= 'F')
}

/// The lower-case form of an ASCII hexadecimal digit.
pub open spec fn lower_hex(c: char) -> char {
    if c == 'A' {
        'a'
    } else if c == 'B' {
        'b'
    } else if c == 'C' {
        'c'
    } else if c == 'D' {
        'd'
    } else if c == 'E' {
        'e'
    } else if c == 'F' {
        'f'
    } else {
        c
    }
}

/// Whether a word is a SHA-256 checksum: 64 hexadecimal digits.
pub open spec fn is_checksum_token(token: Seq<char>) -> bool {
    token.len() == 64 && forall|i: int| 0 <= i < token.len() ==> is_hex_digit(#[trigger] token[i])
}

/// The checksum in the lines of `s` from index `from` on.
///
/// The lines are read in order, and of each line only its first word counts.
/// The first line whose first word is a checksum gives the result, in lower
/// case. A line without any word ends the search without a result.
pub open spec fn checksum_from(s: Seq<char>, from: int) -> Option<Seq<char>>
    decreases s.len() - from + 1,
{
    if from < 0 || from >= s.len() {
        None
    } else {
        let end = line_end(s, from);
        if end < from || end > s.len() {
            None
        } else {
            let line = s.subrange(from, end);
            let start = skip_whitespace(line, 0);
            if start >= line.len() {
                None
            } else {
                let token = line.subrange(start, skip_word(line, start));
                if is_checksum_token(token) {
                    Some(Seq::new(token.len(), |i: int| lower_hex(token[i])))
                } else {
                    checksum_from(s, end + 1)
                }
            }
        }
    }
}

fn char_is_hex(c: char) -> (hex: bool)
    ensures
        hex == is_hex_digit(c),
{
    (c >= '0' && c <= '9') || (c >= 'a' && c <= 'f') || (c >= 'A' && c <= 'F')
}

fn char_lower_hex(c: char) -> (lower: char)
    ensures
        lower == lower_hex(c),
{
    if c == 'A' {
        'a'
    } else if c == 'B' {
        'b'
    } else if c == 'C' {
        'c'
    } else if c == 'D' {
        'd'
    } else if c == 'E' {
        'e'
    } else if c == 'F' {
        'f'
    } else {
        c
    }
}

fn token_is_checksum(token: &[char]) -> (ok: bool)
    ensures
        ok == is_checksum_token(token@),
{
    if token.len() != 64 {
        return false;
    }
    let mut i: usize = 0;
    while i < token.len()
        invariant
            i <= token.len(),
            forall|j: int| 0 <= j < i ==> is_hex_digit(#[trigger] token@[j]),
        decreases token.len() - i,
    {
        if !char_is_hex(token[i]) {
            return false;
        }
        i = i + 1;
    }
    true
}

/// Reads the checksum out of the text of a checksum file.
pub fn parse_checksum_text(text: &str) -> (checksum: Option<String>)
    ensures
        match checksum_from(text@, 0) {
            Some(digits) => checksum is Some && checksum.unwrap()@ == digits,
            None => checksum is None,
        },
{
    let chars = chars_of(text);
    let mut from: usize = 0;
    while from < chars.len()
        invariant
            from <= chars.len(),
            chars@ == text@,
            checksum_from(chars@, 0) == checksum_from(chars@, from as int),
        decreases chars.len() - from,
    {
        let end = line_end_in(chars.as_slice(), from);
        let line = slice_subrange(chars.as_slice(), from, end);
        let start = skip_whitespace_in(line, 0);
        if start >= line.len() {
            return None;
        }
        let stop = skip_word_in(line, start);
        let token = slice_subrange(line, start, stop);
        if token_is_checksum(token) {
            let mut lower: Vec<char> = Vec::new();
            let mut i: usize = 0;
            while i < token.len()
                invariant
                    i <= token.len(),
                    lower.len() == i,
                    forall|j: int| 0 <= j < i ==> lower@[j] == lower_hex(token@[j]),
                decreases token.len() - i,
            {
                lower.push(char_lower_hex(token[i]));
                i = i + 1;
            }
            assert(lower@ =~= Seq::new(token@.len(), |i: int| lower_hex(token@[i])));
            return Some(string_from_chars(lower.as_slice()));
        }
        if end == chars.len() {
            assert(checksum_from(chars@, end + 1) is None);
            return None;
        }
        from = end + 1;
    }
    None
}

/// The character of a hexadecimal digit, in lower case.
pub open spec fn hex_char(nibble: int) -> char
    recommends
        0 <= nibble < 16,
{
    if nibble == 0 {
        '0'
    } else if nibble == 1 {
        '1'
    } else if nibble == 2 {
        '2'
    } else if nibble == 3 {
        '3'
    } else if nibble == 4 {
        '4'
    } else if nibble == 5 {
        '5'
    } else if nibble == 6 {
        '6'
    } else if nibble == 7 {
        '7'
    } else if nibble == 8 {
        '8'
    } else if nibble == 9 {
        '9'
    } else if nibble == 10 {
        'a'
    } else if nibble == 11 {
        'b'
    } else if nibble == 12 {
        'c'
    } else if nibble == 13 {
        'd'
    } else if nibble == 14 {
        'e'
    } else {
        'f'
    }
}

/// The bytes in hexadecimal: two lower-case digits a byte, high digit first.
pub open spec fn hex_spec(bytes: Seq<u8>) -> Seq<char> {
    Seq::new(
        2 * bytes.len(),
        |i: int|
            if i % 2 == 0 {
                hex_char(bytes[i / 2] as int / 16)
            } else {
                hex_char(bytes[i / 2] as int % 16)
            },
    )
}

fn nibble_char(nibble: u8) -> (c: char)
    requires
        nibble < 16,
    ensures
        c == hex_char(nibble as int),
{
    if nibble == 0 {
        '0'
    } else if nibble == 1 {
        '1'
    } else if nibble == 2 {
        '2'
    } else if nibble == 3 {
        '3'
    } else if nibble == 4 {
        '4'
    } else if nibble == 5 {
        '5'
    } else if nibble == 6 {
        '6'
    } else if nibble == 7 {
        '7'
    } else if nibble == 8 {
        '8'
    } else if nibble == 9 {
        '9'
    } else if nibble == 10 {
        'a'
    } else if nibble == 11 {
        'b'
    } else if nibble == 12 {
        'c'
    } else if nibble == 13 {
        'd'
    } else if nibble == 14 {
        'e'
    } else {
        'f'
    }
}

/// Writes bytes in hexadecimal.
pub fn hex_encode(bytes: &[u8]) -> (out: String)
    ensures
        out@ == hex_spec(bytes@),
        out@.len() == 2 * bytes@.len(),
{
    let mut digits: Vec<char> = Vec::new();
    let mut i: usize = 0;
    while i < bytes.len()
        invariant
            i <= bytes.len(),
            digits.len() == 2 * i,
            forall|j: int| 0 <= j < 2 * i ==> digits@[j] == hex_spec(bytes@)[j],
        decreases bytes.len() - i,
    {
        let b = bytes[i];
        digits.push(nibble_char(b / 16));
        digits.push(nibble_char(b % 16));
        i = i + 1;
    }
    assert(digits@ =~= hex_spec(bytes@));
    string_from_chars(digits.as_slice())
}

/// The SHA-256 digest of a byte string.
pub uninterp spec fn sha256(data: Seq<u8>) -> Seq<u8>;

/// The bytes fed to a hasher so far.
pub uninterp spec fn hashed(hasher: DownloadHasher) -> Seq<u8>;

/// A running SHA-256 computation over the chunks of a download.
#[verifier::external_body]
pub struct DownloadHasher {
    inner: sha2::Sha256,
}

/// `Sha256::new`: a hasher that has been fed nothing.
#[verifier::external_body]
fn sha256_new() -> (hasher: DownloadHasher)
    ensures
        hashed(hasher) == Seq::<u8>::empty(),
{
    DownloadHasher { inner: sha2::Sha256::new() }
}

/// `Digest::update`: feeds one more chunk.
#[verifier::external_body]
fn sha256_update(hasher: &mut DownloadHasher, chunk: &[u8])
    ensures
        hashed(*final(hasher)) == hashed(*old(hasher)) + chunk@,
{
    hasher.inner.update(chunk);
}

/// `Digest::finalize`: the 32 bytes of the SHA-256 digest of everything fed.
#[verifier::external_body]
fn sha256_finalize(hasher: DownloadHasher) -> (digest: Vec<u8>)
    ensures
        digest@ == sha256(hashed(hasher)),
        digest@.len() == 32,
{
    hasher.inner.finalize().to_vec()
}

impl DownloadHasher {
    /// A hasher at the start of a download.
    pub fn new() -> (hasher: Self)
        ensures
            hashed(hasher) == Seq::<u8>::empty(),
    {
        sha256_new()
    }

    /// Takes in the next chunk of the download.
    pub fn feed(&mut self, chunk: &[u8])
        ensures
            hashed(*final(self)) == hashed(*old(self)) + chunk@,
    {
        sha256_update(self, chunk)
    }

    /// Ends the computation: the digest of the download, in hexadecimal.
    pub fn hex_digest(self) -> (text: String)
        ensures
            text@ == hex_spec(sha256(hashed(self))),
            text@.len() == 64,
    {
        let digest = sha256_finalize(self);
        hex_encode(digest.as_slice())
    }

    /// Ends the computation and compares its digest, in hexadecimal, with the
    /// published checksum.
    pub fn matches(self, expected: &str) -> (equal: bool)
        ensures
            equal == (hex_spec(sha256(hashed(self))) == expected@),
    {
        let text = self.hex_digest();
        str_equal(text.as_str(), expected)
    }
}

/// The verdict on a finished download: with a published checksum the bytes
/// must have it; without one the download stands.
pub fn verify_download(hasher: DownloadHasher, checksum: Option<String>) -> (result: Result<
    (),
    DownloadError,
>)
    ensures
        result is Ok <==> (checksum is None || hex_spec(sha256(hashed(hasher)))
            == checksum.unwrap()@),
        result is Err ==> result == Err::<(), DownloadError>(DownloadError::ChecksumMismatch),
{
    match checksum {
        None => Ok(()),
        Some(expected) => {
            if hasher.matches(expected.as_str()) {
                Ok(())
            } else {
                Err(DownloadError::ChecksumMismatch)
            }
        },
    }
}

/// What to do with the answer to a checksum request.
#[derive(Clone, Copy, Debug, PartialEq, Eq, Structural)]
pub enum ChecksumStep {
    /// Read the checksum out of the body.
    Parse,
    /// No such file: try the next suffix.
    TryNext,
    /// Give up with this status.
    Fail(u16),
}

/// The step for a status: success statuses are parsed, `404` moves on to the
/// next suffix, and every other status fails the download.
pub open spec fn checksum_step_spec(status: u16) -> ChecksumStep {
    if 200 <= status < 300 {
        ChecksumStep::Parse
    } else if status == 404 {
        ChecksumStep::TryNext
    } else {
        ChecksumStep::Fail(status)
    }
}

/// The step for the status of a checksum request.
pub fn checksum_step(status: u16) -> (step: ChecksumStep)
    ensures
        step == checksum_step_spec(status),
{
    if status >= 200 && status < 300 {
        ChecksumStep::Parse
    } else if status == 404 {
        ChecksumStep::TryNext
    } else {
        ChecksumStep::Fail(status)
    }
}

/// The addresses at which the checksum of `url` is looked for, in order.
pub fn checksum_urls(url: &str) -> (urls: Vec<String>)
    ensures
        urls.len() == 2,
        urls[0]@ == url@ + ".sha256"@,
        urls[1]@ == url@ + ".sha256sum"@,
{
    let mut urls: Vec<String> = Vec::new();
    urls.push(String::from_str(url).concat(".sha256"));
    urls.push(String::from_str(url).concat(".sha256sum"));
    urls
}

/// The checksum published in the body of a checksum file.
pub fn read_checksum(body: &str) -> (checksum: Result<String, DownloadError>)
    ensures
        match checksum_from(body@, 0) {
            Some(digits) => checksum is Ok && checksum.unwrap()@ == digits,
            None => checksum == Err::<String, DownloadError>(DownloadError::ChecksumUnreadable),
        },
{
    match parse_checksum_text(body) {
        Some(digits) => Ok(digits),
        None => Err(DownloadError::ChecksumUnreadable),
    }
}

/// Whether the download may go ahead with what is known of the checksum: it
/// may not where none is published and one is required.
pub fn checksum_allows(published: bool, required: bool) -> (result: Result<(), DownloadError>)
    ensures
        result == if !published && required {
            Err::<(), DownloadError>(DownloadError::ChecksumMissing)
        } else {
            Ok::<(), DownloadError>(())
        },
{
    if !published && required {
        Err(DownloadError::ChecksumMissing)
    } else {
        Ok(())
    }
}

/// The name of the Ollama binary.
pub fn ollama_binary_name(platform: Platform) -> (name: &'static str)
    ensures
        name@ == if platform is Windows {
            "ollama.exe"@
        } else {
            "ollama"@
        },
{
    crate::process_manager::ollama_binary_name(platform)
}

/// The address of the Ollama build for an operating system and a processor
/// architecture, both as the standard library names them.
pub open spec fn ollama_download_url_spec(os: Seq<char>, arch: Seq<char>) -> Result<
    Seq<char>,
    DownloadError,
> {
    if arch_of(arch) is Other {
        Err(DownloadError::UnsupportedArchitecture)
    } else {
        let tag = if arch_of(arch) is X86_64 {
            "amd64"@
        } else {
            "arm64"@
        };
        match platform_of(os) {
            Platform::MacOs => Ok(
                "https://github.com/ollama/ollama/releases/latest/download/ollama-darwin"@,
            ),
            Platform::Linux => Ok(
                "https://github.com/ollama/ollama/releases/latest/download/ollama-linux-"@ + tag,
            ),
            Platform::Windows => Ok(
                "https://github.com/ollama/ollama/releases/latest/download/ollama-windows-"@ + tag
                    + ".exe"@,
            ),
            Platform::Other => Err(DownloadError::UnsupportedPlatform),
        }
    }
}

/// The address of the Ollama build for this machine. The architecture is
/// looked at first, so an unknown architecture is reported even where the
/// build does not depend on it.
pub fn ollama_download_url(os: &str, arch: &str) -> (url: Result<String, DownloadError>)
    ensures
        match ollama_download_url_spec(os@, arch@) {
            Ok(text) => url is Ok && url.unwrap()@ == text,
            Err(error) => url == Err::<String, DownloadError>(error),
        },
{
    let tag = match Arch::from_name(arch) {
        Arch::X86_64 => "amd64",
        Arch::Aarch64 => "arm64",
        Arch::Other => { return Err(DownloadError::UnsupportedArchitecture); },
    };
    match Platform::from_os_name(os) {
        Platform::MacOs => Ok(
            String::from_str("https://github.com/ollama/ollama/releases/latest/download/ollama-darwin"),
        ),
        Platform::Linux => Ok(
            String::from_str(
                "https://github.com/ollama/ollama/releases/latest/download/ollama-linux-",
            ).concat(tag),
        ),
        Platform::Windows => Ok(
            String::from_str(
                "https://github.com/ollama/ollama/releases/latest/download/ollama-windows-",
            ).concat(tag).concat(".exe"),
        ),
        Platform::Other => Err(DownloadError::UnsupportedPlatform),
    }
}

/// Whether the Ollama binary is installed: it is where the bundled binary
/// exists. Where it does not, the binary in the application's data directory
/// decides, and it is an error if that directory could not be resolved.
/// `app_binary_exists` is `None` in that case.
pub fn is_ollama_binary_installed(bundled_exists: bool, app_binary_exists: Option<bool>) -> (installed:
    Result<bool, DownloadError>)
    ensures
        installed == if bundled_exists {
            Ok::<bool, DownloadError>(true)
        } else {
            match app_binary_exists {
                Some(exists) => Ok::<bool, DownloadError>(exists),
                None => Err::<bool, DownloadError>(DownloadError::DataDirUnavailable),
            }
        },
{
    if bundled_exists {
        return Ok(true);
    }
    match app_binary_exists {
        Some(exists) => Ok(exists),
        None => Err(DownloadError::DataDirUnavailable),
    }
}

/// The total reported for a transfer: the announced length, or what has
/// arrived so far where no length was announced.
pub fn reported_total(downloaded: u64, announced: u64) -> (total: u64)
    ensures
        total == if announced > 0 {
            announced
        } else {
            downloaded
        },
{
    if announced > 0 {
        announced
    } else {
        downloaded
    }
}

/// The count of bytes after one more chunk, held at the largest count where
/// it would pass it.
pub fn add_chunk(downloaded: u64, chunk_len: usize) -> (total: u64)
    ensures
        total == if downloaded + chunk_len <= u64::MAX {
            (downloaded + chunk_len) as u64
        } else {
            u64::MAX
        },
{
    let len: u64 = chunk_len as u64;
    if len > u64::MAX - downloaded {
        u64::MAX
    } else {
        downloaded + len
    }
}

/// How far a download has come.
#[derive(Clone, Copy, Debug, PartialEq, Eq, Structural)]
pub enum ProgressStatus {
    Downloading,
    Complete,
}

/// The share of a download that has arrived.
#[derive(Clone, Copy, Debug, PartialEq, Eq, Structural)]
pub enum Percent {
    /// Nothing yet, or the total is not known.
    Zero,
    /// `downloaded_bytes` of `total_bytes`.
    Ratio,
    /// Everything.
    Full,
}

/// One progress report of a download.
#[derive(Clone, Copy, Debug, PartialEq, Eq)]
pub struct DownloadProgress {
    pub model_name: &'static str,
    pub status: ProgressStatus,
    pub percent: Percent,
    pub downloaded_bytes: u64,
    pub total_bytes: u64,
    pub message: &'static str,
}

/// Where the Ollama runtime was found.
#[derive(Clone, Copy, Debug, PartialEq, Eq, Structural)]
pub enum RuntimePresence {
    /// Bundled with the application.
    Bundled,
    /// Installed by an earlier download.
    Installed,
    /// Nowhere: it has to be downloaded.
    Missing,
}

/// Where the Ollama runtime is, given which of the two binaries exist. The
/// bundled binary comes first.
pub fn runtime_presence(bundled_exists: bool, installed_exists: bool) -> (presence: RuntimePresence)
    ensures
        presence == if bundled_exists {
            RuntimePresence::Bundled
        } else if installed_exists {
            RuntimePresence::Installed
        } else {
            RuntimePresence::Missing
        },
{
    if bundled_exists {
        RuntimePresence::Bundled
    } else if installed_exists {
        RuntimePresence::Installed
    } else {
        RuntimePresence::Missing
    }
}

/// The report for a runtime that needs no download, and none for one that
/// is missing.
pub fn runtime_present_report(presence: RuntimePresence) -> (report: Option<DownloadProgress>)
    ensures
        report is None <==> presence is Missing,
        report is Some ==> {
            &&& report.unwrap().model_name@ == OLLAMA_RUNTIME_NAME@
            &&& report.unwrap().status is Complete
            &&& report.unwrap().percent is Full
            &&& report.unwrap().downloaded_bytes == 0
            &&& report.unwrap().total_bytes == 0
            &&& report.unwrap().message@ == if presence is Bundled {
                "Ollama runtime already bundled"@
            } else {
                "Ollama runtime already installed"@
            }
        },
{
    let message = match presence {
        RuntimePresence::Bundled => "Ollama runtime already bundled",
        RuntimePresence::Installed => "Ollama runtime already installed",
        RuntimePresence::Missing => { return None; },
    };
    Some(
        DownloadProgress {
            model_name: OLLAMA_RUNTIME_NAME,
            status: ProgressStatus::Complete,
            percent: Percent::Full,
            downloaded_bytes: 0,
            total_bytes: 0,
            message,
        },
    )
}

/// The report while the runtime is being downloaded: `downloaded` bytes have
/// arrived, and `announced` is the length the server announced, zero where
/// it announced none. The share is known only with an announced length.
pub fn runtime_transfer_report(downloaded: u64, announced: u64) -> (report: DownloadProgress)
    ensures
        report.model_name@ == OLLAMA_RUNTIME_NAME@,
        report.status is Downloading,
        report.percent == if announced > 0 {
            Percent::Ratio
        } else {
            Percent::Zero
        },
        report.downloaded_bytes == downloaded,
        report.total_bytes == if announced > 0 {
            announced
        } else {
            downloaded
        },
        report.message@ == "Downloading Ollama runtime..."@,
{
    DownloadProgress {
        model_name: OLLAMA_RUNTIME_NAME,
        status: ProgressStatus::Downloading,
        percent: if announced > 0 {
            Percent::Ratio
        } else {
            Percent::Zero
        },
        downloaded_bytes: downloaded,
        total_bytes: reported_total(downloaded, announced),
        message: "Downloading Ollama runtime...",
    }
}

/// The report for a runtime that has been downloaded and checked.
pub fn runtime_ready_report(downloaded: u64, announced: u64) -> (report: DownloadProgress)
    ensures
        report.model_name@ == OLLAMA_RUNTIME_NAME@,
        report.status is Complete,
        report.percent is Full,
        report.downloaded_bytes == downloaded,
        report.total_bytes == if announced > 0 {
            announced
        } else {
            downloaded
        },
        report.message@ == "Ollama runtime ready"@,
{
    DownloadProgress {
        model_name: OLLAMA_RUNTIME_NAME,
        status: ProgressStatus::Complete,
        percent: Percent::Full,
        downloaded_bytes: downloaded,
        total_bytes: reported_total(downloaded, announced),
        message: "Ollama runtime ready",
    }
}

/// The two reports for the Whisper model, which the backend fetches by
/// itself on first use: the announcement, then the completion.
pub fn whisper_reports() -> (reports: Vec<DownloadProgress>)
    ensures
        reports.len() == 2,
        reports[0].model_name@ == WHISPER_MODEL_NAME@,
        reports[0].status is Downloading,
        reports[0].percent is Zero,
        reports[0].downloaded_bytes == 0,
        reports[0].total_bytes == WHISPER_MODEL_BYTES,
        reports[0].message@ == "Whisper model will auto-download on first use"@,
        reports[1].model_name@ == WHISPER_MODEL_NAME@,
        reports[1].status is Complete,
        reports[1].percent is Full,
        reports[1].downloaded_bytes == WHISPER_MODEL_BYTES,
        reports[1].total_bytes == WHISPER_MODEL_BYTES,
        reports[1].message@ == "Whisper model ready"@,
{
    let mut reports: Vec<DownloadProgress> = Vec::new();
    reports.push(
        DownloadProgress {
            model_name: WHISPER_MODEL_NAME,
            status: ProgressStatus::Downloading,
            percent: Percent::Zero,
            downloaded_bytes: 0,
            total_bytes: WHISPER_MODEL_BYTES,
            message: "Whisper model will auto-download on first use",
        },
    );
    reports.push(
        DownloadProgress {
            model_name: WHISPER_MODEL_NAME,
            status: ProgressStatus::Complete,
            percent: Percent::Full,
            downloaded_bytes: WHISPER_MODEL_BYTES,
            total_bytes: WHISPER_MODEL_BYTES,
            message: "Whisper model ready",
        },
    );
    reports
}

/// The models the application can be asked to download.
#[derive(Clone, Copy, Debug, PartialEq, Eq, Structural)]
pub enum ModelKind {
    Whisper,
    Llama,
}

/// The model of a name: `whisper` or `llama`.
pub fn model_kind(name: &str) -> (kind: Option<ModelKind>)
    ensures
        kind == if name@ == "whisper"@ {
            Some(ModelKind::Whisper)
        } else if name@ == "llama"@ {
            Some(ModelKind::Llama)
        } else {
            None
        },
{
    if str_equal(name, "whisper") {
        Some(ModelKind::Whisper)
    } else if str_equal(name, "llama") {
        Some(ModelKind::Llama)
    } else {
        None
    }
}

/// Whether one of the models that Ollama lists is the model asked for: one
/// is where its name contains the name asked for.
pub fn is_model_downloaded(listed: &Vec<String>, model_name: &str) -> (found: bool)
    ensures
        found == exists|i: int|
            0 <= i < listed.len() && contains_seq(#[trigger] listed[i]@, model_name@),
{
    let mut i: usize = 0;
    while i < listed.len()
        invariant
            i <= listed.len(),
            forall|j: int| 0 <= j < i ==> !contains_seq(#[trigger] listed[j]@, model_name@),
        decreases listed.len() - i,
    {
        if str_contains(listed[i].as_str(), model_name) {
            return true;
        }
        i = i + 1;
    }
    false
}

} // verus!
