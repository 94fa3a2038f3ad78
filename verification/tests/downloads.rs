use cogniscribe::model_downloader::{
    add_chunk, checksum_allows, checksum_required, checksum_step, checksum_urls,
    hex_encode, is_model_downloaded, is_ollama_binary_installed, ollama_binary_name,
    ollama_download_url, parse_checksum_text, read_checksum, reported_total, verify_download,
    ChecksumStep, DownloadError, DownloadHasher,
};
use cogniscribe::platform::Platform;

const EMPTY_DIGEST: &str = "e3b0c44298fc1c149afbf4c8996fb92427ae41e4649b934ca495991b7852b855";
const ABC_DIGEST: &str = "ba7816bf8f01cfea414140de5dae2223b00361a396177a9cb410ff61f20015ad";

#[test]
fn checksum_variable_is_read_without_regard_to_case() {
    assert!(checksum_required("true"));
    assert!(checksum_required("TRUE"));
    assert!(checksum_required("Yes"));
    assert!(checksum_required("1"));
    assert!(!checksum_required(""));
    assert!(!checksum_required("0"));
    assert!(!checksum_required("false"));
    assert!(!checksum_required(" true"));
}

#[test]
fn checksum_is_the_first_word_of_a_line() {
    let line = format!("{}  ollama-linux-amd64\n", ABC_DIGEST);
    assert_eq!(parse_checksum_text(&line), Some(ABC_DIGEST.to_string()));
    assert_eq!(parse_checksum_text(ABC_DIGEST), Some(ABC_DIGEST.to_string()));
    let upper = ABC_DIGEST.to_uppercase();
    assert_eq!(parse_checksum_text(&format!("  \t{}\r\n", upper)), Some(ABC_DIGEST.to_string()));
}

#[test]
fn checksum_is_looked_for_line_by_line() {
    let text = format!("# checksums\nfile {}\n{} file\n", EMPTY_DIGEST, ABC_DIGEST);
    assert_eq!(parse_checksum_text(&text), Some(ABC_DIGEST.to_string()));
    let two = format!("{}\n{}\n", EMPTY_DIGEST, ABC_DIGEST);
    assert_eq!(parse_checksum_text(&two), Some(EMPTY_DIGEST.to_string()));
}

#[test]
fn text_without_a_checksum_gives_none() {
    assert_eq!(parse_checksum_text(""), None);
    assert_eq!(parse_checksum_text("not a checksum\n"), None);
    assert_eq!(parse_checksum_text(&ABC_DIGEST[..63]), None);
    assert_eq!(parse_checksum_text(&format!("{}0", ABC_DIGEST)), None);
    let bad = format!("g{}", &ABC_DIGEST[1..]);
    assert_eq!(parse_checksum_text(&bad), None);
}

#[test]
fn blank_line_ends_the_search() {
    let text = format!("header\n\n{}\n", ABC_DIGEST);
    assert_eq!(parse_checksum_text(&text), None);
    let spaces = format!("   \n{}\n", ABC_DIGEST);
    assert_eq!(parse_checksum_text(&spaces), None);
    assert_eq!(read_checksum(&text), Err(DownloadError::ChecksumUnreadable));
    assert_eq!(read_checksum(ABC_DIGEST), Ok(ABC_DIGEST.to_string()));
}

#[test]
fn bytes_are_written_in_lower_case_hexadecimal() {
    assert_eq!(hex_encode(&[]), "");
    assert_eq!(hex_encode(&[0x00, 0x0f, 0xa0, 0xff, 0x12]), "000fa0ff12");
    assert_eq!(hex_encode(&[0xde, 0xad, 0xbe, 0xef]), "deadbeef");
}

#[test]
fn hasher_computes_sha256() {
    assert_eq!(DownloadHasher::new().hex_digest(), EMPTY_DIGEST);
    let mut whole = DownloadHasher::new();
    whole.feed(b"abc");
    assert_eq!(whole.hex_digest(), ABC_DIGEST);
    let mut chunked = DownloadHasher::new();
    chunked.feed(b"a");
    chunked.feed(b"");
    chunked.feed(b"bc");
    assert!(chunked.matches(ABC_DIGEST));
    let mut other = DownloadHasher::new();
    other.feed(b"abd");
    assert!(!other.matches(ABC_DIGEST));
}

#[test]
fn download_is_checked_against_the_published_checksum() {
    let mut hasher = DownloadHasher::new();
    hasher.feed(b"abc");
    assert_eq!(verify_download(hasher, Some(ABC_DIGEST.to_string())), Ok(()));
    let mut hasher = DownloadHasher::new();
    hasher.feed(b"abc");
    assert_eq!(
        verify_download(hasher, Some(EMPTY_DIGEST.to_string())),
        Err(DownloadError::ChecksumMismatch)
    );
    let mut hasher = DownloadHasher::new();
    hasher.feed(b"anything");
    assert_eq!(verify_download(hasher, None), Ok(()));
    let mut hasher = DownloadHasher::new();
    hasher.feed(b"abc");
    assert_eq!(
        verify_download(hasher, Some(ABC_DIGEST.to_uppercase())),
        Err(DownloadError::ChecksumMismatch)
    );
}

#[test]
fn checksum_request_is_classified_by_status() {
    assert_eq!(checksum_step(200), ChecksumStep::Parse);
    assert_eq!(checksum_step(204), ChecksumStep::Parse);
    assert_eq!(checksum_step(299), ChecksumStep::Parse);
    assert_eq!(checksum_step(404), ChecksumStep::TryNext);
    assert_eq!(checksum_step(300), ChecksumStep::Fail(300));
    assert_eq!(checksum_step(500), ChecksumStep::Fail(500));
    assert_eq!(checksum_step(199), ChecksumStep::Fail(199));
    assert_eq!(
        checksum_urls("https://example.org/ollama"),
        vec![
            "https://example.org/ollama.sha256".to_string(),
            "https://example.org/ollama.sha256sum".to_string(),
        ]
    );
}

#[test]
fn missing_checksum_stops_the_download_only_where_required() {
    assert_eq!(checksum_allows(false, true), Err(DownloadError::ChecksumMissing));
    assert_eq!(checksum_allows(false, false), Ok(()));
    assert_eq!(checksum_allows(true, true), Ok(()));
    assert_eq!(checksum_allows(true, false), Ok(()));
}

#[test]
fn ollama_build_follows_the_machine() {
    assert_eq!(
        ollama_download_url("macos", "aarch64"),
        Ok("https://github.com/ollama/ollama/releases/latest/download/ollama-darwin".to_string())
    );
    assert_eq!(
        ollama_download_url("linux", "x86_64"),
        Ok("https://github.com/ollama/ollama/releases/latest/download/ollama-linux-amd64".to_string())
    );
    assert_eq!(
        ollama_download_url("linux", "arm64"),
        Ok("https://github.com/ollama/ollama/releases/latest/download/ollama-linux-arm64".to_string())
    );
    assert_eq!(
        ollama_download_url("windows", "x86_64"),
        Ok("https://github.com/ollama/ollama/releases/latest/download/ollama-windows-amd64.exe".to_string())
    );
    assert_eq!(ollama_download_url("macos", "riscv64"), Err(DownloadError::UnsupportedArchitecture));
    assert_eq!(ollama_download_url("freebsd", "x86_64"), Err(DownloadError::UnsupportedPlatform));
    assert_eq!(ollama_download_url("freebsd", "mips"), Err(DownloadError::UnsupportedArchitecture));
    assert_eq!(ollama_binary_name(Platform::Windows), "ollama.exe");
    assert_eq!(ollama_binary_name(Platform::Linux), "ollama");
    assert_eq!(ollama_binary_name(Platform::MacOs), "ollama");
}

#[test]
fn installed_binary_is_looked_for_in_two_places() {
    assert_eq!(is_ollama_binary_installed(true, None), Ok(true));
    assert_eq!(is_ollama_binary_installed(true, Some(false)), Ok(true));
    assert_eq!(is_ollama_binary_installed(false, Some(true)), Ok(true));
    assert_eq!(is_ollama_binary_installed(false, Some(false)), Ok(false));
    assert_eq!(is_ollama_binary_installed(false, None), Err(DownloadError::DataDirUnavailable));
}

#[test]
fn transfer_counts_are_reported() {
    assert_eq!(reported_total(10, 100), 100);
    assert_eq!(reported_total(10, 0), 10);
    assert_eq!(add_chunk(10, 5), 15);
    assert_eq!(add_chunk(u64::MAX - 1, 5), u64::MAX);
}

#[test]
fn listed_models_are_matched_by_part_of_their_name() {
    let listed = vec!["mistral:7b".to_string(), "llama3.1:8b-instruct".to_string()];
    assert!(is_model_downloaded(&listed, "llama3.1:8b"));
    assert!(is_model_downloaded(&listed, "mistral"));
    assert!(!is_model_downloaded(&listed, "llama3.2"));
    assert!(!is_model_downloaded(&Vec::new(), "llama3.1:8b"));
}
