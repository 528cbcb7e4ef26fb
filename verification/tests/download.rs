use fetch::download::{
    check_digest, check_digests, AbortReason, Algorithm, Download, DownloadOutcome, Offer, Phase,
};
use fetch::hashing::{md5_hex, sha256_hex};

const ABC_SHA256: &str = "ba7816bf8f01cfea414140de5dae2223b00361a396177a9cb410ff61f20015ad";
const ABC_MD5: &str = "900150983cd24fb0d6963f7d28e17f72";
const EMPTY_SHA256: &str = "e3b0c44298fc1c149afbf4c8996fb92427ae41e4649b934ca495991b7852b855";
const EMPTY_MD5: &str = "d41d8cd98f00b204e9800998ecf8427e";

fn streaming(ceiling: Option<u64>, md5: Option<&str>, sha256: Option<&str>) -> Download {
    let mut d = Download::new(ceiling, md5.map(String::from), sha256.map(String::from));
    assert_eq!(d.phase(), Phase::Idle);
    assert_eq!(d.begin(None), None);
    assert_eq!(d.phase(), Phase::Creating);
    assert_eq!(d.file_created(true), None);
    assert_eq!(d.phase(), Phase::Streaming);
    d
}

fn finish(mut d: Download) -> DownloadOutcome {
    d.end_of_stream();
    assert_eq!(d.phase(), Phase::Finalizing);
    d.finalize()
}

fn stream(d: &mut Download, chunks: &[&[u8]]) -> Option<AbortReason> {
    for chunk in chunks {
        let stop = d.chunk(chunk);
        if stop.is_some() {
            return stop;
        }
    }
    None
}

#[test]
fn digests_of_known_payloads() {
    assert_eq!(sha256_hex(b"abc"), ABC_SHA256);
    assert_eq!(md5_hex(b"abc"), ABC_MD5);
    assert_eq!(sha256_hex(b""), EMPTY_SHA256);
    assert_eq!(md5_hex(b""), EMPTY_MD5);
}

#[test]
fn digests_are_those_of_the_outside_crates() {
    let data: Vec<u8> = (0..1000u32).map(|i| (i * 7 % 256) as u8).collect();
    let sha = <sha2::Sha256 as sha2::Digest>::digest(&data);
    let md = <md5::Md5 as md5::Digest>::digest(&data);
    assert_eq!(sha256_hex(&data), hex::encode(sha));
    assert_eq!(md5_hex(&data), hex::encode(md));
}

#[test]
fn round_trip_without_expected_digests() {
    let payload: Vec<u8> = (0..5000u32).map(|i| (i % 251) as u8).collect();
    for size in [1usize, 7, 64, 4999, 5000, 10000] {
        let mut d = streaming(None, None, None);
        for chunk in payload.chunks(size) {
            assert_eq!(d.chunk(chunk), None);
        }
        assert_eq!(d.received(), 5000);
        let outcome = finish(d);
        assert_eq!(outcome.bytes_written, 5000);
        assert_eq!(outcome.sha256_hex, sha256_hex(&payload));
        assert_eq!(outcome.md5_hex, md5_hex(&payload));
        assert_eq!(outcome.aborted, None);
        assert_eq!(outcome.phase(), Phase::Verified);
    }
}

#[test]
fn empty_body_is_verified() {
    let outcome = finish(streaming(Some(10), None, None));
    assert_eq!(
        outcome,
        DownloadOutcome {
            bytes_written: 0,
            md5_hex: String::from(EMPTY_MD5),
            sha256_hex: String::from(EMPTY_SHA256),
            aborted: None,
        }
    );
}

#[test]
fn empty_chunks_change_nothing() {
    let mut d = streaming(Some(3), None, None);
    assert_eq!(stream(&mut d, &[b"", b"ab", b"", b"c", b""]), None);
    let outcome = finish(d);
    assert_eq!(outcome.bytes_written, 3);
    assert_eq!(outcome.sha256_hex, ABC_SHA256);
    assert_eq!(outcome.md5_hex, ABC_MD5);
}

#[test]
fn matching_digests_pass_in_any_case() {
    let upper = ABC_SHA256.to_uppercase();
    let mut d = streaming(None, Some("900150983CD24fb0d6963f7d28e17f72"), Some(&upper));
    assert_eq!(stream(&mut d, &[b"a", b"bc"]), None);
    let outcome = finish(d);
    assert_eq!(outcome.aborted, None);
    assert_eq!(outcome.phase(), Phase::Verified);
    assert_eq!(outcome.bytes_written, 3);
    assert_eq!(outcome.sha256_hex, ABC_SHA256);
    assert_eq!(outcome.md5_hex, ABC_MD5);
}

#[test]
fn wrong_sha256_is_a_checksum_mismatch() {
    let wrong = "BA7816BF8F01CFEA414140DE5DAE2223B00361A396177A9CB410FF61F20015AE";
    let mut d = streaming(None, None, Some(wrong));
    assert_eq!(stream(&mut d, &[b"abc"]), None);
    let outcome = finish(d);
    assert_eq!(
        outcome.aborted,
        Some(AbortReason::ChecksumMismatch {
            algorithm: Algorithm::Sha256,
            expected: wrong.to_lowercase(),
            actual: String::from(ABC_SHA256),
        })
    );
    assert_eq!(outcome.phase(), Phase::Aborted);
    assert_eq!(outcome.bytes_written, 3);
    assert_eq!(outcome.md5_hex, ABC_MD5);
}

#[test]
fn wrong_md5_is_reported_before_sha256() {
    let mut d = streaming(None, Some("00"), Some("11"));
    assert_eq!(stream(&mut d, &[b"abc"]), None);
    let outcome = finish(d);
    assert_eq!(
        outcome.aborted,
        Some(AbortReason::ChecksumMismatch {
            algorithm: Algorithm::Md5,
            expected: String::from("00"),
            actual: String::from(ABC_MD5),
        })
    );
}

#[test]
fn right_md5_does_not_excuse_wrong_sha256() {
    let mut d = streaming(None, Some(ABC_MD5), Some(""));
    assert_eq!(stream(&mut d, &[b"abc"]), None);
    let outcome = finish(d);
    assert_eq!(
        outcome.aborted,
        Some(AbortReason::ChecksumMismatch {
            algorithm: Algorithm::Sha256,
            expected: String::new(),
            actual: String::from(ABC_SHA256),
        })
    );
}

#[test]
fn one_byte_over_the_ceiling_is_given_up() {
    let payload = [7u8; 101];
    let mut d = streaming(Some(100), None, None);
    let mut consumed = 0usize;
    let mut stop = None;
    for chunk in payload.chunks(10) {
        stop = d.chunk(chunk);
        if stop.is_some() {
            break;
        }
        consumed += chunk.len();
    }
    assert_eq!(stop, Some(AbortReason::SizeExceeded { limit: 100, received: 101 }));
    assert_eq!(consumed, 100);
    assert_eq!(d.phase(), Phase::Aborted);
    assert_eq!(d.received(), 100);
}

#[test]
fn a_body_at_the_ceiling_passes() {
    let payload = [7u8; 100];
    let mut d = streaming(Some(100), None, None);
    assert_eq!(stream(&mut d, &[&payload[..60], &payload[60..]]), None);
    let outcome = finish(d);
    assert_eq!(outcome.bytes_written, 100);
    assert_eq!(outcome.aborted, None);
}

#[test]
fn a_chunk_over_the_ceiling_is_not_counted() {
    let mut d = streaming(Some(4), None, None);
    assert_eq!(d.chunk(b"abc"), None);
    assert_eq!(
        d.chunk(b"de"),
        Some(AbortReason::SizeExceeded { limit: 4, received: 5 })
    );
    assert_eq!(d.received(), 3);
    assert_eq!(d.phase(), Phase::Aborted);

    let mut d = streaming(Some(0), None, None);
    assert_eq!(d.chunk(b""), None);
    assert_eq!(
        d.chunk(b"x"),
        Some(AbortReason::SizeExceeded { limit: 0, received: 1 })
    );
}

#[test]
fn announced_length_over_the_ceiling_stops_before_the_transfer() {
    let mut d = Download::new(Some(100), None, None);
    assert_eq!(
        d.begin(Some(101)),
        Some(AbortReason::AnnouncedSizeExceeded { limit: 100, announced: 101 })
    );
    assert_eq!(d.phase(), Phase::Aborted);

    let mut d = Download::new(Some(100), None, None);
    assert_eq!(d.begin(Some(100)), None);
    assert_eq!(d.phase(), Phase::Creating);

    let mut d = Download::new(None, None, None);
    assert_eq!(d.begin(Some(u64::MAX)), None);
    assert_eq!(d.phase(), Phase::Creating);

    let mut d = Download::new(Some(100), None, None);
    assert_eq!(d.begin(None), None);
    assert_eq!(d.phase(), Phase::Creating);
}

#[test]
fn misstated_length_is_caught_while_streaming() {
    let mut d = Download::new(Some(2), None, None);
    assert_eq!(d.begin(Some(1)), None);
    assert_eq!(d.file_created(true), None);
    assert_eq!(
        d.chunk(b"abc"),
        Some(AbortReason::SizeExceeded { limit: 2, received: 3 })
    );
}

#[test]
fn failures_of_the_caller_end_the_download() {
    let mut d = Download::new(None, None, None);
    assert_eq!(d.begin(None), None);
    assert_eq!(d.file_created(false), Some(AbortReason::CreateFailed));
    assert_eq!(d.phase(), Phase::Aborted);

    let mut d = streaming(None, None, None);
    assert_eq!(d.chunk(b"abc"), None);
    assert_eq!(d.read_failed(), AbortReason::ReadFailed);
    assert_eq!(d.phase(), Phase::Aborted);

    let mut d = streaming(None, None, None);
    assert_eq!(d.chunk(b"abc"), None);
    assert_eq!(d.write_failed(), AbortReason::WriteFailed);
    assert_eq!(d.phase(), Phase::Aborted);
}

#[test]
fn digests_are_compared_in_lower_case() {
    let actual = String::from("0a1b");
    assert_eq!(check_digest(Algorithm::Md5, &None, &actual), None);
    assert_eq!(check_digest(Algorithm::Md5, &Some(String::from("0A1b")), &actual), None);
    assert_eq!(
        check_digest(Algorithm::Sha256, &Some(String::from("0A1C")), &actual),
        Some(AbortReason::ChecksumMismatch {
            algorithm: Algorithm::Sha256,
            expected: String::from("0a1c"),
            actual: String::from("0a1b"),
        })
    );
    assert_eq!(
        check_digest(Algorithm::Md5, &Some(String::from("0a1")), &actual),
        Some(AbortReason::ChecksumMismatch {
            algorithm: Algorithm::Md5,
            expected: String::from("0a1"),
            actual: String::from("0a1b"),
        })
    );
    let sha = String::from("ff");
    assert_eq!(
        check_digests(&Some(String::from("0A1B")), &Some(String::from("FF")), &actual, &sha),
        None
    );
    assert_eq!(check_digests(&None, &None, &actual, &sha), None);
}

#[test]
fn offered_chunks_are_taken_only_while_streaming() {
    let mut d = Download::new(Some(4), None, None);
    assert_eq!(d.offer(b"ab"), Offer::Refused);
    assert_eq!(d.phase(), Phase::Idle);
    assert_eq!(d.begin(None), None);
    assert_eq!(d.offer(b"ab"), Offer::Refused);
    assert_eq!(d.phase(), Phase::Creating);
    assert_eq!(d.file_created(true), None);
    assert_eq!(d.offer(b"abc"), Offer::Accepted);
    assert_eq!(d.received(), 3);
    assert_eq!(
        d.offer(b"de"),
        Offer::Stopped(AbortReason::SizeExceeded { limit: 4, received: 5 })
    );
    assert_eq!(d.phase(), Phase::Aborted);
    assert_eq!(d.offer(b""), Offer::Refused);
    assert_eq!(d.received(), 3);

    let mut d = streaming(None, None, None);
    assert_eq!(d.offer(b"abc"), Offer::Accepted);
    d.end_of_stream();
    assert_eq!(d.offer(b"d"), Offer::Refused);
    let outcome = d.finalize();
    assert_eq!(outcome.bytes_written, 3);
    assert_eq!(outcome.sha256_hex, ABC_SHA256);
}

#[test]
fn every_reason_has_its_diagnostic_line() {
    assert_eq!(
        AbortReason::AnnouncedSizeExceeded { limit: 100, announced: 101 }.message(),
        "content length too large: 100 bytes max. expected, but 101 bytes content length"
    );
    assert_eq!(AbortReason::CreateFailed.message(), "failed to create file");
    assert_eq!(AbortReason::ReadFailed.message(), "failed to read response data");
    assert_eq!(
        AbortReason::SizeExceeded { limit: 0, received: u64::MAX }.message(),
        "content length too large: expected max. 0 bytes, but 18446744073709551615 bytes received"
    );
    assert_eq!(AbortReason::WriteFailed.message(), "failed to write file");
    assert_eq!(
        AbortReason::ChecksumMismatch {
            algorithm: Algorithm::Md5,
            expected: String::from("00"),
            actual: String::from("ff"),
        }
        .message(),
        "MD5 checksum mismatch: expected 00 but was ff"
    );
    assert_eq!(
        AbortReason::ChecksumMismatch {
            algorithm: Algorithm::Sha256,
            expected: String::new(),
            actual: String::from("ab"),
        }
        .message(),
        "SHA256 checksum mismatch: expected  but was ab"
    );
}
