use filament::coverage::{coverage_complete, record_range, total};
use filament::digest::{full_hash, full_hash_start, full_hash_step, head_hash, sha256_hex, HashStep};
use filament::recv_files::{
    decide_verify, extracted_line, final_name, finalize_incoming, is_archive, judge_incoming,
    log_line, resume_verdict, setting_peer, unique_path, verify_incoming, verify_plan,
    windows_create_verdict, windows_resume_verdict, Finalized, IncomingFile, PathStep,
    Verification, VerifyPlan, VerifyResult,
};
use filament::shared_defs::HEAD_BYTES;

/// A file read in pieces of 64 KiB, with the empty read at its end.
fn reads_of(bytes: &[u8]) -> Vec<Option<Vec<u8>>> {
    let mut out: Vec<Option<Vec<u8>>> = bytes.chunks(65536).map(|c| Some(c.to_vec())).collect();
    out.push(Some(Vec::new()));
    out
}

#[test]
fn full_hash_whole_file_integrity() {
    let mut base = vec![3u8; (HEAD_BYTES + 4096) as usize];
    let a = base.clone();
    // identical head, byte flipped well past the head
    base[(HEAD_BYTES + 2048) as usize] = 4;
    let b = base.clone();
    assert_eq!(head_hash(&a), head_hash(&b), "tails past the head don't change the head hash");
    assert_ne!(
        full_hash(&reads_of(&a)),
        full_hash(&reads_of(&b)),
        "full_hash sees the whole file"
    );
    // a truncated file (same prefix, shorter) also differs
    let b = base[..base.len() - 100].to_vec();
    assert_ne!(
        full_hash(&reads_of(&a)),
        full_hash(&reads_of(&b)),
        "truncation changes the full hash"
    );
    // full_hash matches a one-shot sha256 of the bytes
    assert_eq!(
        full_hash(&reads_of(&a)),
        Some(sha256_hex(&vec![3u8; (HEAD_BYTES + 4096) as usize]))
    );
}

/// The name a file gets in a directory that holds `names`.
fn name_in(names: &[&str], name: &str) -> String {
    let mut taken: Vec<bool> = Vec::new();
    loop {
        match unique_path(name, &taken) {
            PathStep::Probe(p) => taken.push(names.contains(&p.as_str())),
            PathStep::Use(p) => return p,
        }
    }
}

#[test]
fn unique_path_suffixes() {
    assert_eq!(name_in(&[], "f.txt"), "f.txt");
    assert_eq!(name_in(&["f.txt"], "f.txt"), "f.txt.1");
    assert_eq!(name_in(&["f.txt", "f.txt.1"], "f.txt"), "f.txt.2");
}

#[test]
fn a_name_with_every_suffix_taken_is_a_duplicate() {
    let taken = vec![true; 1000];
    assert_eq!(unique_path("f", &taken), PathStep::Use("f.dup".to_string()));
    let mut last = taken.clone();
    last[999] = false;
    assert_eq!(unique_path("f", &last), PathStep::Use("f.999".to_string()));
}

#[test]
fn sha256_of_known_bytes() {
    assert_eq!(
        sha256_hex(b"abc"),
        "ba7816bf8f01cfea414140de5dae2223b00361a396177a9cb410ff61f20015ad"
    );
    assert_eq!(
        sha256_hex(b""),
        "e3b0c44298fc1c149afbf4c8996fb92427ae41e4649b934ca495991b7852b855"
    );
    assert_eq!(head_hash(b"abc"), sha256_hex(b"abc"));
}

#[test]
fn a_digest_does_not_depend_on_how_a_file_is_read() {
    let whole = vec![Some(b"hello world".to_vec()), Some(Vec::new())];
    let parts = vec![
        Some(b"hel".to_vec()),
        Some(b"lo wo".to_vec()),
        Some(b"rld".to_vec()),
        Some(Vec::new()),
    ];
    assert_eq!(full_hash(&whole), full_hash(&parts));
    assert_eq!(full_hash(&whole), Some(sha256_hex(b"hello world")));
}

#[test]
fn an_unreadable_file_has_no_digest() {
    assert_eq!(full_hash(&vec![Some(b"x".to_vec()), None]), None);
    // what follows the end of the file is not looked at
    assert_eq!(full_hash(&vec![Some(Vec::new()), None]), Some(sha256_hex(b"")));
    assert!(matches!(full_hash_step(full_hash_start(), None), HashStep::Done(None)));
}

#[test]
fn ranges_merge_and_count() {
    let mut r: Vec<(u64, u64)> = Vec::new();
    record_range(&mut r, 10, 10);
    record_range(&mut r, 30, 5);
    assert_eq!(r, vec![(10, 20), (30, 35)]);
    assert_eq!(total(&r), 15);
    record_range(&mut r, 15, 15);
    assert_eq!(r, vec![(10, 35)]);
    assert_eq!(total(&r), 25);
    assert!(!coverage_complete(&r, 35));
    record_range(&mut r, 0, 12);
    assert_eq!(r, vec![(0, 35)]);
    assert!(coverage_complete(&r, 35));
    assert!(!coverage_complete(&r, 36));
}

#[test]
fn a_chunk_that_comes_twice_counts_once() {
    let mut r: Vec<(u64, u64)> = Vec::new();
    record_range(&mut r, 0, 100);
    record_range(&mut r, 0, 100);
    record_range(&mut r, 50, 20);
    assert_eq!(total(&r), 100);
}

fn incoming(full: Option<&str>, received: u64, ranges: Vec<(u64, u64)>) -> IncomingFile {
    IncomingFile {
        peer: "p".to_string(),
        sid: 1,
        id: "u-1".to_string(),
        name: "a.txt".to_string(),
        size: 10,
        received,
        ranges,
        part_path: "/d/a.txt.part".to_string(),
        full: full.map(|s| s.to_string()),
        inflight: 0,
        end_seen: false,
        ack_sid: 1,
    }
}

#[test]
fn a_file_without_a_digest_matches_unread() {
    let f = incoming(None, 10, vec![(0, 10)]);
    assert!(matches!(verify_plan(&f), VerifyPlan::Accept));
    assert!(matches!(judge_incoming(&f, None), VerifyResult::Match));
}

#[test]
fn a_truncated_file_is_never_taken_for_whole() {
    let f = incoming(Some("aa"), 5, vec![(0, 5)]);
    assert!(matches!(verify_plan(&f), VerifyPlan::Incomplete));
    assert!(matches!(
        judge_incoming(&f, Some("aa")),
        VerifyResult::Mismatch { restart_from_zero: false }
    ));
}

#[test]
fn a_whole_file_is_judged_by_its_digest() {
    let f = incoming(Some("aa"), 10, vec![(0, 10)]);
    assert!(matches!(verify_plan(&f), VerifyPlan::Digest));
    assert!(matches!(judge_incoming(&f, Some("aa")), VerifyResult::Match));
    assert!(matches!(
        judge_incoming(&f, Some("bb")),
        VerifyResult::Mismatch { restart_from_zero: true }
    ));
    assert!(matches!(verify_incoming(&f, Some("aa")), Verification::Judge { digest_ok: Some(true) }));
}

#[test]
fn corrupt_files_start_over_and_short_ones_go_on() {
    assert!(matches!(decide_verify(10, 10, Some(true)), VerifyResult::Match));
    assert!(matches!(
        decide_verify(10, 10, Some(false)),
        VerifyResult::Mismatch { restart_from_zero: true }
    ));
    assert!(matches!(
        decide_verify(4, 10, Some(false)),
        VerifyResult::Mismatch { restart_from_zero: false }
    ));
    assert!(matches!(
        decide_verify(4, 10, Some(true)),
        VerifyResult::Mismatch { restart_from_zero: false }
    ));
    assert!(matches!(
        decide_verify(4, 10, None),
        VerifyResult::Mismatch { restart_from_zero: false }
    ));
    assert!(matches!(
        decide_verify(10, 10, None),
        VerifyResult::Mismatch { restart_from_zero: true }
    ));
}

#[test]
fn only_plain_files_are_resumed() {
    assert_eq!(resume_verdict(true, "file"), Ok(()));
    assert_eq!(
        resume_verdict(false, "FileType(dir)"),
        Err("refusing to resume: .part is not a regular file (type: FileType(dir))".to_string())
    );
    assert_eq!(windows_create_verdict(false), Ok(()));
    assert!(windows_create_verdict(true).is_err());
    assert_eq!(windows_resume_verdict(false, false, 0x20), Ok(()));
    assert!(windows_resume_verdict(true, false, 0x400).is_err());
    assert!(windows_resume_verdict(false, true, 0x10).is_err());
}

#[test]
fn a_finished_file_is_placed_and_extracted_on_demand() {
    assert_eq!(final_name("a.txt", None), "a.txt");
    assert_eq!(final_name("a.txt", Some("b.txt")), "b.txt");
    assert!(is_archive("x.TAR"));
    assert!(!is_archive("x.tar.txt"));
    let f = incoming(None, 10, vec![(0, 10)]);
    match finalize_incoming(&f, "a.tar", Ok(()), true, true) {
        Finalized::Placed { meta_name, size_ok, extract, log } => {
            assert_eq!(meta_name, "a.txt.part.meta");
            assert!(size_ok && extract && log);
        }
        Finalized::Discarded { .. } => panic!("placed"),
    }
    match finalize_incoming(&f, "a.tar", Err("gone".to_string()), false, false) {
        Finalized::Discarded { message } => assert!(message.contains("a.txt")),
        Finalized::Placed { .. } => panic!("discarded"),
    }
}

#[test]
fn lines_about_files() {
    assert_eq!(setting_peer(""), None);
    assert_eq!(setting_peer("desk"), Some("desk"));
    let line = extracted_line(3, "/d/x");
    assert!(line.contains('3') && line.contains("/d/x"));
    let log = log_line("12:00", "a.txt", "10 B", "desk");
    assert!(log.contains("12:00") && log.contains("a.txt") && log.contains("desk"));
}

#[test]
fn a_digest_has_sixty_four_digits() {
    for data in [b"".to_vec(), b"abc".to_vec(), vec![7u8; 100_000]] {
        let whole = full_hash(&vec![Some(data.clone()), Some(Vec::new())]).unwrap();
        for d in [sha256_hex(&data), head_hash(&data), whole] {
            assert_eq!(d.chars().count(), 64);
            assert!(d.chars().all(|c| c.is_ascii_digit() || ('a'..='f').contains(&c)));
        }
    }
}
