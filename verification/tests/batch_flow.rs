use reffetch::alignment::{annot_dls, annot_folder, manifest_key, Alignments};
use reffetch::batch::{run_batch, verify_job, BatchJob, TransferError, VerificationOutcome};
use reffetch::dbsnp::{
    check_sidecar_content, expected_hash_from_sidecar, latest_release_from_notes, md5_dls,
    needs_transfer, vcf_server,
};
use reffetch::download::Download;
use reffetch::manifest::Manifest;
use reffetch::progress::{ProgressSink, ProgressTracker};

fn ok_job(key: &[u8], content: &[u8]) -> BatchJob {
    BatchJob { manifest_key: key.to_vec(), fetched: Ok(content.to_vec()) }
}

fn failed_job(key: &[u8], cause: TransferError) -> BatchJob {
    BatchJob { manifest_key: key.to_vec(), fetched: Err(cause) }
}

#[test]
fn empty_file_yields_match_against_its_manifest_line() {
    let text = b"d41d8cd98f00b204e9800998ecf8427e  empty.bam\n".to_vec();
    let jobs = vec![ok_job(b"empty.bam", b"")];
    let mut sink = ProgressSink::new();
    let r = run_batch(&text, &jobs, &mut sink);
    assert_eq!(r.outcomes, vec![VerificationOutcome::Match]);
    assert!(r.success());
}

#[test]
fn failed_transfer_is_reported_as_transfer_failed_not_mismatch() {
    let text = b"deadbeef  missing.bam\n".to_vec();
    let jobs = vec![failed_job(b"missing.bam", TransferError::Network)];
    let mut sink = ProgressSink::new();
    let r = run_batch(&text, &jobs, &mut sink);
    assert_eq!(
        r.outcomes,
        vec![VerificationOutcome::TransferFailed { cause: TransferError::Network }]
    );
    assert!(!r.success());
}

#[test]
fn one_failing_and_one_healthy_job_fail_the_batch_together() {
    let text = b"d41d8cd98f00b204e9800998ecf8427e  empty.bam\ndeadbeef  broken.bam\n".to_vec();
    let jobs = vec![
        failed_job(b"broken.bam", TransferError::Network),
        ok_job(b"empty.bam", b""),
    ];
    let mut sink = ProgressSink::new();
    let r = run_batch(&text, &jobs, &mut sink);
    assert_eq!(
        r.outcomes,
        vec![
            VerificationOutcome::TransferFailed { cause: TransferError::Network },
            VerificationOutcome::Match,
        ]
    );
    assert!(!r.success());
}

#[test]
fn wrong_content_yields_mismatch_with_both_hashes() {
    let text = b"deadbeef  empty.bam\n".to_vec();
    let jobs = vec![ok_job(b"empty.bam", b"")];
    let mut sink = ProgressSink::new();
    let r = run_batch(&text, &jobs, &mut sink);
    assert_eq!(
        r.outcomes,
        vec![VerificationOutcome::Mismatch {
            expected: b"deadbeef".to_vec(),
            actual: b"d41d8cd98f00b204e9800998ecf8427e".to_vec(),
        }]
    );
    assert!(!r.success());
}

#[test]
fn filename_absent_from_manifest_fails_the_lookup() {
    let text = b"d41d8cd98f00b204e9800998ecf8427e  empty.bam\n".to_vec();
    let jobs = vec![ok_job(b"unlisted.bam", b"")];
    let mut sink = ProgressSink::new();
    let r = run_batch(&text, &jobs, &mut sink);
    assert_eq!(r.outcomes, vec![VerificationOutcome::ManifestLookupFailed]);
    assert!(!r.success());
}

#[test]
fn rerunning_a_verified_batch_is_stable() {
    let text = b"d41d8cd98f00b204e9800998ecf8427e  empty.bam\n900150983cd24fb0d6963f7d28e17f72  abc.bam\n"
        .to_vec();
    let jobs1 = vec![ok_job(b"empty.bam", b""), ok_job(b"abc.bam", b"abc")];
    let jobs2 = vec![ok_job(b"empty.bam", b""), ok_job(b"abc.bam", b"abc")];
    let mut sink = ProgressSink::new();
    let first = run_batch(&text, &jobs1, &mut sink);
    let second = run_batch(&text, &jobs2, &mut sink);
    assert_eq!(first.outcomes, second.outcomes);
    assert!(first.success());
    assert!(second.success());
}

#[test]
fn empty_batch_succeeds_vacuously() {
    let text = b"".to_vec();
    let jobs: Vec<BatchJob> = Vec::new();
    let mut sink = ProgressSink::new();
    let r = run_batch(&text, &jobs, &mut sink);
    assert_eq!(r.outcomes.len(), 0);
    assert!(r.success());
}

#[test]
fn verify_job_leaves_failed_transfer_tracker_untouched() {
    let text = b"aaaa  a.bam\n".to_vec();
    let m = Manifest::parse(&text);
    let mut tracker = ProgressTracker::new(0);
    let o = verify_job(
        &m,
        &failed_job(b"a.bam", TransferError::Filesystem),
        &mut tracker,
    );
    assert_eq!(
        o,
        VerificationOutcome::TransferFailed { cause: TransferError::Filesystem }
    );
    assert_eq!(tracker.transferred_bytes, 0);
}

#[test]
fn download_paths_concatenate_prefix_and_filename() {
    let dl = Download::new(
        "file.bam".to_string(),
        "https://server/dir/".to_string(),
        "local/".to_string(),
    );
    assert_eq!(dl.localfile(), Some("local/file.bam".to_string()));
    assert_eq!(dl.serverfile(), Some("https://server/dir/file.bam".to_string()));
    assert_eq!(
        dl.is_local(),
        Some(false),
        "a path under a directory that does not exist has no local copy"
    );
}

#[test]
fn alignment_plan_lists_manifest_job_first() {
    let dls = annot_dls().unwrap();
    assert_eq!(dls.len(), 5);
    assert_eq!(dls[0].filename, "md5checksums.txt");
    assert_eq!(dls[0].localpath, "../downloads/");
    let folder = annot_folder().unwrap();
    assert_eq!(
        dls[1].filename,
        "GCF_000001405.40_GRCh38.p14_knownrefseq_alns.bam"
    );
    assert_eq!(dls[1].server, folder);
    assert_eq!(
        dls[2].filename,
        "GCF_000001405.40_GRCh38.p14_knownrefseq_alns.bam.bai"
    );
    assert_eq!(
        dls[3].filename,
        "GCF_000001405.40_GRCh38.p14_modelrefseq_alns.bam"
    );
    assert_eq!(
        dls[4].filename,
        "GCF_000001405.40_GRCh38.p14_modelrefseq_alns.bam.bai"
    );
    let al = Alignments::new("m.bam".to_string(), "k.bam".to_string());
    al.check_files();
    let plan = al.download_files();
    assert_eq!(plan.len(), 5);
    assert_eq!(plan[0].filename, dls[0].filename);
}

#[test]
fn manifest_key_carries_the_manifest_relative_prefix() {
    let key = manifest_key(&"x.bam".to_string());
    assert_eq!(key, "./RefSeq_transcripts_alignments/x.bam");
}

#[test]
fn alignment_manifest_lookup_uses_manifest_relative_path() {
    let text = b"aaaa  ./RefSeq_transcripts_alignments/x.bam\n".to_vec();
    let m = Manifest::parse(&text);
    let key = manifest_key(&"x.bam".to_string());
    assert_eq!(
        m.lookup(&key.into_bytes()),
        Some(b"aaaa".to_vec()),
        "lookup goes by the path as recorded in the manifest, not the local path"
    );
    assert_eq!(m.lookup(&b"x.bam".to_vec()), None);
}

#[test]
fn vcf_server_appends_the_vcf_folder() {
    assert_eq!(
        vcf_server(),
        Some("https://ftp.ncbi.nih.gov/snp/latest_release/VCF/".to_string())
    );
}

#[test]
fn md5_dls_pairs_a_file_with_its_sidecar() {
    let (dl, dl_md5) = md5_dls(
        "GCF_000001405.40.gz".to_string(),
        "https://server/VCF/".to_string(),
        "local/".to_string(),
    )
    .unwrap();
    assert_eq!(dl.filename, "GCF_000001405.40.gz");
    assert_eq!(dl_md5.filename, "GCF_000001405.40.gz.md5");
    assert_eq!(dl.server, dl_md5.server);
    assert_eq!(dl.localpath, dl_md5.localpath);
}

#[test]
fn release_version_is_third_token_or_na() {
    let notes = b"dbSNP build 156 released today\n".to_vec();
    assert_eq!(latest_release_from_notes(&notes), b"156".to_vec());
    let short = b"dbSNP build\n".to_vec();
    assert_eq!(latest_release_from_notes(&short), b"NA".to_vec());
}

#[test]
fn sidecar_hash_requires_the_matching_filename() {
    let sidecar = b"abc123  file.gz\n".to_vec();
    assert_eq!(
        expected_hash_from_sidecar(&b"file.gz".to_vec(), &sidecar),
        Some(b"abc123".to_vec())
    );
    assert_eq!(expected_hash_from_sidecar(&b"other.gz".to_vec(), &sidecar), None);
    assert_eq!(expected_hash_from_sidecar(&b"file.gz".to_vec(), &b"onlyhash\n".to_vec()), None);
}

#[test]
fn sidecar_check_matches_empty_file_hash() {
    let sidecar = b"d41d8cd98f00b204e9800998ecf8427e  empty.gz\n".to_vec();
    let o = check_sidecar_content(&b"empty.gz".to_vec(), &sidecar, &Vec::new());
    assert_eq!(o, VerificationOutcome::Match);
    let wrong = check_sidecar_content(&b"empty.gz".to_vec(), &sidecar, &b"x".to_vec());
    assert!(matches!(wrong, VerificationOutcome::Mismatch { .. }));
    let unnamed = check_sidecar_content(&b"other.gz".to_vec(), &sidecar, &Vec::new());
    assert_eq!(unnamed, VerificationOutcome::ManifestLookupFailed);
}

#[test]
fn transfer_is_needed_without_local_copy_or_when_forced() {
    assert!(needs_transfer(false, false));
    assert!(needs_transfer(false, true));
    assert!(needs_transfer(true, true));
    assert!(!needs_transfer(true, false));
}
