//! The variant-catalog data set: the compressed variant file and its index,
//! each verified against a one-line checksum sidecar, and the release
//! version read from the archive's release notes.

use vstd::prelude::*;
use vstd::string::StringExecFns;
use crate::batch::OutcomeModel;
use crate::batch::VerificationOutcome;
use crate::checksum::{hash_bytes, hex_of, md5_of};
use crate::download::Download;
use crate::manifest::{bytes_eq, clone_bytes, tokenize, tokens_of, views_of};

verus! {

/// Which whitespace-separated token of the release notes names the release
/// version.
pub const VERSION_TOKEN: usize = 2;

/// The archive directory the variant catalog is served from.
pub open spec fn dbsnp_server_spec() -> Seq<char> {
    "https://ftp.ncbi.nih.gov/snp/latest_release/"@
}

/// The subdirectory of the archive that holds the variant files.
pub fn vcf_server() -> (r: Option<String>)
    ensures
        match r {
            Option::Some(s) => s@ == dbsnp_server_spec() + "VCF/"@,
            Option::None => false,
        },
{
    let base = String::from_str("https://ftp.ncbi.nih.gov/snp/latest_release/");
    Option::Some(base.concat("VCF/"))
}

/// The pair of fetch jobs for one checksummed file: the file itself and its
/// one-line checksum sidecar, named by appending `.md5`.
pub fn md5_dls(filename: String, server: String, localpath: String) -> (r: Option<
    (Download, Download),
>)
    ensures
        match r {
            Option::Some(pair) => {
                &&& pair.0@.filename == filename@
                &&& pair.0@.server == server@
                &&& pair.0@.localpath == localpath@
                &&& pair.1@.filename == filename@ + ".md5"@
                &&& pair.1@.server == server@
                &&& pair.1@.localpath == localpath@
            },
            Option::None => false,
        },
{
    let sidecar_name = filename.clone().concat(".md5");
    Option::Some(
        (
            Download::new(filename, server.clone(), localpath.clone()),
            Download::new(sidecar_name, server, localpath),
        ),
    )
}

/// The release version the notes announce: their third whitespace-separated
/// token, or `NA` when the notes are too short.
pub open spec fn version_of_notes(notes: Seq<u8>) -> Seq<u8> {
    if tokens_of(notes).len() > VERSION_TOKEN {
        tokens_of(notes)[VERSION_TOKEN as int]
    } else {
        seq![78u8, 65u8]
    }
}

/// Reads the release version out of downloaded release-notes text.
pub fn latest_release_from_notes(notes: &Vec<u8>) -> (r: Vec<u8>)
    ensures
        r@ == version_of_notes(notes@),
{
    let toks = tokenize(notes);
    if toks.len() > VERSION_TOKEN {
        assert(views_of(toks@)[VERSION_TOKEN as int] == toks@[VERSION_TOKEN as int]@);
        clone_bytes(&toks[VERSION_TOKEN])
    } else {
        let mut r: Vec<u8> = Vec::new();
        r.push(78);
        r.push(65);
        proof {
            assert(r@ =~= seq![78u8, 65u8]);
        }
        r
    }
}

/// The hash a one-line checksum sidecar records for `filename`: its first
/// token, provided its second token names exactly that file.
pub open spec fn sidecar_hash(filename: Seq<u8>, sidecar: Seq<u8>) -> Option<Seq<u8>> {
    let ts = tokens_of(sidecar);
    if ts.len() >= 2 && ts[1] == filename {
        Option::Some(ts[0])
    } else {
        Option::None
    }
}

/// Reads the expected hash for `filename` out of its sidecar's text;
/// nothing when the sidecar is malformed or names another file.
pub fn expected_hash_from_sidecar(filename: &Vec<u8>, sidecar: &Vec<u8>) -> (r: Option<Vec<u8>>)
    ensures
        match r {
            Option::Some(h) => sidecar_hash(filename@, sidecar@) == Option::Some(h@),
            Option::None => sidecar_hash(filename@, sidecar@) is None,
        },
{
    let toks = tokenize(sidecar);
    if toks.len() >= 2 {
        assert(views_of(toks@)[0] == toks@[0]@);
        assert(views_of(toks@)[1] == toks@[1]@);
        if bytes_eq(&toks[1], filename) {
            return Option::Some(clone_bytes(&toks[0]));
        }
    }
    Option::None
}

/// The verdict on one sidecar-checksummed file, as a function of the
/// filename, the sidecar text and the persisted content alone.
pub open spec fn sidecar_judge(filename: Seq<u8>, sidecar: Seq<u8>, content: Seq<u8>) -> OutcomeModel {
    match sidecar_hash(filename, sidecar) {
        Option::None => OutcomeModel::ManifestLookupFailed,
        Option::Some(expected) => if hex_of(md5_of(content)) == expected {
            OutcomeModel::Match
        } else {
            OutcomeModel::Mismatch { expected, actual: hex_of(md5_of(content)) }
        },
    }
}

/// Judges a persisted file against its one-line checksum sidecar: a
/// malformed or mismatched sidecar fails the lookup; otherwise the
/// content's hash is compared, case-sensitively, with the recorded one.
pub fn check_sidecar_content(filename: &Vec<u8>, sidecar: &Vec<u8>, content: &Vec<u8>) -> (r:
    VerificationOutcome)
    ensures
        r@ == sidecar_judge(filename@, sidecar@, content@),
{
    match expected_hash_from_sidecar(filename, sidecar) {
        Option::None => VerificationOutcome::ManifestLookupFailed,
        Option::Some(expected) => {
            let actual = hash_bytes(content);
            if bytes_eq(&actual, &expected) {
                VerificationOutcome::Match
            } else {
                VerificationOutcome::Mismatch { expected, actual }
            }
        },
    }
}

/// Whether a file must be fetched: when no local copy exists, or when a
/// fresh download is forced.
pub fn needs_transfer(is_local: bool, force: bool) -> (r: bool)
    ensures
        r == (!is_local || force),
{
    !is_local || force
}

} // verus!
