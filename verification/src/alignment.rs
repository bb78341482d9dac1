//! The reference-alignment data set: the two aligned-reads files, their
//! index sidecars, and the checksum manifest that covers them. The batch
//! plan built here lists the manifest job first; the filenames the manifest
//! records carry a directory prefix distinct from the local storage prefix,
//! so lookups go through the manifest-relative key, never the local path.

use vstd::prelude::*;
use vstd::string::StringExecFns;
use crate::download::{Download, DownloadModel};

verus! {

/// The archive directory the alignment data set is served from.
pub open spec fn annot_server_spec() -> Seq<char> {
    "https://ftp.ncbi.nlm.nih.gov/genomes/refseq/vertebrate_mammalian/Homo_sapiens/reference/GCF_000001405.40_GRCh38.p14/"@
}

/// The local directory every file of the batch is persisted under.
pub open spec fn local_dir_spec() -> Seq<char> {
    "../downloads/"@
}

/// The subdirectory of the archive that holds the alignment files.
pub open spec fn annot_folder_spec() -> Seq<char> {
    annot_server_spec() + "RefSeq_transcripts_alignments/"@
}

/// The checksum manifest's own filename.
pub open spec fn md5_file_spec() -> Seq<char> {
    "md5checksums.txt"@
}

/// The aligned-reads file over the known RefSeq transcripts.
pub open spec fn known_file_spec() -> Seq<char> {
    "GCF_000001405.40_GRCh38.p14_knownrefseq_alns.bam"@
}

/// The aligned-reads file over the model RefSeq transcripts.
pub open spec fn model_file_spec() -> Seq<char> {
    "GCF_000001405.40_GRCh38.p14_modelrefseq_alns.bam"@
}

/// The directory prefix under which the manifest records the alignment
/// files — distinct from the local storage prefix.
pub open spec fn manifest_prefix_spec() -> Seq<char> {
    "./RefSeq_transcripts_alignments/"@
}

/// The batch plan for the alignment data set: the manifest job first, then
/// the two aligned-reads files and their index sidecars.
pub open spec fn alignment_jobs() -> Seq<DownloadModel> {
    seq![
        DownloadModel {
            filename: md5_file_spec(),
            server: annot_server_spec(),
            localpath: local_dir_spec(),
        },
        DownloadModel {
            filename: known_file_spec(),
            server: annot_folder_spec(),
            localpath: local_dir_spec(),
        },
        DownloadModel {
            filename: known_file_spec() + ".bai"@,
            server: annot_folder_spec(),
            localpath: local_dir_spec(),
        },
        DownloadModel {
            filename: model_file_spec(),
            server: annot_folder_spec(),
            localpath: local_dir_spec(),
        },
        DownloadModel {
            filename: model_file_spec() + ".bai"@,
            server: annot_folder_spec(),
            localpath: local_dir_spec(),
        },
    ]
}

/// The subdirectory of the archive that holds the alignment files.
pub fn annot_folder() -> (r: Option<String>)
    ensures
        match r {
            Option::Some(s) => s@ == annot_folder_spec(),
            Option::None => false,
        },
{
    let base = String::from_str(
        "https://ftp.ncbi.nlm.nih.gov/genomes/refseq/vertebrate_mammalian/Homo_sapiens/reference/GCF_000001405.40_GRCh38.p14/",
    );
    Option::Some(base.concat("RefSeq_transcripts_alignments/"))
}

/// The five fetch jobs of the alignment data set, manifest job first.
pub fn annot_dls() -> (r: Option<Vec<Download>>)
    ensures
        match r {
            Option::Some(v) => v@.map_values(|d: Download| d@) == alignment_jobs(),
            Option::None => false,
        },
{
    let server = String::from_str(
        "https://ftp.ncbi.nlm.nih.gov/genomes/refseq/vertebrate_mammalian/Homo_sapiens/reference/GCF_000001405.40_GRCh38.p14/",
    );
    let local = String::from_str("../downloads/");
    let folder = match annot_folder() {
        Option::Some(f) => f,
        Option::None => {
            return Option::None;
        },
    };
    let known = String::from_str("GCF_000001405.40_GRCh38.p14_knownrefseq_alns.bam");
    let model = String::from_str("GCF_000001405.40_GRCh38.p14_modelrefseq_alns.bam");
    let known_bai = known.clone().concat(".bai");
    let model_bai = model.clone().concat(".bai");
    let mut v: Vec<Download> = Vec::new();
    v.push(Download::new(String::from_str("md5checksums.txt"), server, local.clone()));
    v.push(Download::new(known, folder.clone(), local.clone()));
    v.push(Download::new(known_bai, folder.clone(), local.clone()));
    v.push(Download::new(model, folder.clone(), local.clone()));
    v.push(Download::new(model_bai, folder, local));
    proof {
        assert(v@.map_values(|d: Download| d@) =~= alignment_jobs());
    }
    Option::Some(v)
}

/// The filename under which the manifest records an alignment file: the
/// manifest-relative prefix followed by the bare filename. Callers query
/// the manifest with this key, never with the local path.
pub fn manifest_key(filename: &String) -> (r: String)
    ensures
        r@ == manifest_prefix_spec() + filename@,
{
    String::from_str("./RefSeq_transcripts_alignments/").concat(filename.as_str())
}

/// The two aligned-reads files of the reference data set, under their local
/// paths.
pub struct Alignments {
    pub modelfile: String,
    pub knownfile: String,
}

impl Alignments {
    /// The pair of local paths the aligned-reads files live under.
    pub fn new(modelfile: String, knownfile: String) -> (r: Alignments)
        ensures
            r.modelfile@ == modelfile@,
            r.knownfile@ == knownfile@,
    {
        Alignments { modelfile, knownfile }
    }

    /// Nothing to prepare before a batch; kept for callers that expect the
    /// step.
    pub fn check_files(&self) {
    }

    /// The batch plan that fetches the alignment data set: one job per
    /// file, manifest job first.
    pub fn download_files(&self) -> (r: Vec<Download>)
        ensures
            r@.map_values(|d: Download| d@) == alignment_jobs(),
    {
        match annot_dls() {
            Option::Some(v) => v,
            Option::None => {
                proof {
                    assert(false);
                }
                Vec::new()
            },
        }
    }
}

} // verus!
