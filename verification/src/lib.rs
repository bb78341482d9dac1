//! Verified core of a reference-data fetcher: checksum-manifest parsing,
//! streaming content hashing, per-job progress accounting, and the
//! download-and-verify batch coordinator. Network and filesystem work is
//! done by the surrounding application, which hands this library plain
//! values and takes plain values back.

pub mod alignment;
pub mod batch;
pub mod dbsnp;
pub mod checksum;
pub mod download;
pub mod manifest;
pub mod progress;
