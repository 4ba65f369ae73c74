//! What the command line asks for.

use crate::object_record::SortDirection;
use crate::upload_files::DEFAULT_CHUNK_SIZE;
use vstd::prelude::*;

verus! {

/// The operation that is asked for.
#[derive(Clone, Copy, Debug, PartialEq, Eq, Structural)]
pub enum Operation {
    List,
    Upload,
    Download,
    Delete,
    CopySingle,
    MoveSingle,
    CopyMultiple,
    MoveMultiple,
    ListBuckets,
    CreateBucket,
    DeleteBucket,
    CopyBucketToBucket,
    ListObjectVersions,
    UploadInChunks,
}

/// The arguments of one invocation.
#[derive(Clone, Debug)]
pub struct Cli {
    /// The region, like `us-west-2` or `eu-central-1`.
    pub region: String,
    /// The glob pattern of the files to upload, like `*.zip`.
    pub glob_pattern: Option<String>,
    /// The regular expression that filters the listed keys, like `.+\.zip`.
    pub list_regex_pattern: Option<String>,
    /// The bucket.
    pub bucket: Option<String>,
    /// The target bucket for operations between buckets.
    pub target_bucket: Option<String>,
    /// The key prefix under which files are uploaded, and the folder into
    /// which objects are downloaded.
    pub target_folder: Option<String>,
    /// The operation.
    pub mode: Operation,
    /// The separator between the fields of an object's line.
    pub sep: Option<String>,
    /// Whether listed objects are ordered oldest first.
    pub asc: Option<bool>,
    /// The source key of a copy or a move.
    pub source_key: Option<String>,
    /// The target key of a copy or a move.
    pub target_key: Option<String>,
    /// Whether uploaded and downloaded files lose their folders.
    pub flatten: bool,
    /// Whether buckets are listed for the region only.
    pub strict_bucket: bool,
    /// The file that is uploaded in chunks.
    pub upload_file: Option<String>,
    /// The size of a chunk, in MiB.
    pub chunk_size: Option<u64>,
}

/// The number of bytes in one MiB.
pub const BYTES_PER_MIB: u64 = 1048576;

impl Cli {
    /// The chunk size in MiB: the one that is given, or
    /// [`DEFAULT_CHUNK_SIZE`].
    pub open spec fn chunk_size_mib(&self) -> u64 {
        match self.chunk_size {
            Some(size) => size,
            None => DEFAULT_CHUNK_SIZE,
        }
    }

    /// The direction in which listed objects are ordered: oldest first,
    /// unless the flag is given and false.
    pub fn sort_direction(&self) -> (direction: SortDirection)
        ensures
            direction == SortDirection::spec_from_flag(self.asc),
    {
        SortDirection::from_flag(self.asc)
    }

    /// The size of a chunk in bytes.
    pub fn chunk_size_bytes(&self) -> (bytes: u64)
        requires
            self.chunk_size_mib() * BYTES_PER_MIB <= u64::MAX,
        ensures
            bytes == self.chunk_size_mib() * BYTES_PER_MIB,
    {
        let chunk_size: u64 = match self.chunk_size {
            Some(size) => size,
            None => DEFAULT_CHUNK_SIZE,
        };
        chunk_size * BYTES_PER_MIB
    }

    /// Whether the invocation names a bucket to work on.
    pub fn names_bucket(&self) -> (named: bool)
        ensures
            named == self.bucket is Some,
    {
        self.bucket.is_some()
    }
}

} // verus!
