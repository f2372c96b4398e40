//! One backup attempt: an archive is compressed and addressed to the object
//! store, and the store's answer ends the attempt. Nothing is retried.

use vstd::prelude::*;

verus! {

/// Why a backup attempt failed, by the stage that failed.
#[derive(Debug)]
pub enum BackupError {
    /// The directory could not be turned into an artifact.
    Archive(String),
    /// The object store refused the artifact, or could not be reached.
    Upload(String),
}

impl BackupError {
    /// The message of the failure, without its stage.
    pub fn message(&self) -> (r: &String)
        ensures
            self matches BackupError::Archive(m) ==> *r == m,
            self matches BackupError::Upload(m) ==> *r == m,
    {
        match self {
            BackupError::Archive(m) => m,
            BackupError::Upload(m) => m,
        }
    }
}

/// What the object store is asked to keep. The object replaces any earlier
/// object of the same name in the bucket.
#[derive(Debug)]
pub struct UploadRequest {
    pub bucket: String,
    pub object_name: String,
    pub content_type: String,
    pub bytes: Vec<u8>,
}

/// The content type of every artifact.
pub open spec fn content_type() -> Seq<char> {
    "application/gzip"@
}

/// The request that stores `bytes` as `object_name` in `bucket`.
pub open spec fn stores(request: UploadRequest, bucket: Seq<char>, object_name: Seq<char>, bytes: Seq<u8>) -> bool {
    &&& request.bucket@ == bucket
    &&& request.object_name@ == object_name
    &&& request.content_type@ == content_type()
    &&& request.bytes@ == bytes
}

/// Ends a backup attempt with the object store's answer.
pub fn conclude_upload(answer: Result<(), String>) -> (r: Result<(), BackupError>)
    ensures
        answer is Ok ==> r is Ok,
        answer matches Err(message) ==> r == Err::<(), BackupError>(BackupError::Upload(message)),
{
    match answer {
        Ok(()) => Ok(()),
        Err(message) => Err(BackupError::Upload(message)),
    }
}

} // verus!
