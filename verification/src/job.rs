//! The backup job: one directory, one bucket, one object name, one trigger.

use vstd::prelude::*;
use crate::archive::{gzip_compress, gzip_of};
use crate::pipeline::{stores, BackupError, UploadRequest};
use crate::kinds::default_kinds;
use crate::trigger::{starts, Action, BackupTrigger, TriggerEngine, DEBOUNCE_WINDOW};

verus! {

/// The object name of a job that names none.
pub open spec fn default_backup_name() -> Seq<char> {
    "backup"@
}

/// A backup job. Nothing in it changes once it is built.
#[derive(Clone, Debug)]
pub struct Backuplit {
    bucket_name: String,
    dir_path: String,
    backup_name: String,
    backup_trigger: BackupTrigger,
}

impl Backuplit {
    pub closed spec fn spec_bucket_name(self) -> Seq<char> {
        self.bucket_name@
    }

    pub closed spec fn spec_dir_path(self) -> Seq<char> {
        self.dir_path@
    }

    pub closed spec fn spec_backup_name(self) -> Seq<char> {
        self.backup_name@
    }

    pub closed spec fn spec_backup_trigger(self) -> BackupTrigger {
        self.backup_trigger
    }

    /// The bucket that receives the object.
    pub fn bucket_name(&self) -> (r: &String)
        ensures
            r@ == self.spec_bucket_name(),
    {
        &self.bucket_name
    }

    /// The directory that is archived.
    pub fn dir_path(&self) -> (r: &String)
        ensures
            r@ == self.spec_dir_path(),
    {
        &self.dir_path
    }

    /// The name of the object, and of the archive's single top-level entry.
    pub fn backup_name(&self) -> (r: &String)
        ensures
            r@ == self.spec_backup_name(),
    {
        &self.backup_name
    }

    pub fn backup_trigger(&self) -> (r: &BackupTrigger)
        ensures
            *r == self.spec_backup_trigger(),
    {
        &self.backup_trigger
    }

    /// The upload of an artifact, or the archive error when there is none:
    /// the request goes to the job's bucket under the job's object name and
    /// holds the artifact's bytes, whatever was uploaded before.
    pub fn upload_request(&self, artifact: Result<Vec<u8>, String>) -> (r: Result<
        UploadRequest,
        BackupError,
    >)
        ensures
            artifact matches Ok(bytes) ==> r matches Ok(request) && stores(
                request,
                self.spec_bucket_name(),
                self.spec_backup_name(),
                bytes@,
            ),
            artifact matches Err(message) ==> r == Err::<UploadRequest, BackupError>(
                BackupError::Archive(message),
            ),
    {
        match artifact {
            Ok(bytes) => Ok(
                UploadRequest {
                    bucket: self.bucket_name.clone(),
                    object_name: self.backup_name.clone(),
                    content_type: "application/gzip".to_owned(),
                    bytes,
                },
            ),
            Err(message) => Err(BackupError::Archive(message)),
        }
    }

    /// One backup attempt, from the archive of the directory to the upload
    /// that the driver sends. `archived` is the tar archive of the directory
    /// under one top-level entry named by the job's object name, or the
    /// reason why the directory could not be read.
    ///
    /// A directory that could not be read gives that archive error, and no
    /// request. An archive that has a gzip stream gives the upload of that
    /// stream to the job's bucket under the job's object name; one without
    /// gives an archive error.
    pub fn backup_directory_contents(&self, archived: Result<Vec<u8>, String>) -> (r: Result<
        UploadRequest,
        BackupError,
    >)
        ensures
            archived matches Err(message) ==> r == Err::<UploadRequest, BackupError>(
                BackupError::Archive(message),
            ),
            archived matches Ok(tar) ==> match gzip_of(tar@) {
                Some(stream) => r matches Ok(request) && stores(
                    request,
                    self.spec_bucket_name(),
                    self.spec_backup_name(),
                    stream,
                ),
                None => r matches Err(error) && error is Archive,
            },
    {
        match archived {
            Ok(tar) => self.upload_request(gzip_compress(&tar)),
            Err(message) => Err(BackupError::Archive(message)),
        }
    }

    /// Selects the job's trigger policy and starts it. The engine that comes
    /// back runs until it stops with an error.
    pub fn watch(&self) -> (r: (TriggerEngine, Action))
        ensures
            starts(self.spec_backup_trigger(), r.0, r.1),
            r.0.wf(),
    {
        TriggerEngine::start(&self.backup_trigger)
    }
}

/// The parts of a job, set one by one.
#[derive(Debug)]
pub struct BackuplitBuilder {
    pub dir_path: String,
    pub bucket_name: String,
    pub backup_name: String,
    pub backup_trigger: BackupTrigger,
}

impl BackuplitBuilder {
    /// Every part is as `new` leaves it: the three texts empty, the trigger
    /// the default one.
    pub open spec fn is_fresh(self) -> bool {
        &&& self.dir_path@ == Seq::<char>::empty()
        &&& self.bucket_name@ == Seq::<char>::empty()
        &&& self.backup_name@ == Seq::<char>::empty()
        &&& self.backup_trigger matches BackupTrigger::EventMasks(kinds, window)
        &&& kinds@ == default_kinds()
        &&& window == DEBOUNCE_WINDOW
    }

    /// A builder with an empty path, an empty bucket name, no object name,
    /// and the default trigger.
    pub fn new() -> (r: Self)
        ensures
            r.is_fresh(),
    {
        Self {
            dir_path: String::new(),
            backup_name: String::new(),
            bucket_name: String::new(),
            backup_trigger: BackupTrigger::default(),
        }
    }

    pub fn dir_path(self, dir_path: String) -> (r: Self)
        ensures
            r == (BackuplitBuilder { dir_path, ..self }),
    {
        let mut builder = self;
        builder.dir_path = dir_path;
        builder
    }

    pub fn backup_name(self, backup_name: String) -> (r: Self)
        ensures
            r == (BackuplitBuilder { backup_name, ..self }),
    {
        let mut builder = self;
        builder.backup_name = backup_name;
        builder
    }

    pub fn bucket_name(self, bucket_name: String) -> (r: Self)
        ensures
            r == (BackuplitBuilder { bucket_name, ..self }),
    {
        let mut builder = self;
        builder.bucket_name = bucket_name;
        builder
    }

    pub fn backup_trigger(self, trigger: BackupTrigger) -> (r: Self)
        ensures
            r == (BackuplitBuilder { backup_trigger: trigger, ..self }),
    {
        let mut builder = self;
        builder.backup_trigger = trigger;
        builder
    }

    /// The job with the builder's parts. A job that names no object is
    /// stored as `backup`.
    pub fn build(self) -> (r: Backuplit)
        ensures
            r.spec_dir_path() == self.dir_path@,
            r.spec_bucket_name() == self.bucket_name@,
            r.spec_backup_trigger() == self.backup_trigger,
            r.spec_backup_name() == if self.backup_name@.len() == 0 {
                default_backup_name()
            } else {
                self.backup_name@
            },
    {
        let backup_name = if self.backup_name.as_str().is_empty() {
            "backup".to_owned()
        } else {
            self.backup_name
        };
        Backuplit {
            bucket_name: self.bucket_name,
            dir_path: self.dir_path,
            backup_name,
            backup_trigger: self.backup_trigger,
        }
    }
}

impl Default for BackuplitBuilder {
    fn default() -> (r: Self)
        ensures
            r.is_fresh(),
    {
        Self::new()
    }
}

} // verus!
