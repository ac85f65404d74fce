//! Disk image provisioning: mount an image, copy what it holds, and always clean up.
//!
//! An extraction is a state machine. Its phase names the action the caller
//! performs next (write the image file, create the mount point, attach, clear
//! the destination, copy, detach, remove the mount point, remove the image
//! file); the caller reports whether the action succeeded, and `advance` moves
//! the extraction on. Every run ends with the clean-up actions, and clean-up
//! failures never replace the primary result.
use vstd::prelude::*;
use crate::model::HostOs;
use crate::paths::{file_name_of, join_path, path_file_name, path_join};
use crate::session::{texts, LaunchCommand};
use crate::text::owned;

verus! {

/// Extracts the content of disk images into a target directory.
#[derive(Clone, Copy, Debug, PartialEq, Eq, Structural, Default)]
pub struct DmgExtractor;

/// Why an extraction failed.
#[derive(Clone, Debug)]
pub enum ExtractError {
    /// The host has no native disk-image support.
    Unsupported,
    /// The image could not be written to its temporary file.
    WriteFailed(String),
    /// The image could not be mounted.
    MountFailed(String),
    /// The content could not be copied out of the mounted image.
    CopyFailed(String),
}

impl ExtractError {
    /// A copy of the error.
    pub fn duplicate(&self) -> (r: ExtractError)
        ensures
            r == *self,
    {
        match self {
            ExtractError::Unsupported => ExtractError::Unsupported,
            ExtractError::WriteFailed(m) => ExtractError::WriteFailed(m.clone()),
            ExtractError::MountFailed(m) => ExtractError::MountFailed(m.clone()),
            ExtractError::CopyFailed(m) => ExtractError::CopyFailed(m.clone()),
        }
    }
}

/// The action an extraction waits on.
#[derive(Clone, Copy, Debug, PartialEq, Eq, Structural)]
pub enum ExtractPhase {
    /// Write the image bytes to `image_path`.
    WriteImage,
    /// Create the directory `mount_point`.
    CreateMountPoint,
    /// Attach the image read-only, without browsing, at `mount_point`.
    Attach,
    /// Remove an existing entry at `destination`: a symbolic link as a file, anything else recursively.
    ClearDestination,
    /// Copy `source` recursively into `target_dir`.
    Copy,
    /// Detach the image from `mount_point`.
    Detach,
    /// Remove the directory `mount_point`.
    RemoveMountPoint,
    /// Remove the file `image_path`.
    RemoveImage,
    /// The extraction is over; `result` gives its outcome.
    Finished,
}

/// A running extraction of one disk image.
#[derive(Clone, Debug)]
pub struct Extraction {
    pub image_path: String,
    pub mount_point: String,
    pub source: String,
    pub target_dir: String,
    pub destination: Option<String>,
    pub phase: ExtractPhase,
    pub failure: Option<ExtractError>,
}

/// Temporary image file for the identifier `id`.
pub open spec fn image_path_for(temp_dir: Seq<char>, id: Seq<char>) -> Seq<char> {
    path_join(temp_dir, id + ".dmg"@)
}

/// Temporary mount point for the identifier `id`.
pub open spec fn mount_point_for(temp_dir: Seq<char>, id: Seq<char>) -> Seq<char> {
    path_join(temp_dir, "mnt_"@ + id)
}

/// What is copied: the given path inside the mount point, or the whole mount point.
pub open spec fn source_for(mount_point: Seq<char>, source_path: Option<Seq<char>>) -> Seq<char> {
    match source_path {
        Some(p) => path_join(mount_point, p),
        None => mount_point,
    }
}

/// The entry in the target directory that the copy of `source` creates.
pub open spec fn destination_for(target_dir: Seq<char>, source: Seq<char>) -> Option<Seq<char>> {
    match path_file_name(source) {
        Some(n) => Some(path_join(target_dir, n)),
        None => None,
    }
}

/// The view of an optional text.
pub open spec fn opt_text(o: Option<&str>) -> Option<Seq<char>> {
    match o {
        Some(s) => Some(s@),
        None => None,
    }
}

/// Relies on `uuid::Uuid::new_v4`: a fresh random identifier in its text form,
/// so that concurrent extractions use distinct temporary names.
#[verifier::external_body]
fn new_image_id() -> (r: String) {
    uuid::Uuid::new_v4().to_string()
}

impl DmgExtractor {
    pub fn new() -> (r: Self) {
        DmgExtractor
    }

    /// Starts the extraction of an image into `target_dir`, with temporary files
    /// under `temp_dir`. A host without disk-image support fails at once, before
    /// any action.
    pub fn extract_all(&self, host: HostOs, temp_dir: &str, target_dir: &str, source_path: Option<&str>) -> (r: Result<Extraction, ExtractError>)
        ensures
            host != HostOs::Macos <==> r is Err,
            r is Err ==> r->Err_0 is Unsupported,
            r is Ok ==> r->Ok_0.wf() && r->Ok_0.phase == ExtractPhase::WriteImage,
            r is Ok ==> r->Ok_0.target_dir@ == target_dir@,
            r is Ok ==> r->Ok_0.failure is None,
            r is Ok ==> exists|id: Seq<char>|
                r->Ok_0.image_path@ == image_path_for(temp_dir@, id)
                && r->Ok_0.mount_point@ == mount_point_for(temp_dir@, id),
            r is Ok ==> r->Ok_0.source@ == source_for(r->Ok_0.mount_point@, opt_text(source_path)),
    {
        if host != HostOs::Macos {
            return Err(ExtractError::Unsupported);
        }
        let id = new_image_id();
        Ok(Extraction::with_id(temp_dir, id.as_str(), target_dir, source_path))
    }
}

impl Extraction {
    /// The paths hang together as `with_id` computes them, and no failure is
    /// recorded before the image is mounted.
    pub open spec fn wf(self) -> bool {
        &&& self.destination is Some <==> destination_for(self.target_dir@, self.source@) is Some
        &&& self.destination is Some ==> self.destination->0@ == destination_for(self.target_dir@, self.source@)->0
        &&& (self.phase == ExtractPhase::WriteImage || self.phase == ExtractPhase::CreateMountPoint
            || self.phase == ExtractPhase::Attach || self.phase == ExtractPhase::ClearDestination
            || self.phase == ExtractPhase::Copy) ==> self.failure is None
    }

    pub open spec fn with(self, phase: ExtractPhase, failure: Option<ExtractError>) -> Extraction {
        Extraction {
            image_path: self.image_path,
            mount_point: self.mount_point,
            source: self.source,
            target_dir: self.target_dir,
            destination: self.destination,
            phase,
            failure,
        }
    }

    /// The extraction after the current action ended with `outcome`.
    pub open spec fn next(self, outcome: Result<(), String>) -> Extraction {
        match self.phase {
            ExtractPhase::WriteImage => match outcome {
                Ok(()) => self.with(ExtractPhase::CreateMountPoint, self.failure),
                Err(m) => self.with(ExtractPhase::RemoveImage, Some(ExtractError::WriteFailed(m))),
            },
            ExtractPhase::CreateMountPoint => match outcome {
                Ok(()) => self.with(ExtractPhase::Attach, self.failure),
                Err(m) => self.with(ExtractPhase::RemoveMountPoint, Some(ExtractError::MountFailed(m))),
            },
            ExtractPhase::Attach => match outcome {
                Ok(()) => if self.destination is Some {
                    self.with(ExtractPhase::ClearDestination, self.failure)
                } else {
                    self.with(ExtractPhase::Copy, self.failure)
                },
                Err(m) => self.with(ExtractPhase::RemoveMountPoint, Some(ExtractError::MountFailed(m))),
            },
            ExtractPhase::ClearDestination => self.with(ExtractPhase::Copy, self.failure),
            ExtractPhase::Copy => match outcome {
                Ok(()) => self.with(ExtractPhase::Detach, self.failure),
                Err(m) => self.with(ExtractPhase::Detach, Some(ExtractError::CopyFailed(m))),
            },
            ExtractPhase::Detach => self.with(ExtractPhase::RemoveMountPoint, self.failure),
            ExtractPhase::RemoveMountPoint => self.with(ExtractPhase::RemoveImage, self.failure),
            ExtractPhase::RemoveImage => self.with(ExtractPhase::Finished, self.failure),
            ExtractPhase::Finished => self,
        }
    }

    /// The extraction after a sequence of outcomes.
    pub open spec fn run(self, outcomes: Seq<Result<(), String>>) -> Extraction
        decreases outcomes.len(),
    {
        if outcomes.len() == 0 {
            self
        } else {
            self.next(outcomes[0]).run(outcomes.drop_first())
        }
    }

    /// The extraction of an image with the temporary identifier `id`.
    pub fn with_id(temp_dir: &str, id: &str, target_dir: &str, source_path: Option<&str>) -> (r: Extraction)
        ensures
            r.wf(),
            r.phase == ExtractPhase::WriteImage,
            r.failure is None,
            r.image_path@ == image_path_for(temp_dir@, id@),
            r.mount_point@ == mount_point_for(temp_dir@, id@),
            r.source@ == source_for(r.mount_point@, opt_text(source_path)),
            r.target_dir@ == target_dir@,
    {
        let image_name = owned(id).concat(".dmg");
        let mount_name = owned("mnt_").concat(id);
        let image_path = join_path(temp_dir, image_name.as_str());
        let mount_point = join_path(temp_dir, mount_name.as_str());
        let source = match source_path {
            Some(p) => join_path(mount_point.as_str(), p),
            None => mount_point.clone(),
        };
        let destination = match file_name_of(source.as_str()) {
            Some(n) => Some(join_path(target_dir, n.as_str())),
            None => None,
        };
        Extraction {
            image_path,
            mount_point,
            source,
            target_dir: owned(target_dir),
            destination,
            phase: ExtractPhase::WriteImage,
            failure: None,
        }
    }

    /// Moves the extraction on from the outcome of the current action.
    pub fn advance(&mut self, outcome: Result<(), String>)
        requires
            old(self).wf(),
        ensures
            *final(self) == old(self).next(outcome),
            final(self).wf(),
    {
        match self.phase {
            ExtractPhase::WriteImage => match outcome {
                Ok(()) => {
                    self.phase = ExtractPhase::CreateMountPoint;
                },
                Err(m) => {
                    self.phase = ExtractPhase::RemoveImage;
                    self.failure = Some(ExtractError::WriteFailed(m));
                },
            },
            ExtractPhase::CreateMountPoint => match outcome {
                Ok(()) => {
                    self.phase = ExtractPhase::Attach;
                },
                Err(m) => {
                    self.phase = ExtractPhase::RemoveMountPoint;
                    self.failure = Some(ExtractError::MountFailed(m));
                },
            },
            ExtractPhase::Attach => match outcome {
                Ok(()) => {
                    if self.destination.is_some() {
                        self.phase = ExtractPhase::ClearDestination;
                    } else {
                        self.phase = ExtractPhase::Copy;
                    }
                },
                Err(m) => {
                    self.phase = ExtractPhase::RemoveMountPoint;
                    self.failure = Some(ExtractError::MountFailed(m));
                },
            },
            ExtractPhase::ClearDestination => {
                self.phase = ExtractPhase::Copy;
            },
            ExtractPhase::Copy => match outcome {
                Ok(()) => {
                    self.phase = ExtractPhase::Detach;
                },
                Err(m) => {
                    self.phase = ExtractPhase::Detach;
                    self.failure = Some(ExtractError::CopyFailed(m));
                },
            },
            ExtractPhase::Detach => {
                self.phase = ExtractPhase::RemoveMountPoint;
            },
            ExtractPhase::RemoveMountPoint => {
                self.phase = ExtractPhase::RemoveImage;
            },
            ExtractPhase::RemoveImage => {
                self.phase = ExtractPhase::Finished;
            },
            ExtractPhase::Finished => {},
        }
    }

    /// The command of the `Attach` phase: the image is attached read-only and
    /// without showing it in the file browser, at the mount point.
    pub fn attach_command(&self) -> (r: LaunchCommand)
        ensures
            r.program@ == "hdiutil"@,
            texts(r.args@) == seq![
                "attach"@,
                "-nobrowse"@,
                "-readonly"@,
                "-mountpoint"@,
                self.mount_point@,
                self.image_path@,
            ],
    {
        let mut args: Vec<String> = Vec::new();
        args.push(owned("attach"));
        args.push(owned("-nobrowse"));
        args.push(owned("-readonly"));
        args.push(owned("-mountpoint"));
        args.push(self.mount_point.clone());
        args.push(self.image_path.clone());
        let r = LaunchCommand { program: owned("hdiutil"), args };
        assert(texts(r.args@) =~= seq![
            "attach"@,
            "-nobrowse"@,
            "-readonly"@,
            "-mountpoint"@,
            self.mount_point@,
            self.image_path@,
        ]);
        r
    }

    /// The command of the `Detach` phase.
    pub fn detach_command(&self) -> (r: LaunchCommand)
        ensures
            r.program@ == "hdiutil"@,
            texts(r.args@) == seq!["detach"@, "-quiet"@, self.mount_point@],
    {
        let mut args: Vec<String> = Vec::new();
        args.push(owned("detach"));
        args.push(owned("-quiet"));
        args.push(self.mount_point.clone());
        let r = LaunchCommand { program: owned("hdiutil"), args };
        assert(texts(r.args@) =~= seq!["detach"@, "-quiet"@, self.mount_point@]);
        r
    }

    /// The command of the `Copy` phase: a recursive copy of the source into the
    /// target directory, which keeps the source's name.
    pub fn copy_command(&self) -> (r: LaunchCommand)
        ensures
            r.program@ == "cp"@,
            texts(r.args@) == seq!["-R"@, self.source@, self.target_dir@],
    {
        let mut args: Vec<String> = Vec::new();
        args.push(owned("-R"));
        args.push(self.source.clone());
        args.push(self.target_dir.clone());
        let r = LaunchCommand { program: owned("cp"), args };
        assert(texts(r.args@) =~= seq!["-R"@, self.source@, self.target_dir@]);
        r
    }

    /// The outcome of a finished extraction: the first failure of writing,
    /// mounting or copying, else success. `None` while it runs.
    pub fn result(&self) -> (r: Option<Result<(), ExtractError>>)
        ensures
            r is Some <==> self.phase == ExtractPhase::Finished,
            r is Some ==> (r->0 is Ok <==> self.failure is None),
            r is Some && self.failure is Some ==> r->0 == Err::<(), ExtractError>(self.failure->0),
    {
        if self.phase != ExtractPhase::Finished {
            return None;
        }
        match &self.failure {
            Some(e) => Some(Err(e.duplicate())),
            None => Some(Ok(())),
        }
    }
}

/// An extraction finishes only right after the removal of its temporary image
/// file, whatever the outcomes before.
pub proof fn lemma_image_removed_before_finish(x: Extraction, outcome: Result<(), String>)
    requires
        x.phase != ExtractPhase::Finished,
        x.next(outcome).phase == ExtractPhase::Finished,
    ensures
        x.phase == ExtractPhase::RemoveImage,
{
}

/// The temporary image file is removed only right after the removal of the
/// mount point, or right after writing the image failed, before any mount point
/// was created.
pub proof fn lemma_mount_point_removed_before_image(x: Extraction, outcome: Result<(), String>)
    requires
        x.phase != ExtractPhase::RemoveImage,
        x.next(outcome).phase == ExtractPhase::RemoveImage,
    ensures
        x.phase == ExtractPhase::RemoveMountPoint
            || (x.phase == ExtractPhase::WriteImage && outcome is Err),
{
}

/// Every run of outcomes that takes an unfinished extraction to its end passes
/// through the removal of the temporary image file, whatever the outcomes are.
pub proof fn lemma_cleanup_always_reached(x: Extraction, outcomes: Seq<Result<(), String>>)
    requires
        x.phase != ExtractPhase::Finished,
        x.run(outcomes).phase == ExtractPhase::Finished,
    ensures
        exists|k: int| 0 <= k < outcomes.len() && #[trigger] x.run(outcomes.take(k)).phase == ExtractPhase::RemoveImage,
    decreases outcomes.len(),
{
    assert(outcomes.len() > 0);
    let y = x.next(outcomes[0]);
    assert(outcomes.take(0) =~= Seq::<Result<(), String>>::empty());
    if x.phase == ExtractPhase::RemoveImage {
        assert(x.run(outcomes.take(0)) == x);
    } else {
        assert(y.phase != ExtractPhase::Finished);
        assert(x.run(outcomes) == y.run(outcomes.drop_first()));
        lemma_cleanup_always_reached(y, outcomes.drop_first());
        let k = choose|k: int| 0 <= k < outcomes.drop_first().len() && #[trigger] y.run(outcomes.drop_first().take(k)).phase == ExtractPhase::RemoveImage;
        assert(outcomes.take(k + 1).drop_first() =~= outcomes.drop_first().take(k));
        assert(outcomes.take(k + 1)[0] == outcomes[0]);
        assert(x.run(outcomes.take(k + 1)) == y.run(outcomes.drop_first().take(k)));
    }
}

/// Clean-up outcomes never replace the primary result: detaching, removing the
/// mount point, removing the image file and clearing the destination keep the
/// recorded failure (or success) as it is.
pub proof fn lemma_cleanup_keeps_result(x: Extraction, outcome: Result<(), String>)
    requires
        x.phase == ExtractPhase::Detach || x.phase == ExtractPhase::RemoveMountPoint
            || x.phase == ExtractPhase::RemoveImage || x.phase == ExtractPhase::ClearDestination,
    ensures
        x.next(outcome).failure == x.failure,
{
}

/// A failed copy is the reported error, and the image is still detached after it.
pub proof fn lemma_copy_failure_reported(x: Extraction, m: String)
    requires
        x.phase == ExtractPhase::Copy,
    ensures
        x.next(Err(m)).failure == Some(ExtractError::CopyFailed(m)),
        x.next(Err(m)).phase == ExtractPhase::Detach,
{
}

/// A failed mount ends the extraction's work before any copy: the next action
/// is the removal of the mount point.
pub proof fn lemma_mount_failure_skips_copy(x: Extraction, m: String)
    requires
        x.phase == ExtractPhase::CreateMountPoint || x.phase == ExtractPhase::Attach,
    ensures
        x.next(Err(m)).failure == Some(ExtractError::MountFailed(m)),
        x.next(Err(m)).phase == ExtractPhase::RemoveMountPoint,
{
}

/// The copy starts only after an existing entry at the destination was cleared,
/// or when the source has no name, so no destination.
pub proof fn lemma_destination_cleared_before_copy(x: Extraction, outcome: Result<(), String>)
    requires
        x.phase != ExtractPhase::Copy,
        x.next(outcome).phase == ExtractPhase::Copy,
    ensures
        x.phase == ExtractPhase::ClearDestination
            || (x.phase == ExtractPhase::Attach && x.destination is None),
{
}

} // verus!
