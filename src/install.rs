//! Installing font files: one decision machine per requested path, and
//! the batch tally.
use vstd::prelude::*;
use crate::identity::{content_digest, hex_of, sha256_of};
use crate::paths::{has_font_ext, has_font_extension};
use crate::text::str_equal;

verus! {

/// How many times a copy is tried before the path fails.
pub const COPY_ATTEMPTS: u8 = 3;

/// Outcome of a whole install batch.
#[derive(Debug)]
pub struct InstallResult {
    pub success_count: usize,
    pub failed_count: usize,
    pub errors: Vec<String>,
}

impl InstallResult {
    /// An empty tally.
    pub fn new() -> (r: Self)
        ensures
            r.success_count == 0,
            r.failed_count == 0,
            r.errors@.len() == 0,
    {
        InstallResult { success_count: 0, failed_count: 0, errors: Vec::new() }
    }

    /// A batch that could not start: every path failed, for one reason.
    pub fn batch_failed(path_count: usize, error: String) -> (r: Self)
        ensures
            r.success_count == 0,
            r.failed_count == path_count,
            r.errors@.len() == 1,
            r.errors@[0] == error,
    {
        let mut errors: Vec<String> = Vec::new();
        errors.push(error);
        InstallResult { success_count: 0, failed_count: path_count, errors }
    }

    /// Counts one installed path.
    pub fn record_success(&mut self)
        requires
            old(self).success_count < usize::MAX,
        ensures
            final(self).success_count == old(self).success_count + 1,
            final(self).failed_count == old(self).failed_count,
            final(self).errors@ == old(self).errors@,
    {
        self.success_count = self.success_count + 1;
    }

    /// Counts one failed path and keeps its error text.
    pub fn record_failure(&mut self, error: String)
        requires
            old(self).failed_count < usize::MAX,
        ensures
            final(self).success_count == old(self).success_count,
            final(self).failed_count == old(self).failed_count + 1,
            final(self).errors@ == old(self).errors@.push(error),
    {
        self.failed_count = self.failed_count + 1;
        self.errors.push(error);
    }
}

/// Where the installation of one path stands.
#[derive(Clone, Copy, PartialEq, Eq, Structural, Debug)]
pub enum InstallPhase {
    /// Waiting to learn whether the source file exists.
    Validating,
    /// Waiting for the font service's reading of the file.
    Probing,
    /// Waiting to learn whether the destination already holds the same file.
    Deduplicating,
    /// Copying; `attempts` copies have failed so far.
    Copying { attempts: u8 },
    /// Writing the registry entry; `copied` when this run copied the file.
    Registering { copied: bool },
    /// Nothing more to do for this path.
    Finished,
}

/// What the caller does next for the path.
#[derive(Clone, Copy, PartialEq, Eq, Structural, Debug)]
pub enum InstallAction {
    /// Read the file with the font service.
    Probe,
    /// Compare the file with a same-named file in the user font directory.
    CheckDestination,
    /// Copy the file into the user font directory, after a short pause
    /// when `wait_first`.
    Copy { wait_first: bool },
    /// Write the registry entry from the registry name to the destination.
    Register,
    /// The path failed with the machine's error text; delete the copied
    /// destination file first when `remove_copy`.
    Fail { remove_copy: bool },
    /// The path is installed.
    Succeed,
}

/// Step after learning whether the source exists and has a font extension.
pub open spec fn after_source(found: bool, font_ext: bool) -> (InstallPhase, InstallAction) {
    if !found || !font_ext {
        (InstallPhase::Finished, InstallAction::Fail { remove_copy: false })
    } else {
        (InstallPhase::Probing, InstallAction::Probe)
    }
}

/// Step after the font service read the file: `faces` faces, or an error.
pub open spec fn after_probe(parsed: bool, faces: nat) -> (InstallPhase, InstallAction) {
    if !parsed || faces == 0 {
        (InstallPhase::Finished, InstallAction::Fail { remove_copy: false })
    } else {
        (InstallPhase::Deduplicating, InstallAction::CheckDestination)
    }
}

/// Step after comparing with the destination: an identical file is not
/// copied again but is still registered.
pub open spec fn after_destination(identical: bool) -> (InstallPhase, InstallAction) {
    if identical {
        (InstallPhase::Registering { copied: false }, InstallAction::Register)
    } else {
        (InstallPhase::Copying { attempts: 0 }, InstallAction::Copy { wait_first: false })
    }
}

/// Step after a copy attempt, `attempts` earlier attempts having failed.
pub open spec fn after_copy(attempts: u8, ok: bool) -> (InstallPhase, InstallAction) {
    if ok {
        (InstallPhase::Registering { copied: true }, InstallAction::Register)
    } else if attempts + 1 < COPY_ATTEMPTS {
        (InstallPhase::Copying { attempts: (attempts + 1) as u8 }, InstallAction::Copy { wait_first: true })
    } else {
        (InstallPhase::Finished, InstallAction::Fail { remove_copy: false })
    }
}

/// Step after writing the registry entry: a failure removes a file that
/// this run copied.
pub open spec fn after_register(copied: bool, ok: bool) -> (InstallPhase, InstallAction) {
    if ok {
        (InstallPhase::Finished, InstallAction::Succeed)
    } else {
        (InstallPhase::Finished, InstallAction::Fail { remove_copy: copied })
    }
}

/// The registry value name for a family.
pub open spec fn registry_name_of(family: Seq<char>) -> Seq<char> {
    family + " (TrueType)"@
}

/// The family that names a probed file: the first family of its first
/// face, or "Unknown".
pub open spec fn probed_family(faces: Seq<Option<String>>) -> Seq<char> {
    match faces[0] {
        Some(f) => f@,
        None => "Unknown"@,
    }
}

/// The installation of one requested path.
pub struct PathInstall {
    /// The requested source path.
    pub path: String,
    /// The registry value name, once the file has been probed.
    pub registry_name: String,
    /// The error text, once the path has failed.
    pub error: String,
    pub phase: InstallPhase,
}

/// The registry value name for a family, e.g. "Arial (TrueType)".
pub fn registry_name(family: &str) -> (r: String)
    ensures
        r@ == registry_name_of(family@),
{
    String::from_str(family).concat(" (TrueType)")
}

/// Whether a source file and the same-named destination file hold the
/// same bytes: sizes first, digests only when the sizes agree.
pub fn files_identical(source: &[u8], destination: &[u8]) -> (r: bool)
    ensures
        r == (source@.len() == destination@.len() && hex_of(sha256_of(source@)) == hex_of(
            sha256_of(destination@),
        )),
{
    if source.len() != destination.len() {
        return false;
    }
    let a = content_digest(source);
    let b = content_digest(destination);
    str_equal(a.as_str(), b.as_str())
}

impl PathInstall {
    /// The installation of `path`, before anything is known of it.
    pub fn new(path: String) -> (r: Self)
        ensures
            r.path == path,
            r.phase == InstallPhase::Validating,
            r.registry_name@.len() == 0,
            r.error@.len() == 0,
    {
        PathInstall { path, registry_name: String::new(), error: String::new(), phase: InstallPhase::Validating }
    }

    /// Marks the path failed with `error`.
    fn fail(&mut self, error: String, remove_copy: bool) -> (a: InstallAction)
        ensures
            final(self).path == old(self).path,
            final(self).registry_name == old(self).registry_name,
            final(self).error == error,
            final(self).phase == InstallPhase::Finished,
            a == (InstallAction::Fail { remove_copy }),
    {
        self.error = error;
        self.phase = InstallPhase::Finished;
        InstallAction::Fail { remove_copy }
    }

    /// The source file exists (or not): a missing file or one without a
    /// TrueType/OpenType extension fails before anything is touched.
    pub fn on_source_checked(&mut self, found: bool) -> (a: InstallAction)
        requires
            old(self).phase == InstallPhase::Validating,
        ensures
            (final(self).phase, a) == after_source(found, has_font_ext(old(self).path@)),
            final(self).path == old(self).path,
            final(self).registry_name == old(self).registry_name,
            !found ==> final(self).error@ == "File not found: "@ + old(self).path@,
            found && !has_font_ext(old(self).path@) ==> final(self).error@ == "Unsupported file type: "@
                + old(self).path@,
            found && has_font_ext(old(self).path@) ==> final(self).error == old(self).error,
    {
        if !found {
            let e = String::from_str("File not found: ").concat(self.path.as_str());
            return self.fail(e, false);
        }
        if !has_font_extension(self.path.as_str()) {
            let e = String::from_str("Unsupported file type: ").concat(self.path.as_str());
            return self.fail(e, false);
        }
        self.phase = InstallPhase::Probing;
        InstallAction::Probe
    }

    /// The font service read the file: the first family name of each face,
    /// or its error text.
    pub fn on_probed(&mut self, probed: Result<Vec<Option<String>>, String>) -> (a: InstallAction)
        requires
            old(self).phase == InstallPhase::Probing,
        ensures
            (final(self).phase, a) == after_probe(
                probed is Ok,
                match probed {
                    Ok(f) => f@.len(),
                    Err(_) => 0,
                },
            ),
            final(self).path == old(self).path,
            match probed {
                Err(e) => final(self).error@ == "Failed to parse font file "@ + old(self).path@ + ": "@ + e@,
                Ok(f) => if f@.len() == 0 {
                    final(self).error@ == "No font faces found in file: "@ + old(self).path@
                } else {
                    final(self).registry_name@ == registry_name_of(probed_family(f@))
                        && final(self).error == old(self).error
                },
            },
    {
        match probed {
            Err(e) => {
                let msg = String::from_str("Failed to parse font file ").concat(self.path.as_str()).concat(
                    ": ",
                ).concat(e.as_str());
                self.fail(msg, false)
            },
            Ok(faces) => {
                if faces.len() == 0 {
                    let msg = String::from_str("No font faces found in file: ").concat(self.path.as_str());
                    return self.fail(msg, false);
                }
                let name = match &faces[0] {
                    Some(f) => registry_name(f.as_str()),
                    None => registry_name("Unknown"),
                };
                self.registry_name = name;
                self.phase = InstallPhase::Deduplicating;
                InstallAction::CheckDestination
            },
        }
    }

    /// The destination was compared with the source.
    pub fn on_destination_checked(&mut self, identical: bool) -> (a: InstallAction)
        requires
            old(self).phase == InstallPhase::Deduplicating,
        ensures
            (final(self).phase, a) == after_destination(identical),
            final(self).path == old(self).path,
            final(self).registry_name == old(self).registry_name,
            final(self).error == old(self).error,
    {
        if identical {
            self.phase = InstallPhase::Registering { copied: false };
            InstallAction::Register
        } else {
            self.phase = InstallPhase::Copying { attempts: 0 };
            InstallAction::Copy { wait_first: false }
        }
    }

    /// A copy attempt ended; after the last failed attempt the path fails
    /// with that attempt's error.
    pub fn on_copy_attempted(&mut self, result: Result<(), String>) -> (a: InstallAction)
        requires
            old(self).phase is Copying,
            old(self).phase->attempts < COPY_ATTEMPTS,
        ensures
            (final(self).phase, a) == after_copy(old(self).phase->attempts, result is Ok),
            final(self).path == old(self).path,
            final(self).registry_name == old(self).registry_name,
            match result {
                Err(e) => old(self).phase->attempts + 1 >= COPY_ATTEMPTS ==> final(self).error@
                    == "Failed to copy file "@ + old(self).path@ + ": "@ + e@,
                Ok(_) => final(self).error == old(self).error,
            },
            (final(self).phase is Copying) ==> final(self).error == old(self).error,
    {
        let attempts = match self.phase {
            InstallPhase::Copying { attempts } => attempts,
            _ => 0,
        };
        match result {
            Ok(_) => {
                self.phase = InstallPhase::Registering { copied: true };
                InstallAction::Register
            },
            Err(e) => {
                if attempts + 1 < COPY_ATTEMPTS {
                    self.phase = InstallPhase::Copying { attempts: attempts + 1 };
                    InstallAction::Copy { wait_first: true }
                } else {
                    let msg = String::from_str("Failed to copy file ").concat(self.path.as_str()).concat(
                        ": ",
                    ).concat(e.as_str());
                    self.fail(msg, false)
                }
            },
        }
    }

    /// The registry entry was written (or not).
    pub fn on_registered(&mut self, result: Result<(), String>) -> (a: InstallAction)
        requires
            old(self).phase is Registering,
        ensures
            (final(self).phase, a) == after_register(old(self).phase->copied, result is Ok),
            final(self).path == old(self).path,
            final(self).registry_name == old(self).registry_name,
            match result {
                Err(e) => final(self).error@ == "Failed to register font "@ + old(self).path@ + ": "@ + e@,
                Ok(_) => final(self).error == old(self).error,
            },
    {
        let copied = match self.phase {
            InstallPhase::Registering { copied } => copied,
            _ => false,
        };
        match result {
            Ok(_) => {
                self.phase = InstallPhase::Finished;
                InstallAction::Succeed
            },
            Err(e) => {
                let msg = String::from_str("Failed to register font ").concat(self.path.as_str()).concat(
                    ": ",
                ).concat(e.as_str());
                self.fail(msg, copied)
            },
        }
    }
}

/// A file whose destination copy is already identical is not copied again,
/// yet its registry entry is written, and the path succeeds once that write
/// succeeds.
pub proof fn lemma_identical_file_registered_not_copied()
    ensures
        after_destination(true) == (InstallPhase::Registering { copied: false }, InstallAction::Register),
        after_register(false, true) == (InstallPhase::Finished, InstallAction::Succeed),
        after_register(false, false) == (InstallPhase::Finished, InstallAction::Fail { remove_copy: false }),
{
}

/// A source without a font extension fails at once: the next action is a
/// failure that removes nothing, so neither the font directory nor the
/// registry is touched.
pub proof fn lemma_unsupported_type_touches_nothing(path: Seq<char>)
    requires
        !has_font_ext(path),
    ensures
        after_source(true, has_font_ext(path)) == (InstallPhase::Finished, InstallAction::Fail { remove_copy: false }),
{
}

/// A copy is tried at most three times: from any attempt count below the
/// limit, a failure either retries with one more attempt or fails the path.
pub proof fn lemma_copy_attempts_bounded(attempts: u8)
    requires
        attempts < COPY_ATTEMPTS,
    ensures
        after_copy(attempts, false).0 is Copying ==> after_copy(attempts, false).0->attempts == attempts + 1
            && attempts + 1 < COPY_ATTEMPTS,
        attempts + 1 == COPY_ATTEMPTS ==> after_copy(attempts, false) == (
            InstallPhase::Finished,
            InstallAction::Fail { remove_copy: false },
        ),
{
}

} // verus!
