//! Uninstalling a font file: the safety gates and the outcome of each step.
use vstd::prelude::*;
use crate::paths::{path_under, under_dir};

verus! {

/// Outcome of an uninstall request.
#[derive(Debug)]
pub struct UninstallResult {
    pub success: bool,
    pub message: String,
}

/// A failed request with `message`.
pub open spec fn failed_with(r: UninstallResult, message: Seq<char>) -> bool {
    !r.success && r.message@ == message
}

fn failure(message: &str) -> (r: UninstallResult)
    ensures
        failed_with(r, message@),
{
    UninstallResult { success: false, message: String::from_str(message) }
}

/// The checks made before the registry is touched: a file under the system
/// font directory is never removed, and a missing file cannot be. `None`
/// means go on to the registry.
pub fn check_uninstall(path: &str, system_fonts_dir: &str, file_exists: bool) -> (r: Option<UninstallResult>)
    ensures
        under_dir(path@, system_fonts_dir@) ==> r is Some && failed_with(
            r->0,
            "Cannot uninstall system core fonts."@,
        ),
        !under_dir(path@, system_fonts_dir@) && !file_exists ==> r is Some && failed_with(
            r->0,
            "Font file not found."@,
        ),
        !under_dir(path@, system_fonts_dir@) && file_exists ==> r is None,
{
    if path_under(path, system_fonts_dir) {
        return Some(failure("Cannot uninstall system core fonts."));
    }
    if !file_exists {
        return Some(failure("Font file not found."));
    }
    None
}

/// The decision after removing the path's registry entries: `removal` is
/// whether any entry matched, or the registry's error. Without a matching
/// entry, only a file in the user font directory may be deleted. `None`
/// means go on and delete the file.
pub fn after_registry_removal(path: &str, user_fonts_dir: &str, removal: Result<bool, String>) -> (r: Option<UninstallResult>)
    ensures
        match removal {
            Err(e) => r is Some && failed_with(r->0, "Failed to access registry: "@ + e@),
            Ok(true) => r is None,
            Ok(false) => if under_dir(path@, user_fonts_dir@) {
                r is None
            } else {
                r is Some && failed_with(
                    r->0,
                    "Registry entry not found and file is not in user fonts directory."@,
                )
            },
        },
{
    match removal {
        Err(e) => Some(
            UninstallResult {
                success: false,
                message: String::from_str("Failed to access registry: ").concat(e.as_str()),
            },
        ),
        Ok(true) => None,
        Ok(false) => {
            if path_under(path, user_fonts_dir) {
                None
            } else {
                Some(failure("Registry entry not found and file is not in user fonts directory."))
            }
        },
    }
}

/// The outcome once deletion of the file was tried; only a full success
/// is followed by a font-change broadcast.
pub fn after_delete(result: Result<(), String>) -> (r: UninstallResult)
    ensures
        match result {
            Ok(_) => r.success && r.message@ == "Font uninstalled successfully."@,
            Err(e) => failed_with(
                r,
                "Failed to delete file: "@ + e@ + ". You might need to close applications using this font."@,
            ),
        },
{
    match result {
        Ok(_) => UninstallResult { success: true, message: String::from_str("Font uninstalled successfully.") },
        Err(e) => UninstallResult {
            success: false,
            message: String::from_str("Failed to delete file: ").concat(e.as_str()).concat(
                ". You might need to close applications using this font.",
            ),
        },
    }
}

} // verus!
