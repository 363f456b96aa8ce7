//! Outcomes of configuration file edits: the result type handed back to
//! the UI, the shape checks each configuration section enforces, and
//! the save pipeline's backup/rollback verdict. Reading and writing the
//! files themselves is I/O and happens outside this crate.

use vstd::prelude::*;

verus! {

/// Result of a configuration operation that the UI may need to report:
/// success or failure, a message, an optional warning, and whether a
/// backup was restored.
#[derive(Debug)]
pub struct ConfigResult {
    pub success: bool,
    pub message: String,
    pub warning: Option<String>,
    pub rollback_performed: bool,
}

impl ConfigResult {
    /// A successful outcome carrying `message`.
    pub fn ok(message: &str) -> (r: ConfigResult)
        ensures
            r.success,
            r.message@ == message@,
            r.warning is None,
            !r.rollback_performed,
    {
        ConfigResult {
            success: true,
            message: message.to_owned(),
            warning: None,
            rollback_performed: false,
        }
    }

    /// A failed outcome carrying `message`.
    pub fn error(message: &str) -> (r: ConfigResult)
        ensures
            !r.success,
            r.message@ == message@,
            r.warning is None,
            !r.rollback_performed,
    {
        ConfigResult {
            success: false,
            message: message.to_owned(),
            warning: None,
            rollback_performed: false,
        }
    }

    /// The same outcome with a warning attached.
    pub fn with_warning(self, warning: &str) -> (r: ConfigResult)
        ensures
            r.success == self.success,
            r.message == self.message,
            r.warning matches Some(w) && w@ == warning@,
            r.rollback_performed == self.rollback_performed,
    {
        ConfigResult { warning: Some(warning.to_owned()), ..self }
    }

    /// The same outcome, marked as having restored a backup.
    pub fn with_rollback(self) -> (r: ConfigResult)
        ensures
            r.success == self.success,
            r.message == self.message,
            r.warning == self.warning,
            r.rollback_performed,
    {
        ConfigResult { rollback_performed: true, ..self }
    }
}

/// The JSON shape of a submitted configuration document, as the parsing
/// layer reports it.
pub enum JsonShape {
    /// A JSON object.
    Object,
    /// A JSON array.
    Array,
    /// Anything else.
    Other,
}

/// Check the shape required of the instances section: a JSON object
/// keyed by instance name.
pub fn check_instances_shape(shape: &JsonShape) -> (r: Result<(), ConfigResult>)
    ensures
        r.is_ok() == shape is Object,
        r matches Err(e) ==> !e.success && e.message@
            == "Config must be a JSON object with instance names as keys"@,
{
    match shape {
        JsonShape::Object => Ok(()),
        _ => Err(ConfigResult::error("Config must be a JSON object with instance names as keys")),
    }
}

/// Check the shape required of the server section: a JSON object.
pub fn check_server_shape(shape: &JsonShape) -> (r: Result<(), ConfigResult>)
    ensures
        r.is_ok() == shape is Object,
        r matches Err(e) ==> !e.success && e.message@ == "Server config must be a JSON object"@,
{
    match shape {
        JsonShape::Object => Ok(()),
        _ => Err(ConfigResult::error("Server config must be a JSON object")),
    }
}

/// Where a list-shaped section's entries were found.
#[derive(Debug)]
pub enum ListSource {
    /// The document itself was the array.
    Whole,
    /// The array sat under the section's key inside an object.
    UnderKey,
}

/// Check the shape required of the tools section: an array, or an
/// object holding an array under `tools`.
pub fn check_tools_shape(shape: &JsonShape, has_keyed_array: bool) -> (r: Result<
    ListSource,
    ConfigResult,
>)
    ensures
        shape is Array ==> r matches Ok(ListSource::Whole),
        !(shape is Array) && has_keyed_array ==> r matches Ok(ListSource::UnderKey),
        !(shape is Array) && !has_keyed_array ==> (r matches Err(e) && !e.success && e.message@
            == "Tools config must be a JSON array or object with 'tools' array"@),
{
    match shape {
        JsonShape::Array => Ok(ListSource::Whole),
        _ => if has_keyed_array {
            Ok(ListSource::UnderKey)
        } else {
            Err(ConfigResult::error("Tools config must be a JSON array or object with 'tools' array"))
        },
    }
}

/// Check the shape required of the prompts section: an array, or an
/// object holding an array under `prompts`.
pub fn check_prompts_shape(shape: &JsonShape, has_keyed_array: bool) -> (r: Result<
    ListSource,
    ConfigResult,
>)
    ensures
        shape is Array ==> r matches Ok(ListSource::Whole),
        !(shape is Array) && has_keyed_array ==> r matches Ok(ListSource::UnderKey),
        !(shape is Array) && !has_keyed_array ==> (r matches Err(e) && !e.success && e.message@
            == "Prompts config must be a JSON array or object with 'prompts' array"@),
{
    match shape {
        JsonShape::Array => Ok(ListSource::Whole),
        _ => if has_keyed_array {
            Ok(ListSource::UnderKey)
        } else {
            Err(ConfigResult::error(
                "Prompts config must be a JSON array or object with 'prompts' array",
            ))
        },
    }
}

/// How reading a configuration file back after a save went.
pub enum ReadBack {
    /// The file read back as valid JSON.
    Valid,
    /// The file read back but no longer parsed; the error text.
    Invalid(String),
    /// The file could not be read back; the error text.
    Unreadable(String),
}

/// The verdict of one save attempt: what to report given how the write
/// went, how the read-back went, and whether a backup existed to
/// restore. A write or corruption failure restores the backup when one
/// exists; an unverifiable file without a backup is reported as saved,
/// as the data on disk may well be fine.
pub fn save_outcome(
    write_error: Option<String>,
    readback: ReadBack,
    had_backup: bool,
    success_message: &str,
) -> (r: ConfigResult)
    ensures
        write_error matches Some(e) ==> {
            &&& !r.success
            &&& r.message@ == "Failed to save config: "@ + e@
            &&& r.rollback_performed == had_backup
        },
        write_error is None ==> match readback {
            ReadBack::Valid => r.success && r.message@ == success_message@
                && !r.rollback_performed,
            ReadBack::Invalid(e) => {
                &&& !r.success
                &&& r.rollback_performed == had_backup
                &&& r.message@ == if had_backup {
                    "Config was corrupted during save, rolled back: "@ + e@
                } else {
                    "Config corrupted: "@ + e@
                }
            },
            ReadBack::Unreadable(e) => if had_backup {
                !r.success && r.rollback_performed && r.message@
                    == "Cannot verify saved config, rolled back: "@ + e@
            } else {
                r.success && r.message@ == success_message@ && !r.rollback_performed
            },
        },
{
    if let Some(e) = write_error {
        let msg = String::from_str("Failed to save config: ").concat(e.as_str());
        let base = ConfigResult { success: false, message: msg, warning: None,
            rollback_performed: false };
        if had_backup {
            return base.with_rollback();
        }
        return base;
    }
    match readback {
        ReadBack::Valid => ConfigResult::ok(success_message),
        ReadBack::Invalid(e) => {
            if had_backup {
                let msg = String::from_str("Config was corrupted during save, rolled back: ")
                    .concat(e.as_str());
                ConfigResult { success: false, message: msg, warning: None,
                    rollback_performed: true }
            } else {
                let msg = String::from_str("Config corrupted: ").concat(e.as_str());
                ConfigResult { success: false, message: msg, warning: None,
                    rollback_performed: false }
            }
        },
        ReadBack::Unreadable(e) => {
            if had_backup {
                let msg = String::from_str("Cannot verify saved config, rolled back: ").concat(
                    e.as_str(),
                );
                ConfigResult { success: false, message: msg, warning: None,
                    rollback_performed: true }
            } else {
                ConfigResult::ok(success_message)
            }
        },
    }
}

} // verus!
