//! Application log switch and log file rotation rule.
use vstd::prelude::*;

verus! {

/// Request from the front-end to turn application logging to file on or off.
pub struct SetAppLogEnabled {
    pub is_enabled: bool,
}

/// Answer to `SetAppLogEnabled`.
pub struct SetAppLogEnabledResult {
    pub is_successful: bool,
}

/// A log file larger than this many bytes is rotated before the next write.
pub const MAX_LOG_FILE_SIZE: u64 = 10 * 1024 * 1024;

/// Logging state shared by the process: the file switch and the file path.
pub struct LogSettings {
    pub app_log_enabled: bool,
    pub log_file_path: Option<String>,
}

/// Sets the application log switch; it takes effect for the next line.
pub fn set_app_log_enabled(settings: &mut LogSettings, enabled: bool)
    ensures
        final(settings).app_log_enabled == enabled,
        final(settings).log_file_path == old(settings).log_file_path,
{
    settings.app_log_enabled = enabled;
}

/// Logging state at start-up: writing to `log_file_path` is switched on.
pub fn init(log_file_path: String) -> (s: LogSettings)
    ensures
        s.app_log_enabled,
        s.log_file_path == Some(log_file_path),
{
    LogSettings { app_log_enabled: true, log_file_path: Some(log_file_path) }
}

impl LogSettings {
    /// A line goes to the file only when the switch is on and a path is set.
    pub fn writes_to_file(&self) -> (r: bool)
        ensures
            r == (self.app_log_enabled && self.log_file_path is Some),
    {
        self.app_log_enabled && self.log_file_path.is_some()
    }
}

/// Whether a log file of `size` bytes is rotated before the next write.
pub fn needs_rotation(size: u64) -> (r: bool)
    ensures
        r == (size > MAX_LOG_FILE_SIZE),
{
    size > MAX_LOG_FILE_SIZE
}

impl SetAppLogEnabled {
    /// Applies the switch to `settings` and acknowledges it.
    pub fn handle(&self, settings: &mut LogSettings) -> (r: SetAppLogEnabledResult)
        ensures
            final(settings).app_log_enabled == self.is_enabled,
            final(settings).log_file_path == old(settings).log_file_path,
            r.is_successful,
    {
        set_app_log_enabled(settings, self.is_enabled);
        SetAppLogEnabledResult { is_successful: true }
    }
}

} // verus!
