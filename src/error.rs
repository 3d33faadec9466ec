use vstd::prelude::*;

verus! {

/// The ways a command on the download queue or on the content service can fail.
#[derive(Clone, Copy, Debug, PartialEq, Eq, Structural)]
pub enum CommandError {
    /// No live handle to the content service exists; the caller may retry later.
    ServiceUnavailable,
    /// The id to remove is not in the download queue.
    NotFound,
    /// The item is not installed locally, so it cannot be repaired.
    NotInstalled,
    /// The download queue is empty.
    NoActiveDownload,
    /// The service has no avatar for the current user.
    NoAvatar,
    /// The item is installed already; it was queued nonetheless.
    AlreadyInstalled,
    /// The service could not report byte counts for the item.
    ProgressUnavailable,
    /// The service turned down a request to download the item.
    DownloadRequestRejected,
}

impl CommandError {
    /// A short message for the user interface.
    pub fn message(&self) -> (r: String)
        ensures
            r@ == match self {
                CommandError::ServiceUnavailable => "No steam client found!"@,
                CommandError::NotFound => "Mod not found in download queue!"@,
                CommandError::NotInstalled => "Mod is not installed! I can only fix installed mods."@,
                CommandError::NoActiveDownload => "No active download!"@,
                CommandError::NoAvatar => "No avatar found"@,
                CommandError::AlreadyInstalled => "Mod already installed!"@,
                CommandError::ProgressUnavailable => "There was an error getting your download progress!"@,
                CommandError::DownloadRequestRejected => "Failed to download mod, you may have an invalid id."@,
            },
    {
        match self {
            CommandError::ServiceUnavailable => String::from_str("No steam client found!"),
            CommandError::NotFound => String::from_str("Mod not found in download queue!"),
            CommandError::NotInstalled => String::from_str(
                "Mod is not installed! I can only fix installed mods.",
            ),
            CommandError::NoActiveDownload => String::from_str("No active download!"),
            CommandError::NoAvatar => String::from_str("No avatar found"),
            CommandError::AlreadyInstalled => String::from_str("Mod already installed!"),
            CommandError::ProgressUnavailable => String::from_str(
                "There was an error getting your download progress!",
            ),
            CommandError::DownloadRequestRejected => String::from_str(
                "Failed to download mod, you may have an invalid id.",
            ),
        }
    }
}

} // verus!
