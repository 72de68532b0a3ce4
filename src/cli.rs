//! The commands of the client, and the checks made on their arguments
//! before any request is sent.

use vstd::prelude::*;

verus! {

#[derive(Debug, PartialEq, Eq)]
pub enum Command {
    /// List projects.
    Projects,
    /// List files in the user's space or in a project.
    Files { project: Option<String> },
    /// Download files into a destination directory.
    Download { project: Option<String>, files: Vec<String>, destination: String },
    /// Upload local files.
    Upload { project: Option<String>, files: Vec<String> },
    Login,
    Logout,
}

#[derive(Debug, PartialEq, Eq)]
pub struct Cli {
    pub command: Command,
}

#[derive(Debug, Clone, Copy, PartialEq, Eq, Structural)]
pub enum CommandError {
    /// The download destination exists and is not a directory.
    DestinationNotDirectory,
    /// An upload named no file.
    NoFiles,
}

/// What to do with a download destination before the transfers start.
#[derive(Debug, Clone, Copy, PartialEq, Eq, Structural)]
pub enum DestinationStep {
    UseExisting,
    Create,
}

/// The destination must be a directory; a missing one is created.
pub fn prepare_destination(exists: bool, is_dir: bool) -> (r: Result<DestinationStep, CommandError>)
    ensures
        exists && !is_dir ==> r == Err::<DestinationStep, CommandError>(
            CommandError::DestinationNotDirectory,
        ),
        exists && is_dir ==> r == Ok::<DestinationStep, CommandError>(DestinationStep::UseExisting),
        !exists ==> r == Ok::<DestinationStep, CommandError>(DestinationStep::Create),
{
    if !exists {
        Ok(DestinationStep::Create)
    } else if is_dir {
        Ok(DestinationStep::UseExisting)
    } else {
        Err(CommandError::DestinationNotDirectory)
    }
}

/// An upload needs at least one file.
pub fn check_upload_files(files: &Vec<String>) -> (r: Result<(), CommandError>)
    ensures
        r is Ok <==> files@.len() > 0,
        r is Err ==> r == Err::<(), CommandError>(CommandError::NoFiles),
{
    if files.len() == 0 {
        Err(CommandError::NoFiles)
    } else {
        Ok(())
    }
}

impl CommandError {
    /// The line shown to the user.
    pub fn message(&self) -> (r: String)
        ensures
            *self == CommandError::DestinationNotDirectory ==> r@
                == "Destination must be a directory."@,
            *self == CommandError::NoFiles ==> r@ == "No files specified for upload."@,
    {
        match self {
            CommandError::DestinationNotDirectory => "Destination must be a directory.".to_owned(),
            CommandError::NoFiles => "No files specified for upload.".to_owned(),
        }
    }
}

} // verus!
