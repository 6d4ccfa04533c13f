//! Trying an installation out in a container.
//!
//! The file system of the container is mounted on the host, so a path
//! inside the container is a path below the mount point. The container
//! tools are run by the caller; what their results mean is decided here.

use vstd::prelude::*;
use vstd::string::*;
use crate::install::IoError;
use crate::paths::{join, joined_path};
use crate::text::str_starts_with;

verus! {

/// A path inside a container, together with the place on the host where
/// the container's file system is mounted.
#[derive(Debug, Clone, PartialEq, Eq)]
pub struct PathBuf {
    /// The path as the container sees it.
    pub local_path: String,
    /// The directory of the host that holds the container's file system.
    pub mount_path: String,
}

impl PathBuf {
    /// The path as the container sees it. On the host it leads elsewhere.
    pub fn into_incorrect_std_path(self) -> (path: String)
        ensures
            path == self.local_path,
    {
        self.local_path
    }

    /// The path as the host sees it: the path inside the container put
    /// below the mount point.
    pub fn into_std_path(self) -> (path: String)
        ensures
            path@ == joined_path(self.mount_path@, self.local_path@),
    {
        join(self.mount_path.as_str(), self.local_path.as_str())
    }

    /// The path as the container sees it, borrowed.
    pub fn as_incorrect_std_path(&self) -> (path: &str)
        ensures
            path@ == self.local_path@,
    {
        self.local_path.as_str()
    }
}

/// Why a container tool failed.
#[derive(Debug, Clone, PartialEq, Eq)]
pub enum CommandError {
    /// The tool could not be run.
    Io(IoError),
    /// The tool ran and failed, with this on its error output.
    Failed { stderr: String },
}

/// How the error output of the tool begins when the image to remove is
/// not there.
pub const NO_SUCH_IMAGE: &'static str = "Error: no image with name or ID";

/// The tool that builds images.
#[derive(Debug, Clone, Copy, PartialEq, Eq, Structural)]
pub struct Buildah;

impl Buildah {
    /// What removing an image came to, from what running the tool gave. An
    /// image that was not there counts as removed.
    pub fn remove_image(ran: Result<String, CommandError>) -> (done: Result<(), CommandError>)
        ensures
            match ran {
                Ok(_) => done is Ok,
                Err(CommandError::Failed { stderr }) => if NO_SUCH_IMAGE@.is_prefix_of(stderr@) {
                    done is Ok
                } else {
                    done == Err::<(), CommandError>(CommandError::Failed { stderr })
                },
                Err(other) => done == Err::<(), CommandError>(other),
            },
    {
        match ran {
            Ok(_) => Ok(()),
            Err(CommandError::Failed { stderr }) => {
                if str_starts_with(stderr.as_str(), NO_SUCH_IMAGE) {
                    Ok(())
                } else {
                    Err(CommandError::Failed { stderr })
                }
            },
            Err(other) => Err(other),
        }
    }

    /// What renaming an image came to, from what running the tool gave.
    pub fn rename(ran: Result<String, CommandError>) -> (done: Result<(), CommandError>)
        ensures
            match ran {
                Ok(_) => done is Ok,
                Err(e) => done == Err::<(), CommandError>(e),
            },
    {
        match ran {
            Ok(_) => Ok(()),
            Err(e) => Err(e),
        }
    }

    /// What building an image came to, from what running the build script
    /// gave.
    pub fn build(ran: Result<String, CommandError>) -> (done: Result<(), CommandError>)
        ensures
            match ran {
                Ok(_) => done is Ok,
                Err(e) => done == Err::<(), CommandError>(e),
            },
    {
        match ran {
            Ok(_) => Ok(()),
            Err(e) => Err(e),
        }
    }
}

} // verus!
