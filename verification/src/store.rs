//! The two files that hold a credential on disk.

use vstd::prelude::*;
use vstd::string::StringExecFns;

verus! {

/// One of the two files of a credential.
#[derive(Clone, Copy, Debug, PartialEq, Eq, Structural)]
pub enum Artifact {
    Certificate,
    Key,
}

/// A file of the credential could not be written.
#[derive(Debug, PartialEq, Eq)]
pub struct StoreError {
    /// The file whose write failed.
    pub artifact: Artifact,
    /// The system's message.
    pub detail: String,
}

impl StoreError {
    /// What went wrong, in words.
    pub open spec fn description(self) -> Seq<char> {
        match self.artifact {
            Artifact::Certificate => "Unable to write certificate: "@ + self.detail@,
            Artifact::Key => "Unable to write key: "@ + self.detail@,
        }
    }

    /// A message for the log.
    pub fn describe(&self) -> (text: String)
        ensures
            text@ == self.description(),
    {
        let mut text = match self.artifact {
            Artifact::Certificate => String::from_str("Unable to write certificate: "),
            Artifact::Key => String::from_str("Unable to write key: "),
        };
        text.append(self.detail.as_str());
        text
    }
}

} // verus!
