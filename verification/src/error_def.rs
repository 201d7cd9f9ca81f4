//! The failures of the client and of the server's configuration, each with its
//! message.

use vstd::prelude::*;
use vstd::string::*;

verus! {

/// Why a run of the client failed.
#[derive(Debug, PartialEq, Eq)]
pub enum BppCliError {
    /// The service could not complete an add.
    FailedToAddNote,
    /// The service could not complete a removal.
    FailedToRmNote,
    /// The service could not complete a search.
    FailedToSearchNote,
    /// The editor could not be started, broke off, or left nothing readable.
    FailedToEditNote,
    /// Input that the client refuses before it contacts the service.
    InvalidParameters(String),
    /// The service could not be reached.
    FailedToConnect(String),
}

/// A client failure, with its text as a sequence of characters.
pub enum CliErrorView {
    FailedToAddNote,
    FailedToRmNote,
    FailedToSearchNote,
    FailedToEditNote,
    InvalidParameters(Seq<char>),
    FailedToConnect(Seq<char>),
}

impl CliErrorView {
    /// The message shown for the failure.
    pub open spec fn message(self) -> Seq<char> {
        match self {
            CliErrorView::FailedToAddNote => "Failed to Add Note"@,
            CliErrorView::FailedToRmNote => "Failed to Remove Note"@,
            CliErrorView::FailedToSearchNote => "Failed to Search Note"@,
            CliErrorView::FailedToEditNote => "Failed to Edit Note"@,
            CliErrorView::InvalidParameters(msg) => "Invalid Parameters: "@ + msg,
            CliErrorView::FailedToConnect(msg) => msg,
        }
    }
}

impl View for BppCliError {
    type V = CliErrorView;

    open spec fn view(&self) -> CliErrorView {
        match self {
            BppCliError::FailedToAddNote => CliErrorView::FailedToAddNote,
            BppCliError::FailedToRmNote => CliErrorView::FailedToRmNote,
            BppCliError::FailedToSearchNote => CliErrorView::FailedToSearchNote,
            BppCliError::FailedToEditNote => CliErrorView::FailedToEditNote,
            BppCliError::InvalidParameters(msg) => CliErrorView::InvalidParameters(msg@),
            BppCliError::FailedToConnect(msg) => CliErrorView::FailedToConnect(msg@),
        }
    }
}

impl BppCliError {
    /// The message shown for the failure.
    pub fn message(&self) -> (s: String)
        ensures
            s@ == self@.message(),
    {
        match self {
            BppCliError::FailedToAddNote => String::from_str("Failed to Add Note"),
            BppCliError::FailedToRmNote => String::from_str("Failed to Remove Note"),
            BppCliError::FailedToSearchNote => String::from_str("Failed to Search Note"),
            BppCliError::FailedToEditNote => String::from_str("Failed to Edit Note"),
            BppCliError::InvalidParameters(msg) => String::from_str("Invalid Parameters: ").concat(
                msg.as_str(),
            ),
            BppCliError::FailedToConnect(msg) => msg.clone(),
        }
    }
}

/// Why the server's configuration was refused.
#[derive(Debug, PartialEq, Eq)]
pub enum BppConfigError {
    /// The options could not be loaded, or a required one is missing.
    FailedToLoadConfigOptions(String),
}

impl BppConfigError {
    /// The detail that the failure carries.
    pub open spec fn detail(self) -> Seq<char> {
        match self {
            BppConfigError::FailedToLoadConfigOptions(msg) => msg@,
        }
    }

    /// The message shown for the failure.
    pub fn message(&self) -> (s: String)
        ensures
            s@ == "Invalid config options: "@ + self.detail(),
    {
        match self {
            BppConfigError::FailedToLoadConfigOptions(msg) => String::from_str(
                "Invalid config options: ",
            ).concat(msg.as_str()),
        }
    }
}

} // verus!
