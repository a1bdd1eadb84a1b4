use vstd::prelude::*;
use vstd::string::StringExecFns;

verus! {

pub const SELECTED_JOB_NOT_FOUND_ERR: &'static str = "Unable to found the selected job";

pub const NO_RUNNING_JOB_ERR: &'static str = "No running job has been found";

pub const MISSING_ALLOCATION_ERR: &'static str = "Unable to found an allocation for the given dispatch";

pub const JOBS_NOT_FOUND_ERR: &'static str = "No jobs with parameterized options has been founded";

pub const SELECTED_ITEM_NOT_FOUND_ERR: &'static str = "Unable to found the selected item";

pub const MISSING_REQUIRED_FIELD_ERR: &'static str = "You must fill this field as the value is required";

pub const REQ_BUILD_FAIL_ERR: &'static str = "Failed to build request";

pub const MISSING_BASE_URL_ERR: &'static str = "Failed to get the url of the nomad server";

/// Everything that can stop a command.
#[derive(Debug)]
pub enum Error {
    /// The server address (or another setting) could not be found.
    MissingEnv(String),
    /// The HTTP endpoint could not be reached or answered unexpectedly.
    NomadReqErr(String),
    /// A payload could not be encoded.
    Serialize(String),
    /// A mutating call was answered with a non-success status.
    Dispatch,
    /// The operator left a prompt without choosing.
    ScenarioFinished,
    /// A command could not go on; the text says why.
    ScenarioErr(String),
    /// The tailed task is no longer part of its allocation.
    MissingTask,
    /// A bounded retry loop gave up.
    MaxRetry,
}

impl Error {
    /// The text shown to the operator for this error.
    pub open spec fn text(&self) -> Seq<char> {
        match self {
            Error::MissingEnv(msg) => "Unable to find environment variable due to: "@ + msg@,
            Error::NomadReqErr(msg) => "An error occurred while querying the HTTP endpoint of Nomad: "@ + msg@,
            Error::Serialize(msg) => "Error while serializing data: "@ + msg@,
            Error::Dispatch => "Job dispatching has fail"@,
            Error::ScenarioFinished => "No option selected. Terminating the program"@,
            Error::ScenarioErr(msg) => "The command has stopped due to: "@ + msg@,
            Error::MissingTask => "The selected task could not be found"@,
            Error::MaxRetry => "Max retry has been achieved when fetching data"@,
        }
    }

    /// Renders the error for the operator.
    pub fn message(&self) -> (r: String)
        ensures
            r@ == self.text(),
    {
        match self {
            Error::MissingEnv(msg) => String::from_str(
                "Unable to find environment variable due to: ",
            ).concat(msg.as_str()),
            Error::NomadReqErr(msg) => String::from_str(
                "An error occurred while querying the HTTP endpoint of Nomad: ",
            ).concat(msg.as_str()),
            Error::Serialize(msg) => String::from_str("Error while serializing data: ").concat(
                msg.as_str(),
            ),
            Error::Dispatch => String::from_str("Job dispatching has fail"),
            Error::ScenarioFinished => String::from_str("No option selected. Terminating the program"),
            Error::ScenarioErr(msg) => String::from_str("The command has stopped due to: ").concat(
                msg.as_str(),
            ),
            Error::MissingTask => String::from_str("The selected task could not be found"),
            Error::MaxRetry => String::from_str("Max retry has been achieved when fetching data"),
        }
    }
}

} // verus!
