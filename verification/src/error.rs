use vstd::prelude::*;

verus! {

#[verifier::external_type_specification]
#[verifier::external_body]
pub struct ExJsonError(serde_json::Error);

#[verifier::external_type_specification]
#[verifier::external_body]
pub struct ExIoError(std::io::Error);

/// Errors raised while configuring the service, validating a job's
/// arguments, or running the `lms` command.
#[derive(Debug)]
pub enum LmsError {
    /// The `lms` process could not be started or inspected.
    Io(std::io::Error),
    /// `lms` ran and reported failure; the message holds its status and output.
    LmsCommandFailed(String),
    /// `lms` printed something that is not JSON where JSON was expected.
    LmsOutputParse(serde_json::Error),
    /// The service is misconfigured (for instance, no `lms` executable).
    Config(String),
    /// A job was submitted with arguments that are refused.
    InvalidArgs(String),
}

} // verus!
