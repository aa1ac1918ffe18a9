use vstd::prelude::*;

verus! {

/// The errors that end a run.
pub enum Error {
    /// The program was started without the path of its configuration file.
    ConfigFileNotProvided,
    /// A role named in the configuration is not one of the group's roles.
    RoleNotFound(String),
    /// An endpoint kept failing until its attempt budget was spent.
    EndpointExceededRetryLimit(String),
    /// A creation timestamp did not start with a four-digit year.
    MalformedCreationTimestamp(String),
}

} // verus!
