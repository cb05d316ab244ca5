use vstd::prelude::*;

verus! {

/// The ways a provisioning step can fail. The first error aborts the
/// remainder of the current build step; effects already applied are kept.
#[derive(Debug)]
pub enum Error {
    /// A namespace, link or interface with this name is already registered.
    NameConflict { name: String },
    /// An external configuration command reported failure; carries its
    /// diagnostic text.
    CommandFailure { detail: String },
    /// A link's subnet is not a well-formed IPv4 CIDR string.
    AddressParseFailure { subnet: String },
    /// A route gateway interface has no assigned address.
    MissingAddress { interface: String },
}

impl Error {
    /// A short label for the error kind, for callers that report failures.
    pub fn kind(&self) -> (r: String)
        ensures
            r@ == match self {
                Error::NameConflict { .. } => "name conflict"@,
                Error::CommandFailure { .. } => "command failure"@,
                Error::AddressParseFailure { .. } => "address parse failure"@,
                Error::MissingAddress { .. } => "missing address"@,
            },
    {
        match self {
            Error::NameConflict { .. } => String::from_str("name conflict"),
            Error::CommandFailure { .. } => String::from_str("command failure"),
            Error::AddressParseFailure { .. } => String::from_str("address parse failure"),
            Error::MissingAddress { .. } => String::from_str("missing address"),
        }
    }
}

} // verus!
