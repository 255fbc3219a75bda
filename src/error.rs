use vstd::prelude::*;

verus! {

/// Every way an operation of the library can fail.
#[derive(Debug, PartialEq, Eq, Structural)]
pub enum GripError {
    PackageNotFound,
    NoReleases,
    VersionNotFound,
    AssetNotFound,
    NetworkError,
    RegistryAlreadyExists,
    RegistryNotFound,
    CannotRemoveDefaultRegistry,
}

impl GripError {
    /// A one-line message for the user.
    pub fn message(&self) -> (r: &'static str) {
        match self {
            GripError::PackageNotFound => "package not found in any registry",
            GripError::NoReleases => "no releases found for package",
            GripError::VersionNotFound => "version not found",
            GripError::AssetNotFound => "asset not found",
            GripError::NetworkError => "no registry could be reached",
            GripError::RegistryAlreadyExists => "registry already exists",
            GripError::RegistryNotFound => "registry not found",
            GripError::CannotRemoveDefaultRegistry => "cannot remove default registry",
        }
    }
}

} // verus!
