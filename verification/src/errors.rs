use vstd::prelude::*;

verus! {

/// The failures the provisioning pipeline distinguishes.
///
/// `Configuration` is raised before any remote call, when the organization
/// cannot be resolved from the base URL. `RemoteApi` carries the HTTP status
/// and response body of a non-success answer. `MalformedResponse` is raised
/// when a success answer lacks an expected field. `Transport` wraps a failure
/// to reach the remote platform at all, and `Vcs` wraps a failure of the
/// local version-control steps.
#[derive(Debug)]
pub enum ProvisionError {
    Configuration { message: String },
    RemoteApi { status: u16, body: String },
    MalformedResponse { message: String },
    Transport { message: String },
    Vcs { message: String },
}

/// The mathematical shape of a `ProvisionError`: each message as a
/// sequence of characters.
pub enum ProvisionErrorV {
    Configuration { message: Seq<char> },
    RemoteApi { status: u16, body: Seq<char> },
    MalformedResponse { message: Seq<char> },
    Transport { message: Seq<char> },
    Vcs { message: Seq<char> },
}

impl View for ProvisionError {
    type V = ProvisionErrorV;

    open spec fn view(&self) -> ProvisionErrorV {
        match self {
            ProvisionError::Configuration { message } => ProvisionErrorV::Configuration {
                message: message@,
            },
            ProvisionError::RemoteApi { status, body } => ProvisionErrorV::RemoteApi {
                status: *status,
                body: body@,
            },
            ProvisionError::MalformedResponse { message } => ProvisionErrorV::MalformedResponse {
                message: message@,
            },
            ProvisionError::Transport { message } => ProvisionErrorV::Transport {
                message: message@,
            },
            ProvisionError::Vcs { message } => ProvisionErrorV::Vcs { message: message@ },
        }
    }
}

impl ProvisionErrorV {
    /// The text a described error shows: its message, or the response body
    /// for a remote refusal.
    pub open spec fn description(self) -> Seq<char> {
        match self {
            ProvisionErrorV::Configuration { message } => message,
            ProvisionErrorV::RemoteApi { status: _, body } => body,
            ProvisionErrorV::MalformedResponse { message } => message,
            ProvisionErrorV::Transport { message } => message,
            ProvisionErrorV::Vcs { message } => message,
        }
    }
}

impl ProvisionError {
    /// A readable rendering of the error, for callers that report it.
    pub fn describe(&self) -> (r: &String)
        ensures
            r@ == self@.description(),
    {
        match self {
            ProvisionError::Configuration { message } => message,
            ProvisionError::RemoteApi { status: _, body } => body,
            ProvisionError::MalformedResponse { message } => message,
            ProvisionError::Transport { message } => message,
            ProvisionError::Vcs { message } => message,
        }
    }
}

} // verus!
