//! Errors of the GUI client and the messages shown to users for them.
use vstd::prelude::*;

verus! {

broadcast use vstd::string::group_string_axioms;

/// Errors of the deep-link module.
#[derive(Debug, Clone, PartialEq, Eq)]
pub enum DeepLinkError {
    /// Another instance already listens for deep links.
    CantListen,
    /// Any other failure, by its message.
    Other(String),
}

/// Errors of the IPC client.
#[derive(Debug, Clone, PartialEq, Eq)]
pub enum IpcError {
    /// The IPC service could not be found, with the reason.
    NotFound(String),
    /// Any other failure, by its message.
    Other(String),
}

/// Errors that end the GUI client.
#[derive(Debug, Clone, PartialEq, Eq)]
pub enum Error {
    ConnectToFirezoneFailed(String),
    DeepLink(DeepLinkError),
    /// A logging setup failure, by its message.
    Logging(String),
    IpcNotFound,
    IpcClosed,
    IpcRead,
    IpcServiceTerminating,
    PortalConnection(String),
    WebViewNotInstalled,
    /// Any other failure, by its message.
    Other(String),
}

impl Error {
    /// The message shown to users for this error.
    pub open spec fn spec_user_friendly_msg(self) -> Seq<char> {
        match self {
            Error::ConnectToFirezoneFailed(_) => "Failed to connect to Firezone"@,
            Error::WebViewNotInstalled =>
                "Firezone cannot start because WebView2 is not installed. Follow the instructions at <https://www.firezone.dev/kb/client-apps/windows-client>."@,
            Error::DeepLink(DeepLinkError::CantListen) =>
                "Firezone is already running. If it's not responding, force-stop it."@,
            Error::DeepLink(DeepLinkError::Other(e)) => e@,
            Error::IpcNotFound => "Couldn't find Firezone IPC service. Is the service running?"@,
            Error::IpcClosed => "IPC connection closed"@,
            Error::IpcRead => "IPC read failure"@,
            Error::IpcServiceTerminating =>
                "The Firezone IPC service is terminating. Please restart the GUI Client."@,
            Error::Logging(_) => "Logging error"@,
            Error::PortalConnection(_) =>
                "Couldn't connect to the Firezone Portal. Are you connected to the Internet?"@,
            Error::Other(e) => e@,
        }
    }

    /// The message shown to users for this error; it may be localized, unlike
    /// log messages.
    pub fn user_friendly_msg(&self) -> (r: String)
        ensures
            r@ == self.spec_user_friendly_msg(),
    {
        match self {
            Error::ConnectToFirezoneFailed(_) => "Failed to connect to Firezone".to_string(),
            Error::WebViewNotInstalled =>
                "Firezone cannot start because WebView2 is not installed. Follow the instructions at <https://www.firezone.dev/kb/client-apps/windows-client>.".to_string(),
            Error::DeepLink(DeepLinkError::CantListen) =>
                "Firezone is already running. If it's not responding, force-stop it.".to_string(),
            Error::DeepLink(DeepLinkError::Other(e)) => e.clone(),
            Error::IpcNotFound =>
                "Couldn't find Firezone IPC service. Is the service running?".to_string(),
            Error::IpcClosed => "IPC connection closed".to_string(),
            Error::IpcRead => "IPC read failure".to_string(),
            Error::IpcServiceTerminating =>
                "The Firezone IPC service is terminating. Please restart the GUI Client.".to_string(),
            Error::Logging(_) => "Logging error".to_string(),
            Error::PortalConnection(_) =>
                "Couldn't connect to the Firezone Portal. Are you connected to the Internet?".to_string(),
            Error::Other(e) => e.clone(),
        }
    }
}

impl From<IpcError> for Error {
    fn from(value: IpcError) -> (r: Self) {
        match value {
            IpcError::NotFound(_) => Error::IpcNotFound,
            IpcError::Other(e) => Error::Other(e),
        }
    }
}

impl vstd::std_specs::convert::FromSpecImpl<IpcError> for Error {
    open spec fn obeys_from_spec() -> bool {
        true
    }

    open spec fn from_spec(value: IpcError) -> Error {
        match value {
            IpcError::NotFound(_) => Error::IpcNotFound,
            IpcError::Other(e) => Error::Other(e),
        }
    }
}

} // verus!
