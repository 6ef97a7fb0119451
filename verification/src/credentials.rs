//! Which credentials to offer when a remote asks for them.

use vstd::prelude::*;
use vstd::string::*;

verus! {

/// The credentials to offer.
#[derive(Debug, PartialEq, Eq)]
pub enum Credentials {
    /// A key held by the SSH agent, for this user.
    SshAgent { username: String },
    /// Whatever the transport takes when no user is known.
    Default,
}

/// [`Credentials`] with text as a sequence of characters.
pub enum CredentialsModel {
    SshAgent { username: Seq<char> },
    Default,
}

impl View for Credentials {
    type V = CredentialsModel;

    open spec fn view(&self) -> CredentialsModel {
        match self {
            Credentials::SshAgent { username } => CredentialsModel::SshAgent {
                username: username@,
            },
            Credentials::Default => CredentialsModel::Default,
        }
    }
}

/// The characters of an optional string slice.
pub open spec fn name_of(name: Option<&str>) -> Option<Seq<char>> {
    match name {
        Some(n) => Some(n@),
        None => None,
    }
}

/// The characters of an optional string.
pub open spec fn owned_name_of(name: Option<String>) -> Option<Seq<char>> {
    match name {
        Some(n) => Some(n@),
        None => None,
    }
}

/// The user to authenticate as: the one that the credential helper knows, or
/// else the one written in the URL.
pub open spec fn preferred_username(
    helper: Option<Seq<char>>,
    url: Option<Seq<char>>,
) -> Option<Seq<char>> {
    match helper {
        Some(name) => Some(name),
        None => url,
    }
}

/// A known user authenticates through the SSH agent; without a user the
/// default credentials are offered.
pub open spec fn credentials_for(username: Option<Seq<char>>) -> CredentialsModel {
    match username {
        Some(name) => CredentialsModel::SshAgent { username: name },
        None => CredentialsModel::Default,
    }
}

/// Chooses credentials from the user that the credential helper found, if
/// any, and the user written in the URL, if any.
pub fn choose_credentials(helper: Option<String>, url_username: Option<&str>) -> (chosen:
    Credentials)
    ensures
        chosen@ == credentials_for(
            preferred_username(owned_name_of(helper), name_of(url_username)),
        ),
{
    match helper {
        Some(username) => Credentials::SshAgent { username },
        None => match url_username {
            Some(name) => Credentials::SshAgent { username: String::from_str(name) },
            None => Credentials::Default,
        },
    }
}

} // verus!
