//! The verified core of a connection: the settings a connection is opened
//! with, and the bootstrap sequence — the fixed, ordered list of native
//! steps that takes an unauthenticated process to an authenticated session.
//! The handles those steps allocate, and the calls themselves, live with
//! the caller that drives the sequence; this core says what to do and in
//! what order.

use crate::error::OciError;
use vstd::prelude::*;

verus! {

/// One step of the connection bootstrap, in the order the native layer
/// requires: every handle is allocated first, the server attach happens
/// before the service learns its server, and the session starts only
/// after its credentials are set.
#[derive(Clone, Copy, Debug, PartialEq, Eq, Structural)]
pub enum BootstrapStep {
    /// Create the environment that owns every other handle.
    CreateEnvironment,
    /// Allocate the server handle.
    CreateServerHandle,
    /// Allocate the error-reporting handle.
    CreateErrorHandle,
    /// Allocate the service-context handle.
    CreateServiceHandle,
    /// Allocate the session handle.
    CreateSessionHandle,
    /// Attach to the database named by the connection string.
    ConnectToDatabase,
    /// Point the service context at the attached server.
    SetServerInService,
    /// Store the user name in the session handle.
    SetUserNameInSession,
    /// Store the password in the session handle.
    SetPasswordInSession,
    /// Authenticate and start the user session.
    StartSession,
    /// Point the service context at the started session.
    SetSessionInService,
}

/// The bootstrap sequence: each step exactly once, in this order.
pub open spec fn spec_bootstrap_sequence() -> Seq<BootstrapStep> {
    seq![
        BootstrapStep::CreateEnvironment,
        BootstrapStep::CreateServerHandle,
        BootstrapStep::CreateErrorHandle,
        BootstrapStep::CreateServiceHandle,
        BootstrapStep::CreateSessionHandle,
        BootstrapStep::ConnectToDatabase,
        BootstrapStep::SetServerInService,
        BootstrapStep::SetUserNameInSession,
        BootstrapStep::SetPasswordInSession,
        BootstrapStep::StartSession,
        BootstrapStep::SetSessionInService,
    ]
}

/// The steps a driver performs, in order, to open a connection.
pub fn bootstrap_sequence() -> (r: Vec<BootstrapStep>)
    ensures
        r@ == spec_bootstrap_sequence(),
{
    let mut steps: Vec<BootstrapStep> = Vec::new();
    steps.push(BootstrapStep::CreateEnvironment);
    steps.push(BootstrapStep::CreateServerHandle);
    steps.push(BootstrapStep::CreateErrorHandle);
    steps.push(BootstrapStep::CreateServiceHandle);
    steps.push(BootstrapStep::CreateSessionHandle);
    steps.push(BootstrapStep::ConnectToDatabase);
    steps.push(BootstrapStep::SetServerInService);
    steps.push(BootstrapStep::SetUserNameInSession);
    steps.push(BootstrapStep::SetPasswordInSession);
    steps.push(BootstrapStep::StartSession);
    steps.push(BootstrapStep::SetSessionInService);
    proof {
        assert(steps@ =~= spec_bootstrap_sequence());
    }
    steps
}

/// What a connection is opened with: the database to attach to and the
/// credentials the session starts under. A driver pairs this with the
/// handles the bootstrap sequence allocates; whether the database accepts
/// the attach and the credentials is the server's decision, reported
/// through its own error records.
#[derive(Clone, Debug)]
pub struct Connection {
    connection_str: String,
    user_name: String,
    password: String,
}

impl Connection {
    pub closed spec fn spec_connection_str(&self) -> Seq<char> {
        self.connection_str@
    }

    pub closed spec fn spec_user_name(&self) -> Seq<char> {
        self.user_name@
    }

    pub closed spec fn spec_password(&self) -> Seq<char> {
        self.password@
    }

    /// Creates a new `Connection` core from its settings. Every setting
    /// is acceptable here: the server alone can refuse one, and does so
    /// only once the bootstrap sequence reaches it.
    pub fn new(connection_str: &str, user_name: &str, password: &str) -> (r: Result<
        Connection,
        OciError,
    >)
        ensures
            r matches Ok(c) && c.spec_connection_str() == connection_str@
                && c.spec_user_name() == user_name@ && c.spec_password() == password@,
    {
        Ok(
            Connection {
                connection_str: String::from_str(connection_str),
                user_name: String::from_str(user_name),
                password: String::from_str(password),
            },
        )
    }

    /// The database this connection attaches to.
    pub fn connection_str(&self) -> (r: &str)
        ensures
            r@ == self.spec_connection_str(),
    {
        self.connection_str.as_str()
    }

    /// The user the session authenticates as.
    pub fn user_name(&self) -> (r: &str)
        ensures
            r@ == self.spec_user_name(),
    {
        self.user_name.as_str()
    }

    /// The password the session authenticates with.
    pub fn password(&self) -> (r: &str)
        ensures
            r@ == self.spec_password(),
    {
        self.password.as_str()
    }
}

} // verus!
