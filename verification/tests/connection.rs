use oci_rs::connection::{bootstrap_sequence, BootstrapStep, Connection};

const CONNECTION: &str = "localhost:1521/xe";
const USER: &str = "oci_rs";
const PASSWORD: &str = "test";

#[test]
#[allow(unused_variables)]
fn create_connection() {
    let conn = match Connection::new(CONNECTION, USER, PASSWORD) {
        Ok(conn) => conn,
        Err(err) => panic!("Failed to create a connection: {}", err.describe()),
    };
}

#[test]
fn connection_keeps_its_settings() {
    let conn = Connection::new(CONNECTION, USER, PASSWORD).unwrap();
    assert_eq!(conn.connection_str(), CONNECTION);
    assert_eq!(conn.user_name(), USER);
    assert_eq!(conn.password(), PASSWORD);
}

#[test]
fn bootstrap_runs_handles_first_then_attach_then_session() {
    let steps = bootstrap_sequence();
    assert_eq!(
        steps,
        vec![
            BootstrapStep::CreateEnvironment,
            BootstrapStep::CreateServerHandle,
            BootstrapStep::CreateErrorHandle,
            BootstrapStep::CreateServiceHandle,
            BootstrapStep::CreateSessionHandle,
            BootstrapStep::ConnectToDatabase,
            BootstrapStep::SetServerInService,
            BootstrapStep::SetUserNameInSession,
            BootstrapStep::SetPasswordInSession,
            BootstrapStep::StartSession,
            BootstrapStep::SetSessionInService,
        ]
    );
}
