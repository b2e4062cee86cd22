use weaviate_embedded::address::{
    can_bind, resolve_port, BindAttempt, IpAddress, OsFailure, SocketAddress, GRCP_PORT,
    REST_PORT,
};
use weaviate_embedded::directory::{binary_home, data_home, home_defaults, pick_directory};
use weaviate_embedded::errors::{DatabaseConfigError, DatabaseError, Failure, ImageConfigError};
use weaviate_embedded::foo::{create_foo, Foo};

#[test]
fn default_endpoints() {
    assert_eq!(REST_PORT, 8079);
    assert_eq!(GRCP_PORT, 50060);
    assert_eq!(
        SocketAddress::localhost(),
        SocketAddress { ip: IpAddress::V4(127, 0, 0, 1), port: 8079 }
    );
    assert_eq!(SocketAddress::resolve(None), SocketAddress::localhost());
    let chosen = SocketAddress::new(IpAddress::V6(0, 0, 0, 0, 0, 0, 0, 1), 1234);
    assert_eq!(SocketAddress::resolve(Some(chosen)), chosen);
    assert_eq!(resolve_port(None), 50060);
    assert_eq!(resolve_port(Some(0)), 0);
    assert_eq!(resolve_port(Some(65535)), 65535);
    assert_eq!(
        SocketAddress::on_default_port(IpAddress::V4(0, 0, 0, 0)),
        SocketAddress { ip: IpAddress::V4(0, 0, 0, 0), port: 8079 }
    );
}

#[test]
fn refused_bind_is_unavailable_not_an_error() {
    assert_eq!(can_bind(BindAttempt::Bound), Ok(true));
    assert_eq!(can_bind(BindAttempt::Failed(OsFailure::ConnectionRefused)), Ok(false));
}

#[test]
fn other_bind_failures_are_errors() {
    let error = Err(DatabaseError::TcpError);
    assert_eq!(can_bind(BindAttempt::Failed(OsFailure::PermissionDenied)), error);
    assert_eq!(can_bind(BindAttempt::Failed(OsFailure::AddrInUse)), error);
    assert_eq!(can_bind(BindAttempt::Failed(OsFailure::AddrNotAvailable)), error);
    assert_eq!(can_bind(BindAttempt::Failed(OsFailure::Other)), error);
}

#[test]
fn chosen_directory_wins_over_the_default() {
    assert_eq!(
        pick_directory(Some("/a".to_string()), Some("/b".to_string()), "~/c"),
        Ok("/a".to_string())
    );
    assert_eq!(pick_directory(Some("/a".to_string()), None, "~/c"), Ok("/a".to_string()));
    assert_eq!(pick_directory(None, Some("/b".to_string()), "~/c"), Ok("/b".to_string()));
    assert_eq!(
        pick_directory(None, None, "~/c"),
        Err(Failure { error: DatabaseConfigError::DefaultPathError, subject: "~/c".to_string() })
    );
    assert_eq!(binary_home(), "~/.cache/weaviate-embedded/");
    assert_eq!(data_home(), "~/.local/share/weaviate");
}

#[test]
fn defaults_are_expanded_below_the_home_directory() {
    let home = home_defaults();
    if let Some(binary) = home.binary {
        assert!(!binary.starts_with('~'));
        assert!(binary.ends_with("weaviate-embedded") || binary.ends_with("weaviate-embedded/"));
        assert_ne!(binary, "~/.cache/weaviate-embedded/");
    }
    if let Some(data) = home.data {
        assert!(!data.starts_with('~'));
        assert!(data.ends_with("weaviate"));
        assert_ne!(data, "~/.local/share/weaviate");
    }
}

#[test]
fn error_messages() {
    assert_eq!(
        ImageConfigError::InvalidVersionError.message(),
        "Failed to parse parameters in Image Configuration"
    );
    assert_eq!(
        DatabaseConfigError::DirectoryError.message(),
        "Failed to parse parameters in Database Configuration"
    );
    assert_eq!(DatabaseError::TcpError.message(), "Database Unexpected Error");
    let failure = Failure::about(ImageConfigError::InvalidImageError, "a.txt");
    assert_eq!(failure.subject, "a.txt");
    assert_eq!(
        failure.lift(),
        Failure {
            error: DatabaseConfigError::Image(ImageConfigError::InvalidImageError),
            subject: "a.txt".to_string()
        }
    );
}

#[test]
fn foo_holds_its_number() {
    assert_eq!(create_foo(5).this(), 5);
    assert_eq!(Foo::new(0).this(), 0);
    assert_eq!(create_foo(usize::MAX).this(), usize::MAX);
    assert_eq!(create_foo(3), Foo::new(3));
}
