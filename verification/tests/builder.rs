use std::path::Path;
use weaviate_embedded::address::{IpAddress, SocketAddress};
use weaviate_embedded::builder::{
    DatabaseBuilder, Outcome, Pending, SocketAddrExt, Step, TargetBuildExt,
};
use weaviate_embedded::directory::HomeDefaults;
use weaviate_embedded::errors::{DatabaseConfigError, Failure, ImageConfigError};
use weaviate_embedded::extras::Extras;
use weaviate_embedded::image::{FileProbe, Image};
use weaviate_embedded::options::DatabaseOptions;
use weaviate_embedded::system::{SysType, System};

fn home() -> HomeDefaults {
    HomeDefaults {
        binary: Some("/home/jdoe/.cache/weaviate-embedded/".to_string()),
        data: Some("/home/jdoe/.local/share/weaviate".to_string()),
    }
}

fn no_home() -> HomeDefaults {
    HomeDefaults { binary: None, data: None }
}

fn failure(error: DatabaseConfigError, subject: &str) -> Failure<DatabaseConfigError> {
    Failure { error, subject: subject.to_string() }
}

fn image_failure(error: ImageConfigError, subject: &str) -> Failure<DatabaseConfigError> {
    failure(DatabaseConfigError::Image(error), subject)
}

fn answer(pending: &Pending, fetched: Option<&str>, probe: FileProbe, created: bool) -> Outcome {
    match pending {
        Pending::LatestTag { .. } => Outcome::LatestTag(fetched.map(|t| t.to_string())),
        Pending::FileProbe { .. } => Outcome::FileProbe(probe),
        Pending::BinaryDirectory { .. } => Outcome::Directory(created),
        Pending::DataDirectory { .. } => Outcome::Directory(created),
    }
}

fn drive(
    first: Step,
    fetched: Option<&str>,
    probe: FileProbe,
    created: bool,
) -> Result<DatabaseOptions, Failure<DatabaseConfigError>> {
    let mut step = first;
    loop {
        match step {
            Step::Done(options) => return Ok(options),
            Step::Failed(e) => return Err(e),
            Step::Await(pending) => {
                let outcome = answer(&pending, fetched, probe, created);
                step = pending.advance(outcome);
            }
        }
    }
}

const PRESENT: FileProbe = FileProbe { exists: true, is_file: true };
const ABSENT: FileProbe = FileProbe { exists: false, is_file: false };

#[test]
fn components_check() {
    let path = Path::new("./new_dir/test");
    println!("{:?}", path.metadata());
}

#[test]
fn config2_check() {
    let builder = DatabaseBuilder::new()
        .binary_directory("./binary")
        .grcp_port(100)
        .version("v1.21.1")
        .target_file("this")
        .address("127.0.0.1:80000");

    println!("{:#?}", builder);
}

#[test]
fn end_to_end_with_defaults() {
    let first = DatabaseBuilder::new()
        .version("v1.21.1")
        .build_with("unix", "linux", "x86_64", home());
    let options = drive(first, None, ABSENT, true).unwrap();
    assert_eq!(options.image().version(), "v1.21.1");
    assert_eq!(options.image().system(), System::LinuxX86_64);
    assert_eq!(
        options.image().target(),
        &Image::Url(
            "https://github.com/weaviate/weaviate/releases/download/v1.21.1/weaviate-v1.21.1-linux-amd64.tar.gz"
                .to_string()
        )
    );
    assert_eq!(options.binary_dir(), "/home/jdoe/.cache/weaviate-embedded/");
    assert_eq!(options.data_dir(), "/home/jdoe/.local/share/weaviate");
    assert_eq!(options.addr(), SocketAddress::new(IpAddress::V4(127, 0, 0, 1), 8079));
    assert_eq!(options.grcp(), 50060);
    assert!(options.additional().is_none());
}

#[test]
fn explicit_tag_waits_for_the_directories_only() {
    let first = DatabaseBuilder::new()
        .version("1.21.1")
        .build_with("unix", "macos", "aarch64", home());
    match first {
        Step::Await(Pending::BinaryDirectory { options }) => {
            assert_eq!(options.image().version(), "v1.21.1");
            assert_eq!(options.binary_dir(), "/home/jdoe/.cache/weaviate-embedded/");
            assert_eq!(options.data_dir(), "/home/jdoe/.local/share/weaviate");
        }
        other => panic!("{:?}", other),
    }
}

#[test]
fn default_version_is_a_fixed_tag() {
    let first = DatabaseBuilder::new()
        .default_version()
        .build_with("windows", "windows", "x86_64", home());
    let options = drive(first, None, ABSENT, true).unwrap();
    assert_eq!(options.image().version(), "v1.21.1");
    assert_eq!(
        options.image().target().name(),
        "https://github.com/weaviate/weaviate/releases/download/v1.21.1/weaviate-v1.21.1-windows-amd64.tar.gz"
    );
}

#[test]
fn latest_is_fetched_and_never_stored() {
    let first = DatabaseBuilder::new()
        .latest_version()
        .build_with("unix", "linux", "aarch64", home());
    assert!(matches!(first, Step::Await(Pending::LatestTag { .. })));
    let options = drive(first, Some("v1.25.3"), ABSENT, true).unwrap();
    assert_eq!(options.image().version(), "v1.25.3");
    assert_ne!(options.image().version(), "latest");
    assert_eq!(
        options.image().target().name(),
        "https://github.com/weaviate/weaviate/releases/download/v1.25.3/weaviate-v1.25.3-linux-arm64.tar.gz"
    );

    let by_text = DatabaseBuilder::new()
        .version("latest")
        .build_with("unix", "linux", "aarch64", home());
    assert!(matches!(by_text, Step::Await(Pending::LatestTag { .. })));
}

#[test]
fn every_stage_is_passed_once_and_in_order() {
    let first = DatabaseBuilder::new()
        .latest_version()
        .target_file("/tmp/engine.zip")
        .build_with("unix", "linux", "x86_64", home());
    let pending = match first {
        Step::Await(pending) => pending,
        other => panic!("{:?}", other),
    };
    assert!(matches!(pending, Pending::LatestTag { .. }));
    let pending = match pending.advance(Outcome::LatestTag(Some("1.22.0".to_string()))) {
        Step::Await(pending) => pending,
        other => panic!("{:?}", other),
    };
    assert!(matches!(pending, Pending::FileProbe { .. }));
    let pending = match pending.advance(Outcome::FileProbe(PRESENT)) {
        Step::Await(pending) => pending,
        other => panic!("{:?}", other),
    };
    assert!(matches!(pending, Pending::BinaryDirectory { .. }));
    let pending = match pending.advance(Outcome::Directory(true)) {
        Step::Await(pending) => pending,
        other => panic!("{:?}", other),
    };
    assert!(matches!(pending, Pending::DataDirectory { .. }));
    let options = match pending.advance(Outcome::Directory(true)) {
        Step::Done(options) => options,
        other => panic!("{:?}", other),
    };
    assert_eq!(options.image().version(), "v1.22.0");
    assert_eq!(options.image().target(), &Image::Local("/tmp/engine.zip".to_string()));
}

#[test]
fn failed_fetch_is_terminal() {
    let first = DatabaseBuilder::new()
        .latest_version()
        .build_with("unix", "linux", "aarch64", home());
    assert_eq!(
        drive(first, None, ABSENT, true),
        Err(image_failure(ImageConfigError::FetchVersionError, ""))
    );
    let first = DatabaseBuilder::new()
        .latest_version()
        .build_with("unix", "linux", "aarch64", home());
    assert_eq!(
        drive(first, Some("latest"), ABSENT, true),
        Err(image_failure(ImageConfigError::FetchVersionError, "latest"))
    );
}

#[test]
fn unsupported_host_fails_before_anything_else() {
    let first = DatabaseBuilder::new()
        .latest_version()
        .target_file("/nowhere/engine.txt")
        .build_with("unix", "plan9", "mips", no_home());
    assert_eq!(
        first,
        Step::Failed(image_failure(ImageConfigError::UnsupportedArchError, "plan9/mips"))
    );
}

#[test]
fn invalid_tag_fails_before_the_image() {
    let first = DatabaseBuilder::new()
        .version("v1.21")
        .target_file("/nowhere/engine.txt")
        .build_with("unix", "linux", "x86_64", no_home());
    assert_eq!(
        first,
        Step::Failed(image_failure(ImageConfigError::InvalidVersionError, "v1.21"))
    );
}

#[test]
fn macos_host_of_any_architecture_builds() {
    let first = DatabaseBuilder::new()
        .version("v1.21.1")
        .build_with("unix", "macos", "riscv64", home());
    let options = drive(first, None, ABSENT, true).unwrap();
    assert_eq!(options.image().system(), System::MacOS);
    assert_eq!(
        options.image().target().name(),
        "https://github.com/weaviate/weaviate/releases/download/v1.21.1/weaviate-v1.21.1-darwin-all.zip"
    );
}

#[test]
fn platform_override_bypasses_the_host() {
    let first = DatabaseBuilder::new()
        .version("v1.21.1")
        .system_type(SysType::MacOS)
        .build_with("unix", "plan9", "mips", home());
    let options = drive(first, None, ABSENT, true).unwrap();
    assert_eq!(options.image().system(), System::MacOS);
    assert_eq!(
        options.image().target().name(),
        "https://github.com/weaviate/weaviate/releases/download/v1.21.1/weaviate-v1.21.1-darwin-all.zip"
    );
}

#[test]
fn local_target_is_probed() {
    let first = DatabaseBuilder::new()
        .version("v1.21.1")
        .target_file("/tmp/engine.tar.gz")
        .build_with("unix", "linux", "x86_64", home());
    match &first {
        Step::Await(Pending::FileProbe { path, .. }) => assert_eq!(path, "/tmp/engine.tar.gz"),
        other => panic!("{:?}", other),
    }
    let options = drive(first, None, PRESENT, true).unwrap();
    assert_eq!(options.image().target(), &Image::Local("/tmp/engine.tar.gz".to_string()));
}

#[test]
fn local_target_failures_are_told_apart() {
    let missing = DatabaseBuilder::new()
        .version("v1.21.1")
        .target_file("/tmp/engine.tar.gz")
        .build_with("unix", "linux", "x86_64", home());
    assert_eq!(
        drive(missing, None, ABSENT, true),
        Err(image_failure(ImageConfigError::ImageNotFoundError, "/tmp/engine.tar.gz"))
    );
    let text = DatabaseBuilder::new()
        .version("v1.21.1")
        .target_file("/tmp/engine.txt")
        .build_with("unix", "linux", "x86_64", home());
    assert_eq!(
        drive(text, None, PRESENT, true),
        Err(image_failure(ImageConfigError::InvalidImageError, "/tmp/engine.txt"))
    );
}

#[test]
fn url_target_is_checked_at_once() {
    let bad = DatabaseBuilder::new()
        .version("v1.21.1")
        .target_url("https://example.org/engine")
        .build_with("unix", "linux", "x86_64", home());
    assert_eq!(
        bad,
        Step::Failed(image_failure(ImageConfigError::InvalidImageError, "https://example.org/engine"))
    );
    let good = DatabaseBuilder::new()
        .version("v1.21.1")
        .target_url("https://example.org/engine.zip")
        .build_with("unix", "linux", "x86_64", home());
    let options = drive(good, None, ABSENT, true).unwrap();
    assert_eq!(options.image().target().name(), "https://example.org/engine.zip");
}

#[test]
fn last_target_wins() {
    let first = DatabaseBuilder::new()
        .version("v1.21.1")
        .target_file("/tmp/engine.tar.gz")
        .target_url("https://example.org/engine.zip")
        .build_with("unix", "linux", "x86_64", home());
    let options = drive(first, None, ABSENT, true).unwrap();
    assert_eq!(options.image().target(), &Image::Url("https://example.org/engine.zip".to_string()));

    let first = DatabaseBuilder::new()
        .version("v1.21.1")
        .target_url("https://example.org/engine.zip")
        .target_file("/tmp/engine.tar.gz")
        .build_with("unix", "linux", "x86_64", home());
    assert!(matches!(first, Step::Await(Pending::FileProbe { .. })));
}

#[test]
fn target_as_a_value() {
    let first = DatabaseBuilder::new()
        .version("v1.21.1")
        .target(Image::Url("https://example.org/engine.tar.gz".to_string()))
        .build_with("unix", "linux", "x86_64", home());
    let options = drive(first, None, ABSENT, true).unwrap();
    assert_eq!(
        options.image().target(),
        &Image::Url("https://example.org/engine.tar.gz".to_string())
    );
    let first = DatabaseBuilder::new()
        .version("v1.21.1")
        .target(Image::Local("/tmp/engine.zip".to_string()))
        .build_with("unix", "linux", "x86_64", home());
    assert!(matches!(first, Step::Await(Pending::FileProbe { .. })));
}

#[test]
fn last_write_wins() {
    let first = DatabaseBuilder::new()
        .version("v1.0.0")
        .grcp_port(1)
        .grcp_port(2)
        .data_directory("/a")
        .data_directory("/b")
        .binary_directory("/c")
        .binary_directory("/d")
        .version("v1.21.1")
        .build_with("unix", "linux", "x86_64", no_home());
    let options = drive(first, None, ABSENT, true).unwrap();
    assert_eq!(options.grcp(), 2);
    assert_eq!(options.data_dir(), "/b");
    assert_eq!(options.binary_dir(), "/d");
    assert_eq!(options.image().version(), "v1.21.1");
}

#[test]
fn default_builder_is_blank() {
    assert_eq!(DatabaseBuilder::default(), DatabaseBuilder::new());
}

#[test]
fn setters_are_idempotent() {
    let once = DatabaseBuilder::new().grcp_port(7).data_directory("/a").version("v1.2.3");
    let twice = DatabaseBuilder::new()
        .grcp_port(7)
        .grcp_port(7)
        .data_directory("/a")
        .data_directory("/a")
        .version("v1.2.3")
        .version("v1.2.3");
    assert_eq!(once, twice);
}

#[test]
fn missing_home_fails_the_defaults_only() {
    let first = DatabaseBuilder::new()
        .version("v1.21.1")
        .build_with("unix", "linux", "x86_64", no_home());
    assert_eq!(
        first,
        Step::Failed(failure(DatabaseConfigError::DefaultPathError, "~/.cache/weaviate-embedded/"))
    );

    let first = DatabaseBuilder::new()
        .version("v1.21.1")
        .binary_directory("/opt/bin")
        .build_with("unix", "linux", "x86_64", no_home());
    assert_eq!(
        first,
        Step::Failed(failure(DatabaseConfigError::DefaultPathError, "~/.local/share/weaviate"))
    );

    let first = DatabaseBuilder::new()
        .version("v1.21.1")
        .binary_directory("/opt/bin")
        .data_directory("/opt/data")
        .build_with("unix", "linux", "x86_64", no_home());
    let options = drive(first, None, ABSENT, true).unwrap();
    assert_eq!(options.binary_dir(), "/opt/bin");
    assert_eq!(options.data_dir(), "/opt/data");
}

#[test]
fn directories_that_cannot_be_created_fail_the_build() {
    let first = DatabaseBuilder::new()
        .version("v1.21.1")
        .build_with("unix", "linux", "x86_64", home());
    assert_eq!(
        drive(first, None, ABSENT, false),
        Err(failure(DatabaseConfigError::DirectoryError, "/home/jdoe/.cache/weaviate-embedded/"))
    );
    let first = DatabaseBuilder::new()
        .version("v1.21.1")
        .build_with("unix", "linux", "x86_64", home());
    let second = match first {
        Step::Await(pending) => pending.advance(Outcome::Directory(true)),
        other => panic!("{:?}", other),
    };
    match second {
        Step::Await(Pending::DataDirectory { options }) => assert_eq!(
            Pending::DataDirectory { options }.advance(Outcome::Directory(false)),
            Step::Failed(failure(
                DatabaseConfigError::DirectoryError,
                "/home/jdoe/.local/share/weaviate"
            ))
        ),
        other => panic!("{:?}", other),
    }
}

#[test]
fn address_forms() {
    let ip = IpAddress::V4(10, 0, 0, 7);
    let whole = DatabaseBuilder::new()
        .version("v1.21.1")
        .address(SocketAddress::new(ip, 9000))
        .build_with("unix", "linux", "x86_64", home());
    assert_eq!(drive(whole, None, ABSENT, true).unwrap().addr(), SocketAddress { ip, port: 9000 });

    let pair = DatabaseBuilder::new()
        .version("v1.21.1")
        .address((ip, 9001))
        .build_with("unix", "linux", "x86_64", home());
    assert_eq!(drive(pair, None, ABSENT, true).unwrap().addr(), SocketAddress { ip, port: 9001 });

    let host_only = DatabaseBuilder::new()
        .version("v1.21.1")
        .address(ip)
        .build_with("unix", "linux", "x86_64", home());
    assert_eq!(
        drive(host_only, None, ABSENT, true).unwrap().addr(),
        SocketAddress { ip, port: 8079 }
    );

    let text = DatabaseBuilder::new()
        .version("v1.21.1")
        .address("192.168.1.20:8080")
        .build_with("unix", "linux", "x86_64", home());
    assert_eq!(
        drive(text, None, ABSENT, true).unwrap().addr(),
        SocketAddress { ip: IpAddress::V4(192, 168, 1, 20), port: 8080 }
    );

    let unparsed = DatabaseBuilder::new()
        .version("v1.21.1")
        .address((ip, 9001))
        .address("127.0.0.1:80000")
        .build_with("unix", "linux", "x86_64", home());
    assert_eq!(
        drive(unparsed, None, ABSENT, true).unwrap().addr(),
        SocketAddress { ip: IpAddress::V4(127, 0, 0, 1), port: 8079 }
    );
}

#[test]
fn extras_are_carried_over() {
    let extras = Extras::new()
        .insert("LOG_LEVEL".to_string(), "debug".to_string())
        .insert("QUERY_DEFAULTS_LIMIT".to_string(), "20".to_string());
    let first = DatabaseBuilder::new()
        .version("v1.21.1")
        .extras(extras)
        .build_with("unix", "linux", "x86_64", home());
    let options = drive(first, None, ABSENT, true).unwrap();
    let held = options.additional().unwrap();
    assert_eq!(held.len(), 2);
    assert_eq!(held.get("LOG_LEVEL"), Some("debug"));
    assert_eq!(held.get("QUERY_DEFAULTS_LIMIT"), Some("20"));
}

#[test]
fn unexpected_outcome_fails_the_build() {
    let first = DatabaseBuilder::new()
        .latest_version()
        .build_with("unix", "linux", "x86_64", home());
    match first {
        Step::Await(pending) => assert_eq!(
            pending.advance(Outcome::Directory(true)),
            Step::Failed(failure(DatabaseConfigError::Generic, ""))
        ),
        other => panic!("{:?}", other),
    }
    let first = DatabaseBuilder::new()
        .version("v1.21.1")
        .build_with("unix", "linux", "x86_64", home());
    match first {
        Step::Await(pending) => assert_eq!(
            pending.advance(Outcome::FileProbe(PRESENT)),
            Step::Failed(failure(DatabaseConfigError::Generic, ""))
        ),
        other => panic!("{:?}", other),
    }
}

#[test]
fn build_expands_the_defaults_itself() {
    let first = DatabaseBuilder::new()
        .version("v1.21.1")
        .binary_directory("/opt/bin")
        .data_directory("/opt/data")
        .build("unix", "linux", "x86_64");
    let options = drive(first, None, ABSENT, true).unwrap();
    assert_eq!(options.binary_dir(), "/opt/bin");
    assert_eq!(options.data_dir(), "/opt/data");
    assert_eq!(options.image().version(), "v1.21.1");
}
