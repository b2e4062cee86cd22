//! Provisioning and configuration resolution for an embedded Weaviate server.
//!
//! A [`builder::DatabaseBuilder`] collects overrides. Its `build` resolves
//! them, stage by stage, into frozen [`options::DatabaseOptions`]: platform,
//! version, image, directories, ports. [`artifact`] says where the resolved
//! artifact is installed, and [`lifecycle`] takes the service from its start
//! to its stop.
//!
//! The crate decides and never acts: where a stage needs the network, the
//! file system, a socket or a process, it names the work, and the caller
//! performs it and hands the outcome back. What a build comes to for a given
//! world is stated, and proved, in [`frozen`].

pub mod address;
pub mod artifact;
pub mod builder;
pub mod directory;
pub mod errors;
pub mod extras;
pub mod foo;
pub mod frozen;
pub mod image;
pub mod ipv6_text;
pub mod lifecycle;
pub mod options;
pub mod socket_text;
pub mod system;
pub mod text;
pub mod version;
