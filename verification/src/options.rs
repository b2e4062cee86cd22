//! The frozen configuration: what a completed build hands to provisioning and
//! to the start of the service. Its parts can be read and never changed.

use crate::address::SocketAddress;
use crate::extras::Extras;
use crate::image::{is_archive_name, Image, ImageModel};
use crate::system::System;
use crate::version::{is_stored, Tag};
use vstd::prelude::*;

verus! {

/// The resolved artifact: its source, its version and its platform.
#[derive(Debug, PartialEq, Eq, Hash)]
pub struct ImageOptions {
    target: Image,
    version: Tag,
    system: System,
}

/// What `ImageOptions` stands for.
pub struct ImageOptionsModel {
    pub target: ImageModel,
    pub version: Seq<char>,
    pub system: System,
}

impl View for ImageOptions {
    type V = ImageOptionsModel;

    closed spec fn view(&self) -> ImageOptionsModel {
        ImageOptionsModel { target: self.target@, version: self.version@, system: self.system }
    }
}

impl ImageOptions {
    #[verifier::type_invariant]
    spec fn names_archive(&self) -> bool {
        is_archive_name(self.target@.name())
    }

    /// Puts the three resolved parts together.
    pub(crate) fn new(target: Image, version: Tag, system: System) -> (image: ImageOptions)
        requires
            is_archive_name(target@.name()),
        ensures
            image@ == (ImageOptionsModel { target: target@, version: version@, system }),
    {
        ImageOptions { target, version, system }
    }

    /// The source of the artifact. Its name ends in an archive suffix.
    pub fn target(&self) -> (target: &Image)
        ensures
            target@ == self@.target,
            is_archive_name(target@.name()),
    {
        proof {
            use_type_invariant(self);
        }
        &self.target
    }

    /// The version tag. It is a stored tag, never the sentinel `latest`.
    pub fn version(&self) -> (tag: &str)
        ensures
            tag@ == self@.version,
            is_stored(tag@),
            tag@ != "latest"@,
    {
        self.version.as_str()
    }

    /// The platform.
    pub fn system(&self) -> (system: System)
        ensures
            system == self@.system,
    {
        self.system
    }
}

/// The frozen configuration.
#[derive(Debug, PartialEq, Eq, Hash)]
pub struct DatabaseOptions {
    data_dir: String,
    binary_dir: String,
    image: ImageOptions,
    addr: SocketAddress,
    grcp: u16,
    additional: Option<Extras>,
}

/// What `DatabaseOptions` stands for.
pub struct OptionsModel {
    pub data_dir: Seq<char>,
    pub binary_dir: Seq<char>,
    pub image: ImageOptionsModel,
    pub addr: SocketAddress,
    pub grcp: u16,
    pub additional: Option<Map<Seq<char>, Seq<char>>>,
}

/// Optional overrides, seen as the map they stand for.
pub open spec fn extras_opt(o: Option<Extras>) -> Option<Map<Seq<char>, Seq<char>>> {
    match o {
        Some(extras) => Some(extras@),
        None => None,
    }
}

impl View for DatabaseOptions {
    type V = OptionsModel;

    closed spec fn view(&self) -> OptionsModel {
        OptionsModel {
            data_dir: self.data_dir@,
            binary_dir: self.binary_dir@,
            image: self.image@,
            addr: self.addr,
            grcp: self.grcp,
            additional: extras_opt(self.additional),
        }
    }
}

impl DatabaseOptions {
    /// Puts the resolved parts together.
    pub(crate) fn new(
        data_dir: String,
        binary_dir: String,
        image: ImageOptions,
        addr: SocketAddress,
        grcp: u16,
        additional: Option<Extras>,
    ) -> (options: DatabaseOptions)
        ensures
            options@ == (OptionsModel {
                data_dir: data_dir@,
                binary_dir: binary_dir@,
                image: image@,
                addr,
                grcp,
                additional: extras_opt(additional),
            }),
    {
        DatabaseOptions { data_dir, binary_dir, image, addr, grcp, additional }
    }

    /// The data directory.
    pub fn data_dir(&self) -> (dir: &str)
        ensures
            dir@ == self@.data_dir,
    {
        self.data_dir.as_str()
    }

    /// The directory of the binary cache.
    pub fn binary_dir(&self) -> (dir: &str)
        ensures
            dir@ == self@.binary_dir,
    {
        self.binary_dir.as_str()
    }

    /// The resolved artifact.
    pub fn image(&self) -> (image: &ImageOptions)
        ensures
            image@ == self@.image,
    {
        &self.image
    }

    /// The address the service binds.
    pub fn addr(&self) -> (addr: SocketAddress)
        ensures
            addr == self@.addr,
    {
        self.addr
    }

    /// The secondary port.
    pub fn grcp(&self) -> (port: u16)
        ensures
            port == self@.grcp,
    {
        self.grcp
    }

    /// The extra overrides, if any were given.
    pub fn additional(&self) -> (extras: Option<&Extras>)
        ensures
            match extras {
                Some(e) => self@.additional == Some(e@),
                None => self@.additional is None,
            },
    {
        self.additional.as_ref()
    }
}

} // verus!
