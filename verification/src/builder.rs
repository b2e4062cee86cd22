//! The staged builder. Setters collect overrides, the last write winning; a
//! builder that has a version can be built. Building resolves platform,
//! version, image, directories and ports in that order and stops at the first
//! failure. Where a stage needs work that only the caller can do, the build
//! pauses and names it; `advance` takes the outcome and goes on.

use crate::address::{resolved_address, resolved_port, resolve_port, IpAddress, SocketAddress};
use crate::directory::{
    binary_default, binary_home, chosen_directory, data_default, data_home, home_defaults,
    pick_directory, text_opt, HomeDefaults, HomeModel,
};
use crate::errors::{
    lifted, seen, DatabaseConfigError, Failure, FailureModel, ImageConfigError,
};
use crate::extras::Extras;
use crate::image::{
    is_archive_name, release_url, release_url_is_archive, validated, FileProbe, Image, ImageModel,
};
use crate::options::{extras_opt, DatabaseOptions, ImageOptions, ImageOptionsModel, OptionsModel};
use crate::socket_text::{parse_socket, parsed};
use crate::system::{SysType, System};
use crate::version::{resolved_version, NoVersion, Tag, Version, VersionModel};
use vstd::prelude::*;

verus! {

/// Collects the overrides of a configuration. `S` says whether a version was
/// given: `NoVersion`, or `Version`. Only a builder with a version can be
/// built.
#[derive(Debug, PartialEq, Eq, Hash)]
pub struct DatabaseBuilder<S> {
    version: S,
    bin: Option<String>,
    data: Option<String>,
    target: Option<Image>,
    system: SysType,
    addr: Option<SocketAddress>,
    grcp: Option<u16>,
    extra: Option<Extras>,
}

/// What a builder holds besides its version.
pub struct BuilderModel {
    pub bin: Option<Seq<char>>,
    pub data: Option<Seq<char>>,
    pub target: Option<ImageModel>,
    pub system: SysType,
    pub addr: Option<SocketAddress>,
    pub grcp: Option<u16>,
    pub extra: Option<Map<Seq<char>, Seq<char>>>,
}

/// An optional image, seen as what it stands for.
pub open spec fn image_opt(o: Option<Image>) -> Option<ImageModel> {
    match o {
        Some(image) => Some(image@),
        None => None,
    }
}

impl<S> View for DatabaseBuilder<S> {
    type V = BuilderModel;

    closed spec fn view(&self) -> BuilderModel {
        BuilderModel {
            bin: text_opt(self.bin),
            data: text_opt(self.data),
            target: image_opt(self.target),
            system: self.system,
            addr: self.addr,
            grcp: self.grcp,
            extra: extras_opt(self.extra),
        }
    }
}

/// A builder with nothing set.
pub open spec fn blank() -> BuilderModel {
    BuilderModel {
        bin: None,
        data: None,
        target: None,
        system: SysType::Any,
        addr: None,
        grcp: None,
        extra: None,
    }
}

/// The version that `default_version` asks for.
pub open spec fn default_tag() -> Seq<char> {
    "v1.21.1"@
}

impl DatabaseBuilder<NoVersion> {
    /// A builder with nothing set.
    pub fn new() -> (builder: Self)
        ensures
            builder@ == blank(),
    {
        DatabaseBuilder {
            version: NoVersion,
            bin: None,
            data: None,
            target: None,
            system: SysType::Any,
            addr: None,
            grcp: None,
            extra: None,
        }
    }
}

impl Default for DatabaseBuilder<NoVersion> {
    /// A builder with nothing set.
    fn default() -> (builder: Self)
        ensures
            builder@ == blank(),
    {
        DatabaseBuilder::new()
    }
}

impl<S> DatabaseBuilder<S> {
    /// Asks for a version: the text `latest` for the newest release, any other
    /// text as an explicit tag.
    pub fn version(self, tag: &str) -> (builder: DatabaseBuilder<Version>)
        ensures
            builder@ == self@,
            builder.chosen() == if tag@ == "latest"@ {
                VersionModel::Latest
            } else {
                VersionModel::Tag(tag@)
            },
    {
        DatabaseBuilder {
            version: Version::new(tag),
            bin: self.bin,
            data: self.data,
            target: self.target,
            system: self.system,
            addr: self.addr,
            grcp: self.grcp,
            extra: self.extra,
        }
    }

    /// Asks for the newest release.
    pub fn latest_version(self) -> (builder: DatabaseBuilder<Version>)
        ensures
            builder@ == self@,
            builder.chosen() == VersionModel::Latest,
    {
        DatabaseBuilder {
            version: Version::Latest,
            bin: self.bin,
            data: self.data,
            target: self.target,
            system: self.system,
            addr: self.addr,
            grcp: self.grcp,
            extra: self.extra,
        }
    }

    /// Asks for the version that is known to work with this library.
    pub fn default_version(self) -> (builder: DatabaseBuilder<Version>)
        ensures
            builder@ == self@,
            builder.chosen() == VersionModel::Tag(default_tag()),
    {
        DatabaseBuilder {
            version: Version::Tag(String::from_str("v1.21.1")),
            bin: self.bin,
            data: self.data,
            target: self.target,
            system: self.system,
            addr: self.addr,
            grcp: self.grcp,
            extra: self.extra,
        }
    }

    /// Takes the artifact from a local archive.
    pub fn target_file(self, path: &str) -> (builder: Self)
        ensures
            builder@ == (BuilderModel { target: Some(ImageModel::Local(path@)), ..self@ }),
            builder.held() == self.held(),
    {
        let mut builder = self;
        builder.target = Some(Image::Local(String::from_str(path)));
        builder
    }

    /// Takes the artifact from an address.
    pub fn target_url(self, url: &str) -> (builder: Self)
        ensures
            builder@ == (BuilderModel { target: Some(ImageModel::Url(url@)), ..self@ }),
            builder.held() == self.held(),
    {
        let mut builder = self;
        builder.target = Some(Image::Url(String::from_str(url)));
        builder
    }

    /// Fixes the platform, or leaves it to the host with `SysType::Any`.
    pub fn system_type(self, sys: SysType) -> (builder: Self)
        ensures
            builder@ == (BuilderModel { system: sys, ..self@ }),
            builder.held() == self.held(),
    {
        let mut builder = self;
        builder.system = sys;
        builder
    }

    /// Sets the data directory.
    pub fn data_directory(self, path: &str) -> (builder: Self)
        ensures
            builder@ == (BuilderModel { data: Some(path@), ..self@ }),
            builder.held() == self.held(),
    {
        let mut builder = self;
        builder.data = Some(String::from_str(path));
        builder
    }

    /// Sets the directory of the binary cache.
    pub fn binary_directory(self, path: &str) -> (builder: Self)
        ensures
            builder@ == (BuilderModel { bin: Some(path@), ..self@ }),
            builder.held() == self.held(),
    {
        let mut builder = self;
        builder.bin = Some(String::from_str(path));
        builder
    }

    /// Sets the secondary port.
    pub fn grcp_port(self, port: u16) -> (builder: Self)
        ensures
            builder@ == (BuilderModel { grcp: Some(port), ..self@ }),
            builder.held() == self.held(),
    {
        let mut builder = self;
        builder.grcp = Some(port);
        builder
    }

    /// Sets the extra overrides.
    pub fn extras(self, data: Extras) -> (builder: Self)
        ensures
            builder@ == (BuilderModel { extra: Some(data@), ..self@ }),
            builder.held() == self.held(),
    {
        let mut builder = self;
        builder.extra = Some(data);
        builder
    }

    /// The version marker or the version that the builder holds.
    pub closed spec fn held(&self) -> S {
        self.version
    }
}

/// The forms in which an image target can be given.
pub trait TargetBuildExt<T>: Sized {
    /// The builder with the target that `input` stands for.
    fn target(self, input: T) -> Self;
}

impl<S> TargetBuildExt<Image> for DatabaseBuilder<S> {
    /// Takes the artifact from the given source.
    fn target(self, input: Image) -> (builder: Self)
        ensures
            builder@ == (BuilderModel { target: Some(input@), ..self@ }),
            builder.held() == self.held(),
    {
        let mut builder = self;
        builder.target = Some(input);
        builder
    }
}

/// The forms in which a bind address can be given.
pub trait SocketAddrExt<T>: Sized {
    /// The builder with the address that `input` stands for.
    fn address(self, input: T) -> Self;
}

impl<S> SocketAddrExt<SocketAddress> for DatabaseBuilder<S> {
    /// Sets the bind address.
    fn address(self, input: SocketAddress) -> (builder: Self)
        ensures
            builder@ == (BuilderModel { addr: Some(input), ..self@ }),
            builder.held() == self.held(),
    {
        let mut builder = self;
        builder.addr = Some(input);
        builder
    }
}

impl<S> SocketAddrExt<(IpAddress, u16)> for DatabaseBuilder<S> {
    /// Sets the bind address from a host and a port.
    fn address(self, input: (IpAddress, u16)) -> (builder: Self)
        ensures
            builder@ == (BuilderModel {
                addr: Some(SocketAddress { ip: input.0, port: input.1 }),
                ..self@
            }),
            builder.held() == self.held(),
    {
        let mut builder = self;
        builder.addr = Some(SocketAddress::new(input.0, input.1));
        builder
    }
}

impl<S> SocketAddrExt<IpAddress> for DatabaseBuilder<S> {
    /// Sets the bind address from a host alone, on the default REST port.
    fn address(self, input: IpAddress) -> (builder: Self)
        ensures
            builder@ == (BuilderModel {
                addr: Some(SocketAddress { ip: input, port: crate::address::REST_PORT }),
                ..self@
            }),
            builder.held() == self.held(),
    {
        let mut builder = self;
        builder.addr = Some(SocketAddress::on_default_port(input));
        builder
    }
}

impl<'a, S> SocketAddrExt<&'a str> for DatabaseBuilder<S> {
    /// Sets the bind address from its text form. A text that writes no
    /// address takes the builder back to the default.
    fn address(self, input: &'a str) -> (builder: Self)
        ensures
            builder@ == (BuilderModel { addr: parsed(input@), ..self@ }),
            builder.held() == self.held(),
    {
        let mut builder = self;
        builder.addr = parse_socket(input);
        builder
    }
}

impl DatabaseBuilder<Version> {
    /// The version that was asked for.
    pub open spec fn chosen(&self) -> VersionModel {
        self.held()@
    }
}

/// The outside work that a build is waiting for, with what was resolved so
/// far.
#[derive(Debug, PartialEq, Eq, Hash)]
pub enum Pending {
    /// The newest release's tag has to be fetched from the registry.
    LatestTag { system: System, draft: DatabaseBuilder<NoVersion>, home: HomeDefaults },
    /// The local archive at `path` has to be looked at.
    FileProbe {
        system: System,
        tag: Tag,
        path: String,
        draft: DatabaseBuilder<NoVersion>,
        home: HomeDefaults,
    },
    /// The binary directory of `options` has to be created, with its
    /// parents.
    BinaryDirectory { options: DatabaseOptions },
    /// The data directory of `options` has to be created, with its parents.
    DataDirectory { options: DatabaseOptions },
}

/// The outcome of the work that a build was waiting for.
#[derive(Debug, PartialEq, Eq, Hash)]
pub enum Outcome {
    /// The tag that the registry returned; `None` where the fetch failed.
    LatestTag(Option<String>),
    /// What the file system says of the local archive.
    FileProbe(FileProbe),
    /// Whether the directory exists now.
    Directory(bool),
}

/// Where a build stands.
#[derive(Debug, PartialEq, Eq, Hash)]
pub enum Step {
    /// Outside work is needed before the build can go on.
    Await(Pending),
    /// The configuration is frozen.
    Done(DatabaseOptions),
    /// The build failed, at the first stage that could not be resolved.
    Failed(Failure<DatabaseConfigError>),
}

/// What `Pending` stands for.
pub enum PendingModel {
    LatestTag { system: System, draft: BuilderModel, home: HomeModel },
    FileProbe { system: System, tag: Seq<char>, path: Seq<char>, draft: BuilderModel, home: HomeModel },
    BinaryDirectory { options: OptionsModel },
    DataDirectory { options: OptionsModel },
}

/// What `Outcome` stands for.
pub enum OutcomeModel {
    LatestTag(Option<Seq<char>>),
    FileProbe(FileProbe),
    Directory(bool),
}

/// What `Step` stands for.
pub enum StepModel {
    Await(PendingModel),
    Done(OptionsModel),
    Failed(FailureModel<DatabaseConfigError>),
}

impl View for Pending {
    type V = PendingModel;

    open spec fn view(&self) -> PendingModel {
        match self {
            Pending::LatestTag { system, draft, home } => PendingModel::LatestTag {
                system: *system,
                draft: draft@,
                home: home@,
            },
            Pending::FileProbe { system, tag, path, draft, home } => PendingModel::FileProbe {
                system: *system,
                tag: tag@,
                path: path@,
                draft: draft@,
                home: home@,
            },
            Pending::BinaryDirectory { options } => PendingModel::BinaryDirectory {
                options: options@,
            },
            Pending::DataDirectory { options } => PendingModel::DataDirectory { options: options@ },
        }
    }
}

impl View for Outcome {
    type V = OutcomeModel;

    open spec fn view(&self) -> OutcomeModel {
        match self {
            Outcome::LatestTag(fetched) => OutcomeModel::LatestTag(text_opt(*fetched)),
            Outcome::FileProbe(probe) => OutcomeModel::FileProbe(*probe),
            Outcome::Directory(created) => OutcomeModel::Directory(*created),
        }
    }
}

impl View for Step {
    type V = StepModel;

    open spec fn view(&self) -> StepModel {
        match self {
            Step::Await(pending) => StepModel::Await(pending@),
            Step::Done(options) => StepModel::Done(options@),
            Step::Failed(failure) => StepModel::Failed(failure@),
        }
    }
}

/// A failed step.
pub open spec fn failed(error: DatabaseConfigError, subject: Seq<char>) -> StepModel {
    StepModel::Failed(FailureModel { error, subject })
}

/// The directory and port stages: both directories are picked, the endpoints
/// take their defaults where none was chosen, and the build waits for the
/// binary directory to be created. A default that is needed and could not be
/// expanded fails the build and is its subject.
pub open spec fn directories_step(
    image: ImageOptionsModel,
    draft: BuilderModel,
    home: HomeModel,
) -> StepModel {
    match chosen_directory(draft.bin, home.binary, binary_default()) {
        Err(failure) => StepModel::Failed(failure),
        Ok(bin) => match chosen_directory(draft.data, home.data, data_default()) {
            Err(failure) => StepModel::Failed(failure),
            Ok(data) => StepModel::Await(
                PendingModel::BinaryDirectory {
                    options: OptionsModel {
                        data_dir: data,
                        binary_dir: bin,
                        image,
                        addr: resolved_address(draft.addr),
                        grcp: resolved_port(draft.grcp),
                        additional: draft.extra,
                    },
                },
            ),
        },
    }
}

/// What follows the verdict on the image target.
pub open spec fn checked_step(
    system: System,
    tag: Seq<char>,
    image: Result<ImageModel, FailureModel<ImageConfigError>>,
    draft: BuilderModel,
    home: HomeModel,
) -> StepModel {
    match image {
        Err(failure) => StepModel::Failed(lifted(failure)),
        Ok(target) => directories_step(
            ImageOptionsModel { target, version: tag, system },
            draft,
            home,
        ),
    }
}

/// The image stage: a local target makes the build wait for a look at the
/// file; an address is checked, and a missing target synthesized, at once.
pub open spec fn image_step(
    system: System,
    tag: Seq<char>,
    draft: BuilderModel,
    home: HomeModel,
) -> StepModel {
    match draft.target {
        Some(ImageModel::Local(path)) => StepModel::Await(
            PendingModel::FileProbe {
                system,
                tag,
                path,
                draft: BuilderModel { target: None, ..draft },
                home,
            },
        ),
        Some(ImageModel::Url(url)) => checked_step(
            system,
            tag,
            validated(ImageModel::Url(url), FileProbe { exists: false, is_file: false }),
            draft,
            home,
        ),
        None => directories_step(
            ImageOptionsModel {
                target: ImageModel::Url(release_url(tag, system)),
                version: tag,
                system,
            },
            draft,
            home,
        ),
    }
}

/// What follows the resolution of the version.
pub open spec fn version_step(
    system: System,
    tag: Result<Seq<char>, FailureModel<ImageConfigError>>,
    draft: BuilderModel,
    home: HomeModel,
) -> StepModel {
    match tag {
        Err(failure) => StepModel::Failed(lifted(failure)),
        Ok(tag) => image_step(system, tag, draft, home),
    }
}

/// The first step of a build: the platform is resolved, then an explicit tag
/// at once, while the newest release makes the build wait for its tag.
pub open spec fn build_step(
    version: VersionModel,
    draft: BuilderModel,
    home: HomeModel,
    family: Seq<char>,
    os: Seq<char>,
    arch: Seq<char>,
) -> StepModel {
    match draft.system.resolved(family, os, arch) {
        Err(failure) => StepModel::Failed(lifted(failure)),
        Ok(system) => match version {
            VersionModel::Latest => StepModel::Await(
                PendingModel::LatestTag { system, draft, home },
            ),
            VersionModel::Tag(_) => version_step(
                system,
                resolved_version(version, None),
                draft,
                home,
            ),
        },
    }
}

/// The step that follows an outcome. A directory that could not be created is
/// the subject of the failure. An outcome of another kind than the one awaited
/// fails the build.
pub open spec fn advance_step(pending: PendingModel, outcome: OutcomeModel) -> StepModel {
    match (pending, outcome) {
        (
            PendingModel::LatestTag { system, draft, home },
            OutcomeModel::LatestTag(fetched),
        ) => version_step(system, resolved_version(VersionModel::Latest, fetched), draft, home),
        (
            PendingModel::FileProbe { system, tag, path, draft, home },
            OutcomeModel::FileProbe(probe),
        ) => checked_step(system, tag, validated(ImageModel::Local(path), probe), draft, home),
        (PendingModel::BinaryDirectory { options }, OutcomeModel::Directory(created)) => if created {
            StepModel::Await(PendingModel::DataDirectory { options })
        } else {
            failed(DatabaseConfigError::DirectoryError, options.binary_dir)
        },
        (PendingModel::DataDirectory { options }, OutcomeModel::Directory(created)) => if created {
            StepModel::Done(options)
        } else {
            failed(DatabaseConfigError::DirectoryError, options.data_dir)
        },
        _ => failed(DatabaseConfigError::Generic, Seq::empty()),
    }
}

/// A failed step about a value.
fn fail(error: DatabaseConfigError, subject: &str) -> (step: Step)
    ensures
        step@ == failed(error, subject@),
{
    Step::Failed(Failure::about(error, subject))
}

/// The step after an outcome that was not awaited.
fn unexpected() -> (step: Step)
    ensures
        step@ == failed(DatabaseConfigError::Generic, Seq::empty()),
{
    Step::Failed(Failure { error: DatabaseConfigError::Generic, subject: String::new() })
}

/// Picks the directories, resolves the ports and waits for the binary
/// directory.
fn directories_stage(image: ImageOptions, draft: DatabaseBuilder<NoVersion>, home: HomeDefaults) -> (step:
    Step)
    ensures
        step@ == directories_step(image@, draft@, home@),
{
    match pick_directory(draft.bin, home.binary, binary_home()) {
        Err(failure) => Step::Failed(failure),
        Ok(bin) => match pick_directory(draft.data, home.data, data_home()) {
            Err(failure) => Step::Failed(failure),
            Ok(data) => {
                let addr = SocketAddress::resolve(draft.addr);
                let grcp = resolve_port(draft.grcp);
                let options = DatabaseOptions::new(data, bin, image, addr, grcp, draft.extra);
                Step::Await(Pending::BinaryDirectory { options })
            },
        },
    }
}

/// Goes on from the verdict on the image target.
fn checked_stage(
    system: System,
    tag: Tag,
    image: Result<Image, Failure<ImageConfigError>>,
    draft: DatabaseBuilder<NoVersion>,
    home: HomeDefaults,
) -> (step: Step)
    requires
        match image {
            Ok(target) => is_archive_name(target@.name()),
            Err(_) => true,
        },
    ensures
        step@ == checked_step(system, tag@, seen(image), draft@, home@),
{
    match image {
        Err(failure) => Step::Failed(failure.lift()),
        Ok(target) => directories_stage(ImageOptions::new(target, tag, system), draft, home),
    }
}

/// Resolves the image target, or waits for a look at a local one.
fn image_stage(system: System, tag: Tag, draft: DatabaseBuilder<NoVersion>, home: HomeDefaults) -> (step:
    Step)
    ensures
        step@ == image_step(system, tag@, draft@, home@),
{
    let mut draft = draft;
    let target = draft.target;
    draft.target = None;
    match target {
        Some(Image::Local(path)) => Step::Await(
            Pending::FileProbe { system, tag, path, draft, home },
        ),
        Some(Image::Url(url)) => {
            let probe = FileProbe { exists: false, is_file: false };
            let image = Image::Url(url).validate(probe);
            checked_stage(system, tag, image, draft, home)
        },
        None => {
            proof {
                release_url_is_archive(tag@, system);
            }
            let target = Image::synthesize(tag.as_str(), system);
            directories_stage(ImageOptions::new(target, tag, system), draft, home)
        },
    }
}

/// Goes on from the resolution of the version.
fn version_stage(
    system: System,
    tag: Result<Tag, Failure<ImageConfigError>>,
    draft: DatabaseBuilder<NoVersion>,
    home: HomeDefaults,
) -> (step: Step)
    ensures
        step@ == version_step(system, seen(tag), draft@, home@),
{
    match tag {
        Err(failure) => Step::Failed(failure.lift()),
        Ok(tag) => image_stage(system, tag, draft, home),
    }
}

impl DatabaseBuilder<Version> {
    /// Starts the build with the given expansions of the home-relative
    /// defaults: resolves as far as no outside work is needed.
    pub fn build_with(self, family: &str, os: &str, arch: &str, home: HomeDefaults) -> (step: Step)
        ensures
            step@ == build_step(self.chosen(), self@, home@, family@, os@, arch@),
    {
        let version = self.version;
        let draft = DatabaseBuilder {
            version: NoVersion,
            bin: self.bin,
            data: self.data,
            target: self.target,
            system: self.system,
            addr: self.addr,
            grcp: self.grcp,
            extra: self.extra,
        };
        match draft.system.build(family, os, arch) {
            Err(failure) => Step::Failed(failure.lift()),
            Ok(system) => {
                if version.is_latest() {
                    Step::Await(Pending::LatestTag { system, draft, home })
                } else {
                    version_stage(system, version.resolve(None), draft, home)
                }
            },
        }
    }

    /// Starts the build on the host described by its family, system and
    /// architecture. The home-relative defaults are expanded in the current
    /// environment; the step is the one that `build_with` takes for whatever
    /// the expansion gave.
    pub fn build(self, family: &str, os: &str, arch: &str) -> (step: Step)
        ensures
            exists|home: HomeModel| #[trigger]
                build_step(self.chosen(), self@, home, family@, os@, arch@) == step@,
    {
        let home = home_defaults();
        let ghost model = home@;
        let step = self.build_with(family, os, arch, home);
        assert(build_step(self.chosen(), self@, model, family@, os@, arch@) == step@);
        step
    }
}

impl Pending {
    /// Takes the outcome of the work that the build was waiting for and goes
    /// on to the next step.
    pub fn advance(self, outcome: Outcome) -> (step: Step)
        ensures
            step@ == advance_step(self@, outcome@),
    {
        match self {
            Pending::LatestTag { system, draft, home } => match outcome {
                Outcome::LatestTag(Some(text)) => {
                    let tag = Version::Latest.resolve(Some(text.as_str()));
                    version_stage(system, tag, draft, home)
                },
                Outcome::LatestTag(None) => {
                    let tag = Version::Latest.resolve(None);
                    version_stage(system, tag, draft, home)
                },
                _ => unexpected(),
            },
            Pending::FileProbe { system, tag, path, draft, home } => match outcome {
                Outcome::FileProbe(probe) => {
                    let image = Image::Local(path).validate(probe);
                    checked_stage(system, tag, image, draft, home)
                },
                _ => unexpected(),
            },
            Pending::BinaryDirectory { options } => match outcome {
                Outcome::Directory(created) => {
                    if created {
                        Step::Await(Pending::DataDirectory { options })
                    } else {
                        fail(DatabaseConfigError::DirectoryError, options.binary_dir())
                    }
                },
                _ => unexpected(),
            },
            Pending::DataDirectory { options } => match outcome {
                Outcome::Directory(created) => {
                    if created {
                        Step::Done(options)
                    } else {
                        fail(DatabaseConfigError::DirectoryError, options.data_dir())
                    }
                },
                _ => unexpected(),
            },
        }
    }
}

} // verus!
