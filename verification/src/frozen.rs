//! What a build comes to: the frozen configuration as one function of the
//! builder, the host and the world around it, and what holds of every such
//! configuration.

use crate::address::{default_address, resolved_address, resolved_port, GRCP_PORT};
use crate::builder::{
    advance_step, blank, build_step, default_tag, BuilderModel, OutcomeModel, PendingModel,
    StepModel,
};
use crate::directory::{binary_default, chosen_directory, data_default, HomeModel};
use crate::errors::{lifted, DatabaseConfigError, FailureModel};
use crate::image::{
    is_archive_name, release_url, release_url_is_archive, resolved_image, FileProbe, ImageModel,
};
use crate::options::{ImageOptionsModel, OptionsModel};
use crate::system::host_system;
use crate::version::{
    is_stored, normalized, normalized_prefixes_once, resolved_is_stored, resolved_version,
    VersionModel,
};
use vstd::prelude::*;

verus! {

/// What the caller finds when it does the work a build asks for.
pub struct World {
    /// The newest release's tag; `None` where the registry cannot be reached.
    pub fetched: Option<Seq<char>>,
    /// What the file system says of the local archive.
    pub probe: FileProbe,
    /// Whether the binary directory can be created.
    pub binary: bool,
    /// Whether the data directory can be created.
    pub data: bool,
}

/// The outcome that a caller in `world` hands back for the work awaited.
pub open spec fn answer(pending: PendingModel, world: World) -> OutcomeModel {
    match pending {
        PendingModel::LatestTag { .. } => OutcomeModel::LatestTag(world.fetched),
        PendingModel::FileProbe { .. } => OutcomeModel::FileProbe(world.probe),
        PendingModel::BinaryDirectory { .. } => OutcomeModel::Directory(world.binary),
        PendingModel::DataDirectory { .. } => OutcomeModel::Directory(world.data),
    }
}

/// Where a build stands after the caller has answered up to `rounds` times.
pub open spec fn drive(step: StepModel, world: World, rounds: nat) -> StepModel
    decreases rounds,
{
    if rounds == 0 {
        step
    } else {
        match step {
            StepModel::Await(pending) => drive(
                advance_step(pending, answer(pending, world)),
                world,
                (rounds - 1) as nat,
            ),
            _ => step,
        }
    }
}

/// The frozen configuration of a builder on a host in a world: platform,
/// version, image, directories and ports are resolved in this order, and the
/// first failure is the result, with the value that could not be resolved.
pub open spec fn frozen(
    version: VersionModel,
    draft: BuilderModel,
    home: HomeModel,
    family: Seq<char>,
    os: Seq<char>,
    arch: Seq<char>,
    world: World,
) -> Result<OptionsModel, FailureModel<DatabaseConfigError>> {
    match draft.system.resolved(family, os, arch) {
        Err(failure) => Err(lifted(failure)),
        Ok(system) => match resolved_version(version, world.fetched) {
            Err(failure) => Err(lifted(failure)),
            Ok(tag) => match resolved_image(draft.target, world.probe, tag, system) {
                Err(failure) => Err(lifted(failure)),
                Ok(target) => match chosen_directory(draft.bin, home.binary, binary_default()) {
                    Err(failure) => Err(failure),
                    Ok(bin) => match chosen_directory(draft.data, home.data, data_default()) {
                        Err(failure) => Err(failure),
                        Ok(data) => if !world.binary {
                            Err(
                                FailureModel {
                                    error: DatabaseConfigError::DirectoryError,
                                    subject: bin,
                                },
                            )
                        } else if !world.data {
                            Err(
                                FailureModel {
                                    error: DatabaseConfigError::DirectoryError,
                                    subject: data,
                                },
                            )
                        } else {
                            Ok(
                                OptionsModel {
                                    data_dir: data,
                                    binary_dir: bin,
                                    image: ImageOptionsModel { target, version: tag, system },
                                    addr: resolved_address(draft.addr),
                                    grcp: resolved_port(draft.grcp),
                                    additional: draft.extra,
                                },
                            )
                        },
                    },
                },
            },
        },
    }
}

/// How far a step is: the stages are passed in one order.
pub open spec fn progress(step: StepModel) -> nat {
    match step {
        StepModel::Await(PendingModel::LatestTag { .. }) => 1,
        StepModel::Await(PendingModel::FileProbe { .. }) => 2,
        StepModel::Await(PendingModel::BinaryDirectory { .. }) => 3,
        StepModel::Await(PendingModel::DataDirectory { .. }) => 4,
        StepModel::Done(_) => 5,
        StepModel::Failed(_) => 5,
    }
}

/// The step that a finished build shows for a result.
pub open spec fn finished(r: Result<OptionsModel, FailureModel<DatabaseConfigError>>) -> StepModel {
    match r {
        Ok(options) => StepModel::Done(options),
        Err(failure) => StepModel::Failed(failure),
    }
}

/// A build whose caller answers each request from the world is finished after
/// at most four answers, and it finishes with the frozen configuration or
/// with the first failure on the way to it.
pub proof fn build_reaches_frozen(
    version: VersionModel,
    draft: BuilderModel,
    home: HomeModel,
    family: Seq<char>,
    os: Seq<char>,
    arch: Seq<char>,
    world: World,
)
    ensures
        drive(build_step(version, draft, home, family, os, arch), world, 4) == finished(
            frozen(version, draft, home, family, os, arch, world),
        ),
{
    reveal_with_fuel(drive, 5);
}

/// Every outcome takes a build further: no stage is entered twice. So the
/// registry is asked at most once, a local archive is looked at at most once,
/// and each directory is created at most once, after everything else is
/// resolved.
pub proof fn advance_makes_progress(pending: PendingModel, outcome: OutcomeModel)
    ensures
        progress(StepModel::Await(pending)) < progress(advance_step(pending, outcome)),
{
}

/// A build asks the registry only where the newest release was asked for.
pub proof fn explicit_tag_is_not_fetched(
    raw: Seq<char>,
    draft: BuilderModel,
    home: HomeModel,
    family: Seq<char>,
    os: Seq<char>,
    arch: Seq<char>,
)
    ensures
        progress(build_step(VersionModel::Tag(raw), draft, home, family, os, arch)) > 1,
{
}

/// On a host without a supported platform the build fails at once: nothing is
/// fetched, looked at or created, and nothing else the builder holds matters.
pub proof fn unsupported_platform_asks_nothing(
    version: VersionModel,
    draft: BuilderModel,
    home: HomeModel,
    family: Seq<char>,
    os: Seq<char>,
    arch: Seq<char>,
)
    requires
        draft.system.resolved(family, os, arch) is Err,
    ensures
        build_step(version, draft, home, family, os, arch) == StepModel::Failed(
            lifted(draft.system.resolved(family, os, arch)->Err_0),
        ),
{
}

/// An explicit tag that is rejected fails the build before any outside work:
/// no file is looked at and no directory is asked for.
pub proof fn rejected_tag_asks_nothing(
    raw: Seq<char>,
    draft: BuilderModel,
    home: HomeModel,
    family: Seq<char>,
    os: Seq<char>,
    arch: Seq<char>,
)
    requires
        draft.system.resolved(family, os, arch) is Ok,
        resolved_version(VersionModel::Tag(raw), None) is Err,
    ensures
        build_step(VersionModel::Tag(raw), draft, home, family, os, arch) == StepModel::Failed(
            lifted(resolved_version(VersionModel::Tag(raw), None)->Err_0),
        ),
{
}

/// The version of a frozen configuration is a stored tag: it starts with `v`,
/// the pattern engine accepted it, and it is never the sentinel `latest`,
/// whatever version was asked for.
pub proof fn frozen_version_is_concrete(
    version: VersionModel,
    draft: BuilderModel,
    home: HomeModel,
    family: Seq<char>,
    os: Seq<char>,
    arch: Seq<char>,
    world: World,
)
    ensures
        match frozen(version, draft, home, family, os, arch, world) {
            Ok(options) => is_stored(options.image.version) && options.image.version
                != "latest"@,
            Err(_) => true,
        },
{
    resolved_is_stored(version, world.fetched);
}

/// A frozen configuration binds what was chosen. Where no address was chosen
/// it binds the loopback host on the default REST port, and where no secondary
/// port was chosen it has the default one.
pub proof fn frozen_endpoints_default(
    version: VersionModel,
    draft: BuilderModel,
    home: HomeModel,
    family: Seq<char>,
    os: Seq<char>,
    arch: Seq<char>,
    world: World,
)
    ensures
        match frozen(version, draft, home, family, os, arch, world) {
            Ok(options) => {
                &&& draft.addr is None ==> options.addr == default_address()
                &&& draft.addr is Some ==> options.addr == draft.addr->0
                &&& draft.grcp is None ==> options.grcp == GRCP_PORT
                &&& draft.grcp is Some ==> options.grcp == draft.grcp->0
            },
            Err(_) => true,
        },
{
}

/// The image target of a frozen configuration names an archive. Where none was
/// chosen it is the canonical download address of the resolved version for the
/// resolved platform.
pub proof fn frozen_image_is_archive(
    version: VersionModel,
    draft: BuilderModel,
    home: HomeModel,
    family: Seq<char>,
    os: Seq<char>,
    arch: Seq<char>,
    world: World,
)
    ensures
        match frozen(version, draft, home, family, os, arch, world) {
            Ok(options) => {
                &&& is_archive_name(options.image.target.name())
                &&& draft.target is None ==> options.image.target == ImageModel::Url(
                    release_url(options.image.version, options.image.system),
                )
            },
            Err(_) => true,
        },
{
    match frozen(version, draft, home, family, os, arch, world) {
        Ok(options) => {
            release_url_is_archive(options.image.version, options.image.system);
        },
        Err(_) => {},
    }
}

/// A chosen directory is the directory of the frozen configuration; the
/// expanded default stands in where none was chosen.
pub proof fn frozen_directories(
    version: VersionModel,
    draft: BuilderModel,
    home: HomeModel,
    family: Seq<char>,
    os: Seq<char>,
    arch: Seq<char>,
    world: World,
)
    ensures
        match frozen(version, draft, home, family, os, arch, world) {
            Ok(options) => {
                &&& world.binary
                &&& world.data
                &&& draft.bin is Some ==> options.binary_dir == draft.bin->0
                &&& draft.bin is None ==> home.binary == Some(options.binary_dir)
                &&& draft.data is Some ==> options.data_dir == draft.data->0
                &&& draft.data is None ==> home.data == Some(options.data_dir)
            },
            Err(_) => true,
        },
{
}

/// Whether every stage of a build can be resolved: the platform, the
/// version, the image for that version and platform, a directory of each kind,
/// and the creation of both.
pub open spec fn resolvable(
    version: VersionModel,
    draft: BuilderModel,
    home: HomeModel,
    family: Seq<char>,
    os: Seq<char>,
    arch: Seq<char>,
    world: World,
) -> bool {
    &&& draft.system.resolved(family, os, arch) is Ok
    &&& resolved_version(version, world.fetched) is Ok
    &&& resolved_image(
        draft.target,
        world.probe,
        resolved_version(version, world.fetched)->Ok_0,
        draft.system.resolved(family, os, arch)->Ok_0,
    ) is Ok
    &&& (draft.bin is Some || home.binary is Some)
    &&& (draft.data is Some || home.data is Some)
    &&& world.binary
    &&& world.data
}

/// A build succeeds exactly when every stage can be resolved.
pub proof fn frozen_succeeds_exactly(
    version: VersionModel,
    draft: BuilderModel,
    home: HomeModel,
    family: Seq<char>,
    os: Seq<char>,
    arch: Seq<char>,
    world: World,
)
    ensures
        frozen(version, draft, home, family, os, arch, world) is Ok <==> resolvable(
            version,
            draft,
            home,
            family,
            os,
            arch,
            world,
        ),
{
}

/// A builder that holds nothing but an explicit tag which the pattern engine
/// accepts succeeds on every supported host whose home directory is known and
/// whose directories can be created. It asks for the two directories and for
/// nothing else: no registry, no file. Its configuration has the normalised
/// tag, the canonical download address for it, the expanded defaults and the
/// default endpoints.
pub proof fn plain_build_succeeds(
    raw: Seq<char>,
    home: HomeModel,
    family: Seq<char>,
    os: Seq<char>,
    arch: Seq<char>,
    world: World,
)
    requires
        host_system(family, os, arch) is Some,
        resolved_version(VersionModel::Tag(raw), None) is Ok,
        home.binary is Some,
        home.data is Some,
        world.binary,
        world.data,
    ensures
        frozen(VersionModel::Tag(raw), blank(), home, family, os, arch, world) == Ok::<
            OptionsModel,
            FailureModel<DatabaseConfigError>,
        >(
            OptionsModel {
                data_dir: home.data->0,
                binary_dir: home.binary->0,
                image: ImageOptionsModel {
                    target: ImageModel::Url(
                        release_url(normalized(raw), host_system(family, os, arch)->0),
                    ),
                    version: normalized(raw),
                    system: host_system(family, os, arch)->0,
                },
                addr: default_address(),
                grcp: GRCP_PORT,
                additional: None,
            },
        ),
        build_step(VersionModel::Tag(raw), blank(), home, family, os, arch) is Await,
        build_step(
            VersionModel::Tag(raw),
            blank(),
            home,
            family,
            os,
            arch,
        )->Await_0 is BinaryDirectory,
        drive(
            build_step(VersionModel::Tag(raw), blank(), home, family, os, arch),
            world,
            2,
        ) == finished(frozen(VersionModel::Tag(raw), blank(), home, family, os, arch, world)),
        raw == default_tag() ==> normalized(raw) == default_tag(),
{
    reveal_with_fuel(drive, 3);
    if raw == default_tag() {
        reveal_strlit("v1.21.1");
        reveal_strlit("v");
        assert("v"@.is_prefix_of(raw)) by {
            assert(raw.subrange(0, 1) =~= "v"@);
        }
        normalized_prefixes_once(raw);
    }
}

} // verus!
