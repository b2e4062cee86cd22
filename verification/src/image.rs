//! Image resolution: where the artifact comes from. A target that the caller
//! chose is validated; without one, the canonical download address is built
//! from the resolved version and platform.

use crate::errors::{seen, Failure, FailureModel, ImageConfigError};
use crate::system::System;
use crate::text::ends_with;
use vstd::prelude::*;

verus! {

/// The source of the artifact.
#[derive(Debug, Clone, PartialEq, Eq, Hash)]
pub enum Image {
    /// An archive on the local file system, by its path.
    Local(String),
    /// An archive to download, by its address.
    Url(String),
}

/// What an `Image` stands for.
pub enum ImageModel {
    Local(Seq<char>),
    Url(Seq<char>),
}

impl View for Image {
    type V = ImageModel;

    open spec fn view(&self) -> ImageModel {
        match self {
            Image::Local(path) => ImageModel::Local(path@),
            Image::Url(url) => ImageModel::Url(url@),
        }
    }
}

impl ImageModel {
    /// The name of the resource: the path or the address.
    pub open spec fn name(self) -> Seq<char> {
        match self {
            ImageModel::Local(path) => path,
            ImageModel::Url(url) => url,
        }
    }
}

/// What the file system says of a local path.
#[derive(Debug, Clone, Copy, PartialEq, Eq, Structural, Hash)]
pub struct FileProbe {
    /// Something exists at the path.
    pub exists: bool,
    /// What exists there is a regular file.
    pub is_file: bool,
}

/// Whether a resource name ends in an accepted archive suffix.
pub open spec fn is_archive_name(name: Seq<char>) -> bool {
    ".zip"@.is_suffix_of(name) || ".tar.gz"@.is_suffix_of(name)
}

/// A failure of image resolution about a target.
pub open spec fn image_failure(error: ImageConfigError, target: ImageModel) -> Result<
    ImageModel,
    FailureModel<ImageConfigError>,
> {
    Err(FailureModel { error, subject: target.name() })
}

/// The verdict on a chosen target. An address needs an archive suffix. A
/// local path needs a regular file behind it, and then an archive suffix; the
/// two failures are told apart. The target's name is the subject of either.
pub open spec fn validated(target: ImageModel, probe: FileProbe) -> Result<
    ImageModel,
    FailureModel<ImageConfigError>,
> {
    match target {
        ImageModel::Url(url) => if is_archive_name(url) {
            Ok(target)
        } else {
            image_failure(ImageConfigError::InvalidImageError, target)
        },
        ImageModel::Local(path) => if !(probe.exists && probe.is_file) {
            image_failure(ImageConfigError::ImageNotFoundError, target)
        } else if !is_archive_name(path) {
            image_failure(ImageConfigError::InvalidImageError, target)
        } else {
            Ok(target)
        },
    }
}

/// Where the releases are published.
pub open spec fn release_base() -> Seq<char> {
    "https://github.com/weaviate/weaviate/releases/download"@
}

/// The canonical download address of a version's artifact for a platform:
/// `{base}/{version}/weaviate-{version}-{platform}.{extension}`.
pub open spec fn release_url(version: Seq<char>, system: System) -> Seq<char> {
    release_base() + "/"@ + version + "/weaviate-"@ + version + "-"@ + system.identifier() + "."@
        + system.archive_extension()
}

/// Whether a resource name ends in `.zip` or `.tar.gz`.
pub fn has_archive_suffix(name: &str) -> (r: bool)
    ensures
        r == is_archive_name(name@),
{
    ends_with(name, ".zip") || ends_with(name, ".tar.gz")
}

impl Image {
    /// Whether validating this target needs a look at the file system.
    pub fn needs_probe(&self) -> (r: bool)
        ensures
            r == (self@ is Local),
    {
        match self {
            Image::Local(_) => true,
            Image::Url(_) => false,
        }
    }

    /// The path or the address.
    pub fn name(&self) -> (name: &str)
        ensures
            name@ == self@.name(),
    {
        match self {
            Image::Local(path) => path.as_str(),
            Image::Url(url) => url.as_str(),
        }
    }

    /// Validates a chosen target. The probe is read for a local path only.
    pub fn validate(self, probe: FileProbe) -> (r: Result<Image, Failure<ImageConfigError>>)
        ensures
            seen(r) == validated(self@, probe),
    {
        let archive = has_archive_suffix(self.name());
        match self {
            Image::Url(url) => {
                if archive {
                    Ok(Image::Url(url))
                } else {
                    Err(Failure { error: ImageConfigError::InvalidImageError, subject: url })
                }
            },
            Image::Local(path) => {
                if !(probe.exists && probe.is_file) {
                    Err(Failure { error: ImageConfigError::ImageNotFoundError, subject: path })
                } else if !archive {
                    Err(Failure { error: ImageConfigError::InvalidImageError, subject: path })
                } else {
                    Ok(Image::Local(path))
                }
            },
        }
    }

    /// Builds the canonical download address for a resolved version and
    /// platform.
    pub fn synthesize(version: &str, system: System) -> (image: Image)
        ensures
            image@ == ImageModel::Url(release_url(version@, system)),
    {
        let mut url = String::from_str("https://github.com/weaviate/weaviate/releases/download");
        url.append("/");
        url.append(version);
        url.append("/weaviate-");
        url.append(version);
        url.append("-");
        url.append(system.as_ref());
        url.append(".");
        url.append(system.extension());
        Image::Url(url)
    }

    /// Resolves the image target: the validated choice, or, without one, the
    /// canonical download address.
    pub fn resolve(target: Option<Image>, probe: FileProbe, version: &str, system: System) -> (r:
        Result<Image, Failure<ImageConfigError>>)
        ensures
            seen(r) == resolved_image(
                match target {
                    Some(image) => Some(image@),
                    None => None,
                },
                probe,
                version@,
                system,
            ),
    {
        match target {
            Some(image) => image.validate(probe),
            None => Ok(Image::synthesize(version, system)),
        }
    }
}

/// The image target of a configuration, from the choice made, if any.
pub open spec fn resolved_image(
    target: Option<ImageModel>,
    probe: FileProbe,
    version: Seq<char>,
    system: System,
) -> Result<ImageModel, FailureModel<ImageConfigError>> {
    match target {
        Some(image) => validated(image, probe),
        None => Ok(ImageModel::Url(release_url(version, system))),
    }
}

/// The canonical download address always names an archive, of the kind the
/// platform takes.
pub proof fn release_url_is_archive(version: Seq<char>, system: System)
    ensures
        is_archive_name(release_url(version, system)),
        system == System::MacOS ==> ".zip"@.is_suffix_of(release_url(version, system)),
        system != System::MacOS ==> ".tar.gz"@.is_suffix_of(release_url(version, system)),
{
    reveal_strlit(".");
    reveal_strlit("zip");
    reveal_strlit("tar.gz");
    reveal_strlit(".zip");
    reveal_strlit(".tar.gz");
    let head = release_base() + "/"@ + version + "/weaviate-"@ + version + "-"@
        + system.identifier();
    let url = release_url(version, system);
    if system == System::MacOS {
        assert(url =~= head + ".zip"@);
    } else {
        assert(url =~= head + ".tar.gz"@);
    }
}

/// Every image target that resolution lets through names an archive.
pub proof fn resolved_image_is_archive(
    target: Option<ImageModel>,
    probe: FileProbe,
    version: Seq<char>,
    system: System,
)
    ensures
        match resolved_image(target, probe, version, system) {
            Ok(image) => is_archive_name(image.name()),
            Err(_) => true,
        },
{
    release_url_is_archive(version, system);
}

} // verus!
