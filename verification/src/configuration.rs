//! Validation of a run's configuration.
//!
//! A `Configuration` is a request as it was typed. The caller looks at the
//! file system and tries to read the detector model, and hands what it
//! found over as a `Probe`; `Configuration::valid` then either rejects the
//! request or resolves it into a `BatchJob`, which is never changed again.

use vstd::prelude::*;
use crate::geometry::{Ratio, TargetAspectRatio};
use crate::naming::{output_name, output_name_of};

verus! {

/// What the file system reports about a path.
#[derive(Clone, Copy, Debug, PartialEq, Eq, Structural)]
pub enum PathKind {
    /// The path does not exist or cannot be examined.
    Missing,
    /// A regular file.
    File,
    /// A directory.
    Directory,
    /// Something else, such as a device.
    Other,
}

/// One entry of a directory listing.
pub struct DirectoryEntry {
    /// Path of the entry.
    pub path: String,
    /// Whether the entry is a regular file.
    pub is_file: bool,
}

/// What the caller found out about the paths a configuration names.
pub struct Probe {
    /// Kind of the input path.
    pub input: PathKind,
    /// The entries of the input directory, in the order they were listed;
    /// `None` when the input is no directory or cannot be listed.
    pub entries: Option<Vec<DirectoryEntry>>,
    /// Kind of the model path; ignored when none is configured.
    pub model: PathKind,
    /// Whether a detector model could be read: from the configured file,
    /// or the built-in model when no file is configured.
    pub model_usable: bool,
    /// Kind of the output path; ignored when none is configured.
    pub output: PathKind,
}

/// A request to crop one image or a directory of images.
pub struct Configuration {
    /// Path of the image, or of the directory of images.
    pub path: String,
    /// Where the results go; the current directory when absent.
    pub output_path: Option<String>,
    /// Path of the detector model; the built-in model when absent.
    pub model_path: Option<String>,
    /// Width term of the target ratio.
    pub width: u64,
    /// Height term of the target ratio.
    pub height: u64,
}

/// Why a configuration was rejected.
#[derive(Clone, Copy, Debug, PartialEq, Eq, Structural)]
pub enum JobError {
    /// A term of the target ratio is zero.
    InvalidRatio,
    /// The input path does not exist.
    InputMissing,
    /// The input directory cannot be listed.
    InputUnreadable,
    /// The model path does not exist.
    ModelMissing,
    /// The model path is not a regular file.
    ModelNotFile,
    /// The model cannot be read.
    ModelUnusable,
    /// The output path does not exist.
    OutputMissing,
    /// The output path is a file although a directory of images is
    /// processed.
    OutputNotDirectory,
}

/// The two kinds of fatal error.
#[derive(Clone, Copy, Debug, PartialEq, Eq, Structural)]
pub enum ErrorKind {
    /// The request itself is invalid.
    Configuration,
    /// The face detector cannot be set up.
    DetectorInit,
}

impl JobError {
    /// Errors about the model are detector errors, all others are
    /// configuration errors.
    pub open spec fn spec_kind(self) -> ErrorKind {
        match self {
            JobError::ModelMissing | JobError::ModelNotFile | JobError::ModelUnusable =>
                ErrorKind::DetectorInit,
            _ => ErrorKind::Configuration,
        }
    }

    /// The text shown for the error.
    pub open spec fn text(self) -> Seq<char> {
        match self {
            JobError::InvalidRatio => "the width and the height of the target ratio must be positive"@,
            JobError::InputMissing => "the input path does not exist"@,
            JobError::InputUnreadable => "the input directory cannot be read"@,
            JobError::ModelMissing => "the model file does not exist"@,
            JobError::ModelNotFile => "the model path is not a file"@,
            JobError::ModelUnusable => "the model cannot be read"@,
            JobError::OutputMissing => "the output path does not exist"@,
            JobError::OutputNotDirectory => "the output path has to be a directory"@,
        }
    }

    /// Whether the request or the detector is at fault.
    pub fn kind(&self) -> (kind: ErrorKind)
        ensures
            kind == self.spec_kind(),
    {
        match self {
            JobError::ModelMissing | JobError::ModelNotFile | JobError::ModelUnusable =>
                ErrorKind::DetectorInit,
            _ => ErrorKind::Configuration,
        }
    }

    /// The text shown for the error.
    pub fn message(&self) -> (message: String)
        ensures
            message@ == self.text(),
    {
        match self {
            JobError::InvalidRatio =>
                "the width and the height of the target ratio must be positive".to_owned(),
            JobError::InputMissing => "the input path does not exist".to_owned(),
            JobError::InputUnreadable => "the input directory cannot be read".to_owned(),
            JobError::ModelMissing => "the model file does not exist".to_owned(),
            JobError::ModelNotFile => "the model path is not a file".to_owned(),
            JobError::ModelUnusable => "the model cannot be read".to_owned(),
            JobError::OutputMissing => "the output path does not exist".to_owned(),
            JobError::OutputNotDirectory => "the output path has to be a directory".to_owned(),
        }
    }
}

/// The path ends in a dot and the letters of `lower`, each in either case.
/// `upper` holds the same letters in upper case.
pub open spec fn has_extension(path: Seq<char>, lower: Seq<char>, upper: Seq<char>) -> bool {
    let start = path.len() - lower.len();
    &&& lower.len() < path.len()
    &&& path[start - 1] == '.'
    &&& forall|k: int|
        0 <= k < lower.len() ==> path[start + k] == #[trigger] lower[k] || path[start + k]
            == upper[k]
}

/// The path names an image: it ends in `.jpg`, `.jpeg` or `.png`, in any
/// mix of upper and lower case.
pub open spec fn is_image_path(path: Seq<char>) -> bool {
    ||| has_extension(path, seq!['j', 'p', 'g'], seq!['J', 'P', 'G'])
    ||| has_extension(path, seq!['j', 'p', 'e', 'g'], seq!['J', 'P', 'E', 'G'])
    ||| has_extension(path, seq!['p', 'n', 'g'], seq!['P', 'N', 'G'])
}

/// The entry is a regular file with the name of an image.
pub open spec fn is_image_entry(entry: DirectoryEntry) -> bool {
    entry.is_file && is_image_path(entry.path@)
}

/// The paths of the image files among the entries, in listing order.
pub open spec fn image_paths(entries: Seq<DirectoryEntry>) -> Seq<Seq<char>> {
    entries.filter(|entry: DirectoryEntry| is_image_entry(entry)).map_values(
        |entry: DirectoryEntry| entry.path@,
    )
}

/// Tests whether `path`, of `length` characters, ends in a dot and the
/// letters of `lower` in either case.
fn ends_with_extension(path: &str, length: usize, lower: &str, upper: &str) -> (found: bool)
    requires
        length == path@.len(),
        lower@.len() == upper@.len(),
    ensures
        found == has_extension(path@, lower@, upper@),
{
    let count = lower.unicode_len();
    if length <= count {
        return false;
    }
    let start = length - count;
    if path.get_char(start - 1) != '.' {
        return false;
    }
    let mut k: usize = 0;
    while k < count
        invariant
            k <= count,
            count == lower@.len(),
            count == upper@.len(),
            length == path@.len(),
            start == length - count,
            count < length,
            forall|j: int|
                0 <= j < k ==> path@[start + j] == #[trigger] lower@[j] || path@[start + j]
                    == upper@[j],
        decreases count - k,
    {
        let found = path.get_char(start + k);
        if found != lower.get_char(k) && found != upper.get_char(k) {
            assert(!(path@[start + k] == lower@[k as int] || path@[start + k] == upper@[k as int]));
            return false;
        }
        k = k + 1;
    }
    true
}

/// Tests whether a path names an image file: whether it ends in `.jpg`,
/// `.jpeg` or `.png`, in any mix of upper and lower case.
pub fn path_is_image(path: &str) -> (image: bool)
    ensures
        image == is_image_path(path@),
{
    proof {
        reveal_strlit("jpg");
        reveal_strlit("JPG");
        reveal_strlit("jpeg");
        reveal_strlit("JPEG");
        reveal_strlit("png");
        reveal_strlit("PNG");
        assert("jpg"@ =~= seq!['j', 'p', 'g']);
        assert("JPG"@ =~= seq!['J', 'P', 'G']);
        assert("jpeg"@ =~= seq!['j', 'p', 'e', 'g']);
        assert("JPEG"@ =~= seq!['J', 'P', 'E', 'G']);
        assert("png"@ =~= seq!['p', 'n', 'g']);
        assert("PNG"@ =~= seq!['P', 'N', 'G']);
    }
    let length = path.unicode_len();
    ends_with_extension(path, length, "jpg", "JPG") || ends_with_extension(
        path,
        length,
        "jpeg",
        "JPEG",
    ) || ends_with_extension(path, length, "png", "PNG")
}

/// Picks the image files out of a directory listing, in listing order.
pub fn select_images(entries: &Vec<DirectoryEntry>) -> (images: Vec<String>)
    ensures
        images.deep_view() == image_paths(entries@),
{
    let mut images: Vec<String> = Vec::new();
    let mut index: usize = 0;
    assert(entries@.subrange(0, 0) =~= Seq::<DirectoryEntry>::empty());
    assert(images.deep_view() =~= image_paths(entries@.subrange(0, 0))) by {
        reveal(Seq::filter);
    }
    while index < entries.len()
        invariant
            index <= entries.len(),
            images.deep_view() == image_paths(entries@.subrange(0, index as int)),
        decreases entries.len() - index,
    {
        let entry = &entries[index];
        let ghost before = images.deep_view();
        let ghost seen = entries@.subrange(0, index as int);
        proof {
            assert(entries@.subrange(0, index + 1) =~= seen.push(*entry));
            seen.lemma_filter_push(*entry, |entry: DirectoryEntry| is_image_entry(entry));
        }
        if entry.is_file && path_is_image(entry.path.as_str()) {
            images.push(entry.path.clone());
            assert(images.deep_view() =~= before.push(entry.path@));
            assert(image_paths(seen.push(*entry)) =~= image_paths(seen).push(entry.path@));
        }
        index = index + 1;
    }
    assert(entries@.subrange(0, index as int) =~= entries@);
    images
}

/// A validated run as contracts speak of it.
pub struct Job {
    /// Paths of the images to crop, in processing order.
    pub images: Seq<Seq<char>>,
    /// Where the results go.
    pub output_path: Seq<char>,
    /// Whether `output_path` is the file to write, rather than a directory
    /// to write into.
    pub output_is_file: bool,
    /// The target ratio.
    pub ratio: Ratio,
    /// Whether the input was a directory.
    pub scan_directory: bool,
}

/// A validated run: the images to crop, where the results go, and the
/// target ratio. It is built by `Configuration::valid` and never changed.
pub struct BatchJob {
    images: Vec<String>,
    output_path: String,
    output_is_file: bool,
    ratio: TargetAspectRatio,
    scan_directory: bool,
}

impl View for BatchJob {
    type V = Job;

    closed spec fn view(&self) -> Job {
        Job {
            images: self.images.deep_view(),
            output_path: self.output_path@,
            output_is_file: self.output_is_file,
            ratio: self.ratio@,
            scan_directory: self.scan_directory,
        }
    }
}

impl BatchJob {
    /// Paths of the images to crop, in processing order.
    pub fn images(&self) -> (images: &Vec<String>)
        ensures
            images.deep_view() == self@.images,
    {
        &self.images
    }

    /// Where the results go: a directory, or the file to write.
    pub fn output_path(&self) -> (path: &String)
        ensures
            path@ == self@.output_path,
    {
        &self.output_path
    }

    /// Whether the output path is the file to write.
    pub fn output_is_file(&self) -> (file: bool)
        ensures
            file == self@.output_is_file,
    {
        self.output_is_file
    }

    /// The target ratio.
    pub fn ratio(&self) -> (ratio: &TargetAspectRatio)
        ensures
            ratio@ == self@.ratio,
    {
        &self.ratio
    }

    /// Whether the input was a directory.
    pub fn scan_directory(&self) -> (scan: bool)
        ensures
            scan == self@.scan_directory,
    {
        self.scan_directory
    }

    /// The name under which an image is written inside the output
    /// directory: its base name, or the name generated for `index` where
    /// none could be derived. `None` when the output path is itself the
    /// file to write.
    pub fn save_name(&self, base_name: Option<String>, index: usize) -> (name: Option<String>)
        ensures
            name.deep_view() == if self@.output_is_file {
                None
            } else {
                Some(output_name_of(base_name.deep_view(), index as nat))
            },
    {
        if self.output_is_file {
            None
        } else {
            Some(output_name(base_name, index))
        }
    }
}

impl Configuration {
    /// The reason for which the configuration is rejected, if there is
    /// one. The ratio is looked at first, then the input, the model and the
    /// output, and the first fault found is reported.
    pub open spec fn rejection(&self, probe: &Probe) -> Option<JobError> {
        if self.width == 0 || self.height == 0 {
            Some(JobError::InvalidRatio)
        } else if probe.input == PathKind::Missing {
            Some(JobError::InputMissing)
        } else if probe.input == PathKind::Directory && probe.entries.is_none() {
            Some(JobError::InputUnreadable)
        } else if self.model_path.is_some() && probe.model == PathKind::Missing {
            Some(JobError::ModelMissing)
        } else if self.model_path.is_some() && probe.model != PathKind::File {
            Some(JobError::ModelNotFile)
        } else if !probe.model_usable {
            Some(JobError::ModelUnusable)
        } else if self.output_path.is_some() && probe.output == PathKind::Missing {
            Some(JobError::OutputMissing)
        } else if self.output_path.is_some() && probe.output == PathKind::File && probe.input
            == PathKind::Directory {
            Some(JobError::OutputNotDirectory)
        } else {
            None
        }
    }

    /// The run that an accepted configuration resolves to. A directory
    /// gives its image files; any other input is processed by itself if
    /// its name is that of an image, and gives an empty run otherwise. The
    /// results go to the configured output path, or to the current
    /// directory.
    pub open spec fn resolved(&self, probe: &Probe) -> Job {
        Job {
            images: if probe.input == PathKind::Directory {
                image_paths(probe.entries.unwrap()@)
            } else if is_image_path(self.path@) {
                seq![self.path@]
            } else {
                Seq::empty()
            },
            output_path: match self.output_path {
                Some(path) => path@,
                None => "./"@,
            },
            output_is_file: self.output_path.is_some() && probe.output == PathKind::File,
            ratio: Ratio { width: self.width as nat, height: self.height as nat },
            scan_directory: probe.input == PathKind::Directory,
        }
    }

    /// Validates the configuration against what the caller found on the
    /// file system. It is rejected for the first fault there is, and
    /// resolved into a run when there is none.
    pub fn valid(&self, probe: &Probe) -> (job: Result<BatchJob, JobError>)
        ensures
            match job {
                Ok(job) => self.rejection(probe).is_none() && job@ == self.resolved(probe),
                Err(error) => self.rejection(probe) == Some(error),
            },
    {
        let ratio = match TargetAspectRatio::new(self.width, self.height) {
            Some(ratio) => ratio,
            None => {
                return Err(JobError::InvalidRatio);
            },
        };
        let scan_directory = match probe.input {
            PathKind::Missing => {
                return Err(JobError::InputMissing);
            },
            PathKind::Directory => true,
            _ => false,
        };
        let images = if scan_directory {
            match &probe.entries {
                Some(entries) => select_images(entries),
                None => {
                    return Err(JobError::InputUnreadable);
                },
            }
        } else {
            let mut single: Vec<String> = Vec::new();
            if path_is_image(self.path.as_str()) {
                single.push(self.path.clone());
                assert(single.deep_view() =~= seq![self.path@]);
            } else {
                assert(single.deep_view() =~= Seq::<Seq<char>>::empty());
            }
            single
        };
        if self.model_path.is_some() {
            match probe.model {
                PathKind::Missing => {
                    return Err(JobError::ModelMissing);
                },
                PathKind::File => {},
                _ => {
                    return Err(JobError::ModelNotFile);
                },
            }
        }
        if !probe.model_usable {
            return Err(JobError::ModelUnusable);
        }
        let (output_path, output_is_file) = match &self.output_path {
            Some(path) => {
                match probe.output {
                    PathKind::Missing => {
                        return Err(JobError::OutputMissing);
                    },
                    PathKind::File => {
                        if scan_directory {
                            return Err(JobError::OutputNotDirectory);
                        }
                        (path.clone(), true)
                    },
                    _ => (path.clone(), false),
                }
            },
            None => ("./".to_owned(), false),
        };
        Ok(BatchJob { images, output_path, output_is_file, ratio, scan_directory })
    }
}

} // verus!
