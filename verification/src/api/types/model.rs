//! The records nested inside a model: its creator, stats, versions, files and
//! the images attached to a version.

use vstd::prelude::*;

verus! {

/// The type of a model. The wire vocabulary spells the low-rank adaptation
/// type `LORA`; everything else matches the variant name.
#[derive(Debug, Clone, Copy)]
pub enum Type {
    Checkpoint,
    TextualInversion,
    Hypernetwork,
    AestheticGradient,
    Lora,
    Controlnet,
    Poses,
}

impl Type {
    /// The wire token of each model type.
    pub open spec fn spec_value(self) -> Seq<char> {
        match self {
            Type::Checkpoint => "Checkpoint"@,
            Type::TextualInversion => "TextualInversion"@,
            Type::Hypernetwork => "Hypernetwork"@,
            Type::AestheticGradient => "AestheticGradient"@,
            Type::Lora => "LORA"@,
            Type::Controlnet => "Controlnet"@,
            Type::Poses => "Poses"@,
        }
    }

    /// The exact token the remote vocabulary accepts for this type.
    pub fn value(self) -> (r: &'static str)
        ensures
            r@ == self.spec_value(),
    {
        match self {
            Type::Checkpoint => "Checkpoint",
            Type::TextualInversion => "TextualInversion",
            Type::Hypernetwork => "Hypernetwork",
            Type::AestheticGradient => "AestheticGradient",
            Type::Lora => "LORA",
            Type::Controlnet => "Controlnet",
            Type::Poses => "Poses",
        }
    }
}

/// The mode a model is currently on.
#[derive(Debug, Clone, Copy)]
pub enum Mode {
    Archived,
    TakenDown,
}

/// The creator of a model, as embedded in a model record.
#[derive(Debug, Clone)]
pub struct Creator {
    /// The name of the creator.
    pub username: String,
    /// The url of the creators avatar.
    pub image: Option<String>,
}

/// Stats of a model.
#[derive(Debug, Clone)]
pub struct Stats {
    /// The number of downloads the model has.
    pub download_count: usize,
    /// The number of favorites the model has.
    pub favorite_count: usize,
    /// The number of comments the model has.
    pub comment_count: usize,
    /// The number of ratings the model has.
    pub rating_count: usize,
    /// The average rating of the model, as the decimal text the wire carried.
    pub rating: String,
}

/// The outcome of one scan of a model file.
#[derive(Debug, Clone, Copy)]
pub enum ScanResult {
    Pending,
    Success,
    Danger,
    Error,
}

/// The floating point width a model file was saved with.
#[derive(Debug, Clone, Copy)]
pub enum FloatingPoint {
    Fp16,
    Fp32,
}

/// The size class of a model file.
#[derive(Debug, Clone, Copy)]
pub enum Size {
    Full,
    Pruned,
}

/// The storage format of a model file.
#[derive(Debug, Clone, Copy)]
pub enum Format {
    SafeTensor,
    PickleTensor,
    Other,
}

impl Default for Format {
    /// The default storage format.
    fn default() -> (r: Format)
        ensures
            r is Other,
    {
        Format::Other
    }
}

/// Descriptive metadata of one model file.
#[derive(Debug, Clone)]
pub struct FileMetadata {
    /// The specified floating point for the file.
    pub fp: FloatingPoint,
    /// The specified model size for the file.
    pub size: Option<Size>,
    /// The specified model format for the file.
    pub format: Option<Format>,
}

/// Hashes of one model file in various formats.
#[derive(Debug, Clone)]
pub struct Hashes {
    pub auto_v1: Option<String>,
    pub auto_v2: Option<String>,
    pub sha256: Option<String>,
    pub crc32: Option<String>,
    pub blake3: Option<String>,
}

/// One downloadable file of a model version.
#[derive(Debug, Clone)]
pub struct File {
    /// The identifier for the model file.
    pub id: usize,
    /// The size of the model file in kilobytes, as the decimal text the wire
    /// carried.
    pub size_kb: Option<String>,
    /// Name of the model file.
    pub name: String,
    /// Status of the pickle scan.
    pub pickle_scan_result: Option<ScanResult>,
    /// Message from pickle scan.
    pub pickle_scan_message: Option<String>,
    /// Status of the virus scan.
    pub virus_scan_result: Option<ScanResult>,
    /// Message from virus scan.
    pub virus_scan_message: Option<String>,
    /// The date in which the file was scanned, as seconds since the epoch.
    pub scanned_at: Option<i64>,
    /// Hashes of this file in various formats.
    pub hashes: Hashes,
    /// If the file is the primary file for the model version.
    pub primary: Option<bool>,
    /// Direct link to this file's download.
    pub download_url: String,
}

/// One version of a model.
#[derive(Debug, Clone)]
pub struct Version {
    /// The identifier for the model version.
    pub id: usize,
    /// The name of the model version.
    pub name: String,
    /// The description of the model version (usually a changelog).
    pub description: Option<String>,
    /// The date in which the version was created, as seconds since the epoch.
    pub created_at: Option<i64>,
    /// The download url to get the model file for this specific version.
    pub download_url: String,
    /// The words used to trigger the model.
    pub trained_words: Vec<String>,
    /// Model files for this version.
    pub files: Vec<File>,
}

impl Version {
    /// The parameter record the version's image fetch uses: only the version
    /// id filter is set.
    pub fn images_params(&self) -> (r: crate::api::endpoints::images::Params)
        ensures
            r.model_version_id == Some(self.id),
            r.query is None,
            r.limit is None,
            r.post_id is None,
            r.model_id is None,
            r.username is None,
            r.nsfw is None,
            r.sort is None,
            r.period is None,
    {
        let mut p = crate::api::endpoints::images::Params::default();
        p.model_version_id = Some(self.id);
        p
    }
}

/// Reaction and comment stats of an image.
#[derive(Debug, Clone)]
pub struct ImageStats {
    pub cry_count: Option<usize>,
    pub laugh_count: Option<usize>,
    pub like_count: Option<usize>,
    pub heart_count: Option<usize>,
    pub comment_count: Option<usize>,
}

/// An image record, as the images endpoint returns it.
#[derive(Debug, Clone)]
pub struct Image {
    /// Unique id for this image.
    pub id: usize,
    /// The url of the image at its source resolution.
    pub url: String,
    /// The blurhash of the image.
    pub hash: Option<String>,
    /// The width of the image.
    pub width: usize,
    /// The height of the image.
    pub height: usize,
    /// The safety level of the image.
    pub nsfw_level: super::Nsfw,
    /// The date the image was posted, as seconds since the epoch.
    pub created_at: Option<i64>,
    /// The ID of the post the image belongs to.
    pub post_id: Option<usize>,
    /// Stats to do with reactions and comments.
    pub stats: ImageStats,
    /// The username of the creator.
    pub username: Option<String>,
}

} // verus!
