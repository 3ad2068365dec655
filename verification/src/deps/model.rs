//! The embedding model files: where they come from and how they are checked.
use vstd::prelude::*;
use crate::error::{Error, Result};
use crate::paths::extension;
use crate::paths::extension_exec;
use crate::text::{cat, cat3, cat4, cat5, dec, fmt_u64, str_eq};

verus! {

/// The state of a download.
#[derive(Debug, Clone, Copy, PartialEq, Eq, Structural)]
pub enum DownloadState {
    Pending,
    InProgress,
    Completed,
    Failed,
}

/// A model file to download from the Hugging Face Hub.
#[derive(Debug, Clone)]
pub struct ModelArtifact {
    pub model_id: String,
    pub filename: String,
    pub source_url: String,
    pub target_path: String,
    pub expected_size_bytes: u64,
    pub download_progress_bytes: u64,
    pub download_state: DownloadState,
}

/// Where the Hub serves `filename` of the model `model_id`.
pub open spec fn hub_url(model_id: Seq<char>, filename: Seq<char>) -> Seq<char> {
    "https://huggingface.co/"@ + model_id + "/resolve/main/"@ + filename
}

impl ModelArtifact {
    /// A pending download of `filename` of the model `model_id` to
    /// `target_path`.
    pub fn new(model_id: String, filename: String, target_path: String, expected_size_bytes: u64) -> (a:
        ModelArtifact)
        ensures
            a.model_id == model_id,
            a.filename == filename,
            a.source_url@ == hub_url(model_id@, filename@),
            a.target_path == target_path,
            a.expected_size_bytes == expected_size_bytes,
            a.download_progress_bytes == 0,
            a.download_state == DownloadState::Pending,
    {
        let source_url = cat4("https://huggingface.co/", model_id.as_str(), "/resolve/main/", filename.as_str());
        ModelArtifact {
            model_id,
            filename,
            source_url,
            target_path,
            expected_size_bytes,
            download_progress_bytes: 0,
            download_state: DownloadState::Pending,
        }
    }

    /// The download has begun.
    pub fn start_download(&mut self)
        ensures
            *final(self) == (ModelArtifact { download_state: DownloadState::InProgress, ..*old(self) }),
    {
        self.download_state = DownloadState::InProgress;
    }

    /// The download ended with a file of `size` bytes.
    pub fn finish_download(&mut self, size: u64)
        ensures
            *final(self) == (ModelArtifact {
                download_state: DownloadState::Completed,
                download_progress_bytes: size,
                ..*old(self)
            }),
    {
        self.download_progress_bytes = size;
        self.download_state = DownloadState::Completed;
    }
}

/// Downloads model files into a cache directory.
#[derive(Debug, Clone)]
pub struct ModelDownloader {
    cache_dir: String,
}

impl ModelDownloader {
    pub closed spec fn dir(&self) -> Seq<char> {
        self.cache_dir@
    }

    /// A downloader that caches under `cache_dir`.
    pub fn new(cache_dir: String) -> (d: ModelDownloader)
        ensures
            d.dir() == cache_dir@,
    {
        ModelDownloader { cache_dir }
    }

    /// The cache directory.
    pub fn cache_dir(&self) -> (res: &String)
        ensures
            res@ == self.dir(),
    {
        &self.cache_dir
    }
}

/// The sizes (in bytes, lower bound included, upper bound excluded) that
/// the model files must have.
pub open spec fn size_range(filename: Seq<char>) -> (int, int) {
    if filename == "model.onnx"@ {
        (90000000, 110000000)
    } else if filename == "tokenizer.json"@ {
        (2000000, 8000000)
    } else {
        (500, 2000)
    }
}

/// Why a model file of the given size (none when it is missing) fails the
/// size check, if it does.
pub open spec fn file_problem(filename: Seq<char>, size: Option<u64>) -> Option<Seq<char>> {
    let (lo, hi) = size_range(filename);
    match size {
        None => Some("Missing file: "@ + filename),
        Some(n) => if lo <= n < hi {
            None
        } else {
            Some("File size mismatch for "@ + filename + ": "@ + dec(n as nat) + " bytes (expected "@
                + dec(lo as nat) + ".."@ + dec(hi as nat) + ")"@)
        },
    }
}

fn check_file(filename: &str, size: Option<u64>, lo: u64, hi: u64) -> (res: Result<()>)
    requires
        size_range(filename@) == (lo as int, hi as int),
    ensures
        match file_problem(filename@, size) {
            None => res is Ok,
            Some(m) => res matches Err(Error::CorruptedModel(e)) && e@ == m,
        },
{
    match size {
        None => Err(Error::CorruptedModel(cat("Missing file: ", filename))),
        Some(n) => {
            if lo <= n && n < hi {
                Ok(())
            } else {
                let a = fmt_u64(n);
                let b = fmt_u64(lo);
                let c = fmt_u64(hi);
                let head = cat4("File size mismatch for ", filename, ": ", a.as_str());
                let tail = cat5(" bytes (expected ", b.as_str(), "..", c.as_str(), ")");
                Err(Error::CorruptedModel(cat(head.as_str(), tail.as_str())))
            }
        },
    }
}

/// Checks the sizes of the three model files (none for a missing one), in
/// the order `model.onnx`, `tokenizer.json`, `config.json`: the first that
/// is missing or of an unexpected size is a `CorruptedModel` error.
pub fn check_model_files(model: Option<u64>, tokenizer: Option<u64>, config: Option<u64>) -> (res: Result<()>)
    ensures
        match file_problem("model.onnx"@, model) {
            Some(m) => res matches Err(Error::CorruptedModel(e)) && e@ == m,
            None => match file_problem("tokenizer.json"@, tokenizer) {
                Some(m) => res matches Err(Error::CorruptedModel(e)) && e@ == m,
                None => match file_problem("config.json"@, config) {
                    Some(m) => res matches Err(Error::CorruptedModel(e)) && e@ == m,
                    None => res is Ok,
                },
            },
        },
{
    proof {
        reveal_strlit("model.onnx");
        reveal_strlit("tokenizer.json");
        reveal_strlit("config.json");
        assert("tokenizer.json"@ != "model.onnx"@);
        assert("config.json"@ != "model.onnx"@);
        assert("config.json"@ != "tokenizer.json"@);
    }
    check_file("model.onnx", model, 90000000, 110000000)?;
    check_file("tokenizer.json", tokenizer, 2000000, 8000000)?;
    check_file("config.json", config, 500, 2000)
}

/// Whether a file in the model directory is what a broken download left
/// behind: its extension is `tmp` or `partial`.
pub fn is_partial_download(path: &str) -> (b: bool)
    ensures
        b == (extension(path@) == Some("tmp"@) || extension(path@) == Some("partial"@)),
{
    match extension_exec(path) {
        None => false,
        Some(e) => str_eq(e.as_str(), "tmp") || str_eq(e.as_str(), "partial"),
    }
}

} // verus!
