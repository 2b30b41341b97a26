//! What a download decides: whether it is needed, whether it can start, how
//! far it has come, and what to tell the user when it fails.

use vstd::prelude::*;
use vstd::string::*;

verus! {

/// The smaller of two numbers.
pub open spec fn smaller(left: int, right: int) -> int {
    if left <= right {
        left
    } else {
        right
    }
}

/// How far a piece of work has come: a position that never passes the total.
#[derive(Debug)]
pub struct Progress {
    total: u64,
    position: u64,
}

impl Progress {
    #[verifier::type_invariant]
    spec fn within_total(self) -> bool {
        self.position <= self.total
    }

    /// The amount of work to do.
    pub closed spec fn total(self) -> u64 {
        self.total
    }

    /// The amount of work done.
    pub closed spec fn position(self) -> u64 {
        self.position
    }

    /// Progress on `total` units of work, none of them done yet.
    pub fn new(total: u64) -> (progress: Progress)
        ensures
            progress.total() == total,
            progress.position() == 0,
    {
        Progress { total, position: 0 }
    }

    /// The amount of work to do.
    pub fn get_total(&self) -> (total: u64)
        ensures
            total == self.total(),
    {
        self.total
    }

    /// The amount of work done.
    pub fn get_position(&self) -> (position: u64)
        ensures
            position == self.position(),
            position <= self.total(),
    {
        proof {
            use_type_invariant(self);
        }
        self.position
    }

    /// Counts `amount` more units as done and returns the new position:
    /// the old one plus `amount`, or the total where that would pass it.
    pub fn advance(&mut self, amount: u64) -> (position: u64)
        ensures
            position == smaller(old(self).position() + amount, old(self).total() as int),
            final(self).position() == position,
            final(self).total() == old(self).total(),
    {
        proof {
            use_type_invariant(&*self);
        }
        let left: u64 = self.total - self.position;
        let position: u64 = if amount >= left {
            self.total
        } else {
            self.position + amount
        };
        self.position = position;
        position
    }
}

/// Why a download did not come to its end.
#[derive(Debug, PartialEq, Eq, Clone, Copy, Structural)]
pub enum DownloadError {
    /// The request could not be sent, or was not answered.
    RequestFailed,
    /// The answer does not say how long the file is.
    MissingContentLength,
    /// The file to download into could not be created.
    FileNotCreated,
    /// A part of the file did not arrive.
    StreamFailed,
    /// A part of the file could not be written.
    WriteFailed,
}

/// What the user is told when a download from `url` into `filepath` fails.
pub open spec fn failure_text(error: DownloadError, url: Seq<char>, filepath: Seq<char>) -> Seq<
    char,
> {
    match error {
        DownloadError::RequestFailed => "Failed to GET from '"@ + url + "'"@,
        DownloadError::MissingContentLength => "Failed to get content length from '"@ + url + "'"@,
        DownloadError::FileNotCreated => "Failed to create file '"@ + filepath + "'"@,
        DownloadError::StreamFailed => "Error while downloading file"@,
        DownloadError::WriteFailed => "Error while writing to file"@,
    }
}

/// A download: where from, and into which file.
#[derive(Debug)]
pub struct DownloadInfo {
    pub url: String,
    pub filepath: String,
}

impl DownloadInfo {
    /// A download from `url` into the file at `filepath`.
    pub fn new(url: &str, filepath: String) -> (info: DownloadInfo)
        ensures
            info.url@ == url@,
            info.filepath@ == filepath@,
    {
        DownloadInfo { url: url.to_owned(), filepath }
    }

    /// Whether the file has to be fetched: only where it is not there yet.
    pub fn is_needed(&self, file_exists: bool) -> (needed: bool)
        ensures
            needed == !file_exists,
    {
        !file_exists
    }

    /// Starts counting the bytes of an answered request. The answer must
    /// say how long the file is.
    pub fn begin(&self, content_length: Option<u64>) -> (started: Result<Progress, DownloadError>)
        ensures
            match content_length {
                Some(total) => started matches Ok(progress) && progress.total() == total
                    && progress.position() == 0,
                None => started == Err::<Progress, DownloadError>(
                    DownloadError::MissingContentLength,
                ),
            },
    {
        match content_length {
            Some(total) => Ok(Progress::new(total)),
            None => Err(DownloadError::MissingContentLength),
        }
    }

    /// What to tell the user when this download fails with `error`.
    pub fn failure_message(&self, error: DownloadError) -> (message: String)
        ensures
            message@ == failure_text(error, self.url@, self.filepath@),
    {
        match error {
            DownloadError::RequestFailed => {
                let mut message = "Failed to GET from '".to_owned();
                message.append(self.url.as_str());
                message.append("'");
                message
            },
            DownloadError::MissingContentLength => {
                let mut message = "Failed to get content length from '".to_owned();
                message.append(self.url.as_str());
                message.append("'");
                message
            },
            DownloadError::FileNotCreated => {
                let mut message = "Failed to create file '".to_owned();
                message.append(self.filepath.as_str());
                message.append("'");
                message
            },
            DownloadError::StreamFailed => "Error while downloading file".to_owned(),
            DownloadError::WriteFailed => "Error while writing to file".to_owned(),
        }
    }
}

/// The two messages that a progress bar shows: one while the work goes on,
/// one when it is done.
#[derive(Debug)]
pub struct ProgressBarInfo {
    pub pre_message: String,
    pub post_message: String,
}

impl ProgressBarInfo {
    /// A progress bar's two messages.
    pub fn new(pre_message: &str, post_message: &str) -> (info: ProgressBarInfo)
        ensures
            info.pre_message@ == pre_message@,
            info.post_message@ == post_message@,
    {
        ProgressBarInfo {
            pre_message: pre_message.to_owned(),
            post_message: post_message.to_owned(),
        }
    }

    /// The messages of a download's progress bar.
    pub fn for_download(download: &DownloadInfo) -> (info: ProgressBarInfo)
        ensures
            info.pre_message@ == "Downloading from "@ + download.url@,
            info.post_message@ == "Finished downloading from "@ + download.url@ + " to "@
                + download.filepath@,
    {
        let mut pre_message = "Downloading from ".to_owned();
        pre_message.append(download.url.as_str());
        let mut post_message = "Finished downloading from ".to_owned();
        post_message.append(download.url.as_str());
        post_message.append(" to ");
        post_message.append(download.filepath.as_str());
        ProgressBarInfo { pre_message, post_message }
    }
}

} // verus!
