//! The downloads that a manager knows, each under its id.

use vstd::prelude::*;
use crate::content_type::{ContentType, detected_type};
use crate::downloader::DownloadStatus;
use crate::error::{check_http_url, is_http_url, DownloaderError};
use crate::text::{same_text, to_chars};

verus! {

/// One download as its manager sees it.
#[derive(Debug)]
pub struct DownloadTask {
    pub id: String,
    pub url: String,
    pub destination: String,
    pub content_type: ContentType,
    pub status: DownloadStatus,
    /// Progress in thousandths.
    pub progress_permille: u64,
}

/// The downloads of one manager. No two share an id.
#[derive(Debug)]
pub struct DownloadRegistry {
    tasks: Vec<DownloadTask>,
}

/// The position of the task with the id `id`, if there is one.
pub open spec fn position_of(tasks: Seq<DownloadTask>, id: Seq<char>) -> Option<int> {
    if exists|i: int| 0 <= i < tasks.len() && (#[trigger] tasks[i]).id@ == id {
        Some(choose|i: int| 0 <= i < tasks.len() && (#[trigger] tasks[i]).id@ == id)
    } else {
        None
    }
}

/// No two of `tasks` share an id.
pub open spec fn distinct_ids(tasks: Seq<DownloadTask>) -> bool {
    forall|i: int, j: int|
        0 <= i < j < tasks.len() ==> (#[trigger] tasks[i]).id@ != (#[trigger] tasks[j]).id@
}

/// `after` is `before` with the status of the task at `at` set to
/// `status` and nothing else changed.
pub open spec fn status_set(
    before: Seq<DownloadTask>,
    after: Seq<DownloadTask>,
    at: int,
    status: DownloadStatus,
) -> bool {
    &&& after.len() == before.len()
    &&& after[at] == (DownloadTask { status, ..before[at] })
    &&& forall|k: int| 0 <= k < before.len() && k != at ==> #[trigger] after[k] == before[k]
}

impl DownloadRegistry {
    /// The invariant of a registry: its ids are distinct.
    pub closed spec fn wf(&self) -> bool {
        distinct_ids(self.tasks@)
    }

    /// The tasks, in the order in which they were registered.
    pub closed spec fn tasks_of(&self) -> Seq<DownloadTask> {
        self.tasks@
    }

    /// A registry without downloads.
    pub fn new() -> (r: DownloadRegistry)
        ensures
            r.wf(),
            r.tasks_of().len() == 0,
    {
        DownloadRegistry { tasks: Vec::new() }
    }

    /// The tasks, in the order in which they were registered.
    pub fn tasks(&self) -> (t: &Vec<DownloadTask>)
        requires
            self.wf(),
        ensures
            t@ == self.tasks_of(),
            distinct_ids(t@),
    {
        &self.tasks
    }

    /// Finds the task with the id `id`.
    fn find(&self, id: &str) -> (r: Option<usize>)
        requires
            self.wf(),
        ensures
            match r {
                Some(i) => i < self.tasks@.len() && self.tasks@[i as int].id@ == id@
                    && position_of(self.tasks@, id@) == Some(i as int),
                None => position_of(self.tasks@, id@) is None,
            },
    {
        let wanted = to_chars(id);
        let mut i: usize = 0;
        while i < self.tasks.len()
            invariant
                i <= self.tasks.len(),
                wanted@ == id@,
                self.wf(),
                forall|k: int| 0 <= k < i ==> (#[trigger] self.tasks@[k]).id@ != id@,
            decreases self.tasks.len() - i,
        {
            let have = to_chars(self.tasks[i].id.as_str());
            if same_text(&have, &wanted) {
                return Some(i);
            }
            i = i + 1;
        }
        None
    }

    /// Registers the download of `url` into `destination` under the id
    /// `id`. A URL that is neither HTTP nor HTTPS is refused as invalid,
    /// an id that is taken as an unknown error. The new download is
    /// initializing; its content type is detected from the URL.
    pub fn register(&mut self, id: String, url: &str, destination: String) -> (r: Result<
        (),
        DownloaderError,
    >)
        requires
            old(self).wf(),
        ensures
            final(self).wf(),
            !is_http_url(url@) ==> (r matches Err(DownloaderError::InvalidUrl(_)))
                && final(self).tasks_of() == old(self).tasks_of(),
            is_http_url(url@) && position_of(old(self).tasks_of(), id@) is Some ==> (r matches Err(
                DownloaderError::UnknownError(_),
            )) && final(self).tasks_of() == old(self).tasks_of(),
            is_http_url(url@) && position_of(old(self).tasks_of(), id@) is None ==> r is Ok
                && final(self).tasks_of().len() == old(self).tasks_of().len() + 1
                && final(self).tasks_of().drop_last() == old(self).tasks_of() && ({
                let task = final(self).tasks_of().last();
                &&& task.id == id
                &&& task.url@ == url@
                &&& task.destination == destination
                &&& task.content_type == detected_type(url@)
                &&& task.status is Initializing
                &&& task.progress_permille == 0
            }),
    {
        if !check_http_url(url) {
            return Err(DownloaderError::InvalidUrl(url.to_owned()));
        }
        if self.find(id.as_str()).is_some() {
            return Err(DownloaderError::UnknownError("the download id is taken".to_owned()));
        }
        let task = DownloadTask {
            id,
            url: url.to_owned(),
            destination,
            content_type: ContentType::detect_from_url(url),
            status: DownloadStatus::Initializing,
            progress_permille: 0,
        };
        self.tasks.push(task);
        Ok(())
    }

    /// The status of the download with the id `id`.
    pub fn status(&self, id: &str) -> (r: Option<DownloadStatus>)
        requires
            self.wf(),
        ensures
            match position_of(self.tasks_of(), id@) {
                Some(i) => r == Some(self.tasks_of()[i].status),
                None => r is None,
            },
    {
        match self.find(id) {
            Some(i) => Some(self.tasks[i].status),
            None => None,
        }
    }

    /// Sets the status of the download with the id `id`. An id that is
    /// not registered is an unknown error and changes nothing.
    pub fn set_status(&mut self, id: &str, status: DownloadStatus) -> (r: Result<
        (),
        DownloaderError,
    >)
        requires
            old(self).wf(),
        ensures
            final(self).wf(),
            match position_of(old(self).tasks_of(), id@) {
                Some(i) => r is Ok && status_set(
                    old(self).tasks_of(),
                    final(self).tasks_of(),
                    i,
                    status,
                ),
                None => (r matches Err(DownloaderError::UnknownError(_))) && final(self).tasks_of()
                    == old(self).tasks_of(),
            },
    {
        match self.find(id) {
            Some(i) => {
                let mut task = self.tasks.remove(i);
                task.status = status;
                self.tasks.insert(i, task);
                Ok(())
            },
            None => Err(DownloaderError::UnknownError("the download id is not known".to_owned())),
        }
    }

    /// The progress of the download with the id `id`, in thousandths. An
    /// id that is not registered is an unknown error.
    pub fn get_download_progress(&self, id: &str) -> (r: Result<u64, DownloaderError>)
        requires
            self.wf(),
        ensures
            match position_of(self.tasks_of(), id@) {
                Some(i) => r == Ok::<u64, DownloaderError>(self.tasks_of()[i].progress_permille),
                None => r matches Err(DownloaderError::UnknownError(_)),
            },
    {
        match self.find(id) {
            Some(i) => Ok(self.tasks[i].progress_permille),
            None => Err(DownloaderError::UnknownError("the download id is not known".to_owned())),
        }
    }

    /// Records the progress of the download with the id `id`, in
    /// thousandths and no more than a thousand. An id that is not
    /// registered is an unknown error and changes nothing.
    pub fn set_progress(&mut self, id: &str, permille: u64) -> (r: Result<(), DownloaderError>)
        requires
            old(self).wf(),
        ensures
            final(self).wf(),
            match position_of(old(self).tasks_of(), id@) {
                Some(i) => {
                    &&& r is Ok
                    &&& final(self).tasks_of().len() == old(self).tasks_of().len()
                    &&& final(self).tasks_of()[i] == (DownloadTask {
                        progress_permille: if permille > 1000 {
                            1000
                        } else {
                            permille
                        },
                        ..old(self).tasks_of()[i]
                    })
                    &&& forall|k: int|
                        0 <= k < old(self).tasks_of().len() && k != i
                            ==> #[trigger] final(self).tasks_of()[k] == old(self).tasks_of()[k]
                },
                None => (r matches Err(DownloaderError::UnknownError(_))) && final(self).tasks_of()
                    == old(self).tasks_of(),
            },
    {
        match self.find(id) {
            Some(i) => {
                let mut task = self.tasks.remove(i);
                task.progress_permille = if permille > 1000 {
                    1000
                } else {
                    permille
                };
                self.tasks.insert(i, task);
                Ok(())
            },
            None => Err(DownloaderError::UnknownError("the download id is not known".to_owned())),
        }
    }

    /// Cancels the download with the id `id`.
    pub fn cancel_download(&mut self, id: &str) -> (r: Result<(), DownloaderError>)
        requires
            old(self).wf(),
        ensures
            final(self).wf(),
            match position_of(old(self).tasks_of(), id@) {
                Some(i) => r is Ok && status_set(
                    old(self).tasks_of(),
                    final(self).tasks_of(),
                    i,
                    DownloadStatus::Cancelled,
                ),
                None => (r matches Err(DownloaderError::UnknownError(_))) && final(self).tasks_of()
                    == old(self).tasks_of(),
            },
    {
        self.set_status(id, DownloadStatus::Cancelled)
    }

    /// Pauses the download with the id `id`.
    pub fn pause_download(&mut self, id: &str) -> (r: Result<(), DownloaderError>)
        requires
            old(self).wf(),
        ensures
            final(self).wf(),
            match position_of(old(self).tasks_of(), id@) {
                Some(i) => r is Ok && status_set(
                    old(self).tasks_of(),
                    final(self).tasks_of(),
                    i,
                    DownloadStatus::Paused,
                ),
                None => (r matches Err(DownloaderError::UnknownError(_))) && final(self).tasks_of()
                    == old(self).tasks_of(),
            },
    {
        self.set_status(id, DownloadStatus::Paused)
    }

    /// Resumes the download with the id `id`.
    pub fn resume_download(&mut self, id: &str) -> (r: Result<(), DownloaderError>)
        requires
            old(self).wf(),
        ensures
            final(self).wf(),
            match position_of(old(self).tasks_of(), id@) {
                Some(i) => r is Ok && status_set(
                    old(self).tasks_of(),
                    final(self).tasks_of(),
                    i,
                    DownloadStatus::Downloading,
                ),
                None => (r matches Err(DownloaderError::UnknownError(_))) && final(self).tasks_of()
                    == old(self).tasks_of(),
            },
    {
        self.set_status(id, DownloadStatus::Downloading)
    }
}

} // verus!
