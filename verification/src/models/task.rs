//! Tasks: one image on its way to a site, and the requests that start one.

use crate::text::option_text;
use vstd::prelude::*;

verus! {

/// Where a task stands.
#[derive(Debug, Clone, Copy, PartialEq, Eq, Structural)]
pub enum TaskStatus {
    Pending,
    Processing,
    Analyzing,
    Uploading,
    Completed,
    Error,
}

impl TaskStatus {
    /// Whether a task in this status has ended.
    pub open spec fn terminal(self) -> bool {
        self == TaskStatus::Completed || self == TaskStatus::Error
    }

    /// Whether a run may take a task from this status to `next`. A task is
    /// analyzed, then uploaded, then complete; analysis and upload may
    /// fail. Nothing leads out of a terminal status.
    pub open spec fn leads_to(self, next: TaskStatus) -> bool {
        match (self, next) {
            (TaskStatus::Pending, TaskStatus::Analyzing) => true,
            (TaskStatus::Analyzing, TaskStatus::Uploading) => true,
            (TaskStatus::Analyzing, TaskStatus::Error) => true,
            (TaskStatus::Uploading, TaskStatus::Completed) => true,
            (TaskStatus::Uploading, TaskStatus::Error) => true,
            _ => false,
        }
    }

    /// Tells whether a task in this status has ended.
    pub fn is_terminal(&self) -> (b: bool)
        ensures
            b == self.terminal(),
    {
        match self {
            TaskStatus::Completed | TaskStatus::Error => true,
            _ => false,
        }
    }

    /// Tells whether a run may take a task from this status to `next`.
    pub fn can_become(&self, next: TaskStatus) -> (b: bool)
        ensures
            b == self.leads_to(next),
    {
        match (*self, next) {
            (TaskStatus::Pending, TaskStatus::Analyzing) => true,
            (TaskStatus::Analyzing, TaskStatus::Uploading) => true,
            (TaskStatus::Analyzing, TaskStatus::Error) => true,
            (TaskStatus::Uploading, TaskStatus::Completed) => true,
            (TaskStatus::Uploading, TaskStatus::Error) => true,
            _ => false,
        }
    }
}

/// How far a task has come.
#[derive(Debug, PartialEq, Eq)]
pub struct TaskProgress {
    pub step: String,
    pub percentage: u8,
}

/// Mathematical value of a [`TaskProgress`].
pub struct TaskProgressView {
    pub step: Seq<char>,
    pub percentage: u8,
}

impl View for TaskProgress {
    type V = TaskProgressView;

    open spec fn view(&self) -> TaskProgressView {
        TaskProgressView { step: self.step@, percentage: self.percentage }
    }
}

/// One image on its way to a site.
#[derive(Debug, PartialEq, Eq)]
pub struct ImageTask {
    pub id: String,
    pub filename: String,
    pub status: TaskStatus,
    pub error: Option<String>,
    pub progress: TaskProgress,
}

/// Mathematical value of an [`ImageTask`].
pub struct ImageTaskView {
    pub id: Seq<char>,
    pub filename: Seq<char>,
    pub status: TaskStatus,
    pub error: Option<Seq<char>>,
    pub progress: TaskProgressView,
}

impl View for ImageTask {
    type V = ImageTaskView;

    open spec fn view(&self) -> ImageTaskView {
        ImageTaskView {
            id: self.id@,
            filename: self.filename@,
            status: self.status,
            error: option_text(self.error),
            progress: self.progress@,
        }
    }
}

/// What is known of an image file.
#[derive(Debug, PartialEq, Eq)]
pub struct ImageMetadata {
    pub filename: String,
    pub mime_type: String,
    pub original_size: u64,
    pub processed_size: u64,
    pub width: u32,
    pub height: u32,
}

/// Mathematical value of an [`ImageMetadata`].
pub struct ImageMetadataView {
    pub filename: Seq<char>,
    pub mime_type: Seq<char>,
    pub original_size: u64,
    pub processed_size: u64,
    pub width: u32,
    pub height: u32,
}

impl View for ImageMetadata {
    type V = ImageMetadataView;

    open spec fn view(&self) -> ImageMetadataView {
        ImageMetadataView {
            filename: self.filename@,
            mime_type: self.mime_type@,
            original_size: self.original_size,
            processed_size: self.processed_size,
            width: self.width,
            height: self.height,
        }
    }
}

/// A request to publish one image to one site.
#[derive(Debug, PartialEq, Eq)]
pub struct ProcessImageRequest {
    /// The image, in standard base64.
    pub image_data: String,
    pub metadata: ImageMetadata,
    pub target_site_id: String,
}

/// Mathematical value of a [`ProcessImageRequest`].
pub struct ProcessImageRequestView {
    pub image_data: Seq<char>,
    pub metadata: ImageMetadataView,
    pub target_site_id: Seq<char>,
}

impl View for ProcessImageRequest {
    type V = ProcessImageRequestView;

    open spec fn view(&self) -> ProcessImageRequestView {
        ProcessImageRequestView {
            image_data: self.image_data@,
            metadata: self.metadata@,
            target_site_id: self.target_site_id@,
        }
    }
}

} // verus!
