//! The pipeline orchestrator: takes one picture through analysis and
//! publication, and reports each stage to an observer.

use crate::codec::standard_decoding;
use crate::commands::openai::{
    analysis_request, analysis_step, analyze_image, Analysis,
};
use crate::commands::wordpress::{
    upload_start, upload_step, upload_to_wordpress, Upload, UploadView,
};
use crate::error::{ErrorKind, PipelineError, PipelineErrorView, Stage};
use crate::http::{Action, ActionView, Event, EventView, Step, StepView};
use crate::models::config::{
    has_site, site_named, AppConfig, AppConfigView, WordPressSite, WordPressSiteView,
};
use crate::models::task::{ProcessImageRequest, ProcessImageRequestView, TaskStatus};
use crate::text::option_text;
use vstd::prelude::*;

verus! {

/// A notice to the observer: the task of this file has reached this
/// status.
#[derive(Debug, PartialEq, Eq)]
pub struct TaskUpdate {
    /// The name of the file as the user picked it.
    pub filename: String,
    pub status: TaskStatus,
    /// What went wrong, where the status is `Error`.
    pub error: Option<String>,
}

/// Mathematical value of a [`TaskUpdate`].
pub struct TaskUpdateView {
    pub filename: Seq<char>,
    pub status: TaskStatus,
    pub error: Option<Seq<char>>,
}

impl View for TaskUpdate {
    type V = TaskUpdateView;

    open spec fn view(&self) -> TaskUpdateView {
        TaskUpdateView {
            filename: self.filename@,
            status: self.status,
            error: option_text(self.error),
        }
    }
}

/// The values of a list of updates.
pub open spec fn updates_view(updates: Seq<TaskUpdate>) -> Seq<TaskUpdateView> {
    updates.map_values(|u: TaskUpdate| u@)
}

/// The notice that the task of `filename` has reached `status` without a
/// fault.
pub open spec fn reached(filename: Seq<char>, status: TaskStatus) -> TaskUpdateView {
    TaskUpdateView { filename, status, error: None }
}

/// The notice that the task of `filename` has failed with `error`.
pub open spec fn failed(filename: Seq<char>, error: PipelineErrorView) -> TaskUpdateView {
    TaskUpdateView { filename, status: TaskStatus::Error, error: Some(error.message()) }
}

/// A pipeline run that has not ended.
#[derive(Debug, PartialEq, Eq)]
pub enum Pipeline {
    /// The picture is with the vision API.
    Analyzing { analysis: Analysis, site: WordPressSite, request: ProcessImageRequest },
    /// The picture is on its way to the site.
    Uploading { upload: Upload, filename: String },
}

/// Mathematical value of a [`Pipeline`].
pub enum PipelineView {
    Analyzing { analysis: Analysis, site: WordPressSiteView, request: ProcessImageRequestView },
    Uploading { upload: UploadView, filename: Seq<char> },
}

impl View for Pipeline {
    type V = PipelineView;

    open spec fn view(&self) -> PipelineView {
        match self {
            Pipeline::Analyzing { analysis, site, request } => PipelineView::Analyzing {
                analysis: *analysis,
                site: site@,
                request: request@,
            },
            Pipeline::Uploading { upload, filename } => PipelineView::Uploading {
                upload: upload@,
                filename: filename@,
            },
        }
    }
}

impl PipelineView {
    /// The name of the file that the run is about, as the user picked it.
    pub open spec fn filename(self) -> Seq<char> {
        match self {
            PipelineView::Analyzing { request, .. } => request.metadata.filename,
            PipelineView::Uploading { filename, .. } => filename,
        }
    }
}

/// A run that has just started.
#[derive(Debug, PartialEq, Eq)]
pub struct Started {
    pub pipeline: Pipeline,
    /// What to tell the observer.
    pub updates: Vec<TaskUpdate>,
    /// What to do first.
    pub action: Action,
}

/// Mathematical value of a [`Started`].
pub struct StartedView {
    pub pipeline: PipelineView,
    pub updates: Seq<TaskUpdateView>,
    pub action: ActionView,
}

impl View for Started {
    type V = StartedView;

    open spec fn view(&self) -> StartedView {
        StartedView {
            pipeline: self.pipeline@,
            updates: updates_view(self.updates@),
            action: self.action@,
        }
    }
}

/// What one event does to a run.
#[derive(Debug, PartialEq, Eq)]
pub struct Progress {
    /// What to tell the observer, in this order.
    pub updates: Vec<TaskUpdate>,
    /// How the run goes on.
    pub step: Step<Pipeline, String, PipelineError>,
}

/// Mathematical value of a [`Progress`].
pub struct ProgressView {
    pub updates: Seq<TaskUpdateView>,
    pub step: StepView<PipelineView, Seq<char>, PipelineErrorView>,
}

impl View for Progress {
    type V = ProgressView;

    open spec fn view(&self) -> ProgressView {
        ProgressView { updates: updates_view(self.updates@), step: self.step@ }
    }
}

/// How a run starts.
///
/// A run needs the credentials of the vision API and the site that the
/// request names. Where either is missing the run fails at once: nothing
/// is told to the observer and nothing is sent. Else the observer learns
/// that the picture is being analyzed, and the analysis request goes out
/// with the context of the site.
pub open spec fn pipeline_start(
    config: AppConfigView,
    request: ProcessImageRequestView,
) -> Result<StartedView, PipelineErrorView> {
    match config.openai {
        None => Err(PipelineErrorView::MissingCredentials),
        Some(credentials) => match site_named(config.wordpress_sites, request.target_site_id) {
            None => Err(PipelineErrorView::SiteNotFound),
            Some(site) => Ok(
                StartedView {
                    pipeline: PipelineView::Analyzing {
                        analysis: Analysis::AwaitingResponse,
                        site,
                        request,
                    },
                    updates: seq![reached(request.metadata.filename, TaskStatus::Analyzing)],
                    action: ActionView::Send(
                        analysis_request(credentials, request.image_data, site.context),
                    ),
                },
            ),
        },
    }
}

/// What one event does to a run.
///
/// While the picture is with the vision API, the event advances that
/// exchange. Its failure ends the run: the observer learns of the error,
/// and nothing is published. Its success starts the publication, which
/// the observer learns first. While the picture is on its way to the
/// site, the event advances that exchange. Its failure ends the run with
/// the error, its success with the public URL of the published file; the
/// observer learns of either.
pub open spec fn pipeline_step(state: PipelineView, event: EventView) -> ProgressView {
    match state {
        PipelineView::Analyzing { analysis, site, request } => {
            let filename = request.metadata.filename;
            match analysis_step(analysis, event) {
                StepView::Continue { machine, action } => ProgressView {
                    updates: Seq::empty(),
                    step: StepView::Continue {
                        machine: PipelineView::Analyzing { analysis: machine, site, request },
                        action,
                    },
                },
                StepView::Ignored { machine } => ProgressView {
                    updates: Seq::empty(),
                    step: StepView::Ignored { machine: state },
                },
                StepView::Done { result: Err(error) } => ProgressView {
                    updates: seq![failed(filename, error)],
                    step: StepView::Done { result: Err(error) },
                },
                StepView::Done { result: Ok(found) } => match upload_start(
                    site,
                    standard_decoding(request.image_data),
                    found,
                ) {
                    Ok((upload, action)) => ProgressView {
                        updates: seq![reached(filename, TaskStatus::Uploading)],
                        step: StepView::Continue {
                            machine: PipelineView::Uploading { upload, filename },
                            action,
                        },
                    },
                    Err(error) => ProgressView {
                        updates: seq![
                            reached(filename, TaskStatus::Uploading),
                            failed(filename, error),
                        ],
                        step: StepView::Done { result: Err(error) },
                    },
                },
            }
        },
        PipelineView::Uploading { upload, filename } => match upload_step(upload, event) {
            StepView::Continue { machine, action } => ProgressView {
                updates: Seq::empty(),
                step: StepView::Continue {
                    machine: PipelineView::Uploading { upload: machine, filename },
                    action,
                },
            },
            StepView::Ignored { machine } => ProgressView {
                updates: Seq::empty(),
                step: StepView::Ignored { machine: state },
            },
            StepView::Done { result: Err(error) } => ProgressView {
                updates: seq![failed(filename, error)],
                step: StepView::Done { result: Err(error) },
            },
            StepView::Done { result: Ok(url) } => ProgressView {
                updates: seq![reached(filename, TaskStatus::Completed)],
                step: StepView::Done { result: Ok(url) },
            },
        },
    }
}

impl TaskUpdate {
    /// The notice that the task of `filename` has reached `status` without
    /// a fault.
    pub fn reached(filename: &str, status: TaskStatus) -> (update: TaskUpdate)
        ensures
            update@ == reached(filename@, status),
    {
        TaskUpdate { filename: filename.to_owned(), status, error: None }
    }

    /// The notice that the task of `filename` has failed with `error`.
    pub fn failed(filename: &str, error: &PipelineError) -> (update: TaskUpdate)
        ensures
            update@ == failed(filename@, error@),
    {
        TaskUpdate {
            filename: filename.to_owned(),
            status: TaskStatus::Error,
            error: Some(error.message()),
        }
    }
}

/// Starts the run that publishes the picture of `request` to the site it
/// names.
pub fn process_image_task(config: &AppConfig, request: ProcessImageRequest) -> (started: Result<
    Started,
    PipelineError,
>)
    ensures
        match started {
            Ok(run) => pipeline_start(config@, request@) == Ok::<StartedView, PipelineErrorView>(
                run@,
            ),
            Err(error) => pipeline_start(config@, request@) == Err::<
                StartedView,
                PipelineErrorView,
            >(error@),
        },
{
    let credentials = match &config.openai {
        Some(credentials) => credentials,
        None => {
            return Err(PipelineError::MissingCredentials);
        },
    };
    let site = match config.find_site(request.target_site_id.as_str()) {
        Some(site) => site.clone(),
        None => {
            return Err(PipelineError::SiteNotFound);
        },
    };
    let update = TaskUpdate::reached(request.metadata.filename.as_str(), TaskStatus::Analyzing);
    let context: Option<&str> = match &site.context {
        Some(c) => Some(c.as_str()),
        None => None,
    };
    let (analysis, action) = analyze_image(credentials, request.image_data.as_str(), context);
    let updates = vec![update];
    assert(updates_view(updates@) =~= seq![
        reached(request@.metadata.filename, TaskStatus::Analyzing),
    ]);
    Ok(Started { pipeline: Pipeline::Analyzing { analysis, site, request }, updates, action })
}

impl Pipeline {
    /// Advances the run by the event that answers its pending action.
    pub fn advance(self, event: Event) -> (progress: Progress)
        ensures
            progress@ == pipeline_step(self@, event@),
    {
        match self {
            Pipeline::Analyzing { analysis, site, request } => {
                match analysis.advance(event) {
                    Step::Continue { machine, action } => {
                        let updates: Vec<TaskUpdate> = Vec::new();
                        assert(updates_view(updates@) =~= Seq::<TaskUpdateView>::empty());
                        Progress {
                            updates,
                            step: Step::Continue {
                                machine: Pipeline::Analyzing { analysis: machine, site, request },
                                action,
                            },
                        }
                    },
                    Step::Ignored { machine } => {
                        let updates: Vec<TaskUpdate> = Vec::new();
                        assert(updates_view(updates@) =~= Seq::<TaskUpdateView>::empty());
                        Progress {
                            updates,
                            step: Step::Ignored {
                                machine: Pipeline::Analyzing { analysis: machine, site, request },
                            },
                        }
                    },
                    Step::Done { result: Err(error) } => {
                        let updates = vec![
                            TaskUpdate::failed(request.metadata.filename.as_str(), &error),
                        ];
                        assert(updates_view(updates@) =~= seq![
                            failed(request@.metadata.filename, error@),
                        ]);
                        Progress { updates, step: Step::Done { result: Err(error) } }
                    },
                    Step::Done { result: Ok(found) } => {
                        let uploading = TaskUpdate::reached(
                            request.metadata.filename.as_str(),
                            TaskStatus::Uploading,
                        );
                        match upload_to_wordpress(
                            &site,
                            request.image_data.as_str(),
                            request.metadata.filename.as_str(),
                            &found,
                        ) {
                            Ok((upload, action)) => {
                                let updates = vec![uploading];
                                assert(updates_view(updates@) =~= seq![
                                    reached(request@.metadata.filename, TaskStatus::Uploading),
                                ]);
                                Progress {
                                    updates,
                                    step: Step::Continue {
                                        machine: Pipeline::Uploading {
                                            upload,
                                            filename: request.metadata.filename,
                                        },
                                        action,
                                    },
                                }
                            },
                            Err(error) => {
                                let updates = vec![
                                    uploading,
                                    TaskUpdate::failed(request.metadata.filename.as_str(), &error),
                                ];
                                assert(updates_view(updates@) =~= seq![
                                    reached(request@.metadata.filename, TaskStatus::Uploading),
                                    failed(request@.metadata.filename, error@),
                                ]);
                                Progress { updates, step: Step::Done { result: Err(error) } }
                            },
                        }
                    },
                }
            },
            Pipeline::Uploading { upload, filename } => {
                match upload.advance(event) {
                    Step::Continue { machine, action } => {
                        let updates: Vec<TaskUpdate> = Vec::new();
                        assert(updates_view(updates@) =~= Seq::<TaskUpdateView>::empty());
                        Progress {
                            updates,
                            step: Step::Continue {
                                machine: Pipeline::Uploading { upload: machine, filename },
                                action,
                            },
                        }
                    },
                    Step::Ignored { machine } => {
                        let updates: Vec<TaskUpdate> = Vec::new();
                        assert(updates_view(updates@) =~= Seq::<TaskUpdateView>::empty());
                        Progress {
                            updates,
                            step: Step::Ignored {
                                machine: Pipeline::Uploading { upload: machine, filename },
                            },
                        }
                    },
                    Step::Done { result: Err(error) } => {
                        let updates = vec![TaskUpdate::failed(filename.as_str(), &error)];
                        assert(updates_view(updates@) =~= seq![failed(filename@, error@)]);
                        Progress { updates, step: Step::Done { result: Err(error) } }
                    },
                    Step::Done { result: Ok(url) } => {
                        let updates = vec![
                            TaskUpdate::reached(filename.as_str(), TaskStatus::Completed),
                        ];
                        assert(updates_view(updates@) =~= seq![
                            reached(filename@, TaskStatus::Completed),
                        ]);
                        Progress { updates, step: Step::Done { result: Ok(url) } }
                    },
                }
            },
        }
    }
}

/// What an observer has seen of a run, and how the run has ended if it has.
pub struct RunView {
    /// The notices to the observer, in the order in which they were given.
    pub updates: Seq<TaskUpdateView>,
    /// The result of the run; `None` while the run waits for an event.
    pub outcome: Option<Result<Seq<char>, PipelineErrorView>>,
}

/// What follows when a run in `state` is fed `events` one by one. Events
/// behind the one that ends the run play no part.
pub open spec fn drive(state: PipelineView, events: Seq<EventView>) -> RunView
    decreases events.len(),
{
    if events.len() == 0 {
        RunView { updates: Seq::empty(), outcome: None }
    } else {
        let progress = pipeline_step(state, events[0]);
        match progress.step {
            StepView::Continue { machine, .. } | StepView::Ignored { machine } => {
                let rest = drive(machine, events.drop_first());
                RunView { updates: progress.updates + rest.updates, outcome: rest.outcome }
            },
            StepView::Done { result } => RunView {
                updates: progress.updates,
                outcome: Some(result),
            },
        }
    }
}

/// The run for `request` under `config` when the outside world answers
/// with `events`.
pub open spec fn run(
    config: AppConfigView,
    request: ProcessImageRequestView,
    events: Seq<EventView>,
) -> RunView {
    match pipeline_start(config, request) {
        Err(error) => RunView { updates: Seq::empty(), outcome: Some(Err(error)) },
        Ok(started) => {
            let rest = drive(started.pipeline, events);
            RunView { updates: started.updates + rest.updates, outcome: rest.outcome }
        },
    }
}

/// The statuses that a list of notices reports, in order.
pub open spec fn statuses(updates: Seq<TaskUpdateView>) -> Seq<TaskStatus> {
    updates.map_values(|u: TaskUpdateView| u.status)
}

/// What an observer sees of a run from the upload on.
proof fn lemma_drive_uploading(upload: UploadView, filename: Seq<char>, events: Seq<EventView>)
    ensures
        ({
            let seen = drive(PipelineView::Uploading { upload, filename }, events);
            match seen.outcome {
                None => seen.updates == Seq::<TaskUpdateView>::empty(),
                Some(Ok(url)) => seen.updates == seq![reached(filename, TaskStatus::Completed)],
                Some(Err(error)) => error.stage() == Stage::Publish && seen.updates == seq![
                    failed(filename, error),
                ],
            }
        }),
    decreases events.len(),
{
    let state = PipelineView::Uploading { upload, filename };
    if events.len() > 0 {
        let progress = pipeline_step(state, events[0]);
        match progress.step {
            StepView::Continue { machine, .. } => {
                lemma_drive_uploading(machine->upload, filename, events.drop_first());
                let rest = drive(machine, events.drop_first());
                assert(progress.updates + rest.updates =~= rest.updates);
            },
            StepView::Ignored { machine } => {
                lemma_drive_uploading(upload, filename, events.drop_first());
                let rest = drive(machine, events.drop_first());
                assert(progress.updates + rest.updates =~= rest.updates);
            },
            StepView::Done { result } => {},
        }
    }
}

/// What an observer sees of a run from the analysis on.
proof fn lemma_drive_analyzing(
    analysis: Analysis,
    site: WordPressSiteView,
    request: ProcessImageRequestView,
    events: Seq<EventView>,
)
    ensures
        ({
            let seen = drive(PipelineView::Analyzing { analysis, site, request }, events);
            let filename = request.metadata.filename;
            match seen.outcome {
                None => seen.updates == Seq::<TaskUpdateView>::empty() || seen.updates == seq![
                    reached(filename, TaskStatus::Uploading),
                ],
                Some(Ok(url)) => seen.updates == seq![
                    reached(filename, TaskStatus::Uploading),
                    reached(filename, TaskStatus::Completed),
                ],
                Some(Err(error)) => if error.stage() == Stage::Analysis {
                    seen.updates == seq![failed(filename, error)]
                } else {
                    error.stage() == Stage::Publish && seen.updates == seq![
                        reached(filename, TaskStatus::Uploading),
                        failed(filename, error),
                    ]
                },
            }
        }),
    decreases events.len(),
{
    let state = PipelineView::Analyzing { analysis, site, request };
    let filename = request.metadata.filename;
    if events.len() > 0 {
        let progress = pipeline_step(state, events[0]);
        match progress.step {
            StepView::Continue { machine, .. } => {
                let rest = drive(machine, events.drop_first());
                match machine {
                    PipelineView::Analyzing { analysis: next, .. } => {
                        lemma_drive_analyzing(next, site, request, events.drop_first());
                        assert(progress.updates + rest.updates =~= rest.updates);
                    },
                    PipelineView::Uploading { upload, .. } => {
                        lemma_drive_uploading(upload, filename, events.drop_first());
                        let uploading = seq![reached(filename, TaskStatus::Uploading)];
                        assert(progress.updates == uploading);
                        assert(uploading + Seq::<TaskUpdateView>::empty() =~= uploading);
                        assert(uploading + seq![reached(filename, TaskStatus::Completed)] =~= seq![
                            reached(filename, TaskStatus::Uploading),
                            reached(filename, TaskStatus::Completed),
                        ]);
                        match rest.outcome {
                            Some(Err(error)) => {
                                assert(uploading + seq![failed(filename, error)] =~= seq![
                                    reached(filename, TaskStatus::Uploading),
                                    failed(filename, error),
                                ]);
                            },
                            _ => {},
                        }
                    },
                }
            },
            StepView::Ignored { machine } => {
                lemma_drive_analyzing(analysis, site, request, events.drop_first());
                let rest = drive(machine, events.drop_first());
                assert(progress.updates + rest.updates =~= rest.updates);
            },
            StepView::Done { result } => {},
        }
    }
}

/// A run whose request names no configured site, or whose configuration
/// lacks the credentials of the vision API, fails with a configuration
/// error, whatever events come. The observer is told nothing.
pub proof fn law_missing_configuration_is_silent(
    config: AppConfigView,
    request: ProcessImageRequestView,
    events: Seq<EventView>,
)
    requires
        config.openai is None || !has_site(config.wordpress_sites, request.target_site_id),
    ensures
        run(config, request, events).updates == Seq::<TaskUpdateView>::empty(),
        run(config, request, events).outcome matches Some(Err(error)) && error.kind()
            == ErrorKind::Configuration,
        pipeline_start(config, request) is Err,
{
}

/// A run that fails with a configuration error has told the observer
/// nothing, and only such a run ends without a notice.
pub proof fn law_configuration_errors_are_silent(
    config: AppConfigView,
    request: ProcessImageRequestView,
    events: Seq<EventView>,
)
    ensures
        run(config, request, events).outcome matches Some(Err(error)) ==> (error.kind()
            == ErrorKind::Configuration <==> run(config, request, events).updates == Seq::<
            TaskUpdateView,
        >::empty()),
{
    if pipeline_start(config, request) is Ok {
        let started = pipeline_start(config, request)->Ok_0;
        lemma_started(config, request);
        lemma_drive_analyzing(
            Analysis::AwaitingResponse,
            started.pipeline->site,
            request,
            events,
        );
        let rest = drive(started.pipeline, events);
        assert((started.updates + rest.updates).len() > 0);
    }
}

/// The shape of a run that has started.
proof fn lemma_started(config: AppConfigView, request: ProcessImageRequestView)
    requires
        pipeline_start(config, request) is Ok,
    ensures
        ({
            let started = pipeline_start(config, request)->Ok_0;
            &&& started.pipeline is Analyzing
            &&& started.pipeline->analysis == Analysis::AwaitingResponse
            &&& started.pipeline->request == request
            &&& started.updates == seq![reached(request.metadata.filename, TaskStatus::Analyzing)]
        }),
{
}

/// What an observer sees of a whole run: the notices, with the name of the
/// file as the user picked it, for each way in which a run can stand or
/// end.
pub proof fn law_run_notices(
    config: AppConfigView,
    request: ProcessImageRequestView,
    events: Seq<EventView>,
)
    ensures
        ({
            let seen = run(config, request, events);
            let filename = request.metadata.filename;
            let analyzing = reached(filename, TaskStatus::Analyzing);
            let uploading = reached(filename, TaskStatus::Uploading);
            match seen.outcome {
                None => seen.updates == seq![analyzing] || seen.updates == seq![
                    analyzing,
                    uploading,
                ],
                Some(Ok(url)) => seen.updates == seq![
                    analyzing,
                    uploading,
                    reached(filename, TaskStatus::Completed),
                ],
                Some(Err(error)) => match error.stage() {
                    Stage::Setup => seen.updates == Seq::<TaskUpdateView>::empty(),
                    Stage::Analysis => seen.updates == seq![analyzing, failed(filename, error)],
                    Stage::Publish => seen.updates == seq![
                        analyzing,
                        uploading,
                        failed(filename, error),
                    ],
                },
            }
        }),
{
    let filename = request.metadata.filename;
    let analyzing = reached(filename, TaskStatus::Analyzing);
    let uploading = reached(filename, TaskStatus::Uploading);
    if pipeline_start(config, request) is Ok {
        let started = pipeline_start(config, request)->Ok_0;
        lemma_started(config, request);
        lemma_drive_analyzing(
            Analysis::AwaitingResponse,
            started.pipeline->site,
            request,
            events,
        );
        let rest = drive(started.pipeline, events);
        let first = seq![analyzing];
        assert(first + Seq::<TaskUpdateView>::empty() =~= first);
        assert(first + seq![uploading] =~= seq![analyzing, uploading]);
        assert(first + seq![uploading, reached(filename, TaskStatus::Completed)] =~= seq![
            analyzing,
            uploading,
            reached(filename, TaskStatus::Completed),
        ]);
        match rest.outcome {
            Some(Err(error)) => {
                assert(first + seq![failed(filename, error)] =~= seq![
                    analyzing,
                    failed(filename, error),
                ]);
                assert(first + seq![uploading, failed(filename, error)] =~= seq![
                    analyzing,
                    uploading,
                    failed(filename, error),
                ]);
            },
            _ => {},
        }
    }
}

/// A run that ends well has reported exactly `Analyzing`, `Uploading`,
/// `Completed`, in this order, and so never `Error`.
pub proof fn law_success_statuses(
    config: AppConfigView,
    request: ProcessImageRequestView,
    events: Seq<EventView>,
)
    requires
        run(config, request, events).outcome matches Some(Ok(url)),
    ensures
        statuses(run(config, request, events).updates) == seq![
            TaskStatus::Analyzing,
            TaskStatus::Uploading,
            TaskStatus::Completed,
        ],
{
    law_run_notices(config, request, events);
    assert(statuses(run(config, request, events).updates) =~= seq![
        TaskStatus::Analyzing,
        TaskStatus::Uploading,
        TaskStatus::Completed,
    ]);
}

/// A run whose analysis fails has reported exactly `Analyzing`, `Error`,
/// in this order, and so never `Uploading`. The notice of the error
/// carries the error's message.
pub proof fn law_failed_analysis_statuses(
    config: AppConfigView,
    request: ProcessImageRequestView,
    events: Seq<EventView>,
)
    requires
        run(config, request, events).outcome matches Some(Err(error)) && error.stage()
            == Stage::Analysis,
    ensures
        statuses(run(config, request, events).updates) == seq![
            TaskStatus::Analyzing,
            TaskStatus::Error,
        ],
        run(config, request, events).updates.last().error == Some(
            run(config, request, events).outcome->Some_0->Err_0.message(),
        ),
{
    law_run_notices(config, request, events);
    assert(statuses(run(config, request, events).updates) =~= seq![
        TaskStatus::Analyzing,
        TaskStatus::Error,
    ]);
}

/// A run whose publication fails has reported exactly `Analyzing`,
/// `Uploading`, `Error`, in this order. The notice of the error carries
/// the error's message.
pub proof fn law_failed_publication_statuses(
    config: AppConfigView,
    request: ProcessImageRequestView,
    events: Seq<EventView>,
)
    requires
        run(config, request, events).outcome matches Some(Err(error)) && error.stage()
            == Stage::Publish,
    ensures
        statuses(run(config, request, events).updates) == seq![
            TaskStatus::Analyzing,
            TaskStatus::Uploading,
            TaskStatus::Error,
        ],
        run(config, request, events).updates.last().error == Some(
            run(config, request, events).outcome->Some_0->Err_0.message(),
        ),
{
    law_run_notices(config, request, events);
    assert(statuses(run(config, request, events).updates) =~= seq![
        TaskStatus::Analyzing,
        TaskStatus::Uploading,
        TaskStatus::Error,
    ]);
}

/// Every notice of a run carries the name of the file as the user picked
/// it, and a run reports its statuses in the order of a task's life:
/// first `Analyzing`, then each status one that the one before leads to.
pub proof fn law_notices_follow_the_task(
    config: AppConfigView,
    request: ProcessImageRequestView,
    events: Seq<EventView>,
)
    ensures
        ({
            let updates = run(config, request, events).updates;
            &&& forall|i: int|
                0 <= i < updates.len() ==> (#[trigger] updates[i]).filename
                    == request.metadata.filename
            &&& updates.len() > 0 ==> TaskStatus::Pending.leads_to(updates[0].status)
            &&& forall|i: int|
                0 <= i < updates.len() - 1 ==> (#[trigger] updates[i]).status.leads_to(
                    updates[i + 1].status,
                )
        }),
{
    law_run_notices(config, request, events);
}

} // verus!
