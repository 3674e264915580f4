//! The model file: found where it is expected, or downloaded to there.

use vstd::prelude::*;

use crate::config::{copy_bytes, Config};

verus! {

/// What to do next for the model file.
pub enum FetchAction {
    /// See whether there is a file at `path`.
    Look { path: Vec<u8> },
    /// Create the directory that `path` stands in, if it stands in one.
    CreateParent { path: Vec<u8> },
    /// Tell the user that a download begins, and set it up.
    Connect { announcement: String },
    /// Download `filename` from `repo`.
    Download { repo: String, filename: String },
    /// Copy the file `from` to `to`.
    Copy { from: Vec<u8>, to: Vec<u8> },
    /// The model file is there, or cannot be had.
    Finish(Result<Vec<u8>, String>),
}

/// What came of an action. Directories and files in messages are written as
/// they are shown to people.
pub enum FetchEvent {
    /// There is a file, or none.
    Looked { found: bool },
    /// The directory is there.
    ParentReady,
    /// The directory could not be created.
    ParentFailed { dir: String },
    /// The download is set up.
    Connected,
    /// The download could not be set up.
    ConnectFailed,
    /// The download is complete, at this path.
    Downloaded { path: Vec<u8> },
    DownloadFailed,
    Copied,
    CopyFailed { from: String, to: String },
}

/// What a [`FetchAction`] says.
#[verifier::ext_equal]
pub enum FetchActionView {
    Look { path: Seq<u8> },
    CreateParent { path: Seq<u8> },
    Connect { announcement: Seq<char> },
    Download { repo: Seq<char>, filename: Seq<char> },
    Copy { from: Seq<u8>, to: Seq<u8> },
    Finish(Result<Seq<u8>, Seq<char>>),
}

impl View for FetchAction {
    type V = FetchActionView;

    open spec fn view(&self) -> FetchActionView {
        match self {
            FetchAction::Look { path } => FetchActionView::Look { path: path@ },
            FetchAction::CreateParent { path } => FetchActionView::CreateParent { path: path@ },
            FetchAction::Connect { announcement } => FetchActionView::Connect {
                announcement: announcement@,
            },
            FetchAction::Download { repo, filename } => FetchActionView::Download {
                repo: repo@,
                filename: filename@,
            },
            FetchAction::Copy { from, to } => FetchActionView::Copy { from: from@, to: to@ },
            FetchAction::Finish(r) => FetchActionView::Finish(
                match r {
                    Ok(path) => Ok(path@),
                    Err(reason) => Err(reason@),
                },
            ),
        }
    }
}

/// How far the search for the model file has come.
#[verifier::ext_equal]
pub enum FetchStage {
    Looking,
    CreatingParent,
    Connecting,
    Downloading,
    Copying { from: Seq<u8> },
    Finished(Result<Seq<u8>, Seq<char>>),
}

/// A search for the model file.
#[verifier::ext_equal]
pub struct FetchView {
    pub path: Seq<u8>,
    pub repo: Seq<char>,
    pub filename: Seq<char>,
    pub stage: FetchStage,
}

impl FetchView {
    pub open spec fn at(self, stage: FetchStage) -> FetchView {
        FetchView { stage, ..self }
    }

    pub open spec fn failed(self, reason: Seq<char>) -> FetchView {
        self.at(FetchStage::Finished(Err(reason)))
    }

    pub open spec fn announcement(self) -> Seq<char> {
        "Downloading "@ + self.filename + " from "@ + self.repo
            + " …\n(this is a one-time download, ~2–4 GB depending on the model)"@
    }

    /// What is to be done.
    pub open spec fn action(self) -> FetchActionView {
        match self.stage {
            FetchStage::Looking => FetchActionView::Look { path: self.path },
            FetchStage::CreatingParent => FetchActionView::CreateParent { path: self.path },
            FetchStage::Connecting => FetchActionView::Connect {
                announcement: self.announcement(),
            },
            FetchStage::Downloading => FetchActionView::Download {
                repo: self.repo,
                filename: self.filename,
            },
            FetchStage::Copying { from } => FetchActionView::Copy { from, to: self.path },
            FetchStage::Finished(r) => FetchActionView::Finish(r),
        }
    }

    /// Is `e` what can come of the action?
    pub open spec fn awaits(self, e: FetchEvent) -> bool {
        match self.stage {
            FetchStage::Looking => e is Looked,
            FetchStage::CreatingParent => e is ParentReady || e is ParentFailed,
            FetchStage::Connecting => e is Connected || e is ConnectFailed,
            FetchStage::Downloading => e is Downloaded || e is DownloadFailed,
            FetchStage::Copying { .. } => e is Copied || e is CopyFailed,
            FetchStage::Finished(_) => false,
        }
    }

    /// The search after `e`.
    pub open spec fn next(self, e: FetchEvent) -> FetchView {
        match e {
            FetchEvent::Looked { found } => if found {
                self.at(FetchStage::Finished(Ok(self.path)))
            } else {
                self.at(FetchStage::CreatingParent)
            },
            FetchEvent::ParentReady => self.at(FetchStage::Connecting),
            FetchEvent::ParentFailed { dir } => self.failed("creating model directory "@ + dir@),
            FetchEvent::Connected => self.at(FetchStage::Downloading),
            FetchEvent::ConnectFailed => self.failed("building HuggingFace API client"@),
            FetchEvent::Downloaded { path } => self.at(FetchStage::Copying { from: path@ }),
            FetchEvent::DownloadFailed => self.failed(
                "downloading "@ + self.repo + "/"@ + self.filename + " from HuggingFace"@,
            ),
            FetchEvent::Copied => self.at(FetchStage::Finished(Ok(self.path))),
            FetchEvent::CopyFailed { from, to } => self.failed(
                "copying model from "@ + from@ + " to "@ + to@,
            ),
        }
    }
}

enum Stage {
    Looking,
    CreatingParent,
    Connecting,
    Downloading,
    Copying { from: Vec<u8> },
    Finished(Result<Vec<u8>, String>),
}

impl Stage {
    spec fn model(self) -> FetchStage {
        match self {
            Stage::Looking => FetchStage::Looking,
            Stage::CreatingParent => FetchStage::CreatingParent,
            Stage::Connecting => FetchStage::Connecting,
            Stage::Downloading => FetchStage::Downloading,
            Stage::Copying { from } => FetchStage::Copying { from: from@ },
            Stage::Finished(r) => FetchStage::Finished(
                match r {
                    Ok(path) => Ok(path@),
                    Err(reason) => Err(reason@),
                },
            ),
        }
    }
}

/// A search for the model file under way.
pub struct ModelFetch {
    path: Vec<u8>,
    repo: String,
    filename: String,
    stage: Stage,
}

impl View for ModelFetch {
    type V = FetchView;

    closed spec fn view(&self) -> FetchView {
        FetchView {
            path: self.path@,
            repo: self.repo@,
            filename: self.filename@,
            stage: self.stage.model(),
        }
    }
}

/// Ensure the GGUF model file exists at `config.model_path`.
///
/// If the file is absent the model is downloaded from HuggingFace Hub using the
/// repo/filename stored in `config`; once fully downloaded, the file is copied
/// to `config.model_path` so every subsequent launch is instant and independent
/// of the HF cache.
pub fn ensure_model(config: &Config) -> (r: ModelFetch)
    ensures
        r@ == (FetchView {
            path: config@.model_path,
            repo: config@.hf_repo,
            filename: config@.hf_filename,
            stage: FetchStage::Looking,
        }),
{
    ModelFetch {
        path: copy_bytes(&config.model_path),
        repo: config.hf_repo.clone(),
        filename: config.hf_filename.clone(),
        stage: Stage::Looking,
    }
}

impl ModelFetch {
    /// Is `event` what can come of the action?
    pub fn awaits(&self, event: &FetchEvent) -> (r: bool)
        ensures
            r == self@.awaits(*event),
    {
        match (&self.stage, event) {
            (Stage::Looking, FetchEvent::Looked { .. }) => true,
            (Stage::CreatingParent, FetchEvent::ParentReady) => true,
            (Stage::CreatingParent, FetchEvent::ParentFailed { .. }) => true,
            (Stage::Connecting, FetchEvent::Connected) => true,
            (Stage::Connecting, FetchEvent::ConnectFailed) => true,
            (Stage::Downloading, FetchEvent::Downloaded { .. }) => true,
            (Stage::Downloading, FetchEvent::DownloadFailed) => true,
            (Stage::Copying { .. }, FetchEvent::Copied) => true,
            (Stage::Copying { .. }, FetchEvent::CopyFailed { .. }) => true,
            _ => false,
        }
    }

    /// What to do next.
    pub fn action(&self) -> (r: FetchAction)
        ensures
            r@ == self@.action(),
    {
        match &self.stage {
            Stage::Looking => FetchAction::Look { path: copy_bytes(&self.path) },
            Stage::CreatingParent => FetchAction::CreateParent { path: copy_bytes(&self.path) },
            Stage::Connecting => {
                let mut announcement = "Downloading ".to_owned();
                announcement.append(self.filename.as_str());
                announcement.append(" from ");
                announcement.append(self.repo.as_str());
                announcement.append(
                    " …\n(this is a one-time download, ~2–4 GB depending on the model)",
                );
                FetchAction::Connect { announcement }
            },
            Stage::Downloading => FetchAction::Download {
                repo: self.repo.clone(),
                filename: self.filename.clone(),
            },
            Stage::Copying { from } => FetchAction::Copy {
                from: copy_bytes(from),
                to: copy_bytes(&self.path),
            },
            Stage::Finished(r) => FetchAction::Finish(
                match r {
                    Ok(path) => Ok(copy_bytes(path)),
                    Err(reason) => Err(reason.clone()),
                },
            ),
        }
    }

    /// The search after `event`.
    pub fn resume(self, event: FetchEvent) -> (r: ModelFetch)
        requires
            self@.awaits(event),
        ensures
            r@ == self@.next(event),
    {
        let stage = match event {
            FetchEvent::Looked { found } => if found {
                Stage::Finished(Ok(copy_bytes(&self.path)))
            } else {
                Stage::CreatingParent
            },
            FetchEvent::ParentReady => Stage::Connecting,
            FetchEvent::ParentFailed { dir } => {
                let mut reason = "creating model directory ".to_owned();
                reason.append(dir.as_str());
                Stage::Finished(Err(reason))
            },
            FetchEvent::Connected => Stage::Downloading,
            FetchEvent::ConnectFailed => Stage::Finished(
                Err("building HuggingFace API client".to_owned()),
            ),
            FetchEvent::Downloaded { path } => Stage::Copying { from: path },
            FetchEvent::DownloadFailed => {
                let mut reason = "downloading ".to_owned();
                reason.append(self.repo.as_str());
                reason.append("/");
                reason.append(self.filename.as_str());
                reason.append(" from HuggingFace");
                Stage::Finished(Err(reason))
            },
            FetchEvent::Copied => Stage::Finished(Ok(copy_bytes(&self.path))),
            FetchEvent::CopyFailed { from, to } => {
                let mut reason = "copying model from ".to_owned();
                reason.append(from.as_str());
                reason.append(" to ");
                reason.append(to.as_str());
                Stage::Finished(Err(reason))
            },
        };
        ModelFetch { path: self.path, repo: self.repo, filename: self.filename, stage }
    }
}

// ── Laws ─────────────────────────────────────────────────────────────────────

/// The search after all of `es`.
pub open spec fn after(f: FetchView, es: Seq<FetchEvent>) -> FetchView
    decreases es.len(),
{
    if es.len() == 0 {
        f
    } else {
        after(f, es.drop_last()).next(es.last())
    }
}

/// Is each of `es` what can come of the action at its turn?
pub open spec fn possible(f: FetchView, es: Seq<FetchEvent>) -> bool
    decreases es.len(),
{
    es.len() > 0 ==> {
        &&& possible(f, es.drop_last())
        &&& after(f, es.drop_last()).awaits(es.last())
    }
}

/// A file that is not found is downloaded step by step: its directory is made,
/// the download is announced and set up, and what was downloaded is copied. Each
/// step that fails ends the search with a message that says what failed, and of
/// which directory, repository or file.
pub proof fn absent_models_are_downloaded_step_by_step(
    f: FetchView,
    path: Vec<u8>,
    dir: String,
    from: String,
    to: String,
)
    ensures
        f.stage is Looking ==> f.action() == (FetchActionView::Look { path: f.path }),
        f.next(FetchEvent::Looked { found: false }).action() == (FetchActionView::CreateParent {
            path: f.path,
        }),
        f.next(FetchEvent::ParentReady).action() == (FetchActionView::Connect {
            announcement: "Downloading "@ + f.filename + " from "@ + f.repo
                + " …\n(this is a one-time download, ~2–4 GB depending on the model)"@,
        }),
        f.next(FetchEvent::Connected).action() == (FetchActionView::Download {
            repo: f.repo,
            filename: f.filename,
        }),
        f.next(FetchEvent::Downloaded { path }).action() == (FetchActionView::Copy {
            from: path@,
            to: f.path,
        }),
        f.next(FetchEvent::Copied).action() == FetchActionView::Finish(Ok(f.path)),
        f.next(FetchEvent::ParentFailed { dir }).action() == FetchActionView::Finish(
            Err("creating model directory "@ + dir@),
        ),
        f.next(FetchEvent::ConnectFailed).action() == FetchActionView::Finish(
            Err("building HuggingFace API client"@),
        ),
        f.next(FetchEvent::DownloadFailed).action() == FetchActionView::Finish(
            Err("downloading "@ + f.repo + "/"@ + f.filename + " from HuggingFace"@),
        ),
        f.next(FetchEvent::CopyFailed { from, to }).action() == FetchActionView::Finish(
            Err("copying model from "@ + from@ + " to "@ + to@),
        ),
{
}

/// A search awaits what can come of what it asked for, and nothing else; one that
/// is over awaits nothing.
pub proof fn searches_await_what_they_asked_for(f: FetchView, e: FetchEvent)
    ensures
        f.action() is Look ==> (f.awaits(e) <==> e is Looked),
        f.action() is CreateParent ==> (f.awaits(e) <==> e is ParentReady || e is ParentFailed),
        f.action() is Connect ==> (f.awaits(e) <==> e is Connected || e is ConnectFailed),
        f.action() is Download ==> (f.awaits(e) <==> e is Downloaded || e is DownloadFailed),
        f.action() is Copy ==> (f.awaits(e) <==> e is Copied || e is CopyFailed),
        f.action() is Finish ==> !f.awaits(e),
{
}

/// A search fails only because its last step failed.
pub proof fn searches_fail_only_by_a_failure(f: FetchView, es: Seq<FetchEvent>)
    requires
        f.stage is Looking,
        possible(f, es),
    ensures
        after(f, es).action() matches FetchActionView::Finish(Err(_)) ==> es.len() > 0 && (
        es.last() is ParentFailed || es.last() is ConnectFailed || es.last() is DownloadFailed
            || es.last() is CopyFailed),
{
}

/// Where a file is found nothing is downloaded: the search ends with its path.
pub proof fn present_models_are_not_downloaded(f: FetchView)
    ensures
        f.next(FetchEvent::Looked { found: true }).action() == FetchActionView::Finish(
            Ok(f.path),
        ),
{
}

/// The files on disk, by their paths.
pub type Disk = Map<Seq<u8>, Seq<u8>>;

/// The files go from `before` to `now` in the step from `f` by `e`, where `hub`
/// gives the bytes of each file of each repository: a look tells whether the file
/// is there, a download puts the file of the repository where it says, and a copy
/// copies. What else becomes of the files is left open.
pub open spec fn disk_step(
    hub: spec_fn(Seq<char>, Seq<char>) -> Seq<u8>,
    f: FetchView,
    e: FetchEvent,
    before: Disk,
    now: Disk,
) -> bool {
    match (f.stage, e) {
        (FetchStage::Looking, FetchEvent::Looked { found }) => {
            &&& found == before.dom().contains(f.path)
            &&& now == before
        },
        (FetchStage::Downloading, FetchEvent::Downloaded { path }) => {
            &&& now.dom().contains(path@)
            &&& now[path@] == hub(f.repo, f.filename)
        },
        (FetchStage::Copying { from }, FetchEvent::Copied) => {
            &&& before.dom().contains(from)
            &&& now == before.insert(f.path, before[from])
        },
        _ => true,
    }
}

/// `disks` are the files before each of `es` and after the last, and each of
/// `es` is possible at its turn.
pub open spec fn disk_history(
    hub: spec_fn(Seq<char>, Seq<char>) -> Seq<u8>,
    f: FetchView,
    es: Seq<FetchEvent>,
    disks: Seq<Disk>,
) -> bool
    decreases es.len(),
{
    &&& disks.len() == es.len() + 1
    &&& es.len() > 0 ==> {
        let earlier = after(f, es.drop_last());
        &&& disk_history(hub, f, es.drop_last(), disks.drop_last())
        &&& earlier.awaits(es.last())
        &&& disk_step(hub, earlier, es.last(), disks[es.len() - 1], disks[es.len() as int])
    }
}

proof fn lemma_disk(
    hub: spec_fn(Seq<char>, Seq<char>) -> Seq<u8>,
    f: FetchView,
    es: Seq<FetchEvent>,
    disks: Seq<Disk>,
)
    requires
        f.stage is Looking,
        disk_history(hub, f, es, disks),
        !disks[0].dom().contains(f.path),
    ensures
        ({
            let s = after(f, es);
            let disk = disks.last();
            &&& s.path == f.path
            &&& s.repo == f.repo
            &&& s.filename == f.filename
            &&& s.stage is Looking ==> disk == disks[0]
            &&& s.stage matches FetchStage::Copying { from } ==> disk.dom().contains(from)
                && disk[from] == hub(f.repo, f.filename)
            &&& s.stage matches FetchStage::Finished(Ok(path)) ==> {
                &&& path == f.path
                &&& disk.dom().contains(path)
                &&& disk[path] == hub(f.repo, f.filename)
            }
        }),
    decreases es.len(),
{
    if es.len() > 0 {
        assert(disks.drop_last()[0] == disks[0]);
        lemma_disk(hub, f, es.drop_last(), disks.drop_last());
    }
}

/// A model that was absent and is found in the end stands at the path of the
/// settings, not in the cache of the download, with the bytes of the file that
/// the settings name; the next search finds it at its first look, without a
/// download, whatever has become of the other files.
pub proof fn downloads_end_at_the_path_of_the_settings(
    hub: spec_fn(Seq<char>, Seq<char>) -> Seq<u8>,
    f: FetchView,
    es: Seq<FetchEvent>,
    disks: Seq<Disk>,
    path: Seq<u8>,
    later: Disk,
    look: FetchEvent,
)
    requires
        f.stage is Looking,
        disk_history(hub, f, es, disks),
        !disks[0].dom().contains(f.path),
        after(f, es).action() == FetchActionView::Finish(Ok(path)),
        later.dom().contains(path) && later[path] == disks.last()[path],
        f.awaits(look),
        disk_step(hub, f, look, later, later),
    ensures
        path == f.path,
        disks.last().dom().contains(path),
        disks.last()[path] == hub(f.repo, f.filename),
        f.next(look).action() == FetchActionView::Finish(Ok(path)),
        later[path] == hub(f.repo, f.filename),
{
    lemma_disk(hub, f, es, disks);
}

spec fn steps_bounded(f: FetchView, n: int) -> bool {
    match f.stage {
        FetchStage::Looking => n == 0,
        FetchStage::CreatingParent => n == 1,
        FetchStage::Connecting => n == 2,
        FetchStage::Downloading => n == 3,
        FetchStage::Copying { .. } => n == 4,
        FetchStage::Finished(_) => n <= 5,
    }
}

/// However the search goes, it ends after a few steps; what it finds is always
/// the file that the settings name, what it downloads is what they name, and
/// what it downloaded is copied to where they want it.
pub proof fn searches_end_with_the_file_of_the_settings(f: FetchView, es: Seq<FetchEvent>)
    requires
        f.stage is Looking,
        possible(f, es),
    ensures
        es.len() <= 5,
        after(f, es).action() matches FetchActionView::Finish(Ok(path)) ==> path == f.path,
        after(f, es).action() matches FetchActionView::Download { repo, filename } ==> repo
            == f.repo && filename == f.filename,
        after(f, es).action() matches FetchActionView::Copy { to, .. } ==> to == f.path,
{
    lemma_search(f, es);
}

proof fn lemma_search(f: FetchView, es: Seq<FetchEvent>)
    requires
        f.stage is Looking,
        possible(f, es),
    ensures
        steps_bounded(after(f, es), es.len() as int),
        after(f, es).path == f.path,
        after(f, es).repo == f.repo,
        after(f, es).filename == f.filename,
        after(f, es).stage matches FetchStage::Finished(Ok(path)) ==> path == f.path,
    decreases es.len(),
{
    if es.len() > 0 {
        lemma_search(f, es.drop_last());
    }
}

/// A view of an action names the paths, the repository and the file as they are.
pub proof fn actions_are_viewed_as_they_are(a: FetchAction)
    ensures
        a matches FetchAction::Look { path } ==> a@ == (FetchActionView::Look { path: path@ }),
        a matches FetchAction::CreateParent { path } ==> a@ == (FetchActionView::CreateParent {
            path: path@,
        }),
        a matches FetchAction::Connect { announcement } ==> a@ == (FetchActionView::Connect {
            announcement: announcement@,
        }),
        a matches FetchAction::Download { repo, filename } ==> a@ == (FetchActionView::Download {
            repo: repo@,
            filename: filename@,
        }),
        a matches FetchAction::Copy { from, to } ==> a@ == (FetchActionView::Copy {
            from: from@,
            to: to@,
        }),
        a matches FetchAction::Finish(Ok(path)) ==> a@ == FetchActionView::Finish(Ok(path@)),
        a matches FetchAction::Finish(Err(reason)) ==> a@ == FetchActionView::Finish(Err(reason@)),
{
}

} // verus!
