//! Downloads: every asset of every item on one page of search results,
//! each fetched and saved on its own. The caller performs the requests and
//! the file writes; this batch decides what comes next and keeps the outcome
//! of every asset, so that a failure is reported and its siblings still run.
use vstd::prelude::*;
use crate::auth::{Credentials, Request};
use crate::client::{query_string, query_string_spec};
use crate::encode::{append_encoded, encoded};
use crate::error::NexusError;
use crate::model::{Asset, SearchItem, SearchReturnBody};
use crate::search::string_opt_view;

verus! {

/// The final component of a path, as std's `Path::file_name` gives it.
pub uninterp spec fn file_name_of(path: Seq<char>) -> Option<Seq<char>>;

/// Relies on std's `Path::file_name`: the final component of `path`, none
/// where the path has none (it ends in `..`, or is a root or empty). A
/// component of a path made from `&str` is valid UTF-8, so `to_str` keeps it whole.
#[verifier::external_body]
fn file_name(path: &str) -> (r: Option<String>)
    ensures
        string_opt_view(r) == file_name_of(path@),
{
    match std::path::Path::new(path).file_name() {
        Some(name) => match name.to_str() {
            Some(text) => Some(text.to_string()),
            None => None,
        },
        None => None,
    }
}

/// The fixed detail of the failure given to an asset whose path names no file.
pub const NO_FILE_NAME: &'static str = "asset path has no file name";

/// One asset to fetch: where from, its repository path, the local file it is
/// saved to, if its path names one, and the repository, package, version and
/// path that name it in a failure.
#[derive(Debug, Clone)]
pub struct DownloadTask {
    pub download_url: String,
    pub path: String,
    pub file_name: Option<String>,
    pub context: String,
}

/// What a task holds, as text.
pub struct TaskView {
    pub url: Seq<char>,
    pub path: Seq<char>,
    pub file_name: Option<Seq<char>>,
    pub context: Seq<char>,
}

impl View for DownloadTask {
    type V = TaskView;

    open spec fn view(&self) -> TaskView {
        TaskView {
            url: self.download_url@,
            path: self.path@,
            file_name: string_opt_view(self.file_name),
            context: self.context@,
        }
    }
}

/// How a failure names an asset: the item's repository, name and version as
/// in a search's query string, then the asset's path.
pub open spec fn asset_context(item: SearchItem, a: Asset) -> Seq<char> {
    query_string_spec(item.repository@, item.name@, item.version@) + "&path="@ + encoded(a.path@)
}

/// The task for one asset of `item`: its address as the service gave it,
/// and the last segment of its path as the local file name.
pub open spec fn asset_task(item: SearchItem, a: Asset) -> TaskView {
    TaskView {
        url: a.download_url@,
        path: a.path@,
        file_name: file_name_of(a.path@),
        context: asset_context(item, a),
    }
}

/// The tasks for the given assets of `item`, in order.
pub open spec fn item_tasks(item: SearchItem, assets: Seq<Asset>) -> Seq<TaskView> {
    assets.map_values(|a: Asset| asset_task(item, a))
}

/// The tasks for every asset of every item, item by item, in order.
pub open spec fn page_tasks(items: Seq<SearchItem>) -> Seq<TaskView>
    decreases items.len(),
{
    if items.len() == 0 {
        Seq::empty()
    } else {
        page_tasks(items.drop_last()) + item_tasks(items.last(), items.last().assets@)
    }
}

/// The views of a sequence of tasks.
pub open spec fn tasks_view(tasks: Seq<DownloadTask>) -> Seq<TaskView> {
    tasks.map_values(|t: DownloadTask| t@)
}

/// What became of one asset.
#[derive(Debug, Clone)]
pub enum AssetOutcome {
    /// Its bytes were written to this local file.
    Saved { file_name: String },
    /// It failed; its siblings went on.
    Failed(NexusError),
}

/// What the caller performs for one asset: this request, its body written
/// to this local file; a failure names the asset by `context`.
#[derive(Debug, Clone)]
pub struct DownloadJob {
    pub index: usize,
    pub request: Request,
    pub file_name: String,
    pub context: String,
}

/// The result of a whole download.
#[derive(Debug, Clone)]
pub enum DownloadReport {
    /// The search found no item: nothing was fetched or written.
    NotFound,
    /// The outcome of every asset, in order.
    Completed(Vec<AssetOutcome>),
}

/// A download in progress: the tasks, the index of the next one, and the
/// outcome of each task before it.
#[derive(Debug, Clone)]
pub struct DownloadBatch {
    pub tasks: Vec<DownloadTask>,
    pub next: usize,
    pub outcomes: Vec<AssetOutcome>,
    pub found: bool,
}

/// The tasks for every asset of every item in `items`.
pub fn plan_downloads(items: &Vec<SearchItem>) -> (r: Vec<DownloadTask>)
    ensures
        tasks_view(r@) == page_tasks(items@),
{
    let mut tasks: Vec<DownloadTask> = Vec::new();
    let mut i: usize = 0;
    while i < items.len()
        invariant
            i <= items@.len(),
            tasks_view(tasks@) == page_tasks(items@.take(i as int)),
        decreases items@.len() - i,
    {
        let item = &items[i];
        let assets = &item.assets;
        let item_context = query_string(
            item.repository.as_str(),
            Some(item.name.as_str()),
            Some(item.version.as_str()),
        );
        let mut j: usize = 0;
        while j < assets.len()
            invariant
                i < items@.len(),
                item == &items@[i as int],
                assets == items@[i as int].assets,
                item_context@ == query_string_spec(item.repository@, item.name@, item.version@),
                j <= assets@.len(),
                tasks_view(tasks@) == page_tasks(items@.take(i as int)) + item_tasks(
                    *item,
                    assets@.take(j as int),
                ),
            decreases assets@.len() - j,
        {
            let asset = &assets[j];
            let mut context = item_context.clone();
            context.append("&path=");
            append_encoded(&mut context, asset.path.as_str());
            let task = DownloadTask {
                download_url: asset.download_url.clone(),
                path: asset.path.clone(),
                file_name: file_name(asset.path.as_str()),
                context,
            };
            let ghost prev = tasks@;
            tasks.push(task);
            assert(assets@.take(j + 1) == assets@.take(j as int).push(assets@[j as int]));
            assert(tasks_view(tasks@) == tasks_view(prev).push(task@));
            assert(item_tasks(*item, assets@.take(j + 1)) == item_tasks(
                *item,
                assets@.take(j as int),
            ).push(asset_task(*item, assets@[j as int])));
            j = j + 1;
        }
        assert(assets@.take(assets@.len() as int) == assets@);
        assert(items@.take(i + 1).drop_last() == items@.take(i as int));
        assert(items@.take(i + 1).last() == items@[i as int]);
        i = i + 1;
    }
    assert(items@.take(items@.len() as int) == items@);
    tasks
}

impl DownloadBatch {
    /// Every outcome so far belongs to a task before the next one.
    pub open spec fn wf(&self) -> bool {
        &&& self.next <= self.tasks@.len()
        &&& self.outcomes@.len() == self.next
    }

    /// A download of every asset on `page`, the first page of a search's
    /// results. It is marked found exactly when the page holds an item.
    pub fn from_page(page: &SearchReturnBody) -> (r: DownloadBatch)
        ensures
            r.wf(),
            tasks_view(r.tasks@) == page_tasks(page.items@),
            r.next == 0,
            r.found == (page.items@.len() > 0),
    {
        DownloadBatch {
            tasks: plan_downloads(&page.items),
            next: 0,
            outcomes: Vec::new(),
            found: page.items.len() > 0,
        }
    }

    /// The next asset to fetch. A task whose path names no file is not
    /// fetched: it fails with a filesystem error and the batch moves past it.
    /// The job offered is the first task from `next` on that names a file.
    pub fn next_download(&mut self, credentials: &Credentials) -> (r: Option<DownloadJob>)
        requires
            old(self).wf(),
        ensures
            final(self).wf(),
            final(self).tasks == old(self).tasks,
            final(self).found == old(self).found,
            old(self).next <= final(self).next,
            final(self).outcomes@.take(old(self).next as int) == old(self).outcomes@,
            forall|j: int|
                old(self).next <= j < final(self).next ==> {
                    &&& (#[trigger] final(self).tasks@[j]).file_name is None
                    &&& final(self).outcomes@[j] matches AssetOutcome::Failed(
                        NexusError::FilesystemError { context, detail },
                    ) && context@ == final(self).tasks@[j].context@ && detail@ == NO_FILE_NAME@
                },
            r is Some <==> final(self).next < final(self).tasks@.len(),
            r is Some ==> {
                let k = final(self).next as int;
                let job = r->Some_0;
                &&& final(self).tasks@[k].file_name is Some
                &&& job.index == k
                &&& job.file_name@ == final(self).tasks@[k].file_name->Some_0@
                &&& job.request.url@ == final(self).tasks@[k].download_url@
                &&& job.context@ == final(self).tasks@[k].context@
                &&& job.request.identity@ == credentials.identity@
                &&& job.request.secret@ == credentials.secret@
            },
    {
        let ghost start = self.next;
        let ghost start_outcomes = self.outcomes@;
        while self.next < self.tasks.len() && self.tasks[self.next].file_name.is_none()
            invariant
                self.wf(),
                self.tasks == old(self).tasks,
                self.found == old(self).found,
                start == old(self).next,
                start_outcomes == old(self).outcomes@,
                start <= self.next,
                self.outcomes@.take(start as int) == start_outcomes,
                forall|j: int|
                    start <= j < self.next ==> {
                        &&& (#[trigger] self.tasks@[j]).file_name is None
                        &&& self.outcomes@[j] matches AssetOutcome::Failed(
                            NexusError::FilesystemError { context, detail },
                        ) && context@ == self.tasks@[j].context@ && detail@ == NO_FILE_NAME@
                    },
            decreases self.tasks@.len() - self.next,
        {
            let context = self.tasks[self.next].context.clone();
            let failure = NexusError::FilesystemError { context, detail: NO_FILE_NAME.to_string() };
            self.outcomes.push(AssetOutcome::Failed(failure));
            self.next = self.next + 1;
        }
        if self.next < self.tasks.len() {
            let task = &self.tasks[self.next];
            let file_name = match &task.file_name {
                Some(n) => n.clone(),
                None => String::new(),
            };
            Some(
                DownloadJob {
                    index: self.next,
                    request: Request::get(task.download_url.clone(), credentials),
                    file_name,
                    context: task.context.clone(),
                },
            )
        } else {
            None
        }
    }

    /// Records what became of the current asset and moves to the next one,
    /// whatever the outcome: a failure stops no sibling.
    pub fn record(&mut self, outcome: AssetOutcome)
        requires
            old(self).wf(),
            old(self).next < old(self).tasks@.len(),
        ensures
            final(self).wf(),
            final(self).tasks == old(self).tasks,
            final(self).found == old(self).found,
            final(self).next == old(self).next + 1,
            final(self).outcomes@ == old(self).outcomes@.push(outcome),
    {
        // Reading the length is what bounds `next` below `usize::MAX`.
        let _count = self.tasks.len();
        self.outcomes.push(outcome);
        self.next = self.next + 1;
    }

    /// The report of a download that has gone through every task: not found
    /// where the search held no item, else every asset's outcome in order.
    pub fn report(self) -> (r: DownloadReport)
        requires
            self.wf(),
            self.next == self.tasks@.len(),
        ensures
            !self.found <==> r is NotFound,
            r is Completed ==> r->Completed_0@ == self.outcomes@,
    {
        if self.found {
            DownloadReport::Completed(self.outcomes)
        } else {
            DownloadReport::NotFound
        }
    }
}

/// Items that carry no assets give a download nothing to fetch or write, and
/// so nothing to fail; no items at all give nothing either.
pub proof fn lemma_assetless_items_plan_nothing(items: Seq<SearchItem>)
    requires
        forall|i: int| 0 <= i < items.len() ==> (#[trigger] items[i]).assets@.len() == 0,
    ensures
        page_tasks(items) == Seq::<TaskView>::empty(),
    decreases items.len(),
{
    if items.len() > 0 {
        let rest = items.drop_last();
        assert forall|i: int| 0 <= i < rest.len() implies (#[trigger] rest[i]).assets@.len()
            == 0 by {
            assert(rest[i] == items[i]);
        }
        lemma_assetless_items_plan_nothing(rest);
        assert(items.last() == items[items.len() - 1]);
        assert(item_tasks(items.last(), items.last().assets@) == Seq::<TaskView>::empty());
    }
}

} // verus!
