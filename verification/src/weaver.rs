//! Weavers: what is known about one, and how that is kept on disk.
use crate::config::{law_files_lie_in_the_loom_dir, ConfigView, LocalConfig};
use crate::error::{LocalError, LocalErrorView};
use crate::path::{is_same_path, same_path};
use crate::progress::{Attempt, Progress, Run};
use crate::text::{join2, strip_prefix, strip_prefix_text};
use crate::text_map::LabelMap;
use crate::time::Timestamp;
use crate::tmux::{
    has_session_words, pane_dead, pane_dead_words, pane_exit, pane_exit_words, presence,
    TmuxSession,
};
use vstd::prelude::*;
use vstd::string::*;

verus! {

/// What is recorded about a weaver.
#[derive(Debug)]
pub struct WeaverMetadata {
    pub id: String,
    pub name: String,
    pub image: String,
    pub labels: LabelMap,
    pub env_vars: Vec<(String, String)>,
    pub created_at: Timestamp,
    pub ttl_hours: Option<u32>,
    /// The directory that the weaver works in. Empty in older records, which
    /// know only the weaver's own directory.
    pub working_dir: String,
}

/// A [`WeaverMetadata`] as text.
pub struct MetadataView {
    pub id: Seq<char>,
    pub name: Seq<char>,
    pub image: Seq<char>,
    pub labels: Map<Seq<char>, Seq<char>>,
    pub env_vars: Seq<(Seq<char>, Seq<char>)>,
    pub created_at: Timestamp,
    pub ttl_hours: Option<u32>,
    pub working_dir: Seq<char>,
}

impl View for WeaverMetadata {
    type V = MetadataView;

    open spec fn view(&self) -> MetadataView {
        MetadataView {
            id: self.id@,
            name: self.name@,
            image: self.image@,
            labels: self.labels@,
            env_vars: self.env_vars.deep_view(),
            created_at: self.created_at,
            ttl_hours: self.ttl_hours,
            working_dir: self.working_dir@,
        }
    }
}

fn copy_env(env_vars: &Vec<(String, String)>) -> (copy: Vec<(String, String)>)
    ensures
        copy@ == env_vars@,
{
    let mut copy: Vec<(String, String)> = Vec::new();
    let mut i: usize = 0;
    while i < env_vars.len()
        invariant
            i <= env_vars@.len(),
            copy@ == env_vars@.take(i as int),
        decreases env_vars@.len() - i,
    {
        copy.push((env_vars[i].0.clone(), env_vars[i].1.clone()));
        assert(copy@ =~= env_vars@.take(i + 1));
        i = i + 1;
    }
    assert(copy@ =~= env_vars@);
    copy
}

impl Clone for WeaverMetadata {
    fn clone(&self) -> (copy: Self)
        ensures
            copy@ == self@,
    {
        WeaverMetadata {
            id: self.id.clone(),
            name: self.name.clone(),
            image: self.image.clone(),
            labels: self.labels.clone(),
            env_vars: copy_env(&self.env_vars),
            created_at: self.created_at,
            ttl_hours: self.ttl_hours,
            working_dir: self.working_dir.clone(),
        }
    }
}

impl MetadataView {
    /// What is recorded about a new weaver.
    pub open spec fn fresh(
        id: Seq<char>,
        image: Seq<char>,
        labels: Map<Seq<char>, Seq<char>>,
        working_dir: Seq<char>,
        created_at: Timestamp,
    ) -> MetadataView {
        MetadataView {
            id,
            name: "weaver-"@ + id,
            image,
            labels,
            env_vars: Seq::empty(),
            created_at,
            ttl_hours: None,
            working_dir,
        }
    }

    /// Whether the calendar holds the time at which the weaver expires.
    pub open spec fn expiry_known(self) -> bool {
        match self.ttl_hours {
            Some(hours) => self.created_at.reaches(hours),
            None => true,
        }
    }

    /// Whether the weaver has outlived its lifetime at a point in time.
    pub open spec fn expired_at(self, now: Timestamp) -> bool {
        match self.ttl_hours {
            Some(hours) => now.after(self.created_at.later(hours)),
            None => false,
        }
    }

    /// The directory that the weaver works in.
    pub open spec fn effective_working_dir(self, config: ConfigView) -> Seq<char> {
        if self.working_dir.len() == 0 {
            config.weaver_dir(self.id)
        } else {
            self.working_dir
        }
    }
}

impl WeaverMetadata {
    /// What is recorded about a weaver made now.
    pub fn new(id: String, image: String, labels: LabelMap, working_dir: String) -> (metadata: Self)
        ensures
            metadata.created_at.valid(),
            metadata@ == MetadataView::fresh(
                id@,
                image@,
                labels@,
                working_dir@,
                metadata.created_at,
            ),
    {
        Self::created(id, image, labels, working_dir, Timestamp::now())
    }

    /// What is recorded about a weaver made at a point in time.
    pub fn created(
        id: String,
        image: String,
        labels: LabelMap,
        working_dir: String,
        created_at: Timestamp,
    ) -> (metadata: Self)
        ensures
            metadata@ == MetadataView::fresh(id@, image@, labels@, working_dir@, created_at),
    {
        let name = join2("weaver-", id.as_str());
        let metadata = WeaverMetadata {
            id,
            name,
            image,
            labels,
            env_vars: Vec::new(),
            created_at,
            ttl_hours: None,
            working_dir,
        };
        assert(metadata.env_vars.deep_view() =~= Seq::empty());
        metadata
    }

    /// The same record with other environment variables.
    pub fn with_env_vars(self, env_vars: Vec<(String, String)>) -> (metadata: Self)
        ensures
            metadata@ == (MetadataView { env_vars: env_vars.deep_view(), ..self@ }),
    {
        WeaverMetadata { env_vars, ..self }
    }

    /// The same record with a lifetime.
    pub fn with_ttl(self, ttl_hours: u32) -> (metadata: Self)
        ensures
            metadata@ == (MetadataView { ttl_hours: Some(ttl_hours), ..self@ }),
    {
        WeaverMetadata { ttl_hours: Some(ttl_hours), ..self }
    }

    /// Whether the weaver has outlived its lifetime. The answer is the one for
    /// the time that the clock shows.
    pub fn is_expired(&self) -> (expired: bool)
        requires
            self@.expiry_known(),
        ensures
            self.ttl_hours is None ==> !expired,
            exists|now: Timestamp|
                now.valid() && now.secs >= 0 && now.nanos < 1_000_000_000 && expired
                    == #[trigger] self@.expired_at(now),
    {
        let now = Timestamp::now();
        self.is_expired_at(now)
    }

    /// Whether the weaver has outlived its lifetime at a point in time.
    pub fn is_expired_at(&self, now: Timestamp) -> (expired: bool)
        requires
            self@.expiry_known(),
        ensures
            expired == self@.expired_at(now),
    {
        match self.ttl_hours {
            Some(hours) => now.is_after(self.created_at.plus_hours(hours)),
            None => false,
        }
    }

    /// The directory that the weaver works in.
    pub fn effective_working_dir(&self, config: &LocalConfig) -> (path: String)
        ensures
            path@ == self@.effective_working_dir(config@),
    {
        if self.working_dir.as_str().is_empty() {
            config.weaver_dir(self.id.as_str())
        } else {
            self.working_dir.clone()
        }
    }
}

/// A weaver that has expired stays expired.
pub proof fn law_expired_stays_expired(metadata: MetadataView, now: Timestamp, later: Timestamp)
    requires
        metadata.expired_at(now),
        !now.after(later),
    ensures
        metadata.expired_at(later),
{
}

/// A longer lifetime never makes a weaver expire earlier.
pub proof fn law_longer_ttl_expires_later(
    metadata: MetadataView,
    hours: u32,
    more_hours: u32,
    now: Timestamp,
)
    requires
        hours <= more_hours,
        metadata.created_at.reaches(more_hours),
        (MetadataView { ttl_hours: Some(more_hours), ..metadata }).expired_at(now),
    ensures
        (MetadataView { ttl_hours: Some(hours), ..metadata }).expired_at(now),
{
    let start = metadata.created_at;
    assert(start.secs + hours * 3600 <= start.secs + more_hours * 3600);
    if hours == 0 && more_hours > 0 {
        assert(start.later(more_hours).secs >= start.secs + 3600);
    }
}

/// The state of a weaver's process.
#[derive(Debug, Clone, Copy, PartialEq, Eq, Structural)]
pub enum WeaverStatus {
    Running,
    Succeeded,
    Failed,
    Unknown,
}

impl WeaverStatus {
    /// The phase of a pod in this state.
    pub open spec fn phase(self) -> Seq<char> {
        match self {
            WeaverStatus::Running => "Running"@,
            WeaverStatus::Succeeded => "Succeeded"@,
            WeaverStatus::Failed => "Failed"@,
            WeaverStatus::Unknown => "Unknown"@,
        }
    }

    /// The state that tmux's answers show: running while its pane is alive, else
    /// by the status with which the process exited. A session that is gone has
    /// failed; a status that tmux does not tell counts as success.
    pub open spec fn observed(session: bool, dead: bool, exit: Option<u32>) -> WeaverStatus {
        if !session {
            WeaverStatus::Failed
        } else if !dead {
            WeaverStatus::Running
        } else if exit is Some && exit->0 != 0 {
            WeaverStatus::Failed
        } else {
            WeaverStatus::Succeeded
        }
    }

    /// The phase of a pod in this state.
    pub fn to_phase(&self) -> (phase: &'static str)
        ensures
            phase@ == self.phase(),
    {
        match self {
            WeaverStatus::Running => "Running",
            WeaverStatus::Succeeded => "Succeeded",
            WeaverStatus::Failed => "Failed",
            WeaverStatus::Unknown => "Unknown",
        }
    }

    /// The state that tmux's answers show.
    pub fn from_answers(session: bool, dead: bool, exit: Option<u32>) -> (status: WeaverStatus)
        ensures
            status == WeaverStatus::observed(session, dead, exit),
    {
        if !session {
            return WeaverStatus::Failed;
        }
        if !dead {
            return WeaverStatus::Running;
        }
        match exit {
            Some(code) => if code != 0 {
                WeaverStatus::Failed
            } else {
                WeaverStatus::Succeeded
            },
            None => WeaverStatus::Succeeded,
        }
    }
}

/// No two states have the same phase.
pub proof fn law_phases_differ(a: WeaverStatus, b: WeaverStatus)
    requires
        a.phase() == b.phase(),
    ensures
        a == b,
{
    reveal_strlit("Running");
    reveal_strlit("Succeeded");
    reveal_strlit("Failed");
    reveal_strlit("Unknown");
    assert("Running"@[0] == 'R' && "Succeeded"@[0] == 'S' && "Failed"@[0] == 'F' && "Unknown"@[0]
        == 'U');
}

/// A weaver.
#[derive(Debug)]
pub struct LocalWeaver {
    pub metadata: WeaverMetadata,
    pub status: WeaverStatus,
    pub dir: String,
}

/// A [`LocalWeaver`] as text.
pub struct WeaverView {
    pub metadata: MetadataView,
    pub status: WeaverStatus,
    pub dir: Seq<char>,
}

impl View for LocalWeaver {
    type V = WeaverView;

    open spec fn view(&self) -> WeaverView {
        WeaverView { metadata: self.metadata@, status: self.status, dir: self.dir@ }
    }
}

impl Clone for LocalWeaver {
    fn clone(&self) -> (copy: Self)
        ensures
            copy@ == self@,
    {
        LocalWeaver {
            metadata: self.metadata.clone(),
            status: self.status,
            dir: self.dir.clone(),
        }
    }
}

/// The tmux session of a weaver.
pub open spec fn session_of(id: Seq<char>) -> Seq<char> {
    "weaver-"@ + id
}

/// The weaver that a record describes, with nothing known yet of its process.
pub open spec fn described(config: ConfigView, metadata: MetadataView) -> WeaverView {
    WeaverView {
        metadata,
        status: WeaverStatus::Unknown,
        dir: metadata.effective_working_dir(config),
    }
}

/// What is known while a weaver's record is loaded.
#[derive(Debug)]
pub struct LoadFacts {
    pub loom_dir_exists: Option<bool>,
    pub metadata_text: Option<Result<String, String>>,
    pub metadata: Option<Result<WeaverMetadata, String>>,
}

/// What loading a weaver's record can ask for.
#[derive(Debug)]
pub enum LoadStep {
    /// Whether the weaver's `.loom` directory exists.
    FindLoomDir { path: String },
    /// The text of the metadata file.
    ReadMetadata { path: String },
    /// The record that the text holds.
    DecodeMetadata { text: String },
}

/// A [`LoadStep`] as text.
pub enum LoadStepView {
    FindLoomDir { path: Seq<char> },
    ReadMetadata { path: Seq<char> },
    DecodeMetadata { text: Seq<char> },
}

impl View for LoadStep {
    type V = LoadStepView;

    open spec fn view(&self) -> LoadStepView {
        match self {
            LoadStep::FindLoomDir { path } => LoadStepView::FindLoomDir { path: path@ },
            LoadStep::ReadMetadata { path } => LoadStepView::ReadMetadata { path: path@ },
            LoadStep::DecodeMetadata { text } => LoadStepView::DecodeMetadata { text: text@ },
        }
    }
}

/// Loading a weaver's record: find its `.loom` directory, read the metadata
/// there, and decode it.
pub open spec fn loading(config: ConfigView, id: Seq<char>, facts: LoadFacts) -> Progress<
    LoadStepView,
    WeaverView,
    LocalErrorView,
> {
    match facts.loom_dir_exists {
        None => Progress::Need(LoadStepView::FindLoomDir { path: config.loom_dir(id) }),
        Some(false) => Progress::Done(Err(LocalErrorView::WeaverNotFound { id })),
        Some(true) => match facts.metadata_text {
            None => Progress::Need(LoadStepView::ReadMetadata { path: config.metadata_path(id) }),
            Some(Err(reason)) => Progress::Done(
                Err(
                    LocalErrorView::MetadataError {
                        message: "failed to read metadata at "@ + config.metadata_path(id) + ": "@
                            + reason@,
                    },
                ),
            ),
            Some(Ok(text)) => match facts.metadata {
                None => Progress::Need(LoadStepView::DecodeMetadata { text: text@ }),
                Some(Err(reason)) => Progress::Done(
                    Err(
                        LocalErrorView::MetadataError {
                            message: "failed to parse metadata: "@ + reason@,
                        },
                    ),
                ),
                Some(Ok(metadata)) => Progress::Done(Ok(described(config, metadata@))),
            },
        },
    }
}

/// What is known while a new weaver's record is stored.
#[derive(Debug)]
pub struct StoreFacts {
    pub working_dir_exists: Option<bool>,
    pub loom_dir_made: Option<Attempt>,
    pub encoded: Option<Result<String, String>>,
    pub temp_written: Option<Attempt>,
    pub renamed: Option<Attempt>,
    pub log_emptied: Option<Attempt>,
}

/// What storing a new weaver's record can ask for.
#[derive(Debug)]
pub enum StoreStep {
    /// Whether the working directory exists.
    FindWorkingDir { path: String },
    /// A directory, with all above it.
    MakeLoomDir { path: String },
    /// The text of the record.
    EncodeMetadata { metadata: WeaverMetadata },
    /// A file with the text, written through to the disk.
    WriteTemp { path: String, text: String },
    /// The file under its final name.
    Rename { from: String, to: String },
    /// An empty file.
    EmptyLog { path: String },
}

/// A [`StoreStep`] as text.
pub enum StoreStepView {
    FindWorkingDir { path: Seq<char> },
    MakeLoomDir { path: Seq<char> },
    EncodeMetadata { metadata: MetadataView },
    WriteTemp { path: Seq<char>, text: Seq<char> },
    Rename { from: Seq<char>, to: Seq<char> },
    EmptyLog { path: Seq<char> },
}

impl View for StoreStep {
    type V = StoreStepView;

    open spec fn view(&self) -> StoreStepView {
        match self {
            StoreStep::FindWorkingDir { path } => StoreStepView::FindWorkingDir { path: path@ },
            StoreStep::MakeLoomDir { path } => StoreStepView::MakeLoomDir { path: path@ },
            StoreStep::EncodeMetadata { metadata } => StoreStepView::EncodeMetadata {
                metadata: metadata@,
            },
            StoreStep::WriteTemp { path, text } => StoreStepView::WriteTemp {
                path: path@,
                text: text@,
            },
            StoreStep::Rename { from, to } => StoreStepView::Rename { from: from@, to: to@ },
            StoreStep::EmptyLog { path } => StoreStepView::EmptyLog { path: path@ },
        }
    }
}

/// Storing a new weaver's record. A weaver in its own directory must not be
/// there yet. The record is written beside its place and then moved there, so
/// that no half of it is ever seen.
pub open spec fn storing(
    config: ConfigView,
    metadata: MetadataView,
    facts: StoreFacts,
) -> Progress<StoreStepView, WeaverView, LocalErrorView> {
    let id = metadata.id;
    let working_dir = metadata.effective_working_dir(config);
    let fallback = config.is_fallback_dir(id, working_dir);
    if fallback && facts.working_dir_exists is None {
        Progress::Need(StoreStepView::FindWorkingDir { path: working_dir })
    } else if fallback && facts.working_dir_exists == Some(true) {
        Progress::Done(Err(LocalErrorView::WeaverExists { id }))
    } else {
        match facts.loom_dir_made {
            None => Progress::Need(StoreStepView::MakeLoomDir { path: config.loom_dir(id) }),
            Some(Attempt::Failed(reason)) => Progress::Done(Err(LocalErrorView::Io(reason@))),
            Some(Attempt::Succeeded) => match facts.encoded {
                None => Progress::Need(StoreStepView::EncodeMetadata { metadata }),
                Some(Err(reason)) => Progress::Done(
                    Err(
                        LocalErrorView::MetadataError {
                            message: "failed to serialize metadata: "@ + reason@,
                        },
                    ),
                ),
                Some(Ok(text)) => match facts.temp_written {
                    None => Progress::Need(
                        StoreStepView::WriteTemp {
                            path: config.metadata_temp_path(id),
                            text: text@,
                        },
                    ),
                    Some(Attempt::Failed(reason)) => Progress::Done(
                        Err(LocalErrorView::Io(reason@)),
                    ),
                    Some(Attempt::Succeeded) => match facts.renamed {
                        None => Progress::Need(
                            StoreStepView::Rename {
                                from: config.metadata_temp_path(id),
                                to: config.metadata_path(id),
                            },
                        ),
                        Some(Attempt::Failed(reason)) => Progress::Done(
                            Err(LocalErrorView::Io(reason@)),
                        ),
                        Some(Attempt::Succeeded) => match facts.log_emptied {
                            None => Progress::Need(
                                StoreStepView::EmptyLog { path: config.output_log_path(id) },
                            ),
                            Some(Attempt::Failed(reason)) => Progress::Done(
                                Err(LocalErrorView::Io(reason@)),
                            ),
                            Some(Attempt::Succeeded) => Progress::Done(
                                Ok(described(config, metadata)),
                            ),
                        },
                    },
                },
            },
        }
    }
}

/// A record is never written in its place: it is written whole beside it, and
/// moved there once that has succeeded.
pub proof fn law_record_is_moved_into_place(
    config: ConfigView,
    metadata: MetadataView,
    facts: StoreFacts,
)
    ensures
        storing(config, metadata, facts) matches Progress::Need(
            StoreStepView::WriteTemp { path, text },
        ) ==> path == config.metadata_temp_path(metadata.id) && !same_path(
            path,
            config.metadata_path(metadata.id),
        ) && facts.encoded is Some && facts.encoded->0 is Ok && text == facts.encoded->0->Ok_0@,
        storing(config, metadata, facts) matches Progress::Need(
            StoreStepView::Rename { from, to },
        ) ==> from == config.metadata_temp_path(metadata.id) && to == config.metadata_path(
            metadata.id,
        ) && facts.temp_written == Some(Attempt::Succeeded),
        storing(config, metadata, facts) matches Progress::Done(Ok(weaver)) ==> facts.temp_written
            == Some(Attempt::Succeeded) && facts.renamed == Some(Attempt::Succeeded) && weaver
            == described(config, metadata),
{
    law_files_lie_in_the_loom_dir(config, metadata.id);
}

/// Loading gives back what was stored, from the file that storing moved into
/// place. So it is while the `.loom` directory is there, its text is the one that
/// was stored, and that text decodes to the record that it was made from.
pub proof fn law_stored_record_loads_back(
    config: ConfigView,
    metadata: MetadataView,
    store: StoreFacts,
    load: LoadFacts,
    weaver: WeaverView,
)
    requires
        storing(config, metadata, store) == Progress::<
            StoreStepView,
            WeaverView,
            LocalErrorView,
        >::Done(Ok(weaver)),
        load.loom_dir_exists == Some(true),
        load.metadata_text matches Some(Ok(text)) && text@ == store.encoded->0->Ok_0@,
        load.metadata matches Some(Ok(decoded)) && decoded@ == metadata,
    ensures
        loading(config, metadata.id, LoadFacts { metadata_text: None, ..load }) == Progress::<
            LoadStepView,
            WeaverView,
            LocalErrorView,
        >::Need(LoadStepView::ReadMetadata { path: config.metadata_path(metadata.id) }),
        loading(config, metadata.id, LoadFacts { metadata: None, ..load }) == Progress::<
            LoadStepView,
            WeaverView,
            LocalErrorView,
        >::Need(LoadStepView::DecodeMetadata { text: store.encoded->0->Ok_0@ }),
        loading(config, metadata.id, load) == Progress::<
            LoadStepView,
            WeaverView,
            LocalErrorView,
        >::Done(Ok(weaver)),
        weaver.metadata == metadata,
        weaver.dir == metadata.effective_working_dir(config),
        weaver.status == WeaverStatus::Unknown,
{
}

/// A weaver without a `.loom` directory is not found; one whose metadata cannot be
/// read or decoded is an error of its metadata.
pub proof fn law_unreadable_records_are_told(config: ConfigView, id: Seq<char>, load: LoadFacts)
    ensures
        load.loom_dir_exists == Some(false) ==> loading(config, id, load) == Progress::<
            LoadStepView,
            WeaverView,
            LocalErrorView,
        >::Done(Err(LocalErrorView::WeaverNotFound { id })),
        load.loom_dir_exists == Some(true) && load.metadata_text is Some && (
        load.metadata_text->0 is Err || load.metadata is Some && load.metadata->0 is Err)
            ==> loading(config, id, load) matches Progress::Done(
            Err(LocalErrorView::MetadataError { .. }),
        ),
{
}

/// What is known while a directory is removed.
#[derive(Debug)]
pub struct RemoveFacts {
    pub dir_exists: Option<bool>,
    pub removed: Option<Attempt>,
}

/// What removing a directory can ask for.
#[derive(Debug)]
pub enum RemoveStep {
    /// Whether the directory exists.
    FindDir { path: String },
    /// The directory gone, with all that is in it.
    RemoveDir { path: String },
}

/// A [`RemoveStep`] as text.
pub enum RemoveStepView {
    FindDir { path: Seq<char> },
    RemoveDir { path: Seq<char> },
}

impl View for RemoveStep {
    type V = RemoveStepView;

    open spec fn view(&self) -> RemoveStepView {
        match self {
            RemoveStep::FindDir { path } => RemoveStepView::FindDir { path: path@ },
            RemoveStep::RemoveDir { path } => RemoveStepView::RemoveDir { path: path@ },
        }
    }
}

/// Nothing, as the result of an operation that only has effects.
#[derive(Debug)]
pub struct Finished;

impl View for Finished {
    type V = Finished;

    open spec fn view(&self) -> Finished {
        *self
    }
}

/// Removing a directory, if it is there.
pub open spec fn removing(path: Seq<char>, facts: RemoveFacts) -> Progress<
    RemoveStepView,
    Finished,
    LocalErrorView,
> {
    match facts.dir_exists {
        None => Progress::Need(RemoveStepView::FindDir { path }),
        Some(false) => Progress::Done(Ok(Finished)),
        Some(true) => match facts.removed {
            None => Progress::Need(RemoveStepView::RemoveDir { path }),
            Some(Attempt::Failed(reason)) => Progress::Done(Err(LocalErrorView::Io(reason@))),
            Some(Attempt::Succeeded) => Progress::Done(Ok(Finished)),
        },
    }
}

fn remove(path: String, facts: &RemoveFacts) -> (progress: Progress<
    RemoveStep,
    Finished,
    LocalError,
>)
    ensures
        progress@ == removing(path@, *facts),
{
    match facts.dir_exists {
        None => Progress::Need(RemoveStep::FindDir { path }),
        Some(false) => Progress::Done(Ok(Finished)),
        Some(true) => match &facts.removed {
            None => Progress::Need(RemoveStep::RemoveDir { path }),
            Some(Attempt::Failed(reason)) => Progress::Done(Err(LocalError::Io(reason.clone()))),
            Some(Attempt::Succeeded) => Progress::Done(Ok(Finished)),
        },
    }
}

/// What is known while weavers are listed.
#[derive(Debug)]
pub struct ListFacts {
    pub base_dir_exists: Option<bool>,
    /// The names in the base directory.
    pub names: Option<Result<Vec<String>, String>>,
    /// Which of the metadata files asked for exist.
    pub metadata_exists: Option<Vec<bool>>,
}

/// What listing weavers can ask for.
#[derive(Debug)]
pub enum ListStep {
    /// Whether the base directory exists.
    FindBaseDir { path: String },
    /// The names in the base directory.
    ReadBaseDir { path: String },
    /// Which of these files exist.
    FindMetadata { paths: Vec<String> },
}

/// A [`ListStep`] as text.
pub enum ListStepView {
    FindBaseDir { path: Seq<char> },
    ReadBaseDir { path: Seq<char> },
    FindMetadata { paths: Seq<Seq<char>> },
}

impl View for ListStep {
    type V = ListStepView;

    open spec fn view(&self) -> ListStepView {
        match self {
            ListStep::FindBaseDir { path } => ListStepView::FindBaseDir { path: path@ },
            ListStep::ReadBaseDir { path } => ListStepView::ReadBaseDir { path: path@ },
            ListStep::FindMetadata { paths } => ListStepView::FindMetadata {
                paths: paths.deep_view(),
            },
        }
    }
}

/// The ids among directory names: what follows `weaver-`.
pub open spec fn ids_among(names: Seq<Seq<char>>) -> Seq<Seq<char>>
    decreases names.len(),
{
    if names.len() == 0 {
        Seq::empty()
    } else {
        let front = ids_among(names.drop_last());
        match strip_prefix(names.last(), "weaver-"@) {
            Some(id) => front.push(id),
            None => front,
        }
    }
}

/// Those of `ids` of which the flag is set.
pub open spec fn flagged(ids: Seq<Seq<char>>, flags: Seq<bool>) -> Seq<Seq<char>>
    decreases ids.len(),
{
    if ids.len() == 0 {
        Seq::empty()
    } else {
        let front = flagged(ids.drop_last(), flags);
        if ids.len() <= flags.len() && flags[ids.len() - 1] {
            front.push(ids.last())
        } else {
            front
        }
    }
}

/// A list of ids, as the result of an operation.
#[derive(Debug)]
pub struct WeaverIds {
    pub ids: Vec<String>,
}

impl View for WeaverIds {
    type V = Seq<Seq<char>>;

    open spec fn view(&self) -> Seq<Seq<char>> {
        self.ids.deep_view()
    }
}

/// The metadata files of weavers.
pub open spec fn metadata_paths(config: ConfigView, ids: Seq<Seq<char>>) -> Seq<Seq<char>> {
    ids.map_values(|id: Seq<char>| config.metadata_path(id))
}

/// Listing weavers: each directory called `weaver-…` that holds a record.
pub open spec fn listing(config: ConfigView, facts: ListFacts) -> Progress<
    ListStepView,
    Seq<Seq<char>>,
    LocalErrorView,
> {
    match facts.base_dir_exists {
        None => Progress::Need(ListStepView::FindBaseDir { path: config.base_dir }),
        Some(false) => Progress::Done(Ok(Seq::empty())),
        Some(true) => match facts.names {
            None => Progress::Need(ListStepView::ReadBaseDir { path: config.base_dir }),
            Some(Err(reason)) => Progress::Done(Err(LocalErrorView::Io(reason@))),
            Some(Ok(names)) => {
                let ids = ids_among(names.deep_view());
                match facts.metadata_exists {
                    None => Progress::Need(
                        ListStepView::FindMetadata { paths: metadata_paths(config, ids) },
                    ),
                    Some(flags) => Progress::Done(Ok(flagged(ids, flags@))),
                }
            },
        },
    }
}

/// The ids among directory names are those of the directories called `weaver-…`.
pub proof fn law_ids_are_of_weaver_directories(names: Seq<Seq<char>>, id: Seq<char>)
    ensures
        ids_among(names).contains(id) <==> names.contains("weaver-"@ + id),
    decreases names.len(),
{
    let prefix = "weaver-"@;
    if names.len() > 0 {
        let front = names.drop_last();
        let last = names.last();
        law_ids_are_of_weaver_directories(front, id);
        assert(strip_prefix(last, prefix) == Some(id) <==> last == prefix + id) by {
            if strip_prefix(last, prefix) == Some(id) {
                assert(last =~= prefix + last.skip(prefix.len() as int));
            }
            if last == prefix + id {
                assert(prefix =~= last.subrange(0, prefix.len() as int));
                assert(last.skip(prefix.len() as int) =~= id);
            }
        }
        if names.contains(prefix + id) {
            let at = choose|i: int| 0 <= i < names.len() && names[i] == prefix + id;
            if at < front.len() {
                assert(front[at] == prefix + id);
                let k = choose|k: int| 0 <= k < ids_among(front).len() && ids_among(front)[k] == id;
                assert(ids_among(names)[k] == id);
            } else {
                assert(ids_among(names).last() == id);
            }
        }
        if ids_among(names).contains(id) {
            let k = choose|k: int| 0 <= k < ids_among(names).len() && ids_among(names)[k] == id;
            if k < ids_among(front).len() {
                assert(ids_among(front)[k] == id);
                let at = choose|i: int| 0 <= i < front.len() && front[i] == prefix + id;
                assert(names[at] == prefix + id);
            } else {
                assert(names[names.len() - 1] == prefix + id);
            }
        }
    }
}

/// Listing keeps exactly the weavers whose record was found.
pub proof fn law_listed_weavers_have_a_record(ids: Seq<Seq<char>>, flags: Seq<bool>, id: Seq<char>)
    ensures
        flagged(ids, flags).contains(id) <==> exists|i: int|
            0 <= i < ids.len() && i < flags.len() && #[trigger] ids[i] == id && flags[i],
    decreases ids.len(),
{
    if ids.len() > 0 {
        let front = ids.drop_last();
        let before = flagged(front, flags);
        let after = flagged(ids, flags);
        law_listed_weavers_have_a_record(front, flags, id);
        if after.contains(id) {
            let k = choose|k: int| 0 <= k < after.len() && after[k] == id;
            if k < before.len() {
                assert(before[k] == id);
                let i = choose|i: int|
                    0 <= i < front.len() && i < flags.len() && #[trigger] front[i] == id && flags[i];
                assert(ids[i] == id);
            } else {
                assert(ids[ids.len() - 1] == id);
            }
        }
        if exists|i: int|
            0 <= i < ids.len() && i < flags.len() && #[trigger] ids[i] == id && flags[i] {
            let i = choose|i: int|
                0 <= i < ids.len() && i < flags.len() && #[trigger] ids[i] == id && flags[i];
            if i < front.len() {
                assert(front[i] == id);
                let k = choose|k: int| 0 <= k < before.len() && before[k] == id;
                assert(after[k] == id);
            } else {
                assert(after.last() == id);
            }
        }
    }
}

/// No weaver is listed twice, as no two names in a directory are the same.
pub proof fn law_weavers_are_listed_once(names: Seq<Seq<char>>, flags: Seq<bool>)
    requires
        names.no_duplicates(),
    ensures
        flagged(ids_among(names), flags).no_duplicates(),
{
    lemma_ids_are_distinct(names);
    lemma_flagged_are_distinct(ids_among(names), flags);
}

proof fn lemma_ids_are_distinct(names: Seq<Seq<char>>)
    requires
        names.no_duplicates(),
    ensures
        ids_among(names).no_duplicates(),
    decreases names.len(),
{
    if names.len() > 0 {
        let front = names.drop_last();
        lemma_ids_are_distinct(front);
        match strip_prefix(names.last(), "weaver-"@) {
            Some(id) => {
                law_ids_are_of_weaver_directories(front, id);
                let prefix = "weaver-"@;
                assert(names.last() =~= prefix + names.last().skip(prefix.len() as int));
                assert(names.last() == prefix + id);
                assert(!front.contains(prefix + id)) by {
                    if front.contains(prefix + id) {
                        let i = choose|i: int| 0 <= i < front.len() && front[i] == prefix + id;
                        assert(names[i] == names[names.len() - 1]);
                    }
                }
                assert(!ids_among(front).contains(id));
            },
            None => {},
        }
    }
}

proof fn lemma_flagged_are_distinct(ids: Seq<Seq<char>>, flags: Seq<bool>)
    requires
        ids.no_duplicates(),
    ensures
        flagged(ids, flags).no_duplicates(),
    decreases ids.len(),
{
    if ids.len() > 0 {
        let front = ids.drop_last();
        lemma_flagged_are_distinct(front, flags);
        law_listed_weavers_have_a_record(front, flags, ids.last());
        assert(!flagged(front, flags).contains(ids.last())) by {
            if flagged(front, flags).contains(ids.last()) {
                let i = choose|i: int|
                    0 <= i < front.len() && i < flags.len() && #[trigger] front[i] == ids.last()
                        && flags[i];
                assert(ids[i] == ids[ids.len() - 1]);
            }
        }
    }
}

fn collect_ids(names: &Vec<String>) -> (ids: Vec<String>)
    ensures
        ids.deep_view() == ids_among(names.deep_view()),
{
    let ghost all = names.deep_view();
    let mut ids: Vec<String> = Vec::new();
    let mut i: usize = 0;
    assert(ids.deep_view() =~= ids_among(all.take(0)));
    while i < names.len()
        invariant
            i <= names@.len(),
            all == names.deep_view(),
            ids.deep_view() == ids_among(all.take(i as int)),
        decreases names@.len() - i,
    {
        let ghost before = ids.deep_view();
        assert(all[i as int] == names@[i as int]@);
        assert(all.take(i + 1).drop_last() =~= all.take(i as int));
        assert(all.take(i + 1).last() == all[i as int]);
        match strip_prefix_text(names[i].as_str(), "weaver-") {
            Some(id) => {
                ids.push(id);
                assert(ids.deep_view() =~= before.push(id@));
            },
            None => {},
        }
        i = i + 1;
    }
    assert(all.take(all.len() as int) =~= all);
    ids
}

fn keep_flagged(ids: &Vec<String>, flags: &Vec<bool>) -> (kept: Vec<String>)
    ensures
        kept.deep_view() == flagged(ids.deep_view(), flags@),
{
    let ghost all = ids.deep_view();
    let mut kept: Vec<String> = Vec::new();
    let mut i: usize = 0;
    assert(kept.deep_view() =~= flagged(all.take(0), flags@));
    while i < ids.len()
        invariant
            i <= ids@.len(),
            all == ids.deep_view(),
            kept.deep_view() == flagged(all.take(i as int), flags@),
        decreases ids@.len() - i,
    {
        let ghost before = kept.deep_view();
        assert(all[i as int] == ids@[i as int]@);
        assert(all.take(i + 1).drop_last() =~= all.take(i as int));
        assert(all.take(i + 1).last() == all[i as int]);
        if i < flags.len() && flags[i] {
            kept.push(ids[i].clone());
            assert(kept.deep_view() =~= before.push(ids@[i as int]@));
        }
        i = i + 1;
    }
    assert(all.take(all.len() as int) =~= all);
    kept
}

fn all_metadata_paths(config: &LocalConfig, ids: &Vec<String>) -> (paths: Vec<String>)
    ensures
        paths.deep_view() == metadata_paths(config@, ids.deep_view()),
{
    let ghost all = ids.deep_view();
    let mut paths: Vec<String> = Vec::new();
    let mut i: usize = 0;
    assert(paths.deep_view() =~= metadata_paths(config@, all.take(0)));
    while i < ids.len()
        invariant
            i <= ids@.len(),
            all == ids.deep_view(),
            paths.deep_view() == metadata_paths(config@, all.take(i as int)),
        decreases ids@.len() - i,
    {
        let ghost before = paths.deep_view();
        let path = config.metadata_path(ids[i].as_str());
        assert(all[i as int] == ids@[i as int]@);
        paths.push(path);
        assert(paths.deep_view() =~= before.push(path@));
        assert(metadata_paths(config@, all.take(i + 1)) =~= before.push(path@));
        i = i + 1;
    }
    assert(all.take(all.len() as int) =~= all);
    paths
}

/// What is known while the state of a weaver's process is found out.
#[derive(Debug)]
pub struct StatusFacts {
    pub session: Option<Run>,
    pub pane: Option<Run>,
    pub exit: Option<Run>,
}

/// What finding out the state of a weaver's process can ask tmux.
#[derive(Debug)]
pub enum StatusStep {
    FindSession { call: Vec<String> },
    AskPane { call: Vec<String> },
    AskExit { call: Vec<String> },
}

/// A [`StatusStep`] as text.
pub enum StatusStepView {
    FindSession { call: Seq<Seq<char>> },
    AskPane { call: Seq<Seq<char>> },
    AskExit { call: Seq<Seq<char>> },
}

impl View for StatusStep {
    type V = StatusStepView;

    open spec fn view(&self) -> StatusStepView {
        match self {
            StatusStep::FindSession { call } => StatusStepView::FindSession {
                call: call.deep_view(),
            },
            StatusStep::AskPane { call } => StatusStepView::AskPane { call: call.deep_view() },
            StatusStep::AskExit { call } => StatusStepView::AskExit { call: call.deep_view() },
        }
    }
}

impl View for WeaverStatus {
    type V = WeaverStatus;

    open spec fn view(&self) -> WeaverStatus {
        *self
    }
}

/// The state of the process in a session that exists, from what tmux tells about
/// its pane.
pub open spec fn observing_pane(
    session: Seq<char>,
    pane: Option<Run>,
    exit: Option<Run>,
) -> Progress<StatusStepView, WeaverStatus, LocalErrorView> {
    match pane {
        None => Progress::Need(StatusStepView::AskPane { call: pane_dead_words(session) }),
        Some(run) => match pane_dead(run) {
            Err(error) => Progress::Done(Err(error)),
            Ok(false) => Progress::Done(Ok(WeaverStatus::observed(true, false, None))),
            Ok(true) => match exit {
                None => Progress::Need(StatusStepView::AskExit { call: pane_exit_words(session) }),
                Some(run) => match pane_exit(run) {
                    Err(error) => Progress::Done(Err(error)),
                    Ok(code) => Progress::Done(Ok(WeaverStatus::observed(true, true, code))),
                },
            },
        },
    }
}

/// Finding out the state of a weaver's process.
pub open spec fn observing(id: Seq<char>, facts: StatusFacts) -> Progress<
    StatusStepView,
    WeaverStatus,
    LocalErrorView,
> {
    let session = session_of(id);
    match facts.session {
        None => Progress::Need(StatusStepView::FindSession { call: has_session_words(session) }),
        Some(run) => match presence(run) {
            Err(error) => Progress::Done(Err(error)),
            Ok(false) => Progress::Done(Ok(WeaverStatus::observed(false, false, None))),
            Ok(true) => observing_pane(session, facts.pane, facts.exit),
        },
    }
}

/// Finding out the state of the process in a session that exists.
pub fn observe_pane(session: &TmuxSession, pane: &Option<Run>, exit: &Option<Run>) -> (progress:
    Progress<StatusStep, WeaverStatus, LocalError>)
    ensures
        progress@ == observing_pane(session.name@, *pane, *exit),
{
    match pane {
        None => Progress::Need(StatusStep::AskPane { call: session.pane_dead_command() }),
        Some(run) => match session.is_pane_dead(run) {
            Err(error) => Progress::Done(Err(error)),
            Ok(dead) => {
                if !dead {
                    return Progress::Done(Ok(WeaverStatus::from_answers(true, false, None)));
                }
                match exit {
                    None => Progress::Need(StatusStep::AskExit { call: session.pane_exit_command() }),
                    Some(run) => match session.pane_exit_status(run) {
                        Err(error) => Progress::Done(Err(error)),
                        Ok(code) => Progress::Done(
                            Ok(WeaverStatus::from_answers(true, true, code)),
                        ),
                    },
                }
            },
        },
    }
}

/// Finding out the state of a weaver's process.
pub fn observe(id: &str, facts: &StatusFacts) -> (progress: Progress<
    StatusStep,
    WeaverStatus,
    LocalError,
>)
    ensures
        progress@ == observing(id@, *facts),
{
    let session = TmuxSession::new(join2("weaver-", id));
    match &facts.session {
        None => Progress::Need(StatusStep::FindSession { call: session.session_exists_command() }),
        Some(run) => match session.session_exists(run) {
            Err(error) => Progress::Done(Err(error)),
            Ok(there) => {
                if !there {
                    return Progress::Done(Ok(WeaverStatus::from_answers(false, false, None)));
                }
                observe_pane(&session, &facts.pane, &facts.exit)
            },
        },
    }
}

impl LocalWeaver {
    /// The tmux session of the weaver.
    pub fn session_name(&self) -> (name: String)
        ensures
            name@ == session_of(self@.metadata.id),
    {
        join2("weaver-", self.metadata.id.as_str())
    }

    /// The weaver that a record describes.
    fn from_metadata(config: &LocalConfig, metadata: WeaverMetadata) -> (weaver: Self)
        ensures
            weaver@ == described(config@, metadata@),
    {
        let dir = metadata.effective_working_dir(config);
        LocalWeaver { metadata, status: WeaverStatus::Unknown, dir }
    }

    /// Loads a weaver's record.
    pub fn load(config: &LocalConfig, id: &str, facts: &LoadFacts) -> (progress: Progress<
        LoadStep,
        LocalWeaver,
        LocalError,
    >)
        ensures
            progress@ == loading(config@, id@, *facts),
    {
        match facts.loom_dir_exists {
            None => {
                return Progress::Need(LoadStep::FindLoomDir { path: config.loom_dir(id) });
            },
            Some(found) => {
                if !found {
                    return Progress::Done(
                        Err(LocalError::WeaverNotFound { id: id.to_owned() }),
                    );
                }
            },
        }
        let text = match &facts.metadata_text {
            None => {
                return Progress::Need(LoadStep::ReadMetadata { path: config.metadata_path(id) });
            },
            Some(Err(reason)) => {
                let mut message = "failed to read metadata at ".to_owned();
                message.append(config.metadata_path(id).as_str());
                message.append(": ");
                message.append(reason.as_str());
                return Progress::Done(Err(LocalError::MetadataError { message }));
            },
            Some(Ok(text)) => text,
        };
        match &facts.metadata {
            None => Progress::Need(LoadStep::DecodeMetadata { text: text.clone() }),
            Some(Err(reason)) => Progress::Done(
                Err(
                    LocalError::MetadataError {
                        message: join2("failed to parse metadata: ", reason.as_str()),
                    },
                ),
            ),
            Some(Ok(metadata)) => Progress::Done(
                Ok(LocalWeaver::from_metadata(config, metadata.clone())),
            ),
        }
    }

    /// Stores the record of a new weaver.
    pub fn create(config: &LocalConfig, metadata: &WeaverMetadata, facts: &StoreFacts) -> (progress:
        Progress<StoreStep, LocalWeaver, LocalError>)
        ensures
            progress@ == storing(config@, metadata@, *facts),
    {
        let id = metadata.id.as_str();
        let working_dir = metadata.effective_working_dir(config);
        if is_same_path(working_dir.as_str(), config.weaver_dir(id).as_str()) {
            match facts.working_dir_exists {
                None => {
                    return Progress::Need(StoreStep::FindWorkingDir { path: working_dir });
                },
                Some(found) => {
                    if found {
                        return Progress::Done(
                            Err(LocalError::WeaverExists { id: metadata.id.clone() }),
                        );
                    }
                },
            }
        }
        match &facts.loom_dir_made {
            None => {
                return Progress::Need(StoreStep::MakeLoomDir { path: config.loom_dir(id) });
            },
            Some(Attempt::Failed(reason)) => {
                return Progress::Done(Err(LocalError::Io(reason.clone())));
            },
            Some(Attempt::Succeeded) => {},
        }
        let text = match &facts.encoded {
            None => {
                return Progress::Need(StoreStep::EncodeMetadata { metadata: metadata.clone() });
            },
            Some(Err(reason)) => {
                return Progress::Done(
                    Err(
                        LocalError::MetadataError {
                            message: join2("failed to serialize metadata: ", reason.as_str()),
                        },
                    ),
                );
            },
            Some(Ok(text)) => text,
        };
        match &facts.temp_written {
            None => {
                return Progress::Need(
                    StoreStep::WriteTemp {
                        path: config.metadata_temp_path(id),
                        text: text.clone(),
                    },
                );
            },
            Some(Attempt::Failed(reason)) => {
                return Progress::Done(Err(LocalError::Io(reason.clone())));
            },
            Some(Attempt::Succeeded) => {},
        }
        match &facts.renamed {
            None => {
                return Progress::Need(
                    StoreStep::Rename {
                        from: config.metadata_temp_path(id),
                        to: config.metadata_path(id),
                    },
                );
            },
            Some(Attempt::Failed(reason)) => {
                return Progress::Done(Err(LocalError::Io(reason.clone())));
            },
            Some(Attempt::Succeeded) => {},
        }
        match &facts.log_emptied {
            None => Progress::Need(StoreStep::EmptyLog { path: config.output_log_path(id) }),
            Some(Attempt::Failed(reason)) => Progress::Done(Err(LocalError::Io(reason.clone()))),
            Some(Attempt::Succeeded) => Progress::Done(
                Ok(LocalWeaver::from_metadata(config, metadata.clone())),
            ),
        }
    }

    /// Removes the directory of a weaver, with all that is in it.
    pub fn delete(config: &LocalConfig, id: &str, facts: &RemoveFacts) -> (progress: Progress<
        RemoveStep,
        Finished,
        LocalError,
    >)
        ensures
            progress@ == removing(config@.weaver_dir(id@), *facts),
    {
        remove(config.weaver_dir(id), facts)
    }

    /// Removes only the `.loom` directory of a weaver, preserving the user's
    /// working directory. For a weaver that was created in an existing directory.
    pub fn delete_metadata_only(config: &LocalConfig, id: &str, facts: &RemoveFacts) -> (progress:
        Progress<RemoveStep, Finished, LocalError>)
        ensures
            progress@ == removing(config@.loom_dir(id@), *facts),
    {
        remove(config.loom_dir(id), facts)
    }

    /// The ids of all weavers that have a record.
    pub fn list_all(config: &LocalConfig, facts: &ListFacts) -> (progress: Progress<
        ListStep,
        WeaverIds,
        LocalError,
    >)
        ensures
            progress@ == listing(config@, *facts),
    {
        match facts.base_dir_exists {
            None => {
                return Progress::Need(ListStep::FindBaseDir { path: config.base_dir.clone() });
            },
            Some(found) => {
                if !found {
                    let none = WeaverIds { ids: Vec::new() };
                    assert(none@ =~= Seq::<Seq<char>>::empty());
                    return Progress::Done(Ok(none));
                }
            },
        }
        match &facts.names {
            None => Progress::Need(ListStep::ReadBaseDir { path: config.base_dir.clone() }),
            Some(Err(reason)) => Progress::Done(Err(LocalError::Io(reason.clone()))),
            Some(Ok(names)) => {
                let ids = collect_ids(names);
                match &facts.metadata_exists {
                    None => Progress::Need(
                        ListStep::FindMetadata { paths: all_metadata_paths(config, &ids) },
                    ),
                    Some(flags) => Progress::Done(
                        Ok(WeaverIds { ids: keep_flagged(&ids, flags) }),
                    ),
                }
            },
        }
    }
}

/// Records and weavers are seen as they are.
pub proof fn law_weavers_are_seen_as_they_are(weaver: LocalWeaver)
    ensures
        weaver@.status == weaver.status,
        weaver@.dir == weaver.dir@,
        weaver@.metadata == weaver.metadata@,
        weaver@.metadata.id == weaver.metadata.id@,
        weaver@.metadata.name == weaver.metadata.name@,
        weaver@.metadata.image == weaver.metadata.image@,
        weaver@.metadata.labels == weaver.metadata.labels@,
        weaver@.metadata.created_at == weaver.metadata.created_at,
        weaver@.metadata.ttl_hours == weaver.metadata.ttl_hours,
        weaver@.metadata.working_dir == weaver.metadata.working_dir@,
        weaver@.metadata.env_vars.len() == weaver.metadata.env_vars@.len(),
        forall|i: int|
            0 <= i < weaver.metadata.env_vars@.len() ==> weaver@.metadata.env_vars[i] == ((
            #[trigger] weaver.metadata.env_vars@[i]).0@, weaver.metadata.env_vars@[i].1@),
{
}

/// The record of a new weaver holds what the weaver is made with, the name
/// `weaver-…` after its id, no variables and no lifetime.
pub proof fn law_new_record_holds_what_was_given(
    id: Seq<char>,
    image: Seq<char>,
    labels: Map<Seq<char>, Seq<char>>,
    working_dir: Seq<char>,
    created_at: Timestamp,
)
    ensures
        ({
            let record = MetadataView::fresh(id, image, labels, working_dir, created_at);
            &&& record.id == id
            &&& record.name == "weaver-"@ + id
            &&& record.image == image
            &&& record.labels == labels
            &&& record.working_dir == working_dir
            &&& record.created_at == created_at
            &&& record.env_vars.len() == 0
            &&& record.ttl_hours is None
        }),
{
}

/// A weaver works in the directory that its record names, and in its own where the
/// record names none.
pub proof fn law_weaver_works_where_its_record_says(config: ConfigView, metadata: MetadataView)
    ensures
        metadata.working_dir.len() > 0 ==> metadata.effective_working_dir(config)
            == metadata.working_dir,
        metadata.working_dir.len() == 0 ==> metadata.effective_working_dir(config)
            == config.weaver_dir(metadata.id),
{
}

/// A weaver has expired once more than its hours have passed since it was created,
/// to the nanosecond; and never without a lifetime.
pub proof fn law_weaver_expires_after_its_hours(metadata: MetadataView, now: Timestamp)
    requires
        metadata.expiry_known(),
        metadata.created_at.nanos < 1_000_000_000,
        now.nanos < 1_000_000_000,
    ensures
        metadata.ttl_hours is None ==> !metadata.expired_at(now),
        metadata.ttl_hours matches Some(hours) ==> (metadata.expired_at(now) <==> (now.secs
            - metadata.created_at.secs) * 1_000_000_000 + (now.nanos - metadata.created_at.nanos)
            > hours * 3_600_000_000_000),
{
}

/// A weaver runs while its session is there and its process alive. Once the process
/// has ended, the weaver has failed exactly if it exited with a status other than
/// zero; and one without a session has failed.
pub proof fn law_state_of_a_process(session: bool, dead: bool, exit: Option<u32>)
    ensures
        WeaverStatus::observed(session, dead, exit) == WeaverStatus::Running <==> session && !dead,
        WeaverStatus::observed(session, dead, exit) == WeaverStatus::Succeeded <==> session && dead
            && (exit is None || exit == Some(0u32)),
        WeaverStatus::observed(session, dead, exit) == WeaverStatus::Failed <==> !session || dead
            && exit is Some && exit != Some(0u32),
{
}

/// What loading asks for: the `.loom` directory, then the metadata file in it, then
/// what the text of that file holds.
pub proof fn law_loading_reads_the_metadata_file(config: ConfigView, id: Seq<char>, facts: LoadFacts)
    ensures
        match loading(config, id, facts) {
            Progress::Need(LoadStepView::FindLoomDir { path }) => path == config.loom_dir(id)
                && facts.loom_dir_exists is None,
            Progress::Need(LoadStepView::ReadMetadata { path }) => path == config.metadata_path(id)
                && facts.loom_dir_exists == Some(true) && facts.metadata_text is None,
            Progress::Need(LoadStepView::DecodeMetadata { text }) => facts.metadata is None && (
            facts.metadata_text matches Some(Ok(read)) && text == read@),
            Progress::Done(Ok(weaver)) => facts.metadata matches Some(Ok(record))
                && weaver.metadata == record@ && weaver.status == WeaverStatus::Unknown
                && weaver.dir == if record@.working_dir.len() > 0 {
                record@.working_dir
            } else {
                config.weaver_dir(record@.id)
            },
            Progress::Done(Err(LocalErrorView::WeaverNotFound { id: missing })) => missing == id
                && facts.loom_dir_exists == Some(false),
            Progress::Done(Err(LocalErrorView::MetadataError { message })) => {
                ||| facts.metadata_text matches Some(Err(reason)) && message
                    == "failed to read metadata at "@ + config.metadata_path(id) + ": "@ + reason@
                ||| facts.metadata matches Some(Err(reason)) && message
                    == "failed to parse metadata: "@ + reason@
            },
            Progress::Done(Err(_)) => false,
        },
        facts.loom_dir_exists == Some(true) && facts.metadata_text is Some && facts.metadata_text->0
            is Ok && facts.metadata is Some && facts.metadata->0 is Ok ==> (loading(
            config,
            id,
            facts,
        ) matches Progress::Done(Ok(_))),
{
}

/// What storing asks for. The record that is encoded is the one that is stored, in
/// every field; its text goes whole into the file beside the record's place, which
/// then takes that place; the log is a file beside it; and no step comes before the
/// one that it needs has succeeded.
pub proof fn law_storing_keeps_the_record(
    config: ConfigView,
    metadata: MetadataView,
    facts: StoreFacts,
)
    ensures
        match storing(config, metadata, facts) {
            Progress::Need(StoreStepView::FindWorkingDir { path }) => path
                == metadata.effective_working_dir(config) && same_path(
                path,
                config.weaver_dir(metadata.id),
            ),
            Progress::Need(StoreStepView::MakeLoomDir { path }) => path == config.loom_dir(
                metadata.id,
            ),
            Progress::Need(StoreStepView::EncodeMetadata { metadata: encoded }) => encoded
                == metadata && facts.loom_dir_made == Some(Attempt::Succeeded),
            Progress::Need(StoreStepView::WriteTemp { path, text }) => path
                == config.metadata_temp_path(metadata.id) && (facts.encoded matches Some(Ok(made))
                && text == made@) && facts.loom_dir_made == Some(Attempt::Succeeded),
            Progress::Need(StoreStepView::Rename { from, to }) => from
                == config.metadata_temp_path(metadata.id) && to == config.metadata_path(metadata.id)
                && facts.temp_written == Some(Attempt::Succeeded),
            Progress::Need(StoreStepView::EmptyLog { path }) => path == config.output_log_path(
                metadata.id,
            ) && facts.renamed == Some(Attempt::Succeeded),
            Progress::Done(Ok(weaver)) => weaver.metadata == metadata && weaver.status
                == WeaverStatus::Unknown && weaver.dir == (if metadata.working_dir.len() > 0 {
                metadata.working_dir
            } else {
                config.weaver_dir(metadata.id)
            }) && facts.renamed == Some(Attempt::Succeeded) && facts.log_emptied == Some(
                Attempt::Succeeded,
            ),
            Progress::Done(Err(LocalErrorView::WeaverExists { id })) => id == metadata.id
                && facts.working_dir_exists == Some(true) && same_path(
                metadata.effective_working_dir(config),
                config.weaver_dir(metadata.id),
            ),
            Progress::Done(Err(LocalErrorView::MetadataError { message })) => facts.encoded matches Some(
                Err(reason),
            ) && message == "failed to serialize metadata: "@ + reason@,
            Progress::Done(Err(LocalErrorView::Io(reason))) => {
                ||| facts.loom_dir_made matches Some(Attempt::Failed(why)) && reason == why@
                ||| facts.temp_written matches Some(Attempt::Failed(why)) && reason == why@
                ||| facts.renamed matches Some(Attempt::Failed(why)) && reason == why@
                ||| facts.log_emptied matches Some(Attempt::Failed(why)) && reason == why@
            },
            Progress::Done(Err(_)) => false,
        },
{
}

/// Storing succeeds where every step has: in a directory of the user's whether or not
/// it is there, and in the weaver's own only if it was not there before. A step that
/// failed ends it.
pub proof fn law_storing_succeeds_where_its_steps_do(
    config: ConfigView,
    metadata: MetadataView,
    facts: StoreFacts,
)
    ensures
        ({
            let own = same_path(
                metadata.effective_working_dir(config),
                config.weaver_dir(metadata.id),
            );
            let progress = storing(config, metadata, facts);
            &&& (!own || facts.working_dir_exists == Some(false)) && facts.loom_dir_made == Some(
                Attempt::Succeeded,
            ) && facts.encoded is Some && facts.encoded->0 is Ok && facts.temp_written == Some(
                Attempt::Succeeded,
            ) && facts.renamed == Some(Attempt::Succeeded) && facts.log_emptied == Some(
                Attempt::Succeeded,
            ) ==> (progress matches Progress::Done(Ok(_)))
            &&& own && facts.working_dir_exists == Some(true) ==> progress == Progress::<
                StoreStepView,
                WeaverView,
                LocalErrorView,
            >::Done(Err(LocalErrorView::WeaverExists { id: metadata.id }))
            &&& (!own || facts.working_dir_exists == Some(false)) && (facts.loom_dir_made matches Some(
                Attempt::Failed(_),
            )) ==> (progress matches Progress::Done(Err(LocalErrorView::Io(_))))
            &&& own && facts.working_dir_exists is None ==> (progress matches Progress::Need(
                StoreStepView::FindWorkingDir { .. },
            ))
        }),
{
}

/// Only the given directory is removed, and only where it was found; the removal is
/// done exactly if the directory is not there or was removed, and a failed one tells
/// its reason.
pub proof fn law_only_the_directory_is_removed(path: Seq<char>, facts: RemoveFacts)
    ensures
        match removing(path, facts) {
            Progress::Need(RemoveStepView::FindDir { path: asked }) => asked == path,
            Progress::Need(RemoveStepView::RemoveDir { path: asked }) => asked == path
                && facts.dir_exists == Some(true),
            Progress::Done(Ok(_)) => facts.dir_exists == Some(false) || facts.dir_exists == Some(
                true,
            ) && facts.removed == Some(Attempt::Succeeded),
            Progress::Done(Err(error)) => facts.dir_exists == Some(true) && (facts.removed matches Some(
                Attempt::Failed(why),
            ) && error == LocalErrorView::Io(why@)),
        },
{
}

/// Listing looks into the base directory, and for the metadata file of each weaver
/// that it finds there. Nothing is listed where the base directory is missing.
pub proof fn law_listing_looks_into_the_base_directory(config: ConfigView, facts: ListFacts)
    ensures
        match listing(config, facts) {
            Progress::Need(ListStepView::FindBaseDir { path }) => path == config.base_dir,
            Progress::Need(ListStepView::ReadBaseDir { path }) => path == config.base_dir
                && facts.base_dir_exists == Some(true),
            Progress::Need(ListStepView::FindMetadata { paths }) => facts.names matches Some(
                Ok(names),
            ) && {
                let ids = ids_among(names.deep_view());
                paths.len() == ids.len() && forall|i: int|
                    0 <= i < ids.len() ==> #[trigger] paths[i] == config.metadata_path(ids[i])
            },
            Progress::Done(Ok(ids)) => {
                ||| facts.base_dir_exists == Some(false) && ids.len() == 0
                ||| facts.base_dir_exists == Some(true) && (facts.names matches Some(Ok(names))
                    && facts.metadata_exists is Some && ids == flagged(
                    ids_among(names.deep_view()),
                    facts.metadata_exists->0@,
                ))
            },
            Progress::Done(Err(error)) => facts.names matches Some(Err(why)) && error
                == LocalErrorView::Io(why@),
        },
{
}

/// Ids are listed in the order of the directories.
pub proof fn law_ids_keep_their_order(a: Seq<Seq<char>>, b: Seq<Seq<char>>)
    ensures
        ids_among(a + b) == ids_among(a) + ids_among(b),
    decreases b.len(),
{
    if b.len() == 0 {
        assert(a + b =~= a);
        assert(ids_among(a) + ids_among(b) =~= ids_among(a));
    } else {
        law_ids_keep_their_order(a, b.drop_last());
        assert((a + b).drop_last() =~= a + b.drop_last());
        assert((a + b).last() == b.last());
        assert(ids_among(a + b) =~= ids_among(a) + ids_among(b));
    }
}

/// Weavers that all have a record are all listed, in order.
pub proof fn law_all_found_are_listed(ids: Seq<Seq<char>>, flags: Seq<bool>)
    requires
        ids.len() <= flags.len(),
        forall|i: int| 0 <= i < ids.len() ==> #[trigger] flags[i],
    ensures
        flagged(ids, flags) == ids,
    decreases ids.len(),
{
    if ids.len() == 0 {
        assert(ids =~= Seq::empty());
    } else {
        law_all_found_are_listed(ids.drop_last(), flags);
        assert(flags[ids.len() - 1]);
        assert(ids.drop_last().push(ids.last()) =~= ids);
    }
}

/// The state of a weaver is asked of the session `weaver-…` after its id: whether it
/// is there, then whether its process has ended, then with which status.
pub proof fn law_state_is_asked_of_its_session(id: Seq<char>, facts: StatusFacts)
    ensures
        ({
            let session = "weaver-"@ + id;
            match observing(id, facts) {
                Progress::Need(StatusStepView::FindSession { call }) => call =~= seq![
                    "has-session"@,
                    "-t"@,
                    session,
                ] && facts.session is None,
                Progress::Need(StatusStepView::AskPane { call }) => call =~= seq![
                    "display-message"@,
                    "-t"@,
                    session,
                    "-p"@,
                    "#{pane_dead}"@,
                ] && facts.session is Some && presence(facts.session->0) == Ok::<
                    bool,
                    LocalErrorView,
                >(true),
                Progress::Need(StatusStepView::AskExit { call }) => call =~= seq![
                    "display-message"@,
                    "-t"@,
                    session,
                    "-p"@,
                    "#{pane_dead_status}"@,
                ] && facts.pane is Some && pane_dead(facts.pane->0) == Ok::<bool, LocalErrorView>(
                    true,
                ),
                Progress::Done(Ok(status)) => {
                    &&& facts.session is Some && presence(facts.session->0) is Ok
                    &&& presence(facts.session->0)->Ok_0 ==> facts.pane is Some && pane_dead(
                        facts.pane->0,
                    ) is Ok
                    &&& status == WeaverStatus::Running <==> presence(facts.session->0)->Ok_0
                        && pane_dead(facts.pane->0) == Ok::<bool, LocalErrorView>(false)
                    &&& status == WeaverStatus::Succeeded <==> presence(facts.session->0)->Ok_0
                        && pane_dead(facts.pane->0) == Ok::<bool, LocalErrorView>(true)
                        && facts.exit is Some && (pane_exit(facts.exit->0) == Ok::<
                        Option<u32>,
                        LocalErrorView,
                    >(None) || pane_exit(facts.exit->0) == Ok::<Option<u32>, LocalErrorView>(
                        Some(0u32),
                    ))
                    &&& status != WeaverStatus::Unknown
                },
                Progress::Done(Err(error)) => {
                    ||| facts.session is Some && presence(facts.session->0) == Err::<
                        bool,
                        LocalErrorView,
                    >(error)
                    ||| facts.pane is Some && pane_dead(facts.pane->0) == Err::<
                        bool,
                        LocalErrorView,
                    >(error)
                    ||| facts.exit is Some && pane_exit(facts.exit->0) == Err::<
                        Option<u32>,
                        LocalErrorView,
                    >(error)
                },
            }
        }),
{
}

/// Steps are seen as they are.
pub proof fn law_steps_are_seen_as_they_are(
    load: LoadStep,
    store: StoreStep,
    remove: RemoveStep,
    list: ListStep,
    status: StatusStep,
)
    ensures
        match load {
            LoadStep::FindLoomDir { path } => load@ == (LoadStepView::FindLoomDir { path: path@ }),
            LoadStep::ReadMetadata { path } => load@ == (LoadStepView::ReadMetadata { path: path@ }),
            LoadStep::DecodeMetadata { text } => load@ == (LoadStepView::DecodeMetadata {
                text: text@,
            }),
        },
        match store {
            StoreStep::FindWorkingDir { path } => store@ == (StoreStepView::FindWorkingDir {
                path: path@,
            }),
            StoreStep::MakeLoomDir { path } => store@ == (StoreStepView::MakeLoomDir {
                path: path@,
            }),
            StoreStep::EncodeMetadata { metadata } => store@ == (StoreStepView::EncodeMetadata {
                metadata: metadata@,
            }),
            StoreStep::WriteTemp { path, text } => store@ == (StoreStepView::WriteTemp {
                path: path@,
                text: text@,
            }),
            StoreStep::Rename { from, to } => store@ == (StoreStepView::Rename {
                from: from@,
                to: to@,
            }),
            StoreStep::EmptyLog { path } => store@ == (StoreStepView::EmptyLog { path: path@ }),
        },
        match remove {
            RemoveStep::FindDir { path } => remove@ == (RemoveStepView::FindDir { path: path@ }),
            RemoveStep::RemoveDir { path } => remove@ == (RemoveStepView::RemoveDir { path: path@ }),
        },
        match list {
            ListStep::FindBaseDir { path } => list@ == (ListStepView::FindBaseDir { path: path@ }),
            ListStep::ReadBaseDir { path } => list@ == (ListStepView::ReadBaseDir { path: path@ }),
            ListStep::FindMetadata { paths } => list@ == (ListStepView::FindMetadata {
                paths: paths.deep_view(),
            }),
        },
        match status {
            StatusStep::FindSession { call } => status@ == (StatusStepView::FindSession {
                call: call.deep_view(),
            }),
            StatusStep::AskPane { call } => status@ == (StatusStepView::AskPane {
                call: call.deep_view(),
            }),
            StatusStep::AskExit { call } => status@ == (StatusStepView::AskExit {
                call: call.deep_view(),
            }),
        },
{
}

/// When a weaver expires is known unless its hours lead past the end of the calendar; of
/// a weaver without hours it is always known.
pub proof fn law_expiry_is_known_within_the_calendar(metadata: MetadataView)
    ensures
        metadata.expiry_known() <==> (metadata.ttl_hours matches Some(hours)
            ==> metadata.created_at.valid() && metadata.created_at.secs + 3600 * hours
            <= 8_210_266_876_799),
{
}

} // verus!
