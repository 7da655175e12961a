//! Where weavers live on disk and what they run.
use crate::path::{is_plain_name, join_path, joined, law_join_adds_a_name, path_names, same_path};
use crate::text::{join2, same_text};
use crate::text_map::LabelMap;
use vstd::prelude::*;
use vstd::string::*;

verus! {

/// The environment variable that names a weaver's working directory.
pub open spec fn working_dir_variable() -> Seq<char> {
    "LOOM_WORKING_DIR"@
}

/// The annotation that names a weaver's working directory.
pub open spec fn working_dir_annotation() -> Seq<char> {
    "loom.dev/working-dir"@
}

/// Settings of the local backend.
#[derive(Debug)]
pub struct LocalConfig {
    /// The directory that holds one directory per weaver.
    pub base_dir: String,
    /// The image that the settings name for weavers.
    pub default_image: String,
    /// The URL under which a weaver reaches the server.
    pub server_url: String,
    /// The command that a weaver runs.
    pub loom_command: String,
}

/// A [`LocalConfig`] as text.
pub struct ConfigView {
    pub base_dir: Seq<char>,
    pub default_image: Seq<char>,
    pub server_url: Seq<char>,
    pub loom_command: Seq<char>,
}

impl View for LocalConfig {
    type V = ConfigView;

    open spec fn view(&self) -> ConfigView {
        ConfigView {
            base_dir: self.base_dir@,
            default_image: self.default_image@,
            server_url: self.server_url@,
            loom_command: self.loom_command@,
        }
    }
}

impl Clone for LocalConfig {
    fn clone(&self) -> (copy: Self)
        ensures
            copy@ == self@,
    {
        LocalConfig {
            base_dir: self.base_dir.clone(),
            default_image: self.default_image.clone(),
            server_url: self.server_url.clone(),
            loom_command: self.loom_command.clone(),
        }
    }
}

impl ConfigView {
    /// The directory of a weaver.
    pub open spec fn weaver_dir(self, id: Seq<char>) -> Seq<char> {
        joined(self.base_dir, "weaver-"@ + id)
    }

    /// The directory with what the backend keeps about a weaver.
    pub open spec fn loom_dir(self, id: Seq<char>) -> Seq<char> {
        joined(self.weaver_dir(id), ".loom"@)
    }

    /// The directory in which a weaver without a directory of its own works.
    pub open spec fn workspace_dir(self, id: Seq<char>) -> Seq<char> {
        joined(self.weaver_dir(id), "workspace"@)
    }

    pub open spec fn metadata_path(self, id: Seq<char>) -> Seq<char> {
        joined(self.loom_dir(id), "metadata.json"@)
    }

    /// Where metadata is written before it takes its place.
    pub open spec fn metadata_temp_path(self, id: Seq<char>) -> Seq<char> {
        joined(self.loom_dir(id), "metadata.json.tmp"@)
    }

    pub open spec fn pid_path(self, id: Seq<char>) -> Seq<char> {
        joined(self.loom_dir(id), "pid"@)
    }

    pub open spec fn output_log_path(self, id: Seq<char>) -> Seq<char> {
        joined(self.loom_dir(id), "output.log"@)
    }

    /// Whether a working directory is the one that the backend made for the
    /// weaver itself.
    pub open spec fn is_fallback_dir(self, id: Seq<char>, working_dir: Seq<char>) -> bool {
        same_path(working_dir, self.weaver_dir(id))
    }
}

/// The value of the first variable called `name`.
pub open spec fn env_value(env: Seq<(Seq<char>, Seq<char>)>, name: Seq<char>) -> Option<Seq<char>>
    decreases env.len(),
{
    if env.len() == 0 {
        None
    } else if env[0].0 == name {
        Some(env[0].1)
    } else {
        env_value(env.skip(1), name)
    }
}

/// The value that a map holds for `key`, if any.
pub open spec fn map_value(map: Map<Seq<char>, Seq<char>>, key: Seq<char>) -> Option<Seq<char>> {
    if map.contains_key(key) {
        Some(map[key])
    } else {
        None
    }
}

/// The working directory of a weaver: the one that the environment names if it
/// exists, else the one that the annotations name if it exists, else the
/// weaver's own directory.
pub open spec fn resolved_dir(
    config: ConfigView,
    id: Seq<char>,
    env: Seq<(Seq<char>, Seq<char>)>,
    annotations: Map<Seq<char>, Seq<char>>,
    env_dir_exists: bool,
    annotation_dir_exists: bool,
) -> Seq<char> {
    let from_env = env_value(env, working_dir_variable());
    let from_annotations = map_value(annotations, working_dir_annotation());
    if from_env is Some && env_dir_exists {
        from_env->0
    } else if from_annotations is Some && annotation_dir_exists {
        from_annotations->0
    } else {
        config.weaver_dir(id)
    }
}

/// The value of the first variable called `name`.
pub fn find_env(env_vars: &[(String, String)], name: &str) -> (value: Option<String>)
    ensures
        value.deep_view() == env_value(env_vars.deep_view(), name@),
{
    let mut i: usize = 0;
    let ghost env = env_vars.deep_view();
    assert(env.skip(0) =~= env);
    while i < env_vars.len()
        invariant
            i <= env_vars@.len(),
            env == env_vars.deep_view(),
            env_value(env, name@) == env_value(env.skip(i as int), name@),
        decreases env_vars@.len() - i,
    {
        assert(env[i as int] == env_vars@[i as int].deep_view());
        assert(env.skip(i as int)[0] == env[i as int]);
        assert(env.skip(i as int).skip(1) =~= env.skip(i + 1));
        if same_text(env_vars[i].0.as_str(), name) {
            return Some(env_vars[i].1.clone());
        }
        i = i + 1;
    }
    None
}

/// The value that a map holds for `key`, if any.
pub fn find_label(map: &LabelMap, key: &str) -> (value: Option<String>)
    ensures
        value.deep_view() == map_value(map@, key@),
{
    match map.get(key) {
        Some(value) => Some(value.clone()),
        None => None,
    }
}

impl LocalConfig {
    /// The settings for a server, with weavers below `weavers_dir` if that is
    /// given, else below `loom-weavers` in the home directory, else below
    /// `/tmp/loom-weavers`.
    pub fn new(server_url: String, weavers_dir: Option<String>, home: Option<String>) -> (config:
        Self)
        ensures
            config@ == (ConfigView {
                base_dir: match weavers_dir {
                    Some(dir) => dir@,
                    None => joined(
                        match home {
                            Some(home) => home@,
                            None => "/tmp"@,
                        },
                        "loom-weavers"@,
                    ),
                },
                default_image: "loom:latest"@,
                server_url: server_url@,
                loom_command: "loom"@,
            }),
    {
        let base_dir = match weavers_dir {
            Some(dir) => dir,
            None => {
                let home = match home {
                    Some(home) => home,
                    None => "/tmp".to_owned(),
                };
                join_path(home.as_str(), "loom-weavers")
            },
        };
        LocalConfig {
            base_dir,
            default_image: "loom:latest".to_owned(),
            server_url,
            loom_command: "loom".to_owned(),
        }
    }

    /// The same settings with another base directory.
    pub fn with_base_dir(self, base_dir: String) -> (config: Self)
        ensures
            config@ == (ConfigView { base_dir: base_dir@, ..self@ }),
    {
        LocalConfig { base_dir, ..self }
    }

    /// The same settings with another default image.
    pub fn with_default_image(self, image: String) -> (config: Self)
        ensures
            config@ == (ConfigView { default_image: image@, ..self@ }),
    {
        LocalConfig { default_image: image, ..self }
    }

    /// The same settings with another command for weavers to run.
    pub fn with_loom_command(self, command: String) -> (config: Self)
        ensures
            config@ == (ConfigView { loom_command: command@, ..self@ }),
    {
        LocalConfig { loom_command: command, ..self }
    }

    /// The directory of a weaver.
    pub fn weaver_dir(&self, weaver_id: &str) -> (path: String)
        ensures
            path@ == self@.weaver_dir(weaver_id@),
    {
        let name = join2("weaver-", weaver_id);
        join_path(self.base_dir.as_str(), name.as_str())
    }

    /// The directory with what the backend keeps about a weaver.
    pub fn loom_dir(&self, weaver_id: &str) -> (path: String)
        ensures
            path@ == self@.loom_dir(weaver_id@),
    {
        join_path(self.weaver_dir(weaver_id).as_str(), ".loom")
    }

    /// The directory in which a weaver without a directory of its own works.
    pub fn workspace_dir(&self, weaver_id: &str) -> (path: String)
        ensures
            path@ == self@.workspace_dir(weaver_id@),
    {
        join_path(self.weaver_dir(weaver_id).as_str(), "workspace")
    }

    pub fn metadata_path(&self, weaver_id: &str) -> (path: String)
        ensures
            path@ == self@.metadata_path(weaver_id@),
    {
        join_path(self.loom_dir(weaver_id).as_str(), "metadata.json")
    }

    /// Where metadata is written before it takes its place.
    pub fn metadata_temp_path(&self, weaver_id: &str) -> (path: String)
        ensures
            path@ == self@.metadata_temp_path(weaver_id@),
    {
        join_path(self.loom_dir(weaver_id).as_str(), "metadata.json.tmp")
    }

    pub fn pid_path(&self, weaver_id: &str) -> (path: String)
        ensures
            path@ == self@.pid_path(weaver_id@),
    {
        join_path(self.loom_dir(weaver_id).as_str(), "pid")
    }

    pub fn output_log_path(&self, weaver_id: &str) -> (path: String)
        ensures
            path@ == self@.output_log_path(weaver_id@),
    {
        join_path(self.loom_dir(weaver_id).as_str(), "output.log")
    }

    /// Resolves the working directory for a weaver, checking in turn the
    /// variable `LOOM_WORKING_DIR`, the annotation `loom.dev/working-dir` and
    /// the weaver's own directory. The two flags tell whether the directories
    /// that the first two name exist.
    pub fn resolve_working_dir(
        &self,
        weaver_id: &str,
        env_vars: &[(String, String)],
        annotations: &LabelMap,
        env_dir_exists: bool,
        annotation_dir_exists: bool,
    ) -> (path: String)
        ensures
            path@ == resolved_dir(
                self@,
                weaver_id@,
                env_vars.deep_view(),
                annotations@,
                env_dir_exists,
                annotation_dir_exists,
            ),
    {
        if env_dir_exists {
            match find_env(env_vars, "LOOM_WORKING_DIR") {
                Some(dir) => {
                    return dir;
                },
                None => {},
            }
        }
        if annotation_dir_exists {
            match find_label(annotations, "loom.dev/working-dir") {
                Some(dir) => {
                    return dir;
                },
                None => {},
            }
        }
        self.weaver_dir(weaver_id)
    }
}

/// Two weavers whose ids hold no `/` never share a directory.
pub proof fn law_weavers_have_own_directories(config: ConfigView, a: Seq<char>, b: Seq<char>)
    requires
        !a.contains('/'),
        !b.contains('/'),
        a != b,
    ensures
        !same_path(config.weaver_dir(a), config.weaver_dir(b)),
{
    reveal_strlit("weaver-");
    reveal_strlit(".");
    let name_a = "weaver-"@ + a;
    let name_b = "weaver-"@ + b;
    lemma_weaver_name_is_plain(a);
    lemma_weaver_name_is_plain(b);
    law_join_adds_a_name(config.base_dir, name_a);
    law_join_adds_a_name(config.base_dir, name_b);
    assert(name_a.skip(7) =~= a);
    assert(name_b.skip(7) =~= b);
    let names = path_names(config.base_dir);
    assert(names.push(name_a).last() == name_a);
    assert(names.push(name_b).last() == name_b);
}

proof fn lemma_weaver_name_is_plain(id: Seq<char>)
    requires
        !id.contains('/'),
    ensures
        is_plain_name("weaver-"@ + id),
{
    reveal_strlit("weaver-");
    reveal_strlit(".");
    let name = "weaver-"@ + id;
    assert forall|i: int| 0 <= i < name.len() implies name[i] != '/' by {
        if i >= 7 {
            assert(name[i] == id[i - 7]);
        }
    }
    assert(name.len() >= 7);
}

/// The directory of a weaver whose id holds no `/` lies in the base directory.
pub proof fn law_weaver_dir_lies_in_the_base_dir(config: ConfigView, id: Seq<char>)
    requires
        !id.contains('/'),
    ensures
        path_names(config.weaver_dir(id)) == path_names(config.base_dir).push("weaver-"@ + id),
{
    lemma_weaver_name_is_plain(id);
    law_join_adds_a_name(config.base_dir, "weaver-"@ + id);
}

/// Everything the backend keeps about a weaver lies in its `.loom` directory,
/// which lies in the weaver's directory, as does its workspace; and no two of the
/// files there are the same.
pub proof fn law_files_lie_in_the_loom_dir(config: ConfigView, id: Seq<char>)
    ensures
        path_names(config.loom_dir(id)) == path_names(config.weaver_dir(id)).push(".loom"@),
        path_names(config.workspace_dir(id)) == path_names(config.weaver_dir(id)).push(
            "workspace"@,
        ),
        path_names(config.metadata_path(id)) == path_names(config.loom_dir(id)).push(
            "metadata.json"@,
        ),
        path_names(config.metadata_temp_path(id)) == path_names(config.loom_dir(id)).push(
            "metadata.json.tmp"@,
        ),
        path_names(config.pid_path(id)) == path_names(config.loom_dir(id)).push("pid"@),
        path_names(config.output_log_path(id)) == path_names(config.loom_dir(id)).push(
            "output.log"@,
        ),
        !same_path(config.metadata_path(id), config.metadata_temp_path(id)),
        !same_path(config.metadata_path(id), config.pid_path(id)),
        !same_path(config.metadata_path(id), config.output_log_path(id)),
        !same_path(config.metadata_temp_path(id), config.pid_path(id)),
        !same_path(config.metadata_temp_path(id), config.output_log_path(id)),
        !same_path(config.pid_path(id), config.output_log_path(id)),
{
    reveal_strlit(".");
    reveal_strlit(".loom");
    reveal_strlit("workspace");
    reveal_strlit("metadata.json");
    reveal_strlit("metadata.json.tmp");
    reveal_strlit("pid");
    reveal_strlit("output.log");
    assert("."@.len() == 1 && ".loom"@.len() == 5 && "output.log"@.len() == 10);
    assert(forall|i: int| 0 <= i < 5 ==> ".loom"@[i] != '/');
    assert(forall|i: int| 0 <= i < 9 ==> "workspace"@[i] != '/');
    assert(forall|i: int| 0 <= i < 13 ==> "metadata.json"@[i] != '/');
    assert(forall|i: int| 0 <= i < 17 ==> "metadata.json.tmp"@[i] != '/');
    assert(forall|i: int| 0 <= i < 3 ==> "pid"@[i] != '/');
    assert(forall|i: int| 0 <= i < 10 ==> "output.log"@[i] != '/');
    law_join_adds_a_name(config.weaver_dir(id), ".loom"@);
    law_join_adds_a_name(config.weaver_dir(id), "workspace"@);
    law_join_adds_a_name(config.loom_dir(id), "metadata.json"@);
    law_join_adds_a_name(config.loom_dir(id), "metadata.json.tmp"@);
    law_join_adds_a_name(config.loom_dir(id), "pid"@);
    law_join_adds_a_name(config.loom_dir(id), "output.log"@);
    let names = path_names(config.loom_dir(id));
    assert(names.push("metadata.json"@).last() == "metadata.json"@);
    assert(names.push("metadata.json.tmp"@).last() == "metadata.json.tmp"@);
    assert(names.push("pid"@).last() == "pid"@);
    assert(names.push("output.log"@).last() == "output.log"@);
}

/// A variable is found wherever it stands: its value is that of the first variable
/// of the name, and there is none exactly if no variable has the name.
pub proof fn law_first_variable_is_found(
    env: Seq<(Seq<char>, Seq<char>)>,
    name: Seq<char>,
    value: Seq<char>,
)
    ensures
        env_value(env, name) == Some(value) <==> exists|i: int|
            0 <= i < env.len() && #[trigger] env[i] == (name, value) && forall|j: int|
                0 <= j < i ==> (#[trigger] env[j]).0 != name,
        env_value(env, name) is None <==> forall|i: int|
            0 <= i < env.len() ==> (#[trigger] env[i]).0 != name,
    decreases env.len(),
{
    if env.len() > 0 {
        let rest = env.skip(1);
        law_first_variable_is_found(rest, name, value);
        if env[0].0 == name {
            if env[0].1 == value {
                assert(env[0] == (name, value));
            }
        } else {
            assert forall|i: int| 0 <= i < rest.len() implies rest[i] == env[i + 1] by {}
            if env_value(rest, name) == Some(value) {
                let i = choose|i: int|
                    0 <= i < rest.len() && #[trigger] rest[i] == (name, value) && forall|j: int|
                        0 <= j < i ==> (#[trigger] rest[j]).0 != name;
                assert(env[i + 1] == (name, value));
                assert forall|j: int| 0 <= j < i + 1 implies (#[trigger] env[j]).0 != name by {
                    if j > 0 {
                        assert(rest[j - 1] == env[j]);
                    }
                }
            }
            if exists|i: int|
                0 <= i < env.len() && #[trigger] env[i] == (name, value) && forall|j: int|
                    0 <= j < i ==> (#[trigger] env[j]).0 != name {
                let i = choose|i: int|
                    0 <= i < env.len() && #[trigger] env[i] == (name, value) && forall|j: int|
                        0 <= j < i ==> (#[trigger] env[j]).0 != name;
                assert(rest[i - 1] == (name, value));
                assert forall|j: int| 0 <= j < i - 1 implies (#[trigger] rest[j]).0 != name by {
                    assert(rest[j] == env[j + 1]);
                }
            }
            if env_value(rest, name) is None {
                assert forall|i: int| 0 <= i < env.len() implies (#[trigger] env[i]).0 != name by {
                    if i > 0 {
                        assert(rest[i - 1] == env[i]);
                    }
                }
            }
            if forall|i: int| 0 <= i < env.len() ==> (#[trigger] env[i]).0 != name {
                assert forall|i: int| 0 <= i < rest.len() implies (#[trigger] rest[i]).0 != name by {
                    assert(rest[i] == env[i + 1]);
                }
            }
        }
    }
}

/// The value of a key is the one that the map pairs it with, and there is none
/// exactly if the map does not hold the key.
pub proof fn law_value_is_paired_with_its_key(
    map: Map<Seq<char>, Seq<char>>,
    key: Seq<char>,
    value: Seq<char>,
)
    ensures
        map_value(map, key) == Some(value) <==> map.contains_pair(key, value),
        map_value(map, key) is None <==> !map.contains_key(key),
{
}

/// The working directory: that of the first variable `LOOM_WORKING_DIR` if it
/// exists, whatever the annotations say; else that of the annotation
/// `loom.dev/working-dir` if it exists; else the weaver's own.
pub proof fn law_working_dir_is_chosen_in_turn(
    config: ConfigView,
    id: Seq<char>,
    env: Seq<(Seq<char>, Seq<char>)>,
    annotations: Map<Seq<char>, Seq<char>>,
    env_dir_exists: bool,
    annotation_dir_exists: bool,
)
    ensures
        ({
            let dir = resolved_dir(
                config,
                id,
                env,
                annotations,
                env_dir_exists,
                annotation_dir_exists,
            );
            let named = env_dir_exists && exists|i: int|
                0 <= i < env.len() && (#[trigger] env[i]).0 == "LOOM_WORKING_DIR"@;
            let annotated = annotation_dir_exists && annotations.contains_key(
                "loom.dev/working-dir"@,
            );
            &&& named ==> exists|i: int|
                0 <= i < env.len() && #[trigger] env[i] == ("LOOM_WORKING_DIR"@, dir) && forall|j: int|
                    0 <= j < i ==> (#[trigger] env[j]).0 != "LOOM_WORKING_DIR"@
            &&& !named && annotated ==> annotations.contains_pair("loom.dev/working-dir"@, dir)
            &&& !named && !annotated ==> dir == config.weaver_dir(id)
        }),
{
    let dir = resolved_dir(config, id, env, annotations, env_dir_exists, annotation_dir_exists);
    law_first_variable_is_found(env, "LOOM_WORKING_DIR"@, dir);
}

/// Where everything of a weaver lies, below a base directory that does not end in a
/// separator, and below one that does.
pub proof fn law_paths_of_a_weaver(config: ConfigView, id: Seq<char>)
    requires
        config.base_dir.len() > 0,
    ensures
        ({
            let below = if config.base_dir.last() == '/' {
                config.base_dir
            } else {
                config.base_dir + "/"@
            };
            let own = below + "weaver-"@ + id;
            let last = own + "/.loom/"@;
            &&& config.weaver_dir(id) == own
            &&& id.len() == 0 || id.last() != '/' ==> {
                &&& config.loom_dir(id) == own + "/.loom"@
                &&& config.workspace_dir(id) == own + "/workspace"@
                &&& config.metadata_path(id) == last + "metadata.json"@
                &&& config.metadata_temp_path(id) == last + "metadata.json.tmp"@
                &&& config.pid_path(id) == last + "pid"@
                &&& config.output_log_path(id) == last + "output.log"@
            }
        }),
{
    reveal_strlit("/");
    reveal_strlit("weaver-");
    reveal_strlit("/.loom/");
    reveal_strlit("/.loom");
    reveal_strlit(".loom");
    reveal_strlit("/workspace");
    reveal_strlit("workspace");
    reveal_strlit("metadata.json");
    reveal_strlit("metadata.json.tmp");
    reveal_strlit("pid");
    reveal_strlit("output.log");
    let below = if config.base_dir.last() == '/' {
        config.base_dir
    } else {
        config.base_dir + "/"@
    };
    let own = below + "weaver-"@ + id;
    assert(config.weaver_dir(id) =~= own);
    if id.len() == 0 || id.last() != '/' {
        let last = own + "/.loom/"@;
        assert(own.last() != '/') by {
            if id.len() > 0 {
                assert(own.last() == id.last());
            } else {
                assert(own.last() == "weaver-"@[6]);
            }
        }
        assert("/.loom"@ =~= seq!['/'] + ".loom"@);
        assert("/workspace"@ =~= seq!['/'] + "workspace"@);
        assert("/.loom/"@ =~= "/.loom"@.push('/'));
        assert(config.loom_dir(id) =~= own + "/.loom"@);
        assert(config.workspace_dir(id) =~= own + "/workspace"@);
        assert(config.loom_dir(id).last() == 'm') by {
            assert((own + "/.loom"@).last() == "/.loom"@[5]);
        }
        assert(config.metadata_path(id) =~= last + "metadata.json"@);
        assert(config.metadata_temp_path(id) =~= last + "metadata.json.tmp"@);
        assert(config.pid_path(id) =~= last + "pid"@);
        assert(config.output_log_path(id) =~= last + "output.log"@);
    }
}

/// Settings are seen as they are.
pub proof fn law_settings_are_seen_as_they_are(config: LocalConfig)
    ensures
        config@.base_dir == config.base_dir@,
        config@.default_image == config.default_image@,
        config@.server_url == config.server_url@,
        config@.loom_command == config.loom_command@,
{
}

} // verus!
