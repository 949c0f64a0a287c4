//! The plugin state and the heartbeat decision rule.
//!
//! A heartbeat is recorded by running the tracker CLI with a fixed argument
//! list. One is owed when the focused document was saved, when more than
//! two minutes have passed since the last one, or when the focused document
//! changed; and one is never sent less than a second after the previous
//! one. The state carries the focused file, the time of the last heartbeat
//! and the configuration the argument list draws from.

use vstd::prelude::*;

use crate::config;
use crate::paths;
use crate::strutil;
use crate::title;
use crate::PLUGIN_VERSION;

verus! {

/// No heartbeat is sent when less than this many milliseconds have passed
/// since the previous one.
pub const MIN_SEND_GAP_MS: u64 = 1000;

/// A heartbeat is owed once more than this many milliseconds have passed
/// since the previous one.
pub const ENOUGH_TIME_MS: u64 = 120000;

/// The watcher of the plugin's document tree.
pub struct Plugin {
    pub version: &'static str,
    pub disable_heartbeats: bool,
    pub redownload: bool,
    pub wakatime_config: ini::Ini,
    pub kicad_wakatime_config: ini::Ini,
    pub settings_open: bool,
    /// file name of the currently focused file
    pub filename: String,
    /// path of the currently focused file
    pub full_path: String,
    /// file name to full path, from the last scan of the projects folder
    pub full_paths: Vec<(String, String)>,
    pub projects_folder: String,
    pub api_key: String,
    pub api_url: String,
    /// current time, in milliseconds
    pub time: u64,
    /// the time the last heartbeat was sent, in milliseconds
    pub last_sent_time: u64,
    /// the last file that was sent
    pub last_sent_file: String,
    pub first_iteration_finished: bool,
}

/// A name the full-path map accepts: a schematic or a board file.
pub open spec fn is_kicad_filename(s: Seq<char>) -> bool {
    strutil::spec_ends_with(s, ".kicad_sch"@) || strutil::spec_ends_with(s, ".kicad_pcb"@)
}

/// The language reported for a document name.
pub open spec fn spec_language(filename: Seq<char>) -> Seq<char> {
    if strutil::spec_ends_with(filename, ".kicad_sch"@) {
        "KiCAD Schematic"@
    } else if strutil::spec_ends_with(filename, ".kicad_pcb"@) {
        "KiCAD PCB"@
    } else {
        Seq::empty()
    }
}

/// The full path stored for `name`: the first entry of `entries` keyed by
/// it, if any.
pub open spec fn spec_full_path_lookup(entries: Seq<(String, String)>, name: Seq<char>) -> Option<
    Seq<char>,
>
    decreases entries.len(),
{
    if entries.len() == 0 {
        None
    } else if entries[0].0@ == name {
        Some(entries[0].1@)
    } else {
        spec_full_path_lookup(entries.drop_first(), name)
    }
}

/// What one scan of the projects folder leaves in the full-path map:
/// every KiCAD document among `entries` is added under its file name,
/// except that a name already present empties the map and ends the scan.
pub open spec fn spec_add_entries(
    m: Seq<(String, String)>,
    entries: Seq<(String, String)>,
) -> Seq<(String, String)>
    decreases entries.len(),
{
    if entries.len() == 0 {
        m
    } else {
        let e = entries[0];
        if is_kicad_filename(e.0@) {
            if spec_full_path_lookup(m, e.0@) is Some {
                Seq::empty()
            } else {
                spec_add_entries(m.push(e), entries.drop_first())
            }
        } else {
            spec_add_entries(m, entries.drop_first())
        }
    }
}

/// What a watcher event asks for.
#[derive(Clone, Copy, Debug, PartialEq, Eq, Structural)]
pub enum WatchAction {
    /// The focused file itself was written: a save heartbeat may be owed.
    HeartbeatOnSave,
    /// A new file appeared in a backups folder: compare the two newest
    /// backups.
    CompareBackups,
    /// Nothing of interest.
    Ignore,
}

/// Whether two backup archives hold different bytes.
pub fn backups_differ(newest: &Vec<u8>, second_newest: &Vec<u8>) -> (r: bool)
    ensures
        r == (newest@ != second_newest@),
{
    !strutil::bytes_eq(newest, second_newest)
}

/// Law: no rapid refire. Right after a heartbeat was sent, the clock
/// stands at the send time, so the decision rule changes nothing and
/// issues no command, whatever file and save flag it is asked about.
pub proof fn lemma_no_rapid_refire(
    pre: Plugin,
    post: Plugin,
    filename: Seq<char>,
    is_saved: bool,
    cmd: Option<Seq<Seq<char>>>,
)
    requires
        pre.last_sent_time == pre.time,
        Plugin::maybe_send_rel(pre, post, filename, is_saved, cmd),
    ensures
        post == pre,
        cmd is None,
{
}

/// Law: the send time never moves backwards. Whatever the decision rule
/// does, the last-sent time afterwards is either what it was or the
/// current time, and in a well-formed state it never shrinks.
pub proof fn lemma_last_sent_monotone(
    pre: Plugin,
    post: Plugin,
    filename: Seq<char>,
    is_saved: bool,
    cmd: Option<Seq<Seq<char>>>,
)
    requires
        pre.wf(),
        Plugin::maybe_send_rel(pre, post, filename, is_saved, cmd),
    ensures
        post.last_sent_time == pre.last_sent_time || post.last_sent_time == pre.time,
        post.last_sent_time >= pre.last_sent_time,
{
}

/// Law: a save is never dropped. When heartbeats are enabled, the last
/// one lies at least a second back and the document's path is known, the
/// decision rule for a save always issues a command, stamped now.
pub proof fn lemma_save_sends(
    pre: Plugin,
    post: Plugin,
    filename: Seq<char>,
    cmd: Option<Seq<Seq<char>>>,
)
    requires
        pre.wf(),
        !pre.hb_suppressed(),
        !pre.disable_heartbeats,
        spec_full_path_lookup(pre.full_paths@, filename) is Some,
        Plugin::maybe_send_rel(pre, post, filename, true, cmd),
    ensures
        cmd is Some,
        post.filename@ == filename,
        post.last_sent_time == pre.time,
{
}

/// Law: a focus change sends. When the window title names a KiCAD
/// document other than the focused one, its path is known, heartbeats are
/// enabled and the last one lies at least a second back, one look at the
/// title always issues a command for that document.
pub proof fn lemma_focus_change_sends(
    pre: Plugin,
    post: Plugin,
    t: Seq<char>,
    f: Seq<char>,
    cmd: Option<Seq<Seq<char>>>,
)
    requires
        pre.wf(),
        !pre.hb_suppressed(),
        !pre.disable_heartbeats,
        title::spec_title_filename(t) == Some(f),
        spec_full_path_lookup(pre.full_paths@, f) is Some,
        f != pre.filename@,
        Plugin::title_rel(pre, post, t, cmd),
    ensures
        cmd is Some,
        post.filename@ == f,
        post.last_sent_time == pre.time,
{
}

/// A stored name is always a KiCAD document name.
pub proof fn lemma_lookup_key_is_kicad(entries: Seq<(String, String)>, name: Seq<char>)
    requires
        forall|i: int| 0 <= i < entries.len() ==> is_kicad_filename(#[trigger] entries[i].0@),
        spec_full_path_lookup(entries, name) is Some,
    ensures
        is_kicad_filename(name),
    decreases entries.len(),
{
    if entries.len() > 0 && entries[0].0@ != name {
        assert(forall|i: int|
            0 <= i < entries.drop_first().len() ==> entries.drop_first()[i] == entries[i + 1]);
        lemma_lookup_key_is_kicad(entries.drop_first(), name);
    }
}

/// Law: a heartbeat names one file. A path stored under a document name
/// ends in that very name, so the project (from the path's stem) and the
/// language (from the document name) of a heartbeat always describe the
/// same file.
pub proof fn lemma_lookup_path_matches_key(entries: Seq<(String, String)>, name: Seq<char>)
    requires
        forall|i: int|
            0 <= i < entries.len() ==> paths::spec_file_name(#[trigger] entries[i].1@)
                == entries[i].0@,
        spec_full_path_lookup(entries, name) is Some,
    ensures
        spec_full_path_lookup(entries, name) matches Some(p) ==> paths::spec_file_name(p) == name,
    decreases entries.len(),
{
    if entries.len() > 0 && entries[0].0@ != name {
        assert(forall|i: int|
            0 <= i < entries.drop_first().len() ==> entries.drop_first()[i] == entries[i + 1]);
        lemma_lookup_path_matches_key(entries.drop_first(), name);
    }
}

impl Plugin {
    /// The state is well formed: the clock never stands before the last
    /// heartbeat, the full-path map only holds KiCAD document names, and
    /// each stored path ends in the name it is stored under.
    pub open spec fn wf(self) -> bool {
        &&& self.last_sent_time <= self.time
        &&& forall|i: int|
            0 <= i < self.full_paths@.len() ==> is_kicad_filename(
                #[trigger] self.full_paths@[i].0@,
            )
        &&& forall|i: int|
            0 <= i < self.full_paths@.len() ==> paths::spec_file_name(
                #[trigger] self.full_paths@[i].1@,
            ) == self.full_paths@[i].0@
    }

    /// Less than a second has passed since the last heartbeat.
    pub open spec fn hb_suppressed(self) -> bool {
        self.time - self.last_sent_time < MIN_SEND_GAP_MS
    }

    /// A heartbeat is owed for `filename`: it was just saved, enough time
    /// has passed, or the focused file changed.
    pub open spec fn hb_condition(self, filename: Seq<char>, is_saved: bool) -> bool {
        ||| is_saved
        ||| self.time - self.last_sent_time > ENOUGH_TIME_MS
        ||| self.filename@ != filename
    }

    /// The user agent the CLI reports for this plugin.
    pub open spec fn spec_user_agent(version: Seq<char>) -> Seq<char> {
        "kicad/unknown kicad-wakatime/"@ + version
    }

    /// The value stored under `settings.api_key`, or the empty string.
    pub open spec fn spec_api_key(c: ini::Ini) -> Seq<char> {
        config::spec_ini_value(config::ini_sections(c), "settings"@, "api_key"@)
    }

    /// The value stored under `settings.api_url`, or the empty string.
    pub open spec fn spec_api_url(c: ini::Ini) -> Seq<char> {
        config::spec_ini_value(config::ini_sections(c), "settings"@, "api_url"@)
    }

    /// The value stored under `settings.projects_folder`, or the empty
    /// string.
    pub open spec fn spec_projects_folder(c: ini::Ini) -> Seq<char> {
        config::spec_ini_value(config::ini_sections(c), "settings"@, "projects_folder"@)
    }

    /// The exact CLI argument list of a heartbeat: the focused document,
    /// the user agent, the credentials, the language and the project, and
    /// `--write` for a save.
    pub open spec fn spec_heartbeat_args(
        c: ini::Ini,
        version: Seq<char>,
        full_path: Seq<char>,
        filename: Seq<char>,
        is_saved: bool,
    ) -> Seq<Seq<char>> {
        let base = seq![
            "--entity"@,
            strutil::spec_quoted(full_path),
            "--plugin"@,
            strutil::spec_quoted(Self::spec_user_agent(version)),
            "--key"@,
            strutil::spec_quoted(Self::spec_api_key(c)),
            "--api-url"@,
            strutil::spec_quoted(Self::spec_api_url(c)),
            "--language"@,
            strutil::spec_quoted(spec_language(filename)),
            "--project"@,
            paths::spec_file_stem(paths::spec_file_name(full_path)),
        ];
        if is_saved {
            base.push("--write"@)
        } else {
            base
        }
    }

    /// `post` is `pre` with at most the focused file and the heartbeat
    /// bookkeeping changed.
    pub open spec fn eq_after_send(pre: Plugin, post: Plugin) -> bool {
        post == (Plugin {
            filename: post.filename,
            full_path: post.full_path,
            last_sent_time: post.last_sent_time,
            last_sent_file: post.last_sent_file,
            ..pre
        })
    }

    /// What sending one heartbeat does: the send time moves to now, the
    /// sent file becomes the focused path, and the command to run is the
    /// exact argument list, or nothing when heartbeats are disabled.
    pub open spec fn send_rel(
        pre: Plugin,
        post: Plugin,
        is_saved: bool,
        cmd: Option<Seq<Seq<char>>>,
    ) -> bool {
        &&& (post == (Plugin {
            last_sent_time: post.last_sent_time,
            last_sent_file: post.last_sent_file,
            ..pre
        }))
        &&& post.last_sent_time == pre.time
        &&& if pre.disable_heartbeats {
            cmd is None && post.last_sent_file == pre.last_sent_file
        } else {
            &&& cmd == Some(
                Self::spec_heartbeat_args(
                    pre.wakatime_config,
                    pre.version@,
                    pre.full_path@,
                    pre.filename@,
                    is_saved,
                ),
            )
            &&& post.last_sent_file@ == pre.full_path@
        }
    }

    /// What the heartbeat decision does for `filename`: nothing within a
    /// second of the last heartbeat; nothing when no condition is met; and
    /// otherwise the focused file moves to `filename` and one heartbeat is
    /// sent.
    pub open spec fn maybe_send_rel(
        pre: Plugin,
        post: Plugin,
        filename: Seq<char>,
        is_saved: bool,
        cmd: Option<Seq<Seq<char>>>,
    ) -> bool {
        if pre.hb_suppressed() {
            post == pre && cmd is None
        } else if pre.hb_condition(filename, is_saved) {
            match spec_full_path_lookup(pre.full_paths@, filename) {
                Some(p) => {
                    &&& Self::eq_after_send(pre, post)
                    &&& post.filename@ == filename
                    &&& post.full_path@ == p
                    &&& post.last_sent_time == pre.time
                    &&& if pre.disable_heartbeats {
                        cmd is None && post.last_sent_file == pre.last_sent_file
                    } else {
                        &&& cmd == Some(
                            Self::spec_heartbeat_args(
                                pre.wakatime_config,
                                pre.version@,
                                p,
                                filename,
                                is_saved,
                            ),
                        )
                        &&& post.last_sent_file@ == p
                    }
                },
                None => false,
            }
        } else {
            post == pre && cmd is None
        }
    }

    /// A fresh plugin: empty configuration, no focused file, clock at zero.
    pub fn new(disable_heartbeats: bool, redownload: bool) -> (r: Plugin)
        ensures
            r.version@ == PLUGIN_VERSION@,
            r.disable_heartbeats == disable_heartbeats,
            r.redownload == redownload,
            config::ini_sections(r.wakatime_config) == config::spec_no_sections(),
            config::ini_sections(r.kicad_wakatime_config) == config::spec_no_sections(),
            !r.settings_open,
            r.filename@ == Seq::<char>::empty(),
            r.full_path@ == Seq::<char>::empty(),
            r.full_paths@.len() == 0,
            r.projects_folder@ == Seq::<char>::empty(),
            r.api_key@ == Seq::<char>::empty(),
            r.api_url@ == Seq::<char>::empty(),
            r.time == 0,
            r.last_sent_time == 0,
            r.last_sent_file@ == Seq::<char>::empty(),
            !r.first_iteration_finished,
            r.wf(),
    {
        Plugin {
            version: PLUGIN_VERSION,
            disable_heartbeats,
            redownload,
            wakatime_config: config::ini_empty(),
            kicad_wakatime_config: config::ini_empty(),
            settings_open: false,
            filename: String::new(),
            full_path: String::new(),
            full_paths: Vec::new(),
            projects_folder: String::new(),
            api_key: String::new(),
            api_url: String::new(),
            time: 0,
            last_sent_time: 0,
            last_sent_file: String::new(),
            first_iteration_finished: false,
        }
    }

    /// Read both configurations from their stored text.
    pub fn load_config(&mut self, wakatime_text: &str, kicad_wakatime_text: &str) -> (r: Result<
        (),
        config::ConfigError,
    >)
        ensures
            r is Ok <==> config::ini_parse_ok(wakatime_text@) && config::ini_parse_ok(
                kicad_wakatime_text@,
            ),
            match r {
                Ok(()) => {
                    &&& (*final(self) == (Plugin {
                        wakatime_config: final(self).wakatime_config,
                        kicad_wakatime_config: final(self).kicad_wakatime_config,
                        ..*old(self)
                    }))
                    &&& config::ini_sections(final(self).wakatime_config) == config::ini_doc(
                        wakatime_text@,
                    )
                    &&& config::ini_sections(final(self).kicad_wakatime_config) == config::ini_doc(
                        kicad_wakatime_text@,
                    )
                },
                Err(e) => *final(self) == *old(self) && e == config::ConfigError::Unparsable,
            },
    {
        let wakatime_config = match config::ini_parse(wakatime_text) {
            Ok(c) => c,
            Err(_) => {
                return Err(config::ConfigError::Unparsable);
            },
        };
        let kicad_wakatime_config = match config::ini_parse(kicad_wakatime_text) {
            Ok(c) => c,
            Err(_) => {
                return Err(config::ConfigError::Unparsable);
            },
        };
        self.wakatime_config = wakatime_config;
        self.kicad_wakatime_config = kicad_wakatime_config;
        Ok(())
    }

    /// Serialize both configurations, ready to be stored.
    pub fn store_config(&self) -> (r: (String, String))
        ensures
            r.0@ == config::ini_text(self.wakatime_config),
            r.1@ == config::ini_text(self.kicad_wakatime_config),
    {
        (config::ini_serialize(&self.wakatime_config), config::ini_serialize(
            &self.kicad_wakatime_config,
        ))
    }

    /// Store the API key under `settings.api_key`.
    pub fn set_api_key(&mut self, api_key: String)
        ensures
            (*final(self) == (Plugin {
                wakatime_config: final(self).wakatime_config,
                ..*old(self)
            })),
            config::ini_sections(final(self).wakatime_config) == config::spec_ini_insert(
                config::ini_sections(old(self).wakatime_config),
                "settings"@,
                "api_key"@,
                api_key@,
            ),
    {
        config::ini_set(&mut self.wakatime_config, "settings", "api_key", api_key.as_str());
    }

    /// The API key stored under `settings.api_key`, or the empty string.
    pub fn get_api_key(&self) -> (r: String)
        ensures
            r@ == Self::spec_api_key(self.wakatime_config),
    {
        match config::ini_get(&self.wakatime_config, "settings", "api_key") {
            Some(v) => v,
            None => String::new(),
        }
    }

    /// Store the API URL under `settings.api_url`.
    pub fn set_api_url(&mut self, api_url: String)
        ensures
            (*final(self) == (Plugin {
                wakatime_config: final(self).wakatime_config,
                ..*old(self)
            })),
            config::ini_sections(final(self).wakatime_config) == config::spec_ini_insert(
                config::ini_sections(old(self).wakatime_config),
                "settings"@,
                "api_url"@,
                api_url@,
            ),
    {
        config::ini_set(&mut self.wakatime_config, "settings", "api_url", api_url.as_str());
    }

    /// The API URL stored under `settings.api_url`, or the empty string.
    pub fn get_api_url(&self) -> (r: String)
        ensures
            r@ == Self::spec_api_url(self.wakatime_config),
    {
        match config::ini_get(&self.wakatime_config, "settings", "api_url") {
            Some(v) => v,
            None => String::new(),
        }
    }

    /// Store the projects folder under `settings.projects_folder`.
    pub fn set_projects_folder(&mut self, projects_folder: String)
        ensures
            (*final(self) == (Plugin {
                kicad_wakatime_config: final(self).kicad_wakatime_config,
                ..*old(self)
            })),
            config::ini_sections(final(self).kicad_wakatime_config) == config::spec_ini_insert(
                config::ini_sections(old(self).kicad_wakatime_config),
                "settings"@,
                "projects_folder"@,
                projects_folder@,
            ),
    {
        config::ini_set(
            &mut self.kicad_wakatime_config,
            "settings",
            "projects_folder",
            projects_folder.as_str(),
        );
    }

    /// The projects folder stored under `settings.projects_folder`, or the
    /// empty string.
    pub fn get_projects_folder(&self) -> (r: String)
        ensures
            r@ == Self::spec_projects_folder(self.kicad_wakatime_config),
    {
        match config::ini_get(&self.kicad_wakatime_config, "settings", "projects_folder") {
            Some(v) => v,
            None => String::new(),
        }
    }

    /// The language of the focused document.
    pub fn language(&self) -> (r: String)
        requires
            is_kicad_filename(self.filename@),
        ensures
            r@ == spec_language(self.filename@),
    {
        if strutil::ends_with(self.filename.as_str(), ".kicad_sch") {
            String::from_str("KiCAD Schematic")
        } else {
            String::from_str("KiCAD PCB")
        }
    }

    /// The full path stored for `filename`, if the last scan found it.
    pub fn get_full_path(&self, filename: String) -> (r: Option<String>)
        ensures
            match r {
                None => spec_full_path_lookup(self.full_paths@, filename@) is None,
                Some(p) => spec_full_path_lookup(self.full_paths@, filename@) == Some(p@),
            },
    {
        let n = self.full_paths.len();
        let mut i: usize = 0;
        proof {
            assert(self.full_paths@.subrange(0, n as int) =~= self.full_paths@);
        }
        while i < n
            invariant
                i <= n,
                n == self.full_paths@.len(),
                spec_full_path_lookup(self.full_paths@, filename@) == spec_full_path_lookup(
                    self.full_paths@.subrange(i as int, n as int),
                    filename@,
                ),
            decreases n - i,
        {
            if strutil::str_eq_str(self.full_paths[i].0.as_str(), filename.as_str()) {
                proof {
                    assert(self.full_paths@.subrange(i as int, n as int)[0]
                        == self.full_paths@[i as int]);
                }
                return Some(self.full_paths[i].1.clone());
            }
            proof {
                assert(self.full_paths@.subrange(i as int, n as int).drop_first()
                    =~= self.full_paths@.subrange(i as int + 1, n as int));
                assert(self.full_paths@.subrange(i as int, n as int)[0]
                    == self.full_paths@[i as int]);
            }
            i = i + 1;
        }
        proof {
            assert(self.full_paths@.subrange(n as int, n as int).len() == 0);
        }
        None
    }

    /// Record the current time, in milliseconds.
    pub fn set_current_time(&mut self, t: u64)
        requires
            old(self).last_sent_time <= t,
        ensures
            (*final(self) == (Plugin { time: t, ..*old(self) })),
            old(self).wf() ==> final(self).wf(),
    {
        self.time = t;
    }

    /// The milliseconds passed since the last heartbeat.
    pub fn time_passed(&self) -> (r: u64)
        requires
            self.last_sent_time <= self.time,
        ensures
            r == self.time - self.last_sent_time,
    {
        self.time - self.last_sent_time
    }

    /// More than two minutes have passed since the last heartbeat.
    pub fn enough_time_passed(&self) -> (r: bool)
        requires
            self.last_sent_time <= self.time,
        ensures
            r == (self.time - self.last_sent_time > ENOUGH_TIME_MS),
    {
        self.time_passed() > ENOUGH_TIME_MS
    }

    /// Send one heartbeat for the focused document: move the send time to
    /// now and hand back the CLI argument list to run, or nothing when
    /// heartbeats are disabled.
    pub fn send_heartbeat(&mut self, is_file_saved: bool) -> (r: Option<Vec<String>>)
        requires
            old(self).wf(),
            !old(self).disable_heartbeats ==> is_kicad_filename(old(self).filename@),
        ensures
            final(self).wf(),
            Self::send_rel(*old(self), *final(self), is_file_saved, r.deep_view()),
    {
        if self.disable_heartbeats {
            self.last_sent_time = self.time;
            return None;
        }
        let quoted_full_path = strutil::quoted(self.full_path.as_str());
        let user_agent = strutil::concat2("kicad/unknown kicad-wakatime/", self.version);
        let quoted_user_agent = strutil::quoted(user_agent.as_str());
        let api_key = self.get_api_key();
        let quoted_api_key = strutil::quoted(api_key.as_str());
        let api_url = self.get_api_url();
        let quoted_api_url = strutil::quoted(api_url.as_str());
        let language = self.language();
        let quoted_language = strutil::quoted(language.as_str());
        let file_name = paths::file_name_of(self.full_path.as_str());
        let file_stem = paths::file_stem_of(file_name.as_str());
        let mut args: Vec<String> = Vec::new();
        args.push(String::from_str("--entity"));
        args.push(quoted_full_path);
        args.push(String::from_str("--plugin"));
        args.push(quoted_user_agent);
        args.push(String::from_str("--key"));
        args.push(quoted_api_key);
        args.push(String::from_str("--api-url"));
        args.push(quoted_api_url);
        args.push(String::from_str("--language"));
        args.push(quoted_language);
        args.push(String::from_str("--project"));
        args.push(file_stem);
        if is_file_saved {
            args.push(String::from_str("--write"));
        }
        let full_path = self.full_path.clone();
        self.last_sent_time = self.time;
        self.last_sent_file = full_path;
        proof {
            assert(args.deep_view() =~~= Self::spec_heartbeat_args(
                old(self).wakatime_config,
                old(self).version@,
                old(self).full_path@,
                old(self).filename@,
                is_file_saved,
            ));
        }
        Some(args)
    }

    /// Decide whether a heartbeat is owed for `filename` and send it if
    /// so; hand back the CLI argument list to run, if any.
    pub fn maybe_send_heartbeat(&mut self, filename: String, is_file_saved: bool) -> (r: Option<
        Vec<String>,
    >)
        requires
            old(self).wf(),
            !old(self).hb_suppressed() && old(self).hb_condition(filename@, is_file_saved)
                ==> spec_full_path_lookup(old(self).full_paths@, filename@) is Some,
        ensures
            final(self).wf(),
            Self::maybe_send_rel(*old(self), *final(self), filename@, is_file_saved, r.deep_view()),
    {
        if self.time_passed() < MIN_SEND_GAP_MS {
            return None;
        }
        let changed = !strutil::str_eq_str(self.filename.as_str(), filename.as_str());
        if is_file_saved || self.enough_time_passed() || changed {
            let p = self.get_full_path(filename.clone()).unwrap();
            proof {
                lemma_lookup_key_is_kicad(self.full_paths@, filename@);
            }
            self.filename = filename;
            self.full_path = p;
            self.send_heartbeat(is_file_saved)
        } else {
            None
        }
    }

    /// Take note of the focused file: when it changed, a heartbeat may be
    /// owed.
    pub fn set_current_file(&mut self, filename: String) -> (r: Option<Vec<String>>)
        requires
            old(self).wf(),
            old(self).filename@ != filename@ && !old(self).hb_suppressed()
                ==> spec_full_path_lookup(old(self).full_paths@, filename@) is Some,
        ensures
            final(self).wf(),
            old(self).filename@ == filename@ ==> *final(self) == *old(self) && r is None,
            old(self).filename@ != filename@ ==> Self::maybe_send_rel(
                *old(self),
                *final(self),
                filename@,
                false,
                r.deep_view(),
            ),
    {
        if !strutil::str_eq_str(self.filename.as_str(), filename.as_str()) {
            self.maybe_send_heartbeat(filename, false)
        } else {
            None
        }
    }

    /// Add what a scan of the projects folder found, as pairs of file name
    /// and full path; a duplicate document name empties the map. A scan
    /// hands in each file under its own name: the name at the end of the
    /// path.
    pub fn add_full_paths(&mut self, entries: &Vec<(String, String)>)
        requires
            old(self).wf(),
            forall|i: int|
                0 <= i < entries@.len() ==> is_kicad_filename(#[trigger] entries@[i].0@)
                    ==> paths::spec_file_name(entries@[i].1@) == entries@[i].0@,
        ensures
            final(self).wf(),
            (*final(self) == (Plugin { full_paths: final(self).full_paths, ..*old(self) })),
            final(self).full_paths@ == spec_add_entries(old(self).full_paths@, entries@),
    {
        let n = entries.len();
        let mut idx: usize = 0;
        proof {
            assert(entries@.subrange(0, n as int) =~= entries@);
        }
        while idx < n
            invariant
                idx <= n,
                n == entries@.len(),
                forall|i: int|
                    0 <= i < n ==> is_kicad_filename(#[trigger] entries@[i].0@)
                        ==> paths::spec_file_name(entries@[i].1@) == entries@[i].0@,
                self.wf(),
                (*self == (Plugin { full_paths: self.full_paths, ..*old(self) })),
                spec_add_entries(old(self).full_paths@, entries@) == spec_add_entries(
                    self.full_paths@,
                    entries@.subrange(idx as int, n as int),
                ),
            decreases n - idx,
        {
            let ghost cur = self.full_paths@;
            let ghost sub = entries@.subrange(idx as int, n as int);
            proof {
                assert(sub[0] == entries@[idx as int]);
                assert(sub.drop_first() =~= entries@.subrange(idx as int + 1, n as int));
            }
            let is_doc = strutil::ends_with(entries[idx].0.as_str(), ".kicad_sch")
                || strutil::ends_with(entries[idx].0.as_str(), ".kicad_pcb");
            if is_doc {
                if self.get_full_path(entries[idx].0.clone()).is_some() {
                    self.full_paths = Vec::new();
                    proof {
                        assert(spec_add_entries(cur, sub) =~= Seq::empty());
                        assert(self.full_paths@ =~= Seq::empty());
                    }
                    return ;
                }
                let pair = (entries[idx].0.clone(), entries[idx].1.clone());
                self.full_paths.push(pair);
                proof {
                    assert(self.full_paths@ =~= cur.push(entries@[idx as int]));
                }
            }
            idx = idx + 1;
        }
        proof {
            assert(entries@.subrange(n as int, n as int).len() == 0);
        }
    }

    /// Classify a watcher event on `path`: the focused file was saved, a
    /// backup was created, or neither.
    pub fn watch_event_action(&self, path: &str, is_create: bool) -> (r: WatchAction)
        ensures
            r == Self::spec_watch_event_action(*self, path@, is_create),
    {
        if strutil::str_eq_str(path, self.full_path.as_str()) {
            WatchAction::HeartbeatOnSave
        } else {
            let parent = paths::parent_dir_of(path);
            if strutil::ends_with(parent.as_str(), "-backups") && is_create {
                WatchAction::CompareBackups
            } else {
                WatchAction::Ignore
            }
        }
    }

    /// What `watch_event_action` answers.
    pub open spec fn spec_watch_event_action(
        s: Plugin,
        path: Seq<char>,
        is_create: bool,
    ) -> WatchAction {
        if path == s.full_path@ {
            WatchAction::HeartbeatOnSave
        } else if strutil::spec_ends_with(paths::spec_parent_dir(path), "-backups"@) && is_create {
            WatchAction::CompareBackups
        } else {
            WatchAction::Ignore
        }
    }

    /// Compare the two newest backups of the focused file; when they
    /// differ, an edit happened and a heartbeat may be owed.
    pub fn look_at_backups(&mut self, newest: &Vec<u8>, second_newest: &Vec<u8>) -> (r: Option<
        Vec<String>,
    >)
        requires
            old(self).wf(),
            newest@ != second_newest@ && !old(self).hb_suppressed() && old(self).hb_condition(
                old(self).filename@,
                false,
            ) ==> spec_full_path_lookup(old(self).full_paths@, old(self).filename@) is Some,
        ensures
            final(self).wf(),
            newest@ == second_newest@ ==> *final(self) == *old(self) && r is None,
            newest@ != second_newest@ ==> Self::maybe_send_rel(
                *old(self),
                *final(self),
                old(self).filename@,
                false,
                r.deep_view(),
            ),
    {
        if backups_differ(newest, second_newest) {
            let filename = self.filename.clone();
            self.maybe_send_heartbeat(filename, false)
        } else {
            None
        }
    }

    /// `post` is `pre` with at most the first-iteration mark changed.
    pub open spec fn eq_but_first_iter(pre: Plugin, post: Plugin) -> bool {
        post == (Plugin { first_iteration_finished: post.first_iteration_finished, ..pre })
    }

    /// What one look at the active window title does: when the title
    /// names a KiCAD document whose path the scan knows, the focused file
    /// moves there and a heartbeat may be sent; in every case the first
    /// iteration is marked finished.
    pub open spec fn title_rel(
        pre: Plugin,
        post: Plugin,
        t: Seq<char>,
        cmd: Option<Seq<Seq<char>>>,
    ) -> bool {
        &&& post.first_iteration_finished
        &&& match title::spec_title_filename(t) {
            None => Self::eq_but_first_iter(pre, post) && cmd is None,
            Some(f) => match spec_full_path_lookup(pre.full_paths@, f) {
                None => Self::eq_but_first_iter(pre, post) && cmd is None,
                Some(p) => {
                    if pre.filename@ == f || pre.hb_suppressed() {
                        Self::eq_but_first_iter(pre, post) && cmd is None
                    } else {
                        &&& (post == (Plugin {
                            filename: post.filename,
                            full_path: post.full_path,
                            last_sent_time: post.last_sent_time,
                            last_sent_file: post.last_sent_file,
                            first_iteration_finished: true,
                            ..pre
                        }))
                        &&& post.filename@ == f
                        &&& post.full_path@ == p
                        &&& post.last_sent_time == pre.time
                        &&& if pre.disable_heartbeats {
                            cmd is None && post.last_sent_file == pre.last_sent_file
                        } else {
                            &&& cmd == Some(
                                Self::spec_heartbeat_args(
                                    pre.wakatime_config,
                                    pre.version@,
                                    p,
                                    f,
                                    false,
                                ),
                            )
                            &&& post.last_sent_file@ == p
                        }
                    }
                },
            },
        }
    }

    /// One look at the active window title: parse it, find the document's
    /// full path, and let the focused-file rule decide. Marks the first
    /// iteration finished.
    pub fn process_title(&mut self, window_title: &str) -> (r: Option<Vec<String>>)
        requires
            old(self).wf(),
        ensures
            final(self).wf(),
            Self::title_rel(*old(self), *final(self), window_title@, r.deep_view()),
    {
        let r = match title::title_filename(window_title) {
            None => None,
            Some(f) => {
                match self.get_full_path(f.clone()) {
                    None => None,
                    Some(_p) => self.set_current_file(f),
                }
            },
        };
        self.first_iteration_finished = true;
        r
    }

    /// The stem of the tracker CLI release name for an operating system
    /// and architecture pair.
    pub open spec fn spec_cli_name(os: Seq<char>, arch: Seq<char>) -> Seq<char> {
        "wakatime-cli-"@ + os + "-"@ + arch
    }

    /// The executable name of the tracker CLI: the release stem, with
    /// `.exe` appended on Windows.
    pub open spec fn spec_cli_exe_name(os: Seq<char>, arch: Seq<char>) -> Seq<char> {
        if os == "windows"@ {
            Self::spec_cli_name(os, arch) + ".exe"@
        } else {
            Self::spec_cli_name(os, arch)
        }
    }

    /// The file stem of the tracker CLI for the given OS and architecture.
    pub fn cli_name(&self, consts: (&str, &str)) -> (r: String)
        ensures
            r@ == Self::spec_cli_name(consts.0@, consts.1@),
    {
        let mut s = String::from_str("wakatime-cli-");
        s.append(consts.0);
        s.append("-");
        s.append(consts.1);
        s
    }

    /// The file name of the tracker CLI release archive.
    pub fn cli_zip_name(&self, consts: (&str, &str)) -> (r: String)
        ensures
            r@ == Self::spec_cli_name(consts.0@, consts.1@) + ".zip"@,
    {
        let name = self.cli_name(consts);
        strutil::concat2(name.as_str(), ".zip")
    }

    /// The file name of the tracker CLI executable.
    pub fn cli_exe_name(&self, consts: (&str, &str)) -> (r: String)
        ensures
            r@ == Self::spec_cli_exe_name(consts.0@, consts.1@),
    {
        let name = self.cli_name(consts);
        if strutil::str_eq_str(consts.0, "windows") {
            strutil::concat2(name.as_str(), ".exe")
        } else {
            name
        }
    }

    /// The path of the configuration file, under the home directory.
    pub fn wakatime_cfg_path(&self, home_dir: &str) -> (r: String)
        ensures
            r@ == home_dir@ + "/.wakatime.cfg"@,
    {
        strutil::concat2(home_dir, "/.wakatime.cfg")
    }

    /// The path of the plugin's own configuration file, under the home
    /// directory.
    pub fn kicad_wakatime_cfg_path(&self, home_dir: &str) -> (r: String)
        ensures
            r@ == home_dir@ + "/.kicad-wakatime.cfg"@,
    {
        strutil::concat2(home_dir, "/.kicad-wakatime.cfg")
    }

    /// The path of the tracker's folder, under the home directory.
    pub fn wakatime_folder_path(&self, home_dir: &str) -> (r: String)
        ensures
            r@ == home_dir@ + "/.wakatime"@,
    {
        strutil::concat2(home_dir, "/.wakatime")
    }

    /// The path of the tracker CLI executable.
    pub fn cli_path(&self, consts: (&str, &str), home_dir: &str) -> (r: String)
        ensures
            r@ == paths::spec_path_join(
                home_dir@ + "/.wakatime"@,
                Self::spec_cli_exe_name(consts.0@, consts.1@),
            ),
    {
        let folder = self.wakatime_folder_path(home_dir);
        let exe = self.cli_exe_name(consts);
        paths::path_join(folder.as_str(), exe.as_str())
    }

    /// The path the tracker CLI release archive is downloaded to.
    pub fn cli_zip_path(&self, consts: (&str, &str), home_dir: &str) -> (r: String)
        ensures
            r@ == paths::spec_path_join(
                home_dir@ + "/.wakatime"@,
                Self::spec_cli_name(consts.0@, consts.1@) + ".zip"@,
            ),
    {
        let folder = self.wakatime_folder_path(home_dir);
        let zip = self.cli_zip_name(consts);
        paths::path_join(folder.as_str(), zip.as_str())
    }

    /// Whether the tracker CLI must be downloaded: it is missing, or a
    /// fresh download was asked for.
    pub fn should_download_cli(&self, cli_exists: bool) -> (r: bool)
        ensures
            r == (!cli_exists || self.redownload),
    {
        !cli_exists || self.redownload
    }

    /// Whether a published release name differs from this plugin's
    /// version, so that an update is available.
    pub fn update_available(&self, latest_release_name: &str) -> (r: bool)
        ensures
            r == (latest_release_name@ != self.version@),
    {
        !strutil::str_eq_str(latest_release_name, self.version)
    }

    /// The status line shown to the user.
    pub open spec fn spec_status_text(s: Plugin) -> Seq<char> {
        if !s.first_iteration_finished {
            "loading..."@
        } else if Self::spec_projects_folder(s.kicad_wakatime_config) == Seq::<char>::empty()
            || Self::spec_api_key(s.wakatime_config) == Seq::<char>::empty()
            || Self::spec_api_url(s.wakatime_config) == Seq::<char>::empty() {
            "need settings!"@
        } else {
            "OK"@
        }
    }

    /// The status line: still loading, waiting for settings, or ready.
    pub fn status_text(&self) -> (r: String)
        ensures
            r@ == Self::spec_status_text(*self),
    {
        if !self.first_iteration_finished {
            return String::from_str("loading...");
        }
        let projects_folder = self.get_projects_folder();
        let api_key = self.get_api_key();
        let api_url = self.get_api_url();
        if projects_folder.as_str().unicode_len() == 0 || api_key.as_str().unicode_len() == 0
            || api_url.as_str().unicode_len() == 0 {
            proof {
                if Self::spec_projects_folder(self.kicad_wakatime_config).len() == 0 {
                    assert(Self::spec_projects_folder(self.kicad_wakatime_config)
                        =~= Seq::<char>::empty());
                }
                if Self::spec_api_key(self.wakatime_config).len() == 0 {
                    assert(Self::spec_api_key(self.wakatime_config) =~= Seq::<char>::empty());
                }
                if Self::spec_api_url(self.wakatime_config).len() == 0 {
                    assert(Self::spec_api_url(self.wakatime_config) =~= Seq::<char>::empty());
                }
            }
            String::from_str("need settings!")
        } else {
            proof {
                assert(Self::spec_projects_folder(self.kicad_wakatime_config).len() != 0);
                assert(Self::spec_api_key(self.wakatime_config).len() != 0);
                assert(Self::spec_api_url(self.wakatime_config).len() != 0);
            }
            String::from_str("OK")
        }
    }
}

} // verus!
