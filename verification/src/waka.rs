//! An earlier, superseded shape of the plugin, fed by the KiCAD IPC
//! client instead of window titles: the focused document comes from the
//! open board's specifier, and edits are noticed by comparing snapshots
//! of the board's items. It decides when to send, under the same timing
//! rule as `crate::plugin`; the full argument construction lives only
//! there.

use vstd::prelude::*;

use crate::config;
use crate::paths;
use crate::plugin::{ENOUGH_TIME_MS, MIN_SEND_GAP_MS};
use crate::strutil;

verus! {

/// What can go wrong before the plugin runs.
#[derive(Clone, Copy, Debug, PartialEq, Eq, Structural)]
pub enum PluginError {
    CliNotFound,
}

impl PluginError {
    /// A human-readable description of the failure.
    pub fn message(&self) -> (r: String)
        ensures
            r@ == "Could not find WakaTime CLI!"@,
    {
        String::from_str("Could not find WakaTime CLI!")
    }
}

/// A snapshot of the open board, as pairs of an object-type code and the
/// serialized items of that type.
pub open spec fn snapshot_view(v: Vec<(u32, Vec<u8>)>) -> Seq<(u32, Seq<u8>)> {
    Seq::new(v@.len(), |i: int| (v@[i].0, v@[i].1@))
}

/// Whether two board snapshots hold the same items.
pub fn snapshot_eq(a: &Vec<(u32, Vec<u8>)>, b: &Vec<(u32, Vec<u8>)>) -> (r: bool)
    ensures
        r == (snapshot_view(*a) == snapshot_view(*b)),
{
    if a.len() != b.len() {
        proof {
            assert(snapshot_view(*a).len() != snapshot_view(*b).len());
        }
        return false;
    }
    let n = a.len();
    let mut i: usize = 0;
    while i < n
        invariant
            i <= n,
            n == a@.len(),
            n == b@.len(),
            forall|j: int|
                0 <= j < i ==> #[trigger] snapshot_view(*a)[j] == snapshot_view(*b)[j],
        decreases n - i,
    {
        let pa = &a[i];
        let pb = &b[i];
        if pa.0 != pb.0 {
            proof {
                assert(snapshot_view(*a)[i as int].0 != snapshot_view(*b)[i as int].0);
            }
            return false;
        }
        if !strutil::bytes_eq(&pa.1, &pb.1) {
            proof {
                assert(snapshot_view(*a)[i as int].1 != snapshot_view(*b)[i as int].1);
            }
            return false;
        }
        proof {
            assert(snapshot_view(*a)[i as int] == snapshot_view(*b)[i as int]);
        }
        i = i + 1;
    }
    proof {
        assert(snapshot_view(*a) =~= snapshot_view(*b));
    }
    true
}

/// The plugin state of the IPC-fed shape.
pub struct WakaKicad {
    /// file name of the currently focused file
    pub filename: String,
    /// path of the currently focused file
    pub path: String,
    /// the last snapshot of the open board's items
    pub items: Vec<(u32, Vec<u8>)>,
    /// current time, in milliseconds
    pub time: u64,
    /// the time the last heartbeat was sent, in milliseconds
    pub last_sent_time: u64,
    /// the last file that was sent
    pub last_sent_file: String,
    pub first_iteration_finished: bool,
}

impl Default for WakaKicad {
    /// A fresh plugin: no focused file, no snapshot, clock at zero.
    fn default() -> (r: WakaKicad)
        ensures
            r.filename@ == Seq::<char>::empty(),
            r.path@ == Seq::<char>::empty(),
            r.items@.len() == 0,
            r.time == 0,
            r.last_sent_time == 0,
            r.last_sent_file@ == Seq::<char>::empty(),
            !r.first_iteration_finished,
            r.wf(),
    {
        WakaKicad {
            filename: String::new(),
            path: String::new(),
            items: Vec::new(),
            time: 0,
            last_sent_time: 0,
            last_sent_file: String::new(),
            first_iteration_finished: false,
        }
    }
}

impl WakaKicad {
    /// The clock never stands before the last heartbeat.
    pub open spec fn wf(self) -> bool {
        self.last_sent_time <= self.time
    }

    /// A heartbeat is owed for `filename`.
    pub open spec fn hb_condition(self, filename: Seq<char>, is_saved: bool) -> bool {
        ||| is_saved
        ||| self.time - self.last_sent_time > ENOUGH_TIME_MS
        ||| self.filename@ != filename
    }

    /// Less than a second has passed since the last heartbeat.
    pub open spec fn hb_suppressed(self) -> bool {
        self.time - self.last_sent_time < MIN_SEND_GAP_MS
    }

    /// What the heartbeat decision does: nothing before the first
    /// iteration has finished, nothing within a second of the last
    /// heartbeat, nothing when no condition is met, and otherwise the
    /// focused file moves to `filename` and the send time moves to now.
    pub open spec fn maybe_send_rel(
        pre: WakaKicad,
        post: WakaKicad,
        filename: Seq<char>,
        is_saved: bool,
    ) -> bool {
        if !pre.first_iteration_finished || pre.hb_suppressed() {
            post == pre
        } else if pre.hb_condition(filename, is_saved) {
            &&& (post == (WakaKicad {
                filename: post.filename,
                last_sent_time: post.last_sent_time,
                ..pre
            }))
            &&& post.filename@ == filename
            &&& post.last_sent_time == pre.time
        } else {
            post == pre
        }
    }

    /// Report whether the tracker CLI is installed, from whether its file
    /// exists.
    pub fn check_cli_installed(&self, cli_exists: bool) -> (r: Result<(), PluginError>)
        ensures
            r is Ok <==> cli_exists,
            !cli_exists ==> r == Err::<(), PluginError>(PluginError::CliNotFound),
    {
        if cli_exists {
            Ok(())
        } else {
            Err(PluginError::CliNotFound)
        }
    }

    /// Read the API key out of the tracker's configuration text.
    pub fn get_api_key(&mut self, cfg_text: &str) -> (r: Option<String>)
        ensures
            *final(self) == *old(self),
            r is Some <==> config::ini_parse_ok(cfg_text@) && config::ini_doc(
                cfg_text@,
            ).contains_key("settings"@) && config::ini_doc(cfg_text@)["settings"@].contains_key(
                "api_key"@,
            ),
            r matches Some(v) ==> v@ == config::ini_doc(cfg_text@)["settings"@]["api_key"@],
    {
        match config::ini_parse(cfg_text) {
            Ok(c) => config::ini_get(&c, "settings", "api_key"),
            Err(_) => None,
        }
    }

    /// What taking note of an open document's specifier does: when the
    /// focused file changes, the path to watch is handed back, and either
    /// the first focused file is recorded or the heartbeat rule runs.
    pub open spec fn set_file_rel(
        pre: WakaKicad,
        post: WakaKicad,
        board_filename: Seq<char>,
        project_path: Seq<char>,
        watch: Option<Seq<char>>,
    ) -> bool {
        if pre.filename@ == board_filename {
            post == pre && watch is None
        } else {
            &&& watch == Some(paths::spec_path_join(project_path, board_filename))
            &&& if pre.filename@ == Seq::<char>::empty() {
                (post == (WakaKicad { filename: post.filename, ..pre })) && post.filename@
                    == board_filename
            } else {
                Self::maybe_send_rel(pre, post, board_filename, false)
            }
        }
    }

    /// Take note of the document the open board names: when it changed, a
    /// heartbeat may be owed, and the document's path should be watched.
    /// Hands back that path, if any.
    pub fn set_current_file_from_document_specifier(
        &mut self,
        board_filename: String,
        project_path: String,
    ) -> (r: Option<String>)
        requires
            old(self).wf(),
        ensures
            final(self).wf(),
            Self::set_file_rel(
                *old(self),
                *final(self),
                board_filename@,
                project_path@,
                r.deep_view(),
            ),
    {
        let path = paths::path_join(project_path.as_str(), board_filename.as_str());
        if !strutil::str_eq_str(self.filename.as_str(), board_filename.as_str()) {
            if self.filename.as_str().unicode_len() != 0 {
                self.maybe_send_heartbeat(board_filename, false);
            } else {
                proof {
                    assert(self.filename@ =~= Seq::<char>::empty());
                }
                self.filename = board_filename;
            }
            Some(path)
        } else {
            None
        }
    }

    /// Record the current time, in milliseconds.
    pub fn set_current_time(&mut self, t: u64)
        requires
            old(self).last_sent_time <= t,
        ensures
            (*final(self) == (WakaKicad { time: t, ..*old(self) })),
            old(self).wf() ==> final(self).wf(),
    {
        self.time = t;
    }

    /// The milliseconds passed since the last heartbeat.
    pub fn time_passed(&self) -> (r: u64)
        requires
            self.last_sent_time <= self.time,
        ensures
            r == self.time - self.last_sent_time,
    {
        self.time - self.last_sent_time
    }

    /// More than two minutes have passed since the last heartbeat.
    pub fn enough_time_passed(&self) -> (r: bool)
        requires
            self.last_sent_time <= self.time,
        ensures
            r == (self.time - self.last_sent_time > ENOUGH_TIME_MS),
    {
        self.time_passed() > ENOUGH_TIME_MS
    }

    /// What replacing the board snapshot does: an unchanged snapshot does
    /// nothing; a changed one is stored, and the heartbeat rule runs for
    /// the focused file.
    pub open spec fn set_many_rel(
        pre: WakaKicad,
        post: WakaKicad,
        items_new: Vec<(u32, Vec<u8>)>,
    ) -> bool {
        if snapshot_view(pre.items) == snapshot_view(items_new) {
            post == pre
        } else {
            &&& post.items == items_new
            &&& if !pre.first_iteration_finished {
                post == (WakaKicad { items: post.items, ..pre })
            } else if pre.time - pre.last_sent_time > ENOUGH_TIME_MS {
                &&& (post == (WakaKicad {
                    items: post.items,
                    filename: post.filename,
                    last_sent_time: post.last_sent_time,
                    ..pre
                }))
                &&& post.filename@ == pre.filename@
                &&& post.last_sent_time == pre.time
            } else {
                post == (WakaKicad { items: post.items, ..pre })
            }
        }
    }

    /// Store a fresh snapshot of the board's items; when it differs from
    /// the last one, the board was edited and a heartbeat may be owed.
    pub fn set_many_items(&mut self, items_new: Vec<(u32, Vec<u8>)>)
        requires
            old(self).wf(),
        ensures
            final(self).wf(),
            Self::set_many_rel(*old(self), *final(self), items_new),
    {
        if !snapshot_eq(&self.items, &items_new) {
            self.items = items_new;
            let filename = self.filename.clone();
            self.maybe_send_heartbeat(filename, false);
        }
    }

    /// Decide whether a heartbeat is owed for `filename` and send it if
    /// so. Heartbeats are ignored until the first iteration has finished,
    /// and never sent less than a second after the previous one.
    pub fn maybe_send_heartbeat(&mut self, filename: String, is_file_saved: bool)
        requires
            old(self).wf(),
        ensures
            final(self).wf(),
            Self::maybe_send_rel(*old(self), *final(self), filename@, is_file_saved),
    {
        if !self.first_iteration_finished {
            return ;
        }
        if self.time_passed() < MIN_SEND_GAP_MS {
            return ;
        }
        let changed = !strutil::str_eq_str(self.filename.as_str(), filename.as_str());
        if is_file_saved || self.enough_time_passed() || changed {
            self.filename = filename;
            self.send_heartbeat(is_file_saved);
        }
    }

    /// Send one heartbeat: move the send time to now. This shape builds
    /// no command of its own — the argument construction stands in
    /// `crate::plugin` — and the save flag plays no part yet.
    #[allow(unused_variables)]
    pub fn send_heartbeat(&mut self, is_file_saved: bool)
        requires
            old(self).wf(),
        ensures
            final(self).wf(),
            (*final(self) == (WakaKicad { last_sent_time: final(self).last_sent_time, ..*old(
                self,
            ) })),
            final(self).last_sent_time == old(self).time,
    {
        self.last_sent_time = self.time;
    }

    /// The path of the tracker's configuration file, under the home
    /// directory.
    pub fn cfg_path(&self, home_dir: &str) -> (r: String)
        ensures
            r@ == home_dir@ + "/.wakatime.cfg"@,
    {
        strutil::concat2(home_dir, "/.wakatime.cfg")
    }

    /// The path of the tracker CLI executable for the given OS and
    /// architecture, under the home directory.
    pub fn cli_path(&self, consts: (&str, &str), home_dir: &str) -> (r: String)
        ensures
            r@ == home_dir@ + "/.wakatime"@ + "/"@ + (if consts.0@ == "windows"@ {
                "wakatime-cli-windows-"@ + consts.1@ + ".exe"@
            } else {
                "wakatime-cli-"@ + consts.0@ + "-"@ + consts.1@
            }),
    {
        let cli_name: String = if strutil::str_eq_str(consts.0, "windows") {
            strutil::concat3("wakatime-cli-windows-", consts.1, ".exe")
        } else {
            let mut s = String::from_str("wakatime-cli-");
            s.append(consts.0);
            s.append("-");
            s.append(consts.1);
            s
        };
        let folder = strutil::concat2(home_dir, "/.wakatime");
        paths::path_join(folder.as_str(), cli_name.as_str())
    }
}

} // verus!
