//! What the deployment configures: where the server executable lives, the
//! arguments every instance gets, the arguments of each instance, and how
//! many instances may run at once.

use crate::map_id::{id_at, MapId, MAP_COUNT};
use vstd::prelude::*;

verus! {

/// How many instances may run at once where the configuration does not say.
/// The number is inclusive: this many instances run side by side, and one
/// more is refused.
pub const DEFAULT_MAX_RUNNING: usize = 2;

/// The texts of a list of strings.
pub open spec fn texts(strings: Seq<String>) -> Seq<Seq<char>> {
    strings.map_values(|s: String| s@)
}

/// Launch arguments of one instance.
pub struct MapSettings {
    /// The option string, which becomes the first argument.
    pub cmd_opts: String,
    /// Further arguments of this instance, in order.
    pub cmd_args: Vec<String>,
}

/// A `MapSettings` as plain values.
pub struct MapSettingsView {
    pub cmd_opts: Seq<char>,
    pub cmd_args: Seq<Seq<char>>,
}

impl View for MapSettings {
    type V = MapSettingsView;

    open spec fn view(&self) -> MapSettingsView {
        MapSettingsView { cmd_opts: self.cmd_opts@, cmd_args: texts(self.cmd_args@) }
    }
}

/// The deployment's configuration.
pub struct Settings {
    working_dir: String,
    executable_name: String,
    common_cmd_args: Vec<String>,
    max_running: usize,
    maps: Vec<Option<MapSettings>>,
}

/// A `Settings` as plain values.
pub struct SettingsView {
    pub working_dir: Seq<char>,
    pub executable_name: Seq<char>,
    pub common_cmd_args: Seq<Seq<char>>,
    pub max_running: nat,
    pub maps: Map<MapId, MapSettingsView>,
}

impl SettingsView {
    /// Every instance of the fixed set has its arguments.
    pub open spec fn complete(self) -> bool {
        forall|id: MapId| self.maps.contains_key(id)
    }

    /// `id` is the first instance of the fixed order without arguments.
    pub open spec fn first_missing_is(self, id: MapId) -> bool {
        &&& !self.maps.contains_key(id)
        &&& forall|earlier: MapId| earlier.position() < id.position() ==> self.maps.contains_key(earlier)
    }
}

impl View for Settings {
    type V = SettingsView;

    closed spec fn view(&self) -> SettingsView {
        SettingsView {
            working_dir: self.working_dir@,
            executable_name: self.executable_name@,
            common_cmd_args: texts(self.common_cmd_args@),
            max_running: self.max_running as nat,
            maps: Map::new(
                |id: MapId| self.maps@[id.position() as int] is Some,
                |id: MapId| self.maps@[id.position() as int]->0@,
            ),
        }
    }
}

impl Settings {
    /// One slot per instance of the fixed set.
    pub closed spec fn wf(&self) -> bool {
        self.maps@.len() == MAP_COUNT
    }

    /// A configuration that has no instance's arguments yet.
    pub fn new(
        working_dir: String,
        executable_name: String,
        common_cmd_args: Vec<String>,
        max_running: usize,
    ) -> (settings: Settings)
        ensures
            settings.wf(),
            settings@ == (SettingsView {
                working_dir: working_dir@,
                executable_name: executable_name@,
                common_cmd_args: texts(common_cmd_args@),
                max_running: max_running as nat,
                maps: Map::empty(),
            }),
    {
        let mut maps: Vec<Option<MapSettings>> = Vec::new();
        while maps.len() < MAP_COUNT
            invariant
                maps@.len() <= MAP_COUNT,
                forall|i: int| 0 <= i < maps@.len() ==> maps@[i] is None,
            decreases MAP_COUNT - maps@.len(),
        {
            maps.push(None);
        }
        let settings = Settings { working_dir, executable_name, common_cmd_args, max_running, maps };
        assert(settings@.maps =~= Map::empty());
        settings
    }

    /// Records the arguments of one instance, in place of any recorded before.
    pub fn set_map(&mut self, id: MapId, map_settings: MapSettings)
        requires
            old(self).wf(),
        ensures
            final(self).wf(),
            final(self)@ == (SettingsView {
                maps: old(self)@.maps.insert(id, map_settings@),
                ..old(self)@
            }),
    {
        let i = id.ordinal();
        self.maps[i] = Some(map_settings);
        assert(self@.maps =~= old(self)@.maps.insert(id, map_settings@));
    }

    /// The arguments of one instance, if the configuration has them.
    pub fn map(&self, id: MapId) -> (found: Option<&MapSettings>)
        requires
            self.wf(),
        ensures
            found is Some <==> self@.maps.contains_key(id),
            found matches Some(m) ==> m@ == self@.maps[id],
    {
        match &self.maps[id.ordinal()] {
            Some(m) => Some(m),
            None => None,
        }
    }

    /// The first instance of the fixed order whose arguments are missing.
    pub fn first_missing(&self) -> (missing: Option<MapId>)
        requires
            self.wf(),
        ensures
            missing is None <==> self@.complete(),
            missing matches Some(id) ==> self@.first_missing_is(id),
    {
        let mut i: usize = 0;
        while i < MAP_COUNT
            invariant
                self.wf(),
                i <= MAP_COUNT,
                forall|id: MapId| id.position() < i ==> self@.maps.contains_key(id),
            decreases MAP_COUNT - i,
        {
            if self.maps[i].is_none() {
                let id = MapId::from_ordinal(i);
                assert(!self@.maps.contains_key(id_at(i as int)));
                return id;
            }
            i += 1;
        }
        None
    }

    /// The directory that every instance runs in.
    pub fn working_dir(&self) -> (dir: &String)
        ensures
            dir@ == self@.working_dir,
    {
        &self.working_dir
    }

    /// File name of the server executable inside the working directory.
    pub fn executable_name(&self) -> (name: &String)
        ensures
            name@ == self@.executable_name,
    {
        &self.executable_name
    }

    /// The arguments that every instance gets after its own.
    pub fn common_cmd_args(&self) -> (args: &Vec<String>)
        ensures
            texts(args@) == self@.common_cmd_args,
    {
        &self.common_cmd_args
    }

    /// How many instances may run at once.
    pub fn max_running(&self) -> (cap: usize)
        ensures
            cap == self@.max_running,
    {
        self.max_running
    }
}

} // verus!
