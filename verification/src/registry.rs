//! Launch specifications: what it takes to start each instance, derived once
//! from the configuration.

use crate::map_id::{id_at, MapId, MAP_COUNT};
use crate::settings::{texts, MapSettings, MapSettingsView, Settings, SettingsView};
use vstd::prelude::*;
use vstd::string::StringExecFns;

verus! {

/// What it takes to start one instance.
pub struct LaunchSpec {
    /// Path of the executable.
    pub executable: String,
    /// Directory that the process runs in.
    pub working_dir: String,
    /// Command-line arguments, in order.
    pub args: Vec<String>,
}

/// A `LaunchSpec` as plain values.
pub struct LaunchSpecView {
    pub executable: Seq<char>,
    pub working_dir: Seq<char>,
    pub args: Seq<Seq<char>>,
}

impl View for LaunchSpec {
    type V = LaunchSpecView;

    open spec fn view(&self) -> LaunchSpecView {
        LaunchSpecView {
            executable: self.executable@,
            working_dir: self.working_dir@,
            args: texts(self.args@),
        }
    }
}

/// The launch specification that a configuration gives an instance with the
/// arguments `map`: the executable inside the working directory, and as
/// arguments the instance's option string, then its further arguments, then
/// the common ones.
pub open spec fn launch_of(settings: SettingsView, map: MapSettingsView) -> LaunchSpecView {
    LaunchSpecView {
        executable: settings.working_dir + "/"@ + settings.executable_name,
        working_dir: settings.working_dir,
        args: seq![map.cmd_opts] + map.cmd_args + settings.common_cmd_args,
    }
}

/// The launch specifications that a configuration gives, one per instance.
pub open spec fn registry_of(settings: SettingsView) -> Map<MapId, LaunchSpecView> {
    Map::new(|id: MapId| true, |id: MapId| launch_of(settings, settings.maps[id]))
}

/// Appends a copy of each string of `from` to `out`.
fn append_copies(out: &mut Vec<String>, from: &Vec<String>)
    ensures
        texts(final(out)@) == texts(old(out)@) + texts(from@),
{
    let mut i: usize = 0;
    while i < from.len()
        invariant
            i <= from@.len(),
            texts(out@) == texts(old(out)@) + texts(from@.take(i as int)),
        decreases from@.len() - i,
    {
        let ghost before = out@;
        out.push(from[i].clone());
        assert(texts(out@) =~= texts(before).push(from@[i as int]@));
        i += 1;
    }
}

impl LaunchSpec {
    /// Derives the launch specification of an instance from the configuration
    /// and the instance's own arguments.
    pub fn assemble(settings: &Settings, map: &MapSettings) -> (spec: LaunchSpec)
        ensures
            spec@ == launch_of(settings@, map@),
    {
        let mut executable = settings.working_dir().clone();
        executable.append("/");
        executable.append(settings.executable_name().as_str());
        let mut args: Vec<String> = Vec::new();
        args.push(map.cmd_opts.clone());
        assert(texts(args@) =~= seq![map.cmd_opts@]);
        append_copies(&mut args, &map.cmd_args);
        append_copies(&mut args, settings.common_cmd_args());
        LaunchSpec { executable, working_dir: settings.working_dir().clone(), args }
    }
}

/// Why a configuration yields no registry.
#[derive(Clone, Copy, Debug, PartialEq, Eq, Structural)]
pub enum ConfigError {
    /// The configuration lacks the arguments of this instance.
    MissingMap(MapId),
}

/// The launch specification of every instance of the fixed set.
pub struct Registry {
    specs: Vec<LaunchSpec>,
}

impl View for Registry {
    type V = Map<MapId, LaunchSpecView>;

    closed spec fn view(&self) -> Map<MapId, LaunchSpecView> {
        Map::new(|id: MapId| true, |id: MapId| self.specs@[id.position() as int]@)
    }
}

impl Registry {
    /// One launch specification per instance of the fixed set.
    pub closed spec fn wf(&self) -> bool {
        self.specs@.len() == MAP_COUNT
    }

    /// The registry of a configuration that has every instance's arguments.
    pub fn from_complete(settings: &Settings) -> (registry: Registry)
        requires
            settings.wf(),
            settings@.complete(),
        ensures
            registry.wf(),
            registry@ == registry_of(settings@),
    {
        let mut specs: Vec<LaunchSpec> = Vec::new();
        let mut i: usize = 0;
        while i < MAP_COUNT
            invariant
                settings.wf(),
                settings@.complete(),
                i <= MAP_COUNT,
                specs@.len() == i,
                forall|k: int| 0 <= k < i ==> #[trigger] specs@[k]@ == launch_of(settings@, settings@.maps[id_at(k)]),
            decreases MAP_COUNT - i,
        {
            let id = match MapId::from_ordinal(i) {
                Some(id) => id,
                None => vstd::pervasive::unreached(),
            };
            let map = match settings.map(id) {
                Some(map) => map,
                None => vstd::pervasive::unreached(),
            };
            specs.push(LaunchSpec::assemble(settings, map));
            i += 1;
        }
        Registry { specs }
    }

    /// The registry of a configuration, or the first instance of the fixed
    /// order whose arguments the configuration lacks.
    pub fn build(settings: &Settings) -> (built: Result<Registry, ConfigError>)
        requires
            settings.wf(),
        ensures
            built is Ok <==> settings@.complete(),
            built matches Ok(registry) ==> registry.wf() && registry@ == registry_of(settings@),
            built matches Err(ConfigError::MissingMap(id)) ==> settings@.first_missing_is(id),
    {
        match settings.first_missing() {
            Some(id) => Err(ConfigError::MissingMap(id)),
            None => Ok(Registry::from_complete(settings)),
        }
    }

    /// The launch specification of an instance.
    pub fn spec_for(&self, id: MapId) -> (spec: &LaunchSpec)
        requires
            self.wf(),
        ensures
            self@.contains_key(id),
            spec@ == self@[id],
    {
        &self.specs[id.ordinal()]
    }
}

} // verus!
