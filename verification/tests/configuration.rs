use ark_supervisor::{ConfigError, LaunchSpec, MapId, MapSettings, ProcessActor, Registry, Settings};

const ALL_IDS: [MapId; 10] = [
    MapId::Aberration,
    MapId::TheIsland,
    MapId::ScorchedEarth,
    MapId::TheCenter,
    MapId::Ragnarok,
    MapId::Extinction,
    MapId::Valguero,
    MapId::GenesisPart1,
    MapId::CrystalIsles,
    MapId::GenesisPart2,
];

fn strings(items: &[&str]) -> Vec<String> {
    items.iter().map(|s| s.to_string()).collect()
}

fn bare_settings() -> Settings {
    Settings::new(
        "/srv/ark".to_string(),
        "ShooterGameServer".to_string(),
        strings(&["-server", "-log"]),
        2,
    )
}

fn settings_without(missing: &[MapId]) -> Settings {
    let mut settings = bare_settings();
    for id in ALL_IDS.iter() {
        if !missing.contains(id) {
            settings.set_map(
                *id,
                MapSettings {
                    cmd_opts: format!("{}?listen", id.name()),
                    cmd_args: strings(&["-players=70"]),
                },
            );
        }
    }
    settings
}

#[test]
fn new_settings_keep_what_they_were_given() {
    let settings = bare_settings();
    assert_eq!(settings.working_dir(), "/srv/ark");
    assert_eq!(settings.executable_name(), "ShooterGameServer");
    assert_eq!(settings.common_cmd_args(), &strings(&["-server", "-log"]));
    assert_eq!(settings.max_running(), 2);
}

#[test]
fn new_settings_have_no_map() {
    let settings = bare_settings();
    for id in ALL_IDS.iter() {
        assert!(settings.map(*id).is_none());
    }
    assert_eq!(settings.first_missing(), Some(MapId::Aberration));
}

#[test]
fn set_map_records_the_arguments_of_one_instance() {
    let mut settings = bare_settings();
    settings.set_map(
        MapId::Ragnarok,
        MapSettings { cmd_opts: "Ragnarok?listen".to_string(), cmd_args: strings(&["-a", "-b"]) },
    );
    let found = settings.map(MapId::Ragnarok).expect("the map was set");
    assert_eq!(found.cmd_opts, "Ragnarok?listen");
    assert_eq!(found.cmd_args, strings(&["-a", "-b"]));
    assert!(settings.map(MapId::Aberration).is_none());
    assert!(settings.map(MapId::Extinction).is_none());
    assert_eq!(settings.working_dir(), "/srv/ark");
    assert_eq!(settings.max_running(), 2);
}

#[test]
fn set_map_replaces_earlier_arguments() {
    let mut settings = bare_settings();
    settings.set_map(MapId::TheIsland, MapSettings { cmd_opts: "old".to_string(), cmd_args: strings(&["-x"]) });
    settings.set_map(MapId::TheIsland, MapSettings { cmd_opts: "new".to_string(), cmd_args: vec![] });
    let found = settings.map(MapId::TheIsland).expect("the map was set");
    assert_eq!(found.cmd_opts, "new");
    assert!(found.cmd_args.is_empty());
}

#[test]
fn first_missing_is_none_when_every_map_is_set() {
    assert_eq!(settings_without(&[]).first_missing(), None);
}

#[test]
fn first_missing_is_the_earliest_gap() {
    assert_eq!(settings_without(&[MapId::Valguero]).first_missing(), Some(MapId::Valguero));
    assert_eq!(
        settings_without(&[MapId::GenesisPart2, MapId::TheCenter, MapId::CrystalIsles]).first_missing(),
        Some(MapId::TheCenter)
    );
    assert_eq!(settings_without(&[MapId::GenesisPart2]).first_missing(), Some(MapId::GenesisPart2));
}

#[test]
fn launch_spec_joins_directory_and_executable() {
    let settings = bare_settings();
    let map = MapSettings { cmd_opts: "TheIsland?listen".to_string(), cmd_args: vec![] };
    let spec = LaunchSpec::assemble(&settings, &map);
    assert_eq!(spec.executable, "/srv/ark/ShooterGameServer");
    assert_eq!(spec.working_dir, "/srv/ark");
}

#[test]
fn launch_spec_orders_options_then_own_then_common_arguments() {
    let settings = bare_settings();
    let map = MapSettings {
        cmd_opts: "TheIsland?listen".to_string(),
        cmd_args: strings(&["-players=70", "-query=27015"]),
    };
    let spec = LaunchSpec::assemble(&settings, &map);
    assert_eq!(
        spec.args,
        strings(&["TheIsland?listen", "-players=70", "-query=27015", "-server", "-log"])
    );
}

#[test]
fn launch_spec_without_further_arguments_has_the_option_string_alone() {
    let settings = Settings::new("/opt".to_string(), "run".to_string(), vec![], 1);
    let map = MapSettings { cmd_opts: "".to_string(), cmd_args: vec![] };
    let spec = LaunchSpec::assemble(&settings, &map);
    assert_eq!(spec.executable, "/opt/run");
    assert_eq!(spec.args, strings(&[""]));
}

#[test]
fn registry_of_a_complete_configuration_covers_every_instance() {
    let settings = settings_without(&[]);
    let registry = Registry::build(&settings).expect("the configuration is complete");
    for id in ALL_IDS.iter() {
        let spec = registry.spec_for(*id);
        assert_eq!(spec.executable, "/srv/ark/ShooterGameServer");
        assert_eq!(spec.working_dir, "/srv/ark");
        assert_eq!(
            spec.args,
            vec![format!("{}?listen", id.name()), "-players=70".to_string(), "-server".to_string(), "-log".to_string()]
        );
    }
}

#[test]
fn registry_from_complete_equals_registry_build() {
    let settings = settings_without(&[]);
    let built = Registry::build(&settings).expect("the configuration is complete");
    let direct = Registry::from_complete(&settings);
    for id in ALL_IDS.iter() {
        assert_eq!(built.spec_for(*id).executable, direct.spec_for(*id).executable);
        assert_eq!(built.spec_for(*id).working_dir, direct.spec_for(*id).working_dir);
        assert_eq!(built.spec_for(*id).args, direct.spec_for(*id).args);
    }
}

#[test]
fn registry_of_an_incomplete_configuration_names_the_first_gap() {
    for missing in ALL_IDS.iter() {
        let settings = settings_without(&[*missing]);
        match Registry::build(&settings) {
            Err(error) => assert_eq!(error, ConfigError::MissingMap(*missing)),
            Ok(_) => panic!("a registry was built without {}", missing.name()),
        }
    }
    match Registry::build(&settings_without(&[MapId::Extinction, MapId::TheIsland])) {
        Err(error) => assert_eq!(error, ConfigError::MissingMap(MapId::TheIsland)),
        Ok(_) => panic!("a registry was built from an incomplete configuration"),
    }
}

#[test]
fn registry_of_an_empty_configuration_is_refused() {
    match Registry::build(&bare_settings()) {
        Err(error) => assert_eq!(error, ConfigError::MissingMap(MapId::Aberration)),
        Ok(_) => panic!("a registry was built from an empty configuration"),
    }
}

#[test]
fn supervisor_of_an_incomplete_configuration_is_refused() {
    for missing in ALL_IDS.iter() {
        let settings = settings_without(&[*missing]);
        match ProcessActor::try_new(&settings) {
            Err(error) => assert_eq!(error, ConfigError::MissingMap(*missing)),
            Ok(_) => panic!("a supervisor was made without {}", missing.name()),
        }
    }
}

#[test]
fn supervisor_of_a_complete_configuration_is_made() {
    assert!(ProcessActor::try_new(&settings_without(&[])).is_ok());
}
