use doctour_system::config::{ConfigFile, Configs, Kinds, Log, Profile, Severity};
use doctour_system::env::config::Config;
use doctour_system::path::{Path, SysPath};
use doctour_system::singleton::Singleton;

fn env(profile: &str) -> Config {
    Config::read_env(&vec![("PROFILE".to_string(), profile.to_string())]).unwrap()
}

fn file(profile: Option<&str>) -> ConfigFile {
    ConfigFile {
        log: Log { on: true, kinds: Kinds { trace: false, info: true, warn: false, error: true } },
        save: true,
        debug: false,
        profile: profile.map(|name| name.to_string()),
    }
}

#[test]
fn configuration_keeps_the_policy_and_flags_of_the_file() {
    let configs = Configs::new(&file(None), &env("DEBUG"));
    assert_eq!(*configs.log(), file(None).log);
    assert!(configs.save());
    assert!(!configs.debug());
    let other = ConfigFile { save: false, debug: true, ..file(None) };
    let configs = Configs::new(&other, &env("DEBUG"));
    assert!(!configs.save());
    assert!(configs.debug());
}

#[test]
fn profile_comes_from_the_environment() {
    for named in ["DEBUG", "PRODUCTION"] {
        for written in [None, Some("DEBUG"), Some("PRODUCTION"), Some("other")] {
            let environment = env(named);
            let configs = Configs::new(&file(written), &environment);
            assert_eq!(configs.profile(), environment.kind());
            assert_eq!(configs.profile().as_str(), named);
        }
    }
}

#[test]
fn profile_in_the_file_is_overwritten() {
    let configs = Configs::new(&file(Some("PRODUCTION")), &env("DEBUG"));
    assert_eq!(configs.profile(), Profile::Debug);
    let configs = Configs::new(&file(Some("DEBUG")), &env("PRODUCTION"));
    assert_eq!(configs.profile(), Profile::Production);
}

#[test]
fn policy_needs_the_master_switch_and_the_severity() {
    let kinds = Kinds { trace: false, info: true, warn: false, error: true };
    let on = Log { on: true, kinds };
    assert!(!on.enabled(Severity::Trace));
    assert!(on.enabled(Severity::Info));
    assert!(!on.enabled(Severity::Warn));
    assert!(on.enabled(Severity::Error));
    let off = Log { on: false, kinds };
    for severity in [Severity::Trace, Severity::Info, Severity::Warn, Severity::Error] {
        assert!(!off.enabled(severity));
    }
    assert!(kinds.enabled(Severity::Info));
    assert!(!kinds.enabled(Severity::Warn));
}

#[test]
fn the_configuration_file_lies_below_the_root() {
    let paths = Path::new(&SysPath::new("/srv/DocTour-AI/bin/tool")).unwrap();
    assert_eq!(Configs::file(&paths).as_str(), "/srv/DocTour-AI/system/configs.json");
}

#[test]
fn the_store_hands_out_the_configuration_it_loaded_first() {
    let mut store: Singleton<Configs, String> = Singleton::new();
    let mut loads = 0;
    let first = Configs::get(&mut store, || {
        loads += 1;
        Ok(Configs::new(&file(None), &env("DEBUG")))
    });
    let second = Configs::get(&mut store, || {
        loads += 1;
        Ok(Configs::new(&file(None), &env("PRODUCTION")))
    });
    assert_eq!(loads, 1);
    assert_eq!(first, Some(Configs::new(&file(None), &env("DEBUG"))));
    assert_eq!(second, first);

    let mut store: Singleton<Configs, String> = Singleton::new();
    assert_eq!(Configs::get(&mut store, || Err("no file".to_string())), None);
    assert_eq!(Configs::get(&mut store, || Ok(Configs::new(&file(None), &env("DEBUG")))), None);
}

#[test]
fn test_new() {
    let mut store: Singleton<Configs, String> = Singleton::new();
    let config =
        Configs::get(&mut store, || Ok(Configs::new(&file(Some("PRODUCTION")), &env("DEBUG"))))
            .unwrap();
    println!("{:?}", config.profile());
    println!("{:?}", config.log());
    assert_eq!(config.profile(), Profile::Debug);
    assert_eq!(*config.log(), file(None).log);
}

#[test]
fn a_loaded_configuration_leaves_its_loader_alone() {
    let mut store: Singleton<Configs, String> = Singleton::new();
    let first = Configs::get(&mut store, || Ok(Configs::new(&file(None), &env("DEBUG"))));
    for _ in 0..10 {
        let again = Configs::get(&mut store, || panic!("the file was read again"));
        assert_eq!(again, first);
    }
}
