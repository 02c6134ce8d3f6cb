use doctour_system::config::Profile;
use doctour_system::env::config::Config;
use doctour_system::env::db::{parse_port, DBEnv};
use doctour_system::env::{env_file, lookup, require, EnvError, Environment, Key};
use doctour_system::path::{Path, SysPath};
use doctour_system::singleton::Singleton;

fn vars(pairs: &[(&str, &str)]) -> Vec<(String, String)> {
    pairs.iter().map(|(name, value)| (name.to_string(), value.to_string())).collect()
}

fn full() -> Vec<(String, String)> {
    vars(&[
        ("PROFILE", "DEBUG"),
        ("HOST", "localhost"),
        ("PORT", "5432"),
        ("DBNAME", "x"),
        ("DBUSER", "y"),
        ("PASSWORD", "z"),
    ])
}

fn without(name: &str) -> Vec<(String, String)> {
    full().into_iter().filter(|(key, _)| key != name).collect()
}

fn with(name: &str, value: &str) -> Vec<(String, String)> {
    full()
        .into_iter()
        .map(|(key, old)| if key == name { (key, value.to_string()) } else { (key, old) })
        .collect()
}

#[test]
fn test_config() {
    let mut store: Singleton<Environment, EnvError> = Singleton::new();
    let config = Config::open(&mut store, || Environment::read_env(&full())).unwrap();
    println!("Config profile: {}", config.profile());
    assert_eq!(config.profile(), "DEBUG");
}

#[test]
fn opening_twice_reads_the_environment_once() {
    let mut store: Singleton<Environment, EnvError> = Singleton::new();
    let mut reads = 0;
    let first = DBEnv::open(&mut store, || {
        reads += 1;
        Environment::read_env(&full())
    });
    let config = Config::open(&mut store, || {
        reads += 1;
        Environment::read_env(&with("PROFILE", "PRODUCTION"))
    });
    let second = DBEnv::open(&mut store, || {
        reads += 1;
        Environment::read_env(&with("PORT", "1"))
    });
    assert_eq!(reads, 1);
    assert_eq!(first, Some(DBEnv::read_env(&full()).unwrap()));
    assert_eq!(second, first);
    assert_eq!(config.unwrap().kind(), Profile::Debug);
}

#[test]
fn opening_a_malformed_environment_never_gives_one() {
    let mut store: Singleton<Environment, EnvError> = Singleton::new();
    assert_eq!(DBEnv::open(&mut store, || Environment::read_env(&without("PORT"))), None);
    assert_eq!(Config::open(&mut store, || Environment::read_env(&full())), None);
    assert_eq!(DBEnv::open(&mut store, || Environment::read_env(&full())), None);
    assert_eq!(store.failure(), Some(&EnvError::Missing(Key::Port)));
    assert_eq!(store.get(), None);
}

#[test]
fn profile_is_read_as_one_of_two() {
    assert_eq!(Config::read_env(&full()).unwrap().kind(), Profile::Debug);
    let production = Config::read_env(&with("PROFILE", "PRODUCTION")).unwrap();
    assert_eq!(production.kind(), Profile::Production);
    assert_eq!(production.profile(), "PRODUCTION");
}

#[test]
fn profile_names_and_profiles_match() {
    assert_eq!(Profile::parse("DEBUG"), Some(Profile::Debug));
    assert_eq!(Profile::parse("PRODUCTION"), Some(Profile::Production));
    assert_eq!(Profile::Debug.as_str(), "DEBUG");
    assert_eq!(Profile::Production.as_str(), "PRODUCTION");
    for text in ["", "debug", "Debug", "DEBUG ", " DEBUG", "PROD", "TEST"] {
        assert_eq!(Profile::parse(text), None, "{:?}", text);
    }
}

#[test]
fn a_missing_profile_fails() {
    assert_eq!(Config::read_env(&without("PROFILE")), Err(EnvError::Missing(Key::Profile)));
    assert_eq!(Config::read_env(&vec![]), Err(EnvError::Missing(Key::Profile)));
}

#[test]
fn an_unknown_profile_fails() {
    for text in ["", "debug", "STAGING"] {
        assert_eq!(
            Config::read_env(&with("PROFILE", text)),
            Err(EnvError::Invalid(Key::Profile)),
            "{:?}",
            text
        );
    }
}

#[test]
fn database_parameters_are_read_whole() {
    let env = DBEnv::read_env(&full()).unwrap();
    assert_eq!(env.host(), "localhost");
    assert_eq!(env.port(), 5432);
    assert_eq!(env.db_name(), "x");
    assert_eq!(env.user(), "y");
    assert_eq!(env.pass(), "z");
}

#[test]
fn a_missing_port_gives_no_parameters() {
    assert_eq!(DBEnv::read_env(&without("PORT")), Err(EnvError::Missing(Key::Port)));
}

#[test]
fn each_missing_key_is_named() {
    assert_eq!(DBEnv::read_env(&without("HOST")), Err(EnvError::Missing(Key::Host)));
    assert_eq!(DBEnv::read_env(&without("DBNAME")), Err(EnvError::Missing(Key::DbName)));
    assert_eq!(DBEnv::read_env(&without("DBUSER")), Err(EnvError::Missing(Key::DbUser)));
    assert_eq!(DBEnv::read_env(&without("PASSWORD")), Err(EnvError::Missing(Key::Password)));
    assert!(DBEnv::read_env(&without("PROFILE")).is_ok());
}

#[test]
fn the_first_failing_key_decides() {
    assert_eq!(DBEnv::read_env(&vec![]), Err(EnvError::Missing(Key::Host)));
    let env = vars(&[("HOST", "h"), ("PORT", "none")]);
    assert_eq!(DBEnv::read_env(&env), Err(EnvError::Invalid(Key::Port)));
    let env = vars(&[("HOST", "h"), ("PORT", "1")]);
    assert_eq!(DBEnv::read_env(&env), Err(EnvError::Missing(Key::DbName)));
}

#[test]
fn a_port_that_is_no_number_fails() {
    for text in ["", "http", "54 32", "5432 ", "-1", "65536", "0x10", "+", "1.5"] {
        assert_eq!(
            DBEnv::read_env(&with("PORT", text)),
            Err(EnvError::Invalid(Key::Port)),
            "{:?}",
            text
        );
    }
}

#[test]
fn ports_are_read_as_decimal_numbers() {
    assert_eq!(parse_port("0"), Some(0));
    assert_eq!(parse_port("5432"), Some(5432));
    assert_eq!(parse_port("65535"), Some(65535));
    assert_eq!(parse_port("+80"), Some(80));
    assert_eq!(parse_port("00080"), Some(80));
    assert_eq!(parse_port("65536"), None);
    assert_eq!(parse_port("99999999999999999999"), None);
    assert_eq!(parse_port("++80"), None);
    assert_eq!(parse_port("8０"), None);
}

#[test]
fn ports_are_read_as_the_standard_parser_reads_them() {
    let mut texts: Vec<String> = vec![
        "", "+", "-", "-0", "+0", "0", "007", "65535", "65536", "70000", "4294967296", " 1", "1 ",
        "1_0", "٣", "12a", "a12", "+-1", "1+",
    ]
    .into_iter()
    .map(|text| text.to_string())
    .collect();
    for number in (0u32..70000).step_by(997) {
        texts.push(number.to_string());
    }
    for text in texts {
        assert_eq!(parse_port(&text), text.parse::<u16>().ok(), "{:?}", text);
    }
}

#[test]
fn lookup_finds_the_first_pair_of_a_name() {
    let env = vars(&[("A", "1"), ("B", "2"), ("A", "3"), ("", "4")]);
    assert_eq!(lookup(&env, "A"), Some("1".to_string()));
    assert_eq!(lookup(&env, "B"), Some("2".to_string()));
    assert_eq!(lookup(&env, ""), Some("4".to_string()));
    assert_eq!(lookup(&env, "a"), None);
    assert_eq!(lookup(&env, "C"), None);
    assert_eq!(lookup(&vec![], "A"), None);
}

#[test]
fn keys_stand_under_their_names() {
    let named: Vec<&str> =
        [Key::Profile, Key::Host, Key::Port, Key::DbName, Key::DbUser, Key::Password]
            .iter()
            .map(|key| key.as_str())
            .collect();
    assert_eq!(named, vec!["PROFILE", "HOST", "PORT", "DBNAME", "DBUSER", "PASSWORD"]);
    assert_eq!(require(&full(), Key::DbUser), Ok("y".to_string()));
    assert_eq!(require(&without("DBUSER"), Key::DbUser), Err(EnvError::Missing(Key::DbUser)));
}

#[test]
fn the_environment_is_read_whole() {
    let environment = Environment::read_env(&full()).unwrap();
    assert_eq!(environment.config().kind(), Profile::Debug);
    assert_eq!(environment.config().profile(), "DEBUG");
    assert_eq!(environment.db().host(), "localhost");
    assert_eq!(environment.db().port(), 5432);
    assert_eq!(environment.db().db_name(), "x");
    assert_eq!(environment.db().user(), "y");
    assert_eq!(environment.db().pass(), "z");
    assert_eq!(*environment.db(), DBEnv::read_env(&full()).unwrap());
    assert_eq!(*environment.config(), Config::read_env(&full()).unwrap());
}

#[test]
fn an_environment_without_a_port_is_none() {
    assert_eq!(Environment::read_env(&without("PORT")), Err(EnvError::Missing(Key::Port)));
}

#[test]
fn an_environment_with_a_gap_is_none() {
    for (name, key) in [
        ("PROFILE", Key::Profile),
        ("HOST", Key::Host),
        ("PORT", Key::Port),
        ("DBNAME", Key::DbName),
        ("DBUSER", Key::DbUser),
        ("PASSWORD", Key::Password),
    ] {
        assert_eq!(Environment::read_env(&without(name)), Err(EnvError::Missing(key)));
    }
    assert_eq!(Environment::read_env(&vec![]), Err(EnvError::Missing(Key::Profile)));
    assert_eq!(
        Environment::read_env(&with("PORT", "five")),
        Err(EnvError::Invalid(Key::Port))
    );
    assert_eq!(
        Environment::read_env(&with("PROFILE", "TEST")),
        Err(EnvError::Invalid(Key::Profile))
    );
    let two = with("PROFILE", "TEST").into_iter().filter(|(key, _)| key != "HOST").collect();
    assert_eq!(Environment::read_env(&two), Err(EnvError::Invalid(Key::Profile)));
}

#[test]
fn other_bindings_do_not_count() {
    let mut env = vars(&[("PATH", "/bin"), ("PORT", "1"), ("HOME", "/root")]);
    env.extend(full());
    env.push(("HOST".to_string(), "elsewhere".to_string()));
    let environment = Environment::read_env(&env).unwrap();
    assert_eq!(environment.db().port(), 1);
    assert_eq!(environment.db().host(), "localhost");
}

#[test]
fn the_environment_file_lies_below_the_root() {
    let paths = Path::new(&SysPath::new("/srv/DocTour-AI/bin/tool")).unwrap();
    assert_eq!(env_file(&paths).as_str(), "/srv/DocTour-AI/system/.env");
}

#[test]
fn a_loaded_environment_leaves_its_loader_alone() {
    let mut store: Singleton<Environment, EnvError> = Singleton::new();
    let first = DBEnv::open(&mut store, || Environment::read_env(&full()));
    for _ in 0..10 {
        assert_eq!(DBEnv::open(&mut store, || panic!("the file was read again")), first);
        let config = Config::open(&mut store, || panic!("the file was read again"));
        assert_eq!(config.unwrap().profile(), "DEBUG");
    }

    let mut store: Singleton<Environment, EnvError> = Singleton::new();
    assert_eq!(Config::open(&mut store, || Environment::read_env(&without("HOST"))), None);
    assert_eq!(Config::open(&mut store, || panic!("the file was read again")), None);
    assert_eq!(DBEnv::open(&mut store, || panic!("the file was read again")), None);
}
