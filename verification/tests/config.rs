use pomidor::args::{Args, ArgsError, ConfigSource, ConfigStep};
use pomidor::command::Command;
use pomidor::config::{Config, DeviceChoice, NotificationConfig, SoundConfig};
use pomidor::path::UnixPath;
use pomidor::time::Period;
use pomidor::timer::TimerMode;

fn path(text: &str) -> UnixPath {
    UnixPath { bytes: text.as_bytes().to_vec() }
}

fn args(config: Option<UnixPath>, socket: Option<UnixPath>) -> Args {
    Args { config, socket, command: Command::Waybar }
}

#[test]
fn defaults_are_the_usual_ones() {
    let config = Config::default();
    assert_eq!(config.timer.short_break_duration, Period::from_secs(300));
    assert_eq!(config.timer.long_break_duration, Period::from_secs(1_800));
    assert_eq!(config.timer.focus_duration, Period::from_secs(1_500));
    assert_eq!(config.timer.short_breaks, 3);
    assert_eq!(config.notification.timeout, None);
    assert_eq!(config.sound, SoundConfig { sound: None, device: None });
}

#[test]
fn modes_have_their_messages() {
    let mut config = NotificationConfig::default();
    assert_eq!(config.for_mode(TimerMode::Pestering), None);
    assert_eq!(config.for_mode(TimerMode::Snoozing), None);
    assert_eq!(
        config.for_mode(TimerMode::ShortBreak).unwrap(),
        "Take a short break! Drink water, take notes, move around."
    );
    assert_eq!(
        config.for_mode(TimerMode::LongBreak).unwrap(),
        "Take a long break! Grab a snack, take notes, move around."
    );
    assert_eq!(config.for_mode(TimerMode::Focus).unwrap(), "Time to focus! No distractions.");
    config.pestering = Some("a".to_string());
    config.snoozing = Some("b".to_string());
    assert_eq!(config.for_mode(TimerMode::Pestering).unwrap(), "a");
    assert_eq!(config.for_mode(TimerMode::Snoozing).unwrap(), "b");
}

#[test]
fn timeout_is_in_milliseconds_of_32_bits() {
    let mut config = NotificationConfig::default();
    assert_eq!(config.expire_timeout(), -1);
    for (secs, nanos) in [(0, 999_999), (2, 500_000_000), (2_147_483, 647_000_000), (2_147_483, 648_000_000), (4_294_967, 296_000_000), (u64::MAX, 0)] {
        config.timeout = Period::new(secs, nanos);
        let millis = std::time::Duration::new(secs, nanos).as_millis() as i32;
        assert_eq!(config.expire_timeout(), millis);
    }
    config.timeout = Period::new(2, 500_000_000);
    assert_eq!(config.expire_timeout(), 2_500);
    config.timeout = Period::new(2_147_483, 648_000_000);
    assert_eq!(config.expire_timeout(), i32::MIN);
}

#[test]
fn first_device_of_the_configured_name_is_chosen() {
    let devices: Vec<Option<String>> =
        vec![Some("a".to_string()), Some("b".to_string()), None, Some("b".to_string()), Some("c".to_string())];
    let named = |name: &str| SoundConfig { sound: None, device: Some(name.to_string()) };
    assert_eq!(SoundConfig::default().choose_device(&devices), DeviceChoice::SystemDefault);
    assert_eq!(named("b").choose_device(&devices), DeviceChoice::Listed(1));
    assert_eq!(named("c").choose_device(&devices), DeviceChoice::Unnamed(2));
    assert_eq!(named("c").choose_device(&vec![Some("a".to_string())]), DeviceChoice::SystemDefault);
    assert_eq!(named("c").choose_device(&vec![]), DeviceChoice::SystemDefault);
}

#[test]
fn paths_are_joined_as_the_system_does() {
    for dir in ["", "/", "/run", "/run/", "run/user", "."] {
        for name in ["pomidor", "/etc", "", "a/b"] {
            let expected = std::path::Path::new(dir).join(name);
            assert_eq!(path(dir).join(name), path(expected.to_str().unwrap()));
        }
    }
}

#[test]
fn given_socket_is_used() {
    let given = args(None, Some(path("/tmp/x")));
    assert_eq!(given.find_socket_in(false, Some(path("/run"))), Ok(path("/tmp/x")));
    assert_eq!(given.find_socket_in(true, None), Ok(path("/tmp/x")));
}

#[test]
fn socket_is_in_the_runtime_directory() {
    let none = args(None, None);
    assert_eq!(none.find_socket_in(false, Some(path("/run/user/1"))), Ok(path("/run/user/1/pomidor.sock")));
    assert_eq!(none.find_socket_in(true, Some(path("/run/"))), Ok(path("/run/pomidor-debug.sock")));
    assert_eq!(none.find_socket_in(false, None), Err(ArgsError::NoSocketDirectory));
    assert_eq!(ArgsError::NoSocketDirectory.message(), "could not find socket directory");
}

#[test]
fn configuration_file_is_found() {
    let none = args(None, None);
    let given = args(Some(path("my.toml")), None);
    let home = || Some(path("/home/x/.config"));
    assert_eq!(none.load_config_in(true, None), Ok(ConfigSource::Builtin));
    assert_eq!(given.load_config_in(true, home()), Ok(ConfigSource::Builtin));
    assert_eq!(given.load_config_in(false, home()), Ok(ConfigSource::File(path("my.toml"))));
    assert_eq!(given.load_config_in(false, None), Ok(ConfigSource::File(path("my.toml"))));
    assert_eq!(
        none.load_config_in(false, home()),
        Ok(ConfigSource::File(path("/home/x/.config/pomidor/pomidor.toml")))
    );
    assert_eq!(none.load_config_in(false, None), Err(ArgsError::NoConfigDirectory));
    assert_eq!(ArgsError::NoConfigDirectory.message(), "failed to locate config directory");
}

#[test]
fn missing_configuration_file_is_written() {
    assert_eq!(Args::open_config(true, true), ConfigStep::Read);
    assert_eq!(Args::open_config(false, true), ConfigStep::Write { create_parent: false });
    assert_eq!(Args::open_config(false, false), ConfigStep::Write { create_parent: true });
}

#[test]
fn surroundings_are_looked_at() {
    let dir = |dir: Option<std::path::PathBuf>| dir.map(|dir| path(dir.to_str().unwrap()));
    let none = args(None, None);
    assert_eq!(none.find_socket(false), none.find_socket_in(false, dir(dirs::runtime_dir())));
    assert_eq!(none.load_config(false), none.load_config_in(false, dir(dirs::config_local_dir())));
    let given = args(Some(path("my.toml")), Some(path("my.sock")));
    assert_eq!(given.find_socket(true), Ok(path("my.sock")));
    assert_eq!(given.load_config(false), Ok(ConfigSource::File(path("my.toml"))));
    assert_eq!(given.load_config(true), Ok(ConfigSource::Builtin));
}

#[test]
fn builds_have_sockets_of_their_own() {
    let none = args(None, None);
    let socket = |debug: bool| none.find_socket_in(debug, Some(path("/run"))).unwrap();
    assert_eq!(socket(true), socket(true));
    assert_ne!(socket(true), socket(false));
}
