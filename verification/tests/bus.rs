use std::collections::HashMap;
use taigikeyboard::bus::{
    address_from_environment, address_from_socket_file, address_with, confirm_daemon,
    machine_id, parse_socket_file, socket_file_path, socket_location, BusAddressError,
    BusEnvironment, DaemonCheck, SocketFile, SocketLocation,
};

const SOCKET_FILE: &str = "# This file is created by ibus-daemon, please do not modify it.\n\
    # This file allows processes on the machine to find the\n\
    # ibus session bus with the below address.\n\
    # If the IBUS_ADDRESS environment variable is set, it will\n\
    # be used rather than this file.\n\
    IBUS_ADDRESS=unix:abstract=/home/u/.cache/ibus/dbus-abc,guid=1234\n\
    IBUS_DAEMON_PID=4242\n";

fn some(text: &str) -> Option<String> {
    Some(text.to_owned())
}

fn env(pairs: &[(&str, &str)]) -> BusEnvironment {
    let map: HashMap<&str, &str> = pairs.iter().copied().collect();
    let value = |name: &str| map.get(name).map(|value| (*value).to_owned());
    BusEnvironment {
        ibus_address: value("IBUS_ADDRESS"),
        ibus_address_file: value("IBUS_ADDRESS_FILE"),
        wayland_display: value("WAYLAND_DISPLAY"),
        display: value("DISPLAY"),
        xdg_config_home: value("XDG_CONFIG_HOME"),
        home: value("HOME"),
    }
}

fn files(pairs: &[(&str, &str)]) -> impl Fn(&str) -> Result<String, String> {
    let map: HashMap<String, String> = pairs
        .iter()
        .map(|(path, contents)| ((*path).to_owned(), (*contents).to_owned()))
        .collect();
    move |path| {
        map.get(path)
            .cloned()
            .ok_or_else(|| "No such file or directory".to_owned())
    }
}

#[test]
fn the_environment_variable_wins_without_touching_the_file() {
    let address = address_with(
        &env(&[("IBUS_ADDRESS", "unix:path=/tmp/x")]),
        |_| panic!("no file read"),
        |_| panic!("no pid check"),
    )
    .unwrap();
    assert_eq!(address, "unix:path=/tmp/x");
}

#[test]
fn the_wayland_socket_file_is_machine_unix_display_under_config_home() {
    let address = address_with(
        &env(&[
            ("HOME", "/home/u"),
            ("XDG_CONFIG_HOME", "/home/u/.config"),
            ("WAYLAND_DISPLAY", "wayland-0"),
            ("DISPLAY", ":0"),
        ]),
        files(&[
            ("/etc/machine-id", "abcdef\n"),
            (
                "/home/u/.config/ibus/bus/abcdef-unix-wayland-0",
                SOCKET_FILE,
            ),
        ]),
        |pid| pid == 4242,
    )
    .unwrap();
    assert_eq!(
        address,
        "unix:abstract=/home/u/.cache/ibus/dbus-abc,guid=1234"
    );
}

#[test]
fn the_x11_display_splits_at_colon_and_drops_the_screen() {
    let files = files(&[
        ("/var/lib/dbus/machine-id", "m1\n"),
        ("/home/u/.config/ibus/bus/m1-unix-1", SOCKET_FILE),
        ("/home/u/.config/ibus/bus/m1-host-2", SOCKET_FILE),
    ]);
    assert!(address_with(
        &env(&[("HOME", "/home/u"), ("DISPLAY", ":1.0")]),
        &files,
        |_| true
    )
    .is_ok());
    assert!(address_with(
        &env(&[("HOME", "/home/u"), ("DISPLAY", "host:2")]),
        &files,
        |_| true
    )
    .is_ok());
}

#[test]
fn a_dead_daemon_or_a_missing_file_is_an_error_not_a_stale_address() {
    let files = files(&[
        ("/etc/machine-id", "m\n"),
        ("/home/u/.config/ibus/bus/m-unix-0", SOCKET_FILE),
    ]);
    let dead = address_with(
        &env(&[("HOME", "/home/u"), ("DISPLAY", ":0")]),
        &files,
        |_| false,
    );
    assert!(matches!(
        dead,
        Err(BusAddressError::DaemonGone { pid: 4242, .. })
    ));
    let missing = address_with(
        &env(&[("HOME", "/home/u"), ("DISPLAY", ":9")]),
        &files,
        |_| true,
    );
    assert!(matches!(missing, Err(BusAddressError::Unreadable { .. })));
    assert!(matches!(
        address_with(&env(&[("HOME", "/home/u")]), &files, |_| true),
        Err(BusAddressError::NoDisplay)
    ));
}

#[test]
fn the_address_file_variable_is_read_as_named() {
    let address = address_with(
        &env(&[("IBUS_ADDRESS_FILE", "/run/ibus"), ("DISPLAY", ":0")]),
        files(&[("/run/ibus", SOCKET_FILE)]),
        |pid| pid == 4242,
    );
    assert_eq!(
        address,
        Ok("unix:abstract=/home/u/.cache/ibus/dbus-abc,guid=1234".to_owned())
    );
}

fn environment() -> BusEnvironment {
    BusEnvironment {
        ibus_address: None,
        ibus_address_file: None,
        wayland_display: None,
        display: None,
        xdg_config_home: None,
        home: None,
    }
}

#[test]
fn comments_are_skipped_and_the_pid_is_parsed() {
    assert_eq!(
        parse_socket_file(SOCKET_FILE),
        SocketFile {
            address: Some("unix:abstract=/home/u/.cache/ibus/dbus-abc,guid=1234".to_owned()),
            daemon_pid: Some(4242),
        }
    );
}

#[test]
fn the_last_line_for_a_key_wins_and_a_bad_pid_is_none() {
    let parsed = parse_socket_file("IBUS_ADDRESS=a\r\nIBUS_DAEMON_PID=12\nIBUS_ADDRESS=b  \nIBUS_DAEMON_PID= x1\n");
    assert_eq!(parsed.address.as_deref(), Some("b"));
    assert_eq!(parsed.daemon_pid, None);
    let plus = parse_socket_file("IBUS_DAEMON_PID= +7 ");
    assert_eq!(plus.daemon_pid, Some(7));
    assert_eq!(plus.address, None);
    let too_big = parse_socket_file("IBUS_DAEMON_PID=4294967296");
    assert_eq!(too_big.daemon_pid, None);
    let largest = parse_socket_file("IBUS_DAEMON_PID=4294967295");
    assert_eq!(largest.daemon_pid, Some(u32::MAX));
}

#[test]
fn the_environment_variable_is_the_address_when_set() {
    let mut env = environment();
    assert_eq!(address_from_environment(&env), None);
    env.ibus_address = some("");
    assert_eq!(address_from_environment(&env), None);
    env.ibus_address = some("unix:path=/tmp/x");
    assert_eq!(address_from_environment(&env).as_deref(), Some("unix:path=/tmp/x"));
}

#[test]
fn wayland_reads_unix_and_the_whole_display_under_config_home() {
    let mut env = environment();
    env.home = some("/home/u");
    env.xdg_config_home = some("/home/u/.config");
    env.wayland_display = some("wayland-0");
    env.display = some(":0");
    assert_eq!(
        socket_location(&env),
        Ok(SocketLocation::UnderConfigHome {
            config_home: "/home/u/.config".to_owned(),
            host: "unix".to_owned(),
            display_number: "wayland-0".to_owned(),
        })
    );
    let id = machine_id(&files(&[("/etc/machine-id", "abcdef\n")]));
    assert_eq!(id, "abcdef");
    assert_eq!(
        socket_file_path("/home/u/.config", &id, "unix", "wayland-0"),
        "/home/u/.config/ibus/bus/abcdef-unix-wayland-0"
    );
}

#[test]
fn an_x11_display_splits_at_the_colon_and_drops_the_screen() {
    let mut env = environment();
    env.home = some("/home/u");
    env.display = some(":1.0");
    assert_eq!(
        socket_location(&env),
        Ok(SocketLocation::UnderConfigHome {
            config_home: "/home/u/.config".to_owned(),
            host: "unix".to_owned(),
            display_number: "1".to_owned(),
        })
    );
    env.display = some("host:2");
    assert_eq!(
        socket_location(&env),
        Ok(SocketLocation::UnderConfigHome {
            config_home: "/home/u/.config".to_owned(),
            host: "host".to_owned(),
            display_number: "2".to_owned(),
        })
    );
    env.display = some("host");
    assert_eq!(
        socket_location(&env),
        Ok(SocketLocation::UnderConfigHome {
            config_home: "/home/u/.config".to_owned(),
            host: "host".to_owned(),
            display_number: "0".to_owned(),
        })
    );
}

#[test]
fn the_address_file_variable_names_the_file_and_a_relative_config_home_is_ignored() {
    let mut env = environment();
    env.home = some("/home/u/");
    env.display = some(":0");
    env.xdg_config_home = some("relative");
    assert_eq!(
        socket_location(&env),
        Ok(SocketLocation::UnderConfigHome {
            config_home: "/home/u/.config".to_owned(),
            host: "unix".to_owned(),
            display_number: "0".to_owned(),
        })
    );
    env.ibus_address_file = some("/run/ibus-file");
    assert_eq!(
        socket_location(&env),
        Ok(SocketLocation::File("/run/ibus-file".to_owned()))
    );
}

#[test]
fn no_display_and_no_home_are_refused_in_that_order() {
    let mut env = environment();
    assert_eq!(socket_location(&env), Err(BusAddressError::NoDisplay));
    env.display = some(":0");
    assert_eq!(socket_location(&env), Err(BusAddressError::NoConfigHome));
}

#[test]
fn a_blank_or_missing_machine_id_falls_back() {
    assert_eq!(
        machine_id(&files(&[
            ("/var/lib/dbus/machine-id", "  m1 \n"),
            ("/etc/machine-id", "m2")
        ])),
        "m1"
    );
    assert_eq!(
        machine_id(&files(&[
            ("/var/lib/dbus/machine-id", " \n"),
            ("/etc/machine-id", "m2")
        ])),
        "m2"
    );
    assert_eq!(
        machine_id(&files(&[("/var/lib/dbus/machine-id", " \n")])),
        "machine-id"
    );
    assert_eq!(machine_id(&files(&[])), "machine-id");
}

#[test]
fn a_dead_daemon_or_a_missing_file_is_an_error() {
    let path = "/home/u/.config/ibus/bus/m-unix-0".to_owned();
    let check = address_from_socket_file(path.clone(), Ok(SOCKET_FILE.to_owned())).unwrap();
    assert_eq!(
        check,
        DaemonCheck {
            path: path.clone(),
            address: "unix:abstract=/home/u/.cache/ibus/dbus-abc,guid=1234".to_owned(),
            pid: 4242,
        }
    );
    assert_eq!(
        confirm_daemon(check.clone(), false),
        Err(BusAddressError::DaemonGone {
            path: path.clone(),
            pid: 4242
        })
    );
    assert_eq!(
        confirm_daemon(check, true),
        Ok("unix:abstract=/home/u/.cache/ibus/dbus-abc,guid=1234".to_owned())
    );
    assert_eq!(
        address_from_socket_file(path.clone(), Err("not found".to_owned())),
        Err(BusAddressError::Unreadable {
            path: path.clone(),
            source: "not found".to_owned()
        })
    );
    assert_eq!(
        address_from_socket_file(path.clone(), Ok("IBUS_DAEMON_PID=1\n".to_owned())),
        Err(BusAddressError::NoAddress { path: path.clone() })
    );
    assert_eq!(
        address_from_socket_file(path.clone(), Ok("IBUS_ADDRESS=x\n".to_owned())),
        Err(BusAddressError::DaemonGone { path, pid: 0 })
    );
}
