use getup::lifecycle::{CurrState, Runtime};
use getup::unitfile::{parse_flag, parse_restart, LoadError, UnitFile};
use getup::units::{RestartMethod, Unit};
use ini::Ini;

const FULL: &str = "\
[Unit]
Description=An example daemon
Documentation=man:example(8)

[Service]
Type=simple
ExecStart=/usr/bin/example --foreground
ExecReload=/bin/kill -HUP $MAINPID
Restart=Always
CapabilityBoundingSet=CAP_NET_BIND_SERVICE
NoNewPrivs=true

[Install]
Alias=example
WantedBy=multi-user.target
";

fn no_fields() -> UnitFile {
    UnitFile {
        description: None,
        documentation: None,
        service_type: None,
        exec_start: None,
        exec_reload: None,
        restart: None,
        capability_bounding_set: None,
        no_new_privs: None,
        alias: None,
        wanted_by: None,
    }
}

#[test]
fn every_key_of_a_unit_file_is_carried() {
    let unit = Unit::from_unitfile("/etc/services/example.service", FULL).unwrap();
    assert_eq!(unit.path, "/etc/services/example.service");
    assert_eq!(unit.description, "An example daemon");
    assert_eq!(unit.documentation.as_deref(), Some("man:example(8)"));
    assert_eq!(unit.service.service_type.as_deref(), Some("simple"));
    assert_eq!(unit.service.exec_start, "/usr/bin/example --foreground");
    assert_eq!(unit.service.exec_reload.as_deref(), Some("/bin/kill -HUP $MAINPID"));
    assert_eq!(unit.service.restart, Some(RestartMethod::Always));
    assert_eq!(unit.service.restart_policy, RestartMethod::Always);
    assert_eq!(
        unit.service.capability_bounding_set.as_deref(),
        Some("CAP_NET_BIND_SERVICE")
    );
    assert_eq!(unit.service.no_new_privs, Some(true));
    assert_eq!(unit.install.alias.as_deref(), Some("example"));
    assert_eq!(unit.install.wanted_by.as_deref(), Some("multi-user.target"));
    assert!(unit.after.is_none() && unit.before.is_none() && unit.wants.is_none());
}

#[test]
fn a_loaded_service_was_never_started() {
    let unit = Unit::from_unitfile("/x/a.service", FULL).unwrap();
    assert_eq!(
        unit.service.snapshot(),
        Runtime { state: CurrState::Stopped, child: None, exit_status: None }
    );
}

#[test]
fn only_description_and_exec_start_are_required() {
    let text = "[Unit]\nDescription=Foo\n[Service]\nExecStart=/bin/true\n";
    let unit = Unit::from_unitfile("/x/foo.service", text).unwrap();
    assert_eq!(unit.description, "Foo");
    assert_eq!(unit.service.exec_start, "/bin/true");
    assert_eq!(unit.documentation, None);
    assert_eq!(unit.service.service_type, None);
    assert_eq!(unit.service.exec_reload, None);
    assert_eq!(unit.service.restart, None);
    assert_eq!(unit.service.capability_bounding_set, None);
    assert_eq!(unit.service.no_new_privs, None);
    assert_eq!(unit.install.alias, None);
    assert_eq!(unit.install.wanted_by, None);
}

#[test]
fn the_policy_defaults_to_on_failure() {
    let absent = "[Unit]\nDescription=Foo\n[Service]\nExecStart=/bin/true\n";
    let unit = Unit::from_unitfile("/x/foo.service", absent).unwrap();
    assert_eq!(unit.service.restart_policy, RestartMethod::OnFailure);
    assert_eq!(unit.service.restart, None);

    let unknown = "[Unit]\nDescription=Foo\n[Service]\nExecStart=/bin/true\nRestart=sometimes\n";
    let unit = Unit::from_unitfile("/x/foo.service", unknown).unwrap();
    assert_eq!(unit.service.restart_policy, RestartMethod::OnFailure);
    assert_eq!(unit.service.restart, None);
}

#[test]
fn the_policy_is_read_from_restart() {
    for (value, policy) in [
        ("Never", RestartMethod::Never),
        ("Always", RestartMethod::Always),
        ("OnFailure", RestartMethod::OnFailure),
    ] {
        let text = format!(
            "[Unit]\nDescription=Foo\n[Service]\nExecStart=/bin/sleep 3600\nRestart={}\n",
            value
        );
        let unit = Unit::from_unitfile("/x/sleep.service", &text).unwrap();
        assert_eq!(unit.service.restart, Some(policy));
        assert_eq!(unit.service.restart_policy, policy);
    }
}

#[test]
fn restart_names_are_matched_exactly() {
    assert_eq!(parse_restart(&Some(String::from("Always"))), Some(RestartMethod::Always));
    assert_eq!(parse_restart(&Some(String::from("Never"))), Some(RestartMethod::Never));
    assert_eq!(parse_restart(&Some(String::from("OnFailure"))), Some(RestartMethod::OnFailure));
    assert_eq!(parse_restart(&Some(String::from("always"))), None);
    assert_eq!(parse_restart(&Some(String::from("on-failure"))), None);
    assert_eq!(parse_restart(&Some(String::from(""))), None);
    assert_eq!(parse_restart(&None), None);
}

#[test]
fn flags_are_true_or_false() {
    assert_eq!(parse_flag(&Some(String::from("true"))), Some(true));
    assert_eq!(parse_flag(&Some(String::from("false"))), Some(false));
    assert_eq!(parse_flag(&Some(String::from("True"))), None);
    assert_eq!(parse_flag(&Some(String::from("yes"))), None);
    assert_eq!(parse_flag(&None), None);
}

#[test]
fn a_file_without_exec_start_is_rejected() {
    let r = Unit::from_unitfile("/x/a.service", "[Unit]\nDescription=Foo\n[Service]\nType=simple\n");
    assert_eq!(r.err(), Some(LoadError::MissingExecStart));
}

#[test]
fn a_missing_description_is_reported_first() {
    let r = Unit::from_unitfile("/x/a.service", "[Install]\nAlias=a\n");
    assert_eq!(r.err(), Some(LoadError::MissingDescription));
    let r = Unit::from_unitfile("/x/a.service", "");
    assert_eq!(r.err(), Some(LoadError::MissingDescription));
}

#[test]
fn keys_are_read_from_their_own_section_only() {
    let text = "[Service]\nDescription=Foo\nExecStart=/bin/true\n";
    assert_eq!(
        Unit::from_unitfile("/x/a.service", text).err(),
        Some(LoadError::MissingDescription)
    );
    let text = "[Unit]\nDescription=Foo\nExecStart=/bin/true\n";
    assert_eq!(
        Unit::from_unitfile("/x/a.service", text).err(),
        Some(LoadError::MissingExecStart)
    );
}

#[test]
fn keys_are_case_sensitive() {
    let text = "[Unit]\ndescription=Foo\n[Service]\nExecStart=/bin/true\n";
    assert_eq!(
        Unit::from_unitfile("/x/a.service", text).err(),
        Some(LoadError::MissingDescription)
    );
}

#[test]
fn a_text_that_is_no_ini_document_is_rejected() {
    let r = Unit::from_unitfile("/x/a.service", "[Unit\nDescription=Foo\n");
    assert_eq!(r.err(), Some(LoadError::Malformed));
    let r = Unit::from_unitfile("/x/a.service", "[Unit]\n=Foo\n");
    assert_eq!(r.err(), Some(LoadError::Malformed));
}

#[test]
fn from_unitfile_agrees_with_the_parsed_document() {
    let conf = Ini::load_from_str(FULL).unwrap();
    let a = Unit::from_ini("/x/a.service", &conf).unwrap();
    let b = Unit::from_unitfile("/x/a.service", FULL).unwrap();
    assert_eq!(a.to_string(), b.to_string());
    assert_eq!(a.install.wanted_by, b.install.wanted_by);
}

#[test]
fn read_takes_the_keys_from_the_document() {
    let conf = Ini::load_from_str(FULL).unwrap();
    let file = UnitFile::read(&conf);
    assert_eq!(file.description.as_deref(), conf.get_from(Some("Unit"), "Description"));
    assert_eq!(file.description.as_deref(), Some("An example daemon"));
    assert_eq!(file.exec_start.as_deref(), Some("/usr/bin/example --foreground"));
    assert_eq!(file.restart.as_deref(), Some("Always"));
    assert_eq!(file.no_new_privs.as_deref(), Some("true"));
    assert_eq!(file.alias.as_deref(), Some("example"));
    assert_eq!(file.wanted_by.as_deref(), Some("multi-user.target"));
    assert_eq!(file.service_type.as_deref(), Some("simple"));
}

#[test]
fn the_first_of_two_values_counts() {
    let text = "[Unit]\nDescription=One\nDescription=Two\n[Service]\nExecStart=/bin/true\n";
    let unit = Unit::from_unitfile("/x/a.service", text).unwrap();
    assert_eq!(unit.description, "One");
}

#[test]
fn from_fields_builds_the_unit_from_plain_values() {
    let mut file = no_fields();
    file.description = Some(String::from("Foo"));
    file.exec_start = Some(String::from("/bin/true"));
    file.restart = Some(String::from("Never"));
    file.no_new_privs = Some(String::from("false"));
    let unit = Unit::from_fields("/etc/foo.service", file).unwrap();
    assert_eq!(unit.path, "/etc/foo.service");
    assert_eq!(unit.description, "Foo");
    assert_eq!(unit.service.exec_start, "/bin/true");
    assert_eq!(unit.service.restart_policy, RestartMethod::Never);
    assert_eq!(unit.service.no_new_privs, Some(false));
    assert_eq!(unit.service.status(), CurrState::Stopped);
}

#[test]
fn from_fields_rejects_missing_keys() {
    assert_eq!(
        Unit::from_fields("/x", no_fields()).err(),
        Some(LoadError::MissingDescription)
    );
    let mut file = no_fields();
    file.description = Some(String::from("Foo"));
    assert_eq!(Unit::from_fields("/x", file).err(), Some(LoadError::MissingExecStart));
    let mut file = no_fields();
    file.exec_start = Some(String::from("/bin/true"));
    assert_eq!(Unit::from_fields("/x", file).err(), Some(LoadError::MissingDescription));
}

#[test]
fn a_command_with_quotes_is_kept_as_written() {
    let text = "[Unit]\nDescription=Trap\n[Service]\nExecStart=/bin/sh -c 'exit 1'\n";
    let unit = Unit::from_unitfile("/x/trap.service", text).unwrap();
    assert_eq!(unit.service.exec_start, "/bin/sh -c 'exit 1'");
}
