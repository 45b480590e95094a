//! Reading a unit from the text of its file.
//!
//! A unit file is an INI document with the sections `[Unit]`, `[Service]` and
//! `[Install]`. The document is parsed by the `ini` crate; which keys are read,
//! which of them are required and what they mean is decided here.

use crate::lifecycle::Runtime;
use crate::text::same_text;
use crate::units::{Install, RestartMethod, Service, Unit};
use ini::Ini;
use vstd::prelude::*;

verus! {

/// A parsed INI document of the `ini` crate.
#[verifier::external_type_specification]
#[verifier::external_body]
pub struct ExIni(ini::Ini);

/// The error of the `ini` crate's parser.
#[verifier::external_type_specification]
#[verifier::external_body]
pub struct ExParseError(ini::ParseError);

/// What a parsed document holds: for a section's name and a key, the value that
/// `Ini::get_from` returns for them.
pub uninterp spec fn ini_entries(conf: Ini) -> Map<(Seq<char>, Seq<char>), Seq<char>>;

/// What `Ini::load_from_str` makes of a text: the entries of the document, or
/// nothing where the text is no INI document.
pub uninterp spec fn ini_parse(text: Seq<char>) -> Option<Map<(Seq<char>, Seq<char>), Seq<char>>>;

/// `Ini::load_from_str` parses a text with the crate's default options. Whether
/// it succeeds and what the document then holds depend on the text alone.
pub assume_specification[ ini::Ini::load_from_str ](buf: &str) -> (r: Result<
    ini::Ini,
    ini::ParseError,
>)
    ensures
        match r {
            Ok(conf) => ini_parse(buf@) == Some(ini_entries(conf)),
            Err(_) => ini_parse(buf@) is None,
        },
;

/// `Ini::get_from` looks a key up in a named section and returns the first
/// value it has there, or nothing where the section or the key is missing.
#[verifier::external_body]
fn ini_get(conf: &Ini, section: &str, key: &str) -> (value: Option<String>)
    ensures
        match value {
            Some(v) => ini_entries(*conf).contains_key((section@, key@)) && ini_entries(
                *conf,
            )[(section@, key@)] == v@,
            None => !ini_entries(*conf).contains_key((section@, key@)),
        },
{
    match conf.get_from(Some(section), key) {
        Some(v) => Some(v.to_string()),
        None => None,
    }
}

/// Why a unit file was rejected.
#[derive(Debug, Clone, Copy, PartialEq, Eq, Structural)]
pub enum LoadError {
    /// The text is no INI document.
    Malformed,
    /// `[Unit]` has no `Description`.
    MissingDescription,
    /// `[Service]` has no `ExecStart`.
    MissingExecStart,
}

/// The characters of an optional string.
pub open spec fn opt_text(s: Option<String>) -> Option<Seq<char>> {
    match s {
        Some(t) => Some(t@),
        None => None,
    }
}

/// The keys of a unit file that are read, each with its value where the file
/// has it.
pub struct UnitFields {
    pub description: Option<Seq<char>>,
    pub documentation: Option<Seq<char>>,
    pub service_type: Option<Seq<char>>,
    pub exec_start: Option<Seq<char>>,
    pub exec_reload: Option<Seq<char>>,
    pub restart: Option<Seq<char>>,
    pub capability_bounding_set: Option<Seq<char>>,
    pub no_new_privs: Option<Seq<char>>,
    pub alias: Option<Seq<char>>,
    pub wanted_by: Option<Seq<char>>,
}

/// The values of a unit file's keys, as strings.
#[derive(Debug)]
pub struct UnitFile {
    pub description: Option<String>,
    pub documentation: Option<String>,
    pub service_type: Option<String>,
    pub exec_start: Option<String>,
    pub exec_reload: Option<String>,
    pub restart: Option<String>,
    pub capability_bounding_set: Option<String>,
    pub no_new_privs: Option<String>,
    pub alias: Option<String>,
    pub wanted_by: Option<String>,
}

impl View for UnitFile {
    type V = UnitFields;

    open spec fn view(&self) -> UnitFields {
        UnitFields {
            description: opt_text(self.description),
            documentation: opt_text(self.documentation),
            service_type: opt_text(self.service_type),
            exec_start: opt_text(self.exec_start),
            exec_reload: opt_text(self.exec_reload),
            restart: opt_text(self.restart),
            capability_bounding_set: opt_text(self.capability_bounding_set),
            no_new_privs: opt_text(self.no_new_privs),
            alias: opt_text(self.alias),
            wanted_by: opt_text(self.wanted_by),
        }
    }
}

/// The value of `key` in `section`, if the document has it.
pub open spec fn entry(
    entries: Map<(Seq<char>, Seq<char>), Seq<char>>,
    section: Seq<char>,
    key: Seq<char>,
) -> Option<Seq<char>> {
    if entries.contains_key((section, key)) {
        Some(entries[(section, key)])
    } else {
        None
    }
}

/// The keys that are read from a document, and the sections they are read from.
pub open spec fn fields_of(entries: Map<(Seq<char>, Seq<char>), Seq<char>>) -> UnitFields {
    UnitFields {
        description: entry(entries, "Unit"@, "Description"@),
        documentation: entry(entries, "Unit"@, "Documentation"@),
        service_type: entry(entries, "Service"@, "Type"@),
        exec_start: entry(entries, "Service"@, "ExecStart"@),
        exec_reload: entry(entries, "Service"@, "ExecReload"@),
        restart: entry(entries, "Service"@, "Restart"@),
        capability_bounding_set: entry(entries, "Service"@, "CapabilityBoundingSet"@),
        no_new_privs: entry(entries, "Service"@, "NoNewPrivs"@),
        alias: entry(entries, "Install"@, "Alias"@),
        wanted_by: entry(entries, "Install"@, "WantedBy"@),
    }
}

/// The restart policy that a value of `Restart` names: one of `Always`,
/// `Never` and `OnFailure`, written exactly so.
pub open spec fn restart_named(value: Option<Seq<char>>) -> Option<RestartMethod> {
    match value {
        Some(v) => if v == "Always"@ {
            Some(RestartMethod::Always)
        } else if v == "Never"@ {
            Some(RestartMethod::Never)
        } else if v == "OnFailure"@ {
            Some(RestartMethod::OnFailure)
        } else {
            None
        },
        None => None,
    }
}

/// The policy in force: the one that was named, or `OnFailure`.
pub open spec fn policy_in_force(named: Option<RestartMethod>) -> RestartMethod {
    match named {
        Some(p) => p,
        None => RestartMethod::OnFailure,
    }
}

/// The truth value that a value of `NoNewPrivs` names: `true` or `false`,
/// written exactly so.
pub open spec fn flag_named(value: Option<Seq<char>>) -> Option<bool> {
    match value {
        Some(v) => if v == "true"@ {
            Some(true)
        } else if v == "false"@ {
            Some(false)
        } else {
            None
        },
        None => None,
    }
}

/// The required key that is missing, the description first.
pub open spec fn missing_key(fields: UnitFields) -> Option<LoadError> {
    if fields.description is None {
        Some(LoadError::MissingDescription)
    } else if fields.exec_start is None {
        Some(LoadError::MissingExecStart)
    } else {
        None
    }
}

/// `unit` is the unit that the file at `path` with these keys describes: it
/// carries every key, its policy is the one in force, and its service was never
/// started.
pub open spec fn describes(unit: Unit, path: Seq<char>, fields: UnitFields) -> bool {
    &&& unit.path@ == path
    &&& Some(unit.description@) == fields.description
    &&& opt_text(unit.documentation) == fields.documentation
    &&& opt_text(unit.service.service_type) == fields.service_type
    &&& Some(unit.service.exec_start@) == fields.exec_start
    &&& opt_text(unit.service.exec_reload) == fields.exec_reload
    &&& unit.service.restart == restart_named(fields.restart)
    &&& unit.service.restart_policy == policy_in_force(restart_named(fields.restart))
    &&& opt_text(unit.service.capability_bounding_set) == fields.capability_bounding_set
    &&& unit.service.no_new_privs == flag_named(fields.no_new_privs)
    &&& unit.service.runtime@ == Runtime::initial()
    &&& opt_text(unit.install.alias) == fields.alias
    &&& opt_text(unit.install.wanted_by) == fields.wanted_by
    &&& unit.after is None
    &&& unit.before is None
    &&& unit.wants is None
}

/// The restart policy that `value` names.
pub fn parse_restart(value: &Option<String>) -> (named: Option<RestartMethod>)
    ensures
        named == restart_named(opt_text(*value)),
{
    match value {
        Some(v) => {
            if same_text(v.as_str(), "Always") {
                Some(RestartMethod::Always)
            } else if same_text(v.as_str(), "Never") {
                Some(RestartMethod::Never)
            } else if same_text(v.as_str(), "OnFailure") {
                Some(RestartMethod::OnFailure)
            } else {
                None
            }
        },
        None => None,
    }
}

/// The truth value that `value` names.
pub fn parse_flag(value: &Option<String>) -> (named: Option<bool>)
    ensures
        named == flag_named(opt_text(*value)),
{
    match value {
        Some(v) => {
            if same_text(v.as_str(), "true") {
                Some(true)
            } else if same_text(v.as_str(), "false") {
                Some(false)
            } else {
                None
            }
        },
        None => None,
    }
}

impl UnitFile {
    /// Reads the keys of a unit file from a parsed document.
    pub fn read(conf: &Ini) -> (file: UnitFile)
        ensures
            file@ == fields_of(ini_entries(*conf)),
    {
        UnitFile {
            description: ini_get(conf, "Unit", "Description"),
            documentation: ini_get(conf, "Unit", "Documentation"),
            service_type: ini_get(conf, "Service", "Type"),
            exec_start: ini_get(conf, "Service", "ExecStart"),
            exec_reload: ini_get(conf, "Service", "ExecReload"),
            restart: ini_get(conf, "Service", "Restart"),
            capability_bounding_set: ini_get(conf, "Service", "CapabilityBoundingSet"),
            no_new_privs: ini_get(conf, "Service", "NoNewPrivs"),
            alias: ini_get(conf, "Install", "Alias"),
            wanted_by: ini_get(conf, "Install", "WantedBy"),
        }
    }
}

impl Unit {
    /// The unit that the file at `path` with these keys describes. A file without
    /// `Description` or without `ExecStart` is rejected; every other key is
    /// optional.
    pub fn from_fields(path: &str, file: UnitFile) -> (r: Result<Unit, LoadError>)
        ensures
            match r {
                Ok(unit) => missing_key(file@) is None && describes(unit, path@, file@),
                Err(e) => missing_key(file@) == Some(e),
            },
    {
        let named = parse_restart(&file.restart);
        let no_new_privs = parse_flag(&file.no_new_privs);
        let description = match file.description {
            Some(d) => d,
            None => {
                return Err(LoadError::MissingDescription);
            },
        };
        let exec_start = match file.exec_start {
            Some(e) => e,
            None => {
                return Err(LoadError::MissingExecStart);
            },
        };
        let mut service = Service::new(exec_start);
        service.service_type = file.service_type;
        service.exec_reload = file.exec_reload;
        service.restart = named;
        service.restart_policy =
        match named {
            Some(p) => p,
            None => RestartMethod::OnFailure,
        };
        service.capability_bounding_set = file.capability_bounding_set;
        service.no_new_privs = no_new_privs;
        let install = Install { wanted_by: file.wanted_by, alias: file.alias };
        Ok(Unit::new(path.to_owned(), description, file.documentation, service, install))
    }

    /// The unit that a parsed document describes.
    pub fn from_ini(path: &str, conf: &Ini) -> (r: Result<Unit, LoadError>)
        ensures
            match r {
                Ok(unit) => {
                    &&& missing_key(fields_of(ini_entries(*conf))) is None
                    &&& describes(unit, path@, fields_of(ini_entries(*conf)))
                },
                Err(e) => missing_key(fields_of(ini_entries(*conf))) == Some(e),
            },
    {
        Unit::from_fields(path, UnitFile::read(conf))
    }

    /// Reads a unit from the text of the unit file at `path`. The text is
    /// rejected where it is no INI document or lacks a required key.
    pub fn from_unitfile(path: &str, text: &str) -> (r: Result<Unit, LoadError>)
        ensures
            match ini_parse(text@) {
                None => r == Err::<Unit, LoadError>(LoadError::Malformed),
                Some(entries) => match r {
                    Ok(unit) => {
                        &&& missing_key(fields_of(entries)) is None
                        &&& describes(unit, path@, fields_of(entries))
                    },
                    Err(e) => missing_key(fields_of(entries)) == Some(e),
                },
            },
    {
        match Ini::load_from_str(text) {
            Ok(conf) => Unit::from_ini(path, &conf),
            Err(_) => Err(LoadError::Malformed),
        }
    }
}

} // verus!
