//! The registry as a JSON document.
//!
//! The document is `{"units":[...]}`, with one object per unit in the order of
//! the registry. A unit renders its path, its description, its documentation,
//! its service and how it is installed; a service renders its definition, its
//! phase and its restart policy, and never its child or its last exit. Strings
//! are quoted and escaped by `serde_json`.

use crate::lifecycle::CurrState;
use crate::units::{AllUnits, Install, RestartMethod, Service, Unit};
use vstd::prelude::*;
use vstd::string::StringExecFns;

verus! {

/// The JSON string literal that `serde_json::to_string` writes for a string:
/// the text in double quotes, with what JSON asks for escaped.
pub uninterp spec fn json_string(s: Seq<char>) -> Seq<char>;

/// `serde_json::to_string` on a string slice gives its JSON string literal. It
/// cannot fail there: no map key and no serializer of its own is involved.
#[verifier::external_body]
fn quote(s: &str) -> (out: String)
    ensures
        out@ == json_string(s@),
{
    serde_json::to_string(s).unwrap_or_default()
}

/// An optional string: its literal, or `null`.
pub open spec fn json_opt_string(s: Option<String>) -> Seq<char> {
    match s {
        Some(t) => json_string(t@),
        None => "null"@,
    }
}

/// An optional truth value: `true`, `false` or `null`.
pub open spec fn json_opt_bool(b: Option<bool>) -> Seq<char> {
    match b {
        Some(true) => "true"@,
        Some(false) => "false"@,
        None => "null"@,
    }
}

/// A restart policy: its name as a string.
pub open spec fn json_restart(m: RestartMethod) -> Seq<char> {
    match m {
        RestartMethod::OnFailure => "\"OnFailure\""@,
        RestartMethod::Always => "\"Always\""@,
        RestartMethod::Never => "\"Never\""@,
    }
}

/// An optional restart policy: its name, or `null`.
pub open spec fn json_opt_restart(m: Option<RestartMethod>) -> Seq<char> {
    match m {
        Some(p) => json_restart(p),
        None => "null"@,
    }
}

/// A phase: its name as a string.
pub open spec fn json_state(s: CurrState) -> Seq<char> {
    match s {
        CurrState::Stopping => "\"Stopping\""@,
        CurrState::Stopped => "\"Stopped\""@,
        CurrState::Starting => "\"Starting\""@,
        CurrState::Running => "\"Running\""@,
        CurrState::Failed => "\"Failed\""@,
        CurrState::Restarting => "\"Restarting\""@,
    }
}

/// A service as a JSON object.
pub open spec fn json_service(s: Service) -> Seq<char> {
    "{\"service_type\":"@ + json_opt_string(s.service_type) + ",\"exec_start\":"@ + json_string(
        s.exec_start@,
    ) + ",\"exec_reload\":"@ + json_opt_string(s.exec_reload) + ",\"restart\":"@
        + json_opt_restart(s.restart) + ",\"capability_bounding_set\":"@ + json_opt_string(
        s.capability_bounding_set,
    ) + ",\"no_new_privs\":"@ + json_opt_bool(s.no_new_privs) + ",\"current_state\":"@
        + json_state(s.runtime@.state) + ",\"restart_policy\":"@ + json_restart(s.restart_policy)
        + "}"@
}

/// How a unit is installed, as a JSON object.
pub open spec fn json_install(i: Install) -> Seq<char> {
    "{\"wanted_by\":"@ + json_opt_string(i.wanted_by) + ",\"alias\":"@ + json_opt_string(i.alias)
        + "}"@
}

/// A unit as a JSON object.
pub open spec fn json_unit(u: Unit) -> Seq<char> {
    "{\"path\":"@ + json_string(u.path@) + ",\"description\":"@ + json_string(u.description@)
        + ",\"documentation\":"@ + json_opt_string(u.documentation) + ",\"service\":"@
        + json_service(u.service) + ",\"install\":"@ + json_install(u.install) + "}"@
}

/// The first `n` units, separated by commas.
pub open spec fn json_list(units: Seq<Unit>, n: int) -> Seq<char>
    decreases n,
{
    if n <= 0 {
        Seq::empty()
    } else if n == 1 {
        json_unit(units[0])
    } else {
        json_list(units, n - 1) + ","@ + json_unit(units[n - 1])
    }
}

/// The registry as a JSON document.
pub open spec fn json_registry(units: Seq<Unit>) -> Seq<char> {
    "{\"units\":["@ + json_list(units, units.len() as int) + "]}"@
}

fn write_opt_string(out: &mut String, s: &Option<String>)
    ensures
        final(out)@ == old(out)@ + json_opt_string(*s),
{
    match s {
        Some(t) => {
            let q = quote(t.as_str());
            out.append(q.as_str());
        },
        None => {
            out.append("null");
        },
    }
}

fn write_opt_bool(out: &mut String, b: Option<bool>)
    ensures
        final(out)@ == old(out)@ + json_opt_bool(b),
{
    match b {
        Some(true) => out.append("true"),
        Some(false) => out.append("false"),
        None => out.append("null"),
    }
}

fn write_restart(out: &mut String, m: RestartMethod)
    ensures
        final(out)@ == old(out)@ + json_restart(m),
{
    match m {
        RestartMethod::OnFailure => out.append("\"OnFailure\""),
        RestartMethod::Always => out.append("\"Always\""),
        RestartMethod::Never => out.append("\"Never\""),
    }
}

fn write_opt_restart(out: &mut String, m: Option<RestartMethod>)
    ensures
        final(out)@ == old(out)@ + json_opt_restart(m),
{
    match m {
        Some(p) => write_restart(out, p),
        None => out.append("null"),
    }
}

fn write_state(out: &mut String, s: CurrState)
    ensures
        final(out)@ == old(out)@ + json_state(s),
{
    match s {
        CurrState::Stopping => out.append("\"Stopping\""),
        CurrState::Stopped => out.append("\"Stopped\""),
        CurrState::Starting => out.append("\"Starting\""),
        CurrState::Running => out.append("\"Running\""),
        CurrState::Failed => out.append("\"Failed\""),
        CurrState::Restarting => out.append("\"Restarting\""),
    }
}

fn write_service(out: &mut String, s: &Service)
    ensures
        final(out)@ == old(out)@ + json_service(*s),
{
    out.append("{\"service_type\":");
    write_opt_string(out, &s.service_type);
    out.append(",\"exec_start\":");
    let exec_start = quote(s.exec_start.as_str());
    out.append(exec_start.as_str());
    out.append(",\"exec_reload\":");
    write_opt_string(out, &s.exec_reload);
    out.append(",\"restart\":");
    write_opt_restart(out, s.restart);
    out.append(",\"capability_bounding_set\":");
    write_opt_string(out, &s.capability_bounding_set);
    out.append(",\"no_new_privs\":");
    write_opt_bool(out, s.no_new_privs);
    out.append(",\"current_state\":");
    write_state(out, s.status());
    out.append(",\"restart_policy\":");
    write_restart(out, s.restart_policy);
    out.append("}");
    assert(out@ =~= old(out)@ + json_service(*s));
}

fn write_install(out: &mut String, i: &Install)
    ensures
        final(out)@ == old(out)@ + json_install(*i),
{
    out.append("{\"wanted_by\":");
    write_opt_string(out, &i.wanted_by);
    out.append(",\"alias\":");
    write_opt_string(out, &i.alias);
    out.append("}");
    assert(out@ =~= old(out)@ + json_install(*i));
}

fn write_unit(out: &mut String, u: &Unit)
    ensures
        final(out)@ == old(out)@ + json_unit(*u),
{
    out.append("{\"path\":");
    let path = quote(u.path.as_str());
    out.append(path.as_str());
    out.append(",\"description\":");
    let description = quote(u.description.as_str());
    out.append(description.as_str());
    out.append(",\"documentation\":");
    write_opt_string(out, &u.documentation);
    out.append(",\"service\":");
    write_service(out, &u.service);
    out.append(",\"install\":");
    write_install(out, &u.install);
    out.append("}");
    assert(out@ =~= old(out)@ + json_unit(*u));
}

impl Unit {
    /// This unit as a JSON object.
    pub fn to_string(&self) -> (out: String)
        ensures
            out@ == json_unit(*self),
    {
        let mut out = String::new();
        write_unit(&mut out, self);
        assert(out@ =~= json_unit(*self));
        out
    }
}

impl AllUnits {
    /// The registry as a JSON document, `{"units":[...]}`.
    pub fn to_string(&self) -> (out: String)
        ensures
            out@ == json_registry(self@),
    {
        let mut out = String::new();
        out.append("{\"units\":[");
        let n = self.len();
        let mut i: usize = 0;
        while i < n
            invariant
                n == self@.len(),
                i <= n,
                out@ == "{\"units\":["@ + json_list(self@, i as int),
            decreases n - i,
        {
            if i > 0 {
                out.append(",");
            }
            match self.get(i) {
                Some(unit) => {
                    write_unit(&mut out, unit);
                },
                None => {},
            }
            i += 1;
            assert(out@ =~= "{\"units\":["@ + json_list(self@, i as int));
        }
        out.append("]}");
        out
    }
}

} // verus!
