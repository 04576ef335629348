//! The lines that a session reports and the messages it fails with.
//!
//! Each line is stated as a sequence of characters and written by a function
//! that is proved to produce exactly that sequence.

use vstd::prelude::*;
use vstd::string::*;
use crate::decimal::{decimal, decimal_text};
use crate::domain::DomainStats;
use crate::script::Routine;
use crate::version::{major_of, minor_of, release_of, HypervisorVersion};

verus! {

pub const DISCONNECTED: &'static str = "Disconnected from hypervisor";

pub const GUEST_FOUND: &'static str = "already defined qemu domain";

pub const GUEST_CLEANED: &'static str = "destroy and undefine qemu domain";

pub const GUEST_MISSING: &'static str = "define qemu domain";

pub const GUEST_DEFINED: &'static str = "Successfully define qemu domain";

pub const STATS_HEADING: &'static str = "Domain info:";

pub const STILL_REFERENCED: &'static str = "Connection is still referenced after close";

/// What is said of a text that cannot be handed to the daemon.
pub const HOLDS_NUL: &'static str = "the text holds a NUL character";

/// The views of a list of texts.
pub open spec fn texts(lines: Seq<String>) -> Seq<Seq<char>> {
    lines.map_values(|s: String| s@)
}

/// "true" or "false".
pub open spec fn truth(flag: bool) -> Seq<char> {
    if flag {
        "true"@
    } else {
        "false"@
    }
}

/// The line that names the connection by the URI that the daemon gave.
pub open spec fn connected_line(uri: Seq<char>) -> Seq<char> {
    "Connected to hypervisor at '"@ + uri + "'"@
}

/// The line with the hypervisor's type and the three parts of its version.
pub open spec fn hypervisor_line(kind: Seq<char>, raw: nat) -> Seq<char> {
    "Hypervisor: '"@ + kind + "' version: "@ + decimal(major_of(raw)) + "."@ + decimal(
        minor_of(raw),
    ) + "."@ + decimal(release_of(raw))
}

/// The line with the two domain counts.
pub open spec fn count_line(active: nat, inactive: nat) -> Seq<char> {
    "There are "@ + decimal(active) + " active and "@ + decimal(inactive)
        + " inactive domains"@
}

/// The line that identifies one domain.
pub open spec fn identity_line(id: nat, name: Seq<char>, active: bool) -> Seq<char> {
    "ID: "@ + decimal(id) + ", Name: "@ + name + ", Active: "@ + truth(active)
}

/// A labelled figure.
pub open spec fn figure_line(label: Seq<char>, value: nat) -> Seq<char> {
    label + decimal(value)
}

/// The lines with the figures of one domain, under their heading.
pub open spec fn stats_lines(stats: DomainStats) -> Seq<Seq<char>> {
    seq![
        STATS_HEADING@,
        figure_line("    State: "@, stats.state as nat),
        figure_line("    Max Memory: "@, stats.max_mem as nat),
        figure_line("    Memory: "@, stats.memory as nat),
        figure_line("    CPUs: "@, stats.nr_virt_cpu as nat),
        figure_line("    CPU Time: "@, stats.cpu_time as nat),
    ]
}

/// What introduces the error when a reporting routine failed.
pub open spec fn routine_prefix(routine: Routine) -> Seq<char> {
    match routine {
        Routine::HypervisorInfo => "Failed to show hypervisor info: "@,
        Routine::Domains => "Failed to show domains info: "@,
    }
}

/// The message for a connection that could not be opened.
pub open spec fn no_connection_message(error: Seq<char>) -> Seq<char> {
    "No connection to hypervisor: "@ + error
}

/// The message for a connection that would not give its URI.
pub open spec fn no_uri_message(error: Seq<char>) -> Seq<char> {
    "Failed to get URI for hypervisor connection: "@ + error
}

/// The message for a reporting routine that failed.
pub open spec fn routine_message(routine: Routine, error: Seq<char>) -> Seq<char> {
    routine_prefix(routine) + error
}

/// The message for a close that failed.
pub open spec fn disconnect_message(error: Seq<char>) -> Seq<char> {
    "Failed to disconnect from hypervisor: "@ + error
}

/// The message for a guest that could not be defined.
pub open spec fn define_message(error: Seq<char>) -> Seq<char> {
    "failed to define_xml: "@ + error
}

/// The message for a guest handle that could not be released.
pub open spec fn free_message(error: Seq<char>) -> Seq<char> {
    "Failed to free domain: "@ + error
}

/// Writes `prefix` followed by `rest`.
pub fn join(prefix: &str, rest: &str) -> (s: String)
    ensures
        s@ == prefix@ + rest@,
{
    let mut s = String::from_str(prefix);
    s.append(rest);
    s
}

/// Writes "true" or "false".
pub fn truth_text(flag: bool) -> (s: &'static str)
    ensures
        s@ == truth(flag),
{
    if flag {
        "true"
    } else {
        "false"
    }
}

/// Writes the line that names the connection.
pub fn connected_text(uri: &str) -> (s: String)
    ensures
        s@ == connected_line(uri@),
{
    let mut s = String::from_str("Connected to hypervisor at '");
    s.append(uri);
    s.append("'");
    s
}

/// Writes the line with the hypervisor's type and version.
pub fn hypervisor_text(kind: &str, raw: u32) -> (s: String)
    ensures
        s@ == hypervisor_line(kind@, raw as nat),
{
    let version = HypervisorVersion::from_raw(raw);
    let major = decimal_text(version.major as u64);
    let minor = decimal_text(version.minor as u64);
    let release = decimal_text(version.release as u64);
    let mut s = String::from_str("Hypervisor: '");
    s.append(kind);
    s.append("' version: ");
    s.append(major.as_str());
    s.append(".");
    s.append(minor.as_str());
    s.append(".");
    s.append(release.as_str());
    s
}

/// Writes the line with the two domain counts.
pub fn count_text(active: u32, inactive: u32) -> (s: String)
    ensures
        s@ == count_line(active as nat, inactive as nat),
{
    let first = decimal_text(active as u64);
    let second = decimal_text(inactive as u64);
    let mut s = String::from_str("There are ");
    s.append(first.as_str());
    s.append(" active and ");
    s.append(second.as_str());
    s.append(" inactive domains");
    s
}

/// Writes the line that identifies one domain.
pub fn identity_text(id: u32, name: &str, active: bool) -> (s: String)
    ensures
        s@ == identity_line(id as nat, name@, active),
{
    let number = decimal_text(id as u64);
    let mut s = String::from_str("ID: ");
    s.append(number.as_str());
    s.append(", Name: ");
    s.append(name);
    s.append(", Active: ");
    s.append(truth_text(active));
    s
}

/// Writes a labelled figure.
pub fn figure_text(label: &str, value: u64) -> (s: String)
    ensures
        s@ == figure_line(label@, value as nat),
{
    let number = decimal_text(value);
    join(label, number.as_str())
}

/// Writes the lines with the figures of one domain.
pub fn stats_texts(stats: &DomainStats) -> (lines: Vec<String>)
    ensures
        texts(lines@) == stats_lines(*stats),
{
    let mut lines: Vec<String> = Vec::new();
    lines.push(String::from_str(STATS_HEADING));
    lines.push(figure_text("    State: ", stats.state as u64));
    lines.push(figure_text("    Max Memory: ", stats.max_mem));
    lines.push(figure_text("    Memory: ", stats.memory));
    lines.push(figure_text("    CPUs: ", stats.nr_virt_cpu as u64));
    lines.push(figure_text("    CPU Time: ", stats.cpu_time));
    assert(texts(lines@) =~= stats_lines(*stats));
    lines
}

/// Writes the message for a reporting routine that failed.
pub fn routine_text(routine: Routine, error: &str) -> (s: String)
    ensures
        s@ == routine_message(routine, error@),
{
    match routine {
        Routine::HypervisorInfo => join("Failed to show hypervisor info: ", error),
        Routine::Domains => join("Failed to show domains info: ", error),
    }
}

/// A list that holds the one line `line`.
pub fn single(line: String) -> (lines: Vec<String>)
    ensures
        texts(lines@) == seq![line@],
{
    let mut lines: Vec<String> = Vec::new();
    lines.push(line);
    assert(texts(lines@) =~= seq![line@]);
    lines
}

/// A list without lines.
pub fn silent() -> (lines: Vec<String>)
    ensures
        texts(lines@) == Seq::<Seq<char>>::empty(),
{
    let lines: Vec<String> = Vec::new();
    assert(texts(lines@) =~= Seq::<Seq<char>>::empty());
    lines
}

} // verus!
