//! The calls to the management daemon, through the `virt` bindings.
//!
//! Nothing in this file is proved: each function states what the bindings'
//! source shows of one of their functions. What a call returns depends on the
//! daemon, so nothing is promised of it beyond the state of the handles.
//! The bindings unwrap a handle's pointer in every method, and the pointer is
//! gone after a successful close or free, so every call asks for a handle
//! that still holds its pointer. They build C strings from the texts they are
//! given, so every text must be free of NUL characters.

use vstd::prelude::*;
use virt::connect::Connect;
use virt::domain::Domain;
use virt::error::Error;
use crate::domain::DomainStats;

verus! {

/// The bindings' connection handle, carried through as it is.
#[verifier::external_type_specification]
#[verifier::external_body]
pub struct ExConnect(virt::connect::Connect);

/// The bindings' domain handle, carried through as it is.
#[verifier::external_type_specification]
#[verifier::external_body]
pub struct ExDomain(virt::domain::Domain);

/// The bindings' error, of which only the text is used.
#[verifier::external_type_specification]
#[verifier::external_body]
pub struct ExError(virt::error::Error);

/// The connection handle still holds its pointer: it was opened and has not
/// been closed.
pub uninterp spec fn connection_open(conn: Connect) -> bool;

/// The domain handle still holds its pointer: it was handed out and has not
/// been freed.
pub uninterp spec fn domain_held(dom: Domain) -> bool;

/// The text that `Display` writes for an error: its level, its message, and
/// its code and domain by name and number. It depends on the error alone.
pub uninterp spec fn error_display(error: Error) -> Seq<char>;

/// `Connect::open` with a URI. A connection that it returns holds its pointer.
#[verifier::external_body]
pub(crate) fn open_connection(uri: &str) -> (r: Result<Connect, Error>)
    requires
        !uri@.contains('\0'),
    ensures
        r matches Ok(conn) ==> connection_open(conn),
{
    Connect::open(Some(uri))
}

/// `Connect::close`. On success the handle gives up its pointer and the
/// number of references left is returned, which is not -1; on failure the
/// handle keeps its pointer.
#[verifier::external_body]
pub(crate) fn close_connection(conn: &mut Connect) -> (r: Result<i32, Error>)
    requires
        connection_open(*old(conn)),
    ensures
        r matches Ok(left) ==> left != -1 && !connection_open(*final(conn)),
        r is Err ==> connection_open(*final(conn)),
{
    conn.close()
}

/// `Connect::get_uri`.
#[verifier::external_body]
pub(crate) fn connection_uri(conn: &Connect) -> (r: Result<String, Error>)
    requires
        connection_open(*conn),
{
    conn.get_uri()
}

/// `Connect::get_type`.
#[verifier::external_body]
pub(crate) fn hypervisor_type(conn: &Connect) -> (r: Result<String, Error>)
    requires
        connection_open(*conn),
{
    conn.get_type()
}

/// `Connect::get_hyp_version`.
#[verifier::external_body]
pub(crate) fn hypervisor_version(conn: &Connect) -> (r: Result<u32, Error>)
    requires
        connection_open(*conn),
{
    conn.get_hyp_version()
}

/// `Connect::num_of_domains`: the number of running domains.
#[verifier::external_body]
pub(crate) fn count_active(conn: &Connect) -> (r: Result<u32, Error>)
    requires
        connection_open(*conn),
{
    conn.num_of_domains()
}

/// `Connect::num_of_defined_domains`: the number of defined domains that are
/// not running.
#[verifier::external_body]
pub(crate) fn count_inactive(conn: &Connect) -> (r: Result<u32, Error>)
    requires
        connection_open(*conn),
{
    conn.num_of_defined_domains()
}

/// The bindings' constant `VIR_CONNECT_LIST_DOMAINS_ACTIVE`, which is 1.
#[verifier::external_body]
pub(crate) fn active_flag() -> (flag: u32)
    ensures
        flag == 1,
{
    virt::sys::VIR_CONNECT_LIST_DOMAINS_ACTIVE
}

/// The bindings' constant `VIR_CONNECT_LIST_DOMAINS_INACTIVE`, which is 2.
#[verifier::external_body]
pub(crate) fn inactive_flag() -> (flag: u32)
    ensures
        flag == 2,
{
    virt::sys::VIR_CONNECT_LIST_DOMAINS_INACTIVE
}

/// `Connect::list_all_domains`. Every handle that it returns holds its pointer.
#[verifier::external_body]
pub(crate) fn list_domains(conn: &Connect, flags: u32) -> (r: Result<Vec<Domain>, Error>)
    requires
        connection_open(*conn),
    ensures
        r matches Ok(doms) ==> forall|i: int| 0 <= i < doms@.len() ==> domain_held(#[trigger] doms@[i]),
{
    conn.list_all_domains(flags)
}

/// `Domain::get_id`: `None` for a domain without an id.
#[verifier::external_body]
pub(crate) fn domain_id(dom: &Domain) -> (r: Option<u32>)
    requires
        domain_held(*dom),
{
    dom.get_id()
}

/// `Domain::get_name`.
#[verifier::external_body]
pub(crate) fn domain_name(dom: &Domain) -> (r: Result<String, Error>)
    requires
        domain_held(*dom),
{
    dom.get_name()
}

/// `Domain::is_active`.
#[verifier::external_body]
pub(crate) fn domain_active(dom: &Domain) -> (r: Result<bool, Error>)
    requires
        domain_held(*dom),
{
    dom.is_active()
}

/// `Domain::get_info`, with the figures copied field by field.
#[verifier::external_body]
pub(crate) fn domain_stats(dom: &Domain) -> (r: Result<DomainStats, Error>)
    requires
        domain_held(*dom),
{
    match dom.get_info() {
        Ok(info) => Ok(DomainStats {
            state: info.state,
            max_mem: info.max_mem,
            memory: info.memory,
            nr_virt_cpu: info.nr_virt_cpu,
            cpu_time: info.cpu_time,
        }),
        Err(error) => Err(error),
    }
}

/// `Domain::lookup_by_name`. A handle that it returns holds its pointer.
#[verifier::external_body]
pub(crate) fn lookup_domain(conn: &Connect, name: &str) -> (r: Result<Domain, Error>)
    requires
        connection_open(*conn),
        !name@.contains('\0'),
    ensures
        r matches Ok(dom) ==> domain_held(dom),
{
    Domain::lookup_by_name(conn, name)
}

/// `Domain::define_xml`. A handle that it returns holds its pointer.
#[verifier::external_body]
pub(crate) fn define_domain(conn: &Connect, xml: &str) -> (r: Result<Domain, Error>)
    requires
        connection_open(*conn),
        !xml@.contains('\0'),
    ensures
        r matches Ok(dom) ==> domain_held(dom),
{
    Domain::define_xml(conn, xml)
}

/// `Domain::destroy`.
#[verifier::external_body]
pub(crate) fn destroy_domain(dom: &Domain) -> (r: Result<(), Error>)
    requires
        domain_held(*dom),
{
    dom.destroy()
}

/// `Domain::undefine`.
#[verifier::external_body]
pub(crate) fn undefine_domain(dom: &Domain) -> (r: Result<(), Error>)
    requires
        domain_held(*dom),
{
    dom.undefine()
}

/// `Domain::free`. On success the handle gives up its pointer; on failure it
/// keeps it.
#[verifier::external_body]
pub(crate) fn free_domain(dom: &mut Domain) -> (r: Result<(), Error>)
    requires
        domain_held(*old(dom)),
    ensures
        r is Ok ==> !domain_held(*final(dom)),
        r is Err ==> domain_held(*final(dom)),
{
    dom.free()
}

/// `Error::last_error`: the error that the daemon recorded last.
#[verifier::external_body]
pub(crate) fn last_error() -> (e: Error)
{
    Error::last_error()
}

/// `to_string` on the error: the text that its `Display` writes.
#[verifier::external_body]
pub(crate) fn error_text(error: &Error) -> (text: String)
    ensures
        text@ == error_display(*error),
{
    error.to_string()
}

} // verus!
