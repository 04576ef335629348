use hypervisor_report::script::{
    list_flags, Call, Exit, Reply, Routine, Step, LIST_ACTIVE, LIST_INACTIVE,
};

fn text(s: &str) -> Reply {
    Reply::Text(String::from(s))
}

fn failed() -> Reply {
    Reply::Failed(String::from("operation failed"))
}

fn failed_info() -> Step {
    Step::LastError { routine: Routine::HypervisorInfo }
}

fn failed_domains() -> Step {
    Step::LastError { routine: Routine::Domains }
}

#[test]
fn listing_flags_combine_active_and_inactive() {
    assert_eq!(LIST_ACTIVE, 1);
    assert_eq!(LIST_INACTIVE, 2);
    assert_eq!(list_flags(), 3);
    assert_eq!(list_flags(), LIST_ACTIVE | LIST_INACTIVE);
}

#[test]
fn every_step_but_the_ends_makes_its_request() {
    assert_eq!(Step::Open.call(), Some(Call::Open));
    assert_eq!(Step::Uri.call(), Some(Call::GetUri));
    assert_eq!(Step::Kind.call(), Some(Call::GetType));
    assert_eq!(Step::Version.call(), Some(Call::GetVersion));
    assert_eq!(Step::CountActive.call(), Some(Call::CountActive));
    assert_eq!(Step::CountInactive.call(), Some(Call::CountInactive));
    assert_eq!(Step::List.call(), Some(Call::ListAll { flags: 3 }));
    assert_eq!(Step::DomainId { index: 4, total: 9 }.call(), Some(Call::DomainId { index: 4 }));
    assert_eq!(
        Step::DomainName { index: 4, total: 9 }.call(),
        Some(Call::DomainName { index: 4 })
    );
    assert_eq!(
        Step::DomainActive { index: 4, total: 9 }.call(),
        Some(Call::DomainActive { index: 4 })
    );
    assert_eq!(
        Step::DomainInfo { index: 4, total: 9 }.call(),
        Some(Call::DomainInfo { index: 4 })
    );
    assert_eq!(Step::Lookup.call(), Some(Call::Lookup));
    assert_eq!(Step::Destroy.call(), Some(Call::Destroy));
    assert_eq!(Step::Undefine.call(), Some(Call::Undefine));
    assert_eq!(Step::Free.call(), Some(Call::Free));
    assert_eq!(Step::Define.call(), Some(Call::Define));
    assert_eq!(failed_info().call(), Some(Call::LastError));
    assert_eq!(Step::Close { exit: Exit::Failed }.call(), Some(Call::Close));
    assert_eq!(Step::Finished.call(), None);
    assert_eq!(Step::Aborted.call(), None);
    assert_eq!(Step::Refused.call(), None);
}

#[test]
fn open_leads_to_uri_or_aborts_without_close() {
    assert_eq!(Step::Open.next(&Reply::Done), Step::Uri);
    assert_eq!(Step::Open.next(&failed()), Step::Aborted);
    assert_eq!(Step::Open.next(&text("not what was asked")), Step::Aborted);
}

#[test]
fn refused_open_ends_as_refused_not_as_aborted() {
    assert_eq!(Step::Open.next(&Reply::Refused), Step::Refused);
    assert!(!Step::Open.accepted(&Reply::Refused));
}

#[test]
fn refusal_anywhere_else_counts_as_a_failure() {
    assert_eq!(Step::Uri.next(&Reply::Refused), Step::Close { exit: Exit::Failed });
    assert_eq!(Step::Kind.next(&Reply::Refused), failed_info());
    assert_eq!(Step::List.next(&Reply::Refused), failed_domains());
    assert_eq!(Step::Lookup.next(&Reply::Refused), Step::Define);
    assert_eq!(Step::Define.next(&Reply::Refused), Step::Close { exit: Exit::Failed });
    assert_eq!(Step::Close { exit: Exit::Defined }.next(&Reply::Refused), Step::Aborted);
}

#[test]
fn failed_uri_closes_at_once() {
    assert_eq!(Step::Uri.next(&text("qemu:///system")), Step::Kind);
    assert_eq!(Step::Uri.next(&failed()), Step::Close { exit: Exit::Failed });
}

#[test]
fn failed_info_query_fetches_last_error() {
    assert_eq!(Step::Kind.next(&text("QEMU")), Step::Version);
    assert_eq!(Step::Kind.next(&failed()), failed_info());
    assert_eq!(Step::Version.next(&Reply::Number(2_008_000)), Step::CountActive);
    assert_eq!(Step::Version.next(&failed()), failed_info());
    assert_eq!(failed_info().next(&text("boom")), Step::Close { exit: Exit::Failed });
    assert_eq!(failed_info().next(&failed()), Step::Close { exit: Exit::Failed });
}

#[test]
fn failed_domain_query_fetches_last_error() {
    assert_eq!(Step::CountActive.next(&Reply::Number(1)), Step::CountInactive);
    assert_eq!(Step::CountActive.next(&failed()), failed_domains());
    assert_eq!(Step::CountInactive.next(&Reply::Number(0)), Step::List);
    assert_eq!(Step::CountInactive.next(&failed()), failed_domains());
    assert_eq!(Step::List.next(&failed()), failed_domains());
    let at = Step::DomainId { index: 0, total: 2 };
    assert_eq!(at.next(&failed()), failed_domains());
    assert_eq!(Step::DomainName { index: 0, total: 2 }.next(&failed()), failed_domains());
    assert_eq!(Step::DomainActive { index: 0, total: 2 }.next(&failed()), failed_domains());
    assert_eq!(Step::DomainInfo { index: 0, total: 2 }.next(&failed()), failed_domains());
    assert_eq!(failed_domains().next(&text("boom")), Step::Close { exit: Exit::Failed });
}

#[test]
fn empty_listing_goes_straight_to_the_lookup() {
    assert_eq!(Step::List.next(&Reply::Listed(0)), Step::Lookup);
}

#[test]
fn listing_walks_every_domain_in_four_queries() {
    let mut step = Step::List.next(&Reply::Listed(3));
    let stats = hypervisor_report::domain::DomainStats {
        state: 1,
        max_mem: 2,
        memory: 3,
        nr_virt_cpu: 4,
        cpu_time: 5,
    };
    for index in 0..3usize {
        assert_eq!(step, Step::DomainId { index, total: 3 });
        step = step.next(&Reply::Number(7));
        assert_eq!(step, Step::DomainName { index, total: 3 });
        step = step.next(&text("vm"));
        assert_eq!(step, Step::DomainActive { index, total: 3 });
        step = step.next(&Reply::Flag(false));
        assert_eq!(step, Step::DomainInfo { index, total: 3 });
        step = step.next(&Reply::Stats(stats));
    }
    assert_eq!(step, Step::Lookup);
}

#[test]
fn domain_without_id_is_no_failure() {
    let at = Step::DomainId { index: 1, total: 2 };
    assert_eq!(at.next(&Reply::Absent), Step::DomainName { index: 1, total: 2 });
    assert!(at.accepted(&Reply::Absent));
    assert!(at.accepted(&Reply::Number(0)));
    assert!(!at.accepted(&Reply::Done));
}

#[test]
fn last_domain_ends_the_listing_even_at_the_largest_index() {
    let at = Step::DomainInfo { index: usize::MAX - 1, total: usize::MAX };
    let stats = hypervisor_report::domain::DomainStats {
        state: 0,
        max_mem: 0,
        memory: 0,
        nr_virt_cpu: 0,
        cpu_time: 0,
    };
    assert_eq!(at.next(&Reply::Stats(stats)), Step::Lookup);
    let odd = Step::DomainInfo { index: usize::MAX, total: 0 };
    assert_eq!(odd.next(&Reply::Stats(stats)), Step::Lookup);
}

#[test]
fn found_guest_is_released_not_defined() {
    assert_eq!(Step::Lookup.next(&Reply::Done), Step::Destroy);
    assert_eq!(Step::Destroy.next(&Reply::Done), Step::Undefine);
    assert_eq!(Step::Destroy.next(&failed()), Step::Undefine);
    assert_eq!(Step::Undefine.next(&Reply::Done), Step::Free);
    assert_eq!(Step::Undefine.next(&failed()), Step::Free);
    assert_eq!(Step::Free.next(&Reply::Done), Step::Close { exit: Exit::Cleaned });
    assert_eq!(Step::Free.next(&failed()), Step::Close { exit: Exit::Failed });
}

#[test]
fn missing_guest_is_defined() {
    assert_eq!(Step::Lookup.next(&failed()), Step::Define);
    assert_eq!(Step::Define.next(&Reply::Done), Step::Close { exit: Exit::Defined });
    assert_eq!(Step::Define.next(&failed()), Step::Close { exit: Exit::Failed });
}

#[test]
fn clean_close_must_leave_no_reference() {
    let at = Step::Close { exit: Exit::Cleaned };
    assert_eq!(at.next(&Reply::Closed(0)), Step::Finished);
    assert_eq!(at.next(&Reply::Closed(1)), Step::Aborted);
    assert_eq!(at.next(&failed()), Step::Aborted);
    assert!(at.accepted(&Reply::Closed(0)));
    assert!(!at.accepted(&Reply::Closed(2)));
}

#[test]
fn close_after_define_accepts_any_count() {
    let at = Step::Close { exit: Exit::Defined };
    assert_eq!(at.next(&Reply::Closed(0)), Step::Finished);
    assert_eq!(at.next(&Reply::Closed(3)), Step::Finished);
    assert_eq!(at.next(&failed()), Step::Aborted);
}

#[test]
fn close_after_failure_always_aborts() {
    let at = Step::Close { exit: Exit::Failed };
    assert_eq!(at.next(&Reply::Closed(0)), Step::Aborted);
    assert_eq!(at.next(&Reply::Closed(1)), Step::Aborted);
    assert_eq!(at.next(&failed()), Step::Aborted);
}

#[test]
fn ended_sessions_stay_ended() {
    for reply in [Reply::Done, Reply::Closed(0), failed(), text("x"), Reply::Refused] {
        assert_eq!(Step::Finished.next(&reply), Step::Finished);
        assert_eq!(Step::Aborted.next(&reply), Step::Aborted);
        assert_eq!(Step::Refused.next(&reply), Step::Refused);
        assert!(!Step::Finished.accepted(&reply));
        assert!(!Step::Refused.accepted(&reply));
    }
}
