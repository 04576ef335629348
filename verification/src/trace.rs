//! What holds of every session, whatever the daemon answers.
//!
//! A session is a sequence of replies; the steps and requests it goes through
//! follow from them. The laws below quantify over all such sequences.

use vstd::prelude::*;
use crate::script::{
    accepts, call_of, fits, lemma_phase_step, lingering, listing_flags, next_step, phase, Call,
    Exit, Reply, Step,
};
use crate::script::{LIST_ACTIVE, LIST_INACTIVE};

verus! {

/// The step a session stands in once the first `n` of `replies` have come back.
pub open spec fn step_at(replies: Seq<Reply>, n: nat) -> Step
    decreases n,
{
    if n == 0 {
        Step::Open
    } else {
        next_step(step_at(replies, (n - 1) as nat), replies[n - 1])
    }
}

/// The request that is answered by `replies[n]`; none once the session has ended.
pub open spec fn call_at(replies: Seq<Reply>, n: nat) -> Option<Call> {
    call_of(step_at(replies, n))
}

/// Every reply answers a request and is one that its request can get.
pub open spec fn answers_in_kind(replies: Seq<Reply>) -> bool {
    forall|i: int|
        0 <= i < replies.len() ==> (call_at(replies, i as nat) matches Some(call) && fits(
            call,
            #[trigger] replies[i],
        ))
}

/// The steps of a session depend only on the replies that have come back.
pub proof fn lemma_steps_of_prefix(a: Seq<Reply>, b: Seq<Reply>, n: nat)
    requires
        n <= a.len(),
        n <= b.len(),
        forall|i: int| 0 <= i < n ==> a[i] == b[i],
    ensures
        step_at(a, n) == step_at(b, n),
    decreases n,
{
    if n > 0 {
        lemma_steps_of_prefix(a, b, (n - 1) as nat);
    }
}

/// One more reply that fits the pending request keeps a session answered in
/// kind.
pub proof fn lemma_answers_extend(replies: Seq<Reply>, reply: Reply)
    requires
        answers_in_kind(replies),
        call_at(replies, replies.len()) matches Some(call) && fits(call, reply),
    ensures
        answers_in_kind(replies.push(reply)),
{
    let longer = replies.push(reply);
    assert forall|i: int| 0 <= i < longer.len() implies (call_at(longer, i as nat) matches Some(
        call,
    ) && fits(call, #[trigger] longer[i])) by {
        lemma_steps_of_prefix(replies, longer, i as nat);
        if i < replies.len() {
            assert(longer[i] == replies[i]);
        }
    }
}

/// No sequence of replies moves the session backwards.
pub proof fn lemma_phase_monotone(replies: Seq<Reply>, i: nat, j: nat)
    requires
        i <= j,
    ensures
        phase(step_at(replies, i)) <= phase(step_at(replies, j)),
    decreases j,
{
    if i < j {
        lemma_phase_monotone(replies, i, (j - 1) as nat);
        lemma_phase_step(step_at(replies, (j - 1) as nat), replies[j - 1]);
    }
}

/// Outside the listing, every later step stands at a later position.
pub proof fn lemma_phase_strict(replies: Seq<Reply>, i: nat, j: nat)
    requires
        i < j,
        !lingering(step_at(replies, i)),
    ensures
        phase(step_at(replies, i)) < phase(step_at(replies, j)),
{
    lemma_phase_step(step_at(replies, i), replies[i as int]);
    lemma_phase_monotone(replies, i + 1, j);
}

/// Once ended, a session stays as it ended and asks nothing more.
pub proof fn lemma_end_is_final(replies: Seq<Reply>, i: nat, j: nat)
    requires
        i <= j,
        step_at(replies, i).terminal(),
    ensures
        step_at(replies, j) == step_at(replies, i),
        call_at(replies, j) is None,
    decreases j,
{
    if i < j {
        lemma_end_is_final(replies, i, (j - 1) as nat);
    }
}

/// The domains are enumerated by one call, which asks for running and
/// defined domains together: every listing request carries both flags, and no
/// session makes a second one.
pub proof fn law_single_combined_listing(replies: Seq<Reply>, i: nat, j: nat)
    requires
        call_at(replies, i) matches Some(Call::ListAll { .. }),
    ensures
        call_at(replies, i) == Some(Call::ListAll { flags: listing_flags() }),
        listing_flags() == LIST_ACTIVE | LIST_INACTIVE,
        listing_flags() == 3,
        call_at(replies, j) matches Some(Call::ListAll { .. }) ==> i == j,
{
    assert(1u32 | 2u32 == 3u32) by (bit_vector);
    assert(step_at(replies, i) is List);
    if call_at(replies, j) matches Some(Call::ListAll { .. }) {
        assert(step_at(replies, j) is List);
        if i < j {
            lemma_phase_strict(replies, i, j);
        } else if j < i {
            lemma_phase_strict(replies, j, i);
        }
    }
}

/// Every listed domain is described, in the order of the listing, and how
/// many there are is what the listing call gave, whatever the two counts
/// said before it: once the queries of the first `k` domains have succeeded,
/// the session asks domain `k` for its id, or looks the guest up when `k` is
/// the number of domains listed.
pub proof fn law_listing_visits_every_domain(replies: Seq<Reply>, at: nat, total: usize, k: nat)
    requires
        at + 4 * k < replies.len(),
        step_at(replies, at) is List,
        replies[at as int] == Reply::Listed(total),
        k <= total,
        forall|j: nat| at < j <= at + 4 * k ==> accepts(#[trigger] step_at(replies, j), replies[j as int]),
    ensures
        k < total ==> step_at(replies, at + 1 + 4 * k) == (Step::DomainId {
            index: k as usize,
            total,
        }),
        k == total ==> step_at(replies, at + 1 + 4 * k) is Lookup,
    decreases k,
{
    if k == 0 {
        assert(step_at(replies, at + 1) == next_step(step_at(replies, at), replies[at as int]));
    } else {
        let done = (k - 1) as nat;
        law_listing_visits_every_domain(replies, at, total, done);
        let p = at + 1 + 4 * done;
        assert(step_at(replies, p) == (Step::DomainId { index: done as usize, total }));
        assert(accepts(step_at(replies, p), replies[p as int]));
        assert(step_at(replies, p + 1) == (Step::DomainName { index: done as usize, total }));
        assert(accepts(step_at(replies, p + 1), replies[(p + 1) as int]));
        assert(step_at(replies, p + 2) == (Step::DomainActive { index: done as usize, total }));
        assert(accepts(step_at(replies, p + 2), replies[(p + 2) as int]));
        assert(step_at(replies, p + 3) == (Step::DomainInfo { index: done as usize, total }));
        assert(accepts(step_at(replies, p + 3), replies[(p + 3) as int]));
        assert(step_at(replies, p + 4) == next_step(step_at(replies, p + 3), replies[(p + 3) as int]));
    }
}

/// A guest that was found is never defined: after a lookup that succeeded,
/// and before it, no request is a define.
pub proof fn law_found_is_not_defined(replies: Seq<Reply>, i: nat, j: nat)
    requires
        i < replies.len(),
        call_at(replies, i) == Some(Call::Lookup),
        replies[i as int] is Done,
    ensures
        call_at(replies, j) != Some(Call::Define),
{
    assert(step_at(replies, i) is Lookup);
    if j <= i {
        lemma_phase_monotone(replies, j, i);
    } else {
        assert(step_at(replies, i + 1) is Destroy);
        lemma_phase_monotone(replies, i + 1, j);
    }
}

/// A guest that was not found is defined exactly once: the request after a
/// lookup that failed is the define, and no other request of the session is.
pub proof fn law_absent_is_defined_once(replies: Seq<Reply>, i: nat, j: nat)
    requires
        i < replies.len(),
        call_at(replies, i) == Some(Call::Lookup),
        !(replies[i as int] is Done),
    ensures
        call_at(replies, i + 1) == Some(Call::Define),
        call_at(replies, j) == Some(Call::Define) ==> j == i + 1,
{
    assert(step_at(replies, i) is Lookup);
    assert(step_at(replies, i + 1) is Define);
    if j <= i {
        lemma_phase_monotone(replies, j, i);
    } else if j > i + 1 {
        lemma_phase_strict(replies, i + 1, j);
    }
}

/// A define is always the answer to a lookup that failed.
pub proof fn law_define_follows_failed_lookup(replies: Seq<Reply>, j: nat)
    requires
        j <= replies.len(),
        call_at(replies, j) == Some(Call::Define),
    ensures
        j >= 1,
        call_at(replies, (j - 1) as nat) == Some(Call::Lookup),
        !(replies[j - 1] is Done),
{
    assert(step_at(replies, j) is Define);
}

/// A failed query in a reporting routine ends the session: the daemon's last
/// error is fetched, the connection is closed, and the session is aborted
/// without another request.
pub proof fn law_failed_query_closes_then_aborts(replies: Seq<Reply>, i: nat, j: nat)
    requires
        i < replies.len(),
        step_at(replies, i).reporting(),
        !accepts(step_at(replies, i), replies[i as int]),
        j >= i + 3,
    ensures
        call_at(replies, i + 1) == Some(Call::LastError),
        call_at(replies, i + 2) == Some(Call::Close),
        step_at(replies, i + 2) == (Step::Close { exit: Exit::Failed }),
        step_at(replies, j) is Aborted,
{
    assert(step_at(replies, i + 1) is LastError);
    assert(step_at(replies, i + 2) == (Step::Close { exit: Exit::Failed }));
    assert(step_at(replies, i + 3) is Aborted);
    lemma_end_is_final(replies, i + 3, j);
}

/// The connection is closed before the session ends: a session that has
/// ended either never had a connection, or its last request was the close.
pub proof fn law_close_before_end(replies: Seq<Reply>, n: nat)
    requires
        n <= replies.len(),
        step_at(replies, n).terminal(),
    ensures
        exists|k: nat|
            k < n && !step_at(replies, k).terminal() && step_at(replies, k + 1).terminal() && (
            #[trigger] call_at(replies, k) == Some(Call::Close) || (k == 0 && !(replies[0] is Done))),
    decreases n,
{
    assert(n > 0);
    let before = step_at(replies, (n - 1) as nat);
    if before.terminal() {
        law_close_before_end(replies, (n - 1) as nat);
        let k = choose|k: nat|
            k < n - 1 && !step_at(replies, k).terminal() && step_at(replies, k + 1).terminal() && (
            #[trigger] call_at(replies, k) == Some(Call::Close) || (k == 0 && !(replies[0] is Done)));
        assert(k < n);
    } else {
        let k = (n - 1) as nat;
        assert(step_at(replies, k + 1) == next_step(before, replies[k as int]));
        if before is Open {
            if k > 0 {
                lemma_phase_strict(replies, 0, k);
            }
            assert(k == 0);
        } else {
            assert(before is Close);
        }
        assert(call_at(replies, k) == Some(Call::Close) || (k == 0 && !(replies[0] is Done)));
    }
}

/// A connection is closed at most once, and nothing is asked after the close.
pub proof fn law_close_once(replies: Seq<Reply>, i: nat, j: nat)
    requires
        call_at(replies, i) == Some(Call::Close),
        i < j,
    ensures
        call_at(replies, j) is None,
        step_at(replies, j).terminal(),
{
    assert(step_at(replies, i) is Close);
    assert(step_at(replies, i + 1).terminal());
    lemma_end_is_final(replies, i + 1, j);
}

/// After the guest was found and released, the session finishes exactly when
/// the close reports that no reference to the connection is left.
pub proof fn law_clean_close_is_zero(replies: Seq<Reply>, i: nat)
    requires
        i < replies.len(),
        step_at(replies, i) == (Step::Close { exit: Exit::Cleaned }),
    ensures
        step_at(replies, i + 1) is Finished <==> replies[i as int] == Reply::Closed(0),
        step_at(replies, i + 1) is Finished || step_at(replies, i + 1) is Aborted,
{
}

/// No request is made without a connection, but the one that opens it: every
/// request after the first is made while the connection is open.
pub proof fn law_requests_need_connection(replies: Seq<Reply>, i: nat)
    requires
        1 <= i <= replies.len(),
        call_at(replies, i) is Some,
    ensures
        step_at(replies, i).connected(),
        replies[0] is Done,
{
    assert(step_at(replies, 0) is Open);
    if step_at(replies, i) is Open {
        lemma_phase_strict(replies, 0, i);
    }
    if !(replies[0] is Done) {
        assert(step_at(replies, 1) == next_step(step_at(replies, 0), replies[0]));
        assert(step_at(replies, 1).terminal());
        lemma_end_is_final(replies, 1, i);
    }
}

} // verus!
