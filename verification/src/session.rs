//! A session: the script together with what it has learned so far.
//!
//! A session is fed the replies of the daemon one at a time. For each it says
//! which lines to report, and it remembers what later lines and the final
//! message need. It makes no call itself.

use vstd::prelude::*;
use vstd::string::*;
use crate::guest::{
    describe_guest, guest_description, lemma_guest_texts_hold_no_nul, DESCRIPTION_HEAD,
    DESCRIPTION_TAIL, GUEST_NAME,
};
use crate::lines::{
    connected_line, connected_text, count_line, count_text, define_message, disconnect_message,
    free_message, hypervisor_line, hypervisor_text, identity_line, identity_text, join,
    no_connection_message, no_uri_message, routine_message, routine_text, silent, single,
    stats_lines, stats_texts, texts, DISCONNECTED, GUEST_CLEANED, GUEST_DEFINED, GUEST_FOUND,
    GUEST_MISSING, HOLDS_NUL, STILL_REFERENCED,
};
use crate::script::{accepts, call_of, next_step, Call, Exit, Reply, Routine, Step};
use crate::trace::step_at;

verus! {

/// A session as a mathematical value.
pub struct SessionView {
    /// Where the session stands.
    pub step: Step,
    /// The URI that the connection is opened with.
    pub uri: Seq<char>,
    /// The hypervisor's type, once the daemon has given it.
    pub kind: Seq<char>,
    /// The number of running domains, once the daemon has given it.
    pub active: u32,
    /// The id of the domain that is being described; 0 for a domain without one.
    pub id: u32,
    /// The name of the domain that is being described.
    pub name: Seq<char>,
    /// The message that an aborted session ends with.
    pub message: Seq<char>,
}

/// The text that a reply carries: what a success gave, what a failure says,
/// why a request was refused; empty for a reply without one.
pub open spec fn reply_text(reply: Reply) -> Seq<char> {
    match reply {
        Reply::Text(s) => s@,
        Reply::Failed(s) => s@,
        Reply::Refused => HOLDS_NUL@,
        _ => Seq::<char>::empty(),
    }
}

/// The text that goes with the request of a step: the URI for the open, the
/// guest's name for the lookup, its description for the define.
pub open spec fn argument_of(s: SessionView) -> Seq<char> {
    match s.step {
        Step::Open => s.uri,
        Step::Lookup => GUEST_NAME@,
        Step::Define => guest_description(),
        _ => Seq::<char>::empty(),
    }
}

/// The message that an aborted session would end with, once `reply` has come
/// back. A failure of the close comes before the failure that led to it.
pub open spec fn message_after(s: SessionView, reply: Reply) -> Seq<char> {
    let error = reply_text(reply);
    let ok = accepts(s.step, reply);
    match s.step {
        Step::Open => if ok { s.message } else { no_connection_message(error) },
        Step::Uri => if ok { s.message } else { no_uri_message(error) },
        Step::LastError { routine } => routine_message(routine, error),
        Step::Free => if ok { s.message } else { free_message(error) },
        Step::Define => if ok { s.message } else { define_message(error) },
        Step::Close { exit } => match reply {
            Reply::Closed(left) => if exit is Cleaned && left != 0 {
                STILL_REFERENCED@
            } else {
                s.message
            },
            _ => disconnect_message(error),
        },
        _ => s.message,
    }
}

/// The lines to report once `reply` has come back.
pub open spec fn lines_after(s: SessionView, reply: Reply) -> Seq<Seq<char>> {
    match (s.step, reply) {
        (Step::Uri, Reply::Text(uri)) => seq![connected_line(uri@)],
        (Step::Version, Reply::Number(raw)) => seq![hypervisor_line(s.kind, raw as nat)],
        (Step::CountInactive, Reply::Number(inactive)) => seq![
            count_line(s.active as nat, inactive as nat),
        ],
        (Step::DomainActive { .. }, Reply::Flag(active)) => seq![
            identity_line(s.id as nat, s.name, active),
        ],
        (Step::DomainInfo { .. }, Reply::Stats(stats)) => stats_lines(stats),
        (Step::Lookup, Reply::Done) => seq![GUEST_FOUND@],
        (Step::Lookup, _) => seq![GUEST_MISSING@],
        (Step::Undefine, _) => seq![GUEST_CLEANED@],
        (Step::Define, Reply::Done) => seq![GUEST_DEFINED@],
        (Step::Close { exit }, Reply::Closed(_)) => if exit is Cleaned {
            Seq::<Seq<char>>::empty()
        } else {
            seq![DISCONNECTED@]
        },
        _ => Seq::<Seq<char>>::empty(),
    }
}

/// The session once `reply` has come back.
pub open spec fn session_after(s: SessionView, reply: Reply) -> SessionView {
    SessionView {
        step: next_step(s.step, reply),
        uri: s.uri,
        kind: match (s.step, reply) {
            (Step::Kind, Reply::Text(kind)) => kind@,
            _ => s.kind,
        },
        active: match (s.step, reply) {
            (Step::CountActive, Reply::Number(active)) => active,
            _ => s.active,
        },
        id: match (s.step, reply) {
            (Step::DomainId { .. }, Reply::Number(id)) => id,
            (Step::DomainId { .. }, Reply::Absent) => 0,
            _ => s.id,
        },
        name: match (s.step, reply) {
            (Step::DomainName { .. }, Reply::Text(name)) => name@,
            _ => s.name,
        },
        message: message_after(s, reply),
    }
}

/// A session that has not asked anything yet.
pub open spec fn fresh(uri: Seq<char>) -> SessionView {
    SessionView {
        step: Step::Open,
        uri,
        kind: Seq::<char>::empty(),
        active: 0,
        id: 0,
        name: Seq::<char>::empty(),
        message: Seq::<char>::empty(),
    }
}

/// The text of a reply, taken out of it.
fn into_text(reply: Reply) -> (s: String)
    ensures
        s@ == reply_text(reply),
{
    match reply {
        Reply::Text(s) => s,
        Reply::Failed(s) => s,
        Reply::Refused => String::from_str(HOLDS_NUL),
        _ => String::new(),
    }
}

/// A session in progress.
pub struct Session {
    step: Step,
    uri: String,
    kind: String,
    active: u32,
    id: u32,
    name: String,
    message: String,
}

impl View for Session {
    type V = SessionView;

    closed spec fn view(&self) -> SessionView {
        SessionView {
            step: self.step,
            uri: self.uri@,
            kind: self.kind@,
            active: self.active,
            id: self.id,
            name: self.name@,
            message: self.message@,
        }
    }
}

impl Session {
    #[verifier::type_invariant]
    spec fn inv(self) -> bool {
        self.step.wf()
    }

    /// A session that will connect to `uri`.
    pub fn new(uri: &str) -> (s: Session)
        ensures
            s@ == fresh(uri@),
    {
        Session {
            step: Step::Open,
            uri: String::from_str(uri),
            kind: String::new(),
            active: 0,
            id: 0,
            name: String::new(),
            message: String::new(),
        }
    }

    /// Where the session stands.
    pub fn step(&self) -> (step: Step)
        ensures
            step == self@.step,
            step.wf(),
    {
        proof {
            use_type_invariant(self);
        }
        self.step
    }

    /// The request to make next; `None` once the session has ended.
    pub fn pending(&self) -> (call: Option<Call>)
        ensures
            call == call_of(self@.step),
            call is None <==> self@.step.terminal(),
    {
        self.step.call()
    }

    /// The text that goes with the pending request.
    pub fn argument(&self) -> (text: String)
        ensures
            text@ == argument_of(self@),
    {
        match self.step {
            Step::Open => self.uri.clone(),
            Step::Lookup => String::from_str(GUEST_NAME),
            Step::Define => describe_guest(GUEST_NAME),
            _ => String::new(),
        }
    }

    /// Whether the session has ended well.
    pub fn finished(&self) -> (yes: bool)
        ensures
            yes == (self@.step is Finished),
    {
        matches!(self.step, Step::Finished)
    }

    /// Whether the session was aborted: a request failed.
    pub fn aborted(&self) -> (yes: bool)
        ensures
            yes == (self@.step is Aborted),
    {
        matches!(self.step, Step::Aborted)
    }

    /// Whether the session's URI was refused, so that nothing was asked.
    pub fn refused(&self) -> (yes: bool)
        ensures
            yes == (self@.step is Refused),
    {
        matches!(self.step, Step::Refused)
    }

    /// The message that a session which ended in failure ends with.
    pub fn message(&self) -> (text: &str)
        ensures
            text@ == self@.message,
    {
        self.message.as_str()
    }

    /// Takes the reply to the pending request: moves to the next step and
    /// returns the lines to report. A session that has ended stays as it is.
    pub fn advance(&mut self, reply: Reply) -> (lines: Vec<String>)
        ensures
            final(self)@ == session_after(old(self)@, reply),
            texts(lines@) == lines_after(old(self)@, reply),
    {
        match self.step {
            Step::Open | Step::Uri => self.connect(reply),
            Step::Kind | Step::Version => self.show_hypervisor_info(reply),
            Step::CountActive | Step::CountInactive | Step::List => self.show_domains(reply),
            Step::DomainId { .. } | Step::DomainName { .. } => self.show_domains(reply),
            Step::DomainActive { .. } | Step::DomainInfo { .. } => self.show_domains(reply),
            Step::LastError { routine } => self.fail_routine(routine, reply),
            Step::Lookup | Step::Destroy | Step::Undefine => self.settle_guest(reply),
            Step::Free | Step::Define => self.settle_guest(reply),
            Step::Close { exit } => self.disconnect(exit, reply),
            Step::Finished | Step::Aborted | Step::Refused => silent(),
        }
    }

    /// Opening the connection and asking for its URI.
    fn connect(&mut self, reply: Reply) -> (lines: Vec<String>)
        requires
            old(self)@.step is Open || old(self)@.step is Uri,
        ensures
            final(self)@ == session_after(old(self)@, reply),
            texts(lines@) == lines_after(old(self)@, reply),
    {
        proof {
            use_type_invariant(&*self);
        }
        let at = self.step;
        let ok = at.accepted(&reply);
        self.step = at.next(&reply);
        match at {
            Step::Open => {
                if !ok {
                    let error = into_text(reply);
                    self.message = join("No connection to hypervisor: ", error.as_str());
                }
                silent()
            },
            _ => {
                let text = into_text(reply);
                if ok {
                    single(connected_text(text.as_str()))
                } else {
                    self.message = join(
                        "Failed to get URI for hypervisor connection: ",
                        text.as_str(),
                    );
                    silent()
                }
            },
        }
    }

    /// The hypervisor's type and version: one line once both are known.
    fn show_hypervisor_info(&mut self, reply: Reply) -> (lines: Vec<String>)
        requires
            old(self)@.step.routine() == Some(Routine::HypervisorInfo),
        ensures
            final(self)@ == session_after(old(self)@, reply),
            texts(lines@) == lines_after(old(self)@, reply),
    {
        proof {
            use_type_invariant(&*self);
        }
        let at = self.step;
        self.step = at.next(&reply);
        match at {
            Step::Kind => {
                match reply {
                    Reply::Text(kind) => {
                        self.kind = kind;
                    },
                    _ => {},
                }
                silent()
            },
            _ => match reply {
                Reply::Number(raw) => single(hypervisor_text(self.kind.as_str(), raw)),
                _ => silent(),
            },
        }
    }

    /// The domain counts and the listing: one line for the counts, and for
    /// each domain one line that identifies it and the lines of its figures.
    fn show_domains(&mut self, reply: Reply) -> (lines: Vec<String>)
        requires
            old(self)@.step.routine() == Some(Routine::Domains),
        ensures
            final(self)@ == session_after(old(self)@, reply),
            texts(lines@) == lines_after(old(self)@, reply),
    {
        proof {
            use_type_invariant(&*self);
        }
        let at = self.step;
        self.step = at.next(&reply);
        match at {
            Step::CountActive => {
                match reply {
                    Reply::Number(active) => {
                        self.active = active;
                    },
                    _ => {},
                }
                silent()
            },
            Step::CountInactive => match reply {
                Reply::Number(inactive) => single(count_text(self.active, inactive)),
                _ => silent(),
            },
            Step::DomainId { .. } => {
                match reply {
                    Reply::Number(id) => {
                        self.id = id;
                    },
                    Reply::Absent => {
                        self.id = 0;
                    },
                    _ => {},
                }
                silent()
            },
            Step::DomainName { .. } => {
                match reply {
                    Reply::Text(name) => {
                        self.name = name;
                    },
                    _ => {},
                }
                silent()
            },
            Step::DomainActive { .. } => match reply {
                Reply::Flag(active) => single(
                    identity_text(self.id, self.name.as_str(), active),
                ),
                _ => silent(),
            },
            Step::DomainInfo { .. } => match reply {
                Reply::Stats(stats) => stats_texts(&stats),
                _ => silent(),
            },
            _ => silent(),
        }
    }

    /// The daemon's last error, after a reporting routine failed.
    fn fail_routine(&mut self, routine: Routine, reply: Reply) -> (lines: Vec<String>)
        requires
            old(self)@.step == (Step::LastError { routine }),
        ensures
            final(self)@ == session_after(old(self)@, reply),
            texts(lines@) == lines_after(old(self)@, reply),
    {
        proof {
            use_type_invariant(&*self);
        }
        self.step = self.step.next(&reply);
        let error = into_text(reply);
        self.message = routine_text(routine, error.as_str());
        silent()
    }

    /// The guest: found and released, or missing and defined.
    fn settle_guest(&mut self, reply: Reply) -> (lines: Vec<String>)
        requires
            old(self)@.step is Lookup || old(self)@.step is Destroy || old(self)@.step is Undefine
                || old(self)@.step is Free || old(self)@.step is Define,
        ensures
            final(self)@ == session_after(old(self)@, reply),
            texts(lines@) == lines_after(old(self)@, reply),
    {
        proof {
            use_type_invariant(&*self);
        }
        let at = self.step;
        let ok = at.accepted(&reply);
        self.step = at.next(&reply);
        match at {
            Step::Lookup => if ok {
                single(String::from_str(GUEST_FOUND))
            } else {
                single(String::from_str(GUEST_MISSING))
            },
            Step::Destroy => silent(),
            Step::Undefine => single(String::from_str(GUEST_CLEANED)),
            Step::Free => {
                if !ok {
                    let error = into_text(reply);
                    self.message = join("Failed to free domain: ", error.as_str());
                }
                silent()
            },
            _ => if ok {
                single(String::from_str(GUEST_DEFINED))
            } else {
                let error = into_text(reply);
                self.message = join("failed to define_xml: ", error.as_str());
                silent()
            },
        }
    }

    /// The close. A close that fails ends the session with its own message,
    /// whatever went before.
    fn disconnect(&mut self, exit: Exit, reply: Reply) -> (lines: Vec<String>)
        requires
            old(self)@.step == (Step::Close { exit }),
        ensures
            final(self)@ == session_after(old(self)@, reply),
            texts(lines@) == lines_after(old(self)@, reply),
    {
        proof {
            use_type_invariant(&*self);
        }
        self.step = self.step.next(&reply);
        match reply {
            Reply::Closed(left) => match exit {
                Exit::Cleaned => {
                    if left != 0 {
                        self.message = String::from_str(STILL_REFERENCED);
                    }
                    silent()
                },
                _ => single(String::from_str(DISCONNECTED)),
            },
            other => {
                let error = into_text(other);
                self.message = join("Failed to disconnect from hypervisor: ", error.as_str());
                silent()
            },
        }
    }
}

/// The session that connects to `uri`, once the first `n` of `replies` have
/// come back.
pub open spec fn session_at(uri: Seq<char>, replies: Seq<Reply>, n: nat) -> SessionView
    decreases n,
{
    if n == 0 {
        fresh(uri)
    } else {
        session_after(session_at(uri, replies, (n - 1) as nat), replies[n - 1])
    }
}

/// All the lines that this session has reported by then, in order.
pub open spec fn lines_upto(uri: Seq<char>, replies: Seq<Reply>, n: nat) -> Seq<Seq<char>>
    decreases n,
{
    if n == 0 {
        Seq::<Seq<char>>::empty()
    } else {
        lines_upto(uri, replies, (n - 1) as nat) + lines_after(
            session_at(uri, replies, (n - 1) as nat),
            replies[n - 1],
        )
    }
}

/// A session goes through the steps of the script, whatever its URI: all
/// that holds of the script's steps holds of the session's.
pub proof fn law_session_follows_script(uri: Seq<char>, replies: Seq<Reply>, n: nat)
    ensures
        session_at(uri, replies, n).step == step_at(replies, n),
        session_at(uri, replies, n).uri == uri,
    decreases n,
{
    if n > 0 {
        law_session_follows_script(uri, replies, (n - 1) as nat);
    }
}

/// What a session has gone through depends only on the replies that have
/// come back: two sequences that agree on their first `n` replies give the
/// same session and the same lines after `n`.
pub proof fn lemma_session_of_prefix(uri: Seq<char>, a: Seq<Reply>, b: Seq<Reply>, n: nat)
    requires
        n <= a.len(),
        n <= b.len(),
        forall|i: int| 0 <= i < n ==> a[i] == b[i],
    ensures
        session_at(uri, a, n) == session_at(uri, b, n),
        lines_upto(uri, a, n) == lines_upto(uri, b, n),
    decreases n,
{
    if n > 0 {
        lemma_session_of_prefix(uri, a, b, (n - 1) as nat);
    }
}

/// One more reply: the session and its lines after the reply `reply` has
/// been added to `replies`.
pub proof fn lemma_session_extends(uri: Seq<char>, replies: Seq<Reply>, reply: Reply)
    ensures
        session_at(uri, replies.push(reply), replies.len() + 1) == session_after(
            session_at(uri, replies, replies.len()),
            reply,
        ),
        lines_upto(uri, replies.push(reply), replies.len() + 1) == lines_upto(
            uri,
            replies,
            replies.len(),
        ) + lines_after(session_at(uri, replies, replies.len()), reply),
{
    let longer = replies.push(reply);
    lemma_session_of_prefix(uri, replies, longer, replies.len());
    assert(longer[replies.len() as int] == reply);
}

/// A domain is reported with what the daemon said of that domain: the line
/// that identifies it shows the id and the name that were given for it, 0
/// for a domain without an id, and the lines of its figures show the figures
/// that were given for it.
pub proof fn law_domain_is_reported_as_answered(uri: Seq<char>, replies: Seq<Reply>, at: nat)
    requires
        at + 3 < replies.len(),
        session_at(uri, replies, at).step is DomainId,
        replies[at as int] is Number || replies[at as int] is Absent,
        replies[(at + 1) as int] is Text,
        replies[(at + 2) as int] is Flag,
        replies[(at + 3) as int] is Stats,
    ensures
        lines_after(session_at(uri, replies, at + 2), replies[(at + 2) as int]) == seq![
            identity_line(
                (if replies[at as int] is Number {
                    replies[at as int]->Number_0
                } else {
                    0
                }) as nat,
                reply_text(replies[(at + 1) as int]),
                replies[(at + 2) as int]->Flag_0,
            ),
        ],
        lines_after(session_at(uri, replies, at + 3), replies[(at + 3) as int]) == stats_lines(
            replies[(at + 3) as int]->Stats_0,
        ),
{
    let first = session_at(uri, replies, at);
    let second = session_at(uri, replies, at + 1);
    let third = session_at(uri, replies, at + 2);
    let fourth = session_at(uri, replies, at + 3);
    assert(second == session_after(first, replies[at as int]));
    assert(third == session_after(second, replies[(at + 1) as int]));
    assert(fourth == session_after(third, replies[(at + 2) as int]));
    assert(second.step is DomainName);
    assert(third.step is DomainActive);
    assert(fourth.step is DomainInfo);
}

/// Only the open can be refused, and only for its URI: the text of every
/// other request is free of NUL characters.
pub proof fn law_only_a_bad_uri_is_refusable(s: SessionView)
    ensures
        argument_of(s).contains('\0') <==> (s.step is Open && s.uri.contains('\0')),
{
    lemma_guest_texts_hold_no_nul();
    if !(s.step is Open) && !(s.step is Lookup) && !(s.step is Define) {
        assert(argument_of(s).len() == 0);
    }
}

/// What is submitted to define the guest is the fixed description around the
/// fixed name, whatever the session has gone through.
pub proof fn law_define_submits_the_fixed_description(s: SessionView)
    requires
        s.step is Define,
    ensures
        argument_of(s) == DESCRIPTION_HEAD@ + GUEST_NAME@ + DESCRIPTION_TAIL@,
{
}

/// The line that names the connection shows the URI that the daemon gave,
/// whatever URI the connection was opened with.
pub proof fn law_reported_uri_is_the_daemons(a: SessionView, b: SessionView, reply: Reply)
    requires
        a.step is Uri,
        b.step is Uri,
        reply is Text,
    ensures
        lines_after(a, reply) == seq![connected_line(reply_text(reply))],
        lines_after(a, reply) == lines_after(b, reply),
{
}

} // verus!
