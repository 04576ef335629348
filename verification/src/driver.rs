//! A session carried out against the daemon.
//!
//! The driver makes the request that the session asks for, turns what came
//! back into a reply, and hands it to the session. It owns the handles: the
//! connection from the open to the close, the listed domains while they are
//! described, the guest while it is cleaned up.
//!
//! The connection and the guest are kept after they were closed or freed:
//! a handle that has given up its pointer is what shows that the call was
//! made.
//!
//! A domain handle that still holds its pointer is freed by the bindings when
//! it is dropped, and the bindings panic if that free fails. The driver drops
//! such handles in two places: the listed domains once the listing is over,
//! and whatever it still holds when it goes out of scope itself, which is
//! the guest after a free that failed. Nothing here can rule that panic out.

use vstd::prelude::*;
use vstd::string::*;
use virt::connect::Connect;
use virt::domain::Domain;
use virt::error::Error;
use crate::daemon::{
    active_flag, close_connection, connection_open, connection_uri, count_active,
    count_inactive, define_domain, destroy_domain, domain_active, domain_held, domain_id,
    domain_name, domain_stats, error_display, error_text, free_domain, hypervisor_type,
    hypervisor_version, inactive_flag, last_error, list_domains, lookup_domain,
    open_connection, undefine_domain,
};
use crate::guest::{has_nul, lemma_guest_texts_hold_no_nul};
use crate::lines::{no_connection_message, texts, HOLDS_NUL};
use crate::script::{
    call_of, fits, lemma_next_wf, lemma_progress, listed_total, next_step, phases_left,
    queries_left, Call, Reply, Routine, Step,
};
use crate::session::{
    argument_of, fresh, law_only_a_bad_uri_is_refusable, law_session_follows_script,
    lemma_session_extends, lemma_session_of_prefix, lines_after, lines_upto, session_after,
    session_at, Session, SessionView,
};
use crate::trace::{answers_in_kind, lemma_answers_extend, lemma_steps_of_prefix, step_at};

verus! {

/// `reply` is the failure that says what `error` says.
pub open spec fn fails_with(reply: Reply, error: Error) -> bool {
    reply matches Reply::Failed(text) && text@ == error_display(error)
}

/// The reply for an operation that failed: the failure with the error's text.
fn failure_reply(error: &Error) -> (reply: Reply)
    ensures
        fails_with(reply, *error),
{
    Reply::Failed(error_text(error))
}

/// The reply for a query that gives a text.
fn text_reply(outcome: Result<String, Error>) -> (reply: Reply)
    ensures
        outcome matches Ok(text) ==> reply == Reply::Text(text),
        outcome matches Err(error) ==> fails_with(reply, error),
{
    match outcome {
        Ok(text) => Reply::Text(text),
        Err(error) => failure_reply(&error),
    }
}

/// The reply for a query that gives a number.
fn number_reply(outcome: Result<u32, Error>) -> (reply: Reply)
    ensures
        outcome matches Ok(number) ==> reply == Reply::Number(number),
        outcome matches Err(error) ==> fails_with(reply, error),
{
    match outcome {
        Ok(number) => Reply::Number(number),
        Err(error) => failure_reply(&error),
    }
}

/// The reply for an operation that gives nothing.
fn unit_reply(outcome: Result<(), Error>) -> (reply: Reply)
    ensures
        outcome is Ok ==> reply == Reply::Done,
        outcome matches Err(error) ==> fails_with(reply, error),
{
    match outcome {
        Ok(()) => Reply::Done,
        Err(error) => failure_reply(&error),
    }
}

/// What `reply` says of a failure is what some error of the daemon says: the
/// text of a failure, and the text that answers the request for the last
/// error.
pub open spec fn says_an_error(step: Step, reply: Reply) -> bool {
    &&& reply matches Reply::Failed(said) ==> exists|error: Error|
        said@ == #[trigger] error_display(error)
    &&& step is LastError ==> (reply matches Reply::Text(said) ==> exists|error: Error|
        said@ == #[trigger] error_display(error))
}

/// The pending request carries a text that cannot be handed to the daemon.
/// Such a request is refused without a call. Only the open can be: see
/// `law_only_a_bad_uri_is_refusable`.
pub open spec fn refused(s: SessionView) -> bool {
    argument_of(s).contains('\0')
}

/// A session and the handles it works with.
pub struct Driver {
    session: Session,
    conn: Option<Connect>,
    listed: Vec<Domain>,
    guest: Option<Domain>,
}

impl Driver {
    /// The session that is carried out.
    pub closed spec fn session(&self) -> SessionView {
        self.session@
    }

    /// The connection was opened and has been closed.
    pub closed spec fn disconnected(&self) -> bool {
        self.conn matches Some(conn) && !connection_open(conn)
    }

    /// The connection is open.
    pub closed spec fn connected(&self) -> bool {
        self.conn matches Some(conn) && connection_open(conn)
    }

    /// The handles are those that `step` works with, and no others: the
    /// connection is open while the session is connected and closed once it
    /// has finished; the listed domains are held during the listing and gone
    /// after the step that follows it; the guest is held while it is cleaned
    /// up.
    spec fn holds(&self, step: Step) -> bool {
        &&& step.connected() ==> self.connected()
        &&& step is Finished ==> self.disconnected()
        &&& listed_total(step) matches Some(total) ==> {
            &&& total == self.listed@.len()
            &&& forall|i: int| 0 <= i < self.listed@.len() ==> domain_held(#[trigger] self.listed@[i])
        }
        &&& (listed_total(step) is None && !(step is Lookup) && !(step is LastError))
            ==> self.listed@.len() == 0
        &&& (step is Destroy || step is Undefine || step is Free) ==> (self.guest matches Some(
            guest,
        ) && domain_held(guest))
    }

    /// The handles are those that the session's step works with.
    pub closed spec fn wf(&self) -> bool {
        &&& self.session@.step.wf()
        &&& self.holds(self.session@.step)
    }

    /// A driver that will connect to `uri`. Nothing is asked of the daemon yet.
    pub fn new(uri: &str) -> (driver: Driver)
        ensures
            driver.wf(),
            driver.session() == fresh(uri@),
    {
        Driver { session: Session::new(uri), conn: None, listed: Vec::new(), guest: None }
    }

    /// Whether the session has ended.
    pub fn ended(&self) -> (yes: bool)
        ensures
            yes == self.session().step.terminal(),
    {
        self.session.finished() || self.session.aborted() || self.session.refused()
    }

    /// Whether the session's URI was refused, so that the daemon was never
    /// asked.
    pub fn refused(&self) -> (yes: bool)
        ensures
            yes == (self.session().step is Refused),
    {
        self.session.refused()
    }

    /// The message of a session that ended in failure; `None` for any other.
    pub fn failure(&self) -> (message: Option<String>)
        ensures
            message is Some <==> self.session().step.failed(),
            message matches Some(text) ==> text@ == self.session().message,
    {
        if self.session.aborted() || self.session.refused() {
            Some(String::from_str(self.session.message()))
        } else {
            None
        }
    }

    /// `after` is this driver once it has dealt with the request of its step
    /// and got `reply`: the session is untouched, the handles that the next
    /// step works with are in place, the reply is one that the request can
    /// get, the request was refused exactly if its text holds a NUL, and
    /// what is said of a failure is what an error of the daemon says. A close
    /// that succeeded has closed the connection and one that failed has left
    /// it open; a guest that was released, or defined, has given up its
    /// handle's pointer.
    spec fn answered(&self, after: Driver, reply: Reply) -> bool {
        let step = self.session@.step;
        &&& after.session == self.session
        &&& after.holds(next_step(step, reply))
        &&& call_of(step) matches Some(call) && fits(call, reply)
        &&& reply is Refused <==> refused(self.session@)
        &&& says_an_error(step, reply)
        &&& step is Close ==> {
            &&& reply is Closed ==> after.disconnected()
            &&& reply is Failed ==> after.connected()
        }
        &&& step is Free ==> {
            &&& reply is Done ==> (after.guest matches Some(guest) && !domain_held(guest))
            &&& reply is Failed ==> (after.guest matches Some(guest) && domain_held(guest))
        }
        &&& (step is Define && reply is Done) ==> (after.guest matches Some(guest)
            && !domain_held(guest))
    }

    /// Opens the connection, or asks it for its URI.
    fn connect(&mut self, call: Call) -> (reply: Reply)
        requires
            old(self).wf(),
            call_of(old(self).session@.step) == Some(call),
            call is Open || call is GetUri,
        ensures
            old(self).answered(*final(self), reply),
    {
        match call {
            Call::Open => {
                let uri = self.session.argument();
                if has_nul(uri.as_str()) {
                    Reply::Refused
                } else {
                    match open_connection(uri.as_str()) {
                        Ok(conn) => {
                            self.conn = Some(conn);
                            Reply::Done
                        },
                        Err(error) => failure_reply(&error),
                    }
                }
            },
            _ => text_reply(connection_uri(self.conn.as_ref().unwrap())),
        }
    }

    /// Asks for the hypervisor's type, or for its version.
    fn show_hypervisor_info(&self, call: Call) -> (reply: Reply)
        requires
            self.wf(),
            call_of(self.session@.step) == Some(call),
            call is GetType || call is GetVersion,
        ensures
            self.answered(*self, reply),
    {
        let conn = self.conn.as_ref().unwrap();
        match call {
            Call::GetType => text_reply(hypervisor_type(conn)),
            _ => number_reply(hypervisor_version(conn)),
        }
    }

    /// Asks for one of the two domain counts, lists the domains with one
    /// call for running and defined domains together, or asks a listed domain
    /// for one of the things that are reported of it.
    fn show_domains(&mut self, call: Call) -> (reply: Reply)
        requires
            old(self).wf(),
            call_of(old(self).session@.step) == Some(call),
            old(self).session@.step.routine() == Some(Routine::Domains),
        ensures
            old(self).answered(*final(self), reply),
    {
        match call {
            Call::CountActive => number_reply(count_active(self.conn.as_ref().unwrap())),
            Call::ListAll { flags } => {
                let both: u32 = active_flag() | inactive_flag();
                assert(both == flags) by {
                    assert(1u32 | 2u32 == 3u32) by (bit_vector);
                }
                match list_domains(self.conn.as_ref().unwrap(), both) {
                    Ok(listed) => {
                        let total = listed.len();
                        self.listed = listed;
                        Reply::Listed(total)
                    },
                    Err(error) => failure_reply(&error),
                }
            },
            Call::DomainId { index } => match domain_id(&self.listed[index]) {
                Some(id) => Reply::Number(id),
                None => Reply::Absent,
            },
            Call::DomainName { index } => text_reply(domain_name(&self.listed[index])),
            Call::DomainActive { index } => match domain_active(&self.listed[index]) {
                Ok(active) => Reply::Flag(active),
                Err(error) => failure_reply(&error),
            },
            Call::DomainInfo { index } => match domain_stats(&self.listed[index]) {
                Ok(stats) => Reply::Stats(stats),
                Err(error) => failure_reply(&error),
            },
            _ => number_reply(count_inactive(self.conn.as_ref().unwrap())),
        }
    }

    /// Looks the guest up, cleans it up and releases it, or defines it. The
    /// handles of the listed domains are let go first. Neither the lookup nor
    /// the define is ever refused: their texts hold no NUL. The handle of a
    /// guest that was defined is released at once, and the define counts as
    /// failed if that release fails.
    fn settle_guest(&mut self, call: Call) -> (reply: Reply)
        requires
            old(self).wf(),
            call_of(old(self).session@.step) == Some(call),
            call is Lookup || call is Destroy || call is Undefine || call is Free || call is Define,
        ensures
            old(self).answered(*final(self), reply),
    {
        proof {
            lemma_guest_texts_hold_no_nul();
        }
        match call {
            Call::Lookup => {
                self.listed = Vec::new();
                let name = self.session.argument();
                match lookup_domain(self.conn.as_ref().unwrap(), name.as_str()) {
                    Ok(guest) => {
                        self.guest = Some(guest);
                        Reply::Done
                    },
                    Err(error) => failure_reply(&error),
                }
            },
            Call::Destroy => unit_reply(destroy_domain(self.guest.as_ref().unwrap())),
            Call::Undefine => unit_reply(undefine_domain(self.guest.as_ref().unwrap())),
            Call::Free => {
                let mut guest = self.guest.take().unwrap();
                let released = free_domain(&mut guest);
                self.guest = Some(guest);
                unit_reply(released)
            },
            _ => {
                let xml = self.session.argument();
                match define_domain(self.conn.as_ref().unwrap(), xml.as_str()) {
                    Ok(defined) => {
                        let mut guest = defined;
                        let released = free_domain(&mut guest);
                        self.guest = Some(guest);
                        unit_reply(released)
                    },
                    Err(error) => failure_reply(&error),
                }
            },
        }
    }

    /// Closes the connection. The session asks for no other request after
    /// the close, so the handle is never closed again.
    fn disconnect(&mut self) -> (reply: Reply)
        requires
            old(self).wf(),
            call_of(old(self).session@.step) == Some(Call::Close),
        ensures
            old(self).answered(*final(self), reply),
    {
        let mut conn = self.conn.take().unwrap();
        let closed = close_connection(&mut conn);
        self.conn = Some(conn);
        match closed {
            Ok(left) => Reply::Closed(left),
            Err(error) => failure_reply(&error),
        }
    }

    /// Fetches the daemon's last error, and only then lets the handles of the
    /// listed domains go: releasing a handle is a call into the daemon's
    /// library too, and the error must be read before any other call.
    fn fetch_last_error(&mut self) -> (reply: Reply)
        requires
            old(self).wf(),
            call_of(old(self).session@.step) == Some(Call::LastError),
        ensures
            old(self).answered(*final(self), reply),
    {
        let error = last_error();
        let text = error_text(&error);
        self.listed = Vec::new();
        Reply::Text(text)
    }

    /// Makes the request `call` and says what came back.
    fn perform(&mut self, call: Call) -> (reply: Reply)
        requires
            old(self).wf(),
            call_of(old(self).session@.step) == Some(call),
        ensures
            old(self).answered(*final(self), reply),
    {
        match call {
            Call::Open | Call::GetUri => self.connect(call),
            Call::GetType | Call::GetVersion => self.show_hypervisor_info(call),
            Call::LastError => self.fetch_last_error(),
            Call::Lookup | Call::Destroy | Call::Undefine => self.settle_guest(call),
            Call::Free | Call::Define => self.settle_guest(call),
            Call::Close => self.disconnect(),
            _ => self.show_domains(call),
        }
    }

    /// Makes the pending request and takes its reply: returns the lines to
    /// report, or `None` when the session has ended and nothing was asked.
    pub fn step(&mut self) -> (lines: Option<Vec<String>>)
        requires
            old(self).wf(),
        ensures
            final(self).wf(),
            lines is None <==> old(self).session().step.terminal(),
            lines is None ==> final(self).session() == old(self).session(),
            lines matches Some(reported) ==> exists|reply: Reply|
                {
                    &&& final(self).session() == #[trigger] session_after(
                        old(self).session(),
                        reply,
                    )
                    &&& texts(reported@) == lines_after(old(self).session(), reply)
                    &&& call_of(old(self).session().step) matches Some(call) && fits(call, reply)
                    &&& reply is Refused <==> refused(old(self).session())
                    &&& says_an_error(old(self).session().step, reply)
                    &&& old(self).session().step is Close ==> (final(self).disconnected()
                        <==> reply is Closed)
                },
            final(self).session().step is Finished ==> final(self).disconnected(),
            final(self).session().step is Refused <==> (old(self).session().step is Refused
                || refused(old(self).session())),
            refused(old(self).session()) ==> {
                &&& final(self).session().message == no_connection_message(HOLDS_NUL@)
                &&& lines matches Some(reported) && reported@.len() == 0
            },
    {
        match self.session.pending() {
            None => None,
            Some(call) => {
                let reply = self.perform(call);
                proof {
                    lemma_next_wf(self.session@.step, reply);
                    law_only_a_bad_uri_is_refusable(self.session@);
                }
                let reported = self.session.advance(reply);
                assert(texts(reported@).len() == reported@.len());
                Some(reported)
            },
        }
    }
}

/// What a finished run leaves: the lines it reported, in order, the message
/// it failed with, if it failed, and whether it failed because the URI was
/// refused before anything was asked.
pub struct Transcript {
    pub lines: Vec<String>,
    pub failure: Option<String>,
    pub refused: bool,
}

/// The library refuses a request exactly if its text holds a NUL character:
/// every reply of `replies` is a refusal if and only if the text of the
/// request it answers, in the session on `uri`, holds one.
pub open spec fn refusals_as_owed(uri: Seq<char>, replies: Seq<Reply>) -> bool {
    forall|i: int|
        0 <= i < replies.len() ==> (#[trigger] replies[i] is Refused <==> refused(
            session_at(uri, replies, i as nat),
        ))
}

/// `transcript` is what the session on `uri` leaves when the daemon answers
/// its requests with `replies`, one after the other: the session has ended
/// with the last of them, every line it reported is there, and the message
/// is there exactly if the session ended in failure.
pub open spec fn records(transcript: Transcript, uri: Seq<char>, replies: Seq<Reply>) -> bool {
    let end = session_at(uri, replies, replies.len());
    &&& end.step.terminal()
    &&& texts(transcript.lines@) == lines_upto(uri, replies, replies.len())
    &&& transcript.failure is Some <==> end.step.failed()
    &&& transcript.failure matches Some(message) ==> message@ == end.message
    &&& transcript.refused <==> end.step is Refused
}

/// Every failure in `replies`, and every answer to the request for the last
/// error, says what some error of the daemon says.
pub open spec fn errors_as_said(replies: Seq<Reply>) -> bool {
    forall|i: int|
        0 <= i < replies.len() ==> says_an_error(step_at(replies, i as nat), #[trigger] replies[i])
}

/// One more reply that says what an error says keeps the errors as said.
proof fn lemma_errors_extend(replies: Seq<Reply>, reply: Reply)
    requires
        errors_as_said(replies),
        says_an_error(step_at(replies, replies.len()), reply),
    ensures
        errors_as_said(replies.push(reply)),
{
    let longer = replies.push(reply);
    assert forall|i: int| 0 <= i < longer.len() implies says_an_error(
        step_at(longer, i as nat),
        #[trigger] longer[i],
    ) by {
        lemma_steps_of_prefix(replies, longer, i as nat);
        if i < replies.len() {
            assert(longer[i] == replies[i]);
        }
    }
}

/// One more reply that is a refusal exactly if the pending request's text
/// holds a NUL keeps the refusals as owed.
proof fn lemma_refusals_extend(uri: Seq<char>, replies: Seq<Reply>, reply: Reply)
    requires
        refusals_as_owed(uri, replies),
        reply is Refused <==> refused(session_at(uri, replies, replies.len())),
    ensures
        refusals_as_owed(uri, replies.push(reply)),
{
    let longer = replies.push(reply);
    assert forall|i: int| 0 <= i < longer.len() implies (#[trigger] longer[i] is Refused
        <==> refused(session_at(uri, longer, i as nat))) by {
        lemma_session_of_prefix(uri, replies, longer, i as nat);
        if i < replies.len() {
            assert(longer[i] == replies[i]);
        }
    }
}

/// Carries out a whole session on `uri`: makes every request that the
/// session asks for until it has ended.
///
/// What comes back is up to the daemon; whatever it was, the transcript is
/// the one that the session prescribes for those replies. The one thing that
/// the library decides itself is the refusal: a URI is refused if and only if
/// it holds a NUL character, and then nothing is asked and nothing reported.
pub fn run(uri: &str) -> (transcript: Transcript)
    ensures
        exists|replies: Seq<Reply>|
            {
                &&& answers_in_kind(replies)
                &&& refusals_as_owed(uri@, replies)
                &&& errors_as_said(replies)
                &&& #[trigger] records(transcript, uri@, replies)
            },
        transcript.refused <==> uri@.contains('\0'),
        transcript.refused ==> {
            &&& transcript.lines@.len() == 0
            &&& transcript.failure matches Some(message) && message@ == no_connection_message(
                HOLDS_NUL@,
            )
        },
{
    let mut driver = Driver::new(uri);
    let mut lines: Vec<String> = Vec::new();
    let ghost mut replies: Seq<Reply> = Seq::empty();
    assert(texts(lines@) =~= lines_upto(uri@, replies, 0));
    loop
        invariant
            driver.wf(),
            driver.session() == session_at(uri@, replies, replies.len()),
            texts(lines@) == lines_upto(uri@, replies, replies.len()),
            answers_in_kind(replies),
            refusals_as_owed(uri@, replies),
            errors_as_said(replies),
            replies.len() == 0 ==> driver.session() == fresh(uri@),
            replies.len() > 0 ==> (driver.session().step is Refused <==> uri@.contains('\0')),
            driver.session().step is Refused ==> {
                &&& driver.session().message == no_connection_message(HOLDS_NUL@)
                &&& lines@.len() == 0
            },
        ensures
            driver.session().step.terminal(),
        decreases phases_left(driver.session().step), queries_left(driver.session().step),
    {
        let ghost before = driver.session();
        match driver.step() {
            None => {
                break ;
            },
            Some(reported) => {
                let mut reported = reported;
                proof {
                    let reply = choose|reply: Reply|
                        {
                            &&& driver.session() == #[trigger] session_after(before, reply)
                            &&& texts(reported@) == lines_after(before, reply)
                            &&& call_of(before.step) matches Some(call) && fits(call, reply)
                            &&& reply is Refused <==> refused(before)
                            &&& says_an_error(before.step, reply)
                        };
                    law_session_follows_script(uri@, replies, replies.len());
                    law_only_a_bad_uri_is_refusable(before);
                    lemma_answers_extend(replies, reply);
                    lemma_session_extends(uri@, replies, reply);
                    lemma_refusals_extend(uri@, replies, reply);
                    lemma_errors_extend(replies, reply);
                    lemma_progress(before.step, reply);
                    replies = replies.push(reply);
                }
                let ghost earlier = lines@;
                let ghost added = reported@;
                lines.append(&mut reported);
                assert(texts(earlier + added) =~= texts(earlier) + texts(added));
            },
        }
    }
    let failure = driver.failure();
    let refused = driver.refused();
    let transcript = Transcript { lines, failure, refused };
    assert(records(transcript, uri@, replies));
    transcript
}

} // verus!
