//! Server-Sent Events: event numbering and the events that open a stream.

use vstd::prelude::*;
use vstd::string::StringExecFns;
use crate::session::SessionState;
use crate::text::{decimal, u64_to_decimal};

verus! {

/// The id of the `n`-th event of a stream: `<session>-<n>` within a session,
/// `<n>` otherwise.
pub open spec fn event_id(session_id: Option<Seq<char>>, n: nat) -> Seq<char> {
    match session_id {
        Some(sid) => sid + "-"@ + decimal(n),
        None => decimal(n),
    }
}

/// Writer for Server-Sent Events: holds the output and numbers the events.
pub struct SseWriter<W> {
    writer: W,
    event_counter: u64,
    session_id: Option<String>,
}

impl<W> SseWriter<W> {
    /// The output the events go to.
    pub closed spec fn output(&self) -> W {
        self.writer
    }

    /// Number of events numbered so far.
    pub closed spec fn counter(&self) -> u64 {
        self.event_counter
    }

    /// The session the stream belongs to, if any.
    pub closed spec fn session(&self) -> Option<Seq<char>> {
        crate::token_config::opt_string_view(self.session_id)
    }

    /// A writer outside any session, counting from zero.
    pub fn new(writer: W) -> (w: SseWriter<W>)
        ensures
            w.output() == writer,
            w.counter() == 0,
            w.session() is None,
    {
        SseWriter { writer, event_counter: 0, session_id: None }
    }

    /// A writer for a session, counting on from the session's counter.
    pub fn with_session(writer: W, session: &SessionState) -> (w: SseWriter<W>)
        ensures
            w.output() == writer,
            w.counter() == session.event_counter,
            w.session() == Some(session.session_id@),
    {
        SseWriter {
            writer,
            event_counter: session.event_counter,
            session_id: Some(session.session_id.clone()),
        }
    }

    /// Numbers the next event and gives its id.
    pub fn next_event_id(&mut self) -> (id: String)
        requires
            old(self).counter() < u64::MAX,
        ensures
            final(self).counter() == old(self).counter() + 1,
            final(self).session() == old(self).session(),
            final(self).output() == old(self).output(),
            id@ == event_id(old(self).session(), (old(self).counter() + 1) as nat),
    {
        self.event_counter = self.event_counter + 1;
        let n = u64_to_decimal(self.event_counter);
        match &self.session_id {
            Some(sid) => {
                let mut id = sid.clone();
                id.append("-");
                id.append(n.as_str());
                id
            },
            None => n,
        }
    }

    /// Numbers the next `k` events, as `k` successive calls of
    /// [`Self::next_event_id`] do, and gives their ids in order: the `j`-th
    /// (from 0) is the id of event `counter + j + 1`.
    pub fn number_events(&mut self, k: u64) -> (ids: Vec<String>)
        requires
            old(self).counter() + k <= u64::MAX,
        ensures
            final(self).counter() == old(self).counter() + k,
            final(self).session() == old(self).session(),
            final(self).output() == old(self).output(),
            ids@.len() == k,
            forall|j: int| 0 <= j < k ==> #[trigger] ids@[j]@ == event_id(
                old(self).session(),
                (old(self).counter() + j + 1) as nat,
            ),
    {
        let ghost start = self.counter();
        let mut ids: Vec<String> = Vec::new();
        let mut i: u64 = 0;
        while i < k
            invariant
                i <= k,
                start + k <= u64::MAX,
                self.counter() == start + i,
                self.session() == old(self).session(),
                self.output() == old(self).output(),
                start == old(self).counter(),
                ids@.len() == i,
                forall|j: int| 0 <= j < i ==> #[trigger] ids@[j]@ == event_id(old(self).session(), (start + j + 1) as nat),
            decreases k - i,
        {
            let id = self.next_event_id();
            ids.push(id);
            i = i + 1;
        }
        ids
    }

    /// The output, giving up the writer.
    pub fn into_inner(self) -> (w: W)
        ensures
            w == self.output(),
    {
        self.writer
    }

    /// The number of events numbered so far.
    pub fn event_counter(&self) -> (n: u64)
        ensures
            n == self.counter(),
    {
        self.event_counter
    }
}

/// Events sent when a stream opens.
pub enum SseSetupEvent {
    /// The session is ready.
    SessionReady { session_id: String },
    /// The endpoint to which messages are posted.
    Endpoint { endpoint_url: String },
}

/// Builder for SSE responses.
pub struct SseResponseBuilder {
    /// Whether to include the session id in the response.
    pub include_session_id: bool,
    /// Whether to send a session-ready event first.
    pub send_session_ready: bool,
    /// Whether to send an endpoint event.
    pub send_endpoint: bool,
    /// The endpoint URL to send.
    pub endpoint_url: Option<String>,
    /// Keep-alive interval in seconds.
    pub keep_alive_interval: Option<u64>,
}

impl Default for SseResponseBuilder {
    fn default() -> (b: SseResponseBuilder)
        ensures
            b.include_session_id,
            b.send_session_ready,
            !b.send_endpoint,
            b.endpoint_url is None,
            b.keep_alive_interval == Some(30u64),
    {
        SseResponseBuilder {
            include_session_id: true,
            send_session_ready: true,
            send_endpoint: false,
            endpoint_url: None,
            keep_alive_interval: Some(30),
        }
    }
}

/// The events that open a stream for a session, in order: session-ready if
/// asked for, then the endpoint if asked for and known.
pub open spec fn setup_events_ok(b: SseResponseBuilder, session_id: Seq<char>, ev: Seq<SseSetupEvent>) -> bool {
    let ready: Seq<Option<Seq<char>>> = if b.send_session_ready { seq![Some(session_id)] } else { seq![] };
    let endpoint: Seq<Option<Seq<char>>> = if b.send_endpoint && b.endpoint_url is Some {
        seq![None::<Seq<char>>]
    } else {
        seq![]
    };
    &&& ev.len() == ready.len() + endpoint.len()
    &&& forall|i: int| 0 <= i < ev.len() ==> match #[trigger] ev[i] {
        SseSetupEvent::SessionReady { session_id: s } => i < ready.len() && s@ == session_id,
        SseSetupEvent::Endpoint { endpoint_url: u } => i >= ready.len() && (b.endpoint_url matches Some(url) && u@ == url@),
    }
}

impl SseResponseBuilder {
    /// The default builder.
    pub fn new() -> (b: SseResponseBuilder)
        ensures
            b.include_session_id,
            b.send_session_ready,
            !b.send_endpoint,
            b.endpoint_url is None,
            b.keep_alive_interval == Some(30u64),
    {
        SseResponseBuilder::default()
    }

    /// Sets whether to include the session id.
    pub fn include_session_id(self, enabled: bool) -> (b: SseResponseBuilder)
        ensures
            b == (SseResponseBuilder { include_session_id: enabled, ..self }),
    {
        SseResponseBuilder { include_session_id: enabled, ..self }
    }

    /// Sets whether to send a session-ready event.
    pub fn send_session_ready(self, send: bool) -> (b: SseResponseBuilder)
        ensures
            b == (SseResponseBuilder { send_session_ready: send, ..self }),
    {
        SseResponseBuilder { send_session_ready: send, ..self }
    }

    /// Sets the endpoint URL, and asks for it to be sent.
    pub fn endpoint_url(self, url: String) -> (b: SseResponseBuilder)
        ensures
            b == (SseResponseBuilder { send_endpoint: true, endpoint_url: Some(url), ..self }),
    {
        SseResponseBuilder { send_endpoint: true, endpoint_url: Some(url), ..self }
    }

    /// Sets the keep-alive interval.
    pub fn keep_alive_interval(self, seconds: Option<u64>) -> (b: SseResponseBuilder)
        ensures
            b == (SseResponseBuilder { keep_alive_interval: seconds, ..self }),
    {
        SseResponseBuilder { keep_alive_interval: seconds, ..self }
    }

    /// The events to write when a stream opens for `session`.
    pub fn initialize(&self, session: &SessionState) -> (ev: Vec<SseSetupEvent>)
        ensures
            setup_events_ok(*self, session.session_id@, ev@),
    {
        let mut ev: Vec<SseSetupEvent> = Vec::new();
        if self.send_session_ready {
            ev.push(SseSetupEvent::SessionReady { session_id: session.session_id.clone() });
        }
        if self.send_endpoint {
            if let Some(url) = &self.endpoint_url {
                ev.push(SseSetupEvent::Endpoint { endpoint_url: url.clone() });
            }
        }
        ev
    }
}

/// Event ids within one stream are `1, 2, 3, ...` after the counter it starts
/// from; two successive ids differ.
pub proof fn law_successive_event_ids_differ(session_id: Option<Seq<char>>, n: nat)
    ensures
        event_id(session_id, n) != event_id(session_id, n + 1),
{
    lemma_decimal_injective(n, n + 1);
    if let Some(sid) = session_id {
        reveal_strlit("-");
        let a = sid + "-"@ + decimal(n);
        let b = sid + "-"@ + decimal(n + 1);
        if a == b {
            assert(decimal(n) =~= a.skip(sid.len() + 1int));
            assert(decimal(n + 1) =~= b.skip(sid.len() + 1int));
        }
    }
}

/// Event ids within one stream never repeat: events with different numbers
/// have different ids.
pub proof fn law_event_ids_never_repeat(session_id: Option<Seq<char>>, a: nat, b: nat)
    ensures
        a != b ==> event_id(session_id, a) != event_id(session_id, b),
{
    lemma_decimal_injective(a, b);
    if let Some(sid) = session_id {
        reveal_strlit("-");
        let x = sid + "-"@ + decimal(a);
        let y = sid + "-"@ + decimal(b);
        if x == y {
            assert(decimal(a) =~= x.skip(sid.len() + 1int));
            assert(decimal(b) =~= y.skip(sid.len() + 1int));
        }
    }
}

proof fn lemma_decimal_len(n: nat)
    ensures
        decimal(n).len() >= 1,
    decreases n,
{
    if n >= 10 {
        lemma_decimal_len(n / 10);
    }
}

proof fn lemma_digit_injective(a: nat, b: nat)
    requires
        a < 10,
        b < 10,
        crate::text::digit_char(a) == crate::text::digit_char(b),
    ensures
        a == b,
{
}

/// Distinct numbers have distinct decimal forms.
pub proof fn lemma_decimal_injective(a: nat, b: nat)
    ensures
        decimal(a) == decimal(b) ==> a == b,
    decreases a + b,
{
    if decimal(a) == decimal(b) {
        if a < 10 && b < 10 {
            assert(decimal(a)[0] == crate::text::digit_char(a));
            assert(decimal(b)[0] == crate::text::digit_char(b));
            lemma_digit_injective(a, b);
        } else if a < 10 {
            lemma_decimal_len(b / 10);
            assert(decimal(b).len() >= 2);
        } else if b < 10 {
            lemma_decimal_len(a / 10);
            assert(decimal(a).len() >= 2);
        } else {
            let da = decimal(a);
            assert(da.drop_last() == decimal(a / 10));
            assert(decimal(b).drop_last() == decimal(b / 10));
            lemma_decimal_injective(a / 10, b / 10);
            assert(da.last() == crate::text::digit_char(a % 10));
            assert(decimal(b).last() == crate::text::digit_char(b % 10));
            lemma_digit_injective(a % 10, b % 10);
        }
    }
}

} // verus!
