//! Per-session state: the handshake flag, the negotiated protocol
//! version, the monotonic event counter and the bounded ring of recent
//! events kept for resumability.

use vstd::prelude::*;

use crate::strutil::{dec_digits, lemma_dec_digits_injective, u64_to_dec};

verus! {

/// How many events are retained per session for potential replay.
pub const MAX_EVENT_BUFFER_SIZE: usize = 100;

/// A server-pushed event retained for potential replay: its id and the
/// message payload (JSON text).
pub struct StoredEvent {
    pub id: String,
    pub data: String,
}

impl Clone for StoredEvent {
    fn clone(&self) -> (r: Self)
        ensures
            r == *self,
    {
        StoredEvent { id: self.id.clone(), data: self.data.clone() }
    }
}

/// The event id minted for `counter` within session `sid`:
/// the session id, a colon, and the counter in decimal.
pub open spec fn event_id_seq(sid: Seq<char>, counter: u64) -> Seq<char> {
    sid + seq![':'] + dec_digits(counter as nat)
}

/// Ids minted within one session from distinct counters are distinct.
pub proof fn lemma_event_ids_distinct(sid: Seq<char>, c1: u64, c2: u64)
    requires
        c1 != c2,
    ensures
        event_id_seq(sid, c1) != event_id_seq(sid, c2),
{
    if event_id_seq(sid, c1) == event_id_seq(sid, c2) {
        let d1 = dec_digits(c1 as nat);
        let d2 = dec_digits(c2 as nat);
        let p = sid + seq![':'];
        assert(d1 =~= (p + d1).skip(p.len() as int));
        assert(d2 =~= (p + d2).skip(p.len() as int));
        assert(d1 == d2);
        lemma_dec_digits_injective(c1 as nat, c2 as nat);
    }
}

/// Every id minted within a session starts with that session's id
/// followed by a colon.
pub proof fn lemma_event_id_prefixed(sid: Seq<char>, counter: u64)
    ensures
        crate::strutil::has_prefix(event_id_seq(sid, counter), sid + seq![':']),
{
    let id = event_id_seq(sid, counter);
    let p = sid + seq![':'];
    assert(id.subrange(0, p.len() as int) =~= p);
}

/// The state of one protocol session.
pub struct SessionState {
    /// Whether the `initialized` notification has arrived.
    pub initialized: bool,
    /// The protocol version negotiated when the session was created.
    pub protocol_version: String,
    /// Monotonic per-session counter backing event ids.
    pub event_counter: u64,
    /// Ring of the most recent events, oldest first.
    pub event_buffer: Vec<StoredEvent>,
}

impl Default for SessionState {
    /// The state assumed for a session nothing negotiated: still
    /// negotiating, on the backward-compatibility default version.
    fn default() -> (r: SessionState)
        ensures
            !r.initialized,
            r.protocol_version@ == crate::protocol::default_protocol_version_spec(),
            r.event_counter == 0,
            r.event_buffer@ =~= Seq::<StoredEvent>::empty(),
    {
        SessionState {
            initialized: false,
            protocol_version: String::from_str(crate::protocol::default_protocol_version()),
            event_counter: 0,
            event_buffer: Vec::new(),
        }
    }
}

/// The events strictly after the first entry whose id is `id`;
/// empty when no entry matches.
pub open spec fn events_after(buf: Seq<StoredEvent>, id: Seq<char>) -> Seq<StoredEvent>
    decreases buf.len(),
{
    if buf.len() == 0 {
        Seq::empty()
    } else if buf[0].id@ == id {
        buf.skip(1)
    } else {
        events_after(buf.skip(1), id)
    }
}

impl SessionState {
    /// A session freshly created by a successful `initialize`: still
    /// negotiating (the handshake flag down), the counter at zero, no
    /// events kept.
    pub fn new(protocol_version: String) -> (r: SessionState)
        ensures
            !r.initialized,
            r.protocol_version == protocol_version,
            r.event_counter == 0,
            r.event_buffer@ =~= Seq::<StoredEvent>::empty(),
    {
        SessionState {
            initialized: false,
            protocol_version,
            event_counter: 0,
            event_buffer: Vec::new(),
        }
    }

    /// Mint the next event id for this session: `sid:counter`, and
    /// advance the counter.
    pub fn next_event_id(&mut self, session_id: &str) -> (id: String)
        requires
            old(self).event_counter < u64::MAX,
        ensures
            id@ == event_id_seq(session_id@, old(self).event_counter),
            final(self).event_counter == old(self).event_counter + 1,
            final(self).initialized == old(self).initialized,
            final(self).protocol_version == old(self).protocol_version,
            final(self).event_buffer == old(self).event_buffer,
    {
        let counter = self.event_counter;
        self.event_counter = self.event_counter + 1;
        let mut id = String::from_str(session_id).concat(":");
        let digits = u64_to_dec(counter);
        id.append(digits.as_str());
        proof {
            reveal_strlit(":");
            assert(":"@ =~= seq![':']);
            assert(id@ =~= event_id_seq(session_id@, counter));
        }
        id
    }

    /// Keep `event` for potential replay, evicting the oldest entry when
    /// the ring is full.
    pub fn store_event(&mut self, event: StoredEvent)
        requires
            old(self).event_buffer@.len() <= MAX_EVENT_BUFFER_SIZE,
        ensures
            final(self).event_buffer@ == if old(self).event_buffer@.len()
                >= MAX_EVENT_BUFFER_SIZE {
                old(self).event_buffer@.skip(1).push(event)
            } else {
                old(self).event_buffer@.push(event)
            },
            final(self).event_buffer@.len() <= MAX_EVENT_BUFFER_SIZE,
            final(self).initialized == old(self).initialized,
            final(self).protocol_version == old(self).protocol_version,
            final(self).event_counter == old(self).event_counter,
    {
        if self.event_buffer.len() >= MAX_EVENT_BUFFER_SIZE {
            let _ = self.event_buffer.remove(0);
            proof {
                assert(self.event_buffer@ =~= old(self).event_buffer@.skip(1));
            }
        }
        self.event_buffer.push(event);
    }

    /// The events recorded after the one the client last saw, oldest
    /// first; empty when the id is unknown.
    pub fn get_events_after(&self, last_event_id: &str) -> (r: Vec<StoredEvent>)
        ensures
            r@ == events_after(self.event_buffer@, last_event_id@),
    {
        let n = self.event_buffer.len();
        let mut i: usize = 0;
        let mut found: bool = false;
        let mut result: Vec<StoredEvent> = Vec::new();
        #[verifier::loop_isolation(false)]
        while i < n
            invariant
                i <= n,
                n == self.event_buffer@.len(),
                found == (exists|j: int|
                    0 <= j < i && self.event_buffer@[j].id@ == last_event_id@),
                found ==> result@ == events_after(
                    self.event_buffer@.subrange(0, i as int),
                    last_event_id@,
                ),
                !found ==> result@.len() == 0,
            decreases n - i,
        {
            let ghost prefix = self.event_buffer@.subrange(0, i as int);
            let ghost found0 = found;
            let ghost result0 = result@;
            if found {
                result.push(self.event_buffer[i].clone());
            } else if crate::strutil::str_eq(
                self.event_buffer[i].id.as_str(),
                last_event_id,
            ) {
                found = true;
            }
            i += 1;
            proof {
                let e = self.event_buffer@[i - 1];
                let prefix2 = self.event_buffer@.subrange(0, i as int);
                assert(prefix2 =~= prefix.push(e));
                lemma_events_after_snoc(prefix, e, last_event_id@);
                if found0 {
                    assert(exists|j: int| 0 <= j < i && self.event_buffer@[j].id@
                        == last_event_id@);
                    let j0 = choose|j: int|
                        0 <= j < i - 1 && self.event_buffer@[j].id@ == last_event_id@;
                    assert(prefix[j0] == self.event_buffer@[j0]);
                    assert(exists|j: int| 0 <= j < prefix.len() && prefix[j].id@
                        == last_event_id@);
                    assert(events_after(prefix2, last_event_id@) == events_after(
                        prefix,
                        last_event_id@,
                    ).push(e));
                    assert(result@ == result0.push(e));
                } else if e.id@ == last_event_id@ {
                    assert(self.event_buffer@[i - 1].id@ == last_event_id@);
                    assert(result@ =~= events_after(prefix2, last_event_id@));
                } else {
                    assert(!(exists|j: int| 0 <= j < i && self.event_buffer@[j].id@
                        == last_event_id@)) by {
                        if exists|j: int| 0 <= j < i && self.event_buffer@[j].id@
                            == last_event_id@ {
                            let j = choose|j: int|
                                0 <= j < i && self.event_buffer@[j].id@ == last_event_id@;
                            assert(j == i - 1 || (0 <= j < i - 1 && self.event_buffer@[j].id@
                                == last_event_id@));
                        }
                    }
                }
            }
        }
        proof {
            assert(self.event_buffer@.subrange(0, n as int) =~= self.event_buffer@);
            if !found {
                lemma_events_after_no_match(self.event_buffer@, last_event_id@);
                assert(result@ =~= events_after(self.event_buffer@, last_event_id@));
            }
        }
        result
    }
}

/// How `events_after` grows when one event is appended.
proof fn lemma_events_after_snoc(buf: Seq<StoredEvent>, e: StoredEvent, id: Seq<char>)
    ensures
        events_after(buf.push(e), id) == if exists|j: int| 0 <= j < buf.len() && buf[j].id@ == id {
            events_after(buf, id).push(e)
        } else if e.id@ == id {
            Seq::<StoredEvent>::empty()
        } else {
            events_after(buf, id)
        },
    decreases buf.len(),
{
    let ext = buf.push(e);
    if buf.len() == 0 {
        assert(ext.len() == 1);
        assert(ext[0] == e);
        if e.id@ == id {
            assert(events_after(ext, id) =~= Seq::<StoredEvent>::empty());
        } else {
            assert(events_after(ext.skip(1), id) == events_after(buf, id)) by {
                assert(ext.skip(1) =~= buf);
            }
        }
    } else {
        assert(ext[0] == buf[0]);
        if buf[0].id@ == id {
            assert(events_after(ext, id) == ext.skip(1));
            assert(events_after(buf, id).push(e) =~= ext.skip(1));
            assert(buf[0 as int].id@ == id);
        } else {
            assert(ext.skip(1) =~= buf.skip(1).push(e));
            lemma_events_after_snoc(buf.skip(1), e, id);
            assert((exists|j: int| 0 <= j < buf.skip(1).len() && buf.skip(1)[j].id@ == id)
                == (exists|j: int| 0 <= j < buf.len() && buf[j].id@ == id)) by {
                if exists|j: int| 0 <= j < buf.skip(1).len() && buf.skip(1)[j].id@ == id {
                    let j = choose|j: int|
                        0 <= j < buf.skip(1).len() && buf.skip(1)[j].id@ == id;
                    assert(buf[j + 1].id@ == id);
                }
                if exists|j: int| 0 <= j < buf.len() && buf[j].id@ == id {
                    let j = choose|j: int| 0 <= j < buf.len() && buf[j].id@ == id;
                    assert(j != 0);
                    assert(buf.skip(1)[j - 1].id@ == id);
                }
            }
        }
    }
}

/// Without a matching id, no events are eligible for replay.
proof fn lemma_events_after_no_match(buf: Seq<StoredEvent>, id: Seq<char>)
    requires
        forall|j: int| 0 <= j < buf.len() ==> buf[j].id@ != id,
    ensures
        events_after(buf, id) == Seq::<StoredEvent>::empty(),
    decreases buf.len(),
{
    if buf.len() > 0 {
        lemma_events_after_no_match(buf.skip(1), id);
    }
}

} // verus!
