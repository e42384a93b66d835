//! Ephemeral channels and presence.
//!
//! An event of a channel is never stored: it is handed to those who listen, and is
//! gone. Every event bears the client that it came from, and no client receives an
//! event of its own.

use crate::errors::{
    not_found_error, too_large_error, validation_error, ApiError, ApiResult, ErrorCode, ErrorView,
};
use crate::ids::{name_error, name_ok, now_ms, require_valid_name};
use crate::json::{
    duplicate, int_view, json_int, json_text, json_uint, member, put, Json, JsonView, NumberView,
};
use crate::realtime::{SseEvent, SseView};
use crate::text::{chars_of, is_word, same, word};
use vstd::prelude::*;

verus! {

// ---- Events ----------------------------------------------------------------

/// Whether a client has come or gone.
#[derive(Debug, Clone, Copy, PartialEq, Eq, Structural)]
pub enum PresenceKind {
    Join,
    Leave,
}

pub open spec fn presence_name(k: PresenceKind) -> Seq<char> {
    match k {
        PresenceKind::Join => "join"@,
        PresenceKind::Leave => "leave"@,
    }
}

impl PresenceKind {
    pub fn as_str(self) -> (r: &'static str)
        ensures
            r@ == presence_name(self),
    {
        match self {
            PresenceKind::Join => "join",
            PresenceKind::Leave => "leave",
        }
    }
}

/// A message of an application, or the coming or going of a client.
#[derive(Debug)]
pub enum EventKind {
    Message(Json),
    Presence(PresenceKind),
}

pub enum KindView {
    Message(JsonView),
    Presence(PresenceKind),
}

impl View for EventKind {
    type V = KindView;

    open spec fn view(&self) -> KindView {
        match *self {
            EventKind::Message(d) => KindView::Message(d@),
            EventKind::Presence(k) => KindView::Presence(k),
        }
    }
}

/// An event of a channel.
#[derive(Debug)]
pub struct PubSubEvent {
    pub channel: String,
    /// The client that the event came from.
    pub client_id: String,
    pub ts: i64,
    pub kind: EventKind,
}

#[verifier::ext_equal]
pub struct PubSubView {
    pub channel: Seq<char>,
    pub client_id: Seq<char>,
    pub ts: i64,
    pub kind: KindView,
}

impl View for PubSubEvent {
    type V = PubSubView;

    open spec fn view(&self) -> PubSubView {
        PubSubView {
            channel: self.channel@,
            client_id: self.client_id@,
            ts: self.ts,
            kind: self.kind@,
        }
    }
}

pub open spec fn event_view(e: Option<PubSubEvent>) -> Option<PubSubView> {
    match e {
        Some(x) => Some(x@),
        None => None,
    }
}

/// How many events a channel holds for one that lags: at least one.
pub fn channel_capacity(configured: usize) -> (r: usize)
    ensures
        r == (if configured < 1 {
            1
        } else {
            configured
        }),
{
    if configured < 1 {
        1
    } else {
        configured
    }
}

// ---- Validation ------------------------------------------------------------

/// One to 128 letters, digits, hyphens, and underscores.
pub open spec fn client_ok(id: Seq<char>) -> bool {
    &&& 1 <= id.len() <= 128
    &&& forall|i: int| 0 <= i < id.len() ==> word(#[trigger] id[i]) || id[i] == '-'
}

/// Whether `id` may identify a client. Such an identifier can carry nothing into a
/// log or an event stream that would be read as something else.
pub fn valid_client_id(id: &str) -> (r: bool)
    ensures
        r == client_ok(id@),
{
    let v = chars_of(id);
    if v.len() == 0 || v.len() > 128 {
        return false;
    }
    let mut i: usize = 0;
    while i < v.len()
        invariant
            v@ == id@,
            i <= v@.len(),
            forall|k: int| 0 <= k < i ==> word(#[trigger] v@[k]) || v@[k] == '-',
        decreases v@.len() - i,
    {
        if !is_word(v[i]) && v[i] != '-' {
            return false;
        }
        i = i + 1;
    }
    true
}

/// Refuses an identifier that is not valid.
pub fn require_client_id(id: &str) -> (r: ApiResult<()>)
    ensures
        match r {
            Ok(_) => client_ok(id@),
            Err(e) => !client_ok(id@) && e@ == validation_error(
                "invalid client_id; must be 1-128 chars of [A-Za-z0-9_-]"@,
            ),
        },
{
    if valid_client_id(id) {
        Ok(())
    } else {
        Err(ApiError::validation("invalid client_id; must be 1-128 chars of [A-Za-z0-9_-]"))
    }
}

/// Refuses every request where channels are switched off, as if there were no such
/// route.
pub fn ensure_enabled(enabled: bool) -> (r: ApiResult<()>)
    ensures
        match r {
            Ok(_) => enabled,
            Err(e) => !enabled && e@ == not_found_error("API route not found"@),
        },
{
    if enabled {
        Ok(())
    } else {
        Err(ApiError::not_found("API route not found"))
    }
}

/// Why a client may not listen to a channel, if it may not.
pub open spec fn listen_refusal(channel: Seq<char>, client_id: Seq<char>) -> Option<ErrorView> {
    if !name_ok(channel) {
        Some(validation_error(name_error("channel"@)))
    } else if !client_ok(client_id) {
        Some(
            validation_error("invalid client_id; must be 1-128 chars of [A-Za-z0-9_-]"@),
        )
    } else {
        None
    }
}

/// The query of a request to listen to a channel.
#[derive(Debug)]
pub struct SubscribeQuery {
    pub client_id: String,
}

/// Holds a request to listen to a channel to the rules.
pub fn admit_listener(channel: &str, q: &SubscribeQuery) -> (r: ApiResult<()>)
    ensures
        match r {
            Ok(_) => listen_refusal(channel@, q.client_id@) is None,
            Err(e) => listen_refusal(channel@, q.client_id@) == Some(e@),
        },
{
    match require_valid_name("channel", channel) {
        Ok(_) => require_client_id(q.client_id.as_str()),
        Err(e) => Err(e),
    }
}

// ---- Publishing ------------------------------------------------------------

/// The body of a request to publish.
#[derive(Debug)]
pub struct PublishBody {
    pub client_id: String,
    pub data: Json,
}

/// Why an event is not published, if it is not.
pub open spec fn publish_refusal(
    channel: Seq<char>,
    client_id: Seq<char>,
    bytes: nat,
    max_bytes: nat,
) -> Option<ErrorView> {
    match listen_refusal(channel, client_id) {
        Some(e) => Some(e),
        None => if bytes > max_bytes {
            Some(too_large_error("event payload too large"@))
        } else {
            None
        },
    }
}

/// The event that a request publishes at the time `now`. `text` is its payload as
/// JSON text.
pub fn publish_at(channel: String, body: PublishBody, text: &str, max_bytes: usize, now: i64) -> (r:
    ApiResult<PubSubEvent>)
    ensures
        ({
            let refusal = publish_refusal(
                channel@,
                body.client_id@,
                vstd::utf8::encode_utf8(text@).len(),
                max_bytes as nat,
            );
            match r {
                Ok(ev) => refusal is None && ev@ == (PubSubView {
                    channel: channel@,
                    client_id: body.client_id@,
                    ts: now,
                    kind: KindView::Message(body.data@),
                }),
                Err(e) => refusal == Some(e@),
            }
        }),
{
    match require_valid_name("channel", channel.as_str()) {
        Ok(_) => {},
        Err(e) => {
            return Err(e);
        },
    }
    match require_client_id(body.client_id.as_str()) {
        Ok(_) => {},
        Err(e) => {
            return Err(e);
        },
    }
    let bytes: usize = text.as_bytes().len();
    if bytes > max_bytes {
        return Err(ApiError::payload_too_large("event payload too large"));
    }
    Ok(
        PubSubEvent {
            channel,
            client_id: body.client_id,
            ts: now,
            kind: EventKind::Message(body.data),
        },
    )
}

/// The event that a request publishes, at the time of the clock.
pub fn publish(channel: String, body: PublishBody, text: &str, max_bytes: usize) -> (r: ApiResult<
    PubSubEvent,
>)
    ensures
        ({
            let refusal = publish_refusal(
                channel@,
                body.client_id@,
                vstd::utf8::encode_utf8(text@).len(),
                max_bytes as nat,
            );
            match r {
                Ok(ev) => refusal is None && ev@ == (PubSubView {
                    channel: channel@,
                    client_id: body.client_id@,
                    ts: ev@.ts,
                    kind: KindView::Message(body.data@),
                }),
                Err(e) => refusal == Some(e@),
            }
        }),
{
    let now: i64 = now_ms();
    publish_at(channel, body, text, max_bytes, now)
}

/// What a publisher is answered: to how many listeners the event was handed.
pub fn publish_answer(delivered: u64) -> (r: Json)
    ensures
        r@ == JsonView::Object(map!["delivered"@ => int_view(delivered as int)]),
{
    let mut e: Vec<(String, Json)> = Vec::new();
    put(&mut e, "delivered", json_uint(delivered));
    Json::Object(e)
}

// ---- Delivery --------------------------------------------------------------

/// An event reaches a listener: one of its channel that another client sent.
pub open spec fn reaches(ev: PubSubView, channel: Seq<char>, client_id: Seq<char>) -> bool {
    ev.channel == channel && ev.client_id != client_id
}

/// An event on the wire.
pub open spec fn pubsub_sse(ev: PubSubView) -> SseView {
    match ev.kind {
        KindView::Message(data) => SseView {
            id: None,
            event: "message"@,
            data: JsonView::Object(
                map![
                    "channel"@ => JsonView::Text(ev.channel),
                    "client_id"@ => JsonView::Text(ev.client_id),
                    "ts"@ => int_view(ev.ts as int),
                    "data"@ => data,
                ],
            ),
        },
        KindView::Presence(kind) => SseView {
            id: None,
            event: "presence"@,
            data: JsonView::Object(
                map![
                    "type"@ => JsonView::Text(presence_name(kind)),
                    "client_id"@ => JsonView::Text(ev.client_id),
                    "ts"@ => int_view(ev.ts as int),
                ],
            ),
        },
    }
}

fn message_event(ev: &PubSubEvent, data: &Json) -> (r: SseEvent)
    requires
        ev@.kind == KindView::Message(data@),
    ensures
        r@ == pubsub_sse(ev@),
{
    let mut e: Vec<(String, Json)> = Vec::new();
    put(&mut e, "channel", json_text(ev.channel.as_str()));
    put(&mut e, "client_id", json_text(ev.client_id.as_str()));
    put(&mut e, "ts", json_int(ev.ts));
    put(&mut e, "data", duplicate(data));
    SseEvent { id: None, event: "message", data: Json::Object(e) }
}

fn presence_event(ev: &PubSubEvent, kind: PresenceKind) -> (r: SseEvent)
    requires
        ev@.kind == KindView::Presence(kind),
    ensures
        r@ == pubsub_sse(ev@),
{
    let mut e: Vec<(String, Json)> = Vec::new();
    put(&mut e, "type", json_text(kind.as_str()));
    put(&mut e, "client_id", json_text(ev.client_id.as_str()));
    put(&mut e, "ts", json_int(ev.ts));
    SseEvent { id: None, event: "presence", data: Json::Object(e) }
}

/// What a listener is sent for an event, if anything.
pub fn deliver(ev: &PubSubEvent, channel: &str, client_id: &str) -> (r: Option<SseEvent>)
    ensures
        match r {
            Some(s) => reaches(ev@, channel@, client_id@) && s@ == pubsub_sse(ev@),
            None => !reaches(ev@, channel@, client_id@),
        },
{
    if !same(ev.channel.as_str(), channel) || same(ev.client_id.as_str(), client_id) {
        return None;
    }
    match &ev.kind {
        EventKind::Message(data) => Some(message_event(ev, data)),
        EventKind::Presence(kind) => Some(presence_event(ev, *kind)),
    }
}

/// A client is never sent an event of its own, be it a message or its own coming
/// and going; every other listener of the channel is.
pub proof fn law_sender_is_excluded(ev: PubSubView, channel: Seq<char>, client_id: Seq<char>)
    ensures
        ev.client_id == client_id ==> !reaches(ev, channel, client_id),
        ev.channel == channel && ev.client_id != client_id ==> reaches(ev, channel, client_id),
{
}

// ---- Presence --------------------------------------------------------------

/// One client that is present on a channel. It stays present until the last of its
/// subscriptions has closed.
#[derive(Debug, Clone, Copy)]
pub struct PresenceEntry {
    pub connected_at: i64,
    /// How many subscriptions the client has open.
    pub count: u32,
}

/// A client on a channel.
pub type ClientKey = (Seq<char>, Seq<char>);

#[derive(Debug)]
struct Present {
    channel: String,
    client_id: String,
    entry: PresenceEntry,
}

impl Present {
    spec fn key(self) -> ClientKey {
        (self.channel@, self.client_id@)
    }
}

/// Who is present on the channels of a database.
#[derive(Debug)]
pub struct PresenceMap {
    entries: Vec<Present>,
}

/// The map that a list of entries stands for.
spec fn entries_view(entries: Seq<Present>) -> Map<ClientKey, PresenceEntry>
    decreases entries.len(),
{
    if entries.len() == 0 {
        Map::empty()
    } else {
        entries_view(entries.drop_last()).insert(entries.last().key(), entries.last().entry)
    }
}

/// No client is entered twice for a channel.
spec fn distinct(entries: Seq<Present>) -> bool {
    forall|i: int, j: int|
        0 <= i < j < entries.len() ==> (#[trigger] entries[i]).key() != (
        #[trigger] entries[j]).key()
}

impl View for PresenceMap {
    type V = Map<ClientKey, PresenceEntry>;

    closed spec fn view(&self) -> Map<ClientKey, PresenceEntry> {
        entries_view(self.entries@)
    }
}

proof fn lemma_entries(entries: Seq<Present>)
    requires
        distinct(entries),
    ensures
        forall|k: ClientKey| #[trigger]
            entries_view(entries).contains_key(k) <==> exists|i: int|
                0 <= i < entries.len() && (#[trigger] entries[i]).key() == k,
        forall|i: int|
            0 <= i < entries.len() ==> entries_view(entries)[(#[trigger] entries[i]).key()]
                == entries[i].entry,
    decreases entries.len(),
{
    if entries.len() > 0 {
        let front = entries.drop_last();
        assert(distinct(front)) by {
            assert forall|i: int, j: int| 0 <= i < j < front.len() implies (
            #[trigger] front[i]).key() != (#[trigger] front[j]).key() by {
                assert(front[i] == entries[i] && front[j] == entries[j]);
            }
        }
        lemma_entries(front);
        assert forall|k: ClientKey| #[trigger] entries_view(entries).contains_key(k) implies exists|
            i: int,
        |
            0 <= i < entries.len() && (#[trigger] entries[i]).key() == k by {
            if k == entries.last().key() {
                assert(entries[entries.len() - 1].key() == k);
            } else {
                assert(entries_view(front).contains_key(k));
                let i = choose|i: int| 0 <= i < front.len() && (#[trigger] front[i]).key() == k;
                assert(entries[i].key() == k);
            }
        }
        assert forall|k: ClientKey|
            (exists|i: int| 0 <= i < entries.len() && (#[trigger] entries[i]).key() == k) implies
            #[trigger] entries_view(entries).contains_key(k) by {
            let i = choose|i: int| 0 <= i < entries.len() && (#[trigger] entries[i]).key() == k;
            if i < front.len() {
                assert(front[i].key() == k);
                assert(entries_view(front).contains_key(k));
            }
        }
        assert forall|i: int| 0 <= i < entries.len() implies entries_view(entries)[(
        #[trigger] entries[i]).key()] == entries[i].entry by {
            if i < front.len() {
                assert(front[i] == entries[i]);
                assert(entries_view(front)[front[i].key()] == front[i].entry);
                assert(entries[i].key() != entries[entries.len() - 1].key());
            }
        }
    }
}

/// Where an entry stood before the one at `i` was taken out.
spec fn place_before(i: int, a: int) -> int {
    if a < i {
        a
    } else {
        a + 1
    }
}

/// What is left when an entry is taken out stood there before, in the same order.
proof fn lemma_left(before: Seq<Present>, i: int, a: int)
    requires
        0 <= i < before.len(),
        0 <= a < before.len() - 1,
    ensures
        before.remove(i)[a] == before[place_before(i, a)],
        0 <= place_before(i, a) < before.len(),
        place_before(i, a) != i,
{
}

/// No client is entered twice after an entry was taken out.
proof fn lemma_left_distinct(before: Seq<Present>, i: int)
    requires
        distinct(before),
        0 <= i < before.len(),
    ensures
        distinct(before.remove(i)),
{
    let after = before.remove(i);
    assert forall|a: int, b: int| 0 <= a < b < after.len() implies (#[trigger] after[a]).key() != (
    #[trigger] after[b]).key() by {
        lemma_left(before, i, a);
        lemma_left(before, i, b);
        assert(before[place_before(i, a)].key() != before[place_before(i, b)].key());
    }
}

/// Everyone who is left was there before, with the same entry, and is another than the
/// one that was taken out.
proof fn lemma_left_was_there(before: Seq<Present>, i: int, key: ClientKey)
    requires
        distinct(before),
        0 <= i < before.len(),
        entries_view(before.remove(i)).contains_key(key),
    ensures
        key != before[i].key(),
        entries_view(before).contains_key(key),
        entries_view(before.remove(i))[key] == entries_view(before)[key],
{
    let after = before.remove(i);
    lemma_left_distinct(before, i);
    lemma_entries(before);
    lemma_entries(after);
    let a = choose|a: int| 0 <= a < after.len() && (#[trigger] after[a]).key() == key;
    lemma_left(before, i, a);
    let c = place_before(i, a);
    assert(before[c].key() == key);
    assert(entries_view(before)[before[c].key()] == before[c].entry);
    assert(entries_view(after)[after[a].key()] == after[a].entry);
    if c < i {
        assert(before[c].key() != before[i].key());
    } else {
        assert(before[i].key() != before[c].key());
    }
}

/// Everyone who was there before is left, but for the one that was taken out.
proof fn lemma_others_are_left(before: Seq<Present>, i: int, key: ClientKey)
    requires
        distinct(before),
        0 <= i < before.len(),
        entries_view(before).contains_key(key),
        key != before[i].key(),
    ensures
        entries_view(before.remove(i)).contains_key(key),
{
    let after = before.remove(i);
    lemma_left_distinct(before, i);
    lemma_entries(before);
    lemma_entries(after);
    let c = choose|c: int| 0 <= c < before.len() && (#[trigger] before[c]).key() == key;
    let a = if c < i {
        c
    } else {
        c - 1
    };
    lemma_left(before, i, a);
    assert(after[a].key() == key);
}

/// The map after an entry was taken out.
proof fn lemma_removed(before: Seq<Present>, i: int)
    requires
        distinct(before),
        0 <= i < before.len(),
    ensures
        distinct(before.remove(i)),
        entries_view(before.remove(i)) == entries_view(before).remove(before[i].key()),
{
    lemma_left_distinct(before, i);
    let x = entries_view(before.remove(i));
    let y = entries_view(before).remove(before[i].key());
    assert forall|key: ClientKey| #[trigger] x.contains_key(key) implies y.contains_key(key)
        && x[key] == y[key] by {
        lemma_left_was_there(before, i, key);
    }
    assert forall|key: ClientKey| #[trigger] y.contains_key(key) implies x.contains_key(key) by {
        lemma_others_are_left(before, i, key);
    }
    assert(x =~= y);
}

/// The map after one more subscription.
pub open spec fn registered(
    m: Map<ClientKey, PresenceEntry>,
    k: ClientKey,
    now: i64,
) -> Map<ClientKey, PresenceEntry> {
    if m.contains_key(k) {
        m.insert(
            k,
            PresenceEntry { connected_at: m[k].connected_at, count: (m[k].count + 1) as u32 },
        )
    } else {
        m.insert(k, PresenceEntry { connected_at: now, count: 1 })
    }
}

/// The map after one subscription less.
pub open spec fn deregistered(m: Map<ClientKey, PresenceEntry>, k: ClientKey) -> Map<
    ClientKey,
    PresenceEntry,
> {
    if !m.contains_key(k) {
        m
    } else if m[k].count <= 1 {
        m.remove(k)
    } else {
        m.insert(
            k,
            PresenceEntry { connected_at: m[k].connected_at, count: (m[k].count - 1) as u32 },
        )
    }
}

/// The client has as many subscriptions open as can be counted.
pub open spec fn full(m: Map<ClientKey, PresenceEntry>, k: ClientKey) -> bool {
    m.contains_key(k) && m[k].count == u32::MAX
}

pub open spec fn presence_change(k: ClientKey, now: i64, kind: PresenceKind) -> PubSubView {
    PubSubView { channel: k.0, client_id: k.1, ts: now, kind: KindView::Presence(kind) }
}

/// A client of a channel and since when it is there.
#[derive(Debug)]
pub struct PresenceClient {
    pub client_id: String,
    pub connected_at: i64,
}

impl PresenceMap {
    /// No client is entered twice, and everyone who is present has a subscription
    /// open.
    pub closed spec fn well_formed(self) -> bool {
        &&& distinct(self.entries@)
        &&& forall|i: int|
            0 <= i < self.entries@.len() ==> (#[trigger] self.entries@[i]).entry.count >= 1
    }

    /// Everyone who is present has a subscription open.
    pub proof fn law_everyone_present_is_connected(&self)
        requires
            self.well_formed(),
        ensures
            forall|k: ClientKey| #[trigger] self@.contains_key(k) ==> self@[k].count >= 1,
    {
        lemma_entries(self.entries@);
        assert forall|k: ClientKey| #[trigger] self@.contains_key(k) implies self@[k].count
            >= 1 by {
            let i = choose|i: int|
                0 <= i < self.entries@.len() && (#[trigger] self.entries@[i]).key() == k;
            assert(self.entries@[i].entry.count >= 1);
        }
    }

    pub fn new() -> (r: PresenceMap)
        ensures
            r.well_formed(),
            r@ == Map::<ClientKey, PresenceEntry>::empty(),
    {
        PresenceMap { entries: Vec::new() }
    }

    /// Where a client is entered.
    fn position(&self, channel: &str, client_id: &str) -> (r: Option<usize>)
        requires
            self.well_formed(),
        ensures
            match r {
                Some(i) => i < self.entries@.len() && self.entries@[i as int].key() == (
                    channel@,
                    client_id@,
                ) && self@.contains_key((channel@, client_id@)) && self@[(channel@, client_id@)]
                    == self.entries@[i as int].entry,
                None => !self@.contains_key((channel@, client_id@)),
            },
    {
        proof {
            lemma_entries(self.entries@);
        }
        let mut i: usize = 0;
        while i < self.entries.len()
            invariant
                i <= self.entries@.len(),
                self.well_formed(),
                forall|k: ClientKey| #[trigger]
                    self@.contains_key(k) <==> exists|i: int|
                        0 <= i < self.entries@.len() && (#[trigger] self.entries@[i]).key() == k,
                forall|i: int|
                    0 <= i < self.entries@.len() ==> self@[(#[trigger] self.entries@[i]).key()]
                        == self.entries@[i].entry,
                forall|k: int|
                    0 <= k < i ==> (#[trigger] self.entries@[k]).key() != (channel@, client_id@),
            decreases self.entries@.len() - i,
        {
            let e = &self.entries[i];
            if same(e.channel.as_str(), channel) && same(e.client_id.as_str(), client_id) {
                assert(self.entries@[i as int].key() == (channel@, client_id@));
                return Some(i);
            }
            assert(self.entries@[i as int].key() != (channel@, client_id@));
            i = i + 1;
        }
        None
    }

    /// Whether one more subscription of the client can be counted.
    pub fn can_register(&self, channel: &str, client_id: &str) -> (r: bool)
        requires
            self.well_formed(),
        ensures
            r == !full(self@, (channel@, client_id@)),
    {
        match self.position(channel, client_id) {
            Some(i) => self.entries[i].entry.count < u32::MAX,
            None => true,
        }
    }

    /// Enters a subscription that opens at the time `now`. The first of a client
    /// announces that the client has come.
    pub fn register_at(&mut self, channel: &str, client_id: &str, now: i64) -> (r: Option<
        PubSubEvent,
    >)
        requires
            old(self).well_formed(),
            !full(old(self)@, (channel@, client_id@)),
        ensures
            final(self).well_formed(),
            final(self)@ == registered(old(self)@, (channel@, client_id@), now),
            event_view(r) == (if old(self)@.contains_key((channel@, client_id@)) {
                None
            } else {
                Some(presence_change((channel@, client_id@), now, PresenceKind::Join))
            }),
    {
        let ghost k = (channel@, client_id@);
        let ghost before = self.entries@;
        match self.position(channel, client_id) {
            Some(i) => {
                let e = self.entries[i].entry;
                let entry = PresenceEntry { connected_at: e.connected_at, count: e.count + 1 };
                self.replace_entry(i, entry);
                None
            },
            None => {
                let p = Present {
                    channel: channel.to_string(),
                    client_id: client_id.to_string(),
                    entry: PresenceEntry { connected_at: now, count: 1 },
                };
                self.entries.push(p);
                proof {
                    lemma_entries(before);
                    assert(self.entries@.drop_last() =~= before);
                    assert forall|i: int, j: int| 0 <= i < j < self.entries@.len() implies (
                    #[trigger] self.entries@[i]).key() != (#[trigger] self.entries@[j]).key() by {
                        if j == before.len() {
                            assert(before[i].key() != k);
                        }
                    }
                }
                Some(
                    PubSubEvent {
                        channel: channel.to_string(),
                        client_id: client_id.to_string(),
                        ts: now,
                        kind: EventKind::Presence(PresenceKind::Join),
                    },
                )
            },
        }
    }

    /// Gives an entry another value.
    fn replace_entry(&mut self, i: usize, entry: PresenceEntry)
        requires
            old(self).well_formed(),
            i < old(self).entries@.len(),
            entry.count >= 1,
        ensures
            final(self).well_formed(),
            final(self)@ == old(self)@.insert(old(self).entries@[i as int].key(), entry),
    {
        let ghost before = self.entries@;
        let old_entry = self.entries.remove(i);
        let p = Present { channel: old_entry.channel, client_id: old_entry.client_id, entry };
        self.entries.insert(i, p);
        proof {
            assert(self.entries@ =~= before.update(i as int, p));
            assert forall|a: int| 0 <= a < before.len() implies (
            #[trigger] self.entries@[a]).key() == before[a].key() by {}
            assert(distinct(self.entries@)) by {
                assert forall|a: int, b: int| 0 <= a < b < self.entries@.len() implies (
                #[trigger] self.entries@[a]).key() != (#[trigger] self.entries@[b]).key() by {
                    assert(before[a].key() != before[b].key());
                }
            }
            lemma_entries(before);
            lemma_entries(self.entries@);
            let k = before[i as int].key();
            let x = entries_view(self.entries@);
            let y = entries_view(before).insert(k, entry);
            assert forall|key: ClientKey| #[trigger] x.contains_key(key) implies y.contains_key(key)
                && x[key] == y[key] by {
                let a = choose|a: int|
                    0 <= a < self.entries@.len() && (#[trigger] self.entries@[a]).key() == key;
                assert(before[a].key() == key);
                assert(x[self.entries@[a].key()] == self.entries@[a].entry);
                assert(entries_view(before)[before[a].key()] == before[a].entry);
                if a != i {
                    assert(key != k);
                }
            }
            assert forall|key: ClientKey| #[trigger] y.contains_key(key) implies x.contains_key(
                key,
            ) by {
                if key == k {
                    assert(self.entries@[i as int].key() == k);
                } else {
                    assert(entries_view(before).contains_key(key));
                    let a = choose|a: int|
                        0 <= a < before.len() && (#[trigger] before[a]).key() == key;
                    assert(self.entries@[a].key() == key);
                }
            }
            assert(x =~= y);
        }
    }

    /// Takes out a subscription that closes at the time `now`. The last of a client
    /// announces that the client has gone.
    pub fn deregister_at(&mut self, channel: &str, client_id: &str, now: i64) -> (r: Option<
        PubSubEvent,
    >)
        requires
            old(self).well_formed(),
        ensures
            final(self).well_formed(),
            final(self)@ == deregistered(old(self)@, (channel@, client_id@)),
            event_view(r) == (if old(self)@.contains_key((channel@, client_id@)) && old(self)@[(
                channel@,
                client_id@,
            )].count <= 1 {
                Some(presence_change((channel@, client_id@), now, PresenceKind::Leave))
            } else {
                None
            }),
    {
        let ghost k = (channel@, client_id@);
        let ghost before = self.entries@;
        match self.position(channel, client_id) {
            Some(i) => {
                let e = self.entries[i].entry;
                if e.count > 1 {
                    let entry = PresenceEntry { connected_at: e.connected_at, count: e.count - 1 };
                    self.replace_entry(i, entry);
                    None
                } else {
                    self.entries.remove(i);
                    proof {
                        lemma_removed(before, i as int);
                    }
                    Some(
                        PubSubEvent {
                            channel: channel.to_string(),
                            client_id: client_id.to_string(),
                            ts: now,
                            kind: EventKind::Presence(PresenceKind::Leave),
                        },
                    )
                }
            },
            None => None,
        }
    }

    /// Enters a subscription that opens at the time of the clock.
    pub fn register(&mut self, channel: &str, client_id: &str) -> (r: Option<PubSubEvent>)
        requires
            old(self).well_formed(),
            !full(old(self)@, (channel@, client_id@)),
        ensures
            final(self).well_formed(),
            exists|now: i64|
                {
                    &&& final(self)@ == #[trigger] registered(
                        old(self)@,
                        (channel@, client_id@),
                        now,
                    )
                    &&& event_view(r) == (if old(self)@.contains_key((channel@, client_id@)) {
                        None
                    } else {
                        Some(presence_change((channel@, client_id@), now, PresenceKind::Join))
                    })
                },
    {
        let now: i64 = now_ms();
        self.register_at(channel, client_id, now)
    }

    /// Takes out a subscription that closes at the time of the clock.
    pub fn deregister(&mut self, channel: &str, client_id: &str) -> (r: Option<PubSubEvent>)
        requires
            old(self).well_formed(),
        ensures
            final(self).well_formed(),
            final(self)@ == deregistered(old(self)@, (channel@, client_id@)),
            match r {
                Some(ev) => old(self)@.contains_key((channel@, client_id@)) && !final(self)@.contains_key((channel@, client_id@)) && ev@ == presence_change(
                    (channel@, client_id@),
                    ev.ts,
                    PresenceKind::Leave,
                ),
                None => old(self)@.contains_key((channel@, client_id@)) == final(self)@.contains_key((channel@, client_id@)),
            },
    {
        let now: i64 = now_ms();
        self.deregister_at(channel, client_id, now)
    }

    /// Who is present on a channel: everyone once, and nobody else.
    pub fn roster(&self, channel: &str) -> (r: Vec<PresenceClient>)
        requires
            self.well_formed(),
        ensures
            forall|i: int|
                0 <= i < r@.len() ==> self@.contains_key(
                    (channel@, (#[trigger] r@[i]).client_id@),
                ) && self@[(channel@, r@[i].client_id@)].connected_at == r@[i].connected_at,
            forall|k: ClientKey| #[trigger]
                self@.contains_key(k) && k.0 == channel@ ==> exists|i: int|
                    0 <= i < r@.len() && (#[trigger] r@[i]).client_id@ == k.1,
            forall|i: int, j: int|
                0 <= i < j < r@.len() ==> (#[trigger] r@[i]).client_id@ != (
                #[trigger] r@[j]).client_id@,
    {
        proof {
            lemma_entries(self.entries@);
        }
        let ghost all = self.entries@;
        let mut out: Vec<PresenceClient> = Vec::new();
        let ghost mut from: Seq<int> = Seq::empty();
        let mut i: usize = 0;
        while i < self.entries.len()
            invariant
                i <= self.entries@.len(),
                all == self.entries@,
                distinct(all),
                from.len() == out@.len(),
                forall|a: int|
                    0 <= a < out@.len() ==> 0 <= #[trigger] from[a] < i && all[from[a]].key() == (
                        channel@,
                        out@[a].client_id@,
                    ) && all[from[a]].entry.connected_at == out@[a].connected_at,
                forall|a: int, b: int|
                    0 <= a < b < out@.len() ==> #[trigger] from[a] < #[trigger] from[b],
                forall|c: int|
                    0 <= c < i && (#[trigger] all[c]).key().0 == channel@ ==> exists|a: int|
                        0 <= a < out@.len() && (#[trigger] out@[a]).client_id@ == all[c].key().1,
            decreases self.entries@.len() - i,
        {
            let e = &self.entries[i];
            if same(e.channel.as_str(), channel) {
                let ghost before = out@;
                out.push(
                    PresenceClient {
                        client_id: e.client_id.clone(),
                        connected_at: e.entry.connected_at,
                    },
                );
                proof {
                    from = from.push(i as int);
                    assert forall|c: int|
                        0 <= c < i + 1 && (#[trigger] all[c]).key().0 == channel@ implies exists|
                        a: int,
                    |
                        0 <= a < out@.len() && (#[trigger] out@[a]).client_id@ == all[c].key().1 by {
                        if c < i {
                            let a = choose|a: int|
                                0 <= a < before.len() && (#[trigger] before[a]).client_id@
                                    == all[c].key().1;
                            assert(out@[a].client_id@ == all[c].key().1);
                        } else {
                            assert(out@[out@.len() - 1].client_id@ == all[c].key().1);
                        }
                    }
                }
            }
            i = i + 1;
        }
        proof {
            assert forall|a: int, b: int| 0 <= a < b < out@.len() implies (
            #[trigger] out@[a]).client_id@ != (#[trigger] out@[b]).client_id@ by {
                assert(from[a] < from[b]);
                assert(all[from[a]].key() != all[from[b]].key());
            }
            assert forall|a: int| 0 <= a < out@.len() implies self@.contains_key(
                (channel@, (#[trigger] out@[a]).client_id@),
            ) && self@[(channel@, out@[a].client_id@)].connected_at == out@[a].connected_at by {
                assert(0 <= from[a] < all.len());
                assert(self@[all[from[a]].key()] == all[from[a]].entry);
            }
            assert forall|k: ClientKey| #[trigger]
                self@.contains_key(k) && k.0 == channel@ implies exists|a: int|
                0 <= a < out@.len() && (#[trigger] out@[a]).client_id@ == k.1 by {
                let c = choose|c: int| 0 <= c < all.len() && (#[trigger] all[c]).key() == k;
                assert(all[c].key().0 == channel@);
            }
        }
        out
    }
}

pub open spec fn client_view(client_id: Seq<char>, connected_at: i64) -> JsonView {
    JsonView::Object(
        map![
            "client_id"@ => JsonView::Text(client_id),
            "connected_at"@ => int_view(connected_at as int),
        ],
    )
}

/// A roster as it is answered.
pub fn roster_json(clients: &Vec<PresenceClient>) -> (r: Json)
    ensures
        r@ == JsonView::Object(
            map![
                "clients"@ => JsonView::Array(
                    Seq::new(
                        clients@.len(),
                        |i: int| client_view(clients@[i].client_id@, clients@[i].connected_at),
                    ),
                ),
            ],
        ),
{
    let mut items: Vec<Json> = Vec::new();
    let mut i: usize = 0;
    while i < clients.len()
        invariant
            i <= clients@.len(),
            items@.len() == i,
            forall|k: int|
                0 <= k < i ==> (#[trigger] items@[k])@ == client_view(
                    clients@[k].client_id@,
                    clients@[k].connected_at,
                ),
        decreases clients@.len() - i,
    {
        let mut e: Vec<(String, Json)> = Vec::new();
        put(&mut e, "client_id", json_text(clients[i].client_id.as_str()));
        put(&mut e, "connected_at", json_int(clients[i].connected_at));
        items.push(Json::Object(e));
        i = i + 1;
    }
    let arr = Json::Array(items);
    assert(arr@->Array_0 =~= Seq::new(
        clients@.len(),
        |i: int| client_view(clients@[i].client_id@, clients@[i].connected_at),
    ));
    let mut e: Vec<(String, Json)> = Vec::new();
    put(&mut e, "clients", arr);
    Json::Object(e)
}

// ---- What holds of presence ------------------------------------------------

/// Closing a subscription undoes what opening it did: whoever was present is
/// present as before, and whoever was not is gone.
pub proof fn law_closing_undoes_opening(
    m: Map<ClientKey, PresenceEntry>,
    k: ClientKey,
    now: i64,
)
    requires
        !full(m, k),
        m.contains_key(k) ==> m[k].count >= 1,
    ensures
        deregistered(registered(m, k, now), k) == m,
{
    assert(deregistered(registered(m, k, now), k) =~= m);
}

/// A client stays present as long as it has a subscription open: closing one takes
/// it out if and only if it was the last.
pub proof fn law_present_until_last_close(m: Map<ClientKey, PresenceEntry>, k: ClientKey)
    requires
        m.contains_key(k),
    ensures
        deregistered(m, k).contains_key(k) <==> m[k].count > 1,
        m[k].count > 1 ==> deregistered(m, k)[k].count == m[k].count - 1,
        m[k].count > 1 ==> deregistered(m, k)[k].connected_at == m[k].connected_at,
{
}

/// Opening or closing a subscription of one client changes nothing for others.
pub proof fn law_others_are_not_touched(
    m: Map<ClientKey, PresenceEntry>,
    k: ClientKey,
    other: ClientKey,
    now: i64,
)
    requires
        other != k,
    ensures
        registered(m, k, now).contains_key(other) == m.contains_key(other),
        deregistered(m, k).contains_key(other) == m.contains_key(other),
        m.contains_key(other) ==> registered(m, k, now)[other] == m[other] && deregistered(
            m,
            k,
        )[other] == m[other],
{
}

// ---- What is told on the wire ----------------------------------------------

/// A listener that reads what it is sent learns what happened. A coming is told as
/// `join` and a going as `leave`, with the client and the time; a message is told with
/// its channel, its sender, its time, and its payload as it was published.
pub proof fn law_wire_tells_what_happened(ev: PubSubView)
    ensures
        ({
            let wire = pubsub_sse(ev);
            &&& wire.id is None
            &&& member(wire.data, "client_id"@) == Some(JsonView::Text(ev.client_id))
            &&& member(wire.data, "ts"@) == Some(
                JsonView::Number(
                    if ev.ts < 0 {
                        NumberView::NegInt(ev.ts)
                    } else {
                        NumberView::PosInt(ev.ts as u64)
                    },
                ),
            )
            &&& match ev.kind {
                KindView::Message(data) => {
                    &&& wire.event == "message"@
                    &&& member(wire.data, "channel"@) == Some(JsonView::Text(ev.channel))
                    &&& member(wire.data, "data"@) == Some(data)
                },
                KindView::Presence(PresenceKind::Join) => {
                    &&& wire.event == "presence"@
                    &&& member(wire.data, "type"@) == Some(JsonView::Text("join"@))
                },
                KindView::Presence(PresenceKind::Leave) => {
                    &&& wire.event == "presence"@
                    &&& member(wire.data, "type"@) == Some(JsonView::Text("leave"@))
                },
            }
        }),
{
    reveal_strlit("client_id");
    reveal_strlit("ts");
    reveal_strlit("channel");
    reveal_strlit("data");
    reveal_strlit("type");
    assert("data"@.len() == 4 && "type"@.len() == 4 && "ts"@.len() == 2);
    assert("client_id"@.len() == 9 && "channel"@.len() == 7);
}

/// A coming and a going are never told alike, nor is either told like a message.
pub proof fn law_kinds_are_told_apart(a: PubSubView, b: PubSubView)
    requires
        pubsub_sse(a) == pubsub_sse(b),
    ensures
        a.kind == b.kind,
        a.client_id == b.client_id,
        a.ts == b.ts,
        a.kind is Message ==> a.channel == b.channel,
{
    law_wire_tells_what_happened(a);
    law_wire_tells_what_happened(b);
    reveal_strlit("message");
    reveal_strlit("presence");
    reveal_strlit("join");
    reveal_strlit("leave");
    assert("message"@.len() != "presence"@.len());
    assert("join"@.len() != "leave"@.len());
}

/// The first subscription of a client is its coming, and the last to close its going: a
/// client is there from the one to the other, since the first opened.
pub proof fn law_presence_follows_subscriptions(
    m: Map<ClientKey, PresenceEntry>,
    k: ClientKey,
    now: i64,
    later: i64,
)
    requires
        !m.contains_key(k),
    ensures
        ({
            let once = registered(m, k, now);
            let twice = registered(once, k, later);
            &&& once.contains_key(k) && once[k].connected_at == now && once[k].count == 1
            &&& twice.contains_key(k) && twice[k].connected_at == now && twice[k].count == 2
            &&& deregistered(twice, k).contains_key(k)
            &&& deregistered(twice, k)[k].connected_at == now
            &&& !deregistered(deregistered(twice, k), k).contains_key(k)
            &&& !deregistered(once, k).contains_key(k)
            &&& deregistered(m, k) == m
        }),
{
}

/// An event that nothing speaks against is published, whatever it is; one that is too
/// large, or of a client or a channel with a bad name, is not.
pub proof fn law_what_may_be_published(
    channel: Seq<char>,
    client_id: Seq<char>,
    bytes: nat,
    max_bytes: nat,
)
    ensures
        publish_refusal(channel, client_id, bytes, max_bytes) is None <==> name_ok(channel)
            && client_ok(client_id) && bytes <= max_bytes,
        publish_refusal(channel, client_id, bytes, max_bytes) matches Some(e) ==> {
            &&& e.code == ErrorCode::PayloadTooLarge || e.code == ErrorCode::Validation
            &&& (e.code == ErrorCode::PayloadTooLarge ==> bytes > max_bytes)
        },
        listen_refusal(channel, client_id) is None <==> name_ok(channel) && client_ok(client_id),
{
}

} // verus!
