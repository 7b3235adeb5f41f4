//! A small Redis-like key/value service with publish/subscribe channels.
//!
//! `S` holds the string store and the named broadcast channels. A command
//! either answers at once, or (for `Subscribe`) hands back the receiving end
//! of a channel; the caller awaits one message on it and turns the outcome
//! into the answer with [`subscribe_reply`].
use vstd::prelude::*;
use vstd::string::*;
use tokio::sync::broadcast::error::SendError;
use tokio::sync::broadcast::{Receiver, Sender};
use crate::keyed::{
    find_key, has_key, key_map, keys_distinct, lemma_key_index_unique, lemma_key_map_push,
    lemma_key_map_remove, lemma_key_map_update,
};

verus! {

#[verifier::external_type_specification]
#[verifier::external_body]
#[verifier::reject_recursive_types(T)]
pub struct ExSender<T>(Sender<T>);

#[verifier::external_type_specification]
#[verifier::external_body]
#[verifier::reject_recursive_types(T)]
pub struct ExReceiver<T>(Receiver<T>);

#[verifier::external_type_specification]
#[verifier::external_body]
#[verifier::reject_recursive_types(T)]
pub struct ExSendError<T>(SendError<T>);

/// The capacity that each new channel is created with.
pub const CHANNEL_CAPACITY: usize = 16;

/// The sending end of a broadcast channel, with the identity of its channel,
/// every value handed to its `send`, and the values whose `send` found at
/// least one live receiver (and so was written into the channel).
pub struct Publisher {
    tx: Sender<String>,
    channel: Ghost<int>,
    handed: Ghost<Seq<Seq<char>>>,
    sent: Ghost<Seq<Seq<char>>>,
}

impl Publisher {
    /// The identity of the channel this end sends on.
    pub closed spec fn channel(&self) -> int {
        self.channel@
    }

    /// Every value handed to this end's `send`, in order.
    pub closed spec fn handed(&self) -> Seq<Seq<char>> {
        self.handed@
    }

    /// The values whose `send` through this end found at least one live
    /// receiver and was written into the channel, in order. (Whether a
    /// receiver then reads a value is up to that receiver.)
    pub closed spec fn sent(&self) -> Seq<Seq<char>> {
        self.sent@
    }
}

/// A receiving end of a broadcast channel, with the identity of its channel.
pub struct Subscriber {
    pub rx: Receiver<String>,
    channel: Ghost<int>,
}

impl Subscriber {
    /// The identity of the channel this end receives from.
    pub closed spec fn channel(&self) -> int {
        self.channel@
    }
}

/// Calls `tokio::sync::broadcast::channel`, which makes a new channel and
/// returns its sending and receiving ends: both belong to that one channel
/// (they carry the same ghost identity), and nothing has been handed to it
/// yet. It panics for a capacity of 0 or above `usize::MAX / 2`, which
/// `requires` leaves out. Nothing is stated of how the identity compares with
/// that of other channels.
#[verifier::external_body]
fn broadcast_channel(capacity: usize) -> (r: (Publisher, Subscriber))
    requires
        0 < capacity <= usize::MAX / 2,
    ensures
        r.0.channel() == r.1.channel(),
        r.0.handed() == Seq::<Seq<char>>::empty(),
        r.0.sent() == Seq::<Seq<char>>::empty(),
{
    let (tx, rx) = tokio::sync::broadcast::channel(capacity);
    let id: Ghost<int> = Ghost(arbitrary());
    let publisher = Publisher {
        tx,
        channel: id,
        handed: Ghost(Seq::empty()),
        sent: Ghost(Seq::empty()),
    };
    (publisher, Subscriber { rx, channel: id })
}

/// Calls `tokio::sync::broadcast::Sender::subscribe`, which returns a new
/// receiver of the same channel. The tokio source panics once
/// `usize::MAX >> 2` receivers are alive at the same time; that count is
/// channel state that no clause here can speak of, so it is left unsaid.
#[verifier::external_body]
fn broadcast_subscribe(p: &Publisher) -> (r: Subscriber)
    ensures
        r.channel() == p.channel(),
{
    Subscriber { rx: p.tx.subscribe(), channel: Ghost(p.channel@) }
}

/// Calls `tokio::sync::broadcast::Sender::send` with `value`. The tokio
/// source returns `Ok(n)`, with `n` the number of live receivers (at least
/// one), after writing the value into the channel for them; and `Err` when
/// there is no receiver, writing nothing. How many receivers are alive is
/// channel state, so which of the two comes back is left unsaid.
#[verifier::external_body]
fn broadcast_send(p: &mut Publisher, value: String) -> (r: Result<usize, SendError<String>>)
    ensures
        final(p).channel() == old(p).channel(),
        final(p).handed() == old(p).handed().push(value@),
        match r {
            Ok(n) => n >= 1 && final(p).sent() == old(p).sent().push(value@),
            Err(_) => final(p).sent() == old(p).sent(),
        },
{
    let ghost v = value@;
    proof {
        p.handed@ = p.handed@.push(v);
    }
    let r = p.tx.send(value);
    if r.is_ok() {
        proof {
            p.sent@ = p.sent@.push(v);
        }
    }
    r
}

/// The kinds of request the service answers.
#[derive(Clone, Copy, Debug, PartialEq, Eq, Structural)]
pub enum RequestType {
    Get,
    SetKey,
    Del,
    Ping,
    Subscribe,
    Publish,
}

/// The kinds of response, one per kind of request.
#[derive(Clone, Copy, Debug, PartialEq, Eq, Structural)]
pub enum ResponseType {
    Get,
    SetKey,
    Del,
    Ping,
    Subscribe,
    Publish,
}

/// A request: its kind, and the key and value that the kind needs.
#[derive(Clone, Debug)]
pub struct RedisRequest {
    pub request_type: RequestType,
    pub key: Option<String>,
    pub value: Option<String>,
}

/// A response: its kind and its text.
#[derive(Clone, Debug)]
pub struct RedisResponse {
    pub response_type: ResponseType,
    pub value: Option<String>,
}

/// What a command leads to: an answer, or a receiver to await one message on.
pub enum Reply {
    Respond(RedisResponse),
    AwaitMessage(Subscriber),
}

/// The decimal digit character of `d` (for `0 <= d < 10`).
pub open spec fn digit_char(d: int) -> char {
    if d == 0 {
        '0'
    } else if d == 1 {
        '1'
    } else if d == 2 {
        '2'
    } else if d == 3 {
        '3'
    } else if d == 4 {
        '4'
    } else if d == 5 {
        '5'
    } else if d == 6 {
        '6'
    } else if d == 7 {
        '7'
    } else if d == 8 {
        '8'
    } else {
        '9'
    }
}

/// The decimal notation of `n`, without leading zeros.
pub open spec fn decimal(n: nat) -> Seq<char>
    decreases n,
{
    if n < 10 {
        seq![digit_char(n as int)]
    } else {
        decimal(n / 10).push(digit_char((n % 10) as int))
    }
}

fn digit_text(d: u8) -> (r: &'static str)
    requires
        d < 10,
    ensures
        r@ == seq![digit_char(d as int)],
{
    proof {
        reveal_strlit("0");
        reveal_strlit("1");
        reveal_strlit("2");
        reveal_strlit("3");
        reveal_strlit("4");
        reveal_strlit("5");
        reveal_strlit("6");
        reveal_strlit("7");
        reveal_strlit("8");
        reveal_strlit("9");
    }
    match d {
        0 => "0",
        1 => "1",
        2 => "2",
        3 => "3",
        4 => "4",
        5 => "5",
        6 => "6",
        7 => "7",
        8 => "8",
        _ => "9",
    }
}

/// The decimal notation of a byte.
pub fn u8_to_decimal(n: u8) -> (r: String)
    ensures
        r@ == decimal(n as nat),
{
    if n >= 100 {
        let mut s = String::from_str(digit_text(n / 100));
        s.append(digit_text((n / 10) % 10));
        s.append(digit_text(n % 10));
        assert(decimal((n / 100) as nat) == seq![digit_char((n / 100) as int)]);
        assert(decimal((n / 10) as nat) == decimal((n / 100) as nat).push(
            digit_char(((n / 10) % 10) as int),
        ));
        s
    } else if n >= 10 {
        let mut s = String::from_str(digit_text(n / 10));
        s.append(digit_text(n % 10));
        assert(decimal((n / 10) as nat) == seq![digit_char((n / 10) as int)]);
        s
    } else {
        String::from_str(digit_text(n))
    }
}

/// The answer text of a `Get` of `k` against the store `m`.
pub open spec fn get_text(m: Map<Seq<char>, Seq<char>>, k: Seq<char>) -> Seq<char> {
    if m.contains_key(k) {
        m[k]
    } else {
        "Key not found."@
    }
}

/// The text of an optional string (empty when absent).
pub open spec fn text_of(o: Option<String>) -> Seq<char> {
    match o {
        Some(s) => s@,
        None => Seq::empty(),
    }
}

/// The store after a request of kind `t` with key text `k` and value text
/// `v`: a `SetKey` stores `v` under `k`, a `Del` removes `k`, and the other
/// kinds leave the store alone.
pub open spec fn store_effect(
    m: Map<Seq<char>, Seq<char>>,
    t: RequestType,
    k: Seq<char>,
    v: Seq<char>,
) -> Map<Seq<char>, Seq<char>> {
    match t {
        RequestType::SetKey => m.insert(k, v),
        RequestType::Del => m.remove(k),
        _ => m,
    }
}

/// The store after the requests `reqs` (kind, key text, value text), in order.
pub open spec fn store_run(
    m: Map<Seq<char>, Seq<char>>,
    reqs: Seq<(RequestType, Seq<char>, Seq<char>)>,
) -> Map<Seq<char>, Seq<char>>
    decreases reqs.len(),
{
    if reqs.len() == 0 {
        m
    } else {
        let last = reqs.last();
        store_effect(store_run(m, reqs.drop_last()), last.0, last.1, last.2)
    }
}

/// The answer text of a `Del` of `k` against the store `m`.
pub open spec fn del_text(m: Map<Seq<char>, Seq<char>>, k: Seq<char>) -> Seq<char> {
    if m.contains_key(k) {
        "OK"@
    } else {
        "Key not found."@
    }
}

/// The answer text of a `Publish` whose send reported `sent` (`None` when the
/// channel had no receiver).
pub open spec fn publish_text(sent: Option<usize>) -> Seq<char> {
    match sent {
        Some(n) => decimal((n % 256) as nat),
        None => "Error"@,
    }
}

/// The answer text of a `Subscribe` whose wait gave `message` (`None` when
/// receiving failed).
pub open spec fn subscribe_text(message: Option<Seq<char>>) -> Seq<char> {
    match message {
        Some(m) => m,
        None => "Error"@,
    }
}

/// What a channel shows: its identity, every value handed to its `send`, and
/// the values that were written into it for live receivers.
pub type ChannelView = (int, Seq<Seq<char>>, Seq<Seq<char>>);

/// A channel after a `Publish` of `value` whose send reported `sent`: the
/// value is handed to the channel in any case, and written into it only
/// when the send found a live receiver (`Some`).
pub open spec fn publish_step(channel: ChannelView, sent: Option<usize>, value: Seq<char>) -> ChannelView {
    match sent {
        Some(_) => (channel.0, channel.1.push(value), channel.2.push(value)),
        None => (channel.0, channel.1.push(value), channel.2),
    }
}

/// `r` answers at once, with kind `t` and text `text`.
pub open spec fn responds(r: Reply, t: ResponseType, text: Seq<char>) -> bool {
    &&& r matches Reply::Respond(resp)
    &&& resp.response_type == t
    &&& resp.value matches Some(v)
    &&& v@ == text
}

fn respond(t: ResponseType, text: String) -> (r: Reply)
    ensures
        responds(r, t, text@),
{
    Reply::Respond(RedisResponse { response_type: t, value: Some(text) })
}

/// The answer to a `Publish` whose send reported `sent`: the number of
/// receivers, taken modulo 256, in decimal; or `"Error"` when there was none.
pub fn publish_reply(sent: Option<usize>) -> (r: RedisResponse)
    ensures
        r.response_type == ResponseType::Publish,
        r.value matches Some(v) && v@ == publish_text(sent),
{
    proof {
        reveal_strlit("Error");
    }
    match sent {
        Some(n) => {
            let b: u8 = (n % 256) as u8;
            RedisResponse { response_type: ResponseType::Publish, value: Some(u8_to_decimal(b)) }
        },
        None => RedisResponse {
            response_type: ResponseType::Publish,
            value: Some(String::from_str("Error")),
        },
    }
}

/// The answer to a `Subscribe` once the awaited message is in: the message,
/// or `"Error"` when receiving failed.
pub fn subscribe_reply(message: Option<String>) -> (r: RedisResponse)
    ensures
        r.response_type == ResponseType::Subscribe,
        r.value matches Some(v) && v@ == subscribe_text(
            match message {
                Some(m) => Some(m@),
                None => None,
            },
        ),
{
    match message {
        Some(m) => RedisResponse { response_type: ResponseType::Subscribe, value: Some(m) },
        None => RedisResponse {
            response_type: ResponseType::Subscribe,
            value: Some(String::from_str("Error")),
        },
    }
}

/// The service state: the string store and the named channels.
pub struct S {
    map: Vec<(String, String)>,
    channels: Vec<(String, Publisher)>,
}

/// The texts of a map's string values.
pub open spec fn value_texts(m: Map<Seq<char>, String>) -> Map<Seq<char>, Seq<char>> {
    m.map_values(|v: String| v@)
}

/// What a channel's sending end shows of its channel.
pub open spec fn publisher_state(p: Publisher) -> ChannelView {
    (p.channel(), p.handed(), p.sent())
}

proof fn lemma_value_texts_insert(m: Map<Seq<char>, String>, k: Seq<char>, v: String)
    ensures
        value_texts(m.insert(k, v)) == value_texts(m).insert(k, v@),
{
    assert(value_texts(m.insert(k, v)) =~= value_texts(m).insert(k, v@));
}

proof fn lemma_value_texts_remove(m: Map<Seq<char>, String>, k: Seq<char>)
    ensures
        value_texts(m.remove(k)) == value_texts(m).remove(k),
{
    assert(value_texts(m.remove(k)) =~= value_texts(m).remove(k));
}

proof fn lemma_states_insert(m: Map<Seq<char>, Publisher>, k: Seq<char>, p: Publisher)
    ensures
        m.insert(k, p).map_values(|q: Publisher| publisher_state(q)) == m.map_values(
            |q: Publisher| publisher_state(q),
        ).insert(k, publisher_state(p)),
{
    assert(m.insert(k, p).map_values(|q: Publisher| publisher_state(q)) =~= m.map_values(
        |q: Publisher| publisher_state(q),
    ).insert(k, publisher_state(p)));
}

impl S {
    /// Neither the store nor the channel list holds a key twice.
    #[verifier::type_invariant]
    spec fn wf(&self) -> bool {
        keys_distinct(self.map@) && keys_distinct(self.channels@)
    }

    /// The store, as a map from key text to value text.
    pub closed spec fn store(&self) -> Map<Seq<char>, Seq<char>> {
        value_texts(key_map(self.map@))
    }

    /// The channels, as a map from name to what the channel shows.
    pub closed spec fn channels(&self) -> Map<Seq<char>, ChannelView> {
        key_map(self.channels@).map_values(|q: Publisher| publisher_state(q))
    }

    /// The names of the channels that exist.
    pub open spec fn channel_names(&self) -> Set<Seq<char>> {
        self.channels().dom()
    }

    /// `req` carries what its kind needs: a key for all kinds but `Ping`, a
    /// value for `SetKey`, and a value for a `Publish` on an existing channel.
    pub open spec fn admits(&self, req: RedisRequest) -> bool {
        match req.request_type {
            RequestType::Ping => true,
            RequestType::SetKey => req.key is Some && req.value is Some,
            RequestType::Publish => req.key is Some && (self.channel_names().contains(
                req.key->0@,
            ) ==> req.value is Some),
            _ => req.key is Some,
        }
    }

    /// An empty store with no channels.
    pub fn new() -> (s: S)
        ensures
            s.store() == Map::<Seq<char>, Seq<char>>::empty(),
            s.channels() == Map::<Seq<char>, ChannelView>::empty(),
    {
        let s = S { map: Vec::new(), channels: Vec::new() };
        assert(s.store() =~= Map::<Seq<char>, Seq<char>>::empty());
        assert(s.channels() =~= Map::<Seq<char>, ChannelView>::empty());
        s
    }

    /// Whether a channel named `key` exists.
    pub fn has_channel(&self, key: &String) -> (r: bool)
        ensures
            r == self.channel_names().contains(key@),
    {
        match find_key(&self.channels, key) {
            Some(i) => {
                assert(has_key(self.channels@, key@));
                true
            },
            None => false,
        }
    }

    /// Carries out one request.
    ///
    /// `SetKey` stores the value under the key and answers `"Ok"`; `Get` answers
    /// the stored value or `"Key not found."`; `Del` removes the key and
    /// answers `"OK"`, or `"Key not found."` when it was absent; `Ping`
    /// answers `"pong"`; `Subscribe` opens the channel when it does not exist
    /// yet and hands back a receiver on it; `Publish` sends the value on the
    /// channel and answers what [`publish_reply`] makes of the outcome, or
    /// `"Error"` when there is no such channel.
    pub fn redis_command(&mut self, req: RedisRequest) -> (r: Reply)
        requires
            old(self).admits(req),
        ensures
            final(self).store() == store_effect(
                old(self).store(),
                req.request_type,
                text_of(req.key),
                text_of(req.value),
            ),
            match req.request_type {
                RequestType::SetKey => {
                    &&& final(self).store() == old(self).store().insert(
                        req.key->0@,
                        req.value->0@,
                    )
                    &&& final(self).channels() == old(self).channels()
                    &&& responds(r, ResponseType::SetKey, "Ok"@)
                },
                RequestType::Get => {
                    &&& final(self).store() == old(self).store()
                    &&& final(self).channels() == old(self).channels()
                    &&& responds(r, ResponseType::Get, get_text(old(self).store(), req.key->0@))
                },
                RequestType::Del => {
                    &&& final(self).store() == old(self).store().remove(req.key->0@)
                    &&& final(self).channels() == old(self).channels()
                    &&& responds(r, ResponseType::Del, del_text(old(self).store(), req.key->0@))
                },
                RequestType::Ping => {
                    &&& final(self).store() == old(self).store()
                    &&& final(self).channels() == old(self).channels()
                    &&& responds(r, ResponseType::Ping, "pong"@)
                },
                RequestType::Subscribe => {
                    let k = req.key->0@;
                    &&& final(self).store() == old(self).store()
                    &&& r matches Reply::AwaitMessage(sub)
                    &&& if old(self).channels().contains_key(k) {
                        &&& final(self).channels() == old(self).channels()
                        &&& sub.channel() == old(self).channels()[k].0
                    } else {
                        final(self).channels() == old(self).channels().insert(
                            k,
                            (sub.channel(), Seq::<Seq<char>>::empty(), Seq::<Seq<char>>::empty()),
                        )
                    }
                },
                RequestType::Publish => {
                    let k = req.key->0@;
                    &&& final(self).store() == old(self).store()
                    &&& if old(self).channels().contains_key(k) {
                        exists|sent: Option<usize>|
                            {
                                &&& (sent matches Some(n) ==> n >= 1)
                                &&& #[trigger] responds(r, ResponseType::Publish, publish_text(sent))
                                &&& final(self).channels() == old(self).channels().insert(
                                    k,
                                    publish_step(old(self).channels()[k], sent, req.value->0@),
                                )
                            }
                    } else {
                        &&& final(self).channels() == old(self).channels()
                        &&& responds(r, ResponseType::Publish, "Error"@)
                    }
                },
            },
    {
        proof {
            use_type_invariant(&*self);
            reveal_strlit("Ok");
            reveal_strlit("OK");
            reveal_strlit("pong");
            reveal_strlit("Error");
            reveal_strlit("Key not found.");
        }
        match req.request_type {
            RequestType::SetKey => {
                let key = req.key.unwrap();
                let value = req.value.unwrap();
                let mut map: Vec<(String, String)> = Vec::new();
                std::mem::swap(&mut map, &mut self.map);
                match find_key(&map, &key) {
                    Some(i) => {
                        proof {
                            lemma_key_map_update(map@, i as int, (key, value));
                            lemma_value_texts_insert(key_map(map@), key@, value);
                        }
                        map.set(i, (key, value));
                    },
                    None => {
                        proof {
                            lemma_key_map_push(map@, (key, value));
                            lemma_value_texts_insert(key_map(map@), key@, value);
                        }
                        map.push((key, value));
                    },
                }
                self.map = map;
                respond(ResponseType::SetKey, String::from_str("Ok"))
            },
            RequestType::Get => {
                let key = req.key.unwrap();
                match find_key(&self.map, &key) {
                    Some(i) => {
                        proof {
                            lemma_key_index_unique(self.map@, i as int);
                        }
                        respond(ResponseType::Get, self.map[i].1.clone())
                    },
                    None => respond(ResponseType::Get, String::from_str("Key not found.")),
                }
            },
            RequestType::Del => {
                let key = req.key.unwrap();
                match find_key(&self.map, &key) {
                    Some(i) => {
                        proof {
                            lemma_key_index_unique(self.map@, i as int);
                            lemma_key_map_remove(self.map@, i as int);
                            lemma_value_texts_remove(key_map(self.map@), key@);
                        }
                        let mut map: Vec<(String, String)> = Vec::new();
                        std::mem::swap(&mut map, &mut self.map);
                        let _removed = map.remove(i);
                        self.map = map;
                        respond(ResponseType::Del, String::from_str("OK"))
                    },
                    None => {
                        assert(old(self).store().remove(key@) =~= old(self).store());
                        respond(ResponseType::Del, String::from_str("Key not found."))
                    },
                }
            },
            RequestType::Ping => respond(ResponseType::Ping, String::from_str("pong")),
            RequestType::Subscribe => {
                let key = req.key.unwrap();
                match find_key(&self.channels, &key) {
                    Some(i) => {
                        let sub = broadcast_subscribe(&self.channels[i].1);
                        proof {
                            lemma_key_index_unique(self.channels@, i as int);
                        }
                        Reply::AwaitMessage(sub)
                    },
                    None => {
                        let (publisher, sub) = broadcast_channel(CHANNEL_CAPACITY);
                        proof {
                            lemma_key_map_push(self.channels@, (key, publisher));
                            lemma_states_insert(key_map(self.channels@), key@, publisher);
                        }
                        let mut channels: Vec<(String, Publisher)> = Vec::new();
                        std::mem::swap(&mut channels, &mut self.channels);
                        channels.push((key, publisher));
                        self.channels = channels;
                        Reply::AwaitMessage(sub)
                    },
                }
            },
            RequestType::Publish => {
                let key = req.key.unwrap();
                match find_key(&self.channels, &key) {
                    Some(i) => {
                        proof {
                            lemma_key_index_unique(self.channels@, i as int);
                        }
                        let value = req.value.unwrap();
                        let ghost v = value@;
                        let ghost before = self.channels@;
                        let mut channels: Vec<(String, Publisher)> = Vec::new();
                        std::mem::swap(&mut channels, &mut self.channels);
                        let (name, mut publisher) = channels.remove(i);
                        let ghost p0 = publisher;
                        let sent = match broadcast_send(&mut publisher, value) {
                            Ok(n) => Some(n),
                            Err(_) => None,
                        };
                        proof {
                            assert(before.remove(i as int).insert(i as int, (name, publisher))
                                =~= before.update(i as int, (name, publisher)));
                            lemma_key_map_update(before, i as int, (name, publisher));
                            lemma_states_insert(key_map(before), name@, publisher);
                            assert(publisher_state(publisher) == publish_step(
                                publisher_state(p0),
                                sent,
                                v,
                            ));
                        }
                        channels.insert(i, (name, publisher));
                        self.channels = channels;
                        let resp = publish_reply(sent);
                        let r = Reply::Respond(resp);
                        assert(responds(r, ResponseType::Publish, publish_text(sent)));
                        r
                    },
                    None => respond(ResponseType::Publish, String::from_str("Error")),
                }
            },
        }
    }
}

/// A `Get` answers the value that the last `SetKey` of that key stored.
pub proof fn law_get_after_set(m: Map<Seq<char>, Seq<char>>, k: Seq<char>, v: Seq<char>)
    ensures
        get_text(m.insert(k, v), k) == v,
{
}

/// A `Get` answers the value that the last `SetKey` of that key stored, with
/// any number of requests in between that neither set nor delete that key.
pub proof fn law_get_after_set_through(
    m: Map<Seq<char>, Seq<char>>,
    k: Seq<char>,
    v: Seq<char>,
    reqs: Seq<(RequestType, Seq<char>, Seq<char>)>,
)
    requires
        forall|i: int|
            0 <= i < reqs.len() ==> !((#[trigger] reqs[i]).0 == RequestType::SetKey || reqs[i].0
                == RequestType::Del) || reqs[i].1 != k,
    ensures
        get_text(store_run(store_effect(m, RequestType::SetKey, k, v), reqs), k) == v,
    decreases reqs.len(),
{
    if reqs.len() > 0 {
        let init = reqs.drop_last();
        assert forall|i: int| 0 <= i < init.len() implies !((#[trigger] init[i]).0
            == RequestType::SetKey || init[i].0 == RequestType::Del) || init[i].1 != k by {
            assert(init[i] == reqs[i]);
        }
        law_get_after_set_through(m, k, v, init);
        assert(reqs[reqs.len() - 1] == reqs.last());
    }
}

/// A `SetKey` leaves what a `Get` of any other key answers unchanged.
pub proof fn law_set_keeps_other_keys(
    m: Map<Seq<char>, Seq<char>>,
    k: Seq<char>,
    v: Seq<char>,
    other: Seq<char>,
)
    requires
        other != k,
    ensures
        get_text(m.insert(k, v), other) == get_text(m, other),
{
}

/// After a `Del` the key is gone: a `Get` and a second `Del` of it both
/// answer `"Key not found."`; a `Del` of a stored key answers `"OK"`.
pub proof fn law_del_removes(m: Map<Seq<char>, Seq<char>>, k: Seq<char>)
    ensures
        get_text(m.remove(k), k) == "Key not found."@,
        del_text(m.remove(k), k) == "Key not found."@,
        m.contains_key(k) ==> del_text(m, k) == "OK"@,
{
}

/// A `Del` of one key leaves what a `Get` of any other key answers unchanged.
pub proof fn law_del_keeps_other_keys(m: Map<Seq<char>, Seq<char>>, k: Seq<char>, other: Seq<char>)
    requires
        other != k,
    ensures
        get_text(m.remove(k), other) == get_text(m, other),
{
}

/// A `Publish` is recorded on the channel its subscribers belong to: a
/// subscriber handed back for a channel shares that channel's identity, a
/// `Publish` always hands its value to that channel, last, and writes it into
/// the channel (for the receivers alive then) when the send found one; the
/// channel keeps its identity. That a receiver then reads the value is the
/// broadcast channel's work, which this does not state.
pub proof fn law_publish_recorded_on_subscribed_channel(
    channels: Map<Seq<char>, ChannelView>,
    k: Seq<char>,
    subscriber: int,
    sent: Option<usize>,
    value: Seq<char>,
)
    requires
        channels.contains_key(k),
        channels[k].0 == subscriber,
    ensures
        ({
            let after = channels.insert(k, publish_step(channels[k], sent, value));
            &&& after[k].0 == subscriber
            &&& after[k].1 == channels[k].1.push(value)
            &&& sent is Some ==> after[k].2 == channels[k].2.push(value) && after[k].2.last()
                == value
            &&& sent is None ==> after[k].2 == channels[k].2
        }),
{
}

/// A channel, once subscribed to, exists from then on, and subscribing to it
/// again leaves the channels as they are.
pub proof fn law_subscribe_opens_once(channels: Map<Seq<char>, ChannelView>, k: Seq<char>, id: int)
    ensures
        channels.insert(k, (id, Seq::<Seq<char>>::empty(), Seq::<Seq<char>>::empty())).contains_key(k),
        channels.contains_key(k) ==> channels.insert(k, channels[k]) == channels,
{
    if channels.contains_key(k) {
        assert(channels.insert(k, channels[k]) =~= channels);
    }
}

} // verus!
