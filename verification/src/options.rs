//! What a session is configured with.

use crate::error::Error;
use crate::message::{MessageView, PubOpt};
use crate::packet::{text_view, will_view, Connect, ConnectView, LastWill, LastWillView, Protocol};
use crate::pid::PacketIdentifier;
use crate::store::{MemoryStorage, Store};
use crate::topic::{is_topic_name, valid_topic_name};
use rand::Rng;
use vstd::prelude::*;
use vstd::string::StringExecFns;

verus! {

/// A length of time in nanoseconds.
pub type Nanos = u128;

/// The nanoseconds of one second.
pub const NANOS_PER_SEC: u128 = 1_000_000_000;

/// What the session does when its link is lost.
#[derive(Clone, Copy, Debug, PartialEq, Eq, Structural)]
pub enum ReconnectMethod {
    /// Stay disconnected.
    ForeverDisconnect,
    /// Wait this long, then connect again.
    ReconnectAfter(Nanos),
}

/// The text of `scheme` names a plain TCP transport.
pub open spec fn is_plain_scheme(scheme: Seq<char>) -> bool {
    scheme == "tcp"@ || scheme == "mqtt"@
}

/// The text of `scheme` names a TLS transport.
pub open spec fn is_tls_scheme(scheme: Seq<char>) -> bool {
    scheme == "tls"@ || scheme == "ssl"@ || scheme == "mqtts"@
}

/// The port that MQTT uses when the address names none.
pub open spec fn standard_port(tls: bool) -> u16 {
    if tls {
        8883
    } else {
        1883
    }
}

/// Whether the two texts are the same.
fn same_text(a: &str, b: &str) -> (same: bool)
    ensures
        same == (a@ == b@),
{
    let a = a.to_owned();
    let b = b.to_owned();
    a == b
}

/// Whether an address with this scheme is reached over TLS; `Err` for a
/// scheme that is not one of MQTT's.
pub fn is_ssl(scheme: &str) -> (tls: Result<bool, ()>)
    ensures
        is_plain_scheme(scheme@) ==> tls == Ok::<bool, ()>(false),
        is_tls_scheme(scheme@) ==> tls == Ok::<bool, ()>(true),
        !is_plain_scheme(scheme@) && !is_tls_scheme(scheme@) ==> tls is Err,
{
    proof {
        lemma_schemes_differ();
    }
    if same_text(scheme, "tcp") || same_text(scheme, "mqtt") {
        Ok(false)
    } else if same_text(scheme, "tls") || same_text(scheme, "ssl") || same_text(scheme, "mqtts") {
        Ok(true)
    } else {
        Err(())
    }
}

/// No scheme is both plain and TLS.
pub proof fn lemma_schemes_differ()
    ensures
        forall|scheme: Seq<char>| !(is_plain_scheme(scheme) && is_tls_scheme(scheme)),
{
    reveal_strlit("tcp");
    reveal_strlit("mqtt");
    reveal_strlit("tls");
    reveal_strlit("ssl");
    reveal_strlit("mqtts");
    assert("tcp"@.len() == 3 && "tcp"@[0] == 't' && "tcp"@[1] == 'c');
    assert("mqtt"@.len() == 4);
    assert("tls"@.len() == 3 && "tls"@[1] == 'l');
    assert("ssl"@.len() == 3 && "ssl"@[0] == 's');
    assert("mqtts"@.len() == 5);
}

/// The port of an address with this scheme that names no port: 1883 in the
/// plain, 8883 over TLS; `Err` for a scheme that is not one of MQTT's.
pub fn default_port(scheme: &str) -> (port: Result<u16, ()>)
    ensures
        is_plain_scheme(scheme@) ==> port == Ok::<u16, ()>(1883),
        is_tls_scheme(scheme@) ==> port == Ok::<u16, ()>(8883),
        !is_plain_scheme(scheme@) && !is_tls_scheme(scheme@) ==> port is Err,
{
    match is_ssl(scheme) {
        Ok(tls) => Ok(
            if tls {
                8883
            } else {
                1883
            },
        ),
        Err(()) => Err(()),
    }
}

/// How the broker at an address is reached.
#[derive(Clone, Copy, Debug, PartialEq, Eq, Structural)]
pub struct Route {
    /// Whether the stream is wrapped in TLS.
    pub tls: bool,
    pub port: u16,
}

/// How an address with this scheme is reached, on the port it names or, if
/// it names none, on the standard port. `Error::InvalidUrlScheme` for a
/// scheme that is not one of MQTT's.
pub fn route(scheme: &str, port: Option<u16>) -> (route: Result<Route, Error>)
    ensures
        match route {
            Ok(r) => {
                &&& is_plain_scheme(scheme@) || is_tls_scheme(scheme@)
                &&& r.tls == is_tls_scheme(scheme@)
                &&& r.port == match port {
                    Some(p) => p,
                    None => standard_port(r.tls),
                }
            },
            Err(e) => {
                &&& !is_plain_scheme(scheme@)
                &&& !is_tls_scheme(scheme@)
                &&& e matches Error::InvalidUrlScheme(text) && text@ == scheme@
            },
        },
{
    proof {
        lemma_schemes_differ();
    }
    match is_ssl(scheme) {
        Ok(tls) => Ok(
            Route {
                tls,
                port: match port {
                    Some(p) => p,
                    None => if tls {
                        8883
                    } else {
                        1883
                    },
                },
            },
        ),
        Err(()) => Err(Error::InvalidUrlScheme(scheme.to_owned())),
    }
}

/// The decimal digits of `n`, most significant first.
pub open spec fn decimal(n: nat) -> Seq<char>
    decreases n,
{
    let last = ('0' as u8 + (n % 10) as u8) as char;
    if n < 10 {
        seq![last]
    } else {
        decimal(n / 10).push(last)
    }
}

/// The client identifier that is made from the number `n`.
pub open spec fn client_id_text(n: u32) -> Seq<char> {
    "mqttc_"@ + decimal(n as nat)
}

/// A number that nothing can be said of beforehand.
///
/// Calls `rand::thread_rng` and `rand::Rng::gen`.
#[verifier::external_body]
fn random_u32() -> u32 {
    rand::thread_rng().gen::<u32>()
}

/// `n` in decimal digits.
///
/// Calls `ToString::to_string` of `u32`, which writes a number in decimal
/// without sign or leading zeros.
#[verifier::external_body]
fn decimal_text(n: u32) -> (text: String)
    ensures
        text@ == decimal(n as nat),
{
    n.to_string()
}

/// The configuration of a session, with the stores that it will own.
pub struct ClientOptions<S: Store> {
    pub(crate) protocol: Protocol,
    pub(crate) keep_alive: Option<u16>,
    pub(crate) clean_session: bool,
    pub(crate) client_id: Option<String>,
    pub(crate) last_will: Option<LastWill>,
    pub(crate) username: Option<String>,
    pub(crate) password: Option<String>,
    pub(crate) reconnect: ReconnectMethod,
    pub(crate) incomming_store: Option<S>,
    pub(crate) outgoing_store: Option<S>,
}

/// What a store holds, if there is one.
pub open spec fn store_view<S: Store>(store: Option<S>) -> Option<
    Map<PacketIdentifier, MessageView>,
> {
    match store {
        Some(s) => Some(s.contents()),
        None => None,
    }
}

/// The options as a mathematical value.
pub struct OptionsView {
    pub protocol: Protocol,
    /// In seconds.
    pub keep_alive: Option<u16>,
    pub clean_session: bool,
    pub client_id: Option<Seq<char>>,
    pub last_will: Option<LastWillView>,
    pub username: Option<Seq<char>>,
    pub password: Option<Seq<char>>,
    pub reconnect: ReconnectMethod,
    pub incomming_store: Option<Map<PacketIdentifier, MessageView>>,
    pub outgoing_store: Option<Map<PacketIdentifier, MessageView>>,
}

impl OptionsView {
    /// The keep-alive interval in nanoseconds, if there is one.
    pub open spec fn keep_alive_nanos(self) -> Option<Nanos> {
        match self.keep_alive {
            Some(secs) => Some((secs as u128 * NANOS_PER_SEC) as u128),
            None => None,
        }
    }

    /// These options with the client identifier that is made from `n`.
    pub open spec fn identified_by(self, n: u32) -> OptionsView {
        OptionsView { client_id: Some(client_id_text(n)), ..self }
    }

    /// The CONNECT that opens a session with these options.
    pub open spec fn connect_packet(self) -> ConnectView
        recommends
            self.client_id is Some,
    {
        ConnectView {
            protocol: self.protocol,
            keep_alive: match self.keep_alive {
                Some(secs) => secs,
                None => 0,
            },
            client_id: self.client_id->0,
            clean_session: self.clean_session,
            last_will: self.last_will,
            username: self.username,
            password: self.password,
        }
    }
}

impl<S: Store> View for ClientOptions<S> {
    type V = OptionsView;

    open(crate) spec fn view(&self) -> OptionsView {
        OptionsView {
            protocol: self.protocol,
            keep_alive: self.keep_alive,
            clean_session: self.clean_session,
            client_id: text_view(self.client_id),
            last_will: will_view(self.last_will),
            username: text_view(self.username),
            password: text_view(self.password),
            reconnect: self.reconnect,
            incomming_store: store_view(self.incomming_store),
            outgoing_store: store_view(self.outgoing_store),
        }
    }
}

impl ClientOptions<MemoryStorage> {
    /// The options of a session that speaks MQTT 3.1.1, pings after 30
    /// seconds of silence, starts clean, stays disconnected when its link is
    /// lost, and keeps its publications in memory. The client identifier is
    /// chosen when the session connects.
    pub fn new() -> (opts: ClientOptions<MemoryStorage>)
        ensures
            opts@ == (OptionsView {
                protocol: Protocol::MQTT(4),
                keep_alive: Some(30u16),
                clean_session: true,
                client_id: None,
                last_will: None,
                username: None,
                password: None,
                reconnect: ReconnectMethod::ForeverDisconnect,
                incomming_store: Some(Map::empty()),
                outgoing_store: Some(Map::empty()),
            }),
    {
        ClientOptions::with_stores(Some(MemoryStorage::new()), Some(MemoryStorage::new()))
    }
}

impl<S: Store> ClientOptions<S> {
    /// The options that `new` gives, with these stores, or none, in place
    /// of the stores in memory.
    pub fn with_stores(incoming: Option<S>, outgoing: Option<S>) -> (opts: ClientOptions<S>)
        ensures
            opts@ == (OptionsView {
                protocol: Protocol::MQTT(4),
                keep_alive: Some(30u16),
                clean_session: true,
                client_id: None,
                last_will: None,
                username: None,
                password: None,
                reconnect: ReconnectMethod::ForeverDisconnect,
                incomming_store: store_view(incoming),
                outgoing_store: store_view(outgoing),
            }),
    {
        ClientOptions {
            protocol: Protocol::MQTT(4),
            keep_alive: Some(30),
            clean_session: true,
            client_id: None,
            last_will: None,
            username: None,
            password: None,
            reconnect: ReconnectMethod::ForeverDisconnect,
            incomming_store: incoming,
            outgoing_store: outgoing,
        }
    }

    /// Sets the keep-alive interval, in seconds.
    pub fn set_keep_alive(&mut self, secs: u16) -> (opts: &mut ClientOptions<S>)
        ensures
            opts@ == (OptionsView { keep_alive: Some(secs), ..old(self)@ }),
            *final(self) == *final(opts),
    {
        self.keep_alive = Some(secs);
        self
    }

    /// Sets the protocol and level that CONNECT announces.
    pub fn set_protocol(&mut self, protocol: Protocol) -> (opts: &mut ClientOptions<S>)
        ensures
            opts@ == (OptionsView { protocol, ..old(self)@ }),
            *final(self) == *final(opts),
    {
        self.protocol = protocol;
        self
    }

    /// Sets the identifier under which the broker knows the session.
    pub fn set_client_id(&mut self, client_id: String) -> (opts: &mut ClientOptions<S>)
        ensures
            opts@ == (OptionsView { client_id: Some(client_id@), ..old(self)@ }),
            *final(self) == *final(opts),
    {
        self.client_id = Some(client_id);
        self
    }

    /// Sets whether the broker is to forget an earlier session.
    pub fn set_clean_session(&mut self, clean_session: bool) -> (opts: &mut ClientOptions<S>)
        ensures
            opts@ == (OptionsView { clean_session, ..old(self)@ }),
            *final(self) == *final(opts),
    {
        self.clean_session = clean_session;
        self
    }

    /// Sets the store for inbound publications.
    pub fn set_incomming_store(&mut self, store: S) -> (opts: &mut ClientOptions<S>)
        ensures
            opts@ == (OptionsView { incomming_store: Some(store.contents()), ..old(self)@ }),
            *final(self) == *final(opts),
    {
        self.incomming_store = Some(store);
        self
    }

    /// Sets the store for outbound publications.
    pub fn set_outgoing_store(&mut self, store: S) -> (opts: &mut ClientOptions<S>)
        ensures
            opts@ == (OptionsView { outgoing_store: Some(store.contents()), ..old(self)@ }),
            *final(self) == *final(opts),
    {
        self.outgoing_store = Some(store);
        self
    }

    /// The client identifier that is made from the number `n`: `mqttc_`
    /// and the number in decimal.
    pub fn client_id_from(n: u32) -> (client_id: String)
        ensures
            client_id@ == client_id_text(n),
    {
        let digits = decimal_text(n);
        String::from_str("mqttc_").concat(digits.as_str())
    }

    /// Sets a client identifier made from a random number.
    pub fn generate_client_id(&mut self) -> (opts: &mut ClientOptions<S>)
        ensures
            exists|n: u32| opts@ == #[trigger] old(self)@.identified_by(n),
            *final(self) == *final(opts),
    {
        let n = random_u32();
        self.client_id = Some(Self::client_id_from(n));
        assert(self@ == old(self)@.identified_by(n));
        self
    }

    /// Sets the user name that CONNECT carries.
    pub fn set_username(&mut self, username: String) -> (opts: &mut ClientOptions<S>)
        ensures
            opts@ == (OptionsView { username: Some(username@), ..old(self)@ }),
            *final(self) == *final(opts),
    {
        self.username = Some(username);
        self
    }

    /// Sets the password that CONNECT carries.
    pub fn set_password(&mut self, password: String) -> (opts: &mut ClientOptions<S>)
        ensures
            opts@ == (OptionsView { password: Some(password@), ..old(self)@ }),
            *final(self) == *final(opts),
    {
        self.password = Some(password);
        self
    }

    /// Sets the last will, which is published to a topic name.
    /// `Error::InvalidTopic` if `topic` is none; the options then stay as
    /// they were.
    pub fn set_last_will(&mut self, topic: &str, message: String, pub_opt: PubOpt) -> (done: Result<
        (),
        Error,
    >)
        ensures
            is_topic_name(topic@) ==> done is Ok && final(self)@ == (OptionsView {
                last_will: Some(
                    LastWillView {
                        topic: topic@,
                        message: message@,
                        qos: pub_opt.qos(),
                        retain: pub_opt.is_retain(),
                    },
                ),
                ..old(self)@
            }),
            !is_topic_name(topic@) ==> done == Err::<(), Error>(Error::InvalidTopic)
                && final(self)@ == old(self)@,
    {
        if !valid_topic_name(topic) {
            return Err(Error::InvalidTopic);
        }
        self.last_will = Some(
            LastWill {
                topic: topic.to_owned(),
                message,
                qos: pub_opt.qos(),
                retain: pub_opt.is_retain(),
            },
        );
        Ok(())
    }

    /// Sets the last will as it is given, or takes it away.
    pub fn set_last_will_opt(&mut self, last_will: Option<LastWill>) -> (opts: &mut ClientOptions<S>)
        ensures
            opts@ == (OptionsView { last_will: will_view(last_will), ..old(self)@ }),
            *final(self) == *final(opts),
    {
        self.last_will = last_will;
        self
    }

    /// Sets what the session does when its link is lost.
    pub fn set_reconnect(&mut self, reconnect: ReconnectMethod) -> (opts: &mut ClientOptions<S>)
        ensures
            opts@ == (OptionsView { reconnect, ..old(self)@ }),
            *final(self) == *final(opts),
    {
        self.reconnect = reconnect;
        self
    }

    /// The CONNECT that opens a session with these options.
    pub fn generate_connect_packet(&self) -> (connect: Connect)
        requires
            self@.client_id is Some,
        ensures
            connect@ == self@.connect_packet(),
    {
        let keep_alive = match self.keep_alive {
            Some(secs) => secs,
            None => 0,
        };
        let client_id = match &self.client_id {
            Some(id) => id.clone(),
            None => String::new(),
        };
        let last_will = match &self.last_will {
            Some(will) => Some(will.clone()),
            None => None,
        };
        let username = match &self.username {
            Some(name) => Some(name.clone()),
            None => None,
        };
        let password = match &self.password {
            Some(word) => Some(word.clone()),
            None => None,
        };
        Connect {
            protocol: self.protocol,
            keep_alive,
            client_id,
            clean_session: self.clean_session,
            last_will,
            username,
            password,
        }
    }
}

} // verus!
