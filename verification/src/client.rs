//! The torrent clients that announces can impersonate: what each one sends
//! and how it generates its key and peer id.

use vstd::prelude::*;

verus! {

/// Refresh policy: never generated again.
pub const NEVER: u8 = 0;
/// Refresh policy: on a timer, or after the `started` announce.
pub const TIMED_OR_AFTER_STARTED_ANNOUNCE: u8 = 1;
/// Refresh policy: again for each torrent, not kept.
pub const TORRENT_VOLATILE: u8 = 2;
/// Refresh policy: once for each torrent, kept.
pub const TORRENT_PERSISTENT: u8 = 3;

/// Generator: from a regular expression.
pub const REGEX: u8 = 10;
/// Generator: hex digits of a hash.
pub const HASH: u8 = 11;
/// Generator: hex digits of a hash, without leading zeros.
pub const HASH_NO_LEADING_ZERO: u8 = 12;
/// Generator: a number of a range (inclusive bounds: from 1 to 2147483647), in hex without leading zeros.
pub const DIGIT_RANGE_TRANSFORMED_TO_HEX_WITHOUT_LEADING_ZEROES: u8 = 13;
/// Generator: characters from a pool, ended by a checksum character.
pub const RANDOM_POOL_WITH_CHECKSUM: u8 = 14;
/// Length of a peer id.
pub const PEER_ID_LENGTH: usize = 20;

/// A client profile as plain values.
pub struct ClientView {
    pub key_algorithm: u8,
    pub key_pattern: Seq<char>,
    pub prefix: Seq<char>,
    pub key_refresh_on: u8,
    pub key_refresh_every: u16,
    pub key_uppercase: Option<bool>,
    pub peer_algorithm: u8,
    pub peer_pattern: Seq<char>,
    pub peer_refresh_on: u8,
    pub peer_prefix: Seq<char>,
    pub encoding_exclusion_pattern: Seq<char>,
    pub uppercase_encoded_hex: bool,
    pub should_url_encode: bool,
    pub query: Seq<char>,
    pub user_agent: Seq<char>,
    pub accept: Seq<char>,
    pub accept_encoding: Seq<char>,
    pub accept_language: Seq<char>,
    pub connection: Option<Seq<char>>,
    pub num_want: u16,
    pub num_want_on_stop: u16,
    pub infohash: Seq<char>,
    pub peer_id: Seq<char>,
}

/// What a torrent client sends in its announces, and how it generates its key and peer id.
#[derive(Default, Clone)]
pub struct Client {
    /// How the announce key is generated (`HASH`, `HASH_NO_LEADING_ZERO`, `REGEX`, `DIGIT_RANGE_TRANSFORMED_TO_HEX_WITHOUT_LEADING_ZEROES`).
    pub key_algorithm: u8,
    /// Pattern for the `REGEX` key generator; for a digit range, the range itself.
    pub key_pattern: String,
    /// Prefix of a key made from a pool of characters with a checksum.
    pub prefix: String,
    /// When the key is generated again.
    pub key_refresh_on: u8,
    /// Number of announces between two keys, for timed refreshes.
    pub key_refresh_every: u16,
    /// Whether the hex digits of a hashed key are upper case.
    pub key_uppercase: Option<bool>,
    /// How the peer id is generated (`REGEX` or a random pool with checksum).
    pub peer_algorithm: u8,
    /// Pattern of the peer id for `REGEX`; the pool of characters otherwise.
    pub peer_pattern: String,
    /// When the peer id is generated again.
    pub peer_refresh_on: u8,
    /// Prefix of a peer id made from a pool of characters.
    pub peer_prefix: String,
    /// Characters that the URL encoder leaves as they are.
    pub encoding_exclusion_pattern: String,
    /// Whether the URL encoder writes its hex digits in upper case.
    pub uppercase_encoded_hex: bool,
    /// Whether the peer id is URL encoded in the query.
    pub should_url_encode: bool,
    /// Template of the announce query.
    pub query: String,
    /// `User-Agent` header.
    pub user_agent: String,
    /// `Accept` header.
    pub accept: String,
    /// `Accept-Encoding` header.
    pub accept_encoding: String,
    /// `Accept-Language` header.
    pub accept_language: String,
    /// `Connection` header, if one is sent.
    pub connection: Option<String>,
    /// Number of peers asked for.
    pub num_want: u16,
    /// Number of peers asked for in the `stopped` announce.
    pub num_want_on_stop: u16,
    /// Info hash of the torrent being announced.
    pub infohash: String,
    /// Peer id in use.
    pub peer_id: String,
}

impl View for Client {
    type V = ClientView;

    open spec fn view(&self) -> ClientView {
        ClientView {
            key_algorithm: self.key_algorithm,
            key_pattern: self.key_pattern@,
            prefix: self.prefix@,
            key_refresh_on: self.key_refresh_on,
            key_refresh_every: self.key_refresh_every,
            key_uppercase: self.key_uppercase,
            peer_algorithm: self.peer_algorithm,
            peer_pattern: self.peer_pattern@,
            peer_refresh_on: self.peer_refresh_on,
            peer_prefix: self.peer_prefix@,
            encoding_exclusion_pattern: self.encoding_exclusion_pattern@,
            uppercase_encoded_hex: self.uppercase_encoded_hex,
            should_url_encode: self.should_url_encode,
            query: self.query@,
            user_agent: self.user_agent@,
            accept: self.accept@,
            accept_encoding: self.accept_encoding@,
            accept_language: self.accept_language@,
            connection: match self.connection {
                Some(s) => Some(s@),
                None => None,
            },
            num_want: self.num_want,
            num_want_on_stop: self.num_want_on_stop,
            infohash: self.infohash@,
            peer_id: self.peer_id@,
        }
    }
}

/// The profile that every client starts from.
pub open spec fn default_client() -> ClientView {
    ClientView {
        key_algorithm: HASH,
        key_pattern: ""@,
        prefix: ""@,
        key_refresh_on: TIMED_OR_AFTER_STARTED_ANNOUNCE,
        key_refresh_every: 0,
        key_uppercase: None,
        peer_algorithm: HASH,
        peer_pattern: ""@,
        peer_refresh_on: NEVER,
        peer_prefix: ""@,
        encoding_exclusion_pattern: "[A-Za-z0-9-]"@,
        uppercase_encoded_hex: false,
        should_url_encode: false,
        query: "info_hash={infohash}&peer_id={peerid}&port={port}&uploaded={uploaded}&downloaded={downloaded}&left={left}&corrupt=0&key={key}&event={event}&numwant={numwant}&compact=1&no_peer_id=1"@,
        user_agent: ""@,
        accept: ""@,
        accept_encoding: "gzip"@,
        accept_language: ""@,
        connection: Some("Close"@),
        num_want: 200,
        num_want_on_stop: 0,
        infohash: ""@,
        peer_id: ""@,
    }
}

/// Each field of a client is seen as its own value.
pub proof fn law_client_view(c: Client)
    ensures
        c@.key_algorithm == c.key_algorithm,
        c@.key_pattern == c.key_pattern@,
        c@.prefix == c.prefix@,
        c@.key_refresh_on == c.key_refresh_on,
        c@.key_refresh_every == c.key_refresh_every,
        c@.key_uppercase == c.key_uppercase,
        c@.peer_algorithm == c.peer_algorithm,
        c@.peer_pattern == c.peer_pattern@,
        c@.peer_refresh_on == c.peer_refresh_on,
        c@.peer_prefix == c.peer_prefix@,
        c@.encoding_exclusion_pattern == c.encoding_exclusion_pattern@,
        c@.uppercase_encoded_hex == c.uppercase_encoded_hex,
        c@.should_url_encode == c.should_url_encode,
        c@.query == c.query@,
        c@.user_agent == c.user_agent@,
        c@.accept == c.accept@,
        c@.accept_encoding == c.accept_encoding@,
        c@.accept_language == c.accept_language@,
        c.connection is None ==> c@.connection is None,
        c.connection matches Some(s) ==> c@.connection == Some(s@),
        c@.num_want == c.num_want,
        c@.num_want_on_stop == c.num_want_on_stop,
        c@.infohash == c.infohash@,
        c@.peer_id == c.peer_id@,
{
}

/// A missing profile is seen as missing, a present one as its view.
pub proof fn law_client_option_view(c: Option<Client>)
    ensures
        c is None ==> client_option_view(c) is None,
        c matches Some(x) ==> client_option_view(c) == Some(x@),
{
}

/// A profile, if any, as plain values.
pub open spec fn client_option_view(c: Option<Client>) -> Option<ClientView> {
    match c {
        Some(c) => Some(c@),
        None => None,
    }
}

impl Client {
    /// The profile that every client starts from.
    pub fn default() -> (c: Self)
        ensures
            c@ == default_client(),
    {
        Client {
            key_algorithm: HASH,
            key_pattern: "".to_owned(),
            prefix: "".to_owned(),
            key_refresh_on: TIMED_OR_AFTER_STARTED_ANNOUNCE,
            key_refresh_every: 0,
            key_uppercase: None,
            peer_algorithm: HASH,
            peer_pattern: "".to_owned(),
            peer_refresh_on: NEVER,
            peer_prefix: "".to_owned(),
            encoding_exclusion_pattern: "[A-Za-z0-9-]".to_owned(),
            uppercase_encoded_hex: false,
            should_url_encode: false,
            query: "info_hash={infohash}&peer_id={peerid}&port={port}&uploaded={uploaded}&downloaded={downloaded}&left={left}&corrupt=0&key={key}&event={event}&numwant={numwant}&compact=1&no_peer_id=1".to_owned(),
            user_agent: "".to_owned(),
            accept: "".to_owned(),
            accept_encoding: "gzip".to_owned(),
            accept_language: "".to_owned(),
            connection: Some("Close".to_owned()),
            num_want: 200,
            num_want_on_stop: 0,
            infohash: "".to_owned(),
            peer_id: "".to_owned(),
        }
    }
}

/// Whether two texts hold the same characters.
fn same_text(a: &str, b: &str) -> (r: bool)
    ensures
        r == (a@ == b@),
{
    let n = a.unicode_len();
    if n != b.unicode_len() {
        return false;
    }
    let mut i: usize = 0;
    while i < n
        invariant
            n == a@.len(),
            n == b@.len(),
            i <= n,
            a@.take(i as int) == b@.take(i as int),
        decreases n - i,
    {
        if a.get_char(i) != b.get_char(i) {
            assert(a@.take(i + 1)[i as int] != b@.take(i + 1)[i as int]);
            return false;
        }
        assert(a@.take(i + 1) =~= a@.take(i as int).push(a@[i as int]));
        assert(b@.take(i + 1) =~= b@.take(i as int).push(b@[i as int]));
        i = i + 1;
    }
    assert(a@.take(n as int) =~= a@);
    assert(b@.take(n as int) =~= b@);
    true
}

/// The BitTorrent profile with the given `peer_pattern`, `user_agent`.
pub open spec fn bittorrent_client(peer_pattern: Seq<char>, user_agent: Seq<char>) -> ClientView {
    ClientView {
        should_url_encode: true,
        peer_pattern,
        user_agent,
        ..default_client()
    }
}

fn new_bittorrent(peer_pattern: &str, user_agent: &str) -> (c: Client)
    ensures
        c@ == bittorrent_client(peer_pattern@, user_agent@),
{
    let mut c = Client::default();
    c.should_url_encode = true;
    c.peer_pattern = peer_pattern.to_owned();
    c.user_agent = user_agent.to_owned();
    c
}

/// The BitTorrent versions that can be impersonated.
pub open spec fn bittorrent_profile(name: Seq<char>) -> Option<ClientView> {
    if name == "bittorrent-7.10.1_43917"@ {
        Some(bittorrent_client("-BT71000(\u{008d}\u{00ab})[\u{0001}-\u{00ff}]{10}"@, "BitTorrent/7100(255961997)(43917)"@))
    } else if name == "bittorrent-7.10.3_44359"@ {
        Some(bittorrent_client("-BT7a3S-G(\u{00ad})[\u{0001}-\u{00ff}]{10}"@, "BitTorrent/7103(256355655)(44359)"@))
    } else if name == "bittorrent-7.10.3_44429"@ {
        Some(bittorrent_client("-BT7a3S-(\u{008d})(\u{00ad})[\u{0001}-\u{00ff}]{10}"@, "BitTorrent/7103(256355725)(44429)"@))
    } else {
        None
    }
}

fn find_bittorrent(name: &str) -> (r: Option<Client>)
    ensures
        client_option_view(r) == bittorrent_profile(name@),
{
    if same_text(name, "bittorrent-7.10.1_43917") {
        Some(new_bittorrent("-BT71000(\u{008d}\u{00ab})[\u{0001}-\u{00ff}]{10}", "BitTorrent/7100(255961997)(43917)"))
    } else if same_text(name, "bittorrent-7.10.3_44359") {
        Some(new_bittorrent("-BT7a3S-G(\u{00ad})[\u{0001}-\u{00ff}]{10}", "BitTorrent/7103(256355655)(44359)"))
    } else if same_text(name, "bittorrent-7.10.3_44429") {
        Some(new_bittorrent("-BT7a3S-(\u{008d})(\u{00ad})[\u{0001}-\u{00ff}]{10}", "BitTorrent/7103(256355725)(44429)"))
    } else {
        None
    }
}

/// The Deluge profile with the given `peer_pattern`, `user_agent`.
pub open spec fn deluge_client(peer_pattern: Seq<char>, user_agent: Seq<char>) -> ClientView {
    ClientView {
        key_algorithm: HASH_NO_LEADING_ZERO,
        key_refresh_on: TORRENT_PERSISTENT,
        key_uppercase: Some(true),
        encoding_exclusion_pattern: "[A-Za-z0-9_~\\\\(\\\\)\\\\!\\\\.\\\\*-]"@,
        query: "info_hash={infohash}&peer_id={peerid}&port={port}&uploaded={uploaded}&downloaded={downloaded}&left={left}&corrupt=0&key={key}&event={event}&numwant={numwant}&compact=1&no_peer_id=1&supportcrypto=1&redundant=0"@,
        peer_pattern,
        user_agent,
        ..default_client()
    }
}

fn new_deluge(peer_pattern: &str, user_agent: &str) -> (c: Client)
    ensures
        c@ == deluge_client(peer_pattern@, user_agent@),
{
    let mut c = Client::default();
    c.key_algorithm = HASH_NO_LEADING_ZERO;
    c.key_refresh_on = TORRENT_PERSISTENT;
    c.key_uppercase = Some(true);
    c.encoding_exclusion_pattern = "[A-Za-z0-9_~\\\\(\\\\)\\\\!\\\\.\\\\*-]".to_owned();
    c.query = "info_hash={infohash}&peer_id={peerid}&port={port}&uploaded={uploaded}&downloaded={downloaded}&left={left}&corrupt=0&key={key}&event={event}&numwant={numwant}&compact=1&no_peer_id=1&supportcrypto=1&redundant=0".to_owned();
    c.peer_pattern = peer_pattern.to_owned();
    c.user_agent = user_agent.to_owned();
    c
}

/// The Deluge versions that can be impersonated.
pub open spec fn deluge_profile(name: Seq<char>) -> Option<ClientView> {
    if name == "deluge-1.3.13"@ {
        Some(deluge_client("-DE13D0-[A-Za-z0-9_~\\(\\)\\!\\.\\*-]{12}"@, "Deluge 1.3.13"@))
    } else if name == "deluge-1.3.14"@ {
        Some(deluge_client("-DE13E0-[A-Za-z0-9_~\\(\\)\\!\\.\\*-]{12}"@, "Deluge 1.3.14"@))
    } else if name == "deluge-1.3.15"@ {
        Some(deluge_client("-DE13F0-[A-Za-z0-9_~\\(\\)\\!\\.\\*-]{12}"@, "Deluge 1.3.15"@))
    } else {
        None
    }
}

fn find_deluge(name: &str) -> (r: Option<Client>)
    ensures
        client_option_view(r) == deluge_profile(name@),
{
    if same_text(name, "deluge-1.3.13") {
        Some(new_deluge("-DE13D0-[A-Za-z0-9_~\\(\\)\\!\\.\\*-]{12}", "Deluge 1.3.13"))
    } else if same_text(name, "deluge-1.3.14") {
        Some(new_deluge("-DE13E0-[A-Za-z0-9_~\\(\\)\\!\\.\\*-]{12}", "Deluge 1.3.14"))
    } else if same_text(name, "deluge-1.3.15") {
        Some(new_deluge("-DE13F0-[A-Za-z0-9_~\\(\\)\\!\\.\\*-]{12}", "Deluge 1.3.15"))
    } else {
        None
    }
}

/// The Leap profile with the given `peer_pattern`, `user_agent`.
pub open spec fn leap_client(peer_pattern: Seq<char>, user_agent: Seq<char>) -> ClientView {
    ClientView {
        key_refresh_on: TORRENT_PERSISTENT,
        key_uppercase: Some(true),
        encoding_exclusion_pattern: "[A-Za-z0-9_~\\\\(\\\\)\\\\!\\\\.\\\\*-]"@,
        query: "info_hash={infohash}&peer_id={peerid}&port={port}&uploaded={uploaded}&downloaded={downloaded}&left={left}&corrupt=0&key={key}&event={event}&numwant={numwant}&compact=1&no_peer_id=1&supportcrypto=1&redundant=0"@,
        connection: Some("close"@),
        peer_pattern,
        user_agent,
        ..default_client()
    }
}

fn new_leap(peer_pattern: &str, user_agent: &str) -> (c: Client)
    ensures
        c@ == leap_client(peer_pattern@, user_agent@),
{
    let mut c = Client::default();
    c.key_refresh_on = TORRENT_PERSISTENT;
    c.key_uppercase = Some(true);
    c.encoding_exclusion_pattern = "[A-Za-z0-9_~\\\\(\\\\)\\\\!\\\\.\\\\*-]".to_owned();
    c.query = "info_hash={infohash}&peer_id={peerid}&port={port}&uploaded={uploaded}&downloaded={downloaded}&left={left}&corrupt=0&key={key}&event={event}&numwant={numwant}&compact=1&no_peer_id=1&supportcrypto=1&redundant=0".to_owned();
    c.connection = Some("close".to_owned());
    c.peer_pattern = peer_pattern.to_owned();
    c.user_agent = user_agent.to_owned();
    c
}

/// The Leap versions that can be impersonated.
pub open spec fn leap_profile(name: Seq<char>) -> Option<ClientView> {
    if name == "leap-2.6.0.1"@ {
        Some(leap_client("-LT1100-[A-Za-z0-9_~\\(\\)\\!\\.\\*-]{12}"@, "libtorrent_leap/1.1.1.0"@))
    } else {
        None
    }
}

fn find_leap(name: &str) -> (r: Option<Client>)
    ensures
        client_option_view(r) == leap_profile(name@),
{
    if same_text(name, "leap-2.6.0.1") {
        Some(new_leap("-LT1100-[A-Za-z0-9_~\\(\\)\\!\\.\\*-]{12}", "libtorrent_leap/1.1.1.0"))
    } else {
        None
    }
}

/// The qBittorrent profile with the given `peer_pattern`, `user_agent`.
pub open spec fn qbittorrent_client(peer_pattern: Seq<char>, user_agent: Seq<char>) -> ClientView {
    ClientView {
        key_algorithm: HASH_NO_LEADING_ZERO,
        key_refresh_on: TORRENT_PERSISTENT,
        key_uppercase: Some(true),
        encoding_exclusion_pattern: "[A-Za-z0-9_~\\\\(\\\\)\\\\!\\\\.\\\\*-]"@,
        query: "info_hash={infohash}&peer_id={peerid}&port={port}&uploaded={uploaded}&downloaded={downloaded}&left={left}&corrupt=0&key={key}&event={event}&numwant={numwant}&compact=1&no_peer_id=1&supportcrypto=1&redundant=0"@,
        connection: Some("close"@),
        peer_pattern,
        user_agent,
        ..default_client()
    }
}

fn new_qbittorrent(peer_pattern: &str, user_agent: &str) -> (c: Client)
    ensures
        c@ == qbittorrent_client(peer_pattern@, user_agent@),
{
    let mut c = Client::default();
    c.key_algorithm = HASH_NO_LEADING_ZERO;
    c.key_refresh_on = TORRENT_PERSISTENT;
    c.key_uppercase = Some(true);
    c.encoding_exclusion_pattern = "[A-Za-z0-9_~\\\\(\\\\)\\\\!\\\\.\\\\*-]".to_owned();
    c.query = "info_hash={infohash}&peer_id={peerid}&port={port}&uploaded={uploaded}&downloaded={downloaded}&left={left}&corrupt=0&key={key}&event={event}&numwant={numwant}&compact=1&no_peer_id=1&supportcrypto=1&redundant=0".to_owned();
    c.connection = Some("close".to_owned());
    c.peer_pattern = peer_pattern.to_owned();
    c.user_agent = user_agent.to_owned();
    c
}

/// The qBittorrent versions that can be impersonated.
pub open spec fn qbittorrent_profile(name: Seq<char>) -> Option<ClientView> {
    if name == "qBittorrent-3.3.1"@ {
        Some(qbittorrent_client("-qB3310-[A-Za-z0-9_~\\(\\)\\!\\.\\*-]{12}"@, "qBittorrent v3.3.1"@))
    } else if name == "qBittorrent-3.3.7"@ {
        Some(qbittorrent_client("-qB3310-[A-Za-z0-9_~\\(\\)\\!\\.\\*-]{12}"@, "qBittorrent v3.3.7"@))
    } else if name == "qBittorrent-3.3.13"@ {
        Some(qbittorrent_client("-qB33D0-[A-Za-z0-9_~\\(\\)\\!\\.\\*-]{12}"@, "qBittorrent/3.3.13"@))
    } else if name == "qBittorrent-3.3.14"@ {
        Some(qbittorrent_client("-qB33E0-[A-Za-z0-9_~\\(\\)\\!\\.\\*-]{12}"@, "qBittorrent/3.3.14"@))
    } else if name == "qBittorrent-3.3.15"@ {
        Some(qbittorrent_client("-qB33F0-[A-Za-z0-9_~\\(\\)\\!\\.\\*-]{12}"@, "qBittorrent/3.3.15"@))
    } else if name == "qBittorrent-3.3.16"@ {
        Some(qbittorrent_client("-qB33G0-[A-Za-z0-9_~\\(\\)\\!\\.\\*-]{12}"@, "qBittorrent/3.3.16"@))
    } else if name == "qBittorrent-4.0.0"@ {
        Some(qbittorrent_client("-qB4000-[A-Za-z0-9_~\\(\\)\\!\\.\\*-]{12}"@, "qBittorrent /4.0.0"@))
    } else if name == "qBittorrent-4.0.1"@ {
        Some(qbittorrent_client("-qB4010-[A-Za-z0-9_~\\(\\)\\!\\.\\*-]{12}"@, "qBittorrent /4.0.1"@))
    } else if name == "qBittorrent-4.0.2"@ {
        Some(qbittorrent_client("-qB4020-[A-Za-z0-9_~\\(\\)\\!\\.\\*-]{12}"@, "qBittorrent /4.0.2"@))
    } else if name == "qBittorrent-4.0.3"@ {
        Some(qbittorrent_client("-qB4030-[A-Za-z0-9_~\\(\\)\\!\\.\\*-]{12}"@, "qBittorrent /4.0.3"@))
    } else if name == "qBittorrent-4.0.4"@ {
        Some(qbittorrent_client("-qB4040-[A-Za-z0-9_~\\(\\)\\!\\.\\*-]{12}"@, "qBittorrent /4.0.4"@))
    } else if name == "qBittorrent-4.1.0"@ {
        Some(qbittorrent_client("-qB4100-[A-Za-z0-9_~\\(\\)\\!\\.\\*-]{12}"@, "qBittorrent /4.1.0"@))
    } else if name == "qBittorrent-4.1.1"@ {
        Some(qbittorrent_client("-qB4110-[A-Za-z0-9_~\\(\\)\\!\\.\\*-]{12}"@, "qBittorrent /4.1.1"@))
    } else if name == "qBittorrent-4.1.2"@ {
        Some(qbittorrent_client("-qB4120-[A-Za-z0-9_~\\(\\)\\!\\.\\*-]{12}"@, "qBittorrent /4.1.2"@))
    } else if name == "qBittorrent-4.1.3"@ {
        Some(qbittorrent_client("-qB4130-[A-Za-z0-9_~\\(\\)\\!\\.\\*-]{12}"@, "qBittorrent /4.1.3"@))
    } else if name == "qBittorrent-4.1.4"@ {
        Some(qbittorrent_client("-qB4140-[A-Za-z0-9_~\\(\\)\\!\\.\\*-]{12}"@, "qBittorrent /4.1.4"@))
    } else if name == "qBittorrent-4.1.5"@ {
        Some(qbittorrent_client("-qB4150-[A-Za-z0-9_~\\(\\)\\!\\.\\*-]{12}"@, "qBittorrent /4.1.5"@))
    } else if name == "qBittorrent-4.1.6"@ {
        Some(qbittorrent_client("-qB4160-[A-Za-z0-9_~\\(\\)\\!\\.\\*-]{12}"@, "qBittorrent /4.1.6"@))
    } else if name == "qBittorrent-4.1.7"@ {
        Some(qbittorrent_client("-qB4170-[A-Za-z0-9_~\\(\\)\\!\\.\\*-]{12}"@, "qBittorrent /4.1.7"@))
    } else if name == "qBittorrent-4.1.8"@ {
        Some(qbittorrent_client("-qB4180-[A-Za-z0-9_~\\(\\)\\!\\.\\*-]{12}"@, "qBittorrent /4.1.8"@))
    } else if name == "qBittorrent-4.1.9"@ {
        Some(qbittorrent_client("-qB4190-[A-Za-z0-9_~\\(\\)\\!\\.\\*-]{12}"@, "qBittorrent /4.1.9"@))
    } else if name == "qBittorrent-4.2.0"@ {
        Some(qbittorrent_client("-qB4200-[A-Za-z0-9_~\\(\\)\\!\\.\\*-]{12}"@, "qBittorrent/4.2.0"@))
    } else if name == "qBittorrent-4.2.1"@ {
        Some(qbittorrent_client("-qB4210-[A-Za-z0-9_~\\(\\)\\!\\.\\*-]{12}"@, "qBittorrent/4.2.1"@))
    } else if name == "qBittorrent-4.2.2"@ {
        Some(qbittorrent_client("-qB4220-[A-Za-z0-9_~\\(\\)\\!\\.\\*-]{12}"@, "qBittorrent/4.2.2"@))
    } else if name == "qBittorrent-4.2.3"@ {
        Some(qbittorrent_client("-qB4230-[A-Za-z0-9_~\\(\\)\\!\\.\\*-]{12}"@, "qBittorrent/4.2.3"@))
    } else if name == "qBittorrent-4.2.4"@ {
        Some(qbittorrent_client("-qB4240-[A-Za-z0-9_~\\(\\)\\!\\.\\*-]{12}"@, "qBittorrent/4.2.4"@))
    } else if name == "qBittorrent-4.2.5"@ {
        Some(qbittorrent_client("-qB4250-[A-Za-z0-9_~\\(\\)\\!\\.\\*-]{12}"@, "qBittorrent/4.2.5"@))
    } else if name == "qBittorrent-4.3.0"@ {
        Some(qbittorrent_client("4.3-qB4300-[A-Za-z0-9_~\\(\\)\\!\\.\\*-]{12}"@, "qBittorrent/4.3.0"@))
    } else if name == "qBittorrent-4.3.0.1"@ {
        Some(qbittorrent_client("4.3-qB4301-[A-Za-z0-9_~\\(\\)\\!\\.\\*-]{12}"@, "qBittorrent/4.3.0.1"@))
    } else if name == "qBittorrent-4.3.1"@ {
        Some(qbittorrent_client("4.3-qB4310-[A-Za-z0-9_~\\(\\)\\!\\.\\*-]{12}"@, "qBittorrent/4.3.1"@))
    } else if name == "qBittorrent-4.3.2"@ {
        Some(qbittorrent_client("4.3-qB4320-[A-Za-z0-9_~\\(\\)\\!\\.\\*-]{12}"@, "qBittorrent/4.3.2"@))
    } else if name == "qBittorrent-4.3.3"@ {
        Some(qbittorrent_client("4.3-qB4330-[A-Za-z0-9_~\\(\\)\\!\\.\\*-]{12}"@, "qBittorrent/4.3.3"@))
    } else {
        None
    }
}

fn find_qbittorrent(name: &str) -> (r: Option<Client>)
    ensures
        client_option_view(r) == qbittorrent_profile(name@),
{
    if same_text(name, "qBittorrent-3.3.1") {
        Some(new_qbittorrent("-qB3310-[A-Za-z0-9_~\\(\\)\\!\\.\\*-]{12}", "qBittorrent v3.3.1"))
    } else if same_text(name, "qBittorrent-3.3.7") {
        Some(new_qbittorrent("-qB3310-[A-Za-z0-9_~\\(\\)\\!\\.\\*-]{12}", "qBittorrent v3.3.7"))
    } else if same_text(name, "qBittorrent-3.3.13") {
        Some(new_qbittorrent("-qB33D0-[A-Za-z0-9_~\\(\\)\\!\\.\\*-]{12}", "qBittorrent/3.3.13"))
    } else if same_text(name, "qBittorrent-3.3.14") {
        Some(new_qbittorrent("-qB33E0-[A-Za-z0-9_~\\(\\)\\!\\.\\*-]{12}", "qBittorrent/3.3.14"))
    } else if same_text(name, "qBittorrent-3.3.15") {
        Some(new_qbittorrent("-qB33F0-[A-Za-z0-9_~\\(\\)\\!\\.\\*-]{12}", "qBittorrent/3.3.15"))
    } else if same_text(name, "qBittorrent-3.3.16") {
        Some(new_qbittorrent("-qB33G0-[A-Za-z0-9_~\\(\\)\\!\\.\\*-]{12}", "qBittorrent/3.3.16"))
    } else if same_text(name, "qBittorrent-4.0.0") {
        Some(new_qbittorrent("-qB4000-[A-Za-z0-9_~\\(\\)\\!\\.\\*-]{12}", "qBittorrent /4.0.0"))
    } else if same_text(name, "qBittorrent-4.0.1") {
        Some(new_qbittorrent("-qB4010-[A-Za-z0-9_~\\(\\)\\!\\.\\*-]{12}", "qBittorrent /4.0.1"))
    } else if same_text(name, "qBittorrent-4.0.2") {
        Some(new_qbittorrent("-qB4020-[A-Za-z0-9_~\\(\\)\\!\\.\\*-]{12}", "qBittorrent /4.0.2"))
    } else if same_text(name, "qBittorrent-4.0.3") {
        Some(new_qbittorrent("-qB4030-[A-Za-z0-9_~\\(\\)\\!\\.\\*-]{12}", "qBittorrent /4.0.3"))
    } else if same_text(name, "qBittorrent-4.0.4") {
        Some(new_qbittorrent("-qB4040-[A-Za-z0-9_~\\(\\)\\!\\.\\*-]{12}", "qBittorrent /4.0.4"))
    } else if same_text(name, "qBittorrent-4.1.0") {
        Some(new_qbittorrent("-qB4100-[A-Za-z0-9_~\\(\\)\\!\\.\\*-]{12}", "qBittorrent /4.1.0"))
    } else if same_text(name, "qBittorrent-4.1.1") {
        Some(new_qbittorrent("-qB4110-[A-Za-z0-9_~\\(\\)\\!\\.\\*-]{12}", "qBittorrent /4.1.1"))
    } else if same_text(name, "qBittorrent-4.1.2") {
        Some(new_qbittorrent("-qB4120-[A-Za-z0-9_~\\(\\)\\!\\.\\*-]{12}", "qBittorrent /4.1.2"))
    } else if same_text(name, "qBittorrent-4.1.3") {
        Some(new_qbittorrent("-qB4130-[A-Za-z0-9_~\\(\\)\\!\\.\\*-]{12}", "qBittorrent /4.1.3"))
    } else if same_text(name, "qBittorrent-4.1.4") {
        Some(new_qbittorrent("-qB4140-[A-Za-z0-9_~\\(\\)\\!\\.\\*-]{12}", "qBittorrent /4.1.4"))
    } else if same_text(name, "qBittorrent-4.1.5") {
        Some(new_qbittorrent("-qB4150-[A-Za-z0-9_~\\(\\)\\!\\.\\*-]{12}", "qBittorrent /4.1.5"))
    } else if same_text(name, "qBittorrent-4.1.6") {
        Some(new_qbittorrent("-qB4160-[A-Za-z0-9_~\\(\\)\\!\\.\\*-]{12}", "qBittorrent /4.1.6"))
    } else if same_text(name, "qBittorrent-4.1.7") {
        Some(new_qbittorrent("-qB4170-[A-Za-z0-9_~\\(\\)\\!\\.\\*-]{12}", "qBittorrent /4.1.7"))
    } else if same_text(name, "qBittorrent-4.1.8") {
        Some(new_qbittorrent("-qB4180-[A-Za-z0-9_~\\(\\)\\!\\.\\*-]{12}", "qBittorrent /4.1.8"))
    } else if same_text(name, "qBittorrent-4.1.9") {
        Some(new_qbittorrent("-qB4190-[A-Za-z0-9_~\\(\\)\\!\\.\\*-]{12}", "qBittorrent /4.1.9"))
    } else if same_text(name, "qBittorrent-4.2.0") {
        Some(new_qbittorrent("-qB4200-[A-Za-z0-9_~\\(\\)\\!\\.\\*-]{12}", "qBittorrent/4.2.0"))
    } else if same_text(name, "qBittorrent-4.2.1") {
        Some(new_qbittorrent("-qB4210-[A-Za-z0-9_~\\(\\)\\!\\.\\*-]{12}", "qBittorrent/4.2.1"))
    } else if same_text(name, "qBittorrent-4.2.2") {
        Some(new_qbittorrent("-qB4220-[A-Za-z0-9_~\\(\\)\\!\\.\\*-]{12}", "qBittorrent/4.2.2"))
    } else if same_text(name, "qBittorrent-4.2.3") {
        Some(new_qbittorrent("-qB4230-[A-Za-z0-9_~\\(\\)\\!\\.\\*-]{12}", "qBittorrent/4.2.3"))
    } else if same_text(name, "qBittorrent-4.2.4") {
        Some(new_qbittorrent("-qB4240-[A-Za-z0-9_~\\(\\)\\!\\.\\*-]{12}", "qBittorrent/4.2.4"))
    } else if same_text(name, "qBittorrent-4.2.5") {
        Some(new_qbittorrent("-qB4250-[A-Za-z0-9_~\\(\\)\\!\\.\\*-]{12}", "qBittorrent/4.2.5"))
    } else if same_text(name, "qBittorrent-4.3.0") {
        Some(new_qbittorrent("4.3-qB4300-[A-Za-z0-9_~\\(\\)\\!\\.\\*-]{12}", "qBittorrent/4.3.0"))
    } else if same_text(name, "qBittorrent-4.3.0.1") {
        Some(new_qbittorrent("4.3-qB4301-[A-Za-z0-9_~\\(\\)\\!\\.\\*-]{12}", "qBittorrent/4.3.0.1"))
    } else if same_text(name, "qBittorrent-4.3.1") {
        Some(new_qbittorrent("4.3-qB4310-[A-Za-z0-9_~\\(\\)\\!\\.\\*-]{12}", "qBittorrent/4.3.1"))
    } else if same_text(name, "qBittorrent-4.3.2") {
        Some(new_qbittorrent("4.3-qB4320-[A-Za-z0-9_~\\(\\)\\!\\.\\*-]{12}", "qBittorrent/4.3.2"))
    } else if same_text(name, "qBittorrent-4.3.3") {
        Some(new_qbittorrent("4.3-qB4330-[A-Za-z0-9_~\\(\\)\\!\\.\\*-]{12}", "qBittorrent/4.3.3"))
    } else {
        None
    }
}

/// The rTorrent profile with the given `peer_pattern`, `user_agent`.
pub open spec fn rtorrent_client(peer_pattern: Seq<char>, user_agent: Seq<char>) -> ClientView {
    ClientView {
        key_refresh_on: TORRENT_PERSISTENT,
        key_uppercase: Some(false),
        peer_algorithm: REGEX,
        peer_refresh_on: TORRENT_PERSISTENT,
        uppercase_encoded_hex: true,
        should_url_encode: true,
        query: "info_hash={infohash}&peer_id={peerid}&key={key}&compact=1&port={port}&uploaded={uploaded}&downloaded={downloaded}&left={left}&event={event}"@,
        accept: "*/*"@,
        accept_encoding: "deflate, gzip"@,
        connection: None,
        num_want: 50,
        peer_pattern,
        user_agent,
        ..default_client()
    }
}

fn new_rtorrent(peer_pattern: &str, user_agent: &str) -> (c: Client)
    ensures
        c@ == rtorrent_client(peer_pattern@, user_agent@),
{
    let mut c = Client::default();
    c.key_refresh_on = TORRENT_PERSISTENT;
    c.key_uppercase = Some(false);
    c.peer_algorithm = REGEX;
    c.peer_refresh_on = TORRENT_PERSISTENT;
    c.uppercase_encoded_hex = true;
    c.should_url_encode = true;
    c.query = "info_hash={infohash}&peer_id={peerid}&key={key}&compact=1&port={port}&uploaded={uploaded}&downloaded={downloaded}&left={left}&event={event}".to_owned();
    c.accept = "*/*".to_owned();
    c.accept_encoding = "deflate, gzip".to_owned();
    c.connection = None;
    c.num_want = 50;
    c.peer_pattern = peer_pattern.to_owned();
    c.user_agent = user_agent.to_owned();
    c
}

/// The rTorrent versions that can be impersonated.
pub open spec fn rtorrent_profile(name: Seq<char>) -> Option<ClientView> {
    if name == "rtorrent-0.9.6_0.13.6"@ {
        Some(rtorrent_client("-lt0D60-[\u{0001}-\u{00ff}]{12}"@, "rtorrent/0.9.6/0.13.6"@))
    } else {
        None
    }
}

fn find_rtorrent(name: &str) -> (r: Option<Client>)
    ensures
        client_option_view(r) == rtorrent_profile(name@),
{
    if same_text(name, "rtorrent-0.9.6_0.13.6") {
        Some(new_rtorrent("-lt0D60-[\u{0001}-\u{00ff}]{12}", "rtorrent/0.9.6/0.13.6"))
    } else {
        None
    }
}

/// The Transmission profile with the given `peer_prefix`, `peer_pattern`, `user_agent`.
pub open spec fn transmission_client(peer_prefix: Seq<char>, peer_pattern: Seq<char>, user_agent: Seq<char>) -> ClientView {
    ClientView {
        key_algorithm: DIGIT_RANGE_TRANSFORMED_TO_HEX_WITHOUT_LEADING_ZEROES,
        key_pattern: "1-2147483647"@,
        key_refresh_on: NEVER,
        key_uppercase: Some(false),
        peer_refresh_on: TORRENT_VOLATILE,
        encoding_exclusion_pattern: "[A-Za-z0-9_~\\\\(\\\\)\\\\!\\\\.\\\\*-]"@,
        query: "info_hash={infohash}&peer_id={peerid}&port={port}&uploaded={uploaded}&downloaded={downloaded}&left={left}&numwant={numwant}&key={key}&compact=1&supportcrypto=1&event={event}&ipv6={ipv6}"@,
        accept: "*/*"@,
        accept_encoding: "gzip;q=1.0, deflate, identity"@,
        connection: None,
        num_want: 80,
        peer_prefix,
        peer_pattern,
        user_agent,
        ..default_client()
    }
}

fn new_transmission(peer_prefix: &str, peer_pattern: &str, user_agent: &str) -> (c: Client)
    ensures
        c@ == transmission_client(peer_prefix@, peer_pattern@, user_agent@),
{
    let mut c = Client::default();
    c.key_algorithm = DIGIT_RANGE_TRANSFORMED_TO_HEX_WITHOUT_LEADING_ZEROES;
    c.key_pattern = "1-2147483647".to_owned();
    c.key_refresh_on = NEVER;
    c.key_uppercase = Some(false);
    c.peer_refresh_on = TORRENT_VOLATILE;
    c.encoding_exclusion_pattern = "[A-Za-z0-9_~\\\\(\\\\)\\\\!\\\\.\\\\*-]".to_owned();
    c.query = "info_hash={infohash}&peer_id={peerid}&port={port}&uploaded={uploaded}&downloaded={downloaded}&left={left}&numwant={numwant}&key={key}&compact=1&supportcrypto=1&event={event}&ipv6={ipv6}".to_owned();
    c.accept = "*/*".to_owned();
    c.accept_encoding = "gzip;q=1.0, deflate, identity".to_owned();
    c.connection = None;
    c.num_want = 80;
    c.peer_prefix = peer_prefix.to_owned();
    c.peer_pattern = peer_pattern.to_owned();
    c.user_agent = user_agent.to_owned();
    c
}

/// The Transmission versions that can be impersonated.
pub open spec fn transmission_profile(name: Seq<char>) -> Option<ClientView> {
    if name == "transmission-2.82_14160"@ {
        Some(transmission_client("-TR2820-"@, "0123456789abcdefghijklmnopqrstuvwxyz"@, "Transmission/2.82"@))
    } else if name == "transmission-2.92_14714"@ {
        Some(transmission_client("-TR2824Z-"@, "0123456789abcdefghijklmnopqrstuvwxyz"@, "Transmission/2.84+"@))
    } else if name == "transmission-2.93"@ {
        Some(transmission_client("-TR2930-"@, "0123456789abcdefghijklmnopqrstuvwxyz"@, "Transmission/2.93"@))
    } else if name == "transmission-2.94"@ {
        Some(transmission_client("-TR2940-"@, "0123456789abcdefghijklmnopqrstuvwxyz"@, "Transmission/2.94"@))
    } else if name == "transmission-3.00"@ {
        Some(transmission_client("-TR3000-"@, "0123456789abcdefghijklmnopqrstuvwxyz"@, "Transmission/3.00"@))
    } else {
        None
    }
}

fn find_transmission(name: &str) -> (r: Option<Client>)
    ensures
        client_option_view(r) == transmission_profile(name@),
{
    if same_text(name, "transmission-2.82_14160") {
        Some(new_transmission("-TR2820-", "0123456789abcdefghijklmnopqrstuvwxyz", "Transmission/2.82"))
    } else if same_text(name, "transmission-2.92_14714") {
        Some(new_transmission("-TR2824Z-", "0123456789abcdefghijklmnopqrstuvwxyz", "Transmission/2.84+"))
    } else if same_text(name, "transmission-2.93") {
        Some(new_transmission("-TR2930-", "0123456789abcdefghijklmnopqrstuvwxyz", "Transmission/2.93"))
    } else if same_text(name, "transmission-2.94") {
        Some(new_transmission("-TR2940-", "0123456789abcdefghijklmnopqrstuvwxyz", "Transmission/2.94"))
    } else if same_text(name, "transmission-3.00") {
        Some(new_transmission("-TR3000-", "0123456789abcdefghijklmnopqrstuvwxyz", "Transmission/3.00"))
    } else {
        None
    }
}

/// The uTorrent 3.2 profile with the given `peer_pattern`, `user_agent`.
pub open spec fn utorrent_classic_client(peer_pattern: Seq<char>, user_agent: Seq<char>) -> ClientView {
    ClientView {
        key_refresh_on: TIMED_OR_AFTER_STARTED_ANNOUNCE,
        key_refresh_every: 10,
        key_uppercase: Some(true),
        should_url_encode: true,
        query: "info_hash={infohash}&peer_id={peerid}&port={port}&uploaded={uploaded}&downloaded={downloaded}&left={left}&corrupt=0&key={key}&event={event}&numwant={numwant}&compact=1&no_peer_id=1&ipv6={ipv6}"@,
        accept_encoding: "gzip;q=1.0, deflate, identity"@,
        accept_language: "{locale}"@,
        num_want_on_stop: 200,
        peer_pattern,
        user_agent,
        ..default_client()
    }
}

fn new_utorrent_classic(peer_pattern: &str, user_agent: &str) -> (c: Client)
    ensures
        c@ == utorrent_classic_client(peer_pattern@, user_agent@),
{
    let mut c = Client::default();
    c.key_refresh_on = TIMED_OR_AFTER_STARTED_ANNOUNCE;
    c.key_refresh_every = 10;
    c.key_uppercase = Some(true);
    c.should_url_encode = true;
    c.query = "info_hash={infohash}&peer_id={peerid}&port={port}&uploaded={uploaded}&downloaded={downloaded}&left={left}&corrupt=0&key={key}&event={event}&numwant={numwant}&compact=1&no_peer_id=1&ipv6={ipv6}".to_owned();
    c.accept_encoding = "gzip;q=1.0, deflate, identity".to_owned();
    c.accept_language = "{locale}".to_owned();
    c.num_want_on_stop = 200;
    c.peer_pattern = peer_pattern.to_owned();
    c.user_agent = user_agent.to_owned();
    c
}

/// The uTorrent 3.2 versions that can be impersonated.
pub open spec fn utorrent_classic_profile(name: Seq<char>) -> Option<ClientView> {
    if name == "utorrent-3.2.2_28500"@ {
        Some(utorrent_classic_client("-UT3220-To[\u{0001}-\u{00ff}]{10}"@, "uTorrent/3220(28500)"@))
    } else {
        None
    }
}

fn find_utorrent_classic(name: &str) -> (r: Option<Client>)
    ensures
        client_option_view(r) == utorrent_classic_profile(name@),
{
    if same_text(name, "utorrent-3.2.2_28500") {
        Some(new_utorrent_classic("-UT3220-To[\u{0001}-\u{00ff}]{10}", "uTorrent/3220(28500)"))
    } else {
        None
    }
}

/// The uTorrent 3.5 profile with the given `peer_pattern`, `user_agent`.
pub open spec fn utorrent_client(peer_pattern: Seq<char>, user_agent: Seq<char>) -> ClientView {
    ClientView {
        key_refresh_on: TIMED_OR_AFTER_STARTED_ANNOUNCE,
        key_refresh_every: 10,
        key_uppercase: Some(true),
        should_url_encode: true,
        query: "info_hash={infohash}&peer_id={peerid}&port={port}&uploaded={uploaded}&downloaded={downloaded}&left={left}&corrupt=0&key={key}&event={event}&numwant={numwant}&compact=1&no_peer_id=1"@,
        peer_pattern,
        user_agent,
        ..default_client()
    }
}

fn new_utorrent(peer_pattern: &str, user_agent: &str) -> (c: Client)
    ensures
        c@ == utorrent_client(peer_pattern@, user_agent@),
{
    let mut c = Client::default();
    c.key_refresh_on = TIMED_OR_AFTER_STARTED_ANNOUNCE;
    c.key_refresh_every = 10;
    c.key_uppercase = Some(true);
    c.should_url_encode = true;
    c.query = "info_hash={infohash}&peer_id={peerid}&port={port}&uploaded={uploaded}&downloaded={downloaded}&left={left}&corrupt=0&key={key}&event={event}&numwant={numwant}&compact=1&no_peer_id=1".to_owned();
    c.peer_pattern = peer_pattern.to_owned();
    c.user_agent = user_agent.to_owned();
    c
}

/// The uTorrent 3.5 versions that can be impersonated.
pub open spec fn utorrent_profile(name: Seq<char>) -> Option<ClientView> {
    if name == "utorrent-3.5.0_43916"@ {
        Some(utorrent_client("-UT3500-(\u{008c}\u{00ab})[\u{0001}-\u{00ff}]{10}"@, "uTorrent/350(111258508)(43916)"@))
    } else if name == "utorrent-3.5.0_44090"@ {
        Some(utorrent_client("-UT3500-(\u{003a}\u{00ac})[\u{0001}-\u{00ff}]{10}"@, "uTorrent/350(111258682)(44090)"@))
    } else if name == "utorrent-3.5.0_44294"@ {
        Some(utorrent_client("-UT3500-(\u{0006}\u{00ad})[\u{0001}-\u{00ff}]{10}"@, "uTorrent/350(111258886)(44294)"@))
    } else if name == "utorrent-3.5.1_44332"@ {
        Some(utorrent_client("-UT3515-(\u{002c}\u{00ad})[\u{0001}-\u{00ff}]{10}"@, "uTorrent/351(111389996)(44332)"@))
    } else if name == "utorrent-3.5.3_44358"@ {
        Some(utorrent_client("-UT353S-F(\u{002c}\u{00ad})[\u{0001}-\u{00ff}]{10}"@, "uTorrent/353(111652166)(44358)"@))
    } else if name == "utorrent-3.5.3_44428"@ {
        Some(utorrent_client("-UT353S-(\u{008c}\u{00ad})[\u{0001}-\u{00ff}]{10}"@, "uTorrent/353(111652236)(44428)"@))
    } else if name == "utorrent-3.5.4_44498"@ {
        Some(utorrent_client("-UT354S-(\u{00d2}\u{00ad})[\u{0001}-\u{00ff}]{10}"@, "uTorrent/353(111783378)(44498)"@))
    } else {
        None
    }
}

fn find_utorrent(name: &str) -> (r: Option<Client>)
    ensures
        client_option_view(r) == utorrent_profile(name@),
{
    if same_text(name, "utorrent-3.5.0_43916") {
        Some(new_utorrent("-UT3500-(\u{008c}\u{00ab})[\u{0001}-\u{00ff}]{10}", "uTorrent/350(111258508)(43916)"))
    } else if same_text(name, "utorrent-3.5.0_44090") {
        Some(new_utorrent("-UT3500-(\u{003a}\u{00ac})[\u{0001}-\u{00ff}]{10}", "uTorrent/350(111258682)(44090)"))
    } else if same_text(name, "utorrent-3.5.0_44294") {
        Some(new_utorrent("-UT3500-(\u{0006}\u{00ad})[\u{0001}-\u{00ff}]{10}", "uTorrent/350(111258886)(44294)"))
    } else if same_text(name, "utorrent-3.5.1_44332") {
        Some(new_utorrent("-UT3515-(\u{002c}\u{00ad})[\u{0001}-\u{00ff}]{10}", "uTorrent/351(111389996)(44332)"))
    } else if same_text(name, "utorrent-3.5.3_44358") {
        Some(new_utorrent("-UT353S-F(\u{002c}\u{00ad})[\u{0001}-\u{00ff}]{10}", "uTorrent/353(111652166)(44358)"))
    } else if same_text(name, "utorrent-3.5.3_44428") {
        Some(new_utorrent("-UT353S-(\u{008c}\u{00ad})[\u{0001}-\u{00ff}]{10}", "uTorrent/353(111652236)(44428)"))
    } else if same_text(name, "utorrent-3.5.4_44498") {
        Some(new_utorrent("-UT354S-(\u{00d2}\u{00ad})[\u{0001}-\u{00ff}]{10}", "uTorrent/353(111783378)(44498)"))
    } else {
        None
    }
}

/// The Vuze profile with the given `peer_pattern`, `user_agent`.
pub open spec fn vuze_client(peer_pattern: Seq<char>, user_agent: Seq<char>) -> ClientView {
    ClientView {
        key_algorithm: REGEX,
        key_refresh_on: TORRENT_VOLATILE,
        key_uppercase: None,
        peer_refresh_on: TORRENT_VOLATILE,
        encoding_exclusion_pattern: "[A-Za-z0-9_~\\\\(\\\\)\\\\!\\\\.\\\\*-]"@,
        uppercase_encoded_hex: true,
        query: "info_hash={infohash}&peer_id={peerid}&port={port}&azudp={port}&uploaded={uploaded}&downloaded={downloaded}&left={left}&corrupt=0&event={event}&numwant={numwant}&no_peer_id=1&compact=1&key={key}&azver=3"@,
        accept: "text/html, image/gif, image/jpeg, *; q=.2, */*; q=.2"@,
        connection: Some("close"@),
        num_want: 100,
        peer_pattern,
        user_agent,
        ..default_client()
    }
}

fn new_vuze(peer_pattern: &str, user_agent: &str) -> (c: Client)
    ensures
        c@ == vuze_client(peer_pattern@, user_agent@),
{
    let mut c = Client::default();
    c.key_algorithm = REGEX;
    c.key_refresh_on = TORRENT_VOLATILE;
    c.key_uppercase = None;
    c.peer_refresh_on = TORRENT_VOLATILE;
    c.encoding_exclusion_pattern = "[A-Za-z0-9_~\\\\(\\\\)\\\\!\\\\.\\\\*-]".to_owned();
    c.uppercase_encoded_hex = true;
    c.query = "info_hash={infohash}&peer_id={peerid}&port={port}&azudp={port}&uploaded={uploaded}&downloaded={downloaded}&left={left}&corrupt=0&event={event}&numwant={numwant}&no_peer_id=1&compact=1&key={key}&azver=3".to_owned();
    c.accept = "text/html, image/gif, image/jpeg, *; q=.2, */*; q=.2".to_owned();
    c.connection = Some("close".to_owned());
    c.num_want = 100;
    c.peer_pattern = peer_pattern.to_owned();
    c.user_agent = user_agent.to_owned();
    c
}

/// The Vuze versions that can be impersonated.
pub open spec fn vuze_profile(name: Seq<char>) -> Option<ClientView> {
    if name == "vuze-5.7.5.0"@ {
        Some(vuze_client("-AZ5750-[a-zA-Z0-9]{12}"@, "Azureus 5.7.5.0;{os};Java {java}"@))
    } else {
        None
    }
}

fn find_vuze(name: &str) -> (r: Option<Client>)
    ensures
        client_option_view(r) == vuze_profile(name@),
{
    if same_text(name, "vuze-5.7.5.0") {
        Some(new_vuze("-AZ5750-[a-zA-Z0-9]{12}", "Azureus 5.7.5.0;{os};Java {java}"))
    } else {
        None
    }
}

/// The profile of the client called `name`, among all supported ones.
pub open spec fn client_profile(name: Seq<char>) -> Option<ClientView> {
    if bittorrent_profile(name) is Some {
        bittorrent_profile(name)
    } else if deluge_profile(name) is Some {
        deluge_profile(name)
    } else if leap_profile(name) is Some {
        leap_profile(name)
    } else if qbittorrent_profile(name) is Some {
        qbittorrent_profile(name)
    } else if rtorrent_profile(name) is Some {
        rtorrent_profile(name)
    } else if transmission_profile(name) is Some {
        transmission_profile(name)
    } else if utorrent_classic_profile(name) is Some {
        utorrent_classic_profile(name)
    } else if utorrent_profile(name) is Some {
        utorrent_profile(name)
    } else {
        vuze_profile(name)
    }
}

/// The default profile, field by field.
pub proof fn law_default_client()
    ensures
        default_client() == (ClientView {
            key_algorithm: 11,
            key_pattern: ""@,
            prefix: ""@,
            key_refresh_on: 1,
            key_refresh_every: 0,
            key_uppercase: None,
            peer_algorithm: 11,
            peer_pattern: ""@,
            peer_refresh_on: 0,
            peer_prefix: ""@,
            encoding_exclusion_pattern: "[A-Za-z0-9-]"@,
            uppercase_encoded_hex: false,
            should_url_encode: false,
            query: "info_hash={infohash}&peer_id={peerid}&port={port}&uploaded={uploaded}&downloaded={downloaded}&left={left}&corrupt=0&key={key}&event={event}&numwant={numwant}&compact=1&no_peer_id=1"@,
            user_agent: ""@,
            accept: ""@,
            accept_encoding: "gzip"@,
            accept_language: ""@,
            connection: Some("Close"@),
            num_want: 200,
            num_want_on_stop: 0,
            infohash: ""@,
            peer_id: ""@,
        }),
{
}

/// The refresh policies and generators have the numbers that profiles store.
pub proof fn law_constants()
    ensures
        NEVER == 0 && TIMED_OR_AFTER_STARTED_ANNOUNCE == 1 && TORRENT_VOLATILE == 2 && TORRENT_PERSISTENT == 3,
        REGEX == 10 && HASH == 11 && HASH_NO_LEADING_ZERO == 12,
        DIGIT_RANGE_TRANSFORMED_TO_HEX_WITHOUT_LEADING_ZEROES == 13 && RANDOM_POOL_WITH_CHECKSUM == 14,
        PEER_ID_LENGTH == 20,
{
}


/// Every supported client, with the values in which it differs from the default
/// profile, in the order in which names are looked up; no other name has a profile.
pub proof fn law_client_table(name: Seq<char>)
    ensures
        client_profile(name) == ({
            if name == "bittorrent-7.10.1_43917"@ {
                Some(ClientView {
                    peer_pattern: "-BT71000(\u{008d}\u{00ab})[\u{0001}-\u{00ff}]{10}"@,
                    should_url_encode: true,
                    user_agent: "BitTorrent/7100(255961997)(43917)"@,
                    ..default_client()
                })
            } else if name == "bittorrent-7.10.3_44359"@ {
                Some(ClientView {
                    peer_pattern: "-BT7a3S-G(\u{00ad})[\u{0001}-\u{00ff}]{10}"@,
                    should_url_encode: true,
                    user_agent: "BitTorrent/7103(256355655)(44359)"@,
                    ..default_client()
                })
            } else if name == "bittorrent-7.10.3_44429"@ {
                Some(ClientView {
                    peer_pattern: "-BT7a3S-(\u{008d})(\u{00ad})[\u{0001}-\u{00ff}]{10}"@,
                    should_url_encode: true,
                    user_agent: "BitTorrent/7103(256355725)(44429)"@,
                    ..default_client()
                })
            } else if name == "deluge-1.3.13"@ {
                Some(ClientView {
                    key_algorithm: 12,
                    key_refresh_on: 3,
                    key_uppercase: Some(true),
                    peer_pattern: "-DE13D0-[A-Za-z0-9_~\\(\\)\\!\\.\\*-]{12}"@,
                    encoding_exclusion_pattern: "[A-Za-z0-9_~\\\\(\\\\)\\\\!\\\\.\\\\*-]"@,
                    query: "info_hash={infohash}&peer_id={peerid}&port={port}&uploaded={uploaded}&downloaded={downloaded}&left={left}&corrupt=0&key={key}&event={event}&numwant={numwant}&compact=1&no_peer_id=1&supportcrypto=1&redundant=0"@,
                    user_agent: "Deluge 1.3.13"@,
                    ..default_client()
                })
            } else if name == "deluge-1.3.14"@ {
                Some(ClientView {
                    key_algorithm: 12,
                    key_refresh_on: 3,
                    key_uppercase: Some(true),
                    peer_pattern: "-DE13E0-[A-Za-z0-9_~\\(\\)\\!\\.\\*-]{12}"@,
                    encoding_exclusion_pattern: "[A-Za-z0-9_~\\\\(\\\\)\\\\!\\\\.\\\\*-]"@,
                    query: "info_hash={infohash}&peer_id={peerid}&port={port}&uploaded={uploaded}&downloaded={downloaded}&left={left}&corrupt=0&key={key}&event={event}&numwant={numwant}&compact=1&no_peer_id=1&supportcrypto=1&redundant=0"@,
                    user_agent: "Deluge 1.3.14"@,
                    ..default_client()
                })
            } else if name == "deluge-1.3.15"@ {
                Some(ClientView {
                    key_algorithm: 12,
                    key_refresh_on: 3,
                    key_uppercase: Some(true),
                    peer_pattern: "-DE13F0-[A-Za-z0-9_~\\(\\)\\!\\.\\*-]{12}"@,
                    encoding_exclusion_pattern: "[A-Za-z0-9_~\\\\(\\\\)\\\\!\\\\.\\\\*-]"@,
                    query: "info_hash={infohash}&peer_id={peerid}&port={port}&uploaded={uploaded}&downloaded={downloaded}&left={left}&corrupt=0&key={key}&event={event}&numwant={numwant}&compact=1&no_peer_id=1&supportcrypto=1&redundant=0"@,
                    user_agent: "Deluge 1.3.15"@,
                    ..default_client()
                })
            } else if name == "leap-2.6.0.1"@ {
                Some(ClientView {
                    key_refresh_on: 3,
                    key_uppercase: Some(true),
                    peer_pattern: "-LT1100-[A-Za-z0-9_~\\(\\)\\!\\.\\*-]{12}"@,
                    encoding_exclusion_pattern: "[A-Za-z0-9_~\\\\(\\\\)\\\\!\\\\.\\\\*-]"@,
                    query: "info_hash={infohash}&peer_id={peerid}&port={port}&uploaded={uploaded}&downloaded={downloaded}&left={left}&corrupt=0&key={key}&event={event}&numwant={numwant}&compact=1&no_peer_id=1&supportcrypto=1&redundant=0"@,
                    user_agent: "libtorrent_leap/1.1.1.0"@,
                    connection: Some("close"@),
                    ..default_client()
                })
            } else if name == "qBittorrent-3.3.1"@ {
                Some(ClientView {
                    key_algorithm: 12,
                    key_refresh_on: 3,
                    key_uppercase: Some(true),
                    peer_pattern: "-qB3310-[A-Za-z0-9_~\\(\\)\\!\\.\\*-]{12}"@,
                    encoding_exclusion_pattern: "[A-Za-z0-9_~\\\\(\\\\)\\\\!\\\\.\\\\*-]"@,
                    query: "info_hash={infohash}&peer_id={peerid}&port={port}&uploaded={uploaded}&downloaded={downloaded}&left={left}&corrupt=0&key={key}&event={event}&numwant={numwant}&compact=1&no_peer_id=1&supportcrypto=1&redundant=0"@,
                    user_agent: "qBittorrent v3.3.1"@,
                    connection: Some("close"@),
                    ..default_client()
                })
            } else if name == "qBittorrent-3.3.7"@ {
                Some(ClientView {
                    key_algorithm: 12,
                    key_refresh_on: 3,
                    key_uppercase: Some(true),
                    peer_pattern: "-qB3310-[A-Za-z0-9_~\\(\\)\\!\\.\\*-]{12}"@,
                    encoding_exclusion_pattern: "[A-Za-z0-9_~\\\\(\\\\)\\\\!\\\\.\\\\*-]"@,
                    query: "info_hash={infohash}&peer_id={peerid}&port={port}&uploaded={uploaded}&downloaded={downloaded}&left={left}&corrupt=0&key={key}&event={event}&numwant={numwant}&compact=1&no_peer_id=1&supportcrypto=1&redundant=0"@,
                    user_agent: "qBittorrent v3.3.7"@,
                    connection: Some("close"@),
                    ..default_client()
                })
            } else if name == "qBittorrent-3.3.13"@ {
                Some(ClientView {
                    key_algorithm: 12,
                    key_refresh_on: 3,
                    key_uppercase: Some(true),
                    peer_pattern: "-qB33D0-[A-Za-z0-9_~\\(\\)\\!\\.\\*-]{12}"@,
                    encoding_exclusion_pattern: "[A-Za-z0-9_~\\\\(\\\\)\\\\!\\\\.\\\\*-]"@,
                    query: "info_hash={infohash}&peer_id={peerid}&port={port}&uploaded={uploaded}&downloaded={downloaded}&left={left}&corrupt=0&key={key}&event={event}&numwant={numwant}&compact=1&no_peer_id=1&supportcrypto=1&redundant=0"@,
                    user_agent: "qBittorrent/3.3.13"@,
                    connection: Some("close"@),
                    ..default_client()
                })
            } else if name == "qBittorrent-3.3.14"@ {
                Some(ClientView {
                    key_algorithm: 12,
                    key_refresh_on: 3,
                    key_uppercase: Some(true),
                    peer_pattern: "-qB33E0-[A-Za-z0-9_~\\(\\)\\!\\.\\*-]{12}"@,
                    encoding_exclusion_pattern: "[A-Za-z0-9_~\\\\(\\\\)\\\\!\\\\.\\\\*-]"@,
                    query: "info_hash={infohash}&peer_id={peerid}&port={port}&uploaded={uploaded}&downloaded={downloaded}&left={left}&corrupt=0&key={key}&event={event}&numwant={numwant}&compact=1&no_peer_id=1&supportcrypto=1&redundant=0"@,
                    user_agent: "qBittorrent/3.3.14"@,
                    connection: Some("close"@),
                    ..default_client()
                })
            } else if name == "qBittorrent-3.3.15"@ {
                Some(ClientView {
                    key_algorithm: 12,
                    key_refresh_on: 3,
                    key_uppercase: Some(true),
                    peer_pattern: "-qB33F0-[A-Za-z0-9_~\\(\\)\\!\\.\\*-]{12}"@,
                    encoding_exclusion_pattern: "[A-Za-z0-9_~\\\\(\\\\)\\\\!\\\\.\\\\*-]"@,
                    query: "info_hash={infohash}&peer_id={peerid}&port={port}&uploaded={uploaded}&downloaded={downloaded}&left={left}&corrupt=0&key={key}&event={event}&numwant={numwant}&compact=1&no_peer_id=1&supportcrypto=1&redundant=0"@,
                    user_agent: "qBittorrent/3.3.15"@,
                    connection: Some("close"@),
                    ..default_client()
                })
            } else if name == "qBittorrent-3.3.16"@ {
                Some(ClientView {
                    key_algorithm: 12,
                    key_refresh_on: 3,
                    key_uppercase: Some(true),
                    peer_pattern: "-qB33G0-[A-Za-z0-9_~\\(\\)\\!\\.\\*-]{12}"@,
                    encoding_exclusion_pattern: "[A-Za-z0-9_~\\\\(\\\\)\\\\!\\\\.\\\\*-]"@,
                    query: "info_hash={infohash}&peer_id={peerid}&port={port}&uploaded={uploaded}&downloaded={downloaded}&left={left}&corrupt=0&key={key}&event={event}&numwant={numwant}&compact=1&no_peer_id=1&supportcrypto=1&redundant=0"@,
                    user_agent: "qBittorrent/3.3.16"@,
                    connection: Some("close"@),
                    ..default_client()
                })
            } else if name == "qBittorrent-4.0.0"@ {
                Some(ClientView {
                    key_algorithm: 12,
                    key_refresh_on: 3,
                    key_uppercase: Some(true),
                    peer_pattern: "-qB4000-[A-Za-z0-9_~\\(\\)\\!\\.\\*-]{12}"@,
                    encoding_exclusion_pattern: "[A-Za-z0-9_~\\\\(\\\\)\\\\!\\\\.\\\\*-]"@,
                    query: "info_hash={infohash}&peer_id={peerid}&port={port}&uploaded={uploaded}&downloaded={downloaded}&left={left}&corrupt=0&key={key}&event={event}&numwant={numwant}&compact=1&no_peer_id=1&supportcrypto=1&redundant=0"@,
                    user_agent: "qBittorrent /4.0.0"@,
                    connection: Some("close"@),
                    ..default_client()
                })
            } else if name == "qBittorrent-4.0.1"@ {
                Some(ClientView {
                    key_algorithm: 12,
                    key_refresh_on: 3,
                    key_uppercase: Some(true),
                    peer_pattern: "-qB4010-[A-Za-z0-9_~\\(\\)\\!\\.\\*-]{12}"@,
                    encoding_exclusion_pattern: "[A-Za-z0-9_~\\\\(\\\\)\\\\!\\\\.\\\\*-]"@,
                    query: "info_hash={infohash}&peer_id={peerid}&port={port}&uploaded={uploaded}&downloaded={downloaded}&left={left}&corrupt=0&key={key}&event={event}&numwant={numwant}&compact=1&no_peer_id=1&supportcrypto=1&redundant=0"@,
                    user_agent: "qBittorrent /4.0.1"@,
                    connection: Some("close"@),
                    ..default_client()
                })
            } else if name == "qBittorrent-4.0.2"@ {
                Some(ClientView {
                    key_algorithm: 12,
                    key_refresh_on: 3,
                    key_uppercase: Some(true),
                    peer_pattern: "-qB4020-[A-Za-z0-9_~\\(\\)\\!\\.\\*-]{12}"@,
                    encoding_exclusion_pattern: "[A-Za-z0-9_~\\\\(\\\\)\\\\!\\\\.\\\\*-]"@,
                    query: "info_hash={infohash}&peer_id={peerid}&port={port}&uploaded={uploaded}&downloaded={downloaded}&left={left}&corrupt=0&key={key}&event={event}&numwant={numwant}&compact=1&no_peer_id=1&supportcrypto=1&redundant=0"@,
                    user_agent: "qBittorrent /4.0.2"@,
                    connection: Some("close"@),
                    ..default_client()
                })
            } else if name == "qBittorrent-4.0.3"@ {
                Some(ClientView {
                    key_algorithm: 12,
                    key_refresh_on: 3,
                    key_uppercase: Some(true),
                    peer_pattern: "-qB4030-[A-Za-z0-9_~\\(\\)\\!\\.\\*-]{12}"@,
                    encoding_exclusion_pattern: "[A-Za-z0-9_~\\\\(\\\\)\\\\!\\\\.\\\\*-]"@,
                    query: "info_hash={infohash}&peer_id={peerid}&port={port}&uploaded={uploaded}&downloaded={downloaded}&left={left}&corrupt=0&key={key}&event={event}&numwant={numwant}&compact=1&no_peer_id=1&supportcrypto=1&redundant=0"@,
                    user_agent: "qBittorrent /4.0.3"@,
                    connection: Some("close"@),
                    ..default_client()
                })
            } else if name == "qBittorrent-4.0.4"@ {
                Some(ClientView {
                    key_algorithm: 12,
                    key_refresh_on: 3,
                    key_uppercase: Some(true),
                    peer_pattern: "-qB4040-[A-Za-z0-9_~\\(\\)\\!\\.\\*-]{12}"@,
                    encoding_exclusion_pattern: "[A-Za-z0-9_~\\\\(\\\\)\\\\!\\\\.\\\\*-]"@,
                    query: "info_hash={infohash}&peer_id={peerid}&port={port}&uploaded={uploaded}&downloaded={downloaded}&left={left}&corrupt=0&key={key}&event={event}&numwant={numwant}&compact=1&no_peer_id=1&supportcrypto=1&redundant=0"@,
                    user_agent: "qBittorrent /4.0.4"@,
                    connection: Some("close"@),
                    ..default_client()
                })
            } else if name == "qBittorrent-4.1.0"@ {
                Some(ClientView {
                    key_algorithm: 12,
                    key_refresh_on: 3,
                    key_uppercase: Some(true),
                    peer_pattern: "-qB4100-[A-Za-z0-9_~\\(\\)\\!\\.\\*-]{12}"@,
                    encoding_exclusion_pattern: "[A-Za-z0-9_~\\\\(\\\\)\\\\!\\\\.\\\\*-]"@,
                    query: "info_hash={infohash}&peer_id={peerid}&port={port}&uploaded={uploaded}&downloaded={downloaded}&left={left}&corrupt=0&key={key}&event={event}&numwant={numwant}&compact=1&no_peer_id=1&supportcrypto=1&redundant=0"@,
                    user_agent: "qBittorrent /4.1.0"@,
                    connection: Some("close"@),
                    ..default_client()
                })
            } else if name == "qBittorrent-4.1.1"@ {
                Some(ClientView {
                    key_algorithm: 12,
                    key_refresh_on: 3,
                    key_uppercase: Some(true),
                    peer_pattern: "-qB4110-[A-Za-z0-9_~\\(\\)\\!\\.\\*-]{12}"@,
                    encoding_exclusion_pattern: "[A-Za-z0-9_~\\\\(\\\\)\\\\!\\\\.\\\\*-]"@,
                    query: "info_hash={infohash}&peer_id={peerid}&port={port}&uploaded={uploaded}&downloaded={downloaded}&left={left}&corrupt=0&key={key}&event={event}&numwant={numwant}&compact=1&no_peer_id=1&supportcrypto=1&redundant=0"@,
                    user_agent: "qBittorrent /4.1.1"@,
                    connection: Some("close"@),
                    ..default_client()
                })
            } else if name == "qBittorrent-4.1.2"@ {
                Some(ClientView {
                    key_algorithm: 12,
                    key_refresh_on: 3,
                    key_uppercase: Some(true),
                    peer_pattern: "-qB4120-[A-Za-z0-9_~\\(\\)\\!\\.\\*-]{12}"@,
                    encoding_exclusion_pattern: "[A-Za-z0-9_~\\\\(\\\\)\\\\!\\\\.\\\\*-]"@,
                    query: "info_hash={infohash}&peer_id={peerid}&port={port}&uploaded={uploaded}&downloaded={downloaded}&left={left}&corrupt=0&key={key}&event={event}&numwant={numwant}&compact=1&no_peer_id=1&supportcrypto=1&redundant=0"@,
                    user_agent: "qBittorrent /4.1.2"@,
                    connection: Some("close"@),
                    ..default_client()
                })
            } else if name == "qBittorrent-4.1.3"@ {
                Some(ClientView {
                    key_algorithm: 12,
                    key_refresh_on: 3,
                    key_uppercase: Some(true),
                    peer_pattern: "-qB4130-[A-Za-z0-9_~\\(\\)\\!\\.\\*-]{12}"@,
                    encoding_exclusion_pattern: "[A-Za-z0-9_~\\\\(\\\\)\\\\!\\\\.\\\\*-]"@,
                    query: "info_hash={infohash}&peer_id={peerid}&port={port}&uploaded={uploaded}&downloaded={downloaded}&left={left}&corrupt=0&key={key}&event={event}&numwant={numwant}&compact=1&no_peer_id=1&supportcrypto=1&redundant=0"@,
                    user_agent: "qBittorrent /4.1.3"@,
                    connection: Some("close"@),
                    ..default_client()
                })
            } else if name == "qBittorrent-4.1.4"@ {
                Some(ClientView {
                    key_algorithm: 12,
                    key_refresh_on: 3,
                    key_uppercase: Some(true),
                    peer_pattern: "-qB4140-[A-Za-z0-9_~\\(\\)\\!\\.\\*-]{12}"@,
                    encoding_exclusion_pattern: "[A-Za-z0-9_~\\\\(\\\\)\\\\!\\\\.\\\\*-]"@,
                    query: "info_hash={infohash}&peer_id={peerid}&port={port}&uploaded={uploaded}&downloaded={downloaded}&left={left}&corrupt=0&key={key}&event={event}&numwant={numwant}&compact=1&no_peer_id=1&supportcrypto=1&redundant=0"@,
                    user_agent: "qBittorrent /4.1.4"@,
                    connection: Some("close"@),
                    ..default_client()
                })
            } else if name == "qBittorrent-4.1.5"@ {
                Some(ClientView {
                    key_algorithm: 12,
                    key_refresh_on: 3,
                    key_uppercase: Some(true),
                    peer_pattern: "-qB4150-[A-Za-z0-9_~\\(\\)\\!\\.\\*-]{12}"@,
                    encoding_exclusion_pattern: "[A-Za-z0-9_~\\\\(\\\\)\\\\!\\\\.\\\\*-]"@,
                    query: "info_hash={infohash}&peer_id={peerid}&port={port}&uploaded={uploaded}&downloaded={downloaded}&left={left}&corrupt=0&key={key}&event={event}&numwant={numwant}&compact=1&no_peer_id=1&supportcrypto=1&redundant=0"@,
                    user_agent: "qBittorrent /4.1.5"@,
                    connection: Some("close"@),
                    ..default_client()
                })
            } else if name == "qBittorrent-4.1.6"@ {
                Some(ClientView {
                    key_algorithm: 12,
                    key_refresh_on: 3,
                    key_uppercase: Some(true),
                    peer_pattern: "-qB4160-[A-Za-z0-9_~\\(\\)\\!\\.\\*-]{12}"@,
                    encoding_exclusion_pattern: "[A-Za-z0-9_~\\\\(\\\\)\\\\!\\\\.\\\\*-]"@,
                    query: "info_hash={infohash}&peer_id={peerid}&port={port}&uploaded={uploaded}&downloaded={downloaded}&left={left}&corrupt=0&key={key}&event={event}&numwant={numwant}&compact=1&no_peer_id=1&supportcrypto=1&redundant=0"@,
                    user_agent: "qBittorrent /4.1.6"@,
                    connection: Some("close"@),
                    ..default_client()
                })
            } else if name == "qBittorrent-4.1.7"@ {
                Some(ClientView {
                    key_algorithm: 12,
                    key_refresh_on: 3,
                    key_uppercase: Some(true),
                    peer_pattern: "-qB4170-[A-Za-z0-9_~\\(\\)\\!\\.\\*-]{12}"@,
                    encoding_exclusion_pattern: "[A-Za-z0-9_~\\\\(\\\\)\\\\!\\\\.\\\\*-]"@,
                    query: "info_hash={infohash}&peer_id={peerid}&port={port}&uploaded={uploaded}&downloaded={downloaded}&left={left}&corrupt=0&key={key}&event={event}&numwant={numwant}&compact=1&no_peer_id=1&supportcrypto=1&redundant=0"@,
                    user_agent: "qBittorrent /4.1.7"@,
                    connection: Some("close"@),
                    ..default_client()
                })
            } else if name == "qBittorrent-4.1.8"@ {
                Some(ClientView {
                    key_algorithm: 12,
                    key_refresh_on: 3,
                    key_uppercase: Some(true),
                    peer_pattern: "-qB4180-[A-Za-z0-9_~\\(\\)\\!\\.\\*-]{12}"@,
                    encoding_exclusion_pattern: "[A-Za-z0-9_~\\\\(\\\\)\\\\!\\\\.\\\\*-]"@,
                    query: "info_hash={infohash}&peer_id={peerid}&port={port}&uploaded={uploaded}&downloaded={downloaded}&left={left}&corrupt=0&key={key}&event={event}&numwant={numwant}&compact=1&no_peer_id=1&supportcrypto=1&redundant=0"@,
                    user_agent: "qBittorrent /4.1.8"@,
                    connection: Some("close"@),
                    ..default_client()
                })
            } else if name == "qBittorrent-4.1.9"@ {
                Some(ClientView {
                    key_algorithm: 12,
                    key_refresh_on: 3,
                    key_uppercase: Some(true),
                    peer_pattern: "-qB4190-[A-Za-z0-9_~\\(\\)\\!\\.\\*-]{12}"@,
                    encoding_exclusion_pattern: "[A-Za-z0-9_~\\\\(\\\\)\\\\!\\\\.\\\\*-]"@,
                    query: "info_hash={infohash}&peer_id={peerid}&port={port}&uploaded={uploaded}&downloaded={downloaded}&left={left}&corrupt=0&key={key}&event={event}&numwant={numwant}&compact=1&no_peer_id=1&supportcrypto=1&redundant=0"@,
                    user_agent: "qBittorrent /4.1.9"@,
                    connection: Some("close"@),
                    ..default_client()
                })
            } else if name == "qBittorrent-4.2.0"@ {
                Some(ClientView {
                    key_algorithm: 12,
                    key_refresh_on: 3,
                    key_uppercase: Some(true),
                    peer_pattern: "-qB4200-[A-Za-z0-9_~\\(\\)\\!\\.\\*-]{12}"@,
                    encoding_exclusion_pattern: "[A-Za-z0-9_~\\\\(\\\\)\\\\!\\\\.\\\\*-]"@,
                    query: "info_hash={infohash}&peer_id={peerid}&port={port}&uploaded={uploaded}&downloaded={downloaded}&left={left}&corrupt=0&key={key}&event={event}&numwant={numwant}&compact=1&no_peer_id=1&supportcrypto=1&redundant=0"@,
                    user_agent: "qBittorrent/4.2.0"@,
                    connection: Some("close"@),
                    ..default_client()
                })
            } else if name == "qBittorrent-4.2.1"@ {
                Some(ClientView {
                    key_algorithm: 12,
                    key_refresh_on: 3,
                    key_uppercase: Some(true),
                    peer_pattern: "-qB4210-[A-Za-z0-9_~\\(\\)\\!\\.\\*-]{12}"@,
                    encoding_exclusion_pattern: "[A-Za-z0-9_~\\\\(\\\\)\\\\!\\\\.\\\\*-]"@,
                    query: "info_hash={infohash}&peer_id={peerid}&port={port}&uploaded={uploaded}&downloaded={downloaded}&left={left}&corrupt=0&key={key}&event={event}&numwant={numwant}&compact=1&no_peer_id=1&supportcrypto=1&redundant=0"@,
                    user_agent: "qBittorrent/4.2.1"@,
                    connection: Some("close"@),
                    ..default_client()
                })
            } else if name == "qBittorrent-4.2.2"@ {
                Some(ClientView {
                    key_algorithm: 12,
                    key_refresh_on: 3,
                    key_uppercase: Some(true),
                    peer_pattern: "-qB4220-[A-Za-z0-9_~\\(\\)\\!\\.\\*-]{12}"@,
                    encoding_exclusion_pattern: "[A-Za-z0-9_~\\\\(\\\\)\\\\!\\\\.\\\\*-]"@,
                    query: "info_hash={infohash}&peer_id={peerid}&port={port}&uploaded={uploaded}&downloaded={downloaded}&left={left}&corrupt=0&key={key}&event={event}&numwant={numwant}&compact=1&no_peer_id=1&supportcrypto=1&redundant=0"@,
                    user_agent: "qBittorrent/4.2.2"@,
                    connection: Some("close"@),
                    ..default_client()
                })
            } else if name == "qBittorrent-4.2.3"@ {
                Some(ClientView {
                    key_algorithm: 12,
                    key_refresh_on: 3,
                    key_uppercase: Some(true),
                    peer_pattern: "-qB4230-[A-Za-z0-9_~\\(\\)\\!\\.\\*-]{12}"@,
                    encoding_exclusion_pattern: "[A-Za-z0-9_~\\\\(\\\\)\\\\!\\\\.\\\\*-]"@,
                    query: "info_hash={infohash}&peer_id={peerid}&port={port}&uploaded={uploaded}&downloaded={downloaded}&left={left}&corrupt=0&key={key}&event={event}&numwant={numwant}&compact=1&no_peer_id=1&supportcrypto=1&redundant=0"@,
                    user_agent: "qBittorrent/4.2.3"@,
                    connection: Some("close"@),
                    ..default_client()
                })
            } else if name == "qBittorrent-4.2.4"@ {
                Some(ClientView {
                    key_algorithm: 12,
                    key_refresh_on: 3,
                    key_uppercase: Some(true),
                    peer_pattern: "-qB4240-[A-Za-z0-9_~\\(\\)\\!\\.\\*-]{12}"@,
                    encoding_exclusion_pattern: "[A-Za-z0-9_~\\\\(\\\\)\\\\!\\\\.\\\\*-]"@,
                    query: "info_hash={infohash}&peer_id={peerid}&port={port}&uploaded={uploaded}&downloaded={downloaded}&left={left}&corrupt=0&key={key}&event={event}&numwant={numwant}&compact=1&no_peer_id=1&supportcrypto=1&redundant=0"@,
                    user_agent: "qBittorrent/4.2.4"@,
                    connection: Some("close"@),
                    ..default_client()
                })
            } else if name == "qBittorrent-4.2.5"@ {
                Some(ClientView {
                    key_algorithm: 12,
                    key_refresh_on: 3,
                    key_uppercase: Some(true),
                    peer_pattern: "-qB4250-[A-Za-z0-9_~\\(\\)\\!\\.\\*-]{12}"@,
                    encoding_exclusion_pattern: "[A-Za-z0-9_~\\\\(\\\\)\\\\!\\\\.\\\\*-]"@,
                    query: "info_hash={infohash}&peer_id={peerid}&port={port}&uploaded={uploaded}&downloaded={downloaded}&left={left}&corrupt=0&key={key}&event={event}&numwant={numwant}&compact=1&no_peer_id=1&supportcrypto=1&redundant=0"@,
                    user_agent: "qBittorrent/4.2.5"@,
                    connection: Some("close"@),
                    ..default_client()
                })
            } else if name == "qBittorrent-4.3.0"@ {
                Some(ClientView {
                    key_algorithm: 12,
                    key_refresh_on: 3,
                    key_uppercase: Some(true),
                    peer_pattern: "4.3-qB4300-[A-Za-z0-9_~\\(\\)\\!\\.\\*-]{12}"@,
                    encoding_exclusion_pattern: "[A-Za-z0-9_~\\\\(\\\\)\\\\!\\\\.\\\\*-]"@,
                    query: "info_hash={infohash}&peer_id={peerid}&port={port}&uploaded={uploaded}&downloaded={downloaded}&left={left}&corrupt=0&key={key}&event={event}&numwant={numwant}&compact=1&no_peer_id=1&supportcrypto=1&redundant=0"@,
                    user_agent: "qBittorrent/4.3.0"@,
                    connection: Some("close"@),
                    ..default_client()
                })
            } else if name == "qBittorrent-4.3.0.1"@ {
                Some(ClientView {
                    key_algorithm: 12,
                    key_refresh_on: 3,
                    key_uppercase: Some(true),
                    peer_pattern: "4.3-qB4301-[A-Za-z0-9_~\\(\\)\\!\\.\\*-]{12}"@,
                    encoding_exclusion_pattern: "[A-Za-z0-9_~\\\\(\\\\)\\\\!\\\\.\\\\*-]"@,
                    query: "info_hash={infohash}&peer_id={peerid}&port={port}&uploaded={uploaded}&downloaded={downloaded}&left={left}&corrupt=0&key={key}&event={event}&numwant={numwant}&compact=1&no_peer_id=1&supportcrypto=1&redundant=0"@,
                    user_agent: "qBittorrent/4.3.0.1"@,
                    connection: Some("close"@),
                    ..default_client()
                })
            } else if name == "qBittorrent-4.3.1"@ {
                Some(ClientView {
                    key_algorithm: 12,
                    key_refresh_on: 3,
                    key_uppercase: Some(true),
                    peer_pattern: "4.3-qB4310-[A-Za-z0-9_~\\(\\)\\!\\.\\*-]{12}"@,
                    encoding_exclusion_pattern: "[A-Za-z0-9_~\\\\(\\\\)\\\\!\\\\.\\\\*-]"@,
                    query: "info_hash={infohash}&peer_id={peerid}&port={port}&uploaded={uploaded}&downloaded={downloaded}&left={left}&corrupt=0&key={key}&event={event}&numwant={numwant}&compact=1&no_peer_id=1&supportcrypto=1&redundant=0"@,
                    user_agent: "qBittorrent/4.3.1"@,
                    connection: Some("close"@),
                    ..default_client()
                })
            } else if name == "qBittorrent-4.3.2"@ {
                Some(ClientView {
                    key_algorithm: 12,
                    key_refresh_on: 3,
                    key_uppercase: Some(true),
                    peer_pattern: "4.3-qB4320-[A-Za-z0-9_~\\(\\)\\!\\.\\*-]{12}"@,
                    encoding_exclusion_pattern: "[A-Za-z0-9_~\\\\(\\\\)\\\\!\\\\.\\\\*-]"@,
                    query: "info_hash={infohash}&peer_id={peerid}&port={port}&uploaded={uploaded}&downloaded={downloaded}&left={left}&corrupt=0&key={key}&event={event}&numwant={numwant}&compact=1&no_peer_id=1&supportcrypto=1&redundant=0"@,
                    user_agent: "qBittorrent/4.3.2"@,
                    connection: Some("close"@),
                    ..default_client()
                })
            } else if name == "qBittorrent-4.3.3"@ {
                Some(ClientView {
                    key_algorithm: 12,
                    key_refresh_on: 3,
                    key_uppercase: Some(true),
                    peer_pattern: "4.3-qB4330-[A-Za-z0-9_~\\(\\)\\!\\.\\*-]{12}"@,
                    encoding_exclusion_pattern: "[A-Za-z0-9_~\\\\(\\\\)\\\\!\\\\.\\\\*-]"@,
                    query: "info_hash={infohash}&peer_id={peerid}&port={port}&uploaded={uploaded}&downloaded={downloaded}&left={left}&corrupt=0&key={key}&event={event}&numwant={numwant}&compact=1&no_peer_id=1&supportcrypto=1&redundant=0"@,
                    user_agent: "qBittorrent/4.3.3"@,
                    connection: Some("close"@),
                    ..default_client()
                })
            } else if name == "rtorrent-0.9.6_0.13.6"@ {
                Some(ClientView {
                    key_refresh_on: 3,
                    key_uppercase: Some(false),
                    peer_algorithm: 10,
                    peer_pattern: "-lt0D60-[\u{0001}-\u{00ff}]{12}"@,
                    peer_refresh_on: 3,
                    uppercase_encoded_hex: true,
                    should_url_encode: true,
                    query: "info_hash={infohash}&peer_id={peerid}&key={key}&compact=1&port={port}&uploaded={uploaded}&downloaded={downloaded}&left={left}&event={event}"@,
                    user_agent: "rtorrent/0.9.6/0.13.6"@,
                    accept: "*/*"@,
                    accept_encoding: "deflate, gzip"@,
                    connection: None,
                    num_want: 50,
                    ..default_client()
                })
            } else if name == "transmission-2.82_14160"@ {
                Some(ClientView {
                    key_algorithm: 13,
                    key_pattern: "1-2147483647"@,
                    key_refresh_on: 0,
                    key_uppercase: Some(false),
                    peer_pattern: "0123456789abcdefghijklmnopqrstuvwxyz"@,
                    peer_refresh_on: 2,
                    peer_prefix: "-TR2820-"@,
                    encoding_exclusion_pattern: "[A-Za-z0-9_~\\\\(\\\\)\\\\!\\\\.\\\\*-]"@,
                    query: "info_hash={infohash}&peer_id={peerid}&port={port}&uploaded={uploaded}&downloaded={downloaded}&left={left}&numwant={numwant}&key={key}&compact=1&supportcrypto=1&event={event}&ipv6={ipv6}"@,
                    user_agent: "Transmission/2.82"@,
                    accept: "*/*"@,
                    accept_encoding: "gzip;q=1.0, deflate, identity"@,
                    connection: None,
                    num_want: 80,
                    ..default_client()
                })
            } else if name == "transmission-2.92_14714"@ {
                Some(ClientView {
                    key_algorithm: 13,
                    key_pattern: "1-2147483647"@,
                    key_refresh_on: 0,
                    key_uppercase: Some(false),
                    peer_pattern: "0123456789abcdefghijklmnopqrstuvwxyz"@,
                    peer_refresh_on: 2,
                    peer_prefix: "-TR2824Z-"@,
                    encoding_exclusion_pattern: "[A-Za-z0-9_~\\\\(\\\\)\\\\!\\\\.\\\\*-]"@,
                    query: "info_hash={infohash}&peer_id={peerid}&port={port}&uploaded={uploaded}&downloaded={downloaded}&left={left}&numwant={numwant}&key={key}&compact=1&supportcrypto=1&event={event}&ipv6={ipv6}"@,
                    user_agent: "Transmission/2.84+"@,
                    accept: "*/*"@,
                    accept_encoding: "gzip;q=1.0, deflate, identity"@,
                    connection: None,
                    num_want: 80,
                    ..default_client()
                })
            } else if name == "transmission-2.93"@ {
                Some(ClientView {
                    key_algorithm: 13,
                    key_pattern: "1-2147483647"@,
                    key_refresh_on: 0,
                    key_uppercase: Some(false),
                    peer_pattern: "0123456789abcdefghijklmnopqrstuvwxyz"@,
                    peer_refresh_on: 2,
                    peer_prefix: "-TR2930-"@,
                    encoding_exclusion_pattern: "[A-Za-z0-9_~\\\\(\\\\)\\\\!\\\\.\\\\*-]"@,
                    query: "info_hash={infohash}&peer_id={peerid}&port={port}&uploaded={uploaded}&downloaded={downloaded}&left={left}&numwant={numwant}&key={key}&compact=1&supportcrypto=1&event={event}&ipv6={ipv6}"@,
                    user_agent: "Transmission/2.93"@,
                    accept: "*/*"@,
                    accept_encoding: "gzip;q=1.0, deflate, identity"@,
                    connection: None,
                    num_want: 80,
                    ..default_client()
                })
            } else if name == "transmission-2.94"@ {
                Some(ClientView {
                    key_algorithm: 13,
                    key_pattern: "1-2147483647"@,
                    key_refresh_on: 0,
                    key_uppercase: Some(false),
                    peer_pattern: "0123456789abcdefghijklmnopqrstuvwxyz"@,
                    peer_refresh_on: 2,
                    peer_prefix: "-TR2940-"@,
                    encoding_exclusion_pattern: "[A-Za-z0-9_~\\\\(\\\\)\\\\!\\\\.\\\\*-]"@,
                    query: "info_hash={infohash}&peer_id={peerid}&port={port}&uploaded={uploaded}&downloaded={downloaded}&left={left}&numwant={numwant}&key={key}&compact=1&supportcrypto=1&event={event}&ipv6={ipv6}"@,
                    user_agent: "Transmission/2.94"@,
                    accept: "*/*"@,
                    accept_encoding: "gzip;q=1.0, deflate, identity"@,
                    connection: None,
                    num_want: 80,
                    ..default_client()
                })
            } else if name == "transmission-3.00"@ {
                Some(ClientView {
                    key_algorithm: 13,
                    key_pattern: "1-2147483647"@,
                    key_refresh_on: 0,
                    key_uppercase: Some(false),
                    peer_pattern: "0123456789abcdefghijklmnopqrstuvwxyz"@,
                    peer_refresh_on: 2,
                    peer_prefix: "-TR3000-"@,
                    encoding_exclusion_pattern: "[A-Za-z0-9_~\\\\(\\\\)\\\\!\\\\.\\\\*-]"@,
                    query: "info_hash={infohash}&peer_id={peerid}&port={port}&uploaded={uploaded}&downloaded={downloaded}&left={left}&numwant={numwant}&key={key}&compact=1&supportcrypto=1&event={event}&ipv6={ipv6}"@,
                    user_agent: "Transmission/3.00"@,
                    accept: "*/*"@,
                    accept_encoding: "gzip;q=1.0, deflate, identity"@,
                    connection: None,
                    num_want: 80,
                    ..default_client()
                })
            } else if name == "utorrent-3.2.2_28500"@ {
                Some(ClientView {
                    key_refresh_on: 1,
                    key_refresh_every: 10,
                    key_uppercase: Some(true),
                    peer_pattern: "-UT3220-To[\u{0001}-\u{00ff}]{10}"@,
                    should_url_encode: true,
                    query: "info_hash={infohash}&peer_id={peerid}&port={port}&uploaded={uploaded}&downloaded={downloaded}&left={left}&corrupt=0&key={key}&event={event}&numwant={numwant}&compact=1&no_peer_id=1&ipv6={ipv6}"@,
                    user_agent: "uTorrent/3220(28500)"@,
                    accept_encoding: "gzip;q=1.0, deflate, identity"@,
                    accept_language: "{locale}"@,
                    num_want_on_stop: 200,
                    ..default_client()
                })
            } else if name == "utorrent-3.5.0_43916"@ {
                Some(ClientView {
                    key_refresh_on: 1,
                    key_refresh_every: 10,
                    key_uppercase: Some(true),
                    peer_pattern: "-UT3500-(\u{008c}\u{00ab})[\u{0001}-\u{00ff}]{10}"@,
                    should_url_encode: true,
                    query: "info_hash={infohash}&peer_id={peerid}&port={port}&uploaded={uploaded}&downloaded={downloaded}&left={left}&corrupt=0&key={key}&event={event}&numwant={numwant}&compact=1&no_peer_id=1"@,
                    user_agent: "uTorrent/350(111258508)(43916)"@,
                    ..default_client()
                })
            } else if name == "utorrent-3.5.0_44090"@ {
                Some(ClientView {
                    key_refresh_on: 1,
                    key_refresh_every: 10,
                    key_uppercase: Some(true),
                    peer_pattern: "-UT3500-(\u{003a}\u{00ac})[\u{0001}-\u{00ff}]{10}"@,
                    should_url_encode: true,
                    query: "info_hash={infohash}&peer_id={peerid}&port={port}&uploaded={uploaded}&downloaded={downloaded}&left={left}&corrupt=0&key={key}&event={event}&numwant={numwant}&compact=1&no_peer_id=1"@,
                    user_agent: "uTorrent/350(111258682)(44090)"@,
                    ..default_client()
                })
            } else if name == "utorrent-3.5.0_44294"@ {
                Some(ClientView {
                    key_refresh_on: 1,
                    key_refresh_every: 10,
                    key_uppercase: Some(true),
                    peer_pattern: "-UT3500-(\u{0006}\u{00ad})[\u{0001}-\u{00ff}]{10}"@,
                    should_url_encode: true,
                    query: "info_hash={infohash}&peer_id={peerid}&port={port}&uploaded={uploaded}&downloaded={downloaded}&left={left}&corrupt=0&key={key}&event={event}&numwant={numwant}&compact=1&no_peer_id=1"@,
                    user_agent: "uTorrent/350(111258886)(44294)"@,
                    ..default_client()
                })
            } else if name == "utorrent-3.5.1_44332"@ {
                Some(ClientView {
                    key_refresh_on: 1,
                    key_refresh_every: 10,
                    key_uppercase: Some(true),
                    peer_pattern: "-UT3515-(\u{002c}\u{00ad})[\u{0001}-\u{00ff}]{10}"@,
                    should_url_encode: true,
                    query: "info_hash={infohash}&peer_id={peerid}&port={port}&uploaded={uploaded}&downloaded={downloaded}&left={left}&corrupt=0&key={key}&event={event}&numwant={numwant}&compact=1&no_peer_id=1"@,
                    user_agent: "uTorrent/351(111389996)(44332)"@,
                    ..default_client()
                })
            } else if name == "utorrent-3.5.3_44358"@ {
                Some(ClientView {
                    key_refresh_on: 1,
                    key_refresh_every: 10,
                    key_uppercase: Some(true),
                    peer_pattern: "-UT353S-F(\u{002c}\u{00ad})[\u{0001}-\u{00ff}]{10}"@,
                    should_url_encode: true,
                    query: "info_hash={infohash}&peer_id={peerid}&port={port}&uploaded={uploaded}&downloaded={downloaded}&left={left}&corrupt=0&key={key}&event={event}&numwant={numwant}&compact=1&no_peer_id=1"@,
                    user_agent: "uTorrent/353(111652166)(44358)"@,
                    ..default_client()
                })
            } else if name == "utorrent-3.5.3_44428"@ {
                Some(ClientView {
                    key_refresh_on: 1,
                    key_refresh_every: 10,
                    key_uppercase: Some(true),
                    peer_pattern: "-UT353S-(\u{008c}\u{00ad})[\u{0001}-\u{00ff}]{10}"@,
                    should_url_encode: true,
                    query: "info_hash={infohash}&peer_id={peerid}&port={port}&uploaded={uploaded}&downloaded={downloaded}&left={left}&corrupt=0&key={key}&event={event}&numwant={numwant}&compact=1&no_peer_id=1"@,
                    user_agent: "uTorrent/353(111652236)(44428)"@,
                    ..default_client()
                })
            } else if name == "utorrent-3.5.4_44498"@ {
                Some(ClientView {
                    key_refresh_on: 1,
                    key_refresh_every: 10,
                    key_uppercase: Some(true),
                    peer_pattern: "-UT354S-(\u{00d2}\u{00ad})[\u{0001}-\u{00ff}]{10}"@,
                    should_url_encode: true,
                    query: "info_hash={infohash}&peer_id={peerid}&port={port}&uploaded={uploaded}&downloaded={downloaded}&left={left}&corrupt=0&key={key}&event={event}&numwant={numwant}&compact=1&no_peer_id=1"@,
                    user_agent: "uTorrent/353(111783378)(44498)"@,
                    ..default_client()
                })
            } else if name == "vuze-5.7.5.0"@ {
                Some(ClientView {
                    key_algorithm: 10,
                    key_refresh_on: 2,
                    key_uppercase: None,
                    peer_pattern: "-AZ5750-[a-zA-Z0-9]{12}"@,
                    peer_refresh_on: 2,
                    encoding_exclusion_pattern: "[A-Za-z0-9_~\\\\(\\\\)\\\\!\\\\.\\\\*-]"@,
                    uppercase_encoded_hex: true,
                    query: "info_hash={infohash}&peer_id={peerid}&port={port}&azudp={port}&uploaded={uploaded}&downloaded={downloaded}&left={left}&corrupt=0&event={event}&numwant={numwant}&no_peer_id=1&compact=1&key={key}&azver=3"@,
                    user_agent: "Azureus 5.7.5.0;{os};Java {java}"@,
                    accept: "text/html, image/gif, image/jpeg, *; q=.2, */*; q=.2"@,
                    connection: Some("close"@),
                    num_want: 100,
                    ..default_client()
                })
            } else {
                None
            }
        }),
{
}

/// Get the client from the name provided in parameter: the profile of the
/// client called `name`, or `None` when no supported client has that name.
pub fn get_client(name: &str) -> (r: Option<Client>)
    ensures
        client_option_view(r) == client_profile(name@),
{
    let found = find_bittorrent(name);
    if found.is_some() {
        return found;
    }
    let found = find_deluge(name);
    if found.is_some() {
        return found;
    }
    let found = find_leap(name);
    if found.is_some() {
        return found;
    }
    let found = find_qbittorrent(name);
    if found.is_some() {
        return found;
    }
    let found = find_rtorrent(name);
    if found.is_some() {
        return found;
    }
    let found = find_transmission(name);
    if found.is_some() {
        return found;
    }
    let found = find_utorrent_classic(name);
    if found.is_some() {
        return found;
    }
    let found = find_utorrent(name);
    if found.is_some() {
        return found;
    }
    find_vuze(name)
}

} // verus!
