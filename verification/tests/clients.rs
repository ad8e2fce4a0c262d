use ratioup::client::{
    DIGIT_RANGE_TRANSFORMED_TO_HEX_WITHOUT_LEADING_ZEROES, HASH, HASH_NO_LEADING_ZERO, NEVER, REGEX,
    TIMED_OR_AFTER_STARTED_ANNOUNCE, TORRENT_PERSISTENT, TORRENT_VOLATILE,
};
use ratioup::{get_client, Client, KeyGenerator, PeerIdGenerator};

const EXCLUDED: &str = "[A-Za-z0-9_~\\\\(\\\\)\\\\!\\\\.\\\\*-]";
const BASE_QUERY: &str = "info_hash={infohash}&peer_id={peerid}&port={port}&uploaded={uploaded}&downloaded={downloaded}&left={left}&corrupt=0&key={key}&event={event}&numwant={numwant}&compact=1&no_peer_id=1";

#[test]
fn default_profile() {
    let c = Client::default();
    assert_eq!(c.key_algorithm, HASH);
    assert_eq!(c.key_refresh_on, TIMED_OR_AFTER_STARTED_ANNOUNCE);
    assert_eq!(c.peer_algorithm, HASH);
    assert_eq!(c.peer_refresh_on, NEVER);
    assert_eq!(c.encoding_exclusion_pattern, "[A-Za-z0-9-]");
    assert_eq!(c.accept_encoding, "gzip");
    assert_eq!(c.connection, Some("Close".to_string()));
    assert_eq!(c.num_want, 200);
    assert_eq!(c.num_want_on_stop, 0);
    assert_eq!(c.query, BASE_QUERY);
    assert_eq!(c.key_uppercase, None);
    assert!(!c.should_url_encode && !c.uppercase_encoded_hex);
    assert!(c.user_agent.is_empty() && c.infohash.is_empty() && c.peer_id.is_empty());
}

#[test]
fn unknown_names_have_no_client() {
    assert!(get_client("").is_none());
    assert!(get_client("qBittorrent-9.9.9").is_none());
    assert!(get_client("Deluge-1.3.13").is_none());
    assert!(get_client("deluge-1.3.13 ").is_none());
}

#[test]
fn bittorrent_profile() {
    let c = get_client("bittorrent-7.10.3_44359").unwrap();
    assert!(c.should_url_encode);
    assert_eq!(c.peer_pattern, "-BT7a3S-G(\u{00ad})[\u{0001}-\u{00ff}]{10}");
    assert_eq!(c.user_agent, "BitTorrent/7103(256355655)(44359)");
    assert_eq!(c.key_algorithm, HASH);
    assert_eq!(c.encoding_exclusion_pattern, "[A-Za-z0-9-]");
}

#[test]
fn deluge_profile() {
    let c = get_client("deluge-1.3.15").unwrap();
    assert_eq!(c.key_algorithm, HASH_NO_LEADING_ZERO);
    assert_eq!(c.key_refresh_on, TORRENT_PERSISTENT);
    assert_eq!(c.key_uppercase, Some(true));
    assert_eq!(c.peer_pattern, "-DE13F0-[A-Za-z0-9_~\\(\\)\\!\\.\\*-]{12}");
    assert_eq!(c.encoding_exclusion_pattern, EXCLUDED);
    assert_eq!(c.user_agent, "Deluge 1.3.15");
    assert_eq!(c.connection, Some("Close".to_string()));
    assert!(c.query.ends_with("&supportcrypto=1&redundant=0"));
}

#[test]
fn qbittorrent_profiles() {
    let c = get_client("qBittorrent-4.1.5").unwrap();
    assert_eq!(c.user_agent, "qBittorrent /4.1.5");
    assert_eq!(c.peer_pattern, "-qB4150-[A-Za-z0-9_~\\(\\)\\!\\.\\*-]{12}");
    assert_eq!(c.connection, Some("close".to_string()));
    let c = get_client("qBittorrent-4.3.0.1").unwrap();
    assert_eq!(c.user_agent, "qBittorrent/4.3.0.1");
    assert_eq!(c.peer_pattern, "4.3-qB4301-[A-Za-z0-9_~\\(\\)\\!\\.\\*-]{12}");
    let c = get_client("qBittorrent-3.3.7").unwrap();
    assert_eq!(c.peer_pattern, "-qB3310-[A-Za-z0-9_~\\(\\)\\!\\.\\*-]{12}");
}

#[test]
fn leap_profile() {
    let c = get_client("leap-2.6.0.1").unwrap();
    assert_eq!(c.key_algorithm, HASH);
    assert_eq!(c.user_agent, "libtorrent_leap/1.1.1.0");
    assert_eq!(c.connection, Some("close".to_string()));
}

#[test]
fn rtorrent_profile() {
    let c = get_client("rtorrent-0.9.6_0.13.6").unwrap();
    assert_eq!(c.peer_algorithm, REGEX);
    assert_eq!(c.peer_refresh_on, TORRENT_PERSISTENT);
    assert_eq!(c.key_uppercase, Some(false));
    assert!(c.should_url_encode && c.uppercase_encoded_hex);
    assert_eq!(c.accept, "*/*");
    assert_eq!(c.accept_encoding, "deflate, gzip");
    assert_eq!(c.num_want, 50);
    assert_eq!(c.connection, None);
    assert_eq!(c.query, "info_hash={infohash}&peer_id={peerid}&key={key}&compact=1&port={port}&uploaded={uploaded}&downloaded={downloaded}&left={left}&event={event}");
    match c.build().peer_id {
        PeerIdGenerator::Regex { pattern } => assert_eq!(pattern, "-lt0D60-[\u{0001}-\u{00ff}]{12}"),
        _ => panic!("rtorrent makes its peer id from a regular expression"),
    }
}

#[test]
fn transmission_profile() {
    let c = get_client("transmission-2.92_14714").unwrap();
    assert_eq!(c.key_algorithm, DIGIT_RANGE_TRANSFORMED_TO_HEX_WITHOUT_LEADING_ZEROES);
    assert_eq!(c.key_pattern, "1-2147483647");
    assert_eq!(c.key_refresh_on, NEVER);
    assert_eq!(c.peer_prefix, "-TR2824Z-");
    assert_eq!(c.user_agent, "Transmission/2.84+");
    assert_eq!(c.peer_refresh_on, TORRENT_VOLATILE);
    assert_eq!(c.num_want, 80);
    let g = c.build();
    assert!(matches!(g.key, KeyGenerator::DigitRangeToHex));
    match g.peer_id {
        PeerIdGenerator::RandomPoolWithChecksum { length, prefix, pool } => {
            assert_eq!(length, 20);
            assert_eq!(prefix, "-TR2824Z-");
            assert_eq!(pool, "0123456789abcdefghijklmnopqrstuvwxyz");
        }
        _ => panic!("transmission draws its peer id from a pool"),
    }
}

#[test]
fn utorrent_profiles() {
    let c = get_client("utorrent-3.2.2_28500").unwrap();
    assert_eq!(c.key_refresh_every, 10);
    assert_eq!(c.accept_language, "{locale}");
    assert_eq!(c.num_want_on_stop, 200);
    assert!(c.query.ends_with("&ipv6={ipv6}"));
    let c = get_client("utorrent-3.5.4_44498").unwrap();
    assert_eq!(c.user_agent, "uTorrent/353(111783378)(44498)");
    assert_eq!(c.query, BASE_QUERY);
    assert_eq!(c.num_want_on_stop, 0);
}

#[test]
fn vuze_profile() {
    let c = get_client("vuze-5.7.5.0").unwrap();
    assert_eq!(c.key_algorithm, REGEX);
    assert_eq!(c.key_uppercase, None);
    assert_eq!(c.num_want, 100);
    assert_eq!(c.user_agent, "Azureus 5.7.5.0;{os};Java {java}");
    assert!(matches!(c.build().key, KeyGenerator::NotGenerated));
}

#[test]
fn hashed_keys() {
    let g = get_client("qBittorrent-4.2.0").unwrap().build();
    match g.key {
        KeyGenerator::Hash { length, no_leading_zero, uppercase } => {
            assert_eq!(length, 8);
            assert!(no_leading_zero);
            assert_eq!(uppercase, Some(true));
        }
        _ => panic!("qBittorrent hashes its key"),
    }
    match Client::default().build().key {
        KeyGenerator::Hash { length, no_leading_zero, uppercase } => {
            assert_eq!(length, 8);
            assert!(!no_leading_zero);
            assert_eq!(uppercase, None);
        }
        _ => panic!("the default profile hashes its key"),
    }
}

#[test]
fn every_listed_name_has_a_client() {
    let names = [
        "bittorrent-7.10.1_43917", "bittorrent-7.10.3_44359", "bittorrent-7.10.3_44429",
        "deluge-1.3.13", "deluge-1.3.14", "deluge-1.3.15", "leap-2.6.0.1",
        "qBittorrent-3.3.1", "qBittorrent-3.3.7", "qBittorrent-3.3.13", "qBittorrent-3.3.14",
        "qBittorrent-3.3.15", "qBittorrent-3.3.16", "qBittorrent-4.0.0", "qBittorrent-4.0.1",
        "qBittorrent-4.0.2", "qBittorrent-4.0.3", "qBittorrent-4.0.4", "qBittorrent-4.1.0",
        "qBittorrent-4.1.1", "qBittorrent-4.1.2", "qBittorrent-4.1.3", "qBittorrent-4.1.4",
        "qBittorrent-4.1.5", "qBittorrent-4.1.6", "qBittorrent-4.1.7", "qBittorrent-4.1.8",
        "qBittorrent-4.1.9", "qBittorrent-4.2.0", "qBittorrent-4.2.1", "qBittorrent-4.2.2",
        "qBittorrent-4.2.3", "qBittorrent-4.2.4", "qBittorrent-4.2.5", "qBittorrent-4.3.0",
        "qBittorrent-4.3.0.1", "qBittorrent-4.3.1", "qBittorrent-4.3.2", "qBittorrent-4.3.3",
        "rtorrent-0.9.6_0.13.6", "transmission-2.82_14160", "transmission-2.92_14714",
        "transmission-2.93", "transmission-2.94", "transmission-3.00", "utorrent-3.2.2_28500",
        "utorrent-3.5.0_43916", "utorrent-3.5.0_44090", "utorrent-3.5.0_44294",
        "utorrent-3.5.1_44332", "utorrent-3.5.3_44358", "utorrent-3.5.3_44428",
        "utorrent-3.5.4_44498", "vuze-5.7.5.0",
    ];
    for name in names {
        let c = get_client(name).unwrap();
        assert!(!c.user_agent.is_empty());
        assert!(c.infohash.is_empty() && c.peer_id.is_empty() && c.prefix.is_empty());
    }
}
