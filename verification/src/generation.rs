//! Which generators a client profile asks for, to make its peer id and its key.

use vstd::prelude::*;
use crate::client::{
    Client, ClientView, REGEX, HASH, HASH_NO_LEADING_ZERO,
    DIGIT_RANGE_TRANSFORMED_TO_HEX_WITHOUT_LEADING_ZEROES, PEER_ID_LENGTH,
};

verus! {

/// How a peer id is made.
pub enum PeerIdGenerator {
    /// A text that the regular expression `pattern` matches.
    Regex { pattern: String },
    /// `length` characters: `prefix`, then characters drawn from `pool`, the last one a checksum.
    RandomPoolWithChecksum { length: usize, prefix: String, pool: String },
}

/// How an announce key is made.
pub enum KeyGenerator {
    /// `length` hex digits of a hash, in the case that `uppercase` asks for.
    Hash { length: usize, no_leading_zero: bool, uppercase: Option<bool> },
    /// A number of the range 1 to 2147483647, in hex without leading zeros.
    DigitRangeToHex,
    /// No key is made.
    NotGenerated,
}

/// The generators that a profile asks for.
pub struct Generators {
    pub peer_id: PeerIdGenerator,
    pub key: KeyGenerator,
}

/// The length of a hashed key.
pub const KEY_LENGTH: usize = 8;

/// The peer-id generator that the profile asks for.
pub open spec fn peer_id_generator_of(c: ClientView, g: PeerIdGenerator) -> bool {
    if c.peer_algorithm == REGEX {
        g matches PeerIdGenerator::Regex { pattern } && pattern@ == c.peer_pattern
    } else {
        g matches PeerIdGenerator::RandomPoolWithChecksum { length, prefix, pool } && length
            == PEER_ID_LENGTH && prefix@ == c.peer_prefix && pool@ == c.peer_pattern
    }
}

/// The key generator that the profile asks for.
pub open spec fn key_generator_of(c: ClientView, g: KeyGenerator) -> bool {
    if c.key_algorithm == HASH {
        g == KeyGenerator::Hash { length: KEY_LENGTH, no_leading_zero: false, uppercase: c.key_uppercase }
    } else if c.key_algorithm == HASH_NO_LEADING_ZERO {
        g == KeyGenerator::Hash { length: KEY_LENGTH, no_leading_zero: true, uppercase: c.key_uppercase }
    } else if c.key_algorithm == DIGIT_RANGE_TRANSFORMED_TO_HEX_WITHOUT_LEADING_ZEROES {
        g == KeyGenerator::DigitRangeToHex
    } else {
        g == KeyGenerator::NotGenerated
    }
}

impl Client {
    /// The generators of the peer id and of the key: the peer id from the
    /// regular expression `peer_pattern` when `peer_algorithm` is `REGEX`, else
    /// from the pool `peer_pattern` after `peer_prefix`; the key as a hash
    /// (with or without leading zeros) or from the digit range, as
    /// `key_algorithm` says, and no key for any other algorithm.
    pub fn build(&self) -> (g: Generators)
        ensures
            peer_id_generator_of(self@, g.peer_id),
            key_generator_of(self@, g.key),
    {
        let peer_id = if self.peer_algorithm == REGEX {
            PeerIdGenerator::Regex { pattern: self.peer_pattern.clone() }
        } else {
            PeerIdGenerator::RandomPoolWithChecksum {
                length: PEER_ID_LENGTH,
                prefix: self.peer_prefix.clone(),
                pool: self.peer_pattern.clone(),
            }
        };
        let key = if self.key_algorithm == HASH {
            KeyGenerator::Hash { length: KEY_LENGTH, no_leading_zero: false, uppercase: self.key_uppercase }
        } else if self.key_algorithm == HASH_NO_LEADING_ZERO {
            KeyGenerator::Hash { length: KEY_LENGTH, no_leading_zero: true, uppercase: self.key_uppercase }
        } else if self.key_algorithm == DIGIT_RANGE_TRANSFORMED_TO_HEX_WITHOUT_LEADING_ZEROES {
            KeyGenerator::DigitRangeToHex
        } else {
            KeyGenerator::NotGenerated
        };
        Generators { peer_id, key }
    }
}


/// The peer id comes from the regular expression `peer_pattern` exactly when
/// the peer algorithm is the regular-expression one (10); otherwise it is
/// 20 characters drawn from the pool `peer_pattern` after `peer_prefix`.
pub proof fn law_peer_id_generator(c: ClientView, g: PeerIdGenerator)
    requires
        peer_id_generator_of(c, g),
    ensures
        g is Regex <==> c.peer_algorithm == 10,
        g matches PeerIdGenerator::Regex { pattern } ==> pattern@ == c.peer_pattern,
        g matches PeerIdGenerator::RandomPoolWithChecksum { length, prefix, pool } ==> length == 20
            && prefix@ == c.peer_prefix && pool@ == c.peer_pattern,
{
}

/// The key is a hash of 8 hex digits exactly when the key algorithm is one of
/// the two hash ones (11, and 12 without leading zeros), in the case the
/// profile asks for; a digit range exactly for algorithm 13; and no key is
/// made for any other algorithm.
pub proof fn law_key_generator(c: ClientView, g: KeyGenerator)
    requires
        key_generator_of(c, g),
    ensures
        g is Hash <==> (c.key_algorithm == 11 || c.key_algorithm == 12),
        g is DigitRangeToHex <==> c.key_algorithm == 13,
        g is NotGenerated <==> !(11 <= c.key_algorithm <= 13),
        g matches KeyGenerator::Hash { length, no_leading_zero, uppercase } ==> length == 8
            && no_leading_zero == (c.key_algorithm == 12) && uppercase == c.key_uppercase,
{
}

} // verus!
