//! Registry credentials and their parsing.
//!
//! Credentials are given as one `username:password` byte string. Parsing
//! succeeds exactly when the input holds exactly one colon with bytes on
//! both sides of it: the bytes before the colon become the username and the
//! bytes after it the password, both non-empty. A malformed credential
//! string is a configuration error, fatal before the gateway starts
//! serving.

use vstd::prelude::*;

use crate::tokens::COLON;

verus! {

/// A username and password pair, immutable for the process lifetime.
#[derive(Debug, Clone)]
pub struct Credentials {
    pub username: Vec<u8>,
    pub password: Vec<u8>,
}

/// A configuration value that cannot be accepted at startup.
#[derive(Clone, Copy, PartialEq, Eq, Structural, Debug)]
pub enum ConfigError {
    /// The credential string does not hold exactly one colon with a
    /// non-empty username before it and a non-empty password after it.
    CredentialsFormat,
}

/// How often `c` occurs in `s`.
pub open spec fn count_byte(s: Seq<u8>, c: u8) -> nat
    decreases s.len(),
{
    if s.len() == 0 {
        0
    } else {
        (if s[0] == c {
            1nat
        } else {
            0nat
        }) + count_byte(s.drop_first(), c)
    }
}

/// `c` occurs exactly zero times in `s` when no position holds it.
proof fn lemma_count_zero(s: Seq<u8>, c: u8)
    ensures
        (count_byte(s, c) == 0) <==> (forall|j: int| 0 <= j < s.len() ==> s[j] != c),
    decreases s.len(),
{
    if s.len() > 0 {
        lemma_count_zero(s.drop_first(), c);
        assert(forall|j: int| 1 <= j < s.len() ==> s[j] == s.drop_first()[j - 1]);
    }
}

/// A position holding `c`, alone among all positions, makes the count one.
proof fn lemma_unique_implies_count_one(s: Seq<u8>, c: u8, i: int)
    requires
        0 <= i < s.len(),
        s[i] == c,
        forall|j: int| 0 <= j < s.len() && j != i ==> s[j] != c,
    ensures
        count_byte(s, c) == 1,
    decreases s.len(),
{
    let rest = s.drop_first();
    assert(forall|j: int| 1 <= j < s.len() ==> s[j] == rest[j - 1]);
    if i == 0 {
        lemma_count_zero(rest, c);
    } else {
        lemma_unique_implies_count_one(rest, c, i - 1);
    }
}

/// A position holding `c` makes the count at least one.
proof fn lemma_occurrence_implies_count_ge_one(s: Seq<u8>, c: u8, i: int)
    requires
        0 <= i < s.len(),
        s[i] == c,
    ensures
        count_byte(s, c) >= 1,
    decreases s.len(),
{
    if i > 0 {
        lemma_occurrence_implies_count_ge_one(s.drop_first(), c, i - 1);
    }
}

/// Two distinct positions holding `c` make the count at least two.
proof fn lemma_two_occurrences_imply_count_ge_two(s: Seq<u8>, c: u8, i1: int, i2: int)
    requires
        0 <= i1 < i2 < s.len(),
        s[i1] == c,
        s[i2] == c,
    ensures
        count_byte(s, c) >= 2,
    decreases s.len(),
{
    let rest = s.drop_first();
    if i1 == 0 {
        lemma_occurrence_implies_count_ge_one(rest, c, i2 - 1);
    } else {
        lemma_two_occurrences_imply_count_ge_two(rest, c, i1 - 1, i2 - 1);
    }
}

/// The least index at which `c` occurs in `s`, if any.
pub fn find_first(s: &[u8], c: u8) -> (r: Option<usize>)
    ensures
        match r {
            Some(k) => k < s@.len() && s@[k as int] == c && (forall|j: int|
                0 <= j < k ==> s@[j] != c),
            None => forall|j: int| 0 <= j < s@.len() ==> s@[j] != c,
        },
{
    let n = s.len();
    let mut i: usize = 0;
    while i < n
        invariant
            n == s@.len(),
            0 <= i <= n,
            forall|j: int| 0 <= j < i ==> s@[j] != c,
        decreases n - i,
    {
        if s[i] == c {
            return Some(i);
        }
        i += 1;
    }
    None
}

/// What a well-formed credential string looks like: exactly one colon, with
/// at least one byte on each side of it, so that neither the username nor
/// the password is empty.
pub open spec fn spec_credentials_wf(s: Seq<u8>) -> bool {
    &&& count_byte(s, COLON) == 1
    &&& s.len() > 0
    &&& s[0] != COLON
    &&& s[s.len() - 1] != COLON
}

impl Credentials {
    /// Parse a `username:password` byte string. Succeeds exactly when the
    /// input holds exactly one colon that is neither its first nor its last
    /// byte; the bytes before the colon become the username, the bytes after
    /// it the password, both non-empty.
    pub fn parse(s: &[u8]) -> (r: Result<Credentials, ConfigError>)
        ensures
            r is Ok <==> spec_credentials_wf(s@),
            r matches Ok(c) ==> exists|i: int|
                0 < i < s@.len() - 1 && s@[i] == COLON && c.username@ == s@.subrange(0, i)
                    && c.password@ == s@.subrange(i + 1, s@.len() as int),
            r matches Ok(c) ==> c.username@.len() > 0 && c.password@.len() > 0,
            r matches Err(e) ==> e == ConfigError::CredentialsFormat,
    {
        let n = s.len();
        let i = match find_first(s, COLON) {
            Some(i) => i,
            None => {
                proof {
                    lemma_count_zero(s@, COLON);
                }
                return Err(ConfigError::CredentialsFormat);
            },
        };
        let rest = vstd::slice::slice_subrange(s, i + 1, n);
        match find_first(rest, COLON) {
            Some(k) => {
                proof {
                    assert(s@[i + 1 + k] == COLON);
                    lemma_two_occurrences_imply_count_ge_two(s@, COLON, i as int, i + 1 + k);
                }
                Err(ConfigError::CredentialsFormat)
            },
            None => {
                proof {
                    assert(forall|j: int| i < j < s@.len() ==> s@[j] == rest@[j - i - 1]);
                    assert(s@[i as int] == COLON && (forall|j: int|
                        0 <= j < s@.len() && j != i ==> s@[j] != COLON));
                    lemma_unique_implies_count_one(s@, COLON, i as int);
                }
                if i == 0 || i + 1 == n {
                    // The colon is the first or the last byte: the username
                    // or the password would be empty.
                    return Err(ConfigError::CredentialsFormat);
                }
                let c = Credentials {
                    username: crate::bytes_util::copy_range(s, 0, i),
                    password: crate::bytes_util::copy_range(s, i + 1, n),
                };
                Ok(c)
            },
        }
    }
}

} // verus!
