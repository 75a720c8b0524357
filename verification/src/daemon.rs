//! Start-up decisions of the daemon: reading the persisted identity key and
//! choosing how relays are used.

use vstd::prelude::*;
use crate::text::string_views;

verus! {

/// Failures of reading the persisted identity key.
#[derive(Debug)]
pub enum KeyFileError {
    /// The file does not hold exactly 32 bytes.
    InvalidLength,
}

impl KeyFileError {
    /// The human-readable description of the failure.
    pub fn message(&self) -> (m: String)
        ensures
            m@ == "invalid key file length"@,
    {
        String::from_str("invalid key file length")
    }
}

/// The secret key held by a key file's contents: exactly 32 bytes are
/// required.
pub fn key_from_file_bytes(bytes: &[u8]) -> (r: Result<[u8; 32], KeyFileError>)
    ensures
        bytes@.len() == 32 <==> r is Ok,
        r matches Ok(key) ==> key@ == bytes@,
        r matches Err(e) ==> e == KeyFileError::InvalidLength,
{
    if bytes.len() != 32 {
        return Err(KeyFileError::InvalidLength);
    }
    let mut key = [0u8; 32];
    for i in 0..32
        invariant
            bytes@.len() == 32,
            forall|j: int| 0 <= j < i ==> key@[j] == bytes@[j],
    {
        key[i] = bytes[i];
    }
    proof {
        assert(key@ =~= bytes@);
    }
    Ok(key)
}

/// Whether `text` parses as a relay URL.
pub uninterp spec fn is_relay_url(text: Seq<char>) -> bool;

/// Calls `<iroh::RelayUrl as FromStr>::from_str`. Claims that whether it
/// succeeds is a function of `text` alone.
#[verifier::external_body]
fn relay_url_parses(text: &str) -> (ok: bool)
    ensures
        ok == is_relay_url(text@),
{
    text.parse::<iroh::RelayUrl>().is_ok()
}

/// The texts of `urls` that parse as relay URLs, in order.
pub open spec fn parsable_relays(urls: Seq<Seq<char>>) -> Seq<Seq<char>>
    decreases urls.len(),
{
    if urls.len() == 0 {
        Seq::empty()
    } else {
        let rest = parsable_relays(urls.drop_last());
        if is_relay_url(urls.last()) {
            rest.push(urls.last())
        } else {
            rest
        }
    }
}

/// How the node uses relay servers.
#[derive(Debug)]
pub enum RelayChoice {
    /// No relays: island mode.
    Disabled,
    /// The given relay URLs.
    Custom(Vec<String>),
    /// The default public relays.
    Default,
}

/// The relay choice for the daemon's options: none in island mode; when the
/// operator gave URLs, those of them that parse as relay URLs (the others are
/// dropped); the defaults otherwise.
pub fn relay_choice(no_relay: bool, relay_urls: Vec<String>) -> (c: RelayChoice)
    ensures
        no_relay ==> c is Disabled,
        !no_relay && relay_urls@.len() > 0 ==> (c matches RelayChoice::Custom(v) && string_views(
            v@,
        ) == parsable_relays(string_views(relay_urls@))),
        !no_relay && relay_urls@.len() == 0 ==> c is Default,
{
    if no_relay {
        RelayChoice::Disabled
    } else if relay_urls.len() > 0 {
        let mut kept: Vec<String> = Vec::new();
        let n = relay_urls.len();
        for i in 0..n
            invariant
                n == relay_urls@.len(),
                string_views(kept@) == parsable_relays(string_views(relay_urls@).take(i as int)),
        {
            let ghost before = kept@;
            let ghost views = string_views(relay_urls@);
            proof {
                assert(views.take(i + 1).drop_last() =~= views.take(i as int));
                assert(views.take(i + 1).last() == relay_urls@[i as int]@);
            }
            if relay_url_parses(relay_urls[i].as_str()) {
                kept.push(relay_urls[i].clone());
                proof {
                    assert(string_views(kept@) =~= string_views(before).push(relay_urls@[i as int]@));
                }
            }
        }
        proof {
            assert(string_views(relay_urls@).take(n as int) =~= string_views(relay_urls@));
        }
        RelayChoice::Custom(kept)
    } else {
        RelayChoice::Default
    }
}

} // verus!
