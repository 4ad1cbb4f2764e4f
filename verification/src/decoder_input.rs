//! Received bytes that `c_its_parser::de::decode` cannot be handed.
//!
//! For valid UTF-8 text whose first character after leading white space is `{`, the
//! decoder takes the JSON path. There it looks up the first `messageID":` (or, when there
//! is none, the first `messageId":`) and the first `protocolVersion":`, and reads the byte
//! after each key without checking that there is one: bytes whose first such key ends the
//! input make it index past the end. Those bytes are kept away from it. The test below
//! covers them all: it skips every byte that can belong to a white-space character (ASCII
//! white space and every byte from 0x80 on), so it also takes in text that is not UTF-8 or
//! starts with other non-ASCII characters, and it does not ask whether the message id
//! before `protocolVersion":` was read.
use vstd::prelude::*;

verus! {

/// `messageID":`, the message-id key of CDD 1.3.1 in JSON.
pub open spec fn message_id_key() -> Seq<u8> {
    seq![109u8, 101u8, 115u8, 115u8, 97u8, 103u8, 101u8, 73u8, 68u8, 34u8, 58u8]
}

/// `messageId":`, the message-id key of CDD 2.2.1 in JSON.
pub open spec fn message_id_key_lower() -> Seq<u8> {
    seq![109u8, 101u8, 115u8, 115u8, 97u8, 103u8, 101u8, 73u8, 100u8, 34u8, 58u8]
}

/// `protocolVersion":`, the protocol-version key in JSON.
pub open spec fn protocol_version_key() -> Seq<u8> {
    seq![112u8, 114u8, 111u8, 116u8, 111u8, 99u8, 111u8, 108u8, 86u8, 101u8, 114u8, 115u8, 105u8, 111u8, 110u8, 34u8, 58u8]
}

/// What bytes kept away from the decoder are reported as.
pub const INPUT_ENDS_AFTER_KEY: &'static str = "input ends right after a JSON key";

/// The byte `{`.
pub const OPEN_BRACE: u8 = 123;

/// A byte that can belong to a white-space character: ASCII white space, or any byte of
/// a multi-byte UTF-8 sequence.
pub open spec fn skippable(b: u8) -> bool {
    b == 32 || (9 <= b && b <= 13) || b >= 128
}

/// The first byte of `bytes` that cannot belong to white space is a `{`.
pub open spec fn looks_like_json(bytes: Seq<u8>) -> bool {
    exists|i: int|
        0 <= i < bytes.len() && bytes[i] == OPEN_BRACE && forall|j: int| 0 <= j < i ==> #[trigger] skippable(bytes[j])
}

/// `key` occurs in `s` at `i`.
pub open spec fn occurs_at(s: Seq<u8>, key: Seq<u8>, i: int) -> bool {
    0 <= i && i + key.len() <= s.len() && s.subrange(i, i + key.len()) == key
}

/// `key` occurs in `s`.
pub open spec fn occurs(s: Seq<u8>, key: Seq<u8>) -> bool {
    exists|i: int| occurs_at(s, key, i)
}

/// The first occurrence of `key` in `s` ends `s`.
pub open spec fn first_ends(s: Seq<u8>, key: Seq<u8>) -> bool {
    &&& occurs_at(s, key, s.len() - key.len())
    &&& forall|i: int| 0 <= i < s.len() - key.len() ==> !#[trigger] occurs_at(s, key, i)
}

/// `bytes` look like JSON and the key after which the decoder reads on ends them.
pub open spec fn decoder_may_overrun(bytes: Seq<u8>) -> bool {
    &&& looks_like_json(bytes)
    &&& {
        ||| first_ends(bytes, message_id_key())
        ||| !occurs(bytes, message_id_key()) && first_ends(bytes, message_id_key_lower())
        ||| first_ends(bytes, protocol_version_key())
    }
}

fn message_id_key_bytes() -> (v: Vec<u8>)
    ensures
        v@ == message_id_key(),
{
    let v: Vec<u8> = vec![109u8, 101u8, 115u8, 115u8, 97u8, 103u8, 101u8, 73u8, 68u8, 34u8, 58u8];
    assert(v@ =~= message_id_key());
    v
}

fn message_id_key_lower_bytes() -> (v: Vec<u8>)
    ensures
        v@ == message_id_key_lower(),
{
    let v: Vec<u8> = vec![109u8, 101u8, 115u8, 115u8, 97u8, 103u8, 101u8, 73u8, 100u8, 34u8, 58u8];
    assert(v@ =~= message_id_key_lower());
    v
}

fn protocol_version_key_bytes() -> (v: Vec<u8>)
    ensures
        v@ == protocol_version_key(),
{
    let v: Vec<u8> = vec![112u8, 114u8, 111u8, 116u8, 111u8, 99u8, 111u8, 108u8, 86u8, 101u8, 114u8, 115u8, 105u8, 111u8, 110u8, 34u8, 58u8];
    assert(v@ =~= protocol_version_key());
    v
}

/// Whether `bytes` look like JSON.
fn looks_like_json_on(bytes: &[u8]) -> (r: bool)
    ensures
        r == looks_like_json(bytes@),
{
    let mut i: usize = 0;
    while i < bytes.len()
        invariant
            i <= bytes.len(),
            forall|j: int| 0 <= j < i ==> #[trigger] skippable(bytes@[j]),
        decreases bytes.len() - i,
    {
        let b = bytes[i];
        if b == OPEN_BRACE {
            assert(bytes@[i as int] == OPEN_BRACE);
            assert(forall|j: int| 0 <= j < i ==> #[trigger] skippable(bytes@[j]));
            return true;
        }
        if !(b == 32 || (9 <= b && b <= 13) || b >= 128) {
            assert(!skippable(bytes@[i as int]));
            assert forall|k: int| 0 <= k < bytes@.len() && bytes@[k] == OPEN_BRACE implies !(forall|j: int|
                0 <= j < k ==> #[trigger] skippable(bytes@[j])) by {
                if k < i {
                    assert(skippable(bytes@[k]));
                } else {
                    assert(k != i);
                    assert(0 <= i < k);
                }
            }
            return false;
        }
        i += 1;
    }
    assert forall|k: int| 0 <= k < bytes@.len() && bytes@[k] == OPEN_BRACE implies !(forall|j: int|
        0 <= j < k ==> #[trigger] skippable(bytes@[j])) by {
        assert(skippable(bytes@[k]));
    }
    false
}

/// Whether `key` occurs in `s` at `i`.
fn occurs_at_on(s: &[u8], key: &[u8], i: usize) -> (r: bool)
    ensures
        r == occurs_at(s@, key@, i as int),
{
    if key.len() > s.len() || i > s.len() - key.len() {
        return false;
    }
    let ghost window = s@.subrange(i as int, i + key@.len());
    let mut k: usize = 0;
    while k < key.len()
        invariant
            i + key.len() <= s.len(),
            k <= key.len(),
            window == s@.subrange(i as int, i + key@.len()),
            forall|j: int| 0 <= j < k ==> window[j] == key@[j],
        decreases key.len() - k,
    {
        if s[i + k] != key[k] {
            assert(window[k as int] != key@[k as int]);
            return false;
        }
        k += 1;
    }
    assert(window =~= key@);
    true
}

/// Where `key` first occurs in `s`.
fn first_occurrence(s: &[u8], key: &[u8]) -> (r: Option<usize>)
    requires
        key@.len() > 0,
    ensures
        r matches Some(i) ==> occurs_at(s@, key@, i as int) && forall|j: int| 0 <= j < i ==> !#[trigger] occurs_at(s@, key@, j),
        r is None ==> !occurs(s@, key@),
{
    if key.len() > s.len() {
        return None;
    }
    let last: usize = s.len() - key.len();
    let mut i: usize = 0;
    while i <= last
        invariant
            key@.len() > 0,
            last == s.len() - key.len(),
            i <= last + 1,
            forall|j: int| 0 <= j < i ==> !#[trigger] occurs_at(s@, key@, j),
        decreases last + 1 - i,
    {
        if occurs_at_on(s, key, i) {
            return Some(i);
        }
        i += 1;
    }
    assert forall|j: int| !occurs_at(s@, key@, j) by {
        if 0 <= j && j <= last {
            assert(!occurs_at(s@, key@, j));
        }
    }
    None
}

/// Whether the first occurrence of `key` in `s` ends `s`.
fn first_ends_on(s: &[u8], key: &[u8]) -> (r: bool)
    requires
        key@.len() > 0,
    ensures
        r == first_ends(s@, key@),
{
    match first_occurrence(s, key) {
        Some(i) => {
            assert(i + key@.len() <= s@.len());
            key.len() <= s.len() && i == s.len() - key.len()
        },
        None => false,
    }
}

/// Whether `key` occurs in `s`.
fn occurs_on(s: &[u8], key: &[u8]) -> (r: bool)
    requires
        key@.len() > 0,
    ensures
        r == occurs(s@, key@),
{
    first_occurrence(s, key).is_some()
}

/// Whether `bytes` are of the kind `decoder_may_overrun` describes.
pub fn decoder_may_overrun_on(bytes: &[u8]) -> (r: bool)
    ensures
        r == decoder_may_overrun(bytes@),
{
    if !looks_like_json_on(bytes) {
        return false;
    }
    let upper = message_id_key_bytes();
    let lower = message_id_key_lower_bytes();
    let version = protocol_version_key_bytes();
    first_ends_on(bytes, upper.as_slice())
        || (!occurs_on(bytes, upper.as_slice()) && first_ends_on(bytes, lower.as_slice()))
        || first_ends_on(bytes, version.as_slice())
}

} // verus!
