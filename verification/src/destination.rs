//! Destinations that CAMs are published to, written `message:encoding:host:port`.
use vstd::prelude::*;

use crate::encoding::V2xEncoding;
use crate::text::{ascii_lower, eq_ignore_ascii_case, str_eq_ignore_ascii_case};

verus! {

/// Supported V2X message families to publish.
#[derive(Debug, Clone, Copy, PartialEq, Eq, Hash, Structural)]
pub enum MessageType {
    /// ETSI Cooperative Awareness Message (CAM).
    Cam,
}

/// Supported ASN.1 encoding rules for outgoing CAM payloads.
#[derive(Debug, Clone, Copy, PartialEq, Eq, Hash, Structural)]
pub enum CamEncoding {
    /// UPER.
    Uper,
    /// XML.
    Xer,
    /// JSON.
    Jer,
}

/// The encoding rules that a destination's encoding names.
pub open spec fn v2x_encoding_of(enc: CamEncoding) -> V2xEncoding {
    match enc {
        CamEncoding::Uper => V2xEncoding::Uper,
        CamEncoding::Xer => V2xEncoding::Xer,
        CamEncoding::Jer => V2xEncoding::Jer,
    }
}

impl CamEncoding {
    /// The encoding rules that this encoding names.
    pub fn to_v2x_encoding(self) -> (r: V2xEncoding)
        ensures
            r == v2x_encoding_of(self),
    {
        match self {
            CamEncoding::Uper => V2xEncoding::Uper,
            CamEncoding::Xer => V2xEncoding::Xer,
            CamEncoding::Jer => V2xEncoding::Jer,
        }
    }
}

impl From<CamEncoding> for V2xEncoding {
    fn from(enc: CamEncoding) -> (r: V2xEncoding) {
        enc.to_v2x_encoding()
    }
}

impl vstd::std_specs::convert::FromSpecImpl<CamEncoding> for V2xEncoding {
    open spec fn obeys_from_spec() -> bool {
        true
    }

    open spec fn from_spec(v: CamEncoding) -> V2xEncoding {
        v2x_encoding_of(v)
    }
}

/// The name a message type is written with on the command line.
pub open spec fn message_type_name(m: MessageType) -> Seq<char> {
    match m {
        MessageType::Cam => seq!['c', 'a', 'm'],
    }
}

/// The name an encoding is written with on the command line.
pub open spec fn encoding_name(e: CamEncoding) -> Seq<char> {
    match e {
        CamEncoding::Uper => seq!['u', 'p', 'e', 'r'],
        CamEncoding::Xer => seq!['x', 'e', 'r'],
        CamEncoding::Jer => seq!['j', 'e', 'r'],
    }
}

/// The message type whose name equals `s` up to ASCII case, if there is one.
pub open spec fn message_type_named(s: Seq<char>) -> Option<MessageType> {
    if eq_ignore_ascii_case(s, message_type_name(MessageType::Cam)) {
        Some(MessageType::Cam)
    } else {
        None
    }
}

/// The first encoding (in the order UPER, XER, JER) whose name equals `s` up to ASCII case.
pub open spec fn encoding_named(s: Seq<char>) -> Option<CamEncoding> {
    if eq_ignore_ascii_case(s, encoding_name(CamEncoding::Uper)) {
        Some(CamEncoding::Uper)
    } else if eq_ignore_ascii_case(s, encoding_name(CamEncoding::Xer)) {
        Some(CamEncoding::Xer)
    } else if eq_ignore_ascii_case(s, encoding_name(CamEncoding::Jer)) {
        Some(CamEncoding::Jer)
    } else {
        None
    }
}

impl MessageType {
    /// The message type named `name`, compared without regard to ASCII case.
    pub fn from_name(name: &str) -> (r: Option<MessageType>)
        ensures
            r == message_type_named(name@),
    {
        proof {
            reveal_strlit("cam");
        }
        if str_eq_ignore_ascii_case(name, "cam") {
            Some(MessageType::Cam)
        } else {
            None
        }
    }
}

impl CamEncoding {
    /// The encoding named `name`, compared without regard to ASCII case.
    pub fn from_name(name: &str) -> (r: Option<CamEncoding>)
        ensures
            r == encoding_named(name@),
    {
        proof {
            reveal_strlit("uper");
            reveal_strlit("xer");
            reveal_strlit("jer");
        }
        if str_eq_ignore_ascii_case(name, "uper") {
            Some(CamEncoding::Uper)
        } else if str_eq_ignore_ascii_case(name, "xer") {
            Some(CamEncoding::Xer)
        } else if str_eq_ignore_ascii_case(name, "jer") {
            Some(CamEncoding::Jer)
        } else {
            None
        }
    }
}

/// The index of the first ':' in `s` at or after `from`, or -1 when there is none.
pub open spec fn colon_from(s: Seq<char>, from: int) -> int
    decreases s.len() - from,
{
    if from < 0 || from >= s.len() {
        -1
    } else if s[from] == ':' {
        from
    } else {
        colon_from(s, from + 1)
    }
}

/// The first three fields of `s` as `splitn(3, ':')` cuts them: the text before the first
/// ':', the text between the first and the second, and all that follows the second. `None`
/// when `s` holds fewer than two ':'.
pub open spec fn destination_fields(s: Seq<char>) -> Option<(Seq<char>, Seq<char>, Seq<char>)> {
    let i = colon_from(s, 0);
    if i < 0 {
        None
    } else {
        let j = colon_from(s, i + 1);
        if j < 0 {
            None
        } else {
            Some((s.subrange(0, i), s.subrange(i + 1, j), s.subrange(j + 1, s.len() as int)))
        }
    }
}

/// `s` has the shape `message:encoding:socket`, with none of the three parts empty.
pub open spec fn well_shaped(s: Seq<char>) -> bool {
    &&& destination_fields(s) is Some
    &&& destination_fields(s).unwrap().0.len() > 0
    &&& destination_fields(s).unwrap().1.len() > 0
    &&& destination_fields(s).unwrap().2.len() > 0
}

/// A destination whose message type and encoding are known and whose socket address is
/// still the text that names it.
#[derive(Debug, PartialEq, Eq)]
pub struct DestinationFields {
    pub message_type: MessageType,
    pub encoding: CamEncoding,
    /// The `host:port` text.
    pub socket: String,
}

/// Why a destination could not be read; each variant holds the whole text as `value`.
#[derive(Debug, PartialEq, Eq)]
pub enum DestinationError {
    /// The text does not have the shape `message:encoding:socket` with three non-empty parts.
    Format { value: String },
    /// The message type is not one this library publishes.
    UnknownMessageType { name: String, value: String },
    /// The encoding is not one this library supports.
    UnknownEncoding { name: String, value: String },
}

/// The human-readable description of a destination error.
pub open spec fn destination_error_text(e: DestinationError) -> Seq<char> {
    match e {
        DestinationError::Format { value } => "invalid destination '"@ + value@
            + "': expected format message:encoding:host:port"@,
        DestinationError::UnknownMessageType { name, value } => "invalid message type '"@ + name@
            + "' in destination '"@ + value@ + "'"@,
        DestinationError::UnknownEncoding { name, value } => "invalid encoding '"@ + name@
            + "' in destination '"@ + value@ + "'"@,
    }
}

impl DestinationError {
    /// The human-readable description of this error.
    pub fn message(&self) -> (m: String)
        ensures
            m@ == destination_error_text(*self),
    {
        match self {
            DestinationError::Format { value } => {
                let mut m = String::from_str("invalid destination '");
                m.append(value.as_str());
                m.append("': expected format message:encoding:host:port");
                m
            },
            DestinationError::UnknownMessageType { name, value } => {
                let mut m = String::from_str("invalid message type '");
                m.append(name.as_str());
                m.append("' in destination '");
                m.append(value.as_str());
                m.append("'");
                m
            },
            DestinationError::UnknownEncoding { name, value } => {
                let mut m = String::from_str("invalid encoding '");
                m.append(name.as_str());
                m.append("' in destination '");
                m.append(value.as_str());
                m.append("'");
                m
            },
        }
    }
}

/// The position of the first ':' in `s` at or after `from`, or the length of `s`.
fn find_colon(s: &str, from: usize, len: usize) -> (r: usize)
    requires
        len == s@.len(),
        from <= len,
    ensures
        from <= r <= len,
        r == len <==> colon_from(s@, from as int) == -1,
        r < len ==> r == colon_from(s@, from as int),
{
    let mut i = from;
    while i < len
        invariant
            from <= i <= len,
            len == s@.len(),
            colon_from(s@, from as int) == colon_from(s@, i as int),
        decreases len - i,
    {
        if s.get_char(i) == ':' {
            return i;
        }
        i = i + 1;
    }
    i
}

/// Reads a destination written `message:encoding:socket`, where the message type and the
/// encoding are compared without regard to ASCII case and the socket part is left as text.
pub fn parse_destination(value: &str) -> (r: Result<DestinationFields, DestinationError>)
    ensures
        match r {
            Ok(fields) => {
                &&& well_shaped(value@)
                &&& message_type_named(destination_fields(value@).unwrap().0) == Some(fields.message_type)
                &&& encoding_named(destination_fields(value@).unwrap().1) == Some(fields.encoding)
                &&& fields.socket@ == destination_fields(value@).unwrap().2
            },
            Err(DestinationError::Format { value: v }) => {
                &&& v@ == value@
                &&& !well_shaped(value@)
            },
            Err(DestinationError::UnknownMessageType { name, value: v }) => {
                &&& v@ == value@
                &&& well_shaped(value@)
                &&& name@ == destination_fields(value@).unwrap().0
                &&& message_type_named(name@) is None
            },
            Err(DestinationError::UnknownEncoding { name, value: v }) => {
                &&& v@ == value@
                &&& well_shaped(value@)
                &&& name@ == destination_fields(value@).unwrap().1
                &&& message_type_named(destination_fields(value@).unwrap().0) is Some
                &&& encoding_named(name@) is None
            },
        },
{
    let len = value.unicode_len();
    let first = find_colon(value, 0, len);
    if first == len {
        return Err(DestinationError::Format { value: String::from_str(value) });
    }
    let second = find_colon(value, first + 1, len);
    if second == len {
        return Err(DestinationError::Format { value: String::from_str(value) });
    }
    let message_raw = value.substring_char(0, first);
    let encoding_raw = value.substring_char(first + 1, second);
    let socket_raw = value.substring_char(second + 1, len);
    if first == 0 || second == first + 1 || second + 1 == len {
        return Err(DestinationError::Format { value: String::from_str(value) });
    }
    let message_type = match MessageType::from_name(message_raw) {
        Some(m) => m,
        None => {
            return Err(
                DestinationError::UnknownMessageType {
                    name: String::from_str(message_raw),
                    value: String::from_str(value),
                },
            );
        },
    };
    let encoding = match CamEncoding::from_name(encoding_raw) {
        Some(e) => e,
        None => {
            return Err(
                DestinationError::UnknownEncoding {
                    name: String::from_str(encoding_raw),
                    value: String::from_str(value),
                },
            );
        },
    };
    Ok(DestinationFields { message_type, encoding, socket: String::from_str(socket_raw) })
}

/// A socket address as plain values: an IPv4 or IPv6 address and a port, and for IPv6
/// the flow information and scope id that also take part in comparing two addresses.
#[derive(Debug, Clone, Copy, PartialEq, Eq, Hash, Structural)]
pub enum SocketEndpoint {
    V4 { ipv4: u32, port: u16 },
    V6 { ipv6: u128, port: u16, flowinfo: u32, scope_id: u32 },
}

/// Destination mapping for one message type + encoding + socket target.
#[derive(Debug, Clone, Copy, PartialEq, Eq, Hash, Structural)]
pub struct DestinationConfig {
    pub socket: SocketEndpoint,
    pub encoding: CamEncoding,
    pub message_type: MessageType,
}

/// The elements of `s` in the order of their first occurrence, each once.
pub open spec fn first_occurrences<T>(s: Seq<T>) -> Seq<T>
    decreases s.len(),
{
    if s.len() == 0 {
        Seq::empty()
    } else {
        let kept = first_occurrences(s.drop_last());
        if kept.contains(s.last()) {
            kept
        } else {
            kept.push(s.last())
        }
    }
}

/// Whether `list` holds `d`.
fn holds_destination(list: &Vec<DestinationConfig>, d: &DestinationConfig) -> (r: bool)
    ensures
        r == list@.contains(*d),
{
    let mut i: usize = 0;
    while i < list.len()
        invariant
            i <= list.len(),
            forall|j: int| 0 <= j < i ==> list@[j] != *d,
        decreases list.len() - i,
    {
        if list[i] == *d {
            return true;
        }
        i = i + 1;
    }
    false
}

/// The destinations, each kept once, in the order in which they first appear.
pub fn unique_destinations(destinations: &[DestinationConfig]) -> (unique: Vec<DestinationConfig>)
    ensures
        unique@ == first_occurrences(destinations@),
{
    let mut unique: Vec<DestinationConfig> = Vec::new();
    let mut i: usize = 0;
    while i < destinations.len()
        invariant
            i <= destinations.len(),
            unique@ == first_occurrences(destinations@.take(i as int)),
        decreases destinations.len() - i,
    {
        let d = destinations[i];
        assert(destinations@.take(i + 1).drop_last() =~= destinations@.take(i as int));
        if !holds_destination(&unique, &d) {
            unique.push(d);
        }
        i = i + 1;
    }
    assert(destinations@.take(destinations.len() as int) =~= destinations@);
    unique
}

/// When `s[k]` is the first ':' at or after `from`, the search from `from` finds `k`.
proof fn lemma_colon_from_finds(s: Seq<char>, from: int, k: int)
    requires
        0 <= from <= k < s.len(),
        s[k] == ':',
        forall|j: int| from <= j < k ==> s[j] != ':',
    ensures
        colon_from(s, from) == k,
    decreases k - from,
{
    if from < k {
        lemma_colon_from_finds(s, from + 1, k);
    }
}

/// Writing a destination as `message:encoding:socket`, with the names this library uses
/// and any non-empty socket text, gives text that reads back as that message type,
/// encoding and socket text.
pub proof fn law_destination_text_reads_back(m: MessageType, e: CamEncoding, socket: Seq<char>)
    requires
        socket.len() > 0,
    ensures
        ({
            let text = message_type_name(m) + seq![':'] + encoding_name(e) + seq![':'] + socket;
            &&& well_shaped(text)
            &&& destination_fields(text) == Some((message_type_name(m), encoding_name(e), socket))
            &&& message_type_named(message_type_name(m)) == Some(m)
            &&& encoding_named(encoding_name(e)) == Some(e)
        }),
{
    let mn = message_type_name(m);
    let en = encoding_name(e);
    let text = mn + seq![':'] + en + seq![':'] + socket;
    let i = mn.len() as int;
    let j = i + 1 + en.len();
    assert(forall|k: int| 0 <= k < i ==> text[k] == mn[k]);
    assert(text[i] == ':');
    assert(forall|k: int| i < k < j ==> text[k] == en[k - i - 1]);
    assert(text[j] == ':');
    lemma_colon_from_finds(text, 0, i);
    lemma_colon_from_finds(text, i + 1, j);
    assert(text.subrange(0, i) =~= mn);
    assert(text.subrange(i + 1, j) =~= en);
    assert(text.subrange(j + 1, text.len() as int) =~= socket);
    match e {
        CamEncoding::Uper => {},
        CamEncoding::Xer => {
            assert(!eq_ignore_ascii_case(en, encoding_name(CamEncoding::Uper)));
        },
        CamEncoding::Jer => {
            assert(!eq_ignore_ascii_case(en, encoding_name(CamEncoding::Uper)));
            assert(!eq_ignore_ascii_case(en, encoding_name(CamEncoding::Xer))) by {
                assert(ascii_lower(en[0]) != ascii_lower(encoding_name(CamEncoding::Xer)[0]));
            }
        },
    }
}

/// Message type and encoding names are read without regard to ASCII case.
pub proof fn law_names_ignore_ascii_case(a: Seq<char>, b: Seq<char>)
    requires
        eq_ignore_ascii_case(a, b),
    ensures
        message_type_named(a) == message_type_named(b),
        encoding_named(a) == encoding_named(b),
{
    lemma_same_name_up_to_case(a, b, message_type_name(MessageType::Cam));
    lemma_same_name_up_to_case(a, b, encoding_name(CamEncoding::Uper));
    lemma_same_name_up_to_case(a, b, encoding_name(CamEncoding::Xer));
    lemma_same_name_up_to_case(a, b, encoding_name(CamEncoding::Jer));
}

/// Two texts equal up to ASCII case match the same names.
proof fn lemma_same_name_up_to_case(a: Seq<char>, b: Seq<char>, name: Seq<char>)
    requires
        eq_ignore_ascii_case(a, b),
    ensures
        eq_ignore_ascii_case(a, name) == eq_ignore_ascii_case(b, name),
{
    if eq_ignore_ascii_case(a, name) {
        assert forall|i: int| 0 <= i < b.len() implies ascii_lower(#[trigger] b[i]) == ascii_lower(name[i]) by {
            assert(ascii_lower(a[i]) == ascii_lower(b[i]));
            assert(ascii_lower(a[i]) == ascii_lower(name[i]));
        }
    }
    if eq_ignore_ascii_case(b, name) {
        assert forall|i: int| 0 <= i < a.len() implies ascii_lower(#[trigger] a[i]) == ascii_lower(name[i]) by {
            assert(ascii_lower(a[i]) == ascii_lower(b[i]));
            assert(ascii_lower(b[i]) == ascii_lower(name[i]));
        }
    }
}

/// Each destination is kept once: the result holds no two equal destinations, and holds
/// exactly the destinations of the input.
pub proof fn law_unique_destinations<T>(s: Seq<T>)
    ensures
        first_occurrences(s).no_duplicates(),
        first_occurrences(s).to_set() == s.to_set(),
    decreases s.len(),
{
    if s.len() > 0 {
        law_unique_destinations(s.drop_last());
        let kept = first_occurrences(s.drop_last());
        assert(s =~= s.drop_last().push(s.last()));
        s.drop_last().lemma_push_to_set_commute(s.last());
        if !kept.contains(s.last()) {
            kept.lemma_push_to_set_commute(s.last());
        } else {
            assert(s.drop_last().to_set().contains(s.last()));
            assert(s.drop_last().to_set().insert(s.last()) =~= s.drop_last().to_set());
        }
    } else {
        assert(s.to_set() =~= Set::empty());
    }
}

/// Keeping each destination once a second time changes nothing.
pub proof fn law_unique_destinations_idempotent<T>(s: Seq<T>)
    ensures
        first_occurrences(first_occurrences(s)) == first_occurrences(s),
{
    law_unique_destinations(s);
    lemma_first_occurrences_of_unique(first_occurrences(s));
}

/// A sequence without repeats is its own first occurrences.
proof fn lemma_first_occurrences_of_unique<T>(s: Seq<T>)
    requires
        s.no_duplicates(),
    ensures
        first_occurrences(s) == s,
    decreases s.len(),
{
    if s.len() > 0 {
        let init = s.drop_last();
        assert(init.no_duplicates());
        lemma_first_occurrences_of_unique(init);
        assert(!init.contains(s.last()));
        assert(s =~= init.push(s.last()));
    }
}

} // verus!
