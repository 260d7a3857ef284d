//! OSC messages as plain values.

use vstd::prelude::*;

verus! {

/// One argument of a received OSC message, by its type tag.
#[derive(Clone, Copy, Debug, PartialEq, Eq, Structural)]
pub enum OscArg {
    /// Tag `i`.
    Int(i32),
    /// Tag `f`: the single-precision number with this IEEE-754 bit pattern.
    Float(u32),
    /// Tag `s`; the text itself is not kept.
    Text,
    /// Tag `T`.
    True,
    /// Tag `F`.
    False,
    /// Tag `N`.
    Nil,
}

/// A received OSC message: an address and its arguments.
#[derive(Debug)]
pub struct OscMessage {
    pub path: String,
    pub arguments: Vec<OscArg>,
}

/// One argument of an OSC message to send.
#[derive(Clone, Copy, Debug, PartialEq, Eq, Structural)]
pub enum OutArg {
    /// Sent with tag `i`.
    Int(i32),
    /// Sent with tag `f`, as the single-precision number equal to this
    /// whole number.
    Float(u8),
}

/// Type tag of a 32-bit integer argument.
pub const TAG_INT: u8 = 0x69;

/// Type tag of a single-precision argument.
pub const TAG_FLOAT: u8 = 0x66;

/// Type tag of a string argument.
pub const TAG_STRING: u8 = 0x73;

/// Type tag of the argument "true", which takes no bytes.
pub const TAG_TRUE: u8 = 0x54;

/// Type tag of the argument "false", which takes no bytes.
pub const TAG_FALSE: u8 = 0x46;

/// Type tag of the argument "nil", which takes no bytes.
pub const TAG_NIL: u8 = 0x4E;

/// The comma that opens a type tag string.
pub const TAG_LEAD: u8 = 0x2C;

/// Index of the first zero byte of `bytes` at or after `from`; the length
/// of `bytes` where there is none.
pub open spec fn first_nul(bytes: Seq<u8>, from: int) -> int
    decreases bytes.len() - from,
{
    if from >= bytes.len() {
        bytes.len() as int
    } else if bytes[from] == 0 {
        from
    } else {
        first_nul(bytes, from + 1)
    }
}

/// Where the string that starts at `from` ends, padding included: behind
/// its terminating zero and as many further bytes as bring its length to a
/// multiple of four. `None` where no zero byte follows or the padding runs
/// past the end of `bytes`.
pub open spec fn string_end(bytes: Seq<u8>, from: int) -> Option<int> {
    let nul = first_nul(bytes, from);
    let used = nul + 1 - from;
    let end = if used % 4 == 0 {
        nul + 1
    } else {
        nul + 1 + (4 - used % 4)
    };
    if nul < bytes.len() && end <= bytes.len() {
        Some(end)
    } else {
        None
    }
}

/// Whether every type tag in `bytes[tag..tag_end]` is a known one and the
/// bytes of the arguments they announce are all there, the first of them at
/// `at`.
pub open spec fn arguments_present(bytes: Seq<u8>, tag: int, tag_end: int, at: int) -> bool
    decreases tag_end - tag,
{
    if tag >= tag_end {
        true
    } else if bytes[tag] == TAG_TRUE || bytes[tag] == TAG_FALSE || bytes[tag] == TAG_NIL {
        arguments_present(bytes, tag + 1, tag_end, at)
    } else if bytes[tag] == TAG_INT || bytes[tag] == TAG_FLOAT {
        at + 4 <= bytes.len() && arguments_present(bytes, tag + 1, tag_end, at + 4)
    } else if bytes[tag] == TAG_STRING {
        match string_end(bytes, at) {
            Some(end) => arguments_present(bytes, tag + 1, tag_end, end),
            None => false,
        }
    } else {
        false
    }
}

/// Whether `bytes` has the frame of an OSC message: a padded address
/// string, a padded type tag string that opens with a comma, and behind
/// them the bytes of every argument that the tags announce.
pub open spec fn datagram_framed(bytes: Seq<u8>) -> bool {
    match string_end(bytes, 0) {
        None => false,
        Some(tags) => match string_end(bytes, tags) {
            None => false,
            Some(arguments) => {
                &&& tags < first_nul(bytes, tags)
                &&& bytes[tags] == TAG_LEAD
                &&& arguments_present(bytes, tags + 1, first_nul(bytes, tags), arguments)
            },
        },
    }
}

/// Finds the first zero byte at or after `from`.
fn find_nul(bytes: &[u8], from: usize) -> (nul: usize)
    requires
        from <= bytes@.len(),
    ensures
        nul == first_nul(bytes@, from as int),
        from <= nul <= bytes@.len(),
{
    let mut i: usize = from;
    while i < bytes.len() && bytes[i] != 0
        invariant
            from <= i <= bytes@.len(),
            first_nul(bytes@, i as int) == first_nul(bytes@, from as int),
        decreases bytes@.len() - i,
    {
        i += 1;
    }
    i
}

/// Finds the end of the padded string that starts at `from`.
fn find_string_end(bytes: &[u8], from: usize) -> (end: Option<usize>)
    requires
        from <= bytes@.len(),
    ensures
        match end {
            Some(e) => string_end(bytes@, from as int) == Some(e as int) && from < e
                <= bytes@.len(),
            None => string_end(bytes@, from as int) is None,
        },
{
    let nul: usize = find_nul(bytes, from);
    if nul >= bytes.len() {
        return None;
    }
    let used: usize = nul + 1 - from;
    let pad: usize = if used % 4 == 0 {
        0
    } else {
        4 - used % 4
    };
    if pad > bytes.len() - (nul + 1) {
        return None;
    }
    Some(nul + 1 + pad)
}

/// Decides whether `bytes` has the frame of an OSC message.
pub fn check_framing(bytes: &[u8]) -> (framed: bool)
    ensures
        framed == datagram_framed(bytes@),
{
    let tags: usize = match find_string_end(bytes, 0) {
        Some(end) => end,
        None => { return false; },
    };
    let arguments: usize = match find_string_end(bytes, tags) {
        Some(end) => end,
        None => { return false; },
    };
    let tag_end: usize = find_nul(bytes, tags);
    if tag_end <= tags || bytes[tags] != TAG_LEAD {
        return false;
    }
    let mut tag: usize = tags + 1;
    let mut at: usize = arguments;
    while tag < tag_end
        invariant
            tags < tag <= tag_end < bytes@.len(),
            at <= bytes@.len(),
            string_end(bytes@, 0) == Some(tags as int),
            string_end(bytes@, tags as int) == Some(arguments as int),
            first_nul(bytes@, tags as int) == tag_end,
            bytes@[tags as int] == TAG_LEAD,
            arguments_present(bytes@, tag as int, tag_end as int, at as int) == arguments_present(
                bytes@,
                tags + 1,
                tag_end as int,
                arguments as int,
            ),
        decreases tag_end - tag,
    {
        let t: u8 = bytes[tag];
        if t == TAG_TRUE || t == TAG_FALSE || t == TAG_NIL {
        } else if t == TAG_INT || t == TAG_FLOAT {
            if bytes.len() - at < 4 {
                return false;
            }
            at += 4;
        } else if t == TAG_STRING {
            match find_string_end(bytes, at) {
                Some(end) => { at = end; },
                None => { return false; },
            }
        } else {
            return false;
        }
        tag += 1;
    }
    true
}

/// What `tinyosc` reads out of a datagram: the address and the arguments,
/// or `None` where it reports that the datagram cannot be decoded.
pub uninterp spec fn osc_decoding(bytes: Seq<u8>) -> Option<(Seq<char>, Seq<OscArg>)>;

/// Decodes a datagram with `tinyosc::Message::deserialize`.
///
/// Not proved: that the result is a function of the bytes, named
/// [`osc_decoding`]. The call indexes into the datagram without looking at
/// its length and would panic on a truncated one, so it asks for the frame
/// that [`check_framing`] tests. A single-precision argument comes back as
/// its bit pattern, a string argument without its text.
#[verifier::external_body]
pub(crate) fn decode_datagram(bytes: &[u8]) -> (decoded: Option<OscMessage>)
    requires
        datagram_framed(bytes@),
    ensures
        match osc_decoding(bytes@) {
            Some((path, arguments)) => decoded matches Some(m) && m.path@ == path && m.arguments@
                == arguments,
            None => decoded is None,
        },
{
    let msg = tinyosc::Message::deserialize(bytes).ok()?;
    let mut arguments = Vec::new();
    for arg in msg.arguments.iter() {
        arguments.push(match *arg {
            tinyosc::Argument::i(v) => OscArg::Int(v),
            tinyosc::Argument::f(v) => OscArg::Float(v.to_bits()),
            tinyosc::Argument::s(_) => OscArg::Text,
            tinyosc::Argument::T => OscArg::True,
            tinyosc::Argument::F => OscArg::False,
            tinyosc::Argument::None => OscArg::Nil,
        });
    }
    Some(OscMessage { path: msg.path.to_string(), arguments })
}

/// The datagram that `tinyosc` writes for a message with this address and
/// these arguments, or `None` where it reports that it cannot write one.
pub uninterp spec fn osc_encoding(path: Seq<char>, arguments: Seq<OutArg>) -> Option<Seq<u8>>;

/// Encodes a message with `tinyosc::Message::serialize`.
///
/// Not proved: that the datagram is a function of the address and the
/// arguments, named [`osc_encoding`].
#[verifier::external_body]
pub(crate) fn encode_message(path: &str, arguments: &Vec<OutArg>) -> (datagram: Option<Vec<u8>>)
    ensures
        match osc_encoding(path@, arguments@) {
            Some(bytes) => datagram matches Some(d) && d@ == bytes,
            None => datagram is None,
        },
{
    let mut converted = Vec::new();
    for arg in arguments.iter() {
        converted.push(match *arg {
            OutArg::Int(v) => tinyosc::Argument::i(v),
            OutArg::Float(v) => tinyosc::Argument::f(v.into()),
        });
    }
    tinyosc::Message { path, arguments: converted }.serialize().ok()
}

} // verus!
