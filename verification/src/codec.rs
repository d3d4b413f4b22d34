//! The payload codec: both endpoints agree on one fixed binary encoding of
//! items, so a frame's payload decodes to exactly the item that was sent.
//! The encoding itself is done by an outside serializer; the library states
//! its round trip and builds the channel's guarantees on it.

use vstd::prelude::*;

verus! {

/// The byte form the binary serializer gives a string: a function of the
/// characters alone.
pub uninterp spec fn string_wire(s: Seq<char>) -> Seq<u8>;

/// What the binary deserializer makes of a byte string: the characters it
/// yields, or `None` where it reports an error. A function of the bytes
/// alone.
pub uninterp spec fn string_decoded(b: Seq<u8>) -> Option<Seq<char>>;

/// Relies on bincode::serialize: the encoding of a `String` is deterministic
/// and cannot fail — an eight-byte little-endian length, then the text in
/// UTF-8, which takes at most four bytes per character; deserializing the
/// result gives back exactly the serialized string (the documented round
/// trip).
#[verifier::external_body]
fn string_to_wire(s: &String) -> (r: Vec<u8>)
    ensures
        r@ == string_wire(s@),
        r@.len() <= 8 + 4 * s@.len(),
        string_decoded(r@) == Some(s@),
{
    bincode::serialize(s).expect("serializing a string cannot fail")
}

/// Relies on bincode::deserialize: the result is a function of the bytes
/// alone, and every failure is a returned error, never a panic.
#[verifier::external_body]
fn string_from_wire(b: &Vec<u8>) -> (r: Option<String>)
    ensures
        match r {
            Some(v) => string_decoded(b@) == Some(v@),
            None => string_decoded(b@) is None,
        },
{
    bincode::deserialize(b.as_slice()).ok()
}

/// An item that can cross the channel: its model is its text, its wire form
/// is a function of that text with a bounded length, and decoding is the
/// codec's fixed partial inverse, which on any item's wire form yields that
/// item's text back.
pub trait WireItem: View<V = Seq<char>> + Sized {
    /// The bytes that encode an item with this text.
    spec fn wire_of(v: Seq<char>) -> Seq<u8>;

    /// What the codec decodes a byte string to, if anything.
    spec fn decoded(b: Seq<u8>) -> Option<Seq<char>>;

    /// Encodes the item for the wire: the bytes are its wire form, take no
    /// more than eight bytes of length and four per character, and decode
    /// back to exactly this item's text.
    fn to_wire(&self) -> (r: Vec<u8>)
        ensures
            r@ == Self::wire_of(self@),
            r@.len() <= 8 + 4 * self@.len(),
            Self::decoded(r@) == Some(self@),
    ;

    /// Decodes a frame's payload: an item exactly when the codec decodes the
    /// bytes, `None` exactly when it does not.
    fn from_wire(b: &Vec<u8>) -> (r: Option<Self>)
        ensures
            match r {
                Some(w) => Self::decoded(b@) == Some(w@),
                None => Self::decoded(b@) is None,
            },
    ;
}

impl WireItem for String {
    open spec fn wire_of(v: Seq<char>) -> Seq<u8> {
        string_wire(v)
    }

    open spec fn decoded(b: Seq<u8>) -> Option<Seq<char>> {
        string_decoded(b)
    }

    fn to_wire(&self) -> (r: Vec<u8>) {
        string_to_wire(self)
    }

    fn from_wire(b: &Vec<u8>) -> (r: Option<String>) {
        string_from_wire(b)
    }
}

/// The codec's round trip, stated of every item: encoding an item and
/// decoding the result always succeeds and gives back an item with exactly
/// the sent item's model.
pub fn round_trip<T: WireItem>(item: &T) -> (r: Option<T>)
    ensures
        r matches Some(w) && w@ == item@,
{
    let b = item.to_wire();
    T::from_wire(&b)
}

/// A request message: one line of text.
#[derive(Debug, PartialEq, Eq)]
pub struct Request(pub String);

/// A response message: one line of text.
#[derive(Debug, PartialEq, Eq)]
pub struct Response(pub String);

impl View for Request {
    type V = Seq<char>;

    open spec fn view(&self) -> Seq<char> {
        self.0@
    }
}

impl View for Response {
    type V = Seq<char>;

    open spec fn view(&self) -> Seq<char> {
        self.0@
    }
}

impl WireItem for Request {
    open spec fn wire_of(v: Seq<char>) -> Seq<u8> {
        string_wire(v)
    }

    open spec fn decoded(b: Seq<u8>) -> Option<Seq<char>> {
        string_decoded(b)
    }

    fn to_wire(&self) -> (r: Vec<u8>) {
        string_to_wire(&self.0)
    }

    fn from_wire(b: &Vec<u8>) -> (r: Option<Request>) {
        match string_from_wire(b) {
            Some(s) => Some(Request(s)),
            None => None,
        }
    }
}

impl WireItem for Response {
    open spec fn wire_of(v: Seq<char>) -> Seq<u8> {
        string_wire(v)
    }

    open spec fn decoded(b: Seq<u8>) -> Option<Seq<char>> {
        string_decoded(b)
    }

    fn to_wire(&self) -> (r: Vec<u8>) {
        string_to_wire(&self.0)
    }

    fn from_wire(b: &Vec<u8>) -> (r: Option<Response>) {
        match string_from_wire(b) {
            Some(s) => Some(Response(s)),
            None => None,
        }
    }
}

} // verus!
