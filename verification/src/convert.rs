use vstd::prelude::*;

verus! {

/// Why a payload could not be turned into the requested typed value. The
/// loader never surfaces this error: an item whose conversion fails is
/// simply dropped from the output.
#[derive(Clone, Copy, PartialEq, Eq, Structural, Debug)]
pub struct ConversionError;

/// The conversion capability a caller supplies to the loader: a pure,
/// fallible decoding of an entry's opaque value payload into `Self`.
///
/// `convertible` says exactly which payloads decode, and `converted` gives
/// the abstract value a successful decoding yields, so conversion is a
/// function of the payload bytes alone.
pub trait TryFromPayload: View + Sized {
    /// Which payloads this type accepts.
    spec fn convertible(payload: Seq<u8>) -> bool;

    /// The abstract value a successful conversion of `payload` yields.
    spec fn converted(payload: Seq<u8>) -> Self::V;

    /// Attempt the conversion; succeeds exactly on convertible payloads.
    fn try_convert(payload: &Vec<u8>) -> (r: Result<Self, ConversionError>)
        ensures
            r is Ok <==> Self::convertible(payload@),
            r matches Ok(v) ==> v@ == Self::converted(payload@),
    ;
}

/// A minimal application value for chat-style entries: it accepts any
/// payload that forms a braced document (first byte `{`, last byte `}`)
/// and keeps the raw bytes as the message body.
#[derive(Clone, Debug)]
pub struct Message {
    pub body: Vec<u8>,
}

impl View for Message {
    type V = Seq<u8>;

    open spec fn view(&self) -> Seq<u8> {
        self.body@
    }
}

/// Copy every byte of `src` into a fresh vector.
fn copied_bytes(src: &Vec<u8>) -> (r: Vec<u8>)
    ensures
        r@ == src@,
{
    let mut r: Vec<u8> = Vec::new();
    let mut i: usize = 0;
    while i < src.len()
        invariant
            i <= src.len(),
            r@ == src@.take(i as int),
        decreases src.len() - i,
    {
        r.push(src[i]);
        proof {
            assert(src@.take(i as int + 1) =~= src@.take(i as int).push(src@[i as int]));
        }
        i = i + 1;
    }
    proof {
        assert(src@.take(src@.len() as int) =~= src@);
    }
    r
}

impl TryFromPayload for Message {
    open spec fn convertible(payload: Seq<u8>) -> bool {
        payload.len() >= 2 && payload.first() == 123u8 && payload.last() == 125u8
    }

    open spec fn converted(payload: Seq<u8>) -> Seq<u8> {
        payload
    }

    fn try_convert(payload: &Vec<u8>) -> (r: Result<Self, ConversionError>) {
        if payload.len() >= 2 && payload[0] == 123u8 && payload[payload.len() - 1] == 125u8 {
            Ok(Message { body: copied_bytes(payload) })
        } else {
            Err(ConversionError)
        }
    }
}

} // verus!
