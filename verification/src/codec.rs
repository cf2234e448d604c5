//! Length-prefixed framing of MessagePack payloads.
//!
//! A frame is the payload's length in four bytes, most significant first,
//! followed by the payload. What turns a value into a payload and back is
//! handed in, so that framing is independent of the payload's type.

use vstd::prelude::*;
use vstd::string::*;

use crate::bytes::{put_be32, read_be32};
use crate::text::dec_u64;
#[allow(unused_imports)]
use crate::bytes::{be32, be32_round_trip, be32_value};
#[allow(unused_imports)]
use crate::text::decimal;

verus! {

/// Hard cap on the payload of one frame: large enough for a full-desktop PNG
/// screenshot, small enough to keep a misbehaving peer from exhausting memory.
pub const MAX_FRAME_SIZE: usize = 20_971_520;

/// Length of the prefix.
pub const HEADER_LEN: usize = 4;

/// Why a value could not be framed.
#[derive(Debug)]
pub enum EncodeError {
    /// The value could not be serialised.
    Msgpack(String),
    /// The payload is longer than [`MAX_FRAME_SIZE`].
    TooLarge { actual: usize },
}

/// Why a frame could not be read.
#[derive(Debug)]
pub enum DecodeError {
    /// The payload is no serialised value of the type asked for.
    Msgpack(String),
    /// The prefix announces more than [`MAX_FRAME_SIZE`] bytes.
    TooLarge(usize),
    /// The number of bytes is not the one that the prefix calls for.
    Truncated { need: usize, have: usize },
}

impl EncodeError {
    /// The text of [`EncodeError::message`].
    pub open spec fn text(&self) -> Seq<char> {
        match self {
            EncodeError::Msgpack(e) => "msgpack encode: "@ + e@,
            EncodeError::TooLarge { actual } => "frame exceeds "@ + decimal(MAX_FRAME_SIZE as int)
                + " bytes ("@ + decimal(*actual as int) + ")"@,
        }
    }

    /// Describes the error.
    pub fn message(&self) -> (r: String)
        ensures
            r@ == self.text(),
    {
        match self {
            EncodeError::Msgpack(e) => {
                let mut s: String = String::from_str("msgpack encode: ");
                s.append(e.as_str());
                s
            },
            EncodeError::TooLarge { actual } => {
                let mut s: String = String::from_str("frame exceeds ");
                s.append(dec_u64(MAX_FRAME_SIZE as u64).as_str());
                s.append(" bytes (");
                s.append(dec_u64(*actual as u64).as_str());
                s.append(")");
                s
            },
        }
    }
}

impl DecodeError {
    /// The text of [`DecodeError::message`].
    pub open spec fn text(&self) -> Seq<char> {
        match self {
            DecodeError::Msgpack(e) => "msgpack decode: "@ + e@,
            DecodeError::TooLarge(len) => "frame length "@ + decimal(*len as int) + " exceeds "@
                + decimal(MAX_FRAME_SIZE as int),
            DecodeError::Truncated { need, have } => "frame truncated: need "@ + decimal(
                *need as int,
            ) + " bytes, got "@ + decimal(*have as int),
        }
    }

    /// Describes the error.
    pub fn message(&self) -> (r: String)
        ensures
            r@ == self.text(),
    {
        match self {
            DecodeError::Msgpack(e) => {
                let mut s: String = String::from_str("msgpack decode: ");
                s.append(e.as_str());
                s
            },
            DecodeError::TooLarge(len) => {
                let mut s: String = String::from_str("frame length ");
                s.append(dec_u64(*len as u64).as_str());
                s.append(" exceeds ");
                s.append(dec_u64(MAX_FRAME_SIZE as u64).as_str());
                s
            },
            DecodeError::Truncated { need, have } => {
                let mut s: String = String::from_str("frame truncated: need ");
                s.append(dec_u64(*need as u64).as_str());
                s.append(" bytes, got ");
                s.append(dec_u64(*have as u64).as_str());
                s
            },
        }
    }
}

/// The frame of a payload.
pub open spec fn framed(payload: Seq<u8>) -> Seq<u8> {
    be32(payload.len() as u32) + payload
}

/// What a sequence of bytes holds when it is read as exactly one frame.
pub open spec fn unframed(bytes: Seq<u8>) -> Result<Seq<u8>, DecodeError> {
    if bytes.len() < HEADER_LEN {
        Err(DecodeError::Truncated { need: HEADER_LEN, have: bytes.len() as usize })
    } else if be32_value(bytes) > MAX_FRAME_SIZE {
        Err(DecodeError::TooLarge(be32_value(bytes) as usize))
    } else if bytes.len() != HEADER_LEN + be32_value(bytes) {
        Err(
            DecodeError::Truncated {
                need: (HEADER_LEN + be32_value(bytes)) as usize,
                have: bytes.len() as usize,
            },
        )
    } else {
        Ok(bytes.subrange(HEADER_LEN as int, bytes.len() as int))
    }
}

/// The payload length that a prefix announces, where it is admissible.
pub fn frame_len(header: &[u8]) -> (r: Result<usize, DecodeError>)
    requires
        header@.len() >= HEADER_LEN,
    ensures
        r == if be32_value(header@) > MAX_FRAME_SIZE {
            Err::<usize, DecodeError>(DecodeError::TooLarge(be32_value(header@) as usize))
        } else {
            Ok(be32_value(header@) as usize)
        },
{
    let len: usize = read_be32(header) as usize;
    if len > MAX_FRAME_SIZE {
        return Err(DecodeError::TooLarge(len));
    }
    Ok(len)
}

/// Appends the frame of `value` to `out`. `to_msgpack` serialises the value. On
/// an error nothing is appended.
pub fn encode_frame<T, F: FnOnce(&T) -> Result<Vec<u8>, String>>(
    value: &T,
    to_msgpack: F,
    out: &mut Vec<u8>,
) -> (r: Result<(), EncodeError>)
    requires
        call_requires(to_msgpack, (value,)),
    ensures
        exists|encoded: Result<Vec<u8>, String>| #[trigger]
            call_ensures(to_msgpack, (value,), encoded) && match encoded {
                Ok(payload) => if payload@.len() <= MAX_FRAME_SIZE {
                    r == Ok::<(), EncodeError>(()) && final(out)@ == old(out)@ + framed(payload@)
                } else {
                    r == Err::<(), EncodeError>(
                        EncodeError::TooLarge { actual: payload@.len() as usize },
                    ) && final(out)@ == old(out)@
                },
                Err(e) => r == Err::<(), EncodeError>(EncodeError::Msgpack(e)) && final(out)@
                    == old(out)@,
            },
{
    match to_msgpack(value) {
        Err(e) => Err(EncodeError::Msgpack(e)),
        Ok(payload) => {
            let len: usize = payload.len();
            if len > MAX_FRAME_SIZE {
                return Err(EncodeError::TooLarge { actual: len });
            }
            let mut payload = payload;
            put_be32(out, len as u32);
            out.append(&mut payload);
            Ok(())
        },
    }
}

/// Reads `bytes` as exactly one frame. `from_msgpack` parses the payload.
pub fn decode_frame<T, F: FnOnce(&[u8]) -> Result<T, String>>(
    bytes: &[u8],
    from_msgpack: F,
) -> (r: Result<T, DecodeError>)
    requires
        forall|payload: &[u8]| #[trigger] call_requires(from_msgpack, (payload,)),
    ensures
        match unframed(bytes@) {
            Err(e) => r == Err::<T, DecodeError>(e),
            Ok(payload) => exists|slice: &[u8], parsed: Result<T, String>| #[trigger]
                call_ensures(from_msgpack, (slice,), parsed) && slice@ == payload && r
                    == match parsed {
                    Ok(v) => Ok::<T, DecodeError>(v),
                    Err(e) => Err(DecodeError::Msgpack(e)),
                },
        },
{
    let have: usize = bytes.len();
    if have < HEADER_LEN {
        return Err(DecodeError::Truncated { need: HEADER_LEN, have });
    }
    let len: usize = match frame_len(bytes) {
        Err(e) => return Err(e),
        Ok(len) => len,
    };
    if have != HEADER_LEN + len {
        return Err(DecodeError::Truncated { need: HEADER_LEN + len, have });
    }
    match from_msgpack(&bytes[HEADER_LEN..have]) {
        Ok(v) => Ok(v),
        Err(e) => Err(DecodeError::Msgpack(e)),
    }
}

/// Reading a frame gives back the payload that was framed.
pub proof fn reading_gives_back_what_was_framed(payload: Seq<u8>)
    requires
        payload.len() <= MAX_FRAME_SIZE,
    ensures
        unframed(framed(payload)) == Ok::<Seq<u8>, DecodeError>(payload),
{
    let f = framed(payload);
    be32_round_trip(payload.len() as u32, f);
    assert(be32_value(f) == be32_value(be32(payload.len() as u32)));
    assert(f.subrange(HEADER_LEN as int, f.len() as int) =~= payload);
}

/// Bytes that read as a frame are the frame of what was read: there is one
/// frame for each payload.
pub proof fn frames_are_unique(bytes: Seq<u8>)
    requires
        unframed(bytes) is Ok,
    ensures
        bytes == framed(unframed(bytes)->Ok_0),
        unframed(bytes)->Ok_0.len() <= MAX_FRAME_SIZE,
{
    let payload = unframed(bytes)->Ok_0;
    be32_round_trip(0, bytes.subrange(0, HEADER_LEN as int));
    assert(be32_value(bytes.subrange(0, HEADER_LEN as int)) == be32_value(bytes));
    assert(bytes =~= framed(payload));
}

/// A frame with bytes missing at its end, or with bytes after it, is refused,
/// and the error tells how many bytes were wanted.
pub proof fn frames_of_other_lengths_are_refused(payload: Seq<u8>, bytes: Seq<u8>)
    requires
        payload.len() <= MAX_FRAME_SIZE,
        bytes.len() >= HEADER_LEN,
        bytes.len() != framed(payload).len(),
        bytes.subrange(0, HEADER_LEN as int) == framed(payload).subrange(0, HEADER_LEN as int),
    ensures
        unframed(bytes) == Err::<Seq<u8>, DecodeError>(
            DecodeError::Truncated {
                need: framed(payload).len() as usize,
                have: bytes.len() as usize,
            },
        ),
{
    let head = bytes.subrange(0, HEADER_LEN as int);
    be32_round_trip(payload.len() as u32, head);
    assert(head =~= be32(payload.len() as u32));
    assert(be32_value(head) == be32_value(bytes));
}

/// A frame is the payload behind four bytes that add up to its length, the first
/// of them worth most.
pub proof fn frames_start_with_their_length(payload: Seq<u8>, i: int)
    requires
        payload.len() <= 20 * 1024 * 1024,
    ensures
        framed(payload).len() == payload.len() + 4,
        framed(payload)[0] * 0x100_0000 + framed(payload)[1] * 0x1_0000 + framed(payload)[2] * 0x100
            + framed(payload)[3] == payload.len(),
        0 <= i < payload.len() ==> framed(payload)[4 + i] == payload[i],
{
}

/// Bytes are one frame exactly where their first four announce at most twenty
/// mebibytes and exactly as many bytes follow; the payload is what follows. An
/// announcement above the limit is refused as too large however many bytes follow,
/// and any other mismatch as truncated.
pub proof fn frames_are_as_long_as_they_say(bytes: Seq<u8>, i: int)
    requires
        bytes.len() <= usize::MAX,
    ensures
        ({
            let n = bytes[0] * 0x100_0000 + bytes[1] * 0x1_0000 + bytes[2] * 0x100 + bytes[3];
            &&& unframed(bytes) is Ok <==> bytes.len() >= 4 && n <= 20 * 1024 * 1024 && bytes.len()
                == 4 + n
            &&& unframed(bytes) matches Ok(p) ==> p.len() == n && (0 <= i < n ==> p[i] == bytes[4
                + i])
            &&& bytes.len() >= 4 && n > 20 * 1024 * 1024 ==> (unframed(bytes) matches Err(
                DecodeError::TooLarge(k),
            ) && k == n)
            &&& bytes.len() >= 4 && n <= 20 * 1024 * 1024 && bytes.len() != 4 + n ==> (unframed(
                bytes,
            ) matches Err(DecodeError::Truncated { need, have }) && need == 4 + n && have
                == bytes.len())
            &&& bytes.len() < 4 ==> (unframed(bytes) matches Err(
                DecodeError::Truncated { need, have },
            ) && need == 4 && have == bytes.len())
        }),
{
}

/// A value whose serialised form has at most twenty mebibytes is framed behind
/// what was there; any other leaves it as it was.
pub proof fn values_are_framed_behind_what_was_there<
    T,
    F: FnOnce(&T) -> Result<Vec<u8>, String>,
>(value: &T, to_msgpack: F, r: Result<(), EncodeError>)
    ensures
        forall|m: &mut Vec<u8>|
            #[trigger] call_ensures(encode_frame::<T, F>, (value, to_msgpack, m), r) ==> {
                &&& r is Err ==> final(m)@ == m@
                &&& r is Ok ==> exists|payload: Vec<u8>| #[trigger]
                    call_ensures(
                        to_msgpack,
                        (value,),
                        Ok::<Vec<u8>, String>(payload),
                    ) && payload@.len() <= 20 * 1024 * 1024 && final(m)@ == m@ + framed(payload@)
            },
{
}

/// The length that a prefix announces is the sum of its four bytes, the first of
/// them worth most, and is admitted up to twenty mebibytes.
pub proof fn prefixes_announce_up_to_the_limit(header: &[u8], r: Result<usize, DecodeError>)
    requires
        header@.len() >= 4,
        call_ensures(frame_len, (header,), r),
    ensures
        ({
            let n = header@[0] * 0x100_0000 + header@[1] * 0x1_0000 + header@[2] * 0x100
                + header@[3];
            &&& n <= 20 * 1024 * 1024 ==> (r matches Ok(k) && k == n)
            &&& n > 20 * 1024 * 1024 ==> r is Err
        }),
{
}

/// What is no frame is refused with the reason, before its payload is looked at;
/// what is one is answered with what its payload parses as.
pub proof fn frames_are_parsed_after_they_are_checked<
    T,
    F: FnOnce(&[u8]) -> Result<T, String>,
>(bytes: &[u8], from_msgpack: F, r: Result<T, DecodeError>)
    requires
        call_ensures(decode_frame::<T, F>, (bytes, from_msgpack), r),
    ensures
        unframed(bytes@) matches Err(e) ==> r == Err::<T, DecodeError>(e),
        unframed(bytes@) matches Ok(payload) ==> exists|slice: &[u8], parsed: Result<T, String>|
            #[trigger]
            call_ensures(from_msgpack, (slice,), parsed) && slice@ == payload && (parsed matches Ok(
                v,
            ) ==> r == Ok::<T, DecodeError>(v)) && (parsed matches Err(e) ==> r == Err::<
                T,
                DecodeError,
            >(DecodeError::Msgpack(e))),
{
}

/// What the messages of the codec's errors say: the limit, and the lengths in the
/// order of the sentence.
pub proof fn messages_name_the_lengths(
    text: String,
    actual: usize,
    announced: usize,
    need: usize,
    have: usize,
    a: String,
    b: String,
    c: String,
    d: String,
    e: String,
)
    requires
        call_ensures(EncodeError::message, (&EncodeError::Msgpack(text),), a),
        call_ensures(EncodeError::message, (&EncodeError::TooLarge { actual },), b),
        call_ensures(DecodeError::message, (&DecodeError::Msgpack(text),), c),
        call_ensures(DecodeError::message, (&DecodeError::TooLarge(announced),), d),
        call_ensures(DecodeError::message, (&DecodeError::Truncated { need, have },), e),
    ensures
        a@ == "msgpack encode: "@ + text@,
        b@ == "frame exceeds "@ + decimal(20_971_520) + " bytes ("@ + decimal(actual as int) + ")"@,
        c@ == "msgpack decode: "@ + text@,
        d@ == "frame length "@ + decimal(announced as int) + " exceeds "@ + decimal(20_971_520),
        e@ == "frame truncated: need "@ + decimal(need as int) + " bytes, got "@ + decimal(
            have as int,
        ),
{
}

} // verus!
