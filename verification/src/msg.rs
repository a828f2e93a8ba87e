//! Messages of the display server, and their byte layout on the wire.
use vstd::prelude::*;
use vstd::slice::slice_subrange;
use crate::le::{i16_le, i16_of_le, push_i16_le, push_u32_le, u32_le, u32_of_le};
use crate::le::{lemma_i16_le_round_trip, lemma_u32_le_round_trip};

verus! {

/// Reads a little-endian `u32` from four bytes.
pub fn read_u32(bytes: &[u8]) -> (x: u32)
    requires
        bytes@.len() == 4,
    ensures
        x == u32_of_le(bytes@),
{
    let b0 = bytes[0] as u32;
    let b1 = bytes[1] as u32;
    let b2 = bytes[2] as u32;
    let b3 = bytes[3] as u32;
    b0 + b1 * 256 + b2 * 65536 + b3 * 16777216
}

/// Reads a little-endian `i16` in two's complement from two bytes.
pub fn read_i16(bytes: &[u8]) -> (x: i16)
    requires
        bytes@.len() == 2,
    ensures
        x == i16_of_le(bytes@),
{
    let u: i32 = bytes[0] as i32 + bytes[1] as i32 * 256;
    if u >= 32768 {
        (u - 65536) as i16
    } else {
        u as i16
    }
}

/// What the display server tells the terminal.
#[derive(Clone, Copy, Debug, PartialEq, Eq)]
pub enum ServerMsg {
    /// A character was typed: its code point.
    Getch(u32),
    /// The window has a new size: columns, rows.
    Resized([i16; 2]),
    /// A special key went down or up: its two-byte code.
    Skey([u8; 2]),
}

/// Why a run of bytes is no sequence of messages.
#[derive(Clone, Copy, Debug, PartialEq, Eq, Structural)]
pub enum DecodeError {
    /// A record starts with a tag that no message has.
    UnknownTag(u8),
    /// The bytes end in the middle of a record.
    Truncated,
}

/// Length of the record that starts with `tag`, the tag counted.
pub open spec fn record_len(tag: u8) -> int {
    if tag == 2 {
        3
    } else {
        5
    }
}

impl ServerMsg {
    /// The record of the message: its tag, then its payload.
    pub open spec fn spec_encode(self) -> Seq<u8> {
        match self {
            ServerMsg::Getch(ch) => seq![0u8] + u32_le(ch),
            ServerMsg::Resized(size) => seq![1u8] + i16_le(size[0]) + i16_le(size[1]),
            ServerMsg::Skey(code) => seq![2u8, code[0], code[1]],
        }
    }

    /// The record of the message.
    pub fn encode(&self) -> (out: Vec<u8>)
        ensures
            out@ == self.spec_encode(),
    {
        let mut out: Vec<u8> = Vec::new();
        match self {
            ServerMsg::Getch(ch) => {
                out.push(0);
                push_u32_le(&mut out, *ch);
            },
            ServerMsg::Resized(size) => {
                out.push(1);
                push_i16_le(&mut out, size[0]);
                push_i16_le(&mut out, size[1]);
            },
            ServerMsg::Skey(code) => {
                out.push(2);
                out.push(code[0]);
                out.push(code[1]);
            },
        }
        out
    }
}

/// The records of `msgs`, one after the other.
pub open spec fn encode_all(msgs: Seq<ServerMsg>) -> Seq<u8>
    decreases msgs.len(),
{
    if msgs.len() == 0 {
        Seq::empty()
    } else {
        msgs[0].spec_encode() + encode_all(msgs.skip(1))
    }
}

/// The message of the record at the start of `s`.
pub open spec fn decode_record(s: Seq<u8>) -> ServerMsg
    recommends
        s.len() > 0,
        s[0] <= 2,
        s.len() >= record_len(s[0]),
{
    if s[0] == 0 {
        ServerMsg::Getch(u32_of_le(s.subrange(1, 5)))
    } else if s[0] == 1 {
        ServerMsg::Resized([i16_of_le(s.subrange(1, 3)), i16_of_le(s.subrange(3, 5))])
    } else {
        ServerMsg::Skey([s[1], s[2]])
    }
}

/// `msgs` put before what `rest` decoded to; an error stays what it is.
pub open spec fn prepend(msgs: Seq<ServerMsg>, rest: Result<Seq<ServerMsg>, DecodeError>) -> Result<
    Seq<ServerMsg>,
    DecodeError,
> {
    match rest {
        Ok(more) => Ok(msgs + more),
        Err(e) => Err(e),
    }
}

/// The messages that the records of `s` stand for. A record with a tag
/// other than 0, 1, 2 fails the whole of `s`, and so does one that the end
/// of `s` cuts short.
pub open spec fn decode(s: Seq<u8>) -> Result<Seq<ServerMsg>, DecodeError>
    decreases s.len(),
{
    if s.len() == 0 {
        Ok(Seq::empty())
    } else if s[0] > 2 {
        Err(DecodeError::UnknownTag(s[0]))
    } else if s.len() < record_len(s[0]) {
        Err(DecodeError::Truncated)
    } else {
        prepend(seq![decode_record(s)], decode(s.skip(record_len(s[0]))))
    }
}

/// How far into `s` decoding gets: past every whole record, and past the
/// tag of the one that is wrong.
pub open spec fn decode_end(s: Seq<u8>) -> int
    decreases s.len(),
{
    if s.len() == 0 {
        0
    } else if s[0] > 2 || s.len() < record_len(s[0]) {
        1
    } else {
        record_len(s[0]) + decode_end(s.skip(record_len(s[0])))
    }
}

/// The bytes of `buf` from `offset` on; none where `offset` is past its end.
pub open spec fn tail(buf: Seq<u8>, offset: int) -> Seq<u8> {
    if 0 <= offset <= buf.len() {
        buf.skip(offset)
    } else {
        Seq::empty()
    }
}

/// Decoding that succeeds has read every byte.
pub proof fn lemma_decode_ok_reads_all(s: Seq<u8>)
    ensures
        decode(s) is Ok ==> decode_end(s) == s.len(),
        decode_end(s) <= s.len(),
    decreases s.len(),
{
    if s.len() > 0 && s[0] <= 2 && s.len() >= record_len(s[0]) {
        lemma_decode_ok_reads_all(s.skip(record_len(s[0])));
    }
}

impl ServerMsg {
    /// Decodes the records of `buf` from `*offset` on, and moves `*offset`
    /// as far as decoding got.
    pub fn from_buf(buf: &[u8], offset: &mut usize) -> (r: Result<Vec<ServerMsg>, DecodeError>)
        ensures
            match r {
                Ok(msgs) => decode(tail(buf@, *old(offset) as int)) == Ok::<
                    Seq<ServerMsg>,
                    DecodeError,
                >(msgs@),
                Err(e) => decode(tail(buf@, *old(offset) as int)) == Err::<
                    Seq<ServerMsg>,
                    DecodeError,
                >(e),
            },
            *final(offset) == *old(offset) + decode_end(tail(buf@, *old(offset) as int)),
            r is Ok && *old(offset) <= buf@.len() ==> *final(offset) == buf@.len(),
    {
        let ghost start = tail(buf@, *offset as int);
        proof {
            lemma_decode_ok_reads_all(start);
        }
        let mut result: Vec<ServerMsg> = Vec::new();
        while *offset < buf.len()
            invariant
                start == tail(buf@, *old(offset) as int),
                *old(offset) <= *offset,
                *offset <= buf@.len() || *offset == *old(offset),
                decode(start) == prepend(result@, decode(tail(buf@, *offset as int))),
                *old(offset) + decode_end(start) == *offset + decode_end(
                    tail(buf@, *offset as int),
                ),
            decreases buf@.len() - *offset,
        {
            let ghost s = tail(buf@, *offset as int);
            let ghost before = result@;
            let b0 = buf[*offset];
            *offset += 1;
            if b0 > 2 {
                return Err(DecodeError::UnknownTag(b0));
            }
            let need: usize = if b0 == 2 { 2 } else { 4 };
            if buf.len() - *offset < need {
                return Err(DecodeError::Truncated);
            }
            let msg = if b0 == 0 {
                let ch = read_u32(slice_subrange(buf, *offset, *offset + 4));
                ServerMsg::Getch(ch)
            } else if b0 == 1 {
                let u1 = read_i16(slice_subrange(buf, *offset, *offset + 2));
                let u2 = read_i16(slice_subrange(buf, *offset + 2, *offset + 4));
                let size: [i16; 2] = [u1, u2];
                ServerMsg::Resized(size)
            } else {
                let b1 = buf[*offset];
                let b2 = buf[*offset + 1];
                let code: [u8; 2] = [b1, b2];
                ServerMsg::Skey(code)
            };
            *offset += need;
            result.push(msg);
            proof {
                let rest = tail(buf@, *offset as int);
                assert(rest =~= s.skip(record_len(b0)));
                match decode(rest) {
                    Ok(more) => {
                        assert(before + (seq![msg] + more) =~= result@ + more);
                    },
                    Err(_) => {},
                }
            }
        }
        Ok(result)
    }
}

/// Decoding the record of a message gives that message, and nothing else.
pub proof fn lemma_decode_encode(m: ServerMsg)
    ensures
        decode(m.spec_encode()) == Ok::<Seq<ServerMsg>, DecodeError>(seq![m]),
{
    lemma_decode_encode_all(seq![m]);
    assert(encode_all(seq![m]) =~= m.spec_encode()) by {
        assert(encode_all(seq![m].skip(1)) =~= Seq::<u8>::empty());
    }
}

/// Decoding the records of a sequence of messages gives the sequence back.
pub proof fn lemma_decode_encode_all(msgs: Seq<ServerMsg>)
    ensures
        decode(encode_all(msgs)) == Ok::<Seq<ServerMsg>, DecodeError>(msgs),
    decreases msgs.len(),
{
    if msgs.len() > 0 {
        let m = msgs[0];
        let rec = m.spec_encode();
        let s = encode_all(msgs);
        lemma_decode_encode_all(msgs.skip(1));
        match m {
            ServerMsg::Getch(ch) => {
                lemma_u32_le_round_trip(ch);
            },
            ServerMsg::Resized(size) => {
                lemma_i16_le_round_trip(size[0]);
                lemma_i16_le_round_trip(size[1]);
                assert(size =~= [size[0], size[1]]);
            },
            ServerMsg::Skey(code) => {
                assert(code =~= [code[0], code[1]]);
            },
        }
        assert(s.skip(rec.len() as int) =~= encode_all(msgs.skip(1)));
        assert(seq![m] + msgs.skip(1) =~= msgs);
    } else {
        assert(msgs =~= Seq::<ServerMsg>::empty());
    }
}

} // verus!
