//! The one message this library sends: a MessagePack-RPC call
//! `[0, 1, "nvim_command", [command]]`, as bytes.

use rmpv::Value;
use vstd::prelude::*;
use vstd::string::*;
use vstd::utf8::*;

verus! {

/// Message type of a call (as opposed to a reply or a notification).
pub const CALL: u8 = 0;

/// The sequence number every call carries. No reply is ever read, so it is
/// never matched against anything.
pub const MSGID: u8 = 1;

/// One more than the longest string length a MessagePack header can hold.
pub open spec fn str_len_limit() -> nat {
    0x1_0000_0000
}

/// MessagePack encoding of an unsigned integer below 256: itself as a positive
/// fixint, or `0xcc` and the byte.
pub open spec fn uint8_encoding(n: u8) -> Seq<u8> {
    if n < 128 {
        seq![n]
    } else {
        seq![0xccu8, n]
    }
}

/// MessagePack header of a string whose data is `len` bytes long: the shortest
/// of fixstr, str 8, str 16 and str 32, lengths in big-endian order. The header
/// holds the length's low 32 bits.
pub open spec fn str_header(len: nat) -> Seq<u8> {
    let n = len % str_len_limit();
    if n < 32 {
        seq![(0xa0 + n) as u8]
    } else if n < 256 {
        seq![0xd9u8, n as u8]
    } else if n < 65536 {
        seq![0xdau8, (n / 256) as u8, (n % 256) as u8]
    } else {
        seq![
            0xdbu8,
            (n / 0x100_0000) as u8,
            (n / 0x1_0000 % 256) as u8,
            (n / 256 % 256) as u8,
            (n % 256) as u8,
        ]
    }
}

/// MessagePack encoding of a string: its header, then its UTF-8 bytes.
pub open spec fn str_encoding(text: Seq<char>) -> Seq<u8> {
    str_header(encode_utf8(text).len()) + encode_utf8(text)
}

/// MessagePack encoding of the array `[kind, msgid, method, [argument]]`.
pub open spec fn call_encoding(kind: u8, msgid: u8, method: Seq<char>, argument: Seq<char>) -> Seq<
    u8,
> {
    seq![0x94u8] + uint8_encoding(kind) + uint8_encoding(msgid) + str_encoding(method)
        + seq![0x91u8] + str_encoding(argument)
}

/// The bytes that open every call: the header of a four-element array, the
/// call tag, the sequence number, the method name `nvim_command` as a
/// twelve-byte fixstr, and the header of a one-element array.
pub open spec fn preamble() -> Seq<u8> {
    seq![
        0x94u8, 0x00u8, 0x01u8, 0xacu8,
        0x6eu8, 0x76u8, 0x69u8, 0x6du8, 0x5fu8, 0x63u8,
        0x6fu8, 0x6du8, 0x6du8, 0x61u8, 0x6eu8, 0x64u8,
        0x91u8,
    ]
}

/// The wire bytes of the call that runs `command`.
pub open spec fn request_bytes(command: Seq<char>) -> Seq<u8> {
    preamble() + str_encoding(command)
}

/// Calls `rmpv::encode::write_value` on the value
/// `Array[Integer(kind), Integer(msgid), String(method), Array[String(argument)]]`
/// with an empty vector as the writer, and returns the vector.
///
/// Trusted: the bytes are the array header `0x94`, the two integers in their
/// shortest unsigned form, the method as a string, the array header `0x91` and
/// the argument as a string, as `write_array_len`, `write_uint` and `write_str`
/// of `rmp` produce them. A write into a vector returns no error, so the
/// `expect` does not fire.
#[verifier::external_body]
fn write_call_value(kind: u8, msgid: u8, method: &str, argument: &str) -> (bytes: Vec<u8>)
    ensures
        bytes@ == call_encoding(kind, msgid, method@, argument@),
{
    let params = Value::Array(vec![Value::from(argument)]);
    let message = Value::Array(
        vec![Value::from(kind), Value::from(msgid), Value::from(method), params],
    );
    let mut bytes = Vec::new();
    rmpv::encode::write_value(&mut bytes, &message).expect("could not encode msgpack request");
    bytes
}

/// The UTF-8 bytes of the method name.
proof fn method_name_bytes()
    ensures
        str_encoding("nvim_command"@) == preamble().subrange(3, 16),
{
    reveal_strlit("nvim_command");
    let name = "nvim_command"@;
    assert(is_ascii_chars(name));
    is_ascii_chars_encode_utf8(name);
    let data = encode_utf8(name);
    assert(data.len() == 12);
    assert(data =~= preamble().subrange(4, 16)) by {
        assert(data[0] == name[0] as u8);
        assert(data[1] == name[1] as u8);
        assert(data[2] == name[2] as u8);
        assert(data[3] == name[3] as u8);
        assert(data[4] == name[4] as u8);
        assert(data[5] == name[5] as u8);
        assert(data[6] == name[6] as u8);
        assert(data[7] == name[7] as u8);
        assert(data[8] == name[8] as u8);
        assert(data[9] == name[9] as u8);
        assert(data[10] == name[10] as u8);
        assert(data[11] == name[11] as u8);
    }
    assert(str_header(12) =~= preamble().subrange(3, 4));
    assert(str_encoding(name) =~= preamble().subrange(3, 16));
}

/// A call with the fixed tag, sequence number and method is the preamble
/// followed by the command's string.
pub proof fn request_bytes_is_call(command: Seq<char>)
    ensures
        request_bytes(command) == call_encoding(CALL, MSGID, "nvim_command"@, command),
{
    method_name_bytes();
    let name = str_encoding("nvim_command"@);
    assert(seq![0x94u8] + uint8_encoding(CALL) + uint8_encoding(MSGID) + name + seq![0x91u8]
        =~= preamble());
    assert(request_bytes(command) =~= call_encoding(CALL, MSGID, "nvim_command"@, command));
}

/// A call message as a reader of the wire sees it: `[kind, msgid, method,
/// [argument]]`.
pub ghost struct Call {
    pub kind: u8,
    pub msgid: u8,
    pub method: Seq<char>,
    pub argument: Seq<char>,
}

/// Reads an unsigned integer below 256 at the front of `bytes`: its value, and
/// how many bytes it takes.
pub open spec fn uint8_decoding(bytes: Seq<u8>) -> Option<(u8, nat)> {
    if bytes.len() >= 1 && bytes[0] < 128 {
        Some((bytes[0], 1nat))
    } else if bytes.len() >= 2 && bytes[0] == 0xcc {
        Some((bytes[1], 2nat))
    } else {
        None
    }
}

/// What a string header at the front of `bytes` says: how many bytes the
/// header takes, and how many bytes of data follow it. Any of the four string
/// headers is read, whether or not it is the shortest for its length.
pub open spec fn str_header_decoding(bytes: Seq<u8>) -> Option<(nat, nat)> {
    if bytes.len() >= 1 && 0xa0 <= bytes[0] <= 0xbf {
        Some((1nat, (bytes[0] - 0xa0) as nat))
    } else if bytes.len() >= 2 && bytes[0] == 0xd9 {
        Some((2nat, bytes[1] as nat))
    } else if bytes.len() >= 3 && bytes[0] == 0xda {
        Some((3nat, (bytes[1] * 256 + bytes[2]) as nat))
    } else if bytes.len() >= 5 && bytes[0] == 0xdb {
        Some(
            (
                5nat,
                (bytes[1] * 0x100_0000 + bytes[2] * 0x1_0000 + bytes[3] * 256 + bytes[4]) as nat,
            ),
        )
    } else {
        None
    }
}

/// Reads a string of valid UTF-8 at the front of `bytes`: its text, and how
/// many bytes it takes, header included.
pub open spec fn str_decoding(bytes: Seq<u8>) -> Option<(Seq<char>, nat)> {
    match str_header_decoding(bytes) {
        Some((head, len)) => {
            let data = bytes.subrange(head as int, (head + len) as int);
            if head + len <= bytes.len() && valid_utf8(data) {
                Some((decode_utf8(data), head + len))
            } else {
                None
            }
        },
        None => None,
    }
}

/// Reads the one-element array of a string that ends a call: the string, if
/// `bytes` hold that array and nothing after it.
pub open spec fn params_decoding(bytes: Seq<u8>) -> Option<Seq<char>> {
    if bytes.len() >= 1 && bytes[0] == 0x91 {
        match str_decoding(bytes.skip(1)) {
            Some((argument, taken)) if 1 + taken == bytes.len() => Some(argument),
            _ => None,
        }
    } else {
        None
    }
}

/// Reads the method and the parameters of a call.
pub open spec fn method_decoding(bytes: Seq<u8>) -> Option<(Seq<char>, Seq<char>)> {
    match str_decoding(bytes) {
        Some((method, taken)) => match params_decoding(bytes.skip(taken as int)) {
            Some(argument) => Some((method, argument)),
            None => None,
        },
        None => None,
    }
}

/// Reads the two integers of a call and what follows them.
pub open spec fn fields_decoding(bytes: Seq<u8>) -> Option<Call> {
    match uint8_decoding(bytes) {
        Some((kind, first)) => match uint8_decoding(bytes.skip(first as int)) {
            Some((msgid, second)) => match method_decoding(bytes.skip((first + second) as int)) {
                Some((method, argument)) => Some(Call { kind, msgid, method, argument }),
                None => None,
            },
            None => None,
        },
        None => None,
    }
}

/// The call that `bytes` encode: `Some` if they are a four-element array of
/// two unsigned integers below 256, a string, and a one-element array of a
/// string, with nothing after it.
pub open spec fn call_decoding(bytes: Seq<u8>) -> Option<Call> {
    if bytes.len() >= 1 && bytes[0] == 0x94 {
        fields_decoding(bytes.skip(1))
    } else {
        None
    }
}

/// An encoded integer is read back, whatever follows it.
pub proof fn uint8_round_trip(n: u8, rest: Seq<u8>)
    ensures
        uint8_decoding(uint8_encoding(n) + rest) == Some((n, uint8_encoding(n).len())),
{
    let bytes = uint8_encoding(n) + rest;
    assert(bytes[0] == uint8_encoding(n)[0]);
    if n >= 128 {
        assert(bytes[1] == uint8_encoding(n)[1]);
    }
}

/// A string header gives back the length it was made from, whatever follows
/// it.
pub proof fn str_header_round_trip(len: nat, rest: Seq<u8>)
    requires
        len < str_len_limit(),
    ensures
        str_header_decoding(str_header(len) + rest) == Some((str_header(len).len(), len)),
{
    let header = str_header(len);
    let bytes = header + rest;
    assert(len % str_len_limit() == len);
    assert(forall|i: int| 0 <= i < header.len() ==> bytes[i] == header[i]);
    if len < 32 {
        assert(bytes[0] == 0xa0 + len);
    } else if len < 256 {
        assert(bytes[0] == 0xd9);
        assert(bytes[1] == len);
    } else if len < 65536 {
        assert(bytes[0] == 0xda);
        assert(bytes[1] == len / 256);
        assert(bytes[2] == len % 256);
    } else {
        assert(bytes[0] == 0xdb);
        assert(bytes[1] == len / 0x100_0000);
        assert(bytes[2] == len / 0x1_0000 % 256);
        assert(bytes[3] == len / 256 % 256);
        assert(bytes[4] == len % 256);
    }
}

/// An encoded string is read back, whatever follows it, as long as its UTF-8
/// form is short enough for a MessagePack header.
pub proof fn str_round_trip(text: Seq<char>, rest: Seq<u8>)
    requires
        encode_utf8(text).len() < str_len_limit(),
    ensures
        str_decoding(str_encoding(text) + rest) == Some((text, str_encoding(text).len())),
{
    let data = encode_utf8(text);
    let header = str_header(data.len());
    let bytes = str_encoding(text) + rest;
    assert(bytes =~= header + (data + rest));
    str_header_round_trip(data.len(), data + rest);
    assert(bytes.subrange(header.len() as int, (header.len() + data.len()) as int) =~= data);
    encode_utf8_valid_utf8(text);
    encode_utf8_decode_utf8(text);
}

/// The parameters of a call are read back.
proof fn params_round_trip(argument: Seq<char>)
    requires
        encode_utf8(argument).len() < str_len_limit(),
    ensures
        params_decoding(seq![0x91u8] + str_encoding(argument)) == Some(argument),
{
    let param = str_encoding(argument);
    let bytes = seq![0x91u8] + param;
    assert(bytes[0] == 0x91);
    assert(bytes.skip(1) =~= param + Seq::<u8>::empty());
    str_round_trip(argument, Seq::<u8>::empty());
}

/// The method and the parameters of a call are read back.
proof fn method_round_trip(method: Seq<char>, argument: Seq<char>)
    requires
        encode_utf8(method).len() < str_len_limit(),
        encode_utf8(argument).len() < str_len_limit(),
    ensures
        method_decoding(str_encoding(method) + (seq![0x91u8] + str_encoding(argument))) == Some(
            (method, argument),
        ),
{
    let name = str_encoding(method);
    let params = seq![0x91u8] + str_encoding(argument);
    str_round_trip(method, params);
    assert((name + params).skip(name.len() as int) =~= params);
    params_round_trip(argument);
}

/// The four elements of a call are read back.
proof fn fields_round_trip(kind: u8, msgid: u8, tail: Seq<u8>, method: Seq<char>, argument: Seq<char>)
    requires
        method_decoding(tail) == Some((method, argument)),
    ensures
        fields_decoding(uint8_encoding(kind) + (uint8_encoding(msgid) + tail)) == Some(
            Call { kind, msgid, method, argument },
        ),
{
    let first = uint8_encoding(kind);
    let second = uint8_encoding(msgid);
    let bytes = first + (second + tail);
    uint8_round_trip(kind, second + tail);
    assert(bytes.skip(first.len() as int) =~= second + tail);
    uint8_round_trip(msgid, tail);
    assert(bytes.skip((first.len() + second.len()) as int) =~= tail);
}

/// Six pieces in a row, without the first, are the other five.
proof fn after_first_piece(
    a: Seq<u8>,
    b: Seq<u8>,
    c: Seq<u8>,
    d: Seq<u8>,
    e: Seq<u8>,
    f: Seq<u8>,
)
    requires
        a.len() == 1,
    ensures
        (a + b + c + d + e + f)[0] == a[0],
        (a + b + c + d + e + f).len() >= 1,
        (a + b + c + d + e + f).skip(1) == b + (c + (d + (e + f))),
{
    assert((a + b + c + d + e + f).skip(1) =~= b + (c + (d + (e + f))));
}

/// Decoding an encoded call gives back its four elements, as long as the
/// UTF-8 forms of both strings are short enough for a MessagePack header.
pub proof fn call_round_trip(kind: u8, msgid: u8, method: Seq<char>, argument: Seq<char>)
    requires
        encode_utf8(method).len() < str_len_limit(),
        encode_utf8(argument).len() < str_len_limit(),
    ensures
        call_decoding(call_encoding(kind, msgid, method, argument)) == Some(
            Call { kind, msgid, method, argument },
        ),
{
    let tail = str_encoding(method) + (seq![0x91u8] + str_encoding(argument));
    method_round_trip(method, argument);
    fields_round_trip(kind, msgid, tail, method, argument);
    after_first_piece(
        seq![0x94u8],
        uint8_encoding(kind),
        uint8_encoding(msgid),
        str_encoding(method),
        seq![0x91u8],
        str_encoding(argument),
    );
}

/// Decoding the call built for a command yields exactly the four-element
/// message `[0, 1, "nvim_command", [command]]`, for every command whose UTF-8
/// form is shorter than 4 GiB: the empty one, ones with NUL in them and
/// multi-byte text included.
pub proof fn request_round_trip(command: Seq<char>)
    requires
        encode_utf8(command).len() < str_len_limit(),
    ensures
        call_decoding(request_bytes(command)) == Some(
            Call { kind: 0, msgid: 1, method: "nvim_command"@, argument: command },
        ),
{
    request_bytes_is_call(command);
    method_name_bytes();
    assert(str_header(encode_utf8("nvim_command"@).len()).len() >= 1);
    call_round_trip(CALL, MSGID, "nvim_command"@, command);
}

/// Two encodings of one command are the same bytes: nothing but the command
/// goes into a call.
pub proof fn request_is_repeatable(command: Seq<char>, first: Seq<u8>, second: Seq<u8>)
    requires
        first == request_bytes(command),
        second == request_bytes(command),
    ensures
        first == second,
{
}

/// Two commands with the same call are the same command.
pub proof fn request_bytes_injective(first: Seq<char>, second: Seq<char>)
    requires
        encode_utf8(first).len() < str_len_limit(),
        encode_utf8(second).len() < str_len_limit(),
        request_bytes(first) == request_bytes(second),
    ensures
        first == second,
{
    request_round_trip(first);
    request_round_trip(second);
}

/// Builds the call message that asks an editor to run `command`. Any string is
/// taken as it is, the empty one and ones with control characters included.
pub fn request(command: &str) -> (bytes: Vec<u8>)
    ensures
        bytes@ == request_bytes(command@),
        encode_utf8(command@).len() < str_len_limit() ==> call_decoding(bytes@) == Some(
            Call { kind: 0, msgid: 1, method: "nvim_command"@, argument: command@ },
        ),
{
    let bytes = write_call_value(CALL, MSGID, "nvim_command", command);
    proof {
        request_bytes_is_call(command@);
        if encode_utf8(command@).len() < str_len_limit() {
            request_round_trip(command@);
        }
    }
    bytes
}

} // verus!
