//! What is left in a child process for the library that is loaded into it.

use vstd::prelude::*;

verus! {

/// The `width` least significant bytes of `value`, the lowest first.
pub open spec fn little_endian(value: nat, width: nat) -> Seq<u8>
    decreases width,
{
    if width == 0 {
        Seq::empty()
    } else {
        seq![(value % 256) as u8] + little_endian(value / 256, (width - 1) as nat)
    }
}

/// How `bincode` writes a length in its standard configuration: one byte where that is
/// enough, otherwise a byte that tells the width and then the bytes of the length.
pub open spec fn length_prefix(length: nat) -> Seq<u8> {
    if length <= 250 {
        seq![length as u8]
    } else if length <= 0xFFFF {
        seq![251u8] + little_endian(length, 2)
    } else if length <= 0xFFFF_FFFF {
        seq![252u8] + little_endian(length, 4)
    } else {
        seq![253u8] + little_endian(length, 8)
    }
}

/// How `bincode` writes a slice of bytes in its standard configuration.
pub open spec fn slice_encoding(bytes: Seq<u8>) -> Seq<u8> {
    length_prefix(bytes.len()) + bytes
}

/// Calls `bincode::encode_to_vec` on a slice of bytes, in the standard configuration.
///
/// Believed of it: it succeeds, and the result is the length of the slice in the variable
/// width form, least significant byte first, and then the bytes themselves.
#[verifier::external_body]
fn encode_slice(bytes: &[u8]) -> (encoded: Vec<u8>)
    ensures
        encoded@ == slice_encoding(bytes@),
{
    bincode::encode_to_vec(bytes, bincode::config::standard()).unwrap()
}

/// How to reach the channel of a spy, in its encoded form.
#[derive(Debug, PartialEq, Eq)]
pub struct ChannelConf {
    pub encoded: Vec<u8>,
}

/// The payload of a child process.
#[derive(Debug, Clone, Copy, PartialEq, Eq)]
pub struct Payload<'a> {
    pub channel_conf: &'a ChannelConf,
    pub ansi_dll_path_with_nul: &'a [u8],
}

/// The encoded payload: its two fields, one after the other.
///
/// This rests on the standard configuration of `bincode`, and on the channel's
/// configuration being the first field of the payload and the path the second.
pub open spec fn payload_encoding(channel_conf: Seq<u8>, dll_path: Seq<u8>) -> Seq<u8> {
    channel_conf + slice_encoding(dll_path)
}

impl<'a> Payload<'a> {
    /// The bytes of the payload.
    pub fn encode(&self) -> (bytes: Vec<u8>)
        ensures
            bytes@ == payload_encoding(
                self.channel_conf.encoded@,
                self.ansi_dll_path_with_nul@,
            ),
    {
        let mut bytes: Vec<u8> = Vec::new();
        bytes.extend_from_slice(self.channel_conf.encoded.as_slice());
        let path = encode_slice(self.ansi_dll_path_with_nul);
        bytes.extend_from_slice(path.as_slice());
        assert(bytes@ =~= self.channel_conf.encoded@ + path@);
        bytes
    }
}

proof fn lemma_little_endian_len(value: nat, width: nat)
    ensures
        little_endian(value, width).len() == width,
    decreases width,
{
    if width > 0 {
        lemma_little_endian_len(value / 256, (width - 1) as nat);
    }
}

/// How long the length itself is once it is written.
pub proof fn length_prefix_len(length: nat)
    ensures
        length_prefix(length).len() == if length <= 250 {
            1nat
        } else if length <= 0xFFFF {
            3
        } else if length <= 0xFFFF_FFFF {
            5
        } else {
            9
        },
{
    lemma_little_endian_len(length, 2);
    lemma_little_endian_len(length, 4);
    lemma_little_endian_len(length, 8);
}

/// Two payloads for the same channel are equal only if they name the same library: the
/// path can be told from the bytes.
pub proof fn payload_determines_the_path(
    channel_conf: Seq<u8>,
    first_path: Seq<u8>,
    second_path: Seq<u8>,
)
    requires
        payload_encoding(channel_conf, first_path) == payload_encoding(channel_conf, second_path),
    ensures
        first_path == second_path,
{
    length_prefix_len(first_path.len());
    length_prefix_len(second_path.len());
    let bytes = payload_encoding(channel_conf, first_path);
    assert(bytes.len() == channel_conf.len() + length_prefix(second_path.len()).len()
        + second_path.len());
    let at = channel_conf.len() + length_prefix(first_path.len()).len();
    assert(first_path.len() == second_path.len());
    assert(first_path =~= bytes.skip(at as int));
    assert(second_path =~= bytes.skip(at as int));
}

/// The number that a sequence of bytes stands for, the lowest byte first.
pub open spec fn from_little_endian(bytes: Seq<u8>) -> nat
    decreases bytes.len(),
{
    if bytes.len() == 0 {
        0
    } else {
        bytes.first() as nat + 256 * from_little_endian(bytes.drop_first())
    }
}

/// How many bytes of a length follow its first byte; none where that byte begins no length.
pub open spec fn prefix_width(first: u8) -> Option<nat> {
    if first <= 250 {
        Some(0)
    } else if first == 251 {
        Some(2)
    } else if first == 252 {
        Some(4)
    } else if first == 253 {
        Some(8)
    } else {
        None
    }
}

/// Reads a slice of bytes from the front of an encoding: the slice, and what is left over.
pub open spec fn read_slice(bytes: Seq<u8>) -> Option<(Seq<u8>, Seq<u8>)> {
    if bytes.len() == 0 {
        None
    } else {
        match prefix_width(bytes.first()) {
            None => None,
            Some(width) => {
                let at = (1 + width) as int;
                let length = if width == 0 {
                    bytes.first() as nat
                } else {
                    from_little_endian(bytes.subrange(1, at))
                };
                if at <= bytes.len() && at + length <= bytes.len() {
                    Some((bytes.subrange(at, at + length), bytes.skip(at + length)))
                } else {
                    None
                }
            },
        }
    }
}

/// The first number that takes more than `width` bytes.
spec fn limit(width: nat) -> nat
    decreases width,
{
    if width == 0 {
        1
    } else {
        256 * limit((width - 1) as nat)
    }
}

proof fn lemma_little_endian_reads_back(value: nat, width: nat)
    requires
        value < limit(width),
    ensures
        from_little_endian(little_endian(value, width)) == value,
    decreases width,
{
    if width > 0 {
        let bytes = little_endian(value, width);
        lemma_little_endian_reads_back(value / 256, (width - 1) as nat);
        assert(bytes.drop_first() =~= little_endian(value / 256, (width - 1) as nat));
    }
}

/// A slice is read back from the front of whatever it was written to, and nothing of what
/// follows it is taken.
pub proof fn slice_reads_back(content: Seq<u8>, rest: Seq<u8>)
    requires
        content.len() <= u64::MAX,
    ensures
        read_slice(slice_encoding(content) + rest) == Some((content, rest)),
{
    let length = content.len();
    let prefix = length_prefix(length);
    let bytes = slice_encoding(content) + rest;
    length_prefix_len(length);
    assert(bytes.first() == prefix.first());
    let width = prefix_width(prefix.first())->0;
    let at = (1 + width) as int;
    assert(prefix.len() == at);
    if width > 0 {
        assert(limit(2) == 0x1_0000 && limit(4) == 0x1_0000_0000 && limit(8)
            == 0x1_0000_0000_0000_0000) by {
            reveal_with_fuel(limit, 9);
        }
        lemma_little_endian_len(length, width);
        assert(bytes.subrange(1, at) =~= little_endian(length, width));
        lemma_little_endian_reads_back(length, width);
    }
    assert(bytes.subrange(at, at + length) =~= content);
    assert(bytes.skip(at + length) =~= rest);
}

/// A payload reads back to both of its fields: its first bytes are the configuration of the
/// channel, and from the rest the path is read with nothing left over.
pub proof fn payload_reads_back(channel_conf: Seq<u8>, dll_path: Seq<u8>)
    requires
        dll_path.len() <= u64::MAX,
    ensures
        payload_encoding(channel_conf, dll_path).take(channel_conf.len() as int) == channel_conf,
        read_slice(payload_encoding(channel_conf, dll_path).skip(channel_conf.len() as int)) == Some(
            (dll_path, Seq::<u8>::empty()),
        ),
{
    let bytes = payload_encoding(channel_conf, dll_path);
    slice_reads_back(dll_path, Seq::empty());
    assert(bytes.take(channel_conf.len() as int) =~= channel_conf);
    assert(bytes.skip(channel_conf.len() as int) =~= slice_encoding(dll_path) + Seq::empty());
}

/// The bytes of a payload begin with the configuration of its channel, and what follows is the
/// path as a slice: its length in the fewest bytes that the encoding has for it, and then the
/// path itself to the end.
pub proof fn encoded_payload_holds_both_fields(payload: Payload<'_>, bytes: Vec<u8>)
    requires
        call_ensures(Payload::encode, (&payload,), bytes),
    ensures
        ({
            let conf = payload.channel_conf.encoded@;
            let path = payload.ansi_dll_path_with_nul@;
            let rest = bytes@.skip(conf.len() as int);
            let width = if path.len() <= 250 {
                1int
            } else if path.len() <= 0xFFFF {
                3
            } else if path.len() <= 0xFFFF_FFFF {
                5
            } else {
                9
            };
            &&& bytes@.len() == conf.len() + width + path.len()
            &&& bytes@.take(conf.len() as int) == conf
            &&& bytes@.skip(conf.len() + width) == path
            &&& path.len() <= u64::MAX ==> read_slice(rest) == Some((path, Seq::<u8>::empty()))
            &&& width == 1 ==> rest[0] == path.len()
            &&& width == 3 ==> rest[0] == 251
            &&& width == 5 ==> rest[0] == 252
            &&& width == 9 ==> rest[0] == 253
        }),
{
    let conf = payload.channel_conf.encoded@;
    let path = payload.ansi_dll_path_with_nul@;
    length_prefix_len(path.len());
    let width = length_prefix(path.len()).len();
    assert(bytes@.take(conf.len() as int) =~= conf);
    assert(bytes@.skip((conf.len() + width) as int) =~= path);
    assert(bytes@.skip(conf.len() as int) =~= slice_encoding(path));
    if path.len() <= u64::MAX {
        payload_reads_back(conf, path);
    }
}

} // verus!
