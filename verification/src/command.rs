use vstd::prelude::*;
use vstd::utf8::{decode_utf8, encode_utf8, is_ascii_chars, valid_utf8};

use crate::frame::{RespFrame, RespFrameView};

verus! {

/// A request decoded from a frame, holding plain values.
#[derive(Debug, Clone, PartialEq, Eq)]
pub enum Command {
    /// `GET key`
    Get { key: String },
    /// `SET key value [EX seconds | PX milliseconds]`; `expire_ms` is the expiry in milliseconds.
    SetValue { key: String, value: Vec<u8>, expire_ms: Option<u128> },
    /// Any other command that decodes (publish, subscribe, unsubscribe, or an unknown name);
    /// `description` is its debug rendering.
    Other { description: String },
}

/// The mathematical value of a [`Command`].
pub enum CommandView {
    Get { key: Seq<char> },
    SetValue { key: Seq<char>, value: Seq<u8>, expire_ms: Option<u128> },
    Other { description: Seq<char> },
}

impl View for Command {
    type V = CommandView;

    open spec fn view(&self) -> CommandView {
        match self {
            Command::Get { key } => CommandView::Get { key: key@ },
            Command::SetValue { key, value, expire_ms } => CommandView::SetValue {
                key: key@,
                value: value@,
                expire_ms: *expire_ms,
            },
            Command::Other { description } => CommandView::Other { description: description@ },
        }
    }
}

/// The view of a decoding result: the command's view, or the error's text.
pub open spec fn decoded_view(r: Result<Command, String>) -> Result<CommandView, Seq<char>> {
    match r {
        Ok(c) => Ok(c@),
        Err(e) => Err(e@),
    }
}

/// What `mini_redis::Command::from_frame` makes of a frame: the decoded command, or the
/// text of its error.
pub uninterp spec fn command_of_frame(frame: RespFrameView) -> Result<CommandView, Seq<char>>;

/// The text a frame holds where the decoder reads a string: a simple string as it is, a
/// bulk string decoded as UTF-8.
pub open spec fn frame_text(f: RespFrameView) -> Option<Seq<char>> {
    match f {
        RespFrameView::Simple(s) => Some(s),
        RespFrameView::Bulk(b) => if valid_utf8(b) {
            Some(decode_utf8(b))
        } else {
            None
        },
        _ => None,
    }
}

/// The bytes a frame holds where the decoder reads raw bytes: a simple string encoded as
/// UTF-8, a bulk string as it is.
pub open spec fn frame_bytes(f: RespFrameView) -> Option<Seq<u8>> {
    match f {
        RespFrameView::Simple(s) => Some(encode_utf8(s)),
        RespFrameView::Bulk(b) => Some(b),
        _ => None,
    }
}

/// ASCII letters turned to lower case, every other character kept.
pub open spec fn ascii_lowercase(s: Seq<char>) -> Seq<char> {
    s.map_values(|c: char| if 'A' <= c <= 'Z' { ((c as u32) + 32) as char } else { c })
}

/// The frame holds an ASCII text that, in lower case, is `name`.
pub open spec fn names_command(f: RespFrameView, name: Seq<char>) -> bool {
    &&& frame_text(f) is Some
    &&& is_ascii_chars(frame_text(f).unwrap())
    &&& ascii_lowercase(frame_text(f).unwrap()) == name
}

/// An array of two entries: the name `get` and a key.
pub open spec fn is_get_request(f: RespFrameView) -> bool {
    &&& f is Array
    &&& f->Array_0.len() == 2
    &&& names_command(f->Array_0[0], seq!['g', 'e', 't'])
    &&& frame_text(f->Array_0[1]) is Some
}

/// An array of three entries: the name `set`, a key and a value.
pub open spec fn is_set_request(f: RespFrameView) -> bool {
    &&& f is Array
    &&& f->Array_0.len() == 3
    &&& names_command(f->Array_0[0], seq!['s', 'e', 't'])
    &&& frame_text(f->Array_0[1]) is Some
    &&& frame_bytes(f->Array_0[2]) is Some
}

/// The decoding of a `[get, key]` request: a `Get` of the key's text.
pub open spec fn expected_get(f: RespFrameView) -> Result<CommandView, Seq<char>> {
    Ok(CommandView::Get { key: frame_text(f->Array_0[1]).unwrap() })
}

/// The decoding of a `[set, key, value]` request: a `SetValue` of the key's text and the
/// value's bytes, without expiry.
pub open spec fn expected_set(f: RespFrameView) -> Result<CommandView, Seq<char>> {
    Ok(
        CommandView::SetValue {
            key: frame_text(f->Array_0[1]).unwrap(),
            value: frame_bytes(f->Array_0[2]).unwrap(),
            expire_ms: None,
        },
    )
}

/// The frame type of `mini_redis`, carried through as an opaque value.
#[verifier::external_type_specification]
#[verifier::external_body]
pub struct ExWireFrame(mini_redis::Frame);

/// Builds the `mini_redis::Frame` that carries the same values as `frame`, variant for
/// variant (a bulk string's bytes become `bytes::Bytes`). Trusted conversion for
/// `decode_command`: nothing is stated of the result, which Verus sees as opaque.
#[verifier::external_body]
fn wire_frame(frame: RespFrame) -> mini_redis::Frame {
    match frame {
        RespFrame::Simple(s) => mini_redis::Frame::Simple(s),
        RespFrame::Error(s) => mini_redis::Frame::Error(s),
        RespFrame::Integer(n) => mini_redis::Frame::Integer(n),
        RespFrame::Bulk(b) => mini_redis::Frame::Bulk(bytes::Bytes::from(b)),
        RespFrame::Null => mini_redis::Frame::Null,
        RespFrame::Array(items) => mini_redis::Frame::Array(items.into_iter().map(wire_frame).collect()),
    }
}

/// Decodes a command with `mini_redis::Command::from_frame`.
///
/// Trusted: the result is the named `command_of_frame` of the frame. Beside that, the
/// contract claims what the decoder's source shows for a few shapes of frame: anything
/// but an array, and an empty array, are refused; `[get, key]` decodes to a `Get` of the
/// key; `[set, key, value]` decodes to a `SetValue` without expiry. The command name is read
/// as a string and lower-cased; keys are read as strings (a bulk string must be valid
/// UTF-8); a value is read as bytes. What other frames decode to is left to the name.
#[verifier::external_body]
pub(crate) fn decode_command(frame: RespFrame) -> (r: Result<Command, String>)
    ensures
        decoded_view(r) == command_of_frame(frame@),
        !(frame@ is Array) ==> r.is_err(),
        frame@ is Array && frame@->Array_0.len() == 0 ==> r.is_err(),
        is_get_request(frame@) ==> decoded_view(r) == expected_get(frame@),
        is_set_request(frame@) ==> decoded_view(r) == expected_set(frame@),
{
    match mini_redis::Command::from_frame(wire_frame(frame)) {
        Ok(mini_redis::Command::Get(c)) => Ok(Command::Get { key: c.key().to_string() }),
        Ok(mini_redis::Command::Set(c)) => Ok(Command::SetValue {
            key: c.key().to_string(),
            value: c.value().to_vec(),
            expire_ms: c.expire().map(|d| d.as_millis()),
        }),
        Ok(other) => Ok(Command::Other { description: format!("{:?}", other) }),
        Err(e) => Err(e.to_string()),
    }
}

} // verus!
