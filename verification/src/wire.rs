use vstd::prelude::*;
use vstd::string::StringSliceAdditionalSpecFns;
use bytes::BufMut;
use bytes::BytesMut;

use crate::command::DebuggerCommandResponse;
use crate::event::DebuggerEvent;

verus! {

/// `bytes::BytesMut`: a growable byte buffer.
#[verifier::external_type_specification]
#[verifier::external_body]
pub struct ExBytesMut(BytesMut);

/// The bytes that `buf` holds, in order.
pub uninterp spec fn bytes_mut_contents(buf: BytesMut) -> Seq<u8>;

/// `BytesMut::len`: the number of bytes the buffer holds.
#[verifier::external_body]
fn bytes_mut_len(buf: &BytesMut) -> (n: usize)
    ensures
        n == bytes_mut_contents(*buf).len(),
{
    buf.len()
}

/// `BufMut::put_slice` for `BytesMut`: appends `src` after what the buffer
/// holds, growing it as needed. The buffer's capacity may not exceed
/// `isize::MAX`, so the combined length must stay within it.
#[verifier::external_body]
fn bytes_mut_put_slice(buf: &mut BytesMut, src: &[u8])
    requires
        bytes_mut_contents(*old(buf)).len() + src@.len() <= isize::MAX,
    ensures
        bytes_mut_contents(*final(buf)) == bytes_mut_contents(*old(buf)) + src@,
{
    buf.put_slice(src)
}

/// The newline that ends each message on the wire.
pub const MESSAGE_TERMINATOR: u8 = 10;

/// What the backend writes to the front end: an answer to a request, or an
/// unprompted notification.
pub enum WireResponse {
    Command { response: DebuggerCommandResponse },
    Notification { event: DebuggerEvent },
}

/// Frames messages for the wire: each message is its JSON text followed by a
/// newline.
pub struct WireResponseEncoder;

/// The bytes of one framed message whose JSON text is `json`.
pub open spec fn framed(json: Seq<u8>) -> Seq<u8> {
    json.push(MESSAGE_TERMINATOR)
}

/// A message whose JSON text holds no newline is recovered from its frame by
/// reading up to the first newline: that newline is the frame's last byte.
pub proof fn lemma_frame_splits_at_newline(json: Seq<u8>)
    requires
        !json.contains(MESSAGE_TERMINATOR),
    ensures
        framed(json).len() == json.len() + 1,
        framed(json)[json.len() as int] == MESSAGE_TERMINATOR,
        forall|i: int| 0 <= i < json.len() ==> framed(json)[i] != MESSAGE_TERMINATOR,
        framed(json).take(json.len() as int) == json,
{
    assert(framed(json).take(json.len() as int) =~= json);
    assert forall|i: int| 0 <= i < json.len() implies framed(json)[i] != MESSAGE_TERMINATOR by {
        assert(framed(json)[i] == json[i]);
    }
}

impl WireResponseEncoder {
    /// Appends the message whose JSON text is `json` to `dst`, followed by a
    /// newline.
    pub fn encode_json(&mut self, json: &str, dst: &mut BytesMut)
        requires
            bytes_mut_contents(*old(dst)).len() + json.spec_bytes().len() + 1 <= isize::MAX,
        ensures
            bytes_mut_contents(*final(dst)) == bytes_mut_contents(*old(dst)) + framed(
                json.spec_bytes(),
            ),
    {
        let mut msg: Vec<u8> = vstd::slice::slice_to_vec(json.as_bytes());
        msg.push(MESSAGE_TERMINATOR);
        bytes_mut_put_slice(dst, msg.as_slice());
    }

    /// Appends the framed message as `encode_json` does when `dst` has room
    /// for it, and returns whether it did; a buffer without room is left as
    /// it was.
    pub fn try_encode_json(&mut self, json: &str, dst: &mut BytesMut) -> (done: bool)
        ensures
            done <==> bytes_mut_contents(*old(dst)).len() + json.spec_bytes().len() + 1
                <= isize::MAX,
            done ==> bytes_mut_contents(*final(dst)) == bytes_mut_contents(*old(dst)) + framed(
                json.spec_bytes(),
            ),
            !done ==> bytes_mut_contents(*final(dst)) == bytes_mut_contents(*old(dst)),
    {
        let held = bytes_mut_len(dst);
        let text = json.as_bytes();
        let room: usize = isize::MAX as usize;
        if held <= room && text.len() < room - held {
            self.encode_json(json, dst);
            true
        } else {
            false
        }
    }
}

} // verus!
