use vstd::prelude::*;

use bytes::BytesMut;

use crate::buffer::{buffer_extend, buffer_len, bytes_mut_contents};
use crate::error::Error;
use crate::le_bytes::{u32_le, write_u32_le};
use crate::utf16::{to_utf16_bytes, utf16le};

verus! {

/// The frame that carries an access token: `data_length`, then
/// `token_length`, then the UTF-16LE token, lengths little-endian.
pub open spec fn token_frame(token: Seq<char>) -> Seq<u8> {
    let t = utf16le(token);
    u32_le((t.len() + 4) as u32) + u32_le(t.len() as u32) + t
}

/// The token's frame fits the wire format: `data_length` fits in a `u32`.
pub open spec fn token_fits(token: Seq<char>) -> bool {
    utf16le(token).len() + 4 <= u32::MAX
}

/// An access token about to be sent to the server.
pub struct FedAuthToken<'a> {
    access_token: &'a str,
}

impl<'a> FedAuthToken<'a> {
    pub closed spec fn token_spec(&self) -> Seq<char> {
        self.access_token@
    }

    pub fn new(access_token: &'a str) -> (r: Self)
        ensures
            r.token_spec() == access_token@,
    {
        FedAuthToken { access_token }
    }

    /// Appends the token's frame to `dst`. Fails, leaving `dst` as it was,
    /// when the frame's length does not fit in a `u32` or `dst` cannot grow
    /// by the frame's length.
    pub fn encode(self, dst: &mut BytesMut) -> (r: Result<(), Error>)
        ensures
            match r {
                Ok(()) => {
                    &&& token_fits(self.token_spec())
                    &&& bytes_mut_contents(*final(dst)) == bytes_mut_contents(*old(dst))
                        + token_frame(self.token_spec())
                },
                Err(e) => {
                    &&& e is Protocol
                    &&& !token_fits(self.token_spec()) || bytes_mut_contents(*old(dst)).len()
                        + token_frame(self.token_spec()).len() > isize::MAX
                    &&& bytes_mut_contents(*final(dst)) == bytes_mut_contents(*old(dst))
                },
            },
    {
        let mut token_bytes = to_utf16_bytes(self.access_token);
        let token_length = token_bytes.len();
        if token_length > u32::MAX as usize - 4 {
            return Err(Error::Protocol(String::from_str("access token too long")));
        }
        let data_length = token_length + 4;
        let held = buffer_len(dst);
        if held > isize::MAX as usize - 4 || isize::MAX as usize - 4 - held < data_length {
            return Err(Error::Protocol(String::from_str("output buffer too large")));
        }
        let a = write_u32_le(data_length as u32);
        let b = write_u32_le(token_length as u32);
        let mut frame: Vec<u8> = Vec::new();
        frame.push(a[0]);
        frame.push(a[1]);
        frame.push(a[2]);
        frame.push(a[3]);
        frame.push(b[0]);
        frame.push(b[1]);
        frame.push(b[2]);
        frame.push(b[3]);
        frame.append(&mut token_bytes);
        assert(frame@ =~= token_frame(self.token_spec()));
        buffer_extend(dst, frame.as_slice());
        Ok(())
    }
}

} // verus!
