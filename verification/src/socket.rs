//! Lifecycle and return-code logic for one raw network endpoint.
//!
//! The underlying library hands out an endpoint as a small integer
//! identifier and reports every read and write outcome as a raw signed
//! count, negative on failure. A [`Socket`] owns one such identifier and
//! makes every decision the unverifiable shell around the library needs:
//! it rejects an interface name before it may cross the boundary, refuses
//! a failed open instead of holding an unusable identifier, turns raw
//! counts into counts-or-errors, and guarantees that the underlying close
//! runs exactly once however often release is attempted.

use vstd::prelude::*;
use vstd::string::{StrSliceExecFns, StringSliceAdditionalSpecFns};
use vstd::utf8::{
    char_is_scalar, char_u32_cast, encode_scalar, encode_utf8, has_width_1_encoding,
    has_width_2_encoding, has_width_3_encoding, is_scalar,
};

use crate::error::{errno_error, has_context, Error};

verus! {

/// A concatenation holds a byte exactly when one of its parts does.
proof fn lemma_concat_contains(a: Seq<u8>, b: Seq<u8>, x: u8)
    ensures
        (a + b).contains(x) <==> a.contains(x) || b.contains(x),
{
    if a.contains(x) {
        let i = choose|i: int| 0 <= i < a.len() && a[i] == x;
        assert((a + b)[i] == x);
    }
    if b.contains(x) {
        let i = choose|i: int| 0 <= i < b.len() && b[i] == x;
        assert((a + b)[a.len() + i] == x);
    }
    if (a + b).contains(x) {
        let i = choose|i: int| 0 <= i < (a + b).len() && (a + b)[i] == x;
        if i < a.len() {
            assert(a[i] == x);
        } else {
            assert(b[i - a.len()] == x);
        }
    }
}

/// The UTF-8 encoding of a scalar holds a null byte exactly when the
/// scalar is the null character: a one-byte encoding is the scalar itself,
/// and every byte of a longer encoding has its high bit set.
proof fn lemma_encode_scalar_nul(scalar: u32)
    requires
        is_scalar(scalar),
    ensures
        encode_scalar(scalar).contains(0u8) <==> scalar == 0,
{
    if has_width_1_encoding(scalar) {
        assert((scalar & 0x7F) as u8 == 0 <==> scalar == 0) by (bit_vector)
            requires
                scalar <= 0x7F,
        ;
        if scalar == 0 {
            assert(encode_scalar(scalar)[0] == 0u8);
        } else {
            assert(forall|i: int|
                0 <= i < encode_scalar(scalar).len() ==> encode_scalar(scalar)[i] != 0u8);
        }
    } else {
        assert(0xC0u8 | (((scalar >> 6) & 0x1F) as u8) != 0u8) by (bit_vector);
        assert(0xE0u8 | (((scalar >> 12) & 0x0F) as u8) != 0u8) by (bit_vector);
        assert(0xF0u8 | (((scalar >> 18) & 0x7) as u8) != 0u8) by (bit_vector);
        assert(0x80u8 | ((scalar & 0x3F) as u8) != 0u8) by (bit_vector);
        assert(0x80u8 | (((scalar >> 6) & 0x3F) as u8) != 0u8) by (bit_vector);
        assert(0x80u8 | (((scalar >> 12) & 0x3F) as u8) != 0u8) by (bit_vector);
        assert(forall|i: int|
            0 <= i < encode_scalar(scalar).len() ==> encode_scalar(scalar)[i] != 0u8);
    }
}

/// The UTF-8 encoding of a character sequence holds a null byte exactly
/// when the sequence holds the null character.
proof fn lemma_nul_byte_iff_nul_char(chars: Seq<char>)
    ensures
        encode_utf8(chars).contains(0u8) <==> chars.contains('\0'),
    decreases chars.len(),
{
    if chars.len() == 0 {
        assert(!encode_utf8(chars).contains(0u8));
        assert(!chars.contains('\0'));
    } else {
        let c = chars[0];
        char_is_scalar(c);
        lemma_encode_scalar_nul(c as u32);
        lemma_nul_byte_iff_nul_char(chars.drop_first());
        lemma_concat_contains(encode_scalar(c as u32), encode_utf8(chars.drop_first()), 0u8);
        if c as u32 == 0 {
            char_u32_cast(c, 0u32);
            char_u32_cast('\0', 0u32);
            assert(chars.contains('\0'));
        }
        if chars.contains('\0') {
            let i = choose|i: int| 0 <= i < chars.len() && chars[i] == '\0';
            if i == 0 {
                char_u32_cast('\0', c as u32);
            } else {
                assert(chars.drop_first()[i - 1] == '\0');
            }
        }
        if chars.drop_first().contains('\0') {
            let i = choose|i: int| 0 <= i < chars.drop_first().len()
                && chars.drop_first()[i] == '\0';
            assert(chars[i + 1] == '\0');
        }
    }
}

/// Framing level of an endpoint, fixed at open time: transport-layer
/// datagrams or full raw frames. The meaning of each level is owned by the
/// underlying library; this layer only carries its numeric selector.
#[allow(non_camel_case_types)]
#[derive(Clone, Copy, Debug, PartialEq, Eq, Structural)]
pub enum Layer {
    SOCK_DGRAM,
    SOCK_RAW,
}

impl Layer {
    /// The numeric selector the underlying open call expects for this
    /// framing level.
    pub open spec fn spec_code(self) -> i32 {
        match self {
            Layer::SOCK_DGRAM => 2,
            Layer::SOCK_RAW => 3,
        }
    }

    /// The numeric selector to hand to the underlying open call.
    pub fn code(self) -> (r: i32)
        ensures
            r == self.spec_code(),
    {
        match self {
            Layer::SOCK_DGRAM => 2,
            Layer::SOCK_RAW => 3,
        }
    }
}

/// What a planned read requires of the underlying library.
#[derive(Clone, Copy, Debug, PartialEq, Eq, Structural)]
pub enum ReadStep {
    /// The read is already complete with this many bytes; no boundary call
    /// is to be made.
    Done(usize),
    /// The underlying read must be called on this endpoint identifier.
    Call(i32),
}

/// One raw network endpoint: a non-negative identifier handed out by the
/// underlying open call, valid until the first close.
#[derive(Debug)]
pub struct Socket {
    fd: i32,
    open: bool,
}

impl Socket {
    /// The endpoint identifier this handle owns.
    pub closed spec fn spec_fd(self) -> i32 {
        self.fd
    }

    /// Whether the identifier is still valid: `true` from a successful
    /// open until the first close.
    pub closed spec fn is_open(self) -> bool {
        self.open
    }

    /// A handle only ever owns an identifier the underlying open call
    /// accepted, which is never negative.
    pub open spec fn wf(self) -> bool {
        self.spec_fd() >= 0
    }

    /// The name must reach the underlying library as a null-terminated
    /// string, so a name whose encoding contains a null byte cannot be
    /// passed faithfully: it is rejected here, before any boundary call
    /// is made.
    pub fn check_ifname(ifname: &str) -> (r: Result<(), Error>)
        ensures
            (r is Ok) <==> !ifname@.contains('\0'),
            (r is Ok) <==> !ifname.spec_bytes().contains(0u8),
            r matches Err(e) ==> e.spec_msg()
                == "interface name contains an embedded null byte"@,
    {
        proof {
            lemma_nul_byte_iff_nul_char(ifname@);
            assert(ifname.spec_bytes() == encode_utf8(ifname@));
        }
        let bytes: Vec<u8> = ifname.as_bytes_vec();
        let mut i: usize = 0;
        while i < bytes.len()
            invariant
                i <= bytes.len(),
                bytes@ == ifname.spec_bytes(),
                forall|j: int| 0 <= j < i ==> bytes@[j] != 0u8,
            decreases bytes.len() - i,
        {
            if bytes[i] == 0 {
                proof {
                    assert(bytes@.contains(0u8));
                    lemma_nul_byte_iff_nul_char(ifname@);
                    assert(ifname.spec_bytes() == encode_utf8(ifname@));
                }
                return Err(Error::bad_ifname());
            }
            i += 1;
        }
        assert(!bytes@.contains(0u8));
        Ok(())
    }

    /// Accept or refuse what the underlying open call handed back: a
    /// negative identifier signals failure and is surfaced as an error
    /// instead of being kept as an unusable handle.
    pub fn from_open_result(raw_fd: i32) -> (r: Result<Socket, Error>)
        ensures
            (r is Ok) <==> raw_fd >= 0,
            r matches Ok(s) ==> s.wf() && s.is_open() && s.spec_fd() == raw_fd,
            r matches Err(e) ==> has_context(e, "Error while opening socket: "@),
    {
        if raw_fd >= 0 {
            Ok(Socket { fd: raw_fd, open: true })
        } else {
            Err(errno_error("Error while opening socket: "))
        }
    }

    /// The identifier to pass to the underlying read and write calls.
    pub fn fd(&self) -> (r: i32)
        ensures
            r == self.spec_fd(),
    {
        self.fd
    }

    /// Plan a read into a destination of `buflen` bytes: an empty
    /// destination is already complete with zero bytes and no boundary
    /// call — so such a read never blocks — while any other destination
    /// requires the underlying read on this endpoint.
    pub fn read_request(&self, buflen: usize) -> (r: ReadStep)
        requires
            self.is_open(),
        ensures
            buflen == 0 ==> r == ReadStep::Done(0usize),
            buflen != 0 ==> r == ReadStep::Call(self.spec_fd()),
    {
        if buflen == 0 {
            ReadStep::Done(0)
        } else {
            ReadStep::Call(self.fd)
        }
    }

    /// Interpret what the underlying read handed back for a destination of
    /// `buflen` bytes: a non-negative raw count is that many bytes placed
    /// into the destination, and a negative code is surfaced as an error —
    /// never cast to an unsigned count.
    pub fn read_result(&self, raw: isize, buflen: usize) -> (r: Result<usize, Error>)
        requires
            self.is_open(),
            raw <= buflen as isize,
        ensures
            raw >= 0 ==> r == Ok::<usize, Error>(raw as usize),
            (r is Err) <==> raw < 0,
            r matches Ok(n) ==> n <= buflen,
            r matches Err(e) ==> has_context(e, "Error while reading from socket: "@),
    {
        if raw >= 0 {
            Ok(raw as usize)
        } else {
            Err(errno_error("Error while reading from socket: "))
        }
    }

    /// Interpret what the underlying write handed back for a source of
    /// `srclen` bytes: a non-negative raw count is the number of bytes
    /// written, never more than the source held, and a negative code is
    /// surfaced as an error carrying the operating-system error current at
    /// the moment of the call.
    pub fn write_result(&self, raw: isize, srclen: usize) -> (r: Result<usize, Error>)
        requires
            self.is_open(),
            raw <= srclen as isize,
        ensures
            raw >= 0 ==> r == Ok::<usize, Error>(raw as usize),
            (r is Err) <==> raw < 0,
            r matches Ok(n) ==> n <= srclen,
            r matches Err(e) ==> has_context(e, "Error while writing to socket: "@),
    {
        if raw >= 0 {
            Ok(raw as usize)
        } else {
            Err(errno_error("Error while writing to socket: "))
        }
    }

    /// What one release attempt does: the first close of an open handle
    /// yields the identifier the underlying close must be called on and
    /// leaves the handle closed; a close of an already closed handle
    /// yields nothing and changes nothing.
    pub open spec fn close_post(pre: Socket, post: Socket, r: Option<i32>) -> bool {
        &&& r == (if pre.is_open() {
            Some(pre.spec_fd())
        } else {
            Option::<i32>::None
        })
        &&& !post.is_open()
        &&& post.spec_fd() == pre.spec_fd()
    }

    /// Release decision, shared by the explicit close and the release at
    /// the end of the handle's lifetime: it yields the identifier to pass
    /// to the underlying close on the first call and nothing on every
    /// later one.
    pub fn close(&mut self) -> (r: Option<i32>)
        ensures
            Socket::close_post(*old(self), *final(self), r),
    {
        if self.open {
            self.open = false;
            Some(self.fd)
        } else {
            None
        }
    }
}

/// Law: however the handle's lifetime ends, the underlying close is
/// invoked exactly once. The first release of an open handle yields its
/// identifier; a release after any earlier release yields nothing.
pub proof fn lemma_close_exactly_once(
    s0: Socket,
    s1: Socket,
    r1: Option<i32>,
    s2: Socket,
    r2: Option<i32>,
)
    requires
        s0.is_open(),
        Socket::close_post(s0, s1, r1),
        Socket::close_post(s1, s2, r2),
    ensures
        r1 == Some(s0.spec_fd()),
        r2 is None,
{
}

} // verus!
