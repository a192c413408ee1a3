//! Descriptive errors for failed boundary calls.
//!
//! Every failing call into the underlying library reports its cause through
//! the operating-system error code of the calling thread. An [`Error`]
//! carries a human-readable message built from a fixed context and from that
//! code, captured at the moment of failure.

use vstd::prelude::*;
use vstd::string::StringExecFns;

verus! {

/// A descriptive failure of a library operation.
#[derive(Debug)]
pub struct Error {
    msg: String,
}

impl Error {
    /// The message carried by this error.
    pub closed spec fn spec_msg(self) -> Seq<char> {
        self.msg@
    }

    /// The human-readable message describing the failure.
    pub fn message(&self) -> (r: &str)
        ensures
            r@ == self.spec_msg(),
    {
        self.msg.as_str()
    }

    /// The construction failure for an interface name that must not cross
    /// the boundary: its encoding contains an embedded null byte.
    pub(crate) fn bad_ifname() -> (r: Error)
        ensures
            r.spec_msg() == "interface name contains an embedded null byte"@,
    {
        Error { msg: String::from_str("interface name contains an embedded null byte") }
    }
}

/// Whether the error's message opens with the given context.
pub open spec fn has_context(e: Error, context: Seq<char>) -> bool {
    &&& e.spec_msg().len() >= context.len()
    &&& e.spec_msg().subrange(0, context.len() as int) == context
}

/// Relies on `nix::errno::Errno::last`, which reads the calling thread's
/// current operating-system error code, and on `Errno`'s `Display`, which
/// renders that code's name and description. The text depends on the
/// thread's state at the moment of the call, so nothing is promised of it.
#[verifier::external_body]
fn os_error_text() -> String {
    format!("{}", nix::errno::Errno::last())
}

/// An error whose message is the given context followed by a description of
/// the operating-system error current at the moment of the call.
pub(crate) fn errno_error(context: &str) -> (r: Error)
    ensures
        has_context(r, context@),
{
    let text = os_error_text();
    let msg = String::from_str(context).concat(text.as_str());
    proof {
        assert(msg@.subrange(0, context@.len() as int) =~= context@);
    }
    Error { msg }
}

} // verus!
