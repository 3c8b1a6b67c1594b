//! The check the QUIC client makes on each echoed round-trip.

use vstd::prelude::*;

verus! {

/// An echo whose length differs from the payload sent.
#[derive(Debug, Clone, Copy, PartialEq, Eq, Structural)]
pub struct EchoMismatch {
    /// Bytes sent.
    pub sent: usize,
    /// Bytes echoed back.
    pub received: usize,
}

/// Accept an echo exactly when it is as long as the payload sent.
pub fn check_echo(sent: usize, received: usize) -> (r: Result<(), EchoMismatch>)
    ensures
        r is Ok <==> sent == received,
        r is Err ==> r->Err_0 == (EchoMismatch { sent, received }),
{
    if sent == received {
        Ok(())
    } else {
        Err(EchoMismatch { sent, received })
    }
}

} // verus!
