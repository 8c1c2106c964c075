//! The envelope of messages exchanged with the launcher, and the client's
//! reading of replies.
//!
//! An envelope is the length of the message id as four little-endian bytes,
//! the message id in ASCII, then the message's payload.
use vstd::prelude::*;
use crate::text::text_eq;

verus! {

/// The four little-endian bytes of `n`.
pub open spec fn le_bytes(n: u32) -> Seq<u8> {
    seq![
        (n % 256) as u8,
        ((n / 256) % 256) as u8,
        ((n / 65536) % 256) as u8,
        ((n / 16777216) % 256) as u8,
    ]
}

/// The number that four little-endian bytes hold.
pub open spec fn le_value(b: Seq<u8>) -> int {
    b[0] as int + 256 * (b[1] as int) + 65536 * (b[2] as int) + 16777216 * (b[3] as int)
}

/// The envelope of a message with id `id` and payload `payload`.
pub open spec fn envelope(id: Seq<u8>, payload: Seq<u8>) -> Seq<u8> {
    le_bytes(id.len() as u32) + id + payload
}

/// Whether every byte is an ASCII code.
pub open spec fn all_ascii(b: Seq<u8>) -> bool {
    forall|i: int| 0 <= i < b.len() ==> #[trigger] b[i] < 128
}

/// Wraps a message in its envelope.
pub fn encode_frame(id: &Vec<u8>, payload: &Vec<u8>) -> (r: Vec<u8>)
    requires
        id@.len() <= u32::MAX,
        id@.len() + payload@.len() + 4 <= usize::MAX,
    ensures
        r@ == envelope(id@, payload@),
{
    let n = id.len() as u32;
    let mut r: Vec<u8> = Vec::new();
    r.push((n % 256) as u8);
    r.push(((n / 256) % 256) as u8);
    r.push(((n / 65536) % 256) as u8);
    r.push(((n / 16777216) % 256) as u8);
    let mut i: usize = 0;
    while i < id.len()
        invariant
            i <= id@.len(),
            r@ == le_bytes(n) + id@.take(i as int),
        decreases id@.len() - i,
    {
        r.push(id[i]);
        i += 1;
        assert(r@ =~= le_bytes(n) + id@.take(i as int));
    }
    let mut j: usize = 0;
    while j < payload.len()
        invariant
            j <= payload@.len(),
            r@ == le_bytes(n) + id@ + payload@.take(j as int),
        decreases payload@.len() - j,
    {
        r.push(payload[j]);
        j += 1;
        assert(r@ =~= le_bytes(n) + id@ + payload@.take(j as int));
    }
    assert(id@.take(id@.len() as int) =~= id@);
    assert(payload@.take(payload@.len() as int) =~= payload@);
    r
}

/// Why an envelope could not be read.
#[derive(Debug, PartialEq, Eq)]
pub enum FrameError {
    /// Fewer than four bytes.
    Truncated,
    /// The id would run past the end.
    BadLength,
    /// The id holds a byte that is not ASCII.
    NotAscii,
}

/// What an envelope is read as: its id and payload, or why it cannot be.
pub open spec fn frame_parts(b: Seq<u8>) -> Result<(Seq<u8>, Seq<u8>), FrameError> {
    if b.len() < 4 {
        Err(FrameError::Truncated)
    } else if le_value(b) > b.len() - 4 {
        Err(FrameError::BadLength)
    } else if !all_ascii(b.subrange(4, 4 + le_value(b))) {
        Err(FrameError::NotAscii)
    } else {
        Ok((b.subrange(4, 4 + le_value(b)), b.subrange(4 + le_value(b), b.len() as int)))
    }
}

/// Reads an envelope into its id and payload.
pub fn decode_frame(b: &Vec<u8>) -> (r: Result<(Vec<u8>, Vec<u8>), FrameError>)
    ensures
        match frame_parts(b@) {
            Ok((id, payload)) => r matches Ok((x, y)) && x@ == id && y@ == payload,
            Err(e) => r == Err::<(Vec<u8>, Vec<u8>), FrameError>(e),
        },
{
    if b.len() < 4 {
        return Err(FrameError::Truncated);
    }
    let n: u64 = b[0] as u64 + 256 * (b[1] as u64) + 65536 * (b[2] as u64) + 16777216 * (
    b[3] as u64);
    if n > (b.len() - 4) as u64 {
        return Err(FrameError::BadLength);
    }
    let n = n as usize;
    let len = b.len();
    assert(n as int == le_value(b@));
    let mut id: Vec<u8> = Vec::new();
    let mut i: usize = 0;
    while i < n
        invariant
            4 + n <= b@.len(),
            n as int == le_value(b@),
            b@.len() >= 4,
            len == b@.len(),
            i <= n,
            id@ == b@.subrange(4, 4 + i as int),
            all_ascii(id@),
        decreases n - i,
    {
        if b[4 + i] >= 128 {
            proof {
                assert(b@.subrange(4, 4 + n as int)[i as int] == b@[4 + i as int]);
            }
            return Err(FrameError::NotAscii);
        }
        id.push(b[4 + i]);
        i += 1;
        assert(id@ =~= b@.subrange(4, 4 + i as int));
    }
    let mut payload: Vec<u8> = Vec::new();
    let mut j: usize = 4 + n;
    while j < b.len()
        invariant
            4 + n <= j <= b@.len(),
            n as int == le_value(b@),
            b@.len() >= 4,
            all_ascii(id@),
            id@ == b@.subrange(4, 4 + n as int),
            payload@ == b@.subrange(4 + n as int, j as int),
        decreases b@.len() - j,
    {
        payload.push(b[j]);
        j += 1;
        assert(payload@ =~= b@.subrange(4 + n as int, j as int));
    }
    Ok((id, payload))
}

/// Reading an envelope that was written gives back the id and payload.
pub proof fn lemma_frame_round_trip(id: Seq<u8>, payload: Seq<u8>)
    requires
        id.len() <= u32::MAX,
        all_ascii(id),
    ensures
        frame_parts(envelope(id, payload)) == Ok::<(Seq<u8>, Seq<u8>), FrameError>((id, payload)),
{
    let b = envelope(id, payload);
    let n = id.len() as u32;
    assert(le_value(b) == n) by {
        assert(b[0] == (n % 256) as u8);
        assert(b[1] == ((n / 256) % 256) as u8);
        assert(b[2] == ((n / 65536) % 256) as u8);
        assert(b[3] == ((n / 16777216) % 256) as u8);
        assert((n % 256) + 256 * ((n / 256) % 256) + 65536 * ((n / 65536) % 256) + 16777216 * ((n
            / 16777216) % 256) == n) by (nonlinear_arith);
    }
    assert(b.subrange(4, 4 + le_value(b)) =~= id);
    assert(b.subrange(4 + le_value(b), b.len() as int) =~= payload);
}

/// Why a request to the launcher failed.
#[derive(Debug, PartialEq, Eq)]
pub enum LauncherError {
    /// The launcher is shutting down, or the channel to it failed.
    Shutdown,
    /// The launcher answered with an error.
    Protocol,
    /// The reply could not be read, or was not the reply expected.
    Deserialize,
}

/// How a reply with id `id` is read when `expected` is awaited: an error
/// reply, a shutdown notice, the awaited reply, or something unexpected.
pub open spec fn reply_outcome(id: Seq<char>, expected: Seq<char>) -> Result<(), LauncherError> {
    if id == "NetErr"@ {
        Err(LauncherError::Protocol)
    } else if id == "Shutdown"@ {
        Err(LauncherError::Shutdown)
    } else if id == expected {
        Ok(())
    } else {
        Err(LauncherError::Deserialize)
    }
}

/// The client's side of the channel to the launcher.
pub struct LauncherCli {
    /// Set once the launcher announced a shutdown or the channel failed;
    /// every request fails from then on.
    pub stopping: bool,
}

impl LauncherCli {
    pub fn new() -> (r: LauncherCli)
        ensures
            !r.stopping,
    {
        LauncherCli { stopping: false }
    }

    /// Whether a request may be sent.
    pub fn ready(&self) -> (r: Result<(), LauncherError>)
        ensures
            r == (if self.stopping {
                Err(LauncherError::Shutdown)
            } else {
                Ok::<(), LauncherError>(())
            }),
    {
        if self.stopping {
            Err(LauncherError::Shutdown)
        } else {
            Ok(())
        }
    }

    /// Records that the channel failed: a framing error or an early close.
    pub fn channel_failed(&mut self)
        ensures
            final(self).stopping,
    {
        self.stopping = true;
    }

    /// Reads the reply whose id is `id`, awaiting `expected`. A shutdown
    /// notice puts the client in the stopping state. Once stopping, every
    /// reply is refused with `Shutdown`.
    pub fn read_reply(&mut self, id: &str, expected: &str) -> (r: Result<(), LauncherError>)
        ensures
            old(self).stopping ==> r == Err::<(), LauncherError>(LauncherError::Shutdown)
                && final(self).stopping,
            !old(self).stopping ==> r == reply_outcome(id@, expected@) && final(self).stopping == (
            id@ == "Shutdown"@ && id@ != "NetErr"@),
    {
        if self.stopping {
            return Err(LauncherError::Shutdown);
        }
        if text_eq(id, "NetErr") {
            return Err(LauncherError::Protocol);
        }
        if text_eq(id, "Shutdown") {
            self.stopping = true;
            return Err(LauncherError::Shutdown);
        }
        if text_eq(id, expected) {
            Ok(())
        } else {
            Err(LauncherError::Deserialize)
        }
    }
}

} // verus!
