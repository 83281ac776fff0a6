//! In-memory I/O buffers for sandbox executions.
//!
//! Each execution owns its buffers: a `ProvidedInput` holding the stdin
//! payload and a `CapturedOutput` for each of stdout and stderr.  They model
//! the byte streams crossing the guest boundary; the host side feeds and
//! drains them.

use vstd::prelude::*;
use vstd::slice::slice_to_vec;
use vstd::string::StringSliceAdditionalSpecFns;

verus! {

/// What `String::from_utf8_lossy` decodes the given bytes to.
pub uninterp spec fn lossy_utf8(bytes: Seq<u8>) -> Seq<char>;

/// Relies on `String::from_utf8_lossy`: the decoding depends on the bytes
/// alone; empty input decodes to the empty string.
#[verifier::external_body]
fn lossy_string(bytes: &[u8]) -> (r: String)
    ensures
        r@ == lossy_utf8(bytes@),
        bytes@.len() == 0 ==> r@.len() == 0,
{
    String::from_utf8_lossy(bytes).to_string()
}

/// A buffer that captures a guest output stream.
#[derive(Debug)]
pub struct CapturedOutput {
    /// The bytes captured so far.
    pub buffer: Vec<u8>,
}

impl CapturedOutput {
    /// Create a new, empty capture buffer.
    pub fn new() -> (r: Self)
        ensures
            r.buffer@ == Seq::<u8>::empty(),
    {
        CapturedOutput { buffer: Vec::new() }
    }

    /// Append output bytes to the buffer; every byte is accepted.
    pub fn write_bytes(&mut self, buf: &[u8]) -> (n: usize)
        ensures
            final(self).buffer@ == old(self).buffer@ + buf@,
            n == buf@.len(),
    {
        let mut i: usize = 0;
        while i < buf.len()
            invariant
                i <= buf@.len(),
                self.buffer@ == old(self).buffer@ + buf@.take(i as int),
            decreases buf@.len() - i,
        {
            self.buffer.push(buf[i]);
            i = i + 1;
            proof {
                assert(self.buffer@ =~= old(self).buffer@ + buf@.take(i as int));
            }
        }
        proof {
            assert(old(self).buffer@ + buf@.take(buf@.len() as int) =~= old(self).buffer@ + buf@);
        }
        buf.len()
    }

    /// Decode the captured bytes permissively into text.
    pub fn to_string_lossy(&self) -> (r: String)
        ensures
            r@ == lossy_utf8(self.buffer@),
            self.buffer@.len() == 0 ==> r@.len() == 0,
    {
        lossy_string(self.buffer.as_slice())
    }

    /// Get the captured output as bytes.
    pub fn to_bytes(&self) -> (r: Vec<u8>)
        ensures
            r@ == self.buffer@,
    {
        slice_to_vec(self.buffer.as_slice())
    }

    /// Clear the buffer.
    pub fn clear(&mut self)
        ensures
            final(self).buffer@ == Seq::<u8>::empty(),
    {
        self.buffer.clear();
    }

    /// Get the length of captured data.
    pub fn len(&self) -> (r: usize)
        ensures
            r == self.buffer@.len(),
    {
        self.buffer.len()
    }

    /// Check if the buffer is empty.
    pub fn is_empty(&self) -> (r: bool)
        ensures
            r == (self.buffer@.len() == 0),
    {
        self.len() == 0
    }
}

impl Default for CapturedOutput {
    /// An empty capture buffer.
    fn default() -> (r: Self)
        ensures
            r.buffer@ == Seq::<u8>::empty(),
    {
        CapturedOutput::new()
    }
}

/// A reader that hands out a fixed byte payload from the front.
#[derive(Debug)]
pub struct ProvidedInput {
    /// The full payload.
    pub data: Vec<u8>,
    /// How many bytes have been read so far.
    pub pos: usize,
}

impl ProvidedInput {
    /// The read position never passes the end of the payload.
    pub open spec fn wf(&self) -> bool {
        self.pos <= self.data@.len()
    }

    /// Create a new input provider with the given data.
    pub fn new(data: Vec<u8>) -> (r: Self)
        ensures
            r.wf(),
            r.data@ == data@,
            r.pos == 0,
    {
        ProvidedInput { data, pos: 0 }
    }

    /// Create an empty input provider.
    pub fn empty() -> (r: Self)
        ensures
            r.wf(),
            r.data@ == Seq::<u8>::empty(),
            r.pos == 0,
    {
        ProvidedInput::new(Vec::new())
    }

    /// Create an input provider from the bytes of a string.
    pub fn from_str(s: &str) -> (r: Self)
        ensures
            r.wf(),
            r.data@ == s.spec_bytes(),
            r.pos == 0,
    {
        ProvidedInput::new(slice_to_vec(s.as_bytes()))
    }

    /// Read up to `max` bytes from the current position, advancing it.
    pub fn read_bytes(&mut self, max: usize) -> (r: Vec<u8>)
        requires
            old(self).wf(),
        ensures
            final(self).wf(),
            final(self).data@ == old(self).data@,
            final(self).pos == old(self).pos + r@.len(),
            r@ == old(self).data@.subrange(
                old(self).pos as int,
                old(self).pos + r@.len(),
            ),
            r@.len() == (if max <= old(self).data@.len() - old(self).pos {
                max as int
            } else {
                old(self).data@.len() - old(self).pos
            }),
    {
        let avail = self.data.len() - self.pos;
        let k = if max <= avail {
            max
        } else {
            avail
        };
        let end = self.pos + k;
        let mut r: Vec<u8> = Vec::new();
        let mut j = self.pos;
        while j < end
            invariant
                self == old(self),
                old(self).pos <= j <= end,
                end == old(self).pos + k,
                end <= self.data@.len(),
                r@ == self.data@.subrange(old(self).pos as int, j as int),
            decreases end - j,
        {
            r.push(self.data[j]);
            j = j + 1;
            proof {
                assert(r@ =~= self.data@.subrange(old(self).pos as int, j as int));
            }
        }
        self.pos = end;
        r
    }
}

impl Default for ProvidedInput {
    /// An empty input provider.
    fn default() -> (r: Self)
        ensures
            r.wf(),
            r.data@ == Seq::<u8>::empty(),
            r.pos == 0,
    {
        ProvidedInput::empty()
    }
}

/// The I/O buffers of one sandbox execution.
#[derive(Debug)]
pub struct SandboxIo {
    /// Input to provide to the sandbox.
    pub stdin: ProvidedInput,
    /// Captured stdout.
    pub stdout: CapturedOutput,
    /// Captured stderr.
    pub stderr: CapturedOutput,
}

impl SandboxIo {
    /// Create I/O buffers with an optional stdin payload.
    pub fn new(input: Option<&str>) -> (r: Self)
        ensures
            r.stdin.wf(),
            r.stdin.pos == 0,
            (match input {
                Some(s) => r.stdin.data@ == s.spec_bytes(),
                None => r.stdin.data@ == Seq::<u8>::empty(),
            }),
            r.stdout.buffer@ == Seq::<u8>::empty(),
            r.stderr.buffer@ == Seq::<u8>::empty(),
    {
        SandboxIo {
            stdin: match input {
                Some(s) => ProvidedInput::from_str(s),
                None => ProvidedInput::empty(),
            },
            stdout: CapturedOutput::new(),
            stderr: CapturedOutput::new(),
        }
    }

    /// Get the captured stdout as text.
    pub fn stdout_str(&self) -> (r: String)
        ensures
            r@ == lossy_utf8(self.stdout.buffer@),
            self.stdout.buffer@.len() == 0 ==> r@.len() == 0,
    {
        self.stdout.to_string_lossy()
    }

    /// Get the captured stderr as text.
    pub fn stderr_str(&self) -> (r: String)
        ensures
            r@ == lossy_utf8(self.stderr.buffer@),
            self.stderr.buffer@.len() == 0 ==> r@.len() == 0,
    {
        self.stderr.to_string_lossy()
    }
}

impl Default for SandboxIo {
    /// I/O buffers with no stdin payload.
    fn default() -> (r: Self)
        ensures
            r.stdin.wf(),
            r.stdin.pos == 0,
            r.stdin.data@ == Seq::<u8>::empty(),
            r.stdout.buffer@ == Seq::<u8>::empty(),
            r.stderr.buffer@ == Seq::<u8>::empty(),
    {
        SandboxIo::new(None)
    }
}

} // verus!
