use vstd::prelude::*;

verus! {

/// The byte that ends a line of console output.
pub const LINE_TERMINATOR: u8 = 10;

/// The byte stream the transport has seen after a plain emission: the bytes
/// already sent, followed by the payload.
pub open spec fn emitted(sent: Seq<u8>, payload: Seq<u8>) -> Seq<u8> {
    sent + payload
}

/// The byte stream the transport has seen after a line-terminated emission:
/// the bytes already sent, the payload, then one line terminator.
pub open spec fn emitted_line(sent: Seq<u8>, payload: Seq<u8>) -> Seq<u8> {
    sent + payload + seq![LINE_TERMINATOR]
}

/// The console sink: a write-only text path that forwards each byte of a
/// payload, in order and unbuffered, to the serial transport's byte-send
/// primitive. `sent` is the stream of bytes handed to the transport so far.
pub struct Stdout {
    pub sent: Vec<u8>,
}

impl Stdout {
    /// A sink that has sent nothing yet; usable once the transport's own
    /// init step has returned.
    pub fn new() -> (out: Stdout)
        ensures
            out.sent@ == Seq::<u8>::empty(),
    {
        Stdout { sent: Vec::new() }
    }

    /// Hand a single byte to the transport.
    pub fn send_byte(&mut self, b: u8)
        ensures
            final(self).sent@ == old(self).sent@.push(b),
    {
        self.sent.push(b);
    }

    /// Forward every byte of the payload, first to last, one at a time.
    pub fn write_str(&mut self, s: &[u8])
        ensures
            final(self).sent@ == emitted(old(self).sent@, s@),
    {
        let ghost sent0 = self.sent@;
        let n = s.len();
        let mut i: usize = 0;
        while i < n
            invariant
                i <= n,
                n == s@.len(),
                self.sent@ == sent0 + s@.subrange(0, i as int),
            decreases n - i,
        {
            let b = s[i];
            self.send_byte(b);
            proof {
                assert(s@.subrange(0, i + 1) =~= s@.subrange(0, i as int).push(s@[i as int]));
            }
            i = i + 1;
        }
        proof {
            assert(s@.subrange(0, n as int) =~= s@);
        }
    }
}

/// Emit the payload as-is.
pub fn print(out: &mut Stdout, s: &[u8])
    ensures
        final(out).sent@ == emitted(old(out).sent@, s@),
{
    out.write_str(s);
}

/// Emit the payload followed by a trailing line terminator.
pub fn print_line(out: &mut Stdout, s: &[u8])
    ensures
        final(out).sent@ == emitted_line(old(out).sent@, s@),
{
    out.write_str(s);
    out.send_byte(LINE_TERMINATOR);
}

/// The two emission entry points differ by exactly the trailing terminator:
/// a line-terminated emission of a payload sends the same byte stream as a
/// plain emission of the payload with the terminator already appended.
pub proof fn lemma_line_termination(sent: Seq<u8>, payload: Seq<u8>)
    ensures
        emitted_line(sent, payload) == emitted(sent, payload.push(LINE_TERMINATOR)),
{
    assert(emitted_line(sent, payload) =~= emitted(sent, payload.push(LINE_TERMINATOR)));
}

} // verus!
