use vstd::prelude::*;

verus! {

/// How many bytes of a line the echo buffer holds.
pub const LINE_CAPACITY: usize = 128;

/// The byte that ends a line (carriage return, what the Enter key sends).
pub const ENTER: u8 = 13;

#[verifier::external_type_specification]
#[verifier::external_body]
#[verifier::reject_recursive_types(T)]
pub struct ExHeaplessVec<T, const N: usize>(heapless::Vec<T, N>);

/// The bytes that a `heapless::Vec<u8, 128>` holds, in order.
pub uninterp spec fn line_bytes(buffer: heapless::Vec<u8, 128>) -> Seq<u8>;

/// `heapless::Vec::new`: an empty vector.
#[verifier::external_body]
fn buffer_new() -> (r: heapless::Vec<u8, 128>)
    ensures
        line_bytes(r) == Seq::<u8>::empty(),
{
    heapless::Vec::new()
}

/// `heapless::Vec::push`: below the capacity the byte is appended and `Ok` comes back;
/// at the capacity nothing changes and the byte comes back in `Err`.
#[verifier::external_body]
fn buffer_push(buffer: &mut heapless::Vec<u8, 128>, byte: u8) -> (r: Result<(), u8>)
    requires
        line_bytes(*old(buffer)).len() <= 128,
    ensures
        line_bytes(*old(buffer)).len() < 128 ==> (r is Ok && line_bytes(*final(buffer))
            == line_bytes(*old(buffer)).push(byte)),
        line_bytes(*old(buffer)).len() == 128 ==> (r == Err::<(), u8>(byte) && line_bytes(*final(buffer)) == line_bytes(*old(buffer))),
{
    buffer.push(byte)
}

/// `heapless::Vec::clear`: the vector becomes empty.
#[verifier::external_body]
fn buffer_clear(buffer: &mut heapless::Vec<u8, 128>)
    ensures
        line_bytes(*final(buffer)) == Seq::<u8>::empty(),
{
    buffer.clear()
}

/// `heapless::Vec::as_slice`: the bytes held, in order.
#[verifier::external_body]
fn buffer_as_slice(buffer: &heapless::Vec<u8, 128>) -> (r: &[u8])
    ensures
        r@ == line_bytes(*buffer),
{
    buffer.as_slice()
}

/// What the echo sends back once a line is over.
#[derive(Debug, PartialEq, Eq)]
pub enum Echo {
    /// The line did not fit in the buffer: the message `"error: buffer full\n"`.
    BufferFull,
    /// The line, its final carriage return included, backwards, and then a newline.
    Reversed(Vec<u8>),
}

impl Echo {
    /// The message sent when the line does not fit.
    pub fn full_message() -> (r: &'static str)
        ensures
            r@ == "error: buffer full\n"@,
    {
        "error: buffer full\n"
    }
}

/// The serial echo: collects the bytes of a line and, at the carriage return, sends the
/// line back reversed.
pub struct LineEcho {
    buffer: heapless::Vec<u8, 128>,
}

impl LineEcho {
    /// The bytes of the current line received so far.
    pub closed spec fn line(&self) -> Seq<u8> {
        line_bytes(self.buffer)
    }

    /// An echo that has received nothing.
    pub fn new() -> (r: Self)
        ensures
            r.line() == Seq::<u8>::empty(),
    {
        LineEcho { buffer: buffer_new() }
    }

    /// Takes one byte from the serial line. When the buffer is already full the line is
    /// dropped with an error; a carriage return ends the line and it comes back reversed,
    /// the carriage return first, followed by a newline; any other byte is kept. After an
    /// answer the next line starts empty.
    pub fn receive(&mut self, byte: u8) -> (r: Option<Echo>)
        requires
            old(self).line().len() <= LINE_CAPACITY,
        ensures
            final(self).line().len() <= LINE_CAPACITY,
            old(self).line().len() == LINE_CAPACITY ==> r == Some(Echo::BufferFull)
                && final(self).line() == Seq::<u8>::empty(),
            old(self).line().len() < LINE_CAPACITY && byte == ENTER ==> ({
                &&& r matches Some(Echo::Reversed(out))
                &&& out@ == old(self).line().push(byte).reverse().push(10u8)
                &&& final(self).line() == Seq::<u8>::empty()
            }),
            old(self).line().len() < LINE_CAPACITY && byte != ENTER ==> r is None
                && final(self).line() == old(self).line().push(byte),
    {
        if buffer_push(&mut self.buffer, byte).is_err() {
            buffer_clear(&mut self.buffer);
            return Some(Echo::BufferFull);
        }
        if byte == ENTER {
            let line = buffer_as_slice(&self.buffer);
            let n = line.len();
            let mut out: Vec<u8> = Vec::new();
            let mut i = n;
            while i > 0
                invariant
                    i <= n,
                    n == line@.len(),
                    out@ == line@.subrange(i as int, n as int).reverse(),
                decreases i,
            {
                i = i - 1;
                out.push(line[i]);
                assert(line@.subrange(i as int, n as int).reverse() =~= line@.subrange(
                    i + 1,
                    n as int,
                ).reverse().push(line@[i as int]));
            }
            assert(line@.subrange(0, n as int) =~= line@);
            out.push(10u8);
            buffer_clear(&mut self.buffer);
            return Some(Echo::Reversed(out));
        }
        None
    }
}

} // verus!
