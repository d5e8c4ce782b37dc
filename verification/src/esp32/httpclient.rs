use vstd::prelude::*;
use vstd::utf8::valid_utf8;

verus! {

/// How many bytes the receive buffer holds.
pub const BUFFER_SIZE: usize = 256;

/// `std::str::from_utf8` on `bytes` and, when it fails, `Utf8Error::valid_up_to`: the
/// length of the longest prefix of `bytes` that is valid UTF-8. The documentation of
/// `from_utf8` says that it succeeds exactly on valid UTF-8, and that of `valid_up_to` that
/// it is the largest index such that the input up to it is valid UTF-8. The contract takes
/// "valid UTF-8" to be vstd's `valid_utf8`.
#[verifier::external_body]
fn utf8_valid_up_to(bytes: &[u8]) -> (r: usize)
    ensures
        r <= bytes.len(),
        valid_utf8(bytes@.take(r as int)),
        forall|j: int| r < j <= bytes.len() ==> !valid_utf8(#[trigger] bytes@.take(j)),
{
    match std::str::from_utf8(bytes) {
        Ok(_) => bytes.len(),
        Err(e) => e.valid_up_to(),
    }
}

/// Whether an HTTP status code is a success (`200..=299`), the only codes whose body is
/// read.
pub fn is_success(status: u16) -> (r: bool)
    ensures
        r == (200 <= status <= 299),
{
    200 <= status && status <= 299
}

/// The length of the longest prefix of `bytes` that is valid UTF-8.
pub open spec fn is_longest_valid_prefix(bytes: Seq<u8>, n: int) -> bool {
    &&& 0 <= n <= bytes.len()
    &&& valid_utf8(bytes.take(n))
    &&& forall|j: int| n < j <= bytes.len() ==> !valid_utf8(#[trigger] bytes.take(j))
}

/// What a step of the printer does with what was read.
#[derive(Debug)]
pub enum Received {
    /// The read brought nothing: the body is over, after `total` bytes.
    Finished { total: usize },
    /// Print these bytes, the longest valid UTF-8 prefix of what is buffered.
    Text(Vec<u8>),
}

/// Prints an HTTP response body that arrives in reads of at most `BUFFER_SIZE` bytes,
/// printing only whole UTF-8 characters: the bytes of a character cut by a read wait in
/// the buffer for the next one.
pub struct ResponsePrinter {
    pending: Vec<u8>,
    total: usize,
    received: Ghost<Seq<u8>>,
    printed: Ghost<Seq<u8>>,
}

impl ResponsePrinter {
    /// The bytes read and not printed yet (the start of the buffer).
    pub closed spec fn pending(&self) -> Seq<u8> {
        self.pending@
    }

    /// How many bytes have been read.
    pub closed spec fn total(&self) -> nat {
        self.total as nat
    }

    /// Every byte read so far.
    pub closed spec fn received(&self) -> Seq<u8> {
        self.received@
    }

    /// Every byte printed so far.
    pub closed spec fn printed(&self) -> Seq<u8> {
        self.printed@
    }

    /// The printer's invariant: the buffer never overflows, and what was printed followed
    /// by what waits is exactly what was read.
    pub closed spec fn wf(&self) -> bool {
        &&& self.pending@.len() <= BUFFER_SIZE
        &&& self.received@.len() == self.total
        &&& self.printed@ + self.pending@ == self.received@
    }

    /// A printer that has read nothing.
    pub fn new() -> (r: Self)
        ensures
            r.wf(),
            r.pending() == Seq::<u8>::empty(),
            r.total() == 0,
            r.received() == Seq::<u8>::empty(),
            r.printed() == Seq::<u8>::empty(),
    {
        ResponsePrinter {
            pending: Vec::new(),
            total: 0,
            received: Ghost(Seq::empty()),
            printed: Ghost(Seq::empty()),
        }
    }

    /// How many bytes the next read may bring: the free part of the buffer.
    pub fn room(&self) -> (r: usize)
        requires
            self.wf(),
        ensures
            r == BUFFER_SIZE - self.pending().len(),
    {
        BUFFER_SIZE - self.pending.len()
    }

    /// How many bytes have been read.
    pub fn total_read(&self) -> (r: usize)
        ensures
            r == self.total(),
    {
        self.total
    }

    /// Takes the bytes of one read. An empty read ends the body. Otherwise the bytes join
    /// those waiting, the longest valid UTF-8 prefix of them is handed out to be printed,
    /// and the rest waits for the next read.
    pub fn receive(&mut self, chunk: &[u8]) -> (r: Received)
        requires
            old(self).wf(),
            chunk.len() <= BUFFER_SIZE - old(self).pending().len(),
            old(self).total() + chunk.len() <= usize::MAX,
        ensures
            final(self).wf(),
            final(self).received() == old(self).received() + chunk@,
            final(self).total() == old(self).total() + chunk.len(),
            match r {
                Received::Finished { total } => {
                    &&& chunk.len() == 0
                    &&& total == old(self).total()
                    &&& final(self).pending() == old(self).pending()
                    &&& final(self).printed() == old(self).printed()
                },
                Received::Text(text) => {
                    let data = old(self).pending() + chunk@;
                    &&& chunk.len() > 0
                    &&& is_longest_valid_prefix(data, text@.len() as int)
                    &&& text@ == data.take(text@.len() as int)
                    &&& final(self).pending() == data.skip(text@.len() as int)
                    &&& final(self).printed() == old(self).printed() + text@
                },
            },
    {
        if chunk.len() == 0 {
            assert(self.received@ + chunk@ =~= self.received@);
            return Received::Finished { total: self.total };
        }
        let ghost old_pending = self.pending@;
        let mut data: Vec<u8> = Vec::new();
        std::mem::swap(&mut data, &mut self.pending);
        data.extend_from_slice(chunk);
        let valid = utf8_valid_up_to(data.as_slice());
        let ghost all = data@;
        assert(all =~= old_pending + chunk@);
        assert(is_longest_valid_prefix(all, valid as int));
        let rest = data.split_off(valid);
        proof {
            assert(data@ =~= all.take(valid as int));
            assert(rest@ =~= all.skip(valid as int));
            assert(self.printed@ + data@ + rest@ =~= self.printed@ + old_pending + chunk@);
        }
        self.pending = rest;
        self.total = self.total + chunk.len();
        self.received = Ghost(self.received@ + chunk@);
        self.printed = Ghost(self.printed@ + data@);
        Received::Text(data)
    }
}

/// Whatever reads came, what has been printed followed by what waits in the buffer is
/// exactly what has been read: no byte is lost, repeated or reordered.
pub proof fn law_printed_then_pending_is_received(printer: &ResponsePrinter)
    requires
        printer.wf(),
    ensures
        printer.printed() + printer.pending() == printer.received(),
        printer.received().len() == printer.total(),
{
}

} // verus!
