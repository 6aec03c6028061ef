//! Splitting a byte stream into newline-delimited chunks.
//!
//! A body is cut at every `'\n'`; the newline itself belongs to no chunk.
//! Bytes after the last newline form a final chunk when the body ends, unless
//! there are none.

use vstd::prelude::*;

verus! {

/// The delimiter between chunks.
pub const NEWLINE: u8 = 10;

/// The bytes after the last newline of `data`: the chunk still being read.
pub open spec fn remainder(data: Seq<u8>) -> Seq<u8>
    decreases data.len(),
{
    if data.len() == 0 {
        Seq::empty()
    } else if data.last() == NEWLINE {
        Seq::empty()
    } else {
        remainder(data.drop_last()).push(data.last())
    }
}

/// The chunks of `data` that a newline has closed, in order.
pub open spec fn complete_lines(data: Seq<u8>) -> Seq<Seq<u8>>
    decreases data.len(),
{
    if data.len() == 0 {
        Seq::empty()
    } else if data.last() == NEWLINE {
        complete_lines(data.drop_last()).push(remainder(data.drop_last()))
    } else {
        complete_lines(data.drop_last())
    }
}

/// The last chunk of a body that has ended: what follows its last newline,
/// if anything does.
pub open spec fn trailing_line(data: Seq<u8>) -> Seq<Seq<u8>> {
    if remainder(data).len() > 0 {
        seq![remainder(data)]
    } else {
        Seq::empty()
    }
}

/// All chunks of a whole body, in order.
pub open spec fn split_lines(data: Seq<u8>) -> Seq<Seq<u8>> {
    complete_lines(data) + trailing_line(data)
}

/// The contents of a list of byte vectors.
pub open spec fn contents(lines: Seq<Vec<u8>>) -> Seq<Seq<u8>> {
    lines.map_values(|l: Vec<u8>| l@)
}

/// Every chunk followed by a newline, concatenated.
pub open spec fn join_terminated(lines: Seq<Seq<u8>>) -> Seq<u8>
    decreases lines.len(),
{
    if lines.len() == 0 {
        Seq::empty()
    } else {
        join_terminated(lines.drop_last()) + lines.last().push(NEWLINE)
    }
}

/// Reading `a` and then `b` closes the chunks of `a`, and then those of `b`
/// read after what `a` left open.
pub proof fn lemma_split_append(a: Seq<u8>, b: Seq<u8>)
    ensures
        complete_lines(a + b) == complete_lines(a) + complete_lines(remainder(a) + b),
        remainder(a + b) == remainder(remainder(a) + b),
    decreases b.len(),
{
    if b.len() == 0 {
        lemma_remainder_is_open(a);
    } else {
        let b0 = b.drop_last();
        lemma_split_append(a, b0);
        assert((a + b).drop_last() =~= a + b0);
        assert((remainder(a) + b).drop_last() =~= remainder(a) + b0);
    }
}

/// What is left open holds no newline, so reading it again closes nothing
/// and leaves all of it open.
pub proof fn lemma_remainder_is_open(data: Seq<u8>)
    ensures
        !remainder(data).contains(NEWLINE),
        complete_lines(remainder(data)) == Seq::<Seq<u8>>::empty(),
        remainder(remainder(data)) == remainder(data),
    decreases data.len(),
{
    if data.len() != 0 && data.last() != NEWLINE {
        let open = remainder(data.drop_last());
        lemma_remainder_is_open(data.drop_last());
        lemma_no_newline_stays_open(open.push(data.last()));
    }
}

/// Data without a newline closes no chunk and is left open as a whole.
pub proof fn lemma_no_newline_stays_open(data: Seq<u8>)
    requires
        forall|i: int| 0 <= i < data.len() ==> data[i] != NEWLINE,
    ensures
        !data.contains(NEWLINE),
        complete_lines(data) == Seq::<Seq<u8>>::empty(),
        remainder(data) == data,
    decreases data.len(),
{
    if data.len() != 0 {
        lemma_no_newline_stays_open(data.drop_last());
    }
}

/// No closed chunk holds a newline.
pub proof fn lemma_complete_lines_hold_no_newline(data: Seq<u8>)
    ensures
        forall|i: int|
            0 <= i < complete_lines(data).len() ==> !(#[trigger] complete_lines(data)[i]).contains(
                NEWLINE,
            ),
    decreases data.len(),
{
    if data.len() != 0 {
        let front = data.drop_last();
        lemma_complete_lines_hold_no_newline(front);
        lemma_remainder_is_open(front);
        assert forall|i: int| 0 <= i < complete_lines(data).len() implies !(
        #[trigger] complete_lines(data)[i]).contains(NEWLINE) by {
            if i < complete_lines(front).len() {
                assert(complete_lines(data)[i] == complete_lines(front)[i]);
            }
        }
    }
}

/// No chunk of a body holds a newline.
pub proof fn lemma_lines_hold_no_newline(data: Seq<u8>)
    ensures
        forall|i: int|
            0 <= i < split_lines(data).len() ==> !(#[trigger] split_lines(data)[i]).contains(
                NEWLINE,
            ),
{
    lemma_remainder_is_open(data);
    lemma_complete_lines_hold_no_newline(data);
}

/// The chunks of a body spell it out again: each closed chunk with its
/// newline, then what was left open.
pub proof fn lemma_lines_rebuild_data(data: Seq<u8>)
    ensures
        join_terminated(complete_lines(data)) + remainder(data) == data,
    decreases data.len(),
{
    if data.len() != 0 {
        let front = data.drop_last();
        lemma_lines_rebuild_data(front);
        assert(front.push(data.last()) =~= data);
        if data.last() == NEWLINE {
            let closed = complete_lines(front).push(remainder(front));
            assert(closed.drop_last() =~= complete_lines(front));
        }
    }
}

/// Joining a list and one more chunk joins the list and then adds the chunk
/// with its newline.
pub proof fn lemma_join_push(lines: Seq<Seq<u8>>, line: Seq<u8>)
    ensures
        join_terminated(lines.push(line)) == join_terminated(lines) + line.push(NEWLINE),
{
    assert(lines.push(line).drop_last() =~= lines);
}

/// Splits a whole body into its chunks.
pub fn split(data: &[u8]) -> (lines: Vec<Vec<u8>>)
    ensures
        contents(lines@) == split_lines(data@),
{
    let mut lines: Vec<Vec<u8>> = Vec::new();
    let mut open: Vec<u8> = Vec::new();
    let n: usize = data.len();
    let mut i: usize = 0;
    while i < n
        invariant
            i <= n,
            n == data@.len(),
            contents(lines@) == complete_lines(data@.take(i as int)),
            open@ == remainder(data@.take(i as int)),
        decreases n - i,
    {
        let byte: u8 = data[i];
        proof {
            assert(data@.take(i + 1).drop_last() =~= data@.take(i as int));
        }
        if byte == NEWLINE {
            let closed = open;
            open = Vec::new();
            lines.push(closed);
        } else {
            open.push(byte);
        }
        i = i + 1;
    }
    assert(data@.take(n as int) =~= data@);
    if open.len() > 0 {
        lines.push(open);
    }
    lines
}

/// Where a splitter stands in its body.
#[derive(Copy, Clone, Debug, PartialEq, Eq, Structural)]
pub enum SplitterStatus {
    /// More of the body may follow.
    Reading,
    /// The body ended and its last chunk was handed out.
    Ended,
    /// A read failed; nothing more is handed out.
    Failed,
}

/// Splits a body that arrives piece by piece.
///
/// The splitter hands out each chunk as soon as its newline has been read.
/// After a read error it hands out nothing more, not even the chunk that was
/// open, and keeps the error's text for whoever decides what becomes of the
/// object.
pub struct LineSplitter {
    open: Vec<u8>,
    status: SplitterStatus,
    read_error: Option<String>,
    seen: Ghost<Seq<u8>>,
    emitted: Ghost<Seq<Seq<u8>>>,
}

impl LineSplitter {
    /// Every byte read while the splitter was reading.
    pub closed spec fn seen(&self) -> Seq<u8> {
        self.seen@
    }

    /// Every chunk handed out so far, in order.
    pub closed spec fn emitted(&self) -> Seq<Seq<u8>> {
        self.emitted@
    }

    /// The bytes of the chunk that no newline has closed yet.
    pub closed spec fn open(&self) -> Seq<u8> {
        self.open@
    }

    pub closed spec fn status(&self) -> SplitterStatus {
        self.status
    }

    /// The text of the read error that stopped the splitter, if one did.
    pub closed spec fn read_error(&self) -> Option<String> {
        self.read_error
    }

    /// What holds of every splitter: what it has handed out is what the bytes
    /// it has read call for.
    pub closed spec fn wf(&self) -> bool {
        &&& self.status == SplitterStatus::Failed <==> self.read_error is Some
        &&& self.status == SplitterStatus::Reading ==> {
            &&& self.open@ == remainder(self.seen@)
            &&& self.emitted@ == complete_lines(self.seen@)
        }
        &&& self.status == SplitterStatus::Ended ==> {
            &&& self.open@.len() == 0
            &&& self.emitted@ == split_lines(self.seen@)
        }
        &&& self.status == SplitterStatus::Failed ==> {
            &&& self.open@.len() == 0
            &&& self.emitted@ == complete_lines(self.seen@)
        }
    }

    /// What well-formedness says, for use outside this module.
    pub proof fn lemma_wf(&self)
        requires
            self.wf(),
        ensures
            self.status() == SplitterStatus::Failed <==> self.read_error() is Some,
            self.status() == SplitterStatus::Ended ==> self.emitted() == split_lines(self.seen()),
            self.status() != SplitterStatus::Ended ==> self.emitted() == complete_lines(
                self.seen(),
            ),
            self.status() == SplitterStatus::Reading ==> self.open() == remainder(self.seen()),
            self.status() != SplitterStatus::Reading ==> self.open().len() == 0,
    {
    }

    /// A splitter at the start of a body.
    pub fn new() -> (splitter: Self)
        ensures
            splitter.wf(),
            splitter.status() == SplitterStatus::Reading,
            splitter.seen() == Seq::<u8>::empty(),
            splitter.emitted() == Seq::<Seq<u8>>::empty(),
            splitter.open() == Seq::<u8>::empty(),
            splitter.read_error() is None,
    {
        LineSplitter {
            open: Vec::new(),
            status: SplitterStatus::Reading,
            read_error: None,
            seen: Ghost(Seq::empty()),
            emitted: Ghost(Seq::empty()),
        }
    }

    /// Whether the splitter still takes bytes.
    pub fn is_reading(&self) -> (reading: bool)
        ensures
            reading == (self.status() == SplitterStatus::Reading),
    {
        self.status == SplitterStatus::Reading
    }

    /// The text of the read error that stopped the splitter, if one did.
    pub fn error(&self) -> (error: Option<String>)
        ensures
            error == self.read_error(),
    {
        self.read_error.clone()
    }

    /// Takes the next piece of the body and hands out the chunks that it
    /// closes. A splitter that has ended or failed hands out nothing and
    /// stays as it is.
    pub fn push(&mut self, piece: &[u8]) -> (lines: Vec<Vec<u8>>)
        requires
            old(self).wf(),
        ensures
            final(self).wf(),
            final(self).status() == old(self).status(),
            final(self).read_error() == old(self).read_error(),
            final(self).emitted() == old(self).emitted() + contents(lines@),
            old(self).status() == SplitterStatus::Reading ==> {
                &&& final(self).seen() == old(self).seen() + piece@
                &&& contents(lines@) == complete_lines(old(self).open() + piece@)
                &&& final(self).open() == remainder(old(self).open() + piece@)
            },
            old(self).status() != SplitterStatus::Reading ==> {
                &&& *final(self) == *old(self)
                &&& lines@.len() == 0
            },
    {
        let mut lines: Vec<Vec<u8>> = Vec::new();
        if self.status != SplitterStatus::Reading {
            return lines;
        }
        let ghost before = self.open@;
        let n: usize = piece.len();
        let mut i: usize = 0;
        proof {
            lemma_remainder_is_open(self.seen@);
        }
        while i < n
            invariant
                i <= n,
                n == piece@.len(),
                contents(lines@) == complete_lines(before + piece@.take(i as int)),
                self.open@ == remainder(before + piece@.take(i as int)),
                self.status == old(self).status,
                self.read_error == old(self).read_error,
                self.seen == old(self).seen,
                self.emitted == old(self).emitted,
            decreases n - i,
        {
            let byte: u8 = piece[i];
            proof {
                assert((before + piece@.take(i + 1)).drop_last() =~= before + piece@.take(
                    i as int,
                ));
            }
            if byte == NEWLINE {
                let mut closed: Vec<u8> = Vec::new();
                std::mem::swap(&mut closed, &mut self.open);
                lines.push(closed);
            } else {
                self.open.push(byte);
            }
            i = i + 1;
        }
        proof {
            assert(piece@.take(n as int) =~= piece@);
            lemma_split_append(self.seen@, piece@);
            self.seen = Ghost(self.seen@ + piece@);
            self.emitted = Ghost(self.emitted@ + contents(lines@));
        }
        lines
    }

    /// Records a read error. The chunk that was open is dropped, and the
    /// splitter hands out nothing from here on. A splitter that has ended or
    /// has failed before stays as it is: the first error is the one kept.
    pub fn fail(&mut self, error: String)
        requires
            old(self).wf(),
        ensures
            final(self).wf(),
            final(self).seen() == old(self).seen(),
            final(self).emitted() == old(self).emitted(),
            old(self).status() == SplitterStatus::Reading ==> {
                &&& final(self).status() == SplitterStatus::Failed
                &&& final(self).read_error() == Some(error)
                &&& final(self).open() == Seq::<u8>::empty()
            },
            old(self).status() != SplitterStatus::Reading ==> *final(self) == *old(self),
    {
        if self.status == SplitterStatus::Reading {
            self.open = Vec::new();
            self.status = SplitterStatus::Failed;
            self.read_error = Some(error);
        }
    }

    /// Ends the body and hands out the chunk that was open, if it holds any
    /// byte. A splitter that has ended or failed hands out nothing.
    pub fn finish(&mut self) -> (last: Option<Vec<u8>>)
        requires
            old(self).wf(),
        ensures
            final(self).wf(),
            final(self).seen() == old(self).seen(),
            final(self).read_error() == old(self).read_error(),
            old(self).status() == SplitterStatus::Reading ==> {
                &&& final(self).status() == SplitterStatus::Ended
                &&& final(self).open() == Seq::<u8>::empty()
                &&& final(self).emitted() == split_lines(old(self).seen())
                &&& last is Some == (old(self).open().len() > 0)
                &&& last matches Some(l) ==> l@ == old(self).open()
            },
            old(self).status() != SplitterStatus::Reading ==> {
                &&& *final(self) == *old(self)
                &&& last is None
            },
            final(self).emitted() == old(self).emitted() + match last {
                Some(l) => seq![l@],
                None => Seq::empty(),
            },
    {
        if self.status != SplitterStatus::Reading {
            return None;
        }
        self.status = SplitterStatus::Ended;
        if self.open.len() > 0 {
            let mut last: Vec<u8> = Vec::new();
            std::mem::swap(&mut last, &mut self.open);
            proof {
                self.emitted = Ghost(self.emitted@ + seq![last@]);
            }
            Some(last)
        } else {
            None
        }
    }
}

} // verus!
