//! What every reader does once it is open: step from header to header, and
//! read the payload of the member it is on.

use vstd::prelude::*;
use vstd::slice::slice_subrange;

use crate::archive::{Handle, ARCHIVE_EOF, ARCHIVE_OK};
use crate::entry::BorrowedEntry;
use crate::error::{system_error, ArchiveError, ArchiveResult, ErrorSlot};

verus! {

/// The entry that a header read gives: the one the engine moved to if its
/// status is `ARCHIVE_OK`, none for any other status. The end of the archive
/// and a failed read both give none.
pub open spec fn header_of(status: i32, entry: BorrowedEntry) -> Option<BorrowedEntry> {
    if status == ARCHIVE_OK {
        Some(entry)
    } else {
        None
    }
}

/// The result of a payload read that returned `count`: the count if it is
/// not negative (zero at the end of the member's data), the recorded error
/// if it is.
pub open spec fn read_result(count: isize, slot: ErrorSlot) -> ArchiveResult<usize> {
    if count >= 0 {
        Ok(count as usize)
    } else {
        Err(system_error(slot))
    }
}

/// The result of a block read: the block and its offset for `ARCHIVE_OK`,
/// no block for `ARCHIVE_EOF`, the recorded error for any other status.
pub open spec fn block_result(status: i32, block: Seq<u8>, offset: i64, slot: ErrorSlot)
    -> ArchiveResult<Option<(Seq<u8>, i64)>> {
    if status == ARCHIVE_EOF {
        Ok(None)
    } else if status == ARCHIVE_OK {
        Ok(Some((block, offset)))
    } else {
        Err(system_error(slot))
    }
}

/// What a block read returned, as values.
pub open spec fn block_view(result: ArchiveResult<Option<(&[u8], i64)>>) -> ArchiveResult<
    Option<(Seq<u8>, i64)>,
> {
    match result {
        Ok(Some((block, offset))) => Ok(Some((block@, offset))),
        Ok(None) => Ok(None),
        Err(error) => Err(error),
    }
}

/// A reader that is open. The engine has a cursor in the archive; each call
/// here takes what one engine call returned and decides what the caller
/// gets.
pub trait Reader: Handle {
    /// The entry that the reader's cursor is on.
    spec fn current(&self) -> BorrowedEntry;

    /// The slot that holds the view of the current entry.
    fn entry(&mut self) -> (entry: &mut BorrowedEntry)
        ensures
            *entry == old(self).current(),
            final(self).current() == *final(entry),
            final(self).spec_handle() == old(self).spec_handle(),
    ;

    /// Steps to the next member. `status` is what the engine's header read
    /// returned and `entry` the view of the record it moved to. For
    /// `ARCHIVE_OK` that view is the current entry from now on and is lent
    /// out; for any other status there is none. The view that was current
    /// before the call is gone either way.
    fn next_header(&mut self, status: i32, entry: BorrowedEntry) -> (header: Option<
        &BorrowedEntry,
    >)
        ensures
            final(self).current() == entry,
            final(self).spec_handle() == old(self).spec_handle(),
            match header {
                Some(current) => Some(*current) == header_of(status, entry),
                None => header_of(status, entry) is None,
            },
    {
        let slot = self.entry();
        *slot = entry;
        if status == ARCHIVE_OK {
            Some(&*slot)
        } else {
            None
        }
    }

    /// The outcome of reading payload into a buffer. `count` is what the
    /// engine's read returned.
    fn read(&mut self, count: isize, slot: ErrorSlot) -> (result: ArchiveResult<usize>)
        ensures
            result == read_result(count, slot),
            final(self).current() == old(self).current(),
            final(self).spec_handle() == old(self).spec_handle(),
    {
        if count >= 0 {
            Ok(count as usize)
        } else {
            Err(ArchiveError::from_slot(slot))
        }
    }

    /// Starts reading the whole payload of the current member: nothing is
    /// gathered yet. Each read that follows is taken by `ReadAll::step`.
    fn read_all(&mut self) -> (state: ReadAll)
        ensures
            state.gathered() == Seq::<u8>::empty(),
            final(self).current() == old(self).current(),
            final(self).spec_handle() == old(self).spec_handle(),
    {
        ReadAll::new()
    }

    /// The outcome of reading one block of payload. `block` and `offset`
    /// are what the engine pointed to; they are handed on untouched, the
    /// offset being the block's place in the member's data.
    fn read_block<'a>(&self, status: i32, block: &'a [u8], offset: i64, slot: ErrorSlot) -> (result:
        ArchiveResult<Option<(&'a [u8], i64)>>)
        ensures
            block_view(result) == block_result(status, block@, offset, slot),
    {
        if status == ARCHIVE_EOF {
            Ok(None)
        } else if status == ARCHIVE_OK {
            Ok(Some((block, offset)))
        } else {
            Err(ArchiveError::from_slot(slot))
        }
    }
}

/// The step by which the accumulator of a whole member is asked to grow.
pub const READ_INCREMENT: usize = 65536;

/// Where reading a whole member stands after one read.
pub enum ReadAllStep {
    /// The member has more data: read again.
    More(ReadAll),
    /// The member's data ended: this is all of it.
    Done(Vec<u8>),
    /// A read failed. What was gathered before it is dropped.
    Failed(ArchiveError),
}

/// `ReadAllStep` as values.
pub enum ReadAllView {
    More(Seq<u8>),
    Done(Seq<u8>),
    Failed(ArchiveError),
}

/// What one read gave: the buffer it read into, the count the engine
/// returned, and what the handle's error slot held after it.
pub struct ReadReply {
    pub chunk: Seq<u8>,
    pub count: int,
    pub slot: ErrorSlot,
}

/// Where reading stands after a read that returned `count`, with `gathered`
/// gathered before it: failed for a negative count, done for zero, and
/// otherwise longer by the first `count` bytes of the buffer.
pub open spec fn read_all_step(gathered: Seq<u8>, reply: ReadReply) -> ReadAllView {
    if reply.count < 0 {
        ReadAllView::Failed(system_error(reply.slot))
    } else if reply.count == 0 {
        ReadAllView::Done(gathered)
    } else {
        ReadAllView::More(gathered + reply.chunk.subrange(0, reply.count))
    }
}

/// Where reading stands after a run of reads, taken in their order up to
/// the first that ends it.
pub open spec fn read_all_run(gathered: Seq<u8>, replies: Seq<ReadReply>) -> ReadAllView
    decreases replies.len(),
{
    if replies.len() == 0 {
        ReadAllView::More(gathered)
    } else {
        match read_all_step(gathered, replies[0]) {
            ReadAllView::More(longer) => read_all_run(longer, replies.drop_first()),
            ended => ended,
        }
    }
}

/// The bytes that a run of reads delivered, each read counted with the
/// bytes it reported.
pub open spec fn delivered(replies: Seq<ReadReply>) -> Seq<u8>
    decreases replies.len(),
{
    if replies.len() == 0 {
        Seq::empty()
    } else {
        replies[0].chunk.subrange(0, replies[0].count) + delivered(replies.drop_first())
    }
}

/// Whether every read of a run delivered data: a count above zero and
/// within its buffer.
pub open spec fn all_deliver(replies: Seq<ReadReply>) -> bool {
    forall|i: int| 0 <= i < replies.len() ==> 0 < (#[trigger] replies[i]).count <= replies[i].chunk.len()
}

/// How many bytes to ask the engine for when `len` bytes are gathered: up to
/// the next multiple of `READ_INCREMENT`, a whole increment if `len` is on
/// one.
pub open spec fn window_at(len: nat) -> nat {
    (READ_INCREMENT - len % (READ_INCREMENT as nat)) as nat
}

/// The payload of one member in the making: what the reads so far gave, in
/// their order.
pub struct ReadAll {
    payload: Vec<u8>,
}

impl View for ReadAllStep {
    type V = ReadAllView;

    open spec fn view(&self) -> ReadAllView {
        match self {
            ReadAllStep::More(state) => ReadAllView::More(state.gathered()),
            ReadAllStep::Done(payload) => ReadAllView::Done(payload@),
            ReadAllStep::Failed(error) => ReadAllView::Failed(*error),
        }
    }
}

impl ReadAll {
    /// The bytes gathered so far.
    pub closed spec fn gathered(&self) -> Seq<u8> {
        self.payload@
    }

    /// The start: nothing gathered.
    pub fn new() -> (state: Self)
        ensures
            state.gathered() == Seq::<u8>::empty(),
    {
        ReadAll { payload: Vec::with_capacity(READ_INCREMENT) }
    }

    /// How many bytes to ask the engine for next. The accumulator grows in
    /// steps of `READ_INCREMENT`; a read fills what is left of the current
    /// step.
    pub fn window(&self) -> (window: usize)
        ensures
            window == window_at(self.gathered().len()),
            1 <= window <= READ_INCREMENT,
    {
        READ_INCREMENT - self.payload.len() % READ_INCREMENT
    }

    /// Takes what one read gave. `chunk` is the buffer that was read into
    /// and `count` what the engine returned, which is at most the buffer's
    /// length.
    pub fn step(self, chunk: &[u8], count: isize, slot: ErrorSlot) -> (next: ReadAllStep)
        requires
            count <= chunk@.len(),
        ensures
            next@ == read_all_step(
                self.gathered(),
                ReadReply { chunk: chunk@, count: count as int, slot },
            ),
    {
        if count < 0 {
            ReadAllStep::Failed(ArchiveError::from_slot(slot))
        } else if count == 0 {
            ReadAllStep::Done(self.payload)
        } else {
            let mut payload = self.payload;
            let ghost before = payload@;
            payload.extend_from_slice(slice_subrange(chunk, 0, count as usize));
            assert(payload@ =~= before + chunk@.subrange(0, count as int));
            if payload.len() % READ_INCREMENT == 0 {
                payload.reserve(READ_INCREMENT);
            }
            ReadAllStep::More(ReadAll { payload })
        }
    }
}

/// Reading a whole member gives exactly the member's bytes: however the
/// engine cuts the data into reads, and wherever the cuts fall with respect
/// to the accumulator's growth, the reads that deliver data followed by the
/// one that reports the end leave all the delivered bytes, in their order,
/// and nothing else.
pub proof fn lemma_read_all_gathers(gathered: Seq<u8>, reads: Seq<ReadReply>, end: ReadReply)
    requires
        all_deliver(reads),
        end.count == 0,
    ensures
        read_all_run(gathered, reads.push(end)) == ReadAllView::Done(gathered + delivered(reads)),
    decreases reads.len(),
{
    let replies = reads.push(end);
    if reads.len() == 0 {
        assert(replies[0] == end);
        assert(replies.drop_first().len() == 0);
        assert(gathered + delivered(reads) =~= gathered);
    } else {
        let first = reads[0];
        assert(replies[0] == first);
        assert(replies.drop_first() =~= reads.drop_first().push(end));
        assert(all_deliver(reads.drop_first())) by {
            assert forall|i: int| 0 <= i < reads.drop_first().len() implies 0 < (
            #[trigger] reads.drop_first()[i]).count <= reads.drop_first()[i].chunk.len() by {
                assert(reads.drop_first()[i] == reads[i + 1]);
            }
        }
        let longer = gathered + first.chunk.subrange(0, first.count);
        lemma_read_all_gathers(longer, reads.drop_first(), end);
        assert(longer + delivered(reads.drop_first()) =~= gathered + delivered(reads));
    }
}

/// A read that fails ends the whole read with the error that the engine
/// recorded, whatever was gathered before it.
pub proof fn lemma_read_all_fails(gathered: Seq<u8>, reads: Seq<ReadReply>, failed: ReadReply, rest: Seq<ReadReply>)
    requires
        all_deliver(reads),
        failed.count < 0,
    ensures
        read_all_run(gathered, reads.push(failed) + rest) == ReadAllView::Failed(
            system_error(failed.slot),
        ),
    decreases reads.len(),
{
    let replies = reads.push(failed) + rest;
    if reads.len() == 0 {
        assert(replies[0] == failed);
    } else {
        let first = reads[0];
        assert(replies[0] == first);
        assert(replies.drop_first() =~= reads.drop_first().push(failed) + rest);
        assert(all_deliver(reads.drop_first())) by {
            assert forall|i: int| 0 <= i < reads.drop_first().len() implies 0 < (
            #[trigger] reads.drop_first()[i]).count <= reads.drop_first()[i].chunk.len() by {
                assert(reads.drop_first()[i] == reads[i + 1]);
            }
        }
        lemma_read_all_fails(
            gathered + first.chunk.subrange(0, first.count),
            reads.drop_first(),
            failed,
            rest,
        );
    }
}

/// What one header read gave: the engine's status and the view of the
/// record it moved to.
pub struct HeaderReply {
    pub status: i32,
    pub entry: BorrowedEntry,
}

/// The entries that stepping through `replies` lends out, one per header
/// read, up to the first read that gives none.
pub open spec fn headers(replies: Seq<HeaderReply>) -> Seq<BorrowedEntry>
    decreases replies.len(),
{
    if replies.len() == 0 {
        Seq::empty()
    } else {
        match header_of(replies[0].status, replies[0].entry) {
            Some(entry) => seq![entry] + headers(replies.drop_first()),
            None => Seq::empty(),
        }
    }
}

/// The header reads of an archive with the given members: one `ARCHIVE_OK`
/// for each, in the archive's order.
pub open spec fn member_replies(members: Seq<BorrowedEntry>) -> Seq<HeaderReply> {
    Seq::new(members.len(), |i: int| HeaderReply { status: ARCHIVE_OK, entry: members[i] })
}

/// Stepping through an archive lends out every member once, in the
/// archive's order, and stops at the first header read that is not
/// `ARCHIVE_OK`; what the engine would answer after that is never seen.
pub proof fn lemma_headers_in_order(
    members: Seq<BorrowedEntry>,
    end: HeaderReply,
    rest: Seq<HeaderReply>,
)
    requires
        end.status != ARCHIVE_OK,
    ensures
        headers(member_replies(members).push(end) + rest) == members,
    decreases members.len(),
{
    let replies = member_replies(members).push(end) + rest;
    if members.len() == 0 {
        assert(replies[0] == end);
        assert(headers(replies) =~= members);
    } else {
        assert(replies[0] == HeaderReply { status: ARCHIVE_OK, entry: members[0] });
        assert(replies.drop_first() =~= member_replies(members.drop_first()).push(end) + rest);
        lemma_headers_in_order(members.drop_first(), end, rest);
        assert(seq![members[0]] + members.drop_first() =~= members);
    }
}

/// What one block read gave: the engine's status, the block and offset it
/// pointed to, and what the handle's error slot held after it.
pub struct BlockReply {
    pub status: i32,
    pub block: Seq<u8>,
    pub offset: i64,
    pub slot: ErrorSlot,
}

/// The blocks that reading block by block through `replies` hands out, each
/// with its offset, up to the first read that hands out none.
pub open spec fn blocks(replies: Seq<BlockReply>) -> Seq<(Seq<u8>, i64)>
    decreases replies.len(),
{
    if replies.len() == 0 {
        Seq::empty()
    } else {
        match block_result(replies[0].status, replies[0].block, replies[0].offset, replies[0].slot) {
            Ok(Some(block)) => seq![block] + blocks(replies.drop_first()),
            _ => Seq::empty(),
        }
    }
}

/// The block reads of a member whose data the engine hands out as `data`:
/// one `ARCHIVE_OK` for each block.
pub open spec fn data_replies(data: Seq<(Seq<u8>, i64)>, slot: ErrorSlot) -> Seq<BlockReply> {
    Seq::new(
        data.len(),
        |i: int| BlockReply { status: ARCHIVE_OK, block: data[i].0, offset: data[i].1, slot },
    )
}

/// Reading a member block by block hands out the engine's blocks as they
/// are: each once, in the engine's order, with the engine's offset, up to
/// the read that reports the end. So the offsets rise where the engine's do,
/// and the blocks put together are what the engine put out.
pub proof fn lemma_blocks_in_order(
    data: Seq<(Seq<u8>, i64)>,
    slot: ErrorSlot,
    end: BlockReply,
    rest: Seq<BlockReply>,
)
    requires
        end.status != ARCHIVE_OK,
    ensures
        blocks(data_replies(data, slot).push(end) + rest) == data,
    decreases data.len(),
{
    let replies = data_replies(data, slot).push(end) + rest;
    if data.len() == 0 {
        assert(replies[0] == end);
        assert(blocks(replies) =~= data);
    } else {
        assert(replies[0] == BlockReply {
            status: ARCHIVE_OK,
            block: data[0].0,
            offset: data[0].1,
            slot,
        });
        assert(replies.drop_first() =~= data_replies(data.drop_first(), slot).push(end) + rest);
        lemma_blocks_in_order(data.drop_first(), slot, end, rest);
        assert(seq![data[0]] + data.drop_first() =~= data);
    }
}

} // verus!
