//! An append-only log that grows without bound: a chain of fixed-size
//! chunks, newest first.  Its spec functions build new logs directly, so
//! the devices that keep one (the serial port's output, the APU's sample
//! queue) can still be described by spec functions that return the device.
use vstd::prelude::*;

verus! {

broadcast use vstd::array::group_array_axioms;

/// Items held by one chunk.
pub const LOG_CHUNK: usize = 4096;

/// A chain of chunks, newest first; each chunk holds `len` items.
pub enum ChunkLog<T> {
    Empty,
    Chunk { items: [T; 4096], len: usize, older: Box<ChunkLog<T>> },
}

impl<T: Copy> ChunkLog<T> {
    /// Every chunk holds between 1 and `LOG_CHUNK` items.
    pub open spec fn wf(self) -> bool
        decreases self,
    {
        match self {
            ChunkLog::Empty => true,
            ChunkLog::Chunk { items, len, older } => 1 <= len <= LOG_CHUNK && older.wf(),
        }
    }

    /// The items logged, oldest first.
    pub open spec fn contents(self) -> Seq<T>
        decreases self,
    {
        match self {
            ChunkLog::Empty => Seq::empty(),
            ChunkLog::Chunk { items, len, older } => older.contents() + items@.subrange(
                0,
                if len <= LOG_CHUNK { len as int } else { LOG_CHUNK as int },
            ),
        }
    }

    /// The log with `item` appended: into the newest chunk while it has
    /// room, else into a fresh chunk.
    pub open spec fn pushed(self, item: T) -> ChunkLog<T> {
        match self {
            ChunkLog::Chunk { items, len, older } => if len < LOG_CHUNK {
                ChunkLog::Chunk {
                    items: vstd::array::spec_array_update(items, len as int, item),
                    len: (len + 1) as usize,
                    older,
                }
            } else {
                ChunkLog::Chunk {
                    items: vstd::array::spec_array_fill_for_copy_type::<T, 4096>(item),
                    len: 1,
                    older: Box::new(self),
                }
            },
            ChunkLog::Empty => ChunkLog::Chunk {
                items: vstd::array::spec_array_fill_for_copy_type::<T, 4096>(item),
                len: 1,
                older: Box::new(self),
            },
        }
    }
}

/// Appending to a log adds exactly that item at its end.
pub proof fn lemma_log_push<T: Copy>(log: ChunkLog<T>, item: T)
    requires
        log.wf(),
    ensures
        log.pushed(item).wf(),
        log.pushed(item).contents() == log.contents().push(item),
{
    match log {
        ChunkLog::Chunk { items, len, older } => {
            if len < LOG_CHUNK {
                let next = vstd::array::spec_array_update(items, len as int, item);
                assert(next@.subrange(0, len + 1) =~= items@.subrange(0, len as int).push(item));
            } else {
                let fresh = vstd::array::spec_array_fill_for_copy_type::<T, 4096>(item);
                assert(fresh@.subrange(0, 1) =~= seq![item]);
            }
        },
        ChunkLog::Empty => {
            let fresh = vstd::array::spec_array_fill_for_copy_type::<T, 4096>(item);
            assert(fresh@.subrange(0, 1) =~= seq![item]);
        },
    }
    assert(log.pushed(item).contents() =~= log.contents().push(item));
}

/// The log with `item` appended.
pub fn log_pushed<T: Copy>(log: ChunkLog<T>, item: T) -> (r: ChunkLog<T>)
    ensures
        r == log.pushed(item),
{
    match log {
        ChunkLog::Chunk { items, len, older } => {
            if len < LOG_CHUNK {
                let mut items = items;
                items[len] = item;
                ChunkLog::Chunk { items, len: len + 1, older }
            } else {
                ChunkLog::Chunk {
                    items: [item; 4096],
                    len: 1,
                    older: Box::new(ChunkLog::Chunk { items, len, older }),
                }
            }
        },
        ChunkLog::Empty => ChunkLog::Chunk {
            items: [item; 4096],
            len: 1,
            older: Box::new(ChunkLog::Empty),
        },
    }
}

/// Appends the log's items, oldest first, to `out`.
pub fn append_log<T: Copy>(log: &ChunkLog<T>, out: &mut Vec<T>)
    requires
        log.wf(),
    ensures
        final(out)@ == old(out)@ + log.contents(),
    decreases log,
{
    match log {
        ChunkLog::Empty => {
            assert(out@ =~= old(out)@ + log.contents());
        },
        ChunkLog::Chunk { items, len, older } => {
            append_log(older, out);
            let ghost mid = out@;
            let mut i: usize = 0;
            while i < *len
                invariant
                    1 <= *len <= LOG_CHUNK,
                    i <= *len,
                    out@ == mid + items@.subrange(0, i as int),
                decreases *len - i,
            {
                out.push(items[i]);
                assert(items@.subrange(0, i + 1) =~= items@.subrange(0, i as int).push(
                    items@[i as int],
                ));
                i = i + 1;
            }
            assert(out@ =~= old(out)@ + log.contents());
        },
    }
}

} // verus!
