//! The transfer pipeline: cutting a file into bounded chunks, and giving
//! a received byte stream back to the files of a manifest.

use vstd::prelude::*;
use crate::utils::bytes::copy_range;

verus! {

/// The number of bytes read and written at a time.
pub const CHUNK_SIZE: usize = 8192;

/// The views of a list of byte vectors.
pub open spec fn views(parts: Seq<Vec<u8>>) -> Seq<Seq<u8>> {
    Seq::new(parts.len(), |i: int| parts[i]@)
}

/// The parts joined end to end.
pub open spec fn concat(parts: Seq<Seq<u8>>) -> Seq<u8>
    decreases parts.len(),
{
    if parts.len() == 0 {
        Seq::empty()
    } else {
        parts[0] + concat(parts.drop_first())
    }
}

/// `data` cut into chunks of `size` bytes, the last one shorter when the
/// length is no multiple of `size`. Empty data has no chunks.
pub open spec fn chunks_of(data: Seq<u8>, size: nat) -> Seq<Seq<u8>>
    decreases data.len(),
{
    if size == 0 || data.len() == 0 {
        Seq::empty()
    } else if data.len() <= size {
        seq![data]
    } else {
        seq![data.take(size as int)] + chunks_of(data.skip(size as int), size)
    }
}

/// The lengths of the parts.
pub open spec fn lengths(parts: Seq<Seq<u8>>) -> Seq<u64> {
    Seq::new(parts.len(), |i: int| parts[i].len() as u64)
}

/// A byte stream given back to files of the declared sizes, in order:
/// each file takes its declared number of bytes, or what is left of the
/// stream when that is less.
pub open spec fn split_by_sizes(stream: Seq<u8>, sizes: Seq<u64>) -> Seq<Seq<u8>>
    decreases sizes.len(),
{
    if sizes.len() == 0 {
        Seq::empty()
    } else {
        let n = if sizes[0] <= stream.len() {
            sizes[0] as int
        } else {
            stream.len() as int
        };
        seq![stream.take(n)] + split_by_sizes(stream.skip(n), sizes.drop_first())
    }
}

/// Every chunk is non-empty and at most `size` bytes long.
pub proof fn lemma_chunks_bounded(data: Seq<u8>, size: nat)
    requires
        size > 0,
    ensures
        forall|i: int|
            0 <= i < chunks_of(data, size).len() ==> 0 < (#[trigger] chunks_of(data, size)[i]).len()
                <= size,
    decreases data.len(),
{
    if data.len() > size {
        lemma_chunks_bounded(data.skip(size as int), size);
        let rest = chunks_of(data.skip(size as int), size);
        let all = chunks_of(data, size);
        assert forall|i: int| 0 <= i < all.len() implies 0 < (#[trigger] all[i]).len() <= size by {
            if i > 0 {
                assert(all[i] == rest[i - 1]);
            }
        }
    }
}

/// The chunks of a file, joined again, are the file.
pub proof fn lemma_chunks_concat(data: Seq<u8>, size: nat)
    requires
        size > 0,
    ensures
        concat(chunks_of(data, size)) == data,
    decreases data.len(),
{
    if data.len() == 0 {
        assert(data =~= Seq::<u8>::empty());
    } else if data.len() <= size {
        let parts = seq![data];
        assert(parts.drop_first() =~= Seq::<Seq<u8>>::empty());
        assert(concat(parts.drop_first()) =~= Seq::<u8>::empty());
        assert(concat(parts) =~= data);
    } else {
        let head = data.take(size as int);
        let tail = data.skip(size as int);
        lemma_chunks_concat(tail, size);
        let parts = seq![head] + chunks_of(tail, size);
        assert(parts[0] == head);
        assert(parts.drop_first() =~= chunks_of(tail, size));
        assert(head + tail =~= data);
    }
}

/// A stream that is files joined end to end, split by the files' own
/// lengths, gives the files back.
pub proof fn lemma_split_round_trip(files: Seq<Seq<u8>>)
    requires
        forall|i: int| 0 <= i < files.len() ==> (#[trigger] files[i]).len() <= u64::MAX,
    ensures
        split_by_sizes(concat(files), lengths(files)) == files,
    decreases files.len(),
{
    if files.len() == 0 {
        assert(files =~= Seq::<Seq<u8>>::empty());
    } else {
        let rest = files.drop_first();
        lemma_split_round_trip(rest);
        let stream = concat(files);
        let sizes = lengths(files);
        assert(sizes.drop_first() =~= lengths(rest));
        assert(sizes[0] == files[0].len());
        assert(stream == files[0] + concat(rest));
        assert(stream.take(files[0].len() as int) =~= files[0]);
        assert(stream.skip(files[0].len() as int) =~= concat(rest));
        assert(seq![files[0]] + rest =~= files);
    }
}

/// There is one file per declared size, none longer than declared.
pub proof fn lemma_split_shape(stream: Seq<u8>, sizes: Seq<u64>)
    ensures
        split_by_sizes(stream, sizes).len() == sizes.len(),
        forall|i: int|
            0 <= i < sizes.len() ==> (#[trigger] split_by_sizes(stream, sizes)[i]).len()
                <= sizes[i],
    decreases sizes.len(),
{
    if sizes.len() > 0 {
        let n = if sizes[0] <= stream.len() {
            sizes[0] as int
        } else {
            stream.len() as int
        };
        lemma_split_shape(stream.skip(n), sizes.drop_first());
        let rest = split_by_sizes(stream.skip(n), sizes.drop_first());
        let all = split_by_sizes(stream, sizes);
        assert forall|i: int| 0 <= i < sizes.len() implies (#[trigger] all[i]).len()
            <= sizes[i] by {
            if i > 0 {
                assert(all[i] == rest[i - 1]);
                assert(sizes[i] == sizes.drop_first()[i - 1]);
            }
        }
    }
}

/// Cuts `data` into chunks of `size` bytes.
pub fn split_chunks(data: &[u8], size: usize) -> (chunks: Vec<Vec<u8>>)
    requires
        size > 0,
    ensures
        views(chunks@) == chunks_of(data@, size as nat),
{
    let len: usize = data.len();
    let mut chunks: Vec<Vec<u8>> = Vec::new();
    let mut pos: usize = 0;
    assert(data@.skip(0) =~= data@);
    assert(views(chunks@) =~= Seq::<Seq<u8>>::empty());
    while pos < len
        invariant
            size > 0,
            len == data@.len(),
            pos <= len,
            views(chunks@) + chunks_of(data@.skip(pos as int), size as nat) == chunks_of(
                data@,
                size as nat,
            ),
        decreases len - pos,
    {
        let end: usize = if len - pos <= size {
            len
        } else {
            pos + size
        };
        let chunk = copy_range(data, pos, end);
        let ghost before = views(chunks@);
        let ghost rest = data@.skip(pos as int);
        proof {
            if len - pos <= size {
                assert(chunk@ =~= rest);
                assert(data@.skip(end as int) =~= Seq::<u8>::empty());
                assert(chunks_of(data@.skip(end as int), size as nat) =~= Seq::<Seq<u8>>::empty());
            } else {
                assert(chunk@ =~= rest.take(size as int));
                assert(data@.skip(end as int) =~= rest.skip(size as int));
            }
        }
        chunks.push(chunk);
        proof {
            assert(views(chunks@) =~= before.push(chunk@));
            assert(before.push(chunk@) + chunks_of(data@.skip(end as int), size as nat) =~= before
                + chunks_of(rest, size as nat));
        }
        pos = end;
    }
    assert(chunks_of(data@.skip(pos as int), size as nat) =~= Seq::<Seq<u8>>::empty());
    assert(views(chunks@) + Seq::<Seq<u8>>::empty() =~= views(chunks@));
    chunks
}

/// The number of bytes to read next when `remaining` bytes are left: a
/// full chunk, or what is left when that is less.
pub fn next_chunk_len(remaining: u64) -> (len: usize)
    ensures
        len == if remaining < CHUNK_SIZE {
            remaining as int
        } else {
            CHUNK_SIZE as int
        },
{
    if remaining < CHUNK_SIZE as u64 {
        remaining as usize
    } else {
        CHUNK_SIZE
    }
}

/// Gives a received stream back to files of the declared sizes.
pub fn receive_files(stream: &[u8], sizes: &Vec<u64>) -> (files: Vec<Vec<u8>>)
    ensures
        views(files@) == split_by_sizes(stream@, sizes@),
        files@.len() == sizes@.len(),
{
    let len: usize = stream.len();
    let mut files: Vec<Vec<u8>> = Vec::new();
    let mut pos: usize = 0;
    let mut i: usize = 0;
    assert(stream@.skip(0) =~= stream@);
    assert(sizes@.skip(0) =~= sizes@);
    assert(views(files@) =~= Seq::<Seq<u8>>::empty());
    while i < sizes.len()
        invariant
            len == stream@.len(),
            pos <= len,
            i <= sizes@.len(),
            files@.len() == i,
            views(files@) + split_by_sizes(stream@.skip(pos as int), sizes@.skip(i as int))
                == split_by_sizes(stream@, sizes@),
        decreases sizes@.len() - i,
    {
        let declared: u64 = sizes[i];
        let take: usize = if declared <= (len - pos) as u64 {
            declared as usize
        } else {
            len - pos
        };
        let file = copy_range(stream, pos, pos + take);
        let ghost before = views(files@);
        let ghost rest = stream@.skip(pos as int);
        let ghost left = sizes@.skip(i as int);
        proof {
            assert(left[0] == declared);
            assert(file@ =~= rest.take(take as int));
            assert(stream@.skip(pos + take) =~= rest.skip(take as int));
            assert(sizes@.skip(i + 1) =~= left.drop_first());
        }
        files.push(file);
        proof {
            assert(views(files@) =~= before.push(file@));
            assert(before.push(file@) + split_by_sizes(
                stream@.skip(pos + take),
                sizes@.skip(i + 1),
            ) =~= before + split_by_sizes(rest, left));
        }
        pos = pos + take;
        i += 1;
    }
    assert(sizes@.skip(i as int) =~= Seq::<u64>::empty());
    assert(views(files@) + Seq::<Seq<u8>>::empty() =~= views(files@));
    files
}

/// A received file is truncated when the peer closed the stream before
/// all declared bytes had come.
pub fn is_truncated(received: &Vec<u8>, declared: u64) -> (short: bool)
    ensures
        short == (received@.len() < declared),
{
    (received.len() as u64) < declared
}

} // verus!
