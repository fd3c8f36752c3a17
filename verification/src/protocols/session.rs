//! One transfer session: who it is with, which way it goes, which
//! dialect it speaks, and how far each file of its manifest has come.

use vstd::prelude::*;
use crate::network::address::IpAddress;
use crate::protocols::airdrop::{AIRDROP_PORT, LEGACY_PORT};
use crate::protocols::legacy::{declared_sizes, AirDropHandshake, FileTransfer};
use crate::protocols::status::{status_after, AirDropStatus, EventView, StatusView, TransferEvent};
use crate::protocols::transfer::split_by_sizes;
use crate::utils::system::{is_hyphenated_uuid, uuid_v4_hyphenated};

verus! {

/// Which way a session's files go.
#[derive(Debug, Clone, Copy, PartialEq, Eq, Structural)]
pub enum Direction {
    Inbound,
    Outbound,
}

/// The wire dialect of a session.
#[derive(Debug, Clone, Copy, PartialEq, Eq, Structural)]
pub enum Dialect {
    /// A JSON handshake closed by a blank line, then raw bytes.
    LegacyJson,
    /// JSON over HTTPS endpoints.
    HttpsJson,
}

/// The dialect that is spoken on a port of this endpoint.
pub open spec fn dialect_of_port(port: u16) -> Option<Dialect> {
    if port == AIRDROP_PORT {
        Some(Dialect::HttpsJson)
    } else if port == LEGACY_PORT {
        Some(Dialect::LegacyJson)
    } else {
        None
    }
}

impl Dialect {
    /// The dialect that is spoken on a port of this endpoint.
    pub fn for_port(port: u16) -> (dialect: Option<Dialect>)
        ensures
            dialect == dialect_of_port(port),
    {
        if port == AIRDROP_PORT {
            Some(Dialect::HttpsJson)
        } else if port == LEGACY_PORT {
            Some(Dialect::LegacyJson)
        } else {
            None
        }
    }
}

/// A place in the stream of a manifest's files: the file that the next
/// byte belongs to, and the number of its bytes that came before.
#[derive(Debug, Clone, Copy, PartialEq, Eq, Structural)]
pub struct Cursor {
    pub file: usize,
    pub offset: u64,
}

/// A place in the stream, as a plain value.
pub struct Place {
    pub file: int,
    pub offset: int,
}

impl View for Cursor {
    type V = Place;

    open spec fn view(&self) -> Place {
        Place { file: self.file as int, offset: self.offset as int }
    }
}

/// The start of the stream.
pub open spec fn start() -> Place {
    Place { file: 0, offset: 0 }
}

/// A place lies within the files of the given sizes: at the end, or in
/// a file, no further than the file's size.
pub open spec fn place_fits(place: Place, sizes: Seq<u64>) -> bool {
    &&& 0 <= place.file <= sizes.len()
    &&& 0 <= place.offset
    &&& place.file < sizes.len() ==> place.offset <= sizes[place.file]
    &&& place.file == sizes.len() ==> place.offset == 0
}

/// A place rests in no file that is full.
pub open spec fn place_rests(place: Place, sizes: Seq<u64>) -> bool {
    place.file < sizes.len() ==> place.offset < sizes[place.file]
}

/// The place after `n` more bytes: they fill the place's file, then the
/// files after it in order. A file that is full, and so a file of no
/// bytes, is passed over. Bytes beyond the last file are not counted.
pub open spec fn advanced(place: Place, n: int, sizes: Seq<u64>) -> Place
    decreases sizes.len() - place.file,
{
    if place.file < 0 || place.file >= sizes.len() {
        place
    } else {
        let room = sizes[place.file] - place.offset;
        if n < room {
            Place { file: place.file, offset: place.offset + n }
        } else {
            advanced(Place { file: place.file + 1, offset: 0 }, n - room, sizes)
        }
    }
}

/// The portions that `n` more bytes fall into: for each file that takes
/// some of them, its index and the number it takes, in order.
pub open spec fn portions(place: Place, n: int, sizes: Seq<u64>) -> Seq<(int, int)>
    decreases sizes.len() - place.file,
{
    if place.file < 0 || place.file >= sizes.len() || n <= 0 {
        Seq::empty()
    } else {
        let room = sizes[place.file] - place.offset;
        if n < room {
            seq![(place.file, n)]
        } else {
            let rest = portions(Place { file: place.file + 1, offset: 0 }, n - room, sizes);
            if room > 0 {
                seq![(place.file, room)] + rest
            } else {
                rest
            }
        }
    }
}

/// Portions as plain values.
pub open spec fn portion_views(taken: Seq<(usize, u64)>) -> Seq<(int, int)> {
    Seq::new(taken.len(), |i: int| (taken[i].0 as int, taken[i].1 as int))
}

/// The number of bytes of file `i` that have come when the stream stands
/// at the place.
pub open spec fn received_of(place: Place, sizes: Seq<u64>, i: int) -> int {
    if i < place.file {
        sizes[i] as int
    } else if i == place.file {
        place.offset
    } else {
        0
    }
}

/// Advancing keeps the place within the files, never moves it back, and
/// leaves it in no file that is full.
pub proof fn lemma_advanced_fits(place: Place, n: int, sizes: Seq<u64>)
    requires
        place_fits(place, sizes),
        n >= 0,
    ensures
        place_fits(advanced(place, n, sizes), sizes),
        place_rests(advanced(place, n, sizes), sizes),
        advanced(place, n, sizes).file >= place.file,
        advanced(place, n, sizes).file == place.file ==> advanced(place, n, sizes).offset
            >= place.offset,
    decreases sizes.len() - place.file,
{
    if place.file < sizes.len() {
        let room = sizes[place.file] - place.offset;
        if n >= room {
            lemma_advanced_fits(Place { file: place.file + 1, offset: 0 }, n - room, sizes);
        }
    }
}

/// Bytes that come in two parts leave the place where the same bytes
/// coming at once leave it: how a stream is cut into chunks makes no
/// difference to the counters.
pub proof fn lemma_advanced_in_parts(place: Place, a: int, b: int, sizes: Seq<u64>)
    requires
        place_fits(place, sizes),
        a >= 0,
        b >= 0,
    ensures
        advanced(advanced(place, a, sizes), b, sizes) == advanced(place, a + b, sizes),
    decreases sizes.len() - place.file,
{
    if place.file < sizes.len() {
        let room = sizes[place.file] - place.offset;
        let next = Place { file: place.file + 1, offset: 0 };
        if a >= room {
            lemma_advanced_in_parts(next, a - room, b, sizes);
        } else {
            let mid = Place { file: place.file, offset: place.offset + a };
            assert(advanced(place, a, sizes) == mid);
            let room_mid = sizes[place.file] - mid.offset;
            if b >= room_mid {
                assert(advanced(mid, b, sizes) == advanced(next, b - room_mid, sizes));
                assert(advanced(place, a + b, sizes) == advanced(next, a + b - room, sizes));
            }
        }
    }
}

/// A place that rests in no full file stays where it is when no byte
/// comes.
pub proof fn lemma_rest(place: Place, sizes: Seq<u64>)
    requires
        place_fits(place, sizes),
        place_rests(place, sizes),
    ensures
        advanced(place, 0, sizes) == place,
{
}

/// Passing over full files first changes nothing about what follows.
pub proof fn lemma_after_skip(place: Place, n: int, sizes: Seq<u64>)
    requires
        place_fits(place, sizes),
        n >= 0,
    ensures
        portions(advanced(place, 0, sizes), n, sizes) == portions(place, n, sizes),
        advanced(advanced(place, 0, sizes), n, sizes) == advanced(place, n, sizes),
    decreases sizes.len() - place.file,
{
    if place.file < sizes.len() {
        let room = sizes[place.file] - place.offset;
        if room == 0 {
            let next = Place { file: place.file + 1, offset: 0 };
            lemma_after_skip(next, n, sizes);
            if n == 0 {
                assert(portions(advanced(place, 0, sizes), 0, sizes) =~= Seq::<
                    (int, int),
                >::empty());
            }
        }
    }
}

/// Every file of an empty stream is empty.
proof fn lemma_split_of_nothing(sizes: Seq<u64>)
    ensures
        split_by_sizes(Seq::<u8>::empty(), sizes).len() == sizes.len(),
        forall|i: int|
            0 <= i < sizes.len() ==> (#[trigger] split_by_sizes(Seq::<u8>::empty(), sizes)[i]).len()
                == 0,
    decreases sizes.len(),
{
    if sizes.len() > 0 {
        let nothing = Seq::<u8>::empty();
        lemma_split_of_nothing(sizes.drop_first());
        assert(nothing.take(0) =~= nothing);
        assert(nothing.skip(0) =~= nothing);
        let all = split_by_sizes(nothing, sizes);
        let rest = split_by_sizes(nothing, sizes.drop_first());
        assert forall|i: int| 0 <= i < sizes.len() implies (#[trigger] all[i]).len() == 0 by {
            if i > 0 {
                assert(all[i] == rest[i - 1]);
            }
        }
    }
}

/// From the start of file `k`, the counters after a stream are the
/// lengths of the files that the stream is split into.
proof fn lemma_counters_from(stream: Seq<u8>, sizes: Seq<u64>, k: int)
    requires
        0 <= k <= sizes.len(),
    ensures
        split_by_sizes(stream, sizes.skip(k)).len() == sizes.len() - k,
        forall|i: int|
            k <= i < sizes.len() ==> received_of(
                advanced(Place { file: k, offset: 0 }, stream.len() as int, sizes),
                sizes,
                i,
            ) == (#[trigger] split_by_sizes(stream, sizes.skip(k))[i - k]).len(),
    decreases sizes.len() - k,
{
    let from = Place { file: k, offset: 0 };
    let end = advanced(from, stream.len() as int, sizes);
    let left = sizes.skip(k);
    if k < sizes.len() {
        assert(left[0] == sizes[k]);
        assert(left.drop_first() =~= sizes.skip(k + 1));
        let n = if sizes[k] <= stream.len() {
            sizes[k] as int
        } else {
            stream.len() as int
        };
        let all = split_by_sizes(stream, left);
        let rest = split_by_sizes(stream.skip(n), left.drop_first());
        assert(all == seq![stream.take(n)] + rest);
        if stream.len() < sizes[k] {
            assert(end == Place { file: k, offset: stream.len() as int });
            assert(stream.skip(n) =~= Seq::<u8>::empty());
            lemma_split_of_nothing(left.drop_first());
            assert forall|i: int| k <= i < sizes.len() implies received_of(end, sizes, i) == (
            #[trigger] all[i - k]).len() by {
                if i > k {
                    assert(all[i - k] == rest[i - k - 1]);
                }
            }
        } else {
            let next = Place { file: k + 1, offset: 0 };
            assert(end == advanced(next, stream.len() - sizes[k], sizes));
            lemma_counters_from(stream.skip(n), sizes, k + 1);
            lemma_advanced_fits(next, stream.len() - sizes[k], sizes);
            assert forall|i: int| k <= i < sizes.len() implies received_of(end, sizes, i) == (
            #[trigger] all[i - k]).len() by {
                if i > k {
                    assert(all[i - k] == rest[i - (k + 1)]);
                }
            }
        }
    } else {
        assert(left =~= Seq::<u64>::empty());
    }
}

/// The counters after a stream are the lengths of the files that the
/// stream is split into by the declared sizes.
pub proof fn lemma_counters_match_split(stream: Seq<u8>, sizes: Seq<u64>)
    ensures
        split_by_sizes(stream, sizes).len() == sizes.len(),
        forall|i: int|
            0 <= i < sizes.len() ==> received_of(
                advanced(start(), stream.len() as int, sizes),
                sizes,
                i,
            ) == (#[trigger] split_by_sizes(stream, sizes)[i]).len(),
{
    assert(sizes.skip(0) =~= sizes);
    lemma_counters_from(stream, sizes, 0);
    assert forall|i: int| 0 <= i < sizes.len() implies received_of(
        advanced(start(), stream.len() as int, sizes),
        sizes,
        i,
    ) == (#[trigger] split_by_sizes(stream, sizes)[i]).len() by {
        assert(split_by_sizes(stream, sizes.skip(0))[i - 0] == split_by_sizes(stream, sizes)[i]);
    }
}

/// A transfer session. It is made when a handshake begins and dropped
/// when the connection closes.
#[derive(Debug)]
pub struct TransferSession {
    session_id: String,
    peer_addr: (IpAddress, u16),
    direction: Direction,
    status: AirDropStatus,
    negotiated_dialect: Dialect,
    files: Vec<FileTransfer>,
    cursor: Cursor,
}

impl TransferSession {
    pub closed spec fn spec_session_id(&self) -> Seq<char> {
        self.session_id@
    }

    pub closed spec fn spec_peer(&self) -> (IpAddress, u16) {
        self.peer_addr
    }

    pub closed spec fn spec_direction(&self) -> Direction {
        self.direction
    }

    pub closed spec fn spec_dialect(&self) -> Dialect {
        self.negotiated_dialect
    }

    pub closed spec fn state(&self) -> StatusView {
        self.status@
    }

    /// The manifest.
    pub closed spec fn manifest(&self) -> Seq<FileTransfer> {
        self.files@
    }

    /// The sizes that the manifest declares.
    pub open spec fn sizes(&self) -> Seq<u64> {
        declared_sizes(self.manifest())
    }

    /// Where the stream of the files stands.
    pub closed spec fn position(&self) -> Place {
        self.cursor@
    }

    /// The place lies within the manifest's files and rests in no file
    /// that is full.
    pub open spec fn wf(&self) -> bool {
        place_fits(self.position(), self.sizes()) && place_rests(self.position(), self.sizes())
    }

    /// Every declared byte has come.
    pub open spec fn is_complete(&self) -> bool {
        self.position().file == self.sizes().len()
    }

    /// A session for the files of a handshake, under a fresh identifier.
    /// It starts `Connecting`, before the first byte.
    pub fn begin(
        peer: (IpAddress, u16),
        direction: Direction,
        dialect: Dialect,
        handshake: AirDropHandshake,
    ) -> (session: Self)
        ensures
            session.wf(),
            is_hyphenated_uuid(session.spec_session_id()),
            session.spec_peer() == peer,
            session.spec_direction() == direction,
            session.spec_dialect() == dialect,
            session.manifest() == handshake.files@,
            session.state() == StatusView::Connecting,
            session.position() == advanced(start(), 0, declared_sizes(handshake.files@)),
    {
        let mut session = TransferSession {
            session_id: uuid_v4_hyphenated(),
            peer_addr: peer,
            direction,
            status: AirDropStatus::Connecting,
            negotiated_dialect: dialect,
            files: handshake.files,
            cursor: Cursor { file: 0, offset: 0 },
        };
        session.skip_full_files(0);
        session
    }

    /// Moves the cursor by `n` bytes within its file, and then past every
    /// file that is full.
    fn skip_full_files(&mut self, n: u64)
        requires
            place_fits(old(self).position(), old(self).sizes()),
            old(self).position().file < old(self).sizes().len() ==> n <= old(self).sizes()[old(self).position().file] - old(self).position().offset,
            old(self).position().file == old(self).sizes().len() ==> n == 0,
        ensures
            final(self).wf(),
            final(self).position() == advanced(old(self).position(), n as int, old(self).sizes()),
            final(self).manifest() == old(self).manifest(),
            final(self).state() == old(self).state(),
            final(self).spec_session_id() == old(self).spec_session_id(),
            final(self).spec_peer() == old(self).spec_peer(),
            final(self).spec_direction() == old(self).spec_direction(),
            final(self).spec_dialect() == old(self).spec_dialect(),
    {
        let ghost sizes = self.sizes();
        let ghost target = advanced(self.cursor@, n as int, sizes);
        if self.cursor.file < self.files.len() {
            self.cursor.offset = self.cursor.offset + n;
        }
        while self.cursor.file < self.files.len() && self.cursor.offset
            == self.files[self.cursor.file].size
            invariant
                sizes == declared_sizes(self.files@),
                self.files@ == old(self).files@,
                self.status == old(self).status,
                self.session_id == old(self).session_id,
                self.peer_addr == old(self).peer_addr,
                self.direction == old(self).direction,
                self.negotiated_dialect == old(self).negotiated_dialect,
                place_fits(self.cursor@, sizes),
                advanced(self.cursor@, 0, sizes) == target,
            decreases self.files@.len() - self.cursor.file,
        {
            self.cursor = Cursor { file: self.cursor.file + 1, offset: 0 };
        }
    }

    pub fn session_id(&self) -> (id: &str)
        ensures
            id@ == self.spec_session_id(),
    {
        self.session_id.as_str()
    }

    pub fn peer_addr(&self) -> (peer: (IpAddress, u16))
        ensures
            peer == self.spec_peer(),
    {
        self.peer_addr
    }

    pub fn direction(&self) -> (direction: Direction)
        ensures
            direction == self.spec_direction(),
    {
        self.direction
    }

    pub fn negotiated_dialect(&self) -> (dialect: Dialect)
        ensures
            dialect == self.spec_dialect(),
    {
        self.negotiated_dialect
    }

    pub fn status(&self) -> (status: AirDropStatus)
        ensures
            status@ == self.state(),
    {
        self.status.clone()
    }

    pub fn files(&self) -> (files: &Vec<FileTransfer>)
        ensures
            files@ == self.manifest(),
    {
        &self.files
    }

    /// Moves the session's status by one event; the files' counters are
    /// not touched.
    pub fn apply(&mut self, event: TransferEvent)
        ensures
            final(self).state() == status_after(old(self).state(), event@),
            final(self).position() == old(self).position(),
            final(self).manifest() == old(self).manifest(),
            final(self).wf() == old(self).wf(),
            final(self).spec_session_id() == old(self).spec_session_id(),
            final(self).spec_peer() == old(self).spec_peer(),
            final(self).spec_direction() == old(self).spec_direction(),
            final(self).spec_dialect() == old(self).spec_dialect(),
    {
        let mut status = AirDropStatus::Idle;
        core::mem::swap(&mut status, &mut self.status);
        self.status = status.apply(event);
    }

    /// Takes `n` bytes of the files' stream. The bytes go to the files in
    /// manifest order, each file taking no more than it declared; bytes
    /// beyond the last file are dropped. The answer says which file takes
    /// how many of the bytes, in order, and the status counts the bytes
    /// as one chunk.
    pub fn bytes_received(&mut self, n: u64) -> (taken: Vec<(usize, u64)>)
        requires
            old(self).wf(),
        ensures
            final(self).wf(),
            final(self).position() == advanced(old(self).position(), n as int, old(self).sizes()),
            portion_views(taken@) == portions(old(self).position(), n as int, old(self).sizes()),
            final(self).state() == status_after(old(self).state(), EventView::ChunkMoved { bytes: n }),
            final(self).manifest() == old(self).manifest(),
            final(self).spec_session_id() == old(self).spec_session_id(),
            final(self).spec_peer() == old(self).spec_peer(),
            final(self).spec_direction() == old(self).spec_direction(),
            final(self).spec_dialect() == old(self).spec_dialect(),
    {
        let ghost sizes = self.sizes();
        let ghost first = self.cursor@;
        self.apply(TransferEvent::ChunkMoved { bytes: n });
        let mut taken: Vec<(usize, u64)> = Vec::new();
        let mut left: u64 = n;
        while left > 0 && self.cursor.file < self.files.len()
            invariant
                sizes == declared_sizes(self.files@),
                self.files@ == old(self).files@,
                self.status@ == status_after(old(self).status@, EventView::ChunkMoved { bytes: n }),
                self.session_id@ == old(self).session_id@,
                self.peer_addr == old(self).peer_addr,
                self.direction == old(self).direction,
                self.negotiated_dialect == old(self).negotiated_dialect,
                self.wf(),
                advanced(self.cursor@, left as int, sizes) == advanced(first, n as int, sizes),
                portion_views(taken@) + portions(self.cursor@, left as int, sizes) == portions(
                    first,
                    n as int,
                    sizes,
                ),
            decreases left,
        {
            let room: u64 = self.files[self.cursor.file].size - self.cursor.offset;
            let take: u64 = if left < room {
                left
            } else {
                room
            };
            let ghost before = self.cursor@;
            let ghost so_far = portion_views(taken@);
            taken.push((self.cursor.file, take));
            self.skip_full_files(take);
            proof {
                let next = Place { file: before.file + 1, offset: 0 };
                let piece = (before.file, take as int);
                assert(portion_views(taken@) =~= so_far.push(piece));
                if left < room {
                    assert(portions(before, left as int, sizes) == seq![piece]);
                    assert(self.cursor@ == advanced(before, left as int, sizes));
                    assert(portions(self.cursor@, 0, sizes) =~= Seq::<(int, int)>::empty());
                    lemma_advanced_in_parts(before, left as int, 0, sizes);
                    assert(so_far.push(piece) + Seq::<(int, int)>::empty() =~= so_far + seq![
                        piece,
                    ]);
                } else {
                    assert(self.cursor@ == advanced(before, room as int, sizes));
                    assert(self.cursor@ == advanced(next, 0, sizes));
                    lemma_advanced_in_parts(before, room as int, left - room, sizes);
                    lemma_after_skip(next, left - room, sizes);
                    assert(portions(before, left as int, sizes) == seq![piece] + portions(
                        next,
                        left - room,
                        sizes,
                    ));
                    assert(so_far.push(piece) + portions(self.cursor@, left - room, sizes)
                        =~= so_far + portions(before, left as int, sizes));
                }
            }
            left = left - take;
        }
        proof {
            lemma_rest(self.cursor@, sizes);
            assert(portions(self.cursor@, left as int, sizes) =~= Seq::<(int, int)>::empty());
            assert(portion_views(taken@) + Seq::<(int, int)>::empty() =~= portion_views(taken@));
        }
        taken
    }

    /// The number of bytes of file `index` that have come.
    pub fn received(&self, index: usize) -> (count: u64)
        requires
            self.wf(),
            index < self.manifest().len(),
        ensures
            count == received_of(self.position(), self.sizes(), index as int),
    {
        if index < self.cursor.file {
            self.files[index].size
        } else if index == self.cursor.file {
            self.cursor.offset
        } else {
            0
        }
    }

    /// Whether every declared byte has come.
    pub fn complete(&self) -> (complete: bool)
        ensures
            complete == self.is_complete(),
    {
        self.cursor.file == self.files.len()
    }

    /// The files that lack bytes, by their indices in manifest order:
    /// when the peer has closed the stream these are the truncated
    /// files. The session goes on all the same.
    pub fn truncated_files(&self) -> (short: Vec<usize>)
        requires
            self.wf(),
        ensures
            short@.map_values(|i: usize| i as int) == lacking(self.position(), self.sizes()),
    {
        let ghost place = self.position();
        let ghost sizes = self.sizes();
        let ghost lacks = |i: int| received_of(place, sizes, i) < sizes[i];
        let ghost indices = Seq::new(sizes.len(), |i: int| i);
        let mut short: Vec<usize> = Vec::new();
        let mut i: usize = 0;
        assert(indices.take(0) =~= Seq::<int>::empty());
        assert(short@.map_values(|i: usize| i as int) =~= indices.take(0).filter(lacks));
        while i < self.files.len()
            invariant
                self.wf(),
                place == self.position(),
                sizes == self.sizes(),
                lacks == |i: int| received_of(place, sizes, i) < sizes[i],
                indices == Seq::new(sizes.len(), |i: int| i),
                i <= self.files@.len(),
                short@.map_values(|i: usize| i as int) == indices.take(i as int).filter(lacks),
            decreases self.files@.len() - i,
        {
            let ghost before = short@.map_values(|i: usize| i as int);
            proof {
                let next = indices.take(i + 1);
                assert(next.drop_last() =~= indices.take(i as int));
                assert(next.last() == i);
                reveal(Seq::filter);
            }
            if self.received(i) < self.files[i].size {
                short.push(i);
                assert(short@.map_values(|i: usize| i as int) =~= before.push(i as int));
            }
            i += 1;
        }
        assert(indices.take(i as int) =~= indices);
        short
    }
}

/// The files that lack bytes at a place, by their indices in order.
pub open spec fn lacking(place: Place, sizes: Seq<u64>) -> Seq<int> {
    Seq::new(sizes.len(), |i: int| i).filter(|i: int| received_of(place, sizes, i) < sizes[i])
}

} // verus!
