//! The legacy dialect: a JSON handshake closed by a blank line, then the
//! files' bytes back to back in manifest order.

use vstd::prelude::*;
use vstd::string::StringExecFns;
use vstd::string::{StrSliceExecFns, StringSliceAdditionalSpecFns};
use vstd::utf8::encode_utf8;
use crate::protocols::transfer::{concat, lengths, lemma_split_round_trip, split_by_sizes};
use crate::utils::bytes::{append_bytes, contains_bytes, copy_range, find_bytes, first_occurrence};
use crate::utils::error::AirWinError;
use crate::utils::system::{is_hyphenated_uuid, uuid_v4_hyphenated};
use crate::utils::text::{
    contains_subseq, decimal_text, occurs_at, text_chars, u64_to_decimal,
};

verus! {

/// The JSON text of a string: what `serde_json` writes for it, quotes
/// and escapes included.
pub uninterp spec fn json_string(text: Seq<char>) -> Seq<char>;

/// The media type that `mime_guess` knows for a file extension, or the
/// octet-stream type where it knows none.
pub uninterp spec fn media_type_of_extension(extension: Seq<char>) -> Seq<char>;

/// `serde_json::to_string` on a string: its JSON text. The call always
/// succeeds: the serializer writes a string into a byte vector, and its
/// only errors are those of the writer, which a vector has none of.
#[verifier::external_body]
pub(crate) fn json_quoted(text: &str) -> (quoted: Result<String, String>)
    ensures
        quoted is Ok,
        quoted matches Ok(q) ==> q@ == json_string(text@),
{
    serde_json::to_string(text).map_err(|e| e.to_string())
}

/// `mime_guess::from_ext` with `first_or_octet_stream`: the first media
/// type listed for the extension, as text.
#[verifier::external_body]
pub(crate) fn guess_media_type(extension: &str) -> (media_type: String)
    ensures
        media_type@ == media_type_of_extension(extension@),
{
    mime_guess::from_ext(extension).first_or_octet_stream().to_string()
}

/// The two line feeds that close the handshake.
pub open spec fn marker() -> Seq<u8> {
    seq![10u8, 10u8]
}

/// One file of a transfer, as the manifest declares it.
#[derive(Debug)]
pub struct FileTransfer {
    pub id: String,
    pub name: String,
    pub size: u64,
    pub mime_type: String,
}

/// The handshake a sender opens a session with.
#[derive(Debug)]
pub struct AirDropHandshake {
    pub sender: String,
    pub receiver: String,
    pub files: Vec<FileTransfer>,
}

/// The position of the last full stop in `name`, if it has one.
pub open spec fn last_dot(name: Seq<char>) -> Option<int> {
    if exists|i: int| 0 <= i < name.len() && name[i] == '.' {
        Some(
            choose|i: int|
                0 <= i < name.len() && name[i] == '.' && forall|j: int|
                    i < j < name.len() ==> name[j] != '.',
        )
    } else {
        None
    }
}

/// The extension of a file name: what follows its last full stop, unless
/// the name has none or its only full stop is its first character.
pub open spec fn extension_of(name: Seq<char>) -> Option<Seq<char>> {
    match last_dot(name) {
        None => None,
        Some(at) => if at == 0 {
            None
        } else {
            Some(name.skip(at + 1))
        },
    }
}

/// The media type declared for a file of the given name.
pub open spec fn media_type_for_name(name: Seq<char>) -> Seq<char> {
    match extension_of(name) {
        None => "application/octet-stream"@,
        Some(extension) => media_type_of_extension(extension),
    }
}

/// The JSON object of one manifest entry.
pub open spec fn file_json(file: FileTransfer) -> Seq<char> {
    "{\"id\":"@ + json_string(file.id@) + ",\"name\":"@ + json_string(file.name@) + ",\"size\":"@
        + decimal_text(file.size as nat) + ",\"mime_type\":"@ + json_string(file.mime_type@) + "}"@
}

/// The JSON objects of the manifest entries, separated by commas.
pub open spec fn files_json(files: Seq<FileTransfer>) -> Seq<char>
    decreases files.len(),
{
    if files.len() == 0 {
        Seq::empty()
    } else if files.len() == 1 {
        file_json(files[0])
    } else {
        files_json(files.drop_last()) + ","@ + file_json(files.last())
    }
}

/// The JSON object of a handshake.
pub open spec fn handshake_json(handshake: AirDropHandshake) -> Seq<char> {
    "{\"sender\":"@ + json_string(handshake.sender@) + ",\"receiver\":"@ + json_string(
        handshake.receiver@,
    ) + ",\"files\":["@ + files_json(handshake.files@) + "]}"@
}

/// The JSON object that accepts a transfer on behalf of `receiver`.
pub open spec fn accept_json(receiver: Seq<char>) -> Seq<char> {
    "{\"receiver\":"@ + json_string(receiver) + ",\"status\":\"accept\"}"@
}

/// A payload as it goes over the wire: closed by the marker.
pub open spec fn framed(payload: Seq<u8>) -> Seq<u8> {
    payload + marker()
}

/// The declared sizes of a manifest.
pub open spec fn declared_sizes(files: Seq<FileTransfer>) -> Seq<u64> {
    Seq::new(files.len(), |i: int| files[i].size)
}

/// The sum of the sizes, or the largest number where the sum exceeds it.
pub open spec fn total_size(sizes: Seq<u64>) -> int
    decreases sizes.len(),
{
    if sizes.len() == 0 {
        0
    } else {
        let sum = total_size(sizes.drop_last()) + sizes.last();
        if sum > u64::MAX {
            u64::MAX as int
        } else {
            sum
        }
    }
}

/// The extension of a file name.
pub fn file_extension(name: &str) -> (extension: Option<String>)
    ensures
        match extension {
            Some(e) => extension_of(name@) == Some(e@),
            None => extension_of(name@) is None,
        },
{
    let chars = text_chars(name);
    let n: usize = chars.len();
    let mut at: usize = n;
    while at > 0 && chars[at - 1] != '.'
        invariant
            at <= n,
            n == chars@.len(),
            forall|j: int| at <= j < n ==> chars@[j] != '.',
        decreases at,
    {
        at -= 1;
    }
    if at == 0 {
        assert(last_dot(name@) is None);
        return None;
    }
    let dot: usize = at - 1;
    proof {
        assert(0 <= dot < name@.len() && name@[dot as int] == '.');
        let found = last_dot(name@)->0;
        assert(0 <= found < name@.len() && name@[found] == '.' && forall|j: int|
            found < j < name@.len() ==> name@[j] != '.');
        assert(found == dot);
    }
    if dot == 0 {
        return None;
    }
    Some(name.substring_char(at, n).to_string())
}

/// The media type declared for a file of the given name.
pub fn media_type_for(name: &str) -> (media_type: String)
    ensures
        media_type@ == media_type_for_name(name@),
{
    match file_extension(name) {
        None => "application/octet-stream".to_string(),
        Some(extension) => guess_media_type(extension.as_str()),
    }
}

impl FileTransfer {
    /// The manifest entry for a file of the given name and size, under a
    /// fresh identifier.
    pub fn describe(name: &str, size: u64) -> (file: FileTransfer)
        ensures
            is_hyphenated_uuid(file.id@),
            file.name@ == name@,
            file.size == size,
            file.mime_type@ == media_type_for_name(name@),
    {
        FileTransfer {
            id: uuid_v4_hyphenated(),
            name: name.to_string(),
            size,
            mime_type: media_type_for(name),
        }
    }

    /// The entry's JSON object. It always succeeds.
    pub fn to_json(&self) -> (json: Result<String, AirWinError>)
        ensures
            json matches Ok(text) && text@ == file_json(*self),
    {
        let id = match json_quoted(self.id.as_str()) {
            Ok(q) => q,
            Err(why) => {
                return Err(AirWinError::ProtocolError(why));
            },
        };
        let name = match json_quoted(self.name.as_str()) {
            Ok(q) => q,
            Err(why) => {
                return Err(AirWinError::ProtocolError(why));
            },
        };
        let mime_type = match json_quoted(self.mime_type.as_str()) {
            Ok(q) => q,
            Err(why) => {
                return Err(AirWinError::ProtocolError(why));
            },
        };
        let size = u64_to_decimal(self.size);
        let mut text = "{\"id\":".to_string();
        text.append(id.as_str());
        text.append(",\"name\":");
        text.append(name.as_str());
        text.append(",\"size\":");
        text.append(size.as_str());
        text.append(",\"mime_type\":");
        text.append(mime_type.as_str());
        text.append("}");
        Ok(text)
    }
}

impl AirDropHandshake {
    /// The handshake's JSON object. It always succeeds.
    pub fn to_json(&self) -> (json: Result<String, AirWinError>)
        ensures
            json matches Ok(text) && text@ == handshake_json(*self),
    {
        let sender = match json_quoted(self.sender.as_str()) {
            Ok(q) => q,
            Err(why) => {
                return Err(AirWinError::ProtocolError(why));
            },
        };
        let receiver = match json_quoted(self.receiver.as_str()) {
            Ok(q) => q,
            Err(why) => {
                return Err(AirWinError::ProtocolError(why));
            },
        };
        let mut list = String::new();
        let mut i: usize = 0;
        assert(self.files@.take(0) =~= Seq::<FileTransfer>::empty());
        while i < self.files.len()
            invariant
                i <= self.files@.len(),
                list@ == files_json(self.files@.take(i as int)),
            decreases self.files@.len() - i,
        {
            let entry = match self.files[i].to_json() {
                Ok(text) => text,
                Err(e) => {
                    return Err(e);
                },
            };
            proof {
                let next = self.files@.take(i + 1);
                assert(next.drop_last() =~= self.files@.take(i as int));
                assert(next.last() == self.files@[i as int]);
                if i == 0 {
                    assert(list@ =~= Seq::<char>::empty());
                }
            }
            if i > 0 {
                list.append(",");
            }
            list.append(entry.as_str());
            i += 1;
        }
        assert(self.files@.take(i as int) =~= self.files@);
        let mut text = "{\"sender\":".to_string();
        text.append(sender.as_str());
        text.append(",\"receiver\":");
        text.append(receiver.as_str());
        text.append(",\"files\":[");
        text.append(list.as_str());
        text.append("]}");
        Ok(text)
    }

    /// The handshake as the sender writes it: the bytes of its JSON
    /// object, closed by the marker.
    pub fn to_wire(&self) -> (wire: Vec<u8>)
        ensures
            wire@ == framed(encode_utf8(handshake_json(*self))),
    {
        match self.to_json() {
            Ok(text) => frame_payload(text.as_str().as_bytes()),
            Err(_) => Vec::new(),
        }
    }

    /// The number of bytes that the manifest declares in all; it stops
    /// at the largest number that can be held.
    pub fn declared_total(&self) -> (total: u64)
        ensures
            total == total_size(declared_sizes(self.files@)),
    {
        let ghost sizes = declared_sizes(self.files@);
        let mut total: u64 = 0;
        let mut i: usize = 0;
        assert(sizes.take(0) =~= Seq::<u64>::empty());
        while i < self.files.len()
            invariant
                i <= self.files@.len(),
                sizes == declared_sizes(self.files@),
                total == total_size(sizes.take(i as int)),
            decreases self.files@.len() - i,
        {
            proof {
                let next = sizes.take(i + 1);
                assert(next.drop_last() =~= sizes.take(i as int));
                assert(next.last() == self.files@[i as int].size);
            }
            total = total.saturating_add(self.files[i].size);
            i += 1;
        }
        assert(sizes.take(i as int) =~= sizes);
        total
    }

    /// The sizes that the manifest declares, in order.
    pub fn sizes(&self) -> (sizes: Vec<u64>)
        ensures
            sizes@ == declared_sizes(self.files@),
    {
        let mut sizes: Vec<u64> = Vec::new();
        let mut i: usize = 0;
        while i < self.files.len()
            invariant
                i <= self.files@.len(),
                sizes@.len() == i,
                forall|j: int| 0 <= j < i ==> sizes@[j] == self.files@[j].size,
            decreases self.files@.len() - i,
        {
            sizes.push(self.files[i].size);
            i += 1;
        }
        assert(sizes@ =~= declared_sizes(self.files@));
        sizes
    }
}

/// The JSON object that accepts a transfer on behalf of `receiver`.
pub fn accept_response(receiver: &str) -> (json: Result<String, AirWinError>)
    ensures
        json matches Ok(text) && text@ == accept_json(receiver@),
{
    match json_quoted(receiver) {
        Ok(quoted) => {
            let mut text = "{\"receiver\":".to_string();
            text.append(quoted.as_str());
            text.append(",\"status\":\"accept\"}");
            Ok(text)
        },
        Err(why) => Err(AirWinError::ProtocolError(why)),
    }
}

/// The reply that accepts a transfer as the receiver writes it: the
/// bytes of its JSON object, closed by the marker.
pub fn accept_wire(receiver: &str) -> (wire: Vec<u8>)
    ensures
        wire@ == framed(encode_utf8(accept_json(receiver@))),
{
    match accept_response(receiver) {
        Ok(text) => frame_payload(text.as_str().as_bytes()),
        Err(_) => Vec::new(),
    }
}

/// A payload closed by the marker.
pub fn frame_payload(payload: &[u8]) -> (wire: Vec<u8>)
    ensures
        wire@ == framed(payload@),
{
    let mut wire: Vec<u8> = Vec::new();
    append_bytes(&mut wire, payload);
    wire.push(10u8);
    wire.push(10u8);
    assert(wire@ =~= payload@ + marker());
    wire
}

/// Whether the bytes read so far hold the marker, that is, a whole
/// handshake.
pub fn handshake_complete(buffer: &[u8]) -> (complete: bool)
    ensures
        complete == contains_subseq(buffer@, marker()),
{
    let mark: [u8; 2] = [10, 10];
    assert(mark@ =~= marker());
    contains_bytes(buffer, vstd::array::array_as_slice(&mark))
}

/// Splits the bytes read so far at the first marker into the handshake's
/// payload and what follows the marker.
pub fn split_at_marker(buffer: &[u8]) -> (parts: Option<(Vec<u8>, Vec<u8>)>)
    ensures
        match parts {
            Some((payload, rest)) => first_occurrence(buffer@, marker(), payload@.len() as int)
                && payload@ == buffer@.take(payload@.len() as int) && rest@ == buffer@.skip(
                payload@.len() as int + 2,
            ),
            None => !contains_subseq(buffer@, marker()),
        },
{
    let mark: [u8; 2] = [10, 10];
    assert(mark@ =~= marker());
    match find_bytes(buffer, vstd::array::array_as_slice(&mark)) {
        Some(at) => {
            let end: usize = buffer.len();
            assert(occurs_at(buffer@, marker(), at as int));
            let payload = copy_range(buffer, 0, at);
            let rest = copy_range(buffer, at + 2, end);
            assert(payload@ =~= buffer@.take(at as int));
            assert(rest@ =~= buffer@.skip(at + 2));
            Some((payload, rest))
        },
        None => None,
    }
}

/// The whole byte stream of a session: the framed handshake, then the
/// files back to back.
pub fn encode_session(payload: &[u8], files: &Vec<Vec<u8>>) -> (wire: Vec<u8>)
    ensures
        wire@ == framed(payload@) + concat(crate::protocols::transfer::views(files@)),
{
    let mut wire = frame_payload(payload);
    let ghost parts = crate::protocols::transfer::views(files@);
    let mut i: usize = 0;
    proof {
        lemma_concat_take(parts, 0);
    }
    while i < files.len()
        invariant
            i <= files@.len(),
            parts == crate::protocols::transfer::views(files@),
            wire@ == framed(payload@) + concat(parts.take(i as int)),
        decreases files@.len() - i,
    {
        append_bytes(&mut wire, files[i].as_slice());
        proof {
            lemma_concat_take(parts, i + 1);
            assert(wire@ =~= framed(payload@) + concat(parts.take(i + 1)));
        }
        i += 1;
    }
    assert(parts.take(i as int) =~= parts);
    wire
}

/// Joining one part more appends that part.
pub proof fn lemma_concat_take(parts: Seq<Seq<u8>>, n: int)
    requires
        0 <= n <= parts.len(),
    ensures
        n == 0 ==> concat(parts.take(n)) == Seq::<u8>::empty(),
        n > 0 ==> concat(parts.take(n)) == concat(parts.take(n - 1)) + parts[n - 1],
    decreases n,
{
    if n == 0 {
        assert(parts.take(0) =~= Seq::<Seq<u8>>::empty());
    } else {
        lemma_concat_push(parts.take(n - 1), parts[n - 1]);
        assert(parts.take(n - 1).push(parts[n - 1]) =~= parts.take(n));
    }
}

/// Joining a list with one part appended appends that part.
pub proof fn lemma_concat_push(parts: Seq<Seq<u8>>, last: Seq<u8>)
    ensures
        concat(parts.push(last)) == concat(parts) + last,
    decreases parts.len(),
{
    let all = parts.push(last);
    if parts.len() == 0 {
        assert(all.drop_first() =~= Seq::<Seq<u8>>::empty());
        assert(concat(all.drop_first()) =~= Seq::<u8>::empty());
        assert(concat(parts) =~= Seq::<u8>::empty());
        assert(concat(all) =~= last);
        assert(concat(parts) + last =~= last);
    } else {
        lemma_concat_push(parts.drop_first(), last);
        assert(all.drop_first() =~= parts.drop_first().push(last));
        assert(all[0] == parts[0]);
        assert(concat(all) =~= concat(parts) + last);
    }
}

/// In the stream of a payload without line feeds, the first marker is
/// the one that closes the payload, whatever bytes follow it.
pub proof fn lemma_marker_after_payload(payload: Seq<u8>, body: Seq<u8>)
    requires
        forall|i: int| 0 <= i < payload.len() ==> payload[i] != 10u8,
    ensures
        first_occurrence(framed(payload) + body, marker(), payload.len() as int),
        (framed(payload) + body).take(payload.len() as int) == payload,
        (framed(payload) + body).skip(payload.len() as int + 2) == body,
{
    let wire = framed(payload) + body;
    let n = payload.len() as int;
    assert(wire.subrange(n, n + 2) =~= marker());
    assert forall|earlier: int| 0 <= earlier < n implies !occurs_at(wire, marker(), earlier) by {
        if occurs_at(wire, marker(), earlier) {
            assert(wire.subrange(earlier, earlier + 2)[0] == 10u8);
            assert(wire[earlier] == payload[earlier]);
        }
    }
    assert(wire.take(n) =~= payload);
    assert(wire.skip(n + 2) =~= body);
}

/// A session's stream, split at its first marker and given back to files
/// of the sent lengths, yields the payload and the very files that were
/// sent.
pub proof fn lemma_session_round_trip(payload: Seq<u8>, files: Seq<Seq<u8>>)
    requires
        forall|i: int| 0 <= i < payload.len() ==> payload[i] != 10u8,
        forall|i: int| 0 <= i < files.len() ==> (#[trigger] files[i]).len() <= u64::MAX,
    ensures
        first_occurrence(framed(payload) + concat(files), marker(), payload.len() as int),
        (framed(payload) + concat(files)).take(payload.len() as int) == payload,
        split_by_sizes(
            (framed(payload) + concat(files)).skip(payload.len() as int + 2),
            lengths(files),
        )
            == files,
{
    lemma_marker_after_payload(payload, concat(files));
    lemma_split_round_trip(files);
}

} // verus!
