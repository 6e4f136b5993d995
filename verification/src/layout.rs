//! The storage layout: where the files of an image go, and how a payload is
//! cut into the chunks that are written one after another.

use vstd::prelude::*;
use vstd::slice::slice_subrange;
use vstd::slice::slice_to_vec;
use vstd::string::StringExecFns;
use crate::format::ImageKind;
use crate::identity::is_canonical;
use crate::identity::Identity;

verus! {

/// The largest number of bytes written to a file at once: 1 KiB.
pub const CHUNK_SIZE: usize = 1024;

/// The name shared by the two files of an image: its identity, a dot and the
/// extension of its codec.
pub open spec fn name_of(identity: Seq<char>, kind: ImageKind) -> Seq<char> {
    identity + "."@ + kind.extension()
}

/// Where the submitted bytes of an image are kept: directly under the storage
/// root.
pub open spec fn original_location(root: Seq<char>, identity: Seq<char>, kind: ImageKind) -> Seq<
    char,
> {
    root + "/"@ + name_of(identity, kind)
}

/// Where the preview of an image is kept: under the same name, in the
/// `preview` directory of the storage root.
pub open spec fn preview_location(root: Seq<char>, identity: Seq<char>, kind: ImageKind) -> Seq<
    char,
> {
    root + "/preview/"@ + name_of(identity, kind)
}

/// The directory that holds the previews, under the storage root.
pub open spec fn preview_directory_of(root: Seq<char>) -> Seq<char> {
    root + "/preview"@
}

/// The storage layout: a root directory that holds the submitted images, and
/// its `preview` directory that holds their previews under the same names. It
/// is made once and only read afterwards.
#[derive(Debug, PartialEq, Eq)]
pub struct StorageLayout {
    root: String,
}

impl View for StorageLayout {
    type V = Seq<char>;

    closed spec fn view(&self) -> Seq<char> {
        self.root@
    }
}

impl StorageLayout {
    /// The layout under the given storage root.
    pub fn new(root: String) -> (layout: StorageLayout)
        ensures
            layout@ == root@,
    {
        StorageLayout { root }
    }

    /// The storage root.
    pub fn root(&self) -> (root: &str)
        ensures
            root@ == self@,
    {
        self.root.as_str()
    }

    /// The path of the directory that holds the previews.
    pub fn preview_directory(&self) -> (path: String)
        ensures
            path@ == preview_directory_of(self@),
    {
        let mut path = self.root.clone();
        path.append("/preview");
        path
    }

    /// The path of the file that holds the submitted bytes of an image.
    pub fn original_path(&self, identity: &Identity, kind: ImageKind) -> (path: String)
        ensures
            path@ == original_location(self@, identity@, kind),
    {
        let mut path = self.root.clone();
        path.append("/");
        let name = file_name(identity, kind);
        path.append(name.as_str());
        path
    }

    /// The path of the file that holds the preview of an image.
    pub fn preview_path(&self, identity: &Identity, kind: ImageKind) -> (path: String)
        ensures
            path@ == preview_location(self@, identity@, kind),
    {
        let mut path = self.root.clone();
        path.append("/preview/");
        let name = file_name(identity, kind);
        path.append(name.as_str());
        path
    }
}

/// The file name of an image.
pub fn file_name(identity: &Identity, kind: ImageKind) -> (name: String)
    ensures
        name@ == name_of(identity@, kind),
{
    let mut name = String::from_str(identity.as_str());
    name.append(".");
    name.append(kind.extension_str());
    name
}

/// A preview lies in the preview directory, under the name of its image.
pub proof fn law_preview_lies_in_preview_directory(
    root: Seq<char>,
    identity: Seq<char>,
    kind: ImageKind,
)
    ensures
        preview_location(root, identity, kind) == preview_directory_of(root) + "/"@ + name_of(
            identity,
            kind,
        ),
{
    reveal_strlit("/");
    reveal_strlit("/preview");
    reveal_strlit("/preview/");
    assert("/preview/"@ =~= "/preview"@ + "/"@);
    assert(root + "/preview/"@ + name_of(identity, kind) =~= root + "/preview"@ + "/"@ + name_of(
        identity,
        kind,
    ));
}

/// A file name holds no path separator, so the file lies directly in the
/// directory it is written to.
pub proof fn law_names_are_flat(identity: Seq<char>, kind: ImageKind)
    requires
        is_canonical(identity),
    ensures
        !name_of(identity, kind).contains('/'),
{
    reveal_strlit(".");
    reveal_strlit("png");
    reveal_strlit("jpeg");
    let name = name_of(identity, kind);
    assert forall|i: int| 0 <= i < name.len() implies name[i] != '/' by {
        if i < identity.len() {
            assert(name[i] == identity[i]);
        }
    }
}

/// Two images share a file name only if they have the same identity and the
/// same codec: images of different identity never write to the same file.
pub proof fn law_names_distinguish(a: Seq<char>, kind_a: ImageKind, b: Seq<char>, kind_b: ImageKind)
    requires
        is_canonical(a),
        is_canonical(b),
        name_of(a, kind_a) == name_of(b, kind_b),
    ensures
        a == b,
        kind_a == kind_b,
{
    reveal_strlit(".");
    reveal_strlit("png");
    reveal_strlit("jpeg");
    let name_a = name_of(a, kind_a);
    let name_b = name_of(b, kind_b);
    assert(name_a.len() == 37 + kind_a.extension().len());
    assert(name_b.len() == 37 + kind_b.extension().len());
    assert(a =~= name_a.subrange(0, 36));
    assert(b =~= name_b.subrange(0, 36));
}

/// The original and the preview of an image lie under the same storage root
/// in different files, whatever the root.
pub proof fn law_pair_is_two_files(root: Seq<char>, identity: Seq<char>, kind: ImageKind)
    requires
        is_canonical(identity),
    ensures
        original_location(root, identity, kind) != preview_location(root, identity, kind),
{
    reveal_strlit("/");
    reveal_strlit("/preview/");
    let original = original_location(root, identity, kind);
    let preview = preview_location(root, identity, kind);
    let name = name_of(identity, kind);
    assert(original.len() == root.len() + 1 + name.len());
    assert(preview.len() == root.len() + 9 + name.len());
}

/// The number of chunks that a payload of `len` bytes is written in.
pub open spec fn chunk_count(len: nat) -> nat {
    ((len + CHUNK_SIZE - 1) / (CHUNK_SIZE as int)) as nat
}

/// Chunk number `i` of a payload: the bytes from `i * CHUNK_SIZE` up to the
/// next multiple of `CHUNK_SIZE`, or up to the end of the payload.
pub open spec fn chunk_at(payload: Seq<u8>, i: int) -> Seq<u8> {
    payload.subrange(
        i * CHUNK_SIZE,
        if (i + 1) * CHUNK_SIZE <= payload.len() {
            (i + 1) * CHUNK_SIZE
        } else {
            payload.len() as int
        },
    )
}

/// The chunks of a payload, in the order they are written.
pub open spec fn chunks_of(payload: Seq<u8>) -> Seq<Seq<u8>> {
    Seq::new(chunk_count(payload.len()), |i: int| chunk_at(payload, i))
}

/// What a file holds once the given chunks were written to it one after
/// another.
pub open spec fn joined(chunks: Seq<Seq<u8>>) -> Seq<u8>
    decreases chunks.len(),
{
    if chunks.len() == 0 {
        Seq::empty()
    } else {
        joined(chunks.drop_last()) + chunks.last()
    }
}

/// The first `k` chunks of a payload join to its first `k * CHUNK_SIZE` bytes.
proof fn lemma_joined_prefix(payload: Seq<u8>, k: nat)
    requires
        k <= chunk_count(payload.len()),
    ensures
        joined(chunks_of(payload).take(k as int)) == payload.take(
            if k * CHUNK_SIZE <= payload.len() {
                (k * CHUNK_SIZE) as int
            } else {
                payload.len() as int
            },
        ),
    decreases k,
{
    let chunks = chunks_of(payload);
    if k == 0 {
        assert(joined(chunks.take(0)) =~= payload.take(0));
    } else {
        lemma_joined_prefix(payload, (k - 1) as nat);
        let prefix = chunks.take(k as int);
        assert(prefix.drop_last() =~= chunks.take(k - 1));
        assert(prefix.last() == chunk_at(payload, k - 1));
        let end = if k * CHUNK_SIZE <= payload.len() {
            (k * CHUNK_SIZE) as int
        } else {
            payload.len() as int
        };
        assert(payload.take((k - 1) * CHUNK_SIZE) + chunk_at(payload, k - 1) =~= payload.take(end));
    }
}

/// Written chunk after chunk, a payload is stored byte for byte; no chunk is
/// empty or longer than `CHUNK_SIZE`, and only the last may be shorter.
pub proof fn law_chunks_reassemble(payload: Seq<u8>)
    ensures
        joined(chunks_of(payload)) == payload,
        forall|i: int|
            0 <= i < chunks_of(payload).len() ==> 0 < (#[trigger] chunks_of(payload)[i]).len()
                <= CHUNK_SIZE,
        forall|i: int|
            0 <= i < chunks_of(payload).len() - 1 ==> (#[trigger] chunks_of(payload)[i]).len()
                == CHUNK_SIZE,
{
    let chunks = chunks_of(payload);
    lemma_joined_prefix(payload, chunks.len());
    assert(chunks.take(chunks.len() as int) =~= chunks);
    assert(payload.take(payload.len() as int) =~= payload);
}

/// Cuts a payload into the chunks it is written in. An empty payload has no
/// chunk.
pub fn split_chunks(payload: &[u8]) -> (chunks: Vec<Vec<u8>>)
    ensures
        chunks.deep_view() == chunks_of(payload@),
{
    let mut chunks: Vec<Vec<u8>> = Vec::new();
    let mut start: usize = 0;
    while start < payload.len()
        invariant
            start <= payload.len(),
            start % CHUNK_SIZE == 0 || start == payload.len(),
            chunks.len() == chunk_count(start as nat),
            forall|i: int| 0 <= i < chunks.len() ==> (#[trigger] chunks[i])@ == chunk_at(payload@, i),
        decreases payload.len() - start,
    {
        let end: usize = if payload.len() - start > CHUNK_SIZE {
            start + CHUNK_SIZE
        } else {
            payload.len()
        };
        let chunk = slice_to_vec(slice_subrange(payload, start, end));
        chunks.push(chunk);
        start = end;
    }
    assert forall|i: int| 0 <= i < chunks.len() implies chunks.deep_view()[i] == chunks_of(
        payload@,
    )[i] by {
        assert(chunks[i].deep_view() =~= chunks[i]@);
    }
    assert(chunks.deep_view() =~= chunks_of(payload@));
    chunks
}

} // verus!
