//! The container document: the fixed signature followed by an ordered
//! sequence of chunks.
//!
//! Decoding validates the signature and every chunk; it either yields a
//! document whose re-serialization is byte for byte the input buffer, or
//! fails atomically. Lookup is first-match by tag text; insertion and
//! removal keep the remaining order.

use vstd::prelude::*;
use vstd::string::StringSliceAdditionalSpecFns;
use vstd::string::StrSliceExecFns;
use crate::chunk::Chunk;
use crate::endian::{spec_u32_from_be, u32_from_be_bytes};
use crate::error::PngError;
use vstd::string::StringExecFns;

verus! {

/// The fixed eight magic bytes every document starts with.
pub open spec fn spec_signature() -> Seq<u8> {
    seq![137u8, 80u8, 78u8, 71u8, 13u8, 10u8, 26u8, 10u8]
}

/// The wire form of a chunk sequence: each chunk's wire form in order.
pub open spec fn spec_chunks_wire(s: Seq<Chunk>) -> Seq<u8>
    decreases s.len(),
{
    if s.len() == 0 {
        Seq::empty()
    } else {
        spec_chunks_wire(s.drop_last()) + s.last().spec_wire()
    }
}

/// Whether a chunk has the given tag bytes.
pub open spec fn spec_tag_matches(c: Chunk, name: Seq<u8>) -> bool {
    c.chunk_type@ == name
}

/// Whether some chunk of `s` has the given tag bytes.
pub open spec fn spec_has_match(s: Seq<Chunk>, name: Seq<u8>) -> bool {
    exists|i: int| 0 <= i < s.len() && spec_tag_matches(s[i], name)
}

/// Whether `i` is the position of the first chunk of `s` with the given
/// tag bytes.
pub open spec fn spec_is_first_match(s: Seq<Chunk>, name: Seq<u8>, i: int) -> bool {
    &&& 0 <= i < s.len()
    &&& spec_tag_matches(s[i], name)
    &&& forall|j: int| 0 <= j < i ==> !spec_tag_matches(s[j], name)
}

/// The position of the first chunk of `s` with the given tag bytes.
pub open spec fn spec_first_match(s: Seq<Chunk>, name: Seq<u8>) -> int {
    choose|i: int| spec_is_first_match(s, name, i)
}

/// At most one position is the first match, and where one exists it is
/// what `spec_first_match` names.
pub proof fn lemma_first_match(s: Seq<Chunk>, name: Seq<u8>, i: int)
    requires
        spec_is_first_match(s, name, i),
    ensures
        spec_has_match(s, name),
        spec_first_match(s, name) == i,
{
    let i2 = spec_first_match(s, name);
    assert(spec_is_first_match(s, name, i2));
    if i < i2 {
        assert(!spec_tag_matches(s[i], name));
    }
    if i2 < i {
        assert(!spec_tag_matches(s[i2], name));
    }
}

/// Law: a record inserted at the first-match position of its own tag is
/// itself the first match afterwards — a later search finds the new
/// record, ahead of any pre-existing record with the same tag.
pub proof fn lemma_insert_becomes_first_match(s: Seq<Chunk>, name: Seq<u8>, i: int, c: Chunk)
    requires
        spec_is_first_match(s, name, i),
        spec_tag_matches(c, name),
    ensures
        spec_is_first_match(s.insert(i, c), name, i),
        s.insert(i, c)[i] == c,
{
    s.insert_ensures(i, c);
    assert forall|j: int| 0 <= j < i implies !spec_tag_matches(s.insert(i, c)[j], name) by {
        assert(s.insert(i, c)[j] == s[j]);
    }
}

/// The ordered sequence of chunks of one document.
#[derive(Debug, Clone, PartialEq, Eq)]
pub struct Png {
    pub chunks: Vec<Chunk>,
}

/// Whether the chunk's tag holds exactly the given bytes.
fn chunk_matches(c: &Chunk, name_bytes: &Vec<u8>) -> (r: bool)
    ensures
        r == spec_tag_matches(*c, name_bytes@),
{
    if name_bytes.len() != 4 {
        proof {
            assert(c.chunk_type@.len() == 4);
        }
        return false;
    }
    let b = c.chunk_type().bytes();
    let eq = b[0] == name_bytes[0] && b[1] == name_bytes[1] && b[2] == name_bytes[2] && b[3]
        == name_bytes[3];
    proof {
        if eq {
            assert(c.chunk_type@ =~= name_bytes@);
        } else {
            if c.chunk_type@ == name_bytes@ {
                assert(b@[0] == name_bytes@[0] && b@[1] == name_bytes@[1] && b@[2] == name_bytes@[2]
                    && b@[3] == name_bytes@[3]);
            }
        }
    }
    eq
}

/// The position of the first chunk with the given tag bytes, if any.
fn position_of(chunks: &Vec<Chunk>, name_bytes: &Vec<u8>) -> (r: Option<usize>)
    ensures
        r matches Some(i) ==> spec_is_first_match(chunks@, name_bytes@, i as int)
            && spec_first_match(chunks@, name_bytes@) == i as int,
        r is None <==> !spec_has_match(chunks@, name_bytes@),
{
    let mut i: usize = 0;
    while i < chunks.len()
        invariant
            i <= chunks@.len(),
            forall|j: int| 0 <= j < i ==> !spec_tag_matches(chunks@[j], name_bytes@),
        decreases chunks@.len() - i,
    {
        if chunk_matches(&chunks[i], name_bytes) {
            proof {
                lemma_first_match(chunks@, name_bytes@, i as int);
            }
            return Some(i);
        }
        i += 1;
    }
    None
}

impl Png {
    /// Every chunk of the document is internally consistent.
    pub open spec fn wf(self) -> bool {
        forall|i: int| 0 <= i < self.chunks@.len() ==> (#[trigger] self.chunks@[i]).wf()
    }

    /// The document's wire form: the signature, then every chunk in
    /// order.
    pub open spec fn spec_wire(self) -> Seq<u8> {
        spec_signature() + spec_chunks_wire(self.chunks@)
    }

    /// Whether a byte sequence is a well-formed chunk stream: zero or
    /// more chunks, each counted out by its own length field, with
    /// nothing left over.
    pub open spec fn spec_chunks_parse(b: Seq<u8>) -> bool
        decreases b.len(),
    {
        if b.len() == 0 {
            true
        } else if b.len() < 12 {
            false
        } else {
            let l = spec_u32_from_be(b.subrange(0, 4)) as int;
            &&& 12 + l <= b.len()
            &&& Chunk::spec_chunk_parses(b.subrange(0, 12 + l))
            &&& Self::spec_chunks_parse(b.skip(12 + l))
        }
    }

    /// The error a malformed chunk stream is rejected with: the first
    /// chunk that fails decides.
    pub open spec fn spec_chunks_err(b: Seq<u8>) -> PngError
        decreases b.len(),
    {
        if b.len() < 12 {
            PngError::ChunkParseError
        } else {
            let l = spec_u32_from_be(b.subrange(0, 4)) as int;
            if 12 + l > b.len() {
                PngError::ChunkParseError
            } else if !Chunk::spec_chunk_parses(b.subrange(0, 12 + l)) {
                Chunk::spec_chunk_err(b.subrange(0, 12 + l))
            } else {
                Self::spec_chunks_err(b.skip(12 + l))
            }
        }
    }

    /// Whether a buffer is a well-formed document: the signature
    /// followed by a well-formed chunk stream.
    pub open spec fn spec_parses(b: Seq<u8>) -> bool {
        &&& b.len() >= 8
        &&& b.subrange(0, 8) == spec_signature()
        &&& Self::spec_chunks_parse(b.skip(8))
    }

    /// The error a malformed buffer is rejected with: a bad signature
    /// before anything else.
    pub open spec fn spec_err(b: Seq<u8>) -> PngError {
        if b.len() < 8 || b.subrange(0, 8) != spec_signature() {
            PngError::InvalidHeader
        } else {
            Self::spec_chunks_err(b.skip(8))
        }
    }

    /// Decodes a whole buffer into a document.
    ///
    /// Round trip: on success the document's wire form — what `encode`
    /// returns — is byte for byte the input buffer. Any failure (bad
    /// signature, truncated chunk, bad tag, checksum mismatch, malformed
    /// payload) aborts the whole decode; no partial document exists.
    #[verifier::rlimit(60)]
    pub fn decode(buffer: &Vec<u8>) -> (r: Result<Png, PngError>)
        ensures
            r matches Ok(p) ==> p.wf() && p.spec_wire() == buffer@,
            r is Ok <==> Self::spec_parses(buffer@),
            r matches Err(e) ==> e == Self::spec_err(buffer@),
    {
        let n = buffer.len();
        if n < 8 {
            return Err(PngError::InvalidHeader);
        }
        if !(buffer[0] == 137 && buffer[1] == 80 && buffer[2] == 78 && buffer[3] == 71 && buffer[4]
            == 13 && buffer[5] == 10 && buffer[6] == 26 && buffer[7] == 10) {
            proof {
                if buffer@.subrange(0, 8) == spec_signature() {
                    assert(buffer@[0] == 137 && buffer@[1] == 80 && buffer@[2] == 78 && buffer@[3]
                        == 71 && buffer@[4] == 13 && buffer@[5] == 10 && buffer@[6] == 26
                        && buffer@[7] == 10);
                }
            }
            return Err(PngError::InvalidHeader);
        }
        proof {
            assert(buffer@.subrange(0, 8) =~= spec_signature());
        }
        let mut chunks: Vec<Chunk> = Vec::new();
        let mut pos: usize = 8;
        while pos < n
            invariant
                8 <= pos <= n,
                n == buffer@.len(),
                buffer@.subrange(0, 8) == spec_signature(),
                forall|i: int| 0 <= i < chunks@.len() ==> (#[trigger] chunks@[i]).wf(),
                spec_signature() + spec_chunks_wire(chunks@) == buffer@.subrange(0, pos as int),
                Self::spec_chunks_parse(buffer@.skip(8)) <==> Self::spec_chunks_parse(
                    buffer@.skip(pos as int),
                ),
                !Self::spec_chunks_parse(buffer@.skip(8)) ==> Self::spec_chunks_err(buffer@.skip(8))
                    == Self::spec_chunks_err(buffer@.skip(pos as int)),
            decreases n - pos,
        {
            let ghost rest = buffer@.skip(pos as int);
            if n - pos < 12 {
                return Err(PngError::ChunkParseError);
            }
            let l = u32_from_be_bytes(buffer[pos], buffer[pos + 1], buffer[pos + 2], buffer[pos
                + 3]);
            proof {
                assert(rest.subrange(0, 4) =~= seq![
                    buffer@[pos as int],
                    buffer@[pos as int + 1],
                    buffer@[pos as int + 2],
                    buffer@[pos as int + 3],
                ]);
            }
            if (l as usize) > n - pos - 12 {
                return Err(PngError::ChunkParseError);
            }
            let end = pos + 12 + (l as usize);
            proof {
                assert(rest.subrange(0, 12 + l as int) =~= buffer@.subrange(
                    pos as int,
                    end as int,
                ));
                assert(rest.skip(12 + l as int) =~= buffer@.skip(end as int));
            }
            let c = match Chunk::decode_range(buffer, pos, end) {
                Ok(c) => c,
                Err(e) => {
                    return Err(e);
                },
            };
            let ghost prev = chunks@;
            chunks.push(c);
            proof {
                assert(chunks@.drop_last() =~= prev);
                assert(chunks@.last() == c);
                assert(spec_chunks_wire(chunks@) == spec_chunks_wire(prev) + c.spec_wire());
                assert(buffer@.subrange(0, end as int) =~= buffer@.subrange(0, pos as int)
                    + buffer@.subrange(pos as int, end as int));
                assert(spec_signature() + spec_chunks_wire(chunks@) =~= buffer@.subrange(
                    0,
                    end as int,
                ));
            }
            pos = end;
        }
        proof {
            assert(buffer@.skip(pos as int) =~= Seq::<u8>::empty());
            assert(buffer@.subrange(0, pos as int) =~= buffer@);
        }
        Ok(Png { chunks })
    }

    /// Serializes the document: the signature, then every chunk's wire
    /// form, in current order.
    pub fn encode(&self) -> (r: Vec<u8>)
        ensures
            r@ == self.spec_wire(),
    {
        let mut out: Vec<u8> = Vec::new();
        out.push(137);
        out.push(80);
        out.push(78);
        out.push(71);
        out.push(13);
        out.push(10);
        out.push(26);
        out.push(10);
        proof {
            assert(out@ =~= spec_signature());
            assert(self.chunks@.subrange(0, 0) =~= Seq::<Chunk>::empty());
        }
        let mut i: usize = 0;
        while i < self.chunks.len()
            invariant
                i <= self.chunks@.len(),
                out@ == spec_signature() + spec_chunks_wire(self.chunks@.subrange(0, i as int)),
            decreases self.chunks@.len() - i,
        {
            let mut cb = self.chunks[i].as_bytes();
            out.append(&mut cb);
            proof {
                let pre = self.chunks@.subrange(0, i as int);
                let cur = self.chunks@.subrange(0, i as int + 1);
                assert(cur.drop_last() =~= pre);
                assert(cur.last() == self.chunks@[i as int]);
            }
            i += 1;
        }
        proof {
            assert(self.chunks@.subrange(0, self.chunks@.len() as int) =~= self.chunks@);
        }
        out
    }

    /// The display form of the document: each chunk's display form in
    /// order.
    pub open spec fn spec_render(self) -> Seq<char> {
        Self::spec_render_chunks(self.chunks@)
    }

    /// The display form of a chunk sequence.
    pub open spec fn spec_render_chunks(s: Seq<Chunk>) -> Seq<char>
        decreases s.len(),
    {
        if s.len() == 0 {
            Seq::empty()
        } else {
            Self::spec_render_chunks(s.drop_last()) + s.last().spec_render()
        }
    }

    /// Renders the whole document for display, chunk by chunk.
    pub fn render_as_text(&self) -> (r: String)
        requires
            self.wf(),
        ensures
            r@ == self.spec_render(),
    {
        let mut out = String::new();
        let mut i: usize = 0;
        while i < self.chunks.len()
            invariant
                i <= self.chunks@.len(),
                self.wf(),
                out@ == Self::spec_render_chunks(self.chunks@.subrange(0, i as int)),
            decreases self.chunks@.len() - i,
        {
            let t = self.chunks[i].render_as_text();
            out.append(t.as_str());
            proof {
                let cur = self.chunks@.subrange(0, i as int + 1);
                assert(cur.drop_last() =~= self.chunks@.subrange(0, i as int));
                assert(cur.last() == self.chunks@[i as int]);
            }
            i += 1;
        }
        proof {
            assert(self.chunks@.subrange(0, self.chunks@.len() as int) =~= self.chunks@);
        }
        out
    }

    /// The number of chunks.
    pub fn chunk_count(&self) -> (r: usize)
        ensures
            r == self.chunks@.len(),
    {
        self.chunks.len()
    }

    /// The chunk at a position.
    pub fn chunk_at(&self, at: usize) -> (r: Option<&Chunk>)
        ensures
            r matches Some(c) ==> at < self.chunks@.len() && c == self.chunks@[at as int],
            r is None <==> at >= self.chunks@.len(),
    {
        self.chunks.get(at)
    }

    /// The position of the first chunk whose tag renders as `name`.
    pub fn find_position(&self, name: &str) -> (r: Option<usize>)
        ensures
            r matches Some(i) ==> spec_is_first_match(
                self.chunks@,
                name.spec_bytes(),
                i as int,
            ),
            r is None <==> !spec_has_match(self.chunks@, name.spec_bytes()),
    {
        let name_bytes = name.as_bytes_vec();
        position_of(&self.chunks, &name_bytes)
    }

    /// The first chunk whose tag renders as `name`.
    pub fn find(&self, name: &str) -> (r: Option<&Chunk>)
        ensures
            r matches Some(c) ==> spec_has_match(self.chunks@, name.spec_bytes()) && c
                == self.chunks@[spec_first_match(self.chunks@, name.spec_bytes())],
            r is None <==> !spec_has_match(self.chunks@, name.spec_bytes()),
    {
        let name_bytes = name.as_bytes_vec();
        match position_of(&self.chunks, &name_bytes) {
            Some(i) => Some(&self.chunks[i]),
            None => None,
        }
    }

    /// The first chunk whose tag renders as `name`, borrowed for
    /// mutation; the rest of the document is untouched.
    pub fn find_mut(&mut self, name: &str) -> (r: Option<&mut Chunk>)
        ensures
            r matches Some(m) ==> {
                &&& spec_has_match(old(self).chunks@, name.spec_bytes())
                &&& *m == old(self).chunks@[spec_first_match(
                    old(self).chunks@,
                    name.spec_bytes(),
                )]
                &&& final(self).chunks@ == old(self).chunks@.update(
                    spec_first_match(old(self).chunks@, name.spec_bytes()),
                    *final(m),
                )
            },
            r is None ==> *final(self) == *old(self) && !spec_has_match(
                old(self).chunks@,
                name.spec_bytes(),
            ),
    {
        let name_bytes = name.as_bytes_vec();
        match position_of(&self.chunks, &name_bytes) {
            Some(i) => Some(&mut self.chunks[i]),
            None => None,
        }
    }

    /// Inserts a record at a position, keeping the order of everything
    /// around it; positions past the end are rejected and leave the
    /// document untouched.
    pub fn insert(&mut self, at: usize, chunk: Chunk) -> (r: Result<(), PngError>)
        ensures
            at <= old(self).chunks@.len() ==> (r is Ok && final(self).chunks@
                == old(self).chunks@.insert(at as int, chunk)),
            at > old(self).chunks@.len() ==> (r matches Err(e) && e == PngError::IndexOutOfBounds
                && *final(self) == *old(self)),
            (old(self).wf() && chunk.wf() && at <= old(self).chunks@.len()) ==> final(self).wf(),
    {
        if at > self.chunks.len() {
            return Err(PngError::IndexOutOfBounds);
        }
        self.chunks.insert(at, chunk);
        proof {
            old(self).chunks@.insert_ensures(at as int, chunk);
        }
        Ok(())
    }

    /// Removes the first chunk whose tag renders as `name` and
    /// hands it back; fails, leaving the document untouched, when no
    /// chunk matches or when removal would leave the document empty.
    pub fn remove(&mut self, name: &str) -> (r: Result<Chunk, PngError>)
        ensures
            r matches Ok(c) ==> {
                &&& spec_has_match(old(self).chunks@, name.spec_bytes())
                &&& old(self).chunks@.len() > 1
                &&& c == old(self).chunks@[spec_first_match(
                    old(self).chunks@,
                    name.spec_bytes(),
                )]
                &&& final(self).chunks@ == old(self).chunks@.remove(
                    spec_first_match(old(self).chunks@, name.spec_bytes()),
                )
            },
            r is Ok <==> spec_has_match(old(self).chunks@, name.spec_bytes()) && old(
                self,
            ).chunks@.len() > 1,
            r matches Err(e) ==> *final(self) == *old(self) && e == (if !spec_has_match(
                old(self).chunks@,
                name.spec_bytes(),
            ) {
                PngError::ChunkNotFoundError
            } else {
                PngError::ChunksIsEmptyError
            }),
    {
        let name_bytes = name.as_bytes_vec();
        match position_of(&self.chunks, &name_bytes) {
            Some(i) => {
                // A document must keep at least one chunk: removing the
                // last one is refused rather than leaving an empty
                // sequence.
                if self.chunks.len() <= 1 {
                    return Err(PngError::ChunksIsEmptyError);
                }
                let c = self.chunks.remove(i);
                Ok(c)
            },
            None => Err(PngError::ChunkNotFoundError),
        }
    }
}

} // verus!
