//! Meshes: the vertex and index data of one draw call, and the bytes that
//! the two GPU buffers are filled with.

use vstd::prelude::*;
use vstd::slice::slice_to_vec;

verus! {

/// A vertex record: a plain value of fixed size that can be copied freely
/// and that lies in a vertex buffer as a fixed number of 32-bit words.
pub trait Vertex: Copy {
    /// The number of 32-bit words that one record takes.
    spec fn word_count() -> nat;

    /// The record as it lies in a vertex buffer, word by word.
    spec fn words(&self) -> Seq<u32>;

    /// Every record takes the same number of words.
    proof fn lemma_word_count(&self)
        ensures
            self.words().len() == Self::word_count(),
    ;

    /// Appends the record's words to `out`.
    fn write_words(&self, out: &mut Vec<u32>)
        ensures
            final(out)@ == old(out)@ + self.words(),
    ;
}

/// The words of a run of vertex records, one record after the other.
pub open spec fn vertex_words<V: Vertex>(vertices: Seq<V>) -> Seq<u32>
    decreases vertices.len(),
{
    if vertices.len() == 0 {
        Seq::empty()
    } else {
        vertex_words(vertices.drop_last()) + vertices.last().words()
    }
}

/// The 32-bit word that four bytes make, the least significant byte first.
pub open spec fn word_le(bytes: Seq<u8>, at: int) -> int {
    bytes[at] + 0x100 * bytes[at + 1] + 0x1_0000 * bytes[at + 2] + 0x100_0000 * bytes[at + 3]
}

/// The 32-bit word that four bytes make, the most significant byte first.
pub open spec fn word_be(bytes: Seq<u8>, at: int) -> int {
    0x100_0000 * bytes[at] + 0x1_0000 * bytes[at + 1] + 0x100 * bytes[at + 2] + bytes[at + 3]
}

/// Whether `bytes` are `words` as they lie in memory: four bytes for each
/// word, in the byte order of the machine, which is the same for all words
/// and is one of the two that there are.
pub open spec fn bytes_hold_words(bytes: Seq<u8>, words: Seq<u32>) -> bool {
    &&& bytes.len() == 4 * words.len()
    &&& {
        ||| forall|i: int| 0 <= i < words.len() ==> #[trigger] words[i] == word_le(bytes, 4 * i)
        ||| forall|i: int| 0 <= i < words.len() ==> #[trigger] words[i] == word_be(bytes, 4 * i)
    }
}

/// `bytemuck::cast_slice` from `u32` to `u8` hands out the memory of the
/// words as bytes: four times as many bytes as words, each word's bytes in
/// the machine's byte order. A byte needs no alignment and four bytes always
/// make whole words, so the cast has no input that it fails on.
#[verifier::external_body]
fn words_to_bytes(words: &[u32]) -> (bytes: Vec<u8>)
    ensures
        bytes_hold_words(bytes@, words@),
{
    bytemuck::cast_slice::<u32, u8>(words).to_vec()
}

/// A run of `n` records takes `n` times the words of one.
pub proof fn lemma_vertex_words_len<V: Vertex>(vertices: Seq<V>)
    ensures
        vertex_words(vertices).len() == V::word_count() * vertices.len(),
    decreases vertices.len(),
{
    if vertices.len() > 0 {
        let front = vertices.drop_last();
        lemma_vertex_words_len(front);
        vertices.last().lemma_word_count();
        assert(V::word_count() * (front.len() + 1) == V::word_count() * front.len()
            + V::word_count()) by (nonlinear_arith);
    }
}

/// What a mesh holds.
pub ghost struct MeshView<V> {
    pub vertices: Seq<V>,
    pub indices: Seq<u32>,
    pub index_count: u32,
}

/// The geometry of one draw call: vertex records and the 32-bit indices that
/// pick among them, with the number of indices to draw. A mesh is filled once,
/// when it is made, and never changed.
pub struct Mesh<V: Vertex> {
    vertex_buffer: Vec<V>,
    index_buffer: Vec<u32>,
    index_count: u32,
}

impl<V: Vertex> View for Mesh<V> {
    type V = MeshView<V>;

    closed spec fn view(&self) -> MeshView<V> {
        MeshView {
            vertices: self.vertex_buffer@,
            indices: self.index_buffer@,
            index_count: self.index_count,
        }
    }
}

impl<V: Vertex> Mesh<V> {
    /// Makes a mesh of `vertices` and `indices`, both taken as they are: no
    /// index is held against the number of vertices. The index count is the
    /// number of indices, cut to its low 32 bits.
    pub fn new(vertices: &[V], indices: &[u32]) -> (mesh: Mesh<V>)
        ensures
            mesh@.vertices == vertices@,
            mesh@.indices == indices@,
            mesh@.index_count == indices@.len() as u32,
            indices@.len() <= u32::MAX ==> mesh@.index_count == indices@.len(),
    {
        Mesh {
            vertex_buffer: slice_to_vec(vertices),
            index_buffer: slice_to_vec(indices),
            index_count: #[verifier::truncate] (indices.len() as u32),
        }
    }

    /// The vertex records, in the order given.
    pub fn vertex_buffer(&self) -> (vertices: &Vec<V>)
        ensures
            vertices@ == self@.vertices,
    {
        &self.vertex_buffer
    }

    /// The indices, in the order given.
    pub fn index_buffer(&self) -> (indices: &Vec<u32>)
        ensures
            indices@ == self@.indices,
    {
        &self.index_buffer
    }

    /// The number of indices that a draw call over the whole mesh covers.
    pub fn index_count(&self) -> (count: u32)
        ensures
            count == self@.index_count,
    {
        self.index_count
    }

    /// The contents of the vertex buffer: the records' words, one record
    /// after the other, as bytes. The buffer is as large as the records
    /// together.
    pub fn vertex_bytes(&self) -> (bytes: Vec<u8>)
        ensures
            bytes_hold_words(bytes@, vertex_words(self@.vertices)),
            bytes@.len() == 4 * (V::word_count() * self@.vertices.len()),
    {
        let mut words: Vec<u32> = Vec::new();
        let mut i: usize = 0;
        while i < self.vertex_buffer.len()
            invariant
                i <= self.vertex_buffer@.len(),
                words@ == vertex_words(self.vertex_buffer@.take(i as int)),
            decreases self.vertex_buffer@.len() - i,
        {
            self.vertex_buffer[i].write_words(&mut words);
            proof {
                let before = self.vertex_buffer@.take(i as int);
                let after = self.vertex_buffer@.take(i + 1);
                assert(after.drop_last() == before);
                assert(after.last() == self.vertex_buffer@[i as int]);
            }
            i += 1;
        }
        proof {
            assert(self.vertex_buffer@.take(i as int) == self.vertex_buffer@);
            lemma_vertex_words_len(self.vertex_buffer@);
        }
        words_to_bytes(words.as_slice())
    }

    /// The contents of the index buffer: the indices as bytes, four for
    /// each.
    pub fn index_bytes(&self) -> (bytes: Vec<u8>)
        ensures
            bytes_hold_words(bytes@, self@.indices),
            bytes@.len() == 4 * self@.indices.len(),
    {
        words_to_bytes(self.index_buffer.as_slice())
    }
}

} // verus!
