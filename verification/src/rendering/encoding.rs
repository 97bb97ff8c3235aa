//! The bytes that the buffers hold.
//!
//! On the device a vertex is five single-precision numbers and an index is a
//! 16-bit integer. This library keeps exact ratios and computes with integers
//! only: the word that stands for a ratio on the device is chosen by a
//! function of the caller, and the library lays the words out.

use vstd::prelude::*;
use crate::math::Ratio;
use crate::rendering::index::Index;
use crate::rendering::vertex::{Vertex, VertexBufferLayout};

verus! {

/// The `width` lowest bytes of `value`, the lowest first.
pub open spec fn le_bytes(value: nat, width: nat) -> Seq<u8>
    decreases width,
{
    if width == 0 {
        Seq::empty()
    } else {
        seq![(value % 256) as u8] + le_bytes(value / 256, (width - 1) as nat)
    }
}

/// Whether `bytes` are the `width` bytes of `value` as a machine keeps them
/// in memory: the lowest byte first, or the highest byte first.
pub open spec fn in_machine_order(bytes: Seq<u8>, value: nat, width: nat) -> bool {
    bytes == le_bytes(value, width) || bytes == le_bytes(value, width).reverse()
}

/// The `k`-th run of `size` bytes.
pub open spec fn chunk(bytes: Seq<u8>, k: int, size: int) -> Seq<u8> {
    bytes.subrange(k * size, k * size + size)
}

/// Whether `bytes` hold the given indices one after the other, two bytes each.
pub open spec fn encodes_indices(bytes: Seq<u8>, indices: Seq<Index>) -> bool {
    &&& bytes.len() == 2 * indices.len()
    &&& forall|k: int|
        0 <= k < indices.len() ==> in_machine_order(
            #[trigger] chunk(bytes, k, 2),
            indices[k] as nat,
            2,
        )
}

/// Whether `bytes` are the four bytes of a word to which `round` takes the
/// given component.
pub open spec fn encodes_component<F: Fn(Ratio) -> u32>(
    bytes: Seq<u8>,
    component: Ratio,
    round: F,
) -> bool {
    exists|word: u32|
        call_ensures(round, (component,), word) && in_machine_order(bytes, word as nat, 4)
}

/// Whether `bytes` hold the five components of a vertex one after the other,
/// four bytes each.
pub open spec fn encodes_vertex<F: Fn(Ratio) -> u32>(
    bytes: Seq<u8>,
    vertex: Vertex,
    round: F,
) -> bool {
    &&& bytes.len() == 20
    &&& forall|c: int|
        0 <= c < 5 ==> encodes_component(
            #[trigger] chunk(bytes, c, 4),
            vertex.components()[c],
            round,
        )
}

/// Whether `bytes` hold the given vertices one after the other, twenty bytes each.
pub open spec fn encodes_vertices<F: Fn(Ratio) -> u32>(
    bytes: Seq<u8>,
    vertices: Seq<Vertex>,
    round: F,
) -> bool {
    &&& bytes.len() == 20 * vertices.len()
    &&& forall|k: int|
        0 <= k < vertices.len() ==> encodes_vertex(
            #[trigger] chunk(bytes, k, 20),
            vertices[k],
            round,
        )
}

/// The bytes of a vertex lie where the layout of the vertex buffer says: each
/// coordinate and each colour channel four bytes behind the one before it,
/// from the offset of its attribute on.
pub proof fn layout_places_components<F: Fn(Ratio) -> u32>(
    bytes: Seq<u8>,
    vertex: Vertex,
    round: F,
)
    requires
        encodes_vertex(bytes, vertex, round),
    ensures
        bytes.len() == VertexBufferLayout::packed().array_stride,
        forall|j: int|
            0 <= j < 2 ==> encodes_component(
                #[trigger] bytes.subrange(
                    VertexBufferLayout::packed().attributes[0].offset + 4 * j,
                    VertexBufferLayout::packed().attributes[0].offset + 4 * j + 4,
                ),
                vertex.position[j],
                round,
            ),
        forall|j: int|
            0 <= j < 3 ==> encodes_component(
                #[trigger] bytes.subrange(
                    VertexBufferLayout::packed().attributes[1].offset + 4 * j,
                    VertexBufferLayout::packed().attributes[1].offset + 4 * j + 4,
                ),
                vertex.color[j],
                round,
            ),
{
    assert forall|j: int| 0 <= j < 2 implies encodes_component(
        #[trigger] bytes.subrange(
            VertexBufferLayout::packed().attributes[0].offset + 4 * j,
            VertexBufferLayout::packed().attributes[0].offset + 4 * j + 4,
        ),
        vertex.position[j],
        round,
    ) by {
        assert(bytes.subrange(4 * j, 4 * j + 4) == chunk(bytes, j, 4));
        assert(vertex.components()[j] == vertex.position[j]);
    }
    assert forall|j: int| 0 <= j < 3 implies encodes_component(
        #[trigger] bytes.subrange(
            VertexBufferLayout::packed().attributes[1].offset + 4 * j,
            VertexBufferLayout::packed().attributes[1].offset + 4 * j + 4,
        ),
        vertex.color[j],
        round,
    ) by {
        assert(bytes.subrange(8 + 4 * j, 8 + 4 * j + 4) == chunk(bytes, j + 2, 4));
        assert(vertex.components()[j + 2] == vertex.color[j]);
    }
}

/// The two bytes of an index as `bytemuck::bytes_of` shows them: the index as
/// it lies in memory, which is its two bytes in the order of the machine.
#[verifier::external_body]
fn index_to_bytes(index: Index) -> (bytes: [u8; 2])
    ensures
        in_machine_order(bytes@, index as nat, 2),
{
    let mut bytes = [0u8; 2];
    bytes.copy_from_slice(bytemuck::bytes_of(&index));
    bytes
}

/// The four bytes of a word as `bytemuck::bytes_of` shows them: the word as it
/// lies in memory, which is its four bytes in the order of the machine.
#[verifier::external_body]
fn word_to_bytes(word: u32) -> (bytes: [u8; 4])
    ensures
        in_machine_order(bytes@, word as nat, 4),
{
    let mut bytes = [0u8; 4];
    bytes.copy_from_slice(bytemuck::bytes_of(&word));
    bytes
}

/// The bytes of the given indices, as an index buffer holds them.
pub fn index_bytes(indices: &Vec<Index>) -> (bytes: Vec<u8>)
    ensures
        encodes_indices(bytes@, indices@),
{
    let mut bytes: Vec<u8> = Vec::new();
    let mut k: usize = 0;
    while k < indices.len()
        invariant
            k <= indices.len(),
            encodes_indices(bytes@, indices@.take(k as int)),
        decreases indices.len() - k,
    {
        let pair = index_to_bytes(indices[k]);
        let ghost before = bytes@;
        bytes.push(pair[0]);
        bytes.push(pair[1]);
        proof {
            assert(chunk(bytes@, k as int, 2) =~= pair@);
            assert forall|j: int| 0 <= j < k + 1 implies in_machine_order(
                #[trigger] chunk(bytes@, j, 2),
                indices@.take(k + 1)[j] as nat,
                2,
            ) by {
                if j < k {
                    assert(chunk(bytes@, j, 2) =~= chunk(before, j, 2));
                    assert(indices@.take(k + 1)[j] == indices@.take(k as int)[j]);
                }
            }
        }
        k += 1;
    }
    assert(indices@.take(k as int) =~= indices@);
    bytes
}

/// The bytes of one vertex, as a vertex buffer holds them: for each of the
/// two coordinates and then of the three colour channels, the word to which
/// `round` takes it.
pub fn vertex_to_bytes<F: Fn(Ratio) -> u32>(vertex: &Vertex, round: &F) -> (bytes: Vec<u8>)
    requires
        forall|r: Ratio| call_requires(*round, (r,)),
    ensures
        encodes_vertex(bytes@, *vertex, *round),
{
    let mut bytes: Vec<u8> = Vec::new();
    let mut c: usize = 0;
    while c < 5
        invariant
            c <= 5,
            forall|r: Ratio| call_requires(*round, (r,)),
            bytes@.len() == 4 * c,
            forall|j: int|
                0 <= j < c ==> encodes_component(
                    #[trigger] chunk(bytes@, j, 4),
                    vertex.components()[j],
                    *round,
                ),
        decreases 5 - c,
    {
        let component: Ratio = if c < 2 {
            vertex.position[c]
        } else {
            vertex.color[c - 2]
        };
        assert(component == vertex.components()[c as int]);
        let word = round(component);
        let quad = word_to_bytes(word);
        let ghost before = bytes@;
        bytes.push(quad[0]);
        bytes.push(quad[1]);
        bytes.push(quad[2]);
        bytes.push(quad[3]);
        proof {
            assert(chunk(bytes@, c as int, 4) =~= quad@);
            assert forall|j: int| 0 <= j < c + 1 implies encodes_component(
                #[trigger] chunk(bytes@, j, 4),
                vertex.components()[j],
                *round,
            ) by {
                if j < c {
                    assert(chunk(bytes@, j, 4) =~= chunk(before, j, 4));
                } else {
                    assert(call_ensures(*round, (vertex.components()[j],), word)
                        && in_machine_order(chunk(bytes@, j, 4), word as nat, 4));
                }
            }
        }
        c += 1;
    }
    bytes
}

/// The bytes of the given vertices, as a vertex buffer holds them.
pub fn vertex_bytes<F: Fn(Ratio) -> u32>(vertices: &Vec<Vertex>, round: &F) -> (bytes: Vec<u8>)
    requires
        forall|r: Ratio| call_requires(*round, (r,)),
    ensures
        encodes_vertices(bytes@, vertices@, *round),
{
    let mut bytes: Vec<u8> = Vec::new();
    let mut k: usize = 0;
    while k < vertices.len()
        invariant
            k <= vertices.len(),
            forall|r: Ratio| call_requires(*round, (r,)),
            encodes_vertices(bytes@, vertices@.take(k as int), *round),
        decreases vertices.len() - k,
    {
        let mut record = vertex_to_bytes(&vertices[k], round);
        let ghost before = bytes@;
        let ghost added = record@;
        bytes.append(&mut record);
        proof {
            assert(chunk(bytes@, k as int, 20) =~= added);
            assert forall|j: int| 0 <= j < k + 1 implies encodes_vertex(
                #[trigger] chunk(bytes@, j, 20),
                vertices@.take(k + 1)[j],
                *round,
            ) by {
                if j < k {
                    assert(chunk(bytes@, j, 20) =~= chunk(before, j, 20));
                    assert(vertices@.take(k + 1)[j] == vertices@.take(k as int)[j]);
                }
            }
        }
        k += 1;
    }
    assert(vertices@.take(k as int) =~= vertices@);
    bytes
}

} // verus!
