//! Particle positions and the flat vertex layout built from them.
//!
//! Every coordinate is a 32-bit IEEE-754 number held as its bit pattern, the
//! value that `f32::to_bits` gives and `f32::from_bits` reads back. The
//! library moves these patterns around and never computes with them.

use vstd::prelude::*;

verus! {

/// Where one particle is, as the bit patterns of its three coordinates.
#[derive(Clone, Copy, Debug, PartialEq, Eq, Structural)]
pub struct Position {
    pub x: u32,
    pub y: u32,
    pub z: u32,
}

/// The coordinate of `p` on the given axis: 0 is x, 1 is y, anything else z.
pub open spec fn coordinate(p: Position, axis: int) -> u32 {
    if axis == 0 {
        p.x
    } else if axis == 1 {
        p.y
    } else {
        p.z
    }
}

/// The flat vertex layout of a particle sequence: x, y, z of the first
/// particle, then x, y, z of the second, and so on, in the order given.
pub open spec fn flatten(positions: Seq<Position>) -> Seq<u32> {
    Seq::new(3 * positions.len(), |i: int| coordinate(positions[i / 3], i % 3))
}

/// Builds the flat vertex layout of `positions`.
pub fn flatten_positions(positions: &Vec<Position>) -> (vertices: Vec<u32>)
    ensures
        vertices@ == flatten(positions@),
        vertices@.len() == 3 * positions@.len(),
{
    let mut vertices: Vec<u32> = Vec::new();
    let mut i: usize = 0;
    while i < positions.len()
        invariant
            i <= positions@.len(),
            vertices@ == flatten(positions@.take(i as int)),
        decreases positions@.len() - i,
    {
        let p = positions[i];
        proof {
            lemma_flatten_push(positions@.take(i as int), p);
            assert(positions@.take(i as int).push(p) == positions@.take(i + 1));
        }
        vertices.push(p.x);
        vertices.push(p.y);
        vertices.push(p.z);
        i += 1;
    }
    proof {
        assert(positions@.take(i as int) == positions@);
    }
    vertices
}

/// Appending one particle appends its three coordinates.
pub proof fn lemma_flatten_push(positions: Seq<Position>, p: Position)
    ensures
        flatten(positions.push(p)) == flatten(positions).push(p.x).push(p.y).push(p.z),
{
    assert(flatten(positions.push(p)) =~= flatten(positions).push(p.x).push(p.y).push(p.z));
}

/// The flat layout holds three values per particle, and the values of the
/// particle at `index` stand at three times that index, as x, y, z.
pub proof fn law_flatten_layout(positions: Seq<Position>, index: int)
    requires
        0 <= index < positions.len(),
    ensures
        flatten(positions).len() == 3 * positions.len(),
        flatten(positions).subrange(3 * index, 3 * index + 3) == seq![
            positions[index].x,
            positions[index].y,
            positions[index].z,
        ],
{
    assert(flatten(positions).subrange(3 * index, 3 * index + 3) =~= seq![
        positions[index].x,
        positions[index].y,
        positions[index].z,
    ]);
}

/// The flat layout of two particle sequences, one after the other, is the
/// flat layout of the first followed by that of the second.
pub proof fn law_flatten_concat(first: Seq<Position>, second: Seq<Position>)
    ensures
        flatten(first + second) == flatten(first) + flatten(second),
{
    assert(flatten(first + second) =~= flatten(first) + flatten(second));
}

/// Reordering the particles reorders their triples in the same way: if the
/// particle at place `j` of the new order is the one that stood at
/// `order[j]`, then the triple at place `j` of the new layout is the one
/// that stood at place `order[j]` of the old layout. Nothing is sorted and
/// nothing is dropped, also where `order` names a particle twice.
pub proof fn law_flatten_follows_order(positions: Seq<Position>, order: Seq<int>)
    requires
        forall|j: int| 0 <= j < order.len() ==> 0 <= #[trigger] order[j] < positions.len(),
    ensures
        flatten(Seq::new(order.len(), |j: int| positions[order[j]])) == Seq::new(
            3 * order.len(),
            |i: int| flatten(positions)[3 * order[i / 3] + i % 3],
        ),
{
    let reordered = Seq::new(order.len(), |j: int| positions[order[j]]);
    let expected = Seq::new(
        3 * order.len(),
        |i: int| flatten(positions)[3 * order[i / 3] + i % 3],
    );
    assert forall|i: int| 0 <= i < 3 * order.len() implies flatten(reordered)[i] == expected[i] by {
        let source = order[i / 3];
        assert(0 <= source < positions.len());
        assert((3 * source + i % 3) / 3 == source);
        assert((3 * source + i % 3) % 3 == i % 3);
    }
    assert(flatten(reordered) =~= expected);
}

} // verus!
