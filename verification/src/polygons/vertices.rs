//! Vertex attribute sets and their interleaved layout.
//!
//! A set holds up to three parallel sequences of single-precision numbers:
//! three position numbers for each vertex and, where present, four colour
//! numbers and two texture coordinates for each vertex. Interleaving packs
//! them into one sequence, vertex after vertex.

use vstd::prelude::*;
use vstd::arithmetic::div_mod::lemma_fundamental_div_mod_converse;
use crate::color::{normalized, RGBA};
use crate::single::{
    is_three_halves, is_three_quarters, lemma_three_halves_exact, lemma_three_quarters_exact,
    rounds_to_three_halves, rounds_to_three_quarters,
};

verus! {

/// The attribute that a sequence of numbers belongs to.
#[derive(Clone, Copy, Debug, PartialEq, Eq, Structural)]
pub enum VertexLocation {
    Position,
    Color,
    Texture,
}

/// What an attribute set holds: the model that the contracts speak of.
pub struct VertexData {
    pub positions: Seq<u32>,
    pub colors: Seq<u32>,
    pub textures: Seq<u32>,
}

/// Positions, colours and texture coordinates of a polygon's vertices.
#[derive(Debug)]
pub struct Vertices {
    vert_pos: Vec<u32>,
    colors_pos: Vec<u32>,
    textures_pos: Vec<u32>,
}

impl View for Vertices {
    type V = VertexData;

    closed spec fn view(&self) -> VertexData {
        VertexData {
            positions: self.vert_pos@,
            colors: self.colors_pos@,
            textures: self.textures_pos@,
        }
    }
}

impl Clone for Vertices {
    /// A set that holds the same numbers.
    fn clone(&self) -> (copy: Self)
        ensures
            copy@ == self@,
    {
        let vert_pos: Vec<u32> = self.vert_pos.clone();
        let colors_pos: Vec<u32> = self.colors_pos.clone();
        let textures_pos: Vec<u32> = self.textures_pos.clone();
        assert(vert_pos@ =~= self.vert_pos@);
        assert(colors_pos@ =~= self.colors_pos@);
        assert(textures_pos@ =~= self.textures_pos@);
        Vertices { vert_pos, colors_pos, textures_pos }
    }
}

/// The number of whole vertices among the positions.
pub open spec fn vertex_count(data: VertexData) -> nat {
    data.positions.len() / 3
}

/// Whether each attribute that is present stands in the right proportion to
/// the positions: three position numbers to four colour numbers, and three to
/// two texture coordinates. The proportion is tested as a single-precision
/// quotient of the two lengths, which must be exactly 0.75 or 1.5.
pub open spec fn is_valid(data: VertexData) -> bool {
    &&& data.colors.len() > 0 ==> rounds_to_three_quarters(data.positions.len(), data.colors.len())
    &&& data.textures.len() > 0 ==> rounds_to_three_halves(
        data.positions.len(),
        data.textures.len(),
    )
}

/// Whether each attribute that is present holds its numbers for every vertex.
/// This follows from `is_valid` unless a length has more than 23 significant
/// bits, where the single-precision quotient no longer tells the lengths
/// apart.
pub open spec fn covers_vertices(data: VertexData) -> bool {
    &&& data.colors.len() > 0 ==> 4 * vertex_count(data) <= data.colors.len()
    &&& data.textures.len() > 0 ==> 2 * vertex_count(data) <= data.textures.len()
}

/// The numbers of one vertex: its position, then its colour and its texture
/// coordinates where the set has them.
pub open spec fn vertex_record(data: VertexData, vertex: int) -> Seq<u32> {
    data.positions.subrange(3 * vertex, 3 * vertex + 3) + (if data.colors.len() > 0 {
        data.colors.subrange(4 * vertex, 4 * vertex + 4)
    } else {
        Seq::empty()
    }) + (if data.textures.len() > 0 {
        data.textures.subrange(2 * vertex, 2 * vertex + 2)
    } else {
        Seq::empty()
    })
}

/// The records of the first `count` vertices, one after the other.
pub open spec fn records(data: VertexData, count: nat) -> Seq<u32>
    decreases count,
{
    if count == 0 {
        Seq::empty()
    } else {
        records(data, (count - 1) as nat) + vertex_record(data, count - 1)
    }
}

/// The interleaved sequence: the records of all vertices.
pub open spec fn interleaved(data: VertexData) -> Seq<u32> {
    records(data, vertex_count(data))
}

/// How many numbers one record holds.
pub open spec fn record_len(data: VertexData) -> nat {
    (3 + (if data.colors.len() > 0 {
        4int
    } else {
        0
    }) + (if data.textures.len() > 0 {
        2int
    } else {
        0
    })) as nat
}

/// The distance between two vertices that the attribute layout assumes, in
/// numbers: nine with texture coordinates, also where colours are missing,
/// seven with colours alone, three with positions alone.
pub open spec fn stride_numbers(data: VertexData) -> int {
    if data.textures.len() > 0 {
        9
    } else if data.colors.len() > 0 {
        7
    } else {
        3
    }
}

/// What `set_position` makes of a sequence: the new numbers take the place of
/// the first ones, and what the old sequence held beyond them stays.
pub open spec fn overwritten(data: Seq<u32>, position: Seq<u32>) -> Seq<u32> {
    if data.len() <= position.len() {
        position
    } else {
        position + data.subrange(position.len() as int, data.len() as int)
    }
}

/// The numbers of a list of colours, four for each.
pub open spec fn color_numbers(colors: Seq<RGBA>) -> Seq<u32>
    decreases colors.len(),
{
    if colors.len() == 0 {
        Seq::empty()
    } else {
        color_numbers(colors.drop_last()) + normalized(colors.last()@)
    }
}

/// A block of numbers, `times` times in a row.
pub open spec fn repeated(block: Seq<u32>, times: nat) -> Seq<u32>
    decreases times,
{
    if times == 0 {
        Seq::empty()
    } else {
        repeated(block, (times - 1) as nat) + block
    }
}

impl Vertices {
    /// A set of the three sequences as they are given. Nothing is tested
    /// here: `create_single_vertices_array` does that.
    #[must_use]
    pub fn new(vert_pos: Vec<u32>, colors_pos: Vec<u32>, textures_pos: Vec<u32>) -> (vertices: Self)
        ensures
            vertices@ == (VertexData {
                positions: vert_pos@,
                colors: colors_pos@,
                textures: textures_pos@,
            }),
    {
        Vertices { vert_pos, colors_pos, textures_pos }
    }

    /// A set without any numbers.
    #[must_use]
    pub fn empty() -> (vertices: Self)
        ensures
            vertices@ == (VertexData {
                positions: Seq::empty(),
                colors: Seq::empty(),
                textures: Seq::empty(),
            }),
    {
        Vertices { vert_pos: Vec::new(), colors_pos: Vec::new(), textures_pos: Vec::new() }
    }

    /// The position numbers.
    pub fn vert_pos(&self) -> (numbers: &Vec<u32>)
        ensures
            numbers@ == self@.positions,
    {
        &self.vert_pos
    }

    /// The colour numbers.
    pub fn colors_pos(&self) -> (numbers: &Vec<u32>)
        ensures
            numbers@ == self@.colors,
    {
        &self.colors_pos
    }

    /// The texture coordinates.
    pub fn textures_pos(&self) -> (numbers: &Vec<u32>)
        ensures
            numbers@ == self@.textures,
    {
        &self.textures_pos
    }

    /// Whether the positions are those of three vertices.
    #[must_use]
    pub fn is_triangle(&self) -> (yes: bool)
        ensures
            yes == (self@.positions.len() == 9),
    {
        self.vert_pos.len() == 9
    }

    /// Whether the positions are those of four vertices.
    #[must_use]
    pub fn is_reactangle(&self) -> (yes: bool)
        ensures
            yes == (self@.positions.len() == 12),
    {
        self.vert_pos.len() == 12
    }

    /// Whether the set has texture coordinates.
    #[must_use]
    pub fn is_texture(&self) -> (yes: bool)
        ensures
            yes == (self@.textures.len() > 0),
    {
        self.textures_pos.len() > 0
    }

    /// The distance between two vertices of the interleaved sequence in
    /// bytes, four for each number.
    #[must_use]
    pub fn get_stride(&self) -> (stride: i32)
        ensures
            stride == 4 * stride_numbers(self@),
    {
        let mut result: i32 = 3;
        if self.colors_pos.len() > 0 {
            result = 7;
        }
        if self.textures_pos.len() > 0 {
            result = 9;
        }
        result * 4
    }

    /// The number of numbers in the three sequences together.
    #[must_use]
    pub fn sum_capacity(&self) -> (sum: usize)
        requires
            self@.positions.len() + self@.colors.len() + self@.textures.len() <= usize::MAX,
        ensures
            sum == self@.positions.len() + self@.colors.len() + self@.textures.len(),
    {
        self.vert_pos.len() + self.colors_pos.len() + self.textures_pos.len()
    }

    /// Tests the proportions of the attributes that are present.
    pub fn is_valid_structure(&self) -> (valid: bool)
        ensures
            valid == is_valid(self@),
    {
        let mut valid_colors: bool = true;
        let mut valid_texture: bool = true;
        if self.colors_pos.len() > 0 {
            valid_colors = is_three_quarters(self.vert_pos.len(), self.colors_pos.len());
        }
        if self.textures_pos.len() > 0 {
            valid_texture = is_three_halves(self.vert_pos.len(), self.textures_pos.len());
        }
        valid_texture && valid_colors
    }

    /// Packs the attributes into one sequence, vertex after vertex: three
    /// position numbers, then four colour numbers and two texture coordinates
    /// where the set has them.
    ///
    /// Gives nothing where an attribute that is present fails the proportion
    /// test, or holds too few numbers for the last vertex.
    #[must_use]
    pub fn create_single_vertices_array(&self) -> (result: Option<Vec<u32>>)
        ensures
            result is Some <==> is_valid(self@) && covers_vertices(self@),
            result matches Some(packed) ==> packed@ == interleaved(self@),
    {
        if !self.is_valid_structure() {
            return None;
        }
        let vertices: usize = self.vert_pos.len() / 3;
        let is_texture: bool = self.textures_pos.len() > 0;
        let is_color: bool = self.colors_pos.len() > 0;
        if is_color && self.colors_pos.len() / 4 < vertices {
            return None;
        }
        if is_texture && self.textures_pos.len() / 2 < vertices {
            return None;
        }
        let mut result: Vec<u32> = Vec::new();
        let mut vertex: usize = 0;
        while vertex < vertices
            invariant
                vertex <= vertices,
                vertices == vertex_count(self@),
                covers_vertices(self@),
                result@ == records(self@, vertex as nat),
            decreases vertices - vertex,
        {
            self.push_record(&mut result, vertex);
            vertex = vertex + 1;
        }
        Some(result)
    }

    /// Appends the record of one vertex to `packed`.
    fn push_record(&self, packed: &mut Vec<u32>, vertex: usize)
        requires
            vertex < vertex_count(self@),
            covers_vertices(self@),
        ensures
            final(packed)@ == old(packed)@ + vertex_record(self@, vertex as int),
    {
        assert(3 * vertex + 2 < self.vert_pos.len());
        packed.push(self.vert_pos[3 * vertex]);
        packed.push(self.vert_pos[3 * vertex + 1]);
        packed.push(self.vert_pos[3 * vertex + 2]);
        if self.colors_pos.len() > 0 {
            packed.push(self.colors_pos[4 * vertex]);
            packed.push(self.colors_pos[4 * vertex + 1]);
            packed.push(self.colors_pos[4 * vertex + 2]);
            packed.push(self.colors_pos[4 * vertex + 3]);
        }
        if self.textures_pos.len() > 0 {
            packed.push(self.textures_pos[2 * vertex]);
            packed.push(self.textures_pos[2 * vertex + 1]);
        }
        assert(packed@ =~= old(packed)@ + vertex_record(self@, vertex as int));
    }

    /// Writes `position` over the start of one attribute's sequence. A
    /// sequence that is shorter than `position` is replaced by it; of a
    /// longer one the rest stays.
    pub fn set_position(&mut self, position: &[u32], location: VertexLocation)
        ensures
            final(self)@.positions == if location == VertexLocation::Position {
                overwritten(old(self)@.positions, position@)
            } else {
                old(self)@.positions
            },
            final(self)@.colors == if location == VertexLocation::Color {
                overwritten(old(self)@.colors, position@)
            } else {
                old(self)@.colors
            },
            final(self)@.textures == if location == VertexLocation::Texture {
                overwritten(old(self)@.textures, position@)
            } else {
                old(self)@.textures
            },
    {
        match location {
            VertexLocation::Position => {
                Vertices::build_data(&mut self.vert_pos, position);
            },
            VertexLocation::Color => {
                Vertices::build_data(&mut self.colors_pos, position);
            },
            VertexLocation::Texture => {
                Vertices::build_data(&mut self.textures_pos, position);
            },
        }
    }

    /// Appends the four numbers of each colour to the colours.
    pub fn append_colors(&mut self, colors: &[RGBA])
        ensures
            final(self)@.colors == old(self)@.colors + color_numbers(colors@),
            final(self)@.positions == old(self)@.positions,
            final(self)@.textures == old(self)@.textures,
    {
        let mut i: usize = 0;
        while i < colors.len()
            invariant
                i <= colors.len(),
                self.colors_pos@ == old(self).colors_pos@ + color_numbers(colors@.take(i as int)),
                self.vert_pos == old(self).vert_pos,
                self.textures_pos == old(self).textures_pos,
            decreases colors.len() - i,
        {
            let numbers: [u32; 4] = colors[i].get_as_normalized_f32();
            self.colors_pos.push(numbers[0]);
            self.colors_pos.push(numbers[1]);
            self.colors_pos.push(numbers[2]);
            self.colors_pos.push(numbers[3]);
            proof {
                let upto = colors@.take(i as int + 1);
                assert(upto.drop_last() =~= colors@.take(i as int));
                assert(upto.last() == colors@[i as int]);
                assert(self.colors_pos@ =~= old(self).colors_pos@ + color_numbers(upto));
            }
            i = i + 1;
        }
        assert(colors@.take(colors@.len() as int) =~= colors@);
    }

    /// Gives every vertex the same colour: whatever colours the set held are
    /// replaced by the colour's four numbers, once for each whole vertex.
    pub fn set_one_color_for_all_vert(&mut self, color: &RGBA)
        ensures
            final(self)@.colors == repeated(normalized(color@), vertex_count(old(self)@)),
            final(self)@.positions == old(self)@.positions,
            final(self)@.textures == old(self)@.textures,
    {
        self.colors_pos.clear();
        let size: usize = self.vert_pos.len() / 3;
        let numbers: [u32; 4] = color.get_as_normalized_f32();
        let mut done: usize = 0;
        while done < size
            invariant
                done <= size,
                numbers@ == normalized(color@),
                self.colors_pos@ == repeated(normalized(color@), done as nat),
                self.vert_pos == old(self).vert_pos,
                self.textures_pos == old(self).textures_pos,
            decreases size - done,
        {
            self.colors_pos.push(numbers[0]);
            self.colors_pos.push(numbers[1]);
            self.colors_pos.push(numbers[2]);
            self.colors_pos.push(numbers[3]);
            assert(self.colors_pos@ =~= repeated(normalized(color@), done as nat) + normalized(
                color@,
            ));
            done = done + 1;
        }
    }

    /// Writes `position` over the start of `data`, or in its place where
    /// `data` is the shorter one.
    fn build_data(data: &mut Vec<u32>, position: &[u32])
        ensures
            final(data)@ == overwritten(old(data)@, position@),
    {
        if data.len() == 0 || data.len() < position.len() {
            data.clear();
            let mut i: usize = 0;
            while i < position.len()
                invariant
                    i <= position.len(),
                    data@ == position@.take(i as int),
                decreases position.len() - i,
            {
                data.push(position[i]);
                assert(data@ =~= position@.take(i as int + 1));
                i = i + 1;
            }
            assert(position@.take(position@.len() as int) =~= position@);
        } else {
            let mut i: usize = 0;
            while i < position.len()
                invariant
                    i <= position.len() <= data.len(),
                    data@.len() == old(data)@.len(),
                    forall|k: int| 0 <= k < i ==> data@[k] == position@[k],
                    forall|k: int| i <= k < data@.len() ==> data@[k] == old(data)@[k],
                decreases position.len() - i,
            {
                data.set(i, position[i]);
                i = i + 1;
            }
            assert(data@ =~= overwritten(old(data)@, position@));
        }
    }
}

/// The number at place `k` of the interleaved sequence, found by counting:
/// `k` lies in the record of vertex `k / record_len`, and its place in that
/// record says which attribute it comes from.
pub open spec fn interleaved_at(data: VertexData, k: int) -> u32 {
    let width = record_len(data) as int;
    let vertex = k / width;
    let place = k % width;
    if place < 3 {
        data.positions[3 * vertex + place]
    } else if data.colors.len() > 0 && place < 7 {
        data.colors[4 * vertex + place - 3]
    } else {
        data.textures[2 * vertex + place - (width - 2)]
    }
}

/// The records of the first `count` vertices hold `record_len` numbers each,
/// and each number stands where `interleaved_at` says.
pub proof fn lemma_records_layout(data: VertexData, count: nat)
    requires
        count <= vertex_count(data),
        covers_vertices(data),
    ensures
        records(data, count).len() == count * record_len(data),
        forall|k: int|
            0 <= k < records(data, count).len() ==> #[trigger] records(data, count)[k]
                == interleaved_at(data, k),
    decreases count,
{
    let width = record_len(data) as int;
    if count > 0 {
        let before = (count - 1) as nat;
        lemma_records_layout(data, before);
        let head = records(data, before);
        let last = vertex_record(data, before as int);
        assert(count * width == before * width + width) by (nonlinear_arith)
            requires
                before == count - 1,
        ;
        assert(last.len() == width);
        assert forall|k: int| 0 <= k < records(data, count).len() implies #[trigger] records(
            data,
            count,
        )[k] == interleaved_at(data, k) by {
            if k >= head.len() {
                let place = k - head.len();
                lemma_fundamental_div_mod_converse(k, width, before as int, place);
                assert(records(data, count)[k] == last[place]);
            } else {
                assert(records(data, count)[k] == head[k]);
            }
        }
    }
}

/// Positions alone come out of the interleaving as they went in, where their
/// number is a multiple of three.
pub proof fn lemma_positions_alone(data: VertexData)
    requires
        data.colors.len() == 0,
        data.textures.len() == 0,
        data.positions.len() % 3 == 0,
    ensures
        is_valid(data),
        covers_vertices(data),
        interleaved(data) == data.positions,
{
    let len = data.positions.len() as int;
    let count = vertex_count(data) as int;
    assert(count * 3 == len);
    assert(record_len(data) == 3);
    lemma_records_layout(data, vertex_count(data));
    assert(count * record_len(data) == count * 3) by (nonlinear_arith)
        requires
            record_len(data) == 3,
    ;
    assert(interleaved(data).len() == len);
    assert forall|k: int| 0 <= k < len implies interleaved(data)[k] == data.positions[k] by {
        assert(3 * (k / 3) + k % 3 == k);
        assert(interleaved_at(data, k) == data.positions[k]);
    }
    assert(interleaved(data) =~= data.positions);
}

/// Positions and colours in the proportion of three to four interleave to a
/// sequence as long as both together, in which each vertex has its three
/// position numbers and then its four colour numbers. With fewer than 2^23
/// colour numbers the set is valid, so that the interleaving is given.
pub proof fn lemma_colors_follow_positions(data: VertexData)
    requires
        data.textures.len() == 0,
        data.colors.len() > 0,
        4 * data.positions.len() == 3 * data.colors.len(),
    ensures
        covers_vertices(data),
        data.colors.len() < 0x80_0000 ==> is_valid(data),
        interleaved(data).len() == data.positions.len() + data.colors.len(),
        forall|k: int|
            0 <= k < interleaved(data).len() ==> #[trigger] interleaved(data)[k] == (if k % 7 < 3 {
                data.positions[3 * (k / 7) + k % 7]
            } else {
                data.colors[4 * (k / 7) + k % 7 - 3]
            }),
{
    if data.colors.len() < 0x80_0000 {
        lemma_three_quarters_exact(data.positions.len(), data.colors.len());
    }
    let count = vertex_count(data) as int;
    assert(count * 3 == data.positions.len() && count * 4 == data.colors.len());
    assert(record_len(data) == 7);
    lemma_records_layout(data, vertex_count(data));
    assert(count * record_len(data) == count * 7) by (nonlinear_arith)
        requires
            record_len(data) == 7,
    ;
    assert forall|k: int| 0 <= k < interleaved(data).len() implies #[trigger] interleaved(data)[k]
        == (if k % 7 < 3 {
        data.positions[3 * (k / 7) + k % 7]
    } else {
        data.colors[4 * (k / 7) + k % 7 - 3]
    }) by {
        assert(interleaved(data)[k] == interleaved_at(data, k));
    }
}

/// Where every attribute that is present stands in its exact proportion to
/// the positions, the interleaved sequence is as long as the three sequences
/// together.
pub proof fn lemma_interleaved_len_is_sum(data: VertexData)
    requires
        data.positions.len() % 3 == 0,
        data.colors.len() > 0 ==> 4 * data.positions.len() == 3 * data.colors.len(),
        data.textures.len() > 0 ==> 2 * data.positions.len() == 3 * data.textures.len(),
    ensures
        covers_vertices(data),
        interleaved(data).len() == data.positions.len() + data.colors.len()
            + data.textures.len(),
{
    let len = data.positions.len() as int;
    let count = vertex_count(data) as int;
    assert(count * 3 == len);
    let width = record_len(data) as int;
    let colors = if data.colors.len() > 0 {
        4int
    } else {
        0
    };
    let textures = if data.textures.len() > 0 {
        2int
    } else {
        0
    };
    assert(width == 3 + colors + textures);
    assert(count * width == count * 3 + count * colors + count * textures) by (nonlinear_arith)
        requires
            width == 3 + colors + textures,
    ;
    assert(count * colors == data.colors.len()) by (nonlinear_arith)
        requires
            colors == 0 && data.colors.len() == 0 || colors == 4 && count * 4
                == data.colors.len(),
    ;
    assert(count * textures == data.textures.len()) by (nonlinear_arith)
        requires
            textures == 0 && data.textures.len() == 0 || textures == 2 && count * 2
                == data.textures.len(),
    ;
    lemma_records_layout(data, vertex_count(data));
    assert(interleaved(data).len() == count * width);
}

/// A block repeated `times` times is `times` times as long.
pub proof fn lemma_repeated_len(block: Seq<u32>, times: nat)
    ensures
        repeated(block, times).len() == times * block.len(),
    decreases times,
{
    let len = block.len() as int;
    if times > 0 {
        lemma_repeated_len(block, (times - 1) as nat);
        assert(times * len == (times - 1) * len + len) by (nonlinear_arith);
    } else {
        assert(0 * len == 0) by (nonlinear_arith);
    }
}

/// Where colours and texture coordinates each number fewer than 2^23, a set
/// is valid exactly where the lengths stand in the proportions of three to
/// four and of three to two, and a valid set has the numbers of every
/// vertex.
pub proof fn lemma_valid_is_exact(data: VertexData)
    requires
        data.colors.len() < 0x80_0000,
        data.textures.len() < 0x80_0000,
    ensures
        is_valid(data) <==> (data.colors.len() > 0 ==> 4 * data.positions.len() == 3
            * data.colors.len()) && (data.textures.len() > 0 ==> 2 * data.positions.len() == 3
            * data.textures.len()),
        is_valid(data) ==> covers_vertices(data),
{
    if data.colors.len() > 0 {
        lemma_three_quarters_exact(data.positions.len(), data.colors.len());
    }
    if data.textures.len() > 0 {
        lemma_three_halves_exact(data.positions.len(), data.textures.len());
    }
}

} // verus!
