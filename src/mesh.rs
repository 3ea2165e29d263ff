use vstd::prelude::*;
use vstd::string::*;

verus! {

/// Vertex and index data for one shape, ready to be uploaded: positions and
/// normals hold three coordinates per vertex, texture coordinates two, and
/// each index names a vertex.
pub struct Mesh {
    pub positions: Vec<i32>,
    pub uvs: Vec<i32>,
    pub normals: Vec<i32>,
    pub indices: Vec<u16>,
    /// Number of indices that one draw call submits.
    pub vertex_count: i32,
}

/// Most glyphs (characters other than a space) that `Mesh::text` accepts:
/// each glyph adds four vertices, and the running vertex index is a 16-bit
/// number that must still fit after the last glyph.
pub const MAX_TEXT_GLYPHS: usize = 16383;

/// Most characters, spaces included, that `Mesh::text` accepts: the x
/// coordinate `2 * i + 1` of the character at column `i` must fit in `i32`.
pub const MAX_TEXT_COLUMNS: usize = 0x3fff_ffff;

pub open spec fn unit_square_uvs() -> Seq<i32> {
    seq![0, 0, 1, 0, 1, 1, 0, 1]
}

pub open spec fn facing_normals() -> Seq<i32> {
    seq![0, 0, 1, 0, 0, 1, 0, 0, 1, 0, 0, 1]
}

/// The corners of the two-unit square centred at `(2 * i, 0, 0)`, counter
/// clockwise from the bottom left.
pub open spec fn glyph_positions(i: int) -> Seq<i32> {
    seq![
        (2 * i - 1) as i32, -1i32, 0i32,
        (2 * i + 1) as i32, -1i32, 0i32,
        (2 * i + 1) as i32, 1i32, 0i32,
        (2 * i - 1) as i32, 1i32, 0i32
    ]
}

/// Two triangles over the four vertices that start at `base`.
pub open spec fn quad_indices(base: int) -> Seq<u16> {
    seq![base as u16, (base + 1) as u16, (base + 2) as u16, base as u16, (base + 2) as u16, (base + 3) as u16]
}

/// Number of characters of `s` that are not a space.
pub open spec fn glyph_count(s: Seq<char>) -> nat
    decreases s.len(),
{
    if s.len() == 0 {
        0
    } else if s.last() == ' ' {
        glyph_count(s.drop_last())
    } else {
        glyph_count(s.drop_last()) + 1
    }
}

/// One square per character that is not a space, placed at the
/// character's column.
pub open spec fn text_positions(s: Seq<char>) -> Seq<i32>
    decreases s.len(),
{
    if s.len() == 0 {
        seq![]
    } else if s.last() == ' ' {
        text_positions(s.drop_last())
    } else {
        text_positions(s.drop_last()) + glyph_positions(s.len() - 1)
    }
}

pub open spec fn text_uvs(s: Seq<char>) -> Seq<i32>
    decreases s.len(),
{
    if s.len() == 0 {
        seq![]
    } else if s.last() == ' ' {
        text_uvs(s.drop_last())
    } else {
        text_uvs(s.drop_last()) + unit_square_uvs()
    }
}

pub open spec fn text_normals(s: Seq<char>) -> Seq<i32>
    decreases s.len(),
{
    if s.len() == 0 {
        seq![]
    } else if s.last() == ' ' {
        text_normals(s.drop_last())
    } else {
        text_normals(s.drop_last()) + facing_normals()
    }
}

pub open spec fn text_indices(s: Seq<char>) -> Seq<u16>
    decreases s.len(),
{
    if s.len() == 0 {
        seq![]
    } else if s.last() == ' ' {
        text_indices(s.drop_last())
    } else {
        text_indices(s.drop_last()) + quad_indices(4 * glyph_count(s.drop_last()) as int)
    }
}

/// A prefix has no more glyphs than the whole text.
proof fn lemma_glyph_count_prefix(s: Seq<char>, i: int)
    requires
        0 <= i <= s.len(),
    ensures
        glyph_count(s.take(i)) <= glyph_count(s),
    decreases s.len(),
{
    if i < s.len() {
        assert(s.take(i) =~= s.drop_last().take(i));
        lemma_glyph_count_prefix(s.drop_last(), i);
    } else {
        assert(s.take(i) =~= s);
    }
}

/// A text has no more glyphs than characters, so a text of at most
/// `MAX_TEXT_GLYPHS` characters meets the glyph bound of `Mesh::text`.
pub proof fn lemma_glyph_count_bound(s: Seq<char>)
    ensures
        glyph_count(s) <= s.len(),
    decreases s.len(),
{
    if s.len() > 0 {
        lemma_glyph_count_bound(s.drop_last());
    }
}

proof fn lemma_text_lengths(s: Seq<char>)
    requires
        glyph_count(s) <= MAX_TEXT_GLYPHS,
    ensures
        text_positions(s).len() == 12 * glyph_count(s),
        text_uvs(s).len() == 8 * glyph_count(s),
        text_normals(s).len() == 12 * glyph_count(s),
        text_indices(s).len() == 6 * glyph_count(s),
        glyph_count(s) <= s.len(),
        forall|k: int| 0 <= k < text_indices(s).len() ==> text_indices(s)[k] < 4 * glyph_count(s),
    decreases s.len(),
{
    if s.len() > 0 {
        lemma_text_lengths(s.drop_last());
        if s.last() != ' ' {
            let prev = text_indices(s.drop_last());
            let g = glyph_count(s.drop_last());
            let all = text_indices(s);
            assert(4 * g + 3 < 0x10000);
            assert forall|k: int| 0 <= k < all.len() implies all[k] < 4 * glyph_count(s) by {
                if k >= prev.len() {
                    assert(all[k] == quad_indices(4 * g as int)[k - prev.len()]);
                } else {
                    assert(all[k] == prev[k]);
                }
            }
        }
    }
}

/// The corners of the cube from -1 to 1 on each axis, four per face, in the
/// order front, back, top, bottom, right, left.
pub open spec fn cube_positions() -> Seq<i32> {
    seq![-1i32, -1i32, 1i32, 1i32, -1i32, 1i32, 1i32, 1i32, 1i32, -1i32, 1i32, 1i32, -1i32, -1i32, -1i32, -1i32, 1i32, -1i32, 1i32, 1i32, -1i32, 1i32, -1i32, -1i32, -1i32, 1i32, -1i32, -1i32, 1i32, 1i32, 1i32, 1i32, 1i32, 1i32, 1i32, -1i32, -1i32, -1i32, -1i32, 1i32, -1i32, -1i32, 1i32, -1i32, 1i32, -1i32, -1i32, 1i32, 1i32, -1i32, -1i32, 1i32, 1i32, -1i32, 1i32, 1i32, 1i32, 1i32, -1i32, 1i32, -1i32, -1i32, -1i32, -1i32, -1i32, 1i32, -1i32, 1i32, 1i32, -1i32, 1i32, -1i32]
}

/// The outward normal of each face, once per corner.
pub open spec fn cube_normals() -> Seq<i32> {
    seq![0i32, 0i32, 1i32, 0i32, 0i32, 1i32, 0i32, 0i32, 1i32, 0i32, 0i32, 1i32, 0i32, 0i32, -1i32, 0i32, 0i32, -1i32, 0i32, 0i32, -1i32, 0i32, 0i32, -1i32, 0i32, 1i32, 0i32, 0i32, 1i32, 0i32, 0i32, 1i32, 0i32, 0i32, 1i32, 0i32, 0i32, -1i32, 0i32, 0i32, -1i32, 0i32, 0i32, -1i32, 0i32, 0i32, -1i32, 0i32, 1i32, 0i32, 0i32, 1i32, 0i32, 0i32, 1i32, 0i32, 0i32, 1i32, 0i32, 0i32, -1i32, 0i32, 0i32, -1i32, 0i32, 0i32, -1i32, 0i32, 0i32, -1i32, 0i32, 0i32]
}

/// Two triangles for each of the six faces.
pub open spec fn cube_indices() -> Seq<u16> {
    quad_indices(0) + quad_indices(4) + quad_indices(8) + quad_indices(12) + quad_indices(16) + quad_indices(20)
}

pub open spec fn cube_uvs() -> Seq<i32> {
    unit_square_uvs() + unit_square_uvs() + unit_square_uvs() + unit_square_uvs() + unit_square_uvs() + unit_square_uvs()
}

impl Mesh {
    /// Vertex data for `n` vertices and indices that all name one of them.
    pub open spec fn wf(&self) -> bool {
        let n = self.positions.len() / 3;
        &&& self.positions.len() % 3 == 0
        &&& self.uvs.len() == 2 * n
        &&& self.normals.len() == 3 * n
        &&& self.indices.len() == self.vertex_count
        &&& forall|k: int| 0 <= k < self.indices.len() ==> self.indices@[k] < n
    }

    /// A two-unit square in the z = 0 plane, facing +z.
    pub fn quad() -> (m: Mesh)
        ensures
            m.wf(),
            m.positions@ == glyph_positions(0),
            m.uvs@ == unit_square_uvs(),
            m.normals@ == facing_normals(),
            m.indices@ == quad_indices(0),
            m.vertex_count == 6,
    {
        let positions: Vec<i32> = vec![-1, -1, 0, 1, -1, 0, 1, 1, 0, -1, 1, 0];
        let uvs: Vec<i32> = vec![0, 0, 1, 0, 1, 1, 0, 1];
        let normals: Vec<i32> = vec![0, 0, 1, 0, 0, 1, 0, 0, 1, 0, 0, 1];
        let indices: Vec<u16> = vec![0, 1, 2, 0, 2, 3];
        let m = Mesh { positions, uvs, normals, indices, vertex_count: 6 };
        assert(m.positions@ =~= glyph_positions(0));
        assert(m.indices@ =~= quad_indices(0));
        m
    }

    /// The cube from -1 to 1 on each axis, with a separate set of four
    /// vertices for each face so that each face has its own normal.
    pub fn cube() -> (m: Mesh)
        ensures
            m.wf(),
            m.positions@ == cube_positions(),
            m.uvs@ == cube_uvs(),
            m.normals@ == cube_normals(),
            m.indices@ == cube_indices(),
            m.vertex_count == 36,
    {
        let positions: Vec<i32> = vec![
            -1, -1, 1, 1, -1, 1, 1, 1, 1, -1, 1, 1,
            -1, -1, -1, -1, 1, -1, 1, 1, -1, 1, -1, -1,
            -1, 1, -1, -1, 1, 1, 1, 1, 1, 1, 1, -1,
            -1, -1, -1, 1, -1, -1, 1, -1, 1, -1, -1, 1,
            1, -1, -1, 1, 1, -1, 1, 1, 1, 1, -1, 1,
            -1, -1, -1, -1, -1, 1, -1, 1, 1, -1, 1, -1
        ];
        let uvs: Vec<i32> = vec![
            0, 0, 1, 0, 1, 1, 0, 1,
            0, 0, 1, 0, 1, 1, 0, 1,
            0, 0, 1, 0, 1, 1, 0, 1,
            0, 0, 1, 0, 1, 1, 0, 1,
            0, 0, 1, 0, 1, 1, 0, 1,
            0, 0, 1, 0, 1, 1, 0, 1
        ];
        let normals: Vec<i32> = vec![
            0, 0, 1, 0, 0, 1, 0, 0, 1, 0, 0, 1,
            0, 0, -1, 0, 0, -1, 0, 0, -1, 0, 0, -1,
            0, 1, 0, 0, 1, 0, 0, 1, 0, 0, 1, 0,
            0, -1, 0, 0, -1, 0, 0, -1, 0, 0, -1, 0,
            1, 0, 0, 1, 0, 0, 1, 0, 0, 1, 0, 0,
            -1, 0, 0, -1, 0, 0, -1, 0, 0, -1, 0, 0
        ];
        let indices: Vec<u16> = vec![
            0, 1, 2, 0, 2, 3,
            4, 5, 6, 4, 6, 7,
            8, 9, 10, 8, 10, 11,
            12, 13, 14, 12, 14, 15,
            16, 17, 18, 16, 18, 19,
            20, 21, 22, 20, 22, 23
        ];
        let m = Mesh { positions, uvs, normals, indices, vertex_count: 36 };
        assert(m.positions@ =~= cube_positions());
        assert(m.uvs@ =~= cube_uvs());
        assert(m.normals@ =~= cube_normals());
        assert(m.indices@ =~= cube_indices());
        m
    }

    /// One square per character of `input` that is not a space, the square
    /// of the character at column `i` centred at `(2 * i, 0, 0)`; a space
    /// leaves its column empty.
    pub fn text(input: &str) -> (m: Mesh)
        requires
            glyph_count(input@) <= MAX_TEXT_GLYPHS,
            input@.len() <= MAX_TEXT_COLUMNS,
        ensures
            m.wf(),
            m.positions@ == text_positions(input@),
            m.uvs@ == text_uvs(input@),
            m.normals@ == text_normals(input@),
            m.indices@ == text_indices(input@),
            m.vertex_count == 6 * glyph_count(input@),
    {
        let n = input.unicode_len();
        let mut positions: Vec<i32> = Vec::new();
        let mut uvs: Vec<i32> = Vec::new();
        let mut normals: Vec<i32> = Vec::new();
        let mut indices: Vec<u16> = Vec::new();
        let mut vertex_count: i32 = 0;
        let mut index_count: u32 = 0;
        let mut i: usize = 0;
        while i < n
            invariant
                n == input@.len(),
                n <= MAX_TEXT_COLUMNS,
                glyph_count(input@) <= MAX_TEXT_GLYPHS,
                i <= n,
                positions@ == text_positions(input@.take(i as int)),
                uvs@ == text_uvs(input@.take(i as int)),
                normals@ == text_normals(input@.take(i as int)),
                indices@ == text_indices(input@.take(i as int)),
                index_count == 4 * glyph_count(input@.take(i as int)),
                vertex_count == 6 * glyph_count(input@.take(i as int)),
                glyph_count(input@.take(i as int)) <= i,
            decreases n - i,
        {
            let c = input.get_char(i);
            let ghost before = input@.take(i as int);
            proof {
                lemma_glyph_count_prefix(input@, i + 1);
                let after = input@.take(i + 1);
                assert(after.drop_last() =~= before);
                assert(after.last() == c);
            }
            if c != ' ' {
                let x: i32 = 2 * (i as i32);
                let mut corners: Vec<i32> = vec![x - 1, -1, 0, x + 1, -1, 0, x + 1, 1, 0, x - 1, 1, 0];
                positions.append(&mut corners);
                let mut square: Vec<i32> = vec![0, 0, 1, 0, 1, 1, 0, 1];
                uvs.append(&mut square);
                let mut facing: Vec<i32> = vec![0, 0, 1, 0, 0, 1, 0, 0, 1, 0, 0, 1];
                normals.append(&mut facing);
                let b: u16 = index_count as u16;
                let mut triangles: Vec<u16> = vec![b, b + 1, b + 2, b, b + 2, b + 3];
                indices.append(&mut triangles);
                index_count = index_count + 4;
                vertex_count = vertex_count + 6;
                proof {
                    assert(positions@ =~= text_positions(before) + glyph_positions(i as int));
                    assert(uvs@ =~= text_uvs(before) + unit_square_uvs());
                    assert(normals@ =~= text_normals(before) + facing_normals());
                    assert(indices@ =~= text_indices(before) + quad_indices(4 * glyph_count(before) as int));
                }
            }
            i = i + 1;
        }
        proof {
            assert(input@.take(n as int) =~= input@);
            lemma_text_lengths(input@);
        }
        Mesh { positions, uvs, normals, indices, vertex_count }
    }
}

} // verus!
