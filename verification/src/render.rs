use crate::color::Rgba;
use vstd::arithmetic::div_mod::lemma_fundamental_div_mod_converse;
use vstd::prelude::*;

verus! {

/// The byte at position `j` of a packed scanline: four bytes per pixel,
/// red, green, blue, alpha, in ascending pixel order.
pub open spec fn packed_byte(colors: Seq<Rgba>, j: int) -> u8 {
    let c = colors[j / 4];
    if j % 4 == 0 {
        c.r
    } else if j % 4 == 1 {
        c.g
    } else if j % 4 == 2 {
        c.b
    } else {
        c.a
    }
}

/// One scanline, packed: four bytes per pixel in ascending pixel order.
pub fn pack_row(colors: &Vec<Rgba>) -> (row: Vec<u8>)
    ensures
        row@.len() == colors@.len() * 4,
        forall|j: int| 0 <= j < row@.len() ==> row@[j] == packed_byte(colors@, j),
{
    let mut row: Vec<u8> = Vec::new();
    let mut x: usize = 0;
    while x < colors.len()
        invariant
            x <= colors@.len(),
            row@.len() == x * 4,
            forall|j: int| 0 <= j < row@.len() ==> row@[j] == packed_byte(colors@, j),
        decreases colors@.len() - x,
    {
        let c: Rgba = colors[x];
        row.push(c.r);
        row.push(c.g);
        row.push(c.b);
        row.push(c.a);
        proof {
            lemma_fundamental_div_mod_converse(4 * x as int, 4, x as int, 0);
            lemma_fundamental_div_mod_converse(4 * x as int + 1, 4, x as int, 1);
            lemma_fundamental_div_mod_converse(4 * x as int + 2, 4, x as int, 2);
            lemma_fundamental_div_mod_converse(4 * x as int + 3, 4, x as int, 3);
        }
        x = x + 1;
    }
    row
}

/// The full image buffer: the scanlines concatenated in ascending row
/// order. The byte layout depends only on the rows' contents and their
/// index, never on the order in which the rows were computed.
pub fn assemble_rows(rows: &Vec<Vec<u8>>, row_len: usize) -> (buf: Vec<u8>)
    requires
        row_len > 0,
        forall|y: int| 0 <= y < rows@.len() ==> rows@[y]@.len() == row_len,
    ensures
        buf@.len() == rows@.len() * row_len,
        forall|j: int|
            0 <= j < buf@.len() ==> buf@[j] == rows@[j / (row_len as int)]@[j % (row_len as int)],
{
    let mut buf: Vec<u8> = Vec::new();
    let mut y: usize = 0;
    while y < rows.len()
        invariant
            row_len > 0,
            forall|yy: int| 0 <= yy < rows@.len() ==> rows@[yy]@.len() == row_len,
            y <= rows@.len(),
            buf@.len() == y * row_len,
            forall|j: int|
                0 <= j < buf@.len() ==> buf@[j] == rows@[j / (row_len as int)]@[j % (
                row_len as int)],
        decreases rows@.len() - y,
    {
        let row: &Vec<u8> = &rows[y];
        let mut k: usize = 0;
        while k < row.len()
            invariant
                row_len > 0,
                forall|yy: int| 0 <= yy < rows@.len() ==> rows@[yy]@.len() == row_len,
                y < rows@.len(),
                row@ == rows@[y as int]@,
                k <= row_len,
                buf@.len() == y * row_len + k,
                forall|j: int|
                    0 <= j < buf@.len() ==> buf@[j] == rows@[j / (row_len as int)]@[j % (
                    row_len as int)],
            decreases row_len - k,
        {
            buf.push(row[k]);
            proof {
                lemma_fundamental_div_mod_converse(
                    y * row_len + k as int,
                    row_len as int,
                    y as int,
                    k as int,
                );
            }
            k = k + 1;
        }
        proof {
            assert((y as int + 1) * (row_len as int) == y * row_len + row_len as int)
                by (nonlinear_arith);
        }
        y = y + 1;
    }
    buf
}

} // verus!
