//! Memory dumps that do not repeat themselves: which rows of sixteen
//! bytes a dump shows, and where it marks rows it left out.

use vstd::prelude::*;

verus! {

/// Number of bytes in a row of a dump.
pub const ROW: usize = 16;

/// One line of a dump.
#[derive(Clone, Copy, Debug, PartialEq, Eq, Structural)]
pub enum DumpLine {
    /// The row with this index is shown: its offset and its bytes.
    Row(usize),
    /// Rows were left out here.
    Gap,
    /// The dump ends with rows left out; this is the index of the last
    /// row, of which only the offset is shown.
    End(usize),
}

/// Number of whole rows in a dump of `bytes`.
pub open spec fn row_count(bytes: Seq<u8>) -> int {
    bytes.len() as int / 16
}

/// The row with index `i`.
pub open spec fn row(bytes: Seq<u8>, i: int) -> Seq<u8> {
    bytes.subrange(16 * i, 16 * i + 16)
}

/// True when row `i` differs from the row before it; the first row is
/// held against a row of sixteen bytes 0xFF.
pub open spec fn differs(bytes: Seq<u8>, i: int) -> bool {
    if i == 0 {
        row(bytes, 0) != Seq::new(16, |k: int| 0xffu8)
    } else {
        row(bytes, i) != row(bytes, i - 1)
    }
}

/// The lines that row `i` contributes. A row that differs from the row
/// before it is shown, behind a gap mark if the row before it was left
/// out (no mark is made for a first row left out). A row that repeats
/// the row before it is left out; if it is the last row, the dump
/// closes with a gap mark and the offset of that row.
pub open spec fn lines_of_row(bytes: Seq<u8>, i: int) -> Seq<DumpLine> {
    if differs(bytes, i) {
        if i >= 2 && !differs(bytes, i - 1) {
            seq![DumpLine::Gap, DumpLine::Row(i as usize)]
        } else {
            seq![DumpLine::Row(i as usize)]
        }
    } else if i == row_count(bytes) - 1 {
        seq![DumpLine::Gap, DumpLine::End(i as usize)]
    } else {
        Seq::<DumpLine>::empty()
    }
}

/// The lines of the first `n` rows.
pub open spec fn lines_of_rows(bytes: Seq<u8>, n: int) -> Seq<DumpLine>
    decreases n,
{
    if n <= 0 {
        Seq::<DumpLine>::empty()
    } else {
        lines_of_rows(bytes, n - 1) + lines_of_row(bytes, n - 1)
    }
}

/// Tells whether row `i` of `bytes` equals `other`.
fn row_equals(bytes: &Vec<u8>, i: usize, other: &[u8; 16]) -> (equal: bool)
    requires
        16 * i + 16 <= bytes@.len(),
    ensures
        equal == (row(bytes@, i as int) == other@),
{
    let size = bytes.len();
    let base: usize = 16 * i;
    let mut k: usize = 0;
    while k < 16
        invariant
            k <= 16,
            base == 16 * i,
            base + 16 <= size,
            size == bytes@.len(),
            forall|j: int| 0 <= j < k ==> bytes@[16 * i + j] == other@[j],
        decreases 16 - k,
    {
        if bytes[base + k] != other[k] {
            assert(row(bytes@, i as int)[k as int] != other@[k as int]);
            return false;
        }
        k += 1;
    }
    assert(row(bytes@, i as int) =~= other@);
    true
}

/// Copies row `i` of `bytes`.
fn copy_row(bytes: &Vec<u8>, i: usize) -> (copy: [u8; 16])
    requires
        16 * i + 16 <= bytes@.len(),
    ensures
        copy@ == row(bytes@, i as int),
{
    let mut copy: [u8; 16] = [0; 16];
    let size = bytes.len();
    let base: usize = 16 * i;
    let mut k: usize = 0;
    while k < 16
        invariant
            k <= 16,
            base == 16 * i,
            base + 16 <= size,
            size == bytes@.len(),
            forall|j: int| 0 <= j < k ==> copy@[j] == bytes@[16 * i + j],
        decreases 16 - k,
    {
        copy[k] = bytes[base + k];
        k += 1;
    }
    assert(copy@ =~= row(bytes@, i as int));
    copy
}

/// The lines of a dump of `bytes`, sixteen bytes to a row; bytes behind
/// the last whole row are not shown.
pub fn dump_lines(bytes: &Vec<u8>) -> (lines: Vec<DumpLine>)
    ensures
        lines@ == lines_of_rows(bytes@, row_count(bytes@)),
{
    let rows: usize = bytes.len() / ROW;
    let mut lines: Vec<DumpLine> = Vec::new();
    let mut last: [u8; 16] = [0xff; 16];
    let mut last_shown: bool = true;
    let mut i: usize = 0;
    assert(last@ =~= Seq::new(16, |k: int| 0xffu8));
    while i < rows
        invariant
            i <= rows,
            rows == row_count(bytes@),
            lines@ == lines_of_rows(bytes@, i as int),
            i == 0 ==> last@ == Seq::new(16, |k: int| 0xffu8),
            i > 0 ==> last@ == row(bytes@, i - 1),
            i > 0 ==> last_shown == differs(bytes@, i - 1),
        decreases rows - i,
    {
        let repeated = row_equals(bytes, i, &last);
        if !repeated {
            if i >= 2 && !last_shown {
                lines.push(DumpLine::Gap);
            }
            lines.push(DumpLine::Row(i));
        } else if i == rows - 1 {
            lines.push(DumpLine::Gap);
            lines.push(DumpLine::End(i));
        }
        assert(lines@ =~= lines_of_rows(bytes@, i as int) + lines_of_row(bytes@, i as int));
        last = copy_row(bytes, i);
        last_shown = !repeated;
        i += 1;
    }
    lines
}

} // verus!
