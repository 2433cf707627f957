//! Fixed-width hex/ASCII rendering of a byte buffer.
//!
//! Each line covers sixteen bytes of the input: an eight-digit hexadecimal
//! offset, a colon and a space, the bytes as two lowercase hex digits each
//! followed by a space (missing bytes of a short final line padded with three
//! blanks), one more space, and the same bytes as printable ASCII with `.`
//! standing in for everything outside the printable range. Lines are byte
//! strings of ASCII text; rendering them to a terminal is a caller concern.

use vstd::prelude::*;

verus! {

/// The lowercase hexadecimal digit character for a value below sixteen.
pub open spec fn spec_hex_digit(n: int) -> u8 {
    if n < 10 {
        (48 + n) as u8
    } else {
        (87 + n) as u8
    }
}

/// Sixteen to the power `k`.
pub open spec fn pow16(k: nat) -> int
    decreases k,
{
    if k == 0 {
        1
    } else {
        16 * pow16((k - 1) as nat)
    }
}

pub proof fn lemma_pow16_pos(k: nat)
    ensures
        pow16(k) >= 1,
    decreases k,
{
    if k > 0 {
        lemma_pow16_pos((k - 1) as nat);
    }
}

/// The eight-digit hexadecimal rendering of `off`, most significant digit
/// first.
pub open spec fn spec_offset_digits(off: int) -> Seq<u8> {
    Seq::new(8, |j: int| spec_hex_digit((off / pow16((7 - j) as nat)) % 16))
}

/// The hex column for one line's bytes: two digits and a space per byte.
pub open spec fn spec_hex_cells(c: Seq<u8>) -> Seq<u8>
    decreases c.len(),
{
    if c.len() == 0 {
        Seq::empty()
    } else {
        spec_hex_cells(c.drop_last()) + seq![
            spec_hex_digit(c.last() as int / 16),
            spec_hex_digit(c.last() as int % 16),
            32u8,
        ]
    }
}

/// `n` blank characters.
pub open spec fn spec_spaces(n: int) -> Seq<u8>
    decreases n,
{
    if n <= 0 {
        Seq::empty()
    } else {
        spec_spaces(n - 1).push(32u8)
    }
}

/// The ASCII column's character for one byte: the byte itself when printable
/// (32 through 126), a dot otherwise.
pub open spec fn spec_ascii_cell(b: u8) -> u8 {
    if 32 <= b && b <= 126 {
        b
    } else {
        46u8
    }
}

/// The ASCII column for one line's bytes.
pub open spec fn spec_ascii_cells(c: Seq<u8>) -> Seq<u8> {
    Seq::new(c.len(), |i: int| spec_ascii_cell(c[i]))
}

/// The bytes of `data` covered by line `li`: sixteen, or whatever is left.
pub open spec fn spec_chunk(data: Seq<u8>, li: int) -> Seq<u8> {
    data.subrange(
        16 * li,
        if 16 * li + 16 <= data.len() {
            16 * li + 16
        } else {
            data.len() as int
        },
    )
}

/// One whole line of the table.
pub open spec fn spec_hex_line(data: Seq<u8>, li: int) -> Seq<u8> {
    spec_offset_digits(16 * li) + seq![58u8, 32u8] + spec_hex_cells(spec_chunk(data, li))
        + spec_spaces(3 * (16 - spec_chunk(data, li).len())) + seq![32u8] + spec_ascii_cells(
        spec_chunk(data, li),
    )
}

/// How many lines a buffer of `len` bytes takes: one per started group of
/// sixteen, none for an empty buffer.
pub open spec fn spec_line_count(len: int) -> int {
    (len + 15) / 16
}

/// The whole table for `data`.
pub open spec fn spec_hex_lines(data: Seq<u8>) -> Seq<Seq<u8>> {
    Seq::new(spec_line_count(data.len() as int) as nat, |li: int| spec_hex_line(data, li))
}

/// The lowercase hexadecimal digit character for `n`.
fn hex_digit(n: u8) -> (r: u8)
    requires
        n < 16,
    ensures
        r == spec_hex_digit(n as int),
{
    if n < 10 {
        48 + n
    } else {
        87 + n
    }
}

/// Renders the line that covers `data[start..end]`, labelled with offset
/// `start`.
fn render_line(data: &[u8], start: usize, end: usize) -> (line: Vec<u8>)
    requires
        start <= end <= data@.len(),
        end - start <= 16,
    ensures
        line@ == spec_offset_digits(start as int) + seq![58u8, 32u8] + spec_hex_cells(
            data@.subrange(start as int, end as int),
        ) + spec_spaces(3 * (16 - (end - start))) + seq![32u8] + spec_ascii_cells(
            data@.subrange(start as int, end as int),
        ),
{
    let ghost chunk = data@.subrange(start as int, end as int);
    let mut line: Vec<u8> = Vec::new();

    // Offset column: eight hex digits, most significant first.
    proof {
        assert(pow16(0) == 1);
        assert(pow16(1) == 16);
        assert(pow16(2) == 0x100);
        assert(pow16(3) == 0x1000);
        assert(pow16(4) == 0x10000);
        assert(pow16(5) == 0x10_0000);
        assert(pow16(6) == 0x100_0000);
        assert(pow16(7) == 0x1000_0000);
    }
    let mut div: usize = 0x1000_0000;
    let mut j: usize = 0;
    while j < 8
        invariant
            j <= 8,
            start <= end <= data@.len(),
            j < 8 ==> div == pow16((7 - j) as nat),
            line@.len() == j,
            forall|k: int| 0 <= k < j ==> line@[k] == spec_offset_digits(start as int)[k],
        decreases 8 - j,
    {
        proof {
            lemma_pow16_pos((7 - j) as nat);
        }
        let digit: usize = (start / div) % 16;
        line.push(hex_digit(digit as u8));
        if j < 7 {
            proof {
                assert(pow16((7 - j) as nat) == 16 * pow16((7 - (j + 1)) as nat));
            }
            div = div / 16;
            assert(div == pow16((7 - (j + 1)) as nat));
        }
        j += 1;
    }
    assert(line@ =~= spec_offset_digits(start as int));

    line.push(58);
    line.push(32);
    let ghost head = spec_offset_digits(start as int) + seq![58u8, 32u8];
    assert(line@ =~= head);

    // Hex column: two digits and a space per byte of the chunk.
    let mut i: usize = start;
    while i < end
        invariant
            start <= i <= end <= data@.len(),
            end - start <= 16,
            chunk == data@.subrange(start as int, end as int),
            head == spec_offset_digits(start as int) + seq![58u8, 32u8],
            line@ == head + spec_hex_cells(chunk.take(i - start)),
        decreases end - i,
    {
        let b: u8 = data[i];
        line.push(hex_digit(b / 16));
        line.push(hex_digit(b % 16));
        line.push(32);
        proof {
            let t = (i - start) as int;
            assert(chunk.take(t + 1).drop_last() =~= chunk.take(t));
            assert(chunk.take(t + 1).last() == b);
            assert(spec_hex_cells(chunk.take(t + 1)) == spec_hex_cells(chunk.take(t)) + seq![
                spec_hex_digit(b as int / 16),
                spec_hex_digit(b as int % 16),
                32u8,
            ]);
            assert(line@ =~= head + spec_hex_cells(chunk.take(t + 1)));
        }
        i += 1;
    }
    assert(chunk.take((end - start) as int) =~= chunk);
    let ghost head2 = head + spec_hex_cells(chunk);
    assert(line@ =~= head2);

    // Padding: three blanks for every byte the final chunk is short of
    // sixteen.
    let pad: usize = 16 - (end - start);
    let mut p: usize = 0;
    while p < pad
        invariant
            p <= pad,
            line@ == head2 + spec_spaces(3 * p),
        decreases pad - p,
    {
        line.push(32);
        line.push(32);
        line.push(32);
        proof {
            assert(spec_spaces(3 * p + 3) == spec_spaces(3 * p + 2).push(32u8));
            assert(spec_spaces(3 * p + 2) == spec_spaces(3 * p + 1).push(32u8));
            assert(spec_spaces(3 * p + 1) == spec_spaces(3 * p).push(32u8));
            assert(line@ =~= head2 + spec_spaces(3 * (p + 1)));
        }
        p += 1;
    }
    line.push(32);
    let ghost head3 = head2 + spec_spaces(3 * (16 - (end - start))) + seq![32u8];
    assert(line@ =~= head3);

    // ASCII column: the chunk again, unprintable bytes as dots.
    let mut i2: usize = start;
    while i2 < end
        invariant
            start <= i2 <= end <= data@.len(),
            chunk == data@.subrange(start as int, end as int),
            line@ == head3 + spec_ascii_cells(chunk).take(i2 - start),
        decreases end - i2,
    {
        let b: u8 = data[i2];
        if 32 <= b && b <= 126 {
            line.push(b);
        } else {
            line.push(46);
        }
        proof {
            let t = (i2 - start) as int;
            assert(spec_ascii_cells(chunk).take(t + 1) =~= spec_ascii_cells(chunk).take(t).push(
                spec_ascii_cell(chunk[t]),
            ));
            assert(line@ =~= head3 + spec_ascii_cells(chunk).take(t + 1));
        }
        i2 += 1;
    }
    assert(spec_ascii_cells(chunk).take((end - start) as int) =~= spec_ascii_cells(chunk));
    assert(line@ =~= head3 + spec_ascii_cells(chunk));
    line
}

/// Renders `data` as a hex/ASCII table, sixteen bytes per line. Total over
/// every buffer; an empty buffer yields no lines.
pub fn hex_dump(data: &[u8]) -> (lines: Vec<Vec<u8>>)
    ensures
        lines.deep_view() == spec_hex_lines(data@),
        lines@.len() == spec_line_count(data@.len() as int),
        forall|i: int| 0 <= i < lines@.len() ==> lines@[i]@ == spec_hex_line(data@, i),
{
    let mut lines: Vec<Vec<u8>> = Vec::new();
    let n: usize = data.len();
    let total: usize = if n == 0 {
        0
    } else {
        (n - 1) / 16 + 1
    };
    assert(total == spec_line_count(data@.len() as int));
    let mut li: usize = 0;
    while li < total
        invariant
            li <= total,
            n == data@.len(),
            total == spec_line_count(n as int),
            lines@.len() == li,
            forall|i: int| 0 <= i < li ==> lines@[i]@ == spec_hex_line(data@, i),
        decreases total - li,
    {
        proof {
            lemma_line_start(n as int, li as int);
        }
        let start: usize = 16 * li;
        let end: usize = if n - start < 16 {
            n
        } else {
            start + 16
        };
        let line = render_line(data, start, end);
        proof {
            assert(data@.subrange(start as int, end as int) == spec_chunk(data@, li as int));
            assert(line@ == spec_hex_line(data@, li as int));
        }
        lines.push(line);
        li += 1;
    }
    proof {
        assert(lines.deep_view() =~~= spec_hex_lines(data@));
    }
    lines
}

/// Every line of the table starts strictly inside the buffer.
proof fn lemma_line_start(len: int, j: int)
    requires
        0 <= j < spec_line_count(len),
    ensures
        16 * j < len,
{
    vstd::arithmetic::div_mod::lemma_fundamental_div_mod(len + 15, 16);
    vstd::arithmetic::div_mod::lemma_mod_division_less_than_divisor(len + 15, 16);
}

} // verus!
