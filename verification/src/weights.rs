use crate::buffer::lemma_row_before;
use vstd::prelude::*;

verus! {

/// The largest window radius whose table size fits in 31 bits.
pub const MAX_SIGMA: i32 = 23169;

/// Side of the square window of radius `sigma`.
pub open spec fn spec_side(sigma: int) -> int {
    2 * sigma + 1
}

/// Number of entries of the weight table of radius `sigma`.
pub open spec fn spec_weight_size(sigma: int) -> int {
    spec_side(sigma) * spec_side(sigma)
}

/// Whether `(i, j)` is an offset of the window of radius `sigma`.
pub open spec fn in_window(i: int, j: int, sigma: int) -> bool {
    -sigma <= i <= sigma && -sigma <= j <= sigma
}

/// Position of the offset `(i, j)` in the flattened table of radius `sigma`.
pub open spec fn spec_weight_index(i: int, j: int, sigma: int) -> int {
    (i + sigma) + (j + sigma) * spec_side(sigma)
}

/// Squared distance of the offset `(i, j)` from the window's centre.
pub open spec fn spec_squared_distance(i: int, j: int) -> int {
    i * i + j * j
}

/// The entry of a flattened table of radius `sigma` for the offset `(i, j)`.
pub open spec fn table_at(table: Seq<u32>, i: int, j: int, sigma: int) -> u32 {
    table[spec_weight_index(i, j, sigma)]
}

/// `table` is the table of squared distances of the window of radius
/// `sigma`: one entry for each offset, each at its position.
pub open spec fn is_distance_table(table: Seq<u32>, sigma: int) -> bool {
    &&& table.len() == spec_weight_size(sigma)
    &&& forall|i: int, j: int|
        in_window(i, j, sigma) ==> #[trigger] table_at(table, i, j, sigma)
            == spec_squared_distance(i, j)
}

/// Every offset of the window has a position inside the table.
pub proof fn lemma_weight_index_in_table(i: int, j: int, sigma: int)
    requires
        in_window(i, j, sigma),
    ensures
        0 <= spec_weight_index(i, j, sigma) < spec_weight_size(sigma),
{
    lemma_row_before(i + sigma, j + sigma, spec_side(sigma), spec_side(sigma));
    assert((j + sigma) * spec_side(sigma) + (i + sigma) == spec_weight_index(i, j, sigma));
}

/// Two offsets of the window that share a position in the table are the same
/// offset: the layout loses nothing.
pub proof fn lemma_weight_index_injective(i1: int, j1: int, i2: int, j2: int, sigma: int)
    requires
        in_window(i1, j1, sigma),
        in_window(i2, j2, sigma),
        spec_weight_index(i1, j1, sigma) == spec_weight_index(i2, j2, sigma),
    ensures
        i1 == i2,
        j1 == j2,
{
    let side = spec_side(sigma);
    if j1 < j2 {
        lemma_row_before(i1 + sigma, j1 + sigma, side, j2 + sigma);
    }
    if j2 < j1 {
        lemma_row_before(i2 + sigma, j2 + sigma, side, j1 + sigma);
    }
}

/// The squared distance of every offset of the window is at most `2 * sigma * sigma`.
pub proof fn lemma_squared_distance_bound(i: int, j: int, sigma: int)
    requires
        in_window(i, j, sigma),
    ensures
        0 <= spec_squared_distance(i, j) <= 2 * (sigma * sigma),
{
    assert(0 <= i * i <= sigma * sigma) by (nonlinear_arith)
        requires
            -sigma <= i <= sigma,
    ;
    assert(0 <= j * j <= sigma * sigma) by (nonlinear_arith)
        requires
            -sigma <= j <= sigma,
    ;
}

/// Every position of the table belongs to one offset of the window.
pub proof fn lemma_weight_index_onto(at: int, sigma: int) -> (offset: (int, int))
    requires
        0 <= sigma,
        0 <= at < spec_weight_size(sigma),
    ensures
        in_window(offset.0, offset.1, sigma),
        spec_weight_index(offset.0, offset.1, sigma) == at,
{
    let side = spec_side(sigma);
    let a = at % side;
    let b = at / side;
    vstd::arithmetic::div_mod::lemma_fundamental_div_mod(at, side);
    assert(side * b == b * side) by (nonlinear_arith);
    assert(0 <= b < side) by (nonlinear_arith)
        requires
            0 <= at < side * side,
            at == side * b + a,
            0 <= a < side,
    ;
    (a - sigma, b - sigma)
}

/// In a table of squared distances the centre's entry is 0 and no entry is
/// above `2 * sigma * sigma`: every weight's exponent lies between minus one
/// and zero, and the centre's weight is one.
pub proof fn lemma_distance_table_bounds(table: Seq<u32>, sigma: int)
    requires
        0 <= sigma,
        is_distance_table(table, sigma),
    ensures
        table_at(table, 0, 0, sigma) == 0,
        forall|at: int| 0 <= at < table.len() ==> #[trigger] table[at] <= 2 * (sigma * sigma),
{
    assert(in_window(0, 0, sigma));
    assert(table_at(table, 0, 0, sigma) == spec_squared_distance(0, 0));
    assert forall|at: int| 0 <= at < table.len() implies #[trigger] table[at] <= 2 * (sigma
        * sigma) by {
        let offset = lemma_weight_index_onto(at, sigma);
        lemma_squared_distance_bound(offset.0, offset.1, sigma);
        assert(table_at(table, offset.0, offset.1, sigma) == spec_squared_distance(
            offset.0,
            offset.1,
        ));
    }
}

/// Number of entries of the weight table of radius `sigma`.
pub fn weight_size(sigma: i32) -> (n: usize)
    requires
        1 <= sigma <= MAX_SIGMA,
    ensures
        n == spec_weight_size(sigma as int),
{
    let side: u32 = 2 * (sigma as u32) + 1;
    assert(side * side <= 46339 * 46339) by (nonlinear_arith)
        requires
            0 <= side <= 46339,
    ;
    (side * side) as usize
}

/// Position of the offset `(i, j)` in the flattened table of radius `sigma`.
pub fn weight_index(i: i32, j: i32, sigma: i32) -> (at: usize)
    requires
        1 <= sigma <= MAX_SIGMA,
        in_window(i as int, j as int, sigma as int),
    ensures
        at == spec_weight_index(i as int, j as int, sigma as int),
        at < spec_weight_size(sigma as int),
{
    let side: u32 = 2 * (sigma as u32) + 1;
    let col: u32 = (i + sigma) as u32;
    let row: u32 = (j + sigma) as u32;
    proof {
        lemma_weight_index_in_table(i as int, j as int, sigma as int);
        assert(side * side <= 46339 * 46339) by (nonlinear_arith)
            requires
                0 <= side <= 46339,
        ;
        assert(0 <= row * side) by (nonlinear_arith)
            requires
                0 <= row,
                0 <= side,
        ;
    }
    (col + row * side) as usize
}

/// The divisor of the exponent of every weight: `2 * sigma * sigma`.
pub fn exponent_divisor(sigma: i32) -> (d: u32)
    requires
        1 <= sigma <= MAX_SIGMA,
    ensures
        d == 2 * (sigma * sigma),
        d > 0,
{
    let s: u32 = sigma as u32;
    assert(1 <= s * s <= 23169 * 23169) by (nonlinear_arith)
        requires
            1 <= s <= 23169,
    ;
    2 * (s * s)
}

/// The table of squared distances of the window of radius `sigma`, flattened
/// as the weight table is: the weight of the offset `(i, j)` is the
/// exponential of minus its entry here over `exponent_divisor(sigma)`.
pub fn squared_distances(sigma: i32) -> (table: Vec<u32>)
    requires
        1 <= sigma <= MAX_SIGMA,
    ensures
        is_distance_table(table@, sigma as int),
{
    // Entries are pushed in the order of the layout: row after row of the
    // window, so every entry lands at its own position.
    let ghost side = spec_side(sigma as int);
    let mut table: Vec<u32> = Vec::new();
    let mut j: i32 = -sigma;
    assert((j + sigma) * side == 0) by (nonlinear_arith)
        requires
            j + sigma == 0,
    ;
    while j <= sigma
        invariant
            1 <= sigma <= MAX_SIGMA,
            side == spec_side(sigma as int),
            -sigma <= j <= sigma + 1,
            table@.len() == (j + sigma) * side,
            forall|a: int, b: int|
                -sigma <= a <= sigma && -sigma <= b < j ==> #[trigger] table_at(
                    table@,
                    a,
                    b,
                    sigma as int,
                ) == spec_squared_distance(a, b),
        decreases sigma + 1 - j,
    {
        let mut i: i32 = -sigma;
        while i <= sigma
            invariant
                1 <= sigma <= MAX_SIGMA,
                side == spec_side(sigma as int),
                -sigma <= j <= sigma,
                -sigma <= i <= sigma + 1,
                table@.len() == (j + sigma) * side + (i + sigma),
                forall|a: int, b: int|
                    -sigma <= a <= sigma && -sigma <= b < j ==> #[trigger] table_at(
                        table@,
                        a,
                        b,
                        sigma as int,
                    ) == spec_squared_distance(a, b),
                forall|a: int|
                    -sigma <= a < i ==> #[trigger] table_at(table@, a, j as int, sigma as int)
                        == spec_squared_distance(a, j as int),
            decreases sigma + 1 - i,
        {
            proof {
                assert(sigma * sigma <= 23169 * 23169) by (nonlinear_arith)
                    requires
                        1 <= sigma <= 23169,
                ;
                assert(0 <= i * i <= sigma * sigma) by (nonlinear_arith)
                    requires
                        -sigma <= i <= sigma,
                ;
                assert(0 <= j * j <= sigma * sigma) by (nonlinear_arith)
                    requires
                        -sigma <= j <= sigma,
                ;
            }
            let d: u32 = (i * i + j * j) as u32;
            let ghost before = table@;
            table.push(d);
            proof {
                assert forall|a: int, b: int|
                    -sigma <= a <= sigma && -sigma <= b < j implies #[trigger] table_at(
                    table@,
                    a,
                    b,
                    sigma as int,
                ) == spec_squared_distance(a, b) by {
                    lemma_row_before(a + sigma, b + sigma, side, j + sigma);
                    assert(table_at(before, a, b, sigma as int) == spec_squared_distance(a, b));
                }
                assert forall|a: int| -sigma <= a < i + 1 implies #[trigger] table_at(
                    table@,
                    a,
                    j as int,
                    sigma as int,
                ) == spec_squared_distance(a, j as int) by {
                    if a < i {
                        assert(table_at(before, a, j as int, sigma as int)
                            == spec_squared_distance(a, j as int));
                    }
                }
            }
            i += 1;
        }
        proof {
            assert((j + sigma) * side + side == (j + 1 + sigma) * side) by (nonlinear_arith);
        }
        j += 1;
    }
    table
}

} // verus!
