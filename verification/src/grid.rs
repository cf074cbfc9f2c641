//! Layer-major flat indexing of a `layers x rows x cols` grid.
use vstd::prelude::*;

verus! {

/// The flat index of `(layer, row, col)` in a layer-major grid.
pub open spec fn spec_flat(layer: int, row: int, col: int, rows: int, cols: int) -> int {
    (layer * rows + row) * cols + col
}

/// The `(layer, row, col)` of flat index `i` in a layer-major grid.
pub open spec fn spec_coords(i: int, rows: int, cols: int) -> (int, int, int) {
    (i / (rows * cols), (i / cols) % rows, i % cols)
}

/// A position inside the grid has a flat index inside it.
pub proof fn lemma_flat_in_bounds(layer: int, row: int, col: int, layers: int, rows: int, cols: int)
    requires
        0 <= layer < layers,
        0 <= row < rows,
        0 <= col < cols,
    ensures
        0 <= spec_flat(layer, row, col, rows, cols) < layers * rows * cols,
        0 <= layer * rows <= layer * rows + row <= (layer * rows + row) * cols <= spec_flat(
            layer,
            row,
            col,
            rows,
            cols,
        ),
{
    assert(0 <= layer * rows) by (nonlinear_arith)
        requires
            0 <= layer,
            0 <= row < rows,
    ;
    assert(layer * rows + row <= (layer * rows + row) * cols) by (nonlinear_arith)
        requires
            0 <= layer * rows + row,
            0 <= col < cols,
    ;
    assert(0 <= layer * rows + row < layers * rows) by (nonlinear_arith)
        requires
            0 <= layer < layers,
            0 <= row < rows,
    ;
    assert(0 <= (layer * rows + row) * cols + col < (layers * rows) * cols) by (nonlinear_arith)
        requires
            0 <= layer * rows + row < layers * rows,
            0 <= col < cols,
    ;
    assert((layers * rows) * cols == layers * rows * cols) by (nonlinear_arith);
}

/// Every flat index inside the grid is the flat index of its coordinates,
/// which lie inside the grid.
pub proof fn lemma_coords_in_bounds(i: int, layers: int, rows: int, cols: int)
    requires
        0 <= i < layers * rows * cols,
        0 < rows,
        0 < cols,
    ensures
        0 <= spec_coords(i, rows, cols).0 < layers,
        0 <= spec_coords(i, rows, cols).1 < rows,
        0 <= spec_coords(i, rows, cols).2 < cols,
        spec_flat(spec_coords(i, rows, cols).0, spec_coords(i, rows, cols).1, spec_coords(i, rows, cols).2, rows, cols)
            == i,
{
    let q = i / cols;
    let c = i % cols;
    let l = q / rows;
    let r = q % rows;
    vstd::arithmetic::div_mod::lemma_fundamental_div_mod(i, cols);
    vstd::arithmetic::div_mod::lemma_mod_pos_bound(i, cols);
    assert(q >= 0) by (nonlinear_arith)
        requires
            i >= 0,
            cols > 0,
            q == i / cols,
    ;
    vstd::arithmetic::div_mod::lemma_fundamental_div_mod(q, rows);
    vstd::arithmetic::div_mod::lemma_mod_pos_bound(q, rows);
    vstd::arithmetic::div_mod::lemma_div_denominator(i, cols, rows);
    assert(cols * rows == rows * cols) by (nonlinear_arith);
    assert(l >= 0) by (nonlinear_arith)
        requires
            q >= 0,
            rows > 0,
            l == q / rows,
    ;
    assert(i == (l * rows + r) * cols + c) by (nonlinear_arith)
        requires
            i == cols * q + c,
            q == rows * l + r,
    ;
    assert(l < layers) by (nonlinear_arith)
        requires
            i == (l * rows + r) * cols + c,
            0 <= r,
            0 <= c,
            i < layers * rows * cols,
            rows > 0,
            cols > 0,
            l >= 0,
    ;
}

/// The coordinates of the flat index of a position inside a row-by-column
/// layer are that position.
pub proof fn lemma_coords_of_flat(layer: int, row: int, col: int, rows: int, cols: int)
    requires
        0 <= layer,
        0 <= row < rows,
        0 <= col < cols,
    ensures
        spec_coords(spec_flat(layer, row, col, rows, cols), rows, cols) == (layer, row, col),
{
    let q = layer * rows + row;
    let i = q * cols + col;
    assert(0 <= layer * rows) by (nonlinear_arith)
        requires
            0 <= layer,
            0 <= row < rows,
    ;
    assert(0 <= q * cols) by (nonlinear_arith)
        requires
            0 <= q,
            0 <= col < cols,
    ;
    vstd::arithmetic::div_mod::lemma_fundamental_div_mod_converse(i, cols, q, col);
    vstd::arithmetic::div_mod::lemma_fundamental_div_mod_converse(q, rows, layer, row);
    vstd::arithmetic::div_mod::lemma_div_denominator(i, cols, rows);
    assert(cols * rows == rows * cols) by (nonlinear_arith);
}

/// A grid with a position in it has positive dimensions, and one layer is no
/// bigger than the grid.
pub proof fn lemma_nonempty_grid(i: int, layers: int, rows: int, cols: int)
    requires
        0 <= i < layers * rows * cols,
        0 <= layers,
        0 <= rows,
        0 <= cols,
    ensures
        0 < layers,
        0 < rows,
        0 < cols,
        0 < rows * cols <= layers * rows * cols,
{
    if layers == 0 || rows == 0 || cols == 0 {
        assert(layers * rows * cols == 0) by (nonlinear_arith)
            requires
                layers == 0 || rows == 0 || cols == 0,
        ;
    }
    assert(0 < rows * cols <= layers * (rows * cols)) by (nonlinear_arith)
        requires
            1 <= layers,
            1 <= rows,
            1 <= cols,
    ;
    assert(layers * (rows * cols) == layers * rows * cols) by (nonlinear_arith);
}

} // verus!
