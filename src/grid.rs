use vstd::prelude::*;

use crate::formula::{lookup, pair_formula, Op};

verus! {

/// How a converted value is brought to a whole number, if at all.
#[derive(Clone, Copy, Debug, PartialEq, Eq, Structural)]
pub enum Rounding {
    /// The value as computed.
    Raw,
    /// Cut toward zero.
    Truncate,
    /// Rounded to the nearest whole number, halfway cases away from zero.
    Round,
}

/// The rounding that the two flags select; truncation wins when both are set.
pub open spec fn rounding_spec(whole_number: bool, round_off: bool) -> Rounding {
    if whole_number {
        Rounding::Truncate
    } else if round_off {
        Rounding::Round
    } else {
        Rounding::Raw
    }
}

/// Picks the rounding from the two flags.
pub fn rounding_of(whole_number: bool, round_off: bool) -> (r: Rounding)
    ensures
        r == rounding_spec(whole_number, round_off),
{
    if whole_number {
        Rounding::Truncate
    } else if round_off {
        Rounding::Round
    } else {
        Rounding::Raw
    }
}

/// Errors of the bulk converter.
#[derive(Clone, Copy, Debug, PartialEq, Eq, Structural)]
pub enum ConvertError {
    /// The input is not a JSON array of arrays of strings.
    MalformedInput,
}

/// The text of every cell of a grid.
pub open spec fn cells_view(g: Seq<Vec<String>>) -> Seq<Seq<Seq<char>>> {
    g.map_values(|row: Vec<String>| row@.map_values(|s: String| s@))
}

/// What a cell becomes. With no formula it stays as it is. With a
/// formula, `apply` is asked to evaluate the cell's number and render the
/// result; where it cannot (the cell is no number) the cell stays as it is.
pub open spec fn cell_outcome<F: Fn(&String, &Vec<Op>, Rounding) -> Option<String>>(
    apply: F,
    formula: Option<Seq<Op>>,
    mode: Rounding,
    cell: String,
    out: String,
) -> bool {
    match formula {
        None => out@ == cell@,
        Some(f) => exists|ops: Vec<Op>, r: Option<String>|
            #![trigger apply.ensures((&cell, &ops, mode), r)]
            ops@ == f && apply.ensures((&cell, &ops, mode), r) && match r {
                Some(s) => out@ == s@,
                None => out@ == cell@,
            },
    }
}

/// `out` has the shape of `grid`, and each of its cells is what the
/// matching cell of `grid` becomes.
pub open spec fn grid_outcome<F: Fn(&String, &Vec<Op>, Rounding) -> Option<String>>(
    apply: F,
    formula: Option<Seq<Op>>,
    mode: Rounding,
    grid: Seq<Vec<String>>,
    out: Seq<Vec<String>>,
) -> bool {
    &&& out.len() == grid.len()
    &&& forall|i: int| 0 <= i < grid.len() ==> #[trigger] out[i].len() == grid[i].len()
    &&& forall|i: int, j: int|
        0 <= i < grid.len() && 0 <= j < grid[i].len() ==> cell_outcome(
            apply,
            formula,
            mode,
            #[trigger] grid[i][j],
            out[i][j],
        )
}

fn convert_row<F: Fn(&String, &Vec<Op>, Rounding) -> Option<String>>(
    row: &Vec<String>,
    formula: &Option<Vec<Op>>,
    mode: Rounding,
    apply: &F,
) -> (out: Vec<String>)
    requires
        forall|c: &String, f: &Vec<Op>, m: Rounding| apply.requires((c, f, m)),
    ensures
        out.len() == row.len(),
        forall|j: int|
            0 <= j < row.len() ==> cell_outcome(
                *apply,
                crate::formula::formula_view(*formula),
                mode,
                #[trigger] row[j],
                out[j],
            ),
{
    let mut out: Vec<String> = Vec::new();
    let mut j: usize = 0;
    while j < row.len()
        invariant
            j <= row.len(),
            out.len() == j,
            forall|c: &String, f: &Vec<Op>, m: Rounding| apply.requires((c, f, m)),
            forall|k: int|
                0 <= k < j ==> cell_outcome(
                    *apply,
                    crate::formula::formula_view(*formula),
                    mode,
                    #[trigger] row[k],
                    out[k],
                ),
        decreases row.len() - j,
    {
        let cell = &row[j];
        let next = match formula {
            None => cell.clone(),
            Some(ops) => {
                let r = apply(cell, ops, mode);
                match r {
                    Some(s) => s,
                    None => cell.clone(),
                }
            },
        };
        out.push(next);
        j = j + 1;
    }
    out
}

/// Converts every cell of `grid` from one unit to another. The formula is
/// looked up once; `apply` evaluates it on one cell's text and renders the
/// result with the rounding that the flags select. Cells that `apply`
/// cannot read, and every cell when the pair has no formula, are kept as
/// they are.
pub fn convert_grid<F: Fn(&String, &Vec<Op>, Rounding) -> Option<String>>(
    grid: &Vec<Vec<String>>,
    from_unit: &str,
    to_unit: &str,
    whole_number: bool,
    round_off: bool,
    apply: F,
) -> (out: Vec<Vec<String>>)
    requires
        forall|c: &String, f: &Vec<Op>, m: Rounding| apply.requires((c, f, m)),
    ensures
        grid_outcome(
            apply,
            pair_formula(from_unit@, to_unit@),
            rounding_spec(whole_number, round_off),
            grid@,
            out@,
        ),
        out.len() == grid.len(),
        forall|i: int| 0 <= i < grid.len() ==> #[trigger] out[i].len() == grid[i].len(),
        pair_formula(from_unit@, to_unit@) is None ==> forall|i: int, j: int|
            0 <= i < grid.len() && 0 <= j < grid[i].len() ==> (#[trigger] out[i][j])@
                == grid[i][j]@,
{
    let formula = lookup(from_unit, to_unit);
    let mode = rounding_of(whole_number, round_off);
    let mut out: Vec<Vec<String>> = Vec::new();
    let mut i: usize = 0;
    while i < grid.len()
        invariant
            i <= grid.len(),
            out.len() == i,
            crate::formula::formula_view(formula) == pair_formula(from_unit@, to_unit@),
            mode == rounding_spec(whole_number, round_off),
            forall|c: &String, f: &Vec<Op>, m: Rounding| apply.requires((c, f, m)),
            forall|k: int| 0 <= k < i ==> #[trigger] out[k].len() == grid[k].len(),
            forall|k: int, j: int|
                0 <= k < i && 0 <= j < grid[k].len() ==> cell_outcome(
                    apply,
                    pair_formula(from_unit@, to_unit@),
                    mode,
                    #[trigger] grid[k][j],
                    out[k][j],
                ),
        decreases grid.len() - i,
    {
        let row = convert_row(&grid[i], &formula, mode, &apply);
        out.push(row);
        i = i + 1;
    }
    out
}

/// The grid that a JSON text holds, where the text is an array of arrays
/// of strings.
pub uninterp spec fn grid_from_json(s: Seq<char>) -> Option<Seq<Seq<Seq<char>>>>;

/// The JSON text of a grid of strings.
pub uninterp spec fn grid_to_json(g: Seq<Seq<Seq<char>>>) -> Seq<char>;

/// Relies on serde_json::from_str read as `Vec<Vec<String>>`: the grid, or
/// an error where the text is no array of arrays of strings; the outcome
/// depends on the text alone.
#[verifier::external_body]
fn read_grid(s: &str) -> (r: Option<Vec<Vec<String>>>)
    ensures
        match r {
            Some(g) => grid_from_json(s@) == Some(cells_view(g@)),
            None => grid_from_json(s@) is None,
        },
{
    serde_json::from_str::<Vec<Vec<String>>>(s).ok()
}

/// Relies on serde_json::to_string on `Vec<Vec<String>>`: the JSON text of
/// the grid. It writes into a `Vec<u8>` and strings always serialize, so
/// the error arm is never taken.
#[verifier::external_body]
fn write_grid(g: &Vec<Vec<String>>) -> (r: String)
    ensures
        r@ == grid_to_json(cells_view(g@)),
{
    match serde_json::to_string(g) {
        Ok(s) => s,
        Err(_) => String::new(),
    }
}

/// Converts a grid given as JSON text (an array of arrays of strings) and
/// returns the converted grid as JSON text. Text that holds no such grid
/// is refused with `MalformedInput`; otherwise each cell goes as
/// `convert_grid` says.
pub fn convert_columns<F: Fn(&String, &Vec<Op>, Rounding) -> Option<String>>(
    data_json: &str,
    from_unit: &str,
    to_unit: &str,
    whole_num: bool,
    roundoff: bool,
    apply: F,
) -> (r: Result<String, ConvertError>)
    requires
        forall|c: &String, f: &Vec<Op>, m: Rounding| apply.requires((c, f, m)),
    ensures
        grid_from_json(data_json@) is None ==> r == Err::<String, ConvertError>(
            ConvertError::MalformedInput,
        ),
        grid_from_json(data_json@) is Some ==> r is Ok,
        r matches Ok(s) ==> exists|inp: Vec<Vec<String>>, out: Vec<Vec<String>>|
            #![trigger cells_view(inp@), cells_view(out@)]
            grid_from_json(data_json@) == Some(cells_view(inp@)) && grid_outcome(
                apply,
                pair_formula(from_unit@, to_unit@),
                rounding_spec(whole_num, roundoff),
                inp@,
                out@,
            ) && s@ == grid_to_json(cells_view(out@)),
{
    match read_grid(data_json) {
        None => Err(ConvertError::MalformedInput),
        Some(grid) => {
            let out = convert_grid(&grid, from_unit, to_unit, whole_num, roundoff, apply);
            let text = write_grid(&out);
            assert(cells_view(grid@) == cells_view(grid@) && cells_view(out@) == cells_view(out@));
            Ok(text)
        },
    }
}

} // verus!
