use unitkit::{
    convert_columns, convert_grid, formula_of, lookup, rounding_of, unit_of, ConvertError, Op,
    Ratio, Rounding, Unit,
};

fn ratio_value(r: &Ratio) -> f64 {
    r.num as f64 / r.den as f64
}

/// Reads a cell as a float, runs the formula on it and renders the result.
fn evaluate(cell: &String, ops: &Vec<Op>, mode: Rounding) -> Option<String> {
    let mut x: f64 = cell.parse().ok()?;
    for op in ops {
        x = match op {
            Op::Add(r) => x + ratio_value(r),
            Op::Sub(r) => x - ratio_value(r),
            Op::Mul(r) => x * ratio_value(r),
            Op::Div(r) => x / ratio_value(r),
            Op::DivInto(r) => ratio_value(r) / x,
            Op::MulPi => x * std::f64::consts::PI,
            Op::DivPi => x / std::f64::consts::PI,
            Op::Exp10 => 10f64.powf(x),
            Op::Log10 => x.log10(),
        };
    }
    let y = match mode {
        Rounding::Raw => x,
        Rounding::Truncate => x.trunc(),
        Rounding::Round => x.round(),
    };
    Some(y.to_string())
}

fn grid(rows: &[&[&str]]) -> Vec<Vec<String>> {
    rows.iter().map(|r| r.iter().map(|c| c.to_string()).collect()).collect()
}

fn run(g: &[&[&str]], from: &str, to: &str, whole: bool, round: bool) -> Vec<Vec<String>> {
    convert_grid(&grid(g), from, to, whole, round, evaluate)
}

fn number(g: &Vec<Vec<String>>) -> f64 {
    g[0][0].parse().unwrap()
}

#[test]
fn celsius_grid_keeps_text_cells() {
    let out = run(&[&["100", "200"], &["abc", "300"]], "celsius", "fahrenheit", false, false);
    assert_eq!(out, grid(&[&["212", "392"], &["abc", "572"]]));
}

#[test]
fn whole_number_truncates() {
    assert_eq!(run(&[&["2.5"]], "m", "cm", true, false), grid(&[&["250"]]));
    assert_eq!(run(&[&["1.5"]], "cm", "mm", true, false), grid(&[&["15"]]));
    assert_eq!(run(&[&["-7.5"]], "mm", "cm", true, false), grid(&[&["-0"]]));
}

#[test]
fn round_off_rounds_to_nearest() {
    assert_eq!(run(&[&["1.5"]], "inch", "cm", false, true), grid(&[&["4"]]));
    assert_eq!(run(&[&["2.5"]], "kg", "g", false, true), grid(&[&["2500"]]));
    assert_eq!(run(&[&["0.25"]], "cm", "mm", false, true), grid(&[&["3"]]));
    assert_eq!(run(&[&["-0.25"]], "cm", "mm", false, true), grid(&[&["-3"]]));
}

#[test]
fn truncation_wins_over_rounding() {
    assert_eq!(rounding_of(true, true), Rounding::Truncate);
    assert_eq!(rounding_of(false, true), Rounding::Round);
    assert_eq!(rounding_of(false, false), Rounding::Raw);
    assert_eq!(run(&[&["1.5"]], "inch", "cm", true, true), grid(&[&["3"]]));
}

#[test]
fn raw_values_are_not_rounded() {
    assert_eq!(run(&[&["1.5"]], "inch", "cm", false, false), grid(&[&["3.81"]]));
    assert_eq!(run(&[&["1"]], "mile", "km", false, false), grid(&[&["1.60934"]]));
}

#[test]
fn unparsable_cells_are_kept() {
    let out = run(&[&["abc", "", " 5", "1,5"]], "kg", "g", false, false);
    assert_eq!(out, grid(&[&["abc", "", " 5", "1,5"]]));
}

#[test]
fn unknown_pairs_keep_every_cell() {
    let g: &[&[&str]] = &[&["1", "2.5", "x"], &["3"]];
    assert_eq!(run(g, "kg", "mile", true, false), grid(g));
    assert_eq!(run(g, "kg", "kg", false, false), grid(g));
    assert_eq!(run(g, "KG", "g", false, false), grid(g));
}

#[test]
fn shape_is_kept() {
    let g: &[&[&str]] = &[&["1", "2", "3"], &[], &["4"]];
    let out = run(g, "kg", "g", false, false);
    assert_eq!(out.len(), 3);
    assert_eq!(out[0].len(), 3);
    assert_eq!(out[1].len(), 0);
    assert_eq!(out[2].len(), 1);
    assert_eq!(run(&[], "kg", "g", false, false).len(), 0);
}

#[test]
fn round_trips_come_back_close() {
    let pairs = [
        ("mile", "km"),
        ("celsius", "fahrenheit"),
        ("fahrenheit", "kelvin"),
        ("deg", "rad"),
        ("deg", "grad"),
        ("psi", "pa"),
        ("lb", "kg"),
        ("km_per_l", "l_per_100km"),
        ("mpg_uk", "km_per_l"),
    ];
    for (a, b) in pairs {
        let there = run(&[&["12.5"]], a, b, false, false);
        let cell = there[0][0].clone();
        let back = convert_grid(&vec![vec![cell]], b, a, false, false, evaluate);
        assert!((number(&back) - 12.5).abs() < 1e-9, "{a} -> {b}");
    }
}

#[test]
fn power_levels_use_logarithms() {
    assert_eq!(run(&[&["1"]], "watt", "dbm", false, false), grid(&[&["30"]]));
    assert!((number(&run(&[&["30"]], "dbm", "watt", false, false)) - 1.0).abs() < 1e-12);
    assert_eq!(run(&[&["0"]], "dbm", "watt", false, false), grid(&[&["0.001"]]));
}

#[test]
fn fuel_economy_is_reciprocal() {
    assert_eq!(run(&[&["20"]], "km_per_l", "l_per_100km", false, false), grid(&[&["5"]]));
    assert_eq!(run(&[&["5"]], "l_per_100km", "km_per_l", false, false), grid(&[&["20"]]));
}

#[test]
fn temperatures_are_affine() {
    assert_eq!(run(&[&["0"]], "celsius", "kelvin", false, false), grid(&[&["273.15"]]));
    assert_eq!(run(&[&["212"]], "fahrenheit", "celsius", false, false), grid(&[&["100"]]));
    assert_eq!(run(&[&["32"]], "fahrenheit", "kelvin", false, true), grid(&[&["273"]]));
}

#[test]
fn table_entries_hold_their_constants() {
    assert_eq!(lookup("mile", "km"), Some(vec![Op::Mul(Ratio { num: 160934, den: 100000 })]));
    assert_eq!(lookup("pa", "psi"), Some(vec![Op::Div(Ratio { num: 689476, den: 100 })]));
    assert_eq!(
        lookup("celsius", "fahrenheit"),
        Some(vec![
            Op::Mul(Ratio { num: 9, den: 1 }),
            Op::Div(Ratio { num: 5, den: 1 }),
            Op::Add(Ratio { num: 32, den: 1 }),
        ])
    );
    assert_eq!(lookup("kg", "mile"), None);
    assert_eq!(lookup("kb", "gb"), None);
    assert_eq!(formula_of(Unit::Deg, Unit::Rad), Some(vec![Op::MulPi, Op::Div(Ratio { num: 180, den: 1 })]));
}

#[test]
fn unit_tags_match_exactly() {
    assert_eq!(unit_of("celsius"), Some(Unit::Celsius));
    assert_eq!(unit_of("l_per_100km"), Some(Unit::LPer100km));
    assert_eq!(unit_of("Celsius"), None);
    assert_eq!(unit_of("kg "), None);
    assert_eq!(unit_of(""), None);
}

#[test]
fn columns_round_trip_through_json() {
    let out = convert_columns(r#"[["100","200"],["abc","300"]]"#, "celsius", "fahrenheit", false, false, evaluate);
    assert_eq!(out, Ok(r#"[["212","392"],["abc","572"]]"#.to_string()));
    let empty = convert_columns("[]", "kg", "g", false, false, evaluate);
    assert_eq!(empty, Ok("[]".to_string()));
}

#[test]
fn malformed_json_is_refused() {
    for bad in ["", "not json", "[1,2]", "[[1]]", r#"{"a":"b"}"#, "[[\"1\"]"] {
        assert_eq!(
            convert_columns(bad, "kg", "g", false, false, evaluate),
            Err(ConvertError::MalformedInput),
            "{bad}"
        );
    }
}
