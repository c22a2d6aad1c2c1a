use vstd::prelude::*;

use crate::formula::{pair_formula, table, Op, Ratio};
use crate::units::{unit_named, Unit};

verus! {

/// A formula read as exact arithmetic: the map
/// `x -> (a * t + b) / (c * t + d)` where `t = x * pi^pi_pow`.
/// Scaling, shifting and `c / x` keep this shape; a factor of pi keeps it
/// where the map is still a pure scale.
pub struct Exact {
    pub a: int,
    pub b: int,
    pub c: int,
    pub d: int,
    pub pi_pow: int,
}

/// The map `x -> x`.
pub open spec fn exact_identity() -> Exact {
    Exact { a: 1, b: 0, c: 0, d: 1, pi_pow: 0 }
}

/// Whether a map sends every `x` to itself.
pub open spec fn is_identity(m: Exact) -> bool {
    m.b == 0 && m.c == 0 && m.a == m.d && m.a != 0 && m.pi_pow == 0
}

/// The map `m` followed by the step `op`, if the result keeps the shape.
pub open spec fn then_step(m: Exact, op: Op) -> Option<Exact> {
    match op {
        Op::Add(r) => Some(Exact {
            a: r.den * m.a + r.num * m.c,
            b: r.den * m.b + r.num * m.d,
            c: r.den * m.c,
            d: r.den * m.d,
            pi_pow: m.pi_pow,
        }),
        Op::Sub(r) => Some(Exact {
            a: r.den * m.a - r.num * m.c,
            b: r.den * m.b - r.num * m.d,
            c: r.den * m.c,
            d: r.den * m.d,
            pi_pow: m.pi_pow,
        }),
        Op::Mul(r) => Some(Exact {
            a: r.num * m.a,
            b: r.num * m.b,
            c: r.den * m.c,
            d: r.den * m.d,
            pi_pow: m.pi_pow,
        }),
        Op::Div(r) => Some(Exact {
            a: r.den * m.a,
            b: r.den * m.b,
            c: r.num * m.c,
            d: r.num * m.d,
            pi_pow: m.pi_pow,
        }),
        Op::DivInto(r) => Some(Exact {
            a: r.num * m.c,
            b: r.num * m.d,
            c: r.den * m.a,
            d: r.den * m.b,
            pi_pow: m.pi_pow,
        }),
        Op::MulPi => if m.b == 0 && m.c == 0 {
            Some(Exact { pi_pow: m.pi_pow + 1, ..m })
        } else {
            None
        },
        Op::DivPi => if m.b == 0 && m.c == 0 {
            Some(Exact { pi_pow: m.pi_pow - 1, ..m })
        } else {
            None
        },
        Op::Exp10 => None,
        Op::Log10 => None,
    }
}

/// The map `m` followed by the steps of `ops` in order.
pub open spec fn run_from(m: Exact, ops: Seq<Op>) -> Option<Exact>
    decreases ops.len(),
{
    if ops.len() == 0 {
        Some(m)
    } else {
        match then_step(m, ops[0]) {
            Some(n) => run_from(n, ops.subrange(1, ops.len() as int)),
            None => None,
        }
    }
}

/// A formula as exact arithmetic, where it has that shape.
pub open spec fn exact_map(ops: Seq<Op>) -> Option<Exact> {
    run_from(exact_identity(), ops)
}

/// Whether a formula takes a power or a logarithm.
pub open spec fn is_transcendental(ops: Seq<Op>) -> bool {
    exists|i: int| 0 <= i < ops.len() && (ops[i] is Exp10 || ops[i] is Log10)
}

proof fn lemma_run_concat(m: Exact, p: Seq<Op>, q: Seq<Op>)
    ensures
        run_from(m, p + q) == match run_from(m, p) {
            Some(n) => run_from(n, q),
            None => None,
        },
    decreases p.len(),
{
    if p.len() == 0 {
        assert(p + q == q);
    } else {
        assert((p + q)[0] == p[0]);
        assert((p + q).subrange(1, (p + q).len() as int) == p.subrange(1, p.len() as int) + q);
        if let Some(n) = then_step(m, p[0]) {
            lemma_run_concat(n, p.subrange(1, p.len() as int), q);
        }
    }
}

proof fn lemma_run_short(m: Exact, ops: Seq<Op>)
    ensures
        ops.len() == 1 ==> run_from(m, ops) == then_step(m, ops[0]),
        ops.len() == 2 ==> run_from(m, ops) == match then_step(m, ops[0]) {
            Some(n) => then_step(n, ops[1]),
            None => None,
        },
        ops.len() == 3 ==> run_from(m, ops) == match then_step(m, ops[0]) {
            Some(n) => match then_step(n, ops[1]) {
                Some(k) => then_step(k, ops[2]),
                None => None,
            },
            None => None,
        },
{
    reveal_with_fuel(run_from, 4);
    if 1 <= ops.len() <= 3 {
        let r1 = ops.subrange(1, ops.len() as int);
        assert(r1.len() == ops.len() - 1);
        if let Some(n) = then_step(m, ops[0]) {
            if r1.len() > 0 {
                let r2 = r1.subrange(1, r1.len() as int);
                assert(r1[0] == ops[1]);
                assert(r2.len() == ops.len() - 2);
                if let Some(k) = then_step(n, r1[0]) {
                    if r2.len() > 0 {
                        assert(r2[0] == ops[2]);
                        assert(r2.subrange(1, r2.len() as int).len() == 0);
                    }
                }
            }
        }
    }
}

/// A scale by `r` followed by its inverse, in either order, is the
/// identity.
proof fn lemma_scale_round_trip(f: Seq<Op>, g: Seq<Op>, r: Ratio)
    requires
        r.num > 0,
        r.den > 0,
        (f == seq![Op::Mul(r)] && g == seq![Op::Div(r)]) || (f == seq![Op::Div(r)] && g == seq![
            Op::Mul(r),
        ]),
    ensures
        exact_map(f) matches Some(m) && (run_from(m, g) matches Some(k) && is_identity(k)),
{
    let (n, d) = (r.num as int, r.den as int);
    assert(n * 1 == n && d * 1 == d && n * 0 == 0 && d * 0 == 0) by (nonlinear_arith);
    assert(n * d == d * n && n * d != 0) by (nonlinear_arith)
        requires
            n > 0,
            d > 0,
    ;
    lemma_run_short(exact_identity(), f);
    assert(f.len() == 1 && g.len() == 1);
    if f[0] == Op::Mul(r) {
        let m = Exact { a: n, b: 0, c: 0, d: d, pi_pow: 0 };
        assert(exact_map(f) == Some(m));
        lemma_run_short(m, g);
        assert(run_from(m, g) == Some(Exact { a: d * n, b: 0, c: 0, d: n * d, pi_pow: 0 }));
    } else {
        let m = Exact { a: d, b: 0, c: 0, d: n, pi_pow: 0 };
        assert(exact_map(f) == Some(m));
        lemma_run_short(m, g);
        assert(run_from(m, g) == Some(Exact { a: n * d, b: 0, c: 0, d: d * n, pi_pow: 0 }));
    }
}

/// The two directions between `u` and `v` are in the table and take no
/// power or logarithm.
pub open spec fn round_trip_premise(u: Unit, v: Unit) -> bool {
    &&& table(u, v) is Some
    &&& table(v, u) is Some
    &&& !is_transcendental(table(u, v)->0)
    &&& !is_transcendental(table(v, u)->0)
}

/// Running the formula from `u` to `v` and then the one back gives the
/// identity map.
pub open spec fn round_trip_holds(u: Unit, v: Unit) -> bool {
    match exact_map(table(u, v)->0) {
        Some(m) => match run_from(m, table(v, u)->0) {
            Some(k) => is_identity(k),
            None => false,
        },
        None => false,
    }
}

// The round trip is checked entry by entry: one lemma for each unit that
// the table converts from, each naming the exact map after every step of
// the formula there and of the formula back.
proof fn lemma_round_trip_from_mg(v: Unit)
    requires
        round_trip_premise(Unit::Mg, v),
    ensures
        round_trip_holds(Unit::Mg, v),
{
    let f = table(Unit::Mg, v)->0;
    let g = table(v, Unit::Mg)->0;
    lemma_run_short(exact_identity(), f);
    if let Some(m) = exact_map(f) {
        lemma_run_short(m, g);
    }
    match v {
        Unit::G => {
            lemma_scale_round_trip(f, g, Ratio { num: 1000, den: 1 });
        },
        _ => {},
    }
}

proof fn lemma_round_trip_from_g(v: Unit)
    requires
        round_trip_premise(Unit::G, v),
    ensures
        round_trip_holds(Unit::G, v),
{
    let f = table(Unit::G, v)->0;
    let g = table(v, Unit::G)->0;
    lemma_run_short(exact_identity(), f);
    if let Some(m) = exact_map(f) {
        lemma_run_short(m, g);
    }
    match v {
        Unit::Mg => {
            lemma_scale_round_trip(f, g, Ratio { num: 1000, den: 1 });
        },
        Unit::Kg => {
            lemma_scale_round_trip(f, g, Ratio { num: 1000, den: 1 });
        },
        Unit::Oz => {
            lemma_scale_round_trip(f, g, Ratio { num: 283495, den: 10000 });
        },
        _ => {},
    }
}

proof fn lemma_round_trip_from_kg(v: Unit)
    requires
        round_trip_premise(Unit::Kg, v),
    ensures
        round_trip_holds(Unit::Kg, v),
{
    let f = table(Unit::Kg, v)->0;
    let g = table(v, Unit::Kg)->0;
    lemma_run_short(exact_identity(), f);
    if let Some(m) = exact_map(f) {
        lemma_run_short(m, g);
    }
    match v {
        Unit::G => {
            lemma_scale_round_trip(f, g, Ratio { num: 1000, den: 1 });
        },
        Unit::Tonne => {
            lemma_scale_round_trip(f, g, Ratio { num: 1000, den: 1 });
        },
        Unit::Lb => {
            lemma_scale_round_trip(f, g, Ratio { num: 453592, den: 1000000 });
        },
        _ => {},
    }
}

proof fn lemma_round_trip_from_tonne(v: Unit)
    requires
        round_trip_premise(Unit::Tonne, v),
    ensures
        round_trip_holds(Unit::Tonne, v),
{
    let f = table(Unit::Tonne, v)->0;
    let g = table(v, Unit::Tonne)->0;
    lemma_run_short(exact_identity(), f);
    if let Some(m) = exact_map(f) {
        lemma_run_short(m, g);
    }
    match v {
        Unit::Kg => {
            lemma_scale_round_trip(f, g, Ratio { num: 1000, den: 1 });
        },
        _ => {},
    }
}

proof fn lemma_round_trip_from_oz(v: Unit)
    requires
        round_trip_premise(Unit::Oz, v),
    ensures
        round_trip_holds(Unit::Oz, v),
{
    let f = table(Unit::Oz, v)->0;
    let g = table(v, Unit::Oz)->0;
    lemma_run_short(exact_identity(), f);
    if let Some(m) = exact_map(f) {
        lemma_run_short(m, g);
    }
    match v {
        Unit::G => {
            lemma_scale_round_trip(f, g, Ratio { num: 283495, den: 10000 });
        },
        _ => {},
    }
}

proof fn lemma_round_trip_from_lb(v: Unit)
    requires
        round_trip_premise(Unit::Lb, v),
    ensures
        round_trip_holds(Unit::Lb, v),
{
    let f = table(Unit::Lb, v)->0;
    let g = table(v, Unit::Lb)->0;
    lemma_run_short(exact_identity(), f);
    if let Some(m) = exact_map(f) {
        lemma_run_short(m, g);
    }
    match v {
        Unit::Kg => {
            lemma_scale_round_trip(f, g, Ratio { num: 453592, den: 1000000 });
        },
        _ => {},
    }
}

proof fn lemma_round_trip_from_mm(v: Unit)
    requires
        round_trip_premise(Unit::Mm, v),
    ensures
        round_trip_holds(Unit::Mm, v),
{
    let f = table(Unit::Mm, v)->0;
    let g = table(v, Unit::Mm)->0;
    lemma_run_short(exact_identity(), f);
    if let Some(m) = exact_map(f) {
        lemma_run_short(m, g);
    }
    match v {
        Unit::Cm => {
            lemma_scale_round_trip(f, g, Ratio { num: 10, den: 1 });
        },
        _ => {},
    }
}

proof fn lemma_round_trip_from_cm(v: Unit)
    requires
        round_trip_premise(Unit::Cm, v),
    ensures
        round_trip_holds(Unit::Cm, v),
{
    let f = table(Unit::Cm, v)->0;
    let g = table(v, Unit::Cm)->0;
    lemma_run_short(exact_identity(), f);
    if let Some(m) = exact_map(f) {
        lemma_run_short(m, g);
    }
    match v {
        Unit::Mm => {
            lemma_scale_round_trip(f, g, Ratio { num: 10, den: 1 });
        },
        Unit::M => {
            lemma_scale_round_trip(f, g, Ratio { num: 100, den: 1 });
        },
        Unit::Inch => {
            lemma_scale_round_trip(f, g, Ratio { num: 254, den: 100 });
        },
        _ => {},
    }
}

proof fn lemma_round_trip_from_m(v: Unit)
    requires
        round_trip_premise(Unit::M, v),
    ensures
        round_trip_holds(Unit::M, v),
{
    let f = table(Unit::M, v)->0;
    let g = table(v, Unit::M)->0;
    lemma_run_short(exact_identity(), f);
    if let Some(m) = exact_map(f) {
        lemma_run_short(m, g);
    }
    match v {
        Unit::Cm => {
            lemma_scale_round_trip(f, g, Ratio { num: 100, den: 1 });
        },
        Unit::Km => {
            lemma_scale_round_trip(f, g, Ratio { num: 1000, den: 1 });
        },
        Unit::Ft => {
            lemma_scale_round_trip(f, g, Ratio { num: 3048, den: 10000 });
        },
        Unit::Yard => {
            lemma_scale_round_trip(f, g, Ratio { num: 9144, den: 10000 });
        },
        _ => {},
    }
}

proof fn lemma_round_trip_from_km(v: Unit)
    requires
        round_trip_premise(Unit::Km, v),
    ensures
        round_trip_holds(Unit::Km, v),
{
    let f = table(Unit::Km, v)->0;
    let g = table(v, Unit::Km)->0;
    lemma_run_short(exact_identity(), f);
    if let Some(m) = exact_map(f) {
        lemma_run_short(m, g);
    }
    match v {
        Unit::M => {
            lemma_scale_round_trip(f, g, Ratio { num: 1000, den: 1 });
        },
        Unit::Mile => {
            lemma_scale_round_trip(f, g, Ratio { num: 160934, den: 100000 });
        },
        Unit::NauticalMile => {
            lemma_scale_round_trip(f, g, Ratio { num: 1852, den: 1000 });
        },
        _ => {},
    }
}

proof fn lemma_round_trip_from_inch(v: Unit)
    requires
        round_trip_premise(Unit::Inch, v),
    ensures
        round_trip_holds(Unit::Inch, v),
{
    let f = table(Unit::Inch, v)->0;
    let g = table(v, Unit::Inch)->0;
    lemma_run_short(exact_identity(), f);
    if let Some(m) = exact_map(f) {
        lemma_run_short(m, g);
    }
    match v {
        Unit::Cm => {
            lemma_scale_round_trip(f, g, Ratio { num: 254, den: 100 });
        },
        _ => {},
    }
}

proof fn lemma_round_trip_from_ft(v: Unit)
    requires
        round_trip_premise(Unit::Ft, v),
    ensures
        round_trip_holds(Unit::Ft, v),
{
    let f = table(Unit::Ft, v)->0;
    let g = table(v, Unit::Ft)->0;
    lemma_run_short(exact_identity(), f);
    if let Some(m) = exact_map(f) {
        lemma_run_short(m, g);
    }
    match v {
        Unit::M => {
            lemma_scale_round_trip(f, g, Ratio { num: 3048, den: 10000 });
        },
        _ => {},
    }
}

proof fn lemma_round_trip_from_yard(v: Unit)
    requires
        round_trip_premise(Unit::Yard, v),
    ensures
        round_trip_holds(Unit::Yard, v),
{
    let f = table(Unit::Yard, v)->0;
    let g = table(v, Unit::Yard)->0;
    lemma_run_short(exact_identity(), f);
    if let Some(m) = exact_map(f) {
        lemma_run_short(m, g);
    }
    match v {
        Unit::M => {
            lemma_scale_round_trip(f, g, Ratio { num: 9144, den: 10000 });
        },
        _ => {},
    }
}

proof fn lemma_round_trip_from_mile(v: Unit)
    requires
        round_trip_premise(Unit::Mile, v),
    ensures
        round_trip_holds(Unit::Mile, v),
{
    let f = table(Unit::Mile, v)->0;
    let g = table(v, Unit::Mile)->0;
    lemma_run_short(exact_identity(), f);
    if let Some(m) = exact_map(f) {
        lemma_run_short(m, g);
    }
    match v {
        Unit::Km => {
            lemma_scale_round_trip(f, g, Ratio { num: 160934, den: 100000 });
        },
        _ => {},
    }
}

proof fn lemma_round_trip_from_sqm(v: Unit)
    requires
        round_trip_premise(Unit::Sqm, v),
    ensures
        round_trip_holds(Unit::Sqm, v),
{
    let f = table(Unit::Sqm, v)->0;
    let g = table(v, Unit::Sqm)->0;
    lemma_run_short(exact_identity(), f);
    if let Some(m) = exact_map(f) {
        lemma_run_short(m, g);
    }
    match v {
        Unit::Sqft => {
            lemma_scale_round_trip(f, g, Ratio { num: 107639, den: 10000 });
        },
        _ => {},
    }
}

proof fn lemma_round_trip_from_sqft(v: Unit)
    requires
        round_trip_premise(Unit::Sqft, v),
    ensures
        round_trip_holds(Unit::Sqft, v),
{
    let f = table(Unit::Sqft, v)->0;
    let g = table(v, Unit::Sqft)->0;
    lemma_run_short(exact_identity(), f);
    if let Some(m) = exact_map(f) {
        lemma_run_short(m, g);
    }
    match v {
        Unit::Sqm => {
            lemma_scale_round_trip(f, g, Ratio { num: 107639, den: 10000 });
        },
        _ => {},
    }
}

proof fn lemma_round_trip_from_ml(v: Unit)
    requires
        round_trip_premise(Unit::Ml, v),
    ensures
        round_trip_holds(Unit::Ml, v),
{
    let f = table(Unit::Ml, v)->0;
    let g = table(v, Unit::Ml)->0;
    lemma_run_short(exact_identity(), f);
    if let Some(m) = exact_map(f) {
        lemma_run_short(m, g);
    }
    match v {
        Unit::L => {
            lemma_scale_round_trip(f, g, Ratio { num: 1000, den: 1 });
        },
        _ => {},
    }
}

proof fn lemma_round_trip_from_l(v: Unit)
    requires
        round_trip_premise(Unit::L, v),
    ensures
        round_trip_holds(Unit::L, v),
{
    let f = table(Unit::L, v)->0;
    let g = table(v, Unit::L)->0;
    lemma_run_short(exact_identity(), f);
    if let Some(m) = exact_map(f) {
        lemma_run_short(m, g);
    }
    match v {
        Unit::Ml => {
            lemma_scale_round_trip(f, g, Ratio { num: 1000, den: 1 });
        },
        Unit::Gal => {
            lemma_scale_round_trip(f, g, Ratio { num: 378541, den: 100000 });
        },
        _ => {},
    }
}

proof fn lemma_round_trip_from_gal(v: Unit)
    requires
        round_trip_premise(Unit::Gal, v),
    ensures
        round_trip_holds(Unit::Gal, v),
{
    let f = table(Unit::Gal, v)->0;
    let g = table(v, Unit::Gal)->0;
    lemma_run_short(exact_identity(), f);
    if let Some(m) = exact_map(f) {
        lemma_run_short(m, g);
    }
    match v {
        Unit::L => {
            lemma_scale_round_trip(f, g, Ratio { num: 378541, den: 100000 });
        },
        _ => {},
    }
}

proof fn lemma_round_trip_from_celsius(v: Unit)
    requires
        round_trip_premise(Unit::Celsius, v),
    ensures
        round_trip_holds(Unit::Celsius, v),
{
    let f = table(Unit::Celsius, v)->0;
    let g = table(v, Unit::Celsius)->0;
    lemma_run_short(exact_identity(), f);
    if let Some(m) = exact_map(f) {
        lemma_run_short(m, g);
    }
    match v {
        Unit::Fahrenheit => {
            assert(then_step(
                Exact { a: 1, b: 0, c: 0, d: 1, pi_pow: 0 },
                Op::Mul(Ratio { num: 9, den: 1 }),
            ) == Some(Exact { a: 9, b: 0, c: 0, d: 1, pi_pow: 0 })) by (nonlinear_arith);
            assert(then_step(
                Exact { a: 9, b: 0, c: 0, d: 1, pi_pow: 0 },
                Op::Div(Ratio { num: 5, den: 1 }),
            ) == Some(Exact { a: 9, b: 0, c: 0, d: 5, pi_pow: 0 })) by (nonlinear_arith);
            assert(then_step(
                Exact { a: 9, b: 0, c: 0, d: 5, pi_pow: 0 },
                Op::Add(Ratio { num: 32, den: 1 }),
            ) == Some(Exact { a: 9, b: 160, c: 0, d: 5, pi_pow: 0 })) by (nonlinear_arith);
            assert(then_step(
                Exact { a: 9, b: 160, c: 0, d: 5, pi_pow: 0 },
                Op::Sub(Ratio { num: 32, den: 1 }),
            ) == Some(Exact { a: 9, b: 0, c: 0, d: 5, pi_pow: 0 })) by (nonlinear_arith);
            assert(then_step(
                Exact { a: 9, b: 0, c: 0, d: 5, pi_pow: 0 },
                Op::Mul(Ratio { num: 5, den: 1 }),
            ) == Some(Exact { a: 45, b: 0, c: 0, d: 5, pi_pow: 0 })) by (nonlinear_arith);
            assert(then_step(
                Exact { a: 45, b: 0, c: 0, d: 5, pi_pow: 0 },
                Op::Div(Ratio { num: 9, den: 1 }),
            ) == Some(Exact { a: 45, b: 0, c: 0, d: 45, pi_pow: 0 })) by (nonlinear_arith);
        },
        Unit::Kelvin => {
            assert(then_step(
                Exact { a: 1, b: 0, c: 0, d: 1, pi_pow: 0 },
                Op::Add(Ratio { num: 27315, den: 100 }),
            ) == Some(Exact { a: 100, b: 27315, c: 0, d: 100, pi_pow: 0 })) by (nonlinear_arith);
            assert(then_step(
                Exact { a: 100, b: 27315, c: 0, d: 100, pi_pow: 0 },
                Op::Sub(Ratio { num: 27315, den: 100 }),
            ) == Some(Exact { a: 10000, b: 0, c: 0, d: 10000, pi_pow: 0 })) by (nonlinear_arith);
        },
        _ => {},
    }
}

proof fn lemma_round_trip_from_fahrenheit(v: Unit)
    requires
        round_trip_premise(Unit::Fahrenheit, v),
    ensures
        round_trip_holds(Unit::Fahrenheit, v),
{
    let f = table(Unit::Fahrenheit, v)->0;
    let g = table(v, Unit::Fahrenheit)->0;
    lemma_run_short(exact_identity(), f);
    if let Some(m) = exact_map(f) {
        lemma_run_short(m, g);
    }
    match v {
        Unit::Celsius => {
            assert(then_step(
                Exact { a: 1, b: 0, c: 0, d: 1, pi_pow: 0 },
                Op::Sub(Ratio { num: 32, den: 1 }),
            ) == Some(Exact { a: 1, b: -32, c: 0, d: 1, pi_pow: 0 })) by (nonlinear_arith);
            assert(then_step(
                Exact { a: 1, b: -32, c: 0, d: 1, pi_pow: 0 },
                Op::Mul(Ratio { num: 5, den: 1 }),
            ) == Some(Exact { a: 5, b: -160, c: 0, d: 1, pi_pow: 0 })) by (nonlinear_arith);
            assert(then_step(
                Exact { a: 5, b: -160, c: 0, d: 1, pi_pow: 0 },
                Op::Div(Ratio { num: 9, den: 1 }),
            ) == Some(Exact { a: 5, b: -160, c: 0, d: 9, pi_pow: 0 })) by (nonlinear_arith);
            assert(then_step(
                Exact { a: 5, b: -160, c: 0, d: 9, pi_pow: 0 },
                Op::Mul(Ratio { num: 9, den: 1 }),
            ) == Some(Exact { a: 45, b: -1440, c: 0, d: 9, pi_pow: 0 })) by (nonlinear_arith);
            assert(then_step(
                Exact { a: 45, b: -1440, c: 0, d: 9, pi_pow: 0 },
                Op::Div(Ratio { num: 5, den: 1 }),
            ) == Some(Exact { a: 45, b: -1440, c: 0, d: 45, pi_pow: 0 })) by (nonlinear_arith);
            assert(then_step(
                Exact { a: 45, b: -1440, c: 0, d: 45, pi_pow: 0 },
                Op::Add(Ratio { num: 32, den: 1 }),
            ) == Some(Exact { a: 45, b: 0, c: 0, d: 45, pi_pow: 0 })) by (nonlinear_arith);
        },
        Unit::Kelvin => {
            assert(then_step(
                Exact { a: 1, b: 0, c: 0, d: 1, pi_pow: 0 },
                Op::Add(Ratio { num: 45967, den: 100 }),
            ) == Some(Exact { a: 100, b: 45967, c: 0, d: 100, pi_pow: 0 })) by (nonlinear_arith);
            assert(then_step(
                Exact { a: 100, b: 45967, c: 0, d: 100, pi_pow: 0 },
                Op::Div(Ratio { num: 18, den: 10 }),
            ) == Some(Exact { a: 1000, b: 459670, c: 0, d: 1800, pi_pow: 0 })) by (nonlinear_arith);
            assert(then_step(
                Exact { a: 1000, b: 459670, c: 0, d: 1800, pi_pow: 0 },
                Op::Mul(Ratio { num: 18, den: 10 }),
            ) == Some(Exact { a: 18000, b: 8274060, c: 0, d: 18000, pi_pow: 0 })) by (nonlinear_arith);
            assert(then_step(
                Exact { a: 18000, b: 8274060, c: 0, d: 18000, pi_pow: 0 },
                Op::Sub(Ratio { num: 45967, den: 100 }),
            ) == Some(Exact { a: 1800000, b: 0, c: 0, d: 1800000, pi_pow: 0 })) by (nonlinear_arith);
        },
        _ => {},
    }
}

proof fn lemma_round_trip_from_kelvin(v: Unit)
    requires
        round_trip_premise(Unit::Kelvin, v),
    ensures
        round_trip_holds(Unit::Kelvin, v),
{
    let f = table(Unit::Kelvin, v)->0;
    let g = table(v, Unit::Kelvin)->0;
    lemma_run_short(exact_identity(), f);
    if let Some(m) = exact_map(f) {
        lemma_run_short(m, g);
    }
    match v {
        Unit::Celsius => {
            assert(then_step(
                Exact { a: 1, b: 0, c: 0, d: 1, pi_pow: 0 },
                Op::Sub(Ratio { num: 27315, den: 100 }),
            ) == Some(Exact { a: 100, b: -27315, c: 0, d: 100, pi_pow: 0 })) by (nonlinear_arith);
            assert(then_step(
                Exact { a: 100, b: -27315, c: 0, d: 100, pi_pow: 0 },
                Op::Add(Ratio { num: 27315, den: 100 }),
            ) == Some(Exact { a: 10000, b: 0, c: 0, d: 10000, pi_pow: 0 })) by (nonlinear_arith);
        },
        Unit::Fahrenheit => {
            assert(then_step(
                Exact { a: 1, b: 0, c: 0, d: 1, pi_pow: 0 },
                Op::Mul(Ratio { num: 18, den: 10 }),
            ) == Some(Exact { a: 18, b: 0, c: 0, d: 10, pi_pow: 0 })) by (nonlinear_arith);
            assert(then_step(
                Exact { a: 18, b: 0, c: 0, d: 10, pi_pow: 0 },
                Op::Sub(Ratio { num: 45967, den: 100 }),
            ) == Some(Exact { a: 1800, b: -459670, c: 0, d: 1000, pi_pow: 0 })) by (nonlinear_arith);
            assert(then_step(
                Exact { a: 1800, b: -459670, c: 0, d: 1000, pi_pow: 0 },
                Op::Add(Ratio { num: 45967, den: 100 }),
            ) == Some(Exact { a: 180000, b: 0, c: 0, d: 100000, pi_pow: 0 })) by (nonlinear_arith);
            assert(then_step(
                Exact { a: 180000, b: 0, c: 0, d: 100000, pi_pow: 0 },
                Op::Div(Ratio { num: 18, den: 10 }),
            ) == Some(Exact { a: 1800000, b: 0, c: 0, d: 1800000, pi_pow: 0 })) by (nonlinear_arith);
        },
        _ => {},
    }
}

proof fn lemma_round_trip_from_kmh(v: Unit)
    requires
        round_trip_premise(Unit::Kmh, v),
    ensures
        round_trip_holds(Unit::Kmh, v),
{
    let f = table(Unit::Kmh, v)->0;
    let g = table(v, Unit::Kmh)->0;
    lemma_run_short(exact_identity(), f);
    if let Some(m) = exact_map(f) {
        lemma_run_short(m, g);
    }
    match v {
        Unit::Mph => {
            lemma_scale_round_trip(f, g, Ratio { num: 160934, den: 100000 });
        },
        Unit::Ms => {
            lemma_scale_round_trip(f, g, Ratio { num: 36, den: 10 });
        },
        Unit::Knot => {
            lemma_scale_round_trip(f, g, Ratio { num: 1852, den: 1000 });
        },
        _ => {},
    }
}

proof fn lemma_round_trip_from_mph(v: Unit)
    requires
        round_trip_premise(Unit::Mph, v),
    ensures
        round_trip_holds(Unit::Mph, v),
{
    let f = table(Unit::Mph, v)->0;
    let g = table(v, Unit::Mph)->0;
    lemma_run_short(exact_identity(), f);
    if let Some(m) = exact_map(f) {
        lemma_run_short(m, g);
    }
    match v {
        Unit::Kmh => {
            lemma_scale_round_trip(f, g, Ratio { num: 160934, den: 100000 });
        },
        _ => {},
    }
}

proof fn lemma_round_trip_from_ms(v: Unit)
    requires
        round_trip_premise(Unit::Ms, v),
    ensures
        round_trip_holds(Unit::Ms, v),
{
    let f = table(Unit::Ms, v)->0;
    let g = table(v, Unit::Ms)->0;
    lemma_run_short(exact_identity(), f);
    if let Some(m) = exact_map(f) {
        lemma_run_short(m, g);
    }
    match v {
        Unit::Kmh => {
            lemma_scale_round_trip(f, g, Ratio { num: 36, den: 10 });
        },
        _ => {},
    }
}

proof fn lemma_round_trip_from_w(v: Unit)
    requires
        round_trip_premise(Unit::W, v),
    ensures
        round_trip_holds(Unit::W, v),
{
    let f = table(Unit::W, v)->0;
    let g = table(v, Unit::W)->0;
    lemma_run_short(exact_identity(), f);
    if let Some(m) = exact_map(f) {
        lemma_run_short(m, g);
    }
    match v {
        Unit::Kw => {
            lemma_scale_round_trip(f, g, Ratio { num: 1000, den: 1 });
        },
        _ => {},
    }
}

proof fn lemma_round_trip_from_kw(v: Unit)
    requires
        round_trip_premise(Unit::Kw, v),
    ensures
        round_trip_holds(Unit::Kw, v),
{
    let f = table(Unit::Kw, v)->0;
    let g = table(v, Unit::Kw)->0;
    lemma_run_short(exact_identity(), f);
    if let Some(m) = exact_map(f) {
        lemma_run_short(m, g);
    }
    match v {
        Unit::W => {
            lemma_scale_round_trip(f, g, Ratio { num: 1000, den: 1 });
        },
        _ => {},
    }
}

proof fn lemma_round_trip_from_pa(v: Unit)
    requires
        round_trip_premise(Unit::Pa, v),
    ensures
        round_trip_holds(Unit::Pa, v),
{
    let f = table(Unit::Pa, v)->0;
    let g = table(v, Unit::Pa)->0;
    lemma_run_short(exact_identity(), f);
    if let Some(m) = exact_map(f) {
        lemma_run_short(m, g);
    }
    match v {
        Unit::Kpa => {
            lemma_scale_round_trip(f, g, Ratio { num: 1000, den: 1 });
        },
        Unit::Bar => {
            lemma_scale_round_trip(f, g, Ratio { num: 100000, den: 1 });
        },
        Unit::Psi => {
            lemma_scale_round_trip(f, g, Ratio { num: 689476, den: 100 });
        },
        _ => {},
    }
}

proof fn lemma_round_trip_from_kpa(v: Unit)
    requires
        round_trip_premise(Unit::Kpa, v),
    ensures
        round_trip_holds(Unit::Kpa, v),
{
    let f = table(Unit::Kpa, v)->0;
    let g = table(v, Unit::Kpa)->0;
    lemma_run_short(exact_identity(), f);
    if let Some(m) = exact_map(f) {
        lemma_run_short(m, g);
    }
    match v {
        Unit::Pa => {
            lemma_scale_round_trip(f, g, Ratio { num: 1000, den: 1 });
        },
        _ => {},
    }
}

proof fn lemma_round_trip_from_bar(v: Unit)
    requires
        round_trip_premise(Unit::Bar, v),
    ensures
        round_trip_holds(Unit::Bar, v),
{
    let f = table(Unit::Bar, v)->0;
    let g = table(v, Unit::Bar)->0;
    lemma_run_short(exact_identity(), f);
    if let Some(m) = exact_map(f) {
        lemma_run_short(m, g);
    }
    match v {
        Unit::Pa => {
            lemma_scale_round_trip(f, g, Ratio { num: 100000, den: 1 });
        },
        _ => {},
    }
}

proof fn lemma_round_trip_from_psi(v: Unit)
    requires
        round_trip_premise(Unit::Psi, v),
    ensures
        round_trip_holds(Unit::Psi, v),
{
    let f = table(Unit::Psi, v)->0;
    let g = table(v, Unit::Psi)->0;
    lemma_run_short(exact_identity(), f);
    if let Some(m) = exact_map(f) {
        lemma_run_short(m, g);
    }
    match v {
        Unit::Pa => {
            lemma_scale_round_trip(f, g, Ratio { num: 689476, den: 100 });
        },
        _ => {},
    }
}

proof fn lemma_round_trip_from_j(v: Unit)
    requires
        round_trip_premise(Unit::J, v),
    ensures
        round_trip_holds(Unit::J, v),
{
    let f = table(Unit::J, v)->0;
    let g = table(v, Unit::J)->0;
    lemma_run_short(exact_identity(), f);
    if let Some(m) = exact_map(f) {
        lemma_run_short(m, g);
    }
    match v {
        Unit::Kj => {
            lemma_scale_round_trip(f, g, Ratio { num: 1000, den: 1 });
        },
        Unit::Cal => {
            lemma_scale_round_trip(f, g, Ratio { num: 4184, den: 1000 });
        },
        _ => {},
    }
}

proof fn lemma_round_trip_from_kj(v: Unit)
    requires
        round_trip_premise(Unit::Kj, v),
    ensures
        round_trip_holds(Unit::Kj, v),
{
    let f = table(Unit::Kj, v)->0;
    let g = table(v, Unit::Kj)->0;
    lemma_run_short(exact_identity(), f);
    if let Some(m) = exact_map(f) {
        lemma_run_short(m, g);
    }
    match v {
        Unit::J => {
            lemma_scale_round_trip(f, g, Ratio { num: 1000, den: 1 });
        },
        _ => {},
    }
}

proof fn lemma_round_trip_from_cal(v: Unit)
    requires
        round_trip_premise(Unit::Cal, v),
    ensures
        round_trip_holds(Unit::Cal, v),
{
    let f = table(Unit::Cal, v)->0;
    let g = table(v, Unit::Cal)->0;
    lemma_run_short(exact_identity(), f);
    if let Some(m) = exact_map(f) {
        lemma_run_short(m, g);
    }
    match v {
        Unit::J => {
            lemma_scale_round_trip(f, g, Ratio { num: 4184, den: 1000 });
        },
        _ => {},
    }
}

proof fn lemma_round_trip_from_bit(v: Unit)
    requires
        round_trip_premise(Unit::Bit, v),
    ensures
        round_trip_holds(Unit::Bit, v),
{
    let f = table(Unit::Bit, v)->0;
    let g = table(v, Unit::Bit)->0;
    lemma_run_short(exact_identity(), f);
    if let Some(m) = exact_map(f) {
        lemma_run_short(m, g);
    }
    match v {
        Unit::Byte => {
            lemma_scale_round_trip(f, g, Ratio { num: 8, den: 1 });
        },
        _ => {},
    }
}

proof fn lemma_round_trip_from_byte(v: Unit)
    requires
        round_trip_premise(Unit::Byte, v),
    ensures
        round_trip_holds(Unit::Byte, v),
{
    let f = table(Unit::Byte, v)->0;
    let g = table(v, Unit::Byte)->0;
    lemma_run_short(exact_identity(), f);
    if let Some(m) = exact_map(f) {
        lemma_run_short(m, g);
    }
    match v {
        Unit::Bit => {
            lemma_scale_round_trip(f, g, Ratio { num: 8, den: 1 });
        },
        _ => {},
    }
}

proof fn lemma_round_trip_from_kb(v: Unit)
    requires
        round_trip_premise(Unit::Kb, v),
    ensures
        round_trip_holds(Unit::Kb, v),
{
    let f = table(Unit::Kb, v)->0;
    let g = table(v, Unit::Kb)->0;
    lemma_run_short(exact_identity(), f);
    if let Some(m) = exact_map(f) {
        lemma_run_short(m, g);
    }
    match v {
        Unit::Mb => {
            lemma_scale_round_trip(f, g, Ratio { num: 1024, den: 1 });
        },
        _ => {},
    }
}

proof fn lemma_round_trip_from_mb(v: Unit)
    requires
        round_trip_premise(Unit::Mb, v),
    ensures
        round_trip_holds(Unit::Mb, v),
{
    let f = table(Unit::Mb, v)->0;
    let g = table(v, Unit::Mb)->0;
    lemma_run_short(exact_identity(), f);
    if let Some(m) = exact_map(f) {
        lemma_run_short(m, g);
    }
    match v {
        Unit::Gb => {
            lemma_scale_round_trip(f, g, Ratio { num: 1024, den: 1 });
        },
        Unit::Kb => {
            lemma_scale_round_trip(f, g, Ratio { num: 1024, den: 1 });
        },
        _ => {},
    }
}

proof fn lemma_round_trip_from_gb(v: Unit)
    requires
        round_trip_premise(Unit::Gb, v),
    ensures
        round_trip_holds(Unit::Gb, v),
{
    let f = table(Unit::Gb, v)->0;
    let g = table(v, Unit::Gb)->0;
    lemma_run_short(exact_identity(), f);
    if let Some(m) = exact_map(f) {
        lemma_run_short(m, g);
    }
    match v {
        Unit::Tb => {
            lemma_scale_round_trip(f, g, Ratio { num: 1024, den: 1 });
        },
        Unit::Mb => {
            lemma_scale_round_trip(f, g, Ratio { num: 1024, den: 1 });
        },
        _ => {},
    }
}

proof fn lemma_round_trip_from_tb(v: Unit)
    requires
        round_trip_premise(Unit::Tb, v),
    ensures
        round_trip_holds(Unit::Tb, v),
{
    let f = table(Unit::Tb, v)->0;
    let g = table(v, Unit::Tb)->0;
    lemma_run_short(exact_identity(), f);
    if let Some(m) = exact_map(f) {
        lemma_run_short(m, g);
    }
    match v {
        Unit::Gb => {
            lemma_scale_round_trip(f, g, Ratio { num: 1024, den: 1 });
        },
        _ => {},
    }
}

proof fn lemma_round_trip_from_sec(v: Unit)
    requires
        round_trip_premise(Unit::Sec, v),
    ensures
        round_trip_holds(Unit::Sec, v),
{
    let f = table(Unit::Sec, v)->0;
    let g = table(v, Unit::Sec)->0;
    lemma_run_short(exact_identity(), f);
    if let Some(m) = exact_map(f) {
        lemma_run_short(m, g);
    }
    match v {
        Unit::Min => {
            lemma_scale_round_trip(f, g, Ratio { num: 60, den: 1 });
        },
        _ => {},
    }
}

proof fn lemma_round_trip_from_min(v: Unit)
    requires
        round_trip_premise(Unit::Min, v),
    ensures
        round_trip_holds(Unit::Min, v),
{
    let f = table(Unit::Min, v)->0;
    let g = table(v, Unit::Min)->0;
    lemma_run_short(exact_identity(), f);
    if let Some(m) = exact_map(f) {
        lemma_run_short(m, g);
    }
    match v {
        Unit::Sec => {
            lemma_scale_round_trip(f, g, Ratio { num: 60, den: 1 });
        },
        Unit::Hr => {
            lemma_scale_round_trip(f, g, Ratio { num: 60, den: 1 });
        },
        _ => {},
    }
}

proof fn lemma_round_trip_from_hr(v: Unit)
    requires
        round_trip_premise(Unit::Hr, v),
    ensures
        round_trip_holds(Unit::Hr, v),
{
    let f = table(Unit::Hr, v)->0;
    let g = table(v, Unit::Hr)->0;
    lemma_run_short(exact_identity(), f);
    if let Some(m) = exact_map(f) {
        lemma_run_short(m, g);
    }
    match v {
        Unit::Min => {
            lemma_scale_round_trip(f, g, Ratio { num: 60, den: 1 });
        },
        Unit::Day => {
            lemma_scale_round_trip(f, g, Ratio { num: 24, den: 1 });
        },
        _ => {},
    }
}

proof fn lemma_round_trip_from_day(v: Unit)
    requires
        round_trip_premise(Unit::Day, v),
    ensures
        round_trip_holds(Unit::Day, v),
{
    let f = table(Unit::Day, v)->0;
    let g = table(v, Unit::Day)->0;
    lemma_run_short(exact_identity(), f);
    if let Some(m) = exact_map(f) {
        lemma_run_short(m, g);
    }
    match v {
        Unit::Hr => {
            lemma_scale_round_trip(f, g, Ratio { num: 24, den: 1 });
        },
        _ => {},
    }
}

proof fn lemma_round_trip_from_dbm(v: Unit)
    requires
        round_trip_premise(Unit::Dbm, v),
    ensures
        round_trip_holds(Unit::Dbm, v),
{
    let f = table(Unit::Dbm, v)->0;
    let g = table(v, Unit::Dbm)->0;
    lemma_run_short(exact_identity(), f);
    if let Some(m) = exact_map(f) {
        lemma_run_short(m, g);
    }
    match v {
        Unit::Watt => {
            assert(f[1] is Exp10 || f[1] is Log10);
        },
        _ => {},
    }
}

proof fn lemma_round_trip_from_watt(v: Unit)
    requires
        round_trip_premise(Unit::Watt, v),
    ensures
        round_trip_holds(Unit::Watt, v),
{
    let f = table(Unit::Watt, v)->0;
    let g = table(v, Unit::Watt)->0;
    lemma_run_short(exact_identity(), f);
    if let Some(m) = exact_map(f) {
        lemma_run_short(m, g);
    }
    match v {
        Unit::Dbm => {
            assert(f[1] is Exp10 || f[1] is Log10);
        },
        _ => {},
    }
}

proof fn lemma_round_trip_from_gy(v: Unit)
    requires
        round_trip_premise(Unit::Gy, v),
    ensures
        round_trip_holds(Unit::Gy, v),
{
    let f = table(Unit::Gy, v)->0;
    let g = table(v, Unit::Gy)->0;
    lemma_run_short(exact_identity(), f);
    if let Some(m) = exact_map(f) {
        lemma_run_short(m, g);
    }
    match v {
        Unit::Rad => {
            lemma_scale_round_trip(f, g, Ratio { num: 100, den: 1 });
        },
        _ => {},
    }
}

proof fn lemma_round_trip_from_rad(v: Unit)
    requires
        round_trip_premise(Unit::Rad, v),
    ensures
        round_trip_holds(Unit::Rad, v),
{
    let f = table(Unit::Rad, v)->0;
    let g = table(v, Unit::Rad)->0;
    lemma_run_short(exact_identity(), f);
    if let Some(m) = exact_map(f) {
        lemma_run_short(m, g);
    }
    match v {
        Unit::Gy => {
            lemma_scale_round_trip(f, g, Ratio { num: 100, den: 1 });
        },
        Unit::Deg => {
            assert(then_step(
                Exact { a: 1, b: 0, c: 0, d: 1, pi_pow: 0 },
                Op::Mul(Ratio { num: 180, den: 1 }),
            ) == Some(Exact { a: 180, b: 0, c: 0, d: 1, pi_pow: 0 })) by (nonlinear_arith);
            assert(then_step(
                Exact { a: 180, b: 0, c: 0, d: 1, pi_pow: 0 },
                Op::DivPi,
            ) == Some(Exact { a: 180, b: 0, c: 0, d: 1, pi_pow: -1 })) by (nonlinear_arith);
            assert(then_step(
                Exact { a: 180, b: 0, c: 0, d: 1, pi_pow: -1 },
                Op::MulPi,
            ) == Some(Exact { a: 180, b: 0, c: 0, d: 1, pi_pow: 0 })) by (nonlinear_arith);
            assert(then_step(
                Exact { a: 180, b: 0, c: 0, d: 1, pi_pow: 0 },
                Op::Div(Ratio { num: 180, den: 1 }),
            ) == Some(Exact { a: 180, b: 0, c: 0, d: 180, pi_pow: 0 })) by (nonlinear_arith);
        },
        _ => {},
    }
}

proof fn lemma_round_trip_from_sv(v: Unit)
    requires
        round_trip_premise(Unit::Sv, v),
    ensures
        round_trip_holds(Unit::Sv, v),
{
    let f = table(Unit::Sv, v)->0;
    let g = table(v, Unit::Sv)->0;
    lemma_run_short(exact_identity(), f);
    if let Some(m) = exact_map(f) {
        lemma_run_short(m, g);
    }
    match v {
        Unit::Rem => {
            lemma_scale_round_trip(f, g, Ratio { num: 100, den: 1 });
        },
        _ => {},
    }
}

proof fn lemma_round_trip_from_rem(v: Unit)
    requires
        round_trip_premise(Unit::Rem, v),
    ensures
        round_trip_holds(Unit::Rem, v),
{
    let f = table(Unit::Rem, v)->0;
    let g = table(v, Unit::Rem)->0;
    lemma_run_short(exact_identity(), f);
    if let Some(m) = exact_map(f) {
        lemma_run_short(m, g);
    }
    match v {
        Unit::Sv => {
            lemma_scale_round_trip(f, g, Ratio { num: 100, den: 1 });
        },
        _ => {},
    }
}

proof fn lemma_round_trip_from_amp(v: Unit)
    requires
        round_trip_premise(Unit::Amp, v),
    ensures
        round_trip_holds(Unit::Amp, v),
{
    let f = table(Unit::Amp, v)->0;
    let g = table(v, Unit::Amp)->0;
    lemma_run_short(exact_identity(), f);
    if let Some(m) = exact_map(f) {
        lemma_run_short(m, g);
    }
    match v {
        Unit::Milliamp => {
            lemma_scale_round_trip(f, g, Ratio { num: 1000, den: 1 });
        },
        _ => {},
    }
}

proof fn lemma_round_trip_from_milliamp(v: Unit)
    requires
        round_trip_premise(Unit::Milliamp, v),
    ensures
        round_trip_holds(Unit::Milliamp, v),
{
    let f = table(Unit::Milliamp, v)->0;
    let g = table(v, Unit::Milliamp)->0;
    lemma_run_short(exact_identity(), f);
    if let Some(m) = exact_map(f) {
        lemma_run_short(m, g);
    }
    match v {
        Unit::Amp => {
            lemma_scale_round_trip(f, g, Ratio { num: 1000, den: 1 });
        },
        _ => {},
    }
}

proof fn lemma_round_trip_from_volt(v: Unit)
    requires
        round_trip_premise(Unit::Volt, v),
    ensures
        round_trip_holds(Unit::Volt, v),
{
    let f = table(Unit::Volt, v)->0;
    let g = table(v, Unit::Volt)->0;
    lemma_run_short(exact_identity(), f);
    if let Some(m) = exact_map(f) {
        lemma_run_short(m, g);
    }
    match v {
        Unit::Millivolt => {
            lemma_scale_round_trip(f, g, Ratio { num: 1000, den: 1 });
        },
        _ => {},
    }
}

proof fn lemma_round_trip_from_millivolt(v: Unit)
    requires
        round_trip_premise(Unit::Millivolt, v),
    ensures
        round_trip_holds(Unit::Millivolt, v),
{
    let f = table(Unit::Millivolt, v)->0;
    let g = table(v, Unit::Millivolt)->0;
    lemma_run_short(exact_identity(), f);
    if let Some(m) = exact_map(f) {
        lemma_run_short(m, g);
    }
    match v {
        Unit::Volt => {
            lemma_scale_round_trip(f, g, Ratio { num: 1000, den: 1 });
        },
        _ => {},
    }
}

proof fn lemma_round_trip_from_ohm(v: Unit)
    requires
        round_trip_premise(Unit::Ohm, v),
    ensures
        round_trip_holds(Unit::Ohm, v),
{
    let f = table(Unit::Ohm, v)->0;
    let g = table(v, Unit::Ohm)->0;
    lemma_run_short(exact_identity(), f);
    if let Some(m) = exact_map(f) {
        lemma_run_short(m, g);
    }
    match v {
        Unit::Kiloohm => {
            lemma_scale_round_trip(f, g, Ratio { num: 1000, den: 1 });
        },
        _ => {},
    }
}

proof fn lemma_round_trip_from_kiloohm(v: Unit)
    requires
        round_trip_premise(Unit::Kiloohm, v),
    ensures
        round_trip_holds(Unit::Kiloohm, v),
{
    let f = table(Unit::Kiloohm, v)->0;
    let g = table(v, Unit::Kiloohm)->0;
    lemma_run_short(exact_identity(), f);
    if let Some(m) = exact_map(f) {
        lemma_run_short(m, g);
    }
    match v {
        Unit::Ohm => {
            lemma_scale_round_trip(f, g, Ratio { num: 1000, den: 1 });
        },
        _ => {},
    }
}

proof fn lemma_round_trip_from_farad(v: Unit)
    requires
        round_trip_premise(Unit::Farad, v),
    ensures
        round_trip_holds(Unit::Farad, v),
{
    let f = table(Unit::Farad, v)->0;
    let g = table(v, Unit::Farad)->0;
    lemma_run_short(exact_identity(), f);
    if let Some(m) = exact_map(f) {
        lemma_run_short(m, g);
    }
    match v {
        Unit::Microfarad => {
            lemma_scale_round_trip(f, g, Ratio { num: 1000000, den: 1 });
        },
        _ => {},
    }
}

proof fn lemma_round_trip_from_microfarad(v: Unit)
    requires
        round_trip_premise(Unit::Microfarad, v),
    ensures
        round_trip_holds(Unit::Microfarad, v),
{
    let f = table(Unit::Microfarad, v)->0;
    let g = table(v, Unit::Microfarad)->0;
    lemma_run_short(exact_identity(), f);
    if let Some(m) = exact_map(f) {
        lemma_run_short(m, g);
    }
    match v {
        Unit::Farad => {
            lemma_scale_round_trip(f, g, Ratio { num: 1000000, den: 1 });
        },
        _ => {},
    }
}

proof fn lemma_round_trip_from_coulomb(v: Unit)
    requires
        round_trip_premise(Unit::Coulomb, v),
    ensures
        round_trip_holds(Unit::Coulomb, v),
{
    let f = table(Unit::Coulomb, v)->0;
    let g = table(v, Unit::Coulomb)->0;
    lemma_run_short(exact_identity(), f);
    if let Some(m) = exact_map(f) {
        lemma_run_short(m, g);
    }
    match v {
        Unit::Millicoulomb => {
            lemma_scale_round_trip(f, g, Ratio { num: 1000, den: 1 });
        },
        _ => {},
    }
}

proof fn lemma_round_trip_from_millicoulomb(v: Unit)
    requires
        round_trip_premise(Unit::Millicoulomb, v),
    ensures
        round_trip_holds(Unit::Millicoulomb, v),
{
    let f = table(Unit::Millicoulomb, v)->0;
    let g = table(v, Unit::Millicoulomb)->0;
    lemma_run_short(exact_identity(), f);
    if let Some(m) = exact_map(f) {
        lemma_run_short(m, g);
    }
    match v {
        Unit::Coulomb => {
            lemma_scale_round_trip(f, g, Ratio { num: 1000, den: 1 });
        },
        _ => {},
    }
}

proof fn lemma_round_trip_from_watt_hour(v: Unit)
    requires
        round_trip_premise(Unit::WattHour, v),
    ensures
        round_trip_holds(Unit::WattHour, v),
{
    let f = table(Unit::WattHour, v)->0;
    let g = table(v, Unit::WattHour)->0;
    lemma_run_short(exact_identity(), f);
    if let Some(m) = exact_map(f) {
        lemma_run_short(m, g);
    }
    match v {
        Unit::Joule => {
            lemma_scale_round_trip(f, g, Ratio { num: 3600, den: 1 });
        },
        _ => {},
    }
}

proof fn lemma_round_trip_from_joule(v: Unit)
    requires
        round_trip_premise(Unit::Joule, v),
    ensures
        round_trip_holds(Unit::Joule, v),
{
    let f = table(Unit::Joule, v)->0;
    let g = table(v, Unit::Joule)->0;
    lemma_run_short(exact_identity(), f);
    if let Some(m) = exact_map(f) {
        lemma_run_short(m, g);
    }
    match v {
        Unit::WattHour => {
            lemma_scale_round_trip(f, g, Ratio { num: 3600, den: 1 });
        },
        _ => {},
    }
}

proof fn lemma_round_trip_from_lux(v: Unit)
    requires
        round_trip_premise(Unit::Lux, v),
    ensures
        round_trip_holds(Unit::Lux, v),
{
    let f = table(Unit::Lux, v)->0;
    let g = table(v, Unit::Lux)->0;
    lemma_run_short(exact_identity(), f);
    if let Some(m) = exact_map(f) {
        lemma_run_short(m, g);
    }
    match v {
        Unit::Footcandle => {
            lemma_scale_round_trip(f, g, Ratio { num: 10764, den: 1000 });
        },
        _ => {},
    }
}

proof fn lemma_round_trip_from_footcandle(v: Unit)
    requires
        round_trip_premise(Unit::Footcandle, v),
    ensures
        round_trip_holds(Unit::Footcandle, v),
{
    let f = table(Unit::Footcandle, v)->0;
    let g = table(v, Unit::Footcandle)->0;
    lemma_run_short(exact_identity(), f);
    if let Some(m) = exact_map(f) {
        lemma_run_short(m, g);
    }
    match v {
        Unit::Lux => {
            lemma_scale_round_trip(f, g, Ratio { num: 10764, den: 1000 });
        },
        _ => {},
    }
}

proof fn lemma_round_trip_from_deg(v: Unit)
    requires
        round_trip_premise(Unit::Deg, v),
    ensures
        round_trip_holds(Unit::Deg, v),
{
    let f = table(Unit::Deg, v)->0;
    let g = table(v, Unit::Deg)->0;
    lemma_run_short(exact_identity(), f);
    if let Some(m) = exact_map(f) {
        lemma_run_short(m, g);
    }
    match v {
        Unit::Rad => {
            assert(then_step(
                Exact { a: 1, b: 0, c: 0, d: 1, pi_pow: 0 },
                Op::MulPi,
            ) == Some(Exact { a: 1, b: 0, c: 0, d: 1, pi_pow: 1 })) by (nonlinear_arith);
            assert(then_step(
                Exact { a: 1, b: 0, c: 0, d: 1, pi_pow: 1 },
                Op::Div(Ratio { num: 180, den: 1 }),
            ) == Some(Exact { a: 1, b: 0, c: 0, d: 180, pi_pow: 1 })) by (nonlinear_arith);
            assert(then_step(
                Exact { a: 1, b: 0, c: 0, d: 180, pi_pow: 1 },
                Op::Mul(Ratio { num: 180, den: 1 }),
            ) == Some(Exact { a: 180, b: 0, c: 0, d: 180, pi_pow: 1 })) by (nonlinear_arith);
            assert(then_step(
                Exact { a: 180, b: 0, c: 0, d: 180, pi_pow: 1 },
                Op::DivPi,
            ) == Some(Exact { a: 180, b: 0, c: 0, d: 180, pi_pow: 0 })) by (nonlinear_arith);
        },
        Unit::Grad => {
            assert(then_step(
                Exact { a: 1, b: 0, c: 0, d: 1, pi_pow: 0 },
                Op::Mul(Ratio { num: 200, den: 180 }),
            ) == Some(Exact { a: 200, b: 0, c: 0, d: 180, pi_pow: 0 })) by (nonlinear_arith);
            assert(then_step(
                Exact { a: 200, b: 0, c: 0, d: 180, pi_pow: 0 },
                Op::Mul(Ratio { num: 180, den: 200 }),
            ) == Some(Exact { a: 36000, b: 0, c: 0, d: 36000, pi_pow: 0 })) by (nonlinear_arith);
        },
        _ => {},
    }
}

proof fn lemma_round_trip_from_grad(v: Unit)
    requires
        round_trip_premise(Unit::Grad, v),
    ensures
        round_trip_holds(Unit::Grad, v),
{
    let f = table(Unit::Grad, v)->0;
    let g = table(v, Unit::Grad)->0;
    lemma_run_short(exact_identity(), f);
    if let Some(m) = exact_map(f) {
        lemma_run_short(m, g);
    }
    match v {
        Unit::Deg => {
            assert(then_step(
                Exact { a: 1, b: 0, c: 0, d: 1, pi_pow: 0 },
                Op::Mul(Ratio { num: 180, den: 200 }),
            ) == Some(Exact { a: 180, b: 0, c: 0, d: 200, pi_pow: 0 })) by (nonlinear_arith);
            assert(then_step(
                Exact { a: 180, b: 0, c: 0, d: 200, pi_pow: 0 },
                Op::Mul(Ratio { num: 200, den: 180 }),
            ) == Some(Exact { a: 36000, b: 0, c: 0, d: 36000, pi_pow: 0 })) by (nonlinear_arith);
        },
        _ => {},
    }
}

proof fn lemma_round_trip_from_nautical_mile(v: Unit)
    requires
        round_trip_premise(Unit::NauticalMile, v),
    ensures
        round_trip_holds(Unit::NauticalMile, v),
{
    let f = table(Unit::NauticalMile, v)->0;
    let g = table(v, Unit::NauticalMile)->0;
    lemma_run_short(exact_identity(), f);
    if let Some(m) = exact_map(f) {
        lemma_run_short(m, g);
    }
    match v {
        Unit::Km => {
            lemma_scale_round_trip(f, g, Ratio { num: 1852, den: 1000 });
        },
        _ => {},
    }
}

proof fn lemma_round_trip_from_knot(v: Unit)
    requires
        round_trip_premise(Unit::Knot, v),
    ensures
        round_trip_holds(Unit::Knot, v),
{
    let f = table(Unit::Knot, v)->0;
    let g = table(v, Unit::Knot)->0;
    lemma_run_short(exact_identity(), f);
    if let Some(m) = exact_map(f) {
        lemma_run_short(m, g);
    }
    match v {
        Unit::Kmh => {
            lemma_scale_round_trip(f, g, Ratio { num: 1852, den: 1000 });
        },
        _ => {},
    }
}

proof fn lemma_round_trip_from_hz(v: Unit)
    requires
        round_trip_premise(Unit::Hz, v),
    ensures
        round_trip_holds(Unit::Hz, v),
{
    let f = table(Unit::Hz, v)->0;
    let g = table(v, Unit::Hz)->0;
    lemma_run_short(exact_identity(), f);
    if let Some(m) = exact_map(f) {
        lemma_run_short(m, g);
    }
    match v {
        Unit::Khz => {
            lemma_scale_round_trip(f, g, Ratio { num: 1000, den: 1 });
        },
        _ => {},
    }
}

proof fn lemma_round_trip_from_khz(v: Unit)
    requires
        round_trip_premise(Unit::Khz, v),
    ensures
        round_trip_holds(Unit::Khz, v),
{
    let f = table(Unit::Khz, v)->0;
    let g = table(v, Unit::Khz)->0;
    lemma_run_short(exact_identity(), f);
    if let Some(m) = exact_map(f) {
        lemma_run_short(m, g);
    }
    match v {
        Unit::Hz => {
            lemma_scale_round_trip(f, g, Ratio { num: 1000, den: 1 });
        },
        Unit::Mhz => {
            lemma_scale_round_trip(f, g, Ratio { num: 1000, den: 1 });
        },
        _ => {},
    }
}

proof fn lemma_round_trip_from_mhz(v: Unit)
    requires
        round_trip_premise(Unit::Mhz, v),
    ensures
        round_trip_holds(Unit::Mhz, v),
{
    let f = table(Unit::Mhz, v)->0;
    let g = table(v, Unit::Mhz)->0;
    lemma_run_short(exact_identity(), f);
    if let Some(m) = exact_map(f) {
        lemma_run_short(m, g);
    }
    match v {
        Unit::Khz => {
            lemma_scale_round_trip(f, g, Ratio { num: 1000, den: 1 });
        },
        Unit::Ghz => {
            lemma_scale_round_trip(f, g, Ratio { num: 1000, den: 1 });
        },
        _ => {},
    }
}

proof fn lemma_round_trip_from_ghz(v: Unit)
    requires
        round_trip_premise(Unit::Ghz, v),
    ensures
        round_trip_holds(Unit::Ghz, v),
{
    let f = table(Unit::Ghz, v)->0;
    let g = table(v, Unit::Ghz)->0;
    lemma_run_short(exact_identity(), f);
    if let Some(m) = exact_map(f) {
        lemma_run_short(m, g);
    }
    match v {
        Unit::Mhz => {
            lemma_scale_round_trip(f, g, Ratio { num: 1000, den: 1 });
        },
        _ => {},
    }
}

proof fn lemma_round_trip_from_nm(v: Unit)
    requires
        round_trip_premise(Unit::Nm, v),
    ensures
        round_trip_holds(Unit::Nm, v),
{
    let f = table(Unit::Nm, v)->0;
    let g = table(v, Unit::Nm)->0;
    lemma_run_short(exact_identity(), f);
    if let Some(m) = exact_map(f) {
        lemma_run_short(m, g);
    }
    match v {
        Unit::Lbft => {
            lemma_scale_round_trip(f, g, Ratio { num: 737562, den: 1000000 });
        },
        _ => {},
    }
}

proof fn lemma_round_trip_from_lbft(v: Unit)
    requires
        round_trip_premise(Unit::Lbft, v),
    ensures
        round_trip_holds(Unit::Lbft, v),
{
    let f = table(Unit::Lbft, v)->0;
    let g = table(v, Unit::Lbft)->0;
    lemma_run_short(exact_identity(), f);
    if let Some(m) = exact_map(f) {
        lemma_run_short(m, g);
    }
    match v {
        Unit::Nm => {
            lemma_scale_round_trip(f, g, Ratio { num: 737562, den: 1000000 });
        },
        _ => {},
    }
}

proof fn lemma_round_trip_from_km_per_l(v: Unit)
    requires
        round_trip_premise(Unit::KmPerL, v),
    ensures
        round_trip_holds(Unit::KmPerL, v),
{
    let f = table(Unit::KmPerL, v)->0;
    let g = table(v, Unit::KmPerL)->0;
    lemma_run_short(exact_identity(), f);
    if let Some(m) = exact_map(f) {
        lemma_run_short(m, g);
    }
    match v {
        Unit::LPer100km => {
            assert(then_step(
                Exact { a: 1, b: 0, c: 0, d: 1, pi_pow: 0 },
                Op::DivInto(Ratio { num: 100, den: 1 }),
            ) == Some(Exact { a: 0, b: 100, c: 1, d: 0, pi_pow: 0 })) by (nonlinear_arith);
            assert(then_step(
                Exact { a: 0, b: 100, c: 1, d: 0, pi_pow: 0 },
                Op::DivInto(Ratio { num: 100, den: 1 }),
            ) == Some(Exact { a: 100, b: 0, c: 0, d: 100, pi_pow: 0 })) by (nonlinear_arith);
        },
        Unit::MpgUs => {
            lemma_scale_round_trip(f, g, Ratio { num: 425144, den: 1000000 });
        },
        Unit::MpgUk => {
            lemma_scale_round_trip(f, g, Ratio { num: 354006, den: 1000000 });
        },
        _ => {},
    }
}

proof fn lemma_round_trip_from_l_per_100km(v: Unit)
    requires
        round_trip_premise(Unit::LPer100km, v),
    ensures
        round_trip_holds(Unit::LPer100km, v),
{
    let f = table(Unit::LPer100km, v)->0;
    let g = table(v, Unit::LPer100km)->0;
    lemma_run_short(exact_identity(), f);
    if let Some(m) = exact_map(f) {
        lemma_run_short(m, g);
    }
    match v {
        Unit::KmPerL => {
            assert(then_step(
                Exact { a: 1, b: 0, c: 0, d: 1, pi_pow: 0 },
                Op::DivInto(Ratio { num: 100, den: 1 }),
            ) == Some(Exact { a: 0, b: 100, c: 1, d: 0, pi_pow: 0 })) by (nonlinear_arith);
            assert(then_step(
                Exact { a: 0, b: 100, c: 1, d: 0, pi_pow: 0 },
                Op::DivInto(Ratio { num: 100, den: 1 }),
            ) == Some(Exact { a: 100, b: 0, c: 0, d: 100, pi_pow: 0 })) by (nonlinear_arith);
        },
        _ => {},
    }
}

proof fn lemma_round_trip_from_mpg_us(v: Unit)
    requires
        round_trip_premise(Unit::MpgUs, v),
    ensures
        round_trip_holds(Unit::MpgUs, v),
{
    let f = table(Unit::MpgUs, v)->0;
    let g = table(v, Unit::MpgUs)->0;
    lemma_run_short(exact_identity(), f);
    if let Some(m) = exact_map(f) {
        lemma_run_short(m, g);
    }
    match v {
        Unit::KmPerL => {
            lemma_scale_round_trip(f, g, Ratio { num: 425144, den: 1000000 });
        },
        _ => {},
    }
}

proof fn lemma_round_trip_from_mpg_uk(v: Unit)
    requires
        round_trip_premise(Unit::MpgUk, v),
    ensures
        round_trip_holds(Unit::MpgUk, v),
{
    let f = table(Unit::MpgUk, v)->0;
    let g = table(v, Unit::MpgUk)->0;
    lemma_run_short(exact_identity(), f);
    if let Some(m) = exact_map(f) {
        lemma_run_short(m, g);
    }
    match v {
        Unit::KmPerL => {
            lemma_scale_round_trip(f, g, Ratio { num: 354006, den: 1000000 });
        },
        _ => {},
    }
}

proof fn lemma_round_trip_from_tesla(v: Unit)
    requires
        round_trip_premise(Unit::Tesla, v),
    ensures
        round_trip_holds(Unit::Tesla, v),
{
    let f = table(Unit::Tesla, v)->0;
    let g = table(v, Unit::Tesla)->0;
    lemma_run_short(exact_identity(), f);
    if let Some(m) = exact_map(f) {
        lemma_run_short(m, g);
    }
    match v {
        Unit::Gauss => {
            lemma_scale_round_trip(f, g, Ratio { num: 10000, den: 1 });
        },
        _ => {},
    }
}

proof fn lemma_round_trip_from_gauss(v: Unit)
    requires
        round_trip_premise(Unit::Gauss, v),
    ensures
        round_trip_holds(Unit::Gauss, v),
{
    let f = table(Unit::Gauss, v)->0;
    let g = table(v, Unit::Gauss)->0;
    lemma_run_short(exact_identity(), f);
    if let Some(m) = exact_map(f) {
        lemma_run_short(m, g);
    }
    match v {
        Unit::Tesla => {
            lemma_scale_round_trip(f, g, Ratio { num: 10000, den: 1 });
        },
        _ => {},
    }
}

proof fn lemma_round_trip_from_wb(v: Unit)
    requires
        round_trip_premise(Unit::Wb, v),
    ensures
        round_trip_holds(Unit::Wb, v),
{
    let f = table(Unit::Wb, v)->0;
    let g = table(v, Unit::Wb)->0;
    lemma_run_short(exact_identity(), f);
    if let Some(m) = exact_map(f) {
        lemma_run_short(m, g);
    }
    match v {
        Unit::Mwb => {
            lemma_scale_round_trip(f, g, Ratio { num: 1000000, den: 1 });
        },
        _ => {},
    }
}

proof fn lemma_round_trip_from_mwb(v: Unit)
    requires
        round_trip_premise(Unit::Mwb, v),
    ensures
        round_trip_holds(Unit::Mwb, v),
{
    let f = table(Unit::Mwb, v)->0;
    let g = table(v, Unit::Mwb)->0;
    lemma_run_short(exact_identity(), f);
    if let Some(m) = exact_map(f) {
        lemma_run_short(m, g);
    }
    match v {
        Unit::Wb => {
            lemma_scale_round_trip(f, g, Ratio { num: 1000000, den: 1 });
        },
        _ => {},
    }
}

proof fn lemma_round_trip_from_sq_m(v: Unit)
    requires
        round_trip_premise(Unit::SqM, v),
    ensures
        round_trip_holds(Unit::SqM, v),
{
    let f = table(Unit::SqM, v)->0;
    let g = table(v, Unit::SqM)->0;
    lemma_run_short(exact_identity(), f);
    if let Some(m) = exact_map(f) {
        lemma_run_short(m, g);
    }
    match v {
        Unit::SqFoot => {
            lemma_scale_round_trip(f, g, Ratio { num: 107639, den: 10000 });
        },
        _ => {},
    }
}

proof fn lemma_round_trip_from_sq_foot(v: Unit)
    requires
        round_trip_premise(Unit::SqFoot, v),
    ensures
        round_trip_holds(Unit::SqFoot, v),
{
    let f = table(Unit::SqFoot, v)->0;
    let g = table(v, Unit::SqFoot)->0;
    lemma_run_short(exact_identity(), f);
    if let Some(m) = exact_map(f) {
        lemma_run_short(m, g);
    }
    match v {
        Unit::SqM => {
            lemma_scale_round_trip(f, g, Ratio { num: 107639, den: 10000 });
        },
        _ => {},
    }
}

proof fn lemma_round_trip_from_cu_m(v: Unit)
    requires
        round_trip_premise(Unit::CuM, v),
    ensures
        round_trip_holds(Unit::CuM, v),
{
    let f = table(Unit::CuM, v)->0;
    let g = table(v, Unit::CuM)->0;
    lemma_run_short(exact_identity(), f);
    if let Some(m) = exact_map(f) {
        lemma_run_short(m, g);
    }
    match v {
        Unit::CuFoot => {
            lemma_scale_round_trip(f, g, Ratio { num: 353147, den: 10000 });
        },
        _ => {},
    }
}

proof fn lemma_round_trip_from_cu_foot(v: Unit)
    requires
        round_trip_premise(Unit::CuFoot, v),
    ensures
        round_trip_holds(Unit::CuFoot, v),
{
    let f = table(Unit::CuFoot, v)->0;
    let g = table(v, Unit::CuFoot)->0;
    lemma_run_short(exact_identity(), f);
    if let Some(m) = exact_map(f) {
        lemma_run_short(m, g);
    }
    match v {
        Unit::CuM => {
            lemma_scale_round_trip(f, g, Ratio { num: 353147, den: 10000 });
        },
        _ => {},
    }
}

proof fn lemma_table_round_trip(u: Unit, v: Unit)
    requires
        round_trip_premise(u, v),
    ensures
        round_trip_holds(u, v),
{
    match u {
        Unit::Mg => lemma_round_trip_from_mg(v),
        Unit::G => lemma_round_trip_from_g(v),
        Unit::Kg => lemma_round_trip_from_kg(v),
        Unit::Tonne => lemma_round_trip_from_tonne(v),
        Unit::Oz => lemma_round_trip_from_oz(v),
        Unit::Lb => lemma_round_trip_from_lb(v),
        Unit::Mm => lemma_round_trip_from_mm(v),
        Unit::Cm => lemma_round_trip_from_cm(v),
        Unit::M => lemma_round_trip_from_m(v),
        Unit::Km => lemma_round_trip_from_km(v),
        Unit::Inch => lemma_round_trip_from_inch(v),
        Unit::Ft => lemma_round_trip_from_ft(v),
        Unit::Yard => lemma_round_trip_from_yard(v),
        Unit::Mile => lemma_round_trip_from_mile(v),
        Unit::Sqm => lemma_round_trip_from_sqm(v),
        Unit::Sqft => lemma_round_trip_from_sqft(v),
        Unit::Ml => lemma_round_trip_from_ml(v),
        Unit::L => lemma_round_trip_from_l(v),
        Unit::Gal => lemma_round_trip_from_gal(v),
        Unit::Celsius => lemma_round_trip_from_celsius(v),
        Unit::Fahrenheit => lemma_round_trip_from_fahrenheit(v),
        Unit::Kelvin => lemma_round_trip_from_kelvin(v),
        Unit::Kmh => lemma_round_trip_from_kmh(v),
        Unit::Mph => lemma_round_trip_from_mph(v),
        Unit::Ms => lemma_round_trip_from_ms(v),
        Unit::W => lemma_round_trip_from_w(v),
        Unit::Kw => lemma_round_trip_from_kw(v),
        Unit::Pa => lemma_round_trip_from_pa(v),
        Unit::Kpa => lemma_round_trip_from_kpa(v),
        Unit::Bar => lemma_round_trip_from_bar(v),
        Unit::Psi => lemma_round_trip_from_psi(v),
        Unit::J => lemma_round_trip_from_j(v),
        Unit::Kj => lemma_round_trip_from_kj(v),
        Unit::Cal => lemma_round_trip_from_cal(v),
        Unit::Bit => lemma_round_trip_from_bit(v),
        Unit::Byte => lemma_round_trip_from_byte(v),
        Unit::Kb => lemma_round_trip_from_kb(v),
        Unit::Mb => lemma_round_trip_from_mb(v),
        Unit::Gb => lemma_round_trip_from_gb(v),
        Unit::Tb => lemma_round_trip_from_tb(v),
        Unit::Sec => lemma_round_trip_from_sec(v),
        Unit::Min => lemma_round_trip_from_min(v),
        Unit::Hr => lemma_round_trip_from_hr(v),
        Unit::Day => lemma_round_trip_from_day(v),
        Unit::Dbm => lemma_round_trip_from_dbm(v),
        Unit::Watt => lemma_round_trip_from_watt(v),
        Unit::Gy => lemma_round_trip_from_gy(v),
        Unit::Rad => lemma_round_trip_from_rad(v),
        Unit::Sv => lemma_round_trip_from_sv(v),
        Unit::Rem => lemma_round_trip_from_rem(v),
        Unit::Amp => lemma_round_trip_from_amp(v),
        Unit::Milliamp => lemma_round_trip_from_milliamp(v),
        Unit::Volt => lemma_round_trip_from_volt(v),
        Unit::Millivolt => lemma_round_trip_from_millivolt(v),
        Unit::Ohm => lemma_round_trip_from_ohm(v),
        Unit::Kiloohm => lemma_round_trip_from_kiloohm(v),
        Unit::Farad => lemma_round_trip_from_farad(v),
        Unit::Microfarad => lemma_round_trip_from_microfarad(v),
        Unit::Coulomb => lemma_round_trip_from_coulomb(v),
        Unit::Millicoulomb => lemma_round_trip_from_millicoulomb(v),
        Unit::WattHour => lemma_round_trip_from_watt_hour(v),
        Unit::Joule => lemma_round_trip_from_joule(v),
        Unit::Lux => lemma_round_trip_from_lux(v),
        Unit::Footcandle => lemma_round_trip_from_footcandle(v),
        Unit::Deg => lemma_round_trip_from_deg(v),
        Unit::Grad => lemma_round_trip_from_grad(v),
        Unit::NauticalMile => lemma_round_trip_from_nautical_mile(v),
        Unit::Knot => lemma_round_trip_from_knot(v),
        Unit::Hz => lemma_round_trip_from_hz(v),
        Unit::Khz => lemma_round_trip_from_khz(v),
        Unit::Mhz => lemma_round_trip_from_mhz(v),
        Unit::Ghz => lemma_round_trip_from_ghz(v),
        Unit::Nm => lemma_round_trip_from_nm(v),
        Unit::Lbft => lemma_round_trip_from_lbft(v),
        Unit::KmPerL => lemma_round_trip_from_km_per_l(v),
        Unit::LPer100km => lemma_round_trip_from_l_per_100km(v),
        Unit::MpgUs => lemma_round_trip_from_mpg_us(v),
        Unit::MpgUk => lemma_round_trip_from_mpg_uk(v),
        Unit::Tesla => lemma_round_trip_from_tesla(v),
        Unit::Gauss => lemma_round_trip_from_gauss(v),
        Unit::Wb => lemma_round_trip_from_wb(v),
        Unit::Mwb => lemma_round_trip_from_mwb(v),
        Unit::SqM => lemma_round_trip_from_sq_m(v),
        Unit::SqFoot => lemma_round_trip_from_sq_foot(v),
        Unit::CuM => lemma_round_trip_from_cu_m(v),
        Unit::CuFoot => lemma_round_trip_from_cu_foot(v),
    }
}

/// Converting a value from one unit to another and back gives the value
/// again, in exact arithmetic, for every pair of tags whose two directions
/// are both in the table and take no power or logarithm. (The float
/// evaluation of the formulas matches this up to rounding.)
pub proof fn lemma_round_trip(from: Seq<char>, to: Seq<char>)
    requires
        pair_formula(from, to) is Some,
        pair_formula(to, from) is Some,
        !is_transcendental(pair_formula(from, to)->0),
        !is_transcendental(pair_formula(to, from)->0),
    ensures
        exact_map(pair_formula(from, to)->0 + pair_formula(to, from)->0) matches Some(k)
            && is_identity(k),
{
    let u = unit_named(from)->0;
    let v = unit_named(to)->0;
    lemma_table_round_trip(u, v);
    lemma_run_concat(exact_identity(), table(u, v)->0, table(v, u)->0);
}

} // verus!
