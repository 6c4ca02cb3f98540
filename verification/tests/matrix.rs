use raytracer::matrix::Matrix44;
use raytracer::number::Binary64;
use raytracer::point::Point;
use raytracer::vector::Vector3;

fn d(v: f64) -> Binary64 {
    Binary64::from_bits(v.to_bits())
}

fn rows(m: &Matrix44) -> [[f64; 4]; 4] {
    let mut out = [[0.0; 4]; 4];
    for (r, row) in out.iter_mut().enumerate() {
        for (c, entry) in row.iter_mut().enumerate() {
            *entry = f64::from_bits(m.get(r, c).to_bits());
        }
    }
    out
}

fn matrix(values: [[f64; 4]; 4]) -> Matrix44 {
    Matrix44::from_rows(values.map(|row| row.map(d)))
}

#[test]
fn identity_has_ones_down_the_diagonal() {
    assert_eq!(
        rows(&Matrix44::identity()),
        [[1.0, 0.0, 0.0, 0.0], [0.0, 1.0, 0.0, 0.0], [0.0, 0.0, 1.0, 0.0], [0.0, 0.0, 0.0, 1.0]]
    );
}

#[test]
fn scale_has_the_factors_down_the_diagonal() {
    assert_eq!(
        rows(&Matrix44::scale(d(2.0), d(3.0), d(4.0))),
        [[2.0, 0.0, 0.0, 0.0], [0.0, 3.0, 0.0, 0.0], [0.0, 0.0, 4.0, 0.0], [0.0, 0.0, 0.0, 1.0]]
    );
    assert_eq!(rows(&Matrix44::scale_linear(d(5.0))), rows(&Matrix44::scale(d(5.0), d(5.0), d(5.0))));
}

#[test]
fn rotations_hold_sine_and_cosine() {
    let (sin, cos) = (0.6, 0.8);
    assert_eq!(
        rows(&Matrix44::rotate_x(d(sin), d(cos))),
        [[1.0, 0.0, 0.0, 0.0], [0.0, cos, sin, 0.0], [0.0, -sin, cos, 0.0], [0.0, 0.0, 0.0, 1.0]]
    );
    assert_eq!(
        rows(&Matrix44::rotate_y(d(sin), d(cos))),
        [[cos, 0.0, -sin, 0.0], [0.0, 1.0, 0.0, 0.0], [sin, 0.0, cos, 0.0], [0.0, 0.0, 0.0, 1.0]]
    );
    assert_eq!(
        rows(&Matrix44::rotate_z(d(sin), d(cos))),
        [[cos, sin, 0.0, 0.0], [-sin, cos, 0.0, 0.0], [0.0, 0.0, 1.0, 0.0], [0.0, 0.0, 0.0, 1.0]]
    );
}

#[test]
fn translate_holds_the_displacements_where_points_take_them() {
    assert_eq!(
        rows(&Matrix44::translate(d(7.0), d(8.0), d(9.0))),
        [[1.0, 0.0, 0.0, 0.0], [0.0, 1.0, 0.0, 0.0], [0.0, 0.0, 1.0, 0.0], [7.0, 8.0, 9.0, 1.0]]
    );
}

#[test]
fn the_translation_by_nothing_is_the_identity() {
    assert_eq!(
        rows(&Matrix44::translate(d(0.0), d(0.0), d(0.0))).map(|row| row.map(f64::to_bits)),
        rows(&Matrix44::identity()).map(|row| row.map(f64::to_bits))
    );
}

#[test]
fn the_pivot_is_the_largest_entry_from_the_diagonal_down() {
    let m = matrix([[1.0, 9.0, 0.0, 0.0], [-5.0, 2.0, 0.0, 0.0], [3.0, -7.0, 1.0, 0.0], [4.0, 6.0, 2.0, 1.0]]);
    assert_eq!(m.pivot(0), Some(1));
    assert_eq!(m.pivot(1), Some(2));
    assert_eq!(m.pivot(2), Some(3));
    assert_eq!(m.pivot(3), Some(3));
}

#[test]
fn of_equal_entries_the_first_is_the_pivot() {
    let m = matrix([[2.0, 0.0, 0.0, 0.0], [-2.0, 1.0, 0.0, 0.0], [2.0, 1.0, 1.0, 0.0], [1.0, -1.0, 0.0, 1.0]]);
    assert_eq!(m.pivot(0), Some(0));
    assert_eq!(m.pivot(1), Some(1));
}

#[test]
fn a_column_of_zeros_has_no_pivot() {
    let m = matrix([[1.0, 5.0, 0.0, 0.0], [2.0, 0.0, 0.0, 0.0], [3.0, -0.0, 1.0, 0.0], [4.0, 0.0, 0.0, 0.0]]);
    assert_eq!(m.pivot(0), Some(3));
    assert_eq!(m.pivot(1), None);
    assert_eq!(m.pivot(3), None);
    assert_eq!(matrix([[0.0; 4]; 4]).pivot(0), None);
    assert_eq!(Matrix44::translate(d(1.0), d(2.0), d(3.0)).pivot(0), Some(0));
    assert_eq!(Matrix44::translate(d(1.0), d(2.0), d(3.0)).pivot(1), Some(3));
}

#[test]
fn points_and_vectors_are_built_from_one_value() {
    let p = Point::from_one(d(2.5));
    assert_eq!((p.x.to_bits(), p.y.to_bits(), p.z.to_bits()), (2.5f64.to_bits(), 2.5f64.to_bits(), 2.5f64.to_bits()));
    let o = Point::zero();
    assert_eq!((o.x.to_bits(), o.y.to_bits(), o.z.to_bits()), (0, 0, 0));
    let v = Vector3::from_one(d(-1.0)).neg();
    assert_eq!((v.x.to_bits(), v.y.to_bits(), v.z.to_bits()), (1.0f64.to_bits(), 1.0f64.to_bits(), 1.0f64.to_bits()));
    let z = Vector3::zero();
    assert_eq!((z.x.to_bits(), z.y.to_bits(), z.z.to_bits()), (0, 0, 0));
}

fn f(v: Binary64) -> f64 {
    f64::from_bits(v.to_bits())
}

fn divide(a: Binary64, b: Binary64) -> Binary64 {
    d(f(a) / f(b))
}

fn reduce(x: Binary64, factor: Binary64, y: Binary64) -> Binary64 {
    d(f(x) - f(factor) * f(y))
}

#[allow(clippy::too_many_arguments)]
fn dot4(
    a0: Binary64,
    a1: Binary64,
    a2: Binary64,
    a3: Binary64,
    b0: Binary64,
    b1: Binary64,
    b2: Binary64,
    b3: Binary64,
) -> Binary64 {
    d(f(a0) * f(b0) + f(a1) * f(b1) + f(a2) * f(b2) + f(a3) * f(b3))
}

fn dot3(a0: Binary64, a1: Binary64, a2: Binary64, b0: Binary64, b1: Binary64, b2: Binary64) -> Binary64 {
    d(f(a0) * f(b0) + f(a1) * f(b1) + f(a2) * f(b2))
}

fn inverse(values: [[f64; 4]; 4]) -> [[f64; 4]; 4] {
    rows(&matrix(values).inverse(&divide, &reduce))
}

const IDENTITY: [[f64; 4]; 4] =
    [[1.0, 0.0, 0.0, 0.0], [0.0, 1.0, 0.0, 0.0], [0.0, 0.0, 1.0, 0.0], [0.0, 0.0, 0.0, 1.0]];

/// Elimination written out with the machine's numbers, to hold the
/// library's against.
fn eliminated(values: [[f64; 4]; 4]) -> [[f64; 4]; 4] {
    let mut s = IDENTITY;
    let mut t = values;
    for i in 0..3 {
        let mut pivot = i;
        let mut pivotsize = t[i][i].abs();
        for j in (i + 1)..4 {
            let tmp = t[j][i].abs();
            if tmp > pivotsize {
                pivot = j;
                pivotsize = tmp;
            }
        }
        if pivotsize == 0.0 {
            return IDENTITY;
        }
        if pivot != i {
            t.swap(i, pivot);
            s.swap(i, pivot);
        }
        for j in (i + 1)..4 {
            let factor = t[j][i] / t[i][i];
            for k in 0..4 {
                t[j][k] -= factor * t[i][k];
                s[j][k] -= factor * s[i][k];
            }
        }
    }
    for i in (0..4).rev() {
        let mut factor = t[i][i];
        if factor == 0.0 {
            return IDENTITY;
        }
        for j in 0..4 {
            t[i][j] /= factor;
            s[i][j] /= factor;
        }
        for j in 0..i {
            factor = t[j][i];
            for k in 0..4 {
                t[j][k] -= factor * t[i][k];
                s[j][k] -= factor * s[i][k];
            }
        }
    }
    s
}

fn bits(values: [[f64; 4]; 4]) -> [[u64; 4]; 4] {
    values.map(|row| row.map(f64::to_bits))
}

#[test]
fn the_inverse_of_the_identity_is_the_identity() {
    assert_eq!(inverse(IDENTITY), IDENTITY);
}

#[test]
fn the_inverse_of_a_scale_scales_back() {
    assert_eq!(
        rows(&Matrix44::scale(d(2.0), d(4.0), d(8.0)).inverse(&divide, &reduce)),
        [[0.5, 0.0, 0.0, 0.0], [0.0, 0.25, 0.0, 0.0], [0.0, 0.0, 0.125, 0.0], [0.0, 0.0, 0.0, 1.0]]
    );
}

#[test]
fn the_inverse_pivots_where_the_diagonal_is_zero() {
    let swap = [[0.0, 1.0, 0.0, 0.0], [1.0, 0.0, 0.0, 0.0], [0.0, 0.0, 0.0, 2.0], [0.0, 0.0, 4.0, 0.0]];
    assert_eq!(
        inverse(swap),
        [[0.0, 1.0, 0.0, 0.0], [1.0, 0.0, 0.0, 0.0], [0.0, 0.0, 0.0, 0.25], [0.0, 0.0, 0.5, 0.0]]
    );
}

#[test]
fn the_inverse_of_a_singular_matrix_is_the_identity() {
    assert_eq!(inverse([[0.0; 4]; 4]), IDENTITY);
    let flat = [[1.0, 0.0, 0.0, 0.0], [0.0, 1.0, 0.0, 0.0], [0.0, 0.0, 0.0, 0.0], [1.0, 2.0, 3.0, 1.0]];
    assert_eq!(inverse(flat), IDENTITY);
    let twice = [[1.0, 2.0, 3.0, 4.0], [2.0, 4.0, 6.0, 8.0], [0.0, 1.0, 0.0, 0.0], [0.0, 0.0, 1.0, 0.0]];
    assert_eq!(inverse(twice), IDENTITY);
    let last = [[1.0, 0.0, 0.0, 0.0], [0.0, 1.0, 0.0, 0.0], [0.0, 0.0, 1.0, 0.0], [0.0, 0.0, 0.0, 0.0]];
    assert_eq!(inverse(last), IDENTITY);
}

#[test]
fn the_inverse_undoes_a_matrix() {
    let m = [[2.0, 1.0, 0.0, 3.0], [4.0, -1.0, 2.0, 0.5], [0.5, 3.0, 1.0, -2.0], [1.0, 0.0, -4.0, 2.0]];
    let inv = matrix(m).inverse(&divide, &reduce);
    let back = rows(&matrix(m).mul(&inv, &dot4));
    for r in 0..4 {
        for c in 0..4 {
            assert!((back[r][c] - IDENTITY[r][c]).abs() < 1e-12, "{back:?}");
        }
    }
}

#[test]
fn the_inverse_is_what_elimination_by_hand_gives() {
    let samples = [
        IDENTITY,
        [[2.0, 1.0, 0.0, 3.0], [4.0, -1.0, 2.0, 0.5], [0.5, 3.0, 1.0, -2.0], [1.0, 0.0, -4.0, 2.0]],
        [[0.0, 1.0, 0.0, 0.0], [1.0, 0.0, 0.0, 0.0], [0.0, 0.0, 0.0, 2.0], [0.0, 0.0, 4.0, 0.0]],
        [[1.0, 2.0, 3.0, 4.0], [2.0, 4.0, 6.0, 8.0], [0.0, 1.0, 0.0, 0.0], [0.0, 0.0, 1.0, 0.0]],
        [[1e-3, 1e3, 0.1, 7.0], [3.0, 1e-9, 2.0, 1.0], [-5.0, 0.3, 1e6, 0.0], [0.7, 0.7, 0.7, 0.7]],
        [[0.6, 0.8, 0.0, 0.0], [-0.8, 0.6, 0.0, 0.0], [0.0, 0.0, 1.0, 0.0], [1.0, 2.0, 3.0, 1.0]],
        [[1.0, 0.0, 0.0, 0.0], [0.0, 1.0, 0.0, 0.0], [0.0, 0.0, 1.0, 0.0], [7.0, -8.0, 0.5, 1.0]],
        [[1.0, f64::NAN, 0.0, 0.0], [0.0, 1.0, 0.0, 0.0], [0.0, 0.0, 1.0, 0.0], [0.0, 0.0, 0.0, 1.0]],
        [[f64::INFINITY, 0.0, 0.0, 0.0], [0.0, 1.0, 0.0, 0.0], [0.0, 0.0, 1.0, 0.0], [0.0, 0.0, 0.0, 1.0]],
        [[0.0; 4]; 4],
    ];
    for sample in samples {
        assert_eq!(bits(inverse(sample)), bits(eliminated(sample)), "{sample:?}");
    }
}

#[test]
fn a_product_combines_rows_with_columns() {
    let a = matrix([[1.0, 2.0, 3.0, 4.0], [0.0, 1.0, 0.0, 0.0], [0.0, 0.0, 2.0, 0.0], [1.0, 1.0, 1.0, 1.0]]);
    let b = matrix([[1.0, 0.0, 0.0, 1.0], [0.0, 1.0, 0.0, 2.0], [0.0, 0.0, 1.0, 3.0], [0.0, 0.0, 0.0, 4.0]]);
    assert_eq!(
        rows(&a.mul(&b, &dot4)),
        [[1.0, 2.0, 3.0, 30.0], [0.0, 1.0, 0.0, 2.0], [0.0, 0.0, 2.0, 6.0], [1.0, 1.0, 1.0, 10.0]]
    );
    assert_eq!(rows(&a.mul(&Matrix44::identity(), &dot4)), rows(&a));
    assert_eq!(rows(&Matrix44::identity().mul(&a, &dot4)), rows(&a));
}

#[test]
fn a_point_is_displaced_and_a_vector_is_not() {
    let m = matrix([[2.0, 0.0, 0.0, 0.0], [0.0, 3.0, 0.0, 0.0], [0.0, 0.0, 4.0, 0.0], [10.0, 20.0, 30.0, 1.0]]);
    let p = m.mul_point(&Point { x: d(1.0), y: d(1.0), z: d(1.0) }, &dot4);
    assert_eq!((f(p.x), f(p.y), f(p.z)), (12.0, 23.0, 34.0));
    let v = m.mul_vector(&Vector3 { x: d(1.0), y: d(1.0), z: d(1.0) }, &dot3);
    assert_eq!((f(v.x), f(v.y), f(v.z)), (2.0, 3.0, 4.0));
    let turn = Matrix44::rotate_z(d(1.0), d(0.0));
    let v = turn.mul_vector(&Vector3 { x: d(1.0), y: d(0.0), z: d(0.0) }, &dot3);
    assert_eq!((f(v.x), f(v.y), f(v.z)), (0.0, 1.0, 0.0));
}

#[test]
fn a_translation_moves_a_point_by_its_displacements() {
    let m = Matrix44::translate(d(7.0), d(-8.0), d(0.5));
    let p = m.mul_point(&Point { x: d(1.0), y: d(2.0), z: d(3.0) }, &dot4);
    assert_eq!((f(p.x), f(p.y), f(p.z)), (8.0, -6.0, 3.5));
    let still = Matrix44::translate(d(0.0), d(0.0), d(0.0));
    let p = still.mul_point(&Point { x: d(1.0), y: d(2.0), z: d(3.0) }, &dot4);
    assert_eq!((f(p.x), f(p.y), f(p.z)), (1.0, 2.0, 3.0));
}

#[test]
fn a_translation_leaves_a_vector_as_it_is() {
    let m = Matrix44::translate(d(7.0), d(-8.0), d(0.5));
    let v = m.mul_vector(&Vector3 { x: d(1.0), y: d(2.0), z: d(3.0) }, &dot3);
    assert_eq!((f(v.x), f(v.y), f(v.z)), (1.0, 2.0, 3.0));
}

#[test]
fn one_translation_after_another_adds_the_displacements() {
    let first = Matrix44::translate(d(1.0), d(2.0), d(3.0));
    let second = Matrix44::translate(d(10.0), d(20.0), d(30.0));
    assert_eq!(
        rows(&first.mul(&second, &dot4)),
        rows(&Matrix44::translate(d(11.0), d(22.0), d(33.0)))
    );
}

#[test]
fn the_inverse_of_a_translation_translates_back() {
    let m = Matrix44::translate(d(1.0), d(2.0), d(3.0));
    assert_eq!(
        rows(&m.inverse(&divide, &reduce)),
        rows(&Matrix44::translate(d(-1.0), d(-2.0), d(-3.0)))
    );
    let back = m.inverse(&divide, &reduce).mul_point(&Point { x: d(5.0), y: d(5.0), z: d(5.0) }, &dot4);
    assert_eq!((f(back.x), f(back.y), f(back.z)), (4.0, 3.0, 2.0));
}
