use nalgebra::{SMatrix, SVector};
use ninecurve::{
    coefficients_from_minors, default_points, equation_text, monomials, normalize, Model, Point,
    COEFF_SCALE, COORD_SCALE,
};

/// Runs the whole fitting pipeline on nine points given in coordinate
/// units: monomial columns from the library, the ten signed minor
/// determinants in double precision, quantization of the minors to
/// `1 / COEFF_SCALE` units relative to the largest magnitude, then the
/// library's cofactor signs and normalization.
fn fit(points: &[Point]) -> Vec<i64> {
    assert_eq!(points.len(), 9);
    let columns: Vec<SVector<f64, 10>> = points
        .iter()
        .map(|p| {
            let m = monomials(*p);
            SVector::<f64, 10>::from_iterator(m.iter().map(|&v| v as f64))
        })
        .collect();
    let matrix: SMatrix<f64, 10, 9> = SMatrix::from_columns(&columns);
    let dets: Vec<f64> = (0..10).map(|j| matrix.remove_row(j).determinant()).collect();
    let max = dets.iter().fold(0.0_f64, |a, d| a.max(d.abs()));
    let minors: Vec<i64> = if max == 0.0 {
        vec![0; 10]
    } else {
        dets.iter()
            .map(|d| {
                let q = d / max;
                // Minors that are zero in exact arithmetic show up as
                // rounding noise of the double-precision elimination;
                // drop them below the quantization step.
                if q.abs() < 1e-9 {
                    0
                } else {
                    (q * COEFF_SCALE as f64).round() as i64
                }
            })
            .collect()
    };
    normalize(&coefficients_from_minors(&minors))
}

/// Evaluates the fitted polynomial at a point, both in continuous
/// coordinates.
fn poly(c: &[f64], x: f64, y: f64) -> f64 {
    c[0] * x * x * x
        + c[1] * x * x * y
        + c[2] * x * y * y
        + c[3] * y * y * y
        + c[4] * x * x
        + c[5] * x * y
        + c[6] * y * y
        + c[7] * x
        + c[8] * y
        + c[9]
}

#[test]
fn default_fit_recovers_the_cuspidal_cubic() {
    let c = fit(&default_points());
    // The defaults lie on y^2 = x^3, so the x^3 and y^2 coefficients
    // dominate with opposite signs and everything else vanishes.
    assert_eq!(c[0], -COEFF_SCALE);
    assert_eq!(c[6], COEFF_SCALE);
    for j in [1, 2, 3, 4, 5, 7, 8, 9] {
        assert!(c[j].abs() <= 1, "coefficient {} should vanish, got {}", j, c[j]);
    }
}

#[test]
fn general_position_fit_interpolates_every_point() {
    let pts: Vec<Point> = [
        (1500, -2000),
        (900, -1500),
        (600, -800),
        (200, -300),
        (0, 100),
        (400, 500),
        (1100, 900),
        (1700, 1600),
        (2100, 2600),
    ]
    .iter()
    .map(|&(x, y)| Point { x, y })
    .collect();
    let c = fit(&pts);
    // Not all-zero: normalization pins the largest magnitude.
    assert_eq!(c.iter().map(|v| v.abs()).max(), Some(COEFF_SCALE));
    let cf: Vec<f64> = c.iter().map(|&v| v as f64 / COEFF_SCALE as f64).collect();
    for p in &pts {
        let x = p.x as f64 / COORD_SCALE as f64;
        let y = p.y as f64 / COORD_SCALE as f64;
        let v = poly(&cf, x, y);
        assert!(v.abs() < 1e-3, "F({}, {}) = {}", x, y, v);
    }
}

#[test]
fn render_step_emits_the_default_equation() {
    let model = Model::init(820, 620);
    let c = fit(&model.points);
    let text = equation_text(&c);
    assert_eq!(
        text,
        "-1.00 x^3 + 0.00 x^2 y + 0.00 x y^2 + 0.00 y^3 + 0.00 x^2 + 0.00 x y + 1.00 y^2 + 0.00 x + 0.00 y + 0.00 = 0"
    );
}
