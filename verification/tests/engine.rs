use learning_engine::errors::EngineError;
use learning_engine::math::{linear_step, logistic_regression_predict, logistic_step,
    normal_equation_system};
use learning_engine::network::{get_cost_and_gradient, sigmoid_gradient};
use learning_engine::onehot::OneHot;
use learning_engine::scalar::Scalar;

/// The engine's scalar instantiated with `f64`.
#[derive(Clone, Copy, Debug, PartialEq)]
struct F(f64);

impl Scalar for F {
    fn zero() -> Self {
        F(0.0)
    }
    fn one() -> Self {
        F(1.0)
    }
    fn plus(self, other: Self) -> Self {
        F(self.0 + other.0)
    }
    fn minus(self, other: Self) -> Self {
        F(self.0 - other.0)
    }
    fn times(self, other: Self) -> Self {
        F(self.0 * other.0)
    }
    fn div_count(self, n: usize) -> Self {
        F(self.0 / n as f64)
    }
    fn sigmoid(self) -> Self {
        F(1.0 / (1.0 + f64::exp(-self.0)))
    }
    fn ln(self) -> Self {
        F(self.0.ln())
    }
    fn is_zero(&self) -> bool {
        self.0 == 0.0
    }
}

fn fv(xs: &[f64]) -> Vec<F> {
    xs.iter().map(|x| F(*x)).collect()
}

fn fmat(rows: &[Vec<f64>]) -> Vec<Vec<F>> {
    rows.iter().map(|r| fv(r)).collect()
}

fn rel_eq(a: f64, b: f64, eps: f64) -> bool {
    (a - b).abs() <= eps
}

fn label(bits: &[bool]) -> OneHot {
    OneHot { bits: bits.to_vec() }
}

fn nn_test_thetas() -> Vec<Vec<Vec<F>>> {
    let theta1 = fmat(&[
        vec![0.0, 0.5, 0.2],
        vec![0.0, 0.3, 0.1],
        vec![0.0, 0.9, 0.11],
    ]);
    let theta2 = fmat(&[vec![0.0, 0.1, 0.2, 0.99], vec![0.0, 0.05, 0.5, 0.2]]);
    vec![theta1, theta2]
}

fn nn_test_batch() -> (Vec<Vec<F>>, Vec<OneHot>) {
    let xs = fmat(&[vec![0.1, 0.0], vec![0.2, 0.5], vec![1.0, 0.2]]);
    let ys = vec![
        label(&[false, true]),
        label(&[true, false]),
        label(&[false, true]),
    ];
    (xs, ys)
}

fn cost_at(thetas: &Vec<Vec<Vec<F>>>, xs: &Vec<Vec<F>>, ys: &Vec<OneHot>, lambda: f64) -> f64 {
    let (cost, _) = get_cost_and_gradient(thetas, xs, ys, F(lambda)).unwrap();
    cost.0
}

fn assert_rel_eq_gradients(actual: &Vec<Vec<Vec<F>>>, expected: &[Vec<Vec<f64>>]) {
    assert_eq!(actual.len(), expected.len());
    for (mat1, mat2) in actual.iter().zip(expected) {
        assert_eq!(mat1.len(), mat2.len());
        for (row1, row2) in mat1.iter().zip(mat2) {
            assert_eq!(row1.len(), row2.len());
            for (w1, w2) in row1.iter().zip(row2) {
                if !rel_eq(w1.0, *w2, 0.0001) {
                    println!("left = {}, right = {}", w1.0, w2);
                    assert!(false);
                }
            }
        }
    }
}

#[test]
fn test_gradient_descent() {}

#[test]
fn test_nn_1() {
    let thetas = nn_test_thetas();
    let (xs, ys) = nn_test_batch();

    let (cost, gradient) = get_cost_and_gradient(&thetas, &xs, &ys, F(0.0)).unwrap();

    assert!(rel_eq(cost.0, 1.5452, 0.001));

    assert_rel_eq_gradients(
        &gradient,
        &[
            vec![
                vec![0.007577493, 0.004330289, 0.000678956],
                vec![0.009409984, -0.000866898, 0.008883779],
                vec![0.073167619, 0.043740677, 0.000016839],
            ],
            vec![
                vec![0.346998, 0.201915, 0.190871, 0.222917],
                vec![-0.063920, -0.040649, -0.037689, -0.051031],
            ],
        ],
    );

    let (cost, gradient) = get_cost_and_gradient(&thetas, &xs, &ys, F(1.0)).unwrap();

    assert!(rel_eq(cost.0, 1.967837, 0.001));

    assert_rel_eq_gradients(
        &gradient,
        &[
            vec![
                vec![0.0075775, 0.1709970, 0.0673456],
                vec![0.0094100, 0.0991331, 0.0422171],
                vec![0.0731676, 0.3437407, 0.0366835],
            ],
            vec![
                vec![0.346998, 0.235248, 0.257537, 0.552917],
                vec![-0.063920, -0.023982, 0.128977, 0.015636],
            ],
        ],
    );
}

#[test]
fn test_sigmoid_gradient() {
    let gradient = sigmoid_gradient(&fv(&[-1.0, -0.5, 0.0, 0.5, 1.0]));
    let expected_gradient = [0.196612, 0.235004, 0.250000, 0.235004, 0.196612];
    assert_eq!(gradient.len(), expected_gradient.len());
    for (got, expected) in gradient.iter().zip(&expected_gradient) {
        assert!(rel_eq(got.0, *expected, 0.001));
    }
}

#[test]
fn linear_step_one_feature() {
    let theta = fv(&[0.0, 0.0]);
    let xs = fmat(&[vec![1.0], vec![2.0]]);
    let ys = fv(&[1.0, 2.0]);
    let new_theta = linear_step(&theta, F(0.01), &xs, &ys).unwrap();
    assert_eq!(new_theta.len(), 2);
    assert!(rel_eq(new_theta[0].0, 0.015, 1e-12));
    assert!(rel_eq(new_theta[1].0, 0.025, 1e-12));
}

#[test]
fn logistic_prediction() {
    let theta = fv(&[0.0, 1.0]);
    let at_zero = logistic_regression_predict(&theta, &fv(&[0.0]));
    assert!(rel_eq(at_zero.0, 0.5, 1e-12));
    let at_two = logistic_regression_predict(&theta, &fv(&[2.0]));
    assert!(rel_eq(at_two.0, 0.8808, 0.001));
}

#[test]
fn logistic_prediction_in_unit_interval() {
    // Scores of magnitude up to about 36 keep the double-precision sigmoid
    // strictly inside (0, 1); far beyond that it saturates to exactly 0 or 1.
    let cases: Vec<(Vec<f64>, Vec<f64>)> = vec![
        (vec![0.0, 1.0], vec![0.0]),
        (vec![5.0, -3.0], vec![7.5]),
        (vec![-20.0, 4.0, 2.5], vec![10.0, -4.0]),
        (vec![30.0, 1.0], vec![0.25]),
        (vec![-30.0, 1.0], vec![-0.25]),
        (vec![0.3, 0.0, 0.0], vec![9.9, -0.1]),
    ];
    for (theta, x) in cases {
        let h = logistic_regression_predict(&fv(&theta), &fv(&x));
        assert!(h.0 > 0.0 && h.0 < 1.0);
    }
}

#[test]
fn gradient_zero_fixed_point_linear() {
    // The targets already lie on the line y = x, so one step changes nothing.
    let theta = fv(&[0.0, 1.0]);
    let xs = fmat(&[vec![1.0], vec![2.0], vec![5.0]]);
    let ys = fv(&[1.0, 2.0, 5.0]);
    let new_theta = linear_step(&theta, F(0.1), &xs, &ys).unwrap();
    assert_eq!(new_theta[0].0, 0.0);
    assert_eq!(new_theta[1].0, 1.0);
}

#[test]
fn gradient_zero_fixed_point_logistic() {
    // With all-zero parameters the logistic prediction is exactly 1/2
    // everywhere; targets of 1/2 make every residual vanish.
    let theta = fv(&[0.0, 0.0]);
    let xs = fmat(&[vec![3.0], vec![-4.0]]);
    let ys = fv(&[0.5, 0.5]);
    let new_theta = logistic_step(&theta, F(0.1), &xs, &ys).unwrap();
    assert_eq!(new_theta[0].0, 0.0);
    assert_eq!(new_theta[1].0, 0.0);
}

#[test]
fn step_preserves_theta_length() {
    let theta = fv(&[0.1, 0.2, 0.3, 0.4]);
    let xs = fmat(&[vec![1.0, 2.0, 3.0], vec![4.0, 5.0, 6.0]]);
    let ys = fv(&[1.0, 0.0]);
    let lin = linear_step(&theta, F(0.05), &xs, &ys).unwrap();
    let log = logistic_step(&theta, F(0.05), &xs, &ys).unwrap();
    assert_eq!(lin.len(), theta.len());
    assert_eq!(log.len(), theta.len());
}

#[test]
fn normal_equation_system_values() {
    // X = [[1], [2]] gives the bias-extended design [[1, 1], [1, 2]], so
    // XᵀX = [[2, 3], [3, 5]] and Xᵀy = [3, 5] for y = [1, 2].
    let xs = fmat(&[vec![1.0], vec![2.0]]);
    let ys = fv(&[1.0, 2.0]);
    let (a, b) = normal_equation_system(&xs, &ys).unwrap();
    assert_eq!(a.len(), 2);
    assert_eq!(a[0], fv(&[2.0, 3.0]));
    assert_eq!(a[1], fv(&[3.0, 5.0]));
    assert_eq!(b, fv(&[3.0, 5.0]));
}

fn mean_squared_error(theta: &[f64], xs: &[f64], ys: &[f64]) -> f64 {
    let n = xs.len() as f64;
    xs.iter()
        .zip(ys)
        .map(|(x, y)| {
            let h = theta[0] + theta[1] * x;
            (h - y) * (h - y)
        })
        .sum::<f64>()
        / n
}

#[test]
fn normal_equation_beats_iterated_descent() {
    // A noisy line: y = 2x + 1 plus a fixed small perturbation per point.
    let noise = [0.05, -0.03, 0.02, -0.06, 0.04, 0.01, -0.02, 0.03];
    let mut raw_x: Vec<f64> = Vec::new();
    let mut raw_y: Vec<f64> = Vec::new();
    for i in 0..20 {
        let x = i as f64 * 0.5;
        raw_x.push(x);
        raw_y.push(2.0 * x + 1.0 + noise[i % noise.len()]);
    }
    let xs: Vec<Vec<F>> = raw_x.iter().map(|x| fv(&[*x])).collect();
    let ys = fv(&raw_y);

    // Closed form: the engine builds the system, nalgebra's pseudoinverse
    // finishes it.
    let (a, b) = normal_equation_system(&xs, &ys).unwrap();
    let a_flat: Vec<f64> = a.iter().flat_map(|r| r.iter().map(|v| v.0)).collect();
    let a_mat = nalgebra::DMatrix::from_row_slice(2, 2, &a_flat);
    let b_vec = nalgebra::DMatrix::from_row_slice(2, 1, &[b[0].0, b[1].0]);
    let pinv = a_mat.pseudo_inverse(0.0).unwrap();
    let star = pinv * b_vec;
    let theta_star = [star[(0, 0)], star[(1, 0)]];

    // Iterated descent from zero.
    let mut theta = fv(&[0.0, 0.0]);
    for _ in 0..5000 {
        theta = linear_step(&theta, F(0.01), &xs, &ys).unwrap();
    }
    let theta_iter = [theta[0].0, theta[1].0];

    let cost_star = mean_squared_error(&theta_star, &raw_x, &raw_y);
    let cost_iter = mean_squared_error(&theta_iter, &raw_x, &raw_y);
    assert!(cost_star <= cost_iter + 1e-9);
}

#[test]
fn regularisation_monotone_in_lambda() {
    let thetas = nn_test_thetas();
    let (xs, ys) = nn_test_batch();
    let lambdas = [0.0, 0.25, 0.5, 1.0, 2.0, 10.0];
    let mut previous = f64::NEG_INFINITY;
    for lambda in lambdas {
        let cost = cost_at(&thetas, &xs, &ys, lambda);
        assert!(cost >= previous);
        previous = cost;
    }
}

#[test]
fn bias_gradient_column_independent_of_lambda() {
    let thetas = nn_test_thetas();
    let (xs, ys) = nn_test_batch();
    let (_, grad_zero) = get_cost_and_gradient(&thetas, &xs, &ys, F(0.0)).unwrap();
    let (_, grad_reg) = get_cost_and_gradient(&thetas, &xs, &ys, F(3.5)).unwrap();
    for (m0, m1) in grad_zero.iter().zip(&grad_reg) {
        for (r0, r1) in m0.iter().zip(m1) {
            assert_eq!(r0[0].0, r1[0].0);
        }
    }
}

#[test]
fn gradient_matches_finite_difference() {
    let thetas = nn_test_thetas();
    let (xs, ys) = nn_test_batch();
    let lambda = 0.5;
    let (_, grad) = get_cost_and_gradient(&thetas, &xs, &ys, F(lambda)).unwrap();
    let e = 1e-5;
    for l in 0..thetas.len() {
        for r in 0..thetas[l].len() {
            for c in 0..thetas[l][r].len() {
                let mut up = thetas.clone();
                up[l][r][c] = F(up[l][r][c].0 + e);
                let mut down = thetas.clone();
                down[l][r][c] = F(down[l][r][c].0 - e);
                let estimate =
                    (cost_at(&up, &xs, &ys, lambda) - cost_at(&down, &xs, &ys, lambda)) / (2.0 * e);
                let analytic = grad[l][r][c].0;
                let scale = analytic.abs().max(estimate.abs()).max(1e-3);
                assert!((analytic - estimate).abs() <= 1e-4 * scale);
            }
        }
    }
}

#[test]
fn empty_dataset_is_reported() {
    let theta = fv(&[0.0, 0.0]);
    let xs: Vec<Vec<F>> = Vec::new();
    let ys: Vec<F> = Vec::new();
    assert_eq!(
        linear_step(&theta, F(0.01), &xs, &ys),
        Err(EngineError::EmptyDataset)
    );
    assert_eq!(
        logistic_step(&theta, F(0.01), &xs, &ys),
        Err(EngineError::EmptyDataset)
    );
    assert_eq!(
        normal_equation_system(&xs, &ys),
        Err(EngineError::EmptyDataset)
    );
    let labels: Vec<OneHot> = Vec::new();
    assert_eq!(
        get_cost_and_gradient(&nn_test_thetas(), &xs, &labels, F(0.0)),
        Err(EngineError::EmptyDataset)
    );
}

#[test]
fn shape_mismatch_is_reported() {
    let theta = fv(&[0.0, 0.0]);
    // A ragged feature matrix.
    let ragged = fmat(&[vec![1.0], vec![2.0, 3.0]]);
    let ys = fv(&[1.0, 2.0]);
    assert_eq!(
        linear_step(&theta, F(0.01), &ragged, &ys),
        Err(EngineError::ShapeMismatch)
    );
    // One target too few.
    let xs = fmat(&[vec![1.0], vec![2.0]]);
    let short_ys = fv(&[1.0]);
    assert_eq!(
        logistic_step(&theta, F(0.01), &xs, &short_ys),
        Err(EngineError::ShapeMismatch)
    );
    assert_eq!(
        normal_equation_system(&xs, &short_ys),
        Err(EngineError::ShapeMismatch)
    );
    // A parameter vector with no room for a feature weight.
    let bare = fv(&[0.0]);
    assert_eq!(
        linear_step(&bare, F(0.01), &xs, &ys),
        Err(EngineError::ShapeMismatch)
    );
}

#[test]
fn net_shape_mismatch_is_reported() {
    let (xs, ys) = nn_test_batch();
    // The second matrix expects three hidden units plus bias; offer two.
    let theta1 = fmat(&[vec![0.0, 0.5, 0.2], vec![0.0, 0.3, 0.1]]);
    let theta2 = fmat(&[vec![0.0, 0.1, 0.2, 0.99], vec![0.0, 0.05, 0.5, 0.2]]);
    let bad = vec![theta1, theta2];
    assert_eq!(
        get_cost_and_gradient(&bad, &xs, &ys, F(0.0)),
        Err(EngineError::ShapeMismatch)
    );
    // Labels wider than the output layer.
    let wide = vec![
        label(&[false, true, false]),
        label(&[true, false, false]),
        label(&[false, true, false]),
    ];
    assert_eq!(
        get_cost_and_gradient(&nn_test_thetas(), &xs, &wide, F(0.0)),
        Err(EngineError::ShapeMismatch)
    );
    // Feature rows narrower than the input layer.
    let thin = fmat(&[vec![0.1], vec![0.2], vec![1.0]]);
    assert_eq!(
        get_cost_and_gradient(&nn_test_thetas(), &thin, &ys, F(0.0)),
        Err(EngineError::ShapeMismatch)
    );
}

#[test]
fn log_of_zero_is_reported() {
    // A weight so negative that the sigmoid underflows to exactly zero; the
    // hot output unit then asks for ln(0).
    let thetas = vec![fmat(&[vec![-800.0, -800.0]])];
    let xs = fmat(&[vec![1.0]]);
    let ys = vec![label(&[true])];
    assert_eq!(
        get_cost_and_gradient(&thetas, &xs, &ys, F(0.0)),
        Err(EngineError::NumericalInvariant)
    );
}

struct CyclingSource {
    values: Vec<f64>,
    at: usize,
}

impl learning_engine::scalar::WeightSource<F> for CyclingSource {
    fn next_weight(&mut self) -> F {
        let v = self.values[self.at % self.values.len()];
        self.at += 1;
        F(v)
    }
}

#[test]
fn random_weights_shapes() {
    let mut source = CyclingSource {
        values: vec![-0.5, 0.25, 0.75, -1.0, 1.0],
        at: 0,
    };
    let sizes = vec![2, 3, 2];
    let thetas = learning_engine::init::get_random_weights(&sizes, &mut source).unwrap();
    assert_eq!(thetas.len(), 2);
    assert_eq!(thetas[0].len(), 3);
    for row in &thetas[0] {
        assert_eq!(row.len(), 3);
    }
    assert_eq!(thetas[1].len(), 2);
    for row in &thetas[1] {
        assert_eq!(row.len(), 4);
    }
    for matrix in &thetas {
        for row in matrix {
            for w in row {
                assert!(w.0 >= -1.0 && w.0 <= 1.0);
            }
        }
    }
}

#[test]
fn random_weights_bad_sizes() {
    let mut source = CyclingSource {
        values: vec![0.0],
        at: 0,
    };
    let single = vec![4];
    assert_eq!(
        learning_engine::init::get_random_weights(&single, &mut source),
        Err(EngineError::ShapeMismatch)
    );
    let hollow = vec![2, 0, 2];
    assert_eq!(
        learning_engine::init::get_random_weights(&hollow, &mut source),
        Err(EngineError::ShapeMismatch)
    );
}
