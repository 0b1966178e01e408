use neural_layers::error::LayerError;
use neural_layers::layers::{AddLayer, AffineLayer, MulLayer, SoftMaxWithLossLayer};
use neural_layers::matrix::{matmul_shape, Matrix, Shape};

const EPS: f64 = 1e-8;

fn close(a: f64, b: f64) -> bool {
    (a - b).abs() < EPS
}

fn mul_forward(l: &mut MulLayer<f64>, x: f64, y: f64) -> f64 {
    l.forward(x, y);
    x * y
}

fn mul_backward(l: &MulLayer<f64>, dout: f64) -> (f64, f64) {
    let (gx, gy) = l.backward().unwrap();
    (dout * gx, dout * gy)
}

#[test]
fn mul() {
    let mut a = MulLayer::new();
    let mut b = MulLayer::new();
    let tmp = mul_forward(&mut a, 100.0, 2.0);
    let ans = mul_forward(&mut b, tmp, 1.1);
    assert!(close(ans, 220.0));

    let (dap, dt) = mul_backward(&b, 1.0);
    let (da, dan) = mul_backward(&a, dap);
    assert!(close(da, 2.2));
    assert!(close(dan, 110.0));
    assert!(close(dt, 200.0));
}

#[test]
fn add_and_mul() {
    let mut al = MulLayer::new();
    let mut ol = MulLayer::new();
    let mut tl = MulLayer::new();
    let ap = mul_forward(&mut al, 100.0, 2.0);
    let op = mul_forward(&mut ol, 150.0, 3.0);
    let all_p = ap + op;
    let p = mul_forward(&mut tl, all_p, 1.1);
    assert!(close(p, 715.0));

    let (dall_p, dt) = mul_backward(&tl, 1.0);
    let (dap, dop) = AddLayer::backward(dall_p);
    let (dor, don) = mul_backward(&ol, dop);
    let (da, dan) = mul_backward(&al, dap);
    assert!(close(dan, 110.0));
    assert!(close(da, 2.2));
    assert!(close(dor, 3.3));
    assert!(close(don, 165.0));
    assert!(close(dt, 650.0));
}

#[test]
fn mul_backward_hands_operands_swapped() {
    let mut l = MulLayer::new();
    l.forward(3, 7);
    assert_eq!(l.backward(), Ok((7, 3)));
    l.forward(5, 11);
    assert_eq!(l.backward(), Ok((11, 5)));
}

#[test]
fn add_backward_splits_gradient() {
    assert_eq!(AddLayer::backward(4.5), (4.5, 4.5));
}

#[test]
fn fresh_mul_layer_is_not_ready() {
    let l: MulLayer<f64> = MulLayer::new();
    assert_eq!(l.backward(), Err(LayerError::StateNotReady));
}

fn m(rows: Vec<Vec<i64>>, cols: usize) -> Matrix<i64> {
    Matrix::from_rows(rows, cols).unwrap()
}

#[test]
fn from_rows_refuses_ragged_rows() {
    let r = Matrix::from_rows(vec![vec![1, 2], vec![3]], 2);
    assert_eq!(r.err(), Some(LayerError::ShapeMismatch));
    let e: Matrix<i64> = Matrix::from_rows(vec![], 4).unwrap();
    assert_eq!(e.shape(), Shape { rows: 0, cols: 4 });
}

#[test]
fn transpose_swaps_indices() {
    let a = m(vec![vec![1, 2, 3], vec![4, 5, 6]], 3);
    let t = a.transpose();
    assert_eq!(t.shape(), Shape { rows: 3, cols: 2 });
    assert_eq!(t.data, vec![vec![1, 4], vec![2, 5], vec![3, 6]]);
}

#[test]
fn matmul_shape_checks_inner_dimension() {
    let a = Shape { rows: 2, cols: 3 };
    let b = Shape { rows: 3, cols: 4 };
    assert_eq!(matmul_shape(a, b), Ok(Shape { rows: 2, cols: 4 }));
    assert_eq!(matmul_shape(b, a), Err(LayerError::ShapeMismatch));
}

#[test]
fn affine_new_checks_bias_length() {
    let w = m(vec![vec![1, 2], vec![3, 4], vec![5, 6]], 2);
    assert!(AffineLayer::new(w.clone(), vec![0, 0]).is_ok());
    assert_eq!(AffineLayer::new(w, vec![0, 0, 0]).err().map(|_| ()), Some(()));
}

#[test]
fn fresh_affine_layer_is_not_ready() {
    let w = m(vec![vec![1, 2], vec![3, 4], vec![5, 6]], 2);
    let l = AffineLayer::new(w, vec![0, 0]).unwrap();
    assert_eq!(l.backward(Shape { rows: 1, cols: 2 }).err(), Some(LayerError::StateNotReady));
}

#[test]
fn affine_shapes() {
    // a 4x3 input, a 3x2 weight, a bias of length 2
    let w = m(vec![vec![1, 2], vec![3, 4], vec![5, 6]], 2);
    let mut l = AffineLayer::new(w, vec![7, 8]).unwrap();
    let x = m(vec![vec![1, 0, 0], vec![0, 1, 0], vec![0, 0, 1], vec![1, 1, 1]], 3);
    let out = l.forward(x).unwrap();
    assert_eq!(out, Shape { rows: 4, cols: 2 });

    let op = l.backward(out).unwrap();
    assert_eq!(op.dx_shape, Shape { rows: 4, cols: 3 });
    assert_eq!(op.dw_shape, Shape { rows: 3, cols: 2 });
    assert_eq!(op.w_t.data, vec![vec![1, 3, 5], vec![2, 4, 6]]);
    assert_eq!(op.x_t.shape(), Shape { rows: 3, cols: 4 });
    assert_eq!(matmul_shape(out, op.w_t.shape()), Ok(op.dx_shape));
    assert_eq!(matmul_shape(op.x_t.shape(), out), Ok(op.dw_shape));

    assert_eq!(l.backward(Shape { rows: 4, cols: 3 }).err(), Some(LayerError::ShapeMismatch));

    let dw = m(vec![vec![0, 0], vec![0, 0], vec![0, 0]], 2);
    assert_eq!(l.set_grads(dw.clone(), vec![1, 2, 3]), Err(LayerError::ShapeMismatch));
    assert!(l.dw().is_none());
    assert_eq!(l.set_grads(dw, vec![1, 2]), Ok(()));
    assert_eq!(l.db(), &Some(vec![1, 2]));
}

#[test]
fn affine_forward_refuses_mismatched_input() {
    let w = m(vec![vec![1, 2], vec![3, 4], vec![5, 6]], 2);
    let mut l = AffineLayer::new(w, vec![0, 0]).unwrap();
    let x = m(vec![vec![1, 2]], 2);
    assert_eq!(l.forward(x), Err(LayerError::ShapeMismatch));
    assert!(l.x.is_none());
}

#[test]
fn fresh_loss_layer_is_not_ready() {
    let l: SoftMaxWithLossLayer<f64> = SoftMaxWithLossLayer::new();
    assert_eq!(l.backward().err(), Some(LayerError::StateNotReady));
}

#[test]
fn loss_layer_backward_formula() {
    let mut l = SoftMaxWithLossLayer::new();
    let y = Matrix::from_rows(vec![vec![0.25, 0.75], vec![0.5, 0.5]], 2).unwrap();
    let t = Matrix::from_rows(vec![vec![0.0, 1.0], vec![1.0, 0.0]], 2).unwrap();
    assert_eq!(l.forward(y, t), Ok(()));
    let op = l.backward().unwrap();
    assert_eq!(op.batch, 2);
    let batch = op.batch as f64;
    let grad = op.y.zip_with(op.t, move |y, t| (y - t) / batch).unwrap();
    assert_eq!(grad.data, vec![vec![0.125, -0.125], vec![-0.25, 0.25]]);
}

#[test]
fn loss_layer_refuses_mismatch_and_empty_batch() {
    let mut l = SoftMaxWithLossLayer::new();
    let y = Matrix::from_rows(vec![vec![0.5, 0.5]], 2).unwrap();
    let t = Matrix::from_rows(vec![vec![1.0]], 1).unwrap();
    assert_eq!(l.forward(y, t), Err(LayerError::ShapeMismatch));
    let e: Matrix<f64> = Matrix::from_rows(vec![], 2).unwrap();
    assert_eq!(l.forward(e.clone(), e), Err(LayerError::ShapeMismatch));
    assert!(l.backward().is_err());
}

#[test]
fn zip_with_combines_entrywise() {
    let a = m(vec![vec![1, 2], vec![3, 4]], 2);
    let b = m(vec![vec![10, 20], vec![30, 40]], 2);
    let c = a.zip_with(&b, |x, y| y - x).unwrap();
    assert_eq!(c.shape(), Shape { rows: 2, cols: 2 });
    assert_eq!(c.data, vec![vec![9, 18], vec![27, 36]]);
    let d = m(vec![vec![1, 2]], 2);
    assert_eq!(a.zip_with(&d, |x, y| x + y).err(), Some(LayerError::ShapeMismatch));
}
