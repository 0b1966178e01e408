use vstd::prelude::*;
use crate::error::LayerError;
use crate::matrix::{Matrix, Shape, product_shape};

verus! {

/// Shape of `x W + b` for an input of shape `x` and a weight of shape `w`.
pub open spec fn affine_out_shape(x: Shape, w: Shape) -> Shape {
    Shape { rows: x.rows, cols: w.cols }
}

/// Linear layer `y = x W + b`.
///
/// The layer owns its parameters, caches the last input of `forward`, and keeps
/// the gradients `dW` and `db` that the last `backward` stored.  Element
/// arithmetic is done by the caller on the operands that the layer hands out:
/// `dx = dout * w_t`, `dW = x_t * dout`, `db` the column sums of `dout`.
pub struct AffineLayer<T> {
    pub w: Matrix<T>,
    pub b: Vec<T>,
    pub x: Option<Matrix<T>>,
    pub dw: Option<Matrix<T>>,
    pub db: Option<Vec<T>>,
}

/// What `backward` needs, taken from the state of an `AffineLayer`.
pub struct AffineBackward<T> {
    /// The transposed weight, `m x k`.
    pub w_t: Matrix<T>,
    /// The transposed cached input, `k x n`.
    pub x_t: Matrix<T>,
    /// Shape of the input gradient `dout * w_t`.
    pub dx_shape: Shape,
    /// Shape of the weight gradient `x_t * dout`.
    pub dw_shape: Shape,
}

impl<T> AffineLayer<T> {
    pub open spec fn wf(&self) -> bool {
        &&& self.w.wf()
        &&& self.b@.len() == self.w.cols
        &&& self.x matches Some(x) ==> x.wf() && x.cols == self.w.rows
        &&& self.dw matches Some(dw) ==> dw.wf() && dw.shape_of() == self.w.shape_of()
        &&& self.db matches Some(db) ==> db@.len() == self.w.cols
    }

    /// A fresh layer with weight `w` (`k x m`) and bias `b` (length `m`).
    pub fn new(w: Matrix<T>, b: Vec<T>) -> (r: Result<AffineLayer<T>, LayerError>)
        requires
            w.wf(),
        ensures
            r is Ok <==> b@.len() == w.cols,
            r matches Err(e) ==> e == LayerError::ShapeMismatch,
            r matches Ok(l) ==> l.wf() && l.w == w && l.b == b && l.x is None && l.dw is None
                && l.db is None,
    {
        if b.len() != w.cols {
            return Err(LayerError::ShapeMismatch);
        }
        Ok(AffineLayer { w, b, x: None, dw: None, db: None })
    }

    /// Caches the input `x` of a forward pass and returns the shape of `x W + b`.
    /// A mismatched `x` is refused before the state changes.
    pub fn forward(&mut self, x: Matrix<T>) -> (r: Result<Shape, LayerError>)
        requires
            old(self).wf(),
            x.wf(),
        ensures
            final(self).wf(),
            final(self).w == old(self).w,
            final(self).b == old(self).b,
            final(self).dw == old(self).dw,
            final(self).db == old(self).db,
            r is Ok <==> x.cols == old(self).w.rows,
            r matches Ok(s) ==> s == affine_out_shape(x.shape_of(), old(self).w.shape_of())
                && final(self).x == Some(x),
            r matches Err(e) ==> e == LayerError::ShapeMismatch && final(self).x == old(self).x,
    {
        if x.cols != self.w.rows {
            return Err(LayerError::ShapeMismatch);
        }
        let s = Shape { rows: x.rows, cols: self.w.cols };
        self.x = Some(x);
        Ok(s)
    }

    /// Stores the gradients that the caller computed from `backward`'s operands.
    pub fn set_grads(&mut self, dw: Matrix<T>, db: Vec<T>) -> (r: Result<(), LayerError>)
        requires
            old(self).wf(),
            dw.wf(),
        ensures
            final(self).wf(),
            final(self).w == old(self).w,
            final(self).b == old(self).b,
            final(self).x == old(self).x,
            r is Ok <==> dw.shape_of() == old(self).w.shape_of() && db@.len() == old(self).w.cols,
            r is Ok ==> final(self).dw == Some(dw) && final(self).db == Some(db),
            r matches Err(e) ==> e == LayerError::ShapeMismatch && final(self).dw == old(self).dw
                && final(self).db == old(self).db,
    {
        if dw.rows != self.w.rows || dw.cols != self.w.cols || db.len() != self.w.cols {
            return Err(LayerError::ShapeMismatch);
        }
        self.dw = Some(dw);
        self.db = Some(db);
        Ok(())
    }

    /// The weight gradient of the last `backward`, if one was stored.
    pub fn dw(&self) -> (r: &Option<Matrix<T>>)
        ensures
            r == &self.dw,
    {
        &self.dw
    }

    /// The bias gradient of the last `backward`, if one was stored.
    pub fn db(&self) -> (r: &Option<Vec<T>>)
        ensures
            r == &self.db,
    {
        &self.db
    }
}

impl<T: Copy> AffineLayer<T> {
    /// The operands of a backward pass for an upstream gradient of shape `dout`:
    /// `StateNotReady` before any `forward`, `ShapeMismatch` when `dout` is not
    /// the shape of the last output.
    pub fn backward(&self, dout: Shape) -> (r: Result<AffineBackward<T>, LayerError>)
        requires
            self.wf(),
        ensures
            self.x is None ==> r == Err::<AffineBackward<T>, LayerError>(LayerError::StateNotReady),
            self.x matches Some(x) ==> (r is Ok <==> dout == affine_out_shape(x.shape_of(), self.w.shape_of())),
            self.x is Some && r is Err ==> r == Err::<AffineBackward<T>, LayerError>(LayerError::ShapeMismatch),
            r matches Ok(op) ==> {
                let x = self.x->Some_0;
                &&& op.w_t.wf() && op.x_t.wf()
                &&& op.w_t.shape_of() == (Shape { rows: self.w.cols, cols: self.w.rows })
                &&& op.x_t.shape_of() == (Shape { rows: x.cols, cols: x.rows })
                &&& (forall|i: int, j: int| 0 <= i < op.w_t.rows && 0 <= j < op.w_t.cols
                    ==> #[trigger] op.w_t.at(i, j) == self.w.at(j, i))
                &&& (forall|i: int, j: int| 0 <= i < op.x_t.rows && 0 <= j < op.x_t.cols
                    ==> #[trigger] op.x_t.at(i, j) == x.at(j, i))
                &&& product_shape(dout, op.w_t.shape_of()) == Some(op.dx_shape)
                &&& product_shape(op.x_t.shape_of(), dout) == Some(op.dw_shape)
                &&& op.dx_shape == x.shape_of()
                &&& op.dw_shape == self.w.shape_of()
            },
    {
        match &self.x {
            None => Err(LayerError::StateNotReady),
            Some(x) => {
                if dout.rows != x.rows || dout.cols != self.w.cols {
                    return Err(LayerError::ShapeMismatch);
                }
                let w_t = self.w.transpose();
                let x_t = x.transpose();
                Ok(AffineBackward {
                    w_t,
                    x_t,
                    dx_shape: Shape { rows: x.rows, cols: x.cols },
                    dw_shape: Shape { rows: self.w.rows, cols: self.w.cols },
                })
            },
        }
    }
}

/// Softmax activation fused with cross-entropy loss.
///
/// `forward` caches the softmax output `y` and the target `t`; `backward` hands
/// them out with the batch size, from which the gradient is `(y - t) / batch`.
pub struct SoftMaxWithLossLayer<T> {
    pub y: Option<Matrix<T>>,
    pub t: Option<Matrix<T>>,
}

/// The cached operands of the loss gradient `(y - t) / batch`.
pub struct LossBackward<'a, T> {
    pub y: &'a Matrix<T>,
    pub t: &'a Matrix<T>,
    pub batch: usize,
}

impl<T> SoftMaxWithLossLayer<T> {
    pub open spec fn wf(&self) -> bool {
        &&& self.y is Some <==> self.t is Some
        &&& self.y matches Some(y) ==> y.wf() && y.rows >= 1
        &&& self.t matches Some(t) ==> t.wf() && t.shape_of() == self.y->Some_0.shape_of()
    }

    /// A fresh layer with nothing cached.
    pub fn new() -> (r: SoftMaxWithLossLayer<T>)
        ensures
            r.wf(),
            r.y is None,
            r.t is None,
    {
        SoftMaxWithLossLayer { y: None, t: None }
    }

    /// Caches the softmax output `y` and the target `t` of a forward pass.
    /// Both must have one shape and at least one row; otherwise nothing changes.
    pub fn forward(&mut self, y: Matrix<T>, t: Matrix<T>) -> (r: Result<(), LayerError>)
        requires
            old(self).wf(),
            y.wf(),
            t.wf(),
        ensures
            final(self).wf(),
            r is Ok <==> y.shape_of() == t.shape_of() && y.rows >= 1,
            r is Ok ==> final(self).y == Some(y) && final(self).t == Some(t),
            r matches Err(e) ==> e == LayerError::ShapeMismatch && final(self).y == old(self).y
                && final(self).t == old(self).t,
    {
        if y.rows != t.rows || y.cols != t.cols || y.rows == 0 {
            return Err(LayerError::ShapeMismatch);
        }
        self.y = Some(y);
        self.t = Some(t);
        Ok(())
    }

    /// The operands of the gradient `(y - t) / batch`, `batch` being the row count
    /// of `t`; `StateNotReady` before any `forward`.
    pub fn backward(&self) -> (r: Result<LossBackward<'_, T>, LayerError>)
        requires
            self.wf(),
        ensures
            self.t is None ==> r is Err && r->Err_0 == LayerError::StateNotReady,
            self.t is Some ==> r is Ok,
            r matches Ok(op) ==> self.y == Some(*op.y) && self.t == Some(*op.t)
                && op.batch == op.t.rows && op.batch >= 1 && op.y.shape_of() == op.t.shape_of(),
    {
        match (&self.y, &self.t) {
            (Some(y), Some(t)) => Ok(LossBackward { y, t, batch: t.rows }),
            _ => Err(LayerError::StateNotReady),
        }
    }
}

/// Addition node `x + y`; it keeps no state.
pub struct AddLayer;

impl AddLayer {
    /// The gradient of `x + y` reaches both addends unchanged.
    pub fn backward<T: Copy>(dout: T) -> (r: (T, T))
        ensures
            r == (dout, dout),
    {
        (dout, dout)
    }
}

/// Multiplication node `x * y`; it keeps the operands of the last `forward`.
pub struct MulLayer<T> {
    pub operands: Option<(T, T)>,
}

impl<T: Copy> MulLayer<T> {
    /// A fresh node with no operands.
    pub fn new() -> (r: MulLayer<T>)
        ensures
            r.operands is None,
    {
        MulLayer { operands: None }
    }

    /// Records the operands `x` and `y`, replacing any earlier pair.
    pub fn forward(&mut self, x: T, y: T)
        ensures
            final(self).operands == Some((x, y)),
    {
        self.operands = Some((x, y));
    }

    /// The local gradients `(d(xy)/dx, d(xy)/dy) = (y, x)`, which the caller scales
    /// by the upstream gradient; `StateNotReady` before any `forward`.
    pub fn backward(&self) -> (r: Result<(T, T), LayerError>)
        ensures
            self.operands matches Some(p) ==> r == Ok::<(T, T), LayerError>((p.1, p.0)),
            self.operands is None ==> r == Err::<(T, T), LayerError>(LayerError::StateNotReady),
    {
        match self.operands {
            Some((x, y)) => Ok((y, x)),
            None => Err(LayerError::StateNotReady),
        }
    }
}

} // verus!

verus! {

/// For an `n x k` input and a `k x m` weight, the forward output is `n x m`;
/// an `n x m` upstream gradient times the transposed weight gives an `n x k`
/// input gradient, and the transposed input times it gives a `k x m` weight
/// gradient.
pub proof fn lemma_affine_shapes(x: Shape, w: Shape)
    requires
        x.cols == w.rows,
    ensures
        affine_out_shape(x, w) == (Shape { rows: x.rows, cols: w.cols }),
        product_shape(x, w) == Some(affine_out_shape(x, w)),
        product_shape(affine_out_shape(x, w), Shape { rows: w.cols, cols: w.rows }) == Some(x),
        product_shape(Shape { rows: x.cols, cols: x.rows }, affine_out_shape(x, w)) == Some(w),
{
}

} // verus!
