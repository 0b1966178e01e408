use vstd::prelude::*;
use crate::error::LayerError;

verus! {

/// Number of rows and columns of a matrix.
#[derive(PartialEq, Eq, Structural, Debug, Clone, Copy)]
pub struct Shape {
    pub rows: usize,
    pub cols: usize,
}

/// The shape of the product of an `a.rows x a.cols` and a `b.rows x b.cols` matrix.
pub open spec fn product_shape(a: Shape, b: Shape) -> Option<Shape> {
    if a.cols == b.rows {
        Some(Shape { rows: a.rows, cols: b.cols })
    } else {
        None
    }
}

/// Shape of a matrix product, or `ShapeMismatch` when the inner dimensions differ.
pub fn matmul_shape(a: Shape, b: Shape) -> (r: Result<Shape, LayerError>)
    ensures
        product_shape(a, b) matches Some(s) ==> r == Ok::<Shape, LayerError>(s),
        product_shape(a, b) is None ==> r == Err::<Shape, LayerError>(LayerError::ShapeMismatch),
{
    if a.cols == b.rows {
        Ok(Shape { rows: a.rows, cols: b.cols })
    } else {
        Err(LayerError::ShapeMismatch)
    }
}

/// A dense matrix stored as a vector of rows, each of the same length.
#[derive(Clone, Debug)]
pub struct Matrix<T> {
    pub rows: usize,
    pub cols: usize,
    pub data: Vec<Vec<T>>,
}

impl<T> Matrix<T> {
    pub open spec fn wf(&self) -> bool {
        &&& self.data@.len() == self.rows
        &&& forall|i: int| 0 <= i < self.rows ==> (#[trigger] self.data@[i])@.len() == self.cols
    }

    pub open spec fn at(&self, i: int, j: int) -> T {
        self.data@[i]@[j]
    }

    pub open spec fn shape_of(&self) -> Shape {
        Shape { rows: self.rows, cols: self.cols }
    }

    /// Builds a `rows.len() x cols` matrix; every row must have `cols` entries.
    pub fn from_rows(rows: Vec<Vec<T>>, cols: usize) -> (r: Result<Matrix<T>, LayerError>)
        ensures
            (forall|i: int| 0 <= i < rows@.len() ==> (#[trigger] rows@[i])@.len() == cols) <==> r is Ok,
            r matches Ok(m) ==> m.wf() && m.data@ == rows@ && m.rows == rows@.len() && m.cols == cols,
            r matches Err(e) ==> e == LayerError::ShapeMismatch,
    {
        let n = rows.len();
        let mut i: usize = 0;
        while i < n
            invariant
                n == rows@.len(),
                0 <= i <= n,
                forall|k: int| 0 <= k < i ==> (#[trigger] rows@[k])@.len() == cols,
            decreases n - i,
        {
            if rows[i].len() != cols {
                return Err(LayerError::ShapeMismatch);
            }
            i = i + 1;
        }
        Ok(Matrix { rows: n, cols, data: rows })
    }

    pub fn shape(&self) -> (r: Shape)
        ensures
            r == self.shape_of(),
    {
        Shape { rows: self.rows, cols: self.cols }
    }
}

impl<T: Copy> Matrix<T> {
    /// The transpose: entry `(i, j)` of the result is entry `(j, i)` of `self`.
    pub fn transpose(&self) -> (r: Matrix<T>)
        requires
            self.wf(),
        ensures
            r.wf(),
            r.rows == self.cols,
            r.cols == self.rows,
            forall|i: int, j: int|
                0 <= i < r.rows && 0 <= j < r.cols ==> #[trigger] r.at(i, j) == self.at(j, i),
    {
        let mut out: Vec<Vec<T>> = Vec::new();
        let mut j: usize = 0;
        while j < self.cols
            invariant
                self.wf(),
                0 <= j <= self.cols,
                out@.len() == j,
                forall|a: int| 0 <= a < j ==> (#[trigger] out@[a])@.len() == self.rows,
                forall|a: int, b: int|
                    0 <= a < j && 0 <= b < self.rows ==> out@[a]@[b] == self.data@[b]@[a],
            decreases self.cols - j,
        {
            let mut col: Vec<T> = Vec::new();
            let mut i: usize = 0;
            while i < self.rows
                invariant
                    self.wf(),
                    0 <= j < self.cols,
                    0 <= i <= self.rows,
                    col@.len() == i,
                    forall|b: int| 0 <= b < i ==> col@[b] == self.data@[b]@[j as int],
                decreases self.rows - i,
            {
                let v: T = self.data[i][j];
                col.push(v);
                i = i + 1;
            }
            out.push(col);
            j = j + 1;
        }
        Matrix { rows: self.cols, cols: self.rows, data: out }
    }

    /// Combines two matrices of one shape entry by entry with `f`; entry `(i, j)`
    /// of the result is what `f` gave for entry `(i, j)` of `self` and of `other`.
    pub fn zip_with<F: Fn(T, T) -> T>(&self, other: &Matrix<T>, f: F) -> (r: Result<Matrix<T>, LayerError>)
        requires
            self.wf(),
            other.wf(),
            forall|a: T, b: T| f.requires((a, b)),
        ensures
            r is Ok <==> self.shape_of() == other.shape_of(),
            r matches Err(e) ==> e == LayerError::ShapeMismatch,
            r matches Ok(m) ==> {
                &&& m.wf() && m.shape_of() == self.shape_of()
                &&& forall|i: int, j: int| 0 <= i < m.rows && 0 <= j < m.cols
                    ==> f.ensures((self.at(i, j), other.at(i, j)), #[trigger] m.at(i, j))
            },
    {
        if self.rows != other.rows || self.cols != other.cols {
            return Err(LayerError::ShapeMismatch);
        }
        let mut out: Vec<Vec<T>> = Vec::new();
        let mut i: usize = 0;
        while i < self.rows
            invariant
                self.wf(),
                other.wf(),
                self.shape_of() == other.shape_of(),
                forall|a: T, b: T| f.requires((a, b)),
                0 <= i <= self.rows,
                out@.len() == i,
                forall|a: int| 0 <= a < i ==> (#[trigger] out@[a])@.len() == self.cols,
                forall|a: int, b: int| 0 <= a < i && 0 <= b < self.cols
                    ==> f.ensures((self.data@[a]@[b], other.data@[a]@[b]), out@[a]@[b]),
            decreases self.rows - i,
        {
            let mut row: Vec<T> = Vec::new();
            let mut j: usize = 0;
            while j < self.cols
                invariant
                    self.wf(),
                    other.wf(),
                    self.shape_of() == other.shape_of(),
                    forall|a: T, b: T| f.requires((a, b)),
                    0 <= i < self.rows,
                    0 <= j <= self.cols,
                    row@.len() == j,
                    forall|b: int| 0 <= b < j
                        ==> f.ensures((self.data@[i as int]@[b], other.data@[i as int]@[b]), row@[b]),
                decreases self.cols - j,
            {
                let v: T = f(self.data[i][j], other.data[i][j]);
                row.push(v);
                j = j + 1;
            }
            out.push(row);
            i = i + 1;
        }
        Ok(Matrix { rows: self.rows, cols: self.cols, data: out })
    }
}

} // verus!
