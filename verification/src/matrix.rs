//! Four by four matrices: the standard transforms, products, and the
//! inverse by Gauss-Jordan elimination with partial pivoting. Quotients
//! and sums of products are formulas that the caller hands in.
use vstd::prelude::*;
use crate::number::Binary64;
use crate::point::Point;
use crate::vector::Vector3;

verus! {

#[derive(Clone, Copy, Debug)]
pub struct Matrix44 {
    elements: [[Binary64; 4]; 4],
}

impl Matrix44 {
    /// The entry in the given row and column, both counted from 0.
    pub closed spec fn entry(self, row: int, column: int) -> Binary64 {
        self.elements[row][column]
    }

    /// Whether the matrix has the three factors down its diagonal, then
    /// 1, and 0 everywhere else.
    pub open spec fn is_scale(self, sx: Binary64, sy: Binary64, sz: Binary64) -> bool {
        forall|r: int, c: int|
            0 <= r < 4 && 0 <= c < 4 ==> #[trigger] self.entry(r, c) == if r != c {
                Binary64::zero_spec()
            } else if r == 0 {
                sx
            } else if r == 1 {
                sy
            } else if r == 2 {
                sz
            } else {
                Binary64::one_spec()
            }
    }

    /// Whether the matrix is the rotation whose angle has the given sine
    /// and cosine, in the plane of the axes `a` and `b`: the cosine at
    /// `(a, a)` and `(b, b)`, the sine at `(a, b)`, its negative at
    /// `(b, a)`, and the identity elsewhere.
    pub open spec fn is_rotation(self, a: int, b: int, sin: Binary64, cos: Binary64) -> bool {
        forall|r: int, c: int|
            0 <= r < 4 && 0 <= c < 4 ==> #[trigger] self.entry(r, c) == if (r == a && c == a) || (r
                == b && c == b) {
                cos
            } else if r == a && c == b {
                sin
            } else if r == b && c == a {
                sin.neg_spec()
            } else if r == c {
                Binary64::one_spec()
            } else {
                Binary64::zero_spec()
            }
    }

    /// The row that elimination in `column` pivots on, when the rows from
    /// `column` up to, but not including, `upto` have been looked at: it
    /// starts as the row of the diagonal, and a later row takes its place
    /// when its entry is larger in magnitude than the one held.
    pub open spec fn pivot_spec(self, column: int, upto: int) -> int
        decreases upto - column,
    {
        if upto <= column + 1 {
            column
        } else {
            let held = self.pivot_spec(column, upto - 1);
            if self.entry(held, column).abs_spec().lt_spec(
                self.entry(upto - 1, column).abs_spec(),
            ) {
                upto - 1
            } else {
                held
            }
        }
    }

    /// The matrix that changes nothing.
    pub fn identity() -> (m: Matrix44)
        ensures
            m.is_scale(Binary64::one_spec(), Binary64::one_spec(), Binary64::one_spec()),
    {
        Matrix44::scale(Binary64::one(), Binary64::one(), Binary64::one())
    }

    /// The matrix that scales by the same factor along every axis.
    pub fn scale_linear(s: Binary64) -> (m: Matrix44)
        ensures
            m.is_scale(s, s, s),
    {
        Matrix44::scale(s, s, s)
    }

    /// The matrix that scales by a factor of its own along each axis.
    pub fn scale(sx: Binary64, sy: Binary64, sz: Binary64) -> (m: Matrix44)
        ensures
            m.is_scale(sx, sy, sz),
    {
        let o = Binary64::zero();
        let i = Binary64::one();
        Matrix44 { elements: [[sx, o, o, o], [o, sy, o, o], [o, o, sz, o], [o, o, o, i]] }
    }

    /// The rotation about the x axis by the angle with the given sine and
    /// cosine.
    pub fn rotate_x(sin: Binary64, cos: Binary64) -> (m: Matrix44)
        ensures
            m.is_rotation(1, 2, sin, cos),
    {
        let o = Binary64::zero();
        let i = Binary64::one();
        let n = sin.neg();
        Matrix44 { elements: [[i, o, o, o], [o, cos, sin, o], [o, n, cos, o], [o, o, o, i]] }
    }

    /// The rotation about the y axis by the angle with the given sine and
    /// cosine.
    pub fn rotate_y(sin: Binary64, cos: Binary64) -> (m: Matrix44)
        ensures
            m.is_rotation(2, 0, sin, cos),
    {
        let o = Binary64::zero();
        let i = Binary64::one();
        let n = sin.neg();
        Matrix44 { elements: [[cos, o, n, o], [o, i, o, o], [sin, o, cos, o], [o, o, o, i]] }
    }

    /// The rotation about the z axis by the angle with the given sine and
    /// cosine.
    pub fn rotate_z(sin: Binary64, cos: Binary64) -> (m: Matrix44)
        ensures
            m.is_rotation(0, 1, sin, cos),
    {
        let o = Binary64::zero();
        let i = Binary64::one();
        let n = sin.neg();
        Matrix44 { elements: [[cos, sin, o, o], [n, cos, o, o], [o, o, i, o], [o, o, o, i]] }
    }

    /// Whether the matrix is the translation by the three displacements:
    /// ones down the diagonal, the displacements in the last row, from
    /// where a point takes them when the matrix is applied to it, and 0
    /// everywhere else.
    pub open spec fn is_translation(self, tx: Binary64, ty: Binary64, tz: Binary64) -> bool {
        forall|r: int, c: int|
            0 <= r < 4 && 0 <= c < 4 ==> #[trigger] self.entry(r, c) == if r == c {
                Binary64::one_spec()
            } else if r != 3 {
                Binary64::zero_spec()
            } else if c == 0 {
                tx
            } else if c == 1 {
                ty
            } else {
                tz
            }
    }

    /// The matrix that moves every point by the three displacements.
    pub fn translate(tx: Binary64, ty: Binary64, tz: Binary64) -> (m: Matrix44)
        ensures
            m.is_translation(tx, ty, tz),
    {
        let o = Binary64::zero();
        let i = Binary64::one();
        Matrix44 { elements: [[i, o, o, o], [o, i, o, o], [o, o, i, o], [tx, ty, tz, i]] }
    }

    /// A matrix of the given rows.
    pub fn from_rows(rows: [[Binary64; 4]; 4]) -> (m: Matrix44)
        ensures
            forall|r: int, c: int| 0 <= r < 4 && 0 <= c < 4 ==> #[trigger] m.entry(r, c) == rows[r][c],
    {
        Matrix44 { elements: rows }
    }

    /// The entry in the given row and column, both counted from 0.
    pub fn get(&self, row: usize, column: usize) -> (e: Binary64)
        requires
            row < 4,
            column < 4,
        ensures
            e == self.entry(row as int, column as int),
    {
        self.elements[row][column]
    }

    /// The row to pivot on when eliminating in `column`: of the rows from
    /// the diagonal down, the one with the entry of largest magnitude.
    /// None where that entry is zero: the matrix is then singular and has
    /// no inverse.
    pub open spec fn pivot_choice(self, column: int) -> Option<int> {
        let row = self.pivot_spec(column, 4);
        if self.entry(row, column).abs_spec().same_spec(Binary64::zero_spec()) {
            None
        } else {
            Some(row)
        }
    }

    /// The row to pivot on when eliminating in `column`, if there is one.
    pub fn pivot(&self, column: usize) -> (row: Option<usize>)
        requires
            column < 4,
        ensures
            match row {
                Some(r) => self.pivot_choice(column as int) == Some(r as int) && column <= r < 4,
                None => self.pivot_choice(column as int) is None,
            },
    {
        let mut pivot: usize = column;
        let mut size: Binary64 = self.get(column, column).abs();
        let mut j: usize = column + 1;
        while j < 4
            invariant
                column < j <= 4,
                column <= pivot < j,
                pivot == self.pivot_spec(column as int, j as int),
                size == self.entry(pivot as int, column as int).abs_spec(),
            decreases 4 - j,
        {
            let candidate: Binary64 = self.get(j, column).abs();
            if candidate.gt(size) {
                pivot = j;
                size = candidate;
            }
            j = j + 1;
        }
        if size.same(Binary64::zero()) {
            None
        } else {
            Some(pivot)
        }
    }

    /// Where no entry of the column is a NaN, the pivot is the first of
    /// the rows whose entry is largest in magnitude.
    pub proof fn pivot_is_first_largest(self, column: int, upto: int)
        requires
            0 <= column < upto <= 4,
            forall|r: int| column <= r < upto ==> !(#[trigger] self.entry(r, column)).nan(),
        ensures
            column <= self.pivot_spec(column, upto) < upto,
            forall|r: int|
                column <= r < upto ==> (#[trigger] self.entry(r, column)).magnitude() <= self.entry(
                    self.pivot_spec(column, upto),
                    column,
                ).magnitude(),
            forall|r: int|
                column <= r < self.pivot_spec(column, upto) ==> (#[trigger] self.entry(
                    r,
                    column,
                )).magnitude() < self.entry(self.pivot_spec(column, upto), column).magnitude(),
        decreases upto,
    {
        if upto > column + 1 {
            self.pivot_is_first_largest(column, upto - 1);
        }
    }

    /// Whether the matrix has ones down its diagonal and zeros elsewhere.
    pub open spec fn is_identity(self) -> bool {
        self.is_scale(Binary64::one_spec(), Binary64::one_spec(), Binary64::one_spec())
    }

    /// Whether two matrices have the same entries.
    pub open spec fn same_as(self, other: Matrix44) -> bool {
        forall|r: int, c: int|
            0 <= r < 4 && 0 <= c < 4 ==> #[trigger] self.entry(r, c) == other.entry(r, c)
    }

    /// Whether row `r` is the same here as in `other`.
    pub open spec fn row_same(self, other: Matrix44, r: int) -> bool {
        forall|c: int| 0 <= c < 4 ==> #[trigger] self.entry(r, c) == other.entry(r, c)
    }

    /// Whether the matrix is `before` with the rows `a` and `b` changing
    /// places.
    pub open spec fn rows_swapped(self, before: Matrix44, a: int, b: int) -> bool {
        forall|r: int, c: int|
            0 <= r < 4 && 0 <= c < 4 ==> #[trigger] self.entry(r, c) == before.entry(
                if r == a {
                    b
                } else if r == b {
                    a
                } else {
                    r
                },
                c,
            )
    }

    /// Whether row `r` is row `r` of `before` with every entry divided by
    /// `f`.
    pub open spec fn row_divided<D: Fn(Binary64, Binary64) -> Binary64>(
        self,
        divide: &D,
        before: Matrix44,
        r: int,
        f: Binary64,
    ) -> bool {
        forall|c: int|
            0 <= c < 4 ==> divide.ensures((before.entry(r, c), f), #[trigger] self.entry(r, c))
    }

    /// Whether row `r` is row `r` of `before` less `f` times row `by` of
    /// `with`, entry by entry.
    pub open spec fn row_reduced<R: Fn(Binary64, Binary64, Binary64) -> Binary64>(
        self,
        reduce: &R,
        before: Matrix44,
        r: int,
        f: Binary64,
        with: Matrix44,
        by: int,
    ) -> bool {
        forall|c: int|
            0 <= c < 4 ==> reduce.ensures(
                (before.entry(r, c), f, with.entry(by, c)),
                #[trigger] self.entry(r, c),
            )
    }

    /// The matrix with one row replaced.
    fn with_row(&self, r: usize, row: [Binary64; 4]) -> (m: Matrix44)
        requires
            r < 4,
        ensures
            forall|c: int| 0 <= c < 4 ==> #[trigger] m.entry(r as int, c) == row[c],
            forall|other: int| 0 <= other < 4 && other != r ==> m.row_same(*self, other),
    {
        let mut elements = self.elements;
        elements[r] = row;
        Matrix44 { elements }
    }

    /// The matrix with two rows changing places.
    fn swap_rows(&self, a: usize, b: usize) -> (m: Matrix44)
        requires
            a < 4,
            b < 4,
        ensures
            m.rows_swapped(*self, a as int, b as int),
    {
        let mut elements = self.elements;
        let first = self.elements[a];
        let second = self.elements[b];
        elements[a] = second;
        elements[b] = first;
        Matrix44 { elements }
    }

    /// Row `r` with every entry divided by `f`.
    fn divided_row<D: Fn(Binary64, Binary64) -> Binary64>(&self, r: usize, f: Binary64, divide: &D) -> (row:
        [Binary64; 4])
        requires
            r < 4,
            forall|a: Binary64, b: Binary64| divide.requires((a, b)),
        ensures
            forall|c: int|
                0 <= c < 4 ==> divide.ensures((self.entry(r as int, c), f), #[trigger] row[c]),
    {
        [
            (*divide)(self.get(r, 0), f),
            (*divide)(self.get(r, 1), f),
            (*divide)(self.get(r, 2), f),
            (*divide)(self.get(r, 3), f),
        ]
    }

    /// Row `r` less `f` times row `by` of `with`.
    fn reduced_row<R: Fn(Binary64, Binary64, Binary64) -> Binary64>(
        &self,
        r: usize,
        f: Binary64,
        with: &Matrix44,
        by: usize,
        reduce: &R,
    ) -> (row: [Binary64; 4])
        requires
            r < 4,
            by < 4,
            forall|x: Binary64, f: Binary64, y: Binary64| reduce.requires((x, f, y)),
        ensures
            forall|c: int|
                0 <= c < 4 ==> reduce.ensures(
                    (self.entry(r as int, c), f, with.entry(by as int, c)),
                    #[trigger] row[c],
                ),
    {
        [
            (*reduce)(self.get(r, 0), f, with.get(by, 0)),
            (*reduce)(self.get(r, 1), f, with.get(by, 1)),
            (*reduce)(self.get(r, 2), f, with.get(by, 2)),
            (*reduce)(self.get(r, 3), f, with.get(by, 3)),
        ]
    }

    /// Whether row `j` of `t2` and `s2` has had its entry in column `i`
    /// cleared: it is row `j` of `t` and `s` less row `i`, taken as often
    /// as the pivot goes into the entry that is to be cleared.
    pub open spec fn row_cleared<
        D: Fn(Binary64, Binary64) -> Binary64,
        R: Fn(Binary64, Binary64, Binary64) -> Binary64,
    >(
        divide: &D,
        reduce: &R,
        t: Matrix44,
        s: Matrix44,
        i: int,
        j: int,
        t2: Matrix44,
        s2: Matrix44,
    ) -> bool {
        exists|f: Binary64| #[trigger]
            divide.ensures((t.entry(j, i), t.entry(i, i)), f) && t2.row_reduced(
                reduce,
                t,
                j,
                f,
                t,
                i,
            ) && s2.row_reduced(reduce, s, j, f, s, i)
    }

    /// Whether row `j` of `t2` and `s2` is as elimination in column `i`
    /// leaves it once the rows up to, not including, `upto` are done: a
    /// row below the pivot row that is done has its entry cleared, every
    /// other row is as it was in `t` and `s`.
    pub open spec fn row_below<
        D: Fn(Binary64, Binary64) -> Binary64,
        R: Fn(Binary64, Binary64, Binary64) -> Binary64,
    >(
        divide: &D,
        reduce: &R,
        t: Matrix44,
        s: Matrix44,
        i: int,
        upto: int,
        j: int,
        t2: Matrix44,
        s2: Matrix44,
    ) -> bool {
        if i < j < upto {
            Matrix44::row_cleared(divide, reduce, t, s, i, j, t2, s2)
        } else {
            t2.row_same(t, j) && s2.row_same(s, j)
        }
    }

    /// Whether `t2` and `s2` are `t` and `s` after elimination in column
    /// `i`, with the rows up to, not including, `upto` done.
    pub open spec fn cleared_below<
        D: Fn(Binary64, Binary64) -> Binary64,
        R: Fn(Binary64, Binary64, Binary64) -> Binary64,
    >(
        divide: &D,
        reduce: &R,
        t: Matrix44,
        s: Matrix44,
        i: int,
        upto: int,
        t2: Matrix44,
        s2: Matrix44,
    ) -> bool {
        forall|j: int|
            0 <= j < 4 ==> #[trigger] Matrix44::row_below(divide, reduce, t, s, i, upto, j, t2, s2)
    }

    /// Whether row `j` of `t2` and `s2` is as substitution in column `i`
    /// leaves it once the rows up to, not including, `upto` are done:
    /// row `i` is divided by its entry on the diagonal, a row above it
    /// that is done has lost its entry in column `i` to the divided row,
    /// every other row is as it was in `t` and `s`.
    pub open spec fn row_above<
        D: Fn(Binary64, Binary64) -> Binary64,
        R: Fn(Binary64, Binary64, Binary64) -> Binary64,
    >(
        divide: &D,
        reduce: &R,
        t: Matrix44,
        s: Matrix44,
        i: int,
        upto: int,
        j: int,
        t2: Matrix44,
        s2: Matrix44,
    ) -> bool {
        if j == i {
            t2.row_divided(divide, t, i, t.entry(i, i)) && s2.row_divided(
                divide,
                s,
                i,
                t.entry(i, i),
            )
        } else if j < i && j < upto {
            t2.row_reduced(reduce, t, j, t.entry(j, i), t2, i) && s2.row_reduced(
                reduce,
                s,
                j,
                t.entry(j, i),
                s2,
                i,
            )
        } else {
            t2.row_same(t, j) && s2.row_same(s, j)
        }
    }

    /// Whether `t2` and `s2` are `t` and `s` after substitution in column
    /// `i`, with the rows up to, not including, `upto` done.
    pub open spec fn cleared_above<
        D: Fn(Binary64, Binary64) -> Binary64,
        R: Fn(Binary64, Binary64, Binary64) -> Binary64,
    >(
        divide: &D,
        reduce: &R,
        t: Matrix44,
        s: Matrix44,
        i: int,
        upto: int,
        t2: Matrix44,
        s2: Matrix44,
    ) -> bool {
        forall|j: int|
            0 <= j < 4 ==> #[trigger] Matrix44::row_above(divide, reduce, t, s, i, upto, j, t2, s2)
    }

    /// Whether `t2` and `s2` are `t` and `s` after one step of
    /// elimination: the pivot row of column `i` changes places with row
    /// `i`, which gives `tp` and `sp`, and the rows below lose their
    /// entries in column `i`.
    pub open spec fn eliminates_column<
        D: Fn(Binary64, Binary64) -> Binary64,
        R: Fn(Binary64, Binary64, Binary64) -> Binary64,
    >(
        divide: &D,
        reduce: &R,
        t: Matrix44,
        s: Matrix44,
        i: int,
        tp: Matrix44,
        sp: Matrix44,
        t2: Matrix44,
        s2: Matrix44,
    ) -> bool {
        &&& t.pivot_choice(i) is Some
        &&& tp.rows_swapped(t, i, t.pivot_choice(i)->0)
        &&& sp.rows_swapped(s, i, t.pivot_choice(i)->0)
        &&& Matrix44::cleared_below(divide, reduce, tp, sp, i, 4, t2, s2)
    }

    /// Whether `result` is what substitution from column `i` back to the
    /// first makes of `t` and `s`: the identity where an entry on the
    /// diagonal of `t` is zero, and else what has become of `s` in the
    /// end.
    pub open spec fn substitutes<
        D: Fn(Binary64, Binary64) -> Binary64,
        R: Fn(Binary64, Binary64, Binary64) -> Binary64,
    >(divide: &D, reduce: &R, t: Matrix44, s: Matrix44, i: int, result: Matrix44) -> bool
        decreases i + 1,
    {
        if i < 0 {
            result.same_as(s)
        } else if i >= 4 {
            false
        } else if t.entry(i, i).same_spec(Binary64::zero_spec()) {
            result.is_identity()
        } else {
            exists|t2: Matrix44, s2: Matrix44| #[trigger]
                Matrix44::cleared_above(divide, reduce, t, s, i, i, t2, s2)
                    && Matrix44::substitutes(divide, reduce, t2, s2, i - 1, result)
        }
    }

    /// Whether `result` is what elimination from column `i` on, and
    /// substitution after it, make of `t` and `s`: the identity where a
    /// column has no pivot, since `t` is singular then.
    pub open spec fn eliminates<
        D: Fn(Binary64, Binary64) -> Binary64,
        R: Fn(Binary64, Binary64, Binary64) -> Binary64,
    >(divide: &D, reduce: &R, t: Matrix44, s: Matrix44, i: int, result: Matrix44) -> bool
        decreases 3 - i,
    {
        if i < 0 {
            false
        } else if i >= 3 {
            Matrix44::substitutes(divide, reduce, t, s, 3, result)
        } else {
            if t.pivot_choice(i) is None {
                result.is_identity()
            } else {
                exists|tp: Matrix44, sp: Matrix44, t2: Matrix44, s2: Matrix44| #[trigger]
                    Matrix44::eliminates_column(divide, reduce, t, s, i, tp, sp, t2, s2)
                        && Matrix44::eliminates(divide, reduce, t2, s2, i + 1, result)
            }
        }
    }

    /// Whether `result` is the inverse as Gauss-Jordan elimination with
    /// partial pivoting finds it: the matrix is taken to the identity by
    /// row operations, and the same operations take the identity to the
    /// inverse. For a singular matrix the result is the identity.
    /// `divide` gives a quotient, and `reduce` gives `x - f * y` for
    /// `x`, `f` and `y`.
    pub open spec fn inverts<
        D: Fn(Binary64, Binary64) -> Binary64,
        R: Fn(Binary64, Binary64, Binary64) -> Binary64,
    >(self, divide: &D, reduce: &R, result: Matrix44) -> bool {
        exists|identity: Matrix44|
            identity.is_identity() && #[trigger] Matrix44::eliminates(
                divide,
                reduce,
                self,
                identity,
                0,
                result,
            )
    }

    /// One step of elimination, followed by the rest, is elimination from
    /// that step on.
    proof fn elimination_goes_on<
        D: Fn(Binary64, Binary64) -> Binary64,
        R: Fn(Binary64, Binary64, Binary64) -> Binary64,
    >(
        divide: &D,
        reduce: &R,
        t: Matrix44,
        s: Matrix44,
        i: int,
        tp: Matrix44,
        sp: Matrix44,
        t2: Matrix44,
        s2: Matrix44,
        result: Matrix44,
    )
        requires
            0 <= i < 3,
            Matrix44::eliminates_column(divide, reduce, t, s, i, tp, sp, t2, s2),
            Matrix44::eliminates(divide, reduce, t2, s2, i + 1, result),
        ensures
            Matrix44::eliminates(divide, reduce, t, s, i, result),
    {
    }

    /// One step of substitution, followed by the rest, is substitution
    /// from that step on.
    proof fn substitution_goes_on<
        D: Fn(Binary64, Binary64) -> Binary64,
        R: Fn(Binary64, Binary64, Binary64) -> Binary64,
    >(
        divide: &D,
        reduce: &R,
        t: Matrix44,
        s: Matrix44,
        i: int,
        t2: Matrix44,
        s2: Matrix44,
        result: Matrix44,
    )
        requires
            0 <= i < 4,
            !t.entry(i, i).same_spec(Binary64::zero_spec()),
            Matrix44::cleared_above(divide, reduce, t, s, i, i, t2, s2),
            Matrix44::substitutes(divide, reduce, t2, s2, i - 1, result),
        ensures
            Matrix44::substitutes(divide, reduce, t, s, i, result),
    {
    }

    /// The inverse, by Gauss-Jordan elimination with partial pivoting;
    /// the identity for a singular matrix.
    pub fn inverse<
        D: Fn(Binary64, Binary64) -> Binary64,
        R: Fn(Binary64, Binary64, Binary64) -> Binary64,
    >(&self, divide: &D, reduce: &R) -> (inverse: Matrix44)
        requires
            forall|a: Binary64, b: Binary64| divide.requires((a, b)),
            forall|x: Binary64, f: Binary64, y: Binary64| reduce.requires((x, f, y)),
        ensures
            self.inverts(divide, reduce, inverse),
    {
        let identity = Matrix44::identity();
        let mut s = identity;
        let mut t = *self;
        let mut i: usize = 0;
        while i < 3
            invariant
                i <= 3,
                identity.is_identity(),
                forall|a: Binary64, b: Binary64| divide.requires((a, b)),
                forall|x: Binary64, f: Binary64, y: Binary64| reduce.requires((x, f, y)),
                forall|r: Matrix44| #[trigger]
                    Matrix44::eliminates(divide, reduce, t, s, i as int, r) ==> Matrix44::eliminates(
                        divide,
                        reduce,
                        *self,
                        identity,
                        0,
                        r,
                    ),
            decreases 3 - i,
        {
            let p = match t.pivot(i) {
                Some(p) => p,
                None => {
                    let singular = Matrix44::identity();
                    assert(Matrix44::eliminates(divide, reduce, t, s, i as int, singular));
                    return singular;
                },
            };
            let tp = t.swap_rows(i, p);
            let sp = s.swap_rows(i, p);
            let mut t2 = tp;
            let mut s2 = sp;
            let mut j: usize = i + 1;
            assert forall|row: int| 0 <= row < 4 implies #[trigger] Matrix44::row_below(
                divide,
                reduce,
                tp,
                sp,
                i as int,
                j as int,
                row,
                t2,
                s2,
            ) by {}
            while j < 4
                invariant
                    i < j <= 4,
                    i < 3,
                    forall|a: Binary64, b: Binary64| divide.requires((a, b)),
                    forall|x: Binary64, f: Binary64, y: Binary64| reduce.requires((x, f, y)),
                    Matrix44::cleared_below(divide, reduce, tp, sp, i as int, j as int, t2, s2),
                decreases 4 - j,
            {
                let f = (*divide)(tp.get(j, i), tp.get(i, i));
                let row_t = tp.reduced_row(j, f, &tp, i, reduce);
                let row_s = sp.reduced_row(j, f, &sp, i, reduce);
                let ghost t1 = t2;
                let ghost s1 = s2;
                t2 = t2.with_row(j, row_t);
                s2 = s2.with_row(j, row_s);
                assert forall|row: int| 0 <= row < 4 implies #[trigger] Matrix44::row_below(
                    divide,
                    reduce,
                    tp,
                    sp,
                    i as int,
                    j + 1,
                    row,
                    t2,
                    s2,
                ) by {
                    assert(Matrix44::row_below(divide, reduce, tp, sp, i as int, j as int, row, t1, s1));
                    if row != j {
                        assert(t2.row_same(t1, row));
                        assert(s2.row_same(s1, row));
                    }
                }
                j = j + 1;
            }
            assert forall|r: Matrix44| #[trigger]
                Matrix44::eliminates(divide, reduce, t2, s2, i + 1, r) implies Matrix44::eliminates(
                divide,
                reduce,
                *self,
                identity,
                0,
                r,
            ) by {
                Matrix44::elimination_goes_on(
                    divide,
                    reduce,
                    t,
                    s,
                    i as int,
                    tp,
                    sp,
                    t2,
                    s2,
                    r,
                );
            }
            t = t2;
            s = s2;
            i = i + 1;
        }
        assert forall|r: Matrix44| #[trigger]
            Matrix44::substitutes(divide, reduce, t, s, 3, r) implies Matrix44::eliminates(
            divide,
            reduce,
            *self,
            identity,
            0,
            r,
        ) by {
            assert(Matrix44::eliminates(divide, reduce, t, s, 3, r));
        }
        let mut n: usize = 4;
        while n > 0
            invariant
                n <= 4,
                identity.is_identity(),
                forall|a: Binary64, b: Binary64| divide.requires((a, b)),
                forall|x: Binary64, f: Binary64, y: Binary64| reduce.requires((x, f, y)),
                forall|r: Matrix44| #[trigger]
                    Matrix44::substitutes(divide, reduce, t, s, n - 1, r) ==> Matrix44::eliminates(
                        divide,
                        reduce,
                        *self,
                        identity,
                        0,
                        r,
                    ),
            decreases n,
        {
            let i: usize = n - 1;
            let f = t.get(i, i);
            if f.same(Binary64::zero()) {
                let singular = Matrix44::identity();
                assert(Matrix44::substitutes(divide, reduce, t, s, i as int, singular));
                return singular;
            }
            let row_t = t.divided_row(i, f, divide);
            let row_s = s.divided_row(i, f, divide);
            let mut t2 = t.with_row(i, row_t);
            let mut s2 = s.with_row(i, row_s);
            let mut j: usize = 0;
            assert forall|row: int| 0 <= row < 4 implies #[trigger] Matrix44::row_above(
                divide,
                reduce,
                t,
                s,
                i as int,
                j as int,
                row,
                t2,
                s2,
            ) by {}
            while j < i
                invariant
                    j <= i < 4,
                    forall|a: Binary64, b: Binary64| divide.requires((a, b)),
                    forall|x: Binary64, f: Binary64, y: Binary64| reduce.requires((x, f, y)),
                    Matrix44::cleared_above(divide, reduce, t, s, i as int, j as int, t2, s2),
                decreases i - j,
            {
                let g = t.get(j, i);
                let row_t = t.reduced_row(j, g, &t2, i, reduce);
                let row_s = s.reduced_row(j, g, &s2, i, reduce);
                let ghost t1 = t2;
                let ghost s1 = s2;
                t2 = t2.with_row(j, row_t);
                s2 = s2.with_row(j, row_s);
                assert forall|row: int| 0 <= row < 4 implies #[trigger] Matrix44::row_above(
                    divide,
                    reduce,
                    t,
                    s,
                    i as int,
                    j + 1,
                    row,
                    t2,
                    s2,
                ) by {
                    assert(Matrix44::row_above(divide, reduce, t, s, i as int, j as int, row, t1, s1));
                    assert(t2.row_same(t1, i as int));
                    assert(s2.row_same(s1, i as int));
                    if row != j {
                        assert(t2.row_same(t1, row));
                        assert(s2.row_same(s1, row));
                    }
                }
                j = j + 1;
            }
            assert forall|r: Matrix44| #[trigger]
                Matrix44::substitutes(divide, reduce, t2, s2, i - 1, r) implies Matrix44::eliminates(
                divide,
                reduce,
                *self,
                identity,
                0,
                r,
            ) by {
                Matrix44::substitution_goes_on(divide, reduce, t, s, i as int, t2, s2, r);
            }
            t = t2;
            s = s2;
            n = n - 1;
        }
        assert(Matrix44::substitutes(divide, reduce, t, s, -1, s));
        s
    }

    /// A matrix whose first column is all zeros is singular, and its
    /// inverse is given as the identity.
    pub proof fn empty_column_has_no_inverse<
        D: Fn(Binary64, Binary64) -> Binary64,
        R: Fn(Binary64, Binary64, Binary64) -> Binary64,
    >(self, divide: &D, reduce: &R, result: Matrix44)
        requires
            self.pivot_choice(0) is None,
            self.inverts(divide, reduce, result),
        ensures
            result.is_identity(),
    {
    }

    /// Whether this matrix is the product of `a` and `b`: every entry is
    /// what `dot` makes of a row of `a` and a column of `b`.
    pub open spec fn is_product<
        F: Fn(
            Binary64,
            Binary64,
            Binary64,
            Binary64,
            Binary64,
            Binary64,
            Binary64,
            Binary64,
        ) -> Binary64,
    >(self, a: Matrix44, b: Matrix44, dot: &F) -> bool {
        forall|r: int, c: int|
            0 <= r < 4 && 0 <= c < 4 ==> dot.ensures(
                (
                    a.entry(r, 0),
                    a.entry(r, 1),
                    a.entry(r, 2),
                    a.entry(r, 3),
                    b.entry(0, c),
                    b.entry(1, c),
                    b.entry(2, c),
                    b.entry(3, c),
                ),
                #[trigger] self.entry(r, c),
            )
    }

    /// The product with another matrix. `dot` gives the sum of the
    /// products of four pairs of numbers: of its first argument with its
    /// fifth, its second with its sixth, and so on.
    pub fn mul<
        F: Fn(
            Binary64,
            Binary64,
            Binary64,
            Binary64,
            Binary64,
            Binary64,
            Binary64,
            Binary64,
        ) -> Binary64,
    >(&self, other: &Matrix44, dot: &F) -> (product: Matrix44)
        requires
            forall|
                a0: Binary64,
                a1: Binary64,
                a2: Binary64,
                a3: Binary64,
                b0: Binary64,
                b1: Binary64,
                b2: Binary64,
                b3: Binary64,
            | dot.requires((a0, a1, a2, a3, b0, b1, b2, b3)),
        ensures
            product.is_product(*self, *other, dot),
    {
        let mut product = Matrix44::identity();
        let mut r: usize = 0;
        while r < 4
            invariant
                r <= 4,
                forall|
                    a0: Binary64,
                    a1: Binary64,
                    a2: Binary64,
                    a3: Binary64,
                    b0: Binary64,
                    b1: Binary64,
                    b2: Binary64,
                    b3: Binary64,
                | dot.requires((a0, a1, a2, a3, b0, b1, b2, b3)),
                forall|done: int, c: int|
                    0 <= done < r && 0 <= c < 4 ==> dot.ensures(
                        (
                            self.entry(done, 0),
                            self.entry(done, 1),
                            self.entry(done, 2),
                            self.entry(done, 3),
                            other.entry(0, c),
                            other.entry(1, c),
                            other.entry(2, c),
                            other.entry(3, c),
                        ),
                        #[trigger] product.entry(done, c),
                    ),
            decreases 4 - r,
        {
            let a0 = self.get(r, 0);
            let a1 = self.get(r, 1);
            let a2 = self.get(r, 2);
            let a3 = self.get(r, 3);
            let row = [
                (*dot)(a0, a1, a2, a3, other.get(0, 0), other.get(1, 0), other.get(2, 0), other.get(3, 0)),
                (*dot)(a0, a1, a2, a3, other.get(0, 1), other.get(1, 1), other.get(2, 1), other.get(3, 1)),
                (*dot)(a0, a1, a2, a3, other.get(0, 2), other.get(1, 2), other.get(2, 2), other.get(3, 2)),
                (*dot)(a0, a1, a2, a3, other.get(0, 3), other.get(1, 3), other.get(2, 3), other.get(3, 3)),
            ];
            let ghost before = product;
            product = product.with_row(r, row);
            assert forall|done: int, c: int| 0 <= done < r + 1 && 0 <= c < 4 implies dot.ensures(
                (
                    self.entry(done, 0),
                    self.entry(done, 1),
                    self.entry(done, 2),
                    self.entry(done, 3),
                    other.entry(0, c),
                    other.entry(1, c),
                    other.entry(2, c),
                    other.entry(3, c),
                ),
                #[trigger] product.entry(done, c),
            ) by {
                if done < r {
                    assert(product.row_same(before, done));
                }
            }
            r = r + 1;
        }
        product
    }

    /// Whether `image` is the point that the matrix takes `p` to: each of
    /// its coordinates is what `dot` makes of the point, with a fourth
    /// coordinate of 1, and a column of the matrix.
    pub open spec fn takes_point<
        F: Fn(
            Binary64,
            Binary64,
            Binary64,
            Binary64,
            Binary64,
            Binary64,
            Binary64,
            Binary64,
        ) -> Binary64,
    >(self, p: Point, dot: &F, image: Point) -> bool {
        &&& dot.ensures(
            (
                p.x,
                p.y,
                p.z,
                Binary64::one_spec(),
                self.entry(0, 0),
                self.entry(1, 0),
                self.entry(2, 0),
                self.entry(3, 0),
            ),
            image.x,
        )
        &&& dot.ensures(
            (
                p.x,
                p.y,
                p.z,
                Binary64::one_spec(),
                self.entry(0, 1),
                self.entry(1, 1),
                self.entry(2, 1),
                self.entry(3, 1),
            ),
            image.y,
        )
        &&& dot.ensures(
            (
                p.x,
                p.y,
                p.z,
                Binary64::one_spec(),
                self.entry(0, 2),
                self.entry(1, 2),
                self.entry(2, 2),
                self.entry(3, 2),
            ),
            image.z,
        )
    }

    /// The point that the matrix takes a point to. `dot` gives the sum of
    /// the products of four pairs of numbers; the point counts as having
    /// a fourth coordinate of 1.
    pub fn mul_point<
        F: Fn(
            Binary64,
            Binary64,
            Binary64,
            Binary64,
            Binary64,
            Binary64,
            Binary64,
            Binary64,
        ) -> Binary64,
    >(&self, p: &Point, dot: &F) -> (image: Point)
        requires
            forall|
                a0: Binary64,
                a1: Binary64,
                a2: Binary64,
                a3: Binary64,
                b0: Binary64,
                b1: Binary64,
                b2: Binary64,
                b3: Binary64,
            | dot.requires((a0, a1, a2, a3, b0, b1, b2, b3)),
        ensures
            self.takes_point(*p, dot, image),
    {
        let w = Binary64::one();
        Point {
            x: (*dot)(p.x, p.y, p.z, w, self.get(0, 0), self.get(1, 0), self.get(2, 0), self.get(3, 0)),
            y: (*dot)(p.x, p.y, p.z, w, self.get(0, 1), self.get(1, 1), self.get(2, 1), self.get(3, 1)),
            z: (*dot)(p.x, p.y, p.z, w, self.get(0, 2), self.get(1, 2), self.get(2, 2), self.get(3, 2)),
        }
    }

    /// The translation by nothing is the identity.
    pub proof fn translation_by_nothing_is_identity(self)
        requires
            self.is_translation(
                Binary64::zero_spec(),
                Binary64::zero_spec(),
                Binary64::zero_spec(),
            ),
        ensures
            self.is_identity(),
    {
    }

    /// A translation moves a point by its displacements: each coordinate
    /// of where the point goes is the sum of that coordinate taken once,
    /// the other two taken not at all, and the displacement along it.
    pub proof fn translation_displaces_points<
        F: Fn(
            Binary64,
            Binary64,
            Binary64,
            Binary64,
            Binary64,
            Binary64,
            Binary64,
            Binary64,
        ) -> Binary64,
    >(self, tx: Binary64, ty: Binary64, tz: Binary64, p: Point, dot: &F, image: Point)
        requires
            self.is_translation(tx, ty, tz),
            self.takes_point(p, dot, image),
        ensures
            dot.ensures(
                (
                    p.x,
                    p.y,
                    p.z,
                    Binary64::one_spec(),
                    Binary64::one_spec(),
                    Binary64::zero_spec(),
                    Binary64::zero_spec(),
                    tx,
                ),
                image.x,
            ),
            dot.ensures(
                (
                    p.x,
                    p.y,
                    p.z,
                    Binary64::one_spec(),
                    Binary64::zero_spec(),
                    Binary64::one_spec(),
                    Binary64::zero_spec(),
                    ty,
                ),
                image.y,
            ),
            dot.ensures(
                (
                    p.x,
                    p.y,
                    p.z,
                    Binary64::one_spec(),
                    Binary64::zero_spec(),
                    Binary64::zero_spec(),
                    Binary64::one_spec(),
                    tz,
                ),
                image.z,
            ),
    {
    }

    /// The vector that the matrix takes a vector to. `dot` gives the sum
    /// of the products of three pairs of numbers: a vector is turned and
    /// scaled, not displaced.
    pub fn mul_vector<F: Fn(Binary64, Binary64, Binary64, Binary64, Binary64, Binary64) -> Binary64>(
        &self,
        v: &Vector3,
        dot: &F,
    ) -> (image: Vector3)
        requires
            forall|a0: Binary64, a1: Binary64, a2: Binary64, b0: Binary64, b1: Binary64, b2: Binary64|
                dot.requires((a0, a1, a2, b0, b1, b2)),
        ensures
            dot.ensures(
                (v.x, v.y, v.z, self.entry(0, 0), self.entry(1, 0), self.entry(2, 0)),
                image.x,
            ),
            dot.ensures(
                (v.x, v.y, v.z, self.entry(0, 1), self.entry(1, 1), self.entry(2, 1)),
                image.y,
            ),
            dot.ensures(
                (v.x, v.y, v.z, self.entry(0, 2), self.entry(1, 2), self.entry(2, 2)),
                image.z,
            ),
    {
        Vector3 {
            x: (*dot)(v.x, v.y, v.z, self.get(0, 0), self.get(1, 0), self.get(2, 0)),
            y: (*dot)(v.x, v.y, v.z, self.get(0, 1), self.get(1, 1), self.get(2, 1)),
            z: (*dot)(v.x, v.y, v.z, self.get(0, 2), self.get(1, 2), self.get(2, 2)),
        }
    }
}

} // verus!
