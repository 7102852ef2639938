//! Inverse-distance weighting (power 2) over a sparse set of grid
//! measurements. With power 2 the weight of a sample is `1 / d²`, so the
//! estimate is fixed by each sample's squared distance, an integer for integer
//! cells; the division itself is left to the caller.
use vstd::prelude::*;

verus! {

/// One surveyed location. Rates are in bits per second.
#[derive(Clone, Debug)]
pub struct Measurement {
    pub id: String,
    pub grid_x: i32,
    pub grid_y: i32,
    pub download: u64,
    pub upload: u64,
}

/// One term of the weighted average: weight `1 / dist_sq`, value `download`.
#[derive(PartialEq, Eq, Structural, Clone, Copy, Debug)]
pub struct WeightedSample {
    pub dist_sq: u128,
    pub download: u64,
}

/// Estimate at a grid cell.
#[derive(Clone, Debug)]
pub enum Estimate {
    /// A measurement sits on the cell: its download rate, as it is.
    Exact(u64),
    /// No measurements at all: the estimate is `0`.
    NoData,
    /// The estimate is `Σ download / dist_sq` over `Σ 1 / dist_sq`, one term
    /// per measurement, in order; every `dist_sq` is at least 1.
    Weighted(Vec<WeightedSample>),
}

pub open spec fn at_cell(m: Measurement, col: i32, row: i32) -> bool {
    m.grid_x == col && m.grid_y == row
}

/// Squared Euclidean distance from a measurement to a cell.
pub open spec fn dist_sq_of(m: Measurement, col: i32, row: i32) -> int {
    (col - m.grid_x) * (col - m.grid_x) + (row - m.grid_y) * (row - m.grid_y)
}

/// Whether some measurement sits on the cell.
pub open spec fn has_exact(ms: Seq<Measurement>, col: i32, row: i32) -> bool {
    exists|i: int| 0 <= i < ms.len() && at_cell(ms[i], col, row)
}

/// Whether position `i` holds the first measurement that sits on the cell.
pub open spec fn is_first_exact(ms: Seq<Measurement>, col: i32, row: i32, i: int) -> bool {
    &&& 0 <= i < ms.len()
    &&& at_cell(ms[i], col, row)
    &&& forall|k: int| 0 <= k < i ==> !at_cell(ms[k], col, row)
}

/// The terms that the weighted average is made of.
pub open spec fn terms_of(ms: Seq<Measurement>, col: i32, row: i32, ws: Seq<WeightedSample>) -> bool {
    &&& ws.len() == ms.len()
    &&& forall|i: int|
        0 <= i < ms.len() ==> ws[i].dist_sq == dist_sq_of(#[trigger] ms[i], col, row)
            && ws[i].download == ms[i].download
}

/// Squared distance of a measurement to a cell.
pub fn dist_sq(m: &Measurement, col: i32, row: i32) -> (r: u128)
    ensures
        r == dist_sq_of(*m, col, row),
{
    let dx: i64 = col as i64 - m.grid_x as i64;
    let dy: i64 = row as i64 - m.grid_y as i64;
    let ax: u128 = if dx < 0 {
        (-dx) as u128
    } else {
        dx as u128
    };
    let ay: u128 = if dy < 0 {
        (-dy) as u128
    } else {
        dy as u128
    };
    assert(ax * ax <= 0x1_0000_0000 * 0x1_0000_0000) by (nonlinear_arith)
        requires
            ax <= 0x1_0000_0000,
    ;
    assert(ay * ay <= 0x1_0000_0000 * 0x1_0000_0000) by (nonlinear_arith)
        requires
            ay <= 0x1_0000_0000,
    ;
    assert(ax * ax == dx * dx) by (nonlinear_arith)
        requires
            ax == dx || ax == -dx,
    ;
    assert(ay * ay == dy * dy) by (nonlinear_arith)
        requires
            ay == dy || ay == -dy,
    ;
    ax * ax + ay * ay
}

/// A cell away from a measurement is at squared distance 1 or more; only the
/// measurement's own cell is at distance 0.
proof fn lemma_dist_sq_positive(m: Measurement, col: i32, row: i32)
    requires
        !at_cell(m, col, row),
    ensures
        dist_sq_of(m, col, row) >= 1,
{
    let dx = col - m.grid_x;
    let dy = row - m.grid_y;
    assert(dx * dx >= 0 && dy * dy >= 0) by (nonlinear_arith);
    if dx != 0 {
        assert(dx * dx >= 1) by (nonlinear_arith)
            requires
                dx != 0,
        ;
    } else {
        assert(dy != 0);
        assert(dy * dy >= 1) by (nonlinear_arith)
            requires
                dy != 0,
        ;
    }
}

/// Estimate of the download rate at cell `(col, row)`. A measurement on the
/// cell is authoritative; with no measurements the estimate is `0`; otherwise
/// every measurement contributes with weight `1 / d²`.
pub fn interpolate_speed(measurements: &Vec<Measurement>, col: i32, row: i32) -> (r: Estimate)
    ensures
        has_exact(measurements@, col, row) <==> r is Exact,
        r matches Estimate::Exact(v) ==> exists|i: int|
            is_first_exact(measurements@, col, row, i) && measurements@[i].download == v,
        (r is NoData) <==> measurements@.len() == 0,
        r matches Estimate::Weighted(ws) ==> {
            &&& terms_of(measurements@, col, row, ws@)
            &&& forall|i: int| 0 <= i < ws@.len() ==> ws@[i].dist_sq >= 1
        },
{
    let n = measurements.len();
    let mut i: usize = 0;
    while i < n
        invariant
            n == measurements@.len(),
            0 <= i <= n,
            forall|k: int| 0 <= k < i ==> !at_cell(measurements@[k], col, row),
        decreases n - i,
    {
        let m = &measurements[i];
        if m.grid_x == col && m.grid_y == row {
            assert(is_first_exact(measurements@, col, row, i as int));
            return Estimate::Exact(m.download);
        }
        i = i + 1;
    }
    if n == 0 {
        return Estimate::NoData;
    }
    let mut ws: Vec<WeightedSample> = Vec::new();
    let mut j: usize = 0;
    while j < n
        invariant
            n == measurements@.len(),
            0 <= j <= n,
            forall|k: int| 0 <= k < n ==> !at_cell(measurements@[k], col, row),
            ws@.len() == j,
            forall|k: int|
                0 <= k < j ==> ws@[k].dist_sq == dist_sq_of(#[trigger] measurements@[k], col, row)
                    && ws@[k].download == measurements@[k].download,
            forall|k: int| 0 <= k < j ==> ws@[k].dist_sq >= 1,
        decreases n - j,
    {
        let m = &measurements[j];
        proof {
            lemma_dist_sq_positive(measurements@[j as int], col, row);
        }
        let d = dist_sq(m, col, row);
        ws.push(WeightedSample { dist_sq: d, download: m.download });
        j = j + 1;
    }
    Estimate::Weighted(ws)
}

} // verus!
