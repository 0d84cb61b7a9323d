//! Chart series data and its visible segments.
//!
//! A series is either dense (every point has a value) or gap-aware (a
//! point without a value breaks the line and the fill).  The coordinate
//! type is left open; the renderer uses floating point.

use vstd::prelude::*;

verus! {

/// A gap-aware point: no `y` marks a gap.
#[derive(Debug, Clone, Copy)]
pub struct ChartPoint<T> {
    pub x: T,
    pub y: Option<T>,
}

/// Data backing a chart series.
#[derive(Debug, Clone, Copy)]
pub enum SeriesData<'a, T> {
    /// Every point has a value.
    Dense(&'a [(T, T)]),
    /// Points without a value break lines and fills.
    Gapped(&'a [ChartPoint<T>]),
}

/// The points that have a value, in order.
pub open spec fn spec_present<T>(points: Seq<ChartPoint<T>>) -> Seq<(T, T)> {
    points.filter_map(|p: ChartPoint<T>| match p.y {
        Some(y) => Some((p.x, y)),
        None => None,
    })
}

/// The runs of points with a value, split at every gap: the finished runs
/// and the run still open after `points`.
pub open spec fn spec_runs<T>(points: Seq<ChartPoint<T>>) -> (Seq<Seq<(T, T)>>, Seq<(T, T)>)
    decreases points.len(),
{
    if points.len() == 0 {
        (seq![], seq![])
    } else {
        let (done, open) = spec_runs(points.drop_last());
        match points.last().y {
            Some(y) => (done, open.push((points.last().x, y))),
            None => if open.len() > 0 {
                (done.push(open), seq![])
            } else {
                (done, open)
            },
        }
    }
}

/// The visible segments of gap-aware points: the maximal runs of points
/// with a value, in order.
pub open spec fn spec_gapped_segments<T>(points: Seq<ChartPoint<T>>) -> Seq<Seq<(T, T)>> {
    let (done, open) = spec_runs(points);
    if open.len() > 0 {
        done.push(open)
    } else {
        done
    }
}

/// The visible segments of a series' data.
pub open spec fn spec_visible_segments<T>(data: SeriesData<T>) -> Seq<Seq<(T, T)>> {
    match data {
        SeriesData::Dense(d) => if d@.len() == 0 {
            seq![]
        } else {
            seq![d@]
        },
        SeriesData::Gapped(p) => spec_gapped_segments(p@),
    }
}

/// The points of a series' data that have a value.
pub open spec fn spec_points<T>(data: SeriesData<T>) -> Seq<(T, T)> {
    match data {
        SeriesData::Dense(d) => d@,
        SeriesData::Gapped(p) => spec_present(p@),
    }
}

fn copy_all<T: Copy>(data: &[(T, T)]) -> (r: Vec<(T, T)>)
    ensures
        r@ == data@,
{
    let mut out: Vec<(T, T)> = Vec::new();
    let mut i: usize = 0;
    while i < data.len()
        invariant
            i <= data@.len(),
            out@ == data@.take(i as int),
        decreases data@.len() - i,
    {
        out.push(data[i]);
        i = i + 1;
        assert(out@ =~= data@.take(i as int));
    }
    assert(data@.take(data@.len() as int) =~= data@);
    out
}

impl<'a, T: Copy> SeriesData<'a, T> {
    /// The points that have a value; see [`spec_points`].
    pub fn points(&self) -> (r: Vec<(T, T)>)
        ensures
            r@ == spec_points(*self),
    {
        match self {
            SeriesData::Dense(data) => copy_all(data),
            SeriesData::Gapped(points) => {
                let mut out: Vec<(T, T)> = Vec::new();
                let mut i: usize = 0;
                while i < points.len()
                    invariant
                        i <= points@.len(),
                        out@ == spec_present(points@.take(i as int)),
                    decreases points@.len() - i,
                {
                    proof {
                        assert(points@.take(i + 1).drop_last() =~= points@.take(i as int));
                    }
                    let p = points[i];
                    match p.y {
                        Some(y) => {
                            out.push((p.x, y));
                        },
                        None => {},
                    }
                    i = i + 1;
                }
                proof {
                    assert(points@.take(points@.len() as int) =~= points@);
                }
                out
            },
        }
    }

    /// The visible segments; see [`spec_visible_segments`].
    pub fn visible_segments(&self) -> (r: Vec<Vec<(T, T)>>)
        ensures
            r@.map_values(|s: Vec<(T, T)>| s@) == spec_visible_segments(*self),
    {
        match self {
            SeriesData::Dense(data) => {
                let mut segments: Vec<Vec<(T, T)>> = Vec::new();
                if data.len() > 0 {
                    segments.push(copy_all(data));
                }
                proof {
                    assert(segments@.map_values(|s: Vec<(T, T)>| s@) =~= spec_visible_segments(*self));
                }
                segments
            },
            SeriesData::Gapped(points) => {
                let mut segments: Vec<Vec<(T, T)>> = Vec::new();
                let mut current: Vec<(T, T)> = Vec::new();
                let mut i: usize = 0;
                while i < points.len()
                    invariant
                        i <= points@.len(),
                        spec_runs(points@.take(i as int)) == (
                            segments@.map_values(|s: Vec<(T, T)>| s@),
                            current@,
                        ),
                    decreases points@.len() - i,
                {
                    proof {
                        assert(points@.take(i + 1).drop_last() =~= points@.take(i as int));
                    }
                    let p = points[i];
                    match p.y {
                        Some(y) => {
                            current.push((p.x, y));
                        },
                        None => {
                            if current.len() > 0 {
                                let finished = current;
                                let ghost before = segments@.map_values(|s: Vec<(T, T)>| s@);
                                segments.push(finished);
                                proof {
                                    assert(segments@.map_values(|s: Vec<(T, T)>| s@) =~= before.push(finished@));
                                }
                                current = Vec::new();
                            }
                        },
                    }
                    i = i + 1;
                }
                proof {
                    assert(points@.take(points@.len() as int) =~= points@);
                }
                if current.len() > 0 {
                    let ghost before = segments@.map_values(|s: Vec<(T, T)>| s@);
                    let ghost last = current@;
                    segments.push(current);
                    proof {
                        assert(segments@.map_values(|s: Vec<(T, T)>| s@) =~= before.push(last));
                    }
                }
                segments
            },
        }
    }

    /// Whether no point has a value.
    pub fn is_empty(&self) -> (r: bool)
        ensures
            r == (spec_points(*self).len() == 0),
    {
        let pts = self.points();
        pts.len() == 0
    }
}

proof fn lemma_runs_keep_points<T>(points: Seq<ChartPoint<T>>)
    ensures
        ({
            let (done, open) = spec_runs(points);
            &&& done.push(open).flatten() == spec_present(points)
            &&& forall|k: int| 0 <= k < done.len() ==> (#[trigger] done[k]).len() > 0
        }),
    decreases points.len(),
{
    broadcast use Seq::lemma_flatten_push;

    if points.len() == 0 {
        assert(seq![Seq::<(T, T)>::empty()].flatten() =~= Seq::<(T, T)>::empty()) by {
            seq![Seq::<(T, T)>::empty()].lemma_flatten_one_element();
        }
        assert(Seq::<Seq<(T, T)>>::empty().push(Seq::<(T, T)>::empty()) =~= seq![Seq::<(T, T)>::empty()]);
        reveal(Seq::filter_map);
        assert(spec_present(points) =~= Seq::<(T, T)>::empty());
    } else {
        let prev = points.drop_last();
        lemma_runs_keep_points(prev);
        let (done, open) = spec_runs(prev);
        assert(done.push(open).flatten() =~= done.flatten() + open);
        let p = points.last();
        assert(spec_present(points) == match p.y {
            Some(y) => spec_present(prev).push((p.x, y)),
            None => spec_present(prev),
        }) by {
            reveal(Seq::filter_map);
        }
        match p.y {
            Some(y) => {
                assert(done.push(open.push((p.x, y))).flatten() =~= done.flatten() + open.push((p.x, y)));
            },
            None => {
                if open.len() > 0 {
                    assert(done.push(open).push(Seq::<(T, T)>::empty()).flatten() =~= done.push(open).flatten()
                        + Seq::<(T, T)>::empty());
                }
            },
        }
    }
}

/// Splitting at gaps keeps every point with a value, in order, and makes
/// no empty segment.
pub proof fn law_segments_keep_every_point<T>(points: Seq<ChartPoint<T>>)
    ensures
        spec_gapped_segments(points).flatten() == spec_present(points),
        forall|k: int|
            0 <= k < spec_gapped_segments(points).len() ==> (#[trigger] spec_gapped_segments(points)[k]).len()
                > 0,
{
    broadcast use Seq::lemma_flatten_push;

    lemma_runs_keep_points(points);
    let (done, open) = spec_runs(points);
    if open.len() == 0 {
        assert(done.push(open).flatten() =~= done.flatten() + open);
        assert(done.flatten() + open =~= done.flatten());
    }
}

} // verus!
