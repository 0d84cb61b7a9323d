use unifly::series::{ChartPoint, SeriesData};

#[test]
fn gapped_series_splits_visible_segments() {
    let points = [
        ChartPoint { x: 0.0, y: Some(1.0) },
        ChartPoint { x: 1.0, y: Some(2.0) },
        ChartPoint { x: 2.0, y: None },
        ChartPoint { x: 3.0, y: Some(4.0) },
    ];

    let segments = SeriesData::Gapped(&points).visible_segments();

    assert_eq!(segments, vec![vec![(0.0, 1.0), (1.0, 2.0)], vec![(3.0, 4.0)]]);
}

#[test]
fn scene_empty_tracks_gap_only_series() {
    let points = [ChartPoint { x: 0.0, y: None }, ChartPoint { x: 1.0, y: None }];
    let data = SeriesData::Gapped(&points);
    assert!(data.is_empty());
    assert!(data.visible_segments().is_empty());
}

#[test]
fn dense_data_is_one_segment() {
    let data = [(0.0, 1.0), (1.0, 3.0)];
    assert_eq!(SeriesData::Dense(&data).visible_segments(), vec![data.to_vec()]);
    assert_eq!(SeriesData::Dense(&data).points(), data.to_vec());
    let none: [(f64, f64); 0] = [];
    assert!(SeriesData::Dense(&none).visible_segments().is_empty());
    assert!(SeriesData::Dense(&none).is_empty());
}

#[test]
fn repeated_gaps_make_no_empty_segments() {
    let points = [
        ChartPoint { x: 0, y: None },
        ChartPoint { x: 1, y: Some(5) },
        ChartPoint { x: 2, y: None },
        ChartPoint { x: 3, y: None },
        ChartPoint { x: 4, y: Some(6) },
        ChartPoint { x: 5, y: Some(7) },
    ];
    let data = SeriesData::Gapped(&points);
    let segments = data.visible_segments();
    assert_eq!(segments, vec![vec![(1, 5)], vec![(4, 6), (5, 7)]]);
    let flat: Vec<(i32, i32)> = segments.into_iter().flatten().collect();
    assert_eq!(flat, data.points());
}
