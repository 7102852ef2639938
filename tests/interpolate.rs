use wifi_survey::interpolate::{dist_sq, interpolate_speed, Estimate, Measurement, WeightedSample};

fn at(x: i32, y: i32, download: u64) -> Measurement {
    Measurement { id: format!("m{}_{}", x, y), grid_x: x, grid_y: y, download, upload: 1 }
}

#[test]
fn no_measurements_give_no_data() {
    assert!(matches!(interpolate_speed(&vec![], 0, 0), Estimate::NoData));
    assert!(matches!(interpolate_speed(&vec![], -7, 42), Estimate::NoData));
}

#[test]
fn measured_cell_is_exact() {
    let ms = vec![at(3, 4, 50)];
    assert!(matches!(interpolate_speed(&ms, 3, 4), Estimate::Exact(50)));
}

#[test]
fn first_measurement_on_a_cell_wins() {
    let ms = vec![at(0, 0, 1), at(2, 2, 20), at(2, 2, 30)];
    assert!(matches!(interpolate_speed(&ms, 2, 2), Estimate::Exact(20)));
}

#[test]
fn equidistant_points_weigh_alike() {
    let ms = vec![at(0, 0, 10), at(10, 0, 30)];
    match interpolate_speed(&ms, 5, 0) {
        Estimate::Weighted(ws) => {
            assert_eq!(
                ws,
                vec![
                    WeightedSample { dist_sq: 25, download: 10 },
                    WeightedSample { dist_sq: 25, download: 30 },
                ]
            );
            let num: f64 = ws.iter().map(|w| w.download as f64 / w.dist_sq as f64).sum();
            let den: f64 = ws.iter().map(|w| 1.0 / w.dist_sq as f64).sum();
            assert_eq!(num / den, 20.0);
        }
        _ => panic!("expected weighted terms"),
    }
}

#[test]
fn weights_follow_squared_distance() {
    let ms = vec![at(0, 0, 10), at(3, 4, 90)];
    match interpolate_speed(&ms, 1, 1) {
        Estimate::Weighted(ws) => {
            assert_eq!(ws[0].dist_sq, 2);
            assert_eq!(ws[1].dist_sq, 13);
        }
        _ => panic!("expected weighted terms"),
    }
}

#[test]
fn distance_of_far_corners_fits() {
    let m = at(i32::MIN, i32::MIN, 0);
    let d = dist_sq(&m, i32::MAX, i32::MAX);
    assert_eq!(d, 2 * (u32::MAX as u128) * (u32::MAX as u128));
}
