use egui_timepicker::dial::{
    dial_radius, hand, hour_labels, hour_zone_holds, scene, Label, Polar, DIAL_SIDE,
    HOUR_HAND_REACH, HOUR_ZONE_REACH, LABEL_REACH, MINUTE_HAND_REACH, RADIUS_SHARE,
};

#[test]
fn shares_are_the_documented_percentages() {
    assert_eq!(DIAL_SIDE, 220_000);
    assert_eq!(RADIUS_SHARE, 45);
    assert_eq!(LABEL_REACH, 82);
    assert_eq!(HOUR_HAND_REACH, 55);
    assert_eq!(MINUTE_HAND_REACH, 75);
    assert_eq!(HOUR_ZONE_REACH, 60);
}

#[test]
fn radius_is_forty_five_percent_of_the_side() {
    assert_eq!(dial_radius(DIAL_SIDE), 99_000);
    assert_eq!(dial_radius(100), 45);
    assert_eq!(dial_radius(0), 0);
    assert_eq!(dial_radius(1), 0);
    assert_eq!(dial_radius(3), 1);
    assert_eq!(dial_radius(u32::MAX), 1_932_735_282);
}

#[test]
fn hour_zone_ends_at_sixty_percent() {
    assert!(hour_zone_holds(59, 100));
    assert!(!hour_zone_holds(60, 100));
    assert!(!hour_zone_holds(61, 100));
    assert!(hour_zone_holds(0, 1));
    assert!(!hour_zone_holds(0, 0));
    assert!(hour_zone_holds(59_399, 99_000));
    assert!(!hour_zone_holds(59_400, 99_000));
    assert!(!hour_zone_holds(u32::MAX, u32::MAX));
    assert!(hour_zone_holds(2_576_980_376, u32::MAX));
    assert!(!hour_zone_holds(2_576_980_377, u32::MAX));
}

#[test]
fn hand_points_at_its_mark() {
    assert_eq!(hand(500, 0, 12), Polar { distance: 500, angle: -5_400 });
    assert_eq!(hand(500, 3, 12), Polar { distance: 500, angle: 0 });
    assert_eq!(hand(7, 45, 60), Polar { distance: 7, angle: 10_800 });
    assert_eq!(hand(u32::MAX, 30, 60), Polar { distance: u32::MAX, angle: 5_400 });
}

#[test]
fn labels_run_from_one_to_twelve() {
    let labels = hour_labels(99_000);
    assert_eq!(labels.len(), 12);
    for (i, label) in labels.iter().enumerate() {
        let number = i as i32 + 1;
        assert_eq!(i32::from(label.number), number);
        assert_eq!(label.at.distance, 81_180);
        assert_eq!(label.at.angle, number * 1_800 - 5_400);
    }
    assert_eq!(labels[2], Label { number: 3, at: Polar { distance: 81_180, angle: 0 } });
    assert_eq!(labels[11], Label { number: 12, at: Polar { distance: 81_180, angle: 16_200 } });
}

#[test]
fn labels_scale_with_the_radius() {
    assert_eq!(hour_labels(100)[0].at.distance, 82);
    assert_eq!(hour_labels(0)[0].at.distance, 0);
    assert_eq!(hour_labels(u32::MAX)[5].at.distance, 3_521_873_181);
}

#[test]
fn scene_of_the_standard_face() {
    let painted = scene(DIAL_SIDE, 12, 0);
    assert_eq!(painted.radius, 99_000);
    assert_eq!(painted.labels, hour_labels(99_000));
    assert_eq!(painted.hour_hand, Polar { distance: 54_450, angle: 16_200 });
    assert_eq!(painted.minute_hand, Polar { distance: 74_250, angle: -5_400 });
}

#[test]
fn scene_hands_follow_the_time() {
    let painted = scene(DIAL_SIDE, 23, 59);
    assert_eq!(painted.hour_hand, Polar { distance: 54_450, angle: 23 * 1_800 - 5_400 });
    assert_eq!(painted.minute_hand, Polar { distance: 74_250, angle: 59 * 360 - 5_400 });
    let small = scene(1_000, 6, 30);
    assert_eq!(small.radius, 450);
    assert_eq!(small.hour_hand, Polar { distance: 247, angle: 5_400 });
    assert_eq!(small.minute_hand, Polar { distance: 337, angle: 5_400 });
    assert_eq!(small.labels[0].at.distance, 369);
}
