use breathing_pacer::potentiometer::Potentiometer;

fn device_pot() -> Potentiometer {
    Potentiometer::new(5, 430, 3410, 200, 10)
}

#[test]
fn rail_readings_hit_extreme_segments() {
    let pot = device_pot();
    assert_eq!(pot.read(&vec![430, 430, 430, 430, 430]), 0);
    assert_eq!(pot.read(&vec![3410, 3410, 3410, 3410, 3410]), 9);
}

#[test]
fn far_out_of_range_readings_clip_to_extreme_segments() {
    let pot = device_pot();
    assert_eq!(pot.read(&vec![0, 0, 0, 0, 0]), 0);
    assert_eq!(pot.read(&vec![65535, 65535, 65535, 65535, 65535]), 9);
}

#[test]
fn every_raw_input_lands_in_a_valid_segment() {
    let pot = Potentiometer::new(1, 430, 3410, 200, 10);
    let mut raw: u32 = 0;
    while raw <= 65535 {
        let segment = pot.read(&vec![raw as u16]);
        assert!(segment <= 9);
        raw += 37;
    }
    assert!(pot.read(&vec![65535]) <= 9);
}

#[test]
fn quantization_steps_up_through_the_range() {
    let pot = Potentiometer::new(1, 430, 3410, 200, 10);
    // One bucket is (3610 - 230) / 10 = 338 raw units wide.
    assert_eq!(pot.read(&vec![230]), 0);
    assert_eq!(pot.read(&vec![567]), 0);
    assert_eq!(pot.read(&vec![568]), 1);
    assert_eq!(pot.read(&vec![1920]), 5);
    assert_eq!(pot.read(&vec![3610]), 9);
}

#[test]
fn mean_is_truncated() {
    let pot = Potentiometer::new(2, 430, 3410, 200, 10);
    // (567 + 568) / 2 truncates to 567, which stays in segment 0.
    assert_eq!(pot.read(&vec![567, 568]), 0);
    // (568 + 569) / 2 truncates to 568: the first reading of segment 1.
    assert_eq!(pot.read(&vec![568, 569]), 1);
}

#[test]
fn deadzone_expansion_saturates_at_zero() {
    // The margin exceeds the nominal minimum, so the expanded range
    // starts at zero instead of wrapping: buckets are (1300 - 0) / 10
    // = 130 raw units wide.
    let pot = Potentiometer::new(1, 100, 1100, 200, 10);
    assert_eq!(pot.read(&vec![0]), 0);
    assert_eq!(pot.read(&vec![129]), 0);
    assert_eq!(pot.read(&vec![130]), 1);
    assert_eq!(pot.read(&vec![700]), 5);
    assert_eq!(pot.read(&vec![1300]), 9);
    assert_eq!(pot.read(&vec![65535]), 9);
}
