use dirty::fps::FPSCounter;

#[test]
fn fps_empty_average_is_zero() {
    let f = FPSCounter::new(16);
    assert_eq!(f.get_avg(), 0);
}

#[test]
fn fps_average_rounds_down() {
    let mut f = FPSCounter::new(16);
    f.push(1);
    f.push(2);
    assert_eq!(f.get_avg(), 1);
    f.push(6);
    assert_eq!(f.get_avg(), 3);
}

#[test]
fn fps_window_drops_oldest() {
    let mut f = FPSCounter::new(2);
    f.push(10);
    f.push(20);
    assert_eq!(f.get_avg(), 15);
    f.push(40);
    // 10 left the window: (20 + 40) / 2
    assert_eq!(f.get_avg(), 30);
    f.push(0);
    assert_eq!(f.get_avg(), 20);
}

#[test]
fn fps_steady_rate_averages_to_itself() {
    let mut f = FPSCounter::new(16);
    for _ in 0..40 {
        f.push(60);
    }
    assert_eq!(f.get_avg(), 60);
}

#[test]
fn fps_window_keeps_last_sixteen() {
    let mut f = FPSCounter::new(16);
    for i in 0..16u16 {
        f.push(1000 + i);
    }
    for _ in 0..16 {
        f.push(2);
    }
    assert_eq!(f.get_avg(), 2);
}

#[test]
fn fps_window_of_one() {
    let mut f = FPSCounter::new(1);
    f.push(7);
    f.push(9);
    assert_eq!(f.get_avg(), 9);
}

#[test]
fn fps_checked_average() {
    let mut f = FPSCounter::new(16);
    assert_eq!(f.checked_avg(), Some(0));
    f.push(30);
    f.push(31);
    assert_eq!(f.checked_avg(), Some(30));
    f.push(65535);
    assert_eq!(f.checked_avg(), None);
}

