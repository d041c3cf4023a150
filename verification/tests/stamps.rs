use counter_service::stamp::{convert_month, date_stamp, date_time_stamp, strip_zone, time_stamp, Reading};

#[test]
fn months_are_named_from_january() {
    let names: Vec<&str> = (0..12).map(convert_month).collect();
    assert_eq!(
        names,
        vec!["Jan", "Feb", "Mar", "Apr", "May", "Jun", "Jul", "Aug", "Sep", "Oct", "Nov", "Dec"]
    );
}

#[test]
fn a_date_is_written_with_a_two_digit_day() {
    let reading = Reading::new(2021, 3, 7, 9, 5, 0).expect("the fields are in range");
    assert_eq!(reading.date_text(), "07 Mar 2021");
    assert_eq!(reading.time_text(), "09:05:00");
    let late = Reading::new(1999, 12, 31, 23, 59, 59).expect("the fields are in range");
    assert_eq!(late.date_text(), "31 Dec 1999");
    assert_eq!(late.time_text(), "23:59:59");
    let early = Reading::new(1, 1, 1, 0, 0, 0).expect("the fields are in range");
    assert_eq!(early.date_text(), "01 Jan 1");
    assert_eq!(early.time_text(), "00:00:00");
    let far = Reading::new(u32::MAX, 10, 10, 10, 10, 10).expect("the fields are in range");
    assert_eq!(far.date_text(), "10 Oct 4294967295");
}

#[test]
fn a_reading_agrees_with_the_standard_formatting() {
    for day in 1..=31u32 {
        for month in 1..=12u32 {
            let reading = Reading::new(2020, month, day, day % 24, month * 4, day + 20)
                .expect("the fields are in range");
            let date = format!("{:0>2} {} {}", day, convert_month((month - 1) as usize), 2020);
            let time = format!("{:0>2}:{:0>2}:{:0>2}", day % 24, month * 4, day + 20);
            assert_eq!(reading.date_text(), date);
            assert_eq!(reading.time_text(), time);
        }
    }
}

#[test]
fn a_reading_out_of_range_is_refused() {
    assert_eq!(Reading::new(0, 1, 1, 0, 0, 0), None);
    assert_eq!(Reading::new(2020, 0, 1, 0, 0, 0), None);
    assert_eq!(Reading::new(2020, 13, 1, 0, 0, 0), None);
    assert_eq!(Reading::new(2020, 1, 0, 0, 0, 0), None);
    assert_eq!(Reading::new(2020, 1, 32, 0, 0, 0), None);
    assert_eq!(Reading::new(2020, 1, 1, 24, 0, 0), None);
    assert_eq!(Reading::new(2020, 1, 1, 0, 60, 0), None);
    assert_eq!(Reading::new(2020, 1, 1, 0, 0, 60), None);
    assert!(Reading::new(2020, 12, 31, 23, 59, 59).is_some());
}

#[test]
fn the_zone_is_the_last_six_characters() {
    assert_eq!(strip_zone("Tue, 1 Jul 2003 10:52:37 +0200"), "Tue, 1 Jul 2003 10:52:37");
    assert_eq!(strip_zone("Fri, 10 Jul 2020 08:00:00 -0400"), "Fri, 10 Jul 2020 08:00:00");
    assert_eq!(strip_zone(" +0000"), "");
    assert_eq!(strip_zone("x +0000"), "x");
}

fn is_two_digits(text: &str) -> bool {
    text.len() == 2 && text.bytes().all(|b| b.is_ascii_digit())
}

#[test]
fn the_time_stamp_has_the_shape_of_a_time() {
    let stamp = time_stamp();
    let parts: Vec<&str> = stamp.split(':').collect();
    assert_eq!(parts.len(), 3);
    assert!(parts.iter().all(|part| is_two_digits(part)));
    assert!(parts[0].parse::<u32>().expect("digits") < 24);
    assert!(parts[1].parse::<u32>().expect("digits") < 60);
    assert!(parts[2].parse::<u32>().expect("digits") < 60);
}

#[test]
fn the_date_stamp_has_the_shape_of_a_date() {
    let stamp = date_stamp();
    let parts: Vec<&str> = stamp.split(' ').collect();
    assert_eq!(parts.len(), 3);
    assert!(is_two_digits(parts[0]));
    let day = parts[0].parse::<u32>().expect("digits");
    assert!(1 <= day && day <= 31);
    assert!((0..12).any(|m| convert_month(m) == parts[1]));
    let year = parts[2].parse::<u32>().expect("digits");
    assert!(year >= 2024);
    assert_eq!(parts[2], year.to_string());
}

#[test]
fn the_date_time_stamp_is_the_clock_without_its_zone() {
    for _ in 0..10 {
        let before = chrono::Local::now().to_rfc2822();
        let stamp = date_time_stamp();
        let after = chrono::Local::now().to_rfc2822();
        if before == after {
            assert_eq!(stamp, before[..before.len() - 6]);
            assert!(!stamp.contains('+'));
            assert_eq!(stamp.matches(':').count(), 2);
            return;
        }
    }
    panic!("the clock did not stand still for one look in ten");
}

#[test]
fn the_date_stamp_is_the_clock_s_date() {
    for _ in 0..10 {
        let before = chrono::Local::now().format("%d %b %Y").to_string();
        let stamp = date_stamp();
        let after = chrono::Local::now().format("%d %b %Y").to_string();
        if before == after {
            assert_eq!(stamp, before);
            return;
        }
    }
    panic!("the clock did not stand still for one look in ten");
}

#[test]
fn the_time_stamp_is_the_clock_s_time() {
    for _ in 0..10 {
        let before = chrono::Local::now().format("%H:%M:%S").to_string();
        let stamp = time_stamp();
        let after = chrono::Local::now().format("%H:%M:%S").to_string();
        if before == after {
            assert_eq!(stamp, before);
            return;
        }
    }
    panic!("the clock did not stand still for one look in ten");
}
