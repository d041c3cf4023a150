use counter_service::bubbling::Demo;
use counter_service::callback::take_closure;
use counter_service::event::Event;
use counter_service::rows::fold_rows;

#[test]
fn an_event_gives_up_what_it_carries() {
    assert_eq!(*Event::Normal(1u8).unwrap(), 1);
    assert_eq!(*Event::Warning(2u8).unwrap(), 2);
    assert_eq!(*Event::Critical(3u8).unwrap(), 3);
    let e = Event::Warning(String::from("low")).clone();
    assert_eq!(e.unwrap(), "low");
    assert!(matches!(Event::<u8>::NoEvent, Event::NoEvent));
}

#[test]
fn the_closure_is_called_and_reported() {
    let s = "closure data".to_string();
    let p = false;
    assert_eq!(take_closure(|| s.len() == 12 && p), "closure returned false");
    assert_eq!(take_closure(|| s.len() == 12), "closure returned true");
    let calls = std::cell::Cell::new(0);
    take_closure(|| {
        calls.set(calls.get() + 1);
        true
    });
    assert_eq!(calls.get(), 1);
}

#[test]
fn the_operation_fails_on_demand() {
    let d = Demo {};
    assert_eq!(d.do_err(true).expect("asked to succeed"), "no error");
    assert!(d.do_err(false).is_err());
}

fn passed_up(d: &Demo, p: bool) -> Result<usize, counter_service::bubbling::Error> {
    let text = d.do_err(p)?;
    Ok(text.len())
}

#[test]
fn a_failure_is_passed_up_by_the_caller() {
    let d = Demo {};
    assert_eq!(passed_up(&d, true).expect("asked to succeed"), 8);
    assert!(passed_up(&d, false).is_err());
}

#[test]
fn thirteen_items_five_to_a_row() {
    assert_eq!(fold_rows(13, 5), vec![(0, 5), (5, 10), (10, 13)]);
}

#[test]
fn a_full_last_row_is_followed_by_an_empty_one() {
    assert_eq!(fold_rows(10, 5), vec![(0, 5), (5, 10), (10, 10)]);
    assert_eq!(fold_rows(0, 3), vec![(0, 0)]);
    assert_eq!(fold_rows(3, 1), vec![(0, 1), (1, 2), (2, 3), (3, 3)]);
    assert_eq!(fold_rows(2, 7), vec![(0, 2)]);
}

#[test]
fn rows_cover_the_items_as_skip_and_take_do() {
    let items: Vec<u32> = (0..23).collect();
    for span in 1..30usize {
        let rows = fold_rows(items.len(), span);
        assert_eq!(rows.len(), 1 + items.len() / span);
        for (i, (from, to)) in rows.iter().enumerate() {
            let expected: Vec<u32> = items.iter().skip(i * span).take(span).cloned().collect();
            assert_eq!(items[*from..*to].to_vec(), expected);
        }
    }
}

#[test]
fn a_holder_starts_with_the_default() {
    assert_eq!(*counter_service::defaulted::DemoSpec::<i32>::new().value(), 0);
    assert_eq!(*counter_service::defaulted::DemoSpec::<String>::new().value(), "");
    assert_eq!(*counter_service::defaulted::DemoSpec::<Option<u8>>::new().value(), None);
}
