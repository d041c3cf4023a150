use counter_service::plugin::{Demo, Plug, Pluggin};

#[test]
fn a_plug_in_answers_with_its_name_and_the_message() {
    let mut p = Pluggin::new();
    assert_eq!(p.do_plug_op("unnamed"), "\n  : unnamed");
    p.name("Fred");
    assert_eq!(p.do_plug_op("pluggin call from main"), "\n  Fred: pluggin call from main");
    p.name("");
    assert_eq!(p.do_plug_op(""), "\n  : ");
}

#[test]
fn a_host_without_a_plug_in_puts_out_its_message_only() {
    let mut d = Demo::<Pluggin>::new();
    assert!(d.pluggin().is_none());
    assert_eq!(d.do_op("demo<Pluggin>::do_op called"), "\n  demo<Pluggin>::do_op called");
    assert!(d.pluggin().is_none());
}

#[test]
fn an_owning_host_renames_its_plug_in_and_asks_it() {
    let mut p = Pluggin::new();
    p.name("Fred");
    let mut d = Demo::<Pluggin>::new();
    d.accept(p);
    assert_eq!(
        d.pluggin().expect("the host holds a plug-in").do_plug_op("before"),
        "\n  Fred: before"
    );
    assert_eq!(
        d.do_op("demo<Pluggin>::do_op called"),
        "\n  demo<Pluggin>::do_op called\n  Jeff: pluggin called by Demo"
    );
    let pl = d.pluggin().expect("the host holds a plug-in");
    assert_eq!(pl.do_plug_op("pluggin called from main"), "\n  Jeff: pluggin called from main");
}

#[test]
fn an_owning_host_takes_the_plug_in_it_was_given_last() {
    let mut first = Pluggin::new();
    first.name("first");
    let mut second = Pluggin::new();
    second.name("second");
    let mut d = Demo::<Pluggin>::new();
    d.accept(first);
    d.accept(second);
    let held = d.pluggin().expect("the host holds a plug-in");
    assert_eq!(held.do_plug_op("x"), "\n  second: x");
}

#[test]
fn a_borrowing_host_leaves_the_plug_in_renamed() {
    let mut p = Pluggin::new();
    p.name("Fred");
    assert_eq!(p.do_plug_op("pluggin called from main"), "\n  Fred: pluggin called from main");
    {
        let mut d = counter_service::plugin_ref::Demo::<Pluggin>::new();
        d.accept(&mut p);
        assert_eq!(
            d.do_op("demo<Pluggin>::do_op called"),
            "\n  demo<Pluggin>::do_op called\n  Joe: pluggin called from Demo"
        );
    }
    assert_eq!(
        p.do_plug_op("lent pluggin called from main"),
        "\n  Joe: lent pluggin called from main"
    );
}

#[test]
fn a_borrowing_host_without_a_plug_in_puts_out_its_message_only() {
    let mut d = counter_service::plugin_ref::Demo::<Pluggin>::new();
    assert_eq!(d.do_op("alone"), "\n  alone");
}
