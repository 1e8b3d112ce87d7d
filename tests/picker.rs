use portserve::picker::{Outcome, PortPicker, Probe, ATTEMPTS, GUESS_HIGH, GUESS_LOW};

fn run(mut p: PortPicker, both: &dyn Fn(u16) -> bool, os: &dyn Fn() -> Option<u16>, udp: &dyn Fn(u16) -> bool) -> (Option<u16>, u32) {
    let mut probes: u32 = 0;
    loop {
        match p.next_probe() {
            Probe::Both(port) => p.advance(Outcome::Free(both(port))),
            Probe::AskOs => p.advance(Outcome::Assigned(os())),
            Probe::Udp(port) => p.advance(Outcome::Free(udp(port))),
            Probe::Done(r) => return (r, probes),
        }
        probes += 1;
    }
}

#[test]
fn first_free_guess_is_taken() {
    let mut p = PortPicker::with_first_guess(15000);
    p.step(Outcome::Free(true), 16000);
    assert_eq!(p.next_probe(), Probe::Done(Some(15000)));
}

#[test]
fn taken_guess_draws_again() {
    let mut p = PortPicker::with_first_guess(15000);
    p.step(Outcome::Free(false), 24999);
    assert_eq!(p.next_probe(), Probe::Both(24999));
    assert_eq!(p.guesses, 2);
}

#[test]
fn guesses_stay_in_range() {
    for _ in 0..200 {
        let p = PortPicker::new();
        match p.next_probe() {
            Probe::Both(port) => assert!(GUESS_LOW <= port && port < GUESS_HIGH),
            other => panic!("unexpected first probe {:?}", other),
        }
        let (r, _) = run(p, &|_| true, &|| None, &|_| true);
        let port = r.unwrap();
        assert!((15000..25000).contains(&port));
    }
}

#[test]
fn falls_back_to_system_port() {
    let (r, probes) = run(PortPicker::new(), &|_| false, &|| Some(40000), &|_| true);
    assert_eq!(r, Some(40000));
    assert_eq!(probes, ATTEMPTS + 2);
}

#[test]
fn system_port_must_be_free_on_udp() {
    let (r, probes) = run(PortPicker::new(), &|_| false, &|| Some(40000), &|_| false);
    assert_eq!(r, None);
    assert_eq!(probes, 3 * ATTEMPTS);
}

#[test]
fn gives_up_after_both_phases() {
    let (r, probes) = run(PortPicker::new(), &|_| false, &|| None, &|_| true);
    assert_eq!(r, None);
    assert_eq!(probes, 2 * ATTEMPTS);
}

#[test]
fn picks_every_time_when_ports_are_free() {
    for _ in 0..1000 {
        let (r, _) = run(PortPicker::new(), &|_| true, &|| Some(40000), &|_| true);
        assert!(r.is_some());
    }
}
