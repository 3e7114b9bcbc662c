use reactor::{PollOpt, Ready, Reactor, Token};

#[test]
fn delivers_observed_conditions_of_interest() {
    let mut e = Reactor::new();
    e.register(5, Token(1), Ready::readable(), PollOpt::edge()).unwrap();
    let r = e.resolve(5, Ready::readable().or(Ready::writable()));
    assert_eq!(r, Some((Token(1), Ready::readable())));
    // Edge registrations stay armed.
    assert_eq!(e.resolve(5, Ready::readable()), Some((Token(1), Ready::readable())));
}

#[test]
fn no_delivery_without_interest() {
    let mut e = Reactor::new();
    e.register(5, Token(1), Ready::readable(), PollOpt::edge()).unwrap();
    assert_eq!(e.resolve(5, Ready::writable()), None);
    assert_eq!(e.resolve(6, Ready::readable()), None);
}

#[test]
fn hup_with_writable_delivered_together() {
    let mut e = Reactor::new();
    e.register(2, Token(1), Ready::all(), PollOpt::edge()).unwrap();
    let (t, r) = e.resolve(2, Ready::writable().or(Ready::hup())).unwrap();
    assert_eq!(t, Token(1));
    assert!(r.is_writable() && r.is_hup() && !r.is_readable());
}

#[test]
fn oneshot_fires_once_until_reregistered() {
    let mut e = Reactor::new();
    e.register(3, Token(4), Ready::readable(), PollOpt::oneshot()).unwrap();
    assert_eq!(e.resolve(3, Ready::readable()), Some((Token(4), Ready::readable())));
    assert_eq!(e.resolve(3, Ready::readable()), None);
    e.reregister(3, Ready::readable(), PollOpt::oneshot()).unwrap();
    assert_eq!(e.resolve(3, Ready::readable()), Some((Token(4), Ready::readable())));
}

#[test]
fn deregistered_handle_never_fires_even_with_token_reused() {
    let mut e = Reactor::new();
    e.register(10, Token(1), Ready::readable(), PollOpt::edge()).unwrap();
    assert!(e.deregister(10));
    e.register(11, Token(1), Ready::readable(), PollOpt::edge()).unwrap();
    assert_eq!(e.resolve(10, Ready::readable()), None);
    assert_eq!(e.resolve(11, Ready::readable()), Some((Token(1), Ready::readable())));
}

#[test]
fn deregistered_within_a_batch_is_skipped() {
    let mut e = Reactor::new();
    e.register(1, Token(1), Ready::readable(), PollOpt::edge()).unwrap();
    e.register(2, Token(2), Ready::readable(), PollOpt::edge()).unwrap();
    let batch = [(1usize, Ready::readable()), (2usize, Ready::readable())];
    let mut delivered = Vec::new();
    for &(h, obs) in batch.iter() {
        if let Some((t, _)) = e.resolve(h, obs) {
            delivered.push(t);
            // The handler for the first token drops the second resource.
            if t == Token(1) {
                e.deregister(2);
            }
        }
    }
    assert_eq!(delivered, vec![Token(1)]);
}

#[test]
fn shutdown_stops_after_batch() {
    let mut e = Reactor::new();
    assert!(e.is_running());
    e.shutdown();
    assert!(!e.is_running());
    e.start();
    assert!(e.is_running());
}
