use ctrlc::error::{Error, WaitError, EEXIST, EINTR};

#[test]
fn interruption_has_the_number_that_rustix_gives_it() {
    assert_eq!(Error::intr().raw_os_error(), rustix::io::Errno::INTR.raw_os_error());
    assert_eq!(Error::intr().raw_os_error(), 4);
    assert_eq!(EINTR, 4);
}

#[test]
fn conflict_has_the_number_that_rustix_and_nix_give_it() {
    assert_eq!(Error::exist().raw_os_error(), rustix::io::Errno::EXIST.raw_os_error());
    assert_eq!(Error::exist().raw_os_error(), nix::errno::Errno::EEXIST as i32);
    assert_eq!(Error::exist().raw_os_error(), 17);
    assert_eq!(EEXIST, 17);
}

#[test]
fn interruption_and_conflict_differ() {
    assert_ne!(Error::intr(), Error::exist());
}

#[test]
fn raw_number_round_trips() {
    let raw = rustix::io::Errno::AGAIN.raw_os_error();
    let error = Error::from_raw_os_error(raw);
    assert_eq!(error.raw_os_error(), raw);
    assert_eq!(error, Error { code: raw });
    assert_eq!(
        rustix::io::Errno::from_raw_os_error(error.raw_os_error()),
        rustix::io::Errno::AGAIN
    );
}

#[test]
fn only_the_interruption_is_an_interruption() {
    assert!(Error::intr().is_interrupted());
    assert!(Error::from_raw_os_error(4).is_interrupted());
    assert!(!Error::exist().is_interrupted());
    assert!(!Error::from_raw_os_error(rustix::io::Errno::AGAIN.raw_os_error()).is_interrupted());
    assert!(!Error::from_raw_os_error(0).is_interrupted());
    assert!(!Error::from_raw_os_error(-4).is_interrupted());
}

#[test]
fn wait_errors_are_told_apart() {
    assert_ne!(WaitError::UnexpectedEof, WaitError::System(Error::intr()));
    assert_eq!(
        WaitError::System(Error { code: 9 }),
        WaitError::System(Error::from_raw_os_error(9))
    );
    assert_ne!(WaitError::System(Error { code: 9 }), WaitError::System(Error { code: 5 }));
}
