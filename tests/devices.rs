use midi_router::devices::Devices;
use midi_router::errors::Errors;

#[test]
fn both_subsystems_open() {
    let d = Devices::new(Ok::<u8, ()>(1), Ok::<u16, ()>(2)).ok().unwrap();
    assert_eq!(d.input, 1);
    assert_eq!(d.output, 2);
}

#[test]
fn either_failure_is_an_init_failure() {
    assert_eq!(Devices::new(Err::<u8, ()>(()), Ok::<u16, ()>(2)).err(), Some(Errors::InitFailure));
    assert_eq!(Devices::new(Ok::<u8, ()>(1), Err::<u16, ()>(())).err(), Some(Errors::InitFailure));
    assert_eq!(Devices::new(Err::<u8, ()>(()), Err::<u16, ()>(())).err(), Some(Errors::InitFailure));
}
