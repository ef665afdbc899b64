use gpio_pin::digital_io::{DigitalIn, DigitalOut};
use gpio_pin::error::{error_of, Error, MechFailure};
use gpio_pin::gpio::{op_outcome, read_outcome, GPIO};

#[test]
fn io_failure_maps_to_io_error() {
    assert_eq!(error_of(MechFailure::Io), Error::IOError);
}

#[test]
fn invalid_path_failure_maps_to_invalid() {
    assert_eq!(error_of(MechFailure::InvalidPath), Error::Invalid);
}

#[test]
fn unexpected_failure_maps_to_unexpected() {
    assert_eq!(error_of(MechFailure::Unexpected), Error::Unexpected);
}

#[test]
fn unsupported_failure_maps_to_unexpected() {
    assert_eq!(error_of(MechFailure::Unsupported), Error::Unexpected);
}

#[test]
fn raw_level_zero_reads_low() {
    assert_eq!(read_outcome(Ok(0)), Ok(false));
}

#[test]
fn raw_level_one_reads_high() {
    assert_eq!(read_outcome(Ok(1)), Ok(true));
}

#[test]
fn read_failure_keeps_its_kind() {
    assert_eq!(read_outcome(Err(MechFailure::Io)), Err(Error::IOError));
    assert_eq!(read_outcome(Err(MechFailure::InvalidPath)), Err(Error::Invalid));
    assert_eq!(read_outcome(Err(MechFailure::Unexpected)), Err(Error::Unexpected));
    assert_eq!(read_outcome(Err(MechFailure::Unsupported)), Err(Error::Unexpected));
}

#[test]
fn operation_success_passes_through() {
    assert_eq!(op_outcome(Ok(())), Ok(()));
}

#[test]
fn operation_failure_keeps_its_kind() {
    assert_eq!(op_outcome(Err(MechFailure::Io)), Err(Error::IOError));
    assert_eq!(op_outcome(Err(MechFailure::InvalidPath)), Err(Error::Invalid));
    assert_eq!(op_outcome(Err(MechFailure::Unexpected)), Err(Error::Unexpected));
    assert_eq!(op_outcome(Err(MechFailure::Unsupported)), Err(Error::Unexpected));
}

#[test]
fn fresh_acquisition_records_no_prior_export_and_releases() {
    let g = GPIO::finish_acquire(17, false, Ok(())).unwrap();
    assert_eq!(g.pin_id, 17);
    assert!(!g.was_already_exported);
    assert!(g.should_release());
}

#[test]
fn acquisition_of_pin_under_prior_export_never_releases() {
    let g = GPIO::finish_acquire(4, true, Ok(())).unwrap();
    assert_eq!(g.pin_id, 4);
    assert!(g.was_already_exported);
    assert!(!g.should_release());
}

#[test]
fn failed_export_yields_the_classified_error_and_no_controller() {
    match GPIO::finish_acquire(17, false, Err(MechFailure::Io)) {
        Ok(_) => panic!("a failed export must not yield a controller"),
        Err(e) => assert_eq!(e, Error::IOError),
    }
    match GPIO::finish_acquire(17, true, Err(MechFailure::InvalidPath)) {
        Ok(_) => panic!("a failed export must not yield a controller"),
        Err(e) => assert_eq!(e, Error::Invalid),
    }
}

#[test]
fn acquisition_without_a_mechanism_reports_io_failure() {
    // No kernel export mechanism backs this pin id here, so the export call
    // fails with an I/O condition and acquisition yields no controller.
    match GPIO::new(617) {
        Ok(_) => panic!("acquisition succeeded without a mechanism"),
        Err(e) => assert_eq!(e, Error::IOError),
    }
}

#[test]
fn operations_without_a_mechanism_report_io_failure() {
    // A controller over a pin the mechanism does not back: every delegated
    // operation surfaces the mechanism's I/O failure, uniformly classified.
    let mut g = GPIO::finish_acquire(9, true, Ok(())).unwrap();
    assert_eq!(g.read(), Err(Error::IOError));
    assert_eq!(g.set_to_input(), Err(Error::IOError));
    assert_eq!(g.set_low(), Err(Error::IOError));
    assert_eq!(g.set_high(), Err(Error::IOError));
    assert_eq!(g.set_to_output(), Err(Error::IOError));
}

fn level_through_capability<T: DigitalIn>(pin: &T) -> Result<bool, Error> {
    pin.read()
}

#[test]
fn capability_interface_reaches_the_controller_polymorphically() {
    let g = GPIO::finish_acquire(9, true, Ok(())).unwrap();
    assert_eq!(level_through_capability(&g), Err(Error::IOError));
}
