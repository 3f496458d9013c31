use midi_router::errors::Errors;

#[test]
fn error_messages() {
    assert_eq!(Errors::InitFailure.message(), "Failed to initialize MIDI devices");
    assert_eq!(
        Errors::InvalidInputPort("Keys".to_string()).message(),
        "Invalid input port: Keys"
    );
    assert_eq!(
        Errors::InvalidOutputPort("Synth".to_string()).message(),
        "Invalid output port: Synth"
    );
    assert_eq!(Errors::ForwardingError.message(), "Failed to forward MIDI messages");
}
