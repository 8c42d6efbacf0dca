use recbox::error::RecordError;

#[test]
fn every_error_has_its_own_message() {
    let all = [
        RecordError::Connection,
        RecordError::PortRegistration,
        RecordError::NoOutputPorts,
        RecordError::PortConnection,
        RecordError::FileCreation,
        RecordError::Write,
        RecordError::Flush,
        RecordError::Lock,
    ];
    for (i, a) in all.iter().enumerate() {
        assert!(!a.describe().is_empty());
        for b in all.iter().skip(i + 1) {
            assert_ne!(a.describe(), b.describe());
        }
    }
}

#[test]
fn messages_name_the_operation() {
    assert_eq!(RecordError::Flush.describe(), "cannot flush the recording file");
    assert_eq!(
        RecordError::NoOutputPorts.describe(),
        "the audio graph does not offer exactly two output ports"
    );
}
