use remote_exec_broker::local::{export_read_step, missing_terminal_message, ExportArchiveItem, ExportReadError, ExportReadStep};

#[test]
fn export_stream_steps() {
    assert!(matches!(export_read_step::<String>(Some(ExportArchiveItem::Data(vec![1, 2]))), ExportReadStep::Data(d) if d == vec![1, 2]));
    assert!(matches!(export_read_step::<String>(Some(ExportArchiveItem::Complete)), ExportReadStep::End));
    assert!(matches!(
        export_read_step(Some(ExportArchiveItem::Error("disk full".to_string()))),
        ExportReadStep::Fail(ExportReadError::Transfer(e)) if e == "disk full"
    ));
    assert!(matches!(export_read_step::<String>(None), ExportReadStep::Fail(ExportReadError::MissingTerminal)));
    assert_eq!(missing_terminal_message(), "transfer export stream ended before terminal state");
}
