use filereader::reader::{
    perform_annotated_read_operation, DOMErrorName, Error, FileReader, FileReaderFunction, FileReaderResult,
    FileReadingTask, ProgressEvent, ProgressEventType, ReadMetaData, ReadOperation,
};

fn names(events: &[ProgressEvent]) -> Vec<ProgressEventType> {
    events.iter().map(|e| e.event_type).collect()
}

fn replay(reader: &mut FileReader, op: ReadOperation) -> Vec<ProgressEventType> {
    let mut seen = Vec::new();
    for task in perform_annotated_read_operation(op.gen_id, op.data, op.blob_contents) {
        seen.extend(names(&task.handle_task(reader)));
    }
    seen
}

fn text_result(reader: &FileReader) -> Option<String> {
    match reader.GetResult() {
        Some(FileReaderResult::String(s)) => Some(s.clone()),
        _ => None,
    }
}

#[test]
fn fresh_reader_is_empty() {
    let reader = FileReader::new();
    assert_eq!(reader.ReadyState(), 0);
    assert!(reader.GetResult().is_none());
    assert_eq!(reader.GetError(), None);
    assert!(FileReader::Constructor().is_ok());
}

#[test]
fn metadata_keeps_its_fields() {
    let d = ReadMetaData::new("text/html".to_string(), Some("utf-8".to_string()), FileReaderFunction::ReadAsText);
    assert_eq!(d.blobtype, "text/html");
    assert_eq!(d.label, Some("utf-8".to_string()));
    assert_eq!(d.function, FileReaderFunction::ReadAsText);
}

#[test]
fn start_while_loading_is_refused() {
    let mut reader = FileReader::new();
    let op = reader.ReadAsText(Ok(b"hi".to_vec()), "text/plain".to_string(), None).unwrap();
    assert_eq!(reader.ReadyState(), 1);
    let second = reader.ReadAsDataURL(Ok(b"x".to_vec()), String::new());
    assert!(matches!(second, Err(Error::InvalidState)));
    let third = reader.ReadAsArrayBuffer(Ok(b"x".to_vec()), String::new());
    assert!(matches!(third, Err(Error::InvalidState)));
    assert_eq!(reader.ReadyState(), 1);
    assert!(reader.GetResult().is_none());
    assert_eq!(reader.GetError(), None);
    replay(&mut reader, op);
    assert_eq!(text_result(&reader), Some("hi".to_string()));
}

#[test]
fn successful_read_signals_in_order() {
    let mut reader = FileReader::new();
    let op = reader.ReadAsText(Ok(b"hello".to_vec()), "text/plain".to_string(), None).unwrap();
    let seen = replay(&mut reader, op);
    assert_eq!(
        seen,
        vec![
            ProgressEventType::LoadStart,
            ProgressEventType::Progress,
            ProgressEventType::Load,
            ProgressEventType::LoadEnd
        ]
    );
    assert_eq!(reader.ReadyState(), 2);
    assert_eq!(text_result(&reader), Some("hello".to_string()));
    assert_eq!(reader.GetError(), None);
}

#[test]
fn signals_carry_no_progress_figures() {
    let mut reader = FileReader::new();
    let op = reader.ReadAsArrayBuffer(Ok(vec![1, 2, 3]), String::new()).unwrap();
    let events = reader.process_read(op.gen_id);
    assert_eq!(events.len(), 1);
    assert_eq!(events[0].event_type, ProgressEventType::LoadStart);
    assert!(!events[0].length_computable);
    assert_eq!(events[0].loaded, 0);
    assert_eq!(events[0].total, 0);
}

#[test]
fn array_buffer_read_keeps_bytes() {
    let mut reader = FileReader::new();
    let op = reader.ReadAsArrayBuffer(Ok(vec![0, 255, 7]), "application/octet-stream".to_string()).unwrap();
    assert_eq!(op.data.function, FileReaderFunction::ReadAsArrayBuffer);
    replay(&mut reader, op);
    match reader.GetResult() {
        Some(FileReaderResult::ArrayBuffer(b)) => assert_eq!(b, &vec![0, 255, 7]),
        _ => panic!("expected an array buffer"),
    }
}

#[test]
fn data_url_read() {
    let mut reader = FileReader::new();
    let op = reader.ReadAsDataURL(Ok(vec![0x41, 0x42]), "text/plain".to_string()).unwrap();
    replay(&mut reader, op);
    assert_eq!(text_result(&reader), Some("data:text/plain;base64,QUI=".to_string()));
}

#[test]
fn text_read_uses_label() {
    let mut reader = FileReader::new();
    let op = reader
        .ReadAsText(Ok(vec![0x41, 0x00]), "text/plain;charset=utf-8".to_string(), Some("utf-16".to_string()))
        .unwrap();
    replay(&mut reader, op);
    assert_eq!(text_result(&reader), Some("A".to_string()));
}

#[test]
fn unreadable_source_reads_as_empty() {
    let mut reader = FileReader::new();
    let op = reader.ReadAsText(Err(()), "text/plain".to_string(), None).unwrap();
    assert!(op.blob_contents.is_empty());
    replay(&mut reader, op);
    assert_eq!(text_result(&reader), Some(String::new()));
}

#[test]
fn abort_during_loading_discards_completion() {
    let mut reader = FileReader::new();
    let op = reader.ReadAsText(Ok(b"late".to_vec()), "text/plain".to_string(), None).unwrap();
    let events = reader.Abort();
    assert_eq!(names(&events), vec![ProgressEventType::Abort, ProgressEventType::LoadEnd]);
    assert_eq!(reader.ReadyState(), 2);
    assert_eq!(reader.GetError(), Some(DOMErrorName::AbortError));
    let seen = replay(&mut reader, op);
    assert!(seen.is_empty());
    assert!(reader.GetResult().is_none());
    assert_eq!(reader.GetError(), Some(DOMErrorName::AbortError));
}

#[test]
fn stale_completion_does_not_touch_new_read() {
    let mut reader = FileReader::new();
    let old_op = reader.ReadAsText(Ok(b"old".to_vec()), "text/plain".to_string(), None).unwrap();
    reader.Abort();
    let new_op = reader.ReadAsText(Ok(b"new".to_vec()), "text/plain".to_string(), None).unwrap();
    assert_ne!(old_op.gen_id, new_op.gen_id);
    assert!(replay(&mut reader, old_op).is_empty());
    assert_eq!(reader.ReadyState(), 1);
    assert!(reader.GetResult().is_none());
    replay(&mut reader, new_op);
    assert_eq!(text_result(&reader), Some("new".to_string()));
}

#[test]
fn abort_when_idle() {
    let mut reader = FileReader::new();
    let events = reader.Abort();
    assert_eq!(names(&events), vec![ProgressEventType::Abort, ProgressEventType::LoadEnd]);
    assert_eq!(reader.ReadyState(), 0);
    assert_eq!(reader.GetError(), Some(DOMErrorName::AbortError));
}

#[test]
fn error_path_sets_error_only() {
    let mut reader = FileReader::new();
    let op = reader.ReadAsText(Ok(b"x".to_vec()), "text/plain".to_string(), None).unwrap();
    let mut seen = names(&reader.process_read(op.gen_id));
    seen.extend(names(&reader.process_read_data(op.gen_id)));
    let task = FileReadingTask::ProcessReadError(op.gen_id, DOMErrorName::NotReadableError);
    seen.extend(names(&task.handle_task(&mut reader)));
    assert_eq!(
        seen,
        vec![
            ProgressEventType::LoadStart,
            ProgressEventType::Progress,
            ProgressEventType::Error,
            ProgressEventType::LoadEnd
        ]
    );
    assert_eq!(reader.ReadyState(), 2);
    assert!(reader.GetResult().is_none());
    assert_eq!(reader.GetError(), Some(DOMErrorName::NotReadableError));
    let late = reader.process_read_eof(op.gen_id, op.data, op.blob_contents);
    assert!(late.is_empty());
    assert!(reader.GetResult().is_none());
}

#[test]
fn read_after_abort_clears_error() {
    let mut reader = FileReader::new();
    reader.Abort();
    let op = reader.ReadAsText(Ok(b"ok".to_vec()), "text/plain".to_string(), None).unwrap();
    assert_eq!(reader.GetError(), None);
    replay(&mut reader, op);
    assert_eq!(reader.GetError(), None);
    assert_eq!(text_result(&reader), Some("ok".to_string()));
}

#[test]
fn restart_after_done_gets_fresh_generation() {
    let mut reader = FileReader::new();
    let first = reader.ReadAsText(Ok(b"one".to_vec()), "text/plain".to_string(), None).unwrap();
    let first_gen = first.gen_id;
    replay(&mut reader, first);
    assert_eq!(reader.ReadyState(), 2);
    let second = reader.ReadAsText(Ok(b"two".to_vec()), "text/plain".to_string(), None).unwrap();
    assert_eq!(reader.ReadyState(), 1);
    assert_ne!(second.gen_id, first_gen);
    replay(&mut reader, second);
    assert_eq!(text_result(&reader), Some("two".to_string()));
}

#[test]
fn worker_sends_three_tasks_in_order() {
    let mut reader = FileReader::new();
    let op = reader.ReadAsText(Ok(b"z".to_vec()), "text/plain".to_string(), None).unwrap();
    let g = op.gen_id;
    let tasks = perform_annotated_read_operation(op.gen_id, op.data, op.blob_contents);
    assert_eq!(tasks.len(), 3);
    assert!(matches!(tasks[0], FileReadingTask::ProcessRead(x) if x == g));
    assert!(matches!(tasks[1], FileReadingTask::ProcessReadData(x) if x == g));
    assert!(matches!(tasks[2], FileReadingTask::ProcessReadEOF(x, _, _) if x == g));
}
