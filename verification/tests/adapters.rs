use lua_bridge::dump::{chunk_status, dump_result, DumpSession};
use lua_bridge::loadx::{
    diagnostics_to_pop, load_result, pull_size, ChunkSource, CHUNK_CAPACITY,
};
use lua_bridge::status::{LError, LoadMode, Status};

#[test]
fn status_codes_match_the_machine() {
    assert_eq!(Status::Success.code(), 0);
    assert_eq!(Status::Yield.code(), 1);
    assert_eq!(Status::RuntimeError.code(), 2);
    assert_eq!(Status::SyntaxError.code(), 3);
    assert_eq!(Status::MemoryError.code(), 4);
    assert_eq!(Status::Error.code(), 5);
}

#[test]
fn status_decoding_round_trips() {
    for code in 0..6 {
        let status = Status::from_code(code).expect("documented code must decode");
        assert_eq!(status.code(), code);
    }
}

#[test]
fn undocumented_status_codes_decode_to_nothing() {
    assert!(Status::from_code(6).is_none());
    assert!(Status::from_code(-1).is_none());
    assert!(Status::from_code(i32::MAX).is_none());
}

#[test]
fn mode_strings_match_the_loader() {
    assert_eq!(LoadMode::Any.mode_str(), "bt");
    assert_eq!(LoadMode::Binary.mode_str(), "b");
    assert_eq!(LoadMode::Text.mode_str(), "t");
}

#[test]
fn pull_reports_bytes_read() {
    assert_eq!(pull_size(Some(10)), 10);
    assert_eq!(pull_size(Some(0)), 0);
}

#[test]
fn read_failure_is_reported_as_end_of_input() {
    assert_eq!(pull_size(None), 0);
}

#[test]
fn empty_source_ends_the_load_on_the_first_pull() {
    let mut source = ChunkSource::new(Vec::new());
    assert!(source.exhausted());
    let chunk = source.next_chunk();
    assert_eq!(chunk.len(), 0);
    assert!(source.exhausted());
}

#[test]
fn large_source_is_delivered_whole_and_in_order() {
    let data: Vec<u8> = (0..5000u32).map(|i| (i % 251) as u8).collect();
    let mut source = ChunkSource::new(data.clone());
    let first = source.next_chunk();
    assert_eq!(first.len(), CHUNK_CAPACITY);
    let second = source.next_chunk();
    assert_eq!(second.len(), 5000 - CHUNK_CAPACITY);
    let third = source.next_chunk();
    assert_eq!(third.len(), 0);
    assert!(source.exhausted());
    let mut reassembled = first;
    reassembled.extend_from_slice(&second);
    assert_eq!(reassembled, data);
}

#[test]
fn draining_returns_the_whole_source() {
    let data: Vec<u8> = (0..10000u32).map(|i| (i * 7 % 256) as u8).collect();
    let mut source = ChunkSource::new(data.clone());
    assert_eq!(source.drain(), data);
    assert!(source.exhausted());
}

#[test]
fn source_of_exactly_one_buffer_takes_two_pulls() {
    let data: Vec<u8> = vec![7; CHUNK_CAPACITY];
    let mut source = ChunkSource::new(data.clone());
    let first = source.next_chunk();
    assert_eq!(first, data);
    let second = source.next_chunk();
    assert_eq!(second.len(), 0);
}

#[test]
fn successful_load_decodes_to_success() {
    let r = load_result(Status::Success, String::new());
    assert!(r.is_ok());
}

#[test]
fn syntax_failure_carries_the_diagnostic_text() {
    let r = load_result(
        Status::SyntaxError,
        String::from("'(' expected near '<eof>'"),
    );
    match r {
        Err(LError::SyntaxError(text)) => assert_eq!(text, "'(' expected near '<eof>'"),
        _ => panic!("a syntax failure must decode to a syntax error"),
    }
}

#[test]
fn memory_failure_carries_the_diagnostic_text() {
    let r = load_result(Status::MemoryError, String::from("not enough memory"));
    match r {
        Err(LError::MemoryError(text)) => assert_eq!(text, "not enough memory"),
        _ => panic!("a memory failure must decode to a memory error"),
    }
}

#[test]
fn adapter_pops_exactly_what_the_loader_pushed() {
    assert_eq!(diagnostics_to_pop(Status::Success), 0);
    assert_eq!(diagnostics_to_pop(Status::SyntaxError), 1);
    assert_eq!(diagnostics_to_pop(Status::MemoryError), 1);
}

#[test]
fn chunk_statuses_match_the_serializer() {
    assert_eq!(chunk_status(true), 0);
    assert_eq!(chunk_status(false), 1);
}

#[test]
fn zero_terminal_status_decodes_to_success() {
    assert!(dump_result(0).is_ok());
}

#[test]
fn nonzero_terminal_status_carries_its_code() {
    match dump_result(1) {
        Err(LError::DumpError(code)) => assert_eq!(code, 1),
        _ => panic!("a non-zero status must decode to a dump error"),
    }
    match dump_result(-3) {
        Err(LError::DumpError(code)) => assert_eq!(code, -3),
        _ => panic!("a non-zero status must decode to a dump error"),
    }
}

#[test]
fn clean_dump_collects_every_chunk_in_order() {
    let mut dump = DumpSession::new();
    assert_eq!(dump.deliver(&vec![1, 2, 3], true), 0);
    assert_eq!(dump.deliver(&vec![4, 5], true), 0);
    assert!(!dump.is_aborted());
    assert_eq!(dump.bytes(), &vec![1, 2, 3, 4, 5]);
    assert_eq!(dump.terminal_code(), 0);
    assert!(dump_result(dump.terminal_code()).is_ok());
}

#[test]
fn refused_chunk_aborts_the_dump_with_a_nonzero_code() {
    let mut dump = DumpSession::new();
    assert_eq!(dump.deliver(&vec![1, 2, 3], true), 0);
    let status = dump.deliver(&vec![4, 5], false);
    assert_ne!(status, 0);
    assert!(dump.is_aborted());
    // The refused chunk never reached the sink.
    assert_eq!(dump.bytes(), &vec![1, 2, 3]);
    let code = dump.terminal_code();
    assert_ne!(code, 0);
    match dump_result(code) {
        Err(LError::DumpError(cause)) => assert_ne!(cause, 0),
        _ => panic!("an aborted dump must decode to a dump error"),
    }
}

#[test]
fn dumped_bytes_reload_whole_and_in_order() {
    let mut dump = DumpSession::new();
    assert_eq!(dump.deliver(&vec![27, 76, 117, 97], true), 0);
    assert_eq!(dump.deliver(&vec![81, 0, 1, 4], true), 0);
    assert_eq!(dump.terminal_code(), 0);
    let produced = dump.bytes().clone();
    let mut source = ChunkSource::new(produced.clone());
    let mut reloaded: Vec<u8> = Vec::new();
    loop {
        let chunk = source.next_chunk();
        if chunk.is_empty() {
            break;
        }
        reloaded.extend_from_slice(&chunk);
    }
    assert_eq!(reloaded, produced);
}
