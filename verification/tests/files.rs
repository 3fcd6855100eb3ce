//! Files on their way to the peer.

use mineshare::daemon::control::ControlMsg;
use mineshare::daemon::files::{
    clean_name, partial_name, sanitize_name, DestinationSearch, Direction, SendStep, SendingFile,
    Status, TransferError, Transfers, CHUNK_BYTES,
};

fn send(content: &[u8]) -> Vec<ControlMsg> {
    let mut file = SendingFile::new(7);
    let mut messages = vec![file.offer(Some("notes.txt"), content.len() as u64)];
    for part in content.chunks(CHUNK_BYTES) {
        messages.push(file.chunk(part.to_vec()));
    }
    messages.push(file.end());
    messages
}

fn receive(t: &mut Transfers, messages: Vec<ControlMsg>) -> (Vec<u8>, Result<(), TransferError>) {
    let mut written: Vec<u8> = Vec::new();
    for m in messages {
        match m {
            ControlMsg::FileOffer { id, name, size_bytes } => {
                assert!(t.accepts_offer(id));
                let safe = sanitize_name(&name);
                t.begin_incoming(id, &safe, "/d/notes.txt", "/d/notes.txt.part", size_bytes, 10);
                assert!(!t.accepts_offer(id));
            }
            ControlMsg::FileChunk { id, offset, data } => {
                let hash = t.take_for_chunk(id).ok().unwrap();
                let end = offset as usize + data.len();
                if end > written.len() {
                    written.resize(end, 0);
                }
                written[offset as usize..end].copy_from_slice(&data);
                t.chunk_written(id, hash, offset, &data);
            }
            ControlMsg::FileEnd { id, sha256 } => {
                let mut f = t.take_for_end(id).ok().unwrap();
                assert_eq!(f.final_path, "/d/notes.txt");
                if f.reread {
                    for piece in written.chunks(1_000) {
                        f.check.feed(piece);
                    }
                }
                let checked = t.check_digest(id, f.check, sha256);
                if checked.is_ok() {
                    t.mark_done(id);
                }
                return (written, checked);
            }
            _ => panic!("not a message about a file"),
        }
    }
    panic!("the file has no end");
}

#[test]
fn a_file_arrives_as_it_was_sent() {
    let content: Vec<u8> = (0..100_000).map(|n| (n % 253) as u8).collect();
    let mut t = Transfers::new();
    let (written, checked) = receive(&mut t, send(&content));
    assert_eq!(written, content);
    assert_eq!(checked, Ok(()));
    let shown = t.snapshot(110);
    assert_eq!(shown.len(), 1);
    assert_eq!(shown[0].status, Status::Done);
    assert_eq!(shown[0].direction, Direction::Receiving);
    assert_eq!(shown[0].bytes_so_far, 100_000);
    assert_eq!(shown[0].elapsed_ms, 100);
    assert_eq!(shown[0].final_path.as_deref(), Some("/d/notes.txt"));
}

#[test]
fn chunks_may_come_in_any_order() {
    let content: Vec<u8> = (0..100_000).map(|n| (n % 251) as u8).collect();
    let mut messages = send(&content);
    messages.swap(1, 3);
    let again = match &messages[2] {
        ControlMsg::FileChunk { id, offset, data } => {
            ControlMsg::FileChunk { id: *id, offset: *offset, data: data.clone() }
        }
        _ => panic!("no chunk"),
    };
    messages.insert(3, again);
    let mut t = Transfers::new();
    let (written, checked) = receive(&mut t, messages);
    assert_eq!(written, content);
    assert_eq!(checked, Ok(()));
    assert_eq!(t.snapshot(110)[0].status, Status::Done);
}

#[test]
fn a_file_in_two_halves_the_wrong_way_round() {
    let mut t = Transfers::new();
    t.begin_incoming(1, "f", "/d/f", "/d/.f.partial", 4, 0);
    let hash = t.take_for_chunk(1).ok().unwrap();
    t.chunk_written(1, hash, 2, b"cd");
    let hash = t.take_for_chunk(1).ok().unwrap();
    t.chunk_written(1, hash, 0, b"ab");
    let mut f = t.take_for_end(1).ok().unwrap();
    assert!(f.reread);
    f.check.feed(b"ab");
    f.check.feed(b"cd");
    let digest = match send(b"abcd").pop().unwrap() {
        ControlMsg::FileEnd { sha256, .. } => sha256,
        _ => panic!("the file has no end"),
    };
    assert_eq!(t.check_digest(1, f.check, digest), Ok(()));
    assert_eq!(t.snapshot(0)[0].final_path, None);
    t.mark_done(1);
    assert_eq!(t.snapshot(0)[0].final_path.as_deref(), Some("/d/f"));
}

#[test]
fn a_cancelled_file_is_not_sent_on() {
    let mut t = Transfers::new();
    t.set_session_tx();
    let id = t.start_send(Some("a"), "/a", true, 3, 0).unwrap();
    assert_eq!(t.next_send_step(id, None), SendStep::Read);
    assert_eq!(t.next_send_step(id, Some(3)), SendStep::Chunk(3));
    assert_eq!(t.next_send_step(id, Some(0)), SendStep::End);
    assert_eq!(t.user_cancel(id), None);
    t.mark_active(id);
    assert_eq!(t.next_send_step(id, None), SendStep::Cancel);
    assert_eq!(t.next_send_step(id, Some(3)), SendStep::Cancel);
    assert!(matches!(SendingFile::new(id).cancel(), ControlMsg::FileCancel { id: n } if n == id));
    t.mark_failed(id, "cancelled by user".to_string());
    let shown = t.snapshot(0);
    assert_eq!(shown[0].status, Status::Cancelled);
    assert_eq!(shown[0].final_path, None);
    t.clear_session_tx();
    assert_eq!(t.snapshot(0)[0].status, Status::Cancelled);
    assert_eq!(t.next_send_step(9_999, None), SendStep::Cancel);
}

#[test]
fn a_damaged_file_is_refused() {
    let mut messages = send(b"some content");
    if let ControlMsg::FileChunk { data, .. } = &mut messages[1] {
        data[0] ^= 1;
    }
    let mut t = Transfers::new();
    let (_, checked) = receive(&mut t, messages);
    assert_eq!(checked, Err(TransferError::DigestMismatch));
}

#[test]
fn the_digest_is_that_of_the_content() {
    let end = send(b"abc").pop().unwrap();
    match end {
        ControlMsg::FileEnd { id, sha256 } => {
            assert_eq!(id, 7);
            let hex: String = sha256.iter().map(|b| format!("{b:02x}")).collect();
            assert_eq!(hex, "ba7816bf8f01cfea414140de5dae2223b00361a396177a9cb410ff61f20015ad");
        }
        _ => panic!("the file has no end"),
    }
}

#[test]
fn chunks_need_a_transfer_that_is_active() {
    let mut t = Transfers::new();
    assert!(matches!(t.take_for_chunk(1), Err(TransferError::UnknownId)));
    assert!(matches!(t.take_for_end(1), Err(TransferError::UnknownId)));
    t.begin_incoming(1, "a", "/d/a", "/d/a.part", 3, 0);
    let _taken = t.take_for_chunk(1);
    assert!(matches!(t.take_for_chunk(1), Err(TransferError::FileGone)));
    t.begin_incoming(2, "b", "/d/b", "/d/b.part", 3, 0);
    assert_eq!(t.user_cancel(2).as_deref(), Some("/d/b.part"));
    assert!(t.is_cancelled(2));
    assert!(matches!(t.take_for_chunk(2), Err(TransferError::NotActive)));
    t.begin_incoming(3, "c", "/d/c", "/d/c.part", 3, 0);
    assert_eq!(t.mark_failed(3, "disk full".to_string()).as_deref(), Some("/d/c.part"));
    let shown = t.snapshot(0);
    let failed = shown.iter().find(|s| s.id == 3).unwrap();
    assert_eq!(failed.error.as_deref(), Some("disk full"));
}

#[test]
fn sending_needs_a_session_and_a_file() {
    let mut t = Transfers::new();
    assert_eq!(t.start_send(Some("a"), "/a", true, 3, 0), Err(TransferError::NoPeer));
    t.set_session_tx();
    assert_eq!(t.start_send(Some("a"), "/a", false, 3, 0), Err(TransferError::NotAFile));
    let id = t.start_send(Some("a"), "/a", true, 3, 0).unwrap();
    let next = t.start_send(Some("b"), "/b", true, 3, 0).unwrap();
    assert_ne!(id, next);
    t.mark_active(id);
    t.add_progress(id, 2);
    assert_eq!(t.snapshot(0).iter().find(|s| s.id == id).unwrap().bytes_so_far, 2);
    t.clear_session_tx();
    assert_eq!(t.start_send(Some("a"), "/a", true, 3, 0), Err(TransferError::NoPeer));
    assert!(t.is_cancelled(id));
    assert!(t.is_cancelled(9_999));
}

#[test]
fn names_stay_inside_the_directory() {
    assert_eq!(sanitize_name("report.pdf"), "report.pdf");
    assert_eq!(sanitize_name("../../etc/passwd"), "passwd");
    assert_eq!(sanitize_name("pictures/cat.png/./"), "cat.png");
    assert_eq!(sanitize_name("pictures/.."), "unnamed");
    assert_eq!(sanitize_name("./."), "unnamed");
    assert_eq!(sanitize_name("/"), "unnamed");
    assert_eq!(sanitize_name("a\\b\tc\nd.txt"), "a_b_c\nd.txt");
    for hostile in ["..", ".", "", "/"] {
        let safe = sanitize_name(hostile);
        assert_eq!(safe, "unnamed", "from {hostile:?}");
    }
    assert_eq!(clean_name(Some("plain")), "plain");
    assert_eq!(clean_name(None), "unnamed");
}

#[test]
fn a_taken_name_gets_a_number() {
    let mut search = DestinationSearch::new("photo.jpg", 77);
    assert_eq!(search.current(), "photo.jpg");
    assert!(search.reject());
    assert_eq!(search.current(), "photo (1).jpg");
    assert!(search.reject());
    assert_eq!(search.current(), "photo (2).jpg");
    let mut tries = 2;
    while search.reject() {
        tries += 1;
    }
    assert!(tries >= 100);
    assert!(search.current().contains("77"));
    let plain = {
        let mut s = DestinationSearch::new("README", 1);
        s.reject();
        s.current()
    };
    assert_eq!(plain, "README (1)");
    assert_eq!(partial_name("photo.jpg"), ".photo.jpg.partial");
}
