use rvideo::{
    Error, Format, Frame, FrameSlot, GateEvent, Semaphore, Server, SlotPoll, DEFAULT_MAX_CLIENTS,
    MAX_STREAMS,
};
use std::sync::Arc;
use std::time::Duration;

fn frame(bytes: &[u8]) -> Frame {
    Frame::new(Arc::new(bytes.to_vec()))
}

fn data_of(poll: SlotPoll) -> Option<Vec<u8>> {
    match poll {
        SlotPoll::Ready(frame) => Some(frame.data.as_ref().clone()),
        _ => None,
    }
}

#[test]
fn new_server_has_defaults() {
    let server = Server::new(Duration::from_secs(5));
    assert_eq!(server.stream_count(), 0);
    assert_eq!(server.max_clients(), 16);
    assert_eq!(DEFAULT_MAX_CLIENTS, 16);
    assert_eq!(server.timeout(), Duration::from_secs(5));
}

#[test]
fn set_max_clients_is_remembered() {
    let mut server = Server::new(Duration::from_secs(1));
    server.set_max_clients(3);
    assert_eq!(server.max_clients(), 3);
    assert_eq!(server.timeout(), Duration::from_secs(1));
}

#[test]
fn stream_ids_count_from_zero() {
    let mut server = Server::new(Duration::from_secs(5));
    for expected in 0u16..10 {
        let stream = server.add_stream(Format::Luma8, 10, 20).unwrap();
        assert_eq!(stream.id(), expected);
        assert_eq!(server.stream_count(), expected + 1);
    }
}

#[test]
fn too_many_streams() {
    let mut server = Server::new(Duration::from_secs(5));
    for expected in 0u32..65_535 {
        let stream = server.add_stream(Format::Rgb8, 4, 2).unwrap();
        assert_eq!(u32::from(stream.id()), expected);
    }
    assert_eq!(server.stream_count(), 65_535);
    assert_eq!(MAX_STREAMS, 65_535);
    assert_eq!(server.add_stream(Format::Rgb8, 4, 2), Err(Error::TooManyStreams));
    assert_eq!(server.add_stream(Format::Luma8, 1, 1), Err(Error::TooManyStreams));
    assert_eq!(server.stream_count(), 65_535);
}

#[test]
fn greeting_counts_the_streams() {
    let mut server = Server::new(Duration::from_secs(5));
    assert_eq!(server.greetings(), vec![0x52, 0x01, 0x00, 0x00]);
    server.add_stream(Format::Rgb8, 4, 2).unwrap();
    assert_eq!(server.greetings(), vec![0x52, 0x01, 0x01, 0x00]);
    for _ in 0..299 {
        server.add_stream(Format::Rgb8, 4, 2).unwrap();
    }
    assert_eq!(server.greetings(), vec![0x52, 0x01, 0x2c, 0x01]);
}

#[test]
fn stream_info_is_packed_with_the_asked_id() {
    let mut server = Server::new(Duration::from_secs(5));
    server.add_stream(Format::Rgb8, 4, 2).unwrap();
    server.add_stream(Format::MJpeg, 640, 480).unwrap();
    assert_eq!(server.stream_info_packed(0), Ok(vec![0, 0, 4, 4, 0, 2, 0]));
    assert_eq!(server.stream_info_packed(1), Ok(vec![1, 0, 64, 0x80, 0x02, 0xe0, 0x01]));
    assert_eq!(server.stream_info_packed(2), Err(Error::InvalidStream));
    assert_eq!(server.stream_info_packed(7), Err(Error::InvalidStream));
}

#[test]
fn add_client_needs_an_existing_stream() {
    let mut server = Server::new(Duration::from_secs(5));
    assert_eq!(server.add_client(0, 1), Err(Error::InvalidStream));
    server.add_stream(Format::Rgb8, 4, 2).unwrap();
    assert_eq!(server.add_client(0, 1), Ok(()));
    assert_eq!(server.add_client(1, 1), Err(Error::InvalidStream));
}

#[test]
fn fresh_slot_is_empty() {
    let mut server = Server::new(Duration::from_secs(5));
    server.add_stream(Format::Rgb8, 4, 2).unwrap();
    server.add_client(0, 5).unwrap();
    assert!(matches!(server.get_frame(0, 5), SlotPoll::Empty));
}

#[test]
fn client_without_slot_is_told_closed() {
    let mut server = Server::new(Duration::from_secs(5));
    assert!(matches!(server.get_frame(0, 5), SlotPoll::Closed));
    server.add_stream(Format::Rgb8, 4, 2).unwrap();
    assert!(matches!(server.get_frame(0, 5), SlotPoll::Closed));
    assert!(matches!(server.get_frame(3, 5), SlotPoll::Closed));
}

#[test]
fn send_frame_reaches_every_subscriber_of_the_stream() {
    let mut server = Server::new(Duration::from_secs(5));
    server.add_stream(Format::Rgb8, 4, 2).unwrap();
    server.add_stream(Format::Rgb8, 4, 2).unwrap();
    server.add_client(0, 1).unwrap();
    server.add_client(0, 2).unwrap();
    server.add_client(1, 3).unwrap();
    assert_eq!(server.send_frame(0, frame(&[1, 2, 3])), Ok(()));
    assert_eq!(data_of(server.get_frame(0, 1)), Some(vec![1, 2, 3]));
    assert_eq!(data_of(server.get_frame(0, 2)), Some(vec![1, 2, 3]));
    assert!(matches!(server.get_frame(1, 3), SlotPoll::Empty));
    assert!(matches!(server.get_frame(0, 1), SlotPoll::Empty));
}

#[test]
fn send_frame_to_unknown_stream_is_refused() {
    let mut server = Server::new(Duration::from_secs(5));
    assert_eq!(server.send_frame(0, frame(&[1])), Err(Error::InvalidStream));
    server.add_stream(Format::Rgb8, 4, 2).unwrap();
    assert_eq!(server.send_frame(1, frame(&[1])), Err(Error::InvalidStream));
    assert_eq!(server.send_frame(0, frame(&[1])), Ok(()));
}

#[test]
fn newest_frame_replaces_the_waiting_one() {
    let mut server = Server::new(Duration::from_secs(5));
    server.add_stream(Format::Rgb8, 4, 2).unwrap();
    server.add_client(0, 1).unwrap();
    server.send_frame(0, frame(&[1])).unwrap();
    server.send_frame(0, frame(&[2])).unwrap();
    server.send_frame(0, frame(&[3])).unwrap();
    assert_eq!(data_of(server.get_frame(0, 1)), Some(vec![3]));
    assert!(matches!(server.get_frame(0, 1), SlotPoll::Empty));
}

#[test]
fn late_subscriber_misses_earlier_frames() {
    let mut server = Server::new(Duration::from_secs(5));
    server.add_stream(Format::Rgb8, 4, 2).unwrap();
    server.add_client(0, 1).unwrap();
    server.send_frame(0, frame(&[1])).unwrap();
    server.add_client(0, 2).unwrap();
    assert!(matches!(server.get_frame(0, 2), SlotPoll::Empty));
    assert_eq!(data_of(server.get_frame(0, 1)), Some(vec![1]));
}

#[test]
fn removed_client_is_not_reached() {
    let mut server = Server::new(Duration::from_secs(5));
    server.add_stream(Format::Rgb8, 4, 2).unwrap();
    server.add_client(0, 1).unwrap();
    server.add_client(0, 2).unwrap();
    server.add_client(0, 3).unwrap();
    server.remove_client(0, 2);
    server.send_frame(0, frame(&[9])).unwrap();
    assert!(matches!(server.get_frame(0, 2), SlotPoll::Closed));
    assert_eq!(data_of(server.get_frame(0, 1)), Some(vec![9]));
    assert_eq!(data_of(server.get_frame(0, 3)), Some(vec![9]));
}

#[test]
fn remove_client_of_absent_client_or_stream_does_nothing() {
    let mut server = Server::new(Duration::from_secs(5));
    server.remove_client(4, 1);
    server.add_stream(Format::Rgb8, 4, 2).unwrap();
    server.add_client(0, 1).unwrap();
    server.remove_client(0, 7);
    server.remove_client(1, 1);
    server.send_frame(0, frame(&[4])).unwrap();
    assert_eq!(data_of(server.get_frame(0, 1)), Some(vec![4]));
}

#[test]
fn subscribing_again_replaces_the_slot() {
    let mut server = Server::new(Duration::from_secs(5));
    server.add_stream(Format::Rgb8, 4, 2).unwrap();
    server.add_client(0, 1).unwrap();
    server.send_frame(0, frame(&[4])).unwrap();
    server.add_client(0, 1).unwrap();
    assert!(matches!(server.get_frame(0, 1), SlotPoll::Empty));
}

#[test]
fn client_ids_count_up() {
    let mut server = Server::new(Duration::from_secs(5));
    assert_eq!(server.next_client_id(), 0);
    assert_eq!(server.next_client_id(), 1);
    assert_eq!(server.next_client_id(), 2);
}

#[test]
fn closing_the_server_closes_every_slot() {
    let mut server = Server::new(Duration::from_secs(5));
    server.add_stream(Format::Rgb8, 4, 2).unwrap();
    server.add_stream(Format::Rgb8, 4, 2).unwrap();
    server.add_client(0, 1).unwrap();
    server.add_client(1, 2).unwrap();
    server.send_frame(0, frame(&[4])).unwrap();
    server.close();
    assert!(matches!(server.get_frame(0, 1), SlotPoll::Closed));
    assert!(matches!(server.get_frame(1, 2), SlotPoll::Closed));
    assert_eq!(server.stream_count(), 2);
}

#[test]
fn stream_handle_sends_to_its_stream() {
    let mut server = Server::new(Duration::from_secs(5));
    let first = server.add_stream(Format::Rgb8, 4, 2).unwrap();
    let second = server.add_stream(Format::Luma8, 4, 2).unwrap();
    server.add_client(0, 1).unwrap();
    server.add_client(1, 2).unwrap();
    assert_eq!(second.id(), 1);
    assert_eq!(second.send_frame(&mut server, frame(&[8])), Ok(()));
    assert!(matches!(server.get_frame(0, 1), SlotPoll::Empty));
    assert_eq!(data_of(server.get_frame(1, 2)), Some(vec![8]));
    assert_eq!(first.send_frame(&mut server, frame(&[7])), Ok(()));
    assert_eq!(data_of(server.get_frame(0, 1)), Some(vec![7]));
}

#[test]
fn slot_keeps_only_the_newest_frame() {
    let mut slot = FrameSlot::new();
    assert!(matches!(slot.get(), SlotPoll::Empty));
    slot.set(frame(&[1]));
    slot.set(frame(&[2]));
    assert_eq!(data_of(slot.get()), Some(vec![2]));
    assert!(matches!(slot.get(), SlotPoll::Empty));
}

#[test]
fn closed_slot_hands_out_nothing() {
    let mut slot = FrameSlot::new();
    assert!(!slot.is_closed());
    slot.set(frame(&[1]));
    slot.close();
    assert!(slot.is_closed());
    assert!(matches!(slot.get(), SlotPoll::Closed));
    slot.set(frame(&[2]));
    assert!(slot.is_closed());
    assert!(matches!(slot.get(), SlotPoll::Closed));
}

#[test]
fn semaphore_grants_up_to_capacity() {
    let mut gate = Semaphore::new(2);
    assert_eq!(gate.permits(), 2);
    assert_eq!(gate.permits_in_use(), 0);
    let first = gate.acquire();
    let second = gate.acquire();
    assert!(first.is_some());
    assert!(second.is_some());
    assert_eq!(gate.permits_in_use(), 2);
    assert!(gate.acquire().is_none());
    assert_eq!(gate.permits_in_use(), 2);
    gate.release(first.unwrap());
    assert_eq!(gate.permits_in_use(), 1);
    let third = gate.acquire();
    assert!(third.is_some());
    assert!(gate.acquire().is_none());
    gate.release(second.unwrap());
    gate.release(third.unwrap());
    assert_eq!(gate.permits_in_use(), 0);
}

#[test]
fn semaphore_without_capacity_grants_nothing() {
    let mut gate = Semaphore::new(0);
    assert!(gate.acquire().is_none());
    assert_eq!(gate.permits_in_use(), 0);
}

#[test]
fn semaphore_never_exceeds_capacity() {
    let events = [
        GateEvent::Acquire,
        GateEvent::Acquire,
        GateEvent::Acquire,
        GateEvent::Release,
        GateEvent::Acquire,
        GateEvent::Acquire,
        GateEvent::Release,
        GateEvent::Release,
        GateEvent::Acquire,
    ];
    let mut gate = Semaphore::new(2);
    let mut held = Vec::new();
    for event in events {
        match event {
            GateEvent::Acquire => {
                if let Some(guard) = gate.acquire() {
                    held.push(guard);
                }
            }
            GateEvent::Release => {
                if let Some(guard) = held.pop() {
                    gate.release(guard);
                }
            }
        }
        assert!(gate.permits_in_use() <= gate.permits());
        assert_eq!(gate.permits_in_use(), held.len());
    }
}

#[test]
fn many_clients_each_get_the_newest_frame() {
    let mut server = Server::new(Duration::from_secs(5));
    server.add_stream(Format::Rgb8, 4, 2).unwrap();
    let ids: Vec<usize> = (0..60).map(|k| (k * 37 + 11) % 101).collect();
    for id in &ids {
        server.add_client(0, *id).unwrap();
    }
    server.send_frame(0, frame(&[1])).unwrap();
    for id in ids.iter().filter(|id| **id % 3 == 0) {
        server.remove_client(0, *id);
    }
    server.send_frame(0, frame(&[2])).unwrap();
    for id in &ids {
        if id % 3 == 0 {
            assert!(matches!(server.get_frame(0, *id), SlotPoll::Closed));
        } else {
            assert_eq!(data_of(server.get_frame(0, *id)), Some(vec![2]));
            assert!(matches!(server.get_frame(0, *id), SlotPoll::Empty));
        }
    }
    server.close();
    for id in &ids {
        assert!(matches!(server.get_frame(0, *id), SlotPoll::Closed));
    }
}
