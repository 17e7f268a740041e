use xondemoparser::command::{next_command, Command};
use xondemoparser::cursor::ByteCursor;
use xondemoparser::entity::Entity;
use xondemoparser::error::ErrorKind;
use xondemoparser::packet::{Direction, Parser};
use xondemoparser::temp_entity::TempEntity;

fn frame(word: u32, angles: [u32; 3], body: &[u8]) -> Vec<u8> {
    let mut v = word.to_le_bytes().to_vec();
    for a in angles {
        v.extend_from_slice(&a.to_le_bytes());
    }
    v.extend_from_slice(body);
    v
}

fn demo() -> Vec<u8> {
    let mut d = b"-1\n".to_vec();
    // server info, sign-on stage, cd track, end marker
    let mut body = vec![11u8, 0xb0, 0x0d, 0, 0, 8, 1];
    body.extend_from_slice(b"world\0maps/a.bsp\0progs/b.mdl\0\0sound/c.wav\0\0");
    body.extend_from_slice(&[25, 2, 32, 4, 1, 0xff, 7, 7]);
    d.extend(frame(body.len() as u32, [0, 0x3f80_0000, 0], &body));
    // an entity update, a temp entity, a print
    let mut body2 = vec![0x89u8, 0x00, 0x05, 1, 2, 3, 4, 23, 86, 15, 3, 8];
    body2.extend_from_slice(b"hello\0");
    d.extend(frame(body2.len() as u32, [0, 0, 0], &body2));
    d
}

#[test]
fn it_works() {
    let mut p = Parser::new(demo());
    let h = p.parse_header().unwrap();
    assert_eq!(h, b"-1".to_vec());

    let mut packets = 0;
    let mut commands = 0;
    while let Some(mut packet) = p.parse_packet().unwrap() {
        packets += 1;
        assert_eq!(packet.direction, Direction::ServerToClient);
        while let Some(_cmd) = packet.read_command().unwrap() {
            commands += 1;
        }
    }
    assert_eq!(packets, 2);
    assert_eq!(commands, 6);
    assert_eq!(p.remaining(), 0);
}

#[test]
fn server_info_lists() {
    let mut p = Parser::new(demo());
    p.parse_header().unwrap();
    let mut packet = p.parse_packet().unwrap().unwrap();
    assert_eq!(packet.view_angles.y, 0x3f80_0000);
    assert_eq!(f32::from_bits(packet.view_angles.y), 1.0f32);
    match packet.read_command().unwrap().unwrap() {
        Command::ServerInfo { protocol, maxclients, gametype, world_message, models, sounds } => {
            assert_eq!(protocol, 3504);
            assert_eq!(maxclients, 8);
            assert_eq!(gametype, 1);
            assert_eq!(world_message, b"world".to_vec());
            assert_eq!(models, vec![b"maps/a.bsp".to_vec(), b"progs/b.mdl".to_vec()]);
            assert_eq!(sounds, vec![b"sound/c.wav".to_vec()]);
        }
        other => panic!("unexpected {:?}", other),
    }
    assert!(matches!(packet.read_command().unwrap(), Some(Command::SignOnNum { i: 2 })));
    assert!(matches!(packet.read_command().unwrap(), Some(Command::CdTrack { track: 4, does_loop: 1 })));
    assert!(packet.read_command().unwrap().is_none());
}

#[test]
fn first_packet_after_header() {
    let mut d = b"-1\n".to_vec();
    d.extend(frame(0x0000_0010, [0, 0, 0], &[1u8; 16]));
    let mut p = Parser::new(d);
    assert_eq!(p.parse_header().unwrap(), b"-1".to_vec());
    let packet = p.parse_packet().unwrap().unwrap();
    assert_eq!(packet.direction, Direction::ServerToClient);
    assert_eq!(packet.body.remaining(), 16);
    assert_eq!((packet.view_angles.x, packet.view_angles.y, packet.view_angles.z), (0, 0, 0));
    assert!(p.parse_packet().unwrap().is_none());
}

#[test]
fn packets_partition_input() {
    let mut d = frame(3, [0, 0, 0], &[1, 1, 1]);
    d.extend(frame(0x8000_0002, [1, 2, 3], &[9, 9]));
    d.extend(frame(0, [0, 0, 0], &[]));
    let total = d.len();
    let mut p = Parser::new(d);
    let mut consumed = 0;
    let mut dirs = Vec::new();
    while let Some(pk) = p.parse_packet().unwrap() {
        consumed += 16 + pk.body.remaining();
        assert_eq!(total - p.remaining(), consumed);
        dirs.push(pk.direction);
    }
    assert_eq!(consumed, total);
    assert_eq!(dirs, vec![Direction::ServerToClient, Direction::ClientToServer, Direction::ServerToClient]);
}

#[test]
fn truncated_packet() {
    let d = frame(10, [0, 0, 0], &[1, 2, 3]);
    let mut p = Parser::new(d);
    let e = p.parse_packet().err().unwrap();
    assert_eq!(e.kind, ErrorKind::TruncatedPacket);
    assert_eq!(e.offset, 16);
    assert_eq!(e.context, vec![1, 2, 3]);
}

#[test]
fn short_frame_header_is_eof() {
    let mut p = Parser::new(vec![1, 0, 0, 0, 0]);
    let e = p.parse_packet().err().unwrap();
    assert_eq!(e.kind, ErrorKind::UnexpectedEof);
    assert_eq!(e.offset, 4);
}

#[test]
fn unexpected_header() {
    let mut p = Parser::new(b"-2\nabc".to_vec());
    let e = p.parse_header().err().unwrap();
    assert_eq!(e.kind, ErrorKind::UnexpectedHeader);
    assert_eq!(e.offset, 3);
    assert_eq!(e.context, b"abc".to_vec());
}

#[test]
fn header_without_newline() {
    let mut p = Parser::new(b"-1".to_vec());
    let e = p.parse_header().err().unwrap();
    assert_eq!(e.kind, ErrorKind::MalformedString);
    assert_eq!(e.offset, 0);
}

#[test]
fn entity_tag_reads_one_extra_mask_byte() {
    let mut c = ByteCursor::new(vec![0x89, 0x00, 0x05, 1, 2, 3, 4, 0xAA]);
    match next_command(&mut c).unwrap().unwrap() {
        Command::Entity { entity } => {
            assert_eq!(entity.bits, 0x09);
            assert_eq!(entity.number, 5);
            assert_eq!(entity.origin3, Some(0x0403_0201));
            assert_eq!(entity.model_index, None);
            assert_eq!(entity.origin, None);
        }
        other => panic!("unexpected {:?}", other),
    }
    assert_eq!(c.position(), 7);
}

#[test]
fn entity_mask_chain_and_field_order() {
    // first byte: MOREBITS | ORIGIN1 | FRAME; second: EXTEND1 | LONGENTITY | MODEL | ANGLE1;
    // third: ALPHA | EXTEND2; fourth: FRAME2
    let mut c = ByteCursor::new(vec![
        0x43, 0xC5, 0x82, 0x04, 0x34, 0x12, 7, 9, 0, 0, 0x80, 0x3f, 0x10, 0x20, 200, 3,
    ]);
    let e = Entity::parse(0x43, &mut {
        c.read_u8().unwrap();
        c
    });
    let e = e.unwrap();
    assert_eq!(e.bits, 0x0482_C543);
    assert_eq!(e.number, 0x1234);
    assert_eq!(e.model_index, Some(7));
    assert_eq!(e.frame, Some(9));
    assert_eq!(e.origin, Some(0x3f80_0000));
    assert_eq!(e.angle, Some(0x2010));
    assert_eq!(e.alpha, Some(200));
    assert_eq!(e.frame2, Some(3));
    assert_eq!(e.skin, None);
}

#[test]
fn entity_fields_past_end_is_eof() {
    let mut c = ByteCursor::new(vec![0x82, 0x01, 1, 2]);
    let e = next_command(&mut c).err().unwrap();
    assert_eq!(e.kind, ErrorKind::UnexpectedEof);
    assert_eq!(e.offset, 2);
    assert_eq!(e.context, vec![1, 2]);
}

#[test]
fn end_marker_ends_commands() {
    let mut c = ByteCursor::new(vec![0xFF, 1, 1, 1]);
    assert!(next_command(&mut c).unwrap().is_none());
    assert_eq!(c.remaining(), 0);
    assert!(next_command(&mut c).unwrap().is_none());
}

#[test]
fn zstring_position() {
    let mut c = ByteCursor::new(b"abc\0xyz".to_vec());
    let s = c.read_zstring().unwrap();
    assert_eq!(s, b"abc".to_vec());
    assert_eq!(c.position(), 4);
    let e = c.read_zstring().err().unwrap();
    assert_eq!(e.kind, ErrorKind::MalformedString);
    assert_eq!(e.offset, 4);
}

#[test]
fn empty_download_chunk() {
    let mut c = ByteCursor::new(vec![50, 0x10, 0, 0, 0, 0, 0, 1]);
    match next_command(&mut c).unwrap().unwrap() {
        Command::DownloadData { start, data } => {
            assert_eq!(start, 16);
            assert!(data.is_empty());
        }
        other => panic!("unexpected {:?}", other),
    }
    assert_eq!(c.position(), 7);
}

#[test]
fn download_chunk_payload() {
    let mut c = ByteCursor::new(vec![50, 1, 1, 0, 0, 3, 0, 7, 8, 9]);
    match next_command(&mut c).unwrap().unwrap() {
        Command::DownloadData { start, data } => {
            assert_eq!(start, 257);
            assert_eq!(data, vec![7, 8, 9]);
        }
        other => panic!("unexpected {:?}", other),
    }
}

#[test]
fn little_endian_reads() {
    let mut c = ByteCursor::new(vec![0x34, 0x12, 0x78, 0x56, 0x34, 0x12, 1, 2, 3]);
    assert_eq!(c.read_u16_le().unwrap(), 0x1234);
    assert_eq!(c.read_u32_le().unwrap(), 0x1234_5678);
    assert_eq!(c.read_u24_le().unwrap(), 0x0003_0201);
    let e = c.read_u8().err().unwrap();
    assert_eq!(e.kind, ErrorKind::UnexpectedEof);
    assert_eq!(e.offset, 9);
    assert!(e.context.is_empty());
}

#[test]
fn unknown_opcode() {
    let mut c = ByteCursor::new(vec![2, 0xAB]);
    let e = next_command(&mut c).err().unwrap();
    assert_eq!(e.kind, ErrorKind::UnknownOpcode { tag: 2 });
    assert_eq!(e.offset, 1);
    assert_eq!(e.context, vec![0xAB]);
    let dump = e.hex_dump();
    assert!(!dump.is_empty());
    assert!(dump.contains("ab"));
}

#[test]
fn temp_entities() {
    let mut body = vec![23u8, 86, 11, 1, 0, 2, 0, 0xff, 0xff];
    body.extend_from_slice(b"bob\0");
    body.extend_from_slice(&[0x10, 0x27, 0]);
    body.extend_from_slice(&[23, 86, 1, 23, 86, 8, 5, 0, 0, 23, 86, 10, 1, 1, 0, b'x', 0]);
    body.extend_from_slice(&[23, 0x63, 1, 2, 3, 4, 5, 23, 86, 9, 2, 0, 0, 0]);
    let mut c = ByteCursor::new(body);
    match next_command(&mut c).unwrap().unwrap() {
        Command::TempEntity { inner: TempEntity::RaceRanking { pos, prev_pos, del, name, time } } => {
            assert_eq!((pos, prev_pos, del), (1, 2, 0xffff));
            assert_eq!(name, b"bob".to_vec());
            assert_eq!(time, 10000);
        }
        other => panic!("unexpected {:?}", other),
    }
    assert!(matches!(
        next_command(&mut c).unwrap(),
        Some(Command::TempEntity { inner: TempEntity::RaceCheckpointClear })
    ));
    assert!(matches!(
        next_command(&mut c).unwrap(),
        Some(Command::TempEntity { inner: TempEntity::ServerRecord { time: 5 } })
    ));
    match next_command(&mut c).unwrap().unwrap() {
        Command::TempEntity { inner: TempEntity::BestSpeedAward { speed, holder } } => {
            assert_eq!(speed, 257);
            assert_eq!(holder, b"x".to_vec());
        }
        other => panic!("unexpected {:?}", other),
    }
    assert!(matches!(
        next_command(&mut c).unwrap(),
        Some(Command::TempEntity { inner: TempEntity::UnknownNinetyNine })
    ));
    match next_command(&mut c).unwrap().unwrap() {
        Command::TempEntity { inner: TempEntity::SpeedAward { speed, holder } } => {
            assert_eq!(speed, 2);
            assert!(holder.is_empty());
        }
        other => panic!("unexpected {:?}", other),
    }
    assert!(next_command(&mut c).unwrap().is_none());
}

#[test]
fn unknown_temp_entity_tags() {
    let mut c = ByteCursor::new(vec![23, 86, 99, 1]);
    let e = next_command(&mut c).err().unwrap();
    assert_eq!(e.kind, ErrorKind::UnknownSubOpcode { tag: 99 });
    assert_eq!(e.offset, 3);

    let mut c = ByteCursor::new(vec![23, 5]);
    let e = next_command(&mut c).err().unwrap();
    assert_eq!(e.kind, ErrorKind::UnknownTempEntityType { tag: 5 });
    assert_eq!(e.offset, 2);
}

#[test]
fn small_commands() {
    let mut body = vec![1u8, 5, 0x02, 0x01, 9];
    body.extend_from_slice(b"cmd\n\0");
    body.extend_from_slice(&[8, b'h', b'i', 0, 59, 0, 0, 0x80, 0x3f, 0, 0, 0, 0, 0, 0, 0, 0, 3, 0, 255, 64]);
    let mut c = ByteCursor::new(body);
    assert!(matches!(next_command(&mut c).unwrap(), Some(Command::Nop)));
    assert!(matches!(next_command(&mut c).unwrap(), Some(Command::SetView { entity: 0x0102 })));
    match next_command(&mut c).unwrap().unwrap() {
        Command::StuffText { text } => assert_eq!(text, b"cmd\n".to_vec()),
        other => panic!("unexpected {:?}", other),
    }
    match next_command(&mut c).unwrap().unwrap() {
        Command::Print { text } => assert_eq!(text, b"hi".to_vec()),
        other => panic!("unexpected {:?}", other),
    }
    match next_command(&mut c).unwrap().unwrap() {
        Command::SpawnStaticSound2 { org, sound, vol, atten } => {
            assert_eq!(org.x, 0x3f80_0000);
            assert_eq!((org.y, org.z), (0, 0));
            assert_eq!((sound, vol, atten), (3, 255, 64));
        }
        other => panic!("unexpected {:?}", other),
    }
    assert!(next_command(&mut c).unwrap().is_none());
}
