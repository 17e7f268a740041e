use vstd::prelude::*;

use crate::cursor::{
    find_byte, follows, lemma_find_byte, spec_fixed, spec_u16, spec_u32, spec_u8, spec_zstring, ByteCursor,
};
use crate::entity::{spec_entity, Entity};
use crate::error::{is_error, DecodeError, ErrorKind, Step};
use crate::temp_entity::{parse_temp_entity, spec_temp_entity, TempEntity, TempEntityModel};
use crate::vector::{read_vector, spec_vector, Vector};

verus! {

pub const SVC_NOP: u8 = 1;
pub const SVC_SETVIEW: u8 = 5;
pub const SVC_PRINT: u8 = 8;
pub const SVC_STUFFTEXT: u8 = 9;
pub const SVC_SERVERINFO: u8 = 11;
pub const SVC_TEMP_ENTITY: u8 = 23;
pub const SVC_SIGNONNUM: u8 = 25;
pub const SVC_CDTRACK: u8 = 32;
pub const SVC_DOWNLOADDATA: u8 = 50;
pub const SVC_SPAWNSTATICSOUND2: u8 = 59;
/// Ends the commands of a packet. The protocol's own sources write it as -1;
/// it is taken here as the unsigned byte 0xFF.
pub const END_OF_COMMANDS: u8 = 0xFF;
/// A tag with this bit set is an entity update; its low bits start the mask.
pub const ENTITY_TAG: u8 = 0x80;

/// One protocol command. Texts are raw bytes (one byte per character).
#[derive(Clone, Debug)]
pub enum Command {
    StuffText { text: Vec<u8> },
    DownloadData { start: u32, data: Vec<u8> },
    Print { text: Vec<u8> },
    ServerInfo {
        protocol: u32,
        maxclients: u8,
        gametype: u8,
        world_message: Vec<u8>,
        models: Vec<Vec<u8>>,
        sounds: Vec<Vec<u8>>,
    },
    CdTrack { track: u8, does_loop: u8 },
    SetView { entity: u16 },
    SignOnNum { i: u8 },
    TempEntity { inner: TempEntity },
    Nop,
    Entity { entity: Entity },
    SpawnStaticSound2 { org: Vector, sound: u16, vol: u8, atten: u8 },
}

/// A command with its texts as byte sequences.
pub enum CommandModel {
    StuffText { text: Seq<u8> },
    DownloadData { start: u32, data: Seq<u8> },
    Print { text: Seq<u8> },
    ServerInfo {
        protocol: u32,
        maxclients: u8,
        gametype: u8,
        world_message: Seq<u8>,
        models: Seq<Seq<u8>>,
        sounds: Seq<Seq<u8>>,
    },
    CdTrack { track: u8, does_loop: u8 },
    SetView { entity: u16 },
    SignOnNum { i: u8 },
    TempEntity { inner: TempEntityModel },
    Nop,
    Entity { entity: Entity },
    SpawnStaticSound2 { org: Vector, sound: u16, vol: u8, atten: u8 },
}

/// The byte sequences held by a list of strings.
pub open spec fn strings_view(v: Seq<Vec<u8>>) -> Seq<Seq<u8>> {
    v.map(|_i, x: Vec<u8>| x@)
}

impl View for Command {
    type V = CommandModel;

    open spec fn view(&self) -> CommandModel {
        match self {
            Command::StuffText { text } => CommandModel::StuffText { text: text@ },
            Command::DownloadData { start, data } => CommandModel::DownloadData { start: *start, data: data@ },
            Command::Print { text } => CommandModel::Print { text: text@ },
            Command::ServerInfo { protocol, maxclients, gametype, world_message, models, sounds } =>
                CommandModel::ServerInfo {
                protocol: *protocol,
                maxclients: *maxclients,
                gametype: *gametype,
                world_message: world_message@,
                models: strings_view(models@),
                sounds: strings_view(sounds@),
            },
            Command::CdTrack { track, does_loop } => CommandModel::CdTrack { track: *track, does_loop: *does_loop },
            Command::SetView { entity } => CommandModel::SetView { entity: *entity },
            Command::SignOnNum { i } => CommandModel::SignOnNum { i: *i },
            Command::TempEntity { inner } => CommandModel::TempEntity { inner: inner@ },
            Command::Nop => CommandModel::Nop,
            Command::Entity { entity } => CommandModel::Entity { entity: *entity },
            Command::SpawnStaticSound2 { org, sound, vol, atten } => CommandModel::SpawnStaticSound2 {
                org: *org,
                sound: *sound,
                vol: *vol,
                atten: *atten,
            },
        }
    }
}

/// Zero-terminated strings read from `p` and appended to `acc`, up to and
/// including the first empty one, which ends the list and is not kept.
pub open spec fn spec_string_list(s: Seq<u8>, p: int, acc: Seq<Seq<u8>>) -> Step<Seq<Seq<u8>>>
    decreases s.len() - p,
{
    match spec_zstring(s, p) {
        Err(f) => Err(f),
        Ok((x, q)) => if x.len() == 0 {
            Ok((acc, q))
        } else if q <= p || q > s.len() {
            Err((ErrorKind::MalformedString, p))
        } else {
            spec_string_list(s, q, acc.push(x))
        },
    }
}

/// The payload of a server-info command.
pub open spec fn spec_server_info(s: Seq<u8>, p: int) -> Step<CommandModel> {
    match spec_u32(s, p) {
        Err(f) => Err(f),
        Ok((protocol, p1)) => match spec_u8(s, p1) {
            Err(f) => Err(f),
            Ok((maxclients, p2)) => match spec_u8(s, p2) {
                Err(f) => Err(f),
                Ok((gametype, p3)) => match spec_zstring(s, p3) {
                    Err(f) => Err(f),
                    Ok((world_message, p4)) => match spec_string_list(s, p4, seq![]) {
                        Err(f) => Err(f),
                        Ok((models, p5)) => match spec_string_list(s, p5, seq![]) {
                            Err(f) => Err(f),
                            Ok((sounds, p6)) => Ok(
                                (
                                    CommandModel::ServerInfo {
                                        protocol,
                                        maxclients,
                                        gametype,
                                        world_message,
                                        models,
                                        sounds,
                                    },
                                    p6,
                                ),
                            ),
                        },
                    },
                },
            },
        },
    }
}

/// The payload of a download chunk: start offset, size, then that many bytes.
pub open spec fn spec_download(s: Seq<u8>, p: int) -> Step<CommandModel> {
    match spec_u32(s, p) {
        Err(f) => Err(f),
        Ok((start, p1)) => match spec_u16(s, p1) {
            Err(f) => Err(f),
            Ok((size, p2)) => match spec_fixed(s, p2, size as int) {
                Err(f) => Err(f),
                Ok((data, p3)) => Ok((CommandModel::DownloadData { start, data }, p3)),
            },
        },
    }
}

/// The payload of a static sound.
pub open spec fn spec_static_sound(s: Seq<u8>, p: int) -> Step<CommandModel> {
    match spec_vector(s, p) {
        Err(f) => Err(f),
        Ok((org, p1)) => match spec_u16(s, p1) {
            Err(f) => Err(f),
            Ok((sound, p2)) => match spec_u8(s, p2) {
                Err(f) => Err(f),
                Ok((vol, p3)) => match spec_u8(s, p3) {
                    Err(f) => Err(f),
                    Ok((atten, p4)) => Ok((CommandModel::SpawnStaticSound2 { org, sound, vol, atten }, p4)),
                },
            },
        },
    }
}

/// The payload of the opcode `tag`, read from `p` (just past the tag).
pub open spec fn spec_payload(s: Seq<u8>, p: int, tag: u8) -> Step<CommandModel> {
    if tag == SVC_STUFFTEXT {
        match spec_zstring(s, p) {
            Err(f) => Err(f),
            Ok((text, q)) => Ok((CommandModel::StuffText { text }, q)),
        }
    } else if tag == SVC_DOWNLOADDATA {
        spec_download(s, p)
    } else if tag == SVC_PRINT {
        match spec_zstring(s, p) {
            Err(f) => Err(f),
            Ok((text, q)) => Ok((CommandModel::Print { text }, q)),
        }
    } else if tag == SVC_SERVERINFO {
        spec_server_info(s, p)
    } else if tag == SVC_CDTRACK {
        match spec_u8(s, p) {
            Err(f) => Err(f),
            Ok((track, q)) => match spec_u8(s, q) {
                Err(f) => Err(f),
                Ok((does_loop, r)) => Ok((CommandModel::CdTrack { track, does_loop }, r)),
            },
        }
    } else if tag == SVC_SETVIEW {
        match spec_u16(s, p) {
            Err(f) => Err(f),
            Ok((entity, q)) => Ok((CommandModel::SetView { entity }, q)),
        }
    } else if tag == SVC_SIGNONNUM {
        match spec_u8(s, p) {
            Err(f) => Err(f),
            Ok((i, q)) => Ok((CommandModel::SignOnNum { i }, q)),
        }
    } else if tag == SVC_NOP {
        Ok((CommandModel::Nop, p))
    } else if tag == SVC_TEMP_ENTITY {
        match spec_temp_entity(s, p) {
            Err(f) => Err(f),
            Ok((inner, q)) => Ok((CommandModel::TempEntity { inner }, q)),
        }
    } else if tag == SVC_SPAWNSTATICSOUND2 {
        spec_static_sound(s, p)
    } else {
        Err((ErrorKind::UnknownOpcode { tag }, p))
    }
}

/// The next command of a packet body read from `p`. `None` when nothing remains,
/// or when the tag is the end marker, which also ends the body: the position then
/// moves to its end.
pub open spec fn spec_command(s: Seq<u8>, p: int) -> Step<Option<CommandModel>> {
    if p >= s.len() {
        Ok((None, p))
    } else if s[p] == END_OF_COMMANDS {
        Ok((None, s.len() as int))
    } else if s[p] >= ENTITY_TAG {
        match spec_entity(s, p + 1, (s[p] & 0x7f) as u32) {
            Err(f) => Err(f),
            Ok((entity, q)) => Ok((Some(CommandModel::Entity { entity }), q)),
        }
    } else {
        match spec_payload(s, p + 1, s[p]) {
            Err(f) => Err(f),
            Ok((c, q)) => Ok((Some(c), q)),
        }
    }
}

/// The step of an optional command: `None` maps to `None`.
pub open spec fn follows_command(
    r: Result<Option<Command>, DecodeError>,
    s: Seq<u8>,
    st: Step<Option<CommandModel>>,
    after: int,
) -> bool {
    match st {
        Ok((v, e)) => r is Ok && after == e && match (r->Ok_0, v) {
            (None, None) => true,
            (Some(c), Some(m)) => c@ == m,
            _ => false,
        },
        Err(f) => r is Err && is_error(r->Err_0, s, f),
    }
}

/// Reads zero-terminated strings into `out` up to the first empty one.
fn read_strings_into(buf: &mut ByteCursor, out: Vec<Vec<u8>>) -> (r: Result<Vec<Vec<u8>>, DecodeError>)
    ensures
        final(buf).bytes() == old(buf).bytes(),
        match spec_string_list(old(buf).bytes(), old(buf).pos(), strings_view(out@)) {
            Ok((v, e)) => r is Ok && strings_view(r->Ok_0@) == v && final(buf).pos() == e,
            Err(f) => r is Err && is_error(r->Err_0, old(buf).bytes(), f),
        },
    decreases old(buf).bytes().len() - old(buf).pos(),
{
    let ghost s = buf.bytes();
    let ghost p = buf.pos();
    // the position is within the buffer
    let _remaining = buf.remaining();
    proof {
        lemma_find_byte(s, p, 0);
    }
    let x = buf.read_zstring()?;
    if x.len() == 0 {
        return Ok(out);
    }
    let mut out = out;
    proof {
        assert(strings_view(out@.push(x)) =~= strings_view(out@).push(x@));
    }
    out.push(x);
    read_strings_into(buf, out)
}

/// Reads a list of zero-terminated strings that ends at the first empty one.
pub fn read_string_list(buf: &mut ByteCursor) -> (r: Result<Vec<Vec<u8>>, DecodeError>)
    ensures
        final(buf).bytes() == old(buf).bytes(),
        match spec_string_list(old(buf).bytes(), old(buf).pos(), seq![]) {
            Ok((v, e)) => r is Ok && strings_view(r->Ok_0@) == v && final(buf).pos() == e,
            Err(f) => r is Err && is_error(r->Err_0, old(buf).bytes(), f),
        },
{
    let out: Vec<Vec<u8>> = Vec::new();
    proof {
        assert(strings_view(out@) =~= seq![]);
    }
    read_strings_into(buf, out)
}

fn read_server_info(buf: &mut ByteCursor) -> (r: Result<Command, DecodeError>)
    ensures
        final(buf).bytes() == old(buf).bytes(),
        follows(r, old(buf).bytes(), spec_server_info(old(buf).bytes(), old(buf).pos()), final(buf).pos()),
{
    let protocol = buf.read_u32_le()?;
    let maxclients = buf.read_u8()?;
    let gametype = buf.read_u8()?;
    let world_message = buf.read_zstring()?;
    let models = read_string_list(buf)?;
    let sounds = read_string_list(buf)?;
    Ok(Command::ServerInfo { protocol, maxclients, gametype, world_message, models, sounds })
}

/// Reads a download chunk's payload.
pub fn read_download(buf: &mut ByteCursor) -> (r: Result<Command, DecodeError>)
    ensures
        final(buf).bytes() == old(buf).bytes(),
        follows(r, old(buf).bytes(), spec_download(old(buf).bytes(), old(buf).pos()), final(buf).pos()),
{
    let start = buf.read_u32_le()?;
    let size = buf.read_u16_le()?;
    let data = buf.read_fixed(size as usize)?;
    Ok(Command::DownloadData { start, data })
}

fn read_static_sound(buf: &mut ByteCursor) -> (r: Result<Command, DecodeError>)
    ensures
        final(buf).bytes() == old(buf).bytes(),
        follows(r, old(buf).bytes(), spec_static_sound(old(buf).bytes(), old(buf).pos()), final(buf).pos()),
{
    let org = read_vector(buf)?;
    let sound = buf.read_u16_le()?;
    let vol = buf.read_u8()?;
    let atten = buf.read_u8()?;
    Ok(Command::SpawnStaticSound2 { org, sound, vol, atten })
}

/// Reads the payload of the opcode `tag`; `buf` stands just past the tag.
fn read_payload(buf: &mut ByteCursor, tag: u8) -> (r: Result<Command, DecodeError>)
    ensures
        final(buf).bytes() == old(buf).bytes(),
        follows(r, old(buf).bytes(), spec_payload(old(buf).bytes(), old(buf).pos(), tag), final(buf).pos()),
{
    if tag == SVC_STUFFTEXT {
        let text = buf.read_zstring()?;
        Ok(Command::StuffText { text })
    } else if tag == SVC_DOWNLOADDATA {
        read_download(buf)
    } else if tag == SVC_PRINT {
        let text = buf.read_zstring()?;
        Ok(Command::Print { text })
    } else if tag == SVC_SERVERINFO {
        read_server_info(buf)
    } else if tag == SVC_CDTRACK {
        let track = buf.read_u8()?;
        let does_loop = buf.read_u8()?;
        Ok(Command::CdTrack { track, does_loop })
    } else if tag == SVC_SETVIEW {
        let entity = buf.read_u16_le()?;
        Ok(Command::SetView { entity })
    } else if tag == SVC_SIGNONNUM {
        let i = buf.read_u8()?;
        Ok(Command::SignOnNum { i })
    } else if tag == SVC_NOP {
        Ok(Command::Nop)
    } else if tag == SVC_TEMP_ENTITY {
        let inner = parse_temp_entity(buf)?;
        Ok(Command::TempEntity { inner })
    } else if tag == SVC_SPAWNSTATICSOUND2 {
        read_static_sound(buf)
    } else {
        Err(buf.fail(ErrorKind::UnknownOpcode { tag }))
    }
}

/// Reads the next command of a packet body. `Ok(None)` when the body is exhausted
/// or at the end marker, after which the body counts as exhausted.
pub fn next_command(buf: &mut ByteCursor) -> (r: Result<Option<Command>, DecodeError>)
    ensures
        final(buf).bytes() == old(buf).bytes(),
        follows_command(r, old(buf).bytes(), spec_command(old(buf).bytes(), old(buf).pos()), final(buf).pos()),
{
    if buf.remaining() == 0 {
        return Ok(None);
    }
    let tag = buf.take_u8();
    if tag == END_OF_COMMANDS {
        buf.skip_to_end();
        return Ok(None);
    }
    if tag >= ENTITY_TAG {
        let entity = Entity::parse((tag & 0x7f) as u32, buf)?;
        return Ok(Some(Command::Entity { entity }));
    }
    let c = read_payload(buf, tag)?;
    Ok(Some(c))
}

/// A download chunk of size zero has an empty payload and takes exactly its six
/// header bytes.
pub proof fn lemma_empty_download(s: Seq<u8>, p: int)
    requires
        0 <= p,
        crate::cursor::fits(s, p, 6),
        crate::cursor::le16(s, p + 4) == 0,
    ensures
        spec_download(s, p) == Ok::<(CommandModel, int), (ErrorKind, int)>(
            (CommandModel::DownloadData { start: crate::cursor::le32(s, p), data: seq![] }, p + 6),
        ),
{
    assert(s.subrange(p + 6, p + 6) =~= Seq::<u8>::empty());
}

} // verus!
