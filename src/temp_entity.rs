use vstd::prelude::*;

use crate::cursor::{follows, spec_fixed, spec_u16, spec_u24, spec_u8, spec_zstring, ByteCursor};
use crate::error::{DecodeError, ErrorKind, Step};

verus! {

/// The type byte of the game-extension temp entity, which carries a second tag.
pub const TE_CSQC_EXTENSION: u8 = 86;
/// A temp-entity type whose payload is five bytes that are skipped.
pub const TE_SKIPPED: u8 = 0x63;

/// Second-level tags of the extension temp entity, after the race scripts of the game.
pub const RACE_NET_CHECKPOINT_CLEAR: u8 = 1;
pub const RACE_NET_SERVER_RECORD: u8 = 8;
pub const RACE_NET_SPEED_AWARD: u8 = 9;
pub const RACE_NET_SPEED_AWARD_BEST: u8 = 10;
pub const RACE_NET_SERVER_RANKINGS: u8 = 11;
pub const RACE_NET_RANKINGS_CNT: u8 = 15;

/// The length of the skipped payload.
pub const SKIPPED_LEN: usize = 5;

/// A temp entity. Names are raw bytes (one byte per character).
#[derive(Clone, Debug)]
pub enum TempEntity {
    RaceRanking { pos: u16, prev_pos: u16, del: u16, name: Vec<u8>, time: u32 },
    RaceCheckpointClear,
    ServerRecord { time: u32 },
    SpeedAward { speed: u32, holder: Vec<u8> },
    BestSpeedAward { speed: u32, holder: Vec<u8> },
    RankingsCount { count: u8 },
    /// The type whose payload is skipped: structurally known, not interpreted.
    UnknownNinetyNine,
}

/// A temp entity with its names as byte sequences.
pub enum TempEntityModel {
    RaceRanking { pos: u16, prev_pos: u16, del: u16, name: Seq<u8>, time: u32 },
    RaceCheckpointClear,
    ServerRecord { time: u32 },
    SpeedAward { speed: u32, holder: Seq<u8> },
    BestSpeedAward { speed: u32, holder: Seq<u8> },
    RankingsCount { count: u8 },
    UnknownNinetyNine,
}

impl View for TempEntity {
    type V = TempEntityModel;

    open spec fn view(&self) -> TempEntityModel {
        match self {
            TempEntity::RaceRanking { pos, prev_pos, del, name, time } => TempEntityModel::RaceRanking {
                pos: *pos,
                prev_pos: *prev_pos,
                del: *del,
                name: name@,
                time: *time,
            },
            TempEntity::RaceCheckpointClear => TempEntityModel::RaceCheckpointClear,
            TempEntity::ServerRecord { time } => TempEntityModel::ServerRecord { time: *time },
            TempEntity::SpeedAward { speed, holder } => TempEntityModel::SpeedAward { speed: *speed, holder: holder@ },
            TempEntity::BestSpeedAward { speed, holder } => TempEntityModel::BestSpeedAward {
                speed: *speed,
                holder: holder@,
            },
            TempEntity::RankingsCount { count } => TempEntityModel::RankingsCount { count: *count },
            TempEntity::UnknownNinetyNine => TempEntityModel::UnknownNinetyNine,
        }
    }
}

/// A 24-bit speed followed by the holder's name.
pub open spec fn spec_award(s: Seq<u8>, p: int) -> Step<(u32, Seq<u8>)> {
    match spec_u24(s, p) {
        Err(f) => Err(f),
        Ok((speed, q)) => match spec_zstring(s, q) {
            Err(f) => Err(f),
            Ok((holder, r)) => Ok(((speed, holder), r)),
        },
    }
}

pub open spec fn spec_ranking(s: Seq<u8>, p: int) -> Step<TempEntityModel> {
    match spec_u16(s, p) {
        Err(f) => Err(f),
        Ok((pos, p1)) => match spec_u16(s, p1) {
            Err(f) => Err(f),
            Ok((prev_pos, p2)) => match spec_u16(s, p2) {
                Err(f) => Err(f),
                Ok((del, p3)) => match spec_zstring(s, p3) {
                    Err(f) => Err(f),
                    Ok((name, p4)) => match spec_u24(s, p4) {
                        Err(f) => Err(f),
                        Ok((time, p5)) => Ok((TempEntityModel::RaceRanking { pos, prev_pos, del, name, time }, p5)),
                    },
                },
            },
        },
    }
}

/// The payload of the extension temp entity whose second tag is `sub`, read from `p`.
pub open spec fn spec_extension(s: Seq<u8>, p: int, sub: u8) -> Step<TempEntityModel> {
    if sub == RACE_NET_SERVER_RANKINGS {
        spec_ranking(s, p)
    } else if sub == RACE_NET_SERVER_RECORD {
        match spec_u24(s, p) {
            Err(f) => Err(f),
            Ok((time, q)) => Ok((TempEntityModel::ServerRecord { time }, q)),
        }
    } else if sub == RACE_NET_SPEED_AWARD {
        match spec_award(s, p) {
            Err(f) => Err(f),
            Ok(((speed, holder), q)) => Ok((TempEntityModel::SpeedAward { speed, holder }, q)),
        }
    } else if sub == RACE_NET_CHECKPOINT_CLEAR {
        Ok((TempEntityModel::RaceCheckpointClear, p))
    } else if sub == RACE_NET_SPEED_AWARD_BEST {
        match spec_award(s, p) {
            Err(f) => Err(f),
            Ok(((speed, holder), q)) => Ok((TempEntityModel::BestSpeedAward { speed, holder }, q)),
        }
    } else if sub == RACE_NET_RANKINGS_CNT {
        match spec_u8(s, p) {
            Err(f) => Err(f),
            Ok((count, q)) => Ok((TempEntityModel::RankingsCount { count }, q)),
        }
    } else {
        Err((ErrorKind::UnknownSubOpcode { tag: sub }, p))
    }
}

/// A temp entity read from `p`: its type byte, then what that type calls for.
pub open spec fn spec_temp_entity(s: Seq<u8>, p: int) -> Step<TempEntityModel> {
    match spec_u8(s, p) {
        Err(f) => Err(f),
        Ok((ty, q)) => if ty == TE_CSQC_EXTENSION {
            match spec_u8(s, q) {
                Err(f) => Err(f),
                Ok((sub, r)) => spec_extension(s, r, sub),
            }
        } else if ty == TE_SKIPPED {
            match spec_fixed(s, q, SKIPPED_LEN as int) {
                Err(f) => Err(f),
                Ok((_, r)) => Ok((TempEntityModel::UnknownNinetyNine, r)),
            }
        } else {
            Err((ErrorKind::UnknownTempEntityType { tag: ty }, q))
        },
    }
}

fn read_award(buf: &mut ByteCursor) -> (r: Result<(u32, Vec<u8>), DecodeError>)
    ensures
        final(buf).bytes() == old(buf).bytes(),
        match spec_award(old(buf).bytes(), old(buf).pos()) {
            Ok(((speed, holder), e)) => r is Ok && r->Ok_0.0 == speed && r->Ok_0.1@ == holder
                && final(buf).pos() == e,
            Err(f) => r is Err && crate::error::is_error(r->Err_0, old(buf).bytes(), f),
        },
{
    let speed = buf.read_u24_le()?;
    let holder = buf.read_zstring()?;
    Ok((speed, holder))
}

fn read_extension(buf: &mut ByteCursor, sub: u8) -> (r: Result<TempEntity, DecodeError>)
    ensures
        final(buf).bytes() == old(buf).bytes(),
        follows(r, old(buf).bytes(), spec_extension(old(buf).bytes(), old(buf).pos(), sub), final(buf).pos()),
{
    if sub == RACE_NET_SERVER_RANKINGS {
        let pos = buf.read_u16_le()?;
        let prev_pos = buf.read_u16_le()?;
        let del = buf.read_u16_le()?;
        let name = buf.read_zstring()?;
        let time = buf.read_u24_le()?;
        Ok(TempEntity::RaceRanking { pos, prev_pos, del, name, time })
    } else if sub == RACE_NET_SERVER_RECORD {
        let time = buf.read_u24_le()?;
        Ok(TempEntity::ServerRecord { time })
    } else if sub == RACE_NET_SPEED_AWARD {
        let (speed, holder) = read_award(buf)?;
        Ok(TempEntity::SpeedAward { speed, holder })
    } else if sub == RACE_NET_CHECKPOINT_CLEAR {
        Ok(TempEntity::RaceCheckpointClear)
    } else if sub == RACE_NET_SPEED_AWARD_BEST {
        let (speed, holder) = read_award(buf)?;
        Ok(TempEntity::BestSpeedAward { speed, holder })
    } else if sub == RACE_NET_RANKINGS_CNT {
        let count = buf.read_u8()?;
        Ok(TempEntity::RankingsCount { count })
    } else {
        Err(buf.fail(ErrorKind::UnknownSubOpcode { tag: sub }))
    }
}

/// Decodes one temp entity; `buf` stands on its type byte.
pub fn parse_temp_entity(buf: &mut ByteCursor) -> (r: Result<TempEntity, DecodeError>)
    ensures
        final(buf).bytes() == old(buf).bytes(),
        follows(r, old(buf).bytes(), spec_temp_entity(old(buf).bytes(), old(buf).pos()), final(buf).pos()),
{
    let ty = buf.read_u8()?;
    if ty == TE_CSQC_EXTENSION {
        let sub = buf.read_u8()?;
        read_extension(buf, sub)
    } else if ty == TE_SKIPPED {
        let _skipped = buf.read_fixed(SKIPPED_LEN)?;
        Ok(TempEntity::UnknownNinetyNine)
    } else {
        Err(buf.fail(ErrorKind::UnknownTempEntityType { tag: ty }))
    }
}

} // verus!
