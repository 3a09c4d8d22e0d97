//! Block identifiers and integer block positions shared by the entity rules.
use vstd::prelude::*;

verus! {

/// The blocks the entity rules refer to. A block's raw id is its position in
/// this list, starting at 0 for `Air`.
#[derive(Debug, Clone, Copy, PartialEq, Eq, Hash, Structural)]
pub enum BlockId {
    Air,
    Stone,
    GrassBlock,
    Dirt,
    Bedrock,
    Water,
    Sand,
    Gravel,
    OakLog,
    OakLeaves,
    OakPlanks,
    Cobblestone,
    CoalOre,
    IronOre,
    GoldOre,
    DiamondOre,
    Glass,
    LapisOre,
    RedstoneOre,
    EmeraldOre,
}

/// Number of known blocks; raw ids run from 0 to this value minus one.
pub const BLOCK_COUNT: u16 = 20;

/// The raw id of a block.
pub open spec fn block_raw(b: BlockId) -> u16 {
    match b {
        BlockId::Air => 0,
        BlockId::Stone => 1,
        BlockId::GrassBlock => 2,
        BlockId::Dirt => 3,
        BlockId::Bedrock => 4,
        BlockId::Water => 5,
        BlockId::Sand => 6,
        BlockId::Gravel => 7,
        BlockId::OakLog => 8,
        BlockId::OakLeaves => 9,
        BlockId::OakPlanks => 10,
        BlockId::Cobblestone => 11,
        BlockId::CoalOre => 12,
        BlockId::IronOre => 13,
        BlockId::GoldOre => 14,
        BlockId::DiamondOre => 15,
        BlockId::Glass => 16,
        BlockId::LapisOre => 17,
        BlockId::RedstoneOre => 18,
        BlockId::EmeraldOre => 19,
    }
}

impl BlockId {
    /// The raw id of this block.
    pub fn to_raw(self) -> (r: u16)
        ensures
            r == block_raw(self),
    {
        match self {
        BlockId::Air => 0,
        BlockId::Stone => 1,
        BlockId::GrassBlock => 2,
        BlockId::Dirt => 3,
        BlockId::Bedrock => 4,
        BlockId::Water => 5,
        BlockId::Sand => 6,
        BlockId::Gravel => 7,
        BlockId::OakLog => 8,
        BlockId::OakLeaves => 9,
        BlockId::OakPlanks => 10,
        BlockId::Cobblestone => 11,
        BlockId::CoalOre => 12,
        BlockId::IronOre => 13,
        BlockId::GoldOre => 14,
        BlockId::DiamondOre => 15,
        BlockId::Glass => 16,
        BlockId::LapisOre => 17,
        BlockId::RedstoneOre => 18,
        BlockId::EmeraldOre => 19,
        }
    }

    /// The block with the given raw id, if there is one.
    pub fn from_raw(raw: u16) -> (b: Option<BlockId>)
        ensures
            b matches Some(x) ==> block_raw(x) == raw,
            b is None <==> raw >= BLOCK_COUNT,
    {
        match raw {
        0 => Some(BlockId::Air),
        1 => Some(BlockId::Stone),
        2 => Some(BlockId::GrassBlock),
        3 => Some(BlockId::Dirt),
        4 => Some(BlockId::Bedrock),
        5 => Some(BlockId::Water),
        6 => Some(BlockId::Sand),
        7 => Some(BlockId::Gravel),
        8 => Some(BlockId::OakLog),
        9 => Some(BlockId::OakLeaves),
        10 => Some(BlockId::OakPlanks),
        11 => Some(BlockId::Cobblestone),
        12 => Some(BlockId::CoalOre),
        13 => Some(BlockId::IronOre),
        14 => Some(BlockId::GoldOre),
        15 => Some(BlockId::DiamondOre),
        16 => Some(BlockId::Glass),
        17 => Some(BlockId::LapisOre),
        18 => Some(BlockId::RedstoneOre),
        19 => Some(BlockId::EmeraldOre),
            _ => None,
        }
    }
}

/// Integer position of a block in the world.
#[derive(Debug, Clone, Copy, PartialEq, Eq, Hash, Structural)]
pub struct BlockPos {
    pub x: i32,
    pub y: i32,
    pub z: i32,
}

impl BlockPos {
    pub fn new(x: i32, y: i32, z: i32) -> (p: Self)
        ensures
            p.x == x && p.y == y && p.z == z,
    {
        BlockPos { x, y, z }
    }
}

/// The material tier of a held tool; `NoTier` is an empty hand or an item
/// that is not a tool.
#[derive(Debug, Clone, Copy, PartialEq, Eq, Hash, Structural)]
pub enum ToolTier {
    NoTier,
    Wood,
    Stone,
    Iron,
    Gold,
    Diamond,
}

} // verus!
