use vstd::prelude::*;

use crate::codec::buffer::Buffer;
use crate::codec::cursor::{holds_at, lemma_holds_at_index, parse_byte, read_byte, Cursor};
use crate::codec::varint::{lemma_varint_i32_roundtrip, parse_varint, spec_varint, VarInt, varint_end};
use crate::protocol::packets::configuration::ServersideClientInformation;
use vstd::string::StringExecFns;

verus! {

/// Who may write in the chat, as the client asks for it.
#[derive(Debug, Clone, Copy, PartialEq, Eq, Structural, PartialOrd)]
pub enum ChatMode {
    Enabled,
    CommandsOnly,
    Hidden,
}

impl ChatMode {
    pub open spec fn spec_id(self) -> i32 {
        match self {
            ChatMode::Enabled => 0,
            ChatMode::CommandsOnly => 1,
            ChatMode::Hidden => 2,
        }
    }

    /// The protocol identifier of the chat mode.
    pub fn id(&self) -> (res: i32)
        ensures
            res == self.spec_id(),
    {
        match self {
            ChatMode::Enabled => 0,
            ChatMode::CommandsOnly => 1,
            ChatMode::Hidden => 2,
        }
    }
}

/// The parts of the skin that are shown.
#[derive(Debug, Clone, Copy, PartialEq, Eq, Structural, PartialOrd)]
pub struct DisplayedSkinParts {
    pub cape: bool,
    pub jacket: bool,
    pub left_sleeve: bool,
    pub right_sleeve: bool,
    pub left_pants_leg: bool,
    pub right_pants_leg: bool,
    pub hat: bool,
}

/// The bit mask of the shown parts: cape 0x01, jacket 0x02, left sleeve 0x04, right sleeve
/// 0x08, left pants leg 0x10, right pants leg 0x20, hat 0x40.
pub open spec fn skin_mask(p: DisplayedSkinParts) -> u8 {
    (if p.cape { 0x01u8 } else { 0u8 }) | (if p.jacket { 0x02u8 } else { 0u8 }) | (if p.left_sleeve {
        0x04u8
    } else {
        0u8
    }) | (if p.right_sleeve { 0x08u8 } else { 0u8 }) | (if p.left_pants_leg {
        0x10u8
    } else {
        0u8
    }) | (if p.right_pants_leg { 0x20u8 } else { 0u8 }) | (if p.hat { 0x40u8 } else { 0u8 })
}

/// The parts that a bit mask shows; the high bit is ignored.
pub open spec fn skin_parts(mask: u8) -> DisplayedSkinParts {
    DisplayedSkinParts {
        cape: (mask & 0x01) != 0,
        jacket: (mask & 0x02) != 0,
        left_sleeve: (mask & 0x04) != 0,
        right_sleeve: (mask & 0x08) != 0,
        left_pants_leg: (mask & 0x10) != 0,
        right_pants_leg: (mask & 0x20) != 0,
        hat: (mask & 0x40) != 0,
    }
}

/// Turning shown parts into a mask and back gives the same parts.
pub proof fn lemma_skin_parts_mask(p: DisplayedSkinParts)
    ensures
        skin_parts(skin_mask(p)) == p,
{
    let (a, b, c, d, e, f, g) = (
        p.cape,
        p.jacket,
        p.left_sleeve,
        p.right_sleeve,
        p.left_pants_leg,
        p.right_pants_leg,
        p.hat,
    );
    let m = skin_mask(p);
    assert(m == (if a { 0x01u8 } else { 0u8 }) | (if b { 0x02u8 } else { 0u8 }) | (if c {
        0x04u8
    } else {
        0u8
    }) | (if d { 0x08u8 } else { 0u8 }) | (if e { 0x10u8 } else { 0u8 }) | (if f {
        0x20u8
    } else {
        0u8
    }) | (if g { 0x40u8 } else { 0u8 }));
    assert(m == (if a { 0x01u8 } else { 0u8 }) | (if b { 0x02u8 } else { 0u8 }) | (if c {
        0x04u8
    } else {
        0u8
    }) | (if d { 0x08u8 } else { 0u8 }) | (if e { 0x10u8 } else { 0u8 }) | (if f {
        0x20u8
    } else {
        0u8
    }) | (if g { 0x40u8 } else { 0u8 }) ==> {
        &&& ((m & 0x01) != 0) == a
        &&& ((m & 0x02) != 0) == b
        &&& ((m & 0x04) != 0) == c
        &&& ((m & 0x08) != 0) == d
        &&& ((m & 0x10) != 0) == e
        &&& ((m & 0x20) != 0) == f
        &&& ((m & 0x40) != 0) == g
    }) by (bit_vector);
}

/// Each shown part sets its own bit of the mask, as the protocol numbers them: cape 0x01,
/// jacket 0x02, left sleeve 0x04, right sleeve 0x08, left pants leg 0x10, right pants leg
/// 0x20, hat 0x40; the high bit stays clear.
pub proof fn lemma_skin_mask_bits(p: DisplayedSkinParts)
    ensures
        ((skin_mask(p) & 0x01) != 0) == p.cape,
        ((skin_mask(p) & 0x02) != 0) == p.jacket,
        ((skin_mask(p) & 0x04) != 0) == p.left_sleeve,
        ((skin_mask(p) & 0x08) != 0) == p.right_sleeve,
        ((skin_mask(p) & 0x10) != 0) == p.left_pants_leg,
        ((skin_mask(p) & 0x20) != 0) == p.right_pants_leg,
        ((skin_mask(p) & 0x40) != 0) == p.hat,
        skin_mask(p) < 0x80,
{
    lemma_skin_parts_mask(p);
    lemma_skin_mask_parts(skin_mask(p));
    let m = skin_mask(p);
    assert(m & 0x7f < 0x80) by (bit_vector);
}

/// Turning a mask into shown parts and back keeps its low seven bits.
pub proof fn lemma_skin_mask_parts(mask: u8)
    ensures
        skin_mask(skin_parts(mask)) == mask & 0x7f,
{
    assert((if (mask & 0x01) != 0 { 0x01u8 } else { 0u8 }) | (if (mask & 0x02) != 0 {
        0x02u8
    } else {
        0u8
    }) | (if (mask & 0x04) != 0 { 0x04u8 } else { 0u8 }) | (if (mask & 0x08) != 0 {
        0x08u8
    } else {
        0u8
    }) | (if (mask & 0x10) != 0 { 0x10u8 } else { 0u8 }) | (if (mask & 0x20) != 0 {
        0x20u8
    } else {
        0u8
    }) | (if (mask & 0x40) != 0 { 0x40u8 } else { 0u8 }) == mask & 0x7f) by (bit_vector);
}

impl DisplayedSkinParts {
    /// Every part shown.
    pub fn default() -> (res: DisplayedSkinParts)
        ensures
            res == skin_parts(0x7f),
    {
        assert(0x7fu8 & 0x01 != 0 && 0x7fu8 & 0x02 != 0 && 0x7fu8 & 0x04 != 0 && 0x7fu8 & 0x08 != 0
            && 0x7fu8 & 0x10 != 0 && 0x7fu8 & 0x20 != 0 && 0x7fu8 & 0x40 != 0) by (bit_vector);
        DisplayedSkinParts {
            cape: true,
            jacket: true,
            left_sleeve: true,
            right_sleeve: true,
            left_pants_leg: true,
            right_pants_leg: true,
            hat: true,
        }
    }

    /// The bit mask of the shown parts.
    pub fn to_mask(&self) -> (res: u8)
        ensures
            res == skin_mask(*self),
    {
        let mut mask: u8 = 0;
        mask = mask | if self.cape {
            0x01u8
        } else {
            0u8
        };
        mask = mask | if self.jacket {
            0x02u8
        } else {
            0u8
        };
        mask = mask | if self.left_sleeve {
            0x04u8
        } else {
            0u8
        };
        mask = mask | if self.right_sleeve {
            0x08u8
        } else {
            0u8
        };
        mask = mask | if self.left_pants_leg {
            0x10u8
        } else {
            0u8
        };
        mask = mask | if self.right_pants_leg {
            0x20u8
        } else {
            0u8
        };
        mask = mask | if self.hat {
            0x40u8
        } else {
            0u8
        };
        proof {
            let first: u8 = if self.cape {
                0x01u8
            } else {
                0u8
            };
            assert(0u8 | first == first) by (bit_vector);
        }
        mask
    }

    /// The parts that a bit mask shows.
    pub fn from_mask(mask: u8) -> (res: DisplayedSkinParts)
        ensures
            res == skin_parts(mask),
    {
        DisplayedSkinParts {
            cape: (mask & 0x01) != 0,
            jacket: (mask & 0x02) != 0,
            left_sleeve: (mask & 0x04) != 0,
            right_sleeve: (mask & 0x08) != 0,
            left_pants_leg: (mask & 0x10) != 0,
            right_pants_leg: (mask & 0x20) != 0,
            hat: (mask & 0x40) != 0,
        }
    }
}

impl DeepView for DisplayedSkinParts {
    type V = DisplayedSkinParts;

    open spec fn deep_view(&self) -> DisplayedSkinParts {
        *self
    }
}

impl Buffer for DisplayedSkinParts {
    /// One byte, the bit mask.
    open spec fn spec_parse(s: Seq<u8>, pos: int) -> Option<(DisplayedSkinParts, int)> {
        match parse_byte(s, pos) {
            Some((m, p)) => Some((skin_parts(m), p)),
            None => None,
        }
    }

    open spec fn spec_serialize(v: DisplayedSkinParts) -> Seq<u8> {
        seq![skin_mask(v)]
    }

    open spec fn spec_wf(v: DisplayedSkinParts) -> bool {
        true
    }

    open spec fn spec_stop(s: Seq<u8>, pos: int) -> int {
        pos
    }

    proof fn lemma_roundtrip(s: Seq<u8>, pos: int, v: DisplayedSkinParts) {
        lemma_holds_at_index(s, pos, seq![skin_mask(v)], 0);
        lemma_skin_parts_mask(v);
    }

    fn read_buf(buffer: &mut Cursor) -> (res: Option<DisplayedSkinParts>) {
        match read_byte(buffer) {
            Some(m) => Some(DisplayedSkinParts::from_mask(m)),
            None => None,
        }
    }

    fn write_buf(&self, buffer: &mut Vec<u8>) {
        buffer.push(self.to_mask());
    }
}

/// The main hand.
#[derive(Debug, Clone, Copy, PartialEq, Eq, Structural, PartialOrd)]
pub enum ClientHand {
    Left,
    Right,
}

impl ClientHand {
    pub open spec fn spec_id(self) -> i32 {
        match self {
            ClientHand::Left => 0,
            ClientHand::Right => 1,
        }
    }

    /// The protocol identifier of the hand.
    pub fn id(&self) -> (res: i32)
        ensures
            res == self.spec_id(),
    {
        match self {
            ClientHand::Left => 0,
            ClientHand::Right => 1,
        }
    }
}

impl DeepView for ClientHand {
    type V = ClientHand;

    open spec fn deep_view(&self) -> ClientHand {
        *self
    }
}

impl Buffer for ClientHand {
    /// A `VarInt`: 0 left, 1 right; any other value is refused.
    open spec fn spec_parse(s: Seq<u8>, pos: int) -> Option<(ClientHand, int)> {
        match parse_varint(s, pos) {
            Some((0i32, p)) => Some((ClientHand::Left, p)),
            Some((1i32, p)) => Some((ClientHand::Right, p)),
            _ => None,
        }
    }

    open spec fn spec_serialize(v: ClientHand) -> Seq<u8> {
        spec_varint(v.spec_id())
    }

    open spec fn spec_wf(v: ClientHand) -> bool {
        true
    }

    open spec fn spec_stop(s: Seq<u8>, pos: int) -> int {
        varint_end(s, pos)
    }

    proof fn lemma_roundtrip(s: Seq<u8>, pos: int, v: ClientHand) {
        lemma_varint_i32_roundtrip(s, pos, v.spec_id());
    }

    fn read_buf(buffer: &mut Cursor) -> (res: Option<ClientHand>) {
        match i32::read_varint(buffer) {
            Some(0i32) => Some(ClientHand::Left),
            Some(1i32) => Some(ClientHand::Right),
            _ => None,
        }
    }

    fn write_buf(&self, buffer: &mut Vec<u8>) {
        self.id().write_varint(buffer);
    }
}

/// How many particles the client shows.
#[derive(Debug, Clone, Copy, PartialEq, Eq, Structural, PartialOrd)]
pub enum ParticleStatus {
    All,
    Decreased,
    Minimal,
}

impl ParticleStatus {
    pub open spec fn spec_id(self) -> i32 {
        match self {
            ParticleStatus::All => 0,
            ParticleStatus::Decreased => 1,
            ParticleStatus::Minimal => 2,
        }
    }

    /// The protocol identifier of the particle status.
    pub fn id(&self) -> (res: i32)
        ensures
            res == self.spec_id(),
    {
        match self {
            ParticleStatus::All => 0,
            ParticleStatus::Decreased => 1,
            ParticleStatus::Minimal => 2,
        }
    }
}

/// The settings of a client.
#[derive(Debug, Clone, PartialEq, PartialOrd)]
pub struct ClientInfo {
    pub locale: String,
    pub view_distance: i8,
    pub chat_mode: ChatMode,
    pub chat_colors: bool,
    pub displayed_skin_parts: DisplayedSkinParts,
    pub main_hand: ClientHand,
    pub enable_text_filtering: bool,
    pub allow_server_listings: bool,
    pub particle_status: ParticleStatus,
}

impl ClientInfo {
    /// English locale, view distance 8, chat on with colours, every skin part shown, right
    /// hand, no text filtering, listed on servers, minimal particles.
    pub fn default() -> (res: ClientInfo)
        ensures
            res.locale@ == "en_US"@,
            res.view_distance == 8,
            res.chat_mode == ChatMode::Enabled,
            res.chat_colors,
            res.displayed_skin_parts == skin_parts(0x7f),
            res.main_hand == ClientHand::Right,
            !res.enable_text_filtering,
            res.allow_server_listings,
            res.particle_status == ParticleStatus::Minimal,
    {
        ClientInfo {
            locale: String::from_str("en_US"),
            view_distance: 8,
            chat_mode: ChatMode::Enabled,
            chat_colors: true,
            displayed_skin_parts: DisplayedSkinParts::default(),
            main_hand: ClientHand::Right,
            enable_text_filtering: false,
            allow_server_listings: true,
            particle_status: ParticleStatus::Minimal,
        }
    }

    /// The packet that tells the server these settings.
    pub fn to_serverside_packet(&self) -> (res: ServersideClientInformation)
        ensures
            res.locale@ == self.locale@,
            res.view_distance == self.view_distance,
            res.chat_mode == self.chat_mode.spec_id(),
            res.chat_colors == self.chat_colors,
            res.displayed_skin_parts == self.displayed_skin_parts,
            res.main_hand == self.main_hand,
            res.enable_text_filtering == self.enable_text_filtering,
            res.allow_server_listings == self.allow_server_listings,
            res.particle_status == self.particle_status.spec_id(),
    {
        ServersideClientInformation {
            locale: self.locale.clone(),
            view_distance: self.view_distance,
            chat_mode: self.chat_mode.id(),
            chat_colors: self.chat_colors,
            displayed_skin_parts: self.displayed_skin_parts,
            main_hand: self.main_hand,
            enable_text_filtering: self.enable_text_filtering,
            allow_server_listings: self.allow_server_listings,
            particle_status: self.particle_status.id(),
        }
    }
}

} // verus!
