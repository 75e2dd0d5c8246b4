use vstd::prelude::*;

use crate::codec::buffer::Buffer;
use crate::codec::cursor::Cursor;
use crate::codec::varint::{lemma_varint_i32_roundtrip, parse_varint, spec_varint, VarInt, varint_end};

verus! {

/// What became of a resource pack that the server offered.
#[derive(Clone, Copy, Debug, PartialEq, Eq, Structural)]
pub enum ResourcePackState {
    SuccessfullyLoaded,
    Declined,
    FailedDownload,
    Accepted,
    Downloaded,
    InvalidUrl,
    FailedToReload,
    Discarded,
}

impl ResourcePackState {
    pub open spec fn spec_id(self) -> i32 {
        match self {
            ResourcePackState::SuccessfullyLoaded => 0,
            ResourcePackState::Declined => 1,
            ResourcePackState::FailedDownload => 2,
            ResourcePackState::Accepted => 3,
            ResourcePackState::Downloaded => 4,
            ResourcePackState::InvalidUrl => 5,
            ResourcePackState::FailedToReload => 6,
            ResourcePackState::Discarded => 7,
        }
    }

    /// The state with the given identifier, if there is one.
    pub open spec fn spec_from_id(id: i32) -> Option<ResourcePackState> {
        if id == 0 {
            Some(ResourcePackState::SuccessfullyLoaded)
        } else if id == 1 {
            Some(ResourcePackState::Declined)
        } else if id == 2 {
            Some(ResourcePackState::FailedDownload)
        } else if id == 3 {
            Some(ResourcePackState::Accepted)
        } else if id == 4 {
            Some(ResourcePackState::Downloaded)
        } else if id == 5 {
            Some(ResourcePackState::InvalidUrl)
        } else if id == 6 {
            Some(ResourcePackState::FailedToReload)
        } else if id == 7 {
            Some(ResourcePackState::Discarded)
        } else {
            None
        }
    }
}

impl DeepView for ResourcePackState {
    type V = ResourcePackState;

    open spec fn deep_view(&self) -> ResourcePackState {
        *self
    }
}

impl Buffer for ResourcePackState {
    /// A `VarInt` identifier from 0 to 7; any other value is refused.
    open spec fn spec_parse(s: Seq<u8>, pos: int) -> Option<(ResourcePackState, int)> {
        match parse_varint(s, pos) {
            Some((id, p)) => match ResourcePackState::spec_from_id(id) {
                Some(state) => Some((state, p)),
                None => None,
            },
            None => None,
        }
    }

    open spec fn spec_serialize(v: ResourcePackState) -> Seq<u8> {
        spec_varint(v.spec_id())
    }

    open spec fn spec_wf(v: ResourcePackState) -> bool {
        true
    }

    open spec fn spec_stop(s: Seq<u8>, pos: int) -> int {
        varint_end(s, pos)
    }

    proof fn lemma_roundtrip(s: Seq<u8>, pos: int, v: ResourcePackState) {
        lemma_varint_i32_roundtrip(s, pos, v.spec_id());
    }

    fn read_buf(buffer: &mut Cursor) -> (res: Option<ResourcePackState>) {
        let id = match i32::read_varint(buffer) {
            Some(id) => id,
            None => {
                return None;
            },
        };
        match id {
            0 => Some(ResourcePackState::SuccessfullyLoaded),
            1 => Some(ResourcePackState::Declined),
            2 => Some(ResourcePackState::FailedDownload),
            3 => Some(ResourcePackState::Accepted),
            4 => Some(ResourcePackState::Downloaded),
            5 => Some(ResourcePackState::InvalidUrl),
            6 => Some(ResourcePackState::FailedToReload),
            7 => Some(ResourcePackState::Discarded),
            _ => None,
        }
    }

    fn write_buf(&self, buffer: &mut Vec<u8>) {
        let id: i32 = match self {
            ResourcePackState::SuccessfullyLoaded => 0,
            ResourcePackState::Declined => 1,
            ResourcePackState::FailedDownload => 2,
            ResourcePackState::Accepted => 3,
            ResourcePackState::Downloaded => 4,
            ResourcePackState::InvalidUrl => 5,
            ResourcePackState::FailedToReload => 6,
            ResourcePackState::Discarded => 7,
        };
        id.write_varint(buffer);
    }
}

} // verus!
