//! Cyphal/CAN transmission: splits transfers into CAN frames.

mod breakdown;
mod can_id;
mod crc;
mod frame;
mod lemmas;
mod queue;
mod transfer;
mod tx;

pub use breakdown::{make_tail_byte, segment};
pub use can_id::{make_can_id, make_pseudo_id, CanId};
pub use crc::TransferCrc;
pub use frame::{Frame, FrameView, Mtu, OutOfMemoryError};
pub use lemmas::{
    lemma_frame_count, lemma_identifier_identity, lemma_payload_recoverable, lemma_single_frame,
    lemma_tail_byte_fields, lemma_tail_structure,
};
pub use queue::{FrameQueue, FrameSink};
pub use transfer::{Header, MessageHeader, Priority, ServiceHeader, Transfer};
pub use tx::{calculate_frame_stats, make_transfer_stream, FrameStats, Transmitter};
