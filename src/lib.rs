//! A guest-side driver for virtio input devices (keyboards, mice, tablets).
//!
//! The driver keeps a fixed pool of event slots permanently posted to the
//! device's event queue, hands each completed record back by value and
//! re-posts its slot at once, and reads static device metadata through the
//! config select registers.

mod config;
mod input;
mod transport;
mod types;

pub use config::{copied, copy_config_response, response_fits};
pub use input::{
    count_posted, first_failure, init_calls, lemma_count_all_posted, priming_calls, pop_keeps_capacity, pop_reposts_same_slot,
    pop_skips_idle_slot, poll_delivers_oldest, teardown_leaves_nothing_outstanding, VirtIOInput, SUPPORTED_FEATURES,
};
pub use transport::{
    data_reply, done, flag, size_reply, QueueCall, Reply, Transport, TransportCall, VirtQueue,
};
pub use types::{
    wire_bytes_round_trip, wire_round_trip, Error, InputConfigSelect, InputEvent, CONFIG_DATA_LEN,
    EVENT_WIRE_LEN, QUEUE_EVENT, QUEUE_SIZE, QUEUE_STATUS,
};
