//! Verified decision logic of the Magma virtio-gpu component: the capability
//! set advertised to the guest, the completed-sequence-number protocol, the
//! channel scheduler of the worker pool, the per-run ring service state
//! machine and the fence waiter of the sync thread.
use vstd::prelude::*;

pub mod capabilities;
pub mod seqno;
pub mod scheduler;
pub mod fence_waiter;
pub mod ring_service;
