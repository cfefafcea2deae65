//! The enable flags of the kernel providers: one bit for each category of
//! kernel events.

use vstd::prelude::*;

verus! {

pub const EVENT_TRACE_FLAG_PROCESS: u32 = 0x00000001;

pub const EVENT_TRACE_FLAG_THREAD: u32 = 0x00000002;

pub const EVENT_TRACE_FLAG_IMAGE_LOAD: u32 = 0x00000004;

pub const EVENT_TRACE_FLAG_PROCESS_COUNTERS: u32 = 0x00000008;

pub const EVENT_TRACE_FLAG_CSWITCH: u32 = 0x00000010;

pub const EVENT_TRACE_FLAG_DPC: u32 = 0x00000020;

pub const EVENT_TRACE_FLAG_INTERRUPT: u32 = 0x00000040;

pub const EVENT_TRACE_FLAG_SYSTEMCALL: u32 = 0x00000080;

pub const EVENT_TRACE_FLAG_DISK_IO: u32 = 0x00000100;

pub const EVENT_TRACE_FLAG_DISK_FILE_IO: u32 = 0x00000200;

pub const EVENT_TRACE_FLAG_DISK_IO_INIT: u32 = 0x00000400;

pub const EVENT_TRACE_FLAG_DISPATCHER: u32 = 0x00000800;

pub const EVENT_TRACE_FLAG_MEMORY_PAGE_FAULTS: u32 = 0x00001000;

pub const EVENT_TRACE_FLAG_MEMORY_HARD_FAULTS: u32 = 0x00002000;

pub const EVENT_TRACE_FLAG_VIRTUAL_ALLOC: u32 = 0x00004000;

pub const EVENT_TRACE_FLAG_VAMAP: u32 = 0x00008000;

pub const EVENT_TRACE_FLAG_NETWORK_TCPIP: u32 = 0x00010000;

pub const EVENT_TRACE_FLAG_REGISTRY: u32 = 0x00020000;

pub const EVENT_TRACE_FLAG_DBGPRINT: u32 = 0x00040000;

pub const EVENT_TRACE_FLAG_ALPC: u32 = 0x00100000;

pub const EVENT_TRACE_FLAG_SPLIT_IO: u32 = 0x00200000;

pub const EVENT_TRACE_FLAG_DRIVER: u32 = 0x00800000;

pub const EVENT_TRACE_FLAG_PROFILE: u32 = 0x01000000;

pub const EVENT_TRACE_FLAG_FILE_IO: u32 = 0x02000000;

pub const EVENT_TRACE_FLAG_FILE_IO_INIT: u32 = 0x04000000;

} // verus!
