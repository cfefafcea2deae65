//! The identifiers of the kernel providers, in their textual form.
//!
//! Beside each identifier stands the proof that its text is well formed, so
//! that it can be handed to the functions that read identifiers.

use crate::guid::is_canonical;
use vstd::prelude::*;

verus! {

pub const ALPC_GUID: &'static str = "45d8cccd-539f-4b72-a8b7-5c683142609a";

/// `ALPC_GUID` is well formed.
pub(crate) proof fn lemma_alpc_guid_well_formed()
    ensures
        is_canonical(ALPC_GUID@),
{
    reveal_strlit("45d8cccd-539f-4b72-a8b7-5c683142609a");
}

pub const POWER_GUID: &'static str = "e43445e0-0903-48c3-b878-ff0fccebdd04";

/// `POWER_GUID` is well formed.
pub(crate) proof fn lemma_power_guid_well_formed()
    ensures
        is_canonical(POWER_GUID@),
{
    reveal_strlit("e43445e0-0903-48c3-b878-ff0fccebdd04");
}

pub const DEBUG_GUID: &'static str = "13976d09-a327-438c-950b-7f03192815c7";

/// `DEBUG_GUID` is well formed.
pub(crate) proof fn lemma_debug_guid_well_formed()
    ensures
        is_canonical(DEBUG_GUID@),
{
    reveal_strlit("13976d09-a327-438c-950b-7f03192815c7");
}

pub const TCP_IP_GUID: &'static str = "9a280ac0-c8e0-11d1-84e2-00c04fb998a2";

/// `TCP_IP_GUID` is well formed.
pub(crate) proof fn lemma_tcp_ip_guid_well_formed()
    ensures
        is_canonical(TCP_IP_GUID@),
{
    reveal_strlit("9a280ac0-c8e0-11d1-84e2-00c04fb998a2");
}

pub const UDP_IP_GUID: &'static str = "bf3a50c5-a9c9-4988-a005-2df0b7c80f80";

/// `UDP_IP_GUID` is well formed.
pub(crate) proof fn lemma_udp_ip_guid_well_formed()
    ensures
        is_canonical(UDP_IP_GUID@),
{
    reveal_strlit("bf3a50c5-a9c9-4988-a005-2df0b7c80f80");
}

pub const THREAD_GUID: &'static str = "3d6fa8d1-fe05-11d0-9dda-00c04fd7ba7c";

/// `THREAD_GUID` is well formed.
pub(crate) proof fn lemma_thread_guid_well_formed()
    ensures
        is_canonical(THREAD_GUID@),
{
    reveal_strlit("3d6fa8d1-fe05-11d0-9dda-00c04fd7ba7c");
}

pub const DISK_IO_GUID: &'static str = "3d6fa8d4-fe05-11d0-9dda-00c04fd7ba7c";

/// `DISK_IO_GUID` is well formed.
pub(crate) proof fn lemma_disk_io_guid_well_formed()
    ensures
        is_canonical(DISK_IO_GUID@),
{
    reveal_strlit("3d6fa8d4-fe05-11d0-9dda-00c04fd7ba7c");
}

pub const FILE_IO_GUID: &'static str = "90cbdc39-4a3e-11d1-84f4-0000f80464e3";

/// `FILE_IO_GUID` is well formed.
pub(crate) proof fn lemma_file_io_guid_well_formed()
    ensures
        is_canonical(FILE_IO_GUID@),
{
    reveal_strlit("90cbdc39-4a3e-11d1-84f4-0000f80464e3");
}

pub const PROCESS_GUID: &'static str = "3d6fa8d0-fe05-11d0-9dda-00c04fd7ba7c";

/// `PROCESS_GUID` is well formed.
pub(crate) proof fn lemma_process_guid_well_formed()
    ensures
        is_canonical(PROCESS_GUID@),
{
    reveal_strlit("3d6fa8d0-fe05-11d0-9dda-00c04fd7ba7c");
}

pub const REGISTRY_GUID: &'static str = "AE53722E-C863-11d2-8659-00C04FA321A1";

/// `REGISTRY_GUID` is well formed.
pub(crate) proof fn lemma_registry_guid_well_formed()
    ensures
        is_canonical(REGISTRY_GUID@),
{
    reveal_strlit("AE53722E-C863-11d2-8659-00C04FA321A1");
}

pub const SPLIT_IO_GUID: &'static str = "d837ca92-12b9-44a5-ad6a-3a65b3578aa8";

/// `SPLIT_IO_GUID` is well formed.
pub(crate) proof fn lemma_split_io_guid_well_formed()
    ensures
        is_canonical(SPLIT_IO_GUID@),
{
    reveal_strlit("d837ca92-12b9-44a5-ad6a-3a65b3578aa8");
}

pub const OB_TRACE_GUID: &'static str = "89497f50-effe-4440-8cf2-ce6b1cdcaca7";

/// `OB_TRACE_GUID` is well formed.
pub(crate) proof fn lemma_ob_trace_guid_well_formed()
    ensures
        is_canonical(OB_TRACE_GUID@),
{
    reveal_strlit("89497f50-effe-4440-8cf2-ce6b1cdcaca7");
}

pub const UMS_EVENT_GUID: &'static str = "9aec974b-5b8e-4118-9b92-3186d8002ce5";

/// `UMS_EVENT_GUID` is well formed.
pub(crate) proof fn lemma_ums_event_guid_well_formed()
    ensures
        is_canonical(UMS_EVENT_GUID@),
{
    reveal_strlit("9aec974b-5b8e-4118-9b92-3186d8002ce5");
}

pub const PERF_INFO_GUID: &'static str = "ce1dbfb4-137e-4da6-87b0-3f59aa102cbc";

/// `PERF_INFO_GUID` is well formed.
pub(crate) proof fn lemma_perf_info_guid_well_formed()
    ensures
        is_canonical(PERF_INFO_GUID@),
{
    reveal_strlit("ce1dbfb4-137e-4da6-87b0-3f59aa102cbc");
}

pub const PAGE_FAULT_GUID: &'static str = "3d6fa8d3-fe05-11d0-9dda-00c04fd7ba7c";

/// `PAGE_FAULT_GUID` is well formed.
pub(crate) proof fn lemma_page_fault_guid_well_formed()
    ensures
        is_canonical(PAGE_FAULT_GUID@),
{
    reveal_strlit("3d6fa8d3-fe05-11d0-9dda-00c04fd7ba7c");
}

pub const IMAGE_LOAD_GUID: &'static str = "2cb15d1d-5fc1-11d2-abe1-00a0c911f518";

/// `IMAGE_LOAD_GUID` is well formed.
pub(crate) proof fn lemma_image_load_guid_well_formed()
    ensures
        is_canonical(IMAGE_LOAD_GUID@),
{
    reveal_strlit("2cb15d1d-5fc1-11d2-abe1-00a0c911f518");
}

pub const POOL_TRACE_GUID: &'static str = "0268a8b6-74fd-4302-9dd0-6e8f1795c0cf";

/// `POOL_TRACE_GUID` is well formed.
pub(crate) proof fn lemma_pool_trace_guid_well_formed()
    ensures
        is_canonical(POOL_TRACE_GUID@),
{
    reveal_strlit("0268a8b6-74fd-4302-9dd0-6e8f1795c0cf");
}

pub const LOST_EVENT_GUID: &'static str = "6a399ae0-4bc6-4de9-870b-3657f8947e7e";

/// `LOST_EVENT_GUID` is well formed.
pub(crate) proof fn lemma_lost_event_guid_well_formed()
    ensures
        is_canonical(LOST_EVENT_GUID@),
{
    reveal_strlit("6a399ae0-4bc6-4de9-870b-3657f8947e7e");
}

pub const STACK_WALK_GUID: &'static str = "def2fe46-7bd6-4b80-bd94-f57fe20d0ce3";

/// `STACK_WALK_GUID` is well formed.
pub(crate) proof fn lemma_stack_walk_guid_well_formed()
    ensures
        is_canonical(STACK_WALK_GUID@),
{
    reveal_strlit("def2fe46-7bd6-4b80-bd94-f57fe20d0ce3");
}

pub const EVENT_TRACE_GUID: &'static str = "68fdd900-4a3e-11d1-84f4-0000f80464e3";

/// `EVENT_TRACE_GUID` is well formed.
pub(crate) proof fn lemma_event_trace_guid_well_formed()
    ensures
        is_canonical(EVENT_TRACE_GUID@),
{
    reveal_strlit("68fdd900-4a3e-11d1-84f4-0000f80464e3");
}

pub const MMCSS_TRACE_GUID: &'static str = "f8f10121-b617-4a56-868b-9df1b27fe32c";

/// `MMCSS_TRACE_GUID` is well formed.
pub(crate) proof fn lemma_mmcss_trace_guid_well_formed()
    ensures
        is_canonical(MMCSS_TRACE_GUID@),
{
    reveal_strlit("f8f10121-b617-4a56-868b-9df1b27fe32c");
}

pub const SYSTEM_TRACE_GUID: &'static str = "9e814aad-3204-11d2-9a82-006008a86939";

/// `SYSTEM_TRACE_GUID` is well formed.
pub(crate) proof fn lemma_system_trace_guid_well_formed()
    ensures
        is_canonical(SYSTEM_TRACE_GUID@),
{
    reveal_strlit("9e814aad-3204-11d2-9a82-006008a86939");
}

pub const EVENT_TRACE_CONFIG_GUID: &'static str = "01853a65-418f-4f36-aefc-dc0f1d2fd235";

/// `EVENT_TRACE_CONFIG_GUID` is well formed.
pub(crate) proof fn lemma_event_trace_config_guid_well_formed()
    ensures
        is_canonical(EVENT_TRACE_CONFIG_GUID@),
{
    reveal_strlit("01853a65-418f-4f36-aefc-dc0f1d2fd235");
}

/// Every identifier listed here is well formed.
pub proof fn lemma_listed_guids_are_well_formed()
    ensures
        is_canonical(ALPC_GUID@),
        is_canonical(POWER_GUID@),
        is_canonical(DEBUG_GUID@),
        is_canonical(TCP_IP_GUID@),
        is_canonical(UDP_IP_GUID@),
        is_canonical(THREAD_GUID@),
        is_canonical(DISK_IO_GUID@),
        is_canonical(FILE_IO_GUID@),
        is_canonical(PROCESS_GUID@),
        is_canonical(REGISTRY_GUID@),
        is_canonical(SPLIT_IO_GUID@),
        is_canonical(OB_TRACE_GUID@),
        is_canonical(UMS_EVENT_GUID@),
        is_canonical(PERF_INFO_GUID@),
        is_canonical(PAGE_FAULT_GUID@),
        is_canonical(IMAGE_LOAD_GUID@),
        is_canonical(POOL_TRACE_GUID@),
        is_canonical(LOST_EVENT_GUID@),
        is_canonical(STACK_WALK_GUID@),
        is_canonical(EVENT_TRACE_GUID@),
        is_canonical(MMCSS_TRACE_GUID@),
        is_canonical(SYSTEM_TRACE_GUID@),
        is_canonical(EVENT_TRACE_CONFIG_GUID@),
{
    lemma_alpc_guid_well_formed();
    lemma_power_guid_well_formed();
    lemma_debug_guid_well_formed();
    lemma_tcp_ip_guid_well_formed();
    lemma_udp_ip_guid_well_formed();
    lemma_thread_guid_well_formed();
    lemma_disk_io_guid_well_formed();
    lemma_file_io_guid_well_formed();
    lemma_process_guid_well_formed();
    lemma_registry_guid_well_formed();
    lemma_split_io_guid_well_formed();
    lemma_ob_trace_guid_well_formed();
    lemma_ums_event_guid_well_formed();
    lemma_perf_info_guid_well_formed();
    lemma_page_fault_guid_well_formed();
    lemma_image_load_guid_well_formed();
    lemma_pool_trace_guid_well_formed();
    lemma_lost_event_guid_well_formed();
    lemma_stack_walk_guid_well_formed();
    lemma_event_trace_guid_well_formed();
    lemma_mmcss_trace_guid_well_formed();
    lemma_system_trace_guid_well_formed();
    lemma_event_trace_config_guid_well_formed();
}

} // verus!
