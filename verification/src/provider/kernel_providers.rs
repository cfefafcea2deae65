//! The catalog of kernel providers.
//!
//! Each kernel subsystem that can be traced has one entry: the identifier of
//! the provider that emits its events and the enable flag that switches them
//! on. Several subsystems share one provider, so identifiers repeat in the
//! catalog; the enable flags do not.

use self::kernel_flags::{
    EVENT_TRACE_FLAG_ALPC,
    EVENT_TRACE_FLAG_CSWITCH,
    EVENT_TRACE_FLAG_DBGPRINT,
    EVENT_TRACE_FLAG_DISK_FILE_IO,
    EVENT_TRACE_FLAG_DISK_IO,
    EVENT_TRACE_FLAG_DISK_IO_INIT,
    EVENT_TRACE_FLAG_DISPATCHER,
    EVENT_TRACE_FLAG_DPC,
    EVENT_TRACE_FLAG_DRIVER,
    EVENT_TRACE_FLAG_FILE_IO,
    EVENT_TRACE_FLAG_FILE_IO_INIT,
    EVENT_TRACE_FLAG_IMAGE_LOAD,
    EVENT_TRACE_FLAG_INTERRUPT,
    EVENT_TRACE_FLAG_MEMORY_HARD_FAULTS,
    EVENT_TRACE_FLAG_MEMORY_PAGE_FAULTS,
    EVENT_TRACE_FLAG_NETWORK_TCPIP,
    EVENT_TRACE_FLAG_PROCESS,
    EVENT_TRACE_FLAG_PROCESS_COUNTERS,
    EVENT_TRACE_FLAG_PROFILE,
    EVENT_TRACE_FLAG_REGISTRY,
    EVENT_TRACE_FLAG_SPLIT_IO,
    EVENT_TRACE_FLAG_SYSTEMCALL,
    EVENT_TRACE_FLAG_THREAD,
    EVENT_TRACE_FLAG_VAMAP,
    EVENT_TRACE_FLAG_VIRTUAL_ALLOC,
};
use self::kernel_guids::{
    lemma_alpc_guid_well_formed,
    lemma_debug_guid_well_formed,
    lemma_disk_io_guid_well_formed,
    lemma_file_io_guid_well_formed,
    lemma_image_load_guid_well_formed,
    lemma_page_fault_guid_well_formed,
    lemma_perf_info_guid_well_formed,
    lemma_process_guid_well_formed,
    lemma_registry_guid_well_formed,
    lemma_split_io_guid_well_formed,
    lemma_tcp_ip_guid_well_formed,
    lemma_thread_guid_well_formed,
    ALPC_GUID,
    DEBUG_GUID,
    DISK_IO_GUID,
    FILE_IO_GUID,
    IMAGE_LOAD_GUID,
    PAGE_FAULT_GUID,
    PERF_INFO_GUID,
    PROCESS_GUID,
    REGISTRY_GUID,
    SPLIT_IO_GUID,
    TCP_IP_GUID,
    THREAD_GUID,
};
use crate::guid::{is_guid_text, text_value, Guid};
use vstd::prelude::*;

pub mod kernel_flags;
pub mod kernel_guids;

verus! {

/// One entry of the catalog: the identifier of a kernel provider and the
/// enable flag of the subsystem it stands for.
#[derive(Debug, Clone, Copy, PartialEq, Eq)]
pub struct KernelProvider {
    /// The identifier of the provider.
    pub guid: Guid,
    /// The enable flag of the subsystem.
    pub flags: u32,
}

impl KernelProvider {
    /// Makes an entry from the textual form of an identifier and a flag.
    pub fn new(guid: &str, flags: u32) -> (provider: KernelProvider)
        requires
            is_guid_text(guid@),
        ensures
            provider.guid == text_value(guid@),
            provider.flags == flags,
    {
        KernelProvider { guid: Guid::from(guid), flags }
    }
}

/// The kernel subsystems that have an entry in the catalog.
#[derive(Debug, Clone, Copy, PartialEq, Eq, Structural)]
pub enum KernelSubsystem {
    /// Virtual memory allocations.
    VirtualAlloc,
    /// Mappings of files into the address space.
    VaMap,
    /// Thread creation and exit.
    Thread,
    /// Split disk requests.
    SplitIo,
    /// System calls.
    SystemCall,
    /// Registry accesses.
    Registry,
    /// Sampled profiling.
    Profile,
    /// Process counters.
    ProcessCounter,
    /// Process creation and exit.
    Process,
    /// TCP/IP network traffic.
    TcpIp,
    /// Page faults.
    MemoryPageFault,
    /// Hard page faults.
    MemoryHardFault,
    /// Interrupts.
    Interrupt,
    /// Driver requests.
    Driver,
    /// Deferred procedure calls.
    Dpc,
    /// Image loads.
    ImageLoad,
    /// The thread dispatcher.
    ThreadDispatcher,
    /// The start of file requests.
    FileInitIo,
    /// File requests.
    FileIo,
    /// The start of disk requests.
    DiskIoInit,
    /// Disk requests.
    DiskIo,
    /// The files behind disk requests.
    DiskFileIo,
    /// Debug print calls.
    DebugPrint,
    /// Context switches.
    ContextSwitch,
    /// Advanced local procedure calls.
    Alpc,
}

/// The textual identifier of the provider of a subsystem.
pub open spec fn guid_text_of(subsystem: KernelSubsystem) -> Seq<char> {
    match subsystem {
        KernelSubsystem::VirtualAlloc => PAGE_FAULT_GUID@,
        KernelSubsystem::VaMap => FILE_IO_GUID@,
        KernelSubsystem::Thread => THREAD_GUID@,
        KernelSubsystem::SplitIo => SPLIT_IO_GUID@,
        KernelSubsystem::SystemCall => PERF_INFO_GUID@,
        KernelSubsystem::Registry => REGISTRY_GUID@,
        KernelSubsystem::Profile => PERF_INFO_GUID@,
        KernelSubsystem::ProcessCounter => PROCESS_GUID@,
        KernelSubsystem::Process => PROCESS_GUID@,
        KernelSubsystem::TcpIp => TCP_IP_GUID@,
        KernelSubsystem::MemoryPageFault => PAGE_FAULT_GUID@,
        KernelSubsystem::MemoryHardFault => PAGE_FAULT_GUID@,
        KernelSubsystem::Interrupt => PERF_INFO_GUID@,
        KernelSubsystem::Driver => DISK_IO_GUID@,
        KernelSubsystem::Dpc => PERF_INFO_GUID@,
        KernelSubsystem::ImageLoad => IMAGE_LOAD_GUID@,
        KernelSubsystem::ThreadDispatcher => THREAD_GUID@,
        KernelSubsystem::FileInitIo => FILE_IO_GUID@,
        KernelSubsystem::FileIo => FILE_IO_GUID@,
        KernelSubsystem::DiskIoInit => DISK_IO_GUID@,
        KernelSubsystem::DiskIo => DISK_IO_GUID@,
        KernelSubsystem::DiskFileIo => DISK_IO_GUID@,
        KernelSubsystem::DebugPrint => DEBUG_GUID@,
        KernelSubsystem::ContextSwitch => THREAD_GUID@,
        KernelSubsystem::Alpc => ALPC_GUID@,
    }
}

/// The enable flag of a subsystem.
pub open spec fn flag_of(subsystem: KernelSubsystem) -> u32 {
    match subsystem {
        KernelSubsystem::VirtualAlloc => EVENT_TRACE_FLAG_VIRTUAL_ALLOC,
        KernelSubsystem::VaMap => EVENT_TRACE_FLAG_VAMAP,
        KernelSubsystem::Thread => EVENT_TRACE_FLAG_THREAD,
        KernelSubsystem::SplitIo => EVENT_TRACE_FLAG_SPLIT_IO,
        KernelSubsystem::SystemCall => EVENT_TRACE_FLAG_SYSTEMCALL,
        KernelSubsystem::Registry => EVENT_TRACE_FLAG_REGISTRY,
        KernelSubsystem::Profile => EVENT_TRACE_FLAG_PROFILE,
        KernelSubsystem::ProcessCounter => EVENT_TRACE_FLAG_PROCESS_COUNTERS,
        KernelSubsystem::Process => EVENT_TRACE_FLAG_PROCESS,
        KernelSubsystem::TcpIp => EVENT_TRACE_FLAG_NETWORK_TCPIP,
        KernelSubsystem::MemoryPageFault => EVENT_TRACE_FLAG_MEMORY_PAGE_FAULTS,
        KernelSubsystem::MemoryHardFault => EVENT_TRACE_FLAG_MEMORY_HARD_FAULTS,
        KernelSubsystem::Interrupt => EVENT_TRACE_FLAG_INTERRUPT,
        KernelSubsystem::Driver => EVENT_TRACE_FLAG_DRIVER,
        KernelSubsystem::Dpc => EVENT_TRACE_FLAG_DPC,
        KernelSubsystem::ImageLoad => EVENT_TRACE_FLAG_IMAGE_LOAD,
        KernelSubsystem::ThreadDispatcher => EVENT_TRACE_FLAG_DISPATCHER,
        KernelSubsystem::FileInitIo => EVENT_TRACE_FLAG_FILE_IO_INIT,
        KernelSubsystem::FileIo => EVENT_TRACE_FLAG_FILE_IO,
        KernelSubsystem::DiskIoInit => EVENT_TRACE_FLAG_DISK_IO_INIT,
        KernelSubsystem::DiskIo => EVENT_TRACE_FLAG_DISK_IO,
        KernelSubsystem::DiskFileIo => EVENT_TRACE_FLAG_DISK_FILE_IO,
        KernelSubsystem::DebugPrint => EVENT_TRACE_FLAG_DBGPRINT,
        KernelSubsystem::ContextSwitch => EVENT_TRACE_FLAG_CSWITCH,
        KernelSubsystem::Alpc => EVENT_TRACE_FLAG_ALPC,
    }
}

/// The entry of a subsystem.
pub open spec fn entry_of(subsystem: KernelSubsystem) -> KernelProvider {
    KernelProvider { guid: text_value(guid_text_of(subsystem)), flags: flag_of(subsystem) }
}

/// The name under which a subsystem is looked up.
pub open spec fn name_of(subsystem: KernelSubsystem) -> Seq<char> {
    match subsystem {
        KernelSubsystem::VirtualAlloc => "virtual alloc"@,
        KernelSubsystem::VaMap => "VA map"@,
        KernelSubsystem::Thread => "thread"@,
        KernelSubsystem::SplitIo => "split I/O"@,
        KernelSubsystem::SystemCall => "system call"@,
        KernelSubsystem::Registry => "registry"@,
        KernelSubsystem::Profile => "profile"@,
        KernelSubsystem::ProcessCounter => "process counter"@,
        KernelSubsystem::Process => "process"@,
        KernelSubsystem::TcpIp => "network TCP/IP"@,
        KernelSubsystem::MemoryPageFault => "memory page fault"@,
        KernelSubsystem::MemoryHardFault => "memory hard fault"@,
        KernelSubsystem::Interrupt => "interrupt"@,
        KernelSubsystem::Driver => "driver"@,
        KernelSubsystem::Dpc => "DPC"@,
        KernelSubsystem::ImageLoad => "image load"@,
        KernelSubsystem::ThreadDispatcher => "thread dispatcher"@,
        KernelSubsystem::FileInitIo => "file I/O init"@,
        KernelSubsystem::FileIo => "file I/O"@,
        KernelSubsystem::DiskIoInit => "disk I/O init"@,
        KernelSubsystem::DiskIo => "disk I/O"@,
        KernelSubsystem::DiskFileIo => "disk file I/O"@,
        KernelSubsystem::DebugPrint => "debug print"@,
        KernelSubsystem::ContextSwitch => "context switch"@,
        KernelSubsystem::Alpc => "ALPC"@,
    }
}

/// Whether `found` is what a lookup of `name` has to return: the subsystem
/// that goes by that name, or nothing where no subsystem does.
pub open spec fn is_subsystem_named(name: Seq<char>, found: Option<KernelSubsystem>) -> bool {
    match found {
        Some(subsystem) => name_of(subsystem) == name,
        None => forall|subsystem: KernelSubsystem| name_of(subsystem) != name,
    }
}

/// The entry for virtual memory allocations.
pub fn virtual_alloc_provider() -> (provider: KernelProvider)
    ensures
        provider == entry_of(KernelSubsystem::VirtualAlloc),
{
    proof {
        lemma_page_fault_guid_well_formed();
    }
    KernelProvider::new(PAGE_FAULT_GUID, EVENT_TRACE_FLAG_VIRTUAL_ALLOC)
}

/// The entry for mappings of files into the address space.
pub fn vamap_provider() -> (provider: KernelProvider)
    ensures
        provider == entry_of(KernelSubsystem::VaMap),
{
    proof {
        lemma_file_io_guid_well_formed();
    }
    KernelProvider::new(FILE_IO_GUID, EVENT_TRACE_FLAG_VAMAP)
}

/// The entry for thread creation and exit.
pub fn thread_provider() -> (provider: KernelProvider)
    ensures
        provider == entry_of(KernelSubsystem::Thread),
{
    proof {
        lemma_thread_guid_well_formed();
    }
    KernelProvider::new(THREAD_GUID, EVENT_TRACE_FLAG_THREAD)
}

/// The entry for split disk requests.
pub fn split_io_provider() -> (provider: KernelProvider)
    ensures
        provider == entry_of(KernelSubsystem::SplitIo),
{
    proof {
        lemma_split_io_guid_well_formed();
    }
    KernelProvider::new(SPLIT_IO_GUID, EVENT_TRACE_FLAG_SPLIT_IO)
}

/// The entry for system calls.
pub fn system_call_provider() -> (provider: KernelProvider)
    ensures
        provider == entry_of(KernelSubsystem::SystemCall),
{
    proof {
        lemma_perf_info_guid_well_formed();
    }
    KernelProvider::new(PERF_INFO_GUID, EVENT_TRACE_FLAG_SYSTEMCALL)
}

/// The entry for registry accesses.
pub fn registry_provider() -> (provider: KernelProvider)
    ensures
        provider == entry_of(KernelSubsystem::Registry),
{
    proof {
        lemma_registry_guid_well_formed();
    }
    KernelProvider::new(REGISTRY_GUID, EVENT_TRACE_FLAG_REGISTRY)
}

/// The entry for sampled profiling.
pub fn profile_provider() -> (provider: KernelProvider)
    ensures
        provider == entry_of(KernelSubsystem::Profile),
{
    proof {
        lemma_perf_info_guid_well_formed();
    }
    KernelProvider::new(PERF_INFO_GUID, EVENT_TRACE_FLAG_PROFILE)
}

/// The entry for process counters.
pub fn process_counter_provider() -> (provider: KernelProvider)
    ensures
        provider == entry_of(KernelSubsystem::ProcessCounter),
{
    proof {
        lemma_process_guid_well_formed();
    }
    KernelProvider::new(PROCESS_GUID, EVENT_TRACE_FLAG_PROCESS_COUNTERS)
}

/// The entry for process creation and exit.
pub fn process_provider() -> (provider: KernelProvider)
    ensures
        provider == entry_of(KernelSubsystem::Process),
{
    proof {
        lemma_process_guid_well_formed();
    }
    KernelProvider::new(PROCESS_GUID, EVENT_TRACE_FLAG_PROCESS)
}

/// The entry for TCP/IP network traffic.
pub fn tcp_ip_provider() -> (provider: KernelProvider)
    ensures
        provider == entry_of(KernelSubsystem::TcpIp),
{
    proof {
        lemma_tcp_ip_guid_well_formed();
    }
    KernelProvider::new(TCP_IP_GUID, EVENT_TRACE_FLAG_NETWORK_TCPIP)
}

/// The entry for page faults.
pub fn memory_page_fault_provider() -> (provider: KernelProvider)
    ensures
        provider == entry_of(KernelSubsystem::MemoryPageFault),
{
    proof {
        lemma_page_fault_guid_well_formed();
    }
    KernelProvider::new(PAGE_FAULT_GUID, EVENT_TRACE_FLAG_MEMORY_PAGE_FAULTS)
}

/// The entry for hard page faults.
pub fn memory_hard_fault_provider() -> (provider: KernelProvider)
    ensures
        provider == entry_of(KernelSubsystem::MemoryHardFault),
{
    proof {
        lemma_page_fault_guid_well_formed();
    }
    KernelProvider::new(PAGE_FAULT_GUID, EVENT_TRACE_FLAG_MEMORY_HARD_FAULTS)
}

/// The entry for interrupts.
pub fn interrupt_provider() -> (provider: KernelProvider)
    ensures
        provider == entry_of(KernelSubsystem::Interrupt),
{
    proof {
        lemma_perf_info_guid_well_formed();
    }
    KernelProvider::new(PERF_INFO_GUID, EVENT_TRACE_FLAG_INTERRUPT)
}

/// The entry for driver requests.
pub fn driver_provider() -> (provider: KernelProvider)
    ensures
        provider == entry_of(KernelSubsystem::Driver),
{
    proof {
        lemma_disk_io_guid_well_formed();
    }
    KernelProvider::new(DISK_IO_GUID, EVENT_TRACE_FLAG_DRIVER)
}

/// The entry for deferred procedure calls.
pub fn dpc_provider() -> (provider: KernelProvider)
    ensures
        provider == entry_of(KernelSubsystem::Dpc),
{
    proof {
        lemma_perf_info_guid_well_formed();
    }
    KernelProvider::new(PERF_INFO_GUID, EVENT_TRACE_FLAG_DPC)
}

/// The entry for image loads.
pub fn image_load_provider() -> (provider: KernelProvider)
    ensures
        provider == entry_of(KernelSubsystem::ImageLoad),
{
    proof {
        lemma_image_load_guid_well_formed();
    }
    KernelProvider::new(IMAGE_LOAD_GUID, EVENT_TRACE_FLAG_IMAGE_LOAD)
}

/// The entry for the thread dispatcher.
pub fn thread_dispatcher_provider() -> (provider: KernelProvider)
    ensures
        provider == entry_of(KernelSubsystem::ThreadDispatcher),
{
    proof {
        lemma_thread_guid_well_formed();
    }
    KernelProvider::new(THREAD_GUID, EVENT_TRACE_FLAG_DISPATCHER)
}

/// The entry for the start of file requests.
pub fn file_init_io_provider() -> (provider: KernelProvider)
    ensures
        provider == entry_of(KernelSubsystem::FileInitIo),
{
    proof {
        lemma_file_io_guid_well_formed();
    }
    KernelProvider::new(FILE_IO_GUID, EVENT_TRACE_FLAG_FILE_IO_INIT)
}

/// The entry for file requests.
pub fn file_io_provider() -> (provider: KernelProvider)
    ensures
        provider == entry_of(KernelSubsystem::FileIo),
{
    proof {
        lemma_file_io_guid_well_formed();
    }
    KernelProvider::new(FILE_IO_GUID, EVENT_TRACE_FLAG_FILE_IO)
}

/// The entry for the start of disk requests.
pub fn disk_io_init_provider() -> (provider: KernelProvider)
    ensures
        provider == entry_of(KernelSubsystem::DiskIoInit),
{
    proof {
        lemma_disk_io_guid_well_formed();
    }
    KernelProvider::new(DISK_IO_GUID, EVENT_TRACE_FLAG_DISK_IO_INIT)
}

/// The entry for disk requests.
pub fn disk_io_provider() -> (provider: KernelProvider)
    ensures
        provider == entry_of(KernelSubsystem::DiskIo),
{
    proof {
        lemma_disk_io_guid_well_formed();
    }
    KernelProvider::new(DISK_IO_GUID, EVENT_TRACE_FLAG_DISK_IO)
}

/// The entry for the files behind disk requests.
pub fn disk_file_io_provider() -> (provider: KernelProvider)
    ensures
        provider == entry_of(KernelSubsystem::DiskFileIo),
{
    proof {
        lemma_disk_io_guid_well_formed();
    }
    KernelProvider::new(DISK_IO_GUID, EVENT_TRACE_FLAG_DISK_FILE_IO)
}

/// The entry for debug print calls.
pub fn debug_print_provider() -> (provider: KernelProvider)
    ensures
        provider == entry_of(KernelSubsystem::DebugPrint),
{
    proof {
        lemma_debug_guid_well_formed();
    }
    KernelProvider::new(DEBUG_GUID, EVENT_TRACE_FLAG_DBGPRINT)
}

/// The entry for context switches.
pub fn context_switch_provider() -> (provider: KernelProvider)
    ensures
        provider == entry_of(KernelSubsystem::ContextSwitch),
{
    proof {
        lemma_thread_guid_well_formed();
    }
    KernelProvider::new(THREAD_GUID, EVENT_TRACE_FLAG_CSWITCH)
}

/// The entry for advanced local procedure calls.
pub fn alpc_provider() -> (provider: KernelProvider)
    ensures
        provider == entry_of(KernelSubsystem::Alpc),
{
    proof {
        lemma_alpc_guid_well_formed();
    }
    KernelProvider::new(ALPC_GUID, EVENT_TRACE_FLAG_ALPC)
}

impl KernelSubsystem {
    /// The entry of the subsystem.
    pub fn provider(&self) -> (provider: KernelProvider)
        ensures
            provider == entry_of(*self),
    {
        match self {
            KernelSubsystem::VirtualAlloc => virtual_alloc_provider(),
            KernelSubsystem::VaMap => vamap_provider(),
            KernelSubsystem::Thread => thread_provider(),
            KernelSubsystem::SplitIo => split_io_provider(),
            KernelSubsystem::SystemCall => system_call_provider(),
            KernelSubsystem::Registry => registry_provider(),
            KernelSubsystem::Profile => profile_provider(),
            KernelSubsystem::ProcessCounter => process_counter_provider(),
            KernelSubsystem::Process => process_provider(),
            KernelSubsystem::TcpIp => tcp_ip_provider(),
            KernelSubsystem::MemoryPageFault => memory_page_fault_provider(),
            KernelSubsystem::MemoryHardFault => memory_hard_fault_provider(),
            KernelSubsystem::Interrupt => interrupt_provider(),
            KernelSubsystem::Driver => driver_provider(),
            KernelSubsystem::Dpc => dpc_provider(),
            KernelSubsystem::ImageLoad => image_load_provider(),
            KernelSubsystem::ThreadDispatcher => thread_dispatcher_provider(),
            KernelSubsystem::FileInitIo => file_init_io_provider(),
            KernelSubsystem::FileIo => file_io_provider(),
            KernelSubsystem::DiskIoInit => disk_io_init_provider(),
            KernelSubsystem::DiskIo => disk_io_provider(),
            KernelSubsystem::DiskFileIo => disk_file_io_provider(),
            KernelSubsystem::DebugPrint => debug_print_provider(),
            KernelSubsystem::ContextSwitch => context_switch_provider(),
            KernelSubsystem::Alpc => alpc_provider(),
        }
    }

    /// The name of the subsystem.
    pub fn name(&self) -> (name: &'static str)
        ensures
            name@ == name_of(*self),
    {
        match self {
            KernelSubsystem::VirtualAlloc => "virtual alloc",
            KernelSubsystem::VaMap => "VA map",
            KernelSubsystem::Thread => "thread",
            KernelSubsystem::SplitIo => "split I/O",
            KernelSubsystem::SystemCall => "system call",
            KernelSubsystem::Registry => "registry",
            KernelSubsystem::Profile => "profile",
            KernelSubsystem::ProcessCounter => "process counter",
            KernelSubsystem::Process => "process",
            KernelSubsystem::TcpIp => "network TCP/IP",
            KernelSubsystem::MemoryPageFault => "memory page fault",
            KernelSubsystem::MemoryHardFault => "memory hard fault",
            KernelSubsystem::Interrupt => "interrupt",
            KernelSubsystem::Driver => "driver",
            KernelSubsystem::Dpc => "DPC",
            KernelSubsystem::ImageLoad => "image load",
            KernelSubsystem::ThreadDispatcher => "thread dispatcher",
            KernelSubsystem::FileInitIo => "file I/O init",
            KernelSubsystem::FileIo => "file I/O",
            KernelSubsystem::DiskIoInit => "disk I/O init",
            KernelSubsystem::DiskIo => "disk I/O",
            KernelSubsystem::DiskFileIo => "disk file I/O",
            KernelSubsystem::DebugPrint => "debug print",
            KernelSubsystem::ContextSwitch => "context switch",
            KernelSubsystem::Alpc => "ALPC",
        }
    }

    /// The subsystem that goes by the name `name`, if there is one.
    pub fn from_name(name: &str) -> (found: Option<KernelSubsystem>)
        ensures
            is_subsystem_named(name@, found),
    {
        if same_text(name, KernelSubsystem::VirtualAlloc.name()) {
            Some(KernelSubsystem::VirtualAlloc)
        } else if same_text(name, KernelSubsystem::VaMap.name()) {
            Some(KernelSubsystem::VaMap)
        } else if same_text(name, KernelSubsystem::Thread.name()) {
            Some(KernelSubsystem::Thread)
        } else if same_text(name, KernelSubsystem::SplitIo.name()) {
            Some(KernelSubsystem::SplitIo)
        } else if same_text(name, KernelSubsystem::SystemCall.name()) {
            Some(KernelSubsystem::SystemCall)
        } else if same_text(name, KernelSubsystem::Registry.name()) {
            Some(KernelSubsystem::Registry)
        } else if same_text(name, KernelSubsystem::Profile.name()) {
            Some(KernelSubsystem::Profile)
        } else if same_text(name, KernelSubsystem::ProcessCounter.name()) {
            Some(KernelSubsystem::ProcessCounter)
        } else if same_text(name, KernelSubsystem::Process.name()) {
            Some(KernelSubsystem::Process)
        } else if same_text(name, KernelSubsystem::TcpIp.name()) {
            Some(KernelSubsystem::TcpIp)
        } else if same_text(name, KernelSubsystem::MemoryPageFault.name()) {
            Some(KernelSubsystem::MemoryPageFault)
        } else if same_text(name, KernelSubsystem::MemoryHardFault.name()) {
            Some(KernelSubsystem::MemoryHardFault)
        } else if same_text(name, KernelSubsystem::Interrupt.name()) {
            Some(KernelSubsystem::Interrupt)
        } else if same_text(name, KernelSubsystem::Driver.name()) {
            Some(KernelSubsystem::Driver)
        } else if same_text(name, KernelSubsystem::Dpc.name()) {
            Some(KernelSubsystem::Dpc)
        } else if same_text(name, KernelSubsystem::ImageLoad.name()) {
            Some(KernelSubsystem::ImageLoad)
        } else if same_text(name, KernelSubsystem::ThreadDispatcher.name()) {
            Some(KernelSubsystem::ThreadDispatcher)
        } else if same_text(name, KernelSubsystem::FileInitIo.name()) {
            Some(KernelSubsystem::FileInitIo)
        } else if same_text(name, KernelSubsystem::FileIo.name()) {
            Some(KernelSubsystem::FileIo)
        } else if same_text(name, KernelSubsystem::DiskIoInit.name()) {
            Some(KernelSubsystem::DiskIoInit)
        } else if same_text(name, KernelSubsystem::DiskIo.name()) {
            Some(KernelSubsystem::DiskIo)
        } else if same_text(name, KernelSubsystem::DiskFileIo.name()) {
            Some(KernelSubsystem::DiskFileIo)
        } else if same_text(name, KernelSubsystem::DebugPrint.name()) {
            Some(KernelSubsystem::DebugPrint)
        } else if same_text(name, KernelSubsystem::ContextSwitch.name()) {
            Some(KernelSubsystem::ContextSwitch)
        } else if same_text(name, KernelSubsystem::Alpc.name()) {
            Some(KernelSubsystem::Alpc)
        } else {
            None
        }
    }
}

/// Looks up the entry of the subsystem that goes by the name `name`.
pub fn lookup(name: &str) -> (found: Option<KernelProvider>)
    ensures
        match found {
            Some(provider) => exists|subsystem: KernelSubsystem|
                name_of(subsystem) == name@ && provider == entry_of(subsystem),
            None => forall|subsystem: KernelSubsystem| name_of(subsystem) != name@,
        },
{
    match KernelSubsystem::from_name(name) {
        Some(subsystem) => Some(subsystem.provider()),
        None => None,
    }
}

/// Decides whether two texts are the same.
fn same_text(a: &str, b: &str) -> (same: bool)
    ensures
        same == (a@ == b@),
{
    let n: usize = a.unicode_len();
    if n != b.unicode_len() {
        return false;
    }
    let mut i: usize = 0;
    while i < n
        invariant
            i <= n,
            n == a@.len(),
            n == b@.len(),
            forall|j: int| 0 <= j < i ==> a@[j] == b@[j],
        decreases n - i,
    {
        if a.get_char(i) != b.get_char(i) {
            return false;
        }
        i += 1;
    }
    assert(a@ =~= b@);
    true
}

/// No two subsystems go by the same name.
pub proof fn lemma_names_are_distinct(a: KernelSubsystem, b: KernelSubsystem)
    requires
        a != b,
    ensures
        name_of(a) != name_of(b),
{
    reveal_strlit("virtual alloc");
    reveal_strlit("VA map");
    reveal_strlit("thread");
    reveal_strlit("split I/O");
    reveal_strlit("system call");
    reveal_strlit("registry");
    reveal_strlit("profile");
    reveal_strlit("process counter");
    reveal_strlit("process");
    reveal_strlit("network TCP/IP");
    reveal_strlit("memory page fault");
    reveal_strlit("memory hard fault");
    reveal_strlit("interrupt");
    reveal_strlit("driver");
    reveal_strlit("DPC");
    reveal_strlit("image load");
    reveal_strlit("thread dispatcher");
    reveal_strlit("file I/O init");
    reveal_strlit("file I/O");
    reveal_strlit("disk I/O init");
    reveal_strlit("disk I/O");
    reveal_strlit("disk file I/O");
    reveal_strlit("debug print");
    reveal_strlit("context switch");
    reveal_strlit("ALPC");
    let x = name_of(a);
    let y = name_of(b);
    assert(x.len() != y.len() || (x.len() > 3 && x[3] != y[3]) || (x.len() > 7 && x[7] != y[7]));
}

/// A lookup by name returns at most one subsystem: what is found for the
/// name of a subsystem is that subsystem.
pub proof fn lemma_name_finds_subsystem(subsystem: KernelSubsystem, found: Option<KernelSubsystem>)
    requires
        is_subsystem_named(name_of(subsystem), found),
    ensures
        found == Some(subsystem),
{
    if found is Some && found->0 != subsystem {
        lemma_names_are_distinct(found->0, subsystem);
    }
}

/// No two subsystems have the same entry: entries with the same identifier
/// differ in their enable flag.
pub proof fn lemma_entries_are_distinct(a: KernelSubsystem, b: KernelSubsystem)
    requires
        a != b,
    ensures
        flag_of(a) != flag_of(b),
        entry_of(a) != entry_of(b),
{
}

} // verus!
