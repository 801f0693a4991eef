//! Hypervisor ABI: operation numbers, layout constants, and the packed
//! descriptors that cross the privileged command device.
//!
//! Every descriptor is produced as a little-endian byte image whose
//! layout the contracts pin down byte by byte, so the unverified shell
//! only forwards buffers and never assembles ABI data itself.

use vstd::bytes::*;
use vstd::prelude::*;
use vstd::slice::{slice_subrange, slice_to_vec};

verus! {

/// Holds when every byte of `s` from position `from` on is zero.
pub open spec fn zeroed_from(s: Seq<u8>, from: int) -> bool {
    forall|i: int| from <= i < s.len() ==> s[i] == 0u8
}

/// Appends the two-byte little-endian image of `v`.
pub fn push_u16(out: &mut Vec<u8>, v: u16)
    ensures
        final(out)@ == old(out)@ + spec_u16_to_le_bytes(v),
        final(out)@.len() == old(out)@.len() + 2,
        forall|i: int| #![trigger final(out)@[i]] 0 <= i < old(out)@.len() ==> final(out)@[i]
            == old(out)@[i],
        forall|i: int| #![trigger final(out)@[i]]
            old(out)@.len() <= i < final(out)@.len() ==> final(out)@[i] == spec_u16_to_le_bytes(
                v,
            )[i - old(out)@.len()],
{
    let mut bytes = u16_to_le_bytes(v);
    out.append(&mut bytes);
}

/// Appends the four-byte little-endian image of `v`.
pub fn push_u32(out: &mut Vec<u8>, v: u32)
    ensures
        final(out)@ == old(out)@ + spec_u32_to_le_bytes(v),
        final(out)@.len() == old(out)@.len() + 4,
        forall|i: int| #![trigger final(out)@[i]] 0 <= i < old(out)@.len() ==> final(out)@[i]
            == old(out)@[i],
        forall|i: int| #![trigger final(out)@[i]]
            old(out)@.len() <= i < final(out)@.len() ==> final(out)@[i] == spec_u32_to_le_bytes(
                v,
            )[i - old(out)@.len()],
{
    let mut bytes = u32_to_le_bytes(v);
    out.append(&mut bytes);
}

/// Appends the eight-byte little-endian image of `v`.
pub fn push_u64(out: &mut Vec<u8>, v: u64)
    ensures
        final(out)@ == old(out)@ + spec_u64_to_le_bytes(v),
        final(out)@.len() == old(out)@.len() + 8,
        forall|i: int| #![trigger final(out)@[i]] 0 <= i < old(out)@.len() ==> final(out)@[i]
            == old(out)@[i],
        forall|i: int| #![trigger final(out)@[i]]
            old(out)@.len() <= i < final(out)@.len() ==> final(out)@[i] == spec_u64_to_le_bytes(
                v,
            )[i - old(out)@.len()],
{
    let mut bytes = u64_to_le_bytes(v);
    out.append(&mut bytes);
}

/// Appends `n` zero bytes.
pub fn push_zeros(out: &mut Vec<u8>, n: usize)
    ensures
        final(out)@.len() == old(out)@.len() + n,
        final(out)@.subrange(0, old(out)@.len() as int) == old(out)@,
        forall|i: int| #![trigger final(out)@[i]] 0 <= i < old(out)@.len() ==> final(out)@[i]
            == old(out)@[i],
        zeroed_from(final(out)@, old(out)@.len() as int),
{
    let mut i: usize = 0;
    while i < n
        invariant
            i <= n,
            out@.len() == old(out)@.len() + i,
            out@.subrange(0, old(out)@.len() as int) == old(out)@,
            zeroed_from(out@, old(out)@.len() as int),
        decreases n - i,
    {
        out.push(0u8);
        assert(out@.subrange(0, old(out)@.len() as int) =~= old(out)@);
        i = i + 1;
    }
}

/// A segment of a preserved prefix is itself preserved.
pub proof fn lemma_segment_of_prefix(whole: Seq<u8>, prefix: Seq<u8>, a: int, b: int)
    requires
        whole.len() >= prefix.len(),
        whole.subrange(0, prefix.len() as int) == prefix,
        0 <= a <= b <= prefix.len(),
    ensures
        whole.subrange(a, b) == prefix.subrange(a, b),
{
    assert forall|i: int| 0 <= i < b - a implies whole.subrange(a, b)[i] == prefix.subrange(
        a,
        b,
    )[i] by {
        assert(whole.subrange(0, prefix.len() as int)[a + i] == whole[a + i]);
    }
    assert(whole.subrange(a, b) =~= prefix.subrange(a, b));
}

/// Reads the two-byte little-endian value at `off`.
pub fn read_u16_le(b: &[u8], off: usize) -> (r: u16)
    requires
        off + 2 <= b@.len(),
    ensures
        r == spec_u16_from_le_bytes(b@.subrange(off as int, off as int + 2)),
{
    let _len = b.len();
    u16_from_le_bytes(slice_subrange(b, off, off + 2))
}

/// Reads the four-byte little-endian value at `off`.
pub fn read_u32_le(b: &[u8], off: usize) -> (r: u32)
    requires
        off + 4 <= b@.len(),
    ensures
        r == spec_u32_from_le_bytes(b@.subrange(off as int, off as int + 4)),
{
    let _len = b.len();
    u32_from_le_bytes(slice_subrange(b, off, off + 4))
}

/// Reads the eight-byte little-endian value at `off`.
pub fn read_u64_le(b: &[u8], off: usize) -> (r: u64)
    requires
        off + 8 <= b@.len(),
    ensures
        r == spec_u64_from_le_bytes(b@.subrange(off as int, off as int + 8)),
{
    let _len = b.len();
    u64_from_le_bytes(slice_subrange(b, off, off + 8))
}

/// Hypercall number of the domain-control family.
pub const HYPERVISOR_DOMCTL: u64 = 36;
/// Hypercall number of the memory-operation family.
pub const HYPERVISOR_MEMORY_OP: u64 = 12;
/// Hypercall number of the multicall entry point.
pub const HYPERVISOR_MULTICALL: u64 = 13;
/// Hypercall number of the version/capabilities queries.
pub const HYPERVISOR_XEN_VERSION: u64 = 17;
/// Hypercall number of the extended MMU operations.
pub const HYPERVISOR_MMUEXT_OP: u64 = 26;
/// Hypercall number of the event-channel operations.
pub const HYPERVISOR_EVENT_CHANNEL_OP: u64 = 32;

/// Version subop that fills a capabilities string buffer.
pub const XENVER_CAPABILITIES: u64 = 3;

/// Domain-control command: create a domain.
pub const XEN_DOMCTL_CREATEDOMAIN: u32 = 1;
/// Domain-control command: destroy a domain.
pub const XEN_DOMCTL_DESTROYDOMAIN: u32 = 2;
/// Domain-control command: pause a domain.
pub const XEN_DOMCTL_PAUSEDOMAIN: u32 = 3;
/// Domain-control command: unpause a domain.
pub const XEN_DOMCTL_UNPAUSEDOMAIN: u32 = 4;
/// Domain-control command: query domain information.
pub const XEN_DOMCTL_GETDOMAININFO: u32 = 5;
/// Domain-control command: set the memory ceiling.
pub const XEN_DOMCTL_MAX_MEM: u32 = 11;
/// Domain-control command: install a vCPU context.
pub const XEN_DOMCTL_SETVCPUCONTEXT: u32 = 12;
/// Domain-control command: read a vCPU context.
pub const XEN_DOMCTL_GETVCPUCONTEXT: u32 = 13;
/// Domain-control command: set the vCPU ceiling.
pub const XEN_DOMCTL_MAX_VCPUS: u32 = 15;
/// Domain-control command: initialise the hypercall page.
pub const XEN_DOMCTL_HYPERCALL_INIT: u32 = 22;
/// Domain-control command: select the guest address size.
pub const XEN_DOMCTL_SET_ADDRESS_SIZE: u32 = 36;
/// Domain-control command: query page-frame types in place.
pub const XEN_DOMCTL_GETPAGEFRAMEINFO3: u32 = 64;

/// Memory operation: populate the guest physmap.
pub const XEN_MEM_POPULATE_PHYSMAP: u64 = 6;
/// Memory operation: query the pseudo-physical memory map.
pub const XEN_MEM_MEMORY_MAP: u64 = 9;
/// Memory operation: stake a claim on free pages.
pub const XEN_MEM_CLAIM_PAGES: u64 = 24;

/// Event-channel subop that allocates an unbound port.
pub const EVTCHNOP_ALLOC_UNBOUND: u64 = 6;

/// The errno the pager reports for a frame that is currently paged out;
/// batched mappings that see it are retried rather than failed.
pub const ENOENT_ERRNO: i32 = 2;

/// Lowest domain-control interface version this build negotiates.
pub const XEN_DOMCTL_MIN_INTERFACE_VERSION: u32 = 13;
/// Highest domain-control interface version this build negotiates.
pub const XEN_DOMCTL_MAX_INTERFACE_VERSION: u32 = 21;

/// log2 of the hypervisor's page granularity.
pub const XEN_PAGE_SHIFT: u64 = 12;
/// The hypervisor's page granularity in bytes.
pub const XEN_PAGE_SIZE: u64 = 4096;
/// log2 of the host architecture's page granularity.
pub const ARCH_PAGE_SHIFT: u64 = 12;

/// Size in bytes of the domain-control union payload area.
pub const DOMCTL_PAYLOAD_LEN: usize = 128;
/// Size in bytes of a full domain-control descriptor: a 16-byte header
/// (command, interface version, domain id, alignment padding) followed
/// by the payload area.
pub const DOMCTL_LEN: usize = 144;

/// A generic hypercall descriptor: the operation number and its five
/// native-word arguments, exactly as the command device expects them.
#[derive(Debug, Clone, Copy, PartialEq, Eq)]
pub struct Hypercall {
    /// Hypercall operation number.
    pub op: u64,
    /// The five argument slots; unused slots are zero.
    pub arg: [u64; 5],
}

/// An all-zero domain-control payload, used by every command that
/// carries no argument, and as the canvas the typed builders write into.
/// Zero-padding the unused area keeps the kernel from observing garbage.
pub fn zero_payload() -> (r: Vec<u8>)
    ensures
        r@.len() == DOMCTL_PAYLOAD_LEN,
        zeroed_from(r@, 0),
{
    let mut out: Vec<u8> = Vec::new();
    push_zeros(&mut out, DOMCTL_PAYLOAD_LEN);
    out
}

/// Payload of the set-max-memory command: the ceiling in kilobytes.
pub fn max_mem_payload(max_memkb: u64) -> (r: Vec<u8>)
    ensures
        r@.len() == DOMCTL_PAYLOAD_LEN,
        r@.subrange(0, 8) == spec_u64_to_le_bytes(max_memkb),
        zeroed_from(r@, 8),
{
    let mut out: Vec<u8> = Vec::new();
    push_u64(&mut out, max_memkb);
    push_zeros(&mut out, DOMCTL_PAYLOAD_LEN - 8);
    proof {
        assert(out@.subrange(0, 8) =~= spec_u64_to_le_bytes(max_memkb));
    }
    out
}

/// Payload of the set-max-vcpus command.
pub fn max_vcpus_payload(max_vcpus: u32) -> (r: Vec<u8>)
    ensures
        r@.len() == DOMCTL_PAYLOAD_LEN,
        r@.subrange(0, 4) == spec_u32_to_le_bytes(max_vcpus),
        zeroed_from(r@, 4),
{
    let mut out: Vec<u8> = Vec::new();
    push_u32(&mut out, max_vcpus);
    push_zeros(&mut out, DOMCTL_PAYLOAD_LEN - 4);
    proof {
        assert(out@.subrange(0, 4) =~= spec_u32_to_le_bytes(max_vcpus));
    }
    out
}

/// Payload of the set-address-size command: the guest word width in bits.
pub fn address_size_payload(size: u32) -> (r: Vec<u8>)
    ensures
        r@.len() == DOMCTL_PAYLOAD_LEN,
        r@.subrange(0, 4) == spec_u32_to_le_bytes(size),
        zeroed_from(r@, 4),
{
    let mut out: Vec<u8> = Vec::new();
    push_u32(&mut out, size);
    push_zeros(&mut out, DOMCTL_PAYLOAD_LEN - 4);
    proof {
        assert(out@.subrange(0, 4) =~= spec_u32_to_le_bytes(size));
    }
    out
}

/// Payload of the hypercall-page initialisation command: the guest frame
/// that receives the hypercall page.
pub fn hypercall_init_payload(gmfn: u64) -> (r: Vec<u8>)
    ensures
        r@.len() == DOMCTL_PAYLOAD_LEN,
        r@.subrange(0, 8) == spec_u64_to_le_bytes(gmfn),
        zeroed_from(r@, 8),
{
    let mut out: Vec<u8> = Vec::new();
    push_u64(&mut out, gmfn);
    push_zeros(&mut out, DOMCTL_PAYLOAD_LEN - 8);
    proof {
        assert(out@.subrange(0, 8) =~= spec_u64_to_le_bytes(gmfn));
    }
    out
}

/// Payload of the get/set vCPU context commands: the vCPU index followed,
/// eight-byte aligned, by the host address of the caller-owned context
/// buffer. That buffer must stay live until the kernel returns.
pub fn vcpu_context_payload(vcpu: u32, ctx_addr: u64) -> (r: Vec<u8>)
    ensures
        r@.len() == DOMCTL_PAYLOAD_LEN,
        r@.subrange(0, 4) == spec_u32_to_le_bytes(vcpu),
        r@.subrange(4, 8) == seq![0u8, 0u8, 0u8, 0u8],
        r@.subrange(8, 16) == spec_u64_to_le_bytes(ctx_addr),
        zeroed_from(r@, 16),
{
    let mut out: Vec<u8> = Vec::new();
    push_u32(&mut out, vcpu);
    push_zeros(&mut out, 4);
    push_u64(&mut out, ctx_addr);
    let ghost head = out@;
    push_zeros(&mut out, DOMCTL_PAYLOAD_LEN - 16);
    proof {
        lemma_segment_of_prefix(out@, head, 0, 4);
        lemma_segment_of_prefix(out@, head, 4, 8);
        lemma_segment_of_prefix(out@, head, 8, 16);
        assert(head.subrange(0, 4) =~= spec_u32_to_le_bytes(vcpu));
        assert(head.subrange(4, 8) =~= seq![0u8, 0u8, 0u8, 0u8]);
        assert(head.subrange(8, 16) =~= spec_u64_to_le_bytes(ctx_addr));
    }
    out
}

/// Payload of the page-frame-info command: the element count and the host
/// address of the caller-owned frame array the kernel rewrites in place.
pub fn page_frame_info_payload(num: u64, array_addr: u64) -> (r: Vec<u8>)
    ensures
        r@.len() == DOMCTL_PAYLOAD_LEN,
        r@.subrange(0, 8) == spec_u64_to_le_bytes(num),
        r@.subrange(8, 16) == spec_u64_to_le_bytes(array_addr),
        zeroed_from(r@, 16),
{
    let mut out: Vec<u8> = Vec::new();
    push_u64(&mut out, num);
    push_u64(&mut out, array_addr);
    let ghost head = out@;
    push_zeros(&mut out, DOMCTL_PAYLOAD_LEN - 16);
    proof {
        lemma_segment_of_prefix(out@, head, 0, 8);
        lemma_segment_of_prefix(out@, head, 8, 16);
        assert(head.subrange(0, 8) =~= spec_u64_to_le_bytes(num));
        assert(head.subrange(8, 16) =~= spec_u64_to_le_bytes(array_addr));
    }
    out
}

/// Creation parameters of a new domain. The byte image of this record is
/// the payload of the create-domain command; the hypervisor assigns the
/// new domain id into the descriptor header.
#[derive(Debug, Clone)]
pub struct CreateDomain {
    /// Security identifier reference.
    pub ssidref: u32,
    /// 16-byte domain handle (a caller-chosen UUID).
    pub handle: Vec<u8>,
    /// Creation flags.
    pub flags: u32,
    /// IOMMU options.
    pub iommu_opts: u32,
    /// Ceiling on the number of vCPUs.
    pub max_vcpus: u32,
    /// Ceiling on event-channel ports.
    pub max_evtchn_port: u32,
    /// Ceiling on grant-table frames.
    pub max_grant_frames: u32,
    /// Ceiling on maptrack frames.
    pub max_maptrack_frames: u32,
}

impl CreateDomain {
    /// A creation record is well formed when its handle is exactly the
    /// 16 bytes the ABI reserves for it.
    pub open spec fn wf(&self) -> bool {
        self.handle@.len() == 16
    }
}

impl Default for CreateDomain {
    /// All-zero creation parameters with a zero handle.
    fn default() -> (r: CreateDomain)
        ensures
            r.wf(),
            r.ssidref == 0,
            r.flags == 0,
            r.iommu_opts == 0,
            r.max_vcpus == 0,
            r.max_evtchn_port == 0,
            r.max_grant_frames == 0,
            r.max_maptrack_frames == 0,
            zeroed_from(r.handle@, 0),
    {
        let mut handle: Vec<u8> = Vec::new();
        push_zeros(&mut handle, 16);
        CreateDomain {
            ssidref: 0,
            handle,
            flags: 0,
            iommu_opts: 0,
            max_vcpus: 0,
            max_evtchn_port: 0,
            max_grant_frames: 0,
            max_maptrack_frames: 0,
        }
    }
}

/// Payload of the create-domain command: the creation record laid out as
/// the hypervisor headers dictate, zero-padded to the payload size.
pub fn create_domain_payload(cd: &CreateDomain) -> (r: Vec<u8>)
    requires
        cd.wf(),
    ensures
        r@.len() == DOMCTL_PAYLOAD_LEN,
        r@.subrange(0, 4) == spec_u32_to_le_bytes(cd.ssidref),
        r@.subrange(4, 20) == cd.handle@,
        r@.subrange(20, 24) == spec_u32_to_le_bytes(cd.flags),
        r@.subrange(24, 28) == spec_u32_to_le_bytes(cd.iommu_opts),
        r@.subrange(28, 32) == spec_u32_to_le_bytes(cd.max_vcpus),
        r@.subrange(32, 36) == spec_u32_to_le_bytes(cd.max_evtchn_port),
        r@.subrange(36, 40) == spec_u32_to_le_bytes(cd.max_grant_frames),
        r@.subrange(40, 44) == spec_u32_to_le_bytes(cd.max_maptrack_frames),
        zeroed_from(r@, 44),
{
    let mut out: Vec<u8> = Vec::new();
    push_u32(&mut out, cd.ssidref);
    let mut i: usize = 0;
    while i < 16
        invariant
            i <= 16,
            cd.wf(),
            out@.len() == 4 + i,
            forall|j: int| 0 <= j < 4 ==> out@[j] == spec_u32_to_le_bytes(cd.ssidref)[j],
            forall|j: int| 0 <= j < i ==> out@[4 + j] == cd.handle@[j],
        decreases 16 - i,
    {
        out.push(cd.handle[i]);
        i = i + 1;
    }
    push_u32(&mut out, cd.flags);
    push_u32(&mut out, cd.iommu_opts);
    push_u32(&mut out, cd.max_vcpus);
    push_u32(&mut out, cd.max_evtchn_port);
    push_u32(&mut out, cd.max_grant_frames);
    push_u32(&mut out, cd.max_maptrack_frames);
    push_zeros(&mut out, DOMCTL_PAYLOAD_LEN - 44);
    proof {
        assert(out@.subrange(0, 4) =~= spec_u32_to_le_bytes(cd.ssidref));
        assert(out@.subrange(4, 20) =~= cd.handle@);
        assert(out@.subrange(20, 24) =~= spec_u32_to_le_bytes(cd.flags));
        assert(out@.subrange(24, 28) =~= spec_u32_to_le_bytes(cd.iommu_opts));
        assert(out@.subrange(28, 32) =~= spec_u32_to_le_bytes(cd.max_vcpus));
        assert(out@.subrange(32, 36) =~= spec_u32_to_le_bytes(cd.max_evtchn_port));
        assert(out@.subrange(36, 40) =~= spec_u32_to_le_bytes(cd.max_grant_frames));
        assert(out@.subrange(40, 44) =~= spec_u32_to_le_bytes(cd.max_maptrack_frames));
    }
    out
}

/// A domain-control descriptor: the 16-byte header plus the opaque
/// 128-byte union payload, produced by the typed payload builders.
#[derive(Debug, Clone)]
pub struct DomCtl {
    /// Domain-control command number.
    pub cmd: u32,
    /// The negotiated interface version the kernel expects.
    pub interface_version: u32,
    /// Target domain id.
    pub domid: u32,
    /// The union payload area, always exactly the payload size.
    pub payload: Vec<u8>,
}

impl DomCtl {
    /// A descriptor is well formed when its payload fills the union area
    /// exactly.
    pub open spec fn wf(&self) -> bool {
        self.payload@.len() == DOMCTL_PAYLOAD_LEN
    }

    /// The full byte image handed to the kernel: command, interface
    /// version, domain id, four bytes of alignment padding, payload.
    pub fn encode(&self) -> (r: Vec<u8>)
        requires
            self.wf(),
        ensures
            r@.len() == DOMCTL_LEN,
            r@.subrange(0, 4) == spec_u32_to_le_bytes(self.cmd),
            r@.subrange(4, 8) == spec_u32_to_le_bytes(self.interface_version),
            r@.subrange(8, 12) == spec_u32_to_le_bytes(self.domid),
            r@.subrange(12, 16) == seq![0u8, 0u8, 0u8, 0u8],
            r@.subrange(16, DOMCTL_LEN as int) == self.payload@,
    {
        let mut out: Vec<u8> = Vec::new();
        push_u32(&mut out, self.cmd);
        push_u32(&mut out, self.interface_version);
        push_u32(&mut out, self.domid);
        push_zeros(&mut out, 4);
        let mut i: usize = 0;
        while i < self.payload.len()
            invariant
                i <= self.payload@.len(),
                out@.len() == 16 + i,
                forall|j: int| 0 <= j < 4 ==> out@[j] == spec_u32_to_le_bytes(self.cmd)[j],
                forall|j: int| 0 <= j < 4 ==> out@[4 + j] == spec_u32_to_le_bytes(
                    self.interface_version,
                )[j],
                forall|j: int| 0 <= j < 4 ==> out@[8 + j] == spec_u32_to_le_bytes(self.domid)[j],
                forall|j: int| 0 <= j < 4 ==> #[trigger] out@[12 + j] == 0u8,
                forall|j: int| 0 <= j < i ==> out@[16 + j] == self.payload@[j],
            decreases self.payload@.len() - i,
        {
            out.push(self.payload[i]);
            i = i + 1;
        }
        proof {
            assert(out@.subrange(16, DOMCTL_LEN as int) =~= self.payload@);
            assert(out@.subrange(0, 4) =~= spec_u32_to_le_bytes(self.cmd));
            assert(out@.subrange(4, 8) =~= spec_u32_to_le_bytes(self.interface_version));
            assert(out@.subrange(8, 12) =~= spec_u32_to_le_bytes(self.domid));
            assert forall|j: int| 0 <= j < 4 implies out@.subrange(12, 16)[j] == 0u8 by {
                assert(out@[12 + j] == 0u8);
            }
            assert(out@.subrange(12, 16) =~= seq![0u8, 0u8, 0u8, 0u8]);
        }
        out
    }
}

/// The domain id the kernel wrote back into a descriptor image, read
/// from the header after a call that assigns one.
pub fn domctl_domid(image: &[u8]) -> (r: u32)
    requires
        image@.len() == DOMCTL_LEN,
    ensures
        r == spec_u32_from_le_bytes(image@.subrange(8, 12)),
{
    read_u32_le(image, 8)
}

/// The payload area of a descriptor image the kernel has filled in.
pub fn domctl_payload(image: &[u8]) -> (r: Vec<u8>)
    requires
        image@.len() == DOMCTL_LEN,
    ensures
        r@ == image@.subrange(16, DOMCTL_LEN as int),
{
    slice_to_vec(slice_subrange(image, 16, DOMCTL_LEN))
}

/// Domain information as the get-domain-info command reports it, decoded
/// from the payload area the kernel filled in.
#[derive(Debug, Clone)]
pub struct GetDomainInfo {
    /// The domain the record describes.
    pub domid: u16,
    /// State flags (dying, shutdown, paused, blocked, running, ...).
    pub flags: u32,
    /// Pages currently owned by the domain.
    pub total_pages: u64,
    /// Page ceiling of the domain.
    pub max_pages: u64,
    /// Pages claimed but not yet owned.
    pub outstanding_pages: u64,
    /// Pages shared with other domains.
    pub shr_pages: u64,
    /// Pages currently paged out.
    pub paged_pages: u64,
    /// Machine frame of the shared-info page.
    pub shared_info_frame: u64,
    /// Accumulated CPU time in nanoseconds.
    pub cpu_time: u64,
    /// Number of online vCPUs.
    pub number_online_vcpus: u32,
    /// Highest vCPU id in use.
    pub max_vcpu_id: u32,
    /// Security identifier reference.
    pub ssidref: u32,
    /// The 16-byte domain handle.
    pub handle: Vec<u8>,
    /// The CPU pool the domain runs in.
    pub cpupool: u32,
    /// Width of a guest physical address in bits.
    pub gpaddr_bits: u8,
}

/// Flag bit of [`GetDomainInfo::flags`]: the domain is paused.
pub const XEN_DOMINF_PAUSED: u32 = 8;

impl GetDomainInfo {
    /// Whether the paused flag is set in this record.
    pub fn paused(&self) -> (r: bool)
        ensures
            r == (self.flags & XEN_DOMINF_PAUSED != 0),
    {
        self.flags & XEN_DOMINF_PAUSED != 0
    }
}

/// Decodes the get-domain-info record from a payload area the kernel has
/// overwritten, field by field at the offsets the ABI dictates.
pub fn decode_domain_info(payload: &[u8]) -> (r: GetDomainInfo)
    requires
        payload@.len() == DOMCTL_PAYLOAD_LEN,
    ensures
        r.domid == spec_u16_from_le_bytes(payload@.subrange(0, 2)),
        r.flags == spec_u32_from_le_bytes(payload@.subrange(4, 8)),
        r.total_pages == spec_u64_from_le_bytes(payload@.subrange(8, 16)),
        r.max_pages == spec_u64_from_le_bytes(payload@.subrange(16, 24)),
        r.outstanding_pages == spec_u64_from_le_bytes(payload@.subrange(24, 32)),
        r.shr_pages == spec_u64_from_le_bytes(payload@.subrange(32, 40)),
        r.paged_pages == spec_u64_from_le_bytes(payload@.subrange(40, 48)),
        r.shared_info_frame == spec_u64_from_le_bytes(payload@.subrange(48, 56)),
        r.cpu_time == spec_u64_from_le_bytes(payload@.subrange(56, 64)),
        r.number_online_vcpus == spec_u32_from_le_bytes(payload@.subrange(64, 68)),
        r.max_vcpu_id == spec_u32_from_le_bytes(payload@.subrange(68, 72)),
        r.ssidref == spec_u32_from_le_bytes(payload@.subrange(72, 76)),
        r.handle@ == payload@.subrange(76, 92),
        r.cpupool == spec_u32_from_le_bytes(payload@.subrange(92, 96)),
        r.gpaddr_bits == payload@[96],
{
    GetDomainInfo {
        domid: read_u16_le(payload, 0),
        flags: read_u32_le(payload, 4),
        total_pages: read_u64_le(payload, 8),
        max_pages: read_u64_le(payload, 16),
        outstanding_pages: read_u64_le(payload, 24),
        shr_pages: read_u64_le(payload, 32),
        paged_pages: read_u64_le(payload, 40),
        shared_info_frame: read_u64_le(payload, 48),
        cpu_time: read_u64_le(payload, 56),
        number_online_vcpus: read_u32_le(payload, 64),
        max_vcpu_id: read_u32_le(payload, 68),
        ssidref: read_u32_le(payload, 72),
        handle: slice_to_vec(slice_subrange(payload, 76, 92)),
        cpupool: read_u32_le(payload, 92),
        gpaddr_bits: *vstd::slice::slice_index_get(payload, 96),
    }
}

/// The event-channel record that requests an unbound port between two
/// domains; the kernel writes the allocated port back into it.
#[derive(Debug, Clone, Copy, PartialEq, Eq, Structural)]
pub struct EvtChnAllocUnbound {
    /// Domain that will own the new port.
    pub dom: u16,
    /// Domain the port is to be bound from.
    pub remote_dom: u16,
    /// The allocated port, written by the kernel.
    pub port: u32,
}

impl EvtChnAllocUnbound {
    /// The byte image handed to the event-channel hypercall.
    pub fn encode(&self) -> (r: Vec<u8>)
        ensures
            r@.len() == 8,
            r@.subrange(0, 2) == spec_u16_to_le_bytes(self.dom),
            r@.subrange(2, 4) == spec_u16_to_le_bytes(self.remote_dom),
            r@.subrange(4, 8) == spec_u32_to_le_bytes(self.port),
    {
        let mut out: Vec<u8> = Vec::new();
        push_u16(&mut out, self.dom);
        push_u16(&mut out, self.remote_dom);
        push_u32(&mut out, self.port);
        proof {
            assert(out@.subrange(0, 2) =~= spec_u16_to_le_bytes(self.dom));
            assert(out@.subrange(2, 4) =~= spec_u16_to_le_bytes(self.remote_dom));
            assert(out@.subrange(4, 8) =~= spec_u32_to_le_bytes(self.port));
        }
        out
    }
}

/// The port the kernel wrote back into an unbound-allocation image.
pub fn evtchn_port(image: &[u8]) -> (r: u32)
    requires
        image@.len() == 8,
    ensures
        r == spec_u32_from_le_bytes(image@.subrange(4, 8)),
{
    read_u32_le(image, 4)
}

/// A memory reservation: the argument block of the populate-physmap and
/// claim-pages memory operations.
#[derive(Debug, Clone, Copy, PartialEq, Eq, Structural)]
pub struct MemoryReservation {
    /// Host address of the extent-start array, or zero when unused.
    pub extent_start: u64,
    /// Number of extents requested.
    pub nr_extents: u64,
    /// log2 of pages per extent.
    pub extent_order: u32,
    /// Allocation flags.
    pub mem_flags: u32,
    /// Target domain id.
    pub domid: u16,
}

impl MemoryReservation {
    /// The byte image handed to the memory-operation hypercall,
    /// zero-padded to its eight-byte-aligned size.
    pub fn encode(&self) -> (r: Vec<u8>)
        ensures
            r@.len() == 32,
            r@.subrange(0, 8) == spec_u64_to_le_bytes(self.extent_start),
            r@.subrange(8, 16) == spec_u64_to_le_bytes(self.nr_extents),
            r@.subrange(16, 20) == spec_u32_to_le_bytes(self.extent_order),
            r@.subrange(20, 24) == spec_u32_to_le_bytes(self.mem_flags),
            r@.subrange(24, 26) == spec_u16_to_le_bytes(self.domid),
            zeroed_from(r@, 26),
    {
        let mut out: Vec<u8> = Vec::new();
        push_u64(&mut out, self.extent_start);
        push_u64(&mut out, self.nr_extents);
        push_u32(&mut out, self.extent_order);
        push_u32(&mut out, self.mem_flags);
        push_u16(&mut out, self.domid);
        push_zeros(&mut out, 6);
        proof {
            assert(out@.subrange(0, 8) =~= spec_u64_to_le_bytes(self.extent_start));
            assert(out@.subrange(8, 16) =~= spec_u64_to_le_bytes(self.nr_extents));
            assert(out@.subrange(16, 20) =~= spec_u32_to_le_bytes(self.extent_order));
            assert(out@.subrange(20, 24) =~= spec_u32_to_le_bytes(self.mem_flags));
            assert(out@.subrange(24, 26) =~= spec_u16_to_le_bytes(self.domid));
        }
        out
    }
}

/// One entry of a multicall bundle: an operation, a result slot the
/// kernel writes, and six arguments.
#[derive(Debug, Clone, Copy, PartialEq, Eq)]
pub struct MultiCallEntry {
    /// Hypercall operation number.
    pub op: u64,
    /// Result slot, written by the kernel.
    pub result: u64,
    /// The six argument slots.
    pub args: [u64; 6],
}

impl MultiCallEntry {
    /// The 64-byte image of this entry: op, result, then the arguments.
    pub fn encode(&self) -> (r: Vec<u8>)
        ensures
            r@.len() == 64,
            r@.subrange(0, 8) == spec_u64_to_le_bytes(self.op),
            r@.subrange(8, 16) == spec_u64_to_le_bytes(self.result),
            forall|k: int|
                0 <= k < 6 ==> r@.subrange(16 + 8 * k, 24 + 8 * k) == spec_u64_to_le_bytes(
                    self.args@[k],
                ),
    {
        let mut out: Vec<u8> = Vec::new();
        push_u64(&mut out, self.op);
        push_u64(&mut out, self.result);
        push_u64(&mut out, self.args[0]);
        push_u64(&mut out, self.args[1]);
        push_u64(&mut out, self.args[2]);
        push_u64(&mut out, self.args[3]);
        push_u64(&mut out, self.args[4]);
        push_u64(&mut out, self.args[5]);
        proof {
            assert(out@.subrange(0, 8) =~= spec_u64_to_le_bytes(self.op));
            assert(out@.subrange(8, 16) =~= spec_u64_to_le_bytes(self.result));
            assert forall|k: int| 0 <= k < 6 implies out@.subrange(16 + 8 * k, 24 + 8 * k)
                =~= spec_u64_to_le_bytes(self.args@[k]) by {
                assert(out@.subrange(16, 24) =~= spec_u64_to_le_bytes(self.args@[0]));
                assert(out@.subrange(24, 32) =~= spec_u64_to_le_bytes(self.args@[1]));
                assert(out@.subrange(32, 40) =~= spec_u64_to_le_bytes(self.args@[2]));
                assert(out@.subrange(40, 48) =~= spec_u64_to_le_bytes(self.args@[3]));
                assert(out@.subrange(48, 56) =~= spec_u64_to_le_bytes(self.args@[4]));
                assert(out@.subrange(56, 64) =~= spec_u64_to_le_bytes(self.args@[5]));
            }
        }
        out
    }
}

/// The result slot of a multicall-entry image the kernel has filled in.
pub fn multicall_entry_result(image: &[u8]) -> (r: u64)
    requires
        image@.len() == 64,
    ensures
        r == spec_u64_from_le_bytes(image@.subrange(8, 16)),
{
    read_u64_le(image, 8)
}

/// The argument block of the batched foreign-mapping call: how many
/// frames to map for which domain at which host address, and where the
/// caller-owned frame and error arrays live.
#[derive(Debug, Clone, Copy, PartialEq, Eq, Structural)]
pub struct MmapBatch {
    /// Number of frames in this batch.
    pub num: u32,
    /// Domain whose frames are mapped.
    pub domid: u16,
    /// Host virtual address the frames are mapped at.
    pub addr: u64,
    /// Host address of the frame array (rewritten in place).
    pub mfns_addr: u64,
    /// Host address of the per-entry error array.
    pub errors_addr: u64,
}

impl MmapBatch {
    /// The byte image handed to the batch-mapping call.
    pub fn encode(&self) -> (r: Vec<u8>)
        ensures
            r@.len() == 32,
            r@.subrange(0, 4) == spec_u32_to_le_bytes(self.num),
            r@.subrange(4, 6) == spec_u16_to_le_bytes(self.domid),
            r@.subrange(6, 8) == seq![0u8, 0u8],
            r@.subrange(8, 16) == spec_u64_to_le_bytes(self.addr),
            r@.subrange(16, 24) == spec_u64_to_le_bytes(self.mfns_addr),
            r@.subrange(24, 32) == spec_u64_to_le_bytes(self.errors_addr),
    {
        let mut out: Vec<u8> = Vec::new();
        push_u32(&mut out, self.num);
        push_u16(&mut out, self.domid);
        push_zeros(&mut out, 2);
        push_u64(&mut out, self.addr);
        push_u64(&mut out, self.mfns_addr);
        push_u64(&mut out, self.errors_addr);
        proof {
            assert(out@.subrange(0, 4) =~= spec_u32_to_le_bytes(self.num));
            assert(out@.subrange(4, 6) =~= spec_u16_to_le_bytes(self.domid));
            assert(out@.subrange(6, 8) =~= seq![0u8, 0u8]);
            assert(out@.subrange(8, 16) =~= spec_u64_to_le_bytes(self.addr));
            assert(out@.subrange(16, 24) =~= spec_u64_to_le_bytes(self.mfns_addr));
            assert(out@.subrange(24, 32) =~= spec_u64_to_le_bytes(self.errors_addr));
        }
        out
    }
}

/// The argument block of a typed resource-mapping call.
#[derive(Debug, Clone, Copy, PartialEq, Eq, Structural)]
pub struct MmapResource {
    /// Domain whose resource is mapped.
    pub dom: u16,
    /// Resource type.
    pub typ: u32,
    /// Resource id.
    pub id: u32,
    /// First frame index within the resource.
    pub idx: u32,
    /// Number of frames.
    pub num: u64,
    /// Host virtual address the resource is mapped at.
    pub addr: u64,
}

impl MmapResource {
    /// The byte image handed to the resource-mapping call.
    pub fn encode(&self) -> (r: Vec<u8>)
        ensures
            r@.len() == 32,
            r@.subrange(0, 2) == spec_u16_to_le_bytes(self.dom),
            r@.subrange(2, 4) == seq![0u8, 0u8],
            r@.subrange(4, 8) == spec_u32_to_le_bytes(self.typ),
            r@.subrange(8, 12) == spec_u32_to_le_bytes(self.id),
            r@.subrange(12, 16) == spec_u32_to_le_bytes(self.idx),
            r@.subrange(16, 24) == spec_u64_to_le_bytes(self.num),
            r@.subrange(24, 32) == spec_u64_to_le_bytes(self.addr),
    {
        let mut out: Vec<u8> = Vec::new();
        push_u16(&mut out, self.dom);
        push_zeros(&mut out, 2);
        push_u32(&mut out, self.typ);
        push_u32(&mut out, self.id);
        push_u32(&mut out, self.idx);
        push_u64(&mut out, self.num);
        push_u64(&mut out, self.addr);
        proof {
            assert(out@.subrange(0, 2) =~= spec_u16_to_le_bytes(self.dom));
            assert(out@.subrange(2, 4) =~= seq![0u8, 0u8]);
            assert(out@.subrange(4, 8) =~= spec_u32_to_le_bytes(self.typ));
            assert(out@.subrange(8, 12) =~= spec_u32_to_le_bytes(self.id));
            assert(out@.subrange(12, 16) =~= spec_u32_to_le_bytes(self.idx));
            assert(out@.subrange(16, 24) =~= spec_u64_to_le_bytes(self.num));
            assert(out@.subrange(24, 32) =~= spec_u64_to_le_bytes(self.addr));
        }
        out
    }
}

/// The argument block of the memory-map query: an entry count and the
/// host address of the buffer that receives the entries.
#[derive(Debug, Clone, Copy, PartialEq, Eq, Structural)]
pub struct MemoryMap {
    /// On input, the buffer capacity in entries; on output, how many
    /// entries the hypervisor has (or wrote).
    pub count: u32,
    /// Host address of the entry buffer, or zero to query the count.
    pub buffer: u64,
}

impl MemoryMap {
    /// The byte image handed to the memory-map query.
    pub fn encode(&self) -> (r: Vec<u8>)
        ensures
            r@.len() == 16,
            r@.subrange(0, 4) == spec_u32_to_le_bytes(self.count),
            r@.subrange(4, 8) == seq![0u8, 0u8, 0u8, 0u8],
            r@.subrange(8, 16) == spec_u64_to_le_bytes(self.buffer),
    {
        let mut out: Vec<u8> = Vec::new();
        push_u32(&mut out, self.count);
        push_zeros(&mut out, 4);
        push_u64(&mut out, self.buffer);
        proof {
            assert(out@.subrange(0, 4) =~= spec_u32_to_le_bytes(self.count));
            assert(out@.subrange(4, 8) =~= seq![0u8, 0u8, 0u8, 0u8]);
            assert(out@.subrange(8, 16) =~= spec_u64_to_le_bytes(self.buffer));
        }
        out
    }
}

/// The entry count the kernel wrote back into a memory-map image.
pub fn memory_map_count(image: &[u8]) -> (r: u32)
    requires
        image@.len() == 16,
    ensures
        r == spec_u32_from_le_bytes(image@.subrange(0, 4)),
{
    read_u32_le(image, 0)
}

/// One extended MMU operation: a command and its two arguments.
#[derive(Debug, Clone, Copy, PartialEq, Eq, Structural)]
pub struct MmuExtOp {
    /// Operation command number.
    pub cmd: u32,
    /// First argument.
    pub arg1: u64,
    /// Second argument.
    pub arg2: u64,
}

impl MmuExtOp {
    /// The byte image handed to the extended-MMU hypercall.
    pub fn encode(&self) -> (r: Vec<u8>)
        ensures
            r@.len() == 24,
            r@.subrange(0, 4) == spec_u32_to_le_bytes(self.cmd),
            r@.subrange(4, 8) == seq![0u8, 0u8, 0u8, 0u8],
            r@.subrange(8, 16) == spec_u64_to_le_bytes(self.arg1),
            r@.subrange(16, 24) == spec_u64_to_le_bytes(self.arg2),
    {
        let mut out: Vec<u8> = Vec::new();
        push_u32(&mut out, self.cmd);
        push_zeros(&mut out, 4);
        push_u64(&mut out, self.arg1);
        push_u64(&mut out, self.arg2);
        proof {
            assert(out@.subrange(0, 4) =~= spec_u32_to_le_bytes(self.cmd));
            assert(out@.subrange(4, 8) =~= seq![0u8, 0u8, 0u8, 0u8]);
            assert(out@.subrange(8, 16) =~= spec_u64_to_le_bytes(self.arg1));
            assert(out@.subrange(16, 24) =~= spec_u64_to_le_bytes(self.arg2));
        }
        out
    }
}

} // verus!
