//! The call gate: every decision of the hypercall transport.
//!
//! A gate owns the negotiated domain-control interface version and builds
//! the descriptor for each operation the upper layer needs. The unverified
//! shell around the library performs the actual kernel entries (one
//! serialization permit per gate, held across each entry) and feeds the
//! results back into the state machines here: [`VersionProbe`] decides the
//! interface-version negotiation and [`BatchRetry`] decides the
//! paging-aware retry of batched foreign mappings.

use crate::error::Error;
use crate::sys::{
    zero_payload, zeroed_from, CreateDomain, DomCtl, EvtChnAllocUnbound, Hypercall, MemoryMap,
    MemoryReservation, MmapBatch, MmapResource, MmuExtOp, MultiCallEntry,
};
use crate::sys::{
    address_size_payload, create_domain_payload, hypercall_init_payload, max_mem_payload,
    max_vcpus_payload, page_frame_info_payload, vcpu_context_payload,
};
use crate::sys::{
    DOMCTL_PAYLOAD_LEN, ENOENT_ERRNO, HYPERVISOR_DOMCTL,
    HYPERVISOR_EVENT_CHANNEL_OP, HYPERVISOR_MEMORY_OP, HYPERVISOR_MMUEXT_OP, HYPERVISOR_MULTICALL,
    HYPERVISOR_XEN_VERSION, XENVER_CAPABILITIES, XEN_DOMCTL_CREATEDOMAIN,
    XEN_DOMCTL_DESTROYDOMAIN, XEN_DOMCTL_GETDOMAININFO, XEN_DOMCTL_GETPAGEFRAMEINFO3,
    XEN_DOMCTL_GETVCPUCONTEXT, XEN_DOMCTL_HYPERCALL_INIT, XEN_DOMCTL_MAX_INTERFACE_VERSION,
    XEN_DOMCTL_MAX_MEM, XEN_DOMCTL_MAX_VCPUS, XEN_DOMCTL_MIN_INTERFACE_VERSION,
    XEN_DOMCTL_PAUSEDOMAIN, XEN_DOMCTL_SETVCPUCONTEXT, XEN_DOMCTL_SET_ADDRESS_SIZE,
    XEN_DOMCTL_UNPAUSEDOMAIN, XEN_MEM_CLAIM_PAGES, XEN_MEM_MEMORY_MAP, XEN_MEM_POPULATE_PHYSMAP,
    XEN_PAGE_SIZE,
};
use vstd::prelude::*;

verus! {

/// Negotiation of the domain-control interface version.
///
/// The probe walks the versions from the lowest to the highest supported
/// one. For each pending version the shell issues the get-domain-info
/// request built by [`VersionProbe::request`]; [`VersionProbe::accept`]
/// decides from the kernel's return value whether that version is the one
/// to keep. A probe is read-only for the hypervisor: it only ever issues
/// the get-domain-info query.
#[derive(Debug, Clone)]
pub struct VersionProbe {
    next: u32,
}

impl VersionProbe {
    /// The version the probe would try next.
    pub closed spec fn spec_next(&self) -> u32 {
        self.next
    }

    /// The probe never leaves the negotiated range, except one past its
    /// end once every version is exhausted.
    pub open spec fn wf(&self) -> bool {
        XEN_DOMCTL_MIN_INTERFACE_VERSION <= self.spec_next() <= XEN_DOMCTL_MAX_INTERFACE_VERSION
            + 1
    }

    /// A fresh probe, about to try the lowest supported version.
    pub fn new() -> (r: VersionProbe)
        ensures
            r.wf(),
            r.spec_next() == XEN_DOMCTL_MIN_INTERFACE_VERSION,
    {
        VersionProbe { next: XEN_DOMCTL_MIN_INTERFACE_VERSION }
    }

    /// The version under probe, or `None` when every supported version
    /// has been rejected and negotiation has failed.
    pub fn pending(&self) -> (r: Option<u32>)
        requires
            self.wf(),
        ensures
            match r {
                Some(v) => v == self.spec_next() && XEN_DOMCTL_MIN_INTERFACE_VERSION <= v
                    <= XEN_DOMCTL_MAX_INTERFACE_VERSION,
                None => self.spec_next() == XEN_DOMCTL_MAX_INTERFACE_VERSION + 1,
            },
    {
        if self.next <= XEN_DOMCTL_MAX_INTERFACE_VERSION {
            Some(self.next)
        } else {
            None
        }
    }

    /// The read-only get-domain-info request that probes the pending
    /// version against the caller's own domain.
    pub fn request(&self, current_domid: u32) -> (r: DomCtl)
        requires
            self.wf(),
            self.spec_next() <= XEN_DOMCTL_MAX_INTERFACE_VERSION,
        ensures
            r.wf(),
            r.cmd == XEN_DOMCTL_GETDOMAININFO,
            r.interface_version == self.spec_next(),
            r.domid == current_domid,
            zeroed_from(r.payload@, 0),
    {
        DomCtl {
            cmd: XEN_DOMCTL_GETDOMAININFO,
            interface_version: self.next,
            domid: current_domid,
            payload: zero_payload(),
        }
    }

    /// Judges the kernel's answer to the pending probe. A version is
    /// accepted exactly when the call returned zero; otherwise the probe
    /// moves on to the next version.
    pub fn accept(&mut self, result: i64) -> (r: bool)
        requires
            old(self).wf(),
            old(self).spec_next() <= XEN_DOMCTL_MAX_INTERFACE_VERSION,
        ensures
            final(self).wf(),
            r == (result == 0),
            r ==> final(self).spec_next() == old(self).spec_next(),
            !r ==> final(self).spec_next() == old(self).spec_next() + 1,
    {
        if result == 0 {
            true
        } else {
            self.next = self.next + 1;
            false
        }
    }
}

/// Negotiated call state of one device handle: the domain-control
/// interface version, written into each domain-control descriptor.
#[derive(Debug, Clone)]
pub struct CallGate {
    domctl_interface_version: u32,
}

impl CallGate {
    /// The negotiated domain-control interface version.
    pub closed spec fn version(&self) -> u32 {
        self.domctl_interface_version
    }

    /// The stored version lies within the range the build supports; it
    /// is put there only by a successful probe.
    pub open spec fn wf(&self) -> bool {
        XEN_DOMCTL_MIN_INTERFACE_VERSION <= self.version() <= XEN_DOMCTL_MAX_INTERFACE_VERSION
    }

    /// A gate for a version the probe accepted. A version outside the
    /// supported range is refused, so a well-formed gate can only hold a
    /// negotiated version.
    pub fn new(domctl_interface_version: u32) -> (r: Result<CallGate, Error>)
        ensures
            match r {
                Ok(gate) => gate.wf() && gate.version() == domctl_interface_version
                    && XEN_DOMCTL_MIN_INTERFACE_VERSION <= domctl_interface_version
                    <= XEN_DOMCTL_MAX_INTERFACE_VERSION,
                Err(e) => e == Error::VersionUnsupported && !(XEN_DOMCTL_MIN_INTERFACE_VERSION
                    <= domctl_interface_version <= XEN_DOMCTL_MAX_INTERFACE_VERSION),
            },
    {
        if XEN_DOMCTL_MIN_INTERFACE_VERSION <= domctl_interface_version
            && domctl_interface_version <= XEN_DOMCTL_MAX_INTERFACE_VERSION {
            Ok(CallGate { domctl_interface_version })
        } else {
            Err(Error::VersionUnsupported)
        }
    }

    /// The version this gate stamps into its descriptors.
    pub fn interface_version(&self) -> (r: u32)
        ensures
            r == self.version(),
    {
        self.domctl_interface_version
    }

    /// The stored interface version of a well-formed gate lies within
    /// the negotiated bounds.
    pub proof fn lemma_version_bounds(&self)
        requires
            self.wf(),
        ensures
            XEN_DOMCTL_MIN_INTERFACE_VERSION <= self.version()
                <= XEN_DOMCTL_MAX_INTERFACE_VERSION,
    {
    }

    /// A hypercall descriptor with every argument given.
    pub fn hypercall(&self, op: u64, arg: [u64; 5]) -> (r: Hypercall)
        ensures
            r.op == op,
            r.arg == arg,
    {
        Hypercall { op, arg }
    }

    /// A hypercall descriptor with no arguments.
    pub fn hypercall0(&self, op: u64) -> (r: Hypercall)
        ensures
            r.op == op,
            r.arg@ == seq![0u64, 0u64, 0u64, 0u64, 0u64],
    {
        let r = Hypercall { op, arg: [0, 0, 0, 0, 0] };
        proof {
            assert(r.arg@ =~= seq![0u64, 0u64, 0u64, 0u64, 0u64]);
        }
        r
    }

    /// A hypercall descriptor with one argument.
    pub fn hypercall1(&self, op: u64, arg1: u64) -> (r: Hypercall)
        ensures
            r.op == op,
            r.arg@ == seq![arg1, 0u64, 0u64, 0u64, 0u64],
    {
        let r = Hypercall { op, arg: [arg1, 0, 0, 0, 0] };
        proof {
            assert(r.arg@ =~= seq![arg1, 0u64, 0u64, 0u64, 0u64]);
        }
        r
    }

    /// A hypercall descriptor with two arguments.
    pub fn hypercall2(&self, op: u64, arg1: u64, arg2: u64) -> (r: Hypercall)
        ensures
            r.op == op,
            r.arg@ == seq![arg1, arg2, 0u64, 0u64, 0u64],
    {
        let r = Hypercall { op, arg: [arg1, arg2, 0, 0, 0] };
        proof {
            assert(r.arg@ =~= seq![arg1, arg2, 0u64, 0u64, 0u64]);
        }
        r
    }

    /// A hypercall descriptor with three arguments.
    pub fn hypercall3(&self, op: u64, arg1: u64, arg2: u64, arg3: u64) -> (r: Hypercall)
        ensures
            r.op == op,
            r.arg@ == seq![arg1, arg2, arg3, 0u64, 0u64],
    {
        let r = Hypercall { op, arg: [arg1, arg2, arg3, 0, 0] };
        proof {
            assert(r.arg@ =~= seq![arg1, arg2, arg3, 0u64, 0u64]);
        }
        r
    }

    /// A hypercall descriptor with four arguments.
    pub fn hypercall4(&self, op: u64, arg1: u64, arg2: u64, arg3: u64, arg4: u64) -> (r: Hypercall)
        ensures
            r.op == op,
            r.arg@ == seq![arg1, arg2, arg3, arg4, 0u64],
    {
        let r = Hypercall { op, arg: [arg1, arg2, arg3, arg4, 0] };
        proof {
            assert(r.arg@ =~= seq![arg1, arg2, arg3, arg4, 0u64]);
        }
        r
    }

    /// A hypercall descriptor with five arguments.
    pub fn hypercall5(
        &self,
        op: u64,
        arg1: u64,
        arg2: u64,
        arg3: u64,
        arg4: u64,
        arg5: u64,
    ) -> (r: Hypercall)
        ensures
            r.op == op,
            r.arg@ == seq![arg1, arg2, arg3, arg4, arg5],
    {
        let r = Hypercall { op, arg: [arg1, arg2, arg3, arg4, arg5] };
        proof {
            assert(r.arg@ =~= seq![arg1, arg2, arg3, arg4, arg5]);
        }
        r
    }

    /// The hypercall that issues a bundle of `count` multicall entries
    /// living at `calls_addr`; per-entry results are read back from the
    /// entries afterwards, and interpreting them is the caller's job.
    pub fn multicall(&self, calls_addr: u64, count: u64) -> (r: Hypercall)
        ensures
            r.op == HYPERVISOR_MULTICALL,
            r.arg@ == seq![calls_addr, count, 0u64, 0u64, 0u64],
    {
        self.hypercall2(HYPERVISOR_MULTICALL, calls_addr, count)
    }

    /// The hypercall that queries the hypervisor's capabilities string
    /// into a caller-owned buffer at `info_addr`.
    pub fn get_version_capabilities(&self, info_addr: u64) -> (r: Hypercall)
        ensures
            r.op == HYPERVISOR_XEN_VERSION,
            r.arg@ == seq![XENVER_CAPABILITIES, info_addr, 0u64, 0u64, 0u64],
    {
        self.hypercall2(HYPERVISOR_XEN_VERSION, XENVER_CAPABILITIES, info_addr)
    }

    /// The event-channel hypercall for subop `cmd` with its argument
    /// block at `arg`.
    pub fn evtchn_op(&self, cmd: i32, arg: u64) -> (r: Hypercall)
        ensures
            r.op == HYPERVISOR_EVENT_CHANNEL_OP,
            r.arg@ == seq![cmd as u64, arg, 0u64, 0u64, 0u64],
    {
        self.hypercall2(HYPERVISOR_EVENT_CHANNEL_OP, cmd as u64, arg)
    }

    /// The unbound-port allocation record for a pair of domains; the
    /// kernel writes the allocated port into its image.
    pub fn evtchn_alloc_unbound(&self, domid: u32, remote_domid: u32) -> (r: EvtChnAllocUnbound)
        ensures
            r.dom == domid as u16,
            r.remote_dom == remote_domid as u16,
            r.port == 0,
    {
        EvtChnAllocUnbound {
            dom: #[verifier::truncate] (domid as u16),
            remote_dom: #[verifier::truncate] (remote_domid as u16),
            port: 0,
        }
    }

    /// The hypercall that submits a domain-control descriptor living at
    /// `domctl_addr`.
    pub fn domctl_call(&self, domctl_addr: u64) -> (r: Hypercall)
        ensures
            r.op == HYPERVISOR_DOMCTL,
            r.arg@ == seq![domctl_addr, 0u64, 0u64, 0u64, 0u64],
    {
        self.hypercall1(HYPERVISOR_DOMCTL, domctl_addr)
    }

    /// The hypercall that submits a memory operation whose argument
    /// block lives at `arg_addr`.
    pub fn memory_op_call(&self, subop: u64, arg_addr: u64) -> (r: Hypercall)
        ensures
            r.op == HYPERVISOR_MEMORY_OP,
            r.arg@ == seq![subop, arg_addr, 0u64, 0u64, 0u64],
    {
        self.hypercall2(HYPERVISOR_MEMORY_OP, subop, arg_addr)
    }

    /// A domain-control descriptor under this gate's negotiated version.
    pub fn domctl(&self, cmd: u32, domid: u32, payload: Vec<u8>) -> (r: DomCtl)
        requires
            payload@.len() == DOMCTL_PAYLOAD_LEN,
        ensures
            r.wf(),
            r.cmd == cmd,
            r.interface_version == self.version(),
            r.domid == domid,
            r.payload == payload,
    {
        DomCtl { cmd, interface_version: self.domctl_interface_version, domid, payload }
    }

    /// The read-only query of a domain's information; the kernel writes
    /// the record into the payload, to be read with the info decoder.
    pub fn get_domain_info(&self, domid: u32) -> (r: DomCtl)
        ensures
            r.wf(),
            r.cmd == XEN_DOMCTL_GETDOMAININFO,
            r.interface_version == self.version(),
            r.domid == domid,
            zeroed_from(r.payload@, 0),
    {
        self.domctl(XEN_DOMCTL_GETDOMAININFO, domid, zero_payload())
    }

    /// The create-domain request; the kernel assigns the new domain id
    /// into the descriptor header, where the header decoder reads it.
    pub fn create_domain(&self, create_domain: &CreateDomain) -> (r: DomCtl)
        requires
            create_domain.wf(),
        ensures
            r.wf(),
            r.cmd == XEN_DOMCTL_CREATEDOMAIN,
            r.interface_version == self.version(),
            r.domid == 0,
            r.payload@.subrange(0, 4) == vstd::bytes::spec_u32_to_le_bytes(create_domain.ssidref),
            r.payload@.subrange(4, 20) == create_domain.handle@,
            r.payload@.subrange(20, 24) == vstd::bytes::spec_u32_to_le_bytes(create_domain.flags),
            r.payload@.subrange(24, 28) == vstd::bytes::spec_u32_to_le_bytes(
                create_domain.iommu_opts,
            ),
            r.payload@.subrange(28, 32) == vstd::bytes::spec_u32_to_le_bytes(
                create_domain.max_vcpus,
            ),
            r.payload@.subrange(32, 36) == vstd::bytes::spec_u32_to_le_bytes(
                create_domain.max_evtchn_port,
            ),
            r.payload@.subrange(36, 40) == vstd::bytes::spec_u32_to_le_bytes(
                create_domain.max_grant_frames,
            ),
            r.payload@.subrange(40, 44) == vstd::bytes::spec_u32_to_le_bytes(
                create_domain.max_maptrack_frames,
            ),
            zeroed_from(r.payload@, 44),
    {
        self.domctl(XEN_DOMCTL_CREATEDOMAIN, 0, create_domain_payload(create_domain))
    }

    /// The pause request: no payload beyond the zero padding.
    pub fn pause_domain(&self, domid: u32) -> (r: DomCtl)
        ensures
            r.wf(),
            r.cmd == XEN_DOMCTL_PAUSEDOMAIN,
            r.interface_version == self.version(),
            r.domid == domid,
            zeroed_from(r.payload@, 0),
    {
        self.domctl(XEN_DOMCTL_PAUSEDOMAIN, domid, zero_payload())
    }

    /// The unpause request: no payload beyond the zero padding.
    pub fn unpause_domain(&self, domid: u32) -> (r: DomCtl)
        ensures
            r.wf(),
            r.cmd == XEN_DOMCTL_UNPAUSEDOMAIN,
            r.interface_version == self.version(),
            r.domid == domid,
            zeroed_from(r.payload@, 0),
    {
        self.domctl(XEN_DOMCTL_UNPAUSEDOMAIN, domid, zero_payload())
    }

    /// The destroy request: no payload beyond the zero padding.
    pub fn destroy_domain(&self, domid: u32) -> (r: DomCtl)
        ensures
            r.wf(),
            r.cmd == XEN_DOMCTL_DESTROYDOMAIN,
            r.interface_version == self.version(),
            r.domid == domid,
            zeroed_from(r.payload@, 0),
    {
        self.domctl(XEN_DOMCTL_DESTROYDOMAIN, domid, zero_payload())
    }

    /// The request that sets a domain's memory ceiling in kilobytes.
    pub fn set_max_mem(&self, domid: u32, memkb: u64) -> (r: DomCtl)
        ensures
            r.wf(),
            r.cmd == XEN_DOMCTL_MAX_MEM,
            r.interface_version == self.version(),
            r.domid == domid,
            r.payload@.subrange(0, 8) == vstd::bytes::spec_u64_to_le_bytes(memkb),
            zeroed_from(r.payload@, 8),
    {
        self.domctl(XEN_DOMCTL_MAX_MEM, domid, max_mem_payload(memkb))
    }

    /// The request that sets a domain's vCPU ceiling.
    pub fn set_max_vcpus(&self, domid: u32, max_vcpus: u32) -> (r: DomCtl)
        ensures
            r.wf(),
            r.cmd == XEN_DOMCTL_MAX_VCPUS,
            r.interface_version == self.version(),
            r.domid == domid,
            r.payload@.subrange(0, 4) == vstd::bytes::spec_u32_to_le_bytes(max_vcpus),
            zeroed_from(r.payload@, 4),
    {
        self.domctl(XEN_DOMCTL_MAX_VCPUS, domid, max_vcpus_payload(max_vcpus))
    }

    /// The request that selects a guest's address size in bits.
    pub fn set_address_size(&self, domid: u32, size: u32) -> (r: DomCtl)
        ensures
            r.wf(),
            r.cmd == XEN_DOMCTL_SET_ADDRESS_SIZE,
            r.interface_version == self.version(),
            r.domid == domid,
            r.payload@.subrange(0, 4) == vstd::bytes::spec_u32_to_le_bytes(size),
            zeroed_from(r.payload@, 4),
    {
        self.domctl(XEN_DOMCTL_SET_ADDRESS_SIZE, domid, address_size_payload(size))
    }

    /// The request that reads a vCPU's context into the caller-owned
    /// buffer at `ctx_addr`, which must stay live across the call.
    pub fn get_vcpu_context(&self, domid: u32, vcpu: u32, ctx_addr: u64) -> (r: DomCtl)
        ensures
            r.wf(),
            r.cmd == XEN_DOMCTL_GETVCPUCONTEXT,
            r.interface_version == self.version(),
            r.domid == domid,
            r.payload@.subrange(0, 4) == vstd::bytes::spec_u32_to_le_bytes(vcpu),
            r.payload@.subrange(8, 16) == vstd::bytes::spec_u64_to_le_bytes(ctx_addr),
            zeroed_from(r.payload@, 16),
    {
        self.domctl(XEN_DOMCTL_GETVCPUCONTEXT, domid, vcpu_context_payload(vcpu, ctx_addr))
    }

    /// The request that installs a vCPU's context from the caller-owned
    /// buffer at `ctx_addr`, which must stay live across the call.
    pub fn set_vcpu_context(&self, domid: u32, vcpu: u32, ctx_addr: u64) -> (r: DomCtl)
        ensures
            r.wf(),
            r.cmd == XEN_DOMCTL_SETVCPUCONTEXT,
            r.interface_version == self.version(),
            r.domid == domid,
            r.payload@.subrange(0, 4) == vstd::bytes::spec_u32_to_le_bytes(vcpu),
            r.payload@.subrange(8, 16) == vstd::bytes::spec_u64_to_le_bytes(ctx_addr),
            zeroed_from(r.payload@, 16),
    {
        self.domctl(XEN_DOMCTL_SETVCPUCONTEXT, domid, vcpu_context_payload(vcpu, ctx_addr))
    }

    /// The request that queries the types of `num` page frames listed in
    /// the caller-owned array at `array_addr`, rewritten in place.
    pub fn get_page_frame_info(&self, domid: u32, num: u64, array_addr: u64) -> (r: DomCtl)
        ensures
            r.wf(),
            r.cmd == XEN_DOMCTL_GETPAGEFRAMEINFO3,
            r.interface_version == self.version(),
            r.domid == domid,
            r.payload@.subrange(0, 8) == vstd::bytes::spec_u64_to_le_bytes(num),
            r.payload@.subrange(8, 16) == vstd::bytes::spec_u64_to_le_bytes(array_addr),
            zeroed_from(r.payload@, 16),
    {
        self.domctl(XEN_DOMCTL_GETPAGEFRAMEINFO3, domid, page_frame_info_payload(num, array_addr))
    }

    /// The request that initialises a domain's hypercall page at guest
    /// frame `gmfn`.
    pub fn hypercall_init(&self, domid: u32, gmfn: u64) -> (r: DomCtl)
        ensures
            r.wf(),
            r.cmd == XEN_DOMCTL_HYPERCALL_INIT,
            r.interface_version == self.version(),
            r.domid == domid,
            r.payload@.subrange(0, 8) == vstd::bytes::spec_u64_to_le_bytes(gmfn),
            zeroed_from(r.payload@, 8),
    {
        self.domctl(XEN_DOMCTL_HYPERCALL_INIT, domid, hypercall_init_payload(gmfn))
    }

    /// The argument block of a batched foreign mapping: `num` frames of
    /// `domid` at host address `addr`, with the frame and error arrays at
    /// `mfns_addr` and `errors_addr`.
    pub fn mmap_batch(
        &self,
        domid: u32,
        num: u64,
        addr: u64,
        mfns_addr: u64,
        errors_addr: u64,
    ) -> (r: MmapBatch)
        ensures
            r.num == num as u32,
            r.domid == domid as u16,
            r.addr == addr,
            r.mfns_addr == mfns_addr,
            r.errors_addr == errors_addr,
    {
        MmapBatch {
            num: #[verifier::truncate] (num as u32),
            domid: #[verifier::truncate] (domid as u16),
            addr,
            mfns_addr,
            errors_addr,
        }
    }

    /// The argument block of a typed resource mapping.
    pub fn map_resource(
        &self,
        domid: u32,
        typ: u32,
        id: u32,
        idx: u32,
        num: u64,
        addr: u64,
    ) -> (r: MmapResource)
        ensures
            r.dom == domid as u16,
            r.typ == typ,
            r.id == id,
            r.idx == idx,
            r.num == num,
            r.addr == addr,
    {
        MmapResource { dom: #[verifier::truncate] (domid as u16), typ, id, idx, num, addr }
    }

    /// The reservation that stakes a claim on `pages` free pages for a
    /// domain, submitted with the claim-pages memory operation.
    pub fn claim_pages(&self, domid: u32, pages: u64) -> (r: MemoryReservation)
        ensures
            r.extent_start == 0,
            r.nr_extents == pages,
            r.extent_order == 0,
            r.mem_flags == 0,
            r.domid == domid as u16,
    {
        MemoryReservation {
            extent_start: 0,
            nr_extents: pages,
            extent_order: 0,
            mem_flags: 0,
            domid: #[verifier::truncate] (domid as u16),
        }
    }

    /// The memory-map query block: capacity `count` entries in the
    /// buffer at `buffer_addr`, or zero capacity to learn the count.
    pub fn memory_map(&self, count: u32, buffer_addr: u64) -> (r: MemoryMap)
        ensures
            r.count == count,
            r.buffer == buffer_addr,
    {
        MemoryMap { count, buffer: buffer_addr }
    }

    /// One extended MMU operation record.
    pub fn mmuext(&self, cmd: u32, arg1: u64, arg2: u64) -> (r: MmuExtOp)
        ensures
            r.cmd == cmd,
            r.arg1 == arg1,
            r.arg2 == arg2,
    {
        MmuExtOp { cmd, arg1, arg2 }
    }

    /// The hypercall that submits one extended MMU operation living at
    /// `ops_addr` on behalf of a domain.
    pub fn mmuext_call(&self, ops_addr: u64, domid: u32) -> (r: Hypercall)
        ensures
            r.op == HYPERVISOR_MMUEXT_OP,
            r.arg@ == seq![ops_addr, 1u64, 0u64, domid as u64, 0u64],
    {
        self.hypercall4(HYPERVISOR_MMUEXT_OP, ops_addr, 1, 0, domid as u64)
    }

    /// The hypercall that submits the claim-pages reservation living at
    /// `reservation_addr`.
    pub fn claim_pages_call(&self, reservation_addr: u64) -> (r: Hypercall)
        ensures
            r.op == HYPERVISOR_MEMORY_OP,
            r.arg@ == seq![XEN_MEM_CLAIM_PAGES, reservation_addr, 0u64, 0u64, 0u64],
    {
        self.memory_op_call(XEN_MEM_CLAIM_PAGES, reservation_addr)
    }

    /// The hypercall that submits the memory-map query living at
    /// `arg_addr`.
    pub fn memory_map_call(&self, arg_addr: u64) -> (r: Hypercall)
        ensures
            r.op == HYPERVISOR_MEMORY_OP,
            r.arg@ == seq![XEN_MEM_MEMORY_MAP, arg_addr, 0u64, 0u64, 0u64],
    {
        self.memory_op_call(XEN_MEM_MEMORY_MAP, arg_addr)
    }

    /// The multicall entry that populates a domain's physmap from the
    /// reservation living at `reservation_addr`. Population goes through
    /// a multicall because the kernel's direct path can reject extent
    /// counts that look out of range.
    pub fn populate_physmap_entry(&self, reservation_addr: u64) -> (r: MultiCallEntry)
        ensures
            r.op == HYPERVISOR_MEMORY_OP,
            r.result == 0,
            r.args@ == seq![XEN_MEM_POPULATE_PHYSMAP, reservation_addr, 0u64, 0u64, 0u64, 0u64],
    {
        let r = MultiCallEntry {
            op: HYPERVISOR_MEMORY_OP,
            result: 0,
            args: [XEN_MEM_POPULATE_PHYSMAP, reservation_addr, 0, 0, 0, 0],
        };
        proof {
            assert(r.args@ =~= seq![
                XEN_MEM_POPULATE_PHYSMAP,
                reservation_addr,
                0u64,
                0u64,
                0u64,
                0u64,
            ]);
        }
        r
    }
}

/// What the paging-aware retry asks the shell to do next.
#[derive(Debug, Clone, Copy, PartialEq, Eq, Structural)]
pub enum BatchStep {
    /// Re-issue a sub-batch covering exactly the entries
    /// `[start, start + len)` of the initial batch.
    Issue {
        /// First entry of the run.
        start: usize,
        /// Number of entries in the run.
        len: usize,
    },
    /// The scan is over; `paged` runs needed paging retries.
    Done {
        /// How many paged runs were re-issued.
        paged: u64,
    },
}

/// What to do after a re-issued sub-batch has returned.
#[derive(Debug, Clone, Copy, PartialEq, Eq, Structural)]
pub enum RetryDecision {
    /// The sub-batch failed with a non-retryable errno: surface it.
    Abort,
    /// Stop retrying and report the paged count collected so far.
    Finish,
    /// Scan on for the next paged run.
    Continue,
}

/// The paging-aware retry protocol of a batched foreign mapping.
///
/// When the initial batch call fails with the pager's errno, the kernel
/// has marked every currently paged-out frame in the per-entry error
/// array. The scan walks that array once, left to right: each maximal
/// contiguous run of paged-out entries is re-issued as one sub-batch.
/// After a sub-batch returns, [`BatchRetry::after_issue`] decides whether
/// to abort on a hard error, stop, or scan on; the retry stops as soon as
/// a run ended before the end of the array, so recovery of entries beyond
/// the first completed run is left to the caller. Every step moves the
/// scan position strictly forward, so the protocol cannot spin.
#[derive(Debug, Clone)]
pub struct BatchRetry {
    num: usize,
    i: usize,
    paged: u64,
}

impl BatchRetry {
    /// Total number of entries in the initial batch.
    pub closed spec fn spec_num(&self) -> usize {
        self.num
    }

    /// The scan position: entries before it have been dealt with.
    pub closed spec fn spec_pos(&self) -> usize {
        self.i
    }

    /// How many paged runs have been re-issued so far.
    pub closed spec fn spec_paged(&self) -> u64 {
        self.paged
    }

    /// The scan never leaves the array and cannot have retried more runs
    /// than entries it has passed.
    pub open spec fn wf(&self) -> bool {
        self.spec_pos() <= self.spec_num() && self.spec_paged() <= self.spec_pos()
    }

    /// A retry pass over a batch of `num` entries, starting at its
    /// beginning with nothing retried yet.
    pub fn new(num: usize) -> (r: BatchRetry)
        ensures
            r.wf(),
            r.spec_num() == num,
            r.spec_pos() == 0,
            r.spec_paged() == 0,
    {
        BatchRetry { num, i: 0, paged: 0 }
    }

    /// The paged-run count collected so far; after the scan is done this
    /// is the batch call's result.
    pub fn paged(&self) -> (r: u64)
        ensures
            r == self.spec_paged(),
    {
        self.paged
    }

    /// Scans for the next maximal run of paged-out entries. Either the
    /// run to re-issue comes back, with the scan moved past it and the
    /// paged count raised, or the rest of the array holds no paged-out
    /// entry and the pass is done.
    pub fn next_run(&mut self, errors: &Vec<i32>) -> (r: BatchStep)
        requires
            old(self).wf(),
            errors@.len() == old(self).spec_num(),
        ensures
            final(self).wf(),
            final(self).spec_num() == old(self).spec_num(),
            match r {
                BatchStep::Issue { start, len } => {
                    &&& old(self).spec_pos() <= start
                    &&& 1 <= len
                    &&& start + len <= old(self).spec_num()
                    &&& final(self).spec_pos() == start + len
                    &&& final(self).spec_paged() == old(self).spec_paged() + 1
                    &&& forall|j: int|
                        old(self).spec_pos() <= j < start ==> errors@[j] != ENOENT_ERRNO
                    &&& forall|j: int| start <= j < start + len ==> errors@[j] == ENOENT_ERRNO
                    &&& (start + len == old(self).spec_num() || errors@[start + len]
                        != ENOENT_ERRNO)
                },
                BatchStep::Done { paged } => {
                    &&& paged == old(self).spec_paged()
                    &&& final(self).spec_paged() == old(self).spec_paged()
                    &&& final(self).spec_pos() == final(self).spec_num()
                    &&& forall|j: int|
                        old(self).spec_pos() <= j < old(self).spec_num() ==> errors@[j]
                            != ENOENT_ERRNO
                },
            },
    {
        let mut i: usize = self.i;
        while i < self.num && *vstd::slice::slice_index_get(errors.as_slice(), i) != ENOENT_ERRNO
            invariant
                self.i <= i <= self.num,
                errors@.len() == self.num,
                forall|j: int| self.spec_pos() <= j < i ==> errors@[j] != ENOENT_ERRNO,
            decreases self.num - i,
        {
            i = i + 1;
        }
        if i == self.num {
            self.i = i;
            return BatchStep::Done { paged: self.paged };
        }
        let start = i;
        i = i + 1;
        while i < self.num && *vstd::slice::slice_index_get(errors.as_slice(), i) == ENOENT_ERRNO
            invariant
                start < i <= self.num,
                errors@.len() == self.num,
                forall|j: int| start <= j < i ==> errors@[j] == ENOENT_ERRNO,
            decreases self.num - i,
        {
            i = i + 1;
        }
        let len = i - start;
        self.i = i;
        self.paged = self.paged + 1;
        BatchStep::Issue { start, len }
    }

    /// Decides what follows a re-issued sub-batch. A hard (non-paging)
    /// errno aborts the batch. A run that ended before the end of the
    /// array finishes the pass. A run that reached the end finishes it
    /// too, unless the sub-batch succeeded with progress, in which case
    /// one more scan confirms there is nothing left.
    pub fn after_issue(&self, failed: bool, errno: i32, count: i64) -> (r: RetryDecision)
        ensures
            r == (if failed && errno != ENOENT_ERRNO {
                RetryDecision::Abort
            } else if self.spec_pos() < self.spec_num() {
                RetryDecision::Finish
            } else if !failed && count > 0 {
                RetryDecision::Continue
            } else {
                RetryDecision::Finish
            }),
    {
        if failed && errno != ENOENT_ERRNO {
            RetryDecision::Abort
        } else if self.i < self.num {
            RetryDecision::Finish
        } else if !failed && count > 0 {
            RetryDecision::Continue
        } else {
            RetryDecision::Finish
        }
    }
}

/// The argument block of a sub-batch re-issued for the run
/// `[start, start + len)` of the batch described by `base`: the mapping
/// address and the frame and error array addresses all move forward by
/// `start` entries.
pub fn sub_batch(base: &MmapBatch, start: usize, len: usize) -> (r: MmapBatch)
    requires
        len <= u32::MAX,
        base.addr + start * XEN_PAGE_SIZE <= u64::MAX,
        base.mfns_addr + start * 8 <= u64::MAX,
        base.errors_addr + start * 4 <= u64::MAX,
    ensures
        r.num == len as u32,
        r.domid == base.domid,
        r.addr == base.addr + start * XEN_PAGE_SIZE,
        r.mfns_addr == base.mfns_addr + start * 8,
        r.errors_addr == base.errors_addr + start * 4,
{
    MmapBatch {
        num: len as u32,
        domid: base.domid,
        addr: base.addr + (start as u64) * XEN_PAGE_SIZE,
        mfns_addr: base.mfns_addr + (start as u64) * 8,
        errors_addr: base.errors_addr + (start as u64) * 4,
    }
}

/// Result codes above this bound are negative errno values in unsigned
/// clothing: a populate-physmap entry that reports one has failed.
pub const POPULATE_RESULT_BOUND: u64 = 0xffff_ffff_ffff_f000;

/// Interprets the result slot of a populate-physmap multicall entry
/// against the extent-start array that was submitted. The kernel reports
/// how many extents it populated; that many leading entries, which it
/// overwrote with the allocated extents, are the result. A negative code
/// in unsigned clothing, or a count beyond the submitted length, is a
/// population failure.
pub fn interpret_populate_result(code: u64, extent_starts: &Vec<u64>) -> (r: Result<
    Vec<u64>,
    Error,
>)
    ensures
        match r {
            Ok(v) => code <= POPULATE_RESULT_BOUND && code <= extent_starts@.len() && v@
                == extent_starts@.subrange(0, code as int),
            Err(e) => e == Error::PopulatePhysmapFailed && (code > POPULATE_RESULT_BOUND || code
                > extent_starts@.len()),
        },
{
    if code > POPULATE_RESULT_BOUND {
        return Err(Error::PopulatePhysmapFailed);
    }
    if code > extent_starts.len() as u64 {
        return Err(Error::PopulatePhysmapFailed);
    }
    let count = code as usize;
    let mut extents: Vec<u64> = Vec::new();
    let mut i: usize = 0;
    while i < count
        invariant
            i <= count,
            count <= extent_starts@.len(),
            extents@ == extent_starts@.subrange(0, i as int),
        decreases count - i,
    {
        extents.push(extent_starts[i]);
        proof {
            assert(extents@ =~= extent_starts@.subrange(0, i as int + 1));
        }
        i = i + 1;
    }
    Ok(extents)
}

/// The byte length of the buffer that receives a memory map of `count`
/// entries of `size_of_entry` bytes, or `None` when that product does
/// not fit the host word.
pub fn memory_map_buffer_len(count: u32, size_of_entry: usize) -> (r: Option<usize>)
    ensures
        match r {
            Some(n) => n == count * size_of_entry,
            None => count * size_of_entry > usize::MAX,
        },
{
    (count as usize).checked_mul(size_of_entry)
}

} // verus!
