//! Tests of the call gate: version negotiation, hypercall packing, and
//! the domain-control descriptor images.

use xenclient::call::CallGate;
use xenclient::call::VersionProbe;
use xenclient::error::Error;
use xenclient::sys::{
    decode_domain_info, domctl_domid, domctl_payload, evtchn_port, memory_map_count,
    multicall_entry_result, CreateDomain, MemoryMap, MultiCallEntry, XEN_DOMCTL_CREATEDOMAIN,
    XEN_DOMCTL_DESTROYDOMAIN, XEN_DOMCTL_GETDOMAININFO, XEN_DOMCTL_MAX_INTERFACE_VERSION,
    XEN_DOMCTL_MAX_MEM, XEN_DOMCTL_MIN_INTERFACE_VERSION, XEN_DOMINF_PAUSED, HYPERVISOR_DOMCTL,
    HYPERVISOR_MEMORY_OP, HYPERVISOR_MMUEXT_OP, HYPERVISOR_MULTICALL, XEN_MEM_POPULATE_PHYSMAP,
};

/// A stub hypervisor that accepts exactly one interface version.
fn probe_against_stub(working_version: u32) -> (Result<CallGate, Error>, Vec<u32>) {
    let mut probe = VersionProbe::new();
    let mut issued_cmds: Vec<u32> = Vec::new();
    loop {
        let version = match probe.pending() {
            Some(v) => v,
            None => return (Err(Error::VersionUnsupported), issued_cmds),
        };
        let request = probe.request(0);
        issued_cmds.push(request.cmd);
        assert_eq!(request.interface_version, version);
        let rc: i64 = if version == working_version { 0 } else { -22 };
        if probe.accept(rc) {
            return (CallGate::new(version), issued_cmds);
        }
    }
}

#[test]
fn open_and_probe_takes_first_accepted_version() {
    let (gate, issued) = probe_against_stub(15);
    let gate = gate.expect("version 15 lies in the supported range");
    assert_eq!(gate.interface_version(), 15);
    // Every probe below 15 was issued, in order, and nothing else.
    assert_eq!(issued.len(), (15 - XEN_DOMCTL_MIN_INTERFACE_VERSION + 1) as usize);
    // The probe only ever issues the read-only domain-info query.
    for cmd in issued {
        assert_eq!(cmd, XEN_DOMCTL_GETDOMAININFO);
    }
}

#[test]
fn probe_fails_when_no_version_answers() {
    let (gate, issued) = probe_against_stub(XEN_DOMCTL_MAX_INTERFACE_VERSION + 7);
    assert_eq!(gate.unwrap_err(), Error::VersionUnsupported);
    let span = XEN_DOMCTL_MAX_INTERFACE_VERSION - XEN_DOMCTL_MIN_INTERFACE_VERSION + 1;
    assert_eq!(issued.len(), span as usize);
}

#[test]
fn gate_refuses_versions_outside_the_bounds() {
    assert!(CallGate::new(XEN_DOMCTL_MIN_INTERFACE_VERSION - 1).is_err());
    assert!(CallGate::new(XEN_DOMCTL_MAX_INTERFACE_VERSION + 1).is_err());
    assert!(CallGate::new(XEN_DOMCTL_MIN_INTERFACE_VERSION).is_ok());
    assert!(CallGate::new(XEN_DOMCTL_MAX_INTERFACE_VERSION).is_ok());
}

fn gate() -> CallGate {
    CallGate::new(15).unwrap()
}

#[test]
fn hypercall_variants_pack_their_arguments() {
    let g = gate();
    assert_eq!(g.hypercall0(7).arg, [0, 0, 0, 0, 0]);
    assert_eq!(g.hypercall1(7, 1).arg, [1, 0, 0, 0, 0]);
    assert_eq!(g.hypercall2(7, 1, 2).arg, [1, 2, 0, 0, 0]);
    assert_eq!(g.hypercall3(7, 1, 2, 3).arg, [1, 2, 3, 0, 0]);
    assert_eq!(g.hypercall4(7, 1, 2, 3, 4).arg, [1, 2, 3, 4, 0]);
    assert_eq!(g.hypercall5(7, 1, 2, 3, 4, 5).arg, [1, 2, 3, 4, 5]);
    assert_eq!(g.hypercall5(7, 1, 2, 3, 4, 5).op, 7);
    let multi = g.multicall(0xdead, 3);
    assert_eq!(multi.op, HYPERVISOR_MULTICALL);
    assert_eq!(multi.arg, [0xdead, 3, 0, 0, 0]);
    let ext = g.mmuext_call(0x40, 9);
    assert_eq!(ext.op, HYPERVISOR_MMUEXT_OP);
    assert_eq!(ext.arg, [0x40, 1, 0, 9, 0]);
    let domctl = g.domctl_call(0x88);
    assert_eq!(domctl.op, HYPERVISOR_DOMCTL);
    assert_eq!(domctl.arg, [0x88, 0, 0, 0, 0]);
}

#[test]
fn set_max_mem_image_is_laid_out_little_endian() {
    let g = gate();
    let request = g.set_max_mem(5, 0x0102_0304_0506_0708);
    assert_eq!(request.cmd, XEN_DOMCTL_MAX_MEM);
    let image = request.encode();
    assert_eq!(image.len(), 144);
    // Header: command, interface version, domain id, alignment padding.
    assert_eq!(&image[0..4], &XEN_DOMCTL_MAX_MEM.to_le_bytes());
    assert_eq!(&image[4..8], &15u32.to_le_bytes());
    assert_eq!(&image[8..12], &5u32.to_le_bytes());
    assert_eq!(&image[12..16], &[0, 0, 0, 0]);
    // Payload: the ceiling in kilobytes, then zero padding throughout.
    assert_eq!(&image[16..24], &[0x08, 0x07, 0x06, 0x05, 0x04, 0x03, 0x02, 0x01]);
    assert!(image[24..].iter().all(|b| *b == 0));
}

#[test]
fn vcpu_and_address_size_ceilings_are_laid_out_little_endian() {
    let g = gate();
    let vcpus = g.set_max_vcpus(5, 4).encode();
    assert_eq!(&vcpus[16..20], &4u32.to_le_bytes());
    assert!(vcpus[20..].iter().all(|b| *b == 0));
    let bits = g.set_address_size(5, 64).encode();
    assert_eq!(&bits[16..20], &64u32.to_le_bytes());
    assert!(bits[20..].iter().all(|b| *b == 0));
}

#[test]
fn default_creation_parameters_are_all_zero() {
    let params = CreateDomain::default();
    assert_eq!(params.handle, vec![0u8; 16]);
    assert_eq!(params.max_vcpus, 0);
    let image = gate().create_domain(&params).encode();
    assert!(image[16..].iter().all(|b| *b == 0));
}

#[test]
fn create_domain_assigns_the_written_domid() {
    let g = gate();
    let mut params = CreateDomain::default();
    params.max_vcpus = 1;
    let request = g.create_domain(&params);
    assert_eq!(request.cmd, XEN_DOMCTL_CREATEDOMAIN);
    assert_eq!(request.domid, 0);
    let mut image = request.encode();
    // The vCPU ceiling sits at its ABI offset within the payload.
    assert_eq!(&image[16 + 28..16 + 32], &1u32.to_le_bytes());
    // Stub kernel: the new domain id is written into the header.
    image[8..12].copy_from_slice(&3u32.to_le_bytes());
    assert_eq!(domctl_domid(&image), 3);
    assert!(domctl_domid(&image) > 0);
    let teardown = g.destroy_domain(3);
    assert_eq!(teardown.cmd, XEN_DOMCTL_DESTROYDOMAIN);
    assert_eq!(teardown.domid, 3);
}

#[test]
fn domain_info_round_trips_through_the_payload() {
    let g = gate();
    let request = g.get_domain_info(9);
    assert_eq!(request.cmd, XEN_DOMCTL_GETDOMAININFO);
    assert_eq!(request.domid, 9);
    let mut image = request.encode();
    assert!(image[16..].iter().all(|b| *b == 0));
    // Stub kernel: fill the record the way a hypervisor would.
    image[16..18].copy_from_slice(&9u16.to_le_bytes()); // domain
    image[20..24].copy_from_slice(&XEN_DOMINF_PAUSED.to_le_bytes()); // flags
    image[24..32].copy_from_slice(&4096u64.to_le_bytes()); // total pages
    image[32..40].copy_from_slice(&8192u64.to_le_bytes()); // max pages
    image[80..84].copy_from_slice(&2u32.to_le_bytes()); // online vcpus
    image[84..88].copy_from_slice(&1u32.to_le_bytes()); // max vcpu id
    let payload = domctl_payload(&image);
    let info = decode_domain_info(&payload);
    assert_eq!(info.domid, 9);
    assert_eq!(info.total_pages, 4096);
    assert_eq!(info.max_pages, 8192);
    assert_eq!(info.number_online_vcpus, 2);
    assert_eq!(info.max_vcpu_id, 1);
    assert!(info.paused());
}

#[test]
fn set_max_mem_is_reflected_by_a_faithful_hypervisor() {
    // A stub hypervisor that stores the ceiling and reports it back in
    // page units through the domain-info record.
    let g = gate();
    let memkb: u64 = 16384;
    let request = g.set_max_mem(5, memkb);
    let image = request.encode();
    let stored_memkb = u64::from_le_bytes(image[16..24].try_into().unwrap());
    let max_pages = stored_memkb / 4; // 4 KiB pages
    let query = g.get_domain_info(5).encode();
    let mut answer = domctl_payload(&query);
    answer[16..24].copy_from_slice(&max_pages.to_le_bytes());
    let info = decode_domain_info(&answer);
    assert_eq!(info.max_pages, 4096);
}

#[test]
fn pause_flag_is_read_from_the_flags_bit() {
    let g = gate();
    let query = g.pause_domain(5);
    assert_eq!(query.domid, 5);
    assert!(query.encode()[16..].iter().all(|b| *b == 0));
    let unpause = g.unpause_domain(5);
    assert!(unpause.encode()[16..].iter().all(|b| *b == 0));
    // A record with the paused bit set reads as paused; clearing the bit
    // restores the original state.
    let mut payload = vec![0u8; 128];
    payload[4..8].copy_from_slice(&XEN_DOMINF_PAUSED.to_le_bytes());
    assert!(decode_domain_info(&payload).paused());
    payload[4..8].copy_from_slice(&0u32.to_le_bytes());
    assert!(!decode_domain_info(&payload).paused());
}

#[test]
fn event_channel_port_allocation_round_trips() {
    let g = gate();
    let alloc = g.evtchn_alloc_unbound(1, 2);
    assert_eq!(alloc.dom, 1);
    assert_eq!(alloc.remote_dom, 2);
    assert_eq!(alloc.port, 0);
    let mut image = alloc.encode();
    assert_eq!(image.len(), 8);
    // Stub kernel: write the allocated port back.
    image[4..8].copy_from_slice(&42u32.to_le_bytes());
    let port = evtchn_port(&image);
    assert_eq!(port, 42);
    // A port is unsigned, so it is never negative; closing goes through
    // the same event-channel hypercall with a close subop.
    let close = g.evtchn_op(3, 0x99);
    assert_eq!(close.arg, [3, 0x99, 0, 0, 0]);
    let op = g.evtchn_op(6, 0x77);
    assert_eq!(op.arg, [6, 0x77, 0, 0, 0]);
}

#[test]
fn multicall_entry_round_trips_its_result() {
    let g = gate();
    let entry = g.populate_physmap_entry(0xabcd);
    assert_eq!(entry.op, HYPERVISOR_MEMORY_OP);
    assert_eq!(entry.args, [XEN_MEM_POPULATE_PHYSMAP, 0xabcd, 0, 0, 0, 0]);
    let mut image = entry.encode();
    assert_eq!(image.len(), 64);
    // Stub kernel: write the result slot.
    image[8..16].copy_from_slice(&4u64.to_le_bytes());
    assert_eq!(multicall_entry_result(&image), 4);
    let other = MultiCallEntry { op: 2, result: 7, args: [1, 2, 3, 4, 5, 6] };
    let other_image = other.encode();
    assert_eq!(multicall_entry_result(&other_image), 7);
    assert_eq!(&other_image[16..24], &1u64.to_le_bytes());
    assert_eq!(&other_image[56..64], &6u64.to_le_bytes());
}

#[test]
fn memory_map_query_round_trips_its_count() {
    let g = gate();
    let query = g.memory_map(0, 0);
    let mut image = query.encode();
    assert_eq!(image.len(), 16);
    // Stub kernel: report the entry count.
    image[0..4].copy_from_slice(&12u32.to_le_bytes());
    assert_eq!(memory_map_count(&image), 12);
    let sized = MemoryMap { count: 12, buffer: 0x5000 }.encode();
    assert_eq!(&sized[0..4], &12u32.to_le_bytes());
    assert_eq!(&sized[8..16], &0x5000u64.to_le_bytes());
}

#[test]
fn vcpu_context_and_frame_info_carry_their_pointers() {
    let g = gate();
    let get = g.get_vcpu_context(4, 1, 0x7000);
    let image = get.encode();
    assert_eq!(&image[16..20], &1u32.to_le_bytes());
    assert_eq!(&image[24..32], &0x7000u64.to_le_bytes());
    let set = g.set_vcpu_context(4, 1, 0x7000);
    assert_eq!(set.encode()[16..], image[16..]);
    let frames = g.get_page_frame_info(4, 3, 0x9000);
    let frame_image = frames.encode();
    assert_eq!(&frame_image[16..24], &3u64.to_le_bytes());
    assert_eq!(&frame_image[24..32], &0x9000u64.to_le_bytes());
    let init = g.hypercall_init(4, 0x1f00);
    assert_eq!(&init.encode()[16..24], &0x1f00u64.to_le_bytes());
}

#[test]
fn reservations_and_resources_encode_their_fields() {
    let g = gate();
    let claim = g.claim_pages(7, 512);
    assert_eq!(claim.nr_extents, 512);
    assert_eq!(claim.domid, 7);
    let claim_image = claim.encode();
    assert_eq!(claim_image.len(), 32);
    assert_eq!(&claim_image[8..16], &512u64.to_le_bytes());
    assert_eq!(&claim_image[24..26], &7u16.to_le_bytes());
    assert!(claim_image[26..].iter().all(|b| *b == 0));
    let call = g.claim_pages_call(0x3000);
    assert_eq!(call.op, HYPERVISOR_MEMORY_OP);
    let resource = g.map_resource(3, 1, 0, 2, 8, 0x4000);
    let resource_image = resource.encode();
    assert_eq!(&resource_image[0..2], &3u16.to_le_bytes());
    assert_eq!(&resource_image[4..8], &1u32.to_le_bytes());
    assert_eq!(&resource_image[12..16], &2u32.to_le_bytes());
    assert_eq!(&resource_image[16..24], &8u64.to_le_bytes());
    assert_eq!(&resource_image[24..32], &0x4000u64.to_le_bytes());
    let mmu = g.mmuext(14, 0xaa, 0xbb);
    let mmu_image = mmu.encode();
    assert_eq!(&mmu_image[0..4], &14u32.to_le_bytes());
    assert_eq!(&mmu_image[8..16], &0xaau64.to_le_bytes());
    assert_eq!(&mmu_image[16..24], &0xbbu64.to_le_bytes());
}
