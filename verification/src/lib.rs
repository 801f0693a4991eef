//! Client core for driving a type-1 hypervisor from a privileged
//! management domain.
//!
//! The crate is organised in two layers. The call-gate layer ([`call`],
//! [`sys`]) builds the packed descriptors that travel through the
//! hypervisor's privileged command device and makes every decision of the
//! transport protocols: interface-version negotiation, the paging-aware
//! retry of batched foreign mappings, and the interpretation of
//! populate-physmap results. The memory layer ([`mem`]) owns the foreign
//! page windows of one target domain and translates guest page-frame
//! ranges into host addresses. [`launchcfg`] defines the shape of the
//! configuration document handed to a guest's init process.
//!
//! The kernel calls themselves (opening the device, ioctls, `mmap`,
//! sleeping, the serialization permit) cannot be expressed here; an
//! unverified shell performs them and feeds every result back into the
//! verified decision functions.

pub mod call;
pub mod error;
pub mod launchcfg;
pub mod mem;
pub mod sys;
