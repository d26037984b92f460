//! A model of the kernel side of the control-plane protocol, and the port
//! through which every control call is issued.
//!
//! The model covers one allocation session: a single interface, created
//! by the first attach call and then configured through the control
//! socket.  A freshly created interface is idealized as fully quiescent:
//! link flags clear (the device starts down), the platform default MTU,
//! and no addresses, owner, group, or persistence.  Every operation also
//! appends a record to a ghost log, so contracts can pin down the exact
//! order in which configuration steps were issued.

use crate::linux::request::{IfReq, Prop, SockAddr};
use crate::result::TunError;
use vstd::prelude::*;

verus! {

/// The default maximum transmission unit of a freshly created interface.
pub const DEFAULT_MTU: i32 = 1500;

/// The model of one kernel interface.
pub ghost struct IfaceState {
    /// The resolved name buffer, sixteen bytes, null-padded.
    pub name: Seq<u8>,
    /// The device-kind flags the interface was created with.
    pub dev_flags: i16,
    /// How many packet-queue descriptors are attached.
    pub queues: int,
    /// The link flags (up, running, ...).
    pub link_flags: i16,
    /// The maximum transmission unit.
    pub mtu: i32,
    /// The IPv4 address, once one has been set.
    pub addr: Option<SockAddr>,
    /// The point-to-point destination, once one has been set.
    pub dst: Option<SockAddr>,
    /// The broadcast address, once one has been set.
    pub brd: Option<SockAddr>,
    /// The netmask, once one has been set.
    pub mask: Option<SockAddr>,
    /// The owning user id, once one has been set.
    pub owner: Option<i32>,
    /// The owning group id, once one has been set.
    pub group: Option<i32>,
    /// Whether the interface survives closure of its descriptors.
    pub persist: bool,
}

/// One entry of the ghost operation log: which control operation ran.
pub ghost enum KOp {
    /// The interface-creation/attach call on a device descriptor.
    Attach,
    /// Wrote the maximum transmission unit.
    SetMtu,
    /// Read the maximum transmission unit.
    GetMtu,
    /// Set the owning user of the device.
    SetOwner,
    /// Set the owning group of the device.
    SetGroup,
    /// Marked the interface persistent.
    SetPersist,
    /// Wrote the IPv4 address.
    SetAddr,
    /// Read the IPv4 address.
    GetAddr,
    /// Wrote the netmask.
    SetNetmask,
    /// Read the netmask.
    GetNetmask,
    /// Wrote the point-to-point destination.
    SetDst,
    /// Read the point-to-point destination.
    GetDst,
    /// Wrote the broadcast address.
    SetBrd,
    /// Read the broadcast address.
    GetBrd,
    /// Read the link flags.
    GetFlags,
    /// Wrote the link flags.
    SetFlags,
}

/// The model of the kernel state behind a backend: at most one interface,
/// plus the log of every operation issued so far.
pub ghost struct KernelState {
    /// The interface of this allocation session, once created.
    pub iface: Option<IfaceState>,
    /// Every control operation issued so far, in order.
    pub log: Seq<KOp>,
}

/// A name buffer whose very first byte is the terminator: no name at all.
pub open spec fn name_buf_empty(buf: Seq<u8>) -> bool {
    buf.len() == 0 || buf[0] == 0u8
}

/// The interface behind a kernel state that has one.
pub open spec fn kernel_iface(st: KernelState) -> IfaceState {
    st.iface->0
}

/// The model of a freshly created interface: down with all link flags
/// clear, the default MTU, and nothing else configured.
pub open spec fn fresh_iface(name: Seq<u8>, dev_flags: i16) -> IfaceState {
    IfaceState {
        name,
        dev_flags,
        queues: 1,
        link_flags: 0i16,
        mtu: DEFAULT_MTU,
        addr: None,
        dst: None,
        brd: None,
        mask: None,
        owner: None,
        group: None,
        persist: false,
    }
}

/// The state after a query: unchanged but for the log record.
pub open spec fn read_log(st: KernelState, op: KOp) -> KernelState {
    KernelState { iface: st.iface, log: st.log.push(op) }
}

/// The state after a mutation: the interface replaced, the log extended.
pub open spec fn with_iface_log(st: KernelState, i: IfaceState, op: KOp) -> KernelState {
    KernelState { iface: Some(i), log: st.log.push(op) }
}

/// What an attach call demands of its caller: the request carries the
/// creation flags, and an attach to an existing interface (multi-queue
/// fan-in) names that interface and repeats its creation flags.
pub open spec fn attach_requires(st0: KernelState, req: IfReq) -> bool {
    &&& req.prop is Flags
    &&& match st0.iface {
        Option::None => true,
        Option::Some(i) => req.name@ == i.name && req.prop == Prop::Flags(i.dev_flags),
    }
}

/// What a successful attach call did.  The first attach creates the
/// interface; the kernel writes the resolved name back into the request
/// buffer, assigning a name exactly when none was requested.  Later
/// attaches add one packet queue to the existing interface and leave the
/// request alone.
pub open spec fn attach_transition(
    st0: KernelState,
    st1: KernelState,
    req0: IfReq,
    req1: IfReq,
) -> bool {
    match st0.iface {
        Option::None => {
            &&& req1.prop == req0.prop
            &&& req1.name@.len() == 16
            &&& !name_buf_empty(req1.name@)
            &&& (!name_buf_empty(req0.name@) ==> req1.name@ == req0.name@)
            &&& st1 == with_iface_log(st0, fresh_iface(req1.name@, req0.prop->Flags_0), KOp::Attach)
        },
        Option::Some(i0) => {
            &&& req1 == req0
            &&& st1 == with_iface_log(st0, (IfaceState { queues: i0.queues + 1, ..i0 }), KOp::Attach)
        },
    }
}

/// Which get/set control operation to issue on the control socket.
#[derive(Clone, Copy, Debug, PartialEq, Eq, Structural)]
pub enum ControlCall {
    /// Read the maximum transmission unit.
    GetMtu,
    /// Write the maximum transmission unit from the request.
    SetMtu,
    /// Read the link flags.
    GetFlags,
    /// Write the link flags from the request.
    SetFlags,
    /// Read the IPv4 address.
    GetAddr,
    /// Write the IPv4 address from the request.
    SetAddr,
    /// Read the point-to-point destination.
    GetDst,
    /// Write the point-to-point destination from the request.
    SetDst,
    /// Read the broadcast address.
    GetBrd,
    /// Write the broadcast address from the request.
    SetBrd,
    /// Read the netmask.
    GetMask,
    /// Write the netmask from the request.
    SetMask,
}

/// What a control call demands of its caller: an interface exists, the
/// request names it, and a mutating call has the matching property in the
/// slot.
pub open spec fn control_requires(st0: KernelState, call: ControlCall, req: IfReq) -> bool {
    &&& st0.iface matches Option::Some(i) && req.name@ == i.name
    &&& match call {
        ControlCall::SetMtu => req.prop is Mtu,
        ControlCall::SetFlags => req.prop is Flags,
        ControlCall::SetAddr => req.prop is Addr,
        ControlCall::SetDst => req.prop is Addr,
        ControlCall::SetBrd => req.prop is Addr,
        ControlCall::SetMask => req.prop is Addr,
        _ => true,
    }
}

/// What a successful control call did.  Queries leave the state alone and
/// write the property into the request slot; a query for an address that
/// was never set cannot succeed.  Mutations take the property out of the
/// request slot and leave the request alone.
pub open spec fn control_transition(
    st0: KernelState,
    st1: KernelState,
    call: ControlCall,
    req0: IfReq,
    req1: IfReq,
) -> bool {
    match st0.iface {
        Option::None => false,
        Option::Some(i0) => match call {
            ControlCall::GetMtu => {
                &&& st1 == read_log(st0, KOp::GetMtu)
                &&& req1 == (IfReq { prop: Prop::Mtu(i0.mtu), ..req0 })
            },
            ControlCall::SetMtu => {
                &&& req1 == req0
                &&& st1 == with_iface_log(
                    st0,
                    (IfaceState { mtu: req0.prop->Mtu_0, ..i0 }),
                    KOp::SetMtu,
                )
            },
            ControlCall::GetFlags => {
                &&& st1 == read_log(st0, KOp::GetFlags)
                &&& req1 == (IfReq { prop: Prop::Flags(i0.link_flags), ..req0 })
            },
            ControlCall::SetFlags => {
                &&& req1 == req0
                &&& st1 == with_iface_log(
                    st0,
                    (IfaceState { link_flags: req0.prop->Flags_0, ..i0 }),
                    KOp::SetFlags,
                )
            },
            ControlCall::GetAddr => {
                &&& i0.addr matches Option::Some(a)
                &&& st1 == read_log(st0, KOp::GetAddr)
                &&& req1 == (IfReq { prop: Prop::Addr(a), ..req0 })
            },
            ControlCall::SetAddr => {
                &&& req1 == req0
                &&& st1 == with_iface_log(
                    st0,
                    (IfaceState { addr: Some(req0.prop->Addr_0), ..i0 }),
                    KOp::SetAddr,
                )
            },
            ControlCall::GetDst => {
                &&& i0.dst matches Option::Some(a)
                &&& st1 == read_log(st0, KOp::GetDst)
                &&& req1 == (IfReq { prop: Prop::Addr(a), ..req0 })
            },
            ControlCall::SetDst => {
                &&& req1 == req0
                &&& st1 == with_iface_log(
                    st0,
                    (IfaceState { dst: Some(req0.prop->Addr_0), ..i0 }),
                    KOp::SetDst,
                )
            },
            ControlCall::GetBrd => {
                &&& i0.brd matches Option::Some(a)
                &&& st1 == read_log(st0, KOp::GetBrd)
                &&& req1 == (IfReq { prop: Prop::Addr(a), ..req0 })
            },
            ControlCall::SetBrd => {
                &&& req1 == req0
                &&& st1 == with_iface_log(
                    st0,
                    (IfaceState { brd: Some(req0.prop->Addr_0), ..i0 }),
                    KOp::SetBrd,
                )
            },
            ControlCall::GetMask => {
                &&& i0.mask matches Option::Some(a)
                &&& st1 == read_log(st0, KOp::GetNetmask)
                &&& req1 == (IfReq { prop: Prop::Addr(a), ..req0 })
            },
            ControlCall::SetMask => {
                &&& req1 == req0
                &&& st1 == with_iface_log(
                    st0,
                    (IfaceState { mask: Some(req0.prop->Addr_0), ..i0 }),
                    KOp::SetNetmask,
                )
            },
        },
    }
}

/// Whether the model can satisfy a control call at all: a query for an
/// address-family property that was never set has nothing to report and
/// must fail; every other call can succeed.
pub open spec fn control_can_succeed(st: KernelState, call: ControlCall) -> bool {
    match call {
        ControlCall::GetAddr => kernel_iface(st).addr is Some,
        ControlCall::GetDst => kernel_iface(st).dst is Some,
        ControlCall::GetBrd => kernel_iface(st).brd is Some,
        ControlCall::GetMask => kernel_iface(st).mask is Some,
        _ => true,
    }
}

/// Which fire-and-forget control operation to issue on a device
/// descriptor.
#[derive(Clone, Copy, Debug, PartialEq, Eq, Structural)]
pub enum DeviceCall {
    /// Set the owning user of the device.
    SetOwner(i32),
    /// Set the owning group of the device.
    SetGroup(i32),
    /// Mark the interface as surviving closure of its descriptors.
    SetPersist,
}

/// What a device call demands of its caller: the interface exists.
pub open spec fn device_requires(st0: KernelState) -> bool {
    st0.iface is Some
}

/// What a successful device call did.
pub open spec fn device_transition(st0: KernelState, st1: KernelState, call: DeviceCall) -> bool {
    match st0.iface {
        Option::None => false,
        Option::Some(i0) => match call {
            DeviceCall::SetOwner(o) => st1 == with_iface_log(
                st0,
                (IfaceState { owner: Some(o), ..i0 }),
                KOp::SetOwner,
            ),
            DeviceCall::SetGroup(g) => st1 == with_iface_log(
                st0,
                (IfaceState { group: Some(g), ..i0 }),
                KOp::SetGroup,
            ),
            DeviceCall::SetPersist => st1 == with_iface_log(
                st0,
                (IfaceState { persist: true, ..i0 }),
                KOp::SetPersist,
            ),
        },
    }
}

/// The control-plane port.  Every kernel interaction of the allocation
/// and configuration protocol goes through one of these operations, so
/// the protocol logic is verified against the model transitions above,
/// independently of what actually executes them.  The in-memory backend
/// of this crate implements the port and is verified against these
/// contracts; a backend that talks to a real kernel lives outside the
/// verified crate and is not checked against them.
pub trait Backend: Sized {
    /// The model of the kernel state behind this backend.  A backend
    /// outside the verified crate leaves it at the default.
    open spec fn st(&self) -> KernelState {
        vstd::pervasive::arbitrary()
    }

    /// The interface-creation/attach control call on a device descriptor.
    /// On success the kernel wrote the resolved name back into the
    /// request buffer.
    fn attach(&mut self, fd: i32, req: &mut IfReq) -> (r: Result<(), TunError>)
        requires
            attach_requires(old(self).st(), *old(req)),
        ensures
            r is Ok ==> attach_transition(old(self).st(), final(self).st(), *old(req), *final(req)),
    ;

    /// Opens the auxiliary control socket (internet datagram family),
    /// which changes no interface state.
    fn open_socket(&mut self) -> (r: Result<i32, TunError>)
        ensures
            r is Ok ==> final(self).st() == old(self).st(),
    ;

    /// One get/set control operation on the auxiliary control socket.
    fn control(&mut self, socket: i32, call: ControlCall, req: &mut IfReq) -> (r: Result<
        (),
        TunError,
    >)
        requires
            control_requires(old(self).st(), call, *old(req)),
        ensures
            r is Ok ==> control_transition(
                old(self).st(),
                final(self).st(),
                call,
                *old(req),
                *final(req),
            ),
    ;

    /// One fire-and-forget control operation on a device descriptor.
    fn device(&mut self, fd: i32, call: DeviceCall) -> (r: Result<(), TunError>)
        requires
            device_requires(old(self).st()),
        ensures
            r is Ok ==> device_transition(old(self).st(), final(self).st(), call),
    ;
}

} // verus!
