//! The interface handle: the resolved interface name together with the
//! descriptors its operations run on, and one get/set operation per
//! configurable property.

use crate::linux::backend::{
    kernel_iface, name_buf_empty, read_log, with_iface_log, Backend, ControlCall, DeviceCall,
    IfaceState, KOp, KernelState,
};
use crate::linux::address::{is_ipv4_payload, ipv4_decode, Ipv4AddrExt, Ipv4Addr, AF_INET};
use crate::linux::request::{name_chars, padded_name, IfReq, Prop};
use crate::result::TunError;
use vstd::prelude::*;
use vstd::string::StringSliceAdditionalSpecFns;

verus! {

/// The error code reported when a query reply carries the wrong property.
const EBADMSG: i32 = 74;

/// A handle on one configured kernel interface: the resolved name, the
/// first device descriptor (for the fire-and-forget device calls), and
/// the auxiliary control socket (for every get/set property call).
/// Several packet-queue handles share one of these.  The handle adds no
/// locking of its own: concurrent configuration mutations through a
/// shared handle land in last-writer-wins order at the kernel.
#[derive(Debug)]
pub struct Interface {
    fd: i32,
    socket: i32,
    name_buf: [u8; 16],
    name: String,
}

impl Interface {
    /// The resolved name buffer this handle operates on.
    pub closed spec fn spec_name_buf(&self) -> Seq<u8> {
        self.name_buf@
    }

    /// The control socket this handle's property calls run on.
    pub closed spec fn spec_socket(&self) -> i32 {
        self.socket
    }

    /// The device descriptor this handle's device calls run on.
    pub closed spec fn spec_fd(&self) -> i32 {
        self.fd
    }

    /// The handle's name string always reads back its name buffer, and
    /// the resolved name is never empty.
    #[verifier::type_invariant]
    spec fn type_inv(&self) -> bool {
        &&& self.name@ == name_chars(self.name_buf@)
        &&& !name_buf_empty(self.name_buf@)
    }

    /// Whether this handle operates on the interface a kernel state
    /// holds.
    pub open spec fn attached_to(&self, st: KernelState) -> bool {
        &&& st.iface is Some
        &&& kernel_iface(st).name == self.spec_name_buf()
    }

    /// Opens the interface: attaches every given descriptor to one
    /// interface of the requested name and creation flags — the kernel
    /// resolves the name on the first attach, and the later descriptors
    /// fan in to the same interface — then opens the control socket.
    pub fn new<B: Backend>(backend: &mut B, fds: &Vec<i32>, name: &str, flags: i16) -> (r: Result<
        Interface,
        TunError,
    >)
        requires
            fds@.len() >= 1,
            old(backend).st().iface is None,
        ensures
            r matches Ok(iface) ==> ({
                let st1 = final(backend).st();
                &&& iface.attached_to(st1)
                &&& iface.spec_fd() == fds@[0]
                &&& !name_buf_empty(iface.spec_name_buf())
                &&& st1.iface is Some
                &&& kernel_iface(st1) == (IfaceState {
                    name: iface.spec_name_buf(),
                    dev_flags: flags,
                    queues: fds@.len() as int,
                    ..crate::linux::backend::fresh_iface(iface.spec_name_buf(), flags)
                })
                &&& !name_buf_empty(padded_name(name.spec_bytes())) ==> iface.spec_name_buf()
                    == padded_name(name.spec_bytes())
                &&& st1.log == old(backend).st().log + Seq::new(
                    fds@.len() as nat,
                    |i: int| KOp::Attach,
                )
            }),
    {
        let ghost st0 = backend.st();
        let mut req = IfReq::new(name);
        req.prop = Prop::Flags(flags);
        let ghost requested = req.name@;
        let mut k: usize = 0;
        while k < fds.len()
            invariant
                fds@.len() >= 1,
                k <= fds@.len(),
                req.prop == Prop::Flags(flags),
                k == 0 ==> backend.st() == st0 && req.name@ == requested,
                st0.iface is None,
                k > 0 ==> ({
                    &&& backend.st().iface is Some
                    &&& kernel_iface(backend.st()) == (IfaceState {
                        name: req.name@,
                        dev_flags: flags,
                        queues: k as int,
                        ..crate::linux::backend::fresh_iface(req.name@, flags)
                    })
                    &&& req.name@.len() == 16
                    &&& !name_buf_empty(req.name@)
                    &&& (!name_buf_empty(requested) ==> req.name@ == requested)
                    &&& backend.st().log == st0.log + Seq::new(k as nat, |i: int| KOp::Attach)
                }),
            decreases fds@.len() - k,
        {
            let ghost st_before = backend.st();
            backend.attach(fds[k], &mut req)?;
            proof {
                assert(backend.st().log =~= st0.log + Seq::new((k + 1) as nat, |i: int| KOp::Attach));
            }
            k = k + 1;
        }
        let socket = backend.open_socket()?;
        let name_string = req.name();
        Ok(Interface { fd: fds[0], socket, name_buf: req.name, name: name_string })
    }

    /// The resolved name of the interface.  A pure accessor: no control
    /// call is issued.
    pub fn name(&self) -> (r: &str)
        ensures
            r@ == name_chars(self.spec_name_buf()),
    {
        proof {
            use_type_invariant(self);
        }
        self.name.as_str()
    }

    /// Queries or sets the maximum transmission unit.  With a value, the
    /// set operation is issued and the value set is returned; without
    /// one, the get operation is issued and the read value is returned.
    pub fn mtu<B: Backend>(&self, backend: &mut B, mtu: Option<i32>) -> (r: Result<i32, TunError>)
        requires
            self.attached_to(old(backend).st()),
        ensures
            r matches Ok(v) ==> ({
                let st0 = old(backend).st();
                match mtu {
                    Some(m) => v == m && final(backend).st() == with_iface_log(
                        st0,
                        (IfaceState { mtu: m, ..kernel_iface(st0) }),
                        KOp::SetMtu,
                    ),
                    None => v == kernel_iface(st0).mtu && final(backend).st() == read_log(
                        st0,
                        KOp::GetMtu,
                    ),
                }
            }),
    {
        let mut req = IfReq::from_buf(self.name_buf);
        match mtu {
            Some(m) => {
                req.prop = Prop::Mtu(m);
                backend.control(self.socket, ControlCall::SetMtu, &mut req)?;
                Ok(m)
            },
            None => {
                backend.control(self.socket, ControlCall::GetMtu, &mut req)?;
                match req.prop {
                    Prop::Mtu(v) => Ok(v),
                    _ => Err(TunError::OsCallFailed(EBADMSG)),
                }
            },
        }
    }

    /// Queries or sets the IPv4 address.  A set echoes back the value it
    /// wrote without re-querying the kernel; a get decodes the address
    /// field of the reply.
    pub fn address<B: Backend>(&self, backend: &mut B, address: Option<Ipv4Addr>) -> (r: Result<
        Ipv4Addr,
        TunError,
    >)
        requires
            self.attached_to(old(backend).st()),
        ensures
            r matches Ok(v) ==> ({
                let st0 = old(backend).st();
                let st1 = final(backend).st();
                match address {
                    Some(a) => {
                        &&& v == a
                        &&& kernel_iface(st1).addr matches Some(s) && s.family == AF_INET
                            && is_ipv4_payload(s.data@, a@)
                        &&& st1 == with_iface_log(
                            st0,
                            (IfaceState { addr: kernel_iface(st1).addr, ..kernel_iface(st0) }),
                            KOp::SetAddr,
                        )
                    },
                    None => {
                        &&& kernel_iface(st0).addr matches Some(s) && v@ == ipv4_decode(s)
                        &&& st1 == read_log(st0, KOp::GetAddr)
                    },
                }
            }),
    {
        let mut req = IfReq::from_buf(self.name_buf);
        match address {
            Some(a) => {
                req.prop = Prop::Addr(a.to_address());
                backend.control(self.socket, ControlCall::SetAddr, &mut req)?;
                Ok(a)
            },
            None => {
                backend.control(self.socket, ControlCall::GetAddr, &mut req)?;
                match req.prop {
                    Prop::Addr(s) => Ok(Ipv4Addr::from_address(s)),
                    _ => Err(TunError::OsCallFailed(EBADMSG)),
                }
            },
        }
    }

    /// Queries or sets the IPv4 point-to-point destination, in the same
    /// echo-back pattern as [`Self::address`].
    pub fn destination<B: Backend>(&self, backend: &mut B, dst: Option<Ipv4Addr>) -> (r: Result<
        Ipv4Addr,
        TunError,
    >)
        requires
            self.attached_to(old(backend).st()),
        ensures
            r matches Ok(v) ==> ({
                let st0 = old(backend).st();
                let st1 = final(backend).st();
                match dst {
                    Some(a) => {
                        &&& v == a
                        &&& kernel_iface(st1).dst matches Some(s) && s.family == AF_INET
                            && is_ipv4_payload(s.data@, a@)
                        &&& st1 == with_iface_log(
                            st0,
                            (IfaceState { dst: kernel_iface(st1).dst, ..kernel_iface(st0) }),
                            KOp::SetDst,
                        )
                    },
                    None => {
                        &&& kernel_iface(st0).dst matches Some(s) && v@ == ipv4_decode(s)
                        &&& st1 == read_log(st0, KOp::GetDst)
                    },
                }
            }),
    {
        let mut req = IfReq::from_buf(self.name_buf);
        match dst {
            Some(a) => {
                req.prop = Prop::Addr(a.to_address());
                backend.control(self.socket, ControlCall::SetDst, &mut req)?;
                Ok(a)
            },
            None => {
                backend.control(self.socket, ControlCall::GetDst, &mut req)?;
                match req.prop {
                    Prop::Addr(s) => Ok(Ipv4Addr::from_address(s)),
                    _ => Err(TunError::OsCallFailed(EBADMSG)),
                }
            },
        }
    }

    /// Queries or sets the IPv4 broadcast address, in the same echo-back
    /// pattern as [`Self::address`].
    pub fn broadcast<B: Backend>(&self, backend: &mut B, broadcast: Option<Ipv4Addr>) -> (r:
        Result<Ipv4Addr, TunError>)
        requires
            self.attached_to(old(backend).st()),
        ensures
            r matches Ok(v) ==> ({
                let st0 = old(backend).st();
                let st1 = final(backend).st();
                match broadcast {
                    Some(a) => {
                        &&& v == a
                        &&& kernel_iface(st1).brd matches Some(s) && s.family == AF_INET
                            && is_ipv4_payload(s.data@, a@)
                        &&& st1 == with_iface_log(
                            st0,
                            (IfaceState { brd: kernel_iface(st1).brd, ..kernel_iface(st0) }),
                            KOp::SetBrd,
                        )
                    },
                    None => {
                        &&& kernel_iface(st0).brd matches Some(s) && v@ == ipv4_decode(s)
                        &&& st1 == read_log(st0, KOp::GetBrd)
                    },
                }
            }),
    {
        let mut req = IfReq::from_buf(self.name_buf);
        match broadcast {
            Some(a) => {
                req.prop = Prop::Addr(a.to_address());
                backend.control(self.socket, ControlCall::SetBrd, &mut req)?;
                Ok(a)
            },
            None => {
                backend.control(self.socket, ControlCall::GetBrd, &mut req)?;
                match req.prop {
                    Prop::Addr(s) => Ok(Ipv4Addr::from_address(s)),
                    _ => Err(TunError::OsCallFailed(EBADMSG)),
                }
            },
        }
    }

    /// Queries or sets the IPv4 netmask, in the same echo-back pattern
    /// as [`Self::address`].
    pub fn netmask<B: Backend>(&self, backend: &mut B, netmask: Option<Ipv4Addr>) -> (r: Result<
        Ipv4Addr,
        TunError,
    >)
        requires
            self.attached_to(old(backend).st()),
        ensures
            r matches Ok(v) ==> ({
                let st0 = old(backend).st();
                let st1 = final(backend).st();
                match netmask {
                    Some(a) => {
                        &&& v == a
                        &&& kernel_iface(st1).mask matches Some(s) && s.family == AF_INET
                            && is_ipv4_payload(s.data@, a@)
                        &&& st1 == with_iface_log(
                            st0,
                            (IfaceState { mask: kernel_iface(st1).mask, ..kernel_iface(st0) }),
                            KOp::SetNetmask,
                        )
                    },
                    None => {
                        &&& kernel_iface(st0).mask matches Some(s) && v@ == ipv4_decode(s)
                        &&& st1 == read_log(st0, KOp::GetNetmask)
                    },
                }
            }),
    {
        let mut req = IfReq::from_buf(self.name_buf);
        match netmask {
            Some(a) => {
                req.prop = Prop::Addr(a.to_address());
                backend.control(self.socket, ControlCall::SetMask, &mut req)?;
                Ok(a)
            },
            None => {
                backend.control(self.socket, ControlCall::GetMask, &mut req)?;
                match req.prop {
                    Prop::Addr(s) => Ok(Ipv4Addr::from_address(s)),
                    _ => Err(TunError::OsCallFailed(EBADMSG)),
                }
            },
        }
    }

    /// Queries or adds to the link flags.  The current flags are always
    /// read first; requested bits are ORed into them, never replacing
    /// them, so adding one flag cannot clear unrelated bits.  Returns
    /// the resulting (or, without an argument, the queried) flag word.
    pub fn flags<B: Backend>(&self, backend: &mut B, flags: Option<i16>) -> (r: Result<
        i16,
        TunError,
    >)
        requires
            self.attached_to(old(backend).st()),
        ensures
            r matches Ok(v) ==> ({
                let st0 = old(backend).st();
                let current = kernel_iface(st0).link_flags;
                match flags {
                    Some(bits) => v == (current | bits) && final(backend).st() == with_iface_log(
                        read_log(st0, KOp::GetFlags),
                        (IfaceState { link_flags: (current | bits), ..kernel_iface(st0) }),
                        KOp::SetFlags,
                    ),
                    None => v == current && final(backend).st() == read_log(st0, KOp::GetFlags),
                }
            }),
    {
        let mut req = IfReq::from_buf(self.name_buf);
        backend.control(self.socket, ControlCall::GetFlags, &mut req)?;
        let current = match req.prop {
            Prop::Flags(f) => f,
            _ => {
                return Err(TunError::OsCallFailed(EBADMSG));
            },
        };
        match flags {
            Some(bits) => {
                let combined = current | bits;
                req.prop = Prop::Flags(combined);
                backend.control(self.socket, ControlCall::SetFlags, &mut req)?;
                Ok(combined)
            },
            None => Ok(current),
        }
    }

    /// Sets the owning user of the device: a one-shot call on the device
    /// descriptor, no readback.
    pub fn owner<B: Backend>(&self, backend: &mut B, owner: i32) -> (r: Result<(), TunError>)
        requires
            self.attached_to(old(backend).st()),
        ensures
            r is Ok ==> final(backend).st() == with_iface_log(
                old(backend).st(),
                (IfaceState { owner: Some(owner), ..kernel_iface(old(backend).st()) }),
                KOp::SetOwner,
            ),
    {
        backend.device(self.fd, DeviceCall::SetOwner(owner))
    }

    /// Sets the owning group of the device: a one-shot call on the
    /// device descriptor, no readback.
    pub fn group<B: Backend>(&self, backend: &mut B, group: i32) -> (r: Result<(), TunError>)
        requires
            self.attached_to(old(backend).st()),
        ensures
            r is Ok ==> final(backend).st() == with_iface_log(
                old(backend).st(),
                (IfaceState { group: Some(group), ..kernel_iface(old(backend).st()) }),
                KOp::SetGroup,
            ),
    {
        backend.device(self.fd, DeviceCall::SetGroup(group))
    }

    /// Marks the interface as surviving closure of its descriptors.
    /// Irreversible from this handle: there is no unpersist.
    pub fn persist<B: Backend>(&self, backend: &mut B) -> (r: Result<(), TunError>)
        requires
            self.attached_to(old(backend).st()),
        ensures
            r is Ok ==> final(backend).st() == with_iface_log(
                old(backend).st(),
                (IfaceState { persist: true, ..kernel_iface(old(backend).st()) }),
                KOp::SetPersist,
            ),
    {
        backend.device(self.fd, DeviceCall::SetPersist)
    }

    /// Multi-queue sharing: configuration state lives in the one kernel
    /// interface, not in a handle.  After one handle's successful MTU
    /// set, every other handle attached to the same interface is still
    /// attached and a get through it reads the value just set.
    pub proof fn lemma_shared_mtu_visibility(
        h1: Interface,
        h2: Interface,
        st0: KernelState,
        m: i32,
    )
        requires
            h1.attached_to(st0),
            h2.attached_to(st0),
        ensures
            ({
                let st1 = with_iface_log(
                    st0,
                    (IfaceState { mtu: m, ..kernel_iface(st0) }),
                    KOp::SetMtu,
                );
                h2.attached_to(st1) && kernel_iface(st1).mtu == m
            }),
    {
    }

    /// The raw control-socket descriptor, for the unverified surroundings
    /// that own and eventually close it.
    pub fn control_socket(&self) -> (r: i32)
        ensures
            r == self.spec_socket(),
    {
        self.socket
    }

    /// The raw device descriptor the fire-and-forget calls run on.
    pub fn device_fd(&self) -> (r: i32)
        ensures
            r == self.spec_fd(),
    {
        self.fd
    }
}

} // verus!
