//! An in-memory backend: a verified implementation of the control-plane
//! port against the kernel model, for exercising the protocol without a
//! kernel.  It can also inject one failure at a chosen operation, to
//! observe how the allocation protocol aborts.

use crate::linux::backend::{
    control_can_succeed, Backend, ControlCall, DeviceCall, IfaceState, KOp, KernelState,
    DEFAULT_MTU,
};
use crate::linux::request::{IfReq, Prop, SockAddr};
use crate::result::TunError;
use vstd::prelude::*;

verus! {

/// The error code the injected failure reports.
const EIO: i32 = 5;

/// The error code for querying an address that was never set.
const EADDRNOTAVAIL: i32 = 99;

/// The descriptor number the fake control socket gets.
const FAKE_SOCKET_FD: i32 = 1000;

/// An in-memory implementation of the control-plane port.  It holds the
/// model state directly and follows the model transitions exactly; it
/// can be told to fail at one chosen operation.
pub struct FakeBackend {
    created: bool,
    name_buf: [u8; 16],
    dev_flags: i16,
    queues: Ghost<int>,
    link_flags: i16,
    mtu: i32,
    addr: Option<SockAddr>,
    dst: Option<SockAddr>,
    brd: Option<SockAddr>,
    mask: Option<SockAddr>,
    owner: Option<i32>,
    group: Option<i32>,
    persist: bool,
    ops_done: u32,
    fail_at: Option<u32>,
    log: Ghost<Seq<KOp>>,
}

impl FakeBackend {
    /// The kernel model state this backend currently holds.
    pub closed spec fn st_spec(&self) -> KernelState {
        KernelState {
            iface: if self.created {
                Some(
                    IfaceState {
                        name: self.name_buf@,
                        dev_flags: self.dev_flags,
                        queues: self.queues@,
                        link_flags: self.link_flags,
                        mtu: self.mtu,
                        addr: self.addr,
                        dst: self.dst,
                        brd: self.brd,
                        mask: self.mask,
                        owner: self.owner,
                        group: self.group,
                        persist: self.persist,
                    },
                )
            } else {
                None
            },
            log: self.log@,
        }
    }

    /// Whether this backend was told to fail at no operation at all.
    pub closed spec fn never_fails(&self) -> bool {
        self.fail_at is None
    }

    /// A backend with no interface, an empty log, and no injected
    /// failure.
    pub fn new() -> (r: FakeBackend)
        ensures
            r.st_spec().iface is None,
            r.st_spec().log == Seq::<KOp>::empty(),
            r.never_fails(),
    {
        FakeBackend {
            created: false,
            name_buf: [0; 16],
            dev_flags: 0,
            queues: Ghost(0int),
            link_flags: 0,
            mtu: DEFAULT_MTU,
            addr: None,
            dst: None,
            brd: None,
            mask: None,
            owner: None,
            group: None,
            persist: false,
            ops_done: 0,
            fail_at: None,
            log: Ghost(Seq::empty()),
        }
    }

    /// A fresh backend that fails the operation with the given index
    /// (counting every port operation from zero) and succeeds otherwise.
    pub fn failing_at(op_index: u32) -> (r: FakeBackend)
        ensures
            r.st_spec().iface is None,
            r.st_spec().log == Seq::<KOp>::empty(),
    {
        let mut backend = FakeBackend::new();
        backend.fail_at = Some(op_index);
        backend
    }

    /// Counts one operation and says whether it is the one told to fail.
    fn step_fails(&mut self) -> (r: bool)
        ensures
            final(self).st_spec() == old(self).st_spec(),
            final(self).never_fails() == old(self).never_fails(),
            old(self).never_fails() ==> !r,
    {
        let hit = match self.fail_at {
            Some(n) => n == self.ops_done,
            None => false,
        };
        if self.ops_done < u32::MAX {
            self.ops_done = self.ops_done + 1;
        }
        hit
    }
}

impl Backend for FakeBackend {
    open spec fn st(&self) -> KernelState {
        self.st_spec()
    }

    fn attach(&mut self, fd: i32, req: &mut IfReq) -> (r: Result<(), TunError>)
        ensures
            final(self).never_fails() == old(self).never_fails(),
            old(self).never_fails() ==> r is Ok,
    {
        if self.step_fails() {
            return Err(TunError::OsCallFailed(EIO));
        }
        if !self.created {
            if req.name[0] == 0 {
                let mut assigned: [u8; 16] = [0; 16];
                assigned[0] = 116;  // 't'
                assigned[1] = 117;  // 'u'
                assigned[2] = 110;  // 'n'
                assigned[3] = 48;  // '0'
                req.name = assigned;
            }
            let flags = match req.prop {
                Prop::Flags(f) => f,
                _ => 0,
            };
            self.created = true;
            self.name_buf = req.name;
            self.dev_flags = flags;
            self.queues = Ghost(1int);
            self.link_flags = 0;
            self.mtu = DEFAULT_MTU;
            self.addr = None;
            self.dst = None;
            self.brd = None;
            self.mask = None;
            self.owner = None;
            self.group = None;
            self.persist = false;
            self.log = Ghost(self.log@.push(KOp::Attach));
            Ok(())
        } else {
            self.queues = Ghost(self.queues@ + 1);
            self.log = Ghost(self.log@.push(KOp::Attach));
            Ok(())
        }
    }

    fn open_socket(&mut self) -> (r: Result<i32, TunError>)
        ensures
            final(self).never_fails() == old(self).never_fails(),
            old(self).never_fails() ==> r is Ok,
    {
        if self.step_fails() {
            return Err(TunError::OsCallFailed(EIO));
        }
        Ok(FAKE_SOCKET_FD)
    }

    fn control(&mut self, socket: i32, call: ControlCall, req: &mut IfReq) -> (r: Result<
        (),
        TunError,
    >)
        ensures
            final(self).never_fails() == old(self).never_fails(),
            old(self).never_fails() ==> (r is Ok <==> control_can_succeed(
                old(self).st_spec(),
                call,
            )),
    {
        if self.step_fails() {
            return Err(TunError::OsCallFailed(EIO));
        }
        match call {
            ControlCall::GetMtu => {
                req.prop = Prop::Mtu(self.mtu);
                self.log = Ghost(self.log@.push(KOp::GetMtu));
                Ok(())
            },
            ControlCall::SetMtu => {
                if let Prop::Mtu(m) = req.prop {
                    self.mtu = m;
                }
                self.log = Ghost(self.log@.push(KOp::SetMtu));
                Ok(())
            },
            ControlCall::GetFlags => {
                req.prop = Prop::Flags(self.link_flags);
                self.log = Ghost(self.log@.push(KOp::GetFlags));
                Ok(())
            },
            ControlCall::SetFlags => {
                if let Prop::Flags(f) = req.prop {
                    self.link_flags = f;
                }
                self.log = Ghost(self.log@.push(KOp::SetFlags));
                Ok(())
            },
            ControlCall::GetAddr => {
                match self.addr {
                    Some(a) => {
                        req.prop = Prop::Addr(a);
                        self.log = Ghost(self.log@.push(KOp::GetAddr));
                        Ok(())
                    },
                    None => Err(TunError::OsCallFailed(EADDRNOTAVAIL)),
                }
            },
            ControlCall::SetAddr => {
                if let Prop::Addr(a) = req.prop {
                    self.addr = Some(a);
                }
                self.log = Ghost(self.log@.push(KOp::SetAddr));
                Ok(())
            },
            ControlCall::GetDst => {
                match self.dst {
                    Some(a) => {
                        req.prop = Prop::Addr(a);
                        self.log = Ghost(self.log@.push(KOp::GetDst));
                        Ok(())
                    },
                    None => Err(TunError::OsCallFailed(EADDRNOTAVAIL)),
                }
            },
            ControlCall::SetDst => {
                if let Prop::Addr(a) = req.prop {
                    self.dst = Some(a);
                }
                self.log = Ghost(self.log@.push(KOp::SetDst));
                Ok(())
            },
            ControlCall::GetBrd => {
                match self.brd {
                    Some(a) => {
                        req.prop = Prop::Addr(a);
                        self.log = Ghost(self.log@.push(KOp::GetBrd));
                        Ok(())
                    },
                    None => Err(TunError::OsCallFailed(EADDRNOTAVAIL)),
                }
            },
            ControlCall::SetBrd => {
                if let Prop::Addr(a) = req.prop {
                    self.brd = Some(a);
                }
                self.log = Ghost(self.log@.push(KOp::SetBrd));
                Ok(())
            },
            ControlCall::GetMask => {
                match self.mask {
                    Some(a) => {
                        req.prop = Prop::Addr(a);
                        self.log = Ghost(self.log@.push(KOp::GetNetmask));
                        Ok(())
                    },
                    None => Err(TunError::OsCallFailed(EADDRNOTAVAIL)),
                }
            },
            ControlCall::SetMask => {
                if let Prop::Addr(a) = req.prop {
                    self.mask = Some(a);
                }
                self.log = Ghost(self.log@.push(KOp::SetNetmask));
                Ok(())
            },
        }
    }

    fn device(&mut self, fd: i32, call: DeviceCall) -> (r: Result<(), TunError>)
        ensures
            final(self).never_fails() == old(self).never_fails(),
            old(self).never_fails() ==> r is Ok,
    {
        if self.step_fails() {
            return Err(TunError::OsCallFailed(EIO));
        }
        match call {
            DeviceCall::SetOwner(o) => {
                self.owner = Some(o);
                self.log = Ghost(self.log@.push(KOp::SetOwner));
            },
            DeviceCall::SetGroup(g) => {
                self.group = Some(g);
                self.log = Ghost(self.log@.push(KOp::SetGroup));
            },
            DeviceCall::SetPersist => {
                self.persist = true;
                self.log = Ghost(self.log@.push(KOp::SetPersist));
            },
        }
        Ok(())
    }
}

} // verus!
