//! The device allocator: attaches a set of packet-queue descriptors to
//! one interface and applies the requested configuration, in a fixed
//! order, exactly once.

use crate::linux::address::{is_ipv4_payload, AF_INET};
use crate::linux::backend::{
    kernel_iface, name_buf_empty, Backend, IfaceState, KOp, DEFAULT_MTU,
};
use crate::linux::interface::Interface;
use crate::linux::params::Params;
use crate::linux::request::{padded_name, IFF_MULTI_QUEUE, IFF_RUNNING, IFF_UP};
use crate::result::TunError;
use vstd::prelude::*;
use vstd::string::StringSliceAdditionalSpecFns;

verus! {

/// The creation flag word the allocator attaches with: the requested
/// flags, plus the multi-queue bit when more than one descriptor shares
/// the interface.
pub open spec fn attach_flags_spec(p: Params, queues: int) -> i16 {
    if queues > 1 {
        p.flags | IFF_MULTI_QUEUE
    } else {
        p.flags
    }
}

/// The name bytes the allocator requests: the parameter name's bytes, or
/// none, leaving the choice to the kernel.
pub open spec fn requested_bytes(p: Params) -> Seq<u8> {
    match p.name {
        Some(n) => vstd::utf8::encode_utf8(n@),
        None => Seq::empty(),
    }
}

/// The exact order of the configuration steps the allocator issues after
/// the attach calls: MTU, then owner, group, address, netmask,
/// destination, broadcast, persistence, and bring-up last — each present
/// exactly when the corresponding parameter is.  Bring-up reads the link
/// flags and then writes them back with the up and running bits added.
pub open spec fn config_log(p: Params) -> Seq<KOp> {
    let l = Seq::<KOp>::empty();
    let l = if p.mtu is Some {
        l.push(KOp::SetMtu)
    } else {
        l
    };
    let l = if p.owner is Some {
        l.push(KOp::SetOwner)
    } else {
        l
    };
    let l = if p.group is Some {
        l.push(KOp::SetGroup)
    } else {
        l
    };
    let l = if p.address is Some {
        l.push(KOp::SetAddr)
    } else {
        l
    };
    let l = if p.netmask is Some {
        l.push(KOp::SetNetmask)
    } else {
        l
    };
    let l = if p.destination is Some {
        l.push(KOp::SetDst)
    } else {
        l
    };
    let l = if p.broadcast is Some {
        l.push(KOp::SetBrd)
    } else {
        l
    };
    let l = if p.persist {
        l.push(KOp::SetPersist)
    } else {
        l
    };
    if p.up {
        l.push(KOp::GetFlags).push(KOp::SetFlags)
    } else {
        l
    }
}

/// Everything the allocator issues, in order: one attach per descriptor,
/// then the configuration steps.
pub open spec fn alloc_log(p: Params, queues: int) -> Seq<KOp> {
    Seq::new(queues as nat, |i: int| KOp::Attach) + config_log(p)
}

/// Bring-up is the last operation of any allocation that requests it:
/// a partially configured interface is never observed up.
pub proof fn lemma_up_comes_last(p: Params, queues: int)
    requires
        p.up,
        queues >= 0,
    ensures
        alloc_log(p, queues).len() > 0,
        alloc_log(p, queues).last() == KOp::SetFlags,
{
}

/// Pushing onto a concatenation pushes onto its right part.
proof fn lemma_concat_push<T>(a: Seq<T>, b: Seq<T>, x: T)
    ensures
        (a + b).push(x) == a + b.push(x),
{
    assert((a + b).push(x) =~= a + b.push(x));
}

/// Concatenation of sequences is associative.
proof fn lemma_concat_assoc<T>(a: Seq<T>, b: Seq<T>, c: Seq<T>)
    ensures
        (a + b) + c == a + (b + c),
{
    assert((a + b) + c =~= a + (b + c));
}

/// The property part of a successful configuration: each configurable
/// property of the interface holds the parameter's value where one was
/// given and keeps the fresh-interface value where none was; the link
/// flags carry the up and running bits exactly when bring-up was
/// requested.
pub open spec fn configured_props(p: Params, i: IfaceState) -> bool {
    &&& i.mtu == (match p.mtu {
        Some(m) => m,
        None => DEFAULT_MTU,
    })
    &&& i.owner == p.owner
    &&& i.group == p.group
    &&& (match p.address {
        Some(a) => i.addr matches Some(s) && s.family == AF_INET && is_ipv4_payload(s.data@, a@),
        None => i.addr is None,
    })
    &&& (match p.netmask {
        Some(a) => i.mask matches Some(s) && s.family == AF_INET && is_ipv4_payload(s.data@, a@),
        None => i.mask is None,
    })
    &&& (match p.destination {
        Some(a) => i.dst matches Some(s) && s.family == AF_INET && is_ipv4_payload(s.data@, a@),
        None => i.dst is None,
    })
    &&& (match p.broadcast {
        Some(a) => i.brd matches Some(s) && s.family == AF_INET && is_ipv4_payload(s.data@, a@),
        None => i.brd is None,
    })
    &&& i.persist == p.persist
    &&& i.link_flags == (if p.up {
        (0i16 | (IFF_UP | IFF_RUNNING))
    } else {
        0i16
    })
}

/// The state of a freshly created, still unconfigured interface: down,
/// default MTU, nothing set.
pub open spec fn unconfigured(i: IfaceState) -> bool {
    &&& i.link_flags == 0i16
    &&& i.mtu == DEFAULT_MTU
    &&& i.addr is None
    &&& i.dst is None
    &&& i.brd is None
    &&& i.mask is None
    &&& i.owner is None
    &&& i.group is None
    &&& !i.persist
}

/// Applies, in this fixed order, exactly the options present in the
/// parameters: MTU, owner, group, address, netmask, destination,
/// broadcast, persistence, bring-up.  Any step's failure aborts at once
/// with that step's error.
#[verifier::rlimit(100)]
fn configure<B: Backend>(backend: &mut B, iface: &Interface, params: &Params) -> (r: Result<
    (),
    TunError,
>)
    requires
        iface.attached_to(old(backend).st()),
        unconfigured(kernel_iface(old(backend).st())),
    ensures
        r is Ok ==> ({
            let st0 = old(backend).st();
            let st1 = final(backend).st();
            let i0 = kernel_iface(st0);
            let i = kernel_iface(st1);
            &&& st1.iface is Some
            &&& i.name == i0.name
            &&& i.dev_flags == i0.dev_flags
            &&& i.queues == i0.queues
            &&& configured_props(*params, i)
            &&& st1.log == st0.log + config_log(*params)
        }),
{
    let ghost base = backend.st().log;
    let ghost pre0 = Seq::<KOp>::empty();
    proof {
        assert(base + pre0 =~= base);
    }
    if let Some(m) = params.mtu {
        let _set = iface.mtu(backend, Some(m))?;
        proof {
            lemma_concat_push(base, pre0, KOp::SetMtu);
        }
    }
    let ghost pre1 = if params.mtu is Some {
        pre0.push(KOp::SetMtu)
    } else {
        pre0
    };
    if let Some(o) = params.owner {
        iface.owner(backend, o)?;
        proof {
            lemma_concat_push(base, pre1, KOp::SetOwner);
        }
    }
    let ghost pre2 = if params.owner is Some {
        pre1.push(KOp::SetOwner)
    } else {
        pre1
    };
    if let Some(g) = params.group {
        iface.group(backend, g)?;
        proof {
            lemma_concat_push(base, pre2, KOp::SetGroup);
        }
    }
    let ghost pre3 = if params.group is Some {
        pre2.push(KOp::SetGroup)
    } else {
        pre2
    };
    if let Some(a) = params.address {
        let _echo = iface.address(backend, Some(a))?;
        proof {
            lemma_concat_push(base, pre3, KOp::SetAddr);
        }
    }
    let ghost pre4 = if params.address is Some {
        pre3.push(KOp::SetAddr)
    } else {
        pre3
    };
    if let Some(a) = params.netmask {
        let _echo = iface.netmask(backend, Some(a))?;
        proof {
            lemma_concat_push(base, pre4, KOp::SetNetmask);
        }
    }
    let ghost pre5 = if params.netmask is Some {
        pre4.push(KOp::SetNetmask)
    } else {
        pre4
    };
    if let Some(a) = params.destination {
        let _echo = iface.destination(backend, Some(a))?;
        proof {
            lemma_concat_push(base, pre5, KOp::SetDst);
        }
    }
    let ghost pre6 = if params.destination is Some {
        pre5.push(KOp::SetDst)
    } else {
        pre5
    };
    if let Some(a) = params.broadcast {
        let _echo = iface.broadcast(backend, Some(a))?;
        proof {
            lemma_concat_push(base, pre6, KOp::SetBrd);
        }
    }
    let ghost pre7 = if params.broadcast is Some {
        pre6.push(KOp::SetBrd)
    } else {
        pre6
    };
    if params.persist {
        iface.persist(backend)?;
        proof {
            lemma_concat_push(base, pre7, KOp::SetPersist);
        }
    }
    let ghost pre8 = if params.persist {
        pre7.push(KOp::SetPersist)
    } else {
        pre7
    };
    if params.up {
        let _flags = iface.flags(backend, Some(IFF_UP | IFF_RUNNING))?;
        proof {
            lemma_concat_push(base, pre8, KOp::GetFlags);
            lemma_concat_push(base, pre8.push(KOp::GetFlags), KOp::SetFlags);
        }
    }
    let ghost pre9 = if params.up {
        pre8.push(KOp::GetFlags).push(KOp::SetFlags)
    } else {
        pre8
    };
    proof {
        assert(pre9 == config_log(*params));
        assert(backend.st().log == base + pre9);
    }
    Ok(())
}

/// Allocates the device set: attaches every descriptor to one interface
/// — the same requested name and creation flags for each, the kernel
/// resolving the name on the first — then opens the control socket and
/// applies the configuration steps in their fixed order, bring-up last,
/// so a partially configured interface is never observed up.  Any step's
/// failure aborts the allocation at once and returns the step's error;
/// no handle is returned then.
pub fn allocate<B: Backend>(backend: &mut B, fds: &Vec<i32>, params: &Params) -> (r: Result<
    Interface,
    TunError,
>)
    requires
        fds@.len() >= 1,
        old(backend).st().iface is None,
    ensures
        r matches Ok(iface) ==> ({
            let st0 = old(backend).st();
            let st1 = final(backend).st();
            let i = kernel_iface(st1);
            &&& st1.iface is Some
            &&& iface.attached_to(st1)
            &&& iface.spec_fd() == fds@[0]
            &&& !name_buf_empty(i.name)
            &&& (!name_buf_empty(padded_name(requested_bytes(*params))) ==> i.name == padded_name(
                requested_bytes(*params),
            ))
            &&& i.dev_flags == attach_flags_spec(*params, fds@.len() as int)
            &&& i.queues == fds@.len() as int
            &&& configured_props(*params, i)
            &&& st1.log == st0.log + alloc_log(*params, fds@.len() as int)
        }),
{
    let ghost st0 = backend.st();
    let queues = fds.len();
    let attach_flags: i16 = if queues > 1 {
        params.flags | IFF_MULTI_QUEUE
    } else {
        params.flags
    };
    let name_ref: &str = match &params.name {
        Some(n) => n.as_str(),
        None => "",
    };
    proof {
        reveal_strlit("");
        assert(padded_name(name_ref.spec_bytes()) =~= padded_name(requested_bytes(*params)));
    }
    let iface = Interface::new(backend, fds, name_ref, attach_flags)?;
    configure(backend, &iface, params)?;
    proof {
        lemma_concat_assoc(
            st0.log,
            Seq::new(fds@.len() as nat, |i: int| KOp::Attach),
            config_log(*params),
        );
    }
    Ok(iface)
}

} // verus!


