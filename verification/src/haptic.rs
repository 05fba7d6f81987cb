//! The haptic dispatcher: fans one feedback request out to every attached
//! controller that exposes haptic capability.
//!
//! A request carries its strength in fixed point: `FULL_STRENGTH` stands for
//! full intensity, and the boundary that accepts requests from the
//! application scales its unit-interval value onto that range before the
//! request is enqueued. The dispatcher performs no clamping of its own; it
//! only forwards. Each capable device receives one rumble command whose
//! high-frequency amplitude is the request's strength and whose
//! low-frequency amplitude is three tenths of it.

use vstd::prelude::*;
use crate::registry::ControllerEntry;
use crate::registry::Registry;

verus! {

/// Fixed-point strength value that stands for full intensity.
pub const FULL_STRENGTH: u16 = 65535;

/// One feedback request from the application: a strength in fixed point
/// (`FULL_STRENGTH` is full intensity) and a duration in milliseconds.
#[derive(Clone, Copy, Debug, PartialEq, Eq, Structural)]
pub struct HapticRequest {
    pub strength: u16,
    pub duration_ms: u32,
}

/// One rumble command for the hardware layer to issue: the target device's
/// instance identifier, the two motor amplitudes, and the hold duration.
#[derive(Clone, Copy, Debug, PartialEq, Eq, Structural)]
pub struct RumbleCommand {
    pub instance_id: u32,
    pub low_amplitude: u16,
    pub high_amplitude: u16,
    pub duration_ms: u32,
}

/// The low-frequency motor runs at three tenths of the requested strength.
pub open spec fn low_amplitude_spec(strength: u16) -> u16 {
    ((strength * 3) / 10) as u16
}

/// The command a given device receives for a given request.
pub open spec fn rumble_for(e: ControllerEntry, req: HapticRequest) -> RumbleCommand {
    RumbleCommand {
        instance_id: e.instance_id,
        low_amplitude: low_amplitude_spec(req.strength),
        high_amplitude: req.strength,
        duration_ms: req.duration_ms,
    }
}

/// The entries of the sequence that expose haptic capability, in order.
pub open spec fn haptic_entries(s: Seq<ControllerEntry>) -> Seq<ControllerEntry>
    decreases s.len(),
{
    if s.len() == 0 {
        Seq::empty()
    } else if s.last().has_haptic {
        haptic_entries(s.drop_last()).push(s.last())
    } else {
        haptic_entries(s.drop_last())
    }
}

/// The fan-out of one request over a sequence of entries: one command per
/// haptic-capable entry, in order.
pub open spec fn fan_out(s: Seq<ControllerEntry>, req: HapticRequest) -> Seq<RumbleCommand>
    decreases s.len(),
{
    if s.len() == 0 {
        Seq::empty()
    } else if s.last().has_haptic {
        fan_out(s.drop_last(), req).push(rumble_for(s.last(), req))
    } else {
        fan_out(s.drop_last(), req)
    }
}

/// The fan-out of a batch of requests, drained in order: the commands of
/// each request in turn.
pub open spec fn batch_fan_out(s: Seq<ControllerEntry>, reqs: Seq<HapticRequest>) -> Seq<
    RumbleCommand,
>
    decreases reqs.len(),
{
    if reqs.len() == 0 {
        Seq::empty()
    } else {
        batch_fan_out(s, reqs.drop_last()) + fan_out(s, reqs.last())
    }
}

/// Fan-out law: one request reaching a registry with N haptic-capable
/// entries yields exactly N commands, one per capable entry in order, each
/// carrying the request's own strength-derived amplitudes and duration; in
/// particular, with no capable entry it yields no command at all.
pub proof fn lemma_fan_out_exact(s: Seq<ControllerEntry>, req: HapticRequest)
    ensures
        fan_out(s, req) == haptic_entries(s).map_values(
            |e: ControllerEntry| rumble_for(e, req),
        ),
        fan_out(s, req).len() == haptic_entries(s).len(),
        forall|k: int| 0 <= k < fan_out(s, req).len() ==> #[trigger] fan_out(s, req)[k]
            == rumble_for(haptic_entries(s)[k], req),
        haptic_entries(s).len() == 0 ==> fan_out(s, req) == Seq::<RumbleCommand>::empty(),
    decreases s.len(),
{
    let cmd_of = |e: ControllerEntry| rumble_for(e, req);
    if s.len() == 0 {
        assert(fan_out(s, req) =~= haptic_entries(s).map_values(cmd_of));
    } else {
        lemma_fan_out_exact(s.drop_last(), req);
        assert(fan_out(s, req) =~= haptic_entries(s).map_values(cmd_of));
    }
}

/// Builds the rumble command one device receives for one request.
pub fn compute_command(e: &ControllerEntry, req: &HapticRequest) -> (cmd: RumbleCommand)
    ensures
        cmd == rumble_for(*e, *req),
{
    let scaled: u32 = (req.strength as u32) * 3 / 10;
    proof {
        assert(scaled < 65536);
    }
    RumbleCommand {
        instance_id: e.instance_id,
        low_amplitude: scaled as u16,
        high_amplitude: req.strength,
        duration_ms: req.duration_ms,
    }
}

/// Fans one request out: one rumble command per attached haptic-capable
/// controller, in attachment order. A request that finds no capable
/// controller yields no command and no error.
pub fn dispatch_request(reg: &Registry, req: &HapticRequest) -> (cmds: Vec<RumbleCommand>)
    ensures
        cmds@ == fan_out(reg@, *req),
{
    let mut cmds: Vec<RumbleCommand> = Vec::new();
    let n = reg.len();
    let mut i: usize = 0;
    while i < n
        invariant
            i <= n,
            n == reg@.len(),
            cmds@ == fan_out(reg@.subrange(0, i as int), *req),
        decreases n - i,
    {
        let e = reg.entry_at(i);
        if e.has_haptic {
            let cmd = compute_command(e, req);
            cmds.push(cmd);
        }
        proof {
            let pre = reg@.subrange(0, i as int);
            let post = reg@.subrange(0, i as int + 1);
            assert(post.drop_last() =~= pre);
            assert(post.last() == reg@[i as int]);
        }
        i += 1;
    }
    proof {
        assert(reg@.subrange(0, reg@.len() as int) =~= reg@);
    }
    cmds
}

/// Drains one tick's batch of requests: the commands of each request in
/// turn, in the order the batch came off the queue. Nothing of the batch
/// survives the call — every request is turned into commands now or never.
pub fn dispatch_batch(reg: &Registry, reqs: &Vec<HapticRequest>) -> (cmds: Vec<RumbleCommand>)
    ensures
        cmds@ == batch_fan_out(reg@, reqs@),
{
    let mut cmds: Vec<RumbleCommand> = Vec::new();
    let mut i: usize = 0;
    while i < reqs.len()
        invariant
            i <= reqs@.len(),
            cmds@ == batch_fan_out(reg@, reqs@.subrange(0, i as int)),
        decreases reqs@.len() - i,
    {
        let mut one = dispatch_request(reg, &reqs[i]);
        cmds.append(&mut one);
        proof {
            let pre = reqs@.subrange(0, i as int);
            let post = reqs@.subrange(0, i as int + 1);
            assert(post.drop_last() =~= pre);
            assert(post.last() == reqs@[i as int]);
        }
        i += 1;
    }
    proof {
        assert(reqs@.subrange(0, reqs@.len() as int) =~= reqs@);
    }
    cmds
}

} // verus!
