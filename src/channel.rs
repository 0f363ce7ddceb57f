use vstd::prelude::*;

use crate::error::BootError;

verus! {

/// Where a hardware register lives.
#[derive(Clone, Copy, Debug, PartialEq, Eq, Structural)]
pub enum RegisterTarget {
    /// A model-specific register, by its identifier.
    Msr(u32),
    /// A memory-mapped register, by its physical address.
    Mmio(u64),
}

/// How register accesses reach the hardware.
#[derive(Clone, Copy, Debug, PartialEq, Eq, Structural)]
pub enum ChannelMode {
    /// Ordinary in-guest access.
    Direct,
    /// Access requested from the hypervisor through the secure channel.
    Mediated,
}

/// One register write issued through the channel, in the order issued.
#[derive(Clone, Copy, Debug, PartialEq, Eq, Structural)]
pub struct RegisterWrite {
    pub target: RegisterTarget,
    pub value: u64,
    /// Whether the write has to go through the secure channel.
    pub mediated: bool,
}

/// The abstract state of a channel.
pub struct ChannelState {
    pub mode: ChannelMode,
    /// Whether the secure channel is still usable.
    pub open: bool,
    /// The writes issued and not yet taken by the executor.
    pub writes: Seq<RegisterWrite>,
}

/// The route a register access takes in state `s`, or the error it meets.
pub open spec fn route_spec(s: ChannelState) -> Result<ChannelMode, BootError> {
    match s.mode {
        ChannelMode::Direct => Ok(ChannelMode::Direct),
        ChannelMode::Mediated => if s.open {
            Ok(ChannelMode::Mediated)
        } else {
            Err(BootError::ChannelFailure)
        },
    }
}

/// The writes that a sequence of (register, value) pairs becomes on `mode`.
pub open spec fn routed(ws: Seq<(RegisterTarget, u64)>, mode: ChannelMode) -> Seq<RegisterWrite> {
    ws.map_values(
        |w: (RegisterTarget, u64)|
            RegisterWrite { target: w.0, value: w.1, mediated: mode == ChannelMode::Mediated },
    )
}

/// The state after issuing the writes `ws`: all of them, or none where the
/// channel refuses access.
pub open spec fn write_all_spec(s: ChannelState, ws: Seq<(RegisterTarget, u64)>) -> ChannelState {
    match route_spec(s) {
        Ok(m) => ChannelState { writes: s.writes + routed(ws, m), ..s },
        Err(_) => s,
    }
}

/// The state after the secure channel has been torn down.
pub open spec fn close_spec(s: ChannelState) -> ChannelState {
    ChannelState { open: false, ..s }
}

/// The register channel: it routes every register write either directly or
/// through the secure channel, and refuses mediated access once the channel
/// has been closed. Writes are queued in issue order for the executor that
/// performs them on the hardware.
pub struct RegisterChannel {
    mode: ChannelMode,
    open: bool,
    writes: Vec<RegisterWrite>,
}

impl View for RegisterChannel {
    type V = ChannelState;

    closed spec fn view(&self) -> ChannelState {
        ChannelState { mode: self.mode, open: self.open, writes: self.writes@ }
    }
}

impl RegisterChannel {
    /// A channel in the given mode, open, with nothing issued.
    pub fn new(mode: ChannelMode) -> (r: RegisterChannel)
        ensures
            r@.mode == mode,
            r@.open,
            r@.writes == Seq::<RegisterWrite>::empty(),
    {
        RegisterChannel { mode, open: true, writes: Vec::new() }
    }

    pub fn mode(&self) -> (r: ChannelMode)
        ensures
            r == self@.mode,
    {
        self.mode
    }

    pub fn is_open(&self) -> (r: bool)
        ensures
            r == self@.open,
    {
        self.open
    }

    /// The route that a register access (read or write) must take now.
    pub fn route(&self) -> (r: Result<ChannelMode, BootError>)
        ensures
            r == route_spec(self@),
    {
        match self.mode {
            ChannelMode::Direct => Ok(ChannelMode::Direct),
            ChannelMode::Mediated => if self.open {
                Ok(ChannelMode::Mediated)
            } else {
                Err(BootError::ChannelFailure)
            },
        }
    }

    /// Tears the secure channel down; mediated access is refused from now on.
    pub fn close(&mut self)
        ensures
            final(self)@ == close_spec(old(self)@),
    {
        self.open = false;
    }

    /// Issues one register write.
    pub fn write(&mut self, target: RegisterTarget, value: u64) -> (r: Result<(), BootError>)
        ensures
            final(self)@ == write_all_spec(old(self)@, seq![(target, value)]),
            r == match route_spec(old(self)@) {
                Ok(_) => Ok(()),
                Err(e) => Err(e),
            },
    {
        let ghost ws = seq![(target, value)];
        match self.route() {
            Ok(m) => {
                let w = RegisterWrite { target, value, mediated: m == ChannelMode::Mediated };
                self.writes.push(w);
                proof {
                    assert(routed(ws, m) =~= seq![w]);
                    assert(self.writes@ =~= old(self).writes@ + routed(ws, m));
                }
                Ok(())
            },
            Err(e) => Err(e),
        }
    }

    /// Issues a sequence of register writes, in order: all of them, or none
    /// where the channel refuses access.
    pub fn write_all(&mut self, ws: &Vec<(RegisterTarget, u64)>) -> (r: Result<(), BootError>)
        ensures
            final(self)@ == write_all_spec(old(self)@, ws@),
            r == match route_spec(old(self)@) {
                Ok(_) => Ok(()),
                Err(e) => Err(e),
            },
    {
        let m = match self.route() {
            Ok(m) => m,
            Err(e) => {
                return Err(e);
            },
        };
        let ghost start = self.writes@;
        let mut i: usize = 0;
        while i < ws.len()
            invariant
                i <= ws@.len(),
                self.mode == old(self).mode,
                self.open == old(self).open,
                route_spec(old(self)@) == Ok::<ChannelMode, BootError>(m),
                start == old(self).writes@,
                self.writes@ == start + routed(ws@.subrange(0, i as int), m),
            decreases ws@.len() - i,
        {
            let (t, v) = ws[i];
            self.writes.push(RegisterWrite { target: t, value: v, mediated: m == ChannelMode::Mediated });
            proof {
                assert(routed(ws@.subrange(0, i + 1), m) =~= routed(ws@.subrange(0, i as int), m).push(
                    RegisterWrite { target: t, value: v, mediated: m == ChannelMode::Mediated },
                ));
            }
            i = i + 1;
        }
        proof {
            assert(ws@.subrange(0, ws@.len() as int) =~= ws@);
        }
        Ok(())
    }

    /// Hands the queued writes to the executor, in issue order.
    pub fn take_writes(&mut self) -> (r: Vec<RegisterWrite>)
        ensures
            r@ == old(self)@.writes,
            final(self)@ == (ChannelState { writes: Seq::<RegisterWrite>::empty(), ..old(self)@ }),
    {
        let mut r: Vec<RegisterWrite> = Vec::new();
        std::mem::swap(&mut r, &mut self.writes);
        r
    }
}

/// Issuing nothing leaves the channel as it is.
pub proof fn lemma_write_all_empty(s: ChannelState)
    ensures
        write_all_spec(s, Seq::<(RegisterTarget, u64)>::empty()) == s,
{
    match route_spec(s) {
        Ok(m) => {
            assert(s.writes + routed(Seq::<(RegisterTarget, u64)>::empty(), m) =~= s.writes);
        },
        Err(_) => {},
    }
}

/// Issuing `a` and then `b` is issuing `a + b`.
pub proof fn lemma_write_all_concat(s: ChannelState, a: Seq<(RegisterTarget, u64)>, b: Seq<(RegisterTarget, u64)>)
    ensures
        write_all_spec(write_all_spec(s, a), b) == write_all_spec(s, a + b),
{
    match route_spec(s) {
        Ok(m) => {
            assert(routed(a + b, m) =~= routed(a, m) + routed(b, m));
            assert(s.writes + routed(a, m) + routed(b, m) =~= s.writes + routed(a + b, m));
        },
        Err(_) => {},
    }
}

/// Once the secure channel has been closed, every further register access of a
/// mediated channel is refused, and a refused write issues nothing.
pub proof fn lemma_closed_channel_refuses(s: ChannelState, ws: Seq<(RegisterTarget, u64)>)
    requires
        s.mode == ChannelMode::Mediated,
    ensures
        route_spec(close_spec(s)) == Err::<ChannelMode, BootError>(BootError::ChannelFailure),
        write_all_spec(close_spec(s), ws) == close_spec(s),
{
}

} // verus!
