//! Loopback port selection. The provider only accepts redirects on a fixed
//! whitelist of ports, and on platforms that bind with address/port reuse a
//! bind alone cannot detect an occupied port, so each port is first probed
//! with a TCP connect. The binder here is the decision core of that loop:
//! the caller performs the probe and the bind and reports each outcome, and
//! the binder says what to do next — skip an occupied port, bind a free one,
//! skip a port taken between probe and bind, or abort.
use vstd::prelude::*;

use crate::errors::AuthError;

verus! {

/// The whitelisted loopback ports, in the order they are tried. They must be
/// registered as valid redirect targets with the OAuth provider.
pub fn valid_ports() -> (r: Vec<u16>)
    ensures
        r@ == seq![12731u16, 32492u16, 56909u16],
{
    let mut v: Vec<u16> = Vec::new();
    v.push(12731);
    v.push(32492);
    v.push(56909);
    proof {
        assert(v@ =~= seq![12731u16, 32492u16, 56909u16]);
    }
    v
}

/// What a TCP connect probe of a port found.
pub enum ProbeOutcome {
    /// The connect succeeded: something is already listening there.
    Accepted,
    /// The connect was refused: the port looks free.
    Refused,
    /// The connect failed some other way.
    Failed,
}

/// What an attempt to bind a probed-free port found.
pub enum BindOutcome {
    /// The bind succeeded.
    Bound,
    /// The address was taken between the probe and the bind.
    AddrInUse,
    /// The bind failed some other way.
    Failed,
}

/// What to do after a probe.
pub enum ProbeDecision {
    /// The port looks free: attempt to bind it.
    AttemptBind,
    /// The port is occupied: it was skipped.
    SkipOccupied,
    /// The probe itself failed: abort the whole flow.
    Abort(AuthError),
}

/// What to do after a bind attempt.
pub enum BindDecision {
    /// The port is bound: serve on it.
    Selected(u16),
    /// The port was taken in the meantime: it was skipped.
    SkipTaken,
    /// The bind failed fatally: abort the whole flow.
    Abort(AuthError),
}

/// The binder's position in the whitelist: the ports, and the index of the
/// port currently under trial.
pub struct PortBinder {
    pub ports: Vec<u16>,
    pub next: usize,
}

/// The binder after one occupied port was skipped.
pub open spec fn skip_one(b: PortBinder) -> PortBinder {
    PortBinder { ports: b.ports, next: (b.next + 1) as usize }
}

/// The binder after `k` occupied ports were skipped in turn.
pub open spec fn after_occupied_probes(b: PortBinder, k: nat) -> PortBinder
    decreases k,
{
    if k == 0 {
        b
    } else {
        skip_one(after_occupied_probes(b, (k - 1) as nat))
    }
}

impl PortBinder {
    /// The index never runs past the whitelist.
    pub open spec fn wf(&self) -> bool {
        self.next <= self.ports@.len()
    }

    /// Every port has been tried and skipped.
    pub open spec fn exhausted(&self) -> bool {
        self.next == self.ports@.len()
    }

    /// Starts a trial run over the given whitelist, first port first.
    pub fn new(ports: Vec<u16>) -> (r: PortBinder)
        ensures
            r.ports == ports,
            r.next == 0,
            r.wf(),
    {
        PortBinder { ports, next: 0 }
    }

    /// The port to probe next, or `None` once the whitelist is exhausted.
    pub fn current_port(&self) -> (r: Option<u16>)
        requires
            self.wf(),
        ensures
            r is None <==> self.exhausted(),
            r matches Some(p) ==> p == self.ports@[self.next as int],
    {
        if self.next < self.ports.len() {
            Some(self.ports[self.next])
        } else {
            None
        }
    }

    /// Takes the outcome of the TCP connect probe of the current port and
    /// decides: an accepted connect means the port is occupied and is
    /// skipped; a refused connect means the port looks free and should be
    /// bound; any other probe failure aborts the flow.
    pub fn record_probe(&mut self, outcome: &ProbeOutcome) -> (d: ProbeDecision)
        requires
            old(self).wf(),
            !old(self).exhausted(),
        ensures
            final(self).wf(),
            final(self).ports == old(self).ports,
            outcome is Accepted ==> d is SkipOccupied && *final(self) == skip_one(*old(self)),
            outcome is Refused ==> d is AttemptBind && *final(self) == *old(self),
            outcome is Failed ==> *final(self) == *old(self) && (d matches ProbeDecision::Abort(
                e,
            ) && e == AuthError::ProbeFailed(old(self).ports@[old(self).next as int])),
    {
        match outcome {
            ProbeOutcome::Accepted => {
                let n = self.ports.len();
                proof {
                    assert(self.next < n);
                }
                self.next += 1;
                ProbeDecision::SkipOccupied
            },
            ProbeOutcome::Refused => ProbeDecision::AttemptBind,
            ProbeOutcome::Failed => ProbeDecision::Abort(
                AuthError::ProbeFailed(self.ports[self.next]),
            ),
        }
    }

    /// Takes the outcome of the bind attempt on the current (probed-free)
    /// port and decides: a successful bind selects the port; an
    /// address-in-use failure is the probe/bind race and the port is
    /// skipped; any other bind failure aborts the flow.
    pub fn record_bind(&mut self, outcome: &BindOutcome) -> (d: BindDecision)
        requires
            old(self).wf(),
            !old(self).exhausted(),
        ensures
            final(self).wf(),
            final(self).ports == old(self).ports,
            outcome is Bound ==> *final(self) == *old(self) && (d matches BindDecision::Selected(
                p,
            ) && p == old(self).ports@[old(self).next as int]),
            outcome is AddrInUse ==> d is SkipTaken && *final(self) == skip_one(*old(self)),
            outcome is Failed ==> *final(self) == *old(self) && (d matches BindDecision::Abort(e)
                && e == AuthError::BindFailed(old(self).ports@[old(self).next as int])),
    {
        match outcome {
            BindOutcome::Bound => BindDecision::Selected(self.ports[self.next]),
            BindOutcome::AddrInUse => {
                let n = self.ports.len();
                proof {
                    assert(self.next < n);
                }
                self.next += 1;
                BindDecision::SkipTaken
            },
            BindOutcome::Failed => BindDecision::Abort(
                AuthError::BindFailed(self.ports[self.next]),
            ),
        }
    }

    /// The failure reported once every whitelisted port has been skipped:
    /// it names the whole whitelist.
    pub fn no_port_error(&self) -> (r: AuthError)
        requires
            self.exhausted(),
        ensures
            r matches AuthError::NoAvailablePort(ps) && ps@ == self.ports@,
    {
        AuthError::NoAvailablePort(self.ports.clone())
    }
}

/// Law: when every whitelisted port is occupied, the binder skips each port
/// in turn, ends with the whitelist exhausted — so its failure, by
/// `no_port_error`, names every whitelisted port — and never selects one.
pub proof fn lemma_all_occupied_exhausts(b: PortBinder, k: nat)
    requires
        b.wf(),
        b.ports@.len() <= usize::MAX,
        k == b.ports@.len() - b.next,
    ensures
        after_occupied_probes(b, k).exhausted(),
        after_occupied_probes(b, k).ports == b.ports,
    decreases k,
{
    if k > 0 {
        let stepped = skip_one(b);
        assert(stepped.next == b.next + 1);
        lemma_all_occupied_exhausts(stepped, (k - 1) as nat);
        lemma_occupied_run_shifts(b, k);
    }
}

proof fn lemma_occupied_run_shifts(b: PortBinder, k: nat)
    requires
        k > 0,
    ensures
        after_occupied_probes(b, k) == after_occupied_probes(skip_one(b), (k - 1) as nat),
    decreases k,
{
    if k == 1 {
        assert(after_occupied_probes(b, 1) == skip_one(after_occupied_probes(b, 0)));
        assert(after_occupied_probes(skip_one(b), 0) == skip_one(b));
    } else {
        lemma_occupied_run_shifts(b, (k - 1) as nat);
        assert(after_occupied_probes(b, k) == skip_one(after_occupied_probes(b, (k - 1) as nat)));
        assert(after_occupied_probes(skip_one(b), (k - 1) as nat) == skip_one(
            after_occupied_probes(skip_one(b), (k - 2) as nat),
        ));
    }
}

} // verus!
