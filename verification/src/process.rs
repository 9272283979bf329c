//! The process-wide interception state: one registry per entity family and
//! the one-time installation gate.
//!
//! Two independent families exist: the fighter family and the base/weapon
//! family (here "agent"). Registrations and reset callbacks for one family
//! never affect dispatch or broadcast for the other. Installation of the
//! interceptors is gated on the module-load notification that names the
//! common module, and happens once for the process lifetime.

use vstd::prelude::*;

use crate::registry::{after_scan, init_result, Entity, Registration, Registry};

verus! {

/// Name of the module whose load notification triggers installation.
pub const COMMON_MODULE: &'static str = "common";

/// The process-wide registration state: the two families' registries and
/// whether the interceptors have been installed.
pub struct Process {
    fighter: Registry,
    agent: Registry,
    installed: bool,
}

impl Process {
    /// The fighter family's registry.
    pub closed spec fn fighter_reg(&self) -> Registry {
        self.fighter
    }

    /// The base/weapon family's registry.
    pub closed spec fn agent_reg(&self) -> Registry {
        self.agent
    }

    /// Whether the interceptors have been installed.
    pub closed spec fn is_installed(&self) -> bool {
        self.installed
    }

    /// A fresh process state: both registries empty, nothing installed.
    pub fn new() -> (p: Process)
        ensures
            p.fighter_reg().reg_seq() == Seq::<Registration>::empty(),
            p.fighter_reg().reset_seq() == Seq::<u64>::empty(),
            p.agent_reg().reg_seq() == Seq::<Registration>::empty(),
            p.agent_reg().reset_seq() == Seq::<u64>::empty(),
            !p.is_installed(),
    {
        Process { fighter: Registry::new(), agent: Registry::new(), installed: false }
    }

    /// Registers a replacement for fighter-family entities of kind `kind`.
    /// Appends to the fighter registry; the agent family and the
    /// installation gate are untouched.
    pub fn replace_fighter_frame(&mut self, kind: i32, wants_original: bool, replacement: u64)
        ensures
            final(self).fighter_reg().reg_seq() == old(self).fighter_reg().reg_seq().push(
                Registration { kind, wants_original, replacement, captured: None },
            ),
            final(self).fighter_reg().reset_seq() == old(self).fighter_reg().reset_seq(),
            final(self).agent_reg() == old(self).agent_reg(),
            final(self).is_installed() == old(self).is_installed(),
    {
        self.fighter.register_replacement(kind, wants_original, replacement);
    }

    /// Registers a replacement for base/weapon-family entities of kind
    /// `kind`. Appends to the agent registry; the fighter family and the
    /// installation gate are untouched.
    pub fn replace_weapon_frame(&mut self, kind: i32, wants_original: bool, replacement: u64)
        ensures
            final(self).agent_reg().reg_seq() == old(self).agent_reg().reg_seq().push(
                Registration { kind, wants_original, replacement, captured: None },
            ),
            final(self).agent_reg().reset_seq() == old(self).agent_reg().reset_seq(),
            final(self).fighter_reg() == old(self).fighter_reg(),
            final(self).is_installed() == old(self).is_installed(),
    {
        self.agent.register_replacement(kind, wants_original, replacement);
    }

    /// Registers a reset callback for the fighter family. Reset callbacks
    /// are global per family — no kind filtering — and fire in registration
    /// order.
    pub fn add_fighter_reset_callback(&mut self, callback: u64)
        ensures
            final(self).fighter_reg().reset_seq() == old(self).fighter_reg().reset_seq().push(
                callback,
            ),
            final(self).fighter_reg().reg_seq() == old(self).fighter_reg().reg_seq(),
            final(self).agent_reg() == old(self).agent_reg(),
            final(self).is_installed() == old(self).is_installed(),
    {
        self.fighter.register_reset(callback);
    }

    /// Registers a reset callback for the base/weapon family.
    pub fn add_agent_reset_callback(&mut self, callback: u64)
        ensures
            final(self).agent_reg().reset_seq() == old(self).agent_reg().reset_seq().push(
                callback,
            ),
            final(self).agent_reg().reg_seq() == old(self).agent_reg().reg_seq(),
            final(self).fighter_reg() == old(self).fighter_reg(),
            final(self).is_installed() == old(self).is_installed(),
    {
        self.agent.register_reset(callback);
    }

    /// First-or-later initialization of a fighter-family entity: resolves as
    /// [`Registry::init_entity`] against the fighter registry alone. The
    /// agent family and the installation gate are untouched.
    pub fn fighter_init(&mut self, e: &mut Entity, original: u64) -> (chosen: u64)
        ensures
            chosen == init_result(old(self).fighter_reg().reg_seq(), *old(e), original),
            final(e).kind == old(e).kind,
            final(e).installed == Some(chosen),
            old(e).installed is Some ==> *final(self) == *old(self),
            old(e).installed is None ==> {
                &&& final(self).fighter_reg().reg_seq() == after_scan(
                    old(self).fighter_reg().reg_seq(),
                    old(e).kind,
                    original,
                )
                &&& final(self).fighter_reg().reset_seq() == old(self).fighter_reg().reset_seq()
            },
            final(self).agent_reg() == old(self).agent_reg(),
            final(self).is_installed() == old(self).is_installed(),
    {
        self.fighter.init_entity(e, original)
    }

    /// First-or-later initialization of a base/weapon-family entity:
    /// resolves against the agent registry alone. The fighter family and the
    /// installation gate are untouched.
    pub fn agent_init(&mut self, e: &mut Entity, original: u64) -> (chosen: u64)
        ensures
            chosen == init_result(old(self).agent_reg().reg_seq(), *old(e), original),
            final(e).kind == old(e).kind,
            final(e).installed == Some(chosen),
            old(e).installed is Some ==> *final(self) == *old(self),
            old(e).installed is None ==> {
                &&& final(self).agent_reg().reg_seq() == after_scan(
                    old(self).agent_reg().reg_seq(),
                    old(e).kind,
                    original,
                )
                &&& final(self).agent_reg().reset_seq() == old(self).agent_reg().reset_seq()
            },
            final(self).fighter_reg() == old(self).fighter_reg(),
            final(self).is_installed() == old(self).is_installed(),
    {
        self.agent.init_entity(e, original)
    }

    /// The fighter family's reset broadcast order: a reset event for a
    /// fighter-family entity invokes exactly these callbacks, first to last.
    pub fn fighter_reset(&self) -> (order: &Vec<u64>)
        ensures
            order@ == self.fighter_reg().reset_seq(),
    {
        self.fighter.reset_order()
    }

    /// The base/weapon family's reset broadcast order.
    pub fn agent_reset(&self) -> (order: &Vec<u64>)
        ensures
            order@ == self.agent_reg().reset_seq(),
    {
        self.agent.reset_order()
    }

    /// How many interceptions the fighter registry holds.
    pub fn fighter_num_registrations(&self) -> (n: usize)
        ensures
            n == self.fighter_reg().reg_seq().len(),
    {
        self.fighter.num_registrations()
    }

    /// The capture cell of fighter registration `i`.
    pub fn fighter_captured_at(&self, i: usize) -> (c: Option<u64>)
        requires
            i < self.fighter_reg().reg_seq().len(),
        ensures
            c == self.fighter_reg().reg_seq()[i as int].captured,
    {
        self.fighter.captured_at(i)
    }

    /// How many interceptions the agent registry holds.
    pub fn agent_num_registrations(&self) -> (n: usize)
        ensures
            n == self.agent_reg().reg_seq().len(),
    {
        self.agent.num_registrations()
    }

    /// The capture cell of agent registration `i`.
    pub fn agent_captured_at(&self, i: usize) -> (c: Option<u64>)
        requires
            i < self.agent_reg().reg_seq().len(),
        ensures
            c == self.agent_reg().reg_seq()[i as int].captured,
    {
        self.agent.captured_at(i)
    }

    /// Module-load notification. Installation happens exactly once, on the
    /// first notification naming the common module; any other module, and
    /// any later notification, changes nothing. Returns whether this call is
    /// the one on which the interceptors are to be installed.
    pub fn nro_load(&mut self, name: &str) -> (installed_now: bool)
        ensures
            installed_now == (!old(self).is_installed() && name@ == COMMON_MODULE@),
            final(self).is_installed() == (old(self).is_installed() || name@ == COMMON_MODULE@),
            final(self).fighter_reg() == old(self).fighter_reg(),
            final(self).agent_reg() == old(self).agent_reg(),
    {
        let is_common = name.to_owned() == COMMON_MODULE.to_owned();
        if is_common && !self.installed {
            self.installed = true;
            true
        } else {
            if is_common {
                self.installed = true;
            }
            false
        }
    }

    /// Module-unload notification: accepted and intentionally ignored —
    /// there is no uninstallation and no unregistration.
    pub fn nro_unload(&mut self, name: &str)
        ensures
            *final(self) == *old(self),
    {
        let _ = name;
    }

    /// Whether the interceptors have been installed yet.
    pub fn installed(&self) -> (r: bool)
        ensures
            r == self.is_installed(),
    {
        self.installed
    }
}

/// Family isolation: the outcome of a dispatch, and the reset broadcast
/// order, for one family are functions of that family's registry alone. Two
/// process states whose fighter registries agree dispatch and broadcast
/// identically for the fighter family, whatever their agent registries hold
/// — and symmetrically. Together with each operation's contract above, which
/// leaves the other family's registry untouched, no registration for one
/// family can affect the other.
pub proof fn lemma_family_isolation(p1: Process, p2: Process, e: Entity, original: u64)
    requires
        p1.fighter_reg() == p2.fighter_reg(),
    ensures
        init_result(p1.fighter_reg().reg_seq(), e, original) == init_result(
            p2.fighter_reg().reg_seq(),
            e,
            original,
        ),
        p1.fighter_reg().reset_seq() == p2.fighter_reg().reset_seq(),
{
}

} // verus!
