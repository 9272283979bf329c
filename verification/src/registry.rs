//! The per-family registration store and its dispatch resolution.
//!
//! A `Registry` holds, in registration order, the pending interceptions for
//! one entity family and the family's reset callbacks. Function
//! implementations are carried as plain addresses; the capture cell of a
//! registration is modeled as the `captured` field, written whenever a scan
//! matches the registration.

use vstd::prelude::*;

verus! {

/// One pending interception. When an entity of kind `kind` is first
/// initialized, `replacement` is installed in place of the original
/// implementation; if `wants_original` is set, the pristine original
/// address is written to `captured` on every matching scan.
#[derive(Clone, Copy, PartialEq, Eq, Structural, Debug)]
pub struct Registration {
    /// Entity kind this registration applies to; matched exactly.
    pub kind: i32,
    /// Whether the registrant supplied a cell for the original address.
    pub wants_original: bool,
    /// Address of the replacement implementation.
    pub replacement: u64,
    /// Contents of the registrant's capture cell: the pristine original
    /// address once a matching entity has been initialized, `None` before.
    pub captured: Option<u64>,
}

/// The implementation a scan of `regs` in registration order selects for an
/// entity of kind `kind`, when the pristine original is `original`: each
/// matching registration overwrites the choice, so the last match wins, and
/// with no match the original stands.
pub open spec fn selected(regs: Seq<Registration>, kind: i32, original: u64) -> u64
    decreases regs.len(),
{
    if regs.len() == 0 {
        original
    } else if regs.last().kind == kind {
        regs.last().replacement
    } else {
        selected(regs.drop_last(), kind, original)
    }
}

/// One registration after a scan for `kind` with pristine original
/// `original`: a matching registration that asked for the original has it
/// written to its cell (rewritten on every matching scan); any other
/// registration is untouched.
pub open spec fn scan_one(r: Registration, kind: i32, original: u64) -> Registration {
    if r.kind == kind && r.wants_original {
        Registration { captured: Some(original), ..r }
    } else {
        r
    }
}

/// The registration sequence after a scan for `kind` with pristine original
/// `original`.
pub open spec fn after_scan(regs: Seq<Registration>, kind: i32, original: u64) -> Seq<Registration> {
    regs.map(|i: int, r: Registration| scan_one(r, kind, original))
}

/// The ordered store of one entity family: its pending interceptions and its
/// reset callbacks, both append-only.
pub struct Registry {
    registrations: Vec<Registration>,
    resets: Vec<u64>,
}

impl Registry {
    /// The registrations, in registration order.
    pub closed spec fn reg_seq(&self) -> Seq<Registration> {
        self.registrations@
    }

    /// The reset callbacks (as addresses), in registration order.
    pub closed spec fn reset_seq(&self) -> Seq<u64> {
        self.resets@
    }

    /// An empty registry: no interceptions, no reset callbacks.
    pub fn new() -> (r: Registry)
        ensures
            r.reg_seq() == Seq::<Registration>::empty(),
            r.reset_seq() == Seq::<u64>::empty(),
    {
        Registry { registrations: Vec::new(), resets: Vec::new() }
    }

    /// Appends a pending interception for `kind`. Registration order is
    /// preserved and is dispatch-significant; nothing else changes.
    pub fn register_replacement(&mut self, kind: i32, wants_original: bool, replacement: u64)
        ensures
            final(self).reg_seq() == old(self).reg_seq().push(
                Registration { kind, wants_original, replacement, captured: None },
            ),
            final(self).reset_seq() == old(self).reset_seq(),
    {
        self.registrations.push(
            Registration { kind, wants_original, replacement, captured: None },
        );
    }

    /// Appends a reset callback. Broadcast order is registration order;
    /// nothing else changes.
    pub fn register_reset(&mut self, callback: u64)
        ensures
            final(self).reset_seq() == old(self).reset_seq().push(callback),
            final(self).reg_seq() == old(self).reg_seq(),
    {
        self.resets.push(callback);
    }

    /// Scans the registrations in registration order for an entity of kind
    /// `kind` whose pristine original function is `original`: every
    /// matching registration that asked for the original has `original`
    /// written to its capture cell (never a replacement's address), and the
    /// last matching registration's replacement is returned — or `original`
    /// itself when none matches.
    pub fn dispatch_scan(&mut self, kind: i32, original: u64) -> (chosen: u64)
        ensures
            chosen == selected(old(self).reg_seq(), kind, original),
            final(self).reg_seq() == after_scan(old(self).reg_seq(), kind, original),
            final(self).reset_seq() == old(self).reset_seq(),
    {
        let ghost s = self.reg_seq();
        let mut chosen: u64 = original;
        let n = self.registrations.len();
        let mut i: usize = 0;
        while i < n
            invariant
                i <= n,
                n == self.registrations.len(),
                s.len() == n,
                forall|j: int| 0 <= j < i ==> self.registrations@[j] == scan_one(s[j], kind, original),
                forall|j: int| i <= j < n ==> self.registrations@[j] == s[j],
                self.resets@ == old(self).reset_seq(),
                chosen == selected(s.take(i as int), kind, original),
            decreases n - i,
        {
            let r = self.registrations[i];
            proof {
                assert(s.take(i + 1).drop_last() =~= s.take(i as int));
                assert(s.take(i + 1).last() == s[i as int]);
            }
            if r.kind == kind {
                if r.wants_original {
                    self.registrations[i] = Registration {
                        kind: r.kind,
                        wants_original: r.wants_original,
                        replacement: r.replacement,
                        captured: Some(original),
                    };
                }
                chosen = r.replacement;
            }
            i = i + 1;
        }
        proof {
            assert(s.take(n as int) =~= s);
            assert(self.registrations@ =~= after_scan(s, kind, original));
        }
        chosen
    }

    /// Initializes `e` against this registry. On the first initialization
    /// (no implementation installed yet) the registrations are scanned as in
    /// [`Self::dispatch_scan`] and the chosen implementation is installed in
    /// the entity's own dispatch slot; on every later initialization the
    /// installed implementation is returned directly, without consulting the
    /// registry at all.
    pub fn init_entity(&mut self, e: &mut Entity, original: u64) -> (chosen: u64)
        ensures
            chosen == init_result(old(self).reg_seq(), *old(e), original),
            final(e).kind == old(e).kind,
            final(e).installed == Some(chosen),
            old(e).installed is Some ==> *final(self) == *old(self),
            old(e).installed is None ==> {
                &&& final(self).reg_seq() == after_scan(old(self).reg_seq(), old(e).kind, original)
                &&& final(self).reset_seq() == old(self).reset_seq()
            },
    {
        match e.installed {
            Some(f) => f,
            None => {
                let chosen = self.dispatch_scan(e.kind, original);
                e.installed = Some(chosen);
                chosen
            }
        }
    }

    /// The reset broadcast order: every registered callback, in registration
    /// order. A reset event invokes exactly these, first to last.
    pub fn reset_order(&self) -> (order: &Vec<u64>)
        ensures
            order@ == self.reset_seq(),
    {
        &self.resets
    }

    /// How many interceptions are registered.
    pub fn num_registrations(&self) -> (n: usize)
        ensures
            n == self.reg_seq().len(),
    {
        self.registrations.len()
    }

    /// The contents of the capture cell of registration `i`: the pristine
    /// original address once an entity matching that registration has been
    /// initialized, `None` before.
    pub fn captured_at(&self, i: usize) -> (c: Option<u64>)
        requires
            i < self.reg_seq().len(),
        ensures
            c == self.reg_seq()[i as int].captured,
    {
        self.registrations[i].captured
    }
}

/// A live entity instance: its resolved kind and its per-instance dispatch
/// slot. The slot is empty until the first initialization installs the
/// chosen implementation ("shift"); afterwards the instance calls that
/// implementation directly.
#[derive(Clone, Copy, PartialEq, Eq, Structural, Debug)]
pub struct Entity {
    /// The entity's kind, as the identity resolver reports it.
    pub kind: i32,
    /// The instance's own dispatch slot, `None` until first initialization.
    pub installed: Option<u64>,
}

impl Entity {
    /// A fresh instance of kind `kind`, not yet initialized.
    pub fn new(kind: i32) -> (e: Entity)
        ensures
            e == (Entity { kind, installed: None }),
    {
        Entity { kind, installed: None }
    }
}

/// The implementation an initialization of `e` runs: the one already
/// installed in the instance's own slot if there is one, otherwise the one a
/// scan of `regs` selects for the entity's kind.
pub open spec fn init_result(regs: Seq<Registration>, e: Entity, original: u64) -> u64 {
    match e.installed {
        Some(f) => f,
        None => selected(regs, e.kind, original),
    }
}

} // verus!
