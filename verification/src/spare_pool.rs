//! How many spare plugin instances each bank keeps, and the ledger of slots, spares and
//! orders that a bank worker keeps about them.
//!
//! A live slot that changes to a patch of another plugin swaps its instance for a spare
//! of that plugin; the instance it gives up becomes a spare of its own plugin. Spares of
//! a plugin are built in the background up to a target, so the number of instances of
//! a plugin never exceeds the slots plus that target.
use vstd::prelude::*;

use crate::bank::BANK_COUNT;

verus! {

/// The most spares prepaid by default.
pub const MAX_DEFAULT_SPARE_TARGET: usize = 8;

/// The environment variable that overrides the spare target.
pub const SPARE_TARGET_ENV: &'static str = "CMRT_SPARE_INSTANCES";

/// The server-wide spare target: the configured one, or one per slot up to
/// [`MAX_DEFAULT_SPARE_TARGET`], since no more slots can move at once.
pub open spec fn spec_spare_target(slot_count: usize, configured: Option<usize>) -> usize {
    match configured {
        Some(n) => n,
        None => if slot_count < MAX_DEFAULT_SPARE_TARGET {
            slot_count
        } else {
            MAX_DEFAULT_SPARE_TARGET
        },
    }
}

pub fn spare_target(slot_count: usize, configured: Option<usize>) -> (target: usize)
    ensures
        target == spec_spare_target(slot_count, configured),
{
    match configured {
        Some(n) => n,
        None => if slot_count < MAX_DEFAULT_SPARE_TARGET {
            slot_count
        } else {
            MAX_DEFAULT_SPARE_TARGET
        },
    }
}

/// The configured spare target from the environment variable's value: a trimmed
/// decimal number, or nothing.
pub fn parse_spare_target(value: Option<&str>) -> (configured: Option<usize>)
    ensures
        configured == (match value {
            Some(v) => crate::text::spec_parse_usize(crate::text::trimmed(v@)),
            None => None,
        }),
{
    match value {
        Some(v) => {
            let chars = crate::text::string_chars(v);
            let trimmed = crate::text::trim_chars(&chars);
            crate::text::parse_usize(&trimmed)
        },
        None => None,
    }
}

/// Splits the server-wide target over the banks without changing the total: bank 0
/// takes the odd one out, and a bank without slots gets nothing.
pub open spec fn spec_split_spare_target(total: usize, bank_slot_counts: [usize; 2]) -> [usize; 2] {
    if bank_slot_counts[1] == 0 {
        [total, 0]
    } else {
        [(total / 2 + total % 2) as usize, (total / 2) as usize]
    }
}

pub fn split_spare_target(total: usize, bank_slot_counts: [usize; 2]) -> (split: [usize; 2])
    ensures
        split == spec_split_spare_target(total, bank_slot_counts),
        split[0] + split[1] == total,
        split[0] >= split[1],
{
    if bank_slot_counts[1] == 0 {
        return [total, 0];
    }
    [total / 2 + total % 2, total / 2]
}

/// What a bank worker needs to set up its spare pool.
#[derive(Clone, Copy, Debug, PartialEq, Eq)]
pub struct LiveInstancesSpec {
    pub bank: usize,
    /// How many plugins there are; plugin 0 is the default one.
    pub kind_count: usize,
    pub slot_count: usize,
    pub spare_target: usize,
    /// Whether a background builder runs for this bank.
    pub has_builder: bool,
}

/// The spare pools of both banks. With one plugin no patch ever changes plugin, so no
/// spares and no builder are needed; otherwise the server-wide target is split over
/// the banks and both share one builder.
pub fn plan_bank_instances(kind_count: usize, bank_slot_counts: [usize; 2], configured: Option<
    usize,
>) -> (specs: [LiveInstancesSpec; 2])
    requires
        bank_slot_counts[0] + bank_slot_counts[1] <= usize::MAX,
    ensures
        ({
            let total = if kind_count > 1 {
                spec_spare_target((bank_slot_counts[0] + bank_slot_counts[1]) as usize, configured)
            } else {
                0
            };
            let split = spec_split_spare_target(total, bank_slot_counts);
            forall|b: int|
                0 <= b < 2 ==> #[trigger] specs[b] == (LiveInstancesSpec {
                    bank: b as usize,
                    kind_count,
                    slot_count: bank_slot_counts[b],
                    spare_target: split[b],
                    has_builder: total > 0,
                })
        }),
{
    let total_slots = bank_slot_counts[0] + bank_slot_counts[1];
    let total_target = if kind_count > 1 {
        spare_target(total_slots, configured)
    } else {
        0
    };
    let targets = split_spare_target(total_target, bank_slot_counts);
    let has_builder = total_target > 0;
    [
        LiveInstancesSpec {
            bank: 0,
            kind_count,
            slot_count: bank_slot_counts[0],
            spare_target: targets[0],
            has_builder,
        },
        LiveInstancesSpec {
            bank: 1,
            kind_count,
            slot_count: bank_slot_counts[1],
            spare_target: targets[1],
            has_builder,
        },
    ]
}

/// How many slots of `slot_kind` hold plugin `kind`.
pub open spec fn slots_with(slot_kind: Seq<usize>, kind: usize) -> nat
    decreases slot_kind.len(),
{
    if slot_kind.len() == 0 {
        0
    } else {
        slots_with(slot_kind.drop_last(), kind) + if slot_kind.last() == kind {
            1nat
        } else {
            0nat
        }
    }
}

pub proof fn lemma_slots_with_bound(slot_kind: Seq<usize>, kind: usize)
    ensures
        slots_with(slot_kind, kind) <= slot_kind.len(),
    decreases slot_kind.len(),
{
    if slot_kind.len() > 0 {
        lemma_slots_with_bound(slot_kind.drop_last(), kind);
    }
}

/// A slot that holds another plugin leaves room for one more of `kind`.
pub proof fn lemma_slots_with_other(slot_kind: Seq<usize>, kind: usize, i: int)
    requires
        0 <= i < slot_kind.len(),
        slot_kind[i] != kind,
    ensures
        slots_with(slot_kind, kind) + 1 <= slot_kind.len(),
    decreases slot_kind.len(),
{
    if i == slot_kind.len() - 1 {
        lemma_slots_with_bound(slot_kind.drop_last(), kind);
    } else {
        lemma_slots_with_other(slot_kind.drop_last(), kind, i);
    }
}

/// Changing one slot moves one count from its old plugin to its new one.
pub proof fn lemma_slots_with_update(slot_kind: Seq<usize>, i: int, new_kind: usize, kind: usize)
    requires
        0 <= i < slot_kind.len(),
    ensures
        slots_with(slot_kind.update(i, new_kind), kind) + (if slot_kind[i] == kind {
            1int
        } else {
            0int
        }) == slots_with(slot_kind, kind) + (if new_kind == kind {
            1int
        } else {
            0int
        }),
    decreases slot_kind.len(),
{
    let updated = slot_kind.update(i, new_kind);
    if i == slot_kind.len() - 1 {
        assert(updated.drop_last() =~= slot_kind.drop_last());
    } else {
        assert(updated.drop_last() =~= slot_kind.drop_last().update(i, new_kind));
        lemma_slots_with_update(slot_kind.drop_last(), i, new_kind, kind);
    }
}

pub proof fn lemma_slots_with_fill(n: nat, kind: usize)
    ensures
        slots_with(Seq::new(n, |i: int| 0usize), kind) == (if kind == 0 {
            n
        } else {
            0
        }),
    decreases n,
{
    if n > 0 {
        assert(Seq::new(n, |i: int| 0usize).drop_last() =~= Seq::new((n - 1) as nat, |i: int| 0usize));
        lemma_slots_with_fill((n - 1) as nat, kind);
    }
}

/// How many spares a refill orders: what is missing to `target`, counting the spares
/// at hand and those already ordered; none without a builder.
pub open spec fn refill_count(has_builder: bool, target: nat, have: nat, ordered: nat) -> nat {
    if has_builder && have + ordered < target {
        (target - have - ordered) as nat
    } else {
        0
    }
}

/// The ledger a bank worker keeps: which plugin each slot holds, and per plugin the
/// spares at hand and the spares ordered but not yet built.
pub struct SpareLedger {
    pub bank: usize,
    pub slot_kind: Vec<usize>,
    pub spares: Vec<usize>,
    pub outstanding: Vec<usize>,
    pub spare_target: usize,
    pub has_builder: bool,
}

/// What a swap needs next.
#[derive(Clone, Copy, Debug, PartialEq, Eq, Structural)]
pub enum SwapStep {
    /// The slot already holds the plugin.
    Unchanged,
    /// The slot took a spare; `orders` more spares were ordered to refill.
    Swapped { orders: usize },
    /// No spare is at hand; `orders` were ordered, and the swap waits for a build.
    NeedSpare { orders: usize },
    /// No spare is at hand and no builder runs.
    NoBuilder,
}

impl SpareLedger {
    pub open spec fn kind_count(&self) -> nat {
        self.spares@.len()
    }

    pub open spec fn wf(&self) -> bool {
        &&& self.spares@.len() >= 1
        &&& self.outstanding@.len() == self.spares@.len()
        &&& forall|i: int| 0 <= i < self.slot_kind@.len() ==> #[trigger] self.slot_kind@[i]
            < self.spares@.len()
    }

    /// The default plugin (0) needs no spares: the instances that leave it come back as
    /// its spares. Every other plugin keeps the bank's target.
    pub open spec fn target_for(&self, kind: usize) -> nat {
        if kind == 0 {
            0
        } else {
            self.spare_target as nat
        }
    }

    /// The instances of `kind`, built or ordered.
    pub open spec fn instances_of(&self, kind: usize) -> nat {
        (slots_with(self.slot_kind@, kind) + self.spares@[kind as int]
            + self.outstanding@[kind as int]) as nat
    }

    /// No plugin has more instances, built or ordered, than there are slots plus its
    /// spare target.
    pub open spec fn within_bound(&self) -> bool {
        forall|k: usize|
            k < self.spares@.len() ==> #[trigger] self.instances_of(k) <= self.slot_kind@.len()
                + self.target_for(k)
    }

    /// The ledger of a new bank: every slot on the default plugin, and every other
    /// plugin's spares ordered up to the target when a builder runs.
    pub fn new(spec: LiveInstancesSpec) -> (ledger: SpareLedger)
        requires
            spec.kind_count >= 1,
        ensures
            ledger.wf(),
            ledger.within_bound(),
            ledger.bank == spec.bank,
            ledger.slot_kind@ == Seq::new(spec.slot_count as nat, |i: int| 0usize),
            ledger.spares@ == Seq::new(spec.kind_count as nat, |i: int| 0usize),
            ledger.outstanding@ == Seq::new(
                spec.kind_count as nat,
                |k: int| if k == 0 || !spec.has_builder { 0usize } else { spec.spare_target },
            ),
            ledger.spare_target == spec.spare_target,
            ledger.has_builder == spec.has_builder,
    {
        let mut slot_kind: Vec<usize> = Vec::new();
        while slot_kind.len() < spec.slot_count
            invariant
                slot_kind@.len() <= spec.slot_count,
                forall|i: int| 0 <= i < slot_kind@.len() ==> #[trigger] slot_kind@[i] == 0,
            decreases spec.slot_count - slot_kind@.len(),
        {
            slot_kind.push(0);
        }
        let mut spares: Vec<usize> = Vec::new();
        let mut outstanding: Vec<usize> = Vec::new();
        while spares.len() < spec.kind_count
            invariant
                spares@.len() <= spec.kind_count,
                outstanding@.len() == spares@.len(),
                forall|i: int| 0 <= i < spares@.len() ==> #[trigger] spares@[i] == 0,
                forall|i: int|
                    0 <= i < outstanding@.len() ==> #[trigger] outstanding@[i] == (if i == 0
                        || !spec.has_builder {
                        0usize
                    } else {
                        spec.spare_target
                    }),
            decreases spec.kind_count - spares@.len(),
        {
            let ordered: usize = if spares.len() == 0 || !spec.has_builder {
                0
            } else {
                spec.spare_target
            };
            spares.push(0);
            outstanding.push(ordered);
        }
        let ledger = SpareLedger {
            bank: spec.bank,
            slot_kind,
            spares,
            outstanding,
            spare_target: spec.spare_target,
            has_builder: spec.has_builder,
        };
        proof {
            assert(ledger.slot_kind@ =~= Seq::new(spec.slot_count as nat, |i: int| 0usize));
            assert(ledger.spares@ =~= Seq::new(spec.kind_count as nat, |i: int| 0usize));
            assert(ledger.outstanding@ =~= Seq::new(
                spec.kind_count as nat,
                |k: int| if k == 0 || !spec.has_builder { 0usize } else { spec.spare_target },
            ));
            assert forall|k: usize| k < ledger.spares@.len() implies #[trigger] ledger.instances_of(k)
                <= ledger.slot_kind@.len() + ledger.target_for(k) by {
                lemma_slots_with_fill(spec.slot_count as nat, k);
            }
        }
        ledger
    }

    /// Orders spares of `kind` up to its target, when a builder runs; returns how many
    /// were ordered (the caller hands each order to the builder).
    pub fn refill(&mut self, kind: usize) -> (orders: usize)
        requires
            old(self).wf(),
            kind < old(self).spares@.len(),
        ensures
            final(self).wf(),
            final(self).slot_kind == old(self).slot_kind,
            final(self).spares == old(self).spares,
            final(self).bank == old(self).bank,
            final(self).spare_target == old(self).spare_target,
            final(self).has_builder == old(self).has_builder,
            final(self).outstanding@ == old(self).outstanding@.update(
                kind as int,
                (old(self).outstanding@[kind as int] + orders) as usize,
            ),
            orders == refill_count(
                old(self).has_builder,
                old(self).target_for(kind),
                old(self).spares@[kind as int] as nat,
                old(self).outstanding@[kind as int] as nat,
            ),
            !old(self).has_builder ==> orders == 0,
            old(self).has_builder && old(self).spares@[kind as int] + old(self).outstanding@[kind as int]
                < old(self).target_for(kind) ==> old(self).spares@[kind as int] + final(self).outstanding@[kind as int]
                == old(self).target_for(kind),
            old(self).spares@[kind as int] + old(self).outstanding@[kind as int] >= old(self).target_for(kind)
                ==> orders == 0,
            old(self).within_bound() ==> final(self).within_bound(),
    {
        let target: usize = if kind == 0 {
            0
        } else {
            self.spare_target
        };
        if !self.has_builder {
            return 0;
        }
        let have = self.spares[kind];
        let ordered = self.outstanding[kind];
        if have as u128 + ordered as u128 >= target as u128 {
            proof {
                assert(self.outstanding@.update(kind as int, (self.outstanding@[kind as int] + 0) as usize) =~= self.outstanding@);
            }
            return 0;
        }
        let orders: usize = target - have - ordered;
        let ghost before = *self;
        self.outstanding.set(kind, ordered + orders);
        proof {
            if before.within_bound() {
                assert forall|k: usize| k < self.spares@.len() implies #[trigger] self.instances_of(
                    k,
                ) <= self.slot_kind@.len() + self.target_for(k) by {
                    if k == kind {
                        lemma_slots_with_bound(self.slot_kind@, k);
                    } else {
                        assert(self.instances_of(k) == before.instances_of(k));
                        assert(before.instances_of(k) <= before.slot_kind@.len() + before.target_for(k));
                    }
                }
            }
        }
        orders
    }

    /// Takes back an order the builder did not accept.
    pub fn cancel_order(&mut self, kind: usize)
        requires
            old(self).wf(),
            kind < old(self).spares@.len(),
        ensures
            final(self).wf(),
            *final(self) == (SpareLedger {
                outstanding: final(self).outstanding,
                ..*old(self)
            }),
            final(self).outstanding@ == old(self).outstanding@.update(
                kind as int,
                if old(self).outstanding@[kind as int] > 0 {
                    (old(self).outstanding@[kind as int] - 1) as usize
                } else {
                    0usize
                },
            ),
            old(self).within_bound() ==> final(self).within_bound(),
    {
        let ordered = self.outstanding[kind];
        let ghost before = *self;
        self.outstanding.set(kind, if ordered > 0 { ordered - 1 } else { 0 });
        proof {
            if before.within_bound() {
                assert forall|k: usize| k < self.spares@.len() implies #[trigger] self.instances_of(
                    k,
                ) <= self.slot_kind@.len() + self.target_for(k) by {
                    assert(before.instances_of(k) <= before.slot_kind@.len() + before.target_for(k));
                }
            }
        }
    }

    /// Takes in the outcome of a background build for `bank`: one order fewer, and one
    /// spare more when the build succeeded. An outcome for the other bank is ignored.
    pub fn accept(&mut self, bank: usize, kind: usize, built: bool)
        requires
            old(self).wf(),
            kind < old(self).spares@.len(),
            old(self).spares@[kind as int] < usize::MAX,
        ensures
            final(self).wf(),
            bank != old(self).bank ==> *final(self) == *old(self),
            bank == old(self).bank ==> {
                &&& *final(self) == (SpareLedger {
                    spares: final(self).spares,
                    outstanding: final(self).outstanding,
                    ..*old(self)
                })
                &&& final(self).outstanding@ == old(self).outstanding@.update(
                    kind as int,
                    if old(self).outstanding@[kind as int] > 0 {
                        (old(self).outstanding@[kind as int] - 1) as usize
                    } else {
                        0usize
                    },
                )
                &&& final(self).spares@ == (if built {
                    old(self).spares@.update(kind as int, (old(self).spares@[kind as int] + 1) as usize)
                } else {
                    old(self).spares@
                })
            },
            old(self).within_bound() && (old(self).outstanding@[kind as int] > 0 || !built)
                ==> final(self).within_bound(),
    {
        if bank != self.bank {
            return;
        }
        let ghost before = *self;
        let ordered = self.outstanding[kind];
        self.outstanding.set(kind, if ordered > 0 { ordered - 1 } else { 0 });
        if built {
            let have = self.spares[kind];
            self.spares.set(kind, have + 1);
        }
        proof {
            if before.within_bound() && (before.outstanding@[kind as int] > 0 || !built) {
                assert forall|k: usize| k < self.spares@.len() implies #[trigger] self.instances_of(
                    k,
                ) <= self.slot_kind@.len() + self.target_for(k) by {
                    assert(before.instances_of(k) <= before.slot_kind@.len() + before.target_for(k));
                }
            }
        }
    }
}

impl SpareLedger {
    /// Moves `slot` to plugin `wanted`: with a spare at hand the slot takes it, gives
    /// its own instance back as a spare of its old plugin, and the spares of `wanted` are
    /// refilled; without one, spares are ordered (at least one) and the swap waits.
    pub fn begin_swap(&mut self, slot: usize, wanted: usize) -> (step: SwapStep)
        requires
            old(self).wf(),
            slot < old(self).slot_kind@.len(),
            wanted < old(self).spares@.len(),
            old(self).spares@[old(self).slot_kind@[slot as int] as int] < usize::MAX,
        ensures
            final(self).wf(),
            final(self).slot_kind@.len() == old(self).slot_kind@.len(),
            final(self).bank == old(self).bank,
            final(self).spare_target == old(self).spare_target,
            final(self).has_builder == old(self).has_builder,
            old(self).slot_kind@[slot as int] == wanted ==> step == SwapStep::Unchanged && *final(self)
                == *old(self),
            old(self).slot_kind@[slot as int] != wanted && old(self).spares@[wanted as int] > 0
                ==> {
                let current = old(self).slot_kind@[slot as int];
                let orders = refill_count(
                    old(self).has_builder,
                    old(self).target_for(wanted),
                    (old(self).spares@[wanted as int] - 1) as nat,
                    old(self).outstanding@[wanted as int] as nat,
                );
                &&& step == SwapStep::Swapped { orders: orders as usize }
                &&& final(self).slot_kind@ == old(self).slot_kind@.update(slot as int, wanted)
                &&& final(self).spares@ == old(self).spares@.update(
                    wanted as int,
                    (old(self).spares@[wanted as int] - 1) as usize,
                ).update(current as int, (old(self).spares@[current as int] + 1) as usize)
                &&& final(self).outstanding@ == old(self).outstanding@.update(
                    wanted as int,
                    (old(self).outstanding@[wanted as int] + orders) as usize,
                )
            },
            old(self).slot_kind@[slot as int] != wanted && old(self).spares@[wanted as int] == 0
                ==> {
                let orders = refill_count(
                    old(self).has_builder,
                    old(self).target_for(wanted),
                    0,
                    old(self).outstanding@[wanted as int] as nat,
                );
                let refilled = old(self).outstanding@[wanted as int] + orders;
                &&& final(self).slot_kind == old(self).slot_kind
                &&& final(self).spares == old(self).spares
                &&& (if old(self).has_builder {
                    &&& step == SwapStep::NeedSpare {
                        orders: (if refilled == 0 {
                            1
                        } else {
                            orders
                        }) as usize,
                    }
                    &&& final(self).outstanding@ == old(self).outstanding@.update(
                        wanted as int,
                        (if refilled == 0 {
                            1
                        } else {
                            refilled
                        }) as usize,
                    )
                } else {
                    step == SwapStep::NoBuilder && final(self).outstanding@ == old(self).outstanding@
                })
            },
            old(self).within_bound() ==> final(self).within_bound(),
    {
        let current = self.slot_kind[slot];
        if current == wanted {
            return SwapStep::Unchanged;
        }
        let ghost start = *self;
        if self.spares[wanted] > 0 {
            let have_wanted = self.spares[wanted];
            self.spares.set(wanted, have_wanted - 1);
            let have_current = self.spares[current];
            self.spares.set(current, have_current + 1);
            self.slot_kind.set(slot, wanted);
            let ghost moved = *self;
            proof {
                if start.within_bound() {
                    assert forall|k: usize| k < moved.spares@.len() implies #[trigger] moved.instances_of(
                        k,
                    ) <= moved.slot_kind@.len() + moved.target_for(k) by {
                        lemma_slots_with_update(start.slot_kind@, slot as int, wanted, k);
                        assert(start.instances_of(k) <= start.slot_kind@.len() + start.target_for(k));
                    }
                }
            }
            let orders = self.refill(wanted);
            return SwapStep::Swapped { orders };
        }
        let mut orders = self.refill(wanted);
        let ghost refilled = *self;
        if self.has_builder && self.outstanding[wanted] == 0 {
            proof {
                lemma_slots_with_other(self.slot_kind@, wanted, slot as int);
            }
            self.outstanding.set(wanted, 1);
            orders = orders + 1;
            proof {
                if refilled.within_bound() {
                    assert forall|k: usize| k < self.spares@.len() implies #[trigger] self.instances_of(
                        k,
                    ) <= self.slot_kind@.len() + self.target_for(k) by {
                        if k != wanted {
                            assert(refilled.instances_of(k) <= refilled.slot_kind@.len()
                                + refilled.target_for(k));
                        }
                    }
                }
            }
        }
        if !self.has_builder {
            assert(self.outstanding@ =~= start.outstanding@);
            return SwapStep::NoBuilder;
        }
        SwapStep::NeedSpare { orders }
    }
}

/// The variable that sets how many threads build plugin instances.
pub const BUILD_THREADS_ENV: &'static str = "CMRT_INSTANCE_BUILD_THREADS";

/// How many threads build the plugin instances: the configured positive number, or
/// else what the machine offers, and never more than there are instances to build.
pub fn instance_build_threads(configured: Option<&str>, available: usize, instance_count: usize) -> (threads: usize)
    ensures
        ({
            let parsed = match configured {
                Some(v) => crate::text::spec_parse_usize(crate::text::trimmed(v@)),
                None => None,
            };
            let chosen = match parsed {
                Some(t) => if t > 0 {
                    t
                } else {
                    available
                },
                None => available,
            };
            threads == if chosen < instance_count {
                chosen
            } else {
                instance_count
            }
        }),
{
    let chosen = match parse_spare_target(configured) {
        Some(t) => if t > 0 {
            t
        } else {
            available
        },
        None => available,
    };
    if chosen < instance_count {
        chosen
    } else {
        instance_count
    }
}

} // verus!
