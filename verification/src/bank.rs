//! How the live instances split into two banks: the first half of the global instance
//! IDs is bank 0, the second half bank 1. While one bank plays, the next patches are
//! preloaded into the other.
use vstd::prelude::*;

use crate::ipc::InstanceId;
use crate::text::decimal_string;

verus! {

/// There are two banks: the one playing and the one behind it.
pub const BANK_COUNT: usize = 2;

/// A position inside a bank.
#[derive(Clone, Copy, Debug, PartialEq, Eq, Structural)]
pub struct BankSlot {
    pub bank: usize,
    pub local_index: usize,
}

/// The split of the live instances into the two banks.
#[derive(Clone, Copy, Debug, PartialEq, Eq)]
pub struct BankLayout {
    first: usize,
    second: usize,
}

/// The split of `count` instances: bank 0 takes the odd one out.
pub open spec fn split_sizes(count: nat) -> (nat, nat) {
    let first = (count + 1) / 2;
    (first, (count - first) as nat)
}

pub open spec fn layout_error_text(count: nat) -> Seq<char> {
    "live instance count "@ + crate::text::decimal_digits(count) + " cannot be split into 2 banks"@
}

pub open spec fn range_error_text(instance_id: nat, count: nat) -> Seq<char> {
    "instance "@ + crate::text::decimal_digits(instance_id)
        + " is outside configured live range 0.."@ + crate::text::decimal_digits(count)
}

impl BankLayout {
    /// The two sizes come from splitting one count: bank 0 holds the same number as
    /// bank 1 or one more.
    #[verifier::type_invariant]
    spec fn split_of_one_count(self) -> bool {
        &&& self.first as int + self.second as int <= usize::MAX
        &&& self.second <= self.first <= self.second + 1
    }

    pub closed spec fn sizes(self) -> (nat, nat) {
        (self.first as nat, self.second as nat)
    }

    /// The global index of a bank position.
    pub open spec fn spec_global_index(self, slot: BankSlot) -> int {
        if slot.bank == 0 {
            slot.local_index as int
        } else {
            self.sizes().0 + slot.local_index
        }
    }

    /// The bank position of a global index.
    pub open spec fn spec_slot_of_index(self, index: int) -> BankSlot {
        if index < self.sizes().0 {
            BankSlot { bank: 0, local_index: index as usize }
        } else {
            BankSlot { bank: 1, local_index: (index - self.sizes().0) as usize }
        }
    }

    /// The layout for a configured live instance count, which must be even and not 0:
    /// otherwise preloading into the other bank cannot work.
    pub fn new(live_instance_count: usize) -> (result: Result<BankLayout, String>)
        ensures
            live_instance_count == 0 || live_instance_count % 2 == 1 ==> (result matches Err(e)
                && e@ == layout_error_text(live_instance_count as nat)),
            live_instance_count > 0 && live_instance_count % 2 == 0 ==> (result matches Ok(layout)
                && layout.sizes() == split_sizes(live_instance_count as nat)),
    {
        if live_instance_count == 0 || live_instance_count % 2 != 0 {
            let mut message = crate::text::owned("live instance count ");
            message.append(decimal_string(live_instance_count as u64).as_str());
            message.append(" cannot be split into 2 banks");
            return Err(message);
        }
        Ok(BankLayout::split_any(live_instance_count))
    }

    /// The split for any count, bank 0 taking the odd one out. The workers are split
    /// this way even where preloading cannot work, so that the server still starts.
    pub fn split_any(live_instance_count: usize) -> (layout: BankLayout)
        ensures
            layout.sizes() == split_sizes(live_instance_count as nat),
    {
        let first = live_instance_count / 2 + live_instance_count % 2;
        BankLayout { first, second: live_instance_count - first }
    }

    pub fn instance_count(&self) -> (count: usize)
        ensures
            count == self.sizes().0 + self.sizes().1,
    {
        proof {
            use_type_invariant(self);
        }
        self.first + self.second
    }

    /// The number of instances in `bank`.
    pub fn bank_size(&self, bank: usize) -> (size: usize)
        requires
            bank < BANK_COUNT,
        ensures
            size == (if bank == 0 {
                self.sizes().0
            } else {
                self.sizes().1
            }),
    {
        if bank == 0 {
            self.first
        } else {
            self.second
        }
    }

    /// The bank position of a global instance ID, which must lie in the configured range.
    pub fn slot_of(&self, instance_id: InstanceId) -> (result: Result<BankSlot, String>)
        ensures
            instance_id >= self.sizes().0 + self.sizes().1 ==> (result matches Err(e) && e@
                == range_error_text(instance_id as nat, self.sizes().0 + self.sizes().1)),
            instance_id < self.sizes().0 + self.sizes().1 ==> result == Ok::<BankSlot, String>(
                self.spec_slot_of_index(instance_id as int),
            ),
    {
        let count = self.instance_count();
        let index = instance_id as usize;
        if index >= count {
            let mut message = crate::text::owned("instance ");
            message.append(decimal_string(instance_id as u64).as_str());
            message.append(" is outside configured live range 0..");
            message.append(decimal_string(count as u64).as_str());
            return Err(message);
        }
        Ok(self.slot_of_index(index))
    }

    /// The bank position of a global index already checked to be in range.
    pub fn slot_of_index(&self, index: usize) -> (slot: BankSlot)
        requires
            index < self.sizes().0 + self.sizes().1,
        ensures
            slot == self.spec_slot_of_index(index as int),
    {
        if index < self.first {
            BankSlot { bank: 0, local_index: index }
        } else {
            BankSlot { bank: 1, local_index: index - self.first }
        }
    }

    /// The global index of a bank position.
    pub fn global_index(&self, slot: BankSlot) -> (index: usize)
        requires
            slot.bank < BANK_COUNT,
            slot.local_index < (if slot.bank == 0 {
                self.sizes().0
            } else {
                self.sizes().1
            }),
        ensures
            index == self.spec_global_index(slot),
    {
        proof {
            use_type_invariant(self);
        }
        if slot.bank == 0 {
            slot.local_index
        } else {
            self.first + slot.local_index
        }
    }
}

/// Splitting loses no instance, and bank 0 holds the same number as bank 1 or one more.
pub proof fn lemma_split_keeps_every_instance(count: nat)
    ensures
        split_sizes(count).0 + split_sizes(count).1 == count,
        split_sizes(count).1 <= split_sizes(count).0 <= split_sizes(count).1 + 1,
{
}

/// A global index taken to its bank position and back is itself, and a bank position
/// taken to its global index and back is itself.
pub proof fn lemma_global_index_round_trip(layout: BankLayout, index: int, slot: BankSlot)
    requires
        0 <= index < layout.sizes().0 + layout.sizes().1,
        slot.bank < BANK_COUNT,
        slot.local_index < (if slot.bank == 0 {
            layout.sizes().0
        } else {
            layout.sizes().1
        }),
    ensures
        layout.spec_global_index(layout.spec_slot_of_index(index)) == index,
        layout.spec_slot_of_index(layout.spec_global_index(slot)) == slot,
        layout.spec_slot_of_index(index).bank < BANK_COUNT,
{
}

} // verus!
