//! What the player carries: the weapon belt and items.

use bevy::math::Vec3;
use vstd::prelude::*;
use crate::focus::CameraFocus;
use crate::weapon::{FireResult, Gun, GunModel, TriggerMode};

verus! {

/// The player's equipped weapons: a single gun.
#[derive(Debug)]
pub struct Belt {
    pub gun: Gun,
}

impl Default for Belt {
    /// A belt with the gun that a player starts with.
    fn default() -> (r: Belt)
        ensures
            r.gun@ == GunModel::standard(),
    {
        Belt { gun: Gun::default() }
    }
}

impl Belt {
    /// How the gun's trigger answers a held button.
    pub fn get_trigger_mode(&self) -> (r: TriggerMode)
        ensures
            r == self.gun@.trigger.trigger_mode,
    {
        self.gun.get_trigger_mode()
    }

    /// The gun's current spread, in thousandths of a degree.
    pub fn get_spread(&self) -> (r: u32)
        ensures
            r == self.gun@.muzzle.current_spread,
    {
        self.gun.get_spread()
    }

    /// Lets a frame of `delta` nanoseconds pass for the gun.
    pub fn tick(&mut self, delta: u64)
        ensures
            final(self).gun@ == old(self).gun@.ticked(delta as nat),
    {
        self.gun.tick(delta);
    }

    /// Pulls the gun's trigger, see [`Gun::fire`].
    pub fn fire(&mut self, focus: &CameraFocus, sampled: &Vec<Vec3>) -> (r: FireResult)
        ensures
            r@ == old(self).gun@.fire_outcome(*focus, sampled@),
            final(self).gun@ == old(self).gun@.fired(),
    {
        self.gun.fire(focus, sampled)
    }
}

/// What an item is good for.
#[derive(Clone, Copy, Debug, PartialEq, Eq, Structural)]
pub enum ItemType {
    Crafting,
    Consumable,
    Important,
    Key,
    Throwable,
}

/// The number under which an item is kept.
#[derive(Clone, Copy, Debug, PartialEq, Eq, Structural)]
pub struct ItemId(pub u16);

/// A stack of one kind of thing.
#[derive(Debug)]
pub struct Item {
    pub name: String,
    pub description: String,
    pub base_value: u16,
    pub amount: u8,
    pub item_types: Vec<ItemType>,
}

impl Item {
    /// What the stack is worth under a modifier in thousandths: the base
    /// value times the modifier, rounded down, and at most what fits.
    pub open spec fn value_under(self, value_modifier: nat) -> nat {
        let value = self.base_value as nat * value_modifier / 1000;
        if value > u16::MAX as nat {
            u16::MAX as nat
        } else {
            value
        }
    }

    /// Whether the item is of the type `item_type`.
    pub fn matches_type(&self, item_type: ItemType) -> (r: bool)
        ensures
            r == self.item_types@.contains(item_type),
    {
        let mut i: usize = 0;
        while i < self.item_types.len()
            invariant
                i <= self.item_types@.len(),
                forall|k: int| 0 <= k < i ==> self.item_types@[k] != item_type,
            decreases self.item_types@.len() - i,
        {
            if self.item_types[i] == item_type {
                return true;
            }
            i += 1;
        }
        false
    }

    /// The item's name.
    pub fn get_name(&self) -> (r: String)
        ensures
            r@ == self.name@,
    {
        self.name.clone()
    }

    /// The item's description.
    pub fn get_description(&self) -> (r: String)
        ensures
            r@ == self.description@,
    {
        self.description.clone()
    }

    /// What the stack is worth under `value_modifier`, in thousandths.
    pub fn get_value(&self, value_modifier: u32) -> (r: u16)
        ensures
            r == self.value_under(value_modifier as nat),
    {
        assert(0 <= self.base_value * value_modifier <= 0xffff * 0xffff_ffff) by (nonlinear_arith)
            requires
                0 <= self.base_value <= 0xffff,
                0 <= value_modifier <= 0xffff_ffff,
        ;
        let value: u64 = (self.base_value as u64) * (value_modifier as u64) / 1000;
        if value > u16::MAX as u64 {
            u16::MAX
        } else {
            value as u16
        }
    }

    /// How many are in the stack.
    pub fn get_amount(&self) -> (r: u8)
        ensures
            r == self.amount,
    {
        self.amount
    }

    /// Takes up to `desired_amount` from the stack and returns how many were
    /// taken: all that were asked for, or all there were.
    pub fn consume(&mut self, desired_amount: u8) -> (r: u8)
        ensures
            r == (if desired_amount > old(self).amount {
                old(self).amount
            } else {
                desired_amount
            }),
            final(self).amount == old(self).amount - r,
            final(self).name == old(self).name,
            final(self).description == old(self).description,
            final(self).base_value == old(self).base_value,
            final(self).item_types == old(self).item_types,
    {
        let amount_consumed: u8 = if desired_amount > self.amount {
            self.amount
        } else {
            desired_amount
        };
        self.amount -= amount_consumed;
        amount_consumed
    }
}

} // verus!
