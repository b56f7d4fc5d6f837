//! A bounded counter widget state: a single integer in `[0, 255]`,
//! driven by discrete increase/decrease events and saturating at both
//! ends rather than wrapping or failing.

use vstd::prelude::*;

verus! {

/// Counter widget state. `count` stays within `[0, 255]` by the type
/// alone; the methods saturate at the bounds.
pub struct Counter {
    pub title: &'static str,
    pub count: u8,
}

/// `count` after `n` increase events starting from `c`.
pub open spec fn spec_increase_n(c: u8, n: nat) -> u8
    decreases n,
{
    if n == 0 {
        c
    } else {
        let prev = spec_increase_n(c, (n - 1) as nat);
        if prev < 255 {
            (prev + 1) as u8
        } else {
            255u8
        }
    }
}

/// `count` after `n` decrease events starting from `c`.
pub open spec fn spec_decrease_n(c: u8, n: nat) -> u8
    decreases n,
{
    if n == 0 {
        c
    } else {
        let prev = spec_decrease_n(c, (n - 1) as nat);
        if prev > 0 {
            (prev - 1) as u8
        } else {
            0u8
        }
    }
}

impl Counter {
    pub fn new(title: &'static str) -> (r: Self)
        ensures
            r.title == title,
            r.count == 0,
    {
        Self { title: title, count: 0 }
    }

    pub fn increase_counter(&mut self)
        ensures
            final(self).count == if old(self).count < 255 {
                (old(self).count + 1) as u8
            } else {
                255u8
            },
            final(self).title == old(self).title,
    {
        self.count = self.count.saturating_add(1);
    }

    pub fn decrease_counter(&mut self)
        ensures
            final(self).count == if old(self).count > 0 {
                (old(self).count - 1) as u8
            } else {
                0u8
            },
            final(self).title == old(self).title,
    {
        self.count = self.count.saturating_sub(1);
    }
}

/// From a saturated counter, any number of further increase events
/// leaves the count saturated; dually for decrease at zero.
pub proof fn lemma_counter_saturation(n: nat)
    ensures
        spec_increase_n(255u8, n) == 255u8,
        spec_decrease_n(0u8, n) == 0u8,
    decreases n,
{
    if n > 0 {
        lemma_counter_saturation((n - 1) as nat);
    }
}

} // verus!
