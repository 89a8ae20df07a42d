//! Button/interrupt bridge: edge-triggered button input modelled as a
//! latched pending condition per button, with one dispatch surface that a
//! shared interrupt handler drives for every registered button.
//!
//! Arming the hardware interrupt line itself happens outside the library;
//! what is verified here is the dispatch discipline: a button whose
//! pending condition is set has it cleared and its bound action — moving
//! the configuration cursor to the next setting — applied exactly once
//! per detected press.

use vstd::prelude::*;
use vstd::arithmetic::div_mod::{lemma_add_mod_noop, lemma_small_mod};
use crate::config::{Config, spec_next_cursor, SETTING_COUNT};

verus! {

/// One registered button: a human-readable identity plus the
/// hardware-level "interrupt pending" condition of its input pin.
#[derive(Copy, Clone)]
pub struct Button {
    /// Human-readable name, for the diagnostic log.
    pub name: &'static str,
    /// The hardware-level "interrupt pending" condition: latched by a
    /// falling edge, cleared by the interrupt service run.
    pub pending: bool,
}

impl Button {
    /// Registers a button over its input pin; its falling-edge condition
    /// starts cleared.
    pub fn new(name: &'static str) -> (b: Button)
        ensures
            b.name == name,
            !b.pending,
    {
        Button { name, pending: false }
    }

    /// The falling edge on the input pin: the hardware latches the
    /// pending condition until an interrupt service run clears it.
    pub fn press(&mut self)
        ensures
            final(self).name == old(self).name,
            final(self).pending,
    {
        self.pending = true;
    }

    /// Services this button from the shared interrupt handler: if its own
    /// pending condition is not set it does nothing, so several buttons
    /// can share one interrupt line; if set, it clears the condition and
    /// applies the bound action — advancing the configuration cursor —
    /// exactly once.
    pub fn signal(&mut self, config: &mut Config) -> (fired: bool)
        requires
            old(config).wf(),
        ensures
            fired == old(self).pending,
            final(self).name == old(self).name,
            !final(self).pending,
            final(config).wf(),
            final(config).items@ == old(config).items@,
            final(config).cursor() == if old(self).pending {
                spec_next_cursor(old(config).cursor())
            } else {
                old(config).cursor()
            },
    {
        if self.pending {
            self.pending = false;
            config.next_item();
            true
        } else {
            false
        }
    }
}

/// Number of presses latched and waiting to be serviced among the
/// registered buttons.
pub open spec fn pending_count(s: Seq<Button>) -> int
    decreases s.len(),
{
    if s.len() == 0 {
        0
    } else {
        pending_count(s.drop_last()) + if s.last().pending {
            1int
        } else {
            0int
        }
    }
}

/// The pending count ranges between none and one per registered button.
pub proof fn lemma_pending_count_bounds(s: Seq<Button>)
    ensures
        0 <= pending_count(s) <= s.len(),
    decreases s.len(),
{
    if s.len() > 0 {
        lemma_pending_count_bounds(s.drop_last());
    }
}

/// No press is pending exactly when the pending count is zero.
pub proof fn lemma_pending_count_zero(s: Seq<Button>)
    ensures
        (pending_count(s) == 0) <==> (forall|i: int|
            0 <= i < s.len() ==> !(#[trigger] s[i]).pending),
    decreases s.len(),
{
    if s.len() > 0 {
        lemma_pending_count_zero(s.drop_last());
        lemma_pending_count_bounds(s.drop_last());
        if pending_count(s) == 0 {
            assert forall|i: int| 0 <= i < s.len() implies !(#[trigger] s[i]).pending by {
                if i < s.len() - 1 {
                    assert(s.drop_last()[i] == s[i]);
                }
            }
        }
        if forall|i: int| 0 <= i < s.len() ==> !(#[trigger] s[i]).pending {
            assert forall|i: int| 0 <= i < s.drop_last().len() implies !(
            #[trigger] s.drop_last()[i]).pending by {
                assert(s.drop_last()[i] == s[i]);
            }
        }
    }
}

/// Latching one more press on a button that had none pending raises the
/// pending count by exactly one.
pub proof fn lemma_pending_count_latch(s: Seq<Button>, i: int, b: Button)
    requires
        0 <= i < s.len(),
        !s[i].pending,
        b.pending,
    ensures
        pending_count(s.update(i, b)) == pending_count(s) + 1,
    decreases s.len(),
{
    if i == s.len() - 1 {
        assert(s.update(i, b).drop_last() =~= s.drop_last());
    } else {
        assert(s.update(i, b).drop_last() =~= s.drop_last().update(i, b));
        lemma_pending_count_latch(s.drop_last(), i, b);
    }
}

/// The fixed dispatch table of registered buttons, populated once at
/// startup.  One shared interrupt handler walks it, so a press on any
/// registered button is serviced without the handler knowing which
/// physical pin backs it.
pub struct Buttons {
    pub registered: Vec<Button>,
}

/// Uniform dispatch surface for interrupt-context servicing.
pub trait Interruptor {
    /// Number of latched presses a service run would handle.
    spec fn pending_presses(&self) -> int;

    /// Services every latched press from the interrupt context: the
    /// cursor advances by exactly one position per press, wrapping, and
    /// nothing stays pending afterwards.  Servicing only moves the
    /// cursor; the setting values never change from interrupt context.
    fn isr(&mut self, config: &mut Config)
        requires
            old(config).wf(),
        ensures
            final(config).wf(),
            final(config).items@ == old(config).items@,
            final(config).cursor() == (old(config).cursor() + old(self).pending_presses()) % (
            SETTING_COUNT as int),
            final(self).pending_presses() == 0,
    ;
}

impl Buttons {
    /// An empty dispatch table.
    pub fn new() -> (b: Buttons)
        ensures
            b.registered@.len() == 0,
    {
        Buttons { registered: Vec::new() }
    }

    /// Adds a button to the dispatch table at startup.
    pub fn register(&mut self, button: Button)
        ensures
            final(self).registered@ == old(self).registered@.push(button),
    {
        self.registered.push(button);
    }

    /// Services every registered button once: each latched press is
    /// cleared and moves the cursor by one position, so the cursor
    /// advances by exactly the number of presses that were pending.
    pub fn signal_all(&mut self, config: &mut Config)
        requires
            old(config).wf(),
        ensures
            final(self).registered@.len() == old(self).registered@.len(),
            forall|i: int|
                0 <= i < old(self).registered@.len() ==> !(
                #[trigger] final(self).registered@[i]).pending,
            forall|i: int|
                0 <= i < old(self).registered@.len() ==> final(self).registered@[i].name
                    == old(self).registered@[i].name,
            final(config).wf(),
            final(config).items@ == old(config).items@,
            final(config).cursor() == (old(config).cursor() + pending_count(
                old(self).registered@,
            )) % (SETTING_COUNT as int),
    {
        let len = self.registered.len();
        proof {
            lemma_pending_count_bounds(self.registered@.take(0));
            assert(self.registered@.take(0) =~= Seq::<Button>::empty());
            lemma_small_mod(old(config).cursor() as nat, SETTING_COUNT as nat);
        }
        for i in 0..len
            invariant
                len == self.registered@.len(),
                self.registered@.len() == old(self).registered@.len(),
                forall|j: int|
                    0 <= j < i ==> !(#[trigger] self.registered@[j]).pending,
                forall|j: int|
                    0 <= j < i ==> self.registered@[j].name == old(self).registered@[j].name,
                forall|j: int|
                    i <= j < len ==> #[trigger] self.registered@[j] == old(self).registered@[j],
                config.wf(),
                config.items@ == old(config).items@,
                config.cursor() == (old(config).cursor() + pending_count(
                    old(self).registered@.take(i as int),
                )) % (SETTING_COUNT as int),
        {
            let ghost cursor_before = config.cursor();
            let ghost serviced = pending_count(old(self).registered@.take(i as int));
            let mut button = self.registered[i];
            let fired = button.signal(config);
            self.registered.set(i, button);
            proof {
                assert(old(self).registered@.take(i + 1).drop_last() =~= old(
                    self,
                ).registered@.take(i as int));
                if fired {
                    lemma_add_mod_noop(
                        old(config).cursor() + serviced,
                        1,
                        SETTING_COUNT as int,
                    );
                    lemma_small_mod(1nat, SETTING_COUNT as nat);
                }
            }
        }
        proof {
            assert(old(self).registered@.take(len as int) =~= old(self).registered@);
        }
    }
}

impl Interruptor for Button {
    open spec fn pending_presses(&self) -> int {
        if self.pending {
            1
        } else {
            0
        }
    }

    fn isr(&mut self, config: &mut Config) {
        self.signal(config);
        proof {
            lemma_small_mod(old(config).cursor() as nat, SETTING_COUNT as nat);
        }
    }
}

impl Interruptor for Buttons {
    open spec fn pending_presses(&self) -> int {
        pending_count(self.registered@)
    }

    fn isr(&mut self, config: &mut Config) {
        self.signal_all(config);
        proof {
            lemma_pending_count_zero(self.registered@);
        }
    }
}

} // verus!
