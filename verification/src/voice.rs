//! Monophonic voice allocator: a bounded note stack with a selection policy.
//!
//! Held notes live in a fixed-capacity stack, oldest first; an `active`
//! index selects the note that sounds. `note_on` appends a note and moves
//! the selection per the configured priority policy; `note_off` removes a
//! note by compaction (later notes shift down one slot, order preserved)
//! and, when the sounding note itself was released, rescans for the new
//! selection. Gate and CV intents go to [`Outputs`]; the returned boolean
//! says whether a new trigger pulse should fire.

use crate::outputs::Cv;
use crate::outputs::Gate;
use crate::outputs::Outputs;
use crate::outputs::note_voltage_bits;
use crate::outputs::voltage_code;
use crate::settings::NotePriority;
use crate::settings::Settings;
use vstd::prelude::*;

verus! {

/// Maximum number of simultaneously held notes.
pub const VOICE_CAPACITY: usize = 8;

/// Index that a forward scan keeps: the first position holding the
/// maximum of the sequence.
pub open spec fn scan_highest(s: Seq<u8>, n: int) -> int
    recommends
        1 <= n <= s.len(),
    decreases n,
{
    if n <= 1 {
        0
    } else {
        let p = scan_highest(s, n - 1);
        if s[n - 1] > s[p] {
            n - 1
        } else {
            p
        }
    }
}

/// The first position holding the minimum of the sequence.
pub open spec fn scan_lowest(s: Seq<u8>, n: int) -> int
    recommends
        1 <= n <= s.len(),
    decreases n,
{
    if n <= 1 {
        0
    } else {
        let p = scan_lowest(s, n - 1);
        if s[n - 1] < s[p] {
            n - 1
        } else {
            p
        }
    }
}

/// The selection after a note is appended: `s` and `active` are the stack
/// and selection before the append.
pub open spec fn on_active(policy: NotePriority, s: Seq<u8>, active: int, note: u8) -> int {
    if s.len() == 0 {
        0
    } else {
        match policy {
            NotePriority::Latest => s.len() as int,
            NotePriority::First => 0,
            NotePriority::Highest => if s[active] < note {
                s.len() as int
            } else {
                active
            },
            NotePriority::Lowest => if !(s[active] < note) {
                s.len() as int
            } else {
                active
            },
        }
    }
}

/// The selection recomputed over the remaining stack `t` after the
/// sounding note was released.
pub open spec fn off_active(policy: NotePriority, t: Seq<u8>) -> int {
    if t.len() == 0 {
        0
    } else {
        match policy {
            NotePriority::Latest => t.len() - 1,
            NotePriority::First => 0,
            NotePriority::Highest => scan_highest(t, t.len() as int),
            NotePriority::Lowest => scan_lowest(t, t.len() as int),
        }
    }
}

/// First index of `note` in `v`, if present, with no earlier occurrence.
fn find_note(v: &Vec<u8>, note: u8) -> (r: Option<usize>)
    ensures
        match r {
            Some(i) => i < v@.len() && v@[i as int] == note,
            None => !v@.contains(note),
        },
{
    let mut i: usize = 0;
    while i < v.len()
        invariant
            i <= v@.len(),
            forall|j: int| 0 <= j < i ==> v@[j] != note,
        decreases v@.len() - i,
    {
        if v[i] == note {
            return Some(i);
        }
        i = i + 1;
    }
    None
}

/// The allocator state: held notes, selection, and which gate and CV outputs
/// this voice drives.
pub struct Voice {
    /// Gate output asserted while any note is held.
    pub gate: Gate,
    /// The CV output carrying the sounding note's pitch.
    pub cv: Cv,
    /// Held notes, oldest first; never more than [`VOICE_CAPACITY`], never
    /// a duplicate.
    pub memory: Vec<u8>,
    /// Position of the sounding note while any note is held.
    pub active: usize,
}

impl Voice {
    /// The allocator invariant: the stack is bounded, duplicate-free, and
    /// the selection is a valid position whenever a note is held.
    pub open spec fn wf(self) -> bool {
        &&& self.memory@.len() <= VOICE_CAPACITY
        &&& forall|i: int, j: int|
            0 <= i < j < self.memory@.len() ==> self.memory@[i] != self.memory@[j]
        &&& self.memory@.len() > 0 ==> (self.active as int) < self.memory@.len()
        &&& self.memory@.len() == 0 ==> self.active == 0
    }

    /// An empty voice wired to the given gate and CV outputs.
    pub fn new(gate: Gate, cv: Cv) -> (v: Voice)
        ensures
            v.wf(),
            v.gate == gate,
            v.cv == cv,
            v.memory@.len() == 0,
            v.active == 0,
    {
        Voice { gate, cv, memory: Vec::new(), active: 0 }
    }

    /// Hold a new note.
    ///
    /// A note already held, or arriving with the stack full, is ignored.
    /// Otherwise the note is appended, the selection moves per the policy,
    /// a gate assertion goes out for a first held note, and the CV is
    /// updated whenever the selection changed (or this is the first note).
    /// Returns whether a new trigger pulse should fire: always, unless
    /// legato is enabled and another note was already held.
    pub fn note_on(&mut self, note: u8, outputs: &mut Outputs, settings: &Settings) -> (retrigger:
        bool)
        requires
            old(self).wf(),
            old(outputs).wf(),
        ensures
            final(self).wf(),
            final(outputs).wf(),
            final(self).gate == old(self).gate,
            final(self).cv == old(self).cv,
            (old(self).memory@.contains(note) || old(self).memory@.len()
                == VOICE_CAPACITY) ==> {
                &&& *final(self) == *old(self)
                &&& *final(outputs) == *old(outputs)
                &&& !retrigger
            },
            (!old(self).memory@.contains(note) && old(self).memory@.len() < VOICE_CAPACITY)
                ==> ({
                let s = old(self).memory@;
                let a2 = on_active(settings.note_priority, s, old(self).active as int, note);
                &&& final(self).memory@ == s.push(note)
                &&& final(self).active == a2
                &&& retrigger == (!settings.legato || s.len() == 0)
                &&& final(outputs).gates@ == (if s.len() == 0 {
                    old(outputs).gates@.update(old(self).gate.spec_index(), true)
                } else {
                    old(outputs).gates@
                })
                &&& final(outputs).dac.calibration == old(outputs).dac.calibration
                &&& final(outputs).dac.codes@ == (if s.len() == 0 || a2 != old(self).active as int {
                    old(outputs).dac.codes@.update(
                        old(self).cv.spec_channel().spec_index(),
                        voltage_code(
                            old(outputs).dac.calibration@[old(self).cv.spec_channel().spec_index()]@,
                            note_voltage_bits(s.push(note)[a2]),
                        ) as u16,
                    )
                } else {
                    old(outputs).dac.codes@
                })
            }),
    {
        if let Some(_i) = find_note(&self.memory, note) {
            return false;
        }
        if self.memory.len() == VOICE_CAPACITY {
            return false;
        }

        let old_len = self.memory.len();
        self.memory.push(note);
        let new_active: usize = if old_len == 0 {
            0
        } else {
            match settings.note_priority {
                NotePriority::Latest => old_len,
                NotePriority::First => 0,
                NotePriority::Highest => if self.memory[self.active] < note {
                    old_len
                } else {
                    self.active
                },
                NotePriority::Lowest => if !(self.memory[self.active] < note) {
                    old_len
                } else {
                    self.active
                },
            }
        };
        if old_len == 0 {
            outputs.set_gate(self.gate, true);
        }
        if old_len == 0 || new_active != self.active {
            let pitch = self.memory[new_active];
            outputs.set_cv_note(self.cv, pitch);
        }
        self.active = new_active;
        !settings.legato || old_len == 0
    }

    /// Holding a note on an empty voice and releasing it restores the
    /// stack to empty, whatever the priority policy: the appended note
    /// becomes the selection, the release finds it at the selection, and
    /// the remaining stack is empty — so by the contract of [`Voice::note_off`]
    /// its gate comes back deasserted.
    pub proof fn lemma_on_off_restores_empty(policy: NotePriority, note: u8)
        ensures
            ({
                let s0 = Seq::<u8>::empty();
                let s1 = s0.push(note);
                let f = s1.index_of(note);
                &&& on_active(policy, s0, 0, note) == 0
                &&& f == 0
                &&& s1.remove(f).len() == 0
                &&& off_active(policy, s1.remove(f)) == 0
            }),
    {
        let s1 = Seq::<u8>::empty().push(note);
        assert(s1[0] == note);
        assert(s1.index_of(note) == 0);
        assert(s1.remove(0).len() == 0);
    }

    /// Release a held note.
    ///
    /// A note that is not held is ignored. Otherwise it is removed by
    /// compaction; if it was the sounding note the selection is recomputed
    /// per the policy and the CV updated, and its gate is released once no
    /// note remains. Returns whether a new trigger should fire for the
    /// newly exposed note: only if a note was actually removed, legato is
    /// disabled, and at least one note remains held.
    pub fn note_off(&mut self, note: u8, outputs: &mut Outputs, settings: &Settings) -> (retrigger:
        bool)
        requires
            old(self).wf(),
            old(outputs).wf(),
        ensures
            final(self).wf(),
            final(outputs).wf(),
            final(self).gate == old(self).gate,
            final(self).cv == old(self).cv,
            !old(self).memory@.contains(note) ==> {
                &&& *final(self) == *old(self)
                &&& *final(outputs) == *old(outputs)
                &&& !retrigger
            },
            old(self).memory@.contains(note) ==> ({
                let s = old(self).memory@;
                let f = s.index_of(note);
                let t = s.remove(f);
                &&& final(self).memory@ == t
                &&& retrigger == (!settings.legato && t.len() > 0)
                &&& (f != old(self).active as int ==> {
                    &&& final(self).active == (if f < old(self).active as int {
                        old(self).active - 1
                    } else {
                        old(self).active as int
                    })
                    &&& *final(outputs) == *old(outputs)
                })
                &&& (f == old(self).active as int ==> {
                    let a2 = off_active(settings.note_priority, t);
                    &&& final(self).active == a2
                    &&& final(outputs).gates@ == (if t.len() == 0 {
                        old(outputs).gates@.update(old(self).gate.spec_index(), false)
                    } else {
                        old(outputs).gates@
                    })
                    &&& final(outputs).dac.calibration == old(outputs).dac.calibration
                    &&& final(outputs).dac.codes@ == (if t.len() > 0 {
                        old(outputs).dac.codes@.update(
                            old(self).cv.spec_channel().spec_index(),
                            voltage_code(
                                old(
                                    outputs,
                                ).dac.calibration@[old(self).cv.spec_channel().spec_index()]@,
                                note_voltage_bits(t[a2]),
                            ) as u16,
                        )
                    } else {
                        old(outputs).dac.codes@
                    })
                })
            }),
    {
        let found = match find_note(&self.memory, note) {
            Some(i) => i,
            None => {
                return false;
            },
        };
        proof {
            let s = old(self).memory@;
            assert forall|i: int| 0 <= i < s.len() && s[i] == note implies i == found as int by {}
            assert(s.index_of(note) == found as int);
        }
        self.memory.remove(found);

        if found == self.active {
            let new_active: usize = if self.memory.len() == 0 {
                0
            } else {
                match settings.note_priority {
                    NotePriority::Latest => self.memory.len() - 1,
                    NotePriority::First => 0,
                    NotePriority::Highest => {
                        let mut highest: usize = 0;
                        let mut i: usize = 1;
                        while i < self.memory.len()
                            invariant
                                self.memory@.len() > 0,
                                1 <= i <= self.memory@.len(),
                                highest as int == scan_highest(self.memory@, i as int),
                                highest < i,
                            decreases self.memory@.len() - i,
                        {
                            if self.memory[i] > self.memory[highest] {
                                highest = i;
                            }
                            i = i + 1;
                        }
                        highest
                    },
                    NotePriority::Lowest => {
                        let mut lowest: usize = 0;
                        let mut i: usize = 1;
                        while i < self.memory.len()
                            invariant
                                self.memory@.len() > 0,
                                1 <= i <= self.memory@.len(),
                                lowest as int == scan_lowest(self.memory@, i as int),
                                lowest < i,
                            decreases self.memory@.len() - i,
                        {
                            if self.memory[i] < self.memory[lowest] {
                                lowest = i;
                            }
                            i = i + 1;
                        }
                        lowest
                    },
                }
            };
            self.active = new_active;
            if self.memory.len() > 0 {
                let pitch = self.memory[new_active];
                outputs.set_cv_note(self.cv, pitch);
            } else {
                outputs.set_gate(self.gate, false);
            }
        } else if found < self.active {
            self.active = self.active - 1;
        }

        !settings.legato && self.memory.len() > 0
    }
}

} // verus!
