//! The effect vocabulary: the four kinds of event a byte stream decodes
//! into, and what a terminal does on each.

use vstd::prelude::*;
use crate::dispatch::byte_strings;
use crate::grid::Terminal;
use crate::state::TerminalState;

verus! {

/// One decoded event of the byte stream.
#[derive(Debug, PartialEq, Eq)]
pub enum Effect {
    /// A glyph to draw.
    Print(char),
    /// A C0 control.
    Execute(u8),
    /// A control sequence: its parameters (each by its first value), how
    /// many values it carried (subparameters counted), its intermediate
    /// bytes, whether the decoder had to drop part of it, and its final
    /// character.
    Csi { params: Vec<u16>, values: usize, intermediates: Vec<u8>, ignore: bool, action: char },
    /// An operating system command: its byte strings, and whether a bell
    /// terminated it.
    Osc { strings: Vec<Vec<u8>>, bell_terminated: bool },
}

/// An effect by its contents.
pub enum EffectView {
    Print(char),
    Execute(u8),
    Csi { params: Seq<u16>, values: int, intermediates: Seq<u8>, ignore: bool, action: char },
    Osc { strings: Seq<Seq<u8>>, bell_terminated: bool },
}

impl View for Effect {
    type V = EffectView;

    open spec fn view(&self) -> EffectView {
        match self {
            Effect::Print(c) => EffectView::Print(*c),
            Effect::Execute(byte) => EffectView::Execute(*byte),
            Effect::Csi { params, values, intermediates, ignore, action } => EffectView::Csi {
                params: params@,
                values: *values as int,
                intermediates: intermediates@,
                ignore: *ignore,
                action: *action,
            },
            Effect::Osc { strings, bell_terminated } => EffectView::Osc {
                strings: byte_strings(strings@),
                bell_terminated: *bell_terminated,
            },
        }
    }
}

/// The effects of a list by their contents.
pub open spec fn contents(effects: Seq<Effect>) -> Seq<EffectView> {
    Seq::new(effects.len(), |i: int| effects[i]@)
}

impl TerminalState {
    /// The state after one effect.
    pub open spec fn apply(self, effect: EffectView) -> Self {
        match effect {
            EffectView::Print(c) => self.print(c),
            EffectView::Execute(byte) => self.execute(byte),
            EffectView::Csi { params, values, intermediates, ignore, action } => self.csi_counted(
                params,
                values,
                intermediates,
                action,
            ),
            EffectView::Osc { strings, bell_terminated } => self.osc(strings),
        }
    }

    /// The state after a sequence of effects, applied in order.
    pub open spec fn run(self, effects: Seq<EffectView>) -> Self
        decreases effects.len(),
    {
        if effects.len() == 0 {
            self
        } else {
            self.run(effects.drop_last()).apply(effects.last())
        }
    }
}

impl Terminal {
    /// Performs one effect.
    pub fn apply(&mut self, effect: &Effect)
        requires
            old(self).wf(),
        ensures
            final(self).wf(),
            final(self)@ == old(self)@.apply(effect@),
    {
        match effect {
            Effect::Print(c) => self.print(*c),
            Effect::Execute(byte) => self.execute(*byte),
            Effect::Csi { params, values, intermediates, ignore, action } => self.csi_dispatch_counted(
                params.as_slice(),
                *values,
                intermediates.as_slice(),
                *ignore,
                *action,
            ),
            Effect::Osc { strings, bell_terminated } => self.osc_dispatch(strings, *bell_terminated),
        }
    }

    /// Performs a sequence of effects in order.
    pub fn apply_all(&mut self, effects: &Vec<Effect>)
        requires
            old(self).wf(),
        ensures
            final(self).wf(),
            final(self)@ == old(self)@.run(contents(effects@)),
    {
        let mut i: usize = 0;
        while i < effects.len()
            invariant
                i <= effects.len(),
                self.wf(),
                self@ == old(self)@.run(contents(effects@.take(i as int))),
            decreases effects.len() - i,
        {
            assert(contents(effects@.take(i + 1)).drop_last() =~= contents(effects@.take(i as int)));
            assert(contents(effects@.take(i + 1)).last() == effects@[i as int]@);
            self.apply(&effects[i]);
            i += 1;
        }
        assert(effects@.take(i as int) == effects@);
    }
}

} // verus!
