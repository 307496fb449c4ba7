//! The decoder for the byte stream of a pseudo-terminal: the `vte` state
//! machine, with a recorder that turns what it dispatches into effects.

use vstd::prelude::*;
use vstd::slice::slice_to_vec;
use crate::effect::{contents, Effect, EffectView};
use crate::grid::Terminal;

verus! {

/// `vte::Parser`: the state of the escape-sequence state machine between
/// bytes.
#[verifier::external_type_specification]
#[verifier::external_body]
pub struct ExParser<const OSC_RAW_BUF_SIZE: usize>(vte::Parser<OSC_RAW_BUF_SIZE>);

/// `vte::Params`: the parameters of a control sequence as the state machine
/// collected them.
#[verifier::external_type_specification]
#[verifier::external_body]
pub struct ExParams(vte::Params);

/// The numeric parameters that `params` holds, in order, each by its first
/// value.
pub uninterp spec fn param_values(params: vte::Params) -> Seq<u16>;

/// `vte::Params::iter` walks the parameters in order and yields each one as
/// the slice of its values, which is never empty; this collects the first
/// value of each.
#[verifier::external_body]
fn first_values(params: &vte::Params) -> (values: Vec<u16>)
    ensures
        values@ == param_values(*params),
{
    params.iter().map(|values| values[0]).collect()
}

/// How many values `params` holds, subparameters counted.
pub uninterp spec fn param_count(params: vte::Params) -> int;

/// `vte::Params::len` gives the number of values held, each parameter and
/// each subparameter counted once.
#[verifier::external_body]
fn value_count(params: &vte::Params) -> (count: usize)
    ensures
        count == param_count(*params),
{
    params.len()
}

/// `vte::Parser::new` makes a state machine in its ground state.
#[verifier::external_body]
fn new_parser() -> vte::Parser {
    vte::Parser::new()
}

/// What `vte::Parser::advance` leads to when it feeds `byte` to the state
/// machine `parser`: the state machine afterwards, and the effects that
/// the byte completes, by their contents and in order. Both depend on the
/// state machine and the byte alone.
pub uninterp spec fn advanced(parser: vte::Parser, byte: u8) -> (vte::Parser, Seq<EffectView>);

/// The state machine after `byte`.
pub open spec fn stepped(parser: vte::Parser, byte: u8) -> vte::Parser {
    advanced(parser, byte).0
}

/// The effects that `byte` completes.
pub open spec fn decoded(parser: vte::Parser, byte: u8) -> Seq<EffectView> {
    advanced(parser, byte).1
}

/// The state machine after `bytes`, fed one after the other.
pub open spec fn stepped_all(parser: vte::Parser, bytes: Seq<u8>) -> vte::Parser
    decreases bytes.len(),
{
    if bytes.len() == 0 {
        parser
    } else {
        stepped(stepped_all(parser, bytes.drop_last()), bytes.last())
    }
}

/// The effects that `bytes` complete, fed one after the other.
pub open spec fn decoded_all(parser: vte::Parser, bytes: Seq<u8>) -> Seq<EffectView>
    decreases bytes.len(),
{
    if bytes.len() == 0 {
        Seq::empty()
    } else {
        decoded_all(parser, bytes.drop_last()) + decoded(
            stepped_all(parser, bytes.drop_last()),
            bytes.last(),
        )
    }
}

/// `vte::Parser::advance` feeds one byte to the state machine, which goes
/// to its next state and calls the recorder's `Perform` methods for
/// whatever the byte completes; it touches the recorder in no other way.
/// Each call appends one effect, so the recorder afterwards holds what it
/// held, followed by the effects that the byte completes.
#[verifier::external_body]
fn advance_parser(parser: &mut vte::Parser, recorder: &mut Recorder, byte: u8)
    ensures
        *final(parser) == advanced(*old(parser), byte).0,
        contents(final(recorder).effects@) == contents(old(recorder).effects@) + advanced(
            *old(parser),
            byte,
        ).1,
{
    parser.advance(recorder, byte)
}

/// Collects what the state machine dispatches as a list of effects.
pub struct Recorder {
    pub effects: Vec<Effect>,
}

impl vte::Perform for Recorder {
    fn print(&mut self, c: char)
        ensures
            final(self).effects@ == old(self).effects@.push(Effect::Print(c)),
    {
        self.effects.push(Effect::Print(c));
    }

    fn execute(&mut self, byte: u8)
        ensures
            final(self).effects@ == old(self).effects@.push(Effect::Execute(byte)),
    {
        self.effects.push(Effect::Execute(byte));
    }

    fn osc_dispatch(&mut self, params: &[&[u8]], bell_terminated: bool)
        ensures
            final(self).effects@.len() == old(self).effects@.len() + 1,
            final(self).effects@.drop_last() == old(self).effects@,
            final(self).effects@.last() matches Effect::Osc { strings: p, bell_terminated: b }
                && b == bell_terminated && p@.len() == params@.len() && forall|i: int|
                0 <= i < p@.len() ==> (#[trigger] p@[i])@ == params@[i]@,
    {
        let mut copied: Vec<Vec<u8>> = Vec::new();
        let mut i: usize = 0;
        while i < params.len()
            invariant
                i <= params.len(),
                copied@.len() == i,
                forall|j: int| 0 <= j < i ==> (#[trigger] copied@[j])@ == params@[j]@,
            decreases params.len() - i,
        {
            copied.push(slice_to_vec(params[i]));
            i += 1;
        }
        self.effects.push(Effect::Osc { strings: copied, bell_terminated });
        assert(self.effects@.drop_last() =~= old(self).effects@);
    }

    fn csi_dispatch(&mut self, params: &vte::Params, intermediates: &[u8], ignore: bool, action: char)
        ensures
            final(self).effects@.len() == old(self).effects@.len() + 1,
            final(self).effects@.drop_last() == old(self).effects@,
            final(self).effects@.last() matches Effect::Csi {
                params: p,
                values: v,
                intermediates: i,
                ignore: g,
                action: a,
            } && p@ == param_values(*params) && v == param_count(*params) && i@ == intermediates@
                && g == ignore && a == action,
    {
        self.effects.push(
            Effect::Csi {
                params: first_values(params),
                values: value_count(params),
                intermediates: slice_to_vec(intermediates),
                ignore,
                action,
            },
        );
        assert(self.effects@.drop_last() =~= old(self).effects@);
    }
}

/// The decoder of one byte stream: the state machine and its recorder.
pub struct Decoder {
    parser: vte::Parser,
    recorder: Recorder,
}

impl Decoder {
    /// Whether the decoder holds no effect that it has recorded and not yet
    /// handed out. A decoder is in this state whenever it is not in the
    /// middle of `advance`, so that no effect is handed out twice.
    pub closed spec fn drained(&self) -> bool {
        self.recorder.effects@.len() == 0
    }

    /// The decoder's state machine.
    pub closed spec fn machine(&self) -> vte::Parser {
        self.parser
    }

    /// Whether the decoder has handed out everything it recorded, found by
    /// looking at it.
    pub fn is_drained(&self) -> (empty: bool)
        ensures
            empty == self.drained(),
    {
        self.recorder.effects.len() == 0
    }

    /// A decoder at the start of a stream, with nothing recorded.
    pub fn new() -> (decoder: Self)
        ensures
            decoder.drained(),
    {
        Decoder { parser: new_parser(), recorder: Recorder { effects: Vec::new() } }
    }

    /// Feeds one byte to the state machine and returns the effects that it
    /// completes, in order. Most bytes complete none or one.
    pub fn advance(&mut self, byte: u8) -> (effects: Vec<Effect>)
        requires
            old(self).drained(),
        ensures
            final(self).drained(),
            contents(effects@) == decoded(old(self).machine(), byte),
            final(self).machine() == stepped(old(self).machine(), byte),
    {
        assert(contents(self.recorder.effects@) =~= Seq::<EffectView>::empty());
        advance_parser(&mut self.parser, &mut self.recorder, byte);
        assert(contents(self.recorder.effects@) =~= decoded(old(self).machine(), byte));
        let mut effects: Vec<Effect> = Vec::new();
        core::mem::swap(&mut effects, &mut self.recorder.effects);
        effects
    }
}

impl Terminal {
    /// Decodes `bytes` and performs the effects they complete, in order:
    /// the terminal ends in the state that performing them one by one
    /// leads to, and the decoder's state machine where the bytes take it.
    pub fn feed(&mut self, decoder: &mut Decoder, bytes: &[u8])
        requires
            old(self).wf(),
            old(decoder).drained(),
        ensures
            final(self).wf(),
            final(decoder).drained(),
            final(self)@ == old(self)@.run(decoded_all(old(decoder).machine(), bytes@)),
            final(decoder).machine() == stepped_all(old(decoder).machine(), bytes@),
    {
        let mut i: usize = 0;
        while i < bytes.len()
            invariant
                i <= bytes.len(),
                self.wf(),
                decoder.drained(),
                self@ == old(self)@.run(decoded_all(old(decoder).machine(), bytes@.take(i as int))),
                decoder.machine() == stepped_all(old(decoder).machine(), bytes@.take(i as int)),
            decreases bytes.len() - i,
        {
            let effects = decoder.advance(bytes[i]);
            self.apply_all(&effects);
            proof {
                let before = bytes@.take(i as int);
                assert(bytes@.take(i + 1).drop_last() =~= before);
                assert(bytes@.take(i + 1).last() == bytes@[i as int]);
                crate::laws::lemma_run_concat(
                    old(self)@,
                    decoded_all(old(decoder).machine(), before),
                    contents(effects@),
                );
            }
            i += 1;
        }
        assert(bytes@.take(i as int) =~= bytes@);
    }
}

} // verus!
