//! Round-robin selection of Groq Whisper models.

use vstd::prelude::*;

verus! {

/// Number of available Groq Whisper models.
pub const MODEL_COUNT: usize = 3;

/// Available Groq Whisper models, in the order in which they are handed out.
pub const MODELS: [&'static str; MODEL_COUNT] = [
    "whisper-large-v3",
    "whisper-large-v3-turbo",
    "distil-whisper-large-v3-en",
];

/// The name of the model at `position` in [`MODELS`].
pub open spec fn model_name(position: nat) -> Seq<char> {
    MODELS@[position as int]@
}

/// Position of the selector after `calls` calls of `get_next_model`,
/// starting from `start`: each call moves one step forward and wraps
/// around after the last model.
pub open spec fn position_after(start: nat, calls: nat) -> nat
    decreases calls,
{
    if calls == 0 {
        start
    } else {
        ((position_after(start, (calls - 1) as nat) + 1) % (MODEL_COUNT as nat)) as nat
    }
}

/// Hands out the models of [`MODELS`] in round-robin order.
pub struct ModelSelector {
    next: usize,
}

impl View for ModelSelector {
    type V = nat;

    /// The position in [`MODELS`] of the model the next call returns.
    closed spec fn view(&self) -> nat {
        self.next as nat
    }
}

impl ModelSelector {
    /// The selector's position is always that of a model in [`MODELS`].
    #[verifier::type_invariant]
    pub open spec fn inv(self) -> bool {
        self@ < MODEL_COUNT
    }

    /// Creates a selector whose first model is the first of [`MODELS`].
    pub fn new() -> (selector: Self)
        ensures
            selector@ == 0,
    {
        ModelSelector { next: 0 }
    }

    /// Returns the next model in the round-robin sequence and moves on.
    pub fn get_next_model(&mut self) -> (model: String)
        ensures
            old(self)@ < MODEL_COUNT,
            final(self)@ < MODEL_COUNT,
            model@ == model_name(old(self)@),
            model@ == MODELS@[old(self)@ as int]@,
            final(self)@ == (old(self)@ + 1) % (MODEL_COUNT as nat),
    {
        proof {
            use_type_invariant(&*self);
        }
        let current = self.next;
        let model = MODELS[current].to_owned();
        self.next = if current + 1 == MODEL_COUNT { 0 } else { current + 1 };
        model
    }
}

impl Default for ModelSelector {
    fn default() -> (selector: Self)
        ensures
            selector@ == 0,
    {
        Self::new()
    }
}

/// Round robin: `calls` calls starting at position `start` end at
/// position `(start + calls) mod MODEL_COUNT`, so the `k`-th call of a
/// fresh selector (counting from zero) returns `MODELS[k mod MODEL_COUNT]`.
pub proof fn lemma_round_robin(start: nat, calls: nat)
    requires
        start < MODEL_COUNT,
    ensures
        position_after(start, calls) == (start + calls) % (MODEL_COUNT as nat),
    decreases calls,
{
    if calls > 0 {
        lemma_round_robin(start, (calls - 1) as nat);
        vstd::arithmetic::div_mod::lemma_add_mod_noop(start + calls - 1, 1, MODEL_COUNT as int);
        assert(position_after(start, calls) == ((position_after(start, (calls - 1) as nat) + 1) % (
        MODEL_COUNT as nat)) as nat);
    }
}

/// The sequence of models repeats: after a full cycle of
/// `MODEL_COUNT` calls the selector hands out the same models again.
pub proof fn lemma_cycle_repeats(start: nat, calls: nat)
    requires
        start < MODEL_COUNT,
    ensures
        position_after(start, calls + MODEL_COUNT as nat) == position_after(start, calls),
        model_name(position_after(start, calls + MODEL_COUNT as nat)) == model_name(
            position_after(start, calls),
        ),
{
    lemma_round_robin(start, calls);
    lemma_round_robin(start, calls + MODEL_COUNT as nat);
}

} // verus!
