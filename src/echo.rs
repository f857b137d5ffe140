//! The scalar function: each input text becomes the prefix, a space, and the
//! input repeated `multiplier` times with the separator between copies.
use vstd::prelude::*;
use vstd::string::*;

verus! {

/// `s` written `n` times, with `sep` between consecutive copies.
pub open spec fn repeat_joined(s: Seq<char>, n: nat, sep: Seq<char>) -> Seq<char>
    decreases n,
{
    if n == 0 {
        Seq::empty()
    } else if n == 1 {
        s
    } else {
        repeat_joined(s, (n - 1) as nat, sep) + sep + s
    }
}

/// Configuration of the scalar function, fixed at registration.
pub struct EchoState {
    pub multiplier: usize,
    pub separator: String,
    pub prefix: String,
}

impl EchoState {
    /// The output for one input value.
    pub open spec fn echo_of(&self, s: Seq<char>) -> Seq<char> {
        self.prefix@ + seq![' '] + repeat_joined(s, self.multiplier as nat, self.separator@)
    }

    /// Transforms one input value.
    pub fn echo(&self, s: &str) -> (r: String)
        ensures
            r@ == self.echo_of(s@),
    {
        let mut r = self.prefix.clone();
        r.append(" ");
        proof {
            reveal_strlit(" ");
        }
        let mut k: usize = 0;
        while k < self.multiplier
            invariant
                k <= self.multiplier,
                r@ == self.prefix@ + seq![' '] + repeat_joined(s@, k as nat, self.separator@),
            decreases self.multiplier - k,
        {
            if k > 0 {
                r.append(self.separator.as_str());
            }
            r.append(s);
            k = k + 1;
            assert(r@ =~= self.prefix@ + seq![' '] + repeat_joined(s@, k as nat, self.separator@));
        }
        r
    }

    /// Transforms a batch of input values, one output per input, in order.
    pub fn echo_all(&self, inputs: &Vec<String>) -> (r: Vec<String>)
        ensures
            r.len() == inputs.len(),
            forall|i: int| 0 <= i < r.len() ==> #[trigger] r[i]@ == self.echo_of(inputs[i]@),
    {
        let mut r: Vec<String> = Vec::new();
        let mut i: usize = 0;
        while i < inputs.len()
            invariant
                i <= inputs.len(),
                r.len() == i,
                forall|j: int| 0 <= j < i ==> #[trigger] r[j]@ == self.echo_of(inputs[j]@),
            decreases inputs.len() - i,
        {
            let out = self.echo(inputs[i].as_str());
            r.push(out);
            i = i + 1;
        }
        r
    }
}

/// With a multiplier of zero every input gives the prefix followed by a
/// space: the joined repetition is empty.
pub proof fn lemma_zero_multiplier(state: EchoState, s: Seq<char>)
    requires
        state.multiplier == 0,
    ensures
        state.echo_of(s) == state.prefix@ + seq![' '],
{
    assert(state.echo_of(s) =~= state.prefix@ + seq![' ']);
}

impl Default for EchoState {
    /// Three copies, separated by a loudspeaker, after a chick.
    fn default() -> (r: Self)
        ensures
            r.multiplier == 3,
            r.separator@ == seq!['📢'],
            r.prefix@ == seq!['🐤'],
    {
        proof {
            reveal_strlit("📢");
            reveal_strlit("🐤");
        }
        EchoState {
            multiplier: 3,
            separator: String::from_str("📢"),
            prefix: String::from_str("🐤"),
        }
    }
}

} // verus!
