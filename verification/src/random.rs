use vstd::prelude::*;
use rand::Rng;

verus! {

/// rand's thread-local generator, carried through opaquely.
#[verifier::external_type_specification]
#[verifier::external_body]
pub struct ExThreadRng(rand::rngs::ThreadRng);

/// `rand::thread_rng`: the generator of the current thread, seeded from the
/// operating system. Nothing is stated of it; rand panics if the system
/// cannot provide a seed, which nothing here rules out.
#[verifier::external_body]
pub(crate) fn thread_rng() -> rand::rngs::ThreadRng {
    rand::thread_rng()
}

/// `Rng::gen_range(0..bound)` on the thread-local generator: a number in
/// `0..bound`, chosen by chance. rand panics on an empty range, hence
/// `bound > 0`.
#[verifier::external_body]
pub(crate) fn gen_below(rng: &mut rand::rngs::ThreadRng, bound: u32) -> (r: u32)
    requires
        bound > 0,
    ensures
        r < bound,
{
    rng.gen_range(0..bound)
}

} // verus!
