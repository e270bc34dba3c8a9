//! The agreed random source.
//!
//! Every peer seeds one deterministic generator from the same string: the
//! decimal forms of the session's peer identifiers, sorted ascending and
//! joined by single spaces.  Sorting removes the dependence on connection
//! order, so the seed — and with it every draw — agrees across peers no
//! matter in which order they learned of each other.  Draws are consumed
//! only inside the tick pipeline, in an order fixed by the stage order.

use rand::Rng;
use vstd::prelude::*;
use vstd::relations::{sorted_by, total_ordering};
use vstd::seq_lib::lemma_sorted_unique;
use vstd::string::StringExecFns;

verus! {

broadcast use vstd::seq_lib::group_to_multiset_ensures, vstd::multiset::group_multiset_axioms;

#[verifier::external_type_specification]
#[verifier::external_body]
pub struct ExStdRng(rand::rngs::StdRng);

/// The generator seeded from a given string.  Its state takes pages to
/// write out, but it is a fixed, machine-independent function of the seed
/// string alone, so it can be named: equal seed strings give equal
/// generators, which agree on every draw.
pub uninterp spec fn rng_of(seed: Seq<char>) -> rand::rngs::StdRng;

/// Relies on `rand_seeder::Seeder::from` and `Seeder::make_rng`: the
/// returned generator's state is derived from the seed string's bytes by
/// a fixed-key hash and a fixed expansion, the same on every machine.
#[verifier::external_body]
fn seeded_std_rng(seed: &str) -> (r: rand::rngs::StdRng)
    ensures
        r == rng_of(seed@),
{
    rand_seeder::Seeder::from(seed).make_rng()
}

/// Relies on `rand::Rng::gen_range` over `0..bound`: it returns a value of
/// that half-open range, and panics only on an empty range, which the
/// precondition excludes.
#[verifier::external_body]
fn gen_index(rng: &mut rand::rngs::StdRng, bound: usize) -> (r: usize)
    requires
        bound >= 1,
    ensures
        r < bound,
{
    rng.gen_range(0..bound)
}

/// The ascending order on peer identifiers.
pub open spec fn id_leq() -> spec_fn(u128, u128) -> bool {
    |a: u128, b: u128| a <= b
}

/// The decimal digit characters.
pub open spec fn spec_digit_char(d: int) -> char {
    if d == 0 {
        '0'
    } else if d == 1 {
        '1'
    } else if d == 2 {
        '2'
    } else if d == 3 {
        '3'
    } else if d == 4 {
        '4'
    } else if d == 5 {
        '5'
    } else if d == 6 {
        '6'
    } else if d == 7 {
        '7'
    } else if d == 8 {
        '8'
    } else {
        '9'
    }
}

/// The decimal form of an identifier, most significant digit first.
pub open spec fn spec_dec(n: int) -> Seq<char>
    decreases n,
{
    if n < 10 {
        seq![spec_digit_char(n)]
    } else {
        spec_dec(n / 10).push(spec_digit_char(n % 10))
    }
}

/// Identifiers joined by single spaces, in the order given.
pub open spec fn spec_join_ids(s: Seq<u128>) -> Seq<char>
    decreases s.len(),
{
    if s.len() == 0 {
        Seq::empty()
    } else if s.len() == 1 {
        spec_dec(s[0] as int)
    } else {
        spec_join_ids(s.drop_last()) + seq![' '] + spec_dec(s.last() as int)
    }
}

/// The seed string of a peer set: the identifiers sorted ascending, each in
/// decimal, joined by single spaces.
pub open spec fn spec_seed_string(peers: Seq<u128>) -> Seq<char> {
    spec_join_ids(peers.sort_by(id_leq()))
}

proof fn lemma_id_leq_total()
    ensures
        total_ordering(id_leq()),
{
    let leq = id_leq();
    assert forall|a: u128, b: u128| #[trigger] leq(a, b) || #[trigger] leq(b, a) by {}
}

proof fn lemma_sorted_push(s: Seq<u128>, x: u128)
    requires
        sorted_by(s, id_leq()),
        forall|i: int| 0 <= i < s.len() ==> s[i] <= x,
    ensures
        sorted_by(s.push(x), id_leq()),
{
    let t = s.push(x);
    assert forall|i: int, j: int| 0 <= i < j < t.len() implies #[trigger] id_leq()(t[i], t[j]) by {
        if j < s.len() {
            assert(id_leq()(s[i], s[j]));
        } else {
            assert(t[j] == x);
            assert(t[i] == s[i]);
        }
    }
}

/// Sorts the peer identifiers ascending; the result is the unique sorted
/// arrangement of the input's elements.
pub fn sort_ids(input: &Vec<u128>) -> (out: Vec<u128>)
    ensures
        sorted_by(out@, id_leq()),
        out@.to_multiset() == input@.to_multiset(),
        out@ == input@.sort_by(id_leq()),
{
    let mut work: Vec<u128> = Vec::new();
    let mut i: usize = 0;
    while i < input.len()
        invariant
            i <= input@.len(),
            work@ == input@.take(i as int),
        decreases input@.len() - i,
    {
        work.push(input[i]);
        proof {
            assert(work@ =~= input@.take(i + 1));
        }
        i = i + 1;
    }
    proof {
        assert(input@.take(input@.len() as int) =~= input@);
    }

    let mut out: Vec<u128> = Vec::new();
    while work.len() > 0
        invariant
            sorted_by(out@, id_leq()),
            out@.to_multiset().add(work@.to_multiset()) =~= input@.to_multiset(),
            forall|a: int, b: int|
                0 <= a < out@.len() && 0 <= b < work@.len() ==> #[trigger] out@[a]
                    <= #[trigger] work@[b],
        decreases work@.len(),
    {
        let mut k: usize = 0;
        let mut j: usize = 1;
        while j < work.len()
            invariant
                k < j <= work@.len(),
                forall|t: int| 0 <= t < j ==> work@[k as int] <= #[trigger] work@[t],
            decreases work@.len() - j,
        {
            if work[j] < work[k] {
                k = j;
            }
            j = j + 1;
        }
        let ghost pre_work = work@;
        let ghost pre_out = out@;
        let x = work.remove(k);
        out.push(x);
        proof {
            assert(pre_work.contains(x)) by {
                assert(pre_work[k as int] == x);
            }
            assert(work@.to_multiset() =~= pre_work.to_multiset().remove(x));
            assert(out@.to_multiset() =~= pre_out.to_multiset().insert(x));
            assert(out@.to_multiset().add(work@.to_multiset()) =~= input@.to_multiset());
            lemma_sorted_push(pre_out, x);
            assert forall|a: int, b: int|
                0 <= a < out@.len() && 0 <= b < work@.len() implies #[trigger] out@[a]
                <= #[trigger] work@[b] by {
                let w = work@[b];
                if b < k {
                    assert(w == pre_work[b]);
                } else {
                    assert(w == pre_work[b + 1]);
                }
                if a < pre_out.len() {
                    assert(out@[a] == pre_out[a]);
                } else {
                    assert(out@[a] == x);
                }
            }
        }
    }
    proof {
        assert(out@.to_multiset() =~= input@.to_multiset());
        lemma_id_leq_total();
        input@.lemma_sort_by_ensures(id_leq());
        lemma_sorted_unique(out@, input@.sort_by(id_leq()), id_leq());
    }
    out
}

fn append_digit(s: &mut String, d: u128)
    requires
        d < 10,
    ensures
        final(s)@ == old(s)@ + seq![spec_digit_char(d as int)],
{
    proof {
        reveal_strlit("0");
        reveal_strlit("1");
        reveal_strlit("2");
        reveal_strlit("3");
        reveal_strlit("4");
        reveal_strlit("5");
        reveal_strlit("6");
        reveal_strlit("7");
        reveal_strlit("8");
        reveal_strlit("9");
    }
    if d == 0 {
        s.append("0");
    } else if d == 1 {
        s.append("1");
    } else if d == 2 {
        s.append("2");
    } else if d == 3 {
        s.append("3");
    } else if d == 4 {
        s.append("4");
    } else if d == 5 {
        s.append("5");
    } else if d == 6 {
        s.append("6");
    } else if d == 7 {
        s.append("7");
    } else if d == 8 {
        s.append("8");
    } else {
        s.append("9");
    }
}

fn append_u128(s: &mut String, n: u128)
    ensures
        final(s)@ == old(s)@ + spec_dec(n as int),
    decreases n,
{
    if n >= 10 {
        append_u128(s, n / 10);
        append_digit(s, n % 10);
        proof {
            assert(s@ =~= old(s)@ + spec_dec(n as int));
        }
    } else {
        append_digit(s, n);
    }
}

/// Builds the seed string of a peer set: sorted ascending, decimal, joined
/// by single spaces.  The result depends only on which identifiers are in
/// the set, not on the order they arrive in.
pub fn seed_string(peers: &Vec<u128>) -> (s: String)
    ensures
        s@ == spec_seed_string(peers@),
{
    let sorted = sort_ids(peers);
    let mut s = String::new();
    let mut i: usize = 0;
    while i < sorted.len()
        invariant
            i <= sorted@.len(),
            s@ == spec_join_ids(sorted@.take(i as int)),
        decreases sorted@.len() - i,
    {
        if i > 0 {
            proof {
                reveal_strlit(" ");
            }
            s.append(" ");
        }
        append_u128(&mut s, sorted[i]);
        proof {
            assert(sorted@.take(i + 1).drop_last() =~= sorted@.take(i as int));
            assert(sorted@.take(i + 1).last() == sorted@[i as int]);
            assert(s@ =~= spec_join_ids(sorted@.take(i + 1)));
        }
        i = i + 1;
    }
    proof {
        assert(sorted@.take(sorted@.len() as int) =~= sorted@);
    }
    s
}

/// Seed agreement: the seed string is invariant under any permutation of
/// the peer set — two peer lists with the same identifiers in any orders
/// derive the same seed, and with it the same generator.
pub proof fn lemma_seed_agreement(a: Seq<u128>, b: Seq<u128>)
    requires
        a.to_multiset() == b.to_multiset(),
    ensures
        spec_seed_string(a) == spec_seed_string(b),
        rng_of(spec_seed_string(a)) == rng_of(spec_seed_string(b)),
{
    lemma_id_leq_total();
    a.lemma_sort_by_ensures(id_leq());
    b.lemma_sort_by_ensures(id_leq());
    lemma_sorted_unique(a.sort_by(id_leq()), b.sort_by(id_leq()), id_leq());
}

/// The process-wide deterministic generator, seeded identically on every
/// peer from the sorted peer identifiers.
pub struct AgreedRandom {
    pub rng: rand::rngs::StdRng,
}

impl AgreedRandom {
    /// Seeds the generator from the session's peer identifiers.  The seed
    /// string — and so the whole draw sequence — depends only on which
    /// identifiers are present, never on their order.
    pub fn new(peers: Vec<u128>) -> (r: AgreedRandom)
        ensures
            r.rng == rng_of(spec_seed_string(peers@)),
    {
        let seed = seed_string(&peers);
        AgreedRandom { rng: seeded_std_rng(seed.as_str()) }
    }

    /// Draws one index in `[0, bound)`.
    pub fn next_index(&mut self, bound: usize) -> (r: usize)
        requires
            bound >= 1,
        ensures
            r < bound,
    {
        gen_index(&mut self.rng, bound)
    }
}

/// Builds the agreed random source for a session's peer set.
pub fn new_agreed_random(peers: Vec<u128>) -> (r: AgreedRandom)
    ensures
        r.rng == rng_of(spec_seed_string(peers@)),
{
    AgreedRandom::new(peers)
}

} // verus!
