use vstd::prelude::*;
use rand::rngs::StdRng;
use rand::seq::SliceRandom;
use rand::SeedableRng;
use crate::tetromino::TetrominoShape;

verus! {

broadcast use vstd::seq_lib::group_to_multiset_ensures, vstd::multiset::group_multiset_axioms;

/// One of each of the seven kinds.
pub open spec fn all_kinds() -> Seq<TetrominoShape> {
    seq![
        TetrominoShape::I,
        TetrominoShape::O,
        TetrominoShape::T,
        TetrominoShape::L,
        TetrominoShape::J,
        TetrominoShape::S,
        TetrominoShape::Z,
    ]
}

/// One draw from the bag `pre`, giving `r` and leaving `post`. An empty bag
/// is first refilled with one of each kind in some order; then the last
/// element is taken.
pub open spec fn draw_step(pre: Seq<TetrominoShape>, r: TetrominoShape, post: Seq<TetrominoShape>) -> bool {
    if pre.len() == 0 {
        post.push(r).to_multiset() == all_kinds().to_multiset()
    } else {
        r == pre.last() && post == pre.drop_last()
    }
}

/// rand's seedable standard generator, carried through opaquely.
#[verifier::external_type_specification]
#[verifier::external_body]
pub struct ExStdRng(StdRng);

/// Relies on rand's `SeedableRng::from_entropy` for `StdRng`: a generator
/// seeded by the operating system (it panics only when that source fails).
#[verifier::external_body]
fn entropy_rng() -> (r: StdRng) {
    StdRng::from_entropy()
}

/// Relies on rand's `SeedableRng::seed_from_u64` for `StdRng`: a generator
/// whose output is fixed by `seed`.
#[verifier::external_body]
fn seeded_rng(seed: u64) -> (r: StdRng) {
    StdRng::seed_from_u64(seed)
}

/// Relies on rand's `SliceRandom::shuffle` (a Fisher-Yates shuffle): it
/// only swaps elements, so the result is a permutation of the input.
#[verifier::external_body]
fn shuffle_shapes(v: &mut Vec<TetrominoShape>, rng: &mut StdRng)
    ensures
        final(v)@.len() == old(v)@.len(),
        final(v)@.to_multiset() == old(v)@.to_multiset(),
{
    v.shuffle(rng);
}

/// Deals the seven kinds in shuffled rounds: each round holds every kind
/// exactly once.
pub struct BagRandomizer {
    bag: Vec<TetrominoShape>,
    rng: StdRng,
}

impl View for BagRandomizer {
    type V = Seq<TetrominoShape>;

    /// The kinds still in the current round; the last one is dealt next.
    closed spec fn view(&self) -> Seq<TetrominoShape> {
        self.bag@
    }
}

impl BagRandomizer {
    /// The bag holds at most one of each kind.
    pub open spec fn wf(&self) -> bool {
        self@.to_multiset().subset_of(all_kinds().to_multiset())
    }

    /// A randomizer with a full first round, shuffled by a generator seeded
    /// from the operating system.
    pub fn new() -> (r: Self)
        ensures
            r@.to_multiset() == all_kinds().to_multiset(),
            r@.len() == 7,
            r.wf(),
    {
        let mut bag = BagRandomizer { bag: Vec::new(), rng: entropy_rng() };
        bag.refill();
        bag
    }

    /// A randomizer with a full first round whose deal order is fixed by
    /// `seed`.
    pub fn with_seed(seed: u64) -> (r: Self)
        ensures
            r@.to_multiset() == all_kinds().to_multiset(),
            r@.len() == 7,
            r.wf(),
    {
        let mut bag = BagRandomizer { bag: Vec::new(), rng: seeded_rng(seed) };
        bag.refill();
        bag
    }

    fn refill(&mut self)
        ensures
            final(self)@.to_multiset() == all_kinds().to_multiset(),
            final(self)@.len() == 7,
    {
        let mut pieces = vec![
            TetrominoShape::I,
            TetrominoShape::O,
            TetrominoShape::T,
            TetrominoShape::L,
            TetrominoShape::J,
            TetrominoShape::S,
            TetrominoShape::Z,
        ];
        assert(pieces@ =~= all_kinds());
        shuffle_shapes(&mut pieces, &mut self.rng);
        self.bag = pieces;
    }

    /// Deals the next kind, starting a new shuffled round when the current
    /// one is used up.
    pub fn next(&mut self) -> (r: TetrominoShape)
        requires
            old(self).wf(),
        ensures
            draw_step(old(self)@, r, final(self)@),
            final(self).wf(),
    {
        if self.bag.len() == 0 {
            self.refill();
        }
        let ghost filled = self.bag@;
        let r = self.bag.pop().unwrap();
        proof {
            assert(filled =~= self.bag@.push(r));
            let s = self.bag@.to_multiset();
            assert(filled.to_multiset() =~= s.insert(r));
        }
        r
    }
}

/// Over the draws that make up one round, from a bag that is empty or
/// freshly filled, each kind comes out exactly once.
proof fn lemma_round_accounting(bags: Seq<Seq<TetrominoShape>>, draws: Seq<TetrominoShape>, k: int)
    requires
        bags.len() == 8,
        draws.len() == 7,
        bags[0].len() == 0 || (bags[0].len() == 7 && bags[0].to_multiset()
            == all_kinds().to_multiset()),
        forall|i: int| 0 <= i < 7 ==> #[trigger] draw_step(bags[i], draws[i], bags[i + 1]),
        1 <= k <= 7,
    ensures
        bags[k].len() == 7 - k,
        bags[k].to_multiset().add(draws.take(k).to_multiset()) == all_kinds().to_multiset(),
    decreases k,
{
    let i = k - 1;
    assert(draw_step(bags[i], draws[i], bags[i + 1]));
    assert(bags[i + 1] == bags[k]);
    assert(all_kinds().to_multiset().len() == 7);
    assert(draws.take(k) =~= draws.take(k - 1).push(draws[k - 1]));
    if k == 1 {
        assert(draws.take(0) =~= Seq::<TetrominoShape>::empty());
        if bags[0].len() != 0 {
            assert(bags[0] =~= bags[1].push(draws[0]));
        }
        assert(bags[1].to_multiset().add(draws.take(1).to_multiset()) =~= bags[1].push(
            draws[0],
        ).to_multiset());
    } else {
        lemma_round_accounting(bags, draws, k - 1);
        assert(bags[k - 1] =~= bags[k].push(draws[k - 1]));
        assert(bags[k].to_multiset().add(draws.take(k).to_multiset()) =~= bags[k
            - 1].to_multiset().add(draws.take(k - 1).to_multiset()));
    }
}

/// Seven consecutive draws that start at a fresh round, whether the bag is
/// empty or has just been filled, give one of each kind.
pub proof fn lemma_fresh_round_deals_each_kind(bags: Seq<Seq<TetrominoShape>>, draws: Seq<TetrominoShape>)
    requires
        bags.len() == 8,
        draws.len() == 7,
        bags[0].len() == 0 || (bags[0].len() == 7 && bags[0].to_multiset()
            == all_kinds().to_multiset()),
        forall|i: int| 0 <= i < 7 ==> #[trigger] draw_step(bags[i], draws[i], bags[i + 1]),
    ensures
        draws.to_multiset() == all_kinds().to_multiset(),
{
    lemma_round_accounting(bags, draws, 7);
    assert(draws.take(7) =~= draws);
    assert(bags[7].to_multiset() =~= vstd::multiset::Multiset::empty());
    assert(draws.to_multiset() =~= bags[7].to_multiset().add(draws.to_multiset()));
}

} // verus!
