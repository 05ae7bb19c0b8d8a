//! The bag randomizer: a shuffled, refilling queue of upcoming pieces.
//!
//! The bag holds the pieces still to be handed out, next first.  Before a
//! pop, whenever fewer than four pieces remain, a freshly shuffled copy of
//! the whole catalog is appended behind the remaining ones, so earlier
//! unconsumed entries stay in order ahead of the new batch.  The history of
//! pieces (popped ones followed by upcoming ones) is therefore a
//! concatenation of shuffled catalog copies, which yields the classic
//! seven-bag law: every non-overlapping run of seven consecutive pops holds
//! each catalog piece exactly once.  At least three pieces always remain
//! visible for a preview.

use vstd::prelude::*;
use rand::seq::SliceRandom;
use crate::piece::{
    Tetramino, catalog, is_catalog_piece, lemma_catalog_distinct, lemma_catalog_piece_wf,
    template_piece,
};

verus! {

/// rand's thread-local generator, declared so a bag can own one.
#[verifier::external_type_specification]
#[verifier::external_body]
pub struct ExThreadRng(rand::rngs::ThreadRng);

/// Relies on rand::thread_rng: returns a handle to the thread-local
/// generator.  Nothing is promised of the values it will produce.
#[verifier::external_body]
fn fresh_rng() -> rand::rngs::ThreadRng {
    rand::thread_rng()
}

/// Relies on rand::seq::SliceRandom::shuffle: a Fisher-Yates pass that
/// permutes the slice in place by swaps, so the elements as a multiset (and
/// hence the length) are unchanged.  Which permutation comes out depends on
/// the generator, so nothing more is promised.
#[verifier::external_body]
fn shuffle_pieces(v: &mut Vec<Tetramino>, rng: &mut rand::rngs::ThreadRng)
    ensures
        final(v)@.to_multiset() == old(v)@.to_multiset(),
        final(v)@.len() == old(v)@.len(),
{
    v.shuffle(rng)
}

/// Whether `s` is one shuffled copy of the whole catalog.
pub open spec fn is_batch(s: Seq<Tetramino>) -> bool {
    s.to_multiset() == catalog().to_multiset()
}

/// A batch has seven members and each is a catalog piece.
pub proof fn lemma_batch_members(s: Seq<Tetramino>)
    requires
        is_batch(s),
    ensures
        s.len() == 7,
        forall|i: int| 0 <= i < s.len() ==> is_catalog_piece(#[trigger] s[i]),
{
    broadcast use vstd::seq_lib::group_to_multiset_ensures;

    assert(s.to_multiset().len() == catalog().to_multiset().len());
    assert forall|i: int| 0 <= i < s.len() implies is_catalog_piece(#[trigger] s[i]) by {
        assert(s.contains(s[i]));
        assert(catalog().to_multiset().count(s[i]) > 0);
        assert(catalog().contains(s[i]));
    }
}

/// The bag in which shuffled copies of the seven catalog pieces queue up to
/// be handed to the player.
pub struct Bag {
    /// Upcoming pieces, next first.
    list: Vec<Tetramino>,
    /// The random number generator the shuffles draw from.
    rng: rand::rngs::ThreadRng,
    /// The pieces already handed out, oldest first.
    popped: Ghost<Seq<Tetramino>>,
}

impl Bag {
    /// The pieces still to be handed out, next first.
    pub closed spec fn upcoming(self) -> Seq<Tetramino> {
        self.list@
    }

    /// The pieces already handed out, oldest first.
    pub closed spec fn popped(self) -> Seq<Tetramino> {
        self.popped@
    }

    /// Every piece the bag has drawn or will draw, oldest first.
    pub open spec fn history(self) -> Seq<Tetramino> {
        self.popped() + self.upcoming()
    }

    /// Well-formedness: the history is a concatenation of batches, at least
    /// three pieces remain for the preview, and every upcoming piece comes
    /// from the catalog.
    pub open spec fn wf(self) -> bool {
        &&& self.history().len() % 7 == 0
        &&& forall|k: int|
            0 <= k && 7 * k + 7 <= self.history().len() ==> is_batch(
                #[trigger] self.history().subrange(7 * k, 7 * k + 7),
            )
        &&& self.upcoming().len() >= 3
        &&& forall|i: int|
            0 <= i < self.upcoming().len() ==> is_catalog_piece(#[trigger] self.upcoming()[i])
    }

    /// A new bag: an implicit first refill puts one shuffled batch in the
    /// queue before any pop.
    pub fn new() -> (b: Bag)
        ensures
            b.wf(),
            b.popped() == Seq::<Tetramino>::empty(),
            b.upcoming().len() == 7,
    {
        let mut bag = Bag { list: Vec::new(), rng: fresh_rng(), popped: Ghost(Seq::empty()) };
        proof {
            assert(bag.history() =~= Seq::<Tetramino>::empty());
        }
        bag.populate();
        bag
    }

    /// Appends one freshly shuffled copy of the whole catalog behind the
    /// remaining pieces, which stay in order ahead of the new batch.
    pub fn populate(&mut self)
        requires
            old(self).history().len() % 7 == 0,
            forall|k: int|
                0 <= k && 7 * k + 7 <= old(self).history().len() ==> is_batch(
                    #[trigger] old(self).history().subrange(7 * k, 7 * k + 7),
                ),
            forall|i: int|
                0 <= i < old(self).upcoming().len() ==> is_catalog_piece(
                    #[trigger] old(self).upcoming()[i],
                ),
        ensures
            final(self).wf(),
            final(self).popped() == old(self).popped(),
            final(self).upcoming().len() == old(self).upcoming().len() + 7,
            final(self).upcoming().take(old(self).upcoming().len() as int) == old(
                self,
            ).upcoming(),
    {
        let ghost old_history = self.history();
        let mut batch: Vec<Tetramino> = Vec::new();
        let mut t: usize = 0;
        while t < 7
            invariant
                t <= 7,
                batch@ =~= catalog().take(t as int),
            decreases 7 - t,
        {
            batch.push(template_piece(t));
            proof {
                assert(batch@ =~= catalog().take(t as int + 1));
            }
            t = t + 1;
        }
        proof {
            assert(catalog().take(7) =~= catalog());
        }
        shuffle_pieces(&mut batch, &mut self.rng);
        proof {
            lemma_batch_members(batch@);
        }
        let ghost new_batch = batch@;
        self.list.append(&mut batch);
        proof {
            assert(self.history() =~= old_history + new_batch);
            assert forall|k: int|
                0 <= k && 7 * k + 7 <= self.history().len() implies is_batch(
                #[trigger] self.history().subrange(7 * k, 7 * k + 7),
            ) by {
                if 7 * k + 7 <= old_history.len() {
                    assert(self.history().subrange(7 * k, 7 * k + 7) =~= old_history.subrange(
                        7 * k,
                        7 * k + 7,
                    ));
                } else {
                    assert(self.history().subrange(7 * k, 7 * k + 7) =~= new_batch);
                }
            }
            assert(final(self).upcoming().take(old(self).upcoming().len() as int) =~= old(
                self,
            ).upcoming());
        }
    }

    /// Hands out the next piece; always succeeds.  The piece is the head of
    /// the queue, after a refill when fewer than four pieces remained.
    pub fn pop(&mut self) -> (p: Tetramino)
        requires
            old(self).wf(),
        ensures
            final(self).wf(),
            is_catalog_piece(p),
            p.wf(),
            p == old(self).upcoming()[0],
            final(self).popped() == old(self).popped().push(p),
            final(self).upcoming().len() >= 3,
            old(self).upcoming().len() >= 4 ==> {
                &&& final(self).upcoming() == old(self).upcoming().skip(1)
                &&& final(self).history() == old(self).history()
            },
            old(self).upcoming().len() < 4 ==> exists|b: Seq<Tetramino>|
                #[trigger] is_batch(b) && final(self).upcoming() == old(self).upcoming().skip(1)
                    + b,
    {
        let ghost pre = *self;
        if self.list.len() < 4 {
            self.populate();
        }
        let ghost before = *self;
        let p = self.list.remove(0);
        self.popped = Ghost(self.popped@.push(p));
        proof {
            lemma_catalog_piece_wf(p);
            assert(self.history() =~= before.history());
            assert(p == pre.upcoming()[0]);
            if pre.upcoming().len() < 4 {
                let b = before.upcoming().skip(pre.upcoming().len() as int);
                assert(before.upcoming() =~= pre.upcoming() + b);
                assert(b =~= before.history().subrange(
                    before.history().len() - 7,
                    before.history().len() as int,
                ));
                assert(is_batch(b)) by {
                    let k = (before.history().len() - 7) / 7;
                    assert(before.history().subrange(7 * k, 7 * k + 7) == b);
                }
                assert(self.upcoming() =~= pre.upcoming().skip(1) + b);
            } else {
                assert(self.upcoming() =~= pre.upcoming().skip(1));
            }
        }
        p
    }

    /// The next three pieces the bag will hand out, without consuming them.
    pub fn next_tetraminos(&self) -> (r: Vec<Tetramino>)
        requires
            self.wf(),
        ensures
            r@ == self.upcoming().take(3),
    {
        let mut r: Vec<Tetramino> = Vec::new();
        r.push(self.list[0]);
        r.push(self.list[1]);
        r.push(self.list[2]);
        proof {
            assert(r@ =~= self.upcoming().take(3));
        }
        r
    }
}

/// Seven-bag law: every non-overlapping run of seven consecutive pops from a
/// well-formed bag holds each of the seven catalog pieces exactly once.
pub proof fn lemma_seven_bag(bag: Bag, k: int)
    requires
        bag.wf(),
        0 <= k,
        7 * k + 7 <= bag.popped().len(),
    ensures
        is_batch(bag.popped().subrange(7 * k, 7 * k + 7)),
        forall|t: int|
            0 <= t < 7 ==> bag.popped().subrange(7 * k, 7 * k + 7).to_multiset().count(
                #[trigger] catalog()[t],
            ) == 1,
{
    broadcast use vstd::seq_lib::group_to_multiset_ensures;

    let run = bag.popped().subrange(7 * k, 7 * k + 7);
    assert(run =~= bag.history().subrange(7 * k, 7 * k + 7));
    assert(is_batch(run));
    lemma_catalog_distinct();
    assert(catalog().no_duplicates());
    catalog().lemma_multiset_has_no_duplicates();
    assert forall|t: int| 0 <= t < 7 implies run.to_multiset().count(#[trigger] catalog()[t])
        == 1 by {
        assert(catalog().contains(catalog()[t]));
        assert(catalog().to_multiset().count(catalog()[t]) == 1);
    }
}

} // verus!
