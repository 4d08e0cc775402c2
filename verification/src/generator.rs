//! The generator: it holds the catalog and takes samples from it.

use vstd::prelude::*;
use crate::catalog::{
    catalog, ACTIVITIES, ANIMALS, CATALOG_LEN, FACES, FOOD, NATURE, OBJECTS, PLACES, TECHNOLOGY,
    TRANSPORTATION, WEATHER,
};
use crate::distinct::lemma_catalog_distinct;
use crate::shuffle::{
    arrange, arrangement, draws_fit, draw_swaps, fits, lemma_shuffled_is_permutation,
};

verus! {

/// The length of a sample of `count` symbols out of `available`: the smaller
/// of the two.
pub open spec fn sample_len(count: nat, available: nat) -> nat {
    if count <= available {
        count
    } else {
        available
    }
}

/// The symbols found at the first positions of `order`, as many as a sample
/// of `count` symbols has.
pub open spec fn chosen(symbols: Seq<Seq<char>>, order: Seq<usize>, count: nat) -> Seq<Seq<char>> {
    Seq::new(sample_len(count, symbols.len()), |k: int| symbols[order[k] as int])
}

/// The sample of `count` symbols that the pass driven by `draws` takes from
/// `symbols`.
pub open spec fn selection(symbols: Seq<Seq<char>>, draws: Seq<usize>, count: nat) -> Seq<
    Seq<char>,
> {
    chosen(symbols, arrangement(symbols.len(), draws), count)
}

/// A sample taken by a pass has the length asked for, or that of `symbols`
/// where fewer are available; it repeats no symbol; each of its symbols is one
/// of `symbols`; and where at least as many are asked for as are available,
/// every one of `symbols` is in it.
pub proof fn lemma_selection_is_sample(symbols: Seq<Seq<char>>, draws: Seq<usize>, count: nat)
    requires
        symbols.len() <= usize::MAX,
        symbols.no_duplicates(),
        fits(symbols.len(), draws),
    ensures
        selection(symbols, draws, count).len() == sample_len(count, symbols.len()),
        selection(symbols, draws, count).no_duplicates(),
        forall|k: int|
            0 <= k < selection(symbols, draws, count).len() ==> symbols.contains(
                #[trigger] selection(symbols, draws, count)[k],
            ),
        count >= symbols.len() ==> forall|i: int|
            0 <= i < symbols.len() ==> selection(symbols, draws, count).contains(
                #[trigger] symbols[i],
            ),
{
    let order = arrangement(symbols.len(), draws);
    let sample = selection(symbols, draws, count);
    lemma_shuffled_is_permutation(symbols.len(), draws, draws.len());
    assert forall|k: int| 0 <= k < sample.len() implies symbols.contains(#[trigger] sample[k]) by {
        assert(order[k] < symbols.len());
        assert(symbols[order[k] as int] == sample[k]);
    }
    assert forall|a: int, b: int| 0 <= a < sample.len() && 0 <= b < sample.len() && a != b implies sample[a]
        != sample[b] by {
        assert(order[a] < symbols.len() && order[b] < symbols.len());
        assert(order[a] != order[b]);
    }
    if count >= symbols.len() {
        assert forall|i: int| 0 <= i < symbols.len() implies sample.contains(#[trigger] symbols[i]) by {
            assert(order.contains(i as usize));
            let p = choose|p: int| 0 <= p < order.len() && order[p] == i as usize;
            assert(sample[p] == symbols[i]);
        }
    }
}

/// Appends the symbols of `group` to `symbols`.
fn extend(symbols: &mut Vec<&'static str>, group: &[&'static str])
    ensures
        final(symbols)@ == old(symbols)@ + group@,
{
    let mut i: usize = 0;
    while i < group.len()
        invariant
            i <= group.len(),
            symbols@ == old(symbols)@ + group@.take(i as int),
        decreases group.len() - i,
    {
        symbols.push(group[i]);
        assert(symbols@ =~= old(symbols)@ + group@.take(i + 1));
        i = i + 1;
    }
    assert(group@.take(group.len() as int) =~= group@);
}

/// Draws random sets of distinct emoji from the catalog.
pub struct EmojiGenerator {
    emojis: Vec<&'static str>,
}

impl View for EmojiGenerator {
    type V = Seq<Seq<char>>;

    /// The symbols that the generator holds, in order.
    closed spec fn view(&self) -> Seq<Seq<char>> {
        self.emojis.deep_view()
    }
}

impl EmojiGenerator {
    /// Every generator holds exactly the catalog.
    #[verifier::type_invariant]
    pub open spec fn wf(&self) -> bool {
        self@ == catalog()
    }

    /// Creates a generator over the catalog.
    pub fn new() -> (generator: Self)
        ensures
            generator@ == catalog(),
    {
        let mut emojis: Vec<&'static str> = Vec::new();
        extend(&mut emojis, &FACES);
        extend(&mut emojis, &ANIMALS);
        extend(&mut emojis, &FOOD);
        extend(&mut emojis, &ACTIVITIES);
        extend(&mut emojis, &OBJECTS);
        extend(&mut emojis, &WEATHER);
        extend(&mut emojis, &NATURE);
        extend(&mut emojis, &PLACES);
        extend(&mut emojis, &TRANSPORTATION);
        extend(&mut emojis, &TECHNOLOGY);
        assert(emojis.deep_view() =~= catalog());
        Self { emojis }
    }

    /// Copies out the symbols found at the first positions of `order`.
    fn pick(&self, order: &Vec<usize>, count: usize) -> (out: Vec<String>)
        requires
            order@.len() == self@.len(),
            forall|p: int| 0 <= p < order@.len() ==> #[trigger] order@[p] < self@.len(),
        ensures
            out.deep_view() == chosen(self@, order@, count as nat),
    {
        broadcast use vstd::string::group_string_axioms;

        let available: usize = self.emojis.len();
        let wanted: usize = if count < available {
            count
        } else {
            available
        };
        let mut out: Vec<String> = Vec::new();
        let mut k: usize = 0;
        while k < wanted
            invariant
                k <= wanted <= available,
                available == self.emojis@.len(),
                order@.len() == available,
                forall|p: int| 0 <= p < order@.len() ==> #[trigger] order@[p] < available,
                out@.len() == k,
                forall|m: int| 0 <= m < k ==> (#[trigger] out@[m])@ == self.emojis@[order@[m] as int]@,
            decreases wanted - k,
        {
            let symbol: &'static str = self.emojis[order[k]];
            out.push(symbol.to_string());
            k = k + 1;
        }
        assert(out.deep_view() =~= chosen(self@, order@, count as nat));
        out
    }

    /// The number of symbols to choose from.
    pub fn len(&self) -> (n: usize)
        ensures
            n == self@.len(),
            n == CATALOG_LEN,
    {
        proof {
            use_type_invariant(self);
            assert(catalog().len() == CATALOG_LEN);
        }
        self.emojis.len()
    }

    /// The symbol at `index` in catalog order, if there is one.
    pub fn symbol(&self, index: usize) -> (found: Option<&'static str>)
        ensures
            match found {
                Some(text) => index < self@.len() && text@ == self@[index as int],
                None => index >= self@.len(),
            },
    {
        if index < self.emojis.len() {
            Some(self.emojis[index])
        } else {
            None
        }
    }

    /// Takes the sample of `count` symbols that the pass driven by `draws`
    /// yields: the catalog's positions are shuffled by that pass, and the
    /// symbols at the first positions of the outcome are returned, in that
    /// order. The sample holds the whole catalog where `count` is not below
    /// its size. Without draws that fit the catalog there is no sample.
    pub fn generate_with(&self, count: usize, draws: &[usize]) -> (out: Option<Vec<String>>)
        ensures
            out is Some <==> fits(self@.len(), draws@),
            out matches Some(sample) ==> sample.deep_view() == selection(
                self@,
                draws@,
                count as nat,
            ),
    {
        if !draws_fit(self.emojis.len(), draws) {
            return None;
        }
        let order = arrange(self.emojis.len(), draws);
        Some(self.pick(&order, count))
    }

    /// Takes a random sample of `count` symbols, or of the whole catalog
    /// where `count` exceeds its size. The sample is the one that
    /// `generate_with` yields for draws taken from the generator of the
    /// current thread; whatever those are, it repeats no symbol and holds
    /// symbols of the catalog only.
    pub fn generate(&self, count: usize) -> (out: Vec<String>)
        ensures
            out@.len() == sample_len(count as nat, self@.len()),
            count == 0 ==> out@.len() == 0,
            out.deep_view().no_duplicates(),
            forall|k: int| 0 <= k < out@.len() ==> self@.contains(#[trigger] out.deep_view()[k]),
            count >= self@.len() ==> forall|i: int|
                0 <= i < self@.len() ==> out.deep_view().contains(#[trigger] self@[i]),
            exists|draws: Seq<usize>| #[trigger]
                fits(self@.len(), draws) && out.deep_view() == selection(
                    self@,
                    draws,
                    count as nat,
                ),
    {
        let mut rng = rand::rng();
        let draws = draw_swaps(&mut rng, self.emojis.len());
        let order = arrange(self.emojis.len(), draws.as_slice());
        let out = self.pick(&order, count);
        proof {
            use_type_invariant(self);
            lemma_catalog_distinct();
            lemma_selection_is_sample(self@, draws@, count as nat);
            assert(fits(self@.len(), draws@));
        }
        out
    }
}

impl Default for EmojiGenerator {
    /// The generator over the catalog, as `new` makes it.
    fn default() -> (generator: Self)
        ensures
            generator@ == catalog(),
    {
        Self::new()
    }
}

} // verus!
