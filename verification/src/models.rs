//! The symbols, the answers given to them and the order in which they are
//! asked.

pub mod answer;
pub mod kana;

use kana::Kana;
use rand::rngs::StdRng;
use rand::seq::SliceRandom;
use rand::SeedableRng;
use vstd::prelude::*;
use vstd::seq_lib::group_to_multiset_ensures;

verus! {

/// The standard generator of `rand`. Nothing is known of its state: a
/// generator is made, handed to the shuffle, and dropped.
#[verifier::external_type_specification]
#[verifier::external_body]
pub struct ExStdRng(StdRng);

/// Makes a generator with `StdRng::from_os_rng`, which seeds it from the
/// operating system. Nothing is claimed of the generator. The call gives up
/// only where the system has no entropy to hand out.
#[verifier::external_body]
fn system_rng() -> StdRng {
    StdRng::from_os_rng()
}

/// Shuffles with `SliceRandom::shuffle`, which walks the slice once and
/// swaps each place with a randomly chosen one: the symbols stay the same,
/// each as often as before, and only their order changes.
#[verifier::external_body]
fn shuffle(symbols: &mut Vec<Kana>, rng: &mut StdRng)
    ensures
        is_arrangement(final(symbols)@, old(symbols)@),
{
    symbols.shuffle(rng);
}

/// `plan` holds the symbols of `subset`, each as often as `subset` does, in
/// some order.
pub open spec fn is_arrangement(plan: Seq<Kana>, subset: Seq<Kana>) -> bool {
    plan.to_multiset() == subset.to_multiset()
}

/// Puts the given symbols in a random order. Nothing is dropped and nothing
/// is added.
pub fn generate_plan(subset: Vec<Kana>, rng: &mut StdRng) -> (plan: Vec<Kana>)
    ensures
        is_arrangement(plan@, subset@),
{
    let mut plan = subset;
    shuffle(&mut plan, rng);
    plan
}

/// The whole catalog in a random order drawn from `rng`.
pub fn create_study_plan_with(rng: &mut StdRng) -> (plan: Vec<Kana>)
    ensures
        is_arrangement(plan@, Kana::catalog()),
{
    generate_plan(Kana::all(), rng)
}

/// The whole catalog in a random order.
pub fn create_study_plan() -> (plan: Vec<Kana>)
    ensures
        is_arrangement(plan@, Kana::catalog()),
{
    let mut rng = system_rng();
    create_study_plan_with(&mut rng)
}

/// A plan of one symbol, for trying things out.
pub fn create_small_study_plan() -> (plan: Vec<Kana>)
    ensures
        plan@ == seq![Kana::A],
{
    let mut plan: Vec<Kana> = Vec::new();
    plan.push(Kana::A);
    plan
}

/// A plan is complete: it is as long as the subset it was made from, it
/// holds exactly the symbols of the subset, and its first symbol together
/// with the rest of it holds each symbol as often as the subset does. Where
/// the subset holds no symbol twice, neither does the plan, so that each
/// symbol of the subset is either the first of the plan or in the rest of it,
/// and never both.
pub proof fn lemma_plan_complete(plan: Seq<Kana>, subset: Seq<Kana>)
    requires
        is_arrangement(plan, subset),
    ensures
        plan.len() == subset.len(),
        forall|kana: Kana| plan.contains(kana) <==> subset.contains(kana),
        plan.len() > 0 ==> (seq![plan[0]] + plan.drop_first()).to_multiset()
            == subset.to_multiset(),
        subset.no_duplicates() ==> plan.no_duplicates(),
        subset.no_duplicates() && plan.len() > 0 ==> forall|kana: Kana| #[trigger]
            subset.contains(kana) ==> (kana == plan[0]) != plan.drop_first().contains(kana),
{
    broadcast use group_to_multiset_ensures;

    assert(plan.len() == plan.to_multiset().len());
    assert(subset.len() == subset.to_multiset().len());
    assert forall|kana: Kana| plan.contains(kana) <==> subset.contains(kana) by {
        assert(plan.to_multiset().count(kana) == subset.to_multiset().count(kana));
    }
    if plan.len() > 0 {
        assert(seq![plan[0]] + plan.drop_first() =~= plan);
    }
    if subset.no_duplicates() {
        subset.lemma_multiset_has_no_duplicates();
        plan.lemma_multiset_has_no_duplicates_conv();
        if plan.len() > 0 {
            assert forall|kana: Kana| #[trigger] subset.contains(kana) implies (kana == plan[0])
                != plan.drop_first().contains(kana) by {
                assert(plan.contains(kana));
                let rest = plan.drop_first();
                if kana == plan[0] {
                    if rest.contains(kana) {
                        let place = choose|place: int| 0 <= place < rest.len() && rest[place] == kana;
                        assert(plan[place + 1] == kana);
                    }
                } else {
                    let place = choose|place: int| 0 <= place < plan.len() && plan[place] == kana;
                    assert(rest[place - 1] == kana);
                }
            }
        }
    }
}

/// A plan over the whole catalog holds every symbol there is exactly once.
pub proof fn lemma_full_plan_complete(plan: Seq<Kana>)
    requires
        is_arrangement(plan, Kana::catalog()),
    ensures
        plan.len() == kana::KANA_COUNT,
        plan.no_duplicates(),
        forall|kana: Kana| #[trigger] plan.contains(kana),
{
    kana::lemma_catalog_complete();
    lemma_plan_complete(plan, Kana::catalog());
    assert forall|kana: Kana| #[trigger] plan.contains(kana) by {
        assert(Kana::catalog().contains(kana));
    }
}

} // verus!
