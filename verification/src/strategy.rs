//! Trying a list of search strategies in order until one of them decides.
use vstd::prelude::*;
use vstd::std_specs::convert::IntoSpec;

verus! {

/// The finder, when called on `input`, may answer with no items at all.
pub open spec fn finds_nothing<I: ?Sized, Item, FE, F: Fn(&I) -> Result<Vec<Item>, FE>>(
    finder: F,
    input: &I,
) -> bool {
    exists|v: Vec<Item>| v@.len() == 0 && call_ensures(finder, (input,), Ok::<Vec<Item>, FE>(v))
}

/// Every strategy before index `k` found nothing.
pub open spec fn all_find_nothing_before<I: ?Sized, Item, FE, F, B, M>(
    strategies: Seq<(F, B, M)>,
    input: &I,
    k: int,
) -> bool where F: Fn(&I) -> Result<Vec<Item>, FE> {
    forall|j: int| 0 <= j < k ==> finds_nothing(#[trigger] strategies[j].0, input)
}

/// Strategy `k` found exactly one item, and its builder turned that item into `t`.
pub open spec fn builds_single<I: ?Sized, T, Item, FE, F, B, M>(
    strategy: (F, B, M),
    input: &I,
    t: T,
) -> bool where F: Fn(&I) -> Result<Vec<Item>, FE>, B: Fn(Item) -> T {
    exists|v: Vec<Item>|
        #![trigger call_ensures(strategy.0, (input,), Ok::<Vec<Item>, FE>(v))]
        v@.len() == 1 && call_ensures(strategy.0, (input,), Ok::<Vec<Item>, FE>(v))
            && call_ensures(strategy.1, (v@[0],), t)
}

/// Strategy `k` found two or more items, and its handler turned them into the error `e`.
pub open spec fn rejects_multiple<I: ?Sized, T, E, Item, FE, F, B, M>(
    strategy: (F, B, M),
    input: &I,
    e: E,
) -> bool where F: Fn(&I) -> Result<Vec<Item>, FE>, M: Fn(Vec<Item>) -> E {
    exists|v: Vec<Item>|
        #![trigger call_ensures(strategy.0, (input,), Ok::<Vec<Item>, FE>(v))]
        v@.len() > 1 && call_ensures(strategy.0, (input,), Ok::<Vec<Item>, FE>(v))
            && call_ensures(strategy.2, (v,), e)
}

/// Strategy `k`'s finder failed, and `e` is its error converted by `Into`.
pub open spec fn finder_fails<I: ?Sized, E, Item, FE: Into<E>, F, B, M>(
    strategy: (F, B, M),
    input: &I,
    e: E,
) -> bool where F: Fn(&I) -> Result<Vec<Item>, FE> {
    exists|fe: FE|
        #![trigger call_ensures(strategy.0, (input,), Err::<Vec<Item>, FE>(fe))]
        call_ensures(strategy.0, (input,), Err::<Vec<Item>, FE>(fe)) && (
        FE::obeys_into_spec() ==> e == fe.into_spec())
}

/// Attempts to find and build a single item from `input` using a list of strategies,
/// each a `(finder, builder, on_multiple)` triple, tried in order. A strategy whose finder
/// returns no item passes on to the next one; one item is built and returned; two or more
/// items are handed to `on_multiple`, whose error is returned; a finder error is converted
/// with `Into` and returned. When every strategy finds nothing, `not_found_error_fn` makes
/// the error.
pub fn find_first_match<T, E, I, Item, FE, F, B, M, FNE>(
    input: &I,
    strategies: &[(F, B, M)],
    not_found_error_fn: FNE,
) -> (r: Result<T, E>) where
    I: ?Sized,
    F: Fn(&I) -> Result<Vec<Item>, FE>,
    B: Fn(Item) -> T,
    M: Fn(Vec<Item>) -> E,
    FE: Into<E>,
    FNE: FnOnce() -> E,

    requires
        forall|j: int| 0 <= j < strategies@.len() ==> call_requires(#[trigger] strategies@[j].0, (input,)),
        forall|j: int, it: Item| 0 <= j < strategies@.len() ==> #[trigger] call_requires(strategies@[j].1, (it,)),
        forall|j: int, v: Vec<Item>| 0 <= j < strategies@.len() ==> #[trigger] call_requires(strategies@[j].2, (v,)),
        call_requires(not_found_error_fn, ()),
    ensures
        match r {
            Ok(t) => exists|k: int|
                0 <= k < strategies@.len() && all_find_nothing_before(strategies@, input, k)
                    && builds_single(#[trigger] strategies@[k], input, t),
            Err(e) => {
                ||| all_find_nothing_before(strategies@, input, strategies@.len() as int)
                    && call_ensures(not_found_error_fn, (), e)
                ||| exists|k: int|
                    0 <= k < strategies@.len() && all_find_nothing_before(strategies@, input, k) && (
                    rejects_multiple::<I, T, E, Item, FE, F, B, M>(#[trigger] strategies@[k], input, e)
                        || finder_fails::<I, E, Item, FE, F, B, M>(strategies@[k], input, e))
            },
        },
{
    let mut i: usize = 0;
    while i < strategies.len()
        invariant
            i <= strategies@.len(),
            all_find_nothing_before(strategies@, input, i as int),
            forall|j: int| 0 <= j < strategies@.len() ==> call_requires(#[trigger] strategies@[j].0, (input,)),
            forall|j: int, it: Item| 0 <= j < strategies@.len() ==> #[trigger] call_requires(strategies@[j].1, (it,)),
            forall|j: int, v: Vec<Item>| 0 <= j < strategies@.len() ==> #[trigger] call_requires(strategies@[j].2, (v,)),
        decreases strategies@.len() - i,
    {
        let strategy = &strategies[i];
        let found = (strategy.0)(input);
        match found {
            Err(fe) => {
                let ghost g = fe;
                let e: E = fe.into();
                assert(finder_fails::<I, E, Item, FE, F, B, M>(strategies@[i as int], input, e)) by {
                    assert(call_ensures(strategies@[i as int].0, (input,), Err::<Vec<Item>, FE>(g)));
                }
                return Err(e);
            },
            Ok(items) => {
                if items.len() == 0 {
                    assert(finds_nothing(strategies@[i as int].0, input));
                } else if items.len() == 1 {
                    let ghost v = items;
                    let mut items = items;
                    let item = items.pop().unwrap();
                    let t = (strategy.1)(item);
                    assert(builds_single(strategies@[i as int], input, t)) by {
                        assert(call_ensures(strategies@[i as int].0, (input,), Ok::<Vec<Item>, FE>(v)));
                    }
                    return Ok(t);
                } else {
                    let ghost v = items;
                    let e = (strategy.2)(items);
                    assert(rejects_multiple::<I, T, E, Item, FE, F, B, M>(strategies@[i as int], input, e)) by {
                        assert(call_ensures(strategies@[i as int].0, (input,), Ok::<Vec<Item>, FE>(v)));
                    }
                    return Err(e);
                }
            },
        }
        i += 1;
    }
    Err(not_found_error_fn())
}

} // verus!
