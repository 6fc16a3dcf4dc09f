//! Building the response from what a shard found.

use vstd::prelude::*;
use crate::engine::Score;
use crate::error::{DispatchError, DispatchErrorView};
use crate::messages::{KnnResponse, Product};

verus! {

/// The product that stands for one item a shard found: the item's identifier
/// and score, and zero in both fields kept for later.
pub open spec fn product_of(item: (i64, Score)) -> Product {
    Product {
        product_id: item.0,
        score: item.1,
        dotproduct: Score::zero(),
        squared_l2_norm: Score::zero(),
    }
}

/// The products that stand for the items a shard found, in the shard's order.
pub open spec fn products_of(items: Seq<(i64, Score)>) -> Seq<Product> {
    items.map_values(|item: (i64, Score)| product_of(item))
}

/// Builds the response for the items a shard found. The shard ranks; the
/// response keeps its order and adds nothing but the two zero fields.
pub fn build_response(products: Vec<(i64, Score)>) -> (response: KnnResponse)
    ensures
        response.products@ == products_of(products@),
{
    let mut built: Vec<Product> = Vec::new();
    let mut i: usize = 0;
    while i < products.len()
        invariant
            i <= products.len(),
            built@ == products_of(products@.take(i as int)),
        decreases products.len() - i,
    {
        let item = products[i];
        built.push(
            Product {
                product_id: item.0,
                score: item.1,
                dotproduct: Score::zero(),
                squared_l2_norm: Score::zero(),
            },
        );
        i = i + 1;
        assert(built@ =~= products_of(products@.take(i as int)));
    }
    assert(products@.take(i as int) =~= products@);
    KnnResponse { products: built }
}

/// What an answer says, with each string read as its characters: the products
/// of a response, or the error.
pub open spec fn answer_view(answer: Result<KnnResponse, DispatchError>) -> Result<
    Seq<Product>,
    DispatchErrorView,
> {
    match answer {
        Ok(response) => Ok(response.products@),
        Err(error) => Err(error@),
    }
}

/// The answer owed for what a shard returned: its items as products, or its
/// reason for failing as a failure of the engine.
pub open spec fn concluded(outcome: Result<Vec<(i64, Score)>, String>) -> Result<
    Seq<Product>,
    DispatchErrorView,
> {
    match outcome {
        Ok(items) => Ok(products_of(items@)),
        Err(detail) => Err(DispatchErrorView::EngineFailure { detail: detail@ }),
    }
}

/// Turns what a shard returned into the answer to the request.
pub fn conclude(outcome: Result<Vec<(i64, Score)>, String>) -> (answer: Result<
    KnnResponse,
    DispatchError,
>)
    ensures
        answer_view(answer) == concluded(outcome),
{
    match outcome {
        Ok(items) => Ok(build_response(items)),
        Err(detail) => Err(DispatchError::EngineFailure { detail }),
    }
}

/// A response has as many products as the shard found items, the product at
/// each place is the item at that place, and both fields kept for later are
/// zero in every product.
pub proof fn lemma_products_keep_order_and_reserve_zero(items: Seq<(i64, Score)>)
    ensures
        products_of(items).len() == items.len(),
        forall|i: int|
            0 <= i < items.len() ==> {
                &&& (#[trigger] products_of(items)[i]).product_id == items[i].0
                &&& products_of(items)[i].score == items[i].1
                &&& products_of(items)[i].dotproduct.bits == 0
                &&& products_of(items)[i].squared_l2_norm.bits == 0
            },
{
}

} // verus!
