//! The kinds of block that are made from one description.
use crate::storage::blocks::descriptor::{BlockDescriptor, BlockModel};
use vstd::prelude::*;
use vstd::string::*;

verus! {

/// The name of the kind of block made from the kind `name` for the shape
/// `shape`: the two names with a full stop between them.
pub open spec fn shaped_name_of(name: Seq<char>, shape: Seq<char>) -> Seq<char> {
    name + seq!['.'] + shape
}

/// The name of the kind of block made from the kind `name` for the shape
/// `shape`.
pub fn shaped_name(name: &str, shape: &str) -> (r: String)
    ensures
        r@ == shaped_name_of(name@, shape@),
{
    proof {
        reveal_strlit(".");
    }
    let mut r = String::from_str(name);
    r.append(".");
    r.append(shape);
    r
}

/// The kind made from the kind `block` for the shape `shape`: a kind of
/// that shape alone, named after both, for which no item stands.
pub open spec fn shaped(block: BlockModel, shape: Seq<char>) -> BlockModel {
    BlockModel {
        name: shaped_name_of(block.name, shape),
        geometry: Some(shape),
        auto_geo: None,
        has_item: Some(false),
        ..block
    }
}

/// The kinds that the description `block` stands for: one for each shape
/// that it asks for, in their order, and then the kind itself.
pub open spec fn kinds_of(block: BlockModel) -> Seq<BlockModel> {
    match block.auto_geo {
        Some(shapes) => Seq::new(shapes.len(), |i: int| shaped(block, shapes[i])).push(block),
        None => seq![block],
    }
}

/// The models of the descriptions in `blocks`.
pub open spec fn kinds(blocks: Seq<BlockDescriptor>) -> Seq<BlockModel> {
    blocks.map_values(|block: BlockDescriptor| block@)
}

/// The kinds that the description `block` stands for.
pub fn expand_auto_geo(block: BlockDescriptor) -> (r: Vec<BlockDescriptor>)
    ensures
        kinds(r@) == kinds_of(block@),
{
    let mut result: Vec<BlockDescriptor> = Vec::new();
    match &block.auto_geo {
        Some(shapes) => {
            let mut i: usize = 0;
            while i < shapes.len()
                invariant
                    i <= shapes.len(),
                    block.auto_geo == Some(*shapes),
                    kinds(result@) == Seq::new(
                        i as nat,
                        |k: int| shaped(block@, block@.auto_geo.unwrap()[k]),
                    ),
                decreases shapes.len() - i,
            {
                let mut new_block = block.clone();
                new_block.auto_geo = None;
                new_block.geometry = Some(shapes[i].clone());
                new_block.has_item = Some(false);
                new_block.name = shaped_name(block.name.as_str(), shapes[i].as_str());
                let ghost earlier = result@;
                result.push(new_block);
                assert(kinds(result@) =~= kinds(earlier).push(new_block@));
                i = i + 1;
                assert(kinds(result@) =~= Seq::new(
                    i as nat,
                    |k: int| shaped(block@, block@.auto_geo.unwrap()[k]),
                ));
            }
        },
        None => {},
    }
    result.push(block);
    result
}

} // verus!
