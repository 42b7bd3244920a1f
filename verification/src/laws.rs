use vstd::prelude::*;

use crate::command_text;
use crate::filter_graph_text;
use crate::filter_pieces;
use crate::input_pieces;
use crate::map_pad_pieces;
use crate::nodes::filter::Filter;
use crate::nodes::fnode_type::FNodeType;
use crate::out_pieces;
use crate::pad_pieces;
use crate::stage_pieces;
use crate::stage_text;
use crate::text::count_char;
use crate::text::lemma_join_with_count;

verus! {

/// The number of filter-stage nodes in a sequence.
pub open spec fn filter_node_count(nodes: Seq<FNodeType>) -> nat
    decreases nodes.len(),
{
    if nodes.len() == 0 {
        0
    } else {
        filter_node_count(nodes.drop_last()) + (match nodes.last() {
            FNodeType::FilterNode(_) => 1nat,
            FNodeType::Stream(_) => 0nat,
        })
    }
}

/// What the first node contributes to the rendered stage list.
pub open spec fn first_stage_piece(nodes: Seq<FNodeType>) -> Seq<Seq<char>> {
    match nodes[0] {
        FNodeType::FilterNode(f) => seq![stage_text(f)],
        FNodeType::Stream(_) => Seq::empty(),
    }
}

/// The rendered stage list holds exactly one entry per filter-stage node.
pub proof fn lemma_stage_count(nodes: Seq<FNodeType>)
    ensures
        stage_pieces(nodes).len() == filter_node_count(nodes),
    decreases nodes.len(),
{
    if nodes.len() > 0 {
        lemma_stage_count(nodes.drop_last());
    }
}

/// Splitting the filter-graph expression on `;` recovers exactly one
/// segment per filter-stage node: the expression holds one `;` less than
/// there are stages, provided no rendered stage itself contains a `;`.
pub proof fn lemma_stage_separator_count(nodes: Seq<FNodeType>)
    requires
        filter_node_count(nodes) > 0,
        forall|i: int|
            0 <= i < stage_pieces(nodes).len() ==> count_char(
                #[trigger] stage_pieces(nodes)[i],
                ';',
            ) == 0,
    ensures
        count_char(filter_graph_text(nodes), ';') == filter_node_count(nodes) - 1,
{
    lemma_stage_count(nodes);
    reveal_strlit(";");
    assert(";"@.last() == ';');
    assert(";"@.drop_last() =~= Seq::<char>::empty());
    assert(count_char(Seq::<char>::empty(), ';') == 0);
    assert(count_char(";"@, ';') == 1);
    lemma_join_with_count(stage_pieces(nodes), ";"@, ';');
}

/// Peeling the rendered stage list from the front: the first node's
/// contribution stands before the contributions of the rest.
pub proof fn lemma_stage_pieces_first(nodes: Seq<FNodeType>)
    requires
        nodes.len() > 0,
    ensures
        stage_pieces(nodes) == first_stage_piece(nodes) + stage_pieces(nodes.drop_first()),
    decreases nodes.len(),
{
    if nodes.len() == 1 {
        assert(nodes.drop_last() =~= Seq::<FNodeType>::empty());
        assert(nodes.drop_first() =~= Seq::<FNodeType>::empty());
        assert(nodes.last() == nodes[0]);
        match nodes[0] {
            FNodeType::FilterNode(f) => {
                assert(stage_pieces(nodes) =~= first_stage_piece(nodes) + stage_pieces(
                    nodes.drop_first(),
                ));
            },
            FNodeType::Stream(_) => {
                assert(stage_pieces(nodes) =~= first_stage_piece(nodes) + stage_pieces(
                    nodes.drop_first(),
                ));
            },
        }
    } else {
        lemma_stage_pieces_first(nodes.drop_last());
        assert(nodes.drop_last()[0] == nodes[0]);
        assert(nodes.drop_last().drop_first() =~= nodes.drop_first().drop_last());
        assert(nodes.drop_first().last() == nodes.last());
        assert(nodes.drop_first().len() > 0);
        match nodes.last() {
            FNodeType::FilterNode(f) => {
                assert(stage_pieces(nodes) == stage_pieces(nodes.drop_last()) + seq![
                    stage_text(f),
                ]);
                assert(stage_pieces(nodes.drop_first()) == stage_pieces(
                    nodes.drop_first().drop_last(),
                ) + seq![stage_text(f)]);
                assert(stage_pieces(nodes) =~= first_stage_piece(nodes) + stage_pieces(
                    nodes.drop_first(),
                ));
            },
            FNodeType::Stream(_) => {
                assert(stage_pieces(nodes) == stage_pieces(nodes.drop_last()));
                assert(stage_pieces(nodes.drop_first()) == stage_pieces(
                    nodes.drop_first().drop_last(),
                ));
                assert(stage_pieces(nodes) =~= first_stage_piece(nodes) + stage_pieces(
                    nodes.drop_first(),
                ));
            },
        }
    }
}

/// Reversing the node order reverses the order of the rendered stages in
/// the filter-graph expression.
pub proof fn lemma_stage_order_reversal(nodes: Seq<FNodeType>)
    ensures
        stage_pieces(nodes.reverse()) == stage_pieces(nodes).reverse(),
    decreases nodes.len(),
{
    if nodes.len() == 0 {
        assert(nodes.reverse() =~= nodes);
        assert(stage_pieces(nodes).reverse() =~= stage_pieces(nodes));
    } else {
        let rev = nodes.reverse();
        assert(rev.last() == nodes[0]);
        assert(rev.drop_last() =~= nodes.drop_first().reverse());
        lemma_stage_order_reversal(nodes.drop_first());
        lemma_stage_pieces_first(nodes);
        match nodes[0] {
            FNodeType::FilterNode(f) => {
                assert(stage_pieces(rev) == stage_pieces(nodes.drop_first().reverse()) + seq![
                    stage_text(f),
                ]);
                assert(stage_pieces(nodes).reverse() =~= stage_pieces(
                    nodes.drop_first(),
                ).reverse() + seq![stage_text(f)]);
            },
            FNodeType::Stream(_) => {
                assert(stage_pieces(rev) == stage_pieces(nodes.drop_first().reverse()));
                assert(stage_pieces(nodes).reverse() =~= stage_pieces(
                    nodes.drop_first(),
                ).reverse());
            },
        }
    }
}

/// Reversing the node order reverses the order of the `-i` input flags.
pub proof fn lemma_input_order_reversal(nodes: Seq<FNodeType>)
    ensures
        input_pieces(nodes.reverse()) == input_pieces(nodes).reverse(),
{
    assert(input_pieces(nodes.reverse()) =~= input_pieces(nodes).reverse());
}

/// Reversing the node order reverses the order of the output paths.
pub proof fn lemma_output_order_reversal(nodes: Seq<FNodeType>)
    ensures
        out_pieces(nodes.reverse()) == out_pieces(nodes).reverse(),
{
    assert(out_pieces(nodes.reverse()) =~= out_pieces(nodes).reverse());
}

/// Reversing a stage's pad order reverses the order of its bracket groups.
pub proof fn lemma_pad_order_reversal(pads: Seq<String>)
    ensures
        pad_pieces(pads.reverse()) == pad_pieces(pads).reverse(),
{
    assert(pad_pieces(pads.reverse()) =~= pad_pieces(pads).reverse());
}

/// Reversing a stage's invocation order reverses the order of the
/// invocation texts in its chain.
pub proof fn lemma_invocation_order_reversal(filters: Seq<Filter>)
    ensures
        filter_pieces(filters.reverse()) == filter_pieces(filters).reverse(),
{
    assert(filter_pieces(filters.reverse()) =~= filter_pieces(filters).reverse());
}

/// Reversing an output stream's mapped-pad order reverses the order of its
/// `-map` flags.
pub proof fn lemma_mapped_pad_order_reversal(pads: Seq<String>)
    ensures
        map_pad_pieces(pads.reverse()) == map_pad_pieces(pads).reverse(),
{
    assert(map_pad_pieces(pads.reverse()) =~= map_pad_pieces(pads).reverse());
}

/// Compiling equal node sequences yields identical command text: the
/// rendering is a function of the node sequence alone, with no hidden
/// state.
pub proof fn lemma_compile_deterministic(first: Seq<FNodeType>, second: Seq<FNodeType>)
    requires
        first == second,
    ensures
        command_text(first) == command_text(second),
{
}

} // verus!
