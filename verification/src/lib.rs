pub mod laws;
pub mod nodes;
pub mod text;

pub use nodes::f_node::FNode;
pub use nodes::filter::Filter;
pub use nodes::filter::FilterNode;
pub use nodes::filter::FilterOptions;
pub use nodes::fnode_type::FNodeType;
pub use nodes::stream::Stream;
pub use nodes::stream::StreamType;

use vstd::prelude::*;

use crate::text::concat_all;
use crate::text::join_with;
use crate::text::lemma_concat_all_take_succ;
use crate::text::lemma_join_with_take_succ;
use crate::text::views_of;

verus! {

// ---------------------------------------------------------------------------
// The rendered text, piece by piece, as spec functions.
// ---------------------------------------------------------------------------
/// The bracketed pad groups `[<pad>]`, one per pad, in pad order.
pub open spec fn pad_pieces(pads: Seq<String>) -> Seq<Seq<char>> {
    pads.map_values(|p: String| "["@ + p@ + "]"@)
}

/// All pad groups of one side of a stage, concatenated without separator.
pub open spec fn pads_text(pads: Seq<String>) -> Seq<char> {
    concat_all(pad_pieces(pads))
}

/// The keyed option pairs rendered as `<key>=<value>`, in stored order.
pub open spec fn pair_pieces(pairs: Seq<(String, String)>) -> Seq<Seq<char>> {
    pairs.map_values(|p: (String, String)| p.0@ + "="@ + p.1@)
}

/// The option payload of one invocation: keyed pairs joined with `:` in
/// their stored order, or the raw text verbatim.
pub open spec fn options_text(options: FilterOptions) -> Seq<char> {
    match options {
        FilterOptions::Keyed(pairs) => join_with(pair_pieces(pairs@), ":"@),
        FilterOptions::Raw(s) => s@,
    }
}

/// One filter invocation, `<name>=<options>`.
pub open spec fn filter_text(f: Filter) -> Seq<char> {
    f.name@ + "="@ + options_text(f.options)
}

/// The invocation texts of a stage's chain, in chain order.
pub open spec fn filter_pieces(filters: Seq<Filter>) -> Seq<Seq<char>> {
    filters.map_values(|f: Filter| filter_text(f))
}

/// A stage's filter chain: its invocations joined with `,`.
pub open spec fn chain_text(filters: Seq<Filter>) -> Seq<char> {
    join_with(filter_pieces(filters), ","@)
}

/// One whole stage: input pad groups, then the chain, then output pad
/// groups.
pub open spec fn stage_text(node: FilterNode) -> Seq<char> {
    pads_text(node.inputs@) + chain_text(node.filters@) + pads_text(node.outputs@)
}

/// What one node contributes to the input-flag section: `-i <path> ` for an
/// input stream, nothing otherwise.
pub open spec fn input_piece(n: FNodeType) -> Seq<char> {
    match n {
        FNodeType::Stream(s) => match s.stream_type {
            StreamType::Input => "-i "@ + s.path@ + " "@,
            StreamType::Output => Seq::empty(),
        },
        FNodeType::FilterNode(_) => Seq::empty(),
    }
}

pub open spec fn input_pieces(nodes: Seq<FNodeType>) -> Seq<Seq<char>> {
    nodes.map_values(|n: FNodeType| input_piece(n))
}

/// The input-flag section of the command.
pub open spec fn input_flags_text(nodes: Seq<FNodeType>) -> Seq<char> {
    concat_all(input_pieces(nodes))
}

/// The rendered stages, in node order; stream nodes contribute no stage.
pub open spec fn stage_pieces(nodes: Seq<FNodeType>) -> Seq<Seq<char>> {
    nodes.filter_map(
        |n: FNodeType|
            match n {
                FNodeType::FilterNode(f) => Some(stage_text(f)),
                FNodeType::Stream(_) => None,
            },
    )
}

/// The filter-graph expression: the stages joined with `;`.
pub open spec fn filter_graph_text(nodes: Seq<FNodeType>) -> Seq<char> {
    join_with(stage_pieces(nodes), ";"@)
}

/// The mapping flags ` -map '[<pad>]'`, one per pad with its leading
/// space, in pad order.
pub open spec fn map_pad_pieces(pads: Seq<String>) -> Seq<Seq<char>> {
    pads.map_values(|p: String| " -map '["@ + p@ + "]'"@)
}

/// All mapping flags of one output stream, in pad order.
pub open spec fn map_pads_text(pads: Seq<String>) -> Seq<char> {
    concat_all(map_pad_pieces(pads))
}

/// What one node contributes to the mapping section: one flag per mapped
/// pad of an output stream, nothing otherwise.
pub open spec fn map_piece(n: FNodeType) -> Seq<char> {
    match n {
        FNodeType::Stream(s) => match s.stream_type {
            StreamType::Output => match s.inputs {
                Some(pads) => map_pads_text(pads@),
                None => Seq::empty(),
            },
            StreamType::Input => Seq::empty(),
        },
        FNodeType::FilterNode(_) => Seq::empty(),
    }
}

pub open spec fn map_pieces(nodes: Seq<FNodeType>) -> Seq<Seq<char>> {
    nodes.map_values(|n: FNodeType| map_piece(n))
}

/// The mapping section of the command.
pub open spec fn map_flags_text(nodes: Seq<FNodeType>) -> Seq<char> {
    concat_all(map_pieces(nodes))
}

/// What one node contributes to the trailing path list: the path of an
/// output stream, nothing otherwise.
pub open spec fn out_piece(n: FNodeType) -> Seq<char> {
    match n {
        FNodeType::Stream(s) => match s.stream_type {
            StreamType::Output => s.path@,
            StreamType::Input => Seq::empty(),
        },
        FNodeType::FilterNode(_) => Seq::empty(),
    }
}

pub open spec fn out_pieces(nodes: Seq<FNodeType>) -> Seq<Seq<char>> {
    nodes.map_values(|n: FNodeType| out_piece(n))
}

/// The output paths, concatenated in node order without separator.
pub open spec fn output_paths_text(nodes: Seq<FNodeType>) -> Seq<char> {
    concat_all(out_pieces(nodes))
}

/// The whole command line: input flags, the quoted filter-graph
/// expression, the mapping flags, a space, and the output paths.
pub open spec fn command_text(nodes: Seq<FNodeType>) -> Seq<char> {
    input_flags_text(nodes) + "-filter_complex '"@ + filter_graph_text(nodes) + "'"@
        + map_flags_text(nodes) + " "@ + output_paths_text(nodes)
}

// ---------------------------------------------------------------------------
// Executable rendering.
// ---------------------------------------------------------------------------
/// Joins the strings with `sep` between neighbours.
fn join_strings(parts: &Vec<String>, sep: &str) -> (res: String)
    ensures
        res@ == join_with(views_of(parts@), sep@),
{
    let mut res = String::new();
    let mut i: usize = 0;
    while i < parts.len()
        invariant
            i <= parts.len(),
            res@ == join_with(views_of(parts@).take(i as int), sep@),
        decreases parts.len() - i,
    {
        if i > 0 {
            res.append(sep);
        }
        let p = &parts[i];
        res.append(p.as_str());
        proof {
            lemma_join_with_take_succ(views_of(parts@), sep@, i as int);
            assert(views_of(parts@)[i as int] == parts@[i as int]@);
            if i > 0 {
                assert(res@ =~= join_with(views_of(parts@).take(i as int), sep@) + sep@
                    + views_of(parts@)[i as int]);
            }
        }
        i += 1;
    }
    proof {
        assert(views_of(parts@).take(i as int) =~= views_of(parts@));
    }
    res
}

/// Renders one side's pads as adjacent bracket groups.
fn format_pads(pads: &Vec<String>) -> (res: String)
    ensures
        res@ == pads_text(pads@),
{
    let mut res = String::new();
    let mut i: usize = 0;
    while i < pads.len()
        invariant
            i <= pads.len(),
            res@ == concat_all(pad_pieces(pads@).take(i as int)),
        decreases pads.len() - i,
    {
        res.append("[");
        let p = &pads[i];
        res.append(p.as_str());
        res.append("]");
        proof {
            lemma_concat_all_take_succ(pad_pieces(pads@), i as int);
            assert(pad_pieces(pads@)[i as int] == "["@ + pads@[i as int]@ + "]"@);
            assert(res@ =~= concat_all(pad_pieces(pads@).take(i as int)) + pad_pieces(pads@)[i
                as int]);
        }
        i += 1;
    }
    proof {
        assert(pad_pieces(pads@).take(i as int) =~= pad_pieces(pads@));
    }
    res
}

/// Renders one invocation's option payload.
fn format_options(options: &FilterOptions) -> (res: String)
    ensures
        res@ == options_text(*options),
{
    match options {
        FilterOptions::Keyed(pairs) => {
            let mut texts: Vec<String> = Vec::new();
            let mut i: usize = 0;
            while i < pairs.len()
                invariant
                    i <= pairs.len(),
                    views_of(texts@) == pair_pieces(pairs@).take(i as int),
                decreases pairs.len() - i,
            {
                let pair = &pairs[i];
                let mut t = String::new();
                t.append(pair.0.as_str());
                t.append("=");
                t.append(pair.1.as_str());
                proof {
                    assert(t@ =~= pair_pieces(pairs@)[i as int]);
                    assert(views_of(texts@.push(t)) =~= views_of(texts@).push(t@));
                    assert(pair_pieces(pairs@).take(i as int).push(pair_pieces(pairs@)[i as int])
                        =~= pair_pieces(pairs@).take(i + 1));
                }
                texts.push(t);
                i += 1;
            }
            proof {
                assert(pair_pieces(pairs@).take(i as int) =~= pair_pieces(pairs@));
            }
            join_strings(&texts, ":")
        },
        FilterOptions::Raw(s) => s.clone(),
    }
}

/// Renders a chain of invocations joined with `,`.
fn format_chain(filters: &Vec<Filter>) -> (res: String)
    ensures
        res@ == chain_text(filters@),
{
    let mut texts: Vec<String> = Vec::new();
    let mut i: usize = 0;
    while i < filters.len()
        invariant
            i <= filters.len(),
            views_of(texts@) == filter_pieces(filters@).take(i as int),
        decreases filters.len() - i,
    {
        let f = &filters[i];
        let mut t = String::new();
        t.append(f.name.as_str());
        t.append("=");
        let o = format_options(&f.options);
        t.append(o.as_str());
        proof {
            assert(t@ =~= filter_pieces(filters@)[i as int]);
            assert(views_of(texts@.push(t)) =~= views_of(texts@).push(t@));
            assert(filter_pieces(filters@).take(i as int).push(filter_pieces(filters@)[i as int])
                =~= filter_pieces(filters@).take(i + 1));
        }
        texts.push(t);
        i += 1;
    }
    proof {
        assert(filter_pieces(filters@).take(i as int) =~= filter_pieces(filters@));
    }
    join_strings(&texts, ",")
}

/// Renders the invocation chain of one stage: each invocation as
/// `<name>=<options>`, all joined with `,`.
pub fn format_filter(filters: Vec<Filter>) -> (res: String)
    ensures
        res@ == chain_text(filters@),
{
    format_chain(&filters)
}

/// Renders one stage behind a reference.
fn format_stage(node: &FilterNode) -> (res: String)
    ensures
        res@ == stage_text(*node),
{
    let mut res = format_pads(&node.inputs);
    let ops = format_chain(&node.filters);
    res.append(ops.as_str());
    let outs = format_pads(&node.outputs);
    res.append(outs.as_str());
    proof {
        assert(res@ =~= stage_text(*node));
    }
    res
}

/// Renders one filter stage: bracketed input pads, the comma-joined
/// invocation chain, bracketed output pads.
#[allow(non_snake_case)]
pub fn formatOperation(filterNode: FilterNode) -> (res: String)
    ensures
        res@ == stage_text(filterNode),
{
    format_stage(&filterNode)
}

/// Extending the node prefix by one node appends that node's stage text to
/// the rendered stage list exactly when the node is a filter stage.
pub proof fn lemma_stage_pieces_take_succ(nodes: Seq<FNodeType>, i: int)
    requires
        0 <= i < nodes.len(),
    ensures
        stage_pieces(nodes.take(i + 1)) == stage_pieces(nodes.take(i)) + (match nodes[i] {
            FNodeType::FilterNode(f) => seq![stage_text(f)],
            FNodeType::Stream(_) => Seq::empty(),
        }),
{
    assert(nodes.take(i + 1).drop_last() =~= nodes.take(i));
    assert(nodes.take(i + 1).last() == nodes[i]);
    match nodes[i] {
        FNodeType::FilterNode(f) => {
        },
        FNodeType::Stream(_) => {
            assert(stage_pieces(nodes.take(i)) + Seq::<Seq<char>>::empty() =~= stage_pieces(
                nodes.take(i),
            ));
        },
    }
}

/// Appends one mapping flag per pad to `res`.
fn append_map_flags(res: &mut String, pads: &Vec<String>)
    ensures
        final (res)@ == old(res)@ + map_pads_text(pads@),
{
    let ghost pre: Seq<char> = res@;
    let mut j: usize = 0;
    while j < pads.len()
        invariant
            j <= pads.len(),
            res@ == pre + concat_all(map_pad_pieces(pads@).take(j as int)),
        decreases pads.len() - j,
    {
        res.append(" -map '[");
        let p = &pads[j];
        res.append(p.as_str());
        res.append("]'");
        proof {
            lemma_concat_all_take_succ(map_pad_pieces(pads@), j as int);
            assert(map_pad_pieces(pads@)[j as int] == " -map '["@ + pads@[j as int]@ + "]'"@);
            assert(res@ =~= pre + concat_all(map_pad_pieces(pads@).take(j + 1)));
        }
        j += 1;
    }
    proof {
        assert(map_pad_pieces(pads@).take(j as int) =~= map_pad_pieces(pads@));
    }
}

/// Compiles an ordered node sequence into the full command line: one
/// `-i <path> ` flag per input stream, the stages joined with `;` inside
/// `-filter_complex '...'`, one ` -map '[<pad>]'` flag per mapped pad of
/// each output stream, a space, and the output paths in order.
pub fn stringify(nodes: Vec<FNodeType>) -> (res: String)
    ensures
        res@ == command_text(nodes@),
{
    let mut res = String::new();
    let mut i: usize = 0;
    while i < nodes.len()
        invariant
            i <= nodes.len(),
            res@ == concat_all(input_pieces(nodes@).take(i as int)),
        decreases nodes.len() - i,
    {
        match &nodes[i] {
            FNodeType::Stream(st) => match st.stream_type {
                StreamType::Input => {
                    res.append("-i ");
                    res.append(st.path.as_str());
                    res.append(" ");
                },
                StreamType::Output => {
                },
            },
            FNodeType::FilterNode(_) => {
            },
        }
        proof {
            lemma_concat_all_take_succ(input_pieces(nodes@), i as int);
            assert(input_pieces(nodes@)[i as int] == input_piece(nodes@[i as int]));
            assert(res@ =~= concat_all(input_pieces(nodes@).take(i + 1)));
        }
        i += 1;
    }
    proof {
        assert(input_pieces(nodes@).take(i as int) =~= input_pieces(nodes@));
    }
    res.append("-filter_complex '");
    let ghost with_prefix: Seq<char> = res@;
    let mut stage_strs: Vec<String> = Vec::new();
    i = 0;
    while i < nodes.len()
        invariant
            i <= nodes.len(),
            res@ == with_prefix,
            views_of(stage_strs@) == stage_pieces(nodes@.take(i as int)),
        decreases nodes.len() - i,
    {
        match &nodes[i] {
            FNodeType::FilterNode(f) => {
                let t = format_stage(f);
                proof {
                    assert(views_of(stage_strs@.push(t)) =~= views_of(stage_strs@).push(t@));
                }
                stage_strs.push(t);
            },
            FNodeType::Stream(_) => {
            },
        }
        proof {
            lemma_stage_pieces_take_succ(nodes@, i as int);
            assert(views_of(stage_strs@) =~= stage_pieces(nodes@.take(i + 1)));
        }
        i += 1;
    }
    proof {
        assert(nodes@.take(i as int) =~= nodes@);
    }
    let joined = join_strings(&stage_strs, ";");
    res.append(joined.as_str());
    res.append("'");
    let ghost with_graph: Seq<char> = res@;
    i = 0;
    while i < nodes.len()
        invariant
            i <= nodes.len(),
            res@ == with_graph + concat_all(map_pieces(nodes@).take(i as int)),
        decreases nodes.len() - i,
    {
        match &nodes[i] {
            FNodeType::Stream(st) => match st.stream_type {
                StreamType::Output => match &st.inputs {
                    Some(pads) => append_map_flags(&mut res, pads),
                    None => {
                    },
                },
                StreamType::Input => {
                },
            },
            FNodeType::FilterNode(_) => {
            },
        }
        proof {
            lemma_concat_all_take_succ(map_pieces(nodes@), i as int);
            assert(map_pieces(nodes@)[i as int] == map_piece(nodes@[i as int]));
            assert(res@ =~= with_graph + concat_all(map_pieces(nodes@).take(i + 1)));
        }
        i += 1;
    }
    proof {
        assert(map_pieces(nodes@).take(i as int) =~= map_pieces(nodes@));
    }
    res.append(" ");
    let ghost with_maps: Seq<char> = res@;
    i = 0;
    while i < nodes.len()
        invariant
            i <= nodes.len(),
            res@ == with_maps + concat_all(out_pieces(nodes@).take(i as int)),
        decreases nodes.len() - i,
    {
        match &nodes[i] {
            FNodeType::Stream(st) => match st.stream_type {
                StreamType::Output => {
                    res.append(st.path.as_str());
                },
                StreamType::Input => {
                },
            },
            FNodeType::FilterNode(_) => {
            },
        }
        proof {
            lemma_concat_all_take_succ(out_pieces(nodes@), i as int);
            assert(out_pieces(nodes@)[i as int] == out_piece(nodes@[i as int]));
            assert(res@ =~= with_maps + concat_all(out_pieces(nodes@).take(i + 1)));
        }
        i += 1;
    }
    proof {
        assert(out_pieces(nodes@).take(i as int) =~= out_pieces(nodes@));
        assert(res@ =~= command_text(nodes@));
    }
    res
}

} // verus!
