use filtergraph::formatOperation;
use filtergraph::format_filter;
use filtergraph::FNode;
use filtergraph::FNodeType;
use filtergraph::Filter;
use filtergraph::FilterNode;
use filtergraph::FilterOptions;
use filtergraph::Stream;
use filtergraph::StreamType;

fn s(x: &str) -> String {
    x.to_string()
}

fn fade() -> Filter {
    Filter {
        name: s("fade"),
        options: FilterOptions::Keyed(vec![
            (s("type"), s("in")),
            (s("st"), s("0")),
            (s("duration"), s("1")),
        ]),
    }
}

#[test]
fn keyed_options_stage() {
    let stage = FilterNode {
        name: s("overlay"),
        inputs: vec![s("0:v")],
        outputs: vec![],
        filters: vec![fade()],
    };
    assert_eq!(formatOperation(stage), "[0:v]fade=type=in:st=0:duration=1");
}

#[test]
fn chained_invocations_join_with_comma() {
    let stage = FilterNode {
        name: s("chain"),
        inputs: vec![s("0:v")],
        outputs: vec![],
        filters: vec![
            fade(),
            Filter {
                name: s("scale"),
                options: FilterOptions::Raw(s("512:-2")),
            },
        ],
    };
    assert_eq!(
        formatOperation(stage),
        "[0:v]fade=type=in:st=0:duration=1,scale=512:-2"
    );
}

#[test]
fn format_filter_renders_chain() {
    let chain = vec![
        fade(),
        Filter {
            name: s("scale"),
            options: FilterOptions::Raw(s("512:-2")),
        },
    ];
    assert_eq!(
        format_filter(chain),
        "fade=type=in:st=0:duration=1,scale=512:-2"
    );
}

#[test]
fn empty_chain_renders_adjacent_pad_groups() {
    let stage = FilterNode {
        name: s("bare"),
        inputs: vec![s("a"), s("b")],
        outputs: vec![s("c")],
        filters: vec![],
    };
    assert_eq!(formatOperation(stage), "[a][b][c]");
}

#[test]
fn pad_order_is_preserved_and_reversible() {
    let stage = |pads: Vec<&str>| FilterNode {
        name: s("bare"),
        inputs: pads.into_iter().map(s).collect(),
        outputs: vec![],
        filters: vec![],
    };
    assert_eq!(formatOperation(stage(vec!["a", "b"])), "[a][b]");
    assert_eq!(formatOperation(stage(vec!["b", "a"])), "[b][a]");
}

#[test]
fn invocation_order_is_preserved_and_reversible() {
    let raw = |name: &str| Filter {
        name: s(name),
        options: FilterOptions::Raw(s("1")),
    };
    assert_eq!(format_filter(vec![raw("x"), raw("y")]), "x=1,y=1");
    assert_eq!(format_filter(vec![raw("y"), raw("x")]), "y=1,x=1");
}

#[test]
fn fnode_from_stream_takes_its_name() {
    let stream = Stream {
        path: s("/data/in.mp4"),
        name: s("input1"),
        stream_type: StreamType::Input,
        inputs: None,
    };
    let node = FNode::from(stream);
    assert_eq!(node.name, "input1");
    assert!(matches!(node.data, FNodeType::Stream(_)));
}

#[test]
fn fnode_from_filter_node_takes_its_name() {
    let stage = FilterNode {
        name: s("overlay"),
        inputs: vec![],
        outputs: vec![],
        filters: vec![],
    };
    let node = FNode::from(stage);
    assert_eq!(node.name, "overlay");
    assert!(matches!(node.data, FNodeType::FilterNode(_)));
}

#[test]
fn narrowing_signals_mismatch_instead_of_aborting() {
    let stage_node = FNodeType::FilterNode(FilterNode {
        name: s("overlay"),
        inputs: vec![],
        outputs: vec![],
        filters: vec![],
    });
    let stream_node = FNodeType::Stream(Stream {
        path: s("a"),
        name: s("b"),
        stream_type: StreamType::Output,
        inputs: None,
    });
    assert!(stage_node.clone().into_stream().is_none());
    assert!(stage_node.into_filter_node().is_some());
    assert!(stream_node.clone().into_filter_node().is_none());
    assert!(stream_node.into_stream().is_some());
}
