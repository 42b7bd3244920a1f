use filtergraph::FNodeType;
use filtergraph::Filter;
use filtergraph::FilterNode;
use filtergraph::FilterOptions;
use filtergraph::Stream;
use filtergraph::StreamType;

fn s(x: &str) -> String {
    x.to_string()
}

fn input(path: &str, name: &str) -> FNodeType {
    FNodeType::Stream(Stream {
        path: s(path),
        name: s(name),
        stream_type: StreamType::Input,
        inputs: None,
    })
}

fn output(path: &str, name: &str, pads: Option<Vec<&str>>) -> FNodeType {
    FNodeType::Stream(Stream {
        path: s(path),
        name: s(name),
        stream_type: StreamType::Output,
        inputs: pads.map(|v| v.into_iter().map(s).collect()),
    })
}

#[test]
fn it_works() {
    let out = output("./data/vid-modified.mp4", "input1", Some(vec!["audio", "out0"]));
    let inp = input("./data/vid.mp4", "input2");
    let sound_input = input("./data/sound.mp3", "sound_input");
    let trim = FilterNode {
        filters: vec![Filter {
            name: s("trim"),
            options: FilterOptions::Keyed(vec![(s("duration"), s("4"))]),
        }],
        name: s("trim"),
        inputs: vec![s("0:v")],
        outputs: vec![s("out0")],
    };
    let audio = FilterNode {
        filters: vec![Filter {
            name: s("volume"),
            options: FilterOptions::Raw(s("1")),
        }],
        name: s("volume"),
        outputs: vec![s("audio")],
        inputs: vec![s("trimmed_audio")],
    };
    let audio_trim = FilterNode {
        filters: vec![Filter {
            name: s("atrim"),
            options: FilterOptions::Keyed(vec![(s("duration"), s("4"))]),
        }],
        name: s("atrim"),
        inputs: vec![s("1:a")],
        outputs: vec![s("trimmed_audio")],
    };

    let string = filtergraph::stringify(vec![
        inp,
        sound_input,
        FNodeType::FilterNode(trim),
        FNodeType::FilterNode(audio_trim),
        FNodeType::FilterNode(audio),
        out,
    ]);
    let expected = "-i ./data/vid.mp4 -i ./data/sound.mp3 -filter_complex '[0:v]trim=duration=4[out0];[1:a]atrim=duration=4[trimmed_audio];[trimmed_audio]volume=1[audio]' -map '[audio]' -map '[out0]' ./data/vid-modified.mp4";
    assert_eq!(string, expected);
}

#[test]
fn empty_graph() {
    let text = filtergraph::stringify(vec![]);
    assert_eq!(text, "-filter_complex '' ");
}

#[test]
fn single_input_output_no_filters() {
    let nodes = vec![input("A", "in"), output("B", "out", None)];
    assert_eq!(filtergraph::stringify(nodes), "-i A -filter_complex '' B");
}

#[test]
fn output_mapping_flags() {
    let nodes = vec![
        input("A", "in"),
        output("B", "out", Some(vec!["audio", "out0"])),
    ];
    let text = filtergraph::stringify(nodes);
    assert_eq!(text, "-i A -filter_complex '' -map '[audio]' -map '[out0]' B");
    assert_eq!(text.matches("-map '[audio]'").count(), 1);
    assert_eq!(text.matches("-map '[out0]'").count(), 1);
}

#[test]
fn two_stages_join_with_semicolon() {
    let st1 = FilterNode {
        name: s("a"),
        inputs: vec![s("0:v")],
        outputs: vec![s("p")],
        filters: vec![Filter {
            name: s("trim"),
            options: FilterOptions::Keyed(vec![(s("duration"), s("4"))]),
        }],
    };
    let st2 = FilterNode {
        name: s("b"),
        inputs: vec![s("p")],
        outputs: vec![s("q")],
        filters: vec![Filter {
            name: s("scale"),
            options: FilterOptions::Raw(s("512:-2")),
        }],
    };
    let text = filtergraph::stringify(vec![FNodeType::FilterNode(st1), FNodeType::FilterNode(st2)]);
    assert_eq!(
        text,
        "-filter_complex '[0:v]trim=duration=4[p];[p]scale=512:-2[q]' "
    );
    let start = text.find('\'').unwrap() + 1;
    let end = text.rfind('\'').unwrap();
    let clause = &text[start..end];
    assert_eq!(clause.split(';').count(), 2);
}

#[test]
fn multiple_output_paths_concatenate() {
    let nodes = vec![output("one.mp4", "a", None), output("two.mp4", "b", None)];
    assert_eq!(filtergraph::stringify(nodes), "-filter_complex '' one.mp4two.mp4");
}

#[test]
fn compile_is_deterministic() {
    let make = || {
        vec![
            input("A", "in"),
            FNodeType::FilterNode(FilterNode {
                name: s("f"),
                inputs: vec![s("0:v")],
                outputs: vec![s("out")],
                filters: vec![Filter {
                    name: s("fade"),
                    options: FilterOptions::Keyed(vec![
                        (s("type"), s("in")),
                        (s("st"), s("0")),
                        (s("duration"), s("1")),
                    ]),
                }],
            }),
            output("B", "out", Some(vec!["out"])),
        ]
    };
    assert_eq!(filtergraph::stringify(make()), filtergraph::stringify(make()));
}

#[test]
fn input_order_is_preserved_and_reversible() {
    let forward = filtergraph::stringify(vec![input("A", "a"), input("B", "b")]);
    let backward = filtergraph::stringify(vec![input("B", "b"), input("A", "a")]);
    assert_eq!(forward, "-i A -i B -filter_complex '' ");
    assert_eq!(backward, "-i B -i A -filter_complex '' ");
}

#[test]
fn mapped_pad_order_is_preserved_and_reversible() {
    let forward = filtergraph::stringify(vec![output("B", "out", Some(vec!["x", "y"]))]);
    let backward = filtergraph::stringify(vec![output("B", "out", Some(vec!["y", "x"]))]);
    assert_eq!(forward, "-filter_complex '' -map '[x]' -map '[y]' B");
    assert_eq!(backward, "-filter_complex '' -map '[y]' -map '[x]' B");
}
