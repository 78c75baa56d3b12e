use vcd_model::parse;
use vcd_model::TraceError;
use vcd_model::VcdData;
use vcd_model::VcdScopeType;
use vcd_model::VcdTimescaleUnit;
use vcd_model::VcdValue;
use vcd_model::VcdVarType;

const HEAD: &str = "$date Mon $end\n$version sim 1.0 $end\n$timescale 1 ns $end\n";

fn with_head(rest: &str) -> String {
    format!("{}{}", HEAD, rest)
}

fn times(data: &VcdData) -> Vec<u64> {
    let mut result = Vec::new();
    for i in 0..data.get_vcd_signal_size() {
        result.push(data.get_vcd_signal_data(i).unwrap().get_time());
    }
    result
}

#[test]
fn parse_reads_a_small_trace() {
    let text = "$date today $end\n$version 1 $end\n$timescale 1 ns $end\n$scope module top $end\n$var wire 1 ! clk $end\n$upscope $end\n$enddefinitions $end\n#0\n1!\n#5\n0!\n";
    let data = parse(text).unwrap();
    assert_eq!(data.get_vcd_signal_size(), 2);
    let first = data.get_vcd_signal_data(0).unwrap();
    assert_eq!(first.get_time(), 0);
    assert_eq!(first.get_data_array_scalar_id_code(0), Ok("!".to_string()));
    assert_eq!(first.get_data_array_scalar_value(0), Ok(VcdValue::V1));
    let second = data.get_vcd_signal_data(1).unwrap();
    assert_eq!(second.get_time(), 5);
    assert_eq!(second.get_data_array_scalar_value(0), Ok(VcdValue::V0));
}

#[test]
fn parse_reads_the_metadata() {
    let text = "$date\n  Mon Feb 3\n$end\n$version\n  tool 2.1\n$end\n$timescale 100 us $end\n$enddefinitions $end\n";
    let header = parse(text).unwrap().get_vcd_header();
    assert_eq!(header.get_date(), "Mon Feb 3");
    assert_eq!(header.get_version(), "tool 2.1");
    assert_eq!(header.get_timescale_value(), 100);
    assert_eq!(header.get_timescale_unit(), VcdTimescaleUnit::US);
    assert_eq!(header.get_items_size(), 0);
}

#[test]
fn parse_reads_each_timescale_unit() {
    let units = [
        ("s", VcdTimescaleUnit::S),
        ("ms", VcdTimescaleUnit::MS),
        ("us", VcdTimescaleUnit::US),
        ("ns", VcdTimescaleUnit::NS),
        ("ps", VcdTimescaleUnit::PS),
        ("fs", VcdTimescaleUnit::FS),
    ];
    for (name, unit) in units {
        let text =
            format!("$date d $end $version v $end $timescale 10{} $end $enddefinitions $end\n", name);
        let header = parse(&text).unwrap().get_vcd_header();
        assert_eq!(header.get_timescale_value(), 10);
        assert_eq!(header.get_timescale_unit(), unit);
    }
}

#[test]
fn parse_reads_each_scope_kind_in_declaration_order() {
    let text = with_head(
        "$scope module m $end\n\
         $scope task t $end $upscope $end\n\
         $comment between $end\n\
         $scope function f $end $upscope $end\n\
         $scope begin b $end $upscope $end\n\
         $scope fork k $end $upscope $end\n\
         $upscope $end\n\
         $enddefinitions $end\n",
    );
    let header = parse(&text).unwrap().get_vcd_header();
    assert_eq!(header.get_items_size(), 1);
    let m = header.get_items_data(0).unwrap().get_scope().unwrap();
    assert_eq!(m.get_scope_type(), VcdScopeType::Module);
    assert_eq!(m.get_identifier(), "m");
    let expected = [
        ("t", VcdScopeType::Task),
        ("f", VcdScopeType::Function),
        ("b", VcdScopeType::Begin),
        ("k", VcdScopeType::Fork),
    ];
    assert_eq!(m.get_items_size(), expected.len());
    for (i, (name, kind)) in expected.iter().enumerate() {
        let child = m.get_items_data(i).unwrap().get_scope().unwrap();
        assert_eq!(child.get_identifier(), *name);
        assert_eq!(child.get_scope_type(), *kind);
        assert_eq!(child.get_items_size(), 0);
    }
}

#[test]
fn parse_reads_each_variable_kind() {
    let kinds = [
        ("event", VcdVarType::Event),
        ("integer", VcdVarType::Integer),
        ("parameter", VcdVarType::Parameter),
        ("real", VcdVarType::Real),
        ("reg", VcdVarType::Reg),
        ("supply0", VcdVarType::Supply0),
        ("supply1", VcdVarType::Supply1),
        ("time", VcdVarType::Time),
        ("tri", VcdVarType::Tri),
        ("triand", VcdVarType::TriAnd),
        ("trior", VcdVarType::TriOr),
        ("trireg", VcdVarType::TriReg),
        ("tri0", VcdVarType::Tri0),
        ("tri1", VcdVarType::Tri1),
        ("wand", VcdVarType::WAnd),
        ("wire", VcdVarType::Wire),
        ("wor", VcdVarType::WOr),
        ("string", VcdVarType::String),
    ];
    let mut text = String::from(HEAD);
    for (i, (name, _)) in kinds.iter().enumerate() {
        text.push_str(&format!("$var {} {} c{} sig{} $end\n", name, i + 1, i, i));
    }
    text.push_str("$enddefinitions $end\n");
    let header = parse(&text).unwrap().get_vcd_header();
    assert_eq!(header.get_items_size(), kinds.len());
    for (i, (_, kind)) in kinds.iter().enumerate() {
        let var = header.get_items_data(i).unwrap().get_var().unwrap();
        assert_eq!(var.get_var_type(), *kind);
        assert_eq!(var.get_size(), i as u32 + 1);
        assert_eq!(var.get_var_code(), format!("c{}", i));
        assert_eq!(var.get_reference(), format!("sig{}", i));
        assert_eq!(var.get_index_range(), None);
    }
}

#[test]
fn parse_reads_bit_selectors() {
    let text = with_head(
        "$scope module top $end\n\
         $var wire 1 ! bit [3] $end\n\
         $var wire 8 # bus [7:0] $end\n\
         $var wire 1 $ plain $end\n\
         $var wire 1 % low [0] $end\n\
         $upscope $end\n\
         $enddefinitions $end\n",
    );
    let header = parse(&text).unwrap().get_vcd_header();
    let top = header.get_items_data(0).unwrap().get_scope().unwrap();
    assert_eq!(top.get_items_size(), 4);

    let bit = top.get_items_data(0).unwrap().get_var().unwrap();
    assert_eq!(bit.get_reference(), "bit");
    assert_eq!(bit.get_var_code(), "!");
    assert_eq!(bit.get_index_range(), Some((3, 3)));

    let bus = top.get_items_data(1).unwrap().get_var().unwrap();
    assert_eq!(bus.get_size(), 8);
    assert_eq!(bus.get_index_range(), Some((7, 0)));
    assert_eq!(bus.get_index_range_begin(), Some(7));
    assert_eq!(bus.get_index_range_end(), Some(0));

    let plain = top.get_items_data(2).unwrap().get_var().unwrap();
    assert_eq!(plain.get_index_range(), None);
    assert_eq!(plain.get_index_range_begin(), None);
    assert_eq!(plain.get_index_range_end(), None);

    let low = top.get_items_data(3).unwrap().get_var().unwrap();
    assert_eq!(low.get_index_range(), Some((0, 0)));
}

#[test]
fn parse_passes_over_comments_among_the_declarations() {
    let text = with_head(
        "$comment at the top $end\n\
         $var wire 1 ! a $end\n\
         $scope module top $end\n\
         $comment inside $end\n\
         $var wire 1 # b $end\n\
         $upscope $end\n\
         $comment at the end $end\n\
         $enddefinitions $end\n",
    );
    let header = parse(&text).unwrap().get_vcd_header();
    assert_eq!(header.get_items_size(), 2);
    assert_eq!(header.get_items_data(0).unwrap().get_var().unwrap().get_reference(), "a");
    let top = header.get_items_data(1).unwrap().get_scope().unwrap();
    assert_eq!(top.get_items_size(), 1);
    assert_eq!(top.get_items_data(0).unwrap().get_var().unwrap().get_reference(), "b");
}

#[test]
fn parse_groups_each_value_domain() {
    let text = with_head(
        "$enddefinitions $end\n\
         #10\n\
         0!\n1\"\nx#\nz$\nX%\nZ&\n\
         b10xz '\n\
         B0 (\n\
         r1.5 )\n\
         r-2e3 *\n\
         sidle +\n\
         #25\n\
         bzzzz '\n",
    );
    let data = parse(&text).unwrap();
    assert_eq!(times(&data), vec![10, 25]);

    let first = data.get_vcd_signal_data(0).unwrap();
    let expected = [
        ("!", VcdValue::V0),
        ("\"", VcdValue::V1),
        ("#", VcdValue::X),
        ("$", VcdValue::Z),
        ("%", VcdValue::X),
        ("&", VcdValue::Z),
    ];
    assert_eq!(first.get_data_array_scalar_size(), expected.len());
    for (i, (code, value)) in expected.iter().enumerate() {
        assert_eq!(first.get_data_array_scalar_id_code(i), Ok(code.to_string()));
        assert_eq!(first.get_data_array_scalar_value(i), Ok(*value));
    }

    assert_eq!(first.get_data_array_vector_size(), 2);
    assert_eq!(first.get_data_array_vector_id_code(0), Ok("'".to_string()));
    assert_eq!(first.get_data_array_vector_value_size(0), Ok(4));
    assert_eq!(first.get_data_array_vector_value_data(0, 0), Ok(VcdValue::V1));
    assert_eq!(first.get_data_array_vector_value_data(0, 1), Ok(VcdValue::V0));
    assert_eq!(first.get_data_array_vector_value_data(0, 2), Ok(VcdValue::X));
    assert_eq!(first.get_data_array_vector_value_data(0, 3), Ok(VcdValue::Z));
    assert_eq!(first.get_data_array_vector_id_code(1), Ok("(".to_string()));
    assert_eq!(first.get_data_array_vector_value_size(1), Ok(1));
    assert_eq!(first.get_data_array_vector_value_data(1, 0), Ok(VcdValue::V0));

    assert_eq!(first.get_data_array_real_size(), 2);
    assert_eq!(first.get_data_array_real_id_code(0), Ok(")".to_string()));
    assert_eq!(first.get_data_array_real_value(0).map(f64::from_bits), Ok(1.5));
    assert_eq!(first.get_data_array_real_id_code(1), Ok("*".to_string()));
    assert_eq!(first.get_data_array_real_value(1).map(f64::from_bits), Ok(-2000.0));

    assert_eq!(first.get_data_array_string_size(), 1);
    assert_eq!(first.get_data_array_string_id_code(0), Ok("+".to_string()));
    assert_eq!(first.get_data_array_string_value(0), Ok("idle".to_string()));

    let second = data.get_vcd_signal_data(1).unwrap();
    assert_eq!(second.get_data_array_scalar_size(), 0);
    assert_eq!(second.get_data_array_vector_size(), 1);
    assert_eq!(second.get_data_array_vector_value_size(0), Ok(4));
    assert_eq!(second.get_data_array_vector_value_data(0, 3), Ok(VcdValue::Z));
}

#[test]
fn parse_keeps_long_identifier_codes() {
    let text = with_head("$var wire 1 ~!~ a $end\n$enddefinitions $end\n#1\n1~!~\n#2\n0n999999999\n");
    let data = parse(&text).unwrap();
    let code = data.get_vcd_header().get_items_data(0).unwrap().get_var().unwrap().get_var_code();
    assert_eq!(code, "~!~");
    let first = data.get_vcd_signal_data(0).unwrap();
    assert_eq!(first.get_data_array_scalar_id_code(0), Ok("~!~".to_string()));
    let second = data.get_vcd_signal_data(1).unwrap();
    assert_eq!(second.get_data_array_scalar_id_code(0), Ok("n999999999".to_string()));
}

#[test]
fn parse_lets_other_commands_pass() {
    let text = with_head(
        "$enddefinitions $end\n\
         #1\n\
         $dumpall\n1!\n$end\n\
         $comment in between $end\n\
         $dumpoff\n$end\n\
         #2\n\
         $dumpon\n$end\n\
         #3\n\
         0!\n",
    );
    let data = parse(&text).unwrap();
    assert_eq!(times(&data), vec![1, 3]);
}

#[test]
fn parse_puts_changes_before_the_first_timestamp_at_zero() {
    let text = with_head(
        "$var wire 1 ! a $end\n\
         $enddefinitions $end\n\
         $dumpvars\nx!\n$end\n\
         #0\n\
         1!\n\
         #7\n\
         0!\n",
    );
    let data = parse(&text).unwrap();
    assert_eq!(times(&data), vec![0, 0, 7]);
    assert_eq!(data.get_vcd_signal_data(0).unwrap().get_data_array_scalar_value(0), Ok(VcdValue::X));
    assert_eq!(data.get_vcd_signal_data(1).unwrap().get_data_array_scalar_value(0), Ok(VcdValue::V1));
}

#[test]
fn parse_drops_a_trailing_timestamp() {
    let text = with_head("$enddefinitions $end\n#4\n1!\n#10\n");
    let data = parse(&text).unwrap();
    assert_eq!(times(&data), vec![4]);

    let nothing = with_head("$enddefinitions $end\n#1\n#2\n#3\n");
    assert_eq!(parse(&nothing).unwrap().get_vcd_signal_size(), 0);

    let no_events = with_head("$enddefinitions $end\n");
    assert_eq!(parse(&no_events).unwrap().get_vcd_signal_size(), 0);
}

#[test]
fn parse_reads_the_largest_timestamp() {
    let text = with_head("$enddefinitions $end\n#18446744073709551615\n1!\n");
    assert_eq!(times(&parse(&text).unwrap()), vec![u64::MAX]);
}

#[test]
fn malformed_declarations_are_a_decode_error() {
    match parse("AAAAA") {
        Err(TraceError::Decode(error)) => {
            assert_eq!(error.kind(), std::io::ErrorKind::InvalidData);
            assert!(error.to_string().ends_with("at line 1"));
        },
        other => panic!("expected a decode error, got {:?}", other.map(|_| ())),
    }
    match parse("$date d $end\n$version v $end\n$bogus $end\n") {
        Err(TraceError::Decode(error)) => assert!(error.to_string().ends_with("at line 3")),
        other => panic!("expected a decode error, got {:?}", other.map(|_| ())),
    }
    match parse("") {
        Err(TraceError::Decode(error)) => {
            assert_eq!(error.kind(), std::io::ErrorKind::UnexpectedEof)
        },
        other => panic!("expected a decode error, got {:?}", other.map(|_| ())),
    }
    assert!(matches!(parse(HEAD), Err(TraceError::Decode(_))));
    assert!(matches!(
        parse(&with_head("$scope module open $end\n$enddefinitions $end\n")),
        Err(TraceError::Decode(_))
    ));
    assert!(matches!(
        parse(&with_head("$scope package p $end $upscope $end $enddefinitions $end\n")),
        Err(TraceError::Decode(_))
    ));
}

#[test]
fn metadata_rejection_by_parse() {
    let no_version = "$date d $end\n$timescale 1 ns $end\n$var wire 1 ! a $end\n$enddefinitions $end\n#1\n1!\n";
    assert!(matches!(parse(no_version), Err(TraceError::MissingMetadata)));
    let no_date = "$version v $end\n$timescale 1 ns $end\n$enddefinitions $end\n";
    assert!(matches!(parse(no_date), Err(TraceError::MissingMetadata)));
    let no_timescale = "$date d $end\n$version v $end\n$enddefinitions $end\n";
    assert!(matches!(parse(no_timescale), Err(TraceError::MissingMetadata)));
    assert!(matches!(parse("$enddefinitions $end\n"), Err(TraceError::MissingMetadata)));
}

#[test]
fn malformed_events_are_a_stream_decode_error() {
    let text = with_head("$enddefinitions $end\n#1\n1!\n?\n#2\n0!\n");
    match parse(&text) {
        Err(TraceError::StreamDecode(error)) => {
            assert_eq!(error.kind(), std::io::ErrorKind::InvalidData);
            assert!(error.to_string().ends_with("at line 7"));
        },
        other => panic!("expected a stream error, got {:?}", other.map(|_| ())),
    }
    assert!(matches!(
        parse(&with_head("$enddefinitions $end\n#1\nb102 !\n")),
        Err(TraceError::StreamDecode(_))
    ));
    assert!(matches!(
        parse(&with_head("$enddefinitions $end\n#notanumber\n")),
        Err(TraceError::StreamDecode(_))
    ));
    assert!(matches!(
        parse(&with_head("$enddefinitions $end\n#1\n$end\n")),
        Err(TraceError::StreamDecode(_))
    ));
}

#[test]
fn the_earliest_failure_is_the_one_reported() {
    let bad_head_and_body = "$date d $end\n$oops $end\n$enddefinitions $end\n?\n";
    assert!(matches!(parse(bad_head_and_body), Err(TraceError::Decode(_))));
    let no_version_and_bad_body = "$date d $end\n$timescale 1 ns $end\n$enddefinitions $end\n?\n";
    assert!(matches!(parse(no_version_and_bad_body), Err(TraceError::MissingMetadata)));
}
