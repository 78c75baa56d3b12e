use vcd_model::aggregate;
use vcd_model::get_vcd_header;
use vcd_model::parse;
use vcd_model::IndexOutOfRange;
use vcd_model::RawEvent;
use vcd_model::RawHeader;
use vcd_model::RawScope;
use vcd_model::RawScopeItem;
use vcd_model::SignalDataReal;
use vcd_model::SignalDataScalar;
use vcd_model::SignalDataString;
use vcd_model::SignalDataVector;
use vcd_model::VcdScopeType;
use vcd_model::VcdTimescaleUnit;
use vcd_model::VcdValue;

fn out_of_range<T>(index: usize, len: usize) -> Result<T, IndexOutOfRange> {
    Err(IndexOutOfRange { index, len })
}

#[test]
fn single_changes_hand_back_what_they_were_made_of() {
    let scalar = SignalDataScalar::new("a".to_string(), VcdValue::Z);
    assert_eq!(scalar.get_id_code(), "a");
    assert_eq!(scalar.get_value(), VcdValue::Z);

    let vector = SignalDataVector::new("b".to_string(), vec![VcdValue::V1, VcdValue::X]);
    assert_eq!(vector.get_id_code(), "b");
    assert_eq!(vector.get_value_size(), 2);
    assert_eq!(vector.get_value_data(0), Ok(VcdValue::V1));
    assert_eq!(vector.get_value_data(1), Ok(VcdValue::X));
    assert_eq!(vector.get_value_data(2), out_of_range(2, 2));
    assert_eq!(vector.get_value_data(usize::MAX), out_of_range(usize::MAX, 2));

    let real = SignalDataReal::new("c".to_string(), 3.25f64.to_bits());
    assert_eq!(real.get_id_code(), "c");
    assert_eq!(f64::from_bits(real.get_value()), 3.25);

    let string = SignalDataString::new("d".to_string(), "text".to_string());
    assert_eq!(string.get_id_code(), "d");
    assert_eq!(string.get_value(), "text");
}

#[test]
fn clones_hold_the_same_values() {
    let vector = SignalDataVector::new("b".to_string(), vec![VcdValue::V1, VcdValue::X]);
    let copy = vector.clone();
    assert_eq!(copy.get_id_code(), "b");
    assert_eq!(copy.get_value_size(), 2);
    assert_eq!(copy.get_value_data(1), Ok(VcdValue::X));
}

#[test]
fn bucket_accessors_check_their_index() {
    let timeline = aggregate(vec![
        RawEvent::Timestamp(1),
        RawEvent::ChangeScalar("a".to_string(), VcdValue::V1),
        RawEvent::ChangeVector("b".to_string(), vec![VcdValue::V0, VcdValue::V1]),
        RawEvent::ChangeReal("c".to_string(), 1.5f64.to_bits()),
        RawEvent::ChangeString("d".to_string(), "on".to_string()),
    ]);
    let bucket = &timeline[0];

    assert_eq!(bucket.get_data_array_scalar_size(), 1);
    assert_eq!(bucket.get_data_array_scalar_id_code(0), Ok("a".to_string()));
    assert_eq!(bucket.get_data_array_scalar_id_code(1), out_of_range(1, 1));
    assert_eq!(bucket.get_data_array_scalar_value(0), Ok(VcdValue::V1));
    assert_eq!(bucket.get_data_array_scalar_value(5), out_of_range(5, 1));

    assert_eq!(bucket.get_data_array_vector_size(), 1);
    assert_eq!(bucket.get_data_array_vector_id_code(0), Ok("b".to_string()));
    assert_eq!(bucket.get_data_array_vector_id_code(1), out_of_range(1, 1));
    assert_eq!(bucket.get_data_array_vector_value_size(0), Ok(2));
    assert_eq!(bucket.get_data_array_vector_value_size(1), out_of_range(1, 1));
    assert_eq!(bucket.get_data_array_vector_value_data(0, 1), Ok(VcdValue::V1));
    assert_eq!(bucket.get_data_array_vector_value_data(0, 2), out_of_range(2, 2));
    assert_eq!(bucket.get_data_array_vector_value_data(3, 0), out_of_range(3, 1));
    assert_eq!(bucket.get_data_array_vector_value_data(3, 9), out_of_range(3, 1));

    assert_eq!(bucket.get_data_array_real_size(), 1);
    assert_eq!(bucket.get_data_array_real_id_code(0), Ok("c".to_string()));
    assert_eq!(bucket.get_data_array_real_id_code(1), out_of_range(1, 1));
    assert_eq!(bucket.get_data_array_real_value(0), Ok(1.5f64.to_bits()));
    assert_eq!(bucket.get_data_array_real_value(1), out_of_range(1, 1));

    assert_eq!(bucket.get_data_array_string_size(), 1);
    assert_eq!(bucket.get_data_array_string_id_code(0), Ok("d".to_string()));
    assert_eq!(bucket.get_data_array_string_id_code(1), out_of_range(1, 1));
    assert_eq!(bucket.get_data_array_string_value(0), Ok("on".to_string()));
    assert_eq!(bucket.get_data_array_string_value(1), out_of_range(1, 1));
}

#[test]
fn empty_sequences_have_no_element() {
    let timeline = aggregate(vec![RawEvent::ChangeScalar("a".to_string(), VcdValue::V1)]);
    let bucket = &timeline[0];
    assert_eq!(bucket.get_data_array_vector_id_code(0), out_of_range(0, 0));
    assert_eq!(bucket.get_data_array_vector_value_size(0), out_of_range(0, 0));
    assert_eq!(bucket.get_data_array_vector_value_data(0, 0), out_of_range(0, 0));
    assert_eq!(bucket.get_data_array_real_id_code(0), out_of_range(0, 0));
    assert_eq!(bucket.get_data_array_real_value(0), out_of_range(0, 0));
    assert_eq!(bucket.get_data_array_string_id_code(0), out_of_range(0, 0));
    assert_eq!(bucket.get_data_array_string_value(0), out_of_range(0, 0));
}

#[test]
fn tree_accessors_check_their_index() {
    let header = get_vcd_header(RawHeader {
        date: Some("d".to_string()),
        version: Some("v".to_string()),
        timescale: Some((1, VcdTimescaleUnit::US)),
        items: vec![RawScopeItem::Scope(RawScope {
            scope_type: VcdScopeType::Function,
            identifier: "f".to_string(),
            items: vec![],
        })],
    })
    .unwrap();
    assert_eq!(header.get_items_size(), 1);
    assert!(header.get_items_data(0).is_ok());
    assert_eq!(header.get_items_data(1).err(), Some(IndexOutOfRange { index: 1, len: 1 }));

    let scope = header.get_items_data(0).unwrap().get_scope().unwrap();
    assert_eq!(scope.get_items_size(), 0);
    assert_eq!(scope.get_items_data(0).err(), Some(IndexOutOfRange { index: 0, len: 0 }));
}

#[test]
fn timeline_accessors_check_their_index() {
    let text = "$date d $end $version v $end $timescale 1 fs $end $enddefinitions $end #1 1! #2 0!\n";
    let data = parse(text).unwrap();
    assert_eq!(data.get_vcd_signal_size(), 2);
    assert_eq!(data.get_vcd_signal_data(1).unwrap().get_time(), 2);
    assert_eq!(data.get_vcd_signal_data(2).err(), Some(IndexOutOfRange { index: 2, len: 2 }));
    assert_eq!(data.get_vcd_header().get_timescale_unit(), VcdTimescaleUnit::FS);
}
