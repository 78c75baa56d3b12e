use vcd_model::get_vcd_header;
use vcd_model::get_vcd_scope;
use vcd_model::get_vcd_scope_item;
use vcd_model::get_vcd_scope_items;
use vcd_model::get_vcd_var;
use vcd_model::RawHeader;
use vcd_model::RawIndex;
use vcd_model::RawScope;
use vcd_model::RawScopeItem;
use vcd_model::RawVar;
use vcd_model::TraceError;
use vcd_model::VcdScopeItem;
use vcd_model::VcdScopeType;
use vcd_model::VcdTimescaleUnit;
use vcd_model::VcdVarType;

fn var(reference: &str, index: Option<RawIndex>) -> RawVar {
    RawVar {
        var_type: VcdVarType::Wire,
        size: 1,
        code: "!".to_string(),
        reference: reference.to_string(),
        index,
    }
}

fn scope(scope_type: VcdScopeType, identifier: &str, items: Vec<RawScopeItem>) -> RawScope {
    RawScope { scope_type, identifier: identifier.to_string(), items }
}

fn header(items: Vec<RawScopeItem>) -> RawHeader {
    RawHeader {
        date: Some("a date".to_string()),
        version: Some("a version".to_string()),
        timescale: Some((10, VcdTimescaleUnit::PS)),
        items,
    }
}

fn name(entry: &VcdScopeItem) -> String {
    match entry {
        VcdScopeItem::Scope(s) => s.get_identifier(),
        VcdScopeItem::Var(v) => v.get_reference(),
    }
}

#[test]
fn index_range_fidelity() {
    let selected = get_vcd_var(&var("bit", Some(RawIndex::BitSelect(3))));
    assert_eq!(selected.get_index_range(), Some((3, 3)));
    assert_eq!(selected.get_index_range_begin(), Some(3));
    assert_eq!(selected.get_index_range_end(), Some(3));

    let plain = get_vcd_var(&var("plain", None));
    assert_eq!(plain.get_index_range(), None);
    assert_ne!(plain.get_index_range(), Some((0, 0)));
    assert_eq!(plain.get_index_range_begin(), None);
    assert_eq!(plain.get_index_range_end(), None);

    let zero = get_vcd_var(&var("zero", Some(RawIndex::BitSelect(0))));
    assert_eq!(zero.get_index_range(), Some((0, 0)));

    let slice = get_vcd_var(&var("slice", Some(RawIndex::Range(7, -2))));
    assert_eq!(slice.get_index_range(), Some((7, -2)));
    assert_eq!(slice.get_index_range_begin(), Some(7));
    assert_eq!(slice.get_index_range_end(), Some(-2));
}

#[test]
fn variable_fields_are_carried_over() {
    let built = get_vcd_var(&RawVar {
        var_type: VcdVarType::TriReg,
        size: 4_000_000_000,
        code: "#$".to_string(),
        reference: "bus".to_string(),
        index: None,
    });
    assert_eq!(built.get_var_type(), VcdVarType::TriReg);
    assert_eq!(built.get_size(), 4_000_000_000);
    assert_eq!(built.get_var_code(), "#$");
    assert_eq!(built.get_reference(), "bus");
}

#[test]
fn tree_order_preservation() {
    let items = vec![
        RawScopeItem::Comment("first".to_string()),
        RawScopeItem::Var(var("a", None)),
        RawScopeItem::Scope(scope(
            VcdScopeType::Module,
            "b",
            vec![
                RawScopeItem::Var(var("b1", None)),
                RawScopeItem::Comment("inside".to_string()),
                RawScopeItem::Scope(scope(VcdScopeType::Task, "b2", vec![])),
                RawScopeItem::Other,
                RawScopeItem::Var(var("b3", None)),
            ],
        )),
        RawScopeItem::Other,
        RawScopeItem::Var(var("c", None)),
        RawScopeItem::Comment("last".to_string()),
        RawScopeItem::Scope(scope(VcdScopeType::Fork, "d", vec![])),
    ];
    let built = get_vcd_header(header(items)).unwrap();

    assert_eq!(built.get_items_size(), 4);
    let top: Vec<String> = (0..4).map(|i| name(&built.get_items_data(i).unwrap())).collect();
    assert_eq!(top, vec!["a", "b", "c", "d"]);
    assert!(built.get_items_data(0).unwrap().get_var().is_some());
    assert!(built.get_items_data(0).unwrap().get_scope().is_none());
    assert!(built.get_items_data(3).unwrap().get_scope().is_some());
    assert!(built.get_items_data(3).unwrap().get_var().is_none());

    let b = built.get_items_data(1).unwrap().get_scope().unwrap();
    assert_eq!(b.get_scope_type(), VcdScopeType::Module);
    assert_eq!(b.get_items_size(), 3);
    let inner: Vec<String> = (0..3).map(|i| name(&b.get_items_data(i).unwrap())).collect();
    assert_eq!(inner, vec!["b1", "b2", "b3"]);
    let b2 = b.get_items_data(1).unwrap().get_scope().unwrap();
    assert_eq!(b2.get_scope_type(), VcdScopeType::Task);
    assert_eq!(b2.get_items_size(), 0);
}

#[test]
fn header_metadata_is_carried_over() {
    let built = get_vcd_header(header(vec![])).unwrap();
    assert_eq!(built.get_date(), "a date");
    assert_eq!(built.get_version(), "a version");
    assert_eq!(built.get_timescale_value(), 10);
    assert_eq!(built.get_timescale_unit(), VcdTimescaleUnit::PS);
    assert_eq!(built.get_items_size(), 0);
}

#[test]
fn metadata_rejection() {
    let mut missing_version = header(vec![RawScopeItem::Var(var("a", None))]);
    missing_version.version = None;
    assert!(matches!(get_vcd_header(missing_version), Err(TraceError::MissingMetadata)));

    let mut missing_date = header(vec![]);
    missing_date.date = None;
    assert!(matches!(get_vcd_header(missing_date), Err(TraceError::MissingMetadata)));

    let mut missing_timescale = header(vec![]);
    missing_timescale.timescale = None;
    assert!(matches!(get_vcd_header(missing_timescale), Err(TraceError::MissingMetadata)));

    let nothing = RawHeader { date: None, version: None, timescale: None, items: vec![] };
    assert!(matches!(get_vcd_header(nothing), Err(TraceError::MissingMetadata)));
}

#[test]
fn empty_metadata_is_metadata() {
    let built = get_vcd_header(RawHeader {
        date: Some(String::new()),
        version: Some(String::new()),
        timescale: Some((0, VcdTimescaleUnit::S)),
        items: vec![],
    })
    .unwrap();
    assert_eq!(built.get_date(), "");
    assert_eq!(built.get_version(), "");
    assert_eq!(built.get_timescale_value(), 0);
}

#[test]
fn unknown_scope_kind_tolerance() {
    let items = vec![RawScopeItem::Scope(scope(
        VcdScopeType::Other,
        "generated",
        vec![RawScopeItem::Var(RawVar {
            var_type: VcdVarType::Other,
            size: 2,
            code: "%".to_string(),
            reference: "odd".to_string(),
            index: None,
        })],
    ))];
    let built = get_vcd_header(header(items)).unwrap();
    let odd = built.get_items_data(0).unwrap().get_scope().unwrap();
    assert_eq!(odd.get_scope_type(), VcdScopeType::Other);
    assert_eq!(odd.get_identifier(), "generated");
    let inside = odd.get_items_data(0).unwrap().get_var().unwrap();
    assert_eq!(inside.get_var_type(), VcdVarType::Other);
    assert_eq!(inside.get_reference(), "odd");
}

#[test]
fn comments_and_unknown_nodes_give_no_entry() {
    assert!(get_vcd_scope_item(&RawScopeItem::Comment("text".to_string())).is_none());
    assert!(get_vcd_scope_item(&RawScopeItem::Other).is_none());
    assert!(get_vcd_scope_item(&RawScopeItem::Var(var("a", None))).is_some());
    assert!(get_vcd_scope_item(&RawScopeItem::Scope(scope(VcdScopeType::Begin, "s", vec![])))
        .is_some());

    let only_noise = vec![
        RawScopeItem::Comment("one".to_string()),
        RawScopeItem::Other,
        RawScopeItem::Comment("two".to_string()),
    ];
    assert_eq!(get_vcd_scope_items(&only_noise).len(), 0);
    assert_eq!(get_vcd_scope_items(&vec![]).len(), 0);
}

#[test]
fn deep_nesting_is_followed_to_the_bottom() {
    let depth = 300;
    let mut inner = scope(VcdScopeType::Begin, "level0", vec![RawScopeItem::Var(var("leaf", None))]);
    for level in 1..depth {
        inner = scope(
            VcdScopeType::Begin,
            &format!("level{}", level),
            vec![RawScopeItem::Scope(inner)],
        );
    }
    let mut current = get_vcd_scope(&inner);
    for level in (1..depth).rev() {
        assert_eq!(current.get_identifier(), format!("level{}", level));
        assert_eq!(current.get_items_size(), 1);
        current = current.get_items_data(0).unwrap().get_scope().unwrap();
    }
    assert_eq!(current.get_identifier(), "level0");
    assert_eq!(current.get_items_data(0).unwrap().get_var().unwrap().get_reference(), "leaf");
}
