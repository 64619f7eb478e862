use ignis::compiler::ir::{IrType, IrValue, TypeKind};
use ignis::compiler::namegen::{gen_id, gen_id_post, gen_id_pre, gen_id_prepost, id_post, id_pre, id_prepost};
use ignis::compiler::scope::{IGScope, NameTable};
use ignis::compiler::value::IGValue;

fn slot(id: usize) -> IrValue {
    IrValue::Inst { id, kind: TypeKind::Pointer }
}

#[test]
fn name_table_keeps_the_order_of_first_binding() {
    let mut table: NameTable<usize> = NameTable::new();
    assert_eq!(table.len(), 0);
    table.insert("b".to_string(), 1);
    table.insert("a".to_string(), 2);
    table.insert("b".to_string(), 3);
    assert_eq!(table.len(), 2);
    assert_eq!(table.name_at(0), "b");
    assert_eq!(table.value_at(0), &3);
    assert_eq!(table.name_at(1), "a");
    assert_eq!(table.value_at(1), &2);
    assert_eq!(table.get(&"a".to_string()), Some(&2));
    assert_eq!(table.get(&"b".to_string()), Some(&3));
    assert_eq!(table.get(&"c".to_string()), None);
    assert!(table.contains_key(&"a".to_string()));
    assert!(!table.contains_key(&"".to_string()));
}

#[test]
fn scope_defines_and_resolves() {
    let mut scope = IGScope::new(None, None, None, None);
    assert_eq!(scope.resolve("x".to_string()), None);
    assert_eq!(scope.define("x".to_string(), slot(1), IrType::Int(32), true, false), slot(1));
    assert_eq!(
        scope.resolve("x".to_string()),
        Some(&IGValue { value: slot(1), _type: IrType::Int(32), mutable: true, public: false, parent: None })
    );
    assert_eq!(
        scope.define_struct("p".to_string(), slot(2), IrType::Struct(7), false, true, "Point".to_string()),
        slot(2)
    );
    assert_eq!(
        scope.resolve("p".to_string()),
        Some(&IGValue {
            value: slot(2),
            _type: IrType::Struct(7),
            mutable: false,
            public: true,
            parent: Some("Point".to_string()),
        })
    );
    scope.define_type("Point".to_string(), IrType::Struct(7), false, true);
    assert_eq!(
        scope.resolve("Point".to_string()),
        Some(&IGValue { value: IrValue::Sentinel, _type: IrType::Struct(7), mutable: false, public: true, parent: None })
    );
    scope.define_field("Point.x".to_string(), 0);
    scope.define_field("Point.y".to_string(), 1);
    assert_eq!(scope.resolve_field("Point.x".to_string()), Some(&0));
    assert_eq!(scope.resolve_field("Point.y".to_string()), Some(&1));
    assert_eq!(scope.resolve_field("Point.z".to_string()), None);
    assert!(scope.declares(&"x".to_string()));
    assert!(!scope.declares(&"y".to_string()));
}

#[test]
fn scope_starts_with_the_tables_it_is_given() {
    let mut symbols: NameTable<IGValue> = NameTable::new();
    symbols.insert("x".to_string(), IGValue::new(slot(1), IrType::Float));
    let mut fields: NameTable<usize> = NameTable::new();
    fields.insert("P.a".to_string(), 4);
    let scope = IGScope::new(Some(symbols), Some(fields), Some("f".to_string()), None);
    assert_eq!(scope.resolve("x".to_string()), Some(&IGValue::new(slot(1), IrType::Float)));
    assert_eq!(scope.resolve_field("P.a".to_string()), Some(&4));
    assert_eq!(scope.name, Some("f".to_string()));
    assert!(scope.into_parent().is_none());
}

#[test]
fn child_binding_shadows_the_parent_until_the_child_is_given_up() {
    let mut outer = IGScope::new(None, None, None, None);
    outer.define("x".to_string(), slot(1), IrType::Int(32), true, true);
    outer.define("y".to_string(), slot(2), IrType::Int(32), true, true);
    outer.define_field("P.a".to_string(), 0);
    let mut inner = IGScope::new(None, None, Some("f".to_string()), Some(Box::new(outer)));
    // Lookup goes through to the parent.
    assert_eq!(inner.resolve("x".to_string()).unwrap().value, slot(1));
    assert_eq!(inner.resolve_field("P.a".to_string()), Some(&0));
    assert!(!inner.declares(&"x".to_string()));
    // A binding in the child hides the one of the parent.
    inner.define("x".to_string(), slot(9), IrType::Float, false, true);
    inner.define_field("P.a".to_string(), 5);
    assert_eq!(
        inner.resolve("x".to_string()),
        Some(&IGValue { value: slot(9), _type: IrType::Float, mutable: false, public: true, parent: None })
    );
    assert_eq!(inner.resolve_field("P.a".to_string()), Some(&5));
    assert_eq!(inner.resolve("y".to_string()).unwrap().value, slot(2));
    // Once the child is given up, the parent is as it was.
    let outer = inner.into_parent().unwrap();
    assert_eq!(
        outer.resolve("x".to_string()),
        Some(&IGValue { value: slot(1), _type: IrType::Int(32), mutable: true, public: true, parent: None })
    );
    assert_eq!(outer.resolve_field("P.a".to_string()), Some(&0));
    assert_eq!(outer.symbols.len(), 2);
}

#[test]
fn identifiers_are_made_of_the_timestamp_and_the_random_number() {
    // The identifier is the number `timestamp << 20 | random`, printed
    // as the unpadded URL-safe base 64 of its 8 bytes.
    assert_eq!(gen_id(0, 0), "AAAAAAAAAAA");
    assert_eq!(gen_id(1, 1), "AAAAAAAQAAE");
    assert_eq!(gen_id(0, 0xFFFFF), "AAAAAAAP__8");
    assert_ne!(gen_id(1, 0), gen_id(0, 1));
    let allowed = |c: char| c.is_ascii_alphanumeric() || c == '-' || c == '_';
    for (timestamp, random) in [(0u64, 0u64), (1_700_000_000_000, 123_456), (u64::MAX, u64::MAX), (5, 1 << 50)] {
        let id = gen_id(timestamp, random);
        assert_eq!(id.chars().count(), 11);
        assert!(id.chars().all(allowed));
    }
    assert_eq!(gen_id_pre("while_inside".to_string(), 1, 1), "while_inside_AAAAAAAQAAE");
    assert_eq!(gen_id_post("tail".to_string(), 1, 1), "AAAAAAAQAAE_tail");
    assert_eq!(
        gen_id_prepost("main".to_string(), "ignis_entry".to_string(), 0, 0),
        "main_AAAAAAAAAAA_ignis_entry"
    );
}

#[test]
fn copy_of_a_scope_is_a_scope_of_its_own() {
    let mut outer = IGScope::new(None, None, None, None);
    outer.define("x".to_string(), slot(1), IrType::Int(32), true, true);
    outer.define_field("P.a".to_string(), 0);
    let mut inner = IGScope::new(None, None, Some("f".to_string()), Some(Box::new(outer)));
    inner.define_struct("p".to_string(), slot(2), IrType::Struct(7), true, true, "P".to_string());
    let mut copy = inner.clone();
    // The copy holds what the scope holds, the scopes around it included.
    assert_eq!(copy.symbols.len(), 1);
    assert_eq!(copy.resolve("p".to_string()), inner.resolve("p".to_string()));
    assert_eq!(copy.resolve("p".to_string()).unwrap().parent, Some("P".to_string()));
    assert_eq!(copy.resolve("x".to_string()).unwrap().value, slot(1));
    assert_eq!(copy.resolve_field("P.a".to_string()), Some(&0));
    assert_eq!(copy.name, Some("f".to_string()));
    // What is bound in the copy is not bound in the scope.
    copy.define("y".to_string(), slot(3), IrType::Float, false, false);
    copy.define_field("P.b".to_string(), 1);
    assert!(copy.declares(&"y".to_string()));
    assert!(!inner.declares(&"y".to_string()));
    assert_eq!(inner.resolve("y".to_string()), None);
    assert_eq!(inner.resolve_field("P.b".to_string()), None);
    let around = copy.into_parent().unwrap();
    assert_eq!(around.symbols.len(), 1);
    assert_eq!(around.resolve("x".to_string()).unwrap().value, slot(1));
    assert_eq!(around.resolve("p".to_string()), None);
}

#[test]
fn names_are_joined_by_underscores() {
    let uid = "AbCdEfGhIjK".to_string();
    assert_eq!(id_pre(&"op".to_string(), &uid), "op_AbCdEfGhIjK");
    assert_eq!(id_post(&uid, &"x".to_string()), "AbCdEfGhIjK_x");
    assert_eq!(id_prepost(&"f".to_string(), &uid, &"entry".to_string()), "f_AbCdEfGhIjK_entry");
    assert_eq!(id_pre(&String::new(), &String::new()), "_");
}
