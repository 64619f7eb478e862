use ignis::lexer::{Token, TokenKind};
use ignis::parser::{is_kind, Kinded};
use ignis::parser::lookup::LookupTable;
use ignis::parser::pratt::{BindingPower, NudHandler, PrattLookups, LedHandler, StmtHandler};

#[test]
fn kind_ignores_payload() {
    assert_eq!(Token::Integer(0).kind(), TokenKind::Integer);
    assert_eq!(Token::Integer(42).kind(), TokenKind::Integer);
    assert_eq!(Token::Identifier("a".to_string()).kind(), TokenKind::Identifier);
    assert_eq!(Token::String("s".to_string()).kind(), TokenKind::String);
    assert_eq!(Token::Decimel(1.5f64.to_bits()).kind(), TokenKind::Decimel);
    assert_eq!(Token::EOF.kind(), TokenKind::EOF);
}

#[test]
fn is_kind_compares_kinds_only() {
    assert!(is_kind(Token::Integer(0), Token::Integer(42)));
    assert!(is_kind(Token::Identifier(String::new()), Token::Identifier("x".to_string())));
    assert!(!is_kind(Token::Integer(0), Token::Decimel(0)));
    assert!(!is_kind(Token::Plus, Token::Minus));
    assert!(is_kind(Token::Plus, Token::Plus));
    // Kinds themselves carry nothing.
    assert!(is_kind(TokenKind::Integer, TokenKind::Integer));
    assert!(!is_kind(TokenKind::Integer, TokenKind::Decimel));
    assert!(Token::Integer(-7).is_of_kind(&Token::Integer(7)));
    assert!(!Token::True.is_of_kind(&Token::False));
}

#[test]
fn table_entry_for_integer_is_found_for_every_integer() {
    let mut table: LookupTable<u32> = LookupTable::new();
    table.insert(Token::Integer(0), 7);
    assert_eq!(table.get(&Token::Integer(42)), Some(&7));
    assert_eq!(table.get(&Token::Integer(-7)), Some(&7));
    assert_eq!(table.get(&Token::Integer(0)), Some(&7));
    assert_eq!(table.get(&Token::Decimel(0)), None);
    assert_eq!(table.get(&Token::Identifier("x".to_string())), None);
}

#[test]
fn table_insert_replaces_entry_of_same_kind() {
    let mut table: LookupTable<u32> = LookupTable::new();
    table.insert(Token::Identifier("a".to_string()), 1);
    table.insert(Token::Plus, 2);
    table.insert(Token::Identifier("b".to_string()), 3);
    assert_eq!(table.get(&Token::Identifier("zzz".to_string())), Some(&3));
    assert_eq!(table.get(&Token::Plus), Some(&2));
    assert_eq!(table.get(&Token::Minus), None);
}

#[test]
fn table_get_mut_changes_the_entry() {
    let mut table: LookupTable<u32> = LookupTable::new();
    table.insert(Token::String(String::new()), 1);
    if let Some(v) = table.get_mut(&Token::String("other".to_string())) {
        *v = 9;
    } else {
        panic!("entry not found");
    }
    assert_eq!(table.get(&Token::String("x".to_string())), Some(&9));
    assert!(table.get_mut(&Token::Comma).is_none());
}

#[test]
fn binding_powers_are_strictly_ordered() {
    let order = vec![
        BindingPower::Default,
        BindingPower::Comma,
        BindingPower::Assignment,
        BindingPower::Logical,
        BindingPower::Relational,
        BindingPower::Additive,
        BindingPower::Multiplicative,
        BindingPower::Unary,
        BindingPower::Call,
        BindingPower::Member,
        BindingPower::Primary,
    ];
    for (i, p) in order.iter().enumerate() {
        assert_eq!(p.level(), i);
    }
}

#[test]
fn led_registers_the_binding_power_too() {
    let mut lu: PrattLookups<NudHandler, LedHandler, StmtHandler> = PrattLookups::new();
    assert_eq!(lu.get_bp(&Token::Plus), None);
    lu.led(Token::Plus, BindingPower::Additive, LedHandler::Binary);
    assert_eq!(lu.get_led(&Token::Plus), Some(&LedHandler::Binary));
    assert_eq!(lu.get_bp(&Token::Plus), Some(&BindingPower::Additive));
    assert_eq!(lu.get_nud(&Token::Plus), None);
    assert_eq!(lu.get_stmt(&Token::Plus), None);
}

#[test]
fn stmt_registers_the_lowest_binding_power() {
    let mut lu: PrattLookups<NudHandler, LedHandler, StmtHandler> = PrattLookups::new();
    lu.stmt(Token::Return, StmtHandler::Return);
    assert_eq!(lu.get_stmt(&Token::Return), Some(&StmtHandler::Return));
    assert_eq!(lu.get_bp(&Token::Return), Some(&BindingPower::Default));
}

#[test]
fn nud_registers_no_binding_power() {
    let mut lu: PrattLookups<NudHandler, LedHandler, StmtHandler> = PrattLookups::new();
    lu.nud(Token::Integer(0), NudHandler::Primary);
    assert_eq!(lu.get_nud(&Token::Integer(99)), Some(&NudHandler::Primary));
    assert_eq!(lu.get_bp(&Token::Integer(99)), None);
}
