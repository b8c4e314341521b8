use lyken::dart::ast::{BinOp, BoolBinOp, ValueBinOp};

fn all_spellings() -> Vec<(BinOp, &'static str)> {
    vec![
        (BinOp::Bool(BoolBinOp::Or), "||"),
        (BinOp::Bool(BoolBinOp::And), "&&"),
        (BinOp::Bool(BoolBinOp::Eq), "=="),
        (BinOp::Bool(BoolBinOp::Ne), "!="),
        (BinOp::Bool(BoolBinOp::Ge), ">="),
        (BinOp::Bool(BoolBinOp::Gt), ">"),
        (BinOp::Bool(BoolBinOp::Le), "<="),
        (BinOp::Bool(BoolBinOp::Lt), "<"),
        (BinOp::Value(ValueBinOp::IfNull), "??"),
        (BinOp::Value(ValueBinOp::Add), "+"),
        (BinOp::Value(ValueBinOp::Sub), "-"),
        (BinOp::Value(ValueBinOp::Mul), "*"),
        (BinOp::Value(ValueBinOp::Div), "/"),
        (BinOp::Value(ValueBinOp::Mod), "%"),
        (BinOp::Value(ValueBinOp::TruncDiv), "~/"),
        (BinOp::Value(ValueBinOp::Lsh), "<<"),
        (BinOp::Value(ValueBinOp::Rsh), ">>"),
        (BinOp::Value(ValueBinOp::BitAnd), "&"),
        (BinOp::Value(ValueBinOp::BitXor), "^"),
        (BinOp::Value(ValueBinOp::BitOr), "|"),
        (BinOp::Assign(Some(ValueBinOp::IfNull)), "??="),
        (BinOp::Assign(Some(ValueBinOp::Add)), "+="),
        (BinOp::Assign(Some(ValueBinOp::Sub)), "-="),
        (BinOp::Assign(Some(ValueBinOp::Mul)), "*="),
        (BinOp::Assign(Some(ValueBinOp::Div)), "/="),
        (BinOp::Assign(Some(ValueBinOp::Mod)), "%="),
        (BinOp::Assign(Some(ValueBinOp::TruncDiv)), "~/="),
        (BinOp::Assign(Some(ValueBinOp::Lsh)), "<<="),
        (BinOp::Assign(Some(ValueBinOp::Rsh)), ">>="),
        (BinOp::Assign(Some(ValueBinOp::BitAnd)), "&="),
        (BinOp::Assign(Some(ValueBinOp::BitXor)), "^="),
        (BinOp::Assign(Some(ValueBinOp::BitOr)), "|="),
        (BinOp::Assign(None), "="),
    ]
}

#[test]
fn bool_operators_come_in_declaration_order() {
    assert_eq!(
        BoolBinOp::values(),
        vec![
            BoolBinOp::Or,
            BoolBinOp::And,
            BoolBinOp::Eq,
            BoolBinOp::Ne,
            BoolBinOp::Ge,
            BoolBinOp::Gt,
            BoolBinOp::Le,
            BoolBinOp::Lt,
        ]
    );
}

#[test]
fn value_operators_come_in_declaration_order() {
    assert_eq!(
        ValueBinOp::values(),
        vec![
            ValueBinOp::IfNull,
            ValueBinOp::Add,
            ValueBinOp::Sub,
            ValueBinOp::Mul,
            ValueBinOp::Div,
            ValueBinOp::Mod,
            ValueBinOp::TruncDiv,
            ValueBinOp::Lsh,
            ValueBinOp::Rsh,
            ValueBinOp::BitAnd,
            ValueBinOp::BitXor,
            ValueBinOp::BitOr,
        ]
    );
}

#[test]
fn values_can_be_asked_for_again() {
    assert_eq!(BoolBinOp::values(), BoolBinOp::values());
    assert_eq!(ValueBinOp::values(), ValueBinOp::values());
    assert_eq!(BinOp::values(), BinOp::values());
}

#[test]
fn position_past_the_last_operator_is_empty() {
    assert_eq!(BoolBinOp::from_usize(0), Some(BoolBinOp::Or));
    assert_eq!(BoolBinOp::from_usize(7), Some(BoolBinOp::Lt));
    assert_eq!(BoolBinOp::from_usize(8), None);
    assert_eq!(BoolBinOp::from_usize(usize::MAX), None);
    assert_eq!(ValueBinOp::from_usize(0), Some(ValueBinOp::IfNull));
    assert_eq!(ValueBinOp::from_usize(11), Some(ValueBinOp::BitOr));
    assert_eq!(ValueBinOp::from_usize(12), None);
}

#[test]
fn binary_operators_are_the_sets_then_the_assignments() {
    let ops = BinOp::values();
    let expected: Vec<BinOp> = all_spellings().into_iter().map(|(op, _)| op).collect();
    assert_eq!(ops.len(), 33);
    assert_eq!(ops, expected);
    assert_eq!(ops[0], BinOp::Bool(BoolBinOp::Or));
    assert_eq!(ops[8], BinOp::Value(ValueBinOp::IfNull));
    assert_eq!(ops[20], BinOp::Assign(Some(ValueBinOp::IfNull)));
    assert_eq!(ops[32], BinOp::Assign(None));
}

#[test]
fn every_operator_has_its_spelling() {
    for (op, text) in all_spellings() {
        assert_eq!(op.as_str(), text);
    }
}

#[test]
fn assigning_form_is_the_operator_followed_by_equals() {
    assert_eq!(BinOp::Value(ValueBinOp::Add).as_str(), "+");
    assert_eq!(BinOp::Assign(Some(ValueBinOp::Add)).as_str(), "+=");
    for op in ValueBinOp::values() {
        let plain = BinOp::Value(op).as_str();
        let assigning = BinOp::Assign(Some(op)).as_str();
        assert_eq!(assigning, format!("{}=", plain));
    }
}

#[test]
fn spelling_read_back_gives_the_operator() {
    for op in BinOp::values() {
        assert_eq!(BinOp::from_str(op.as_str()), Some(op));
    }
}

#[test]
fn no_two_operators_are_spelled_alike() {
    let ops = BinOp::values();
    for (i, a) in ops.iter().enumerate() {
        for (j, b) in ops.iter().enumerate() {
            if i != j {
                assert_ne!(a.as_str(), b.as_str());
            }
        }
    }
}

#[test]
fn text_that_spells_no_operator_is_not_recognised() {
    assert_eq!(BinOp::from_str(""), None);
    assert_eq!(BinOp::from_str("=>"), None);
    assert_eq!(BinOp::from_str("+ "), None);
    assert_eq!(BinOp::from_str("==="), None);
    assert_eq!(BinOp::from_str("~"), None);
    assert_eq!(BinOp::from_str("plus"), None);
}

#[test]
fn recognises_each_kind_of_operator() {
    assert_eq!(BinOp::from_str("<="), Some(BinOp::Bool(BoolBinOp::Le)));
    assert_eq!(BinOp::from_str("<<"), Some(BinOp::Value(ValueBinOp::Lsh)));
    assert_eq!(BinOp::from_str("<<="), Some(BinOp::Assign(Some(ValueBinOp::Lsh))));
    assert_eq!(BinOp::from_str("="), Some(BinOp::Assign(None)));
    assert_eq!(BinOp::from_str("=="), Some(BinOp::Bool(BoolBinOp::Eq)));
}
