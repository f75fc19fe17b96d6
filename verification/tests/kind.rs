use sierra_ap_change::kind::SyntaxKind;

#[test]
fn names_are_the_variant_names() {
    assert_eq!(SyntaxKind::Terminal.name(), "Terminal");
    assert_eq!(SyntaxKind::ExprBinary.name(), "ExprBinary");
    assert_eq!(SyntaxKind::ItemFreeFunction.name(), "ItemFreeFunction");
    assert_eq!(SyntaxKind::SyntaxFile.name(), "SyntaxFile");
    assert_eq!(
        SyntaxKind::OptionReturnTypeClauseEmpty.name(),
        "OptionReturnTypeClauseEmpty"
    );
}

#[test]
fn kinds_compare_by_variant() {
    assert_eq!(SyntaxKind::MatchArm, SyntaxKind::MatchArm);
    assert_ne!(SyntaxKind::MatchArm, SyntaxKind::MatchArms);
    let k = SyntaxKind::ExprPath;
    let copy = k;
    assert_eq!(k, copy);
}
