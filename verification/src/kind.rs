//! The kinds of syntax-tree nodes produced by the frontend parser.

use vstd::prelude::*;

verus! {

/// The kind of a node of the syntax tree.
#[derive(Copy, Clone, Debug, Hash, PartialEq, Eq, Structural)]
pub enum SyntaxKind {
    Terminal,
    TriviumSkippedTerminal,
    Trivia,
    StructArgExpr,
    OptionStructArgExprEmpty,
    StructArgSingle,
    StructArgTail,
    StructArgList,
    ArgListBraced,
    ExprList,
    ExprMissing,
    OptionGenericArgsEmpty,
    OptionGenericArgsSome,
    PathSegment,
    ExprPath,
    ExprLiteral,
    ExprParenthesized,
    ExprUnary,
    ExprBinary,
    ExprTuple,
    ExprListParenthesized,
    ExprFunctionCall,
    ExprStructCtorCall,
    ExprBlock,
    MatchArm,
    MatchArms,
    ExprMatch,
    TypeClause,
    NonOptionTypeClauseMissing,
    OptionTypeClauseEmpty,
    ReturnTypeClause,
    OptionReturnTypeClauseEmpty,
    StatementList,
    StatementMissing,
    StatementLet,
    OptionSemicolonEmpty,
    StatementExpr,
    StatementReturn,
    Param,
    ParamList,
    ParamListParenthesized,
    ParamListBraced,
    FunctionSignature,
    ItemList,
    ItemModule,
    ItemFreeFunction,
    ItemExternFunction,
    ItemExternType,
    ItemTrait,
    ItemImpl,
    ItemStruct,
    ItemEnum,
    ItemUse,
    SyntaxFile,
}

impl SyntaxKind {
    /// The printable name of this kind: the name of its variant.
    pub open spec fn name_spec(self) -> Seq<char> {
        match self {
            SyntaxKind::Terminal => "Terminal"@,
            SyntaxKind::TriviumSkippedTerminal => "TriviumSkippedTerminal"@,
            SyntaxKind::Trivia => "Trivia"@,
            SyntaxKind::StructArgExpr => "StructArgExpr"@,
            SyntaxKind::OptionStructArgExprEmpty => "OptionStructArgExprEmpty"@,
            SyntaxKind::StructArgSingle => "StructArgSingle"@,
            SyntaxKind::StructArgTail => "StructArgTail"@,
            SyntaxKind::StructArgList => "StructArgList"@,
            SyntaxKind::ArgListBraced => "ArgListBraced"@,
            SyntaxKind::ExprList => "ExprList"@,
            SyntaxKind::ExprMissing => "ExprMissing"@,
            SyntaxKind::OptionGenericArgsEmpty => "OptionGenericArgsEmpty"@,
            SyntaxKind::OptionGenericArgsSome => "OptionGenericArgsSome"@,
            SyntaxKind::PathSegment => "PathSegment"@,
            SyntaxKind::ExprPath => "ExprPath"@,
            SyntaxKind::ExprLiteral => "ExprLiteral"@,
            SyntaxKind::ExprParenthesized => "ExprParenthesized"@,
            SyntaxKind::ExprUnary => "ExprUnary"@,
            SyntaxKind::ExprBinary => "ExprBinary"@,
            SyntaxKind::ExprTuple => "ExprTuple"@,
            SyntaxKind::ExprListParenthesized => "ExprListParenthesized"@,
            SyntaxKind::ExprFunctionCall => "ExprFunctionCall"@,
            SyntaxKind::ExprStructCtorCall => "ExprStructCtorCall"@,
            SyntaxKind::ExprBlock => "ExprBlock"@,
            SyntaxKind::MatchArm => "MatchArm"@,
            SyntaxKind::MatchArms => "MatchArms"@,
            SyntaxKind::ExprMatch => "ExprMatch"@,
            SyntaxKind::TypeClause => "TypeClause"@,
            SyntaxKind::NonOptionTypeClauseMissing => "NonOptionTypeClauseMissing"@,
            SyntaxKind::OptionTypeClauseEmpty => "OptionTypeClauseEmpty"@,
            SyntaxKind::ReturnTypeClause => "ReturnTypeClause"@,
            SyntaxKind::OptionReturnTypeClauseEmpty => "OptionReturnTypeClauseEmpty"@,
            SyntaxKind::StatementList => "StatementList"@,
            SyntaxKind::StatementMissing => "StatementMissing"@,
            SyntaxKind::StatementLet => "StatementLet"@,
            SyntaxKind::OptionSemicolonEmpty => "OptionSemicolonEmpty"@,
            SyntaxKind::StatementExpr => "StatementExpr"@,
            SyntaxKind::StatementReturn => "StatementReturn"@,
            SyntaxKind::Param => "Param"@,
            SyntaxKind::ParamList => "ParamList"@,
            SyntaxKind::ParamListParenthesized => "ParamListParenthesized"@,
            SyntaxKind::ParamListBraced => "ParamListBraced"@,
            SyntaxKind::FunctionSignature => "FunctionSignature"@,
            SyntaxKind::ItemList => "ItemList"@,
            SyntaxKind::ItemModule => "ItemModule"@,
            SyntaxKind::ItemFreeFunction => "ItemFreeFunction"@,
            SyntaxKind::ItemExternFunction => "ItemExternFunction"@,
            SyntaxKind::ItemExternType => "ItemExternType"@,
            SyntaxKind::ItemTrait => "ItemTrait"@,
            SyntaxKind::ItemImpl => "ItemImpl"@,
            SyntaxKind::ItemStruct => "ItemStruct"@,
            SyntaxKind::ItemEnum => "ItemEnum"@,
            SyntaxKind::ItemUse => "ItemUse"@,
            SyntaxKind::SyntaxFile => "SyntaxFile"@,
        }
    }

    /// The printable name of this kind, as the frontend shows it.
    pub fn name(&self) -> (r: &'static str)
        ensures
            r@ == self.name_spec(),
    {
        match self {
            SyntaxKind::Terminal => "Terminal",
            SyntaxKind::TriviumSkippedTerminal => "TriviumSkippedTerminal",
            SyntaxKind::Trivia => "Trivia",
            SyntaxKind::StructArgExpr => "StructArgExpr",
            SyntaxKind::OptionStructArgExprEmpty => "OptionStructArgExprEmpty",
            SyntaxKind::StructArgSingle => "StructArgSingle",
            SyntaxKind::StructArgTail => "StructArgTail",
            SyntaxKind::StructArgList => "StructArgList",
            SyntaxKind::ArgListBraced => "ArgListBraced",
            SyntaxKind::ExprList => "ExprList",
            SyntaxKind::ExprMissing => "ExprMissing",
            SyntaxKind::OptionGenericArgsEmpty => "OptionGenericArgsEmpty",
            SyntaxKind::OptionGenericArgsSome => "OptionGenericArgsSome",
            SyntaxKind::PathSegment => "PathSegment",
            SyntaxKind::ExprPath => "ExprPath",
            SyntaxKind::ExprLiteral => "ExprLiteral",
            SyntaxKind::ExprParenthesized => "ExprParenthesized",
            SyntaxKind::ExprUnary => "ExprUnary",
            SyntaxKind::ExprBinary => "ExprBinary",
            SyntaxKind::ExprTuple => "ExprTuple",
            SyntaxKind::ExprListParenthesized => "ExprListParenthesized",
            SyntaxKind::ExprFunctionCall => "ExprFunctionCall",
            SyntaxKind::ExprStructCtorCall => "ExprStructCtorCall",
            SyntaxKind::ExprBlock => "ExprBlock",
            SyntaxKind::MatchArm => "MatchArm",
            SyntaxKind::MatchArms => "MatchArms",
            SyntaxKind::ExprMatch => "ExprMatch",
            SyntaxKind::TypeClause => "TypeClause",
            SyntaxKind::NonOptionTypeClauseMissing => "NonOptionTypeClauseMissing",
            SyntaxKind::OptionTypeClauseEmpty => "OptionTypeClauseEmpty",
            SyntaxKind::ReturnTypeClause => "ReturnTypeClause",
            SyntaxKind::OptionReturnTypeClauseEmpty => "OptionReturnTypeClauseEmpty",
            SyntaxKind::StatementList => "StatementList",
            SyntaxKind::StatementMissing => "StatementMissing",
            SyntaxKind::StatementLet => "StatementLet",
            SyntaxKind::OptionSemicolonEmpty => "OptionSemicolonEmpty",
            SyntaxKind::StatementExpr => "StatementExpr",
            SyntaxKind::StatementReturn => "StatementReturn",
            SyntaxKind::Param => "Param",
            SyntaxKind::ParamList => "ParamList",
            SyntaxKind::ParamListParenthesized => "ParamListParenthesized",
            SyntaxKind::ParamListBraced => "ParamListBraced",
            SyntaxKind::FunctionSignature => "FunctionSignature",
            SyntaxKind::ItemList => "ItemList",
            SyntaxKind::ItemModule => "ItemModule",
            SyntaxKind::ItemFreeFunction => "ItemFreeFunction",
            SyntaxKind::ItemExternFunction => "ItemExternFunction",
            SyntaxKind::ItemExternType => "ItemExternType",
            SyntaxKind::ItemTrait => "ItemTrait",
            SyntaxKind::ItemImpl => "ItemImpl",
            SyntaxKind::ItemStruct => "ItemStruct",
            SyntaxKind::ItemEnum => "ItemEnum",
            SyntaxKind::ItemUse => "ItemUse",
            SyntaxKind::SyntaxFile => "SyntaxFile",
        }
    }
}

} // verus!
