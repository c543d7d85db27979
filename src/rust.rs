use vstd::prelude::*;

use crate::getter::{Getter, anonymous, field_text, name_view, text_of_field};
use crate::node::{Field, Tree};
use crate::spaces::{HalsteadType, SpaceKind};

verus! {

/// Node kinds of the Rust grammar, in the grammar's own numbering.
#[derive(Clone, Copy, Debug, PartialEq, Eq, Structural)]
pub enum Rust {
    End,
    Identifier,
    SEMI,
    MacroRules,
    LPAREN,
    RPAREN,
    LBRACK,
    RBRACK,
    LBRACE,
    RBRACE,
    EQGT,
    COLON,
    DOLLAR,
    TokenRepetitionPatternToken1,
    PLUS,
    STAR,
    QMARK,
    Block2,
    Expr,
    Expr2021,
    Ident,
    Item,
    Lifetime2,
    Literal,
    Meta,
    Pat,
    PatParam,
    Path,
    Stmt,
    Tt,
    Ty,
    Vis,
    PrimitiveType,
    PrimitiveType2,
    PrimitiveType3,
    PrimitiveType4,
    PrimitiveType5,
    PrimitiveType6,
    PrimitiveType7,
    PrimitiveType8,
    PrimitiveType9,
    PrimitiveType10,
    PrimitiveType11,
    PrimitiveType12,
    PrimitiveType13,
    PrimitiveType14,
    PrimitiveType15,
    PrimitiveType16,
    PrimitiveType17,
    DASH,
    SLASH,
    PERCENT,
    CARET,
    BANG,
    AMP,
    PIPE,
    AMPAMP,
    PIPEPIPE,
    LTLT,
    GTGT,
    PLUSEQ,
    DASHEQ,
    STAREQ,
    SLASHEQ,
    PERCENTEQ,
    CARETEQ,
    AMPEQ,
    PIPEEQ,
    LTLTEQ,
    GTGTEQ,
    EQ,
    EQEQ,
    BANGEQ,
    GT,
    LT,
    GTEQ,
    LTEQ,
    AT,
    UNDERSCORE,
    DOT,
    DOTDOT,
    DOTDOTDOT,
    DOTDOTEQ,
    COMMA,
    COLONCOLON,
    DASHGT,
    POUND,
    SQUOTE,
    As,
    Async,
    Await,
    Break,
    Const,
    Continue,
    Default,
    Enum,
    Fn,
    For,
    Gen,
    If,
    Impl,
    Let,
    Loop,
    Match,
    Mod,
    Pub,
    Return,
    Static,
    Struct,
    Trait,
    Type,
    Union,
    Unsafe,
    Use,
    Where,
    While,
    Extern,
    Ref,
    Else,
    In,
    LT2,
    Dyn,
    MutableSpecifier,
    Raw,
    Yield,
    Move,
    Try,
    IntegerLiteral,
    DQUOTE,
    CharLiteral,
    EscapeSequence,
    True,
    False,
    SLASHSLASH,
    LineCommentToken1,
    LineCommentToken2,
    LineCommentToken3,
    BANG2,
    SLASH2,
    SLASHSTAR,
    STARSLASH,
    Shebang,
    SelfKw,
    Super,
    Crate,
    Metavariable,
    StringContent,
    DQUOTE2,
    RawStringLiteralStart,
    StringContent2,
    RawStringLiteralEnd,
    FloatLiteral,
    OuterDocCommentMarker,
    InnerDocCommentMarker,
    BlockCommentContent,
    DocComment,
    ErrorSentinel,
    SourceFile,
    Statement,
    EmptyStatement,
    ExpressionStatement,
    MacroDefinition,
    MacroRule,
    TokenPattern,
    TokenTreePattern,
    TokenBindingPattern,
    TokenRepetitionPattern,
    FragmentSpecifier,
    TokenTree,
    TokenRepetition,
    AttributeItem,
    InnerAttributeItem,
    Attribute,
    ModItem,
    ForeignModItem,
    DeclarationList,
    StructItem,
    UnionItem,
    EnumItem,
    EnumVariantList,
    EnumVariant,
    FieldDeclarationList,
    FieldDeclaration,
    OrderedFieldDeclarationList,
    ExternCrateDeclaration,
    ConstItem,
    StaticItem,
    TypeItem,
    FunctionItem,
    FunctionSignatureItem,
    FunctionModifiers,
    WhereClause,
    WherePredicate,
    ImplItem,
    TraitItem,
    AssociatedType,
    TraitBounds,
    HigherRankedTraitBound,
    RemovedTraitBound,
    TypeParameters,
    ConstParameter,
    TypeParameter,
    LifetimeParameter,
    LetDeclaration,
    UseDeclaration,
    UseClause,
    ScopedUseList,
    UseList,
    UseAsClause,
    UseWildcard,
    Parameters,
    SelfParameter,
    VariadicParameter,
    Parameter,
    ExternModifier,
    VisibilityModifier,
    Type2,
    BracketedType,
    QualifiedType,
    Lifetime,
    ArrayType,
    ForLifetimes,
    FunctionType,
    TupleType,
    UnitType,
    GenericFunction,
    GenericType,
    GenericTypeWithTurbofish,
    BoundedType,
    UseBounds,
    TypeArguments,
    TypeBinding,
    ReferenceType,
    PointerType,
    NeverType,
    AbstractType,
    DynamicType,
    ExpressionExceptRange,
    Expression,
    MacroInvocation,
    TokenTree2,
    DelimTokens,
    NonDelimToken,
    ScopedIdentifier,
    ScopedTypeIdentifier,
    ScopedTypeIdentifier2,
    RangeExpression,
    UnaryExpression,
    TryExpression,
    ReferenceExpression,
    BinaryExpression,
    AssignmentExpression,
    CompoundAssignmentExpr,
    TypeCastExpression,
    ReturnExpression,
    YieldExpression,
    CallExpression,
    Arguments,
    ArrayExpression,
    ParenthesizedExpression,
    TupleExpression,
    UnitExpression,
    StructExpression,
    FieldInitializerList,
    ShorthandFieldInitializer,
    FieldInitializer,
    BaseFieldInitializer,
    IfExpression,
    LetCondition,
    LetChain2,
    Condition,
    ElseClause,
    MatchExpression,
    MatchBlock,
    MatchArm,
    MatchArm2,
    MatchPattern,
    WhileExpression,
    LoopExpression,
    ForExpression,
    ConstBlock,
    ClosureExpression,
    ClosureParameters,
    Label,
    BreakExpression,
    ContinueExpression,
    IndexExpression,
    AwaitExpression,
    FieldExpression,
    UnsafeBlock,
    AsyncBlock,
    GenBlock,
    TryBlock,
    Block,
    Pattern,
    GenericPattern,
    TuplePattern,
    SlicePattern,
    TupleStructPattern,
    StructPattern,
    FieldPattern,
    RemainingFieldPattern,
    MutPattern,
    RangePattern,
    RefPattern,
    CapturedPattern,
    ReferencePattern,
    OrPattern,
    Literal2,
    LiteralPattern,
    NegativeLiteral,
    StringLiteral,
    RawStringLiteral,
    BooleanLiteral,
    LineComment,
    LineDocCommentMarker,
    InnerDocCommentMarker2,
    OuterDocCommentMarker2,
    BlockComment,
    BlockDocCommentMarker,
    SourceFileRepeat1,
    MacroDefinitionRepeat1,
    TokenTreePatternRepeat1,
    TokenTreeRepeat1,
    NonSpecialTokenRepeat1,
    DeclarationListRepeat1,
    EnumVariantListRepeat1,
    EnumVariantListRepeat2,
    FieldDeclarationListRepeat1,
    OrderedFieldDeclarationListRepeat1,
    FunctionModifiersRepeat1,
    WhereClauseRepeat1,
    TraitBoundsRepeat1,
    TypeParametersRepeat1,
    UseListRepeat1,
    ParametersRepeat1,
    ForLifetimesRepeat1,
    TupleTypeRepeat1,
    UseBoundsRepeat1,
    TypeArgumentsRepeat1,
    DelimTokenTreeRepeat1,
    ArgumentsRepeat1,
    TupleExpressionRepeat1,
    FieldInitializerListRepeat1,
    MatchBlockRepeat1,
    MatchArmRepeat1,
    ClosureParametersRepeat1,
    TuplePatternRepeat1,
    SlicePatternRepeat1,
    StructPatternRepeat1,
    StringLiteralRepeat1,
    FieldIdentifier,
    LetChain,
    ShorthandFieldIdentifier,
    TypeIdentifier,
    Error,
}

impl Rust {
    /// The grammar's numeric id of this kind.
    pub open spec fn id(self) -> u16 {
        match self {
            Rust::End => 0,
            Rust::Identifier => 1,
            Rust::SEMI => 2,
            Rust::MacroRules => 3,
            Rust::LPAREN => 4,
            Rust::RPAREN => 5,
            Rust::LBRACK => 6,
            Rust::RBRACK => 7,
            Rust::LBRACE => 8,
            Rust::RBRACE => 9,
            Rust::EQGT => 10,
            Rust::COLON => 11,
            Rust::DOLLAR => 12,
            Rust::TokenRepetitionPatternToken1 => 13,
            Rust::PLUS => 14,
            Rust::STAR => 15,
            Rust::QMARK => 16,
            Rust::Block2 => 17,
            Rust::Expr => 18,
            Rust::Expr2021 => 19,
            Rust::Ident => 20,
            Rust::Item => 21,
            Rust::Lifetime2 => 22,
            Rust::Literal => 23,
            Rust::Meta => 24,
            Rust::Pat => 25,
            Rust::PatParam => 26,
            Rust::Path => 27,
            Rust::Stmt => 28,
            Rust::Tt => 29,
            Rust::Ty => 30,
            Rust::Vis => 31,
            Rust::PrimitiveType => 32,
            Rust::PrimitiveType2 => 33,
            Rust::PrimitiveType3 => 34,
            Rust::PrimitiveType4 => 35,
            Rust::PrimitiveType5 => 36,
            Rust::PrimitiveType6 => 37,
            Rust::PrimitiveType7 => 38,
            Rust::PrimitiveType8 => 39,
            Rust::PrimitiveType9 => 40,
            Rust::PrimitiveType10 => 41,
            Rust::PrimitiveType11 => 42,
            Rust::PrimitiveType12 => 43,
            Rust::PrimitiveType13 => 44,
            Rust::PrimitiveType14 => 45,
            Rust::PrimitiveType15 => 46,
            Rust::PrimitiveType16 => 47,
            Rust::PrimitiveType17 => 48,
            Rust::DASH => 49,
            Rust::SLASH => 50,
            Rust::PERCENT => 51,
            Rust::CARET => 52,
            Rust::BANG => 53,
            Rust::AMP => 54,
            Rust::PIPE => 55,
            Rust::AMPAMP => 56,
            Rust::PIPEPIPE => 57,
            Rust::LTLT => 58,
            Rust::GTGT => 59,
            Rust::PLUSEQ => 60,
            Rust::DASHEQ => 61,
            Rust::STAREQ => 62,
            Rust::SLASHEQ => 63,
            Rust::PERCENTEQ => 64,
            Rust::CARETEQ => 65,
            Rust::AMPEQ => 66,
            Rust::PIPEEQ => 67,
            Rust::LTLTEQ => 68,
            Rust::GTGTEQ => 69,
            Rust::EQ => 70,
            Rust::EQEQ => 71,
            Rust::BANGEQ => 72,
            Rust::GT => 73,
            Rust::LT => 74,
            Rust::GTEQ => 75,
            Rust::LTEQ => 76,
            Rust::AT => 77,
            Rust::UNDERSCORE => 78,
            Rust::DOT => 79,
            Rust::DOTDOT => 80,
            Rust::DOTDOTDOT => 81,
            Rust::DOTDOTEQ => 82,
            Rust::COMMA => 83,
            Rust::COLONCOLON => 84,
            Rust::DASHGT => 85,
            Rust::POUND => 86,
            Rust::SQUOTE => 87,
            Rust::As => 88,
            Rust::Async => 89,
            Rust::Await => 90,
            Rust::Break => 91,
            Rust::Const => 92,
            Rust::Continue => 93,
            Rust::Default => 94,
            Rust::Enum => 95,
            Rust::Fn => 96,
            Rust::For => 97,
            Rust::Gen => 98,
            Rust::If => 99,
            Rust::Impl => 100,
            Rust::Let => 101,
            Rust::Loop => 102,
            Rust::Match => 103,
            Rust::Mod => 104,
            Rust::Pub => 105,
            Rust::Return => 106,
            Rust::Static => 107,
            Rust::Struct => 108,
            Rust::Trait => 109,
            Rust::Type => 110,
            Rust::Union => 111,
            Rust::Unsafe => 112,
            Rust::Use => 113,
            Rust::Where => 114,
            Rust::While => 115,
            Rust::Extern => 116,
            Rust::Ref => 117,
            Rust::Else => 118,
            Rust::In => 119,
            Rust::LT2 => 120,
            Rust::Dyn => 121,
            Rust::MutableSpecifier => 122,
            Rust::Raw => 123,
            Rust::Yield => 124,
            Rust::Move => 125,
            Rust::Try => 126,
            Rust::IntegerLiteral => 127,
            Rust::DQUOTE => 128,
            Rust::CharLiteral => 129,
            Rust::EscapeSequence => 130,
            Rust::True => 131,
            Rust::False => 132,
            Rust::SLASHSLASH => 133,
            Rust::LineCommentToken1 => 134,
            Rust::LineCommentToken2 => 135,
            Rust::LineCommentToken3 => 136,
            Rust::BANG2 => 137,
            Rust::SLASH2 => 138,
            Rust::SLASHSTAR => 139,
            Rust::STARSLASH => 140,
            Rust::Shebang => 141,
            Rust::SelfKw => 142,
            Rust::Super => 143,
            Rust::Crate => 144,
            Rust::Metavariable => 145,
            Rust::StringContent => 146,
            Rust::DQUOTE2 => 147,
            Rust::RawStringLiteralStart => 148,
            Rust::StringContent2 => 149,
            Rust::RawStringLiteralEnd => 150,
            Rust::FloatLiteral => 151,
            Rust::OuterDocCommentMarker => 152,
            Rust::InnerDocCommentMarker => 153,
            Rust::BlockCommentContent => 154,
            Rust::DocComment => 155,
            Rust::ErrorSentinel => 156,
            Rust::SourceFile => 157,
            Rust::Statement => 158,
            Rust::EmptyStatement => 159,
            Rust::ExpressionStatement => 160,
            Rust::MacroDefinition => 161,
            Rust::MacroRule => 162,
            Rust::TokenPattern => 163,
            Rust::TokenTreePattern => 164,
            Rust::TokenBindingPattern => 165,
            Rust::TokenRepetitionPattern => 166,
            Rust::FragmentSpecifier => 167,
            Rust::TokenTree => 168,
            Rust::TokenRepetition => 169,
            Rust::AttributeItem => 170,
            Rust::InnerAttributeItem => 171,
            Rust::Attribute => 172,
            Rust::ModItem => 173,
            Rust::ForeignModItem => 174,
            Rust::DeclarationList => 175,
            Rust::StructItem => 176,
            Rust::UnionItem => 177,
            Rust::EnumItem => 178,
            Rust::EnumVariantList => 179,
            Rust::EnumVariant => 180,
            Rust::FieldDeclarationList => 181,
            Rust::FieldDeclaration => 182,
            Rust::OrderedFieldDeclarationList => 183,
            Rust::ExternCrateDeclaration => 184,
            Rust::ConstItem => 185,
            Rust::StaticItem => 186,
            Rust::TypeItem => 187,
            Rust::FunctionItem => 188,
            Rust::FunctionSignatureItem => 189,
            Rust::FunctionModifiers => 190,
            Rust::WhereClause => 191,
            Rust::WherePredicate => 192,
            Rust::ImplItem => 193,
            Rust::TraitItem => 194,
            Rust::AssociatedType => 195,
            Rust::TraitBounds => 196,
            Rust::HigherRankedTraitBound => 197,
            Rust::RemovedTraitBound => 198,
            Rust::TypeParameters => 199,
            Rust::ConstParameter => 200,
            Rust::TypeParameter => 201,
            Rust::LifetimeParameter => 202,
            Rust::LetDeclaration => 203,
            Rust::UseDeclaration => 204,
            Rust::UseClause => 205,
            Rust::ScopedUseList => 206,
            Rust::UseList => 207,
            Rust::UseAsClause => 208,
            Rust::UseWildcard => 209,
            Rust::Parameters => 210,
            Rust::SelfParameter => 211,
            Rust::VariadicParameter => 212,
            Rust::Parameter => 213,
            Rust::ExternModifier => 214,
            Rust::VisibilityModifier => 215,
            Rust::Type2 => 216,
            Rust::BracketedType => 217,
            Rust::QualifiedType => 218,
            Rust::Lifetime => 219,
            Rust::ArrayType => 220,
            Rust::ForLifetimes => 221,
            Rust::FunctionType => 222,
            Rust::TupleType => 223,
            Rust::UnitType => 224,
            Rust::GenericFunction => 225,
            Rust::GenericType => 226,
            Rust::GenericTypeWithTurbofish => 227,
            Rust::BoundedType => 228,
            Rust::UseBounds => 229,
            Rust::TypeArguments => 230,
            Rust::TypeBinding => 231,
            Rust::ReferenceType => 232,
            Rust::PointerType => 233,
            Rust::NeverType => 234,
            Rust::AbstractType => 235,
            Rust::DynamicType => 236,
            Rust::ExpressionExceptRange => 237,
            Rust::Expression => 238,
            Rust::MacroInvocation => 239,
            Rust::TokenTree2 => 240,
            Rust::DelimTokens => 241,
            Rust::NonDelimToken => 242,
            Rust::ScopedIdentifier => 243,
            Rust::ScopedTypeIdentifier => 244,
            Rust::ScopedTypeIdentifier2 => 245,
            Rust::RangeExpression => 246,
            Rust::UnaryExpression => 247,
            Rust::TryExpression => 248,
            Rust::ReferenceExpression => 249,
            Rust::BinaryExpression => 250,
            Rust::AssignmentExpression => 251,
            Rust::CompoundAssignmentExpr => 252,
            Rust::TypeCastExpression => 253,
            Rust::ReturnExpression => 254,
            Rust::YieldExpression => 255,
            Rust::CallExpression => 256,
            Rust::Arguments => 257,
            Rust::ArrayExpression => 258,
            Rust::ParenthesizedExpression => 259,
            Rust::TupleExpression => 260,
            Rust::UnitExpression => 261,
            Rust::StructExpression => 262,
            Rust::FieldInitializerList => 263,
            Rust::ShorthandFieldInitializer => 264,
            Rust::FieldInitializer => 265,
            Rust::BaseFieldInitializer => 266,
            Rust::IfExpression => 267,
            Rust::LetCondition => 268,
            Rust::LetChain2 => 269,
            Rust::Condition => 270,
            Rust::ElseClause => 271,
            Rust::MatchExpression => 272,
            Rust::MatchBlock => 273,
            Rust::MatchArm => 274,
            Rust::MatchArm2 => 275,
            Rust::MatchPattern => 276,
            Rust::WhileExpression => 277,
            Rust::LoopExpression => 278,
            Rust::ForExpression => 279,
            Rust::ConstBlock => 280,
            Rust::ClosureExpression => 281,
            Rust::ClosureParameters => 282,
            Rust::Label => 283,
            Rust::BreakExpression => 284,
            Rust::ContinueExpression => 285,
            Rust::IndexExpression => 286,
            Rust::AwaitExpression => 287,
            Rust::FieldExpression => 288,
            Rust::UnsafeBlock => 289,
            Rust::AsyncBlock => 290,
            Rust::GenBlock => 291,
            Rust::TryBlock => 292,
            Rust::Block => 293,
            Rust::Pattern => 294,
            Rust::GenericPattern => 295,
            Rust::TuplePattern => 296,
            Rust::SlicePattern => 297,
            Rust::TupleStructPattern => 298,
            Rust::StructPattern => 299,
            Rust::FieldPattern => 300,
            Rust::RemainingFieldPattern => 301,
            Rust::MutPattern => 302,
            Rust::RangePattern => 303,
            Rust::RefPattern => 304,
            Rust::CapturedPattern => 305,
            Rust::ReferencePattern => 306,
            Rust::OrPattern => 307,
            Rust::Literal2 => 308,
            Rust::LiteralPattern => 309,
            Rust::NegativeLiteral => 310,
            Rust::StringLiteral => 311,
            Rust::RawStringLiteral => 312,
            Rust::BooleanLiteral => 313,
            Rust::LineComment => 314,
            Rust::LineDocCommentMarker => 315,
            Rust::InnerDocCommentMarker2 => 316,
            Rust::OuterDocCommentMarker2 => 317,
            Rust::BlockComment => 318,
            Rust::BlockDocCommentMarker => 319,
            Rust::SourceFileRepeat1 => 320,
            Rust::MacroDefinitionRepeat1 => 321,
            Rust::TokenTreePatternRepeat1 => 322,
            Rust::TokenTreeRepeat1 => 323,
            Rust::NonSpecialTokenRepeat1 => 324,
            Rust::DeclarationListRepeat1 => 325,
            Rust::EnumVariantListRepeat1 => 326,
            Rust::EnumVariantListRepeat2 => 327,
            Rust::FieldDeclarationListRepeat1 => 328,
            Rust::OrderedFieldDeclarationListRepeat1 => 329,
            Rust::FunctionModifiersRepeat1 => 330,
            Rust::WhereClauseRepeat1 => 331,
            Rust::TraitBoundsRepeat1 => 332,
            Rust::TypeParametersRepeat1 => 333,
            Rust::UseListRepeat1 => 334,
            Rust::ParametersRepeat1 => 335,
            Rust::ForLifetimesRepeat1 => 336,
            Rust::TupleTypeRepeat1 => 337,
            Rust::UseBoundsRepeat1 => 338,
            Rust::TypeArgumentsRepeat1 => 339,
            Rust::DelimTokenTreeRepeat1 => 340,
            Rust::ArgumentsRepeat1 => 341,
            Rust::TupleExpressionRepeat1 => 342,
            Rust::FieldInitializerListRepeat1 => 343,
            Rust::MatchBlockRepeat1 => 344,
            Rust::MatchArmRepeat1 => 345,
            Rust::ClosureParametersRepeat1 => 346,
            Rust::TuplePatternRepeat1 => 347,
            Rust::SlicePatternRepeat1 => 348,
            Rust::StructPatternRepeat1 => 349,
            Rust::StringLiteralRepeat1 => 350,
            Rust::FieldIdentifier => 351,
            Rust::LetChain => 352,
            Rust::ShorthandFieldIdentifier => 353,
            Rust::TypeIdentifier => 354,
            Rust::Error => 355,
        }
    }

    /// The kind that a numeric id stands for: ids past the table give `Error`.
    pub open spec fn spec_from_id(x: u16) -> Rust {
        match x {
            0 => Rust::End,
            1 => Rust::Identifier,
            2 => Rust::SEMI,
            3 => Rust::MacroRules,
            4 => Rust::LPAREN,
            5 => Rust::RPAREN,
            6 => Rust::LBRACK,
            7 => Rust::RBRACK,
            8 => Rust::LBRACE,
            9 => Rust::RBRACE,
            10 => Rust::EQGT,
            11 => Rust::COLON,
            12 => Rust::DOLLAR,
            13 => Rust::TokenRepetitionPatternToken1,
            14 => Rust::PLUS,
            15 => Rust::STAR,
            16 => Rust::QMARK,
            17 => Rust::Block2,
            18 => Rust::Expr,
            19 => Rust::Expr2021,
            20 => Rust::Ident,
            21 => Rust::Item,
            22 => Rust::Lifetime2,
            23 => Rust::Literal,
            24 => Rust::Meta,
            25 => Rust::Pat,
            26 => Rust::PatParam,
            27 => Rust::Path,
            28 => Rust::Stmt,
            29 => Rust::Tt,
            30 => Rust::Ty,
            31 => Rust::Vis,
            32 => Rust::PrimitiveType,
            33 => Rust::PrimitiveType2,
            34 => Rust::PrimitiveType3,
            35 => Rust::PrimitiveType4,
            36 => Rust::PrimitiveType5,
            37 => Rust::PrimitiveType6,
            38 => Rust::PrimitiveType7,
            39 => Rust::PrimitiveType8,
            40 => Rust::PrimitiveType9,
            41 => Rust::PrimitiveType10,
            42 => Rust::PrimitiveType11,
            43 => Rust::PrimitiveType12,
            44 => Rust::PrimitiveType13,
            45 => Rust::PrimitiveType14,
            46 => Rust::PrimitiveType15,
            47 => Rust::PrimitiveType16,
            48 => Rust::PrimitiveType17,
            49 => Rust::DASH,
            50 => Rust::SLASH,
            51 => Rust::PERCENT,
            52 => Rust::CARET,
            53 => Rust::BANG,
            54 => Rust::AMP,
            55 => Rust::PIPE,
            56 => Rust::AMPAMP,
            57 => Rust::PIPEPIPE,
            58 => Rust::LTLT,
            59 => Rust::GTGT,
            60 => Rust::PLUSEQ,
            61 => Rust::DASHEQ,
            62 => Rust::STAREQ,
            63 => Rust::SLASHEQ,
            64 => Rust::PERCENTEQ,
            65 => Rust::CARETEQ,
            66 => Rust::AMPEQ,
            67 => Rust::PIPEEQ,
            68 => Rust::LTLTEQ,
            69 => Rust::GTGTEQ,
            70 => Rust::EQ,
            71 => Rust::EQEQ,
            72 => Rust::BANGEQ,
            73 => Rust::GT,
            74 => Rust::LT,
            75 => Rust::GTEQ,
            76 => Rust::LTEQ,
            77 => Rust::AT,
            78 => Rust::UNDERSCORE,
            79 => Rust::DOT,
            80 => Rust::DOTDOT,
            81 => Rust::DOTDOTDOT,
            82 => Rust::DOTDOTEQ,
            83 => Rust::COMMA,
            84 => Rust::COLONCOLON,
            85 => Rust::DASHGT,
            86 => Rust::POUND,
            87 => Rust::SQUOTE,
            88 => Rust::As,
            89 => Rust::Async,
            90 => Rust::Await,
            91 => Rust::Break,
            92 => Rust::Const,
            93 => Rust::Continue,
            94 => Rust::Default,
            95 => Rust::Enum,
            96 => Rust::Fn,
            97 => Rust::For,
            98 => Rust::Gen,
            99 => Rust::If,
            100 => Rust::Impl,
            101 => Rust::Let,
            102 => Rust::Loop,
            103 => Rust::Match,
            104 => Rust::Mod,
            105 => Rust::Pub,
            106 => Rust::Return,
            107 => Rust::Static,
            108 => Rust::Struct,
            109 => Rust::Trait,
            110 => Rust::Type,
            111 => Rust::Union,
            112 => Rust::Unsafe,
            113 => Rust::Use,
            114 => Rust::Where,
            115 => Rust::While,
            116 => Rust::Extern,
            117 => Rust::Ref,
            118 => Rust::Else,
            119 => Rust::In,
            120 => Rust::LT2,
            121 => Rust::Dyn,
            122 => Rust::MutableSpecifier,
            123 => Rust::Raw,
            124 => Rust::Yield,
            125 => Rust::Move,
            126 => Rust::Try,
            127 => Rust::IntegerLiteral,
            128 => Rust::DQUOTE,
            129 => Rust::CharLiteral,
            130 => Rust::EscapeSequence,
            131 => Rust::True,
            132 => Rust::False,
            133 => Rust::SLASHSLASH,
            134 => Rust::LineCommentToken1,
            135 => Rust::LineCommentToken2,
            136 => Rust::LineCommentToken3,
            137 => Rust::BANG2,
            138 => Rust::SLASH2,
            139 => Rust::SLASHSTAR,
            140 => Rust::STARSLASH,
            141 => Rust::Shebang,
            142 => Rust::SelfKw,
            143 => Rust::Super,
            144 => Rust::Crate,
            145 => Rust::Metavariable,
            146 => Rust::StringContent,
            147 => Rust::DQUOTE2,
            148 => Rust::RawStringLiteralStart,
            149 => Rust::StringContent2,
            150 => Rust::RawStringLiteralEnd,
            151 => Rust::FloatLiteral,
            152 => Rust::OuterDocCommentMarker,
            153 => Rust::InnerDocCommentMarker,
            154 => Rust::BlockCommentContent,
            155 => Rust::DocComment,
            156 => Rust::ErrorSentinel,
            157 => Rust::SourceFile,
            158 => Rust::Statement,
            159 => Rust::EmptyStatement,
            160 => Rust::ExpressionStatement,
            161 => Rust::MacroDefinition,
            162 => Rust::MacroRule,
            163 => Rust::TokenPattern,
            164 => Rust::TokenTreePattern,
            165 => Rust::TokenBindingPattern,
            166 => Rust::TokenRepetitionPattern,
            167 => Rust::FragmentSpecifier,
            168 => Rust::TokenTree,
            169 => Rust::TokenRepetition,
            170 => Rust::AttributeItem,
            171 => Rust::InnerAttributeItem,
            172 => Rust::Attribute,
            173 => Rust::ModItem,
            174 => Rust::ForeignModItem,
            175 => Rust::DeclarationList,
            176 => Rust::StructItem,
            177 => Rust::UnionItem,
            178 => Rust::EnumItem,
            179 => Rust::EnumVariantList,
            180 => Rust::EnumVariant,
            181 => Rust::FieldDeclarationList,
            182 => Rust::FieldDeclaration,
            183 => Rust::OrderedFieldDeclarationList,
            184 => Rust::ExternCrateDeclaration,
            185 => Rust::ConstItem,
            186 => Rust::StaticItem,
            187 => Rust::TypeItem,
            188 => Rust::FunctionItem,
            189 => Rust::FunctionSignatureItem,
            190 => Rust::FunctionModifiers,
            191 => Rust::WhereClause,
            192 => Rust::WherePredicate,
            193 => Rust::ImplItem,
            194 => Rust::TraitItem,
            195 => Rust::AssociatedType,
            196 => Rust::TraitBounds,
            197 => Rust::HigherRankedTraitBound,
            198 => Rust::RemovedTraitBound,
            199 => Rust::TypeParameters,
            200 => Rust::ConstParameter,
            201 => Rust::TypeParameter,
            202 => Rust::LifetimeParameter,
            203 => Rust::LetDeclaration,
            204 => Rust::UseDeclaration,
            205 => Rust::UseClause,
            206 => Rust::ScopedUseList,
            207 => Rust::UseList,
            208 => Rust::UseAsClause,
            209 => Rust::UseWildcard,
            210 => Rust::Parameters,
            211 => Rust::SelfParameter,
            212 => Rust::VariadicParameter,
            213 => Rust::Parameter,
            214 => Rust::ExternModifier,
            215 => Rust::VisibilityModifier,
            216 => Rust::Type2,
            217 => Rust::BracketedType,
            218 => Rust::QualifiedType,
            219 => Rust::Lifetime,
            220 => Rust::ArrayType,
            221 => Rust::ForLifetimes,
            222 => Rust::FunctionType,
            223 => Rust::TupleType,
            224 => Rust::UnitType,
            225 => Rust::GenericFunction,
            226 => Rust::GenericType,
            227 => Rust::GenericTypeWithTurbofish,
            228 => Rust::BoundedType,
            229 => Rust::UseBounds,
            230 => Rust::TypeArguments,
            231 => Rust::TypeBinding,
            232 => Rust::ReferenceType,
            233 => Rust::PointerType,
            234 => Rust::NeverType,
            235 => Rust::AbstractType,
            236 => Rust::DynamicType,
            237 => Rust::ExpressionExceptRange,
            238 => Rust::Expression,
            239 => Rust::MacroInvocation,
            240 => Rust::TokenTree2,
            241 => Rust::DelimTokens,
            242 => Rust::NonDelimToken,
            243 => Rust::ScopedIdentifier,
            244 => Rust::ScopedTypeIdentifier,
            245 => Rust::ScopedTypeIdentifier2,
            246 => Rust::RangeExpression,
            247 => Rust::UnaryExpression,
            248 => Rust::TryExpression,
            249 => Rust::ReferenceExpression,
            250 => Rust::BinaryExpression,
            251 => Rust::AssignmentExpression,
            252 => Rust::CompoundAssignmentExpr,
            253 => Rust::TypeCastExpression,
            254 => Rust::ReturnExpression,
            255 => Rust::YieldExpression,
            256 => Rust::CallExpression,
            257 => Rust::Arguments,
            258 => Rust::ArrayExpression,
            259 => Rust::ParenthesizedExpression,
            260 => Rust::TupleExpression,
            261 => Rust::UnitExpression,
            262 => Rust::StructExpression,
            263 => Rust::FieldInitializerList,
            264 => Rust::ShorthandFieldInitializer,
            265 => Rust::FieldInitializer,
            266 => Rust::BaseFieldInitializer,
            267 => Rust::IfExpression,
            268 => Rust::LetCondition,
            269 => Rust::LetChain2,
            270 => Rust::Condition,
            271 => Rust::ElseClause,
            272 => Rust::MatchExpression,
            273 => Rust::MatchBlock,
            274 => Rust::MatchArm,
            275 => Rust::MatchArm2,
            276 => Rust::MatchPattern,
            277 => Rust::WhileExpression,
            278 => Rust::LoopExpression,
            279 => Rust::ForExpression,
            280 => Rust::ConstBlock,
            281 => Rust::ClosureExpression,
            282 => Rust::ClosureParameters,
            283 => Rust::Label,
            284 => Rust::BreakExpression,
            285 => Rust::ContinueExpression,
            286 => Rust::IndexExpression,
            287 => Rust::AwaitExpression,
            288 => Rust::FieldExpression,
            289 => Rust::UnsafeBlock,
            290 => Rust::AsyncBlock,
            291 => Rust::GenBlock,
            292 => Rust::TryBlock,
            293 => Rust::Block,
            294 => Rust::Pattern,
            295 => Rust::GenericPattern,
            296 => Rust::TuplePattern,
            297 => Rust::SlicePattern,
            298 => Rust::TupleStructPattern,
            299 => Rust::StructPattern,
            300 => Rust::FieldPattern,
            301 => Rust::RemainingFieldPattern,
            302 => Rust::MutPattern,
            303 => Rust::RangePattern,
            304 => Rust::RefPattern,
            305 => Rust::CapturedPattern,
            306 => Rust::ReferencePattern,
            307 => Rust::OrPattern,
            308 => Rust::Literal2,
            309 => Rust::LiteralPattern,
            310 => Rust::NegativeLiteral,
            311 => Rust::StringLiteral,
            312 => Rust::RawStringLiteral,
            313 => Rust::BooleanLiteral,
            314 => Rust::LineComment,
            315 => Rust::LineDocCommentMarker,
            316 => Rust::InnerDocCommentMarker2,
            317 => Rust::OuterDocCommentMarker2,
            318 => Rust::BlockComment,
            319 => Rust::BlockDocCommentMarker,
            320 => Rust::SourceFileRepeat1,
            321 => Rust::MacroDefinitionRepeat1,
            322 => Rust::TokenTreePatternRepeat1,
            323 => Rust::TokenTreeRepeat1,
            324 => Rust::NonSpecialTokenRepeat1,
            325 => Rust::DeclarationListRepeat1,
            326 => Rust::EnumVariantListRepeat1,
            327 => Rust::EnumVariantListRepeat2,
            328 => Rust::FieldDeclarationListRepeat1,
            329 => Rust::OrderedFieldDeclarationListRepeat1,
            330 => Rust::FunctionModifiersRepeat1,
            331 => Rust::WhereClauseRepeat1,
            332 => Rust::TraitBoundsRepeat1,
            333 => Rust::TypeParametersRepeat1,
            334 => Rust::UseListRepeat1,
            335 => Rust::ParametersRepeat1,
            336 => Rust::ForLifetimesRepeat1,
            337 => Rust::TupleTypeRepeat1,
            338 => Rust::UseBoundsRepeat1,
            339 => Rust::TypeArgumentsRepeat1,
            340 => Rust::DelimTokenTreeRepeat1,
            341 => Rust::ArgumentsRepeat1,
            342 => Rust::TupleExpressionRepeat1,
            343 => Rust::FieldInitializerListRepeat1,
            344 => Rust::MatchBlockRepeat1,
            345 => Rust::MatchArmRepeat1,
            346 => Rust::ClosureParametersRepeat1,
            347 => Rust::TuplePatternRepeat1,
            348 => Rust::SlicePatternRepeat1,
            349 => Rust::StructPatternRepeat1,
            350 => Rust::StringLiteralRepeat1,
            351 => Rust::FieldIdentifier,
            352 => Rust::LetChain,
            353 => Rust::ShorthandFieldIdentifier,
            354 => Rust::TypeIdentifier,
            _ => Rust::Error,
        }
    }

    /// The display string of this kind.
    pub open spec fn text(self) -> Seq<char> {
        match self {
            Rust::End => "end"@,
            Rust::Identifier => "identifier"@,
            Rust::SEMI => ";"@,
            Rust::MacroRules => "macro_rules!"@,
            Rust::LPAREN => "("@,
            Rust::RPAREN => ")"@,
            Rust::LBRACK => "["@,
            Rust::RBRACK => "]"@,
            Rust::LBRACE => "{"@,
            Rust::RBRACE => "}"@,
            Rust::EQGT => "=>"@,
            Rust::COLON => ":"@,
            Rust::DOLLAR => "$"@,
            Rust::TokenRepetitionPatternToken1 => "token_repetition_pattern_token1"@,
            Rust::PLUS => "+"@,
            Rust::STAR => "*"@,
            Rust::QMARK => "?"@,
            Rust::Block2 => "block"@,
            Rust::Expr => "expr"@,
            Rust::Expr2021 => "expr_2021"@,
            Rust::Ident => "ident"@,
            Rust::Item => "item"@,
            Rust::Lifetime2 => "lifetime"@,
            Rust::Literal => "literal"@,
            Rust::Meta => "meta"@,
            Rust::Pat => "pat"@,
            Rust::PatParam => "pat_param"@,
            Rust::Path => "path"@,
            Rust::Stmt => "stmt"@,
            Rust::Tt => "tt"@,
            Rust::Ty => "ty"@,
            Rust::Vis => "vis"@,
            Rust::PrimitiveType => "primitive_type"@,
            Rust::PrimitiveType2 => "primitive_type"@,
            Rust::PrimitiveType3 => "primitive_type"@,
            Rust::PrimitiveType4 => "primitive_type"@,
            Rust::PrimitiveType5 => "primitive_type"@,
            Rust::PrimitiveType6 => "primitive_type"@,
            Rust::PrimitiveType7 => "primitive_type"@,
            Rust::PrimitiveType8 => "primitive_type"@,
            Rust::PrimitiveType9 => "primitive_type"@,
            Rust::PrimitiveType10 => "primitive_type"@,
            Rust::PrimitiveType11 => "primitive_type"@,
            Rust::PrimitiveType12 => "primitive_type"@,
            Rust::PrimitiveType13 => "primitive_type"@,
            Rust::PrimitiveType14 => "primitive_type"@,
            Rust::PrimitiveType15 => "primitive_type"@,
            Rust::PrimitiveType16 => "primitive_type"@,
            Rust::PrimitiveType17 => "primitive_type"@,
            Rust::DASH => "-"@,
            Rust::SLASH => "/"@,
            Rust::PERCENT => "%"@,
            Rust::CARET => "^"@,
            Rust::BANG => "!"@,
            Rust::AMP => "&"@,
            Rust::PIPE => "|"@,
            Rust::AMPAMP => "&&"@,
            Rust::PIPEPIPE => "||"@,
            Rust::LTLT => "<<"@,
            Rust::GTGT => ">>"@,
            Rust::PLUSEQ => "+="@,
            Rust::DASHEQ => "-="@,
            Rust::STAREQ => "*="@,
            Rust::SLASHEQ => "/="@,
            Rust::PERCENTEQ => "%="@,
            Rust::CARETEQ => "^="@,
            Rust::AMPEQ => "&="@,
            Rust::PIPEEQ => "|="@,
            Rust::LTLTEQ => "<<="@,
            Rust::GTGTEQ => ">>="@,
            Rust::EQ => "="@,
            Rust::EQEQ => "=="@,
            Rust::BANGEQ => "!="@,
            Rust::GT => ">"@,
            Rust::LT => "<"@,
            Rust::GTEQ => ">="@,
            Rust::LTEQ => "<="@,
            Rust::AT => "@"@,
            Rust::UNDERSCORE => "_"@,
            Rust::DOT => "."@,
            Rust::DOTDOT => ".."@,
            Rust::DOTDOTDOT => "..."@,
            Rust::DOTDOTEQ => "..="@,
            Rust::COMMA => ","@,
            Rust::COLONCOLON => "::"@,
            Rust::DASHGT => "->"@,
            Rust::POUND => "#"@,
            Rust::SQUOTE => "'"@,
            Rust::As => "as"@,
            Rust::Async => "async"@,
            Rust::Await => "await"@,
            Rust::Break => "break"@,
            Rust::Const => "const"@,
            Rust::Continue => "continue"@,
            Rust::Default => "default"@,
            Rust::Enum => "enum"@,
            Rust::Fn => "fn"@,
            Rust::For => "for"@,
            Rust::Gen => "gen"@,
            Rust::If => "if"@,
            Rust::Impl => "impl"@,
            Rust::Let => "let"@,
            Rust::Loop => "loop"@,
            Rust::Match => "match"@,
            Rust::Mod => "mod"@,
            Rust::Pub => "pub"@,
            Rust::Return => "return"@,
            Rust::Static => "static"@,
            Rust::Struct => "struct"@,
            Rust::Trait => "trait"@,
            Rust::Type => "type"@,
            Rust::Union => "union"@,
            Rust::Unsafe => "unsafe"@,
            Rust::Use => "use"@,
            Rust::Where => "where"@,
            Rust::While => "while"@,
            Rust::Extern => "extern"@,
            Rust::Ref => "ref"@,
            Rust::Else => "else"@,
            Rust::In => "in"@,
            Rust::LT2 => "<"@,
            Rust::Dyn => "dyn"@,
            Rust::MutableSpecifier => "mutable_specifier"@,
            Rust::Raw => "raw"@,
            Rust::Yield => "yield"@,
            Rust::Move => "move"@,
            Rust::Try => "try"@,
            Rust::IntegerLiteral => "integer_literal"@,
            Rust::DQUOTE => "\""@,
            Rust::CharLiteral => "char_literal"@,
            Rust::EscapeSequence => "escape_sequence"@,
            Rust::True => "true"@,
            Rust::False => "false"@,
            Rust::SLASHSLASH => "//"@,
            Rust::LineCommentToken1 => "line_comment_token1"@,
            Rust::LineCommentToken2 => "line_comment_token2"@,
            Rust::LineCommentToken3 => "line_comment_token3"@,
            Rust::BANG2 => "!"@,
            Rust::SLASH2 => "/"@,
            Rust::SLASHSTAR => "/*"@,
            Rust::STARSLASH => "*/"@,
            Rust::Shebang => "shebang"@,
            Rust::SelfKw => "self"@,
            Rust::Super => "super"@,
            Rust::Crate => "crate"@,
            Rust::Metavariable => "metavariable"@,
            Rust::StringContent => "string_content"@,
            Rust::DQUOTE2 => "\""@,
            Rust::RawStringLiteralStart => "_raw_string_literal_start"@,
            Rust::StringContent2 => "string_content"@,
            Rust::RawStringLiteralEnd => "_raw_string_literal_end"@,
            Rust::FloatLiteral => "float_literal"@,
            Rust::OuterDocCommentMarker => "outer_doc_comment_marker"@,
            Rust::InnerDocCommentMarker => "inner_doc_comment_marker"@,
            Rust::BlockCommentContent => "_block_comment_content"@,
            Rust::DocComment => "doc_comment"@,
            Rust::ErrorSentinel => "_error_sentinel"@,
            Rust::SourceFile => "source_file"@,
            Rust::Statement => "_statement"@,
            Rust::EmptyStatement => "empty_statement"@,
            Rust::ExpressionStatement => "expression_statement"@,
            Rust::MacroDefinition => "macro_definition"@,
            Rust::MacroRule => "macro_rule"@,
            Rust::TokenPattern => "_token_pattern"@,
            Rust::TokenTreePattern => "token_tree_pattern"@,
            Rust::TokenBindingPattern => "token_binding_pattern"@,
            Rust::TokenRepetitionPattern => "token_repetition_pattern"@,
            Rust::FragmentSpecifier => "fragment_specifier"@,
            Rust::TokenTree => "token_tree"@,
            Rust::TokenRepetition => "token_repetition"@,
            Rust::AttributeItem => "attribute_item"@,
            Rust::InnerAttributeItem => "inner_attribute_item"@,
            Rust::Attribute => "attribute"@,
            Rust::ModItem => "mod_item"@,
            Rust::ForeignModItem => "foreign_mod_item"@,
            Rust::DeclarationList => "declaration_list"@,
            Rust::StructItem => "struct_item"@,
            Rust::UnionItem => "union_item"@,
            Rust::EnumItem => "enum_item"@,
            Rust::EnumVariantList => "enum_variant_list"@,
            Rust::EnumVariant => "enum_variant"@,
            Rust::FieldDeclarationList => "field_declaration_list"@,
            Rust::FieldDeclaration => "field_declaration"@,
            Rust::OrderedFieldDeclarationList => "ordered_field_declaration_list"@,
            Rust::ExternCrateDeclaration => "extern_crate_declaration"@,
            Rust::ConstItem => "const_item"@,
            Rust::StaticItem => "static_item"@,
            Rust::TypeItem => "type_item"@,
            Rust::FunctionItem => "function_item"@,
            Rust::FunctionSignatureItem => "function_signature_item"@,
            Rust::FunctionModifiers => "function_modifiers"@,
            Rust::WhereClause => "where_clause"@,
            Rust::WherePredicate => "where_predicate"@,
            Rust::ImplItem => "impl_item"@,
            Rust::TraitItem => "trait_item"@,
            Rust::AssociatedType => "associated_type"@,
            Rust::TraitBounds => "trait_bounds"@,
            Rust::HigherRankedTraitBound => "higher_ranked_trait_bound"@,
            Rust::RemovedTraitBound => "removed_trait_bound"@,
            Rust::TypeParameters => "type_parameters"@,
            Rust::ConstParameter => "const_parameter"@,
            Rust::TypeParameter => "type_parameter"@,
            Rust::LifetimeParameter => "lifetime_parameter"@,
            Rust::LetDeclaration => "let_declaration"@,
            Rust::UseDeclaration => "use_declaration"@,
            Rust::UseClause => "_use_clause"@,
            Rust::ScopedUseList => "scoped_use_list"@,
            Rust::UseList => "use_list"@,
            Rust::UseAsClause => "use_as_clause"@,
            Rust::UseWildcard => "use_wildcard"@,
            Rust::Parameters => "parameters"@,
            Rust::SelfParameter => "self_parameter"@,
            Rust::VariadicParameter => "variadic_parameter"@,
            Rust::Parameter => "parameter"@,
            Rust::ExternModifier => "extern_modifier"@,
            Rust::VisibilityModifier => "visibility_modifier"@,
            Rust::Type2 => "_type"@,
            Rust::BracketedType => "bracketed_type"@,
            Rust::QualifiedType => "qualified_type"@,
            Rust::Lifetime => "lifetime"@,
            Rust::ArrayType => "array_type"@,
            Rust::ForLifetimes => "for_lifetimes"@,
            Rust::FunctionType => "function_type"@,
            Rust::TupleType => "tuple_type"@,
            Rust::UnitType => "unit_type"@,
            Rust::GenericFunction => "generic_function"@,
            Rust::GenericType => "generic_type"@,
            Rust::GenericTypeWithTurbofish => "generic_type_with_turbofish"@,
            Rust::BoundedType => "bounded_type"@,
            Rust::UseBounds => "use_bounds"@,
            Rust::TypeArguments => "type_arguments"@,
            Rust::TypeBinding => "type_binding"@,
            Rust::ReferenceType => "reference_type"@,
            Rust::PointerType => "pointer_type"@,
            Rust::NeverType => "never_type"@,
            Rust::AbstractType => "abstract_type"@,
            Rust::DynamicType => "dynamic_type"@,
            Rust::ExpressionExceptRange => "_expression_except_range"@,
            Rust::Expression => "_expression"@,
            Rust::MacroInvocation => "macro_invocation"@,
            Rust::TokenTree2 => "token_tree"@,
            Rust::DelimTokens => "_delim_tokens"@,
            Rust::NonDelimToken => "_non_delim_token"@,
            Rust::ScopedIdentifier => "scoped_identifier"@,
            Rust::ScopedTypeIdentifier => "scoped_type_identifier"@,
            Rust::ScopedTypeIdentifier2 => "scoped_type_identifier"@,
            Rust::RangeExpression => "range_expression"@,
            Rust::UnaryExpression => "unary_expression"@,
            Rust::TryExpression => "try_expression"@,
            Rust::ReferenceExpression => "reference_expression"@,
            Rust::BinaryExpression => "binary_expression"@,
            Rust::AssignmentExpression => "assignment_expression"@,
            Rust::CompoundAssignmentExpr => "compound_assignment_expr"@,
            Rust::TypeCastExpression => "type_cast_expression"@,
            Rust::ReturnExpression => "return_expression"@,
            Rust::YieldExpression => "yield_expression"@,
            Rust::CallExpression => "call_expression"@,
            Rust::Arguments => "arguments"@,
            Rust::ArrayExpression => "array_expression"@,
            Rust::ParenthesizedExpression => "parenthesized_expression"@,
            Rust::TupleExpression => "tuple_expression"@,
            Rust::UnitExpression => "unit_expression"@,
            Rust::StructExpression => "struct_expression"@,
            Rust::FieldInitializerList => "field_initializer_list"@,
            Rust::ShorthandFieldInitializer => "shorthand_field_initializer"@,
            Rust::FieldInitializer => "field_initializer"@,
            Rust::BaseFieldInitializer => "base_field_initializer"@,
            Rust::IfExpression => "if_expression"@,
            Rust::LetCondition => "let_condition"@,
            Rust::LetChain2 => "_let_chain"@,
            Rust::Condition => "_condition"@,
            Rust::ElseClause => "else_clause"@,
            Rust::MatchExpression => "match_expression"@,
            Rust::MatchBlock => "match_block"@,
            Rust::MatchArm => "match_arm"@,
            Rust::MatchArm2 => "match_arm"@,
            Rust::MatchPattern => "match_pattern"@,
            Rust::WhileExpression => "while_expression"@,
            Rust::LoopExpression => "loop_expression"@,
            Rust::ForExpression => "for_expression"@,
            Rust::ConstBlock => "const_block"@,
            Rust::ClosureExpression => "closure_expression"@,
            Rust::ClosureParameters => "closure_parameters"@,
            Rust::Label => "label"@,
            Rust::BreakExpression => "break_expression"@,
            Rust::ContinueExpression => "continue_expression"@,
            Rust::IndexExpression => "index_expression"@,
            Rust::AwaitExpression => "await_expression"@,
            Rust::FieldExpression => "field_expression"@,
            Rust::UnsafeBlock => "unsafe_block"@,
            Rust::AsyncBlock => "async_block"@,
            Rust::GenBlock => "gen_block"@,
            Rust::TryBlock => "try_block"@,
            Rust::Block => "block"@,
            Rust::Pattern => "_pattern"@,
            Rust::GenericPattern => "generic_pattern"@,
            Rust::TuplePattern => "tuple_pattern"@,
            Rust::SlicePattern => "slice_pattern"@,
            Rust::TupleStructPattern => "tuple_struct_pattern"@,
            Rust::StructPattern => "struct_pattern"@,
            Rust::FieldPattern => "field_pattern"@,
            Rust::RemainingFieldPattern => "remaining_field_pattern"@,
            Rust::MutPattern => "mut_pattern"@,
            Rust::RangePattern => "range_pattern"@,
            Rust::RefPattern => "ref_pattern"@,
            Rust::CapturedPattern => "captured_pattern"@,
            Rust::ReferencePattern => "reference_pattern"@,
            Rust::OrPattern => "or_pattern"@,
            Rust::Literal2 => "_literal"@,
            Rust::LiteralPattern => "_literal_pattern"@,
            Rust::NegativeLiteral => "negative_literal"@,
            Rust::StringLiteral => "string_literal"@,
            Rust::RawStringLiteral => "raw_string_literal"@,
            Rust::BooleanLiteral => "boolean_literal"@,
            Rust::LineComment => "line_comment"@,
            Rust::LineDocCommentMarker => "_line_doc_comment_marker"@,
            Rust::InnerDocCommentMarker2 => "inner_doc_comment_marker"@,
            Rust::OuterDocCommentMarker2 => "outer_doc_comment_marker"@,
            Rust::BlockComment => "block_comment"@,
            Rust::BlockDocCommentMarker => "_block_doc_comment_marker"@,
            Rust::SourceFileRepeat1 => "source_file_repeat1"@,
            Rust::MacroDefinitionRepeat1 => "macro_definition_repeat1"@,
            Rust::TokenTreePatternRepeat1 => "token_tree_pattern_repeat1"@,
            Rust::TokenTreeRepeat1 => "token_tree_repeat1"@,
            Rust::NonSpecialTokenRepeat1 => "_non_special_token_repeat1"@,
            Rust::DeclarationListRepeat1 => "declaration_list_repeat1"@,
            Rust::EnumVariantListRepeat1 => "enum_variant_list_repeat1"@,
            Rust::EnumVariantListRepeat2 => "enum_variant_list_repeat2"@,
            Rust::FieldDeclarationListRepeat1 => "field_declaration_list_repeat1"@,
            Rust::OrderedFieldDeclarationListRepeat1 => "ordered_field_declaration_list_repeat1"@,
            Rust::FunctionModifiersRepeat1 => "function_modifiers_repeat1"@,
            Rust::WhereClauseRepeat1 => "where_clause_repeat1"@,
            Rust::TraitBoundsRepeat1 => "trait_bounds_repeat1"@,
            Rust::TypeParametersRepeat1 => "type_parameters_repeat1"@,
            Rust::UseListRepeat1 => "use_list_repeat1"@,
            Rust::ParametersRepeat1 => "parameters_repeat1"@,
            Rust::ForLifetimesRepeat1 => "for_lifetimes_repeat1"@,
            Rust::TupleTypeRepeat1 => "tuple_type_repeat1"@,
            Rust::UseBoundsRepeat1 => "use_bounds_repeat1"@,
            Rust::TypeArgumentsRepeat1 => "type_arguments_repeat1"@,
            Rust::DelimTokenTreeRepeat1 => "delim_token_tree_repeat1"@,
            Rust::ArgumentsRepeat1 => "arguments_repeat1"@,
            Rust::TupleExpressionRepeat1 => "tuple_expression_repeat1"@,
            Rust::FieldInitializerListRepeat1 => "field_initializer_list_repeat1"@,
            Rust::MatchBlockRepeat1 => "match_block_repeat1"@,
            Rust::MatchArmRepeat1 => "match_arm_repeat1"@,
            Rust::ClosureParametersRepeat1 => "closure_parameters_repeat1"@,
            Rust::TuplePatternRepeat1 => "tuple_pattern_repeat1"@,
            Rust::SlicePatternRepeat1 => "slice_pattern_repeat1"@,
            Rust::StructPatternRepeat1 => "struct_pattern_repeat1"@,
            Rust::StringLiteralRepeat1 => "string_literal_repeat1"@,
            Rust::FieldIdentifier => "field_identifier"@,
            Rust::LetChain => "let_chain"@,
            Rust::ShorthandFieldIdentifier => "shorthand_field_identifier"@,
            Rust::TypeIdentifier => "type_identifier"@,
            Rust::Error => "ERROR"@,
        }
    }

    /// Maps a numeric kind id to its kind; an id outside the table maps to `Error`.
    pub fn from_u16(x: u16) -> (r: Rust)
        ensures
            r == Rust::spec_from_id(x),
            x > 355 ==> r == Rust::Error,
    {
        match x {
            0 => Rust::End,
            1 => Rust::Identifier,
            2 => Rust::SEMI,
            3 => Rust::MacroRules,
            4 => Rust::LPAREN,
            5 => Rust::RPAREN,
            6 => Rust::LBRACK,
            7 => Rust::RBRACK,
            8 => Rust::LBRACE,
            9 => Rust::RBRACE,
            10 => Rust::EQGT,
            11 => Rust::COLON,
            12 => Rust::DOLLAR,
            13 => Rust::TokenRepetitionPatternToken1,
            14 => Rust::PLUS,
            15 => Rust::STAR,
            16 => Rust::QMARK,
            17 => Rust::Block2,
            18 => Rust::Expr,
            19 => Rust::Expr2021,
            20 => Rust::Ident,
            21 => Rust::Item,
            22 => Rust::Lifetime2,
            23 => Rust::Literal,
            24 => Rust::Meta,
            25 => Rust::Pat,
            26 => Rust::PatParam,
            27 => Rust::Path,
            28 => Rust::Stmt,
            29 => Rust::Tt,
            30 => Rust::Ty,
            31 => Rust::Vis,
            32 => Rust::PrimitiveType,
            33 => Rust::PrimitiveType2,
            34 => Rust::PrimitiveType3,
            35 => Rust::PrimitiveType4,
            36 => Rust::PrimitiveType5,
            37 => Rust::PrimitiveType6,
            38 => Rust::PrimitiveType7,
            39 => Rust::PrimitiveType8,
            40 => Rust::PrimitiveType9,
            41 => Rust::PrimitiveType10,
            42 => Rust::PrimitiveType11,
            43 => Rust::PrimitiveType12,
            44 => Rust::PrimitiveType13,
            45 => Rust::PrimitiveType14,
            46 => Rust::PrimitiveType15,
            47 => Rust::PrimitiveType16,
            48 => Rust::PrimitiveType17,
            49 => Rust::DASH,
            50 => Rust::SLASH,
            51 => Rust::PERCENT,
            52 => Rust::CARET,
            53 => Rust::BANG,
            54 => Rust::AMP,
            55 => Rust::PIPE,
            56 => Rust::AMPAMP,
            57 => Rust::PIPEPIPE,
            58 => Rust::LTLT,
            59 => Rust::GTGT,
            60 => Rust::PLUSEQ,
            61 => Rust::DASHEQ,
            62 => Rust::STAREQ,
            63 => Rust::SLASHEQ,
            64 => Rust::PERCENTEQ,
            65 => Rust::CARETEQ,
            66 => Rust::AMPEQ,
            67 => Rust::PIPEEQ,
            68 => Rust::LTLTEQ,
            69 => Rust::GTGTEQ,
            70 => Rust::EQ,
            71 => Rust::EQEQ,
            72 => Rust::BANGEQ,
            73 => Rust::GT,
            74 => Rust::LT,
            75 => Rust::GTEQ,
            76 => Rust::LTEQ,
            77 => Rust::AT,
            78 => Rust::UNDERSCORE,
            79 => Rust::DOT,
            80 => Rust::DOTDOT,
            81 => Rust::DOTDOTDOT,
            82 => Rust::DOTDOTEQ,
            83 => Rust::COMMA,
            84 => Rust::COLONCOLON,
            85 => Rust::DASHGT,
            86 => Rust::POUND,
            87 => Rust::SQUOTE,
            88 => Rust::As,
            89 => Rust::Async,
            90 => Rust::Await,
            91 => Rust::Break,
            92 => Rust::Const,
            93 => Rust::Continue,
            94 => Rust::Default,
            95 => Rust::Enum,
            96 => Rust::Fn,
            97 => Rust::For,
            98 => Rust::Gen,
            99 => Rust::If,
            100 => Rust::Impl,
            101 => Rust::Let,
            102 => Rust::Loop,
            103 => Rust::Match,
            104 => Rust::Mod,
            105 => Rust::Pub,
            106 => Rust::Return,
            107 => Rust::Static,
            108 => Rust::Struct,
            109 => Rust::Trait,
            110 => Rust::Type,
            111 => Rust::Union,
            112 => Rust::Unsafe,
            113 => Rust::Use,
            114 => Rust::Where,
            115 => Rust::While,
            116 => Rust::Extern,
            117 => Rust::Ref,
            118 => Rust::Else,
            119 => Rust::In,
            120 => Rust::LT2,
            121 => Rust::Dyn,
            122 => Rust::MutableSpecifier,
            123 => Rust::Raw,
            124 => Rust::Yield,
            125 => Rust::Move,
            126 => Rust::Try,
            127 => Rust::IntegerLiteral,
            128 => Rust::DQUOTE,
            129 => Rust::CharLiteral,
            130 => Rust::EscapeSequence,
            131 => Rust::True,
            132 => Rust::False,
            133 => Rust::SLASHSLASH,
            134 => Rust::LineCommentToken1,
            135 => Rust::LineCommentToken2,
            136 => Rust::LineCommentToken3,
            137 => Rust::BANG2,
            138 => Rust::SLASH2,
            139 => Rust::SLASHSTAR,
            140 => Rust::STARSLASH,
            141 => Rust::Shebang,
            142 => Rust::SelfKw,
            143 => Rust::Super,
            144 => Rust::Crate,
            145 => Rust::Metavariable,
            146 => Rust::StringContent,
            147 => Rust::DQUOTE2,
            148 => Rust::RawStringLiteralStart,
            149 => Rust::StringContent2,
            150 => Rust::RawStringLiteralEnd,
            151 => Rust::FloatLiteral,
            152 => Rust::OuterDocCommentMarker,
            153 => Rust::InnerDocCommentMarker,
            154 => Rust::BlockCommentContent,
            155 => Rust::DocComment,
            156 => Rust::ErrorSentinel,
            157 => Rust::SourceFile,
            158 => Rust::Statement,
            159 => Rust::EmptyStatement,
            160 => Rust::ExpressionStatement,
            161 => Rust::MacroDefinition,
            162 => Rust::MacroRule,
            163 => Rust::TokenPattern,
            164 => Rust::TokenTreePattern,
            165 => Rust::TokenBindingPattern,
            166 => Rust::TokenRepetitionPattern,
            167 => Rust::FragmentSpecifier,
            168 => Rust::TokenTree,
            169 => Rust::TokenRepetition,
            170 => Rust::AttributeItem,
            171 => Rust::InnerAttributeItem,
            172 => Rust::Attribute,
            173 => Rust::ModItem,
            174 => Rust::ForeignModItem,
            175 => Rust::DeclarationList,
            176 => Rust::StructItem,
            177 => Rust::UnionItem,
            178 => Rust::EnumItem,
            179 => Rust::EnumVariantList,
            180 => Rust::EnumVariant,
            181 => Rust::FieldDeclarationList,
            182 => Rust::FieldDeclaration,
            183 => Rust::OrderedFieldDeclarationList,
            184 => Rust::ExternCrateDeclaration,
            185 => Rust::ConstItem,
            186 => Rust::StaticItem,
            187 => Rust::TypeItem,
            188 => Rust::FunctionItem,
            189 => Rust::FunctionSignatureItem,
            190 => Rust::FunctionModifiers,
            191 => Rust::WhereClause,
            192 => Rust::WherePredicate,
            193 => Rust::ImplItem,
            194 => Rust::TraitItem,
            195 => Rust::AssociatedType,
            196 => Rust::TraitBounds,
            197 => Rust::HigherRankedTraitBound,
            198 => Rust::RemovedTraitBound,
            199 => Rust::TypeParameters,
            200 => Rust::ConstParameter,
            201 => Rust::TypeParameter,
            202 => Rust::LifetimeParameter,
            203 => Rust::LetDeclaration,
            204 => Rust::UseDeclaration,
            205 => Rust::UseClause,
            206 => Rust::ScopedUseList,
            207 => Rust::UseList,
            208 => Rust::UseAsClause,
            209 => Rust::UseWildcard,
            210 => Rust::Parameters,
            211 => Rust::SelfParameter,
            212 => Rust::VariadicParameter,
            213 => Rust::Parameter,
            214 => Rust::ExternModifier,
            215 => Rust::VisibilityModifier,
            216 => Rust::Type2,
            217 => Rust::BracketedType,
            218 => Rust::QualifiedType,
            219 => Rust::Lifetime,
            220 => Rust::ArrayType,
            221 => Rust::ForLifetimes,
            222 => Rust::FunctionType,
            223 => Rust::TupleType,
            224 => Rust::UnitType,
            225 => Rust::GenericFunction,
            226 => Rust::GenericType,
            227 => Rust::GenericTypeWithTurbofish,
            228 => Rust::BoundedType,
            229 => Rust::UseBounds,
            230 => Rust::TypeArguments,
            231 => Rust::TypeBinding,
            232 => Rust::ReferenceType,
            233 => Rust::PointerType,
            234 => Rust::NeverType,
            235 => Rust::AbstractType,
            236 => Rust::DynamicType,
            237 => Rust::ExpressionExceptRange,
            238 => Rust::Expression,
            239 => Rust::MacroInvocation,
            240 => Rust::TokenTree2,
            241 => Rust::DelimTokens,
            242 => Rust::NonDelimToken,
            243 => Rust::ScopedIdentifier,
            244 => Rust::ScopedTypeIdentifier,
            245 => Rust::ScopedTypeIdentifier2,
            246 => Rust::RangeExpression,
            247 => Rust::UnaryExpression,
            248 => Rust::TryExpression,
            249 => Rust::ReferenceExpression,
            250 => Rust::BinaryExpression,
            251 => Rust::AssignmentExpression,
            252 => Rust::CompoundAssignmentExpr,
            253 => Rust::TypeCastExpression,
            254 => Rust::ReturnExpression,
            255 => Rust::YieldExpression,
            256 => Rust::CallExpression,
            257 => Rust::Arguments,
            258 => Rust::ArrayExpression,
            259 => Rust::ParenthesizedExpression,
            260 => Rust::TupleExpression,
            261 => Rust::UnitExpression,
            262 => Rust::StructExpression,
            263 => Rust::FieldInitializerList,
            264 => Rust::ShorthandFieldInitializer,
            265 => Rust::FieldInitializer,
            266 => Rust::BaseFieldInitializer,
            267 => Rust::IfExpression,
            268 => Rust::LetCondition,
            269 => Rust::LetChain2,
            270 => Rust::Condition,
            271 => Rust::ElseClause,
            272 => Rust::MatchExpression,
            273 => Rust::MatchBlock,
            274 => Rust::MatchArm,
            275 => Rust::MatchArm2,
            276 => Rust::MatchPattern,
            277 => Rust::WhileExpression,
            278 => Rust::LoopExpression,
            279 => Rust::ForExpression,
            280 => Rust::ConstBlock,
            281 => Rust::ClosureExpression,
            282 => Rust::ClosureParameters,
            283 => Rust::Label,
            284 => Rust::BreakExpression,
            285 => Rust::ContinueExpression,
            286 => Rust::IndexExpression,
            287 => Rust::AwaitExpression,
            288 => Rust::FieldExpression,
            289 => Rust::UnsafeBlock,
            290 => Rust::AsyncBlock,
            291 => Rust::GenBlock,
            292 => Rust::TryBlock,
            293 => Rust::Block,
            294 => Rust::Pattern,
            295 => Rust::GenericPattern,
            296 => Rust::TuplePattern,
            297 => Rust::SlicePattern,
            298 => Rust::TupleStructPattern,
            299 => Rust::StructPattern,
            300 => Rust::FieldPattern,
            301 => Rust::RemainingFieldPattern,
            302 => Rust::MutPattern,
            303 => Rust::RangePattern,
            304 => Rust::RefPattern,
            305 => Rust::CapturedPattern,
            306 => Rust::ReferencePattern,
            307 => Rust::OrPattern,
            308 => Rust::Literal2,
            309 => Rust::LiteralPattern,
            310 => Rust::NegativeLiteral,
            311 => Rust::StringLiteral,
            312 => Rust::RawStringLiteral,
            313 => Rust::BooleanLiteral,
            314 => Rust::LineComment,
            315 => Rust::LineDocCommentMarker,
            316 => Rust::InnerDocCommentMarker2,
            317 => Rust::OuterDocCommentMarker2,
            318 => Rust::BlockComment,
            319 => Rust::BlockDocCommentMarker,
            320 => Rust::SourceFileRepeat1,
            321 => Rust::MacroDefinitionRepeat1,
            322 => Rust::TokenTreePatternRepeat1,
            323 => Rust::TokenTreeRepeat1,
            324 => Rust::NonSpecialTokenRepeat1,
            325 => Rust::DeclarationListRepeat1,
            326 => Rust::EnumVariantListRepeat1,
            327 => Rust::EnumVariantListRepeat2,
            328 => Rust::FieldDeclarationListRepeat1,
            329 => Rust::OrderedFieldDeclarationListRepeat1,
            330 => Rust::FunctionModifiersRepeat1,
            331 => Rust::WhereClauseRepeat1,
            332 => Rust::TraitBoundsRepeat1,
            333 => Rust::TypeParametersRepeat1,
            334 => Rust::UseListRepeat1,
            335 => Rust::ParametersRepeat1,
            336 => Rust::ForLifetimesRepeat1,
            337 => Rust::TupleTypeRepeat1,
            338 => Rust::UseBoundsRepeat1,
            339 => Rust::TypeArgumentsRepeat1,
            340 => Rust::DelimTokenTreeRepeat1,
            341 => Rust::ArgumentsRepeat1,
            342 => Rust::TupleExpressionRepeat1,
            343 => Rust::FieldInitializerListRepeat1,
            344 => Rust::MatchBlockRepeat1,
            345 => Rust::MatchArmRepeat1,
            346 => Rust::ClosureParametersRepeat1,
            347 => Rust::TuplePatternRepeat1,
            348 => Rust::SlicePatternRepeat1,
            349 => Rust::StructPatternRepeat1,
            350 => Rust::StringLiteralRepeat1,
            351 => Rust::FieldIdentifier,
            352 => Rust::LetChain,
            353 => Rust::ShorthandFieldIdentifier,
            354 => Rust::TypeIdentifier,
            _ => Rust::Error,
        }
    }

    /// The display string of this kind.
    pub fn as_str(&self) -> (r: &'static str)
        ensures
            r@ == self.text(),
    {
        match self {
            Rust::End => "end",
            Rust::Identifier => "identifier",
            Rust::SEMI => ";",
            Rust::MacroRules => "macro_rules!",
            Rust::LPAREN => "(",
            Rust::RPAREN => ")",
            Rust::LBRACK => "[",
            Rust::RBRACK => "]",
            Rust::LBRACE => "{",
            Rust::RBRACE => "}",
            Rust::EQGT => "=>",
            Rust::COLON => ":",
            Rust::DOLLAR => "$",
            Rust::TokenRepetitionPatternToken1 => "token_repetition_pattern_token1",
            Rust::PLUS => "+",
            Rust::STAR => "*",
            Rust::QMARK => "?",
            Rust::Block2 => "block",
            Rust::Expr => "expr",
            Rust::Expr2021 => "expr_2021",
            Rust::Ident => "ident",
            Rust::Item => "item",
            Rust::Lifetime2 => "lifetime",
            Rust::Literal => "literal",
            Rust::Meta => "meta",
            Rust::Pat => "pat",
            Rust::PatParam => "pat_param",
            Rust::Path => "path",
            Rust::Stmt => "stmt",
            Rust::Tt => "tt",
            Rust::Ty => "ty",
            Rust::Vis => "vis",
            Rust::PrimitiveType => "primitive_type",
            Rust::PrimitiveType2 => "primitive_type",
            Rust::PrimitiveType3 => "primitive_type",
            Rust::PrimitiveType4 => "primitive_type",
            Rust::PrimitiveType5 => "primitive_type",
            Rust::PrimitiveType6 => "primitive_type",
            Rust::PrimitiveType7 => "primitive_type",
            Rust::PrimitiveType8 => "primitive_type",
            Rust::PrimitiveType9 => "primitive_type",
            Rust::PrimitiveType10 => "primitive_type",
            Rust::PrimitiveType11 => "primitive_type",
            Rust::PrimitiveType12 => "primitive_type",
            Rust::PrimitiveType13 => "primitive_type",
            Rust::PrimitiveType14 => "primitive_type",
            Rust::PrimitiveType15 => "primitive_type",
            Rust::PrimitiveType16 => "primitive_type",
            Rust::PrimitiveType17 => "primitive_type",
            Rust::DASH => "-",
            Rust::SLASH => "/",
            Rust::PERCENT => "%",
            Rust::CARET => "^",
            Rust::BANG => "!",
            Rust::AMP => "&",
            Rust::PIPE => "|",
            Rust::AMPAMP => "&&",
            Rust::PIPEPIPE => "||",
            Rust::LTLT => "<<",
            Rust::GTGT => ">>",
            Rust::PLUSEQ => "+=",
            Rust::DASHEQ => "-=",
            Rust::STAREQ => "*=",
            Rust::SLASHEQ => "/=",
            Rust::PERCENTEQ => "%=",
            Rust::CARETEQ => "^=",
            Rust::AMPEQ => "&=",
            Rust::PIPEEQ => "|=",
            Rust::LTLTEQ => "<<=",
            Rust::GTGTEQ => ">>=",
            Rust::EQ => "=",
            Rust::EQEQ => "==",
            Rust::BANGEQ => "!=",
            Rust::GT => ">",
            Rust::LT => "<",
            Rust::GTEQ => ">=",
            Rust::LTEQ => "<=",
            Rust::AT => "@",
            Rust::UNDERSCORE => "_",
            Rust::DOT => ".",
            Rust::DOTDOT => "..",
            Rust::DOTDOTDOT => "...",
            Rust::DOTDOTEQ => "..=",
            Rust::COMMA => ",",
            Rust::COLONCOLON => "::",
            Rust::DASHGT => "->",
            Rust::POUND => "#",
            Rust::SQUOTE => "'",
            Rust::As => "as",
            Rust::Async => "async",
            Rust::Await => "await",
            Rust::Break => "break",
            Rust::Const => "const",
            Rust::Continue => "continue",
            Rust::Default => "default",
            Rust::Enum => "enum",
            Rust::Fn => "fn",
            Rust::For => "for",
            Rust::Gen => "gen",
            Rust::If => "if",
            Rust::Impl => "impl",
            Rust::Let => "let",
            Rust::Loop => "loop",
            Rust::Match => "match",
            Rust::Mod => "mod",
            Rust::Pub => "pub",
            Rust::Return => "return",
            Rust::Static => "static",
            Rust::Struct => "struct",
            Rust::Trait => "trait",
            Rust::Type => "type",
            Rust::Union => "union",
            Rust::Unsafe => "unsafe",
            Rust::Use => "use",
            Rust::Where => "where",
            Rust::While => "while",
            Rust::Extern => "extern",
            Rust::Ref => "ref",
            Rust::Else => "else",
            Rust::In => "in",
            Rust::LT2 => "<",
            Rust::Dyn => "dyn",
            Rust::MutableSpecifier => "mutable_specifier",
            Rust::Raw => "raw",
            Rust::Yield => "yield",
            Rust::Move => "move",
            Rust::Try => "try",
            Rust::IntegerLiteral => "integer_literal",
            Rust::DQUOTE => "\"",
            Rust::CharLiteral => "char_literal",
            Rust::EscapeSequence => "escape_sequence",
            Rust::True => "true",
            Rust::False => "false",
            Rust::SLASHSLASH => "//",
            Rust::LineCommentToken1 => "line_comment_token1",
            Rust::LineCommentToken2 => "line_comment_token2",
            Rust::LineCommentToken3 => "line_comment_token3",
            Rust::BANG2 => "!",
            Rust::SLASH2 => "/",
            Rust::SLASHSTAR => "/*",
            Rust::STARSLASH => "*/",
            Rust::Shebang => "shebang",
            Rust::SelfKw => "self",
            Rust::Super => "super",
            Rust::Crate => "crate",
            Rust::Metavariable => "metavariable",
            Rust::StringContent => "string_content",
            Rust::DQUOTE2 => "\"",
            Rust::RawStringLiteralStart => "_raw_string_literal_start",
            Rust::StringContent2 => "string_content",
            Rust::RawStringLiteralEnd => "_raw_string_literal_end",
            Rust::FloatLiteral => "float_literal",
            Rust::OuterDocCommentMarker => "outer_doc_comment_marker",
            Rust::InnerDocCommentMarker => "inner_doc_comment_marker",
            Rust::BlockCommentContent => "_block_comment_content",
            Rust::DocComment => "doc_comment",
            Rust::ErrorSentinel => "_error_sentinel",
            Rust::SourceFile => "source_file",
            Rust::Statement => "_statement",
            Rust::EmptyStatement => "empty_statement",
            Rust::ExpressionStatement => "expression_statement",
            Rust::MacroDefinition => "macro_definition",
            Rust::MacroRule => "macro_rule",
            Rust::TokenPattern => "_token_pattern",
            Rust::TokenTreePattern => "token_tree_pattern",
            Rust::TokenBindingPattern => "token_binding_pattern",
            Rust::TokenRepetitionPattern => "token_repetition_pattern",
            Rust::FragmentSpecifier => "fragment_specifier",
            Rust::TokenTree => "token_tree",
            Rust::TokenRepetition => "token_repetition",
            Rust::AttributeItem => "attribute_item",
            Rust::InnerAttributeItem => "inner_attribute_item",
            Rust::Attribute => "attribute",
            Rust::ModItem => "mod_item",
            Rust::ForeignModItem => "foreign_mod_item",
            Rust::DeclarationList => "declaration_list",
            Rust::StructItem => "struct_item",
            Rust::UnionItem => "union_item",
            Rust::EnumItem => "enum_item",
            Rust::EnumVariantList => "enum_variant_list",
            Rust::EnumVariant => "enum_variant",
            Rust::FieldDeclarationList => "field_declaration_list",
            Rust::FieldDeclaration => "field_declaration",
            Rust::OrderedFieldDeclarationList => "ordered_field_declaration_list",
            Rust::ExternCrateDeclaration => "extern_crate_declaration",
            Rust::ConstItem => "const_item",
            Rust::StaticItem => "static_item",
            Rust::TypeItem => "type_item",
            Rust::FunctionItem => "function_item",
            Rust::FunctionSignatureItem => "function_signature_item",
            Rust::FunctionModifiers => "function_modifiers",
            Rust::WhereClause => "where_clause",
            Rust::WherePredicate => "where_predicate",
            Rust::ImplItem => "impl_item",
            Rust::TraitItem => "trait_item",
            Rust::AssociatedType => "associated_type",
            Rust::TraitBounds => "trait_bounds",
            Rust::HigherRankedTraitBound => "higher_ranked_trait_bound",
            Rust::RemovedTraitBound => "removed_trait_bound",
            Rust::TypeParameters => "type_parameters",
            Rust::ConstParameter => "const_parameter",
            Rust::TypeParameter => "type_parameter",
            Rust::LifetimeParameter => "lifetime_parameter",
            Rust::LetDeclaration => "let_declaration",
            Rust::UseDeclaration => "use_declaration",
            Rust::UseClause => "_use_clause",
            Rust::ScopedUseList => "scoped_use_list",
            Rust::UseList => "use_list",
            Rust::UseAsClause => "use_as_clause",
            Rust::UseWildcard => "use_wildcard",
            Rust::Parameters => "parameters",
            Rust::SelfParameter => "self_parameter",
            Rust::VariadicParameter => "variadic_parameter",
            Rust::Parameter => "parameter",
            Rust::ExternModifier => "extern_modifier",
            Rust::VisibilityModifier => "visibility_modifier",
            Rust::Type2 => "_type",
            Rust::BracketedType => "bracketed_type",
            Rust::QualifiedType => "qualified_type",
            Rust::Lifetime => "lifetime",
            Rust::ArrayType => "array_type",
            Rust::ForLifetimes => "for_lifetimes",
            Rust::FunctionType => "function_type",
            Rust::TupleType => "tuple_type",
            Rust::UnitType => "unit_type",
            Rust::GenericFunction => "generic_function",
            Rust::GenericType => "generic_type",
            Rust::GenericTypeWithTurbofish => "generic_type_with_turbofish",
            Rust::BoundedType => "bounded_type",
            Rust::UseBounds => "use_bounds",
            Rust::TypeArguments => "type_arguments",
            Rust::TypeBinding => "type_binding",
            Rust::ReferenceType => "reference_type",
            Rust::PointerType => "pointer_type",
            Rust::NeverType => "never_type",
            Rust::AbstractType => "abstract_type",
            Rust::DynamicType => "dynamic_type",
            Rust::ExpressionExceptRange => "_expression_except_range",
            Rust::Expression => "_expression",
            Rust::MacroInvocation => "macro_invocation",
            Rust::TokenTree2 => "token_tree",
            Rust::DelimTokens => "_delim_tokens",
            Rust::NonDelimToken => "_non_delim_token",
            Rust::ScopedIdentifier => "scoped_identifier",
            Rust::ScopedTypeIdentifier => "scoped_type_identifier",
            Rust::ScopedTypeIdentifier2 => "scoped_type_identifier",
            Rust::RangeExpression => "range_expression",
            Rust::UnaryExpression => "unary_expression",
            Rust::TryExpression => "try_expression",
            Rust::ReferenceExpression => "reference_expression",
            Rust::BinaryExpression => "binary_expression",
            Rust::AssignmentExpression => "assignment_expression",
            Rust::CompoundAssignmentExpr => "compound_assignment_expr",
            Rust::TypeCastExpression => "type_cast_expression",
            Rust::ReturnExpression => "return_expression",
            Rust::YieldExpression => "yield_expression",
            Rust::CallExpression => "call_expression",
            Rust::Arguments => "arguments",
            Rust::ArrayExpression => "array_expression",
            Rust::ParenthesizedExpression => "parenthesized_expression",
            Rust::TupleExpression => "tuple_expression",
            Rust::UnitExpression => "unit_expression",
            Rust::StructExpression => "struct_expression",
            Rust::FieldInitializerList => "field_initializer_list",
            Rust::ShorthandFieldInitializer => "shorthand_field_initializer",
            Rust::FieldInitializer => "field_initializer",
            Rust::BaseFieldInitializer => "base_field_initializer",
            Rust::IfExpression => "if_expression",
            Rust::LetCondition => "let_condition",
            Rust::LetChain2 => "_let_chain",
            Rust::Condition => "_condition",
            Rust::ElseClause => "else_clause",
            Rust::MatchExpression => "match_expression",
            Rust::MatchBlock => "match_block",
            Rust::MatchArm => "match_arm",
            Rust::MatchArm2 => "match_arm",
            Rust::MatchPattern => "match_pattern",
            Rust::WhileExpression => "while_expression",
            Rust::LoopExpression => "loop_expression",
            Rust::ForExpression => "for_expression",
            Rust::ConstBlock => "const_block",
            Rust::ClosureExpression => "closure_expression",
            Rust::ClosureParameters => "closure_parameters",
            Rust::Label => "label",
            Rust::BreakExpression => "break_expression",
            Rust::ContinueExpression => "continue_expression",
            Rust::IndexExpression => "index_expression",
            Rust::AwaitExpression => "await_expression",
            Rust::FieldExpression => "field_expression",
            Rust::UnsafeBlock => "unsafe_block",
            Rust::AsyncBlock => "async_block",
            Rust::GenBlock => "gen_block",
            Rust::TryBlock => "try_block",
            Rust::Block => "block",
            Rust::Pattern => "_pattern",
            Rust::GenericPattern => "generic_pattern",
            Rust::TuplePattern => "tuple_pattern",
            Rust::SlicePattern => "slice_pattern",
            Rust::TupleStructPattern => "tuple_struct_pattern",
            Rust::StructPattern => "struct_pattern",
            Rust::FieldPattern => "field_pattern",
            Rust::RemainingFieldPattern => "remaining_field_pattern",
            Rust::MutPattern => "mut_pattern",
            Rust::RangePattern => "range_pattern",
            Rust::RefPattern => "ref_pattern",
            Rust::CapturedPattern => "captured_pattern",
            Rust::ReferencePattern => "reference_pattern",
            Rust::OrPattern => "or_pattern",
            Rust::Literal2 => "_literal",
            Rust::LiteralPattern => "_literal_pattern",
            Rust::NegativeLiteral => "negative_literal",
            Rust::StringLiteral => "string_literal",
            Rust::RawStringLiteral => "raw_string_literal",
            Rust::BooleanLiteral => "boolean_literal",
            Rust::LineComment => "line_comment",
            Rust::LineDocCommentMarker => "_line_doc_comment_marker",
            Rust::InnerDocCommentMarker2 => "inner_doc_comment_marker",
            Rust::OuterDocCommentMarker2 => "outer_doc_comment_marker",
            Rust::BlockComment => "block_comment",
            Rust::BlockDocCommentMarker => "_block_doc_comment_marker",
            Rust::SourceFileRepeat1 => "source_file_repeat1",
            Rust::MacroDefinitionRepeat1 => "macro_definition_repeat1",
            Rust::TokenTreePatternRepeat1 => "token_tree_pattern_repeat1",
            Rust::TokenTreeRepeat1 => "token_tree_repeat1",
            Rust::NonSpecialTokenRepeat1 => "_non_special_token_repeat1",
            Rust::DeclarationListRepeat1 => "declaration_list_repeat1",
            Rust::EnumVariantListRepeat1 => "enum_variant_list_repeat1",
            Rust::EnumVariantListRepeat2 => "enum_variant_list_repeat2",
            Rust::FieldDeclarationListRepeat1 => "field_declaration_list_repeat1",
            Rust::OrderedFieldDeclarationListRepeat1 => "ordered_field_declaration_list_repeat1",
            Rust::FunctionModifiersRepeat1 => "function_modifiers_repeat1",
            Rust::WhereClauseRepeat1 => "where_clause_repeat1",
            Rust::TraitBoundsRepeat1 => "trait_bounds_repeat1",
            Rust::TypeParametersRepeat1 => "type_parameters_repeat1",
            Rust::UseListRepeat1 => "use_list_repeat1",
            Rust::ParametersRepeat1 => "parameters_repeat1",
            Rust::ForLifetimesRepeat1 => "for_lifetimes_repeat1",
            Rust::TupleTypeRepeat1 => "tuple_type_repeat1",
            Rust::UseBoundsRepeat1 => "use_bounds_repeat1",
            Rust::TypeArgumentsRepeat1 => "type_arguments_repeat1",
            Rust::DelimTokenTreeRepeat1 => "delim_token_tree_repeat1",
            Rust::ArgumentsRepeat1 => "arguments_repeat1",
            Rust::TupleExpressionRepeat1 => "tuple_expression_repeat1",
            Rust::FieldInitializerListRepeat1 => "field_initializer_list_repeat1",
            Rust::MatchBlockRepeat1 => "match_block_repeat1",
            Rust::MatchArmRepeat1 => "match_arm_repeat1",
            Rust::ClosureParametersRepeat1 => "closure_parameters_repeat1",
            Rust::TuplePatternRepeat1 => "tuple_pattern_repeat1",
            Rust::SlicePatternRepeat1 => "slice_pattern_repeat1",
            Rust::StructPatternRepeat1 => "struct_pattern_repeat1",
            Rust::StringLiteralRepeat1 => "string_literal_repeat1",
            Rust::FieldIdentifier => "field_identifier",
            Rust::LetChain => "let_chain",
            Rust::ShorthandFieldIdentifier => "shorthand_field_identifier",
            Rust::TypeIdentifier => "type_identifier",
            Rust::Error => "ERROR",
        }
    }
}

impl From<u16> for Rust {
    fn from(x: u16) -> (r: Rust)
        ensures
            r == Rust::spec_from_id(x),
    {
        Rust::from_u16(x)
    }
}

impl vstd::std_specs::convert::FromSpecImpl<u16> for Rust {
    open spec fn obeys_from_spec() -> bool {
        true
    }

    open spec fn from_spec(x: u16) -> Rust {
        Rust::spec_from_id(x)
    }
}

/// A kind id read back from its kind gives that kind again.
pub proof fn lemma_id_round_trip(k: Rust)
    ensures
        Rust::spec_from_id(k.id()) == k,
{
}

/// Rust kinds counted as Halstead operators.
pub open spec fn rust_operator(k: Rust) -> bool {
    match k {
        Rust::LPAREN | Rust::LBRACE | Rust::LBRACK | Rust::EQGT | Rust::PLUS | Rust::STAR
        | Rust::Async | Rust::Await | Rust::Continue | Rust::For | Rust::If | Rust::Let
        | Rust::Loop | Rust::Match | Rust::Return | Rust::Unsafe | Rust::While | Rust::EQ
        | Rust::COMMA | Rust::DASHGT | Rust::QMARK | Rust::LT | Rust::GT | Rust::AMP
        | Rust::MutableSpecifier | Rust::DOTDOT | Rust::DOTDOTEQ | Rust::DASH | Rust::AMPAMP
        | Rust::PIPE | Rust::CARET | Rust::EQEQ | Rust::BANGEQ | Rust::LTEQ | Rust::GTEQ
        | Rust::LTLT | Rust::GTGT | Rust::PERCENT | Rust::PLUSEQ | Rust::DASHEQ | Rust::STAREQ
        | Rust::SLASHEQ | Rust::PERCENTEQ | Rust::AMPEQ | Rust::PIPEEQ | Rust::CARETEQ
        | Rust::LTLTEQ | Rust::GTGTEQ | Rust::Move | Rust::DOT | Rust::PrimitiveType | Rust::Fn
        | Rust::SEMI => true,
        _ => false,
    }
}

/// Rust kinds counted as Halstead operands.
pub open spec fn rust_operand(k: Rust) -> bool {
    match k {
        Rust::Identifier | Rust::StringLiteral | Rust::RawStringLiteral | Rust::IntegerLiteral
        | Rust::FloatLiteral | Rust::BooleanLiteral | Rust::SelfKw | Rust::CharLiteral
        | Rust::UNDERSCORE => true,
        _ => false,
    }
}

/// How a Rust node counts in the Halstead measures; a few tokens count only
/// where their parent shows what they stand for.
pub open spec fn rust_op_type(tree: Tree, node: int) -> HalsteadType {
    let k = Rust::spec_from_id(tree.nodes@[node].kind_id);
    if k == Rust::PIPEPIPE || k == Rust::SLASH {
        match tree.nodes@[node].parent {
            Some(p) => if Rust::spec_from_id(tree.nodes@[p as int].kind_id) == Rust::BinaryExpression {
                HalsteadType::Operator
            } else {
                HalsteadType::Unknown
            },
            None => HalsteadType::Unknown,
        }
    } else     if k == Rust::BANG {
        match tree.nodes@[node].parent {
            Some(p) => if Rust::spec_from_id(tree.nodes@[p as int].kind_id) != Rust::InnerDocCommentMarker {
                HalsteadType::Operator
            } else {
                HalsteadType::Unknown
            },
            None => HalsteadType::Unknown,
        }
    } else if rust_operator(k) {
        HalsteadType::Operator
    } else if rust_operand(k) {
        HalsteadType::Operand
    } else {
        HalsteadType::Unknown
    }
}

/// The space kind of a Rust node.
pub open spec fn rust_space_kind(k: Rust) -> SpaceKind {
    match k {
        Rust::FunctionItem | Rust::ClosureExpression => SpaceKind::Function,
        Rust::TraitItem => SpaceKind::Trait,
        Rust::ImplItem => SpaceKind::Impl,
        Rust::SourceFile => SpaceKind::Unit,
        _ => SpaceKind::Unknown,
    }
}

/// The text under which a Rust operator counts: an opening bracket stands for the
/// pair it opens.
pub open spec fn rust_operator_text(id: u16) -> Seq<char> {
    match Rust::spec_from_id(id) {
        Rust::LPAREN => "()"@,
        Rust::LBRACK => "[]"@,
        Rust::LBRACE => "{}"@,
        k => k.text(),
    }
}

/// The name of a Rust item: its `name` field, else its `type` field (an `impl`
/// names its type), else the anonymous name.
pub open spec fn rust_func_name(tree: Tree, node: int, code: Seq<u8>) -> Option<Seq<char>> {
    match field_text(tree, node, Field::Name, code) {
        Some(t) => t,
        None => match field_text(tree, node, Field::Type, code) {
            Some(t) => t,
            None => Some(anonymous()),
        },
    }
}

/// The Rust grammar.
pub struct RustCode;

impl Getter for RustCode {
    open spec fn space_kind_of(tree: Tree, node: int) -> SpaceKind {
        rust_space_kind(Rust::spec_from_id(tree.nodes@[node].kind_id))
    }

    open spec fn op_type_of(tree: Tree, node: int) -> HalsteadType {
        rust_op_type(tree, node)
    }

    open spec fn operator_text_of(id: u16) -> Seq<char> {
        rust_operator_text(id)
    }

    open spec fn name_of(tree: Tree, node: int, code: Seq<u8>) -> Option<Seq<char>> {
        rust_func_name(tree, node, code)
    }

    fn get_space_kind(tree: &Tree, node: usize) -> (r: SpaceKind)
        ensures
            r == rust_space_kind(Rust::spec_from_id(tree.nodes@[node as int].kind_id)),
    {
        match Rust::from_u16(tree.nodes[node].kind_id) {
            Rust::FunctionItem | Rust::ClosureExpression => SpaceKind::Function,
            Rust::TraitItem => SpaceKind::Trait,
            Rust::ImplItem => SpaceKind::Impl,
            Rust::SourceFile => SpaceKind::Unit,
            _ => SpaceKind::Unknown,
        }
    }

    fn get_func_space_name(tree: &Tree, node: usize, code: &[u8]) -> (r: Option<String>)
        ensures
            name_view(r) == rust_func_name(*tree, node as int, code@),
    {
        if let Some(t) = text_of_field(tree, node, Field::Name, code) {
            return t;
        }
        if let Some(t) = text_of_field(tree, node, Field::Type, code) {
            return t;
        }
        Some("<anonymous>".to_owned())
    }

    fn get_op_type(tree: &Tree, node: usize) -> (r: HalsteadType)
        ensures
            r == rust_op_type(*tree, node as int),
    {
        match Rust::from_u16(tree.nodes[node].kind_id) {
            Rust::PIPEPIPE | Rust::SLASH => {
                match tree.nodes[node].parent {
                    Some(p) => {
                        assert((p as int) < tree.nodes@.len());
                        if Rust::from_u16(tree.nodes[p].kind_id) == Rust::BinaryExpression {
                            HalsteadType::Operator
                        } else {
                            HalsteadType::Unknown
                        }
                    },
                    None => HalsteadType::Unknown,
                }
            },
            Rust::BANG => {
                match tree.nodes[node].parent {
                    Some(p) => {
                        assert((p as int) < tree.nodes@.len());
                        if Rust::from_u16(tree.nodes[p].kind_id) != Rust::InnerDocCommentMarker {
                            HalsteadType::Operator
                        } else {
                            HalsteadType::Unknown
                        }
                    },
                    None => HalsteadType::Unknown,
                }
            },
            Rust::LPAREN | Rust::LBRACE | Rust::LBRACK | Rust::EQGT | Rust::PLUS | Rust::STAR
            | Rust::Async | Rust::Await | Rust::Continue | Rust::For | Rust::If | Rust::Let
            | Rust::Loop | Rust::Match | Rust::Return | Rust::Unsafe | Rust::While | Rust::EQ
            | Rust::COMMA | Rust::DASHGT | Rust::QMARK | Rust::LT | Rust::GT | Rust::AMP
            | Rust::MutableSpecifier | Rust::DOTDOT | Rust::DOTDOTEQ | Rust::DASH
            | Rust::AMPAMP | Rust::PIPE | Rust::CARET | Rust::EQEQ | Rust::BANGEQ | Rust::LTEQ
            | Rust::GTEQ | Rust::LTLT | Rust::GTGT | Rust::PERCENT | Rust::PLUSEQ
            | Rust::DASHEQ | Rust::STAREQ | Rust::SLASHEQ | Rust::PERCENTEQ | Rust::AMPEQ
            | Rust::PIPEEQ | Rust::CARETEQ | Rust::LTLTEQ | Rust::GTGTEQ | Rust::Move
            | Rust::DOT | Rust::PrimitiveType | Rust::Fn | Rust::SEMI => {
                HalsteadType::Operator
            },
            Rust::Identifier | Rust::StringLiteral | Rust::RawStringLiteral
            | Rust::IntegerLiteral | Rust::FloatLiteral | Rust::BooleanLiteral | Rust::SelfKw
            | Rust::CharLiteral | Rust::UNDERSCORE => {
                HalsteadType::Operand
            },
            _ => HalsteadType::Unknown,
        }
    }

    fn get_operator_id_as_str(id: u16) -> (r: &'static str)
        ensures
            r@ == rust_operator_text(id),
    {
        match Rust::from_u16(id) {
            Rust::LPAREN => "()",
            Rust::LBRACK => "[]",
            Rust::LBRACE => "{}",
            k => k.as_str(),
        }
    }
}

} // verus!
