use vstd::prelude::*;

use crate::getter::{Getter, anonymous, field_text, name_view, text_of_field};
use crate::node::{Field, Tree};
use crate::spaces::{HalsteadType, SpaceKind};

verus! {

/// Node kinds of the TypeScript grammar, in the grammar's own numbering.
#[derive(Clone, Copy, Debug, PartialEq, Eq, Structural)]
pub enum Typescript {
    End,
    Identifier,
    HashBangLine,
    Export,
    STAR,
    Default,
    Type,
    EQ,
    As,
    Namespace,
    LBRACE,
    COMMA,
    RBRACE,
    Typeof,
    Import2,
    From,
    With,
    Assert,
    Var,
    Let,
    Const,
    BANG,
    Else,
    If,
    Switch,
    For,
    LPAREN,
    SEMI,
    RPAREN,
    Await,
    In,
    Of,
    While,
    Do,
    Try,
    Break,
    Continue,
    Debugger,
    Return,
    Throw,
    COLON,
    Case,
    Catch,
    Finally,
    Yield,
    LBRACK,
    RBRACK,
    DOT,
    Class2,
    Async,
    Function,
    EQGT,
    QMARKDOT,
    New,
    Using,
    PLUSEQ,
    DASHEQ,
    STAREQ,
    SLASHEQ,
    PERCENTEQ,
    CARETEQ,
    AMPEQ,
    PIPEEQ,
    GTGTEQ,
    GTGTGTEQ,
    LTLTEQ,
    STARSTAREQ,
    AMPAMPEQ,
    PIPEPIPEEQ,
    QMARKQMARKEQ,
    DOTDOTDOT,
    AMPAMP,
    PIPEPIPE,
    GTGT,
    GTGTGT,
    LTLT,
    AMP,
    CARET,
    PIPE,
    PLUS,
    DASH,
    SLASH,
    PERCENT,
    STARSTAR,
    LT,
    LTEQ,
    EQEQ,
    EQEQEQ,
    BANGEQ,
    BANGEQEQ,
    GTEQ,
    GT,
    QMARKQMARK,
    Instanceof,
    TILDE,
    Void,
    Delete,
    PLUSPLUS,
    DASHDASH,
    DQUOTE,
    SQUOTE,
    StringFragment,
    StringFragment2,
    EscapeSequence,
    Comment,
    BQUOTE,
    DOLLARLBRACE,
    SLASH2,
    RegexPattern,
    RegexFlags,
    Number,
    PrivatePropertyIdentifier,
    Target,
    Meta,
    This,
    Super,
    True,
    False,
    Null,
    Undefined,
    AT,
    Static,
    Readonly,
    Get,
    SetLiteral,
    QMARK,
    Declare,
    Public,
    Private,
    Protected,
    Override,
    Module2,
    Any,
    Number2,
    Boolean,
    String2,
    Symbol,
    Object2,
    Abstract,
    Accessor,
    Satisfies,
    Require,
    Extends,
    Implements,
    Global,
    Interface,
    Enum,
    DASHQMARKCOLON,
    PLUSQMARKCOLON,
    QMARKCOLON,
    Asserts2,
    Infer,
    Is,
    Keyof,
    UniqueSymbol,
    Unknown,
    Never,
    LBRACEPIPE,
    PIPERBRACE,
    AutomaticSemicolon,
    StringFragment3,
    QMARK2,
    HtmlComment,
    JsxText,
    FunctionSignatureAutomaticSemicolon,
    ErrorRecovery,
    Program,
    ExportStatement,
    NamespaceExport,
    ExportClause,
    ExportSpecifier,
    ModuleExportName,
    Declaration,
    Import,
    ImportStatement,
    ImportClause,
    FromClause,
    NamespaceImport,
    NamedImports,
    ImportSpecifier,
    ImportAttribute,
    Statement,
    ExpressionStatement,
    VariableDeclaration,
    LexicalDeclaration,
    VariableDeclarator,
    StatementBlock,
    ElseClause,
    IfStatement,
    SwitchStatement,
    ForStatement,
    ForInStatement,
    ForHeader,
    WhileStatement,
    DoStatement,
    TryStatement,
    WithStatement,
    BreakStatement,
    ContinueStatement,
    DebuggerStatement,
    ReturnStatement,
    ThrowStatement,
    EmptyStatement,
    LabeledStatement,
    SwitchBody,
    SwitchCase,
    SwitchDefault,
    CatchClause,
    FinallyClause,
    ParenthesizedExpression,
    Expression,
    PrimaryExpression,
    YieldExpression,
    Object,
    ObjectPattern,
    AssignmentPattern,
    ObjectAssignmentPattern,
    Array,
    ArrayPattern,
    NestedIdentifier,
    Class,
    ClassDeclaration,
    ClassHeritage,
    FunctionExpression,
    FunctionDeclaration,
    GeneratorFunction,
    GeneratorFunctionDeclaration,
    ArrowFunction,
    CallSignature2,
    FormalParameter,
    OptionalChain,
    CallExpression,
    NewExpression,
    AwaitExpression,
    MemberExpression,
    SubscriptExpression,
    AssignmentExpression,
    AugmentedAssignmentLhs,
    AugmentedAssignmentExpression,
    Initializer,
    DestructuringPattern,
    SpreadElement,
    TernaryExpression,
    BinaryExpression,
    UnaryExpression,
    UpdateExpression,
    SequenceExpression,
    String,
    TemplateString,
    TemplateSubstitution,
    Regex,
    MetaProperty,
    Arguments,
    Decorator,
    MemberExpression2,
    CallExpression2,
    ClassBody,
    FormalParameters,
    ClassStaticBlock,
    Pattern,
    RestPattern,
    MethodDefinition,
    Pair,
    PairPattern,
    PropertyName,
    ComputedPropertyName,
    PublicFieldDefinition,
    ImportIdentifier,
    NonNullExpression,
    MethodSignature,
    AbstractMethodSignature,
    FunctionSignature,
    ParenthesizedExpression2,
    TypeAssertion,
    AsExpression,
    SatisfiesExpression,
    InstantiationExpression,
    ImportRequireClause,
    ExtendsClause,
    ExtendsClauseSingle,
    ImplementsClause,
    AmbientDeclaration,
    AbstractClassDeclaration,
    Module,
    InternalModule,
    Module3,
    ImportAlias,
    NestedTypeIdentifier,
    InterfaceDeclaration,
    ExtendsTypeClause,
    EnumDeclaration,
    EnumBody,
    EnumAssignment,
    TypeAliasDeclaration,
    AccessibilityModifier,
    OverrideModifier,
    RequiredParameter,
    OptionalParameter,
    ParameterName,
    OmittingTypeAnnotation,
    AddingTypeAnnotation,
    OptingTypeAnnotation,
    TypeAnnotation,
    MemberExpression3,
    CallExpression3,
    Asserts,
    AssertsAnnotation,
    Type2,
    RequiredParameter2,
    OptionalParameter2,
    OptionalType,
    RestType,
    TupleTypeMember,
    ConstructorType,
    PrimaryType,
    TemplateType,
    TemplateLiteralType,
    InferType,
    ConditionalType,
    GenericType,
    TypePredicate,
    TypePredicateAnnotation,
    MemberExpression4,
    SubscriptExpression2,
    CallExpression4,
    InstantiationExpression2,
    TypeQuery,
    IndexTypeQuery,
    LookupType,
    MappedTypeClause,
    LiteralType,
    UnaryExpression2,
    ExistentialType,
    FlowMaybeType,
    ParenthesizedType,
    PredefinedType,
    TypeArguments,
    ObjectType,
    CallSignature,
    PropertySignature,
    TypeParameters,
    TypeParameter,
    DefaultType,
    Constraint,
    ConstructSignature,
    IndexSignature,
    ArrayType,
    TupleType,
    ReadonlyType,
    UnionType,
    IntersectionType,
    FunctionType,
    ProgramRepeat1,
    ExportStatementRepeat1,
    ExportClauseRepeat1,
    NamedImportsRepeat1,
    VariableDeclarationRepeat1,
    SwitchBodyRepeat1,
    ObjectRepeat1,
    ObjectPatternRepeat1,
    ArrayRepeat1,
    ArrayPatternRepeat1,
    SequenceExpressionRepeat1,
    StringRepeat1,
    StringRepeat2,
    TemplateStringRepeat1,
    ClassBodyRepeat1,
    FormalParametersRepeat1,
    ExtendsClauseRepeat1,
    ImplementsClauseRepeat1,
    ExtendsTypeClauseRepeat1,
    EnumBodyRepeat1,
    TemplateLiteralTypeRepeat1,
    ObjectTypeRepeat1,
    TypeParametersRepeat1,
    TupleTypeRepeat1,
    InterfaceBody,
    PropertyIdentifier,
    ShorthandPropertyIdentifier,
    ShorthandPropertyIdentifierPattern,
    StatementIdentifier,
    ThisType,
    TypeIdentifier,
    Error,
}

impl Typescript {
    /// The grammar's numeric id of this kind.
    pub open spec fn id(self) -> u16 {
        match self {
            Typescript::End => 0,
            Typescript::Identifier => 1,
            Typescript::HashBangLine => 2,
            Typescript::Export => 3,
            Typescript::STAR => 4,
            Typescript::Default => 5,
            Typescript::Type => 6,
            Typescript::EQ => 7,
            Typescript::As => 8,
            Typescript::Namespace => 9,
            Typescript::LBRACE => 10,
            Typescript::COMMA => 11,
            Typescript::RBRACE => 12,
            Typescript::Typeof => 13,
            Typescript::Import2 => 14,
            Typescript::From => 15,
            Typescript::With => 16,
            Typescript::Assert => 17,
            Typescript::Var => 18,
            Typescript::Let => 19,
            Typescript::Const => 20,
            Typescript::BANG => 21,
            Typescript::Else => 22,
            Typescript::If => 23,
            Typescript::Switch => 24,
            Typescript::For => 25,
            Typescript::LPAREN => 26,
            Typescript::SEMI => 27,
            Typescript::RPAREN => 28,
            Typescript::Await => 29,
            Typescript::In => 30,
            Typescript::Of => 31,
            Typescript::While => 32,
            Typescript::Do => 33,
            Typescript::Try => 34,
            Typescript::Break => 35,
            Typescript::Continue => 36,
            Typescript::Debugger => 37,
            Typescript::Return => 38,
            Typescript::Throw => 39,
            Typescript::COLON => 40,
            Typescript::Case => 41,
            Typescript::Catch => 42,
            Typescript::Finally => 43,
            Typescript::Yield => 44,
            Typescript::LBRACK => 45,
            Typescript::RBRACK => 46,
            Typescript::DOT => 47,
            Typescript::Class2 => 48,
            Typescript::Async => 49,
            Typescript::Function => 50,
            Typescript::EQGT => 51,
            Typescript::QMARKDOT => 52,
            Typescript::New => 53,
            Typescript::Using => 54,
            Typescript::PLUSEQ => 55,
            Typescript::DASHEQ => 56,
            Typescript::STAREQ => 57,
            Typescript::SLASHEQ => 58,
            Typescript::PERCENTEQ => 59,
            Typescript::CARETEQ => 60,
            Typescript::AMPEQ => 61,
            Typescript::PIPEEQ => 62,
            Typescript::GTGTEQ => 63,
            Typescript::GTGTGTEQ => 64,
            Typescript::LTLTEQ => 65,
            Typescript::STARSTAREQ => 66,
            Typescript::AMPAMPEQ => 67,
            Typescript::PIPEPIPEEQ => 68,
            Typescript::QMARKQMARKEQ => 69,
            Typescript::DOTDOTDOT => 70,
            Typescript::AMPAMP => 71,
            Typescript::PIPEPIPE => 72,
            Typescript::GTGT => 73,
            Typescript::GTGTGT => 74,
            Typescript::LTLT => 75,
            Typescript::AMP => 76,
            Typescript::CARET => 77,
            Typescript::PIPE => 78,
            Typescript::PLUS => 79,
            Typescript::DASH => 80,
            Typescript::SLASH => 81,
            Typescript::PERCENT => 82,
            Typescript::STARSTAR => 83,
            Typescript::LT => 84,
            Typescript::LTEQ => 85,
            Typescript::EQEQ => 86,
            Typescript::EQEQEQ => 87,
            Typescript::BANGEQ => 88,
            Typescript::BANGEQEQ => 89,
            Typescript::GTEQ => 90,
            Typescript::GT => 91,
            Typescript::QMARKQMARK => 92,
            Typescript::Instanceof => 93,
            Typescript::TILDE => 94,
            Typescript::Void => 95,
            Typescript::Delete => 96,
            Typescript::PLUSPLUS => 97,
            Typescript::DASHDASH => 98,
            Typescript::DQUOTE => 99,
            Typescript::SQUOTE => 100,
            Typescript::StringFragment => 101,
            Typescript::StringFragment2 => 102,
            Typescript::EscapeSequence => 103,
            Typescript::Comment => 104,
            Typescript::BQUOTE => 105,
            Typescript::DOLLARLBRACE => 106,
            Typescript::SLASH2 => 107,
            Typescript::RegexPattern => 108,
            Typescript::RegexFlags => 109,
            Typescript::Number => 110,
            Typescript::PrivatePropertyIdentifier => 111,
            Typescript::Target => 112,
            Typescript::Meta => 113,
            Typescript::This => 114,
            Typescript::Super => 115,
            Typescript::True => 116,
            Typescript::False => 117,
            Typescript::Null => 118,
            Typescript::Undefined => 119,
            Typescript::AT => 120,
            Typescript::Static => 121,
            Typescript::Readonly => 122,
            Typescript::Get => 123,
            Typescript::SetLiteral => 124,
            Typescript::QMARK => 125,
            Typescript::Declare => 126,
            Typescript::Public => 127,
            Typescript::Private => 128,
            Typescript::Protected => 129,
            Typescript::Override => 130,
            Typescript::Module2 => 131,
            Typescript::Any => 132,
            Typescript::Number2 => 133,
            Typescript::Boolean => 134,
            Typescript::String2 => 135,
            Typescript::Symbol => 136,
            Typescript::Object2 => 137,
            Typescript::Abstract => 138,
            Typescript::Accessor => 139,
            Typescript::Satisfies => 140,
            Typescript::Require => 141,
            Typescript::Extends => 142,
            Typescript::Implements => 143,
            Typescript::Global => 144,
            Typescript::Interface => 145,
            Typescript::Enum => 146,
            Typescript::DASHQMARKCOLON => 147,
            Typescript::PLUSQMARKCOLON => 148,
            Typescript::QMARKCOLON => 149,
            Typescript::Asserts2 => 150,
            Typescript::Infer => 151,
            Typescript::Is => 152,
            Typescript::Keyof => 153,
            Typescript::UniqueSymbol => 154,
            Typescript::Unknown => 155,
            Typescript::Never => 156,
            Typescript::LBRACEPIPE => 157,
            Typescript::PIPERBRACE => 158,
            Typescript::AutomaticSemicolon => 159,
            Typescript::StringFragment3 => 160,
            Typescript::QMARK2 => 161,
            Typescript::HtmlComment => 162,
            Typescript::JsxText => 163,
            Typescript::FunctionSignatureAutomaticSemicolon => 164,
            Typescript::ErrorRecovery => 165,
            Typescript::Program => 166,
            Typescript::ExportStatement => 167,
            Typescript::NamespaceExport => 168,
            Typescript::ExportClause => 169,
            Typescript::ExportSpecifier => 170,
            Typescript::ModuleExportName => 171,
            Typescript::Declaration => 172,
            Typescript::Import => 173,
            Typescript::ImportStatement => 174,
            Typescript::ImportClause => 175,
            Typescript::FromClause => 176,
            Typescript::NamespaceImport => 177,
            Typescript::NamedImports => 178,
            Typescript::ImportSpecifier => 179,
            Typescript::ImportAttribute => 180,
            Typescript::Statement => 181,
            Typescript::ExpressionStatement => 182,
            Typescript::VariableDeclaration => 183,
            Typescript::LexicalDeclaration => 184,
            Typescript::VariableDeclarator => 185,
            Typescript::StatementBlock => 186,
            Typescript::ElseClause => 187,
            Typescript::IfStatement => 188,
            Typescript::SwitchStatement => 189,
            Typescript::ForStatement => 190,
            Typescript::ForInStatement => 191,
            Typescript::ForHeader => 192,
            Typescript::WhileStatement => 193,
            Typescript::DoStatement => 194,
            Typescript::TryStatement => 195,
            Typescript::WithStatement => 196,
            Typescript::BreakStatement => 197,
            Typescript::ContinueStatement => 198,
            Typescript::DebuggerStatement => 199,
            Typescript::ReturnStatement => 200,
            Typescript::ThrowStatement => 201,
            Typescript::EmptyStatement => 202,
            Typescript::LabeledStatement => 203,
            Typescript::SwitchBody => 204,
            Typescript::SwitchCase => 205,
            Typescript::SwitchDefault => 206,
            Typescript::CatchClause => 207,
            Typescript::FinallyClause => 208,
            Typescript::ParenthesizedExpression => 209,
            Typescript::Expression => 210,
            Typescript::PrimaryExpression => 211,
            Typescript::YieldExpression => 212,
            Typescript::Object => 213,
            Typescript::ObjectPattern => 214,
            Typescript::AssignmentPattern => 215,
            Typescript::ObjectAssignmentPattern => 216,
            Typescript::Array => 217,
            Typescript::ArrayPattern => 218,
            Typescript::NestedIdentifier => 219,
            Typescript::Class => 220,
            Typescript::ClassDeclaration => 221,
            Typescript::ClassHeritage => 222,
            Typescript::FunctionExpression => 223,
            Typescript::FunctionDeclaration => 224,
            Typescript::GeneratorFunction => 225,
            Typescript::GeneratorFunctionDeclaration => 226,
            Typescript::ArrowFunction => 227,
            Typescript::CallSignature2 => 228,
            Typescript::FormalParameter => 229,
            Typescript::OptionalChain => 230,
            Typescript::CallExpression => 231,
            Typescript::NewExpression => 232,
            Typescript::AwaitExpression => 233,
            Typescript::MemberExpression => 234,
            Typescript::SubscriptExpression => 235,
            Typescript::AssignmentExpression => 236,
            Typescript::AugmentedAssignmentLhs => 237,
            Typescript::AugmentedAssignmentExpression => 238,
            Typescript::Initializer => 239,
            Typescript::DestructuringPattern => 240,
            Typescript::SpreadElement => 241,
            Typescript::TernaryExpression => 242,
            Typescript::BinaryExpression => 243,
            Typescript::UnaryExpression => 244,
            Typescript::UpdateExpression => 245,
            Typescript::SequenceExpression => 246,
            Typescript::String => 247,
            Typescript::TemplateString => 248,
            Typescript::TemplateSubstitution => 249,
            Typescript::Regex => 250,
            Typescript::MetaProperty => 251,
            Typescript::Arguments => 252,
            Typescript::Decorator => 253,
            Typescript::MemberExpression2 => 254,
            Typescript::CallExpression2 => 255,
            Typescript::ClassBody => 256,
            Typescript::FormalParameters => 257,
            Typescript::ClassStaticBlock => 258,
            Typescript::Pattern => 259,
            Typescript::RestPattern => 260,
            Typescript::MethodDefinition => 261,
            Typescript::Pair => 262,
            Typescript::PairPattern => 263,
            Typescript::PropertyName => 264,
            Typescript::ComputedPropertyName => 265,
            Typescript::PublicFieldDefinition => 266,
            Typescript::ImportIdentifier => 267,
            Typescript::NonNullExpression => 268,
            Typescript::MethodSignature => 269,
            Typescript::AbstractMethodSignature => 270,
            Typescript::FunctionSignature => 271,
            Typescript::ParenthesizedExpression2 => 272,
            Typescript::TypeAssertion => 273,
            Typescript::AsExpression => 274,
            Typescript::SatisfiesExpression => 275,
            Typescript::InstantiationExpression => 276,
            Typescript::ImportRequireClause => 277,
            Typescript::ExtendsClause => 278,
            Typescript::ExtendsClauseSingle => 279,
            Typescript::ImplementsClause => 280,
            Typescript::AmbientDeclaration => 281,
            Typescript::AbstractClassDeclaration => 282,
            Typescript::Module => 283,
            Typescript::InternalModule => 284,
            Typescript::Module3 => 285,
            Typescript::ImportAlias => 286,
            Typescript::NestedTypeIdentifier => 287,
            Typescript::InterfaceDeclaration => 288,
            Typescript::ExtendsTypeClause => 289,
            Typescript::EnumDeclaration => 290,
            Typescript::EnumBody => 291,
            Typescript::EnumAssignment => 292,
            Typescript::TypeAliasDeclaration => 293,
            Typescript::AccessibilityModifier => 294,
            Typescript::OverrideModifier => 295,
            Typescript::RequiredParameter => 296,
            Typescript::OptionalParameter => 297,
            Typescript::ParameterName => 298,
            Typescript::OmittingTypeAnnotation => 299,
            Typescript::AddingTypeAnnotation => 300,
            Typescript::OptingTypeAnnotation => 301,
            Typescript::TypeAnnotation => 302,
            Typescript::MemberExpression3 => 303,
            Typescript::CallExpression3 => 304,
            Typescript::Asserts => 305,
            Typescript::AssertsAnnotation => 306,
            Typescript::Type2 => 307,
            Typescript::RequiredParameter2 => 308,
            Typescript::OptionalParameter2 => 309,
            Typescript::OptionalType => 310,
            Typescript::RestType => 311,
            Typescript::TupleTypeMember => 312,
            Typescript::ConstructorType => 313,
            Typescript::PrimaryType => 314,
            Typescript::TemplateType => 315,
            Typescript::TemplateLiteralType => 316,
            Typescript::InferType => 317,
            Typescript::ConditionalType => 318,
            Typescript::GenericType => 319,
            Typescript::TypePredicate => 320,
            Typescript::TypePredicateAnnotation => 321,
            Typescript::MemberExpression4 => 322,
            Typescript::SubscriptExpression2 => 323,
            Typescript::CallExpression4 => 324,
            Typescript::InstantiationExpression2 => 325,
            Typescript::TypeQuery => 326,
            Typescript::IndexTypeQuery => 327,
            Typescript::LookupType => 328,
            Typescript::MappedTypeClause => 329,
            Typescript::LiteralType => 330,
            Typescript::UnaryExpression2 => 331,
            Typescript::ExistentialType => 332,
            Typescript::FlowMaybeType => 333,
            Typescript::ParenthesizedType => 334,
            Typescript::PredefinedType => 335,
            Typescript::TypeArguments => 336,
            Typescript::ObjectType => 337,
            Typescript::CallSignature => 338,
            Typescript::PropertySignature => 339,
            Typescript::TypeParameters => 340,
            Typescript::TypeParameter => 341,
            Typescript::DefaultType => 342,
            Typescript::Constraint => 343,
            Typescript::ConstructSignature => 344,
            Typescript::IndexSignature => 345,
            Typescript::ArrayType => 346,
            Typescript::TupleType => 347,
            Typescript::ReadonlyType => 348,
            Typescript::UnionType => 349,
            Typescript::IntersectionType => 350,
            Typescript::FunctionType => 351,
            Typescript::ProgramRepeat1 => 352,
            Typescript::ExportStatementRepeat1 => 353,
            Typescript::ExportClauseRepeat1 => 354,
            Typescript::NamedImportsRepeat1 => 355,
            Typescript::VariableDeclarationRepeat1 => 356,
            Typescript::SwitchBodyRepeat1 => 357,
            Typescript::ObjectRepeat1 => 358,
            Typescript::ObjectPatternRepeat1 => 359,
            Typescript::ArrayRepeat1 => 360,
            Typescript::ArrayPatternRepeat1 => 361,
            Typescript::SequenceExpressionRepeat1 => 362,
            Typescript::StringRepeat1 => 363,
            Typescript::StringRepeat2 => 364,
            Typescript::TemplateStringRepeat1 => 365,
            Typescript::ClassBodyRepeat1 => 366,
            Typescript::FormalParametersRepeat1 => 367,
            Typescript::ExtendsClauseRepeat1 => 368,
            Typescript::ImplementsClauseRepeat1 => 369,
            Typescript::ExtendsTypeClauseRepeat1 => 370,
            Typescript::EnumBodyRepeat1 => 371,
            Typescript::TemplateLiteralTypeRepeat1 => 372,
            Typescript::ObjectTypeRepeat1 => 373,
            Typescript::TypeParametersRepeat1 => 374,
            Typescript::TupleTypeRepeat1 => 375,
            Typescript::InterfaceBody => 376,
            Typescript::PropertyIdentifier => 377,
            Typescript::ShorthandPropertyIdentifier => 378,
            Typescript::ShorthandPropertyIdentifierPattern => 379,
            Typescript::StatementIdentifier => 380,
            Typescript::ThisType => 381,
            Typescript::TypeIdentifier => 382,
            Typescript::Error => 383,
        }
    }

    /// The kind that a numeric id stands for: ids past the table give `Error`.
    pub open spec fn spec_from_id(x: u16) -> Typescript {
        match x {
            0 => Typescript::End,
            1 => Typescript::Identifier,
            2 => Typescript::HashBangLine,
            3 => Typescript::Export,
            4 => Typescript::STAR,
            5 => Typescript::Default,
            6 => Typescript::Type,
            7 => Typescript::EQ,
            8 => Typescript::As,
            9 => Typescript::Namespace,
            10 => Typescript::LBRACE,
            11 => Typescript::COMMA,
            12 => Typescript::RBRACE,
            13 => Typescript::Typeof,
            14 => Typescript::Import2,
            15 => Typescript::From,
            16 => Typescript::With,
            17 => Typescript::Assert,
            18 => Typescript::Var,
            19 => Typescript::Let,
            20 => Typescript::Const,
            21 => Typescript::BANG,
            22 => Typescript::Else,
            23 => Typescript::If,
            24 => Typescript::Switch,
            25 => Typescript::For,
            26 => Typescript::LPAREN,
            27 => Typescript::SEMI,
            28 => Typescript::RPAREN,
            29 => Typescript::Await,
            30 => Typescript::In,
            31 => Typescript::Of,
            32 => Typescript::While,
            33 => Typescript::Do,
            34 => Typescript::Try,
            35 => Typescript::Break,
            36 => Typescript::Continue,
            37 => Typescript::Debugger,
            38 => Typescript::Return,
            39 => Typescript::Throw,
            40 => Typescript::COLON,
            41 => Typescript::Case,
            42 => Typescript::Catch,
            43 => Typescript::Finally,
            44 => Typescript::Yield,
            45 => Typescript::LBRACK,
            46 => Typescript::RBRACK,
            47 => Typescript::DOT,
            48 => Typescript::Class2,
            49 => Typescript::Async,
            50 => Typescript::Function,
            51 => Typescript::EQGT,
            52 => Typescript::QMARKDOT,
            53 => Typescript::New,
            54 => Typescript::Using,
            55 => Typescript::PLUSEQ,
            56 => Typescript::DASHEQ,
            57 => Typescript::STAREQ,
            58 => Typescript::SLASHEQ,
            59 => Typescript::PERCENTEQ,
            60 => Typescript::CARETEQ,
            61 => Typescript::AMPEQ,
            62 => Typescript::PIPEEQ,
            63 => Typescript::GTGTEQ,
            64 => Typescript::GTGTGTEQ,
            65 => Typescript::LTLTEQ,
            66 => Typescript::STARSTAREQ,
            67 => Typescript::AMPAMPEQ,
            68 => Typescript::PIPEPIPEEQ,
            69 => Typescript::QMARKQMARKEQ,
            70 => Typescript::DOTDOTDOT,
            71 => Typescript::AMPAMP,
            72 => Typescript::PIPEPIPE,
            73 => Typescript::GTGT,
            74 => Typescript::GTGTGT,
            75 => Typescript::LTLT,
            76 => Typescript::AMP,
            77 => Typescript::CARET,
            78 => Typescript::PIPE,
            79 => Typescript::PLUS,
            80 => Typescript::DASH,
            81 => Typescript::SLASH,
            82 => Typescript::PERCENT,
            83 => Typescript::STARSTAR,
            84 => Typescript::LT,
            85 => Typescript::LTEQ,
            86 => Typescript::EQEQ,
            87 => Typescript::EQEQEQ,
            88 => Typescript::BANGEQ,
            89 => Typescript::BANGEQEQ,
            90 => Typescript::GTEQ,
            91 => Typescript::GT,
            92 => Typescript::QMARKQMARK,
            93 => Typescript::Instanceof,
            94 => Typescript::TILDE,
            95 => Typescript::Void,
            96 => Typescript::Delete,
            97 => Typescript::PLUSPLUS,
            98 => Typescript::DASHDASH,
            99 => Typescript::DQUOTE,
            100 => Typescript::SQUOTE,
            101 => Typescript::StringFragment,
            102 => Typescript::StringFragment2,
            103 => Typescript::EscapeSequence,
            104 => Typescript::Comment,
            105 => Typescript::BQUOTE,
            106 => Typescript::DOLLARLBRACE,
            107 => Typescript::SLASH2,
            108 => Typescript::RegexPattern,
            109 => Typescript::RegexFlags,
            110 => Typescript::Number,
            111 => Typescript::PrivatePropertyIdentifier,
            112 => Typescript::Target,
            113 => Typescript::Meta,
            114 => Typescript::This,
            115 => Typescript::Super,
            116 => Typescript::True,
            117 => Typescript::False,
            118 => Typescript::Null,
            119 => Typescript::Undefined,
            120 => Typescript::AT,
            121 => Typescript::Static,
            122 => Typescript::Readonly,
            123 => Typescript::Get,
            124 => Typescript::SetLiteral,
            125 => Typescript::QMARK,
            126 => Typescript::Declare,
            127 => Typescript::Public,
            128 => Typescript::Private,
            129 => Typescript::Protected,
            130 => Typescript::Override,
            131 => Typescript::Module2,
            132 => Typescript::Any,
            133 => Typescript::Number2,
            134 => Typescript::Boolean,
            135 => Typescript::String2,
            136 => Typescript::Symbol,
            137 => Typescript::Object2,
            138 => Typescript::Abstract,
            139 => Typescript::Accessor,
            140 => Typescript::Satisfies,
            141 => Typescript::Require,
            142 => Typescript::Extends,
            143 => Typescript::Implements,
            144 => Typescript::Global,
            145 => Typescript::Interface,
            146 => Typescript::Enum,
            147 => Typescript::DASHQMARKCOLON,
            148 => Typescript::PLUSQMARKCOLON,
            149 => Typescript::QMARKCOLON,
            150 => Typescript::Asserts2,
            151 => Typescript::Infer,
            152 => Typescript::Is,
            153 => Typescript::Keyof,
            154 => Typescript::UniqueSymbol,
            155 => Typescript::Unknown,
            156 => Typescript::Never,
            157 => Typescript::LBRACEPIPE,
            158 => Typescript::PIPERBRACE,
            159 => Typescript::AutomaticSemicolon,
            160 => Typescript::StringFragment3,
            161 => Typescript::QMARK2,
            162 => Typescript::HtmlComment,
            163 => Typescript::JsxText,
            164 => Typescript::FunctionSignatureAutomaticSemicolon,
            165 => Typescript::ErrorRecovery,
            166 => Typescript::Program,
            167 => Typescript::ExportStatement,
            168 => Typescript::NamespaceExport,
            169 => Typescript::ExportClause,
            170 => Typescript::ExportSpecifier,
            171 => Typescript::ModuleExportName,
            172 => Typescript::Declaration,
            173 => Typescript::Import,
            174 => Typescript::ImportStatement,
            175 => Typescript::ImportClause,
            176 => Typescript::FromClause,
            177 => Typescript::NamespaceImport,
            178 => Typescript::NamedImports,
            179 => Typescript::ImportSpecifier,
            180 => Typescript::ImportAttribute,
            181 => Typescript::Statement,
            182 => Typescript::ExpressionStatement,
            183 => Typescript::VariableDeclaration,
            184 => Typescript::LexicalDeclaration,
            185 => Typescript::VariableDeclarator,
            186 => Typescript::StatementBlock,
            187 => Typescript::ElseClause,
            188 => Typescript::IfStatement,
            189 => Typescript::SwitchStatement,
            190 => Typescript::ForStatement,
            191 => Typescript::ForInStatement,
            192 => Typescript::ForHeader,
            193 => Typescript::WhileStatement,
            194 => Typescript::DoStatement,
            195 => Typescript::TryStatement,
            196 => Typescript::WithStatement,
            197 => Typescript::BreakStatement,
            198 => Typescript::ContinueStatement,
            199 => Typescript::DebuggerStatement,
            200 => Typescript::ReturnStatement,
            201 => Typescript::ThrowStatement,
            202 => Typescript::EmptyStatement,
            203 => Typescript::LabeledStatement,
            204 => Typescript::SwitchBody,
            205 => Typescript::SwitchCase,
            206 => Typescript::SwitchDefault,
            207 => Typescript::CatchClause,
            208 => Typescript::FinallyClause,
            209 => Typescript::ParenthesizedExpression,
            210 => Typescript::Expression,
            211 => Typescript::PrimaryExpression,
            212 => Typescript::YieldExpression,
            213 => Typescript::Object,
            214 => Typescript::ObjectPattern,
            215 => Typescript::AssignmentPattern,
            216 => Typescript::ObjectAssignmentPattern,
            217 => Typescript::Array,
            218 => Typescript::ArrayPattern,
            219 => Typescript::NestedIdentifier,
            220 => Typescript::Class,
            221 => Typescript::ClassDeclaration,
            222 => Typescript::ClassHeritage,
            223 => Typescript::FunctionExpression,
            224 => Typescript::FunctionDeclaration,
            225 => Typescript::GeneratorFunction,
            226 => Typescript::GeneratorFunctionDeclaration,
            227 => Typescript::ArrowFunction,
            228 => Typescript::CallSignature2,
            229 => Typescript::FormalParameter,
            230 => Typescript::OptionalChain,
            231 => Typescript::CallExpression,
            232 => Typescript::NewExpression,
            233 => Typescript::AwaitExpression,
            234 => Typescript::MemberExpression,
            235 => Typescript::SubscriptExpression,
            236 => Typescript::AssignmentExpression,
            237 => Typescript::AugmentedAssignmentLhs,
            238 => Typescript::AugmentedAssignmentExpression,
            239 => Typescript::Initializer,
            240 => Typescript::DestructuringPattern,
            241 => Typescript::SpreadElement,
            242 => Typescript::TernaryExpression,
            243 => Typescript::BinaryExpression,
            244 => Typescript::UnaryExpression,
            245 => Typescript::UpdateExpression,
            246 => Typescript::SequenceExpression,
            247 => Typescript::String,
            248 => Typescript::TemplateString,
            249 => Typescript::TemplateSubstitution,
            250 => Typescript::Regex,
            251 => Typescript::MetaProperty,
            252 => Typescript::Arguments,
            253 => Typescript::Decorator,
            254 => Typescript::MemberExpression2,
            255 => Typescript::CallExpression2,
            256 => Typescript::ClassBody,
            257 => Typescript::FormalParameters,
            258 => Typescript::ClassStaticBlock,
            259 => Typescript::Pattern,
            260 => Typescript::RestPattern,
            261 => Typescript::MethodDefinition,
            262 => Typescript::Pair,
            263 => Typescript::PairPattern,
            264 => Typescript::PropertyName,
            265 => Typescript::ComputedPropertyName,
            266 => Typescript::PublicFieldDefinition,
            267 => Typescript::ImportIdentifier,
            268 => Typescript::NonNullExpression,
            269 => Typescript::MethodSignature,
            270 => Typescript::AbstractMethodSignature,
            271 => Typescript::FunctionSignature,
            272 => Typescript::ParenthesizedExpression2,
            273 => Typescript::TypeAssertion,
            274 => Typescript::AsExpression,
            275 => Typescript::SatisfiesExpression,
            276 => Typescript::InstantiationExpression,
            277 => Typescript::ImportRequireClause,
            278 => Typescript::ExtendsClause,
            279 => Typescript::ExtendsClauseSingle,
            280 => Typescript::ImplementsClause,
            281 => Typescript::AmbientDeclaration,
            282 => Typescript::AbstractClassDeclaration,
            283 => Typescript::Module,
            284 => Typescript::InternalModule,
            285 => Typescript::Module3,
            286 => Typescript::ImportAlias,
            287 => Typescript::NestedTypeIdentifier,
            288 => Typescript::InterfaceDeclaration,
            289 => Typescript::ExtendsTypeClause,
            290 => Typescript::EnumDeclaration,
            291 => Typescript::EnumBody,
            292 => Typescript::EnumAssignment,
            293 => Typescript::TypeAliasDeclaration,
            294 => Typescript::AccessibilityModifier,
            295 => Typescript::OverrideModifier,
            296 => Typescript::RequiredParameter,
            297 => Typescript::OptionalParameter,
            298 => Typescript::ParameterName,
            299 => Typescript::OmittingTypeAnnotation,
            300 => Typescript::AddingTypeAnnotation,
            301 => Typescript::OptingTypeAnnotation,
            302 => Typescript::TypeAnnotation,
            303 => Typescript::MemberExpression3,
            304 => Typescript::CallExpression3,
            305 => Typescript::Asserts,
            306 => Typescript::AssertsAnnotation,
            307 => Typescript::Type2,
            308 => Typescript::RequiredParameter2,
            309 => Typescript::OptionalParameter2,
            310 => Typescript::OptionalType,
            311 => Typescript::RestType,
            312 => Typescript::TupleTypeMember,
            313 => Typescript::ConstructorType,
            314 => Typescript::PrimaryType,
            315 => Typescript::TemplateType,
            316 => Typescript::TemplateLiteralType,
            317 => Typescript::InferType,
            318 => Typescript::ConditionalType,
            319 => Typescript::GenericType,
            320 => Typescript::TypePredicate,
            321 => Typescript::TypePredicateAnnotation,
            322 => Typescript::MemberExpression4,
            323 => Typescript::SubscriptExpression2,
            324 => Typescript::CallExpression4,
            325 => Typescript::InstantiationExpression2,
            326 => Typescript::TypeQuery,
            327 => Typescript::IndexTypeQuery,
            328 => Typescript::LookupType,
            329 => Typescript::MappedTypeClause,
            330 => Typescript::LiteralType,
            331 => Typescript::UnaryExpression2,
            332 => Typescript::ExistentialType,
            333 => Typescript::FlowMaybeType,
            334 => Typescript::ParenthesizedType,
            335 => Typescript::PredefinedType,
            336 => Typescript::TypeArguments,
            337 => Typescript::ObjectType,
            338 => Typescript::CallSignature,
            339 => Typescript::PropertySignature,
            340 => Typescript::TypeParameters,
            341 => Typescript::TypeParameter,
            342 => Typescript::DefaultType,
            343 => Typescript::Constraint,
            344 => Typescript::ConstructSignature,
            345 => Typescript::IndexSignature,
            346 => Typescript::ArrayType,
            347 => Typescript::TupleType,
            348 => Typescript::ReadonlyType,
            349 => Typescript::UnionType,
            350 => Typescript::IntersectionType,
            351 => Typescript::FunctionType,
            352 => Typescript::ProgramRepeat1,
            353 => Typescript::ExportStatementRepeat1,
            354 => Typescript::ExportClauseRepeat1,
            355 => Typescript::NamedImportsRepeat1,
            356 => Typescript::VariableDeclarationRepeat1,
            357 => Typescript::SwitchBodyRepeat1,
            358 => Typescript::ObjectRepeat1,
            359 => Typescript::ObjectPatternRepeat1,
            360 => Typescript::ArrayRepeat1,
            361 => Typescript::ArrayPatternRepeat1,
            362 => Typescript::SequenceExpressionRepeat1,
            363 => Typescript::StringRepeat1,
            364 => Typescript::StringRepeat2,
            365 => Typescript::TemplateStringRepeat1,
            366 => Typescript::ClassBodyRepeat1,
            367 => Typescript::FormalParametersRepeat1,
            368 => Typescript::ExtendsClauseRepeat1,
            369 => Typescript::ImplementsClauseRepeat1,
            370 => Typescript::ExtendsTypeClauseRepeat1,
            371 => Typescript::EnumBodyRepeat1,
            372 => Typescript::TemplateLiteralTypeRepeat1,
            373 => Typescript::ObjectTypeRepeat1,
            374 => Typescript::TypeParametersRepeat1,
            375 => Typescript::TupleTypeRepeat1,
            376 => Typescript::InterfaceBody,
            377 => Typescript::PropertyIdentifier,
            378 => Typescript::ShorthandPropertyIdentifier,
            379 => Typescript::ShorthandPropertyIdentifierPattern,
            380 => Typescript::StatementIdentifier,
            381 => Typescript::ThisType,
            382 => Typescript::TypeIdentifier,
            _ => Typescript::Error,
        }
    }

    /// The display string of this kind.
    pub open spec fn text(self) -> Seq<char> {
        match self {
            Typescript::End => "end"@,
            Typescript::Identifier => "identifier"@,
            Typescript::HashBangLine => "hash_bang_line"@,
            Typescript::Export => "export"@,
            Typescript::STAR => "*"@,
            Typescript::Default => "default"@,
            Typescript::Type => "type"@,
            Typescript::EQ => "="@,
            Typescript::As => "as"@,
            Typescript::Namespace => "namespace"@,
            Typescript::LBRACE => "{"@,
            Typescript::COMMA => ","@,
            Typescript::RBRACE => "}"@,
            Typescript::Typeof => "typeof"@,
            Typescript::Import2 => "import"@,
            Typescript::From => "from"@,
            Typescript::With => "with"@,
            Typescript::Assert => "assert"@,
            Typescript::Var => "var"@,
            Typescript::Let => "let"@,
            Typescript::Const => "const"@,
            Typescript::BANG => "!"@,
            Typescript::Else => "else"@,
            Typescript::If => "if"@,
            Typescript::Switch => "switch"@,
            Typescript::For => "for"@,
            Typescript::LPAREN => "("@,
            Typescript::SEMI => ";"@,
            Typescript::RPAREN => ")"@,
            Typescript::Await => "await"@,
            Typescript::In => "in"@,
            Typescript::Of => "of"@,
            Typescript::While => "while"@,
            Typescript::Do => "do"@,
            Typescript::Try => "try"@,
            Typescript::Break => "break"@,
            Typescript::Continue => "continue"@,
            Typescript::Debugger => "debugger"@,
            Typescript::Return => "return"@,
            Typescript::Throw => "throw"@,
            Typescript::COLON => ":"@,
            Typescript::Case => "case"@,
            Typescript::Catch => "catch"@,
            Typescript::Finally => "finally"@,
            Typescript::Yield => "yield"@,
            Typescript::LBRACK => "["@,
            Typescript::RBRACK => "]"@,
            Typescript::DOT => "."@,
            Typescript::Class2 => "class"@,
            Typescript::Async => "async"@,
            Typescript::Function => "function"@,
            Typescript::EQGT => "=>"@,
            Typescript::QMARKDOT => "?."@,
            Typescript::New => "new"@,
            Typescript::Using => "using"@,
            Typescript::PLUSEQ => "+="@,
            Typescript::DASHEQ => "-="@,
            Typescript::STAREQ => "*="@,
            Typescript::SLASHEQ => "/="@,
            Typescript::PERCENTEQ => "%="@,
            Typescript::CARETEQ => "^="@,
            Typescript::AMPEQ => "&="@,
            Typescript::PIPEEQ => "|="@,
            Typescript::GTGTEQ => ">>="@,
            Typescript::GTGTGTEQ => ">>>="@,
            Typescript::LTLTEQ => "<<="@,
            Typescript::STARSTAREQ => "**="@,
            Typescript::AMPAMPEQ => "&&="@,
            Typescript::PIPEPIPEEQ => "||="@,
            Typescript::QMARKQMARKEQ => "??="@,
            Typescript::DOTDOTDOT => "..."@,
            Typescript::AMPAMP => "&&"@,
            Typescript::PIPEPIPE => "||"@,
            Typescript::GTGT => ">>"@,
            Typescript::GTGTGT => ">>>"@,
            Typescript::LTLT => "<<"@,
            Typescript::AMP => "&"@,
            Typescript::CARET => "^"@,
            Typescript::PIPE => "|"@,
            Typescript::PLUS => "+"@,
            Typescript::DASH => "-"@,
            Typescript::SLASH => "/"@,
            Typescript::PERCENT => "%"@,
            Typescript::STARSTAR => "**"@,
            Typescript::LT => "<"@,
            Typescript::LTEQ => "<="@,
            Typescript::EQEQ => "=="@,
            Typescript::EQEQEQ => "==="@,
            Typescript::BANGEQ => "!="@,
            Typescript::BANGEQEQ => "!=="@,
            Typescript::GTEQ => ">="@,
            Typescript::GT => ">"@,
            Typescript::QMARKQMARK => "??"@,
            Typescript::Instanceof => "instanceof"@,
            Typescript::TILDE => "~"@,
            Typescript::Void => "void"@,
            Typescript::Delete => "delete"@,
            Typescript::PLUSPLUS => "++"@,
            Typescript::DASHDASH => "--"@,
            Typescript::DQUOTE => "\""@,
            Typescript::SQUOTE => "'"@,
            Typescript::StringFragment => "string_fragment"@,
            Typescript::StringFragment2 => "string_fragment"@,
            Typescript::EscapeSequence => "escape_sequence"@,
            Typescript::Comment => "comment"@,
            Typescript::BQUOTE => "`"@,
            Typescript::DOLLARLBRACE => "${"@,
            Typescript::SLASH2 => "/"@,
            Typescript::RegexPattern => "regex_pattern"@,
            Typescript::RegexFlags => "regex_flags"@,
            Typescript::Number => "number"@,
            Typescript::PrivatePropertyIdentifier => "private_property_identifier"@,
            Typescript::Target => "target"@,
            Typescript::Meta => "meta"@,
            Typescript::This => "this"@,
            Typescript::Super => "super"@,
            Typescript::True => "true"@,
            Typescript::False => "false"@,
            Typescript::Null => "null"@,
            Typescript::Undefined => "undefined"@,
            Typescript::AT => "@"@,
            Typescript::Static => "static"@,
            Typescript::Readonly => "readonly"@,
            Typescript::Get => "get"@,
            Typescript::SetLiteral => "set"@,
            Typescript::QMARK => "?"@,
            Typescript::Declare => "declare"@,
            Typescript::Public => "public"@,
            Typescript::Private => "private"@,
            Typescript::Protected => "protected"@,
            Typescript::Override => "override"@,
            Typescript::Module2 => "module"@,
            Typescript::Any => "any"@,
            Typescript::Number2 => "number"@,
            Typescript::Boolean => "boolean"@,
            Typescript::String2 => "string"@,
            Typescript::Symbol => "symbol"@,
            Typescript::Object2 => "object"@,
            Typescript::Abstract => "abstract"@,
            Typescript::Accessor => "accessor"@,
            Typescript::Satisfies => "satisfies"@,
            Typescript::Require => "require"@,
            Typescript::Extends => "extends"@,
            Typescript::Implements => "implements"@,
            Typescript::Global => "global"@,
            Typescript::Interface => "interface"@,
            Typescript::Enum => "enum"@,
            Typescript::DASHQMARKCOLON => "-?:"@,
            Typescript::PLUSQMARKCOLON => "+?:"@,
            Typescript::QMARKCOLON => "?:"@,
            Typescript::Asserts2 => "asserts"@,
            Typescript::Infer => "infer"@,
            Typescript::Is => "is"@,
            Typescript::Keyof => "keyof"@,
            Typescript::UniqueSymbol => "unique symbol"@,
            Typescript::Unknown => "unknown"@,
            Typescript::Never => "never"@,
            Typescript::LBRACEPIPE => "{|"@,
            Typescript::PIPERBRACE => "|}"@,
            Typescript::AutomaticSemicolon => "_automatic_semicolon"@,
            Typescript::StringFragment3 => "string_fragment"@,
            Typescript::QMARK2 => "?"@,
            Typescript::HtmlComment => "html_comment"@,
            Typescript::JsxText => "jsx_text"@,
            Typescript::FunctionSignatureAutomaticSemicolon => "_function_signature_automatic_semicolon"@,
            Typescript::ErrorRecovery => "__error_recovery"@,
            Typescript::Program => "program"@,
            Typescript::ExportStatement => "export_statement"@,
            Typescript::NamespaceExport => "namespace_export"@,
            Typescript::ExportClause => "export_clause"@,
            Typescript::ExportSpecifier => "export_specifier"@,
            Typescript::ModuleExportName => "_module_export_name"@,
            Typescript::Declaration => "declaration"@,
            Typescript::Import => "import"@,
            Typescript::ImportStatement => "import_statement"@,
            Typescript::ImportClause => "import_clause"@,
            Typescript::FromClause => "_from_clause"@,
            Typescript::NamespaceImport => "namespace_import"@,
            Typescript::NamedImports => "named_imports"@,
            Typescript::ImportSpecifier => "import_specifier"@,
            Typescript::ImportAttribute => "import_attribute"@,
            Typescript::Statement => "statement"@,
            Typescript::ExpressionStatement => "expression_statement"@,
            Typescript::VariableDeclaration => "variable_declaration"@,
            Typescript::LexicalDeclaration => "lexical_declaration"@,
            Typescript::VariableDeclarator => "variable_declarator"@,
            Typescript::StatementBlock => "statement_block"@,
            Typescript::ElseClause => "else_clause"@,
            Typescript::IfStatement => "if_statement"@,
            Typescript::SwitchStatement => "switch_statement"@,
            Typescript::ForStatement => "for_statement"@,
            Typescript::ForInStatement => "for_in_statement"@,
            Typescript::ForHeader => "_for_header"@,
            Typescript::WhileStatement => "while_statement"@,
            Typescript::DoStatement => "do_statement"@,
            Typescript::TryStatement => "try_statement"@,
            Typescript::WithStatement => "with_statement"@,
            Typescript::BreakStatement => "break_statement"@,
            Typescript::ContinueStatement => "continue_statement"@,
            Typescript::DebuggerStatement => "debugger_statement"@,
            Typescript::ReturnStatement => "return_statement"@,
            Typescript::ThrowStatement => "throw_statement"@,
            Typescript::EmptyStatement => "empty_statement"@,
            Typescript::LabeledStatement => "labeled_statement"@,
            Typescript::SwitchBody => "switch_body"@,
            Typescript::SwitchCase => "switch_case"@,
            Typescript::SwitchDefault => "switch_default"@,
            Typescript::CatchClause => "catch_clause"@,
            Typescript::FinallyClause => "finally_clause"@,
            Typescript::ParenthesizedExpression => "parenthesized_expression"@,
            Typescript::Expression => "expression"@,
            Typescript::PrimaryExpression => "primary_expression"@,
            Typescript::YieldExpression => "yield_expression"@,
            Typescript::Object => "object"@,
            Typescript::ObjectPattern => "object_pattern"@,
            Typescript::AssignmentPattern => "assignment_pattern"@,
            Typescript::ObjectAssignmentPattern => "object_assignment_pattern"@,
            Typescript::Array => "array"@,
            Typescript::ArrayPattern => "array_pattern"@,
            Typescript::NestedIdentifier => "nested_identifier"@,
            Typescript::Class => "class"@,
            Typescript::ClassDeclaration => "class_declaration"@,
            Typescript::ClassHeritage => "class_heritage"@,
            Typescript::FunctionExpression => "function_expression"@,
            Typescript::FunctionDeclaration => "function_declaration"@,
            Typescript::GeneratorFunction => "generator_function"@,
            Typescript::GeneratorFunctionDeclaration => "generator_function_declaration"@,
            Typescript::ArrowFunction => "arrow_function"@,
            Typescript::CallSignature2 => "_call_signature"@,
            Typescript::FormalParameter => "_formal_parameter"@,
            Typescript::OptionalChain => "optional_chain"@,
            Typescript::CallExpression => "call_expression"@,
            Typescript::NewExpression => "new_expression"@,
            Typescript::AwaitExpression => "await_expression"@,
            Typescript::MemberExpression => "member_expression"@,
            Typescript::SubscriptExpression => "subscript_expression"@,
            Typescript::AssignmentExpression => "assignment_expression"@,
            Typescript::AugmentedAssignmentLhs => "_augmented_assignment_lhs"@,
            Typescript::AugmentedAssignmentExpression => "augmented_assignment_expression"@,
            Typescript::Initializer => "_initializer"@,
            Typescript::DestructuringPattern => "_destructuring_pattern"@,
            Typescript::SpreadElement => "spread_element"@,
            Typescript::TernaryExpression => "ternary_expression"@,
            Typescript::BinaryExpression => "binary_expression"@,
            Typescript::UnaryExpression => "unary_expression"@,
            Typescript::UpdateExpression => "update_expression"@,
            Typescript::SequenceExpression => "sequence_expression"@,
            Typescript::String => "string"@,
            Typescript::TemplateString => "template_string"@,
            Typescript::TemplateSubstitution => "template_substitution"@,
            Typescript::Regex => "regex"@,
            Typescript::MetaProperty => "meta_property"@,
            Typescript::Arguments => "arguments"@,
            Typescript::Decorator => "decorator"@,
            Typescript::MemberExpression2 => "member_expression"@,
            Typescript::CallExpression2 => "call_expression"@,
            Typescript::ClassBody => "class_body"@,
            Typescript::FormalParameters => "formal_parameters"@,
            Typescript::ClassStaticBlock => "class_static_block"@,
            Typescript::Pattern => "pattern"@,
            Typescript::RestPattern => "rest_pattern"@,
            Typescript::MethodDefinition => "method_definition"@,
            Typescript::Pair => "pair"@,
            Typescript::PairPattern => "pair_pattern"@,
            Typescript::PropertyName => "_property_name"@,
            Typescript::ComputedPropertyName => "computed_property_name"@,
            Typescript::PublicFieldDefinition => "public_field_definition"@,
            Typescript::ImportIdentifier => "_import_identifier"@,
            Typescript::NonNullExpression => "non_null_expression"@,
            Typescript::MethodSignature => "method_signature"@,
            Typescript::AbstractMethodSignature => "abstract_method_signature"@,
            Typescript::FunctionSignature => "function_signature"@,
            Typescript::ParenthesizedExpression2 => "parenthesized_expression"@,
            Typescript::TypeAssertion => "type_assertion"@,
            Typescript::AsExpression => "as_expression"@,
            Typescript::SatisfiesExpression => "satisfies_expression"@,
            Typescript::InstantiationExpression => "instantiation_expression"@,
            Typescript::ImportRequireClause => "import_require_clause"@,
            Typescript::ExtendsClause => "extends_clause"@,
            Typescript::ExtendsClauseSingle => "_extends_clause_single"@,
            Typescript::ImplementsClause => "implements_clause"@,
            Typescript::AmbientDeclaration => "ambient_declaration"@,
            Typescript::AbstractClassDeclaration => "abstract_class_declaration"@,
            Typescript::Module => "module"@,
            Typescript::InternalModule => "internal_module"@,
            Typescript::Module3 => "_module"@,
            Typescript::ImportAlias => "import_alias"@,
            Typescript::NestedTypeIdentifier => "nested_type_identifier"@,
            Typescript::InterfaceDeclaration => "interface_declaration"@,
            Typescript::ExtendsTypeClause => "extends_type_clause"@,
            Typescript::EnumDeclaration => "enum_declaration"@,
            Typescript::EnumBody => "enum_body"@,
            Typescript::EnumAssignment => "enum_assignment"@,
            Typescript::TypeAliasDeclaration => "type_alias_declaration"@,
            Typescript::AccessibilityModifier => "accessibility_modifier"@,
            Typescript::OverrideModifier => "override_modifier"@,
            Typescript::RequiredParameter => "required_parameter"@,
            Typescript::OptionalParameter => "optional_parameter"@,
            Typescript::ParameterName => "_parameter_name"@,
            Typescript::OmittingTypeAnnotation => "omitting_type_annotation"@,
            Typescript::AddingTypeAnnotation => "adding_type_annotation"@,
            Typescript::OptingTypeAnnotation => "opting_type_annotation"@,
            Typescript::TypeAnnotation => "type_annotation"@,
            Typescript::MemberExpression3 => "member_expression"@,
            Typescript::CallExpression3 => "call_expression"@,
            Typescript::Asserts => "asserts"@,
            Typescript::AssertsAnnotation => "asserts_annotation"@,
            Typescript::Type2 => "type"@,
            Typescript::RequiredParameter2 => "required_parameter"@,
            Typescript::OptionalParameter2 => "optional_parameter"@,
            Typescript::OptionalType => "optional_type"@,
            Typescript::RestType => "rest_type"@,
            Typescript::TupleTypeMember => "_tuple_type_member"@,
            Typescript::ConstructorType => "constructor_type"@,
            Typescript::PrimaryType => "primary_type"@,
            Typescript::TemplateType => "template_type"@,
            Typescript::TemplateLiteralType => "template_literal_type"@,
            Typescript::InferType => "infer_type"@,
            Typescript::ConditionalType => "conditional_type"@,
            Typescript::GenericType => "generic_type"@,
            Typescript::TypePredicate => "type_predicate"@,
            Typescript::TypePredicateAnnotation => "type_predicate_annotation"@,
            Typescript::MemberExpression4 => "member_expression"@,
            Typescript::SubscriptExpression2 => "subscript_expression"@,
            Typescript::CallExpression4 => "call_expression"@,
            Typescript::InstantiationExpression2 => "instantiation_expression"@,
            Typescript::TypeQuery => "type_query"@,
            Typescript::IndexTypeQuery => "index_type_query"@,
            Typescript::LookupType => "lookup_type"@,
            Typescript::MappedTypeClause => "mapped_type_clause"@,
            Typescript::LiteralType => "literal_type"@,
            Typescript::UnaryExpression2 => "unary_expression"@,
            Typescript::ExistentialType => "existential_type"@,
            Typescript::FlowMaybeType => "flow_maybe_type"@,
            Typescript::ParenthesizedType => "parenthesized_type"@,
            Typescript::PredefinedType => "predefined_type"@,
            Typescript::TypeArguments => "type_arguments"@,
            Typescript::ObjectType => "object_type"@,
            Typescript::CallSignature => "call_signature"@,
            Typescript::PropertySignature => "property_signature"@,
            Typescript::TypeParameters => "type_parameters"@,
            Typescript::TypeParameter => "type_parameter"@,
            Typescript::DefaultType => "default_type"@,
            Typescript::Constraint => "constraint"@,
            Typescript::ConstructSignature => "construct_signature"@,
            Typescript::IndexSignature => "index_signature"@,
            Typescript::ArrayType => "array_type"@,
            Typescript::TupleType => "tuple_type"@,
            Typescript::ReadonlyType => "readonly_type"@,
            Typescript::UnionType => "union_type"@,
            Typescript::IntersectionType => "intersection_type"@,
            Typescript::FunctionType => "function_type"@,
            Typescript::ProgramRepeat1 => "program_repeat1"@,
            Typescript::ExportStatementRepeat1 => "export_statement_repeat1"@,
            Typescript::ExportClauseRepeat1 => "export_clause_repeat1"@,
            Typescript::NamedImportsRepeat1 => "named_imports_repeat1"@,
            Typescript::VariableDeclarationRepeat1 => "variable_declaration_repeat1"@,
            Typescript::SwitchBodyRepeat1 => "switch_body_repeat1"@,
            Typescript::ObjectRepeat1 => "object_repeat1"@,
            Typescript::ObjectPatternRepeat1 => "object_pattern_repeat1"@,
            Typescript::ArrayRepeat1 => "array_repeat1"@,
            Typescript::ArrayPatternRepeat1 => "array_pattern_repeat1"@,
            Typescript::SequenceExpressionRepeat1 => "sequence_expression_repeat1"@,
            Typescript::StringRepeat1 => "string_repeat1"@,
            Typescript::StringRepeat2 => "string_repeat2"@,
            Typescript::TemplateStringRepeat1 => "template_string_repeat1"@,
            Typescript::ClassBodyRepeat1 => "class_body_repeat1"@,
            Typescript::FormalParametersRepeat1 => "formal_parameters_repeat1"@,
            Typescript::ExtendsClauseRepeat1 => "extends_clause_repeat1"@,
            Typescript::ImplementsClauseRepeat1 => "implements_clause_repeat1"@,
            Typescript::ExtendsTypeClauseRepeat1 => "extends_type_clause_repeat1"@,
            Typescript::EnumBodyRepeat1 => "enum_body_repeat1"@,
            Typescript::TemplateLiteralTypeRepeat1 => "template_literal_type_repeat1"@,
            Typescript::ObjectTypeRepeat1 => "object_type_repeat1"@,
            Typescript::TypeParametersRepeat1 => "type_parameters_repeat1"@,
            Typescript::TupleTypeRepeat1 => "tuple_type_repeat1"@,
            Typescript::InterfaceBody => "interface_body"@,
            Typescript::PropertyIdentifier => "property_identifier"@,
            Typescript::ShorthandPropertyIdentifier => "shorthand_property_identifier"@,
            Typescript::ShorthandPropertyIdentifierPattern => "shorthand_property_identifier_pattern"@,
            Typescript::StatementIdentifier => "statement_identifier"@,
            Typescript::ThisType => "this_type"@,
            Typescript::TypeIdentifier => "type_identifier"@,
            Typescript::Error => "ERROR"@,
        }
    }

    /// Maps a numeric kind id to its kind; an id outside the table maps to `Error`.
    pub fn from_u16(x: u16) -> (r: Typescript)
        ensures
            r == Typescript::spec_from_id(x),
            x > 383 ==> r == Typescript::Error,
    {
        match x {
            0 => Typescript::End,
            1 => Typescript::Identifier,
            2 => Typescript::HashBangLine,
            3 => Typescript::Export,
            4 => Typescript::STAR,
            5 => Typescript::Default,
            6 => Typescript::Type,
            7 => Typescript::EQ,
            8 => Typescript::As,
            9 => Typescript::Namespace,
            10 => Typescript::LBRACE,
            11 => Typescript::COMMA,
            12 => Typescript::RBRACE,
            13 => Typescript::Typeof,
            14 => Typescript::Import2,
            15 => Typescript::From,
            16 => Typescript::With,
            17 => Typescript::Assert,
            18 => Typescript::Var,
            19 => Typescript::Let,
            20 => Typescript::Const,
            21 => Typescript::BANG,
            22 => Typescript::Else,
            23 => Typescript::If,
            24 => Typescript::Switch,
            25 => Typescript::For,
            26 => Typescript::LPAREN,
            27 => Typescript::SEMI,
            28 => Typescript::RPAREN,
            29 => Typescript::Await,
            30 => Typescript::In,
            31 => Typescript::Of,
            32 => Typescript::While,
            33 => Typescript::Do,
            34 => Typescript::Try,
            35 => Typescript::Break,
            36 => Typescript::Continue,
            37 => Typescript::Debugger,
            38 => Typescript::Return,
            39 => Typescript::Throw,
            40 => Typescript::COLON,
            41 => Typescript::Case,
            42 => Typescript::Catch,
            43 => Typescript::Finally,
            44 => Typescript::Yield,
            45 => Typescript::LBRACK,
            46 => Typescript::RBRACK,
            47 => Typescript::DOT,
            48 => Typescript::Class2,
            49 => Typescript::Async,
            50 => Typescript::Function,
            51 => Typescript::EQGT,
            52 => Typescript::QMARKDOT,
            53 => Typescript::New,
            54 => Typescript::Using,
            55 => Typescript::PLUSEQ,
            56 => Typescript::DASHEQ,
            57 => Typescript::STAREQ,
            58 => Typescript::SLASHEQ,
            59 => Typescript::PERCENTEQ,
            60 => Typescript::CARETEQ,
            61 => Typescript::AMPEQ,
            62 => Typescript::PIPEEQ,
            63 => Typescript::GTGTEQ,
            64 => Typescript::GTGTGTEQ,
            65 => Typescript::LTLTEQ,
            66 => Typescript::STARSTAREQ,
            67 => Typescript::AMPAMPEQ,
            68 => Typescript::PIPEPIPEEQ,
            69 => Typescript::QMARKQMARKEQ,
            70 => Typescript::DOTDOTDOT,
            71 => Typescript::AMPAMP,
            72 => Typescript::PIPEPIPE,
            73 => Typescript::GTGT,
            74 => Typescript::GTGTGT,
            75 => Typescript::LTLT,
            76 => Typescript::AMP,
            77 => Typescript::CARET,
            78 => Typescript::PIPE,
            79 => Typescript::PLUS,
            80 => Typescript::DASH,
            81 => Typescript::SLASH,
            82 => Typescript::PERCENT,
            83 => Typescript::STARSTAR,
            84 => Typescript::LT,
            85 => Typescript::LTEQ,
            86 => Typescript::EQEQ,
            87 => Typescript::EQEQEQ,
            88 => Typescript::BANGEQ,
            89 => Typescript::BANGEQEQ,
            90 => Typescript::GTEQ,
            91 => Typescript::GT,
            92 => Typescript::QMARKQMARK,
            93 => Typescript::Instanceof,
            94 => Typescript::TILDE,
            95 => Typescript::Void,
            96 => Typescript::Delete,
            97 => Typescript::PLUSPLUS,
            98 => Typescript::DASHDASH,
            99 => Typescript::DQUOTE,
            100 => Typescript::SQUOTE,
            101 => Typescript::StringFragment,
            102 => Typescript::StringFragment2,
            103 => Typescript::EscapeSequence,
            104 => Typescript::Comment,
            105 => Typescript::BQUOTE,
            106 => Typescript::DOLLARLBRACE,
            107 => Typescript::SLASH2,
            108 => Typescript::RegexPattern,
            109 => Typescript::RegexFlags,
            110 => Typescript::Number,
            111 => Typescript::PrivatePropertyIdentifier,
            112 => Typescript::Target,
            113 => Typescript::Meta,
            114 => Typescript::This,
            115 => Typescript::Super,
            116 => Typescript::True,
            117 => Typescript::False,
            118 => Typescript::Null,
            119 => Typescript::Undefined,
            120 => Typescript::AT,
            121 => Typescript::Static,
            122 => Typescript::Readonly,
            123 => Typescript::Get,
            124 => Typescript::SetLiteral,
            125 => Typescript::QMARK,
            126 => Typescript::Declare,
            127 => Typescript::Public,
            128 => Typescript::Private,
            129 => Typescript::Protected,
            130 => Typescript::Override,
            131 => Typescript::Module2,
            132 => Typescript::Any,
            133 => Typescript::Number2,
            134 => Typescript::Boolean,
            135 => Typescript::String2,
            136 => Typescript::Symbol,
            137 => Typescript::Object2,
            138 => Typescript::Abstract,
            139 => Typescript::Accessor,
            140 => Typescript::Satisfies,
            141 => Typescript::Require,
            142 => Typescript::Extends,
            143 => Typescript::Implements,
            144 => Typescript::Global,
            145 => Typescript::Interface,
            146 => Typescript::Enum,
            147 => Typescript::DASHQMARKCOLON,
            148 => Typescript::PLUSQMARKCOLON,
            149 => Typescript::QMARKCOLON,
            150 => Typescript::Asserts2,
            151 => Typescript::Infer,
            152 => Typescript::Is,
            153 => Typescript::Keyof,
            154 => Typescript::UniqueSymbol,
            155 => Typescript::Unknown,
            156 => Typescript::Never,
            157 => Typescript::LBRACEPIPE,
            158 => Typescript::PIPERBRACE,
            159 => Typescript::AutomaticSemicolon,
            160 => Typescript::StringFragment3,
            161 => Typescript::QMARK2,
            162 => Typescript::HtmlComment,
            163 => Typescript::JsxText,
            164 => Typescript::FunctionSignatureAutomaticSemicolon,
            165 => Typescript::ErrorRecovery,
            166 => Typescript::Program,
            167 => Typescript::ExportStatement,
            168 => Typescript::NamespaceExport,
            169 => Typescript::ExportClause,
            170 => Typescript::ExportSpecifier,
            171 => Typescript::ModuleExportName,
            172 => Typescript::Declaration,
            173 => Typescript::Import,
            174 => Typescript::ImportStatement,
            175 => Typescript::ImportClause,
            176 => Typescript::FromClause,
            177 => Typescript::NamespaceImport,
            178 => Typescript::NamedImports,
            179 => Typescript::ImportSpecifier,
            180 => Typescript::ImportAttribute,
            181 => Typescript::Statement,
            182 => Typescript::ExpressionStatement,
            183 => Typescript::VariableDeclaration,
            184 => Typescript::LexicalDeclaration,
            185 => Typescript::VariableDeclarator,
            186 => Typescript::StatementBlock,
            187 => Typescript::ElseClause,
            188 => Typescript::IfStatement,
            189 => Typescript::SwitchStatement,
            190 => Typescript::ForStatement,
            191 => Typescript::ForInStatement,
            192 => Typescript::ForHeader,
            193 => Typescript::WhileStatement,
            194 => Typescript::DoStatement,
            195 => Typescript::TryStatement,
            196 => Typescript::WithStatement,
            197 => Typescript::BreakStatement,
            198 => Typescript::ContinueStatement,
            199 => Typescript::DebuggerStatement,
            200 => Typescript::ReturnStatement,
            201 => Typescript::ThrowStatement,
            202 => Typescript::EmptyStatement,
            203 => Typescript::LabeledStatement,
            204 => Typescript::SwitchBody,
            205 => Typescript::SwitchCase,
            206 => Typescript::SwitchDefault,
            207 => Typescript::CatchClause,
            208 => Typescript::FinallyClause,
            209 => Typescript::ParenthesizedExpression,
            210 => Typescript::Expression,
            211 => Typescript::PrimaryExpression,
            212 => Typescript::YieldExpression,
            213 => Typescript::Object,
            214 => Typescript::ObjectPattern,
            215 => Typescript::AssignmentPattern,
            216 => Typescript::ObjectAssignmentPattern,
            217 => Typescript::Array,
            218 => Typescript::ArrayPattern,
            219 => Typescript::NestedIdentifier,
            220 => Typescript::Class,
            221 => Typescript::ClassDeclaration,
            222 => Typescript::ClassHeritage,
            223 => Typescript::FunctionExpression,
            224 => Typescript::FunctionDeclaration,
            225 => Typescript::GeneratorFunction,
            226 => Typescript::GeneratorFunctionDeclaration,
            227 => Typescript::ArrowFunction,
            228 => Typescript::CallSignature2,
            229 => Typescript::FormalParameter,
            230 => Typescript::OptionalChain,
            231 => Typescript::CallExpression,
            232 => Typescript::NewExpression,
            233 => Typescript::AwaitExpression,
            234 => Typescript::MemberExpression,
            235 => Typescript::SubscriptExpression,
            236 => Typescript::AssignmentExpression,
            237 => Typescript::AugmentedAssignmentLhs,
            238 => Typescript::AugmentedAssignmentExpression,
            239 => Typescript::Initializer,
            240 => Typescript::DestructuringPattern,
            241 => Typescript::SpreadElement,
            242 => Typescript::TernaryExpression,
            243 => Typescript::BinaryExpression,
            244 => Typescript::UnaryExpression,
            245 => Typescript::UpdateExpression,
            246 => Typescript::SequenceExpression,
            247 => Typescript::String,
            248 => Typescript::TemplateString,
            249 => Typescript::TemplateSubstitution,
            250 => Typescript::Regex,
            251 => Typescript::MetaProperty,
            252 => Typescript::Arguments,
            253 => Typescript::Decorator,
            254 => Typescript::MemberExpression2,
            255 => Typescript::CallExpression2,
            256 => Typescript::ClassBody,
            257 => Typescript::FormalParameters,
            258 => Typescript::ClassStaticBlock,
            259 => Typescript::Pattern,
            260 => Typescript::RestPattern,
            261 => Typescript::MethodDefinition,
            262 => Typescript::Pair,
            263 => Typescript::PairPattern,
            264 => Typescript::PropertyName,
            265 => Typescript::ComputedPropertyName,
            266 => Typescript::PublicFieldDefinition,
            267 => Typescript::ImportIdentifier,
            268 => Typescript::NonNullExpression,
            269 => Typescript::MethodSignature,
            270 => Typescript::AbstractMethodSignature,
            271 => Typescript::FunctionSignature,
            272 => Typescript::ParenthesizedExpression2,
            273 => Typescript::TypeAssertion,
            274 => Typescript::AsExpression,
            275 => Typescript::SatisfiesExpression,
            276 => Typescript::InstantiationExpression,
            277 => Typescript::ImportRequireClause,
            278 => Typescript::ExtendsClause,
            279 => Typescript::ExtendsClauseSingle,
            280 => Typescript::ImplementsClause,
            281 => Typescript::AmbientDeclaration,
            282 => Typescript::AbstractClassDeclaration,
            283 => Typescript::Module,
            284 => Typescript::InternalModule,
            285 => Typescript::Module3,
            286 => Typescript::ImportAlias,
            287 => Typescript::NestedTypeIdentifier,
            288 => Typescript::InterfaceDeclaration,
            289 => Typescript::ExtendsTypeClause,
            290 => Typescript::EnumDeclaration,
            291 => Typescript::EnumBody,
            292 => Typescript::EnumAssignment,
            293 => Typescript::TypeAliasDeclaration,
            294 => Typescript::AccessibilityModifier,
            295 => Typescript::OverrideModifier,
            296 => Typescript::RequiredParameter,
            297 => Typescript::OptionalParameter,
            298 => Typescript::ParameterName,
            299 => Typescript::OmittingTypeAnnotation,
            300 => Typescript::AddingTypeAnnotation,
            301 => Typescript::OptingTypeAnnotation,
            302 => Typescript::TypeAnnotation,
            303 => Typescript::MemberExpression3,
            304 => Typescript::CallExpression3,
            305 => Typescript::Asserts,
            306 => Typescript::AssertsAnnotation,
            307 => Typescript::Type2,
            308 => Typescript::RequiredParameter2,
            309 => Typescript::OptionalParameter2,
            310 => Typescript::OptionalType,
            311 => Typescript::RestType,
            312 => Typescript::TupleTypeMember,
            313 => Typescript::ConstructorType,
            314 => Typescript::PrimaryType,
            315 => Typescript::TemplateType,
            316 => Typescript::TemplateLiteralType,
            317 => Typescript::InferType,
            318 => Typescript::ConditionalType,
            319 => Typescript::GenericType,
            320 => Typescript::TypePredicate,
            321 => Typescript::TypePredicateAnnotation,
            322 => Typescript::MemberExpression4,
            323 => Typescript::SubscriptExpression2,
            324 => Typescript::CallExpression4,
            325 => Typescript::InstantiationExpression2,
            326 => Typescript::TypeQuery,
            327 => Typescript::IndexTypeQuery,
            328 => Typescript::LookupType,
            329 => Typescript::MappedTypeClause,
            330 => Typescript::LiteralType,
            331 => Typescript::UnaryExpression2,
            332 => Typescript::ExistentialType,
            333 => Typescript::FlowMaybeType,
            334 => Typescript::ParenthesizedType,
            335 => Typescript::PredefinedType,
            336 => Typescript::TypeArguments,
            337 => Typescript::ObjectType,
            338 => Typescript::CallSignature,
            339 => Typescript::PropertySignature,
            340 => Typescript::TypeParameters,
            341 => Typescript::TypeParameter,
            342 => Typescript::DefaultType,
            343 => Typescript::Constraint,
            344 => Typescript::ConstructSignature,
            345 => Typescript::IndexSignature,
            346 => Typescript::ArrayType,
            347 => Typescript::TupleType,
            348 => Typescript::ReadonlyType,
            349 => Typescript::UnionType,
            350 => Typescript::IntersectionType,
            351 => Typescript::FunctionType,
            352 => Typescript::ProgramRepeat1,
            353 => Typescript::ExportStatementRepeat1,
            354 => Typescript::ExportClauseRepeat1,
            355 => Typescript::NamedImportsRepeat1,
            356 => Typescript::VariableDeclarationRepeat1,
            357 => Typescript::SwitchBodyRepeat1,
            358 => Typescript::ObjectRepeat1,
            359 => Typescript::ObjectPatternRepeat1,
            360 => Typescript::ArrayRepeat1,
            361 => Typescript::ArrayPatternRepeat1,
            362 => Typescript::SequenceExpressionRepeat1,
            363 => Typescript::StringRepeat1,
            364 => Typescript::StringRepeat2,
            365 => Typescript::TemplateStringRepeat1,
            366 => Typescript::ClassBodyRepeat1,
            367 => Typescript::FormalParametersRepeat1,
            368 => Typescript::ExtendsClauseRepeat1,
            369 => Typescript::ImplementsClauseRepeat1,
            370 => Typescript::ExtendsTypeClauseRepeat1,
            371 => Typescript::EnumBodyRepeat1,
            372 => Typescript::TemplateLiteralTypeRepeat1,
            373 => Typescript::ObjectTypeRepeat1,
            374 => Typescript::TypeParametersRepeat1,
            375 => Typescript::TupleTypeRepeat1,
            376 => Typescript::InterfaceBody,
            377 => Typescript::PropertyIdentifier,
            378 => Typescript::ShorthandPropertyIdentifier,
            379 => Typescript::ShorthandPropertyIdentifierPattern,
            380 => Typescript::StatementIdentifier,
            381 => Typescript::ThisType,
            382 => Typescript::TypeIdentifier,
            _ => Typescript::Error,
        }
    }

    /// The display string of this kind.
    pub fn as_str(&self) -> (r: &'static str)
        ensures
            r@ == self.text(),
    {
        match self {
            Typescript::End => "end",
            Typescript::Identifier => "identifier",
            Typescript::HashBangLine => "hash_bang_line",
            Typescript::Export => "export",
            Typescript::STAR => "*",
            Typescript::Default => "default",
            Typescript::Type => "type",
            Typescript::EQ => "=",
            Typescript::As => "as",
            Typescript::Namespace => "namespace",
            Typescript::LBRACE => "{",
            Typescript::COMMA => ",",
            Typescript::RBRACE => "}",
            Typescript::Typeof => "typeof",
            Typescript::Import2 => "import",
            Typescript::From => "from",
            Typescript::With => "with",
            Typescript::Assert => "assert",
            Typescript::Var => "var",
            Typescript::Let => "let",
            Typescript::Const => "const",
            Typescript::BANG => "!",
            Typescript::Else => "else",
            Typescript::If => "if",
            Typescript::Switch => "switch",
            Typescript::For => "for",
            Typescript::LPAREN => "(",
            Typescript::SEMI => ";",
            Typescript::RPAREN => ")",
            Typescript::Await => "await",
            Typescript::In => "in",
            Typescript::Of => "of",
            Typescript::While => "while",
            Typescript::Do => "do",
            Typescript::Try => "try",
            Typescript::Break => "break",
            Typescript::Continue => "continue",
            Typescript::Debugger => "debugger",
            Typescript::Return => "return",
            Typescript::Throw => "throw",
            Typescript::COLON => ":",
            Typescript::Case => "case",
            Typescript::Catch => "catch",
            Typescript::Finally => "finally",
            Typescript::Yield => "yield",
            Typescript::LBRACK => "[",
            Typescript::RBRACK => "]",
            Typescript::DOT => ".",
            Typescript::Class2 => "class",
            Typescript::Async => "async",
            Typescript::Function => "function",
            Typescript::EQGT => "=>",
            Typescript::QMARKDOT => "?.",
            Typescript::New => "new",
            Typescript::Using => "using",
            Typescript::PLUSEQ => "+=",
            Typescript::DASHEQ => "-=",
            Typescript::STAREQ => "*=",
            Typescript::SLASHEQ => "/=",
            Typescript::PERCENTEQ => "%=",
            Typescript::CARETEQ => "^=",
            Typescript::AMPEQ => "&=",
            Typescript::PIPEEQ => "|=",
            Typescript::GTGTEQ => ">>=",
            Typescript::GTGTGTEQ => ">>>=",
            Typescript::LTLTEQ => "<<=",
            Typescript::STARSTAREQ => "**=",
            Typescript::AMPAMPEQ => "&&=",
            Typescript::PIPEPIPEEQ => "||=",
            Typescript::QMARKQMARKEQ => "??=",
            Typescript::DOTDOTDOT => "...",
            Typescript::AMPAMP => "&&",
            Typescript::PIPEPIPE => "||",
            Typescript::GTGT => ">>",
            Typescript::GTGTGT => ">>>",
            Typescript::LTLT => "<<",
            Typescript::AMP => "&",
            Typescript::CARET => "^",
            Typescript::PIPE => "|",
            Typescript::PLUS => "+",
            Typescript::DASH => "-",
            Typescript::SLASH => "/",
            Typescript::PERCENT => "%",
            Typescript::STARSTAR => "**",
            Typescript::LT => "<",
            Typescript::LTEQ => "<=",
            Typescript::EQEQ => "==",
            Typescript::EQEQEQ => "===",
            Typescript::BANGEQ => "!=",
            Typescript::BANGEQEQ => "!==",
            Typescript::GTEQ => ">=",
            Typescript::GT => ">",
            Typescript::QMARKQMARK => "??",
            Typescript::Instanceof => "instanceof",
            Typescript::TILDE => "~",
            Typescript::Void => "void",
            Typescript::Delete => "delete",
            Typescript::PLUSPLUS => "++",
            Typescript::DASHDASH => "--",
            Typescript::DQUOTE => "\"",
            Typescript::SQUOTE => "'",
            Typescript::StringFragment => "string_fragment",
            Typescript::StringFragment2 => "string_fragment",
            Typescript::EscapeSequence => "escape_sequence",
            Typescript::Comment => "comment",
            Typescript::BQUOTE => "`",
            Typescript::DOLLARLBRACE => "${",
            Typescript::SLASH2 => "/",
            Typescript::RegexPattern => "regex_pattern",
            Typescript::RegexFlags => "regex_flags",
            Typescript::Number => "number",
            Typescript::PrivatePropertyIdentifier => "private_property_identifier",
            Typescript::Target => "target",
            Typescript::Meta => "meta",
            Typescript::This => "this",
            Typescript::Super => "super",
            Typescript::True => "true",
            Typescript::False => "false",
            Typescript::Null => "null",
            Typescript::Undefined => "undefined",
            Typescript::AT => "@",
            Typescript::Static => "static",
            Typescript::Readonly => "readonly",
            Typescript::Get => "get",
            Typescript::SetLiteral => "set",
            Typescript::QMARK => "?",
            Typescript::Declare => "declare",
            Typescript::Public => "public",
            Typescript::Private => "private",
            Typescript::Protected => "protected",
            Typescript::Override => "override",
            Typescript::Module2 => "module",
            Typescript::Any => "any",
            Typescript::Number2 => "number",
            Typescript::Boolean => "boolean",
            Typescript::String2 => "string",
            Typescript::Symbol => "symbol",
            Typescript::Object2 => "object",
            Typescript::Abstract => "abstract",
            Typescript::Accessor => "accessor",
            Typescript::Satisfies => "satisfies",
            Typescript::Require => "require",
            Typescript::Extends => "extends",
            Typescript::Implements => "implements",
            Typescript::Global => "global",
            Typescript::Interface => "interface",
            Typescript::Enum => "enum",
            Typescript::DASHQMARKCOLON => "-?:",
            Typescript::PLUSQMARKCOLON => "+?:",
            Typescript::QMARKCOLON => "?:",
            Typescript::Asserts2 => "asserts",
            Typescript::Infer => "infer",
            Typescript::Is => "is",
            Typescript::Keyof => "keyof",
            Typescript::UniqueSymbol => "unique symbol",
            Typescript::Unknown => "unknown",
            Typescript::Never => "never",
            Typescript::LBRACEPIPE => "{|",
            Typescript::PIPERBRACE => "|}",
            Typescript::AutomaticSemicolon => "_automatic_semicolon",
            Typescript::StringFragment3 => "string_fragment",
            Typescript::QMARK2 => "?",
            Typescript::HtmlComment => "html_comment",
            Typescript::JsxText => "jsx_text",
            Typescript::FunctionSignatureAutomaticSemicolon => "_function_signature_automatic_semicolon",
            Typescript::ErrorRecovery => "__error_recovery",
            Typescript::Program => "program",
            Typescript::ExportStatement => "export_statement",
            Typescript::NamespaceExport => "namespace_export",
            Typescript::ExportClause => "export_clause",
            Typescript::ExportSpecifier => "export_specifier",
            Typescript::ModuleExportName => "_module_export_name",
            Typescript::Declaration => "declaration",
            Typescript::Import => "import",
            Typescript::ImportStatement => "import_statement",
            Typescript::ImportClause => "import_clause",
            Typescript::FromClause => "_from_clause",
            Typescript::NamespaceImport => "namespace_import",
            Typescript::NamedImports => "named_imports",
            Typescript::ImportSpecifier => "import_specifier",
            Typescript::ImportAttribute => "import_attribute",
            Typescript::Statement => "statement",
            Typescript::ExpressionStatement => "expression_statement",
            Typescript::VariableDeclaration => "variable_declaration",
            Typescript::LexicalDeclaration => "lexical_declaration",
            Typescript::VariableDeclarator => "variable_declarator",
            Typescript::StatementBlock => "statement_block",
            Typescript::ElseClause => "else_clause",
            Typescript::IfStatement => "if_statement",
            Typescript::SwitchStatement => "switch_statement",
            Typescript::ForStatement => "for_statement",
            Typescript::ForInStatement => "for_in_statement",
            Typescript::ForHeader => "_for_header",
            Typescript::WhileStatement => "while_statement",
            Typescript::DoStatement => "do_statement",
            Typescript::TryStatement => "try_statement",
            Typescript::WithStatement => "with_statement",
            Typescript::BreakStatement => "break_statement",
            Typescript::ContinueStatement => "continue_statement",
            Typescript::DebuggerStatement => "debugger_statement",
            Typescript::ReturnStatement => "return_statement",
            Typescript::ThrowStatement => "throw_statement",
            Typescript::EmptyStatement => "empty_statement",
            Typescript::LabeledStatement => "labeled_statement",
            Typescript::SwitchBody => "switch_body",
            Typescript::SwitchCase => "switch_case",
            Typescript::SwitchDefault => "switch_default",
            Typescript::CatchClause => "catch_clause",
            Typescript::FinallyClause => "finally_clause",
            Typescript::ParenthesizedExpression => "parenthesized_expression",
            Typescript::Expression => "expression",
            Typescript::PrimaryExpression => "primary_expression",
            Typescript::YieldExpression => "yield_expression",
            Typescript::Object => "object",
            Typescript::ObjectPattern => "object_pattern",
            Typescript::AssignmentPattern => "assignment_pattern",
            Typescript::ObjectAssignmentPattern => "object_assignment_pattern",
            Typescript::Array => "array",
            Typescript::ArrayPattern => "array_pattern",
            Typescript::NestedIdentifier => "nested_identifier",
            Typescript::Class => "class",
            Typescript::ClassDeclaration => "class_declaration",
            Typescript::ClassHeritage => "class_heritage",
            Typescript::FunctionExpression => "function_expression",
            Typescript::FunctionDeclaration => "function_declaration",
            Typescript::GeneratorFunction => "generator_function",
            Typescript::GeneratorFunctionDeclaration => "generator_function_declaration",
            Typescript::ArrowFunction => "arrow_function",
            Typescript::CallSignature2 => "_call_signature",
            Typescript::FormalParameter => "_formal_parameter",
            Typescript::OptionalChain => "optional_chain",
            Typescript::CallExpression => "call_expression",
            Typescript::NewExpression => "new_expression",
            Typescript::AwaitExpression => "await_expression",
            Typescript::MemberExpression => "member_expression",
            Typescript::SubscriptExpression => "subscript_expression",
            Typescript::AssignmentExpression => "assignment_expression",
            Typescript::AugmentedAssignmentLhs => "_augmented_assignment_lhs",
            Typescript::AugmentedAssignmentExpression => "augmented_assignment_expression",
            Typescript::Initializer => "_initializer",
            Typescript::DestructuringPattern => "_destructuring_pattern",
            Typescript::SpreadElement => "spread_element",
            Typescript::TernaryExpression => "ternary_expression",
            Typescript::BinaryExpression => "binary_expression",
            Typescript::UnaryExpression => "unary_expression",
            Typescript::UpdateExpression => "update_expression",
            Typescript::SequenceExpression => "sequence_expression",
            Typescript::String => "string",
            Typescript::TemplateString => "template_string",
            Typescript::TemplateSubstitution => "template_substitution",
            Typescript::Regex => "regex",
            Typescript::MetaProperty => "meta_property",
            Typescript::Arguments => "arguments",
            Typescript::Decorator => "decorator",
            Typescript::MemberExpression2 => "member_expression",
            Typescript::CallExpression2 => "call_expression",
            Typescript::ClassBody => "class_body",
            Typescript::FormalParameters => "formal_parameters",
            Typescript::ClassStaticBlock => "class_static_block",
            Typescript::Pattern => "pattern",
            Typescript::RestPattern => "rest_pattern",
            Typescript::MethodDefinition => "method_definition",
            Typescript::Pair => "pair",
            Typescript::PairPattern => "pair_pattern",
            Typescript::PropertyName => "_property_name",
            Typescript::ComputedPropertyName => "computed_property_name",
            Typescript::PublicFieldDefinition => "public_field_definition",
            Typescript::ImportIdentifier => "_import_identifier",
            Typescript::NonNullExpression => "non_null_expression",
            Typescript::MethodSignature => "method_signature",
            Typescript::AbstractMethodSignature => "abstract_method_signature",
            Typescript::FunctionSignature => "function_signature",
            Typescript::ParenthesizedExpression2 => "parenthesized_expression",
            Typescript::TypeAssertion => "type_assertion",
            Typescript::AsExpression => "as_expression",
            Typescript::SatisfiesExpression => "satisfies_expression",
            Typescript::InstantiationExpression => "instantiation_expression",
            Typescript::ImportRequireClause => "import_require_clause",
            Typescript::ExtendsClause => "extends_clause",
            Typescript::ExtendsClauseSingle => "_extends_clause_single",
            Typescript::ImplementsClause => "implements_clause",
            Typescript::AmbientDeclaration => "ambient_declaration",
            Typescript::AbstractClassDeclaration => "abstract_class_declaration",
            Typescript::Module => "module",
            Typescript::InternalModule => "internal_module",
            Typescript::Module3 => "_module",
            Typescript::ImportAlias => "import_alias",
            Typescript::NestedTypeIdentifier => "nested_type_identifier",
            Typescript::InterfaceDeclaration => "interface_declaration",
            Typescript::ExtendsTypeClause => "extends_type_clause",
            Typescript::EnumDeclaration => "enum_declaration",
            Typescript::EnumBody => "enum_body",
            Typescript::EnumAssignment => "enum_assignment",
            Typescript::TypeAliasDeclaration => "type_alias_declaration",
            Typescript::AccessibilityModifier => "accessibility_modifier",
            Typescript::OverrideModifier => "override_modifier",
            Typescript::RequiredParameter => "required_parameter",
            Typescript::OptionalParameter => "optional_parameter",
            Typescript::ParameterName => "_parameter_name",
            Typescript::OmittingTypeAnnotation => "omitting_type_annotation",
            Typescript::AddingTypeAnnotation => "adding_type_annotation",
            Typescript::OptingTypeAnnotation => "opting_type_annotation",
            Typescript::TypeAnnotation => "type_annotation",
            Typescript::MemberExpression3 => "member_expression",
            Typescript::CallExpression3 => "call_expression",
            Typescript::Asserts => "asserts",
            Typescript::AssertsAnnotation => "asserts_annotation",
            Typescript::Type2 => "type",
            Typescript::RequiredParameter2 => "required_parameter",
            Typescript::OptionalParameter2 => "optional_parameter",
            Typescript::OptionalType => "optional_type",
            Typescript::RestType => "rest_type",
            Typescript::TupleTypeMember => "_tuple_type_member",
            Typescript::ConstructorType => "constructor_type",
            Typescript::PrimaryType => "primary_type",
            Typescript::TemplateType => "template_type",
            Typescript::TemplateLiteralType => "template_literal_type",
            Typescript::InferType => "infer_type",
            Typescript::ConditionalType => "conditional_type",
            Typescript::GenericType => "generic_type",
            Typescript::TypePredicate => "type_predicate",
            Typescript::TypePredicateAnnotation => "type_predicate_annotation",
            Typescript::MemberExpression4 => "member_expression",
            Typescript::SubscriptExpression2 => "subscript_expression",
            Typescript::CallExpression4 => "call_expression",
            Typescript::InstantiationExpression2 => "instantiation_expression",
            Typescript::TypeQuery => "type_query",
            Typescript::IndexTypeQuery => "index_type_query",
            Typescript::LookupType => "lookup_type",
            Typescript::MappedTypeClause => "mapped_type_clause",
            Typescript::LiteralType => "literal_type",
            Typescript::UnaryExpression2 => "unary_expression",
            Typescript::ExistentialType => "existential_type",
            Typescript::FlowMaybeType => "flow_maybe_type",
            Typescript::ParenthesizedType => "parenthesized_type",
            Typescript::PredefinedType => "predefined_type",
            Typescript::TypeArguments => "type_arguments",
            Typescript::ObjectType => "object_type",
            Typescript::CallSignature => "call_signature",
            Typescript::PropertySignature => "property_signature",
            Typescript::TypeParameters => "type_parameters",
            Typescript::TypeParameter => "type_parameter",
            Typescript::DefaultType => "default_type",
            Typescript::Constraint => "constraint",
            Typescript::ConstructSignature => "construct_signature",
            Typescript::IndexSignature => "index_signature",
            Typescript::ArrayType => "array_type",
            Typescript::TupleType => "tuple_type",
            Typescript::ReadonlyType => "readonly_type",
            Typescript::UnionType => "union_type",
            Typescript::IntersectionType => "intersection_type",
            Typescript::FunctionType => "function_type",
            Typescript::ProgramRepeat1 => "program_repeat1",
            Typescript::ExportStatementRepeat1 => "export_statement_repeat1",
            Typescript::ExportClauseRepeat1 => "export_clause_repeat1",
            Typescript::NamedImportsRepeat1 => "named_imports_repeat1",
            Typescript::VariableDeclarationRepeat1 => "variable_declaration_repeat1",
            Typescript::SwitchBodyRepeat1 => "switch_body_repeat1",
            Typescript::ObjectRepeat1 => "object_repeat1",
            Typescript::ObjectPatternRepeat1 => "object_pattern_repeat1",
            Typescript::ArrayRepeat1 => "array_repeat1",
            Typescript::ArrayPatternRepeat1 => "array_pattern_repeat1",
            Typescript::SequenceExpressionRepeat1 => "sequence_expression_repeat1",
            Typescript::StringRepeat1 => "string_repeat1",
            Typescript::StringRepeat2 => "string_repeat2",
            Typescript::TemplateStringRepeat1 => "template_string_repeat1",
            Typescript::ClassBodyRepeat1 => "class_body_repeat1",
            Typescript::FormalParametersRepeat1 => "formal_parameters_repeat1",
            Typescript::ExtendsClauseRepeat1 => "extends_clause_repeat1",
            Typescript::ImplementsClauseRepeat1 => "implements_clause_repeat1",
            Typescript::ExtendsTypeClauseRepeat1 => "extends_type_clause_repeat1",
            Typescript::EnumBodyRepeat1 => "enum_body_repeat1",
            Typescript::TemplateLiteralTypeRepeat1 => "template_literal_type_repeat1",
            Typescript::ObjectTypeRepeat1 => "object_type_repeat1",
            Typescript::TypeParametersRepeat1 => "type_parameters_repeat1",
            Typescript::TupleTypeRepeat1 => "tuple_type_repeat1",
            Typescript::InterfaceBody => "interface_body",
            Typescript::PropertyIdentifier => "property_identifier",
            Typescript::ShorthandPropertyIdentifier => "shorthand_property_identifier",
            Typescript::ShorthandPropertyIdentifierPattern => "shorthand_property_identifier_pattern",
            Typescript::StatementIdentifier => "statement_identifier",
            Typescript::ThisType => "this_type",
            Typescript::TypeIdentifier => "type_identifier",
            Typescript::Error => "ERROR",
        }
    }
}

impl From<u16> for Typescript {
    fn from(x: u16) -> (r: Typescript)
        ensures
            r == Typescript::spec_from_id(x),
    {
        Typescript::from_u16(x)
    }
}

impl vstd::std_specs::convert::FromSpecImpl<u16> for Typescript {
    open spec fn obeys_from_spec() -> bool {
        true
    }

    open spec fn from_spec(x: u16) -> Typescript {
        Typescript::spec_from_id(x)
    }
}

/// A kind id read back from its kind gives that kind again.
pub proof fn lemma_id_round_trip(k: Typescript)
    ensures
        Typescript::spec_from_id(k.id()) == k,
{
}

/// TypeScript kinds counted as Halstead operators.
pub open spec fn typescript_operator(k: Typescript) -> bool {
    match k {
        Typescript::Export | Typescript::Import | Typescript::Import2 | Typescript::Extends
        | Typescript::DOT | Typescript::From | Typescript::LPAREN | Typescript::COMMA
        | Typescript::As | Typescript::STAR | Typescript::GTGT | Typescript::GTGTGT
        | Typescript::COLON | Typescript::Return | Typescript::Delete | Typescript::Throw
        | Typescript::Break | Typescript::Continue | Typescript::If | Typescript::Else
        | Typescript::Switch | Typescript::Case | Typescript::Default | Typescript::Async
        | Typescript::For | Typescript::In | Typescript::Of | Typescript::While
        | Typescript::Try | Typescript::Catch | Typescript::Finally | Typescript::With
        | Typescript::EQ | Typescript::AT | Typescript::AMPAMP | Typescript::PIPEPIPE
        | Typescript::PLUS | Typescript::DASH | Typescript::DASHDASH | Typescript::PLUSPLUS
        | Typescript::SLASH | Typescript::PERCENT | Typescript::STARSTAR | Typescript::PIPE
        | Typescript::AMP | Typescript::LTLT | Typescript::TILDE | Typescript::LT
        | Typescript::LTEQ | Typescript::EQEQ | Typescript::BANGEQ | Typescript::GTEQ
        | Typescript::GT | Typescript::PLUSEQ | Typescript::BANG | Typescript::BANGEQEQ
        | Typescript::EQEQEQ | Typescript::DASHEQ | Typescript::STAREQ | Typescript::SLASHEQ
        | Typescript::PERCENTEQ | Typescript::STARSTAREQ | Typescript::GTGTEQ
        | Typescript::GTGTGTEQ | Typescript::LTLTEQ | Typescript::AMPEQ | Typescript::CARET
        | Typescript::CARETEQ | Typescript::PIPEEQ | Typescript::Yield | Typescript::LBRACK
        | Typescript::LBRACE | Typescript::Await | Typescript::QMARK | Typescript::QMARKQMARK
        | Typescript::New | Typescript::Let | Typescript::Var | Typescript::Const
        | Typescript::Function | Typescript::FunctionExpression | Typescript::SEMI => true,
        _ => false,
    }
}

/// TypeScript kinds counted as Halstead operands.
pub open spec fn typescript_operand(k: Typescript) -> bool {
    match k {
        Typescript::Identifier | Typescript::NestedIdentifier | Typescript::MemberExpression
        | Typescript::PropertyIdentifier | Typescript::String | Typescript::Number
        | Typescript::True | Typescript::False | Typescript::Null | Typescript::Void
        | Typescript::This | Typescript::Super | Typescript::Undefined | Typescript::SetLiteral
        | Typescript::Get | Typescript::Typeof | Typescript::Instanceof => true,
        _ => false,
    }
}

/// How a TypeScript node counts in the Halstead measures.
pub open spec fn typescript_op_type(k: Typescript) -> HalsteadType {
    if typescript_operator(k) {
        HalsteadType::Operator
    } else if typescript_operand(k) {
        HalsteadType::Operand
    } else {
        HalsteadType::Unknown
    }
}

/// The space kind of a TypeScript node.
pub open spec fn typescript_space_kind(k: Typescript) -> SpaceKind {
    match k {
        Typescript::FunctionExpression | Typescript::MethodDefinition
        | Typescript::GeneratorFunction | Typescript::FunctionDeclaration
        | Typescript::GeneratorFunctionDeclaration | Typescript::ArrowFunction => SpaceKind::Function,
        Typescript::Class | Typescript::ClassDeclaration => SpaceKind::Class,
        Typescript::InterfaceDeclaration => SpaceKind::Interface,
        Typescript::Program => SpaceKind::Unit,
        _ => SpaceKind::Unknown,
    }
}

/// The text under which a TypeScript operator counts: an opening bracket stands for the
/// pair it opens.
pub open spec fn typescript_operator_text(id: u16) -> Seq<char> {
    match Typescript::spec_from_id(id) {
        Typescript::LPAREN => "()"@,
        Typescript::LBRACK => "[]"@,
        Typescript::LBRACE => "{}"@,
        k => k.text(),
    }
}

/// The name of a TypeScript function: its `name` field; else, for a function that is the
/// value of a pair or of a variable declarator, the pair's key or the variable's name;
/// else the anonymous name.
pub open spec fn typescript_func_name(tree: Tree, node: int, code: Seq<u8>) -> Option<Seq<char>> {
    match field_text(tree, node, Field::Name, code) {
        Some(t) => t,
        None => match tree.nodes@[node].parent {
            Some(p) => {
                let pk = Typescript::spec_from_id(tree.nodes@[p as int].kind_id);
                if pk == Typescript::Pair && field_text(tree, p as int, Field::Key, code) is Some {
                    field_text(tree, p as int, Field::Key, code)->0
                } else if pk == Typescript::VariableDeclarator && field_text(tree, p as int, Field::Name, code)
                    is Some {
                    field_text(tree, p as int, Field::Name, code)->0
                } else {
                    Some(anonymous())
                }
            },
            None => Some(anonymous()),
        },
    }
}

/// The TypeScript grammar.
pub struct TypescriptCode;

impl Getter for TypescriptCode {
    open spec fn space_kind_of(tree: Tree, node: int) -> SpaceKind {
        typescript_space_kind(Typescript::spec_from_id(tree.nodes@[node].kind_id))
    }

    open spec fn op_type_of(tree: Tree, node: int) -> HalsteadType {
        typescript_op_type(Typescript::spec_from_id(tree.nodes@[node].kind_id))
    }

    open spec fn operator_text_of(id: u16) -> Seq<char> {
        typescript_operator_text(id)
    }

    open spec fn name_of(tree: Tree, node: int, code: Seq<u8>) -> Option<Seq<char>> {
        typescript_func_name(tree, node, code)
    }

    fn get_space_kind(tree: &Tree, node: usize) -> (r: SpaceKind)
        ensures
            r == typescript_space_kind(Typescript::spec_from_id(tree.nodes@[node as int].kind_id)),
    {
        match Typescript::from_u16(tree.nodes[node].kind_id) {
            Typescript::FunctionExpression | Typescript::MethodDefinition
            | Typescript::GeneratorFunction | Typescript::FunctionDeclaration
            | Typescript::GeneratorFunctionDeclaration | Typescript::ArrowFunction => SpaceKind::Function,
            Typescript::Class | Typescript::ClassDeclaration => SpaceKind::Class,
            Typescript::InterfaceDeclaration => SpaceKind::Interface,
            Typescript::Program => SpaceKind::Unit,
            _ => SpaceKind::Unknown,
        }
    }

    fn get_func_space_name(tree: &Tree, node: usize, code: &[u8]) -> (r: Option<String>)
        ensures
            name_view(r) == typescript_func_name(*tree, node as int, code@),
    {
        if let Some(t) = text_of_field(tree, node, Field::Name, code) {
            return t;
        }
        // a function without a name takes the key of a pair or the name of a variable
        if let Some(p) = tree.nodes[node].parent {
            assert((p as int) < tree.nodes@.len());
            match Typescript::from_u16(tree.nodes[p].kind_id) {
                Typescript::Pair => {
                    if let Some(t) = text_of_field(tree, p, Field::Key, code) {
                        return t;
                    }
                },
                Typescript::VariableDeclarator => {
                    if let Some(t) = text_of_field(tree, p, Field::Name, code) {
                        return t;
                    }
                },
                _ => {},
            }
        }
        Some("<anonymous>".to_owned())
    }

    fn get_op_type(tree: &Tree, node: usize) -> (r: HalsteadType)
        ensures
            r == typescript_op_type(Typescript::spec_from_id(tree.nodes@[node as int].kind_id)),
    {
        match Typescript::from_u16(tree.nodes[node].kind_id) {
            Typescript::Export | Typescript::Import | Typescript::Import2 | Typescript::Extends
            | Typescript::DOT | Typescript::From | Typescript::LPAREN | Typescript::COMMA
            | Typescript::As | Typescript::STAR | Typescript::GTGT | Typescript::GTGTGT
            | Typescript::COLON | Typescript::Return | Typescript::Delete | Typescript::Throw
            | Typescript::Break | Typescript::Continue | Typescript::If | Typescript::Else
            | Typescript::Switch | Typescript::Case | Typescript::Default | Typescript::Async
            | Typescript::For | Typescript::In | Typescript::Of | Typescript::While
            | Typescript::Try | Typescript::Catch | Typescript::Finally | Typescript::With
            | Typescript::EQ | Typescript::AT | Typescript::AMPAMP | Typescript::PIPEPIPE
            | Typescript::PLUS | Typescript::DASH | Typescript::DASHDASH | Typescript::PLUSPLUS
            | Typescript::SLASH | Typescript::PERCENT | Typescript::STARSTAR | Typescript::PIPE
            | Typescript::AMP | Typescript::LTLT | Typescript::TILDE | Typescript::LT
            | Typescript::LTEQ | Typescript::EQEQ | Typescript::BANGEQ | Typescript::GTEQ
            | Typescript::GT | Typescript::PLUSEQ | Typescript::BANG | Typescript::BANGEQEQ
            | Typescript::EQEQEQ | Typescript::DASHEQ | Typescript::STAREQ
            | Typescript::SLASHEQ | Typescript::PERCENTEQ | Typescript::STARSTAREQ
            | Typescript::GTGTEQ | Typescript::GTGTGTEQ | Typescript::LTLTEQ
            | Typescript::AMPEQ | Typescript::CARET | Typescript::CARETEQ | Typescript::PIPEEQ
            | Typescript::Yield | Typescript::LBRACK | Typescript::LBRACE | Typescript::Await
            | Typescript::QMARK | Typescript::QMARKQMARK | Typescript::New | Typescript::Let
            | Typescript::Var | Typescript::Const | Typescript::Function
            | Typescript::FunctionExpression | Typescript::SEMI => {
                HalsteadType::Operator
            },
            Typescript::Identifier | Typescript::NestedIdentifier
            | Typescript::MemberExpression | Typescript::PropertyIdentifier
            | Typescript::String | Typescript::Number | Typescript::True | Typescript::False
            | Typescript::Null | Typescript::Void | Typescript::This | Typescript::Super
            | Typescript::Undefined | Typescript::SetLiteral | Typescript::Get
            | Typescript::Typeof | Typescript::Instanceof => {
                HalsteadType::Operand
            },
            _ => HalsteadType::Unknown,
        }
    }

    fn get_operator_id_as_str(id: u16) -> (r: &'static str)
        ensures
            r@ == typescript_operator_text(id),
    {
        match Typescript::from_u16(id) {
            Typescript::LPAREN => "()",
            Typescript::LBRACK => "[]",
            Typescript::LBRACE => "{}",
            k => k.as_str(),
        }
    }
}

} // verus!
