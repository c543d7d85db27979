use vstd::prelude::*;

use crate::getter::{Getter, anonymous, field_text, name_view, text_of_field};
use crate::node::{Field, Tree};
use crate::spaces::{HalsteadType, SpaceKind};

verus! {

/// Node kinds of the TSX grammar, in the grammar's own numbering.
#[derive(Clone, Copy, Debug, PartialEq, Eq, Structural)]
pub enum Tsx {
    End,
    Identifier,
    HashBangLine,
    Export,
    STAR,
    Default,
    Type,
    EQ,
    As,
    Namespace,
    LBRACE,
    COMMA,
    RBRACE,
    Typeof,
    Import2,
    From,
    With,
    Assert,
    Var,
    Let,
    Const,
    BANG,
    Else,
    If,
    Switch,
    For,
    LPAREN,
    SEMI,
    RPAREN,
    Await,
    In,
    Of,
    While,
    Do,
    Try,
    Break,
    Continue,
    Debugger,
    Return,
    Throw,
    COLON,
    Case,
    Catch,
    Finally,
    Yield,
    LBRACK,
    RBRACK,
    HtmlCharacterReference,
    GT,
    Identifier2,
    DOT,
    LTSLASH,
    SLASHGT,
    DQUOTE,
    SQUOTE,
    StringFragment,
    StringFragment2,
    Class2,
    Async,
    Function,
    EQGT,
    QMARKDOT,
    New,
    Using,
    PLUSEQ,
    DASHEQ,
    STAREQ,
    SLASHEQ,
    PERCENTEQ,
    CARETEQ,
    AMPEQ,
    PIPEEQ,
    GTGTEQ,
    GTGTGTEQ,
    LTLTEQ,
    STARSTAREQ,
    AMPAMPEQ,
    PIPEPIPEEQ,
    QMARKQMARKEQ,
    DOTDOTDOT,
    AMPAMP,
    PIPEPIPE,
    GTGT,
    GTGTGT,
    LTLT,
    AMP,
    CARET,
    PIPE,
    PLUS,
    DASH,
    SLASH,
    PERCENT,
    STARSTAR,
    LT,
    LTEQ,
    EQEQ,
    EQEQEQ,
    BANGEQ,
    BANGEQEQ,
    GTEQ,
    QMARKQMARK,
    Instanceof,
    TILDE,
    Void,
    Delete,
    PLUSPLUS,
    DASHDASH,
    StringFragment3,
    StringFragment4,
    EscapeSequence,
    Comment,
    BQUOTE,
    DOLLARLBRACE,
    SLASH2,
    RegexPattern,
    RegexFlags,
    Number,
    PrivatePropertyIdentifier,
    Target,
    Meta,
    This,
    Super,
    True,
    False,
    Null,
    Undefined,
    AT,
    Static,
    Readonly,
    Get,
    SetLiteral,
    QMARK,
    Declare,
    Public,
    Private,
    Protected,
    Override,
    Module2,
    Any,
    Number2,
    Boolean,
    String3,
    Symbol,
    Object2,
    Abstract,
    Accessor,
    Satisfies,
    Require,
    Extends,
    Implements,
    Global,
    Interface,
    Enum,
    DASHQMARKCOLON,
    PLUSQMARKCOLON,
    QMARKCOLON,
    Asserts2,
    Infer,
    Is,
    Keyof,
    UniqueSymbol,
    Unknown,
    Never,
    LBRACEPIPE,
    PIPERBRACE,
    AutomaticSemicolon,
    StringFragment5,
    QMARK2,
    HtmlComment,
    JsxText,
    FunctionSignatureAutomaticSemicolon,
    ErrorRecovery,
    Program,
    ExportStatement,
    NamespaceExport,
    ExportClause,
    ExportSpecifier,
    ModuleExportName,
    Declaration,
    Import,
    ImportStatement,
    ImportClause,
    FromClause,
    NamespaceImport,
    NamedImports,
    ImportSpecifier,
    ImportAttribute,
    Statement,
    ExpressionStatement,
    VariableDeclaration,
    LexicalDeclaration,
    VariableDeclarator,
    StatementBlock,
    ElseClause,
    IfStatement,
    SwitchStatement,
    ForStatement,
    ForInStatement,
    ForHeader,
    WhileStatement,
    DoStatement,
    TryStatement,
    WithStatement,
    BreakStatement,
    ContinueStatement,
    DebuggerStatement,
    ReturnStatement,
    ThrowStatement,
    EmptyStatement,
    LabeledStatement,
    SwitchBody,
    SwitchCase,
    SwitchDefault,
    CatchClause,
    FinallyClause,
    ParenthesizedExpression,
    Expression,
    PrimaryExpression,
    YieldExpression,
    Object,
    ObjectPattern,
    AssignmentPattern,
    ObjectAssignmentPattern,
    Array,
    ArrayPattern,
    JsxElement,
    JsxExpression,
    JsxOpeningElement,
    NestedIdentifier,
    JsxNamespaceName,
    JsxClosingElement,
    JsxSelfClosingElement,
    JsxAttribute,
    String,
    Class,
    ClassDeclaration,
    ClassHeritage,
    FunctionExpression,
    FunctionDeclaration,
    GeneratorFunction,
    GeneratorFunctionDeclaration,
    ArrowFunction,
    CallSignature2,
    FormalParameter,
    OptionalChain,
    CallExpression,
    NewExpression,
    AwaitExpression,
    MemberExpression,
    SubscriptExpression,
    AssignmentExpression,
    AugmentedAssignmentLhs,
    AugmentedAssignmentExpression,
    Initializer,
    DestructuringPattern,
    SpreadElement,
    TernaryExpression,
    BinaryExpression,
    UnaryExpression,
    UpdateExpression,
    SequenceExpression,
    String2,
    TemplateString,
    TemplateSubstitution,
    Regex,
    MetaProperty,
    Arguments,
    Decorator,
    MemberExpression2,
    CallExpression2,
    ClassBody,
    FormalParameters,
    ClassStaticBlock,
    Pattern,
    RestPattern,
    MethodDefinition,
    Pair,
    PairPattern,
    PropertyName,
    ComputedPropertyName,
    PublicFieldDefinition,
    ImportIdentifier,
    NonNullExpression,
    MethodSignature,
    AbstractMethodSignature,
    FunctionSignature,
    ParenthesizedExpression2,
    AsExpression,
    SatisfiesExpression,
    InstantiationExpression,
    ImportRequireClause,
    ExtendsClause,
    ExtendsClauseSingle,
    ImplementsClause,
    AmbientDeclaration,
    AbstractClassDeclaration,
    Module,
    InternalModule,
    Module3,
    ImportAlias,
    NestedTypeIdentifier,
    InterfaceDeclaration,
    ExtendsTypeClause,
    EnumDeclaration,
    EnumBody,
    EnumAssignment,
    TypeAliasDeclaration,
    AccessibilityModifier,
    OverrideModifier,
    RequiredParameter,
    OptionalParameter,
    ParameterName,
    OmittingTypeAnnotation,
    AddingTypeAnnotation,
    OptingTypeAnnotation,
    TypeAnnotation,
    MemberExpression3,
    CallExpression3,
    Asserts,
    AssertsAnnotation,
    Type2,
    RequiredParameter2,
    OptionalParameter2,
    OptionalType,
    RestType,
    TupleTypeMember,
    ConstructorType,
    PrimaryType,
    TemplateType,
    TemplateLiteralType,
    InferType,
    ConditionalType,
    GenericType,
    TypePredicate,
    TypePredicateAnnotation,
    MemberExpression4,
    SubscriptExpression2,
    CallExpression4,
    InstantiationExpression2,
    TypeQuery,
    IndexTypeQuery,
    LookupType,
    MappedTypeClause,
    LiteralType,
    UnaryExpression2,
    ExistentialType,
    FlowMaybeType,
    ParenthesizedType,
    PredefinedType,
    TypeArguments,
    ObjectType,
    CallSignature,
    PropertySignature,
    TypeParameters,
    TypeParameter,
    DefaultType,
    Constraint,
    ConstructSignature,
    IndexSignature,
    ArrayType,
    TupleType,
    ReadonlyType,
    UnionType,
    IntersectionType,
    FunctionType,
    ProgramRepeat1,
    ExportStatementRepeat1,
    ExportClauseRepeat1,
    NamedImportsRepeat1,
    VariableDeclarationRepeat1,
    SwitchBodyRepeat1,
    ObjectRepeat1,
    ObjectPatternRepeat1,
    ArrayRepeat1,
    ArrayPatternRepeat1,
    JsxElementRepeat1,
    JsxStringRepeat1,
    JsxStringRepeat2,
    SequenceExpressionRepeat1,
    StringRepeat1,
    StringRepeat2,
    TemplateStringRepeat1,
    ClassBodyRepeat1,
    FormalParametersRepeat1,
    JsxStartOpeningElementRepeat1,
    ExtendsClauseRepeat1,
    ImplementsClauseRepeat1,
    ExtendsTypeClauseRepeat1,
    EnumBodyRepeat1,
    TemplateLiteralTypeRepeat1,
    ObjectTypeRepeat1,
    TypeParametersRepeat1,
    TupleTypeRepeat1,
    InterfaceBody,
    PropertyIdentifier,
    ShorthandPropertyIdentifier,
    ShorthandPropertyIdentifierPattern,
    StatementIdentifier,
    ThisType,
    TypeIdentifier,
    Error,
}

impl Tsx {
    /// The grammar's numeric id of this kind.
    pub open spec fn id(self) -> u16 {
        match self {
            Tsx::End => 0,
            Tsx::Identifier => 1,
            Tsx::HashBangLine => 2,
            Tsx::Export => 3,
            Tsx::STAR => 4,
            Tsx::Default => 5,
            Tsx::Type => 6,
            Tsx::EQ => 7,
            Tsx::As => 8,
            Tsx::Namespace => 9,
            Tsx::LBRACE => 10,
            Tsx::COMMA => 11,
            Tsx::RBRACE => 12,
            Tsx::Typeof => 13,
            Tsx::Import2 => 14,
            Tsx::From => 15,
            Tsx::With => 16,
            Tsx::Assert => 17,
            Tsx::Var => 18,
            Tsx::Let => 19,
            Tsx::Const => 20,
            Tsx::BANG => 21,
            Tsx::Else => 22,
            Tsx::If => 23,
            Tsx::Switch => 24,
            Tsx::For => 25,
            Tsx::LPAREN => 26,
            Tsx::SEMI => 27,
            Tsx::RPAREN => 28,
            Tsx::Await => 29,
            Tsx::In => 30,
            Tsx::Of => 31,
            Tsx::While => 32,
            Tsx::Do => 33,
            Tsx::Try => 34,
            Tsx::Break => 35,
            Tsx::Continue => 36,
            Tsx::Debugger => 37,
            Tsx::Return => 38,
            Tsx::Throw => 39,
            Tsx::COLON => 40,
            Tsx::Case => 41,
            Tsx::Catch => 42,
            Tsx::Finally => 43,
            Tsx::Yield => 44,
            Tsx::LBRACK => 45,
            Tsx::RBRACK => 46,
            Tsx::HtmlCharacterReference => 47,
            Tsx::GT => 48,
            Tsx::Identifier2 => 49,
            Tsx::DOT => 50,
            Tsx::LTSLASH => 51,
            Tsx::SLASHGT => 52,
            Tsx::DQUOTE => 53,
            Tsx::SQUOTE => 54,
            Tsx::StringFragment => 55,
            Tsx::StringFragment2 => 56,
            Tsx::Class2 => 57,
            Tsx::Async => 58,
            Tsx::Function => 59,
            Tsx::EQGT => 60,
            Tsx::QMARKDOT => 61,
            Tsx::New => 62,
            Tsx::Using => 63,
            Tsx::PLUSEQ => 64,
            Tsx::DASHEQ => 65,
            Tsx::STAREQ => 66,
            Tsx::SLASHEQ => 67,
            Tsx::PERCENTEQ => 68,
            Tsx::CARETEQ => 69,
            Tsx::AMPEQ => 70,
            Tsx::PIPEEQ => 71,
            Tsx::GTGTEQ => 72,
            Tsx::GTGTGTEQ => 73,
            Tsx::LTLTEQ => 74,
            Tsx::STARSTAREQ => 75,
            Tsx::AMPAMPEQ => 76,
            Tsx::PIPEPIPEEQ => 77,
            Tsx::QMARKQMARKEQ => 78,
            Tsx::DOTDOTDOT => 79,
            Tsx::AMPAMP => 80,
            Tsx::PIPEPIPE => 81,
            Tsx::GTGT => 82,
            Tsx::GTGTGT => 83,
            Tsx::LTLT => 84,
            Tsx::AMP => 85,
            Tsx::CARET => 86,
            Tsx::PIPE => 87,
            Tsx::PLUS => 88,
            Tsx::DASH => 89,
            Tsx::SLASH => 90,
            Tsx::PERCENT => 91,
            Tsx::STARSTAR => 92,
            Tsx::LT => 93,
            Tsx::LTEQ => 94,
            Tsx::EQEQ => 95,
            Tsx::EQEQEQ => 96,
            Tsx::BANGEQ => 97,
            Tsx::BANGEQEQ => 98,
            Tsx::GTEQ => 99,
            Tsx::QMARKQMARK => 100,
            Tsx::Instanceof => 101,
            Tsx::TILDE => 102,
            Tsx::Void => 103,
            Tsx::Delete => 104,
            Tsx::PLUSPLUS => 105,
            Tsx::DASHDASH => 106,
            Tsx::StringFragment3 => 107,
            Tsx::StringFragment4 => 108,
            Tsx::EscapeSequence => 109,
            Tsx::Comment => 110,
            Tsx::BQUOTE => 111,
            Tsx::DOLLARLBRACE => 112,
            Tsx::SLASH2 => 113,
            Tsx::RegexPattern => 114,
            Tsx::RegexFlags => 115,
            Tsx::Number => 116,
            Tsx::PrivatePropertyIdentifier => 117,
            Tsx::Target => 118,
            Tsx::Meta => 119,
            Tsx::This => 120,
            Tsx::Super => 121,
            Tsx::True => 122,
            Tsx::False => 123,
            Tsx::Null => 124,
            Tsx::Undefined => 125,
            Tsx::AT => 126,
            Tsx::Static => 127,
            Tsx::Readonly => 128,
            Tsx::Get => 129,
            Tsx::SetLiteral => 130,
            Tsx::QMARK => 131,
            Tsx::Declare => 132,
            Tsx::Public => 133,
            Tsx::Private => 134,
            Tsx::Protected => 135,
            Tsx::Override => 136,
            Tsx::Module2 => 137,
            Tsx::Any => 138,
            Tsx::Number2 => 139,
            Tsx::Boolean => 140,
            Tsx::String3 => 141,
            Tsx::Symbol => 142,
            Tsx::Object2 => 143,
            Tsx::Abstract => 144,
            Tsx::Accessor => 145,
            Tsx::Satisfies => 146,
            Tsx::Require => 147,
            Tsx::Extends => 148,
            Tsx::Implements => 149,
            Tsx::Global => 150,
            Tsx::Interface => 151,
            Tsx::Enum => 152,
            Tsx::DASHQMARKCOLON => 153,
            Tsx::PLUSQMARKCOLON => 154,
            Tsx::QMARKCOLON => 155,
            Tsx::Asserts2 => 156,
            Tsx::Infer => 157,
            Tsx::Is => 158,
            Tsx::Keyof => 159,
            Tsx::UniqueSymbol => 160,
            Tsx::Unknown => 161,
            Tsx::Never => 162,
            Tsx::LBRACEPIPE => 163,
            Tsx::PIPERBRACE => 164,
            Tsx::AutomaticSemicolon => 165,
            Tsx::StringFragment5 => 166,
            Tsx::QMARK2 => 167,
            Tsx::HtmlComment => 168,
            Tsx::JsxText => 169,
            Tsx::FunctionSignatureAutomaticSemicolon => 170,
            Tsx::ErrorRecovery => 171,
            Tsx::Program => 172,
            Tsx::ExportStatement => 173,
            Tsx::NamespaceExport => 174,
            Tsx::ExportClause => 175,
            Tsx::ExportSpecifier => 176,
            Tsx::ModuleExportName => 177,
            Tsx::Declaration => 178,
            Tsx::Import => 179,
            Tsx::ImportStatement => 180,
            Tsx::ImportClause => 181,
            Tsx::FromClause => 182,
            Tsx::NamespaceImport => 183,
            Tsx::NamedImports => 184,
            Tsx::ImportSpecifier => 185,
            Tsx::ImportAttribute => 186,
            Tsx::Statement => 187,
            Tsx::ExpressionStatement => 188,
            Tsx::VariableDeclaration => 189,
            Tsx::LexicalDeclaration => 190,
            Tsx::VariableDeclarator => 191,
            Tsx::StatementBlock => 192,
            Tsx::ElseClause => 193,
            Tsx::IfStatement => 194,
            Tsx::SwitchStatement => 195,
            Tsx::ForStatement => 196,
            Tsx::ForInStatement => 197,
            Tsx::ForHeader => 198,
            Tsx::WhileStatement => 199,
            Tsx::DoStatement => 200,
            Tsx::TryStatement => 201,
            Tsx::WithStatement => 202,
            Tsx::BreakStatement => 203,
            Tsx::ContinueStatement => 204,
            Tsx::DebuggerStatement => 205,
            Tsx::ReturnStatement => 206,
            Tsx::ThrowStatement => 207,
            Tsx::EmptyStatement => 208,
            Tsx::LabeledStatement => 209,
            Tsx::SwitchBody => 210,
            Tsx::SwitchCase => 211,
            Tsx::SwitchDefault => 212,
            Tsx::CatchClause => 213,
            Tsx::FinallyClause => 214,
            Tsx::ParenthesizedExpression => 215,
            Tsx::Expression => 216,
            Tsx::PrimaryExpression => 217,
            Tsx::YieldExpression => 218,
            Tsx::Object => 219,
            Tsx::ObjectPattern => 220,
            Tsx::AssignmentPattern => 221,
            Tsx::ObjectAssignmentPattern => 222,
            Tsx::Array => 223,
            Tsx::ArrayPattern => 224,
            Tsx::JsxElement => 225,
            Tsx::JsxExpression => 226,
            Tsx::JsxOpeningElement => 227,
            Tsx::NestedIdentifier => 228,
            Tsx::JsxNamespaceName => 229,
            Tsx::JsxClosingElement => 230,
            Tsx::JsxSelfClosingElement => 231,
            Tsx::JsxAttribute => 232,
            Tsx::String => 233,
            Tsx::Class => 234,
            Tsx::ClassDeclaration => 235,
            Tsx::ClassHeritage => 236,
            Tsx::FunctionExpression => 237,
            Tsx::FunctionDeclaration => 238,
            Tsx::GeneratorFunction => 239,
            Tsx::GeneratorFunctionDeclaration => 240,
            Tsx::ArrowFunction => 241,
            Tsx::CallSignature2 => 242,
            Tsx::FormalParameter => 243,
            Tsx::OptionalChain => 244,
            Tsx::CallExpression => 245,
            Tsx::NewExpression => 246,
            Tsx::AwaitExpression => 247,
            Tsx::MemberExpression => 248,
            Tsx::SubscriptExpression => 249,
            Tsx::AssignmentExpression => 250,
            Tsx::AugmentedAssignmentLhs => 251,
            Tsx::AugmentedAssignmentExpression => 252,
            Tsx::Initializer => 253,
            Tsx::DestructuringPattern => 254,
            Tsx::SpreadElement => 255,
            Tsx::TernaryExpression => 256,
            Tsx::BinaryExpression => 257,
            Tsx::UnaryExpression => 258,
            Tsx::UpdateExpression => 259,
            Tsx::SequenceExpression => 260,
            Tsx::String2 => 261,
            Tsx::TemplateString => 262,
            Tsx::TemplateSubstitution => 263,
            Tsx::Regex => 264,
            Tsx::MetaProperty => 265,
            Tsx::Arguments => 266,
            Tsx::Decorator => 267,
            Tsx::MemberExpression2 => 268,
            Tsx::CallExpression2 => 269,
            Tsx::ClassBody => 270,
            Tsx::FormalParameters => 271,
            Tsx::ClassStaticBlock => 272,
            Tsx::Pattern => 273,
            Tsx::RestPattern => 274,
            Tsx::MethodDefinition => 275,
            Tsx::Pair => 276,
            Tsx::PairPattern => 277,
            Tsx::PropertyName => 278,
            Tsx::ComputedPropertyName => 279,
            Tsx::PublicFieldDefinition => 280,
            Tsx::ImportIdentifier => 281,
            Tsx::NonNullExpression => 282,
            Tsx::MethodSignature => 283,
            Tsx::AbstractMethodSignature => 284,
            Tsx::FunctionSignature => 285,
            Tsx::ParenthesizedExpression2 => 286,
            Tsx::AsExpression => 287,
            Tsx::SatisfiesExpression => 288,
            Tsx::InstantiationExpression => 289,
            Tsx::ImportRequireClause => 290,
            Tsx::ExtendsClause => 291,
            Tsx::ExtendsClauseSingle => 292,
            Tsx::ImplementsClause => 293,
            Tsx::AmbientDeclaration => 294,
            Tsx::AbstractClassDeclaration => 295,
            Tsx::Module => 296,
            Tsx::InternalModule => 297,
            Tsx::Module3 => 298,
            Tsx::ImportAlias => 299,
            Tsx::NestedTypeIdentifier => 300,
            Tsx::InterfaceDeclaration => 301,
            Tsx::ExtendsTypeClause => 302,
            Tsx::EnumDeclaration => 303,
            Tsx::EnumBody => 304,
            Tsx::EnumAssignment => 305,
            Tsx::TypeAliasDeclaration => 306,
            Tsx::AccessibilityModifier => 307,
            Tsx::OverrideModifier => 308,
            Tsx::RequiredParameter => 309,
            Tsx::OptionalParameter => 310,
            Tsx::ParameterName => 311,
            Tsx::OmittingTypeAnnotation => 312,
            Tsx::AddingTypeAnnotation => 313,
            Tsx::OptingTypeAnnotation => 314,
            Tsx::TypeAnnotation => 315,
            Tsx::MemberExpression3 => 316,
            Tsx::CallExpression3 => 317,
            Tsx::Asserts => 318,
            Tsx::AssertsAnnotation => 319,
            Tsx::Type2 => 320,
            Tsx::RequiredParameter2 => 321,
            Tsx::OptionalParameter2 => 322,
            Tsx::OptionalType => 323,
            Tsx::RestType => 324,
            Tsx::TupleTypeMember => 325,
            Tsx::ConstructorType => 326,
            Tsx::PrimaryType => 327,
            Tsx::TemplateType => 328,
            Tsx::TemplateLiteralType => 329,
            Tsx::InferType => 330,
            Tsx::ConditionalType => 331,
            Tsx::GenericType => 332,
            Tsx::TypePredicate => 333,
            Tsx::TypePredicateAnnotation => 334,
            Tsx::MemberExpression4 => 335,
            Tsx::SubscriptExpression2 => 336,
            Tsx::CallExpression4 => 337,
            Tsx::InstantiationExpression2 => 338,
            Tsx::TypeQuery => 339,
            Tsx::IndexTypeQuery => 340,
            Tsx::LookupType => 341,
            Tsx::MappedTypeClause => 342,
            Tsx::LiteralType => 343,
            Tsx::UnaryExpression2 => 344,
            Tsx::ExistentialType => 345,
            Tsx::FlowMaybeType => 346,
            Tsx::ParenthesizedType => 347,
            Tsx::PredefinedType => 348,
            Tsx::TypeArguments => 349,
            Tsx::ObjectType => 350,
            Tsx::CallSignature => 351,
            Tsx::PropertySignature => 352,
            Tsx::TypeParameters => 353,
            Tsx::TypeParameter => 354,
            Tsx::DefaultType => 355,
            Tsx::Constraint => 356,
            Tsx::ConstructSignature => 357,
            Tsx::IndexSignature => 358,
            Tsx::ArrayType => 359,
            Tsx::TupleType => 360,
            Tsx::ReadonlyType => 361,
            Tsx::UnionType => 362,
            Tsx::IntersectionType => 363,
            Tsx::FunctionType => 364,
            Tsx::ProgramRepeat1 => 365,
            Tsx::ExportStatementRepeat1 => 366,
            Tsx::ExportClauseRepeat1 => 367,
            Tsx::NamedImportsRepeat1 => 368,
            Tsx::VariableDeclarationRepeat1 => 369,
            Tsx::SwitchBodyRepeat1 => 370,
            Tsx::ObjectRepeat1 => 371,
            Tsx::ObjectPatternRepeat1 => 372,
            Tsx::ArrayRepeat1 => 373,
            Tsx::ArrayPatternRepeat1 => 374,
            Tsx::JsxElementRepeat1 => 375,
            Tsx::JsxStringRepeat1 => 376,
            Tsx::JsxStringRepeat2 => 377,
            Tsx::SequenceExpressionRepeat1 => 378,
            Tsx::StringRepeat1 => 379,
            Tsx::StringRepeat2 => 380,
            Tsx::TemplateStringRepeat1 => 381,
            Tsx::ClassBodyRepeat1 => 382,
            Tsx::FormalParametersRepeat1 => 383,
            Tsx::JsxStartOpeningElementRepeat1 => 384,
            Tsx::ExtendsClauseRepeat1 => 385,
            Tsx::ImplementsClauseRepeat1 => 386,
            Tsx::ExtendsTypeClauseRepeat1 => 387,
            Tsx::EnumBodyRepeat1 => 388,
            Tsx::TemplateLiteralTypeRepeat1 => 389,
            Tsx::ObjectTypeRepeat1 => 390,
            Tsx::TypeParametersRepeat1 => 391,
            Tsx::TupleTypeRepeat1 => 392,
            Tsx::InterfaceBody => 393,
            Tsx::PropertyIdentifier => 394,
            Tsx::ShorthandPropertyIdentifier => 395,
            Tsx::ShorthandPropertyIdentifierPattern => 396,
            Tsx::StatementIdentifier => 397,
            Tsx::ThisType => 398,
            Tsx::TypeIdentifier => 399,
            Tsx::Error => 400,
        }
    }

    /// The kind that a numeric id stands for: ids past the table give `Error`.
    pub open spec fn spec_from_id(x: u16) -> Tsx {
        match x {
            0 => Tsx::End,
            1 => Tsx::Identifier,
            2 => Tsx::HashBangLine,
            3 => Tsx::Export,
            4 => Tsx::STAR,
            5 => Tsx::Default,
            6 => Tsx::Type,
            7 => Tsx::EQ,
            8 => Tsx::As,
            9 => Tsx::Namespace,
            10 => Tsx::LBRACE,
            11 => Tsx::COMMA,
            12 => Tsx::RBRACE,
            13 => Tsx::Typeof,
            14 => Tsx::Import2,
            15 => Tsx::From,
            16 => Tsx::With,
            17 => Tsx::Assert,
            18 => Tsx::Var,
            19 => Tsx::Let,
            20 => Tsx::Const,
            21 => Tsx::BANG,
            22 => Tsx::Else,
            23 => Tsx::If,
            24 => Tsx::Switch,
            25 => Tsx::For,
            26 => Tsx::LPAREN,
            27 => Tsx::SEMI,
            28 => Tsx::RPAREN,
            29 => Tsx::Await,
            30 => Tsx::In,
            31 => Tsx::Of,
            32 => Tsx::While,
            33 => Tsx::Do,
            34 => Tsx::Try,
            35 => Tsx::Break,
            36 => Tsx::Continue,
            37 => Tsx::Debugger,
            38 => Tsx::Return,
            39 => Tsx::Throw,
            40 => Tsx::COLON,
            41 => Tsx::Case,
            42 => Tsx::Catch,
            43 => Tsx::Finally,
            44 => Tsx::Yield,
            45 => Tsx::LBRACK,
            46 => Tsx::RBRACK,
            47 => Tsx::HtmlCharacterReference,
            48 => Tsx::GT,
            49 => Tsx::Identifier2,
            50 => Tsx::DOT,
            51 => Tsx::LTSLASH,
            52 => Tsx::SLASHGT,
            53 => Tsx::DQUOTE,
            54 => Tsx::SQUOTE,
            55 => Tsx::StringFragment,
            56 => Tsx::StringFragment2,
            57 => Tsx::Class2,
            58 => Tsx::Async,
            59 => Tsx::Function,
            60 => Tsx::EQGT,
            61 => Tsx::QMARKDOT,
            62 => Tsx::New,
            63 => Tsx::Using,
            64 => Tsx::PLUSEQ,
            65 => Tsx::DASHEQ,
            66 => Tsx::STAREQ,
            67 => Tsx::SLASHEQ,
            68 => Tsx::PERCENTEQ,
            69 => Tsx::CARETEQ,
            70 => Tsx::AMPEQ,
            71 => Tsx::PIPEEQ,
            72 => Tsx::GTGTEQ,
            73 => Tsx::GTGTGTEQ,
            74 => Tsx::LTLTEQ,
            75 => Tsx::STARSTAREQ,
            76 => Tsx::AMPAMPEQ,
            77 => Tsx::PIPEPIPEEQ,
            78 => Tsx::QMARKQMARKEQ,
            79 => Tsx::DOTDOTDOT,
            80 => Tsx::AMPAMP,
            81 => Tsx::PIPEPIPE,
            82 => Tsx::GTGT,
            83 => Tsx::GTGTGT,
            84 => Tsx::LTLT,
            85 => Tsx::AMP,
            86 => Tsx::CARET,
            87 => Tsx::PIPE,
            88 => Tsx::PLUS,
            89 => Tsx::DASH,
            90 => Tsx::SLASH,
            91 => Tsx::PERCENT,
            92 => Tsx::STARSTAR,
            93 => Tsx::LT,
            94 => Tsx::LTEQ,
            95 => Tsx::EQEQ,
            96 => Tsx::EQEQEQ,
            97 => Tsx::BANGEQ,
            98 => Tsx::BANGEQEQ,
            99 => Tsx::GTEQ,
            100 => Tsx::QMARKQMARK,
            101 => Tsx::Instanceof,
            102 => Tsx::TILDE,
            103 => Tsx::Void,
            104 => Tsx::Delete,
            105 => Tsx::PLUSPLUS,
            106 => Tsx::DASHDASH,
            107 => Tsx::StringFragment3,
            108 => Tsx::StringFragment4,
            109 => Tsx::EscapeSequence,
            110 => Tsx::Comment,
            111 => Tsx::BQUOTE,
            112 => Tsx::DOLLARLBRACE,
            113 => Tsx::SLASH2,
            114 => Tsx::RegexPattern,
            115 => Tsx::RegexFlags,
            116 => Tsx::Number,
            117 => Tsx::PrivatePropertyIdentifier,
            118 => Tsx::Target,
            119 => Tsx::Meta,
            120 => Tsx::This,
            121 => Tsx::Super,
            122 => Tsx::True,
            123 => Tsx::False,
            124 => Tsx::Null,
            125 => Tsx::Undefined,
            126 => Tsx::AT,
            127 => Tsx::Static,
            128 => Tsx::Readonly,
            129 => Tsx::Get,
            130 => Tsx::SetLiteral,
            131 => Tsx::QMARK,
            132 => Tsx::Declare,
            133 => Tsx::Public,
            134 => Tsx::Private,
            135 => Tsx::Protected,
            136 => Tsx::Override,
            137 => Tsx::Module2,
            138 => Tsx::Any,
            139 => Tsx::Number2,
            140 => Tsx::Boolean,
            141 => Tsx::String3,
            142 => Tsx::Symbol,
            143 => Tsx::Object2,
            144 => Tsx::Abstract,
            145 => Tsx::Accessor,
            146 => Tsx::Satisfies,
            147 => Tsx::Require,
            148 => Tsx::Extends,
            149 => Tsx::Implements,
            150 => Tsx::Global,
            151 => Tsx::Interface,
            152 => Tsx::Enum,
            153 => Tsx::DASHQMARKCOLON,
            154 => Tsx::PLUSQMARKCOLON,
            155 => Tsx::QMARKCOLON,
            156 => Tsx::Asserts2,
            157 => Tsx::Infer,
            158 => Tsx::Is,
            159 => Tsx::Keyof,
            160 => Tsx::UniqueSymbol,
            161 => Tsx::Unknown,
            162 => Tsx::Never,
            163 => Tsx::LBRACEPIPE,
            164 => Tsx::PIPERBRACE,
            165 => Tsx::AutomaticSemicolon,
            166 => Tsx::StringFragment5,
            167 => Tsx::QMARK2,
            168 => Tsx::HtmlComment,
            169 => Tsx::JsxText,
            170 => Tsx::FunctionSignatureAutomaticSemicolon,
            171 => Tsx::ErrorRecovery,
            172 => Tsx::Program,
            173 => Tsx::ExportStatement,
            174 => Tsx::NamespaceExport,
            175 => Tsx::ExportClause,
            176 => Tsx::ExportSpecifier,
            177 => Tsx::ModuleExportName,
            178 => Tsx::Declaration,
            179 => Tsx::Import,
            180 => Tsx::ImportStatement,
            181 => Tsx::ImportClause,
            182 => Tsx::FromClause,
            183 => Tsx::NamespaceImport,
            184 => Tsx::NamedImports,
            185 => Tsx::ImportSpecifier,
            186 => Tsx::ImportAttribute,
            187 => Tsx::Statement,
            188 => Tsx::ExpressionStatement,
            189 => Tsx::VariableDeclaration,
            190 => Tsx::LexicalDeclaration,
            191 => Tsx::VariableDeclarator,
            192 => Tsx::StatementBlock,
            193 => Tsx::ElseClause,
            194 => Tsx::IfStatement,
            195 => Tsx::SwitchStatement,
            196 => Tsx::ForStatement,
            197 => Tsx::ForInStatement,
            198 => Tsx::ForHeader,
            199 => Tsx::WhileStatement,
            200 => Tsx::DoStatement,
            201 => Tsx::TryStatement,
            202 => Tsx::WithStatement,
            203 => Tsx::BreakStatement,
            204 => Tsx::ContinueStatement,
            205 => Tsx::DebuggerStatement,
            206 => Tsx::ReturnStatement,
            207 => Tsx::ThrowStatement,
            208 => Tsx::EmptyStatement,
            209 => Tsx::LabeledStatement,
            210 => Tsx::SwitchBody,
            211 => Tsx::SwitchCase,
            212 => Tsx::SwitchDefault,
            213 => Tsx::CatchClause,
            214 => Tsx::FinallyClause,
            215 => Tsx::ParenthesizedExpression,
            216 => Tsx::Expression,
            217 => Tsx::PrimaryExpression,
            218 => Tsx::YieldExpression,
            219 => Tsx::Object,
            220 => Tsx::ObjectPattern,
            221 => Tsx::AssignmentPattern,
            222 => Tsx::ObjectAssignmentPattern,
            223 => Tsx::Array,
            224 => Tsx::ArrayPattern,
            225 => Tsx::JsxElement,
            226 => Tsx::JsxExpression,
            227 => Tsx::JsxOpeningElement,
            228 => Tsx::NestedIdentifier,
            229 => Tsx::JsxNamespaceName,
            230 => Tsx::JsxClosingElement,
            231 => Tsx::JsxSelfClosingElement,
            232 => Tsx::JsxAttribute,
            233 => Tsx::String,
            234 => Tsx::Class,
            235 => Tsx::ClassDeclaration,
            236 => Tsx::ClassHeritage,
            237 => Tsx::FunctionExpression,
            238 => Tsx::FunctionDeclaration,
            239 => Tsx::GeneratorFunction,
            240 => Tsx::GeneratorFunctionDeclaration,
            241 => Tsx::ArrowFunction,
            242 => Tsx::CallSignature2,
            243 => Tsx::FormalParameter,
            244 => Tsx::OptionalChain,
            245 => Tsx::CallExpression,
            246 => Tsx::NewExpression,
            247 => Tsx::AwaitExpression,
            248 => Tsx::MemberExpression,
            249 => Tsx::SubscriptExpression,
            250 => Tsx::AssignmentExpression,
            251 => Tsx::AugmentedAssignmentLhs,
            252 => Tsx::AugmentedAssignmentExpression,
            253 => Tsx::Initializer,
            254 => Tsx::DestructuringPattern,
            255 => Tsx::SpreadElement,
            256 => Tsx::TernaryExpression,
            257 => Tsx::BinaryExpression,
            258 => Tsx::UnaryExpression,
            259 => Tsx::UpdateExpression,
            260 => Tsx::SequenceExpression,
            261 => Tsx::String2,
            262 => Tsx::TemplateString,
            263 => Tsx::TemplateSubstitution,
            264 => Tsx::Regex,
            265 => Tsx::MetaProperty,
            266 => Tsx::Arguments,
            267 => Tsx::Decorator,
            268 => Tsx::MemberExpression2,
            269 => Tsx::CallExpression2,
            270 => Tsx::ClassBody,
            271 => Tsx::FormalParameters,
            272 => Tsx::ClassStaticBlock,
            273 => Tsx::Pattern,
            274 => Tsx::RestPattern,
            275 => Tsx::MethodDefinition,
            276 => Tsx::Pair,
            277 => Tsx::PairPattern,
            278 => Tsx::PropertyName,
            279 => Tsx::ComputedPropertyName,
            280 => Tsx::PublicFieldDefinition,
            281 => Tsx::ImportIdentifier,
            282 => Tsx::NonNullExpression,
            283 => Tsx::MethodSignature,
            284 => Tsx::AbstractMethodSignature,
            285 => Tsx::FunctionSignature,
            286 => Tsx::ParenthesizedExpression2,
            287 => Tsx::AsExpression,
            288 => Tsx::SatisfiesExpression,
            289 => Tsx::InstantiationExpression,
            290 => Tsx::ImportRequireClause,
            291 => Tsx::ExtendsClause,
            292 => Tsx::ExtendsClauseSingle,
            293 => Tsx::ImplementsClause,
            294 => Tsx::AmbientDeclaration,
            295 => Tsx::AbstractClassDeclaration,
            296 => Tsx::Module,
            297 => Tsx::InternalModule,
            298 => Tsx::Module3,
            299 => Tsx::ImportAlias,
            300 => Tsx::NestedTypeIdentifier,
            301 => Tsx::InterfaceDeclaration,
            302 => Tsx::ExtendsTypeClause,
            303 => Tsx::EnumDeclaration,
            304 => Tsx::EnumBody,
            305 => Tsx::EnumAssignment,
            306 => Tsx::TypeAliasDeclaration,
            307 => Tsx::AccessibilityModifier,
            308 => Tsx::OverrideModifier,
            309 => Tsx::RequiredParameter,
            310 => Tsx::OptionalParameter,
            311 => Tsx::ParameterName,
            312 => Tsx::OmittingTypeAnnotation,
            313 => Tsx::AddingTypeAnnotation,
            314 => Tsx::OptingTypeAnnotation,
            315 => Tsx::TypeAnnotation,
            316 => Tsx::MemberExpression3,
            317 => Tsx::CallExpression3,
            318 => Tsx::Asserts,
            319 => Tsx::AssertsAnnotation,
            320 => Tsx::Type2,
            321 => Tsx::RequiredParameter2,
            322 => Tsx::OptionalParameter2,
            323 => Tsx::OptionalType,
            324 => Tsx::RestType,
            325 => Tsx::TupleTypeMember,
            326 => Tsx::ConstructorType,
            327 => Tsx::PrimaryType,
            328 => Tsx::TemplateType,
            329 => Tsx::TemplateLiteralType,
            330 => Tsx::InferType,
            331 => Tsx::ConditionalType,
            332 => Tsx::GenericType,
            333 => Tsx::TypePredicate,
            334 => Tsx::TypePredicateAnnotation,
            335 => Tsx::MemberExpression4,
            336 => Tsx::SubscriptExpression2,
            337 => Tsx::CallExpression4,
            338 => Tsx::InstantiationExpression2,
            339 => Tsx::TypeQuery,
            340 => Tsx::IndexTypeQuery,
            341 => Tsx::LookupType,
            342 => Tsx::MappedTypeClause,
            343 => Tsx::LiteralType,
            344 => Tsx::UnaryExpression2,
            345 => Tsx::ExistentialType,
            346 => Tsx::FlowMaybeType,
            347 => Tsx::ParenthesizedType,
            348 => Tsx::PredefinedType,
            349 => Tsx::TypeArguments,
            350 => Tsx::ObjectType,
            351 => Tsx::CallSignature,
            352 => Tsx::PropertySignature,
            353 => Tsx::TypeParameters,
            354 => Tsx::TypeParameter,
            355 => Tsx::DefaultType,
            356 => Tsx::Constraint,
            357 => Tsx::ConstructSignature,
            358 => Tsx::IndexSignature,
            359 => Tsx::ArrayType,
            360 => Tsx::TupleType,
            361 => Tsx::ReadonlyType,
            362 => Tsx::UnionType,
            363 => Tsx::IntersectionType,
            364 => Tsx::FunctionType,
            365 => Tsx::ProgramRepeat1,
            366 => Tsx::ExportStatementRepeat1,
            367 => Tsx::ExportClauseRepeat1,
            368 => Tsx::NamedImportsRepeat1,
            369 => Tsx::VariableDeclarationRepeat1,
            370 => Tsx::SwitchBodyRepeat1,
            371 => Tsx::ObjectRepeat1,
            372 => Tsx::ObjectPatternRepeat1,
            373 => Tsx::ArrayRepeat1,
            374 => Tsx::ArrayPatternRepeat1,
            375 => Tsx::JsxElementRepeat1,
            376 => Tsx::JsxStringRepeat1,
            377 => Tsx::JsxStringRepeat2,
            378 => Tsx::SequenceExpressionRepeat1,
            379 => Tsx::StringRepeat1,
            380 => Tsx::StringRepeat2,
            381 => Tsx::TemplateStringRepeat1,
            382 => Tsx::ClassBodyRepeat1,
            383 => Tsx::FormalParametersRepeat1,
            384 => Tsx::JsxStartOpeningElementRepeat1,
            385 => Tsx::ExtendsClauseRepeat1,
            386 => Tsx::ImplementsClauseRepeat1,
            387 => Tsx::ExtendsTypeClauseRepeat1,
            388 => Tsx::EnumBodyRepeat1,
            389 => Tsx::TemplateLiteralTypeRepeat1,
            390 => Tsx::ObjectTypeRepeat1,
            391 => Tsx::TypeParametersRepeat1,
            392 => Tsx::TupleTypeRepeat1,
            393 => Tsx::InterfaceBody,
            394 => Tsx::PropertyIdentifier,
            395 => Tsx::ShorthandPropertyIdentifier,
            396 => Tsx::ShorthandPropertyIdentifierPattern,
            397 => Tsx::StatementIdentifier,
            398 => Tsx::ThisType,
            399 => Tsx::TypeIdentifier,
            _ => Tsx::Error,
        }
    }

    /// The display string of this kind.
    pub open spec fn text(self) -> Seq<char> {
        match self {
            Tsx::End => "end"@,
            Tsx::Identifier => "identifier"@,
            Tsx::HashBangLine => "hash_bang_line"@,
            Tsx::Export => "export"@,
            Tsx::STAR => "*"@,
            Tsx::Default => "default"@,
            Tsx::Type => "type"@,
            Tsx::EQ => "="@,
            Tsx::As => "as"@,
            Tsx::Namespace => "namespace"@,
            Tsx::LBRACE => "{"@,
            Tsx::COMMA => ","@,
            Tsx::RBRACE => "}"@,
            Tsx::Typeof => "typeof"@,
            Tsx::Import2 => "import"@,
            Tsx::From => "from"@,
            Tsx::With => "with"@,
            Tsx::Assert => "assert"@,
            Tsx::Var => "var"@,
            Tsx::Let => "let"@,
            Tsx::Const => "const"@,
            Tsx::BANG => "!"@,
            Tsx::Else => "else"@,
            Tsx::If => "if"@,
            Tsx::Switch => "switch"@,
            Tsx::For => "for"@,
            Tsx::LPAREN => "("@,
            Tsx::SEMI => ";"@,
            Tsx::RPAREN => ")"@,
            Tsx::Await => "await"@,
            Tsx::In => "in"@,
            Tsx::Of => "of"@,
            Tsx::While => "while"@,
            Tsx::Do => "do"@,
            Tsx::Try => "try"@,
            Tsx::Break => "break"@,
            Tsx::Continue => "continue"@,
            Tsx::Debugger => "debugger"@,
            Tsx::Return => "return"@,
            Tsx::Throw => "throw"@,
            Tsx::COLON => ":"@,
            Tsx::Case => "case"@,
            Tsx::Catch => "catch"@,
            Tsx::Finally => "finally"@,
            Tsx::Yield => "yield"@,
            Tsx::LBRACK => "["@,
            Tsx::RBRACK => "]"@,
            Tsx::HtmlCharacterReference => "html_character_reference"@,
            Tsx::GT => ">"@,
            Tsx::Identifier2 => "identifier"@,
            Tsx::DOT => "."@,
            Tsx::LTSLASH => "</"@,
            Tsx::SLASHGT => "/>"@,
            Tsx::DQUOTE => "\""@,
            Tsx::SQUOTE => "'"@,
            Tsx::StringFragment => "string_fragment"@,
            Tsx::StringFragment2 => "string_fragment"@,
            Tsx::Class2 => "class"@,
            Tsx::Async => "async"@,
            Tsx::Function => "function"@,
            Tsx::EQGT => "=>"@,
            Tsx::QMARKDOT => "?."@,
            Tsx::New => "new"@,
            Tsx::Using => "using"@,
            Tsx::PLUSEQ => "+="@,
            Tsx::DASHEQ => "-="@,
            Tsx::STAREQ => "*="@,
            Tsx::SLASHEQ => "/="@,
            Tsx::PERCENTEQ => "%="@,
            Tsx::CARETEQ => "^="@,
            Tsx::AMPEQ => "&="@,
            Tsx::PIPEEQ => "|="@,
            Tsx::GTGTEQ => ">>="@,
            Tsx::GTGTGTEQ => ">>>="@,
            Tsx::LTLTEQ => "<<="@,
            Tsx::STARSTAREQ => "**="@,
            Tsx::AMPAMPEQ => "&&="@,
            Tsx::PIPEPIPEEQ => "||="@,
            Tsx::QMARKQMARKEQ => "??="@,
            Tsx::DOTDOTDOT => "..."@,
            Tsx::AMPAMP => "&&"@,
            Tsx::PIPEPIPE => "||"@,
            Tsx::GTGT => ">>"@,
            Tsx::GTGTGT => ">>>"@,
            Tsx::LTLT => "<<"@,
            Tsx::AMP => "&"@,
            Tsx::CARET => "^"@,
            Tsx::PIPE => "|"@,
            Tsx::PLUS => "+"@,
            Tsx::DASH => "-"@,
            Tsx::SLASH => "/"@,
            Tsx::PERCENT => "%"@,
            Tsx::STARSTAR => "**"@,
            Tsx::LT => "<"@,
            Tsx::LTEQ => "<="@,
            Tsx::EQEQ => "=="@,
            Tsx::EQEQEQ => "==="@,
            Tsx::BANGEQ => "!="@,
            Tsx::BANGEQEQ => "!=="@,
            Tsx::GTEQ => ">="@,
            Tsx::QMARKQMARK => "??"@,
            Tsx::Instanceof => "instanceof"@,
            Tsx::TILDE => "~"@,
            Tsx::Void => "void"@,
            Tsx::Delete => "delete"@,
            Tsx::PLUSPLUS => "++"@,
            Tsx::DASHDASH => "--"@,
            Tsx::StringFragment3 => "string_fragment"@,
            Tsx::StringFragment4 => "string_fragment"@,
            Tsx::EscapeSequence => "escape_sequence"@,
            Tsx::Comment => "comment"@,
            Tsx::BQUOTE => "`"@,
            Tsx::DOLLARLBRACE => "${"@,
            Tsx::SLASH2 => "/"@,
            Tsx::RegexPattern => "regex_pattern"@,
            Tsx::RegexFlags => "regex_flags"@,
            Tsx::Number => "number"@,
            Tsx::PrivatePropertyIdentifier => "private_property_identifier"@,
            Tsx::Target => "target"@,
            Tsx::Meta => "meta"@,
            Tsx::This => "this"@,
            Tsx::Super => "super"@,
            Tsx::True => "true"@,
            Tsx::False => "false"@,
            Tsx::Null => "null"@,
            Tsx::Undefined => "undefined"@,
            Tsx::AT => "@"@,
            Tsx::Static => "static"@,
            Tsx::Readonly => "readonly"@,
            Tsx::Get => "get"@,
            Tsx::SetLiteral => "set"@,
            Tsx::QMARK => "?"@,
            Tsx::Declare => "declare"@,
            Tsx::Public => "public"@,
            Tsx::Private => "private"@,
            Tsx::Protected => "protected"@,
            Tsx::Override => "override"@,
            Tsx::Module2 => "module"@,
            Tsx::Any => "any"@,
            Tsx::Number2 => "number"@,
            Tsx::Boolean => "boolean"@,
            Tsx::String3 => "string"@,
            Tsx::Symbol => "symbol"@,
            Tsx::Object2 => "object"@,
            Tsx::Abstract => "abstract"@,
            Tsx::Accessor => "accessor"@,
            Tsx::Satisfies => "satisfies"@,
            Tsx::Require => "require"@,
            Tsx::Extends => "extends"@,
            Tsx::Implements => "implements"@,
            Tsx::Global => "global"@,
            Tsx::Interface => "interface"@,
            Tsx::Enum => "enum"@,
            Tsx::DASHQMARKCOLON => "-?:"@,
            Tsx::PLUSQMARKCOLON => "+?:"@,
            Tsx::QMARKCOLON => "?:"@,
            Tsx::Asserts2 => "asserts"@,
            Tsx::Infer => "infer"@,
            Tsx::Is => "is"@,
            Tsx::Keyof => "keyof"@,
            Tsx::UniqueSymbol => "unique symbol"@,
            Tsx::Unknown => "unknown"@,
            Tsx::Never => "never"@,
            Tsx::LBRACEPIPE => "{|"@,
            Tsx::PIPERBRACE => "|}"@,
            Tsx::AutomaticSemicolon => "_automatic_semicolon"@,
            Tsx::StringFragment5 => "string_fragment"@,
            Tsx::QMARK2 => "?"@,
            Tsx::HtmlComment => "html_comment"@,
            Tsx::JsxText => "jsx_text"@,
            Tsx::FunctionSignatureAutomaticSemicolon => "_function_signature_automatic_semicolon"@,
            Tsx::ErrorRecovery => "__error_recovery"@,
            Tsx::Program => "program"@,
            Tsx::ExportStatement => "export_statement"@,
            Tsx::NamespaceExport => "namespace_export"@,
            Tsx::ExportClause => "export_clause"@,
            Tsx::ExportSpecifier => "export_specifier"@,
            Tsx::ModuleExportName => "_module_export_name"@,
            Tsx::Declaration => "declaration"@,
            Tsx::Import => "import"@,
            Tsx::ImportStatement => "import_statement"@,
            Tsx::ImportClause => "import_clause"@,
            Tsx::FromClause => "_from_clause"@,
            Tsx::NamespaceImport => "namespace_import"@,
            Tsx::NamedImports => "named_imports"@,
            Tsx::ImportSpecifier => "import_specifier"@,
            Tsx::ImportAttribute => "import_attribute"@,
            Tsx::Statement => "statement"@,
            Tsx::ExpressionStatement => "expression_statement"@,
            Tsx::VariableDeclaration => "variable_declaration"@,
            Tsx::LexicalDeclaration => "lexical_declaration"@,
            Tsx::VariableDeclarator => "variable_declarator"@,
            Tsx::StatementBlock => "statement_block"@,
            Tsx::ElseClause => "else_clause"@,
            Tsx::IfStatement => "if_statement"@,
            Tsx::SwitchStatement => "switch_statement"@,
            Tsx::ForStatement => "for_statement"@,
            Tsx::ForInStatement => "for_in_statement"@,
            Tsx::ForHeader => "_for_header"@,
            Tsx::WhileStatement => "while_statement"@,
            Tsx::DoStatement => "do_statement"@,
            Tsx::TryStatement => "try_statement"@,
            Tsx::WithStatement => "with_statement"@,
            Tsx::BreakStatement => "break_statement"@,
            Tsx::ContinueStatement => "continue_statement"@,
            Tsx::DebuggerStatement => "debugger_statement"@,
            Tsx::ReturnStatement => "return_statement"@,
            Tsx::ThrowStatement => "throw_statement"@,
            Tsx::EmptyStatement => "empty_statement"@,
            Tsx::LabeledStatement => "labeled_statement"@,
            Tsx::SwitchBody => "switch_body"@,
            Tsx::SwitchCase => "switch_case"@,
            Tsx::SwitchDefault => "switch_default"@,
            Tsx::CatchClause => "catch_clause"@,
            Tsx::FinallyClause => "finally_clause"@,
            Tsx::ParenthesizedExpression => "parenthesized_expression"@,
            Tsx::Expression => "expression"@,
            Tsx::PrimaryExpression => "primary_expression"@,
            Tsx::YieldExpression => "yield_expression"@,
            Tsx::Object => "object"@,
            Tsx::ObjectPattern => "object_pattern"@,
            Tsx::AssignmentPattern => "assignment_pattern"@,
            Tsx::ObjectAssignmentPattern => "object_assignment_pattern"@,
            Tsx::Array => "array"@,
            Tsx::ArrayPattern => "array_pattern"@,
            Tsx::JsxElement => "jsx_element"@,
            Tsx::JsxExpression => "jsx_expression"@,
            Tsx::JsxOpeningElement => "jsx_opening_element"@,
            Tsx::NestedIdentifier => "nested_identifier"@,
            Tsx::JsxNamespaceName => "jsx_namespace_name"@,
            Tsx::JsxClosingElement => "jsx_closing_element"@,
            Tsx::JsxSelfClosingElement => "jsx_self_closing_element"@,
            Tsx::JsxAttribute => "jsx_attribute"@,
            Tsx::String => "string"@,
            Tsx::Class => "class"@,
            Tsx::ClassDeclaration => "class_declaration"@,
            Tsx::ClassHeritage => "class_heritage"@,
            Tsx::FunctionExpression => "function_expression"@,
            Tsx::FunctionDeclaration => "function_declaration"@,
            Tsx::GeneratorFunction => "generator_function"@,
            Tsx::GeneratorFunctionDeclaration => "generator_function_declaration"@,
            Tsx::ArrowFunction => "arrow_function"@,
            Tsx::CallSignature2 => "_call_signature"@,
            Tsx::FormalParameter => "_formal_parameter"@,
            Tsx::OptionalChain => "optional_chain"@,
            Tsx::CallExpression => "call_expression"@,
            Tsx::NewExpression => "new_expression"@,
            Tsx::AwaitExpression => "await_expression"@,
            Tsx::MemberExpression => "member_expression"@,
            Tsx::SubscriptExpression => "subscript_expression"@,
            Tsx::AssignmentExpression => "assignment_expression"@,
            Tsx::AugmentedAssignmentLhs => "_augmented_assignment_lhs"@,
            Tsx::AugmentedAssignmentExpression => "augmented_assignment_expression"@,
            Tsx::Initializer => "_initializer"@,
            Tsx::DestructuringPattern => "_destructuring_pattern"@,
            Tsx::SpreadElement => "spread_element"@,
            Tsx::TernaryExpression => "ternary_expression"@,
            Tsx::BinaryExpression => "binary_expression"@,
            Tsx::UnaryExpression => "unary_expression"@,
            Tsx::UpdateExpression => "update_expression"@,
            Tsx::SequenceExpression => "sequence_expression"@,
            Tsx::String2 => "string"@,
            Tsx::TemplateString => "template_string"@,
            Tsx::TemplateSubstitution => "template_substitution"@,
            Tsx::Regex => "regex"@,
            Tsx::MetaProperty => "meta_property"@,
            Tsx::Arguments => "arguments"@,
            Tsx::Decorator => "decorator"@,
            Tsx::MemberExpression2 => "member_expression"@,
            Tsx::CallExpression2 => "call_expression"@,
            Tsx::ClassBody => "class_body"@,
            Tsx::FormalParameters => "formal_parameters"@,
            Tsx::ClassStaticBlock => "class_static_block"@,
            Tsx::Pattern => "pattern"@,
            Tsx::RestPattern => "rest_pattern"@,
            Tsx::MethodDefinition => "method_definition"@,
            Tsx::Pair => "pair"@,
            Tsx::PairPattern => "pair_pattern"@,
            Tsx::PropertyName => "_property_name"@,
            Tsx::ComputedPropertyName => "computed_property_name"@,
            Tsx::PublicFieldDefinition => "public_field_definition"@,
            Tsx::ImportIdentifier => "_import_identifier"@,
            Tsx::NonNullExpression => "non_null_expression"@,
            Tsx::MethodSignature => "method_signature"@,
            Tsx::AbstractMethodSignature => "abstract_method_signature"@,
            Tsx::FunctionSignature => "function_signature"@,
            Tsx::ParenthesizedExpression2 => "parenthesized_expression"@,
            Tsx::AsExpression => "as_expression"@,
            Tsx::SatisfiesExpression => "satisfies_expression"@,
            Tsx::InstantiationExpression => "instantiation_expression"@,
            Tsx::ImportRequireClause => "import_require_clause"@,
            Tsx::ExtendsClause => "extends_clause"@,
            Tsx::ExtendsClauseSingle => "_extends_clause_single"@,
            Tsx::ImplementsClause => "implements_clause"@,
            Tsx::AmbientDeclaration => "ambient_declaration"@,
            Tsx::AbstractClassDeclaration => "abstract_class_declaration"@,
            Tsx::Module => "module"@,
            Tsx::InternalModule => "internal_module"@,
            Tsx::Module3 => "_module"@,
            Tsx::ImportAlias => "import_alias"@,
            Tsx::NestedTypeIdentifier => "nested_type_identifier"@,
            Tsx::InterfaceDeclaration => "interface_declaration"@,
            Tsx::ExtendsTypeClause => "extends_type_clause"@,
            Tsx::EnumDeclaration => "enum_declaration"@,
            Tsx::EnumBody => "enum_body"@,
            Tsx::EnumAssignment => "enum_assignment"@,
            Tsx::TypeAliasDeclaration => "type_alias_declaration"@,
            Tsx::AccessibilityModifier => "accessibility_modifier"@,
            Tsx::OverrideModifier => "override_modifier"@,
            Tsx::RequiredParameter => "required_parameter"@,
            Tsx::OptionalParameter => "optional_parameter"@,
            Tsx::ParameterName => "_parameter_name"@,
            Tsx::OmittingTypeAnnotation => "omitting_type_annotation"@,
            Tsx::AddingTypeAnnotation => "adding_type_annotation"@,
            Tsx::OptingTypeAnnotation => "opting_type_annotation"@,
            Tsx::TypeAnnotation => "type_annotation"@,
            Tsx::MemberExpression3 => "member_expression"@,
            Tsx::CallExpression3 => "call_expression"@,
            Tsx::Asserts => "asserts"@,
            Tsx::AssertsAnnotation => "asserts_annotation"@,
            Tsx::Type2 => "type"@,
            Tsx::RequiredParameter2 => "required_parameter"@,
            Tsx::OptionalParameter2 => "optional_parameter"@,
            Tsx::OptionalType => "optional_type"@,
            Tsx::RestType => "rest_type"@,
            Tsx::TupleTypeMember => "_tuple_type_member"@,
            Tsx::ConstructorType => "constructor_type"@,
            Tsx::PrimaryType => "primary_type"@,
            Tsx::TemplateType => "template_type"@,
            Tsx::TemplateLiteralType => "template_literal_type"@,
            Tsx::InferType => "infer_type"@,
            Tsx::ConditionalType => "conditional_type"@,
            Tsx::GenericType => "generic_type"@,
            Tsx::TypePredicate => "type_predicate"@,
            Tsx::TypePredicateAnnotation => "type_predicate_annotation"@,
            Tsx::MemberExpression4 => "member_expression"@,
            Tsx::SubscriptExpression2 => "subscript_expression"@,
            Tsx::CallExpression4 => "call_expression"@,
            Tsx::InstantiationExpression2 => "instantiation_expression"@,
            Tsx::TypeQuery => "type_query"@,
            Tsx::IndexTypeQuery => "index_type_query"@,
            Tsx::LookupType => "lookup_type"@,
            Tsx::MappedTypeClause => "mapped_type_clause"@,
            Tsx::LiteralType => "literal_type"@,
            Tsx::UnaryExpression2 => "unary_expression"@,
            Tsx::ExistentialType => "existential_type"@,
            Tsx::FlowMaybeType => "flow_maybe_type"@,
            Tsx::ParenthesizedType => "parenthesized_type"@,
            Tsx::PredefinedType => "predefined_type"@,
            Tsx::TypeArguments => "type_arguments"@,
            Tsx::ObjectType => "object_type"@,
            Tsx::CallSignature => "call_signature"@,
            Tsx::PropertySignature => "property_signature"@,
            Tsx::TypeParameters => "type_parameters"@,
            Tsx::TypeParameter => "type_parameter"@,
            Tsx::DefaultType => "default_type"@,
            Tsx::Constraint => "constraint"@,
            Tsx::ConstructSignature => "construct_signature"@,
            Tsx::IndexSignature => "index_signature"@,
            Tsx::ArrayType => "array_type"@,
            Tsx::TupleType => "tuple_type"@,
            Tsx::ReadonlyType => "readonly_type"@,
            Tsx::UnionType => "union_type"@,
            Tsx::IntersectionType => "intersection_type"@,
            Tsx::FunctionType => "function_type"@,
            Tsx::ProgramRepeat1 => "program_repeat1"@,
            Tsx::ExportStatementRepeat1 => "export_statement_repeat1"@,
            Tsx::ExportClauseRepeat1 => "export_clause_repeat1"@,
            Tsx::NamedImportsRepeat1 => "named_imports_repeat1"@,
            Tsx::VariableDeclarationRepeat1 => "variable_declaration_repeat1"@,
            Tsx::SwitchBodyRepeat1 => "switch_body_repeat1"@,
            Tsx::ObjectRepeat1 => "object_repeat1"@,
            Tsx::ObjectPatternRepeat1 => "object_pattern_repeat1"@,
            Tsx::ArrayRepeat1 => "array_repeat1"@,
            Tsx::ArrayPatternRepeat1 => "array_pattern_repeat1"@,
            Tsx::JsxElementRepeat1 => "jsx_element_repeat1"@,
            Tsx::JsxStringRepeat1 => "_jsx_string_repeat1"@,
            Tsx::JsxStringRepeat2 => "_jsx_string_repeat2"@,
            Tsx::SequenceExpressionRepeat1 => "sequence_expression_repeat1"@,
            Tsx::StringRepeat1 => "string_repeat1"@,
            Tsx::StringRepeat2 => "string_repeat2"@,
            Tsx::TemplateStringRepeat1 => "template_string_repeat1"@,
            Tsx::ClassBodyRepeat1 => "class_body_repeat1"@,
            Tsx::FormalParametersRepeat1 => "formal_parameters_repeat1"@,
            Tsx::JsxStartOpeningElementRepeat1 => "_jsx_start_opening_element_repeat1"@,
            Tsx::ExtendsClauseRepeat1 => "extends_clause_repeat1"@,
            Tsx::ImplementsClauseRepeat1 => "implements_clause_repeat1"@,
            Tsx::ExtendsTypeClauseRepeat1 => "extends_type_clause_repeat1"@,
            Tsx::EnumBodyRepeat1 => "enum_body_repeat1"@,
            Tsx::TemplateLiteralTypeRepeat1 => "template_literal_type_repeat1"@,
            Tsx::ObjectTypeRepeat1 => "object_type_repeat1"@,
            Tsx::TypeParametersRepeat1 => "type_parameters_repeat1"@,
            Tsx::TupleTypeRepeat1 => "tuple_type_repeat1"@,
            Tsx::InterfaceBody => "interface_body"@,
            Tsx::PropertyIdentifier => "property_identifier"@,
            Tsx::ShorthandPropertyIdentifier => "shorthand_property_identifier"@,
            Tsx::ShorthandPropertyIdentifierPattern => "shorthand_property_identifier_pattern"@,
            Tsx::StatementIdentifier => "statement_identifier"@,
            Tsx::ThisType => "this_type"@,
            Tsx::TypeIdentifier => "type_identifier"@,
            Tsx::Error => "ERROR"@,
        }
    }

    /// Maps a numeric kind id to its kind; an id outside the table maps to `Error`.
    pub fn from_u16(x: u16) -> (r: Tsx)
        ensures
            r == Tsx::spec_from_id(x),
            x > 400 ==> r == Tsx::Error,
    {
        match x {
            0 => Tsx::End,
            1 => Tsx::Identifier,
            2 => Tsx::HashBangLine,
            3 => Tsx::Export,
            4 => Tsx::STAR,
            5 => Tsx::Default,
            6 => Tsx::Type,
            7 => Tsx::EQ,
            8 => Tsx::As,
            9 => Tsx::Namespace,
            10 => Tsx::LBRACE,
            11 => Tsx::COMMA,
            12 => Tsx::RBRACE,
            13 => Tsx::Typeof,
            14 => Tsx::Import2,
            15 => Tsx::From,
            16 => Tsx::With,
            17 => Tsx::Assert,
            18 => Tsx::Var,
            19 => Tsx::Let,
            20 => Tsx::Const,
            21 => Tsx::BANG,
            22 => Tsx::Else,
            23 => Tsx::If,
            24 => Tsx::Switch,
            25 => Tsx::For,
            26 => Tsx::LPAREN,
            27 => Tsx::SEMI,
            28 => Tsx::RPAREN,
            29 => Tsx::Await,
            30 => Tsx::In,
            31 => Tsx::Of,
            32 => Tsx::While,
            33 => Tsx::Do,
            34 => Tsx::Try,
            35 => Tsx::Break,
            36 => Tsx::Continue,
            37 => Tsx::Debugger,
            38 => Tsx::Return,
            39 => Tsx::Throw,
            40 => Tsx::COLON,
            41 => Tsx::Case,
            42 => Tsx::Catch,
            43 => Tsx::Finally,
            44 => Tsx::Yield,
            45 => Tsx::LBRACK,
            46 => Tsx::RBRACK,
            47 => Tsx::HtmlCharacterReference,
            48 => Tsx::GT,
            49 => Tsx::Identifier2,
            50 => Tsx::DOT,
            51 => Tsx::LTSLASH,
            52 => Tsx::SLASHGT,
            53 => Tsx::DQUOTE,
            54 => Tsx::SQUOTE,
            55 => Tsx::StringFragment,
            56 => Tsx::StringFragment2,
            57 => Tsx::Class2,
            58 => Tsx::Async,
            59 => Tsx::Function,
            60 => Tsx::EQGT,
            61 => Tsx::QMARKDOT,
            62 => Tsx::New,
            63 => Tsx::Using,
            64 => Tsx::PLUSEQ,
            65 => Tsx::DASHEQ,
            66 => Tsx::STAREQ,
            67 => Tsx::SLASHEQ,
            68 => Tsx::PERCENTEQ,
            69 => Tsx::CARETEQ,
            70 => Tsx::AMPEQ,
            71 => Tsx::PIPEEQ,
            72 => Tsx::GTGTEQ,
            73 => Tsx::GTGTGTEQ,
            74 => Tsx::LTLTEQ,
            75 => Tsx::STARSTAREQ,
            76 => Tsx::AMPAMPEQ,
            77 => Tsx::PIPEPIPEEQ,
            78 => Tsx::QMARKQMARKEQ,
            79 => Tsx::DOTDOTDOT,
            80 => Tsx::AMPAMP,
            81 => Tsx::PIPEPIPE,
            82 => Tsx::GTGT,
            83 => Tsx::GTGTGT,
            84 => Tsx::LTLT,
            85 => Tsx::AMP,
            86 => Tsx::CARET,
            87 => Tsx::PIPE,
            88 => Tsx::PLUS,
            89 => Tsx::DASH,
            90 => Tsx::SLASH,
            91 => Tsx::PERCENT,
            92 => Tsx::STARSTAR,
            93 => Tsx::LT,
            94 => Tsx::LTEQ,
            95 => Tsx::EQEQ,
            96 => Tsx::EQEQEQ,
            97 => Tsx::BANGEQ,
            98 => Tsx::BANGEQEQ,
            99 => Tsx::GTEQ,
            100 => Tsx::QMARKQMARK,
            101 => Tsx::Instanceof,
            102 => Tsx::TILDE,
            103 => Tsx::Void,
            104 => Tsx::Delete,
            105 => Tsx::PLUSPLUS,
            106 => Tsx::DASHDASH,
            107 => Tsx::StringFragment3,
            108 => Tsx::StringFragment4,
            109 => Tsx::EscapeSequence,
            110 => Tsx::Comment,
            111 => Tsx::BQUOTE,
            112 => Tsx::DOLLARLBRACE,
            113 => Tsx::SLASH2,
            114 => Tsx::RegexPattern,
            115 => Tsx::RegexFlags,
            116 => Tsx::Number,
            117 => Tsx::PrivatePropertyIdentifier,
            118 => Tsx::Target,
            119 => Tsx::Meta,
            120 => Tsx::This,
            121 => Tsx::Super,
            122 => Tsx::True,
            123 => Tsx::False,
            124 => Tsx::Null,
            125 => Tsx::Undefined,
            126 => Tsx::AT,
            127 => Tsx::Static,
            128 => Tsx::Readonly,
            129 => Tsx::Get,
            130 => Tsx::SetLiteral,
            131 => Tsx::QMARK,
            132 => Tsx::Declare,
            133 => Tsx::Public,
            134 => Tsx::Private,
            135 => Tsx::Protected,
            136 => Tsx::Override,
            137 => Tsx::Module2,
            138 => Tsx::Any,
            139 => Tsx::Number2,
            140 => Tsx::Boolean,
            141 => Tsx::String3,
            142 => Tsx::Symbol,
            143 => Tsx::Object2,
            144 => Tsx::Abstract,
            145 => Tsx::Accessor,
            146 => Tsx::Satisfies,
            147 => Tsx::Require,
            148 => Tsx::Extends,
            149 => Tsx::Implements,
            150 => Tsx::Global,
            151 => Tsx::Interface,
            152 => Tsx::Enum,
            153 => Tsx::DASHQMARKCOLON,
            154 => Tsx::PLUSQMARKCOLON,
            155 => Tsx::QMARKCOLON,
            156 => Tsx::Asserts2,
            157 => Tsx::Infer,
            158 => Tsx::Is,
            159 => Tsx::Keyof,
            160 => Tsx::UniqueSymbol,
            161 => Tsx::Unknown,
            162 => Tsx::Never,
            163 => Tsx::LBRACEPIPE,
            164 => Tsx::PIPERBRACE,
            165 => Tsx::AutomaticSemicolon,
            166 => Tsx::StringFragment5,
            167 => Tsx::QMARK2,
            168 => Tsx::HtmlComment,
            169 => Tsx::JsxText,
            170 => Tsx::FunctionSignatureAutomaticSemicolon,
            171 => Tsx::ErrorRecovery,
            172 => Tsx::Program,
            173 => Tsx::ExportStatement,
            174 => Tsx::NamespaceExport,
            175 => Tsx::ExportClause,
            176 => Tsx::ExportSpecifier,
            177 => Tsx::ModuleExportName,
            178 => Tsx::Declaration,
            179 => Tsx::Import,
            180 => Tsx::ImportStatement,
            181 => Tsx::ImportClause,
            182 => Tsx::FromClause,
            183 => Tsx::NamespaceImport,
            184 => Tsx::NamedImports,
            185 => Tsx::ImportSpecifier,
            186 => Tsx::ImportAttribute,
            187 => Tsx::Statement,
            188 => Tsx::ExpressionStatement,
            189 => Tsx::VariableDeclaration,
            190 => Tsx::LexicalDeclaration,
            191 => Tsx::VariableDeclarator,
            192 => Tsx::StatementBlock,
            193 => Tsx::ElseClause,
            194 => Tsx::IfStatement,
            195 => Tsx::SwitchStatement,
            196 => Tsx::ForStatement,
            197 => Tsx::ForInStatement,
            198 => Tsx::ForHeader,
            199 => Tsx::WhileStatement,
            200 => Tsx::DoStatement,
            201 => Tsx::TryStatement,
            202 => Tsx::WithStatement,
            203 => Tsx::BreakStatement,
            204 => Tsx::ContinueStatement,
            205 => Tsx::DebuggerStatement,
            206 => Tsx::ReturnStatement,
            207 => Tsx::ThrowStatement,
            208 => Tsx::EmptyStatement,
            209 => Tsx::LabeledStatement,
            210 => Tsx::SwitchBody,
            211 => Tsx::SwitchCase,
            212 => Tsx::SwitchDefault,
            213 => Tsx::CatchClause,
            214 => Tsx::FinallyClause,
            215 => Tsx::ParenthesizedExpression,
            216 => Tsx::Expression,
            217 => Tsx::PrimaryExpression,
            218 => Tsx::YieldExpression,
            219 => Tsx::Object,
            220 => Tsx::ObjectPattern,
            221 => Tsx::AssignmentPattern,
            222 => Tsx::ObjectAssignmentPattern,
            223 => Tsx::Array,
            224 => Tsx::ArrayPattern,
            225 => Tsx::JsxElement,
            226 => Tsx::JsxExpression,
            227 => Tsx::JsxOpeningElement,
            228 => Tsx::NestedIdentifier,
            229 => Tsx::JsxNamespaceName,
            230 => Tsx::JsxClosingElement,
            231 => Tsx::JsxSelfClosingElement,
            232 => Tsx::JsxAttribute,
            233 => Tsx::String,
            234 => Tsx::Class,
            235 => Tsx::ClassDeclaration,
            236 => Tsx::ClassHeritage,
            237 => Tsx::FunctionExpression,
            238 => Tsx::FunctionDeclaration,
            239 => Tsx::GeneratorFunction,
            240 => Tsx::GeneratorFunctionDeclaration,
            241 => Tsx::ArrowFunction,
            242 => Tsx::CallSignature2,
            243 => Tsx::FormalParameter,
            244 => Tsx::OptionalChain,
            245 => Tsx::CallExpression,
            246 => Tsx::NewExpression,
            247 => Tsx::AwaitExpression,
            248 => Tsx::MemberExpression,
            249 => Tsx::SubscriptExpression,
            250 => Tsx::AssignmentExpression,
            251 => Tsx::AugmentedAssignmentLhs,
            252 => Tsx::AugmentedAssignmentExpression,
            253 => Tsx::Initializer,
            254 => Tsx::DestructuringPattern,
            255 => Tsx::SpreadElement,
            256 => Tsx::TernaryExpression,
            257 => Tsx::BinaryExpression,
            258 => Tsx::UnaryExpression,
            259 => Tsx::UpdateExpression,
            260 => Tsx::SequenceExpression,
            261 => Tsx::String2,
            262 => Tsx::TemplateString,
            263 => Tsx::TemplateSubstitution,
            264 => Tsx::Regex,
            265 => Tsx::MetaProperty,
            266 => Tsx::Arguments,
            267 => Tsx::Decorator,
            268 => Tsx::MemberExpression2,
            269 => Tsx::CallExpression2,
            270 => Tsx::ClassBody,
            271 => Tsx::FormalParameters,
            272 => Tsx::ClassStaticBlock,
            273 => Tsx::Pattern,
            274 => Tsx::RestPattern,
            275 => Tsx::MethodDefinition,
            276 => Tsx::Pair,
            277 => Tsx::PairPattern,
            278 => Tsx::PropertyName,
            279 => Tsx::ComputedPropertyName,
            280 => Tsx::PublicFieldDefinition,
            281 => Tsx::ImportIdentifier,
            282 => Tsx::NonNullExpression,
            283 => Tsx::MethodSignature,
            284 => Tsx::AbstractMethodSignature,
            285 => Tsx::FunctionSignature,
            286 => Tsx::ParenthesizedExpression2,
            287 => Tsx::AsExpression,
            288 => Tsx::SatisfiesExpression,
            289 => Tsx::InstantiationExpression,
            290 => Tsx::ImportRequireClause,
            291 => Tsx::ExtendsClause,
            292 => Tsx::ExtendsClauseSingle,
            293 => Tsx::ImplementsClause,
            294 => Tsx::AmbientDeclaration,
            295 => Tsx::AbstractClassDeclaration,
            296 => Tsx::Module,
            297 => Tsx::InternalModule,
            298 => Tsx::Module3,
            299 => Tsx::ImportAlias,
            300 => Tsx::NestedTypeIdentifier,
            301 => Tsx::InterfaceDeclaration,
            302 => Tsx::ExtendsTypeClause,
            303 => Tsx::EnumDeclaration,
            304 => Tsx::EnumBody,
            305 => Tsx::EnumAssignment,
            306 => Tsx::TypeAliasDeclaration,
            307 => Tsx::AccessibilityModifier,
            308 => Tsx::OverrideModifier,
            309 => Tsx::RequiredParameter,
            310 => Tsx::OptionalParameter,
            311 => Tsx::ParameterName,
            312 => Tsx::OmittingTypeAnnotation,
            313 => Tsx::AddingTypeAnnotation,
            314 => Tsx::OptingTypeAnnotation,
            315 => Tsx::TypeAnnotation,
            316 => Tsx::MemberExpression3,
            317 => Tsx::CallExpression3,
            318 => Tsx::Asserts,
            319 => Tsx::AssertsAnnotation,
            320 => Tsx::Type2,
            321 => Tsx::RequiredParameter2,
            322 => Tsx::OptionalParameter2,
            323 => Tsx::OptionalType,
            324 => Tsx::RestType,
            325 => Tsx::TupleTypeMember,
            326 => Tsx::ConstructorType,
            327 => Tsx::PrimaryType,
            328 => Tsx::TemplateType,
            329 => Tsx::TemplateLiteralType,
            330 => Tsx::InferType,
            331 => Tsx::ConditionalType,
            332 => Tsx::GenericType,
            333 => Tsx::TypePredicate,
            334 => Tsx::TypePredicateAnnotation,
            335 => Tsx::MemberExpression4,
            336 => Tsx::SubscriptExpression2,
            337 => Tsx::CallExpression4,
            338 => Tsx::InstantiationExpression2,
            339 => Tsx::TypeQuery,
            340 => Tsx::IndexTypeQuery,
            341 => Tsx::LookupType,
            342 => Tsx::MappedTypeClause,
            343 => Tsx::LiteralType,
            344 => Tsx::UnaryExpression2,
            345 => Tsx::ExistentialType,
            346 => Tsx::FlowMaybeType,
            347 => Tsx::ParenthesizedType,
            348 => Tsx::PredefinedType,
            349 => Tsx::TypeArguments,
            350 => Tsx::ObjectType,
            351 => Tsx::CallSignature,
            352 => Tsx::PropertySignature,
            353 => Tsx::TypeParameters,
            354 => Tsx::TypeParameter,
            355 => Tsx::DefaultType,
            356 => Tsx::Constraint,
            357 => Tsx::ConstructSignature,
            358 => Tsx::IndexSignature,
            359 => Tsx::ArrayType,
            360 => Tsx::TupleType,
            361 => Tsx::ReadonlyType,
            362 => Tsx::UnionType,
            363 => Tsx::IntersectionType,
            364 => Tsx::FunctionType,
            365 => Tsx::ProgramRepeat1,
            366 => Tsx::ExportStatementRepeat1,
            367 => Tsx::ExportClauseRepeat1,
            368 => Tsx::NamedImportsRepeat1,
            369 => Tsx::VariableDeclarationRepeat1,
            370 => Tsx::SwitchBodyRepeat1,
            371 => Tsx::ObjectRepeat1,
            372 => Tsx::ObjectPatternRepeat1,
            373 => Tsx::ArrayRepeat1,
            374 => Tsx::ArrayPatternRepeat1,
            375 => Tsx::JsxElementRepeat1,
            376 => Tsx::JsxStringRepeat1,
            377 => Tsx::JsxStringRepeat2,
            378 => Tsx::SequenceExpressionRepeat1,
            379 => Tsx::StringRepeat1,
            380 => Tsx::StringRepeat2,
            381 => Tsx::TemplateStringRepeat1,
            382 => Tsx::ClassBodyRepeat1,
            383 => Tsx::FormalParametersRepeat1,
            384 => Tsx::JsxStartOpeningElementRepeat1,
            385 => Tsx::ExtendsClauseRepeat1,
            386 => Tsx::ImplementsClauseRepeat1,
            387 => Tsx::ExtendsTypeClauseRepeat1,
            388 => Tsx::EnumBodyRepeat1,
            389 => Tsx::TemplateLiteralTypeRepeat1,
            390 => Tsx::ObjectTypeRepeat1,
            391 => Tsx::TypeParametersRepeat1,
            392 => Tsx::TupleTypeRepeat1,
            393 => Tsx::InterfaceBody,
            394 => Tsx::PropertyIdentifier,
            395 => Tsx::ShorthandPropertyIdentifier,
            396 => Tsx::ShorthandPropertyIdentifierPattern,
            397 => Tsx::StatementIdentifier,
            398 => Tsx::ThisType,
            399 => Tsx::TypeIdentifier,
            _ => Tsx::Error,
        }
    }

    /// The display string of this kind.
    pub fn as_str(&self) -> (r: &'static str)
        ensures
            r@ == self.text(),
    {
        match self {
            Tsx::End => "end",
            Tsx::Identifier => "identifier",
            Tsx::HashBangLine => "hash_bang_line",
            Tsx::Export => "export",
            Tsx::STAR => "*",
            Tsx::Default => "default",
            Tsx::Type => "type",
            Tsx::EQ => "=",
            Tsx::As => "as",
            Tsx::Namespace => "namespace",
            Tsx::LBRACE => "{",
            Tsx::COMMA => ",",
            Tsx::RBRACE => "}",
            Tsx::Typeof => "typeof",
            Tsx::Import2 => "import",
            Tsx::From => "from",
            Tsx::With => "with",
            Tsx::Assert => "assert",
            Tsx::Var => "var",
            Tsx::Let => "let",
            Tsx::Const => "const",
            Tsx::BANG => "!",
            Tsx::Else => "else",
            Tsx::If => "if",
            Tsx::Switch => "switch",
            Tsx::For => "for",
            Tsx::LPAREN => "(",
            Tsx::SEMI => ";",
            Tsx::RPAREN => ")",
            Tsx::Await => "await",
            Tsx::In => "in",
            Tsx::Of => "of",
            Tsx::While => "while",
            Tsx::Do => "do",
            Tsx::Try => "try",
            Tsx::Break => "break",
            Tsx::Continue => "continue",
            Tsx::Debugger => "debugger",
            Tsx::Return => "return",
            Tsx::Throw => "throw",
            Tsx::COLON => ":",
            Tsx::Case => "case",
            Tsx::Catch => "catch",
            Tsx::Finally => "finally",
            Tsx::Yield => "yield",
            Tsx::LBRACK => "[",
            Tsx::RBRACK => "]",
            Tsx::HtmlCharacterReference => "html_character_reference",
            Tsx::GT => ">",
            Tsx::Identifier2 => "identifier",
            Tsx::DOT => ".",
            Tsx::LTSLASH => "</",
            Tsx::SLASHGT => "/>",
            Tsx::DQUOTE => "\"",
            Tsx::SQUOTE => "'",
            Tsx::StringFragment => "string_fragment",
            Tsx::StringFragment2 => "string_fragment",
            Tsx::Class2 => "class",
            Tsx::Async => "async",
            Tsx::Function => "function",
            Tsx::EQGT => "=>",
            Tsx::QMARKDOT => "?.",
            Tsx::New => "new",
            Tsx::Using => "using",
            Tsx::PLUSEQ => "+=",
            Tsx::DASHEQ => "-=",
            Tsx::STAREQ => "*=",
            Tsx::SLASHEQ => "/=",
            Tsx::PERCENTEQ => "%=",
            Tsx::CARETEQ => "^=",
            Tsx::AMPEQ => "&=",
            Tsx::PIPEEQ => "|=",
            Tsx::GTGTEQ => ">>=",
            Tsx::GTGTGTEQ => ">>>=",
            Tsx::LTLTEQ => "<<=",
            Tsx::STARSTAREQ => "**=",
            Tsx::AMPAMPEQ => "&&=",
            Tsx::PIPEPIPEEQ => "||=",
            Tsx::QMARKQMARKEQ => "??=",
            Tsx::DOTDOTDOT => "...",
            Tsx::AMPAMP => "&&",
            Tsx::PIPEPIPE => "||",
            Tsx::GTGT => ">>",
            Tsx::GTGTGT => ">>>",
            Tsx::LTLT => "<<",
            Tsx::AMP => "&",
            Tsx::CARET => "^",
            Tsx::PIPE => "|",
            Tsx::PLUS => "+",
            Tsx::DASH => "-",
            Tsx::SLASH => "/",
            Tsx::PERCENT => "%",
            Tsx::STARSTAR => "**",
            Tsx::LT => "<",
            Tsx::LTEQ => "<=",
            Tsx::EQEQ => "==",
            Tsx::EQEQEQ => "===",
            Tsx::BANGEQ => "!=",
            Tsx::BANGEQEQ => "!==",
            Tsx::GTEQ => ">=",
            Tsx::QMARKQMARK => "??",
            Tsx::Instanceof => "instanceof",
            Tsx::TILDE => "~",
            Tsx::Void => "void",
            Tsx::Delete => "delete",
            Tsx::PLUSPLUS => "++",
            Tsx::DASHDASH => "--",
            Tsx::StringFragment3 => "string_fragment",
            Tsx::StringFragment4 => "string_fragment",
            Tsx::EscapeSequence => "escape_sequence",
            Tsx::Comment => "comment",
            Tsx::BQUOTE => "`",
            Tsx::DOLLARLBRACE => "${",
            Tsx::SLASH2 => "/",
            Tsx::RegexPattern => "regex_pattern",
            Tsx::RegexFlags => "regex_flags",
            Tsx::Number => "number",
            Tsx::PrivatePropertyIdentifier => "private_property_identifier",
            Tsx::Target => "target",
            Tsx::Meta => "meta",
            Tsx::This => "this",
            Tsx::Super => "super",
            Tsx::True => "true",
            Tsx::False => "false",
            Tsx::Null => "null",
            Tsx::Undefined => "undefined",
            Tsx::AT => "@",
            Tsx::Static => "static",
            Tsx::Readonly => "readonly",
            Tsx::Get => "get",
            Tsx::SetLiteral => "set",
            Tsx::QMARK => "?",
            Tsx::Declare => "declare",
            Tsx::Public => "public",
            Tsx::Private => "private",
            Tsx::Protected => "protected",
            Tsx::Override => "override",
            Tsx::Module2 => "module",
            Tsx::Any => "any",
            Tsx::Number2 => "number",
            Tsx::Boolean => "boolean",
            Tsx::String3 => "string",
            Tsx::Symbol => "symbol",
            Tsx::Object2 => "object",
            Tsx::Abstract => "abstract",
            Tsx::Accessor => "accessor",
            Tsx::Satisfies => "satisfies",
            Tsx::Require => "require",
            Tsx::Extends => "extends",
            Tsx::Implements => "implements",
            Tsx::Global => "global",
            Tsx::Interface => "interface",
            Tsx::Enum => "enum",
            Tsx::DASHQMARKCOLON => "-?:",
            Tsx::PLUSQMARKCOLON => "+?:",
            Tsx::QMARKCOLON => "?:",
            Tsx::Asserts2 => "asserts",
            Tsx::Infer => "infer",
            Tsx::Is => "is",
            Tsx::Keyof => "keyof",
            Tsx::UniqueSymbol => "unique symbol",
            Tsx::Unknown => "unknown",
            Tsx::Never => "never",
            Tsx::LBRACEPIPE => "{|",
            Tsx::PIPERBRACE => "|}",
            Tsx::AutomaticSemicolon => "_automatic_semicolon",
            Tsx::StringFragment5 => "string_fragment",
            Tsx::QMARK2 => "?",
            Tsx::HtmlComment => "html_comment",
            Tsx::JsxText => "jsx_text",
            Tsx::FunctionSignatureAutomaticSemicolon => "_function_signature_automatic_semicolon",
            Tsx::ErrorRecovery => "__error_recovery",
            Tsx::Program => "program",
            Tsx::ExportStatement => "export_statement",
            Tsx::NamespaceExport => "namespace_export",
            Tsx::ExportClause => "export_clause",
            Tsx::ExportSpecifier => "export_specifier",
            Tsx::ModuleExportName => "_module_export_name",
            Tsx::Declaration => "declaration",
            Tsx::Import => "import",
            Tsx::ImportStatement => "import_statement",
            Tsx::ImportClause => "import_clause",
            Tsx::FromClause => "_from_clause",
            Tsx::NamespaceImport => "namespace_import",
            Tsx::NamedImports => "named_imports",
            Tsx::ImportSpecifier => "import_specifier",
            Tsx::ImportAttribute => "import_attribute",
            Tsx::Statement => "statement",
            Tsx::ExpressionStatement => "expression_statement",
            Tsx::VariableDeclaration => "variable_declaration",
            Tsx::LexicalDeclaration => "lexical_declaration",
            Tsx::VariableDeclarator => "variable_declarator",
            Tsx::StatementBlock => "statement_block",
            Tsx::ElseClause => "else_clause",
            Tsx::IfStatement => "if_statement",
            Tsx::SwitchStatement => "switch_statement",
            Tsx::ForStatement => "for_statement",
            Tsx::ForInStatement => "for_in_statement",
            Tsx::ForHeader => "_for_header",
            Tsx::WhileStatement => "while_statement",
            Tsx::DoStatement => "do_statement",
            Tsx::TryStatement => "try_statement",
            Tsx::WithStatement => "with_statement",
            Tsx::BreakStatement => "break_statement",
            Tsx::ContinueStatement => "continue_statement",
            Tsx::DebuggerStatement => "debugger_statement",
            Tsx::ReturnStatement => "return_statement",
            Tsx::ThrowStatement => "throw_statement",
            Tsx::EmptyStatement => "empty_statement",
            Tsx::LabeledStatement => "labeled_statement",
            Tsx::SwitchBody => "switch_body",
            Tsx::SwitchCase => "switch_case",
            Tsx::SwitchDefault => "switch_default",
            Tsx::CatchClause => "catch_clause",
            Tsx::FinallyClause => "finally_clause",
            Tsx::ParenthesizedExpression => "parenthesized_expression",
            Tsx::Expression => "expression",
            Tsx::PrimaryExpression => "primary_expression",
            Tsx::YieldExpression => "yield_expression",
            Tsx::Object => "object",
            Tsx::ObjectPattern => "object_pattern",
            Tsx::AssignmentPattern => "assignment_pattern",
            Tsx::ObjectAssignmentPattern => "object_assignment_pattern",
            Tsx::Array => "array",
            Tsx::ArrayPattern => "array_pattern",
            Tsx::JsxElement => "jsx_element",
            Tsx::JsxExpression => "jsx_expression",
            Tsx::JsxOpeningElement => "jsx_opening_element",
            Tsx::NestedIdentifier => "nested_identifier",
            Tsx::JsxNamespaceName => "jsx_namespace_name",
            Tsx::JsxClosingElement => "jsx_closing_element",
            Tsx::JsxSelfClosingElement => "jsx_self_closing_element",
            Tsx::JsxAttribute => "jsx_attribute",
            Tsx::String => "string",
            Tsx::Class => "class",
            Tsx::ClassDeclaration => "class_declaration",
            Tsx::ClassHeritage => "class_heritage",
            Tsx::FunctionExpression => "function_expression",
            Tsx::FunctionDeclaration => "function_declaration",
            Tsx::GeneratorFunction => "generator_function",
            Tsx::GeneratorFunctionDeclaration => "generator_function_declaration",
            Tsx::ArrowFunction => "arrow_function",
            Tsx::CallSignature2 => "_call_signature",
            Tsx::FormalParameter => "_formal_parameter",
            Tsx::OptionalChain => "optional_chain",
            Tsx::CallExpression => "call_expression",
            Tsx::NewExpression => "new_expression",
            Tsx::AwaitExpression => "await_expression",
            Tsx::MemberExpression => "member_expression",
            Tsx::SubscriptExpression => "subscript_expression",
            Tsx::AssignmentExpression => "assignment_expression",
            Tsx::AugmentedAssignmentLhs => "_augmented_assignment_lhs",
            Tsx::AugmentedAssignmentExpression => "augmented_assignment_expression",
            Tsx::Initializer => "_initializer",
            Tsx::DestructuringPattern => "_destructuring_pattern",
            Tsx::SpreadElement => "spread_element",
            Tsx::TernaryExpression => "ternary_expression",
            Tsx::BinaryExpression => "binary_expression",
            Tsx::UnaryExpression => "unary_expression",
            Tsx::UpdateExpression => "update_expression",
            Tsx::SequenceExpression => "sequence_expression",
            Tsx::String2 => "string",
            Tsx::TemplateString => "template_string",
            Tsx::TemplateSubstitution => "template_substitution",
            Tsx::Regex => "regex",
            Tsx::MetaProperty => "meta_property",
            Tsx::Arguments => "arguments",
            Tsx::Decorator => "decorator",
            Tsx::MemberExpression2 => "member_expression",
            Tsx::CallExpression2 => "call_expression",
            Tsx::ClassBody => "class_body",
            Tsx::FormalParameters => "formal_parameters",
            Tsx::ClassStaticBlock => "class_static_block",
            Tsx::Pattern => "pattern",
            Tsx::RestPattern => "rest_pattern",
            Tsx::MethodDefinition => "method_definition",
            Tsx::Pair => "pair",
            Tsx::PairPattern => "pair_pattern",
            Tsx::PropertyName => "_property_name",
            Tsx::ComputedPropertyName => "computed_property_name",
            Tsx::PublicFieldDefinition => "public_field_definition",
            Tsx::ImportIdentifier => "_import_identifier",
            Tsx::NonNullExpression => "non_null_expression",
            Tsx::MethodSignature => "method_signature",
            Tsx::AbstractMethodSignature => "abstract_method_signature",
            Tsx::FunctionSignature => "function_signature",
            Tsx::ParenthesizedExpression2 => "parenthesized_expression",
            Tsx::AsExpression => "as_expression",
            Tsx::SatisfiesExpression => "satisfies_expression",
            Tsx::InstantiationExpression => "instantiation_expression",
            Tsx::ImportRequireClause => "import_require_clause",
            Tsx::ExtendsClause => "extends_clause",
            Tsx::ExtendsClauseSingle => "_extends_clause_single",
            Tsx::ImplementsClause => "implements_clause",
            Tsx::AmbientDeclaration => "ambient_declaration",
            Tsx::AbstractClassDeclaration => "abstract_class_declaration",
            Tsx::Module => "module",
            Tsx::InternalModule => "internal_module",
            Tsx::Module3 => "_module",
            Tsx::ImportAlias => "import_alias",
            Tsx::NestedTypeIdentifier => "nested_type_identifier",
            Tsx::InterfaceDeclaration => "interface_declaration",
            Tsx::ExtendsTypeClause => "extends_type_clause",
            Tsx::EnumDeclaration => "enum_declaration",
            Tsx::EnumBody => "enum_body",
            Tsx::EnumAssignment => "enum_assignment",
            Tsx::TypeAliasDeclaration => "type_alias_declaration",
            Tsx::AccessibilityModifier => "accessibility_modifier",
            Tsx::OverrideModifier => "override_modifier",
            Tsx::RequiredParameter => "required_parameter",
            Tsx::OptionalParameter => "optional_parameter",
            Tsx::ParameterName => "_parameter_name",
            Tsx::OmittingTypeAnnotation => "omitting_type_annotation",
            Tsx::AddingTypeAnnotation => "adding_type_annotation",
            Tsx::OptingTypeAnnotation => "opting_type_annotation",
            Tsx::TypeAnnotation => "type_annotation",
            Tsx::MemberExpression3 => "member_expression",
            Tsx::CallExpression3 => "call_expression",
            Tsx::Asserts => "asserts",
            Tsx::AssertsAnnotation => "asserts_annotation",
            Tsx::Type2 => "type",
            Tsx::RequiredParameter2 => "required_parameter",
            Tsx::OptionalParameter2 => "optional_parameter",
            Tsx::OptionalType => "optional_type",
            Tsx::RestType => "rest_type",
            Tsx::TupleTypeMember => "_tuple_type_member",
            Tsx::ConstructorType => "constructor_type",
            Tsx::PrimaryType => "primary_type",
            Tsx::TemplateType => "template_type",
            Tsx::TemplateLiteralType => "template_literal_type",
            Tsx::InferType => "infer_type",
            Tsx::ConditionalType => "conditional_type",
            Tsx::GenericType => "generic_type",
            Tsx::TypePredicate => "type_predicate",
            Tsx::TypePredicateAnnotation => "type_predicate_annotation",
            Tsx::MemberExpression4 => "member_expression",
            Tsx::SubscriptExpression2 => "subscript_expression",
            Tsx::CallExpression4 => "call_expression",
            Tsx::InstantiationExpression2 => "instantiation_expression",
            Tsx::TypeQuery => "type_query",
            Tsx::IndexTypeQuery => "index_type_query",
            Tsx::LookupType => "lookup_type",
            Tsx::MappedTypeClause => "mapped_type_clause",
            Tsx::LiteralType => "literal_type",
            Tsx::UnaryExpression2 => "unary_expression",
            Tsx::ExistentialType => "existential_type",
            Tsx::FlowMaybeType => "flow_maybe_type",
            Tsx::ParenthesizedType => "parenthesized_type",
            Tsx::PredefinedType => "predefined_type",
            Tsx::TypeArguments => "type_arguments",
            Tsx::ObjectType => "object_type",
            Tsx::CallSignature => "call_signature",
            Tsx::PropertySignature => "property_signature",
            Tsx::TypeParameters => "type_parameters",
            Tsx::TypeParameter => "type_parameter",
            Tsx::DefaultType => "default_type",
            Tsx::Constraint => "constraint",
            Tsx::ConstructSignature => "construct_signature",
            Tsx::IndexSignature => "index_signature",
            Tsx::ArrayType => "array_type",
            Tsx::TupleType => "tuple_type",
            Tsx::ReadonlyType => "readonly_type",
            Tsx::UnionType => "union_type",
            Tsx::IntersectionType => "intersection_type",
            Tsx::FunctionType => "function_type",
            Tsx::ProgramRepeat1 => "program_repeat1",
            Tsx::ExportStatementRepeat1 => "export_statement_repeat1",
            Tsx::ExportClauseRepeat1 => "export_clause_repeat1",
            Tsx::NamedImportsRepeat1 => "named_imports_repeat1",
            Tsx::VariableDeclarationRepeat1 => "variable_declaration_repeat1",
            Tsx::SwitchBodyRepeat1 => "switch_body_repeat1",
            Tsx::ObjectRepeat1 => "object_repeat1",
            Tsx::ObjectPatternRepeat1 => "object_pattern_repeat1",
            Tsx::ArrayRepeat1 => "array_repeat1",
            Tsx::ArrayPatternRepeat1 => "array_pattern_repeat1",
            Tsx::JsxElementRepeat1 => "jsx_element_repeat1",
            Tsx::JsxStringRepeat1 => "_jsx_string_repeat1",
            Tsx::JsxStringRepeat2 => "_jsx_string_repeat2",
            Tsx::SequenceExpressionRepeat1 => "sequence_expression_repeat1",
            Tsx::StringRepeat1 => "string_repeat1",
            Tsx::StringRepeat2 => "string_repeat2",
            Tsx::TemplateStringRepeat1 => "template_string_repeat1",
            Tsx::ClassBodyRepeat1 => "class_body_repeat1",
            Tsx::FormalParametersRepeat1 => "formal_parameters_repeat1",
            Tsx::JsxStartOpeningElementRepeat1 => "_jsx_start_opening_element_repeat1",
            Tsx::ExtendsClauseRepeat1 => "extends_clause_repeat1",
            Tsx::ImplementsClauseRepeat1 => "implements_clause_repeat1",
            Tsx::ExtendsTypeClauseRepeat1 => "extends_type_clause_repeat1",
            Tsx::EnumBodyRepeat1 => "enum_body_repeat1",
            Tsx::TemplateLiteralTypeRepeat1 => "template_literal_type_repeat1",
            Tsx::ObjectTypeRepeat1 => "object_type_repeat1",
            Tsx::TypeParametersRepeat1 => "type_parameters_repeat1",
            Tsx::TupleTypeRepeat1 => "tuple_type_repeat1",
            Tsx::InterfaceBody => "interface_body",
            Tsx::PropertyIdentifier => "property_identifier",
            Tsx::ShorthandPropertyIdentifier => "shorthand_property_identifier",
            Tsx::ShorthandPropertyIdentifierPattern => "shorthand_property_identifier_pattern",
            Tsx::StatementIdentifier => "statement_identifier",
            Tsx::ThisType => "this_type",
            Tsx::TypeIdentifier => "type_identifier",
            Tsx::Error => "ERROR",
        }
    }
}

impl From<u16> for Tsx {
    fn from(x: u16) -> (r: Tsx)
        ensures
            r == Tsx::spec_from_id(x),
    {
        Tsx::from_u16(x)
    }
}

impl vstd::std_specs::convert::FromSpecImpl<u16> for Tsx {
    open spec fn obeys_from_spec() -> bool {
        true
    }

    open spec fn from_spec(x: u16) -> Tsx {
        Tsx::spec_from_id(x)
    }
}

/// A kind id read back from its kind gives that kind again.
pub proof fn lemma_id_round_trip(k: Tsx)
    ensures
        Tsx::spec_from_id(k.id()) == k,
{
}

/// TSX kinds counted as Halstead operators.
pub open spec fn tsx_operator(k: Tsx) -> bool {
    match k {
        Tsx::Export | Tsx::Import | Tsx::Import2 | Tsx::Extends | Tsx::DOT | Tsx::From
        | Tsx::LPAREN | Tsx::COMMA | Tsx::As | Tsx::STAR | Tsx::GTGT | Tsx::GTGTGT | Tsx::COLON
        | Tsx::Return | Tsx::Delete | Tsx::Throw | Tsx::Break | Tsx::Continue | Tsx::If
        | Tsx::Else | Tsx::Switch | Tsx::Case | Tsx::Default | Tsx::Async | Tsx::For | Tsx::In
        | Tsx::Of | Tsx::While | Tsx::Try | Tsx::Catch | Tsx::Finally | Tsx::With | Tsx::EQ
        | Tsx::AT | Tsx::AMPAMP | Tsx::PIPEPIPE | Tsx::PLUS | Tsx::DASH | Tsx::DASHDASH
        | Tsx::PLUSPLUS | Tsx::SLASH | Tsx::PERCENT | Tsx::STARSTAR | Tsx::PIPE | Tsx::AMP
        | Tsx::LTLT | Tsx::TILDE | Tsx::LT | Tsx::LTEQ | Tsx::EQEQ | Tsx::BANGEQ | Tsx::GTEQ
        | Tsx::GT | Tsx::PLUSEQ | Tsx::BANG | Tsx::BANGEQEQ | Tsx::EQEQEQ | Tsx::DASHEQ
        | Tsx::STAREQ | Tsx::SLASHEQ | Tsx::PERCENTEQ | Tsx::STARSTAREQ | Tsx::GTGTEQ
        | Tsx::GTGTGTEQ | Tsx::LTLTEQ | Tsx::AMPEQ | Tsx::CARET | Tsx::CARETEQ | Tsx::PIPEEQ
        | Tsx::Yield | Tsx::LBRACK | Tsx::LBRACE | Tsx::Await | Tsx::QMARK | Tsx::QMARKQMARK
        | Tsx::New | Tsx::Let | Tsx::Var | Tsx::Const | Tsx::Function | Tsx::FunctionExpression
        | Tsx::SEMI => true,
        _ => false,
    }
}

/// TSX kinds counted as Halstead operands.
pub open spec fn tsx_operand(k: Tsx) -> bool {
    match k {
        Tsx::Identifier | Tsx::NestedIdentifier | Tsx::MemberExpression
        | Tsx::PropertyIdentifier | Tsx::String | Tsx::String2 | Tsx::Number | Tsx::True
        | Tsx::False | Tsx::Null | Tsx::Void | Tsx::This | Tsx::Super | Tsx::Undefined
        | Tsx::SetLiteral | Tsx::Get | Tsx::Typeof | Tsx::Instanceof => true,
        _ => false,
    }
}

/// How a TSX node counts in the Halstead measures.
pub open spec fn tsx_op_type(k: Tsx) -> HalsteadType {
    if tsx_operator(k) {
        HalsteadType::Operator
    } else if tsx_operand(k) {
        HalsteadType::Operand
    } else {
        HalsteadType::Unknown
    }
}

/// The space kind of a TSX node.
pub open spec fn tsx_space_kind(k: Tsx) -> SpaceKind {
    match k {
        Tsx::FunctionExpression | Tsx::MethodDefinition | Tsx::GeneratorFunction
        | Tsx::FunctionDeclaration | Tsx::GeneratorFunctionDeclaration | Tsx::ArrowFunction => SpaceKind::Function,
        Tsx::Class | Tsx::ClassDeclaration => SpaceKind::Class,
        Tsx::InterfaceDeclaration => SpaceKind::Interface,
        Tsx::Program => SpaceKind::Unit,
        _ => SpaceKind::Unknown,
    }
}

/// The text under which a TSX operator counts: an opening bracket stands for the
/// pair it opens.
pub open spec fn tsx_operator_text(id: u16) -> Seq<char> {
    match Tsx::spec_from_id(id) {
        Tsx::LPAREN => "()"@,
        Tsx::LBRACK => "[]"@,
        Tsx::LBRACE => "{}"@,
        k => k.text(),
    }
}

/// The name of a TSX function: its `name` field; else, for a function that is the
/// value of a pair or of a variable declarator, the pair's key or the variable's name;
/// else the anonymous name.
pub open spec fn tsx_func_name(tree: Tree, node: int, code: Seq<u8>) -> Option<Seq<char>> {
    match field_text(tree, node, Field::Name, code) {
        Some(t) => t,
        None => match tree.nodes@[node].parent {
            Some(p) => {
                let pk = Tsx::spec_from_id(tree.nodes@[p as int].kind_id);
                if pk == Tsx::Pair && field_text(tree, p as int, Field::Key, code) is Some {
                    field_text(tree, p as int, Field::Key, code)->0
                } else if pk == Tsx::VariableDeclarator && field_text(tree, p as int, Field::Name, code)
                    is Some {
                    field_text(tree, p as int, Field::Name, code)->0
                } else {
                    Some(anonymous())
                }
            },
            None => Some(anonymous()),
        },
    }
}

/// The TSX grammar.
pub struct TsxCode;

impl Getter for TsxCode {
    open spec fn space_kind_of(tree: Tree, node: int) -> SpaceKind {
        tsx_space_kind(Tsx::spec_from_id(tree.nodes@[node].kind_id))
    }

    open spec fn op_type_of(tree: Tree, node: int) -> HalsteadType {
        tsx_op_type(Tsx::spec_from_id(tree.nodes@[node].kind_id))
    }

    open spec fn operator_text_of(id: u16) -> Seq<char> {
        tsx_operator_text(id)
    }

    open spec fn name_of(tree: Tree, node: int, code: Seq<u8>) -> Option<Seq<char>> {
        tsx_func_name(tree, node, code)
    }

    fn get_space_kind(tree: &Tree, node: usize) -> (r: SpaceKind)
        ensures
            r == tsx_space_kind(Tsx::spec_from_id(tree.nodes@[node as int].kind_id)),
    {
        match Tsx::from_u16(tree.nodes[node].kind_id) {
            Tsx::FunctionExpression | Tsx::MethodDefinition | Tsx::GeneratorFunction
            | Tsx::FunctionDeclaration | Tsx::GeneratorFunctionDeclaration | Tsx::ArrowFunction => SpaceKind::Function,
            Tsx::Class | Tsx::ClassDeclaration => SpaceKind::Class,
            Tsx::InterfaceDeclaration => SpaceKind::Interface,
            Tsx::Program => SpaceKind::Unit,
            _ => SpaceKind::Unknown,
        }
    }

    fn get_func_space_name(tree: &Tree, node: usize, code: &[u8]) -> (r: Option<String>)
        ensures
            name_view(r) == tsx_func_name(*tree, node as int, code@),
    {
        if let Some(t) = text_of_field(tree, node, Field::Name, code) {
            return t;
        }
        // a function without a name takes the key of a pair or the name of a variable
        if let Some(p) = tree.nodes[node].parent {
            assert((p as int) < tree.nodes@.len());
            match Tsx::from_u16(tree.nodes[p].kind_id) {
                Tsx::Pair => {
                    if let Some(t) = text_of_field(tree, p, Field::Key, code) {
                        return t;
                    }
                },
                Tsx::VariableDeclarator => {
                    if let Some(t) = text_of_field(tree, p, Field::Name, code) {
                        return t;
                    }
                },
                _ => {},
            }
        }
        Some("<anonymous>".to_owned())
    }

    fn get_op_type(tree: &Tree, node: usize) -> (r: HalsteadType)
        ensures
            r == tsx_op_type(Tsx::spec_from_id(tree.nodes@[node as int].kind_id)),
    {
        match Tsx::from_u16(tree.nodes[node].kind_id) {
            Tsx::Export | Tsx::Import | Tsx::Import2 | Tsx::Extends | Tsx::DOT | Tsx::From
            | Tsx::LPAREN | Tsx::COMMA | Tsx::As | Tsx::STAR | Tsx::GTGT | Tsx::GTGTGT
            | Tsx::COLON | Tsx::Return | Tsx::Delete | Tsx::Throw | Tsx::Break | Tsx::Continue
            | Tsx::If | Tsx::Else | Tsx::Switch | Tsx::Case | Tsx::Default | Tsx::Async
            | Tsx::For | Tsx::In | Tsx::Of | Tsx::While | Tsx::Try | Tsx::Catch | Tsx::Finally
            | Tsx::With | Tsx::EQ | Tsx::AT | Tsx::AMPAMP | Tsx::PIPEPIPE | Tsx::PLUS
            | Tsx::DASH | Tsx::DASHDASH | Tsx::PLUSPLUS | Tsx::SLASH | Tsx::PERCENT
            | Tsx::STARSTAR | Tsx::PIPE | Tsx::AMP | Tsx::LTLT | Tsx::TILDE | Tsx::LT
            | Tsx::LTEQ | Tsx::EQEQ | Tsx::BANGEQ | Tsx::GTEQ | Tsx::GT | Tsx::PLUSEQ
            | Tsx::BANG | Tsx::BANGEQEQ | Tsx::EQEQEQ | Tsx::DASHEQ | Tsx::STAREQ
            | Tsx::SLASHEQ | Tsx::PERCENTEQ | Tsx::STARSTAREQ | Tsx::GTGTEQ | Tsx::GTGTGTEQ
            | Tsx::LTLTEQ | Tsx::AMPEQ | Tsx::CARET | Tsx::CARETEQ | Tsx::PIPEEQ | Tsx::Yield
            | Tsx::LBRACK | Tsx::LBRACE | Tsx::Await | Tsx::QMARK | Tsx::QMARKQMARK | Tsx::New
            | Tsx::Let | Tsx::Var | Tsx::Const | Tsx::Function | Tsx::FunctionExpression
            | Tsx::SEMI => {
                HalsteadType::Operator
            },
            Tsx::Identifier | Tsx::NestedIdentifier | Tsx::MemberExpression
            | Tsx::PropertyIdentifier | Tsx::String | Tsx::String2 | Tsx::Number | Tsx::True
            | Tsx::False | Tsx::Null | Tsx::Void | Tsx::This | Tsx::Super | Tsx::Undefined
            | Tsx::SetLiteral | Tsx::Get | Tsx::Typeof | Tsx::Instanceof => {
                HalsteadType::Operand
            },
            _ => HalsteadType::Unknown,
        }
    }

    fn get_operator_id_as_str(id: u16) -> (r: &'static str)
        ensures
            r@ == tsx_operator_text(id),
    {
        match Tsx::from_u16(id) {
            Tsx::LPAREN => "()",
            Tsx::LBRACK => "[]",
            Tsx::LBRACE => "{}",
            k => k.as_str(),
        }
    }
}

} // verus!
