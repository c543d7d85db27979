use vstd::prelude::*;

use crate::getter::{field_name, name_from_field, Getter};
use crate::node::Tree;
use crate::spaces::{HalsteadType, SpaceKind};

verus! {

/// Node kinds of the C# grammar, in the grammar's own numbering.
#[derive(Clone, Copy, Debug, PartialEq, Eq, Structural)]
pub enum Csharp {
    End,
    IdentifierToken,
    Extern,
    Alias,
    SEMI,
    Global,
    Using,
    Unsafe,
    EQ,
    Static,
    LBRACK,
    Assembly,
    Module,
    COLON,
    COMMA,
    RBRACK,
    LPAREN,
    RPAREN,
    Field,
    Event,
    Method,
    Param,
    Property,
    Return,
    Type,
    Typevar,
    Namespace,
    Class,
    Ref,
    Struct,
    Enum,
    LBRACE,
    RBRACE,
    Interface,
    Delegate,
    Record,
    Abstract,
    Async,
    Const,
    File,
    Fixed,
    Internal,
    New,
    Override,
    Partial,
    Private,
    Protected,
    Public,
    Readonly,
    Required,
    Sealed,
    Virtual,
    Volatile,
    LT,
    GT,
    In,
    Out,
    Where,
    QMARK,
    Notnull,
    Unmanaged,
    Operator,
    Checked,
    BANG,
    TILDE,
    PLUSPLUS,
    DASHDASH,
    True,
    False,
    PLUS,
    DASH,
    STAR,
    SLASH,
    PERCENT,
    CARET,
    PIPE,
    AMP,
    LTLT,
    GTGT,
    GTGTGT,
    EQEQ,
    BANGEQ,
    GTEQ,
    LTEQ,
    Implicit,
    Explicit,
    Get,
    SetLiteral,
    Add,
    Remove,
    Init,
    This,
    DOT,
    Scoped,
    Params,
    Base,
    EQGT,
    COLONCOLON,
    Var,
    Managed,
    Cdecl,
    Stdcall,
    Thiscall,
    Fastcall,
    PredefinedType,
    Break,
    Unchecked,
    Continue,
    Do,
    While,
    For,
    Lock,
    Yield,
    Switch,
    Case,
    Default,
    Throw,
    Try,
    Catch,
    When,
    Finally,
    Await,
    Foreach,
    Goto,
    If,
    Else,
    Discard,
    DOTDOT,
    Not,
    And,
    Or,
    PLUSEQ,
    DASHEQ,
    STAREQ,
    SLASHEQ,
    PERCENTEQ,
    AMPEQ,
    CARETEQ,
    PIPEEQ,
    LTLTEQ,
    GTGTEQ,
    GTGTGTEQ,
    QMARKQMARKEQ,
    AMPAMP,
    PIPEPIPE,
    QMARKQMARK,
    From,
    Into,
    Join,
    On,
    Equals,
    Let,
    Orderby,
    Ascending,
    Descending,
    Group,
    By,
    Select,
    As,
    Is,
    InterpolationFormatClauseToken1,
    DASHGT,
    Stackalloc,
    With,
    Sizeof,
    Typeof,
    Makeref,
    Reftype,
    Refvalue,
    NullLiteral,
    SQUOTE,
    CharacterLiteralContent,
    IntegerLiteral,
    RealLiteral,
    DQUOTE,
    StringLiteralContent,
    EscapeSequence,
    StringLiteralEncoding,
    VerbatimStringLiteral,
    RawStringLiteralToken1,
    If2,
    PreprocIfToken2,
    Endif,
    Else2,
    Elif,
    PreprocArg,
    Region,
    Endregion,
    Line,
    Hidden,
    Pragma,
    Warning,
    Disable,
    Restore,
    Checksum,
    Nullable,
    Enable,
    Annotations,
    Warnings,
    Error2,
    Warning2,
    Define,
    Undef,
    ShebangDirective,
    Comment,
    OptionalSemi,
    InterpolationStart,
    InterpolationStart2,
    InterpolationStart3,
    DQUOTE2,
    DQUOTE3,
    InterpolationBrace,
    InterpolationBrace2,
    StringContent,
    RawStringStart,
    RawStringEnd,
    RawStringContent,
    CompilationUnit,
    TopLevelItem,
    GlobalStatement,
    ExternAliasDirective,
    UsingDirective,
    GlobalAttribute,
    Attribute,
    AttributeArgumentList,
    AttributeArgument,
    AttributeList,
    AttributeList2,
    AttributeTargetSpecifier,
    NamespaceDeclaration,
    FileScopedNamespaceDeclaration,
    TypeDeclaration,
    ClassDeclaration,
    ClassDeclarationInitializer,
    StructDeclaration,
    StructDeclarationInitializer,
    EnumDeclaration,
    EnumDeclarationInitializer,
    EnumMemberDeclarationList,
    EnumMemberDeclaration,
    InterfaceDeclaration,
    InterfaceDeclarationInitializer,
    DelegateDeclaration,
    DelegateDeclarationInitializer,
    RecordDeclaration,
    RecordDeclarationInitializer,
    BaseList,
    DeclarationListBody,
    PrimaryConstructorBaseType,
    Modifier,
    TypeParameterList,
    TypeParameter,
    BaseList2,
    TypeParameterConstraintsClause,
    TypeParameterConstraint,
    ConstructorConstraint,
    OperatorDeclaration,
    ConversionOperatorDeclaration,
    DeclarationList,
    Declaration,
    FieldDeclaration,
    ConstructorDeclaration,
    ConstructorDeclarationInitializer,
    DestructorDeclaration,
    MethodDeclaration,
    EventDeclaration,
    EventFieldDeclaration,
    AccessorList,
    AccessorDeclaration,
    IndexerDeclaration,
    BracketedParameterList,
    PropertyDeclaration,
    ExplicitInterfaceSpecifier,
    ParameterList,
    Parameter,
    ParameterArray,
    ConstructorInitializer,
    ArgumentList,
    TuplePattern,
    Argument,
    Block,
    ArrowExpressionClause,
    FunctionBody,
    VariableDeclaration,
    VariableDeclaration2,
    VariableDeclarator,
    VariableDeclarator2,
    BracketedArgumentList,
    Name,
    AliasQualifiedName,
    SimpleName,
    QualifiedName,
    GenericName,
    TypeArgumentList,
    Type2,
    ImplicitType,
    ArrayType,
    ArrayBaseType,
    ArrayRankSpecifier,
    NullableType,
    PointerType,
    PointerBaseType,
    FunctionPointerType,
    CallingConvention,
    FunctionPointerParameter,
    RefType,
    RefBaseType,
    ScopedType,
    ScopedBaseType,
    TupleType,
    TupleElement,
    Statement,
    BreakStatement,
    CheckedStatement,
    ContinueStatement,
    DoStatement,
    EmptyStatement,
    ExpressionStatement,
    FixedStatement,
    ForStatement,
    ForStatementConditions,
    ReturnStatement,
    LockStatement,
    YieldStatement,
    SwitchStatement,
    SwitchBody,
    SwitchSection,
    ThrowStatement,
    TryStatement,
    CatchClause,
    CatchDeclaration,
    CatchFilterClause,
    FinallyClause,
    UnsafeStatement,
    UsingStatement,
    ForeachStatement,
    ForeachStatementInitializer,
    GotoStatement,
    LabeledStatement,
    IfStatement,
    WhileStatement,
    LocalDeclarationStatement,
    LocalFunctionStatement,
    LocalFunctionDeclaration,
    Pattern,
    RecursivePattern,
    ConstantPattern,
    InvocationExpression,
    InvocationExpression2,
    ParenthesizedPattern,
    VarPattern,
    TypePattern,
    ListPattern,
    RecursivePattern2,
    PositionalPatternClause,
    PropertyPatternClause,
    Subpattern,
    RelationalPattern,
    NegatedPattern,
    AndPattern,
    OrPattern,
    DeclarationPattern,
    VariableDesignation,
    ParenthesizedVariableDesignation,
    Expression,
    NonLvalueExpression,
    LvalueExpression,
    ExpressionStatementExpression,
    AssignmentExpression,
    BinaryExpression,
    PostfixUnaryExpression,
    PrefixUnaryExpression,
    PrefixUnaryExpression2,
    QueryExpression,
    FromClause,
    QueryBody,
    QueryClause,
    JoinClause,
    JoinHeader,
    JoinBody,
    JoinIntoClause,
    LetClause,
    OrderByClause,
    Ordering,
    WhereClause,
    SelectOrGroupClause,
    GroupClause,
    SelectClause,
    ConditionalExpression,
    ConditionalAccessExpression,
    AsExpression,
    IsExpression,
    IsPatternExpression,
    CastExpression,
    CheckedExpression,
    InvocationExpression3,
    SwitchExpression,
    SwitchExpressionBody,
    SwitchExpressionArm,
    WhenClause,
    AwaitExpression,
    ThrowExpression,
    ElementAccessExpression,
    InterpolatedStringExpression,
    InterpolatedStringContent,
    InterpolatedVerbatimStringContent,
    InterpolatedRawStringContent,
    Interpolation,
    InterpolationAlignmentClause,
    InterpolationFormatClause,
    MemberAccessExpression,
    MemberBindingExpression,
    ObjectCreationExpression,
    ParenthesizedExpression,
    ParenthesizedExpression2,
    LambdaExpression,
    LambdaExpressionInit,
    LambdaParameters,
    ArrayCreationExpression,
    AnonymousMethodExpression,
    AnonymousObjectCreationExpression,
    AnonymousObjectMemberDeclarator,
    ImplicitArrayCreationExpression,
    ImplicitObjectCreationExpression,
    ImplicitStackallocExpression,
    CollectionExpression,
    CollectionElement,
    ExpressionElement,
    SpreadElement,
    InitializerExpression,
    DeclarationExpression,
    DefaultExpression,
    WithExpression,
    WithBody,
    WithInitializer,
    SizeofExpression,
    TypeofExpression,
    MakerefExpression,
    RefExpression,
    ReftypeExpression,
    RefvalueExpression,
    StackallocExpression,
    RangeExpression,
    TupleExpression,
    Literal,
    CharacterLiteral,
    StringLiteral,
    RawStringLiteral,
    BooleanLiteral,
    Identifier,
    ReservedIdentifier,
    PreprocIf,
    PreprocElse,
    PreprocElif,
    PreprocIf2,
    PreprocElse2,
    PreprocElif2,
    PreprocIf3,
    PreprocElse3,
    PreprocElif3,
    PreprocIf4,
    PreprocElse4,
    PreprocElif4,
    PreprocIfInAttributeList,
    PreprocElse5,
    PreprocElif5,
    PreprocExpression,
    ParenthesizedExpression3,
    UnaryExpression,
    BinaryExpression2,
    PreprocRegion,
    PreprocEndregion,
    PreprocLine,
    PreprocPragma,
    PreprocNullable,
    PreprocError,
    PreprocWarning,
    PreprocDefine,
    PreprocUndef,
    CompilationUnitRepeat1,
    UsingDirectiveRepeat1,
    GlobalAttributeRepeat1,
    AttributeArgumentListRepeat1,
    ClassDeclarationInitializerRepeat1,
    ClassDeclarationInitializerRepeat2,
    ClassDeclarationInitializerRepeat3,
    ClassDeclarationInitializerRepeat4,
    EnumMemberDeclarationListRepeat1,
    RecordDeclarationInitializerRepeat1,
    RecordBaseRepeat1,
    TypeParameterListRepeat1,
    BaseListRepeat1,
    TypeParameterConstraintsClauseRepeat1,
    ConversionOperatorDeclarationRepeat1,
    DeclarationListRepeat1,
    AccessorListRepeat1,
    BracketedParameterListRepeat1,
    ParameterTypeWithModifiersRepeat1,
    ArgumentListRepeat1,
    TuplePatternRepeat1,
    BlockRepeat1,
    VariableDeclarationRepeat1,
    UsingVariableDeclarationRepeat1,
    TypeArgumentListRepeat1,
    TypeArgumentListRepeat2,
    ArrayRankSpecifierRepeat1,
    FunctionPointerTypeRepeat1,
    CallingConventionRepeat1,
    TupleTypeRepeat1,
    ForStatementConditionsRepeat1,
    SwitchBodyRepeat1,
    TryStatementRepeat1,
    CatchClauseRepeat1,
    ListPatternRepeat1,
    PositionalPatternClauseRepeat1,
    ParenthesizedVariableDesignationRepeat1,
    QueryBodyRepeat1,
    QueryBodyRepeat2,
    OrderByClauseRepeat1,
    SwitchExpressionBodyRepeat1,
    InterpolatedStringExpressionRepeat1,
    InterpolatedStringExpressionRepeat2,
    InterpolatedStringExpressionRepeat3,
    LambdaExpressionInitRepeat1,
    AnonymousObjectCreationExpressionRepeat1,
    CollectionExpressionRepeat1,
    WithBodyRepeat1,
    StringLiteralRepeat1,
    PreprocIfInTopLevelRepeat1,
    PreprocPragmaRepeat1,
    ElementBindingExpression,
    ImplicitParameter,
    InterpolationQuote,
    Error,
}

impl Csharp {
    /// The grammar's numeric id of this kind.
    pub open spec fn id(self) -> u16 {
        match self {
            Csharp::End => 0,
            Csharp::IdentifierToken => 1,
            Csharp::Extern => 2,
            Csharp::Alias => 3,
            Csharp::SEMI => 4,
            Csharp::Global => 5,
            Csharp::Using => 6,
            Csharp::Unsafe => 7,
            Csharp::EQ => 8,
            Csharp::Static => 9,
            Csharp::LBRACK => 10,
            Csharp::Assembly => 11,
            Csharp::Module => 12,
            Csharp::COLON => 13,
            Csharp::COMMA => 14,
            Csharp::RBRACK => 15,
            Csharp::LPAREN => 16,
            Csharp::RPAREN => 17,
            Csharp::Field => 18,
            Csharp::Event => 19,
            Csharp::Method => 20,
            Csharp::Param => 21,
            Csharp::Property => 22,
            Csharp::Return => 23,
            Csharp::Type => 24,
            Csharp::Typevar => 25,
            Csharp::Namespace => 26,
            Csharp::Class => 27,
            Csharp::Ref => 28,
            Csharp::Struct => 29,
            Csharp::Enum => 30,
            Csharp::LBRACE => 31,
            Csharp::RBRACE => 32,
            Csharp::Interface => 33,
            Csharp::Delegate => 34,
            Csharp::Record => 35,
            Csharp::Abstract => 36,
            Csharp::Async => 37,
            Csharp::Const => 38,
            Csharp::File => 39,
            Csharp::Fixed => 40,
            Csharp::Internal => 41,
            Csharp::New => 42,
            Csharp::Override => 43,
            Csharp::Partial => 44,
            Csharp::Private => 45,
            Csharp::Protected => 46,
            Csharp::Public => 47,
            Csharp::Readonly => 48,
            Csharp::Required => 49,
            Csharp::Sealed => 50,
            Csharp::Virtual => 51,
            Csharp::Volatile => 52,
            Csharp::LT => 53,
            Csharp::GT => 54,
            Csharp::In => 55,
            Csharp::Out => 56,
            Csharp::Where => 57,
            Csharp::QMARK => 58,
            Csharp::Notnull => 59,
            Csharp::Unmanaged => 60,
            Csharp::Operator => 61,
            Csharp::Checked => 62,
            Csharp::BANG => 63,
            Csharp::TILDE => 64,
            Csharp::PLUSPLUS => 65,
            Csharp::DASHDASH => 66,
            Csharp::True => 67,
            Csharp::False => 68,
            Csharp::PLUS => 69,
            Csharp::DASH => 70,
            Csharp::STAR => 71,
            Csharp::SLASH => 72,
            Csharp::PERCENT => 73,
            Csharp::CARET => 74,
            Csharp::PIPE => 75,
            Csharp::AMP => 76,
            Csharp::LTLT => 77,
            Csharp::GTGT => 78,
            Csharp::GTGTGT => 79,
            Csharp::EQEQ => 80,
            Csharp::BANGEQ => 81,
            Csharp::GTEQ => 82,
            Csharp::LTEQ => 83,
            Csharp::Implicit => 84,
            Csharp::Explicit => 85,
            Csharp::Get => 86,
            Csharp::SetLiteral => 87,
            Csharp::Add => 88,
            Csharp::Remove => 89,
            Csharp::Init => 90,
            Csharp::This => 91,
            Csharp::DOT => 92,
            Csharp::Scoped => 93,
            Csharp::Params => 94,
            Csharp::Base => 95,
            Csharp::EQGT => 96,
            Csharp::COLONCOLON => 97,
            Csharp::Var => 98,
            Csharp::Managed => 99,
            Csharp::Cdecl => 100,
            Csharp::Stdcall => 101,
            Csharp::Thiscall => 102,
            Csharp::Fastcall => 103,
            Csharp::PredefinedType => 104,
            Csharp::Break => 105,
            Csharp::Unchecked => 106,
            Csharp::Continue => 107,
            Csharp::Do => 108,
            Csharp::While => 109,
            Csharp::For => 110,
            Csharp::Lock => 111,
            Csharp::Yield => 112,
            Csharp::Switch => 113,
            Csharp::Case => 114,
            Csharp::Default => 115,
            Csharp::Throw => 116,
            Csharp::Try => 117,
            Csharp::Catch => 118,
            Csharp::When => 119,
            Csharp::Finally => 120,
            Csharp::Await => 121,
            Csharp::Foreach => 122,
            Csharp::Goto => 123,
            Csharp::If => 124,
            Csharp::Else => 125,
            Csharp::Discard => 126,
            Csharp::DOTDOT => 127,
            Csharp::Not => 128,
            Csharp::And => 129,
            Csharp::Or => 130,
            Csharp::PLUSEQ => 131,
            Csharp::DASHEQ => 132,
            Csharp::STAREQ => 133,
            Csharp::SLASHEQ => 134,
            Csharp::PERCENTEQ => 135,
            Csharp::AMPEQ => 136,
            Csharp::CARETEQ => 137,
            Csharp::PIPEEQ => 138,
            Csharp::LTLTEQ => 139,
            Csharp::GTGTEQ => 140,
            Csharp::GTGTGTEQ => 141,
            Csharp::QMARKQMARKEQ => 142,
            Csharp::AMPAMP => 143,
            Csharp::PIPEPIPE => 144,
            Csharp::QMARKQMARK => 145,
            Csharp::From => 146,
            Csharp::Into => 147,
            Csharp::Join => 148,
            Csharp::On => 149,
            Csharp::Equals => 150,
            Csharp::Let => 151,
            Csharp::Orderby => 152,
            Csharp::Ascending => 153,
            Csharp::Descending => 154,
            Csharp::Group => 155,
            Csharp::By => 156,
            Csharp::Select => 157,
            Csharp::As => 158,
            Csharp::Is => 159,
            Csharp::InterpolationFormatClauseToken1 => 160,
            Csharp::DASHGT => 161,
            Csharp::Stackalloc => 162,
            Csharp::With => 163,
            Csharp::Sizeof => 164,
            Csharp::Typeof => 165,
            Csharp::Makeref => 166,
            Csharp::Reftype => 167,
            Csharp::Refvalue => 168,
            Csharp::NullLiteral => 169,
            Csharp::SQUOTE => 170,
            Csharp::CharacterLiteralContent => 171,
            Csharp::IntegerLiteral => 172,
            Csharp::RealLiteral => 173,
            Csharp::DQUOTE => 174,
            Csharp::StringLiteralContent => 175,
            Csharp::EscapeSequence => 176,
            Csharp::StringLiteralEncoding => 177,
            Csharp::VerbatimStringLiteral => 178,
            Csharp::RawStringLiteralToken1 => 179,
            Csharp::If2 => 180,
            Csharp::PreprocIfToken2 => 181,
            Csharp::Endif => 182,
            Csharp::Else2 => 183,
            Csharp::Elif => 184,
            Csharp::PreprocArg => 185,
            Csharp::Region => 186,
            Csharp::Endregion => 187,
            Csharp::Line => 188,
            Csharp::Hidden => 189,
            Csharp::Pragma => 190,
            Csharp::Warning => 191,
            Csharp::Disable => 192,
            Csharp::Restore => 193,
            Csharp::Checksum => 194,
            Csharp::Nullable => 195,
            Csharp::Enable => 196,
            Csharp::Annotations => 197,
            Csharp::Warnings => 198,
            Csharp::Error2 => 199,
            Csharp::Warning2 => 200,
            Csharp::Define => 201,
            Csharp::Undef => 202,
            Csharp::ShebangDirective => 203,
            Csharp::Comment => 204,
            Csharp::OptionalSemi => 205,
            Csharp::InterpolationStart => 206,
            Csharp::InterpolationStart2 => 207,
            Csharp::InterpolationStart3 => 208,
            Csharp::DQUOTE2 => 209,
            Csharp::DQUOTE3 => 210,
            Csharp::InterpolationBrace => 211,
            Csharp::InterpolationBrace2 => 212,
            Csharp::StringContent => 213,
            Csharp::RawStringStart => 214,
            Csharp::RawStringEnd => 215,
            Csharp::RawStringContent => 216,
            Csharp::CompilationUnit => 217,
            Csharp::TopLevelItem => 218,
            Csharp::GlobalStatement => 219,
            Csharp::ExternAliasDirective => 220,
            Csharp::UsingDirective => 221,
            Csharp::GlobalAttribute => 222,
            Csharp::Attribute => 223,
            Csharp::AttributeArgumentList => 224,
            Csharp::AttributeArgument => 225,
            Csharp::AttributeList => 226,
            Csharp::AttributeList2 => 227,
            Csharp::AttributeTargetSpecifier => 228,
            Csharp::NamespaceDeclaration => 229,
            Csharp::FileScopedNamespaceDeclaration => 230,
            Csharp::TypeDeclaration => 231,
            Csharp::ClassDeclaration => 232,
            Csharp::ClassDeclarationInitializer => 233,
            Csharp::StructDeclaration => 234,
            Csharp::StructDeclarationInitializer => 235,
            Csharp::EnumDeclaration => 236,
            Csharp::EnumDeclarationInitializer => 237,
            Csharp::EnumMemberDeclarationList => 238,
            Csharp::EnumMemberDeclaration => 239,
            Csharp::InterfaceDeclaration => 240,
            Csharp::InterfaceDeclarationInitializer => 241,
            Csharp::DelegateDeclaration => 242,
            Csharp::DelegateDeclarationInitializer => 243,
            Csharp::RecordDeclaration => 244,
            Csharp::RecordDeclarationInitializer => 245,
            Csharp::BaseList => 246,
            Csharp::DeclarationListBody => 247,
            Csharp::PrimaryConstructorBaseType => 248,
            Csharp::Modifier => 249,
            Csharp::TypeParameterList => 250,
            Csharp::TypeParameter => 251,
            Csharp::BaseList2 => 252,
            Csharp::TypeParameterConstraintsClause => 253,
            Csharp::TypeParameterConstraint => 254,
            Csharp::ConstructorConstraint => 255,
            Csharp::OperatorDeclaration => 256,
            Csharp::ConversionOperatorDeclaration => 257,
            Csharp::DeclarationList => 258,
            Csharp::Declaration => 259,
            Csharp::FieldDeclaration => 260,
            Csharp::ConstructorDeclaration => 261,
            Csharp::ConstructorDeclarationInitializer => 262,
            Csharp::DestructorDeclaration => 263,
            Csharp::MethodDeclaration => 264,
            Csharp::EventDeclaration => 265,
            Csharp::EventFieldDeclaration => 266,
            Csharp::AccessorList => 267,
            Csharp::AccessorDeclaration => 268,
            Csharp::IndexerDeclaration => 269,
            Csharp::BracketedParameterList => 270,
            Csharp::PropertyDeclaration => 271,
            Csharp::ExplicitInterfaceSpecifier => 272,
            Csharp::ParameterList => 273,
            Csharp::Parameter => 274,
            Csharp::ParameterArray => 275,
            Csharp::ConstructorInitializer => 276,
            Csharp::ArgumentList => 277,
            Csharp::TuplePattern => 278,
            Csharp::Argument => 279,
            Csharp::Block => 280,
            Csharp::ArrowExpressionClause => 281,
            Csharp::FunctionBody => 282,
            Csharp::VariableDeclaration => 283,
            Csharp::VariableDeclaration2 => 284,
            Csharp::VariableDeclarator => 285,
            Csharp::VariableDeclarator2 => 286,
            Csharp::BracketedArgumentList => 287,
            Csharp::Name => 288,
            Csharp::AliasQualifiedName => 289,
            Csharp::SimpleName => 290,
            Csharp::QualifiedName => 291,
            Csharp::GenericName => 292,
            Csharp::TypeArgumentList => 293,
            Csharp::Type2 => 294,
            Csharp::ImplicitType => 295,
            Csharp::ArrayType => 296,
            Csharp::ArrayBaseType => 297,
            Csharp::ArrayRankSpecifier => 298,
            Csharp::NullableType => 299,
            Csharp::PointerType => 300,
            Csharp::PointerBaseType => 301,
            Csharp::FunctionPointerType => 302,
            Csharp::CallingConvention => 303,
            Csharp::FunctionPointerParameter => 304,
            Csharp::RefType => 305,
            Csharp::RefBaseType => 306,
            Csharp::ScopedType => 307,
            Csharp::ScopedBaseType => 308,
            Csharp::TupleType => 309,
            Csharp::TupleElement => 310,
            Csharp::Statement => 311,
            Csharp::BreakStatement => 312,
            Csharp::CheckedStatement => 313,
            Csharp::ContinueStatement => 314,
            Csharp::DoStatement => 315,
            Csharp::EmptyStatement => 316,
            Csharp::ExpressionStatement => 317,
            Csharp::FixedStatement => 318,
            Csharp::ForStatement => 319,
            Csharp::ForStatementConditions => 320,
            Csharp::ReturnStatement => 321,
            Csharp::LockStatement => 322,
            Csharp::YieldStatement => 323,
            Csharp::SwitchStatement => 324,
            Csharp::SwitchBody => 325,
            Csharp::SwitchSection => 326,
            Csharp::ThrowStatement => 327,
            Csharp::TryStatement => 328,
            Csharp::CatchClause => 329,
            Csharp::CatchDeclaration => 330,
            Csharp::CatchFilterClause => 331,
            Csharp::FinallyClause => 332,
            Csharp::UnsafeStatement => 333,
            Csharp::UsingStatement => 334,
            Csharp::ForeachStatement => 335,
            Csharp::ForeachStatementInitializer => 336,
            Csharp::GotoStatement => 337,
            Csharp::LabeledStatement => 338,
            Csharp::IfStatement => 339,
            Csharp::WhileStatement => 340,
            Csharp::LocalDeclarationStatement => 341,
            Csharp::LocalFunctionStatement => 342,
            Csharp::LocalFunctionDeclaration => 343,
            Csharp::Pattern => 344,
            Csharp::RecursivePattern => 345,
            Csharp::ConstantPattern => 346,
            Csharp::InvocationExpression => 347,
            Csharp::InvocationExpression2 => 348,
            Csharp::ParenthesizedPattern => 349,
            Csharp::VarPattern => 350,
            Csharp::TypePattern => 351,
            Csharp::ListPattern => 352,
            Csharp::RecursivePattern2 => 353,
            Csharp::PositionalPatternClause => 354,
            Csharp::PropertyPatternClause => 355,
            Csharp::Subpattern => 356,
            Csharp::RelationalPattern => 357,
            Csharp::NegatedPattern => 358,
            Csharp::AndPattern => 359,
            Csharp::OrPattern => 360,
            Csharp::DeclarationPattern => 361,
            Csharp::VariableDesignation => 362,
            Csharp::ParenthesizedVariableDesignation => 363,
            Csharp::Expression => 364,
            Csharp::NonLvalueExpression => 365,
            Csharp::LvalueExpression => 366,
            Csharp::ExpressionStatementExpression => 367,
            Csharp::AssignmentExpression => 368,
            Csharp::BinaryExpression => 369,
            Csharp::PostfixUnaryExpression => 370,
            Csharp::PrefixUnaryExpression => 371,
            Csharp::PrefixUnaryExpression2 => 372,
            Csharp::QueryExpression => 373,
            Csharp::FromClause => 374,
            Csharp::QueryBody => 375,
            Csharp::QueryClause => 376,
            Csharp::JoinClause => 377,
            Csharp::JoinHeader => 378,
            Csharp::JoinBody => 379,
            Csharp::JoinIntoClause => 380,
            Csharp::LetClause => 381,
            Csharp::OrderByClause => 382,
            Csharp::Ordering => 383,
            Csharp::WhereClause => 384,
            Csharp::SelectOrGroupClause => 385,
            Csharp::GroupClause => 386,
            Csharp::SelectClause => 387,
            Csharp::ConditionalExpression => 388,
            Csharp::ConditionalAccessExpression => 389,
            Csharp::AsExpression => 390,
            Csharp::IsExpression => 391,
            Csharp::IsPatternExpression => 392,
            Csharp::CastExpression => 393,
            Csharp::CheckedExpression => 394,
            Csharp::InvocationExpression3 => 395,
            Csharp::SwitchExpression => 396,
            Csharp::SwitchExpressionBody => 397,
            Csharp::SwitchExpressionArm => 398,
            Csharp::WhenClause => 399,
            Csharp::AwaitExpression => 400,
            Csharp::ThrowExpression => 401,
            Csharp::ElementAccessExpression => 402,
            Csharp::InterpolatedStringExpression => 403,
            Csharp::InterpolatedStringContent => 404,
            Csharp::InterpolatedVerbatimStringContent => 405,
            Csharp::InterpolatedRawStringContent => 406,
            Csharp::Interpolation => 407,
            Csharp::InterpolationAlignmentClause => 408,
            Csharp::InterpolationFormatClause => 409,
            Csharp::MemberAccessExpression => 410,
            Csharp::MemberBindingExpression => 411,
            Csharp::ObjectCreationExpression => 412,
            Csharp::ParenthesizedExpression => 413,
            Csharp::ParenthesizedExpression2 => 414,
            Csharp::LambdaExpression => 415,
            Csharp::LambdaExpressionInit => 416,
            Csharp::LambdaParameters => 417,
            Csharp::ArrayCreationExpression => 418,
            Csharp::AnonymousMethodExpression => 419,
            Csharp::AnonymousObjectCreationExpression => 420,
            Csharp::AnonymousObjectMemberDeclarator => 421,
            Csharp::ImplicitArrayCreationExpression => 422,
            Csharp::ImplicitObjectCreationExpression => 423,
            Csharp::ImplicitStackallocExpression => 424,
            Csharp::CollectionExpression => 425,
            Csharp::CollectionElement => 426,
            Csharp::ExpressionElement => 427,
            Csharp::SpreadElement => 428,
            Csharp::InitializerExpression => 429,
            Csharp::DeclarationExpression => 430,
            Csharp::DefaultExpression => 431,
            Csharp::WithExpression => 432,
            Csharp::WithBody => 433,
            Csharp::WithInitializer => 434,
            Csharp::SizeofExpression => 435,
            Csharp::TypeofExpression => 436,
            Csharp::MakerefExpression => 437,
            Csharp::RefExpression => 438,
            Csharp::ReftypeExpression => 439,
            Csharp::RefvalueExpression => 440,
            Csharp::StackallocExpression => 441,
            Csharp::RangeExpression => 442,
            Csharp::TupleExpression => 443,
            Csharp::Literal => 444,
            Csharp::CharacterLiteral => 445,
            Csharp::StringLiteral => 446,
            Csharp::RawStringLiteral => 447,
            Csharp::BooleanLiteral => 448,
            Csharp::Identifier => 449,
            Csharp::ReservedIdentifier => 450,
            Csharp::PreprocIf => 451,
            Csharp::PreprocElse => 452,
            Csharp::PreprocElif => 453,
            Csharp::PreprocIf2 => 454,
            Csharp::PreprocElse2 => 455,
            Csharp::PreprocElif2 => 456,
            Csharp::PreprocIf3 => 457,
            Csharp::PreprocElse3 => 458,
            Csharp::PreprocElif3 => 459,
            Csharp::PreprocIf4 => 460,
            Csharp::PreprocElse4 => 461,
            Csharp::PreprocElif4 => 462,
            Csharp::PreprocIfInAttributeList => 463,
            Csharp::PreprocElse5 => 464,
            Csharp::PreprocElif5 => 465,
            Csharp::PreprocExpression => 466,
            Csharp::ParenthesizedExpression3 => 467,
            Csharp::UnaryExpression => 468,
            Csharp::BinaryExpression2 => 469,
            Csharp::PreprocRegion => 470,
            Csharp::PreprocEndregion => 471,
            Csharp::PreprocLine => 472,
            Csharp::PreprocPragma => 473,
            Csharp::PreprocNullable => 474,
            Csharp::PreprocError => 475,
            Csharp::PreprocWarning => 476,
            Csharp::PreprocDefine => 477,
            Csharp::PreprocUndef => 478,
            Csharp::CompilationUnitRepeat1 => 479,
            Csharp::UsingDirectiveRepeat1 => 480,
            Csharp::GlobalAttributeRepeat1 => 481,
            Csharp::AttributeArgumentListRepeat1 => 482,
            Csharp::ClassDeclarationInitializerRepeat1 => 483,
            Csharp::ClassDeclarationInitializerRepeat2 => 484,
            Csharp::ClassDeclarationInitializerRepeat3 => 485,
            Csharp::ClassDeclarationInitializerRepeat4 => 486,
            Csharp::EnumMemberDeclarationListRepeat1 => 487,
            Csharp::RecordDeclarationInitializerRepeat1 => 488,
            Csharp::RecordBaseRepeat1 => 489,
            Csharp::TypeParameterListRepeat1 => 490,
            Csharp::BaseListRepeat1 => 491,
            Csharp::TypeParameterConstraintsClauseRepeat1 => 492,
            Csharp::ConversionOperatorDeclarationRepeat1 => 493,
            Csharp::DeclarationListRepeat1 => 494,
            Csharp::AccessorListRepeat1 => 495,
            Csharp::BracketedParameterListRepeat1 => 496,
            Csharp::ParameterTypeWithModifiersRepeat1 => 497,
            Csharp::ArgumentListRepeat1 => 498,
            Csharp::TuplePatternRepeat1 => 499,
            Csharp::BlockRepeat1 => 500,
            Csharp::VariableDeclarationRepeat1 => 501,
            Csharp::UsingVariableDeclarationRepeat1 => 502,
            Csharp::TypeArgumentListRepeat1 => 503,
            Csharp::TypeArgumentListRepeat2 => 504,
            Csharp::ArrayRankSpecifierRepeat1 => 505,
            Csharp::FunctionPointerTypeRepeat1 => 506,
            Csharp::CallingConventionRepeat1 => 507,
            Csharp::TupleTypeRepeat1 => 508,
            Csharp::ForStatementConditionsRepeat1 => 509,
            Csharp::SwitchBodyRepeat1 => 510,
            Csharp::TryStatementRepeat1 => 511,
            Csharp::CatchClauseRepeat1 => 512,
            Csharp::ListPatternRepeat1 => 513,
            Csharp::PositionalPatternClauseRepeat1 => 514,
            Csharp::ParenthesizedVariableDesignationRepeat1 => 515,
            Csharp::QueryBodyRepeat1 => 516,
            Csharp::QueryBodyRepeat2 => 517,
            Csharp::OrderByClauseRepeat1 => 518,
            Csharp::SwitchExpressionBodyRepeat1 => 519,
            Csharp::InterpolatedStringExpressionRepeat1 => 520,
            Csharp::InterpolatedStringExpressionRepeat2 => 521,
            Csharp::InterpolatedStringExpressionRepeat3 => 522,
            Csharp::LambdaExpressionInitRepeat1 => 523,
            Csharp::AnonymousObjectCreationExpressionRepeat1 => 524,
            Csharp::CollectionExpressionRepeat1 => 525,
            Csharp::WithBodyRepeat1 => 526,
            Csharp::StringLiteralRepeat1 => 527,
            Csharp::PreprocIfInTopLevelRepeat1 => 528,
            Csharp::PreprocPragmaRepeat1 => 529,
            Csharp::ElementBindingExpression => 530,
            Csharp::ImplicitParameter => 531,
            Csharp::InterpolationQuote => 532,
            Csharp::Error => 533,
        }
    }

    /// The kind that a numeric id stands for: ids past the table give `Error`.
    pub open spec fn spec_from_id(x: u16) -> Csharp {
        match x {
            0 => Csharp::End,
            1 => Csharp::IdentifierToken,
            2 => Csharp::Extern,
            3 => Csharp::Alias,
            4 => Csharp::SEMI,
            5 => Csharp::Global,
            6 => Csharp::Using,
            7 => Csharp::Unsafe,
            8 => Csharp::EQ,
            9 => Csharp::Static,
            10 => Csharp::LBRACK,
            11 => Csharp::Assembly,
            12 => Csharp::Module,
            13 => Csharp::COLON,
            14 => Csharp::COMMA,
            15 => Csharp::RBRACK,
            16 => Csharp::LPAREN,
            17 => Csharp::RPAREN,
            18 => Csharp::Field,
            19 => Csharp::Event,
            20 => Csharp::Method,
            21 => Csharp::Param,
            22 => Csharp::Property,
            23 => Csharp::Return,
            24 => Csharp::Type,
            25 => Csharp::Typevar,
            26 => Csharp::Namespace,
            27 => Csharp::Class,
            28 => Csharp::Ref,
            29 => Csharp::Struct,
            30 => Csharp::Enum,
            31 => Csharp::LBRACE,
            32 => Csharp::RBRACE,
            33 => Csharp::Interface,
            34 => Csharp::Delegate,
            35 => Csharp::Record,
            36 => Csharp::Abstract,
            37 => Csharp::Async,
            38 => Csharp::Const,
            39 => Csharp::File,
            40 => Csharp::Fixed,
            41 => Csharp::Internal,
            42 => Csharp::New,
            43 => Csharp::Override,
            44 => Csharp::Partial,
            45 => Csharp::Private,
            46 => Csharp::Protected,
            47 => Csharp::Public,
            48 => Csharp::Readonly,
            49 => Csharp::Required,
            50 => Csharp::Sealed,
            51 => Csharp::Virtual,
            52 => Csharp::Volatile,
            53 => Csharp::LT,
            54 => Csharp::GT,
            55 => Csharp::In,
            56 => Csharp::Out,
            57 => Csharp::Where,
            58 => Csharp::QMARK,
            59 => Csharp::Notnull,
            60 => Csharp::Unmanaged,
            61 => Csharp::Operator,
            62 => Csharp::Checked,
            63 => Csharp::BANG,
            64 => Csharp::TILDE,
            65 => Csharp::PLUSPLUS,
            66 => Csharp::DASHDASH,
            67 => Csharp::True,
            68 => Csharp::False,
            69 => Csharp::PLUS,
            70 => Csharp::DASH,
            71 => Csharp::STAR,
            72 => Csharp::SLASH,
            73 => Csharp::PERCENT,
            74 => Csharp::CARET,
            75 => Csharp::PIPE,
            76 => Csharp::AMP,
            77 => Csharp::LTLT,
            78 => Csharp::GTGT,
            79 => Csharp::GTGTGT,
            80 => Csharp::EQEQ,
            81 => Csharp::BANGEQ,
            82 => Csharp::GTEQ,
            83 => Csharp::LTEQ,
            84 => Csharp::Implicit,
            85 => Csharp::Explicit,
            86 => Csharp::Get,
            87 => Csharp::SetLiteral,
            88 => Csharp::Add,
            89 => Csharp::Remove,
            90 => Csharp::Init,
            91 => Csharp::This,
            92 => Csharp::DOT,
            93 => Csharp::Scoped,
            94 => Csharp::Params,
            95 => Csharp::Base,
            96 => Csharp::EQGT,
            97 => Csharp::COLONCOLON,
            98 => Csharp::Var,
            99 => Csharp::Managed,
            100 => Csharp::Cdecl,
            101 => Csharp::Stdcall,
            102 => Csharp::Thiscall,
            103 => Csharp::Fastcall,
            104 => Csharp::PredefinedType,
            105 => Csharp::Break,
            106 => Csharp::Unchecked,
            107 => Csharp::Continue,
            108 => Csharp::Do,
            109 => Csharp::While,
            110 => Csharp::For,
            111 => Csharp::Lock,
            112 => Csharp::Yield,
            113 => Csharp::Switch,
            114 => Csharp::Case,
            115 => Csharp::Default,
            116 => Csharp::Throw,
            117 => Csharp::Try,
            118 => Csharp::Catch,
            119 => Csharp::When,
            120 => Csharp::Finally,
            121 => Csharp::Await,
            122 => Csharp::Foreach,
            123 => Csharp::Goto,
            124 => Csharp::If,
            125 => Csharp::Else,
            126 => Csharp::Discard,
            127 => Csharp::DOTDOT,
            128 => Csharp::Not,
            129 => Csharp::And,
            130 => Csharp::Or,
            131 => Csharp::PLUSEQ,
            132 => Csharp::DASHEQ,
            133 => Csharp::STAREQ,
            134 => Csharp::SLASHEQ,
            135 => Csharp::PERCENTEQ,
            136 => Csharp::AMPEQ,
            137 => Csharp::CARETEQ,
            138 => Csharp::PIPEEQ,
            139 => Csharp::LTLTEQ,
            140 => Csharp::GTGTEQ,
            141 => Csharp::GTGTGTEQ,
            142 => Csharp::QMARKQMARKEQ,
            143 => Csharp::AMPAMP,
            144 => Csharp::PIPEPIPE,
            145 => Csharp::QMARKQMARK,
            146 => Csharp::From,
            147 => Csharp::Into,
            148 => Csharp::Join,
            149 => Csharp::On,
            150 => Csharp::Equals,
            151 => Csharp::Let,
            152 => Csharp::Orderby,
            153 => Csharp::Ascending,
            154 => Csharp::Descending,
            155 => Csharp::Group,
            156 => Csharp::By,
            157 => Csharp::Select,
            158 => Csharp::As,
            159 => Csharp::Is,
            160 => Csharp::InterpolationFormatClauseToken1,
            161 => Csharp::DASHGT,
            162 => Csharp::Stackalloc,
            163 => Csharp::With,
            164 => Csharp::Sizeof,
            165 => Csharp::Typeof,
            166 => Csharp::Makeref,
            167 => Csharp::Reftype,
            168 => Csharp::Refvalue,
            169 => Csharp::NullLiteral,
            170 => Csharp::SQUOTE,
            171 => Csharp::CharacterLiteralContent,
            172 => Csharp::IntegerLiteral,
            173 => Csharp::RealLiteral,
            174 => Csharp::DQUOTE,
            175 => Csharp::StringLiteralContent,
            176 => Csharp::EscapeSequence,
            177 => Csharp::StringLiteralEncoding,
            178 => Csharp::VerbatimStringLiteral,
            179 => Csharp::RawStringLiteralToken1,
            180 => Csharp::If2,
            181 => Csharp::PreprocIfToken2,
            182 => Csharp::Endif,
            183 => Csharp::Else2,
            184 => Csharp::Elif,
            185 => Csharp::PreprocArg,
            186 => Csharp::Region,
            187 => Csharp::Endregion,
            188 => Csharp::Line,
            189 => Csharp::Hidden,
            190 => Csharp::Pragma,
            191 => Csharp::Warning,
            192 => Csharp::Disable,
            193 => Csharp::Restore,
            194 => Csharp::Checksum,
            195 => Csharp::Nullable,
            196 => Csharp::Enable,
            197 => Csharp::Annotations,
            198 => Csharp::Warnings,
            199 => Csharp::Error2,
            200 => Csharp::Warning2,
            201 => Csharp::Define,
            202 => Csharp::Undef,
            203 => Csharp::ShebangDirective,
            204 => Csharp::Comment,
            205 => Csharp::OptionalSemi,
            206 => Csharp::InterpolationStart,
            207 => Csharp::InterpolationStart2,
            208 => Csharp::InterpolationStart3,
            209 => Csharp::DQUOTE2,
            210 => Csharp::DQUOTE3,
            211 => Csharp::InterpolationBrace,
            212 => Csharp::InterpolationBrace2,
            213 => Csharp::StringContent,
            214 => Csharp::RawStringStart,
            215 => Csharp::RawStringEnd,
            216 => Csharp::RawStringContent,
            217 => Csharp::CompilationUnit,
            218 => Csharp::TopLevelItem,
            219 => Csharp::GlobalStatement,
            220 => Csharp::ExternAliasDirective,
            221 => Csharp::UsingDirective,
            222 => Csharp::GlobalAttribute,
            223 => Csharp::Attribute,
            224 => Csharp::AttributeArgumentList,
            225 => Csharp::AttributeArgument,
            226 => Csharp::AttributeList,
            227 => Csharp::AttributeList2,
            228 => Csharp::AttributeTargetSpecifier,
            229 => Csharp::NamespaceDeclaration,
            230 => Csharp::FileScopedNamespaceDeclaration,
            231 => Csharp::TypeDeclaration,
            232 => Csharp::ClassDeclaration,
            233 => Csharp::ClassDeclarationInitializer,
            234 => Csharp::StructDeclaration,
            235 => Csharp::StructDeclarationInitializer,
            236 => Csharp::EnumDeclaration,
            237 => Csharp::EnumDeclarationInitializer,
            238 => Csharp::EnumMemberDeclarationList,
            239 => Csharp::EnumMemberDeclaration,
            240 => Csharp::InterfaceDeclaration,
            241 => Csharp::InterfaceDeclarationInitializer,
            242 => Csharp::DelegateDeclaration,
            243 => Csharp::DelegateDeclarationInitializer,
            244 => Csharp::RecordDeclaration,
            245 => Csharp::RecordDeclarationInitializer,
            246 => Csharp::BaseList,
            247 => Csharp::DeclarationListBody,
            248 => Csharp::PrimaryConstructorBaseType,
            249 => Csharp::Modifier,
            250 => Csharp::TypeParameterList,
            251 => Csharp::TypeParameter,
            252 => Csharp::BaseList2,
            253 => Csharp::TypeParameterConstraintsClause,
            254 => Csharp::TypeParameterConstraint,
            255 => Csharp::ConstructorConstraint,
            256 => Csharp::OperatorDeclaration,
            257 => Csharp::ConversionOperatorDeclaration,
            258 => Csharp::DeclarationList,
            259 => Csharp::Declaration,
            260 => Csharp::FieldDeclaration,
            261 => Csharp::ConstructorDeclaration,
            262 => Csharp::ConstructorDeclarationInitializer,
            263 => Csharp::DestructorDeclaration,
            264 => Csharp::MethodDeclaration,
            265 => Csharp::EventDeclaration,
            266 => Csharp::EventFieldDeclaration,
            267 => Csharp::AccessorList,
            268 => Csharp::AccessorDeclaration,
            269 => Csharp::IndexerDeclaration,
            270 => Csharp::BracketedParameterList,
            271 => Csharp::PropertyDeclaration,
            272 => Csharp::ExplicitInterfaceSpecifier,
            273 => Csharp::ParameterList,
            274 => Csharp::Parameter,
            275 => Csharp::ParameterArray,
            276 => Csharp::ConstructorInitializer,
            277 => Csharp::ArgumentList,
            278 => Csharp::TuplePattern,
            279 => Csharp::Argument,
            280 => Csharp::Block,
            281 => Csharp::ArrowExpressionClause,
            282 => Csharp::FunctionBody,
            283 => Csharp::VariableDeclaration,
            284 => Csharp::VariableDeclaration2,
            285 => Csharp::VariableDeclarator,
            286 => Csharp::VariableDeclarator2,
            287 => Csharp::BracketedArgumentList,
            288 => Csharp::Name,
            289 => Csharp::AliasQualifiedName,
            290 => Csharp::SimpleName,
            291 => Csharp::QualifiedName,
            292 => Csharp::GenericName,
            293 => Csharp::TypeArgumentList,
            294 => Csharp::Type2,
            295 => Csharp::ImplicitType,
            296 => Csharp::ArrayType,
            297 => Csharp::ArrayBaseType,
            298 => Csharp::ArrayRankSpecifier,
            299 => Csharp::NullableType,
            300 => Csharp::PointerType,
            301 => Csharp::PointerBaseType,
            302 => Csharp::FunctionPointerType,
            303 => Csharp::CallingConvention,
            304 => Csharp::FunctionPointerParameter,
            305 => Csharp::RefType,
            306 => Csharp::RefBaseType,
            307 => Csharp::ScopedType,
            308 => Csharp::ScopedBaseType,
            309 => Csharp::TupleType,
            310 => Csharp::TupleElement,
            311 => Csharp::Statement,
            312 => Csharp::BreakStatement,
            313 => Csharp::CheckedStatement,
            314 => Csharp::ContinueStatement,
            315 => Csharp::DoStatement,
            316 => Csharp::EmptyStatement,
            317 => Csharp::ExpressionStatement,
            318 => Csharp::FixedStatement,
            319 => Csharp::ForStatement,
            320 => Csharp::ForStatementConditions,
            321 => Csharp::ReturnStatement,
            322 => Csharp::LockStatement,
            323 => Csharp::YieldStatement,
            324 => Csharp::SwitchStatement,
            325 => Csharp::SwitchBody,
            326 => Csharp::SwitchSection,
            327 => Csharp::ThrowStatement,
            328 => Csharp::TryStatement,
            329 => Csharp::CatchClause,
            330 => Csharp::CatchDeclaration,
            331 => Csharp::CatchFilterClause,
            332 => Csharp::FinallyClause,
            333 => Csharp::UnsafeStatement,
            334 => Csharp::UsingStatement,
            335 => Csharp::ForeachStatement,
            336 => Csharp::ForeachStatementInitializer,
            337 => Csharp::GotoStatement,
            338 => Csharp::LabeledStatement,
            339 => Csharp::IfStatement,
            340 => Csharp::WhileStatement,
            341 => Csharp::LocalDeclarationStatement,
            342 => Csharp::LocalFunctionStatement,
            343 => Csharp::LocalFunctionDeclaration,
            344 => Csharp::Pattern,
            345 => Csharp::RecursivePattern,
            346 => Csharp::ConstantPattern,
            347 => Csharp::InvocationExpression,
            348 => Csharp::InvocationExpression2,
            349 => Csharp::ParenthesizedPattern,
            350 => Csharp::VarPattern,
            351 => Csharp::TypePattern,
            352 => Csharp::ListPattern,
            353 => Csharp::RecursivePattern2,
            354 => Csharp::PositionalPatternClause,
            355 => Csharp::PropertyPatternClause,
            356 => Csharp::Subpattern,
            357 => Csharp::RelationalPattern,
            358 => Csharp::NegatedPattern,
            359 => Csharp::AndPattern,
            360 => Csharp::OrPattern,
            361 => Csharp::DeclarationPattern,
            362 => Csharp::VariableDesignation,
            363 => Csharp::ParenthesizedVariableDesignation,
            364 => Csharp::Expression,
            365 => Csharp::NonLvalueExpression,
            366 => Csharp::LvalueExpression,
            367 => Csharp::ExpressionStatementExpression,
            368 => Csharp::AssignmentExpression,
            369 => Csharp::BinaryExpression,
            370 => Csharp::PostfixUnaryExpression,
            371 => Csharp::PrefixUnaryExpression,
            372 => Csharp::PrefixUnaryExpression2,
            373 => Csharp::QueryExpression,
            374 => Csharp::FromClause,
            375 => Csharp::QueryBody,
            376 => Csharp::QueryClause,
            377 => Csharp::JoinClause,
            378 => Csharp::JoinHeader,
            379 => Csharp::JoinBody,
            380 => Csharp::JoinIntoClause,
            381 => Csharp::LetClause,
            382 => Csharp::OrderByClause,
            383 => Csharp::Ordering,
            384 => Csharp::WhereClause,
            385 => Csharp::SelectOrGroupClause,
            386 => Csharp::GroupClause,
            387 => Csharp::SelectClause,
            388 => Csharp::ConditionalExpression,
            389 => Csharp::ConditionalAccessExpression,
            390 => Csharp::AsExpression,
            391 => Csharp::IsExpression,
            392 => Csharp::IsPatternExpression,
            393 => Csharp::CastExpression,
            394 => Csharp::CheckedExpression,
            395 => Csharp::InvocationExpression3,
            396 => Csharp::SwitchExpression,
            397 => Csharp::SwitchExpressionBody,
            398 => Csharp::SwitchExpressionArm,
            399 => Csharp::WhenClause,
            400 => Csharp::AwaitExpression,
            401 => Csharp::ThrowExpression,
            402 => Csharp::ElementAccessExpression,
            403 => Csharp::InterpolatedStringExpression,
            404 => Csharp::InterpolatedStringContent,
            405 => Csharp::InterpolatedVerbatimStringContent,
            406 => Csharp::InterpolatedRawStringContent,
            407 => Csharp::Interpolation,
            408 => Csharp::InterpolationAlignmentClause,
            409 => Csharp::InterpolationFormatClause,
            410 => Csharp::MemberAccessExpression,
            411 => Csharp::MemberBindingExpression,
            412 => Csharp::ObjectCreationExpression,
            413 => Csharp::ParenthesizedExpression,
            414 => Csharp::ParenthesizedExpression2,
            415 => Csharp::LambdaExpression,
            416 => Csharp::LambdaExpressionInit,
            417 => Csharp::LambdaParameters,
            418 => Csharp::ArrayCreationExpression,
            419 => Csharp::AnonymousMethodExpression,
            420 => Csharp::AnonymousObjectCreationExpression,
            421 => Csharp::AnonymousObjectMemberDeclarator,
            422 => Csharp::ImplicitArrayCreationExpression,
            423 => Csharp::ImplicitObjectCreationExpression,
            424 => Csharp::ImplicitStackallocExpression,
            425 => Csharp::CollectionExpression,
            426 => Csharp::CollectionElement,
            427 => Csharp::ExpressionElement,
            428 => Csharp::SpreadElement,
            429 => Csharp::InitializerExpression,
            430 => Csharp::DeclarationExpression,
            431 => Csharp::DefaultExpression,
            432 => Csharp::WithExpression,
            433 => Csharp::WithBody,
            434 => Csharp::WithInitializer,
            435 => Csharp::SizeofExpression,
            436 => Csharp::TypeofExpression,
            437 => Csharp::MakerefExpression,
            438 => Csharp::RefExpression,
            439 => Csharp::ReftypeExpression,
            440 => Csharp::RefvalueExpression,
            441 => Csharp::StackallocExpression,
            442 => Csharp::RangeExpression,
            443 => Csharp::TupleExpression,
            444 => Csharp::Literal,
            445 => Csharp::CharacterLiteral,
            446 => Csharp::StringLiteral,
            447 => Csharp::RawStringLiteral,
            448 => Csharp::BooleanLiteral,
            449 => Csharp::Identifier,
            450 => Csharp::ReservedIdentifier,
            451 => Csharp::PreprocIf,
            452 => Csharp::PreprocElse,
            453 => Csharp::PreprocElif,
            454 => Csharp::PreprocIf2,
            455 => Csharp::PreprocElse2,
            456 => Csharp::PreprocElif2,
            457 => Csharp::PreprocIf3,
            458 => Csharp::PreprocElse3,
            459 => Csharp::PreprocElif3,
            460 => Csharp::PreprocIf4,
            461 => Csharp::PreprocElse4,
            462 => Csharp::PreprocElif4,
            463 => Csharp::PreprocIfInAttributeList,
            464 => Csharp::PreprocElse5,
            465 => Csharp::PreprocElif5,
            466 => Csharp::PreprocExpression,
            467 => Csharp::ParenthesizedExpression3,
            468 => Csharp::UnaryExpression,
            469 => Csharp::BinaryExpression2,
            470 => Csharp::PreprocRegion,
            471 => Csharp::PreprocEndregion,
            472 => Csharp::PreprocLine,
            473 => Csharp::PreprocPragma,
            474 => Csharp::PreprocNullable,
            475 => Csharp::PreprocError,
            476 => Csharp::PreprocWarning,
            477 => Csharp::PreprocDefine,
            478 => Csharp::PreprocUndef,
            479 => Csharp::CompilationUnitRepeat1,
            480 => Csharp::UsingDirectiveRepeat1,
            481 => Csharp::GlobalAttributeRepeat1,
            482 => Csharp::AttributeArgumentListRepeat1,
            483 => Csharp::ClassDeclarationInitializerRepeat1,
            484 => Csharp::ClassDeclarationInitializerRepeat2,
            485 => Csharp::ClassDeclarationInitializerRepeat3,
            486 => Csharp::ClassDeclarationInitializerRepeat4,
            487 => Csharp::EnumMemberDeclarationListRepeat1,
            488 => Csharp::RecordDeclarationInitializerRepeat1,
            489 => Csharp::RecordBaseRepeat1,
            490 => Csharp::TypeParameterListRepeat1,
            491 => Csharp::BaseListRepeat1,
            492 => Csharp::TypeParameterConstraintsClauseRepeat1,
            493 => Csharp::ConversionOperatorDeclarationRepeat1,
            494 => Csharp::DeclarationListRepeat1,
            495 => Csharp::AccessorListRepeat1,
            496 => Csharp::BracketedParameterListRepeat1,
            497 => Csharp::ParameterTypeWithModifiersRepeat1,
            498 => Csharp::ArgumentListRepeat1,
            499 => Csharp::TuplePatternRepeat1,
            500 => Csharp::BlockRepeat1,
            501 => Csharp::VariableDeclarationRepeat1,
            502 => Csharp::UsingVariableDeclarationRepeat1,
            503 => Csharp::TypeArgumentListRepeat1,
            504 => Csharp::TypeArgumentListRepeat2,
            505 => Csharp::ArrayRankSpecifierRepeat1,
            506 => Csharp::FunctionPointerTypeRepeat1,
            507 => Csharp::CallingConventionRepeat1,
            508 => Csharp::TupleTypeRepeat1,
            509 => Csharp::ForStatementConditionsRepeat1,
            510 => Csharp::SwitchBodyRepeat1,
            511 => Csharp::TryStatementRepeat1,
            512 => Csharp::CatchClauseRepeat1,
            513 => Csharp::ListPatternRepeat1,
            514 => Csharp::PositionalPatternClauseRepeat1,
            515 => Csharp::ParenthesizedVariableDesignationRepeat1,
            516 => Csharp::QueryBodyRepeat1,
            517 => Csharp::QueryBodyRepeat2,
            518 => Csharp::OrderByClauseRepeat1,
            519 => Csharp::SwitchExpressionBodyRepeat1,
            520 => Csharp::InterpolatedStringExpressionRepeat1,
            521 => Csharp::InterpolatedStringExpressionRepeat2,
            522 => Csharp::InterpolatedStringExpressionRepeat3,
            523 => Csharp::LambdaExpressionInitRepeat1,
            524 => Csharp::AnonymousObjectCreationExpressionRepeat1,
            525 => Csharp::CollectionExpressionRepeat1,
            526 => Csharp::WithBodyRepeat1,
            527 => Csharp::StringLiteralRepeat1,
            528 => Csharp::PreprocIfInTopLevelRepeat1,
            529 => Csharp::PreprocPragmaRepeat1,
            530 => Csharp::ElementBindingExpression,
            531 => Csharp::ImplicitParameter,
            532 => Csharp::InterpolationQuote,
            _ => Csharp::Error,
        }
    }

    /// The display string of this kind.
    pub open spec fn text(self) -> Seq<char> {
        match self {
            Csharp::End => "end"@,
            Csharp::IdentifierToken => "_identifier_token"@,
            Csharp::Extern => "extern"@,
            Csharp::Alias => "alias"@,
            Csharp::SEMI => ";"@,
            Csharp::Global => "global"@,
            Csharp::Using => "using"@,
            Csharp::Unsafe => "unsafe"@,
            Csharp::EQ => "="@,
            Csharp::Static => "static"@,
            Csharp::LBRACK => "["@,
            Csharp::Assembly => "assembly"@,
            Csharp::Module => "module"@,
            Csharp::COLON => ":"@,
            Csharp::COMMA => ","@,
            Csharp::RBRACK => "]"@,
            Csharp::LPAREN => "("@,
            Csharp::RPAREN => ")"@,
            Csharp::Field => "field"@,
            Csharp::Event => "event"@,
            Csharp::Method => "method"@,
            Csharp::Param => "param"@,
            Csharp::Property => "property"@,
            Csharp::Return => "return"@,
            Csharp::Type => "type"@,
            Csharp::Typevar => "typevar"@,
            Csharp::Namespace => "namespace"@,
            Csharp::Class => "class"@,
            Csharp::Ref => "ref"@,
            Csharp::Struct => "struct"@,
            Csharp::Enum => "enum"@,
            Csharp::LBRACE => "{"@,
            Csharp::RBRACE => "}"@,
            Csharp::Interface => "interface"@,
            Csharp::Delegate => "delegate"@,
            Csharp::Record => "record"@,
            Csharp::Abstract => "abstract"@,
            Csharp::Async => "async"@,
            Csharp::Const => "const"@,
            Csharp::File => "file"@,
            Csharp::Fixed => "fixed"@,
            Csharp::Internal => "internal"@,
            Csharp::New => "new"@,
            Csharp::Override => "override"@,
            Csharp::Partial => "partial"@,
            Csharp::Private => "private"@,
            Csharp::Protected => "protected"@,
            Csharp::Public => "public"@,
            Csharp::Readonly => "readonly"@,
            Csharp::Required => "required"@,
            Csharp::Sealed => "sealed"@,
            Csharp::Virtual => "virtual"@,
            Csharp::Volatile => "volatile"@,
            Csharp::LT => "<"@,
            Csharp::GT => ">"@,
            Csharp::In => "in"@,
            Csharp::Out => "out"@,
            Csharp::Where => "where"@,
            Csharp::QMARK => "?"@,
            Csharp::Notnull => "notnull"@,
            Csharp::Unmanaged => "unmanaged"@,
            Csharp::Operator => "operator"@,
            Csharp::Checked => "checked"@,
            Csharp::BANG => "!"@,
            Csharp::TILDE => "~"@,
            Csharp::PLUSPLUS => "++"@,
            Csharp::DASHDASH => "--"@,
            Csharp::True => "true"@,
            Csharp::False => "false"@,
            Csharp::PLUS => "+"@,
            Csharp::DASH => "-"@,
            Csharp::STAR => "*"@,
            Csharp::SLASH => "/"@,
            Csharp::PERCENT => "%"@,
            Csharp::CARET => "^"@,
            Csharp::PIPE => "|"@,
            Csharp::AMP => "&"@,
            Csharp::LTLT => "<<"@,
            Csharp::GTGT => ">>"@,
            Csharp::GTGTGT => ">>>"@,
            Csharp::EQEQ => "=="@,
            Csharp::BANGEQ => "!="@,
            Csharp::GTEQ => ">="@,
            Csharp::LTEQ => "<="@,
            Csharp::Implicit => "implicit"@,
            Csharp::Explicit => "explicit"@,
            Csharp::Get => "get"@,
            Csharp::SetLiteral => "set"@,
            Csharp::Add => "add"@,
            Csharp::Remove => "remove"@,
            Csharp::Init => "init"@,
            Csharp::This => "this"@,
            Csharp::DOT => "."@,
            Csharp::Scoped => "scoped"@,
            Csharp::Params => "params"@,
            Csharp::Base => "base"@,
            Csharp::EQGT => "=>"@,
            Csharp::COLONCOLON => "::"@,
            Csharp::Var => "var"@,
            Csharp::Managed => "managed"@,
            Csharp::Cdecl => "Cdecl"@,
            Csharp::Stdcall => "Stdcall"@,
            Csharp::Thiscall => "Thiscall"@,
            Csharp::Fastcall => "Fastcall"@,
            Csharp::PredefinedType => "predefined_type"@,
            Csharp::Break => "break"@,
            Csharp::Unchecked => "unchecked"@,
            Csharp::Continue => "continue"@,
            Csharp::Do => "do"@,
            Csharp::While => "while"@,
            Csharp::For => "for"@,
            Csharp::Lock => "lock"@,
            Csharp::Yield => "yield"@,
            Csharp::Switch => "switch"@,
            Csharp::Case => "case"@,
            Csharp::Default => "default"@,
            Csharp::Throw => "throw"@,
            Csharp::Try => "try"@,
            Csharp::Catch => "catch"@,
            Csharp::When => "when"@,
            Csharp::Finally => "finally"@,
            Csharp::Await => "await"@,
            Csharp::Foreach => "foreach"@,
            Csharp::Goto => "goto"@,
            Csharp::If => "if"@,
            Csharp::Else => "else"@,
            Csharp::Discard => "discard"@,
            Csharp::DOTDOT => ".."@,
            Csharp::Not => "not"@,
            Csharp::And => "and"@,
            Csharp::Or => "or"@,
            Csharp::PLUSEQ => "+="@,
            Csharp::DASHEQ => "-="@,
            Csharp::STAREQ => "*="@,
            Csharp::SLASHEQ => "/="@,
            Csharp::PERCENTEQ => "%="@,
            Csharp::AMPEQ => "&="@,
            Csharp::CARETEQ => "^="@,
            Csharp::PIPEEQ => "|="@,
            Csharp::LTLTEQ => "<<="@,
            Csharp::GTGTEQ => ">>="@,
            Csharp::GTGTGTEQ => ">>>="@,
            Csharp::QMARKQMARKEQ => "??="@,
            Csharp::AMPAMP => "&&"@,
            Csharp::PIPEPIPE => "||"@,
            Csharp::QMARKQMARK => "??"@,
            Csharp::From => "from"@,
            Csharp::Into => "into"@,
            Csharp::Join => "join"@,
            Csharp::On => "on"@,
            Csharp::Equals => "equals"@,
            Csharp::Let => "let"@,
            Csharp::Orderby => "orderby"@,
            Csharp::Ascending => "ascending"@,
            Csharp::Descending => "descending"@,
            Csharp::Group => "group"@,
            Csharp::By => "by"@,
            Csharp::Select => "select"@,
            Csharp::As => "as"@,
            Csharp::Is => "is"@,
            Csharp::InterpolationFormatClauseToken1 => "interpolation_format_clause_token1"@,
            Csharp::DASHGT => "->"@,
            Csharp::Stackalloc => "stackalloc"@,
            Csharp::With => "with"@,
            Csharp::Sizeof => "sizeof"@,
            Csharp::Typeof => "typeof"@,
            Csharp::Makeref => "__makeref"@,
            Csharp::Reftype => "__reftype"@,
            Csharp::Refvalue => "__refvalue"@,
            Csharp::NullLiteral => "null_literal"@,
            Csharp::SQUOTE => "'"@,
            Csharp::CharacterLiteralContent => "character_literal_content"@,
            Csharp::IntegerLiteral => "integer_literal"@,
            Csharp::RealLiteral => "real_literal"@,
            Csharp::DQUOTE => "\""@,
            Csharp::StringLiteralContent => "string_literal_content"@,
            Csharp::EscapeSequence => "escape_sequence"@,
            Csharp::StringLiteralEncoding => "string_literal_encoding"@,
            Csharp::VerbatimStringLiteral => "verbatim_string_literal"@,
            Csharp::RawStringLiteralToken1 => "raw_string_literal_token1"@,
            Csharp::If2 => "#if"@,
            Csharp::PreprocIfToken2 => "preproc_if_token2"@,
            Csharp::Endif => "#endif"@,
            Csharp::Else2 => "#else"@,
            Csharp::Elif => "#elif"@,
            Csharp::PreprocArg => "preproc_arg"@,
            Csharp::Region => "#region"@,
            Csharp::Endregion => "#endregion"@,
            Csharp::Line => "#line"@,
            Csharp::Hidden => "hidden"@,
            Csharp::Pragma => "#pragma"@,
            Csharp::Warning => "warning"@,
            Csharp::Disable => "disable"@,
            Csharp::Restore => "restore"@,
            Csharp::Checksum => "checksum"@,
            Csharp::Nullable => "#nullable"@,
            Csharp::Enable => "enable"@,
            Csharp::Annotations => "annotations"@,
            Csharp::Warnings => "warnings"@,
            Csharp::Error2 => "#error"@,
            Csharp::Warning2 => "#warning"@,
            Csharp::Define => "#define"@,
            Csharp::Undef => "#undef"@,
            Csharp::ShebangDirective => "shebang_directive"@,
            Csharp::Comment => "comment"@,
            Csharp::OptionalSemi => "_optional_semi"@,
            Csharp::InterpolationStart => "interpolation_start"@,
            Csharp::InterpolationStart2 => "interpolation_start"@,
            Csharp::InterpolationStart3 => "interpolation_start"@,
            Csharp::DQUOTE2 => "\""@,
            Csharp::DQUOTE3 => "\""@,
            Csharp::InterpolationBrace => "interpolation_brace"@,
            Csharp::InterpolationBrace2 => "interpolation_brace"@,
            Csharp::StringContent => "string_content"@,
            Csharp::RawStringStart => "raw_string_start"@,
            Csharp::RawStringEnd => "raw_string_end"@,
            Csharp::RawStringContent => "raw_string_content"@,
            Csharp::CompilationUnit => "compilation_unit"@,
            Csharp::TopLevelItem => "_top_level_item"@,
            Csharp::GlobalStatement => "global_statement"@,
            Csharp::ExternAliasDirective => "extern_alias_directive"@,
            Csharp::UsingDirective => "using_directive"@,
            Csharp::GlobalAttribute => "global_attribute"@,
            Csharp::Attribute => "attribute"@,
            Csharp::AttributeArgumentList => "attribute_argument_list"@,
            Csharp::AttributeArgument => "attribute_argument"@,
            Csharp::AttributeList => "attribute_list"@,
            Csharp::AttributeList2 => "_attribute_list"@,
            Csharp::AttributeTargetSpecifier => "attribute_target_specifier"@,
            Csharp::NamespaceDeclaration => "namespace_declaration"@,
            Csharp::FileScopedNamespaceDeclaration => "file_scoped_namespace_declaration"@,
            Csharp::TypeDeclaration => "type_declaration"@,
            Csharp::ClassDeclaration => "class_declaration"@,
            Csharp::ClassDeclarationInitializer => "_class_declaration_initializer"@,
            Csharp::StructDeclaration => "struct_declaration"@,
            Csharp::StructDeclarationInitializer => "_struct_declaration_initializer"@,
            Csharp::EnumDeclaration => "enum_declaration"@,
            Csharp::EnumDeclarationInitializer => "_enum_declaration_initializer"@,
            Csharp::EnumMemberDeclarationList => "enum_member_declaration_list"@,
            Csharp::EnumMemberDeclaration => "enum_member_declaration"@,
            Csharp::InterfaceDeclaration => "interface_declaration"@,
            Csharp::InterfaceDeclarationInitializer => "_interface_declaration_initializer"@,
            Csharp::DelegateDeclaration => "delegate_declaration"@,
            Csharp::DelegateDeclarationInitializer => "_delegate_declaration_initializer"@,
            Csharp::RecordDeclaration => "record_declaration"@,
            Csharp::RecordDeclarationInitializer => "_record_declaration_initializer"@,
            Csharp::BaseList => "base_list"@,
            Csharp::DeclarationListBody => "_declaration_list_body"@,
            Csharp::PrimaryConstructorBaseType => "primary_constructor_base_type"@,
            Csharp::Modifier => "modifier"@,
            Csharp::TypeParameterList => "type_parameter_list"@,
            Csharp::TypeParameter => "type_parameter"@,
            Csharp::BaseList2 => "base_list"@,
            Csharp::TypeParameterConstraintsClause => "type_parameter_constraints_clause"@,
            Csharp::TypeParameterConstraint => "type_parameter_constraint"@,
            Csharp::ConstructorConstraint => "constructor_constraint"@,
            Csharp::OperatorDeclaration => "operator_declaration"@,
            Csharp::ConversionOperatorDeclaration => "conversion_operator_declaration"@,
            Csharp::DeclarationList => "declaration_list"@,
            Csharp::Declaration => "declaration"@,
            Csharp::FieldDeclaration => "field_declaration"@,
            Csharp::ConstructorDeclaration => "constructor_declaration"@,
            Csharp::ConstructorDeclarationInitializer => "_constructor_declaration_initializer"@,
            Csharp::DestructorDeclaration => "destructor_declaration"@,
            Csharp::MethodDeclaration => "method_declaration"@,
            Csharp::EventDeclaration => "event_declaration"@,
            Csharp::EventFieldDeclaration => "event_field_declaration"@,
            Csharp::AccessorList => "accessor_list"@,
            Csharp::AccessorDeclaration => "accessor_declaration"@,
            Csharp::IndexerDeclaration => "indexer_declaration"@,
            Csharp::BracketedParameterList => "bracketed_parameter_list"@,
            Csharp::PropertyDeclaration => "property_declaration"@,
            Csharp::ExplicitInterfaceSpecifier => "explicit_interface_specifier"@,
            Csharp::ParameterList => "parameter_list"@,
            Csharp::Parameter => "parameter"@,
            Csharp::ParameterArray => "_parameter_array"@,
            Csharp::ConstructorInitializer => "constructor_initializer"@,
            Csharp::ArgumentList => "argument_list"@,
            Csharp::TuplePattern => "tuple_pattern"@,
            Csharp::Argument => "argument"@,
            Csharp::Block => "block"@,
            Csharp::ArrowExpressionClause => "arrow_expression_clause"@,
            Csharp::FunctionBody => "_function_body"@,
            Csharp::VariableDeclaration => "variable_declaration"@,
            Csharp::VariableDeclaration2 => "variable_declaration"@,
            Csharp::VariableDeclarator => "variable_declarator"@,
            Csharp::VariableDeclarator2 => "variable_declarator"@,
            Csharp::BracketedArgumentList => "bracketed_argument_list"@,
            Csharp::Name => "_name"@,
            Csharp::AliasQualifiedName => "alias_qualified_name"@,
            Csharp::SimpleName => "_simple_name"@,
            Csharp::QualifiedName => "qualified_name"@,
            Csharp::GenericName => "generic_name"@,
            Csharp::TypeArgumentList => "type_argument_list"@,
            Csharp::Type2 => "type"@,
            Csharp::ImplicitType => "implicit_type"@,
            Csharp::ArrayType => "array_type"@,
            Csharp::ArrayBaseType => "_array_base_type"@,
            Csharp::ArrayRankSpecifier => "array_rank_specifier"@,
            Csharp::NullableType => "nullable_type"@,
            Csharp::PointerType => "pointer_type"@,
            Csharp::PointerBaseType => "_pointer_base_type"@,
            Csharp::FunctionPointerType => "function_pointer_type"@,
            Csharp::CallingConvention => "calling_convention"@,
            Csharp::FunctionPointerParameter => "function_pointer_parameter"@,
            Csharp::RefType => "ref_type"@,
            Csharp::RefBaseType => "_ref_base_type"@,
            Csharp::ScopedType => "scoped_type"@,
            Csharp::ScopedBaseType => "_scoped_base_type"@,
            Csharp::TupleType => "tuple_type"@,
            Csharp::TupleElement => "tuple_element"@,
            Csharp::Statement => "statement"@,
            Csharp::BreakStatement => "break_statement"@,
            Csharp::CheckedStatement => "checked_statement"@,
            Csharp::ContinueStatement => "continue_statement"@,
            Csharp::DoStatement => "do_statement"@,
            Csharp::EmptyStatement => "empty_statement"@,
            Csharp::ExpressionStatement => "expression_statement"@,
            Csharp::FixedStatement => "fixed_statement"@,
            Csharp::ForStatement => "for_statement"@,
            Csharp::ForStatementConditions => "_for_statement_conditions"@,
            Csharp::ReturnStatement => "return_statement"@,
            Csharp::LockStatement => "lock_statement"@,
            Csharp::YieldStatement => "yield_statement"@,
            Csharp::SwitchStatement => "switch_statement"@,
            Csharp::SwitchBody => "switch_body"@,
            Csharp::SwitchSection => "switch_section"@,
            Csharp::ThrowStatement => "throw_statement"@,
            Csharp::TryStatement => "try_statement"@,
            Csharp::CatchClause => "catch_clause"@,
            Csharp::CatchDeclaration => "catch_declaration"@,
            Csharp::CatchFilterClause => "catch_filter_clause"@,
            Csharp::FinallyClause => "finally_clause"@,
            Csharp::UnsafeStatement => "unsafe_statement"@,
            Csharp::UsingStatement => "using_statement"@,
            Csharp::ForeachStatement => "foreach_statement"@,
            Csharp::ForeachStatementInitializer => "_foreach_statement_initializer"@,
            Csharp::GotoStatement => "goto_statement"@,
            Csharp::LabeledStatement => "labeled_statement"@,
            Csharp::IfStatement => "if_statement"@,
            Csharp::WhileStatement => "while_statement"@,
            Csharp::LocalDeclarationStatement => "local_declaration_statement"@,
            Csharp::LocalFunctionStatement => "local_function_statement"@,
            Csharp::LocalFunctionDeclaration => "_local_function_declaration"@,
            Csharp::Pattern => "pattern"@,
            Csharp::RecursivePattern => "recursive_pattern"@,
            Csharp::ConstantPattern => "constant_pattern"@,
            Csharp::InvocationExpression => "invocation_expression"@,
            Csharp::InvocationExpression2 => "invocation_expression"@,
            Csharp::ParenthesizedPattern => "parenthesized_pattern"@,
            Csharp::VarPattern => "var_pattern"@,
            Csharp::TypePattern => "type_pattern"@,
            Csharp::ListPattern => "list_pattern"@,
            Csharp::RecursivePattern2 => "recursive_pattern"@,
            Csharp::PositionalPatternClause => "positional_pattern_clause"@,
            Csharp::PropertyPatternClause => "property_pattern_clause"@,
            Csharp::Subpattern => "subpattern"@,
            Csharp::RelationalPattern => "relational_pattern"@,
            Csharp::NegatedPattern => "negated_pattern"@,
            Csharp::AndPattern => "and_pattern"@,
            Csharp::OrPattern => "or_pattern"@,
            Csharp::DeclarationPattern => "declaration_pattern"@,
            Csharp::VariableDesignation => "_variable_designation"@,
            Csharp::ParenthesizedVariableDesignation => "parenthesized_variable_designation"@,
            Csharp::Expression => "expression"@,
            Csharp::NonLvalueExpression => "non_lvalue_expression"@,
            Csharp::LvalueExpression => "lvalue_expression"@,
            Csharp::ExpressionStatementExpression => "_expression_statement_expression"@,
            Csharp::AssignmentExpression => "assignment_expression"@,
            Csharp::BinaryExpression => "binary_expression"@,
            Csharp::PostfixUnaryExpression => "postfix_unary_expression"@,
            Csharp::PrefixUnaryExpression => "prefix_unary_expression"@,
            Csharp::PrefixUnaryExpression2 => "prefix_unary_expression"@,
            Csharp::QueryExpression => "query_expression"@,
            Csharp::FromClause => "from_clause"@,
            Csharp::QueryBody => "_query_body"@,
            Csharp::QueryClause => "_query_clause"@,
            Csharp::JoinClause => "join_clause"@,
            Csharp::JoinHeader => "_join_header"@,
            Csharp::JoinBody => "_join_body"@,
            Csharp::JoinIntoClause => "join_into_clause"@,
            Csharp::LetClause => "let_clause"@,
            Csharp::OrderByClause => "order_by_clause"@,
            Csharp::Ordering => "_ordering"@,
            Csharp::WhereClause => "where_clause"@,
            Csharp::SelectOrGroupClause => "_select_or_group_clause"@,
            Csharp::GroupClause => "group_clause"@,
            Csharp::SelectClause => "select_clause"@,
            Csharp::ConditionalExpression => "conditional_expression"@,
            Csharp::ConditionalAccessExpression => "conditional_access_expression"@,
            Csharp::AsExpression => "as_expression"@,
            Csharp::IsExpression => "is_expression"@,
            Csharp::IsPatternExpression => "is_pattern_expression"@,
            Csharp::CastExpression => "cast_expression"@,
            Csharp::CheckedExpression => "checked_expression"@,
            Csharp::InvocationExpression3 => "invocation_expression"@,
            Csharp::SwitchExpression => "switch_expression"@,
            Csharp::SwitchExpressionBody => "_switch_expression_body"@,
            Csharp::SwitchExpressionArm => "switch_expression_arm"@,
            Csharp::WhenClause => "when_clause"@,
            Csharp::AwaitExpression => "await_expression"@,
            Csharp::ThrowExpression => "throw_expression"@,
            Csharp::ElementAccessExpression => "element_access_expression"@,
            Csharp::InterpolatedStringExpression => "interpolated_string_expression"@,
            Csharp::InterpolatedStringContent => "_interpolated_string_content"@,
            Csharp::InterpolatedVerbatimStringContent => "_interpolated_verbatim_string_content"@,
            Csharp::InterpolatedRawStringContent => "_interpolated_raw_string_content"@,
            Csharp::Interpolation => "interpolation"@,
            Csharp::InterpolationAlignmentClause => "interpolation_alignment_clause"@,
            Csharp::InterpolationFormatClause => "interpolation_format_clause"@,
            Csharp::MemberAccessExpression => "member_access_expression"@,
            Csharp::MemberBindingExpression => "member_binding_expression"@,
            Csharp::ObjectCreationExpression => "object_creation_expression"@,
            Csharp::ParenthesizedExpression => "parenthesized_expression"@,
            Csharp::ParenthesizedExpression2 => "parenthesized_expression"@,
            Csharp::LambdaExpression => "lambda_expression"@,
            Csharp::LambdaExpressionInit => "_lambda_expression_init"@,
            Csharp::LambdaParameters => "_lambda_parameters"@,
            Csharp::ArrayCreationExpression => "array_creation_expression"@,
            Csharp::AnonymousMethodExpression => "anonymous_method_expression"@,
            Csharp::AnonymousObjectCreationExpression => "anonymous_object_creation_expression"@,
            Csharp::AnonymousObjectMemberDeclarator => "_anonymous_object_member_declarator"@,
            Csharp::ImplicitArrayCreationExpression => "implicit_array_creation_expression"@,
            Csharp::ImplicitObjectCreationExpression => "implicit_object_creation_expression"@,
            Csharp::ImplicitStackallocExpression => "implicit_stackalloc_expression"@,
            Csharp::CollectionExpression => "collection_expression"@,
            Csharp::CollectionElement => "collection_element"@,
            Csharp::ExpressionElement => "expression_element"@,
            Csharp::SpreadElement => "spread_element"@,
            Csharp::InitializerExpression => "initializer_expression"@,
            Csharp::DeclarationExpression => "declaration_expression"@,
            Csharp::DefaultExpression => "default_expression"@,
            Csharp::WithExpression => "with_expression"@,
            Csharp::WithBody => "_with_body"@,
            Csharp::WithInitializer => "with_initializer"@,
            Csharp::SizeofExpression => "sizeof_expression"@,
            Csharp::TypeofExpression => "typeof_expression"@,
            Csharp::MakerefExpression => "makeref_expression"@,
            Csharp::RefExpression => "ref_expression"@,
            Csharp::ReftypeExpression => "reftype_expression"@,
            Csharp::RefvalueExpression => "refvalue_expression"@,
            Csharp::StackallocExpression => "stackalloc_expression"@,
            Csharp::RangeExpression => "range_expression"@,
            Csharp::TupleExpression => "tuple_expression"@,
            Csharp::Literal => "literal"@,
            Csharp::CharacterLiteral => "character_literal"@,
            Csharp::StringLiteral => "string_literal"@,
            Csharp::RawStringLiteral => "raw_string_literal"@,
            Csharp::BooleanLiteral => "boolean_literal"@,
            Csharp::Identifier => "identifier"@,
            Csharp::ReservedIdentifier => "_reserved_identifier"@,
            Csharp::PreprocIf => "preproc_if"@,
            Csharp::PreprocElse => "preproc_else"@,
            Csharp::PreprocElif => "preproc_elif"@,
            Csharp::PreprocIf2 => "preproc_if"@,
            Csharp::PreprocElse2 => "preproc_else"@,
            Csharp::PreprocElif2 => "preproc_elif"@,
            Csharp::PreprocIf3 => "preproc_if"@,
            Csharp::PreprocElse3 => "preproc_else"@,
            Csharp::PreprocElif3 => "preproc_elif"@,
            Csharp::PreprocIf4 => "preproc_if"@,
            Csharp::PreprocElse4 => "preproc_else"@,
            Csharp::PreprocElif4 => "preproc_elif"@,
            Csharp::PreprocIfInAttributeList => "preproc_if_in_attribute_list"@,
            Csharp::PreprocElse5 => "preproc_else"@,
            Csharp::PreprocElif5 => "preproc_elif"@,
            Csharp::PreprocExpression => "_preproc_expression"@,
            Csharp::ParenthesizedExpression3 => "parenthesized_expression"@,
            Csharp::UnaryExpression => "unary_expression"@,
            Csharp::BinaryExpression2 => "binary_expression"@,
            Csharp::PreprocRegion => "preproc_region"@,
            Csharp::PreprocEndregion => "preproc_endregion"@,
            Csharp::PreprocLine => "preproc_line"@,
            Csharp::PreprocPragma => "preproc_pragma"@,
            Csharp::PreprocNullable => "preproc_nullable"@,
            Csharp::PreprocError => "preproc_error"@,
            Csharp::PreprocWarning => "preproc_warning"@,
            Csharp::PreprocDefine => "preproc_define"@,
            Csharp::PreprocUndef => "preproc_undef"@,
            Csharp::CompilationUnitRepeat1 => "compilation_unit_repeat1"@,
            Csharp::UsingDirectiveRepeat1 => "using_directive_repeat1"@,
            Csharp::GlobalAttributeRepeat1 => "global_attribute_repeat1"@,
            Csharp::AttributeArgumentListRepeat1 => "attribute_argument_list_repeat1"@,
            Csharp::ClassDeclarationInitializerRepeat1 => "_class_declaration_initializer_repeat1"@,
            Csharp::ClassDeclarationInitializerRepeat2 => "_class_declaration_initializer_repeat2"@,
            Csharp::ClassDeclarationInitializerRepeat3 => "_class_declaration_initializer_repeat3"@,
            Csharp::ClassDeclarationInitializerRepeat4 => "_class_declaration_initializer_repeat4"@,
            Csharp::EnumMemberDeclarationListRepeat1 => "enum_member_declaration_list_repeat1"@,
            Csharp::RecordDeclarationInitializerRepeat1 => "_record_declaration_initializer_repeat1"@,
            Csharp::RecordBaseRepeat1 => "record_base_repeat1"@,
            Csharp::TypeParameterListRepeat1 => "type_parameter_list_repeat1"@,
            Csharp::BaseListRepeat1 => "base_list_repeat1"@,
            Csharp::TypeParameterConstraintsClauseRepeat1 => "type_parameter_constraints_clause_repeat1"@,
            Csharp::ConversionOperatorDeclarationRepeat1 => "conversion_operator_declaration_repeat1"@,
            Csharp::DeclarationListRepeat1 => "declaration_list_repeat1"@,
            Csharp::AccessorListRepeat1 => "accessor_list_repeat1"@,
            Csharp::BracketedParameterListRepeat1 => "bracketed_parameter_list_repeat1"@,
            Csharp::ParameterTypeWithModifiersRepeat1 => "_parameter_type_with_modifiers_repeat1"@,
            Csharp::ArgumentListRepeat1 => "argument_list_repeat1"@,
            Csharp::TuplePatternRepeat1 => "tuple_pattern_repeat1"@,
            Csharp::BlockRepeat1 => "block_repeat1"@,
            Csharp::VariableDeclarationRepeat1 => "variable_declaration_repeat1"@,
            Csharp::UsingVariableDeclarationRepeat1 => "using_variable_declaration_repeat1"@,
            Csharp::TypeArgumentListRepeat1 => "type_argument_list_repeat1"@,
            Csharp::TypeArgumentListRepeat2 => "type_argument_list_repeat2"@,
            Csharp::ArrayRankSpecifierRepeat1 => "array_rank_specifier_repeat1"@,
            Csharp::FunctionPointerTypeRepeat1 => "function_pointer_type_repeat1"@,
            Csharp::CallingConventionRepeat1 => "calling_convention_repeat1"@,
            Csharp::TupleTypeRepeat1 => "tuple_type_repeat1"@,
            Csharp::ForStatementConditionsRepeat1 => "_for_statement_conditions_repeat1"@,
            Csharp::SwitchBodyRepeat1 => "switch_body_repeat1"@,
            Csharp::TryStatementRepeat1 => "try_statement_repeat1"@,
            Csharp::CatchClauseRepeat1 => "catch_clause_repeat1"@,
            Csharp::ListPatternRepeat1 => "list_pattern_repeat1"@,
            Csharp::PositionalPatternClauseRepeat1 => "positional_pattern_clause_repeat1"@,
            Csharp::ParenthesizedVariableDesignationRepeat1 => "parenthesized_variable_designation_repeat1"@,
            Csharp::QueryBodyRepeat1 => "_query_body_repeat1"@,
            Csharp::QueryBodyRepeat2 => "_query_body_repeat2"@,
            Csharp::OrderByClauseRepeat1 => "order_by_clause_repeat1"@,
            Csharp::SwitchExpressionBodyRepeat1 => "_switch_expression_body_repeat1"@,
            Csharp::InterpolatedStringExpressionRepeat1 => "interpolated_string_expression_repeat1"@,
            Csharp::InterpolatedStringExpressionRepeat2 => "interpolated_string_expression_repeat2"@,
            Csharp::InterpolatedStringExpressionRepeat3 => "interpolated_string_expression_repeat3"@,
            Csharp::LambdaExpressionInitRepeat1 => "_lambda_expression_init_repeat1"@,
            Csharp::AnonymousObjectCreationExpressionRepeat1 => "anonymous_object_creation_expression_repeat1"@,
            Csharp::CollectionExpressionRepeat1 => "collection_expression_repeat1"@,
            Csharp::WithBodyRepeat1 => "_with_body_repeat1"@,
            Csharp::StringLiteralRepeat1 => "string_literal_repeat1"@,
            Csharp::PreprocIfInTopLevelRepeat1 => "preproc_if_in_top_level_repeat1"@,
            Csharp::PreprocPragmaRepeat1 => "preproc_pragma_repeat1"@,
            Csharp::ElementBindingExpression => "element_binding_expression"@,
            Csharp::ImplicitParameter => "implicit_parameter"@,
            Csharp::InterpolationQuote => "interpolation_quote"@,
            Csharp::Error => "ERROR"@,
        }
    }

    /// Maps a numeric kind id to its kind; an id outside the table maps to `Error`.
    pub fn from_u16(x: u16) -> (r: Csharp)
        ensures
            r == Csharp::spec_from_id(x),
            x > 533 ==> r == Csharp::Error,
    {
        match x {
            0 => Csharp::End,
            1 => Csharp::IdentifierToken,
            2 => Csharp::Extern,
            3 => Csharp::Alias,
            4 => Csharp::SEMI,
            5 => Csharp::Global,
            6 => Csharp::Using,
            7 => Csharp::Unsafe,
            8 => Csharp::EQ,
            9 => Csharp::Static,
            10 => Csharp::LBRACK,
            11 => Csharp::Assembly,
            12 => Csharp::Module,
            13 => Csharp::COLON,
            14 => Csharp::COMMA,
            15 => Csharp::RBRACK,
            16 => Csharp::LPAREN,
            17 => Csharp::RPAREN,
            18 => Csharp::Field,
            19 => Csharp::Event,
            20 => Csharp::Method,
            21 => Csharp::Param,
            22 => Csharp::Property,
            23 => Csharp::Return,
            24 => Csharp::Type,
            25 => Csharp::Typevar,
            26 => Csharp::Namespace,
            27 => Csharp::Class,
            28 => Csharp::Ref,
            29 => Csharp::Struct,
            30 => Csharp::Enum,
            31 => Csharp::LBRACE,
            32 => Csharp::RBRACE,
            33 => Csharp::Interface,
            34 => Csharp::Delegate,
            35 => Csharp::Record,
            36 => Csharp::Abstract,
            37 => Csharp::Async,
            38 => Csharp::Const,
            39 => Csharp::File,
            40 => Csharp::Fixed,
            41 => Csharp::Internal,
            42 => Csharp::New,
            43 => Csharp::Override,
            44 => Csharp::Partial,
            45 => Csharp::Private,
            46 => Csharp::Protected,
            47 => Csharp::Public,
            48 => Csharp::Readonly,
            49 => Csharp::Required,
            50 => Csharp::Sealed,
            51 => Csharp::Virtual,
            52 => Csharp::Volatile,
            53 => Csharp::LT,
            54 => Csharp::GT,
            55 => Csharp::In,
            56 => Csharp::Out,
            57 => Csharp::Where,
            58 => Csharp::QMARK,
            59 => Csharp::Notnull,
            60 => Csharp::Unmanaged,
            61 => Csharp::Operator,
            62 => Csharp::Checked,
            63 => Csharp::BANG,
            64 => Csharp::TILDE,
            65 => Csharp::PLUSPLUS,
            66 => Csharp::DASHDASH,
            67 => Csharp::True,
            68 => Csharp::False,
            69 => Csharp::PLUS,
            70 => Csharp::DASH,
            71 => Csharp::STAR,
            72 => Csharp::SLASH,
            73 => Csharp::PERCENT,
            74 => Csharp::CARET,
            75 => Csharp::PIPE,
            76 => Csharp::AMP,
            77 => Csharp::LTLT,
            78 => Csharp::GTGT,
            79 => Csharp::GTGTGT,
            80 => Csharp::EQEQ,
            81 => Csharp::BANGEQ,
            82 => Csharp::GTEQ,
            83 => Csharp::LTEQ,
            84 => Csharp::Implicit,
            85 => Csharp::Explicit,
            86 => Csharp::Get,
            87 => Csharp::SetLiteral,
            88 => Csharp::Add,
            89 => Csharp::Remove,
            90 => Csharp::Init,
            91 => Csharp::This,
            92 => Csharp::DOT,
            93 => Csharp::Scoped,
            94 => Csharp::Params,
            95 => Csharp::Base,
            96 => Csharp::EQGT,
            97 => Csharp::COLONCOLON,
            98 => Csharp::Var,
            99 => Csharp::Managed,
            100 => Csharp::Cdecl,
            101 => Csharp::Stdcall,
            102 => Csharp::Thiscall,
            103 => Csharp::Fastcall,
            104 => Csharp::PredefinedType,
            105 => Csharp::Break,
            106 => Csharp::Unchecked,
            107 => Csharp::Continue,
            108 => Csharp::Do,
            109 => Csharp::While,
            110 => Csharp::For,
            111 => Csharp::Lock,
            112 => Csharp::Yield,
            113 => Csharp::Switch,
            114 => Csharp::Case,
            115 => Csharp::Default,
            116 => Csharp::Throw,
            117 => Csharp::Try,
            118 => Csharp::Catch,
            119 => Csharp::When,
            120 => Csharp::Finally,
            121 => Csharp::Await,
            122 => Csharp::Foreach,
            123 => Csharp::Goto,
            124 => Csharp::If,
            125 => Csharp::Else,
            126 => Csharp::Discard,
            127 => Csharp::DOTDOT,
            128 => Csharp::Not,
            129 => Csharp::And,
            130 => Csharp::Or,
            131 => Csharp::PLUSEQ,
            132 => Csharp::DASHEQ,
            133 => Csharp::STAREQ,
            134 => Csharp::SLASHEQ,
            135 => Csharp::PERCENTEQ,
            136 => Csharp::AMPEQ,
            137 => Csharp::CARETEQ,
            138 => Csharp::PIPEEQ,
            139 => Csharp::LTLTEQ,
            140 => Csharp::GTGTEQ,
            141 => Csharp::GTGTGTEQ,
            142 => Csharp::QMARKQMARKEQ,
            143 => Csharp::AMPAMP,
            144 => Csharp::PIPEPIPE,
            145 => Csharp::QMARKQMARK,
            146 => Csharp::From,
            147 => Csharp::Into,
            148 => Csharp::Join,
            149 => Csharp::On,
            150 => Csharp::Equals,
            151 => Csharp::Let,
            152 => Csharp::Orderby,
            153 => Csharp::Ascending,
            154 => Csharp::Descending,
            155 => Csharp::Group,
            156 => Csharp::By,
            157 => Csharp::Select,
            158 => Csharp::As,
            159 => Csharp::Is,
            160 => Csharp::InterpolationFormatClauseToken1,
            161 => Csharp::DASHGT,
            162 => Csharp::Stackalloc,
            163 => Csharp::With,
            164 => Csharp::Sizeof,
            165 => Csharp::Typeof,
            166 => Csharp::Makeref,
            167 => Csharp::Reftype,
            168 => Csharp::Refvalue,
            169 => Csharp::NullLiteral,
            170 => Csharp::SQUOTE,
            171 => Csharp::CharacterLiteralContent,
            172 => Csharp::IntegerLiteral,
            173 => Csharp::RealLiteral,
            174 => Csharp::DQUOTE,
            175 => Csharp::StringLiteralContent,
            176 => Csharp::EscapeSequence,
            177 => Csharp::StringLiteralEncoding,
            178 => Csharp::VerbatimStringLiteral,
            179 => Csharp::RawStringLiteralToken1,
            180 => Csharp::If2,
            181 => Csharp::PreprocIfToken2,
            182 => Csharp::Endif,
            183 => Csharp::Else2,
            184 => Csharp::Elif,
            185 => Csharp::PreprocArg,
            186 => Csharp::Region,
            187 => Csharp::Endregion,
            188 => Csharp::Line,
            189 => Csharp::Hidden,
            190 => Csharp::Pragma,
            191 => Csharp::Warning,
            192 => Csharp::Disable,
            193 => Csharp::Restore,
            194 => Csharp::Checksum,
            195 => Csharp::Nullable,
            196 => Csharp::Enable,
            197 => Csharp::Annotations,
            198 => Csharp::Warnings,
            199 => Csharp::Error2,
            200 => Csharp::Warning2,
            201 => Csharp::Define,
            202 => Csharp::Undef,
            203 => Csharp::ShebangDirective,
            204 => Csharp::Comment,
            205 => Csharp::OptionalSemi,
            206 => Csharp::InterpolationStart,
            207 => Csharp::InterpolationStart2,
            208 => Csharp::InterpolationStart3,
            209 => Csharp::DQUOTE2,
            210 => Csharp::DQUOTE3,
            211 => Csharp::InterpolationBrace,
            212 => Csharp::InterpolationBrace2,
            213 => Csharp::StringContent,
            214 => Csharp::RawStringStart,
            215 => Csharp::RawStringEnd,
            216 => Csharp::RawStringContent,
            217 => Csharp::CompilationUnit,
            218 => Csharp::TopLevelItem,
            219 => Csharp::GlobalStatement,
            220 => Csharp::ExternAliasDirective,
            221 => Csharp::UsingDirective,
            222 => Csharp::GlobalAttribute,
            223 => Csharp::Attribute,
            224 => Csharp::AttributeArgumentList,
            225 => Csharp::AttributeArgument,
            226 => Csharp::AttributeList,
            227 => Csharp::AttributeList2,
            228 => Csharp::AttributeTargetSpecifier,
            229 => Csharp::NamespaceDeclaration,
            230 => Csharp::FileScopedNamespaceDeclaration,
            231 => Csharp::TypeDeclaration,
            232 => Csharp::ClassDeclaration,
            233 => Csharp::ClassDeclarationInitializer,
            234 => Csharp::StructDeclaration,
            235 => Csharp::StructDeclarationInitializer,
            236 => Csharp::EnumDeclaration,
            237 => Csharp::EnumDeclarationInitializer,
            238 => Csharp::EnumMemberDeclarationList,
            239 => Csharp::EnumMemberDeclaration,
            240 => Csharp::InterfaceDeclaration,
            241 => Csharp::InterfaceDeclarationInitializer,
            242 => Csharp::DelegateDeclaration,
            243 => Csharp::DelegateDeclarationInitializer,
            244 => Csharp::RecordDeclaration,
            245 => Csharp::RecordDeclarationInitializer,
            246 => Csharp::BaseList,
            247 => Csharp::DeclarationListBody,
            248 => Csharp::PrimaryConstructorBaseType,
            249 => Csharp::Modifier,
            250 => Csharp::TypeParameterList,
            251 => Csharp::TypeParameter,
            252 => Csharp::BaseList2,
            253 => Csharp::TypeParameterConstraintsClause,
            254 => Csharp::TypeParameterConstraint,
            255 => Csharp::ConstructorConstraint,
            256 => Csharp::OperatorDeclaration,
            257 => Csharp::ConversionOperatorDeclaration,
            258 => Csharp::DeclarationList,
            259 => Csharp::Declaration,
            260 => Csharp::FieldDeclaration,
            261 => Csharp::ConstructorDeclaration,
            262 => Csharp::ConstructorDeclarationInitializer,
            263 => Csharp::DestructorDeclaration,
            264 => Csharp::MethodDeclaration,
            265 => Csharp::EventDeclaration,
            266 => Csharp::EventFieldDeclaration,
            267 => Csharp::AccessorList,
            268 => Csharp::AccessorDeclaration,
            269 => Csharp::IndexerDeclaration,
            270 => Csharp::BracketedParameterList,
            271 => Csharp::PropertyDeclaration,
            272 => Csharp::ExplicitInterfaceSpecifier,
            273 => Csharp::ParameterList,
            274 => Csharp::Parameter,
            275 => Csharp::ParameterArray,
            276 => Csharp::ConstructorInitializer,
            277 => Csharp::ArgumentList,
            278 => Csharp::TuplePattern,
            279 => Csharp::Argument,
            280 => Csharp::Block,
            281 => Csharp::ArrowExpressionClause,
            282 => Csharp::FunctionBody,
            283 => Csharp::VariableDeclaration,
            284 => Csharp::VariableDeclaration2,
            285 => Csharp::VariableDeclarator,
            286 => Csharp::VariableDeclarator2,
            287 => Csharp::BracketedArgumentList,
            288 => Csharp::Name,
            289 => Csharp::AliasQualifiedName,
            290 => Csharp::SimpleName,
            291 => Csharp::QualifiedName,
            292 => Csharp::GenericName,
            293 => Csharp::TypeArgumentList,
            294 => Csharp::Type2,
            295 => Csharp::ImplicitType,
            296 => Csharp::ArrayType,
            297 => Csharp::ArrayBaseType,
            298 => Csharp::ArrayRankSpecifier,
            299 => Csharp::NullableType,
            300 => Csharp::PointerType,
            301 => Csharp::PointerBaseType,
            302 => Csharp::FunctionPointerType,
            303 => Csharp::CallingConvention,
            304 => Csharp::FunctionPointerParameter,
            305 => Csharp::RefType,
            306 => Csharp::RefBaseType,
            307 => Csharp::ScopedType,
            308 => Csharp::ScopedBaseType,
            309 => Csharp::TupleType,
            310 => Csharp::TupleElement,
            311 => Csharp::Statement,
            312 => Csharp::BreakStatement,
            313 => Csharp::CheckedStatement,
            314 => Csharp::ContinueStatement,
            315 => Csharp::DoStatement,
            316 => Csharp::EmptyStatement,
            317 => Csharp::ExpressionStatement,
            318 => Csharp::FixedStatement,
            319 => Csharp::ForStatement,
            320 => Csharp::ForStatementConditions,
            321 => Csharp::ReturnStatement,
            322 => Csharp::LockStatement,
            323 => Csharp::YieldStatement,
            324 => Csharp::SwitchStatement,
            325 => Csharp::SwitchBody,
            326 => Csharp::SwitchSection,
            327 => Csharp::ThrowStatement,
            328 => Csharp::TryStatement,
            329 => Csharp::CatchClause,
            330 => Csharp::CatchDeclaration,
            331 => Csharp::CatchFilterClause,
            332 => Csharp::FinallyClause,
            333 => Csharp::UnsafeStatement,
            334 => Csharp::UsingStatement,
            335 => Csharp::ForeachStatement,
            336 => Csharp::ForeachStatementInitializer,
            337 => Csharp::GotoStatement,
            338 => Csharp::LabeledStatement,
            339 => Csharp::IfStatement,
            340 => Csharp::WhileStatement,
            341 => Csharp::LocalDeclarationStatement,
            342 => Csharp::LocalFunctionStatement,
            343 => Csharp::LocalFunctionDeclaration,
            344 => Csharp::Pattern,
            345 => Csharp::RecursivePattern,
            346 => Csharp::ConstantPattern,
            347 => Csharp::InvocationExpression,
            348 => Csharp::InvocationExpression2,
            349 => Csharp::ParenthesizedPattern,
            350 => Csharp::VarPattern,
            351 => Csharp::TypePattern,
            352 => Csharp::ListPattern,
            353 => Csharp::RecursivePattern2,
            354 => Csharp::PositionalPatternClause,
            355 => Csharp::PropertyPatternClause,
            356 => Csharp::Subpattern,
            357 => Csharp::RelationalPattern,
            358 => Csharp::NegatedPattern,
            359 => Csharp::AndPattern,
            360 => Csharp::OrPattern,
            361 => Csharp::DeclarationPattern,
            362 => Csharp::VariableDesignation,
            363 => Csharp::ParenthesizedVariableDesignation,
            364 => Csharp::Expression,
            365 => Csharp::NonLvalueExpression,
            366 => Csharp::LvalueExpression,
            367 => Csharp::ExpressionStatementExpression,
            368 => Csharp::AssignmentExpression,
            369 => Csharp::BinaryExpression,
            370 => Csharp::PostfixUnaryExpression,
            371 => Csharp::PrefixUnaryExpression,
            372 => Csharp::PrefixUnaryExpression2,
            373 => Csharp::QueryExpression,
            374 => Csharp::FromClause,
            375 => Csharp::QueryBody,
            376 => Csharp::QueryClause,
            377 => Csharp::JoinClause,
            378 => Csharp::JoinHeader,
            379 => Csharp::JoinBody,
            380 => Csharp::JoinIntoClause,
            381 => Csharp::LetClause,
            382 => Csharp::OrderByClause,
            383 => Csharp::Ordering,
            384 => Csharp::WhereClause,
            385 => Csharp::SelectOrGroupClause,
            386 => Csharp::GroupClause,
            387 => Csharp::SelectClause,
            388 => Csharp::ConditionalExpression,
            389 => Csharp::ConditionalAccessExpression,
            390 => Csharp::AsExpression,
            391 => Csharp::IsExpression,
            392 => Csharp::IsPatternExpression,
            393 => Csharp::CastExpression,
            394 => Csharp::CheckedExpression,
            395 => Csharp::InvocationExpression3,
            396 => Csharp::SwitchExpression,
            397 => Csharp::SwitchExpressionBody,
            398 => Csharp::SwitchExpressionArm,
            399 => Csharp::WhenClause,
            400 => Csharp::AwaitExpression,
            401 => Csharp::ThrowExpression,
            402 => Csharp::ElementAccessExpression,
            403 => Csharp::InterpolatedStringExpression,
            404 => Csharp::InterpolatedStringContent,
            405 => Csharp::InterpolatedVerbatimStringContent,
            406 => Csharp::InterpolatedRawStringContent,
            407 => Csharp::Interpolation,
            408 => Csharp::InterpolationAlignmentClause,
            409 => Csharp::InterpolationFormatClause,
            410 => Csharp::MemberAccessExpression,
            411 => Csharp::MemberBindingExpression,
            412 => Csharp::ObjectCreationExpression,
            413 => Csharp::ParenthesizedExpression,
            414 => Csharp::ParenthesizedExpression2,
            415 => Csharp::LambdaExpression,
            416 => Csharp::LambdaExpressionInit,
            417 => Csharp::LambdaParameters,
            418 => Csharp::ArrayCreationExpression,
            419 => Csharp::AnonymousMethodExpression,
            420 => Csharp::AnonymousObjectCreationExpression,
            421 => Csharp::AnonymousObjectMemberDeclarator,
            422 => Csharp::ImplicitArrayCreationExpression,
            423 => Csharp::ImplicitObjectCreationExpression,
            424 => Csharp::ImplicitStackallocExpression,
            425 => Csharp::CollectionExpression,
            426 => Csharp::CollectionElement,
            427 => Csharp::ExpressionElement,
            428 => Csharp::SpreadElement,
            429 => Csharp::InitializerExpression,
            430 => Csharp::DeclarationExpression,
            431 => Csharp::DefaultExpression,
            432 => Csharp::WithExpression,
            433 => Csharp::WithBody,
            434 => Csharp::WithInitializer,
            435 => Csharp::SizeofExpression,
            436 => Csharp::TypeofExpression,
            437 => Csharp::MakerefExpression,
            438 => Csharp::RefExpression,
            439 => Csharp::ReftypeExpression,
            440 => Csharp::RefvalueExpression,
            441 => Csharp::StackallocExpression,
            442 => Csharp::RangeExpression,
            443 => Csharp::TupleExpression,
            444 => Csharp::Literal,
            445 => Csharp::CharacterLiteral,
            446 => Csharp::StringLiteral,
            447 => Csharp::RawStringLiteral,
            448 => Csharp::BooleanLiteral,
            449 => Csharp::Identifier,
            450 => Csharp::ReservedIdentifier,
            451 => Csharp::PreprocIf,
            452 => Csharp::PreprocElse,
            453 => Csharp::PreprocElif,
            454 => Csharp::PreprocIf2,
            455 => Csharp::PreprocElse2,
            456 => Csharp::PreprocElif2,
            457 => Csharp::PreprocIf3,
            458 => Csharp::PreprocElse3,
            459 => Csharp::PreprocElif3,
            460 => Csharp::PreprocIf4,
            461 => Csharp::PreprocElse4,
            462 => Csharp::PreprocElif4,
            463 => Csharp::PreprocIfInAttributeList,
            464 => Csharp::PreprocElse5,
            465 => Csharp::PreprocElif5,
            466 => Csharp::PreprocExpression,
            467 => Csharp::ParenthesizedExpression3,
            468 => Csharp::UnaryExpression,
            469 => Csharp::BinaryExpression2,
            470 => Csharp::PreprocRegion,
            471 => Csharp::PreprocEndregion,
            472 => Csharp::PreprocLine,
            473 => Csharp::PreprocPragma,
            474 => Csharp::PreprocNullable,
            475 => Csharp::PreprocError,
            476 => Csharp::PreprocWarning,
            477 => Csharp::PreprocDefine,
            478 => Csharp::PreprocUndef,
            479 => Csharp::CompilationUnitRepeat1,
            480 => Csharp::UsingDirectiveRepeat1,
            481 => Csharp::GlobalAttributeRepeat1,
            482 => Csharp::AttributeArgumentListRepeat1,
            483 => Csharp::ClassDeclarationInitializerRepeat1,
            484 => Csharp::ClassDeclarationInitializerRepeat2,
            485 => Csharp::ClassDeclarationInitializerRepeat3,
            486 => Csharp::ClassDeclarationInitializerRepeat4,
            487 => Csharp::EnumMemberDeclarationListRepeat1,
            488 => Csharp::RecordDeclarationInitializerRepeat1,
            489 => Csharp::RecordBaseRepeat1,
            490 => Csharp::TypeParameterListRepeat1,
            491 => Csharp::BaseListRepeat1,
            492 => Csharp::TypeParameterConstraintsClauseRepeat1,
            493 => Csharp::ConversionOperatorDeclarationRepeat1,
            494 => Csharp::DeclarationListRepeat1,
            495 => Csharp::AccessorListRepeat1,
            496 => Csharp::BracketedParameterListRepeat1,
            497 => Csharp::ParameterTypeWithModifiersRepeat1,
            498 => Csharp::ArgumentListRepeat1,
            499 => Csharp::TuplePatternRepeat1,
            500 => Csharp::BlockRepeat1,
            501 => Csharp::VariableDeclarationRepeat1,
            502 => Csharp::UsingVariableDeclarationRepeat1,
            503 => Csharp::TypeArgumentListRepeat1,
            504 => Csharp::TypeArgumentListRepeat2,
            505 => Csharp::ArrayRankSpecifierRepeat1,
            506 => Csharp::FunctionPointerTypeRepeat1,
            507 => Csharp::CallingConventionRepeat1,
            508 => Csharp::TupleTypeRepeat1,
            509 => Csharp::ForStatementConditionsRepeat1,
            510 => Csharp::SwitchBodyRepeat1,
            511 => Csharp::TryStatementRepeat1,
            512 => Csharp::CatchClauseRepeat1,
            513 => Csharp::ListPatternRepeat1,
            514 => Csharp::PositionalPatternClauseRepeat1,
            515 => Csharp::ParenthesizedVariableDesignationRepeat1,
            516 => Csharp::QueryBodyRepeat1,
            517 => Csharp::QueryBodyRepeat2,
            518 => Csharp::OrderByClauseRepeat1,
            519 => Csharp::SwitchExpressionBodyRepeat1,
            520 => Csharp::InterpolatedStringExpressionRepeat1,
            521 => Csharp::InterpolatedStringExpressionRepeat2,
            522 => Csharp::InterpolatedStringExpressionRepeat3,
            523 => Csharp::LambdaExpressionInitRepeat1,
            524 => Csharp::AnonymousObjectCreationExpressionRepeat1,
            525 => Csharp::CollectionExpressionRepeat1,
            526 => Csharp::WithBodyRepeat1,
            527 => Csharp::StringLiteralRepeat1,
            528 => Csharp::PreprocIfInTopLevelRepeat1,
            529 => Csharp::PreprocPragmaRepeat1,
            530 => Csharp::ElementBindingExpression,
            531 => Csharp::ImplicitParameter,
            532 => Csharp::InterpolationQuote,
            _ => Csharp::Error,
        }
    }

    /// The display string of this kind.
    pub fn as_str(&self) -> (r: &'static str)
        ensures
            r@ == self.text(),
    {
        match self {
            Csharp::End => "end",
            Csharp::IdentifierToken => "_identifier_token",
            Csharp::Extern => "extern",
            Csharp::Alias => "alias",
            Csharp::SEMI => ";",
            Csharp::Global => "global",
            Csharp::Using => "using",
            Csharp::Unsafe => "unsafe",
            Csharp::EQ => "=",
            Csharp::Static => "static",
            Csharp::LBRACK => "[",
            Csharp::Assembly => "assembly",
            Csharp::Module => "module",
            Csharp::COLON => ":",
            Csharp::COMMA => ",",
            Csharp::RBRACK => "]",
            Csharp::LPAREN => "(",
            Csharp::RPAREN => ")",
            Csharp::Field => "field",
            Csharp::Event => "event",
            Csharp::Method => "method",
            Csharp::Param => "param",
            Csharp::Property => "property",
            Csharp::Return => "return",
            Csharp::Type => "type",
            Csharp::Typevar => "typevar",
            Csharp::Namespace => "namespace",
            Csharp::Class => "class",
            Csharp::Ref => "ref",
            Csharp::Struct => "struct",
            Csharp::Enum => "enum",
            Csharp::LBRACE => "{",
            Csharp::RBRACE => "}",
            Csharp::Interface => "interface",
            Csharp::Delegate => "delegate",
            Csharp::Record => "record",
            Csharp::Abstract => "abstract",
            Csharp::Async => "async",
            Csharp::Const => "const",
            Csharp::File => "file",
            Csharp::Fixed => "fixed",
            Csharp::Internal => "internal",
            Csharp::New => "new",
            Csharp::Override => "override",
            Csharp::Partial => "partial",
            Csharp::Private => "private",
            Csharp::Protected => "protected",
            Csharp::Public => "public",
            Csharp::Readonly => "readonly",
            Csharp::Required => "required",
            Csharp::Sealed => "sealed",
            Csharp::Virtual => "virtual",
            Csharp::Volatile => "volatile",
            Csharp::LT => "<",
            Csharp::GT => ">",
            Csharp::In => "in",
            Csharp::Out => "out",
            Csharp::Where => "where",
            Csharp::QMARK => "?",
            Csharp::Notnull => "notnull",
            Csharp::Unmanaged => "unmanaged",
            Csharp::Operator => "operator",
            Csharp::Checked => "checked",
            Csharp::BANG => "!",
            Csharp::TILDE => "~",
            Csharp::PLUSPLUS => "++",
            Csharp::DASHDASH => "--",
            Csharp::True => "true",
            Csharp::False => "false",
            Csharp::PLUS => "+",
            Csharp::DASH => "-",
            Csharp::STAR => "*",
            Csharp::SLASH => "/",
            Csharp::PERCENT => "%",
            Csharp::CARET => "^",
            Csharp::PIPE => "|",
            Csharp::AMP => "&",
            Csharp::LTLT => "<<",
            Csharp::GTGT => ">>",
            Csharp::GTGTGT => ">>>",
            Csharp::EQEQ => "==",
            Csharp::BANGEQ => "!=",
            Csharp::GTEQ => ">=",
            Csharp::LTEQ => "<=",
            Csharp::Implicit => "implicit",
            Csharp::Explicit => "explicit",
            Csharp::Get => "get",
            Csharp::SetLiteral => "set",
            Csharp::Add => "add",
            Csharp::Remove => "remove",
            Csharp::Init => "init",
            Csharp::This => "this",
            Csharp::DOT => ".",
            Csharp::Scoped => "scoped",
            Csharp::Params => "params",
            Csharp::Base => "base",
            Csharp::EQGT => "=>",
            Csharp::COLONCOLON => "::",
            Csharp::Var => "var",
            Csharp::Managed => "managed",
            Csharp::Cdecl => "Cdecl",
            Csharp::Stdcall => "Stdcall",
            Csharp::Thiscall => "Thiscall",
            Csharp::Fastcall => "Fastcall",
            Csharp::PredefinedType => "predefined_type",
            Csharp::Break => "break",
            Csharp::Unchecked => "unchecked",
            Csharp::Continue => "continue",
            Csharp::Do => "do",
            Csharp::While => "while",
            Csharp::For => "for",
            Csharp::Lock => "lock",
            Csharp::Yield => "yield",
            Csharp::Switch => "switch",
            Csharp::Case => "case",
            Csharp::Default => "default",
            Csharp::Throw => "throw",
            Csharp::Try => "try",
            Csharp::Catch => "catch",
            Csharp::When => "when",
            Csharp::Finally => "finally",
            Csharp::Await => "await",
            Csharp::Foreach => "foreach",
            Csharp::Goto => "goto",
            Csharp::If => "if",
            Csharp::Else => "else",
            Csharp::Discard => "discard",
            Csharp::DOTDOT => "..",
            Csharp::Not => "not",
            Csharp::And => "and",
            Csharp::Or => "or",
            Csharp::PLUSEQ => "+=",
            Csharp::DASHEQ => "-=",
            Csharp::STAREQ => "*=",
            Csharp::SLASHEQ => "/=",
            Csharp::PERCENTEQ => "%=",
            Csharp::AMPEQ => "&=",
            Csharp::CARETEQ => "^=",
            Csharp::PIPEEQ => "|=",
            Csharp::LTLTEQ => "<<=",
            Csharp::GTGTEQ => ">>=",
            Csharp::GTGTGTEQ => ">>>=",
            Csharp::QMARKQMARKEQ => "??=",
            Csharp::AMPAMP => "&&",
            Csharp::PIPEPIPE => "||",
            Csharp::QMARKQMARK => "??",
            Csharp::From => "from",
            Csharp::Into => "into",
            Csharp::Join => "join",
            Csharp::On => "on",
            Csharp::Equals => "equals",
            Csharp::Let => "let",
            Csharp::Orderby => "orderby",
            Csharp::Ascending => "ascending",
            Csharp::Descending => "descending",
            Csharp::Group => "group",
            Csharp::By => "by",
            Csharp::Select => "select",
            Csharp::As => "as",
            Csharp::Is => "is",
            Csharp::InterpolationFormatClauseToken1 => "interpolation_format_clause_token1",
            Csharp::DASHGT => "->",
            Csharp::Stackalloc => "stackalloc",
            Csharp::With => "with",
            Csharp::Sizeof => "sizeof",
            Csharp::Typeof => "typeof",
            Csharp::Makeref => "__makeref",
            Csharp::Reftype => "__reftype",
            Csharp::Refvalue => "__refvalue",
            Csharp::NullLiteral => "null_literal",
            Csharp::SQUOTE => "'",
            Csharp::CharacterLiteralContent => "character_literal_content",
            Csharp::IntegerLiteral => "integer_literal",
            Csharp::RealLiteral => "real_literal",
            Csharp::DQUOTE => "\"",
            Csharp::StringLiteralContent => "string_literal_content",
            Csharp::EscapeSequence => "escape_sequence",
            Csharp::StringLiteralEncoding => "string_literal_encoding",
            Csharp::VerbatimStringLiteral => "verbatim_string_literal",
            Csharp::RawStringLiteralToken1 => "raw_string_literal_token1",
            Csharp::If2 => "#if",
            Csharp::PreprocIfToken2 => "preproc_if_token2",
            Csharp::Endif => "#endif",
            Csharp::Else2 => "#else",
            Csharp::Elif => "#elif",
            Csharp::PreprocArg => "preproc_arg",
            Csharp::Region => "#region",
            Csharp::Endregion => "#endregion",
            Csharp::Line => "#line",
            Csharp::Hidden => "hidden",
            Csharp::Pragma => "#pragma",
            Csharp::Warning => "warning",
            Csharp::Disable => "disable",
            Csharp::Restore => "restore",
            Csharp::Checksum => "checksum",
            Csharp::Nullable => "#nullable",
            Csharp::Enable => "enable",
            Csharp::Annotations => "annotations",
            Csharp::Warnings => "warnings",
            Csharp::Error2 => "#error",
            Csharp::Warning2 => "#warning",
            Csharp::Define => "#define",
            Csharp::Undef => "#undef",
            Csharp::ShebangDirective => "shebang_directive",
            Csharp::Comment => "comment",
            Csharp::OptionalSemi => "_optional_semi",
            Csharp::InterpolationStart => "interpolation_start",
            Csharp::InterpolationStart2 => "interpolation_start",
            Csharp::InterpolationStart3 => "interpolation_start",
            Csharp::DQUOTE2 => "\"",
            Csharp::DQUOTE3 => "\"",
            Csharp::InterpolationBrace => "interpolation_brace",
            Csharp::InterpolationBrace2 => "interpolation_brace",
            Csharp::StringContent => "string_content",
            Csharp::RawStringStart => "raw_string_start",
            Csharp::RawStringEnd => "raw_string_end",
            Csharp::RawStringContent => "raw_string_content",
            Csharp::CompilationUnit => "compilation_unit",
            Csharp::TopLevelItem => "_top_level_item",
            Csharp::GlobalStatement => "global_statement",
            Csharp::ExternAliasDirective => "extern_alias_directive",
            Csharp::UsingDirective => "using_directive",
            Csharp::GlobalAttribute => "global_attribute",
            Csharp::Attribute => "attribute",
            Csharp::AttributeArgumentList => "attribute_argument_list",
            Csharp::AttributeArgument => "attribute_argument",
            Csharp::AttributeList => "attribute_list",
            Csharp::AttributeList2 => "_attribute_list",
            Csharp::AttributeTargetSpecifier => "attribute_target_specifier",
            Csharp::NamespaceDeclaration => "namespace_declaration",
            Csharp::FileScopedNamespaceDeclaration => "file_scoped_namespace_declaration",
            Csharp::TypeDeclaration => "type_declaration",
            Csharp::ClassDeclaration => "class_declaration",
            Csharp::ClassDeclarationInitializer => "_class_declaration_initializer",
            Csharp::StructDeclaration => "struct_declaration",
            Csharp::StructDeclarationInitializer => "_struct_declaration_initializer",
            Csharp::EnumDeclaration => "enum_declaration",
            Csharp::EnumDeclarationInitializer => "_enum_declaration_initializer",
            Csharp::EnumMemberDeclarationList => "enum_member_declaration_list",
            Csharp::EnumMemberDeclaration => "enum_member_declaration",
            Csharp::InterfaceDeclaration => "interface_declaration",
            Csharp::InterfaceDeclarationInitializer => "_interface_declaration_initializer",
            Csharp::DelegateDeclaration => "delegate_declaration",
            Csharp::DelegateDeclarationInitializer => "_delegate_declaration_initializer",
            Csharp::RecordDeclaration => "record_declaration",
            Csharp::RecordDeclarationInitializer => "_record_declaration_initializer",
            Csharp::BaseList => "base_list",
            Csharp::DeclarationListBody => "_declaration_list_body",
            Csharp::PrimaryConstructorBaseType => "primary_constructor_base_type",
            Csharp::Modifier => "modifier",
            Csharp::TypeParameterList => "type_parameter_list",
            Csharp::TypeParameter => "type_parameter",
            Csharp::BaseList2 => "base_list",
            Csharp::TypeParameterConstraintsClause => "type_parameter_constraints_clause",
            Csharp::TypeParameterConstraint => "type_parameter_constraint",
            Csharp::ConstructorConstraint => "constructor_constraint",
            Csharp::OperatorDeclaration => "operator_declaration",
            Csharp::ConversionOperatorDeclaration => "conversion_operator_declaration",
            Csharp::DeclarationList => "declaration_list",
            Csharp::Declaration => "declaration",
            Csharp::FieldDeclaration => "field_declaration",
            Csharp::ConstructorDeclaration => "constructor_declaration",
            Csharp::ConstructorDeclarationInitializer => "_constructor_declaration_initializer",
            Csharp::DestructorDeclaration => "destructor_declaration",
            Csharp::MethodDeclaration => "method_declaration",
            Csharp::EventDeclaration => "event_declaration",
            Csharp::EventFieldDeclaration => "event_field_declaration",
            Csharp::AccessorList => "accessor_list",
            Csharp::AccessorDeclaration => "accessor_declaration",
            Csharp::IndexerDeclaration => "indexer_declaration",
            Csharp::BracketedParameterList => "bracketed_parameter_list",
            Csharp::PropertyDeclaration => "property_declaration",
            Csharp::ExplicitInterfaceSpecifier => "explicit_interface_specifier",
            Csharp::ParameterList => "parameter_list",
            Csharp::Parameter => "parameter",
            Csharp::ParameterArray => "_parameter_array",
            Csharp::ConstructorInitializer => "constructor_initializer",
            Csharp::ArgumentList => "argument_list",
            Csharp::TuplePattern => "tuple_pattern",
            Csharp::Argument => "argument",
            Csharp::Block => "block",
            Csharp::ArrowExpressionClause => "arrow_expression_clause",
            Csharp::FunctionBody => "_function_body",
            Csharp::VariableDeclaration => "variable_declaration",
            Csharp::VariableDeclaration2 => "variable_declaration",
            Csharp::VariableDeclarator => "variable_declarator",
            Csharp::VariableDeclarator2 => "variable_declarator",
            Csharp::BracketedArgumentList => "bracketed_argument_list",
            Csharp::Name => "_name",
            Csharp::AliasQualifiedName => "alias_qualified_name",
            Csharp::SimpleName => "_simple_name",
            Csharp::QualifiedName => "qualified_name",
            Csharp::GenericName => "generic_name",
            Csharp::TypeArgumentList => "type_argument_list",
            Csharp::Type2 => "type",
            Csharp::ImplicitType => "implicit_type",
            Csharp::ArrayType => "array_type",
            Csharp::ArrayBaseType => "_array_base_type",
            Csharp::ArrayRankSpecifier => "array_rank_specifier",
            Csharp::NullableType => "nullable_type",
            Csharp::PointerType => "pointer_type",
            Csharp::PointerBaseType => "_pointer_base_type",
            Csharp::FunctionPointerType => "function_pointer_type",
            Csharp::CallingConvention => "calling_convention",
            Csharp::FunctionPointerParameter => "function_pointer_parameter",
            Csharp::RefType => "ref_type",
            Csharp::RefBaseType => "_ref_base_type",
            Csharp::ScopedType => "scoped_type",
            Csharp::ScopedBaseType => "_scoped_base_type",
            Csharp::TupleType => "tuple_type",
            Csharp::TupleElement => "tuple_element",
            Csharp::Statement => "statement",
            Csharp::BreakStatement => "break_statement",
            Csharp::CheckedStatement => "checked_statement",
            Csharp::ContinueStatement => "continue_statement",
            Csharp::DoStatement => "do_statement",
            Csharp::EmptyStatement => "empty_statement",
            Csharp::ExpressionStatement => "expression_statement",
            Csharp::FixedStatement => "fixed_statement",
            Csharp::ForStatement => "for_statement",
            Csharp::ForStatementConditions => "_for_statement_conditions",
            Csharp::ReturnStatement => "return_statement",
            Csharp::LockStatement => "lock_statement",
            Csharp::YieldStatement => "yield_statement",
            Csharp::SwitchStatement => "switch_statement",
            Csharp::SwitchBody => "switch_body",
            Csharp::SwitchSection => "switch_section",
            Csharp::ThrowStatement => "throw_statement",
            Csharp::TryStatement => "try_statement",
            Csharp::CatchClause => "catch_clause",
            Csharp::CatchDeclaration => "catch_declaration",
            Csharp::CatchFilterClause => "catch_filter_clause",
            Csharp::FinallyClause => "finally_clause",
            Csharp::UnsafeStatement => "unsafe_statement",
            Csharp::UsingStatement => "using_statement",
            Csharp::ForeachStatement => "foreach_statement",
            Csharp::ForeachStatementInitializer => "_foreach_statement_initializer",
            Csharp::GotoStatement => "goto_statement",
            Csharp::LabeledStatement => "labeled_statement",
            Csharp::IfStatement => "if_statement",
            Csharp::WhileStatement => "while_statement",
            Csharp::LocalDeclarationStatement => "local_declaration_statement",
            Csharp::LocalFunctionStatement => "local_function_statement",
            Csharp::LocalFunctionDeclaration => "_local_function_declaration",
            Csharp::Pattern => "pattern",
            Csharp::RecursivePattern => "recursive_pattern",
            Csharp::ConstantPattern => "constant_pattern",
            Csharp::InvocationExpression => "invocation_expression",
            Csharp::InvocationExpression2 => "invocation_expression",
            Csharp::ParenthesizedPattern => "parenthesized_pattern",
            Csharp::VarPattern => "var_pattern",
            Csharp::TypePattern => "type_pattern",
            Csharp::ListPattern => "list_pattern",
            Csharp::RecursivePattern2 => "recursive_pattern",
            Csharp::PositionalPatternClause => "positional_pattern_clause",
            Csharp::PropertyPatternClause => "property_pattern_clause",
            Csharp::Subpattern => "subpattern",
            Csharp::RelationalPattern => "relational_pattern",
            Csharp::NegatedPattern => "negated_pattern",
            Csharp::AndPattern => "and_pattern",
            Csharp::OrPattern => "or_pattern",
            Csharp::DeclarationPattern => "declaration_pattern",
            Csharp::VariableDesignation => "_variable_designation",
            Csharp::ParenthesizedVariableDesignation => "parenthesized_variable_designation",
            Csharp::Expression => "expression",
            Csharp::NonLvalueExpression => "non_lvalue_expression",
            Csharp::LvalueExpression => "lvalue_expression",
            Csharp::ExpressionStatementExpression => "_expression_statement_expression",
            Csharp::AssignmentExpression => "assignment_expression",
            Csharp::BinaryExpression => "binary_expression",
            Csharp::PostfixUnaryExpression => "postfix_unary_expression",
            Csharp::PrefixUnaryExpression => "prefix_unary_expression",
            Csharp::PrefixUnaryExpression2 => "prefix_unary_expression",
            Csharp::QueryExpression => "query_expression",
            Csharp::FromClause => "from_clause",
            Csharp::QueryBody => "_query_body",
            Csharp::QueryClause => "_query_clause",
            Csharp::JoinClause => "join_clause",
            Csharp::JoinHeader => "_join_header",
            Csharp::JoinBody => "_join_body",
            Csharp::JoinIntoClause => "join_into_clause",
            Csharp::LetClause => "let_clause",
            Csharp::OrderByClause => "order_by_clause",
            Csharp::Ordering => "_ordering",
            Csharp::WhereClause => "where_clause",
            Csharp::SelectOrGroupClause => "_select_or_group_clause",
            Csharp::GroupClause => "group_clause",
            Csharp::SelectClause => "select_clause",
            Csharp::ConditionalExpression => "conditional_expression",
            Csharp::ConditionalAccessExpression => "conditional_access_expression",
            Csharp::AsExpression => "as_expression",
            Csharp::IsExpression => "is_expression",
            Csharp::IsPatternExpression => "is_pattern_expression",
            Csharp::CastExpression => "cast_expression",
            Csharp::CheckedExpression => "checked_expression",
            Csharp::InvocationExpression3 => "invocation_expression",
            Csharp::SwitchExpression => "switch_expression",
            Csharp::SwitchExpressionBody => "_switch_expression_body",
            Csharp::SwitchExpressionArm => "switch_expression_arm",
            Csharp::WhenClause => "when_clause",
            Csharp::AwaitExpression => "await_expression",
            Csharp::ThrowExpression => "throw_expression",
            Csharp::ElementAccessExpression => "element_access_expression",
            Csharp::InterpolatedStringExpression => "interpolated_string_expression",
            Csharp::InterpolatedStringContent => "_interpolated_string_content",
            Csharp::InterpolatedVerbatimStringContent => "_interpolated_verbatim_string_content",
            Csharp::InterpolatedRawStringContent => "_interpolated_raw_string_content",
            Csharp::Interpolation => "interpolation",
            Csharp::InterpolationAlignmentClause => "interpolation_alignment_clause",
            Csharp::InterpolationFormatClause => "interpolation_format_clause",
            Csharp::MemberAccessExpression => "member_access_expression",
            Csharp::MemberBindingExpression => "member_binding_expression",
            Csharp::ObjectCreationExpression => "object_creation_expression",
            Csharp::ParenthesizedExpression => "parenthesized_expression",
            Csharp::ParenthesizedExpression2 => "parenthesized_expression",
            Csharp::LambdaExpression => "lambda_expression",
            Csharp::LambdaExpressionInit => "_lambda_expression_init",
            Csharp::LambdaParameters => "_lambda_parameters",
            Csharp::ArrayCreationExpression => "array_creation_expression",
            Csharp::AnonymousMethodExpression => "anonymous_method_expression",
            Csharp::AnonymousObjectCreationExpression => "anonymous_object_creation_expression",
            Csharp::AnonymousObjectMemberDeclarator => "_anonymous_object_member_declarator",
            Csharp::ImplicitArrayCreationExpression => "implicit_array_creation_expression",
            Csharp::ImplicitObjectCreationExpression => "implicit_object_creation_expression",
            Csharp::ImplicitStackallocExpression => "implicit_stackalloc_expression",
            Csharp::CollectionExpression => "collection_expression",
            Csharp::CollectionElement => "collection_element",
            Csharp::ExpressionElement => "expression_element",
            Csharp::SpreadElement => "spread_element",
            Csharp::InitializerExpression => "initializer_expression",
            Csharp::DeclarationExpression => "declaration_expression",
            Csharp::DefaultExpression => "default_expression",
            Csharp::WithExpression => "with_expression",
            Csharp::WithBody => "_with_body",
            Csharp::WithInitializer => "with_initializer",
            Csharp::SizeofExpression => "sizeof_expression",
            Csharp::TypeofExpression => "typeof_expression",
            Csharp::MakerefExpression => "makeref_expression",
            Csharp::RefExpression => "ref_expression",
            Csharp::ReftypeExpression => "reftype_expression",
            Csharp::RefvalueExpression => "refvalue_expression",
            Csharp::StackallocExpression => "stackalloc_expression",
            Csharp::RangeExpression => "range_expression",
            Csharp::TupleExpression => "tuple_expression",
            Csharp::Literal => "literal",
            Csharp::CharacterLiteral => "character_literal",
            Csharp::StringLiteral => "string_literal",
            Csharp::RawStringLiteral => "raw_string_literal",
            Csharp::BooleanLiteral => "boolean_literal",
            Csharp::Identifier => "identifier",
            Csharp::ReservedIdentifier => "_reserved_identifier",
            Csharp::PreprocIf => "preproc_if",
            Csharp::PreprocElse => "preproc_else",
            Csharp::PreprocElif => "preproc_elif",
            Csharp::PreprocIf2 => "preproc_if",
            Csharp::PreprocElse2 => "preproc_else",
            Csharp::PreprocElif2 => "preproc_elif",
            Csharp::PreprocIf3 => "preproc_if",
            Csharp::PreprocElse3 => "preproc_else",
            Csharp::PreprocElif3 => "preproc_elif",
            Csharp::PreprocIf4 => "preproc_if",
            Csharp::PreprocElse4 => "preproc_else",
            Csharp::PreprocElif4 => "preproc_elif",
            Csharp::PreprocIfInAttributeList => "preproc_if_in_attribute_list",
            Csharp::PreprocElse5 => "preproc_else",
            Csharp::PreprocElif5 => "preproc_elif",
            Csharp::PreprocExpression => "_preproc_expression",
            Csharp::ParenthesizedExpression3 => "parenthesized_expression",
            Csharp::UnaryExpression => "unary_expression",
            Csharp::BinaryExpression2 => "binary_expression",
            Csharp::PreprocRegion => "preproc_region",
            Csharp::PreprocEndregion => "preproc_endregion",
            Csharp::PreprocLine => "preproc_line",
            Csharp::PreprocPragma => "preproc_pragma",
            Csharp::PreprocNullable => "preproc_nullable",
            Csharp::PreprocError => "preproc_error",
            Csharp::PreprocWarning => "preproc_warning",
            Csharp::PreprocDefine => "preproc_define",
            Csharp::PreprocUndef => "preproc_undef",
            Csharp::CompilationUnitRepeat1 => "compilation_unit_repeat1",
            Csharp::UsingDirectiveRepeat1 => "using_directive_repeat1",
            Csharp::GlobalAttributeRepeat1 => "global_attribute_repeat1",
            Csharp::AttributeArgumentListRepeat1 => "attribute_argument_list_repeat1",
            Csharp::ClassDeclarationInitializerRepeat1 => "_class_declaration_initializer_repeat1",
            Csharp::ClassDeclarationInitializerRepeat2 => "_class_declaration_initializer_repeat2",
            Csharp::ClassDeclarationInitializerRepeat3 => "_class_declaration_initializer_repeat3",
            Csharp::ClassDeclarationInitializerRepeat4 => "_class_declaration_initializer_repeat4",
            Csharp::EnumMemberDeclarationListRepeat1 => "enum_member_declaration_list_repeat1",
            Csharp::RecordDeclarationInitializerRepeat1 => "_record_declaration_initializer_repeat1",
            Csharp::RecordBaseRepeat1 => "record_base_repeat1",
            Csharp::TypeParameterListRepeat1 => "type_parameter_list_repeat1",
            Csharp::BaseListRepeat1 => "base_list_repeat1",
            Csharp::TypeParameterConstraintsClauseRepeat1 => "type_parameter_constraints_clause_repeat1",
            Csharp::ConversionOperatorDeclarationRepeat1 => "conversion_operator_declaration_repeat1",
            Csharp::DeclarationListRepeat1 => "declaration_list_repeat1",
            Csharp::AccessorListRepeat1 => "accessor_list_repeat1",
            Csharp::BracketedParameterListRepeat1 => "bracketed_parameter_list_repeat1",
            Csharp::ParameterTypeWithModifiersRepeat1 => "_parameter_type_with_modifiers_repeat1",
            Csharp::ArgumentListRepeat1 => "argument_list_repeat1",
            Csharp::TuplePatternRepeat1 => "tuple_pattern_repeat1",
            Csharp::BlockRepeat1 => "block_repeat1",
            Csharp::VariableDeclarationRepeat1 => "variable_declaration_repeat1",
            Csharp::UsingVariableDeclarationRepeat1 => "using_variable_declaration_repeat1",
            Csharp::TypeArgumentListRepeat1 => "type_argument_list_repeat1",
            Csharp::TypeArgumentListRepeat2 => "type_argument_list_repeat2",
            Csharp::ArrayRankSpecifierRepeat1 => "array_rank_specifier_repeat1",
            Csharp::FunctionPointerTypeRepeat1 => "function_pointer_type_repeat1",
            Csharp::CallingConventionRepeat1 => "calling_convention_repeat1",
            Csharp::TupleTypeRepeat1 => "tuple_type_repeat1",
            Csharp::ForStatementConditionsRepeat1 => "_for_statement_conditions_repeat1",
            Csharp::SwitchBodyRepeat1 => "switch_body_repeat1",
            Csharp::TryStatementRepeat1 => "try_statement_repeat1",
            Csharp::CatchClauseRepeat1 => "catch_clause_repeat1",
            Csharp::ListPatternRepeat1 => "list_pattern_repeat1",
            Csharp::PositionalPatternClauseRepeat1 => "positional_pattern_clause_repeat1",
            Csharp::ParenthesizedVariableDesignationRepeat1 => "parenthesized_variable_designation_repeat1",
            Csharp::QueryBodyRepeat1 => "_query_body_repeat1",
            Csharp::QueryBodyRepeat2 => "_query_body_repeat2",
            Csharp::OrderByClauseRepeat1 => "order_by_clause_repeat1",
            Csharp::SwitchExpressionBodyRepeat1 => "_switch_expression_body_repeat1",
            Csharp::InterpolatedStringExpressionRepeat1 => "interpolated_string_expression_repeat1",
            Csharp::InterpolatedStringExpressionRepeat2 => "interpolated_string_expression_repeat2",
            Csharp::InterpolatedStringExpressionRepeat3 => "interpolated_string_expression_repeat3",
            Csharp::LambdaExpressionInitRepeat1 => "_lambda_expression_init_repeat1",
            Csharp::AnonymousObjectCreationExpressionRepeat1 => "anonymous_object_creation_expression_repeat1",
            Csharp::CollectionExpressionRepeat1 => "collection_expression_repeat1",
            Csharp::WithBodyRepeat1 => "_with_body_repeat1",
            Csharp::StringLiteralRepeat1 => "string_literal_repeat1",
            Csharp::PreprocIfInTopLevelRepeat1 => "preproc_if_in_top_level_repeat1",
            Csharp::PreprocPragmaRepeat1 => "preproc_pragma_repeat1",
            Csharp::ElementBindingExpression => "element_binding_expression",
            Csharp::ImplicitParameter => "implicit_parameter",
            Csharp::InterpolationQuote => "interpolation_quote",
            Csharp::Error => "ERROR",
        }
    }
}

impl From<u16> for Csharp {
    fn from(x: u16) -> (r: Csharp)
        ensures
            r == Csharp::spec_from_id(x),
    {
        Csharp::from_u16(x)
    }
}

impl vstd::std_specs::convert::FromSpecImpl<u16> for Csharp {
    open spec fn obeys_from_spec() -> bool {
        true
    }

    open spec fn from_spec(x: u16) -> Csharp {
        Csharp::spec_from_id(x)
    }
}

/// A kind id read back from its kind gives that kind again.
pub proof fn lemma_id_round_trip(k: Csharp)
    ensures
        Csharp::spec_from_id(k.id()) == k,
{
}

/// C# kinds counted as Halstead operators.
pub open spec fn csharp_operator(k: Csharp) -> bool {
    match k {
        Csharp::EQ | Csharp::LT | Csharp::GT | Csharp::QMARK | Csharp::BANG | Csharp::TILDE
        | Csharp::PLUSPLUS | Csharp::DASHDASH | Csharp::PLUS | Csharp::DASH | Csharp::STAR
        | Csharp::SLASH | Csharp::PERCENT | Csharp::CARET | Csharp::PIPE | Csharp::AMP
        | Csharp::LTLT | Csharp::GTGT | Csharp::GTGTGT | Csharp::EQEQ | Csharp::BANGEQ
        | Csharp::GTEQ | Csharp::LTEQ | Csharp::Is | Csharp::As | Csharp::New | Csharp::Sizeof
        | Csharp::Typeof | Csharp::Checked | Csharp::Unchecked | Csharp::Await | Csharp::If
        | Csharp::Else | Csharp::Switch | Csharp::Case | Csharp::Default | Csharp::Do
        | Csharp::While | Csharp::For | Csharp::Foreach | Csharp::Return | Csharp::Break
        | Csharp::Continue | Csharp::Goto | Csharp::Throw | Csharp::Try | Csharp::Catch
        | Csharp::Finally | Csharp::Lock | Csharp::Yield | Csharp::Using | Csharp::Fixed
        | Csharp::DOT | Csharp::DASHGT | Csharp::COLONCOLON | Csharp::QMARKQMARK | Csharp::And
        | Csharp::Or | Csharp::Not | Csharp::PLUSEQ | Csharp::DASHEQ | Csharp::STAREQ
        | Csharp::SLASHEQ | Csharp::PERCENTEQ | Csharp::AMPEQ | Csharp::CARETEQ
        | Csharp::PIPEEQ | Csharp::LTLTEQ | Csharp::GTGTEQ | Csharp::GTGTGTEQ
        | Csharp::QMARKQMARKEQ | Csharp::AMPAMP | Csharp::PIPEPIPE | Csharp::LPAREN
        | Csharp::RPAREN | Csharp::LBRACK | Csharp::RBRACK | Csharp::LBRACE | Csharp::RBRACE
        | Csharp::SEMI | Csharp::COMMA | Csharp::COLON => true,
        _ => false,
    }
}

/// C# kinds counted as Halstead operands.
pub open spec fn csharp_operand(k: Csharp) -> bool {
    match k {
        Csharp::Identifier | Csharp::SimpleName | Csharp::QualifiedName | Csharp::GenericName
        | Csharp::Literal | Csharp::IntegerLiteral | Csharp::RealLiteral
        | Csharp::StringLiteral | Csharp::CharacterLiteral | Csharp::BooleanLiteral
        | Csharp::NullLiteral | Csharp::True | Csharp::False | Csharp::This | Csharp::Base => true,
        _ => false,
    }
}

/// How a C# node counts in the Halstead measures.
pub open spec fn csharp_op_type(k: Csharp) -> HalsteadType {
    if csharp_operator(k) {
        HalsteadType::Operator
    } else if csharp_operand(k) {
        HalsteadType::Operand
    } else {
        HalsteadType::Unknown
    }
}

/// The space kind of a C# node.
pub open spec fn csharp_space_kind(k: Csharp) -> SpaceKind {
    match k {
        Csharp::CompilationUnit => SpaceKind::Unit,
        Csharp::MethodDeclaration | Csharp::ConstructorDeclaration
        | Csharp::DestructorDeclaration | Csharp::OperatorDeclaration
        | Csharp::ConversionOperatorDeclaration | Csharp::LocalFunctionStatement
        | Csharp::LambdaExpression | Csharp::AnonymousMethodExpression => SpaceKind::Function,
        Csharp::ClassDeclaration | Csharp::RecordDeclaration => SpaceKind::Class,
        Csharp::StructDeclaration => SpaceKind::Struct,
        Csharp::EnumDeclaration => SpaceKind::Class,
        Csharp::InterfaceDeclaration => SpaceKind::Interface,
        Csharp::NamespaceDeclaration | Csharp::FileScopedNamespaceDeclaration => SpaceKind::Namespace,
        _ => SpaceKind::Unknown,
    }
}

/// The text under which a C# operator counts: an opening bracket stands for the
/// pair it opens.
pub open spec fn csharp_operator_text(id: u16) -> Seq<char> {
    match Csharp::spec_from_id(id) {
        Csharp::LPAREN => "()"@,
        Csharp::LBRACK => "[]"@,
        Csharp::LBRACE => "{}"@,
        k => k.text(),
    }
}

/// The C# grammar.
pub struct CsharpCode;

impl Getter for CsharpCode {
    open spec fn space_kind_of(tree: Tree, node: int) -> SpaceKind {
        csharp_space_kind(Csharp::spec_from_id(tree.nodes@[node].kind_id))
    }

    open spec fn op_type_of(tree: Tree, node: int) -> HalsteadType {
        csharp_op_type(Csharp::spec_from_id(tree.nodes@[node].kind_id))
    }

    open spec fn operator_text_of(id: u16) -> Seq<char> {
        csharp_operator_text(id)
    }

    open spec fn name_of(tree: Tree, node: int, code: Seq<u8>) -> Option<Seq<char>> {
        field_name(tree, node, code)
    }

    fn get_func_space_name(tree: &Tree, node: usize, code: &[u8]) -> (r: Option<String>) {
        name_from_field(tree, node, code)
    }

    fn get_space_kind(tree: &Tree, node: usize) -> (r: SpaceKind)
        ensures
            r == csharp_space_kind(Csharp::spec_from_id(tree.nodes@[node as int].kind_id)),
    {
        match Csharp::from_u16(tree.nodes[node].kind_id) {
            Csharp::CompilationUnit => SpaceKind::Unit,
            Csharp::MethodDeclaration | Csharp::ConstructorDeclaration
            | Csharp::DestructorDeclaration | Csharp::OperatorDeclaration
            | Csharp::ConversionOperatorDeclaration | Csharp::LocalFunctionStatement
            | Csharp::LambdaExpression | Csharp::AnonymousMethodExpression => SpaceKind::Function,
            Csharp::ClassDeclaration | Csharp::RecordDeclaration => SpaceKind::Class,
            Csharp::StructDeclaration => SpaceKind::Struct,
            Csharp::EnumDeclaration => SpaceKind::Class,
            Csharp::InterfaceDeclaration => SpaceKind::Interface,
            Csharp::NamespaceDeclaration | Csharp::FileScopedNamespaceDeclaration => SpaceKind::Namespace,
            _ => SpaceKind::Unknown,
        }
    }

    fn get_op_type(tree: &Tree, node: usize) -> (r: HalsteadType)
        ensures
            r == csharp_op_type(Csharp::spec_from_id(tree.nodes@[node as int].kind_id)),
    {
        match Csharp::from_u16(tree.nodes[node].kind_id) {
            Csharp::EQ | Csharp::LT | Csharp::GT | Csharp::QMARK | Csharp::BANG | Csharp::TILDE
            | Csharp::PLUSPLUS | Csharp::DASHDASH | Csharp::PLUS | Csharp::DASH | Csharp::STAR
            | Csharp::SLASH | Csharp::PERCENT | Csharp::CARET | Csharp::PIPE | Csharp::AMP
            | Csharp::LTLT | Csharp::GTGT | Csharp::GTGTGT | Csharp::EQEQ | Csharp::BANGEQ
            | Csharp::GTEQ | Csharp::LTEQ | Csharp::Is | Csharp::As | Csharp::New
            | Csharp::Sizeof | Csharp::Typeof | Csharp::Checked | Csharp::Unchecked
            | Csharp::Await | Csharp::If | Csharp::Else | Csharp::Switch | Csharp::Case
            | Csharp::Default | Csharp::Do | Csharp::While | Csharp::For | Csharp::Foreach
            | Csharp::Return | Csharp::Break | Csharp::Continue | Csharp::Goto | Csharp::Throw
            | Csharp::Try | Csharp::Catch | Csharp::Finally | Csharp::Lock | Csharp::Yield
            | Csharp::Using | Csharp::Fixed | Csharp::DOT | Csharp::DASHGT | Csharp::COLONCOLON
            | Csharp::QMARKQMARK | Csharp::And | Csharp::Or | Csharp::Not | Csharp::PLUSEQ
            | Csharp::DASHEQ | Csharp::STAREQ | Csharp::SLASHEQ | Csharp::PERCENTEQ
            | Csharp::AMPEQ | Csharp::CARETEQ | Csharp::PIPEEQ | Csharp::LTLTEQ
            | Csharp::GTGTEQ | Csharp::GTGTGTEQ | Csharp::QMARKQMARKEQ | Csharp::AMPAMP
            | Csharp::PIPEPIPE | Csharp::LPAREN | Csharp::RPAREN | Csharp::LBRACK
            | Csharp::RBRACK | Csharp::LBRACE | Csharp::RBRACE | Csharp::SEMI | Csharp::COMMA
            | Csharp::COLON => {
                HalsteadType::Operator
            },
            Csharp::Identifier | Csharp::SimpleName | Csharp::QualifiedName
            | Csharp::GenericName | Csharp::Literal | Csharp::IntegerLiteral
            | Csharp::RealLiteral | Csharp::StringLiteral | Csharp::CharacterLiteral
            | Csharp::BooleanLiteral | Csharp::NullLiteral | Csharp::True | Csharp::False
            | Csharp::This | Csharp::Base => {
                HalsteadType::Operand
            },
            _ => HalsteadType::Unknown,
        }
    }

    fn get_operator_id_as_str(id: u16) -> (r: &'static str)
        ensures
            r@ == csharp_operator_text(id),
    {
        match Csharp::from_u16(id) {
            Csharp::LPAREN => "()",
            Csharp::LBRACK => "[]",
            Csharp::LBRACE => "{}",
            k => k.as_str(),
        }
    }
}

} // verus!
