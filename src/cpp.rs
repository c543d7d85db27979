use vstd::prelude::*;

use crate::cpp_names::{cpp_func_name, cpp_function_name};
use crate::getter::{Getter, name_view};
use crate::node::Tree;
use crate::spaces::{HalsteadType, SpaceKind};

verus! {

/// Node kinds of the C++ grammar, in the grammar's own numbering.
#[derive(Clone, Copy, Debug, PartialEq, Eq, Structural)]
pub enum Cpp {
    End,
    Identifier,
    Include,
    PreprocIncludeToken2,
    Define,
    LPAREN,
    DOTDOTDOT,
    COMMA,
    RPAREN,
    If,
    X,
    Endif,
    Ifdef,
    Ifndef,
    Else,
    Elif,
    Elifdef,
    Elifndef,
    PreprocArg,
    PreprocDirective,
    LPAREN2,
    Defined,
    BANG,
    TILDE,
    DASH,
    PLUS,
    STAR,
    SLASH,
    PERCENT,
    PIPEPIPE,
    AMPAMP,
    PIPE,
    CARET,
    AMP,
    EQEQ,
    BANGEQ,
    GT,
    GTEQ,
    LTEQ,
    LT,
    LTLT,
    GTGT,
    SEMI,
    Extension,
    Typedef,
    Virtual,
    Extern,
    Attribute2,
    Attribute3,
    COLONCOLON,
    LBRACKLBRACK,
    RBRACKRBRACK,
    Declspec,
    Based,
    Cdecl,
    Clrcall,
    Stdcall,
    Fastcall,
    Thiscall,
    Vectorcall,
    MsRestrictModifier,
    MsUnsignedPtrModifier,
    MsSignedPtrModifier,
    Unaligned,
    Unaligned2,
    LBRACE,
    RBRACE,
    Signed,
    Unsigned,
    Long,
    Short,
    LBRACK,
    Static,
    RBRACK,
    EQ,
    Register,
    Inline,
    Inline2,
    Inline3,
    Forceinline,
    ThreadLocal,
    Thread,
    Const,
    Constexpr,
    Volatile,
    Restrict,
    Restrict2,
    Atomic,
    Noreturn,
    Noreturn2,
    Nonnull,
    Mutable,
    Constinit,
    Consteval,
    Alignas,
    Alignas2,
    PrimitiveType,
    Enum,
    Class,
    Struct,
    Union,
    COLON,
    If2,
    Else2,
    Switch,
    Case,
    Default,
    While,
    Do,
    For,
    Return,
    Break,
    Continue,
    Goto,
    Try,
    Except,
    Finally,
    Leave,
    QMARK,
    STAREQ,
    SLASHEQ,
    PERCENTEQ,
    PLUSEQ,
    DASHEQ,
    LTLTEQ,
    GTGTEQ,
    AMPEQ,
    CARETEQ,
    PIPEEQ,
    AndEq,
    OrEq,
    XorEq,
    Not,
    Compl,
    LTEQGT,
    Or,
    And,
    Bitor,
    Xor,
    Bitand,
    NotEq,
    DASHDASH,
    PLUSPLUS,
    Sizeof,
    Alignof,
    Alignof2,
    Alignof3,
    Alignof4,
    Alignof5,
    Offsetof,
    Generic,
    Asm,
    Asm2,
    Asm3,
    Volatile2,
    DOT,
    DOTSTAR,
    DASHGT,
    NumberLiteral,
    L,
    U,
    U2,
    U8,
    SQUOTE,
    Character,
    L2,
    U3,
    U4,
    U82,
    DQUOTE,
    StringContent,
    EscapeSequence,
    SystemLibString,
    True,
    False,
    NULL,
    Nullptr,
    Comment,
    Auto,
    Decltype3,
    FinalKw,
    Override,
    Explicit,
    Typename,
    Template,
    GT2,
    Operator,
    Try2,
    Delete,
    PureVirtualClauseToken1,
    Friend,
    Public,
    Private,
    Protected,
    Noexcept2,
    Throw,
    Namespace,
    Using,
    StaticAssert,
    Concept,
    CoReturn,
    CoYield,
    Catch,
    R,
    LR,
    UR,
    UR2,
    U8R,
    CoAwait,
    New,
    Requires,
    DASHGTSTAR,
    LPARENRPAREN,
    LBRACKRBRACK,
    DQUOTEDQUOTE,
    This,
    LiteralSuffix,
    RawStringDelimiter,
    RawStringContent,
    TranslationUnit,
    TopLevelItem,
    BlockItem,
    PreprocInclude,
    PreprocDef,
    PreprocFunctionDef,
    PreprocParams,
    PreprocCall,
    PreprocIf,
    PreprocIfdef,
    PreprocElse,
    PreprocElif,
    PreprocElifdef,
    PreprocIf2,
    PreprocIfdef2,
    PreprocElse2,
    PreprocElif2,
    PreprocElifdef2,
    PreprocIf3,
    PreprocIfdef3,
    PreprocElse3,
    PreprocElif3,
    PreprocElifdef3,
    PreprocIf4,
    PreprocIfdef4,
    PreprocElse4,
    PreprocElif4,
    PreprocElifdef4,
    PreprocExpression,
    ParenthesizedExpression,
    PreprocDefined,
    UnaryExpression,
    CallExpression,
    ArgumentList,
    BinaryExpression,
    FunctionDefinition,
    Declaration,
    TypeDefinition,
    TypeDefinitionType,
    TypeDefinitionDeclarators,
    DeclarationModifiers,
    DeclarationSpecifiers,
    LinkageSpecification,
    AttributeSpecifier,
    Attribute,
    AttributeDeclaration,
    MsDeclspecModifier,
    MsBasedModifier,
    MsCallModifier,
    MsUnalignedPtrModifier,
    MsPointerModifier,
    DeclarationList,
    Declarator,
    FieldDeclarator,
    TypeDeclarator,
    AbstractDeclarator,
    ParenthesizedDeclarator,
    ParenthesizedDeclarator2,
    ParenthesizedDeclarator3,
    AbstractParenthesizedDeclarator,
    AttributedDeclarator,
    AttributedDeclarator2,
    AttributedDeclarator3,
    PointerDeclarator,
    PointerDeclarator2,
    PointerTypeDeclarator,
    AbstractPointerDeclarator,
    FunctionDeclarator,
    FunctionDeclarator2,
    FunctionDeclarator3,
    AbstractFunctionDeclarator,
    ArrayDeclarator,
    ArrayDeclarator2,
    ArrayDeclarator3,
    AbstractArrayDeclarator,
    InitDeclarator,
    CompoundStatement,
    StorageClassSpecifier,
    TypeQualifier,
    AlignasQualifier,
    TypeSpecifier,
    SizedTypeSpecifier,
    EnumSpecifier,
    EnumeratorList,
    StructSpecifier,
    UnionSpecifier,
    FieldDeclarationList,
    FieldDeclarationListItem,
    FieldDeclaration,
    BitfieldClause,
    Enumerator,
    ParameterList,
    ParameterDeclaration,
    AttributedStatement,
    Statement,
    TopLevelStatement,
    LabeledStatement,
    ExpressionStatement,
    ExpressionStatement2,
    IfStatement,
    ElseClause,
    SwitchStatement,
    CaseStatement,
    WhileStatement,
    DoStatement,
    ForStatement,
    ForStatementBody,
    ReturnStatement,
    BreakStatement,
    ContinueStatement,
    GotoStatement,
    SehTryStatement,
    SehExceptClause,
    SehFinallyClause,
    SehLeaveStatement,
    Expression,
    String,
    CommaExpression,
    ConditionalExpression,
    AssignmentExpression,
    PointerExpression,
    UnaryExpression2,
    BinaryExpression2,
    UpdateExpression,
    CastExpression,
    TypeDescriptor,
    SizeofExpression,
    AlignofExpression,
    OffsetofExpression,
    GenericExpression,
    SubscriptExpression,
    CallExpression2,
    GnuAsmExpression,
    GnuAsmQualifier,
    GnuAsmOutputOperandList,
    GnuAsmOutputOperand,
    GnuAsmInputOperandList,
    GnuAsmInputOperand,
    GnuAsmClobberList,
    GnuAsmGotoList,
    ExtensionExpression,
    ArgumentList2,
    FieldExpression,
    CompoundLiteralExpression,
    ParenthesizedExpression2,
    InitializerList,
    InitializerPair,
    SubscriptDesignator,
    SubscriptRangeDesignator,
    FieldDesignator,
    CharLiteral,
    ConcatenatedString,
    StringLiteral,
    Null,
    EmptyDeclaration,
    PlaceholderTypeSpecifier,
    Decltype,
    Decltype2,
    ClassDeclaration,
    ClassDeclarationItem,
    ClassSpecifier,
    ClassName,
    VirtualSpecifier,
    ExplicitFunctionSpecifier,
    BaseClassClause,
    EnumBaseClause,
    DependentType,
    TemplateDeclaration,
    TemplateInstantiation,
    TemplateParameterList,
    TypeParameterDeclaration,
    VariadicTypeParameterDeclaration,
    OptionalTypeParameterDeclaration,
    TemplateTemplateParameterDeclaration,
    OptionalParameterDeclaration,
    VariadicParameterDeclaration,
    VariadicDeclarator,
    ReferenceDeclarator,
    OperatorCast,
    FieldInitializerList,
    FieldInitializer,
    FunctionDefinition2,
    ConstructorSpecifiers,
    FunctionDefinition3,
    Declaration2,
    TryStatement,
    FunctionDefinition4,
    Declaration3,
    DefaultMethodClause,
    DeleteMethodClause,
    PureVirtualClause,
    FriendDeclaration,
    AccessSpecifier,
    ReferenceDeclarator2,
    ReferenceDeclarator3,
    ReferenceDeclarator4,
    AbstractReferenceDeclarator,
    StructuredBindingDeclarator,
    RefQualifier,
    FunctionDeclaratorSeq,
    FunctionAttributesStart,
    FunctionExceptionSpecification,
    FunctionAttributesEnd,
    FunctionPostfix,
    TrailingReturnType,
    Noexcept,
    ThrowSpecifier,
    TemplateType,
    TemplateMethod,
    TemplateFunction,
    TemplateArgumentList,
    NamespaceDefinition,
    NamespaceAliasDefinition,
    NamespaceSpecifier,
    NestedNamespaceSpecifier,
    UsingDeclaration,
    AliasDeclaration,
    StaticAssertDeclaration,
    ConceptDefinition,
    ForRangeLoop,
    ForRangeLoopBody,
    InitStatement,
    ConditionClause,
    Declaration4,
    CoReturnStatement,
    CoYieldStatement,
    ThrowStatement,
    TryStatement2,
    CatchClause,
    RawStringLiteral,
    SubscriptArgumentList,
    CoAwaitExpression,
    NewExpression,
    NewDeclarator,
    DeleteExpression,
    TypeRequirement,
    CompoundRequirement,
    Requirement,
    RequirementSeq,
    ConstraintConjunction,
    ConstraintDisjunction,
    RequirementClauseConstraint,
    RequiresClause,
    ParameterList2,
    RequiresExpression,
    LambdaExpression,
    LambdaCaptureSpecifier,
    LambdaDefaultCapture,
    LambdaCaptureIdentifier,
    LambdaCaptureInitializer,
    LambdaCapture,
    FoldOperator,
    BinaryFoldOperator,
    UnaryLeftFold,
    UnaryRightFold,
    BinaryFold,
    FoldExpression,
    ParameterPackExpansion,
    ParameterPackExpansion2,
    ParameterPackExpansion3,
    DestructorName,
    DependentName,
    DependentName2,
    DependentName3,
    ScopeResolution,
    QualifiedIdentifier,
    QualifiedIdentifier2,
    QualifiedIdentifier3,
    QualifiedIdentifier4,
    AssignmentExpression2,
    OperatorName,
    UserDefinedLiteral,
    TranslationUnitRepeat1,
    PreprocParamsRepeat1,
    PreprocIfRepeat1,
    PreprocIfInFieldDeclarationListRepeat1,
    PreprocIfInEnumeratorListRepeat1,
    PreprocIfInEnumeratorListNoCommaRepeat1,
    PreprocArgumentListRepeat1,
    DeclarationRepeat1,
    TypeDefinitionRepeat1,
    TypeDefinitionTypeRepeat1,
    TypeDefinitionDeclaratorsRepeat1,
    DeclarationSpecifiersRepeat1,
    AttributeDeclarationRepeat1,
    AttributedDeclaratorRepeat1,
    PointerDeclaratorRepeat1,
    ArrayDeclaratorRepeat1,
    SizedTypeSpecifierRepeat1,
    EnumeratorListRepeat1,
    FieldDeclarationRepeat1,
    ParameterListRepeat1,
    CaseStatementRepeat1,
    GenericExpressionRepeat1,
    GnuAsmExpressionRepeat1,
    GnuAsmOutputOperandListRepeat1,
    GnuAsmInputOperandListRepeat1,
    GnuAsmClobberListRepeat1,
    GnuAsmGotoListRepeat1,
    ArgumentListRepeat1,
    InitializerListRepeat1,
    InitializerPairRepeat1,
    CharLiteralRepeat1,
    ConcatenatedStringRepeat1,
    StringLiteralRepeat1,
    ClassDeclarationRepeat1,
    BaseClassClauseRepeat1,
    TemplateParameterListRepeat1,
    FieldInitializerListRepeat1,
    OperatorCastDefinitionRepeat1,
    ConstructorTryStatementRepeat1,
    StructuredBindingDeclaratorRepeat1,
    FunctionPostfixRepeat1,
    ThrowSpecifierRepeat1,
    TemplateArgumentListRepeat1,
    SubscriptArgumentListRepeat1,
    RequirementSeqRepeat1,
    RequiresParameterListRepeat1,
    LambdaCaptureSpecifierRepeat1,
    FieldIdentifier,
    NamespaceIdentifier,
    SimpleRequirement,
    StatementIdentifier,
    TypeIdentifier,
    Error,
}

impl Cpp {
    /// The grammar's numeric id of this kind.
    pub open spec fn id(self) -> u16 {
        match self {
            Cpp::End => 0,
            Cpp::Identifier => 1,
            Cpp::Include => 2,
            Cpp::PreprocIncludeToken2 => 3,
            Cpp::Define => 4,
            Cpp::LPAREN => 5,
            Cpp::DOTDOTDOT => 6,
            Cpp::COMMA => 7,
            Cpp::RPAREN => 8,
            Cpp::If => 9,
            Cpp::X => 10,
            Cpp::Endif => 11,
            Cpp::Ifdef => 12,
            Cpp::Ifndef => 13,
            Cpp::Else => 14,
            Cpp::Elif => 15,
            Cpp::Elifdef => 16,
            Cpp::Elifndef => 17,
            Cpp::PreprocArg => 18,
            Cpp::PreprocDirective => 19,
            Cpp::LPAREN2 => 20,
            Cpp::Defined => 21,
            Cpp::BANG => 22,
            Cpp::TILDE => 23,
            Cpp::DASH => 24,
            Cpp::PLUS => 25,
            Cpp::STAR => 26,
            Cpp::SLASH => 27,
            Cpp::PERCENT => 28,
            Cpp::PIPEPIPE => 29,
            Cpp::AMPAMP => 30,
            Cpp::PIPE => 31,
            Cpp::CARET => 32,
            Cpp::AMP => 33,
            Cpp::EQEQ => 34,
            Cpp::BANGEQ => 35,
            Cpp::GT => 36,
            Cpp::GTEQ => 37,
            Cpp::LTEQ => 38,
            Cpp::LT => 39,
            Cpp::LTLT => 40,
            Cpp::GTGT => 41,
            Cpp::SEMI => 42,
            Cpp::Extension => 43,
            Cpp::Typedef => 44,
            Cpp::Virtual => 45,
            Cpp::Extern => 46,
            Cpp::Attribute2 => 47,
            Cpp::Attribute3 => 48,
            Cpp::COLONCOLON => 49,
            Cpp::LBRACKLBRACK => 50,
            Cpp::RBRACKRBRACK => 51,
            Cpp::Declspec => 52,
            Cpp::Based => 53,
            Cpp::Cdecl => 54,
            Cpp::Clrcall => 55,
            Cpp::Stdcall => 56,
            Cpp::Fastcall => 57,
            Cpp::Thiscall => 58,
            Cpp::Vectorcall => 59,
            Cpp::MsRestrictModifier => 60,
            Cpp::MsUnsignedPtrModifier => 61,
            Cpp::MsSignedPtrModifier => 62,
            Cpp::Unaligned => 63,
            Cpp::Unaligned2 => 64,
            Cpp::LBRACE => 65,
            Cpp::RBRACE => 66,
            Cpp::Signed => 67,
            Cpp::Unsigned => 68,
            Cpp::Long => 69,
            Cpp::Short => 70,
            Cpp::LBRACK => 71,
            Cpp::Static => 72,
            Cpp::RBRACK => 73,
            Cpp::EQ => 74,
            Cpp::Register => 75,
            Cpp::Inline => 76,
            Cpp::Inline2 => 77,
            Cpp::Inline3 => 78,
            Cpp::Forceinline => 79,
            Cpp::ThreadLocal => 80,
            Cpp::Thread => 81,
            Cpp::Const => 82,
            Cpp::Constexpr => 83,
            Cpp::Volatile => 84,
            Cpp::Restrict => 85,
            Cpp::Restrict2 => 86,
            Cpp::Atomic => 87,
            Cpp::Noreturn => 88,
            Cpp::Noreturn2 => 89,
            Cpp::Nonnull => 90,
            Cpp::Mutable => 91,
            Cpp::Constinit => 92,
            Cpp::Consteval => 93,
            Cpp::Alignas => 94,
            Cpp::Alignas2 => 95,
            Cpp::PrimitiveType => 96,
            Cpp::Enum => 97,
            Cpp::Class => 98,
            Cpp::Struct => 99,
            Cpp::Union => 100,
            Cpp::COLON => 101,
            Cpp::If2 => 102,
            Cpp::Else2 => 103,
            Cpp::Switch => 104,
            Cpp::Case => 105,
            Cpp::Default => 106,
            Cpp::While => 107,
            Cpp::Do => 108,
            Cpp::For => 109,
            Cpp::Return => 110,
            Cpp::Break => 111,
            Cpp::Continue => 112,
            Cpp::Goto => 113,
            Cpp::Try => 114,
            Cpp::Except => 115,
            Cpp::Finally => 116,
            Cpp::Leave => 117,
            Cpp::QMARK => 118,
            Cpp::STAREQ => 119,
            Cpp::SLASHEQ => 120,
            Cpp::PERCENTEQ => 121,
            Cpp::PLUSEQ => 122,
            Cpp::DASHEQ => 123,
            Cpp::LTLTEQ => 124,
            Cpp::GTGTEQ => 125,
            Cpp::AMPEQ => 126,
            Cpp::CARETEQ => 127,
            Cpp::PIPEEQ => 128,
            Cpp::AndEq => 129,
            Cpp::OrEq => 130,
            Cpp::XorEq => 131,
            Cpp::Not => 132,
            Cpp::Compl => 133,
            Cpp::LTEQGT => 134,
            Cpp::Or => 135,
            Cpp::And => 136,
            Cpp::Bitor => 137,
            Cpp::Xor => 138,
            Cpp::Bitand => 139,
            Cpp::NotEq => 140,
            Cpp::DASHDASH => 141,
            Cpp::PLUSPLUS => 142,
            Cpp::Sizeof => 143,
            Cpp::Alignof => 144,
            Cpp::Alignof2 => 145,
            Cpp::Alignof3 => 146,
            Cpp::Alignof4 => 147,
            Cpp::Alignof5 => 148,
            Cpp::Offsetof => 149,
            Cpp::Generic => 150,
            Cpp::Asm => 151,
            Cpp::Asm2 => 152,
            Cpp::Asm3 => 153,
            Cpp::Volatile2 => 154,
            Cpp::DOT => 155,
            Cpp::DOTSTAR => 156,
            Cpp::DASHGT => 157,
            Cpp::NumberLiteral => 158,
            Cpp::L => 159,
            Cpp::U => 160,
            Cpp::U2 => 161,
            Cpp::U8 => 162,
            Cpp::SQUOTE => 163,
            Cpp::Character => 164,
            Cpp::L2 => 165,
            Cpp::U3 => 166,
            Cpp::U4 => 167,
            Cpp::U82 => 168,
            Cpp::DQUOTE => 169,
            Cpp::StringContent => 170,
            Cpp::EscapeSequence => 171,
            Cpp::SystemLibString => 172,
            Cpp::True => 173,
            Cpp::False => 174,
            Cpp::NULL => 175,
            Cpp::Nullptr => 176,
            Cpp::Comment => 177,
            Cpp::Auto => 178,
            Cpp::Decltype3 => 179,
            Cpp::FinalKw => 180,
            Cpp::Override => 181,
            Cpp::Explicit => 182,
            Cpp::Typename => 183,
            Cpp::Template => 184,
            Cpp::GT2 => 185,
            Cpp::Operator => 186,
            Cpp::Try2 => 187,
            Cpp::Delete => 188,
            Cpp::PureVirtualClauseToken1 => 189,
            Cpp::Friend => 190,
            Cpp::Public => 191,
            Cpp::Private => 192,
            Cpp::Protected => 193,
            Cpp::Noexcept2 => 194,
            Cpp::Throw => 195,
            Cpp::Namespace => 196,
            Cpp::Using => 197,
            Cpp::StaticAssert => 198,
            Cpp::Concept => 199,
            Cpp::CoReturn => 200,
            Cpp::CoYield => 201,
            Cpp::Catch => 202,
            Cpp::R => 203,
            Cpp::LR => 204,
            Cpp::UR => 205,
            Cpp::UR2 => 206,
            Cpp::U8R => 207,
            Cpp::CoAwait => 208,
            Cpp::New => 209,
            Cpp::Requires => 210,
            Cpp::DASHGTSTAR => 211,
            Cpp::LPARENRPAREN => 212,
            Cpp::LBRACKRBRACK => 213,
            Cpp::DQUOTEDQUOTE => 214,
            Cpp::This => 215,
            Cpp::LiteralSuffix => 216,
            Cpp::RawStringDelimiter => 217,
            Cpp::RawStringContent => 218,
            Cpp::TranslationUnit => 219,
            Cpp::TopLevelItem => 220,
            Cpp::BlockItem => 221,
            Cpp::PreprocInclude => 222,
            Cpp::PreprocDef => 223,
            Cpp::PreprocFunctionDef => 224,
            Cpp::PreprocParams => 225,
            Cpp::PreprocCall => 226,
            Cpp::PreprocIf => 227,
            Cpp::PreprocIfdef => 228,
            Cpp::PreprocElse => 229,
            Cpp::PreprocElif => 230,
            Cpp::PreprocElifdef => 231,
            Cpp::PreprocIf2 => 232,
            Cpp::PreprocIfdef2 => 233,
            Cpp::PreprocElse2 => 234,
            Cpp::PreprocElif2 => 235,
            Cpp::PreprocElifdef2 => 236,
            Cpp::PreprocIf3 => 237,
            Cpp::PreprocIfdef3 => 238,
            Cpp::PreprocElse3 => 239,
            Cpp::PreprocElif3 => 240,
            Cpp::PreprocElifdef3 => 241,
            Cpp::PreprocIf4 => 242,
            Cpp::PreprocIfdef4 => 243,
            Cpp::PreprocElse4 => 244,
            Cpp::PreprocElif4 => 245,
            Cpp::PreprocElifdef4 => 246,
            Cpp::PreprocExpression => 247,
            Cpp::ParenthesizedExpression => 248,
            Cpp::PreprocDefined => 249,
            Cpp::UnaryExpression => 250,
            Cpp::CallExpression => 251,
            Cpp::ArgumentList => 252,
            Cpp::BinaryExpression => 253,
            Cpp::FunctionDefinition => 254,
            Cpp::Declaration => 255,
            Cpp::TypeDefinition => 256,
            Cpp::TypeDefinitionType => 257,
            Cpp::TypeDefinitionDeclarators => 258,
            Cpp::DeclarationModifiers => 259,
            Cpp::DeclarationSpecifiers => 260,
            Cpp::LinkageSpecification => 261,
            Cpp::AttributeSpecifier => 262,
            Cpp::Attribute => 263,
            Cpp::AttributeDeclaration => 264,
            Cpp::MsDeclspecModifier => 265,
            Cpp::MsBasedModifier => 266,
            Cpp::MsCallModifier => 267,
            Cpp::MsUnalignedPtrModifier => 268,
            Cpp::MsPointerModifier => 269,
            Cpp::DeclarationList => 270,
            Cpp::Declarator => 271,
            Cpp::FieldDeclarator => 272,
            Cpp::TypeDeclarator => 273,
            Cpp::AbstractDeclarator => 274,
            Cpp::ParenthesizedDeclarator => 275,
            Cpp::ParenthesizedDeclarator2 => 276,
            Cpp::ParenthesizedDeclarator3 => 277,
            Cpp::AbstractParenthesizedDeclarator => 278,
            Cpp::AttributedDeclarator => 279,
            Cpp::AttributedDeclarator2 => 280,
            Cpp::AttributedDeclarator3 => 281,
            Cpp::PointerDeclarator => 282,
            Cpp::PointerDeclarator2 => 283,
            Cpp::PointerTypeDeclarator => 284,
            Cpp::AbstractPointerDeclarator => 285,
            Cpp::FunctionDeclarator => 286,
            Cpp::FunctionDeclarator2 => 287,
            Cpp::FunctionDeclarator3 => 288,
            Cpp::AbstractFunctionDeclarator => 289,
            Cpp::ArrayDeclarator => 290,
            Cpp::ArrayDeclarator2 => 291,
            Cpp::ArrayDeclarator3 => 292,
            Cpp::AbstractArrayDeclarator => 293,
            Cpp::InitDeclarator => 294,
            Cpp::CompoundStatement => 295,
            Cpp::StorageClassSpecifier => 296,
            Cpp::TypeQualifier => 297,
            Cpp::AlignasQualifier => 298,
            Cpp::TypeSpecifier => 299,
            Cpp::SizedTypeSpecifier => 300,
            Cpp::EnumSpecifier => 301,
            Cpp::EnumeratorList => 302,
            Cpp::StructSpecifier => 303,
            Cpp::UnionSpecifier => 304,
            Cpp::FieldDeclarationList => 305,
            Cpp::FieldDeclarationListItem => 306,
            Cpp::FieldDeclaration => 307,
            Cpp::BitfieldClause => 308,
            Cpp::Enumerator => 309,
            Cpp::ParameterList => 310,
            Cpp::ParameterDeclaration => 311,
            Cpp::AttributedStatement => 312,
            Cpp::Statement => 313,
            Cpp::TopLevelStatement => 314,
            Cpp::LabeledStatement => 315,
            Cpp::ExpressionStatement => 316,
            Cpp::ExpressionStatement2 => 317,
            Cpp::IfStatement => 318,
            Cpp::ElseClause => 319,
            Cpp::SwitchStatement => 320,
            Cpp::CaseStatement => 321,
            Cpp::WhileStatement => 322,
            Cpp::DoStatement => 323,
            Cpp::ForStatement => 324,
            Cpp::ForStatementBody => 325,
            Cpp::ReturnStatement => 326,
            Cpp::BreakStatement => 327,
            Cpp::ContinueStatement => 328,
            Cpp::GotoStatement => 329,
            Cpp::SehTryStatement => 330,
            Cpp::SehExceptClause => 331,
            Cpp::SehFinallyClause => 332,
            Cpp::SehLeaveStatement => 333,
            Cpp::Expression => 334,
            Cpp::String => 335,
            Cpp::CommaExpression => 336,
            Cpp::ConditionalExpression => 337,
            Cpp::AssignmentExpression => 338,
            Cpp::PointerExpression => 339,
            Cpp::UnaryExpression2 => 340,
            Cpp::BinaryExpression2 => 341,
            Cpp::UpdateExpression => 342,
            Cpp::CastExpression => 343,
            Cpp::TypeDescriptor => 344,
            Cpp::SizeofExpression => 345,
            Cpp::AlignofExpression => 346,
            Cpp::OffsetofExpression => 347,
            Cpp::GenericExpression => 348,
            Cpp::SubscriptExpression => 349,
            Cpp::CallExpression2 => 350,
            Cpp::GnuAsmExpression => 351,
            Cpp::GnuAsmQualifier => 352,
            Cpp::GnuAsmOutputOperandList => 353,
            Cpp::GnuAsmOutputOperand => 354,
            Cpp::GnuAsmInputOperandList => 355,
            Cpp::GnuAsmInputOperand => 356,
            Cpp::GnuAsmClobberList => 357,
            Cpp::GnuAsmGotoList => 358,
            Cpp::ExtensionExpression => 359,
            Cpp::ArgumentList2 => 360,
            Cpp::FieldExpression => 361,
            Cpp::CompoundLiteralExpression => 362,
            Cpp::ParenthesizedExpression2 => 363,
            Cpp::InitializerList => 364,
            Cpp::InitializerPair => 365,
            Cpp::SubscriptDesignator => 366,
            Cpp::SubscriptRangeDesignator => 367,
            Cpp::FieldDesignator => 368,
            Cpp::CharLiteral => 369,
            Cpp::ConcatenatedString => 370,
            Cpp::StringLiteral => 371,
            Cpp::Null => 372,
            Cpp::EmptyDeclaration => 373,
            Cpp::PlaceholderTypeSpecifier => 374,
            Cpp::Decltype => 375,
            Cpp::Decltype2 => 376,
            Cpp::ClassDeclaration => 377,
            Cpp::ClassDeclarationItem => 378,
            Cpp::ClassSpecifier => 379,
            Cpp::ClassName => 380,
            Cpp::VirtualSpecifier => 381,
            Cpp::ExplicitFunctionSpecifier => 382,
            Cpp::BaseClassClause => 383,
            Cpp::EnumBaseClause => 384,
            Cpp::DependentType => 385,
            Cpp::TemplateDeclaration => 386,
            Cpp::TemplateInstantiation => 387,
            Cpp::TemplateParameterList => 388,
            Cpp::TypeParameterDeclaration => 389,
            Cpp::VariadicTypeParameterDeclaration => 390,
            Cpp::OptionalTypeParameterDeclaration => 391,
            Cpp::TemplateTemplateParameterDeclaration => 392,
            Cpp::OptionalParameterDeclaration => 393,
            Cpp::VariadicParameterDeclaration => 394,
            Cpp::VariadicDeclarator => 395,
            Cpp::ReferenceDeclarator => 396,
            Cpp::OperatorCast => 397,
            Cpp::FieldInitializerList => 398,
            Cpp::FieldInitializer => 399,
            Cpp::FunctionDefinition2 => 400,
            Cpp::ConstructorSpecifiers => 401,
            Cpp::FunctionDefinition3 => 402,
            Cpp::Declaration2 => 403,
            Cpp::TryStatement => 404,
            Cpp::FunctionDefinition4 => 405,
            Cpp::Declaration3 => 406,
            Cpp::DefaultMethodClause => 407,
            Cpp::DeleteMethodClause => 408,
            Cpp::PureVirtualClause => 409,
            Cpp::FriendDeclaration => 410,
            Cpp::AccessSpecifier => 411,
            Cpp::ReferenceDeclarator2 => 412,
            Cpp::ReferenceDeclarator3 => 413,
            Cpp::ReferenceDeclarator4 => 414,
            Cpp::AbstractReferenceDeclarator => 415,
            Cpp::StructuredBindingDeclarator => 416,
            Cpp::RefQualifier => 417,
            Cpp::FunctionDeclaratorSeq => 418,
            Cpp::FunctionAttributesStart => 419,
            Cpp::FunctionExceptionSpecification => 420,
            Cpp::FunctionAttributesEnd => 421,
            Cpp::FunctionPostfix => 422,
            Cpp::TrailingReturnType => 423,
            Cpp::Noexcept => 424,
            Cpp::ThrowSpecifier => 425,
            Cpp::TemplateType => 426,
            Cpp::TemplateMethod => 427,
            Cpp::TemplateFunction => 428,
            Cpp::TemplateArgumentList => 429,
            Cpp::NamespaceDefinition => 430,
            Cpp::NamespaceAliasDefinition => 431,
            Cpp::NamespaceSpecifier => 432,
            Cpp::NestedNamespaceSpecifier => 433,
            Cpp::UsingDeclaration => 434,
            Cpp::AliasDeclaration => 435,
            Cpp::StaticAssertDeclaration => 436,
            Cpp::ConceptDefinition => 437,
            Cpp::ForRangeLoop => 438,
            Cpp::ForRangeLoopBody => 439,
            Cpp::InitStatement => 440,
            Cpp::ConditionClause => 441,
            Cpp::Declaration4 => 442,
            Cpp::CoReturnStatement => 443,
            Cpp::CoYieldStatement => 444,
            Cpp::ThrowStatement => 445,
            Cpp::TryStatement2 => 446,
            Cpp::CatchClause => 447,
            Cpp::RawStringLiteral => 448,
            Cpp::SubscriptArgumentList => 449,
            Cpp::CoAwaitExpression => 450,
            Cpp::NewExpression => 451,
            Cpp::NewDeclarator => 452,
            Cpp::DeleteExpression => 453,
            Cpp::TypeRequirement => 454,
            Cpp::CompoundRequirement => 455,
            Cpp::Requirement => 456,
            Cpp::RequirementSeq => 457,
            Cpp::ConstraintConjunction => 458,
            Cpp::ConstraintDisjunction => 459,
            Cpp::RequirementClauseConstraint => 460,
            Cpp::RequiresClause => 461,
            Cpp::ParameterList2 => 462,
            Cpp::RequiresExpression => 463,
            Cpp::LambdaExpression => 464,
            Cpp::LambdaCaptureSpecifier => 465,
            Cpp::LambdaDefaultCapture => 466,
            Cpp::LambdaCaptureIdentifier => 467,
            Cpp::LambdaCaptureInitializer => 468,
            Cpp::LambdaCapture => 469,
            Cpp::FoldOperator => 470,
            Cpp::BinaryFoldOperator => 471,
            Cpp::UnaryLeftFold => 472,
            Cpp::UnaryRightFold => 473,
            Cpp::BinaryFold => 474,
            Cpp::FoldExpression => 475,
            Cpp::ParameterPackExpansion => 476,
            Cpp::ParameterPackExpansion2 => 477,
            Cpp::ParameterPackExpansion3 => 478,
            Cpp::DestructorName => 479,
            Cpp::DependentName => 480,
            Cpp::DependentName2 => 481,
            Cpp::DependentName3 => 482,
            Cpp::ScopeResolution => 483,
            Cpp::QualifiedIdentifier => 484,
            Cpp::QualifiedIdentifier2 => 485,
            Cpp::QualifiedIdentifier3 => 486,
            Cpp::QualifiedIdentifier4 => 487,
            Cpp::AssignmentExpression2 => 488,
            Cpp::OperatorName => 489,
            Cpp::UserDefinedLiteral => 490,
            Cpp::TranslationUnitRepeat1 => 491,
            Cpp::PreprocParamsRepeat1 => 492,
            Cpp::PreprocIfRepeat1 => 493,
            Cpp::PreprocIfInFieldDeclarationListRepeat1 => 494,
            Cpp::PreprocIfInEnumeratorListRepeat1 => 495,
            Cpp::PreprocIfInEnumeratorListNoCommaRepeat1 => 496,
            Cpp::PreprocArgumentListRepeat1 => 497,
            Cpp::DeclarationRepeat1 => 498,
            Cpp::TypeDefinitionRepeat1 => 499,
            Cpp::TypeDefinitionTypeRepeat1 => 500,
            Cpp::TypeDefinitionDeclaratorsRepeat1 => 501,
            Cpp::DeclarationSpecifiersRepeat1 => 502,
            Cpp::AttributeDeclarationRepeat1 => 503,
            Cpp::AttributedDeclaratorRepeat1 => 504,
            Cpp::PointerDeclaratorRepeat1 => 505,
            Cpp::ArrayDeclaratorRepeat1 => 506,
            Cpp::SizedTypeSpecifierRepeat1 => 507,
            Cpp::EnumeratorListRepeat1 => 508,
            Cpp::FieldDeclarationRepeat1 => 509,
            Cpp::ParameterListRepeat1 => 510,
            Cpp::CaseStatementRepeat1 => 511,
            Cpp::GenericExpressionRepeat1 => 512,
            Cpp::GnuAsmExpressionRepeat1 => 513,
            Cpp::GnuAsmOutputOperandListRepeat1 => 514,
            Cpp::GnuAsmInputOperandListRepeat1 => 515,
            Cpp::GnuAsmClobberListRepeat1 => 516,
            Cpp::GnuAsmGotoListRepeat1 => 517,
            Cpp::ArgumentListRepeat1 => 518,
            Cpp::InitializerListRepeat1 => 519,
            Cpp::InitializerPairRepeat1 => 520,
            Cpp::CharLiteralRepeat1 => 521,
            Cpp::ConcatenatedStringRepeat1 => 522,
            Cpp::StringLiteralRepeat1 => 523,
            Cpp::ClassDeclarationRepeat1 => 524,
            Cpp::BaseClassClauseRepeat1 => 525,
            Cpp::TemplateParameterListRepeat1 => 526,
            Cpp::FieldInitializerListRepeat1 => 527,
            Cpp::OperatorCastDefinitionRepeat1 => 528,
            Cpp::ConstructorTryStatementRepeat1 => 529,
            Cpp::StructuredBindingDeclaratorRepeat1 => 530,
            Cpp::FunctionPostfixRepeat1 => 531,
            Cpp::ThrowSpecifierRepeat1 => 532,
            Cpp::TemplateArgumentListRepeat1 => 533,
            Cpp::SubscriptArgumentListRepeat1 => 534,
            Cpp::RequirementSeqRepeat1 => 535,
            Cpp::RequiresParameterListRepeat1 => 536,
            Cpp::LambdaCaptureSpecifierRepeat1 => 537,
            Cpp::FieldIdentifier => 538,
            Cpp::NamespaceIdentifier => 539,
            Cpp::SimpleRequirement => 540,
            Cpp::StatementIdentifier => 541,
            Cpp::TypeIdentifier => 542,
            Cpp::Error => 543,
        }
    }

    /// The kind that a numeric id stands for: ids past the table give `Error`.
    pub open spec fn spec_from_id(x: u16) -> Cpp {
        match x {
            0 => Cpp::End,
            1 => Cpp::Identifier,
            2 => Cpp::Include,
            3 => Cpp::PreprocIncludeToken2,
            4 => Cpp::Define,
            5 => Cpp::LPAREN,
            6 => Cpp::DOTDOTDOT,
            7 => Cpp::COMMA,
            8 => Cpp::RPAREN,
            9 => Cpp::If,
            10 => Cpp::X,
            11 => Cpp::Endif,
            12 => Cpp::Ifdef,
            13 => Cpp::Ifndef,
            14 => Cpp::Else,
            15 => Cpp::Elif,
            16 => Cpp::Elifdef,
            17 => Cpp::Elifndef,
            18 => Cpp::PreprocArg,
            19 => Cpp::PreprocDirective,
            20 => Cpp::LPAREN2,
            21 => Cpp::Defined,
            22 => Cpp::BANG,
            23 => Cpp::TILDE,
            24 => Cpp::DASH,
            25 => Cpp::PLUS,
            26 => Cpp::STAR,
            27 => Cpp::SLASH,
            28 => Cpp::PERCENT,
            29 => Cpp::PIPEPIPE,
            30 => Cpp::AMPAMP,
            31 => Cpp::PIPE,
            32 => Cpp::CARET,
            33 => Cpp::AMP,
            34 => Cpp::EQEQ,
            35 => Cpp::BANGEQ,
            36 => Cpp::GT,
            37 => Cpp::GTEQ,
            38 => Cpp::LTEQ,
            39 => Cpp::LT,
            40 => Cpp::LTLT,
            41 => Cpp::GTGT,
            42 => Cpp::SEMI,
            43 => Cpp::Extension,
            44 => Cpp::Typedef,
            45 => Cpp::Virtual,
            46 => Cpp::Extern,
            47 => Cpp::Attribute2,
            48 => Cpp::Attribute3,
            49 => Cpp::COLONCOLON,
            50 => Cpp::LBRACKLBRACK,
            51 => Cpp::RBRACKRBRACK,
            52 => Cpp::Declspec,
            53 => Cpp::Based,
            54 => Cpp::Cdecl,
            55 => Cpp::Clrcall,
            56 => Cpp::Stdcall,
            57 => Cpp::Fastcall,
            58 => Cpp::Thiscall,
            59 => Cpp::Vectorcall,
            60 => Cpp::MsRestrictModifier,
            61 => Cpp::MsUnsignedPtrModifier,
            62 => Cpp::MsSignedPtrModifier,
            63 => Cpp::Unaligned,
            64 => Cpp::Unaligned2,
            65 => Cpp::LBRACE,
            66 => Cpp::RBRACE,
            67 => Cpp::Signed,
            68 => Cpp::Unsigned,
            69 => Cpp::Long,
            70 => Cpp::Short,
            71 => Cpp::LBRACK,
            72 => Cpp::Static,
            73 => Cpp::RBRACK,
            74 => Cpp::EQ,
            75 => Cpp::Register,
            76 => Cpp::Inline,
            77 => Cpp::Inline2,
            78 => Cpp::Inline3,
            79 => Cpp::Forceinline,
            80 => Cpp::ThreadLocal,
            81 => Cpp::Thread,
            82 => Cpp::Const,
            83 => Cpp::Constexpr,
            84 => Cpp::Volatile,
            85 => Cpp::Restrict,
            86 => Cpp::Restrict2,
            87 => Cpp::Atomic,
            88 => Cpp::Noreturn,
            89 => Cpp::Noreturn2,
            90 => Cpp::Nonnull,
            91 => Cpp::Mutable,
            92 => Cpp::Constinit,
            93 => Cpp::Consteval,
            94 => Cpp::Alignas,
            95 => Cpp::Alignas2,
            96 => Cpp::PrimitiveType,
            97 => Cpp::Enum,
            98 => Cpp::Class,
            99 => Cpp::Struct,
            100 => Cpp::Union,
            101 => Cpp::COLON,
            102 => Cpp::If2,
            103 => Cpp::Else2,
            104 => Cpp::Switch,
            105 => Cpp::Case,
            106 => Cpp::Default,
            107 => Cpp::While,
            108 => Cpp::Do,
            109 => Cpp::For,
            110 => Cpp::Return,
            111 => Cpp::Break,
            112 => Cpp::Continue,
            113 => Cpp::Goto,
            114 => Cpp::Try,
            115 => Cpp::Except,
            116 => Cpp::Finally,
            117 => Cpp::Leave,
            118 => Cpp::QMARK,
            119 => Cpp::STAREQ,
            120 => Cpp::SLASHEQ,
            121 => Cpp::PERCENTEQ,
            122 => Cpp::PLUSEQ,
            123 => Cpp::DASHEQ,
            124 => Cpp::LTLTEQ,
            125 => Cpp::GTGTEQ,
            126 => Cpp::AMPEQ,
            127 => Cpp::CARETEQ,
            128 => Cpp::PIPEEQ,
            129 => Cpp::AndEq,
            130 => Cpp::OrEq,
            131 => Cpp::XorEq,
            132 => Cpp::Not,
            133 => Cpp::Compl,
            134 => Cpp::LTEQGT,
            135 => Cpp::Or,
            136 => Cpp::And,
            137 => Cpp::Bitor,
            138 => Cpp::Xor,
            139 => Cpp::Bitand,
            140 => Cpp::NotEq,
            141 => Cpp::DASHDASH,
            142 => Cpp::PLUSPLUS,
            143 => Cpp::Sizeof,
            144 => Cpp::Alignof,
            145 => Cpp::Alignof2,
            146 => Cpp::Alignof3,
            147 => Cpp::Alignof4,
            148 => Cpp::Alignof5,
            149 => Cpp::Offsetof,
            150 => Cpp::Generic,
            151 => Cpp::Asm,
            152 => Cpp::Asm2,
            153 => Cpp::Asm3,
            154 => Cpp::Volatile2,
            155 => Cpp::DOT,
            156 => Cpp::DOTSTAR,
            157 => Cpp::DASHGT,
            158 => Cpp::NumberLiteral,
            159 => Cpp::L,
            160 => Cpp::U,
            161 => Cpp::U2,
            162 => Cpp::U8,
            163 => Cpp::SQUOTE,
            164 => Cpp::Character,
            165 => Cpp::L2,
            166 => Cpp::U3,
            167 => Cpp::U4,
            168 => Cpp::U82,
            169 => Cpp::DQUOTE,
            170 => Cpp::StringContent,
            171 => Cpp::EscapeSequence,
            172 => Cpp::SystemLibString,
            173 => Cpp::True,
            174 => Cpp::False,
            175 => Cpp::NULL,
            176 => Cpp::Nullptr,
            177 => Cpp::Comment,
            178 => Cpp::Auto,
            179 => Cpp::Decltype3,
            180 => Cpp::FinalKw,
            181 => Cpp::Override,
            182 => Cpp::Explicit,
            183 => Cpp::Typename,
            184 => Cpp::Template,
            185 => Cpp::GT2,
            186 => Cpp::Operator,
            187 => Cpp::Try2,
            188 => Cpp::Delete,
            189 => Cpp::PureVirtualClauseToken1,
            190 => Cpp::Friend,
            191 => Cpp::Public,
            192 => Cpp::Private,
            193 => Cpp::Protected,
            194 => Cpp::Noexcept2,
            195 => Cpp::Throw,
            196 => Cpp::Namespace,
            197 => Cpp::Using,
            198 => Cpp::StaticAssert,
            199 => Cpp::Concept,
            200 => Cpp::CoReturn,
            201 => Cpp::CoYield,
            202 => Cpp::Catch,
            203 => Cpp::R,
            204 => Cpp::LR,
            205 => Cpp::UR,
            206 => Cpp::UR2,
            207 => Cpp::U8R,
            208 => Cpp::CoAwait,
            209 => Cpp::New,
            210 => Cpp::Requires,
            211 => Cpp::DASHGTSTAR,
            212 => Cpp::LPARENRPAREN,
            213 => Cpp::LBRACKRBRACK,
            214 => Cpp::DQUOTEDQUOTE,
            215 => Cpp::This,
            216 => Cpp::LiteralSuffix,
            217 => Cpp::RawStringDelimiter,
            218 => Cpp::RawStringContent,
            219 => Cpp::TranslationUnit,
            220 => Cpp::TopLevelItem,
            221 => Cpp::BlockItem,
            222 => Cpp::PreprocInclude,
            223 => Cpp::PreprocDef,
            224 => Cpp::PreprocFunctionDef,
            225 => Cpp::PreprocParams,
            226 => Cpp::PreprocCall,
            227 => Cpp::PreprocIf,
            228 => Cpp::PreprocIfdef,
            229 => Cpp::PreprocElse,
            230 => Cpp::PreprocElif,
            231 => Cpp::PreprocElifdef,
            232 => Cpp::PreprocIf2,
            233 => Cpp::PreprocIfdef2,
            234 => Cpp::PreprocElse2,
            235 => Cpp::PreprocElif2,
            236 => Cpp::PreprocElifdef2,
            237 => Cpp::PreprocIf3,
            238 => Cpp::PreprocIfdef3,
            239 => Cpp::PreprocElse3,
            240 => Cpp::PreprocElif3,
            241 => Cpp::PreprocElifdef3,
            242 => Cpp::PreprocIf4,
            243 => Cpp::PreprocIfdef4,
            244 => Cpp::PreprocElse4,
            245 => Cpp::PreprocElif4,
            246 => Cpp::PreprocElifdef4,
            247 => Cpp::PreprocExpression,
            248 => Cpp::ParenthesizedExpression,
            249 => Cpp::PreprocDefined,
            250 => Cpp::UnaryExpression,
            251 => Cpp::CallExpression,
            252 => Cpp::ArgumentList,
            253 => Cpp::BinaryExpression,
            254 => Cpp::FunctionDefinition,
            255 => Cpp::Declaration,
            256 => Cpp::TypeDefinition,
            257 => Cpp::TypeDefinitionType,
            258 => Cpp::TypeDefinitionDeclarators,
            259 => Cpp::DeclarationModifiers,
            260 => Cpp::DeclarationSpecifiers,
            261 => Cpp::LinkageSpecification,
            262 => Cpp::AttributeSpecifier,
            263 => Cpp::Attribute,
            264 => Cpp::AttributeDeclaration,
            265 => Cpp::MsDeclspecModifier,
            266 => Cpp::MsBasedModifier,
            267 => Cpp::MsCallModifier,
            268 => Cpp::MsUnalignedPtrModifier,
            269 => Cpp::MsPointerModifier,
            270 => Cpp::DeclarationList,
            271 => Cpp::Declarator,
            272 => Cpp::FieldDeclarator,
            273 => Cpp::TypeDeclarator,
            274 => Cpp::AbstractDeclarator,
            275 => Cpp::ParenthesizedDeclarator,
            276 => Cpp::ParenthesizedDeclarator2,
            277 => Cpp::ParenthesizedDeclarator3,
            278 => Cpp::AbstractParenthesizedDeclarator,
            279 => Cpp::AttributedDeclarator,
            280 => Cpp::AttributedDeclarator2,
            281 => Cpp::AttributedDeclarator3,
            282 => Cpp::PointerDeclarator,
            283 => Cpp::PointerDeclarator2,
            284 => Cpp::PointerTypeDeclarator,
            285 => Cpp::AbstractPointerDeclarator,
            286 => Cpp::FunctionDeclarator,
            287 => Cpp::FunctionDeclarator2,
            288 => Cpp::FunctionDeclarator3,
            289 => Cpp::AbstractFunctionDeclarator,
            290 => Cpp::ArrayDeclarator,
            291 => Cpp::ArrayDeclarator2,
            292 => Cpp::ArrayDeclarator3,
            293 => Cpp::AbstractArrayDeclarator,
            294 => Cpp::InitDeclarator,
            295 => Cpp::CompoundStatement,
            296 => Cpp::StorageClassSpecifier,
            297 => Cpp::TypeQualifier,
            298 => Cpp::AlignasQualifier,
            299 => Cpp::TypeSpecifier,
            300 => Cpp::SizedTypeSpecifier,
            301 => Cpp::EnumSpecifier,
            302 => Cpp::EnumeratorList,
            303 => Cpp::StructSpecifier,
            304 => Cpp::UnionSpecifier,
            305 => Cpp::FieldDeclarationList,
            306 => Cpp::FieldDeclarationListItem,
            307 => Cpp::FieldDeclaration,
            308 => Cpp::BitfieldClause,
            309 => Cpp::Enumerator,
            310 => Cpp::ParameterList,
            311 => Cpp::ParameterDeclaration,
            312 => Cpp::AttributedStatement,
            313 => Cpp::Statement,
            314 => Cpp::TopLevelStatement,
            315 => Cpp::LabeledStatement,
            316 => Cpp::ExpressionStatement,
            317 => Cpp::ExpressionStatement2,
            318 => Cpp::IfStatement,
            319 => Cpp::ElseClause,
            320 => Cpp::SwitchStatement,
            321 => Cpp::CaseStatement,
            322 => Cpp::WhileStatement,
            323 => Cpp::DoStatement,
            324 => Cpp::ForStatement,
            325 => Cpp::ForStatementBody,
            326 => Cpp::ReturnStatement,
            327 => Cpp::BreakStatement,
            328 => Cpp::ContinueStatement,
            329 => Cpp::GotoStatement,
            330 => Cpp::SehTryStatement,
            331 => Cpp::SehExceptClause,
            332 => Cpp::SehFinallyClause,
            333 => Cpp::SehLeaveStatement,
            334 => Cpp::Expression,
            335 => Cpp::String,
            336 => Cpp::CommaExpression,
            337 => Cpp::ConditionalExpression,
            338 => Cpp::AssignmentExpression,
            339 => Cpp::PointerExpression,
            340 => Cpp::UnaryExpression2,
            341 => Cpp::BinaryExpression2,
            342 => Cpp::UpdateExpression,
            343 => Cpp::CastExpression,
            344 => Cpp::TypeDescriptor,
            345 => Cpp::SizeofExpression,
            346 => Cpp::AlignofExpression,
            347 => Cpp::OffsetofExpression,
            348 => Cpp::GenericExpression,
            349 => Cpp::SubscriptExpression,
            350 => Cpp::CallExpression2,
            351 => Cpp::GnuAsmExpression,
            352 => Cpp::GnuAsmQualifier,
            353 => Cpp::GnuAsmOutputOperandList,
            354 => Cpp::GnuAsmOutputOperand,
            355 => Cpp::GnuAsmInputOperandList,
            356 => Cpp::GnuAsmInputOperand,
            357 => Cpp::GnuAsmClobberList,
            358 => Cpp::GnuAsmGotoList,
            359 => Cpp::ExtensionExpression,
            360 => Cpp::ArgumentList2,
            361 => Cpp::FieldExpression,
            362 => Cpp::CompoundLiteralExpression,
            363 => Cpp::ParenthesizedExpression2,
            364 => Cpp::InitializerList,
            365 => Cpp::InitializerPair,
            366 => Cpp::SubscriptDesignator,
            367 => Cpp::SubscriptRangeDesignator,
            368 => Cpp::FieldDesignator,
            369 => Cpp::CharLiteral,
            370 => Cpp::ConcatenatedString,
            371 => Cpp::StringLiteral,
            372 => Cpp::Null,
            373 => Cpp::EmptyDeclaration,
            374 => Cpp::PlaceholderTypeSpecifier,
            375 => Cpp::Decltype,
            376 => Cpp::Decltype2,
            377 => Cpp::ClassDeclaration,
            378 => Cpp::ClassDeclarationItem,
            379 => Cpp::ClassSpecifier,
            380 => Cpp::ClassName,
            381 => Cpp::VirtualSpecifier,
            382 => Cpp::ExplicitFunctionSpecifier,
            383 => Cpp::BaseClassClause,
            384 => Cpp::EnumBaseClause,
            385 => Cpp::DependentType,
            386 => Cpp::TemplateDeclaration,
            387 => Cpp::TemplateInstantiation,
            388 => Cpp::TemplateParameterList,
            389 => Cpp::TypeParameterDeclaration,
            390 => Cpp::VariadicTypeParameterDeclaration,
            391 => Cpp::OptionalTypeParameterDeclaration,
            392 => Cpp::TemplateTemplateParameterDeclaration,
            393 => Cpp::OptionalParameterDeclaration,
            394 => Cpp::VariadicParameterDeclaration,
            395 => Cpp::VariadicDeclarator,
            396 => Cpp::ReferenceDeclarator,
            397 => Cpp::OperatorCast,
            398 => Cpp::FieldInitializerList,
            399 => Cpp::FieldInitializer,
            400 => Cpp::FunctionDefinition2,
            401 => Cpp::ConstructorSpecifiers,
            402 => Cpp::FunctionDefinition3,
            403 => Cpp::Declaration2,
            404 => Cpp::TryStatement,
            405 => Cpp::FunctionDefinition4,
            406 => Cpp::Declaration3,
            407 => Cpp::DefaultMethodClause,
            408 => Cpp::DeleteMethodClause,
            409 => Cpp::PureVirtualClause,
            410 => Cpp::FriendDeclaration,
            411 => Cpp::AccessSpecifier,
            412 => Cpp::ReferenceDeclarator2,
            413 => Cpp::ReferenceDeclarator3,
            414 => Cpp::ReferenceDeclarator4,
            415 => Cpp::AbstractReferenceDeclarator,
            416 => Cpp::StructuredBindingDeclarator,
            417 => Cpp::RefQualifier,
            418 => Cpp::FunctionDeclaratorSeq,
            419 => Cpp::FunctionAttributesStart,
            420 => Cpp::FunctionExceptionSpecification,
            421 => Cpp::FunctionAttributesEnd,
            422 => Cpp::FunctionPostfix,
            423 => Cpp::TrailingReturnType,
            424 => Cpp::Noexcept,
            425 => Cpp::ThrowSpecifier,
            426 => Cpp::TemplateType,
            427 => Cpp::TemplateMethod,
            428 => Cpp::TemplateFunction,
            429 => Cpp::TemplateArgumentList,
            430 => Cpp::NamespaceDefinition,
            431 => Cpp::NamespaceAliasDefinition,
            432 => Cpp::NamespaceSpecifier,
            433 => Cpp::NestedNamespaceSpecifier,
            434 => Cpp::UsingDeclaration,
            435 => Cpp::AliasDeclaration,
            436 => Cpp::StaticAssertDeclaration,
            437 => Cpp::ConceptDefinition,
            438 => Cpp::ForRangeLoop,
            439 => Cpp::ForRangeLoopBody,
            440 => Cpp::InitStatement,
            441 => Cpp::ConditionClause,
            442 => Cpp::Declaration4,
            443 => Cpp::CoReturnStatement,
            444 => Cpp::CoYieldStatement,
            445 => Cpp::ThrowStatement,
            446 => Cpp::TryStatement2,
            447 => Cpp::CatchClause,
            448 => Cpp::RawStringLiteral,
            449 => Cpp::SubscriptArgumentList,
            450 => Cpp::CoAwaitExpression,
            451 => Cpp::NewExpression,
            452 => Cpp::NewDeclarator,
            453 => Cpp::DeleteExpression,
            454 => Cpp::TypeRequirement,
            455 => Cpp::CompoundRequirement,
            456 => Cpp::Requirement,
            457 => Cpp::RequirementSeq,
            458 => Cpp::ConstraintConjunction,
            459 => Cpp::ConstraintDisjunction,
            460 => Cpp::RequirementClauseConstraint,
            461 => Cpp::RequiresClause,
            462 => Cpp::ParameterList2,
            463 => Cpp::RequiresExpression,
            464 => Cpp::LambdaExpression,
            465 => Cpp::LambdaCaptureSpecifier,
            466 => Cpp::LambdaDefaultCapture,
            467 => Cpp::LambdaCaptureIdentifier,
            468 => Cpp::LambdaCaptureInitializer,
            469 => Cpp::LambdaCapture,
            470 => Cpp::FoldOperator,
            471 => Cpp::BinaryFoldOperator,
            472 => Cpp::UnaryLeftFold,
            473 => Cpp::UnaryRightFold,
            474 => Cpp::BinaryFold,
            475 => Cpp::FoldExpression,
            476 => Cpp::ParameterPackExpansion,
            477 => Cpp::ParameterPackExpansion2,
            478 => Cpp::ParameterPackExpansion3,
            479 => Cpp::DestructorName,
            480 => Cpp::DependentName,
            481 => Cpp::DependentName2,
            482 => Cpp::DependentName3,
            483 => Cpp::ScopeResolution,
            484 => Cpp::QualifiedIdentifier,
            485 => Cpp::QualifiedIdentifier2,
            486 => Cpp::QualifiedIdentifier3,
            487 => Cpp::QualifiedIdentifier4,
            488 => Cpp::AssignmentExpression2,
            489 => Cpp::OperatorName,
            490 => Cpp::UserDefinedLiteral,
            491 => Cpp::TranslationUnitRepeat1,
            492 => Cpp::PreprocParamsRepeat1,
            493 => Cpp::PreprocIfRepeat1,
            494 => Cpp::PreprocIfInFieldDeclarationListRepeat1,
            495 => Cpp::PreprocIfInEnumeratorListRepeat1,
            496 => Cpp::PreprocIfInEnumeratorListNoCommaRepeat1,
            497 => Cpp::PreprocArgumentListRepeat1,
            498 => Cpp::DeclarationRepeat1,
            499 => Cpp::TypeDefinitionRepeat1,
            500 => Cpp::TypeDefinitionTypeRepeat1,
            501 => Cpp::TypeDefinitionDeclaratorsRepeat1,
            502 => Cpp::DeclarationSpecifiersRepeat1,
            503 => Cpp::AttributeDeclarationRepeat1,
            504 => Cpp::AttributedDeclaratorRepeat1,
            505 => Cpp::PointerDeclaratorRepeat1,
            506 => Cpp::ArrayDeclaratorRepeat1,
            507 => Cpp::SizedTypeSpecifierRepeat1,
            508 => Cpp::EnumeratorListRepeat1,
            509 => Cpp::FieldDeclarationRepeat1,
            510 => Cpp::ParameterListRepeat1,
            511 => Cpp::CaseStatementRepeat1,
            512 => Cpp::GenericExpressionRepeat1,
            513 => Cpp::GnuAsmExpressionRepeat1,
            514 => Cpp::GnuAsmOutputOperandListRepeat1,
            515 => Cpp::GnuAsmInputOperandListRepeat1,
            516 => Cpp::GnuAsmClobberListRepeat1,
            517 => Cpp::GnuAsmGotoListRepeat1,
            518 => Cpp::ArgumentListRepeat1,
            519 => Cpp::InitializerListRepeat1,
            520 => Cpp::InitializerPairRepeat1,
            521 => Cpp::CharLiteralRepeat1,
            522 => Cpp::ConcatenatedStringRepeat1,
            523 => Cpp::StringLiteralRepeat1,
            524 => Cpp::ClassDeclarationRepeat1,
            525 => Cpp::BaseClassClauseRepeat1,
            526 => Cpp::TemplateParameterListRepeat1,
            527 => Cpp::FieldInitializerListRepeat1,
            528 => Cpp::OperatorCastDefinitionRepeat1,
            529 => Cpp::ConstructorTryStatementRepeat1,
            530 => Cpp::StructuredBindingDeclaratorRepeat1,
            531 => Cpp::FunctionPostfixRepeat1,
            532 => Cpp::ThrowSpecifierRepeat1,
            533 => Cpp::TemplateArgumentListRepeat1,
            534 => Cpp::SubscriptArgumentListRepeat1,
            535 => Cpp::RequirementSeqRepeat1,
            536 => Cpp::RequiresParameterListRepeat1,
            537 => Cpp::LambdaCaptureSpecifierRepeat1,
            538 => Cpp::FieldIdentifier,
            539 => Cpp::NamespaceIdentifier,
            540 => Cpp::SimpleRequirement,
            541 => Cpp::StatementIdentifier,
            542 => Cpp::TypeIdentifier,
            _ => Cpp::Error,
        }
    }

    /// The display string of this kind.
    pub open spec fn text(self) -> Seq<char> {
        match self {
            Cpp::End => "end"@,
            Cpp::Identifier => "identifier"@,
            Cpp::Include => "#include"@,
            Cpp::PreprocIncludeToken2 => "preproc_include_token2"@,
            Cpp::Define => "#define"@,
            Cpp::LPAREN => "("@,
            Cpp::DOTDOTDOT => "..."@,
            Cpp::COMMA => ","@,
            Cpp::RPAREN => ")"@,
            Cpp::If => "#if"@,
            Cpp::X => "\n"@,
            Cpp::Endif => "#endif"@,
            Cpp::Ifdef => "#ifdef"@,
            Cpp::Ifndef => "#ifndef"@,
            Cpp::Else => "#else"@,
            Cpp::Elif => "#elif"@,
            Cpp::Elifdef => "#elifdef"@,
            Cpp::Elifndef => "#elifndef"@,
            Cpp::PreprocArg => "preproc_arg"@,
            Cpp::PreprocDirective => "preproc_directive"@,
            Cpp::LPAREN2 => "("@,
            Cpp::Defined => "defined"@,
            Cpp::BANG => "!"@,
            Cpp::TILDE => "~"@,
            Cpp::DASH => "-"@,
            Cpp::PLUS => "+"@,
            Cpp::STAR => "*"@,
            Cpp::SLASH => "/"@,
            Cpp::PERCENT => "%"@,
            Cpp::PIPEPIPE => "||"@,
            Cpp::AMPAMP => "&&"@,
            Cpp::PIPE => "|"@,
            Cpp::CARET => "^"@,
            Cpp::AMP => "&"@,
            Cpp::EQEQ => "=="@,
            Cpp::BANGEQ => "!="@,
            Cpp::GT => ">"@,
            Cpp::GTEQ => ">="@,
            Cpp::LTEQ => "<="@,
            Cpp::LT => "<"@,
            Cpp::LTLT => "<<"@,
            Cpp::GTGT => ">>"@,
            Cpp::SEMI => ";"@,
            Cpp::Extension => "__extension__"@,
            Cpp::Typedef => "typedef"@,
            Cpp::Virtual => "virtual"@,
            Cpp::Extern => "extern"@,
            Cpp::Attribute2 => "__attribute__"@,
            Cpp::Attribute3 => "__attribute"@,
            Cpp::COLONCOLON => "::"@,
            Cpp::LBRACKLBRACK => "[["@,
            Cpp::RBRACKRBRACK => "]]"@,
            Cpp::Declspec => "__declspec"@,
            Cpp::Based => "__based"@,
            Cpp::Cdecl => "__cdecl"@,
            Cpp::Clrcall => "__clrcall"@,
            Cpp::Stdcall => "__stdcall"@,
            Cpp::Fastcall => "__fastcall"@,
            Cpp::Thiscall => "__thiscall"@,
            Cpp::Vectorcall => "__vectorcall"@,
            Cpp::MsRestrictModifier => "ms_restrict_modifier"@,
            Cpp::MsUnsignedPtrModifier => "ms_unsigned_ptr_modifier"@,
            Cpp::MsSignedPtrModifier => "ms_signed_ptr_modifier"@,
            Cpp::Unaligned => "_unaligned"@,
            Cpp::Unaligned2 => "__unaligned"@,
            Cpp::LBRACE => "{"@,
            Cpp::RBRACE => "}"@,
            Cpp::Signed => "signed"@,
            Cpp::Unsigned => "unsigned"@,
            Cpp::Long => "long"@,
            Cpp::Short => "short"@,
            Cpp::LBRACK => "["@,
            Cpp::Static => "static"@,
            Cpp::RBRACK => "]"@,
            Cpp::EQ => "="@,
            Cpp::Register => "register"@,
            Cpp::Inline => "inline"@,
            Cpp::Inline2 => "__inline"@,
            Cpp::Inline3 => "__inline__"@,
            Cpp::Forceinline => "__forceinline"@,
            Cpp::ThreadLocal => "thread_local"@,
            Cpp::Thread => "__thread"@,
            Cpp::Const => "const"@,
            Cpp::Constexpr => "constexpr"@,
            Cpp::Volatile => "volatile"@,
            Cpp::Restrict => "restrict"@,
            Cpp::Restrict2 => "__restrict__"@,
            Cpp::Atomic => "_Atomic"@,
            Cpp::Noreturn => "_Noreturn"@,
            Cpp::Noreturn2 => "noreturn"@,
            Cpp::Nonnull => "_Nonnull"@,
            Cpp::Mutable => "mutable"@,
            Cpp::Constinit => "constinit"@,
            Cpp::Consteval => "consteval"@,
            Cpp::Alignas => "alignas"@,
            Cpp::Alignas2 => "_Alignas"@,
            Cpp::PrimitiveType => "primitive_type"@,
            Cpp::Enum => "enum"@,
            Cpp::Class => "class"@,
            Cpp::Struct => "struct"@,
            Cpp::Union => "union"@,
            Cpp::COLON => ":"@,
            Cpp::If2 => "if"@,
            Cpp::Else2 => "else"@,
            Cpp::Switch => "switch"@,
            Cpp::Case => "case"@,
            Cpp::Default => "default"@,
            Cpp::While => "while"@,
            Cpp::Do => "do"@,
            Cpp::For => "for"@,
            Cpp::Return => "return"@,
            Cpp::Break => "break"@,
            Cpp::Continue => "continue"@,
            Cpp::Goto => "goto"@,
            Cpp::Try => "__try"@,
            Cpp::Except => "__except"@,
            Cpp::Finally => "__finally"@,
            Cpp::Leave => "__leave"@,
            Cpp::QMARK => "?"@,
            Cpp::STAREQ => "*="@,
            Cpp::SLASHEQ => "/="@,
            Cpp::PERCENTEQ => "%="@,
            Cpp::PLUSEQ => "+="@,
            Cpp::DASHEQ => "-="@,
            Cpp::LTLTEQ => "<<="@,
            Cpp::GTGTEQ => ">>="@,
            Cpp::AMPEQ => "&="@,
            Cpp::CARETEQ => "^="@,
            Cpp::PIPEEQ => "|="@,
            Cpp::AndEq => "and_eq"@,
            Cpp::OrEq => "or_eq"@,
            Cpp::XorEq => "xor_eq"@,
            Cpp::Not => "not"@,
            Cpp::Compl => "compl"@,
            Cpp::LTEQGT => "<=>"@,
            Cpp::Or => "or"@,
            Cpp::And => "and"@,
            Cpp::Bitor => "bitor"@,
            Cpp::Xor => "xor"@,
            Cpp::Bitand => "bitand"@,
            Cpp::NotEq => "not_eq"@,
            Cpp::DASHDASH => "--"@,
            Cpp::PLUSPLUS => "++"@,
            Cpp::Sizeof => "sizeof"@,
            Cpp::Alignof => "__alignof__"@,
            Cpp::Alignof2 => "__alignof"@,
            Cpp::Alignof3 => "_alignof"@,
            Cpp::Alignof4 => "alignof"@,
            Cpp::Alignof5 => "_Alignof"@,
            Cpp::Offsetof => "offsetof"@,
            Cpp::Generic => "_Generic"@,
            Cpp::Asm => "asm"@,
            Cpp::Asm2 => "__asm__"@,
            Cpp::Asm3 => "__asm"@,
            Cpp::Volatile2 => "__volatile__"@,
            Cpp::DOT => "."@,
            Cpp::DOTSTAR => ".*"@,
            Cpp::DASHGT => "->"@,
            Cpp::NumberLiteral => "number_literal"@,
            Cpp::L => "L'"@,
            Cpp::U => "u'"@,
            Cpp::U2 => "U'"@,
            Cpp::U8 => "u8'"@,
            Cpp::SQUOTE => "'"@,
            Cpp::Character => "character"@,
            Cpp::L2 => "L\""@,
            Cpp::U3 => "u\""@,
            Cpp::U4 => "U\""@,
            Cpp::U82 => "u8\""@,
            Cpp::DQUOTE => "\""@,
            Cpp::StringContent => "string_content"@,
            Cpp::EscapeSequence => "escape_sequence"@,
            Cpp::SystemLibString => "system_lib_string"@,
            Cpp::True => "true"@,
            Cpp::False => "false"@,
            Cpp::NULL => "NULL"@,
            Cpp::Nullptr => "nullptr"@,
            Cpp::Comment => "comment"@,
            Cpp::Auto => "auto"@,
            Cpp::Decltype3 => "decltype"@,
            Cpp::FinalKw => "final"@,
            Cpp::Override => "override"@,
            Cpp::Explicit => "explicit"@,
            Cpp::Typename => "typename"@,
            Cpp::Template => "template"@,
            Cpp::GT2 => ">"@,
            Cpp::Operator => "operator"@,
            Cpp::Try2 => "try"@,
            Cpp::Delete => "delete"@,
            Cpp::PureVirtualClauseToken1 => "pure_virtual_clause_token1"@,
            Cpp::Friend => "friend"@,
            Cpp::Public => "public"@,
            Cpp::Private => "private"@,
            Cpp::Protected => "protected"@,
            Cpp::Noexcept2 => "noexcept"@,
            Cpp::Throw => "throw"@,
            Cpp::Namespace => "namespace"@,
            Cpp::Using => "using"@,
            Cpp::StaticAssert => "static_assert"@,
            Cpp::Concept => "concept"@,
            Cpp::CoReturn => "co_return"@,
            Cpp::CoYield => "co_yield"@,
            Cpp::Catch => "catch"@,
            Cpp::R => "R\""@,
            Cpp::LR => "LR\""@,
            Cpp::UR => "uR\""@,
            Cpp::UR2 => "UR\""@,
            Cpp::U8R => "u8R\""@,
            Cpp::CoAwait => "co_await"@,
            Cpp::New => "new"@,
            Cpp::Requires => "requires"@,
            Cpp::DASHGTSTAR => "->*"@,
            Cpp::LPARENRPAREN => "()"@,
            Cpp::LBRACKRBRACK => "[]"@,
            Cpp::DQUOTEDQUOTE => "\"\""@,
            Cpp::This => "this"@,
            Cpp::LiteralSuffix => "literal_suffix"@,
            Cpp::RawStringDelimiter => "raw_string_delimiter"@,
            Cpp::RawStringContent => "raw_string_content"@,
            Cpp::TranslationUnit => "translation_unit"@,
            Cpp::TopLevelItem => "_top_level_item"@,
            Cpp::BlockItem => "_block_item"@,
            Cpp::PreprocInclude => "preproc_include"@,
            Cpp::PreprocDef => "preproc_def"@,
            Cpp::PreprocFunctionDef => "preproc_function_def"@,
            Cpp::PreprocParams => "preproc_params"@,
            Cpp::PreprocCall => "preproc_call"@,
            Cpp::PreprocIf => "preproc_if"@,
            Cpp::PreprocIfdef => "preproc_ifdef"@,
            Cpp::PreprocElse => "preproc_else"@,
            Cpp::PreprocElif => "preproc_elif"@,
            Cpp::PreprocElifdef => "preproc_elifdef"@,
            Cpp::PreprocIf2 => "preproc_if"@,
            Cpp::PreprocIfdef2 => "preproc_ifdef"@,
            Cpp::PreprocElse2 => "preproc_else"@,
            Cpp::PreprocElif2 => "preproc_elif"@,
            Cpp::PreprocElifdef2 => "preproc_elifdef"@,
            Cpp::PreprocIf3 => "preproc_if"@,
            Cpp::PreprocIfdef3 => "preproc_ifdef"@,
            Cpp::PreprocElse3 => "preproc_else"@,
            Cpp::PreprocElif3 => "preproc_elif"@,
            Cpp::PreprocElifdef3 => "preproc_elifdef"@,
            Cpp::PreprocIf4 => "preproc_if"@,
            Cpp::PreprocIfdef4 => "preproc_ifdef"@,
            Cpp::PreprocElse4 => "preproc_else"@,
            Cpp::PreprocElif4 => "preproc_elif"@,
            Cpp::PreprocElifdef4 => "preproc_elifdef"@,
            Cpp::PreprocExpression => "_preproc_expression"@,
            Cpp::ParenthesizedExpression => "parenthesized_expression"@,
            Cpp::PreprocDefined => "preproc_defined"@,
            Cpp::UnaryExpression => "unary_expression"@,
            Cpp::CallExpression => "call_expression"@,
            Cpp::ArgumentList => "argument_list"@,
            Cpp::BinaryExpression => "binary_expression"@,
            Cpp::FunctionDefinition => "function_definition"@,
            Cpp::Declaration => "declaration"@,
            Cpp::TypeDefinition => "type_definition"@,
            Cpp::TypeDefinitionType => "_type_definition_type"@,
            Cpp::TypeDefinitionDeclarators => "_type_definition_declarators"@,
            Cpp::DeclarationModifiers => "_declaration_modifiers"@,
            Cpp::DeclarationSpecifiers => "_declaration_specifiers"@,
            Cpp::LinkageSpecification => "linkage_specification"@,
            Cpp::AttributeSpecifier => "attribute_specifier"@,
            Cpp::Attribute => "attribute"@,
            Cpp::AttributeDeclaration => "attribute_declaration"@,
            Cpp::MsDeclspecModifier => "ms_declspec_modifier"@,
            Cpp::MsBasedModifier => "ms_based_modifier"@,
            Cpp::MsCallModifier => "ms_call_modifier"@,
            Cpp::MsUnalignedPtrModifier => "ms_unaligned_ptr_modifier"@,
            Cpp::MsPointerModifier => "ms_pointer_modifier"@,
            Cpp::DeclarationList => "declaration_list"@,
            Cpp::Declarator => "_declarator"@,
            Cpp::FieldDeclarator => "_field_declarator"@,
            Cpp::TypeDeclarator => "_type_declarator"@,
            Cpp::AbstractDeclarator => "_abstract_declarator"@,
            Cpp::ParenthesizedDeclarator => "parenthesized_declarator"@,
            Cpp::ParenthesizedDeclarator2 => "parenthesized_declarator"@,
            Cpp::ParenthesizedDeclarator3 => "parenthesized_declarator"@,
            Cpp::AbstractParenthesizedDeclarator => "abstract_parenthesized_declarator"@,
            Cpp::AttributedDeclarator => "attributed_declarator"@,
            Cpp::AttributedDeclarator2 => "attributed_declarator"@,
            Cpp::AttributedDeclarator3 => "attributed_declarator"@,
            Cpp::PointerDeclarator => "pointer_declarator"@,
            Cpp::PointerDeclarator2 => "pointer_declarator"@,
            Cpp::PointerTypeDeclarator => "pointer_type_declarator"@,
            Cpp::AbstractPointerDeclarator => "abstract_pointer_declarator"@,
            Cpp::FunctionDeclarator => "function_declarator"@,
            Cpp::FunctionDeclarator2 => "function_declarator"@,
            Cpp::FunctionDeclarator3 => "function_declarator"@,
            Cpp::AbstractFunctionDeclarator => "abstract_function_declarator"@,
            Cpp::ArrayDeclarator => "array_declarator"@,
            Cpp::ArrayDeclarator2 => "array_declarator"@,
            Cpp::ArrayDeclarator3 => "array_declarator"@,
            Cpp::AbstractArrayDeclarator => "abstract_array_declarator"@,
            Cpp::InitDeclarator => "init_declarator"@,
            Cpp::CompoundStatement => "compound_statement"@,
            Cpp::StorageClassSpecifier => "storage_class_specifier"@,
            Cpp::TypeQualifier => "type_qualifier"@,
            Cpp::AlignasQualifier => "alignas_qualifier"@,
            Cpp::TypeSpecifier => "type_specifier"@,
            Cpp::SizedTypeSpecifier => "sized_type_specifier"@,
            Cpp::EnumSpecifier => "enum_specifier"@,
            Cpp::EnumeratorList => "enumerator_list"@,
            Cpp::StructSpecifier => "struct_specifier"@,
            Cpp::UnionSpecifier => "union_specifier"@,
            Cpp::FieldDeclarationList => "field_declaration_list"@,
            Cpp::FieldDeclarationListItem => "_field_declaration_list_item"@,
            Cpp::FieldDeclaration => "field_declaration"@,
            Cpp::BitfieldClause => "bitfield_clause"@,
            Cpp::Enumerator => "enumerator"@,
            Cpp::ParameterList => "parameter_list"@,
            Cpp::ParameterDeclaration => "parameter_declaration"@,
            Cpp::AttributedStatement => "attributed_statement"@,
            Cpp::Statement => "statement"@,
            Cpp::TopLevelStatement => "_top_level_statement"@,
            Cpp::LabeledStatement => "labeled_statement"@,
            Cpp::ExpressionStatement => "expression_statement"@,
            Cpp::ExpressionStatement2 => "expression_statement"@,
            Cpp::IfStatement => "if_statement"@,
            Cpp::ElseClause => "else_clause"@,
            Cpp::SwitchStatement => "switch_statement"@,
            Cpp::CaseStatement => "case_statement"@,
            Cpp::WhileStatement => "while_statement"@,
            Cpp::DoStatement => "do_statement"@,
            Cpp::ForStatement => "for_statement"@,
            Cpp::ForStatementBody => "_for_statement_body"@,
            Cpp::ReturnStatement => "return_statement"@,
            Cpp::BreakStatement => "break_statement"@,
            Cpp::ContinueStatement => "continue_statement"@,
            Cpp::GotoStatement => "goto_statement"@,
            Cpp::SehTryStatement => "seh_try_statement"@,
            Cpp::SehExceptClause => "seh_except_clause"@,
            Cpp::SehFinallyClause => "seh_finally_clause"@,
            Cpp::SehLeaveStatement => "seh_leave_statement"@,
            Cpp::Expression => "expression"@,
            Cpp::String => "_string"@,
            Cpp::CommaExpression => "comma_expression"@,
            Cpp::ConditionalExpression => "conditional_expression"@,
            Cpp::AssignmentExpression => "assignment_expression"@,
            Cpp::PointerExpression => "pointer_expression"@,
            Cpp::UnaryExpression2 => "unary_expression"@,
            Cpp::BinaryExpression2 => "binary_expression"@,
            Cpp::UpdateExpression => "update_expression"@,
            Cpp::CastExpression => "cast_expression"@,
            Cpp::TypeDescriptor => "type_descriptor"@,
            Cpp::SizeofExpression => "sizeof_expression"@,
            Cpp::AlignofExpression => "alignof_expression"@,
            Cpp::OffsetofExpression => "offsetof_expression"@,
            Cpp::GenericExpression => "generic_expression"@,
            Cpp::SubscriptExpression => "subscript_expression"@,
            Cpp::CallExpression2 => "call_expression"@,
            Cpp::GnuAsmExpression => "gnu_asm_expression"@,
            Cpp::GnuAsmQualifier => "gnu_asm_qualifier"@,
            Cpp::GnuAsmOutputOperandList => "gnu_asm_output_operand_list"@,
            Cpp::GnuAsmOutputOperand => "gnu_asm_output_operand"@,
            Cpp::GnuAsmInputOperandList => "gnu_asm_input_operand_list"@,
            Cpp::GnuAsmInputOperand => "gnu_asm_input_operand"@,
            Cpp::GnuAsmClobberList => "gnu_asm_clobber_list"@,
            Cpp::GnuAsmGotoList => "gnu_asm_goto_list"@,
            Cpp::ExtensionExpression => "extension_expression"@,
            Cpp::ArgumentList2 => "argument_list"@,
            Cpp::FieldExpression => "field_expression"@,
            Cpp::CompoundLiteralExpression => "compound_literal_expression"@,
            Cpp::ParenthesizedExpression2 => "parenthesized_expression"@,
            Cpp::InitializerList => "initializer_list"@,
            Cpp::InitializerPair => "initializer_pair"@,
            Cpp::SubscriptDesignator => "subscript_designator"@,
            Cpp::SubscriptRangeDesignator => "subscript_range_designator"@,
            Cpp::FieldDesignator => "field_designator"@,
            Cpp::CharLiteral => "char_literal"@,
            Cpp::ConcatenatedString => "concatenated_string"@,
            Cpp::StringLiteral => "string_literal"@,
            Cpp::Null => "null"@,
            Cpp::EmptyDeclaration => "_empty_declaration"@,
            Cpp::PlaceholderTypeSpecifier => "placeholder_type_specifier"@,
            Cpp::Decltype => "decltype"@,
            Cpp::Decltype2 => "decltype"@,
            Cpp::ClassDeclaration => "_class_declaration"@,
            Cpp::ClassDeclarationItem => "_class_declaration_item"@,
            Cpp::ClassSpecifier => "class_specifier"@,
            Cpp::ClassName => "_class_name"@,
            Cpp::VirtualSpecifier => "virtual_specifier"@,
            Cpp::ExplicitFunctionSpecifier => "explicit_function_specifier"@,
            Cpp::BaseClassClause => "base_class_clause"@,
            Cpp::EnumBaseClause => "_enum_base_clause"@,
            Cpp::DependentType => "dependent_type"@,
            Cpp::TemplateDeclaration => "template_declaration"@,
            Cpp::TemplateInstantiation => "template_instantiation"@,
            Cpp::TemplateParameterList => "template_parameter_list"@,
            Cpp::TypeParameterDeclaration => "type_parameter_declaration"@,
            Cpp::VariadicTypeParameterDeclaration => "variadic_type_parameter_declaration"@,
            Cpp::OptionalTypeParameterDeclaration => "optional_type_parameter_declaration"@,
            Cpp::TemplateTemplateParameterDeclaration => "template_template_parameter_declaration"@,
            Cpp::OptionalParameterDeclaration => "optional_parameter_declaration"@,
            Cpp::VariadicParameterDeclaration => "variadic_parameter_declaration"@,
            Cpp::VariadicDeclarator => "variadic_declarator"@,
            Cpp::ReferenceDeclarator => "reference_declarator"@,
            Cpp::OperatorCast => "operator_cast"@,
            Cpp::FieldInitializerList => "field_initializer_list"@,
            Cpp::FieldInitializer => "field_initializer"@,
            Cpp::FunctionDefinition2 => "function_definition"@,
            Cpp::ConstructorSpecifiers => "_constructor_specifiers"@,
            Cpp::FunctionDefinition3 => "function_definition"@,
            Cpp::Declaration2 => "declaration"@,
            Cpp::TryStatement => "try_statement"@,
            Cpp::FunctionDefinition4 => "function_definition"@,
            Cpp::Declaration3 => "declaration"@,
            Cpp::DefaultMethodClause => "default_method_clause"@,
            Cpp::DeleteMethodClause => "delete_method_clause"@,
            Cpp::PureVirtualClause => "pure_virtual_clause"@,
            Cpp::FriendDeclaration => "friend_declaration"@,
            Cpp::AccessSpecifier => "access_specifier"@,
            Cpp::ReferenceDeclarator2 => "reference_declarator"@,
            Cpp::ReferenceDeclarator3 => "reference_declarator"@,
            Cpp::ReferenceDeclarator4 => "reference_declarator"@,
            Cpp::AbstractReferenceDeclarator => "abstract_reference_declarator"@,
            Cpp::StructuredBindingDeclarator => "structured_binding_declarator"@,
            Cpp::RefQualifier => "ref_qualifier"@,
            Cpp::FunctionDeclaratorSeq => "_function_declarator_seq"@,
            Cpp::FunctionAttributesStart => "_function_attributes_start"@,
            Cpp::FunctionExceptionSpecification => "_function_exception_specification"@,
            Cpp::FunctionAttributesEnd => "_function_attributes_end"@,
            Cpp::FunctionPostfix => "_function_postfix"@,
            Cpp::TrailingReturnType => "trailing_return_type"@,
            Cpp::Noexcept => "noexcept"@,
            Cpp::ThrowSpecifier => "throw_specifier"@,
            Cpp::TemplateType => "template_type"@,
            Cpp::TemplateMethod => "template_method"@,
            Cpp::TemplateFunction => "template_function"@,
            Cpp::TemplateArgumentList => "template_argument_list"@,
            Cpp::NamespaceDefinition => "namespace_definition"@,
            Cpp::NamespaceAliasDefinition => "namespace_alias_definition"@,
            Cpp::NamespaceSpecifier => "_namespace_specifier"@,
            Cpp::NestedNamespaceSpecifier => "nested_namespace_specifier"@,
            Cpp::UsingDeclaration => "using_declaration"@,
            Cpp::AliasDeclaration => "alias_declaration"@,
            Cpp::StaticAssertDeclaration => "static_assert_declaration"@,
            Cpp::ConceptDefinition => "concept_definition"@,
            Cpp::ForRangeLoop => "for_range_loop"@,
            Cpp::ForRangeLoopBody => "_for_range_loop_body"@,
            Cpp::InitStatement => "init_statement"@,
            Cpp::ConditionClause => "condition_clause"@,
            Cpp::Declaration4 => "declaration"@,
            Cpp::CoReturnStatement => "co_return_statement"@,
            Cpp::CoYieldStatement => "co_yield_statement"@,
            Cpp::ThrowStatement => "throw_statement"@,
            Cpp::TryStatement2 => "try_statement"@,
            Cpp::CatchClause => "catch_clause"@,
            Cpp::RawStringLiteral => "raw_string_literal"@,
            Cpp::SubscriptArgumentList => "subscript_argument_list"@,
            Cpp::CoAwaitExpression => "co_await_expression"@,
            Cpp::NewExpression => "new_expression"@,
            Cpp::NewDeclarator => "new_declarator"@,
            Cpp::DeleteExpression => "delete_expression"@,
            Cpp::TypeRequirement => "type_requirement"@,
            Cpp::CompoundRequirement => "compound_requirement"@,
            Cpp::Requirement => "_requirement"@,
            Cpp::RequirementSeq => "requirement_seq"@,
            Cpp::ConstraintConjunction => "constraint_conjunction"@,
            Cpp::ConstraintDisjunction => "constraint_disjunction"@,
            Cpp::RequirementClauseConstraint => "_requirement_clause_constraint"@,
            Cpp::RequiresClause => "requires_clause"@,
            Cpp::ParameterList2 => "parameter_list"@,
            Cpp::RequiresExpression => "requires_expression"@,
            Cpp::LambdaExpression => "lambda_expression"@,
            Cpp::LambdaCaptureSpecifier => "lambda_capture_specifier"@,
            Cpp::LambdaDefaultCapture => "lambda_default_capture"@,
            Cpp::LambdaCaptureIdentifier => "_lambda_capture_identifier"@,
            Cpp::LambdaCaptureInitializer => "lambda_capture_initializer"@,
            Cpp::LambdaCapture => "_lambda_capture"@,
            Cpp::FoldOperator => "_fold_operator"@,
            Cpp::BinaryFoldOperator => "_binary_fold_operator"@,
            Cpp::UnaryLeftFold => "_unary_left_fold"@,
            Cpp::UnaryRightFold => "_unary_right_fold"@,
            Cpp::BinaryFold => "_binary_fold"@,
            Cpp::FoldExpression => "fold_expression"@,
            Cpp::ParameterPackExpansion => "parameter_pack_expansion"@,
            Cpp::ParameterPackExpansion2 => "parameter_pack_expansion"@,
            Cpp::ParameterPackExpansion3 => "parameter_pack_expansion"@,
            Cpp::DestructorName => "destructor_name"@,
            Cpp::DependentName => "dependent_name"@,
            Cpp::DependentName2 => "dependent_name"@,
            Cpp::DependentName3 => "dependent_name"@,
            Cpp::ScopeResolution => "_scope_resolution"@,
            Cpp::QualifiedIdentifier => "qualified_identifier"@,
            Cpp::QualifiedIdentifier2 => "qualified_identifier"@,
            Cpp::QualifiedIdentifier3 => "qualified_identifier"@,
            Cpp::QualifiedIdentifier4 => "qualified_identifier"@,
            Cpp::AssignmentExpression2 => "assignment_expression"@,
            Cpp::OperatorName => "operator_name"@,
            Cpp::UserDefinedLiteral => "user_defined_literal"@,
            Cpp::TranslationUnitRepeat1 => "translation_unit_repeat1"@,
            Cpp::PreprocParamsRepeat1 => "preproc_params_repeat1"@,
            Cpp::PreprocIfRepeat1 => "preproc_if_repeat1"@,
            Cpp::PreprocIfInFieldDeclarationListRepeat1 => "preproc_if_in_field_declaration_list_repeat1"@,
            Cpp::PreprocIfInEnumeratorListRepeat1 => "preproc_if_in_enumerator_list_repeat1"@,
            Cpp::PreprocIfInEnumeratorListNoCommaRepeat1 => "preproc_if_in_enumerator_list_no_comma_repeat1"@,
            Cpp::PreprocArgumentListRepeat1 => "preproc_argument_list_repeat1"@,
            Cpp::DeclarationRepeat1 => "declaration_repeat1"@,
            Cpp::TypeDefinitionRepeat1 => "type_definition_repeat1"@,
            Cpp::TypeDefinitionTypeRepeat1 => "_type_definition_type_repeat1"@,
            Cpp::TypeDefinitionDeclaratorsRepeat1 => "_type_definition_declarators_repeat1"@,
            Cpp::DeclarationSpecifiersRepeat1 => "_declaration_specifiers_repeat1"@,
            Cpp::AttributeDeclarationRepeat1 => "attribute_declaration_repeat1"@,
            Cpp::AttributedDeclaratorRepeat1 => "attributed_declarator_repeat1"@,
            Cpp::PointerDeclaratorRepeat1 => "pointer_declarator_repeat1"@,
            Cpp::ArrayDeclaratorRepeat1 => "array_declarator_repeat1"@,
            Cpp::SizedTypeSpecifierRepeat1 => "sized_type_specifier_repeat1"@,
            Cpp::EnumeratorListRepeat1 => "enumerator_list_repeat1"@,
            Cpp::FieldDeclarationRepeat1 => "field_declaration_repeat1"@,
            Cpp::ParameterListRepeat1 => "parameter_list_repeat1"@,
            Cpp::CaseStatementRepeat1 => "case_statement_repeat1"@,
            Cpp::GenericExpressionRepeat1 => "generic_expression_repeat1"@,
            Cpp::GnuAsmExpressionRepeat1 => "gnu_asm_expression_repeat1"@,
            Cpp::GnuAsmOutputOperandListRepeat1 => "gnu_asm_output_operand_list_repeat1"@,
            Cpp::GnuAsmInputOperandListRepeat1 => "gnu_asm_input_operand_list_repeat1"@,
            Cpp::GnuAsmClobberListRepeat1 => "gnu_asm_clobber_list_repeat1"@,
            Cpp::GnuAsmGotoListRepeat1 => "gnu_asm_goto_list_repeat1"@,
            Cpp::ArgumentListRepeat1 => "argument_list_repeat1"@,
            Cpp::InitializerListRepeat1 => "initializer_list_repeat1"@,
            Cpp::InitializerPairRepeat1 => "initializer_pair_repeat1"@,
            Cpp::CharLiteralRepeat1 => "char_literal_repeat1"@,
            Cpp::ConcatenatedStringRepeat1 => "concatenated_string_repeat1"@,
            Cpp::StringLiteralRepeat1 => "string_literal_repeat1"@,
            Cpp::ClassDeclarationRepeat1 => "_class_declaration_repeat1"@,
            Cpp::BaseClassClauseRepeat1 => "base_class_clause_repeat1"@,
            Cpp::TemplateParameterListRepeat1 => "template_parameter_list_repeat1"@,
            Cpp::FieldInitializerListRepeat1 => "field_initializer_list_repeat1"@,
            Cpp::OperatorCastDefinitionRepeat1 => "operator_cast_definition_repeat1"@,
            Cpp::ConstructorTryStatementRepeat1 => "constructor_try_statement_repeat1"@,
            Cpp::StructuredBindingDeclaratorRepeat1 => "structured_binding_declarator_repeat1"@,
            Cpp::FunctionPostfixRepeat1 => "_function_postfix_repeat1"@,
            Cpp::ThrowSpecifierRepeat1 => "throw_specifier_repeat1"@,
            Cpp::TemplateArgumentListRepeat1 => "template_argument_list_repeat1"@,
            Cpp::SubscriptArgumentListRepeat1 => "subscript_argument_list_repeat1"@,
            Cpp::RequirementSeqRepeat1 => "requirement_seq_repeat1"@,
            Cpp::RequiresParameterListRepeat1 => "requires_parameter_list_repeat1"@,
            Cpp::LambdaCaptureSpecifierRepeat1 => "lambda_capture_specifier_repeat1"@,
            Cpp::FieldIdentifier => "field_identifier"@,
            Cpp::NamespaceIdentifier => "namespace_identifier"@,
            Cpp::SimpleRequirement => "simple_requirement"@,
            Cpp::StatementIdentifier => "statement_identifier"@,
            Cpp::TypeIdentifier => "type_identifier"@,
            Cpp::Error => "ERROR"@,
        }
    }

    /// Maps a numeric kind id to its kind; an id outside the table maps to `Error`.
    pub fn from_u16(x: u16) -> (r: Cpp)
        ensures
            r == Cpp::spec_from_id(x),
            x > 543 ==> r == Cpp::Error,
    {
        match x {
            0 => Cpp::End,
            1 => Cpp::Identifier,
            2 => Cpp::Include,
            3 => Cpp::PreprocIncludeToken2,
            4 => Cpp::Define,
            5 => Cpp::LPAREN,
            6 => Cpp::DOTDOTDOT,
            7 => Cpp::COMMA,
            8 => Cpp::RPAREN,
            9 => Cpp::If,
            10 => Cpp::X,
            11 => Cpp::Endif,
            12 => Cpp::Ifdef,
            13 => Cpp::Ifndef,
            14 => Cpp::Else,
            15 => Cpp::Elif,
            16 => Cpp::Elifdef,
            17 => Cpp::Elifndef,
            18 => Cpp::PreprocArg,
            19 => Cpp::PreprocDirective,
            20 => Cpp::LPAREN2,
            21 => Cpp::Defined,
            22 => Cpp::BANG,
            23 => Cpp::TILDE,
            24 => Cpp::DASH,
            25 => Cpp::PLUS,
            26 => Cpp::STAR,
            27 => Cpp::SLASH,
            28 => Cpp::PERCENT,
            29 => Cpp::PIPEPIPE,
            30 => Cpp::AMPAMP,
            31 => Cpp::PIPE,
            32 => Cpp::CARET,
            33 => Cpp::AMP,
            34 => Cpp::EQEQ,
            35 => Cpp::BANGEQ,
            36 => Cpp::GT,
            37 => Cpp::GTEQ,
            38 => Cpp::LTEQ,
            39 => Cpp::LT,
            40 => Cpp::LTLT,
            41 => Cpp::GTGT,
            42 => Cpp::SEMI,
            43 => Cpp::Extension,
            44 => Cpp::Typedef,
            45 => Cpp::Virtual,
            46 => Cpp::Extern,
            47 => Cpp::Attribute2,
            48 => Cpp::Attribute3,
            49 => Cpp::COLONCOLON,
            50 => Cpp::LBRACKLBRACK,
            51 => Cpp::RBRACKRBRACK,
            52 => Cpp::Declspec,
            53 => Cpp::Based,
            54 => Cpp::Cdecl,
            55 => Cpp::Clrcall,
            56 => Cpp::Stdcall,
            57 => Cpp::Fastcall,
            58 => Cpp::Thiscall,
            59 => Cpp::Vectorcall,
            60 => Cpp::MsRestrictModifier,
            61 => Cpp::MsUnsignedPtrModifier,
            62 => Cpp::MsSignedPtrModifier,
            63 => Cpp::Unaligned,
            64 => Cpp::Unaligned2,
            65 => Cpp::LBRACE,
            66 => Cpp::RBRACE,
            67 => Cpp::Signed,
            68 => Cpp::Unsigned,
            69 => Cpp::Long,
            70 => Cpp::Short,
            71 => Cpp::LBRACK,
            72 => Cpp::Static,
            73 => Cpp::RBRACK,
            74 => Cpp::EQ,
            75 => Cpp::Register,
            76 => Cpp::Inline,
            77 => Cpp::Inline2,
            78 => Cpp::Inline3,
            79 => Cpp::Forceinline,
            80 => Cpp::ThreadLocal,
            81 => Cpp::Thread,
            82 => Cpp::Const,
            83 => Cpp::Constexpr,
            84 => Cpp::Volatile,
            85 => Cpp::Restrict,
            86 => Cpp::Restrict2,
            87 => Cpp::Atomic,
            88 => Cpp::Noreturn,
            89 => Cpp::Noreturn2,
            90 => Cpp::Nonnull,
            91 => Cpp::Mutable,
            92 => Cpp::Constinit,
            93 => Cpp::Consteval,
            94 => Cpp::Alignas,
            95 => Cpp::Alignas2,
            96 => Cpp::PrimitiveType,
            97 => Cpp::Enum,
            98 => Cpp::Class,
            99 => Cpp::Struct,
            100 => Cpp::Union,
            101 => Cpp::COLON,
            102 => Cpp::If2,
            103 => Cpp::Else2,
            104 => Cpp::Switch,
            105 => Cpp::Case,
            106 => Cpp::Default,
            107 => Cpp::While,
            108 => Cpp::Do,
            109 => Cpp::For,
            110 => Cpp::Return,
            111 => Cpp::Break,
            112 => Cpp::Continue,
            113 => Cpp::Goto,
            114 => Cpp::Try,
            115 => Cpp::Except,
            116 => Cpp::Finally,
            117 => Cpp::Leave,
            118 => Cpp::QMARK,
            119 => Cpp::STAREQ,
            120 => Cpp::SLASHEQ,
            121 => Cpp::PERCENTEQ,
            122 => Cpp::PLUSEQ,
            123 => Cpp::DASHEQ,
            124 => Cpp::LTLTEQ,
            125 => Cpp::GTGTEQ,
            126 => Cpp::AMPEQ,
            127 => Cpp::CARETEQ,
            128 => Cpp::PIPEEQ,
            129 => Cpp::AndEq,
            130 => Cpp::OrEq,
            131 => Cpp::XorEq,
            132 => Cpp::Not,
            133 => Cpp::Compl,
            134 => Cpp::LTEQGT,
            135 => Cpp::Or,
            136 => Cpp::And,
            137 => Cpp::Bitor,
            138 => Cpp::Xor,
            139 => Cpp::Bitand,
            140 => Cpp::NotEq,
            141 => Cpp::DASHDASH,
            142 => Cpp::PLUSPLUS,
            143 => Cpp::Sizeof,
            144 => Cpp::Alignof,
            145 => Cpp::Alignof2,
            146 => Cpp::Alignof3,
            147 => Cpp::Alignof4,
            148 => Cpp::Alignof5,
            149 => Cpp::Offsetof,
            150 => Cpp::Generic,
            151 => Cpp::Asm,
            152 => Cpp::Asm2,
            153 => Cpp::Asm3,
            154 => Cpp::Volatile2,
            155 => Cpp::DOT,
            156 => Cpp::DOTSTAR,
            157 => Cpp::DASHGT,
            158 => Cpp::NumberLiteral,
            159 => Cpp::L,
            160 => Cpp::U,
            161 => Cpp::U2,
            162 => Cpp::U8,
            163 => Cpp::SQUOTE,
            164 => Cpp::Character,
            165 => Cpp::L2,
            166 => Cpp::U3,
            167 => Cpp::U4,
            168 => Cpp::U82,
            169 => Cpp::DQUOTE,
            170 => Cpp::StringContent,
            171 => Cpp::EscapeSequence,
            172 => Cpp::SystemLibString,
            173 => Cpp::True,
            174 => Cpp::False,
            175 => Cpp::NULL,
            176 => Cpp::Nullptr,
            177 => Cpp::Comment,
            178 => Cpp::Auto,
            179 => Cpp::Decltype3,
            180 => Cpp::FinalKw,
            181 => Cpp::Override,
            182 => Cpp::Explicit,
            183 => Cpp::Typename,
            184 => Cpp::Template,
            185 => Cpp::GT2,
            186 => Cpp::Operator,
            187 => Cpp::Try2,
            188 => Cpp::Delete,
            189 => Cpp::PureVirtualClauseToken1,
            190 => Cpp::Friend,
            191 => Cpp::Public,
            192 => Cpp::Private,
            193 => Cpp::Protected,
            194 => Cpp::Noexcept2,
            195 => Cpp::Throw,
            196 => Cpp::Namespace,
            197 => Cpp::Using,
            198 => Cpp::StaticAssert,
            199 => Cpp::Concept,
            200 => Cpp::CoReturn,
            201 => Cpp::CoYield,
            202 => Cpp::Catch,
            203 => Cpp::R,
            204 => Cpp::LR,
            205 => Cpp::UR,
            206 => Cpp::UR2,
            207 => Cpp::U8R,
            208 => Cpp::CoAwait,
            209 => Cpp::New,
            210 => Cpp::Requires,
            211 => Cpp::DASHGTSTAR,
            212 => Cpp::LPARENRPAREN,
            213 => Cpp::LBRACKRBRACK,
            214 => Cpp::DQUOTEDQUOTE,
            215 => Cpp::This,
            216 => Cpp::LiteralSuffix,
            217 => Cpp::RawStringDelimiter,
            218 => Cpp::RawStringContent,
            219 => Cpp::TranslationUnit,
            220 => Cpp::TopLevelItem,
            221 => Cpp::BlockItem,
            222 => Cpp::PreprocInclude,
            223 => Cpp::PreprocDef,
            224 => Cpp::PreprocFunctionDef,
            225 => Cpp::PreprocParams,
            226 => Cpp::PreprocCall,
            227 => Cpp::PreprocIf,
            228 => Cpp::PreprocIfdef,
            229 => Cpp::PreprocElse,
            230 => Cpp::PreprocElif,
            231 => Cpp::PreprocElifdef,
            232 => Cpp::PreprocIf2,
            233 => Cpp::PreprocIfdef2,
            234 => Cpp::PreprocElse2,
            235 => Cpp::PreprocElif2,
            236 => Cpp::PreprocElifdef2,
            237 => Cpp::PreprocIf3,
            238 => Cpp::PreprocIfdef3,
            239 => Cpp::PreprocElse3,
            240 => Cpp::PreprocElif3,
            241 => Cpp::PreprocElifdef3,
            242 => Cpp::PreprocIf4,
            243 => Cpp::PreprocIfdef4,
            244 => Cpp::PreprocElse4,
            245 => Cpp::PreprocElif4,
            246 => Cpp::PreprocElifdef4,
            247 => Cpp::PreprocExpression,
            248 => Cpp::ParenthesizedExpression,
            249 => Cpp::PreprocDefined,
            250 => Cpp::UnaryExpression,
            251 => Cpp::CallExpression,
            252 => Cpp::ArgumentList,
            253 => Cpp::BinaryExpression,
            254 => Cpp::FunctionDefinition,
            255 => Cpp::Declaration,
            256 => Cpp::TypeDefinition,
            257 => Cpp::TypeDefinitionType,
            258 => Cpp::TypeDefinitionDeclarators,
            259 => Cpp::DeclarationModifiers,
            260 => Cpp::DeclarationSpecifiers,
            261 => Cpp::LinkageSpecification,
            262 => Cpp::AttributeSpecifier,
            263 => Cpp::Attribute,
            264 => Cpp::AttributeDeclaration,
            265 => Cpp::MsDeclspecModifier,
            266 => Cpp::MsBasedModifier,
            267 => Cpp::MsCallModifier,
            268 => Cpp::MsUnalignedPtrModifier,
            269 => Cpp::MsPointerModifier,
            270 => Cpp::DeclarationList,
            271 => Cpp::Declarator,
            272 => Cpp::FieldDeclarator,
            273 => Cpp::TypeDeclarator,
            274 => Cpp::AbstractDeclarator,
            275 => Cpp::ParenthesizedDeclarator,
            276 => Cpp::ParenthesizedDeclarator2,
            277 => Cpp::ParenthesizedDeclarator3,
            278 => Cpp::AbstractParenthesizedDeclarator,
            279 => Cpp::AttributedDeclarator,
            280 => Cpp::AttributedDeclarator2,
            281 => Cpp::AttributedDeclarator3,
            282 => Cpp::PointerDeclarator,
            283 => Cpp::PointerDeclarator2,
            284 => Cpp::PointerTypeDeclarator,
            285 => Cpp::AbstractPointerDeclarator,
            286 => Cpp::FunctionDeclarator,
            287 => Cpp::FunctionDeclarator2,
            288 => Cpp::FunctionDeclarator3,
            289 => Cpp::AbstractFunctionDeclarator,
            290 => Cpp::ArrayDeclarator,
            291 => Cpp::ArrayDeclarator2,
            292 => Cpp::ArrayDeclarator3,
            293 => Cpp::AbstractArrayDeclarator,
            294 => Cpp::InitDeclarator,
            295 => Cpp::CompoundStatement,
            296 => Cpp::StorageClassSpecifier,
            297 => Cpp::TypeQualifier,
            298 => Cpp::AlignasQualifier,
            299 => Cpp::TypeSpecifier,
            300 => Cpp::SizedTypeSpecifier,
            301 => Cpp::EnumSpecifier,
            302 => Cpp::EnumeratorList,
            303 => Cpp::StructSpecifier,
            304 => Cpp::UnionSpecifier,
            305 => Cpp::FieldDeclarationList,
            306 => Cpp::FieldDeclarationListItem,
            307 => Cpp::FieldDeclaration,
            308 => Cpp::BitfieldClause,
            309 => Cpp::Enumerator,
            310 => Cpp::ParameterList,
            311 => Cpp::ParameterDeclaration,
            312 => Cpp::AttributedStatement,
            313 => Cpp::Statement,
            314 => Cpp::TopLevelStatement,
            315 => Cpp::LabeledStatement,
            316 => Cpp::ExpressionStatement,
            317 => Cpp::ExpressionStatement2,
            318 => Cpp::IfStatement,
            319 => Cpp::ElseClause,
            320 => Cpp::SwitchStatement,
            321 => Cpp::CaseStatement,
            322 => Cpp::WhileStatement,
            323 => Cpp::DoStatement,
            324 => Cpp::ForStatement,
            325 => Cpp::ForStatementBody,
            326 => Cpp::ReturnStatement,
            327 => Cpp::BreakStatement,
            328 => Cpp::ContinueStatement,
            329 => Cpp::GotoStatement,
            330 => Cpp::SehTryStatement,
            331 => Cpp::SehExceptClause,
            332 => Cpp::SehFinallyClause,
            333 => Cpp::SehLeaveStatement,
            334 => Cpp::Expression,
            335 => Cpp::String,
            336 => Cpp::CommaExpression,
            337 => Cpp::ConditionalExpression,
            338 => Cpp::AssignmentExpression,
            339 => Cpp::PointerExpression,
            340 => Cpp::UnaryExpression2,
            341 => Cpp::BinaryExpression2,
            342 => Cpp::UpdateExpression,
            343 => Cpp::CastExpression,
            344 => Cpp::TypeDescriptor,
            345 => Cpp::SizeofExpression,
            346 => Cpp::AlignofExpression,
            347 => Cpp::OffsetofExpression,
            348 => Cpp::GenericExpression,
            349 => Cpp::SubscriptExpression,
            350 => Cpp::CallExpression2,
            351 => Cpp::GnuAsmExpression,
            352 => Cpp::GnuAsmQualifier,
            353 => Cpp::GnuAsmOutputOperandList,
            354 => Cpp::GnuAsmOutputOperand,
            355 => Cpp::GnuAsmInputOperandList,
            356 => Cpp::GnuAsmInputOperand,
            357 => Cpp::GnuAsmClobberList,
            358 => Cpp::GnuAsmGotoList,
            359 => Cpp::ExtensionExpression,
            360 => Cpp::ArgumentList2,
            361 => Cpp::FieldExpression,
            362 => Cpp::CompoundLiteralExpression,
            363 => Cpp::ParenthesizedExpression2,
            364 => Cpp::InitializerList,
            365 => Cpp::InitializerPair,
            366 => Cpp::SubscriptDesignator,
            367 => Cpp::SubscriptRangeDesignator,
            368 => Cpp::FieldDesignator,
            369 => Cpp::CharLiteral,
            370 => Cpp::ConcatenatedString,
            371 => Cpp::StringLiteral,
            372 => Cpp::Null,
            373 => Cpp::EmptyDeclaration,
            374 => Cpp::PlaceholderTypeSpecifier,
            375 => Cpp::Decltype,
            376 => Cpp::Decltype2,
            377 => Cpp::ClassDeclaration,
            378 => Cpp::ClassDeclarationItem,
            379 => Cpp::ClassSpecifier,
            380 => Cpp::ClassName,
            381 => Cpp::VirtualSpecifier,
            382 => Cpp::ExplicitFunctionSpecifier,
            383 => Cpp::BaseClassClause,
            384 => Cpp::EnumBaseClause,
            385 => Cpp::DependentType,
            386 => Cpp::TemplateDeclaration,
            387 => Cpp::TemplateInstantiation,
            388 => Cpp::TemplateParameterList,
            389 => Cpp::TypeParameterDeclaration,
            390 => Cpp::VariadicTypeParameterDeclaration,
            391 => Cpp::OptionalTypeParameterDeclaration,
            392 => Cpp::TemplateTemplateParameterDeclaration,
            393 => Cpp::OptionalParameterDeclaration,
            394 => Cpp::VariadicParameterDeclaration,
            395 => Cpp::VariadicDeclarator,
            396 => Cpp::ReferenceDeclarator,
            397 => Cpp::OperatorCast,
            398 => Cpp::FieldInitializerList,
            399 => Cpp::FieldInitializer,
            400 => Cpp::FunctionDefinition2,
            401 => Cpp::ConstructorSpecifiers,
            402 => Cpp::FunctionDefinition3,
            403 => Cpp::Declaration2,
            404 => Cpp::TryStatement,
            405 => Cpp::FunctionDefinition4,
            406 => Cpp::Declaration3,
            407 => Cpp::DefaultMethodClause,
            408 => Cpp::DeleteMethodClause,
            409 => Cpp::PureVirtualClause,
            410 => Cpp::FriendDeclaration,
            411 => Cpp::AccessSpecifier,
            412 => Cpp::ReferenceDeclarator2,
            413 => Cpp::ReferenceDeclarator3,
            414 => Cpp::ReferenceDeclarator4,
            415 => Cpp::AbstractReferenceDeclarator,
            416 => Cpp::StructuredBindingDeclarator,
            417 => Cpp::RefQualifier,
            418 => Cpp::FunctionDeclaratorSeq,
            419 => Cpp::FunctionAttributesStart,
            420 => Cpp::FunctionExceptionSpecification,
            421 => Cpp::FunctionAttributesEnd,
            422 => Cpp::FunctionPostfix,
            423 => Cpp::TrailingReturnType,
            424 => Cpp::Noexcept,
            425 => Cpp::ThrowSpecifier,
            426 => Cpp::TemplateType,
            427 => Cpp::TemplateMethod,
            428 => Cpp::TemplateFunction,
            429 => Cpp::TemplateArgumentList,
            430 => Cpp::NamespaceDefinition,
            431 => Cpp::NamespaceAliasDefinition,
            432 => Cpp::NamespaceSpecifier,
            433 => Cpp::NestedNamespaceSpecifier,
            434 => Cpp::UsingDeclaration,
            435 => Cpp::AliasDeclaration,
            436 => Cpp::StaticAssertDeclaration,
            437 => Cpp::ConceptDefinition,
            438 => Cpp::ForRangeLoop,
            439 => Cpp::ForRangeLoopBody,
            440 => Cpp::InitStatement,
            441 => Cpp::ConditionClause,
            442 => Cpp::Declaration4,
            443 => Cpp::CoReturnStatement,
            444 => Cpp::CoYieldStatement,
            445 => Cpp::ThrowStatement,
            446 => Cpp::TryStatement2,
            447 => Cpp::CatchClause,
            448 => Cpp::RawStringLiteral,
            449 => Cpp::SubscriptArgumentList,
            450 => Cpp::CoAwaitExpression,
            451 => Cpp::NewExpression,
            452 => Cpp::NewDeclarator,
            453 => Cpp::DeleteExpression,
            454 => Cpp::TypeRequirement,
            455 => Cpp::CompoundRequirement,
            456 => Cpp::Requirement,
            457 => Cpp::RequirementSeq,
            458 => Cpp::ConstraintConjunction,
            459 => Cpp::ConstraintDisjunction,
            460 => Cpp::RequirementClauseConstraint,
            461 => Cpp::RequiresClause,
            462 => Cpp::ParameterList2,
            463 => Cpp::RequiresExpression,
            464 => Cpp::LambdaExpression,
            465 => Cpp::LambdaCaptureSpecifier,
            466 => Cpp::LambdaDefaultCapture,
            467 => Cpp::LambdaCaptureIdentifier,
            468 => Cpp::LambdaCaptureInitializer,
            469 => Cpp::LambdaCapture,
            470 => Cpp::FoldOperator,
            471 => Cpp::BinaryFoldOperator,
            472 => Cpp::UnaryLeftFold,
            473 => Cpp::UnaryRightFold,
            474 => Cpp::BinaryFold,
            475 => Cpp::FoldExpression,
            476 => Cpp::ParameterPackExpansion,
            477 => Cpp::ParameterPackExpansion2,
            478 => Cpp::ParameterPackExpansion3,
            479 => Cpp::DestructorName,
            480 => Cpp::DependentName,
            481 => Cpp::DependentName2,
            482 => Cpp::DependentName3,
            483 => Cpp::ScopeResolution,
            484 => Cpp::QualifiedIdentifier,
            485 => Cpp::QualifiedIdentifier2,
            486 => Cpp::QualifiedIdentifier3,
            487 => Cpp::QualifiedIdentifier4,
            488 => Cpp::AssignmentExpression2,
            489 => Cpp::OperatorName,
            490 => Cpp::UserDefinedLiteral,
            491 => Cpp::TranslationUnitRepeat1,
            492 => Cpp::PreprocParamsRepeat1,
            493 => Cpp::PreprocIfRepeat1,
            494 => Cpp::PreprocIfInFieldDeclarationListRepeat1,
            495 => Cpp::PreprocIfInEnumeratorListRepeat1,
            496 => Cpp::PreprocIfInEnumeratorListNoCommaRepeat1,
            497 => Cpp::PreprocArgumentListRepeat1,
            498 => Cpp::DeclarationRepeat1,
            499 => Cpp::TypeDefinitionRepeat1,
            500 => Cpp::TypeDefinitionTypeRepeat1,
            501 => Cpp::TypeDefinitionDeclaratorsRepeat1,
            502 => Cpp::DeclarationSpecifiersRepeat1,
            503 => Cpp::AttributeDeclarationRepeat1,
            504 => Cpp::AttributedDeclaratorRepeat1,
            505 => Cpp::PointerDeclaratorRepeat1,
            506 => Cpp::ArrayDeclaratorRepeat1,
            507 => Cpp::SizedTypeSpecifierRepeat1,
            508 => Cpp::EnumeratorListRepeat1,
            509 => Cpp::FieldDeclarationRepeat1,
            510 => Cpp::ParameterListRepeat1,
            511 => Cpp::CaseStatementRepeat1,
            512 => Cpp::GenericExpressionRepeat1,
            513 => Cpp::GnuAsmExpressionRepeat1,
            514 => Cpp::GnuAsmOutputOperandListRepeat1,
            515 => Cpp::GnuAsmInputOperandListRepeat1,
            516 => Cpp::GnuAsmClobberListRepeat1,
            517 => Cpp::GnuAsmGotoListRepeat1,
            518 => Cpp::ArgumentListRepeat1,
            519 => Cpp::InitializerListRepeat1,
            520 => Cpp::InitializerPairRepeat1,
            521 => Cpp::CharLiteralRepeat1,
            522 => Cpp::ConcatenatedStringRepeat1,
            523 => Cpp::StringLiteralRepeat1,
            524 => Cpp::ClassDeclarationRepeat1,
            525 => Cpp::BaseClassClauseRepeat1,
            526 => Cpp::TemplateParameterListRepeat1,
            527 => Cpp::FieldInitializerListRepeat1,
            528 => Cpp::OperatorCastDefinitionRepeat1,
            529 => Cpp::ConstructorTryStatementRepeat1,
            530 => Cpp::StructuredBindingDeclaratorRepeat1,
            531 => Cpp::FunctionPostfixRepeat1,
            532 => Cpp::ThrowSpecifierRepeat1,
            533 => Cpp::TemplateArgumentListRepeat1,
            534 => Cpp::SubscriptArgumentListRepeat1,
            535 => Cpp::RequirementSeqRepeat1,
            536 => Cpp::RequiresParameterListRepeat1,
            537 => Cpp::LambdaCaptureSpecifierRepeat1,
            538 => Cpp::FieldIdentifier,
            539 => Cpp::NamespaceIdentifier,
            540 => Cpp::SimpleRequirement,
            541 => Cpp::StatementIdentifier,
            542 => Cpp::TypeIdentifier,
            _ => Cpp::Error,
        }
    }

    /// The display string of this kind.
    pub fn as_str(&self) -> (r: &'static str)
        ensures
            r@ == self.text(),
    {
        match self {
            Cpp::End => "end",
            Cpp::Identifier => "identifier",
            Cpp::Include => "#include",
            Cpp::PreprocIncludeToken2 => "preproc_include_token2",
            Cpp::Define => "#define",
            Cpp::LPAREN => "(",
            Cpp::DOTDOTDOT => "...",
            Cpp::COMMA => ",",
            Cpp::RPAREN => ")",
            Cpp::If => "#if",
            Cpp::X => "\n",
            Cpp::Endif => "#endif",
            Cpp::Ifdef => "#ifdef",
            Cpp::Ifndef => "#ifndef",
            Cpp::Else => "#else",
            Cpp::Elif => "#elif",
            Cpp::Elifdef => "#elifdef",
            Cpp::Elifndef => "#elifndef",
            Cpp::PreprocArg => "preproc_arg",
            Cpp::PreprocDirective => "preproc_directive",
            Cpp::LPAREN2 => "(",
            Cpp::Defined => "defined",
            Cpp::BANG => "!",
            Cpp::TILDE => "~",
            Cpp::DASH => "-",
            Cpp::PLUS => "+",
            Cpp::STAR => "*",
            Cpp::SLASH => "/",
            Cpp::PERCENT => "%",
            Cpp::PIPEPIPE => "||",
            Cpp::AMPAMP => "&&",
            Cpp::PIPE => "|",
            Cpp::CARET => "^",
            Cpp::AMP => "&",
            Cpp::EQEQ => "==",
            Cpp::BANGEQ => "!=",
            Cpp::GT => ">",
            Cpp::GTEQ => ">=",
            Cpp::LTEQ => "<=",
            Cpp::LT => "<",
            Cpp::LTLT => "<<",
            Cpp::GTGT => ">>",
            Cpp::SEMI => ";",
            Cpp::Extension => "__extension__",
            Cpp::Typedef => "typedef",
            Cpp::Virtual => "virtual",
            Cpp::Extern => "extern",
            Cpp::Attribute2 => "__attribute__",
            Cpp::Attribute3 => "__attribute",
            Cpp::COLONCOLON => "::",
            Cpp::LBRACKLBRACK => "[[",
            Cpp::RBRACKRBRACK => "]]",
            Cpp::Declspec => "__declspec",
            Cpp::Based => "__based",
            Cpp::Cdecl => "__cdecl",
            Cpp::Clrcall => "__clrcall",
            Cpp::Stdcall => "__stdcall",
            Cpp::Fastcall => "__fastcall",
            Cpp::Thiscall => "__thiscall",
            Cpp::Vectorcall => "__vectorcall",
            Cpp::MsRestrictModifier => "ms_restrict_modifier",
            Cpp::MsUnsignedPtrModifier => "ms_unsigned_ptr_modifier",
            Cpp::MsSignedPtrModifier => "ms_signed_ptr_modifier",
            Cpp::Unaligned => "_unaligned",
            Cpp::Unaligned2 => "__unaligned",
            Cpp::LBRACE => "{",
            Cpp::RBRACE => "}",
            Cpp::Signed => "signed",
            Cpp::Unsigned => "unsigned",
            Cpp::Long => "long",
            Cpp::Short => "short",
            Cpp::LBRACK => "[",
            Cpp::Static => "static",
            Cpp::RBRACK => "]",
            Cpp::EQ => "=",
            Cpp::Register => "register",
            Cpp::Inline => "inline",
            Cpp::Inline2 => "__inline",
            Cpp::Inline3 => "__inline__",
            Cpp::Forceinline => "__forceinline",
            Cpp::ThreadLocal => "thread_local",
            Cpp::Thread => "__thread",
            Cpp::Const => "const",
            Cpp::Constexpr => "constexpr",
            Cpp::Volatile => "volatile",
            Cpp::Restrict => "restrict",
            Cpp::Restrict2 => "__restrict__",
            Cpp::Atomic => "_Atomic",
            Cpp::Noreturn => "_Noreturn",
            Cpp::Noreturn2 => "noreturn",
            Cpp::Nonnull => "_Nonnull",
            Cpp::Mutable => "mutable",
            Cpp::Constinit => "constinit",
            Cpp::Consteval => "consteval",
            Cpp::Alignas => "alignas",
            Cpp::Alignas2 => "_Alignas",
            Cpp::PrimitiveType => "primitive_type",
            Cpp::Enum => "enum",
            Cpp::Class => "class",
            Cpp::Struct => "struct",
            Cpp::Union => "union",
            Cpp::COLON => ":",
            Cpp::If2 => "if",
            Cpp::Else2 => "else",
            Cpp::Switch => "switch",
            Cpp::Case => "case",
            Cpp::Default => "default",
            Cpp::While => "while",
            Cpp::Do => "do",
            Cpp::For => "for",
            Cpp::Return => "return",
            Cpp::Break => "break",
            Cpp::Continue => "continue",
            Cpp::Goto => "goto",
            Cpp::Try => "__try",
            Cpp::Except => "__except",
            Cpp::Finally => "__finally",
            Cpp::Leave => "__leave",
            Cpp::QMARK => "?",
            Cpp::STAREQ => "*=",
            Cpp::SLASHEQ => "/=",
            Cpp::PERCENTEQ => "%=",
            Cpp::PLUSEQ => "+=",
            Cpp::DASHEQ => "-=",
            Cpp::LTLTEQ => "<<=",
            Cpp::GTGTEQ => ">>=",
            Cpp::AMPEQ => "&=",
            Cpp::CARETEQ => "^=",
            Cpp::PIPEEQ => "|=",
            Cpp::AndEq => "and_eq",
            Cpp::OrEq => "or_eq",
            Cpp::XorEq => "xor_eq",
            Cpp::Not => "not",
            Cpp::Compl => "compl",
            Cpp::LTEQGT => "<=>",
            Cpp::Or => "or",
            Cpp::And => "and",
            Cpp::Bitor => "bitor",
            Cpp::Xor => "xor",
            Cpp::Bitand => "bitand",
            Cpp::NotEq => "not_eq",
            Cpp::DASHDASH => "--",
            Cpp::PLUSPLUS => "++",
            Cpp::Sizeof => "sizeof",
            Cpp::Alignof => "__alignof__",
            Cpp::Alignof2 => "__alignof",
            Cpp::Alignof3 => "_alignof",
            Cpp::Alignof4 => "alignof",
            Cpp::Alignof5 => "_Alignof",
            Cpp::Offsetof => "offsetof",
            Cpp::Generic => "_Generic",
            Cpp::Asm => "asm",
            Cpp::Asm2 => "__asm__",
            Cpp::Asm3 => "__asm",
            Cpp::Volatile2 => "__volatile__",
            Cpp::DOT => ".",
            Cpp::DOTSTAR => ".*",
            Cpp::DASHGT => "->",
            Cpp::NumberLiteral => "number_literal",
            Cpp::L => "L'",
            Cpp::U => "u'",
            Cpp::U2 => "U'",
            Cpp::U8 => "u8'",
            Cpp::SQUOTE => "'",
            Cpp::Character => "character",
            Cpp::L2 => "L\"",
            Cpp::U3 => "u\"",
            Cpp::U4 => "U\"",
            Cpp::U82 => "u8\"",
            Cpp::DQUOTE => "\"",
            Cpp::StringContent => "string_content",
            Cpp::EscapeSequence => "escape_sequence",
            Cpp::SystemLibString => "system_lib_string",
            Cpp::True => "true",
            Cpp::False => "false",
            Cpp::NULL => "NULL",
            Cpp::Nullptr => "nullptr",
            Cpp::Comment => "comment",
            Cpp::Auto => "auto",
            Cpp::Decltype3 => "decltype",
            Cpp::FinalKw => "final",
            Cpp::Override => "override",
            Cpp::Explicit => "explicit",
            Cpp::Typename => "typename",
            Cpp::Template => "template",
            Cpp::GT2 => ">",
            Cpp::Operator => "operator",
            Cpp::Try2 => "try",
            Cpp::Delete => "delete",
            Cpp::PureVirtualClauseToken1 => "pure_virtual_clause_token1",
            Cpp::Friend => "friend",
            Cpp::Public => "public",
            Cpp::Private => "private",
            Cpp::Protected => "protected",
            Cpp::Noexcept2 => "noexcept",
            Cpp::Throw => "throw",
            Cpp::Namespace => "namespace",
            Cpp::Using => "using",
            Cpp::StaticAssert => "static_assert",
            Cpp::Concept => "concept",
            Cpp::CoReturn => "co_return",
            Cpp::CoYield => "co_yield",
            Cpp::Catch => "catch",
            Cpp::R => "R\"",
            Cpp::LR => "LR\"",
            Cpp::UR => "uR\"",
            Cpp::UR2 => "UR\"",
            Cpp::U8R => "u8R\"",
            Cpp::CoAwait => "co_await",
            Cpp::New => "new",
            Cpp::Requires => "requires",
            Cpp::DASHGTSTAR => "->*",
            Cpp::LPARENRPAREN => "()",
            Cpp::LBRACKRBRACK => "[]",
            Cpp::DQUOTEDQUOTE => "\"\"",
            Cpp::This => "this",
            Cpp::LiteralSuffix => "literal_suffix",
            Cpp::RawStringDelimiter => "raw_string_delimiter",
            Cpp::RawStringContent => "raw_string_content",
            Cpp::TranslationUnit => "translation_unit",
            Cpp::TopLevelItem => "_top_level_item",
            Cpp::BlockItem => "_block_item",
            Cpp::PreprocInclude => "preproc_include",
            Cpp::PreprocDef => "preproc_def",
            Cpp::PreprocFunctionDef => "preproc_function_def",
            Cpp::PreprocParams => "preproc_params",
            Cpp::PreprocCall => "preproc_call",
            Cpp::PreprocIf => "preproc_if",
            Cpp::PreprocIfdef => "preproc_ifdef",
            Cpp::PreprocElse => "preproc_else",
            Cpp::PreprocElif => "preproc_elif",
            Cpp::PreprocElifdef => "preproc_elifdef",
            Cpp::PreprocIf2 => "preproc_if",
            Cpp::PreprocIfdef2 => "preproc_ifdef",
            Cpp::PreprocElse2 => "preproc_else",
            Cpp::PreprocElif2 => "preproc_elif",
            Cpp::PreprocElifdef2 => "preproc_elifdef",
            Cpp::PreprocIf3 => "preproc_if",
            Cpp::PreprocIfdef3 => "preproc_ifdef",
            Cpp::PreprocElse3 => "preproc_else",
            Cpp::PreprocElif3 => "preproc_elif",
            Cpp::PreprocElifdef3 => "preproc_elifdef",
            Cpp::PreprocIf4 => "preproc_if",
            Cpp::PreprocIfdef4 => "preproc_ifdef",
            Cpp::PreprocElse4 => "preproc_else",
            Cpp::PreprocElif4 => "preproc_elif",
            Cpp::PreprocElifdef4 => "preproc_elifdef",
            Cpp::PreprocExpression => "_preproc_expression",
            Cpp::ParenthesizedExpression => "parenthesized_expression",
            Cpp::PreprocDefined => "preproc_defined",
            Cpp::UnaryExpression => "unary_expression",
            Cpp::CallExpression => "call_expression",
            Cpp::ArgumentList => "argument_list",
            Cpp::BinaryExpression => "binary_expression",
            Cpp::FunctionDefinition => "function_definition",
            Cpp::Declaration => "declaration",
            Cpp::TypeDefinition => "type_definition",
            Cpp::TypeDefinitionType => "_type_definition_type",
            Cpp::TypeDefinitionDeclarators => "_type_definition_declarators",
            Cpp::DeclarationModifiers => "_declaration_modifiers",
            Cpp::DeclarationSpecifiers => "_declaration_specifiers",
            Cpp::LinkageSpecification => "linkage_specification",
            Cpp::AttributeSpecifier => "attribute_specifier",
            Cpp::Attribute => "attribute",
            Cpp::AttributeDeclaration => "attribute_declaration",
            Cpp::MsDeclspecModifier => "ms_declspec_modifier",
            Cpp::MsBasedModifier => "ms_based_modifier",
            Cpp::MsCallModifier => "ms_call_modifier",
            Cpp::MsUnalignedPtrModifier => "ms_unaligned_ptr_modifier",
            Cpp::MsPointerModifier => "ms_pointer_modifier",
            Cpp::DeclarationList => "declaration_list",
            Cpp::Declarator => "_declarator",
            Cpp::FieldDeclarator => "_field_declarator",
            Cpp::TypeDeclarator => "_type_declarator",
            Cpp::AbstractDeclarator => "_abstract_declarator",
            Cpp::ParenthesizedDeclarator => "parenthesized_declarator",
            Cpp::ParenthesizedDeclarator2 => "parenthesized_declarator",
            Cpp::ParenthesizedDeclarator3 => "parenthesized_declarator",
            Cpp::AbstractParenthesizedDeclarator => "abstract_parenthesized_declarator",
            Cpp::AttributedDeclarator => "attributed_declarator",
            Cpp::AttributedDeclarator2 => "attributed_declarator",
            Cpp::AttributedDeclarator3 => "attributed_declarator",
            Cpp::PointerDeclarator => "pointer_declarator",
            Cpp::PointerDeclarator2 => "pointer_declarator",
            Cpp::PointerTypeDeclarator => "pointer_type_declarator",
            Cpp::AbstractPointerDeclarator => "abstract_pointer_declarator",
            Cpp::FunctionDeclarator => "function_declarator",
            Cpp::FunctionDeclarator2 => "function_declarator",
            Cpp::FunctionDeclarator3 => "function_declarator",
            Cpp::AbstractFunctionDeclarator => "abstract_function_declarator",
            Cpp::ArrayDeclarator => "array_declarator",
            Cpp::ArrayDeclarator2 => "array_declarator",
            Cpp::ArrayDeclarator3 => "array_declarator",
            Cpp::AbstractArrayDeclarator => "abstract_array_declarator",
            Cpp::InitDeclarator => "init_declarator",
            Cpp::CompoundStatement => "compound_statement",
            Cpp::StorageClassSpecifier => "storage_class_specifier",
            Cpp::TypeQualifier => "type_qualifier",
            Cpp::AlignasQualifier => "alignas_qualifier",
            Cpp::TypeSpecifier => "type_specifier",
            Cpp::SizedTypeSpecifier => "sized_type_specifier",
            Cpp::EnumSpecifier => "enum_specifier",
            Cpp::EnumeratorList => "enumerator_list",
            Cpp::StructSpecifier => "struct_specifier",
            Cpp::UnionSpecifier => "union_specifier",
            Cpp::FieldDeclarationList => "field_declaration_list",
            Cpp::FieldDeclarationListItem => "_field_declaration_list_item",
            Cpp::FieldDeclaration => "field_declaration",
            Cpp::BitfieldClause => "bitfield_clause",
            Cpp::Enumerator => "enumerator",
            Cpp::ParameterList => "parameter_list",
            Cpp::ParameterDeclaration => "parameter_declaration",
            Cpp::AttributedStatement => "attributed_statement",
            Cpp::Statement => "statement",
            Cpp::TopLevelStatement => "_top_level_statement",
            Cpp::LabeledStatement => "labeled_statement",
            Cpp::ExpressionStatement => "expression_statement",
            Cpp::ExpressionStatement2 => "expression_statement",
            Cpp::IfStatement => "if_statement",
            Cpp::ElseClause => "else_clause",
            Cpp::SwitchStatement => "switch_statement",
            Cpp::CaseStatement => "case_statement",
            Cpp::WhileStatement => "while_statement",
            Cpp::DoStatement => "do_statement",
            Cpp::ForStatement => "for_statement",
            Cpp::ForStatementBody => "_for_statement_body",
            Cpp::ReturnStatement => "return_statement",
            Cpp::BreakStatement => "break_statement",
            Cpp::ContinueStatement => "continue_statement",
            Cpp::GotoStatement => "goto_statement",
            Cpp::SehTryStatement => "seh_try_statement",
            Cpp::SehExceptClause => "seh_except_clause",
            Cpp::SehFinallyClause => "seh_finally_clause",
            Cpp::SehLeaveStatement => "seh_leave_statement",
            Cpp::Expression => "expression",
            Cpp::String => "_string",
            Cpp::CommaExpression => "comma_expression",
            Cpp::ConditionalExpression => "conditional_expression",
            Cpp::AssignmentExpression => "assignment_expression",
            Cpp::PointerExpression => "pointer_expression",
            Cpp::UnaryExpression2 => "unary_expression",
            Cpp::BinaryExpression2 => "binary_expression",
            Cpp::UpdateExpression => "update_expression",
            Cpp::CastExpression => "cast_expression",
            Cpp::TypeDescriptor => "type_descriptor",
            Cpp::SizeofExpression => "sizeof_expression",
            Cpp::AlignofExpression => "alignof_expression",
            Cpp::OffsetofExpression => "offsetof_expression",
            Cpp::GenericExpression => "generic_expression",
            Cpp::SubscriptExpression => "subscript_expression",
            Cpp::CallExpression2 => "call_expression",
            Cpp::GnuAsmExpression => "gnu_asm_expression",
            Cpp::GnuAsmQualifier => "gnu_asm_qualifier",
            Cpp::GnuAsmOutputOperandList => "gnu_asm_output_operand_list",
            Cpp::GnuAsmOutputOperand => "gnu_asm_output_operand",
            Cpp::GnuAsmInputOperandList => "gnu_asm_input_operand_list",
            Cpp::GnuAsmInputOperand => "gnu_asm_input_operand",
            Cpp::GnuAsmClobberList => "gnu_asm_clobber_list",
            Cpp::GnuAsmGotoList => "gnu_asm_goto_list",
            Cpp::ExtensionExpression => "extension_expression",
            Cpp::ArgumentList2 => "argument_list",
            Cpp::FieldExpression => "field_expression",
            Cpp::CompoundLiteralExpression => "compound_literal_expression",
            Cpp::ParenthesizedExpression2 => "parenthesized_expression",
            Cpp::InitializerList => "initializer_list",
            Cpp::InitializerPair => "initializer_pair",
            Cpp::SubscriptDesignator => "subscript_designator",
            Cpp::SubscriptRangeDesignator => "subscript_range_designator",
            Cpp::FieldDesignator => "field_designator",
            Cpp::CharLiteral => "char_literal",
            Cpp::ConcatenatedString => "concatenated_string",
            Cpp::StringLiteral => "string_literal",
            Cpp::Null => "null",
            Cpp::EmptyDeclaration => "_empty_declaration",
            Cpp::PlaceholderTypeSpecifier => "placeholder_type_specifier",
            Cpp::Decltype => "decltype",
            Cpp::Decltype2 => "decltype",
            Cpp::ClassDeclaration => "_class_declaration",
            Cpp::ClassDeclarationItem => "_class_declaration_item",
            Cpp::ClassSpecifier => "class_specifier",
            Cpp::ClassName => "_class_name",
            Cpp::VirtualSpecifier => "virtual_specifier",
            Cpp::ExplicitFunctionSpecifier => "explicit_function_specifier",
            Cpp::BaseClassClause => "base_class_clause",
            Cpp::EnumBaseClause => "_enum_base_clause",
            Cpp::DependentType => "dependent_type",
            Cpp::TemplateDeclaration => "template_declaration",
            Cpp::TemplateInstantiation => "template_instantiation",
            Cpp::TemplateParameterList => "template_parameter_list",
            Cpp::TypeParameterDeclaration => "type_parameter_declaration",
            Cpp::VariadicTypeParameterDeclaration => "variadic_type_parameter_declaration",
            Cpp::OptionalTypeParameterDeclaration => "optional_type_parameter_declaration",
            Cpp::TemplateTemplateParameterDeclaration => "template_template_parameter_declaration",
            Cpp::OptionalParameterDeclaration => "optional_parameter_declaration",
            Cpp::VariadicParameterDeclaration => "variadic_parameter_declaration",
            Cpp::VariadicDeclarator => "variadic_declarator",
            Cpp::ReferenceDeclarator => "reference_declarator",
            Cpp::OperatorCast => "operator_cast",
            Cpp::FieldInitializerList => "field_initializer_list",
            Cpp::FieldInitializer => "field_initializer",
            Cpp::FunctionDefinition2 => "function_definition",
            Cpp::ConstructorSpecifiers => "_constructor_specifiers",
            Cpp::FunctionDefinition3 => "function_definition",
            Cpp::Declaration2 => "declaration",
            Cpp::TryStatement => "try_statement",
            Cpp::FunctionDefinition4 => "function_definition",
            Cpp::Declaration3 => "declaration",
            Cpp::DefaultMethodClause => "default_method_clause",
            Cpp::DeleteMethodClause => "delete_method_clause",
            Cpp::PureVirtualClause => "pure_virtual_clause",
            Cpp::FriendDeclaration => "friend_declaration",
            Cpp::AccessSpecifier => "access_specifier",
            Cpp::ReferenceDeclarator2 => "reference_declarator",
            Cpp::ReferenceDeclarator3 => "reference_declarator",
            Cpp::ReferenceDeclarator4 => "reference_declarator",
            Cpp::AbstractReferenceDeclarator => "abstract_reference_declarator",
            Cpp::StructuredBindingDeclarator => "structured_binding_declarator",
            Cpp::RefQualifier => "ref_qualifier",
            Cpp::FunctionDeclaratorSeq => "_function_declarator_seq",
            Cpp::FunctionAttributesStart => "_function_attributes_start",
            Cpp::FunctionExceptionSpecification => "_function_exception_specification",
            Cpp::FunctionAttributesEnd => "_function_attributes_end",
            Cpp::FunctionPostfix => "_function_postfix",
            Cpp::TrailingReturnType => "trailing_return_type",
            Cpp::Noexcept => "noexcept",
            Cpp::ThrowSpecifier => "throw_specifier",
            Cpp::TemplateType => "template_type",
            Cpp::TemplateMethod => "template_method",
            Cpp::TemplateFunction => "template_function",
            Cpp::TemplateArgumentList => "template_argument_list",
            Cpp::NamespaceDefinition => "namespace_definition",
            Cpp::NamespaceAliasDefinition => "namespace_alias_definition",
            Cpp::NamespaceSpecifier => "_namespace_specifier",
            Cpp::NestedNamespaceSpecifier => "nested_namespace_specifier",
            Cpp::UsingDeclaration => "using_declaration",
            Cpp::AliasDeclaration => "alias_declaration",
            Cpp::StaticAssertDeclaration => "static_assert_declaration",
            Cpp::ConceptDefinition => "concept_definition",
            Cpp::ForRangeLoop => "for_range_loop",
            Cpp::ForRangeLoopBody => "_for_range_loop_body",
            Cpp::InitStatement => "init_statement",
            Cpp::ConditionClause => "condition_clause",
            Cpp::Declaration4 => "declaration",
            Cpp::CoReturnStatement => "co_return_statement",
            Cpp::CoYieldStatement => "co_yield_statement",
            Cpp::ThrowStatement => "throw_statement",
            Cpp::TryStatement2 => "try_statement",
            Cpp::CatchClause => "catch_clause",
            Cpp::RawStringLiteral => "raw_string_literal",
            Cpp::SubscriptArgumentList => "subscript_argument_list",
            Cpp::CoAwaitExpression => "co_await_expression",
            Cpp::NewExpression => "new_expression",
            Cpp::NewDeclarator => "new_declarator",
            Cpp::DeleteExpression => "delete_expression",
            Cpp::TypeRequirement => "type_requirement",
            Cpp::CompoundRequirement => "compound_requirement",
            Cpp::Requirement => "_requirement",
            Cpp::RequirementSeq => "requirement_seq",
            Cpp::ConstraintConjunction => "constraint_conjunction",
            Cpp::ConstraintDisjunction => "constraint_disjunction",
            Cpp::RequirementClauseConstraint => "_requirement_clause_constraint",
            Cpp::RequiresClause => "requires_clause",
            Cpp::ParameterList2 => "parameter_list",
            Cpp::RequiresExpression => "requires_expression",
            Cpp::LambdaExpression => "lambda_expression",
            Cpp::LambdaCaptureSpecifier => "lambda_capture_specifier",
            Cpp::LambdaDefaultCapture => "lambda_default_capture",
            Cpp::LambdaCaptureIdentifier => "_lambda_capture_identifier",
            Cpp::LambdaCaptureInitializer => "lambda_capture_initializer",
            Cpp::LambdaCapture => "_lambda_capture",
            Cpp::FoldOperator => "_fold_operator",
            Cpp::BinaryFoldOperator => "_binary_fold_operator",
            Cpp::UnaryLeftFold => "_unary_left_fold",
            Cpp::UnaryRightFold => "_unary_right_fold",
            Cpp::BinaryFold => "_binary_fold",
            Cpp::FoldExpression => "fold_expression",
            Cpp::ParameterPackExpansion => "parameter_pack_expansion",
            Cpp::ParameterPackExpansion2 => "parameter_pack_expansion",
            Cpp::ParameterPackExpansion3 => "parameter_pack_expansion",
            Cpp::DestructorName => "destructor_name",
            Cpp::DependentName => "dependent_name",
            Cpp::DependentName2 => "dependent_name",
            Cpp::DependentName3 => "dependent_name",
            Cpp::ScopeResolution => "_scope_resolution",
            Cpp::QualifiedIdentifier => "qualified_identifier",
            Cpp::QualifiedIdentifier2 => "qualified_identifier",
            Cpp::QualifiedIdentifier3 => "qualified_identifier",
            Cpp::QualifiedIdentifier4 => "qualified_identifier",
            Cpp::AssignmentExpression2 => "assignment_expression",
            Cpp::OperatorName => "operator_name",
            Cpp::UserDefinedLiteral => "user_defined_literal",
            Cpp::TranslationUnitRepeat1 => "translation_unit_repeat1",
            Cpp::PreprocParamsRepeat1 => "preproc_params_repeat1",
            Cpp::PreprocIfRepeat1 => "preproc_if_repeat1",
            Cpp::PreprocIfInFieldDeclarationListRepeat1 => "preproc_if_in_field_declaration_list_repeat1",
            Cpp::PreprocIfInEnumeratorListRepeat1 => "preproc_if_in_enumerator_list_repeat1",
            Cpp::PreprocIfInEnumeratorListNoCommaRepeat1 => "preproc_if_in_enumerator_list_no_comma_repeat1",
            Cpp::PreprocArgumentListRepeat1 => "preproc_argument_list_repeat1",
            Cpp::DeclarationRepeat1 => "declaration_repeat1",
            Cpp::TypeDefinitionRepeat1 => "type_definition_repeat1",
            Cpp::TypeDefinitionTypeRepeat1 => "_type_definition_type_repeat1",
            Cpp::TypeDefinitionDeclaratorsRepeat1 => "_type_definition_declarators_repeat1",
            Cpp::DeclarationSpecifiersRepeat1 => "_declaration_specifiers_repeat1",
            Cpp::AttributeDeclarationRepeat1 => "attribute_declaration_repeat1",
            Cpp::AttributedDeclaratorRepeat1 => "attributed_declarator_repeat1",
            Cpp::PointerDeclaratorRepeat1 => "pointer_declarator_repeat1",
            Cpp::ArrayDeclaratorRepeat1 => "array_declarator_repeat1",
            Cpp::SizedTypeSpecifierRepeat1 => "sized_type_specifier_repeat1",
            Cpp::EnumeratorListRepeat1 => "enumerator_list_repeat1",
            Cpp::FieldDeclarationRepeat1 => "field_declaration_repeat1",
            Cpp::ParameterListRepeat1 => "parameter_list_repeat1",
            Cpp::CaseStatementRepeat1 => "case_statement_repeat1",
            Cpp::GenericExpressionRepeat1 => "generic_expression_repeat1",
            Cpp::GnuAsmExpressionRepeat1 => "gnu_asm_expression_repeat1",
            Cpp::GnuAsmOutputOperandListRepeat1 => "gnu_asm_output_operand_list_repeat1",
            Cpp::GnuAsmInputOperandListRepeat1 => "gnu_asm_input_operand_list_repeat1",
            Cpp::GnuAsmClobberListRepeat1 => "gnu_asm_clobber_list_repeat1",
            Cpp::GnuAsmGotoListRepeat1 => "gnu_asm_goto_list_repeat1",
            Cpp::ArgumentListRepeat1 => "argument_list_repeat1",
            Cpp::InitializerListRepeat1 => "initializer_list_repeat1",
            Cpp::InitializerPairRepeat1 => "initializer_pair_repeat1",
            Cpp::CharLiteralRepeat1 => "char_literal_repeat1",
            Cpp::ConcatenatedStringRepeat1 => "concatenated_string_repeat1",
            Cpp::StringLiteralRepeat1 => "string_literal_repeat1",
            Cpp::ClassDeclarationRepeat1 => "_class_declaration_repeat1",
            Cpp::BaseClassClauseRepeat1 => "base_class_clause_repeat1",
            Cpp::TemplateParameterListRepeat1 => "template_parameter_list_repeat1",
            Cpp::FieldInitializerListRepeat1 => "field_initializer_list_repeat1",
            Cpp::OperatorCastDefinitionRepeat1 => "operator_cast_definition_repeat1",
            Cpp::ConstructorTryStatementRepeat1 => "constructor_try_statement_repeat1",
            Cpp::StructuredBindingDeclaratorRepeat1 => "structured_binding_declarator_repeat1",
            Cpp::FunctionPostfixRepeat1 => "_function_postfix_repeat1",
            Cpp::ThrowSpecifierRepeat1 => "throw_specifier_repeat1",
            Cpp::TemplateArgumentListRepeat1 => "template_argument_list_repeat1",
            Cpp::SubscriptArgumentListRepeat1 => "subscript_argument_list_repeat1",
            Cpp::RequirementSeqRepeat1 => "requirement_seq_repeat1",
            Cpp::RequiresParameterListRepeat1 => "requires_parameter_list_repeat1",
            Cpp::LambdaCaptureSpecifierRepeat1 => "lambda_capture_specifier_repeat1",
            Cpp::FieldIdentifier => "field_identifier",
            Cpp::NamespaceIdentifier => "namespace_identifier",
            Cpp::SimpleRequirement => "simple_requirement",
            Cpp::StatementIdentifier => "statement_identifier",
            Cpp::TypeIdentifier => "type_identifier",
            Cpp::Error => "ERROR",
        }
    }
}

impl From<u16> for Cpp {
    fn from(x: u16) -> (r: Cpp)
        ensures
            r == Cpp::spec_from_id(x),
    {
        Cpp::from_u16(x)
    }
}

impl vstd::std_specs::convert::FromSpecImpl<u16> for Cpp {
    open spec fn obeys_from_spec() -> bool {
        true
    }

    open spec fn from_spec(x: u16) -> Cpp {
        Cpp::spec_from_id(x)
    }
}

/// A kind id read back from its kind gives that kind again.
pub proof fn lemma_id_round_trip(k: Cpp)
    ensures
        Cpp::spec_from_id(k.id()) == k,
{
}

/// C++ kinds counted as Halstead operators.
pub open spec fn cpp_operator(k: Cpp) -> bool {
    match k {
        Cpp::DOT | Cpp::LPAREN | Cpp::LPAREN2 | Cpp::COMMA | Cpp::STAR | Cpp::GTGT | Cpp::COLON
        | Cpp::SEMI | Cpp::Return | Cpp::Break | Cpp::Continue | Cpp::If | Cpp::Else
        | Cpp::Switch | Cpp::Case | Cpp::Default | Cpp::For | Cpp::While | Cpp::Goto | Cpp::Do
        | Cpp::Delete | Cpp::New | Cpp::Try | Cpp::Try2 | Cpp::Catch | Cpp::Throw | Cpp::EQ
        | Cpp::AMPAMP | Cpp::PIPEPIPE | Cpp::DASH | Cpp::DASHDASH | Cpp::DASHGT | Cpp::PLUS
        | Cpp::PLUSPLUS | Cpp::SLASH | Cpp::PERCENT | Cpp::PIPE | Cpp::AMP | Cpp::LTLT
        | Cpp::TILDE | Cpp::LT | Cpp::LTEQ | Cpp::EQEQ | Cpp::BANGEQ | Cpp::GTEQ | Cpp::GT
        | Cpp::GT2 | Cpp::PLUSEQ | Cpp::BANG | Cpp::STAREQ | Cpp::SLASHEQ | Cpp::PERCENTEQ
        | Cpp::GTGTEQ | Cpp::LTLTEQ | Cpp::AMPEQ | Cpp::CARET | Cpp::CARETEQ | Cpp::PIPEEQ
        | Cpp::LBRACK | Cpp::LBRACE | Cpp::QMARK | Cpp::COLONCOLON | Cpp::PrimitiveType
        | Cpp::TypeSpecifier | Cpp::Sizeof => true,
        _ => false,
    }
}

/// C++ kinds counted as Halstead operands.
pub open spec fn cpp_operand(k: Cpp) -> bool {
    match k {
        Cpp::Identifier | Cpp::TypeIdentifier | Cpp::FieldIdentifier | Cpp::RawStringLiteral
        | Cpp::StringLiteral | Cpp::NumberLiteral | Cpp::True | Cpp::False | Cpp::Null
        | Cpp::DOTDOTDOT => true,
        _ => false,
    }
}

/// How a C++ node counts in the Halstead measures; a few tokens count only
/// where their parent shows what they stand for.
pub open spec fn cpp_op_type(tree: Tree, node: int) -> HalsteadType {
    let k = Cpp::spec_from_id(tree.nodes@[node].kind_id);
    if k == Cpp::NamespaceIdentifier {
        match tree.nodes@[node].parent {
            Some(p) => if Cpp::spec_from_id(tree.nodes@[p as int].kind_id) == Cpp::NamespaceDefinition {
                HalsteadType::Operand
            } else {
                HalsteadType::Unknown
            },
            None => HalsteadType::Unknown,
        }
    } else if cpp_operator(k) {
        HalsteadType::Operator
    } else if cpp_operand(k) {
        HalsteadType::Operand
    } else {
        HalsteadType::Unknown
    }
}

/// The space kind of a C++ node.
pub open spec fn cpp_space_kind(k: Cpp) -> SpaceKind {
    match k {
        Cpp::FunctionDefinition | Cpp::FunctionDefinition2 | Cpp::FunctionDefinition3 => SpaceKind::Function,
        Cpp::StructSpecifier => SpaceKind::Struct,
        Cpp::ClassSpecifier => SpaceKind::Class,
        Cpp::NamespaceDefinition => SpaceKind::Namespace,
        Cpp::TranslationUnit => SpaceKind::Unit,
        _ => SpaceKind::Unknown,
    }
}

/// The text under which a C++ operator counts: an opening bracket stands for the
/// pair it opens.
pub open spec fn cpp_operator_text(id: u16) -> Seq<char> {
    match Cpp::spec_from_id(id) {
        Cpp::LPAREN => "()"@,
        Cpp::LBRACK => "[]"@,
        Cpp::LBRACE => "{}"@,
        k => k.text(),
    }
}

/// The C++ grammar.
pub struct CppCode;

impl Getter for CppCode {
    open spec fn space_kind_of(tree: Tree, node: int) -> SpaceKind {
        cpp_space_kind(Cpp::spec_from_id(tree.nodes@[node].kind_id))
    }

    open spec fn op_type_of(tree: Tree, node: int) -> HalsteadType {
        cpp_op_type(tree, node)
    }

    open spec fn operator_text_of(id: u16) -> Seq<char> {
        cpp_operator_text(id)
    }

    open spec fn name_of(tree: Tree, node: int, code: Seq<u8>) -> Option<Seq<char>> {
        cpp_func_name(tree, node, code)
    }

    fn get_space_kind(tree: &Tree, node: usize) -> (r: SpaceKind)
        ensures
            r == cpp_space_kind(Cpp::spec_from_id(tree.nodes@[node as int].kind_id)),
    {
        match Cpp::from_u16(tree.nodes[node].kind_id) {
            Cpp::FunctionDefinition | Cpp::FunctionDefinition2 | Cpp::FunctionDefinition3 => SpaceKind::Function,
            Cpp::StructSpecifier => SpaceKind::Struct,
            Cpp::ClassSpecifier => SpaceKind::Class,
            Cpp::NamespaceDefinition => SpaceKind::Namespace,
            Cpp::TranslationUnit => SpaceKind::Unit,
            _ => SpaceKind::Unknown,
        }
    }

    fn get_func_space_name(tree: &Tree, node: usize, code: &[u8]) -> (r: Option<String>)
        ensures
            name_view(r) == cpp_func_name(*tree, node as int, code@),
    {
        cpp_function_name(tree, node, code)
    }

    fn get_op_type(tree: &Tree, node: usize) -> (r: HalsteadType)
        ensures
            r == cpp_op_type(*tree, node as int),
    {
        match Cpp::from_u16(tree.nodes[node].kind_id) {
            Cpp::NamespaceIdentifier => {
                match tree.nodes[node].parent {
                    Some(p) => {
                        assert((p as int) < tree.nodes@.len());
                        if Cpp::from_u16(tree.nodes[p].kind_id) == Cpp::NamespaceDefinition {
                            HalsteadType::Operand
                        } else {
                            HalsteadType::Unknown
                        }
                    },
                    None => HalsteadType::Unknown,
                }
            },
            Cpp::DOT | Cpp::LPAREN | Cpp::LPAREN2 | Cpp::COMMA | Cpp::STAR | Cpp::GTGT
            | Cpp::COLON | Cpp::SEMI | Cpp::Return | Cpp::Break | Cpp::Continue | Cpp::If
            | Cpp::Else | Cpp::Switch | Cpp::Case | Cpp::Default | Cpp::For | Cpp::While
            | Cpp::Goto | Cpp::Do | Cpp::Delete | Cpp::New | Cpp::Try | Cpp::Try2 | Cpp::Catch
            | Cpp::Throw | Cpp::EQ | Cpp::AMPAMP | Cpp::PIPEPIPE | Cpp::DASH | Cpp::DASHDASH
            | Cpp::DASHGT | Cpp::PLUS | Cpp::PLUSPLUS | Cpp::SLASH | Cpp::PERCENT | Cpp::PIPE
            | Cpp::AMP | Cpp::LTLT | Cpp::TILDE | Cpp::LT | Cpp::LTEQ | Cpp::EQEQ | Cpp::BANGEQ
            | Cpp::GTEQ | Cpp::GT | Cpp::GT2 | Cpp::PLUSEQ | Cpp::BANG | Cpp::STAREQ
            | Cpp::SLASHEQ | Cpp::PERCENTEQ | Cpp::GTGTEQ | Cpp::LTLTEQ | Cpp::AMPEQ
            | Cpp::CARET | Cpp::CARETEQ | Cpp::PIPEEQ | Cpp::LBRACK | Cpp::LBRACE | Cpp::QMARK
            | Cpp::COLONCOLON | Cpp::PrimitiveType | Cpp::TypeSpecifier | Cpp::Sizeof => {
                HalsteadType::Operator
            },
            Cpp::Identifier | Cpp::TypeIdentifier | Cpp::FieldIdentifier
            | Cpp::RawStringLiteral | Cpp::StringLiteral | Cpp::NumberLiteral | Cpp::True
            | Cpp::False | Cpp::Null | Cpp::DOTDOTDOT => {
                HalsteadType::Operand
            },
            _ => HalsteadType::Unknown,
        }
    }

    fn get_operator_id_as_str(id: u16) -> (r: &'static str)
        ensures
            r@ == cpp_operator_text(id),
    {
        match Cpp::from_u16(id) {
            Cpp::LPAREN => "()",
            Cpp::LBRACK => "[]",
            Cpp::LBRACE => "{}",
            k => k.as_str(),
        }
    }
}

} // verus!
