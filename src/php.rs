use vstd::prelude::*;

use crate::getter::{field_name, name_from_field, Getter};
use crate::node::Tree;
use crate::spaces::{HalsteadType, SpaceKind};

verus! {

/// Node kinds of the PHP grammar, in the grammar's own numbering.
#[derive(Clone, Copy, Debug, PartialEq, Eq, Structural)]
pub enum Php {
    End,
    Name,
    PhpTag,
    PhpEndTag,
    TextToken1,
    TextToken2,
    SEMI,
    AMP,
    Static,
    COMMA,
    EQ,
    Global,
    Namespace,
    Use,
    As,
    Function,
    Const,
    BSLASH,
    LBRACE,
    RBRACE,
    Trait,
    Interface,
    Extends,
    Enum,
    COLON,
    String2,
    IntKw,
    Case,
    Class,
    FinalKw,
    Abstract,
    Readonly,
    Implements,
    EQGT,
    VarModifier,
    Insteadof,
    Public,
    Protected,
    Private,
    LPAREN,
    RPAREN,
    LPAREN2,
    RPAREN2,
    Fn,
    DOTDOTDOT,
    QMARK,
    BottomType,
    PIPE,
    Array,
    Bool,
    PrimitiveTypeToken1,
    PrimitiveTypeToken2,
    Float2,
    PrimitiveTypeToken3,
    PrimitiveTypeToken4,
    Null2,
    Object,
    PrimitiveTypeToken5,
    PrimitiveTypeToken6,
    CastTypeToken1,
    CastTypeToken2,
    CastTypeToken3,
    CastTypeToken4,
    CastTypeToken5,
    CastTypeToken6,
    CastTypeToken7,
    CastTypeToken8,
    CastTypeToken9,
    CastTypeToken10,
    CastTypeToken11,
    CastTypeToken12,
    Echo,
    Exit,
    Unset,
    Declare,
    Enddeclare,
    Ticks,
    Encoding,
    StrictTypes,
    Float,
    Try,
    Catch,
    Finally,
    Goto,
    Continue,
    Break,
    Integer,
    Return,
    Throw,
    While,
    Endwhile,
    Do,
    For,
    Endfor,
    Foreach,
    Endforeach,
    If,
    Endif,
    Elseif,
    Else,
    Match,
    Default,
    Switch,
    Endswitch,
    PLUS,
    DASH,
    TILDE,
    BANG,
    AT,
    Clone,
    COLONCOLON,
    Print,
    New,
    DASHDASH,
    PLUSPLUS,
    STARSTAREQ,
    STAREQ,
    SLASHEQ,
    PERCENTEQ,
    PLUSEQ,
    DASHEQ,
    DOTEQ,
    LTLTEQ,
    GTGTEQ,
    AMPEQ,
    CARETEQ,
    PIPEEQ,
    QMARKQMARKEQ,
    DASHGT,
    QMARKDASHGT,
    List,
    LBRACK,
    RBRACK,
    SelfKw,
    Parent,
    ArgumentNameToken1,
    ArgumentNameToken2,
    POUNDLBRACK,
    EscapeSequence,
    StringContent,
    EncapsedStringToken1,
    DQUOTE,
    StringToken1,
    SQUOTE,
    EscapeSequence2,
    StringContentToken1,
    LTLTLT,
    DQUOTE2,
    NewLine,
    SQUOTE2,
    BQUOTE,
    DOLLAR,
    Yield,
    YieldFrom,
    Instanceof,
    QMARKQMARK,
    STARSTAR,
    And,
    Or,
    Xor,
    PIPEPIPE,
    AMPAMP,
    CARET,
    EQEQ,
    BANGEQ,
    LTGT,
    EQEQEQ,
    BANGEQEQ,
    LT,
    GT,
    LTEQ,
    GTEQ,
    LTEQGT,
    PIPEGT,
    DOT,
    LTLT,
    GTGT,
    STAR,
    SLASH,
    PERCENT,
    Include,
    IncludeOnce,
    Require,
    RequireOnce,
    Comment,
    AutomaticSemicolon,
    StringContent2,
    StringContent3,
    StringContent4,
    StringContent5,
    StringContent6,
    StringContent7,
    Eof,
    HeredocStart,
    HeredocEnd,
    NowdocString,
    SentinelError,
    Program,
    TextInterpolation,
    Text,
    Statement,
    EmptyStatement,
    ReferenceModifier,
    FunctionStaticDeclaration,
    StaticVariableDeclaration,
    GlobalDeclaration,
    NamespaceDefinition,
    NamespaceUseDeclaration,
    NamespaceUseClause,
    QualifiedName,
    RelativeName,
    Name2,
    NamespaceName,
    NamespaceUseGroup2,
    NamespaceUseGroup,
    TraitDeclaration,
    InterfaceDeclaration,
    BaseClause,
    EnumDeclaration,
    EnumDeclarationList,
    EnumMemberDeclaration,
    EnumCase,
    ClassDeclaration,
    DeclarationList,
    FinalModifier,
    AbstractModifier,
    ReadonlyModifier,
    ClassInterfaceClause,
    MemberDeclaration,
    ConstDeclaration,
    ConstDeclaration2,
    PropertyDeclaration,
    Modifier,
    PropertyElement,
    PropertyHookList,
    PropertyHook,
    PropertyHookBody,
    MethodDeclaration,
    StaticModifier,
    UseDeclaration,
    UseList,
    UseInsteadOfClause,
    UseAsClause,
    VisibilityModifier,
    FunctionDefinition,
    AnonymousFunction,
    AnonymousFunctionUseClause,
    AnonymousFunctionHeader,
    ArrowFunctionHeader,
    ArrowFunction,
    FormalParameters,
    PropertyPromotionParameter,
    SimpleParameter,
    VariadicParameter,
    Type,
    Types,
    NamedType,
    OptionalType,
    UnionType,
    IntersectionType,
    DisjunctiveNormalFormType,
    PrimitiveType,
    CastType,
    ReturnType,
    ConstElement,
    ConstElement2,
    EchoStatement,
    ExitStatement,
    UnsetStatement,
    DeclareStatement,
    DeclareDirective,
    Literal,
    TryStatement,
    CatchClause,
    TypeList,
    FinallyClause,
    GotoStatement,
    ContinueStatement,
    BreakStatement,
    ReturnStatement,
    ThrowExpression,
    WhileStatement,
    DoStatement,
    ForStatement,
    Expressions,
    SequenceExpression,
    ForeachStatement,
    Pair,
    ForeachValue,
    IfStatement,
    ColonBlock,
    ElseIfClause,
    ElseClause,
    ElseIfClause2,
    ElseClause2,
    MatchExpression,
    MatchBlock,
    MatchConditionList,
    MatchConditionalExpression,
    MatchDefaultExpression,
    SwitchStatement,
    SwitchBlock,
    CaseStatement,
    DefaultStatement,
    CompoundStatement,
    NamedLabelStatement,
    ExpressionStatement,
    Expression,
    UnaryExpression,
    UnaryOpExpression,
    ErrorSuppressionExpression,
    CloneExpression,
    PrimaryExpression,
    ParenthesizedExpression,
    ClassConstantAccessExpression,
    PrintIntrinsic,
    ObjectCreationExpression,
    NewNonDereferencableExpression,
    NewDereferencableExpression,
    ClassNameReference,
    AnonymousClass,
    UpdateExpression,
    CastExpression,
    CastExpression2,
    AssignmentExpression,
    ReferenceAssignmentExpression,
    ConditionalExpression,
    AugmentedAssignmentExpression,
    MemberAccessExpression,
    MemberAccessExpression2,
    NullsafeMemberAccessExpression,
    NullsafeMemberAccessExpression2,
    ScopedPropertyAccessExpression,
    ScopedPropertyAccessExpression2,
    ListLiteral,
    ListDestructing,
    ArrayDestructing,
    ArrayDestructingElement,
    FunctionCallExpression,
    CallableExpression,
    ScopedCallExpression,
    ScopeResolutionQualifier,
    RelativeScope,
    VariadicPlaceholder,
    ArgumentPlaceholder,
    Arguments,
    Argument,
    ArgumentName,
    MemberCallExpression,
    NullsafeMemberCallExpression,
    VariadicUnpacking,
    MemberName,
    SubscriptExpression,
    SubscriptExpression2,
    DereferencableExpression,
    DereferencableScalar,
    ArrayCreationExpression,
    AttributeGroup,
    AttributeList,
    Attribute,
    ComplexStringPart,
    MemberAccessExpression3,
    UnaryOpExpression2,
    SimpleStringArrayAccessArgument,
    SubscriptExpression3,
    SimpleStringPart,
    InterpolatedStringBody,
    InterpolatedStringBodyHeredoc,
    EncapsedString,
    String,
    StringContent8,
    HeredocBody,
    Heredoc,
    NowdocBody,
    Nowdoc,
    InterpolatedExecutionOperatorBody,
    ShellCommandExpression,
    Boolean,
    Null,
    String3,
    DynamicVariableName,
    SimpleVariable,
    NewVariable,
    CallableVariable,
    VariableName,
    ByRef,
    YieldExpression,
    ArrayElementInitializer,
    BinaryExpression,
    IncludeExpression,
    IncludeOnceExpression,
    RequireExpression,
    RequireOnceExpression,
    Semicolon,
    ProgramRepeat1,
    TextRepeat1,
    FunctionStaticDeclarationRepeat1,
    GlobalDeclarationRepeat1,
    NamespaceUseDeclarationRepeat1,
    NamespaceNameRepeat1,
    BaseClauseRepeat1,
    EnumDeclarationListRepeat1,
    ClassDeclarationRepeat1,
    DeclarationListRepeat1,
    ConstDeclarationRepeat1,
    ClassConstDeclarationRepeat1,
    PropertyDeclarationRepeat1,
    PropertyHookListRepeat1,
    UseListRepeat1,
    AnonymousFunctionUseClauseRepeat1,
    FormalParametersRepeat1,
    PropertyPromotionParameterRepeat1,
    UnionTypeRepeat1,
    IntersectionTypeRepeat1,
    DisjunctiveNormalFormTypeRepeat1,
    UnsetStatementRepeat1,
    TryStatementRepeat1,
    TypeListRepeat1,
    IfStatementRepeat1,
    IfStatementRepeat2,
    MatchBlockRepeat1,
    MatchConditionListRepeat1,
    SwitchBlockRepeat1,
    ListDestructingRepeat1,
    ArrayDestructingRepeat1,
    ArgumentsRepeat1,
    ArrayCreationExpressionRepeat1,
    AttributeGroupRepeat1,
    AttributeListRepeat1,
    StringRepeat1,
    StringContentRepeat1,
    HeredocBodyRepeat1,
    NowdocBodyRepeat1,
    Operation,
    Error,
}

impl Php {
    /// The grammar's numeric id of this kind.
    pub open spec fn id(self) -> u16 {
        match self {
            Php::End => 0,
            Php::Name => 1,
            Php::PhpTag => 2,
            Php::PhpEndTag => 3,
            Php::TextToken1 => 4,
            Php::TextToken2 => 5,
            Php::SEMI => 6,
            Php::AMP => 7,
            Php::Static => 8,
            Php::COMMA => 9,
            Php::EQ => 10,
            Php::Global => 11,
            Php::Namespace => 12,
            Php::Use => 13,
            Php::As => 14,
            Php::Function => 15,
            Php::Const => 16,
            Php::BSLASH => 17,
            Php::LBRACE => 18,
            Php::RBRACE => 19,
            Php::Trait => 20,
            Php::Interface => 21,
            Php::Extends => 22,
            Php::Enum => 23,
            Php::COLON => 24,
            Php::String2 => 25,
            Php::IntKw => 26,
            Php::Case => 27,
            Php::Class => 28,
            Php::FinalKw => 29,
            Php::Abstract => 30,
            Php::Readonly => 31,
            Php::Implements => 32,
            Php::EQGT => 33,
            Php::VarModifier => 34,
            Php::Insteadof => 35,
            Php::Public => 36,
            Php::Protected => 37,
            Php::Private => 38,
            Php::LPAREN => 39,
            Php::RPAREN => 40,
            Php::LPAREN2 => 41,
            Php::RPAREN2 => 42,
            Php::Fn => 43,
            Php::DOTDOTDOT => 44,
            Php::QMARK => 45,
            Php::BottomType => 46,
            Php::PIPE => 47,
            Php::Array => 48,
            Php::Bool => 49,
            Php::PrimitiveTypeToken1 => 50,
            Php::PrimitiveTypeToken2 => 51,
            Php::Float2 => 52,
            Php::PrimitiveTypeToken3 => 53,
            Php::PrimitiveTypeToken4 => 54,
            Php::Null2 => 55,
            Php::Object => 56,
            Php::PrimitiveTypeToken5 => 57,
            Php::PrimitiveTypeToken6 => 58,
            Php::CastTypeToken1 => 59,
            Php::CastTypeToken2 => 60,
            Php::CastTypeToken3 => 61,
            Php::CastTypeToken4 => 62,
            Php::CastTypeToken5 => 63,
            Php::CastTypeToken6 => 64,
            Php::CastTypeToken7 => 65,
            Php::CastTypeToken8 => 66,
            Php::CastTypeToken9 => 67,
            Php::CastTypeToken10 => 68,
            Php::CastTypeToken11 => 69,
            Php::CastTypeToken12 => 70,
            Php::Echo => 71,
            Php::Exit => 72,
            Php::Unset => 73,
            Php::Declare => 74,
            Php::Enddeclare => 75,
            Php::Ticks => 76,
            Php::Encoding => 77,
            Php::StrictTypes => 78,
            Php::Float => 79,
            Php::Try => 80,
            Php::Catch => 81,
            Php::Finally => 82,
            Php::Goto => 83,
            Php::Continue => 84,
            Php::Break => 85,
            Php::Integer => 86,
            Php::Return => 87,
            Php::Throw => 88,
            Php::While => 89,
            Php::Endwhile => 90,
            Php::Do => 91,
            Php::For => 92,
            Php::Endfor => 93,
            Php::Foreach => 94,
            Php::Endforeach => 95,
            Php::If => 96,
            Php::Endif => 97,
            Php::Elseif => 98,
            Php::Else => 99,
            Php::Match => 100,
            Php::Default => 101,
            Php::Switch => 102,
            Php::Endswitch => 103,
            Php::PLUS => 104,
            Php::DASH => 105,
            Php::TILDE => 106,
            Php::BANG => 107,
            Php::AT => 108,
            Php::Clone => 109,
            Php::COLONCOLON => 110,
            Php::Print => 111,
            Php::New => 112,
            Php::DASHDASH => 113,
            Php::PLUSPLUS => 114,
            Php::STARSTAREQ => 115,
            Php::STAREQ => 116,
            Php::SLASHEQ => 117,
            Php::PERCENTEQ => 118,
            Php::PLUSEQ => 119,
            Php::DASHEQ => 120,
            Php::DOTEQ => 121,
            Php::LTLTEQ => 122,
            Php::GTGTEQ => 123,
            Php::AMPEQ => 124,
            Php::CARETEQ => 125,
            Php::PIPEEQ => 126,
            Php::QMARKQMARKEQ => 127,
            Php::DASHGT => 128,
            Php::QMARKDASHGT => 129,
            Php::List => 130,
            Php::LBRACK => 131,
            Php::RBRACK => 132,
            Php::SelfKw => 133,
            Php::Parent => 134,
            Php::ArgumentNameToken1 => 135,
            Php::ArgumentNameToken2 => 136,
            Php::POUNDLBRACK => 137,
            Php::EscapeSequence => 138,
            Php::StringContent => 139,
            Php::EncapsedStringToken1 => 140,
            Php::DQUOTE => 141,
            Php::StringToken1 => 142,
            Php::SQUOTE => 143,
            Php::EscapeSequence2 => 144,
            Php::StringContentToken1 => 145,
            Php::LTLTLT => 146,
            Php::DQUOTE2 => 147,
            Php::NewLine => 148,
            Php::SQUOTE2 => 149,
            Php::BQUOTE => 150,
            Php::DOLLAR => 151,
            Php::Yield => 152,
            Php::YieldFrom => 153,
            Php::Instanceof => 154,
            Php::QMARKQMARK => 155,
            Php::STARSTAR => 156,
            Php::And => 157,
            Php::Or => 158,
            Php::Xor => 159,
            Php::PIPEPIPE => 160,
            Php::AMPAMP => 161,
            Php::CARET => 162,
            Php::EQEQ => 163,
            Php::BANGEQ => 164,
            Php::LTGT => 165,
            Php::EQEQEQ => 166,
            Php::BANGEQEQ => 167,
            Php::LT => 168,
            Php::GT => 169,
            Php::LTEQ => 170,
            Php::GTEQ => 171,
            Php::LTEQGT => 172,
            Php::PIPEGT => 173,
            Php::DOT => 174,
            Php::LTLT => 175,
            Php::GTGT => 176,
            Php::STAR => 177,
            Php::SLASH => 178,
            Php::PERCENT => 179,
            Php::Include => 180,
            Php::IncludeOnce => 181,
            Php::Require => 182,
            Php::RequireOnce => 183,
            Php::Comment => 184,
            Php::AutomaticSemicolon => 185,
            Php::StringContent2 => 186,
            Php::StringContent3 => 187,
            Php::StringContent4 => 188,
            Php::StringContent5 => 189,
            Php::StringContent6 => 190,
            Php::StringContent7 => 191,
            Php::Eof => 192,
            Php::HeredocStart => 193,
            Php::HeredocEnd => 194,
            Php::NowdocString => 195,
            Php::SentinelError => 196,
            Php::Program => 197,
            Php::TextInterpolation => 198,
            Php::Text => 199,
            Php::Statement => 200,
            Php::EmptyStatement => 201,
            Php::ReferenceModifier => 202,
            Php::FunctionStaticDeclaration => 203,
            Php::StaticVariableDeclaration => 204,
            Php::GlobalDeclaration => 205,
            Php::NamespaceDefinition => 206,
            Php::NamespaceUseDeclaration => 207,
            Php::NamespaceUseClause => 208,
            Php::QualifiedName => 209,
            Php::RelativeName => 210,
            Php::Name2 => 211,
            Php::NamespaceName => 212,
            Php::NamespaceUseGroup2 => 213,
            Php::NamespaceUseGroup => 214,
            Php::TraitDeclaration => 215,
            Php::InterfaceDeclaration => 216,
            Php::BaseClause => 217,
            Php::EnumDeclaration => 218,
            Php::EnumDeclarationList => 219,
            Php::EnumMemberDeclaration => 220,
            Php::EnumCase => 221,
            Php::ClassDeclaration => 222,
            Php::DeclarationList => 223,
            Php::FinalModifier => 224,
            Php::AbstractModifier => 225,
            Php::ReadonlyModifier => 226,
            Php::ClassInterfaceClause => 227,
            Php::MemberDeclaration => 228,
            Php::ConstDeclaration => 229,
            Php::ConstDeclaration2 => 230,
            Php::PropertyDeclaration => 231,
            Php::Modifier => 232,
            Php::PropertyElement => 233,
            Php::PropertyHookList => 234,
            Php::PropertyHook => 235,
            Php::PropertyHookBody => 236,
            Php::MethodDeclaration => 237,
            Php::StaticModifier => 238,
            Php::UseDeclaration => 239,
            Php::UseList => 240,
            Php::UseInsteadOfClause => 241,
            Php::UseAsClause => 242,
            Php::VisibilityModifier => 243,
            Php::FunctionDefinition => 244,
            Php::AnonymousFunction => 245,
            Php::AnonymousFunctionUseClause => 246,
            Php::AnonymousFunctionHeader => 247,
            Php::ArrowFunctionHeader => 248,
            Php::ArrowFunction => 249,
            Php::FormalParameters => 250,
            Php::PropertyPromotionParameter => 251,
            Php::SimpleParameter => 252,
            Php::VariadicParameter => 253,
            Php::Type => 254,
            Php::Types => 255,
            Php::NamedType => 256,
            Php::OptionalType => 257,
            Php::UnionType => 258,
            Php::IntersectionType => 259,
            Php::DisjunctiveNormalFormType => 260,
            Php::PrimitiveType => 261,
            Php::CastType => 262,
            Php::ReturnType => 263,
            Php::ConstElement => 264,
            Php::ConstElement2 => 265,
            Php::EchoStatement => 266,
            Php::ExitStatement => 267,
            Php::UnsetStatement => 268,
            Php::DeclareStatement => 269,
            Php::DeclareDirective => 270,
            Php::Literal => 271,
            Php::TryStatement => 272,
            Php::CatchClause => 273,
            Php::TypeList => 274,
            Php::FinallyClause => 275,
            Php::GotoStatement => 276,
            Php::ContinueStatement => 277,
            Php::BreakStatement => 278,
            Php::ReturnStatement => 279,
            Php::ThrowExpression => 280,
            Php::WhileStatement => 281,
            Php::DoStatement => 282,
            Php::ForStatement => 283,
            Php::Expressions => 284,
            Php::SequenceExpression => 285,
            Php::ForeachStatement => 286,
            Php::Pair => 287,
            Php::ForeachValue => 288,
            Php::IfStatement => 289,
            Php::ColonBlock => 290,
            Php::ElseIfClause => 291,
            Php::ElseClause => 292,
            Php::ElseIfClause2 => 293,
            Php::ElseClause2 => 294,
            Php::MatchExpression => 295,
            Php::MatchBlock => 296,
            Php::MatchConditionList => 297,
            Php::MatchConditionalExpression => 298,
            Php::MatchDefaultExpression => 299,
            Php::SwitchStatement => 300,
            Php::SwitchBlock => 301,
            Php::CaseStatement => 302,
            Php::DefaultStatement => 303,
            Php::CompoundStatement => 304,
            Php::NamedLabelStatement => 305,
            Php::ExpressionStatement => 306,
            Php::Expression => 307,
            Php::UnaryExpression => 308,
            Php::UnaryOpExpression => 309,
            Php::ErrorSuppressionExpression => 310,
            Php::CloneExpression => 311,
            Php::PrimaryExpression => 312,
            Php::ParenthesizedExpression => 313,
            Php::ClassConstantAccessExpression => 314,
            Php::PrintIntrinsic => 315,
            Php::ObjectCreationExpression => 316,
            Php::NewNonDereferencableExpression => 317,
            Php::NewDereferencableExpression => 318,
            Php::ClassNameReference => 319,
            Php::AnonymousClass => 320,
            Php::UpdateExpression => 321,
            Php::CastExpression => 322,
            Php::CastExpression2 => 323,
            Php::AssignmentExpression => 324,
            Php::ReferenceAssignmentExpression => 325,
            Php::ConditionalExpression => 326,
            Php::AugmentedAssignmentExpression => 327,
            Php::MemberAccessExpression => 328,
            Php::MemberAccessExpression2 => 329,
            Php::NullsafeMemberAccessExpression => 330,
            Php::NullsafeMemberAccessExpression2 => 331,
            Php::ScopedPropertyAccessExpression => 332,
            Php::ScopedPropertyAccessExpression2 => 333,
            Php::ListLiteral => 334,
            Php::ListDestructing => 335,
            Php::ArrayDestructing => 336,
            Php::ArrayDestructingElement => 337,
            Php::FunctionCallExpression => 338,
            Php::CallableExpression => 339,
            Php::ScopedCallExpression => 340,
            Php::ScopeResolutionQualifier => 341,
            Php::RelativeScope => 342,
            Php::VariadicPlaceholder => 343,
            Php::ArgumentPlaceholder => 344,
            Php::Arguments => 345,
            Php::Argument => 346,
            Php::ArgumentName => 347,
            Php::MemberCallExpression => 348,
            Php::NullsafeMemberCallExpression => 349,
            Php::VariadicUnpacking => 350,
            Php::MemberName => 351,
            Php::SubscriptExpression => 352,
            Php::SubscriptExpression2 => 353,
            Php::DereferencableExpression => 354,
            Php::DereferencableScalar => 355,
            Php::ArrayCreationExpression => 356,
            Php::AttributeGroup => 357,
            Php::AttributeList => 358,
            Php::Attribute => 359,
            Php::ComplexStringPart => 360,
            Php::MemberAccessExpression3 => 361,
            Php::UnaryOpExpression2 => 362,
            Php::SimpleStringArrayAccessArgument => 363,
            Php::SubscriptExpression3 => 364,
            Php::SimpleStringPart => 365,
            Php::InterpolatedStringBody => 366,
            Php::InterpolatedStringBodyHeredoc => 367,
            Php::EncapsedString => 368,
            Php::String => 369,
            Php::StringContent8 => 370,
            Php::HeredocBody => 371,
            Php::Heredoc => 372,
            Php::NowdocBody => 373,
            Php::Nowdoc => 374,
            Php::InterpolatedExecutionOperatorBody => 375,
            Php::ShellCommandExpression => 376,
            Php::Boolean => 377,
            Php::Null => 378,
            Php::String3 => 379,
            Php::DynamicVariableName => 380,
            Php::SimpleVariable => 381,
            Php::NewVariable => 382,
            Php::CallableVariable => 383,
            Php::VariableName => 384,
            Php::ByRef => 385,
            Php::YieldExpression => 386,
            Php::ArrayElementInitializer => 387,
            Php::BinaryExpression => 388,
            Php::IncludeExpression => 389,
            Php::IncludeOnceExpression => 390,
            Php::RequireExpression => 391,
            Php::RequireOnceExpression => 392,
            Php::Semicolon => 393,
            Php::ProgramRepeat1 => 394,
            Php::TextRepeat1 => 395,
            Php::FunctionStaticDeclarationRepeat1 => 396,
            Php::GlobalDeclarationRepeat1 => 397,
            Php::NamespaceUseDeclarationRepeat1 => 398,
            Php::NamespaceNameRepeat1 => 399,
            Php::BaseClauseRepeat1 => 400,
            Php::EnumDeclarationListRepeat1 => 401,
            Php::ClassDeclarationRepeat1 => 402,
            Php::DeclarationListRepeat1 => 403,
            Php::ConstDeclarationRepeat1 => 404,
            Php::ClassConstDeclarationRepeat1 => 405,
            Php::PropertyDeclarationRepeat1 => 406,
            Php::PropertyHookListRepeat1 => 407,
            Php::UseListRepeat1 => 408,
            Php::AnonymousFunctionUseClauseRepeat1 => 409,
            Php::FormalParametersRepeat1 => 410,
            Php::PropertyPromotionParameterRepeat1 => 411,
            Php::UnionTypeRepeat1 => 412,
            Php::IntersectionTypeRepeat1 => 413,
            Php::DisjunctiveNormalFormTypeRepeat1 => 414,
            Php::UnsetStatementRepeat1 => 415,
            Php::TryStatementRepeat1 => 416,
            Php::TypeListRepeat1 => 417,
            Php::IfStatementRepeat1 => 418,
            Php::IfStatementRepeat2 => 419,
            Php::MatchBlockRepeat1 => 420,
            Php::MatchConditionListRepeat1 => 421,
            Php::SwitchBlockRepeat1 => 422,
            Php::ListDestructingRepeat1 => 423,
            Php::ArrayDestructingRepeat1 => 424,
            Php::ArgumentsRepeat1 => 425,
            Php::ArrayCreationExpressionRepeat1 => 426,
            Php::AttributeGroupRepeat1 => 427,
            Php::AttributeListRepeat1 => 428,
            Php::StringRepeat1 => 429,
            Php::StringContentRepeat1 => 430,
            Php::HeredocBodyRepeat1 => 431,
            Php::NowdocBodyRepeat1 => 432,
            Php::Operation => 433,
            Php::Error => 434,
        }
    }

    /// The kind that a numeric id stands for: ids past the table give `Error`.
    pub open spec fn spec_from_id(x: u16) -> Php {
        match x {
            0 => Php::End,
            1 => Php::Name,
            2 => Php::PhpTag,
            3 => Php::PhpEndTag,
            4 => Php::TextToken1,
            5 => Php::TextToken2,
            6 => Php::SEMI,
            7 => Php::AMP,
            8 => Php::Static,
            9 => Php::COMMA,
            10 => Php::EQ,
            11 => Php::Global,
            12 => Php::Namespace,
            13 => Php::Use,
            14 => Php::As,
            15 => Php::Function,
            16 => Php::Const,
            17 => Php::BSLASH,
            18 => Php::LBRACE,
            19 => Php::RBRACE,
            20 => Php::Trait,
            21 => Php::Interface,
            22 => Php::Extends,
            23 => Php::Enum,
            24 => Php::COLON,
            25 => Php::String2,
            26 => Php::IntKw,
            27 => Php::Case,
            28 => Php::Class,
            29 => Php::FinalKw,
            30 => Php::Abstract,
            31 => Php::Readonly,
            32 => Php::Implements,
            33 => Php::EQGT,
            34 => Php::VarModifier,
            35 => Php::Insteadof,
            36 => Php::Public,
            37 => Php::Protected,
            38 => Php::Private,
            39 => Php::LPAREN,
            40 => Php::RPAREN,
            41 => Php::LPAREN2,
            42 => Php::RPAREN2,
            43 => Php::Fn,
            44 => Php::DOTDOTDOT,
            45 => Php::QMARK,
            46 => Php::BottomType,
            47 => Php::PIPE,
            48 => Php::Array,
            49 => Php::Bool,
            50 => Php::PrimitiveTypeToken1,
            51 => Php::PrimitiveTypeToken2,
            52 => Php::Float2,
            53 => Php::PrimitiveTypeToken3,
            54 => Php::PrimitiveTypeToken4,
            55 => Php::Null2,
            56 => Php::Object,
            57 => Php::PrimitiveTypeToken5,
            58 => Php::PrimitiveTypeToken6,
            59 => Php::CastTypeToken1,
            60 => Php::CastTypeToken2,
            61 => Php::CastTypeToken3,
            62 => Php::CastTypeToken4,
            63 => Php::CastTypeToken5,
            64 => Php::CastTypeToken6,
            65 => Php::CastTypeToken7,
            66 => Php::CastTypeToken8,
            67 => Php::CastTypeToken9,
            68 => Php::CastTypeToken10,
            69 => Php::CastTypeToken11,
            70 => Php::CastTypeToken12,
            71 => Php::Echo,
            72 => Php::Exit,
            73 => Php::Unset,
            74 => Php::Declare,
            75 => Php::Enddeclare,
            76 => Php::Ticks,
            77 => Php::Encoding,
            78 => Php::StrictTypes,
            79 => Php::Float,
            80 => Php::Try,
            81 => Php::Catch,
            82 => Php::Finally,
            83 => Php::Goto,
            84 => Php::Continue,
            85 => Php::Break,
            86 => Php::Integer,
            87 => Php::Return,
            88 => Php::Throw,
            89 => Php::While,
            90 => Php::Endwhile,
            91 => Php::Do,
            92 => Php::For,
            93 => Php::Endfor,
            94 => Php::Foreach,
            95 => Php::Endforeach,
            96 => Php::If,
            97 => Php::Endif,
            98 => Php::Elseif,
            99 => Php::Else,
            100 => Php::Match,
            101 => Php::Default,
            102 => Php::Switch,
            103 => Php::Endswitch,
            104 => Php::PLUS,
            105 => Php::DASH,
            106 => Php::TILDE,
            107 => Php::BANG,
            108 => Php::AT,
            109 => Php::Clone,
            110 => Php::COLONCOLON,
            111 => Php::Print,
            112 => Php::New,
            113 => Php::DASHDASH,
            114 => Php::PLUSPLUS,
            115 => Php::STARSTAREQ,
            116 => Php::STAREQ,
            117 => Php::SLASHEQ,
            118 => Php::PERCENTEQ,
            119 => Php::PLUSEQ,
            120 => Php::DASHEQ,
            121 => Php::DOTEQ,
            122 => Php::LTLTEQ,
            123 => Php::GTGTEQ,
            124 => Php::AMPEQ,
            125 => Php::CARETEQ,
            126 => Php::PIPEEQ,
            127 => Php::QMARKQMARKEQ,
            128 => Php::DASHGT,
            129 => Php::QMARKDASHGT,
            130 => Php::List,
            131 => Php::LBRACK,
            132 => Php::RBRACK,
            133 => Php::SelfKw,
            134 => Php::Parent,
            135 => Php::ArgumentNameToken1,
            136 => Php::ArgumentNameToken2,
            137 => Php::POUNDLBRACK,
            138 => Php::EscapeSequence,
            139 => Php::StringContent,
            140 => Php::EncapsedStringToken1,
            141 => Php::DQUOTE,
            142 => Php::StringToken1,
            143 => Php::SQUOTE,
            144 => Php::EscapeSequence2,
            145 => Php::StringContentToken1,
            146 => Php::LTLTLT,
            147 => Php::DQUOTE2,
            148 => Php::NewLine,
            149 => Php::SQUOTE2,
            150 => Php::BQUOTE,
            151 => Php::DOLLAR,
            152 => Php::Yield,
            153 => Php::YieldFrom,
            154 => Php::Instanceof,
            155 => Php::QMARKQMARK,
            156 => Php::STARSTAR,
            157 => Php::And,
            158 => Php::Or,
            159 => Php::Xor,
            160 => Php::PIPEPIPE,
            161 => Php::AMPAMP,
            162 => Php::CARET,
            163 => Php::EQEQ,
            164 => Php::BANGEQ,
            165 => Php::LTGT,
            166 => Php::EQEQEQ,
            167 => Php::BANGEQEQ,
            168 => Php::LT,
            169 => Php::GT,
            170 => Php::LTEQ,
            171 => Php::GTEQ,
            172 => Php::LTEQGT,
            173 => Php::PIPEGT,
            174 => Php::DOT,
            175 => Php::LTLT,
            176 => Php::GTGT,
            177 => Php::STAR,
            178 => Php::SLASH,
            179 => Php::PERCENT,
            180 => Php::Include,
            181 => Php::IncludeOnce,
            182 => Php::Require,
            183 => Php::RequireOnce,
            184 => Php::Comment,
            185 => Php::AutomaticSemicolon,
            186 => Php::StringContent2,
            187 => Php::StringContent3,
            188 => Php::StringContent4,
            189 => Php::StringContent5,
            190 => Php::StringContent6,
            191 => Php::StringContent7,
            192 => Php::Eof,
            193 => Php::HeredocStart,
            194 => Php::HeredocEnd,
            195 => Php::NowdocString,
            196 => Php::SentinelError,
            197 => Php::Program,
            198 => Php::TextInterpolation,
            199 => Php::Text,
            200 => Php::Statement,
            201 => Php::EmptyStatement,
            202 => Php::ReferenceModifier,
            203 => Php::FunctionStaticDeclaration,
            204 => Php::StaticVariableDeclaration,
            205 => Php::GlobalDeclaration,
            206 => Php::NamespaceDefinition,
            207 => Php::NamespaceUseDeclaration,
            208 => Php::NamespaceUseClause,
            209 => Php::QualifiedName,
            210 => Php::RelativeName,
            211 => Php::Name2,
            212 => Php::NamespaceName,
            213 => Php::NamespaceUseGroup2,
            214 => Php::NamespaceUseGroup,
            215 => Php::TraitDeclaration,
            216 => Php::InterfaceDeclaration,
            217 => Php::BaseClause,
            218 => Php::EnumDeclaration,
            219 => Php::EnumDeclarationList,
            220 => Php::EnumMemberDeclaration,
            221 => Php::EnumCase,
            222 => Php::ClassDeclaration,
            223 => Php::DeclarationList,
            224 => Php::FinalModifier,
            225 => Php::AbstractModifier,
            226 => Php::ReadonlyModifier,
            227 => Php::ClassInterfaceClause,
            228 => Php::MemberDeclaration,
            229 => Php::ConstDeclaration,
            230 => Php::ConstDeclaration2,
            231 => Php::PropertyDeclaration,
            232 => Php::Modifier,
            233 => Php::PropertyElement,
            234 => Php::PropertyHookList,
            235 => Php::PropertyHook,
            236 => Php::PropertyHookBody,
            237 => Php::MethodDeclaration,
            238 => Php::StaticModifier,
            239 => Php::UseDeclaration,
            240 => Php::UseList,
            241 => Php::UseInsteadOfClause,
            242 => Php::UseAsClause,
            243 => Php::VisibilityModifier,
            244 => Php::FunctionDefinition,
            245 => Php::AnonymousFunction,
            246 => Php::AnonymousFunctionUseClause,
            247 => Php::AnonymousFunctionHeader,
            248 => Php::ArrowFunctionHeader,
            249 => Php::ArrowFunction,
            250 => Php::FormalParameters,
            251 => Php::PropertyPromotionParameter,
            252 => Php::SimpleParameter,
            253 => Php::VariadicParameter,
            254 => Php::Type,
            255 => Php::Types,
            256 => Php::NamedType,
            257 => Php::OptionalType,
            258 => Php::UnionType,
            259 => Php::IntersectionType,
            260 => Php::DisjunctiveNormalFormType,
            261 => Php::PrimitiveType,
            262 => Php::CastType,
            263 => Php::ReturnType,
            264 => Php::ConstElement,
            265 => Php::ConstElement2,
            266 => Php::EchoStatement,
            267 => Php::ExitStatement,
            268 => Php::UnsetStatement,
            269 => Php::DeclareStatement,
            270 => Php::DeclareDirective,
            271 => Php::Literal,
            272 => Php::TryStatement,
            273 => Php::CatchClause,
            274 => Php::TypeList,
            275 => Php::FinallyClause,
            276 => Php::GotoStatement,
            277 => Php::ContinueStatement,
            278 => Php::BreakStatement,
            279 => Php::ReturnStatement,
            280 => Php::ThrowExpression,
            281 => Php::WhileStatement,
            282 => Php::DoStatement,
            283 => Php::ForStatement,
            284 => Php::Expressions,
            285 => Php::SequenceExpression,
            286 => Php::ForeachStatement,
            287 => Php::Pair,
            288 => Php::ForeachValue,
            289 => Php::IfStatement,
            290 => Php::ColonBlock,
            291 => Php::ElseIfClause,
            292 => Php::ElseClause,
            293 => Php::ElseIfClause2,
            294 => Php::ElseClause2,
            295 => Php::MatchExpression,
            296 => Php::MatchBlock,
            297 => Php::MatchConditionList,
            298 => Php::MatchConditionalExpression,
            299 => Php::MatchDefaultExpression,
            300 => Php::SwitchStatement,
            301 => Php::SwitchBlock,
            302 => Php::CaseStatement,
            303 => Php::DefaultStatement,
            304 => Php::CompoundStatement,
            305 => Php::NamedLabelStatement,
            306 => Php::ExpressionStatement,
            307 => Php::Expression,
            308 => Php::UnaryExpression,
            309 => Php::UnaryOpExpression,
            310 => Php::ErrorSuppressionExpression,
            311 => Php::CloneExpression,
            312 => Php::PrimaryExpression,
            313 => Php::ParenthesizedExpression,
            314 => Php::ClassConstantAccessExpression,
            315 => Php::PrintIntrinsic,
            316 => Php::ObjectCreationExpression,
            317 => Php::NewNonDereferencableExpression,
            318 => Php::NewDereferencableExpression,
            319 => Php::ClassNameReference,
            320 => Php::AnonymousClass,
            321 => Php::UpdateExpression,
            322 => Php::CastExpression,
            323 => Php::CastExpression2,
            324 => Php::AssignmentExpression,
            325 => Php::ReferenceAssignmentExpression,
            326 => Php::ConditionalExpression,
            327 => Php::AugmentedAssignmentExpression,
            328 => Php::MemberAccessExpression,
            329 => Php::MemberAccessExpression2,
            330 => Php::NullsafeMemberAccessExpression,
            331 => Php::NullsafeMemberAccessExpression2,
            332 => Php::ScopedPropertyAccessExpression,
            333 => Php::ScopedPropertyAccessExpression2,
            334 => Php::ListLiteral,
            335 => Php::ListDestructing,
            336 => Php::ArrayDestructing,
            337 => Php::ArrayDestructingElement,
            338 => Php::FunctionCallExpression,
            339 => Php::CallableExpression,
            340 => Php::ScopedCallExpression,
            341 => Php::ScopeResolutionQualifier,
            342 => Php::RelativeScope,
            343 => Php::VariadicPlaceholder,
            344 => Php::ArgumentPlaceholder,
            345 => Php::Arguments,
            346 => Php::Argument,
            347 => Php::ArgumentName,
            348 => Php::MemberCallExpression,
            349 => Php::NullsafeMemberCallExpression,
            350 => Php::VariadicUnpacking,
            351 => Php::MemberName,
            352 => Php::SubscriptExpression,
            353 => Php::SubscriptExpression2,
            354 => Php::DereferencableExpression,
            355 => Php::DereferencableScalar,
            356 => Php::ArrayCreationExpression,
            357 => Php::AttributeGroup,
            358 => Php::AttributeList,
            359 => Php::Attribute,
            360 => Php::ComplexStringPart,
            361 => Php::MemberAccessExpression3,
            362 => Php::UnaryOpExpression2,
            363 => Php::SimpleStringArrayAccessArgument,
            364 => Php::SubscriptExpression3,
            365 => Php::SimpleStringPart,
            366 => Php::InterpolatedStringBody,
            367 => Php::InterpolatedStringBodyHeredoc,
            368 => Php::EncapsedString,
            369 => Php::String,
            370 => Php::StringContent8,
            371 => Php::HeredocBody,
            372 => Php::Heredoc,
            373 => Php::NowdocBody,
            374 => Php::Nowdoc,
            375 => Php::InterpolatedExecutionOperatorBody,
            376 => Php::ShellCommandExpression,
            377 => Php::Boolean,
            378 => Php::Null,
            379 => Php::String3,
            380 => Php::DynamicVariableName,
            381 => Php::SimpleVariable,
            382 => Php::NewVariable,
            383 => Php::CallableVariable,
            384 => Php::VariableName,
            385 => Php::ByRef,
            386 => Php::YieldExpression,
            387 => Php::ArrayElementInitializer,
            388 => Php::BinaryExpression,
            389 => Php::IncludeExpression,
            390 => Php::IncludeOnceExpression,
            391 => Php::RequireExpression,
            392 => Php::RequireOnceExpression,
            393 => Php::Semicolon,
            394 => Php::ProgramRepeat1,
            395 => Php::TextRepeat1,
            396 => Php::FunctionStaticDeclarationRepeat1,
            397 => Php::GlobalDeclarationRepeat1,
            398 => Php::NamespaceUseDeclarationRepeat1,
            399 => Php::NamespaceNameRepeat1,
            400 => Php::BaseClauseRepeat1,
            401 => Php::EnumDeclarationListRepeat1,
            402 => Php::ClassDeclarationRepeat1,
            403 => Php::DeclarationListRepeat1,
            404 => Php::ConstDeclarationRepeat1,
            405 => Php::ClassConstDeclarationRepeat1,
            406 => Php::PropertyDeclarationRepeat1,
            407 => Php::PropertyHookListRepeat1,
            408 => Php::UseListRepeat1,
            409 => Php::AnonymousFunctionUseClauseRepeat1,
            410 => Php::FormalParametersRepeat1,
            411 => Php::PropertyPromotionParameterRepeat1,
            412 => Php::UnionTypeRepeat1,
            413 => Php::IntersectionTypeRepeat1,
            414 => Php::DisjunctiveNormalFormTypeRepeat1,
            415 => Php::UnsetStatementRepeat1,
            416 => Php::TryStatementRepeat1,
            417 => Php::TypeListRepeat1,
            418 => Php::IfStatementRepeat1,
            419 => Php::IfStatementRepeat2,
            420 => Php::MatchBlockRepeat1,
            421 => Php::MatchConditionListRepeat1,
            422 => Php::SwitchBlockRepeat1,
            423 => Php::ListDestructingRepeat1,
            424 => Php::ArrayDestructingRepeat1,
            425 => Php::ArgumentsRepeat1,
            426 => Php::ArrayCreationExpressionRepeat1,
            427 => Php::AttributeGroupRepeat1,
            428 => Php::AttributeListRepeat1,
            429 => Php::StringRepeat1,
            430 => Php::StringContentRepeat1,
            431 => Php::HeredocBodyRepeat1,
            432 => Php::NowdocBodyRepeat1,
            433 => Php::Operation,
            _ => Php::Error,
        }
    }

    /// The display string of this kind.
    pub open spec fn text(self) -> Seq<char> {
        match self {
            Php::End => "end"@,
            Php::Name => "name"@,
            Php::PhpTag => "php_tag"@,
            Php::PhpEndTag => "php_end_tag"@,
            Php::TextToken1 => "text_token1"@,
            Php::TextToken2 => "text_token2"@,
            Php::SEMI => ";"@,
            Php::AMP => "&"@,
            Php::Static => "static"@,
            Php::COMMA => ","@,
            Php::EQ => "="@,
            Php::Global => "global"@,
            Php::Namespace => "namespace"@,
            Php::Use => "use"@,
            Php::As => "as"@,
            Php::Function => "function"@,
            Php::Const => "const"@,
            Php::BSLASH => "\\"@,
            Php::LBRACE => "{"@,
            Php::RBRACE => "}"@,
            Php::Trait => "trait"@,
            Php::Interface => "interface"@,
            Php::Extends => "extends"@,
            Php::Enum => "enum"@,
            Php::COLON => ":"@,
            Php::String2 => "string"@,
            Php::IntKw => "int"@,
            Php::Case => "case"@,
            Php::Class => "class"@,
            Php::FinalKw => "final"@,
            Php::Abstract => "abstract"@,
            Php::Readonly => "readonly"@,
            Php::Implements => "implements"@,
            Php::EQGT => "=>"@,
            Php::VarModifier => "var_modifier"@,
            Php::Insteadof => "insteadof"@,
            Php::Public => "public"@,
            Php::Protected => "protected"@,
            Php::Private => "private"@,
            Php::LPAREN => "("@,
            Php::RPAREN => ")"@,
            Php::LPAREN2 => "("@,
            Php::RPAREN2 => ")"@,
            Php::Fn => "fn"@,
            Php::DOTDOTDOT => "..."@,
            Php::QMARK => "?"@,
            Php::BottomType => "bottom_type"@,
            Php::PIPE => "|"@,
            Php::Array => "array"@,
            Php::Bool => "bool"@,
            Php::PrimitiveTypeToken1 => "primitive_type_token1"@,
            Php::PrimitiveTypeToken2 => "primitive_type_token2"@,
            Php::Float2 => "float"@,
            Php::PrimitiveTypeToken3 => "primitive_type_token3"@,
            Php::PrimitiveTypeToken4 => "primitive_type_token4"@,
            Php::Null2 => "null"@,
            Php::Object => "object"@,
            Php::PrimitiveTypeToken5 => "primitive_type_token5"@,
            Php::PrimitiveTypeToken6 => "primitive_type_token6"@,
            Php::CastTypeToken1 => "cast_type_token1"@,
            Php::CastTypeToken2 => "cast_type_token2"@,
            Php::CastTypeToken3 => "cast_type_token3"@,
            Php::CastTypeToken4 => "cast_type_token4"@,
            Php::CastTypeToken5 => "cast_type_token5"@,
            Php::CastTypeToken6 => "cast_type_token6"@,
            Php::CastTypeToken7 => "cast_type_token7"@,
            Php::CastTypeToken8 => "cast_type_token8"@,
            Php::CastTypeToken9 => "cast_type_token9"@,
            Php::CastTypeToken10 => "cast_type_token10"@,
            Php::CastTypeToken11 => "cast_type_token11"@,
            Php::CastTypeToken12 => "cast_type_token12"@,
            Php::Echo => "echo"@,
            Php::Exit => "exit"@,
            Php::Unset => "unset"@,
            Php::Declare => "declare"@,
            Php::Enddeclare => "enddeclare"@,
            Php::Ticks => "ticks"@,
            Php::Encoding => "encoding"@,
            Php::StrictTypes => "strict_types"@,
            Php::Float => "float"@,
            Php::Try => "try"@,
            Php::Catch => "catch"@,
            Php::Finally => "finally"@,
            Php::Goto => "goto"@,
            Php::Continue => "continue"@,
            Php::Break => "break"@,
            Php::Integer => "integer"@,
            Php::Return => "return"@,
            Php::Throw => "throw"@,
            Php::While => "while"@,
            Php::Endwhile => "endwhile"@,
            Php::Do => "do"@,
            Php::For => "for"@,
            Php::Endfor => "endfor"@,
            Php::Foreach => "foreach"@,
            Php::Endforeach => "endforeach"@,
            Php::If => "if"@,
            Php::Endif => "endif"@,
            Php::Elseif => "elseif"@,
            Php::Else => "else"@,
            Php::Match => "match"@,
            Php::Default => "default"@,
            Php::Switch => "switch"@,
            Php::Endswitch => "endswitch"@,
            Php::PLUS => "+"@,
            Php::DASH => "-"@,
            Php::TILDE => "~"@,
            Php::BANG => "!"@,
            Php::AT => "@"@,
            Php::Clone => "clone"@,
            Php::COLONCOLON => "::"@,
            Php::Print => "print"@,
            Php::New => "new"@,
            Php::DASHDASH => "--"@,
            Php::PLUSPLUS => "++"@,
            Php::STARSTAREQ => "**="@,
            Php::STAREQ => "*="@,
            Php::SLASHEQ => "/="@,
            Php::PERCENTEQ => "%="@,
            Php::PLUSEQ => "+="@,
            Php::DASHEQ => "-="@,
            Php::DOTEQ => ".="@,
            Php::LTLTEQ => "<<="@,
            Php::GTGTEQ => ">>="@,
            Php::AMPEQ => "&="@,
            Php::CARETEQ => "^="@,
            Php::PIPEEQ => "|="@,
            Php::QMARKQMARKEQ => "??="@,
            Php::DASHGT => "->"@,
            Php::QMARKDASHGT => "?->"@,
            Php::List => "list"@,
            Php::LBRACK => "["@,
            Php::RBRACK => "]"@,
            Php::SelfKw => "self"@,
            Php::Parent => "parent"@,
            Php::ArgumentNameToken1 => "_argument_name_token1"@,
            Php::ArgumentNameToken2 => "_argument_name_token2"@,
            Php::POUNDLBRACK => "#["@,
            Php::EscapeSequence => "escape_sequence"@,
            Php::StringContent => "string_content"@,
            Php::EncapsedStringToken1 => "encapsed_string_token1"@,
            Php::DQUOTE => "\""@,
            Php::StringToken1 => "string_token1"@,
            Php::SQUOTE => "'"@,
            Php::EscapeSequence2 => "escape_sequence"@,
            Php::StringContentToken1 => "string_content_token1"@,
            Php::LTLTLT => "<<<"@,
            Php::DQUOTE2 => "\""@,
            Php::NewLine => "_new_line"@,
            Php::SQUOTE2 => "'"@,
            Php::BQUOTE => "`"@,
            Php::DOLLAR => "$"@,
            Php::Yield => "yield"@,
            Php::YieldFrom => "yield from"@,
            Php::Instanceof => "instanceof"@,
            Php::QMARKQMARK => "??"@,
            Php::STARSTAR => "**"@,
            Php::And => "and"@,
            Php::Or => "or"@,
            Php::Xor => "xor"@,
            Php::PIPEPIPE => "||"@,
            Php::AMPAMP => "&&"@,
            Php::CARET => "^"@,
            Php::EQEQ => "=="@,
            Php::BANGEQ => "!="@,
            Php::LTGT => "<>"@,
            Php::EQEQEQ => "==="@,
            Php::BANGEQEQ => "!=="@,
            Php::LT => "<"@,
            Php::GT => ">"@,
            Php::LTEQ => "<="@,
            Php::GTEQ => ">="@,
            Php::LTEQGT => "<=>"@,
            Php::PIPEGT => "|>"@,
            Php::DOT => "."@,
            Php::LTLT => "<<"@,
            Php::GTGT => ">>"@,
            Php::STAR => "*"@,
            Php::SLASH => "/"@,
            Php::PERCENT => "%"@,
            Php::Include => "include"@,
            Php::IncludeOnce => "include_once"@,
            Php::Require => "require"@,
            Php::RequireOnce => "require_once"@,
            Php::Comment => "comment"@,
            Php::AutomaticSemicolon => "_automatic_semicolon"@,
            Php::StringContent2 => "string_content"@,
            Php::StringContent3 => "string_content"@,
            Php::StringContent4 => "string_content"@,
            Php::StringContent5 => "string_content"@,
            Php::StringContent6 => "string_content"@,
            Php::StringContent7 => "string_content"@,
            Php::Eof => "_eof"@,
            Php::HeredocStart => "heredoc_start"@,
            Php::HeredocEnd => "heredoc_end"@,
            Php::NowdocString => "nowdoc_string"@,
            Php::SentinelError => "sentinel_error"@,
            Php::Program => "program"@,
            Php::TextInterpolation => "text_interpolation"@,
            Php::Text => "text"@,
            Php::Statement => "statement"@,
            Php::EmptyStatement => "empty_statement"@,
            Php::ReferenceModifier => "reference_modifier"@,
            Php::FunctionStaticDeclaration => "function_static_declaration"@,
            Php::StaticVariableDeclaration => "static_variable_declaration"@,
            Php::GlobalDeclaration => "global_declaration"@,
            Php::NamespaceDefinition => "namespace_definition"@,
            Php::NamespaceUseDeclaration => "namespace_use_declaration"@,
            Php::NamespaceUseClause => "namespace_use_clause"@,
            Php::QualifiedName => "qualified_name"@,
            Php::RelativeName => "relative_name"@,
            Php::Name2 => "_name"@,
            Php::NamespaceName => "namespace_name"@,
            Php::NamespaceUseGroup2 => "_namespace_use_group"@,
            Php::NamespaceUseGroup => "namespace_use_group"@,
            Php::TraitDeclaration => "trait_declaration"@,
            Php::InterfaceDeclaration => "interface_declaration"@,
            Php::BaseClause => "base_clause"@,
            Php::EnumDeclaration => "enum_declaration"@,
            Php::EnumDeclarationList => "enum_declaration_list"@,
            Php::EnumMemberDeclaration => "_enum_member_declaration"@,
            Php::EnumCase => "enum_case"@,
            Php::ClassDeclaration => "class_declaration"@,
            Php::DeclarationList => "declaration_list"@,
            Php::FinalModifier => "final_modifier"@,
            Php::AbstractModifier => "abstract_modifier"@,
            Php::ReadonlyModifier => "readonly_modifier"@,
            Php::ClassInterfaceClause => "class_interface_clause"@,
            Php::MemberDeclaration => "_member_declaration"@,
            Php::ConstDeclaration => "const_declaration"@,
            Php::ConstDeclaration2 => "const_declaration"@,
            Php::PropertyDeclaration => "property_declaration"@,
            Php::Modifier => "_modifier"@,
            Php::PropertyElement => "property_element"@,
            Php::PropertyHookList => "property_hook_list"@,
            Php::PropertyHook => "property_hook"@,
            Php::PropertyHookBody => "_property_hook_body"@,
            Php::MethodDeclaration => "method_declaration"@,
            Php::StaticModifier => "static_modifier"@,
            Php::UseDeclaration => "use_declaration"@,
            Php::UseList => "use_list"@,
            Php::UseInsteadOfClause => "use_instead_of_clause"@,
            Php::UseAsClause => "use_as_clause"@,
            Php::VisibilityModifier => "visibility_modifier"@,
            Php::FunctionDefinition => "function_definition"@,
            Php::AnonymousFunction => "anonymous_function"@,
            Php::AnonymousFunctionUseClause => "anonymous_function_use_clause"@,
            Php::AnonymousFunctionHeader => "_anonymous_function_header"@,
            Php::ArrowFunctionHeader => "_arrow_function_header"@,
            Php::ArrowFunction => "arrow_function"@,
            Php::FormalParameters => "formal_parameters"@,
            Php::PropertyPromotionParameter => "property_promotion_parameter"@,
            Php::SimpleParameter => "simple_parameter"@,
            Php::VariadicParameter => "variadic_parameter"@,
            Php::Type => "type"@,
            Php::Types => "_types"@,
            Php::NamedType => "named_type"@,
            Php::OptionalType => "optional_type"@,
            Php::UnionType => "union_type"@,
            Php::IntersectionType => "intersection_type"@,
            Php::DisjunctiveNormalFormType => "disjunctive_normal_form_type"@,
            Php::PrimitiveType => "primitive_type"@,
            Php::CastType => "cast_type"@,
            Php::ReturnType => "_return_type"@,
            Php::ConstElement => "const_element"@,
            Php::ConstElement2 => "const_element"@,
            Php::EchoStatement => "echo_statement"@,
            Php::ExitStatement => "exit_statement"@,
            Php::UnsetStatement => "unset_statement"@,
            Php::DeclareStatement => "declare_statement"@,
            Php::DeclareDirective => "declare_directive"@,
            Php::Literal => "literal"@,
            Php::TryStatement => "try_statement"@,
            Php::CatchClause => "catch_clause"@,
            Php::TypeList => "type_list"@,
            Php::FinallyClause => "finally_clause"@,
            Php::GotoStatement => "goto_statement"@,
            Php::ContinueStatement => "continue_statement"@,
            Php::BreakStatement => "break_statement"@,
            Php::ReturnStatement => "return_statement"@,
            Php::ThrowExpression => "throw_expression"@,
            Php::WhileStatement => "while_statement"@,
            Php::DoStatement => "do_statement"@,
            Php::ForStatement => "for_statement"@,
            Php::Expressions => "_expressions"@,
            Php::SequenceExpression => "sequence_expression"@,
            Php::ForeachStatement => "foreach_statement"@,
            Php::Pair => "pair"@,
            Php::ForeachValue => "_foreach_value"@,
            Php::IfStatement => "if_statement"@,
            Php::ColonBlock => "colon_block"@,
            Php::ElseIfClause => "else_if_clause"@,
            Php::ElseClause => "else_clause"@,
            Php::ElseIfClause2 => "else_if_clause"@,
            Php::ElseClause2 => "else_clause"@,
            Php::MatchExpression => "match_expression"@,
            Php::MatchBlock => "match_block"@,
            Php::MatchConditionList => "match_condition_list"@,
            Php::MatchConditionalExpression => "match_conditional_expression"@,
            Php::MatchDefaultExpression => "match_default_expression"@,
            Php::SwitchStatement => "switch_statement"@,
            Php::SwitchBlock => "switch_block"@,
            Php::CaseStatement => "case_statement"@,
            Php::DefaultStatement => "default_statement"@,
            Php::CompoundStatement => "compound_statement"@,
            Php::NamedLabelStatement => "named_label_statement"@,
            Php::ExpressionStatement => "expression_statement"@,
            Php::Expression => "expression"@,
            Php::UnaryExpression => "_unary_expression"@,
            Php::UnaryOpExpression => "unary_op_expression"@,
            Php::ErrorSuppressionExpression => "error_suppression_expression"@,
            Php::CloneExpression => "clone_expression"@,
            Php::PrimaryExpression => "primary_expression"@,
            Php::ParenthesizedExpression => "parenthesized_expression"@,
            Php::ClassConstantAccessExpression => "class_constant_access_expression"@,
            Php::PrintIntrinsic => "print_intrinsic"@,
            Php::ObjectCreationExpression => "object_creation_expression"@,
            Php::NewNonDereferencableExpression => "_new_non_dereferencable_expression"@,
            Php::NewDereferencableExpression => "_new_dereferencable_expression"@,
            Php::ClassNameReference => "_class_name_reference"@,
            Php::AnonymousClass => "anonymous_class"@,
            Php::UpdateExpression => "update_expression"@,
            Php::CastExpression => "cast_expression"@,
            Php::CastExpression2 => "cast_expression"@,
            Php::AssignmentExpression => "assignment_expression"@,
            Php::ReferenceAssignmentExpression => "reference_assignment_expression"@,
            Php::ConditionalExpression => "conditional_expression"@,
            Php::AugmentedAssignmentExpression => "augmented_assignment_expression"@,
            Php::MemberAccessExpression => "member_access_expression"@,
            Php::MemberAccessExpression2 => "member_access_expression"@,
            Php::NullsafeMemberAccessExpression => "nullsafe_member_access_expression"@,
            Php::NullsafeMemberAccessExpression2 => "nullsafe_member_access_expression"@,
            Php::ScopedPropertyAccessExpression => "scoped_property_access_expression"@,
            Php::ScopedPropertyAccessExpression2 => "scoped_property_access_expression"@,
            Php::ListLiteral => "list_literal"@,
            Php::ListDestructing => "_list_destructing"@,
            Php::ArrayDestructing => "_array_destructing"@,
            Php::ArrayDestructingElement => "_array_destructing_element"@,
            Php::FunctionCallExpression => "function_call_expression"@,
            Php::CallableExpression => "_callable_expression"@,
            Php::ScopedCallExpression => "scoped_call_expression"@,
            Php::ScopeResolutionQualifier => "_scope_resolution_qualifier"@,
            Php::RelativeScope => "relative_scope"@,
            Php::VariadicPlaceholder => "variadic_placeholder"@,
            Php::ArgumentPlaceholder => "argument_placeholder"@,
            Php::Arguments => "arguments"@,
            Php::Argument => "argument"@,
            Php::ArgumentName => "_argument_name"@,
            Php::MemberCallExpression => "member_call_expression"@,
            Php::NullsafeMemberCallExpression => "nullsafe_member_call_expression"@,
            Php::VariadicUnpacking => "variadic_unpacking"@,
            Php::MemberName => "_member_name"@,
            Php::SubscriptExpression => "subscript_expression"@,
            Php::SubscriptExpression2 => "subscript_expression"@,
            Php::DereferencableExpression => "_dereferencable_expression"@,
            Php::DereferencableScalar => "_dereferencable_scalar"@,
            Php::ArrayCreationExpression => "array_creation_expression"@,
            Php::AttributeGroup => "attribute_group"@,
            Php::AttributeList => "attribute_list"@,
            Php::Attribute => "attribute"@,
            Php::ComplexStringPart => "_complex_string_part"@,
            Php::MemberAccessExpression3 => "member_access_expression"@,
            Php::UnaryOpExpression2 => "unary_op_expression"@,
            Php::SimpleStringArrayAccessArgument => "_simple_string_array_access_argument"@,
            Php::SubscriptExpression3 => "subscript_expression"@,
            Php::SimpleStringPart => "_simple_string_part"@,
            Php::InterpolatedStringBody => "_interpolated_string_body"@,
            Php::InterpolatedStringBodyHeredoc => "_interpolated_string_body_heredoc"@,
            Php::EncapsedString => "encapsed_string"@,
            Php::String => "string"@,
            Php::StringContent8 => "string_content"@,
            Php::HeredocBody => "heredoc_body"@,
            Php::Heredoc => "heredoc"@,
            Php::NowdocBody => "nowdoc_body"@,
            Php::Nowdoc => "nowdoc"@,
            Php::InterpolatedExecutionOperatorBody => "_interpolated_execution_operator_body"@,
            Php::ShellCommandExpression => "shell_command_expression"@,
            Php::Boolean => "boolean"@,
            Php::Null => "null"@,
            Php::String3 => "_string"@,
            Php::DynamicVariableName => "dynamic_variable_name"@,
            Php::SimpleVariable => "_simple_variable"@,
            Php::NewVariable => "_new_variable"@,
            Php::CallableVariable => "_callable_variable"@,
            Php::VariableName => "variable_name"@,
            Php::ByRef => "by_ref"@,
            Php::YieldExpression => "yield_expression"@,
            Php::ArrayElementInitializer => "array_element_initializer"@,
            Php::BinaryExpression => "binary_expression"@,
            Php::IncludeExpression => "include_expression"@,
            Php::IncludeOnceExpression => "include_once_expression"@,
            Php::RequireExpression => "require_expression"@,
            Php::RequireOnceExpression => "require_once_expression"@,
            Php::Semicolon => "_semicolon"@,
            Php::ProgramRepeat1 => "program_repeat1"@,
            Php::TextRepeat1 => "text_repeat1"@,
            Php::FunctionStaticDeclarationRepeat1 => "function_static_declaration_repeat1"@,
            Php::GlobalDeclarationRepeat1 => "global_declaration_repeat1"@,
            Php::NamespaceUseDeclarationRepeat1 => "namespace_use_declaration_repeat1"@,
            Php::NamespaceNameRepeat1 => "namespace_name_repeat1"@,
            Php::BaseClauseRepeat1 => "base_clause_repeat1"@,
            Php::EnumDeclarationListRepeat1 => "enum_declaration_list_repeat1"@,
            Php::ClassDeclarationRepeat1 => "class_declaration_repeat1"@,
            Php::DeclarationListRepeat1 => "declaration_list_repeat1"@,
            Php::ConstDeclarationRepeat1 => "const_declaration_repeat1"@,
            Php::ClassConstDeclarationRepeat1 => "_class_const_declaration_repeat1"@,
            Php::PropertyDeclarationRepeat1 => "property_declaration_repeat1"@,
            Php::PropertyHookListRepeat1 => "property_hook_list_repeat1"@,
            Php::UseListRepeat1 => "use_list_repeat1"@,
            Php::AnonymousFunctionUseClauseRepeat1 => "anonymous_function_use_clause_repeat1"@,
            Php::FormalParametersRepeat1 => "formal_parameters_repeat1"@,
            Php::PropertyPromotionParameterRepeat1 => "property_promotion_parameter_repeat1"@,
            Php::UnionTypeRepeat1 => "union_type_repeat1"@,
            Php::IntersectionTypeRepeat1 => "intersection_type_repeat1"@,
            Php::DisjunctiveNormalFormTypeRepeat1 => "disjunctive_normal_form_type_repeat1"@,
            Php::UnsetStatementRepeat1 => "unset_statement_repeat1"@,
            Php::TryStatementRepeat1 => "try_statement_repeat1"@,
            Php::TypeListRepeat1 => "type_list_repeat1"@,
            Php::IfStatementRepeat1 => "if_statement_repeat1"@,
            Php::IfStatementRepeat2 => "if_statement_repeat2"@,
            Php::MatchBlockRepeat1 => "match_block_repeat1"@,
            Php::MatchConditionListRepeat1 => "match_condition_list_repeat1"@,
            Php::SwitchBlockRepeat1 => "switch_block_repeat1"@,
            Php::ListDestructingRepeat1 => "_list_destructing_repeat1"@,
            Php::ArrayDestructingRepeat1 => "_array_destructing_repeat1"@,
            Php::ArgumentsRepeat1 => "arguments_repeat1"@,
            Php::ArrayCreationExpressionRepeat1 => "array_creation_expression_repeat1"@,
            Php::AttributeGroupRepeat1 => "attribute_group_repeat1"@,
            Php::AttributeListRepeat1 => "attribute_list_repeat1"@,
            Php::StringRepeat1 => "string_repeat1"@,
            Php::StringContentRepeat1 => "string_content_repeat1"@,
            Php::HeredocBodyRepeat1 => "heredoc_body_repeat1"@,
            Php::NowdocBodyRepeat1 => "nowdoc_body_repeat1"@,
            Php::Operation => "operation"@,
            Php::Error => "ERROR"@,
        }
    }

    /// Maps a numeric kind id to its kind; an id outside the table maps to `Error`.
    pub fn from_u16(x: u16) -> (r: Php)
        ensures
            r == Php::spec_from_id(x),
            x > 434 ==> r == Php::Error,
    {
        match x {
            0 => Php::End,
            1 => Php::Name,
            2 => Php::PhpTag,
            3 => Php::PhpEndTag,
            4 => Php::TextToken1,
            5 => Php::TextToken2,
            6 => Php::SEMI,
            7 => Php::AMP,
            8 => Php::Static,
            9 => Php::COMMA,
            10 => Php::EQ,
            11 => Php::Global,
            12 => Php::Namespace,
            13 => Php::Use,
            14 => Php::As,
            15 => Php::Function,
            16 => Php::Const,
            17 => Php::BSLASH,
            18 => Php::LBRACE,
            19 => Php::RBRACE,
            20 => Php::Trait,
            21 => Php::Interface,
            22 => Php::Extends,
            23 => Php::Enum,
            24 => Php::COLON,
            25 => Php::String2,
            26 => Php::IntKw,
            27 => Php::Case,
            28 => Php::Class,
            29 => Php::FinalKw,
            30 => Php::Abstract,
            31 => Php::Readonly,
            32 => Php::Implements,
            33 => Php::EQGT,
            34 => Php::VarModifier,
            35 => Php::Insteadof,
            36 => Php::Public,
            37 => Php::Protected,
            38 => Php::Private,
            39 => Php::LPAREN,
            40 => Php::RPAREN,
            41 => Php::LPAREN2,
            42 => Php::RPAREN2,
            43 => Php::Fn,
            44 => Php::DOTDOTDOT,
            45 => Php::QMARK,
            46 => Php::BottomType,
            47 => Php::PIPE,
            48 => Php::Array,
            49 => Php::Bool,
            50 => Php::PrimitiveTypeToken1,
            51 => Php::PrimitiveTypeToken2,
            52 => Php::Float2,
            53 => Php::PrimitiveTypeToken3,
            54 => Php::PrimitiveTypeToken4,
            55 => Php::Null2,
            56 => Php::Object,
            57 => Php::PrimitiveTypeToken5,
            58 => Php::PrimitiveTypeToken6,
            59 => Php::CastTypeToken1,
            60 => Php::CastTypeToken2,
            61 => Php::CastTypeToken3,
            62 => Php::CastTypeToken4,
            63 => Php::CastTypeToken5,
            64 => Php::CastTypeToken6,
            65 => Php::CastTypeToken7,
            66 => Php::CastTypeToken8,
            67 => Php::CastTypeToken9,
            68 => Php::CastTypeToken10,
            69 => Php::CastTypeToken11,
            70 => Php::CastTypeToken12,
            71 => Php::Echo,
            72 => Php::Exit,
            73 => Php::Unset,
            74 => Php::Declare,
            75 => Php::Enddeclare,
            76 => Php::Ticks,
            77 => Php::Encoding,
            78 => Php::StrictTypes,
            79 => Php::Float,
            80 => Php::Try,
            81 => Php::Catch,
            82 => Php::Finally,
            83 => Php::Goto,
            84 => Php::Continue,
            85 => Php::Break,
            86 => Php::Integer,
            87 => Php::Return,
            88 => Php::Throw,
            89 => Php::While,
            90 => Php::Endwhile,
            91 => Php::Do,
            92 => Php::For,
            93 => Php::Endfor,
            94 => Php::Foreach,
            95 => Php::Endforeach,
            96 => Php::If,
            97 => Php::Endif,
            98 => Php::Elseif,
            99 => Php::Else,
            100 => Php::Match,
            101 => Php::Default,
            102 => Php::Switch,
            103 => Php::Endswitch,
            104 => Php::PLUS,
            105 => Php::DASH,
            106 => Php::TILDE,
            107 => Php::BANG,
            108 => Php::AT,
            109 => Php::Clone,
            110 => Php::COLONCOLON,
            111 => Php::Print,
            112 => Php::New,
            113 => Php::DASHDASH,
            114 => Php::PLUSPLUS,
            115 => Php::STARSTAREQ,
            116 => Php::STAREQ,
            117 => Php::SLASHEQ,
            118 => Php::PERCENTEQ,
            119 => Php::PLUSEQ,
            120 => Php::DASHEQ,
            121 => Php::DOTEQ,
            122 => Php::LTLTEQ,
            123 => Php::GTGTEQ,
            124 => Php::AMPEQ,
            125 => Php::CARETEQ,
            126 => Php::PIPEEQ,
            127 => Php::QMARKQMARKEQ,
            128 => Php::DASHGT,
            129 => Php::QMARKDASHGT,
            130 => Php::List,
            131 => Php::LBRACK,
            132 => Php::RBRACK,
            133 => Php::SelfKw,
            134 => Php::Parent,
            135 => Php::ArgumentNameToken1,
            136 => Php::ArgumentNameToken2,
            137 => Php::POUNDLBRACK,
            138 => Php::EscapeSequence,
            139 => Php::StringContent,
            140 => Php::EncapsedStringToken1,
            141 => Php::DQUOTE,
            142 => Php::StringToken1,
            143 => Php::SQUOTE,
            144 => Php::EscapeSequence2,
            145 => Php::StringContentToken1,
            146 => Php::LTLTLT,
            147 => Php::DQUOTE2,
            148 => Php::NewLine,
            149 => Php::SQUOTE2,
            150 => Php::BQUOTE,
            151 => Php::DOLLAR,
            152 => Php::Yield,
            153 => Php::YieldFrom,
            154 => Php::Instanceof,
            155 => Php::QMARKQMARK,
            156 => Php::STARSTAR,
            157 => Php::And,
            158 => Php::Or,
            159 => Php::Xor,
            160 => Php::PIPEPIPE,
            161 => Php::AMPAMP,
            162 => Php::CARET,
            163 => Php::EQEQ,
            164 => Php::BANGEQ,
            165 => Php::LTGT,
            166 => Php::EQEQEQ,
            167 => Php::BANGEQEQ,
            168 => Php::LT,
            169 => Php::GT,
            170 => Php::LTEQ,
            171 => Php::GTEQ,
            172 => Php::LTEQGT,
            173 => Php::PIPEGT,
            174 => Php::DOT,
            175 => Php::LTLT,
            176 => Php::GTGT,
            177 => Php::STAR,
            178 => Php::SLASH,
            179 => Php::PERCENT,
            180 => Php::Include,
            181 => Php::IncludeOnce,
            182 => Php::Require,
            183 => Php::RequireOnce,
            184 => Php::Comment,
            185 => Php::AutomaticSemicolon,
            186 => Php::StringContent2,
            187 => Php::StringContent3,
            188 => Php::StringContent4,
            189 => Php::StringContent5,
            190 => Php::StringContent6,
            191 => Php::StringContent7,
            192 => Php::Eof,
            193 => Php::HeredocStart,
            194 => Php::HeredocEnd,
            195 => Php::NowdocString,
            196 => Php::SentinelError,
            197 => Php::Program,
            198 => Php::TextInterpolation,
            199 => Php::Text,
            200 => Php::Statement,
            201 => Php::EmptyStatement,
            202 => Php::ReferenceModifier,
            203 => Php::FunctionStaticDeclaration,
            204 => Php::StaticVariableDeclaration,
            205 => Php::GlobalDeclaration,
            206 => Php::NamespaceDefinition,
            207 => Php::NamespaceUseDeclaration,
            208 => Php::NamespaceUseClause,
            209 => Php::QualifiedName,
            210 => Php::RelativeName,
            211 => Php::Name2,
            212 => Php::NamespaceName,
            213 => Php::NamespaceUseGroup2,
            214 => Php::NamespaceUseGroup,
            215 => Php::TraitDeclaration,
            216 => Php::InterfaceDeclaration,
            217 => Php::BaseClause,
            218 => Php::EnumDeclaration,
            219 => Php::EnumDeclarationList,
            220 => Php::EnumMemberDeclaration,
            221 => Php::EnumCase,
            222 => Php::ClassDeclaration,
            223 => Php::DeclarationList,
            224 => Php::FinalModifier,
            225 => Php::AbstractModifier,
            226 => Php::ReadonlyModifier,
            227 => Php::ClassInterfaceClause,
            228 => Php::MemberDeclaration,
            229 => Php::ConstDeclaration,
            230 => Php::ConstDeclaration2,
            231 => Php::PropertyDeclaration,
            232 => Php::Modifier,
            233 => Php::PropertyElement,
            234 => Php::PropertyHookList,
            235 => Php::PropertyHook,
            236 => Php::PropertyHookBody,
            237 => Php::MethodDeclaration,
            238 => Php::StaticModifier,
            239 => Php::UseDeclaration,
            240 => Php::UseList,
            241 => Php::UseInsteadOfClause,
            242 => Php::UseAsClause,
            243 => Php::VisibilityModifier,
            244 => Php::FunctionDefinition,
            245 => Php::AnonymousFunction,
            246 => Php::AnonymousFunctionUseClause,
            247 => Php::AnonymousFunctionHeader,
            248 => Php::ArrowFunctionHeader,
            249 => Php::ArrowFunction,
            250 => Php::FormalParameters,
            251 => Php::PropertyPromotionParameter,
            252 => Php::SimpleParameter,
            253 => Php::VariadicParameter,
            254 => Php::Type,
            255 => Php::Types,
            256 => Php::NamedType,
            257 => Php::OptionalType,
            258 => Php::UnionType,
            259 => Php::IntersectionType,
            260 => Php::DisjunctiveNormalFormType,
            261 => Php::PrimitiveType,
            262 => Php::CastType,
            263 => Php::ReturnType,
            264 => Php::ConstElement,
            265 => Php::ConstElement2,
            266 => Php::EchoStatement,
            267 => Php::ExitStatement,
            268 => Php::UnsetStatement,
            269 => Php::DeclareStatement,
            270 => Php::DeclareDirective,
            271 => Php::Literal,
            272 => Php::TryStatement,
            273 => Php::CatchClause,
            274 => Php::TypeList,
            275 => Php::FinallyClause,
            276 => Php::GotoStatement,
            277 => Php::ContinueStatement,
            278 => Php::BreakStatement,
            279 => Php::ReturnStatement,
            280 => Php::ThrowExpression,
            281 => Php::WhileStatement,
            282 => Php::DoStatement,
            283 => Php::ForStatement,
            284 => Php::Expressions,
            285 => Php::SequenceExpression,
            286 => Php::ForeachStatement,
            287 => Php::Pair,
            288 => Php::ForeachValue,
            289 => Php::IfStatement,
            290 => Php::ColonBlock,
            291 => Php::ElseIfClause,
            292 => Php::ElseClause,
            293 => Php::ElseIfClause2,
            294 => Php::ElseClause2,
            295 => Php::MatchExpression,
            296 => Php::MatchBlock,
            297 => Php::MatchConditionList,
            298 => Php::MatchConditionalExpression,
            299 => Php::MatchDefaultExpression,
            300 => Php::SwitchStatement,
            301 => Php::SwitchBlock,
            302 => Php::CaseStatement,
            303 => Php::DefaultStatement,
            304 => Php::CompoundStatement,
            305 => Php::NamedLabelStatement,
            306 => Php::ExpressionStatement,
            307 => Php::Expression,
            308 => Php::UnaryExpression,
            309 => Php::UnaryOpExpression,
            310 => Php::ErrorSuppressionExpression,
            311 => Php::CloneExpression,
            312 => Php::PrimaryExpression,
            313 => Php::ParenthesizedExpression,
            314 => Php::ClassConstantAccessExpression,
            315 => Php::PrintIntrinsic,
            316 => Php::ObjectCreationExpression,
            317 => Php::NewNonDereferencableExpression,
            318 => Php::NewDereferencableExpression,
            319 => Php::ClassNameReference,
            320 => Php::AnonymousClass,
            321 => Php::UpdateExpression,
            322 => Php::CastExpression,
            323 => Php::CastExpression2,
            324 => Php::AssignmentExpression,
            325 => Php::ReferenceAssignmentExpression,
            326 => Php::ConditionalExpression,
            327 => Php::AugmentedAssignmentExpression,
            328 => Php::MemberAccessExpression,
            329 => Php::MemberAccessExpression2,
            330 => Php::NullsafeMemberAccessExpression,
            331 => Php::NullsafeMemberAccessExpression2,
            332 => Php::ScopedPropertyAccessExpression,
            333 => Php::ScopedPropertyAccessExpression2,
            334 => Php::ListLiteral,
            335 => Php::ListDestructing,
            336 => Php::ArrayDestructing,
            337 => Php::ArrayDestructingElement,
            338 => Php::FunctionCallExpression,
            339 => Php::CallableExpression,
            340 => Php::ScopedCallExpression,
            341 => Php::ScopeResolutionQualifier,
            342 => Php::RelativeScope,
            343 => Php::VariadicPlaceholder,
            344 => Php::ArgumentPlaceholder,
            345 => Php::Arguments,
            346 => Php::Argument,
            347 => Php::ArgumentName,
            348 => Php::MemberCallExpression,
            349 => Php::NullsafeMemberCallExpression,
            350 => Php::VariadicUnpacking,
            351 => Php::MemberName,
            352 => Php::SubscriptExpression,
            353 => Php::SubscriptExpression2,
            354 => Php::DereferencableExpression,
            355 => Php::DereferencableScalar,
            356 => Php::ArrayCreationExpression,
            357 => Php::AttributeGroup,
            358 => Php::AttributeList,
            359 => Php::Attribute,
            360 => Php::ComplexStringPart,
            361 => Php::MemberAccessExpression3,
            362 => Php::UnaryOpExpression2,
            363 => Php::SimpleStringArrayAccessArgument,
            364 => Php::SubscriptExpression3,
            365 => Php::SimpleStringPart,
            366 => Php::InterpolatedStringBody,
            367 => Php::InterpolatedStringBodyHeredoc,
            368 => Php::EncapsedString,
            369 => Php::String,
            370 => Php::StringContent8,
            371 => Php::HeredocBody,
            372 => Php::Heredoc,
            373 => Php::NowdocBody,
            374 => Php::Nowdoc,
            375 => Php::InterpolatedExecutionOperatorBody,
            376 => Php::ShellCommandExpression,
            377 => Php::Boolean,
            378 => Php::Null,
            379 => Php::String3,
            380 => Php::DynamicVariableName,
            381 => Php::SimpleVariable,
            382 => Php::NewVariable,
            383 => Php::CallableVariable,
            384 => Php::VariableName,
            385 => Php::ByRef,
            386 => Php::YieldExpression,
            387 => Php::ArrayElementInitializer,
            388 => Php::BinaryExpression,
            389 => Php::IncludeExpression,
            390 => Php::IncludeOnceExpression,
            391 => Php::RequireExpression,
            392 => Php::RequireOnceExpression,
            393 => Php::Semicolon,
            394 => Php::ProgramRepeat1,
            395 => Php::TextRepeat1,
            396 => Php::FunctionStaticDeclarationRepeat1,
            397 => Php::GlobalDeclarationRepeat1,
            398 => Php::NamespaceUseDeclarationRepeat1,
            399 => Php::NamespaceNameRepeat1,
            400 => Php::BaseClauseRepeat1,
            401 => Php::EnumDeclarationListRepeat1,
            402 => Php::ClassDeclarationRepeat1,
            403 => Php::DeclarationListRepeat1,
            404 => Php::ConstDeclarationRepeat1,
            405 => Php::ClassConstDeclarationRepeat1,
            406 => Php::PropertyDeclarationRepeat1,
            407 => Php::PropertyHookListRepeat1,
            408 => Php::UseListRepeat1,
            409 => Php::AnonymousFunctionUseClauseRepeat1,
            410 => Php::FormalParametersRepeat1,
            411 => Php::PropertyPromotionParameterRepeat1,
            412 => Php::UnionTypeRepeat1,
            413 => Php::IntersectionTypeRepeat1,
            414 => Php::DisjunctiveNormalFormTypeRepeat1,
            415 => Php::UnsetStatementRepeat1,
            416 => Php::TryStatementRepeat1,
            417 => Php::TypeListRepeat1,
            418 => Php::IfStatementRepeat1,
            419 => Php::IfStatementRepeat2,
            420 => Php::MatchBlockRepeat1,
            421 => Php::MatchConditionListRepeat1,
            422 => Php::SwitchBlockRepeat1,
            423 => Php::ListDestructingRepeat1,
            424 => Php::ArrayDestructingRepeat1,
            425 => Php::ArgumentsRepeat1,
            426 => Php::ArrayCreationExpressionRepeat1,
            427 => Php::AttributeGroupRepeat1,
            428 => Php::AttributeListRepeat1,
            429 => Php::StringRepeat1,
            430 => Php::StringContentRepeat1,
            431 => Php::HeredocBodyRepeat1,
            432 => Php::NowdocBodyRepeat1,
            433 => Php::Operation,
            _ => Php::Error,
        }
    }

    /// The display string of this kind.
    pub fn as_str(&self) -> (r: &'static str)
        ensures
            r@ == self.text(),
    {
        match self {
            Php::End => "end",
            Php::Name => "name",
            Php::PhpTag => "php_tag",
            Php::PhpEndTag => "php_end_tag",
            Php::TextToken1 => "text_token1",
            Php::TextToken2 => "text_token2",
            Php::SEMI => ";",
            Php::AMP => "&",
            Php::Static => "static",
            Php::COMMA => ",",
            Php::EQ => "=",
            Php::Global => "global",
            Php::Namespace => "namespace",
            Php::Use => "use",
            Php::As => "as",
            Php::Function => "function",
            Php::Const => "const",
            Php::BSLASH => "\\",
            Php::LBRACE => "{",
            Php::RBRACE => "}",
            Php::Trait => "trait",
            Php::Interface => "interface",
            Php::Extends => "extends",
            Php::Enum => "enum",
            Php::COLON => ":",
            Php::String2 => "string",
            Php::IntKw => "int",
            Php::Case => "case",
            Php::Class => "class",
            Php::FinalKw => "final",
            Php::Abstract => "abstract",
            Php::Readonly => "readonly",
            Php::Implements => "implements",
            Php::EQGT => "=>",
            Php::VarModifier => "var_modifier",
            Php::Insteadof => "insteadof",
            Php::Public => "public",
            Php::Protected => "protected",
            Php::Private => "private",
            Php::LPAREN => "(",
            Php::RPAREN => ")",
            Php::LPAREN2 => "(",
            Php::RPAREN2 => ")",
            Php::Fn => "fn",
            Php::DOTDOTDOT => "...",
            Php::QMARK => "?",
            Php::BottomType => "bottom_type",
            Php::PIPE => "|",
            Php::Array => "array",
            Php::Bool => "bool",
            Php::PrimitiveTypeToken1 => "primitive_type_token1",
            Php::PrimitiveTypeToken2 => "primitive_type_token2",
            Php::Float2 => "float",
            Php::PrimitiveTypeToken3 => "primitive_type_token3",
            Php::PrimitiveTypeToken4 => "primitive_type_token4",
            Php::Null2 => "null",
            Php::Object => "object",
            Php::PrimitiveTypeToken5 => "primitive_type_token5",
            Php::PrimitiveTypeToken6 => "primitive_type_token6",
            Php::CastTypeToken1 => "cast_type_token1",
            Php::CastTypeToken2 => "cast_type_token2",
            Php::CastTypeToken3 => "cast_type_token3",
            Php::CastTypeToken4 => "cast_type_token4",
            Php::CastTypeToken5 => "cast_type_token5",
            Php::CastTypeToken6 => "cast_type_token6",
            Php::CastTypeToken7 => "cast_type_token7",
            Php::CastTypeToken8 => "cast_type_token8",
            Php::CastTypeToken9 => "cast_type_token9",
            Php::CastTypeToken10 => "cast_type_token10",
            Php::CastTypeToken11 => "cast_type_token11",
            Php::CastTypeToken12 => "cast_type_token12",
            Php::Echo => "echo",
            Php::Exit => "exit",
            Php::Unset => "unset",
            Php::Declare => "declare",
            Php::Enddeclare => "enddeclare",
            Php::Ticks => "ticks",
            Php::Encoding => "encoding",
            Php::StrictTypes => "strict_types",
            Php::Float => "float",
            Php::Try => "try",
            Php::Catch => "catch",
            Php::Finally => "finally",
            Php::Goto => "goto",
            Php::Continue => "continue",
            Php::Break => "break",
            Php::Integer => "integer",
            Php::Return => "return",
            Php::Throw => "throw",
            Php::While => "while",
            Php::Endwhile => "endwhile",
            Php::Do => "do",
            Php::For => "for",
            Php::Endfor => "endfor",
            Php::Foreach => "foreach",
            Php::Endforeach => "endforeach",
            Php::If => "if",
            Php::Endif => "endif",
            Php::Elseif => "elseif",
            Php::Else => "else",
            Php::Match => "match",
            Php::Default => "default",
            Php::Switch => "switch",
            Php::Endswitch => "endswitch",
            Php::PLUS => "+",
            Php::DASH => "-",
            Php::TILDE => "~",
            Php::BANG => "!",
            Php::AT => "@",
            Php::Clone => "clone",
            Php::COLONCOLON => "::",
            Php::Print => "print",
            Php::New => "new",
            Php::DASHDASH => "--",
            Php::PLUSPLUS => "++",
            Php::STARSTAREQ => "**=",
            Php::STAREQ => "*=",
            Php::SLASHEQ => "/=",
            Php::PERCENTEQ => "%=",
            Php::PLUSEQ => "+=",
            Php::DASHEQ => "-=",
            Php::DOTEQ => ".=",
            Php::LTLTEQ => "<<=",
            Php::GTGTEQ => ">>=",
            Php::AMPEQ => "&=",
            Php::CARETEQ => "^=",
            Php::PIPEEQ => "|=",
            Php::QMARKQMARKEQ => "??=",
            Php::DASHGT => "->",
            Php::QMARKDASHGT => "?->",
            Php::List => "list",
            Php::LBRACK => "[",
            Php::RBRACK => "]",
            Php::SelfKw => "self",
            Php::Parent => "parent",
            Php::ArgumentNameToken1 => "_argument_name_token1",
            Php::ArgumentNameToken2 => "_argument_name_token2",
            Php::POUNDLBRACK => "#[",
            Php::EscapeSequence => "escape_sequence",
            Php::StringContent => "string_content",
            Php::EncapsedStringToken1 => "encapsed_string_token1",
            Php::DQUOTE => "\"",
            Php::StringToken1 => "string_token1",
            Php::SQUOTE => "'",
            Php::EscapeSequence2 => "escape_sequence",
            Php::StringContentToken1 => "string_content_token1",
            Php::LTLTLT => "<<<",
            Php::DQUOTE2 => "\"",
            Php::NewLine => "_new_line",
            Php::SQUOTE2 => "'",
            Php::BQUOTE => "`",
            Php::DOLLAR => "$",
            Php::Yield => "yield",
            Php::YieldFrom => "yield from",
            Php::Instanceof => "instanceof",
            Php::QMARKQMARK => "??",
            Php::STARSTAR => "**",
            Php::And => "and",
            Php::Or => "or",
            Php::Xor => "xor",
            Php::PIPEPIPE => "||",
            Php::AMPAMP => "&&",
            Php::CARET => "^",
            Php::EQEQ => "==",
            Php::BANGEQ => "!=",
            Php::LTGT => "<>",
            Php::EQEQEQ => "===",
            Php::BANGEQEQ => "!==",
            Php::LT => "<",
            Php::GT => ">",
            Php::LTEQ => "<=",
            Php::GTEQ => ">=",
            Php::LTEQGT => "<=>",
            Php::PIPEGT => "|>",
            Php::DOT => ".",
            Php::LTLT => "<<",
            Php::GTGT => ">>",
            Php::STAR => "*",
            Php::SLASH => "/",
            Php::PERCENT => "%",
            Php::Include => "include",
            Php::IncludeOnce => "include_once",
            Php::Require => "require",
            Php::RequireOnce => "require_once",
            Php::Comment => "comment",
            Php::AutomaticSemicolon => "_automatic_semicolon",
            Php::StringContent2 => "string_content",
            Php::StringContent3 => "string_content",
            Php::StringContent4 => "string_content",
            Php::StringContent5 => "string_content",
            Php::StringContent6 => "string_content",
            Php::StringContent7 => "string_content",
            Php::Eof => "_eof",
            Php::HeredocStart => "heredoc_start",
            Php::HeredocEnd => "heredoc_end",
            Php::NowdocString => "nowdoc_string",
            Php::SentinelError => "sentinel_error",
            Php::Program => "program",
            Php::TextInterpolation => "text_interpolation",
            Php::Text => "text",
            Php::Statement => "statement",
            Php::EmptyStatement => "empty_statement",
            Php::ReferenceModifier => "reference_modifier",
            Php::FunctionStaticDeclaration => "function_static_declaration",
            Php::StaticVariableDeclaration => "static_variable_declaration",
            Php::GlobalDeclaration => "global_declaration",
            Php::NamespaceDefinition => "namespace_definition",
            Php::NamespaceUseDeclaration => "namespace_use_declaration",
            Php::NamespaceUseClause => "namespace_use_clause",
            Php::QualifiedName => "qualified_name",
            Php::RelativeName => "relative_name",
            Php::Name2 => "_name",
            Php::NamespaceName => "namespace_name",
            Php::NamespaceUseGroup2 => "_namespace_use_group",
            Php::NamespaceUseGroup => "namespace_use_group",
            Php::TraitDeclaration => "trait_declaration",
            Php::InterfaceDeclaration => "interface_declaration",
            Php::BaseClause => "base_clause",
            Php::EnumDeclaration => "enum_declaration",
            Php::EnumDeclarationList => "enum_declaration_list",
            Php::EnumMemberDeclaration => "_enum_member_declaration",
            Php::EnumCase => "enum_case",
            Php::ClassDeclaration => "class_declaration",
            Php::DeclarationList => "declaration_list",
            Php::FinalModifier => "final_modifier",
            Php::AbstractModifier => "abstract_modifier",
            Php::ReadonlyModifier => "readonly_modifier",
            Php::ClassInterfaceClause => "class_interface_clause",
            Php::MemberDeclaration => "_member_declaration",
            Php::ConstDeclaration => "const_declaration",
            Php::ConstDeclaration2 => "const_declaration",
            Php::PropertyDeclaration => "property_declaration",
            Php::Modifier => "_modifier",
            Php::PropertyElement => "property_element",
            Php::PropertyHookList => "property_hook_list",
            Php::PropertyHook => "property_hook",
            Php::PropertyHookBody => "_property_hook_body",
            Php::MethodDeclaration => "method_declaration",
            Php::StaticModifier => "static_modifier",
            Php::UseDeclaration => "use_declaration",
            Php::UseList => "use_list",
            Php::UseInsteadOfClause => "use_instead_of_clause",
            Php::UseAsClause => "use_as_clause",
            Php::VisibilityModifier => "visibility_modifier",
            Php::FunctionDefinition => "function_definition",
            Php::AnonymousFunction => "anonymous_function",
            Php::AnonymousFunctionUseClause => "anonymous_function_use_clause",
            Php::AnonymousFunctionHeader => "_anonymous_function_header",
            Php::ArrowFunctionHeader => "_arrow_function_header",
            Php::ArrowFunction => "arrow_function",
            Php::FormalParameters => "formal_parameters",
            Php::PropertyPromotionParameter => "property_promotion_parameter",
            Php::SimpleParameter => "simple_parameter",
            Php::VariadicParameter => "variadic_parameter",
            Php::Type => "type",
            Php::Types => "_types",
            Php::NamedType => "named_type",
            Php::OptionalType => "optional_type",
            Php::UnionType => "union_type",
            Php::IntersectionType => "intersection_type",
            Php::DisjunctiveNormalFormType => "disjunctive_normal_form_type",
            Php::PrimitiveType => "primitive_type",
            Php::CastType => "cast_type",
            Php::ReturnType => "_return_type",
            Php::ConstElement => "const_element",
            Php::ConstElement2 => "const_element",
            Php::EchoStatement => "echo_statement",
            Php::ExitStatement => "exit_statement",
            Php::UnsetStatement => "unset_statement",
            Php::DeclareStatement => "declare_statement",
            Php::DeclareDirective => "declare_directive",
            Php::Literal => "literal",
            Php::TryStatement => "try_statement",
            Php::CatchClause => "catch_clause",
            Php::TypeList => "type_list",
            Php::FinallyClause => "finally_clause",
            Php::GotoStatement => "goto_statement",
            Php::ContinueStatement => "continue_statement",
            Php::BreakStatement => "break_statement",
            Php::ReturnStatement => "return_statement",
            Php::ThrowExpression => "throw_expression",
            Php::WhileStatement => "while_statement",
            Php::DoStatement => "do_statement",
            Php::ForStatement => "for_statement",
            Php::Expressions => "_expressions",
            Php::SequenceExpression => "sequence_expression",
            Php::ForeachStatement => "foreach_statement",
            Php::Pair => "pair",
            Php::ForeachValue => "_foreach_value",
            Php::IfStatement => "if_statement",
            Php::ColonBlock => "colon_block",
            Php::ElseIfClause => "else_if_clause",
            Php::ElseClause => "else_clause",
            Php::ElseIfClause2 => "else_if_clause",
            Php::ElseClause2 => "else_clause",
            Php::MatchExpression => "match_expression",
            Php::MatchBlock => "match_block",
            Php::MatchConditionList => "match_condition_list",
            Php::MatchConditionalExpression => "match_conditional_expression",
            Php::MatchDefaultExpression => "match_default_expression",
            Php::SwitchStatement => "switch_statement",
            Php::SwitchBlock => "switch_block",
            Php::CaseStatement => "case_statement",
            Php::DefaultStatement => "default_statement",
            Php::CompoundStatement => "compound_statement",
            Php::NamedLabelStatement => "named_label_statement",
            Php::ExpressionStatement => "expression_statement",
            Php::Expression => "expression",
            Php::UnaryExpression => "_unary_expression",
            Php::UnaryOpExpression => "unary_op_expression",
            Php::ErrorSuppressionExpression => "error_suppression_expression",
            Php::CloneExpression => "clone_expression",
            Php::PrimaryExpression => "primary_expression",
            Php::ParenthesizedExpression => "parenthesized_expression",
            Php::ClassConstantAccessExpression => "class_constant_access_expression",
            Php::PrintIntrinsic => "print_intrinsic",
            Php::ObjectCreationExpression => "object_creation_expression",
            Php::NewNonDereferencableExpression => "_new_non_dereferencable_expression",
            Php::NewDereferencableExpression => "_new_dereferencable_expression",
            Php::ClassNameReference => "_class_name_reference",
            Php::AnonymousClass => "anonymous_class",
            Php::UpdateExpression => "update_expression",
            Php::CastExpression => "cast_expression",
            Php::CastExpression2 => "cast_expression",
            Php::AssignmentExpression => "assignment_expression",
            Php::ReferenceAssignmentExpression => "reference_assignment_expression",
            Php::ConditionalExpression => "conditional_expression",
            Php::AugmentedAssignmentExpression => "augmented_assignment_expression",
            Php::MemberAccessExpression => "member_access_expression",
            Php::MemberAccessExpression2 => "member_access_expression",
            Php::NullsafeMemberAccessExpression => "nullsafe_member_access_expression",
            Php::NullsafeMemberAccessExpression2 => "nullsafe_member_access_expression",
            Php::ScopedPropertyAccessExpression => "scoped_property_access_expression",
            Php::ScopedPropertyAccessExpression2 => "scoped_property_access_expression",
            Php::ListLiteral => "list_literal",
            Php::ListDestructing => "_list_destructing",
            Php::ArrayDestructing => "_array_destructing",
            Php::ArrayDestructingElement => "_array_destructing_element",
            Php::FunctionCallExpression => "function_call_expression",
            Php::CallableExpression => "_callable_expression",
            Php::ScopedCallExpression => "scoped_call_expression",
            Php::ScopeResolutionQualifier => "_scope_resolution_qualifier",
            Php::RelativeScope => "relative_scope",
            Php::VariadicPlaceholder => "variadic_placeholder",
            Php::ArgumentPlaceholder => "argument_placeholder",
            Php::Arguments => "arguments",
            Php::Argument => "argument",
            Php::ArgumentName => "_argument_name",
            Php::MemberCallExpression => "member_call_expression",
            Php::NullsafeMemberCallExpression => "nullsafe_member_call_expression",
            Php::VariadicUnpacking => "variadic_unpacking",
            Php::MemberName => "_member_name",
            Php::SubscriptExpression => "subscript_expression",
            Php::SubscriptExpression2 => "subscript_expression",
            Php::DereferencableExpression => "_dereferencable_expression",
            Php::DereferencableScalar => "_dereferencable_scalar",
            Php::ArrayCreationExpression => "array_creation_expression",
            Php::AttributeGroup => "attribute_group",
            Php::AttributeList => "attribute_list",
            Php::Attribute => "attribute",
            Php::ComplexStringPart => "_complex_string_part",
            Php::MemberAccessExpression3 => "member_access_expression",
            Php::UnaryOpExpression2 => "unary_op_expression",
            Php::SimpleStringArrayAccessArgument => "_simple_string_array_access_argument",
            Php::SubscriptExpression3 => "subscript_expression",
            Php::SimpleStringPart => "_simple_string_part",
            Php::InterpolatedStringBody => "_interpolated_string_body",
            Php::InterpolatedStringBodyHeredoc => "_interpolated_string_body_heredoc",
            Php::EncapsedString => "encapsed_string",
            Php::String => "string",
            Php::StringContent8 => "string_content",
            Php::HeredocBody => "heredoc_body",
            Php::Heredoc => "heredoc",
            Php::NowdocBody => "nowdoc_body",
            Php::Nowdoc => "nowdoc",
            Php::InterpolatedExecutionOperatorBody => "_interpolated_execution_operator_body",
            Php::ShellCommandExpression => "shell_command_expression",
            Php::Boolean => "boolean",
            Php::Null => "null",
            Php::String3 => "_string",
            Php::DynamicVariableName => "dynamic_variable_name",
            Php::SimpleVariable => "_simple_variable",
            Php::NewVariable => "_new_variable",
            Php::CallableVariable => "_callable_variable",
            Php::VariableName => "variable_name",
            Php::ByRef => "by_ref",
            Php::YieldExpression => "yield_expression",
            Php::ArrayElementInitializer => "array_element_initializer",
            Php::BinaryExpression => "binary_expression",
            Php::IncludeExpression => "include_expression",
            Php::IncludeOnceExpression => "include_once_expression",
            Php::RequireExpression => "require_expression",
            Php::RequireOnceExpression => "require_once_expression",
            Php::Semicolon => "_semicolon",
            Php::ProgramRepeat1 => "program_repeat1",
            Php::TextRepeat1 => "text_repeat1",
            Php::FunctionStaticDeclarationRepeat1 => "function_static_declaration_repeat1",
            Php::GlobalDeclarationRepeat1 => "global_declaration_repeat1",
            Php::NamespaceUseDeclarationRepeat1 => "namespace_use_declaration_repeat1",
            Php::NamespaceNameRepeat1 => "namespace_name_repeat1",
            Php::BaseClauseRepeat1 => "base_clause_repeat1",
            Php::EnumDeclarationListRepeat1 => "enum_declaration_list_repeat1",
            Php::ClassDeclarationRepeat1 => "class_declaration_repeat1",
            Php::DeclarationListRepeat1 => "declaration_list_repeat1",
            Php::ConstDeclarationRepeat1 => "const_declaration_repeat1",
            Php::ClassConstDeclarationRepeat1 => "_class_const_declaration_repeat1",
            Php::PropertyDeclarationRepeat1 => "property_declaration_repeat1",
            Php::PropertyHookListRepeat1 => "property_hook_list_repeat1",
            Php::UseListRepeat1 => "use_list_repeat1",
            Php::AnonymousFunctionUseClauseRepeat1 => "anonymous_function_use_clause_repeat1",
            Php::FormalParametersRepeat1 => "formal_parameters_repeat1",
            Php::PropertyPromotionParameterRepeat1 => "property_promotion_parameter_repeat1",
            Php::UnionTypeRepeat1 => "union_type_repeat1",
            Php::IntersectionTypeRepeat1 => "intersection_type_repeat1",
            Php::DisjunctiveNormalFormTypeRepeat1 => "disjunctive_normal_form_type_repeat1",
            Php::UnsetStatementRepeat1 => "unset_statement_repeat1",
            Php::TryStatementRepeat1 => "try_statement_repeat1",
            Php::TypeListRepeat1 => "type_list_repeat1",
            Php::IfStatementRepeat1 => "if_statement_repeat1",
            Php::IfStatementRepeat2 => "if_statement_repeat2",
            Php::MatchBlockRepeat1 => "match_block_repeat1",
            Php::MatchConditionListRepeat1 => "match_condition_list_repeat1",
            Php::SwitchBlockRepeat1 => "switch_block_repeat1",
            Php::ListDestructingRepeat1 => "_list_destructing_repeat1",
            Php::ArrayDestructingRepeat1 => "_array_destructing_repeat1",
            Php::ArgumentsRepeat1 => "arguments_repeat1",
            Php::ArrayCreationExpressionRepeat1 => "array_creation_expression_repeat1",
            Php::AttributeGroupRepeat1 => "attribute_group_repeat1",
            Php::AttributeListRepeat1 => "attribute_list_repeat1",
            Php::StringRepeat1 => "string_repeat1",
            Php::StringContentRepeat1 => "string_content_repeat1",
            Php::HeredocBodyRepeat1 => "heredoc_body_repeat1",
            Php::NowdocBodyRepeat1 => "nowdoc_body_repeat1",
            Php::Operation => "operation",
            Php::Error => "ERROR",
        }
    }
}

impl From<u16> for Php {
    fn from(x: u16) -> (r: Php)
        ensures
            r == Php::spec_from_id(x),
    {
        Php::from_u16(x)
    }
}

impl vstd::std_specs::convert::FromSpecImpl<u16> for Php {
    open spec fn obeys_from_spec() -> bool {
        true
    }

    open spec fn from_spec(x: u16) -> Php {
        Php::spec_from_id(x)
    }
}

/// A kind id read back from its kind gives that kind again.
pub proof fn lemma_id_round_trip(k: Php)
    ensures
        Php::spec_from_id(k.id()) == k,
{
}

/// PHP kinds counted as Halstead operators.
pub open spec fn php_operator(k: Php) -> bool {
    match k {
        Php::PLUS | Php::DASH | Php::TILDE | Php::BANG | Php::AT | Php::Clone | Php::COLONCOLON
        | Php::Print | Php::New | Php::DASHDASH | Php::PLUSPLUS | Php::STARSTAREQ | Php::STAREQ
        | Php::SLASHEQ | Php::PERCENTEQ | Php::PLUSEQ | Php::DASHEQ | Php::DOTEQ | Php::LTLTEQ
        | Php::GTGTEQ | Php::AMPEQ | Php::CARETEQ | Php::PIPEEQ | Php::QMARKQMARKEQ
        | Php::DASHGT | Php::QMARKDASHGT | Php::EscapeSequence | Php::EscapeSequence2
        | Php::DOLLAR | Php::Yield | Php::YieldFrom | Php::Instanceof | Php::QMARKQMARK
        | Php::STARSTAR | Php::And | Php::Or | Php::Xor | Php::PIPEPIPE | Php::AMPAMP
        | Php::CARET | Php::EQEQ | Php::BANGEQ | Php::LTGT | Php::EQEQEQ | Php::BANGEQEQ
        | Php::LT | Php::GT | Php::LTEQ | Php::GTEQ | Php::LTEQGT | Php::PIPEGT | Php::DOT
        | Php::LTLT | Php::GTGT | Php::STAR | Php::SLASH | Php::PERCENT | Php::Include
        | Php::IncludeOnce | Php::Require | Php::RequireOnce | Php::Echo | Php::Exit
        | Php::Unset | Php::Declare | Php::Enddeclare | Php::Ticks | Php::Encoding
        | Php::StrictTypes | Php::Try | Php::Catch | Php::Finally | Php::Goto | Php::Continue
        | Php::Break | Php::Return | Php::Throw | Php::While | Php::Endwhile | Php::Do
        | Php::For | Php::Endfor | Php::Foreach | Php::Endforeach | Php::If | Php::Endif
        | Php::Elseif | Php::Else | Php::Match | Php::Default | Php::Switch | Php::Endswitch
        | Php::EQ | Php::COMMA | Php::SEMI | Php::COLON | Php::QMARK | Php::LPAREN
        | Php::LBRACK | Php::LBRACE => true,
        _ => false,
    }
}

/// PHP kinds counted as Halstead operands.
pub open spec fn php_operand(k: Php) -> bool {
    match k {
        Php::VariableName | Php::DynamicVariableName | Php::Name | Php::QualifiedName
        | Php::RelativeName | Php::Name2 | Php::String | Php::IntKw | Php::Float | Php::Bool
        | Php::Null | Php::Null2 | Php::Integer | Php::Float2 | Php::Boolean | Php::String2
        | Php::EncapsedString | Php::Nowdoc | Php::Heredoc => true,
        _ => false,
    }
}

/// How a PHP node counts in the Halstead measures.
pub open spec fn php_op_type(k: Php) -> HalsteadType {
    if php_operator(k) {
        HalsteadType::Operator
    } else if php_operand(k) {
        HalsteadType::Operand
    } else {
        HalsteadType::Unknown
    }
}

/// The space kind of a PHP node.
pub open spec fn php_space_kind(k: Php) -> SpaceKind {
    match k {
        Php::Program => SpaceKind::Unit,
        Php::FunctionDefinition | Php::MethodDeclaration | Php::AnonymousFunction
        | Php::ArrowFunction => SpaceKind::Function,
        Php::ClassDeclaration | Php::AnonymousClass => SpaceKind::Class,
        Php::TraitDeclaration => SpaceKind::Trait,
        Php::InterfaceDeclaration => SpaceKind::Interface,
        Php::EnumDeclaration => SpaceKind::Class,
        _ => SpaceKind::Unknown,
    }
}

/// The text under which a PHP operator counts: an opening bracket stands for the
/// pair it opens.
pub open spec fn php_operator_text(id: u16) -> Seq<char> {
    match Php::spec_from_id(id) {
        Php::LPAREN => "()"@,
        Php::LBRACK => "[]"@,
        Php::LBRACE => "{}"@,
        k => k.text(),
    }
}

/// The PHP grammar.
pub struct PhpCode;

impl Getter for PhpCode {
    open spec fn space_kind_of(tree: Tree, node: int) -> SpaceKind {
        php_space_kind(Php::spec_from_id(tree.nodes@[node].kind_id))
    }

    open spec fn op_type_of(tree: Tree, node: int) -> HalsteadType {
        php_op_type(Php::spec_from_id(tree.nodes@[node].kind_id))
    }

    open spec fn operator_text_of(id: u16) -> Seq<char> {
        php_operator_text(id)
    }

    open spec fn name_of(tree: Tree, node: int, code: Seq<u8>) -> Option<Seq<char>> {
        field_name(tree, node, code)
    }

    fn get_func_space_name(tree: &Tree, node: usize, code: &[u8]) -> (r: Option<String>) {
        name_from_field(tree, node, code)
    }

    fn get_space_kind(tree: &Tree, node: usize) -> (r: SpaceKind)
        ensures
            r == php_space_kind(Php::spec_from_id(tree.nodes@[node as int].kind_id)),
    {
        match Php::from_u16(tree.nodes[node].kind_id) {
            Php::Program => SpaceKind::Unit,
            Php::FunctionDefinition | Php::MethodDeclaration | Php::AnonymousFunction
            | Php::ArrowFunction => SpaceKind::Function,
            Php::ClassDeclaration | Php::AnonymousClass => SpaceKind::Class,
            Php::TraitDeclaration => SpaceKind::Trait,
            Php::InterfaceDeclaration => SpaceKind::Interface,
            Php::EnumDeclaration => SpaceKind::Class,
            _ => SpaceKind::Unknown,
        }
    }

    fn get_op_type(tree: &Tree, node: usize) -> (r: HalsteadType)
        ensures
            r == php_op_type(Php::spec_from_id(tree.nodes@[node as int].kind_id)),
    {
        match Php::from_u16(tree.nodes[node].kind_id) {
            Php::PLUS | Php::DASH | Php::TILDE | Php::BANG | Php::AT | Php::Clone
            | Php::COLONCOLON | Php::Print | Php::New | Php::DASHDASH | Php::PLUSPLUS
            | Php::STARSTAREQ | Php::STAREQ | Php::SLASHEQ | Php::PERCENTEQ | Php::PLUSEQ
            | Php::DASHEQ | Php::DOTEQ | Php::LTLTEQ | Php::GTGTEQ | Php::AMPEQ | Php::CARETEQ
            | Php::PIPEEQ | Php::QMARKQMARKEQ | Php::DASHGT | Php::QMARKDASHGT
            | Php::EscapeSequence | Php::EscapeSequence2 | Php::DOLLAR | Php::Yield
            | Php::YieldFrom | Php::Instanceof | Php::QMARKQMARK | Php::STARSTAR | Php::And
            | Php::Or | Php::Xor | Php::PIPEPIPE | Php::AMPAMP | Php::CARET | Php::EQEQ
            | Php::BANGEQ | Php::LTGT | Php::EQEQEQ | Php::BANGEQEQ | Php::LT | Php::GT
            | Php::LTEQ | Php::GTEQ | Php::LTEQGT | Php::PIPEGT | Php::DOT | Php::LTLT
            | Php::GTGT | Php::STAR | Php::SLASH | Php::PERCENT | Php::Include
            | Php::IncludeOnce | Php::Require | Php::RequireOnce | Php::Echo | Php::Exit
            | Php::Unset | Php::Declare | Php::Enddeclare | Php::Ticks | Php::Encoding
            | Php::StrictTypes | Php::Try | Php::Catch | Php::Finally | Php::Goto
            | Php::Continue | Php::Break | Php::Return | Php::Throw | Php::While
            | Php::Endwhile | Php::Do | Php::For | Php::Endfor | Php::Foreach | Php::Endforeach
            | Php::If | Php::Endif | Php::Elseif | Php::Else | Php::Match | Php::Default
            | Php::Switch | Php::Endswitch | Php::EQ | Php::COMMA | Php::SEMI | Php::COLON
            | Php::QMARK | Php::LPAREN | Php::LBRACK | Php::LBRACE => {
                HalsteadType::Operator
            },
            Php::VariableName | Php::DynamicVariableName | Php::Name | Php::QualifiedName
            | Php::RelativeName | Php::Name2 | Php::String | Php::IntKw | Php::Float
            | Php::Bool | Php::Null | Php::Null2 | Php::Integer | Php::Float2 | Php::Boolean
            | Php::String2 | Php::EncapsedString | Php::Nowdoc | Php::Heredoc => {
                HalsteadType::Operand
            },
            _ => HalsteadType::Unknown,
        }
    }

    fn get_operator_id_as_str(id: u16) -> (r: &'static str)
        ensures
            r@ == php_operator_text(id),
    {
        match Php::from_u16(id) {
            Php::LPAREN => "()",
            Php::LBRACK => "[]",
            Php::LBRACE => "{}",
            k => k.as_str(),
        }
    }
}

} // verus!
