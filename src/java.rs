use vstd::prelude::*;

use crate::getter::{field_name, name_from_field, Getter};
use crate::node::Tree;
use crate::spaces::{HalsteadType, SpaceKind};

verus! {

/// Node kinds of the Java grammar, in the grammar's own numbering.
#[derive(Clone, Copy, Debug, PartialEq, Eq, Structural)]
pub enum Java {
    End,
    Identifier,
    DecimalIntegerLiteral,
    HexIntegerLiteral,
    OctalIntegerLiteral,
    BinaryIntegerLiteral,
    DecimalFloatingPointLiteral,
    HexFloatingPointLiteral,
    True,
    False,
    CharacterLiteral,
    DQUOTE,
    DQUOTEDQUOTEDQUOTE,
    StringFragment,
    MultilineStringFragmentToken1,
    MultilineStringFragmentToken2,
    BSLASHLBRACE,
    RBRACE,
    EscapeSequenceToken1,
    EscapeSequence,
    NullLiteral,
    LPAREN,
    RPAREN,
    AMP,
    EQ,
    PLUSEQ,
    DASHEQ,
    STAREQ,
    SLASHEQ,
    AMPEQ,
    PIPEEQ,
    CARETEQ,
    PERCENTEQ,
    LTLTEQ,
    GTGTEQ,
    GTGTGTEQ,
    GT,
    LT,
    GTEQ,
    LTEQ,
    EQEQ,
    BANGEQ,
    AMPAMP,
    PIPEPIPE,
    PLUS,
    DASH,
    STAR,
    SLASH,
    PIPE,
    CARET,
    PERCENT,
    LTLT,
    GTGT,
    GTGTGT,
    Instanceof,
    FinalKw,
    DASHGT,
    COMMA,
    QMARK,
    COLON,
    BANG,
    TILDE,
    PLUSPLUS,
    DASHDASH,
    New,
    LBRACK,
    RBRACK,
    DOT,
    Class,
    COLONCOLON,
    Extends,
    Switch,
    LBRACE,
    Case,
    Default,
    UnderscorePattern,
    When,
    SEMI,
    Assert,
    Do,
    While,
    Break,
    Continue,
    Return,
    Yield,
    Synchronized,
    Throw,
    Try,
    Catch,
    Finally,
    If,
    Else,
    For,
    AT,
    Open,
    Module,
    Requires,
    Transitive,
    Static,
    Exports,
    To,
    Opens,
    Uses,
    Provides,
    With,
    Package,
    Import,
    Enum,
    Public,
    Protected,
    Private,
    Abstract,
    Strictfp,
    Native,
    Transient,
    Volatile,
    Sealed,
    NonSealed,
    Implements,
    Permits2,
    Record,
    Interface,
    Interface2,
    Byte,
    Short,
    IntKw,
    Long,
    Char,
    Float,
    Double,
    BooleanType,
    VoidType,
    DOTDOTDOT,
    Throws2,
    This,
    Super,
    LineComment,
    BlockComment,
    Program,
    ToplevelStatement,
    Literal,
    StringLiteral,
    StringLiteral2,
    MultilineStringLiteral,
    MultilineStringFragment,
    StringInterpolation,
    EscapeSequence2,
    Expression,
    CastExpression,
    AssignmentExpression,
    BinaryExpression,
    InstanceofExpression,
    LambdaExpression,
    InferredParameters,
    TernaryExpression,
    UnaryExpression,
    UpdateExpression,
    PrimaryExpression,
    ArrayCreationExpression,
    DimensionsExpr,
    ParenthesizedExpression,
    ClassLiteral,
    ObjectCreationExpression,
    UnqualifiedObjectCreationExpression,
    FieldAccess,
    TemplateExpression,
    ArrayAccess,
    MethodInvocation,
    ArgumentList,
    MethodReference,
    TypeArguments,
    Wildcard,
    WildcardBounds,
    Dimensions,
    SwitchExpression,
    SwitchBlock,
    SwitchBlockStatementGroup,
    SwitchRule,
    SwitchLabel,
    Pattern,
    TypePattern,
    RecordPattern,
    RecordPatternBody,
    RecordPatternComponent,
    Guard,
    Statement,
    Block,
    ExpressionStatement,
    LabeledStatement,
    AssertStatement,
    DoStatement,
    BreakStatement,
    ContinueStatement,
    ReturnStatement,
    YieldStatement,
    SynchronizedStatement,
    ThrowStatement,
    TryStatement,
    CatchClause,
    CatchFormalParameter,
    CatchType,
    FinallyClause,
    TryWithResourcesStatement,
    ResourceSpecification,
    Resource,
    IfStatement,
    WhileStatement,
    ForStatement,
    EnhancedForStatement,
    Annotation2,
    MarkerAnnotation,
    Annotation,
    AnnotationArgumentList,
    ElementValuePair,
    ElementValue,
    ElementValueArrayInitializer,
    Declaration,
    ModuleDeclaration,
    ModuleBody,
    ModuleDirective,
    RequiresModuleDirective,
    RequiresModifier,
    ExportsModuleDirective,
    OpensModuleDirective,
    UsesModuleDirective,
    ProvidesModuleDirective,
    PackageDeclaration,
    ImportDeclaration,
    Asterisk,
    EnumDeclaration,
    EnumBody,
    EnumBodyDeclarations,
    EnumConstant,
    ClassDeclaration,
    Modifiers,
    TypeParameters,
    TypeParameter,
    TypeBound,
    Superclass,
    SuperInterfaces,
    TypeList,
    Permits,
    ClassBody,
    StaticInitializer,
    ConstructorDeclaration,
    ConstructorDeclarator,
    ConstructorBody,
    ExplicitConstructorInvocation,
    ScopedIdentifier,
    FieldDeclaration,
    RecordDeclaration,
    AnnotationTypeDeclaration,
    AnnotationTypeBody,
    AnnotationTypeElementDeclaration,
    DefaultValue,
    InterfaceDeclaration,
    ExtendsInterfaces,
    InterfaceBody,
    ConstantDeclaration,
    VariableDeclaratorList,
    VariableDeclarator,
    VariableDeclaratorId,
    ArrayInitializer,
    Type,
    UnannotatedType,
    AnnotatedType,
    ScopedTypeIdentifier,
    GenericType,
    ArrayType,
    IntegralType,
    FloatingPointType,
    MethodHeader,
    MethodDeclarator,
    FormalParameters,
    FormalParameter,
    ReceiverParameter,
    SpreadParameter,
    Throws,
    LocalVariableDeclaration,
    MethodDeclaration,
    CompactConstructorDeclaration,
    ReservedIdentifier,
    ProgramRepeat1,
    StringLiteralRepeat1,
    MultilineStringLiteralRepeat1,
    CastExpressionRepeat1,
    InferredParametersRepeat1,
    ArrayCreationExpressionRepeat1,
    ArrayCreationExpressionRepeat2,
    ArgumentListRepeat1,
    TypeArgumentsRepeat1,
    DimensionsRepeat1,
    SwitchBlockRepeat1,
    SwitchBlockRepeat2,
    SwitchBlockStatementGroupRepeat1,
    SwitchBlockStatementGroupRepeat2,
    RecordPatternBodyRepeat1,
    TryStatementRepeat1,
    CatchTypeRepeat1,
    ResourceSpecificationRepeat1,
    ForStatementRepeat1,
    ForStatementRepeat2,
    AnnotationArgumentListRepeat1,
    ElementValueArrayInitializerRepeat1,
    ModuleBodyRepeat1,
    RequiresModuleDirectiveRepeat1,
    ExportsModuleDirectiveRepeat1,
    ProvidesModuleDirectiveRepeat1,
    EnumBodyRepeat1,
    EnumBodyDeclarationsRepeat1,
    ModifiersRepeat1,
    TypeParametersRepeat1,
    TypeBoundRepeat1,
    TypeListRepeat1,
    AnnotationTypeBodyRepeat1,
    InterfaceBodyRepeat1,
    VariableDeclaratorListRepeat1,
    ArrayInitializerRepeat1,
    FormalParametersRepeat1,
    ReceiverParameterRepeat1,
    TypeIdentifier,
    Error,
}

impl Java {
    /// The grammar's numeric id of this kind.
    pub open spec fn id(self) -> u16 {
        match self {
            Java::End => 0,
            Java::Identifier => 1,
            Java::DecimalIntegerLiteral => 2,
            Java::HexIntegerLiteral => 3,
            Java::OctalIntegerLiteral => 4,
            Java::BinaryIntegerLiteral => 5,
            Java::DecimalFloatingPointLiteral => 6,
            Java::HexFloatingPointLiteral => 7,
            Java::True => 8,
            Java::False => 9,
            Java::CharacterLiteral => 10,
            Java::DQUOTE => 11,
            Java::DQUOTEDQUOTEDQUOTE => 12,
            Java::StringFragment => 13,
            Java::MultilineStringFragmentToken1 => 14,
            Java::MultilineStringFragmentToken2 => 15,
            Java::BSLASHLBRACE => 16,
            Java::RBRACE => 17,
            Java::EscapeSequenceToken1 => 18,
            Java::EscapeSequence => 19,
            Java::NullLiteral => 20,
            Java::LPAREN => 21,
            Java::RPAREN => 22,
            Java::AMP => 23,
            Java::EQ => 24,
            Java::PLUSEQ => 25,
            Java::DASHEQ => 26,
            Java::STAREQ => 27,
            Java::SLASHEQ => 28,
            Java::AMPEQ => 29,
            Java::PIPEEQ => 30,
            Java::CARETEQ => 31,
            Java::PERCENTEQ => 32,
            Java::LTLTEQ => 33,
            Java::GTGTEQ => 34,
            Java::GTGTGTEQ => 35,
            Java::GT => 36,
            Java::LT => 37,
            Java::GTEQ => 38,
            Java::LTEQ => 39,
            Java::EQEQ => 40,
            Java::BANGEQ => 41,
            Java::AMPAMP => 42,
            Java::PIPEPIPE => 43,
            Java::PLUS => 44,
            Java::DASH => 45,
            Java::STAR => 46,
            Java::SLASH => 47,
            Java::PIPE => 48,
            Java::CARET => 49,
            Java::PERCENT => 50,
            Java::LTLT => 51,
            Java::GTGT => 52,
            Java::GTGTGT => 53,
            Java::Instanceof => 54,
            Java::FinalKw => 55,
            Java::DASHGT => 56,
            Java::COMMA => 57,
            Java::QMARK => 58,
            Java::COLON => 59,
            Java::BANG => 60,
            Java::TILDE => 61,
            Java::PLUSPLUS => 62,
            Java::DASHDASH => 63,
            Java::New => 64,
            Java::LBRACK => 65,
            Java::RBRACK => 66,
            Java::DOT => 67,
            Java::Class => 68,
            Java::COLONCOLON => 69,
            Java::Extends => 70,
            Java::Switch => 71,
            Java::LBRACE => 72,
            Java::Case => 73,
            Java::Default => 74,
            Java::UnderscorePattern => 75,
            Java::When => 76,
            Java::SEMI => 77,
            Java::Assert => 78,
            Java::Do => 79,
            Java::While => 80,
            Java::Break => 81,
            Java::Continue => 82,
            Java::Return => 83,
            Java::Yield => 84,
            Java::Synchronized => 85,
            Java::Throw => 86,
            Java::Try => 87,
            Java::Catch => 88,
            Java::Finally => 89,
            Java::If => 90,
            Java::Else => 91,
            Java::For => 92,
            Java::AT => 93,
            Java::Open => 94,
            Java::Module => 95,
            Java::Requires => 96,
            Java::Transitive => 97,
            Java::Static => 98,
            Java::Exports => 99,
            Java::To => 100,
            Java::Opens => 101,
            Java::Uses => 102,
            Java::Provides => 103,
            Java::With => 104,
            Java::Package => 105,
            Java::Import => 106,
            Java::Enum => 107,
            Java::Public => 108,
            Java::Protected => 109,
            Java::Private => 110,
            Java::Abstract => 111,
            Java::Strictfp => 112,
            Java::Native => 113,
            Java::Transient => 114,
            Java::Volatile => 115,
            Java::Sealed => 116,
            Java::NonSealed => 117,
            Java::Implements => 118,
            Java::Permits2 => 119,
            Java::Record => 120,
            Java::Interface => 121,
            Java::Interface2 => 122,
            Java::Byte => 123,
            Java::Short => 124,
            Java::IntKw => 125,
            Java::Long => 126,
            Java::Char => 127,
            Java::Float => 128,
            Java::Double => 129,
            Java::BooleanType => 130,
            Java::VoidType => 131,
            Java::DOTDOTDOT => 132,
            Java::Throws2 => 133,
            Java::This => 134,
            Java::Super => 135,
            Java::LineComment => 136,
            Java::BlockComment => 137,
            Java::Program => 138,
            Java::ToplevelStatement => 139,
            Java::Literal => 140,
            Java::StringLiteral => 141,
            Java::StringLiteral2 => 142,
            Java::MultilineStringLiteral => 143,
            Java::MultilineStringFragment => 144,
            Java::StringInterpolation => 145,
            Java::EscapeSequence2 => 146,
            Java::Expression => 147,
            Java::CastExpression => 148,
            Java::AssignmentExpression => 149,
            Java::BinaryExpression => 150,
            Java::InstanceofExpression => 151,
            Java::LambdaExpression => 152,
            Java::InferredParameters => 153,
            Java::TernaryExpression => 154,
            Java::UnaryExpression => 155,
            Java::UpdateExpression => 156,
            Java::PrimaryExpression => 157,
            Java::ArrayCreationExpression => 158,
            Java::DimensionsExpr => 159,
            Java::ParenthesizedExpression => 160,
            Java::ClassLiteral => 161,
            Java::ObjectCreationExpression => 162,
            Java::UnqualifiedObjectCreationExpression => 163,
            Java::FieldAccess => 164,
            Java::TemplateExpression => 165,
            Java::ArrayAccess => 166,
            Java::MethodInvocation => 167,
            Java::ArgumentList => 168,
            Java::MethodReference => 169,
            Java::TypeArguments => 170,
            Java::Wildcard => 171,
            Java::WildcardBounds => 172,
            Java::Dimensions => 173,
            Java::SwitchExpression => 174,
            Java::SwitchBlock => 175,
            Java::SwitchBlockStatementGroup => 176,
            Java::SwitchRule => 177,
            Java::SwitchLabel => 178,
            Java::Pattern => 179,
            Java::TypePattern => 180,
            Java::RecordPattern => 181,
            Java::RecordPatternBody => 182,
            Java::RecordPatternComponent => 183,
            Java::Guard => 184,
            Java::Statement => 185,
            Java::Block => 186,
            Java::ExpressionStatement => 187,
            Java::LabeledStatement => 188,
            Java::AssertStatement => 189,
            Java::DoStatement => 190,
            Java::BreakStatement => 191,
            Java::ContinueStatement => 192,
            Java::ReturnStatement => 193,
            Java::YieldStatement => 194,
            Java::SynchronizedStatement => 195,
            Java::ThrowStatement => 196,
            Java::TryStatement => 197,
            Java::CatchClause => 198,
            Java::CatchFormalParameter => 199,
            Java::CatchType => 200,
            Java::FinallyClause => 201,
            Java::TryWithResourcesStatement => 202,
            Java::ResourceSpecification => 203,
            Java::Resource => 204,
            Java::IfStatement => 205,
            Java::WhileStatement => 206,
            Java::ForStatement => 207,
            Java::EnhancedForStatement => 208,
            Java::Annotation2 => 209,
            Java::MarkerAnnotation => 210,
            Java::Annotation => 211,
            Java::AnnotationArgumentList => 212,
            Java::ElementValuePair => 213,
            Java::ElementValue => 214,
            Java::ElementValueArrayInitializer => 215,
            Java::Declaration => 216,
            Java::ModuleDeclaration => 217,
            Java::ModuleBody => 218,
            Java::ModuleDirective => 219,
            Java::RequiresModuleDirective => 220,
            Java::RequiresModifier => 221,
            Java::ExportsModuleDirective => 222,
            Java::OpensModuleDirective => 223,
            Java::UsesModuleDirective => 224,
            Java::ProvidesModuleDirective => 225,
            Java::PackageDeclaration => 226,
            Java::ImportDeclaration => 227,
            Java::Asterisk => 228,
            Java::EnumDeclaration => 229,
            Java::EnumBody => 230,
            Java::EnumBodyDeclarations => 231,
            Java::EnumConstant => 232,
            Java::ClassDeclaration => 233,
            Java::Modifiers => 234,
            Java::TypeParameters => 235,
            Java::TypeParameter => 236,
            Java::TypeBound => 237,
            Java::Superclass => 238,
            Java::SuperInterfaces => 239,
            Java::TypeList => 240,
            Java::Permits => 241,
            Java::ClassBody => 242,
            Java::StaticInitializer => 243,
            Java::ConstructorDeclaration => 244,
            Java::ConstructorDeclarator => 245,
            Java::ConstructorBody => 246,
            Java::ExplicitConstructorInvocation => 247,
            Java::ScopedIdentifier => 248,
            Java::FieldDeclaration => 249,
            Java::RecordDeclaration => 250,
            Java::AnnotationTypeDeclaration => 251,
            Java::AnnotationTypeBody => 252,
            Java::AnnotationTypeElementDeclaration => 253,
            Java::DefaultValue => 254,
            Java::InterfaceDeclaration => 255,
            Java::ExtendsInterfaces => 256,
            Java::InterfaceBody => 257,
            Java::ConstantDeclaration => 258,
            Java::VariableDeclaratorList => 259,
            Java::VariableDeclarator => 260,
            Java::VariableDeclaratorId => 261,
            Java::ArrayInitializer => 262,
            Java::Type => 263,
            Java::UnannotatedType => 264,
            Java::AnnotatedType => 265,
            Java::ScopedTypeIdentifier => 266,
            Java::GenericType => 267,
            Java::ArrayType => 268,
            Java::IntegralType => 269,
            Java::FloatingPointType => 270,
            Java::MethodHeader => 271,
            Java::MethodDeclarator => 272,
            Java::FormalParameters => 273,
            Java::FormalParameter => 274,
            Java::ReceiverParameter => 275,
            Java::SpreadParameter => 276,
            Java::Throws => 277,
            Java::LocalVariableDeclaration => 278,
            Java::MethodDeclaration => 279,
            Java::CompactConstructorDeclaration => 280,
            Java::ReservedIdentifier => 281,
            Java::ProgramRepeat1 => 282,
            Java::StringLiteralRepeat1 => 283,
            Java::MultilineStringLiteralRepeat1 => 284,
            Java::CastExpressionRepeat1 => 285,
            Java::InferredParametersRepeat1 => 286,
            Java::ArrayCreationExpressionRepeat1 => 287,
            Java::ArrayCreationExpressionRepeat2 => 288,
            Java::ArgumentListRepeat1 => 289,
            Java::TypeArgumentsRepeat1 => 290,
            Java::DimensionsRepeat1 => 291,
            Java::SwitchBlockRepeat1 => 292,
            Java::SwitchBlockRepeat2 => 293,
            Java::SwitchBlockStatementGroupRepeat1 => 294,
            Java::SwitchBlockStatementGroupRepeat2 => 295,
            Java::RecordPatternBodyRepeat1 => 296,
            Java::TryStatementRepeat1 => 297,
            Java::CatchTypeRepeat1 => 298,
            Java::ResourceSpecificationRepeat1 => 299,
            Java::ForStatementRepeat1 => 300,
            Java::ForStatementRepeat2 => 301,
            Java::AnnotationArgumentListRepeat1 => 302,
            Java::ElementValueArrayInitializerRepeat1 => 303,
            Java::ModuleBodyRepeat1 => 304,
            Java::RequiresModuleDirectiveRepeat1 => 305,
            Java::ExportsModuleDirectiveRepeat1 => 306,
            Java::ProvidesModuleDirectiveRepeat1 => 307,
            Java::EnumBodyRepeat1 => 308,
            Java::EnumBodyDeclarationsRepeat1 => 309,
            Java::ModifiersRepeat1 => 310,
            Java::TypeParametersRepeat1 => 311,
            Java::TypeBoundRepeat1 => 312,
            Java::TypeListRepeat1 => 313,
            Java::AnnotationTypeBodyRepeat1 => 314,
            Java::InterfaceBodyRepeat1 => 315,
            Java::VariableDeclaratorListRepeat1 => 316,
            Java::ArrayInitializerRepeat1 => 317,
            Java::FormalParametersRepeat1 => 318,
            Java::ReceiverParameterRepeat1 => 319,
            Java::TypeIdentifier => 320,
            Java::Error => 321,
        }
    }

    /// The kind that a numeric id stands for: ids past the table give `Error`.
    pub open spec fn spec_from_id(x: u16) -> Java {
        match x {
            0 => Java::End,
            1 => Java::Identifier,
            2 => Java::DecimalIntegerLiteral,
            3 => Java::HexIntegerLiteral,
            4 => Java::OctalIntegerLiteral,
            5 => Java::BinaryIntegerLiteral,
            6 => Java::DecimalFloatingPointLiteral,
            7 => Java::HexFloatingPointLiteral,
            8 => Java::True,
            9 => Java::False,
            10 => Java::CharacterLiteral,
            11 => Java::DQUOTE,
            12 => Java::DQUOTEDQUOTEDQUOTE,
            13 => Java::StringFragment,
            14 => Java::MultilineStringFragmentToken1,
            15 => Java::MultilineStringFragmentToken2,
            16 => Java::BSLASHLBRACE,
            17 => Java::RBRACE,
            18 => Java::EscapeSequenceToken1,
            19 => Java::EscapeSequence,
            20 => Java::NullLiteral,
            21 => Java::LPAREN,
            22 => Java::RPAREN,
            23 => Java::AMP,
            24 => Java::EQ,
            25 => Java::PLUSEQ,
            26 => Java::DASHEQ,
            27 => Java::STAREQ,
            28 => Java::SLASHEQ,
            29 => Java::AMPEQ,
            30 => Java::PIPEEQ,
            31 => Java::CARETEQ,
            32 => Java::PERCENTEQ,
            33 => Java::LTLTEQ,
            34 => Java::GTGTEQ,
            35 => Java::GTGTGTEQ,
            36 => Java::GT,
            37 => Java::LT,
            38 => Java::GTEQ,
            39 => Java::LTEQ,
            40 => Java::EQEQ,
            41 => Java::BANGEQ,
            42 => Java::AMPAMP,
            43 => Java::PIPEPIPE,
            44 => Java::PLUS,
            45 => Java::DASH,
            46 => Java::STAR,
            47 => Java::SLASH,
            48 => Java::PIPE,
            49 => Java::CARET,
            50 => Java::PERCENT,
            51 => Java::LTLT,
            52 => Java::GTGT,
            53 => Java::GTGTGT,
            54 => Java::Instanceof,
            55 => Java::FinalKw,
            56 => Java::DASHGT,
            57 => Java::COMMA,
            58 => Java::QMARK,
            59 => Java::COLON,
            60 => Java::BANG,
            61 => Java::TILDE,
            62 => Java::PLUSPLUS,
            63 => Java::DASHDASH,
            64 => Java::New,
            65 => Java::LBRACK,
            66 => Java::RBRACK,
            67 => Java::DOT,
            68 => Java::Class,
            69 => Java::COLONCOLON,
            70 => Java::Extends,
            71 => Java::Switch,
            72 => Java::LBRACE,
            73 => Java::Case,
            74 => Java::Default,
            75 => Java::UnderscorePattern,
            76 => Java::When,
            77 => Java::SEMI,
            78 => Java::Assert,
            79 => Java::Do,
            80 => Java::While,
            81 => Java::Break,
            82 => Java::Continue,
            83 => Java::Return,
            84 => Java::Yield,
            85 => Java::Synchronized,
            86 => Java::Throw,
            87 => Java::Try,
            88 => Java::Catch,
            89 => Java::Finally,
            90 => Java::If,
            91 => Java::Else,
            92 => Java::For,
            93 => Java::AT,
            94 => Java::Open,
            95 => Java::Module,
            96 => Java::Requires,
            97 => Java::Transitive,
            98 => Java::Static,
            99 => Java::Exports,
            100 => Java::To,
            101 => Java::Opens,
            102 => Java::Uses,
            103 => Java::Provides,
            104 => Java::With,
            105 => Java::Package,
            106 => Java::Import,
            107 => Java::Enum,
            108 => Java::Public,
            109 => Java::Protected,
            110 => Java::Private,
            111 => Java::Abstract,
            112 => Java::Strictfp,
            113 => Java::Native,
            114 => Java::Transient,
            115 => Java::Volatile,
            116 => Java::Sealed,
            117 => Java::NonSealed,
            118 => Java::Implements,
            119 => Java::Permits2,
            120 => Java::Record,
            121 => Java::Interface,
            122 => Java::Interface2,
            123 => Java::Byte,
            124 => Java::Short,
            125 => Java::IntKw,
            126 => Java::Long,
            127 => Java::Char,
            128 => Java::Float,
            129 => Java::Double,
            130 => Java::BooleanType,
            131 => Java::VoidType,
            132 => Java::DOTDOTDOT,
            133 => Java::Throws2,
            134 => Java::This,
            135 => Java::Super,
            136 => Java::LineComment,
            137 => Java::BlockComment,
            138 => Java::Program,
            139 => Java::ToplevelStatement,
            140 => Java::Literal,
            141 => Java::StringLiteral,
            142 => Java::StringLiteral2,
            143 => Java::MultilineStringLiteral,
            144 => Java::MultilineStringFragment,
            145 => Java::StringInterpolation,
            146 => Java::EscapeSequence2,
            147 => Java::Expression,
            148 => Java::CastExpression,
            149 => Java::AssignmentExpression,
            150 => Java::BinaryExpression,
            151 => Java::InstanceofExpression,
            152 => Java::LambdaExpression,
            153 => Java::InferredParameters,
            154 => Java::TernaryExpression,
            155 => Java::UnaryExpression,
            156 => Java::UpdateExpression,
            157 => Java::PrimaryExpression,
            158 => Java::ArrayCreationExpression,
            159 => Java::DimensionsExpr,
            160 => Java::ParenthesizedExpression,
            161 => Java::ClassLiteral,
            162 => Java::ObjectCreationExpression,
            163 => Java::UnqualifiedObjectCreationExpression,
            164 => Java::FieldAccess,
            165 => Java::TemplateExpression,
            166 => Java::ArrayAccess,
            167 => Java::MethodInvocation,
            168 => Java::ArgumentList,
            169 => Java::MethodReference,
            170 => Java::TypeArguments,
            171 => Java::Wildcard,
            172 => Java::WildcardBounds,
            173 => Java::Dimensions,
            174 => Java::SwitchExpression,
            175 => Java::SwitchBlock,
            176 => Java::SwitchBlockStatementGroup,
            177 => Java::SwitchRule,
            178 => Java::SwitchLabel,
            179 => Java::Pattern,
            180 => Java::TypePattern,
            181 => Java::RecordPattern,
            182 => Java::RecordPatternBody,
            183 => Java::RecordPatternComponent,
            184 => Java::Guard,
            185 => Java::Statement,
            186 => Java::Block,
            187 => Java::ExpressionStatement,
            188 => Java::LabeledStatement,
            189 => Java::AssertStatement,
            190 => Java::DoStatement,
            191 => Java::BreakStatement,
            192 => Java::ContinueStatement,
            193 => Java::ReturnStatement,
            194 => Java::YieldStatement,
            195 => Java::SynchronizedStatement,
            196 => Java::ThrowStatement,
            197 => Java::TryStatement,
            198 => Java::CatchClause,
            199 => Java::CatchFormalParameter,
            200 => Java::CatchType,
            201 => Java::FinallyClause,
            202 => Java::TryWithResourcesStatement,
            203 => Java::ResourceSpecification,
            204 => Java::Resource,
            205 => Java::IfStatement,
            206 => Java::WhileStatement,
            207 => Java::ForStatement,
            208 => Java::EnhancedForStatement,
            209 => Java::Annotation2,
            210 => Java::MarkerAnnotation,
            211 => Java::Annotation,
            212 => Java::AnnotationArgumentList,
            213 => Java::ElementValuePair,
            214 => Java::ElementValue,
            215 => Java::ElementValueArrayInitializer,
            216 => Java::Declaration,
            217 => Java::ModuleDeclaration,
            218 => Java::ModuleBody,
            219 => Java::ModuleDirective,
            220 => Java::RequiresModuleDirective,
            221 => Java::RequiresModifier,
            222 => Java::ExportsModuleDirective,
            223 => Java::OpensModuleDirective,
            224 => Java::UsesModuleDirective,
            225 => Java::ProvidesModuleDirective,
            226 => Java::PackageDeclaration,
            227 => Java::ImportDeclaration,
            228 => Java::Asterisk,
            229 => Java::EnumDeclaration,
            230 => Java::EnumBody,
            231 => Java::EnumBodyDeclarations,
            232 => Java::EnumConstant,
            233 => Java::ClassDeclaration,
            234 => Java::Modifiers,
            235 => Java::TypeParameters,
            236 => Java::TypeParameter,
            237 => Java::TypeBound,
            238 => Java::Superclass,
            239 => Java::SuperInterfaces,
            240 => Java::TypeList,
            241 => Java::Permits,
            242 => Java::ClassBody,
            243 => Java::StaticInitializer,
            244 => Java::ConstructorDeclaration,
            245 => Java::ConstructorDeclarator,
            246 => Java::ConstructorBody,
            247 => Java::ExplicitConstructorInvocation,
            248 => Java::ScopedIdentifier,
            249 => Java::FieldDeclaration,
            250 => Java::RecordDeclaration,
            251 => Java::AnnotationTypeDeclaration,
            252 => Java::AnnotationTypeBody,
            253 => Java::AnnotationTypeElementDeclaration,
            254 => Java::DefaultValue,
            255 => Java::InterfaceDeclaration,
            256 => Java::ExtendsInterfaces,
            257 => Java::InterfaceBody,
            258 => Java::ConstantDeclaration,
            259 => Java::VariableDeclaratorList,
            260 => Java::VariableDeclarator,
            261 => Java::VariableDeclaratorId,
            262 => Java::ArrayInitializer,
            263 => Java::Type,
            264 => Java::UnannotatedType,
            265 => Java::AnnotatedType,
            266 => Java::ScopedTypeIdentifier,
            267 => Java::GenericType,
            268 => Java::ArrayType,
            269 => Java::IntegralType,
            270 => Java::FloatingPointType,
            271 => Java::MethodHeader,
            272 => Java::MethodDeclarator,
            273 => Java::FormalParameters,
            274 => Java::FormalParameter,
            275 => Java::ReceiverParameter,
            276 => Java::SpreadParameter,
            277 => Java::Throws,
            278 => Java::LocalVariableDeclaration,
            279 => Java::MethodDeclaration,
            280 => Java::CompactConstructorDeclaration,
            281 => Java::ReservedIdentifier,
            282 => Java::ProgramRepeat1,
            283 => Java::StringLiteralRepeat1,
            284 => Java::MultilineStringLiteralRepeat1,
            285 => Java::CastExpressionRepeat1,
            286 => Java::InferredParametersRepeat1,
            287 => Java::ArrayCreationExpressionRepeat1,
            288 => Java::ArrayCreationExpressionRepeat2,
            289 => Java::ArgumentListRepeat1,
            290 => Java::TypeArgumentsRepeat1,
            291 => Java::DimensionsRepeat1,
            292 => Java::SwitchBlockRepeat1,
            293 => Java::SwitchBlockRepeat2,
            294 => Java::SwitchBlockStatementGroupRepeat1,
            295 => Java::SwitchBlockStatementGroupRepeat2,
            296 => Java::RecordPatternBodyRepeat1,
            297 => Java::TryStatementRepeat1,
            298 => Java::CatchTypeRepeat1,
            299 => Java::ResourceSpecificationRepeat1,
            300 => Java::ForStatementRepeat1,
            301 => Java::ForStatementRepeat2,
            302 => Java::AnnotationArgumentListRepeat1,
            303 => Java::ElementValueArrayInitializerRepeat1,
            304 => Java::ModuleBodyRepeat1,
            305 => Java::RequiresModuleDirectiveRepeat1,
            306 => Java::ExportsModuleDirectiveRepeat1,
            307 => Java::ProvidesModuleDirectiveRepeat1,
            308 => Java::EnumBodyRepeat1,
            309 => Java::EnumBodyDeclarationsRepeat1,
            310 => Java::ModifiersRepeat1,
            311 => Java::TypeParametersRepeat1,
            312 => Java::TypeBoundRepeat1,
            313 => Java::TypeListRepeat1,
            314 => Java::AnnotationTypeBodyRepeat1,
            315 => Java::InterfaceBodyRepeat1,
            316 => Java::VariableDeclaratorListRepeat1,
            317 => Java::ArrayInitializerRepeat1,
            318 => Java::FormalParametersRepeat1,
            319 => Java::ReceiverParameterRepeat1,
            320 => Java::TypeIdentifier,
            _ => Java::Error,
        }
    }

    /// The display string of this kind.
    pub open spec fn text(self) -> Seq<char> {
        match self {
            Java::End => "end"@,
            Java::Identifier => "identifier"@,
            Java::DecimalIntegerLiteral => "decimal_integer_literal"@,
            Java::HexIntegerLiteral => "hex_integer_literal"@,
            Java::OctalIntegerLiteral => "octal_integer_literal"@,
            Java::BinaryIntegerLiteral => "binary_integer_literal"@,
            Java::DecimalFloatingPointLiteral => "decimal_floating_point_literal"@,
            Java::HexFloatingPointLiteral => "hex_floating_point_literal"@,
            Java::True => "true"@,
            Java::False => "false"@,
            Java::CharacterLiteral => "character_literal"@,
            Java::DQUOTE => "\""@,
            Java::DQUOTEDQUOTEDQUOTE => "\"\"\""@,
            Java::StringFragment => "string_fragment"@,
            Java::MultilineStringFragmentToken1 => "_multiline_string_fragment_token1"@,
            Java::MultilineStringFragmentToken2 => "_multiline_string_fragment_token2"@,
            Java::BSLASHLBRACE => "\\{"@,
            Java::RBRACE => "}"@,
            Java::EscapeSequenceToken1 => "_escape_sequence_token1"@,
            Java::EscapeSequence => "escape_sequence"@,
            Java::NullLiteral => "null_literal"@,
            Java::LPAREN => "("@,
            Java::RPAREN => ")"@,
            Java::AMP => "&"@,
            Java::EQ => "="@,
            Java::PLUSEQ => "+="@,
            Java::DASHEQ => "-="@,
            Java::STAREQ => "*="@,
            Java::SLASHEQ => "/="@,
            Java::AMPEQ => "&="@,
            Java::PIPEEQ => "|="@,
            Java::CARETEQ => "^="@,
            Java::PERCENTEQ => "%="@,
            Java::LTLTEQ => "<<="@,
            Java::GTGTEQ => ">>="@,
            Java::GTGTGTEQ => ">>>="@,
            Java::GT => ">"@,
            Java::LT => "<"@,
            Java::GTEQ => ">="@,
            Java::LTEQ => "<="@,
            Java::EQEQ => "=="@,
            Java::BANGEQ => "!="@,
            Java::AMPAMP => "&&"@,
            Java::PIPEPIPE => "||"@,
            Java::PLUS => "+"@,
            Java::DASH => "-"@,
            Java::STAR => "*"@,
            Java::SLASH => "/"@,
            Java::PIPE => "|"@,
            Java::CARET => "^"@,
            Java::PERCENT => "%"@,
            Java::LTLT => "<<"@,
            Java::GTGT => ">>"@,
            Java::GTGTGT => ">>>"@,
            Java::Instanceof => "instanceof"@,
            Java::FinalKw => "final"@,
            Java::DASHGT => "->"@,
            Java::COMMA => ","@,
            Java::QMARK => "?"@,
            Java::COLON => ":"@,
            Java::BANG => "!"@,
            Java::TILDE => "~"@,
            Java::PLUSPLUS => "++"@,
            Java::DASHDASH => "--"@,
            Java::New => "new"@,
            Java::LBRACK => "["@,
            Java::RBRACK => "]"@,
            Java::DOT => "."@,
            Java::Class => "class"@,
            Java::COLONCOLON => "::"@,
            Java::Extends => "extends"@,
            Java::Switch => "switch"@,
            Java::LBRACE => "{"@,
            Java::Case => "case"@,
            Java::Default => "default"@,
            Java::UnderscorePattern => "underscore_pattern"@,
            Java::When => "when"@,
            Java::SEMI => ";"@,
            Java::Assert => "assert"@,
            Java::Do => "do"@,
            Java::While => "while"@,
            Java::Break => "break"@,
            Java::Continue => "continue"@,
            Java::Return => "return"@,
            Java::Yield => "yield"@,
            Java::Synchronized => "synchronized"@,
            Java::Throw => "throw"@,
            Java::Try => "try"@,
            Java::Catch => "catch"@,
            Java::Finally => "finally"@,
            Java::If => "if"@,
            Java::Else => "else"@,
            Java::For => "for"@,
            Java::AT => "@"@,
            Java::Open => "open"@,
            Java::Module => "module"@,
            Java::Requires => "requires"@,
            Java::Transitive => "transitive"@,
            Java::Static => "static"@,
            Java::Exports => "exports"@,
            Java::To => "to"@,
            Java::Opens => "opens"@,
            Java::Uses => "uses"@,
            Java::Provides => "provides"@,
            Java::With => "with"@,
            Java::Package => "package"@,
            Java::Import => "import"@,
            Java::Enum => "enum"@,
            Java::Public => "public"@,
            Java::Protected => "protected"@,
            Java::Private => "private"@,
            Java::Abstract => "abstract"@,
            Java::Strictfp => "strictfp"@,
            Java::Native => "native"@,
            Java::Transient => "transient"@,
            Java::Volatile => "volatile"@,
            Java::Sealed => "sealed"@,
            Java::NonSealed => "non-sealed"@,
            Java::Implements => "implements"@,
            Java::Permits2 => "permits"@,
            Java::Record => "record"@,
            Java::Interface => "@interface"@,
            Java::Interface2 => "interface"@,
            Java::Byte => "byte"@,
            Java::Short => "short"@,
            Java::IntKw => "int"@,
            Java::Long => "long"@,
            Java::Char => "char"@,
            Java::Float => "float"@,
            Java::Double => "double"@,
            Java::BooleanType => "boolean_type"@,
            Java::VoidType => "void_type"@,
            Java::DOTDOTDOT => "..."@,
            Java::Throws2 => "throws"@,
            Java::This => "this"@,
            Java::Super => "super"@,
            Java::LineComment => "line_comment"@,
            Java::BlockComment => "block_comment"@,
            Java::Program => "program"@,
            Java::ToplevelStatement => "_toplevel_statement"@,
            Java::Literal => "_literal"@,
            Java::StringLiteral => "string_literal"@,
            Java::StringLiteral2 => "_string_literal"@,
            Java::MultilineStringLiteral => "_multiline_string_literal"@,
            Java::MultilineStringFragment => "multiline_string_fragment"@,
            Java::StringInterpolation => "string_interpolation"@,
            Java::EscapeSequence2 => "_escape_sequence"@,
            Java::Expression => "expression"@,
            Java::CastExpression => "cast_expression"@,
            Java::AssignmentExpression => "assignment_expression"@,
            Java::BinaryExpression => "binary_expression"@,
            Java::InstanceofExpression => "instanceof_expression"@,
            Java::LambdaExpression => "lambda_expression"@,
            Java::InferredParameters => "inferred_parameters"@,
            Java::TernaryExpression => "ternary_expression"@,
            Java::UnaryExpression => "unary_expression"@,
            Java::UpdateExpression => "update_expression"@,
            Java::PrimaryExpression => "primary_expression"@,
            Java::ArrayCreationExpression => "array_creation_expression"@,
            Java::DimensionsExpr => "dimensions_expr"@,
            Java::ParenthesizedExpression => "parenthesized_expression"@,
            Java::ClassLiteral => "class_literal"@,
            Java::ObjectCreationExpression => "object_creation_expression"@,
            Java::UnqualifiedObjectCreationExpression => "_unqualified_object_creation_expression"@,
            Java::FieldAccess => "field_access"@,
            Java::TemplateExpression => "template_expression"@,
            Java::ArrayAccess => "array_access"@,
            Java::MethodInvocation => "method_invocation"@,
            Java::ArgumentList => "argument_list"@,
            Java::MethodReference => "method_reference"@,
            Java::TypeArguments => "type_arguments"@,
            Java::Wildcard => "wildcard"@,
            Java::WildcardBounds => "_wildcard_bounds"@,
            Java::Dimensions => "dimensions"@,
            Java::SwitchExpression => "switch_expression"@,
            Java::SwitchBlock => "switch_block"@,
            Java::SwitchBlockStatementGroup => "switch_block_statement_group"@,
            Java::SwitchRule => "switch_rule"@,
            Java::SwitchLabel => "switch_label"@,
            Java::Pattern => "pattern"@,
            Java::TypePattern => "type_pattern"@,
            Java::RecordPattern => "record_pattern"@,
            Java::RecordPatternBody => "record_pattern_body"@,
            Java::RecordPatternComponent => "record_pattern_component"@,
            Java::Guard => "guard"@,
            Java::Statement => "statement"@,
            Java::Block => "block"@,
            Java::ExpressionStatement => "expression_statement"@,
            Java::LabeledStatement => "labeled_statement"@,
            Java::AssertStatement => "assert_statement"@,
            Java::DoStatement => "do_statement"@,
            Java::BreakStatement => "break_statement"@,
            Java::ContinueStatement => "continue_statement"@,
            Java::ReturnStatement => "return_statement"@,
            Java::YieldStatement => "yield_statement"@,
            Java::SynchronizedStatement => "synchronized_statement"@,
            Java::ThrowStatement => "throw_statement"@,
            Java::TryStatement => "try_statement"@,
            Java::CatchClause => "catch_clause"@,
            Java::CatchFormalParameter => "catch_formal_parameter"@,
            Java::CatchType => "catch_type"@,
            Java::FinallyClause => "finally_clause"@,
            Java::TryWithResourcesStatement => "try_with_resources_statement"@,
            Java::ResourceSpecification => "resource_specification"@,
            Java::Resource => "resource"@,
            Java::IfStatement => "if_statement"@,
            Java::WhileStatement => "while_statement"@,
            Java::ForStatement => "for_statement"@,
            Java::EnhancedForStatement => "enhanced_for_statement"@,
            Java::Annotation2 => "_annotation"@,
            Java::MarkerAnnotation => "marker_annotation"@,
            Java::Annotation => "annotation"@,
            Java::AnnotationArgumentList => "annotation_argument_list"@,
            Java::ElementValuePair => "element_value_pair"@,
            Java::ElementValue => "_element_value"@,
            Java::ElementValueArrayInitializer => "element_value_array_initializer"@,
            Java::Declaration => "declaration"@,
            Java::ModuleDeclaration => "module_declaration"@,
            Java::ModuleBody => "module_body"@,
            Java::ModuleDirective => "module_directive"@,
            Java::RequiresModuleDirective => "requires_module_directive"@,
            Java::RequiresModifier => "requires_modifier"@,
            Java::ExportsModuleDirective => "exports_module_directive"@,
            Java::OpensModuleDirective => "opens_module_directive"@,
            Java::UsesModuleDirective => "uses_module_directive"@,
            Java::ProvidesModuleDirective => "provides_module_directive"@,
            Java::PackageDeclaration => "package_declaration"@,
            Java::ImportDeclaration => "import_declaration"@,
            Java::Asterisk => "asterisk"@,
            Java::EnumDeclaration => "enum_declaration"@,
            Java::EnumBody => "enum_body"@,
            Java::EnumBodyDeclarations => "enum_body_declarations"@,
            Java::EnumConstant => "enum_constant"@,
            Java::ClassDeclaration => "class_declaration"@,
            Java::Modifiers => "modifiers"@,
            Java::TypeParameters => "type_parameters"@,
            Java::TypeParameter => "type_parameter"@,
            Java::TypeBound => "type_bound"@,
            Java::Superclass => "superclass"@,
            Java::SuperInterfaces => "super_interfaces"@,
            Java::TypeList => "type_list"@,
            Java::Permits => "permits"@,
            Java::ClassBody => "class_body"@,
            Java::StaticInitializer => "static_initializer"@,
            Java::ConstructorDeclaration => "constructor_declaration"@,
            Java::ConstructorDeclarator => "_constructor_declarator"@,
            Java::ConstructorBody => "constructor_body"@,
            Java::ExplicitConstructorInvocation => "explicit_constructor_invocation"@,
            Java::ScopedIdentifier => "scoped_identifier"@,
            Java::FieldDeclaration => "field_declaration"@,
            Java::RecordDeclaration => "record_declaration"@,
            Java::AnnotationTypeDeclaration => "annotation_type_declaration"@,
            Java::AnnotationTypeBody => "annotation_type_body"@,
            Java::AnnotationTypeElementDeclaration => "annotation_type_element_declaration"@,
            Java::DefaultValue => "_default_value"@,
            Java::InterfaceDeclaration => "interface_declaration"@,
            Java::ExtendsInterfaces => "extends_interfaces"@,
            Java::InterfaceBody => "interface_body"@,
            Java::ConstantDeclaration => "constant_declaration"@,
            Java::VariableDeclaratorList => "_variable_declarator_list"@,
            Java::VariableDeclarator => "variable_declarator"@,
            Java::VariableDeclaratorId => "_variable_declarator_id"@,
            Java::ArrayInitializer => "array_initializer"@,
            Java::Type => "_type"@,
            Java::UnannotatedType => "_unannotated_type"@,
            Java::AnnotatedType => "annotated_type"@,
            Java::ScopedTypeIdentifier => "scoped_type_identifier"@,
            Java::GenericType => "generic_type"@,
            Java::ArrayType => "array_type"@,
            Java::IntegralType => "integral_type"@,
            Java::FloatingPointType => "floating_point_type"@,
            Java::MethodHeader => "_method_header"@,
            Java::MethodDeclarator => "_method_declarator"@,
            Java::FormalParameters => "formal_parameters"@,
            Java::FormalParameter => "formal_parameter"@,
            Java::ReceiverParameter => "receiver_parameter"@,
            Java::SpreadParameter => "spread_parameter"@,
            Java::Throws => "throws"@,
            Java::LocalVariableDeclaration => "local_variable_declaration"@,
            Java::MethodDeclaration => "method_declaration"@,
            Java::CompactConstructorDeclaration => "compact_constructor_declaration"@,
            Java::ReservedIdentifier => "_reserved_identifier"@,
            Java::ProgramRepeat1 => "program_repeat1"@,
            Java::StringLiteralRepeat1 => "_string_literal_repeat1"@,
            Java::MultilineStringLiteralRepeat1 => "_multiline_string_literal_repeat1"@,
            Java::CastExpressionRepeat1 => "cast_expression_repeat1"@,
            Java::InferredParametersRepeat1 => "inferred_parameters_repeat1"@,
            Java::ArrayCreationExpressionRepeat1 => "array_creation_expression_repeat1"@,
            Java::ArrayCreationExpressionRepeat2 => "array_creation_expression_repeat2"@,
            Java::ArgumentListRepeat1 => "argument_list_repeat1"@,
            Java::TypeArgumentsRepeat1 => "type_arguments_repeat1"@,
            Java::DimensionsRepeat1 => "dimensions_repeat1"@,
            Java::SwitchBlockRepeat1 => "switch_block_repeat1"@,
            Java::SwitchBlockRepeat2 => "switch_block_repeat2"@,
            Java::SwitchBlockStatementGroupRepeat1 => "switch_block_statement_group_repeat1"@,
            Java::SwitchBlockStatementGroupRepeat2 => "switch_block_statement_group_repeat2"@,
            Java::RecordPatternBodyRepeat1 => "record_pattern_body_repeat1"@,
            Java::TryStatementRepeat1 => "try_statement_repeat1"@,
            Java::CatchTypeRepeat1 => "catch_type_repeat1"@,
            Java::ResourceSpecificationRepeat1 => "resource_specification_repeat1"@,
            Java::ForStatementRepeat1 => "for_statement_repeat1"@,
            Java::ForStatementRepeat2 => "for_statement_repeat2"@,
            Java::AnnotationArgumentListRepeat1 => "annotation_argument_list_repeat1"@,
            Java::ElementValueArrayInitializerRepeat1 => "element_value_array_initializer_repeat1"@,
            Java::ModuleBodyRepeat1 => "module_body_repeat1"@,
            Java::RequiresModuleDirectiveRepeat1 => "requires_module_directive_repeat1"@,
            Java::ExportsModuleDirectiveRepeat1 => "exports_module_directive_repeat1"@,
            Java::ProvidesModuleDirectiveRepeat1 => "provides_module_directive_repeat1"@,
            Java::EnumBodyRepeat1 => "enum_body_repeat1"@,
            Java::EnumBodyDeclarationsRepeat1 => "enum_body_declarations_repeat1"@,
            Java::ModifiersRepeat1 => "modifiers_repeat1"@,
            Java::TypeParametersRepeat1 => "type_parameters_repeat1"@,
            Java::TypeBoundRepeat1 => "type_bound_repeat1"@,
            Java::TypeListRepeat1 => "type_list_repeat1"@,
            Java::AnnotationTypeBodyRepeat1 => "annotation_type_body_repeat1"@,
            Java::InterfaceBodyRepeat1 => "interface_body_repeat1"@,
            Java::VariableDeclaratorListRepeat1 => "_variable_declarator_list_repeat1"@,
            Java::ArrayInitializerRepeat1 => "array_initializer_repeat1"@,
            Java::FormalParametersRepeat1 => "formal_parameters_repeat1"@,
            Java::ReceiverParameterRepeat1 => "receiver_parameter_repeat1"@,
            Java::TypeIdentifier => "type_identifier"@,
            Java::Error => "ERROR"@,
        }
    }

    /// Maps a numeric kind id to its kind; an id outside the table maps to `Error`.
    pub fn from_u16(x: u16) -> (r: Java)
        ensures
            r == Java::spec_from_id(x),
            x > 321 ==> r == Java::Error,
    {
        match x {
            0 => Java::End,
            1 => Java::Identifier,
            2 => Java::DecimalIntegerLiteral,
            3 => Java::HexIntegerLiteral,
            4 => Java::OctalIntegerLiteral,
            5 => Java::BinaryIntegerLiteral,
            6 => Java::DecimalFloatingPointLiteral,
            7 => Java::HexFloatingPointLiteral,
            8 => Java::True,
            9 => Java::False,
            10 => Java::CharacterLiteral,
            11 => Java::DQUOTE,
            12 => Java::DQUOTEDQUOTEDQUOTE,
            13 => Java::StringFragment,
            14 => Java::MultilineStringFragmentToken1,
            15 => Java::MultilineStringFragmentToken2,
            16 => Java::BSLASHLBRACE,
            17 => Java::RBRACE,
            18 => Java::EscapeSequenceToken1,
            19 => Java::EscapeSequence,
            20 => Java::NullLiteral,
            21 => Java::LPAREN,
            22 => Java::RPAREN,
            23 => Java::AMP,
            24 => Java::EQ,
            25 => Java::PLUSEQ,
            26 => Java::DASHEQ,
            27 => Java::STAREQ,
            28 => Java::SLASHEQ,
            29 => Java::AMPEQ,
            30 => Java::PIPEEQ,
            31 => Java::CARETEQ,
            32 => Java::PERCENTEQ,
            33 => Java::LTLTEQ,
            34 => Java::GTGTEQ,
            35 => Java::GTGTGTEQ,
            36 => Java::GT,
            37 => Java::LT,
            38 => Java::GTEQ,
            39 => Java::LTEQ,
            40 => Java::EQEQ,
            41 => Java::BANGEQ,
            42 => Java::AMPAMP,
            43 => Java::PIPEPIPE,
            44 => Java::PLUS,
            45 => Java::DASH,
            46 => Java::STAR,
            47 => Java::SLASH,
            48 => Java::PIPE,
            49 => Java::CARET,
            50 => Java::PERCENT,
            51 => Java::LTLT,
            52 => Java::GTGT,
            53 => Java::GTGTGT,
            54 => Java::Instanceof,
            55 => Java::FinalKw,
            56 => Java::DASHGT,
            57 => Java::COMMA,
            58 => Java::QMARK,
            59 => Java::COLON,
            60 => Java::BANG,
            61 => Java::TILDE,
            62 => Java::PLUSPLUS,
            63 => Java::DASHDASH,
            64 => Java::New,
            65 => Java::LBRACK,
            66 => Java::RBRACK,
            67 => Java::DOT,
            68 => Java::Class,
            69 => Java::COLONCOLON,
            70 => Java::Extends,
            71 => Java::Switch,
            72 => Java::LBRACE,
            73 => Java::Case,
            74 => Java::Default,
            75 => Java::UnderscorePattern,
            76 => Java::When,
            77 => Java::SEMI,
            78 => Java::Assert,
            79 => Java::Do,
            80 => Java::While,
            81 => Java::Break,
            82 => Java::Continue,
            83 => Java::Return,
            84 => Java::Yield,
            85 => Java::Synchronized,
            86 => Java::Throw,
            87 => Java::Try,
            88 => Java::Catch,
            89 => Java::Finally,
            90 => Java::If,
            91 => Java::Else,
            92 => Java::For,
            93 => Java::AT,
            94 => Java::Open,
            95 => Java::Module,
            96 => Java::Requires,
            97 => Java::Transitive,
            98 => Java::Static,
            99 => Java::Exports,
            100 => Java::To,
            101 => Java::Opens,
            102 => Java::Uses,
            103 => Java::Provides,
            104 => Java::With,
            105 => Java::Package,
            106 => Java::Import,
            107 => Java::Enum,
            108 => Java::Public,
            109 => Java::Protected,
            110 => Java::Private,
            111 => Java::Abstract,
            112 => Java::Strictfp,
            113 => Java::Native,
            114 => Java::Transient,
            115 => Java::Volatile,
            116 => Java::Sealed,
            117 => Java::NonSealed,
            118 => Java::Implements,
            119 => Java::Permits2,
            120 => Java::Record,
            121 => Java::Interface,
            122 => Java::Interface2,
            123 => Java::Byte,
            124 => Java::Short,
            125 => Java::IntKw,
            126 => Java::Long,
            127 => Java::Char,
            128 => Java::Float,
            129 => Java::Double,
            130 => Java::BooleanType,
            131 => Java::VoidType,
            132 => Java::DOTDOTDOT,
            133 => Java::Throws2,
            134 => Java::This,
            135 => Java::Super,
            136 => Java::LineComment,
            137 => Java::BlockComment,
            138 => Java::Program,
            139 => Java::ToplevelStatement,
            140 => Java::Literal,
            141 => Java::StringLiteral,
            142 => Java::StringLiteral2,
            143 => Java::MultilineStringLiteral,
            144 => Java::MultilineStringFragment,
            145 => Java::StringInterpolation,
            146 => Java::EscapeSequence2,
            147 => Java::Expression,
            148 => Java::CastExpression,
            149 => Java::AssignmentExpression,
            150 => Java::BinaryExpression,
            151 => Java::InstanceofExpression,
            152 => Java::LambdaExpression,
            153 => Java::InferredParameters,
            154 => Java::TernaryExpression,
            155 => Java::UnaryExpression,
            156 => Java::UpdateExpression,
            157 => Java::PrimaryExpression,
            158 => Java::ArrayCreationExpression,
            159 => Java::DimensionsExpr,
            160 => Java::ParenthesizedExpression,
            161 => Java::ClassLiteral,
            162 => Java::ObjectCreationExpression,
            163 => Java::UnqualifiedObjectCreationExpression,
            164 => Java::FieldAccess,
            165 => Java::TemplateExpression,
            166 => Java::ArrayAccess,
            167 => Java::MethodInvocation,
            168 => Java::ArgumentList,
            169 => Java::MethodReference,
            170 => Java::TypeArguments,
            171 => Java::Wildcard,
            172 => Java::WildcardBounds,
            173 => Java::Dimensions,
            174 => Java::SwitchExpression,
            175 => Java::SwitchBlock,
            176 => Java::SwitchBlockStatementGroup,
            177 => Java::SwitchRule,
            178 => Java::SwitchLabel,
            179 => Java::Pattern,
            180 => Java::TypePattern,
            181 => Java::RecordPattern,
            182 => Java::RecordPatternBody,
            183 => Java::RecordPatternComponent,
            184 => Java::Guard,
            185 => Java::Statement,
            186 => Java::Block,
            187 => Java::ExpressionStatement,
            188 => Java::LabeledStatement,
            189 => Java::AssertStatement,
            190 => Java::DoStatement,
            191 => Java::BreakStatement,
            192 => Java::ContinueStatement,
            193 => Java::ReturnStatement,
            194 => Java::YieldStatement,
            195 => Java::SynchronizedStatement,
            196 => Java::ThrowStatement,
            197 => Java::TryStatement,
            198 => Java::CatchClause,
            199 => Java::CatchFormalParameter,
            200 => Java::CatchType,
            201 => Java::FinallyClause,
            202 => Java::TryWithResourcesStatement,
            203 => Java::ResourceSpecification,
            204 => Java::Resource,
            205 => Java::IfStatement,
            206 => Java::WhileStatement,
            207 => Java::ForStatement,
            208 => Java::EnhancedForStatement,
            209 => Java::Annotation2,
            210 => Java::MarkerAnnotation,
            211 => Java::Annotation,
            212 => Java::AnnotationArgumentList,
            213 => Java::ElementValuePair,
            214 => Java::ElementValue,
            215 => Java::ElementValueArrayInitializer,
            216 => Java::Declaration,
            217 => Java::ModuleDeclaration,
            218 => Java::ModuleBody,
            219 => Java::ModuleDirective,
            220 => Java::RequiresModuleDirective,
            221 => Java::RequiresModifier,
            222 => Java::ExportsModuleDirective,
            223 => Java::OpensModuleDirective,
            224 => Java::UsesModuleDirective,
            225 => Java::ProvidesModuleDirective,
            226 => Java::PackageDeclaration,
            227 => Java::ImportDeclaration,
            228 => Java::Asterisk,
            229 => Java::EnumDeclaration,
            230 => Java::EnumBody,
            231 => Java::EnumBodyDeclarations,
            232 => Java::EnumConstant,
            233 => Java::ClassDeclaration,
            234 => Java::Modifiers,
            235 => Java::TypeParameters,
            236 => Java::TypeParameter,
            237 => Java::TypeBound,
            238 => Java::Superclass,
            239 => Java::SuperInterfaces,
            240 => Java::TypeList,
            241 => Java::Permits,
            242 => Java::ClassBody,
            243 => Java::StaticInitializer,
            244 => Java::ConstructorDeclaration,
            245 => Java::ConstructorDeclarator,
            246 => Java::ConstructorBody,
            247 => Java::ExplicitConstructorInvocation,
            248 => Java::ScopedIdentifier,
            249 => Java::FieldDeclaration,
            250 => Java::RecordDeclaration,
            251 => Java::AnnotationTypeDeclaration,
            252 => Java::AnnotationTypeBody,
            253 => Java::AnnotationTypeElementDeclaration,
            254 => Java::DefaultValue,
            255 => Java::InterfaceDeclaration,
            256 => Java::ExtendsInterfaces,
            257 => Java::InterfaceBody,
            258 => Java::ConstantDeclaration,
            259 => Java::VariableDeclaratorList,
            260 => Java::VariableDeclarator,
            261 => Java::VariableDeclaratorId,
            262 => Java::ArrayInitializer,
            263 => Java::Type,
            264 => Java::UnannotatedType,
            265 => Java::AnnotatedType,
            266 => Java::ScopedTypeIdentifier,
            267 => Java::GenericType,
            268 => Java::ArrayType,
            269 => Java::IntegralType,
            270 => Java::FloatingPointType,
            271 => Java::MethodHeader,
            272 => Java::MethodDeclarator,
            273 => Java::FormalParameters,
            274 => Java::FormalParameter,
            275 => Java::ReceiverParameter,
            276 => Java::SpreadParameter,
            277 => Java::Throws,
            278 => Java::LocalVariableDeclaration,
            279 => Java::MethodDeclaration,
            280 => Java::CompactConstructorDeclaration,
            281 => Java::ReservedIdentifier,
            282 => Java::ProgramRepeat1,
            283 => Java::StringLiteralRepeat1,
            284 => Java::MultilineStringLiteralRepeat1,
            285 => Java::CastExpressionRepeat1,
            286 => Java::InferredParametersRepeat1,
            287 => Java::ArrayCreationExpressionRepeat1,
            288 => Java::ArrayCreationExpressionRepeat2,
            289 => Java::ArgumentListRepeat1,
            290 => Java::TypeArgumentsRepeat1,
            291 => Java::DimensionsRepeat1,
            292 => Java::SwitchBlockRepeat1,
            293 => Java::SwitchBlockRepeat2,
            294 => Java::SwitchBlockStatementGroupRepeat1,
            295 => Java::SwitchBlockStatementGroupRepeat2,
            296 => Java::RecordPatternBodyRepeat1,
            297 => Java::TryStatementRepeat1,
            298 => Java::CatchTypeRepeat1,
            299 => Java::ResourceSpecificationRepeat1,
            300 => Java::ForStatementRepeat1,
            301 => Java::ForStatementRepeat2,
            302 => Java::AnnotationArgumentListRepeat1,
            303 => Java::ElementValueArrayInitializerRepeat1,
            304 => Java::ModuleBodyRepeat1,
            305 => Java::RequiresModuleDirectiveRepeat1,
            306 => Java::ExportsModuleDirectiveRepeat1,
            307 => Java::ProvidesModuleDirectiveRepeat1,
            308 => Java::EnumBodyRepeat1,
            309 => Java::EnumBodyDeclarationsRepeat1,
            310 => Java::ModifiersRepeat1,
            311 => Java::TypeParametersRepeat1,
            312 => Java::TypeBoundRepeat1,
            313 => Java::TypeListRepeat1,
            314 => Java::AnnotationTypeBodyRepeat1,
            315 => Java::InterfaceBodyRepeat1,
            316 => Java::VariableDeclaratorListRepeat1,
            317 => Java::ArrayInitializerRepeat1,
            318 => Java::FormalParametersRepeat1,
            319 => Java::ReceiverParameterRepeat1,
            320 => Java::TypeIdentifier,
            _ => Java::Error,
        }
    }

    /// The display string of this kind.
    pub fn as_str(&self) -> (r: &'static str)
        ensures
            r@ == self.text(),
    {
        match self {
            Java::End => "end",
            Java::Identifier => "identifier",
            Java::DecimalIntegerLiteral => "decimal_integer_literal",
            Java::HexIntegerLiteral => "hex_integer_literal",
            Java::OctalIntegerLiteral => "octal_integer_literal",
            Java::BinaryIntegerLiteral => "binary_integer_literal",
            Java::DecimalFloatingPointLiteral => "decimal_floating_point_literal",
            Java::HexFloatingPointLiteral => "hex_floating_point_literal",
            Java::True => "true",
            Java::False => "false",
            Java::CharacterLiteral => "character_literal",
            Java::DQUOTE => "\"",
            Java::DQUOTEDQUOTEDQUOTE => "\"\"\"",
            Java::StringFragment => "string_fragment",
            Java::MultilineStringFragmentToken1 => "_multiline_string_fragment_token1",
            Java::MultilineStringFragmentToken2 => "_multiline_string_fragment_token2",
            Java::BSLASHLBRACE => "\\{",
            Java::RBRACE => "}",
            Java::EscapeSequenceToken1 => "_escape_sequence_token1",
            Java::EscapeSequence => "escape_sequence",
            Java::NullLiteral => "null_literal",
            Java::LPAREN => "(",
            Java::RPAREN => ")",
            Java::AMP => "&",
            Java::EQ => "=",
            Java::PLUSEQ => "+=",
            Java::DASHEQ => "-=",
            Java::STAREQ => "*=",
            Java::SLASHEQ => "/=",
            Java::AMPEQ => "&=",
            Java::PIPEEQ => "|=",
            Java::CARETEQ => "^=",
            Java::PERCENTEQ => "%=",
            Java::LTLTEQ => "<<=",
            Java::GTGTEQ => ">>=",
            Java::GTGTGTEQ => ">>>=",
            Java::GT => ">",
            Java::LT => "<",
            Java::GTEQ => ">=",
            Java::LTEQ => "<=",
            Java::EQEQ => "==",
            Java::BANGEQ => "!=",
            Java::AMPAMP => "&&",
            Java::PIPEPIPE => "||",
            Java::PLUS => "+",
            Java::DASH => "-",
            Java::STAR => "*",
            Java::SLASH => "/",
            Java::PIPE => "|",
            Java::CARET => "^",
            Java::PERCENT => "%",
            Java::LTLT => "<<",
            Java::GTGT => ">>",
            Java::GTGTGT => ">>>",
            Java::Instanceof => "instanceof",
            Java::FinalKw => "final",
            Java::DASHGT => "->",
            Java::COMMA => ",",
            Java::QMARK => "?",
            Java::COLON => ":",
            Java::BANG => "!",
            Java::TILDE => "~",
            Java::PLUSPLUS => "++",
            Java::DASHDASH => "--",
            Java::New => "new",
            Java::LBRACK => "[",
            Java::RBRACK => "]",
            Java::DOT => ".",
            Java::Class => "class",
            Java::COLONCOLON => "::",
            Java::Extends => "extends",
            Java::Switch => "switch",
            Java::LBRACE => "{",
            Java::Case => "case",
            Java::Default => "default",
            Java::UnderscorePattern => "underscore_pattern",
            Java::When => "when",
            Java::SEMI => ";",
            Java::Assert => "assert",
            Java::Do => "do",
            Java::While => "while",
            Java::Break => "break",
            Java::Continue => "continue",
            Java::Return => "return",
            Java::Yield => "yield",
            Java::Synchronized => "synchronized",
            Java::Throw => "throw",
            Java::Try => "try",
            Java::Catch => "catch",
            Java::Finally => "finally",
            Java::If => "if",
            Java::Else => "else",
            Java::For => "for",
            Java::AT => "@",
            Java::Open => "open",
            Java::Module => "module",
            Java::Requires => "requires",
            Java::Transitive => "transitive",
            Java::Static => "static",
            Java::Exports => "exports",
            Java::To => "to",
            Java::Opens => "opens",
            Java::Uses => "uses",
            Java::Provides => "provides",
            Java::With => "with",
            Java::Package => "package",
            Java::Import => "import",
            Java::Enum => "enum",
            Java::Public => "public",
            Java::Protected => "protected",
            Java::Private => "private",
            Java::Abstract => "abstract",
            Java::Strictfp => "strictfp",
            Java::Native => "native",
            Java::Transient => "transient",
            Java::Volatile => "volatile",
            Java::Sealed => "sealed",
            Java::NonSealed => "non-sealed",
            Java::Implements => "implements",
            Java::Permits2 => "permits",
            Java::Record => "record",
            Java::Interface => "@interface",
            Java::Interface2 => "interface",
            Java::Byte => "byte",
            Java::Short => "short",
            Java::IntKw => "int",
            Java::Long => "long",
            Java::Char => "char",
            Java::Float => "float",
            Java::Double => "double",
            Java::BooleanType => "boolean_type",
            Java::VoidType => "void_type",
            Java::DOTDOTDOT => "...",
            Java::Throws2 => "throws",
            Java::This => "this",
            Java::Super => "super",
            Java::LineComment => "line_comment",
            Java::BlockComment => "block_comment",
            Java::Program => "program",
            Java::ToplevelStatement => "_toplevel_statement",
            Java::Literal => "_literal",
            Java::StringLiteral => "string_literal",
            Java::StringLiteral2 => "_string_literal",
            Java::MultilineStringLiteral => "_multiline_string_literal",
            Java::MultilineStringFragment => "multiline_string_fragment",
            Java::StringInterpolation => "string_interpolation",
            Java::EscapeSequence2 => "_escape_sequence",
            Java::Expression => "expression",
            Java::CastExpression => "cast_expression",
            Java::AssignmentExpression => "assignment_expression",
            Java::BinaryExpression => "binary_expression",
            Java::InstanceofExpression => "instanceof_expression",
            Java::LambdaExpression => "lambda_expression",
            Java::InferredParameters => "inferred_parameters",
            Java::TernaryExpression => "ternary_expression",
            Java::UnaryExpression => "unary_expression",
            Java::UpdateExpression => "update_expression",
            Java::PrimaryExpression => "primary_expression",
            Java::ArrayCreationExpression => "array_creation_expression",
            Java::DimensionsExpr => "dimensions_expr",
            Java::ParenthesizedExpression => "parenthesized_expression",
            Java::ClassLiteral => "class_literal",
            Java::ObjectCreationExpression => "object_creation_expression",
            Java::UnqualifiedObjectCreationExpression => "_unqualified_object_creation_expression",
            Java::FieldAccess => "field_access",
            Java::TemplateExpression => "template_expression",
            Java::ArrayAccess => "array_access",
            Java::MethodInvocation => "method_invocation",
            Java::ArgumentList => "argument_list",
            Java::MethodReference => "method_reference",
            Java::TypeArguments => "type_arguments",
            Java::Wildcard => "wildcard",
            Java::WildcardBounds => "_wildcard_bounds",
            Java::Dimensions => "dimensions",
            Java::SwitchExpression => "switch_expression",
            Java::SwitchBlock => "switch_block",
            Java::SwitchBlockStatementGroup => "switch_block_statement_group",
            Java::SwitchRule => "switch_rule",
            Java::SwitchLabel => "switch_label",
            Java::Pattern => "pattern",
            Java::TypePattern => "type_pattern",
            Java::RecordPattern => "record_pattern",
            Java::RecordPatternBody => "record_pattern_body",
            Java::RecordPatternComponent => "record_pattern_component",
            Java::Guard => "guard",
            Java::Statement => "statement",
            Java::Block => "block",
            Java::ExpressionStatement => "expression_statement",
            Java::LabeledStatement => "labeled_statement",
            Java::AssertStatement => "assert_statement",
            Java::DoStatement => "do_statement",
            Java::BreakStatement => "break_statement",
            Java::ContinueStatement => "continue_statement",
            Java::ReturnStatement => "return_statement",
            Java::YieldStatement => "yield_statement",
            Java::SynchronizedStatement => "synchronized_statement",
            Java::ThrowStatement => "throw_statement",
            Java::TryStatement => "try_statement",
            Java::CatchClause => "catch_clause",
            Java::CatchFormalParameter => "catch_formal_parameter",
            Java::CatchType => "catch_type",
            Java::FinallyClause => "finally_clause",
            Java::TryWithResourcesStatement => "try_with_resources_statement",
            Java::ResourceSpecification => "resource_specification",
            Java::Resource => "resource",
            Java::IfStatement => "if_statement",
            Java::WhileStatement => "while_statement",
            Java::ForStatement => "for_statement",
            Java::EnhancedForStatement => "enhanced_for_statement",
            Java::Annotation2 => "_annotation",
            Java::MarkerAnnotation => "marker_annotation",
            Java::Annotation => "annotation",
            Java::AnnotationArgumentList => "annotation_argument_list",
            Java::ElementValuePair => "element_value_pair",
            Java::ElementValue => "_element_value",
            Java::ElementValueArrayInitializer => "element_value_array_initializer",
            Java::Declaration => "declaration",
            Java::ModuleDeclaration => "module_declaration",
            Java::ModuleBody => "module_body",
            Java::ModuleDirective => "module_directive",
            Java::RequiresModuleDirective => "requires_module_directive",
            Java::RequiresModifier => "requires_modifier",
            Java::ExportsModuleDirective => "exports_module_directive",
            Java::OpensModuleDirective => "opens_module_directive",
            Java::UsesModuleDirective => "uses_module_directive",
            Java::ProvidesModuleDirective => "provides_module_directive",
            Java::PackageDeclaration => "package_declaration",
            Java::ImportDeclaration => "import_declaration",
            Java::Asterisk => "asterisk",
            Java::EnumDeclaration => "enum_declaration",
            Java::EnumBody => "enum_body",
            Java::EnumBodyDeclarations => "enum_body_declarations",
            Java::EnumConstant => "enum_constant",
            Java::ClassDeclaration => "class_declaration",
            Java::Modifiers => "modifiers",
            Java::TypeParameters => "type_parameters",
            Java::TypeParameter => "type_parameter",
            Java::TypeBound => "type_bound",
            Java::Superclass => "superclass",
            Java::SuperInterfaces => "super_interfaces",
            Java::TypeList => "type_list",
            Java::Permits => "permits",
            Java::ClassBody => "class_body",
            Java::StaticInitializer => "static_initializer",
            Java::ConstructorDeclaration => "constructor_declaration",
            Java::ConstructorDeclarator => "_constructor_declarator",
            Java::ConstructorBody => "constructor_body",
            Java::ExplicitConstructorInvocation => "explicit_constructor_invocation",
            Java::ScopedIdentifier => "scoped_identifier",
            Java::FieldDeclaration => "field_declaration",
            Java::RecordDeclaration => "record_declaration",
            Java::AnnotationTypeDeclaration => "annotation_type_declaration",
            Java::AnnotationTypeBody => "annotation_type_body",
            Java::AnnotationTypeElementDeclaration => "annotation_type_element_declaration",
            Java::DefaultValue => "_default_value",
            Java::InterfaceDeclaration => "interface_declaration",
            Java::ExtendsInterfaces => "extends_interfaces",
            Java::InterfaceBody => "interface_body",
            Java::ConstantDeclaration => "constant_declaration",
            Java::VariableDeclaratorList => "_variable_declarator_list",
            Java::VariableDeclarator => "variable_declarator",
            Java::VariableDeclaratorId => "_variable_declarator_id",
            Java::ArrayInitializer => "array_initializer",
            Java::Type => "_type",
            Java::UnannotatedType => "_unannotated_type",
            Java::AnnotatedType => "annotated_type",
            Java::ScopedTypeIdentifier => "scoped_type_identifier",
            Java::GenericType => "generic_type",
            Java::ArrayType => "array_type",
            Java::IntegralType => "integral_type",
            Java::FloatingPointType => "floating_point_type",
            Java::MethodHeader => "_method_header",
            Java::MethodDeclarator => "_method_declarator",
            Java::FormalParameters => "formal_parameters",
            Java::FormalParameter => "formal_parameter",
            Java::ReceiverParameter => "receiver_parameter",
            Java::SpreadParameter => "spread_parameter",
            Java::Throws => "throws",
            Java::LocalVariableDeclaration => "local_variable_declaration",
            Java::MethodDeclaration => "method_declaration",
            Java::CompactConstructorDeclaration => "compact_constructor_declaration",
            Java::ReservedIdentifier => "_reserved_identifier",
            Java::ProgramRepeat1 => "program_repeat1",
            Java::StringLiteralRepeat1 => "_string_literal_repeat1",
            Java::MultilineStringLiteralRepeat1 => "_multiline_string_literal_repeat1",
            Java::CastExpressionRepeat1 => "cast_expression_repeat1",
            Java::InferredParametersRepeat1 => "inferred_parameters_repeat1",
            Java::ArrayCreationExpressionRepeat1 => "array_creation_expression_repeat1",
            Java::ArrayCreationExpressionRepeat2 => "array_creation_expression_repeat2",
            Java::ArgumentListRepeat1 => "argument_list_repeat1",
            Java::TypeArgumentsRepeat1 => "type_arguments_repeat1",
            Java::DimensionsRepeat1 => "dimensions_repeat1",
            Java::SwitchBlockRepeat1 => "switch_block_repeat1",
            Java::SwitchBlockRepeat2 => "switch_block_repeat2",
            Java::SwitchBlockStatementGroupRepeat1 => "switch_block_statement_group_repeat1",
            Java::SwitchBlockStatementGroupRepeat2 => "switch_block_statement_group_repeat2",
            Java::RecordPatternBodyRepeat1 => "record_pattern_body_repeat1",
            Java::TryStatementRepeat1 => "try_statement_repeat1",
            Java::CatchTypeRepeat1 => "catch_type_repeat1",
            Java::ResourceSpecificationRepeat1 => "resource_specification_repeat1",
            Java::ForStatementRepeat1 => "for_statement_repeat1",
            Java::ForStatementRepeat2 => "for_statement_repeat2",
            Java::AnnotationArgumentListRepeat1 => "annotation_argument_list_repeat1",
            Java::ElementValueArrayInitializerRepeat1 => "element_value_array_initializer_repeat1",
            Java::ModuleBodyRepeat1 => "module_body_repeat1",
            Java::RequiresModuleDirectiveRepeat1 => "requires_module_directive_repeat1",
            Java::ExportsModuleDirectiveRepeat1 => "exports_module_directive_repeat1",
            Java::ProvidesModuleDirectiveRepeat1 => "provides_module_directive_repeat1",
            Java::EnumBodyRepeat1 => "enum_body_repeat1",
            Java::EnumBodyDeclarationsRepeat1 => "enum_body_declarations_repeat1",
            Java::ModifiersRepeat1 => "modifiers_repeat1",
            Java::TypeParametersRepeat1 => "type_parameters_repeat1",
            Java::TypeBoundRepeat1 => "type_bound_repeat1",
            Java::TypeListRepeat1 => "type_list_repeat1",
            Java::AnnotationTypeBodyRepeat1 => "annotation_type_body_repeat1",
            Java::InterfaceBodyRepeat1 => "interface_body_repeat1",
            Java::VariableDeclaratorListRepeat1 => "_variable_declarator_list_repeat1",
            Java::ArrayInitializerRepeat1 => "array_initializer_repeat1",
            Java::FormalParametersRepeat1 => "formal_parameters_repeat1",
            Java::ReceiverParameterRepeat1 => "receiver_parameter_repeat1",
            Java::TypeIdentifier => "type_identifier",
            Java::Error => "ERROR",
        }
    }
}

impl From<u16> for Java {
    fn from(x: u16) -> (r: Java)
        ensures
            r == Java::spec_from_id(x),
    {
        Java::from_u16(x)
    }
}

impl vstd::std_specs::convert::FromSpecImpl<u16> for Java {
    open spec fn obeys_from_spec() -> bool {
        true
    }

    open spec fn from_spec(x: u16) -> Java {
        Java::spec_from_id(x)
    }
}

/// A kind id read back from its kind gives that kind again.
pub proof fn lemma_id_round_trip(k: Java)
    ensures
        Java::spec_from_id(k.id()) == k,
{
}

/// Java kinds counted as Halstead operators.
pub open spec fn java_operator(k: Java) -> bool {
    match k {
        Java::If | Java::Else | Java::Switch | Java::Case | Java::Try | Java::Catch
        | Java::Throw | Java::Throws | Java::Throws2 | Java::For | Java::While | Java::Continue
        | Java::Break | Java::Do | Java::Finally | Java::New | Java::Return | Java::Default
        | Java::Abstract | Java::Assert | Java::Instanceof | Java::Extends | Java::FinalKw
        | Java::Implements | Java::Transient | Java::Synchronized | Java::Super | Java::This
        | Java::VoidType | Java::SEMI | Java::COMMA | Java::COLONCOLON | Java::LBRACE
        | Java::LBRACK | Java::LPAREN | Java::EQ | Java::LT | Java::GT | Java::BANG
        | Java::TILDE | Java::QMARK | Java::COLON | Java::EQEQ | Java::LTEQ | Java::GTEQ
        | Java::BANGEQ | Java::AMPAMP | Java::PIPEPIPE | Java::PLUSPLUS | Java::DASHDASH
        | Java::PLUS | Java::DASH | Java::STAR | Java::SLASH | Java::AMP | Java::PIPE
        | Java::CARET | Java::PERCENT | Java::LTLT | Java::GTGT | Java::GTGTGT | Java::PLUSEQ
        | Java::DASHEQ | Java::STAREQ | Java::SLASHEQ | Java::AMPEQ | Java::PIPEEQ
        | Java::CARETEQ | Java::PERCENTEQ | Java::LTLTEQ | Java::GTGTEQ | Java::GTGTGTEQ
        | Java::IntKw | Java::Float => true,
        _ => false,
    }
}

/// Java kinds counted as Halstead operands.
pub open spec fn java_operand(k: Java) -> bool {
    match k {
        Java::Identifier | Java::NullLiteral | Java::ClassLiteral | Java::StringLiteral
        | Java::CharacterLiteral | Java::HexIntegerLiteral | Java::OctalIntegerLiteral
        | Java::BinaryIntegerLiteral | Java::DecimalIntegerLiteral
        | Java::HexFloatingPointLiteral | Java::DecimalFloatingPointLiteral | Java::True | Java::False => true,
        _ => false,
    }
}

/// How a Java node counts in the Halstead measures.
pub open spec fn java_op_type(k: Java) -> HalsteadType {
    if java_operator(k) {
        HalsteadType::Operator
    } else if java_operand(k) {
        HalsteadType::Operand
    } else {
        HalsteadType::Unknown
    }
}

/// The space kind of a Java node.
pub open spec fn java_space_kind(k: Java) -> SpaceKind {
    match k {
        Java::ClassDeclaration => SpaceKind::Class,
        Java::MethodDeclaration | Java::ConstructorDeclaration | Java::LambdaExpression => SpaceKind::Function,
        Java::InterfaceDeclaration => SpaceKind::Interface,
        Java::Program => SpaceKind::Unit,
        _ => SpaceKind::Unknown,
    }
}

/// The text under which a Java operator counts: an opening bracket stands for the
/// pair it opens.
pub open spec fn java_operator_text(id: u16) -> Seq<char> {
    match Java::spec_from_id(id) {
        Java::LPAREN => "()"@,
        Java::LBRACK => "[]"@,
        Java::LBRACE => "{}"@,
        Java::VoidType => "void"@,
        k => k.text(),
    }
}

/// The Java grammar.
pub struct JavaCode;

impl Getter for JavaCode {
    open spec fn space_kind_of(tree: Tree, node: int) -> SpaceKind {
        java_space_kind(Java::spec_from_id(tree.nodes@[node].kind_id))
    }

    open spec fn op_type_of(tree: Tree, node: int) -> HalsteadType {
        java_op_type(Java::spec_from_id(tree.nodes@[node].kind_id))
    }

    open spec fn operator_text_of(id: u16) -> Seq<char> {
        java_operator_text(id)
    }

    open spec fn name_of(tree: Tree, node: int, code: Seq<u8>) -> Option<Seq<char>> {
        field_name(tree, node, code)
    }

    fn get_func_space_name(tree: &Tree, node: usize, code: &[u8]) -> (r: Option<String>) {
        name_from_field(tree, node, code)
    }

    fn get_space_kind(tree: &Tree, node: usize) -> (r: SpaceKind)
        ensures
            r == java_space_kind(Java::spec_from_id(tree.nodes@[node as int].kind_id)),
    {
        match Java::from_u16(tree.nodes[node].kind_id) {
            Java::ClassDeclaration => SpaceKind::Class,
            Java::MethodDeclaration | Java::ConstructorDeclaration | Java::LambdaExpression => SpaceKind::Function,
            Java::InterfaceDeclaration => SpaceKind::Interface,
            Java::Program => SpaceKind::Unit,
            _ => SpaceKind::Unknown,
        }
    }

    fn get_op_type(tree: &Tree, node: usize) -> (r: HalsteadType)
        ensures
            r == java_op_type(Java::spec_from_id(tree.nodes@[node as int].kind_id)),
    {
        match Java::from_u16(tree.nodes[node].kind_id) {
            Java::If | Java::Else | Java::Switch | Java::Case | Java::Try | Java::Catch
            | Java::Throw | Java::Throws | Java::Throws2 | Java::For | Java::While
            | Java::Continue | Java::Break | Java::Do | Java::Finally | Java::New
            | Java::Return | Java::Default | Java::Abstract | Java::Assert | Java::Instanceof
            | Java::Extends | Java::FinalKw | Java::Implements | Java::Transient
            | Java::Synchronized | Java::Super | Java::This | Java::VoidType | Java::SEMI
            | Java::COMMA | Java::COLONCOLON | Java::LBRACE | Java::LBRACK | Java::LPAREN
            | Java::EQ | Java::LT | Java::GT | Java::BANG | Java::TILDE | Java::QMARK
            | Java::COLON | Java::EQEQ | Java::LTEQ | Java::GTEQ | Java::BANGEQ | Java::AMPAMP
            | Java::PIPEPIPE | Java::PLUSPLUS | Java::DASHDASH | Java::PLUS | Java::DASH
            | Java::STAR | Java::SLASH | Java::AMP | Java::PIPE | Java::CARET | Java::PERCENT
            | Java::LTLT | Java::GTGT | Java::GTGTGT | Java::PLUSEQ | Java::DASHEQ
            | Java::STAREQ | Java::SLASHEQ | Java::AMPEQ | Java::PIPEEQ | Java::CARETEQ
            | Java::PERCENTEQ | Java::LTLTEQ | Java::GTGTEQ | Java::GTGTGTEQ | Java::IntKw
            | Java::Float => {
                HalsteadType::Operator
            },
            Java::Identifier | Java::NullLiteral | Java::ClassLiteral | Java::StringLiteral
            | Java::CharacterLiteral | Java::HexIntegerLiteral | Java::OctalIntegerLiteral
            | Java::BinaryIntegerLiteral | Java::DecimalIntegerLiteral
            | Java::HexFloatingPointLiteral | Java::DecimalFloatingPointLiteral | Java::True | Java::False => {
                HalsteadType::Operand
            },
            _ => HalsteadType::Unknown,
        }
    }

    fn get_operator_id_as_str(id: u16) -> (r: &'static str)
        ensures
            r@ == java_operator_text(id),
    {
        match Java::from_u16(id) {
            Java::LPAREN => "()",
            Java::LBRACK => "[]",
            Java::LBRACE => "{}",
            Java::VoidType => "void",
            k => k.as_str(),
        }
    }
}

} // verus!
