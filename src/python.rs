use vstd::prelude::*;

verus! {

/// Node kinds of the Python grammar, in the grammar's own numbering.
#[derive(Clone, Copy, Debug, PartialEq, Eq, Structural)]
pub enum Python {
    End,
    Identifier,
    SEMI,
    Import,
    DOT,
    From,
    Future,
    LPAREN,
    RPAREN,
    COMMA,
    As,
    STAR,
    Print,
    GTGT,
    Assert,
    COLONEQ,
    Return,
    Del,
    Raise,
    Pass,
    Break,
    Continue,
    If,
    COLON,
    Elif,
    Else,
    Match,
    Case,
    Async,
    For,
    In,
    While,
    Try,
    Except,
    STAR2,
    Finally,
    With,
    Def,
    DASHGT,
    STARSTAR,
    Global,
    Nonlocal,
    Exec,
    Type2,
    EQ,
    Class,
    LBRACK,
    RBRACK,
    AT,
    DASH,
    UNDERSCORE,
    PIPE,
    LBRACE,
    RBRACE,
    PLUS,
    Not,
    And,
    Or,
    SLASH,
    PERCENT,
    SLASHSLASH,
    AMP,
    CARET,
    LTLT,
    TILDE,
    Is,
    LT,
    LTEQ,
    EQEQ,
    BANGEQ,
    GTEQ,
    GT,
    LTGT,
    Lambda3,
    PLUSEQ,
    DASHEQ,
    STAREQ,
    SLASHEQ,
    ATEQ,
    SLASHSLASHEQ,
    PERCENTEQ,
    STARSTAREQ,
    GTGTEQ,
    LTLTEQ,
    AMPEQ,
    CARETEQ,
    PIPEEQ,
    Yield2,
    Ellipsis,
    EscapeSequence,
    BSLASH,
    FormatSpecifierToken1,
    TypeConversion,
    Integer,
    Float,
    Await2,
    True,
    False,
    NoneLiteral,
    Comment,
    LineContinuation,
    Newline,
    Indent,
    Dedent,
    StringStart,
    StringContent2,
    EscapeInterpolation,
    StringEnd,
    Module,
    Statement,
    SimpleStatements,
    ImportStatement,
    ImportPrefix,
    RelativeImport,
    FutureImportStatement,
    ImportFromStatement,
    ImportList,
    AliasedImport,
    WildcardImport,
    PrintStatement,
    Chevron,
    AssertStatement,
    ExpressionStatement,
    NamedExpression,
    NamedExpressionLhs,
    ReturnStatement,
    DeleteStatement,
    RaiseStatement,
    PassStatement,
    BreakStatement,
    ContinueStatement,
    IfStatement,
    ElifClause,
    ElseClause,
    MatchStatement,
    Block,
    CaseClause,
    ForStatement,
    WhileStatement,
    TryStatement,
    ExceptClause,
    FinallyClause,
    WithStatement,
    WithClause,
    WithItem,
    FunctionDefinition,
    Parameters,
    LambdaParameters,
    ListSplat,
    DictionarySplat,
    GlobalStatement,
    NonlocalStatement,
    ExecStatement,
    TypeAliasStatement,
    ClassDefinition,
    TypeParameter,
    ParenthesizedListSplat,
    ArgumentList,
    DecoratedDefinition,
    Decorator,
    Block2,
    ExpressionList,
    DottedName,
    CasePattern,
    SimplePattern,
    AsPattern,
    UnionPattern,
    ListPattern,
    TuplePattern,
    DictPattern,
    KeyValuePattern,
    KeywordPattern,
    SplatPattern,
    ClassPattern,
    ComplexPattern,
    Parameters2,
    Patterns,
    Parameter,
    Pattern,
    TuplePattern2,
    ListPattern2,
    DefaultParameter,
    TypedDefaultParameter,
    ListSplatPattern,
    DictionarySplatPattern,
    AsPattern2,
    ExpressionWithinForInClause,
    Expression,
    PrimaryExpression,
    NotOperator,
    BooleanOperator,
    BinaryOperator,
    UnaryOperator,
    NotIn,
    IsNot,
    ComparisonOperator,
    Lambda,
    Lambda2,
    Assignment,
    AugmentedAssignment,
    PatternList,
    RightHandSide,
    Yield,
    Attribute,
    Subscript,
    Slice,
    Call,
    TypedParameter,
    Type,
    SplatType,
    GenericType,
    UnionType,
    ConstrainedType,
    MemberType,
    KeywordArgument,
    List,
    SetLiteral,
    Tuple,
    Dictionary,
    Pair,
    ListComprehension,
    DictionaryComprehension,
    SetComprehension,
    GeneratorExpression,
    ComprehensionClauses,
    ParenthesizedExpression,
    CollectionElements,
    ForInClause,
    IfClause,
    ConditionalExpression,
    ConcatenatedString,
    String,
    StringContent,
    Interpolation,
    FExpression,
    NotEscapeSequence,
    FormatSpecifier,
    Await,
    PositionalSeparator,
    KeywordSeparator,
    ModuleRepeat1,
    SimpleStatementsRepeat1,
    ImportPrefixRepeat1,
    ImportListRepeat1,
    PrintStatementRepeat1,
    AssertStatementRepeat1,
    IfStatementRepeat1,
    MatchStatementRepeat1,
    MatchBlockRepeat1,
    CaseClauseRepeat1,
    TryStatementRepeat1,
    ExceptClauseRepeat1,
    WithClauseRepeat1,
    GlobalStatementRepeat1,
    TypeParameterRepeat1,
    ArgumentListRepeat1,
    DecoratedDefinitionRepeat1,
    DottedNameRepeat1,
    UnionPatternRepeat1,
    DictPatternRepeat1,
    ParametersRepeat1,
    PatternsRepeat1,
    ComparisonOperatorRepeat1,
    SubscriptRepeat1,
    DictionaryRepeat1,
    ComprehensionClausesRepeat1,
    CollectionElementsRepeat1,
    ForInClauseRepeat1,
    ConcatenatedStringRepeat1,
    StringRepeat1,
    StringContentRepeat1,
    FormatSpecifierRepeat1,
    AsPatternTarget,
    FormatExpression,
    Error,
}

impl Python {
    /// The grammar's numeric id of this kind.
    pub open spec fn id(self) -> u16 {
        match self {
            Python::End => 0,
            Python::Identifier => 1,
            Python::SEMI => 2,
            Python::Import => 3,
            Python::DOT => 4,
            Python::From => 5,
            Python::Future => 6,
            Python::LPAREN => 7,
            Python::RPAREN => 8,
            Python::COMMA => 9,
            Python::As => 10,
            Python::STAR => 11,
            Python::Print => 12,
            Python::GTGT => 13,
            Python::Assert => 14,
            Python::COLONEQ => 15,
            Python::Return => 16,
            Python::Del => 17,
            Python::Raise => 18,
            Python::Pass => 19,
            Python::Break => 20,
            Python::Continue => 21,
            Python::If => 22,
            Python::COLON => 23,
            Python::Elif => 24,
            Python::Else => 25,
            Python::Match => 26,
            Python::Case => 27,
            Python::Async => 28,
            Python::For => 29,
            Python::In => 30,
            Python::While => 31,
            Python::Try => 32,
            Python::Except => 33,
            Python::STAR2 => 34,
            Python::Finally => 35,
            Python::With => 36,
            Python::Def => 37,
            Python::DASHGT => 38,
            Python::STARSTAR => 39,
            Python::Global => 40,
            Python::Nonlocal => 41,
            Python::Exec => 42,
            Python::Type2 => 43,
            Python::EQ => 44,
            Python::Class => 45,
            Python::LBRACK => 46,
            Python::RBRACK => 47,
            Python::AT => 48,
            Python::DASH => 49,
            Python::UNDERSCORE => 50,
            Python::PIPE => 51,
            Python::LBRACE => 52,
            Python::RBRACE => 53,
            Python::PLUS => 54,
            Python::Not => 55,
            Python::And => 56,
            Python::Or => 57,
            Python::SLASH => 58,
            Python::PERCENT => 59,
            Python::SLASHSLASH => 60,
            Python::AMP => 61,
            Python::CARET => 62,
            Python::LTLT => 63,
            Python::TILDE => 64,
            Python::Is => 65,
            Python::LT => 66,
            Python::LTEQ => 67,
            Python::EQEQ => 68,
            Python::BANGEQ => 69,
            Python::GTEQ => 70,
            Python::GT => 71,
            Python::LTGT => 72,
            Python::Lambda3 => 73,
            Python::PLUSEQ => 74,
            Python::DASHEQ => 75,
            Python::STAREQ => 76,
            Python::SLASHEQ => 77,
            Python::ATEQ => 78,
            Python::SLASHSLASHEQ => 79,
            Python::PERCENTEQ => 80,
            Python::STARSTAREQ => 81,
            Python::GTGTEQ => 82,
            Python::LTLTEQ => 83,
            Python::AMPEQ => 84,
            Python::CARETEQ => 85,
            Python::PIPEEQ => 86,
            Python::Yield2 => 87,
            Python::Ellipsis => 88,
            Python::EscapeSequence => 89,
            Python::BSLASH => 90,
            Python::FormatSpecifierToken1 => 91,
            Python::TypeConversion => 92,
            Python::Integer => 93,
            Python::Float => 94,
            Python::Await2 => 95,
            Python::True => 96,
            Python::False => 97,
            Python::NoneLiteral => 98,
            Python::Comment => 99,
            Python::LineContinuation => 100,
            Python::Newline => 101,
            Python::Indent => 102,
            Python::Dedent => 103,
            Python::StringStart => 104,
            Python::StringContent2 => 105,
            Python::EscapeInterpolation => 106,
            Python::StringEnd => 107,
            Python::Module => 108,
            Python::Statement => 109,
            Python::SimpleStatements => 110,
            Python::ImportStatement => 111,
            Python::ImportPrefix => 112,
            Python::RelativeImport => 113,
            Python::FutureImportStatement => 114,
            Python::ImportFromStatement => 115,
            Python::ImportList => 116,
            Python::AliasedImport => 117,
            Python::WildcardImport => 118,
            Python::PrintStatement => 119,
            Python::Chevron => 120,
            Python::AssertStatement => 121,
            Python::ExpressionStatement => 122,
            Python::NamedExpression => 123,
            Python::NamedExpressionLhs => 124,
            Python::ReturnStatement => 125,
            Python::DeleteStatement => 126,
            Python::RaiseStatement => 127,
            Python::PassStatement => 128,
            Python::BreakStatement => 129,
            Python::ContinueStatement => 130,
            Python::IfStatement => 131,
            Python::ElifClause => 132,
            Python::ElseClause => 133,
            Python::MatchStatement => 134,
            Python::Block => 135,
            Python::CaseClause => 136,
            Python::ForStatement => 137,
            Python::WhileStatement => 138,
            Python::TryStatement => 139,
            Python::ExceptClause => 140,
            Python::FinallyClause => 141,
            Python::WithStatement => 142,
            Python::WithClause => 143,
            Python::WithItem => 144,
            Python::FunctionDefinition => 145,
            Python::Parameters => 146,
            Python::LambdaParameters => 147,
            Python::ListSplat => 148,
            Python::DictionarySplat => 149,
            Python::GlobalStatement => 150,
            Python::NonlocalStatement => 151,
            Python::ExecStatement => 152,
            Python::TypeAliasStatement => 153,
            Python::ClassDefinition => 154,
            Python::TypeParameter => 155,
            Python::ParenthesizedListSplat => 156,
            Python::ArgumentList => 157,
            Python::DecoratedDefinition => 158,
            Python::Decorator => 159,
            Python::Block2 => 160,
            Python::ExpressionList => 161,
            Python::DottedName => 162,
            Python::CasePattern => 163,
            Python::SimplePattern => 164,
            Python::AsPattern => 165,
            Python::UnionPattern => 166,
            Python::ListPattern => 167,
            Python::TuplePattern => 168,
            Python::DictPattern => 169,
            Python::KeyValuePattern => 170,
            Python::KeywordPattern => 171,
            Python::SplatPattern => 172,
            Python::ClassPattern => 173,
            Python::ComplexPattern => 174,
            Python::Parameters2 => 175,
            Python::Patterns => 176,
            Python::Parameter => 177,
            Python::Pattern => 178,
            Python::TuplePattern2 => 179,
            Python::ListPattern2 => 180,
            Python::DefaultParameter => 181,
            Python::TypedDefaultParameter => 182,
            Python::ListSplatPattern => 183,
            Python::DictionarySplatPattern => 184,
            Python::AsPattern2 => 185,
            Python::ExpressionWithinForInClause => 186,
            Python::Expression => 187,
            Python::PrimaryExpression => 188,
            Python::NotOperator => 189,
            Python::BooleanOperator => 190,
            Python::BinaryOperator => 191,
            Python::UnaryOperator => 192,
            Python::NotIn => 193,
            Python::IsNot => 194,
            Python::ComparisonOperator => 195,
            Python::Lambda => 196,
            Python::Lambda2 => 197,
            Python::Assignment => 198,
            Python::AugmentedAssignment => 199,
            Python::PatternList => 200,
            Python::RightHandSide => 201,
            Python::Yield => 202,
            Python::Attribute => 203,
            Python::Subscript => 204,
            Python::Slice => 205,
            Python::Call => 206,
            Python::TypedParameter => 207,
            Python::Type => 208,
            Python::SplatType => 209,
            Python::GenericType => 210,
            Python::UnionType => 211,
            Python::ConstrainedType => 212,
            Python::MemberType => 213,
            Python::KeywordArgument => 214,
            Python::List => 215,
            Python::SetLiteral => 216,
            Python::Tuple => 217,
            Python::Dictionary => 218,
            Python::Pair => 219,
            Python::ListComprehension => 220,
            Python::DictionaryComprehension => 221,
            Python::SetComprehension => 222,
            Python::GeneratorExpression => 223,
            Python::ComprehensionClauses => 224,
            Python::ParenthesizedExpression => 225,
            Python::CollectionElements => 226,
            Python::ForInClause => 227,
            Python::IfClause => 228,
            Python::ConditionalExpression => 229,
            Python::ConcatenatedString => 230,
            Python::String => 231,
            Python::StringContent => 232,
            Python::Interpolation => 233,
            Python::FExpression => 234,
            Python::NotEscapeSequence => 235,
            Python::FormatSpecifier => 236,
            Python::Await => 237,
            Python::PositionalSeparator => 238,
            Python::KeywordSeparator => 239,
            Python::ModuleRepeat1 => 240,
            Python::SimpleStatementsRepeat1 => 241,
            Python::ImportPrefixRepeat1 => 242,
            Python::ImportListRepeat1 => 243,
            Python::PrintStatementRepeat1 => 244,
            Python::AssertStatementRepeat1 => 245,
            Python::IfStatementRepeat1 => 246,
            Python::MatchStatementRepeat1 => 247,
            Python::MatchBlockRepeat1 => 248,
            Python::CaseClauseRepeat1 => 249,
            Python::TryStatementRepeat1 => 250,
            Python::ExceptClauseRepeat1 => 251,
            Python::WithClauseRepeat1 => 252,
            Python::GlobalStatementRepeat1 => 253,
            Python::TypeParameterRepeat1 => 254,
            Python::ArgumentListRepeat1 => 255,
            Python::DecoratedDefinitionRepeat1 => 256,
            Python::DottedNameRepeat1 => 257,
            Python::UnionPatternRepeat1 => 258,
            Python::DictPatternRepeat1 => 259,
            Python::ParametersRepeat1 => 260,
            Python::PatternsRepeat1 => 261,
            Python::ComparisonOperatorRepeat1 => 262,
            Python::SubscriptRepeat1 => 263,
            Python::DictionaryRepeat1 => 264,
            Python::ComprehensionClausesRepeat1 => 265,
            Python::CollectionElementsRepeat1 => 266,
            Python::ForInClauseRepeat1 => 267,
            Python::ConcatenatedStringRepeat1 => 268,
            Python::StringRepeat1 => 269,
            Python::StringContentRepeat1 => 270,
            Python::FormatSpecifierRepeat1 => 271,
            Python::AsPatternTarget => 272,
            Python::FormatExpression => 273,
            Python::Error => 274,
        }
    }

    /// The kind that a numeric id stands for: ids past the table give `Error`.
    pub open spec fn spec_from_id(x: u16) -> Python {
        match x {
            0 => Python::End,
            1 => Python::Identifier,
            2 => Python::SEMI,
            3 => Python::Import,
            4 => Python::DOT,
            5 => Python::From,
            6 => Python::Future,
            7 => Python::LPAREN,
            8 => Python::RPAREN,
            9 => Python::COMMA,
            10 => Python::As,
            11 => Python::STAR,
            12 => Python::Print,
            13 => Python::GTGT,
            14 => Python::Assert,
            15 => Python::COLONEQ,
            16 => Python::Return,
            17 => Python::Del,
            18 => Python::Raise,
            19 => Python::Pass,
            20 => Python::Break,
            21 => Python::Continue,
            22 => Python::If,
            23 => Python::COLON,
            24 => Python::Elif,
            25 => Python::Else,
            26 => Python::Match,
            27 => Python::Case,
            28 => Python::Async,
            29 => Python::For,
            30 => Python::In,
            31 => Python::While,
            32 => Python::Try,
            33 => Python::Except,
            34 => Python::STAR2,
            35 => Python::Finally,
            36 => Python::With,
            37 => Python::Def,
            38 => Python::DASHGT,
            39 => Python::STARSTAR,
            40 => Python::Global,
            41 => Python::Nonlocal,
            42 => Python::Exec,
            43 => Python::Type2,
            44 => Python::EQ,
            45 => Python::Class,
            46 => Python::LBRACK,
            47 => Python::RBRACK,
            48 => Python::AT,
            49 => Python::DASH,
            50 => Python::UNDERSCORE,
            51 => Python::PIPE,
            52 => Python::LBRACE,
            53 => Python::RBRACE,
            54 => Python::PLUS,
            55 => Python::Not,
            56 => Python::And,
            57 => Python::Or,
            58 => Python::SLASH,
            59 => Python::PERCENT,
            60 => Python::SLASHSLASH,
            61 => Python::AMP,
            62 => Python::CARET,
            63 => Python::LTLT,
            64 => Python::TILDE,
            65 => Python::Is,
            66 => Python::LT,
            67 => Python::LTEQ,
            68 => Python::EQEQ,
            69 => Python::BANGEQ,
            70 => Python::GTEQ,
            71 => Python::GT,
            72 => Python::LTGT,
            73 => Python::Lambda3,
            74 => Python::PLUSEQ,
            75 => Python::DASHEQ,
            76 => Python::STAREQ,
            77 => Python::SLASHEQ,
            78 => Python::ATEQ,
            79 => Python::SLASHSLASHEQ,
            80 => Python::PERCENTEQ,
            81 => Python::STARSTAREQ,
            82 => Python::GTGTEQ,
            83 => Python::LTLTEQ,
            84 => Python::AMPEQ,
            85 => Python::CARETEQ,
            86 => Python::PIPEEQ,
            87 => Python::Yield2,
            88 => Python::Ellipsis,
            89 => Python::EscapeSequence,
            90 => Python::BSLASH,
            91 => Python::FormatSpecifierToken1,
            92 => Python::TypeConversion,
            93 => Python::Integer,
            94 => Python::Float,
            95 => Python::Await2,
            96 => Python::True,
            97 => Python::False,
            98 => Python::NoneLiteral,
            99 => Python::Comment,
            100 => Python::LineContinuation,
            101 => Python::Newline,
            102 => Python::Indent,
            103 => Python::Dedent,
            104 => Python::StringStart,
            105 => Python::StringContent2,
            106 => Python::EscapeInterpolation,
            107 => Python::StringEnd,
            108 => Python::Module,
            109 => Python::Statement,
            110 => Python::SimpleStatements,
            111 => Python::ImportStatement,
            112 => Python::ImportPrefix,
            113 => Python::RelativeImport,
            114 => Python::FutureImportStatement,
            115 => Python::ImportFromStatement,
            116 => Python::ImportList,
            117 => Python::AliasedImport,
            118 => Python::WildcardImport,
            119 => Python::PrintStatement,
            120 => Python::Chevron,
            121 => Python::AssertStatement,
            122 => Python::ExpressionStatement,
            123 => Python::NamedExpression,
            124 => Python::NamedExpressionLhs,
            125 => Python::ReturnStatement,
            126 => Python::DeleteStatement,
            127 => Python::RaiseStatement,
            128 => Python::PassStatement,
            129 => Python::BreakStatement,
            130 => Python::ContinueStatement,
            131 => Python::IfStatement,
            132 => Python::ElifClause,
            133 => Python::ElseClause,
            134 => Python::MatchStatement,
            135 => Python::Block,
            136 => Python::CaseClause,
            137 => Python::ForStatement,
            138 => Python::WhileStatement,
            139 => Python::TryStatement,
            140 => Python::ExceptClause,
            141 => Python::FinallyClause,
            142 => Python::WithStatement,
            143 => Python::WithClause,
            144 => Python::WithItem,
            145 => Python::FunctionDefinition,
            146 => Python::Parameters,
            147 => Python::LambdaParameters,
            148 => Python::ListSplat,
            149 => Python::DictionarySplat,
            150 => Python::GlobalStatement,
            151 => Python::NonlocalStatement,
            152 => Python::ExecStatement,
            153 => Python::TypeAliasStatement,
            154 => Python::ClassDefinition,
            155 => Python::TypeParameter,
            156 => Python::ParenthesizedListSplat,
            157 => Python::ArgumentList,
            158 => Python::DecoratedDefinition,
            159 => Python::Decorator,
            160 => Python::Block2,
            161 => Python::ExpressionList,
            162 => Python::DottedName,
            163 => Python::CasePattern,
            164 => Python::SimplePattern,
            165 => Python::AsPattern,
            166 => Python::UnionPattern,
            167 => Python::ListPattern,
            168 => Python::TuplePattern,
            169 => Python::DictPattern,
            170 => Python::KeyValuePattern,
            171 => Python::KeywordPattern,
            172 => Python::SplatPattern,
            173 => Python::ClassPattern,
            174 => Python::ComplexPattern,
            175 => Python::Parameters2,
            176 => Python::Patterns,
            177 => Python::Parameter,
            178 => Python::Pattern,
            179 => Python::TuplePattern2,
            180 => Python::ListPattern2,
            181 => Python::DefaultParameter,
            182 => Python::TypedDefaultParameter,
            183 => Python::ListSplatPattern,
            184 => Python::DictionarySplatPattern,
            185 => Python::AsPattern2,
            186 => Python::ExpressionWithinForInClause,
            187 => Python::Expression,
            188 => Python::PrimaryExpression,
            189 => Python::NotOperator,
            190 => Python::BooleanOperator,
            191 => Python::BinaryOperator,
            192 => Python::UnaryOperator,
            193 => Python::NotIn,
            194 => Python::IsNot,
            195 => Python::ComparisonOperator,
            196 => Python::Lambda,
            197 => Python::Lambda2,
            198 => Python::Assignment,
            199 => Python::AugmentedAssignment,
            200 => Python::PatternList,
            201 => Python::RightHandSide,
            202 => Python::Yield,
            203 => Python::Attribute,
            204 => Python::Subscript,
            205 => Python::Slice,
            206 => Python::Call,
            207 => Python::TypedParameter,
            208 => Python::Type,
            209 => Python::SplatType,
            210 => Python::GenericType,
            211 => Python::UnionType,
            212 => Python::ConstrainedType,
            213 => Python::MemberType,
            214 => Python::KeywordArgument,
            215 => Python::List,
            216 => Python::SetLiteral,
            217 => Python::Tuple,
            218 => Python::Dictionary,
            219 => Python::Pair,
            220 => Python::ListComprehension,
            221 => Python::DictionaryComprehension,
            222 => Python::SetComprehension,
            223 => Python::GeneratorExpression,
            224 => Python::ComprehensionClauses,
            225 => Python::ParenthesizedExpression,
            226 => Python::CollectionElements,
            227 => Python::ForInClause,
            228 => Python::IfClause,
            229 => Python::ConditionalExpression,
            230 => Python::ConcatenatedString,
            231 => Python::String,
            232 => Python::StringContent,
            233 => Python::Interpolation,
            234 => Python::FExpression,
            235 => Python::NotEscapeSequence,
            236 => Python::FormatSpecifier,
            237 => Python::Await,
            238 => Python::PositionalSeparator,
            239 => Python::KeywordSeparator,
            240 => Python::ModuleRepeat1,
            241 => Python::SimpleStatementsRepeat1,
            242 => Python::ImportPrefixRepeat1,
            243 => Python::ImportListRepeat1,
            244 => Python::PrintStatementRepeat1,
            245 => Python::AssertStatementRepeat1,
            246 => Python::IfStatementRepeat1,
            247 => Python::MatchStatementRepeat1,
            248 => Python::MatchBlockRepeat1,
            249 => Python::CaseClauseRepeat1,
            250 => Python::TryStatementRepeat1,
            251 => Python::ExceptClauseRepeat1,
            252 => Python::WithClauseRepeat1,
            253 => Python::GlobalStatementRepeat1,
            254 => Python::TypeParameterRepeat1,
            255 => Python::ArgumentListRepeat1,
            256 => Python::DecoratedDefinitionRepeat1,
            257 => Python::DottedNameRepeat1,
            258 => Python::UnionPatternRepeat1,
            259 => Python::DictPatternRepeat1,
            260 => Python::ParametersRepeat1,
            261 => Python::PatternsRepeat1,
            262 => Python::ComparisonOperatorRepeat1,
            263 => Python::SubscriptRepeat1,
            264 => Python::DictionaryRepeat1,
            265 => Python::ComprehensionClausesRepeat1,
            266 => Python::CollectionElementsRepeat1,
            267 => Python::ForInClauseRepeat1,
            268 => Python::ConcatenatedStringRepeat1,
            269 => Python::StringRepeat1,
            270 => Python::StringContentRepeat1,
            271 => Python::FormatSpecifierRepeat1,
            272 => Python::AsPatternTarget,
            273 => Python::FormatExpression,
            _ => Python::Error,
        }
    }

    /// The display string of this kind.
    pub open spec fn text(self) -> Seq<char> {
        match self {
            Python::End => "end"@,
            Python::Identifier => "identifier"@,
            Python::SEMI => ";"@,
            Python::Import => "import"@,
            Python::DOT => "."@,
            Python::From => "from"@,
            Python::Future => "__future__"@,
            Python::LPAREN => "("@,
            Python::RPAREN => ")"@,
            Python::COMMA => ","@,
            Python::As => "as"@,
            Python::STAR => "*"@,
            Python::Print => "print"@,
            Python::GTGT => ">>"@,
            Python::Assert => "assert"@,
            Python::COLONEQ => ":="@,
            Python::Return => "return"@,
            Python::Del => "del"@,
            Python::Raise => "raise"@,
            Python::Pass => "pass"@,
            Python::Break => "break"@,
            Python::Continue => "continue"@,
            Python::If => "if"@,
            Python::COLON => ":"@,
            Python::Elif => "elif"@,
            Python::Else => "else"@,
            Python::Match => "match"@,
            Python::Case => "case"@,
            Python::Async => "async"@,
            Python::For => "for"@,
            Python::In => "in"@,
            Python::While => "while"@,
            Python::Try => "try"@,
            Python::Except => "except"@,
            Python::STAR2 => "*"@,
            Python::Finally => "finally"@,
            Python::With => "with"@,
            Python::Def => "def"@,
            Python::DASHGT => "->"@,
            Python::STARSTAR => "**"@,
            Python::Global => "global"@,
            Python::Nonlocal => "nonlocal"@,
            Python::Exec => "exec"@,
            Python::Type2 => "type"@,
            Python::EQ => "="@,
            Python::Class => "class"@,
            Python::LBRACK => "["@,
            Python::RBRACK => "]"@,
            Python::AT => "@"@,
            Python::DASH => "-"@,
            Python::UNDERSCORE => "_"@,
            Python::PIPE => "|"@,
            Python::LBRACE => "{"@,
            Python::RBRACE => "}"@,
            Python::PLUS => "+"@,
            Python::Not => "not"@,
            Python::And => "and"@,
            Python::Or => "or"@,
            Python::SLASH => "/"@,
            Python::PERCENT => "%"@,
            Python::SLASHSLASH => "//"@,
            Python::AMP => "&"@,
            Python::CARET => "^"@,
            Python::LTLT => "<<"@,
            Python::TILDE => "~"@,
            Python::Is => "is"@,
            Python::LT => "<"@,
            Python::LTEQ => "<="@,
            Python::EQEQ => "=="@,
            Python::BANGEQ => "!="@,
            Python::GTEQ => ">="@,
            Python::GT => ">"@,
            Python::LTGT => "<>"@,
            Python::Lambda3 => "lambda"@,
            Python::PLUSEQ => "+="@,
            Python::DASHEQ => "-="@,
            Python::STAREQ => "*="@,
            Python::SLASHEQ => "/="@,
            Python::ATEQ => "@="@,
            Python::SLASHSLASHEQ => "//="@,
            Python::PERCENTEQ => "%="@,
            Python::STARSTAREQ => "**="@,
            Python::GTGTEQ => ">>="@,
            Python::LTLTEQ => "<<="@,
            Python::AMPEQ => "&="@,
            Python::CARETEQ => "^="@,
            Python::PIPEEQ => "|="@,
            Python::Yield2 => "yield"@,
            Python::Ellipsis => "ellipsis"@,
            Python::EscapeSequence => "escape_sequence"@,
            Python::BSLASH => "\\"@,
            Python::FormatSpecifierToken1 => "format_specifier_token1"@,
            Python::TypeConversion => "type_conversion"@,
            Python::Integer => "integer"@,
            Python::Float => "float"@,
            Python::Await2 => "await"@,
            Python::True => "true"@,
            Python::False => "false"@,
            Python::NoneLiteral => "none"@,
            Python::Comment => "comment"@,
            Python::LineContinuation => "line_continuation"@,
            Python::Newline => "_newline"@,
            Python::Indent => "_indent"@,
            Python::Dedent => "_dedent"@,
            Python::StringStart => "string_start"@,
            Python::StringContent2 => "_string_content"@,
            Python::EscapeInterpolation => "escape_interpolation"@,
            Python::StringEnd => "string_end"@,
            Python::Module => "module"@,
            Python::Statement => "_statement"@,
            Python::SimpleStatements => "_simple_statements"@,
            Python::ImportStatement => "import_statement"@,
            Python::ImportPrefix => "import_prefix"@,
            Python::RelativeImport => "relative_import"@,
            Python::FutureImportStatement => "future_import_statement"@,
            Python::ImportFromStatement => "import_from_statement"@,
            Python::ImportList => "_import_list"@,
            Python::AliasedImport => "aliased_import"@,
            Python::WildcardImport => "wildcard_import"@,
            Python::PrintStatement => "print_statement"@,
            Python::Chevron => "chevron"@,
            Python::AssertStatement => "assert_statement"@,
            Python::ExpressionStatement => "expression_statement"@,
            Python::NamedExpression => "named_expression"@,
            Python::NamedExpressionLhs => "_named_expression_lhs"@,
            Python::ReturnStatement => "return_statement"@,
            Python::DeleteStatement => "delete_statement"@,
            Python::RaiseStatement => "raise_statement"@,
            Python::PassStatement => "pass_statement"@,
            Python::BreakStatement => "break_statement"@,
            Python::ContinueStatement => "continue_statement"@,
            Python::IfStatement => "if_statement"@,
            Python::ElifClause => "elif_clause"@,
            Python::ElseClause => "else_clause"@,
            Python::MatchStatement => "match_statement"@,
            Python::Block => "block"@,
            Python::CaseClause => "case_clause"@,
            Python::ForStatement => "for_statement"@,
            Python::WhileStatement => "while_statement"@,
            Python::TryStatement => "try_statement"@,
            Python::ExceptClause => "except_clause"@,
            Python::FinallyClause => "finally_clause"@,
            Python::WithStatement => "with_statement"@,
            Python::WithClause => "with_clause"@,
            Python::WithItem => "with_item"@,
            Python::FunctionDefinition => "function_definition"@,
            Python::Parameters => "parameters"@,
            Python::LambdaParameters => "lambda_parameters"@,
            Python::ListSplat => "list_splat"@,
            Python::DictionarySplat => "dictionary_splat"@,
            Python::GlobalStatement => "global_statement"@,
            Python::NonlocalStatement => "nonlocal_statement"@,
            Python::ExecStatement => "exec_statement"@,
            Python::TypeAliasStatement => "type_alias_statement"@,
            Python::ClassDefinition => "class_definition"@,
            Python::TypeParameter => "type_parameter"@,
            Python::ParenthesizedListSplat => "parenthesized_list_splat"@,
            Python::ArgumentList => "argument_list"@,
            Python::DecoratedDefinition => "decorated_definition"@,
            Python::Decorator => "decorator"@,
            Python::Block2 => "block"@,
            Python::ExpressionList => "expression_list"@,
            Python::DottedName => "dotted_name"@,
            Python::CasePattern => "case_pattern"@,
            Python::SimplePattern => "_simple_pattern"@,
            Python::AsPattern => "as_pattern"@,
            Python::UnionPattern => "union_pattern"@,
            Python::ListPattern => "list_pattern"@,
            Python::TuplePattern => "tuple_pattern"@,
            Python::DictPattern => "dict_pattern"@,
            Python::KeyValuePattern => "_key_value_pattern"@,
            Python::KeywordPattern => "keyword_pattern"@,
            Python::SplatPattern => "splat_pattern"@,
            Python::ClassPattern => "class_pattern"@,
            Python::ComplexPattern => "complex_pattern"@,
            Python::Parameters2 => "_parameters"@,
            Python::Patterns => "_patterns"@,
            Python::Parameter => "parameter"@,
            Python::Pattern => "pattern"@,
            Python::TuplePattern2 => "tuple_pattern"@,
            Python::ListPattern2 => "list_pattern"@,
            Python::DefaultParameter => "default_parameter"@,
            Python::TypedDefaultParameter => "typed_default_parameter"@,
            Python::ListSplatPattern => "list_splat_pattern"@,
            Python::DictionarySplatPattern => "dictionary_splat_pattern"@,
            Python::AsPattern2 => "as_pattern"@,
            Python::ExpressionWithinForInClause => "_expression_within_for_in_clause"@,
            Python::Expression => "expression"@,
            Python::PrimaryExpression => "primary_expression"@,
            Python::NotOperator => "not_operator"@,
            Python::BooleanOperator => "boolean_operator"@,
            Python::BinaryOperator => "binary_operator"@,
            Python::UnaryOperator => "unary_operator"@,
            Python::NotIn => "not in"@,
            Python::IsNot => "is not"@,
            Python::ComparisonOperator => "comparison_operator"@,
            Python::Lambda => "lambda"@,
            Python::Lambda2 => "lambda"@,
            Python::Assignment => "assignment"@,
            Python::AugmentedAssignment => "augmented_assignment"@,
            Python::PatternList => "pattern_list"@,
            Python::RightHandSide => "_right_hand_side"@,
            Python::Yield => "yield"@,
            Python::Attribute => "attribute"@,
            Python::Subscript => "subscript"@,
            Python::Slice => "slice"@,
            Python::Call => "call"@,
            Python::TypedParameter => "typed_parameter"@,
            Python::Type => "type"@,
            Python::SplatType => "splat_type"@,
            Python::GenericType => "generic_type"@,
            Python::UnionType => "union_type"@,
            Python::ConstrainedType => "constrained_type"@,
            Python::MemberType => "member_type"@,
            Python::KeywordArgument => "keyword_argument"@,
            Python::List => "list"@,
            Python::SetLiteral => "set"@,
            Python::Tuple => "tuple"@,
            Python::Dictionary => "dictionary"@,
            Python::Pair => "pair"@,
            Python::ListComprehension => "list_comprehension"@,
            Python::DictionaryComprehension => "dictionary_comprehension"@,
            Python::SetComprehension => "set_comprehension"@,
            Python::GeneratorExpression => "generator_expression"@,
            Python::ComprehensionClauses => "_comprehension_clauses"@,
            Python::ParenthesizedExpression => "parenthesized_expression"@,
            Python::CollectionElements => "_collection_elements"@,
            Python::ForInClause => "for_in_clause"@,
            Python::IfClause => "if_clause"@,
            Python::ConditionalExpression => "conditional_expression"@,
            Python::ConcatenatedString => "concatenated_string"@,
            Python::String => "string"@,
            Python::StringContent => "string_content"@,
            Python::Interpolation => "interpolation"@,
            Python::FExpression => "_f_expression"@,
            Python::NotEscapeSequence => "_not_escape_sequence"@,
            Python::FormatSpecifier => "format_specifier"@,
            Python::Await => "await"@,
            Python::PositionalSeparator => "positional_separator"@,
            Python::KeywordSeparator => "keyword_separator"@,
            Python::ModuleRepeat1 => "module_repeat1"@,
            Python::SimpleStatementsRepeat1 => "_simple_statements_repeat1"@,
            Python::ImportPrefixRepeat1 => "import_prefix_repeat1"@,
            Python::ImportListRepeat1 => "_import_list_repeat1"@,
            Python::PrintStatementRepeat1 => "print_statement_repeat1"@,
            Python::AssertStatementRepeat1 => "assert_statement_repeat1"@,
            Python::IfStatementRepeat1 => "if_statement_repeat1"@,
            Python::MatchStatementRepeat1 => "match_statement_repeat1"@,
            Python::MatchBlockRepeat1 => "_match_block_repeat1"@,
            Python::CaseClauseRepeat1 => "case_clause_repeat1"@,
            Python::TryStatementRepeat1 => "try_statement_repeat1"@,
            Python::ExceptClauseRepeat1 => "except_clause_repeat1"@,
            Python::WithClauseRepeat1 => "with_clause_repeat1"@,
            Python::GlobalStatementRepeat1 => "global_statement_repeat1"@,
            Python::TypeParameterRepeat1 => "type_parameter_repeat1"@,
            Python::ArgumentListRepeat1 => "argument_list_repeat1"@,
            Python::DecoratedDefinitionRepeat1 => "decorated_definition_repeat1"@,
            Python::DottedNameRepeat1 => "dotted_name_repeat1"@,
            Python::UnionPatternRepeat1 => "union_pattern_repeat1"@,
            Python::DictPatternRepeat1 => "dict_pattern_repeat1"@,
            Python::ParametersRepeat1 => "_parameters_repeat1"@,
            Python::PatternsRepeat1 => "_patterns_repeat1"@,
            Python::ComparisonOperatorRepeat1 => "comparison_operator_repeat1"@,
            Python::SubscriptRepeat1 => "subscript_repeat1"@,
            Python::DictionaryRepeat1 => "dictionary_repeat1"@,
            Python::ComprehensionClausesRepeat1 => "_comprehension_clauses_repeat1"@,
            Python::CollectionElementsRepeat1 => "_collection_elements_repeat1"@,
            Python::ForInClauseRepeat1 => "for_in_clause_repeat1"@,
            Python::ConcatenatedStringRepeat1 => "concatenated_string_repeat1"@,
            Python::StringRepeat1 => "string_repeat1"@,
            Python::StringContentRepeat1 => "string_content_repeat1"@,
            Python::FormatSpecifierRepeat1 => "format_specifier_repeat1"@,
            Python::AsPatternTarget => "as_pattern_target"@,
            Python::FormatExpression => "format_expression"@,
            Python::Error => "ERROR"@,
        }
    }

    /// Maps a numeric kind id to its kind; an id outside the table maps to `Error`.
    pub fn from_u16(x: u16) -> (r: Python)
        ensures
            r == Python::spec_from_id(x),
            x > 274 ==> r == Python::Error,
    {
        match x {
            0 => Python::End,
            1 => Python::Identifier,
            2 => Python::SEMI,
            3 => Python::Import,
            4 => Python::DOT,
            5 => Python::From,
            6 => Python::Future,
            7 => Python::LPAREN,
            8 => Python::RPAREN,
            9 => Python::COMMA,
            10 => Python::As,
            11 => Python::STAR,
            12 => Python::Print,
            13 => Python::GTGT,
            14 => Python::Assert,
            15 => Python::COLONEQ,
            16 => Python::Return,
            17 => Python::Del,
            18 => Python::Raise,
            19 => Python::Pass,
            20 => Python::Break,
            21 => Python::Continue,
            22 => Python::If,
            23 => Python::COLON,
            24 => Python::Elif,
            25 => Python::Else,
            26 => Python::Match,
            27 => Python::Case,
            28 => Python::Async,
            29 => Python::For,
            30 => Python::In,
            31 => Python::While,
            32 => Python::Try,
            33 => Python::Except,
            34 => Python::STAR2,
            35 => Python::Finally,
            36 => Python::With,
            37 => Python::Def,
            38 => Python::DASHGT,
            39 => Python::STARSTAR,
            40 => Python::Global,
            41 => Python::Nonlocal,
            42 => Python::Exec,
            43 => Python::Type2,
            44 => Python::EQ,
            45 => Python::Class,
            46 => Python::LBRACK,
            47 => Python::RBRACK,
            48 => Python::AT,
            49 => Python::DASH,
            50 => Python::UNDERSCORE,
            51 => Python::PIPE,
            52 => Python::LBRACE,
            53 => Python::RBRACE,
            54 => Python::PLUS,
            55 => Python::Not,
            56 => Python::And,
            57 => Python::Or,
            58 => Python::SLASH,
            59 => Python::PERCENT,
            60 => Python::SLASHSLASH,
            61 => Python::AMP,
            62 => Python::CARET,
            63 => Python::LTLT,
            64 => Python::TILDE,
            65 => Python::Is,
            66 => Python::LT,
            67 => Python::LTEQ,
            68 => Python::EQEQ,
            69 => Python::BANGEQ,
            70 => Python::GTEQ,
            71 => Python::GT,
            72 => Python::LTGT,
            73 => Python::Lambda3,
            74 => Python::PLUSEQ,
            75 => Python::DASHEQ,
            76 => Python::STAREQ,
            77 => Python::SLASHEQ,
            78 => Python::ATEQ,
            79 => Python::SLASHSLASHEQ,
            80 => Python::PERCENTEQ,
            81 => Python::STARSTAREQ,
            82 => Python::GTGTEQ,
            83 => Python::LTLTEQ,
            84 => Python::AMPEQ,
            85 => Python::CARETEQ,
            86 => Python::PIPEEQ,
            87 => Python::Yield2,
            88 => Python::Ellipsis,
            89 => Python::EscapeSequence,
            90 => Python::BSLASH,
            91 => Python::FormatSpecifierToken1,
            92 => Python::TypeConversion,
            93 => Python::Integer,
            94 => Python::Float,
            95 => Python::Await2,
            96 => Python::True,
            97 => Python::False,
            98 => Python::NoneLiteral,
            99 => Python::Comment,
            100 => Python::LineContinuation,
            101 => Python::Newline,
            102 => Python::Indent,
            103 => Python::Dedent,
            104 => Python::StringStart,
            105 => Python::StringContent2,
            106 => Python::EscapeInterpolation,
            107 => Python::StringEnd,
            108 => Python::Module,
            109 => Python::Statement,
            110 => Python::SimpleStatements,
            111 => Python::ImportStatement,
            112 => Python::ImportPrefix,
            113 => Python::RelativeImport,
            114 => Python::FutureImportStatement,
            115 => Python::ImportFromStatement,
            116 => Python::ImportList,
            117 => Python::AliasedImport,
            118 => Python::WildcardImport,
            119 => Python::PrintStatement,
            120 => Python::Chevron,
            121 => Python::AssertStatement,
            122 => Python::ExpressionStatement,
            123 => Python::NamedExpression,
            124 => Python::NamedExpressionLhs,
            125 => Python::ReturnStatement,
            126 => Python::DeleteStatement,
            127 => Python::RaiseStatement,
            128 => Python::PassStatement,
            129 => Python::BreakStatement,
            130 => Python::ContinueStatement,
            131 => Python::IfStatement,
            132 => Python::ElifClause,
            133 => Python::ElseClause,
            134 => Python::MatchStatement,
            135 => Python::Block,
            136 => Python::CaseClause,
            137 => Python::ForStatement,
            138 => Python::WhileStatement,
            139 => Python::TryStatement,
            140 => Python::ExceptClause,
            141 => Python::FinallyClause,
            142 => Python::WithStatement,
            143 => Python::WithClause,
            144 => Python::WithItem,
            145 => Python::FunctionDefinition,
            146 => Python::Parameters,
            147 => Python::LambdaParameters,
            148 => Python::ListSplat,
            149 => Python::DictionarySplat,
            150 => Python::GlobalStatement,
            151 => Python::NonlocalStatement,
            152 => Python::ExecStatement,
            153 => Python::TypeAliasStatement,
            154 => Python::ClassDefinition,
            155 => Python::TypeParameter,
            156 => Python::ParenthesizedListSplat,
            157 => Python::ArgumentList,
            158 => Python::DecoratedDefinition,
            159 => Python::Decorator,
            160 => Python::Block2,
            161 => Python::ExpressionList,
            162 => Python::DottedName,
            163 => Python::CasePattern,
            164 => Python::SimplePattern,
            165 => Python::AsPattern,
            166 => Python::UnionPattern,
            167 => Python::ListPattern,
            168 => Python::TuplePattern,
            169 => Python::DictPattern,
            170 => Python::KeyValuePattern,
            171 => Python::KeywordPattern,
            172 => Python::SplatPattern,
            173 => Python::ClassPattern,
            174 => Python::ComplexPattern,
            175 => Python::Parameters2,
            176 => Python::Patterns,
            177 => Python::Parameter,
            178 => Python::Pattern,
            179 => Python::TuplePattern2,
            180 => Python::ListPattern2,
            181 => Python::DefaultParameter,
            182 => Python::TypedDefaultParameter,
            183 => Python::ListSplatPattern,
            184 => Python::DictionarySplatPattern,
            185 => Python::AsPattern2,
            186 => Python::ExpressionWithinForInClause,
            187 => Python::Expression,
            188 => Python::PrimaryExpression,
            189 => Python::NotOperator,
            190 => Python::BooleanOperator,
            191 => Python::BinaryOperator,
            192 => Python::UnaryOperator,
            193 => Python::NotIn,
            194 => Python::IsNot,
            195 => Python::ComparisonOperator,
            196 => Python::Lambda,
            197 => Python::Lambda2,
            198 => Python::Assignment,
            199 => Python::AugmentedAssignment,
            200 => Python::PatternList,
            201 => Python::RightHandSide,
            202 => Python::Yield,
            203 => Python::Attribute,
            204 => Python::Subscript,
            205 => Python::Slice,
            206 => Python::Call,
            207 => Python::TypedParameter,
            208 => Python::Type,
            209 => Python::SplatType,
            210 => Python::GenericType,
            211 => Python::UnionType,
            212 => Python::ConstrainedType,
            213 => Python::MemberType,
            214 => Python::KeywordArgument,
            215 => Python::List,
            216 => Python::SetLiteral,
            217 => Python::Tuple,
            218 => Python::Dictionary,
            219 => Python::Pair,
            220 => Python::ListComprehension,
            221 => Python::DictionaryComprehension,
            222 => Python::SetComprehension,
            223 => Python::GeneratorExpression,
            224 => Python::ComprehensionClauses,
            225 => Python::ParenthesizedExpression,
            226 => Python::CollectionElements,
            227 => Python::ForInClause,
            228 => Python::IfClause,
            229 => Python::ConditionalExpression,
            230 => Python::ConcatenatedString,
            231 => Python::String,
            232 => Python::StringContent,
            233 => Python::Interpolation,
            234 => Python::FExpression,
            235 => Python::NotEscapeSequence,
            236 => Python::FormatSpecifier,
            237 => Python::Await,
            238 => Python::PositionalSeparator,
            239 => Python::KeywordSeparator,
            240 => Python::ModuleRepeat1,
            241 => Python::SimpleStatementsRepeat1,
            242 => Python::ImportPrefixRepeat1,
            243 => Python::ImportListRepeat1,
            244 => Python::PrintStatementRepeat1,
            245 => Python::AssertStatementRepeat1,
            246 => Python::IfStatementRepeat1,
            247 => Python::MatchStatementRepeat1,
            248 => Python::MatchBlockRepeat1,
            249 => Python::CaseClauseRepeat1,
            250 => Python::TryStatementRepeat1,
            251 => Python::ExceptClauseRepeat1,
            252 => Python::WithClauseRepeat1,
            253 => Python::GlobalStatementRepeat1,
            254 => Python::TypeParameterRepeat1,
            255 => Python::ArgumentListRepeat1,
            256 => Python::DecoratedDefinitionRepeat1,
            257 => Python::DottedNameRepeat1,
            258 => Python::UnionPatternRepeat1,
            259 => Python::DictPatternRepeat1,
            260 => Python::ParametersRepeat1,
            261 => Python::PatternsRepeat1,
            262 => Python::ComparisonOperatorRepeat1,
            263 => Python::SubscriptRepeat1,
            264 => Python::DictionaryRepeat1,
            265 => Python::ComprehensionClausesRepeat1,
            266 => Python::CollectionElementsRepeat1,
            267 => Python::ForInClauseRepeat1,
            268 => Python::ConcatenatedStringRepeat1,
            269 => Python::StringRepeat1,
            270 => Python::StringContentRepeat1,
            271 => Python::FormatSpecifierRepeat1,
            272 => Python::AsPatternTarget,
            273 => Python::FormatExpression,
            _ => Python::Error,
        }
    }

    /// The display string of this kind.
    pub fn as_str(&self) -> (r: &'static str)
        ensures
            r@ == self.text(),
    {
        match self {
            Python::End => "end",
            Python::Identifier => "identifier",
            Python::SEMI => ";",
            Python::Import => "import",
            Python::DOT => ".",
            Python::From => "from",
            Python::Future => "__future__",
            Python::LPAREN => "(",
            Python::RPAREN => ")",
            Python::COMMA => ",",
            Python::As => "as",
            Python::STAR => "*",
            Python::Print => "print",
            Python::GTGT => ">>",
            Python::Assert => "assert",
            Python::COLONEQ => ":=",
            Python::Return => "return",
            Python::Del => "del",
            Python::Raise => "raise",
            Python::Pass => "pass",
            Python::Break => "break",
            Python::Continue => "continue",
            Python::If => "if",
            Python::COLON => ":",
            Python::Elif => "elif",
            Python::Else => "else",
            Python::Match => "match",
            Python::Case => "case",
            Python::Async => "async",
            Python::For => "for",
            Python::In => "in",
            Python::While => "while",
            Python::Try => "try",
            Python::Except => "except",
            Python::STAR2 => "*",
            Python::Finally => "finally",
            Python::With => "with",
            Python::Def => "def",
            Python::DASHGT => "->",
            Python::STARSTAR => "**",
            Python::Global => "global",
            Python::Nonlocal => "nonlocal",
            Python::Exec => "exec",
            Python::Type2 => "type",
            Python::EQ => "=",
            Python::Class => "class",
            Python::LBRACK => "[",
            Python::RBRACK => "]",
            Python::AT => "@",
            Python::DASH => "-",
            Python::UNDERSCORE => "_",
            Python::PIPE => "|",
            Python::LBRACE => "{",
            Python::RBRACE => "}",
            Python::PLUS => "+",
            Python::Not => "not",
            Python::And => "and",
            Python::Or => "or",
            Python::SLASH => "/",
            Python::PERCENT => "%",
            Python::SLASHSLASH => "//",
            Python::AMP => "&",
            Python::CARET => "^",
            Python::LTLT => "<<",
            Python::TILDE => "~",
            Python::Is => "is",
            Python::LT => "<",
            Python::LTEQ => "<=",
            Python::EQEQ => "==",
            Python::BANGEQ => "!=",
            Python::GTEQ => ">=",
            Python::GT => ">",
            Python::LTGT => "<>",
            Python::Lambda3 => "lambda",
            Python::PLUSEQ => "+=",
            Python::DASHEQ => "-=",
            Python::STAREQ => "*=",
            Python::SLASHEQ => "/=",
            Python::ATEQ => "@=",
            Python::SLASHSLASHEQ => "//=",
            Python::PERCENTEQ => "%=",
            Python::STARSTAREQ => "**=",
            Python::GTGTEQ => ">>=",
            Python::LTLTEQ => "<<=",
            Python::AMPEQ => "&=",
            Python::CARETEQ => "^=",
            Python::PIPEEQ => "|=",
            Python::Yield2 => "yield",
            Python::Ellipsis => "ellipsis",
            Python::EscapeSequence => "escape_sequence",
            Python::BSLASH => "\\",
            Python::FormatSpecifierToken1 => "format_specifier_token1",
            Python::TypeConversion => "type_conversion",
            Python::Integer => "integer",
            Python::Float => "float",
            Python::Await2 => "await",
            Python::True => "true",
            Python::False => "false",
            Python::NoneLiteral => "none",
            Python::Comment => "comment",
            Python::LineContinuation => "line_continuation",
            Python::Newline => "_newline",
            Python::Indent => "_indent",
            Python::Dedent => "_dedent",
            Python::StringStart => "string_start",
            Python::StringContent2 => "_string_content",
            Python::EscapeInterpolation => "escape_interpolation",
            Python::StringEnd => "string_end",
            Python::Module => "module",
            Python::Statement => "_statement",
            Python::SimpleStatements => "_simple_statements",
            Python::ImportStatement => "import_statement",
            Python::ImportPrefix => "import_prefix",
            Python::RelativeImport => "relative_import",
            Python::FutureImportStatement => "future_import_statement",
            Python::ImportFromStatement => "import_from_statement",
            Python::ImportList => "_import_list",
            Python::AliasedImport => "aliased_import",
            Python::WildcardImport => "wildcard_import",
            Python::PrintStatement => "print_statement",
            Python::Chevron => "chevron",
            Python::AssertStatement => "assert_statement",
            Python::ExpressionStatement => "expression_statement",
            Python::NamedExpression => "named_expression",
            Python::NamedExpressionLhs => "_named_expression_lhs",
            Python::ReturnStatement => "return_statement",
            Python::DeleteStatement => "delete_statement",
            Python::RaiseStatement => "raise_statement",
            Python::PassStatement => "pass_statement",
            Python::BreakStatement => "break_statement",
            Python::ContinueStatement => "continue_statement",
            Python::IfStatement => "if_statement",
            Python::ElifClause => "elif_clause",
            Python::ElseClause => "else_clause",
            Python::MatchStatement => "match_statement",
            Python::Block => "block",
            Python::CaseClause => "case_clause",
            Python::ForStatement => "for_statement",
            Python::WhileStatement => "while_statement",
            Python::TryStatement => "try_statement",
            Python::ExceptClause => "except_clause",
            Python::FinallyClause => "finally_clause",
            Python::WithStatement => "with_statement",
            Python::WithClause => "with_clause",
            Python::WithItem => "with_item",
            Python::FunctionDefinition => "function_definition",
            Python::Parameters => "parameters",
            Python::LambdaParameters => "lambda_parameters",
            Python::ListSplat => "list_splat",
            Python::DictionarySplat => "dictionary_splat",
            Python::GlobalStatement => "global_statement",
            Python::NonlocalStatement => "nonlocal_statement",
            Python::ExecStatement => "exec_statement",
            Python::TypeAliasStatement => "type_alias_statement",
            Python::ClassDefinition => "class_definition",
            Python::TypeParameter => "type_parameter",
            Python::ParenthesizedListSplat => "parenthesized_list_splat",
            Python::ArgumentList => "argument_list",
            Python::DecoratedDefinition => "decorated_definition",
            Python::Decorator => "decorator",
            Python::Block2 => "block",
            Python::ExpressionList => "expression_list",
            Python::DottedName => "dotted_name",
            Python::CasePattern => "case_pattern",
            Python::SimplePattern => "_simple_pattern",
            Python::AsPattern => "as_pattern",
            Python::UnionPattern => "union_pattern",
            Python::ListPattern => "list_pattern",
            Python::TuplePattern => "tuple_pattern",
            Python::DictPattern => "dict_pattern",
            Python::KeyValuePattern => "_key_value_pattern",
            Python::KeywordPattern => "keyword_pattern",
            Python::SplatPattern => "splat_pattern",
            Python::ClassPattern => "class_pattern",
            Python::ComplexPattern => "complex_pattern",
            Python::Parameters2 => "_parameters",
            Python::Patterns => "_patterns",
            Python::Parameter => "parameter",
            Python::Pattern => "pattern",
            Python::TuplePattern2 => "tuple_pattern",
            Python::ListPattern2 => "list_pattern",
            Python::DefaultParameter => "default_parameter",
            Python::TypedDefaultParameter => "typed_default_parameter",
            Python::ListSplatPattern => "list_splat_pattern",
            Python::DictionarySplatPattern => "dictionary_splat_pattern",
            Python::AsPattern2 => "as_pattern",
            Python::ExpressionWithinForInClause => "_expression_within_for_in_clause",
            Python::Expression => "expression",
            Python::PrimaryExpression => "primary_expression",
            Python::NotOperator => "not_operator",
            Python::BooleanOperator => "boolean_operator",
            Python::BinaryOperator => "binary_operator",
            Python::UnaryOperator => "unary_operator",
            Python::NotIn => "not in",
            Python::IsNot => "is not",
            Python::ComparisonOperator => "comparison_operator",
            Python::Lambda => "lambda",
            Python::Lambda2 => "lambda",
            Python::Assignment => "assignment",
            Python::AugmentedAssignment => "augmented_assignment",
            Python::PatternList => "pattern_list",
            Python::RightHandSide => "_right_hand_side",
            Python::Yield => "yield",
            Python::Attribute => "attribute",
            Python::Subscript => "subscript",
            Python::Slice => "slice",
            Python::Call => "call",
            Python::TypedParameter => "typed_parameter",
            Python::Type => "type",
            Python::SplatType => "splat_type",
            Python::GenericType => "generic_type",
            Python::UnionType => "union_type",
            Python::ConstrainedType => "constrained_type",
            Python::MemberType => "member_type",
            Python::KeywordArgument => "keyword_argument",
            Python::List => "list",
            Python::SetLiteral => "set",
            Python::Tuple => "tuple",
            Python::Dictionary => "dictionary",
            Python::Pair => "pair",
            Python::ListComprehension => "list_comprehension",
            Python::DictionaryComprehension => "dictionary_comprehension",
            Python::SetComprehension => "set_comprehension",
            Python::GeneratorExpression => "generator_expression",
            Python::ComprehensionClauses => "_comprehension_clauses",
            Python::ParenthesizedExpression => "parenthesized_expression",
            Python::CollectionElements => "_collection_elements",
            Python::ForInClause => "for_in_clause",
            Python::IfClause => "if_clause",
            Python::ConditionalExpression => "conditional_expression",
            Python::ConcatenatedString => "concatenated_string",
            Python::String => "string",
            Python::StringContent => "string_content",
            Python::Interpolation => "interpolation",
            Python::FExpression => "_f_expression",
            Python::NotEscapeSequence => "_not_escape_sequence",
            Python::FormatSpecifier => "format_specifier",
            Python::Await => "await",
            Python::PositionalSeparator => "positional_separator",
            Python::KeywordSeparator => "keyword_separator",
            Python::ModuleRepeat1 => "module_repeat1",
            Python::SimpleStatementsRepeat1 => "_simple_statements_repeat1",
            Python::ImportPrefixRepeat1 => "import_prefix_repeat1",
            Python::ImportListRepeat1 => "_import_list_repeat1",
            Python::PrintStatementRepeat1 => "print_statement_repeat1",
            Python::AssertStatementRepeat1 => "assert_statement_repeat1",
            Python::IfStatementRepeat1 => "if_statement_repeat1",
            Python::MatchStatementRepeat1 => "match_statement_repeat1",
            Python::MatchBlockRepeat1 => "_match_block_repeat1",
            Python::CaseClauseRepeat1 => "case_clause_repeat1",
            Python::TryStatementRepeat1 => "try_statement_repeat1",
            Python::ExceptClauseRepeat1 => "except_clause_repeat1",
            Python::WithClauseRepeat1 => "with_clause_repeat1",
            Python::GlobalStatementRepeat1 => "global_statement_repeat1",
            Python::TypeParameterRepeat1 => "type_parameter_repeat1",
            Python::ArgumentListRepeat1 => "argument_list_repeat1",
            Python::DecoratedDefinitionRepeat1 => "decorated_definition_repeat1",
            Python::DottedNameRepeat1 => "dotted_name_repeat1",
            Python::UnionPatternRepeat1 => "union_pattern_repeat1",
            Python::DictPatternRepeat1 => "dict_pattern_repeat1",
            Python::ParametersRepeat1 => "_parameters_repeat1",
            Python::PatternsRepeat1 => "_patterns_repeat1",
            Python::ComparisonOperatorRepeat1 => "comparison_operator_repeat1",
            Python::SubscriptRepeat1 => "subscript_repeat1",
            Python::DictionaryRepeat1 => "dictionary_repeat1",
            Python::ComprehensionClausesRepeat1 => "_comprehension_clauses_repeat1",
            Python::CollectionElementsRepeat1 => "_collection_elements_repeat1",
            Python::ForInClauseRepeat1 => "for_in_clause_repeat1",
            Python::ConcatenatedStringRepeat1 => "concatenated_string_repeat1",
            Python::StringRepeat1 => "string_repeat1",
            Python::StringContentRepeat1 => "string_content_repeat1",
            Python::FormatSpecifierRepeat1 => "format_specifier_repeat1",
            Python::AsPatternTarget => "as_pattern_target",
            Python::FormatExpression => "format_expression",
            Python::Error => "ERROR",
        }
    }
}

impl From<u16> for Python {
    fn from(x: u16) -> (r: Python)
        ensures
            r == Python::spec_from_id(x),
    {
        Python::from_u16(x)
    }
}

impl vstd::std_specs::convert::FromSpecImpl<u16> for Python {
    open spec fn obeys_from_spec() -> bool {
        true
    }

    open spec fn from_spec(x: u16) -> Python {
        Python::spec_from_id(x)
    }
}

/// A kind id read back from its kind gives that kind again.
pub proof fn lemma_id_round_trip(k: Python)
    ensures
        Python::spec_from_id(k.id()) == k,
{
}

} // verus!
