use vstd::prelude::*;

verus! {

/// Node kinds of the JavaScript grammar, in the grammar's own numbering.
#[derive(Clone, Copy, Debug, PartialEq, Eq, Structural)]
pub enum Javascript {
    End,
    Identifier,
    HashBangLine,
    Export,
    STAR,
    Default,
    As,
    LBRACE,
    COMMA,
    RBRACE,
    Import2,
    From,
    With,
    Var,
    Let,
    Const,
    Using,
    Await,
    Of,
    Else,
    If,
    Switch,
    For,
    LPAREN,
    SEMI,
    RPAREN,
    In,
    While,
    Do,
    Try,
    Break,
    Continue,
    Debugger,
    Return,
    Throw,
    COLON,
    Case,
    Catch,
    Finally,
    Yield,
    EQ,
    LBRACK,
    RBRACK,
    HtmlCharacterReference,
    LT,
    GT,
    Identifier2,
    DOT,
    LTSLASH,
    SLASHGT,
    DQUOTE,
    SQUOTE,
    StringFragment,
    StringFragment2,
    Class2,
    Extends,
    Async,
    Function,
    EQGT,
    OptionalChain,
    New,
    PLUSEQ,
    DASHEQ,
    STAREQ,
    SLASHEQ,
    PERCENTEQ,
    CARETEQ,
    AMPEQ,
    PIPEEQ,
    GTGTEQ,
    GTGTGTEQ,
    LTLTEQ,
    STARSTAREQ,
    AMPAMPEQ,
    PIPEPIPEEQ,
    QMARKQMARKEQ,
    DOTDOTDOT,
    AMPAMP,
    PIPEPIPE,
    GTGT,
    GTGTGT,
    LTLT,
    AMP,
    CARET,
    PIPE,
    PLUS,
    DASH,
    SLASH,
    PERCENT,
    STARSTAR,
    LTEQ,
    EQEQ,
    EQEQEQ,
    BANGEQ,
    BANGEQEQ,
    GTEQ,
    QMARKQMARK,
    Instanceof,
    BANG,
    TILDE,
    Typeof,
    Void,
    Delete,
    PLUSPLUS,
    DASHDASH,
    StringFragment3,
    StringFragment4,
    EscapeSequence,
    Comment,
    BQUOTE,
    DOLLARLBRACE,
    SLASH2,
    RegexPattern,
    RegexFlags,
    Number,
    PrivatePropertyIdentifier,
    Target,
    Meta,
    This,
    Super,
    True,
    False,
    Null,
    Undefined,
    AT,
    Static,
    StaticGet,
    Get,
    SetLiteral,
    AutomaticSemicolon,
    StringFragment5,
    QMARK,
    HtmlComment,
    JsxText,
    Program,
    ExportStatement,
    NamespaceExport,
    ExportClause,
    ExportSpecifier,
    ModuleExportName,
    Declaration,
    Import,
    ImportStatement,
    ImportClause,
    FromClause,
    NamespaceImport,
    NamedImports,
    ImportSpecifier,
    ImportAttribute,
    Statement,
    ExpressionStatement,
    VariableDeclaration,
    LexicalDeclaration,
    UsingDeclaration,
    VariableDeclarator,
    StatementBlock,
    ElseClause,
    IfStatement,
    SwitchStatement,
    ForStatement,
    ForInStatement,
    ForHeader,
    WhileStatement,
    DoStatement,
    TryStatement,
    WithStatement,
    BreakStatement,
    ContinueStatement,
    DebuggerStatement,
    ReturnStatement,
    ThrowStatement,
    EmptyStatement,
    LabeledStatement,
    SwitchBody,
    SwitchCase,
    SwitchDefault,
    CatchClause,
    FinallyClause,
    ParenthesizedExpression,
    Expression,
    PrimaryExpression,
    YieldExpression,
    Object,
    ObjectPattern,
    AssignmentPattern,
    ObjectAssignmentPattern,
    Array,
    ArrayPattern,
    JsxElement,
    JsxExpression,
    JsxOpeningElement,
    MemberExpression,
    JsxNamespaceName,
    JsxClosingElement,
    JsxSelfClosingElement,
    JsxAttribute,
    String,
    Class,
    ClassDeclaration,
    ClassHeritage,
    FunctionExpression,
    FunctionDeclaration,
    GeneratorFunction,
    GeneratorFunctionDeclaration,
    ArrowFunction,
    CallExpression,
    NewExpression,
    AwaitExpression,
    MemberExpression2,
    SubscriptExpression,
    AssignmentExpression,
    AugmentedAssignmentLhs,
    AugmentedAssignmentExpression,
    Initializer,
    DestructuringPattern,
    SpreadElement,
    TernaryExpression,
    BinaryExpression,
    UnaryExpression,
    UpdateExpression,
    SequenceExpression,
    String2,
    TemplateString,
    TemplateSubstitution,
    Regex,
    MetaProperty,
    Arguments,
    Decorator,
    MemberExpression3,
    CallExpression2,
    ClassBody,
    FieldDefinition,
    FormalParameters,
    ClassStaticBlock,
    Pattern,
    RestPattern,
    MethodDefinition,
    Pair,
    PairPattern,
    PropertyName,
    ComputedPropertyName,
    ProgramRepeat1,
    ExportStatementRepeat1,
    ExportClauseRepeat1,
    NamedImportsRepeat1,
    VariableDeclarationRepeat1,
    SwitchBodyRepeat1,
    ObjectRepeat1,
    ObjectPatternRepeat1,
    ArrayRepeat1,
    ArrayPatternRepeat1,
    JsxElementRepeat1,
    JsxOpeningElementRepeat1,
    JsxStringRepeat1,
    JsxStringRepeat2,
    SequenceExpressionRepeat1,
    StringRepeat1,
    StringRepeat2,
    TemplateStringRepeat1,
    ClassBodyRepeat1,
    FormalParametersRepeat1,
    PropertyIdentifier,
    ShorthandPropertyIdentifier,
    ShorthandPropertyIdentifierPattern,
    StatementIdentifier,
    Error,
}

impl Javascript {
    /// The grammar's numeric id of this kind.
    pub open spec fn id(self) -> u16 {
        match self {
            Javascript::End => 0,
            Javascript::Identifier => 1,
            Javascript::HashBangLine => 2,
            Javascript::Export => 3,
            Javascript::STAR => 4,
            Javascript::Default => 5,
            Javascript::As => 6,
            Javascript::LBRACE => 7,
            Javascript::COMMA => 8,
            Javascript::RBRACE => 9,
            Javascript::Import2 => 10,
            Javascript::From => 11,
            Javascript::With => 12,
            Javascript::Var => 13,
            Javascript::Let => 14,
            Javascript::Const => 15,
            Javascript::Using => 16,
            Javascript::Await => 17,
            Javascript::Of => 18,
            Javascript::Else => 19,
            Javascript::If => 20,
            Javascript::Switch => 21,
            Javascript::For => 22,
            Javascript::LPAREN => 23,
            Javascript::SEMI => 24,
            Javascript::RPAREN => 25,
            Javascript::In => 26,
            Javascript::While => 27,
            Javascript::Do => 28,
            Javascript::Try => 29,
            Javascript::Break => 30,
            Javascript::Continue => 31,
            Javascript::Debugger => 32,
            Javascript::Return => 33,
            Javascript::Throw => 34,
            Javascript::COLON => 35,
            Javascript::Case => 36,
            Javascript::Catch => 37,
            Javascript::Finally => 38,
            Javascript::Yield => 39,
            Javascript::EQ => 40,
            Javascript::LBRACK => 41,
            Javascript::RBRACK => 42,
            Javascript::HtmlCharacterReference => 43,
            Javascript::LT => 44,
            Javascript::GT => 45,
            Javascript::Identifier2 => 46,
            Javascript::DOT => 47,
            Javascript::LTSLASH => 48,
            Javascript::SLASHGT => 49,
            Javascript::DQUOTE => 50,
            Javascript::SQUOTE => 51,
            Javascript::StringFragment => 52,
            Javascript::StringFragment2 => 53,
            Javascript::Class2 => 54,
            Javascript::Extends => 55,
            Javascript::Async => 56,
            Javascript::Function => 57,
            Javascript::EQGT => 58,
            Javascript::OptionalChain => 59,
            Javascript::New => 60,
            Javascript::PLUSEQ => 61,
            Javascript::DASHEQ => 62,
            Javascript::STAREQ => 63,
            Javascript::SLASHEQ => 64,
            Javascript::PERCENTEQ => 65,
            Javascript::CARETEQ => 66,
            Javascript::AMPEQ => 67,
            Javascript::PIPEEQ => 68,
            Javascript::GTGTEQ => 69,
            Javascript::GTGTGTEQ => 70,
            Javascript::LTLTEQ => 71,
            Javascript::STARSTAREQ => 72,
            Javascript::AMPAMPEQ => 73,
            Javascript::PIPEPIPEEQ => 74,
            Javascript::QMARKQMARKEQ => 75,
            Javascript::DOTDOTDOT => 76,
            Javascript::AMPAMP => 77,
            Javascript::PIPEPIPE => 78,
            Javascript::GTGT => 79,
            Javascript::GTGTGT => 80,
            Javascript::LTLT => 81,
            Javascript::AMP => 82,
            Javascript::CARET => 83,
            Javascript::PIPE => 84,
            Javascript::PLUS => 85,
            Javascript::DASH => 86,
            Javascript::SLASH => 87,
            Javascript::PERCENT => 88,
            Javascript::STARSTAR => 89,
            Javascript::LTEQ => 90,
            Javascript::EQEQ => 91,
            Javascript::EQEQEQ => 92,
            Javascript::BANGEQ => 93,
            Javascript::BANGEQEQ => 94,
            Javascript::GTEQ => 95,
            Javascript::QMARKQMARK => 96,
            Javascript::Instanceof => 97,
            Javascript::BANG => 98,
            Javascript::TILDE => 99,
            Javascript::Typeof => 100,
            Javascript::Void => 101,
            Javascript::Delete => 102,
            Javascript::PLUSPLUS => 103,
            Javascript::DASHDASH => 104,
            Javascript::StringFragment3 => 105,
            Javascript::StringFragment4 => 106,
            Javascript::EscapeSequence => 107,
            Javascript::Comment => 108,
            Javascript::BQUOTE => 109,
            Javascript::DOLLARLBRACE => 110,
            Javascript::SLASH2 => 111,
            Javascript::RegexPattern => 112,
            Javascript::RegexFlags => 113,
            Javascript::Number => 114,
            Javascript::PrivatePropertyIdentifier => 115,
            Javascript::Target => 116,
            Javascript::Meta => 117,
            Javascript::This => 118,
            Javascript::Super => 119,
            Javascript::True => 120,
            Javascript::False => 121,
            Javascript::Null => 122,
            Javascript::Undefined => 123,
            Javascript::AT => 124,
            Javascript::Static => 125,
            Javascript::StaticGet => 126,
            Javascript::Get => 127,
            Javascript::SetLiteral => 128,
            Javascript::AutomaticSemicolon => 129,
            Javascript::StringFragment5 => 130,
            Javascript::QMARK => 131,
            Javascript::HtmlComment => 132,
            Javascript::JsxText => 133,
            Javascript::Program => 134,
            Javascript::ExportStatement => 135,
            Javascript::NamespaceExport => 136,
            Javascript::ExportClause => 137,
            Javascript::ExportSpecifier => 138,
            Javascript::ModuleExportName => 139,
            Javascript::Declaration => 140,
            Javascript::Import => 141,
            Javascript::ImportStatement => 142,
            Javascript::ImportClause => 143,
            Javascript::FromClause => 144,
            Javascript::NamespaceImport => 145,
            Javascript::NamedImports => 146,
            Javascript::ImportSpecifier => 147,
            Javascript::ImportAttribute => 148,
            Javascript::Statement => 149,
            Javascript::ExpressionStatement => 150,
            Javascript::VariableDeclaration => 151,
            Javascript::LexicalDeclaration => 152,
            Javascript::UsingDeclaration => 153,
            Javascript::VariableDeclarator => 154,
            Javascript::StatementBlock => 155,
            Javascript::ElseClause => 156,
            Javascript::IfStatement => 157,
            Javascript::SwitchStatement => 158,
            Javascript::ForStatement => 159,
            Javascript::ForInStatement => 160,
            Javascript::ForHeader => 161,
            Javascript::WhileStatement => 162,
            Javascript::DoStatement => 163,
            Javascript::TryStatement => 164,
            Javascript::WithStatement => 165,
            Javascript::BreakStatement => 166,
            Javascript::ContinueStatement => 167,
            Javascript::DebuggerStatement => 168,
            Javascript::ReturnStatement => 169,
            Javascript::ThrowStatement => 170,
            Javascript::EmptyStatement => 171,
            Javascript::LabeledStatement => 172,
            Javascript::SwitchBody => 173,
            Javascript::SwitchCase => 174,
            Javascript::SwitchDefault => 175,
            Javascript::CatchClause => 176,
            Javascript::FinallyClause => 177,
            Javascript::ParenthesizedExpression => 178,
            Javascript::Expression => 179,
            Javascript::PrimaryExpression => 180,
            Javascript::YieldExpression => 181,
            Javascript::Object => 182,
            Javascript::ObjectPattern => 183,
            Javascript::AssignmentPattern => 184,
            Javascript::ObjectAssignmentPattern => 185,
            Javascript::Array => 186,
            Javascript::ArrayPattern => 187,
            Javascript::JsxElement => 188,
            Javascript::JsxExpression => 189,
            Javascript::JsxOpeningElement => 190,
            Javascript::MemberExpression => 191,
            Javascript::JsxNamespaceName => 192,
            Javascript::JsxClosingElement => 193,
            Javascript::JsxSelfClosingElement => 194,
            Javascript::JsxAttribute => 195,
            Javascript::String => 196,
            Javascript::Class => 197,
            Javascript::ClassDeclaration => 198,
            Javascript::ClassHeritage => 199,
            Javascript::FunctionExpression => 200,
            Javascript::FunctionDeclaration => 201,
            Javascript::GeneratorFunction => 202,
            Javascript::GeneratorFunctionDeclaration => 203,
            Javascript::ArrowFunction => 204,
            Javascript::CallExpression => 205,
            Javascript::NewExpression => 206,
            Javascript::AwaitExpression => 207,
            Javascript::MemberExpression2 => 208,
            Javascript::SubscriptExpression => 209,
            Javascript::AssignmentExpression => 210,
            Javascript::AugmentedAssignmentLhs => 211,
            Javascript::AugmentedAssignmentExpression => 212,
            Javascript::Initializer => 213,
            Javascript::DestructuringPattern => 214,
            Javascript::SpreadElement => 215,
            Javascript::TernaryExpression => 216,
            Javascript::BinaryExpression => 217,
            Javascript::UnaryExpression => 218,
            Javascript::UpdateExpression => 219,
            Javascript::SequenceExpression => 220,
            Javascript::String2 => 221,
            Javascript::TemplateString => 222,
            Javascript::TemplateSubstitution => 223,
            Javascript::Regex => 224,
            Javascript::MetaProperty => 225,
            Javascript::Arguments => 226,
            Javascript::Decorator => 227,
            Javascript::MemberExpression3 => 228,
            Javascript::CallExpression2 => 229,
            Javascript::ClassBody => 230,
            Javascript::FieldDefinition => 231,
            Javascript::FormalParameters => 232,
            Javascript::ClassStaticBlock => 233,
            Javascript::Pattern => 234,
            Javascript::RestPattern => 235,
            Javascript::MethodDefinition => 236,
            Javascript::Pair => 237,
            Javascript::PairPattern => 238,
            Javascript::PropertyName => 239,
            Javascript::ComputedPropertyName => 240,
            Javascript::ProgramRepeat1 => 241,
            Javascript::ExportStatementRepeat1 => 242,
            Javascript::ExportClauseRepeat1 => 243,
            Javascript::NamedImportsRepeat1 => 244,
            Javascript::VariableDeclarationRepeat1 => 245,
            Javascript::SwitchBodyRepeat1 => 246,
            Javascript::ObjectRepeat1 => 247,
            Javascript::ObjectPatternRepeat1 => 248,
            Javascript::ArrayRepeat1 => 249,
            Javascript::ArrayPatternRepeat1 => 250,
            Javascript::JsxElementRepeat1 => 251,
            Javascript::JsxOpeningElementRepeat1 => 252,
            Javascript::JsxStringRepeat1 => 253,
            Javascript::JsxStringRepeat2 => 254,
            Javascript::SequenceExpressionRepeat1 => 255,
            Javascript::StringRepeat1 => 256,
            Javascript::StringRepeat2 => 257,
            Javascript::TemplateStringRepeat1 => 258,
            Javascript::ClassBodyRepeat1 => 259,
            Javascript::FormalParametersRepeat1 => 260,
            Javascript::PropertyIdentifier => 261,
            Javascript::ShorthandPropertyIdentifier => 262,
            Javascript::ShorthandPropertyIdentifierPattern => 263,
            Javascript::StatementIdentifier => 264,
            Javascript::Error => 265,
        }
    }

    /// The kind that a numeric id stands for: ids past the table give `Error`.
    pub open spec fn spec_from_id(x: u16) -> Javascript {
        match x {
            0 => Javascript::End,
            1 => Javascript::Identifier,
            2 => Javascript::HashBangLine,
            3 => Javascript::Export,
            4 => Javascript::STAR,
            5 => Javascript::Default,
            6 => Javascript::As,
            7 => Javascript::LBRACE,
            8 => Javascript::COMMA,
            9 => Javascript::RBRACE,
            10 => Javascript::Import2,
            11 => Javascript::From,
            12 => Javascript::With,
            13 => Javascript::Var,
            14 => Javascript::Let,
            15 => Javascript::Const,
            16 => Javascript::Using,
            17 => Javascript::Await,
            18 => Javascript::Of,
            19 => Javascript::Else,
            20 => Javascript::If,
            21 => Javascript::Switch,
            22 => Javascript::For,
            23 => Javascript::LPAREN,
            24 => Javascript::SEMI,
            25 => Javascript::RPAREN,
            26 => Javascript::In,
            27 => Javascript::While,
            28 => Javascript::Do,
            29 => Javascript::Try,
            30 => Javascript::Break,
            31 => Javascript::Continue,
            32 => Javascript::Debugger,
            33 => Javascript::Return,
            34 => Javascript::Throw,
            35 => Javascript::COLON,
            36 => Javascript::Case,
            37 => Javascript::Catch,
            38 => Javascript::Finally,
            39 => Javascript::Yield,
            40 => Javascript::EQ,
            41 => Javascript::LBRACK,
            42 => Javascript::RBRACK,
            43 => Javascript::HtmlCharacterReference,
            44 => Javascript::LT,
            45 => Javascript::GT,
            46 => Javascript::Identifier2,
            47 => Javascript::DOT,
            48 => Javascript::LTSLASH,
            49 => Javascript::SLASHGT,
            50 => Javascript::DQUOTE,
            51 => Javascript::SQUOTE,
            52 => Javascript::StringFragment,
            53 => Javascript::StringFragment2,
            54 => Javascript::Class2,
            55 => Javascript::Extends,
            56 => Javascript::Async,
            57 => Javascript::Function,
            58 => Javascript::EQGT,
            59 => Javascript::OptionalChain,
            60 => Javascript::New,
            61 => Javascript::PLUSEQ,
            62 => Javascript::DASHEQ,
            63 => Javascript::STAREQ,
            64 => Javascript::SLASHEQ,
            65 => Javascript::PERCENTEQ,
            66 => Javascript::CARETEQ,
            67 => Javascript::AMPEQ,
            68 => Javascript::PIPEEQ,
            69 => Javascript::GTGTEQ,
            70 => Javascript::GTGTGTEQ,
            71 => Javascript::LTLTEQ,
            72 => Javascript::STARSTAREQ,
            73 => Javascript::AMPAMPEQ,
            74 => Javascript::PIPEPIPEEQ,
            75 => Javascript::QMARKQMARKEQ,
            76 => Javascript::DOTDOTDOT,
            77 => Javascript::AMPAMP,
            78 => Javascript::PIPEPIPE,
            79 => Javascript::GTGT,
            80 => Javascript::GTGTGT,
            81 => Javascript::LTLT,
            82 => Javascript::AMP,
            83 => Javascript::CARET,
            84 => Javascript::PIPE,
            85 => Javascript::PLUS,
            86 => Javascript::DASH,
            87 => Javascript::SLASH,
            88 => Javascript::PERCENT,
            89 => Javascript::STARSTAR,
            90 => Javascript::LTEQ,
            91 => Javascript::EQEQ,
            92 => Javascript::EQEQEQ,
            93 => Javascript::BANGEQ,
            94 => Javascript::BANGEQEQ,
            95 => Javascript::GTEQ,
            96 => Javascript::QMARKQMARK,
            97 => Javascript::Instanceof,
            98 => Javascript::BANG,
            99 => Javascript::TILDE,
            100 => Javascript::Typeof,
            101 => Javascript::Void,
            102 => Javascript::Delete,
            103 => Javascript::PLUSPLUS,
            104 => Javascript::DASHDASH,
            105 => Javascript::StringFragment3,
            106 => Javascript::StringFragment4,
            107 => Javascript::EscapeSequence,
            108 => Javascript::Comment,
            109 => Javascript::BQUOTE,
            110 => Javascript::DOLLARLBRACE,
            111 => Javascript::SLASH2,
            112 => Javascript::RegexPattern,
            113 => Javascript::RegexFlags,
            114 => Javascript::Number,
            115 => Javascript::PrivatePropertyIdentifier,
            116 => Javascript::Target,
            117 => Javascript::Meta,
            118 => Javascript::This,
            119 => Javascript::Super,
            120 => Javascript::True,
            121 => Javascript::False,
            122 => Javascript::Null,
            123 => Javascript::Undefined,
            124 => Javascript::AT,
            125 => Javascript::Static,
            126 => Javascript::StaticGet,
            127 => Javascript::Get,
            128 => Javascript::SetLiteral,
            129 => Javascript::AutomaticSemicolon,
            130 => Javascript::StringFragment5,
            131 => Javascript::QMARK,
            132 => Javascript::HtmlComment,
            133 => Javascript::JsxText,
            134 => Javascript::Program,
            135 => Javascript::ExportStatement,
            136 => Javascript::NamespaceExport,
            137 => Javascript::ExportClause,
            138 => Javascript::ExportSpecifier,
            139 => Javascript::ModuleExportName,
            140 => Javascript::Declaration,
            141 => Javascript::Import,
            142 => Javascript::ImportStatement,
            143 => Javascript::ImportClause,
            144 => Javascript::FromClause,
            145 => Javascript::NamespaceImport,
            146 => Javascript::NamedImports,
            147 => Javascript::ImportSpecifier,
            148 => Javascript::ImportAttribute,
            149 => Javascript::Statement,
            150 => Javascript::ExpressionStatement,
            151 => Javascript::VariableDeclaration,
            152 => Javascript::LexicalDeclaration,
            153 => Javascript::UsingDeclaration,
            154 => Javascript::VariableDeclarator,
            155 => Javascript::StatementBlock,
            156 => Javascript::ElseClause,
            157 => Javascript::IfStatement,
            158 => Javascript::SwitchStatement,
            159 => Javascript::ForStatement,
            160 => Javascript::ForInStatement,
            161 => Javascript::ForHeader,
            162 => Javascript::WhileStatement,
            163 => Javascript::DoStatement,
            164 => Javascript::TryStatement,
            165 => Javascript::WithStatement,
            166 => Javascript::BreakStatement,
            167 => Javascript::ContinueStatement,
            168 => Javascript::DebuggerStatement,
            169 => Javascript::ReturnStatement,
            170 => Javascript::ThrowStatement,
            171 => Javascript::EmptyStatement,
            172 => Javascript::LabeledStatement,
            173 => Javascript::SwitchBody,
            174 => Javascript::SwitchCase,
            175 => Javascript::SwitchDefault,
            176 => Javascript::CatchClause,
            177 => Javascript::FinallyClause,
            178 => Javascript::ParenthesizedExpression,
            179 => Javascript::Expression,
            180 => Javascript::PrimaryExpression,
            181 => Javascript::YieldExpression,
            182 => Javascript::Object,
            183 => Javascript::ObjectPattern,
            184 => Javascript::AssignmentPattern,
            185 => Javascript::ObjectAssignmentPattern,
            186 => Javascript::Array,
            187 => Javascript::ArrayPattern,
            188 => Javascript::JsxElement,
            189 => Javascript::JsxExpression,
            190 => Javascript::JsxOpeningElement,
            191 => Javascript::MemberExpression,
            192 => Javascript::JsxNamespaceName,
            193 => Javascript::JsxClosingElement,
            194 => Javascript::JsxSelfClosingElement,
            195 => Javascript::JsxAttribute,
            196 => Javascript::String,
            197 => Javascript::Class,
            198 => Javascript::ClassDeclaration,
            199 => Javascript::ClassHeritage,
            200 => Javascript::FunctionExpression,
            201 => Javascript::FunctionDeclaration,
            202 => Javascript::GeneratorFunction,
            203 => Javascript::GeneratorFunctionDeclaration,
            204 => Javascript::ArrowFunction,
            205 => Javascript::CallExpression,
            206 => Javascript::NewExpression,
            207 => Javascript::AwaitExpression,
            208 => Javascript::MemberExpression2,
            209 => Javascript::SubscriptExpression,
            210 => Javascript::AssignmentExpression,
            211 => Javascript::AugmentedAssignmentLhs,
            212 => Javascript::AugmentedAssignmentExpression,
            213 => Javascript::Initializer,
            214 => Javascript::DestructuringPattern,
            215 => Javascript::SpreadElement,
            216 => Javascript::TernaryExpression,
            217 => Javascript::BinaryExpression,
            218 => Javascript::UnaryExpression,
            219 => Javascript::UpdateExpression,
            220 => Javascript::SequenceExpression,
            221 => Javascript::String2,
            222 => Javascript::TemplateString,
            223 => Javascript::TemplateSubstitution,
            224 => Javascript::Regex,
            225 => Javascript::MetaProperty,
            226 => Javascript::Arguments,
            227 => Javascript::Decorator,
            228 => Javascript::MemberExpression3,
            229 => Javascript::CallExpression2,
            230 => Javascript::ClassBody,
            231 => Javascript::FieldDefinition,
            232 => Javascript::FormalParameters,
            233 => Javascript::ClassStaticBlock,
            234 => Javascript::Pattern,
            235 => Javascript::RestPattern,
            236 => Javascript::MethodDefinition,
            237 => Javascript::Pair,
            238 => Javascript::PairPattern,
            239 => Javascript::PropertyName,
            240 => Javascript::ComputedPropertyName,
            241 => Javascript::ProgramRepeat1,
            242 => Javascript::ExportStatementRepeat1,
            243 => Javascript::ExportClauseRepeat1,
            244 => Javascript::NamedImportsRepeat1,
            245 => Javascript::VariableDeclarationRepeat1,
            246 => Javascript::SwitchBodyRepeat1,
            247 => Javascript::ObjectRepeat1,
            248 => Javascript::ObjectPatternRepeat1,
            249 => Javascript::ArrayRepeat1,
            250 => Javascript::ArrayPatternRepeat1,
            251 => Javascript::JsxElementRepeat1,
            252 => Javascript::JsxOpeningElementRepeat1,
            253 => Javascript::JsxStringRepeat1,
            254 => Javascript::JsxStringRepeat2,
            255 => Javascript::SequenceExpressionRepeat1,
            256 => Javascript::StringRepeat1,
            257 => Javascript::StringRepeat2,
            258 => Javascript::TemplateStringRepeat1,
            259 => Javascript::ClassBodyRepeat1,
            260 => Javascript::FormalParametersRepeat1,
            261 => Javascript::PropertyIdentifier,
            262 => Javascript::ShorthandPropertyIdentifier,
            263 => Javascript::ShorthandPropertyIdentifierPattern,
            264 => Javascript::StatementIdentifier,
            _ => Javascript::Error,
        }
    }

    /// The display string of this kind.
    pub open spec fn text(self) -> Seq<char> {
        match self {
            Javascript::End => "end"@,
            Javascript::Identifier => "identifier"@,
            Javascript::HashBangLine => "hash_bang_line"@,
            Javascript::Export => "export"@,
            Javascript::STAR => "*"@,
            Javascript::Default => "default"@,
            Javascript::As => "as"@,
            Javascript::LBRACE => "{"@,
            Javascript::COMMA => ","@,
            Javascript::RBRACE => "}"@,
            Javascript::Import2 => "import"@,
            Javascript::From => "from"@,
            Javascript::With => "with"@,
            Javascript::Var => "var"@,
            Javascript::Let => "let"@,
            Javascript::Const => "const"@,
            Javascript::Using => "using"@,
            Javascript::Await => "await"@,
            Javascript::Of => "of"@,
            Javascript::Else => "else"@,
            Javascript::If => "if"@,
            Javascript::Switch => "switch"@,
            Javascript::For => "for"@,
            Javascript::LPAREN => "("@,
            Javascript::SEMI => ";"@,
            Javascript::RPAREN => ")"@,
            Javascript::In => "in"@,
            Javascript::While => "while"@,
            Javascript::Do => "do"@,
            Javascript::Try => "try"@,
            Javascript::Break => "break"@,
            Javascript::Continue => "continue"@,
            Javascript::Debugger => "debugger"@,
            Javascript::Return => "return"@,
            Javascript::Throw => "throw"@,
            Javascript::COLON => ":"@,
            Javascript::Case => "case"@,
            Javascript::Catch => "catch"@,
            Javascript::Finally => "finally"@,
            Javascript::Yield => "yield"@,
            Javascript::EQ => "="@,
            Javascript::LBRACK => "["@,
            Javascript::RBRACK => "]"@,
            Javascript::HtmlCharacterReference => "html_character_reference"@,
            Javascript::LT => "<"@,
            Javascript::GT => ">"@,
            Javascript::Identifier2 => "identifier"@,
            Javascript::DOT => "."@,
            Javascript::LTSLASH => "</"@,
            Javascript::SLASHGT => "/>"@,
            Javascript::DQUOTE => "\""@,
            Javascript::SQUOTE => "'"@,
            Javascript::StringFragment => "string_fragment"@,
            Javascript::StringFragment2 => "string_fragment"@,
            Javascript::Class2 => "class"@,
            Javascript::Extends => "extends"@,
            Javascript::Async => "async"@,
            Javascript::Function => "function"@,
            Javascript::EQGT => "=>"@,
            Javascript::OptionalChain => "optional_chain"@,
            Javascript::New => "new"@,
            Javascript::PLUSEQ => "+="@,
            Javascript::DASHEQ => "-="@,
            Javascript::STAREQ => "*="@,
            Javascript::SLASHEQ => "/="@,
            Javascript::PERCENTEQ => "%="@,
            Javascript::CARETEQ => "^="@,
            Javascript::AMPEQ => "&="@,
            Javascript::PIPEEQ => "|="@,
            Javascript::GTGTEQ => ">>="@,
            Javascript::GTGTGTEQ => ">>>="@,
            Javascript::LTLTEQ => "<<="@,
            Javascript::STARSTAREQ => "**="@,
            Javascript::AMPAMPEQ => "&&="@,
            Javascript::PIPEPIPEEQ => "||="@,
            Javascript::QMARKQMARKEQ => "??="@,
            Javascript::DOTDOTDOT => "..."@,
            Javascript::AMPAMP => "&&"@,
            Javascript::PIPEPIPE => "||"@,
            Javascript::GTGT => ">>"@,
            Javascript::GTGTGT => ">>>"@,
            Javascript::LTLT => "<<"@,
            Javascript::AMP => "&"@,
            Javascript::CARET => "^"@,
            Javascript::PIPE => "|"@,
            Javascript::PLUS => "+"@,
            Javascript::DASH => "-"@,
            Javascript::SLASH => "/"@,
            Javascript::PERCENT => "%"@,
            Javascript::STARSTAR => "**"@,
            Javascript::LTEQ => "<="@,
            Javascript::EQEQ => "=="@,
            Javascript::EQEQEQ => "==="@,
            Javascript::BANGEQ => "!="@,
            Javascript::BANGEQEQ => "!=="@,
            Javascript::GTEQ => ">="@,
            Javascript::QMARKQMARK => "??"@,
            Javascript::Instanceof => "instanceof"@,
            Javascript::BANG => "!"@,
            Javascript::TILDE => "~"@,
            Javascript::Typeof => "typeof"@,
            Javascript::Void => "void"@,
            Javascript::Delete => "delete"@,
            Javascript::PLUSPLUS => "++"@,
            Javascript::DASHDASH => "--"@,
            Javascript::StringFragment3 => "string_fragment"@,
            Javascript::StringFragment4 => "string_fragment"@,
            Javascript::EscapeSequence => "escape_sequence"@,
            Javascript::Comment => "comment"@,
            Javascript::BQUOTE => "`"@,
            Javascript::DOLLARLBRACE => "${"@,
            Javascript::SLASH2 => "/"@,
            Javascript::RegexPattern => "regex_pattern"@,
            Javascript::RegexFlags => "regex_flags"@,
            Javascript::Number => "number"@,
            Javascript::PrivatePropertyIdentifier => "private_property_identifier"@,
            Javascript::Target => "target"@,
            Javascript::Meta => "meta"@,
            Javascript::This => "this"@,
            Javascript::Super => "super"@,
            Javascript::True => "true"@,
            Javascript::False => "false"@,
            Javascript::Null => "null"@,
            Javascript::Undefined => "undefined"@,
            Javascript::AT => "@"@,
            Javascript::Static => "static"@,
            Javascript::StaticGet => "static get"@,
            Javascript::Get => "get"@,
            Javascript::SetLiteral => "set"@,
            Javascript::AutomaticSemicolon => "_automatic_semicolon"@,
            Javascript::StringFragment5 => "string_fragment"@,
            Javascript::QMARK => "?"@,
            Javascript::HtmlComment => "html_comment"@,
            Javascript::JsxText => "jsx_text"@,
            Javascript::Program => "program"@,
            Javascript::ExportStatement => "export_statement"@,
            Javascript::NamespaceExport => "namespace_export"@,
            Javascript::ExportClause => "export_clause"@,
            Javascript::ExportSpecifier => "export_specifier"@,
            Javascript::ModuleExportName => "_module_export_name"@,
            Javascript::Declaration => "declaration"@,
            Javascript::Import => "import"@,
            Javascript::ImportStatement => "import_statement"@,
            Javascript::ImportClause => "import_clause"@,
            Javascript::FromClause => "_from_clause"@,
            Javascript::NamespaceImport => "namespace_import"@,
            Javascript::NamedImports => "named_imports"@,
            Javascript::ImportSpecifier => "import_specifier"@,
            Javascript::ImportAttribute => "import_attribute"@,
            Javascript::Statement => "statement"@,
            Javascript::ExpressionStatement => "expression_statement"@,
            Javascript::VariableDeclaration => "variable_declaration"@,
            Javascript::LexicalDeclaration => "lexical_declaration"@,
            Javascript::UsingDeclaration => "using_declaration"@,
            Javascript::VariableDeclarator => "variable_declarator"@,
            Javascript::StatementBlock => "statement_block"@,
            Javascript::ElseClause => "else_clause"@,
            Javascript::IfStatement => "if_statement"@,
            Javascript::SwitchStatement => "switch_statement"@,
            Javascript::ForStatement => "for_statement"@,
            Javascript::ForInStatement => "for_in_statement"@,
            Javascript::ForHeader => "_for_header"@,
            Javascript::WhileStatement => "while_statement"@,
            Javascript::DoStatement => "do_statement"@,
            Javascript::TryStatement => "try_statement"@,
            Javascript::WithStatement => "with_statement"@,
            Javascript::BreakStatement => "break_statement"@,
            Javascript::ContinueStatement => "continue_statement"@,
            Javascript::DebuggerStatement => "debugger_statement"@,
            Javascript::ReturnStatement => "return_statement"@,
            Javascript::ThrowStatement => "throw_statement"@,
            Javascript::EmptyStatement => "empty_statement"@,
            Javascript::LabeledStatement => "labeled_statement"@,
            Javascript::SwitchBody => "switch_body"@,
            Javascript::SwitchCase => "switch_case"@,
            Javascript::SwitchDefault => "switch_default"@,
            Javascript::CatchClause => "catch_clause"@,
            Javascript::FinallyClause => "finally_clause"@,
            Javascript::ParenthesizedExpression => "parenthesized_expression"@,
            Javascript::Expression => "expression"@,
            Javascript::PrimaryExpression => "primary_expression"@,
            Javascript::YieldExpression => "yield_expression"@,
            Javascript::Object => "object"@,
            Javascript::ObjectPattern => "object_pattern"@,
            Javascript::AssignmentPattern => "assignment_pattern"@,
            Javascript::ObjectAssignmentPattern => "object_assignment_pattern"@,
            Javascript::Array => "array"@,
            Javascript::ArrayPattern => "array_pattern"@,
            Javascript::JsxElement => "jsx_element"@,
            Javascript::JsxExpression => "jsx_expression"@,
            Javascript::JsxOpeningElement => "jsx_opening_element"@,
            Javascript::MemberExpression => "member_expression"@,
            Javascript::JsxNamespaceName => "jsx_namespace_name"@,
            Javascript::JsxClosingElement => "jsx_closing_element"@,
            Javascript::JsxSelfClosingElement => "jsx_self_closing_element"@,
            Javascript::JsxAttribute => "jsx_attribute"@,
            Javascript::String => "string"@,
            Javascript::Class => "class"@,
            Javascript::ClassDeclaration => "class_declaration"@,
            Javascript::ClassHeritage => "class_heritage"@,
            Javascript::FunctionExpression => "function_expression"@,
            Javascript::FunctionDeclaration => "function_declaration"@,
            Javascript::GeneratorFunction => "generator_function"@,
            Javascript::GeneratorFunctionDeclaration => "generator_function_declaration"@,
            Javascript::ArrowFunction => "arrow_function"@,
            Javascript::CallExpression => "call_expression"@,
            Javascript::NewExpression => "new_expression"@,
            Javascript::AwaitExpression => "await_expression"@,
            Javascript::MemberExpression2 => "member_expression"@,
            Javascript::SubscriptExpression => "subscript_expression"@,
            Javascript::AssignmentExpression => "assignment_expression"@,
            Javascript::AugmentedAssignmentLhs => "_augmented_assignment_lhs"@,
            Javascript::AugmentedAssignmentExpression => "augmented_assignment_expression"@,
            Javascript::Initializer => "_initializer"@,
            Javascript::DestructuringPattern => "_destructuring_pattern"@,
            Javascript::SpreadElement => "spread_element"@,
            Javascript::TernaryExpression => "ternary_expression"@,
            Javascript::BinaryExpression => "binary_expression"@,
            Javascript::UnaryExpression => "unary_expression"@,
            Javascript::UpdateExpression => "update_expression"@,
            Javascript::SequenceExpression => "sequence_expression"@,
            Javascript::String2 => "string"@,
            Javascript::TemplateString => "template_string"@,
            Javascript::TemplateSubstitution => "template_substitution"@,
            Javascript::Regex => "regex"@,
            Javascript::MetaProperty => "meta_property"@,
            Javascript::Arguments => "arguments"@,
            Javascript::Decorator => "decorator"@,
            Javascript::MemberExpression3 => "member_expression"@,
            Javascript::CallExpression2 => "call_expression"@,
            Javascript::ClassBody => "class_body"@,
            Javascript::FieldDefinition => "field_definition"@,
            Javascript::FormalParameters => "formal_parameters"@,
            Javascript::ClassStaticBlock => "class_static_block"@,
            Javascript::Pattern => "pattern"@,
            Javascript::RestPattern => "rest_pattern"@,
            Javascript::MethodDefinition => "method_definition"@,
            Javascript::Pair => "pair"@,
            Javascript::PairPattern => "pair_pattern"@,
            Javascript::PropertyName => "_property_name"@,
            Javascript::ComputedPropertyName => "computed_property_name"@,
            Javascript::ProgramRepeat1 => "program_repeat1"@,
            Javascript::ExportStatementRepeat1 => "export_statement_repeat1"@,
            Javascript::ExportClauseRepeat1 => "export_clause_repeat1"@,
            Javascript::NamedImportsRepeat1 => "named_imports_repeat1"@,
            Javascript::VariableDeclarationRepeat1 => "variable_declaration_repeat1"@,
            Javascript::SwitchBodyRepeat1 => "switch_body_repeat1"@,
            Javascript::ObjectRepeat1 => "object_repeat1"@,
            Javascript::ObjectPatternRepeat1 => "object_pattern_repeat1"@,
            Javascript::ArrayRepeat1 => "array_repeat1"@,
            Javascript::ArrayPatternRepeat1 => "array_pattern_repeat1"@,
            Javascript::JsxElementRepeat1 => "jsx_element_repeat1"@,
            Javascript::JsxOpeningElementRepeat1 => "jsx_opening_element_repeat1"@,
            Javascript::JsxStringRepeat1 => "_jsx_string_repeat1"@,
            Javascript::JsxStringRepeat2 => "_jsx_string_repeat2"@,
            Javascript::SequenceExpressionRepeat1 => "sequence_expression_repeat1"@,
            Javascript::StringRepeat1 => "string_repeat1"@,
            Javascript::StringRepeat2 => "string_repeat2"@,
            Javascript::TemplateStringRepeat1 => "template_string_repeat1"@,
            Javascript::ClassBodyRepeat1 => "class_body_repeat1"@,
            Javascript::FormalParametersRepeat1 => "formal_parameters_repeat1"@,
            Javascript::PropertyIdentifier => "property_identifier"@,
            Javascript::ShorthandPropertyIdentifier => "shorthand_property_identifier"@,
            Javascript::ShorthandPropertyIdentifierPattern => "shorthand_property_identifier_pattern"@,
            Javascript::StatementIdentifier => "statement_identifier"@,
            Javascript::Error => "ERROR"@,
        }
    }

    /// Maps a numeric kind id to its kind; an id outside the table maps to `Error`.
    pub fn from_u16(x: u16) -> (r: Javascript)
        ensures
            r == Javascript::spec_from_id(x),
            x > 265 ==> r == Javascript::Error,
    {
        match x {
            0 => Javascript::End,
            1 => Javascript::Identifier,
            2 => Javascript::HashBangLine,
            3 => Javascript::Export,
            4 => Javascript::STAR,
            5 => Javascript::Default,
            6 => Javascript::As,
            7 => Javascript::LBRACE,
            8 => Javascript::COMMA,
            9 => Javascript::RBRACE,
            10 => Javascript::Import2,
            11 => Javascript::From,
            12 => Javascript::With,
            13 => Javascript::Var,
            14 => Javascript::Let,
            15 => Javascript::Const,
            16 => Javascript::Using,
            17 => Javascript::Await,
            18 => Javascript::Of,
            19 => Javascript::Else,
            20 => Javascript::If,
            21 => Javascript::Switch,
            22 => Javascript::For,
            23 => Javascript::LPAREN,
            24 => Javascript::SEMI,
            25 => Javascript::RPAREN,
            26 => Javascript::In,
            27 => Javascript::While,
            28 => Javascript::Do,
            29 => Javascript::Try,
            30 => Javascript::Break,
            31 => Javascript::Continue,
            32 => Javascript::Debugger,
            33 => Javascript::Return,
            34 => Javascript::Throw,
            35 => Javascript::COLON,
            36 => Javascript::Case,
            37 => Javascript::Catch,
            38 => Javascript::Finally,
            39 => Javascript::Yield,
            40 => Javascript::EQ,
            41 => Javascript::LBRACK,
            42 => Javascript::RBRACK,
            43 => Javascript::HtmlCharacterReference,
            44 => Javascript::LT,
            45 => Javascript::GT,
            46 => Javascript::Identifier2,
            47 => Javascript::DOT,
            48 => Javascript::LTSLASH,
            49 => Javascript::SLASHGT,
            50 => Javascript::DQUOTE,
            51 => Javascript::SQUOTE,
            52 => Javascript::StringFragment,
            53 => Javascript::StringFragment2,
            54 => Javascript::Class2,
            55 => Javascript::Extends,
            56 => Javascript::Async,
            57 => Javascript::Function,
            58 => Javascript::EQGT,
            59 => Javascript::OptionalChain,
            60 => Javascript::New,
            61 => Javascript::PLUSEQ,
            62 => Javascript::DASHEQ,
            63 => Javascript::STAREQ,
            64 => Javascript::SLASHEQ,
            65 => Javascript::PERCENTEQ,
            66 => Javascript::CARETEQ,
            67 => Javascript::AMPEQ,
            68 => Javascript::PIPEEQ,
            69 => Javascript::GTGTEQ,
            70 => Javascript::GTGTGTEQ,
            71 => Javascript::LTLTEQ,
            72 => Javascript::STARSTAREQ,
            73 => Javascript::AMPAMPEQ,
            74 => Javascript::PIPEPIPEEQ,
            75 => Javascript::QMARKQMARKEQ,
            76 => Javascript::DOTDOTDOT,
            77 => Javascript::AMPAMP,
            78 => Javascript::PIPEPIPE,
            79 => Javascript::GTGT,
            80 => Javascript::GTGTGT,
            81 => Javascript::LTLT,
            82 => Javascript::AMP,
            83 => Javascript::CARET,
            84 => Javascript::PIPE,
            85 => Javascript::PLUS,
            86 => Javascript::DASH,
            87 => Javascript::SLASH,
            88 => Javascript::PERCENT,
            89 => Javascript::STARSTAR,
            90 => Javascript::LTEQ,
            91 => Javascript::EQEQ,
            92 => Javascript::EQEQEQ,
            93 => Javascript::BANGEQ,
            94 => Javascript::BANGEQEQ,
            95 => Javascript::GTEQ,
            96 => Javascript::QMARKQMARK,
            97 => Javascript::Instanceof,
            98 => Javascript::BANG,
            99 => Javascript::TILDE,
            100 => Javascript::Typeof,
            101 => Javascript::Void,
            102 => Javascript::Delete,
            103 => Javascript::PLUSPLUS,
            104 => Javascript::DASHDASH,
            105 => Javascript::StringFragment3,
            106 => Javascript::StringFragment4,
            107 => Javascript::EscapeSequence,
            108 => Javascript::Comment,
            109 => Javascript::BQUOTE,
            110 => Javascript::DOLLARLBRACE,
            111 => Javascript::SLASH2,
            112 => Javascript::RegexPattern,
            113 => Javascript::RegexFlags,
            114 => Javascript::Number,
            115 => Javascript::PrivatePropertyIdentifier,
            116 => Javascript::Target,
            117 => Javascript::Meta,
            118 => Javascript::This,
            119 => Javascript::Super,
            120 => Javascript::True,
            121 => Javascript::False,
            122 => Javascript::Null,
            123 => Javascript::Undefined,
            124 => Javascript::AT,
            125 => Javascript::Static,
            126 => Javascript::StaticGet,
            127 => Javascript::Get,
            128 => Javascript::SetLiteral,
            129 => Javascript::AutomaticSemicolon,
            130 => Javascript::StringFragment5,
            131 => Javascript::QMARK,
            132 => Javascript::HtmlComment,
            133 => Javascript::JsxText,
            134 => Javascript::Program,
            135 => Javascript::ExportStatement,
            136 => Javascript::NamespaceExport,
            137 => Javascript::ExportClause,
            138 => Javascript::ExportSpecifier,
            139 => Javascript::ModuleExportName,
            140 => Javascript::Declaration,
            141 => Javascript::Import,
            142 => Javascript::ImportStatement,
            143 => Javascript::ImportClause,
            144 => Javascript::FromClause,
            145 => Javascript::NamespaceImport,
            146 => Javascript::NamedImports,
            147 => Javascript::ImportSpecifier,
            148 => Javascript::ImportAttribute,
            149 => Javascript::Statement,
            150 => Javascript::ExpressionStatement,
            151 => Javascript::VariableDeclaration,
            152 => Javascript::LexicalDeclaration,
            153 => Javascript::UsingDeclaration,
            154 => Javascript::VariableDeclarator,
            155 => Javascript::StatementBlock,
            156 => Javascript::ElseClause,
            157 => Javascript::IfStatement,
            158 => Javascript::SwitchStatement,
            159 => Javascript::ForStatement,
            160 => Javascript::ForInStatement,
            161 => Javascript::ForHeader,
            162 => Javascript::WhileStatement,
            163 => Javascript::DoStatement,
            164 => Javascript::TryStatement,
            165 => Javascript::WithStatement,
            166 => Javascript::BreakStatement,
            167 => Javascript::ContinueStatement,
            168 => Javascript::DebuggerStatement,
            169 => Javascript::ReturnStatement,
            170 => Javascript::ThrowStatement,
            171 => Javascript::EmptyStatement,
            172 => Javascript::LabeledStatement,
            173 => Javascript::SwitchBody,
            174 => Javascript::SwitchCase,
            175 => Javascript::SwitchDefault,
            176 => Javascript::CatchClause,
            177 => Javascript::FinallyClause,
            178 => Javascript::ParenthesizedExpression,
            179 => Javascript::Expression,
            180 => Javascript::PrimaryExpression,
            181 => Javascript::YieldExpression,
            182 => Javascript::Object,
            183 => Javascript::ObjectPattern,
            184 => Javascript::AssignmentPattern,
            185 => Javascript::ObjectAssignmentPattern,
            186 => Javascript::Array,
            187 => Javascript::ArrayPattern,
            188 => Javascript::JsxElement,
            189 => Javascript::JsxExpression,
            190 => Javascript::JsxOpeningElement,
            191 => Javascript::MemberExpression,
            192 => Javascript::JsxNamespaceName,
            193 => Javascript::JsxClosingElement,
            194 => Javascript::JsxSelfClosingElement,
            195 => Javascript::JsxAttribute,
            196 => Javascript::String,
            197 => Javascript::Class,
            198 => Javascript::ClassDeclaration,
            199 => Javascript::ClassHeritage,
            200 => Javascript::FunctionExpression,
            201 => Javascript::FunctionDeclaration,
            202 => Javascript::GeneratorFunction,
            203 => Javascript::GeneratorFunctionDeclaration,
            204 => Javascript::ArrowFunction,
            205 => Javascript::CallExpression,
            206 => Javascript::NewExpression,
            207 => Javascript::AwaitExpression,
            208 => Javascript::MemberExpression2,
            209 => Javascript::SubscriptExpression,
            210 => Javascript::AssignmentExpression,
            211 => Javascript::AugmentedAssignmentLhs,
            212 => Javascript::AugmentedAssignmentExpression,
            213 => Javascript::Initializer,
            214 => Javascript::DestructuringPattern,
            215 => Javascript::SpreadElement,
            216 => Javascript::TernaryExpression,
            217 => Javascript::BinaryExpression,
            218 => Javascript::UnaryExpression,
            219 => Javascript::UpdateExpression,
            220 => Javascript::SequenceExpression,
            221 => Javascript::String2,
            222 => Javascript::TemplateString,
            223 => Javascript::TemplateSubstitution,
            224 => Javascript::Regex,
            225 => Javascript::MetaProperty,
            226 => Javascript::Arguments,
            227 => Javascript::Decorator,
            228 => Javascript::MemberExpression3,
            229 => Javascript::CallExpression2,
            230 => Javascript::ClassBody,
            231 => Javascript::FieldDefinition,
            232 => Javascript::FormalParameters,
            233 => Javascript::ClassStaticBlock,
            234 => Javascript::Pattern,
            235 => Javascript::RestPattern,
            236 => Javascript::MethodDefinition,
            237 => Javascript::Pair,
            238 => Javascript::PairPattern,
            239 => Javascript::PropertyName,
            240 => Javascript::ComputedPropertyName,
            241 => Javascript::ProgramRepeat1,
            242 => Javascript::ExportStatementRepeat1,
            243 => Javascript::ExportClauseRepeat1,
            244 => Javascript::NamedImportsRepeat1,
            245 => Javascript::VariableDeclarationRepeat1,
            246 => Javascript::SwitchBodyRepeat1,
            247 => Javascript::ObjectRepeat1,
            248 => Javascript::ObjectPatternRepeat1,
            249 => Javascript::ArrayRepeat1,
            250 => Javascript::ArrayPatternRepeat1,
            251 => Javascript::JsxElementRepeat1,
            252 => Javascript::JsxOpeningElementRepeat1,
            253 => Javascript::JsxStringRepeat1,
            254 => Javascript::JsxStringRepeat2,
            255 => Javascript::SequenceExpressionRepeat1,
            256 => Javascript::StringRepeat1,
            257 => Javascript::StringRepeat2,
            258 => Javascript::TemplateStringRepeat1,
            259 => Javascript::ClassBodyRepeat1,
            260 => Javascript::FormalParametersRepeat1,
            261 => Javascript::PropertyIdentifier,
            262 => Javascript::ShorthandPropertyIdentifier,
            263 => Javascript::ShorthandPropertyIdentifierPattern,
            264 => Javascript::StatementIdentifier,
            _ => Javascript::Error,
        }
    }

    /// The display string of this kind.
    pub fn as_str(&self) -> (r: &'static str)
        ensures
            r@ == self.text(),
    {
        match self {
            Javascript::End => "end",
            Javascript::Identifier => "identifier",
            Javascript::HashBangLine => "hash_bang_line",
            Javascript::Export => "export",
            Javascript::STAR => "*",
            Javascript::Default => "default",
            Javascript::As => "as",
            Javascript::LBRACE => "{",
            Javascript::COMMA => ",",
            Javascript::RBRACE => "}",
            Javascript::Import2 => "import",
            Javascript::From => "from",
            Javascript::With => "with",
            Javascript::Var => "var",
            Javascript::Let => "let",
            Javascript::Const => "const",
            Javascript::Using => "using",
            Javascript::Await => "await",
            Javascript::Of => "of",
            Javascript::Else => "else",
            Javascript::If => "if",
            Javascript::Switch => "switch",
            Javascript::For => "for",
            Javascript::LPAREN => "(",
            Javascript::SEMI => ";",
            Javascript::RPAREN => ")",
            Javascript::In => "in",
            Javascript::While => "while",
            Javascript::Do => "do",
            Javascript::Try => "try",
            Javascript::Break => "break",
            Javascript::Continue => "continue",
            Javascript::Debugger => "debugger",
            Javascript::Return => "return",
            Javascript::Throw => "throw",
            Javascript::COLON => ":",
            Javascript::Case => "case",
            Javascript::Catch => "catch",
            Javascript::Finally => "finally",
            Javascript::Yield => "yield",
            Javascript::EQ => "=",
            Javascript::LBRACK => "[",
            Javascript::RBRACK => "]",
            Javascript::HtmlCharacterReference => "html_character_reference",
            Javascript::LT => "<",
            Javascript::GT => ">",
            Javascript::Identifier2 => "identifier",
            Javascript::DOT => ".",
            Javascript::LTSLASH => "</",
            Javascript::SLASHGT => "/>",
            Javascript::DQUOTE => "\"",
            Javascript::SQUOTE => "'",
            Javascript::StringFragment => "string_fragment",
            Javascript::StringFragment2 => "string_fragment",
            Javascript::Class2 => "class",
            Javascript::Extends => "extends",
            Javascript::Async => "async",
            Javascript::Function => "function",
            Javascript::EQGT => "=>",
            Javascript::OptionalChain => "optional_chain",
            Javascript::New => "new",
            Javascript::PLUSEQ => "+=",
            Javascript::DASHEQ => "-=",
            Javascript::STAREQ => "*=",
            Javascript::SLASHEQ => "/=",
            Javascript::PERCENTEQ => "%=",
            Javascript::CARETEQ => "^=",
            Javascript::AMPEQ => "&=",
            Javascript::PIPEEQ => "|=",
            Javascript::GTGTEQ => ">>=",
            Javascript::GTGTGTEQ => ">>>=",
            Javascript::LTLTEQ => "<<=",
            Javascript::STARSTAREQ => "**=",
            Javascript::AMPAMPEQ => "&&=",
            Javascript::PIPEPIPEEQ => "||=",
            Javascript::QMARKQMARKEQ => "??=",
            Javascript::DOTDOTDOT => "...",
            Javascript::AMPAMP => "&&",
            Javascript::PIPEPIPE => "||",
            Javascript::GTGT => ">>",
            Javascript::GTGTGT => ">>>",
            Javascript::LTLT => "<<",
            Javascript::AMP => "&",
            Javascript::CARET => "^",
            Javascript::PIPE => "|",
            Javascript::PLUS => "+",
            Javascript::DASH => "-",
            Javascript::SLASH => "/",
            Javascript::PERCENT => "%",
            Javascript::STARSTAR => "**",
            Javascript::LTEQ => "<=",
            Javascript::EQEQ => "==",
            Javascript::EQEQEQ => "===",
            Javascript::BANGEQ => "!=",
            Javascript::BANGEQEQ => "!==",
            Javascript::GTEQ => ">=",
            Javascript::QMARKQMARK => "??",
            Javascript::Instanceof => "instanceof",
            Javascript::BANG => "!",
            Javascript::TILDE => "~",
            Javascript::Typeof => "typeof",
            Javascript::Void => "void",
            Javascript::Delete => "delete",
            Javascript::PLUSPLUS => "++",
            Javascript::DASHDASH => "--",
            Javascript::StringFragment3 => "string_fragment",
            Javascript::StringFragment4 => "string_fragment",
            Javascript::EscapeSequence => "escape_sequence",
            Javascript::Comment => "comment",
            Javascript::BQUOTE => "`",
            Javascript::DOLLARLBRACE => "${",
            Javascript::SLASH2 => "/",
            Javascript::RegexPattern => "regex_pattern",
            Javascript::RegexFlags => "regex_flags",
            Javascript::Number => "number",
            Javascript::PrivatePropertyIdentifier => "private_property_identifier",
            Javascript::Target => "target",
            Javascript::Meta => "meta",
            Javascript::This => "this",
            Javascript::Super => "super",
            Javascript::True => "true",
            Javascript::False => "false",
            Javascript::Null => "null",
            Javascript::Undefined => "undefined",
            Javascript::AT => "@",
            Javascript::Static => "static",
            Javascript::StaticGet => "static get",
            Javascript::Get => "get",
            Javascript::SetLiteral => "set",
            Javascript::AutomaticSemicolon => "_automatic_semicolon",
            Javascript::StringFragment5 => "string_fragment",
            Javascript::QMARK => "?",
            Javascript::HtmlComment => "html_comment",
            Javascript::JsxText => "jsx_text",
            Javascript::Program => "program",
            Javascript::ExportStatement => "export_statement",
            Javascript::NamespaceExport => "namespace_export",
            Javascript::ExportClause => "export_clause",
            Javascript::ExportSpecifier => "export_specifier",
            Javascript::ModuleExportName => "_module_export_name",
            Javascript::Declaration => "declaration",
            Javascript::Import => "import",
            Javascript::ImportStatement => "import_statement",
            Javascript::ImportClause => "import_clause",
            Javascript::FromClause => "_from_clause",
            Javascript::NamespaceImport => "namespace_import",
            Javascript::NamedImports => "named_imports",
            Javascript::ImportSpecifier => "import_specifier",
            Javascript::ImportAttribute => "import_attribute",
            Javascript::Statement => "statement",
            Javascript::ExpressionStatement => "expression_statement",
            Javascript::VariableDeclaration => "variable_declaration",
            Javascript::LexicalDeclaration => "lexical_declaration",
            Javascript::UsingDeclaration => "using_declaration",
            Javascript::VariableDeclarator => "variable_declarator",
            Javascript::StatementBlock => "statement_block",
            Javascript::ElseClause => "else_clause",
            Javascript::IfStatement => "if_statement",
            Javascript::SwitchStatement => "switch_statement",
            Javascript::ForStatement => "for_statement",
            Javascript::ForInStatement => "for_in_statement",
            Javascript::ForHeader => "_for_header",
            Javascript::WhileStatement => "while_statement",
            Javascript::DoStatement => "do_statement",
            Javascript::TryStatement => "try_statement",
            Javascript::WithStatement => "with_statement",
            Javascript::BreakStatement => "break_statement",
            Javascript::ContinueStatement => "continue_statement",
            Javascript::DebuggerStatement => "debugger_statement",
            Javascript::ReturnStatement => "return_statement",
            Javascript::ThrowStatement => "throw_statement",
            Javascript::EmptyStatement => "empty_statement",
            Javascript::LabeledStatement => "labeled_statement",
            Javascript::SwitchBody => "switch_body",
            Javascript::SwitchCase => "switch_case",
            Javascript::SwitchDefault => "switch_default",
            Javascript::CatchClause => "catch_clause",
            Javascript::FinallyClause => "finally_clause",
            Javascript::ParenthesizedExpression => "parenthesized_expression",
            Javascript::Expression => "expression",
            Javascript::PrimaryExpression => "primary_expression",
            Javascript::YieldExpression => "yield_expression",
            Javascript::Object => "object",
            Javascript::ObjectPattern => "object_pattern",
            Javascript::AssignmentPattern => "assignment_pattern",
            Javascript::ObjectAssignmentPattern => "object_assignment_pattern",
            Javascript::Array => "array",
            Javascript::ArrayPattern => "array_pattern",
            Javascript::JsxElement => "jsx_element",
            Javascript::JsxExpression => "jsx_expression",
            Javascript::JsxOpeningElement => "jsx_opening_element",
            Javascript::MemberExpression => "member_expression",
            Javascript::JsxNamespaceName => "jsx_namespace_name",
            Javascript::JsxClosingElement => "jsx_closing_element",
            Javascript::JsxSelfClosingElement => "jsx_self_closing_element",
            Javascript::JsxAttribute => "jsx_attribute",
            Javascript::String => "string",
            Javascript::Class => "class",
            Javascript::ClassDeclaration => "class_declaration",
            Javascript::ClassHeritage => "class_heritage",
            Javascript::FunctionExpression => "function_expression",
            Javascript::FunctionDeclaration => "function_declaration",
            Javascript::GeneratorFunction => "generator_function",
            Javascript::GeneratorFunctionDeclaration => "generator_function_declaration",
            Javascript::ArrowFunction => "arrow_function",
            Javascript::CallExpression => "call_expression",
            Javascript::NewExpression => "new_expression",
            Javascript::AwaitExpression => "await_expression",
            Javascript::MemberExpression2 => "member_expression",
            Javascript::SubscriptExpression => "subscript_expression",
            Javascript::AssignmentExpression => "assignment_expression",
            Javascript::AugmentedAssignmentLhs => "_augmented_assignment_lhs",
            Javascript::AugmentedAssignmentExpression => "augmented_assignment_expression",
            Javascript::Initializer => "_initializer",
            Javascript::DestructuringPattern => "_destructuring_pattern",
            Javascript::SpreadElement => "spread_element",
            Javascript::TernaryExpression => "ternary_expression",
            Javascript::BinaryExpression => "binary_expression",
            Javascript::UnaryExpression => "unary_expression",
            Javascript::UpdateExpression => "update_expression",
            Javascript::SequenceExpression => "sequence_expression",
            Javascript::String2 => "string",
            Javascript::TemplateString => "template_string",
            Javascript::TemplateSubstitution => "template_substitution",
            Javascript::Regex => "regex",
            Javascript::MetaProperty => "meta_property",
            Javascript::Arguments => "arguments",
            Javascript::Decorator => "decorator",
            Javascript::MemberExpression3 => "member_expression",
            Javascript::CallExpression2 => "call_expression",
            Javascript::ClassBody => "class_body",
            Javascript::FieldDefinition => "field_definition",
            Javascript::FormalParameters => "formal_parameters",
            Javascript::ClassStaticBlock => "class_static_block",
            Javascript::Pattern => "pattern",
            Javascript::RestPattern => "rest_pattern",
            Javascript::MethodDefinition => "method_definition",
            Javascript::Pair => "pair",
            Javascript::PairPattern => "pair_pattern",
            Javascript::PropertyName => "_property_name",
            Javascript::ComputedPropertyName => "computed_property_name",
            Javascript::ProgramRepeat1 => "program_repeat1",
            Javascript::ExportStatementRepeat1 => "export_statement_repeat1",
            Javascript::ExportClauseRepeat1 => "export_clause_repeat1",
            Javascript::NamedImportsRepeat1 => "named_imports_repeat1",
            Javascript::VariableDeclarationRepeat1 => "variable_declaration_repeat1",
            Javascript::SwitchBodyRepeat1 => "switch_body_repeat1",
            Javascript::ObjectRepeat1 => "object_repeat1",
            Javascript::ObjectPatternRepeat1 => "object_pattern_repeat1",
            Javascript::ArrayRepeat1 => "array_repeat1",
            Javascript::ArrayPatternRepeat1 => "array_pattern_repeat1",
            Javascript::JsxElementRepeat1 => "jsx_element_repeat1",
            Javascript::JsxOpeningElementRepeat1 => "jsx_opening_element_repeat1",
            Javascript::JsxStringRepeat1 => "_jsx_string_repeat1",
            Javascript::JsxStringRepeat2 => "_jsx_string_repeat2",
            Javascript::SequenceExpressionRepeat1 => "sequence_expression_repeat1",
            Javascript::StringRepeat1 => "string_repeat1",
            Javascript::StringRepeat2 => "string_repeat2",
            Javascript::TemplateStringRepeat1 => "template_string_repeat1",
            Javascript::ClassBodyRepeat1 => "class_body_repeat1",
            Javascript::FormalParametersRepeat1 => "formal_parameters_repeat1",
            Javascript::PropertyIdentifier => "property_identifier",
            Javascript::ShorthandPropertyIdentifier => "shorthand_property_identifier",
            Javascript::ShorthandPropertyIdentifierPattern => "shorthand_property_identifier_pattern",
            Javascript::StatementIdentifier => "statement_identifier",
            Javascript::Error => "ERROR",
        }
    }
}

impl From<u16> for Javascript {
    fn from(x: u16) -> (r: Javascript)
        ensures
            r == Javascript::spec_from_id(x),
    {
        Javascript::from_u16(x)
    }
}

impl vstd::std_specs::convert::FromSpecImpl<u16> for Javascript {
    open spec fn obeys_from_spec() -> bool {
        true
    }

    open spec fn from_spec(x: u16) -> Javascript {
        Javascript::spec_from_id(x)
    }
}

/// A kind id read back from its kind gives that kind again.
pub proof fn lemma_id_round_trip(k: Javascript)
    ensures
        Javascript::spec_from_id(k.id()) == k,
{
}

} // verus!
